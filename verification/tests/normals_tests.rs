use rocktree_decode::{unpack_for_normals, unpack_normals, DecodeError};

#[test]
fn table_is_handed_on_unchanged() {
    assert_eq!(unpack_for_normals(&[]), Ok(Vec::new()));
    assert_eq!(unpack_for_normals(&[1, 2, 3, 250, 251, 252]), Ok(vec![1, 2, 3, 250, 251, 252]));
}

#[test]
fn table_that_is_not_whole_normals_is_refused() {
    for len in [1usize, 2, 4, 5, 7, 1000] {
        let table = vec![9u8; len];
        assert_eq!(unpack_for_normals(&table), Err(DecodeError::InvalidLength));
    }
}

#[test]
fn mesh_without_normals_gets_the_default_ones() {
    let table = [1u8, 2, 3];
    let lookups = [0u8, 0];
    let expected = vec![127, 127, 127, 0, 127, 127, 127, 0, 127, 127, 127, 0];
    assert_eq!(unpack_normals(None, None, 3), Ok(expected.clone()));
    assert_eq!(unpack_normals(None, Some(&table), 3), Ok(expected.clone()));
    assert_eq!(unpack_normals(Some(&lookups), None, 3), Ok(expected));
    assert_eq!(unpack_normals(None, None, 0), Ok(Vec::new()));
}

#[test]
fn default_normals_are_four_bytes_for_each_vertex() {
    for n in 0..50usize {
        let normals = unpack_normals(None, None, n).unwrap();
        assert_eq!(normals.len(), 4 * n);
    }
}

#[test]
fn each_vertex_gets_its_entry_and_the_padding() {
    let table = [10u8, 11, 12, 20, 21, 22, 30, 31, 32];
    // entries 2, 0, 1, 2: low bytes first, then high bytes
    let lookups = [2u8, 0, 1, 2, 0, 0, 0, 0];
    assert_eq!(
        unpack_normals(Some(&lookups), Some(&table), 4),
        Ok(vec![30, 31, 32, 0, 10, 11, 12, 0, 20, 21, 22, 0, 30, 31, 32, 0])
    );
}

#[test]
fn entry_number_has_sixteen_bits() {
    let mut table = vec![0u8; 3 * 300];
    table[3 * 258] = 7;
    table[3 * 258 + 1] = 8;
    table[3 * 258 + 2] = 9;
    // entry 258 = 2 + 256 * 1
    assert_eq!(unpack_normals(Some(&[2, 1]), Some(&table), 1), Ok(vec![7, 8, 9, 0]));
}

#[test]
fn no_vertices_and_no_lookups() {
    assert_eq!(unpack_normals(Some(&[]), Some(&[]), 0), Ok(Vec::new()));
    assert_eq!(unpack_normals(Some(&[]), Some(&[1, 2, 3]), 0), Ok(Vec::new()));
}

#[test]
fn lookups_for_another_number_of_vertices_are_refused() {
    let table = [1u8, 2, 3];
    assert_eq!(
        unpack_normals(Some(&[0, 0, 0]), Some(&table), 1),
        Err(DecodeError::InvalidLength)
    );
    assert_eq!(unpack_normals(Some(&[0, 0]), Some(&table), 2), Err(DecodeError::InvalidLength));
    assert_eq!(unpack_normals(Some(&[0, 0]), Some(&table), 0), Err(DecodeError::InvalidLength));
    assert_eq!(unpack_normals(Some(&[]), Some(&table), 1), Err(DecodeError::InvalidLength));
}

#[test]
fn table_that_was_not_checked_is_refused() {
    assert_eq!(
        unpack_normals(Some(&[0, 0]), Some(&[1, 2, 3, 4]), 1),
        Err(DecodeError::InvalidLength)
    );
}

#[test]
fn entry_outside_the_table_is_malformed() {
    let table = [1u8, 2, 3, 4, 5, 6];
    assert_eq!(unpack_normals(Some(&[2, 0]), Some(&table), 1), Err(DecodeError::Malformed));
    assert_eq!(unpack_normals(Some(&[0, 1]), Some(&table), 1), Err(DecodeError::Malformed));
    assert_eq!(unpack_normals(Some(&[0, 0]), Some(&[]), 1), Err(DecodeError::Malformed));
    assert_eq!(unpack_normals(Some(&[1, 0]), Some(&table), 1), Ok(vec![4, 5, 6, 0]));
}
