use rocktree_decode::compare::{
    compare_i64, compare_i64_array, compare_vertices, Mismatch, VERTEX_FIELDS,
};

fn whole(values: &[i64]) -> Vec<Option<i64>> {
    values.iter().map(|value| Some(*value)).collect()
}

fn vertex(x: i64, y: i64, z: i64, w: i64, u: i64, v: i64) -> [Option<i64>; 6] {
    [Some(x), Some(y), Some(z), Some(w), Some(u), Some(v)]
}

#[test]
fn equal_numbers_agree() {
    assert_eq!(compare_i64(5, 5), Ok(()));
    assert_eq!(compare_i64(i64::MIN, i64::MIN), Ok(()));
}

#[test]
fn different_numbers_are_reported_with_both_values() {
    assert_eq!(
        compare_i64(5, -5),
        Err(Mismatch::Value { index: 0, field: 0, left: 5, right: -5 })
    );
}

#[test]
fn equal_lists_agree() {
    assert_eq!(compare_i64_array(&[], &[]), Ok(()));
    assert_eq!(compare_i64_array(&whole(&[1, 2, 3]), &whole(&[1, 2, 3])), Ok(()));
}

#[test]
fn lists_of_different_length_are_reported_before_their_values() {
    assert_eq!(
        compare_i64_array(&whole(&[9, 2]), &whole(&[1, 2, 3])),
        Err(Mismatch::Length { left_len: 2, right_len: 3 })
    );
    assert_eq!(
        compare_i64_array(&[None], &[]),
        Err(Mismatch::Length { left_len: 1, right_len: 0 })
    );
}

#[test]
fn first_different_value_is_reported() {
    assert_eq!(
        compare_i64_array(&whole(&[1, 2, 3, 4]), &whole(&[1, 7, 3, 9])),
        Err(Mismatch::Value { index: 1, field: 0, left: 2, right: 7 })
    );
}

#[test]
fn missing_value_is_reported_left_side_first() {
    assert_eq!(
        compare_i64_array(&[Some(1), None], &[Some(1), None]),
        Err(Mismatch::InvalidLeft { index: 1, field: 0 })
    );
    assert_eq!(
        compare_i64_array(&[Some(1), Some(2)], &[Some(1), None]),
        Err(Mismatch::InvalidRight { index: 1, field: 0 })
    );
    assert_eq!(
        compare_i64_array(&[Some(1), None], &[Some(2), Some(2)]),
        Err(Mismatch::Value { index: 0, field: 0, left: 1, right: 2 })
    );
}

#[test]
fn list_agrees_with_itself_when_it_is_whole() {
    let side = whole(&[3, 1, 4, 1, 5, 9, 2, 6]);
    assert_eq!(compare_i64_array(&side, &side), Ok(()));
}

#[test]
fn equal_vertices_agree() {
    let left = [vertex(1, 2, 3, 4, 5, 6), vertex(7, 8, 9, 10, 11, 12)];
    assert_eq!(compare_vertices(&left, &left), Ok(()));
    assert_eq!(compare_vertices(&[], &[]), Ok(()));
    assert_eq!(VERTEX_FIELDS, 6);
}

#[test]
fn vertex_mismatch_names_the_vertex_and_the_field() {
    let left = [vertex(1, 2, 3, 4, 5, 6), vertex(7, 8, 9, 10, 11, 12)];
    let right = [vertex(1, 2, 3, 4, 5, 6), vertex(7, 8, 9, 10, 99, 0)];
    // vertex 1, field 4 (`u`)
    assert_eq!(
        compare_vertices(&left, &right),
        Err(Mismatch::Value { index: 1, field: 4, left: 11, right: 99 })
    );
}

#[test]
fn vertex_with_a_missing_field() {
    let whole_vertex = vertex(1, 2, 3, 4, 5, 6);
    let mut holed = whole_vertex;
    holed[3] = None;
    assert_eq!(
        compare_vertices(&[whole_vertex, holed], &[whole_vertex, whole_vertex]),
        Err(Mismatch::InvalidLeft { index: 1, field: 3 })
    );
    assert_eq!(
        compare_vertices(&[whole_vertex, whole_vertex], &[holed, whole_vertex]),
        Err(Mismatch::InvalidRight { index: 0, field: 3 })
    );
}

#[test]
fn vertex_lists_of_different_length() {
    let one = vertex(1, 2, 3, 4, 5, 6);
    assert_eq!(
        compare_vertices(&[one], &[one, one]),
        Err(Mismatch::Length { left_len: 1, right_len: 2 })
    );
}

#[test]
fn first_vertex_at_fault_is_reported_by_its_first_field_at_fault() {
    let left = [vertex(1, 2, 3, 4, 5, 6), vertex(7, 8, 9, 10, 11, 12), vertex(0, 0, 0, 0, 0, 0)];
    let right = [vertex(1, 2, 3, 4, 5, 6), vertex(7, 0, 9, 0, 11, 12), vertex(1, 1, 1, 1, 1, 1)];
    assert_eq!(
        compare_vertices(&left, &right),
        Err(Mismatch::Value { index: 1, field: 1, left: 8, right: 0 })
    );
}
