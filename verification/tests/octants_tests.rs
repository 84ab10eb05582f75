use rocktree_decode::{unpack_octant_mask_and_layer_bounds, DecodeError, Vertex};

fn marked(n: usize) -> Vec<Vertex> {
    let mut vertices = Vec::new();
    for i in 0..n {
        vertices.push(Vertex { x: i as u8, y: 20, z: 30, w: 200, u: 500, v: 600 });
    }
    vertices
}

#[test]
fn empty_blob_and_empty_strip() {
    let mut vertices = marked(3);
    assert_eq!(unpack_octant_mask_and_layer_bounds(&[], &[], &mut vertices), Ok([0; 10]));
    assert_eq!(vertices, marked(3));
}

#[test]
fn octants_follow_the_groups() {
    // groups: one position, two, one, none (four times), two; then one in the next layer
    let packed = [1, 2, 1, 0, 0, 0, 0, 2, 1];
    let indices = [0, 1, 2, 3, 4, 1, 5];
    let mut vertices = marked(7);
    let bounds = unpack_octant_mask_and_layer_bounds(&packed, &indices, &mut vertices).unwrap();
    assert_eq!(bounds, [0, 6, 7, 7, 7, 7, 7, 7, 7, 7]);
    let octants: Vec<u8> = vertices.iter().map(|vertex| vertex.w).collect();
    // vertex 1 is named at positions 1 and 5: the later one, in octant 7, counts
    assert_eq!(octants, vec![0, 7, 1, 2, 7, 0, 200]);
    for (i, vertex) in vertices.iter().enumerate() {
        assert_eq!((vertex.x, vertex.y, vertex.z), (i as u8, 20, 30));
        assert_eq!((vertex.u, vertex.v), (500, 600));
    }
}

#[test]
fn bounds_are_where_the_layers_start() {
    // three full layers of one position for each octant, and 3 + 2 in a fourth
    let mut packed = vec![1u8; 24];
    packed.push(3);
    packed.push(2);
    let indices = vec![0u16; 29];
    let mut vertices = marked(1);
    let bounds = unpack_octant_mask_and_layer_bounds(&packed, &indices, &mut vertices).unwrap();
    assert_eq!(bounds, [0, 8, 16, 24, 29, 29, 29, 29, 29, 29]);
    // the last position lies in the second group of the fourth layer
    assert_eq!(vertices[0].w, 1);
}

#[test]
fn eight_full_layers_leave_two_entries_for_the_end() {
    let packed = vec![2u8; 64];
    let indices = vec![3u16; 128];
    let mut vertices = marked(4);
    let bounds = unpack_octant_mask_and_layer_bounds(&packed, &indices, &mut vertices).unwrap();
    assert_eq!(bounds, [0, 16, 32, 48, 64, 80, 96, 112, 128, 128]);
    assert_eq!(vertices[3].w, 7);
    assert_eq!(vertices[2].w, 200);
}

#[test]
fn last_bound_is_the_length_of_the_strip_and_bounds_never_decrease() {
    let mut seed: u32 = 7;
    for round in 0..200usize {
        let groups = round % 65;
        let mut packed = Vec::new();
        let mut total = 0usize;
        for _ in 0..groups {
            seed = seed.wrapping_mul(1_103_515_245).wrapping_add(12_345);
            let count = ((seed >> 16) % 5) as u8;
            packed.push(count);
            total += count as usize;
        }
        let indices: Vec<u16> = (0..total).map(|p| (p % 10) as u16).collect();
        let mut vertices = marked(10);
        let bounds = unpack_octant_mask_and_layer_bounds(&packed, &indices, &mut vertices).unwrap();
        assert_eq!(bounds[0], 0);
        assert_eq!(bounds[9], total);
        assert_eq!(bounds[8], total);
        for m in 1..10 {
            assert!(bounds[m - 1] <= bounds[m]);
        }
    }
}

#[test]
fn counts_may_take_several_bytes() {
    let packed = [0xac, 0x02, 1];
    let mut indices = vec![0u16; 300];
    indices.push(1);
    let mut vertices = marked(2);
    let bounds = unpack_octant_mask_and_layer_bounds(&packed, &indices, &mut vertices).unwrap();
    assert_eq!(bounds, [0, 301, 301, 301, 301, 301, 301, 301, 301, 301]);
    assert_eq!((vertices[0].w, vertices[1].w), (0, 1));
}

#[test]
fn counts_that_do_not_add_up_are_malformed() {
    for packed in [vec![], vec![1u8], vec![1, 1], vec![2, 2], vec![0, 0, 0]] {
        let mut vertices = marked(3);
        assert_eq!(
            unpack_octant_mask_and_layer_bounds(&packed, &[0, 1, 2], &mut vertices),
            Err(DecodeError::Malformed)
        );
        assert_eq!(vertices, marked(3));
    }
}

#[test]
fn index_without_a_vertex_is_malformed() {
    let mut vertices = marked(3);
    assert_eq!(
        unpack_octant_mask_and_layer_bounds(&[1, 1, 1], &[0, 1, 3], &mut vertices),
        Err(DecodeError::Malformed)
    );
    assert_eq!(vertices, marked(3));
}

#[test]
fn more_than_eight_layers_are_an_invalid_length() {
    let packed = vec![0u8; 65];
    let mut vertices = marked(3);
    assert_eq!(
        unpack_octant_mask_and_layer_bounds(&packed, &[], &mut vertices),
        Err(DecodeError::InvalidLength)
    );
    let packed = vec![0u8; 64];
    assert_eq!(unpack_octant_mask_and_layer_bounds(&packed, &[], &mut vertices), Ok([0; 10]));
}

#[test]
fn errors_of_the_encoding_come_first() {
    let mut vertices = marked(3);
    let mut packed = vec![0u8; 70];
    packed.push(0x80);
    assert_eq!(
        unpack_octant_mask_and_layer_bounds(&packed, &[9], &mut vertices),
        Err(DecodeError::Truncated)
    );
    assert_eq!(
        unpack_octant_mask_and_layer_bounds(&[0x80, 0x80, 0x80, 0x80, 0x80, 0], &[], &mut vertices),
        Err(DecodeError::Malformed)
    );
    assert_eq!(vertices, marked(3));
}
