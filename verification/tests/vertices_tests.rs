use rocktree_decode::{unpack_vertices, DecodeError, Vertex};

fn position(x: u8, y: u8, z: u8) -> Vertex {
    Vertex { x, y, z, w: 0, u: 0, v: 0 }
}

#[test]
fn empty_input_gives_no_vertices() {
    assert_eq!(unpack_vertices(&[]), Ok(Vec::new()));
}

#[test]
fn zero_bytes_give_zero_vertices() {
    for n in 0..20usize {
        let packed = vec![0u8; 3 * n];
        let vertices = unpack_vertices(&packed).unwrap();
        assert_eq!(vertices.len(), n);
        for vertex in vertices {
            assert_eq!(vertex, position(0, 0, 0));
            assert_eq!(vertex, Vertex::default());
        }
    }
}

#[test]
fn one_vertex_is_its_three_bytes() {
    assert_eq!(unpack_vertices(&[10, 20, 30]), Ok(vec![position(10, 20, 30)]));
}

#[test]
fn planes_are_running_sums() {
    // X plane 1 2 3, Y plane 10 10 10, Z plane 0 5 0
    let packed = [1, 2, 3, 10, 10, 10, 0, 5, 0];
    assert_eq!(
        unpack_vertices(&packed),
        Ok(vec![position(1, 10, 0), position(3, 20, 5), position(6, 30, 5)])
    );
}

#[test]
fn running_sums_wrap_at_eight_bits() {
    // 200 + 100 = 300 = 44 mod 256; 255 + 1 = 0; 128 + 128 = 0
    let packed = [200, 100, 255, 1, 128, 128];
    assert_eq!(unpack_vertices(&packed), Ok(vec![position(200, 255, 128), position(44, 0, 0)]));
}

#[test]
fn each_coordinate_is_the_sum_of_its_plane_so_far() {
    let n = 50usize;
    let mut packed = Vec::new();
    for k in 0..3 * n {
        packed.push(((k * 37 + 11) % 251) as u8);
    }
    let vertices = unpack_vertices(&packed).unwrap();
    assert_eq!(vertices.len(), n);
    for i in 0..n {
        let mut sums = [0usize; 3];
        for plane in 0..3 {
            for k in 0..=i {
                sums[plane] += packed[plane * n + k] as usize;
            }
        }
        assert_eq!(vertices[i].x as usize, sums[0] % 256);
        assert_eq!(vertices[i].y as usize, sums[1] % 256);
        assert_eq!(vertices[i].z as usize, sums[2] % 256);
        assert_eq!((vertices[i].w, vertices[i].u, vertices[i].v), (0, 0, 0));
    }
}

#[test]
fn length_not_a_multiple_of_three_is_refused() {
    for len in [1usize, 2, 4, 5, 7, 8, 100] {
        let packed = vec![0u8; len];
        assert_eq!(unpack_vertices(&packed), Err(DecodeError::InvalidLength));
    }
}

#[test]
fn vertex_is_laid_out_in_eight_bytes() {
    let vertex = Vertex { x: 1, y: 2, z: 3, w: 4, u: 0x0605, v: 0x0807 };
    assert_eq!(vertex.to_bytes(), [1, 2, 3, 4, 5, 6, 7, 8]);
    assert_eq!(Vertex::PACKED_SIZE, 8);
    assert_eq!(Vertex::default().to_bytes(), [0; 8]);
}
