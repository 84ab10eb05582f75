//! Vertex positions: three planes of delta-encoded bytes.

use vstd::prelude::*;

use crate::error::{DecodeError, DecodeResult};
use crate::Vertex;

verus! {

/// The bytes of `plane` up to and including index `i`, added up.
pub open spec fn plane_sum(plane: Seq<u8>, i: int) -> int
    decreases i + 1,
{
    if i < 0 {
        0
    } else {
        plane_sum(plane, i - 1) + plane[i]
    }
}

/// The `i`-th byte of a delta-encoded plane once decoded: the running sum of
/// the plane, cut to eight bits.
pub open spec fn delta_decoded(plane: Seq<u8>, i: int) -> u8 {
    (plane_sum(plane, i) % 256) as u8
}

/// The `k`-th of the `parts` equal planes that `packed` is made of.
pub open spec fn plane(packed: Seq<u8>, parts: int, k: int) -> Seq<u8> {
    let n = packed.len() as int / parts;
    packed.subrange(k * n, (k + 1) * n)
}

/// The `i`-th vertex that `packed` holds: its position decoded from the X,
/// Y and Z planes, everything else zero.
pub open spec fn unpacked_vertex(packed: Seq<u8>, i: int) -> Vertex {
    Vertex {
        x: delta_decoded(plane(packed, 3, 0), i),
        y: delta_decoded(plane(packed, 3, 1), i),
        z: delta_decoded(plane(packed, 3, 2), i),
        w: 0,
        u: 0,
        v: 0,
    }
}

/// All the vertices that `packed` holds.
pub open spec fn unpacked_vertices(packed: Seq<u8>) -> Seq<Vertex> {
    Seq::new((packed.len() / 3) as nat, |i: int| unpacked_vertex(packed, i))
}

/// One step of a running sum that is kept cut to eight bits.
proof fn delta_step(plane: Seq<u8>, i: int)
    requires
        0 <= i,
    ensures
        delta_decoded(plane, i) == (delta_decoded(plane, i - 1) + plane[i]) % 256,
{
}

/// A plane of zero bytes adds up to zero.
proof fn zero_plane_sum(plane: Seq<u8>, i: int)
    requires
        i < plane.len(),
        forall|k: int| 0 <= k < plane.len() ==> plane[k] == 0,
    ensures
        plane_sum(plane, i) == 0,
    decreases i + 1,
{
    if i >= 0 {
        zero_plane_sum(plane, i - 1);
    }
}

/// Zero bytes, three for each vertex, decode to as many vertices with every
/// field zero.
pub proof fn zero_bytes_unpack_to_zero_vertices(packed: Seq<u8>)
    requires
        packed.len() % 3 == 0,
        forall|k: int| 0 <= k < packed.len() ==> packed[k] == 0,
    ensures
        unpacked_vertices(packed).len() == packed.len() / 3,
        forall|i: int|
            0 <= i < packed.len() / 3 ==> unpacked_vertices(packed)[i] == (Vertex {
                x: 0,
                y: 0,
                z: 0,
                w: 0,
                u: 0,
                v: 0,
            }),
{
    let n = packed.len() as int / 3;
    assert forall|i: int| 0 <= i < n implies unpacked_vertices(packed)[i] == (Vertex {
        x: 0,
        y: 0,
        z: 0,
        w: 0,
        u: 0,
        v: 0,
    }) by {
        zero_plane_sum(plane(packed, 3, 0), i);
        zero_plane_sum(plane(packed, 3, 1), i);
        zero_plane_sum(plane(packed, 3, 2), i);
    }
}

/// Unpacks delta-encoded vertex positions.
///
/// `packed` holds the X bytes of all vertices, then their Y bytes, then their
/// Z bytes. Each plane is a running sum with eight-bit wraparound. A length
/// that is not a multiple of three is refused; every other input decodes.
pub fn unpack_vertices(packed: &[u8]) -> (r: DecodeResult<Vec<Vertex>>)
    ensures
        packed@.len() % 3 != 0 ==> r == Err::<Vec<Vertex>, DecodeError>(DecodeError::InvalidLength),
        packed@.len() % 3 == 0 ==> r is Ok && r->Ok_0@ == unpacked_vertices(packed@),
{
    let len = packed.len();
    if len % 3 != 0 {
        return Err(DecodeError::InvalidLength);
    }
    let n = len / 3;
    let mut vertices: Vec<Vertex> = Vec::with_capacity(n);
    let mut x: u8 = 0;
    let mut y: u8 = 0;
    let mut z: u8 = 0;
    let mut i: usize = 0;
    while i < n
        invariant
            len == packed@.len(),
            len == 3 * n,
            i <= n,
            vertices@.len() == i,
            x == delta_decoded(plane(packed@, 3, 0), i - 1),
            y == delta_decoded(plane(packed@, 3, 1), i - 1),
            z == delta_decoded(plane(packed@, 3, 2), i - 1),
            forall|j: int| 0 <= j < i ==> vertices@[j] == unpacked_vertex(packed@, j),
        decreases n - i,
    {
        proof {
            delta_step(plane(packed@, 3, 0), i as int);
            delta_step(plane(packed@, 3, 1), i as int);
            delta_step(plane(packed@, 3, 2), i as int);
        }
        x = ((x as u16 + packed[i] as u16) % 256) as u8;
        y = ((y as u16 + packed[n + i] as u16) % 256) as u8;
        z = ((z as u16 + packed[2 * n + i] as u16) % 256) as u8;
        vertices.push(Vertex { x, y, z, w: 0, u: 0, v: 0 });
        i = i + 1;
    }
    Ok(vertices)
}

} // verus!
