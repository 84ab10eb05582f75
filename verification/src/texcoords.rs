//! Texture coordinates: a four-byte header, then four planes of
//! delta-encoded bytes.

use vstd::arithmetic::div_mod::{lemma_add_mod_noop_right, lemma_mod_bound, lemma_small_mod};
use vstd::prelude::*;

use crate::bytes::{le_u16, read_u16_le};
use crate::error::{DecodeError, DecodeResult};
use crate::{UvTransform, Vertex};

verus! {

/// The number of bytes before the planes.
pub const UV_HEADER_LEN: usize = 4;

/// The bound at which the U channel wraps: the largest `u`, which the first
/// two bytes hold, and one.
pub open spec fn u_modulus(packed: Seq<u8>) -> int {
    1 + le_u16(packed[0], packed[1])
}

/// The bound at which the V channel wraps: the largest `v`, which bytes two
/// and three hold, and one.
pub open spec fn v_modulus(packed: Seq<u8>) -> int {
    1 + le_u16(packed[2], packed[3])
}

/// The `i`-th delta of a channel, of `n` vertices. The planes behind the
/// header are the low bytes of U, the low bytes of V, the high bytes of U and
/// the high bytes of V; `channel` is 0 for U and 1 for V.
pub open spec fn uv_delta(packed: Seq<u8>, n: int, channel: int, i: int) -> int {
    le_u16(packed[4 + channel * n + i], packed[4 + (channel + 2) * n + i])
}

/// The deltas of a channel up to and including the `i`-th, added up.
pub open spec fn uv_delta_sum(packed: Seq<u8>, n: int, channel: int, i: int) -> int
    decreases i + 1,
{
    if i < 0 {
        0
    } else {
        uv_delta_sum(packed, n, channel, i - 1) + uv_delta(packed, n, channel, i)
    }
}

/// The `u` of the `i`-th of `n` vertices: the running sum of the U deltas,
/// wrapped at the U bound.
pub open spec fn unpacked_u(packed: Seq<u8>, n: int, i: int) -> int {
    uv_delta_sum(packed, n, 0, i) % u_modulus(packed)
}

/// The `v` of the `i`-th of `n` vertices: the running sum of the V deltas,
/// wrapped at the V bound.
pub open spec fn unpacked_v(packed: Seq<u8>, n: int, i: int) -> int {
    uv_delta_sum(packed, n, 1, i) % v_modulus(packed)
}

/// A vertex with the texture coordinates that `packed` gives to the `i`-th
/// of `n` vertices, and the rest as it was.
pub open spec fn with_tex_coords(vertex: Vertex, packed: Seq<u8>, n: int, i: int) -> Vertex {
    Vertex {
        x: vertex.x,
        y: vertex.y,
        z: vertex.z,
        w: vertex.w,
        u: unpacked_u(packed, n, i) as u16,
        v: unpacked_v(packed, n, i) as u16,
    }
}

/// The transform that goes with `packed`.
pub open spec fn unpacked_uv_transform(packed: Seq<u8>) -> UvTransform {
    UvTransform { u_mod: u_modulus(packed) as u32, v_mod: v_modulus(packed) as u32 }
}

/// Both bounds lie between 1 and 65536, and every coordinate lies below its
/// bound: a sixteen-bit field holds it.
pub proof fn tex_coords_stay_below_their_bounds(packed: Seq<u8>, n: int, i: int)
    ensures
        1 <= u_modulus(packed) <= 0x1_0000,
        1 <= v_modulus(packed) <= 0x1_0000,
        0 <= unpacked_u(packed, n, i) < u_modulus(packed),
        0 <= unpacked_v(packed, n, i) < v_modulus(packed),
{
    lemma_mod_bound(uv_delta_sum(packed, n, 0, i), u_modulus(packed));
    lemma_mod_bound(uv_delta_sum(packed, n, 1, i), v_modulus(packed));
}

/// One step of a running sum that is kept wrapped at `m`.
proof fn wrapped_step(packed: Seq<u8>, n: int, channel: int, i: int, m: int)
    requires
        0 <= i,
        0 < m,
    ensures
        uv_delta_sum(packed, n, channel, i) % m == (uv_delta_sum(packed, n, channel, i - 1) % m
            + uv_delta(packed, n, channel, i)) % m,
{
    lemma_add_mod_noop_right(
        uv_delta(packed, n, channel, i),
        uv_delta_sum(packed, n, channel, i - 1),
        m,
    );
}

/// Unpacks texture coordinates into vertices that already have their
/// positions.
///
/// `packed` must hold the header and four bytes for each vertex, no more and
/// no less; any other length is refused and leaves the vertices as they were.
/// Otherwise each vertex gets its `u` and `v`, decoded as running sums that
/// wrap at the bounds of the header, and keeps its other fields.
pub fn unpack_tex_coords(packed: &[u8], vertices: &mut [Vertex]) -> (r: DecodeResult<UvTransform>)
    ensures
        final(vertices)@.len() == old(vertices)@.len(),
        packed@.len() != 4 + 4 * old(vertices)@.len() ==> {
            &&& r == Err::<UvTransform, DecodeError>(DecodeError::InvalidLength)
            &&& final(vertices)@ == old(vertices)@
        },
        packed@.len() == 4 + 4 * old(vertices)@.len() ==> {
            &&& r == Ok::<UvTransform, DecodeError>(unpacked_uv_transform(packed@))
            &&& forall|i: int|
                0 <= i < old(vertices)@.len() ==> final(vertices)@[i] == with_tex_coords(
                    old(vertices)@[i],
                    packed@,
                    old(vertices)@.len() as int,
                    i,
                )
        },
{
    let n = vertices.len();
    if packed.len() < UV_HEADER_LEN {
        return Err(DecodeError::InvalidLength);
    }
    let body = packed.len() - UV_HEADER_LEN;
    if body % 4 != 0 || body / 4 != n {
        return Err(DecodeError::InvalidLength);
    }
    let u_mod: u32 = 1 + read_u16_le(packed, 0) as u32;
    let v_mod: u32 = 1 + read_u16_le(packed, 2) as u32;
    let mut u: u32 = 0;
    let mut v: u32 = 0;
    let mut i: usize = 0;
    proof {
        lemma_small_mod(0, u_mod as nat);
        lemma_small_mod(0, v_mod as nat);
    }
    while i < n
        invariant
            packed@.len() == 4 + 4 * n,
            4 + 4 * n <= usize::MAX,
            vertices@.len() == n,
            n == old(vertices)@.len(),
            i <= n,
            u_mod == u_modulus(packed@),
            v_mod == v_modulus(packed@),
            u == unpacked_u(packed@, n as int, i - 1),
            v == unpacked_v(packed@, n as int, i - 1),
            forall|j: int|
                0 <= j < i ==> vertices@[j] == with_tex_coords(
                    old(vertices)@[j],
                    packed@,
                    n as int,
                    j,
                ),
            forall|j: int| i <= j < n ==> vertices@[j] == old(vertices)@[j],
        decreases n - i,
    {
        proof {
            wrapped_step(packed@, n as int, 0, i as int, u_mod as int);
            wrapped_step(packed@, n as int, 1, i as int, v_mod as int);
        }
        let du: u32 = packed[4 + i] as u32 + 256 * (packed[4 + 2 * n + i] as u32);
        let dv: u32 = packed[4 + n + i] as u32 + 256 * (packed[4 + 3 * n + i] as u32);
        u = (u + du) % u_mod;
        v = (v + dv) % v_mod;
        let vertex = vertices[i];
        vertices[i] = Vertex {
            x: vertex.x,
            y: vertex.y,
            z: vertex.z,
            w: vertex.w,
            u: u as u16,
            v: v as u16,
        };
        i = i + 1;
    }
    Ok(UvTransform { u_mod, v_mod })
}

} // verus!
