//! The octant of each vertex, and where each layer of detail ends in the
//! strip.
//!
//! The blob is a stream of encoded counts. The strip is cut into consecutive
//! groups, one for each count, as long as the count says. Eight groups, one
//! for each octant in turn, make one layer.

use vstd::prelude::*;

use crate::error::{DecodeError, DecodeResult};
use crate::varint::{read_varints, varints_from};
use crate::Vertex;

verus! {

/// The number of entries of the layer bounds.
pub const LAYER_BOUNDS_LEN: usize = 10;

/// The number of octants, and so of groups in a layer.
pub const OCTANT_COUNT: usize = 8;

/// The most counts that a blob may hold: eight layers of eight octants. The
/// last two entries of the bounds are thereby always the end of the strip.
pub const MAX_COUNTS: usize = 64;

/// The first `k` counts added up: the position in the strip at which group
/// `k` starts.
pub open spec fn counts_before(counts: Seq<u32>, k: int) -> int
    decreases k,
{
    if k <= 0 {
        0
    } else {
        counts_before(counts, k - 1) + counts[k - 1]
    }
}

/// All the counts added up.
pub open spec fn counts_total(counts: Seq<u32>) -> int {
    counts_before(counts, counts.len() as int)
}

/// Entry `m` of the layer bounds: where layer `m` starts in the strip, or the
/// end of the strip where there is no such layer.
pub open spec fn layer_bound(counts: Seq<u32>, m: int) -> int {
    if 8 * m <= counts.len() {
        counts_before(counts, 8 * m)
    } else {
        counts_total(counts)
    }
}

/// Among the first `k` groups, the last one that starts at or before
/// position `p`.
pub open spec fn group_below(counts: Seq<u32>, p: int, k: int) -> int
    decreases k,
{
    if k <= 1 {
        0
    } else if counts_before(counts, k - 1) <= p {
        k - 1
    } else {
        group_below(counts, p, k - 1)
    }
}

/// The group that position `p` of the strip falls in.
pub open spec fn group_of(counts: Seq<u32>, p: int) -> int {
    group_below(counts, p, counts.len() as int)
}

/// The octant of position `p` of the strip.
pub open spec fn octant_at(counts: Seq<u32>, p: int) -> u8 {
    (group_of(counts, p) % 8) as u8
}

/// The last position before `k` at which the strip names vertex `v`, or -1
/// where it names it nowhere before `k`.
pub open spec fn last_use_before(indices: Seq<u16>, v: int, k: int) -> int
    decreases k,
{
    if k <= 0 {
        -1
    } else if indices[k - 1] == v {
        k - 1
    } else {
        last_use_before(indices, v, k - 1)
    }
}

/// Vertex number `v` after the first `k` positions of the strip have been
/// gone through: its `w` is the octant of the last of them that names it,
/// and it is unchanged where none does.
pub open spec fn with_octant(
    vertex: Vertex,
    v: int,
    counts: Seq<u32>,
    indices: Seq<u16>,
    k: int,
) -> Vertex {
    let p = last_use_before(indices, v, k);
    if p < 0 {
        vertex
    } else {
        Vertex {
            x: vertex.x,
            y: vertex.y,
            z: vertex.z,
            w: octant_at(counts, p),
            u: vertex.u,
            v: vertex.v,
        }
    }
}

/// Whether every index names one of `vertex_count` vertices.
pub open spec fn all_in_range(indices: Seq<u16>, vertex_count: int) -> bool {
    forall|p: int| 0 <= p < indices.len() ==> indices[p] < vertex_count
}

/// What is wrong with the blob, held against the strip and the number of
/// vertices, if anything. An error in the encoding comes first. More than
/// `MAX_COUNTS` counts are an `InvalidLength`. Counts that do not add up to
/// the length of the strip, and an index that names no vertex, are
/// `Malformed`.
pub open spec fn octant_error(packed: Seq<u8>, indices: Seq<u16>, vertex_count: int) -> Option<
    DecodeError,
> {
    match varints_from(packed, 0) {
        Err(e) => Some(e),
        Ok(counts) => if counts.len() > MAX_COUNTS {
            Some(DecodeError::InvalidLength)
        } else if counts_total(counts) != indices.len() {
            Some(DecodeError::Malformed)
        } else if !all_in_range(indices, vertex_count) {
            Some(DecodeError::Malformed)
        } else {
            None
        },
    }
}

/// The counts of a blob that is well encoded.
pub open spec fn octant_counts(packed: Seq<u8>) -> Seq<u32> {
    varints_from(packed, 0)->Ok_0
}

/// Groups start later the later they come.
pub proof fn counts_before_is_monotonic(counts: Seq<u32>, a: int, b: int)
    requires
        a <= b,
    ensures
        0 <= counts_before(counts, a) <= counts_before(counts, b),
    decreases b,
{
    if b > 0 && a < b {
        counts_before_is_monotonic(counts, a, b - 1);
    } else if a > 0 {
        counts_before_is_monotonic(counts, a - 1, a - 1);
    }
}

/// A position lies in the one group that starts at or before it and ends
/// behind it.
pub proof fn group_of_is_the_enclosing_group(counts: Seq<u32>, p: int, i: int)
    requires
        0 <= i < counts.len(),
        counts_before(counts, i) <= p < counts_before(counts, i + 1),
    ensures
        group_of(counts, p) == i,
{
    group_below_is_the_enclosing_group(counts, p, i, counts.len() as int);
}

proof fn group_below_is_the_enclosing_group(counts: Seq<u32>, p: int, i: int, k: int)
    requires
        0 <= i < k,
        counts_before(counts, i) <= p < counts_before(counts, i + 1),
    ensures
        group_below(counts, p, k) == i,
    decreases k,
{
    if k <= 1 {
    } else if counts_before(counts, k - 1) <= p {
        if i + 1 <= k - 1 {
            counts_before_is_monotonic(counts, i + 1, k - 1);
        }
    } else {
        group_below_is_the_enclosing_group(counts, p, i, k - 1);
    }
}

/// The layer bounds of at most `MAX_COUNTS` counts start at zero, never
/// decrease, and end, in their last two entries, at the sum of the counts.
pub proof fn layer_bounds_partition_the_strip(counts: Seq<u32>)
    requires
        counts.len() <= MAX_COUNTS,
    ensures
        layer_bound(counts, 0) == 0,
        forall|a: int, b: int|
            0 <= a <= b < LAYER_BOUNDS_LEN ==> layer_bound(counts, a) <= layer_bound(counts, b),
        layer_bound(counts, 8) == counts_total(counts),
        layer_bound(counts, 9) == counts_total(counts),
{
    assert forall|a: int, b: int| 0 <= a <= b < LAYER_BOUNDS_LEN implies layer_bound(counts, a)
        <= layer_bound(counts, b) by {
        if 8 * b <= counts.len() {
            counts_before_is_monotonic(counts, 8 * a, 8 * b);
        } else if 8 * a <= counts.len() {
            counts_before_is_monotonic(counts, 8 * a, counts.len() as int);
        }
    }
}

/// Adds up the counts.
fn sum_counts(counts: &Vec<u32>) -> (total: u64)
    requires
        counts@.len() <= MAX_COUNTS,
    ensures
        total == counts_total(counts@),
{
    let mut total: u64 = 0;
    let mut k: usize = 0;
    while k < counts.len()
        invariant
            k <= counts@.len() <= MAX_COUNTS,
            total == counts_before(counts@, k as int),
            total <= k * 0xFFFF_FFFF,
        decreases counts@.len() - k,
    {
        total = total + counts[k] as u64;
        k = k + 1;
    }
    total
}

/// Tells whether every index names one of `vertex_count` vertices.
fn indices_in_range(indices: &[u16], vertex_count: usize) -> (ok: bool)
    ensures
        ok == all_in_range(indices@, vertex_count as int),
{
    let mut p: usize = 0;
    while p < indices.len()
        invariant
            p <= indices@.len(),
            forall|q: int| 0 <= q < p ==> indices@[q] < vertex_count,
        decreases indices@.len() - p,
    {
        if indices[p] as usize >= vertex_count {
            return false;
        }
        p = p + 1;
    }
    true
}

/// Gives each vertex that the strip names its octant, and computes the layer
/// bounds.
///
/// `packed` is the blob of counts, `indices` the strip as unpacked before,
/// `vertices` the vertices of the mesh. On success each vertex that the
/// strip names has in `w` the octant (0 to 7) of the last position that
/// names it, and every other field of every vertex is as it was. The bounds
/// returned never decrease, and the last one is the length of the strip. On
/// an error the vertices are as they were.
pub fn unpack_octant_mask_and_layer_bounds(
    packed: &[u8],
    indices: &[u16],
    vertices: &mut [Vertex],
) -> (r: DecodeResult<[usize; 10]>)
    ensures
        final(vertices)@.len() == old(vertices)@.len(),
        match r {
            Ok(bounds) => {
                &&& octant_error(packed@, indices@, old(vertices)@.len() as int) is None
                &&& forall|m: int|
                    0 <= m < LAYER_BOUNDS_LEN ==> bounds@[m] == layer_bound(
                        octant_counts(packed@),
                        m,
                    )
                &&& forall|a: int, b: int|
                    0 <= a <= b < LAYER_BOUNDS_LEN ==> bounds@[a] <= bounds@[b]
                &&& bounds@[LAYER_BOUNDS_LEN - 1] == indices@.len()
                &&& forall|v: int|
                    0 <= v < old(vertices)@.len() ==> final(vertices)@[v] == with_octant(
                        old(vertices)@[v],
                        v,
                        octant_counts(packed@),
                        indices@,
                        indices@.len() as int,
                    )
            },
            Err(e) => {
                &&& octant_error(packed@, indices@, old(vertices)@.len() as int) == Some(e)
                &&& final(vertices)@ == old(vertices)@
            },
        },
{
    let counts = match read_varints(packed) {
        Ok(counts) => counts,
        Err(e) => {
            return Err(e);
        },
    };
    if counts.len() > MAX_COUNTS {
        return Err(DecodeError::InvalidLength);
    }
    if sum_counts(&counts) != indices.len() as u64 {
        return Err(DecodeError::Malformed);
    }
    if !indices_in_range(indices, vertices.len()) {
        return Err(DecodeError::Malformed);
    }
    let total = indices.len();
    let mut bounds: [usize; 10] = [total; 10];
    let mut pos: usize = 0;
    let mut i: usize = 0;
    while i < counts.len()
        invariant
            octant_error(packed@, indices@, old(vertices)@.len() as int) is None,
            counts@ == octant_counts(packed@),
            counts@.len() <= MAX_COUNTS,
            counts_total(counts@) == total,
            total == indices@.len(),
            all_in_range(indices@, vertices@.len() as int),
            vertices@.len() == old(vertices)@.len(),
            i <= counts@.len(),
            pos == counts_before(counts@, i as int),
            forall|m: int|
                0 <= m < LAYER_BOUNDS_LEN ==> bounds@[m] == if 8 * m < i {
                    counts_before(counts@, 8 * m)
                } else {
                    total as int
                },
            forall|v: int|
                0 <= v < vertices@.len() ==> vertices@[v] == with_octant(
                    old(vertices)@[v],
                    v,
                    counts@,
                    indices@,
                    pos as int,
                ),
        decreases counts@.len() - i,
    {
        if i % OCTANT_COUNT == 0 {
            bounds[i / OCTANT_COUNT] = pos;
        }
        proof {
            counts_before_is_monotonic(counts@, i + 1, counts@.len() as int);
        }
        let octant = (i % OCTANT_COUNT) as u8;
        let end = pos + counts[i] as usize;
        while pos < end
            invariant
                counts@.len() <= MAX_COUNTS,
                total == indices@.len(),
                all_in_range(indices@, vertices@.len() as int),
                vertices@.len() == old(vertices)@.len(),
                i < counts@.len(),
                octant == i % 8,
                counts_before(counts@, i as int) <= pos <= end,
                end == counts_before(counts@, i + 1),
                end <= total,
                forall|v: int|
                    0 <= v < vertices@.len() ==> vertices@[v] == with_octant(
                        old(vertices)@[v],
                        v,
                        counts@,
                        indices@,
                        pos as int,
                    ),
            decreases end - pos,
        {
            proof {
                group_of_is_the_enclosing_group(counts@, pos as int, i as int);
            }
            let index = indices[pos] as usize;
            let vertex = vertices[index];
            vertices[index] = Vertex {
                x: vertex.x,
                y: vertex.y,
                z: vertex.z,
                w: octant,
                u: vertex.u,
                v: vertex.v,
            };
            pos = pos + 1;
        }
        i = i + 1;
    }
    proof {
        layer_bounds_partition_the_strip(counts@);
        assert forall|m: int| 0 <= m < LAYER_BOUNDS_LEN implies bounds@[m] == layer_bound(
            counts@,
            m,
        ) by {}
    }
    Ok(bounds)
}

} // verus!
