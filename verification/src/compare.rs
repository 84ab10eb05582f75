//! Comparing two summaries of the same decoded data, value by value.
//!
//! A summary is made of integers that may be missing where its source did
//! not hold a number. Two summaries agree when they are equally long and
//! every value is there on both sides and the same.

use vstd::prelude::*;

verus! {

/// The first thing in which two summaries differ.
///
/// `index` is the number of the entry at fault and `field` the number of
/// the value within that entry; in a list of plain numbers `field` is zero.
#[derive(Debug, Clone, Copy, PartialEq, Eq, Structural)]
pub enum Mismatch {
    /// The two sides do not hold equally many entries.
    Length { left_len: usize, right_len: usize },
    /// The left side holds no number there.
    InvalidLeft { index: usize, field: usize },
    /// The right side holds no number there.
    InvalidRight { index: usize, field: usize },
    /// The two sides hold different numbers there.
    Value { index: usize, field: usize, left: i64, right: i64 },
}

/// The number of values that a vertex contributes to a summary: `x`, `y`,
/// `z`, `w`, `u` and `v`, in that order.
pub const VERTEX_FIELDS: usize = 6;

/// What is wrong with the pair `left` and `right`, found at `field` of entry
/// `index`, if anything. A value missing on the left is reported before one
/// missing on the right.
pub open spec fn pair_mismatch(
    index: int,
    field: int,
    left: Option<i64>,
    right: Option<i64>,
) -> Option<Mismatch> {
    match (left, right) {
        (None, _) => Some(Mismatch::InvalidLeft { index: index as usize, field: field as usize }),
        (Some(_), None) => Some(
            Mismatch::InvalidRight { index: index as usize, field: field as usize },
        ),
        (Some(a), Some(b)) => if a != b {
            Some(
                Mismatch::Value {
                    index: index as usize,
                    field: field as usize,
                    left: a,
                    right: b,
                },
            )
        } else {
            None
        },
    }
}

/// The first mismatch at or behind position `from` of two equally long rows
/// of values, in which every `width` values in a row make one entry.
pub open spec fn first_mismatch_from(
    left: Seq<Option<i64>>,
    right: Seq<Option<i64>>,
    width: int,
    from: int,
) -> Option<Mismatch>
    decreases left.len() - from,
{
    if from >= left.len() {
        None
    } else {
        match pair_mismatch(from / width, from % width, left[from], right[from]) {
            Some(mismatch) => Some(mismatch),
            None => first_mismatch_from(left, right, width, from + 1),
        }
    }
}

/// The first mismatch of two lists of numbers: their lengths where these
/// differ, else the first index at which something is wrong.
pub open spec fn first_mismatch(left: Seq<Option<i64>>, right: Seq<Option<i64>>) -> Option<
    Mismatch,
> {
    if left.len() != right.len() {
        Some(Mismatch::Length { left_len: left.len() as usize, right_len: right.len() as usize })
    } else {
        first_mismatch_from(left, right, 1, 0)
    }
}

/// The values of a list of vertices in one row, six for each vertex.
pub open spec fn flattened(vertices: Seq<[Option<i64>; 6]>) -> Seq<Option<i64>> {
    Seq::new(vertices.len() * 6, |k: int| vertices[k / 6]@[k % 6])
}

/// The first mismatch of two lists of vertices: their lengths where these
/// differ, else the first value of the first vertex at which something is
/// wrong.
pub open spec fn first_vertex_mismatch(
    left: Seq<[Option<i64>; 6]>,
    right: Seq<[Option<i64>; 6]>,
) -> Option<Mismatch> {
    if left.len() != right.len() {
        Some(Mismatch::Length { left_len: left.len() as usize, right_len: right.len() as usize })
    } else {
        first_mismatch_from(flattened(left), flattened(right), 6, 0)
    }
}

/// Whether two rows of values agree: equally long, and at each position the
/// same number on both sides.
pub open spec fn sides_agree(left: Seq<Option<i64>>, right: Seq<Option<i64>>) -> bool {
    &&& left.len() == right.len()
    &&& forall|i: int| 0 <= i < left.len() ==> left[i] is Some && left[i] == right[i]
}

/// From `from` on there is no mismatch exactly when every pair from there on
/// is the same number twice.
pub proof fn no_mismatch_from_means_agreement(
    left: Seq<Option<i64>>,
    right: Seq<Option<i64>>,
    width: int,
    from: int,
)
    requires
        0 <= from,
        left.len() == right.len(),
    ensures
        first_mismatch_from(left, right, width, from) is None <==> forall|i: int|
            from <= i < left.len() ==> left[i] is Some && left[i] == right[i],
    decreases left.len() - from,
{
    if from < left.len() {
        no_mismatch_from_means_agreement(left, right, width, from + 1);
    }
}

/// Two lists of numbers have no mismatch exactly when they agree.
pub proof fn no_mismatch_means_agreement(left: Seq<Option<i64>>, right: Seq<Option<i64>>)
    ensures
        first_mismatch(left, right) is None <==> sides_agree(left, right),
{
    if left.len() == right.len() {
        no_mismatch_from_means_agreement(left, right, 1, 0);
    }
}

/// Two lists of vertices have no mismatch exactly when their values agree.
pub proof fn no_vertex_mismatch_means_agreement(
    left: Seq<[Option<i64>; 6]>,
    right: Seq<[Option<i64>; 6]>,
)
    ensures
        first_vertex_mismatch(left, right) is None <==> sides_agree(
            flattened(left),
            flattened(right),
        ),
{
    if left.len() == right.len() {
        no_mismatch_from_means_agreement(flattened(left), flattened(right), 6, 0);
    }
}

/// A list that holds numbers throughout has no mismatch with itself.
pub proof fn whole_side_agrees_with_itself(side: Seq<Option<i64>>)
    requires
        forall|i: int| 0 <= i < side.len() ==> side[i] is Some,
    ensures
        first_mismatch(side, side) is None,
{
    no_mismatch_means_agreement(side, side);
}

/// Compares two numbers.
pub fn compare_i64(left: i64, right: i64) -> (r: Result<(), Mismatch>)
    ensures
        left == right ==> r is Ok,
        left != right ==> r == Err::<(), Mismatch>(
            Mismatch::Value { index: 0, field: 0, left, right },
        ),
{
    if left != right {
        return Err(Mismatch::Value { index: 0, field: 0, left, right });
    }
    Ok(())
}

/// What is wrong with one pair, if anything.
fn compare_pair(index: usize, field: usize, left: Option<i64>, right: Option<i64>) -> (r: Option<
    Mismatch,
>)
    ensures
        r == pair_mismatch(index as int, field as int, left, right),
{
    match left {
        None => Some(Mismatch::InvalidLeft { index, field }),
        Some(a) => match right {
            None => Some(Mismatch::InvalidRight { index, field }),
            Some(b) => if a != b {
                Some(Mismatch::Value { index, field, left: a, right: b })
            } else {
                None
            },
        },
    }
}

/// Compares two lists of numbers and reports the first mismatch.
pub fn compare_i64_array(left: &[Option<i64>], right: &[Option<i64>]) -> (r: Result<(), Mismatch>)
    ensures
        match r {
            Ok(_) => first_mismatch(left@, right@) is None,
            Err(mismatch) => first_mismatch(left@, right@) == Some(mismatch),
        },
        r is Ok <==> sides_agree(left@, right@),
{
    proof {
        no_mismatch_means_agreement(left@, right@);
    }
    if left.len() != right.len() {
        return Err(Mismatch::Length { left_len: left.len(), right_len: right.len() });
    }
    let mut i: usize = 0;
    while i < left.len()
        invariant
            left@.len() == right@.len(),
            i <= left@.len(),
            first_mismatch(left@, right@) == first_mismatch_from(left@, right@, 1, i as int),
        decreases left@.len() - i,
    {
        if let Some(mismatch) = compare_pair(i, 0, left[i], right[i]) {
            return Err(mismatch);
        }
        i = i + 1;
    }
    Ok(())
}

/// Compares two lists of vertices, each vertex given by its six values, and
/// reports the first mismatch: the number of the vertex as `index` and the
/// number of the value within it as `field`.
pub fn compare_vertices(left: &[[Option<i64>; 6]], right: &[[Option<i64>; 6]]) -> (r: Result<
    (),
    Mismatch,
>)
    ensures
        match r {
            Ok(_) => first_vertex_mismatch(left@, right@) is None,
            Err(mismatch) => first_vertex_mismatch(left@, right@) == Some(mismatch),
        },
        r is Ok <==> sides_agree(flattened(left@), flattened(right@)),
{
    proof {
        no_vertex_mismatch_means_agreement(left@, right@);
    }
    if left.len() != right.len() {
        return Err(Mismatch::Length { left_len: left.len(), right_len: right.len() });
    }
    let n = left.len();
    let mut i: usize = 0;
    while i < n
        invariant
            left@.len() == n,
            right@.len() == n,
            i <= n,
            first_vertex_mismatch(left@, right@) == first_mismatch_from(
                flattened(left@),
                flattened(right@),
                6,
                6 * i,
            ),
        decreases n - i,
    {
        let mut field: usize = 0;
        while field < VERTEX_FIELDS
            invariant
                left@.len() == n,
                right@.len() == n,
                i < n,
                field <= VERTEX_FIELDS,
                first_vertex_mismatch(left@, right@) == first_mismatch_from(
                    flattened(left@),
                    flattened(right@),
                    6,
                    6 * i + field,
                ),
            decreases VERTEX_FIELDS - field,
        {
            if let Some(mismatch) = compare_pair(i, field, left[i][field], right[i][field]) {
                return Err(mismatch);
            }
            field = field + 1;
        }
        i = i + 1;
    }
    Ok(())
}

} // verus!
