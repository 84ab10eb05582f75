//! Triangle-strip indices: one encoded value for each index.

use vstd::prelude::*;

use crate::error::{DecodeError, DecodeResult};
use crate::varint::{
    final_bytes_from, one_value_for_each_final_byte, read_varints, varints_from,
};

verus! {

/// The largest value that is still an index.
pub const MAX_INDEX: u32 = 0xFFFF;

/// Whether each value is small enough to be an index.
pub open spec fn all_are_indices(values: Seq<u32>) -> bool {
    forall|i: int| 0 <= i < values.len() ==> values[i] <= MAX_INDEX
}

/// The values as indices, one for one and in the same order.
pub open spec fn as_indices(values: Seq<u32>) -> Seq<u16> {
    Seq::new(values.len(), |i: int| values[i] as u16)
}

/// The strip that `packed` holds. The bytes must be encoded values from the
/// first to the last; an error in the encoding comes first, and a stream
/// that is well encoded but holds a value over sixteen bits is `Malformed`.
pub open spec fn unpacked_indices(packed: Seq<u8>) -> Result<Seq<u16>, DecodeError> {
    match varints_from(packed, 0) {
        Err(e) => Err(e),
        Ok(values) => if all_are_indices(values) {
            Ok(as_indices(values))
        } else {
            Err(DecodeError::Malformed)
        },
    }
}

/// A strip has one index for each encoded value of its bytes, and so one
/// for each byte without the high bit.
pub proof fn strip_has_one_index_for_each_value(packed: Seq<u8>)
    requires
        unpacked_indices(packed) is Ok,
    ensures
        unpacked_indices(packed)->Ok_0.len() == final_bytes_from(packed, 0),
{
    one_value_for_each_final_byte(packed, 0);
}

/// Unpacks the indices of one triangle strip.
///
/// The result has one index for each encoded value, in order. Repeated
/// indices, which mark where a strip starts anew, are kept as they are.
/// Empty bytes are an empty strip.
pub fn unpack_indices(packed: &[u8]) -> (r: DecodeResult<Vec<u16>>)
    ensures
        packed@.len() == 0 ==> r is Ok && r->Ok_0@.len() == 0,
        match r {
            Ok(indices) => unpacked_indices(packed@) == Ok::<Seq<u16>, DecodeError>(indices@),
            Err(e) => unpacked_indices(packed@) == Err::<Seq<u16>, DecodeError>(e),
        },
{
    let values = match read_varints(packed) {
        Ok(values) => values,
        Err(e) => {
            return Err(e);
        },
    };
    let mut indices: Vec<u16> = Vec::with_capacity(values.len());
    let mut i: usize = 0;
    while i < values.len()
        invariant
            varints_from(packed@, 0) == Ok::<Seq<u32>, DecodeError>(values@),
            i <= values@.len(),
            indices@.len() == i,
            forall|j: int| 0 <= j < i ==> values@[j] <= MAX_INDEX && indices@[j] == values@[j],
        decreases values@.len() - i,
    {
        let value = values[i];
        if value > MAX_INDEX {
            return Err(DecodeError::Malformed);
        }
        indices.push(value as u16);
        i = i + 1;
    }
    assert(indices@ =~= as_indices(values@));
    Ok(indices)
}

} // verus!
