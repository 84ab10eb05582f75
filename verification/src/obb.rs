//! The oriented bounding box of a node: fifteen bytes.

use vstd::prelude::*;

use crate::bytes::{le_i16, le_u16, read_i16_le, read_u16_le};
use crate::error::{DecodeError, DecodeResult};
use crate::OrientedBoundingBox;

verus! {

/// The number of bytes of a packed box.
pub const PACKED_OBB_LEN: usize = 15;

/// Whether `obb` holds what the fifteen bytes of `packed` say: the center in
/// bytes 0 to 5, the extents in bytes 6 to 8, the angles in bytes 9 to 14,
/// each value of two bytes with its low byte first.
pub open spec fn is_unpacked_obb(obb: OrientedBoundingBox, packed: Seq<u8>) -> bool {
    &&& forall|k: int| 0 <= k < 3 ==> obb.center@[k] == le_i16(packed[2 * k], packed[2 * k + 1])
    &&& forall|k: int| 0 <= k < 3 ==> obb.extents@[k] == packed[6 + k]
    &&& forall|k: int|
        0 <= k < 3 ==> obb.orientation@[k] == le_u16(packed[9 + 2 * k], packed[10 + 2 * k])
}

/// Unpacks the bounding box of a node as the bytes hold it.
///
/// The box comes out in the units of the wire: texels for the center and
/// the extents, and for the angles steps of which 65536 make a full turn.
/// Any length but fifteen is refused.
pub fn unpack_obb(packed: &[u8]) -> (r: DecodeResult<OrientedBoundingBox>)
    ensures
        packed@.len() != PACKED_OBB_LEN ==> r is Err && r->Err_0 == DecodeError::InvalidLength,
        packed@.len() == PACKED_OBB_LEN ==> r is Ok && is_unpacked_obb(r->Ok_0, packed@),
{
    if packed.len() != PACKED_OBB_LEN {
        return Err(DecodeError::InvalidLength);
    }
    let center: [i16; 3] = [
        read_i16_le(packed, 0),
        read_i16_le(packed, 2),
        read_i16_le(packed, 4),
    ];
    let extents: [u8; 3] = [packed[6], packed[7], packed[8]];
    let orientation: [u16; 3] = [
        read_u16_le(packed, 9),
        read_u16_le(packed, 11),
        read_u16_le(packed, 13),
    ];
    Ok(OrientedBoundingBox { center, extents, orientation })
}

} // verus!
