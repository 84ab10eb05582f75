//! Fixed-width integers as they lie in the bytes: low byte first.

use vstd::prelude::*;

verus! {

/// The unsigned 16-bit value whose low byte is `lo` and whose high byte is
/// `hi`.
pub open spec fn le_u16(lo: u8, hi: u8) -> int {
    lo + 256 * hi
}

/// The same two bytes read as a signed value in two's complement.
pub open spec fn le_i16(lo: u8, hi: u8) -> int {
    if hi >= 128 {
        le_u16(lo, hi) - 65536
    } else {
        le_u16(lo, hi)
    }
}

/// Reads the unsigned 16-bit value at `at`.
pub(crate) fn read_u16_le(data: &[u8], at: usize) -> (r: u16)
    requires
        at + 2 <= data@.len(),
    ensures
        r == le_u16(data@[at as int], data@[at + 1]),
{
    let lo: u16 = data[at] as u16;
    let hi: u16 = data[at + 1] as u16;
    lo + 256 * hi
}

/// Reads the signed 16-bit value at `at`.
pub(crate) fn read_i16_le(data: &[u8], at: usize) -> (r: i16)
    requires
        at + 2 <= data@.len(),
    ensures
        r == le_i16(data@[at as int], data@[at + 1]),
{
    let raw: i32 = data[at] as i32 + 256 * (data[at + 1] as i32);
    if raw >= 32768 {
        (raw - 65536) as i16
    } else {
        raw as i16
    }
}

} // verus!
