use vstd::prelude::*;

verus! {

/// Why a blob could not be decoded.
#[derive(Debug, Clone, Copy, PartialEq, Eq, Structural)]
pub enum DecodeError {
    /// A byte slice does not have the fixed size, or the multiple, that its
    /// layout calls for.
    InvalidLength,
    /// A variable-length value runs past the end of the bytes.
    Truncated,
    /// The bytes contradict themselves: a count that does not add up, a
    /// reference out of range, a variable-length value that is too long.
    Malformed,
}

/// What every decoder returns.
pub type DecodeResult<T> = Result<T, DecodeError>;

} // verus!
