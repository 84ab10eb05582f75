//! Unsigned little-endian base-128 integers: seven payload bits per byte,
//! low-order group first, the high bit set on every byte but the last.

use vstd::prelude::*;

use crate::error::{DecodeError, DecodeResult};

verus! {

/// Most bytes that one encoded 32-bit value may take.
pub const MAX_VARINT_LEN: usize = 5;

/// How many bytes in a row, starting at `at`, have their high bit set.
pub open spec fn continuation_run(data: Seq<u8>, at: int) -> nat
    decreases data.len() - at,
{
    if 0 <= at < data.len() && data[at] >= 0x80 {
        1 + continuation_run(data, at + 1)
    } else {
        0
    }
}

/// What is wrong with the value encoded at `offset`, if anything.
///
/// Five continuation bytes in a row are `Malformed`, whatever follows them;
/// otherwise the value is `Truncated` when the bytes end before one without
/// the high bit is found.
pub open spec fn varint_status(data: Seq<u8>, offset: int) -> Option<DecodeError> {
    let run = continuation_run(data, offset);
    if run >= MAX_VARINT_LEN {
        Some(DecodeError::Malformed)
    } else if offset + run >= data.len() {
        Some(DecodeError::Truncated)
    } else {
        None
    }
}

/// The number of bytes that the value encoded at `offset` takes.
pub open spec fn varint_len(data: Seq<u8>, offset: int) -> nat {
    continuation_run(data, offset) + 1
}

/// The weight of the `i`-th seven-bit group: 128 to the power `i`.
pub open spec fn place_value(i: nat) -> nat
    decreases i,
{
    if i == 0 {
        1
    } else {
        128 * place_value((i - 1) as nat)
    }
}

/// The payloads of the `n` bytes from `offset` on, each times its weight,
/// added up.
pub open spec fn payload_sum(data: Seq<u8>, offset: int, n: nat) -> nat
    decreases n,
{
    if n == 0 {
        0
    } else {
        payload_sum(data, offset, (n - 1) as nat) + (data[offset + n - 1] % 0x80) as nat
            * place_value((n - 1) as nat)
    }
}

/// The value encoded at `offset`: its low 32 bits, where a fifth byte carries
/// more.
pub open spec fn varint_value(data: Seq<u8>, offset: int) -> u32 {
    (payload_sum(data, offset, varint_len(data, offset)) % 0x1_0000_0000) as u32
}

/// The values of a stream that is encoded value after encoded value from
/// `at` to the end of `data`, or the first error met on the way.
pub open spec fn varints_from(data: Seq<u8>, at: int) -> Result<Seq<u32>, DecodeError>
    decreases data.len() - at,
{
    if at >= data.len() {
        Ok(Seq::empty())
    } else {
        match varint_status(data, at) {
            Some(e) => Err(e),
            None => match varints_from(data, at + varint_len(data, at)) {
                Ok(rest) => Ok(seq![varint_value(data, at)] + rest),
                Err(e) => Err(e),
            },
        }
    }
}

/// The number of bytes from `at` on that end a value: those without the
/// high bit.
pub open spec fn final_bytes_from(data: Seq<u8>, at: int) -> nat
    decreases data.len() - at,
{
    if 0 <= at < data.len() {
        final_bytes_from(data, at + 1) + if data[at] < 0x80 {
            1nat
        } else {
            0nat
        }
    } else {
        0
    }
}

/// The first six weights, written out.
pub proof fn place_value_table()
    ensures
        place_value(0) == 1,
        place_value(1) == 0x80,
        place_value(2) == 0x4000,
        place_value(3) == 0x20_0000,
        place_value(4) == 0x1000_0000,
        place_value(5) == 0x8_0000_0000,
{
    reveal_with_fuel(place_value, 6);
}

/// A value that is well encoded takes one to five bytes, all of them inside
/// the data.
pub proof fn varint_len_is_bounded(data: Seq<u8>, offset: int)
    requires
        0 <= offset,
        varint_status(data, offset) is None,
    ensures
        1 <= varint_len(data, offset) <= MAX_VARINT_LEN,
        offset + varint_len(data, offset) <= data.len(),
{
}

/// A run that starts with `k` continuation bytes is `k` longer than the run
/// behind them.
proof fn continuation_run_split(data: Seq<u8>, at: int, k: nat)
    requires
        0 <= at,
        at + k <= data.len(),
        forall|i: int| at <= i < at + k ==> data[i] >= 0x80,
    ensures
        continuation_run(data, at) == k + continuation_run(data, at + k),
    decreases k,
{
    if k > 0 {
        continuation_run_split(data, at + 1, (k - 1) as nat);
    }
}

/// The continuation bytes at `at` end no value, and the byte behind them,
/// where there is one, does.
proof fn final_bytes_skip_run(data: Seq<u8>, at: int)
    requires
        0 <= at,
    ensures
        final_bytes_from(data, at) == final_bytes_from(data, at + continuation_run(data, at)),
        at + continuation_run(data, at) < data.len() ==> data[at + continuation_run(data, at)]
            < 0x80,
    decreases data.len() - at,
{
    if at < data.len() && data[at] >= 0x80 {
        final_bytes_skip_run(data, at + 1);
    }
}

/// A stream that decodes holds one value for each of its bytes without the
/// high bit.
pub proof fn one_value_for_each_final_byte(data: Seq<u8>, at: int)
    requires
        0 <= at,
        varints_from(data, at) is Ok,
    ensures
        varints_from(data, at)->Ok_0.len() == final_bytes_from(data, at),
    decreases data.len() - at,
{
    if at < data.len() {
        final_bytes_skip_run(data, at);
        one_value_for_each_final_byte(data, at + varint_len(data, at));
    }
}

/// Reads one value at `offset` and returns it with the number of bytes it
/// took.
pub fn read_varint(data: &[u8], offset: usize) -> (r: DecodeResult<(u32, usize)>)
    ensures
        match r {
            Ok((value, consumed)) => {
                &&& varint_status(data@, offset as int) is None
                &&& value == varint_value(data@, offset as int)
                &&& consumed == varint_len(data@, offset as int)
            },
            Err(e) => varint_status(data@, offset as int) == Some(e),
        },
{
    if offset >= data.len() {
        return Err(DecodeError::Truncated);
    }
    let mut acc: u64 = 0;
    let mut scale: u64 = 1;
    let mut k: usize = 0;
    while k < MAX_VARINT_LEN
        invariant
            k <= MAX_VARINT_LEN,
            offset + k <= data.len(),
            forall|i: int| offset <= i < offset + k ==> data@[i] >= 0x80,
            scale == place_value(k as nat),
            acc == payload_sum(data@, offset as int, k as nat),
            acc < scale,
        decreases MAX_VARINT_LEN - k,
    {
        proof {
            place_value_table();
            continuation_run_split(data@, offset as int, k as nat);
        }
        let at = offset + k;
        if at >= data.len() {
            return Err(DecodeError::Truncated);
        }
        let byte = data[at];
        let payload = (byte % 0x80) as u64;
        assert(payload * scale <= 0x7f * scale) by (nonlinear_arith)
            requires
                payload <= 0x7f,
        ;
        acc = acc + payload * scale;
        if byte < 0x80 {
            return Ok(((acc % 0x1_0000_0000) as u32, k + 1));
        }
        scale = scale * 0x80;
        k = k + 1;
    }
    proof {
        continuation_run_split(data@, offset as int, k as nat);
    }
    Err(DecodeError::Malformed)
}

/// With the values of the stream before `at` in hand, the whole stream is
/// those values followed by what the rest decodes to.
spec fn prepend(head: Seq<u32>, rest: Result<Seq<u32>, DecodeError>) -> Result<
    Seq<u32>,
    DecodeError,
> {
    match rest {
        Ok(tail) => Ok(head + tail),
        Err(e) => Err(e),
    }
}

/// Reads a whole slice as one value after another.
pub fn read_varints(data: &[u8]) -> (r: DecodeResult<Vec<u32>>)
    ensures
        match r {
            Ok(values) => varints_from(data@, 0) == Ok::<Seq<u32>, DecodeError>(values@),
            Err(e) => varints_from(data@, 0) == Err::<Seq<u32>, DecodeError>(e),
        },
{
    let mut values: Vec<u32> = Vec::new();
    let mut at: usize = 0;
    while at < data.len()
        invariant
            at <= data.len(),
            varints_from(data@, 0) == prepend(values@, varints_from(data@, at as int)),
        decreases data.len() - at,
    {
        match read_varint(data, at) {
            Err(e) => {
                return Err(e);
            },
            Ok((value, consumed)) => {
                proof {
                    if let Ok(tail) = varints_from(data@, at + consumed) {
                        assert(values@ + (seq![value] + tail) =~= values@.push(value) + tail);
                    }
                }
                values.push(value);
                at = at + consumed;
            },
        }
    }
    Ok(values)
}

} // verus!
