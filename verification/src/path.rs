//! The path of a node below its bulk, and its flags, packed in 32 bits.

use vstd::arithmetic::div_mod::lemma_div_denominator;
use vstd::prelude::*;
use vstd::string::StringExecFns;

use crate::PathAndFlags;

verus! {

/// The most levels that a packed path can hold.
pub const MAX_PACKED_LEVEL: usize = 4;

/// Eight to the power `i`: the weight of the `i`-th octal digit.
pub open spec fn octal_weight(i: int) -> int
    decreases i,
{
    if i <= 0 {
        1
    } else {
        8 * octal_weight(i - 1)
    }
}

/// The level of a packed path: the two lowest bits, which hold one less.
pub open spec fn path_level(packed: u32) -> int {
    packed % 4 + 1
}

/// The `i`-th digit of a packed path: the `i`-th group of three bits above
/// the level.
pub open spec fn path_digit(packed: u32, i: int) -> int {
    (packed as int / 4 / octal_weight(i)) % 8
}

/// The flags of a packed path: every bit above its digits.
pub open spec fn path_flags(packed: u32) -> int {
    packed as int / 4 / octal_weight(path_level(packed))
}

/// The character of an octal digit.
pub open spec fn digit_char(digit: int) -> char {
    if digit == 0 {
        '0'
    } else if digit == 1 {
        '1'
    } else if digit == 2 {
        '2'
    } else if digit == 3 {
        '3'
    } else if digit == 4 {
        '4'
    } else if digit == 5 {
        '5'
    } else if digit == 6 {
        '6'
    } else {
        '7'
    }
}

/// The path as text: one character for each level, the digit of the lowest
/// bits first.
pub open spec fn path_text(packed: u32) -> Seq<char> {
    Seq::new(path_level(packed) as nat, |i: int| digit_char(path_digit(packed, i)))
}

/// The first five weights, written out.
pub proof fn octal_weight_table()
    ensures
        octal_weight(0) == 1,
        octal_weight(1) == 8,
        octal_weight(2) == 64,
        octal_weight(3) == 512,
        octal_weight(4) == 4096,
{
    reveal_with_fuel(octal_weight, 5);
}

/// The text of one octal digit.
fn digit_text(digit: u32) -> (text: &'static str)
    requires
        digit < 8,
    ensures
        text@ == seq![digit_char(digit as int)],
{
    proof {
        reveal_strlit("0");
        reveal_strlit("1");
        reveal_strlit("2");
        reveal_strlit("3");
        reveal_strlit("4");
        reveal_strlit("5");
        reveal_strlit("6");
        reveal_strlit("7");
    }
    let text = if digit == 0 {
        "0"
    } else if digit == 1 {
        "1"
    } else if digit == 2 {
        "2"
    } else if digit == 3 {
        "3"
    } else if digit == 4 {
        "4"
    } else if digit == 5 {
        "5"
    } else if digit == 6 {
        "6"
    } else {
        "7"
    };
    text
}

/// Unpacks the path of a node and its flags.
///
/// Bits 0 and 1 hold the level less one, so the level is 1 to 4. Above them
/// lie as many groups of three bits as the level says, one octal digit each,
/// and above those the flags. Every input has a meaning.
#[must_use]
pub fn unpack_path_and_flags(path_and_flags: u32) -> (r: PathAndFlags)
    ensures
        1 <= r.level <= MAX_PACKED_LEVEL,
        r.level == path_level(path_and_flags),
        r.path@ == path_text(path_and_flags),
        r.flags == path_flags(path_and_flags),
{
    let level: usize = (path_and_flags % 4) as usize + 1;
    let mut rest: u32 = path_and_flags / 4;
    let mut path = String::new();
    let mut i: usize = 0;
    while i < level
        invariant
            level == path_level(path_and_flags),
            i <= level <= MAX_PACKED_LEVEL,
            rest == path_and_flags as int / 4 / octal_weight(i as int),
            path@.len() == i,
            forall|j: int| 0 <= j < i ==> path@[j] == digit_char(path_digit(path_and_flags, j)),
        decreases level - i,
    {
        proof {
            octal_weight_table();
            lemma_div_denominator(path_and_flags as int / 4, octal_weight(i as int), 8);
        }
        path.append(digit_text(rest % 8));
        rest = rest / 8;
        i = i + 1;
    }
    PathAndFlags { path, flags: rest, level }
}

} // verus!
