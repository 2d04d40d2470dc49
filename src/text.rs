//! Decimal text of the size and colour input fields.
use vstd::prelude::*;

verus! {

pub open spec fn is_digit(c: char) -> bool {
    '0' <= c <= '9'
}

/// The value of a string of decimal digits, most significant first.
pub open spec fn digits_value(s: Seq<char>) -> int
    decreases s.len(),
{
    if s.len() == 0 {
        0
    } else {
        digits_value(s.drop_last()) * 10 + (s.last() as int - '0' as int)
    }
}

/// What follows a single leading `+`, if there is one.
pub open spec fn without_plus(s: Seq<char>) -> Seq<char> {
    if s.len() > 0 && s[0] == '+' {
        s.drop_first()
    } else {
        s
    }
}

/// The number that `s` writes in decimal: an optional `+` and then one or
/// more digits, with nothing around them.
pub open spec fn decimal_value(s: Seq<char>) -> Option<int> {
    let d = without_plus(s);
    if d.len() > 0 && forall|i: int| 0 <= i < d.len() ==> is_digit(#[trigger] d[i]) {
        Some(digits_value(d))
    } else {
        None
    }
}

/// The digit character for `d < 10`.
pub open spec fn digit_char(d: int) -> char {
    seq!['0', '1', '2', '3', '4', '5', '6', '7', '8', '9'][d]
}

/// The decimal text of `n`, without leading zeros.
pub open spec fn decimal_text(n: nat) -> Seq<char>
    decreases n,
{
    if n < 10 {
        seq![digit_char(n as int)]
    } else {
        decimal_text(n / 10).push(digit_char((n % 10) as int))
    }
}

/// The brush size that the text `s` sets: its value when that is a positive
/// `u32`, otherwise `current`.
pub open spec fn brush_size_from(current: u32, s: Seq<char>) -> u32 {
    match decimal_value(s) {
        Some(v) => if 0 < v <= u32::MAX {
            v as u32
        } else {
            current
        },
        None => current,
    }
}

/// The colour channel that the text `s` sets: its value when that fits in a
/// byte, otherwise 0.
pub open spec fn channel_from(s: Seq<char>) -> u8 {
    match decimal_value(s) {
        Some(v) => if 0 <= v <= 255 {
            v as u8
        } else {
            0
        },
        None => 0,
    }
}

/// Relies on `u32`'s `FromStr`: an optional `+` and decimal digits, whose
/// value fits in a `u32`; anything else is an error.
#[verifier::external_body]
fn parse_u32(s: &str) -> (r: Option<u32>)
    ensures
        r == match decimal_value(s@) {
            Some(v) => if 0 <= v <= u32::MAX {
                Some(v as u32)
            } else {
                None
            },
            None => None,
        },
{
    s.parse::<u32>().ok()
}

/// Relies on `u8`'s `FromStr`: an optional `+` and decimal digits, whose
/// value fits in a `u8`; anything else is an error.
#[verifier::external_body]
fn parse_u8(s: &str) -> (r: Option<u8>)
    ensures
        r == match decimal_value(s@) {
            Some(v) => if 0 <= v <= u8::MAX {
                Some(v as u8)
            } else {
                None
            },
            None => None,
        },
{
    s.parse::<u8>().ok()
}

/// Relies on `u8`'s `ToString`: its decimal digits, without leading zeros.
#[verifier::external_body]
pub(crate) fn u8_text(v: u8) -> (r: String)
    ensures
        r@ == decimal_text(v as nat),
{
    v.to_string()
}

/// The brush size after committing the text `s`: a positive decimal value
/// replaces `current`; zero, an overflow or anything unparsable keeps it.
pub fn next_brush_size(current: u32, s: &str) -> (r: u32)
    ensures
        r == brush_size_from(current, s@),
{
    match parse_u32(s) {
        Some(v) => if v > 0 {
            v
        } else {
            current
        },
        None => current,
    }
}

/// The colour channel that the text `s` gives: its decimal value when it is
/// at most 255, otherwise 0.
pub fn channel_value(s: &str) -> (r: u8)
    ensures
        r == channel_from(s@),
{
    match parse_u8(s) {
        Some(v) => v,
        None => 0,
    }
}

} // verus!
