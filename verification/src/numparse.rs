//! Reading numbers out of text: the pin identifier a client names in a
//! toggle request, and the output pin number an operator answers on the
//! console at startup. Each parse exists as a specification function that
//! is the accepted grammar and an executable mirror proved equal to it.

use vstd::prelude::*;
use vstd::string::StringSliceAdditionalSpecFns;

use crate::wire::is_digit_byte;

verus! {

/// The blank bytes trimmed off the operator's answer.
pub open spec fn is_blank_byte(b: u8) -> bool {
    b == 0x20 || b == 0x09 || b == 0x0A || b == 0x0D || b == 0x0B || b == 0x0C
}

/// First position at or after `i` that does not hold a blank byte.
pub open spec fn spec_trim_start(s: Seq<u8>, i: int) -> int
    decreases s.len() - i,
{
    if 0 <= i < s.len() && is_blank_byte(s[i]) {
        spec_trim_start(s, i + 1)
    } else {
        i
    }
}

/// Last position at or before `i` such that no blank byte stands right
/// before it.
pub open spec fn spec_trim_end(s: Seq<u8>, i: int) -> int
    decreases i,
{
    if 0 < i <= s.len() && is_blank_byte(s[i - 1]) {
        spec_trim_end(s, i - 1)
    } else {
        i
    }
}

/// Digits of a signed 32-bit value, read from `i` to `end`. `neg` is the
/// recorded sign, `acc` the magnitude so far, `any` whether a digit has
/// been read; the magnitude is capped at the signed 32-bit range.
pub open spec fn spec_i32_digits(
    s: Seq<u8>,
    i: int,
    end: int,
    neg: bool,
    acc: int,
    any: bool,
) -> Option<i32>
    decreases end - i,
{
    if !(0 <= i <= end <= s.len()) {
        None
    } else if i == end {
        if !any {
            None
        } else if neg {
            if acc <= 0x8000_0000 {
                Some((-acc) as i32)
            } else {
                None
            }
        } else {
            if acc <= 0x7FFF_FFFF {
                Some(acc as i32)
            } else {
                None
            }
        }
    } else if is_digit_byte(s[i]) {
        let acc2: int = acc * 10 + (s[i] - 0x30);
        if acc2 > 0x8000_0000 {
            None
        } else {
            spec_i32_digits(s, i + 1, end, neg, acc2, true)
        }
    } else {
        None
    }
}

/// What a whole byte sequence reads as a signed 32-bit number: an optional
/// sign, then at least one digit, and nothing else.
pub open spec fn spec_parse_i32(s: Seq<u8>) -> Option<i32> {
    if s.len() > 0 && s[0] == 0x2D {
        spec_i32_digits(s, 1, s.len() as int, true, 0, false)
    } else if s.len() > 0 && s[0] == 0x2B {
        spec_i32_digits(s, 1, s.len() as int, false, 0, false)
    } else {
        spec_i32_digits(s, 0, s.len() as int, false, 0, false)
    }
}

/// Digits of an 8-bit value, read from `i` to `end`, capped at its range.
pub open spec fn spec_u8_digits(s: Seq<u8>, i: int, end: int, acc: int, any: bool) -> Option<u8>
    decreases end - i,
{
    if !(0 <= i <= end <= s.len()) {
        None
    } else if i == end {
        if any {
            Some(acc as u8)
        } else {
            None
        }
    } else if is_digit_byte(s[i]) {
        let acc2: int = acc * 10 + (s[i] - 0x30);
        if acc2 > 255 {
            None
        } else {
            spec_u8_digits(s, i + 1, end, acc2, true)
        }
    } else {
        None
    }
}

/// What the operator's answer reads as a pin number: after trimming the
/// blanks at both ends, an optional plus sign, then at least one digit
/// within the 8-bit range, and nothing else.
pub open spec fn spec_pin_answer(s: Seq<u8>) -> Option<u8> {
    let a: int = spec_trim_start(s, 0);
    let b: int = spec_trim_end(s, s.len() as int);
    if a < b && s[a] == 0x2B {
        spec_u8_digits(s, a + 1, b, 0, false)
    } else {
        spec_u8_digits(s, a, b, 0, false)
    }
}

/// Executable mirror of [`spec_trim_start`].
fn trim_start(s: &[u8], i: usize) -> (j: usize)
    requires
        i <= s@.len(),
    ensures
        j as int == spec_trim_start(s@, i as int),
        i <= j <= s@.len(),
    decreases s@.len() - i,
{
    if i < s.len() && (s[i] == 0x20 || s[i] == 0x09 || s[i] == 0x0A || s[i] == 0x0D || s[i] == 0x0B
        || s[i] == 0x0C) {
        trim_start(s, i + 1)
    } else {
        i
    }
}

/// Executable mirror of [`spec_trim_end`].
fn trim_end(s: &[u8], i: usize) -> (j: usize)
    requires
        i <= s@.len(),
    ensures
        j as int == spec_trim_end(s@, i as int),
        j <= i,
    decreases i,
{
    if i > 0 && (s[i - 1] == 0x20 || s[i - 1] == 0x09 || s[i - 1] == 0x0A || s[i - 1] == 0x0D || s[i
        - 1] == 0x0B || s[i - 1] == 0x0C) {
        trim_end(s, i - 1)
    } else {
        i
    }
}

/// Executable mirror of [`spec_i32_digits`].
fn i32_digits(s: &[u8], i: usize, end: usize, neg: bool, acc: u64, any: bool) -> (r: Option<i32>)
    requires
        i <= end <= s@.len(),
        acc <= 0x8000_0000,
    ensures
        r == spec_i32_digits(s@, i as int, end as int, neg, acc as int, any),
    decreases end - i,
{
    if i == end {
        if !any {
            None
        } else if neg {
            Some((-(acc as i64)) as i32)
        } else {
            if acc <= 0x7FFF_FFFF {
                Some(acc as i32)
            } else {
                None
            }
        }
    } else if 0x30 <= s[i] && s[i] <= 0x39 {
        let acc2: u64 = acc * 10 + ((s[i] - 0x30) as u64);
        if acc2 > 0x8000_0000 {
            None
        } else {
            i32_digits(s, i + 1, end, neg, acc2, true)
        }
    } else {
        None
    }
}

/// Read a whole byte sequence as a signed 32-bit number, exactly as
/// [`spec_parse_i32`] accepts it.
pub fn parse_i32_bytes(s: &[u8]) -> (r: Option<i32>)
    ensures
        r == spec_parse_i32(s@),
{
    if s.len() > 0 && s[0] == 0x2D {
        i32_digits(s, 1, s.len(), true, 0, false)
    } else if s.len() > 0 && s[0] == 0x2B {
        i32_digits(s, 1, s.len(), false, 0, false)
    } else {
        i32_digits(s, 0, s.len(), false, 0, false)
    }
}

/// Executable mirror of [`spec_u8_digits`].
fn u8_digits(s: &[u8], i: usize, end: usize, acc: u16, any: bool) -> (r: Option<u8>)
    requires
        i <= end <= s@.len(),
        acc <= 255,
    ensures
        r == spec_u8_digits(s@, i as int, end as int, acc as int, any),
    decreases end - i,
{
    if i == end {
        if any {
            Some(acc as u8)
        } else {
            None
        }
    } else if 0x30 <= s[i] && s[i] <= 0x39 {
        let acc2: u16 = acc * 10 + ((s[i] - 0x30) as u16);
        if acc2 > 255 {
            None
        } else {
            u8_digits(s, i + 1, end, acc2, true)
        }
    } else {
        None
    }
}

/// Read the operator's startup answer as the chosen output pin number,
/// exactly as [`spec_pin_answer`] accepts it. The caller treats `None` as
/// the fatal startup fault it is.
pub fn get_pin_number(x: &str) -> (r: Option<u8>)
    ensures
        r == spec_pin_answer(x.spec_bytes()),
{
    let s: &[u8] = x.as_bytes();
    let a: usize = trim_start(s, 0);
    let b: usize = trim_end(s, s.len());
    if a < b && s[a] == 0x2B {
        u8_digits(s, a + 1, b, 0, false)
    } else {
        if a <= b {
            u8_digits(s, a, b, 0, false)
        } else {
            proof {
                assert(spec_u8_digits(s@, a as int, b as int, 0, false) is None);
            }
            None
        }
    }
}

} // verus!
