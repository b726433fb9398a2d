//! Rendering snapshot values as the text a streaming update carries: a
//! microvolt count becomes the volts it stands for, written as a plain
//! decimal with no trailing zeros, and a digital level becomes `true` or
//! `false`.

use vstd::prelude::*;

verus! {

/// Microvolts in one volt.
pub const MICROVOLTS_PER_VOLT: u32 = 1_000_000;

/// The character of one decimal digit.
pub open spec fn dec_digit_char(d: int) -> char
    recommends
        0 <= d < 10,
{
    if d == 0 {
        '0'
    } else if d == 1 {
        '1'
    } else if d == 2 {
        '2'
    } else if d == 3 {
        '3'
    } else if d == 4 {
        '4'
    } else if d == 5 {
        '5'
    } else if d == 6 {
        '6'
    } else if d == 7 {
        '7'
    } else if d == 8 {
        '8'
    } else {
        '9'
    }
}

/// The decimal digits of a whole number, most significant first.
pub open spec fn spec_dec_digits(n: int) -> Seq<char>
    decreases n,
{
    if n < 10 {
        seq![dec_digit_char(n)]
    } else {
        spec_dec_digits(n / 10).push(dec_digit_char(n % 10))
    }
}

/// The digits after the decimal point for a fraction of a volt, read off
/// place by place from `place` (the value of the first written digit's
/// place) downwards, stopping after the last non-zero digit.
pub open spec fn spec_frac_digits(frac: int, place: int) -> Seq<char>
    recommends
        1 <= place,
        0 <= frac < place * 10,
    decreases place,
{
    if place < 1 {
        Seq::empty()
    } else {
        let d: int = frac / place;
        let rest: int = frac % place;
        if rest == 0 {
            seq![dec_digit_char(d)]
        } else {
            seq![dec_digit_char(d)] + spec_frac_digits(rest, place / 10)
        }
    }
}

/// A microvolt count written as volts: the whole part, and, unless the
/// fraction is zero, a point followed by the fraction's digits with the
/// trailing zeros dropped.
pub open spec fn spec_volts_chars(micro: int) -> Seq<char> {
    let whole: int = micro / (MICROVOLTS_PER_VOLT as int);
    let frac: int = micro % (MICROVOLTS_PER_VOLT as int);
    if frac == 0 {
        spec_dec_digits(whole)
    } else {
        spec_dec_digits(whole) + seq!['.'] + spec_frac_digits(frac, 100_000)
    }
}

/// A digital level written as text.
pub open spec fn spec_bool_chars(b: bool) -> Seq<char> {
    if b {
        "true"@
    } else {
        "false"@
    }
}

/// Append one decimal digit's character.
fn push_digit(out: &mut String, d: u32)
    requires
        d < 10,
    ensures
        final(out)@ == old(out)@.push(dec_digit_char(d as int)),
{
    let c: &'static str = if d == 0 {
        "0"
    } else if d == 1 {
        "1"
    } else if d == 2 {
        "2"
    } else if d == 3 {
        "3"
    } else if d == 4 {
        "4"
    } else if d == 5 {
        "5"
    } else if d == 6 {
        "6"
    } else if d == 7 {
        "7"
    } else if d == 8 {
        "8"
    } else {
        "9"
    };
    proof {
        reveal_strlit("0");
        reveal_strlit("1");
        reveal_strlit("2");
        reveal_strlit("3");
        reveal_strlit("4");
        reveal_strlit("5");
        reveal_strlit("6");
        reveal_strlit("7");
        reveal_strlit("8");
        reveal_strlit("9");
        assert(c@ =~= seq![dec_digit_char(d as int)]);
    }
    out.append(c);
    proof {
        assert(out@ =~= old(out)@.push(dec_digit_char(d as int)));
    }
}

/// Append a whole number's decimal digits.
fn dec_digits_into(n: u32, out: &mut String)
    ensures
        final(out)@ == old(out)@ + spec_dec_digits(n as int),
    decreases n,
{
    if n < 10 {
        push_digit(out, n);
        proof {
            assert(out@ =~= old(out)@ + spec_dec_digits(n as int));
        }
    } else {
        dec_digits_into(n / 10, out);
        push_digit(out, n % 10);
        proof {
            assert(out@ =~= old(out)@ + spec_dec_digits(n as int));
        }
    }
}

/// A whole number as its decimal digits.
pub fn dec_string(n: u32) -> (s: String)
    ensures
        s@ == spec_dec_digits(n as int),
{
    let mut s: String = String::new();
    dec_digits_into(n, &mut s);
    proof {
        assert(s@ =~= spec_dec_digits(n as int));
    }
    s
}

/// A value below ten times its place reads off a single digit at that
/// place.
proof fn lemma_div_digit_bound(frac: int, place: int)
    by (nonlinear_arith)
    requires
        1 <= place,
        0 <= frac < place * 10,
    ensures
        0 <= frac / place < 10,
{
}

/// Append the fraction digits from `place` downwards, dropping trailing
/// zeros.
fn frac_digits_into(frac: u32, place: u32, out: &mut String)
    requires
        frac < place * 10,
        place == 1 || place == 10 || place == 100 || place == 1000 || place == 10_000 || place
            == 100_000,
    ensures
        final(out)@ == old(out)@ + spec_frac_digits(frac as int, place as int),
    decreases place,
{
    let d: u32 = frac / place;
    let rest: u32 = frac % place;
    proof {
        lemma_div_digit_bound(frac as int, place as int);
    }
    push_digit(out, d);
    if rest != 0 {
        assert(place >= 10);
        assert(rest < (place / 10) * 10);
        frac_digits_into(rest, place / 10, out);
        proof {
            assert(out@ =~= old(out)@ + spec_frac_digits(frac as int, place as int));
        }
    } else {
        proof {
            assert(out@ =~= old(out)@ + spec_frac_digits(frac as int, place as int));
        }
    }
}

/// A microvolt count as the volts it stands for.
pub fn volts_string(micro: u32) -> (s: String)
    ensures
        s@ == spec_volts_chars(micro as int),
{
    let whole: u32 = micro / MICROVOLTS_PER_VOLT;
    let frac: u32 = micro % MICROVOLTS_PER_VOLT;
    let mut s: String = dec_string(whole);
    if frac != 0 {
        s.append(".");
        proof {
            reveal_strlit(".");
            assert("."@ =~= seq!['.']);
        }
        frac_digits_into(frac, 100_000, &mut s);
        proof {
            assert(s@ =~= spec_volts_chars(micro as int));
        }
    }
    s
}

/// A digital level as text.
pub fn bool_string(b: bool) -> (s: String)
    ensures
        s@ == spec_bool_chars(b),
{
    if b {
        String::from_str("true")
    } else {
        String::from_str("false")
    }
}

} // verus!
