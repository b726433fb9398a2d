//! The wire format between a streaming session and its client, stated and
//! checked byte by byte.
//!
//! Inbound, a client command is one small object with exactly two string
//! members, `id` and `message`, in either order: the `id` string must hold
//! the target pin's numeric identifier, the `message` string is free text.
//! Any other shape is a decode failure. The grammar below follows the usual
//! object syntax: optional blanks around punctuation, and string escapes for
//! the quote, the backslash, the solidus, the short control names and
//! four-digit hexadecimal escapes; an unescaped control byte is refused.
//!
//! Each decoding function exists twice: a specification function that is the
//! grammar, and an executable mirror proved to return exactly what the
//! specification says.

use vstd::prelude::*;

verus! {

/// Byte values of the punctuation the grammar uses.
pub const QUOTE: u8 = 0x22;
pub const BACKSLASH: u8 = 0x5C;
pub const LEFT_BRACE: u8 = 0x7B;
pub const RIGHT_BRACE: u8 = 0x7D;
pub const COMMA: u8 = 0x2C;
pub const COLON: u8 = 0x3A;

/// The four blank bytes the grammar allows between tokens.
pub open spec fn is_ws_byte(b: u8) -> bool {
    b == 0x20 || b == 0x09 || b == 0x0A || b == 0x0D
}

pub open spec fn is_digit_byte(b: u8) -> bool {
    0x30 <= b && b <= 0x39
}

pub open spec fn is_hex_digit_byte(b: u8) -> bool {
    (0x30 <= b && b <= 0x39) || (0x41 <= b && b <= 0x46) || (0x61 <= b && b <= 0x66)
}

/// The escapes a string may use after a backslash, besides `u`:
/// quote, backslash, solidus and the short control names.
pub open spec fn is_simple_escape(b: u8) -> bool {
    b == QUOTE || b == BACKSLASH || b == 0x2F || b == 0x62 || b == 0x66 || b == 0x6E || b == 0x72
        || b == 0x74
}

/// First position at or after `i` that does not hold a blank byte.
pub open spec fn spec_skip_ws(s: Seq<u8>, i: int) -> int
    decreases s.len() - i,
{
    if 0 <= i < s.len() && is_ws_byte(s[i]) {
        spec_skip_ws(s, i + 1)
    } else {
        i
    }
}

/// Scan string content from `i` (the position after the opening quote) to
/// its closing quote; the result is the position just past that quote.
pub open spec fn spec_scan_string_body(s: Seq<u8>, i: int) -> Option<int>
    decreases s.len() - i,
{
    if !(0 <= i < s.len()) {
        None
    } else if s[i] == QUOTE {
        Some(i + 1)
    } else if s[i] == BACKSLASH {
        if i + 1 < s.len() && is_simple_escape(s[i + 1]) {
            spec_scan_string_body(s, i + 2)
        } else if i + 5 < s.len() && s[i + 1] == 0x75 && is_hex_digit_byte(s[i + 2])
            && is_hex_digit_byte(s[i + 3]) && is_hex_digit_byte(s[i + 4]) && is_hex_digit_byte(
            s[i + 5],
        ) {
            spec_scan_string_body(s, i + 6)
        } else {
            None
        }
    } else if s[i] < 0x20 {
        None
    } else {
        spec_scan_string_body(s, i + 1)
    }
}

/// Scan one whole string starting at `i`, which must hold the opening
/// quote; the result is the position just past the closing quote.
pub open spec fn spec_scan_string(s: Seq<u8>, i: int) -> Option<int> {
    if 0 <= i < s.len() && s[i] == QUOTE {
        spec_scan_string_body(s, i + 1)
    } else {
        None
    }
}

/// Whether the string spanning `[i, k_end)` is exactly the key `"id"`.
pub open spec fn is_id_key(s: Seq<u8>, i: int, k_end: int) -> bool {
    k_end - i == 4 && 0 <= i && k_end <= s.len() && s[i + 1] == 0x69 && s[i + 2] == 0x64
}

/// Whether the string spanning `[i, k_end)` is exactly the key `"message"`.
pub open spec fn is_message_key(s: Seq<u8>, i: int, k_end: int) -> bool {
    k_end - i == 9 && 0 <= i && k_end <= s.len() && s[i + 1] == 0x6D && s[i + 2] == 0x65 && s[i
        + 3] == 0x73 && s[i + 4] == 0x73 && s[i + 5] == 0x61 && s[i + 6] == 0x67 && s[i + 7]
        == 0x65
}

/// One byte expected exactly at `i`; the result is the position after it.
pub open spec fn spec_expect(s: Seq<u8>, i: int, b: u8) -> Option<int> {
    if 0 <= i < s.len() && s[i] == b {
        Some(i + 1)
    } else {
        None
    }
}

/// Digits of the pin identifier, read until the closing quote. `neg` is the
/// recorded sign, `acc` the magnitude so far, `any` whether a digit has been
/// read. The magnitude is capped at the signed 32-bit range; the closing
/// quote must follow the digits directly.
pub open spec fn spec_pin_digits(s: Seq<u8>, i: int, neg: bool, acc: int, any: bool) -> Option<
    (i32, int),
>
    decreases s.len() - i,
{
    if !(0 <= i < s.len()) {
        None
    } else if s[i] == QUOTE {
        if !any {
            None
        } else if neg {
            if acc <= 0x8000_0000 {
                Some(((-acc) as i32, i + 1))
            } else {
                None
            }
        } else {
            if acc <= 0x7FFF_FFFF {
                Some((acc as i32, i + 1))
            } else {
                None
            }
        }
    } else if is_digit_byte(s[i]) {
        let acc2: int = acc * 10 + (s[i] - 0x30);
        if acc2 > 0x8000_0000 {
            None
        } else {
            spec_pin_digits(s, i + 1, neg, acc2, true)
        }
    } else {
        None
    }
}

/// The `id` member's value: a quoted, optionally signed decimal number that
/// fits a signed 32-bit pin identifier. The result pairs the parsed pin
/// with the position just past the closing quote.
pub open spec fn spec_parse_pin(s: Seq<u8>, i: int) -> Option<(i32, int)> {
    if !(0 <= i < s.len() && s[i] == QUOTE) {
        None
    } else if i + 1 < s.len() && s[i + 1] == 0x2D {
        spec_pin_digits(s, i + 2, true, 0, false)
    } else if i + 1 < s.len() && s[i + 1] == 0x2B {
        spec_pin_digits(s, i + 2, false, 0, false)
    } else {
        spec_pin_digits(s, i + 1, false, 0, false)
    }
}

/// One `key: value` member starting at `i`. The result records whether the
/// key was `id`, the pin parsed from an `id` member (zero otherwise), and
/// the position after the value.
pub open spec fn spec_member(s: Seq<u8>, i: int) -> Option<(bool, i32, int)> {
    match spec_scan_string(s, i) {
        None => None,
        Some(k_end) => {
            let after_key: int = spec_skip_ws(s, k_end);
            match spec_expect(s, after_key, COLON) {
                None => None,
                Some(after_colon) => {
                    let v: int = spec_skip_ws(s, after_colon);
                    if is_id_key(s, i, k_end) {
                        match spec_parse_pin(s, v) {
                            None => None,
                            Some((pin, e)) => Some((true, pin, e)),
                        }
                    } else if is_message_key(s, i, k_end) {
                        match spec_scan_string(s, v) {
                            None => None,
                            Some(e) => Some((false, 0, e)),
                        }
                    } else {
                        None
                    }
                },
            }
        },
    }
}

/// The whole inbound command message: one object holding an `id` member and
/// a `message` member, in either order, and nothing after it. The result is
/// the pin identifier of a well-shaped message.
pub open spec fn spec_decode_command(s: Seq<u8>) -> Option<i32> {
    let start: int = spec_skip_ws(s, 0);
    match spec_expect(s, start, LEFT_BRACE) {
        None => None,
        Some(after_brace) => {
            let first: int = spec_skip_ws(s, after_brace);
            match spec_member(s, first) {
                None => None,
                Some((id1, pin1, e1)) => {
                    let after_first: int = spec_skip_ws(s, e1);
                    match spec_expect(s, after_first, COMMA) {
                        None => None,
                        Some(after_comma) => {
                            let second: int = spec_skip_ws(s, after_comma);
                            match spec_member(s, second) {
                                None => None,
                                Some((id2, pin2, e2)) => {
                                    if id1 == id2 {
                                        None
                                    } else {
                                        let after_second: int = spec_skip_ws(s, e2);
                                        match spec_expect(s, after_second, RIGHT_BRACE) {
                                            None => None,
                                            Some(after_close) => {
                                                if spec_skip_ws(s, after_close) == s.len() {
                                                    if id1 {
                                                        Some(pin1)
                                                    } else {
                                                        Some(pin2)
                                                    }
                                                } else {
                                                    None
                                                }
                                            },
                                        }
                                    }
                                },
                            }
                        },
                    }
                },
            }
        },
    }
}

/// The character of one hexadecimal digit, as a byte, lower case.
pub open spec fn hex_digit_of(n: int) -> u8
    recommends
        0 <= n < 16,
{
    if n < 10 {
        (0x30 + n) as u8
    } else {
        (0x57 + n) as u8
    }
}

/// The bytes one content byte contributes to an outbound string literal:
/// itself, or its escape for the quote, the backslash and the control
/// range.
pub open spec fn esc_byte(b: u8) -> Seq<u8> {
    if b == QUOTE {
        seq![BACKSLASH, QUOTE]
    } else if b == BACKSLASH {
        seq![BACKSLASH, BACKSLASH]
    } else if b < 0x20 {
        seq![BACKSLASH, 0x75, 0x30, 0x30, hex_digit_of(b as int / 16), hex_digit_of(b as int % 16)]
    } else {
        seq![b]
    }
}

/// A whole byte sequence escaped for use as string content.
pub open spec fn json_escape(s: Seq<u8>) -> Seq<u8>
    decreases s.len(),
{
    if s.len() == 0 {
        Seq::empty()
    } else {
        esc_byte(s[0]) + json_escape(s.drop_first())
    }
}

/// Escaping one byte more appends that byte's escape.
proof fn lemma_json_escape_snoc(s: Seq<u8>, b: u8)
    ensures
        json_escape(s.push(b)) == json_escape(s) + esc_byte(b),
    decreases s.len(),
{
    if s.len() == 0 {
        assert(s.push(b).drop_first() =~= Seq::<u8>::empty());
        assert(s.push(b)[0] == b);
        assert(json_escape(Seq::<u8>::empty()) == Seq::<u8>::empty());
        assert(json_escape(s.push(b)) == esc_byte(b) + Seq::<u8>::empty());
        assert(json_escape(s.push(b)) =~= json_escape(s) + esc_byte(b));
    } else {
        lemma_json_escape_snoc(s.drop_first(), b);
        assert(s.push(b).drop_first() =~= s.drop_first().push(b));
        assert(s.push(b)[0] == s[0]);
        assert(json_escape(s.push(b)) == esc_byte(s[0]) + json_escape(s.drop_first().push(b)));
        assert(json_escape(s.push(b)) == esc_byte(s[0]) + (json_escape(s.drop_first())
            + esc_byte(b)));
        assert(json_escape(s.push(b)) =~= json_escape(s) + esc_byte(b));
    }
}

/// The fixed bytes an outbound update starts with, up to the `id` value.
pub open spec fn wire_head() -> Seq<u8> {
    seq![LEFT_BRACE, QUOTE, 0x69, 0x64, QUOTE, COLON, QUOTE]
}

/// The fixed bytes between the `id` value and the `text` value.
pub open spec fn wire_mid() -> Seq<u8> {
    seq![QUOTE, COMMA, QUOTE, 0x74, 0x65, 0x78, 0x74, QUOTE, COLON, QUOTE]
}

/// The fixed bytes an outbound update closes with.
pub open spec fn wire_tail() -> Seq<u8> {
    seq![QUOTE, RIGHT_BRACE]
}

/// One outbound labeled update: an object holding the field identifier
/// under `id` and the rendered value under `text`, both escaped.
pub open spec fn update_wire(id: Seq<u8>, text: Seq<u8>) -> Seq<u8> {
    wire_head() + json_escape(id) + wire_mid() + json_escape(text) + wire_tail()
}

/// Executable hexadecimal digit.
fn hex_digit(n: u8) -> (r: u8)
    requires
        n < 16,
    ensures
        r == hex_digit_of(n as int),
{
    if n < 10 {
        0x30 + n
    } else {
        0x57 + n
    }
}

/// Append one content byte, escaped as [`esc_byte`] says.
fn push_escaped_byte(out: &mut Vec<u8>, b: u8)
    ensures
        final(out)@ == old(out)@ + esc_byte(b),
{
    if b == QUOTE {
        out.push(BACKSLASH);
        out.push(QUOTE);
    } else if b == BACKSLASH {
        out.push(BACKSLASH);
        out.push(BACKSLASH);
    } else if b < 0x20 {
        out.push(BACKSLASH);
        out.push(0x75);
        out.push(0x30);
        out.push(0x30);
        out.push(hex_digit(b / 16));
        out.push(hex_digit(b % 16));
    } else {
        out.push(b);
    }
    proof {
        assert(out@ =~= old(out)@ + esc_byte(b));
    }
}

/// Append a whole byte sequence, escaped.
fn escape_into(src: &[u8], out: &mut Vec<u8>)
    ensures
        final(out)@ == old(out)@ + json_escape(src@),
{
    let mut i: usize = 0;
    while i < src.len()
        invariant
            i <= src@.len(),
            out@ == old(out)@ + json_escape(src@.take(i as int)),
        decreases src@.len() - i,
    {
        push_escaped_byte(out, src[i]);
        proof {
            lemma_json_escape_snoc(src@.take(i as int), src@[i as int]);
            assert(src@.take(i as int).push(src@[i as int]) =~= src@.take(i as int + 1));
            assert(out@ =~= old(out)@ + json_escape(src@.take(i as int + 1)));
        }
        i = i + 1;
    }
    proof {
        assert(src@.take(src@.len() as int) =~= src@);
    }
}

/// Encode one outbound labeled update from its identifier and its rendered
/// text.
pub fn encode_update(id: &str, text: &str) -> (r: Vec<u8>)
    ensures
        r@ == update_wire(vstd::utf8::encode_utf8(id@), vstd::utf8::encode_utf8(text@)),
{
    let mut out: Vec<u8> = Vec::new();
    out.push(LEFT_BRACE);
    out.push(QUOTE);
    out.push(0x69);
    out.push(0x64);
    out.push(QUOTE);
    out.push(COLON);
    out.push(QUOTE);
    proof {
        assert(out@ =~= wire_head());
    }
    escape_into(id.as_bytes(), &mut out);
    out.push(QUOTE);
    out.push(COMMA);
    out.push(QUOTE);
    out.push(0x74);
    out.push(0x65);
    out.push(0x78);
    out.push(0x74);
    out.push(QUOTE);
    out.push(COLON);
    out.push(QUOTE);
    escape_into(text.as_bytes(), &mut out);
    out.push(QUOTE);
    out.push(RIGHT_BRACE);
    proof {
        assert(out@ =~= update_wire(
            vstd::utf8::encode_utf8(id@),
            vstd::utf8::encode_utf8(text@),
        ));
    }
    out
}

/// Executable test for a blank byte.
fn ws_byte(b: u8) -> (r: bool)
    ensures
        r == is_ws_byte(b),
{
    b == 0x20 || b == 0x09 || b == 0x0A || b == 0x0D
}

/// Executable test for a decimal digit byte.
fn digit_byte(b: u8) -> (r: bool)
    ensures
        r == is_digit_byte(b),
{
    0x30 <= b && b <= 0x39
}

/// Executable test for a hexadecimal digit byte.
fn hex_digit_byte(b: u8) -> (r: bool)
    ensures
        r == is_hex_digit_byte(b),
{
    (0x30 <= b && b <= 0x39) || (0x41 <= b && b <= 0x46) || (0x61 <= b && b <= 0x66)
}

/// Executable test for a one-byte escape name.
fn simple_escape(b: u8) -> (r: bool)
    ensures
        r == is_simple_escape(b),
{
    b == QUOTE || b == BACKSLASH || b == 0x2F || b == 0x62 || b == 0x66 || b == 0x6E || b == 0x72
        || b == 0x74
}

/// Executable mirror of [`spec_skip_ws`].
fn skip_ws(s: &[u8], i: usize) -> (j: usize)
    requires
        i <= s@.len(),
    ensures
        j as int == spec_skip_ws(s@, i as int),
        i <= j <= s@.len(),
    decreases s@.len() - i,
{
    if i < s.len() && ws_byte(s[i]) {
        skip_ws(s, i + 1)
    } else {
        i
    }
}

/// Executable mirror of [`spec_scan_string_body`].
fn scan_string_body(s: &[u8], i: usize) -> (r: Option<usize>)
    requires
        i <= s@.len(),
    ensures
        (match r {
            Some(j) => spec_scan_string_body(s@, i as int) == Some(j as int) && i < j <= s@.len(),
            None => spec_scan_string_body(s@, i as int) is None,
        }),
    decreases s@.len() - i,
{
    if i >= s.len() {
        return None;
    }
    let b: u8 = s[i];
    if b == QUOTE {
        Some(i + 1)
    } else if b == BACKSLASH {
        if s.len() - i > 1 && simple_escape(s[i + 1]) {
            scan_string_body(s, i + 2)
        } else if s.len() - i > 5 && s[i + 1] == 0x75 && hex_digit_byte(s[i + 2]) && hex_digit_byte(
            s[i + 3],
        ) && hex_digit_byte(s[i + 4]) && hex_digit_byte(s[i + 5]) {
            scan_string_body(s, i + 6)
        } else {
            None
        }
    } else if b < 0x20 {
        None
    } else {
        scan_string_body(s, i + 1)
    }
}

/// Executable mirror of [`spec_scan_string`].
fn scan_string(s: &[u8], i: usize) -> (r: Option<usize>)
    requires
        i <= s@.len(),
    ensures
        (match r {
            Some(j) => spec_scan_string(s@, i as int) == Some(j as int) && i < j <= s@.len(),
            None => spec_scan_string(s@, i as int) is None,
        }),
{
    if i < s.len() && s[i] == QUOTE {
        scan_string_body(s, i + 1)
    } else {
        None
    }
}

/// Executable mirror of [`spec_pin_digits`].
fn pin_digits(s: &[u8], i: usize, neg: bool, acc: u64, any: bool) -> (r: Option<(i32, usize)>)
    requires
        i <= s@.len(),
        acc <= 0x8000_0000,
    ensures
        (match r {
            Some(p) => spec_pin_digits(s@, i as int, neg, acc as int, any) == Some(
                (p.0, p.1 as int),
            ) && p.1 <= s@.len(),
            None => spec_pin_digits(s@, i as int, neg, acc as int, any) is None,
        }),
    decreases s@.len() - i,
{
    if i >= s.len() {
        return None;
    }
    let b: u8 = s[i];
    if b == QUOTE {
        if !any {
            None
        } else if neg {
            let pin: i32 = (-(acc as i64)) as i32;
            Some((pin, i + 1))
        } else {
            if acc <= 0x7FFF_FFFF {
                Some((acc as i32, i + 1))
            } else {
                None
            }
        }
    } else if digit_byte(b) {
        let acc2: u64 = acc * 10 + ((b - 0x30) as u64);
        if acc2 > 0x8000_0000 {
            None
        } else {
            pin_digits(s, i + 1, neg, acc2, true)
        }
    } else {
        None
    }
}

/// Executable mirror of [`spec_parse_pin`].
fn parse_pin(s: &[u8], i: usize) -> (r: Option<(i32, usize)>)
    requires
        i <= s@.len(),
    ensures
        (match r {
            Some(p) => spec_parse_pin(s@, i as int) == Some((p.0, p.1 as int)) && p.1 <= s@.len(),
            None => spec_parse_pin(s@, i as int) is None,
        }),
{
    if !(i < s.len() && s[i] == QUOTE) {
        None
    } else if s.len() - i > 1 && s[i + 1] == 0x2D {
        pin_digits(s, i + 2, true, 0, false)
    } else if s.len() - i > 1 && s[i + 1] == 0x2B {
        pin_digits(s, i + 2, false, 0, false)
    } else {
        pin_digits(s, i + 1, false, 0, false)
    }
}

/// Executable mirror of [`spec_member`].
fn member(s: &[u8], i: usize) -> (r: Option<(bool, i32, usize)>)
    requires
        i <= s@.len(),
    ensures
        (match r {
            Some(m) => spec_member(s@, i as int) == Some((m.0, m.1, m.2 as int)) && m.2
                <= s@.len(),
            None => spec_member(s@, i as int) is None,
        }),
{
    let k_end: usize = match scan_string(s, i) {
        None => { return None; },
        Some(k) => k,
    };
    let after_key: usize = skip_ws(s, k_end);
    if !(after_key < s.len() && s[after_key] == COLON) {
        return None;
    }
    let v: usize = skip_ws(s, after_key + 1);
    let id_key: bool = k_end - i == 4 && s[i + 1] == 0x69 && s[i + 2] == 0x64;
    if id_key {
        match parse_pin(s, v) {
            None => None,
            Some((pin, e)) => Some((true, pin, e)),
        }
    } else {
        let message_key: bool = k_end - i == 9 && s[i + 1] == 0x6D && s[i + 2] == 0x65 && s[i + 3]
            == 0x73 && s[i + 4] == 0x73 && s[i + 5] == 0x61 && s[i + 6] == 0x67 && s[i + 7]
            == 0x65;
        if message_key {
            match scan_string(s, v) {
                None => None,
                Some(e) => Some((false, 0, e)),
            }
        } else {
            None
        }
    }
}

/// Decode one inbound client message into the pin identifier of its toggle
/// request: the pin of a message the grammar accepts, nothing otherwise.
pub fn decode_command_pin(msg: &[u8]) -> (r: Option<i32>)
    ensures
        r == spec_decode_command(msg@),
{
    let start: usize = skip_ws(msg, 0);
    if !(start < msg.len() && msg[start] == LEFT_BRACE) {
        return None;
    }
    let first: usize = skip_ws(msg, start + 1);
    let (id1, pin1, e1): (bool, i32, usize) = match member(msg, first) {
        None => { return None; },
        Some(m) => m,
    };
    let after_first: usize = skip_ws(msg, e1);
    if !(after_first < msg.len() && msg[after_first] == COMMA) {
        return None;
    }
    let second: usize = skip_ws(msg, after_first + 1);
    let (id2, pin2, e2): (bool, i32, usize) = match member(msg, second) {
        None => { return None; },
        Some(m) => m,
    };
    if id1 == id2 {
        return None;
    }
    let after_second: usize = skip_ws(msg, e2);
    if !(after_second < msg.len() && msg[after_second] == RIGHT_BRACE) {
        return None;
    }
    if skip_ws(msg, after_second + 1) != msg.len() {
        return None;
    }
    if id1 {
        Some(pin1)
    } else {
        Some(pin2)
    }
}

} // verus!
