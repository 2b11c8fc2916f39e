//! Hexadecimal text conversion.
//!
//! Every bit-packed entity in this crate renders to zero-padded uppercase
//! hexadecimal text and parses case-insensitive hexadecimal text back into an
//! unsigned integer.  The meaning of a digit string is given by [`hex_value`];
//! the canonical rendering of a value is given by [`hex_render`].

use vstd::prelude::*;

verus! {

/// True when `c` is an ASCII hexadecimal digit (either case).
pub open spec fn is_hex_digit(c: char) -> bool {
    ('0' as u32 <= c as u32 && c as u32 <= '9' as u32)
        || ('a' as u32 <= c as u32 && c as u32 <= 'f' as u32)
        || ('A' as u32 <= c as u32 && c as u32 <= 'F' as u32)
}

/// Numeric value of the hexadecimal digit `c`; meaningful only when
/// `is_hex_digit(c)` holds.
pub open spec fn hex_digit_value(c: char) -> nat {
    if '0' as u32 <= c as u32 && c as u32 <= '9' as u32 {
        (c as u32 - '0' as u32) as nat
    } else if 'a' as u32 <= c as u32 && c as u32 <= 'f' as u32 {
        (c as u32 - 'a' as u32 + 10) as nat
    } else {
        (c as u32 - 'A' as u32 + 10) as nat
    }
}

/// True when `s` is non-empty and made of hexadecimal digits only.
pub open spec fn valid_hex(s: Seq<char>) -> bool {
    s.len() > 0 && (forall|i: int| 0 <= i < s.len() ==> is_hex_digit(s[i]))
}

/// The unsigned value denoted by the digit string `s`, most significant
/// digit first.
pub open spec fn hex_value(s: Seq<char>) -> nat
    decreases s.len(),
{
    if s.len() == 0 {
        0
    } else {
        hex_value(s.drop_last()) * 16 + hex_digit_value(s.last())
    }
}

/// The uppercase digit character for the value `d`; meaningful only when
/// `d < 16`.
pub open spec fn hex_char_of(d: nat) -> char {
    if d < 10 {
        ((d + '0' as u32) as u8) as char
    } else {
        ((d - 10 + 'A' as u32) as u8) as char
    }
}

/// Uppercase hexadecimal rendering of `v`, zero-padded on the left to at
/// least `width` digits and extended beyond `width` only when `v` needs
/// more digits.
pub open spec fn hex_render(v: nat, width: nat) -> Seq<char>
    decreases v, width,
{
    if v < 16 && width <= 1 {
        seq![hex_char_of(v)]
    } else {
        hex_render(v / 16, if width == 0 { 0 } else { (width - 1) as nat }).push(
            hex_char_of(v % 16),
        )
    }
}

/// Extending a digit string by one character multiplies its value by 16 and
/// adds the value of the new digit.
pub proof fn lemma_hex_value_take_step(s: Seq<char>, i: int)
    requires
        0 <= i < s.len(),
    ensures
        hex_value(s.take(i + 1)) == hex_value(s.take(i)) * 16 + hex_digit_value(s[i]),
{
    assert(s.take(i + 1).drop_last() =~= s.take(i));
    assert(s.take(i + 1).last() == s[i]);
}

/// The value of a prefix never exceeds the value of a longer prefix.
pub proof fn lemma_hex_value_take_monotone(s: Seq<char>, i: int, j: int)
    requires
        0 <= i <= j <= s.len(),
    ensures
        hex_value(s.take(i)) <= hex_value(s.take(j)),
    decreases j - i,
{
    if i < j {
        lemma_hex_value_take_monotone(s, i, j - 1);
        lemma_hex_value_take_step(s, j - 1);
        assert(hex_value(s.take(j - 1)) * 16 >= hex_value(s.take(j - 1)));
    }
}

/// Digit value of `c`, or `None` when `c` is not a hexadecimal digit.
pub fn hex_digit_of_char(c: char) -> (r: Option<u8>)
    ensures
        match r {
            Some(d) => is_hex_digit(c) && d == hex_digit_value(c) && d < 16,
            None => !is_hex_digit(c),
        },
{
    let n: u32 = c as u32;
    if 0x30 <= n && n <= 0x39 {
        Some((n - 0x30) as u8)
    } else if 0x61 <= n && n <= 0x66 {
        Some((n - 0x61 + 10) as u8)
    } else if 0x41 <= n && n <= 0x46 {
        Some((n - 0x41 + 10) as u8)
    } else {
        None
    }
}

/// Parses `s` as hexadecimal text.  Returns the denoted value, or `None`
/// when `s` is empty, holds a character that is not a hexadecimal digit, or
/// denotes a value above `u64::MAX`.
pub fn parse_hex_u64(s: &str) -> (r: Option<u64>)
    ensures
        match r {
            Some(v) => valid_hex(s@) && v == hex_value(s@),
            None => !valid_hex(s@) || hex_value(s@) > u64::MAX,
        },
{
    let len = s.unicode_len();
    if len == 0 {
        return None;
    }
    let mut acc: u64 = 0;
    let mut i: usize = 0;
    while i < len
        invariant
            0 < len == s@.len(),
            0 <= i <= len,
            forall|j: int| 0 <= j < i ==> is_hex_digit(s@[j]),
            acc == hex_value(s@.take(i as int)),
        decreases len - i,
    {
        let c = s.get_char(i);
        match hex_digit_of_char(c) {
            None => {
                return None;
            },
            Some(d) => {
                proof {
                    lemma_hex_value_take_step(s@, i as int);
                }
                if acc > 0x0FFF_FFFF_FFFF_FFFF {
                    proof {
                        lemma_hex_value_take_monotone(s@, i + 1, s@.len() as int);
                        assert(s@.take(s@.len() as int) =~= s@);
                        assert(hex_value(s@.take(i as int)) * 16 > u64::MAX);
                    }
                    return None;
                }
                acc = acc * 16 + (d as u64);
                i = i + 1;
            },
        }
    }
    proof {
        assert(s@.take(len as int) =~= s@);
    }
    Some(acc)
}

/// The ASCII code of the uppercase digit character for `d`.
fn hex_char_byte(d: u8) -> (r: u8)
    requires
        d < 16,
    ensures
        r as char == hex_char_of(d as nat),
        r < 0x80,
{
    if d < 10 {
        d + 0x30
    } else {
        d - 10 + 0x41
    }
}

/// ASCII codes of the rendering of `v`, most significant digit first.
fn render_hex_bytes(v: u64, width: usize) -> (r: Vec<u8>)
    ensures
        r@.map_values(|b: u8| b as char) == hex_render(v as nat, width as nat),
        forall|i: int| 0 <= i < r@.len() ==> r@[i] < 0x80,
    decreases v, width,
{
    if v < 16 && width <= 1 {
        let mut r: Vec<u8> = Vec::new();
        r.push(hex_char_byte(v as u8));
        proof {
            assert(r@.map_values(|b: u8| b as char) =~= seq![hex_char_of(v as nat)]);
        }
        r
    } else {
        let rest: usize = if width == 0 {
            0
        } else {
            width - 1
        };
        let mut r = render_hex_bytes(v / 16, rest);
        let ghost prefix = r@;
        r.push(hex_char_byte((v % 16) as u8));
        proof {
            assert(r@.map_values(|b: u8| b as char) =~= prefix.map_values(|b: u8| b as char).push(
                hex_char_of((v % 16) as nat),
            ));
        }
        r
    }
}

/// Relies on `String::from_utf8`: a sequence of ASCII bytes decodes to the
/// string whose characters are exactly those byte values.
#[verifier::external_body]
fn ascii_to_string(bytes: Vec<u8>) -> (r: String)
    requires
        forall|i: int| 0 <= i < bytes@.len() ==> bytes@[i] < 0x80,
    ensures
        r@ == bytes@.map_values(|b: u8| b as char),
{
    String::from_utf8(bytes).unwrap_or_default()
}

/// Renders `v` as zero-padded uppercase hexadecimal text of at least
/// `width` digits.
pub fn render_hex(v: u64, width: usize) -> (r: String)
    ensures
        r@ == hex_render(v as nat, width as nat),
{
    let bytes = render_hex_bytes(v, width);
    ascii_to_string(bytes)
}

/// A rendered value parses back to itself: the digits produced by
/// [`hex_render`] are valid hexadecimal and denote the rendered value.
pub proof fn lemma_hex_render_round_trip(v: nat, width: nat)
    ensures
        valid_hex(hex_render(v, width)),
        hex_value(hex_render(v, width)) == v,
    decreases v, width,
{
    if v < 16 && width <= 1 {
        lemma_hex_char_of_value(v);
        let s = hex_render(v, width);
        assert(s.last() == hex_char_of(v));
        assert(s.drop_last() =~= Seq::<char>::empty());
        assert(hex_value(s.drop_last()) == 0);
        assert(hex_value(s) == hex_digit_value(hex_char_of(v)));
    } else {
        let rest = if width == 0 { 0 } else { (width - 1) as nat };
        lemma_hex_render_round_trip(v / 16, rest);
        lemma_hex_char_of_value(v % 16);
        let prefix = hex_render(v / 16, rest);
        let s = hex_render(v, width);
        assert(s.drop_last() =~= prefix);
        assert(hex_value(s) == hex_value(prefix) * 16 + hex_digit_value(hex_char_of(v % 16)));
        assert(v / 16 * 16 + v % 16 == v) by (nonlinear_arith);
    }
}

/// The digit character of a value below 16 is a hexadecimal digit and
/// denotes that value.
proof fn lemma_hex_char_of_value(d: nat)
    requires
        d < 16,
    ensures
        is_hex_digit(hex_char_of(d)),
        hex_digit_value(hex_char_of(d)) == d,
{
}

/// As [`parse_hex_u64`], but also rejects values above `u32::MAX`.
pub fn parse_hex_u32(s: &str) -> (r: Option<u32>)
    ensures
        match r {
            Some(v) => valid_hex(s@) && v == hex_value(s@),
            None => !valid_hex(s@) || hex_value(s@) > u32::MAX,
        },
{
    match parse_hex_u64(s) {
        Some(v) => {
            if v <= 0xFFFF_FFFF {
                Some(v as u32)
            } else {
                None
            }
        },
        None => None,
    }
}

/// As [`parse_hex_u64`], but also rejects values above `u16::MAX`.
pub fn parse_hex_u16(s: &str) -> (r: Option<u16>)
    ensures
        match r {
            Some(v) => valid_hex(s@) && v == hex_value(s@),
            None => !valid_hex(s@) || hex_value(s@) > u16::MAX,
        },
{
    match parse_hex_u64(s) {
        Some(v) => {
            if v <= 0xFFFF {
                Some(v as u16)
            } else {
                None
            }
        },
        None => None,
    }
}

} // verus!
