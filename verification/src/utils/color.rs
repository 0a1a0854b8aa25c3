//! Color utilities for parsing and converting colors
//!
//! Provides RGB and RGBA color types, hex parsing and formatting, and CSS named
//! color support. (The floating-point HSL/HSV models live with the UI code.)
use vstd::prelude::*;
use crate::utils::text::{
    all_ascii, ascii_lower, lemma_ascii_offsets, lowercase, byte_len, char_index_at, char_offset, is_boundary, lemma_byte_len_ge_len, lemma_char_index_at,
    lemma_offset_bound, lemma_offset_strict, lemma_offset_zero_end, split_at_boundary, str_byte_len,
};
use crate::widgets::editing_core::{substring, substring_exists};

verus! {

// ============================================================================
// Text helpers for parsing
// ============================================================================

/// The Unicode `White_Space` property, which `char::is_whitespace` and `str::trim` use.
pub open spec fn is_white_space(c: char) -> bool {
    let v = c as u32;
    ||| 0x09 <= v <= 0x0D
    ||| v == 0x20
    ||| v == 0x85
    ||| v == 0xA0
    ||| v == 0x1680
    ||| 0x2000 <= v <= 0x200A
    ||| v == 0x2028
    ||| v == 0x2029
    ||| v == 0x202F
    ||| v == 0x205F
    ||| v == 0x3000
}

/// `s` without its leading whitespace.
pub open spec fn trim_start_ws(s: Seq<char>) -> Seq<char>
    decreases s.len(),
{
    if s.len() > 0 && is_white_space(s[0]) {
        trim_start_ws(s.drop_first())
    } else {
        s
    }
}

/// `s` without its trailing whitespace.
pub open spec fn trim_end_ws(s: Seq<char>) -> Seq<char>
    decreases s.len(),
{
    if s.len() > 0 && is_white_space(s.last()) {
        trim_end_ws(s.drop_last())
    } else {
        s
    }
}

/// `s` without leading and trailing whitespace.
pub open spec fn trim_ws(s: Seq<char>) -> Seq<char> {
    trim_end_ws(trim_start_ws(s))
}

/// `s` without its leading `c` characters.
pub open spec fn trim_start_char(s: Seq<char>, c: char) -> Seq<char>
    decreases s.len(),
{
    if s.len() > 0 && s[0] == c {
        trim_start_char(s.drop_first(), c)
    } else {
        s
    }
}

/// `str::trim`: `s` without leading and trailing Unicode whitespace.
#[verifier::external_body]
fn str_trim(s: &str) -> (r: &str)
    ensures
        r@ == trim_ws(s@),
{
    s.trim()
}

/// `str::trim_start_matches` with a `char` pattern: `s` without its leading `c`s.
#[verifier::external_body]
fn str_trim_start_char(s: &str, c: char) -> (r: &str)
    ensures
        r@ == trim_start_char(s@, c),
{
    s.trim_start_matches(c)
}

/// Value of a hexadecimal digit (`0-9`, `a-f`, `A-F`).
pub open spec fn hex_digit_value(c: char) -> Option<nat> {
    if '0' <= c <= '9' {
        Some((c as nat - '0' as nat) as nat)
    } else if 'a' <= c <= 'f' {
        Some((c as nat - 'a' as nat + 10) as nat)
    } else if 'A' <= c <= 'F' {
        Some((c as nat - 'A' as nat + 10) as nat)
    } else {
        None
    }
}

/// Value of a sequence of hexadecimal digits (`Some(0)` for none).
pub open spec fn hex_digits_value(d: Seq<char>) -> Option<nat>
    decreases d.len(),
{
    if d.len() == 0 {
        Some(0)
    } else {
        match (hex_digits_value(d.drop_last()), hex_digit_value(d.last())) {
            (Some(v), Some(x)) => Some(v * 16 + x),
            _ => None,
        }
    }
}

/// What `u8::from_str_radix(s, 16)` accepts: an optional `+` and then one or more
/// hexadecimal digits whose value fits in a byte.
pub open spec fn parse_hex_u8_spec(s: Seq<char>) -> Option<u8> {
    let d = if s.len() > 0 && s[0] == '+' {
        s.drop_first()
    } else {
        s
    };
    if d.len() == 0 {
        None
    } else {
        match hex_digits_value(d) {
            Some(v) => if v <= 255 {
                Some(v as u8)
            } else {
                None
            },
            None => None,
        }
    }
}

/// What `char::to_digit(radix)` gives: `0-9` for themselves, then `a-z` and `A-Z` from 10,
/// when the value is below `radix`.
pub open spec fn digit_value(c: char, radix: nat) -> Option<nat> {
    let v: int = if '0' <= c <= '9' {
        c as int - '0' as int
    } else if 'a' <= c <= 'z' {
        c as int - 'a' as int + 10
    } else if 'A' <= c <= 'Z' {
        c as int - 'A' as int + 10
    } else {
        radix as int
    };
    if v < radix {
        Some(v as nat)
    } else {
        None
    }
}

/// Value of a sequence of digits in `radix` (`Some(0)` for none).
pub open spec fn digits_value(d: Seq<char>, radix: nat) -> Option<nat>
    decreases d.len(),
{
    if d.len() == 0 {
        Some(0)
    } else {
        match (digits_value(d.drop_last(), radix), digit_value(d.last(), radix)) {
            (Some(v), Some(x)) => Some(v * radix + x),
            _ => None,
        }
    }
}

/// What `u8::from_str_radix(s, radix)` accepts: an optional `+` and then one or more digits
/// in `radix` whose value fits in a byte.
pub open spec fn parse_u8_spec(s: Seq<char>, radix: nat) -> Option<u8> {
    let d = if s.len() > 0 && s[0] == '+' {
        s.drop_first()
    } else {
        s
    };
    if d.len() == 0 {
        None
    } else {
        match digits_value(d, radix) {
            Some(v) => if v <= 255 {
                Some(v as u8)
            } else {
                None
            },
            None => None,
        }
    }
}

/// `u8::from_str_radix(s, radix)`, with the error dropped; it panics for a radix outside
/// `2..=36`.
#[verifier::external_body]
fn parse_u8_radix(s: &str, radix: u32) -> (r: Option<u8>)
    requires
        2 <= radix <= 36,
    ensures
        r == parse_u8_spec(s@, radix as nat),
{
    u8::from_str_radix(s, radix).ok()
}

/// Digits in radix 16 are the hexadecimal digits.
proof fn lemma_hex_digits_radix16(d: Seq<char>)
    ensures
        digits_value(d, 16) == hex_digits_value(d),
    decreases d.len(),
{
    if d.len() > 0 {
        lemma_hex_digits_radix16(d.drop_last());
        let c = d.last();
        assert(digit_value(c, 16) == hex_digit_value(c));
    }
}

/// `s` read as a hexadecimal byte.
fn parse_hex_u8(s: &str) -> (r: Option<u8>)
    ensures
        r == parse_hex_u8_spec(s@),
{
    proof {
        lemma_hex_digits_radix16(s@);
        if s@.len() > 0 {
            lemma_hex_digits_radix16(s@.drop_first());
        }
    }
    parse_u8_radix(s, 16)
}

/// The bytes `start..end` of `s` (both character boundaries) as a string slice.
fn byte_slice(s: &str, start: usize, end: usize) -> (r: &str)
    requires
        substring_exists(s@, start as int, end as int),
    ensures
        r@ == substring(s@, start as int, end as int),
{
    let ghost t = s@;
    let ghost ka = char_index_at(t, start as int);
    let ghost kb = char_index_at(t, end as int);
    proof {
        lemma_char_index_at(t, start as int);
        lemma_char_index_at(t, end as int);
        if kb < ka {
            lemma_offset_strict(t, kb, ka);
        }
    }
    let (head, _) = split_at_boundary(s, end);
    proof {
        assert(head@.take(ka) =~= t.take(ka));
        assert(char_offset(head@, ka) == start);
        lemma_char_index_at(head@, start as int);
    }
    let (_, mid) = split_at_boundary(head, start);
    proof {
        assert(mid@ =~= t.subrange(ka, kb));
    }
    mid
}

/// A one-byte piece of text is a single character, so a parsed hex digit from it is at most 15.
proof fn lemma_single_hex(s: Seq<char>)
    requires
        byte_len(s) == 1,
    ensures
        s.len() == 1,
        parse_hex_u8_spec(s) matches Some(v) ==> v <= 15,
{
    lemma_byte_len_ge_len(s);
    if s.len() == 0 {
        assert(s =~= Seq::<char>::empty());
        assert(crate::utils::text::byte_len(Seq::<char>::empty()) == 0) by {
            lemma_offset_zero_end(s);
        }
    }
    let d = if s.len() > 0 && s[0] == '+' {
        s.drop_first()
    } else {
        s
    };
    if d.len() == 1 {
        assert(d.drop_last() =~= Seq::<char>::empty());
        assert(hex_digits_value(d.drop_last()) == Some(0nat));
    }
}

// ============================================================================
// RGB
// ============================================================================

/// RGB color (red, green, blue)
#[derive(Clone, Copy, Debug, PartialEq, Eq, Structural)]
pub struct Rgb {
    pub r: u8,
    pub g: u8,
    pub b: u8,
}

/// The text a hex color is read from: trimmed, then without leading `#`s.
pub open spec fn hex_text(s: Seq<char>) -> Seq<char> {
    trim_start_char(trim_ws(s), '#')
}

/// The byte at bytes `start..end` of `h`, read as hexadecimal.
pub open spec fn hex_byte(h: Seq<char>, start: int, end: int) -> Option<u8> {
    parse_hex_u8_spec(substring(h, start, end))
}

/// A one-digit channel `d` stands for `d * 17` (so `F` is 255).
pub open spec fn short_channel(d: u8) -> u8 {
    (d * 17) as u8
}

/// The slices that `Rgb::from_hex` takes of the hex text lie on character boundaries
/// (otherwise slicing the text panics).
pub open spec fn rgb_hex_slices_ok(h: Seq<char>) -> bool {
    &&& byte_len(h) == 3 ==> is_boundary(h, 1) && is_boundary(h, 2)
    &&& byte_len(h) == 6 ==> is_boundary(h, 2) && is_boundary(h, 4)
}

/// The color a hex string denotes: `RGB` (each digit doubled) or `RRGGBB`, after
/// trimming whitespace and leading `#`s.
pub open spec fn rgb_from_hex_spec(s: Seq<char>) -> Option<Rgb> {
    let h = hex_text(s);
    if byte_len(h) == 3 {
        match (hex_byte(h, 0, 1), hex_byte(h, 1, 2), hex_byte(h, 2, 3)) {
            (Some(r), Some(g), Some(b)) => Some(
                Rgb { r: short_channel(r), g: short_channel(g), b: short_channel(b) },
            ),
            _ => None,
        }
    } else if byte_len(h) == 6 {
        match (hex_byte(h, 0, 2), hex_byte(h, 2, 4), hex_byte(h, 4, 6)) {
            (Some(r), Some(g), Some(b)) => Some(Rgb { r, g, b }),
            _ => None,
        }
    } else {
        None
    }
}

/// The hex digit (upper case) for `d < 16`.
pub open spec fn upper_hex_digit(d: u8) -> char {
    if d == 0 { '0' } else if d == 1 { '1' } else if d == 2 { '2' } else if d == 3 { '3' }
    else if d == 4 { '4' } else if d == 5 { '5' } else if d == 6 { '6' } else if d == 7 { '7' }
    else if d == 8 { '8' } else if d == 9 { '9' } else if d == 10 { 'A' } else if d == 11 { 'B' }
    else if d == 12 { 'C' } else if d == 13 { 'D' } else if d == 14 { 'E' } else { 'F' }
}

/// Two upper-case hex digits for a byte (`{:02X}`).
pub open spec fn hex2(v: u8) -> Seq<char> {
    seq![upper_hex_digit(v / 16), upper_hex_digit(v % 16)]
}

/// A string holding the upper-case hex digit `d < 16`.
fn hex_digit_str(d: u8) -> (r: &'static str)
    requires
        d < 16,
    ensures
        r@ == seq![upper_hex_digit(d)],
{
    let r = match d {
        0 => "0",
        1 => "1",
        2 => "2",
        3 => "3",
        4 => "4",
        5 => "5",
        6 => "6",
        7 => "7",
        8 => "8",
        9 => "9",
        10 => "A",
        11 => "B",
        12 => "C",
        13 => "D",
        14 => "E",
        _ => "F",
    };
    proof {
        reveal_strlit("0");
        reveal_strlit("1");
        reveal_strlit("2");
        reveal_strlit("3");
        reveal_strlit("4");
        reveal_strlit("5");
        reveal_strlit("6");
        reveal_strlit("7");
        reveal_strlit("8");
        reveal_strlit("9");
        reveal_strlit("A");
        reveal_strlit("B");
        reveal_strlit("C");
        reveal_strlit("D");
        reveal_strlit("E");
        reveal_strlit("F");
    }
    assert(r@ =~= seq![upper_hex_digit(d)]);
    r
}

/// Append the two hex digits of `v` to `out`.
fn push_hex2(out: &mut String, v: u8)
    ensures
        final(out)@ == old(out)@ + hex2(v),
{
    out.append(hex_digit_str(v / 16));
    out.append(hex_digit_str(v % 16));
    assert(final(out)@ =~= old(out)@ + hex2(v));
}

/// A new string `#`.
fn hash_string() -> (r: String)
    ensures
        r@ == seq!['#'],
{
    proof {
        reveal_strlit("#");
    }
    let r = "#".to_owned();
    assert(r@ =~= seq!['#']);
    r
}

impl Rgb {
    pub fn new(r: u8, g: u8, b: u8) -> (c: Self)
        ensures
            c == (Rgb { r, g, b }),
    {
        Self { r, g, b }
    }

    /// Parse from hex string (supports #RGB, #RRGGBB, RGB, RRGGBB)
    pub fn from_hex(hex: &str) -> (c: Option<Self>)
        requires
            rgb_hex_slices_ok(hex_text(hex@)),
        ensures
            c == rgb_from_hex_spec(hex@),
    {
        let hex = str_trim_start_char(str_trim(hex), '#');
        let ghost h = hex@;
        let n = str_byte_len(hex);
        proof {
            lemma_offset_zero_end(h);
        }
        if n == 3 {
            let r = parse_hex_u8(byte_slice(hex, 0, 1));
            let g = parse_hex_u8(byte_slice(hex, 1, 2));
            let b = parse_hex_u8(byte_slice(hex, 2, 3));
            proof {
                lemma_slice_len(h, 0, 1);
                lemma_slice_len(h, 1, 2);
                lemma_slice_len(h, 2, 3);
            }
            match (r, g, b) {
                (Some(r), Some(g), Some(b)) => Some(Self { r: r * 17, g: g * 17, b: b * 17 }),
                _ => None,
            }
        } else if n == 6 {
            let r = parse_hex_u8(byte_slice(hex, 0, 2));
            let g = parse_hex_u8(byte_slice(hex, 2, 4));
            let b = parse_hex_u8(byte_slice(hex, 4, 6));
            match (r, g, b) {
                (Some(r), Some(g), Some(b)) => Some(Self { r, g, b }),
                _ => None,
            }
        } else {
            None
        }
    }

    /// Convert to hex string (#RRGGBB)
    pub fn to_hex(&self) -> (s: String)
        ensures
            s@ == seq!['#'] + hex2(self.r) + hex2(self.g) + hex2(self.b),
    {
        let mut s = hash_string();
        push_hex2(&mut s, self.r);
        push_hex2(&mut s, self.g);
        push_hex2(&mut s, self.b);
        s
    }

    /// Convert to u32 (0xRRGGBB)
    pub fn to_u32(&self) -> (v: u32)
        ensures
            v == self.r * 0x10000 + self.g * 0x100 + self.b,
    {
        let r = self.r as u32;
        let g = self.g as u32;
        let b = self.b as u32;
        assert((r << 16) | (g << 8) | b == r * 0x10000 + g * 0x100 + b) by (bit_vector)
            requires
                r < 256,
                g < 256,
                b < 256,
        ;
        (r << 16) | (g << 8) | b
    }
}

// ============================================================================
// RGBA
// ============================================================================

/// RGBA color (red, green, blue, alpha)
#[derive(Clone, Copy, Debug, PartialEq, Eq, Structural)]
pub struct Rgba {
    pub r: u8,
    pub g: u8,
    pub b: u8,
    pub a: u8,
}

/// The slices that `Rgba::from_hex` takes of the hex text lie on character boundaries.
pub open spec fn rgba_hex_slices_ok(h: Seq<char>) -> bool {
    &&& byte_len(h) == 4 ==> is_boundary(h, 1) && is_boundary(h, 2) && is_boundary(h, 3)
    &&& byte_len(h) == 8 ==> is_boundary(h, 2) && is_boundary(h, 4) && is_boundary(h, 6)
    &&& (byte_len(h) == 3 || byte_len(h) == 6) ==> rgb_hex_slices_ok(hex_text(h))
}

/// The color a hex string denotes: `RGBA` (digits doubled), `RRGGBBAA`, or an RGB form
/// with full alpha, after trimming whitespace and leading `#`s.
pub open spec fn rgba_from_hex_spec(s: Seq<char>) -> Option<Rgba> {
    let h = hex_text(s);
    if byte_len(h) == 4 {
        match (hex_byte(h, 0, 1), hex_byte(h, 1, 2), hex_byte(h, 2, 3), hex_byte(h, 3, 4)) {
            (Some(r), Some(g), Some(b), Some(a)) => Some(
                Rgba {
                    r: short_channel(r),
                    g: short_channel(g),
                    b: short_channel(b),
                    a: short_channel(a),
                },
            ),
            _ => None,
        }
    } else if byte_len(h) == 8 {
        match (hex_byte(h, 0, 2), hex_byte(h, 2, 4), hex_byte(h, 4, 6), hex_byte(h, 6, 8)) {
            (Some(r), Some(g), Some(b), Some(a)) => Some(Rgba { r, g, b, a }),
            _ => None,
        }
    } else if byte_len(h) == 3 || byte_len(h) == 6 {
        match rgb_from_hex_spec(h) {
            Some(c) => Some(Rgba { r: c.r, g: c.g, b: c.b, a: 255 }),
            None => None,
        }
    } else {
        None
    }
}

impl Rgba {
    pub fn new(r: u8, g: u8, b: u8, a: u8) -> (c: Self)
        ensures
            c == (Rgba { r, g, b, a }),
    {
        Self { r, g, b, a }
    }

    /// Parse from hex string (supports #RGBA, #RRGGBBAA, or falls back to RGB)
    pub fn from_hex(hex: &str) -> (c: Option<Self>)
        requires
            rgba_hex_slices_ok(hex_text(hex@)),
        ensures
            c == rgba_from_hex_spec(hex@),
    {
        let hex = str_trim_start_char(str_trim(hex), '#');
        let ghost h = hex@;
        let n = str_byte_len(hex);
        proof {
            lemma_offset_zero_end(h);
        }
        if n == 4 {
            let r = parse_hex_u8(byte_slice(hex, 0, 1));
            let g = parse_hex_u8(byte_slice(hex, 1, 2));
            let b = parse_hex_u8(byte_slice(hex, 2, 3));
            let a = parse_hex_u8(byte_slice(hex, 3, 4));
            proof {
                lemma_slice_len(h, 0, 1);
                lemma_slice_len(h, 1, 2);
                lemma_slice_len(h, 2, 3);
                lemma_slice_len(h, 3, 4);
            }
            match (r, g, b, a) {
                (Some(r), Some(g), Some(b), Some(a)) => Some(
                    Self { r: r * 17, g: g * 17, b: b * 17, a: a * 17 },
                ),
                _ => None,
            }
        } else if n == 8 {
            let r = parse_hex_u8(byte_slice(hex, 0, 2));
            let g = parse_hex_u8(byte_slice(hex, 2, 4));
            let b = parse_hex_u8(byte_slice(hex, 4, 6));
            let a = parse_hex_u8(byte_slice(hex, 6, 8));
            match (r, g, b, a) {
                (Some(r), Some(g), Some(b), Some(a)) => Some(Self { r, g, b, a }),
                _ => None,
            }
        } else if n == 3 || n == 6 {
            match Rgb::from_hex(hex) {
                Some(rgb) => Some(Self { r: rgb.r, g: rgb.g, b: rgb.b, a: 255 }),
                None => None,
            }
        } else {
            None
        }
    }

    /// Convert to hex string (#RRGGBBAA)
    pub fn to_hex(&self) -> (s: String)
        ensures
            s@ == seq!['#'] + hex2(self.r) + hex2(self.g) + hex2(self.b) + hex2(self.a),
    {
        let mut s = hash_string();
        push_hex2(&mut s, self.r);
        push_hex2(&mut s, self.g);
        push_hex2(&mut s, self.b);
        push_hex2(&mut s, self.a);
        s
    }

    /// Convert to u32 (0xRRGGBBAA)
    pub fn to_u32(&self) -> (v: u32)
        ensures
            v == self.r * 0x1000000 + self.g * 0x10000 + self.b * 0x100 + self.a,
    {
        let r = self.r as u32;
        let g = self.g as u32;
        let b = self.b as u32;
        let a = self.a as u32;
        assert((r << 24) | (g << 16) | (b << 8) | a == r * 0x1000000 + g * 0x10000 + b * 0x100
            + a) by (bit_vector)
            requires
                r < 256,
                g < 256,
                b < 256,
                a < 256,
        ;
        (r << 24) | (g << 16) | (b << 8) | a
    }

    /// Get RGB component
    pub fn rgb(&self) -> (c: Rgb)
        ensures
            c == (Rgb { r: self.r, g: self.g, b: self.b }),
    {
        Rgb::new(self.r, self.g, self.b)
    }
}

// ============================================================================
// Named colors
// ============================================================================

/// CSS named colors, sorted by name.
pub open spec fn named_colors() -> Seq<(&'static str, u32)> {
    seq![
        ("aliceblue", 0xF0F8FF),
        ("antiquewhite", 0xFAEBD7),
        ("aqua", 0x00FFFF),
        ("aquamarine", 0x7FFFD4),
        ("azure", 0xF0FFFF),
        ("beige", 0xF5F5DC),
        ("bisque", 0xFFE4C4),
        ("black", 0x000000),
        ("blanchedalmond", 0xFFEBCD),
        ("blue", 0x0000FF),
        ("blueviolet", 0x8A2BE2),
        ("brown", 0xA52A2A),
        ("burlywood", 0xDEB887),
        ("cadetblue", 0x5F9EA0),
        ("chartreuse", 0x7FFF00),
        ("chocolate", 0xD2691E),
        ("coral", 0xFF7F50),
        ("cornflowerblue", 0x6495ED),
        ("cornsilk", 0xFFF8DC),
        ("crimson", 0xDC143C),
        ("cyan", 0x00FFFF),
        ("darkblue", 0x00008B),
        ("darkcyan", 0x008B8B),
        ("darkgoldenrod", 0xB8860B),
        ("darkgray", 0xA9A9A9),
        ("darkgreen", 0x006400),
        ("darkgrey", 0xA9A9A9),
        ("darkkhaki", 0xBDB76B),
        ("darkmagenta", 0x8B008B),
        ("darkolivegreen", 0x556B2F),
        ("darkorange", 0xFF8C00),
        ("darkorchid", 0x9932CC),
        ("darkred", 0x8B0000),
        ("darksalmon", 0xE9967A),
        ("darkseagreen", 0x8FBC8F),
        ("darkslateblue", 0x483D8B),
        ("darkslategray", 0x2F4F4F),
        ("darkslategrey", 0x2F4F4F),
        ("darkturquoise", 0x00CED1),
        ("darkviolet", 0x9400D3),
        ("deeppink", 0xFF1493),
        ("deepskyblue", 0x00BFFF),
        ("dimgray", 0x696969),
        ("dimgrey", 0x696969),
        ("dodgerblue", 0x1E90FF),
        ("firebrick", 0xB22222),
        ("floralwhite", 0xFFFAF0),
        ("forestgreen", 0x228B22),
        ("fuchsia", 0xFF00FF),
        ("gainsboro", 0xDCDCDC),
        ("ghostwhite", 0xF8F8FF),
        ("gold", 0xFFD700),
        ("goldenrod", 0xDAA520),
        ("gray", 0x808080),
        ("green", 0x008000),
        ("greenyellow", 0xADFF2F),
        ("grey", 0x808080),
        ("honeydew", 0xF0FFF0),
        ("hotpink", 0xFF69B4),
        ("indianred", 0xCD5C5C),
        ("indigo", 0x4B0082),
        ("ivory", 0xFFFFF0),
        ("khaki", 0xF0E68C),
        ("lavender", 0xE6E6FA),
        ("lavenderblush", 0xFFF0F5),
        ("lawngreen", 0x7CFC00),
        ("lemonchiffon", 0xFFFACD),
        ("lightblue", 0xADD8E6),
        ("lightcoral", 0xF08080),
        ("lightcyan", 0xE0FFFF),
        ("lightgoldenrodyellow", 0xFAFAD2),
        ("lightgray", 0xD3D3D3),
        ("lightgreen", 0x90EE90),
        ("lightgrey", 0xD3D3D3),
        ("lightpink", 0xFFB6C1),
        ("lightsalmon", 0xFFA07A),
        ("lightseagreen", 0x20B2AA),
        ("lightskyblue", 0x87CEFA),
        ("lightslategray", 0x778899),
        ("lightslategrey", 0x778899),
        ("lightsteelblue", 0xB0C4DE),
        ("lightyellow", 0xFFFFE0),
        ("lime", 0x00FF00),
        ("limegreen", 0x32CD32),
        ("linen", 0xFAF0E6),
        ("magenta", 0xFF00FF),
        ("maroon", 0x800000),
        ("mediumaquamarine", 0x66CDAA),
        ("mediumblue", 0x0000CD),
        ("mediumorchid", 0xBA55D3),
        ("mediumpurple", 0x9370DB),
        ("mediumseagreen", 0x3CB371),
        ("mediumslateblue", 0x7B68EE),
        ("mediumspringgreen", 0x00FA9A),
        ("mediumturquoise", 0x48D1CC),
        ("mediumvioletred", 0xC71585),
        ("midnightblue", 0x191970),
        ("mintcream", 0xF5FFFA),
        ("mistyrose", 0xFFE4E1),
        ("moccasin", 0xFFE4B5),
        ("navajowhite", 0xFFDEAD),
        ("navy", 0x000080),
        ("oldlace", 0xFDF5E6),
        ("olive", 0x808000),
        ("olivedrab", 0x6B8E23),
        ("orange", 0xFFA500),
        ("orangered", 0xFF4500),
        ("orchid", 0xDA70D6),
        ("palegoldenrod", 0xEEE8AA),
        ("palegreen", 0x98FB98),
        ("paleturquoise", 0xAFEEEE),
        ("palevioletred", 0xDB7093),
        ("papayawhip", 0xFFEFD5),
        ("peachpuff", 0xFFDAB9),
        ("peru", 0xCD853F),
        ("pink", 0xFFC0CB),
        ("plum", 0xDDA0DD),
        ("powderblue", 0xB0E0E6),
        ("purple", 0x800080),
        ("rebeccapurple", 0x663399),
        ("red", 0xFF0000),
        ("rosybrown", 0xBC8F8F),
        ("royalblue", 0x4169E1),
        ("saddlebrown", 0x8B4513),
        ("salmon", 0xFA8072),
        ("sandybrown", 0xF4A460),
        ("seagreen", 0x2E8B57),
        ("seashell", 0xFFF5EE),
        ("sienna", 0xA0522D),
        ("silver", 0xC0C0C0),
        ("skyblue", 0x87CEEB),
        ("slateblue", 0x6A5ACD),
        ("slategray", 0x708090),
        ("slategrey", 0x708090),
        ("snow", 0xFFFAFA),
        ("springgreen", 0x00FF7F),
        ("steelblue", 0x4682B4),
        ("tan", 0xD2B48C),
        ("teal", 0x008080),
        ("thistle", 0xD8BFD8),
        ("tomato", 0xFF6347),
        ("turquoise", 0x40E0D0),
        ("violet", 0xEE82EE),
        ("wheat", 0xF5DEB3),
        ("white", 0xFFFFFF),
        ("whitesmoke", 0xF5F5F5),
        ("yellow", 0xFFFF00),
        ("yellowgreen", 0x9ACD32),
    ]
}

/// The CSS named colors, as a table to search.
fn named_color_table() -> (r: Vec<(&'static str, u32)>)
    ensures
        r@ == named_colors(),
{
    let r = vec![
        ("aliceblue", 0xF0F8FF),
        ("antiquewhite", 0xFAEBD7),
        ("aqua", 0x00FFFF),
        ("aquamarine", 0x7FFFD4),
        ("azure", 0xF0FFFF),
        ("beige", 0xF5F5DC),
        ("bisque", 0xFFE4C4),
        ("black", 0x000000),
        ("blanchedalmond", 0xFFEBCD),
        ("blue", 0x0000FF),
        ("blueviolet", 0x8A2BE2),
        ("brown", 0xA52A2A),
        ("burlywood", 0xDEB887),
        ("cadetblue", 0x5F9EA0),
        ("chartreuse", 0x7FFF00),
        ("chocolate", 0xD2691E),
        ("coral", 0xFF7F50),
        ("cornflowerblue", 0x6495ED),
        ("cornsilk", 0xFFF8DC),
        ("crimson", 0xDC143C),
        ("cyan", 0x00FFFF),
        ("darkblue", 0x00008B),
        ("darkcyan", 0x008B8B),
        ("darkgoldenrod", 0xB8860B),
        ("darkgray", 0xA9A9A9),
        ("darkgreen", 0x006400),
        ("darkgrey", 0xA9A9A9),
        ("darkkhaki", 0xBDB76B),
        ("darkmagenta", 0x8B008B),
        ("darkolivegreen", 0x556B2F),
        ("darkorange", 0xFF8C00),
        ("darkorchid", 0x9932CC),
        ("darkred", 0x8B0000),
        ("darksalmon", 0xE9967A),
        ("darkseagreen", 0x8FBC8F),
        ("darkslateblue", 0x483D8B),
        ("darkslategray", 0x2F4F4F),
        ("darkslategrey", 0x2F4F4F),
        ("darkturquoise", 0x00CED1),
        ("darkviolet", 0x9400D3),
        ("deeppink", 0xFF1493),
        ("deepskyblue", 0x00BFFF),
        ("dimgray", 0x696969),
        ("dimgrey", 0x696969),
        ("dodgerblue", 0x1E90FF),
        ("firebrick", 0xB22222),
        ("floralwhite", 0xFFFAF0),
        ("forestgreen", 0x228B22),
        ("fuchsia", 0xFF00FF),
        ("gainsboro", 0xDCDCDC),
        ("ghostwhite", 0xF8F8FF),
        ("gold", 0xFFD700),
        ("goldenrod", 0xDAA520),
        ("gray", 0x808080),
        ("green", 0x008000),
        ("greenyellow", 0xADFF2F),
        ("grey", 0x808080),
        ("honeydew", 0xF0FFF0),
        ("hotpink", 0xFF69B4),
        ("indianred", 0xCD5C5C),
        ("indigo", 0x4B0082),
        ("ivory", 0xFFFFF0),
        ("khaki", 0xF0E68C),
        ("lavender", 0xE6E6FA),
        ("lavenderblush", 0xFFF0F5),
        ("lawngreen", 0x7CFC00),
        ("lemonchiffon", 0xFFFACD),
        ("lightblue", 0xADD8E6),
        ("lightcoral", 0xF08080),
        ("lightcyan", 0xE0FFFF),
        ("lightgoldenrodyellow", 0xFAFAD2),
        ("lightgray", 0xD3D3D3),
        ("lightgreen", 0x90EE90),
        ("lightgrey", 0xD3D3D3),
        ("lightpink", 0xFFB6C1),
        ("lightsalmon", 0xFFA07A),
        ("lightseagreen", 0x20B2AA),
        ("lightskyblue", 0x87CEFA),
        ("lightslategray", 0x778899),
        ("lightslategrey", 0x778899),
        ("lightsteelblue", 0xB0C4DE),
        ("lightyellow", 0xFFFFE0),
        ("lime", 0x00FF00),
        ("limegreen", 0x32CD32),
        ("linen", 0xFAF0E6),
        ("magenta", 0xFF00FF),
        ("maroon", 0x800000),
        ("mediumaquamarine", 0x66CDAA),
        ("mediumblue", 0x0000CD),
        ("mediumorchid", 0xBA55D3),
        ("mediumpurple", 0x9370DB),
        ("mediumseagreen", 0x3CB371),
        ("mediumslateblue", 0x7B68EE),
        ("mediumspringgreen", 0x00FA9A),
        ("mediumturquoise", 0x48D1CC),
        ("mediumvioletred", 0xC71585),
        ("midnightblue", 0x191970),
        ("mintcream", 0xF5FFFA),
        ("mistyrose", 0xFFE4E1),
        ("moccasin", 0xFFE4B5),
        ("navajowhite", 0xFFDEAD),
        ("navy", 0x000080),
        ("oldlace", 0xFDF5E6),
        ("olive", 0x808000),
        ("olivedrab", 0x6B8E23),
        ("orange", 0xFFA500),
        ("orangered", 0xFF4500),
        ("orchid", 0xDA70D6),
        ("palegoldenrod", 0xEEE8AA),
        ("palegreen", 0x98FB98),
        ("paleturquoise", 0xAFEEEE),
        ("palevioletred", 0xDB7093),
        ("papayawhip", 0xFFEFD5),
        ("peachpuff", 0xFFDAB9),
        ("peru", 0xCD853F),
        ("pink", 0xFFC0CB),
        ("plum", 0xDDA0DD),
        ("powderblue", 0xB0E0E6),
        ("purple", 0x800080),
        ("rebeccapurple", 0x663399),
        ("red", 0xFF0000),
        ("rosybrown", 0xBC8F8F),
        ("royalblue", 0x4169E1),
        ("saddlebrown", 0x8B4513),
        ("salmon", 0xFA8072),
        ("sandybrown", 0xF4A460),
        ("seagreen", 0x2E8B57),
        ("seashell", 0xFFF5EE),
        ("sienna", 0xA0522D),
        ("silver", 0xC0C0C0),
        ("skyblue", 0x87CEEB),
        ("slateblue", 0x6A5ACD),
        ("slategray", 0x708090),
        ("slategrey", 0x708090),
        ("snow", 0xFFFAFA),
        ("springgreen", 0x00FF7F),
        ("steelblue", 0x4682B4),
        ("tan", 0xD2B48C),
        ("teal", 0x008080),
        ("thistle", 0xD8BFD8),
        ("tomato", 0xFF6347),
        ("turquoise", 0x40E0D0),
        ("violet", 0xEE82EE),
        ("wheat", 0xF5DEB3),
        ("white", 0xFFFFFF),
        ("whitesmoke", 0xF5F5F5),
        ("yellow", 0xFFFF00),
        ("yellowgreen", 0x9ACD32),
    ];
    assert(r@ =~= named_colors());
    r
}

/// Index of the first entry of `table` from `i` on whose name is `n`, if any.
pub open spec fn find_name(table: Seq<(&'static str, u32)>, n: Seq<char>, i: int) -> Option<int>
    decreases table.len() - i,
{
    if i >= table.len() || i < 0 {
        None
    } else if table[i].0@ == n {
        Some(i)
    } else {
        find_name(table, n, i + 1)
    }
}

/// The color whose value is `0xRRGGBB`.
pub open spec fn rgb_of_u32(v: u32) -> Rgb {
    Rgb { r: ((v >> 16) & 0xFF) as u8, g: ((v >> 8) & 0xFF) as u8, b: (v & 0xFF) as u8 }
}

/// The CSS color named `name`, compared in lower case.
pub open spec fn named_color_spec(name: Seq<char>) -> Option<Rgb> {
    match find_name(named_colors(), crate::utils::text::lowercase(name), 0) {
        Some(i) => Some(rgb_of_u32(named_colors()[i].1)),
        None => None,
    }
}

/// Look up a CSS named color
pub fn named_color_to_rgb(name: &str) -> (c: Option<Rgb>)
    ensures
        c == named_color_spec(name@),
{
    let name_lower = crate::utils::text::to_lowercase(name);
    let table = named_color_table();
    let ghost n = crate::utils::text::lowercase(name@);
    proof {
        assert(name_lower@ == n);
    }
    let mut i: usize = 0;
    while i < table.len()
        invariant
            table@ == named_colors(),
            n == crate::utils::text::lowercase(name@),
            name_lower@ == n,
            i <= table.len(),
            find_name(named_colors(), n, 0) == find_name(named_colors(), n, i as int),
        decreases table.len() - i,
    {
        let (entry_name, val) = table[i];
        if crate::utils::text::str_equal(name_lower.as_str(), entry_name) {
            proof {
                assert(table@[i as int].0@ == n);
                assert(find_name(named_colors(), n, i as int) == Some(i as int));
            }
            return Some(
                Rgb::new(((val >> 16) & 0xFF) as u8, ((val >> 8) & 0xFF) as u8, (val & 0xFF) as u8),
            );
        }
        i = i + 1;
    }
    None
}

/// Parse a color string (hex or named color) to RGB
pub fn parse_color(s: &str) -> (c: Option<Rgb>)
    requires
        rgb_hex_slices_ok(hex_text(s@)),
    ensures
        c == color_reading(s@),
{
    match Rgb::from_hex(s) {
        Some(c) => Some(c),
        None => named_color_to_rgb(s),
    }
}

/// Parse a color string (hex or named color) to RGBA
pub fn parse_color_alpha(s: &str) -> (c: Option<Rgba>)
    requires
        rgba_hex_slices_ok(hex_text(s@)),
    ensures
        c == color_alpha_reading(s@),
{
    match Rgba::from_hex(s) {
        Some(c) => Some(c),
        None => match named_color_to_rgb(s) {
            Some(rgb) => Some(Rgba::new(rgb.r, rgb.g, rgb.b, 255)),
            None => None,
        },
    }
}

// ============================================================================
// Laws of colors
// ============================================================================

proof fn lemma_hex_digit_roundtrip(d: u8)
    requires
        d < 16,
    ensures
        hex_digit_value(upper_hex_digit(d)) == Some(d as nat),
        (upper_hex_digit(d) as u32) < 128,
        !is_white_space(upper_hex_digit(d)),
        upper_hex_digit(d) != '#',
        upper_hex_digit(d) != '+',
{
}

proof fn lemma_hex2_value(v: u8)
    ensures
        parse_hex_u8_spec(hex2(v)) == Some(v),
{
    lemma_hex_digit_roundtrip(v / 16);
    lemma_hex_digit_roundtrip(v % 16);
    let h = hex2(v);
    assert(h.drop_last() =~= seq![upper_hex_digit(v / 16)]);
    assert(h.drop_last().drop_last() =~= Seq::<char>::empty());
    assert(hex_digits_value(h.drop_last().drop_last()) == Some(0nat));
    assert(hex_digits_value(h.drop_last()) == Some((v / 16) as nat));
    assert(hex_digits_value(h) == Some(((v / 16) * 16 + v % 16) as nat));
}

/// The text of `#` followed by hex digit pairs reads back as those pairs.
pub proof fn lemma_hash_hex_text(pairs: Seq<char>)
    requires
        pairs.len() >= 1,
        forall|i: int|
            0 <= i < pairs.len() ==> (#[trigger] pairs[i] as u32) < 128 && !is_white_space(pairs[i])
                && pairs[i] != '#',
    ensures
        hex_text(seq!['#'] + pairs) == pairs,
{
    let s = seq!['#'] + pairs;
    assert(s[0] == '#');
    assert(trim_start_ws(s) == s);
    assert(s.last() == pairs.last());
    assert(trim_end_ws(s) == s);
    assert(s.drop_first() =~= pairs);
    assert(trim_start_char(pairs, '#') == pairs);
}

/// Hex digit pairs have no whitespace at their ends and no leading `#`: their hex text is
/// themselves.
pub proof fn lemma_pairs_hex_text(pairs: Seq<char>)
    requires
        pairs.len() >= 1,
        forall|i: int|
            0 <= i < pairs.len() ==> (#[trigger] pairs[i] as u32) < 128 && !is_white_space(pairs[i])
                && pairs[i] != '#',
    ensures
        hex_text(pairs) == pairs,
{
    assert((pairs[0] as u32) < 128 && !is_white_space(pairs[0]));
    assert(trim_start_ws(pairs) == pairs);
    assert(pairs.last() == pairs[pairs.len() - 1]);
    assert(trim_end_ws(pairs) == pairs);
    assert(trim_start_char(pairs, '#') == pairs);
}

/// Upper-case hex digits are plain ASCII, neither whitespace nor `#`.
pub proof fn lemma_hex2_plain(v: u8)
    ensures
        forall|i: int|
            0 <= i < 2 ==> (#[trigger] hex2(v)[i] as u32) < 128 && !is_white_space(hex2(v)[i])
                && hex2(v)[i] != '#',
{
}

/// Reading back the hex form of a color gives the color.
pub proof fn law_rgb_hex_roundtrip(c: Rgb)
    ensures
        rgb_hex_slices_ok(hex_text(seq!['#'] + hex2(c.r) + hex2(c.g) + hex2(c.b))),
        rgb_from_hex_spec(seq!['#'] + hex2(c.r) + hex2(c.g) + hex2(c.b)) == Some(c),
{
    let pairs = hex2(c.r) + hex2(c.g) + hex2(c.b);
    lemma_hex_digit_roundtrip(c.r / 16);
    lemma_hex_digit_roundtrip(c.r % 16);
    lemma_hex_digit_roundtrip(c.g / 16);
    lemma_hex_digit_roundtrip(c.g % 16);
    lemma_hex_digit_roundtrip(c.b / 16);
    lemma_hex_digit_roundtrip(c.b % 16);
    assert(seq!['#'] + hex2(c.r) + hex2(c.g) + hex2(c.b) =~= seq!['#'] + pairs);
    lemma_hash_hex_text(pairs);
    crate::utils::text::lemma_ascii_offsets(pairs);
    assert(substring(pairs, 0, 2) =~= hex2(c.r));
    assert(substring(pairs, 2, 4) =~= hex2(c.g));
    assert(substring(pairs, 4, 6) =~= hex2(c.b));
    lemma_hex2_value(c.r);
    lemma_hex2_value(c.g);
    lemma_hex2_value(c.b);
}

/// Reading back the hex form of an RGBA color gives the color.
pub proof fn law_rgba_hex_roundtrip(c: Rgba)
    ensures
        rgba_hex_slices_ok(hex_text(seq!['#'] + hex2(c.r) + hex2(c.g) + hex2(c.b) + hex2(c.a))),
        rgba_from_hex_spec(seq!['#'] + hex2(c.r) + hex2(c.g) + hex2(c.b) + hex2(c.a)) == Some(c),
{
    let pairs = hex2(c.r) + hex2(c.g) + hex2(c.b) + hex2(c.a);
    lemma_hex_digit_roundtrip(c.r / 16);
    lemma_hex_digit_roundtrip(c.r % 16);
    lemma_hex_digit_roundtrip(c.g / 16);
    lemma_hex_digit_roundtrip(c.g % 16);
    lemma_hex_digit_roundtrip(c.b / 16);
    lemma_hex_digit_roundtrip(c.b % 16);
    lemma_hex_digit_roundtrip(c.a / 16);
    lemma_hex_digit_roundtrip(c.a % 16);
    assert(seq!['#'] + hex2(c.r) + hex2(c.g) + hex2(c.b) + hex2(c.a) =~= seq!['#'] + pairs);
    lemma_hash_hex_text(pairs);
    crate::utils::text::lemma_ascii_offsets(pairs);
    assert(substring(pairs, 0, 2) =~= hex2(c.r));
    assert(substring(pairs, 2, 4) =~= hex2(c.g));
    assert(substring(pairs, 4, 6) =~= hex2(c.b));
    assert(substring(pairs, 6, 8) =~= hex2(c.a));
    lemma_hex2_value(c.r);
    lemma_hex2_value(c.g);
    lemma_hex2_value(c.b);
    lemma_hex2_value(c.a);
}

/// The packed `0xRRGGBB` value of a color unpacks to the color.
pub proof fn law_rgb_u32_roundtrip(c: Rgb)
    ensures
        rgb_of_u32((c.r * 0x10000 + c.g * 0x100 + c.b) as u32) == c,
{
    let r = c.r;
    let g = c.g;
    let b = c.b;
    let v = (r * 0x10000 + g * 0x100 + b) as u32;
    assert(((v >> 16) & 0xFF) as u8 == r && ((v >> 8) & 0xFF) as u8 == g && (v & 0xFF) as u8 == b)
        by (bit_vector)
        requires
            v == (r * 0x10000 + g * 0x100 + b) as u32,
    ;
}

/// Named colors are looked up without regard to ASCII case.
pub proof fn law_named_color_ignores_case(name: Seq<char>)
    requires
        crate::utils::text::all_ascii(name),
    ensures
        named_color_spec(name) == named_color_spec(crate::utils::text::lowercase(name)),
{
    let l = crate::utils::text::lowercase(name);
    assert(l == name.map_values(|c: char| crate::utils::text::ascii_lower(c)));
    assert(crate::utils::text::all_ascii(l));
    assert(crate::utils::text::lowercase(l) =~= l);
}

/// Slicing a piece of one byte out of the hex text gives a single character.
proof fn lemma_slice_len(h: Seq<char>, start: int, end: int)
    requires
        end == start + 1,
        substring_exists(h, start, end),
    ensures
        byte_len(substring(h, start, end)) == 1,
        parse_hex_u8_spec(substring(h, start, end)) matches Some(v) ==> v <= 15,
{
    let i = char_index_at(h, start);
    let j = char_index_at(h, end);
    lemma_char_index_at(h, start);
    lemma_char_index_at(h, end);
    if j <= i {
        lemma_offset_strict(h, j, i);
    }
    if j > i + 1 {
        lemma_offset_strict(h, i + 1, j);
        lemma_offset_strict(h, i, i + 1);
    }
    assert(j == i + 1);
    crate::utils::text::lemma_offset_succ(h, i);
    assert(h.subrange(i, j) =~= seq![h[i]]);
    crate::utils::text::lemma_encode_single(h[i]);
    lemma_single_hex(substring(h, start, end));
}

// ============================================================================
// Whether hex text can be sliced
// ============================================================================

/// Whether `parse_color` (and `Rgb::from_hex`) can take its slices of `s`: they must not
/// split a character, which would panic.
pub fn rgb_hex_parsable(s: &str) -> (r: bool)
    ensures
        r == rgb_hex_slices_ok(hex_text(s@)),
{
    let h = str_trim_start_char(str_trim(s), '#');
    let n = str_byte_len(h);
    if n == 3 {
        crate::utils::text::at_boundary(h, 1) && crate::utils::text::at_boundary(h, 2)
    } else if n == 6 {
        crate::utils::text::at_boundary(h, 2) && crate::utils::text::at_boundary(h, 4)
    } else {
        true
    }
}

/// Whether `parse_color_alpha` (and `Rgba::from_hex`) can take its slices of `s`.
pub fn rgba_hex_parsable(s: &str) -> (r: bool)
    ensures
        r == rgba_hex_slices_ok(hex_text(s@)),
{
    let h = str_trim_start_char(str_trim(s), '#');
    let n = str_byte_len(h);
    if n == 4 {
        crate::utils::text::at_boundary(h, 1) && crate::utils::text::at_boundary(h, 2)
            && crate::utils::text::at_boundary(h, 3)
    } else if n == 8 {
        crate::utils::text::at_boundary(h, 2) && crate::utils::text::at_boundary(h, 4)
            && crate::utils::text::at_boundary(h, 6)
    } else if n == 3 || n == 6 {
        rgb_hex_parsable(h)
    } else {
        true
    }
}


/// One upper-case hex digit reads back as its value.
proof fn lemma_one_digit_value(d: u8)
    requires
        d < 16,
    ensures
        parse_hex_u8_spec(seq![upper_hex_digit(d)]) == Some(d),
{
    lemma_hex_digit_roundtrip(d);
    let h = seq![upper_hex_digit(d)];
    assert(h.drop_last() =~= Seq::<char>::empty());
    assert(hex_digits_value(h.drop_last()) == Some(0nat));
    assert(hex_digits_value(h) == Some(d as nat));
}

/// A digit doubled is the pair of hex digits of that digit times 17.
proof fn lemma_doubled_digit(d: u8)
    requires
        d < 16,
    ensures
        hex2((d * 17) as u8) == seq![upper_hex_digit(d), upper_hex_digit(d)],
{
    let v = (d * 17) as u8;
    assert(v == d * 16 + d);
    assert(v / 16 == d && v % 16 == d);
    assert(hex2(v) =~= seq![upper_hex_digit(d), upper_hex_digit(d)]);
}

/// The short form `#RGBA` of upper-case digits reads each digit `d` as `d * 17`.
proof fn lemma_short_rgba_reads(r: u8, g: u8, b: u8, a: u8)
    requires
        r < 16,
        g < 16,
        b < 16,
        a < 16,
    ensures
        rgba_hex_slices_ok(
            hex_text(
                seq!['#', upper_hex_digit(r), upper_hex_digit(g), upper_hex_digit(b), upper_hex_digit(a)],
            ),
        ),
        rgba_from_hex_spec(
            seq!['#', upper_hex_digit(r), upper_hex_digit(g), upper_hex_digit(b), upper_hex_digit(a)],
        ) == Some(Rgba { r: (r * 17) as u8, g: (g * 17) as u8, b: (b * 17) as u8, a: (a * 17) as u8 }),
{
    let digits = seq![upper_hex_digit(r), upper_hex_digit(g), upper_hex_digit(b), upper_hex_digit(a)];
    lemma_hex_digit_roundtrip(r);
    lemma_hex_digit_roundtrip(g);
    lemma_hex_digit_roundtrip(b);
    lemma_hex_digit_roundtrip(a);
    assert(seq!['#', upper_hex_digit(r), upper_hex_digit(g), upper_hex_digit(b), upper_hex_digit(a)]
        =~= seq!['#'] + digits);
    lemma_hash_hex_text(digits);
    crate::utils::text::lemma_ascii_offsets(digits);
    assert(substring(digits, 0, 1) =~= seq![upper_hex_digit(r)]);
    assert(substring(digits, 1, 2) =~= seq![upper_hex_digit(g)]);
    assert(substring(digits, 2, 3) =~= seq![upper_hex_digit(b)]);
    assert(substring(digits, 3, 4) =~= seq![upper_hex_digit(a)]);
    lemma_one_digit_value(r);
    lemma_one_digit_value(g);
    lemma_one_digit_value(b);
    lemma_one_digit_value(a);
}

/// The text of `#RRGGBBAA` with every digit doubled is the hex form of the color whose
/// channels are those digits times 17.
proof fn lemma_doubled_rgba_text(r: u8, g: u8, b: u8, a: u8)
    requires
        r < 16,
        g < 16,
        b < 16,
        a < 16,
    ensures
        seq![
            '#',
            upper_hex_digit(r),
            upper_hex_digit(r),
            upper_hex_digit(g),
            upper_hex_digit(g),
            upper_hex_digit(b),
            upper_hex_digit(b),
            upper_hex_digit(a),
            upper_hex_digit(a),
        ] == seq!['#'] + hex2((r * 17) as u8) + hex2((g * 17) as u8) + hex2((b * 17) as u8) + hex2(
            (a * 17) as u8,
        ),
{
    lemma_doubled_digit(r);
    lemma_doubled_digit(g);
    lemma_doubled_digit(b);
    lemma_doubled_digit(a);
    assert(seq![
        '#',
        upper_hex_digit(r),
        upper_hex_digit(r),
        upper_hex_digit(g),
        upper_hex_digit(g),
        upper_hex_digit(b),
        upper_hex_digit(b),
        upper_hex_digit(a),
        upper_hex_digit(a),
    ] =~= seq!['#'] + hex2((r * 17) as u8) + hex2((g * 17) as u8) + hex2((b * 17) as u8) + hex2(
        (a * 17) as u8,
    ));
}

/// The short form `#RGBA` reads each channel from its own digit: red from the first, green
/// from the second, blue from the third and alpha from the fourth, each digit `d` standing
/// for `d * 17`; so it reads as the long form `#RRGGBBAA` with every digit doubled.
pub proof fn law_short_rgba_digits(r: u8, g: u8, b: u8, a: u8)
    requires
        r < 16,
        g < 16,
        b < 16,
        a < 16,
    ensures
        rgba_hex_slices_ok(
            hex_text(
                seq!['#', upper_hex_digit(r), upper_hex_digit(g), upper_hex_digit(b), upper_hex_digit(a)],
            ),
        ),
        rgba_from_hex_spec(
            seq!['#', upper_hex_digit(r), upper_hex_digit(g), upper_hex_digit(b), upper_hex_digit(a)],
        ) == Some(Rgba { r: (r * 17) as u8, g: (g * 17) as u8, b: (b * 17) as u8, a: (a * 17) as u8 }),
        rgba_from_hex_spec(
            seq!['#', upper_hex_digit(r), upper_hex_digit(g), upper_hex_digit(b), upper_hex_digit(a)],
        ) == rgba_from_hex_spec(
            seq![
                '#',
                upper_hex_digit(r),
                upper_hex_digit(r),
                upper_hex_digit(g),
                upper_hex_digit(g),
                upper_hex_digit(b),
                upper_hex_digit(b),
                upper_hex_digit(a),
                upper_hex_digit(a),
            ],
        ),
{
    lemma_short_rgba_reads(r, g, b, a);
    lemma_doubled_rgba_text(r, g, b, a);
    law_rgba_hex_roundtrip(
        Rgba { r: (r * 17) as u8, g: (g * 17) as u8, b: (b * 17) as u8, a: (a * 17) as u8 },
    );
}

/// The short form `#RGB` of upper-case digits reads each digit `d` as `d * 17`.
proof fn lemma_short_rgb_reads(r: u8, g: u8, b: u8)
    requires
        r < 16,
        g < 16,
        b < 16,
    ensures
        rgb_hex_slices_ok(hex_text(seq!['#', upper_hex_digit(r), upper_hex_digit(g), upper_hex_digit(b)])),
        rgb_from_hex_spec(seq!['#', upper_hex_digit(r), upper_hex_digit(g), upper_hex_digit(b)])
            == Some(Rgb { r: (r * 17) as u8, g: (g * 17) as u8, b: (b * 17) as u8 }),
{
    let digits = seq![upper_hex_digit(r), upper_hex_digit(g), upper_hex_digit(b)];
    lemma_hex_digit_roundtrip(r);
    lemma_hex_digit_roundtrip(g);
    lemma_hex_digit_roundtrip(b);
    assert(seq!['#', upper_hex_digit(r), upper_hex_digit(g), upper_hex_digit(b)] =~= seq!['#']
        + digits);
    lemma_hash_hex_text(digits);
    crate::utils::text::lemma_ascii_offsets(digits);
    assert(substring(digits, 0, 1) =~= seq![upper_hex_digit(r)]);
    assert(substring(digits, 1, 2) =~= seq![upper_hex_digit(g)]);
    assert(substring(digits, 2, 3) =~= seq![upper_hex_digit(b)]);
    lemma_one_digit_value(r);
    lemma_one_digit_value(g);
    lemma_one_digit_value(b);
}

/// The text of `#RRGGBB` with every digit doubled is the hex form of the color whose
/// channels are those digits times 17.
proof fn lemma_doubled_rgb_text(r: u8, g: u8, b: u8)
    requires
        r < 16,
        g < 16,
        b < 16,
    ensures
        seq![
            '#',
            upper_hex_digit(r),
            upper_hex_digit(r),
            upper_hex_digit(g),
            upper_hex_digit(g),
            upper_hex_digit(b),
            upper_hex_digit(b),
        ] == seq!['#'] + hex2((r * 17) as u8) + hex2((g * 17) as u8) + hex2((b * 17) as u8),
{
    lemma_doubled_digit(r);
    lemma_doubled_digit(g);
    lemma_doubled_digit(b);
    assert(seq![
        '#',
        upper_hex_digit(r),
        upper_hex_digit(r),
        upper_hex_digit(g),
        upper_hex_digit(g),
        upper_hex_digit(b),
        upper_hex_digit(b),
    ] =~= seq!['#'] + hex2((r * 17) as u8) + hex2((g * 17) as u8) + hex2((b * 17) as u8));
}

/// The short form `#RGB` reads each channel from its own digit, each digit `d` standing for
/// `d * 17`; so it reads as the long form `#RRGGBB` with every digit doubled.
pub proof fn law_short_rgb_digits(r: u8, g: u8, b: u8)
    requires
        r < 16,
        g < 16,
        b < 16,
    ensures
        rgb_hex_slices_ok(hex_text(seq!['#', upper_hex_digit(r), upper_hex_digit(g), upper_hex_digit(b)])),
        rgb_from_hex_spec(seq!['#', upper_hex_digit(r), upper_hex_digit(g), upper_hex_digit(b)])
            == Some(Rgb { r: (r * 17) as u8, g: (g * 17) as u8, b: (b * 17) as u8 }),
        rgb_from_hex_spec(seq!['#', upper_hex_digit(r), upper_hex_digit(g), upper_hex_digit(b)])
            == rgb_from_hex_spec(
            seq![
                '#',
                upper_hex_digit(r),
                upper_hex_digit(r),
                upper_hex_digit(g),
                upper_hex_digit(g),
                upper_hex_digit(b),
                upper_hex_digit(b),
            ],
        ),
{
    lemma_short_rgb_reads(r, g, b);
    lemma_doubled_rgb_text(r, g, b);
    law_rgb_hex_roundtrip(Rgb { r: (r * 17) as u8, g: (g * 17) as u8, b: (b * 17) as u8 });
}

/// What `parse_color` reads from `s`: a hex color, else a named one.
pub open spec fn color_reading(s: Seq<char>) -> Option<Rgb> {
    match rgb_from_hex_spec(s) {
        Some(x) => Some(x),
        None => named_color_spec(s),
    }
}

/// `c` as an RGBA color with full alpha.
pub open spec fn with_full_alpha(c: Rgb) -> Rgba {
    Rgba { r: c.r, g: c.g, b: c.b, a: 255 }
}

/// What `parse_color_alpha` reads from `s`: a hex color with alpha, else a named one with
/// full alpha.
pub open spec fn color_alpha_reading(s: Seq<char>) -> Option<Rgba> {
    match rgba_from_hex_spec(s) {
        Some(x) => Some(x),
        None => match named_color_spec(s) {
            Some(x) => Some(with_full_alpha(x)),
            None => None,
        },
    }
}

/// Reading with alpha agrees with `Rgba::from_hex`, and gives every color that the reading
/// without alpha gives, with full alpha: every hex color, every named one on ASCII text, and
/// every named one on other text that is no four- or eight-digit hex color.
pub proof fn law_alpha_reading_extends(s: Seq<char>)
    requires
        rgb_hex_slices_ok(hex_text(s)),
        rgba_hex_slices_ok(hex_text(s)),
    ensures
        rgba_from_hex_spec(s) matches Some(x) ==> color_alpha_reading(s) == Some(x),
        rgb_from_hex_spec(s) matches Some(c) ==> color_alpha_reading(s) == Some(with_full_alpha(c)),
        all_ascii(s) && color_reading(s) is Some ==> color_alpha_reading(s) == Some(
            with_full_alpha(color_reading(s).unwrap()),
        ),
        color_reading(s) is Some && (rgba_from_hex_spec(s) is None || rgb_from_hex_spec(s) is Some)
            ==> color_alpha_reading(s) == Some(with_full_alpha(color_reading(s).unwrap())),
{
    if rgb_from_hex_spec(s) is Some {
        lemma_hex_text_fixed(s);
    } else if all_ascii(s) && named_color_spec(s) is Some {
        lemma_named_not_hex(s);
    }
}

/// The first hit of a search in the table is an entry with that name.
proof fn lemma_find_name_hit(t: Seq<(&'static str, u32)>, n: Seq<char>, k: int)
    requires
        find_name(t, n, k) is Some,
    ensures
        k <= find_name(t, n, k).unwrap() < t.len(),
        0 <= find_name(t, n, k).unwrap(),
        t[find_name(t, n, k).unwrap()].0@ == n,
    decreases t.len() - k,
{
    if k >= 0 && k < t.len() && t[k].0@ != n {
        lemma_find_name_hit(t, n, k + 1);
    }
}

/// ASCII text that names a color holds only letters, one of them past `f` in lower case.
proof fn lemma_named_letters(s: Seq<char>)
    requires
        all_ascii(s),
        named_color_spec(s) is Some,
    ensures
        s.len() > 0,
        forall|j: int| 0 <= j < s.len() ==> ('a' <= #[trigger] s[j] <= 'z' || 'A' <= s[j] <= 'Z'),
        exists|j: int| 0 <= j < s.len() && 'g' <= #[trigger] ascii_lower(s[j]) <= 'z',
{
    let l = lowercase(s);
    assert(l == s.map_values(|c: char| ascii_lower(c)));
    lemma_find_name_hit(named_colors(), l, 0);
    let i = find_name(named_colors(), l, 0).unwrap();
    lemma_color_name(i);
    assert forall|j: int| 0 <= j < s.len() implies ('a' <= #[trigger] s[j] <= 'z' || 'A' <= s[j] <= 'Z') by {
        assert(l[j] == ascii_lower(s[j]));
        assert('a' <= l[j] <= 'z');
    }
    let w = choose|j: int| 0 <= j < l.len() && 'g' <= #[trigger] l[j] <= 'z';
    assert(l[w] == ascii_lower(s[w]));
}

/// ASCII text that names a color and is no hex color is no hex color with alpha either.
proof fn lemma_named_not_hex(s: Seq<char>)
    requires
        all_ascii(s),
        named_color_spec(s) is Some,
        rgb_from_hex_spec(s) is None,
    ensures
        rgba_from_hex_spec(s) is None,
{
    lemma_named_letters(s);
    assert(!is_white_space(s[0]));
    assert(!is_white_space(s.last()));
    assert(trim_start_ws(s) == s);
    assert(trim_end_ws(s) == s);
    assert(trim_start_char(s, '#') == s);
    assert(hex_text(s) == s);
    lemma_ascii_offsets(s);
    let w = choose|j: int| 0 <= j < s.len() && 'g' <= #[trigger] ascii_lower(s[j]) <= 'z';
    if s.len() == 4 {
        if hex_byte(s, 0, 1) is Some && hex_byte(s, 1, 2) is Some && hex_byte(s, 2, 3) is Some
            && hex_byte(s, 3, 4) is Some {
            lemma_hex_piece_start(s.subrange(w, w + 1));
            assert(s.subrange(w, w + 1)[0] == s[w]);
            assert(false);
        }
    } else if s.len() == 8 {
        if hex_byte(s, 0, 2) is Some && hex_byte(s, 2, 4) is Some && hex_byte(s, 4, 6) is Some
            && hex_byte(s, 6, 8) is Some {
            let a = w - w % 2;
            lemma_hex_piece_start(s.subrange(a, a + 2));
            assert(s.subrange(a, a + 2)[w - a] == s[w]);
            assert(false);
        }
    }
}

/// A sequence of digits with a value holds only hexadecimal digits.
proof fn lemma_hex_digits_all(d: Seq<char>)
    requires
        hex_digits_value(d) is Some,
    ensures
        forall|i: int| 0 <= i < d.len() ==> (#[trigger] hex_digit_value(d[i])) is Some,
    decreases d.len(),
{
    if d.len() > 0 {
        lemma_hex_digits_all(d.drop_last());
        assert forall|i: int| 0 <= i < d.len() implies (#[trigger] hex_digit_value(d[i])) is Some by {
            if i < d.len() - 1 {
                assert(d[i] == d.drop_last()[i]);
            }
        }
    }
}

/// A byte read from a piece starts with `+` or a hexadecimal digit, and the rest are
/// hexadecimal digits.
proof fn lemma_hex_piece_start(p: Seq<char>)
    requires
        parse_hex_u8_spec(p) is Some,
    ensures
        p.len() > 0,
        p[0] == '+' || hex_digit_value(p[0]) is Some,
        forall|i: int| 1 <= i < p.len() ==> (#[trigger] hex_digit_value(p[i])) is Some,
{
    if p.len() > 0 && p[0] != '+' {
        lemma_hex_digits_all(p);
    } else if p.len() > 0 {
        let d = p.drop_first();
        lemma_hex_digits_all(d);
        assert forall|i: int| 1 <= i < p.len() implies (#[trigger] hex_digit_value(p[i])) is Some by {
            assert(p[i] == d[i - 1]);
        }
    }
}

/// Trimming leading `c`s leaves an end of the text that does not start with `c`.
proof fn lemma_trim_start_char_shape(t: Seq<char>, c: char)
    ensures
        trim_start_char(t, c).len() <= t.len(),
        trim_start_char(t, c) == t.skip(t.len() - trim_start_char(t, c).len()),
        trim_start_char(t, c).len() > 0 ==> trim_start_char(t, c)[0] != c,
    decreases t.len(),
{
    if t.len() > 0 && t[0] == c {
        lemma_trim_start_char_shape(t.drop_first(), c);
        let r = trim_start_char(t.drop_first(), c);
        assert(t.drop_first().skip(t.drop_first().len() - r.len()) =~= t.skip(t.len() - r.len()));
    } else {
        assert(t.skip(0) =~= t);
    }
}

/// Trimming trailing whitespace leaves text that does not end in whitespace.
proof fn lemma_trim_end_ws_last(t: Seq<char>)
    ensures
        trim_end_ws(t).len() > 0 ==> !is_white_space(trim_end_ws(t).last()),
    decreases t.len(),
{
    if t.len() > 0 && is_white_space(t.last()) {
        lemma_trim_end_ws_last(t.drop_last());
    }
}

/// The text a hex color is read from is read again unchanged, once it holds a color.
proof fn lemma_hex_text_fixed(s: Seq<char>)
    requires
        rgb_hex_slices_ok(hex_text(s)),
        rgb_from_hex_spec(s) is Some,
    ensures
        hex_text(hex_text(s)) == hex_text(s),
{
    let t = trim_ws(s);
    let h = hex_text(s);
    lemma_trim_start_char_shape(t, '#');
    lemma_trim_end_ws_last(trim_start_ws(s));
    let e: int = if byte_len(h) == 3 {
        1
    } else {
        2
    };
    lemma_offset_zero_end(h);
    assert(h.len() > 0);
    lemma_char_index_at(h, 0);
    lemma_char_index_at(h, e);
    let k = char_index_at(h, e);
    assert(char_index_at(h, 0) == 0);
    assert(k != 0);
    let piece = substring(h, 0, e);
    assert(piece == h.subrange(0, k));
    lemma_hex_piece_start(piece);
    assert(piece[0] == h[0]);
    assert(!is_white_space(h[0]));
    assert(h.last() == t.last());
    assert(trim_start_ws(h) == h);
    assert(trim_end_ws(h) == h);
    assert(trim_start_char(h, '#') == h);
}


/// A color name: lower-case ASCII letters, one of them past `f` (so it is no hex text).
pub open spec fn color_name_text(n: Seq<char>) -> bool {
    &&& forall|j: int| 0 <= j < n.len() ==> 'a' <= #[trigger] n[j] <= 'z'
    &&& exists|j: int| 0 <= j < n.len() && 'g' <= #[trigger] n[j] <= 'z'
}

/// Each name in the color table is a color name.
proof fn lemma_color_name(i: int)
    requires
        0 <= i < named_colors().len(),
    ensures
        color_name_text(named_colors()[i].0@),
{
    if i == 0 {
        reveal_strlit("aliceblue");
        assert("aliceblue"@[1] == 'l');
    } else if i == 1 {
        reveal_strlit("antiquewhite");
        assert("antiquewhite"@[1] == 'n');
    } else if i == 2 {
        reveal_strlit("aqua");
        assert("aqua"@[1] == 'q');
    } else if i == 3 {
        reveal_strlit("aquamarine");
        assert("aquamarine"@[1] == 'q');
    } else if i == 4 {
        reveal_strlit("azure");
        assert("azure"@[1] == 'z');
    } else if i == 5 {
        reveal_strlit("beige");
        assert("beige"@[2] == 'i');
    } else if i == 6 {
        reveal_strlit("bisque");
        assert("bisque"@[1] == 'i');
    } else if i == 7 {
        reveal_strlit("black");
        assert("black"@[1] == 'l');
    } else if i == 8 {
        reveal_strlit("blanchedalmond");
        assert("blanchedalmond"@[1] == 'l');
    } else if i == 9 {
        reveal_strlit("blue");
        assert("blue"@[1] == 'l');
    } else if i == 10 {
        reveal_strlit("blueviolet");
        assert("blueviolet"@[1] == 'l');
    } else if i == 11 {
        reveal_strlit("brown");
        assert("brown"@[1] == 'r');
    } else if i == 12 {
        reveal_strlit("burlywood");
        assert("burlywood"@[1] == 'u');
    } else if i == 13 {
        reveal_strlit("cadetblue");
        assert("cadetblue"@[4] == 't');
    } else if i == 14 {
        reveal_strlit("chartreuse");
        assert("chartreuse"@[1] == 'h');
    } else if i == 15 {
        reveal_strlit("chocolate");
        assert("chocolate"@[1] == 'h');
    } else if i == 16 {
        reveal_strlit("coral");
        assert("coral"@[1] == 'o');
    } else if i == 17 {
        reveal_strlit("cornflowerblue");
        assert("cornflowerblue"@[1] == 'o');
    } else if i == 18 {
        reveal_strlit("cornsilk");
        assert("cornsilk"@[1] == 'o');
    } else if i == 19 {
        reveal_strlit("crimson");
        assert("crimson"@[1] == 'r');
    } else if i == 20 {
        reveal_strlit("cyan");
        assert("cyan"@[1] == 'y');
    } else if i == 21 {
        reveal_strlit("darkblue");
        assert("darkblue"@[2] == 'r');
    } else if i == 22 {
        reveal_strlit("darkcyan");
        assert("darkcyan"@[2] == 'r');
    } else if i == 23 {
        reveal_strlit("darkgoldenrod");
        assert("darkgoldenrod"@[2] == 'r');
    } else if i == 24 {
        reveal_strlit("darkgray");
        assert("darkgray"@[2] == 'r');
    } else if i == 25 {
        reveal_strlit("darkgreen");
        assert("darkgreen"@[2] == 'r');
    } else if i == 26 {
        reveal_strlit("darkgrey");
        assert("darkgrey"@[2] == 'r');
    } else if i == 27 {
        reveal_strlit("darkkhaki");
        assert("darkkhaki"@[2] == 'r');
    } else if i == 28 {
        reveal_strlit("darkmagenta");
        assert("darkmagenta"@[2] == 'r');
    } else if i == 29 {
        reveal_strlit("darkolivegreen");
        assert("darkolivegreen"@[2] == 'r');
    } else if i == 30 {
        reveal_strlit("darkorange");
        assert("darkorange"@[2] == 'r');
    } else if i == 31 {
        reveal_strlit("darkorchid");
        assert("darkorchid"@[2] == 'r');
    } else if i == 32 {
        reveal_strlit("darkred");
        assert("darkred"@[2] == 'r');
    } else if i == 33 {
        reveal_strlit("darksalmon");
        assert("darksalmon"@[2] == 'r');
    } else if i == 34 {
        reveal_strlit("darkseagreen");
        assert("darkseagreen"@[2] == 'r');
    } else if i == 35 {
        reveal_strlit("darkslateblue");
        assert("darkslateblue"@[2] == 'r');
    } else if i == 36 {
        reveal_strlit("darkslategray");
        assert("darkslategray"@[2] == 'r');
    } else if i == 37 {
        reveal_strlit("darkslategrey");
        assert("darkslategrey"@[2] == 'r');
    } else if i == 38 {
        reveal_strlit("darkturquoise");
        assert("darkturquoise"@[2] == 'r');
    } else if i == 39 {
        reveal_strlit("darkviolet");
        assert("darkviolet"@[2] == 'r');
    } else if i == 40 {
        reveal_strlit("deeppink");
        assert("deeppink"@[3] == 'p');
    } else if i == 41 {
        reveal_strlit("deepskyblue");
        assert("deepskyblue"@[3] == 'p');
    } else if i == 42 {
        reveal_strlit("dimgray");
        assert("dimgray"@[1] == 'i');
    } else if i == 43 {
        reveal_strlit("dimgrey");
        assert("dimgrey"@[1] == 'i');
    } else if i == 44 {
        reveal_strlit("dodgerblue");
        assert("dodgerblue"@[1] == 'o');
    } else if i == 45 {
        reveal_strlit("firebrick");
        assert("firebrick"@[1] == 'i');
    } else if i == 46 {
        reveal_strlit("floralwhite");
        assert("floralwhite"@[1] == 'l');
    } else if i == 47 {
        reveal_strlit("forestgreen");
        assert("forestgreen"@[1] == 'o');
    } else if i == 48 {
        reveal_strlit("fuchsia");
        assert("fuchsia"@[1] == 'u');
    } else if i == 49 {
        reveal_strlit("gainsboro");
        assert("gainsboro"@[0] == 'g');
    } else if i == 50 {
        reveal_strlit("ghostwhite");
        assert("ghostwhite"@[0] == 'g');
    } else if i == 51 {
        reveal_strlit("gold");
        assert("gold"@[0] == 'g');
    } else if i == 52 {
        reveal_strlit("goldenrod");
        assert("goldenrod"@[0] == 'g');
    } else if i == 53 {
        reveal_strlit("gray");
        assert("gray"@[0] == 'g');
    } else if i == 54 {
        reveal_strlit("green");
        assert("green"@[0] == 'g');
    } else if i == 55 {
        reveal_strlit("greenyellow");
        assert("greenyellow"@[0] == 'g');
    } else if i == 56 {
        reveal_strlit("grey");
        assert("grey"@[0] == 'g');
    } else if i == 57 {
        reveal_strlit("honeydew");
        assert("honeydew"@[0] == 'h');
    } else if i == 58 {
        reveal_strlit("hotpink");
        assert("hotpink"@[0] == 'h');
    } else if i == 59 {
        reveal_strlit("indianred");
        assert("indianred"@[0] == 'i');
    } else if i == 60 {
        reveal_strlit("indigo");
        assert("indigo"@[0] == 'i');
    } else if i == 61 {
        reveal_strlit("ivory");
        assert("ivory"@[0] == 'i');
    } else if i == 62 {
        reveal_strlit("khaki");
        assert("khaki"@[0] == 'k');
    } else if i == 63 {
        reveal_strlit("lavender");
        assert("lavender"@[0] == 'l');
    } else if i == 64 {
        reveal_strlit("lavenderblush");
        assert("lavenderblush"@[0] == 'l');
    } else if i == 65 {
        reveal_strlit("lawngreen");
        assert("lawngreen"@[0] == 'l');
    } else if i == 66 {
        reveal_strlit("lemonchiffon");
        assert("lemonchiffon"@[0] == 'l');
    } else if i == 67 {
        reveal_strlit("lightblue");
        assert("lightblue"@[0] == 'l');
    } else if i == 68 {
        reveal_strlit("lightcoral");
        assert("lightcoral"@[0] == 'l');
    } else if i == 69 {
        reveal_strlit("lightcyan");
        assert("lightcyan"@[0] == 'l');
    } else if i == 70 {
        reveal_strlit("lightgoldenrodyellow");
        assert("lightgoldenrodyellow"@[0] == 'l');
    } else if i == 71 {
        reveal_strlit("lightgray");
        assert("lightgray"@[0] == 'l');
    } else if i == 72 {
        reveal_strlit("lightgreen");
        assert("lightgreen"@[0] == 'l');
    } else if i == 73 {
        reveal_strlit("lightgrey");
        assert("lightgrey"@[0] == 'l');
    } else if i == 74 {
        reveal_strlit("lightpink");
        assert("lightpink"@[0] == 'l');
    } else if i == 75 {
        reveal_strlit("lightsalmon");
        assert("lightsalmon"@[0] == 'l');
    } else if i == 76 {
        reveal_strlit("lightseagreen");
        assert("lightseagreen"@[0] == 'l');
    } else if i == 77 {
        reveal_strlit("lightskyblue");
        assert("lightskyblue"@[0] == 'l');
    } else if i == 78 {
        reveal_strlit("lightslategray");
        assert("lightslategray"@[0] == 'l');
    } else if i == 79 {
        reveal_strlit("lightslategrey");
        assert("lightslategrey"@[0] == 'l');
    } else if i == 80 {
        reveal_strlit("lightsteelblue");
        assert("lightsteelblue"@[0] == 'l');
    } else if i == 81 {
        reveal_strlit("lightyellow");
        assert("lightyellow"@[0] == 'l');
    } else if i == 82 {
        reveal_strlit("lime");
        assert("lime"@[0] == 'l');
    } else if i == 83 {
        reveal_strlit("limegreen");
        assert("limegreen"@[0] == 'l');
    } else if i == 84 {
        reveal_strlit("linen");
        assert("linen"@[0] == 'l');
    } else if i == 85 {
        reveal_strlit("magenta");
        assert("magenta"@[0] == 'm');
    } else if i == 86 {
        reveal_strlit("maroon");
        assert("maroon"@[0] == 'm');
    } else if i == 87 {
        reveal_strlit("mediumaquamarine");
        assert("mediumaquamarine"@[0] == 'm');
    } else if i == 88 {
        reveal_strlit("mediumblue");
        assert("mediumblue"@[0] == 'm');
    } else if i == 89 {
        reveal_strlit("mediumorchid");
        assert("mediumorchid"@[0] == 'm');
    } else if i == 90 {
        reveal_strlit("mediumpurple");
        assert("mediumpurple"@[0] == 'm');
    } else if i == 91 {
        reveal_strlit("mediumseagreen");
        assert("mediumseagreen"@[0] == 'm');
    } else if i == 92 {
        reveal_strlit("mediumslateblue");
        assert("mediumslateblue"@[0] == 'm');
    } else if i == 93 {
        reveal_strlit("mediumspringgreen");
        assert("mediumspringgreen"@[0] == 'm');
    } else if i == 94 {
        reveal_strlit("mediumturquoise");
        assert("mediumturquoise"@[0] == 'm');
    } else if i == 95 {
        reveal_strlit("mediumvioletred");
        assert("mediumvioletred"@[0] == 'm');
    } else if i == 96 {
        reveal_strlit("midnightblue");
        assert("midnightblue"@[0] == 'm');
    } else if i == 97 {
        reveal_strlit("mintcream");
        assert("mintcream"@[0] == 'm');
    } else if i == 98 {
        reveal_strlit("mistyrose");
        assert("mistyrose"@[0] == 'm');
    } else if i == 99 {
        reveal_strlit("moccasin");
        assert("moccasin"@[0] == 'm');
    } else if i == 100 {
        reveal_strlit("navajowhite");
        assert("navajowhite"@[0] == 'n');
    } else if i == 101 {
        reveal_strlit("navy");
        assert("navy"@[0] == 'n');
    } else if i == 102 {
        reveal_strlit("oldlace");
        assert("oldlace"@[0] == 'o');
    } else if i == 103 {
        reveal_strlit("olive");
        assert("olive"@[0] == 'o');
    } else if i == 104 {
        reveal_strlit("olivedrab");
        assert("olivedrab"@[0] == 'o');
    } else if i == 105 {
        reveal_strlit("orange");
        assert("orange"@[0] == 'o');
    } else if i == 106 {
        reveal_strlit("orangered");
        assert("orangered"@[0] == 'o');
    } else if i == 107 {
        reveal_strlit("orchid");
        assert("orchid"@[0] == 'o');
    } else if i == 108 {
        reveal_strlit("palegoldenrod");
        assert("palegoldenrod"@[0] == 'p');
    } else if i == 109 {
        reveal_strlit("palegreen");
        assert("palegreen"@[0] == 'p');
    } else if i == 110 {
        reveal_strlit("paleturquoise");
        assert("paleturquoise"@[0] == 'p');
    } else if i == 111 {
        reveal_strlit("palevioletred");
        assert("palevioletred"@[0] == 'p');
    } else if i == 112 {
        reveal_strlit("papayawhip");
        assert("papayawhip"@[0] == 'p');
    } else if i == 113 {
        reveal_strlit("peachpuff");
        assert("peachpuff"@[0] == 'p');
    } else if i == 114 {
        reveal_strlit("peru");
        assert("peru"@[0] == 'p');
    } else if i == 115 {
        reveal_strlit("pink");
        assert("pink"@[0] == 'p');
    } else if i == 116 {
        reveal_strlit("plum");
        assert("plum"@[0] == 'p');
    } else if i == 117 {
        reveal_strlit("powderblue");
        assert("powderblue"@[0] == 'p');
    } else if i == 118 {
        reveal_strlit("purple");
        assert("purple"@[0] == 'p');
    } else if i == 119 {
        reveal_strlit("rebeccapurple");
        assert("rebeccapurple"@[0] == 'r');
    } else if i == 120 {
        reveal_strlit("red");
        assert("red"@[0] == 'r');
    } else if i == 121 {
        reveal_strlit("rosybrown");
        assert("rosybrown"@[0] == 'r');
    } else if i == 122 {
        reveal_strlit("royalblue");
        assert("royalblue"@[0] == 'r');
    } else if i == 123 {
        reveal_strlit("saddlebrown");
        assert("saddlebrown"@[0] == 's');
    } else if i == 124 {
        reveal_strlit("salmon");
        assert("salmon"@[0] == 's');
    } else if i == 125 {
        reveal_strlit("sandybrown");
        assert("sandybrown"@[0] == 's');
    } else if i == 126 {
        reveal_strlit("seagreen");
        assert("seagreen"@[0] == 's');
    } else if i == 127 {
        reveal_strlit("seashell");
        assert("seashell"@[0] == 's');
    } else if i == 128 {
        reveal_strlit("sienna");
        assert("sienna"@[0] == 's');
    } else if i == 129 {
        reveal_strlit("silver");
        assert("silver"@[0] == 's');
    } else if i == 130 {
        reveal_strlit("skyblue");
        assert("skyblue"@[0] == 's');
    } else if i == 131 {
        reveal_strlit("slateblue");
        assert("slateblue"@[0] == 's');
    } else if i == 132 {
        reveal_strlit("slategray");
        assert("slategray"@[0] == 's');
    } else if i == 133 {
        reveal_strlit("slategrey");
        assert("slategrey"@[0] == 's');
    } else if i == 134 {
        reveal_strlit("snow");
        assert("snow"@[0] == 's');
    } else if i == 135 {
        reveal_strlit("springgreen");
        assert("springgreen"@[0] == 's');
    } else if i == 136 {
        reveal_strlit("steelblue");
        assert("steelblue"@[0] == 's');
    } else if i == 137 {
        reveal_strlit("tan");
        assert("tan"@[0] == 't');
    } else if i == 138 {
        reveal_strlit("teal");
        assert("teal"@[0] == 't');
    } else if i == 139 {
        reveal_strlit("thistle");
        assert("thistle"@[0] == 't');
    } else if i == 140 {
        reveal_strlit("tomato");
        assert("tomato"@[0] == 't');
    } else if i == 141 {
        reveal_strlit("turquoise");
        assert("turquoise"@[0] == 't');
    } else if i == 142 {
        reveal_strlit("violet");
        assert("violet"@[0] == 'v');
    } else if i == 143 {
        reveal_strlit("wheat");
        assert("wheat"@[0] == 'w');
    } else if i == 144 {
        reveal_strlit("white");
        assert("white"@[0] == 'w');
    } else if i == 145 {
        reveal_strlit("whitesmoke");
        assert("whitesmoke"@[0] == 'w');
    } else if i == 146 {
        reveal_strlit("yellow");
        assert("yellow"@[0] == 'y');
    } else if i == 147 {
        reveal_strlit("yellowgreen");
        assert("yellowgreen"@[0] == 'y');
    }
}

} // verus!
