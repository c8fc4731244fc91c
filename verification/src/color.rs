//! RGB color values and parsing of six-digit hexadecimal color strings.

use vstd::prelude::*;

verus! {

/// An opaque RGB color with 8-bit channels.
#[derive(Clone, Copy, Debug, PartialEq, Eq, Structural)]
pub struct Color {
    pub r: u8,
    pub g: u8,
    pub b: u8,
}

/// The fallback border color: opaque white.
pub open spec fn spec_white() -> Color {
    Color { r: 255, g: 255, b: 255 }
}

/// True for the ASCII characters `0-9`, `a-f`, `A-F`.
pub open spec fn is_hex_digit(c: char) -> bool {
    ('0' <= c && c <= '9') || ('a' <= c && c <= 'f') || ('A' <= c && c <= 'F')
}

/// Numeric value of a hexadecimal digit character.
pub open spec fn hex_val(c: char) -> int {
    if '0' <= c && c <= '9' {
        c as int - '0' as int
    } else if 'a' <= c && c <= 'f' {
        c as int - 'a' as int + 10
    } else {
        c as int - 'A' as int + 10
    }
}

/// A color string is well formed when it is exactly six hexadecimal digits.
pub open spec fn spec_color_valid(s: Seq<char>) -> bool {
    s.len() == 6 && forall|i: int| 0 <= i < 6 ==> is_hex_digit(#[trigger] s[i])
}

/// The color denoted by a well-formed six-digit hexadecimal string.
pub open spec fn spec_color_of(s: Seq<char>) -> Color {
    Color {
        r: (hex_val(s[0]) * 16 + hex_val(s[1])) as u8,
        g: (hex_val(s[2]) * 16 + hex_val(s[3])) as u8,
        b: (hex_val(s[4]) * 16 + hex_val(s[5])) as u8,
    }
}

/// Numeric value of one hexadecimal digit character.
fn hex_digit_value(c: char) -> (v: u8)
    requires
        is_hex_digit(c),
    ensures
        v as int == hex_val(c),
        v < 16,
{
    if '0' <= c && c <= '9' {
        (c as u8) - ('0' as u8)
    } else if 'a' <= c && c <= 'f' {
        (c as u8) - ('a' as u8) + 10
    } else {
        (c as u8) - ('A' as u8) + 10
    }
}

fn is_hex_digit_exec(c: char) -> (b: bool)
    ensures
        b == is_hex_digit(c),
{
    ('0' <= c && c <= '9') || ('a' <= c && c <= 'f') || ('A' <= c && c <= 'F')
}

/// Parse a border color from a hexadecimal string such as `ffcc00`.
///
/// A malformed string is not an error: the result falls back to white,
/// and the second component reports whether the input was well formed.
pub fn parse_color(s: &str) -> (res: (Color, bool))
    ensures
        res.1 == spec_color_valid(s@),
        res.1 ==> res.0 == spec_color_of(s@),
        !res.1 ==> res.0 == spec_white(),
{
    let n = s.unicode_len();
    if n != 6 {
        return (Color { r: 255, g: 255, b: 255 }, false);
    }
    let mut i: usize = 0;
    while i < 6
        invariant
            0 <= i <= 6,
            s@.len() == 6,
            forall|j: int| 0 <= j < i ==> is_hex_digit(#[trigger] s@[j]),
        decreases 6 - i,
    {
        if !is_hex_digit_exec(s.get_char(i)) {
            return (Color { r: 255, g: 255, b: 255 }, false);
        }
        i += 1;
    }
    let r = hex_digit_value(s.get_char(0)) * 16 + hex_digit_value(s.get_char(1));
    let g = hex_digit_value(s.get_char(2)) * 16 + hex_digit_value(s.get_char(3));
    let b = hex_digit_value(s.get_char(4)) * 16 + hex_digit_value(s.get_char(5));
    (Color { r, g, b }, true)
}

} // verus!
