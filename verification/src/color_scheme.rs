//! Colors of the settings' color schemes and their `#RRGGBB` text form.

use vstd::prelude::*;
use crate::text::{chars_of, push_char};
use crate::theme::{all_ascii, ascii_lower, hex_digit, hex_value, lemma_same_up_to_case, spec_hex_byte};

verus! {

/// RGBA color of a color scheme.
#[derive(Debug, Clone, Copy, PartialEq, Eq, Structural)]
pub struct Color {
    pub r: u8,
    pub g: u8,
    pub b: u8,
    pub a: u8,
}

impl Color {
    /// An opaque color.
    pub fn rgb(r: u8, g: u8, b: u8) -> (c: Self)
        ensures
            c == (Color { r, g, b, a: 255 }),
    {
        Color { r, g, b, a: 255 }
    }
}

/// Failures while reading a color scheme.
#[derive(Debug, Clone, Copy, PartialEq, Eq, Structural)]
pub enum ColorSchemeParseError {
    InvalidJson,
    ExpectedObject,
    MissingMember,
    InvalidString,
    InvalidColor,
}

/// A scheme color: `#` and six hexadecimal digits, two for each of red,
/// green and blue; the color is opaque.
pub open spec fn spec_parse_color(v: Seq<char>) -> Result<Color, ColorSchemeParseError> {
    if v.len() != 7 || v[0] != '#' || !all_ascii(v.subrange(1, 7)) {
        Err(ColorSchemeParseError::InvalidColor)
    } else {
        match (spec_hex_byte(v[1], v[2]), spec_hex_byte(v[3], v[4]), spec_hex_byte(v[5], v[6])) {
            (Some(r), Some(g), Some(b)) => Ok(Color { r, g, b, a: 255 }),
            _ => Err(ColorSchemeParseError::InvalidColor),
        }
    }
}

fn hex_byte(hi: char, lo: char) -> (r: Option<u8>)
    ensures
        r == spec_hex_byte(hi, lo),
{
    match (hex_digit(hi), hex_digit(lo)) {
        (Some(h), Some(l)) => Some(h * 16 + l),
        _ => None,
    }
}

/// Reads a scheme color written `#RRGGBB`.
pub fn parse_color(value: &str) -> (r: Result<Color, ColorSchemeParseError>)
    ensures
        r == spec_parse_color(value@),
{
    let v = chars_of(value);
    if v.len() != 7 || v[0] != '#' {
        return Err(ColorSchemeParseError::InvalidColor);
    }
    let mut i: usize = 1;
    while i < 7
        invariant
            1 <= i <= 7,
            v@.len() == 7,
            v@ == value@,
            v@[0] == '#',
            forall|j: int| 1 <= j < i ==> (#[trigger] v@[j] as u32) < 0x80,
        decreases 7 - i,
    {
        if v[i] as u32 >= 0x80 {
            assert(v@.subrange(1, 7)[i - 1] == v@[i as int]);
            return Err(ColorSchemeParseError::InvalidColor);
        }
        i = i + 1;
    }
    assert(all_ascii(v@.subrange(1, 7))) by {
        assert forall|j: int| 0 <= j < 6 implies (#[trigger] v@.subrange(1, 7)[j] as u32) < 0x80 by {
            assert(v@.subrange(1, 7)[j] == v@[j + 1]);
        }
    }
    match (hex_byte(v[1], v[2]), hex_byte(v[3], v[4]), hex_byte(v[5], v[6])) {
        (Some(r), Some(g), Some(b)) => Ok(Color::rgb(r, g, b)),
        _ => Err(ColorSchemeParseError::InvalidColor),
    }
}

/// The upper-case hexadecimal digit of `n`, below 16.
pub open spec fn upper_hex_digit(n: int) -> char {
    if n < 10 {
        (n + 48) as char
    } else {
        (n + 55) as char
    }
}

/// `#RRGGBB` with upper-case digits; alpha is not written.
pub open spec fn spec_format_color(color: Color) -> Seq<char> {
    seq![
        '#',
        upper_hex_digit(color.r as int / 16),
        upper_hex_digit(color.r as int % 16),
        upper_hex_digit(color.g as int / 16),
        upper_hex_digit(color.g as int % 16),
        upper_hex_digit(color.b as int / 16),
        upper_hex_digit(color.b as int % 16),
    ]
}

fn upper_digit(n: u8) -> (r: char)
    requires
        n < 16,
    ensures
        r == upper_hex_digit(n as int),
{
    if n < 10 {
        (n + 48) as char
    } else {
        (n + 55) as char
    }
}

fn push_byte(s: &mut String, byte: u8)
    ensures
        final(s)@ == old(s)@.push(upper_hex_digit(byte as int / 16)).push(upper_hex_digit(byte as int % 16)),
{
    push_char(s, upper_digit(byte / 16));
    push_char(s, upper_digit(byte % 16));
}

/// Writes a color as `#RRGGBB` (`format!("#{:02X}{:02X}{:02X}", ..)`).
pub fn format_color(color: Color) -> (r: String)
    ensures
        r@ == spec_format_color(color),
{
    let mut s = String::new();
    push_char(&mut s, '#');
    push_byte(&mut s, color.r);
    push_byte(&mut s, color.g);
    push_byte(&mut s, color.b);
    assert(s@ =~= spec_format_color(color));
    s
}

proof fn lemma_digit_reads_back(n: int)
    requires
        0 <= n < 16,
    ensures
        hex_value(upper_hex_digit(n)) == Some(n as u8),
{
}

/// Writing a color and reading it back gives the opaque color with the same
/// red, green and blue.
pub proof fn law_format_then_parse(color: Color)
    ensures
        spec_parse_color(spec_format_color(color)) == Ok::<Color, ColorSchemeParseError>(
            Color { r: color.r, g: color.g, b: color.b, a: 255 },
        ),
{
    let v = spec_format_color(color);
    lemma_digit_reads_back(color.r as int / 16);
    lemma_digit_reads_back(color.r as int % 16);
    lemma_digit_reads_back(color.g as int / 16);
    lemma_digit_reads_back(color.g as int % 16);
    lemma_digit_reads_back(color.b as int / 16);
    lemma_digit_reads_back(color.b as int % 16);
    assert(all_ascii(v.subrange(1, 7))) by {
        assert forall|j: int| 0 <= j < 6 implies (#[trigger] v.subrange(1, 7)[j] as u32) < 0x80 by {
            assert(v.subrange(1, 7)[j] == v[j + 1]);
        }
    }
}

/// Scheme colors are read without regard to the ASCII case of their
/// digits: with the upper-case form that `format_color` writes, a color
/// written in lower case reads back as the same color.
pub proof fn law_parse_color_ignores_case(v: Seq<char>, w: Seq<char>)
    requires
        v.len() == w.len(),
        forall|i: int| 0 <= i < v.len() ==> #[trigger] ascii_lower(v[i]) == ascii_lower(w[i]),
    ensures
        spec_parse_color(v) == spec_parse_color(w),
{
    assert forall|i: int| 0 <= i < v.len() implies hex_value(v[i]) == hex_value(w[i]) && (v[i]
        == '#') == (w[i] == '#') && ((v[i] as u32) < 0x80) == ((w[i] as u32) < 0x80) by {
        assert(ascii_lower(v[i]) == ascii_lower(w[i]));
        lemma_same_up_to_case(v[i], w[i]);
    }
    if v.len() == 7 {
        let sv = v.subrange(1, 7);
        let sw = w.subrange(1, 7);
        assert forall|j: int| 0 <= j < 6 implies ((sv[j] as u32) < 0x80) == ((sw[j] as u32) < 0x80) by {
            assert(sv[j] == v[j + 1] && sw[j] == w[j + 1]);
        }
        assert(all_ascii(sv) == all_ascii(sw));
    }
}

} // verus!
