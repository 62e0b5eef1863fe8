use vstd::prelude::*;

verus! {

/// A color as the four channels that the interface stores (red, green, blue
/// and alpha, the color channels premultiplied by alpha).
#[derive(Clone, Copy, Debug, PartialEq, Eq, Structural)]
pub struct Rgba {
    pub r: u8,
    pub g: u8,
    pub b: u8,
    pub a: u8,
}

/// An opaque color.
pub open spec fn opaque(r: u8, g: u8, b: u8) -> Rgba {
    Rgba { r, g, b, a: 255 }
}

/// The color egui's `Color32::from_hex` parses from a string, `None` when
/// it rejects it (the 3, 4, 6 and 8 digit CSS forms are accepted).
pub uninterp spec fn hex_color(s: Seq<char>) -> Option<Rgba>;

/// The value of a hexadecimal digit of either case.
pub open spec fn hex_value(c: char) -> Option<u8> {
    if '0' <= c && c <= '9' {
        Some((c as u32 - '0' as u32) as u8)
    } else if 'a' <= c && c <= 'f' {
        Some((c as u32 - 'a' as u32 + 10) as u8)
    } else if 'A' <= c && c <= 'F' {
        Some((c as u32 - 'A' as u32 + 10) as u8)
    } else {
        None
    }
}

/// The byte written by two hexadecimal digits, high digit first.
pub open spec fn hex_byte(hi: char, lo: char) -> Option<u8> {
    match (hex_value(hi), hex_value(lo)) {
        (Some(h), Some(l)) => Some((h * 16 + l) as u8),
        _ => None,
    }
}

/// The opaque color of a `#RRGGBB` string, `None` for any other string.
pub open spec fn rrggbb(s: Seq<char>) -> Option<Rgba> {
    if s.len() == 7 && s[0] == '#' {
        match (hex_byte(s[1], s[2]), hex_byte(s[3], s[4]), hex_byte(s[5], s[6])) {
            (Some(r), Some(g), Some(b)) => Some(opaque(r, g, b)),
            _ => None,
        }
    } else {
        None
    }
}

/// The color of a `#RRGGBBAA` string whose alpha byte is `FF` (the opaque
/// color of the three bytes) or `00` (the transparent color, all channels
/// zero); `None` for any other string.
pub open spec fn rrggbbaa(s: Seq<char>) -> Option<Rgba> {
    if s.len() == 9 && s[0] == '#' {
        match (hex_byte(s[1], s[2]), hex_byte(s[3], s[4]), hex_byte(s[5], s[6]), hex_byte(s[7], s[8])) {
            (Some(r), Some(g), Some(b), Some(a)) => if a == 255 {
                Some(opaque(r, g, b))
            } else if a == 0 {
                Some(Rgba { r: 0, g: 0, b: 0, a: 0 })
            } else {
                None
            },
            _ => None,
        }
    } else {
        None
    }
}

/// Hex digits of either case read as their values, and `#RRGGBB` reads its
/// three channels in order, red first, as two digits each (high digit
/// first), giving an opaque color.
pub proof fn law_hex_digits(r1: char, r2: char, g1: char, g2: char, b1: char, b2: char)
    requires
        hex_value(r1) is Some && hex_value(r2) is Some,
        hex_value(g1) is Some && hex_value(g2) is Some,
        hex_value(b1) is Some && hex_value(b2) is Some,
    ensures
        hex_value('0') == Some(0u8),
        hex_value('9') == Some(9u8),
        hex_value('a') == Some(10u8),
        hex_value('A') == Some(10u8),
        hex_value('f') == Some(15u8),
        hex_value('F') == Some(15u8),
        hex_value('g') is None,
        hex_value('#') is None,
        rrggbb(seq!['#', r1, r2, g1, g2, b1, b2]) == Some(opaque(
            (hex_value(r1).unwrap() * 16 + hex_value(r2).unwrap()) as u8,
            (hex_value(g1).unwrap() * 16 + hex_value(g2).unwrap()) as u8,
            (hex_value(b1).unwrap() * 16 + hex_value(b2).unwrap()) as u8,
        )),
{
}

/// egui's `Color32::from_hex`. Its source shows that it accepts only
/// strings that start with `#` and have 3, 4, 6 or 8 more characters, and
/// that `#RRGGBB` gives the opaque color of those three bytes, and
/// `#RRGGBBAA` the same opaque color when the alpha byte is `FF` and the
/// transparent color when it is `00` (`from_rgba_unmultiplied`). The value
/// of the other forms (a shorthand digit repeated, a partial alpha
/// premultiplied with rounding) is left to the name `hex_color`.
#[verifier::external_body]
fn parse_hex_color(s: &str) -> (r: Option<Rgba>)
    ensures
        r == hex_color(s@),
        r is Some ==> s@.len() > 0 && s@[0] == '#' && (s@.len() == 4 || s@.len() == 5
            || s@.len() == 7 || s@.len() == 9),
        rrggbb(s@) matches Some(c) ==> r == Some(c),
        rrggbbaa(s@) matches Some(c) ==> r == Some(c),
{
    match egui::Color32::from_hex(s) {
        Ok(c) => Some(Rgba { r: c.r(), g: c.g(), b: c.b(), a: c.a() }),
        Err(_) => None,
    }
}

/// egui's `Color32::DEBUG_COLOR`, shown for a theme color that does not parse.
pub open spec fn debug_color() -> Rgba {
    Rgba { r: 0, g: 200, b: 0, a: 128 }
}

/// The color a theme string stands for: its hex color, or the debug color
/// when it is not one.
pub open spec fn to_color_spec(s: Seq<char>) -> Rgba {
    match hex_color(s) {
        Some(c) => c,
        None => debug_color(),
    }
}

/// Reads a theme color string.
pub fn to_color(s: &str) -> (c: Rgba)
    ensures
        c == to_color_spec(s@),
        rrggbb(s@) matches Some(x) ==> c == x,
        rrggbbaa(s@) matches Some(x) ==> c == x,
{
    match parse_hex_color(s) {
        Some(c) => c,
        None => Rgba { r: 0, g: 200, b: 0, a: 128 },
    }
}

} // verus!
