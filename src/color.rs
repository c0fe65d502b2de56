use vstd::prelude::*;
use vstd::string::*;

verus! {

/// A color as four 8-bit channels.
#[derive(Debug, Clone, Copy, PartialEq, Eq, Structural)]
pub struct Rgba {
    pub r: u8,
    pub g: u8,
    pub b: u8,
    pub a: u8,
}

/// The value of a hexadecimal digit, either case.
pub open spec fn hex_value(c: char) -> Option<u8> {
    if '0' <= c && c <= '9' {
        Some((c as u32 - '0' as u32) as u8)
    } else if 'a' <= c && c <= 'f' {
        Some((c as u32 - 'a' as u32 + 10) as u8)
    } else if 'A' <= c && c <= 'F' {
        Some((c as u32 - 'A' as u32 + 10) as u8)
    } else {
        None
    }
}

/// The byte written by the two hex digits at `i` and `i + 1`.
pub open spec fn hex_byte(s: Seq<char>, i: int) -> Option<u8> {
    match (hex_value(s[i]), hex_value(s[i + 1])) {
        (Some(h), Some(l)) => Some((h * 16 + l) as u8),
        _ => None,
    }
}

/// The color written as `rrggbb` or `rrggbbaa`; without an alpha pair the
/// color is opaque.
pub open spec fn rgba_of(s: Seq<char>) -> Option<Rgba> {
    if s.len() != 6 && s.len() != 8 {
        None
    } else {
        match (hex_byte(s, 0), hex_byte(s, 2), hex_byte(s, 4)) {
            (Some(r), Some(g), Some(b)) => {
                if s.len() == 6 {
                    Some(Rgba { r, g, b, a: 255 })
                } else {
                    match hex_byte(s, 6) {
                        Some(a) => Some(Rgba { r, g, b, a }),
                        None => None,
                    }
                }
            },
            _ => None,
        }
    }
}

fn digit_value(c: char) -> (r: Option<u8>)
    ensures
        r == hex_value(c),
        r matches Some(v) ==> v < 16,
{
    if '0' <= c && c <= '9' {
        Some((c as u32 - '0' as u32) as u8)
    } else if 'a' <= c && c <= 'f' {
        Some((c as u32 - 'a' as u32 + 10) as u8)
    } else if 'A' <= c && c <= 'F' {
        Some((c as u32 - 'A' as u32 + 10) as u8)
    } else {
        None
    }
}

fn byte_at(s: &str, i: usize) -> (r: Option<u8>)
    requires
        i <= 6,
        i + 1 < s@.len(),
    ensures
        r == hex_byte(s@, i as int),
{
    let hi = digit_value(s.get_char(i));
    let lo = digit_value(s.get_char(i + 1));
    match hi {
        Some(h) => match lo {
            Some(l) => Some(h * 16 + l),
            None => None,
        },
        None => None,
    }
}

/// Parses a color written as six or eight hexadecimal digits, `rrggbbaa`
/// with the alpha pair optional.
pub fn hex_rgba(color: &str) -> (r: Option<Rgba>)
    ensures
        r == rgba_of(color@),
{
    let n = color.unicode_len();
    if n != 6 && n != 8 {
        return None;
    }
    let r = byte_at(color, 0);
    let g = byte_at(color, 2);
    let b = byte_at(color, 4);
    match (r, g, b) {
        (Some(r), Some(g), Some(b)) => {
            if n == 6 {
                Some(Rgba { r, g, b, a: 255 })
            } else {
                match byte_at(color, 6) {
                    Some(a) => Some(Rgba { r, g, b, a }),
                    None => None,
                }
            }
        },
        _ => None,
    }
}

} // verus!
