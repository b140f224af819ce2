use vstd::prelude::*;
use crate::decimal::chars_of;
use crate::error::RequestError;

verus! {

/// An RGBA colour, eight bits to the channel.
#[derive(Clone, Copy, Debug, PartialEq, Eq, Structural)]
pub struct Color {
    pub r: u8,
    pub g: u8,
    pub b: u8,
    pub a: u8,
}

/// The opaque colour with the given red, green and blue.
pub open spec fn opaque(r: u8, g: u8, b: u8) -> Color {
    Color { r, g, b, a: 255 }
}

/// The background of an image whose request names none: light gray.
pub open spec fn default_background() -> Color {
    opaque(240, 240, 240)
}

/// The foreground of an image whose request names none: black.
pub open spec fn default_foreground() -> Color {
    opaque(0, 0, 0)
}

/// Whether `c` is a hexadecimal digit; letters count in capitals and in small.
pub open spec fn is_hex_digit(c: char) -> bool {
    ('0' <= c <= '9') || ('a' <= c <= 'f') || ('A' <= c <= 'F')
}

/// The number a hexadecimal digit stands for; 0 for any other character.
pub open spec fn hex_value(c: char) -> nat {
    if '0' <= c <= '9' {
        (c as int - '0' as int) as nat
    } else if 'a' <= c <= 'f' {
        (c as int - 'a' as int + 10) as nat
    } else if 'A' <= c <= 'F' {
        (c as int - 'A' as int + 10) as nat
    } else {
        0
    }
}

/// The channel that two hexadecimal digits spell, high digit first.
pub open spec fn channel_of(high: char, low: char) -> u8 {
    (16 * hex_value(high) + hex_value(low)) as u8
}

/// The colour that `s` spells: exactly six hexadecimal digits, two each for red,
/// green and blue, always opaque. Anything else spells no colour.
pub open spec fn color_of(s: Seq<char>) -> Result<Color, RequestError> {
    if s.len() == 6 && (forall|i: int| 0 <= i < 6 ==> is_hex_digit(#[trigger] s[i])) {
        Ok(opaque(channel_of(s[0], s[1]), channel_of(s[2], s[3]), channel_of(s[4], s[5])))
    } else {
        Err(RequestError::InvalidColor)
    }
}

impl Color {
    /// Light gray, the background where a request names none.
    pub fn light_gray() -> (c: Color)
        ensures
            c == default_background(),
    {
        Color { r: 240, g: 240, b: 240, a: 255 }
    }

    /// Black, the foreground where a request names none.
    pub fn black() -> (c: Color)
        ensures
            c == default_foreground(),
    {
        Color { r: 0, g: 0, b: 0, a: 255 }
    }
}

/// The value of the hexadecimal digit `c`, or `None` where `c` is none.
pub fn hex_digit_of(c: char) -> (d: Option<u8>)
    ensures
        d is Some <==> is_hex_digit(c),
        d matches Some(v) ==> v == hex_value(c) && v < 16,
{
    if '0' <= c && c <= '9' {
        Some((c as u32 - '0' as u32) as u8)
    } else if 'a' <= c && c <= 'f' {
        Some((c as u32 - 'a' as u32 + 10) as u8)
    } else if 'A' <= c && c <= 'F' {
        Some((c as u32 - 'A' as u32 + 10) as u8)
    } else {
        None
    }
}

/// Reads the channel spelled by the two characters at `at` and `at + 1`.
fn parse_channel(chars: &Vec<char>, at: usize) -> (v: Option<u8>)
    requires
        at + 1 < chars.len(),
    ensures
        v is Some <==> is_hex_digit(chars[at as int]) && is_hex_digit(chars[at + 1]),
        v matches Some(c) ==> c == channel_of(chars[at as int], chars[at + 1]),
{
    match (hex_digit_of(chars[at]), hex_digit_of(chars[at + 1])) {
        (Some(high), Some(low)) => Some(high * 16 + low),
        _ => None,
    }
}

/// Reads a colour written as six hexadecimal digits, `RRGGBB`.
pub fn parse_color(color: &str) -> (r: Result<Color, RequestError>)
    ensures
        r == color_of(color@),
{
    let chars = chars_of(color);
    if chars.len() != 6 {
        return Err(RequestError::InvalidColor);
    }
    match (parse_channel(&chars, 0), parse_channel(&chars, 2), parse_channel(&chars, 4)) {
        (Some(r), Some(g), Some(b)) => Ok(Color { r, g, b, a: 255 }),
        _ => Err(RequestError::InvalidColor),
    }
}

} // verus!
