//! Colours of a user theme, written as `#rrggbb`.

use vstd::prelude::*;
use vstd::string::StringSliceAdditionalSpecFns;

use crate::text::{hex_byte, hex_char, hex_digit_value, hex_pair_value, parse_hex_pair, push_hex_byte};

verus! {

/// An opaque RGB colour.
#[derive(Clone, Copy, Debug, PartialEq, Eq, Structural)]
pub struct Color {
    pub r: u8,
    pub g: u8,
    pub b: u8,
}

/// Why a text is not a colour.
#[derive(Clone, Copy, Debug, PartialEq, Eq, Structural)]
pub enum ColorError {
    /// The text does not start with `#`.
    MissingHash,
    /// The text after `#` is not six bytes long.
    WrongLength,
    /// A channel is not a hexadecimal number.
    InvalidDigit,
}

/// The message reported for an error.
pub open spec fn color_error_text(e: ColorError) -> Seq<char> {
    match e {
        ColorError::MissingHash => "expected '#' prefix"@,
        ColorError::WrongLength => "expected 6 hexadecimal characters"@,
        ColorError::InvalidDigit => "invalid digit found in string"@,
    }
}

impl ColorError {
    /// The message reported for the error.
    pub fn message(&self) -> (r: &'static str)
        ensures
            r@ == color_error_text(*self),
    {
        match self {
            ColorError::MissingHash => "expected '#' prefix",
            ColorError::WrongLength => "expected 6 hexadecimal characters",
            ColorError::InvalidDigit => "invalid digit found in string",
        }
    }
}

/// The text of a colour: `#` and two lowercase hexadecimal digits for each
/// of red, green and blue.
pub open spec fn hex_text(c: Color) -> Seq<char> {
    seq!['#'] + hex_byte(c.r) + hex_byte(c.g) + hex_byte(c.b)
}

/// The colour that the bytes of a text name: `#` and then exactly six bytes,
/// read two by two as base-16 numbers (see [`hex_pair_value`]).
pub open spec fn parse_hex_color(b: Seq<u8>) -> Result<Color, ColorError> {
    if b.len() == 0 || b[0] != 0x23 {
        Err(ColorError::MissingHash)
    } else if b.len() != 7 {
        Err(ColorError::WrongLength)
    } else {
        match (hex_pair_value(b[1], b[2]), hex_pair_value(b[3], b[4]), hex_pair_value(b[5], b[6])) {
            (Some(r), Some(g), Some(bl)) => Ok(Color { r, g, b: bl }),
            _ => Err(ColorError::InvalidDigit),
        }
    }
}

/// Whether the text cannot be cut into its three channels because a cut
/// falls inside a character: the red channel ends inside one, or it reads
/// and the green channel ends inside one.
pub open spec fn splits_a_character(b: Seq<u8>) -> bool {
    &&& b.len() == 7
    &&& b[0] == 0x23
    &&& (vstd::utf8::is_continuation_byte(b[3])
        || (hex_pair_value(b[1], b[2]) is Some && vstd::utf8::is_continuation_byte(b[5])))
}

impl Color {
    /// Writes the colour as `#rrggbb`, in lowercase.
    pub fn to_hex(&self) -> (s: String)
        ensures
            s@ == hex_text(*self),
    {
        proof {
            reveal_strlit("#");
        }
        let mut s = "#".to_owned();
        push_hex_byte(&mut s, self.r);
        push_hex_byte(&mut s, self.g);
        push_hex_byte(&mut s, self.b);
        assert(s@ =~= hex_text(*self));
        s
    }

    /// Whether a cut between the channels of `text` would fall inside a
    /// character (see [`splits_a_character`]); such a text cannot be read.
    pub fn would_split_character(text: &str) -> (r: bool)
        ensures
            r == splits_a_character(text.spec_bytes()),
    {
        let b = text.as_bytes();
        if b.len() != 7 || b[0] != 0x23 {
            return false;
        }
        let cont3 = 0x80 <= b[3] && b[3] <= 0xbf;
        let cont5 = 0x80 <= b[5] && b[5] <= 0xbf;
        cont3 || (parse_hex_pair(b[1], b[2]).is_some() && cont5)
    }

    /// Reads a colour written as `#rrggbb` (either case).
    pub fn from_hex(text: &str) -> (r: Result<Color, ColorError>)
        requires
            !splits_a_character(text.spec_bytes()),
        ensures
            r == parse_hex_color(text.spec_bytes()),
    {
        let b = text.as_bytes();
        if b.len() == 0 || b[0] != 0x23 {
            return Err(ColorError::MissingHash);
        }
        if b.len() != 7 {
            return Err(ColorError::WrongLength);
        }
        let r = parse_hex_pair(b[1], b[2]);
        let g = parse_hex_pair(b[3], b[4]);
        let bl = parse_hex_pair(b[5], b[6]);
        match (r, g, bl) {
            (Some(r), Some(g), Some(bl)) => Ok(Color { r, g, b: bl }),
            _ => Err(ColorError::InvalidDigit),
        }
    }
}

/// The byte of each hexadecimal digit character reads back as the digit.
proof fn hex_char_reads_back(d: nat)
    requires
        d < 16,
    ensures
        '\0' <= hex_char(d) <= '\u{7f}',
        hex_digit_value(hex_char(d) as u8) == Some(d as u8),
{
}

/// Two hexadecimal digits written for a byte read back as the byte.
proof fn hex_byte_reads_back(b: u8)
    ensures
        hex_pair_value(hex_byte(b)[0] as u8, hex_byte(b)[1] as u8) == Some(b),
        '\0' <= hex_byte(b)[0] <= '\u{7f}',
        '\0' <= hex_byte(b)[1] <= '\u{7f}',
{
    hex_char_reads_back(b as nat / 16);
    hex_char_reads_back(b as nat % 16);
}

/// A colour written by [`Color::to_hex`] reads back, through
/// [`Color::from_hex`], as the same colour.
pub proof fn hex_round_trip(c: Color)
    ensures
        !splits_a_character(vstd::utf8::encode_utf8(hex_text(c))),
        parse_hex_color(vstd::utf8::encode_utf8(hex_text(c))) == Ok::<Color, ColorError>(c),
{
    let t = hex_text(c);
    hex_byte_reads_back(c.r);
    hex_byte_reads_back(c.g);
    hex_byte_reads_back(c.b);
    assert(t.len() == 7);
    assert(t[1] == hex_byte(c.r)[0] && t[2] == hex_byte(c.r)[1]);
    assert(t[3] == hex_byte(c.g)[0] && t[4] == hex_byte(c.g)[1]);
    assert(t[5] == hex_byte(c.b)[0] && t[6] == hex_byte(c.b)[1]);
    assert(vstd::utf8::is_ascii_chars(t));
    vstd::utf8::is_ascii_chars_encode_utf8(t);
    let e = vstd::utf8::encode_utf8(t);
    assert(e[0] == t[0] as u8);
    assert(e[1] == t[1] as u8);
    assert(e[2] == t[2] as u8);
    assert(e[3] == t[3] as u8);
    assert(e[4] == t[4] as u8);
    assert(e[5] == t[5] as u8);
    assert(e[6] == t[6] as u8);
}

} // verus!
