//! The fixed face palette.

use vstd::prelude::*;
use vstd::string::StringExecFns;

verus! {

/// An opaque colour, one byte per channel.
#[derive(Debug, PartialEq, Eq, Copy, Clone, Structural)]
pub struct HexColor {
    pub r: u8,
    pub g: u8,
    pub b: u8,
}

/// The number of colours in the palette; indices below it are known.
pub const PALETTE_LEN: u32 = 7;

/// The colour that stands for every index outside the palette.
pub open spec fn unknown_color() -> HexColor {
    HexColor { r: 0, g: 0, b: 0 }
}

/// The palette as a function of the index.
pub open spec fn face_color(index: u32) -> HexColor {
    if index == 0 {
        HexColor { r: 250, g: 189, b: 0 }
    } else if index == 1 {
        HexColor { r: 254, g: 134, b: 37 }
    } else if index == 2 {
        HexColor { r: 254, g: 88, b: 68 }
    } else if index == 3 {
        HexColor { r: 254, g: 131, b: 238 }
    } else if index == 4 {
        HexColor { r: 76, g: 177, b: 254 }
    } else if index == 5 {
        HexColor { r: 120, g: 235, b: 198 }
    } else if index == 6 {
        HexColor { r: 141, g: 228, b: 28 }
    } else {
        unknown_color()
    }
}

/// The lower-case hexadecimal digit for a value below sixteen.
pub open spec fn hex_digit(value: u8) -> char {
    if value == 0 {
        '0'
    } else if value == 1 {
        '1'
    } else if value == 2 {
        '2'
    } else if value == 3 {
        '3'
    } else if value == 4 {
        '4'
    } else if value == 5 {
        '5'
    } else if value == 6 {
        '6'
    } else if value == 7 {
        '7'
    } else if value == 8 {
        '8'
    } else if value == 9 {
        '9'
    } else if value == 10 {
        'a'
    } else if value == 11 {
        'b'
    } else if value == 12 {
        'c'
    } else if value == 13 {
        'd'
    } else if value == 14 {
        'e'
    } else {
        'f'
    }
}

/// The two hexadecimal digits of a channel, the high one first.
pub open spec fn hex_pair(channel: u8) -> Seq<char> {
    seq![hex_digit(channel / 16), hex_digit(channel % 16)]
}

/// A colour in the notation of style sheets: a hash sign and two
/// hexadecimal digits for each of red, green and blue.
pub open spec fn hex_text(color: HexColor) -> Seq<char> {
    seq!['#'] + hex_pair(color.r) + hex_pair(color.g) + hex_pair(color.b)
}

fn hex_digit_str(value: u8) -> (digit: &'static str)
    requires
        value < 16,
    ensures
        digit@ == seq![hex_digit(value)],
{
    proof {
        reveal_strlit("0");
        reveal_strlit("1");
        reveal_strlit("2");
        reveal_strlit("3");
        reveal_strlit("4");
        reveal_strlit("5");
        reveal_strlit("6");
        reveal_strlit("7");
        reveal_strlit("8");
        reveal_strlit("9");
        reveal_strlit("a");
        reveal_strlit("b");
        reveal_strlit("c");
        reveal_strlit("d");
        reveal_strlit("e");
        reveal_strlit("f");
    }
    let digit = match value {
        0 => "0",
        1 => "1",
        2 => "2",
        3 => "3",
        4 => "4",
        5 => "5",
        6 => "6",
        7 => "7",
        8 => "8",
        9 => "9",
        10 => "a",
        11 => "b",
        12 => "c",
        13 => "d",
        14 => "e",
        _ => "f",
    };
    assert(digit@ =~= seq![hex_digit(value)]);
    digit
}

fn push_hex_pair(text: &mut String, channel: u8)
    ensures
        final(text)@ == old(text)@ + hex_pair(channel),
{
    text.append(hex_digit_str(channel / 16));
    text.append(hex_digit_str(channel % 16));
    assert(final(text)@ =~= old(text)@ + hex_pair(channel));
}

impl HexColor {
    pub fn new(r: u8, g: u8, b: u8) -> (color: Self)
        ensures
            color == (HexColor { r, g, b }),
    {
        Self { r, g, b }
    }

    /// Writes the colour as a style sheet takes it, as in `#fabd00`.
    pub fn to_hex_string(&self) -> (text: String)
        ensures
            text@ == hex_text(*self),
    {
        let mut text = "#".to_owned();
        proof {
            reveal_strlit("#");
            assert(text@ =~= seq!['#']);
        }
        push_hex_pair(&mut text, self.r);
        push_hex_pair(&mut text, self.g);
        push_hex_pair(&mut text, self.b);
        text
    }
}

/// Whether the palette holds a colour for this index.
pub fn is_known_color_index(color: u32) -> (known: bool)
    ensures
        known == (color < PALETTE_LEN),
{
    color < PALETTE_LEN
}

/// Looks an index up in the palette. Indices past the palette are legal and
/// give black.
pub fn get_face_color(color: u32) -> (res: HexColor)
    ensures
        res == face_color(color),
        color >= PALETTE_LEN ==> res == unknown_color(),
{
    match color {
        0 => HexColor::new(250, 189, 0),
        1 => HexColor::new(254, 134, 37),
        2 => HexColor::new(254, 88, 68),
        3 => HexColor::new(254, 131, 238),
        4 => HexColor::new(76, 177, 254),
        5 => HexColor::new(120, 235, 198),
        6 => HexColor::new(141, 228, 28),
        _ => HexColor::new(0, 0, 0),
    }
}

} // verus!
