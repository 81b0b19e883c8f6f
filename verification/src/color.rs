//! The sixteen display colors and the attribute byte that packs a pair of them.

use vstd::prelude::*;

verus! {

/// One of the sixteen colors of the text-mode palette.
///
/// The hardware knows a color by its code, `0` (black) to `15` (white); the
/// variants are listed in code order and [`Color::code`] gives the code.
#[derive(Debug, Clone, Copy, PartialEq, Eq, Structural)]
pub enum Color {
    Black,
    Blue,
    Green,
    Cyan,
    Red,
    Magenta,
    Brown,
    LightGray,
    DarkGray,
    LightBlue,
    LightGreen,
    LightCyan,
    LightRed,
    Pink,
    Yellow,
    White,
}

impl Color {
    /// The code of the color in the hardware palette.
    pub open spec fn spec_code(self) -> u8 {
        match self {
            Color::Black => 0,
            Color::Blue => 1,
            Color::Green => 2,
            Color::Cyan => 3,
            Color::Red => 4,
            Color::Magenta => 5,
            Color::Brown => 6,
            Color::LightGray => 7,
            Color::DarkGray => 8,
            Color::LightBlue => 9,
            Color::LightGreen => 10,
            Color::LightCyan => 11,
            Color::LightRed => 12,
            Color::Pink => 13,
            Color::Yellow => 14,
            Color::White => 15,
        }
    }

    /// The color that a palette code stands for; codes above `15` stand for none.
    pub open spec fn spec_from_code(code: u8) -> Option<Color> {
        match code {
            0 => Some(Color::Black),
            1 => Some(Color::Blue),
            2 => Some(Color::Green),
            3 => Some(Color::Cyan),
            4 => Some(Color::Red),
            5 => Some(Color::Magenta),
            6 => Some(Color::Brown),
            7 => Some(Color::LightGray),
            8 => Some(Color::DarkGray),
            9 => Some(Color::LightBlue),
            10 => Some(Color::LightGreen),
            11 => Some(Color::LightCyan),
            12 => Some(Color::LightRed),
            13 => Some(Color::Pink),
            14 => Some(Color::Yellow),
            15 => Some(Color::White),
            _ => None,
        }
    }

    /// The code of the color in the hardware palette, `0` to `15`.
    #[verifier::when_used_as_spec(spec_code)]
    pub fn code(self) -> (code: u8)
        ensures
            code == self.spec_code(),
            code <= 15,
    {
        match self {
            Color::Black => 0,
            Color::Blue => 1,
            Color::Green => 2,
            Color::Cyan => 3,
            Color::Red => 4,
            Color::Magenta => 5,
            Color::Brown => 6,
            Color::LightGray => 7,
            Color::DarkGray => 8,
            Color::LightBlue => 9,
            Color::LightGreen => 10,
            Color::LightCyan => 11,
            Color::LightRed => 12,
            Color::Pink => 13,
            Color::Yellow => 14,
            Color::White => 15,
        }
    }

    /// The color with the given palette code, if the code is one of the sixteen.
    #[verifier::when_used_as_spec(spec_from_code)]
    pub fn from_code(code: u8) -> (color: Option<Color>)
        ensures
            color == Color::spec_from_code(code),
            color is Some <==> code <= 15,
            color matches Some(c) ==> c.spec_code() == code,
    {
        match code {
            0 => Some(Color::Black),
            1 => Some(Color::Blue),
            2 => Some(Color::Green),
            3 => Some(Color::Cyan),
            4 => Some(Color::Red),
            5 => Some(Color::Magenta),
            6 => Some(Color::Brown),
            7 => Some(Color::LightGray),
            8 => Some(Color::DarkGray),
            9 => Some(Color::LightBlue),
            10 => Some(Color::LightGreen),
            11 => Some(Color::LightCyan),
            12 => Some(Color::LightRed),
            13 => Some(Color::Pink),
            14 => Some(Color::Yellow),
            15 => Some(Color::White),
            _ => None,
        }
    }

    /// A code names exactly the color it was taken from, so two colors with
    /// one code are one color.
    pub proof fn lemma_code_round_trip(self)
        ensures
            self.spec_code() <= 15,
            Color::spec_from_code(self.spec_code()) == Some(self),
    {
    }
}

/// A display attribute: one byte, the background code in its high nibble and
/// the foreground code in its low nibble.
///
/// Every byte is an attribute, since each nibble is a palette code.
#[derive(Debug, Clone, Copy, PartialEq, Eq, Structural)]
pub struct ColorCode(pub u8);

impl ColorCode {
    /// The attribute of a color pair: `(background << 4) | foreground`.
    pub open spec fn spec_new(foreground: Color, background: Color) -> ColorCode {
        ColorCode((background.spec_code() << 4) | foreground.spec_code())
    }

    /// The foreground color, read from the low nibble.
    pub open spec fn spec_foreground(self) -> Color {
        Color::spec_from_code(self.0 & 0x0f).unwrap()
    }

    /// The background color, read from the high nibble.
    pub open spec fn spec_background(self) -> Color {
        Color::spec_from_code(self.0 >> 4).unwrap()
    }

    /// Packs a foreground and a background color into one attribute.
    #[verifier::when_used_as_spec(spec_new)]
    pub fn new(foreground: Color, background: Color) -> (attribute: ColorCode)
        ensures
            attribute == ColorCode::spec_new(foreground, background),
            attribute.0 == (background.spec_code() << 4) | foreground.spec_code(),
            attribute.0 == 16 * background.spec_code() + foreground.spec_code(),
    {
        let fg: u8 = foreground.code();
        let bg: u8 = background.code();
        assert((bg << 4) | fg == 16 * bg + fg) by (bit_vector)
            requires
                fg <= 15,
                bg <= 15,
        ;
        ColorCode((bg << 4) | fg)
    }

    /// The foreground color of the attribute.
    #[verifier::when_used_as_spec(spec_foreground)]
    pub fn foreground(self) -> (color: Color)
        ensures
            color == self.spec_foreground(),
            color.spec_code() == self.0 & 0x0f,
    {
        let byte: u8 = self.0;
        assert(byte & 0x0f <= 15) by (bit_vector);
        match Color::from_code(byte & 0x0f) {
            Some(color) => color,
            None => Color::Black,
        }
    }

    /// The background color of the attribute.
    #[verifier::when_used_as_spec(spec_background)]
    pub fn background(self) -> (color: Color)
        ensures
            color == self.spec_background(),
            color.spec_code() == self.0 >> 4,
    {
        let byte: u8 = self.0;
        assert(byte >> 4 <= 15) by (bit_vector);
        match Color::from_code(byte >> 4) {
            Some(color) => color,
            None => Color::Black,
        }
    }

    /// Packing a color pair and reading the two nibbles back gives the pair
    /// again, and the packed byte is `(background << 4) | foreground`.
    pub proof fn lemma_pack_round_trip(foreground: Color, background: Color)
        ensures
            ColorCode::spec_new(foreground, background).0 == (background.spec_code() << 4)
                | foreground.spec_code(),
            ColorCode::spec_new(foreground, background).0 == 16 * background.spec_code()
                + foreground.spec_code(),
            ColorCode::spec_new(foreground, background).spec_foreground() == foreground,
            ColorCode::spec_new(foreground, background).spec_background() == background,
    {
        let fg = foreground.spec_code();
        let bg = background.spec_code();
        assert(((bg << 4) | fg) & 0x0f == fg && ((bg << 4) | fg) >> 4 == bg && (bg << 4) | fg == 16
            * bg + fg) by (bit_vector)
            requires
                fg <= 15,
                bg <= 15,
        ;
    }

    /// Reading the two nibbles of any attribute and packing them gives the
    /// attribute again.
    pub proof fn lemma_unpack_round_trip(self)
        ensures
            ColorCode::spec_new(self.spec_foreground(), self.spec_background()) == self,
    {
        let byte = self.0;
        let low = byte & 0x0f;
        let high = byte >> 4;
        assert(low <= 15 && high <= 15 && (high << 4) | low == byte) by (bit_vector)
            requires
                low == byte & 0x0f,
                high == byte >> 4,
        ;
    }
}

} // verus!
