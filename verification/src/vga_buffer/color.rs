//! The sixteen palette entries and the attribute byte that packs two of them.

use vstd::prelude::*;

verus! {

/// One of the sixteen entries of the text-mode palette.
#[derive(Debug, Clone, Copy, PartialEq, Eq, Structural)]
pub enum Color {
    Black,
    Blue,
    Green,
    Cyan,
    Red,
    Magenta,
    Brown,
    LightGray,
    DarkGray,
    LightBlue,
    LightGreen,
    LightCyan,
    LightRed,
    Pink,
    Yellow,
    White,
}

impl Color {
    /// The palette index of this colour, a number below sixteen.
    pub open spec fn spec_index(self) -> u8 {
        match self {
            Color::Black => 0,
            Color::Blue => 1,
            Color::Green => 2,
            Color::Cyan => 3,
            Color::Red => 4,
            Color::Magenta => 5,
            Color::Brown => 6,
            Color::LightGray => 7,
            Color::DarkGray => 8,
            Color::LightBlue => 9,
            Color::LightGreen => 10,
            Color::LightCyan => 11,
            Color::LightRed => 12,
            Color::Pink => 13,
            Color::Yellow => 14,
            Color::White => 15,
        }
    }

    /// The colour with the given palette index; `Black` stands in for indices
    /// that name no colour.
    pub open spec fn spec_from_index(index: u8) -> Color {
        if index == 1 {
            Color::Blue
        } else if index == 2 {
            Color::Green
        } else if index == 3 {
            Color::Cyan
        } else if index == 4 {
            Color::Red
        } else if index == 5 {
            Color::Magenta
        } else if index == 6 {
            Color::Brown
        } else if index == 7 {
            Color::LightGray
        } else if index == 8 {
            Color::DarkGray
        } else if index == 9 {
            Color::LightBlue
        } else if index == 10 {
            Color::LightGreen
        } else if index == 11 {
            Color::LightCyan
        } else if index == 12 {
            Color::LightRed
        } else if index == 13 {
            Color::Pink
        } else if index == 14 {
            Color::Yellow
        } else if index == 15 {
            Color::White
        } else {
            Color::Black
        }
    }

    /// The palette index of this colour.
    #[verifier::when_used_as_spec(spec_index)]
    pub fn index(self) -> (index: u8)
        ensures
            index == self.spec_index(),
            index < 16,
    {
        match self {
            Color::Black => 0,
            Color::Blue => 1,
            Color::Green => 2,
            Color::Cyan => 3,
            Color::Red => 4,
            Color::Magenta => 5,
            Color::Brown => 6,
            Color::LightGray => 7,
            Color::DarkGray => 8,
            Color::LightBlue => 9,
            Color::LightGreen => 10,
            Color::LightCyan => 11,
            Color::LightRed => 12,
            Color::Pink => 13,
            Color::Yellow => 14,
            Color::White => 15,
        }
    }

    /// Looks a colour up by palette index; there is none from sixteen on.
    pub fn from_index(index: u8) -> (color: Option<Color>)
        ensures
            index < 16 ==> color == Some(Color::spec_from_index(index)),
            index >= 16 ==> color.is_none(),
    {
        match index {
            0 => Some(Color::Black),
            1 => Some(Color::Blue),
            2 => Some(Color::Green),
            3 => Some(Color::Cyan),
            4 => Some(Color::Red),
            5 => Some(Color::Magenta),
            6 => Some(Color::Brown),
            7 => Some(Color::LightGray),
            8 => Some(Color::DarkGray),
            9 => Some(Color::LightBlue),
            10 => Some(Color::LightGreen),
            11 => Some(Color::LightCyan),
            12 => Some(Color::LightRed),
            13 => Some(Color::Pink),
            14 => Some(Color::Yellow),
            15 => Some(Color::White),
            _ => None,
        }
    }

    /// A colour's index is below sixteen, and looking that index up gives the
    /// colour back.
    pub proof fn lemma_color_of_its_index(color: Color)
        ensures
            color.spec_index() < 16,
            Color::spec_from_index(color.spec_index()) == color,
    {
    }

    /// Every index below sixteen is the index of the colour it names.
    pub proof fn lemma_index_of_its_color(index: u8)
        requires
            index < 16,
        ensures
            Color::spec_from_index(index).spec_index() == index,
    {
    }
}

/// An attribute byte: background colour in the high nibble, foreground colour
/// in the low nibble.
#[derive(Debug, Clone, Copy, PartialEq, Eq, Structural)]
pub struct ColorCode(pub u8);

impl ColorCode {
    /// The attribute byte that pairs two palette indices.
    pub open spec fn pack(foreground: u8, background: u8) -> u8 {
        background << 4 | foreground
    }

    /// The foreground colour, read from the low nibble.
    pub open spec fn spec_foreground(self) -> Color {
        Color::spec_from_index(self.0 & 0x0f)
    }

    /// The background colour, read from the high nibble.
    pub open spec fn spec_background(self) -> Color {
        Color::spec_from_index(self.0 >> 4)
    }

    /// Packs a foreground and a background colour into one attribute byte.
    pub fn new(foreground: Color, background: Color) -> (code: ColorCode)
        ensures
            code.0 == ColorCode::pack(foreground.spec_index(), background.spec_index()),
            code.0 == background.spec_index() * 16 + foreground.spec_index(),
            code.0 & 0x0f == foreground.spec_index(),
            code.0 >> 4 == background.spec_index(),
            code.spec_foreground() == foreground,
            code.spec_background() == background,
    {
        let f: u8 = foreground.index();
        let b: u8 = background.index();
        proof {
            ColorCode::lemma_pack_nibbles(f, b);
            Color::lemma_color_of_its_index(foreground);
            Color::lemma_color_of_its_index(background);
        }
        ColorCode(b << 4 | f)
    }

    /// The attribute byte itself.
    pub fn value(self) -> (byte: u8)
        ensures
            byte == self.0,
    {
        self.0
    }

    /// The foreground colour.
    #[verifier::when_used_as_spec(spec_foreground)]
    pub fn foreground(self) -> (color: Color)
        ensures
            color == self.spec_foreground(),
    {
        let byte: u8 = self.0;
        let nibble: u8 = byte & 0x0f;
        assert(nibble < 16) by (bit_vector)
            requires
                nibble == byte & 0x0f,
        ;
        match Color::from_index(nibble) {
            Some(color) => color,
            None => Color::Black,
        }
    }

    /// The background colour.
    #[verifier::when_used_as_spec(spec_background)]
    pub fn background(self) -> (color: Color)
        ensures
            color == self.spec_background(),
    {
        let byte: u8 = self.0;
        let nibble: u8 = byte >> 4;
        assert(nibble < 16) by (bit_vector)
            requires
                nibble == byte >> 4,
        ;
        match Color::from_index(nibble) {
            Some(color) => color,
            None => Color::Black,
        }
    }

    /// Every attribute byte is the packing of the two colours that are read
    /// from it.
    pub proof fn lemma_code_packs_its_colors(code: ColorCode)
        ensures
            code.0 == ColorCode::pack(
                code.spec_foreground().spec_index(),
                code.spec_background().spec_index(),
            ),
    {
        let byte: u8 = code.0;
        let low: u8 = byte & 0x0f;
        let high: u8 = byte >> 4;
        assert(low < 16 && high < 16 && (high << 4 | low) == byte) by (bit_vector)
            requires
                low == byte & 0x0f,
                high == byte >> 4,
        ;
        Color::lemma_index_of_its_color(low);
        Color::lemma_index_of_its_color(high);
    }

    /// Two nibbles packed into a byte can be read back unchanged, and the
    /// packed byte is the background index times sixteen plus the foreground
    /// index.
    pub proof fn lemma_pack_nibbles(foreground: u8, background: u8)
        requires
            foreground < 16,
            background < 16,
        ensures
            ColorCode::pack(foreground, background) & 0x0f == foreground,
            ColorCode::pack(foreground, background) >> 4 == background,
            ColorCode::pack(foreground, background) == background * 16 + foreground,
    {
        assert((background << 4 | foreground) & 0x0f == foreground) by (bit_vector)
            requires
                foreground < 16,
                background < 16,
        ;
        assert((background << 4 | foreground) >> 4 == background) by (bit_vector)
            requires
                foreground < 16,
                background < 16,
        ;
        assert((background << 4 | foreground) == background * 16 + foreground) by (bit_vector)
            requires
                foreground < 16,
                background < 16,
        ;
    }
}

} // verus!
