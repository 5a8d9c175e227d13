//! Character cells and the memory grid they live in.
//!
//! The display hardware reads two bytes per cell, the glyph first and the
//! attribute second, so the grid stores each cell as exactly those two bytes.

use super::color::ColorCode;
use volatile::Volatile;
use vstd::prelude::*;

verus! {

/// Number of text rows on the display.
pub const BUFFER_HEIGHT: usize = 25;

/// Number of cells in one text row.
pub const BUFFER_WIDTH: usize = 80;

/// One character cell: a glyph and the colours it is drawn in.
#[derive(Debug, Clone, Copy, PartialEq, Eq, Structural)]
pub struct ScreenChar {
    pub ascii_character: u8,
    pub color_code: ColorCode,
}

impl ScreenChar {
    /// The two bytes of this cell in display memory: glyph, then attribute.
    pub open spec fn spec_to_bytes(self) -> Seq<u8> {
        seq![self.ascii_character, self.color_code.0]
    }

    /// The cell that two bytes of display memory show.
    pub open spec fn spec_from_bytes(bytes: Seq<u8>) -> ScreenChar {
        ScreenChar { ascii_character: bytes[0], color_code: ColorCode(bytes[1]) }
    }

    /// Lays the cell out as the display reads it: glyph, then attribute.
    pub fn to_bytes(self) -> (bytes: [u8; 2])
        ensures
            bytes@ == self.spec_to_bytes(),
    {
        [self.ascii_character, self.color_code.0]
    }

    /// Reads a cell back from its two bytes.
    pub fn from_bytes(bytes: [u8; 2]) -> (cell: ScreenChar)
        ensures
            cell == ScreenChar::spec_from_bytes(bytes@),
    {
        ScreenChar { ascii_character: bytes[0], color_code: ColorCode(bytes[1]) }
    }

    /// Encoding loses nothing: a cell is read back from its bytes unchanged,
    /// and two bytes are the encoding of the cell they show.
    pub proof fn lemma_bytes_round_trip(cell: ScreenChar, bytes: Seq<u8>)
        ensures
            cell.spec_to_bytes().len() == 2,
            ScreenChar::spec_from_bytes(cell.spec_to_bytes()) == cell,
            bytes.len() == 2 ==> ScreenChar::spec_from_bytes(bytes).spec_to_bytes() == bytes,
    {
        if bytes.len() == 2 {
            assert(ScreenChar::spec_from_bytes(bytes).spec_to_bytes() =~= bytes);
        }
    }
}

} // verus!
