//! The writer: a cursor in the bottom row of the display, the colours in use,
//! and exclusive access to display memory.

use super::buffer::{buffer_cell, buffer_rows, read_cell, write_cell, Buffer};
use super::cell::{ScreenChar, BUFFER_HEIGHT, BUFFER_WIDTH};
use super::color::ColorCode;
use super::screen::{Screen, BLANK, LINE_FEED, SUBSTITUTE};
use vstd::prelude::*;
use vstd::string::StringSliceAdditionalSpecFns;

verus! {

/// `core::fmt::Error`, the error of `core::fmt::Result`. It is declared so
/// that the type can be named; nothing is claimed of it.
#[verifier::external_type_specification]
#[verifier::external_body]
pub struct ExFmtError(core::fmt::Error);

/// Writes text to the bottom row of the display and scrolls the rows above.
pub struct Writer {
    column_position: usize,
    color_code: ColorCode,
    buffer: &'static mut Buffer,
}

impl View for Writer {
    type V = Screen;

    closed spec fn view(&self) -> Screen {
        Screen {
            column: self.column_position as nat,
            color: self.color_code,
            rows: buffer_rows(*self.buffer),
        }
    }
}

impl Writer {
    #[verifier::type_invariant]
    spec fn cursor_in_row(&self) -> bool {
        self.column_position <= BUFFER_WIDTH
    }

    /// A writer over `buffer` that starts at the left of the bottom row and
    /// leaves what the display shows as it is.
    pub fn new(buffer: &'static mut Buffer, color_code: ColorCode) -> (writer: Writer)
        ensures
            writer@.wf(),
            writer@.column == 0,
            writer@.color == color_code,
            writer@.rows == buffer_rows(*old(buffer)),
    {
        Writer { column_position: 0, color_code, buffer }
    }

    /// The column of the bottom row at which the next character goes.
    pub fn column_position(&self) -> (column: usize)
        ensures
            self@.wf(),
            column == self@.column,
    {
        proof {
            use_type_invariant(self);
        }
        self.column_position
    }

    /// The colours that newly written characters get.
    pub fn color_code(&self) -> (color_code: ColorCode)
        ensures
            self@.wf(),
            color_code == self@.color,
    {
        proof {
            use_type_invariant(self);
        }
        self.color_code
    }

    /// The character shown at `row`, `col`, if the display has such a cell.
    pub fn char_at(&self, row: usize, col: usize) -> (cell: Option<ScreenChar>)
        ensures
            self@.wf(),
            row < BUFFER_HEIGHT && col < BUFFER_WIDTH ==> cell == Some(
                self@.rows[row as int][col as int],
            ),
            row >= BUFFER_HEIGHT || col >= BUFFER_WIDTH ==> cell.is_none(),
    {
        proof {
            use_type_invariant(self);
        }
        if row < BUFFER_HEIGHT && col < BUFFER_WIDTH {
            Some(self.load(row, col))
        } else {
            None
        }
    }

    /// Reads one cell of display memory.
    fn load(&self, row: usize, col: usize) -> (cell: ScreenChar)
        requires
            row < BUFFER_HEIGHT,
            col < BUFFER_WIDTH,
        ensures
            cell == self@.rows[row as int][col as int],
    {
        ScreenChar::from_bytes(read_cell(&self.buffer[row][col]))
    }

    /// Writes one cell of display memory and leaves every other cell alone.
    fn store(&mut self, row: usize, col: usize, cell: ScreenChar)
        requires
            row < BUFFER_HEIGHT,
            col < BUFFER_WIDTH,
        ensures
            final(self)@ == old(self)@.set(row as int, col as int, cell),
            final(self)@.wf(),
    {
        proof {
            use_type_invariant(&*self);
        }
        write_cell(&mut self.buffer[row][col], cell.to_bytes());
        proof {
            ScreenChar::lemma_bytes_round_trip(cell, cell.spec_to_bytes());
            let before = *old(self).buffer;
            let after = *self.buffer;
            assert forall|r: int, c: int|
                0 <= r < BUFFER_HEIGHT && 0 <= c < BUFFER_WIDTH implies #[trigger] buffer_cell(
                after,
                r,
                c,
            ) == if r == row && c == col {
                cell
            } else {
                buffer_cell(before, r, c)
            } by {
                if r == row && c == col {
                } else if r == row {
                    assert(after[r][c] == before[r][c]);
                } else {
                    assert(after[r] == before[r]);
                }
            }
            assert(self@.rows =~~= old(self)@.set(row as int, col as int, cell).rows);
        }
    }

    /// Overwrites every cell of row `row` with an empty cell in the current
    /// colours.
    pub fn clear_row(&mut self, row: usize)
        requires
            row < BUFFER_HEIGHT,
        ensures
            final(self)@ == old(self)@.clear_row(row as int),
            final(self)@.wf(),
    {
        let blank = ScreenChar { ascii_character: BLANK, color_code: self.color_code };
        proof {
            use_type_invariant(&*self);
        }
        for col in 0..BUFFER_WIDTH
            invariant
                row < BUFFER_HEIGHT,
                self@.wf(),
                self@.column == old(self)@.column,
                self@.color == old(self)@.color,
                blank == old(self)@.blank(),
                forall|r: int, c: int|
                    0 <= r < BUFFER_HEIGHT && 0 <= c < BUFFER_WIDTH ==> #[trigger] self@.rows[r][c]
                        == if r == row && c < col {
                        blank
                    } else {
                        old(self)@.rows[r][c]
                    },
        {
            self.store(row, col, blank);
        }
        assert(self@.rows =~~= old(self)@.clear_row(row as int).rows);
    }

    /// Scrolls the display by one line: every row is copied to the row above
    /// it, cell by cell, the bottom row is emptied, and the cursor returns to
    /// the start of the bottom row.
    pub fn new_line(&mut self)
        ensures
            final(self)@ == old(self)@.new_line(),
            final(self)@.wf(),
            final(self)@.column == 0,
            forall|row: int|
                0 <= row < BUFFER_HEIGHT - 1 ==> #[trigger] final(self)@.rows[row] == old(
                    self,
                )@.rows[row + 1],
            final(self)@.rows[BUFFER_HEIGHT - 1] == old(self)@.blank_row(),
    {
        proof {
            use_type_invariant(&*self);
        }
        for row in 1..BUFFER_HEIGHT
            invariant
                self@.wf(),
                self@.column == old(self)@.column,
                self@.color == old(self)@.color,
                forall|r: int, c: int|
                    0 <= r < BUFFER_HEIGHT && 0 <= c < BUFFER_WIDTH ==> #[trigger] self@.rows[r][c]
                        == if r < row - 1 {
                        old(self)@.rows[r + 1][c]
                    } else {
                        old(self)@.rows[r][c]
                    },
        {
            for col in 0..BUFFER_WIDTH
                invariant
                    1 <= row < BUFFER_HEIGHT,
                    self@.wf(),
                    self@.column == old(self)@.column,
                    self@.color == old(self)@.color,
                    forall|r: int, c: int|
                        0 <= r < BUFFER_HEIGHT && 0 <= c < BUFFER_WIDTH
                            ==> #[trigger] self@.rows[r][c] == if r < row - 1 || (r == row - 1 && c
                            < col) {
                            old(self)@.rows[r + 1][c]
                        } else {
                            old(self)@.rows[r][c]
                        },
            {
                let character = self.load(row, col);
                self.store(row - 1, col, character);
            }
        }
        self.clear_row(BUFFER_HEIGHT - 1);
        self.column_position = 0;
        proof {
            assert(self@.rows =~~= old(self)@.new_line().rows);
        }
    }

    /// Writes one byte. A line feed scrolls the display. Any other byte goes
    /// to the cursor in the bottom row, after a scroll if that row is full,
    /// and moves the cursor one cell on.
    pub fn write_byte(&mut self, byte: u8)
        ensures
            final(self)@ == old(self)@.write_byte(byte),
            final(self)@.wf(),
    {
        proof {
            use_type_invariant(&*self);
        }
        if byte == LINE_FEED {
            self.new_line();
        } else {
            if self.column_position >= BUFFER_WIDTH {
                self.new_line();
            }
            let row: usize = BUFFER_HEIGHT - 1;
            let col: usize = self.column_position;

            let color_code = self.color_code;
            self.store(row, col, ScreenChar { ascii_character: byte, color_code });
            self.column_position += 1;
        }
    }

    /// Writes the bytes of `s` in order. Printable ASCII and the line feed
    /// are written as they are; every other byte is written as the
    /// substitute glyph, so that a character encoded in several bytes shows
    /// as several substitutes.
    pub fn write_string(&mut self, s: &str)
        ensures
            final(self)@ == old(self)@.write_string(s.spec_bytes()),
            final(self)@.wf(),
    {
        proof {
            use_type_invariant(&*self);
        }
        let bytes = s.as_bytes();
        for i in 0..bytes.len()
            invariant
                bytes@ == s.spec_bytes(),
                self@.wf(),
                self@ == old(self)@.write_string(bytes@.take(i as int)),
        {
            let byte: u8 = bytes[i];
            proof {
                assert(bytes@.take(i + 1).drop_last() =~= bytes@.take(i as int));
            }
            match byte {
                0x20..=0x7e | LINE_FEED => self.write_byte(byte),
                _ => self.write_byte(SUBSTITUTE),
            }
        }
        proof {
            assert(bytes@.take(bytes@.len() as int) =~= bytes@);
        }
    }
}

impl core::fmt::Write for Writer {
    /// Writes `s` as `write_string` does; this never fails.
    fn write_str(&mut self, s: &str) -> (result: core::fmt::Result)
        ensures
            result.is_ok(),
            final(self)@ == old(self)@.write_string(s.spec_bytes()),
            final(self)@.wf(),
    {
        self.write_string(s);
        Ok(())
    }
}

/// Prints `text` through `writer`: the text goes to the display as
/// `Writer::write_string` lays it out.
pub fn _print(writer: &mut Writer, text: &str)
    ensures
        final(writer)@ == old(writer)@.write_string(text.spec_bytes()),
        final(writer)@.wf(),
{
    writer.write_string(text);
}

} // verus!
