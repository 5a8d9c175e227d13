//! What the display shows, as a mathematical value, and how writing changes it.

use super::cell::{ScreenChar, BUFFER_HEIGHT, BUFFER_WIDTH};
use super::color::ColorCode;
use vstd::prelude::*;

verus! {

/// The byte that ends a line.
pub const LINE_FEED: u8 = 0x0a;

/// The glyph of an empty cell.
pub const BLANK: u8 = 0x20;

/// The glyph shown in place of a byte that has no glyph of its own.
pub const SUBSTITUTE: u8 = 0xfe;

/// Whether `byte` is printable ASCII, from the space to the tilde.
pub open spec fn is_printable(byte: u8) -> bool {
    0x20 <= byte <= 0x7e
}

/// The byte that is written for `byte` of a string: the byte itself where it
/// is printable or ends a line, the substitute glyph otherwise.
pub open spec fn displayed(byte: u8) -> u8 {
    if is_printable(byte) || byte == LINE_FEED {
        byte
    } else {
        SUBSTITUTE
    }
}

/// The state of the display: where the cursor stands in the bottom row, the
/// colours that new characters get, and the characters on the grid.
#[verifier::ext_equal]
pub struct Screen {
    pub column: nat,
    pub color: ColorCode,
    pub rows: Seq<Seq<ScreenChar>>,
}

impl Screen {
    /// The grid has 25 rows of 80 cells, and the cursor stands on a cell of
    /// the bottom row or just past its end.
    pub open spec fn wf(self) -> bool {
        &&& self.column <= BUFFER_WIDTH
        &&& self.rows.len() == BUFFER_HEIGHT
        &&& forall|row: int| 0 <= row < BUFFER_HEIGHT ==> (#[trigger] self.rows[row]).len() == BUFFER_WIDTH
    }

    /// An empty cell in the current colours.
    pub open spec fn blank(self) -> ScreenChar {
        ScreenChar { ascii_character: BLANK, color_code: self.color }
    }

    /// A row of empty cells in the current colours.
    pub open spec fn blank_row(self) -> Seq<ScreenChar> {
        Seq::new(BUFFER_WIDTH as nat, |col: int| self.blank())
    }

    /// The display with the cell at `row`, `col` replaced by `cell`.
    pub open spec fn set(self, row: int, col: int, cell: ScreenChar) -> Screen {
        Screen { rows: self.rows.update(row, self.rows[row].update(col, cell)), ..self }
    }

    /// The display with row `row` emptied.
    pub open spec fn clear_row(self, row: int) -> Screen {
        Screen { rows: self.rows.update(row, self.blank_row()), ..self }
    }

    /// The display scrolled by one line: every row moves up by one, the top
    /// row is lost, the bottom row is empty and the cursor stands at its
    /// start.
    pub open spec fn new_line(self) -> Screen {
        Screen {
            column: 0,
            color: self.color,
            rows: Seq::new(
                BUFFER_HEIGHT as nat,
                |row: int|
                    if row < BUFFER_HEIGHT - 1 {
                        self.rows[row + 1]
                    } else {
                        self.blank_row()
                    },
            ),
        }
    }

    /// The display with `byte` put at the cursor in the current colours, and
    /// the cursor moved one cell on.
    pub open spec fn put(self, byte: u8) -> Screen {
        let cell = ScreenChar { ascii_character: byte, color_code: self.color };
        Screen { column: self.column + 1, ..self.set(BUFFER_HEIGHT - 1, self.column as int, cell) }
    }

    /// Whether writing `byte` scrolls the display: it ends the line, or the
    /// bottom row is full.
    pub open spec fn scrolls_on(self, byte: u8) -> bool {
        byte == LINE_FEED || self.column >= BUFFER_WIDTH
    }

    /// The display after one byte is written. The display scrolls first if
    /// the byte ends the line or the bottom row is full; then any byte but
    /// the line feed is put at the cursor.
    pub open spec fn write_byte(self, byte: u8) -> Screen {
        let line = if self.scrolls_on(byte) {
            self.new_line()
        } else {
            self
        };
        if byte == LINE_FEED {
            line
        } else {
            line.put(byte)
        }
    }

    /// The display after the bytes of a string are written in order, each
    /// byte without a glyph replaced by the substitute.
    pub open spec fn write_string(self, bytes: Seq<u8>) -> Screen
        decreases bytes.len(),
    {
        if bytes.len() == 0 {
            self
        } else {
            self.write_string(bytes.drop_last()).write_byte(displayed(bytes.last()))
        }
    }

    /// How often the display scrolls while the bytes of a string are written.
    pub open spec fn scroll_count(self, bytes: Seq<u8>) -> nat
        decreases bytes.len(),
    {
        if bytes.len() == 0 {
            0
        } else {
            let before = self.write_string(bytes.drop_last());
            let last: nat = if before.scrolls_on(displayed(bytes.last())) {
                1
            } else {
                0
            };
            self.scroll_count(bytes.drop_last()) + last
        }
    }

    /// The display after several strings are written one after another.
    pub open spec fn write_all(self, pieces: Seq<Seq<u8>>) -> Screen
        decreases pieces.len(),
    {
        if pieces.len() == 0 {
            self
        } else {
            self.write_string(pieces.first()).write_all(pieces.drop_first())
        }
    }

    /// The cell in which `byte` is shown in the current colours.
    pub open spec fn glyph(self, byte: u8) -> ScreenChar {
        ScreenChar { ascii_character: byte, color_code: self.color }
    }

    /// Scrolling, emptying a row, putting a byte on a row that has room and
    /// writing a byte all keep the grid at 25 rows of 80 cells and the cursor
    /// within the bottom row.
    pub proof fn lemma_steps_keep_wf(self, byte: u8, row: int)
        requires
            self.wf(),
        ensures
            self.new_line().wf(),
            self.write_byte(byte).wf(),
            0 <= row < BUFFER_HEIGHT ==> self.clear_row(row).wf(),
            self.column < BUFFER_WIDTH ==> self.put(byte).wf(),
    {
        assert(self.new_line().put(byte).wf());
    }

    /// Writing a string keeps the grid at 25 rows of 80 cells and the cursor
    /// within the bottom row, and never changes the colours in use.
    pub proof fn lemma_write_string_keeps_wf(self, bytes: Seq<u8>)
        requires
            self.wf(),
        ensures
            self.write_string(bytes).wf(),
            self.write_string(bytes).color == self.color,
        decreases bytes.len(),
    {
        if bytes.len() > 0 {
            self.lemma_write_string_keeps_wf(bytes.drop_last());
            self.write_string(bytes.drop_last()).lemma_steps_keep_wf(displayed(bytes.last()), 0);
        }
    }

    /// A string of one byte is written as that byte is, or as the substitute
    /// where the byte has no glyph: for a byte that is printable or ends the
    /// line it makes no difference whether it is written as a byte or as a
    /// string.
    pub proof fn lemma_write_string_single(self, byte: u8)
        ensures
            self.write_string(seq![byte]) == self.write_byte(displayed(byte)),
            is_printable(byte) || byte == LINE_FEED ==> self.write_string(seq![byte])
                == self.write_byte(byte),
    {
        assert(seq![byte].drop_last() =~= Seq::<u8>::empty());
        assert(self.write_string(seq![byte].drop_last()) == self);
    }

    /// Writing two strings one after the other is writing their
    /// concatenation, and the scrolls of the two writes add up.
    pub proof fn lemma_write_string_concat(self, first: Seq<u8>, second: Seq<u8>)
        ensures
            self.write_string(first + second) == self.write_string(first).write_string(second),
            self.scroll_count(first + second) == self.scroll_count(first) + self.write_string(
                first,
            ).scroll_count(second),
        decreases second.len(),
    {
        if second.len() == 0 {
            assert(first + second =~= first);
        } else {
            assert((first + second).drop_last() =~= first + second.drop_last());
            self.lemma_write_string_concat(first, second.drop_last());
        }
    }

    /// Writing several strings one after another is writing all their bytes
    /// as one string.
    pub proof fn lemma_write_all_is_write_string(self, pieces: Seq<Seq<u8>>)
        ensures
            self.write_all(pieces) == self.write_string(pieces.flatten()),
        decreases pieces.len(),
    {
        if pieces.len() > 0 {
            self.write_string(pieces.first()).lemma_write_all_is_write_string(pieces.drop_first());
            self.lemma_write_string_concat(pieces.first(), pieces.drop_first().flatten());
        }
    }

    /// A byte that is neither printable nor a line feed is written as the
    /// substitute glyph: the string shows as it would with that byte replaced
    /// by the substitute.
    pub proof fn lemma_substitute_shown(self, bytes: Seq<u8>, i: int)
        requires
            0 <= i < bytes.len(),
            !is_printable(bytes[i]),
            bytes[i] != LINE_FEED,
        ensures
            displayed(bytes[i]) == SUBSTITUTE,
            self.write_string(bytes) == self.write_string(bytes.update(i, SUBSTITUTE)),
        decreases bytes.len(),
    {
        let replaced = bytes.update(i, SUBSTITUTE);
        if i == bytes.len() - 1 {
            assert(replaced.drop_last() =~= bytes.drop_last());
        } else {
            assert(replaced.drop_last() =~= bytes.drop_last().update(i, SUBSTITUTE));
            self.lemma_substitute_shown(bytes.drop_last(), i);
        }
    }

    /// Printable characters that fit into what is left of the bottom row are
    /// written without a scroll: the cursor advances by their number, they
    /// stand in order from the old cursor position on, and every other cell
    /// of the display is unchanged.
    pub proof fn lemma_line_fits(self, bytes: Seq<u8>)
        requires
            self.wf(),
            forall|i: int| 0 <= i < bytes.len() ==> is_printable(#[trigger] bytes[i]),
            self.column + bytes.len() <= BUFFER_WIDTH,
        ensures
            self.scroll_count(bytes) == 0,
            self.write_string(bytes).wf(),
            self.write_string(bytes).column == self.column + bytes.len(),
            self.write_string(bytes).color == self.color,
            forall|row: int|
                0 <= row < BUFFER_HEIGHT - 1 ==> #[trigger] self.write_string(bytes).rows[row]
                    == self.rows[row],
            forall|col: int|
                0 <= col < BUFFER_WIDTH ==> #[trigger] self.write_string(bytes).rows[BUFFER_HEIGHT
                    - 1][col] == if self.column <= col < self.column + bytes.len() {
                    self.glyph(bytes[col - self.column])
                } else {
                    self.rows[BUFFER_HEIGHT - 1][col]
                },
        decreases bytes.len(),
    {
        if bytes.len() > 0 {
            let front = bytes.drop_last();
            self.lemma_line_fits(front);
            let before = self.write_string(front);
            assert(is_printable(bytes[bytes.len() - 1]));
            assert(self.write_string(bytes) == before.put(bytes.last()));
        }
    }

    /// Several writes of printable characters, no more than 80 of them in
    /// all, that begin with the cursor at the start of the bottom row leave
    /// the cursor at the number of characters written and do not scroll: the
    /// characters stand in order in the bottom row, and the rows above are
    /// unchanged.
    pub proof fn lemma_short_writes_do_not_scroll(self, pieces: Seq<Seq<u8>>)
        requires
            self.wf(),
            self.column == 0,
            pieces.flatten().len() <= BUFFER_WIDTH,
            forall|i: int|
                0 <= i < pieces.flatten().len() ==> is_printable(#[trigger] pieces.flatten()[i]),
        ensures
            self.write_all(pieces).column == pieces.flatten().len(),
            self.scroll_count(pieces.flatten()) == 0,
            forall|row: int|
                0 <= row < BUFFER_HEIGHT - 1 ==> #[trigger] self.write_all(pieces).rows[row]
                    == self.rows[row],
            forall|col: int|
                0 <= col < pieces.flatten().len() ==> #[trigger] self.write_all(
                    pieces,
                ).rows[BUFFER_HEIGHT - 1][col] == self.glyph(pieces.flatten()[col]),
    {
        self.lemma_write_all_is_write_string(pieces);
        self.lemma_line_fits(pieces.flatten());
    }

    /// Printable characters wrap at the end of the row: written from column
    /// `self.column` on, they scroll the display once each time a character
    /// finds the row full, and the cursor ends just behind the last of them.
    pub proof fn lemma_printable_text_wraps(self, bytes: Seq<u8>)
        requires
            self.wf(),
            forall|i: int| 0 <= i < bytes.len() ==> is_printable(#[trigger] bytes[i]),
            bytes.len() >= 1,
        ensures
            self.scroll_count(bytes) == (self.column + bytes.len() - 1) / (BUFFER_WIDTH as int),
            self.write_string(bytes).column == (self.column + bytes.len() - 1) % (
            BUFFER_WIDTH as int) + 1,
            self.write_string(bytes).rows[BUFFER_HEIGHT - 1][self.write_string(bytes).column
                - 1] == self.glyph(bytes.last()),
        decreases bytes.len(),
    {
        let front = bytes.drop_last();
        self.lemma_write_string_keeps_wf(front);
        assert(is_printable(bytes[bytes.len() - 1]));
        if front.len() > 0 {
            self.lemma_printable_text_wraps(front);
        }
    }

    /// Printable characters that overrun the bottom row by exactly one cell
    /// scroll the display exactly once, just before the last of them is
    /// written: the filled row moves up by one, and the last character stands
    /// alone at the start of the new bottom row.
    pub proof fn lemma_one_past_the_row_scrolls_once(self, bytes: Seq<u8>)
        requires
            self.wf(),
            forall|i: int| 0 <= i < bytes.len() ==> is_printable(#[trigger] bytes[i]),
            bytes.len() >= 1,
            self.column + bytes.len() == BUFFER_WIDTH + 1,
        ensures
            self.scroll_count(bytes.drop_last()) == 0,
            self.scroll_count(bytes) == 1,
            self.write_string(bytes) == self.write_string(bytes.drop_last()).new_line().put(
                bytes.last(),
            ),
            self.write_string(bytes).wf(),
            self.write_string(bytes).column == 1,
            self.write_string(bytes).rows[BUFFER_HEIGHT - 1][0] == self.glyph(bytes.last()),
            forall|col: int|
                1 <= col < BUFFER_WIDTH ==> #[trigger] self.write_string(bytes).rows[BUFFER_HEIGHT
                    - 1][col] == self.blank(),
            forall|col: int|
                0 <= col < BUFFER_WIDTH ==> #[trigger] self.write_string(bytes).rows[BUFFER_HEIGHT
                    - 2][col] == if col < self.column {
                    self.rows[BUFFER_HEIGHT - 1][col]
                } else {
                    self.glyph(bytes[col - self.column])
                },
            forall|row: int|
                0 <= row < BUFFER_HEIGHT - 2 ==> #[trigger] self.write_string(bytes).rows[row]
                    == self.rows[row + 1],
    {
        let front = bytes.drop_last();
        self.lemma_line_fits(front);
        let full = self.write_string(front);
        assert(is_printable(bytes[bytes.len() - 1]));
        assert(full.column == BUFFER_WIDTH);
        assert(self.write_string(bytes) == full.new_line().put(bytes.last()));
        let after = self.write_string(bytes);
        assert forall|row: int| 0 <= row < BUFFER_HEIGHT - 2 implies #[trigger] after.rows[row]
            == self.rows[row + 1] by {
            assert(full.rows[row + 1] == self.rows[row + 1]);
        }
    }
}

} // verus!
