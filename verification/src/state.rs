//! The writer as a mathematical value, and what holds of it.
//!
//! [`WriterState`] is what the contracts of [`crate::writer::Writer`] speak
//! of: each operation of the writer is a function from one state to the next.

use vstd::prelude::*;
use crate::color::ColorCode;
use crate::grid::{grid_with, is_grid, ScreenChar, VGA_BUFFER_HEIGHT, VGA_BUFFER_WIDTH};
use crate::text::{glyph_for, is_writable, NEWLINE, REPLACEMENT_GLYPH};

verus! {

/// What a writer is, as far as its behaviour goes: the column of the cursor,
/// the attribute it writes with, and the cells of the grid it writes to.
pub struct WriterState {
    pub column: nat,
    pub attribute: ColorCode,
    pub grid: Seq<Seq<ScreenChar>>,
}

impl WriterState {
    /// The row that every glyph is written to: the last one.
    pub open spec fn row() -> int {
        VGA_BUFFER_HEIGHT - 1
    }

    /// The number of cells in a row.
    pub open spec fn width() -> int {
        VGA_BUFFER_WIDTH as int
    }

    /// A writer as it is made: at column 0 of `grid`.
    pub open spec fn start(attribute: ColorCode, grid: Seq<Seq<ScreenChar>>) -> WriterState {
        WriterState { column: 0, attribute, grid }
    }

    /// The cursor is on the row or just past its end, and the grid has the
    /// shape of the display.
    pub open spec fn wf(self) -> bool {
        &&& self.column <= Self::width()
        &&& is_grid(self.grid)
    }

    /// The cell that shows `glyph` with the writer's attribute.
    pub open spec fn cell(self, glyph: u8) -> ScreenChar {
        ScreenChar { ascii_character: glyph, color_code: self.attribute }
    }

    /// Whether the row is full, so that the line advances before the next
    /// glyph is placed.
    pub open spec fn row_full(self) -> bool {
        self.column >= Self::width()
    }

    /// The writer after a line advance: the cursor is back at column 0, the
    /// grid is as it was.
    pub open spec fn new_line(self) -> WriterState {
        WriterState { column: 0, ..self }
    }

    /// The column that the next glyph is placed at: the cursor's, or 0 where
    /// the row is full.
    pub open spec fn next_column(self) -> int {
        if self.row_full() {
            0
        } else {
            self.column as int
        }
    }

    /// The writer after `glyph` is placed: the cell at the next column of the
    /// last row shows the glyph with the writer's attribute, and the cursor
    /// stands behind it.
    pub open spec fn place(self, glyph: u8) -> WriterState {
        WriterState {
            column: (self.next_column() + 1) as nat,
            attribute: self.attribute,
            grid: grid_with(self.grid, Self::row(), self.next_column(), self.cell(glyph)),
        }
    }

    /// The writer after one byte: a newline advances the line, any other
    /// byte is placed as a glyph.
    pub open spec fn write_byte(self, byte: u8) -> WriterState {
        if byte == NEWLINE {
            self.new_line()
        } else {
            self.place(byte)
        }
    }

    /// The writer after the bytes of a text, each written as its
    /// [`glyph_for`], first to last.
    pub open spec fn write_text(self, text: Seq<u8>) -> WriterState
        decreases text.len(),
    {
        if text.len() == 0 {
            self
        } else {
            self.write_text(text.drop_last()).write_byte(glyph_for(text.last()))
        }
    }

    /// Whether `self` and `other` show the same cell everywhere but in the
    /// columns `from` to `to` (`to` left out) of the last row.
    pub open spec fn same_cells_but(self, other: WriterState, from: int, to: int) -> bool {
        forall|row: int, column: int|
            0 <= row < VGA_BUFFER_HEIGHT && 0 <= column < Self::width() && !(row == Self::row()
                && from <= column < to) ==> #[trigger] self.grid[row][column]
                == other.grid[row][column]
    }

    /// Placing a glyph on a full row is advancing the line and placing the
    /// glyph then, so that it lands at column 0; on a row that is not full
    /// the glyph lands at the cursor.
    pub proof fn lemma_place_on_full_row(self, glyph: u8)
        ensures
            self.row_full() ==> self.place(glyph) == self.new_line().place(glyph),
            self.row_full() ==> self.next_column() == 0 && self.place(glyph).column == 1,
            !self.row_full() ==> self.next_column() == self.column,
            !self.row_full() ==> self.place(glyph).column == self.column + 1,
    {
    }

    /// One byte leaves a well-formed writer well-formed, with its attribute.
    /// A newline changes no cell. The glyph of any other byte is placed at a
    /// column of the last row, never past its end, and no other cell changes.
    pub proof fn lemma_write_byte(self, byte: u8)
        requires
            self.wf(),
        ensures
            self.write_byte(byte).wf(),
            self.write_byte(byte).attribute == self.attribute,
            0 <= self.next_column() < Self::width(),
            byte == NEWLINE ==> self.write_byte(byte).grid == self.grid,
            byte != NEWLINE ==> self.write_byte(byte).grid[Self::row()][self.next_column()]
                == self.cell(byte),
            self.write_byte(byte).same_cells_but(
                self,
                self.next_column(),
                self.next_column() + 1,
            ),
    {
    }

    /// A text leaves a well-formed writer well-formed, with its attribute,
    /// and changes no cell outside the last row.
    pub proof fn lemma_write_text(self, text: Seq<u8>)
        requires
            self.wf(),
        ensures
            self.write_text(text).wf(),
            self.write_text(text).attribute == self.attribute,
            self.write_text(text).same_cells_but(self, 0, Self::width()),
        decreases text.len(),
    {
        if text.len() > 0 {
            self.lemma_write_text(text.drop_last());
        }
    }

    /// Writing a text and then one more byte is writing the text with the
    /// byte at its end.
    pub proof fn lemma_write_text_push(self, text: Seq<u8>, byte: u8)
        ensures
            self.write_text(text.push(byte)) == self.write_text(text).write_byte(glyph_for(byte)),
    {
        assert(text.push(byte).drop_last() =~= text);
    }

    /// Writing one text and then another is writing the two as one.
    pub proof fn lemma_write_text_concat(self, first: Seq<u8>, second: Seq<u8>)
        ensures
            self.write_text(first + second) == self.write_text(first).write_text(second),
        decreases second.len(),
    {
        if second.len() > 0 {
            self.lemma_write_text_concat(first, second.drop_last());
            assert((first + second).drop_last() =~= first + second.drop_last());
        }
    }

    /// A byte of a text that is printable ASCII or the newline is written
    /// as it is.
    pub proof fn lemma_writable_byte_kept(self, text: Seq<u8>, byte: u8)
        requires
            is_writable(byte),
        ensures
            self.write_text(text.push(byte)) == self.write_text(text).write_byte(byte),
    {
        self.lemma_write_text_push(text, byte);
    }

    /// For any other byte of a text the replacement glyph is placed.
    pub proof fn lemma_other_byte_replaced(self, text: Seq<u8>, byte: u8)
        requires
            !is_writable(byte),
        ensures
            self.write_text(text.push(byte)) == self.write_text(text).write_byte(
                REPLACEMENT_GLYPH,
            ),
            self.write_text(text.push(byte)) == self.write_text(text).place(REPLACEMENT_GLYPH),
    {
        self.lemma_write_text_push(text, byte);
    }

    /// The cursor and the wrap, for a text without newlines written from
    /// column 0. Before the byte at index `i` the cursor stands at
    /// `(i - 1) % width + 1` (at 0 for the first byte). The line advances
    /// before that byte exactly where the cursor has reached the width, which
    /// is at every positive multiple of the width. The glyph of the byte is
    /// placed at column `i % width`, which is on the row.
    pub proof fn lemma_column_wrap(self, text: Seq<u8>, i: int)
        requires
            self.wf(),
            self.column == 0,
            forall|j: int| 0 <= j < text.len() ==> #[trigger] text[j] != NEWLINE,
            0 <= i < text.len(),
        ensures
            ({
                let before = self.write_text(text.take(i));
                let after = self.write_text(text.take(i + 1));
                &&& before.column == if i == 0 {
                    0
                } else {
                    (i - 1) % Self::width() + 1
                }
                &&& before.row_full() <==> before.column == Self::width()
                &&& before.row_full() <==> i > 0 && i % Self::width() == 0
                &&& before.next_column() == i % Self::width()
                &&& 0 <= before.next_column() < Self::width()
                &&& after == before.place(glyph_for(text[i]))
                &&& after.grid[Self::row()][i % Self::width()] == self.cell(glyph_for(text[i]))
            }),
        decreases i,
    {
        self.lemma_write_text(text.take(i));
        if i > 0 {
            self.lemma_column_wrap(text, i - 1);
        }
        assert(text.take(i + 1).drop_last() =~= text.take(i));
    }

    /// A text without newlines that fits on the row, written from column 0,
    /// fills the row from its left edge: the cell at column `i` shows the
    /// glyph of the byte at index `i`, the cursor stands behind the last of
    /// them, and every other cell of the grid is as it was.
    pub proof fn lemma_row_of_text(self, text: Seq<u8>)
        requires
            self.wf(),
            self.column == 0,
            text.len() <= Self::width(),
            forall|j: int| 0 <= j < text.len() ==> #[trigger] text[j] != NEWLINE,
        ensures
            self.write_text(text).column == text.len(),
            forall|i: int|
                0 <= i < text.len() ==> #[trigger] self.write_text(text).grid[Self::row()][i]
                    == self.cell(glyph_for(text[i])),
            self.write_text(text).same_cells_but(self, 0, text.len() as int),
        decreases text.len(),
    {
        if text.len() > 0 {
            self.lemma_row_of_text(text.drop_last());
            self.lemma_write_text(text.drop_last());
        }
    }

    /// Two writers made with one attribute on grids that show the same cells
    /// are the same writer after the same text, and so show the same cells.
    pub proof fn lemma_same_start_same_grid(
        attribute: ColorCode,
        first: Seq<Seq<ScreenChar>>,
        second: Seq<Seq<ScreenChar>>,
        text: Seq<u8>,
    )
        requires
            is_grid(first),
            is_grid(second),
            forall|row: int, column: int|
                0 <= row < VGA_BUFFER_HEIGHT && 0 <= column < Self::width()
                    ==> first[row][column] == second[row][column],
        ensures
            Self::start(attribute, first).write_text(text) == Self::start(
                attribute,
                second,
            ).write_text(text),
            Self::start(attribute, first).write_text(text).grid == Self::start(
                attribute,
                second,
            ).write_text(text).grid,
    {
        assert forall|row: int| 0 <= row < VGA_BUFFER_HEIGHT implies first[row] =~= second[row] by {}
        assert(first =~= second);
    }
}

} // verus!
