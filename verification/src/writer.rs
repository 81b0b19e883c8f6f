//! The writer: a cursor on the last row of the display that turns bytes into
//! cells.

use vstd::prelude::*;
use vstd::string::StringSliceAdditionalSpecFns;
use crate::color::ColorCode;
use crate::grid::{Buffer, ScreenChar, VGA_BUFFER_HEIGHT, VGA_BUFFER_WIDTH};
use crate::state::WriterState;
use crate::text::{NEWLINE, REPLACEMENT_GLYPH};

verus! {

/// A cursor on the last row of a display grid.
///
/// The writer holds the grid for as long as it lives, and nothing else can
/// reach the grid meanwhile. Its view, a [`WriterState`], is what its
/// contracts speak of. A verified caller that wants to know what is in its
/// grid once the writer is gone calls [`Writer::lemma_released`] after the
/// writer's last use.
pub struct Writer<'a> {
    column_position: usize,
    color_code: ColorCode,
    buffer: &'a mut Buffer,
}

impl<'a> View for Writer<'a> {
    type V = WriterState;

    closed spec fn view(&self) -> WriterState {
        WriterState {
            column: self.column_position as nat,
            attribute: self.color_code,
            grid: self.buffer@,
        }
    }
}

impl<'a> Writer<'a> {
    #[verifier::type_invariant]
    spec fn column_on_row(&self) -> bool {
        self.column_position <= VGA_BUFFER_WIDTH
    }

    /// The loan of the grid that the writer holds. What the lender finds in
    /// the grid once the writer is gone is `*final(writer.loan())`; every
    /// operation of the writer keeps the loan.
    pub closed spec fn loan(&self) -> &mut Buffer {
        self.buffer
    }

    /// A writer that is no longer used leaves the grid as it last showed it.
    pub proof fn lemma_released(self)
        requires
            has_resolved(self),
        ensures
            final(self.loan())@ == self@.grid,
    {
    }

    /// A writer at column 0 of `buffer` that writes with `color_code`.
    pub fn new(buffer: &'a mut Buffer, color_code: ColorCode) -> (writer: Self)
        ensures
            writer@ == WriterState::start(color_code, old(buffer)@),
            writer@.wf(),
            *final(writer.loan()) == *final(buffer),
    {
        Writer { column_position: 0, color_code, buffer }
    }

    /// The column of the cursor, `0` to `VGA_BUFFER_WIDTH`.
    pub fn column_position(&self) -> (column: usize)
        ensures
            column == self@.column,
            column <= VGA_BUFFER_WIDTH,
    {
        proof {
            use_type_invariant(self);
        }
        self.column_position
    }

    /// The attribute that the writer writes with.
    pub fn color_code(&self) -> (attribute: ColorCode)
        ensures
            attribute == self@.attribute,
    {
        self.color_code
    }

    /// Advances the line: the cursor goes back to column 0. No row is moved:
    /// the glyphs that follow overwrite the last row from its left edge.
    pub fn new_line(&mut self)
        ensures
            final(self)@ == old(self)@.new_line(),
            final(self)@.wf(),
            *final(final(self).loan()) == *final(old(self).loan()),
    {
        self.column_position = 0;
    }

    /// Writes one byte: a newline advances the line; any other byte is placed
    /// as a glyph at the cursor, after a line advance where the row is full.
    pub fn write_byte(&mut self, byte: u8)
        ensures
            final(self)@ == old(self)@.write_byte(byte),
            final(self)@.wf(),
            *final(final(self).loan()) == *final(old(self).loan()),
    {
        proof {
            use_type_invariant(&*self);
        }
        match byte {
            NEWLINE => self.new_line(),
            byte => {
                if self.column_position >= VGA_BUFFER_WIDTH {
                    self.new_line();
                }
                let row: usize = VGA_BUFFER_HEIGHT - 1;
                let col: usize = self.column_position;
                let color_code = self.color_code;

                self.buffer.write(row, col, ScreenChar { ascii_character: byte, color_code });
                self.column_position += 1;
            },
        }
    }

    /// Writes the bytes of a text, first to last: a byte that is printable
    /// ASCII or the newline as it is, any other as the replacement glyph.
    pub fn write_text(&mut self, text: &[u8])
        ensures
            final(self)@ == old(self)@.write_text(text@),
            final(self)@.wf(),
            *final(final(self).loan()) == *final(old(self).loan()),
    {
        proof {
            use_type_invariant(&*self);
        }
        let mut i: usize = 0;
        while i < text.len()
            invariant
                i <= text.len(),
                self@ == old(self)@.write_text(text@.take(i as int)),
                self@.wf(),
                *final(self.loan()) == *final(old(self).loan()),
            decreases text.len() - i,
        {
            let byte: u8 = text[i];
            proof {
                assert(text@.take(i + 1).drop_last() =~= text@.take(i as int));
            }
            match byte {
                0x20..=0x7e | NEWLINE => self.write_byte(byte),
                _ => self.write_byte(REPLACEMENT_GLYPH),
            }
            i += 1;
        }
        proof {
            assert(text@.take(i as int) =~= text@);
        }
    }

    /// Writes a string, byte by byte of its UTF-8 form: a character outside
    /// ASCII shows as one replacement glyph for each of its bytes.
    pub fn write_string(&mut self, s: &str)
        ensures
            final(self)@ == old(self)@.write_text(s.spec_bytes()),
            final(self)@.wf(),
            *final(final(self).loan()) == *final(old(self).loan()),
    {
        self.write_text(s.as_bytes());
    }
}

} // verus!
