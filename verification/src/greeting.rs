//! The greeting that the display shows at start-up.

use vstd::prelude::*;
use vstd::string::StringSliceAdditionalSpecFns;
use vstd::utf8::{encode_scalar, encode_utf8};
use crate::color::{Color, ColorCode};
use crate::grid::{Buffer, ScreenChar, VGA_BUFFER_HEIGHT, VGA_BUFFER_WIDTH};
use crate::state::WriterState;
use crate::text::{glyph_for, lemma_ascii_char};
use crate::writer::Writer;

verus! {

/// The bytes of the greeting: an `H`, then the UTF-8 form of the rest, in
/// which two characters outside ASCII take three bytes each.
pub open spec fn greeting() -> Seq<u8> {
    seq![
        0x48u8, 0x65, 0x6c, 0x6c, 0x6f, 0x20, 0x77,
        0xe2, 0x88, 0x9a, 0xe2, 0x88, 0x82,
        0x72, 0x6c, 0x64, 0x21,
    ]
}

/// The UTF-8 form of the greeting after its first letter.
proof fn lemma_greeting_tail()
    ensures
        "ello w\u{221a}\u{2202}rld!".spec_bytes() == greeting().skip(1),
{
    reveal_strlit("ello w\u{221a}\u{2202}rld!");
    reveal_with_fuel(encode_utf8, 13);
    lemma_ascii_char('e');
    lemma_ascii_char('l');
    lemma_ascii_char('o');
    lemma_ascii_char(' ');
    lemma_ascii_char('w');
    lemma_ascii_char('r');
    lemma_ascii_char('d');
    lemma_ascii_char('!');
    assert(encode_scalar(0x221a) =~= seq![0xe2u8, 0x88, 0x9a]) by {
        assert({
            &&& (0xE0u8 | ((0x221au32 >> 12) & 0x0F) as u8) == 0xe2
            &&& (0x80u8 | ((0x221au32 >> 6) & 0x3F) as u8) == 0x88
            &&& (0x80u8 | (0x221au32 & 0x3F) as u8) == 0x9a
        }) by (bit_vector);
    }
    assert(encode_scalar(0x2202) =~= seq![0xe2u8, 0x88, 0x82]) by {
        assert({
            &&& (0xE0u8 | ((0x2202u32 >> 12) & 0x0F) as u8) == 0xe2
            &&& (0x80u8 | ((0x2202u32 >> 6) & 0x3F) as u8) == 0x88
            &&& (0x80u8 | (0x2202u32 & 0x3F) as u8) == 0x82
        }) by (bit_vector);
    }
}

/// Shows the greeting on the last row of `buffer`, in yellow on black, from
/// the left edge: one cell for each byte of [`greeting`], the six bytes
/// outside ASCII as replacement glyphs. Every other cell stays as it was.
pub fn print_something(buffer: &mut Buffer)
    ensures
        final(buffer)@ == WriterState::start(
            ColorCode::spec_new(Color::Yellow, Color::Black),
            old(buffer)@,
        ).write_text(greeting()).grid,
        forall|i: int|
            0 <= i < greeting().len() ==> #[trigger] final(buffer)@[VGA_BUFFER_HEIGHT - 1][i] == (
            ScreenChar { ascii_character: glyph_for(greeting()[i]), color_code: ColorCode(0x0e) }),
        forall|row: int, column: int|
            0 <= row < VGA_BUFFER_HEIGHT && 0 <= column < VGA_BUFFER_WIDTH && !(row
                == VGA_BUFFER_HEIGHT - 1 && column < greeting().len())
                ==> #[trigger] final(buffer)@[row][column] == old(buffer)@[row][column],
{
    let mut writer = Writer::new(buffer, ColorCode::new(Color::Yellow, Color::Black));

    writer.write_byte(0x48);
    writer.write_string("ello w\u{221a}\u{2202}rld!");

    proof {
        let start = WriterState::start(
            ColorCode::spec_new(Color::Yellow, Color::Black),
            old(buffer)@,
        );
        let head = seq![0x48u8];
        lemma_greeting_tail();
        start.lemma_write_text_push(Seq::empty(), 0x48u8);
        start.lemma_write_text_concat(head, greeting().skip(1));
        assert(head + greeting().skip(1) =~= greeting());
        start.lemma_row_of_text(greeting());
        writer.lemma_released();
    }
}

} // verus!
