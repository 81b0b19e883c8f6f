//! Which glyph a byte of a text is shown as, and what the bytes of a string
//! are.
//!
//! The display has a glyph for each printable ASCII byte. A text is written
//! byte by byte: a string is taken in its UTF-8 form, so a character outside
//! ASCII arrives as several bytes and shows as as many replacement glyphs.

use vstd::prelude::*;
use vstd::utf8::encode_scalar;

verus! {

/// The byte that advances the line.
pub const NEWLINE: u8 = 0x0a;

/// The glyph shown in place of a byte that the display has no glyph for.
pub const REPLACEMENT_GLYPH: u8 = 0xfe;

/// Whether `byte` is written as it is: printable ASCII, or the newline.
pub open spec fn is_writable(byte: u8) -> bool {
    0x20 <= byte <= 0x7e || byte == NEWLINE
}

/// The byte that is written for `byte` of a text: the byte itself where it is
/// printable ASCII or the newline, the replacement glyph otherwise.
pub open spec fn glyph_for(byte: u8) -> u8 {
    if is_writable(byte) {
        byte
    } else {
        REPLACEMENT_GLYPH
    }
}

/// A character of ASCII is one byte in UTF-8, the character's own code.
pub proof fn lemma_ascii_char(c: char)
    requires
        c as u32 <= 0x7f,
    ensures
        encode_scalar(c as u32) == seq![c as u8],
{
    let v = c as u32;
    assert((v & 0x7f) as u8 == v as u8) by (bit_vector)
        requires
            v <= 0x7f,
    ;
}

/// A character outside ASCII is two to four bytes in UTF-8, none of them
/// below `0x80`: each is shown as the replacement glyph.
pub proof fn lemma_wide_char(c: char)
    requires
        c as u32 > 0x7f,
    ensures
        2 <= encode_scalar(c as u32).len() <= 4,
        forall|i: int|
            0 <= i < encode_scalar(c as u32).len() ==> (#[trigger] encode_scalar(c as u32)[i])
                >= 0x80,
        forall|i: int|
            0 <= i < encode_scalar(c as u32).len() ==> glyph_for(
                #[trigger] encode_scalar(c as u32)[i],
            ) == REPLACEMENT_GLYPH,
{
    let v = c as u32;
    assert({
        &&& (0xC0u8 | ((v >> 6) & 0x1F) as u8) >= 0x80
        &&& (0xE0u8 | ((v >> 12) & 0x0F) as u8) >= 0x80
        &&& (0xF0u8 | ((v >> 18) & 0x7) as u8) >= 0x80
        &&& (0x80u8 | (v & 0x3F) as u8) >= 0x80
        &&& (0x80u8 | ((v >> 6) & 0x3F) as u8) >= 0x80
        &&& (0x80u8 | ((v >> 12) & 0x3F) as u8) >= 0x80
    }) by (bit_vector);
}

} // verus!
