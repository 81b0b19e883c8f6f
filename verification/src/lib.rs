//! A text writer for a memory-mapped character display.
//!
//! A VGA-compatible adapter in text mode shows 25 rows of 80 character cells
//! that it reads from memory. This crate turns bytes and strings into cells
//! of that grid:
//!
//! - [`color`]: the sixteen colors and the attribute byte of a color pair;
//! - [`grid`]: the cell, and the grid of cells, reached by volatile accesses;
//! - [`text`]: which glyph each byte of a text is shown as;
//! - [`state`]: the writer as a mathematical value, and the laws it obeys;
//! - [`writer`]: the writer itself, a cursor on the last row of the grid;
//! - [`greeting`]: the message shown at start-up.
//!
//! The grid is lent to the writer by whoever owns it: the start-up code of a
//! machine, which binds the adapter's memory, or a program that keeps an
//! array in ordinary memory.

pub mod color;
pub mod grid;
pub mod text;
pub mod state;
pub mod writer;
pub mod greeting;
