//! The character cell and the fixed grid of cells behind the display.
//!
//! The display shows what lies in a region of memory: 25 rows of 80 cells,
//! row after row, each cell a glyph byte followed by an attribute byte. Every
//! access to a cell goes through [`volatile::Volatile`], so that the compiler
//! neither drops nor reorders it.

use vstd::prelude::*;
use volatile::Volatile;
use crate::color::ColorCode;

verus! {

/// The number of rows of the display.
pub const VGA_BUFFER_HEIGHT: usize = 25;

/// The number of cells in a row of the display.
pub const VGA_BUFFER_WIDTH: usize = 80;

/// One cell of the display: the code of a glyph and the attribute it is
/// drawn with.
#[derive(Debug, Clone, Copy, PartialEq, Eq, Structural)]
pub struct ScreenChar {
    pub ascii_character: u8,
    pub color_code: ColorCode,
}

/// `volatile::Volatile<T>`, a wrapper around one value of a `Copy` type whose
/// reads and writes are volatile. Nothing of its inside is visible here.
#[verifier::external_type_specification]
#[verifier::external_body]
#[verifier::reject_recursive_types(T)]
pub struct ExVolatile<T: Copy>(volatile::Volatile<T>);

/// The value that a volatile cell wraps: what `Volatile::read` returns and
/// what the last `Volatile::write` put there.
pub uninterp spec fn held(cell: Volatile<ScreenChar>) -> ScreenChar;

/// Calls `Volatile::write`, which performs one volatile write of `value` over
/// the wrapped value. The contract claims that the cell then wraps `value`,
/// and that the call never panics, as the crate documents.
#[verifier::external_body]
fn volatile_write(cell: &mut Volatile<ScreenChar>, value: ScreenChar)
    ensures
        held(*final(cell)) == value,
    no_unwind
{
    cell.write(value)
}

/// Calls `Volatile::read`, which performs one volatile read and returns a
/// copy of the wrapped value. The contract claims that the result is the
/// wrapped value.
#[verifier::external_body]
fn volatile_read(cell: &Volatile<ScreenChar>) -> (value: ScreenChar)
    ensures
        value == held(*cell),
{
    cell.read()
}

/// The grid of cells that the display shows.
///
/// A `Buffer` is not made by this library: it is the device's memory, lent by
/// whoever mapped it, or an array in ordinary memory that stands in for it.
pub struct Buffer {
    pub chars: [[Volatile<ScreenChar>; VGA_BUFFER_WIDTH]; VGA_BUFFER_HEIGHT],
}

impl View for Buffer {
    type V = Seq<Seq<ScreenChar>>;

    /// The cells as the display shows them: `self@[row][column]`.
    open spec fn view(&self) -> Seq<Seq<ScreenChar>> {
        Seq::new(
            VGA_BUFFER_HEIGHT as nat,
            |row: int|
                Seq::new(VGA_BUFFER_WIDTH as nat, |column: int| held(self.chars[row][column])),
        )
    }
}

/// Whether `grid` has the shape of the display: 25 rows of 80 cells.
pub open spec fn is_grid(grid: Seq<Seq<ScreenChar>>) -> bool {
    &&& grid.len() == VGA_BUFFER_HEIGHT
    &&& forall|row: int|
        0 <= row < VGA_BUFFER_HEIGHT ==> (#[trigger] grid[row]).len() == VGA_BUFFER_WIDTH
}

/// `grid` with the cell at `row`, `column` replaced by `cell`.
pub open spec fn grid_with(
    grid: Seq<Seq<ScreenChar>>,
    row: int,
    column: int,
    cell: ScreenChar,
) -> Seq<Seq<ScreenChar>> {
    grid.update(row, grid[row].update(column, cell))
}

impl Buffer {
    /// Every buffer has the shape of the display.
    pub proof fn lemma_is_grid(&self)
        ensures
            is_grid(self@),
    {
    }

    /// Reads the cell at `row`, `column`.
    pub fn read(&self, row: usize, column: usize) -> (cell: ScreenChar)
        requires
            row < VGA_BUFFER_HEIGHT,
            column < VGA_BUFFER_WIDTH,
        ensures
            cell == self@[row as int][column as int],
    {
        volatile_read(&self.chars[row][column])
    }

    /// Writes `cell` at `row`, `column`; every other cell stays as it was.
    pub fn write(&mut self, row: usize, column: usize, cell: ScreenChar)
        requires
            row < VGA_BUFFER_HEIGHT,
            column < VGA_BUFFER_WIDTH,
        ensures
            final(self)@ == grid_with(old(self)@, row as int, column as int, cell),
        no_unwind
    {
        volatile_write(&mut self.chars[row][column], cell);
        proof {
            let expected = grid_with(old(self)@, row as int, column as int, cell);
            assert forall|r: int| 0 <= r < VGA_BUFFER_HEIGHT implies self@[r] =~= expected[r] by {}
        }
    }
}

} // verus!
