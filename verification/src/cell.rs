//! Cells: the unit of storage of the grid.

use vstd::prelude::*;

verus! {

/// The palette of piece colors.
#[derive(Clone, Copy, Debug, PartialEq, Eq, Structural)]
pub enum Color {
    Cyan,
    Red,
    Green,
    Yellow,
    Blue,
}

/// One grid cell: empty, or filled with a color.
///
/// `color` carries meaning only while `filled` holds; an unfilled cell keeps
/// whatever color it was last given.
#[derive(Clone, Copy, Debug, PartialEq, Eq, Structural)]
pub struct Cell {
    pub filled: bool,
    pub color: Color,
}

impl Cell {
    /// The cell of a fresh grid.
    pub open spec fn spec_empty() -> Cell {
        Cell { filled: false, color: Color::Cyan }
    }

    /// The cell of a fresh grid: unfilled, with the default color.
    #[verifier::when_used_as_spec(spec_empty)]
    pub fn empty() -> (cell: Cell)
        ensures
            cell == Cell::spec_empty(),
    {
        Cell { filled: false, color: Color::Cyan }
    }
}

} // verus!
