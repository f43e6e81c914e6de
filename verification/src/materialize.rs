//! Materialization: writing the cells that a piece occupies into the grid.
//!
//! Only the `I` shape has cells: four in a column, from the anchor down.
//! All four are marked as filled; the piece's color is stored in the last of
//! them only, and the other three keep the color they held. The other shapes
//! write nothing.
//!
//! The piece's anchor is not confined to the grid. A cell of the piece that
//! falls outside is skipped, the cells inside are still written, and the
//! outcome reports that something was skipped.

use vstd::prelude::*;
use crate::cell::Cell;
use crate::grid::{Grid, GridError, GridView};
use crate::piece::{Piece, PieceView, Shape};

verus! {

/// The number of cells of the `I` shape.
pub const I_LENGTH: u8 = 4;

/// Whether the piece occupies the cell `(x, y)`.
pub open spec fn occupies(piece: PieceView, x: int, y: int) -> bool {
    piece.shape == Shape::I && x == piece.x && piece.y <= y < piece.y + I_LENGTH
}

/// Whether `(x, y)` is the one cell of the piece that takes its color.
pub open spec fn takes_color(piece: PieceView, x: int, y: int) -> bool {
    occupies(piece, x, y) && y == piece.y + I_LENGTH - 1
}

/// What a cell holds once the piece was written over it.
pub open spec fn stamped(cell: Cell, piece: PieceView, x: int, y: int) -> Cell {
    if takes_color(piece, x, y) {
        Cell { filled: true, color: piece.color }
    } else if occupies(piece, x, y) {
        Cell { filled: true, color: cell.color }
    } else {
        cell
    }
}

/// The grid after the piece was written into it.
pub open spec fn materialized(grid: GridView, piece: PieceView) -> GridView {
    GridView {
        width: grid.width,
        height: grid.height,
        cells: Map::new(
            |at: (int, int)| grid.contains(at.0, at.1),
            |at: (int, int)| stamped(grid.cells[at], piece, at.0, at.1),
        ),
    }
}

/// Whether every cell of the piece lies inside the grid.
pub open spec fn fits(grid: GridView, piece: PieceView) -> bool {
    forall|x: int, y: int| #[trigger] occupies(piece, x, y) ==> grid.contains(x, y)
}

/// The grid after the first `rows` cells of the piece were written into it.
spec fn materialized_upto(grid: GridView, piece: PieceView, rows: int) -> GridView {
    GridView {
        width: grid.width,
        height: grid.height,
        cells: Map::new(
            |at: (int, int)| grid.contains(at.0, at.1),
            |at: (int, int)|
                if at.1 < piece.y + rows {
                    stamped(grid.cells[at], piece, at.0, at.1)
                } else {
                    grid.cells[at]
                },
        ),
    }
}

/// Whether the first `rows` cells of the piece lie inside the grid.
spec fn fits_upto(grid: GridView, piece: PieceView, rows: int) -> bool {
    forall|x: int, y: int| #[trigger] occupies(piece, x, y) && y < piece.y + rows ==> grid.contains(x, y)
}

/// The storage coordinates of the cell `down` rows below `(x, y)`, if the
/// grid has such a cell.
fn locate(grid: &Grid, x: i64, y: i64, down: u8) -> (at: Option<(usize, usize)>)
    ensures
        match at {
            Some((column, row)) => grid@.contains(x as int, y + down) && column == x && row == y + down,
            None => !grid@.contains(x as int, y + down),
        },
{
    let width: usize = grid.width();
    let height: usize = grid.height();
    let row: i128 = y as i128 + down as i128;
    if x < 0 || row < 0 {
        return None;
    }
    if x as u64 >= width as u64 || row >= height as i128 {
        return None;
    }
    Some((x as usize, row as usize))
}

/// Writes the piece into the grid.
///
/// Returns `Err(OutOfBounds)` if and only if some cell of the piece lies
/// outside the grid. Such cells are skipped; the grid holds the rest of the
/// piece either way.
pub fn materialize(grid: &mut Grid, piece: &Piece) -> (outcome: Result<(), GridError>)
    ensures
        final(grid)@ == materialized(old(grid)@, piece@),
        final(grid)@.wf(),
        outcome == if fits(old(grid)@, piece@) {
            Ok::<(), GridError>(())
        } else {
            Err::<(), GridError>(GridError::OutOfBounds)
        },
{
    let ghost before = grid@;
    proof {
        grid.lemma_view_wf();
    }
    match piece.shape {
        Shape::I => {},
        _ => {
            assert(materialized(before, piece@).cells =~= before.cells);
            return Ok(());
        },
    }
    let mut complete = true;
    let mut down: u8 = 0;
    assert(materialized_upto(before, piece@, 0).cells =~= before.cells);
    while down < I_LENGTH
        invariant
            down <= I_LENGTH,
            piece.shape == Shape::I,
            before.wf(),
            grid@.wf(),
            grid@ == materialized_upto(before, piece@, down as int),
            complete == fits_upto(before, piece@, down as int),
        decreases I_LENGTH - down,
    {
        let written = match locate(grid, piece.x, piece.y, down) {
            Some((column, row)) => {
                let color = if down == I_LENGTH - 1 {
                    piece.color
                } else {
                    grid.cell(column, row).color
                };
                grid.set(column, row, Cell { filled: true, color }).is_ok()
            },
            None => false,
        };
        assert(written == before.contains(piece@.x, piece@.y + down));
        assert(fits_upto(before, piece@, down + 1) == (complete && written)) by {
            if !written {
                assert(occupies(piece@, piece@.x, piece@.y + down));
            } else if complete {
                assert forall|x: int, y: int| #[trigger]
                    occupies(piece@, x, y) && y < piece@.y + (down + 1) implies before.contains(x, y) by {
                    if y < piece@.y + down {
                        assert(occupies(piece@, x, y) && y < piece@.y + down);
                    }
                }
            } else {
                let (x, y) = choose|x: int, y: int| #[trigger]
                    occupies(piece@, x, y) && y < piece@.y + down && !before.contains(x, y);
                assert(occupies(piece@, x, y) && y < piece@.y + (down + 1));
            }
        }
        complete = complete && written;
        assert(grid@.cells =~= materialized_upto(before, piece@, down + 1).cells);
        down += 1;
    }
    assert(grid@.cells =~= materialized(before, piece@).cells);
    assert(fits_upto(before, piece@, I_LENGTH as int) == fits(before, piece@));
    if complete {
        Ok(())
    } else {
        Err(GridError::OutOfBounds)
    }
}

} // verus!
