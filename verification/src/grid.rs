//! The grid: a fixed-size field of cells addressed by column `x` and row `y`.
//!
//! Every access is bounds-checked. A coordinate outside the grid is reported
//! as [`GridError::OutOfBounds`] and leaves the grid as it was.

use vstd::prelude::*;
use crate::cell::Cell;

verus! {

/// Why a grid access was refused.
#[derive(Clone, Copy, Debug, PartialEq, Eq, Structural)]
pub enum GridError {
    /// The coordinate lies outside `[0, width) x [0, height)`.
    OutOfBounds,
}

/// The mathematical content of a grid: its dimensions and the cell stored at
/// each coordinate inside them.
pub struct GridView {
    pub width: nat,
    pub height: nat,
    pub cells: Map<(int, int), Cell>,
}

impl GridView {
    /// Whether `(x, y)` names a cell of the grid.
    pub open spec fn contains(self, x: int, y: int) -> bool {
        0 <= x < self.width && 0 <= y < self.height
    }

    /// The cells are exactly those inside the dimensions.
    pub open spec fn wf(self) -> bool {
        forall|x: int, y: int| #[trigger] self.cells.dom().contains((x, y)) <==> self.contains(x, y)
    }

    /// The grid of the given dimensions in which every cell is empty.
    pub open spec fn blank(width: nat, height: nat) -> GridView {
        GridView {
            width,
            height,
            cells: Map::new(
                |at: (int, int)| 0 <= at.0 < width && 0 <= at.1 < height,
                |at: (int, int)| Cell::spec_empty(),
            ),
        }
    }

    /// The cell at `(x, y)`, if the grid has one there.
    pub open spec fn get(self, x: int, y: int) -> Option<Cell> {
        if self.contains(x, y) {
            Some(self.cells[(x, y)])
        } else {
            None
        }
    }

    /// The grid with `cell` stored at `(x, y)`; unchanged if `(x, y)` lies
    /// outside.
    pub open spec fn set(self, x: int, y: int, cell: Cell) -> GridView {
        if self.contains(x, y) {
            GridView { width: self.width, height: self.height, cells: self.cells.insert((x, y), cell) }
        } else {
            self
        }
    }
}

/// Write locality: a cell stored inside the grid is read back as stored, and
/// every other coordinate reads as it did before.
pub proof fn lemma_set_then_get(grid: GridView, x: int, y: int, cell: Cell, other_x: int, other_y: int)
    requires
        grid.contains(x, y),
    ensures
        grid.set(x, y, cell).get(x, y) == Some(cell),
        (other_x, other_y) != (x, y) ==> grid.set(x, y, cell).get(other_x, other_y) == grid.get(
            other_x,
            other_y,
        ),
        grid.set(x, y, cell).width == grid.width,
        grid.set(x, y, cell).height == grid.height,
{
}

/// Every cell of a blank grid is unfilled.
pub proof fn lemma_blank_unfilled(width: nat, height: nat, x: int, y: int)
    requires
        GridView::blank(width, height).contains(x, y),
    ensures
        GridView::blank(width, height).get(x, y) == Some(Cell::spec_empty()),
        !GridView::blank(width, height).cells[(x, y)].filled,
{
}

/// A grid of cells whose dimensions are fixed when it is created.
#[derive(Debug)]
pub struct Grid {
    width: usize,
    height: usize,
    /// The cells column after column, each column from row 0 down: the cell
    /// at `(x, y)` is entry `x * height + y`.
    cells: Vec<Cell>,
}

/// The position of cell `(x, y)` in column-major storage of rows `height`.
spec fn slot(x: int, y: int, height: int) -> int {
    x * height + y
}

proof fn lemma_slot_in_range(x: int, y: int, width: int, height: int)
    requires
        0 <= x < width,
        0 <= y < height,
    ensures
        0 <= slot(x, y, height) < width * height,
        x * height >= 0,
{
    assert(x * height >= 0) by (nonlinear_arith)
        requires
            x >= 0,
            height >= 0,
    ;
    assert((x + 1) * height <= width * height) by (nonlinear_arith)
        requires
            x + 1 <= width,
            height >= 0,
    ;
    assert((x + 1) * height == x * height + height) by (nonlinear_arith);
}

proof fn lemma_slot_injective(x1: int, y1: int, x2: int, y2: int, height: int)
    requires
        0 <= y1 < height,
        0 <= y2 < height,
        slot(x1, y1, height) == slot(x2, y2, height),
    ensures
        x1 == x2,
        y1 == y2,
{
    if x1 < x2 {
        assert((x1 + 1) * height <= x2 * height) by (nonlinear_arith)
            requires
                x1 + 1 <= x2,
                height >= 0,
        ;
        assert((x1 + 1) * height == x1 * height + height) by (nonlinear_arith);
    } else if x2 < x1 {
        assert((x2 + 1) * height <= x1 * height) by (nonlinear_arith)
            requires
                x2 + 1 <= x1,
                height >= 0,
        ;
        assert((x2 + 1) * height == x2 * height + height) by (nonlinear_arith);
    }
}

impl View for Grid {
    type V = GridView;

    closed spec fn view(&self) -> GridView {
        GridView {
            width: self.width as nat,
            height: self.height as nat,
            cells: Map::new(
                |at: (int, int)| 0 <= at.0 < self.width && 0 <= at.1 < self.height,
                |at: (int, int)| self.cells@[slot(at.0, at.1, self.height as int)],
            ),
        }
    }
}

impl Grid {
    #[verifier::type_invariant]
    spec fn well_formed(self) -> bool {
        self.cells@.len() == self.width * self.height
    }

    /// The view of a grid holds exactly the cells inside its dimensions.
    pub proof fn lemma_view_wf(&self)
        ensures
            self@.wf(),
    {
    }

    /// A grid of `width` columns and `height` rows with every cell empty.
    pub fn new(width: usize, height: usize) -> (grid: Grid)
        ensures
            grid@ == GridView::blank(width as nat, height as nat),
            grid@.wf(),
            forall|x: int, y: int| grid@.contains(x, y) ==> !(#[trigger] grid@.cells[(x, y)]).filled,
    {
        let mut cells: Vec<Cell> = Vec::new();
        let mut x: usize = 0;
        while x < width
            invariant
                x <= width,
                cells@.len() == x * height,
                forall|i: int| 0 <= i < cells@.len() ==> (#[trigger] cells@[i]) == Cell::spec_empty(),
            decreases width - x,
        {
            let mut y: usize = 0;
            while y < height
                invariant
                    y <= height,
                    cells@.len() == x * height + y,
                    forall|i: int| 0 <= i < cells@.len() ==> (#[trigger] cells@[i]) == Cell::spec_empty(),
                decreases height - y,
            {
                cells.push(Cell::empty());
                y += 1;
            }
            assert((x + 1) * height == x * height + height) by (nonlinear_arith);
            x += 1;
        }
        let grid = Grid { width, height, cells };
        assert forall|at: (int, int)| #[trigger] grid@.cells.dom().contains(at) implies grid@.cells[at]
            == Cell::spec_empty() by {
            lemma_slot_in_range(at.0, at.1, width as int, height as int);
        }
        assert(grid@.cells =~= GridView::blank(width as nat, height as nat).cells);
        grid
    }

    /// The number of columns.
    pub fn width(&self) -> (width: usize)
        ensures
            width == self@.width,
    {
        self.width
    }

    /// The number of rows.
    pub fn height(&self) -> (height: usize)
        ensures
            height == self@.height,
    {
        self.height
    }

    /// The cell at column `x`, row `y` of a coordinate known to lie inside.
    pub(crate) fn cell(&self, x: usize, y: usize) -> (cell: Cell)
        requires
            self@.contains(x as int, y as int),
        ensures
            cell == self@.cells[(x as int, y as int)],
    {
        proof {
            use_type_invariant(self);
            lemma_slot_in_range(x as int, y as int, self.width as int, self.height as int);
            assert(self.cells@.len() == self.cells.len());
        }
        self.cells[x * self.height + y]
    }

    /// The cell at column `x`, row `y`.
    pub fn get(&self, x: usize, y: usize) -> (found: Result<Cell, GridError>)
        ensures
            found == match self@.get(x as int, y as int) {
                Some(cell) => Ok::<Cell, GridError>(cell),
                None => Err::<Cell, GridError>(GridError::OutOfBounds),
            },
    {
        if x < self.width && y < self.height {
            Ok(self.cell(x, y))
        } else {
            Err(GridError::OutOfBounds)
        }
    }

    /// Stores `cell` at column `x`, row `y`. No other cell changes, and a
    /// coordinate outside the grid changes nothing at all.
    pub fn set(&mut self, x: usize, y: usize, cell: Cell) -> (stored: Result<(), GridError>)
        ensures
            final(self)@ == old(self)@.set(x as int, y as int, cell),
            stored == if old(self)@.contains(x as int, y as int) {
                Ok::<(), GridError>(())
            } else {
                Err::<(), GridError>(GridError::OutOfBounds)
            },
            final(self)@.wf(),
    {
        proof {
            use_type_invariant(&*self);
        }
        if x < self.width && y < self.height {
            proof {
                lemma_slot_in_range(x as int, y as int, self.width as int, self.height as int);
                assert(self.cells@.len() == self.cells.len());
            }
            let at: usize = x * self.height + y;
            self.cells[at] = cell;
            proof {
                let height: int = self.height as int;
                assert forall|p: (int, int)| #[trigger] self@.cells.dom().contains(p) implies self@.cells[p]
                    == old(self)@.set(x as int, y as int, cell).cells[p] by {
                    lemma_slot_in_range(p.0, p.1, self.width as int, height);
                    if p != (x as int, y as int) {
                        if slot(p.0, p.1, height) == slot(x as int, y as int, height) {
                            lemma_slot_injective(p.0, p.1, x as int, y as int, height);
                        }
                    }
                }
                assert(self@.cells =~= old(self)@.set(x as int, y as int, cell).cells);
            }
            Ok(())
        } else {
            Err(GridError::OutOfBounds)
        }
    }
}

} // verus!
