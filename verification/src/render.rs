//! What a frame draws: one command per cell of the grid.
//!
//! The commands come column after column, each column from the top row
//! down. A filled cell and an empty one get different glyphs. Both are drawn
//! in one fixed display color: the color stored in a cell is not consulted.

use vstd::prelude::*;
use vstd::arithmetic::div_mod::{
    lemma_div_pos_is_pos, lemma_fundamental_div_mod, lemma_fundamental_div_mod_converse,
    lemma_mod_bound,
};
use crate::cell::Color;
use crate::grid::{Grid, GridView};

verus! {

/// The glyph of a filled cell.
pub const FILLED_GLYPH: &'static str = "██";

/// The glyph of an empty cell.
pub const EMPTY_GLYPH: &'static str = " ";

/// The one color everything is drawn in.
pub open spec fn spec_display_color() -> Color {
    Color::Cyan
}

/// The one color everything is drawn in.
#[verifier::when_used_as_spec(spec_display_color)]
pub fn display_color() -> (color: Color)
    ensures
        color == spec_display_color(),
{
    Color::Cyan
}

/// The glyph for a cell that is filled or not.
pub open spec fn spec_glyph(filled: bool) -> &'static str {
    if filled {
        FILLED_GLYPH
    } else {
        EMPTY_GLYPH
    }
}

/// The glyph for a cell that is filled or not.
#[verifier::when_used_as_spec(spec_glyph)]
pub fn glyph(filled: bool) -> (glyph: &'static str)
    ensures
        glyph == spec_glyph(filled),
{
    if filled {
        FILLED_GLYPH
    } else {
        EMPTY_GLYPH
    }
}

/// An instruction to draw one cell: move the cursor to column `x`, row `y`
/// and print the glyph for `filled` in the display color.
#[derive(Clone, Copy, Debug, PartialEq, Eq, Structural)]
pub struct DrawCommand {
    pub x: usize,
    pub y: usize,
    pub filled: bool,
}

/// The command that draws the cell at `(x, y)`.
pub open spec fn command_at(grid: GridView, x: int, y: int) -> DrawCommand {
    DrawCommand { x: x as usize, y: y as usize, filled: grid.cells[(x, y)].filled }
}

/// The commands of a frame, in drawing order.
pub open spec fn draw_list(grid: GridView) -> Seq<DrawCommand> {
    Seq::new(
        grid.width * grid.height,
        |k: int| command_at(grid, k / (grid.height as int), k % (grid.height as int)),
    )
}

/// Every cell is drawn once, at its own position: the command for the cell
/// at `(x, y)` stands at place `x * height + y` of the list, and the list has
/// one place per cell.
pub proof fn lemma_draw_list_at(grid: GridView, x: int, y: int)
    requires
        grid.wf(),
        grid.width <= usize::MAX,
        grid.height <= usize::MAX,
        grid.contains(x, y),
    ensures
        draw_list(grid).len() == grid.width * grid.height,
        0 <= x * grid.height + y < draw_list(grid).len(),
        draw_list(grid)[x * grid.height + y] == command_at(grid, x, y),
        command_at(grid, x, y).x == x,
        command_at(grid, x, y).y == y,
        command_at(grid, x, y).filled == grid.cells[(x, y)].filled,
{
    let height: int = grid.height as int;
    lemma_fundamental_div_mod_converse(x * height + y, height, x, y);
    assert(x * height >= 0) by (nonlinear_arith)
        requires
            x >= 0,
            height >= 0,
    ;
    assert((x + 1) * height <= grid.width * height) by (nonlinear_arith)
        requires
            x + 1 <= grid.width,
            height >= 0,
    ;
    assert((x + 1) * height == x * height + height) by (nonlinear_arith);
}

/// The colors stored in the cells play no part in what is drawn: two grids
/// of the same dimensions that agree on which cells are filled are drawn
/// alike.
pub proof fn lemma_draw_ignores_stored_color(first: GridView, second: GridView)
    requires
        first.wf(),
        second.wf(),
        first.width == second.width,
        first.height == second.height,
        forall|x: int, y: int|
            first.contains(x, y) ==> (#[trigger] first.cells[(x, y)]).filled == second.cells[(x, y)].filled,
    ensures
        draw_list(first) == draw_list(second),
{
    let height: int = first.height as int;
    assert forall|k: int| 0 <= k < first.width * first.height implies draw_list(first)[k] == draw_list(
        second,
    )[k] by {
        assert(height > 0) by (nonlinear_arith)
            requires
                0 <= k < first.width * height,
                first.width >= 0,
                height >= 0,
        ;
        lemma_fundamental_div_mod(k, height);
        lemma_mod_bound(k, height);
        lemma_div_pos_is_pos(k, height);
        let x: int = k / height;
        let y: int = k % height;
        assert(x < first.width) by (nonlinear_arith)
            requires
                k == height * x + y,
                0 <= y < height,
                k < first.width * height,
                first.width >= 0,
        ;
        assert(first.contains(x, y));
        assert(first.cells[(x, y)].filled == second.cells[(x, y)].filled);
    }
    assert(draw_list(first) =~= draw_list(second));
}

/// The commands that draw every cell of the grid.
pub fn draw(grid: &Grid) -> (commands: Vec<DrawCommand>)
    ensures
        commands@ == draw_list(grid@),
{
    let width: usize = grid.width();
    let height: usize = grid.height();
    let mut commands: Vec<DrawCommand> = Vec::new();
    let mut x: usize = 0;
    while x < width
        invariant
            x <= width,
            width == grid@.width,
            height == grid@.height,
            commands@.len() == x * height,
            forall|k: int| 0 <= k < commands@.len() ==> #[trigger] commands@[k] == draw_list(grid@)[k],
        decreases width - x,
    {
        let mut y: usize = 0;
        while y < height
            invariant
                x < width,
                y <= height,
                width == grid@.width,
                height == grid@.height,
                commands@.len() == x * height + y,
                forall|k: int| 0 <= k < commands@.len() ==> #[trigger] commands@[k] == draw_list(grid@)[k],
            decreases height - y,
        {
            let filled: bool = grid.cell(x, y).filled;
            proof {
                let k: int = x * height + y;
                lemma_fundamental_div_mod_converse(k, height as int, x as int, y as int);
                assert((x + 1) * height <= width * height) by (nonlinear_arith)
                    requires
                        x + 1 <= width,
                        height >= 0,
                ;
                assert((x + 1) * height == x * height + height) by (nonlinear_arith);
            }
            commands.push(DrawCommand { x, y, filled });
            y += 1;
        }
        assert((x + 1) * height == x * height + height) by (nonlinear_arith);
        x += 1;
    }
    commands
}

} // verus!
