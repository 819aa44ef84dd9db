//! What the step does to a few well-known patterns, proved for every grid
//! and every position of the pattern on it.

use vstd::prelude::*;
use crate::cell::Cell;
use crate::grid::{lemma_after, lemma_index_onto, lemma_step, lemma_wrap, wrap, Grid};

verus! {

/// No cell of the grid is alive.
pub open spec fn all_dead(g: Grid) -> bool {
    forall|row: int, col: int| g.contains(row, col) ==> #[trigger] g.at(row, col) == Cell::Dead
}

/// The live cells of the grid are exactly the two by two square whose upper
/// left corner is `(row, col)`.
pub open spec fn is_block(g: Grid, row: int, col: int) -> bool {
    forall|r: int, c: int|
        g.contains(r, c) ==> (#[trigger] g.at(r, c) == Cell::Alive <==> {
            &&& r == row || r == wrap(row + 1, g.height)
            &&& c == col || c == wrap(col + 1, g.width)
        })
}

/// The live cells of the grid are exactly three in a row, lying in row
/// `row` with the middle one in column `col`.
pub open spec fn is_horizontal_blinker(g: Grid, row: int, col: int) -> bool {
    forall|r: int, c: int|
        g.contains(r, c) ==> (#[trigger] g.at(r, c) == Cell::Alive <==> {
            &&& r == row
            &&& c == wrap(col - 1, g.width) || c == col || c == wrap(col + 1, g.width)
        })
}

/// The live cells of the grid are exactly three in a column, standing in
/// column `col` with the middle one in row `row`.
pub open spec fn is_vertical_blinker(g: Grid, row: int, col: int) -> bool {
    forall|r: int, c: int|
        g.contains(r, c) ==> (#[trigger] g.at(r, c) == Cell::Alive <==> {
            &&& c == col
            &&& r == wrap(row - 1, g.height) || r == row || r == wrap(row + 1, g.height)
        })
}

/// Two well-formed grids of the same dimensions are the same grid when
/// they agree cell by cell.
pub proof fn lemma_same_cells(a: Grid, b: Grid)
    requires
        a.wf(),
        b.wf(),
        a.width == b.width,
        a.height == b.height,
        forall|row: int, col: int|
            a.contains(row, col) ==> #[trigger] a.at(row, col) == b.at(row, col),
    ensures
        a == b,
{
    assert forall|i: int| 0 <= i < a.cells.len() implies a.cells[i] == b.cells[i] by {
        lemma_index_onto(a, i);
        let row = i / (a.width as int);
        let col = i % (a.width as int);
        assert(a.at(row, col) == b.at(row, col));
    }
    assert(a.cells =~= b.cells);
}

/// The neighbours of a cell, named by where they lie on the torus.
proof fn lemma_neighbors(g: Grid, row: int, col: int)
    requires
        g.wf(),
        g.contains(row, col),
    ensures
        wrap(row + 0, g.height) == row,
        wrap(col + 0, g.width) == col,
        wrap(row - 1, g.height) == if row == 0 {
            g.height - 1
        } else {
            row - 1
        },
        wrap(row + 1, g.height) == if row == g.height - 1 {
            0
        } else {
            row + 1
        },
        wrap(col - 1, g.width) == if col == 0 {
            g.width - 1
        } else {
            col - 1
        },
        wrap(col + 1, g.width) == if col == g.width - 1 {
            0
        } else {
            col + 1
        },
{
    lemma_wrap(row, g.height);
    lemma_wrap(row - 1, g.height);
    lemma_wrap(row + 1, g.height);
    lemma_wrap(col, g.width);
    lemma_wrap(col - 1, g.width);
    lemma_wrap(col + 1, g.width);
}

/// Neighbourhood wraps around both edges, each with its own modulus: the
/// cell above row 0 lies in the last row and the cell left of column 0 in
/// the last column, and the other way round.
pub proof fn lemma_edges_wrap(g: Grid, row: int, col: int)
    requires
        g.wf(),
        g.contains(row, col),
    ensures
        g.neighbor(0, col, -1, 0) == g.at(g.height - 1, col),
        g.neighbor(g.height - 1, col, 1, 0) == g.at(0, col),
        g.neighbor(row, 0, 0, -1) == g.at(row, g.width - 1),
        g.neighbor(row, g.width - 1, 0, 1) == g.at(row, 0),
{
    lemma_neighbors(g, 0, col);
    lemma_neighbors(g, g.height - 1, col);
    lemma_neighbors(g, row, 0);
    lemma_neighbors(g, row, g.width - 1);
}

/// Being a neighbour is symmetric: a step by `(d_row, d_col)` followed by
/// the opposite step leads back to the cell it started from.
pub proof fn lemma_neighbor_symmetric(g: Grid, row: int, col: int, d_row: int, d_col: int)
    requires
        g.wf(),
        g.contains(row, col),
        -1 <= d_row <= 1,
        -1 <= d_col <= 1,
    ensures
        g.contains(wrap(row + d_row, g.height), wrap(col + d_col, g.width)),
        wrap(wrap(row + d_row, g.height) - d_row, g.height) == row,
        wrap(wrap(col + d_col, g.width) - d_col, g.width) == col,
{
    lemma_wrap(row + d_row, g.height);
    lemma_wrap(col + d_col, g.width);
    lemma_wrap(wrap(row + d_row, g.height) - d_row, g.height);
    lemma_wrap(wrap(col + d_col, g.width) - d_col, g.width);
}

/// A live cell with fewer than two live neighbours, a lone cell above all,
/// is dead in the next generation.
pub proof fn lemma_lonely_cell_dies(g: Grid, row: int, col: int)
    requires
        g.wf(),
        g.contains(row, col),
        g.neighbor_count(row, col) < 2,
    ensures
        g.step().at(row, col) == Cell::Dead,
{
    lemma_step(g);
}

/// One step leaves an empty grid as it is.
proof fn lemma_dead_step(g: Grid)
    requires
        g.wf(),
        all_dead(g),
    ensures
        g.step() == g,
{
    lemma_step(g);
    assert forall|row: int, col: int| g.contains(row, col) implies #[trigger] g.step().at(
        row,
        col,
    ) == g.at(row, col) by {
        lemma_neighbors(g, row, col);
    }
    lemma_same_cells(g.step(), g);
}

/// Nothing is born on an empty grid: after any number of steps it is the
/// same grid, still without a live cell.
pub proof fn lemma_dead_stays_dead(g: Grid, n: nat)
    requires
        g.wf(),
        all_dead(g),
    ensures
        g.after(n) == g,
        all_dead(g.after(n)),
    decreases n,
{
    if n > 0 {
        lemma_dead_step(g);
        lemma_dead_stays_dead(g, (n - 1) as nat);
    }
}

/// Each cell of a block has exactly three live neighbours, the rest of the
/// block, on a grid of at least four rows and four columns.
pub proof fn lemma_block_cell_has_three_neighbors(g: Grid, row: int, col: int, r: int, c: int)
    requires
        g.wf(),
        g.width >= 4,
        g.height >= 4,
        g.contains(row, col),
        is_block(g, row, col),
        g.contains(r, c),
        g.at(r, c) == Cell::Alive,
    ensures
        g.neighbor_count(r, c) == 3,
{
    lemma_neighbors(g, row, col);
    lemma_neighbors(g, r, c);
}

/// One step leaves a block as it is.
proof fn lemma_block_step(g: Grid, row: int, col: int)
    requires
        g.wf(),
        g.width >= 4,
        g.height >= 4,
        g.contains(row, col),
        is_block(g, row, col),
    ensures
        g.step() == g,
{
    lemma_step(g);
    lemma_neighbors(g, row, col);
    assert forall|r: int, c: int| g.contains(r, c) implies #[trigger] g.step().at(r, c) == g.at(
        r,
        c,
    ) by {
        lemma_neighbors(g, r, c);
    }
    lemma_same_cells(g.step(), g);
}

/// A block is a still life: on a grid of at least four rows and four
/// columns it is unchanged after any number of steps.
pub proof fn lemma_block_is_still(g: Grid, row: int, col: int, n: nat)
    requires
        g.wf(),
        g.width >= 4,
        g.height >= 4,
        g.contains(row, col),
        is_block(g, row, col),
    ensures
        g.after(n) == g,
    decreases n,
{
    if n > 0 {
        lemma_block_step(g, row, col);
        lemma_block_is_still(g, row, col, (n - 1) as nat);
    }
}

/// A horizontal blinker turns, in one step, into the vertical blinker with
/// the same centre, on a grid of at least four rows and four columns.
pub proof fn lemma_blinker_turns_upright(g: Grid, row: int, col: int)
    requires
        g.wf(),
        g.width >= 4,
        g.height >= 4,
        g.contains(row, col),
        is_horizontal_blinker(g, row, col),
    ensures
        is_vertical_blinker(g.step(), row, col),
{
    lemma_step(g);
    lemma_neighbors(g, row, col);
    assert forall|r: int, c: int| g.contains(r, c) implies (#[trigger] g.step().at(r, c)
        == Cell::Alive <==> {
        &&& c == col
        &&& r == wrap(row - 1, g.height) || r == row || r == wrap(row + 1, g.height)
    }) by {
        lemma_neighbors(g, r, c);
    }
}

/// A vertical blinker turns, in one step, into the horizontal blinker with
/// the same centre, on a grid of at least four rows and four columns.
pub proof fn lemma_blinker_turns_flat(g: Grid, row: int, col: int)
    requires
        g.wf(),
        g.width >= 4,
        g.height >= 4,
        g.contains(row, col),
        is_vertical_blinker(g, row, col),
    ensures
        is_horizontal_blinker(g.step(), row, col),
{
    lemma_step(g);
    lemma_neighbors(g, row, col);
    assert forall|r: int, c: int| g.contains(r, c) implies (#[trigger] g.step().at(r, c)
        == Cell::Alive <==> {
        &&& r == row
        &&& c == wrap(col - 1, g.width) || c == col || c == wrap(col + 1, g.width)
    }) by {
        lemma_neighbors(g, r, c);
    }
}

/// Two grids of the same dimensions with the same live cells are the same
/// grid.
proof fn lemma_same_live_cells(a: Grid, b: Grid)
    requires
        a.wf(),
        b.wf(),
        a.width == b.width,
        a.height == b.height,
        forall|row: int, col: int|
            a.contains(row, col) ==> (#[trigger] a.at(row, col) == Cell::Alive <==> b.at(row, col)
                == Cell::Alive),
    ensures
        a == b,
{
    assert forall|row: int, col: int| a.contains(row, col) implies #[trigger] a.at(row, col)
        == b.at(row, col) by {
        assert(a.at(row, col) == Cell::Alive <==> b.at(row, col) == Cell::Alive);
    }
    lemma_same_cells(a, b);
}

/// A blinker has period two: two steps bring back the grid it started
/// from, whichever way the blinker lies.
pub proof fn lemma_blinker_period(g: Grid, row: int, col: int)
    requires
        g.wf(),
        g.width >= 4,
        g.height >= 4,
        g.contains(row, col),
        is_horizontal_blinker(g, row, col) || is_vertical_blinker(g, row, col),
    ensures
        g.after(2) == g,
{
    let turned = g.step();
    let back = turned.step();
    lemma_after(g, 1);
    lemma_after(g, 2);
    assert(g.after(1) == turned && g.after(2) == back) by {
        reveal_with_fuel(Grid::after, 3);
    }
    if is_horizontal_blinker(g, row, col) {
        lemma_blinker_turns_upright(g, row, col);
        lemma_blinker_turns_flat(turned, row, col);
    } else {
        lemma_blinker_turns_flat(g, row, col);
        lemma_blinker_turns_upright(turned, row, col);
    }
    assert forall|r: int, c: int| back.contains(r, c) implies (#[trigger] back.at(r, c)
        == Cell::Alive <==> g.at(r, c) == Cell::Alive) by {
        assert(g.contains(r, c));
    }
    lemma_same_live_cells(back, g);
}

} // verus!
