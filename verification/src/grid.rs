//! The mathematical model of the simulation: a grid as a sequence of cells
//! in row-major order, the toroidal neighbourhood, and one generation step.
//!
//! Nothing here is executable. The engine in [`crate::universe::Universe`]
//! is described by its view, a [`Grid`].

use vstd::prelude::*;
use vstd::arithmetic::div_mod::{
    lemma_fundamental_div_mod_converse, lemma_mod_add_multiples_vanish, lemma_small_mod,
};
use vstd::arithmetic::mul::{lemma_mul_inequality, lemma_mul_is_commutative};
use crate::cell::{cell_of, rule, Cell};
use crate::error::GridError;

verus! {

/// A position on a ring of `len` places: `pos` reduced into `0..len`.
///
/// Positions one step off either end come back on the other side.
pub open spec fn wrap(pos: int, len: nat) -> int {
    pos % (len as int)
}

/// What is wrong with a pair of dimensions, if anything: neither may be
/// zero, and their product must fit in 32 bits.
pub open spec fn dimension_error(width: nat, height: nat) -> Option<GridError> {
    if width == 0 || height == 0 {
        Some(GridError::ZeroDimension)
    } else if width * height > u32::MAX {
        Some(GridError::TooLarge)
    } else {
        None
    }
}

/// The cells that a sequence of drawn bits stands for, one for one.
pub open spec fn cells_of(bits: Seq<bool>) -> Seq<Cell> {
    Seq::new(bits.len(), |i: int| cell_of(bits[i]))
}

/// A generation: `height` rows of `width` cells, stored row after row.
pub struct Grid {
    pub width: nat,
    pub height: nat,
    pub cells: Seq<Cell>,
}

impl Grid {
    /// A grid is well formed when it has at least one row and one column,
    /// holds exactly `width * height` cells, and that count fits in 32 bits.
    pub open spec fn wf(self) -> bool {
        &&& self.width > 0
        &&& self.height > 0
        &&& self.width * self.height <= u32::MAX
        &&& self.cells.len() == self.width * self.height
    }

    /// The grid made of the given dimensions and cells, or the reason there
    /// is none: the dimensions are checked first, then the number of cells.
    pub open spec fn from_parts(width: nat, height: nat, cells: Seq<Cell>) -> Result<
        Grid,
        GridError,
    > {
        match dimension_error(width, height) {
            Some(error) => Err(error),
            None => if cells.len() == width * height {
                Ok(Grid { width, height, cells })
            } else {
                Err(GridError::CellCountMismatch)
            },
        }
    }

    /// Whether `(row, col)` names a cell of the grid.
    pub open spec fn contains(self, row: int, col: int) -> bool {
        0 <= row < self.height && 0 <= col < self.width
    }

    /// Where the cell `(row, col)` stands in `cells`.
    pub open spec fn index(self, row: int, col: int) -> int {
        row * self.width + col
    }

    /// The cell in row `row` and column `col`.
    pub open spec fn at(self, row: int, col: int) -> Cell {
        self.cells[self.index(row, col)]
    }

    /// Row `row` as text: the glyph of each of its cells, left to right.
    pub open spec fn row_text(self, row: int) -> Seq<char> {
        Seq::new(self.width, |col: int| self.at(row, col).glyph())
    }

    /// The cell `d_row` rows below and `d_col` columns to the right of
    /// `(row, col)`, on the torus: rows wrap modulo the height, columns
    /// modulo the width.
    pub open spec fn neighbor(self, row: int, col: int, d_row: int, d_col: int) -> Cell {
        self.at(wrap(row + d_row, self.height), wrap(col + d_col, self.width))
    }

    /// The number of live cells among the eight neighbours of `(row, col)`.
    pub open spec fn neighbor_count(self, row: int, col: int) -> nat {
        self.neighbor(row, col, -1, -1).count() + self.neighbor(row, col, -1, 0).count()
            + self.neighbor(row, col, -1, 1).count() + self.neighbor(row, col, 0, -1).count()
            + self.neighbor(row, col, 0, 1).count() + self.neighbor(row, col, 1, -1).count()
            + self.neighbor(row, col, 1, 0).count() + self.neighbor(row, col, 1, 1).count()
    }

    /// The state of `(row, col)` in the next generation.
    pub open spec fn next_cell(self, row: int, col: int) -> Cell {
        rule(self.at(row, col), self.neighbor_count(row, col))
    }

    /// The next generation. Every cell is computed from this generation
    /// alone; the dimensions stay as they are.
    pub open spec fn step(self) -> Grid {
        Grid {
            width: self.width,
            height: self.height,
            cells: Seq::new(
                self.cells.len(),
                |i: int| self.next_cell(i / (self.width as int), i % (self.width as int)),
            ),
        }
    }

    /// The generation reached after `n` steps.
    pub open spec fn after(self, n: nat) -> Grid
        decreases n,
    {
        if n == 0 {
            self
        } else {
            self.step().after((n - 1) as nat)
        }
    }
}

/// What `from_parts` accepts is a well-formed grid made of exactly the
/// parts it was given.
pub proof fn lemma_from_parts(width: nat, height: nat, cells: Seq<Cell>)
    ensures
        Grid::from_parts(width, height, cells) matches Ok(g) ==> {
            &&& g.wf()
            &&& g.width == width
            &&& g.height == height
            &&& g.cells == cells
        },
{
}

/// Taking a grid apart and building it again gives the same grid: a
/// well-formed grid is accepted by `from_parts`, unchanged.
pub proof fn lemma_parts_round_trip(g: Grid)
    requires
        g.wf(),
    ensures
        Grid::from_parts(g.width, g.height, g.cells) == Ok::<Grid, GridError>(g),
{
}

/// On a ring of `len` places, a position at most one full turn off either
/// end is brought back by adding or subtracting `len` once.
pub proof fn lemma_wrap(pos: int, len: nat)
    requires
        len > 0,
        -len <= pos < 2 * len,
    ensures
        wrap(pos, len) == if pos < 0 {
            pos + len
        } else if pos < len {
            pos
        } else {
            pos - len
        },
        0 <= wrap(pos, len) < len,
{
    let m = len as int;
    if pos < 0 {
        lemma_mod_add_multiples_vanish(pos, m);
        lemma_small_mod((pos + m) as nat, len);
    } else if pos < len {
        lemma_small_mod(pos as nat, len);
    } else {
        lemma_mod_add_multiples_vanish(pos - m, m);
        lemma_small_mod((pos - m) as nat, len);
    }
}

/// Row-major indexing is a bijection between the cells of a grid and the
/// places of its sequence: the index of a cell is in range, and dividing
/// it by the width gives the row and column back.
pub proof fn lemma_index(g: Grid, row: int, col: int)
    requires
        g.wf(),
        g.contains(row, col),
    ensures
        0 <= g.index(row, col) < g.cells.len(),
        g.index(row, col) / (g.width as int) == row,
        g.index(row, col) % (g.width as int) == col,
{
    let w = g.width as int;
    let h = g.height as int;
    assert(0 <= row * w) by {
        lemma_mul_inequality(0, row, w);
    }
    assert(row * w + w <= h * w) by {
        lemma_mul_inequality(row + 1, h, w);
        assert((row + 1) * w == row * w + w) by (nonlinear_arith);
    }
    lemma_mul_is_commutative(h, w);
    lemma_fundamental_div_mod_converse(row * w + col, w, row, col);
}

/// Every place of the sequence is the index of exactly one cell.
pub proof fn lemma_index_onto(g: Grid, i: int)
    requires
        g.wf(),
        0 <= i < g.cells.len(),
    ensures
        g.contains(i / (g.width as int), i % (g.width as int)),
        g.index(i / (g.width as int), i % (g.width as int)) == i,
{
    let w = g.width as int;
    let h = g.height as int;
    vstd::arithmetic::div_mod::lemma_fundamental_div_mod(i, w);
    vstd::arithmetic::div_mod::lemma_mod_bound(i, w);
    lemma_mul_is_commutative(w, i / w);
    assert(0 <= i / w < h) by (nonlinear_arith)
        requires
            w > 0,
            0 <= i < w * h,
            i == (i / w) * w + i % w,
            0 <= i % w < w,
    ;
}

/// A step keeps the dimensions and the well-formedness of a grid, and each
/// cell of the result is the rule applied to that cell and its neighbours.
pub proof fn lemma_step(g: Grid)
    requires
        g.wf(),
    ensures
        g.step().wf(),
        g.step().width == g.width,
        g.step().height == g.height,
        forall|row: int, col: int|
            g.contains(row, col) ==> #[trigger] g.step().at(row, col) == g.next_cell(row, col),
{
    assert forall|row: int, col: int| g.contains(row, col) implies #[trigger] g.step().at(
        row,
        col,
    ) == g.next_cell(row, col) by {
        lemma_index(g, row, col);
    }
}

/// Any number of steps keeps a grid well formed, with the same dimensions.
pub proof fn lemma_after(g: Grid, n: nat)
    requires
        g.wf(),
    ensures
        g.after(n).wf(),
        g.after(n).width == g.width,
        g.after(n).height == g.height,
    decreases n,
{
    if n > 0 {
        lemma_step(g);
        lemma_after(g.step(), (n - 1) as nat);
    }
}

} // verus!
