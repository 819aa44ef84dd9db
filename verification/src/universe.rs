//! The executable grid engine.

use vstd::prelude::*;
use crate::cell::Cell;
use crate::error::GridError;
use crate::grid::{cells_of, dimension_error, lemma_index, lemma_wrap, wrap, Grid};
use crate::random::gen_ratio;

verus! {

/// The width and the height of a grid built without explicit dimensions.
pub const DEFAULT_SIZE: u32 = 64;

/// A freshly drawn cell is alive with a chance of `ALIVE_CHANCE` in
/// `CHANCE_SCALE`: seven in ten.
pub const ALIVE_CHANCE: u32 = 7;

/// The number of equally likely outcomes of which `ALIVE_CHANCE` give a
/// live cell.
pub const CHANCE_SCALE: u32 = 10;

/// A toroidal Game of Life grid of fixed size.
///
/// The fields are private: a `Universe` always holds at least one cell,
/// exactly `width * height` of them, and at most `u32::MAX`.
#[derive(Debug)]
pub struct Universe {
    width: u32,
    height: u32,
    cells: Vec<Cell>,
}

impl View for Universe {
    type V = Grid;

    closed spec fn view(&self) -> Grid {
        Grid { width: self.width as nat, height: self.height as nat, cells: self.cells@ }
    }
}

/// The place before `pos` on a ring of `len` places.
fn ring_prev(pos: u32, len: u32) -> (prev: u32)
    requires
        pos < len,
    ensures
        prev == wrap(pos - 1, len as nat),
        prev < len,
{
    proof {
        lemma_wrap(pos - 1, len as nat);
        lemma_wrap(pos + len - 1, len as nat);
    }
    ((pos as u64 + (len as u64 - 1)) % (len as u64)) as u32
}

/// The place after `pos` on a ring of `len` places.
fn ring_next(pos: u32, len: u32) -> (next: u32)
    requires
        pos < len,
    ensures
        next == wrap(pos + 1, len as nat),
        next < len,
{
    proof {
        lemma_wrap(pos + 1, len as nat);
    }
    ((pos as u64 + 1) % (len as u64)) as u32
}

/// Checks a pair of dimensions and gives the number of cells they call for.
fn cell_total(width: u32, height: u32) -> (total: Result<usize, GridError>)
    ensures
        match dimension_error(width as nat, height as nat) {
            Some(error) => total == Err::<usize, GridError>(error),
            None => total == Ok::<usize, GridError>((width * height) as usize),
        },
{
    if width == 0 || height == 0 {
        return Err(GridError::ZeroDimension);
    }
    assert(width * height <= u32::MAX * u32::MAX) by (nonlinear_arith);
    let total: u64 = width as u64 * height as u64;
    if total > u32::MAX as u64 {
        return Err(GridError::TooLarge);
    }
    Ok(total as usize)
}

/// Draws `total` bits from the thread-local generator, each `true` with a
/// chance of `ALIVE_CHANCE` in `CHANCE_SCALE`.
fn random_bits(total: usize) -> (bits: Vec<bool>)
    ensures
        bits@.len() == total,
{
    let mut rng = rand::thread_rng();
    let mut bits: Vec<bool> = Vec::new();
    while bits.len() < total
        invariant
            bits@.len() <= total,
        decreases total - bits@.len(),
    {
        bits.push(gen_ratio(&mut rng, ALIVE_CHANCE, CHANCE_SCALE));
    }
    bits
}

/// Turns each bit into a cell: `true` into a live one, `false` into a dead
/// one.
fn cells_from_bits(bits: &Vec<bool>) -> (cells: Vec<Cell>)
    ensures
        cells@ == cells_of(bits@),
{
    let mut cells: Vec<Cell> = Vec::new();
    while cells.len() < bits.len()
        invariant
            cells@.len() <= bits@.len(),
            forall|i: int| 0 <= i < cells@.len() ==> cells@[i] == cells_of(bits@)[i],
        decreases bits@.len() - cells@.len(),
    {
        let alive = bits[cells.len()];
        cells.push(Cell::from_bool(alive));
    }
    cells
}

impl Universe {
    #[verifier::type_invariant]
    spec fn inv(self) -> bool {
        self@.wf()
    }

    /// Builds a grid of the given dimensions with random cells, each alive
    /// with a chance of seven in ten.
    ///
    /// The dimensions are refused when either is zero or when their product
    /// does not fit in 32 bits. The cells are drawn from the thread-local
    /// generator, so nothing is promised of them.
    pub fn new(width: u32, height: u32) -> (made: Result<Universe, GridError>)
        ensures
            match made {
                Ok(universe) => {
                    &&& dimension_error(width as nat, height as nat) is None
                    &&& universe@.width == width
                    &&& universe@.height == height
                    &&& universe@.wf()
                },
                Err(error) => dimension_error(width as nat, height as nat) == Some(error),
            },
    {
        match cell_total(width, height) {
            Ok(total) => Universe::from_bits(width, height, &random_bits(total)),
            Err(error) => Err(error),
        }
    }

    /// Builds a grid from its dimensions and one bit for each cell in
    /// row-major order, `true` for a live cell: what [`Universe::new`] does
    /// with the bits it draws, and what a test does with bits of its own.
    ///
    /// The dimensions are checked as in [`Universe::new`]; after that the
    /// number of bits must be `width * height`.
    pub fn from_bits(width: u32, height: u32, bits: &Vec<bool>) -> (made: Result<
        Universe,
        GridError,
    >)
        ensures
            match made {
                Ok(universe) => Grid::from_parts(width as nat, height as nat, cells_of(bits@))
                    == Ok::<Grid, GridError>(universe@),
                Err(error) => Grid::from_parts(width as nat, height as nat, cells_of(bits@))
                    == Err::<Grid, GridError>(error),
            },
            made is Ok ==> made->Ok_0@.wf(),
    {
        let total = match cell_total(width, height) {
            Ok(total) => total,
            Err(error) => {
                return Err(error);
            },
        };
        if bits.len() != total {
            return Err(GridError::CellCountMismatch);
        }
        Ok(Universe { width, height, cells: cells_from_bits(bits) })
    }

    /// Builds a grid from its dimensions and its cells in row-major order,
    /// as a stored grid or a scripted test hands them over.
    ///
    /// The dimensions are checked as in [`Universe::new`]; after that the
    /// number of cells must be `width * height`.
    pub fn from_cells(width: u32, height: u32, cells: Vec<Cell>) -> (made: Result<
        Universe,
        GridError,
    >)
        ensures
            match made {
                Ok(universe) => Grid::from_parts(width as nat, height as nat, cells@) == Ok::<
                    Grid,
                    GridError,
                >(universe@),
                Err(error) => Grid::from_parts(width as nat, height as nat, cells@) == Err::<
                    Grid,
                    GridError,
                >(error),
            },
            made is Ok ==> made->Ok_0@.wf(),
    {
        match cell_total(width, height) {
            Ok(total) => {
                if cells.len() == total {
                    Ok(Universe { width, height, cells })
                } else {
                    Err(GridError::CellCountMismatch)
                }
            },
            Err(error) => Err(error),
        }
    }

    /// Brings back a stored grid. Where the stored dimensions and cells do
    /// not make a grid, the result is a fresh random grid of the default
    /// size instead.
    pub fn restore(width: u32, height: u32, cells: Vec<Cell>) -> (universe: Universe)
        ensures
            universe@.wf(),
            match Grid::from_parts(width as nat, height as nat, cells@) {
                Ok(grid) => universe@ == grid,
                Err(_) => universe@.width == DEFAULT_SIZE && universe@.height == DEFAULT_SIZE,
            },
    {
        match Universe::from_cells(width, height, cells) {
            Ok(universe) => universe,
            Err(_) => Universe::default(),
        }
    }

    /// The number of columns.
    pub fn width(&self) -> (width: u32)
        ensures
            width == self@.width,
            self@.wf(),
    {
        proof {
            use_type_invariant(self);
        }
        self.width
    }

    /// The number of rows.
    pub fn height(&self) -> (height: u32)
        ensures
            height == self@.height,
            self@.wf(),
    {
        proof {
            use_type_invariant(self);
        }
        self.height
    }

    /// The cells, row after row.
    pub fn cells(&self) -> (cells: &Vec<Cell>)
        ensures
            cells@ == self@.cells,
            self@.wf(),
    {
        proof {
            use_type_invariant(self);
        }
        &self.cells
    }

    /// The place of the cell `(row, col)` in row-major order.
    pub fn get_index(&self, row: u32, col: u32) -> (index: usize)
        requires
            self@.contains(row as int, col as int),
        ensures
            index == self@.index(row as int, col as int),
            index < self@.cells.len(),
    {
        proof {
            use_type_invariant(self);
            lemma_index(self@, row as int, col as int);
        }
        row as usize * self.width as usize + col as usize
    }

    /// The state of the cell `(row, col)`.
    pub fn cell_state(&self, row: u32, col: u32) -> (cell: Cell)
        requires
            self@.contains(row as int, col as int),
        ensures
            cell == self@.at(row as int, col as int),
    {
        let index = self.get_index(row, col);
        self.cells[index]
    }

    /// The state of the cell `(row, col)`, or `None` where the grid has no
    /// such cell.
    pub fn get(&self, row: u32, col: u32) -> (cell: Option<Cell>)
        ensures
            cell == if self@.contains(row as int, col as int) {
                Some(self@.at(row as int, col as int))
            } else {
                None
            },
    {
        if row < self.height && col < self.width {
            Some(self.cell_state(row, col))
        } else {
            None
        }
    }

    /// Renders the grid as text: one line for each row, top to bottom, and
    /// in each line one glyph for each cell, left to right.
    pub fn render_text(&self) -> (lines: Vec<String>)
        ensures
            lines@.len() == self@.height,
            forall|row: int|
                0 <= row < self@.height ==> (#[trigger] lines@[row])@ == self@.row_text(row),
    {
        let mut lines: Vec<String> = Vec::new();
        let mut row: u32 = 0;
        while row < self.height
            invariant
                row <= self.height,
                self.height == self@.height,
                self.width == self@.width,
                lines@.len() == row,
                forall|r: int| 0 <= r < row ==> (#[trigger] lines@[r])@ == self@.row_text(r),
            decreases self.height - row,
        {
            let mut line = String::new();
            let mut col: u32 = 0;
            while col < self.width
                invariant
                    row < self.height,
                    col <= self.width,
                    self.height == self@.height,
                    self.width == self@.width,
                    line@.len() == col,
                    forall|c: int|
                        0 <= c < col ==> line@[c] == self@.at(row as int, c).glyph(),
                decreases self.width - col,
            {
                line.append(self.cell_state(row, col).symbol());
                col += 1;
            }
            assert(line@ =~= self@.row_text(row as int));
            lines.push(line);
            row += 1;
        }
        lines
    }

    /// Counts the live cells among the eight neighbours of `(row, col)`,
    /// with rows wrapping modulo the height and columns modulo the width.
    pub fn neighbor_count(&self, row: u32, col: u32) -> (count: u8)
        requires
            self@.contains(row as int, col as int),
        ensures
            count == self@.neighbor_count(row as int, col as int),
            count <= 8,
    {
        proof {
            use_type_invariant(self);
            lemma_wrap(row as int, self.height as nat);
            lemma_wrap(col as int, self.width as nat);
        }
        let up = ring_prev(row, self.height);
        let down = ring_next(row, self.height);
        let left = ring_prev(col, self.width);
        let right = ring_next(col, self.width);
        let mut count: u8 = 0;
        count += self.cell_state(up, left).as_u8();
        count += self.cell_state(up, col).as_u8();
        count += self.cell_state(up, right).as_u8();
        count += self.cell_state(row, left).as_u8();
        count += self.cell_state(row, right).as_u8();
        count += self.cell_state(down, left).as_u8();
        count += self.cell_state(down, col).as_u8();
        count += self.cell_state(down, right).as_u8();
        count
    }

    /// Advances the grid by one generation.
    ///
    /// Every cell of the new generation is computed from the old one; the
    /// grid is replaced as a whole when all of them are known.
    pub fn tick(&mut self)
        ensures
            final(self)@ == old(self)@.step(),
            final(self)@.wf(),
    {
        proof {
            use_type_invariant(&*self);
        }
        let ghost before = self@;
        let mut next_gen: Vec<Cell> = Vec::new();
        let mut row: u32 = 0;
        while row < self.height
            invariant
                self@ == before,
                before.wf(),
                self.height == before.height,
                self.width == before.width,
                row <= self.height,
                next_gen@.len() == row * before.width,
                forall|i: int|
                    0 <= i < next_gen@.len() ==> next_gen@[i] == #[trigger] before.step().cells[i],
            decreases self.height - row,
        {
            let mut col: u32 = 0;
            while col < self.width
                invariant
                    self@ == before,
                    before.wf(),
                    self.height == before.height,
                    self.width == before.width,
                    row < self.height,
                    col <= self.width,
                    next_gen@.len() == row * before.width + col,
                    forall|i: int|
                        0 <= i < next_gen@.len() ==> next_gen@[i]
                            == #[trigger] before.step().cells[i],
                decreases self.width - col,
            {
                let cell = self.cell_state(row, col);
                let neighbors = self.neighbor_count(row, col);
                proof {
                    lemma_index(before, row as int, col as int);
                }
                next_gen.push(cell.next(neighbors));
                col += 1;
            }
            proof {
                assert((row + 1) * before.width == row * before.width + before.width)
                    by (nonlinear_arith);
            }
            row += 1;
        }
        proof {
            vstd::arithmetic::mul::lemma_mul_is_commutative(
                before.width as int,
                before.height as int,
            );
            assert(next_gen@ =~= before.step().cells);
        }
        self.cells = next_gen;
    }
}

impl PartialEq for Universe {
    /// Two grids are equal when they have the same dimensions and the same
    /// cells.
    fn eq(&self, other: &Universe) -> (same: bool) {
        proof {
            use_type_invariant(self);
            use_type_invariant(other);
        }
        if self.width != other.width || self.height != other.height {
            return false;
        }
        let mut index: usize = 0;
        while index < self.cells.len()
            invariant
                index <= self.cells@.len(),
                self.cells@.len() == other.cells@.len(),
                forall|i: int| 0 <= i < index ==> self.cells@[i] == other.cells@[i],
            decreases self.cells@.len() - index,
        {
            if self.cells[index] != other.cells[index] {
                return false;
            }
            index += 1;
        }
        assert(self.cells@ =~= other.cells@);
        true
    }
}

impl vstd::std_specs::cmp::PartialEqSpecImpl for Universe {
    open spec fn obeys_eq_spec() -> bool {
        true
    }

    open spec fn eq_spec(&self, other: &Universe) -> bool {
        self@ == other@
    }
}

impl Eq for Universe {
}

impl Clone for Universe {
    /// A second grid with the same dimensions and cells.
    fn clone(&self) -> (copy: Universe)
        ensures
            copy@ == self@,
    {
        proof {
            use_type_invariant(self);
        }
        let cells = self.cells.clone();
        assert(cells@ =~= self.cells@);
        Universe { width: self.width, height: self.height, cells }
    }
}

impl Default for Universe {
    /// A random grid of the default size.
    fn default() -> (universe: Universe)
        ensures
            universe@.width == DEFAULT_SIZE,
            universe@.height == DEFAULT_SIZE,
            universe@.wf(),
    {
        assert(DEFAULT_SIZE * DEFAULT_SIZE == 4096) by (nonlinear_arith)
            requires
                DEFAULT_SIZE == 64,
        ;
        let total = DEFAULT_SIZE as usize * DEFAULT_SIZE as usize;
        let cells = cells_from_bits(&random_bits(total));
        Universe { width: DEFAULT_SIZE, height: DEFAULT_SIZE, cells }
    }
}

} // verus!
