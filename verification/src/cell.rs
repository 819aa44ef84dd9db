//! The two-state cell and the transition rule for a single cell.

use vstd::prelude::*;

verus! {

/// One cell of the grid.
#[derive(Clone, Copy, Debug, PartialEq, Eq, Hash, Structural)]
pub enum Cell {
    Dead,
    Alive,
}

/// The state of a cell in the next generation, given its current state and
/// the number of live cells among its eight neighbours.
///
/// A live cell survives with two or three live neighbours; a dead cell comes
/// to life with exactly three. Every other cell is dead in the next
/// generation.
pub open spec fn rule(current: Cell, neighbors: nat) -> Cell {
    match current {
        Cell::Alive => if neighbors == 2 || neighbors == 3 {
            Cell::Alive
        } else {
            Cell::Dead
        },
        Cell::Dead => if neighbors == 3 {
            Cell::Alive
        } else {
            Cell::Dead
        },
    }
}

/// The cell that a drawn bit stands for: alive for `true`, dead for
/// `false`.
pub open spec fn cell_of(alive: bool) -> Cell {
    if alive {
        Cell::Alive
    } else {
        Cell::Dead
    }
}

impl Cell {
    /// What the cell adds to a neighbour count: 1 if alive, 0 if dead.
    pub open spec fn count(self) -> nat {
        match self {
            Cell::Alive => 1,
            Cell::Dead => 0,
        }
    }

    /// The character that stands for the cell in a textual rendering:
    /// a filled square for a live cell, an empty square for a dead one.
    pub open spec fn glyph(self) -> char {
        match self {
            Cell::Alive => '\u{25FC}',
            Cell::Dead => '\u{25FB}',
        }
    }

    /// The cell for one drawn bit: alive for `true`, dead for `false`.
    pub fn from_bool(alive: bool) -> (cell: Cell)
        ensures
            cell == cell_of(alive),
    {
        if alive {
            Cell::Alive
        } else {
            Cell::Dead
        }
    }

    /// Whether the cell is alive.
    pub fn is_alive(self) -> (alive: bool)
        ensures
            alive == (self == Cell::Alive),
    {
        match self {
            Cell::Alive => true,
            Cell::Dead => false,
        }
    }

    /// The cell as an integer, for summing neighbour counts.
    pub fn as_u8(self) -> (n: u8)
        ensures
            n == self.count(),
    {
        match self {
            Cell::Alive => 1,
            Cell::Dead => 0,
        }
    }

    /// The glyph of the cell as a string of one character.
    pub fn symbol(self) -> (text: &'static str)
        ensures
            text@ == seq![self.glyph()],
    {
        proof {
            reveal_strlit("\u{25FC}");
            reveal_strlit("\u{25FB}");
        }
        match self {
            Cell::Alive => "\u{25FC}",
            Cell::Dead => "\u{25FB}",
        }
    }

    /// Applies the transition rule to this cell.
    pub fn next(self, neighbors: u8) -> (cell: Cell)
        ensures
            cell == rule(self, neighbors as nat),
    {
        match self {
            Cell::Alive => if neighbors == 2 || neighbors == 3 {
                Cell::Alive
            } else {
                Cell::Dead
            },
            Cell::Dead => if neighbors == 3 {
                Cell::Alive
            } else {
                Cell::Dead
            },
        }
    }
}

} // verus!
