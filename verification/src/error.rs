//! Why a grid cannot be built.

use vstd::prelude::*;

verus! {

/// The reason a set of dimensions, or of dimensions and cells, is refused.
#[derive(Clone, Copy, Debug, PartialEq, Eq, Structural)]
pub enum GridError {
    /// The width or the height is zero, so a cell would have no neighbours
    /// to wrap to.
    ZeroDimension,
    /// `width * height` does not fit in 32 bits.
    TooLarge,
    /// The number of cells supplied is not `width * height`.
    CellCountMismatch,
}

} // verus!
