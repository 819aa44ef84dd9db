//! Where the grid lies on a canvas of pixels.
//!
//! The engine does not draw. A renderer that does, with cells of
//! `cell_size` pixels separated by lines one pixel wide, finds here the
//! coordinates that it needs, in whole pixels.

use vstd::prelude::*;

verus! {

/// The pixel at which column or row `index` begins: its cells start one
/// pixel after the `index`-th grid line, and each earlier column or row
/// takes `cell_size` pixels and the line before it.
pub open spec fn offset(index: nat, cell_size: nat) -> nat {
    index * (cell_size + 1) + 1
}

/// The pixel at which column or row `index` begins, or `None` where that
/// pixel lies beyond the reach of `u32`.
///
/// Called with the number of columns or rows, it gives the far edge of
/// the grid.
pub fn pixel_offset(index: u32, cell_size: u32) -> (pixel: Option<u32>)
    ensures
        pixel == if offset(index as nat, cell_size as nat) <= u32::MAX {
            Some(offset(index as nat, cell_size as nat) as u32)
        } else {
            None
        },
{
    assert(index * (cell_size + 1) + 1 <= u32::MAX * (u32::MAX + 1) + 1) by (nonlinear_arith)
        requires
            index <= u32::MAX,
            cell_size <= u32::MAX,
    ;
    let pixel: u64 = index as u64 * (cell_size as u64 + 1) + 1;
    if pixel <= u32::MAX as u64 {
        Some(pixel as u32)
    } else {
        None
    }
}

} // verus!
