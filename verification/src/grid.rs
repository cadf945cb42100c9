//! The membership grid: its fixed size, its model as rows of cells, and
//! the ways an evaluation can fail.

use vstd::prelude::*;

verus! {

/// Number of columns of the membership grid.
pub const WIDTH: usize = 128;

/// Number of rows of the membership grid.
pub const HEIGHT: usize = 128;

/// Why an evaluation gave no grid.
#[derive(Clone, Copy, Debug, PartialEq, Eq, Structural)]
pub enum EvalError {
    /// No adapter or device that can run the compute kernel.
    NoComputeDevice,
    /// The staged result could not be read back, or is not one byte for
    /// each cell.
    ReadbackFailed,
    /// The grid is empty, or not made of whole workgroups and whole glyph
    /// blocks.
    BadDimensions,
    /// A bound of the viewport is not finite, or an upper bound does not lie
    /// above its lower bound.
    DegenerateViewport,
}

/// The rows of a two-dimensional array of cells, top to bottom, each from
/// left to right.
pub open spec fn rows_of<const W: usize, const H: usize>(cells: [[bool; W]; H]) -> Seq<Seq<bool>> {
    Seq::new(H as nat, |r: int| cells[r]@)
}

} // verus!
