//! Column alignment.

use vstd::prelude::*;

verus! {

/// Horizontal alignment of a cell's contents within its column.
#[derive(Debug, Clone, Copy, PartialEq, Eq, Structural)]
pub enum CellAlign {
    /// Left-aligned.
    Start,
    /// Centered.
    Center,
    /// Right-aligned.
    End,
}

impl Default for CellAlign {
    /// Cells are left-aligned unless told otherwise.
    fn default() -> (align: Self)
        ensures
            align == CellAlign::Start,
    {
        CellAlign::Start
    }
}

} // verus!
