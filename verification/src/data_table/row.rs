//! A single, already-flattened table row.

use vstd::prelude::*;

use crate::data_table::cell::Cell;

verus! {

/// One row of the table. Rows arrive as a flat list that the consumer has
/// already filtered for collapse; the widget never walks a tree.
///
/// The row owns its cells, so the consumer can build them transiently each
/// frame (e.g. inside `view`) without holding them in long-lived storage.
#[derive(Debug, Clone)]
pub struct Row<'a> {
    /// Indentation level for the tree column (the collapse hook).
    pub depth: u16,
    /// Whether this row shows an expand/collapse chevron, and in which state.
    pub toggle: Toggle,
    /// One [`Cell`] per column.
    pub cells: Vec<Cell<'a>>,
}

impl<'a> Row<'a> {
    /// A depth-0 row with no chevron.
    pub fn new(cells: Vec<Cell<'a>>) -> (row: Self)
        ensures
            row.depth == 0,
            row.toggle == Toggle::Hidden,
            row.cells == cells,
    {
        Row { depth: 0, toggle: Toggle::Hidden, cells }
    }

    /// Sets the indentation depth.
    pub fn depth(self, depth: u16) -> (row: Self)
        ensures
            row.depth == depth,
            row.toggle == self.toggle,
            row.cells == self.cells,
    {
        let mut row = self;
        row.depth = depth;
        row
    }

    /// Sets the chevron state.
    pub fn toggle(self, toggle: Toggle) -> (row: Self)
        ensures
            row.depth == self.depth,
            row.toggle == toggle,
            row.cells == self.cells,
    {
        let mut row = self;
        row.toggle = toggle;
        row
    }
}

/// The expand/collapse affordance state of a row's tree column.
#[derive(Debug, Clone, Copy, PartialEq, Eq, Structural)]
pub enum Toggle {
    /// No chevron is drawn (a leaf, or a non-tree row).
    Hidden,
    /// A collapsed node: the chevron points right.
    Collapsed,
    /// An expanded node: the chevron points down.
    Expanded,
}

impl Default for Toggle {
    /// A row shows no chevron unless told otherwise.
    fn default() -> (toggle: Self)
        ensures
            toggle == Toggle::Hidden,
    {
        Toggle::Hidden
    }
}

} // verus!
