//! The table: a fixed rectangular grid of cells.

use vstd::prelude::*;

verus! {

/// A grid of `width` columns and `height` rows. Its cells are the pairs
/// `(x, y)` with `0 <= x < width` and `0 <= y < height`.
#[derive(Clone, Copy, Debug, PartialEq, Eq, Structural)]
pub struct Table {
    pub width: usize,
    pub height: usize,
}

impl Table {
    /// A table has at least one cell.
    pub open spec fn wf(self) -> bool {
        self.width > 0 && self.height > 0
    }

    /// Whether `(x, y)` is a cell of the table. The coordinates are
    /// mathematical integers, so that a point left of or below the table can
    /// be asked about.
    pub open spec fn contains(self, x: int, y: int) -> bool {
        0 <= x < self.width && 0 <= y < self.height
    }

    /// Whether `(x, y)` is a cell of the table.
    pub fn is_valid(&self, x: usize, y: usize) -> (valid: bool)
        ensures
            valid == self.contains(x as int, y as int),
            valid == (0 <= x < self.width && 0 <= y < self.height),
    {
        x < self.width && y < self.height
    }
}

} // verus!
