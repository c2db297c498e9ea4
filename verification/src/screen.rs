//! Screen-space geometry: the visible size of a terminal region and a
//! position within it or within document space.

use vstd::prelude::*;

verus! {

/// A rectangle of terminal cells: rows high, columns wide.
#[derive(Copy, Clone)]
pub struct Size {
    pub height: usize,
    pub width: usize,
}

impl Default for Size {
    /// A size of no rows and no columns.
    fn default() -> (r: Self)
        ensures
            r.height == 0 && r.width == 0,
    {
        Size { height: 0, width: 0 }
    }
}

/// A cell position: a column and a row, zero-based.
#[derive(Copy, Clone)]
pub struct Position {
    pub col: usize,
    pub row: usize,
}

impl Default for Position {
    /// The top-left cell.
    fn default() -> (r: Self)
        ensures
            r.col == 0 && r.row == 0,
    {
        Position { col: 0, row: 0 }
    }
}

impl Position {
    /// Componentwise difference, held at zero rather than wrapping.
    pub fn saturating_sub(&self, other: &Position) -> (r: Position)
        ensures
            r.col == if self.col >= other.col {
                self.col - other.col
            } else {
                0
            },
            r.row == if self.row >= other.row {
                self.row - other.row
            } else {
                0
            },
    {
        Position {
            col: if self.col >= other.col {
                self.col - other.col
            } else {
                0
            },
            row: if self.row >= other.row {
                self.row - other.row
            } else {
                0
            },
        }
    }
}

} // verus!
