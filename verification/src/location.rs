//! A plain coordinate pair, used for offsets between screen positions.

use vstd::prelude::*;

verus! {

/// An x/y coordinate pair.
#[derive(Copy, Clone)]
pub struct Location {
    pub x: usize,
    pub y: usize,
}

impl Default for Location {
    /// The origin.
    fn default() -> (r: Self)
        ensures
            r.x == 0 && r.y == 0,
    {
        Location { x: 0, y: 0 }
    }
}

impl Location {
    /// Componentwise difference, held at zero rather than wrapping.
    pub fn subtract(&self, other: &Self) -> (r: Self)
        ensures
            r.x == if self.x >= other.x {
                self.x - other.x
            } else {
                0
            },
            r.y == if self.y >= other.y {
                self.y - other.y
            } else {
                0
            },
    {
        Self {
            x: if self.x >= other.x {
                self.x - other.x
            } else {
                0
            },
            y: if self.y >= other.y {
                self.y - other.y
            } else {
                0
            },
        }
    }
}

} // verus!
