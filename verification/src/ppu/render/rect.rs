//! An axis-aligned pixel rectangle, half-open on its right and bottom edges.

use vstd::prelude::*;

verus! {

/// The viewport a name-table is clipped against.
pub struct Rect {
    pub x1: usize,
    pub y1: usize,
    pub x2: usize,
    pub y2: usize,
}

impl Rect {
    pub fn new(x1: usize, y1: usize, x2: usize, y2: usize) -> (r: Rect)
        ensures
            r.x1 == x1,
            r.y1 == y1,
            r.x2 == x2,
            r.y2 == y2,
    {
        Rect { x1, y1, x2, y2 }
    }
}

} // verus!
