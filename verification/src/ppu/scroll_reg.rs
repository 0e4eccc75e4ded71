//! PPU scroll register (`0x2005`): the two-write X/Y scroll latch.

use vstd::prelude::*;

verus! {

/// The latched X and Y scroll values.
pub struct ScrollReg {
    pub x: u8,
    pub y: u8,
}

impl ScrollReg {
    pub fn new() -> (r: Self)
        ensures
            r.x == 0,
            r.y == 0,
    {
        ScrollReg { x: 0, y: 0 }
    }

    /// First write (latch low) sets X; second write (latch high) sets Y.
    pub fn write(&mut self, value: u8, latch: bool)
        ensures
            final(self).x == if latch {
                old(self).x
            } else {
                value
            },
            final(self).y == if latch {
                value
            } else {
                old(self).y
            },
    {
        if !latch {
            self.x = value;
        } else {
            self.y = value;
        }
    }

    pub fn scroll_x(&self) -> (r: u8)
        ensures
            r == self.x,
    {
        self.x
    }

    pub fn scroll_y(&self) -> (r: u8)
        ensures
            r == self.y,
    {
        self.y
    }
}

} // verus!
