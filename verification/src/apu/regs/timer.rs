//! Timer-low register: the low eight bits of a channel's 11-bit period.

use vstd::prelude::*;

use crate::apu::regs::Reg;

verus! {

pub const TIMER_LOW_MASK: u8 = 0xFF;

/// The register byte.
pub struct TimerLow {
    pub data: u8,
}

impl TimerLow {
    pub fn new() -> (r: Self)
        ensures
            r.data == 0,
    {
        TimerLow { data: 0 }
    }

    /// Register write: replaces the `mask` bits of the byte.
    pub fn write(&mut self, mask: u8, val: u8)
        ensures
            final(self).data == (old(self).data & !mask) | (val & mask),
    {
        self.data = (self.data & !mask) | (val & mask);
    }

    /// The bits of `mask` that are set in the byte.
    pub fn read(&self, mask: u8) -> (r: u8)
        ensures
            r == self.data & mask,
    {
        self.data & mask
    }
}

impl Reg for TimerLow {
    open spec fn spec_data(&self) -> u8 {
        self.data
    }

    fn data(&self) -> u8 {
        self.data
    }
}

} // verus!
