//! APU status register (`0x4015`): the per-channel enable mask.

use vstd::prelude::*;

use crate::apu::regs::Reg;

verus! {

pub const DMC_INTERRUPT_MASK: u8 = 0x80;
pub const FRAME_INTERRUPT_MASK: u8 = 0x40;
pub const ENABLE_DMC_MASK: u8 = 0x10;
pub const NOISE_MASK: u8 = 0x08;
pub const TRIANGLE_MASK: u8 = 0x04;
pub const PULSE_2_CHANNEL_MASK: u8 = 0x02;
pub const PULSE_1_CHANNEL_MASK: u8 = 0x01;

/// The channel-enable byte last written.
pub struct Status {
    pub data: u8,
}

impl Status {
    pub fn new() -> (r: Self)
        ensures
            r.data == 0,
    {
        Status { data: 0 }
    }

    /// Register write: replaces the `mask` bits of the byte.
    pub fn write(&mut self, mask: u8, val: u8)
        ensures
            final(self).data == (old(self).data & !mask) | (val & mask),
    {
        self.data = (self.data & !mask) | (val & mask);
    }

    /// The bits of `mask` that are set in the byte.
    pub fn read(&self, mask: u8) -> (r: u8)
        ensures
            r == self.data & mask,
    {
        self.data & mask
    }
}

impl Reg for Status {
    open spec fn spec_data(&self) -> u8 {
        self.data
    }

    fn data(&self) -> u8 {
        self.data
    }
}

} // verus!
