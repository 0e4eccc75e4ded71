//! Length counter: a per-channel countdown that gates output to zero when it
//! reaches zero. Its register byte also carries the high timer bits.

use vstd::prelude::*;

use crate::apu::regs::Reg;

verus! {

pub const LENGTH_LOAD_MASK: u8 = 0xF8;
pub const TIMER_HIGH_MASK: u8 = 0x07;

/// The hardware reload table, indexed by the five load bits.
pub open spec fn spec_length_table(index: u8) -> u8 {
    if index == 0 { 10 }
    else if index == 1 { 254 }
    else if index == 2 { 20 }
    else if index == 3 { 2 }
    else if index == 4 { 40 }
    else if index == 5 { 4 }
    else if index == 6 { 80 }
    else if index == 7 { 6 }
    else if index == 8 { 160 }
    else if index == 9 { 8 }
    else if index == 10 { 60 }
    else if index == 11 { 10 }
    else if index == 12 { 14 }
    else if index == 13 { 12 }
    else if index == 14 { 26 }
    else if index == 15 { 14 }
    else if index == 16 { 12 }
    else if index == 17 { 16 }
    else if index == 18 { 24 }
    else if index == 19 { 18 }
    else if index == 20 { 48 }
    else if index == 21 { 20 }
    else if index == 22 { 96 }
    else if index == 23 { 22 }
    else if index == 24 { 192 }
    else if index == 25 { 24 }
    else if index == 26 { 72 }
    else if index == 27 { 26 }
    else if index == 28 { 16 }
    else if index == 29 { 28 }
    else if index == 30 { 32 }
    else { 30 }
}

/// The hardware reload value for the five load bits in `index`.
pub fn length_table(index: u8) -> (r: u8)
    requires
        index < 32,
    ensures
        r == spec_length_table(index),
{
    if index == 0 { 10 }
    else if index == 1 { 254 }
    else if index == 2 { 20 }
    else if index == 3 { 2 }
    else if index == 4 { 40 }
    else if index == 5 { 4 }
    else if index == 6 { 80 }
    else if index == 7 { 6 }
    else if index == 8 { 160 }
    else if index == 9 { 8 }
    else if index == 10 { 60 }
    else if index == 11 { 10 }
    else if index == 12 { 14 }
    else if index == 13 { 12 }
    else if index == 14 { 26 }
    else if index == 15 { 14 }
    else if index == 16 { 12 }
    else if index == 17 { 16 }
    else if index == 18 { 24 }
    else if index == 19 { 18 }
    else if index == 20 { 48 }
    else if index == 21 { 20 }
    else if index == 22 { 96 }
    else if index == 23 { 22 }
    else if index == 24 { 192 }
    else if index == 25 { 24 }
    else if index == 26 { 72 }
    else if index == 27 { 26 }
    else if index == 28 { 16 }
    else if index == 29 { 28 }
    else if index == 30 { 32 }
    else { 30 }
}

/// The counter after one half-frame tick: it counts down unless halted or
/// already zero.
pub open spec fn spec_length_tick(c: LengthCounter) -> LengthCounter {
    if !c.halt && c.counter > 0 {
        LengthCounter { counter: (c.counter - 1) as u8, ..c }
    } else {
        c
    }
}

/// Register byte, countdown value, channel-enable and halt bits.
pub struct LengthCounter {
    pub data: u8,
    pub counter: u8,
    pub enabled: bool,
    pub halt: bool,
}

impl LengthCounter {
    pub fn new() -> (r: Self)
        ensures
            r.data == 0,
            r.counter == 0,
            r.enabled,
            !r.halt,
    {
        LengthCounter { data: 0, counter: 0, enabled: true, halt: false }
    }

    /// Half-frame tick: counts down unless halted or already zero.
    pub fn tick(&mut self)
        ensures
            *final(self) == spec_length_tick(*old(self)),
            final(self).counter == if !old(self).halt && old(self).counter > 0 {
                (old(self).counter - 1) as u8
            } else {
                old(self).counter
            },
            final(self).data == old(self).data,
            final(self).enabled == old(self).enabled,
            final(self).halt == old(self).halt,
    {
        if !self.halt && self.counter > 0 {
            self.counter -= 1;
        }
    }

    /// The bits of `mask` that are set in the byte.
    pub fn read(&self, mask: u8) -> (r: u8)
        ensures
            r == self.data & mask,
    {
        self.data & mask
    }

    pub fn is_active(&self) -> (r: bool)
        ensures
            r == (self.counter > 0),
    {
        self.counter > 0
    }

    /// Register write: replaces the `mask` bits and, while the channel is
    /// enabled, reloads the countdown from the hardware table.
    pub fn write(&mut self, mask: u8, val: u8)
        ensures
            final(self).data == (old(self).data & !mask) | (val & mask),
            final(self).counter == if old(self).enabled {
                spec_length_table((final(self).data & LENGTH_LOAD_MASK) >> 3)
            } else {
                old(self).counter
            },
            final(self).enabled == old(self).enabled,
            final(self).halt == old(self).halt,
    {
        self.data = (self.data & !mask) | (val & mask);

        if self.enabled {
            let index = (self.data & LENGTH_LOAD_MASK) >> 3;
            proof {
                crate::bits::lemma_u8_masks();
            }
            self.counter = length_table(index);
        }
    }
}

impl Reg for LengthCounter {
    open spec fn spec_data(&self) -> u8 {
        self.data
    }

    fn data(&self) -> u8 {
        self.data
    }
}

} // verus!
