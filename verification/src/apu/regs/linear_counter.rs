//! Triangle linear counter: a quarter-frame countdown with a reload flag.

use vstd::prelude::*;

use crate::apu::regs::Reg;

verus! {

pub const CONTROL_MASK: u8 = 0x80;
pub const RELOAD_VALUE_MASK: u8 = 0x7F;

/// The counter after one quarter-frame tick: a pending reload loads the
/// programmed value, else it counts down; the reload flag clears unless the
/// control bit holds it.
pub open spec fn spec_linear_tick(c: LinearCounter) -> LinearCounter {
    let counter = if c.reload_flag {
        c.data & RELOAD_VALUE_MASK
    } else if c.counter > 0 {
        (c.counter - 1) as u8
    } else {
        0u8
    };
    LinearCounter { counter, reload_flag: c.reload_flag && c.data & CONTROL_MASK != 0, ..c }
}

/// Register byte, countdown value and reload flag.
pub struct LinearCounter {
    pub data: u8,
    pub counter: u8,
    pub reload_flag: bool,
}

impl LinearCounter {
    pub fn new() -> (r: Self)
        ensures
            r.data == 0,
            r.counter == 0,
            !r.reload_flag,
    {
        LinearCounter { data: 0, counter: 0, reload_flag: false }
    }

    /// Quarter-frame tick: a pending reload loads the programmed value, else
    /// the counter steps down; the reload flag clears unless the control bit
    /// holds it.
    pub fn tick(&mut self)
        ensures
            *final(self) == spec_linear_tick(*old(self)),
            final(self).data == old(self).data,
            final(self).counter == if old(self).reload_flag {
                old(self).data & RELOAD_VALUE_MASK
            } else if old(self).counter > 0 {
                (old(self).counter - 1) as u8
            } else {
                0u8
            },
            final(self).reload_flag == (old(self).reload_flag && old(self).data & CONTROL_MASK
                != 0),
    {
        if self.reload_flag {
            self.counter = self.data & RELOAD_VALUE_MASK;
        } else if self.counter > 0 {
            self.counter -= 1;
        }

        if self.data & CONTROL_MASK == 0 {
            self.reload_flag = false;
        }
    }

    pub fn set_reload(&mut self)
        ensures
            final(self).reload_flag,
            final(self).data == old(self).data,
            final(self).counter == old(self).counter,
    {
        self.reload_flag = true;
    }

    /// Register write: replaces the `mask` bits and flags a reload.
    pub fn write(&mut self, mask: u8, val: u8)
        ensures
            final(self).data == (old(self).data & !mask) | (val & mask),
            final(self).reload_flag,
            final(self).counter == old(self).counter,
    {
        self.data = (self.data & !mask) | (val & mask);
        self.set_reload();
    }
}

impl Reg for LinearCounter {
    open spec fn spec_data(&self) -> u8 {
        self.data
    }

    fn data(&self) -> u8 {
        self.data
    }
}

} // verus!
