//! Delta-PCM direct-load register: the 7-bit output level.

use vstd::prelude::*;

use crate::apu::regs::Reg;

verus! {

pub const LOAD_COUNTER_MASK: u8 = 0x7F;

/// The register byte and a taken-on-read change flag.
pub struct LoadCounter {
    pub data: u8,
    pub changed: bool,
}

impl LoadCounter {
    pub fn new() -> (r: Self)
        ensures
            r.data == 0,
            !r.changed,
    {
        LoadCounter { data: 0, changed: false }
    }

    /// Yields the byte once after each write.
    pub fn take_changed(&mut self) -> (r: Option<u8>)
        ensures
            !final(self).changed,
            final(self).data == old(self).data,
            r == if old(self).changed {
                Some(old(self).data)
            } else {
                None::<u8>
            },
    {
        if self.changed {
            self.changed = false;
            Some(self.data)
        } else {
            None
        }
    }

    /// Register write: replaces the whole byte and flags the change.
    pub fn write(&mut self, _mask: u8, val: u8)
        ensures
            final(self).data == val,
            final(self).changed,
    {
        self.data = val;
        self.changed = true;
    }

    /// The bits of `mask` that are set in the byte.
    pub fn read(&self, mask: u8) -> (r: u8)
        ensures
            r == self.data & mask,
    {
        self.data & mask
    }
}

impl Reg for LoadCounter {
    open spec fn spec_data(&self) -> u8 {
        self.data
    }

    fn data(&self) -> u8 {
        self.data
    }
}

} // verus!
