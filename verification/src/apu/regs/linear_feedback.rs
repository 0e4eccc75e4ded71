//! Noise control register: feedback mode bit and period index.

use vstd::prelude::*;

use crate::apu::regs::Reg;

verus! {

pub const NOISE_MODE_MASK: u8 = 0x80;
pub const NOISE_PERIOD_MASK: u8 = 0x0F;

/// The register byte and a taken-on-read change flag.
pub struct LinearFeedback {
    pub data: u8,
    pub changed: bool,
}

impl LinearFeedback {
    pub fn new() -> (r: Self)
        ensures
            r.data == 0,
            !r.changed,
    {
        LinearFeedback { data: 0, changed: false }
    }

    /// Yields the byte once after each write.
    pub fn take_changed(&mut self) -> (r: Option<u8>)
        ensures
            !final(self).changed,
            final(self).data == old(self).data,
            r == if old(self).changed {
                Some(old(self).data)
            } else {
                None::<u8>
            },
    {
        if self.changed {
            self.changed = false;
            Some(self.data)
        } else {
            None
        }
    }

    /// Whether bit 7 selects the short feedback tap.
    pub fn get_mode(&self) -> (r: bool)
        ensures
            r == (self.data & NOISE_MODE_MASK != 0),
    {
        self.data & NOISE_MODE_MASK != 0
    }

    /// The 4-bit period-table index.
    pub fn get_period_index(&self) -> (r: usize)
        ensures
            r == self.data & NOISE_PERIOD_MASK,
            r < 16,
    {
        proof {
            crate::bits::lemma_u8_masks();
            let d = self.data;
            assert(d & 0x0F <= 0x0F);
        }
        (self.data & NOISE_PERIOD_MASK) as usize
    }

    /// Register write: replaces the `mask` bits and flags the change.
    pub fn write(&mut self, mask: u8, val: u8)
        ensures
            final(self).data == (old(self).data & !mask) | (val & mask),
            final(self).changed,
    {
        self.data = (self.data & !mask) | (val & mask);
        self.changed = true;
    }
}

impl Reg for LinearFeedback {
    open spec fn spec_data(&self) -> u8 {
        self.data
    }

    fn data(&self) -> u8 {
        self.data
    }
}

} // verus!
