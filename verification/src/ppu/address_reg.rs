//! PPU address register (`0x2006`): the two-write address latch, kept as a
//! big-endian byte pair and wrapped into the 14-bit PPU address space.

use vstd::prelude::*;

use crate::ppu::control_reg::AddressInc;

verus! {

/// High and low byte of the latched address, in that order.
pub struct AddressReg {
    pub value: (u8, u8),
}

/// The 16-bit address held by a high/low byte pair.
pub open spec fn spec_addr_of(hi: u8, lo: u8) -> u16 {
    (hi * 0x100 + lo) as u16
}

/// An address above the 14-bit space wraps back into it.
pub open spec fn spec_mirror_addr(a: u16) -> u16 {
    if a >= 0x4000 {
        (a % 0x4000) as u16
    } else {
        a
    }
}

impl AddressReg {
    /// The address the register currently holds.
    pub open spec fn spec_get(&self) -> u16 {
        spec_addr_of(self.value.0, self.value.1)
    }

    pub fn new() -> (r: Self)
        ensures
            r.spec_get() == 0,
    {
        AddressReg { value: (0, 0) }
    }

    pub fn get(&self) -> (r: u16)
        ensures
            r == self.spec_get(),
    {
        proof {
            crate::bits::lemma_le_combine(self.value.1, self.value.0);
        }
        (self.value.0 as u16) << 8 | self.value.1 as u16
    }

    fn set(&mut self, data: u16)
        ensures
            final(self).value.0 == data >> 8,
            final(self).value.1 == data & 0xFF,
            final(self).spec_get() == data,
    {
        proof {
            crate::bits::lemma_le_split(data);
            crate::bits::lemma_le_combine((data & 0xFF) as u8, (data >> 8) as u8);
        }
        self.value = ((data >> 8) as u8, (data & 0xFF) as u8);
    }

    /// First write (latch low) replaces the high byte, second write the low
    /// byte; the result is wrapped into the 14-bit space.
    pub fn update(&mut self, data: u8, latch: bool)
        ensures
            final(self).spec_get() == spec_mirror_addr(
                if !latch {
                    spec_addr_of(data, old(self).value.1)
                } else {
                    spec_addr_of(old(self).value.0, data)
                },
            ),
    {
        if !latch {
            self.value.0 = data;
        } else {
            self.value.1 = data;
        }
        self.mirror_down_addr();
    }

    /// Steps the address by the data-port increment, wrapping at 16 bits and
    /// then into the 14-bit space.
    pub fn increment(&mut self, inc: AddressInc)
        ensures
            final(self).spec_get() == spec_mirror_addr(
                ((old(self).spec_get() + inc.spec_amount()) % 0x10000) as u16,
            ),
    {
        let cur = self.get();
        self.set(cur.wrapping_add(inc.amount()));
        self.mirror_down_addr();
    }

    fn mirror_down_addr(&mut self)
        ensures
            final(self).spec_get() == spec_mirror_addr(old(self).spec_get()),
    {
        let value = self.get();
        if value >= 0x4000 {
            self.set(value % 0x4000);
        }
    }
}

} // verus!
