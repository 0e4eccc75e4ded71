//! A flat byte memory with little-endian 16-bit accessors.

use vstd::prelude::*;

verus! {

pub const MEMORY_SIZE: usize = 0x10000;

/// A flat byte array covering the CPU address range.
pub struct Memory {
    pub mem: Vec<u8>,
}

impl Memory {
    /// The memory always spans the full address range.
    pub open spec fn wf(&self) -> bool {
        self.mem@.len() == MEMORY_SIZE
    }

    pub fn new() -> (r: Self)
        ensures
            r.wf(),
            forall|i: int| 0 <= i < MEMORY_SIZE ==> r.mem@[i] == 0,
    {
        let mut mem: Vec<u8> = Vec::new();
        let mut i: usize = 0;
        while i < MEMORY_SIZE
            invariant
                i == mem@.len() <= MEMORY_SIZE,
                forall|j: int| 0 <= j < i ==> mem@[j] == 0,
            decreases MEMORY_SIZE - i,
        {
            mem.push(0);
            i += 1;
        }
        Memory { mem }
    }

    pub fn mem_read(&self, addr: u16) -> (r: u8)
        requires
            self.wf(),
        ensures
            r == self.mem@[addr as int],
    {
        self.mem[addr as usize]
    }

    pub fn mem_write(&mut self, addr: u16, data: u8)
        requires
            old(self).wf(),
        ensures
            final(self).wf(),
            final(self).mem@ == old(self).mem@.update(addr as int, data),
    {
        self.mem.set(addr as usize, data);
    }

    /// Little-endian 16-bit read of the bytes at `pos` and `pos + 1`.
    pub fn mem_read_u16(&mut self, pos: u16) -> (r: u16)
        requires
            self.wf(),
            pos < 0xFFFF,
        ensures
            *final(self) == *old(self),
            r == old(self).mem@[pos as int] + old(self).mem@[pos as int + 1] * 0x100,
    {
        let lo = self.mem_read(pos);
        let hi = self.mem_read(pos + 1);
        proof {
            crate::bits::lemma_le_combine(lo, hi);
        }
        lo as u16 | ((hi as u16) << 8)
    }

    /// Little-endian 16-bit write of `data` at `pos` and `pos + 1`.
    pub fn mem_write_u16(&mut self, pos: u16, data: u16)
        requires
            old(self).wf(),
            pos < 0xFFFF,
        ensures
            final(self).wf(),
            final(self).mem@ == old(self).mem@.update(pos as int, (data & 0xFF) as u8).update(
                pos as int + 1,
                (data >> 8) as u8,
            ),
    {
        let lo: u8 = (data & 0xFF) as u8;
        let hi: u8 = (data >> 8) as u8;
        self.mem_write(pos, lo);
        self.mem_write(pos + 1, hi);
    }
}

} // verus!
