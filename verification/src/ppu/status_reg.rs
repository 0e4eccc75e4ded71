//! PPU status register (`0x2002`): vblank, sprite-0 hit and sprite overflow.

use vstd::prelude::*;

verus! {

pub const PPU_OPEN_BUS: u8 = 0x1F;
pub const SPRITE_OVERFLOW_FLAG: u8 = 0x20;
pub const SPRITE_0_HIT_FLAG: u8 = 0x40;
pub const VBLANK_FLAG: u8 = 0x80;

/// The status register byte.
pub struct StatusReg {
    pub flags: u8,
}

impl StatusReg {
    pub fn new() -> (r: Self)
        ensures
            r.flags == 0,
    {
        StatusReg { flags: 0 }
    }

    /// The raw byte, with no side effect; the read-side effects of the port
    /// live on the PPU, which also resets the write toggle.
    pub fn get(&self) -> (r: u8)
        ensures
            r == self.flags,
    {
        self.flags
    }

    pub fn update(&mut self, value: u8)
        ensures
            final(self).flags == value,
    {
        self.flags = value;
    }

    pub fn set_vblank(&mut self)
        ensures
            final(self).flags == old(self).flags | VBLANK_FLAG,
    {
        self.flags |= VBLANK_FLAG;
    }

    pub fn reset_vblank(&mut self)
        ensures
            final(self).flags == old(self).flags & !VBLANK_FLAG,
    {
        self.flags &= !VBLANK_FLAG;
    }

    pub fn is_in_vblank(&self) -> (r: bool)
        ensures
            r == (self.flags & VBLANK_FLAG != 0),
    {
        self.flags & VBLANK_FLAG != 0
    }

    pub fn set_sprite_zero_hit(&mut self)
        ensures
            final(self).flags == old(self).flags | SPRITE_0_HIT_FLAG,
    {
        self.flags |= SPRITE_0_HIT_FLAG;
    }

    pub fn unset_sprite_zero_hit(&mut self)
        ensures
            final(self).flags == old(self).flags & !SPRITE_0_HIT_FLAG,
    {
        self.flags &= !SPRITE_0_HIT_FLAG;
    }

    pub fn is_sprite_0_hit(&self) -> (r: bool)
        ensures
            r == (self.flags & SPRITE_0_HIT_FLAG != 0),
    {
        self.flags & SPRITE_0_HIT_FLAG != 0
    }

    pub fn unset_sprite_overflow(&mut self)
        ensures
            final(self).flags == old(self).flags & !SPRITE_OVERFLOW_FLAG,
    {
        self.flags &= !SPRITE_OVERFLOW_FLAG;
    }
}

} // verus!
