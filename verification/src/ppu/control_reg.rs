//! PPU control register (`0x2000`): NMI enable, pattern-table selects,
//! sprite size, VRAM address increment and base name-table.

use vstd::prelude::*;

verus! {

pub const NAME_TABLE_FLAGS: u8 = 0x03;
pub const VRAM_ADDR_INC_FLAG: u8 = 0x04;
pub const SPRITE_PATTERN_ADDR: u8 = 0x08;
pub const BACKGROUND_PATTERN_ADDR_FLAG: u8 = 0x10;
pub const SPRITE_SIZE_FLAG: u8 = 0x20;
pub const MASTER_SLAVE_FLAG: u8 = 0x40;
pub const GENERATE_NMI_FLAG: u8 = 0x80;

/// How the data-port address register steps after each access.
#[derive(Debug, Clone, Copy, PartialEq, Eq, Structural)]
pub enum AddressInc {
    GoingAcross,
    GoingDown,
}

impl AddressInc {
    /// The step each access applies: 1 across a row, 32 down a column.
    pub open spec fn spec_amount(self) -> u16 {
        match self {
            AddressInc::GoingAcross => 1,
            AddressInc::GoingDown => 32,
        }
    }

    pub fn amount(self) -> (r: u16)
        ensures
            r == self.spec_amount(),
    {
        match self {
            AddressInc::GoingAcross => 1,
            AddressInc::GoingDown => 32,
        }
    }
}

/// The control register byte.
pub struct ControlReg {
    pub flags: u8,
}

impl ControlReg {
    pub fn new() -> (r: Self)
        ensures
            r.flags == 0,
    {
        ControlReg { flags: 0 }
    }

    pub fn update(&mut self, data: u8)
        ensures
            final(self).flags == data,
    {
        self.flags = data;
    }

    pub fn vram_addr_increment(&self) -> (r: AddressInc)
        ensures
            r == (if self.flags & VRAM_ADDR_INC_FLAG != 0 {
                AddressInc::GoingDown
            } else {
                AddressInc::GoingAcross
            }),
    {
        if self.flags & VRAM_ADDR_INC_FLAG != 0 {
            AddressInc::GoingDown
        } else {
            AddressInc::GoingAcross
        }
    }

    /// Whether bit 2 selects the down-a-column increment.
    pub fn addr_inc(&self) -> (r: bool)
        ensures
            r == (self.flags & VRAM_ADDR_INC_FLAG != 0),
    {
        self.flags & VRAM_ADDR_INC_FLAG != 0
    }

    pub fn gen_vblank_nmi(&self) -> (r: bool)
        ensures
            r == (self.flags & GENERATE_NMI_FLAG != 0),
    {
        self.flags & GENERATE_NMI_FLAG != 0
    }

    /// Base address of the background pattern table (bit 4).
    pub fn bknd_pattern_addr(&self) -> (r: u16)
        ensures
            r == (if self.flags & BACKGROUND_PATTERN_ADDR_FLAG != 0 {
                0x1000u16
            } else {
                0u16
            }),
    {
        if self.flags & BACKGROUND_PATTERN_ADDR_FLAG != 0 {
            0x1000
        } else {
            0x0000
        }
    }

    /// Base address of the sprite pattern table (bit 3).
    pub fn sprt_pattern_addr(&self) -> (r: u16)
        ensures
            r == (if self.flags & SPRITE_PATTERN_ADDR != 0 {
                0x1000u16
            } else {
                0u16
            }),
    {
        if self.flags & SPRITE_PATTERN_ADDR != 0 {
            0x1000
        } else {
            0x0000
        }
    }

    /// Sprite height in scanlines: 8, or 16 when bit 5 is set.
    pub fn sprite_size(&self) -> (r: u8)
        ensures
            r == (if self.flags & SPRITE_SIZE_FLAG != 0 {
                16u8
            } else {
                8u8
            }),
    {
        if self.flags & SPRITE_SIZE_FLAG != 0 {
            16
        } else {
            8
        }
    }

    /// Base address of the name-table selected by bits 0-1.
    pub fn nametable_addr(&self) -> (r: u16)
        ensures
            r == 0x2000 + (self.flags & NAME_TABLE_FLAGS) * 0x400,
    {
        let offset = self.flags & NAME_TABLE_FLAGS;
        proof {
            crate::bits::lemma_u8_masks();
        }
        0x2000 + (offset as u16) * 0x400
    }
}

} // verus!
