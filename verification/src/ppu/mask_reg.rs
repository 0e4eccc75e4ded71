//! PPU mask register (`0x2001`): rendering enables and colour emphasis.

use vstd::prelude::*;

verus! {

pub const GREY_SCALE_FLAG: u8 = 0x01;
pub const SHOW_BACKGROUND_IN_LEFT_8_PIXELS_FLAG: u8 = 0x02;
pub const SHOW_SPRITES_IN_LEFT_8_PIXELS_FLAG: u8 = 0x04;
pub const ENABLE_BACKGROUND_RENDERING_FLAG: u8 = 0x08;
pub const ENABLE_SPRITE_RENDERING_FLAG: u8 = 0x10;
pub const EMPHASIZE_RED_FLAG: u8 = 0x20;
pub const EMPHASIZE_GREEN_FLAG: u8 = 0x40;
pub const EMPHASIZE_BLUE_FLAG: u8 = 0x80;

/// The mask register byte.
pub struct MaskReg {
    pub flags: u8,
}

impl MaskReg {
    pub fn new() -> (r: Self)
        ensures
            r.flags == 0,
    {
        MaskReg { flags: 0 }
    }

    pub fn get(&self) -> (r: u8)
        ensures
            r == self.flags,
    {
        self.flags
    }

    pub fn update(&mut self, value: u8)
        ensures
            final(self).flags == value,
    {
        self.flags = value;
    }

    pub fn show_sprites(&self) -> (r: bool)
        ensures
            r == (self.flags & ENABLE_SPRITE_RENDERING_FLAG != 0),
    {
        self.flags & ENABLE_SPRITE_RENDERING_FLAG != 0
    }

    pub fn show_background(&self) -> (r: bool)
        ensures
            r == (self.flags & ENABLE_BACKGROUND_RENDERING_FLAG != 0),
    {
        self.flags & ENABLE_BACKGROUND_RENDERING_FLAG != 0
    }
}

} // verus!
