//! The PPU's internal scroll registers: current address `v`, latched address
//! `t`, fine-X `x` and the shared write toggle `w`, with the dance they
//! perform under control, scroll, address, status and data accesses.

use vstd::prelude::*;

verus! {

pub const COARSE_X_SCROLL: u16 = 0x001F;
pub const COARSE_Y_SCROLL: u16 = 0x03E0;
pub const NAMETABLE_SELECT: u16 = 0x0C00;
pub const FINE_Y_SCROLL: u16 = 0x7000;

/// Bit 14 of the latched address, forced to zero by the first address write.
pub const BIT_Z: u16 = 0x4000;

/// Replaces the `mask` bits of `dest` with those of `src`.
pub open spec fn spec_assign_bits(dest: u16, src: u16, mask: u16) -> u16 {
    (dest & !mask) | (src & mask)
}

/// `t` after the first write to the address port: the six address high bits
/// land in bits 8..13 and bit 14 is cleared.
pub open spec fn spec_addr_first_write(t: u16, data: u8) -> u16 {
    spec_assign_bits(t, (data as u16) << 8, 0x3F00) & !BIT_Z
}

/// `t` after the second write to the address port: the low byte lands in
/// bits 0..7.
pub open spec fn spec_addr_second_write(t: u16, data: u8) -> u16 {
    spec_assign_bits(t, data as u16, 0x00FF)
}

/// `v` after the coarse-X step: the low five bits count up and a wrap from
/// 31 flips the horizontal name-table bit.
pub open spec fn spec_coarse_x_step(v: u16) -> u16 {
    if v & COARSE_X_SCROLL == COARSE_X_SCROLL {
        (v & !COARSE_X_SCROLL) ^ 0x0400
    } else {
        (v + 1) as u16
    }
}

/// `v` after the coarse-Y step: fine Y counts up with carry into coarse Y;
/// a wrap from coarse-Y 29 flips the vertical name-table bit, a wrap from 31
/// does not.
pub open spec fn spec_coarse_y_step(v: u16) -> u16 {
    if v & FINE_Y_SCROLL != FINE_Y_SCROLL {
        (v + 0x1000) as u16
    } else {
        let b = v & !FINE_Y_SCROLL;
        let y0 = (b & COARSE_Y_SCROLL) >> 5;
        if y0 == 29 {
            ((b ^ 0x0800) & !COARSE_Y_SCROLL) | (0u16 << 5)
        } else if y0 == 31 {
            (b & !COARSE_Y_SCROLL) | (0u16 << 5)
        } else {
            (b & !COARSE_Y_SCROLL) | ((y0 + 1) as u16) << 5
        }
    }
}

fn coarse_x_step(v: u16) -> (r: u16)
    ensures
        r == spec_coarse_x_step(v),
{
    if v & COARSE_X_SCROLL == COARSE_X_SCROLL {
        (v & !COARSE_X_SCROLL) ^ 0x0400
    } else {
        proof {
            crate::bits::lemma_u16_facts();
        }
        v + 1
    }
}

fn coarse_y_step(v: u16) -> (r: u16)
    ensures
        r == spec_coarse_y_step(v),
{
    if v & FINE_Y_SCROLL != FINE_Y_SCROLL {
        proof {
            crate::bits::lemma_u16_facts();
        }
        v + 0x1000
    } else {
        let b = v & !FINE_Y_SCROLL;
        let y0 = (b & COARSE_Y_SCROLL) >> 5;
        proof {
            crate::bits::lemma_u16_facts();
        }
        if y0 == 29 {
            ((b ^ 0x0800) & !COARSE_Y_SCROLL) | (0u16 << 5)
        } else if y0 == 31 {
            (b & !COARSE_Y_SCROLL) | (0u16 << 5)
        } else {
            (b & !COARSE_Y_SCROLL) | ((y0 + 1) << 5)
        }
    }
}

/// The internal register file.
pub struct InternalRegs {
    pub v: u16,
    pub t: u16,
    pub x: u8,
    pub w: bool,
}

fn assign_bits(dest: u16, src: u16, mask: u16) -> (r: u16)
    ensures
        r == spec_assign_bits(dest, src, mask),
{
    (dest & !mask) | (src & mask)
}

impl InternalRegs {
    pub fn new() -> (r: Self)
        ensures
            r.v == 0,
            r.t == 0,
            r.x == 0,
            !r.w,
    {
        InternalRegs { v: 0, t: 0, x: 0, w: false }
    }

    /// A control-register write feeds its low two bits into the name-table
    /// bits of the latched address.
    pub fn ctrl_write(&mut self, data: u8)
        ensures
            final(self).t == spec_assign_bits(old(self).t, (data as u16) << 10, NAMETABLE_SELECT),
            final(self).v == old(self).v,
            final(self).x == old(self).x,
            final(self).w == old(self).w,
    {
        self.t = assign_bits(self.t, (data as u16) << 10, NAMETABLE_SELECT);
    }

    /// A status-register read resets the shared write toggle.
    pub fn status_read(&mut self)
        ensures
            !final(self).w,
            final(self).v == old(self).v,
            final(self).t == old(self).t,
            final(self).x == old(self).x,
    {
        self.w = false;
    }

    /// A scroll-register write: the first loads coarse and fine X, the second
    /// coarse and fine Y, toggling the write toggle.
    pub fn scroll_write(&mut self, data: u8)
        ensures
            final(self).w == !old(self).w,
            final(self).v == old(self).v,
            !old(self).w ==> {
                &&& final(self).t == spec_assign_bits(
                    old(self).t,
                    (data as u16) >> 3,
                    COARSE_X_SCROLL,
                )
                &&& final(self).x == data & 0x07
            },
            old(self).w ==> {
                &&& final(self).t == spec_assign_bits(
                    spec_assign_bits(old(self).t, (data as u16) << 2, COARSE_Y_SCROLL),
                    (data as u16) << 12,
                    FINE_Y_SCROLL,
                )
                &&& final(self).x == old(self).x
            },
    {
        if !self.w {
            self.t = assign_bits(self.t, (data as u16) >> 3, COARSE_X_SCROLL);
            self.x = data & 0x07;
        } else {
            self.t = assign_bits(self.t, (data as u16) << 2, COARSE_Y_SCROLL);
            self.t = assign_bits(self.t, (data as u16) << 12, FINE_Y_SCROLL);
        }
        self.togle_w();
    }

    /// An address-register write: the first loads the high bits and clears
    /// bit 14 of the latch, the second loads the low byte and copies the
    /// latch into the current address.
    pub fn addr_write(&mut self, data: u8)
        ensures
            final(self).w == !old(self).w,
            final(self).x == old(self).x,
            !old(self).w ==> {
                &&& final(self).t == spec_addr_first_write(old(self).t, data)
                &&& final(self).v == old(self).v
            },
            old(self).w ==> {
                &&& final(self).t == spec_addr_second_write(old(self).t, data)
                &&& final(self).v == final(self).t
            },
    {
        if !self.w {
            self.t = assign_bits(self.t, (data as u16) << 8, 0x3F00);
            self.t &= !BIT_Z;
        } else {
            self.t = assign_bits(self.t, data as u16, 0x00FF);
            self.v = self.t;
        }
        self.togle_w();
    }

    /// A data-port access steps the current address by 1 or 32.
    pub fn data_read_write(&mut self, inc_bit: bool)
        ensures
            final(self).v == (old(self).v + if inc_bit {
                32int
            } else {
                1int
            }) % 0x10000,
            final(self).t == old(self).t,
            final(self).x == old(self).x,
            final(self).w == old(self).w,
    {
        self.v = self.v.wrapping_add(if inc_bit { 32 } else { 1 });
    }

    pub fn get_w(&self) -> (r: bool)
        ensures
            r == self.w,
    {
        self.w
    }

    /// Steps coarse X, flipping the horizontal name-table on wrap from 31.
    pub fn coarse_x_inc(&mut self)
        ensures
            final(self).v == spec_coarse_x_step(old(self).v),
            final(self).t == old(self).t,
            final(self).x == old(self).x,
            final(self).w == old(self).w,
    {
        self.v = coarse_x_step(self.v);
    }

    /// Steps fine Y with carry into coarse Y; wrap from coarse-Y 29 flips the
    /// vertical name-table, wrap from 31 does not.
    pub fn coarse_y_inc(&mut self)
        ensures
            final(self).v == spec_coarse_y_step(old(self).v),
            final(self).t == old(self).t,
            final(self).x == old(self).x,
            final(self).w == old(self).w,
    {
        self.v = coarse_y_step(self.v);
    }

    /// The name-table byte address selected by the low 12 bits of `v`.
    pub fn fetch_tile_addr(&self) -> (r: u16)
        ensures
            r == 0x2000 | (self.v & 0x0FFF),
    {
        0x2000 | (self.v & 0x0FFF)
    }

    /// The attribute-table byte address for the tile selected by `v`.
    pub fn fetch_attr_addr(&self) -> (r: u16)
        ensures
            r == 0x23C0 | (self.v & 0x0C00) | ((self.v >> 4) & 0x38) | ((self.v >> 2) & 0x07),
    {
        0x23C0 | (self.v & 0x0C00) | ((self.v >> 4) & 0x38) | ((self.v >> 2) & 0x07)
    }

    /// Full X scroll latched in `t` and the fine-X register.
    pub fn get_scroll_x(&self) -> (r: u16)
        ensures
            r == ((self.t & COARSE_X_SCROLL) << 3) | self.x as u16,
    {
        ((self.t & COARSE_X_SCROLL) << 3) | (self.x as u16)
    }

    /// Full Y scroll latched in `t`.
    pub fn get_scroll_y(&self) -> (r: u16)
        ensures
            r == ((self.t & COARSE_Y_SCROLL) >> 2) | ((self.t & FINE_Y_SCROLL) >> 12),
    {
        ((self.t & COARSE_Y_SCROLL) >> 2) | ((self.t & FINE_Y_SCROLL) >> 12)
    }

    /// The name-table select bits latched in `t`.
    pub fn get_nametable_select(&self) -> (r: u16)
        ensures
            r == (self.t & NAMETABLE_SELECT) >> 10,
    {
        (self.t & NAMETABLE_SELECT) >> 10
    }

    /// Dot 257: the horizontal bits of `t` are copied into `v`.
    pub fn dot_257(&mut self)
        ensures
            final(self).v == spec_assign_bits(old(self).v, old(self).t, 0x041F),
            final(self).t == old(self).t,
            final(self).x == old(self).x,
            final(self).w == old(self).w,
    {
        self.v = assign_bits(self.v, self.t, 0x041F);
    }

    /// Dots 280-304 of the pre-render scanline: the vertical bits of `t` are
    /// copied into `v`.
    pub fn dot_280_to_304(&mut self)
        ensures
            final(self).v == spec_assign_bits(old(self).v, old(self).t, 0x7BE0),
            final(self).t == old(self).t,
            final(self).x == old(self).x,
            final(self).w == old(self).w,
    {
        self.v = assign_bits(self.v, self.t, 0x7BE0);
    }

    pub fn get_v(&self) -> (r: u16)
        ensures
            r == self.v,
    {
        self.v
    }

    pub fn get_x(&self) -> (r: u8)
        ensures
            r == self.x,
    {
        self.x
    }

    fn togle_w(&mut self)
        ensures
            final(self).w == !old(self).w,
            final(self).v == old(self).v,
            final(self).t == old(self).t,
            final(self).x == old(self).x,
    {
        self.w = !self.w;
    }
}

/// After a write-pair to the address port, bit 14 of the current address is
/// zero: the first write clears it in the latch and the second write copies
/// the latch, leaving bit 14 untouched.
pub proof fn lemma_addr_write_pair_clears_bit14(t: u16, hi: u8, lo: u8)
    ensures
        spec_addr_second_write(spec_addr_first_write(t, hi), lo) & BIT_Z == 0,
{
    assert(((((t & !0x3F00) | (((hi as u16) << 8) & 0x3F00)) & !0x4000u16) & !0x00FFu16 | (
    lo as u16 & 0x00FF)) & 0x4000u16 == 0) by (bit_vector);
}

} // verus!
