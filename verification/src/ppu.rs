//! The picture-processing unit: a dot-clocked state machine that renders the
//! frame, owns its own 16 KiB address space and raises the vertical-blank
//! interrupt.

use vstd::prelude::*;

pub mod address_reg;
pub mod control_reg;
pub mod internal_regs;
pub mod mask_reg;
pub mod render;
pub mod scroll_reg;
pub mod status_reg;

use crate::rom::Mirroring;
use address_reg::AddressReg;
use control_reg::ControlReg;
use internal_regs::InternalRegs;
use mask_reg::MaskReg;
use render::frame::Frame;
use scroll_reg::ScrollReg;
use status_reg::StatusReg;

verus! {

pub const PALETTE_TABLE_SIZE: usize = 32;
pub const VRAM_SIZE: usize = 2048;
pub const OAM_DATA_SIZE: usize = 256;
pub const OAM_CACHE_SIZE: usize = 8;

pub const VISIBLE_SCANLINES: u16 = 239;
pub const SCANLINES_PER_FRAME: u16 = 262;
pub const DOTS_PER_SCANLINE: u16 = 341;
pub const VERTICAL_BLANKING_LINE: u16 = 241;
pub const PRE_RENDER_SCANLINE: u16 = 261;

pub const FLIP_HORIZONTAL: u8 = 0x40;
pub const FLIP_VERTICAL: u8 = 0x80;
pub const BEHIND_BACKGROUND: u8 = 0x20;

/// Where a name-table address lands in the 2 KiB of physical video RAM,
/// after the cartridge's mirroring mode folds the four logical tables:
/// vertical keeps tables 0 and 1 side by side, horizontal pairs 0 with 1
/// and 2 with 3. The unsupported four-screen mode folds like vertical.
pub open spec fn spec_mirror_vram(mirroring: Mirroring, addr: u16) -> int {
    let m = addr & 0x2FFF;
    let idx = if m >= 0x2000 { m - 0x2000 } else { (m & 0x0FFF) as int };
    let table = idx / 0x400;
    if mirroring is Horizontal {
        if table == 1 || table == 2 {
            idx - 0x400
        } else if table == 3 {
            idx - 0x800
        } else {
            idx
        }
    } else {
        if table == 2 || table == 3 {
            idx - 0x800
        } else {
            idx
        }
    }
}

/// What a side-effect-free read of the PPU address space returns: pattern
/// bytes from the character-ROM (absent ROM reads as zero), name-table
/// bytes from the mirrored video RAM, and palette bytes from palette RAM.
pub open spec fn spec_peek(p: Ppu, addr: u16) -> u8 {
    let a = addr & 0x3FFF;
    if a < 0x2000 {
        if a < p.chr_rom@.len() {
            p.chr_rom@[a as int]
        } else {
            0
        }
    } else if a < 0x3F00 {
        p.vram@[spec_mirror_vram(p.mirroring, a)]
    } else {
        p.palette_table@[spec_palette_index(a)]
    }
}

/// The background palette address for the dot at `cycles`: the name-table
/// byte under `v` picks a tile, fine Y picks its two pattern-plane bytes,
/// fine X picks the bit pair, and the attribute quadrant supplies the upper
/// palette bits when the pixel is opaque.
pub open spec fn spec_bg_pixel(p: Ppu) -> u16 {
    let x = (p.cycles - 1) as u16;
    let fine_x = (((p.internal_regs.x as u16) + x) as u16) & 7;
    let v = p.internal_regs.v;
    let tile = spec_peek(p, 0x2000 | (v & 0x0FFF)) as u16;
    let fine_y = (v >> 12) & 0x7;
    let bknd: u16 = if p.ctrl_reg.flags & 0x10 != 0 {
        0x1000
    } else {
        0
    };
    let pattern_addr = ((tile * 16 + fine_y) as u16) | bknd;
    let shift = (7 - fine_x) as u16;
    let lo_bit = ((spec_peek(p, pattern_addr) >> shift) & 1) as u16;
    let hi_bit = ((spec_peek(p, pattern_addr | 8) >> shift) & 1) as u16;
    let palette_addr = lo_bit | (hi_bit << 1);
    if palette_addr == 0 {
        0
    } else {
        let attr_addr = 0x23C0 | (v & 0x0C00) | ((v >> 4) & 0x38) | ((v >> 2) & 0x07);
        let quad = ((v >> 4) & 4) | (v & 2);
        let attr_bits = ((spec_peek(p, attr_addr) as u16) >> quad) & 0x3;
        palette_addr | (attr_bits << 2)
    }
}

/// The palette-RAM slot an address selects: 32 bytes, with entries
/// `0x10/14/18/1C` mirrored down onto `0x00/04/08/0C`.
pub open spec fn spec_palette_index(addr: u16) -> int {
    let idx = addr % 32;
    if idx == 0x10 || idx == 0x14 || idx == 0x18 || idx == 0x1C {
        idx - 0x10
    } else {
        idx as int
    }
}

/// The picture-processing unit.
pub struct Ppu {
    pub chr_rom: Vec<u8>,
    pub screen: Frame,
    pub palette_table: Vec<u8>,
    pub vram: Vec<u8>,
    pub oam_data: Vec<u8>,
    pub oam_cache: Vec<u8>,
    pub oam_cache_len: u8,
    pub mirroring: Mirroring,
    pub ctrl_reg: ControlReg,
    pub mask_reg: MaskReg,
    pub status_reg: StatusReg,
    pub oam_addr_reg: u8,
    pub scroll_reg: ScrollReg,
    pub addr_reg: AddressReg,
    pub internal_regs: InternalRegs,
    pub internal_data_buf: u8,
    pub scanline: u16,
    pub cycles: u16,
    pub nmi_interrupt: Option<u8>,
    pub is_odd_frame: bool,
    pub frame_ready: bool,
    /// How many dots the unit has observed.
    pub dots: Ghost<nat>,
}

impl Ppu {
    /// Fixed sizes and position bounds every operation preserves.
    pub open spec fn wf(&self) -> bool {
        &&& self.palette_table@.len() == PALETTE_TABLE_SIZE
        &&& self.vram@.len() == VRAM_SIZE
        &&& self.oam_data@.len() == OAM_DATA_SIZE
        &&& self.oam_cache@.len() == OAM_CACHE_SIZE
        &&& self.oam_cache_len <= OAM_CACHE_SIZE
        &&& self.screen.wf()
        &&& self.cycles < DOTS_PER_SCANLINE
        &&& self.scanline <= SCANLINES_PER_FRAME
    }

    pub fn new(chr_rom: Vec<u8>, mirroring: Mirroring) -> (r: Self)
        ensures
            r.wf(),
            r.dots@ == 0,
            r.chr_rom@ == chr_rom@,
            r.mirroring == mirroring,
            r.scanline == 0,
            r.cycles == 0,
            r.nmi_interrupt is None,
            r.status_reg.flags == 0,
            !r.internal_regs.w,
    {
        Ppu {
            chr_rom,
            mirroring,
            screen: Frame::new(),
            vram: make_zeroed(VRAM_SIZE),
            oam_data: make_zeroed(OAM_DATA_SIZE),
            oam_cache: make_zeroed(OAM_CACHE_SIZE),
            oam_cache_len: 0,
            palette_table: make_zeroed(PALETTE_TABLE_SIZE),
            ctrl_reg: ControlReg::new(),
            mask_reg: MaskReg::new(),
            status_reg: StatusReg::new(),
            oam_addr_reg: 0,
            scroll_reg: ScrollReg::new(),
            addr_reg: AddressReg::new(),
            internal_regs: InternalRegs::new(),
            internal_data_buf: 0,
            scanline: 0,
            cycles: 0,
            nmi_interrupt: None,
            is_odd_frame: false,
            frame_ready: false,
            dots: Ghost(0),
        }
    }

    /// Control-register write: updates the register and the name-table bits
    /// of the scroll latch; turning NMI generation on during vertical blank
    /// raises the interrupt at once.
    pub fn write_to_ctrl(&mut self, value: u8)
        requires
            old(self).wf(),
        ensures
            final(self).wf(),
            final(self).ctrl_reg.flags == value,
            final(self).dots == old(self).dots,
            old(self).ctrl_reg.flags & 0x80 == 0 && value & 0x80 != 0 && old(self).status_reg.flags & 0x80 != 0 ==> final(self).nmi_interrupt is Some,
    {
        let prev_nmi_status = self.ctrl_reg.gen_vblank_nmi();
        self.ctrl_reg.update(value);
        self.internal_regs.ctrl_write(value);
        if !prev_nmi_status && self.ctrl_reg.gen_vblank_nmi() && self.status_reg.is_in_vblank() {
            self.nmi_interrupt = Some(1);
        }
    }

    pub fn write_to_mask(&mut self, value: u8)
        requires
            old(self).wf(),
        ensures
            final(self).wf(),
            final(self).mask_reg.flags == value,
            final(self).dots == old(self).dots,
    {
        self.mask_reg.update(value);
    }

    /// Status-register read: returns the byte, then clears the vblank flag
    /// and resets the shared write toggle `w`.
    pub fn read_status(&mut self) -> (data: u8)
        requires
            old(self).wf(),
        ensures
            final(self).wf(),
            data == old(self).status_reg.flags,
            final(self).status_reg.flags == old(self).status_reg.flags & !(0x80u8),
            !final(self).internal_regs.w,
            final(self).internal_regs.v == old(self).internal_regs.v,
            final(self).internal_regs.t == old(self).internal_regs.t,
            final(self).dots == old(self).dots,
    {
        let data = self.status_reg.get();
        self.status_reg.reset_vblank();
        self.internal_regs.status_read();
        data
    }

    pub fn write_to_oam_addr(&mut self, value: u8)
        requires
            old(self).wf(),
        ensures
            final(self).wf(),
            final(self).oam_addr_reg == value,
            final(self).dots == old(self).dots,
    {
        self.oam_addr_reg = value;
    }

    pub fn read_oam_data(&self) -> (r: u8)
        requires
            self.wf(),
        ensures
            r == self.oam_data@[self.oam_addr_reg as int],
    {
        self.oam_data[self.oam_addr_reg as usize]
    }

    /// Object-attribute write: stores at the OAM address, which then steps.
    pub fn write_to_oam_data(&mut self, value: u8)
        requires
            old(self).wf(),
        ensures
            final(self).wf(),
            final(self).oam_data@ == old(self).oam_data@.update(
                old(self).oam_addr_reg as int,
                value,
            ),
            final(self).oam_addr_reg == (old(self).oam_addr_reg + 1) % 256,
            final(self).dots == old(self).dots,
    {
        self.oam_data.set(self.oam_addr_reg as usize, value);
        self.oam_addr_reg = self.oam_addr_reg.wrapping_add(1);
    }

    /// Scroll-register write: feeds the two-write X/Y dance of the internal
    /// latch, and keeps the plain scroll latch in step.
    pub fn write_to_scroll(&mut self, value: u8)
        requires
            old(self).wf(),
        ensures
            final(self).wf(),
            final(self).internal_regs.w == !old(self).internal_regs.w,
            final(self).scroll_reg.x == if !old(self).internal_regs.w {
                value
            } else {
                old(self).scroll_reg.x
            },
            final(self).scroll_reg.y == if old(self).internal_regs.w {
                value
            } else {
                old(self).scroll_reg.y
            },
            final(self).dots == old(self).dots,
    {
        let w = self.internal_regs.get_w();
        self.scroll_reg.write(value, w);
        self.internal_regs.scroll_write(value);
    }

    /// Address-register write: high byte first (bit 14 cleared in the
    /// latch), low byte second (latch copied into the current address).
    pub fn write_to_ppu_addr(&mut self, value: u8)
        requires
            old(self).wf(),
        ensures
            final(self).wf(),
            final(self).internal_regs.w == !old(self).internal_regs.w,
            !old(self).internal_regs.w ==> final(self).internal_regs.t
                == internal_regs::spec_addr_first_write(old(self).internal_regs.t, value),
            old(self).internal_regs.w ==> {
                &&& final(self).internal_regs.t == internal_regs::spec_addr_second_write(
                    old(self).internal_regs.t,
                    value,
                )
                &&& final(self).internal_regs.v == final(self).internal_regs.t
            },
            final(self).dots == old(self).dots,
    {
        let w = self.internal_regs.get_w();
        self.addr_reg.update(value, w);
        self.internal_regs.addr_write(value);
    }

    /// Data-port read: buffered below the palette range (the prior buffer
    /// contents come back and the buffer refills), direct within it; the
    /// current address then steps by 1 or 32.
    pub fn read_data(&mut self) -> (r: u8)
        requires
            old(self).wf(),
        ensures
            final(self).wf(),
            final(self).dots == old(self).dots,
            ({
                let addr = old(self).internal_regs.v & 0x3FFF;
                &&& (addr < 0x3000 ==> r == old(self).internal_data_buf && final(self).internal_data_buf == spec_peek(*old(self), addr))
                &&& (0x3000 <= addr < 0x3F00 ==> r == 0 && final(self).internal_data_buf == old(self).internal_data_buf)
                &&& (0x3F00 <= addr ==> r == old(self).palette_table@[spec_palette_index(addr)])
            }),
            final(self).internal_regs.v == (old(self).internal_regs.v + (if old(self).ctrl_reg.flags & 0x04 != 0 {
                32int
            } else {
                1int
            })) % 0x10000,
    {
        proof {
            crate::bits::lemma_u16_facts();
        }
        let addr = self.internal_regs.get_v() & 0x3FFF;
        let res: u8;

        if addr < 0x2000 {
            res = self.internal_data_buf;
            self.internal_data_buf = if (addr as usize) < self.chr_rom.len() {
                self.chr_rom[addr as usize]
            } else {
                0
            };
        } else if addr < 0x3000 {
            res = self.internal_data_buf;
            let idx = self.mirror_vram_addr(addr);
            self.internal_data_buf = self.vram[idx];
        } else if addr < 0x3F00 {
            // the unused range: an ignorable warning, read as open bus
            res = 0;
        } else {
            let idx = Self::get_palette_table_index(addr);
            res = self.palette_table[idx];
        }

        self.handle_data_internal_regs();
        res
    }

    /// Data-port write: stores into video RAM or palette RAM; the current
    /// address then steps by 1 or 32. Writes to the pattern range and the
    /// unused range are ignorable warnings and are dropped.
    pub fn write_to_data(&mut self, value: u8)
        requires
            old(self).wf(),
        ensures
            final(self).wf(),
            final(self).dots == old(self).dots,
            ({
                let addr = old(self).internal_regs.v & 0x3FFF;
                &&& (0x2000 <= addr < 0x3000 ==> final(self).vram@ == old(self).vram@.update(
                    spec_mirror_vram(old(self).mirroring, addr),
                    value,
                ))
                &&& (0x3F00 <= addr ==> final(self).palette_table@ == old(self).palette_table@.update(spec_palette_index(addr), value))
                &&& (addr < 0x2000 || (0x3000 <= addr < 0x3F00) ==> final(self).vram@ == old(self).vram@ && final(self).palette_table@ == old(self).palette_table@)
            }),
            final(self).internal_regs.v == (old(self).internal_regs.v + (if old(self).ctrl_reg.flags & 0x04 != 0 {
                32int
            } else {
                1int
            })) % 0x10000,
    {
        let addr = self.internal_regs.get_v() & 0x3FFF;

        if addr < 0x2000 {
            // pattern tables are cartridge ROM: the write is dropped
        } else if addr < 0x3000 {
            let idx = self.mirror_vram_addr(addr);
            self.vram.set(idx, value);
        } else if addr < 0x3F00 {
            // the unused range: an ignorable warning, the write is dropped
        } else {
            let idx = Self::get_palette_table_index(addr);
            self.palette_table.set(idx, value);
        }

        self.handle_data_internal_regs();
    }

    fn handle_data_internal_regs(&mut self)
        ensures
            final(self).internal_regs.v == (old(self).internal_regs.v + (if old(self).ctrl_reg.flags & 0x04 != 0 {
                32int
            } else {
                1int
            })) % 0x10000,
            final(self).internal_regs.t == old(self).internal_regs.t,
            final(self).internal_regs.w == old(self).internal_regs.w,
            *final(self) == (Ppu { internal_regs: final(self).internal_regs, ..*old(self) }),
    {
        self.internal_regs.data_read_write(self.ctrl_reg.addr_inc());
    }

    /// The physical video-RAM slot for a name-table address.
    fn mirror_vram_addr(&self, addr: u16) -> (r: usize)
        ensures
            r == spec_mirror_vram(self.mirroring, addr),
            r < VRAM_SIZE,
    {
        let mirrored: u16 = addr & 0x2FFF;
        proof {
            crate::bits::lemma_u16_facts();
        }
        let vram_indx: u16 = if mirrored >= 0x2000 {
            mirrored - 0x2000
        } else {
            // addresses below the name-table window fold onto table 0
            mirrored & 0x0FFF
        };
        let name_table = vram_indx / 0x400;

        let r = match self.mirroring {
            Mirroring::Horizontal => {
                if name_table == 1 || name_table == 2 {
                    vram_indx - 0x400
                } else if name_table == 3 {
                    vram_indx - 0x800
                } else {
                    vram_indx
                }
            },
            _ => {
                if name_table == 2 || name_table == 3 {
                    vram_indx - 0x800
                } else {
                    vram_indx
                }
            },
        };
        r as usize
    }

    fn get_palette_table_index(addr: u16) -> (r: usize)
        ensures
            r == spec_palette_index(addr),
            r < PALETTE_TABLE_SIZE,
    {
        let idx: u16 = addr % 32;
        if idx == 0x10 || idx == 0x14 || idx == 0x18 || idx == 0x1C {
            (idx - 0x10) as usize
        } else {
            idx as usize
        }
    }

    /// Reads the PPU address space without the data-port side effects; the
    /// renderer's fetches go through here.
    pub(crate) fn peek_vram(&self, addr: u16) -> (r: u8)
        requires
            self.wf(),
        ensures
            r == spec_peek(*self, addr),
    {
        let addr = addr & 0x3FFF;
        if addr < 0x2000 {
            if (addr as usize) < self.chr_rom.len() {
                self.chr_rom[addr as usize]
            } else {
                0
            }
        } else if addr < 0x3F00 {
            let idx = self.mirror_vram_addr(addr);
            self.vram[idx]
        } else {
            let idx = Self::get_palette_table_index(addr);
            self.palette_table[idx]
        }
    }

    /// The OAM-DMA port: 256 bytes stream through the OAM-data write, so
    /// byte `i` of the page lands `i` slots past the OAM address.
    pub fn write_to_oam_dma(&mut self, data: &[u8])
        requires
            old(self).wf(),
            data@.len() == OAM_DATA_SIZE,
        ensures
            final(self).wf(),
            final(self).dots == old(self).dots,
            final(self).oam_addr_reg == old(self).oam_addr_reg,
            forall|i: int|
                0 <= i < 256 ==> final(self).oam_data@[(old(self).oam_addr_reg + i) % 256]
                    == data@[i],
    {
        let mut i: usize = 0;
        while i < OAM_DATA_SIZE
            invariant
                self.wf(),
                data@.len() == OAM_DATA_SIZE,
                i <= OAM_DATA_SIZE,
                self.dots == old(self).dots,
                self.oam_addr_reg == ((old(self).oam_addr_reg + i) % 256),
                forall|j: int|
                    0 <= j < i ==> self.oam_data@[(old(self).oam_addr_reg + j) % 256] == data@[j],
            decreases OAM_DATA_SIZE - i,
        {
            self.write_to_oam_data(data[i]);
            i += 1;
        }
    }

    pub fn take_nmi_interrupt(&mut self) -> (r: Option<u8>)
        ensures
            r == old(self).nmi_interrupt,
            final(self).nmi_interrupt is None,
            *final(self) == (Ppu { nmi_interrupt: None, ..*old(self) }),
    {
        let r = self.nmi_interrupt;
        self.nmi_interrupt = None;
        r
    }

    pub fn is_nmi_interrupt(&self) -> (r: bool)
        ensures
            r == (self.nmi_interrupt is Some),
    {
        self.nmi_interrupt.is_some()
    }

    fn is_rendering(&self) -> (r: bool)
        ensures
            r == (self.mask_reg.flags & 0x18 != 0),
    {
        proof {
            crate::bits::lemma_u8_masks();
        }
        self.mask_reg.show_sprites() || self.mask_reg.show_background()
    }

    /// One dot. Visible scanlines render a pixel and run the scroll
    /// updates; scanline 241 dot 1 begins vertical blank (raising NMI when
    /// enabled); the pre-render scanline's dot 1 clears the frame's status
    /// flags; on odd frames with rendering enabled, the first dot of the
    /// frame is skipped.
    pub fn tick(&mut self)
        requires
            old(self).wf(),
        ensures
            final(self).wf(),
            final(self).dots@ == old(self).dots@ + 1,
            old(self).scanline < SCANLINES_PER_FRAME && old(self).cycles < 340 ==> final(self).cycles == old(self).cycles + 1 && final(self).scanline == old(self).scanline,
            old(self).scanline < SCANLINES_PER_FRAME && old(self).cycles == 340 ==> final(self).cycles == 0 && final(self).scanline == old(self).scanline + 1,
            old(self).scanline == SCANLINES_PER_FRAME ==> final(self).scanline == 0,
            old(self).scanline == VERTICAL_BLANKING_LINE && old(self).cycles == 1 ==> {
                &&& final(self).status_reg.flags & 0x80 != 0
                &&& final(self).status_reg.flags & 0x40 == 0
                &&& (old(self).ctrl_reg.flags & 0x80 != 0 ==> final(self).nmi_interrupt is Some)
                &&& (old(self).ctrl_reg.flags & 0x80 == 0 ==> final(self).nmi_interrupt == old(self).nmi_interrupt)
                &&& final(self).frame_ready
            },
            old(self).scanline == PRE_RENDER_SCANLINE && old(self).cycles == 1 ==> {
                &&& final(self).status_reg.flags & 0x80 == 0
                &&& final(self).status_reg.flags & 0x40 == 0
                &&& final(self).status_reg.flags & 0x20 == 0
                &&& final(self).nmi_interrupt is None
            },
            final(self).ctrl_reg == old(self).ctrl_reg,
            final(self).mask_reg == old(self).mask_reg,
            final(self).oam_data@ == old(self).oam_data@,
            final(self).oam_addr_reg == old(self).oam_addr_reg,
            final(self).nmi_interrupt is Some ==> old(self).nmi_interrupt is Some || (old(self).scanline == VERTICAL_BLANKING_LINE && old(self).cycles == 1 && old(self).ctrl_reg.flags & 0x80 != 0),
    {
        let ghost dots0 = self.dots@;
        if self.scanline <= VISIBLE_SCANLINES {
            if self.is_rendering() {
                if self.cycles >= 1 && self.cycles <= 256 {
                    self.draw_dot();
                }
                if self.cycles == 257 {
                    self.fill_oam_cache();
                }
                self.non_vblank_scanlines();
            }
        } else if self.scanline == 240 {
            // post-render idle
        } else if self.scanline == VERTICAL_BLANKING_LINE {
            if self.cycles == 1 {
                self.status_reg.set_vblank();
                self.status_reg.unset_sprite_zero_hit();
                self.frame_ready = true;
                proof {
                    crate::bits::lemma_u8_masks();
                }
                if self.ctrl_reg.gen_vblank_nmi() {
                    self.nmi_interrupt = Some(1);
                }
            }
        } else if self.scanline < PRE_RENDER_SCANLINE {
            // vertical blank
        } else if self.scanline == PRE_RENDER_SCANLINE {
            if self.is_rendering() {
                self.non_vblank_scanlines();
                if self.cycles >= 280 && self.cycles <= 304 {
                    self.internal_regs.dot_280_to_304();
                }
            }
            if self.cycles == 1 {
                self.nmi_interrupt = None;
                self.status_reg.unset_sprite_zero_hit();
                self.status_reg.reset_vblank();
                self.status_reg.unset_sprite_overflow();
                proof {
                    crate::bits::lemma_u8_masks();
                }
            }
        } else {
            // the scanline counter wraps: the next frame begins, and on odd
            // rendered frames dot 0 is skipped
            self.scanline = 0;
            self.cycles = if self.is_odd_frame && self.is_rendering() {
                1
            } else {
                0
            };
            self.is_odd_frame = !self.is_odd_frame;
            proof {
                self.dots@ = dots0 + 1;
            }
            return;
        }

        self.cycles += 1;
        if self.cycles >= DOTS_PER_SCANLINE {
            self.cycles = 0;
            self.scanline += 1;
        }
        proof {
            self.dots@ = dots0 + 1;
        }
    }

    /// The per-scanline scroll-register updates: coarse X steps on
    /// every eighth fetch dot, coarse Y at dot 256, and dot 257 restores the
    /// horizontal bits from the latch.
    fn non_vblank_scanlines(&mut self)
        requires
            old(self).wf(),
        ensures
            final(self).wf(),
            final(self).dots == old(self).dots,
            final(self).scanline == old(self).scanline,
            final(self).cycles == old(self).cycles,
            final(self).status_reg == old(self).status_reg,
            final(self).nmi_interrupt == old(self).nmi_interrupt,
            final(self).frame_ready == old(self).frame_ready,
            final(self).ctrl_reg == old(self).ctrl_reg,
            final(self).mask_reg == old(self).mask_reg,
            final(self).oam_data@ == old(self).oam_data@,
            final(self).oam_addr_reg == old(self).oam_addr_reg,
    {
        if self.cycles != 0 && (self.cycles >= 328 || self.cycles <= 256) && (self.cycles & 7)
            == 0 {
            self.internal_regs.coarse_x_inc();
        }
        if self.cycles == 256 {
            self.internal_regs.coarse_y_inc();
        }
        if self.cycles == 257 {
            self.internal_regs.dot_257();
        }
    }

    /// Scans object-attribute memory for the first eight sprites whose Y
    /// range covers the next scanline.
    fn fill_oam_cache(&mut self)
        requires
            old(self).wf(),
        ensures
            final(self).wf(),
            final(self).dots == old(self).dots,
            final(self).scanline == old(self).scanline,
            final(self).cycles == old(self).cycles,
            final(self).status_reg == old(self).status_reg,
            final(self).nmi_interrupt == old(self).nmi_interrupt,
            final(self).frame_ready == old(self).frame_ready,
            final(self).ctrl_reg == old(self).ctrl_reg,
            final(self).mask_reg == old(self).mask_reg,
            final(self).oam_data@ == old(self).oam_data@,
            final(self).oam_addr_reg == old(self).oam_addr_reg,
    {
        let next_y: u16 = self.scanline + 1;
        let height: u16 = self.ctrl_reg.sprite_size() as u16;
        let mut count: u8 = 0;
        let mut i: usize = 0;

        while i < OAM_DATA_SIZE
            invariant
                self.wf(),
                height <= 16,
                count <= OAM_CACHE_SIZE,
                i % 4 == 0,
                i <= OAM_DATA_SIZE,
                self.dots == old(self).dots,
                self.scanline == old(self).scanline,
                self.cycles == old(self).cycles,
                self.status_reg == old(self).status_reg,
                self.nmi_interrupt == old(self).nmi_interrupt,
                self.frame_ready == old(self).frame_ready,
                self.ctrl_reg == old(self).ctrl_reg,
                self.mask_reg == old(self).mask_reg,
                self.oam_data@ == old(self).oam_data@,
                self.oam_addr_reg == old(self).oam_addr_reg,
            decreases OAM_DATA_SIZE - i,
        {
            if count < 8 {
                let tile_y: u16 = self.oam_data[i] as u16 + 1;
                if next_y >= tile_y && next_y < tile_y + height {
                    self.oam_cache.set(count as usize, i as u8);
                    count += 1;
                }
            }
            i += 4;
        }
        self.oam_cache_len = count;
    }

    /// The background fetch for the current dot: name-table byte,
    /// pattern bit-planes at fine Y, and the attribute quadrant; returns the
    /// 4-bit background palette address, zero when transparent.
    fn render_background_dot(&mut self) -> (r: u16)
        requires
            old(self).wf(),
            1 <= old(self).cycles <= 256,
        ensures
            final(self).wf(),
            r < 16,
            r == spec_bg_pixel(*old(self)),
            *final(self) == *old(self),
    {
        let x: u16 = self.cycles - 1;
        let fine_x: u16 = ((self.internal_regs.get_x() as u16) + x) & 7;
        let v = self.internal_regs.get_v();
        let mut res: u16 = 0;

        let tile_addr = self.internal_regs.fetch_tile_addr();
        let attr_addr = self.internal_regs.fetch_attr_addr();

        proof {
            crate::bits::lemma_u16_facts();
        }
        let tile: u16 = self.peek_vram(tile_addr) as u16;
        let fine_y: u16 = (v >> 12) & 0x7;
        let pattern_addr: u16 = (tile * 16 + fine_y) | self.ctrl_reg.bknd_pattern_addr();

        let lo_plane = self.peek_vram(pattern_addr);
        let hi_plane = self.peek_vram(pattern_addr | 8);
        let shift: u16 = 7 - fine_x;
        let lo_bit: u16 = ((lo_plane >> shift) & 1) as u16;
        let hi_bit: u16 = ((hi_plane >> shift) & 1) as u16;
        let mut palette_addr: u16 = lo_bit | (hi_bit << 1);

        if palette_addr != 0 {
            let attr = self.peek_vram(attr_addr);
            let quad: u16 = ((v >> 4) & 4) | (v & 2);
            let attr_bits: u16 = ((attr as u16) >> quad) & 0x3;
            res = palette_addr | (attr_bits << 2);
        }

        res
    }

    /// The sprite fetch for the current dot, walking the cached
    /// sprites in priority order: returns the 5-bit sprite palette address
    /// (zero when transparent) and whether the winning sprite sits behind
    /// the background. Raises sprite-0 hit when sprite 0 and the background
    /// are both opaque, both layers are enabled and `x != 255`.
    fn render_sprites_dot(&mut self, bg_addr: u16) -> (r: (u16, bool))
        requires
            old(self).wf(),
            1 <= old(self).cycles <= 256,
        ensures
            final(self).wf(),
            final(self).dots == old(self).dots,
            final(self).scanline == old(self).scanline,
            final(self).cycles == old(self).cycles,
            final(self).nmi_interrupt == old(self).nmi_interrupt,
            final(self).frame_ready == old(self).frame_ready,
            final(self).status_reg.flags == old(self).status_reg.flags || final(self).status_reg.flags == old(self).status_reg.flags | 0x40,
            final(self).ctrl_reg == old(self).ctrl_reg,
            final(self).mask_reg == old(self).mask_reg,
            final(self).oam_data@ == old(self).oam_data@,
            final(self).oam_addr_reg == old(self).oam_addr_reg,
    {
        let x: u16 = self.cycles - 1;
        let y: u16 = self.scanline;
        let len: u16 = self.ctrl_reg.sprite_size() as u16;
        let mut palette_addr: u16 = 0;
        let mut behind: bool = false;
        let mut j: usize = 0;

        while j < self.oam_cache_len as usize
            invariant
                self.wf(),
                j <= self.oam_cache_len,
                len == 8 || len == 16,
                1 <= self.cycles <= 256,
                x == self.cycles - 1,
                y == self.scanline,
                palette_addr == 0,
                self.dots == old(self).dots,
                self.scanline == old(self).scanline,
                self.cycles == old(self).cycles,
                self.nmi_interrupt == old(self).nmi_interrupt,
                self.frame_ready == old(self).frame_ready,
                self.status_reg.flags == old(self).status_reg.flags || self.status_reg.flags
                    == old(self).status_reg.flags | 0x40,
                self.ctrl_reg == old(self).ctrl_reg,
                self.mask_reg == old(self).mask_reg,
                self.oam_data@ == old(self).oam_data@,
                self.oam_addr_reg == old(self).oam_addr_reg,
            ensures
                self.wf(),
                self.dots == old(self).dots,
                self.scanline == old(self).scanline,
                self.cycles == old(self).cycles,
                self.nmi_interrupt == old(self).nmi_interrupt,
                self.frame_ready == old(self).frame_ready,
                self.status_reg.flags == old(self).status_reg.flags || self.status_reg.flags
                    == old(self).status_reg.flags | 0x40,
                self.ctrl_reg == old(self).ctrl_reg,
                self.mask_reg == old(self).mask_reg,
                self.oam_data@ == old(self).oam_data@,
                self.oam_addr_reg == old(self).oam_addr_reg,
            decreases self.oam_cache_len - j,
        {
            let i: usize = self.oam_cache[j] as usize;
            if i + 3 < OAM_DATA_SIZE {
                let tile_x: u16 = self.oam_data[i + 3] as u16;

                if x > tile_x && x - tile_x < 9 {
                    proof {
                        crate::bits::lemma_u16_facts();
                    }
                    let tile: u16 = self.oam_data[i + 1] as u16;
                    let tile_y: u16 = self.oam_data[i] as u16 + 1;
                    let attr: u8 = self.oam_data[i + 2];
                    let mut x_off: u16 = (x - tile_x - 1) & 7;
                    let mut y_off: u16 = y.wrapping_sub(tile_y) & (len - 1);

                    if attr & FLIP_HORIZONTAL == 0 {
                        x_off = 7 - x_off;
                    }
                    if attr & FLIP_VERTICAL == 0 {
                        y_off = (len - 1) - y_off;
                    }

                    let tile_addr: u16;
                    if len == 16 {
                        let y16: u16 = (y_off & 7) | ((y_off & 8) << 1);
                        tile_addr = ((tile >> 1) * 32 + y16) | ((tile & 1) << 12);
                    } else {
                        tile_addr = tile * 16 + y_off + self.ctrl_reg.sprt_pattern_addr();
                    }

                    let lo_plane = self.peek_vram(tile_addr);
                    let hi_plane = self.peek_vram(tile_addr.wrapping_add(8));
                    let lo_bit: u16 = ((lo_plane as u16) >> x_off) & 1;
                    let hi_bit: u16 = ((hi_plane as u16) >> x_off) & 1;
                    palette_addr = lo_bit | (hi_bit << 1);

                    if palette_addr != 0 {
                        behind = attr & BEHIND_BACKGROUND != 0;
                        palette_addr = (palette_addr | 0x10) | (((attr & 0x3) as u16) << 2);

                        if !self.status_reg.is_sprite_0_hit() && self.mask_reg.show_background()
                            && i == 0 && bg_addr != 0 && x < 255 {
                            proof {
                                crate::bits::lemma_u8_masks();
                            }
                            self.status_reg.set_sprite_zero_hit();
                        }
                        return (palette_addr, behind);
                    }
                }
            }
            j += 1;
        }

        (0, false)
    }

    /// Renders one visible dot: computes the background and sprite pixels
    /// and writes the winner into the frame buffer: an opaque sprite pixel
    /// beats the background unless its priority bit puts it behind.
    fn draw_dot(&mut self)
        requires
            old(self).wf(),
            1 <= old(self).cycles <= 256,
            old(self).scanline <= VISIBLE_SCANLINES,
        ensures
            final(self).wf(),
            final(self).dots == old(self).dots,
            final(self).scanline == old(self).scanline,
            final(self).cycles == old(self).cycles,
            final(self).nmi_interrupt == old(self).nmi_interrupt,
            final(self).frame_ready == old(self).frame_ready,
            final(self).ctrl_reg == old(self).ctrl_reg,
            final(self).mask_reg == old(self).mask_reg,
            final(self).oam_data@ == old(self).oam_data@,
            final(self).oam_addr_reg == old(self).oam_addr_reg,
    {
        let x: u16 = self.cycles - 1;
        let y: u16 = self.scanline;

        let bg_addr: u16 = if self.mask_reg.show_background() {
            self.render_background_dot()
        } else {
            0
        };
        let (sp_addr, behind) = if self.mask_reg.show_sprites() {
            self.render_sprites_dot(bg_addr)
        } else {
            (0, false)
        };

        let palette_slot: u16 = if sp_addr != 0 && (bg_addr == 0 || !behind) {
            sp_addr
        } else if bg_addr != 0 {
            bg_addr
        } else {
            0
        };

        let entry = self.peek_vram(0x3F00 | (palette_slot & 0x1F));
        let rgb = render::pallete_table::system_pallete(entry);
        self.screen.set_pixel(x as usize, y as usize, rgb);
    }
}

/// A vector of `len` zero bytes.
pub(crate) fn make_zeroed(len: usize) -> (r: Vec<u8>)
    ensures
        r@.len() == len,
        forall|i: int| 0 <= i < len ==> r@[i] == 0,
{
    let mut v: Vec<u8> = Vec::new();
    let mut i: usize = 0;
    while i < len
        invariant
            i == v@.len() <= len,
            forall|j: int| 0 <= j < i ==> v@[j] == 0,
        decreases len - i,
    {
        v.push(0);
        i += 1;
    }
    v
}

} // verus!
