//! The shared address bus: CPU address decode and mirroring, the cross-
//! component clock, OAM-DMA, interrupt polling and audio resampling.

use vstd::prelude::*;

use crate::apu::{Apu, ChannelLevels};
use crate::joypad::JoyPad;
use crate::ppu::Ppu;
use crate::rom::Rom;

verus! {

pub const VRAM_SIZE: usize = 2048;
pub const PRG_ROM_PAGE: usize = 16384;

/// CPU clock in Hz; the resampler emits one sample each time the
/// accumulator, fed 44100 per CPU cycle, crosses it.
pub const CPU_HZ: u32 = 1789773;
pub const SAMPLE_RATE: u32 = 44100;

/// The audio FIFO never grows beyond this; late hosts lose samples at the
/// producer rather than blocking emulation.
pub const AUDIO_FIFO_CAP: usize = 4096;

/// The byte of program-ROM a CPU address selects: a single 16 KiB page is
/// mirrored across the 32 KiB window.
pub open spec fn spec_prg_byte(prg: Seq<u8>, addr: u16) -> u8 {
    let off: int = if prg.len() == PRG_ROM_PAGE {
        (addr - 0x8000) % (PRG_ROM_PAGE as int)
    } else {
        addr - 0x8000
    };
    if 0 <= off < prg.len() {
        prg[off]
    } else {
        0
    }
}

/// Whether a CPU address reads as a pure function of the bus state, with
/// no register side effects: plain RAM below the port window, or ROM.
pub open spec fn spec_pure_addr(addr: u16) -> bool {
    addr < 0x2000 || addr >= 0x8000
}

/// The byte a pure CPU address holds.
pub open spec fn spec_cpu_byte(b: Bus, addr: u16) -> u8 {
    if addr < 0x2000 {
        b.cpu_vram@[(addr & 0x7FF) as int]
    } else {
        spec_prg_byte(b.prg_rom@, addr)
    }
}

/// The little-endian word at a pure CPU address (the high byte wraps to
/// address zero past the top of the space).
pub open spec fn spec_cpu_word(b: Bus, pos: u16) -> int {
    let nxt: u16 = if pos == 0xFFFF {
        0
    } else {
        (pos + 1) as u16
    };
    spec_cpu_byte(b, pos) + spec_cpu_byte(b, nxt) * 0x100
}

/// The shared bus.
pub struct Bus {
    pub cpu_vram: Vec<u8>,
    pub prg_rom: Vec<u8>,
    pub ppu: Ppu,
    pub apu: Apu,
    pub joypad: JoyPad,
    pub cycles: u64,
    pub audio_counter: u32,
    pub audio_buffer: Vec<ChannelLevels>,
}

/// The clock-lockstep law: in every well-formed bus state the PPU has
/// observed exactly three dots for every CPU cycle the APU has observed,
/// and `Bus::tick` advances both in that ratio.
pub proof fn lemma_clock_lockstep(b: &Bus)
    requires
        b.wf(),
    ensures
        b.ppu.dots@ == 3 * b.apu.cycles@,
{
}

impl Bus {
    /// Sizes, component invariants, and the clock-lockstep law: the PPU has
    /// always observed exactly three dots per APU (CPU) cycle.
    pub open spec fn wf(&self) -> bool {
        &&& self.cpu_vram@.len() == VRAM_SIZE
        &&& self.ppu.wf()
        &&& self.apu.wf()
        &&& self.audio_buffer@.len() <= AUDIO_FIFO_CAP
        &&& self.audio_counter < CPU_HZ
        &&& self.ppu.dots@ == 3 * self.apu.cycles@
    }

    /// Builds the bus around a parsed cartridge: the program-ROM stays on
    /// the bus, the character-ROM moves into the PPU.
    pub fn new(rom: Rom) -> (r: Self)
        ensures
            r.wf(),
            r.prg_rom@ == rom.prg(),
            r.ppu.chr_rom@ == rom.chr(),
            r.ppu.mirroring == rom.mirroring(),
            r.cycles == 0,
            r.apu.cycles@ == 0,
            r.ppu.dots@ == 0,
            forall|i: int| 0 <= i < VRAM_SIZE ==> r.cpu_vram@[i] == 0,
    {
        let Rom { prg_rom, chr_rom, mapper: _, screen_mirroring } = rom;
        Bus {
            cpu_vram: crate::ppu::make_zeroed(VRAM_SIZE),
            prg_rom,
            ppu: Ppu::new(chr_rom, screen_mirroring),
            apu: Apu::new(),
            joypad: JoyPad::new(),
            cycles: 0,
            audio_counter: 0,
            audio_buffer: Vec::new(),
        }
    }

    /// Advances the clock by `cycles` CPU cycles: three PPU dots and one APU
    /// cycle each, feeding the delta-PCM fetches and the audio resampler.
    pub fn tick(&mut self, cycles: u8)
        requires
            old(self).wf(),
        ensures
            final(self).wf(),
            final(self).ppu.dots@ == old(self).ppu.dots@ + 3 * cycles,
            final(self).apu.cycles@ == old(self).apu.cycles@ + cycles,
            final(self).cycles == (old(self).cycles + cycles) % 0x1_0000_0000_0000_0000,
            final(self).prg_rom@ == old(self).prg_rom@,
            final(self).cpu_vram@ == old(self).cpu_vram@,
            final(self).joypad == old(self).joypad,
            final(self).ppu.ctrl_reg == old(self).ppu.ctrl_reg,
            old(self).ppu.nmi_interrupt is None && old(self).ppu.ctrl_reg.flags & 0x80 == 0
                ==> final(self).ppu.nmi_interrupt is None,
            final(self).ppu.oam_data@ == old(self).ppu.oam_data@,
            final(self).ppu.oam_addr_reg == old(self).ppu.oam_addr_reg,
    {
        let mut i: u8 = 0;
        while i < cycles
            invariant
                self.wf(),
                i <= cycles,
                self.ppu.dots@ == old(self).ppu.dots@ + 3 * i,
                self.apu.cycles@ == old(self).apu.cycles@ + i,
                self.cycles == (old(self).cycles + i) % 0x1_0000_0000_0000_0000,
                self.prg_rom@ == old(self).prg_rom@,
                self.cpu_vram@ == old(self).cpu_vram@,
                self.joypad == old(self).joypad,
                self.ppu.ctrl_reg == old(self).ppu.ctrl_reg,
                old(self).ppu.nmi_interrupt is None && old(self).ppu.ctrl_reg.flags & 0x80 == 0
                    ==> self.ppu.nmi_interrupt is None,
                self.ppu.oam_data@ == old(self).ppu.oam_data@,
                self.ppu.oam_addr_reg == old(self).ppu.oam_addr_reg,
            decreases cycles - i,
        {
            self.tick_one();
            i += 1;
        }
    }

    /// One CPU cycle of cross-component clocking.
    fn tick_one(&mut self)
        requires
            old(self).wf(),
        ensures
            final(self).wf(),
            final(self).ppu.dots@ == old(self).ppu.dots@ + 3,
            final(self).apu.cycles@ == old(self).apu.cycles@ + 1,
            final(self).cycles == (old(self).cycles + 1) % 0x1_0000_0000_0000_0000,
            final(self).prg_rom@ == old(self).prg_rom@,
            final(self).cpu_vram@ == old(self).cpu_vram@,
            final(self).joypad == old(self).joypad,
            final(self).ppu.ctrl_reg == old(self).ppu.ctrl_reg,
            old(self).ppu.nmi_interrupt is None && old(self).ppu.ctrl_reg.flags & 0x80 == 0
                ==> final(self).ppu.nmi_interrupt is None,
            final(self).ppu.oam_data@ == old(self).ppu.oam_data@,
            final(self).ppu.oam_addr_reg == old(self).ppu.oam_addr_reg,
    {
        self.cycles = self.cycles.wrapping_add(1);

        self.ppu.tick();
        self.ppu.tick();
        self.ppu.tick();

        self.apu.tick();

        // the delta-PCM channel pulls its sample bytes straight off the bus
        if self.apu.needs_dmc_sample() {
            let addr = self.apu.get_dmc_addr();
            let byte = self.read_for_dmc(addr);
            self.apu.set_dmc_sample(byte);
        }

        // fractional resampling from the CPU clock down to 44.1 kHz
        self.audio_counter += SAMPLE_RATE;
        if self.audio_counter >= CPU_HZ {
            self.audio_counter -= CPU_HZ;
            if self.audio_buffer.len() < AUDIO_FIFO_CAP {
                let levels = self.apu.get_audio_levels();
                self.audio_buffer.push(levels);
            }
        }
    }

    /// A delta-PCM fetch: plain RAM and ROM only, with no register side
    /// effects.
    fn read_for_dmc(&self, addr: u16) -> u8
        requires
            self.wf(),
    {
        proof {
            crate::bits::lemma_u16_facts();
        }
        if addr < 0x2000 {
            self.cpu_vram[(addr & 0x07FF) as usize]
        } else if addr >= 0x8000 {
            self.read_prg_rom(addr)
        } else {
            0
        }
    }

    /// Whether the PPU has raised NMI since the last poll; polling takes it.
    pub fn poll_nmi_status(&mut self) -> (r: Option<u8>)
        requires
            old(self).wf(),
        ensures
            final(self).wf(),
            r == old(self).ppu.nmi_interrupt,
            final(self).ppu.nmi_interrupt is None,
            final(self).ppu == (crate::ppu::Ppu { nmi_interrupt: None, ..old(self).ppu }),
            *final(self) == (Bus { ppu: final(self).ppu, ..*old(self) }),
            final(self).apu == old(self).apu,
            final(self).prg_rom@ == old(self).prg_rom@,
            final(self).ppu.dots == old(self).ppu.dots,
    {
        self.ppu.take_nmi_interrupt()
    }

    /// Whether the APU holds an interrupt line (frame counter or delta-PCM).
    pub fn poll_irq(&self) -> (r: bool)
        ensures
            r == self.apu.irq_flagged(),
    {
        self.apu.irq_pending()
    }

    /// Whether a frame finished since the last poll; polling clears it.
    pub fn poll_frame_ready(&mut self) -> (r: bool)
        requires
            old(self).wf(),
        ensures
            final(self).wf(),
            r == old(self).ppu.frame_ready,
            !final(self).ppu.frame_ready,
            final(self).apu == old(self).apu,
            final(self).prg_rom@ == old(self).prg_rom@,
            final(self).ppu.dots == old(self).ppu.dots,
    {
        let r = self.ppu.frame_ready;
        self.ppu.frame_ready = false;
        r
    }

    /// Drains the bounded audio FIFO.
    pub fn take_audio_samples(&mut self) -> (r: Vec<ChannelLevels>)
        requires
            old(self).wf(),
        ensures
            final(self).wf(),
            r@ == old(self).audio_buffer@,
            final(self).audio_buffer@.len() == 0,
            final(self).apu == old(self).apu,
            final(self).ppu == old(self).ppu,
            final(self).prg_rom@ == old(self).prg_rom@,
    {
        let mut out: Vec<ChannelLevels> = Vec::new();
        core::mem::swap(&mut out, &mut self.audio_buffer);
        out
    }

    fn read_prg_rom(&self, addr: u16) -> (r: u8)
        requires
            self.wf(),
            addr >= 0x8000,
        ensures
            r == spec_prg_byte(self.prg_rom@, addr),
    {
        let mut rom_addr: u16 = addr - 0x8000;
        if self.prg_rom.len() == PRG_ROM_PAGE {
            rom_addr = rom_addr % (PRG_ROM_PAGE as u16);
        }
        if (rom_addr as usize) < self.prg_rom.len() {
            self.prg_rom[rom_addr as usize]
        } else {
            0
        }
    }

    /// A CPU read of the bus: RAM mirrored through
    /// `0x1FFF`, the eight PPU ports mirrored through `0x3FFF`, the APU
    /// status, the first controller, and program-ROM on top; write-only and
    /// unmapped ports read as open bus.
    pub fn mem_read(&mut self, addr: u16) -> (r: u8)
        requires
            old(self).wf(),
        ensures
            final(self).wf(),
            final(self).prg_rom@ == old(self).prg_rom@,
            final(self).cpu_vram@ == old(self).cpu_vram@,
            final(self).ppu.dots == old(self).ppu.dots,
            final(self).apu.cycles == old(self).apu.cycles,
            addr < 0x2000 ==> r == old(self).cpu_vram@[(addr & 0x07FF) as int] && *final(self)
                == *old(self),
            addr >= 0x8000 ==> r == spec_prg_byte(old(self).prg_rom@, addr) && *final(self)
                == *old(self),
            spec_pure_addr(addr) ==> r == spec_cpu_byte(*old(self), addr) && *final(self) == *old(self),
            0x2000 <= addr < 0x4000 && addr & 0x2007 == 0x2002 ==> {
                &&& r == old(self).ppu.status_reg.flags
                &&& final(self).ppu.status_reg.flags == old(self).ppu.status_reg.flags & !(
                0x80u8)
                &&& !final(self).ppu.internal_regs.w
            },
            addr == 0x4016 ==> r == crate::joypad::spec_read_value(
                old(self).joypad.spec_buttons(),
                old(self).joypad.spec_index(),
            ),
            0x2000 <= addr < 0x4000 && addr & 0x2007 == 0x2004 ==> r == old(self).ppu.oam_data@[old(self).ppu.oam_addr_reg as int] && *final(self) == *old(self),
            0x2000 <= addr < 0x4000 && (addr & 0x2007 == 0x2000 || addr & 0x2007 == 0x2001 || addr
                & 0x2007 == 0x2003 || addr & 0x2007 == 0x2005 || addr & 0x2007 == 0x2006) ==> r
                == 0 && *final(self) == *old(self),
            0x4000 <= addr < 0x8000 && addr != 0x4015 && addr != 0x4016 ==> r == 0 && *final(self)
                == *old(self),
            addr == 0x4015 ==> r == crate::apu::spec_apu_status(old(self).apu) && final(self).apu
                == (crate::apu::Apu {
                frame_counter: (crate::apu::regs::frame_counter::FrameCounter {
                    irq_flag: false,
                    ..old(self).apu.frame_counter
                }),
                ..old(self).apu
            }) && final(self).ppu == old(self).ppu && final(self).cpu_vram@ == old(self).cpu_vram@,
            0x2000 <= addr < 0x4000 && addr & 0x2007 == 0x2007 && old(self).ppu.internal_regs.v & 0x3FFF < 0x3000 ==> r == old(self).ppu.internal_data_buf && final(self).ppu.internal_data_buf == crate::ppu::spec_peek(old(self).ppu, old(self).ppu.internal_regs.v & 0x3FFF),
            0x2000 <= addr < 0x4000 && addr & 0x2007 == 0x2007 ==> final(self).ppu.internal_regs.v == (old(self).ppu.internal_regs.v + (if old(self).ppu.ctrl_reg.flags & 0x04 != 0 { 32int } else { 1int })) % 0x10000,
    {
        proof {
            crate::bits::lemma_u16_facts();
        }
        if addr < 0x2000 {
            self.cpu_vram[(addr & 0x07FF) as usize]
        } else if addr < 0x4000 {
            let port = addr & 0x2007;
            proof {
                crate::bits::lemma_u16_facts();
            }
            if port == 0x2002 {
                self.ppu.read_status()
            } else if port == 0x2004 {
                self.ppu.read_oam_data()
            } else if port == 0x2007 {
                self.ppu.read_data()
            } else {
                // control, mask, OAM-address, scroll and address are
                // write-only: an ignorable warning, read as open bus
                0
            }
        } else if addr == 0x4015 {
            self.apu.read_status()
        } else if addr == 0x4016 {
            self.joypad.read()
        } else if addr < 0x8000 {
            // APU write ports, the second controller and cartridge RAM are
            // not readable here: open bus
            0
        } else {
            self.read_prg_rom(addr)
        }
    }

    /// A CPU write to the bus; a write to the
    /// `0x4014` port performs the 256-byte OAM-DMA copy and advances the
    /// clock by the 513- or 514-cycle stall.
    pub fn mem_write(&mut self, addr: u16, data: u8)
        requires
            old(self).wf(),
        ensures
            final(self).wf(),
            final(self).prg_rom@ == old(self).prg_rom@,
            addr < 0x2000 ==> final(self).cpu_vram@ == old(self).cpu_vram@.update(
                (addr & 0x07FF) as int,
                data,
            ) && *final(self) == (Bus { cpu_vram: final(self).cpu_vram, ..*old(self) }),
            addr >= 0x8000 ==> *final(self) == *old(self),
            addr == 0x4016 ==> {
                &&& final(self).joypad.spec_strobe() == (data & 1 != 0)
                &&& final(self).joypad.spec_buttons() == old(self).joypad.spec_buttons()
            },
            addr != 0x4014 ==> final(self).ppu.dots == old(self).ppu.dots && final(self).apu.cycles == old(self).apu.cycles,
            addr == 0x4011 ==> crate::apu::channels::dmc::spec_dmc_output(final(self).apu.dmc)
                == data & 0x7F,
            addr == 0x4017 ==> final(self).apu.frame_counter.data == data && final(self).apu.frame_counter.cycle_count == 0,
            0x2000 <= addr < 0x4000 ==> {
                let port = addr & 0x2007;
                &&& (port == 0x2000 ==> final(self).ppu.ctrl_reg.flags == data)
                &&& (port == 0x2001 ==> final(self).ppu.mask_reg.flags == data)
                &&& (port == 0x2002 ==> *final(self) == *old(self))
                &&& (port == 0x2003 ==> final(self).ppu.oam_addr_reg == data)
                &&& (port == 0x2004 ==> final(self).ppu.oam_data@ == old(self).ppu.oam_data@.update(old(self).ppu.oam_addr_reg as int, data) && final(self).ppu.oam_addr_reg == (old(self).ppu.oam_addr_reg + 1) % 256)
                &&& (port == 0x2005 || port == 0x2006 ==> final(self).ppu.internal_regs.w == !old(self).ppu.internal_regs.w)
                &&& (port == 0x2007 ==> {
                    let a = old(self).ppu.internal_regs.v & 0x3FFF;
                    &&& final(self).ppu.internal_regs.v == (old(self).ppu.internal_regs.v + (
                    if old(self).ppu.ctrl_reg.flags & 0x04 != 0 {
                        32int
                    } else {
                        1int
                    })) % 0x10000
                    &&& (0x2000 <= a < 0x3000 ==> final(self).ppu.vram@ == old(self).ppu.vram@.update(
                        crate::ppu::spec_mirror_vram(old(self).ppu.mirroring, a),
                        data,
                    ))
                    &&& (0x3F00 <= a ==> final(self).ppu.palette_table@ == old(self).ppu.palette_table@.update(crate::ppu::spec_palette_index(a), data))
                })
            },
            addr == 0x4014 ==> {
                &&& (final(self).apu.cycles@ == old(self).apu.cycles@ + 513 || final(self).apu.cycles@ == old(self).apu.cycles@ + 514)
                &&& final(self).ppu.dots@ == 3 * final(self).apu.cycles@
                &&& (data < 0x20 ==> forall|i: int|
                    0 <= i < 256 ==> #[trigger] final(self).ppu.oam_data@[(old(self).ppu.oam_addr_reg + i) % 256] == old(self).cpu_vram@[(((data as int) * 256
                        + i) % 0x800)])
            },
    {
        proof {
            crate::bits::lemma_u16_facts();
        }
        if addr < 0x2000 {
            self.cpu_vram.set((addr & 0x07FF) as usize, data);
        } else if addr < 0x4000 {
            let port = addr & 0x2007;
            proof {
                crate::bits::lemma_u16_facts();
            }
            if port == 0x2000 {
                self.ppu.write_to_ctrl(data);
            } else if port == 0x2001 {
                self.ppu.write_to_mask(data);
            } else if port == 0x2002 {
                // the status register is read-only: the write is dropped
            } else if port == 0x2003 {
                self.ppu.write_to_oam_addr(data);
            } else if port == 0x2004 {
                self.ppu.write_to_oam_data(data);
            } else if port == 0x2005 {
                self.ppu.write_to_scroll(data);
            } else if port == 0x2006 {
                self.ppu.write_to_ppu_addr(data);
            } else {
                self.ppu.write_to_data(data);
            }
        } else if addr == 0x4014 {
            self.oam_dma(data);
        } else if addr == 0x4016 {
            self.joypad.write(data);
        } else if (addr >= 0x4000 && addr <= 0x4013) || addr == 0x4015 || addr == 0x4017 {
            self.apu.write_register(addr, data);
        } else if addr >= 0x8000 {
            // cartridge ROM is not writable: an ignorable warning, dropped
        } else {
            // unmapped: an ignorable warning, dropped
        }
    }

    /// The OAM-DMA transfer: 256 bytes from CPU page `data` stream into
    /// OAM, and the CPU is stalled 513 cycles (514 from an odd cycle) while
    /// the PPU and APU run on.
    fn oam_dma(&mut self, data: u8)
        requires
            old(self).wf(),
        ensures
            final(self).wf(),
            final(self).prg_rom@ == old(self).prg_rom@,
            final(self).apu.cycles@ == old(self).apu.cycles@ + 513 || final(self).apu.cycles@
                == old(self).apu.cycles@ + 514,
            data < 0x20 ==> forall|i: int|
                0 <= i < 256 ==> #[trigger] final(self).ppu.oam_data@[(old(self).ppu.oam_addr_reg
                    + i) % 256] == old(self).cpu_vram@[(((data as int) * 256 + i) % 0x800)],
    {
        let base: u16 = (data as u16) << 8;
        proof {
            crate::bits::lemma_u16_facts();
        }
        let mut buffer: Vec<u8> = Vec::new();
        let mut i: u16 = 0;
        while i < 256
            invariant
                self.wf(),
                base <= 0xFF00,
                base == data * 256,
                i <= 256,
                buffer@.len() == i,
                self.prg_rom@ == old(self).prg_rom@,
                self.apu.cycles == old(self).apu.cycles,
                self.ppu.dots == old(self).ppu.dots,
                self.cpu_vram@ == old(self).cpu_vram@,
                data < 0x20 ==> *self == *old(self),
                data < 0x20 ==> forall|j: int|
                    0 <= j < i ==> #[trigger] buffer@[j] == old(self).cpu_vram@[((data as int)
                        * 256 + j) % 0x800],
            decreases 256 - i,
        {
            proof {
                crate::bits::lemma_u16_facts();
            }
            let byte = self.mem_read(base + i);
            buffer.push(byte);
            i += 1;
        }
        self.ppu.write_to_oam_dma(buffer.as_slice());
        proof {
            if data < 0x20 {
                assert forall|i: int| 0 <= i < 256 implies #[trigger] self.ppu.oam_data@[(old(self).ppu.oam_addr_reg + i) % 256] == old(self).cpu_vram@[(((data as int) * 256 + i)
                    % 0x800)] by {
                    assert(buffer@[i] == old(self).cpu_vram@[(((data as int) * 256 + i) % 0x800)]);
                }
            }
        }

        let stall: u8 = if self.cycles & 1 == 1 {
            1
        } else {
            0
        };
        // 513 cycles, or 514 from an odd cycle; the tick counter is a byte,
        // so the stall is charged in three bursts
        self.tick(255);
        self.tick(255);
        self.tick(3 + stall);
    }

    /// Little-endian 16-bit read.
    pub fn mem_read_u16(&mut self, pos: u16) -> (r: u16)
        requires
            old(self).wf(),
        ensures
            final(self).wf(),
            final(self).prg_rom@ == old(self).prg_rom@,
            final(self).ppu.dots == old(self).ppu.dots,
            final(self).apu.cycles == old(self).apu.cycles,
            pos < 0x1FFF ==> r == old(self).cpu_vram@[(pos & 0x07FF) as int] + old(self).cpu_vram@[(((pos + 1) as u16) & 0x07FF) as int] * 0x100 && *final(self) == *old(self),
            0x8000 <= pos < 0xFFFF ==> r == spec_prg_byte(old(self).prg_rom@, pos) + spec_prg_byte(
                old(self).prg_rom@,
                (pos + 1) as u16,
            ) * 0x100 && *final(self) == *old(self),
            spec_pure_addr(pos) && spec_pure_addr(
                if pos == 0xFFFF {
                    0u16
                } else {
                    (pos + 1) as u16
                },
            ) ==> r == spec_cpu_word(*old(self), pos) && *final(self) == *old(self),
    {
        let lo = self.mem_read(pos);
        let hi = self.mem_read(pos.wrapping_add(1));
        proof {
            crate::bits::lemma_le_combine(lo, hi);
        }
        lo as u16 | ((hi as u16) << 8)
    }

    /// Little-endian 16-bit write.
    pub fn mem_write_u16(&mut self, pos: u16, data: u16)
        requires
            old(self).wf(),
        ensures
            final(self).wf(),
            final(self).prg_rom@ == old(self).prg_rom@,
    {
        let lo: u8 = (data & 0xFF) as u8;
        let hi: u8 = (data >> 8) as u8;
        proof {
            crate::bits::lemma_le_split(data);
        }
        self.mem_write(pos, lo);
        self.mem_write(pos.wrapping_add(1), hi);
    }
}

} // verus!
