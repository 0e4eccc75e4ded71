//! Delta-PCM channel: fetches sample bytes from CPU memory through the bus
//! and shifts them out one bit at a time, nudging a 7-bit output level.

use vstd::prelude::*;

use crate::apu::regs::frequency::{Frequency, FREQUENCY, IRQ_ENABLE_MASK, LOOP_MASK};
use crate::apu::regs::load_counter::{LoadCounter, LOAD_COUNTER_MASK};

verus! {

pub const DMC_START_ADDR: u16 = 0xC000;
pub const MAX_OUTPUT_LEVEL: u8 = 125;
pub const MIN_OUTPUT_LEVEL: u8 = 2;
pub const RESET_BITS_REMAINING: u8 = 8;
pub const LOOP_CPU_SPACE: u16 = 0x8000;

/// The hardware rate table indexed by the 4-bit rate field.
pub open spec fn spec_dmc_rate(index: u8) -> u16 {
    if index == 0 { 428 }
    else if index == 1 { 380 }
    else if index == 2 { 340 }
    else if index == 3 { 320 }
    else if index == 4 { 286 }
    else if index == 5 { 254 }
    else if index == 6 { 226 }
    else if index == 7 { 214 }
    else if index == 8 { 190 }
    else if index == 9 { 160 }
    else if index == 10 { 142 }
    else if index == 11 { 128 }
    else if index == 12 { 106 }
    else if index == 13 { 84 }
    else if index == 14 { 72 }
    else { 54 }
}

fn dmc_rate(index: u8) -> (r: u16)
    requires
        index < 16,
    ensures
        r == spec_dmc_rate(index),
{
    if index == 0 { 428 }
    else if index == 1 { 380 }
    else if index == 2 { 340 }
    else if index == 3 { 320 }
    else if index == 4 { 286 }
    else if index == 5 { 254 }
    else if index == 6 { 226 }
    else if index == 7 { 214 }
    else if index == 8 { 190 }
    else if index == 9 { 160 }
    else if index == 10 { 142 }
    else if index == 11 { 128 }
    else if index == 12 { 106 }
    else if index == 13 { 84 }
    else if index == 14 { 72 }
    else { 54 }
}

/// The delta-PCM channel.
pub struct Dmc {
    pub freq: Frequency,
    pub direct_load: LoadCounter,
    pub sample_addr: u8,
    pub sample_len: u8,
    pub current_addr: u16,
    pub bytes_remaining: u16,
    pub sample_buffer: Option<u8>,
    pub current_timer: u16,
    pub shift_reg: u8,
    pub bits_remaining: u8,
    pub silence_flag: bool,
    pub irq_active: bool,
}

/// The output level the channel drives: the low seven bits of the
/// direct-load register, so it always lies in `0 ..= 127`.
pub open spec fn spec_dmc_output(d: Dmc) -> u8 {
    d.direct_load.data & LOAD_COUNTER_MASK
}

impl Dmc {
    pub fn new() -> (r: Self)
        ensures
            r.bytes_remaining == 0,
            r.sample_buffer is None,
            r.bits_remaining == RESET_BITS_REMAINING,
            r.silence_flag,
            !r.irq_active,
            r.current_addr == DMC_START_ADDR,
            spec_dmc_output(r) == 0,
    {
        proof {
            crate::bits::lemma_u8_masks();
        }
        Dmc {
            freq: Frequency::new(),
            direct_load: LoadCounter::new(),
            sample_addr: 0,
            sample_len: 0,
            current_addr: DMC_START_ADDR,
            bytes_remaining: 0,
            sample_buffer: None,
            current_timer: 0,
            shift_reg: 0,
            bits_remaining: 8,
            silence_flag: true,
            irq_active: false,
        }
    }

    /// Channel-enable write: disabling zeroes the remaining byte count;
    /// enabling an idle channel restarts the sample. Either way the
    /// interrupt flag clears.
    pub fn enable(&mut self, enabled: bool)
        ensures
            !final(self).irq_active,
            !enabled ==> final(self).bytes_remaining == 0,
            enabled && old(self).bytes_remaining == 0 ==> final(self).bytes_remaining == old(self).sample_len * 16 + 1,
            enabled && old(self).bytes_remaining > 0 ==> final(self).bytes_remaining == old(self).bytes_remaining,
            final(self).direct_load == old(self).direct_load,
            final(self).bits_remaining == old(self).bits_remaining,
    {
        if !enabled {
            self.bytes_remaining = 0;
        } else if self.bytes_remaining == 0 {
            self.restart_sample();
        }
        self.clear_interrupt();
    }

    /// Reloads the fetch address and byte count from the two sample
    /// registers: address `0xC000 + 64 * a`, length `16 * l + 1` bytes.
    pub fn restart_sample(&mut self)
        ensures
            final(self).current_addr == DMC_START_ADDR + old(self).sample_addr * 64,
            final(self).bytes_remaining == old(self).sample_len * 16 + 1,
            final(self).direct_load == old(self).direct_load,
            final(self).irq_active == old(self).irq_active,
            final(self).bits_remaining == old(self).bits_remaining,
    {
        proof {
            crate::bits::lemma_u16_facts();
        }
        self.current_addr = DMC_START_ADDR + ((self.sample_addr as u16) << 6);
        self.bytes_remaining = ((self.sample_len as u16) << 4) + 1;
    }

    /// Timer tick: counts down and, on expiry, reloads from the rate table
    /// and clocks the output unit.
    pub fn step_timer(&mut self)
        requires
            old(self).bits_remaining >= 1,
        ensures
            final(self).bits_remaining >= 1,
            spec_dmc_output(*final(self)) <= 127,
            final(self).bytes_remaining == old(self).bytes_remaining,
            final(self).irq_active == old(self).irq_active,
    {
        if self.current_timer > 0 {
            self.current_timer -= 1;
            proof {
                crate::bits::lemma_u8_masks();
            }
        } else {
            let index = self.freq.read(FREQUENCY);
            proof {
                crate::bits::lemma_u8_masks();
                let f = old(self).freq.data;
                assert(f & 0x0F <= 0x0F);
            }
            self.current_timer = dmc_rate(index);
            self.step_output_unit();
        }
    }

    /// One output-unit step: while not silenced, bit 0 of the shift register
    /// raises the 7-bit level by 2 (capped) or lowers it by 2 (floored);
    /// when the eight bits are spent, the buffered byte reloads the shifter
    /// or the unit falls silent.
    fn step_output_unit(&mut self)
        requires
            old(self).bits_remaining >= 1,
        ensures
            final(self).bits_remaining >= 1,
            spec_dmc_output(*final(self)) <= 127,
            final(self).bytes_remaining == old(self).bytes_remaining,
            final(self).irq_active == old(self).irq_active,
            !old(self).silence_flag && old(self).shift_reg & 1 == 1 && spec_dmc_output(
                *old(self),
            ) <= MAX_OUTPUT_LEVEL ==> spec_dmc_output(*final(self)) == spec_dmc_output(
                *old(self),
            ) + 2,
            !old(self).silence_flag && old(self).shift_reg & 1 == 0 && spec_dmc_output(
                *old(self),
            ) >= MIN_OUTPUT_LEVEL ==> spec_dmc_output(*final(self)) == spec_dmc_output(
                *old(self),
            ) - 2,
            old(self).silence_flag ==> final(self).direct_load == old(self).direct_load,
            old(self).bits_remaining != 1 ==> final(self).shift_reg == (if old(self).silence_flag {
                old(self).shift_reg
            } else {
                old(self).shift_reg >> 1
            }),
            final(self).bits_remaining == if old(self).bits_remaining == 1 {
                RESET_BITS_REMAINING as int
            } else {
                old(self).bits_remaining - 1
            },
            old(self).bits_remaining == 1 ==> final(self).sample_buffer is None && final(self).silence_flag == (old(self).sample_buffer is None) && (old(self).sample_buffer
                matches Some(b) ==> final(self).shift_reg == b),
            old(self).bits_remaining != 1 ==> final(self).sample_buffer == old(self).sample_buffer && final(self).silence_flag == old(self).silence_flag,
    {
        if !self.silence_flag {
            let bit_0 = self.shift_reg & 1;
            let mut level = self.direct_load.read(LOAD_COUNTER_MASK);
            proof {
                crate::bits::lemma_u8_masks();
            }

            if bit_0 == 1 {
                if level <= MAX_OUTPUT_LEVEL {
                    level += 2;
                }
            } else if level >= MIN_OUTPUT_LEVEL {
                level -= 2;
            }

            proof {
                let lv = level;
                assert(lv <= 127 ==> lv & 0x7F == lv) by (bit_vector);
            }
            self.direct_load.write(LOAD_COUNTER_MASK, level);
            self.shift_reg >>= 1;
        } else {
            proof {
                crate::bits::lemma_u8_masks();
            }
        }

        self.bits_remaining -= 1;

        if self.bits_remaining == 0 {
            self.bits_remaining = RESET_BITS_REMAINING;

            if let Some(sample) = self.sample_buffer {
                self.shift_reg = sample;
                self.silence_flag = false;
                self.sample_buffer = None;
            } else {
                self.silence_flag = true;
            }
        }
    }

    /// Whether the bus owes the channel a sample byte.
    pub fn needs_sample(&self) -> (r: bool)
        ensures
            r == (self.sample_buffer is None && self.bytes_remaining > 0),
    {
        self.sample_buffer.is_none() && self.bytes_remaining > 0
    }

    /// Accepts a fetched byte: fills the buffer, steps the fetch address
    /// (wrapping to `0x8000`), and at the end of the sample either loops or
    /// raises the interrupt, as the frequency register directs.
    pub fn set_sample_buffer(&mut self, val: u8)
        requires
            old(self).bytes_remaining > 0,
        ensures
            final(self).sample_buffer == Some(val),
            final(self).direct_load == old(self).direct_load,
            final(self).bits_remaining == old(self).bits_remaining,
            old(self).bytes_remaining > 1 || old(self).freq.data & LOOP_MASK == 0 ==> final(self).current_addr == if old(self).current_addr == 0xFFFF {
                LOOP_CPU_SPACE as int
            } else {
                old(self).current_addr + 1
            },
            old(self).bytes_remaining > 1 ==> {
                &&& final(self).bytes_remaining == old(self).bytes_remaining - 1
                &&& final(self).irq_active == old(self).irq_active
            },
            old(self).bytes_remaining == 1 && old(self).freq.data & LOOP_MASK != 0 ==> final(self).bytes_remaining == old(self).sample_len * 16 + 1,
            old(self).bytes_remaining == 1 && old(self).freq.data & LOOP_MASK == 0 ==> {
                &&& final(self).bytes_remaining == 0
                &&& final(self).irq_active == (old(self).irq_active || old(self).freq.data
                    & IRQ_ENABLE_MASK != 0)
            },
    {
        self.sample_buffer = Some(val);
        self.current_addr = self.current_addr.wrapping_add(1);
        if self.current_addr == 0 {
            self.current_addr = LOOP_CPU_SPACE;
        }

        self.bytes_remaining -= 1;
        if self.bytes_remaining == 0 {
            if self.freq.read(LOOP_MASK) != 0 {
                let buffered = self.sample_buffer;
                self.restart_sample();
                self.sample_buffer = buffered;
            } else if self.freq.read(IRQ_ENABLE_MASK) != 0 {
                self.irq_active = true;
            }
        }
    }

    pub fn clear_interrupt(&mut self)
        ensures
            !final(self).irq_active,
            final(self).direct_load == old(self).direct_load,
            final(self).bytes_remaining == old(self).bytes_remaining,
            final(self).bits_remaining == old(self).bits_remaining,
    {
        self.irq_active = false;
    }

    /// The 7-bit output level, always in `0 ..= 127`.
    pub fn output(&self) -> (r: u8)
        ensures
            r == spec_dmc_output(*self),
            r <= 127,
    {
        proof {
            crate::bits::lemma_u8_masks();
        }
        self.direct_load.read(LOAD_COUNTER_MASK)
    }

    pub fn write_sample_addr(&mut self, addr: u8)
        ensures
            final(self).sample_addr == addr,
            final(self).direct_load == old(self).direct_load,
            final(self).bytes_remaining == old(self).bytes_remaining,
            final(self).bits_remaining == old(self).bits_remaining,
            final(self).irq_active == old(self).irq_active,
    {
        self.sample_addr = addr;
    }

    pub fn write_sample_len(&mut self, len: u8)
        ensures
            final(self).sample_len == len,
            final(self).direct_load == old(self).direct_load,
            final(self).bytes_remaining == old(self).bytes_remaining,
            final(self).bits_remaining == old(self).bits_remaining,
            final(self).irq_active == old(self).irq_active,
    {
        self.sample_len = len;
    }

    pub fn get_current_addr(&self) -> (r: u16)
        ensures
            r == self.current_addr,
    {
        self.current_addr
    }

    pub fn remaining_bytes(&self) -> (r: u16)
        ensures
            r == self.bytes_remaining,
    {
        self.bytes_remaining
    }
}

/// The delta-PCM output level stays in `0 ..= 127`: it is read out of a
/// 7-bit register, and every step writes back a value that still fits.
pub proof fn lemma_dmc_level_bounded(d: Dmc)
    ensures
        0 <= spec_dmc_output(d) <= 127,
{
    crate::bits::lemma_u8_masks();
}

} // verus!
