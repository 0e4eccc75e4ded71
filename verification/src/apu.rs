//! The audio-processing unit: a frame sequencer driving two pulse channels,
//! a triangle, a noise channel and a delta-PCM channel.

use vstd::prelude::*;

pub mod channels;
pub mod regs;

use channels::dmc::{spec_dmc_output, Dmc};
use channels::noise::{spec_noise_output, Noise};
use channels::pulse::{spec_pulse_output, Pulse};
use channels::triangle::{spec_triangle_sequence, Triangle};
use regs::envelope::{spec_envelope_tick, ENVELOPE_COUNTER_HALT_MASK};
use regs::length_counter::spec_length_tick;
use regs::linear_counter::spec_linear_tick;
use channels::pulse::spec_pulse_timer_step;
use channels::triangle::spec_triangle_timer_step;
use channels::noise::spec_noise_timer_step;
use regs::frame_counter::{FrameAction, FrameCounter, APU_STEP};
use regs::load_counter::LOAD_COUNTER_MASK;
use regs::status::{
    ENABLE_DMC_MASK, NOISE_MASK, PULSE_1_CHANNEL_MASK, PULSE_2_CHANNEL_MASK, Status, TRIANGLE_MASK,
};

verus! {

/// The integer output level of each channel at one instant; the host mixes
/// these into one floating-point sample.
#[derive(Debug, Clone, Copy, PartialEq, Eq, Structural)]
pub struct ChannelLevels {
    pub pulse1: u8,
    pub pulse2: u8,
    pub triangle: u8,
    pub noise: u8,
    pub dmc: u8,
}

/// The audio-processing unit.
pub struct Apu {
    pub pulse1: Pulse,
    pub pulse2: Pulse,
    pub triangle: Triangle,
    pub noise: Noise,
    pub dmc: Dmc,
    pub status: Status,
    pub frame_counter: FrameCounter,
    pub global_cycle: u64,
    /// How many CPU cycles the unit has observed.
    pub cycles: Ghost<nat>,
}

/// The status byte `0x4015` reads back: one bit per channel that still has
/// length (or, for the delta-PCM channel, bytes) to play.
pub open spec fn spec_apu_status(a: Apu) -> u8 {
    (if a.pulse1.length_counter.counter > 0 { PULSE_1_CHANNEL_MASK } else { 0 })
    | (if a.pulse2.length_counter.counter > 0 { PULSE_2_CHANNEL_MASK } else { 0 })
    | (if a.triangle.length_counter.counter > 0 { TRIANGLE_MASK } else { 0 })
    | (if a.noise.length_counter.counter > 0 { NOISE_MASK } else { 0 })
    | (if a.dmc.bytes_remaining > 0 { ENABLE_DMC_MASK } else { 0 })
}

impl Apu {
    /// Internal bounds every operation preserves.
    pub open spec fn wf(&self) -> bool {
        &&& self.pulse1.wf()
        &&& self.pulse2.wf()
        &&& self.triangle.wf()
        &&& self.noise.envelope.wf()
        &&& self.dmc.bits_remaining >= 1
        &&& self.frame_counter.cycle_count < APU_STEP
        &&& self.frame_counter.step_index <= 5
    }

    pub fn new() -> (r: Self)
        ensures
            r.wf(),
            r.cycles@ == 0,
            spec_apu_status(r) == 0,
            !r.irq_flagged(),
    {
        let apu = Apu {
            pulse1: Pulse::new(),
            pulse2: Pulse::new(),
            triangle: Triangle::new(),
            noise: Noise::new(),
            dmc: Dmc::new(),
            status: Status::new(),
            frame_counter: FrameCounter::new(),
            global_cycle: 0,
            cycles: Ghost(0),
        };
        proof {
            crate::bits::lemma_u8_masks();
        }
        apu
    }

    /// Whether the unit is holding an interrupt line (frame or delta-PCM).
    pub open spec fn irq_flagged(&self) -> bool {
        self.frame_counter.irq_flag || self.dmc.irq_active
    }

    /// One CPU cycle: the frame sequencer may fire a quarter- or half-frame
    /// event; the triangle timer runs every cycle, the other timers every
    /// second cycle. On the plain cycles (no sequencer event) the channels
    /// advance exactly by their timer steps; a quarter-frame event first
    /// ticks the envelopes and the triangle's linear counter, a half-frame
    /// event also the length counters and the sweeps.
    pub fn tick(&mut self)
        requires
            old(self).wf(),
        ensures
            final(self).wf(),
            final(self).cycles@ == old(self).cycles@ + 1,
            final(self).frame_counter.data == old(self).frame_counter.data,
            final(self).global_cycle == (old(self).global_cycle + 1) % 0x1_0000_0000_0000_0000,
            ({
                let idle = old(self).frame_counter.cycle_count + 1 < APU_STEP;
                let even = old(self).global_cycle & 1 == 0;
                &&& (idle ==> final(self).triangle == spec_triangle_timer_step(old(self).triangle))
                &&& (idle && even ==> {
                    &&& final(self).pulse1 == spec_pulse_timer_step(old(self).pulse1)
                    &&& final(self).pulse2 == spec_pulse_timer_step(old(self).pulse2)
                    &&& final(self).noise == spec_noise_timer_step(old(self).noise)
                })
                &&& (idle && !even ==> {
                    &&& final(self).pulse1 == old(self).pulse1
                    &&& final(self).pulse2 == old(self).pulse2
                    &&& final(self).noise == old(self).noise
                    &&& final(self).dmc == old(self).dmc
                })
            }),
            ({
                let act = regs::frame_counter::spec_frame_action(
                    old(self).frame_counter.data,
                    (old(self).frame_counter.step_index + 1) as u8,
                );
                let fires = old(self).frame_counter.cycle_count + 1 == APU_STEP;
                &&& (fires && (act == FrameAction::QuarterFrame || act == FrameAction::HalfFrame)
                    ==> {
                    &&& final(self).pulse1.envelope == spec_envelope_tick(old(self).pulse1.envelope)
                    &&& final(self).pulse2.envelope == spec_envelope_tick(old(self).pulse2.envelope)
                    &&& final(self).noise.envelope == spec_envelope_tick(old(self).noise.envelope)
                    &&& final(self).triangle.linear_counter_load == spec_linear_tick(
                        old(self).triangle.linear_counter_load,
                    )
                })
                &&& (fires && act == FrameAction::QuarterFrame ==> {
                    &&& final(self).pulse1.length_counter == old(self).pulse1.length_counter
                    &&& final(self).triangle.length_counter == old(self).triangle.length_counter
                })
                &&& (fires && act == FrameAction::HalfFrame ==> {
                    &&& final(self).pulse1.length_counter == spec_length_tick(
                        old(self).pulse1.length_counter,
                    )
                    &&& final(self).pulse2.length_counter == spec_length_tick(
                        old(self).pulse2.length_counter,
                    )
                    &&& final(self).triangle.length_counter == spec_length_tick(
                        old(self).triangle.length_counter,
                    )
                    &&& final(self).noise.length_counter == spec_length_tick(
                        old(self).noise.length_counter,
                    )
                })
            }),
    {
        let action = self.frame_counter.step();

        match action {
            FrameAction::QuarterFrame => self.step_quarter_frame(),
            FrameAction::HalfFrame => self.step_half_frame(),
            FrameAction::Idle => {},
        }

        self.triangle.step_timer();

        if (self.global_cycle & 1) == 0 {
            self.pulse1.step_timer();
            self.pulse2.step_timer();
            self.noise.step_timer();
            self.dmc.step_timer();
        }

        self.global_cycle = self.global_cycle.wrapping_add(1);
        proof {
            self.cycles@ = old(self).cycles@ + 1;
        }
    }

    /// Quarter-frame event: envelopes and the triangle's linear counter.
    fn step_quarter_frame(&mut self)
        requires
            old(self).wf(),
        ensures
            final(self).wf(),
            final(self).cycles == old(self).cycles,
            final(self).frame_counter == old(self).frame_counter,
            final(self).global_cycle == old(self).global_cycle,
            final(self).pulse1 == (Pulse {
                envelope: spec_envelope_tick(old(self).pulse1.envelope),
                ..old(self).pulse1
            }),
            final(self).pulse2 == (Pulse {
                envelope: spec_envelope_tick(old(self).pulse2.envelope),
                ..old(self).pulse2
            }),
            final(self).triangle == (Triangle {
                linear_counter_load: spec_linear_tick(old(self).triangle.linear_counter_load),
                ..old(self).triangle
            }),
            final(self).noise == (Noise {
                envelope: spec_envelope_tick(old(self).noise.envelope),
                ..old(self).noise
            }),
            final(self).dmc == old(self).dmc,
            final(self).status == old(self).status,
    {
        self.pulse1.envelope_tick();
        self.pulse2.envelope_tick();
        self.triangle.linear_counter_tick();
        self.noise.envelope.tick();
    }

    /// Half-frame event: a quarter-frame event plus length counters and the
    /// pulse sweeps.
    fn step_half_frame(&mut self)
        requires
            old(self).wf(),
        ensures
            final(self).wf(),
            final(self).cycles == old(self).cycles,
            final(self).frame_counter == old(self).frame_counter,
            final(self).global_cycle == old(self).global_cycle,
            final(self).pulse1.envelope == spec_envelope_tick(old(self).pulse1.envelope),
            final(self).pulse2.envelope == spec_envelope_tick(old(self).pulse2.envelope),
            final(self).noise.envelope == spec_envelope_tick(old(self).noise.envelope),
            final(self).triangle.linear_counter_load == spec_linear_tick(
                old(self).triangle.linear_counter_load,
            ),
            final(self).pulse1.length_counter == spec_length_tick(old(self).pulse1.length_counter),
            final(self).pulse2.length_counter == spec_length_tick(old(self).pulse2.length_counter),
            final(self).triangle.length_counter == spec_length_tick(
                old(self).triangle.length_counter,
            ),
            final(self).noise.length_counter == spec_length_tick(old(self).noise.length_counter),
            final(self).dmc == old(self).dmc,
            final(self).status == old(self).status,
    {
        self.step_quarter_frame();

        self.pulse1.length_counter_tick();
        self.pulse2.length_counter_tick();
        self.triangle.length_counter_tick();
        self.noise.length_counter.tick();

        let p1 = self.pulse1.get_timer_period();
        if let Some(target) = self.pulse1.sweep_tick(p1, true) {
            self.pulse1.set_timer_period(target);
        }
        let p2 = self.pulse2.get_timer_period();
        if let Some(target) = self.pulse2.sweep_tick(p2, false) {
            self.pulse2.set_timer_period(target);
        }
    }

    /// The five channel output levels at this instant.
    pub fn get_audio_levels(&self) -> (r: ChannelLevels)
        requires
            self.wf(),
        ensures
            r.pulse1 == spec_pulse_output(self.pulse1),
            r.pulse2 == spec_pulse_output(self.pulse2),
            r.triangle == spec_triangle_sequence(self.triangle.sequence_index),
            r.noise == spec_noise_output(self.noise),
            r.dmc == spec_dmc_output(self.dmc),
            r.pulse1 <= 15,
            r.pulse2 <= 15,
            r.noise <= 15,
            r.triangle <= 15,
            r.dmc <= 127,
    {
        ChannelLevels {
            pulse1: self.pulse1.output(),
            pulse2: self.pulse2.output(),
            triangle: self.triangle.output(),
            noise: self.noise.output(),
            dmc: self.dmc.output(),
        }
    }

    /// A register-port write, dispatched on the address.
    pub fn write_register(&mut self, addr: u16, data: u8)
        requires
            old(self).wf(),
        ensures
            final(self).wf(),
            final(self).cycles == old(self).cycles,
            addr == 0x4008 ==> final(self).triangle.linear_counter_load.data == data && final(self).triangle.length_counter.halt == (data & 0x80 != 0),
            addr == 0x400E ==> final(self).noise.linear_feedback.data == data,
            addr == 0x4010 ==> final(self).dmc.freq.data == data,
            addr == 0x4011 ==> spec_dmc_output(final(self).dmc) == data & LOAD_COUNTER_MASK,
            addr == 0x4012 ==> final(self).dmc.sample_addr == data,
            addr == 0x4013 ==> final(self).dmc.sample_len == data,
            addr == 0x4015 ==> {
                &&& final(self).pulse1.length_counter.enabled == (data & PULSE_1_CHANNEL_MASK
                    != 0)
                &&& final(self).pulse2.length_counter.enabled == (data & PULSE_2_CHANNEL_MASK
                    != 0)
                &&& final(self).triangle.length_counter.enabled == (data & TRIANGLE_MASK != 0)
                &&& final(self).noise.length_counter.enabled == (data & NOISE_MASK != 0)
                &&& (data & PULSE_1_CHANNEL_MASK == 0 ==> final(self).pulse1.length_counter.counter == 0)
                &&& (data & PULSE_2_CHANNEL_MASK == 0 ==> final(self).pulse2.length_counter.counter == 0)
                &&& (data & TRIANGLE_MASK == 0 ==> final(self).triangle.length_counter.counter
                    == 0)
                &&& (data & NOISE_MASK == 0 ==> final(self).noise.length_counter.counter == 0)
                &&& (data & ENABLE_DMC_MASK == 0 ==> final(self).dmc.bytes_remaining == 0)
                &&& (data & ENABLE_DMC_MASK != 0 && old(self).dmc.bytes_remaining == 0 ==> final(self).dmc.bytes_remaining == old(self).dmc.sample_len * 16 + 1)
                &&& (data & ENABLE_DMC_MASK != 0 && old(self).dmc.bytes_remaining > 0 ==> final(self).dmc.bytes_remaining == old(self).dmc.bytes_remaining)
                &&& !final(self).dmc.irq_active
            },
            addr == 0x4017 ==> {
                &&& final(self).frame_counter.data == data
                &&& final(self).frame_counter.cycle_count == 0
                &&& final(self).frame_counter.step_index == 0
            },
    {
        if addr >= 0x4000 && addr <= 0x4007 {
            self.write_pulses(addr, data);
        } else if addr == 0x4008 {
            self.triangle.linear_counter_write_all(data);
        } else if addr == 0x400A {
            self.triangle.timer_low_write_all(data);
        } else if addr == 0x400B {
            self.triangle.length_counter_write_all(data);
            self.triangle.linear_counter_reload();
        } else if addr == 0x400C {
            proof {
                crate::bits::lemma_u8_masks();
            }
            self.noise.envelope.write(0xFF, data);
            self.noise.length_counter.halt = (data & ENVELOPE_COUNTER_HALT_MASK) != 0;
        } else if addr == 0x400E {
            proof {
                crate::bits::lemma_u8_masks();
            }
            self.noise.linear_feedback.write(0xFF, data);
        } else if addr == 0x400F {
            proof {
                crate::bits::lemma_u8_masks();
            }
            self.noise.length_counter.write(0xFF, data);
            self.noise.envelope.restart();
        } else if addr == 0x4010 {
            self.dmc.freq.write(0xFF, data);
        } else if addr == 0x4011 {
            self.dmc.direct_load.write(LOAD_COUNTER_MASK, data);
        } else if addr == 0x4012 {
            self.dmc.write_sample_addr(data);
        } else if addr == 0x4013 {
            self.dmc.write_sample_len(data);
        } else if addr == 0x4015 {
            self.status.write(0xFF, data);
            self.pulse1.length_counter_enable((data & PULSE_1_CHANNEL_MASK) != 0);
            self.pulse2.length_counter_enable((data & PULSE_2_CHANNEL_MASK) != 0);
            self.triangle.length_counter_enable((data & TRIANGLE_MASK) != 0);

            if !self.pulse1.is_length_counter_enabled() {
                self.pulse1.length_counter_reset();
            }
            if !self.pulse2.is_length_counter_enabled() {
                self.pulse2.length_counter_reset();
            }
            if !self.triangle.is_length_counter_enabled() {
                self.triangle.length_counter_reset();
            }

            self.noise.length_counter.enabled = (data & NOISE_MASK) != 0;
            if !self.noise.length_counter.enabled {
                self.noise.length_counter.counter = 0;
            }

            self.dmc.enable((data & ENABLE_DMC_MASK) != 0);
        } else if addr == 0x4017 {
            proof {
                crate::bits::lemma_u8_masks();
            }
            self.frame_counter.write(0xFF, data);
        }
        // writes to other addresses are ignorable warnings: dropped
    }

    /// The `0x4015` status read: which channels are still sounding; the
    /// read clears the frame interrupt and changes no channel state.
    pub fn read_status(&mut self) -> (status: u8)
        ensures
            status == spec_apu_status(*old(self)),
            !final(self).frame_counter.irq_flag,
            final(self).wf() == old(self).wf(),
            final(self).cycles == old(self).cycles,
            final(self).pulse1 == old(self).pulse1,
            final(self).pulse2 == old(self).pulse2,
            final(self).triangle == old(self).triangle,
            final(self).noise == old(self).noise,
            final(self).dmc == old(self).dmc,
            final(self).status == old(self).status,
            final(self).global_cycle == old(self).global_cycle,
            final(self).frame_counter == (FrameCounter {
                irq_flag: false,
                ..old(self).frame_counter
            }),
    {
        let s1: u8 = if self.pulse1.get_length_counter() > 0 {
            PULSE_1_CHANNEL_MASK
        } else {
            0
        };
        let s2: u8 = s1 | if self.pulse2.get_length_counter() > 0 {
            PULSE_2_CHANNEL_MASK
        } else {
            0
        };
        let s3: u8 = s2 | if self.triangle.get_length_counter() > 0 {
            TRIANGLE_MASK
        } else {
            0
        };
        let s4: u8 = s3 | if self.noise.length_counter.is_active() {
            NOISE_MASK
        } else {
            0
        };
        let status: u8 = s4 | if self.dmc.remaining_bytes() > 0 {
            ENABLE_DMC_MASK
        } else {
            0
        };

        // reading the status clears the frame interrupt
        self.frame_counter.clear_irq();

        status
    }

    /// Whether the unit holds an interrupt (frame counter or delta-PCM).
    pub fn irq_pending(&self) -> (r: bool)
        ensures
            r == self.irq_flagged(),
    {
        self.frame_counter.irq_pending() || self.dmc.irq_active
    }

    /// Whether the delta-PCM channel is waiting for a sample byte.
    pub fn needs_dmc_sample(&self) -> (r: bool)
        ensures
            r == (self.dmc.sample_buffer is None && self.dmc.bytes_remaining > 0),
    {
        self.dmc.needs_sample()
    }

    /// The CPU address the next delta-PCM byte comes from.
    pub fn get_dmc_addr(&self) -> (r: u16)
        ensures
            r == self.dmc.current_addr,
    {
        self.dmc.get_current_addr()
    }

    /// Hands the delta-PCM channel the byte the bus fetched for it.
    pub fn set_dmc_sample(&mut self, val: u8)
        requires
            old(self).wf(),
            old(self).dmc.bytes_remaining > 0,
        ensures
            final(self).wf(),
            final(self).dmc.sample_buffer == Some(val),
            final(self).cycles == old(self).cycles,
    {
        self.dmc.set_sample_buffer(val);
    }

    fn write_pulses(&mut self, addr: u16, data: u8)
        requires
            old(self).wf(),
            0x4000 <= addr <= 0x4007,
        ensures
            final(self).wf(),
            final(self).cycles == old(self).cycles,
            final(self).frame_counter == old(self).frame_counter,
    {
        let reg: u16 = addr & 0x03;
        let second: bool = (addr & 0x04) != 0;
        proof {
            crate::bits::lemma_u16_facts();
        }

        if !second {
            if reg == 0 {
                self.pulse1.envelope_write_all(data);
                self.pulse1.length_counter_halt((data & ENVELOPE_COUNTER_HALT_MASK) != 0);
            } else if reg == 1 {
                self.pulse1.sweep_write_all(data);
            } else if reg == 2 {
                self.pulse1.timer_low_write_all(data);
            } else {
                self.pulse1.length_counter_write_all(data);
                self.pulse1.reset_phase_envelope();
            }
        } else {
            if reg == 0 {
                self.pulse2.envelope_write_all(data);
                self.pulse2.length_counter_halt((data & ENVELOPE_COUNTER_HALT_MASK) != 0);
            } else if reg == 1 {
                self.pulse2.sweep_write_all(data);
            } else if reg == 2 {
                self.pulse2.timer_low_write_all(data);
            } else {
                self.pulse2.length_counter_write_all(data);
                self.pulse2.reset_phase_envelope();
            }
        }
    }
}

} // verus!
