//! Square-wave channel: an 11-bit timer clocks an 8-step duty sequence,
//! gated by the envelope, the sweep and the length counter.

use vstd::prelude::*;

use crate::apu::regs::envelope::{spec_envelope_volume, Envelope};
use crate::apu::regs::length_counter::{LengthCounter, TIMER_HIGH_MASK};
use crate::apu::regs::sweep::Sweep;
use crate::apu::regs::timer::{TimerLow, TIMER_LOW_MASK};
use crate::apu::regs::envelope::DUTY_MASK;

verus! {

pub const SILENT_PERIOD: u16 = 8;
pub const TIMER_MASK: u16 = 0x7FF;

/// One of the four duty sequences, selected by the envelope register's top
/// two bits; `step` walks the eight positions.
pub open spec fn spec_duty_bit(duty: u8, step: u8) -> u8 {
    if duty == 0 {
        if step == 1 { 1 } else { 0 }
    } else if duty == 1 {
        if step == 1 || step == 2 { 1 } else { 0 }
    } else if duty == 2 {
        if 1 <= step <= 4 { 1 } else { 0 }
    } else {
        if step == 0 || step >= 3 { 1 } else { 0 }
    }
}

fn duty_bit(duty: u8, step: u8) -> (r: u8)
    requires
        duty < 4,
        step < 8,
    ensures
        r == spec_duty_bit(duty, step),
{
    if duty == 0 {
        if step == 1 { 1 } else { 0 }
    } else if duty == 1 {
        if step == 1 || step == 2 { 1 } else { 0 }
    } else if duty == 2 {
        if 1 <= step && step <= 4 { 1 } else { 0 }
    } else {
        if step == 0 || step >= 3 { 1 } else { 0 }
    }
}

/// One pulse channel.
pub struct Pulse {
    pub envelope: Envelope,
    pub sweep: Sweep,
    pub timer_low: TimerLow,
    pub length_counter: LengthCounter,
    pub timer_period: u16,
    pub timer_counter: u16,
    pub duty_sequence_index: u8,
}

/// The channel after one timer tick: the counter counts down and, on
/// expiry, reloads from the period while the duty sequence steps.
pub open spec fn spec_pulse_timer_step(p: Pulse) -> Pulse {
    if p.timer_counter > 0 {
        Pulse { timer_counter: (p.timer_counter - 1) as u16, ..p }
    } else {
        Pulse {
            timer_counter: p.timer_period,
            duty_sequence_index: if p.duty_sequence_index == 0 {
                7u8
            } else {
                (p.duty_sequence_index - 1) as u8
            },
            ..p
        }
    }
}

/// The channel's output: the envelope volume when the duty bit is high, the
/// length counter is running, the period is at least 8 and the sweep does
/// not mute; otherwise silence.
pub open spec fn spec_pulse_output(p: Pulse) -> u8 {
    if p.length_counter.counter > 0 && p.timer_period >= SILENT_PERIOD && !p.sweep.mute
        && spec_duty_bit((p.envelope.data & DUTY_MASK) >> 6, p.duty_sequence_index % 8) != 0 {
        spec_envelope_volume(p.envelope)
    } else {
        0
    }
}

impl Pulse {
    /// The channel keeps its duty position inside the 8-step sequence,
    /// its period inside 11 bits and its envelope decay inside 4 bits.
    pub open spec fn wf(&self) -> bool {
        self.duty_sequence_index < 8 && self.timer_period <= TIMER_MASK && self.envelope.wf()
    }

    pub fn new() -> (r: Self)
        ensures
            r.wf(),
            r.timer_period == 0,
            r.timer_counter == 0,
            r.duty_sequence_index == 0,
            r.length_counter.counter == 0,
    {
        Pulse {
            envelope: Envelope::new(),
            sweep: Sweep::new(),
            timer_low: TimerLow::new(),
            length_counter: LengthCounter::new(),
            timer_period: 0,
            timer_counter: 0,
            duty_sequence_index: 0,
        }
    }

    /// Recomputes the 11-bit period from the two timer registers.
    fn update_timer_period(&mut self)
        ensures
            final(self).timer_period == (final(self).timer_low.data as u16) | ((final(self).length_counter.data & TIMER_HIGH_MASK) as u16) << 8,
            final(self).timer_period <= TIMER_MASK,
            final(self).envelope == old(self).envelope,
            final(self).sweep == old(self).sweep,
            final(self).timer_low == old(self).timer_low,
            final(self).length_counter == old(self).length_counter,
            final(self).timer_counter == old(self).timer_counter,
            final(self).duty_sequence_index == old(self).duty_sequence_index,
    {
        let low = self.timer_low.read(TIMER_LOW_MASK) as u16;
        let high = self.length_counter.read(TIMER_HIGH_MASK) as u16;
        proof {
            crate::bits::lemma_u8_masks();
            crate::bits::lemma_u16_facts();
        }
        self.timer_period = low | (high << 8);
    }

    pub fn get_timer_period(&self) -> (r: u16)
        ensures
            r == self.timer_period,
    {
        self.timer_period
    }

    /// Adopts a sweep target, masked to 11 bits.
    pub fn set_timer_period(&mut self, period: u16)
        ensures
            final(self).timer_period == period & TIMER_MASK,
            final(self).timer_period <= TIMER_MASK,
            final(self).envelope == old(self).envelope,
            final(self).sweep == old(self).sweep,
            final(self).length_counter == old(self).length_counter,
            final(self).duty_sequence_index == old(self).duty_sequence_index,
    {
        proof {
            crate::bits::lemma_u16_facts();
        }
        self.timer_period = period & TIMER_MASK;
    }

    /// Timer tick: counts down and, on expiry, reloads the counter and steps
    /// the duty sequence.
    pub fn step_timer(&mut self)
        requires
            old(self).wf(),
        ensures
            final(self).wf(),
            *final(self) == spec_pulse_timer_step(*old(self)),
            old(self).timer_counter > 0 ==> final(self).timer_counter == old(self).timer_counter
                - 1 && final(self).duty_sequence_index == old(self).duty_sequence_index,
            old(self).timer_counter == 0 ==> final(self).timer_counter == old(self).timer_period
                && final(self).duty_sequence_index == (old(self).duty_sequence_index + 7) % 8,
            final(self).envelope == old(self).envelope,
            final(self).sweep == old(self).sweep,
            final(self).length_counter == old(self).length_counter,
            final(self).timer_period == old(self).timer_period,
    {
        if self.timer_counter > 0 {
            self.timer_counter -= 1;
        } else {
            self.timer_counter = self.timer_period;
            let idx = self.duty_sequence_index;
            self.duty_sequence_index = if idx == 0 {
                7
            } else {
                idx - 1
            };
        }
    }

    pub fn output(&self) -> (r: u8)
        requires
            self.wf(),
        ensures
            r == spec_pulse_output(*self),
            r <= 15,
    {
        proof {
            crate::bits::lemma_u8_masks();
        }
        let mut res: u8 = 0;
        if self.length_counter.is_active() && self.timer_period >= SILENT_PERIOD
            && !self.sweep.is_muted() {
            let duty_mode = (self.envelope.data & DUTY_MASK) >> 6;
            proof {
                crate::bits::lemma_u8_masks();
            }
            let bit = duty_bit(duty_mode, self.duty_sequence_index);

            if bit != 0 {
                res = self.envelope.output_volume();
            }
        }
        res
    }

    pub fn envelope_tick(&mut self)
        ensures
            old(self).wf() ==> final(self).wf(),
            *final(self) == (Pulse {
                envelope: crate::apu::regs::envelope::spec_envelope_tick(old(self).envelope),
                ..*old(self)
            }),
    {
        self.envelope.tick();
    }

    pub fn length_counter_tick(&mut self)
        ensures
            final(self).wf() == old(self).wf(),
            *final(self) == (Pulse {
                length_counter: crate::apu::regs::length_counter::spec_length_tick(
                    old(self).length_counter,
                ),
                ..*old(self)
            }),
    {
        self.length_counter.tick();
    }

    /// Half-frame sweep tick against the given period; yields the retarget.
    pub fn sweep_tick(&mut self, current_period: u16, is_pulse_1: bool) -> (res: Option<u16>)
        requires
            current_period <= 0x7FF,
        ensures
            final(self).wf() == old(self).wf(),
            final(self).envelope == old(self).envelope,
            final(self).length_counter == old(self).length_counter,
            final(self).timer_period == old(self).timer_period,
            final(self).duty_sequence_index == old(self).duty_sequence_index,
    {
        self.sweep.tick(current_period, is_pulse_1)
    }

    pub fn envelope_write_all(&mut self, val: u8)
        ensures
            final(self).wf() == old(self).wf(),
            final(self).envelope.data == val,
            final(self).sweep == old(self).sweep,
            final(self).length_counter == old(self).length_counter,
            final(self).timer_period == old(self).timer_period,
            final(self).duty_sequence_index == old(self).duty_sequence_index,
    {
        proof {
            crate::bits::lemma_u8_masks();
        }
        self.envelope.write(0xFF, val);
    }

    pub fn length_counter_halt(&mut self, halt: bool)
        ensures
            final(self).wf() == old(self).wf(),
            final(self).length_counter.halt == halt,
            final(self).envelope == old(self).envelope,
            final(self).sweep == old(self).sweep,
            final(self).timer_period == old(self).timer_period,
            final(self).duty_sequence_index == old(self).duty_sequence_index,
    {
        self.length_counter.halt = halt;
    }

    pub fn sweep_write_all(&mut self, val: u8)
        ensures
            final(self).wf() == old(self).wf(),
            final(self).sweep.data == val,
            final(self).sweep.reload_flag,
            final(self).envelope == old(self).envelope,
            final(self).length_counter == old(self).length_counter,
            final(self).timer_period == old(self).timer_period,
            final(self).duty_sequence_index == old(self).duty_sequence_index,
    {
        proof {
            crate::bits::lemma_u8_masks();
        }
        self.sweep.write(0xFF, val);
    }

    pub fn timer_low_write_all(&mut self, val: u8)
        ensures
            old(self).wf() ==> final(self).wf(),
            final(self).timer_low.data == val,
            final(self).timer_period == (val as u16) | ((old(self).length_counter.data
                & TIMER_HIGH_MASK) as u16) << 8,
            final(self).timer_period <= TIMER_MASK,
            final(self).envelope == old(self).envelope,
            final(self).sweep == old(self).sweep,
            final(self).length_counter == old(self).length_counter,
            final(self).duty_sequence_index == old(self).duty_sequence_index,
    {
        proof {
            crate::bits::lemma_u8_masks();
        }
        self.timer_low.write(0xFF, val);
        self.update_timer_period();
    }

    /// Write to the length/timer-high register: reloads the length counter
    /// (while enabled), refreshes the period and restarts the duty sequence.
    pub fn length_counter_write_all(&mut self, val: u8)
        ensures
            old(self).wf() ==> final(self).wf(),
            final(self).length_counter.data == val,
            final(self).duty_sequence_index == 0,
            final(self).envelope == old(self).envelope,
            final(self).sweep == old(self).sweep,
    {
        proof {
            crate::bits::lemma_u8_masks();
        }
        self.length_counter.write(0xFF, val);
        self.update_timer_period();
        self.duty_sequence_index = 0;
    }

    /// Restarts the envelope and the duty sequence.
    pub fn reset_phase_envelope(&mut self)
        ensures
            old(self).wf() ==> final(self).wf(),
            final(self).envelope.start_flag,
            final(self).duty_sequence_index == 0,
            final(self).sweep == old(self).sweep,
            final(self).length_counter == old(self).length_counter,
            final(self).timer_period == old(self).timer_period,
    {
        self.envelope.restart();
        self.duty_sequence_index = 0;
    }

    pub fn get_length_counter(&self) -> (r: u8)
        ensures
            r == self.length_counter.counter,
    {
        self.length_counter.counter
    }

    pub fn length_counter_enable(&mut self, enable: bool)
        ensures
            final(self).wf() == old(self).wf(),
            final(self).length_counter == (crate::apu::regs::length_counter::LengthCounter {
                enabled: enable,
                ..old(self).length_counter
            }),
            final(self).length_counter.enabled == enable,
            final(self).length_counter.counter == old(self).length_counter.counter,
            final(self).envelope == old(self).envelope,
            final(self).sweep == old(self).sweep,
            final(self).timer_period == old(self).timer_period,
            final(self).duty_sequence_index == old(self).duty_sequence_index,
    {
        self.length_counter.enabled = enable;
    }

    pub fn is_length_counter_enabled(&self) -> (r: bool)
        ensures
            r == self.length_counter.enabled,
    {
        self.length_counter.enabled
    }

    pub fn length_counter_reset(&mut self)
        ensures
            final(self).wf() == old(self).wf(),
            final(self).length_counter == (crate::apu::regs::length_counter::LengthCounter {
                counter: 0,
                ..old(self).length_counter
            }),
            final(self).length_counter.counter == 0,
            final(self).envelope == old(self).envelope,
            final(self).sweep == old(self).sweep,
            final(self).timer_period == old(self).timer_period,
            final(self).duty_sequence_index == old(self).duty_sequence_index,
    {
        self.length_counter.counter = 0;
    }
}

} // verus!
