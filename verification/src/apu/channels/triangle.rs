//! Triangle channel: an 11-bit timer walks a fixed 32-step sequence, gated
//! by the length counter and the linear counter; there is no volume control.

use vstd::prelude::*;

use crate::apu::regs::length_counter::{LengthCounter, TIMER_HIGH_MASK};
use crate::apu::regs::linear_counter::LinearCounter;
use crate::apu::regs::timer::{TimerLow, TIMER_LOW_MASK};

verus! {

pub const BIT_7_MASK: u8 = 0x80;

/// The fixed output sequence: 15 down to 0, then 0 back up to 15.
pub open spec fn spec_triangle_sequence(step: u8) -> u8 {
    if step < 16 {
        (15 - step) as u8
    } else {
        (step - 16) as u8
    }
}

fn triangle_sequence(step: u8) -> (r: u8)
    requires
        step < 32,
    ensures
        r == spec_triangle_sequence(step),
{
    if step < 16 {
        15 - step
    } else {
        step - 16
    }
}

/// The triangle channel.
pub struct Triangle {
    pub linear_counter_load: LinearCounter,
    pub timer_low: TimerLow,
    pub length_counter: LengthCounter,
    pub timer_period: u16,
    pub timer_counter: u16,
    pub sequence_index: u8,
}

/// The channel after one timer tick: the counter counts down and, on
/// expiry, reloads while the 32-step sequence advances when both the length
/// counter and the linear counter are running.
pub open spec fn spec_triangle_timer_step(t: Triangle) -> Triangle {
    if t.timer_counter > 0 {
        Triangle { timer_counter: (t.timer_counter - 1) as u16, ..t }
    } else {
        Triangle {
            timer_counter: t.timer_period,
            sequence_index: if t.length_counter.counter > 0 && t.linear_counter_load.counter > 0 {
                ((t.sequence_index + 1) % 32) as u8
            } else {
                t.sequence_index
            },
            ..t
        }
    }
}

impl Triangle {
    /// The channel keeps its position inside the 32-step sequence.
    pub open spec fn wf(&self) -> bool {
        self.sequence_index < 32
    }

    pub fn new() -> (r: Self)
        ensures
            r.wf(),
            r.timer_period == 0,
            r.timer_counter == 0,
            r.sequence_index == 0,
            r.length_counter.counter == 0,
    {
        Triangle {
            linear_counter_load: LinearCounter::new(),
            timer_low: TimerLow::new(),
            length_counter: LengthCounter::new(),
            timer_period: 0,
            timer_counter: 0,
            sequence_index: 0,
        }
    }

    fn update_timer_period(&mut self)
        ensures
            final(self).timer_period == (final(self).timer_low.data as u16) | ((final(self).length_counter.data & TIMER_HIGH_MASK) as u16) << 8,
            final(self).linear_counter_load == old(self).linear_counter_load,
            final(self).timer_low == old(self).timer_low,
            final(self).length_counter == old(self).length_counter,
            final(self).timer_counter == old(self).timer_counter,
            final(self).sequence_index == old(self).sequence_index,
    {
        let low = self.timer_low.read(TIMER_LOW_MASK) as u16;
        let high = self.length_counter.read(TIMER_HIGH_MASK) as u16;
        proof {
            crate::bits::lemma_u8_masks();
        }
        self.timer_period = low | (high << 8);
    }

    /// Timer tick: counts down and, on expiry, advances the sequence when
    /// both the length counter and the linear counter are running.
    pub fn step_timer(&mut self)
        requires
            old(self).wf(),
        ensures
            final(self).wf(),
            *final(self) == spec_triangle_timer_step(*old(self)),
            old(self).timer_counter > 0 ==> final(self).timer_counter == old(self).timer_counter
                - 1 && final(self).sequence_index == old(self).sequence_index,
            old(self).timer_counter == 0 ==> {
                &&& final(self).timer_counter == old(self).timer_period
                &&& final(self).sequence_index == if old(self).length_counter.counter > 0 && old(self).linear_counter_load.counter > 0 {
                    ((old(self).sequence_index + 1) % 32) as u8
                } else {
                    old(self).sequence_index
                }
            },
            final(self).linear_counter_load == old(self).linear_counter_load,
            final(self).timer_low == old(self).timer_low,
            final(self).length_counter == old(self).length_counter,
            final(self).timer_period == old(self).timer_period,
    {
        if self.timer_counter > 0 {
            self.timer_counter -= 1;
        } else {
            self.timer_counter = self.timer_period;

            if self.length_counter.is_active() && self.linear_counter_load.counter > 0 {
                self.sequence_index = (self.sequence_index + 1) % 32;
            }
        }
    }

    /// The current sequence value, always in `0 ..= 15`.
    pub fn output(&self) -> (r: u8)
        requires
            self.wf(),
        ensures
            r == spec_triangle_sequence(self.sequence_index),
            r <= 15,
    {
        triangle_sequence(self.sequence_index)
    }

    pub fn linear_counter_tick(&mut self)
        ensures
            final(self).wf() == old(self).wf(),
            *final(self) == (Triangle {
                linear_counter_load: crate::apu::regs::linear_counter::spec_linear_tick(
                    old(self).linear_counter_load,
                ),
                ..*old(self)
            }),
    {
        self.linear_counter_load.tick();
    }

    pub fn length_counter_tick(&mut self)
        ensures
            final(self).wf() == old(self).wf(),
            *final(self) == (Triangle {
                length_counter: crate::apu::regs::length_counter::spec_length_tick(
                    old(self).length_counter,
                ),
                ..*old(self)
            }),
    {
        self.length_counter.tick();
    }

    /// Write to the linear-counter register: bit 7 also halts the length
    /// counter.
    pub fn linear_counter_write_all(&mut self, val: u8)
        ensures
            final(self).wf() == old(self).wf(),
            final(self).linear_counter_load.data == val,
            final(self).linear_counter_load.reload_flag,
            final(self).length_counter.halt == (val & BIT_7_MASK != 0),
            final(self).length_counter.counter == old(self).length_counter.counter,
            final(self).timer_period == old(self).timer_period,
            final(self).sequence_index == old(self).sequence_index,
    {
        proof {
            crate::bits::lemma_u8_masks();
        }
        self.linear_counter_load.write(0xFF, val);
        self.length_counter.halt = (val & BIT_7_MASK) != 0;
    }

    pub fn timer_low_write_all(&mut self, val: u8)
        ensures
            final(self).wf() == old(self).wf(),
            final(self).timer_low.data == val,
            final(self).timer_period == (val as u16) | ((old(self).length_counter.data
                & TIMER_HIGH_MASK) as u16) << 8,
            final(self).linear_counter_load == old(self).linear_counter_load,
            final(self).length_counter == old(self).length_counter,
            final(self).sequence_index == old(self).sequence_index,
    {
        proof {
            crate::bits::lemma_u8_masks();
        }
        self.timer_low.write(0xFF, val);
        self.update_timer_period();
    }

    /// Write to the length/timer-high register: reloads the length counter
    /// (while enabled), refreshes the period and flags a linear reload.
    pub fn length_counter_write_all(&mut self, val: u8)
        ensures
            final(self).wf() == old(self).wf(),
            final(self).length_counter.data == val,
            final(self).linear_counter_load.reload_flag,
            final(self).sequence_index == old(self).sequence_index,
    {
        proof {
            crate::bits::lemma_u8_masks();
        }
        self.length_counter.write(0xFF, val);
        self.update_timer_period();
        self.linear_counter_load.set_reload();
    }

    pub fn linear_counter_reload(&mut self)
        ensures
            final(self).wf() == old(self).wf(),
            final(self).linear_counter_load.reload_flag,
            final(self).length_counter == old(self).length_counter,
            final(self).timer_period == old(self).timer_period,
            final(self).sequence_index == old(self).sequence_index,
    {
        self.linear_counter_load.reload_flag = true;
    }

    pub fn get_length_counter(&self) -> (r: u8)
        ensures
            r == self.length_counter.counter,
    {
        self.length_counter.counter
    }

    pub fn length_counter_enable(&mut self, enable: bool)
        ensures
            final(self).wf() == old(self).wf(),
            final(self).length_counter == (crate::apu::regs::length_counter::LengthCounter {
                enabled: enable,
                ..old(self).length_counter
            }),
            final(self).length_counter.enabled == enable,
            final(self).length_counter.counter == old(self).length_counter.counter,
            final(self).linear_counter_load == old(self).linear_counter_load,
            final(self).timer_period == old(self).timer_period,
            final(self).sequence_index == old(self).sequence_index,
    {
        self.length_counter.enabled = enable;
    }

    pub fn is_length_counter_enabled(&self) -> (r: bool)
        ensures
            r == self.length_counter.enabled,
    {
        self.length_counter.enabled
    }

    pub fn length_counter_reset(&mut self)
        ensures
            final(self).wf() == old(self).wf(),
            final(self).length_counter == (crate::apu::regs::length_counter::LengthCounter {
                counter: 0,
                ..old(self).length_counter
            }),
            final(self).length_counter.counter == 0,
            final(self).linear_counter_load == old(self).linear_counter_load,
            final(self).timer_period == old(self).timer_period,
            final(self).sequence_index == old(self).sequence_index,
    {
        self.length_counter.counter = 0;
    }
}

} // verus!
