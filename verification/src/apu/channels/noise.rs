//! Noise channel: a 15-bit linear-feedback shift register clocked by a
//! table-selected period, gated by the envelope and the length counter.

use vstd::prelude::*;

use crate::apu::regs::envelope::{spec_envelope_volume, Envelope};
use crate::apu::regs::length_counter::LengthCounter;
use crate::apu::regs::linear_feedback::LinearFeedback;

verus! {

/// The hardware period table indexed by the 4-bit period field.
pub open spec fn spec_noise_period(index: usize) -> u16 {
    if index == 0 { 4 }
    else if index == 1 { 8 }
    else if index == 2 { 16 }
    else if index == 3 { 32 }
    else if index == 4 { 64 }
    else if index == 5 { 96 }
    else if index == 6 { 128 }
    else if index == 7 { 160 }
    else if index == 8 { 202 }
    else if index == 9 { 254 }
    else if index == 10 { 380 }
    else if index == 11 { 508 }
    else if index == 12 { 762 }
    else if index == 13 { 1016 }
    else if index == 14 { 2034 }
    else { 4068 }
}

fn noise_period(index: usize) -> (r: u16)
    requires
        index < 16,
    ensures
        r == spec_noise_period(index),
{
    if index == 0 { 4 }
    else if index == 1 { 8 }
    else if index == 2 { 16 }
    else if index == 3 { 32 }
    else if index == 4 { 64 }
    else if index == 5 { 96 }
    else if index == 6 { 128 }
    else if index == 7 { 160 }
    else if index == 8 { 202 }
    else if index == 9 { 254 }
    else if index == 10 { 380 }
    else if index == 11 { 508 }
    else if index == 12 { 762 }
    else if index == 13 { 1016 }
    else if index == 14 { 2034 }
    else { 4068 }
}

/// The shift register after one feedback step: the new bit 14 is bit 0 xor
/// the tap bit (bit 6 in short mode, bit 1 otherwise).
pub open spec fn spec_lfsr_step(sr: u16, short_mode: bool) -> u16 {
    let tap = if short_mode { 6u16 } else { 1u16 };
    let feedback = (sr & 1) ^ ((sr >> tap) & 1);
    (sr >> 1) | (feedback << 14)
}

/// The noise channel.
pub struct Noise {
    pub envelope: Envelope,
    pub linear_feedback: LinearFeedback,
    pub length_counter: LengthCounter,
    pub timer_counter: u16,
    pub timer_period: u16,
    pub shift_register: u16,
}

/// The channel after one timer tick: a freshly written period is adopted
/// from the hardware table, then the counter counts down; on expiry it
/// reloads while the shift register takes one feedback step.
pub open spec fn spec_noise_timer_step(n: Noise) -> Noise {
    let adopted = Noise {
        timer_period: if n.linear_feedback.changed {
            spec_noise_period((n.linear_feedback.data & 0x0F) as usize)
        } else {
            n.timer_period
        },
        linear_feedback: LinearFeedback { changed: false, ..n.linear_feedback },
        ..n
    };
    if adopted.timer_counter > 0 {
        Noise { timer_counter: (adopted.timer_counter - 1) as u16, ..adopted }
    } else {
        Noise {
            timer_counter: adopted.timer_period,
            shift_register: spec_lfsr_step(
                adopted.shift_register,
                adopted.linear_feedback.data & 0x80 != 0,
            ),
            ..adopted
        }
    }
}

/// The channel's output: the envelope volume while the length counter runs
/// and bit 0 of the shift register is clear; otherwise silence.
pub open spec fn spec_noise_output(n: Noise) -> u8 {
    if n.length_counter.counter > 0 && n.shift_register & 1 == 0 {
        spec_envelope_volume(n.envelope)
    } else {
        0
    }
}

impl Noise {
    pub fn new() -> (r: Self)
        ensures
            r.envelope.wf(),
            r.envelope.data == 0,
            r.timer_counter == 0,
            r.timer_period == 0,
            r.shift_register == 1,
            r.length_counter.counter == 0,
    {
        Noise {
            envelope: Envelope::new(),
            linear_feedback: LinearFeedback::new(),
            length_counter: LengthCounter::new(),
            timer_counter: 0,
            timer_period: 0,
            shift_register: 1,
        }
    }

    /// Timer tick: adopts a newly written period from the hardware table,
    /// then counts down; on expiry the shift register takes one feedback
    /// step.
    pub fn step_timer(&mut self)
        ensures
            *final(self) == spec_noise_timer_step(*old(self)),
            final(self).envelope == old(self).envelope,
            final(self).length_counter == old(self).length_counter,
            final(self).timer_period == if old(self).linear_feedback.changed {
                spec_noise_period((old(self).linear_feedback.data & 0x0F) as usize)
            } else {
                old(self).timer_period
            },
            !final(self).linear_feedback.changed,
            old(self).timer_counter > 0 ==> {
                &&& final(self).timer_counter == old(self).timer_counter - 1
                &&& final(self).shift_register == old(self).shift_register
            },
            old(self).timer_counter == 0 ==> {
                &&& final(self).timer_counter == final(self).timer_period
                &&& final(self).shift_register == spec_lfsr_step(
                    old(self).shift_register,
                    old(self).linear_feedback.data & 0x80 != 0,
                )
            },
    {
        if let Some(_val) = self.linear_feedback.take_changed() {
            let index = self.linear_feedback.get_period_index();
            self.timer_period = noise_period(index);
        }

        if self.timer_counter > 0 {
            self.timer_counter -= 1;
        } else {
            self.timer_counter = self.timer_period;

            let mode = self.linear_feedback.get_mode();
            let tap_bit: u16 = if mode {
                6
            } else {
                1
            };

            let bit_0 = self.shift_register & 1;
            let bit_tap = (self.shift_register >> tap_bit) & 1;
            let feedback = bit_0 ^ bit_tap;

            proof {
                let f = feedback;
                let sr = old(self).shift_register;
                assert((sr & 1) ^ ((sr >> 1u16) & 1) <= 1 && (sr & 1) ^ ((sr >> 6u16) & 1) <= 1)
                    by (bit_vector);
            }
            self.shift_register >>= 1;
            self.shift_register |= feedback << 14;
        }
    }

    pub fn output(&self) -> (r: u8)
        requires
            self.envelope.wf(),
        ensures
            r == spec_noise_output(*self),
            r <= 15,
    {
        proof {
            crate::bits::lemma_u8_masks();
        }
        let mut res: u8 = 0;

        if self.length_counter.is_active() && (self.shift_register & 1) == 0 {
            res = self.envelope.output_volume();
        }

        res
    }
}

} // verus!
