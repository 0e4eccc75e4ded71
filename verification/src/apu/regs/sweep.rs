//! Pulse sweep unit: periodically retargets the channel's timer period and
//! mutes the channel when the target leaves the playable range.

use vstd::prelude::*;

use crate::apu::regs::Reg;

verus! {

pub const ENABLE_MASK: u8 = 0x80;
pub const PERIOD_MASK: u8 = 0x70;
pub const NEGATE_MASK: u8 = 0x08;
pub const SHIFT_MASK: u8 = 0x07;

pub const MUTE_MIN: u16 = 8;
pub const MUTE_MAX: u16 = 0x7FF;

/// Register byte, divider countdown, reload flag and the mute latch.
pub struct Sweep {
    pub data: u8,
    pub divider_count: u8,
    pub reload_flag: bool,
    pub mute: bool,
}

/// The period the sweep aims at: the current period changed by itself
/// shifted right; in negate mode the change is subtracted, and pulse 1
/// subtracts one more.
pub open spec fn spec_sweep_target(data: u8, period: u16, is_pulse_1: bool) -> u16 {
    let change = period >> (data & SHIFT_MASK);
    if data & NEGATE_MASK != 0 {
        let t = (period - change) as u16;
        if is_pulse_1 && t >= 1 {
            (t - 1) as u16
        } else {
            t
        }
    } else {
        (period + change) as u16
    }
}

/// Whether the sweep mutes the channel: the period is below 8 or the target
/// is above `0x7FF`.
pub open spec fn spec_sweep_mutes(data: u8, period: u16, is_pulse_1: bool) -> bool {
    period < MUTE_MIN || spec_sweep_target(data, period, is_pulse_1) > MUTE_MAX
}

impl Sweep {
    pub fn new() -> (r: Self)
        ensures
            r.data == 0,
            r.divider_count == 0,
            !r.reload_flag,
            !r.mute,
    {
        Sweep { data: 0, divider_count: 0, reload_flag: false, mute: false }
    }

    /// Half-frame tick: latches the mute decision and, when the divider
    /// expires with the sweep enabled and a nonzero shift, yields the target
    /// period for the channel to adopt.
    pub fn tick(&mut self, current_period: u16, is_pulse_1: bool) -> (res: Option<u16>)
        requires
            current_period <= 0x7FF,
        ensures
            final(self).data == old(self).data,
            final(self).mute == spec_sweep_mutes(old(self).data, current_period, is_pulse_1),
            final(self).mute ==> res is None && final(self).divider_count == old(self).divider_count && final(self).reload_flag == old(self).reload_flag,
            !final(self).mute ==> {
                &&& (if old(self).divider_count == 0 && old(self).reload_flag {
                    &&& final(self).divider_count == (old(self).data & PERIOD_MASK) >> 4
                    &&& !final(self).reload_flag
                    &&& res is None
                } else if old(self).divider_count > 0 {
                    &&& final(self).divider_count == old(self).divider_count - 1
                    &&& final(self).reload_flag == old(self).reload_flag
                    &&& res is None
                } else {
                    &&& final(self).divider_count == (old(self).data & PERIOD_MASK) >> 4
                    &&& !final(self).reload_flag
                    &&& res == if old(self).data & ENABLE_MASK != 0 && old(self).data & SHIFT_MASK
                        != 0 {
                        Some(spec_sweep_target(old(self).data, current_period, is_pulse_1))
                    } else {
                        None::<u16>
                    }
                })
            },
    {
        proof {
            let p = current_period;
            let d = self.data;
            assert(d & 0x07 < 8 && (p >> (d & 0x07)) <= p) by (bit_vector);
        }
        let change_amount = current_period >> (self.data & SHIFT_MASK);
        let mut target_period = current_period;
        let mut res: Option<u16> = None;

        if self.data & NEGATE_MASK != 0 {
            target_period = target_period - change_amount;

            if is_pulse_1 && target_period >= 1 {
                target_period -= 1;
            }
        } else {
            target_period = target_period + change_amount;
        }

        self.mute = (current_period < MUTE_MIN) || (target_period > MUTE_MAX);

        if !self.mute {
            if self.divider_count == 0 && self.reload_flag {
                self.reload_divider();
                self.reload_flag = false;
            } else if self.divider_count > 0 {
                self.divider_count -= 1;
            } else {
                self.reload_divider();
                self.reload_flag = false;

                if (self.data & ENABLE_MASK != 0) && (self.data & SHIFT_MASK != 0) {
                    res = Some(target_period);
                }
            }
        }

        res
    }

    fn reload_divider(&mut self)
        ensures
            final(self).divider_count == (old(self).data & PERIOD_MASK) >> 4,
            final(self).data == old(self).data,
            final(self).reload_flag == old(self).reload_flag,
            final(self).mute == old(self).mute,
    {
        self.divider_count = (self.data & PERIOD_MASK) >> 4;
    }

    pub fn is_muted(&self) -> (r: bool)
        ensures
            r == self.mute,
    {
        self.mute
    }

    /// Register write: replaces the `mask` bits and flags a divider reload.
    pub fn write(&mut self, mask: u8, val: u8)
        ensures
            final(self).data == (old(self).data & !mask) | (val & mask),
            final(self).reload_flag,
            final(self).divider_count == old(self).divider_count,
            final(self).mute == old(self).mute,
    {
        self.data = (self.data & !mask) | (val & mask);
        self.reload_flag = true;
    }
}

impl Reg for Sweep {
    open spec fn spec_data(&self) -> u8 {
        self.data
    }

    fn data(&self) -> u8 {
        self.data
    }
}

} // verus!
