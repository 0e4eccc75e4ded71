//! Volume envelope: decays from 15 to 0, or holds a programmed constant.

use vstd::prelude::*;

use crate::apu::regs::Reg;

verus! {

pub const DUTY_MASK: u8 = 0xC0;
pub const ENVELOPE_COUNTER_HALT_MASK: u8 = 0x20;
pub const CONSTANT_VOLUME_MASK: u8 = 0x10;
pub const VOLUME_MASK: u8 = 0x0F;

pub const DECAY_LEVEL_LOAD: u8 = 15;

/// Envelope register byte plus the decay state it drives.
pub struct Envelope {
    pub data: u8,
    pub start_flag: bool,
    pub decay_level: u8,
    pub divider: u8,
}

/// The volume the envelope currently outputs: the programmed constant when
/// bit 4 is set, else the decay level.
pub open spec fn spec_envelope_volume(e: Envelope) -> u8 {
    if e.data & CONSTANT_VOLUME_MASK != 0 {
        e.data & VOLUME_MASK
    } else {
        e.decay_level
    }
}

/// The envelope after one quarter-frame tick: a restart reloads level and
/// divider, a running divider counts down, an expired one reloads and lets
/// the decay level step (looping when the halt bit is set).
pub open spec fn spec_envelope_tick(e: Envelope) -> Envelope {
    if e.start_flag {
        Envelope { start_flag: false, decay_level: DECAY_LEVEL_LOAD, divider: e.data & VOLUME_MASK, ..e }
    } else if e.divider > 0 {
        Envelope { divider: (e.divider - 1) as u8, ..e }
    } else {
        Envelope {
            divider: e.data & VOLUME_MASK,
            decay_level: if e.decay_level > 0 {
                (e.decay_level - 1) as u8
            } else if e.data & ENVELOPE_COUNTER_HALT_MASK != 0 {
                DECAY_LEVEL_LOAD
            } else {
                0u8
            },
            ..e
        }
    }
}

impl Envelope {
    /// The decay level never leaves the hardware's 4-bit range.
    pub open spec fn wf(&self) -> bool {
        self.decay_level <= 15
    }

    pub fn new() -> (r: Self)
        ensures
            r.wf(),
            r.data == 0,
            !r.start_flag,
            r.decay_level == 0,
            r.divider == 0,
    {
        Envelope { data: 0, start_flag: false, decay_level: 0, divider: 0 }
    }

    /// Flags the envelope to reload on its next quarter-frame tick.
    pub fn restart(&mut self)
        ensures
            final(self).start_flag,
            final(self).data == old(self).data,
            final(self).decay_level == old(self).decay_level,
            final(self).divider == old(self).divider,
    {
        self.start_flag = true;
    }

    pub fn output_volume(&self) -> (r: u8)
        ensures
            r == spec_envelope_volume(*self),
    {
        if self.data & CONSTANT_VOLUME_MASK != 0 {
            self.data & VOLUME_MASK
        } else {
            self.decay_level
        }
    }

    /// Register write: replaces the `mask` bits of the byte.
    pub fn write(&mut self, mask: u8, val: u8)
        ensures
            final(self).data == (old(self).data & !mask) | (val & mask),
            final(self).start_flag == old(self).start_flag,
            final(self).decay_level == old(self).decay_level,
            final(self).divider == old(self).divider,
    {
        self.data = (self.data & !mask) | (val & mask);
    }

    /// Quarter-frame tick: a restart reloads the decay level and divider;
    /// otherwise the divider counts down and, on expiry, the decay level
    /// steps down, looping when the halt bit is set.
    pub fn tick(&mut self)
        ensures
            *final(self) == spec_envelope_tick(*old(self)),
            old(self).wf() ==> final(self).wf(),
            final(self).data == old(self).data,
            old(self).start_flag ==> {
                &&& !final(self).start_flag
                &&& final(self).decay_level == DECAY_LEVEL_LOAD
                &&& final(self).divider == old(self).data & VOLUME_MASK
            },
            !old(self).start_flag && old(self).divider > 0 ==> {
                &&& final(self).divider == old(self).divider - 1
                &&& final(self).decay_level == old(self).decay_level
                &&& !final(self).start_flag
            },
            !old(self).start_flag && old(self).divider == 0 ==> {
                &&& final(self).divider == old(self).data & VOLUME_MASK
                &&& final(self).decay_level == if old(self).decay_level > 0 {
                    (old(self).decay_level - 1) as u8
                } else if old(self).data & ENVELOPE_COUNTER_HALT_MASK != 0 {
                    DECAY_LEVEL_LOAD
                } else {
                    0u8
                }
                &&& !final(self).start_flag
            },
    {
        if self.start_flag {
            self.start_flag = false;
            self.decay_level = DECAY_LEVEL_LOAD;
            self.divider = self.data & VOLUME_MASK;
        } else if self.divider > 0 {
            self.divider -= 1;
        } else {
            self.divider = self.data & VOLUME_MASK;

            if self.decay_level > 0 {
                self.decay_level -= 1;
            } else if self.data & ENVELOPE_COUNTER_HALT_MASK != 0 {
                self.decay_level = DECAY_LEVEL_LOAD;
            }
        }
    }
}

impl Reg for Envelope {
    open spec fn spec_data(&self) -> u8 {
        self.data
    }

    fn data(&self) -> u8 {
        self.data
    }
}

} // verus!
