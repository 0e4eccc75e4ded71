//! Frame sequencer: divides the CPU clock into quarter-frame and half-frame
//! events, in a 4-step or 5-step pattern.

use vstd::prelude::*;

use crate::apu::regs::Reg;

verus! {

pub const MODE_MASK: u8 = 0x80;
pub const IRQ_INHIBIT_MASK: u8 = 0x40;

/// CPU cycles per sequencer step.
pub const APU_STEP: u32 = 7457;

/// What a sequencer step asks the channels to do.
#[derive(Debug, Clone, Copy, PartialEq, Eq, Structural)]
pub enum FrameAction {
    Idle,
    QuarterFrame,
    HalfFrame,
}

/// The sequencer: its register byte, the cycle divider, the step index and
/// the frame-interrupt flag.
pub struct FrameCounter {
    pub data: u8,
    pub cycle_count: u32,
    pub step_index: u8,
    pub irq_flag: bool,
}

/// The event the sequencer yields on reaching `step` in the mode selected by
/// bit 7 of `data`: 4-step mode fires quarter, half, quarter, half (with an
/// interrupt at the end when bit 6 is clear); 5-step mode fires quarter,
/// half, quarter, nothing, half and never interrupts.
pub open spec fn spec_frame_action(data: u8, step: u8) -> FrameAction {
    let five_step = data & MODE_MASK != 0;
    if step == 1 || step == 3 {
        FrameAction::QuarterFrame
    } else if step == 2 {
        FrameAction::HalfFrame
    } else if step == 4 && !five_step {
        FrameAction::HalfFrame
    } else if step == 5 && five_step {
        FrameAction::HalfFrame
    } else {
        FrameAction::Idle
    }
}

impl FrameCounter {
    pub fn new() -> (r: Self)
        ensures
            r.data == 0,
            r.cycle_count == 0,
            r.step_index == 0,
            !r.irq_flag,
    {
        FrameCounter { data: 0, cycle_count: 0, step_index: 0, irq_flag: false }
    }

    /// One CPU cycle: counts the divider up and, every `APU_STEP` cycles,
    /// advances the step index and yields its event; the end of the 4-step
    /// pattern raises the frame interrupt unless bit 6 inhibits it.
    pub fn step(&mut self) -> (r: FrameAction)
        requires
            old(self).cycle_count < APU_STEP,
            old(self).step_index <= 5,
        ensures
            final(self).data == old(self).data,
            final(self).cycle_count < APU_STEP,
            final(self).step_index <= 5,
            old(self).cycle_count + 1 < APU_STEP ==> {
                &&& r == FrameAction::Idle
                &&& final(self).cycle_count == old(self).cycle_count + 1
                &&& final(self).step_index == old(self).step_index
                &&& final(self).irq_flag == old(self).irq_flag
            },
            old(self).cycle_count + 1 == APU_STEP ==> {
                &&& r == spec_frame_action(old(self).data, (old(self).step_index + 1) as u8)
                &&& final(self).cycle_count == 0
                &&& final(self).irq_flag == (old(self).irq_flag || (old(self).step_index + 1 == 4
                    && old(self).data & MODE_MASK == 0 && old(self).data & IRQ_INHIBIT_MASK == 0))
            },
    {
        self.cycle_count += 1;
        let mut res = FrameAction::Idle;

        if self.cycle_count >= APU_STEP {
            self.cycle_count = 0;
            self.step_index += 1;

            let five_step = (self.data & MODE_MASK) != 0;

            res = if self.step_index == 1 || self.step_index == 3 {
                FrameAction::QuarterFrame
            } else if self.step_index == 2 {
                FrameAction::HalfFrame
            } else if self.step_index == 4 && !five_step {
                if self.data & IRQ_INHIBIT_MASK == 0 {
                    self.irq_flag = true;
                }
                self.step_index = 0;
                FrameAction::HalfFrame
            } else if self.step_index == 5 && five_step {
                self.step_index = 0;
                FrameAction::HalfFrame
            } else {
                if self.step_index >= 5 {
                    self.step_index = 0;
                }
                FrameAction::Idle
            };
        }

        res
    }

    /// Register write: replaces the `mask` bits and restarts the sequence.
    pub fn write(&mut self, mask: u8, val: u8)
        ensures
            final(self).data == (old(self).data & !mask) | (val & mask),
            final(self).cycle_count == 0,
            final(self).step_index == 0,
            final(self).irq_flag == old(self).irq_flag,
    {
        self.data = (self.data & !mask) | (val & mask);
        self.cycle_count = 0;
        self.step_index = 0;
    }

    pub fn irq_pending(&self) -> (r: bool)
        ensures
            r == self.irq_flag,
    {
        self.irq_flag
    }

    pub fn clear_irq(&mut self)
        ensures
            !final(self).irq_flag,
            final(self).data == old(self).data,
            final(self).cycle_count == old(self).cycle_count,
            final(self).step_index == old(self).step_index,
    {
        self.irq_flag = false;
    }
}

impl Reg for FrameCounter {
    open spec fn spec_data(&self) -> u8 {
        self.data
    }

    fn data(&self) -> u8 {
        self.data
    }
}

} // verus!
