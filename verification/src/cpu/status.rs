//! CPU status register: one byte carrying the seven processor flags.

use vstd::prelude::*;

verus! {

pub const CARRY_FLAG: u8 = 0x01;
pub const ZERO_FLAG: u8 = 0x02;
pub const INTERRUPT_DISABLE: u8 = 0x04;
pub const DECIMAL_MODE: u8 = 0x08;
pub const BREAK_COMMAND: u8 = 0x10;
pub const ONE_FLAG: u8 = 0x20;
pub const OVERFLOW_FLAG: u8 = 0x40;
pub const NEGATIVE_FLAG: u8 = 0x80;

/// The processor status byte.
pub struct StatusReg {
    pub status: u8,
}

impl StatusReg {
    pub fn new() -> (r: Self)
        ensures
            r.status == 0,
    {
        StatusReg { status: 0 }
    }

    /// The bits of `flag` that are set in the status byte.
    pub fn get_flag(&self, flag: u8) -> (r: u8)
        ensures
            r == self.status & flag,
    {
        self.status & flag
    }

    pub fn set_flag(&mut self, flag: u8)
        ensures
            final(self).status == old(self).status | flag,
    {
        self.status |= flag;
    }

    pub fn unset_flag(&mut self, flag: u8)
        ensures
            final(self).status == old(self).status & !flag,
    {
        self.status &= !flag;
    }
}

/// What PHP pushes: the status byte with the break-command and the
/// always-one bit forced on.
pub open spec fn spec_php_pushed(s: u8) -> u8 {
    s | BREAK_COMMAND | ONE_FLAG
}

/// What PLP leaves in the register after popping `v`: the always-one bit is
/// forced on and the break-command bit is forced off.
pub open spec fn spec_plp_applied(v: u8) -> u8 {
    (v | ONE_FLAG) & !BREAK_COMMAND
}

/// Pushing the status with PHP and popping it back with PLP returns the same
/// status byte except for bit 4 (break-command, forced off) and bit 5
/// (always-one, forced on), which are deterministic.
pub proof fn lemma_php_plp_round_trip(s: u8)
    ensures
        spec_plp_applied(spec_php_pushed(s)) & 0xCF == s & 0xCF,
        spec_plp_applied(spec_php_pushed(s)) & BREAK_COMMAND == 0,
        spec_plp_applied(spec_php_pushed(s)) & ONE_FLAG == ONE_FLAG,
{
    assert((((s | 0x10u8 | 0x20u8) | 0x20u8) & !0x10u8) & 0xCFu8 == s & 0xCFu8 && (((s | 0x10u8
        | 0x20u8) | 0x20u8) & !0x10u8) & 0x10u8 == 0u8 && (((s | 0x10u8 | 0x20u8) | 0x20u8)
        & !0x10u8) & 0x20u8 == 0x20u8) by (bit_vector);
}

} // verus!
