//! The APU's per-channel registers.

use vstd::prelude::*;

pub mod envelope;
pub mod frame_counter;
pub mod frequency;
pub mod length_counter;
pub mod linear_counter;
pub mod linear_feedback;
pub mod load_counter;
pub mod status;
pub mod sweep;
pub mod timer;

verus! {

/// A register backed by one byte.
pub trait Reg {
    /// The byte the register holds.
    spec fn spec_data(&self) -> u8;

    /// Reads the raw byte.
    fn data(&self) -> (r: u8)
        ensures
            r == self.spec_data(),
    ;
}

} // verus!
