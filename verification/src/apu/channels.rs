//! The APU's sound channels.

pub mod dmc;
pub mod noise;
pub mod pulse;
pub mod triangle;
