//! Core of a cycle-accurate emulator for the 8-bit console built around a
//! 6502-family CPU, a picture-processing unit (PPU), an audio-processing
//! unit (APU), a cartridge container parser and a controller port, all
//! synchronized through a shared bus.

pub mod apu;
pub mod bits;
pub mod bus;
pub mod cpu;
pub mod joypad;
pub mod ppu;
pub mod rom;
