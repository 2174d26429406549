//! Core of an 8-bit console emulator: a 6502-family CPU whose every
//! instruction is specified against an abstract memory, the memories it runs
//! on, and the picture unit, controller and cartridge around it.

pub mod bus;
pub mod controller;
pub mod cpu;
pub mod memory;
pub mod ppu;
pub mod rom;
