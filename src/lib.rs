//! Core of a cycle-driven NES emulator: the 6502 CPU, the PPU, the APU, the
//! memory bus, the cartridge mappers and the standard controller.

pub mod controller;
pub mod mapper;
pub mod cartridge;
pub mod ppu;
pub mod apu;
pub mod bus;
pub mod flags;
pub mod cpu;
pub mod nes;
