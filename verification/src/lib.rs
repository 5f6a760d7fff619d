//! Instruction-execution core of a 6502-family CPU wired to a memory-mapped
//! address bus, as used by a home-console hardware emulator.
//!
//! The CPU fetches an opcode byte through the bus, decodes it against the
//! canonical opcode table, resolves the operand per addressing mode, and
//! executes the instruction, updating registers, flags, and memory.

pub mod apu;
pub mod bus;
pub mod cpu;
pub mod dma;
pub mod ines;
pub mod pad;
pub mod ppu;
pub mod ram;

pub use apu::APU;
pub use bus::Bus;
pub use cpu::CPU;
pub use dma::DMA;
pub use ines::iNES;
pub use pad::Pad;
pub use ppu::PPU;
pub use ram::RAM;
