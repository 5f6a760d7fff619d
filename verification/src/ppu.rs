use vstd::prelude::*;

use crate::bus::{BusAddr, ByteReadable, ByteWritable};

pub mod registers;

use registers::Registers;

verus! {

/// The picture-processing unit. Only its memory-mapped register file is
/// modeled here; the rendering pipeline is outside this core.
pub struct PPU {
    registers: Registers,
}

impl View for PPU {
    type V = Registers;

    closed spec fn view(&self) -> Registers {
        self.registers
    }
}

impl PPU {
    pub fn new() -> (r: Self)
        ensures
            r@ == Registers::spec_initial(),
    {
        Self { registers: Registers::new() }
    }
}

impl ByteReadable for PPU {
    open spec fn read_model(&self, addr: BusAddr) -> u8 {
        crate::bus::spec_ppu_read(self@, addr)
    }

    /// Reads a register by its local offset, already reduced modulo 8 by the
    /// bus; the write-only registers read as zero.
    fn read_byte(&self, addr: BusAddr) -> (r: u8)
        ensures
            r == self.read_model(addr),
    {
        if addr == 0x0002 {
            self.registers.ppu_status
        } else if addr == 0x0004 {
            self.registers.oam_data
        } else if addr == 0x0007 {
            self.registers.ppu_data
        } else {
            0
        }
    }
}

impl ByteWritable for PPU {
    open spec fn write_model(&self, post: &Self, addr: BusAddr, value: u8) -> bool {
        post@ == crate::bus::spec_ppu_write(self@, addr, value)
    }

    /// Writes a register by its local offset, already reduced modulo 8 by
    /// the bus; a write to the read-only status register is discarded.
    fn write_byte(&mut self, addr: BusAddr, value: u8)
        ensures
            old(self).write_model(final(self), addr, value),
    {
        if addr == 0x0000 {
            self.registers.ppu_ctrl = value;
        } else if addr == 0x0001 {
            self.registers.ppu_mask = value;
        } else if addr == 0x0003 {
            self.registers.oam_addr = value;
        } else if addr == 0x0004 {
            self.registers.oam_data = value;
        } else if addr == 0x0005 {
            self.registers.ppu_scroll = value;
        } else if addr == 0x0006 {
            self.registers.ppu_addr = value;
        } else if addr == 0x0007 {
            self.registers.ppu_data = value;
        }
    }
}

} // verus!
