use vstd::prelude::*;

use crate::apu::APU;
use crate::dma::DMA;
use crate::ines::program_rom::ProgramROM;
use crate::pad::Pad;
use crate::ppu::registers::Registers;
use crate::ppu::PPU;
use crate::ram::RAM;

verus! {

pub type BusAddr = u16;

/// A device the bus can read a byte from.
///
/// `read_model` is the device's own statement of what a read returns; the
/// executable `read_byte` is held to it. Reads are total: every offset
/// returns a byte.
pub trait ByteReadable {
    spec fn read_model(&self, addr: BusAddr) -> u8;

    fn read_byte(&self, addr: BusAddr) -> (r: u8)
        ensures
            r == self.read_model(addr),
    ;
}

/// A device the bus can write a byte to.
///
/// `write_model` relates the device state before and after the write; for a
/// read-only or stub device it states that nothing changed. Writes are
/// total: no offset is rejected.
pub trait ByteWritable {
    spec fn write_model(&self, post: &Self, addr: BusAddr, value: u8) -> bool;

    fn write_byte(&mut self, addr: BusAddr, value: u8)
        ensures
            old(self).write_model(final(self), addr, value),
    ;
}

/// The observable state behind the bus: the 2KB work RAM, the flat program
/// ROM image, and the PPU register file. The APU, pad, and DMA devices are
/// stateless stubs and contribute nothing.
#[verifier::ext_equal]
pub ghost struct BusModel {
    pub ram: Seq<u8>,
    pub rom: Seq<u8>,
    pub ppu: Registers,
}

/// What a PPU register read returns for a local offset already reduced
/// modulo 8: only the status, OAM data, and PPU data registers are readable;
/// the write-only registers read as zero.
pub open spec fn spec_ppu_read(regs: Registers, addr: BusAddr) -> u8 {
    if addr == 0x0002 {
        regs.ppu_status
    } else if addr == 0x0004 {
        regs.oam_data
    } else if addr == 0x0007 {
        regs.ppu_data
    } else {
        0
    }
}

/// What a PPU register write leaves behind for a local offset already
/// reduced modulo 8: the status register is read-only, so a write to it is
/// a no-op.
pub open spec fn spec_ppu_write(regs: Registers, addr: BusAddr, value: u8) -> Registers {
    if addr == 0x0000 {
        Registers { ppu_ctrl: value, ..regs }
    } else if addr == 0x0001 {
        Registers { ppu_mask: value, ..regs }
    } else if addr == 0x0003 {
        Registers { oam_addr: value, ..regs }
    } else if addr == 0x0004 {
        Registers { oam_data: value, ..regs }
    } else if addr == 0x0005 {
        Registers { ppu_scroll: value, ..regs }
    } else if addr == 0x0006 {
        Registers { ppu_addr: value, ..regs }
    } else if addr == 0x0007 {
        Registers { ppu_data: value, ..regs }
    } else {
        regs
    }
}

/// The program-ROM offset a bus address `0x8000..=0xFFFF` is rebased to:
/// an image of at most 16KB makes `0xC000..=0xFFFF` mirror the single bank
/// at `0x8000..=0xBFFF`.
pub open spec fn spec_rom_offset(rom_len: nat, addr: BusAddr) -> BusAddr {
    if addr >= 0xC000 && rom_len <= 0x4000 {
        (addr - 0xC000) as BusAddr
    } else {
        (addr - 0x8000) as BusAddr
    }
}

/// What a read of a flat byte array returns: the byte at the offset, or
/// zero past the end.
pub open spec fn spec_flat_read(data: Seq<u8>, addr: BusAddr) -> u8 {
    if addr < data.len() {
        data[addr as int]
    } else {
        0
    }
}

/// The address-space decode for reads. Every 16-bit address resolves to
/// exactly one arm:
/// - `0x0000..=0x1FFF`: work RAM, mirrored every `0x800` bytes;
/// - `0x2000..=0x3FFF`: PPU registers, mirrored every 8 bytes;
/// - `0x4016`: the pad (a stub that reads as zero);
/// - `0x8000..=0xFFFF`: program ROM, with the 16KB bank mirror;
/// - everything else reads as zero.
pub open spec fn spec_bus_read(m: BusModel, addr: BusAddr) -> u8 {
    if addr < 0x2000 {
        spec_flat_read(m.ram, (addr % 0x800) as BusAddr)
    } else if addr < 0x4000 {
        spec_ppu_read(m.ppu, (addr % 8) as BusAddr)
    } else if addr == 0x4016 {
        0
    } else if addr >= 0x8000 {
        spec_flat_read(m.rom, spec_rom_offset(m.rom.len(), addr))
    } else {
        0
    }
}

/// The address-space decode for writes:
/// - `0x0000..=0x1FFF`: work RAM, mirrored every `0x800` bytes;
/// - `0x2000..=0x3FFF`: PPU registers, mirrored every 8 bytes;
/// - `0x4014`, `0x4016`, and the rest of `0x4000..=0x401F` route to the
///   DMA, pad, and APU stubs, which hold no state;
/// - everything else, the read-only ROM included, discards the write.
pub open spec fn spec_bus_write(m: BusModel, addr: BusAddr, value: u8) -> BusModel {
    if addr < 0x2000 {
        if addr % 0x800 < m.ram.len() {
            BusModel { ram: m.ram.update(addr as int % 0x800, value), ..m }
        } else {
            m
        }
    } else if addr < 0x4000 {
        BusModel { ppu: spec_ppu_write(m.ppu, (addr % 8) as BusAddr, value), ..m }
    } else {
        m
    }
}

/// The address-bus dispatcher. It exclusively owns every backing device and
/// holds the only routing logic: devices receive offsets already rebased by
/// the mirroring rules and know nothing of each other.
pub struct Bus {
    wram: RAM,
    program_rom: ProgramROM,
    ppu: PPU,
    apu: APU,
    pad: Pad,
    dma: DMA,
}

impl View for Bus {
    type V = BusModel;

    closed spec fn view(&self) -> BusModel {
        BusModel { ram: self.wram@, rom: self.program_rom@, ppu: self.ppu@ }
    }
}

impl Bus {
    pub fn new(wram: RAM, program_rom: ProgramROM, ppu: PPU, apu: APU, pad: Pad, dma: DMA) -> (r:
        Bus)
        ensures
            r@ == (BusModel { ram: wram@, rom: program_rom@, ppu: ppu@ }),
    {
        Bus { wram, program_rom, ppu, apu, pad, dma }
    }
}

impl ByteReadable for Bus {
    open spec fn read_model(&self, addr: BusAddr) -> u8 {
        spec_bus_read(self@, addr)
    }

    fn read_byte(&self, addr: BusAddr) -> (r: u8)
        ensures
            r == spec_bus_read(self@, addr),
    {
        if addr < 0x800 {
            self.wram.read_byte(addr)
        } else if addr < 0x2000 {
            self.wram.read_byte(addr % 0x800)
        } else if addr < 0x4000 {
            self.ppu.read_byte(addr % 8)
        } else if addr == 0x4016 {
            self.pad.read_byte(addr)
        } else if addr >= 0xC000 {
            if self.program_rom.len() <= 0x4000 {
                self.program_rom.read_byte(addr - 0xC000)
            } else {
                self.program_rom.read_byte(addr - 0x8000)
            }
        } else if addr >= 0x8000 {
            self.program_rom.read_byte(addr - 0x8000)
        } else {
            0
        }
    }
}

impl ByteWritable for Bus {
    open spec fn write_model(&self, post: &Self, addr: BusAddr, value: u8) -> bool {
        post@ == spec_bus_write(self@, addr, value)
    }

    fn write_byte(&mut self, addr: BusAddr, value: u8)
        ensures
            final(self)@ == spec_bus_write(old(self)@, addr, value),
    {
        if addr < 0x800 {
            self.wram.write_byte(addr, value);
        } else if addr < 0x2000 {
            self.wram.write_byte(addr % 0x800, value);
        } else if addr < 0x4000 {
            self.ppu.write_byte(addr % 8, value);
        } else if addr == 0x4014 {
            self.dma.write_byte(addr, value);
        } else if addr == 0x4016 {
            self.pad.write_byte(addr, value);
        } else if addr < 0x4020 && addr >= 0x4000 {
            self.apu.write_byte(addr, value);
        } else {
            // Writes to the ROM range and to unmapped space are discarded.
        }
        proof {
            assert(final(self)@ =~= spec_bus_write(old(self)@, addr, value));
        }
    }
}

/// Work-RAM mirroring: every address below `0x2000` reads the same byte as
/// its image in the base 2KB window.
pub proof fn lemma_ram_read_mirror(m: BusModel, addr: BusAddr)
    requires
        addr < 0x2000,
    ensures
        spec_bus_read(m, addr) == spec_bus_read(m, (addr % 0x800) as BusAddr),
{
}

/// Work-RAM mirroring for writes: a write below `0x2000` leaves the same
/// state behind as the write to its image in the base 2KB window.
pub proof fn lemma_ram_write_mirror(m: BusModel, addr: BusAddr, value: u8)
    requires
        addr < 0x2000,
    ensures
        spec_bus_write(m, addr, value) == spec_bus_write(m, (addr % 0x800) as BusAddr, value),
{
    assert(spec_bus_write(m, addr, value) =~= spec_bus_write(
        m,
        (addr % 0x800) as BusAddr,
        value,
    ));
}

/// PPU register mirroring: every address in `0x2000..=0x3FFF` reads the same
/// register as its image in `0x2000..=0x2007`.
pub proof fn lemma_ppu_read_mirror(m: BusModel, addr: BusAddr)
    requires
        0x2000 <= addr < 0x4000,
    ensures
        spec_bus_read(m, addr) == spec_bus_read(m, (0x2000 + (addr % 8)) as BusAddr),
{
}

/// PPU register mirroring for writes.
pub proof fn lemma_ppu_write_mirror(m: BusModel, addr: BusAddr, value: u8)
    requires
        0x2000 <= addr < 0x4000,
    ensures
        spec_bus_write(m, addr, value) == spec_bus_write(
            m,
            (0x2000 + (addr % 8)) as BusAddr,
            value,
        ),
{
    assert(spec_bus_write(m, addr, value) =~= spec_bus_write(
        m,
        (0x2000 + (addr % 8)) as BusAddr,
        value,
    ));
}

/// Program-ROM bank mirroring: with an image of at most 16KB, every read at
/// `0xC000` and above returns the byte read one bank lower, so `0xC000 + k`
/// and `0x8000 + k` agree for every `k`.
pub proof fn lemma_rom_bank_mirror(m: BusModel, addr: BusAddr)
    requires
        m.rom.len() <= 0x4000,
        0xC000 <= addr,
    ensures
        spec_bus_read(m, addr) == spec_bus_read(m, (addr - 0x4000) as BusAddr),
{
}

} // verus!
