use nes::bus::{ByteReadable, ByteWritable};
use nes::cpu::CpuError;
use nes::{APU, Bus, CPU, DMA, Pad, PPU, RAM};
use nes::ines::program_rom::ProgramROM;

fn bus_with_rom(rom: Vec<u8>) -> Bus {
    Bus::new(
        RAM::new(),
        ProgramROM::new(&rom),
        PPU::new(),
        APU::new(),
        Pad::new(),
        DMA::new(),
    )
}

#[test]
fn ram_is_mirrored_every_two_kilobytes() {
    // Writing 0xAB at 0x0000 is visible at 0x0800 and the other mirrors.
    let mut bus = bus_with_rom(Vec::new());
    bus.write_byte(0x0000, 0xAB);
    assert_eq!(bus.read_byte(0x0000), 0xAB);
    assert_eq!(bus.read_byte(0x0800), 0xAB);
    assert_eq!(bus.read_byte(0x1000), 0xAB);
    assert_eq!(bus.read_byte(0x1800), 0xAB);
    // Writing through a mirror lands in the same backing store.
    bus.write_byte(0x1FFF, 0x5A);
    assert_eq!(bus.read_byte(0x07FF), 0x5A);
    assert_eq!(bus.read_byte(0x0FFF), 0x5A);
}

#[test]
fn ppu_registers_are_mirrored_every_eight_bytes() {
    // 0x2002 and 0x200A route to the same status-register storage.
    let bus = bus_with_rom(Vec::new());
    assert_eq!(bus.read_byte(0x2002), bus.read_byte(0x200A));
    assert_eq!(bus.read_byte(0x2002), bus.read_byte(0x3FFA));

    // A write through a mirror of OAM data is readable at the base offset.
    let mut bus = bus_with_rom(Vec::new());
    bus.write_byte(0x200C, 0x77);
    assert_eq!(bus.read_byte(0x2004), 0x77);
    assert_eq!(bus.read_byte(0x200C), 0x77);
}

#[test]
fn sixteen_kilobyte_rom_bank_is_mirrored() {
    // A program image of exactly 16KB makes 0xC000 + k read the same byte
    // as 0x8000 + k for every offset.
    let mut rom = vec![0u8; 0x4000];
    for (i, b) in rom.iter_mut().enumerate() {
        *b = (i % 251) as u8;
    }
    let bus = bus_with_rom(rom);
    for k in [0x0000u16, 0x0001, 0x1234, 0x3FFE, 0x3FFF] {
        assert_eq!(bus.read_byte(0x8000 + k), bus.read_byte(0xC000 + k));
    }
}

#[test]
fn thirty_two_kilobyte_rom_is_not_mirrored() {
    let mut rom = vec![0u8; 0x8000];
    rom[0x0000] = 0x11;
    rom[0x4000] = 0x22;
    let bus = bus_with_rom(rom);
    assert_eq!(bus.read_byte(0x8000), 0x11);
    assert_eq!(bus.read_byte(0xC000), 0x22);
}

#[test]
fn unmapped_regions_read_zero_and_discard_writes() {
    let mut bus = bus_with_rom(Vec::new());
    assert_eq!(bus.read_byte(0x5000), 0x00);
    assert_eq!(bus.read_byte(0x4016), 0x00);
    bus.write_byte(0x5000, 0xFF);
    assert_eq!(bus.read_byte(0x5000), 0x00);
    // Writes routed to the stub devices are accepted and discarded.
    bus.write_byte(0x4014, 0xFF);
    bus.write_byte(0x4016, 0xFF);
    bus.write_byte(0x4000, 0xFF);
    // A write into the ROM range is a documented no-op.
    bus.write_byte(0x8000, 0xFF);
    assert_eq!(bus.read_byte(0x8000), 0x00);
}

#[test]
fn reset_loads_pc_from_reset_vector() {
    // reset() followed by reading pc returns exactly the little-endian
    // value stored at 0xFFFC/0xFFFD.
    let mut rom = vec![0u8; 0x4000];
    rom[0x3FFC] = 0xCD;
    rom[0x3FFD] = 0xAB;
    let mut cpu = CPU::new(bus_with_rom(rom));
    cpu.registers.a = 0x33;
    cpu.reset();
    assert_eq!(cpu.registers.pc, 0xABCD);
    assert_eq!(cpu.registers.a, 0x00);
    assert!(cpu.registers.p.reserved());
    assert!(!cpu.registers.p.carry());
}

#[test]
fn boot_matches_reset() {
    let mut rom = vec![0u8; 0x4000];
    rom[0x3FFC] = 0x00;
    rom[0x3FFD] = 0x80;
    let mut cpu = CPU::new(bus_with_rom(rom));
    cpu.boot();
    assert_eq!(cpu.registers.pc, 0x8000);
}

#[test]
fn interrupt_vectors_are_little_endian() {
    let mut rom = vec![0u8; 0x4000];
    rom[0x3FFA] = 0x01;
    rom[0x3FFB] = 0x90;
    rom[0x3FFC] = 0x02;
    rom[0x3FFD] = 0x91;
    rom[0x3FFE] = 0x03;
    rom[0x3FFF] = 0x92;
    let cpu = CPU::new(bus_with_rom(rom));
    assert_eq!(cpu.nmi_interrupt_pc(), 0x9001);
    assert_eq!(cpu.reset_interrupt_pc(), 0x9102);
    assert_eq!(cpu.irq_interrupt_pc(), 0x9203);
    assert_eq!(cpu.brk_interrupt_pc(), 0x9203);
    assert_eq!(cpu.read_interrupt_pc(0xFFFA, 0xFFFB), 0x9001);
}

#[test]
fn end_to_end_lda_immediate_program() {
    // A 3-byte program A9 05 00 (LDA #$05, BRK) at the reset vector target:
    // one step leaves A == 0x05 with zero and negative clear.
    let mut rom = vec![0u8; 0x4000];
    rom[0x0000] = 0xA9;
    rom[0x0001] = 0x05;
    rom[0x0002] = 0x00;
    rom[0x3FFC] = 0x00;
    rom[0x3FFD] = 0x80;
    let mut cpu = CPU::new(bus_with_rom(rom));
    cpu.boot();
    assert_eq!(cpu.registers.pc, 0x8000);
    assert!(cpu.run_single_cycle().is_ok());
    assert_eq!(cpu.registers.a, 0x05);
    assert!(!cpu.registers.p.zero());
    assert!(!cpu.registers.p.negative());
    assert_eq!(cpu.registers.pc, 0x8002);
    // The next byte is BRK, which the engine does not implement yet.
    assert_eq!(
        cpu.run_single_cycle(),
        Err(CpuError::UnimplementedInstruction {
            instruction_type: nes::cpu::instruction::InstructionType::BRK
        })
    );
}

#[test]
fn decode_failure_reports_byte_and_address() {
    let mut cpu = CPU::new(bus_with_rom(Vec::new()));
    cpu.bus.write_byte(0x0040, 0x02);
    cpu.registers.pc = 0x0040;
    let r = cpu.run_single_cycle();
    assert_eq!(
        r,
        Err(CpuError::DecodeFailure {
            opcode: 0x02,
            addr: 0x0040
        })
    );
    // The opcode byte was consumed; the driver decides what happens next.
    assert_eq!(cpu.registers.pc, 0x0041);
}

#[test]
fn step_program_in_ram() {
    // SEC; INX; BCS +2 — three instructions stepped out of work RAM.
    let mut cpu = CPU::new(bus_with_rom(Vec::new()));
    let program: [u8; 4] = [0x38, 0xE8, 0xB0, 0x02];
    for (i, b) in program.iter().enumerate() {
        cpu.bus.write_byte(i as u16, *b);
    }
    cpu.registers.pc = 0x0000;
    assert!(cpu.run_single_cycle().is_ok());
    assert!(cpu.registers.p.carry());
    assert!(cpu.run_single_cycle().is_ok());
    assert_eq!(cpu.registers.x, 0x01);
    assert!(cpu.run_single_cycle().is_ok());
    // The branch was taken: pc = 0x0004 + 2.
    assert_eq!(cpu.registers.pc, 0x0006);
}
