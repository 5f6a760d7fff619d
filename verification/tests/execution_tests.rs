use nes::bus::{ByteReadable, ByteWritable};
use nes::cpu::instruction::{AddressingMode, InstructionType, OpCode, Operand};
use nes::cpu::CpuError;
use nes::{APU, Bus, CPU, DMA, Pad, PPU, RAM};
use nes::ines::program_rom::ProgramROM;

fn fresh_cpu() -> CPU {
    let bus = Bus::new(
        RAM::new(),
        ProgramROM::new(&[]),
        PPU::new(),
        APU::new(),
        Pad::new(),
        DMA::new(),
    );
    CPU::new(bus)
}

fn imm(kind: InstructionType) -> OpCode {
    OpCode::new(kind, AddressingMode::Immediate)
}

fn implied(kind: InstructionType) -> OpCode {
    OpCode::new(kind, AddressingMode::Implied)
}

#[test]
fn lda_immediate_sets_flags_independently() {
    let mut cpu = fresh_cpu();
    let r = cpu.execute(imm(InstructionType::LDA), Some(Operand::Immediate(0x00)));
    assert!(r.is_ok());
    assert_eq!(cpu.registers.a, 0x00);
    assert!(cpu.registers.p.zero());
    assert!(!cpu.registers.p.negative());

    let r = cpu.execute(imm(InstructionType::LDA), Some(Operand::Immediate(0x80)));
    assert!(r.is_ok());
    assert_eq!(cpu.registers.a, 0x80);
    assert!(!cpu.registers.p.zero());
    assert!(cpu.registers.p.negative());
}

#[test]
fn lda_from_memory() {
    let mut cpu = fresh_cpu();
    cpu.bus.write_byte(0x0042, 0x37);
    let op = OpCode::new(InstructionType::LDA, AddressingMode::ZeroPage);
    let r = cpu.execute(op, Some(Operand::Address(0x0042)));
    assert!(r.is_ok());
    assert_eq!(cpu.registers.a, 0x37);
    assert!(!cpu.registers.p.zero());
    assert!(!cpu.registers.p.negative());
}

#[test]
fn ldx_and_ldy_immediate() {
    let mut cpu = fresh_cpu();
    assert!(cpu
        .execute(imm(InstructionType::LDX), Some(Operand::Immediate(0xFF)))
        .is_ok());
    assert_eq!(cpu.registers.x, 0xFF);
    assert!(cpu.registers.p.negative());
    assert!(cpu
        .execute(imm(InstructionType::LDY), Some(Operand::Immediate(0x00)))
        .is_ok());
    assert_eq!(cpu.registers.y, 0x00);
    assert!(cpu.registers.p.zero());
}

#[test]
fn stores_write_memory_and_touch_no_flags() {
    let mut cpu = fresh_cpu();
    cpu.registers.a = 0x11;
    cpu.registers.x = 0x22;
    cpu.registers.y = 0x33;
    let sta = OpCode::new(InstructionType::STA, AddressingMode::Absolute);
    let stx = OpCode::new(InstructionType::STX, AddressingMode::Absolute);
    let sty = OpCode::new(InstructionType::STY, AddressingMode::Absolute);
    assert!(cpu.execute(sta, Some(Operand::Address(0x0100))).is_ok());
    assert!(cpu.execute(stx, Some(Operand::Address(0x0101))).is_ok());
    assert!(cpu.execute(sty, Some(Operand::Address(0x0102))).is_ok());
    assert_eq!(cpu.bus.read_byte(0x0100), 0x11);
    assert_eq!(cpu.bus.read_byte(0x0101), 0x22);
    assert_eq!(cpu.bus.read_byte(0x0102), 0x33);
    assert!(!cpu.registers.p.zero());
    assert!(!cpu.registers.p.negative());
}

#[test]
fn flag_control_instructions() {
    let mut cpu = fresh_cpu();
    assert!(cpu.execute(implied(InstructionType::SEC), None).is_ok());
    assert!(cpu.registers.p.carry());
    assert!(cpu.execute(implied(InstructionType::CLC), None).is_ok());
    assert!(!cpu.registers.p.carry());
    assert!(cpu.execute(implied(InstructionType::SEI), None).is_ok());
    assert!(cpu.registers.p.irq_disable());
    assert!(cpu.execute(implied(InstructionType::CLI), None).is_ok());
    assert!(!cpu.registers.p.irq_disable());
    assert!(cpu.execute(implied(InstructionType::SED), None).is_ok());
    assert!(cpu.registers.p.decimal_mode());
    assert!(cpu.execute(implied(InstructionType::CLD), None).is_ok());
    assert!(!cpu.registers.p.decimal_mode());
    cpu.registers.p.set_overflow(true);
    assert!(cpu.execute(implied(InstructionType::CLV), None).is_ok());
    assert!(!cpu.registers.p.overflow());
}

#[test]
fn branch_taken_and_not_taken() {
    let mut cpu = fresh_cpu();
    cpu.registers.pc = 0x0300;
    let beq = OpCode::new(InstructionType::BEQ, AddressingMode::Relative);
    // Zero flag clear: not taken, the program counter stays put.
    assert!(cpu.execute(beq, Some(Operand::Address(0x0310))).is_ok());
    assert_eq!(cpu.registers.pc, 0x0300);
    // Zero flag set: taken.
    cpu.registers.p.set_zero(true);
    assert!(cpu.execute(beq, Some(Operand::Address(0x0310))).is_ok());
    assert_eq!(cpu.registers.pc, 0x0310);

    let bne = OpCode::new(InstructionType::BNE, AddressingMode::Relative);
    assert!(cpu.execute(bne, Some(Operand::Address(0x0400))).is_ok());
    assert_eq!(cpu.registers.pc, 0x0310);
    cpu.registers.p.set_zero(false);
    assert!(cpu.execute(bne, Some(Operand::Address(0x0400))).is_ok());
    assert_eq!(cpu.registers.pc, 0x0400);

    let bmi = OpCode::new(InstructionType::BMI, AddressingMode::Relative);
    cpu.registers.p.set_negative(true);
    assert!(cpu.execute(bmi, Some(Operand::Address(0x0500))).is_ok());
    assert_eq!(cpu.registers.pc, 0x0500);
}

#[test]
fn transfers_update_flags_except_txs() {
    let mut cpu = fresh_cpu();
    cpu.registers.a = 0x80;
    assert!(cpu.execute(implied(InstructionType::TAX), None).is_ok());
    assert_eq!(cpu.registers.x, 0x80);
    assert!(cpu.registers.p.negative());

    cpu.registers.s = 0x00;
    assert!(cpu.execute(implied(InstructionType::TSX), None).is_ok());
    assert_eq!(cpu.registers.x, 0x00);
    assert!(cpu.registers.p.zero());

    // TXS copies X into the stack pointer and leaves every flag alone.
    cpu.registers.x = 0x00;
    cpu.registers.p.set_zero(false);
    cpu.registers.p.set_negative(true);
    assert!(cpu.execute(implied(InstructionType::TXS), None).is_ok());
    assert_eq!(cpu.registers.s, 0x00);
    assert!(!cpu.registers.p.zero());
    assert!(cpu.registers.p.negative());

    cpu.registers.y = 0x05;
    assert!(cpu.execute(implied(InstructionType::TYA), None).is_ok());
    assert_eq!(cpu.registers.a, 0x05);
    assert!(!cpu.registers.p.negative());
    assert!(!cpu.registers.p.zero());
}

#[test]
fn inx_saturates_at_max() {
    // INX at X = 0xFF saturates to 0xFF; it does not wrap to 0.
    let mut cpu = fresh_cpu();
    cpu.registers.x = 0xFF;
    assert!(cpu.execute(implied(InstructionType::INX), None).is_ok());
    assert_eq!(cpu.registers.x, 0xFF);
    assert!(!cpu.registers.p.zero());
    assert!(cpu.registers.p.negative());
}

#[test]
fn iny_dex_dey_saturate() {
    let mut cpu = fresh_cpu();
    cpu.registers.y = 0xFF;
    assert!(cpu.execute(implied(InstructionType::INY), None).is_ok());
    assert_eq!(cpu.registers.y, 0xFF);

    cpu.registers.x = 0x00;
    assert!(cpu.execute(implied(InstructionType::DEX), None).is_ok());
    assert_eq!(cpu.registers.x, 0x00);
    assert!(cpu.registers.p.zero());

    cpu.registers.y = 0x01;
    assert!(cpu.execute(implied(InstructionType::DEY), None).is_ok());
    assert_eq!(cpu.registers.y, 0x00);
    assert!(cpu.registers.p.zero());

    cpu.registers.x = 0x10;
    assert!(cpu.execute(implied(InstructionType::INX), None).is_ok());
    assert_eq!(cpu.registers.x, 0x11);
}

#[test]
fn logical_operations_on_accumulator() {
    let mut cpu = fresh_cpu();
    cpu.registers.a = 0b1100_1100;
    assert!(cpu
        .execute(imm(InstructionType::AND), Some(Operand::Immediate(0b1010_1010)))
        .is_ok());
    assert_eq!(cpu.registers.a, 0b1000_1000);
    assert!(cpu.registers.p.negative());

    assert!(cpu
        .execute(imm(InstructionType::ORA), Some(Operand::Immediate(0b0000_0111)))
        .is_ok());
    assert_eq!(cpu.registers.a, 0b1000_1111);

    assert!(cpu
        .execute(imm(InstructionType::EOR), Some(Operand::Immediate(0b1000_1111)))
        .is_ok());
    assert_eq!(cpu.registers.a, 0x00);
    assert!(cpu.registers.p.zero());
    assert!(!cpu.registers.p.negative());
}

#[test]
fn adc_signed_overflow_case() {
    // A = 0x50 plus operand 0x50 with carry clear: result 0xA0, overflow
    // set, carry clear, negative set, zero clear.
    let mut cpu = fresh_cpu();
    cpu.registers.a = 0x50;
    assert!(cpu
        .execute(imm(InstructionType::ADC), Some(Operand::Immediate(0x50)))
        .is_ok());
    assert_eq!(cpu.registers.a, 0xA0);
    assert!(cpu.registers.p.overflow());
    assert!(!cpu.registers.p.carry());
    assert!(cpu.registers.p.negative());
    assert!(!cpu.registers.p.zero());
}

#[test]
fn adc_carry_out_case() {
    // A = 0xFF plus operand 0x01 with carry clear: result 0x00, carry set,
    // zero set.
    let mut cpu = fresh_cpu();
    cpu.registers.a = 0xFF;
    assert!(cpu
        .execute(imm(InstructionType::ADC), Some(Operand::Immediate(0x01)))
        .is_ok());
    assert_eq!(cpu.registers.a, 0x00);
    assert!(cpu.registers.p.carry());
    assert!(cpu.registers.p.zero());
    assert!(!cpu.registers.p.negative());
    assert!(!cpu.registers.p.overflow());
}

#[test]
fn adc_consumes_incoming_carry() {
    let mut cpu = fresh_cpu();
    cpu.registers.a = 0x10;
    cpu.registers.p.set_carry(true);
    assert!(cpu
        .execute(imm(InstructionType::ADC), Some(Operand::Immediate(0x05)))
        .is_ok());
    assert_eq!(cpu.registers.a, 0x16);
    assert!(!cpu.registers.p.carry());
}

#[test]
fn jmp_sets_pc() {
    let mut cpu = fresh_cpu();
    let jmp = OpCode::new(InstructionType::JMP, AddressingMode::Absolute);
    assert!(cpu.execute(jmp, Some(Operand::Address(0x1234))).is_ok());
    assert_eq!(cpu.registers.pc, 0x1234);
}

#[test]
fn nop_changes_nothing() {
    let mut cpu = fresh_cpu();
    cpu.registers.a = 0x42;
    cpu.registers.pc = 0x0100;
    assert!(cpu.execute(implied(InstructionType::NOP), None).is_ok());
    assert_eq!(cpu.registers.a, 0x42);
    assert_eq!(cpu.registers.pc, 0x0100);
}

#[test]
fn unimplemented_instruction_is_reported() {
    let mut cpu = fresh_cpu();
    let brk = implied(InstructionType::BRK);
    let r = cpu.execute(brk, None);
    assert_eq!(
        r,
        Err(CpuError::UnimplementedInstruction {
            instruction_type: InstructionType::BRK
        })
    );
}

#[test]
fn operand_shape_mismatch_is_rejected() {
    let mut cpu = fresh_cpu();
    // An address-mode load handed an immediate operand.
    let op = OpCode::new(InstructionType::LDA, AddressingMode::ZeroPage);
    let r = cpu.execute(op, Some(Operand::Immediate(0x05)));
    assert_eq!(
        r,
        Err(CpuError::OperandShapeMismatch {
            instruction_type: InstructionType::LDA,
            addressing_mode: AddressingMode::ZeroPage,
        })
    );
    // The mutation never happened.
    assert_eq!(cpu.registers.a, 0x00);

    // An immediate-mode load handed an address operand.
    let op = OpCode::new(InstructionType::LDA, AddressingMode::Immediate);
    let r = cpu.execute(op, Some(Operand::Address(0x0005)));
    assert!(matches!(r, Err(CpuError::OperandShapeMismatch { .. })));

    // A store handed no operand at all.
    let op = OpCode::new(InstructionType::STA, AddressingMode::Absolute);
    let r = cpu.execute(op, None);
    assert!(matches!(r, Err(CpuError::OperandShapeMismatch { .. })));
}
