use vstd::prelude::*;

use crate::cpu::instruction::{AddressingMode, InstructionType, OpCode};

verus! {

/// The canonical 6502 opcode table: the total, immutable mapping from byte
/// value to (mnemonic, addressing mode) for every legally encoded opcode.
/// A byte with no entry is an undefined opcode and maps to `None`.
pub open spec fn spec_decode(opcode: u8) -> Option<OpCode> {
    match opcode {
        0x00 => Some(OpCode { instruction_type: InstructionType::BRK, addressing_mode: AddressingMode::Implied }),
        0x01 => Some(OpCode { instruction_type: InstructionType::ORA, addressing_mode: AddressingMode::IndexedIndirect }),
        0x05 => Some(OpCode { instruction_type: InstructionType::ORA, addressing_mode: AddressingMode::ZeroPage }),
        0x06 => Some(OpCode { instruction_type: InstructionType::ASL, addressing_mode: AddressingMode::ZeroPage }),
        0x08 => Some(OpCode { instruction_type: InstructionType::PHP, addressing_mode: AddressingMode::Implied }),
        0x09 => Some(OpCode { instruction_type: InstructionType::ORA, addressing_mode: AddressingMode::Immediate }),
        0x0A => Some(OpCode { instruction_type: InstructionType::ASL, addressing_mode: AddressingMode::Accumulator }),
        0x0D => Some(OpCode { instruction_type: InstructionType::ORA, addressing_mode: AddressingMode::Absolute }),
        0x0E => Some(OpCode { instruction_type: InstructionType::ASL, addressing_mode: AddressingMode::Absolute }),
        0x10 => Some(OpCode { instruction_type: InstructionType::BPL, addressing_mode: AddressingMode::Relative }),
        0x11 => Some(OpCode { instruction_type: InstructionType::ORA, addressing_mode: AddressingMode::IndirectIndexed }),
        0x15 => Some(OpCode { instruction_type: InstructionType::ORA, addressing_mode: AddressingMode::ZeroPageX }),
        0x16 => Some(OpCode { instruction_type: InstructionType::ASL, addressing_mode: AddressingMode::ZeroPageX }),
        0x18 => Some(OpCode { instruction_type: InstructionType::CLC, addressing_mode: AddressingMode::Implied }),
        0x19 => Some(OpCode { instruction_type: InstructionType::ORA, addressing_mode: AddressingMode::AbsoluteY }),
        0x1D => Some(OpCode { instruction_type: InstructionType::ORA, addressing_mode: AddressingMode::AbsoluteX }),
        0x1E => Some(OpCode { instruction_type: InstructionType::ASL, addressing_mode: AddressingMode::AbsoluteX }),
        0x20 => Some(OpCode { instruction_type: InstructionType::JSR, addressing_mode: AddressingMode::Absolute }),
        0x21 => Some(OpCode { instruction_type: InstructionType::AND, addressing_mode: AddressingMode::IndexedIndirect }),
        0x24 => Some(OpCode { instruction_type: InstructionType::BIT, addressing_mode: AddressingMode::ZeroPage }),
        0x25 => Some(OpCode { instruction_type: InstructionType::AND, addressing_mode: AddressingMode::ZeroPage }),
        0x26 => Some(OpCode { instruction_type: InstructionType::ROL, addressing_mode: AddressingMode::ZeroPage }),
        0x28 => Some(OpCode { instruction_type: InstructionType::PLP, addressing_mode: AddressingMode::Implied }),
        0x29 => Some(OpCode { instruction_type: InstructionType::AND, addressing_mode: AddressingMode::Immediate }),
        0x2A => Some(OpCode { instruction_type: InstructionType::ROL, addressing_mode: AddressingMode::Accumulator }),
        0x2C => Some(OpCode { instruction_type: InstructionType::BIT, addressing_mode: AddressingMode::Absolute }),
        0x2D => Some(OpCode { instruction_type: InstructionType::AND, addressing_mode: AddressingMode::Absolute }),
        0x2E => Some(OpCode { instruction_type: InstructionType::ROL, addressing_mode: AddressingMode::Absolute }),
        0x30 => Some(OpCode { instruction_type: InstructionType::BMI, addressing_mode: AddressingMode::Relative }),
        0x31 => Some(OpCode { instruction_type: InstructionType::AND, addressing_mode: AddressingMode::IndirectIndexed }),
        0x35 => Some(OpCode { instruction_type: InstructionType::AND, addressing_mode: AddressingMode::ZeroPageX }),
        0x36 => Some(OpCode { instruction_type: InstructionType::ROL, addressing_mode: AddressingMode::ZeroPageX }),
        0x38 => Some(OpCode { instruction_type: InstructionType::SEC, addressing_mode: AddressingMode::Implied }),
        0x39 => Some(OpCode { instruction_type: InstructionType::AND, addressing_mode: AddressingMode::AbsoluteY }),
        0x3D => Some(OpCode { instruction_type: InstructionType::AND, addressing_mode: AddressingMode::AbsoluteX }),
        0x3E => Some(OpCode { instruction_type: InstructionType::ROL, addressing_mode: AddressingMode::AbsoluteX }),
        0x40 => Some(OpCode { instruction_type: InstructionType::RTI, addressing_mode: AddressingMode::Implied }),
        0x41 => Some(OpCode { instruction_type: InstructionType::EOR, addressing_mode: AddressingMode::IndexedIndirect }),
        0x45 => Some(OpCode { instruction_type: InstructionType::EOR, addressing_mode: AddressingMode::ZeroPage }),
        0x46 => Some(OpCode { instruction_type: InstructionType::LSR, addressing_mode: AddressingMode::ZeroPage }),
        0x48 => Some(OpCode { instruction_type: InstructionType::PHA, addressing_mode: AddressingMode::Implied }),
        0x49 => Some(OpCode { instruction_type: InstructionType::EOR, addressing_mode: AddressingMode::Immediate }),
        0x4A => Some(OpCode { instruction_type: InstructionType::LSR, addressing_mode: AddressingMode::Accumulator }),
        0x4C => Some(OpCode { instruction_type: InstructionType::JMP, addressing_mode: AddressingMode::Absolute }),
        0x4D => Some(OpCode { instruction_type: InstructionType::EOR, addressing_mode: AddressingMode::Absolute }),
        0x4E => Some(OpCode { instruction_type: InstructionType::LSR, addressing_mode: AddressingMode::Absolute }),
        0x50 => Some(OpCode { instruction_type: InstructionType::BVC, addressing_mode: AddressingMode::Relative }),
        0x51 => Some(OpCode { instruction_type: InstructionType::EOR, addressing_mode: AddressingMode::IndirectIndexed }),
        0x55 => Some(OpCode { instruction_type: InstructionType::EOR, addressing_mode: AddressingMode::ZeroPageX }),
        0x56 => Some(OpCode { instruction_type: InstructionType::LSR, addressing_mode: AddressingMode::ZeroPageX }),
        0x58 => Some(OpCode { instruction_type: InstructionType::CLI, addressing_mode: AddressingMode::Implied }),
        0x59 => Some(OpCode { instruction_type: InstructionType::EOR, addressing_mode: AddressingMode::AbsoluteY }),
        0x5D => Some(OpCode { instruction_type: InstructionType::EOR, addressing_mode: AddressingMode::AbsoluteX }),
        0x5E => Some(OpCode { instruction_type: InstructionType::LSR, addressing_mode: AddressingMode::AbsoluteX }),
        0x60 => Some(OpCode { instruction_type: InstructionType::RTS, addressing_mode: AddressingMode::Implied }),
        0x61 => Some(OpCode { instruction_type: InstructionType::ADC, addressing_mode: AddressingMode::IndexedIndirect }),
        0x65 => Some(OpCode { instruction_type: InstructionType::ADC, addressing_mode: AddressingMode::ZeroPage }),
        0x66 => Some(OpCode { instruction_type: InstructionType::ROR, addressing_mode: AddressingMode::ZeroPage }),
        0x68 => Some(OpCode { instruction_type: InstructionType::PLA, addressing_mode: AddressingMode::Implied }),
        0x69 => Some(OpCode { instruction_type: InstructionType::ADC, addressing_mode: AddressingMode::Immediate }),
        0x6A => Some(OpCode { instruction_type: InstructionType::ROR, addressing_mode: AddressingMode::Accumulator }),
        0x6C => Some(OpCode { instruction_type: InstructionType::JMP, addressing_mode: AddressingMode::AbsoluteIndirect }),
        0x6D => Some(OpCode { instruction_type: InstructionType::ADC, addressing_mode: AddressingMode::Absolute }),
        0x6E => Some(OpCode { instruction_type: InstructionType::ROR, addressing_mode: AddressingMode::Absolute }),
        0x70 => Some(OpCode { instruction_type: InstructionType::BVS, addressing_mode: AddressingMode::Relative }),
        0x71 => Some(OpCode { instruction_type: InstructionType::ADC, addressing_mode: AddressingMode::IndirectIndexed }),
        0x75 => Some(OpCode { instruction_type: InstructionType::ADC, addressing_mode: AddressingMode::ZeroPageX }),
        0x76 => Some(OpCode { instruction_type: InstructionType::ROR, addressing_mode: AddressingMode::ZeroPageX }),
        0x78 => Some(OpCode { instruction_type: InstructionType::SEI, addressing_mode: AddressingMode::Implied }),
        0x79 => Some(OpCode { instruction_type: InstructionType::ADC, addressing_mode: AddressingMode::AbsoluteY }),
        0x7D => Some(OpCode { instruction_type: InstructionType::ADC, addressing_mode: AddressingMode::AbsoluteX }),
        0x7E => Some(OpCode { instruction_type: InstructionType::ROR, addressing_mode: AddressingMode::AbsoluteX }),
        0x81 => Some(OpCode { instruction_type: InstructionType::STA, addressing_mode: AddressingMode::IndexedIndirect }),
        0x84 => Some(OpCode { instruction_type: InstructionType::STY, addressing_mode: AddressingMode::ZeroPage }),
        0x85 => Some(OpCode { instruction_type: InstructionType::STA, addressing_mode: AddressingMode::ZeroPage }),
        0x86 => Some(OpCode { instruction_type: InstructionType::STX, addressing_mode: AddressingMode::ZeroPage }),
        0x88 => Some(OpCode { instruction_type: InstructionType::DEY, addressing_mode: AddressingMode::Implied }),
        0x8A => Some(OpCode { instruction_type: InstructionType::TXA, addressing_mode: AddressingMode::Implied }),
        0x8C => Some(OpCode { instruction_type: InstructionType::STY, addressing_mode: AddressingMode::Absolute }),
        0x8D => Some(OpCode { instruction_type: InstructionType::STA, addressing_mode: AddressingMode::Absolute }),
        0x8E => Some(OpCode { instruction_type: InstructionType::STX, addressing_mode: AddressingMode::Absolute }),
        0x90 => Some(OpCode { instruction_type: InstructionType::BCC, addressing_mode: AddressingMode::Relative }),
        0x91 => Some(OpCode { instruction_type: InstructionType::STA, addressing_mode: AddressingMode::IndirectIndexed }),
        0x94 => Some(OpCode { instruction_type: InstructionType::STY, addressing_mode: AddressingMode::ZeroPageX }),
        0x95 => Some(OpCode { instruction_type: InstructionType::STA, addressing_mode: AddressingMode::ZeroPageX }),
        0x96 => Some(OpCode { instruction_type: InstructionType::STX, addressing_mode: AddressingMode::ZeroPageY }),
        0x98 => Some(OpCode { instruction_type: InstructionType::TYA, addressing_mode: AddressingMode::Implied }),
        0x99 => Some(OpCode { instruction_type: InstructionType::STA, addressing_mode: AddressingMode::AbsoluteY }),
        0x9A => Some(OpCode { instruction_type: InstructionType::TXS, addressing_mode: AddressingMode::Implied }),
        0x9D => Some(OpCode { instruction_type: InstructionType::STA, addressing_mode: AddressingMode::AbsoluteX }),
        0xA0 => Some(OpCode { instruction_type: InstructionType::LDY, addressing_mode: AddressingMode::Immediate }),
        0xA1 => Some(OpCode { instruction_type: InstructionType::LDA, addressing_mode: AddressingMode::IndexedIndirect }),
        0xA2 => Some(OpCode { instruction_type: InstructionType::LDX, addressing_mode: AddressingMode::Immediate }),
        0xA4 => Some(OpCode { instruction_type: InstructionType::LDY, addressing_mode: AddressingMode::ZeroPage }),
        0xA5 => Some(OpCode { instruction_type: InstructionType::LDA, addressing_mode: AddressingMode::ZeroPage }),
        0xA6 => Some(OpCode { instruction_type: InstructionType::LDX, addressing_mode: AddressingMode::ZeroPage }),
        0xA8 => Some(OpCode { instruction_type: InstructionType::TAY, addressing_mode: AddressingMode::Implied }),
        0xA9 => Some(OpCode { instruction_type: InstructionType::LDA, addressing_mode: AddressingMode::Immediate }),
        0xAA => Some(OpCode { instruction_type: InstructionType::TAX, addressing_mode: AddressingMode::Implied }),
        0xAC => Some(OpCode { instruction_type: InstructionType::LDY, addressing_mode: AddressingMode::Absolute }),
        0xAD => Some(OpCode { instruction_type: InstructionType::LDA, addressing_mode: AddressingMode::Absolute }),
        0xAE => Some(OpCode { instruction_type: InstructionType::LDX, addressing_mode: AddressingMode::Absolute }),
        0xB0 => Some(OpCode { instruction_type: InstructionType::BCS, addressing_mode: AddressingMode::Relative }),
        0xB1 => Some(OpCode { instruction_type: InstructionType::LDA, addressing_mode: AddressingMode::IndirectIndexed }),
        0xB4 => Some(OpCode { instruction_type: InstructionType::LDY, addressing_mode: AddressingMode::ZeroPageX }),
        0xB5 => Some(OpCode { instruction_type: InstructionType::LDA, addressing_mode: AddressingMode::ZeroPageX }),
        0xB6 => Some(OpCode { instruction_type: InstructionType::LDX, addressing_mode: AddressingMode::ZeroPageY }),
        0xB8 => Some(OpCode { instruction_type: InstructionType::CLV, addressing_mode: AddressingMode::Implied }),
        0xB9 => Some(OpCode { instruction_type: InstructionType::LDA, addressing_mode: AddressingMode::AbsoluteY }),
        0xBA => Some(OpCode { instruction_type: InstructionType::TSX, addressing_mode: AddressingMode::Implied }),
        0xBC => Some(OpCode { instruction_type: InstructionType::LDY, addressing_mode: AddressingMode::AbsoluteX }),
        0xBD => Some(OpCode { instruction_type: InstructionType::LDA, addressing_mode: AddressingMode::AbsoluteX }),
        0xBE => Some(OpCode { instruction_type: InstructionType::LDX, addressing_mode: AddressingMode::AbsoluteY }),
        0xC0 => Some(OpCode { instruction_type: InstructionType::CPY, addressing_mode: AddressingMode::Immediate }),
        0xC1 => Some(OpCode { instruction_type: InstructionType::CMP, addressing_mode: AddressingMode::IndexedIndirect }),
        0xC4 => Some(OpCode { instruction_type: InstructionType::CPY, addressing_mode: AddressingMode::ZeroPage }),
        0xC5 => Some(OpCode { instruction_type: InstructionType::CMP, addressing_mode: AddressingMode::ZeroPage }),
        0xC6 => Some(OpCode { instruction_type: InstructionType::DEC, addressing_mode: AddressingMode::ZeroPage }),
        0xC8 => Some(OpCode { instruction_type: InstructionType::INY, addressing_mode: AddressingMode::Implied }),
        0xC9 => Some(OpCode { instruction_type: InstructionType::CMP, addressing_mode: AddressingMode::Immediate }),
        0xCA => Some(OpCode { instruction_type: InstructionType::DEX, addressing_mode: AddressingMode::Implied }),
        0xCC => Some(OpCode { instruction_type: InstructionType::CPY, addressing_mode: AddressingMode::Absolute }),
        0xCD => Some(OpCode { instruction_type: InstructionType::CMP, addressing_mode: AddressingMode::Absolute }),
        0xCE => Some(OpCode { instruction_type: InstructionType::DEC, addressing_mode: AddressingMode::Absolute }),
        0xD0 => Some(OpCode { instruction_type: InstructionType::BNE, addressing_mode: AddressingMode::Relative }),
        0xD1 => Some(OpCode { instruction_type: InstructionType::CMP, addressing_mode: AddressingMode::IndirectIndexed }),
        0xD5 => Some(OpCode { instruction_type: InstructionType::CMP, addressing_mode: AddressingMode::ZeroPageX }),
        0xD6 => Some(OpCode { instruction_type: InstructionType::DEC, addressing_mode: AddressingMode::ZeroPageX }),
        0xD8 => Some(OpCode { instruction_type: InstructionType::CLD, addressing_mode: AddressingMode::Implied }),
        0xD9 => Some(OpCode { instruction_type: InstructionType::CMP, addressing_mode: AddressingMode::AbsoluteY }),
        0xDD => Some(OpCode { instruction_type: InstructionType::CMP, addressing_mode: AddressingMode::AbsoluteX }),
        0xDE => Some(OpCode { instruction_type: InstructionType::DEC, addressing_mode: AddressingMode::AbsoluteX }),
        0xE0 => Some(OpCode { instruction_type: InstructionType::CPX, addressing_mode: AddressingMode::Immediate }),
        0xE1 => Some(OpCode { instruction_type: InstructionType::SBC, addressing_mode: AddressingMode::IndexedIndirect }),
        0xE4 => Some(OpCode { instruction_type: InstructionType::CPX, addressing_mode: AddressingMode::ZeroPage }),
        0xE5 => Some(OpCode { instruction_type: InstructionType::SBC, addressing_mode: AddressingMode::ZeroPage }),
        0xE6 => Some(OpCode { instruction_type: InstructionType::INC, addressing_mode: AddressingMode::ZeroPage }),
        0xE8 => Some(OpCode { instruction_type: InstructionType::INX, addressing_mode: AddressingMode::Implied }),
        0xE9 => Some(OpCode { instruction_type: InstructionType::SBC, addressing_mode: AddressingMode::Immediate }),
        0xEA => Some(OpCode { instruction_type: InstructionType::NOP, addressing_mode: AddressingMode::Implied }),
        0xEC => Some(OpCode { instruction_type: InstructionType::CPX, addressing_mode: AddressingMode::Absolute }),
        0xED => Some(OpCode { instruction_type: InstructionType::SBC, addressing_mode: AddressingMode::Absolute }),
        0xEE => Some(OpCode { instruction_type: InstructionType::INC, addressing_mode: AddressingMode::Absolute }),
        0xF0 => Some(OpCode { instruction_type: InstructionType::BEQ, addressing_mode: AddressingMode::Relative }),
        0xF1 => Some(OpCode { instruction_type: InstructionType::SBC, addressing_mode: AddressingMode::IndirectIndexed }),
        0xF5 => Some(OpCode { instruction_type: InstructionType::SBC, addressing_mode: AddressingMode::ZeroPageX }),
        0xF6 => Some(OpCode { instruction_type: InstructionType::INC, addressing_mode: AddressingMode::ZeroPageX }),
        0xF8 => Some(OpCode { instruction_type: InstructionType::SED, addressing_mode: AddressingMode::Implied }),
        0xF9 => Some(OpCode { instruction_type: InstructionType::SBC, addressing_mode: AddressingMode::AbsoluteY }),
        0xFD => Some(OpCode { instruction_type: InstructionType::SBC, addressing_mode: AddressingMode::AbsoluteX }),
        0xFE => Some(OpCode { instruction_type: InstructionType::INC, addressing_mode: AddressingMode::AbsoluteX }),
        _ => None,
    }
}

/// The opcode decoder: a pure lookup in the canonical table.
pub struct OpCodeDecoder;

impl OpCodeDecoder {
    /// Decodes one opcode byte. Returns the table's unique entry for the
    /// byte, or `None` for an undefined opcode.
    pub fn decode(opcode: u8) -> (r: Option<OpCode>)
        ensures
            r == spec_decode(opcode),
    {
        match opcode {
            0x00 => Some(OpCode { instruction_type: InstructionType::BRK, addressing_mode: AddressingMode::Implied }),
        0x01 => Some(OpCode { instruction_type: InstructionType::ORA, addressing_mode: AddressingMode::IndexedIndirect }),
        0x05 => Some(OpCode { instruction_type: InstructionType::ORA, addressing_mode: AddressingMode::ZeroPage }),
        0x06 => Some(OpCode { instruction_type: InstructionType::ASL, addressing_mode: AddressingMode::ZeroPage }),
        0x08 => Some(OpCode { instruction_type: InstructionType::PHP, addressing_mode: AddressingMode::Implied }),
        0x09 => Some(OpCode { instruction_type: InstructionType::ORA, addressing_mode: AddressingMode::Immediate }),
        0x0A => Some(OpCode { instruction_type: InstructionType::ASL, addressing_mode: AddressingMode::Accumulator }),
        0x0D => Some(OpCode { instruction_type: InstructionType::ORA, addressing_mode: AddressingMode::Absolute }),
        0x0E => Some(OpCode { instruction_type: InstructionType::ASL, addressing_mode: AddressingMode::Absolute }),
        0x10 => Some(OpCode { instruction_type: InstructionType::BPL, addressing_mode: AddressingMode::Relative }),
        0x11 => Some(OpCode { instruction_type: InstructionType::ORA, addressing_mode: AddressingMode::IndirectIndexed }),
        0x15 => Some(OpCode { instruction_type: InstructionType::ORA, addressing_mode: AddressingMode::ZeroPageX }),
        0x16 => Some(OpCode { instruction_type: InstructionType::ASL, addressing_mode: AddressingMode::ZeroPageX }),
        0x18 => Some(OpCode { instruction_type: InstructionType::CLC, addressing_mode: AddressingMode::Implied }),
        0x19 => Some(OpCode { instruction_type: InstructionType::ORA, addressing_mode: AddressingMode::AbsoluteY }),
        0x1D => Some(OpCode { instruction_type: InstructionType::ORA, addressing_mode: AddressingMode::AbsoluteX }),
        0x1E => Some(OpCode { instruction_type: InstructionType::ASL, addressing_mode: AddressingMode::AbsoluteX }),
        0x20 => Some(OpCode { instruction_type: InstructionType::JSR, addressing_mode: AddressingMode::Absolute }),
        0x21 => Some(OpCode { instruction_type: InstructionType::AND, addressing_mode: AddressingMode::IndexedIndirect }),
        0x24 => Some(OpCode { instruction_type: InstructionType::BIT, addressing_mode: AddressingMode::ZeroPage }),
        0x25 => Some(OpCode { instruction_type: InstructionType::AND, addressing_mode: AddressingMode::ZeroPage }),
        0x26 => Some(OpCode { instruction_type: InstructionType::ROL, addressing_mode: AddressingMode::ZeroPage }),
        0x28 => Some(OpCode { instruction_type: InstructionType::PLP, addressing_mode: AddressingMode::Implied }),
        0x29 => Some(OpCode { instruction_type: InstructionType::AND, addressing_mode: AddressingMode::Immediate }),
        0x2A => Some(OpCode { instruction_type: InstructionType::ROL, addressing_mode: AddressingMode::Accumulator }),
        0x2C => Some(OpCode { instruction_type: InstructionType::BIT, addressing_mode: AddressingMode::Absolute }),
        0x2D => Some(OpCode { instruction_type: InstructionType::AND, addressing_mode: AddressingMode::Absolute }),
        0x2E => Some(OpCode { instruction_type: InstructionType::ROL, addressing_mode: AddressingMode::Absolute }),
        0x30 => Some(OpCode { instruction_type: InstructionType::BMI, addressing_mode: AddressingMode::Relative }),
        0x31 => Some(OpCode { instruction_type: InstructionType::AND, addressing_mode: AddressingMode::IndirectIndexed }),
        0x35 => Some(OpCode { instruction_type: InstructionType::AND, addressing_mode: AddressingMode::ZeroPageX }),
        0x36 => Some(OpCode { instruction_type: InstructionType::ROL, addressing_mode: AddressingMode::ZeroPageX }),
        0x38 => Some(OpCode { instruction_type: InstructionType::SEC, addressing_mode: AddressingMode::Implied }),
        0x39 => Some(OpCode { instruction_type: InstructionType::AND, addressing_mode: AddressingMode::AbsoluteY }),
        0x3D => Some(OpCode { instruction_type: InstructionType::AND, addressing_mode: AddressingMode::AbsoluteX }),
        0x3E => Some(OpCode { instruction_type: InstructionType::ROL, addressing_mode: AddressingMode::AbsoluteX }),
        0x40 => Some(OpCode { instruction_type: InstructionType::RTI, addressing_mode: AddressingMode::Implied }),
        0x41 => Some(OpCode { instruction_type: InstructionType::EOR, addressing_mode: AddressingMode::IndexedIndirect }),
        0x45 => Some(OpCode { instruction_type: InstructionType::EOR, addressing_mode: AddressingMode::ZeroPage }),
        0x46 => Some(OpCode { instruction_type: InstructionType::LSR, addressing_mode: AddressingMode::ZeroPage }),
        0x48 => Some(OpCode { instruction_type: InstructionType::PHA, addressing_mode: AddressingMode::Implied }),
        0x49 => Some(OpCode { instruction_type: InstructionType::EOR, addressing_mode: AddressingMode::Immediate }),
        0x4A => Some(OpCode { instruction_type: InstructionType::LSR, addressing_mode: AddressingMode::Accumulator }),
        0x4C => Some(OpCode { instruction_type: InstructionType::JMP, addressing_mode: AddressingMode::Absolute }),
        0x4D => Some(OpCode { instruction_type: InstructionType::EOR, addressing_mode: AddressingMode::Absolute }),
        0x4E => Some(OpCode { instruction_type: InstructionType::LSR, addressing_mode: AddressingMode::Absolute }),
        0x50 => Some(OpCode { instruction_type: InstructionType::BVC, addressing_mode: AddressingMode::Relative }),
        0x51 => Some(OpCode { instruction_type: InstructionType::EOR, addressing_mode: AddressingMode::IndirectIndexed }),
        0x55 => Some(OpCode { instruction_type: InstructionType::EOR, addressing_mode: AddressingMode::ZeroPageX }),
        0x56 => Some(OpCode { instruction_type: InstructionType::LSR, addressing_mode: AddressingMode::ZeroPageX }),
        0x58 => Some(OpCode { instruction_type: InstructionType::CLI, addressing_mode: AddressingMode::Implied }),
        0x59 => Some(OpCode { instruction_type: InstructionType::EOR, addressing_mode: AddressingMode::AbsoluteY }),
        0x5D => Some(OpCode { instruction_type: InstructionType::EOR, addressing_mode: AddressingMode::AbsoluteX }),
        0x5E => Some(OpCode { instruction_type: InstructionType::LSR, addressing_mode: AddressingMode::AbsoluteX }),
        0x60 => Some(OpCode { instruction_type: InstructionType::RTS, addressing_mode: AddressingMode::Implied }),
        0x61 => Some(OpCode { instruction_type: InstructionType::ADC, addressing_mode: AddressingMode::IndexedIndirect }),
        0x65 => Some(OpCode { instruction_type: InstructionType::ADC, addressing_mode: AddressingMode::ZeroPage }),
        0x66 => Some(OpCode { instruction_type: InstructionType::ROR, addressing_mode: AddressingMode::ZeroPage }),
        0x68 => Some(OpCode { instruction_type: InstructionType::PLA, addressing_mode: AddressingMode::Implied }),
        0x69 => Some(OpCode { instruction_type: InstructionType::ADC, addressing_mode: AddressingMode::Immediate }),
        0x6A => Some(OpCode { instruction_type: InstructionType::ROR, addressing_mode: AddressingMode::Accumulator }),
        0x6C => Some(OpCode { instruction_type: InstructionType::JMP, addressing_mode: AddressingMode::AbsoluteIndirect }),
        0x6D => Some(OpCode { instruction_type: InstructionType::ADC, addressing_mode: AddressingMode::Absolute }),
        0x6E => Some(OpCode { instruction_type: InstructionType::ROR, addressing_mode: AddressingMode::Absolute }),
        0x70 => Some(OpCode { instruction_type: InstructionType::BVS, addressing_mode: AddressingMode::Relative }),
        0x71 => Some(OpCode { instruction_type: InstructionType::ADC, addressing_mode: AddressingMode::IndirectIndexed }),
        0x75 => Some(OpCode { instruction_type: InstructionType::ADC, addressing_mode: AddressingMode::ZeroPageX }),
        0x76 => Some(OpCode { instruction_type: InstructionType::ROR, addressing_mode: AddressingMode::ZeroPageX }),
        0x78 => Some(OpCode { instruction_type: InstructionType::SEI, addressing_mode: AddressingMode::Implied }),
        0x79 => Some(OpCode { instruction_type: InstructionType::ADC, addressing_mode: AddressingMode::AbsoluteY }),
        0x7D => Some(OpCode { instruction_type: InstructionType::ADC, addressing_mode: AddressingMode::AbsoluteX }),
        0x7E => Some(OpCode { instruction_type: InstructionType::ROR, addressing_mode: AddressingMode::AbsoluteX }),
        0x81 => Some(OpCode { instruction_type: InstructionType::STA, addressing_mode: AddressingMode::IndexedIndirect }),
        0x84 => Some(OpCode { instruction_type: InstructionType::STY, addressing_mode: AddressingMode::ZeroPage }),
        0x85 => Some(OpCode { instruction_type: InstructionType::STA, addressing_mode: AddressingMode::ZeroPage }),
        0x86 => Some(OpCode { instruction_type: InstructionType::STX, addressing_mode: AddressingMode::ZeroPage }),
        0x88 => Some(OpCode { instruction_type: InstructionType::DEY, addressing_mode: AddressingMode::Implied }),
        0x8A => Some(OpCode { instruction_type: InstructionType::TXA, addressing_mode: AddressingMode::Implied }),
        0x8C => Some(OpCode { instruction_type: InstructionType::STY, addressing_mode: AddressingMode::Absolute }),
        0x8D => Some(OpCode { instruction_type: InstructionType::STA, addressing_mode: AddressingMode::Absolute }),
        0x8E => Some(OpCode { instruction_type: InstructionType::STX, addressing_mode: AddressingMode::Absolute }),
        0x90 => Some(OpCode { instruction_type: InstructionType::BCC, addressing_mode: AddressingMode::Relative }),
        0x91 => Some(OpCode { instruction_type: InstructionType::STA, addressing_mode: AddressingMode::IndirectIndexed }),
        0x94 => Some(OpCode { instruction_type: InstructionType::STY, addressing_mode: AddressingMode::ZeroPageX }),
        0x95 => Some(OpCode { instruction_type: InstructionType::STA, addressing_mode: AddressingMode::ZeroPageX }),
        0x96 => Some(OpCode { instruction_type: InstructionType::STX, addressing_mode: AddressingMode::ZeroPageY }),
        0x98 => Some(OpCode { instruction_type: InstructionType::TYA, addressing_mode: AddressingMode::Implied }),
        0x99 => Some(OpCode { instruction_type: InstructionType::STA, addressing_mode: AddressingMode::AbsoluteY }),
        0x9A => Some(OpCode { instruction_type: InstructionType::TXS, addressing_mode: AddressingMode::Implied }),
        0x9D => Some(OpCode { instruction_type: InstructionType::STA, addressing_mode: AddressingMode::AbsoluteX }),
        0xA0 => Some(OpCode { instruction_type: InstructionType::LDY, addressing_mode: AddressingMode::Immediate }),
        0xA1 => Some(OpCode { instruction_type: InstructionType::LDA, addressing_mode: AddressingMode::IndexedIndirect }),
        0xA2 => Some(OpCode { instruction_type: InstructionType::LDX, addressing_mode: AddressingMode::Immediate }),
        0xA4 => Some(OpCode { instruction_type: InstructionType::LDY, addressing_mode: AddressingMode::ZeroPage }),
        0xA5 => Some(OpCode { instruction_type: InstructionType::LDA, addressing_mode: AddressingMode::ZeroPage }),
        0xA6 => Some(OpCode { instruction_type: InstructionType::LDX, addressing_mode: AddressingMode::ZeroPage }),
        0xA8 => Some(OpCode { instruction_type: InstructionType::TAY, addressing_mode: AddressingMode::Implied }),
        0xA9 => Some(OpCode { instruction_type: InstructionType::LDA, addressing_mode: AddressingMode::Immediate }),
        0xAA => Some(OpCode { instruction_type: InstructionType::TAX, addressing_mode: AddressingMode::Implied }),
        0xAC => Some(OpCode { instruction_type: InstructionType::LDY, addressing_mode: AddressingMode::Absolute }),
        0xAD => Some(OpCode { instruction_type: InstructionType::LDA, addressing_mode: AddressingMode::Absolute }),
        0xAE => Some(OpCode { instruction_type: InstructionType::LDX, addressing_mode: AddressingMode::Absolute }),
        0xB0 => Some(OpCode { instruction_type: InstructionType::BCS, addressing_mode: AddressingMode::Relative }),
        0xB1 => Some(OpCode { instruction_type: InstructionType::LDA, addressing_mode: AddressingMode::IndirectIndexed }),
        0xB4 => Some(OpCode { instruction_type: InstructionType::LDY, addressing_mode: AddressingMode::ZeroPageX }),
        0xB5 => Some(OpCode { instruction_type: InstructionType::LDA, addressing_mode: AddressingMode::ZeroPageX }),
        0xB6 => Some(OpCode { instruction_type: InstructionType::LDX, addressing_mode: AddressingMode::ZeroPageY }),
        0xB8 => Some(OpCode { instruction_type: InstructionType::CLV, addressing_mode: AddressingMode::Implied }),
        0xB9 => Some(OpCode { instruction_type: InstructionType::LDA, addressing_mode: AddressingMode::AbsoluteY }),
        0xBA => Some(OpCode { instruction_type: InstructionType::TSX, addressing_mode: AddressingMode::Implied }),
        0xBC => Some(OpCode { instruction_type: InstructionType::LDY, addressing_mode: AddressingMode::AbsoluteX }),
        0xBD => Some(OpCode { instruction_type: InstructionType::LDA, addressing_mode: AddressingMode::AbsoluteX }),
        0xBE => Some(OpCode { instruction_type: InstructionType::LDX, addressing_mode: AddressingMode::AbsoluteY }),
        0xC0 => Some(OpCode { instruction_type: InstructionType::CPY, addressing_mode: AddressingMode::Immediate }),
        0xC1 => Some(OpCode { instruction_type: InstructionType::CMP, addressing_mode: AddressingMode::IndexedIndirect }),
        0xC4 => Some(OpCode { instruction_type: InstructionType::CPY, addressing_mode: AddressingMode::ZeroPage }),
        0xC5 => Some(OpCode { instruction_type: InstructionType::CMP, addressing_mode: AddressingMode::ZeroPage }),
        0xC6 => Some(OpCode { instruction_type: InstructionType::DEC, addressing_mode: AddressingMode::ZeroPage }),
        0xC8 => Some(OpCode { instruction_type: InstructionType::INY, addressing_mode: AddressingMode::Implied }),
        0xC9 => Some(OpCode { instruction_type: InstructionType::CMP, addressing_mode: AddressingMode::Immediate }),
        0xCA => Some(OpCode { instruction_type: InstructionType::DEX, addressing_mode: AddressingMode::Implied }),
        0xCC => Some(OpCode { instruction_type: InstructionType::CPY, addressing_mode: AddressingMode::Absolute }),
        0xCD => Some(OpCode { instruction_type: InstructionType::CMP, addressing_mode: AddressingMode::Absolute }),
        0xCE => Some(OpCode { instruction_type: InstructionType::DEC, addressing_mode: AddressingMode::Absolute }),
        0xD0 => Some(OpCode { instruction_type: InstructionType::BNE, addressing_mode: AddressingMode::Relative }),
        0xD1 => Some(OpCode { instruction_type: InstructionType::CMP, addressing_mode: AddressingMode::IndirectIndexed }),
        0xD5 => Some(OpCode { instruction_type: InstructionType::CMP, addressing_mode: AddressingMode::ZeroPageX }),
        0xD6 => Some(OpCode { instruction_type: InstructionType::DEC, addressing_mode: AddressingMode::ZeroPageX }),
        0xD8 => Some(OpCode { instruction_type: InstructionType::CLD, addressing_mode: AddressingMode::Implied }),
        0xD9 => Some(OpCode { instruction_type: InstructionType::CMP, addressing_mode: AddressingMode::AbsoluteY }),
        0xDD => Some(OpCode { instruction_type: InstructionType::CMP, addressing_mode: AddressingMode::AbsoluteX }),
        0xDE => Some(OpCode { instruction_type: InstructionType::DEC, addressing_mode: AddressingMode::AbsoluteX }),
        0xE0 => Some(OpCode { instruction_type: InstructionType::CPX, addressing_mode: AddressingMode::Immediate }),
        0xE1 => Some(OpCode { instruction_type: InstructionType::SBC, addressing_mode: AddressingMode::IndexedIndirect }),
        0xE4 => Some(OpCode { instruction_type: InstructionType::CPX, addressing_mode: AddressingMode::ZeroPage }),
        0xE5 => Some(OpCode { instruction_type: InstructionType::SBC, addressing_mode: AddressingMode::ZeroPage }),
        0xE6 => Some(OpCode { instruction_type: InstructionType::INC, addressing_mode: AddressingMode::ZeroPage }),
        0xE8 => Some(OpCode { instruction_type: InstructionType::INX, addressing_mode: AddressingMode::Implied }),
        0xE9 => Some(OpCode { instruction_type: InstructionType::SBC, addressing_mode: AddressingMode::Immediate }),
        0xEA => Some(OpCode { instruction_type: InstructionType::NOP, addressing_mode: AddressingMode::Implied }),
        0xEC => Some(OpCode { instruction_type: InstructionType::CPX, addressing_mode: AddressingMode::Absolute }),
        0xED => Some(OpCode { instruction_type: InstructionType::SBC, addressing_mode: AddressingMode::Absolute }),
        0xEE => Some(OpCode { instruction_type: InstructionType::INC, addressing_mode: AddressingMode::Absolute }),
        0xF0 => Some(OpCode { instruction_type: InstructionType::BEQ, addressing_mode: AddressingMode::Relative }),
        0xF1 => Some(OpCode { instruction_type: InstructionType::SBC, addressing_mode: AddressingMode::IndirectIndexed }),
        0xF5 => Some(OpCode { instruction_type: InstructionType::SBC, addressing_mode: AddressingMode::ZeroPageX }),
        0xF6 => Some(OpCode { instruction_type: InstructionType::INC, addressing_mode: AddressingMode::ZeroPageX }),
        0xF8 => Some(OpCode { instruction_type: InstructionType::SED, addressing_mode: AddressingMode::Implied }),
        0xF9 => Some(OpCode { instruction_type: InstructionType::SBC, addressing_mode: AddressingMode::AbsoluteY }),
        0xFD => Some(OpCode { instruction_type: InstructionType::SBC, addressing_mode: AddressingMode::AbsoluteX }),
        0xFE => Some(OpCode { instruction_type: InstructionType::INC, addressing_mode: AddressingMode::AbsoluteX }),
        _ => None,
        }
    }
}

/// Decode is single-valued: no opcode byte maps to two different table
/// entries.
pub proof fn lemma_decode_unique(opcode: u8, op1: OpCode, op2: OpCode)
    requires
        spec_decode(opcode) == Some(op1),
        spec_decode(opcode) == Some(op2),
    ensures
        op1 == op2,
{
}

} // verus!
