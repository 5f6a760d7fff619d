use nes::cpu::decoder::OpCodeDecoder;
use nes::cpu::instruction::{AddressingMode, InstructionType, OpCode};

#[test]
fn decode_is_total_and_single_valued() {
    // Every byte decodes to exactly one entry or to None, and a second
    // lookup always agrees with the first.
    let mut defined = 0;
    for byte in 0..=255u8 {
        let first = OpCodeDecoder::decode(byte);
        let second = OpCodeDecoder::decode(byte);
        assert_eq!(first, second);
        if first.is_some() {
            defined += 1;
        }
    }
    assert_eq!(defined, 151);
}

#[test]
fn decode_canonical_entries() {
    assert_eq!(
        OpCodeDecoder::decode(0x00),
        Some(OpCode::new(InstructionType::BRK, AddressingMode::Implied))
    );
    assert_eq!(
        OpCodeDecoder::decode(0xA9),
        Some(OpCode::new(InstructionType::LDA, AddressingMode::Immediate))
    );
    assert_eq!(
        OpCodeDecoder::decode(0xA2),
        Some(OpCode::new(InstructionType::LDX, AddressingMode::Immediate))
    );
    assert_eq!(
        OpCodeDecoder::decode(0xBE),
        Some(OpCode::new(InstructionType::LDX, AddressingMode::AbsoluteY))
    );
    assert_eq!(
        OpCodeDecoder::decode(0x6C),
        Some(OpCode::new(
            InstructionType::JMP,
            AddressingMode::AbsoluteIndirect
        ))
    );
    assert_eq!(
        OpCodeDecoder::decode(0x81),
        Some(OpCode::new(
            InstructionType::STA,
            AddressingMode::IndexedIndirect
        ))
    );
    assert_eq!(
        OpCodeDecoder::decode(0xF0),
        Some(OpCode::new(InstructionType::BEQ, AddressingMode::Relative))
    );
}

#[test]
fn decode_undefined_bytes() {
    assert_eq!(OpCodeDecoder::decode(0x02), None);
    assert_eq!(OpCodeDecoder::decode(0x89), None);
    assert_eq!(OpCodeDecoder::decode(0xFF), None);
    assert_eq!(OpCodeDecoder::decode(0x80), None);
}

#[test]
fn number_of_operands_per_mode() {
    assert_eq!(AddressingMode::Implied.number_of_operands(), 0);
    assert_eq!(AddressingMode::Accumulator.number_of_operands(), 0);
    assert_eq!(AddressingMode::Immediate.number_of_operands(), 1);
    assert_eq!(AddressingMode::ZeroPage.number_of_operands(), 1);
    assert_eq!(AddressingMode::ZeroPageX.number_of_operands(), 1);
    assert_eq!(AddressingMode::ZeroPageY.number_of_operands(), 1);
    assert_eq!(AddressingMode::Absolute.number_of_operands(), 2);
    assert_eq!(AddressingMode::AbsoluteX.number_of_operands(), 2);
    assert_eq!(AddressingMode::AbsoluteY.number_of_operands(), 2);
    assert_eq!(AddressingMode::Relative.number_of_operands(), 1);
    assert_eq!(AddressingMode::IndexedIndirect.number_of_operands(), 1);
    assert_eq!(AddressingMode::IndirectIndexed.number_of_operands(), 1);
    assert_eq!(AddressingMode::AbsoluteIndirect.number_of_operands(), 2);
    let op = OpCode::new(InstructionType::LDA, AddressingMode::Absolute);
    assert_eq!(op.number_of_operands(), 2);
}
