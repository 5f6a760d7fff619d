use vstd::prelude::*;

verus! {

/// The closed set of instruction mnemonics in the canonical 6502 set.
#[derive(Clone, Copy, Debug, PartialEq, Eq, Structural)]
pub enum InstructionType {
    ADC,
    SBC,
    AND,
    ORA,
    EOR,
    ASL,
    LSR,
    ROL,
    ROR,
    BCC,
    BCS,
    BEQ,
    BNE,
    BVC,
    BVS,
    BPL,
    BMI,
    BIT,
    JMP,
    JSR,
    RTS,
    BRK,
    RTI,
    CMP,
    CPX,
    CPY,
    INC,
    DEC,
    INX,
    DEX,
    INY,
    DEY,
    CLC,
    SEC,
    SED,
    CLI,
    SEI,
    CLD,
    CLV,
    LDA,
    LDX,
    LDY,
    STA,
    STX,
    STY,
    TAX,
    TXA,
    TAY,
    TYA,
    TSX,
    TXS,
    PHA,
    PLA,
    PHP,
    PLP,
    NOP,
}

/// The 13 standard addressing modes, each with a fixed count of trailing
/// operand bytes.
#[derive(Clone, Copy, Debug, PartialEq, Eq, Structural)]
pub enum AddressingMode {
    Implied,
    Accumulator,
    Immediate,
    ZeroPage,
    ZeroPageX,
    ZeroPageY,
    Absolute,
    AbsoluteX,
    AbsoluteY,
    Relative,
    IndexedIndirect,
    IndirectIndexed,
    AbsoluteIndirect,
}

/// How many trailing instruction bytes the mode consumes: none for the
/// modes whose operand is implicit or the accumulator, two for the modes
/// built on a full 16-bit address, one for the rest.
pub open spec fn spec_number_of_operands(mode: AddressingMode) -> usize {
    match mode {
        AddressingMode::Implied => 0,
        AddressingMode::Accumulator => 0,
        AddressingMode::Immediate => 1,
        AddressingMode::ZeroPage => 1,
        AddressingMode::ZeroPageX => 1,
        AddressingMode::ZeroPageY => 1,
        AddressingMode::Absolute => 2,
        AddressingMode::AbsoluteX => 2,
        AddressingMode::AbsoluteY => 2,
        AddressingMode::Relative => 1,
        AddressingMode::IndexedIndirect => 1,
        AddressingMode::IndirectIndexed => 1,
        AddressingMode::AbsoluteIndirect => 2,
    }
}

impl AddressingMode {
    pub fn number_of_operands(&self) -> (r: usize)
        ensures
            r == spec_number_of_operands(*self),
    {
        match *self {
            AddressingMode::Implied => 0,
            AddressingMode::Accumulator => 0,
            AddressingMode::Immediate => 1,
            AddressingMode::ZeroPage => 1,
            AddressingMode::ZeroPageX => 1,
            AddressingMode::ZeroPageY => 1,
            AddressingMode::Absolute => 2,
            AddressingMode::AbsoluteX => 2,
            AddressingMode::AbsoluteY => 2,
            AddressingMode::Relative => 1,
            AddressingMode::IndexedIndirect => 1,
            AddressingMode::IndirectIndexed => 1,
            AddressingMode::AbsoluteIndirect => 2,
        }
    }
}

/// One decoded opcode: the mnemonic paired with its addressing mode.
#[derive(Clone, Copy, Debug, PartialEq, Eq, Structural)]
pub struct OpCode {
    pub instruction_type: InstructionType,
    pub addressing_mode: AddressingMode,
}

impl OpCode {
    pub fn new(instruction_type: InstructionType, addressing_mode: AddressingMode) -> (r: Self)
        ensures
            r == (OpCode { instruction_type, addressing_mode }),
    {
        Self { instruction_type, addressing_mode }
    }

    pub fn number_of_operands(&self) -> (r: usize)
        ensures
            r == spec_number_of_operands(self.addressing_mode),
    {
        self.addressing_mode.number_of_operands()
    }
}

/// A resolved operand: either a 16-bit memory address or an 8-bit immediate
/// value. The variant must match what the instruction's addressing mode
/// implies; the execution engine rejects a mismatch instead of coercing.
#[derive(Clone, Copy, Debug, PartialEq, Eq, Structural)]
pub enum Operand {
    Address(u16),
    Immediate(u8),
}

impl Operand {
    /// The address payload; callers must already know the operand is an
    /// address.
    pub fn unwrap_addr(&self) -> (r: u16)
        requires
            self is Address,
        ensures
            *self == Operand::Address(r),
    {
        if let Operand::Address(addr) = *self {
            addr
        } else {
            unreached()
        }
    }

    /// The immediate payload; callers must already know the operand is an
    /// immediate.
    pub fn unwrap_immediate(&self) -> (r: u8)
        requires
            self is Immediate,
        ensures
            *self == Operand::Immediate(r),
    {
        if let Operand::Immediate(data) = *self {
            data
        } else {
            unreached()
        }
    }
}

} // verus!
