use vstd::prelude::*;

pub mod decoder;
pub mod instruction;
pub mod registers;
pub mod status_register;

use crate::bus::{spec_bus_read, Bus, BusAddr, BusModel, ByteReadable, ByteWritable};
use decoder::{spec_decode, OpCodeDecoder};
use instruction::{spec_number_of_operands, AddressingMode, InstructionType, OpCode, Operand};
use registers::{ProgramCounter, Registers};
use status_register::StatusRegister;

verus! {

/// Why a single-step call failed.
#[derive(Clone, Copy, Debug, PartialEq, Eq, Structural)]
pub enum CpuError {
    /// The opcode byte has no table entry. Recoverable at the driver level;
    /// the byte and its fetch address are reported.
    DecodeFailure { opcode: u8, addr: BusAddr },
    /// The opcode decodes, but the execution engine has no handler for the
    /// mnemonic yet.
    UnimplementedInstruction { instruction_type: InstructionType },
    /// The operand variant is incompatible with the instruction's
    /// addressing mode. An internal contract violation between the opcode
    /// table and the resolver; it cannot arise from a decoded opcode.
    OperandShapeMismatch { instruction_type: InstructionType, addressing_mode: AddressingMode },
}

/// The CPU model: the register file plus the observable bus state.
#[verifier::ext_equal]
pub ghost struct CpuModel {
    pub regs: Registers,
    pub bus: BusModel,
}

/// The 16-bit value `n` reduced into program-counter range.
pub open spec fn wrap16(n: int) -> u16
    recommends
        n >= 0,
{
    (n % 0x10000) as u16
}

/// The little-endian 16-bit value with low byte `lo` and high byte `hi`.
pub open spec fn spec_word(lo: u8, hi: u8) -> u16 {
    (hi * 256 + lo) as u16
}

/// Whether bit 7 of the value is set: the sign bit of the 6502's
/// two's-complement view of a byte.
pub open spec fn spec_is_negative(value: u8) -> bool {
    value >= 0x80
}

/// Bit 7 of the value, read as the two's-complement sign.
pub fn is_negative(value: u8) -> (r: bool)
    ensures
        r == spec_is_negative(value),
{
    proof {
        assert((value & 0x80 != 0) == (value >= 0x80)) by (bit_vector);
    }
    value & 0x80 != 0
}

/// Whether the value is zero.
pub fn is_zero(value: u8) -> (r: bool)
    ensures
        r == (value == 0),
{
    value == 0
}

/// The instruction-execution core: the register file wired to the bus it
/// exclusively owns.
pub struct CPU {
    pub registers: Registers,
    pub bus: Bus,
}

impl View for CPU {
    type V = CpuModel;

    open spec fn view(&self) -> CpuModel {
        CpuModel { regs: self.registers, bus: self.bus@ }
    }
}

/// The 8-bit value `n` reduced into byte range: zero-page arithmetic wraps
/// within page 0.
pub open spec fn wrap8(n: int) -> u8
    recommends
        n >= 0,
{
    (n % 0x100) as u8
}

/// The byte the model reads at a bus address.
pub open spec fn spec_mem(m: CpuModel, addr: BusAddr) -> u8 {
    spec_bus_read(m.bus, addr)
}

/// The model after the program counter is replaced.
pub open spec fn spec_with_pc(m: CpuModel, pc: u16) -> CpuModel {
    CpuModel { regs: Registers { pc, ..m.regs }, ..m }
}

/// The operand the resolver produces when the program counter of `m` points
/// at the first trailing instruction byte. Per-mode rules, with the
/// hardware's intentional wraparound:
/// - zero-page indexing wraps within page 0;
/// - the pointer fetches of the indirect modes wrap their high-byte read at
///   the zero-page (or, for `AbsoluteIndirect`, the pointer-page) boundary;
/// - `Relative` treats offsets at `0x80` and above as negative (offset minus
///   256) from the address just past the operand byte;
/// - the absolute indexed modes add the index register in 16-bit arithmetic.
pub open spec fn spec_operand(m: CpuModel, mode: AddressingMode) -> Option<Operand> {
    let pc = m.regs.pc;
    match mode {
        AddressingMode::Implied => None,
        AddressingMode::Accumulator => None,
        AddressingMode::Immediate => Some(Operand::Immediate(spec_mem(m, pc))),
        AddressingMode::Absolute => Some(
            Operand::Address(spec_word(spec_mem(m, pc), spec_mem(m, wrap16(pc + 1)))),
        ),
        AddressingMode::ZeroPage => Some(Operand::Address(spec_mem(m, pc) as u16)),
        AddressingMode::ZeroPageX => Some(
            Operand::Address(wrap8(spec_mem(m, pc) + m.regs.x) as u16),
        ),
        AddressingMode::ZeroPageY => Some(
            Operand::Address(wrap8(spec_mem(m, pc) + m.regs.y) as u16),
        ),
        AddressingMode::AbsoluteX => Some(
            Operand::Address(
                wrap16(spec_word(spec_mem(m, pc), spec_mem(m, wrap16(pc + 1))) + m.regs.x),
            ),
        ),
        AddressingMode::AbsoluteY => Some(
            Operand::Address(
                wrap16(spec_word(spec_mem(m, pc), spec_mem(m, wrap16(pc + 1))) + m.regs.y),
            ),
        ),
        AddressingMode::Relative => {
            let offset = spec_mem(m, pc);
            let base = wrap16(pc + 1);
            if offset < 0x80 {
                Some(Operand::Address(wrap16(base + offset)))
            } else {
                // The documented adjustment by -256, performed modulo 2^16.
                Some(Operand::Address(wrap16(base + offset + 0xFF00)))
            }
        },
        AddressingMode::IndexedIndirect => {
            let ptr = wrap8(spec_mem(m, pc) + m.regs.x);
            Some(
                Operand::Address(
                    spec_word(spec_mem(m, ptr as u16), spec_mem(m, wrap8(ptr + 1) as u16)),
                ),
            )
        },
        AddressingMode::IndirectIndexed => {
            let zp = spec_mem(m, pc);
            let base = spec_word(spec_mem(m, zp as u16), spec_mem(m, wrap8(zp + 1) as u16));
            Some(Operand::Address(wrap16(base + m.regs.y)))
        },
        AddressingMode::AbsoluteIndirect => {
            let ptr_lo = spec_mem(m, pc);
            let ptr_hi = spec_mem(m, wrap16(pc + 1));
            // The page-boundary quirk: the high byte is fetched from within
            // the pointer's own 256-byte page, not from pointer + 1.
            let lo = spec_mem(m, spec_word(ptr_lo, ptr_hi));
            let hi = spec_mem(m, spec_word(wrap8(ptr_lo + 1), ptr_hi));
            Some(Operand::Address(spec_word(lo, hi)))
        },
    }
}

/// The status flags after a value lands in a register: `zero` iff the value
/// is zero, `negative` iff its bit 7 is set, each derived independently.
pub open spec fn spec_nz(p: StatusRegister, value: u8) -> StatusRegister {
    StatusRegister { zero: value == 0, negative: spec_is_negative(value), ..p }
}

/// Saturating 8-bit increment: `0xFF` stays `0xFF`.
pub open spec fn spec_saturating_inc(value: u8) -> u8 {
    if value == 0xFF {
        0xFF
    } else {
        (value + 1) as u8
    }
}

/// Saturating 8-bit decrement: `0` stays `0`.
pub open spec fn spec_saturating_dec(value: u8) -> u8 {
    if value == 0 {
        0
    } else {
        (value - 1) as u8
    }
}

/// The operand-shape error for an instruction.
pub open spec fn spec_shape_err(op: OpCode) -> CpuError {
    CpuError::OperandShapeMismatch {
        instruction_type: op.instruction_type,
        addressing_mode: op.addressing_mode,
    }
}

/// The byte an instruction that reads data sees: the immediate value when
/// the mode is `Immediate`, otherwise the byte at the resolved address.
/// `None` marks an operand variant incompatible with the mode.
pub open spec fn spec_read_data(m: CpuModel, op: OpCode, operand: Option<Operand>) -> Option<u8> {
    if op.addressing_mode == AddressingMode::Immediate {
        match operand {
            Some(Operand::Immediate(d)) => Some(d),
            _ => None,
        }
    } else {
        match operand {
            Some(Operand::Address(a)) => Some(spec_mem(m, a)),
            _ => None,
        }
    }
}

/// The model after a value lands in the accumulator, with the flags.
pub open spec fn spec_load_a(m: CpuModel, value: u8) -> CpuModel {
    CpuModel { regs: Registers { a: value, p: spec_nz(m.regs.p, value), ..m.regs }, ..m }
}

/// The model after a value lands in the X register, with the flags.
pub open spec fn spec_load_x(m: CpuModel, value: u8) -> CpuModel {
    CpuModel { regs: Registers { x: value, p: spec_nz(m.regs.p, value), ..m.regs }, ..m }
}

/// The model after a value lands in the Y register, with the flags.
pub open spec fn spec_load_y(m: CpuModel, value: u8) -> CpuModel {
    CpuModel { regs: Registers { y: value, p: spec_nz(m.regs.p, value), ..m.regs }, ..m }
}

/// The model after one status flag is replaced.
pub open spec fn spec_with_p(m: CpuModel, p: StatusRegister) -> CpuModel {
    CpuModel { regs: Registers { p, ..m.regs }, ..m }
}

/// A store-class instruction: the model after the byte is written at the
/// resolved address, or the shape error.
pub open spec fn spec_store_op(m: CpuModel, op: OpCode, operand: Option<Operand>, value: u8) -> (
    Result<(), CpuError>,
    CpuModel,
) {
    match operand {
        Some(Operand::Address(a)) => (
            Ok(()),
            CpuModel { bus: crate::bus::spec_bus_write(m.bus, a, value), ..m },
        ),
        _ => (Err(spec_shape_err(op)), m),
    }
}

/// A branch: when the tested flag has the required polarity the program
/// counter moves to the resolved address; otherwise the program counter
/// already points past the operand and nothing changes.
pub open spec fn spec_branch_op(m: CpuModel, op: OpCode, operand: Option<Operand>, cond: bool) -> (
    Result<(), CpuError>,
    CpuModel,
) {
    if cond {
        match operand {
            Some(Operand::Address(a)) => (Ok(()), spec_with_pc(m, a)),
            _ => (Err(spec_shape_err(op)), m),
        }
    } else {
        (Ok(()), m)
    }
}

/// `ADC`: 9-bit addition of accumulator, operand byte, and incoming carry.
/// `carry` is the 9th bit; `overflow` follows the sign rule — set exactly
/// when the operand and the accumulator share a sign and the truncated
/// result's sign differs from it; `zero` and `negative` come from the
/// truncated result, which lands in the accumulator.
pub open spec fn spec_adc(m: CpuModel, data: u8) -> CpuModel {
    let a = m.regs.a;
    let sum = a + data + (if m.regs.p.carry {
        1int
    } else {
        0int
    });
    let result = (sum % 256) as u8;
    let overflow = (spec_is_negative(a) == spec_is_negative(data)) && (spec_is_negative(a)
        != spec_is_negative(result));
    CpuModel {
        regs: Registers {
            a: result,
            p: StatusRegister {
                overflow,
                carry: sum > 0xFF,
                zero: result == 0,
                negative: spec_is_negative(result),
                ..m.regs.p
            },
            ..m.regs
        },
        ..m
    }
}

/// The execution engine's semantics: what one decoded instruction, with the
/// operand the resolver produced, does to the registers, flags, and bus.
/// The result carries the step outcome; on an error the model is unchanged —
/// an unimplemented mnemonic or a mismatched operand never mutates partial
/// state.
pub open spec fn spec_execute(m: CpuModel, op: OpCode, operand: Option<Operand>) -> (
    Result<(), CpuError>,
    CpuModel,
) {
    let regs = m.regs;
    let p = regs.p;
    match op.instruction_type {
        InstructionType::NOP => (Ok(()), m),
        InstructionType::LDA => match spec_read_data(m, op, operand) {
            Some(d) => (Ok(()), spec_load_a(m, d)),
            None => (Err(spec_shape_err(op)), m),
        },
        InstructionType::LDX => match spec_read_data(m, op, operand) {
            Some(d) => (Ok(()), spec_load_x(m, d)),
            None => (Err(spec_shape_err(op)), m),
        },
        InstructionType::LDY => match spec_read_data(m, op, operand) {
            Some(d) => (Ok(()), spec_load_y(m, d)),
            None => (Err(spec_shape_err(op)), m),
        },
        InstructionType::STA => spec_store_op(m, op, operand, regs.a),
        InstructionType::STX => spec_store_op(m, op, operand, regs.x),
        InstructionType::STY => spec_store_op(m, op, operand, regs.y),
        InstructionType::CLC => (Ok(()), spec_with_p(m, StatusRegister { carry: false, ..p })),
        InstructionType::SEC => (Ok(()), spec_with_p(m, StatusRegister { carry: true, ..p })),
        InstructionType::CLI => (Ok(()), spec_with_p(m, StatusRegister { irq_disable: false, ..p })),
        InstructionType::SEI => (Ok(()), spec_with_p(m, StatusRegister { irq_disable: true, ..p })),
        InstructionType::CLD => (
            Ok(()),
            spec_with_p(m, StatusRegister { decimal_mode: false, ..p }),
        ),
        InstructionType::SED => (Ok(()), spec_with_p(m, StatusRegister { decimal_mode: true, ..p })),
        InstructionType::CLV => (Ok(()), spec_with_p(m, StatusRegister { overflow: false, ..p })),
        InstructionType::BCC => spec_branch_op(m, op, operand, !p.carry),
        InstructionType::BCS => spec_branch_op(m, op, operand, p.carry),
        InstructionType::BEQ => spec_branch_op(m, op, operand, p.zero),
        InstructionType::BNE => spec_branch_op(m, op, operand, !p.zero),
        InstructionType::BVC => spec_branch_op(m, op, operand, !p.overflow),
        InstructionType::BVS => spec_branch_op(m, op, operand, p.overflow),
        InstructionType::BPL => spec_branch_op(m, op, operand, !p.negative),
        InstructionType::BMI => spec_branch_op(m, op, operand, p.negative),
        InstructionType::TAX => (Ok(()), spec_load_x(m, regs.a)),
        InstructionType::TXA => (Ok(()), spec_load_a(m, regs.x)),
        InstructionType::TAY => (Ok(()), spec_load_y(m, regs.a)),
        InstructionType::TYA => (Ok(()), spec_load_a(m, regs.y)),
        InstructionType::TSX => (Ok(()), spec_load_x(m, regs.s)),
        InstructionType::TXS => (
            // The one transfer that touches no flag: the stack pointer takes
            // the X register.
            Ok(()),
            CpuModel { regs: Registers { s: regs.x, ..regs }, ..m },
        ),
        InstructionType::INX => (Ok(()), spec_load_x(m, spec_saturating_inc(regs.x))),
        InstructionType::INY => (Ok(()), spec_load_y(m, spec_saturating_inc(regs.y))),
        InstructionType::DEX => (Ok(()), spec_load_x(m, spec_saturating_dec(regs.x))),
        InstructionType::DEY => (Ok(()), spec_load_y(m, spec_saturating_dec(regs.y))),
        InstructionType::AND => match spec_read_data(m, op, operand) {
            Some(d) => (Ok(()), spec_load_a(m, d & regs.a)),
            None => (Err(spec_shape_err(op)), m),
        },
        InstructionType::ORA => match spec_read_data(m, op, operand) {
            Some(d) => (Ok(()), spec_load_a(m, d | regs.a)),
            None => (Err(spec_shape_err(op)), m),
        },
        InstructionType::EOR => match spec_read_data(m, op, operand) {
            Some(d) => (Ok(()), spec_load_a(m, d ^ regs.a)),
            None => (Err(spec_shape_err(op)), m),
        },
        InstructionType::ADC => match spec_read_data(m, op, operand) {
            Some(d) => (Ok(()), spec_adc(m, d)),
            None => (Err(spec_shape_err(op)), m),
        },
        InstructionType::JMP => {
            match operand {
                Some(Operand::Address(a)) => (Ok(()), spec_with_pc(m, a)),
                _ => (Err(spec_shape_err(op)), m),
            }
        },
        _ => (
            Err(
                CpuError::UnimplementedInstruction {
                    instruction_type: op.instruction_type,
                },
            ),
            m,
        ),
    }
}

/// One fetch-decode-execute cycle over the model. The opcode byte is read
/// at the program counter, which advances past it; an undefined byte stops
/// the step there with a decode failure naming the byte and its fetch
/// address. Otherwise the resolver consumes the mode's operand bytes and the
/// execution engine runs on the state whose program counter already points
/// at the next instruction.
pub open spec fn spec_step(m: CpuModel) -> (Result<(), CpuError>, CpuModel) {
    let byte = spec_mem(m, m.regs.pc);
    let m1 = spec_with_pc(m, wrap16(m.regs.pc + 1));
    match spec_decode(byte) {
        None => (Err(CpuError::DecodeFailure { opcode: byte, addr: m.regs.pc }), m1),
        Some(op) => {
            let operand = spec_operand(m1, op.addressing_mode);
            let m2 = spec_with_pc(
                m1,
                wrap16(m1.regs.pc + spec_number_of_operands(op.addressing_mode)),
            );
            spec_execute(m2, op, operand)
        },
    }
}

/// The operand variant an addressing mode implies: an immediate for
/// `Immediate`, nothing for `Implied` and `Accumulator`, an address for
/// every other mode.
pub open spec fn spec_operand_shape(operand: Option<Operand>, mode: AddressingMode) -> bool {
    match mode {
        AddressingMode::Immediate => operand matches Some(Operand::Immediate(_)),
        AddressingMode::Implied => operand is None,
        AddressingMode::Accumulator => operand is None,
        _ => operand matches Some(Operand::Address(_)),
    }
}

/// The resolver always produces the operand variant its mode implies.
pub proof fn lemma_operand_shape(m: CpuModel, mode: AddressingMode)
    ensures
        spec_operand_shape(spec_operand(m, mode), mode),
{
}

/// A (mnemonic, mode) pair the execution engine can take without a shape
/// mismatch: the instructions that read a byte never come with an
/// operand-less mode, and the stores, jumps, and branches never come with an
/// operand-less or immediate mode.
pub open spec fn spec_pair_consistent(op: OpCode) -> bool {
    let mode = op.addressing_mode;
    match op.instruction_type {
        InstructionType::LDA
        | InstructionType::LDX
        | InstructionType::LDY
        | InstructionType::AND
        | InstructionType::ORA
        | InstructionType::EOR
        | InstructionType::ADC => !(mode is Implied) && !(mode is Accumulator),
        InstructionType::STA
        | InstructionType::STX
        | InstructionType::STY
        | InstructionType::JMP
        | InstructionType::BCC
        | InstructionType::BCS
        | InstructionType::BEQ
        | InstructionType::BNE
        | InstructionType::BVC
        | InstructionType::BVS
        | InstructionType::BPL
        | InstructionType::BMI => !(mode is Implied) && !(mode is Accumulator) && !(mode
            is Immediate),
        _ => true,
    }
}

/// Every pair in the opcode table is consistent in the sense of
/// `spec_pair_consistent`.
#[verifier::rlimit(100)]
#[verifier::spinoff_prover]
pub proof fn lemma_decode_pairs_consistent(byte: u8)
    ensures
        spec_decode(byte) matches Some(op) ==> spec_pair_consistent(op),
{
}

/// The execution engine never reports a shape mismatch for a consistent
/// pair whose operand has the variant the mode implies.
#[verifier::rlimit(100)]
#[verifier::spinoff_prover]
pub proof fn lemma_execute_no_shape_mismatch(m: CpuModel, op: OpCode, operand: Option<Operand>)
    requires
        spec_pair_consistent(op),
        spec_operand_shape(operand, op.addressing_mode),
    ensures
        !(spec_execute(m, op, operand).0 matches Err(CpuError::OperandShapeMismatch { .. })),
{
}

/// A whole step never reports a shape mismatch: the opcode table, the
/// resolver, and the execution engine agree on operand shapes, so the
/// internal-contract error cannot arise from a decoded instruction stream.
pub proof fn lemma_step_no_shape_mismatch(m: CpuModel)
    ensures
        !(spec_step(m).0 matches Err(CpuError::OperandShapeMismatch { .. })),
{
    let byte = spec_mem(m, m.regs.pc);
    lemma_decode_pairs_consistent(byte);
    match spec_decode(byte) {
        None => {},
        Some(op) => {
            let m1 = spec_with_pc(m, wrap16(m.regs.pc + 1));
            let m2 = spec_with_pc(
                m1,
                wrap16(m1.regs.pc + spec_number_of_operands(op.addressing_mode)),
            );
            lemma_operand_shape(m1, op.addressing_mode);
            lemma_execute_no_shape_mismatch(m2, op, spec_operand(m1, op.addressing_mode));
        },
    }
}

/// The implied-operand instructions leave the reserved flag as it was.
#[verifier::rlimit(100)]
#[verifier::spinoff_prover]
proof fn lemma_implied_preserves_reserved(m: CpuModel, op: OpCode, operand: Option<Operand>)
    requires
        op.instruction_type is NOP || op.instruction_type is CLC || op.instruction_type is SEC
            || op.instruction_type is CLI || op.instruction_type is SEI || op.instruction_type
            is CLD || op.instruction_type is SED || op.instruction_type is CLV
            || op.instruction_type is TAX || op.instruction_type is TXA || op.instruction_type
            is TAY || op.instruction_type is TYA || op.instruction_type is TSX
            || op.instruction_type is TXS || op.instruction_type is INX || op.instruction_type
            is INY || op.instruction_type is DEX || op.instruction_type is DEY,
    ensures
        spec_execute(m, op, operand).1.regs.p.reserved == m.regs.p.reserved,
{
}

/// The instructions that read a byte leave the reserved flag as it was.
#[verifier::rlimit(100)]
#[verifier::spinoff_prover]
proof fn lemma_read_preserves_reserved(m: CpuModel, op: OpCode, operand: Option<Operand>)
    requires
        op.instruction_type is LDA || op.instruction_type is LDX || op.instruction_type is LDY
            || op.instruction_type is AND || op.instruction_type is ORA || op.instruction_type
            is EOR || op.instruction_type is ADC,
    ensures
        spec_execute(m, op, operand).1.regs.p.reserved == m.regs.p.reserved,
{
}

/// The branches, stores, and jumps leave the reserved flag as it was.
#[verifier::rlimit(100)]
#[verifier::spinoff_prover]
proof fn lemma_control_preserves_reserved(m: CpuModel, op: OpCode, operand: Option<Operand>)
    requires
        op.instruction_type is BCC || op.instruction_type is BCS || op.instruction_type is BEQ
            || op.instruction_type is BNE || op.instruction_type is BVC || op.instruction_type
            is BVS || op.instruction_type is BPL || op.instruction_type is BMI
            || op.instruction_type is STA || op.instruction_type is STX || op.instruction_type
            is STY || op.instruction_type is JMP,
    ensures
        spec_execute(m, op, operand).1.regs.p.reserved == m.regs.p.reserved,
{
}

/// No instruction touches the reserved flag: the execution engine leaves it
/// exactly as it was, and an unimplemented mnemonic changes nothing at all.
#[verifier::rlimit(100)]
#[verifier::spinoff_prover]
pub proof fn lemma_execute_preserves_reserved(m: CpuModel, op: OpCode, operand: Option<Operand>)
    ensures
        spec_execute(m, op, operand).1.regs.p.reserved == m.regs.p.reserved,
{
    match op.instruction_type {
        InstructionType::LDA
        | InstructionType::LDX
        | InstructionType::LDY
        | InstructionType::AND
        | InstructionType::ORA
        | InstructionType::EOR
        | InstructionType::ADC => lemma_read_preserves_reserved(m, op, operand),
        InstructionType::BCC
        | InstructionType::BCS
        | InstructionType::BEQ
        | InstructionType::BNE
        | InstructionType::BVC
        | InstructionType::BVS
        | InstructionType::BPL
        | InstructionType::BMI
        | InstructionType::STA
        | InstructionType::STX
        | InstructionType::STY
        | InstructionType::JMP => lemma_control_preserves_reserved(m, op, operand),
        InstructionType::NOP
        | InstructionType::CLC
        | InstructionType::SEC
        | InstructionType::CLI
        | InstructionType::SEI
        | InstructionType::CLD
        | InstructionType::SED
        | InstructionType::CLV
        | InstructionType::TAX
        | InstructionType::TXA
        | InstructionType::TAY
        | InstructionType::TYA
        | InstructionType::TSX
        | InstructionType::TXS
        | InstructionType::INX
        | InstructionType::INY
        | InstructionType::DEX
        | InstructionType::DEY => lemma_implied_preserves_reserved(m, op, operand),
        _ => {
            assert(spec_execute(m, op, operand).1 == m);
        },
    }
}

/// A whole step preserves the reserved flag: reset forces it true and no
/// instruction changes it afterwards.
pub proof fn lemma_step_preserves_reserved(m: CpuModel)
    ensures
        spec_step(m).1.regs.p.reserved == m.regs.p.reserved,
{
    let byte = spec_mem(m, m.regs.pc);
    match spec_decode(byte) {
        None => {},
        Some(op) => {
            let m1 = spec_with_pc(m, wrap16(m.regs.pc + 1));
            let m2 = spec_with_pc(
                m1,
                wrap16(m1.regs.pc + spec_number_of_operands(op.addressing_mode)),
            );
            lemma_execute_preserves_reserved(m2, op, spec_operand(m1, op.addressing_mode));
        },
    }
}

impl CPU {
    pub fn new(bus: Bus) -> (r: Self)
        ensures
            r@.regs == Registers::spec_initial(),
            r@.bus == bus@,
    {
        Self { registers: Registers::new(), bus }
    }

    /// Power-on: clears the register file, then loads the program counter
    /// from the RESET vector.
    pub fn boot(&mut self)
        ensures
            final(self)@.bus == old(self)@.bus,
            final(self)@.regs == (Registers {
                pc: spec_word(
                    spec_mem(old(self)@, 0xFFFC),
                    spec_mem(old(self)@, 0xFFFD),
                ),
                ..Registers::spec_initial()
            }),
    {
        self.registers.reset();
        let pc = self.reset_interrupt_pc();
        self.registers.set_pc(pc);
    }

    /// Reset: identical to power-on — clears the register file and re-homes
    /// the program counter from the RESET vector.
    pub fn reset(&mut self)
        ensures
            final(self)@.bus == old(self)@.bus,
            final(self)@.regs == (Registers {
                pc: spec_word(
                    spec_mem(old(self)@, 0xFFFC),
                    spec_mem(old(self)@, 0xFFFD),
                ),
                ..Registers::spec_initial()
            }),
    {
        self.registers.reset();
        let pc = self.reset_interrupt_pc();
        self.registers.set_pc(pc);
    }

    /// Reads the byte at the program counter, then advances the program
    /// counter by one (wrapping at `0xFFFF`).
    pub fn fetch(&mut self) -> (r: u8)
        ensures
            r == spec_mem(old(self)@, old(self)@.regs.pc),
            final(self)@ == spec_with_pc(old(self)@, wrap16(old(self)@.regs.pc + 1)),
    {
        let byte = self.bus.read_byte(self.registers.pc);
        self.registers.advance_pc();

        byte
    }

    /// Resolves the operand for an addressing mode, consuming the mode's
    /// trailing instruction bytes (each read at the program counter, which
    /// then advances) and issuing the indirect modes' extra bus reads. Total:
    /// every mode resolves; the bus is never written.
    #[verifier::rlimit(100)]
    #[verifier::spinoff_prover]
    pub fn fetch_operand(&mut self, addressing_mode: AddressingMode) -> (r: Option<Operand>)
        ensures
            r == spec_operand(old(self)@, addressing_mode),
            final(self)@ == spec_with_pc(
                old(self)@,
                wrap16(old(self)@.regs.pc + spec_number_of_operands(addressing_mode)),
            ),
    {
        match addressing_mode {
            AddressingMode::Implied => None,
            AddressingMode::Accumulator => None,
            AddressingMode::Immediate => {
                let data = self.fetch();
                Some(Operand::Immediate(data))
            },
            AddressingMode::Absolute => {
                let lower_half_addr = self.fetch();
                let upper_half_addr = self.fetch();
                let addr = (upper_half_addr as u16) * 256 + (lower_half_addr as u16);

                Some(Operand::Address(addr))
            },
            AddressingMode::ZeroPage => {
                let lower_half_addr = self.fetch();
                let addr = lower_half_addr as u16;

                Some(Operand::Address(addr))
            },
            AddressingMode::ZeroPageX => {
                let lower_half_addr = self.fetch();
                let addr = lower_half_addr.wrapping_add(self.registers.x) as u16;

                Some(Operand::Address(addr))
            },
            AddressingMode::ZeroPageY => {
                let lower_half_addr = self.fetch();
                let addr = lower_half_addr.wrapping_add(self.registers.y) as u16;

                Some(Operand::Address(addr))
            },
            AddressingMode::AbsoluteX => {
                let lower_half_addr = self.fetch();
                let upper_half_addr = self.fetch();
                let base = (upper_half_addr as u16) * 256 + (lower_half_addr as u16);
                let addr = base.wrapping_add(self.registers.x as u16);

                Some(Operand::Address(addr))
            },
            AddressingMode::AbsoluteY => {
                let lower_half_addr = self.fetch();
                let upper_half_addr = self.fetch();
                let base = (upper_half_addr as u16) * 256 + (lower_half_addr as u16);
                let addr = base.wrapping_add(self.registers.y as u16);

                Some(Operand::Address(addr))
            },
            AddressingMode::Relative => {
                let offset = self.fetch();
                let next_pc = self.registers.pc;
                let addr: u16;
                if offset < 0x80 {
                    addr = next_pc.wrapping_add(offset as u16);
                } else {
                    addr = (((next_pc as u32) + (offset as u32) + 0xFF00) % 0x10000) as u16;
                }

                Some(Operand::Address(addr))
            },
            AddressingMode::IndexedIndirect => {
                let lower_half_addr = self.fetch();
                let base_addr = lower_half_addr.wrapping_add(self.registers.x);
                let base_addr_byte = self.bus.read_byte(base_addr as u16);
                let next_addr_byte = self.bus.read_byte(base_addr.wrapping_add(1) as u16);
                let addr = (next_addr_byte as u16) * 256 + (base_addr_byte as u16);

                Some(Operand::Address(addr))
            },
            AddressingMode::IndirectIndexed => {
                let lower_half_addr = self.fetch();
                let base_addr_byte = self.bus.read_byte(lower_half_addr as u16);
                let next_byte = self.bus.read_byte(lower_half_addr.wrapping_add(1) as u16);
                let base_addr = (next_byte as u16) * 256 + (base_addr_byte as u16);
                let addr = base_addr.wrapping_add(self.registers.y as u16);

                Some(Operand::Address(addr))
            },
            AddressingMode::AbsoluteIndirect => {
                let lower_half_addr = self.fetch();
                let upper_half_addr = self.fetch();
                let base_addr = (upper_half_addr as u16) * 256 + (lower_half_addr as u16);
                let base_addr_byte = self.bus.read_byte(base_addr);
                let next_addr = (upper_half_addr as u16) * 256 + (lower_half_addr.wrapping_add(1)
                    as u16);
                let next_addr_byte = self.bus.read_byte(next_addr);

                let addr = (next_addr_byte as u16) * 256 + (base_addr_byte as u16);

                Some(Operand::Address(addr))
            },
        }
    }

    /// Fetches and decodes the opcode byte at the program counter, which
    /// advances past it. An undefined byte is a recoverable failure
    /// reporting the byte and its fetch address.
    pub fn fetch_opcode(&mut self) -> (r: Result<OpCode, CpuError>)
        ensures
            final(self)@ == spec_with_pc(old(self)@, wrap16(old(self)@.regs.pc + 1)),
            ({
                let byte = spec_mem(old(self)@, old(self)@.regs.pc);
                match spec_decode(byte) {
                    Some(op) => r == Ok::<OpCode, CpuError>(op),
                    None => r == Err::<OpCode, CpuError>(
                        CpuError::DecodeFailure { opcode: byte, addr: old(self)@.regs.pc },
                    ),
                }
            }),
    {
        let addr = self.registers.pc;
        let opcode_byte = self.fetch();
        match OpCodeDecoder::decode(opcode_byte) {
            Some(op) => Ok(op),
            None => Err(CpuError::DecodeFailure { opcode: opcode_byte, addr }),
        }
    }

    /// One fetch-decode-execute cycle: fetches and decodes the opcode,
    /// resolves the operand, and executes, leaving the state `spec_step`
    /// defines. Exactly the decode failures are recoverable; the
    /// instruction's side effects are visible to the next call in the order
    /// issued.
    pub fn run_single_cycle(&mut self) -> (r: Result<(), CpuError>)
        ensures
            r == spec_step(old(self)@).0,
            final(self)@ == spec_step(old(self)@).1,
    {
        let opcode = match self.fetch_opcode() {
            Ok(op) => op,
            Err(e) => {
                return Err(e);
            },
        };
        let operand = self.fetch_operand(opcode.addressing_mode);
        self.execute(opcode, operand)
    }

    /// Reads the byte an instruction consumes: the immediate value when the
    /// mode is `Immediate`, otherwise the byte at the resolved address; a
    /// mismatched operand variant is rejected with the shape error.
    fn read_data(&self, op_code: OpCode, operand: Option<Operand>) -> (r: Result<u8, CpuError>)
        ensures
            match spec_read_data(self@, op_code, operand) {
                Some(d) => r == Ok::<u8, CpuError>(d),
                None => r == Err::<u8, CpuError>(spec_shape_err(op_code)),
            },
    {
        if op_code.addressing_mode == AddressingMode::Immediate {
            match operand {
                Some(Operand::Immediate(d)) => Ok(d),
                _ => Err(
                    CpuError::OperandShapeMismatch {
                        instruction_type: op_code.instruction_type,
                        addressing_mode: op_code.addressing_mode,
                    },
                ),
            }
        } else {
            match operand {
                Some(Operand::Address(a)) => Ok(self.bus.read_byte(a)),
                _ => Err(
                    CpuError::OperandShapeMismatch {
                        instruction_type: op_code.instruction_type,
                        addressing_mode: op_code.addressing_mode,
                    },
                ),
            }
        }
    }

    /// Stores a register byte at the operand's resolved address; a
    /// mismatched operand variant is rejected with the shape error.
    fn store_data(&mut self, op_code: OpCode, operand: Option<Operand>, value: u8) -> (r: Result<
        (),
        CpuError,
    >)
        ensures
            r == spec_store_op(old(self)@, op_code, operand, value).0,
            final(self)@ == spec_store_op(old(self)@, op_code, operand, value).1,
    {
        match operand {
            Some(Operand::Address(a)) => {
                self.bus.write_byte(a, value);
                Ok(())
            },
            _ => Err(
                CpuError::OperandShapeMismatch {
                    instruction_type: op_code.instruction_type,
                    addressing_mode: op_code.addressing_mode,
                },
            ),
        }
    }

    /// Takes a branch whose flag test passed: the program counter moves to
    /// the operand's resolved address; a mismatched operand variant is
    /// rejected with the shape error.
    fn take_branch(&mut self, op_code: OpCode, operand: Option<Operand>) -> (r: Result<
        (),
        CpuError,
    >)
        ensures
            r == spec_branch_op(old(self)@, op_code, operand, true).0,
            final(self)@ == spec_branch_op(old(self)@, op_code, operand, true).1,
    {
        match operand {
            Some(Operand::Address(a)) => {
                self.branch(a);
                Ok(())
            },
            _ => Err(
                CpuError::OperandShapeMismatch {
                    instruction_type: op_code.instruction_type,
                    addressing_mode: op_code.addressing_mode,
                },
            ),
        }
    }

    /// Writes a value into the accumulator and derives the zero and
    /// negative flags from it.
    fn set_a_nz(&mut self, value: u8)
        ensures
            final(self)@ == spec_load_a(old(self)@, value),
    {
        self.registers.a = value;
        let neg = is_negative(value);
        self.registers.p.set_negative(neg);
        let z = is_zero(value);
        self.registers.p.set_zero(z);
    }

    /// Writes a value into the X register and derives the zero and negative
    /// flags from it.
    fn set_x_nz(&mut self, value: u8)
        ensures
            final(self)@ == spec_load_x(old(self)@, value),
    {
        self.registers.x = value;
        let neg = is_negative(value);
        self.registers.p.set_negative(neg);
        let z = is_zero(value);
        self.registers.p.set_zero(z);
    }

    /// Writes a value into the Y register and derives the zero and negative
    /// flags from it.
    fn set_y_nz(&mut self, value: u8)
        ensures
            final(self)@ == spec_load_y(old(self)@, value),
    {
        self.registers.y = value;
        let neg = is_negative(value);
        self.registers.p.set_negative(neg);
        let z = is_zero(value);
        self.registers.p.set_zero(z);
    }

    /// The implied-operand instructions: flag controls, register
    /// transfers, the saturating increments and decrements, and `NOP`.
    #[verifier::rlimit(100)]
    #[verifier::spinoff_prover]
    fn execute_implied(&mut self, op_code: OpCode, operand: Option<Operand>) -> (r: Result<
        (),
        CpuError,
    >)
        requires
            op_code.instruction_type is NOP || op_code.instruction_type is CLC
                || op_code.instruction_type is SEC || op_code.instruction_type is CLI
                || op_code.instruction_type is SEI || op_code.instruction_type is CLD
                || op_code.instruction_type is SED || op_code.instruction_type is CLV
                || op_code.instruction_type is TAX || op_code.instruction_type is TXA
                || op_code.instruction_type is TAY || op_code.instruction_type is TYA
                || op_code.instruction_type is TSX || op_code.instruction_type is TXS
                || op_code.instruction_type is INX || op_code.instruction_type is INY
                || op_code.instruction_type is DEX || op_code.instruction_type is DEY,
        ensures
            r == spec_execute(old(self)@, op_code, operand).0,
            final(self)@ == spec_execute(old(self)@, op_code, operand).1,
    {
        match op_code.instruction_type {
            InstructionType::NOP => Ok(()),
            InstructionType::CLC => {
                self.registers.p.set_carry(false);
                Ok(())
            },
            InstructionType::SEC => {
                self.registers.p.set_carry(true);
                Ok(())
            },
            InstructionType::CLI => {
                self.registers.p.set_irq_disable(false);
                Ok(())
            },
            InstructionType::SEI => {
                self.registers.p.set_irq_disable(true);
                Ok(())
            },
            InstructionType::CLD => {
                self.registers.p.set_decimal_mode(false);
                Ok(())
            },
            InstructionType::SED => {
                self.registers.p.set_decimal_mode(true);
                Ok(())
            },
            InstructionType::CLV => {
                self.registers.p.set_overflow(false);
                Ok(())
            },
            InstructionType::TAX => {
                let value = self.registers.a;
                self.set_x_nz(value);
                Ok(())
            },
            InstructionType::TXA => {
                let value = self.registers.x;
                self.set_a_nz(value);
                Ok(())
            },
            InstructionType::TAY => {
                let value = self.registers.a;
                self.set_y_nz(value);
                Ok(())
            },
            InstructionType::TYA => {
                let value = self.registers.y;
                self.set_a_nz(value);
                Ok(())
            },
            InstructionType::TSX => {
                let value = self.registers.s;
                self.set_x_nz(value);
                Ok(())
            },
            InstructionType::TXS => {
                self.registers.s = self.registers.x;
                Ok(())
            },
            InstructionType::INX => {
                let value = self.registers.x.saturating_add(1);
                self.set_x_nz(value);
                Ok(())
            },
            InstructionType::INY => {
                let value = self.registers.y.saturating_add(1);
                self.set_y_nz(value);
                Ok(())
            },
            InstructionType::DEX => {
                let value = self.registers.x.saturating_sub(1);
                self.set_x_nz(value);
                Ok(())
            },
            InstructionType::DEY => {
                let value = self.registers.y.saturating_sub(1);
                self.set_y_nz(value);
                Ok(())
            },
            _ => unreached(),
        }
    }

    /// The instructions that read a byte: the loads, the bitwise logical
    /// operations on the accumulator, and `ADC`.
    #[verifier::rlimit(100)]
    #[verifier::spinoff_prover]
    fn execute_read(&mut self, op_code: OpCode, operand: Option<Operand>) -> (r: Result<
        (),
        CpuError,
    >)
        requires
            op_code.instruction_type is LDA || op_code.instruction_type is LDX
                || op_code.instruction_type is LDY || op_code.instruction_type is AND
                || op_code.instruction_type is ORA || op_code.instruction_type is EOR
                || op_code.instruction_type is ADC,
        ensures
            r == spec_execute(old(self)@, op_code, operand).0,
            final(self)@ == spec_execute(old(self)@, op_code, operand).1,
    {
        let data = match self.read_data(op_code, operand) {
            Ok(d) => d,
            Err(e) => {
                return Err(e);
            },
        };
        match op_code.instruction_type {
            InstructionType::LDA => {
                self.set_a_nz(data);
                Ok(())
            },
            InstructionType::LDX => {
                self.set_x_nz(data);
                Ok(())
            },
            InstructionType::LDY => {
                self.set_y_nz(data);
                Ok(())
            },
            InstructionType::AND => {
                let result = data & self.registers.a;
                self.set_a_nz(result);
                Ok(())
            },
            InstructionType::ORA => {
                let result = data | self.registers.a;
                self.set_a_nz(result);
                Ok(())
            },
            InstructionType::EOR => {
                let result = data ^ self.registers.a;
                self.set_a_nz(result);
                Ok(())
            },
            InstructionType::ADC => {
                let a = self.registers.a;
                let carry_in: u16 = if self.registers.p.carry() {
                    1
                } else {
                    0
                };
                let sum: u16 = (a as u16) + (data as u16) + carry_in;
                let result = (sum % 256) as u8;
                let overflow = (is_negative(a) == is_negative(data)) && (is_negative(a)
                    != is_negative(result));
                self.registers.a = result;
                self.registers.p.set_overflow(overflow);
                self.registers.p.set_carry(sum > 0xFF);
                let neg = is_negative(result);
                self.registers.p.set_negative(neg);
                let z = is_zero(result);
                self.registers.p.set_zero(z);
                Ok(())
            },
            _ => unreached(),
        }
    }

    /// The conditional branches: each tests one flag against its required
    /// polarity and, when it holds, moves the program counter to the
    /// resolved address.
    #[verifier::rlimit(100)]
    #[verifier::spinoff_prover]
    fn execute_branch(&mut self, op_code: OpCode, operand: Option<Operand>) -> (r: Result<
        (),
        CpuError,
    >)
        requires
            op_code.instruction_type is BCC || op_code.instruction_type is BCS
                || op_code.instruction_type is BEQ || op_code.instruction_type is BNE
                || op_code.instruction_type is BVC || op_code.instruction_type is BVS
                || op_code.instruction_type is BPL || op_code.instruction_type is BMI,
        ensures
            r == spec_execute(old(self)@, op_code, operand).0,
            final(self)@ == spec_execute(old(self)@, op_code, operand).1,
    {
        let taken = match op_code.instruction_type {
            InstructionType::BCC => !self.registers.p.carry(),
            InstructionType::BCS => self.registers.p.carry(),
            InstructionType::BEQ => self.registers.p.zero(),
            InstructionType::BNE => !self.registers.p.zero(),
            InstructionType::BVC => !self.registers.p.overflow(),
            InstructionType::BVS => self.registers.p.overflow(),
            InstructionType::BPL => !self.registers.p.negative(),
            InstructionType::BMI => self.registers.p.negative(),
            _ => unreached(),
        };
        if taken {
            self.take_branch(op_code, operand)
        } else {
            Ok(())
        }
    }

    /// The instructions that write the bus or the program counter: the
    /// stores and `JMP`.
    #[verifier::rlimit(100)]
    #[verifier::spinoff_prover]
    fn execute_store_jump(&mut self, op_code: OpCode, operand: Option<Operand>) -> (r: Result<
        (),
        CpuError,
    >)
        requires
            op_code.instruction_type is STA || op_code.instruction_type is STX
                || op_code.instruction_type is STY || op_code.instruction_type is JMP,
        ensures
            r == spec_execute(old(self)@, op_code, operand).0,
            final(self)@ == spec_execute(old(self)@, op_code, operand).1,
    {
        match op_code.instruction_type {
            InstructionType::STA => {
                let value = self.registers.a;
                self.store_data(op_code, operand, value)
            },
            InstructionType::STX => {
                let value = self.registers.x;
                self.store_data(op_code, operand, value)
            },
            InstructionType::STY => {
                let value = self.registers.y;
                self.store_data(op_code, operand, value)
            },
            InstructionType::JMP => {
                match operand {
                    Some(Operand::Address(a)) => {
                        self.registers.set_pc(a);
                        Ok(())
                    },
                    _ => Err(
                        CpuError::OperandShapeMismatch {
                            instruction_type: op_code.instruction_type,
                            addressing_mode: op_code.addressing_mode,
                        },
                    ),
                }
            },
            _ => unreached(),
        }
    }

    /// The execution engine: a total dispatch over the mnemonic. Mutates the
    /// register file and issues the instruction's bus reads and writes; an
    /// unimplemented mnemonic or a mismatched operand is reported without
    /// mutating any state.
    #[verifier::rlimit(100)]
    #[verifier::spinoff_prover]
    pub fn execute(&mut self, op_code: OpCode, operand: Option<Operand>) -> (r: Result<
        (),
        CpuError,
    >)
        ensures
            r == spec_execute(old(self)@, op_code, operand).0,
            final(self)@ == spec_execute(old(self)@, op_code, operand).1,
    {
        match op_code.instruction_type {
            InstructionType::NOP
            | InstructionType::CLC
            | InstructionType::SEC
            | InstructionType::CLI
            | InstructionType::SEI
            | InstructionType::CLD
            | InstructionType::SED
            | InstructionType::CLV
            | InstructionType::TAX
            | InstructionType::TXA
            | InstructionType::TAY
            | InstructionType::TYA
            | InstructionType::TSX
            | InstructionType::TXS
            | InstructionType::INX
            | InstructionType::INY
            | InstructionType::DEX
            | InstructionType::DEY => self.execute_implied(op_code, operand),
            InstructionType::LDA
            | InstructionType::LDX
            | InstructionType::LDY
            | InstructionType::AND
            | InstructionType::ORA
            | InstructionType::EOR
            | InstructionType::ADC => self.execute_read(op_code, operand),
            InstructionType::BCC
            | InstructionType::BCS
            | InstructionType::BEQ
            | InstructionType::BNE
            | InstructionType::BVC
            | InstructionType::BVS
            | InstructionType::BPL
            | InstructionType::BMI => self.execute_branch(op_code, operand),
            InstructionType::STA
            | InstructionType::STX
            | InstructionType::STY
            | InstructionType::JMP => self.execute_store_jump(op_code, operand),
            _ => Err(
                CpuError::UnimplementedInstruction {
                    instruction_type: op_code.instruction_type,
                },
            ),
        }
    }

    /// Sets the program counter to a branch target.
    pub fn branch(&mut self, new_pc: ProgramCounter)
        ensures
            final(self)@ == spec_with_pc(old(self)@, new_pc),
    {
        self.registers.set_pc(new_pc);
    }

    /// The NMI vector: the little-endian pointer at `0xFFFA`/`0xFFFB`.
    pub fn nmi_interrupt_pc(&self) -> (r: ProgramCounter)
        ensures
            r == spec_word(spec_mem(self@, 0xFFFA), spec_mem(self@, 0xFFFB)),
    {
        self.read_interrupt_pc(0xFFFA, 0xFFFB)
    }

    /// The RESET vector: the little-endian pointer at `0xFFFC`/`0xFFFD`.
    pub fn reset_interrupt_pc(&self) -> (r: ProgramCounter)
        ensures
            r == spec_word(spec_mem(self@, 0xFFFC), spec_mem(self@, 0xFFFD)),
    {
        self.read_interrupt_pc(0xFFFC, 0xFFFD)
    }

    /// The IRQ vector: the little-endian pointer at `0xFFFE`/`0xFFFF`.
    pub fn irq_interrupt_pc(&self) -> (r: ProgramCounter)
        ensures
            r == spec_word(spec_mem(self@, 0xFFFE), spec_mem(self@, 0xFFFF)),
    {
        self.read_interrupt_pc(0xFFFE, 0xFFFF)
    }

    /// The BRK vector: the same pointer as IRQ, at `0xFFFE`/`0xFFFF`.
    pub fn brk_interrupt_pc(&self) -> (r: ProgramCounter)
        ensures
            r == spec_word(spec_mem(self@, 0xFFFE), spec_mem(self@, 0xFFFF)),
    {
        self.read_interrupt_pc(0xFFFE, 0xFFFF)
    }

    /// Reads a little-endian 16-bit interrupt vector through the bus.
    pub fn read_interrupt_pc(&self, lower_byte_addr: BusAddr, upper_byte_addr: BusAddr) -> (r:
        ProgramCounter)
        ensures
            r == spec_word(spec_mem(self@, lower_byte_addr), spec_mem(self@, upper_byte_addr)),
    {
        let lower_byte = self.bus.read_byte(lower_byte_addr);
        let upper_byte = self.bus.read_byte(upper_byte_addr);

        let pc: ProgramCounter = (upper_byte as u16) * 256 + (lower_byte as u16);

        pc
    }
}

} // verus!

