//! The opcode matrix: a total map from opcode byte to instruction, addressing
//! mode and base cycle count.

use vstd::prelude::*;

verus! {

/// How an instruction finds its operand.
#[derive(Clone, Copy, Debug, PartialEq, Eq, Structural)]
pub enum AddressingMode {
    /// The operand is the accumulator.
    Accumulator,
    /// A full 16-bit address follows the opcode.
    Absolute,
    /// A 16-bit address plus X.
    AbsoluteX,
    /// A 16-bit address plus Y.
    AbsoluteY,
    /// The operand is the byte after the opcode.
    Immediate,
    /// No operand.
    Implied,
    /// A 16-bit pointer to the target address (jumps only).
    Indirect,
    /// A zero-page pointer, indexed by X before it is followed.
    IndirectX,
    /// A zero-page pointer, followed and then indexed by Y.
    IndirectY,
    /// A signed offset from the next instruction (branches only).
    Relative,
    /// An address within page zero.
    ZeroPage,
    /// A page-zero address plus X, wrapping within page zero.
    ZeroPageX,
    /// A page-zero address plus Y, wrapping within page zero.
    ZeroPageY,
}

/// The documented mnemonics.
#[derive(Clone, Copy, Debug, PartialEq, Eq, Structural)]
pub enum Instruction {
    ADC, AND, ASL,
    BCC, BCS, BEQ, BIT, BMI, BNE, BPL, BRK, BVC, BVS,
    CLC, CLD, CLI, CLV, CMP, CPX, CPY,
    DEC, DEX, DEY,
    EOR,
    INC, INX, INY,
    JMP, JSR,
    LDA, LDX, LDY, LSR,
    NOP,
    ORA,
    PHA, PHP, PLA, PLP,
    ROL, ROR, RTI, RTS,
    SBC, SEC, SED, SEI, STA, STX, STY,
    TAX, TAY, TSX, TXA, TXS, TYA,
}

/// What an opcode byte stands for.
#[derive(Clone, Copy, Debug, PartialEq, Eq, Structural)]
pub struct OpCode {
    pub instruction: Instruction,
    pub addr_mode: AddressingMode,
    /// Cycles the instruction takes before any page-crossing or branch penalty.
    pub clock_cycles: u8,
}

/// The descriptor with these three parts.
pub open spec fn descriptor(instruction: Instruction, addr_mode: AddressingMode, clock_cycles: u8) -> OpCode {
    OpCode { instruction, addr_mode, clock_cycles }
}

/// The descriptor given to every byte that is not a documented opcode.
///
/// Real silicon gives those bytes erratic behaviours of their own; this core
/// deliberately treats each of them as a two-cycle `NOP` with no operand.
pub open spec fn undocumented_fill() -> OpCode {
    descriptor(Instruction::NOP, AddressingMode::Implied, 2)
}

/// The opcode matrix: the 151 documented opcodes, and the fill for the rest.
#[verifier::opaque]
pub open spec fn opcode_spec(b: u8) -> OpCode {
    match b {
        0x00 => descriptor(Instruction::BRK, AddressingMode::Implied, 7),
        0x01 => descriptor(Instruction::ORA, AddressingMode::IndirectX, 6),
        0x05 => descriptor(Instruction::ORA, AddressingMode::ZeroPage, 3),
        0x06 => descriptor(Instruction::ASL, AddressingMode::ZeroPage, 5),
        0x08 => descriptor(Instruction::PHP, AddressingMode::Implied, 3),
        0x09 => descriptor(Instruction::ORA, AddressingMode::Immediate, 2),
        0x0A => descriptor(Instruction::ASL, AddressingMode::Accumulator, 2),
        0x0D => descriptor(Instruction::ORA, AddressingMode::Absolute, 4),
        0x0E => descriptor(Instruction::ASL, AddressingMode::Absolute, 6),
        0x10 => descriptor(Instruction::BPL, AddressingMode::Relative, 2),
        0x11 => descriptor(Instruction::ORA, AddressingMode::IndirectY, 5),
        0x15 => descriptor(Instruction::ORA, AddressingMode::ZeroPageX, 4),
        0x16 => descriptor(Instruction::ASL, AddressingMode::ZeroPageX, 6),
        0x18 => descriptor(Instruction::CLC, AddressingMode::Implied, 2),
        0x19 => descriptor(Instruction::ORA, AddressingMode::AbsoluteY, 4),
        0x1D => descriptor(Instruction::ORA, AddressingMode::AbsoluteX, 4),
        0x1E => descriptor(Instruction::ASL, AddressingMode::AbsoluteX, 7),
        0x20 => descriptor(Instruction::JSR, AddressingMode::Absolute, 6),
        0x21 => descriptor(Instruction::AND, AddressingMode::IndirectX, 6),
        0x24 => descriptor(Instruction::BIT, AddressingMode::ZeroPage, 3),
        0x25 => descriptor(Instruction::AND, AddressingMode::ZeroPage, 3),
        0x26 => descriptor(Instruction::ROL, AddressingMode::ZeroPage, 5),
        0x28 => descriptor(Instruction::PLP, AddressingMode::Implied, 4),
        0x29 => descriptor(Instruction::AND, AddressingMode::Immediate, 2),
        0x2A => descriptor(Instruction::ROL, AddressingMode::Accumulator, 2),
        0x2C => descriptor(Instruction::BIT, AddressingMode::Absolute, 4),
        0x2D => descriptor(Instruction::AND, AddressingMode::Absolute, 4),
        0x2E => descriptor(Instruction::ROL, AddressingMode::Absolute, 6),
        0x30 => descriptor(Instruction::BMI, AddressingMode::Relative, 2),
        0x31 => descriptor(Instruction::AND, AddressingMode::IndirectY, 5),
        0x35 => descriptor(Instruction::AND, AddressingMode::ZeroPageX, 4),
        0x36 => descriptor(Instruction::ROL, AddressingMode::ZeroPageX, 6),
        0x38 => descriptor(Instruction::SEC, AddressingMode::Implied, 2),
        0x39 => descriptor(Instruction::AND, AddressingMode::AbsoluteY, 4),
        0x3D => descriptor(Instruction::AND, AddressingMode::AbsoluteX, 4),
        0x3E => descriptor(Instruction::ROL, AddressingMode::AbsoluteX, 7),
        0x40 => descriptor(Instruction::RTI, AddressingMode::Implied, 6),
        0x41 => descriptor(Instruction::EOR, AddressingMode::IndirectX, 6),
        0x45 => descriptor(Instruction::EOR, AddressingMode::ZeroPage, 3),
        0x46 => descriptor(Instruction::LSR, AddressingMode::ZeroPage, 5),
        0x48 => descriptor(Instruction::PHA, AddressingMode::Implied, 3),
        0x49 => descriptor(Instruction::EOR, AddressingMode::Immediate, 2),
        0x4A => descriptor(Instruction::LSR, AddressingMode::Accumulator, 2),
        0x4C => descriptor(Instruction::JMP, AddressingMode::Absolute, 3),
        0x4D => descriptor(Instruction::EOR, AddressingMode::Absolute, 4),
        0x4E => descriptor(Instruction::LSR, AddressingMode::Absolute, 6),
        0x50 => descriptor(Instruction::BVC, AddressingMode::Relative, 2),
        0x51 => descriptor(Instruction::EOR, AddressingMode::IndirectY, 5),
        0x55 => descriptor(Instruction::EOR, AddressingMode::ZeroPageX, 4),
        0x56 => descriptor(Instruction::LSR, AddressingMode::ZeroPageX, 6),
        0x58 => descriptor(Instruction::CLI, AddressingMode::Implied, 2),
        0x59 => descriptor(Instruction::EOR, AddressingMode::AbsoluteY, 4),
        0x5D => descriptor(Instruction::EOR, AddressingMode::AbsoluteX, 4),
        0x5E => descriptor(Instruction::LSR, AddressingMode::AbsoluteX, 7),
        0x60 => descriptor(Instruction::RTS, AddressingMode::Implied, 6),
        0x61 => descriptor(Instruction::ADC, AddressingMode::IndirectX, 6),
        0x65 => descriptor(Instruction::ADC, AddressingMode::ZeroPage, 3),
        0x66 => descriptor(Instruction::ROR, AddressingMode::ZeroPage, 5),
        0x68 => descriptor(Instruction::PLA, AddressingMode::Implied, 4),
        0x69 => descriptor(Instruction::ADC, AddressingMode::Immediate, 2),
        0x6A => descriptor(Instruction::ROR, AddressingMode::Accumulator, 2),
        0x6C => descriptor(Instruction::JMP, AddressingMode::Indirect, 5),
        0x6D => descriptor(Instruction::ADC, AddressingMode::Absolute, 4),
        0x6E => descriptor(Instruction::ROR, AddressingMode::Absolute, 6),
        0x70 => descriptor(Instruction::BVS, AddressingMode::Relative, 2),
        0x71 => descriptor(Instruction::ADC, AddressingMode::IndirectY, 5),
        0x75 => descriptor(Instruction::ADC, AddressingMode::ZeroPageX, 4),
        0x76 => descriptor(Instruction::ROR, AddressingMode::ZeroPageX, 6),
        0x78 => descriptor(Instruction::SEI, AddressingMode::Implied, 2),
        0x79 => descriptor(Instruction::ADC, AddressingMode::AbsoluteY, 4),
        0x7D => descriptor(Instruction::ADC, AddressingMode::AbsoluteX, 4),
        0x7E => descriptor(Instruction::ROR, AddressingMode::AbsoluteX, 7),
        0x81 => descriptor(Instruction::STA, AddressingMode::IndirectX, 6),
        0x84 => descriptor(Instruction::STY, AddressingMode::ZeroPage, 3),
        0x85 => descriptor(Instruction::STA, AddressingMode::ZeroPage, 3),
        0x86 => descriptor(Instruction::STX, AddressingMode::ZeroPage, 3),
        0x88 => descriptor(Instruction::DEY, AddressingMode::Implied, 2),
        0x8A => descriptor(Instruction::TXA, AddressingMode::Implied, 2),
        0x8C => descriptor(Instruction::STY, AddressingMode::Absolute, 4),
        0x8D => descriptor(Instruction::STA, AddressingMode::Absolute, 4),
        0x8E => descriptor(Instruction::STX, AddressingMode::Absolute, 4),
        0x90 => descriptor(Instruction::BCC, AddressingMode::Relative, 2),
        0x91 => descriptor(Instruction::STA, AddressingMode::IndirectY, 6),
        0x94 => descriptor(Instruction::STY, AddressingMode::ZeroPageX, 4),
        0x95 => descriptor(Instruction::STA, AddressingMode::ZeroPageX, 4),
        0x96 => descriptor(Instruction::STX, AddressingMode::ZeroPageY, 4),
        0x98 => descriptor(Instruction::TYA, AddressingMode::Implied, 2),
        0x99 => descriptor(Instruction::STA, AddressingMode::AbsoluteY, 5),
        0x9A => descriptor(Instruction::TXS, AddressingMode::Implied, 2),
        0x9D => descriptor(Instruction::STA, AddressingMode::AbsoluteX, 5),
        0xA0 => descriptor(Instruction::LDY, AddressingMode::Immediate, 2),
        0xA1 => descriptor(Instruction::LDA, AddressingMode::IndirectX, 6),
        0xA2 => descriptor(Instruction::LDX, AddressingMode::Immediate, 2),
        0xA4 => descriptor(Instruction::LDY, AddressingMode::ZeroPage, 3),
        0xA5 => descriptor(Instruction::LDA, AddressingMode::ZeroPage, 3),
        0xA6 => descriptor(Instruction::LDX, AddressingMode::ZeroPage, 3),
        0xA8 => descriptor(Instruction::TAY, AddressingMode::Implied, 2),
        0xA9 => descriptor(Instruction::LDA, AddressingMode::Immediate, 2),
        0xAA => descriptor(Instruction::TAX, AddressingMode::Implied, 2),
        0xAC => descriptor(Instruction::LDY, AddressingMode::Absolute, 4),
        0xAD => descriptor(Instruction::LDA, AddressingMode::Absolute, 4),
        0xAE => descriptor(Instruction::LDX, AddressingMode::Absolute, 4),
        0xB0 => descriptor(Instruction::BCS, AddressingMode::Relative, 2),
        0xB1 => descriptor(Instruction::LDA, AddressingMode::IndirectY, 5),
        0xB4 => descriptor(Instruction::LDY, AddressingMode::ZeroPageX, 4),
        0xB5 => descriptor(Instruction::LDA, AddressingMode::ZeroPageX, 4),
        0xB6 => descriptor(Instruction::LDX, AddressingMode::ZeroPageY, 4),
        0xB8 => descriptor(Instruction::CLV, AddressingMode::Implied, 2),
        0xB9 => descriptor(Instruction::LDA, AddressingMode::AbsoluteY, 4),
        0xBA => descriptor(Instruction::TSX, AddressingMode::Implied, 2),
        0xBC => descriptor(Instruction::LDY, AddressingMode::AbsoluteX, 4),
        0xBD => descriptor(Instruction::LDA, AddressingMode::AbsoluteX, 4),
        0xBE => descriptor(Instruction::LDX, AddressingMode::AbsoluteY, 4),
        0xC0 => descriptor(Instruction::CPY, AddressingMode::Immediate, 2),
        0xC1 => descriptor(Instruction::CMP, AddressingMode::IndirectX, 6),
        0xC4 => descriptor(Instruction::CPY, AddressingMode::ZeroPage, 3),
        0xC5 => descriptor(Instruction::CMP, AddressingMode::ZeroPage, 3),
        0xC6 => descriptor(Instruction::DEC, AddressingMode::ZeroPage, 5),
        0xC8 => descriptor(Instruction::INY, AddressingMode::Implied, 2),
        0xC9 => descriptor(Instruction::CMP, AddressingMode::Immediate, 2),
        0xCA => descriptor(Instruction::DEX, AddressingMode::Implied, 2),
        0xCC => descriptor(Instruction::CPY, AddressingMode::Absolute, 4),
        0xCD => descriptor(Instruction::CMP, AddressingMode::Absolute, 4),
        0xCE => descriptor(Instruction::DEC, AddressingMode::Absolute, 6),
        0xD0 => descriptor(Instruction::BNE, AddressingMode::Relative, 2),
        0xD1 => descriptor(Instruction::CMP, AddressingMode::IndirectY, 5),
        0xD5 => descriptor(Instruction::CMP, AddressingMode::ZeroPageX, 4),
        0xD6 => descriptor(Instruction::DEC, AddressingMode::ZeroPageX, 6),
        0xD8 => descriptor(Instruction::CLD, AddressingMode::Implied, 2),
        0xD9 => descriptor(Instruction::CMP, AddressingMode::AbsoluteY, 4),
        0xDD => descriptor(Instruction::CMP, AddressingMode::AbsoluteX, 4),
        0xDE => descriptor(Instruction::DEC, AddressingMode::AbsoluteX, 7),
        0xE0 => descriptor(Instruction::CPX, AddressingMode::Immediate, 2),
        0xE1 => descriptor(Instruction::SBC, AddressingMode::IndirectX, 6),
        0xE4 => descriptor(Instruction::CPX, AddressingMode::ZeroPage, 3),
        0xE5 => descriptor(Instruction::SBC, AddressingMode::ZeroPage, 3),
        0xE6 => descriptor(Instruction::INC, AddressingMode::ZeroPage, 5),
        0xE8 => descriptor(Instruction::INX, AddressingMode::Implied, 2),
        0xE9 => descriptor(Instruction::SBC, AddressingMode::Immediate, 2),
        0xEA => descriptor(Instruction::NOP, AddressingMode::Implied, 2),
        0xEC => descriptor(Instruction::CPX, AddressingMode::Absolute, 4),
        0xED => descriptor(Instruction::SBC, AddressingMode::Absolute, 4),
        0xEE => descriptor(Instruction::INC, AddressingMode::Absolute, 6),
        0xF0 => descriptor(Instruction::BEQ, AddressingMode::Relative, 2),
        0xF1 => descriptor(Instruction::SBC, AddressingMode::IndirectY, 5),
        0xF5 => descriptor(Instruction::SBC, AddressingMode::ZeroPageX, 4),
        0xF6 => descriptor(Instruction::INC, AddressingMode::ZeroPageX, 6),
        0xF8 => descriptor(Instruction::SED, AddressingMode::Implied, 2),
        0xF9 => descriptor(Instruction::SBC, AddressingMode::AbsoluteY, 4),
        0xFD => descriptor(Instruction::SBC, AddressingMode::AbsoluteX, 4),
        0xFE => descriptor(Instruction::INC, AddressingMode::AbsoluteX, 7),
        _ => undocumented_fill(),
    }
}

/// Every descriptor of the matrix takes from two to seven base cycles.
pub proof fn lemma_base_cycles(b: u8)
    ensures
        2 <= opcode_spec(b).clock_cycles <= 7,
{
    reveal(opcode_spec);
}

fn entry(instruction: Instruction, addr_mode: AddressingMode, clock_cycles: u8) -> (r: OpCode)
    requires
        2 <= clock_cycles <= 7,
    ensures
        r == descriptor(instruction, addr_mode, clock_cycles),
        2 <= r.clock_cycles <= 7,
{
    OpCode { instruction, addr_mode, clock_cycles }
}

/// Looks an opcode byte up in the opcode matrix; every byte has an entry.
pub fn decode(b: u8) -> (r: OpCode)
    ensures
        r == opcode_spec(b),
        2 <= r.clock_cycles <= 7,
{
    reveal(opcode_spec);
    match b {
        0x00 => entry(Instruction::BRK, AddressingMode::Implied, 7),
        0x01 => entry(Instruction::ORA, AddressingMode::IndirectX, 6),
        0x05 => entry(Instruction::ORA, AddressingMode::ZeroPage, 3),
        0x06 => entry(Instruction::ASL, AddressingMode::ZeroPage, 5),
        0x08 => entry(Instruction::PHP, AddressingMode::Implied, 3),
        0x09 => entry(Instruction::ORA, AddressingMode::Immediate, 2),
        0x0A => entry(Instruction::ASL, AddressingMode::Accumulator, 2),
        0x0D => entry(Instruction::ORA, AddressingMode::Absolute, 4),
        0x0E => entry(Instruction::ASL, AddressingMode::Absolute, 6),
        0x10 => entry(Instruction::BPL, AddressingMode::Relative, 2),
        0x11 => entry(Instruction::ORA, AddressingMode::IndirectY, 5),
        0x15 => entry(Instruction::ORA, AddressingMode::ZeroPageX, 4),
        0x16 => entry(Instruction::ASL, AddressingMode::ZeroPageX, 6),
        0x18 => entry(Instruction::CLC, AddressingMode::Implied, 2),
        0x19 => entry(Instruction::ORA, AddressingMode::AbsoluteY, 4),
        0x1D => entry(Instruction::ORA, AddressingMode::AbsoluteX, 4),
        0x1E => entry(Instruction::ASL, AddressingMode::AbsoluteX, 7),
        0x20 => entry(Instruction::JSR, AddressingMode::Absolute, 6),
        0x21 => entry(Instruction::AND, AddressingMode::IndirectX, 6),
        0x24 => entry(Instruction::BIT, AddressingMode::ZeroPage, 3),
        0x25 => entry(Instruction::AND, AddressingMode::ZeroPage, 3),
        0x26 => entry(Instruction::ROL, AddressingMode::ZeroPage, 5),
        0x28 => entry(Instruction::PLP, AddressingMode::Implied, 4),
        0x29 => entry(Instruction::AND, AddressingMode::Immediate, 2),
        0x2A => entry(Instruction::ROL, AddressingMode::Accumulator, 2),
        0x2C => entry(Instruction::BIT, AddressingMode::Absolute, 4),
        0x2D => entry(Instruction::AND, AddressingMode::Absolute, 4),
        0x2E => entry(Instruction::ROL, AddressingMode::Absolute, 6),
        0x30 => entry(Instruction::BMI, AddressingMode::Relative, 2),
        0x31 => entry(Instruction::AND, AddressingMode::IndirectY, 5),
        0x35 => entry(Instruction::AND, AddressingMode::ZeroPageX, 4),
        0x36 => entry(Instruction::ROL, AddressingMode::ZeroPageX, 6),
        0x38 => entry(Instruction::SEC, AddressingMode::Implied, 2),
        0x39 => entry(Instruction::AND, AddressingMode::AbsoluteY, 4),
        0x3D => entry(Instruction::AND, AddressingMode::AbsoluteX, 4),
        0x3E => entry(Instruction::ROL, AddressingMode::AbsoluteX, 7),
        0x40 => entry(Instruction::RTI, AddressingMode::Implied, 6),
        0x41 => entry(Instruction::EOR, AddressingMode::IndirectX, 6),
        0x45 => entry(Instruction::EOR, AddressingMode::ZeroPage, 3),
        0x46 => entry(Instruction::LSR, AddressingMode::ZeroPage, 5),
        0x48 => entry(Instruction::PHA, AddressingMode::Implied, 3),
        0x49 => entry(Instruction::EOR, AddressingMode::Immediate, 2),
        0x4A => entry(Instruction::LSR, AddressingMode::Accumulator, 2),
        0x4C => entry(Instruction::JMP, AddressingMode::Absolute, 3),
        0x4D => entry(Instruction::EOR, AddressingMode::Absolute, 4),
        0x4E => entry(Instruction::LSR, AddressingMode::Absolute, 6),
        0x50 => entry(Instruction::BVC, AddressingMode::Relative, 2),
        0x51 => entry(Instruction::EOR, AddressingMode::IndirectY, 5),
        0x55 => entry(Instruction::EOR, AddressingMode::ZeroPageX, 4),
        0x56 => entry(Instruction::LSR, AddressingMode::ZeroPageX, 6),
        0x58 => entry(Instruction::CLI, AddressingMode::Implied, 2),
        0x59 => entry(Instruction::EOR, AddressingMode::AbsoluteY, 4),
        0x5D => entry(Instruction::EOR, AddressingMode::AbsoluteX, 4),
        0x5E => entry(Instruction::LSR, AddressingMode::AbsoluteX, 7),
        0x60 => entry(Instruction::RTS, AddressingMode::Implied, 6),
        0x61 => entry(Instruction::ADC, AddressingMode::IndirectX, 6),
        0x65 => entry(Instruction::ADC, AddressingMode::ZeroPage, 3),
        0x66 => entry(Instruction::ROR, AddressingMode::ZeroPage, 5),
        0x68 => entry(Instruction::PLA, AddressingMode::Implied, 4),
        0x69 => entry(Instruction::ADC, AddressingMode::Immediate, 2),
        0x6A => entry(Instruction::ROR, AddressingMode::Accumulator, 2),
        0x6C => entry(Instruction::JMP, AddressingMode::Indirect, 5),
        0x6D => entry(Instruction::ADC, AddressingMode::Absolute, 4),
        0x6E => entry(Instruction::ROR, AddressingMode::Absolute, 6),
        0x70 => entry(Instruction::BVS, AddressingMode::Relative, 2),
        0x71 => entry(Instruction::ADC, AddressingMode::IndirectY, 5),
        0x75 => entry(Instruction::ADC, AddressingMode::ZeroPageX, 4),
        0x76 => entry(Instruction::ROR, AddressingMode::ZeroPageX, 6),
        0x78 => entry(Instruction::SEI, AddressingMode::Implied, 2),
        0x79 => entry(Instruction::ADC, AddressingMode::AbsoluteY, 4),
        0x7D => entry(Instruction::ADC, AddressingMode::AbsoluteX, 4),
        0x7E => entry(Instruction::ROR, AddressingMode::AbsoluteX, 7),
        0x81 => entry(Instruction::STA, AddressingMode::IndirectX, 6),
        0x84 => entry(Instruction::STY, AddressingMode::ZeroPage, 3),
        0x85 => entry(Instruction::STA, AddressingMode::ZeroPage, 3),
        0x86 => entry(Instruction::STX, AddressingMode::ZeroPage, 3),
        0x88 => entry(Instruction::DEY, AddressingMode::Implied, 2),
        0x8A => entry(Instruction::TXA, AddressingMode::Implied, 2),
        0x8C => entry(Instruction::STY, AddressingMode::Absolute, 4),
        0x8D => entry(Instruction::STA, AddressingMode::Absolute, 4),
        0x8E => entry(Instruction::STX, AddressingMode::Absolute, 4),
        0x90 => entry(Instruction::BCC, AddressingMode::Relative, 2),
        0x91 => entry(Instruction::STA, AddressingMode::IndirectY, 6),
        0x94 => entry(Instruction::STY, AddressingMode::ZeroPageX, 4),
        0x95 => entry(Instruction::STA, AddressingMode::ZeroPageX, 4),
        0x96 => entry(Instruction::STX, AddressingMode::ZeroPageY, 4),
        0x98 => entry(Instruction::TYA, AddressingMode::Implied, 2),
        0x99 => entry(Instruction::STA, AddressingMode::AbsoluteY, 5),
        0x9A => entry(Instruction::TXS, AddressingMode::Implied, 2),
        0x9D => entry(Instruction::STA, AddressingMode::AbsoluteX, 5),
        0xA0 => entry(Instruction::LDY, AddressingMode::Immediate, 2),
        0xA1 => entry(Instruction::LDA, AddressingMode::IndirectX, 6),
        0xA2 => entry(Instruction::LDX, AddressingMode::Immediate, 2),
        0xA4 => entry(Instruction::LDY, AddressingMode::ZeroPage, 3),
        0xA5 => entry(Instruction::LDA, AddressingMode::ZeroPage, 3),
        0xA6 => entry(Instruction::LDX, AddressingMode::ZeroPage, 3),
        0xA8 => entry(Instruction::TAY, AddressingMode::Implied, 2),
        0xA9 => entry(Instruction::LDA, AddressingMode::Immediate, 2),
        0xAA => entry(Instruction::TAX, AddressingMode::Implied, 2),
        0xAC => entry(Instruction::LDY, AddressingMode::Absolute, 4),
        0xAD => entry(Instruction::LDA, AddressingMode::Absolute, 4),
        0xAE => entry(Instruction::LDX, AddressingMode::Absolute, 4),
        0xB0 => entry(Instruction::BCS, AddressingMode::Relative, 2),
        0xB1 => entry(Instruction::LDA, AddressingMode::IndirectY, 5),
        0xB4 => entry(Instruction::LDY, AddressingMode::ZeroPageX, 4),
        0xB5 => entry(Instruction::LDA, AddressingMode::ZeroPageX, 4),
        0xB6 => entry(Instruction::LDX, AddressingMode::ZeroPageY, 4),
        0xB8 => entry(Instruction::CLV, AddressingMode::Implied, 2),
        0xB9 => entry(Instruction::LDA, AddressingMode::AbsoluteY, 4),
        0xBA => entry(Instruction::TSX, AddressingMode::Implied, 2),
        0xBC => entry(Instruction::LDY, AddressingMode::AbsoluteX, 4),
        0xBD => entry(Instruction::LDA, AddressingMode::AbsoluteX, 4),
        0xBE => entry(Instruction::LDX, AddressingMode::AbsoluteY, 4),
        0xC0 => entry(Instruction::CPY, AddressingMode::Immediate, 2),
        0xC1 => entry(Instruction::CMP, AddressingMode::IndirectX, 6),
        0xC4 => entry(Instruction::CPY, AddressingMode::ZeroPage, 3),
        0xC5 => entry(Instruction::CMP, AddressingMode::ZeroPage, 3),
        0xC6 => entry(Instruction::DEC, AddressingMode::ZeroPage, 5),
        0xC8 => entry(Instruction::INY, AddressingMode::Implied, 2),
        0xC9 => entry(Instruction::CMP, AddressingMode::Immediate, 2),
        0xCA => entry(Instruction::DEX, AddressingMode::Implied, 2),
        0xCC => entry(Instruction::CPY, AddressingMode::Absolute, 4),
        0xCD => entry(Instruction::CMP, AddressingMode::Absolute, 4),
        0xCE => entry(Instruction::DEC, AddressingMode::Absolute, 6),
        0xD0 => entry(Instruction::BNE, AddressingMode::Relative, 2),
        0xD1 => entry(Instruction::CMP, AddressingMode::IndirectY, 5),
        0xD5 => entry(Instruction::CMP, AddressingMode::ZeroPageX, 4),
        0xD6 => entry(Instruction::DEC, AddressingMode::ZeroPageX, 6),
        0xD8 => entry(Instruction::CLD, AddressingMode::Implied, 2),
        0xD9 => entry(Instruction::CMP, AddressingMode::AbsoluteY, 4),
        0xDD => entry(Instruction::CMP, AddressingMode::AbsoluteX, 4),
        0xDE => entry(Instruction::DEC, AddressingMode::AbsoluteX, 7),
        0xE0 => entry(Instruction::CPX, AddressingMode::Immediate, 2),
        0xE1 => entry(Instruction::SBC, AddressingMode::IndirectX, 6),
        0xE4 => entry(Instruction::CPX, AddressingMode::ZeroPage, 3),
        0xE5 => entry(Instruction::SBC, AddressingMode::ZeroPage, 3),
        0xE6 => entry(Instruction::INC, AddressingMode::ZeroPage, 5),
        0xE8 => entry(Instruction::INX, AddressingMode::Implied, 2),
        0xE9 => entry(Instruction::SBC, AddressingMode::Immediate, 2),
        0xEA => entry(Instruction::NOP, AddressingMode::Implied, 2),
        0xEC => entry(Instruction::CPX, AddressingMode::Absolute, 4),
        0xED => entry(Instruction::SBC, AddressingMode::Absolute, 4),
        0xEE => entry(Instruction::INC, AddressingMode::Absolute, 6),
        0xF0 => entry(Instruction::BEQ, AddressingMode::Relative, 2),
        0xF1 => entry(Instruction::SBC, AddressingMode::IndirectY, 5),
        0xF5 => entry(Instruction::SBC, AddressingMode::ZeroPageX, 4),
        0xF6 => entry(Instruction::INC, AddressingMode::ZeroPageX, 6),
        0xF8 => entry(Instruction::SED, AddressingMode::Implied, 2),
        0xF9 => entry(Instruction::SBC, AddressingMode::AbsoluteY, 4),
        0xFD => entry(Instruction::SBC, AddressingMode::AbsoluteX, 4),
        0xFE => entry(Instruction::INC, AddressingMode::AbsoluteX, 7),
        _ => entry(Instruction::NOP, AddressingMode::Implied, 2),
    }
}

/// The whole opcode matrix, one descriptor per byte value, indexed by the byte.
pub fn opcode_matrix() -> (t: Vec<OpCode>)
    ensures
        t@.len() == 256,
        forall|i: int| 0 <= i < 256 ==> #[trigger] t@[i] == opcode_spec(i as u8),
{
    let mut t: Vec<OpCode> = Vec::new();
    let mut b: u16 = 0;
    while b < 256
        invariant
            b <= 256,
            t@.len() == b,
            forall|i: int| 0 <= i < b ==> #[trigger] t@[i] == opcode_spec(i as u8),
        decreases 256 - b,
    {
        t.push(decode(b as u8));
        b = b + 1;
    }
    t
}

} // verus!
