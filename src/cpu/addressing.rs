//! The addressing-mode resolver: from a mode and the program counter to the
//! effective operand, the program counter past the operand bytes, and whether
//! index addition crossed a page.

use vstd::prelude::*;

use crate::bus::Bus;
use crate::cpu::opcode::AddressingMode;
use crate::cpu::register::Registers;

verus! {

/// Where an instruction's operand lives once its addressing mode is resolved.
#[derive(Clone, Copy, Debug, PartialEq, Eq, Structural)]
pub enum Operand {
    /// The instruction takes no operand.
    Implied,
    /// The operand is the accumulator.
    Accumulator,
    /// The operand is the byte at this effective address (for a branch: its target).
    Memory(u16),
}

/// The outcome of resolving an addressing mode.
#[derive(Clone, Copy, Debug, PartialEq, Eq, Structural)]
pub struct Resolved {
    pub operand: Operand,
    /// The program counter after the operand bytes.
    pub pc: u16,
    /// Whether adding an index register moved the address to another page.
    pub page_crossed: bool,
}

/// `v` reduced into the 16-bit address space.
pub open spec fn wrap16(v: int) -> u16 {
    (v % 0x10000) as u16
}

/// `v` reduced into one byte.
pub open spec fn wrap8(v: int) -> u8 {
    (v % 0x100) as u8
}

/// The little-endian 16-bit value of two bytes.
pub open spec fn word(lo: u8, hi: u8) -> u16 {
    (hi * 0x100 + lo) as u16
}

/// The low byte of a 16-bit value.
pub open spec fn lo_byte(v: u16) -> u8 {
    (v % 0x100) as u8
}

/// The high byte of a 16-bit value.
pub open spec fn hi_byte(v: u16) -> u8 {
    (v / 0x100) as u8
}

/// The 256-byte page that an address lies in.
pub open spec fn page(a: u16) -> int {
    a as int / 0x100
}

/// A byte read as a two's-complement signed value.
pub open spec fn signed(b: u8) -> int {
    if b < 0x80 {
        b as int
    } else {
        b - 0x100
    }
}

/// Where an indirect jump reads the high byte of its target from: the byte
/// after the pointer, except that a pointer at the end of a page wraps to the
/// start of the same page.
pub open spec fn indirect_hi_addr(ptr: u16) -> u16 {
    if ptr % 0x100 == 0xFF {
        (ptr - 0xFF) as u16
    } else {
        (ptr + 1) as u16
    }
}

/// The two bytes at `a` and `a + 1` of page zero (wrapping within the page), as an address.
pub open spec fn zero_page_word(mem: Seq<u8>, a: u8) -> u16 {
    word(mem[a as int], mem[wrap8(a + 1) as int])
}

/// An address plus an index, with the page-crossing check.
pub open spec fn indexed(base: u16, index: u8, pc: u16) -> Resolved {
    let a = wrap16(base + index);
    Resolved { operand: Operand::Memory(a), pc, page_crossed: page(a) != page(base) }
}

/// What resolving `mode` gives when the operand bytes start at `regs.pcl`.
#[verifier::opaque]
pub open spec fn resolve_spec(mode: AddressingMode, regs: Registers, mem: Seq<u8>) -> Resolved {
    let pc = regs.pcl;
    let b1 = mem[pc as int];
    let b2 = mem[wrap16(pc + 1) as int];
    let after1 = wrap16(pc + 1);
    let after2 = wrap16(pc + 2);
    let abs = word(b1, b2);
    match mode {
        AddressingMode::Accumulator => Resolved { operand: Operand::Accumulator, pc, page_crossed: false },
        AddressingMode::Implied => Resolved { operand: Operand::Implied, pc, page_crossed: false },
        AddressingMode::Immediate => Resolved { operand: Operand::Memory(pc), pc: after1, page_crossed: false },
        AddressingMode::ZeroPage => Resolved {
            operand: Operand::Memory(b1 as u16),
            pc: after1,
            page_crossed: false,
        },
        AddressingMode::ZeroPageX => Resolved {
            operand: Operand::Memory(wrap8(b1 + regs.x) as u16),
            pc: after1,
            page_crossed: false,
        },
        AddressingMode::ZeroPageY => Resolved {
            operand: Operand::Memory(wrap8(b1 + regs.y) as u16),
            pc: after1,
            page_crossed: false,
        },
        AddressingMode::Absolute => Resolved { operand: Operand::Memory(abs), pc: after2, page_crossed: false },
        AddressingMode::AbsoluteX => indexed(abs, regs.x, after2),
        AddressingMode::AbsoluteY => indexed(abs, regs.y, after2),
        AddressingMode::Indirect => Resolved {
            operand: Operand::Memory(word(mem[abs as int], mem[indirect_hi_addr(abs) as int])),
            pc: after2,
            page_crossed: false,
        },
        AddressingMode::IndirectX => Resolved {
            operand: Operand::Memory(zero_page_word(mem, wrap8(b1 + regs.x))),
            pc: after1,
            page_crossed: false,
        },
        AddressingMode::IndirectY => indexed(zero_page_word(mem, b1), regs.y, after1),
        AddressingMode::Relative => Resolved {
            operand: Operand::Memory(wrap16(after1 + signed(b1))),
            pc: after1,
            page_crossed: false,
        },
    }
}

/// Only index addition can cross a page: in the AbsoluteX, AbsoluteY and IndirectY modes.
pub proof fn lemma_only_indexing_crosses_pages(mode: AddressingMode, regs: Registers, mem: Seq<u8>)
    ensures
        resolve_spec(mode, regs, mem).page_crossed ==> (mode is AbsoluteX || mode is AbsoluteY
            || mode is IndirectY),
{
    reveal(resolve_spec);
}

/// A 16-bit address stored little-endian after the opcode resolves, in the
/// Absolute mode, to that address.
pub proof fn lemma_absolute_round_trip(addr: u16, regs: Registers, mem: Seq<u8>)
    requires
        mem[regs.pcl as int] == lo_byte(addr),
        mem[wrap16(regs.pcl + 1) as int] == hi_byte(addr),
    ensures
        resolve_spec(AddressingMode::Absolute, regs, mem).operand == Operand::Memory(addr),
{
    reveal(resolve_spec);
}

/// An indirect jump through a pointer whose low byte is 0xFF takes the high
/// byte of its target from the start of the pointer's own page, not from the next page.
pub proof fn lemma_indirect_page_wrap(regs: Registers, mem: Seq<u8>)
    requires
        word(mem[regs.pcl as int], mem[wrap16(regs.pcl + 1) as int]) % 0x100 == 0xFF,
    ensures
        ({
            let ptr = word(mem[regs.pcl as int], mem[wrap16(regs.pcl + 1) as int]);
            resolve_spec(AddressingMode::Indirect, regs, mem).operand == Operand::Memory(
                word(mem[ptr as int], mem[ptr - 0xFF]),
            )
        }),
{
    reveal(resolve_spec);
}

fn make_word(lo: u8, hi: u8) -> (r: u16)
    ensures
        r == word(lo, hi),
{
    (hi as u16) * 0x100 + (lo as u16)
}

fn zero_page_pointer(bus: &Bus, a: u8) -> (r: u16)
    ensures
        r == zero_page_word(bus@, a),
{
    make_word(bus.read(a as u16), bus.read(a.wrapping_add(1) as u16))
}

fn add_index(base: u16, index: u8, pc: u16) -> (r: Resolved)
    ensures
        r == indexed(base, index, pc),
{
    let a = base.wrapping_add(index as u16);
    Resolved { operand: Operand::Memory(a), pc, page_crossed: a / 0x100 != base / 0x100 }
}

fn zero_page_index(b: u8, index: u8) -> (r: u8)
    ensures
        r == wrap8(b + index),
{
    b.wrapping_add(index)
}

fn advance(pc: u16, n: u16) -> (r: u16)
    requires
        n <= 2,
    ensures
        r == wrap16(pc + n),
{
    pc.wrapping_add(n)
}

fn absolute_operand(bus: &Bus, pc: u16) -> (r: u16)
    ensures
        r == word(bus@[pc as int], bus@[wrap16(pc + 1) as int]),
{
    make_word(bus.read(pc), bus.read(advance(pc, 1)))
}

fn indirect_target(bus: &Bus, ptr: u16) -> (r: u16)
    ensures
        r == word(bus@[ptr as int], bus@[indirect_hi_addr(ptr) as int]),
{
    let hi_addr = if ptr % 0x100 == 0xFF {
        ptr - 0xFF
    } else {
        ptr + 1
    };
    make_word(bus.read(ptr), bus.read(hi_addr))
}

fn relative_target(next: u16, off: u8) -> (r: u16)
    ensures
        r == wrap16(next + signed(off)),
{
    if off < 0x80 {
        next.wrapping_add(off as u16)
    } else {
        next.wrapping_sub(0x100 - off as u16)
    }
}

/// Resolves `mode` for an instruction whose operand bytes start at `regs.pcl`:
/// computes the effective address, reading the bus where the mode asks, and the
/// program counter past the operand bytes.
pub fn resolve(mode: AddressingMode, regs: &Registers, bus: &Bus) -> (r: Resolved)
    ensures
        r == resolve_spec(mode, *regs, bus@),
{
    reveal(resolve_spec);
    let pc = regs.pcl;
    let after1 = advance(pc, 1);
    let after2 = advance(pc, 2);
    match mode {
        AddressingMode::Accumulator => Resolved { operand: Operand::Accumulator, pc, page_crossed: false },
        AddressingMode::Implied => Resolved { operand: Operand::Implied, pc, page_crossed: false },
        AddressingMode::Immediate => Resolved { operand: Operand::Memory(pc), pc: after1, page_crossed: false },
        AddressingMode::ZeroPage => {
            let b1 = bus.read(pc);
            Resolved { operand: Operand::Memory(b1 as u16), pc: after1, page_crossed: false }
        },
        AddressingMode::ZeroPageX => {
            let a = zero_page_index(bus.read(pc), regs.x);
            Resolved { operand: Operand::Memory(a as u16), pc: after1, page_crossed: false }
        },
        AddressingMode::ZeroPageY => {
            let a = zero_page_index(bus.read(pc), regs.y);
            Resolved { operand: Operand::Memory(a as u16), pc: after1, page_crossed: false }
        },
        AddressingMode::Absolute => {
            let abs = absolute_operand(bus, pc);
            Resolved { operand: Operand::Memory(abs), pc: after2, page_crossed: false }
        },
        AddressingMode::AbsoluteX => add_index(absolute_operand(bus, pc), regs.x, after2),
        AddressingMode::AbsoluteY => add_index(absolute_operand(bus, pc), regs.y, after2),
        AddressingMode::Indirect => {
            let target = indirect_target(bus, absolute_operand(bus, pc));
            Resolved { operand: Operand::Memory(target), pc: after2, page_crossed: false }
        },
        AddressingMode::IndirectX => {
            let target = zero_page_pointer(bus, zero_page_index(bus.read(pc), regs.x));
            Resolved { operand: Operand::Memory(target), pc: after1, page_crossed: false }
        },
        AddressingMode::IndirectY => {
            let b1 = bus.read(pc);
            add_index(zero_page_pointer(bus, b1), regs.y, after1)
        },
        AddressingMode::Relative => {
            let target = relative_target(after1, bus.read(pc));
            Resolved { operand: Operand::Memory(target), pc: after1, page_crossed: false }
        },
    }
}

} // verus!
