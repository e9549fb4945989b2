//! The instruction executor: what each instruction does to the registers and
//! the bus, stated as spec functions and carried out by verified code.
//!
//! Arithmetic is binary. The Decimal flag is kept in the status register, but
//! `ADC` and `SBC` do not read it.

use vstd::prelude::*;

use crate::bus::Bus;
use crate::cpu::addressing::{hi_byte, lo_byte, page, signed, word, wrap16, wrap8, Operand};
use crate::cpu::opcode::Instruction;
use crate::cpu::register::{flag_set, with_flag, Registers, StatusRegisterFlags};

verus! {

/// Address of the IRQ and `BRK` vector (low byte; the high byte follows).
pub const IRQ_VECTOR: u16 = 0xFFFE;

/// Base address of the stack page.
pub const STACK_BASE: u16 = 0x0100;

// ---------------------------------------------------------------- the model

/// `status` with Zero and Negative set from the result `v`.
pub open spec fn nz(status: u8, v: u8) -> u8 {
    with_flag(with_flag(status, StatusRegisterFlags::Z, v == 0), StatusRegisterFlags::N, v >= 0x80)
}

/// Whether `v` lies outside the range of a signed byte.
pub open spec fn out_of_signed_range(v: int) -> bool {
    v < -128 || v > 127
}

/// The carry flag as the number it adds.
pub open spec fn carry_value(carry: bool) -> int {
    if carry {
        1
    } else {
        0
    }
}

/// Binary add with carry: the result byte, the carry out and signed overflow.
pub open spec fn adc_spec(a: u8, m: u8, carry: bool) -> (u8, bool, bool) {
    let c = carry_value(carry);
    (wrap8(a + m + c), a + m + c > 0xFF, out_of_signed_range(signed(a) + signed(m) + c))
}

/// Binary subtract with borrow (the borrow is a clear carry): the result byte,
/// the carry out (set when no borrow was needed) and signed overflow.
pub open spec fn sbc_spec(a: u8, m: u8, carry: bool) -> (u8, bool, bool) {
    let borrow = 1 - carry_value(carry);
    (wrap8(a - m - borrow), a - m - borrow >= 0, out_of_signed_range(signed(a) - signed(m) - borrow))
}

/// Flags after comparing register value `reg` with `m`: the subtraction's
/// result is dropped, its flags kept.
pub open spec fn compare_spec(status: u8, reg: u8, m: u8) -> u8 {
    nz(with_flag(status, StatusRegisterFlags::C, reg >= m), wrap8(reg - m))
}

/// The value of the operand; an implied operand reads as zero.
pub open spec fn operand_value(op: Operand, r: Registers, mem: Seq<u8>) -> u8 {
    match op {
        Operand::Implied => 0,
        Operand::Accumulator => r.acc,
        Operand::Memory(a) => mem[a as int],
    }
}

/// Registers and memory after `v` is written to the operand.
pub open spec fn write_spec(op: Operand, v: u8, r: Registers, mem: Seq<u8>) -> (Registers, Seq<u8>) {
    match op {
        Operand::Implied => (r, mem),
        Operand::Accumulator => (Registers { acc: v, ..r }, mem),
        Operand::Memory(a) => (r, mem.update(a as int, v)),
    }
}

/// Memory after a store of `v` to the operand; only a memory operand is written.
pub open spec fn store_spec(op: Operand, v: u8, mem: Seq<u8>) -> Seq<u8> {
    match op {
        Operand::Memory(a) => mem.update(a as int, v),
        _ => mem,
    }
}

/// The address an instruction jumps or branches to.
pub open spec fn target_of(op: Operand, r: Registers) -> u16 {
    match op {
        Operand::Memory(a) => a,
        _ => r.pcl,
    }
}

/// The registers after an instruction that reads the operand value `m`.
pub open spec fn read_spec(ins: Instruction, m: u8, r: Registers) -> Registers {
    let s = r.status;
    match ins {
        Instruction::ADC => {
            let sum = adc_spec(r.acc, m, flag_set(s, StatusRegisterFlags::C));
            let st = with_flag(with_flag(s, StatusRegisterFlags::C, sum.1), StatusRegisterFlags::V, sum.2);
            Registers { acc: sum.0, status: nz(st, sum.0), ..r }
        },
        Instruction::SBC => {
            let diff = sbc_spec(r.acc, m, flag_set(s, StatusRegisterFlags::C));
            let st = with_flag(with_flag(s, StatusRegisterFlags::C, diff.1), StatusRegisterFlags::V, diff.2);
            Registers { acc: diff.0, status: nz(st, diff.0), ..r }
        },
        Instruction::AND => Registers { acc: r.acc & m, status: nz(s, r.acc & m), ..r },
        Instruction::ORA => Registers { acc: r.acc | m, status: nz(s, r.acc | m), ..r },
        Instruction::EOR => Registers { acc: r.acc ^ m, status: nz(s, r.acc ^ m), ..r },
        Instruction::CMP => Registers { status: compare_spec(s, r.acc, m), ..r },
        Instruction::CPX => Registers { status: compare_spec(s, r.x, m), ..r },
        Instruction::CPY => Registers { status: compare_spec(s, r.y, m), ..r },
        Instruction::BIT => {
            let st = with_flag(s, StatusRegisterFlags::Z, r.acc & m == 0);
            let st = with_flag(st, StatusRegisterFlags::V, m & 0x40 != 0);
            Registers { status: with_flag(st, StatusRegisterFlags::N, m & 0x80 != 0), ..r }
        },
        Instruction::LDA => Registers { acc: m, status: nz(s, m), ..r },
        Instruction::LDX => Registers { x: m, status: nz(s, m), ..r },
        Instruction::LDY => Registers { y: m, status: nz(s, m), ..r },
        _ => r,
    }
}

/// A read-modify-write instruction on value `v`: the new value and the carry out.
pub open spec fn modify_spec(ins: Instruction, v: u8, carry: bool) -> (u8, bool) {
    let c = carry_value(carry);
    match ins {
        Instruction::ASL => (wrap8(v * 2), v >= 0x80),
        Instruction::LSR => ((v / 2) as u8, v % 2 == 1),
        Instruction::ROL => (wrap8(v * 2 + c), v >= 0x80),
        Instruction::ROR => ((v / 2 + c * 0x80) as u8, v % 2 == 1),
        Instruction::INC => (wrap8(v + 1), carry),
        _ => (wrap8(v - 1), carry),
    }
}

/// Whether the instruction routes a bit through Carry (the shifts and rotates).
pub open spec fn shifts_through_carry(ins: Instruction) -> bool {
    ins is ASL || ins is LSR || ins is ROL || ins is ROR
}

/// Registers and memory after a read-modify-write instruction.
pub open spec fn rmw_spec(ins: Instruction, op: Operand, r: Registers, mem: Seq<u8>) -> (Registers, Seq<u8>) {
    let res = modify_spec(ins, operand_value(op, r, mem), flag_set(r.status, StatusRegisterFlags::C));
    let st = if shifts_through_carry(ins) {
        with_flag(r.status, StatusRegisterFlags::C, res.1)
    } else {
        r.status
    };
    write_spec(op, res.0, Registers { status: nz(st, res.0), ..r }, mem)
}

/// The registers after an instruction that touches registers alone.
pub open spec fn register_spec(ins: Instruction, r: Registers) -> Registers {
    let s = r.status;
    match ins {
        Instruction::CLC => Registers { status: with_flag(s, StatusRegisterFlags::C, false), ..r },
        Instruction::CLD => Registers { status: with_flag(s, StatusRegisterFlags::D, false), ..r },
        Instruction::CLI => Registers { status: with_flag(s, StatusRegisterFlags::I, false), ..r },
        Instruction::CLV => Registers { status: with_flag(s, StatusRegisterFlags::V, false), ..r },
        Instruction::SEC => Registers { status: with_flag(s, StatusRegisterFlags::C, true), ..r },
        Instruction::SED => Registers { status: with_flag(s, StatusRegisterFlags::D, true), ..r },
        Instruction::SEI => Registers { status: with_flag(s, StatusRegisterFlags::I, true), ..r },
        Instruction::TAX => Registers { x: r.acc, status: nz(s, r.acc), ..r },
        Instruction::TAY => Registers { y: r.acc, status: nz(s, r.acc), ..r },
        Instruction::TSX => Registers { x: r.sp, status: nz(s, r.sp), ..r },
        Instruction::TXA => Registers { acc: r.x, status: nz(s, r.x), ..r },
        Instruction::TXS => Registers { sp: r.x, ..r },
        Instruction::TYA => Registers { acc: r.y, status: nz(s, r.y), ..r },
        Instruction::INX => Registers { x: wrap8(r.x + 1), status: nz(s, wrap8(r.x + 1)), ..r },
        Instruction::INY => Registers { y: wrap8(r.y + 1), status: nz(s, wrap8(r.y + 1)), ..r },
        Instruction::DEX => Registers { x: wrap8(r.x - 1), status: nz(s, wrap8(r.x - 1)), ..r },
        Instruction::DEY => Registers { y: wrap8(r.y - 1), status: nz(s, wrap8(r.y - 1)), ..r },
        _ => r,
    }
}

/// Whether the instruction is a conditional branch.
pub open spec fn is_branch(ins: Instruction) -> bool {
    ins is BCC || ins is BCS || ins is BEQ || ins is BNE || ins is BMI || ins is BPL || ins is BVC
        || ins is BVS
}

/// Whether a conditional branch is taken under `status`.
pub open spec fn branch_taken(ins: Instruction, status: u8) -> bool {
    match ins {
        Instruction::BCC => !flag_set(status, StatusRegisterFlags::C),
        Instruction::BCS => flag_set(status, StatusRegisterFlags::C),
        Instruction::BEQ => flag_set(status, StatusRegisterFlags::Z),
        Instruction::BNE => !flag_set(status, StatusRegisterFlags::Z),
        Instruction::BMI => flag_set(status, StatusRegisterFlags::N),
        Instruction::BPL => !flag_set(status, StatusRegisterFlags::N),
        Instruction::BVS => flag_set(status, StatusRegisterFlags::V),
        Instruction::BVC => !flag_set(status, StatusRegisterFlags::V),
        _ => false,
    }
}

/// Extra cycles of a branch: one when taken, one more when the target lies
/// in another page than the next instruction.
pub open spec fn branch_penalty(ins: Instruction, status: u8, pc: u16, target: u16) -> u8 {
    if is_branch(ins) && branch_taken(ins, status) {
        if page(target) != page(pc) {
            2
        } else {
            1
        }
    } else {
        0
    }
}

/// Registers and memory after pushing `v`: stored at the stack pointer, which then moves down.
pub open spec fn push_spec(r: Registers, mem: Seq<u8>, v: u8) -> (Registers, Seq<u8>) {
    (Registers { sp: wrap8(r.sp - 1), ..r }, mem.update(STACK_BASE + r.sp, v))
}

/// Registers after pulling a byte, and the byte: the stack pointer moves up, then is read.
pub open spec fn pull_spec(r: Registers, mem: Seq<u8>) -> (Registers, u8) {
    let sp = wrap8(r.sp + 1);
    (Registers { sp, ..r }, mem[STACK_BASE + sp])
}

/// `status` as it is pushed: Unused set, Break as given.
pub open spec fn pushed_status(status: u8, brk: bool) -> u8 {
    with_flag(with_flag(status, StatusRegisterFlags::B, brk), StatusRegisterFlags::U, true)
}

/// A pulled byte as it enters the status register: Break clear, Unused set.
pub open spec fn pulled_status(v: u8) -> u8 {
    with_flag(with_flag(v, StatusRegisterFlags::B, false), StatusRegisterFlags::U, true)
}

/// The interrupt sequence: pushes `ret` (high byte first) and the status byte
/// (Break as `brk`), sets InterruptDisable and jumps through the vector at `vector`.
pub open spec fn interrupt_spec(r: Registers, mem: Seq<u8>, ret: u16, brk: bool, vector: u16) -> (Registers, Seq<u8>) {
    let p1 = push_spec(r, mem, hi_byte(ret));
    let p2 = push_spec(p1.0, p1.1, lo_byte(ret));
    let p3 = push_spec(p2.0, p2.1, pushed_status(r.status, brk));
    let m = p3.1;
    let pc = word(m[vector as int], m[wrap16(vector + 1) as int]);
    (Registers { pcl: pc, status: with_flag(r.status, StatusRegisterFlags::I, true), ..p3.0 }, m)
}

/// Registers and memory after a jump, a subroutine call or return, or a stack instruction.
pub open spec fn control_spec(ins: Instruction, op: Operand, r: Registers, mem: Seq<u8>) -> (Registers, Seq<u8>) {
    match ins {
        Instruction::JMP => (Registers { pcl: target_of(op, r), ..r }, mem),
        Instruction::JSR => {
            let ret = wrap16(r.pcl - 1);
            let p1 = push_spec(r, mem, hi_byte(ret));
            let p2 = push_spec(p1.0, p1.1, lo_byte(ret));
            (Registers { pcl: target_of(op, r), ..p2.0 }, p2.1)
        },
        Instruction::RTS => {
            let lo = pull_spec(r, mem);
            let hi = pull_spec(lo.0, mem);
            (Registers { pcl: wrap16(word(lo.1, hi.1) + 1), ..hi.0 }, mem)
        },
        Instruction::BRK => interrupt_spec(r, mem, wrap16(r.pcl + 1), true, IRQ_VECTOR),
        Instruction::RTI => {
            let st = pull_spec(r, mem);
            let lo = pull_spec(st.0, mem);
            let hi = pull_spec(lo.0, mem);
            (Registers { pcl: word(lo.1, hi.1), status: pulled_status(st.1), ..hi.0 }, mem)
        },
        Instruction::PHA => push_spec(r, mem, r.acc),
        Instruction::PHP => push_spec(r, mem, pushed_status(r.status, true)),
        Instruction::PLA => {
            let p = pull_spec(r, mem);
            (Registers { acc: p.1, status: nz(r.status, p.1), ..p.0 }, mem)
        },
        Instruction::PLP => {
            let p = pull_spec(r, mem);
            (Registers { status: pulled_status(p.1), ..p.0 }, mem)
        },
        _ => (r, mem),
    }
}

/// What executing `ins` on operand `op` does, with `r.pcl` already past the
/// operand bytes: the new registers, the new memory, and the extra cycles the
/// instruction itself owes (a taken branch and its page crossing).
#[verifier::opaque]
pub open spec fn execute_spec(ins: Instruction, op: Operand, r: Registers, mem: Seq<u8>) -> (Registers, Seq<u8>, u8) {
    match ins {
        Instruction::ADC | Instruction::SBC | Instruction::AND | Instruction::ORA | Instruction::EOR
        | Instruction::CMP | Instruction::CPX | Instruction::CPY | Instruction::BIT | Instruction::LDA
        | Instruction::LDX | Instruction::LDY => (read_spec(ins, operand_value(op, r, mem), r), mem, 0),
        Instruction::ASL | Instruction::LSR | Instruction::ROL | Instruction::ROR | Instruction::INC
        | Instruction::DEC => {
            let w = rmw_spec(ins, op, r, mem);
            (w.0, w.1, 0)
        },
        Instruction::STA => (r, store_spec(op, r.acc, mem), 0),
        Instruction::STX => (r, store_spec(op, r.x, mem), 0),
        Instruction::STY => (r, store_spec(op, r.y, mem), 0),
        Instruction::BCC | Instruction::BCS | Instruction::BEQ | Instruction::BNE | Instruction::BMI
        | Instruction::BPL | Instruction::BVC | Instruction::BVS => {
            let t = target_of(op, r);
            if branch_taken(ins, r.status) {
                (Registers { pcl: t, ..r }, mem, branch_penalty(ins, r.status, r.pcl, t))
            } else {
                (r, mem, 0)
            }
        },
        Instruction::JMP | Instruction::JSR | Instruction::RTS | Instruction::BRK | Instruction::RTI
        | Instruction::PHA | Instruction::PHP | Instruction::PLA | Instruction::PLP => {
            let c = control_spec(ins, op, r, mem);
            (c.0, c.1, 0)
        },
        _ => (register_spec(ins, r), mem, 0),
    }
}

/// The only extra cycles an instruction itself owes are those of a taken branch.
pub proof fn lemma_instruction_extra_cycles(ins: Instruction, op: Operand, r: Registers, mem: Seq<u8>)
    ensures
        execute_spec(ins, op, r, mem).2 == branch_penalty(ins, r.status, r.pcl, target_of(op, r)),
{
    reveal(execute_spec);
}

// ---------------------------------------------------------------- execution

fn set_nz(regs: &mut Registers, v: u8)
    ensures
        *final(regs) == (Registers { status: nz(old(regs).status, v), ..*old(regs) }),
{
    regs.set_flag(StatusRegisterFlags::Z, v == 0);
    regs.set_flag(StatusRegisterFlags::N, v >= 0x80);
}

/// Binary add with carry, as `adc_spec`.
pub fn add_with_carry(a: u8, m: u8, carry: bool) -> (r: (u8, bool, bool))
    ensures
        r == adc_spec(a, m, carry),
{
    let sum: u16 = a as u16 + m as u16 + if carry {
        1u16
    } else {
        0u16
    };
    let v = (sum % 0x100) as u8;
    // Overflow: both inputs have one sign and the result the other.
    let overflow = (a >= 0x80) == (m >= 0x80) && (v >= 0x80) != (a >= 0x80);
    (v, sum > 0xFF, overflow)
}

/// Binary subtract with borrow, as `sbc_spec`: an add of the operand's ones' complement.
pub fn subtract_with_borrow(a: u8, m: u8, carry: bool) -> (r: (u8, bool, bool))
    ensures
        r == sbc_spec(a, m, carry),
{
    let r = add_with_carry(a, 0xFF - m, carry);
    assert(signed((0xFF - m) as u8) == -signed(m) - 1);
    r
}

fn compare(regs: &mut Registers, reg: u8, m: u8)
    ensures
        *final(regs) == (Registers { status: compare_spec(old(regs).status, reg, m), ..*old(regs) }),
{
    regs.set_flag(StatusRegisterFlags::C, reg >= m);
    set_nz(regs, reg.wrapping_sub(m));
}

fn read_operand(op: Operand, regs: &Registers, bus: &Bus) -> (v: u8)
    ensures
        v == operand_value(op, *regs, bus@),
{
    match op {
        Operand::Implied => 0,
        Operand::Accumulator => regs.acc,
        Operand::Memory(a) => bus.read(a),
    }
}

fn write_operand(op: Operand, v: u8, regs: &mut Registers, bus: &mut Bus)
    ensures
        (*final(regs), final(bus)@) == write_spec(op, v, *old(regs), old(bus)@),
{
    match op {
        Operand::Implied => {},
        Operand::Accumulator => {
            regs.acc = v;
        },
        Operand::Memory(a) => {
            bus.write(a, v);
        },
    }
}

fn store(op: Operand, v: u8, bus: &mut Bus)
    ensures
        final(bus)@ == store_spec(op, v, old(bus)@),
{
    if let Operand::Memory(a) = op {
        bus.write(a, v);
    }
}

fn execute_read(ins: Instruction, m: u8, regs: &mut Registers)
    ensures
        *final(regs) == read_spec(ins, m, *old(regs)),
{
    match ins {
        Instruction::ADC => {
            let (v, c, o) = add_with_carry(regs.acc, m, regs.get_flag(StatusRegisterFlags::C));
            regs.acc = v;
            regs.set_flag(StatusRegisterFlags::C, c);
            regs.set_flag(StatusRegisterFlags::V, o);
            set_nz(regs, v);
        },
        Instruction::SBC => {
            let (v, c, o) = subtract_with_borrow(regs.acc, m, regs.get_flag(StatusRegisterFlags::C));
            regs.acc = v;
            regs.set_flag(StatusRegisterFlags::C, c);
            regs.set_flag(StatusRegisterFlags::V, o);
            set_nz(regs, v);
        },
        Instruction::AND => {
            regs.acc = regs.acc & m;
            set_nz(regs, regs.acc);
        },
        Instruction::ORA => {
            regs.acc = regs.acc | m;
            set_nz(regs, regs.acc);
        },
        Instruction::EOR => {
            regs.acc = regs.acc ^ m;
            set_nz(regs, regs.acc);
        },
        Instruction::CMP => compare(regs, regs.acc, m),
        Instruction::CPX => compare(regs, regs.x, m),
        Instruction::CPY => compare(regs, regs.y, m),
        Instruction::BIT => {
            regs.set_flag(StatusRegisterFlags::Z, regs.acc & m == 0);
            regs.set_flag(StatusRegisterFlags::V, m & 0x40 != 0);
            regs.set_flag(StatusRegisterFlags::N, m & 0x80 != 0);
        },
        Instruction::LDA => {
            regs.acc = m;
            set_nz(regs, m);
        },
        Instruction::LDX => {
            regs.x = m;
            set_nz(regs, m);
        },
        Instruction::LDY => {
            regs.y = m;
            set_nz(regs, m);
        },
        _ => {},
    }
}

fn shift_left(v: u8, carry_in: u8) -> (r: u8)
    requires
        carry_in <= 1,
    ensures
        r == wrap8(v * 2 + carry_in),
{
    (v % 0x80) * 2 + carry_in
}

fn shift_right(v: u8, carry_in: u8) -> (r: u8)
    requires
        carry_in <= 1,
    ensures
        r == v / 2 + carry_in * 0x80,
{
    v / 2 + carry_in * 0x80
}

fn modify(ins: Instruction, v: u8, carry: bool) -> (r: (u8, bool))
    ensures
        r == modify_spec(ins, v, carry),
{
    let c: u8 = if carry {
        1
    } else {
        0
    };
    match ins {
        Instruction::ASL => (shift_left(v, 0), v >= 0x80),
        Instruction::LSR => (shift_right(v, 0), v % 2 == 1),
        Instruction::ROL => (shift_left(v, c), v >= 0x80),
        Instruction::ROR => (shift_right(v, c), v % 2 == 1),
        Instruction::INC => (v.wrapping_add(1), carry),
        _ => (v.wrapping_sub(1), carry),
    }
}

fn execute_rmw(ins: Instruction, op: Operand, regs: &mut Registers, bus: &mut Bus)
    ensures
        (*final(regs), final(bus)@) == rmw_spec(ins, op, *old(regs), old(bus)@),
{
    let v = read_operand(op, regs, bus);
    let (nv, c) = modify(ins, v, regs.get_flag(StatusRegisterFlags::C));
    match ins {
        Instruction::ASL | Instruction::LSR | Instruction::ROL | Instruction::ROR => {
            regs.set_flag(StatusRegisterFlags::C, c);
        },
        _ => {},
    }
    set_nz(regs, nv);
    write_operand(op, nv, regs, bus);
}

fn execute_register(ins: Instruction, regs: &mut Registers)
    ensures
        *final(regs) == register_spec(ins, *old(regs)),
{
    match ins {
        Instruction::CLC => regs.set_flag(StatusRegisterFlags::C, false),
        Instruction::CLD => regs.set_flag(StatusRegisterFlags::D, false),
        Instruction::CLI => regs.set_flag(StatusRegisterFlags::I, false),
        Instruction::CLV => regs.set_flag(StatusRegisterFlags::V, false),
        Instruction::SEC => regs.set_flag(StatusRegisterFlags::C, true),
        Instruction::SED => regs.set_flag(StatusRegisterFlags::D, true),
        Instruction::SEI => regs.set_flag(StatusRegisterFlags::I, true),
        Instruction::TAX => {
            regs.x = regs.acc;
            set_nz(regs, regs.x);
        },
        Instruction::TAY => {
            regs.y = regs.acc;
            set_nz(regs, regs.y);
        },
        Instruction::TSX => {
            regs.x = regs.sp;
            set_nz(regs, regs.x);
        },
        Instruction::TXA => {
            regs.acc = regs.x;
            set_nz(regs, regs.acc);
        },
        Instruction::TXS => {
            regs.sp = regs.x;
        },
        Instruction::TYA => {
            regs.acc = regs.y;
            set_nz(regs, regs.acc);
        },
        Instruction::INX => {
            regs.x = regs.x.wrapping_add(1);
            set_nz(regs, regs.x);
        },
        Instruction::INY => {
            regs.y = regs.y.wrapping_add(1);
            set_nz(regs, regs.y);
        },
        Instruction::DEX => {
            regs.x = regs.x.wrapping_sub(1);
            set_nz(regs, regs.x);
        },
        Instruction::DEY => {
            regs.y = regs.y.wrapping_sub(1);
            set_nz(regs, regs.y);
        },
        _ => {},
    }
}

fn target(op: Operand, regs: &Registers) -> (t: u16)
    ensures
        t == target_of(op, *regs),
{
    match op {
        Operand::Memory(a) => a,
        _ => regs.pcl,
    }
}

fn taken(ins: Instruction, regs: &Registers) -> (b: bool)
    ensures
        b == branch_taken(ins, regs.status),
{
    match ins {
        Instruction::BCC => !regs.get_flag(StatusRegisterFlags::C),
        Instruction::BCS => regs.get_flag(StatusRegisterFlags::C),
        Instruction::BEQ => regs.get_flag(StatusRegisterFlags::Z),
        Instruction::BNE => !regs.get_flag(StatusRegisterFlags::Z),
        Instruction::BMI => regs.get_flag(StatusRegisterFlags::N),
        Instruction::BPL => !regs.get_flag(StatusRegisterFlags::N),
        Instruction::BVS => regs.get_flag(StatusRegisterFlags::V),
        Instruction::BVC => !regs.get_flag(StatusRegisterFlags::V),
        _ => false,
    }
}

/// Pushes `v` onto the stack.
pub fn push(regs: &mut Registers, bus: &mut Bus, v: u8)
    ensures
        (*final(regs), final(bus)@) == push_spec(*old(regs), old(bus)@, v),
{
    bus.write(STACK_BASE + regs.sp as u16, v);
    regs.sp = regs.sp.wrapping_sub(1);
}

/// Pulls a byte from the stack.
pub fn pull(regs: &mut Registers, bus: &Bus) -> (v: u8)
    ensures
        (*final(regs), v) == pull_spec(*old(regs), bus@),
{
    regs.sp = regs.sp.wrapping_add(1);
    bus.read(STACK_BASE + regs.sp as u16)
}

fn split_word(v: u16) -> (r: (u8, u8))
    ensures
        r == (lo_byte(v), hi_byte(v)),
{
    ((v % 0x100) as u8, (v / 0x100) as u8)
}

fn join_bytes(lo: u8, hi: u8) -> (r: u16)
    ensures
        r == word(lo, hi),
{
    (hi as u16) * 0x100 + (lo as u16)
}

fn status_to_push(status: u8, brk: bool) -> (r: u8)
    ensures
        r == pushed_status(status, brk),
{
    let mut tmp = Registers { acc: 0, x: 0, y: 0, sp: 0, pcl: 0, status };
    tmp.set_flag(StatusRegisterFlags::B, brk);
    tmp.set_flag(StatusRegisterFlags::U, true);
    tmp.status
}

fn status_from_pull(v: u8) -> (r: u8)
    ensures
        r == pulled_status(v),
{
    let mut tmp = Registers { acc: 0, x: 0, y: 0, sp: 0, pcl: 0, status: v };
    tmp.set_flag(StatusRegisterFlags::B, false);
    tmp.set_flag(StatusRegisterFlags::U, true);
    tmp.status
}

/// Runs the interrupt sequence of `interrupt_spec`.
pub fn interrupt(regs: &mut Registers, bus: &mut Bus, ret: u16, brk: bool, vector: u16)
    ensures
        (*final(regs), final(bus)@) == interrupt_spec(*old(regs), old(bus)@, ret, brk, vector),
{
    let status = regs.status;
    let (lo, hi) = split_word(ret);
    push(regs, bus, hi);
    push(regs, bus, lo);
    push(regs, bus, status_to_push(status, brk));
    let lo = bus.read(vector);
    let hi = bus.read(vector.wrapping_add(1));
    regs.pcl = join_bytes(lo, hi);
    regs.status = status;
    regs.set_flag(StatusRegisterFlags::I, true);
}

fn call_subroutine(op: Operand, regs: &mut Registers, bus: &mut Bus)
    ensures
        (*final(regs), final(bus)@) == control_spec(Instruction::JSR, op, *old(regs), old(bus)@),
{
    let t = target(op, regs);
    let (lo, hi) = split_word(regs.pcl.wrapping_sub(1));
    push(regs, bus, hi);
    push(regs, bus, lo);
    regs.pcl = t;
}

fn return_from_subroutine(regs: &mut Registers, bus: &Bus)
    ensures
        (*final(regs), bus@) == control_spec(Instruction::RTS, Operand::Implied, *old(regs), bus@),
{
    let lo = pull(regs, bus);
    let hi = pull(regs, bus);
    regs.pcl = join_bytes(lo, hi).wrapping_add(1);
}

fn return_from_interrupt(regs: &mut Registers, bus: &Bus)
    ensures
        (*final(regs), bus@) == control_spec(Instruction::RTI, Operand::Implied, *old(regs), bus@),
{
    let st = pull(regs, bus);
    let lo = pull(regs, bus);
    let hi = pull(regs, bus);
    regs.pcl = join_bytes(lo, hi);
    regs.status = status_from_pull(st);
}

fn execute_control(ins: Instruction, op: Operand, regs: &mut Registers, bus: &mut Bus)
    ensures
        (*final(regs), final(bus)@) == control_spec(ins, op, *old(regs), old(bus)@),
{
    match ins {
        Instruction::JMP => {
            regs.pcl = target(op, regs);
        },
        Instruction::JSR => call_subroutine(op, regs, bus),
        Instruction::RTS => return_from_subroutine(regs, bus),
        Instruction::BRK => {
            let ret = regs.pcl.wrapping_add(1);
            interrupt(regs, bus, ret, true, IRQ_VECTOR);
        },
        Instruction::RTI => return_from_interrupt(regs, bus),
        Instruction::PHA => {
            let a = regs.acc;
            push(regs, bus, a);
        },
        Instruction::PHP => {
            let st = status_to_push(regs.status, true);
            push(regs, bus, st);
        },
        Instruction::PLA => {
            let v = pull(regs, bus);
            regs.acc = v;
            set_nz(regs, v);
        },
        Instruction::PLP => {
            let v = pull(regs, bus);
            regs.status = status_from_pull(v);
        },
        _ => {},
    }
}

/// Executes `ins` on the resolved operand `op`, with `regs.pcl` already past
/// the operand bytes. Returns the extra cycles the instruction owes: one for a
/// taken branch, and one more when its target lies in another page.
pub fn execute(ins: Instruction, op: Operand, regs: &mut Registers, bus: &mut Bus) -> (extra: u8)
    ensures
        (*final(regs), final(bus)@, extra) == execute_spec(ins, op, *old(regs), old(bus)@),
        extra <= 2,
{
    reveal(execute_spec);
    match ins {
        Instruction::ADC | Instruction::SBC | Instruction::AND | Instruction::ORA | Instruction::EOR
        | Instruction::CMP | Instruction::CPX | Instruction::CPY | Instruction::BIT | Instruction::LDA
        | Instruction::LDX | Instruction::LDY => {
            let m = read_operand(op, regs, bus);
            execute_read(ins, m, regs);
            0
        },
        Instruction::ASL | Instruction::LSR | Instruction::ROL | Instruction::ROR | Instruction::INC
        | Instruction::DEC => {
            execute_rmw(ins, op, regs, bus);
            0
        },
        Instruction::STA => {
            store(op, regs.acc, bus);
            0
        },
        Instruction::STX => {
            store(op, regs.x, bus);
            0
        },
        Instruction::STY => {
            store(op, regs.y, bus);
            0
        },
        Instruction::BCC | Instruction::BCS | Instruction::BEQ | Instruction::BNE | Instruction::BMI
        | Instruction::BPL | Instruction::BVC | Instruction::BVS => {
            if taken(ins, regs) {
                let t = target(op, regs);
                let extra: u8 = if t / 0x100 != regs.pcl / 0x100 {
                    2
                } else {
                    1
                };
                regs.pcl = t;
                extra
            } else {
                0
            }
        },
        Instruction::JMP | Instruction::JSR | Instruction::RTS | Instruction::BRK | Instruction::RTI
        | Instruction::PHA | Instruction::PHP | Instruction::PLA | Instruction::PLP => {
            execute_control(ins, op, regs, bus);
            0
        },
        _ => {
            execute_register(ins, regs);
            0
        },
    }
}

} // verus!
