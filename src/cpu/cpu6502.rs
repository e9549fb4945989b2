//! The clocked engine: fetch, decode and execute on the first tick of an
//! instruction, count the rest down, and serve reset, NMI and IRQ requests.
//!
//! An instruction in the AbsoluteX, AbsoluteY or IndirectY mode pays one
//! extra cycle whenever indexing crosses a page, stores and read-modify-write
//! instructions included.

use vstd::prelude::*;

use crate::bus::Bus;
use crate::cpu::addressing::{
    lemma_only_indexing_crosses_pages, resolve, resolve_spec, word, wrap16,
};
use crate::cpu::execute::{
    branch_penalty, execute, execute_spec, interrupt, interrupt_spec, lemma_instruction_extra_cycles,
    target_of, IRQ_VECTOR,
};
use crate::cpu::opcode::{decode, lemma_base_cycles, opcode_spec};
use crate::cpu::register::{flag_set, Registers, StatusRegisterFlags};

verus! {

/// Address of the reset vector (low byte; the high byte follows).
pub const RESET_VECTOR: u16 = 0xFFFC;

/// Address of the NMI vector (low byte; the high byte follows).
pub const NMI_VECTOR: u16 = 0xFFFA;

/// Cycles taken to enter an IRQ or NMI handler.
pub const INTERRUPT_CYCLES: u8 = 7;

/// Stack pointer after a reset.
pub const POWER_UP_SP: u8 = 0xFD;

/// Status after a reset: InterruptDisable and Unused set.
pub const POWER_UP_STATUS: u8 = 0x24;

/// A processor core that owns its registers and its bus.
///
/// Each call of `clock_cycle` is one clock tick. An instruction is fetched,
/// decoded and executed whole on the first tick of its run; the remaining
/// ticks only count down `cycles`. NMI and IRQ requests wait for the next
/// instruction boundary (`cycles == 0`); a reset is served on the next tick.
pub struct Cpu6502 {
    /// CPU registers.
    pub registers: Registers,
    /// Communication bus.
    pub bus: Bus,
    /// Ticks still owed by the instruction in flight.
    pub cycles: u8,
    /// A reset has been requested.
    pub reset_pending: bool,
    /// A non-maskable interrupt has been requested.
    pub nmi_pending: bool,
    /// An interrupt request has been made and not yet served.
    pub irq_pending: bool,
}

/// The state of a core, with the bus seen as its 65536 bytes.
pub struct Machine {
    pub registers: Registers,
    pub memory: Seq<u8>,
    pub cycles: u8,
    pub reset_pending: bool,
    pub nmi_pending: bool,
    pub irq_pending: bool,
}

impl View for Cpu6502 {
    type V = Machine;

    open spec fn view(&self) -> Machine {
        Machine {
            registers: self.registers,
            memory: self.bus@,
            cycles: self.cycles,
            reset_pending: self.reset_pending,
            nmi_pending: self.nmi_pending,
            irq_pending: self.irq_pending,
        }
    }
}

/// The little-endian word stored at `a` and `a + 1`.
pub open spec fn vector_at(mem: Seq<u8>, a: u16) -> u16 {
    word(mem[a as int], mem[wrap16(a + 1) as int])
}

/// The registers right after a reset.
pub open spec fn power_up_registers(mem: Seq<u8>) -> Registers {
    Registers {
        acc: 0,
        x: 0,
        y: 0,
        sp: POWER_UP_SP,
        pcl: vector_at(mem, RESET_VECTOR),
        status: POWER_UP_STATUS,
    }
}

/// The cycles an instruction takes in all: its base count, one more when
/// indexing crossed a page, and what the instruction itself adds (branches).
pub open spec fn total_cycles(base: u8, page_crossed: bool, extra: u8) -> int {
    base + (if page_crossed {
        1int
    } else {
        0
    }) + extra
}

/// One fetch-decode-execute step at an instruction boundary; the tick that
/// makes it is the first of the instruction's cycles.
pub open spec fn fetch_spec(m: Machine) -> Machine {
    let d = opcode_spec(m.memory[m.registers.pcl as int]);
    let r0 = Registers { pcl: wrap16(m.registers.pcl + 1), ..m.registers };
    let res = resolve_spec(d.addr_mode, r0, m.memory);
    let e = execute_spec(d.instruction, res.operand, Registers { pcl: res.pc, ..r0 }, m.memory);
    Machine {
        registers: e.0,
        memory: e.1,
        cycles: (total_cycles(d.clock_cycles, res.page_crossed, e.2) - 1) as u8,
        ..m
    }
}

/// Entering an interrupt handler through `vector`.
pub open spec fn serve_spec(m: Machine, vector: u16) -> Machine {
    let i = interrupt_spec(m.registers, m.memory, m.registers.pcl, false, vector);
    Machine { registers: i.0, memory: i.1, cycles: (INTERRUPT_CYCLES - 1) as u8, ..m }
}

/// Whether a pending IRQ is served at the next boundary.
pub open spec fn irq_served(m: Machine) -> bool {
    m.irq_pending && !flag_set(m.registers.status, StatusRegisterFlags::I)
}

/// One clock tick.
///
/// A pending reset is served at once, abandoning any instruction in flight.
/// Otherwise mid-instruction the tick counts down; at a boundary an NMI comes
/// first, then an IRQ unless InterruptDisable is set, and with neither the
/// tick fetches and executes the next instruction.
pub open spec fn tick_spec(m: Machine) -> Machine {
    if m.reset_pending {
        Machine {
            registers: power_up_registers(m.memory),
            cycles: 0,
            reset_pending: false,
            nmi_pending: false,
            irq_pending: false,
            ..m
        }
    } else if m.cycles > 0 {
        Machine { cycles: (m.cycles - 1) as u8, ..m }
    } else if m.nmi_pending {
        Machine { nmi_pending: false, ..serve_spec(m, NMI_VECTOR) }
    } else if irq_served(m) {
        Machine { irq_pending: false, ..serve_spec(m, IRQ_VECTOR) }
    } else {
        fetch_spec(m)
    }
}

impl Cpu6502 {
    /// A core on `bus` with every register zero, no instruction in flight and no request pending.
    pub fn new(bus: Bus) -> (r: Cpu6502)
        ensures
            r.registers == (Registers { acc: 0, x: 0, y: 0, sp: 0, pcl: 0, status: 0 }),
            r.bus@ == bus@,
            r.cycles == 0,
            !r.reset_pending,
            !r.nmi_pending,
            !r.irq_pending,
    {
        Cpu6502 {
            registers: Registers { acc: 0x00, x: 0x00, y: 0x00, sp: 0x00, pcl: 0x0000, status: 0x00 },
            bus: bus,
            cycles: 0x00,
            reset_pending: false,
            nmi_pending: false,
            irq_pending: false,
        }
    }

    fn fetch_execute(&mut self)
        requires
            old(self).cycles == 0,
        ensures
            final(self)@ == fetch_spec(old(self)@),
    {
        let opcode = self.bus.read(self.registers.pcl);
        self.registers.pcl = self.registers.pcl.wrapping_add(1);
        let d = decode(opcode);
        let res = resolve(d.addr_mode, &self.registers, &self.bus);
        self.registers.pcl = res.pc;
        let extra = execute(d.instruction, res.operand, &mut self.registers, &mut self.bus);
        let penalty: u8 = if res.page_crossed {
            1
        } else {
            0
        };
        self.cycles = d.clock_cycles + penalty + extra - 1;
    }

    fn serve(&mut self, vector: u16)
        ensures
            final(self)@ == serve_spec(old(self)@, vector),
    {
        let ret = self.registers.pcl;
        interrupt(&mut self.registers, &mut self.bus, ret, false, vector);
        self.cycles = INTERRUPT_CYCLES - 1;
    }

    fn power_up(&mut self)
        ensures
            final(self)@ == (Machine { registers: power_up_registers(old(self)@.memory), ..old(self)@ }),
    {
        let lo = self.bus.read(RESET_VECTOR);
        let hi = self.bus.read(RESET_VECTOR + 1);
        self.registers = Registers {
            acc: 0,
            x: 0,
            y: 0,
            sp: POWER_UP_SP,
            pcl: (hi as u16) * 0x100 + (lo as u16),
            status: POWER_UP_STATUS,
        };
    }

    /// One clock tick, as `tick_spec` describes.
    pub fn clock_cycle(&mut self)
        ensures
            final(self)@ == tick_spec(old(self)@),
    {
        if self.reset_pending {
            self.power_up();
            self.cycles = 0;
            self.reset_pending = false;
            self.nmi_pending = false;
            self.irq_pending = false;
        } else if self.cycles > 0 {
            self.cycles = self.cycles - 1;
        } else if self.nmi_pending {
            self.serve(NMI_VECTOR);
            self.nmi_pending = false;
        } else if self.irq_pending && !self.registers.get_flag(StatusRegisterFlags::I) {
            self.serve(IRQ_VECTOR);
            self.irq_pending = false;
        } else {
            self.fetch_execute();
        }
    }

    /// Requests a reset, served on the next tick; a second request before then is absorbed.
    pub fn reset(&mut self)
        ensures
            final(self)@ == (Machine { reset_pending: true, ..old(self)@ }),
    {
        self.reset_pending = true;
    }

    /// Requests an interrupt; it is served at an instruction boundary where
    /// InterruptDisable is clear. A second request before then is absorbed.
    pub fn irq(&mut self)
        ensures
            final(self)@ == (Machine { irq_pending: true, ..old(self)@ }),
    {
        self.irq_pending = true;
    }

    /// Requests a non-maskable interrupt at the next instruction boundary; a
    /// second request before then is absorbed.
    pub fn nmi(&mut self)
        ensures
            final(self)@ == (Machine { nmi_pending: true, ..old(self)@ }),
    {
        self.nmi_pending = true;
    }
}

/// A core on `bus`, as `Cpu6502::new` builds it.
pub fn new(bus: Bus) -> (r: Cpu6502)
    ensures
        r.registers == (Registers { acc: 0, x: 0, y: 0, sp: 0, pcl: 0, status: 0 }),
        r.bus@ == bus@,
        r.cycles == 0,
        !r.reset_pending,
        !r.nmi_pending,
        !r.irq_pending,
{
    Cpu6502::new(bus)
}

/// After a reset request, the next tick leaves every register at its
/// power-up value, the program counter at the word stored in the reset
/// vector, and no instruction in flight, whatever the core was doing.
pub proof fn lemma_reset_on_next_tick(m: Machine)
    requires
        m.reset_pending,
    ensures
        tick_spec(m).registers.pcl == word(m.memory[0xFFFC], m.memory[0xFFFD]),
        tick_spec(m).registers.sp == POWER_UP_SP,
        tick_spec(m).registers.acc == 0,
        tick_spec(m).registers.x == 0,
        tick_spec(m).registers.y == 0,
        tick_spec(m).registers.status == POWER_UP_STATUS,
        tick_spec(m).cycles == 0,
        tick_spec(m).memory == m.memory,
{
}

/// While InterruptDisable is set, a pending IRQ request changes nothing that a
/// tick does to the registers, the memory or the countdown.
pub proof fn lemma_masked_irq_ignored(m: Machine)
    requires
        flag_set(m.registers.status, StatusRegisterFlags::I),
    ensures
        tick_spec(m).registers == tick_spec(Machine { irq_pending: false, ..m }).registers,
        tick_spec(m).memory == tick_spec(Machine { irq_pending: false, ..m }).memory,
        tick_spec(m).cycles == tick_spec(Machine { irq_pending: false, ..m }).cycles,
{
}

/// At an instruction boundary with no interrupt to serve, the cycles that the
/// fetched instruction takes (the tick that fetches it and the countdown it
/// leaves) are its base count, one more when index addition crossed a page,
/// which only the AbsoluteX, AbsoluteY and IndirectY modes can do, and for a
/// branch, one when it is taken and one more when its target lies in another
/// page than the next instruction.
pub proof fn lemma_cycle_accounting(m: Machine)
    requires
        m.memory.len() == 0x10000,
        m.cycles == 0,
        !m.reset_pending,
        !m.nmi_pending,
        !irq_served(m),
    ensures
        ({
            let d = opcode_spec(m.memory[m.registers.pcl as int]);
            let r0 = Registers { pcl: wrap16(m.registers.pcl + 1), ..m.registers };
            let res = resolve_spec(d.addr_mode, r0, m.memory);
            let target = target_of(res.operand, Registers { pcl: res.pc, ..r0 });
            &&& tick_spec(m).cycles + 1 == d.clock_cycles + (if res.page_crossed {
                1int
            } else {
                0
            }) + branch_penalty(d.instruction, m.registers.status, res.pc, target)
            &&& res.page_crossed ==> (d.addr_mode is AbsoluteX || d.addr_mode is AbsoluteY
                || d.addr_mode is IndirectY)
        }),
{
    let d = opcode_spec(m.memory[m.registers.pcl as int]);
    let r0 = Registers { pcl: wrap16(m.registers.pcl + 1), ..m.registers };
    let res = resolve_spec(d.addr_mode, r0, m.memory);
    lemma_base_cycles(m.memory[m.registers.pcl as int]);
    lemma_only_indexing_crosses_pages(d.addr_mode, r0, m.memory);
    lemma_instruction_extra_cycles(d.instruction, res.operand, Registers { pcl: res.pc, ..r0 }, m.memory);
}

} // verus!
