use emu6502::bus::Bus;
use emu6502::cpu::addressing::{resolve, Operand};
use emu6502::cpu::cpu6502::{new, Cpu6502};
use emu6502::cpu::execute::{add_with_carry, subtract_with_borrow};
use emu6502::cpu::opcode::{decode, opcode_matrix, AddressingMode, Instruction, OpCode};
use emu6502::cpu::register::{CpuRegisters, Registers, StatusRegisterFlags};

/// A core whose program bytes start at `origin`, with the program counter there.
fn cpu_with(origin: u16, program: &[u8]) -> Cpu6502 {
    let mut bus = Bus::new();
    for (i, b) in program.iter().enumerate() {
        bus.write(origin + i as u16, *b);
    }
    let mut cpu = Cpu6502::new(bus);
    cpu.registers.pcl = origin;
    cpu
}

/// Runs one whole instruction (or interrupt entry) and returns the ticks it took.
fn step(cpu: &mut Cpu6502) -> u32 {
    cpu.clock_cycle();
    let mut ticks = 1;
    while cpu.cycles > 0 {
        cpu.clock_cycle();
        ticks += 1;
    }
    ticks
}

fn flag(cpu: &Cpu6502, f: StatusRegisterFlags) -> bool {
    cpu.registers.get_flag(f)
}

#[test]
fn opcode_matrix_has_one_entry_per_byte() {
    let t = opcode_matrix();
    assert_eq!(t.len(), 256);
    for b in 0..=255u8 {
        assert_eq!(t[b as usize], decode(b));
    }
    let documented = t
        .iter()
        .enumerate()
        .filter(|(b, d)| !(d.instruction == Instruction::NOP && *b != 0xEA))
        .count();
    assert_eq!(documented, 151);
}

#[test]
fn decode_known_and_undocumented_bytes() {
    assert_eq!(
        decode(0xA9),
        OpCode { instruction: Instruction::LDA, addr_mode: AddressingMode::Immediate, clock_cycles: 2 }
    );
    assert_eq!(
        decode(0x6C),
        OpCode { instruction: Instruction::JMP, addr_mode: AddressingMode::Indirect, clock_cycles: 5 }
    );
    assert_eq!(
        decode(0xB6),
        OpCode { instruction: Instruction::LDX, addr_mode: AddressingMode::ZeroPageY, clock_cycles: 4 }
    );
    assert_eq!(
        decode(0x00),
        OpCode { instruction: Instruction::BRK, addr_mode: AddressingMode::Implied, clock_cycles: 7 }
    );
    for b in [0x02u8, 0x1A, 0x80, 0xFF] {
        assert_eq!(
            decode(b),
            OpCode { instruction: Instruction::NOP, addr_mode: AddressingMode::Implied, clock_cycles: 2 }
        );
    }
}

#[test]
fn bus_reads_back_what_was_written() {
    let mut bus = Bus::new();
    assert_eq!(bus.read(0x1234), 0);
    bus.write(0x1234, 0xAB);
    bus.write(0xFFFF, 0x01);
    assert_eq!(bus.read(0x1234), 0xAB);
    assert_eq!(bus.read(0xFFFF), 0x01);
    assert_eq!(bus.read(0x1235), 0);
}

#[test]
fn register_accessors_chain() {
    let mut r = Registers { acc: 0, x: 0, y: 0, sp: 0, pcl: 0, status: 0 };
    r.set_acc(1).set_x(2).set_y(3).set_sp(4).set_pcl(0x0506).set_status(0x07);
    assert_eq!(
        (r.get_acc(), r.get_x(), r.get_y(), r.get_sp(), r.get_pcl(), r.get_status()),
        (1, 2, 3, 4, 0x0506, 0x07)
    );
}

#[test]
fn flags_set_and_clear_one_bit() {
    let mut r = Registers { acc: 0, x: 0, y: 0, sp: 0, pcl: 0, status: 0 };
    r.set_flag(StatusRegisterFlags::V, true);
    assert_eq!(r.status, 0x40);
    r.set_flag(StatusRegisterFlags::C, true);
    assert_eq!(r.status, 0x41);
    assert!(r.get_flag(StatusRegisterFlags::V));
    assert!(!r.get_flag(StatusRegisterFlags::N));
    r.set_flag(StatusRegisterFlags::V, false);
    assert_eq!(r.status, 0x01);
    assert_eq!(StatusRegisterFlags::N.mask(), 0x80);
}

#[test]
fn new_core_is_zeroed() {
    let cpu = new(Bus::new());
    assert_eq!(cpu.registers, Registers { acc: 0, x: 0, y: 0, sp: 0, pcl: 0, status: 0 });
    assert_eq!(cpu.cycles, 0);
}

#[test]
fn adc_wraps_to_zero_with_carry() {
    assert_eq!(add_with_carry(0xFF, 0x01, false), (0x00, true, false));
    // CLC; LDA #$FF; ADC #$01
    let mut cpu = cpu_with(0x0200, &[0x18, 0xA9, 0xFF, 0x69, 0x01]);
    step(&mut cpu);
    step(&mut cpu);
    step(&mut cpu);
    assert_eq!(cpu.registers.acc, 0x00);
    assert!(flag(&cpu, StatusRegisterFlags::C));
    assert!(flag(&cpu, StatusRegisterFlags::Z));
    assert!(!flag(&cpu, StatusRegisterFlags::V));
    assert!(!flag(&cpu, StatusRegisterFlags::N));
}

#[test]
fn adc_signed_overflow() {
    assert_eq!(add_with_carry(0x7F, 0x01, false), (0x80, false, true));
    assert_eq!(add_with_carry(0x80, 0xFF, false), (0x7F, true, true));
    assert_eq!(add_with_carry(0x10, 0x20, true), (0x31, false, false));
}

#[test]
fn sbc_borrows_below_zero() {
    assert_eq!(subtract_with_borrow(0x00, 0x01, true), (0xFF, false, false));
    assert_eq!(subtract_with_borrow(0x80, 0x01, true), (0x7F, true, true));
    assert_eq!(subtract_with_borrow(0x05, 0x03, false), (0x01, true, false));
    // SEC; LDA #$00; SBC #$01
    let mut cpu = cpu_with(0x0200, &[0x38, 0xA9, 0x00, 0xE9, 0x01]);
    step(&mut cpu);
    step(&mut cpu);
    step(&mut cpu);
    assert_eq!(cpu.registers.acc, 0xFF);
    assert!(!flag(&cpu, StatusRegisterFlags::C));
    assert!(flag(&cpu, StatusRegisterFlags::N));
    assert!(!flag(&cpu, StatusRegisterFlags::Z));
}

#[test]
fn lda_immediate_zero_sets_zero() {
    let mut cpu = cpu_with(0x0200, &[0xA9, 0x00]);
    cpu.registers.acc = 0x55;
    cpu.registers.status = 0x80;
    assert_eq!(step(&mut cpu), 2);
    assert_eq!(cpu.registers.acc, 0x00);
    assert!(flag(&cpu, StatusRegisterFlags::Z));
    assert!(!flag(&cpu, StatusRegisterFlags::N));
    assert_eq!(cpu.registers.pcl, 0x0202);
}

#[test]
fn beq_taken_same_page() {
    let mut cpu = cpu_with(0x0200, &[0xF0, 0x02]);
    cpu.registers.set_flag(StatusRegisterFlags::Z, true);
    assert_eq!(step(&mut cpu), 3);
    assert_eq!(cpu.registers.pcl, 0x0200 + 2 + 2);
}

#[test]
fn beq_taken_across_page() {
    let mut cpu = cpu_with(0x02FC, &[0xF0, 0x02]);
    cpu.registers.set_flag(StatusRegisterFlags::Z, true);
    assert_eq!(step(&mut cpu), 4);
    assert_eq!(cpu.registers.pcl, 0x0300);
}

#[test]
fn beq_not_taken_and_backward_branch() {
    let mut cpu = cpu_with(0x0200, &[0xF0, 0x02]);
    assert_eq!(step(&mut cpu), 2);
    assert_eq!(cpu.registers.pcl, 0x0202);
    // BNE -4 from 0x0210 lands at 0x020E.
    let mut cpu = cpu_with(0x0210, &[0xD0, 0xFC]);
    assert_eq!(step(&mut cpu), 3);
    assert_eq!(cpu.registers.pcl, 0x020E);
}

#[test]
fn reset_loads_vector_and_power_up_values() {
    let mut cpu = cpu_with(0x0200, &[0xEA]);
    cpu.bus.write(0xFFFC, 0x34);
    cpu.bus.write(0xFFFD, 0x12);
    cpu.registers.acc = 9;
    cpu.registers.x = 8;
    cpu.registers.y = 7;
    cpu.reset();
    cpu.clock_cycle();
    assert_eq!(cpu.registers.pcl, 0x1234);
    assert_eq!(cpu.registers.sp, 0xFD);
    assert_eq!((cpu.registers.acc, cpu.registers.x, cpu.registers.y), (0, 0, 0));
    assert!(flag(&cpu, StatusRegisterFlags::I));
    assert_eq!(cpu.cycles, 0);
}

#[test]
fn reset_abandons_instruction_in_flight() {
    let mut cpu = cpu_with(0x0200, &[0x00]);
    cpu.bus.write(0xFFFC, 0x00);
    cpu.bus.write(0xFFFD, 0x80);
    cpu.clock_cycle();
    assert!(cpu.cycles > 0);
    cpu.reset();
    cpu.reset();
    cpu.clock_cycle();
    assert_eq!(cpu.registers.pcl, 0x8000);
    assert_eq!(cpu.cycles, 0);
}

#[test]
fn masked_irq_is_not_taken() {
    let mut cpu = cpu_with(0x0200, &[0xEA, 0xEA]);
    cpu.bus.write(0xFFFE, 0x00);
    cpu.bus.write(0xFFFF, 0x90);
    cpu.registers.set_flag(StatusRegisterFlags::I, true);
    cpu.irq();
    assert_eq!(step(&mut cpu), 2);
    assert_eq!(cpu.registers.pcl, 0x0201);
    assert_eq!(step(&mut cpu), 2);
    assert_eq!(cpu.registers.pcl, 0x0202);
}

#[test]
fn irq_taken_when_enabled() {
    let mut cpu = cpu_with(0x0200, &[0xEA]);
    cpu.bus.write(0xFFFE, 0x00);
    cpu.bus.write(0xFFFF, 0x90);
    cpu.registers.sp = 0xFF;
    cpu.registers.status = 0x20;
    cpu.irq();
    cpu.irq();
    assert_eq!(step(&mut cpu), 7);
    assert_eq!(cpu.registers.pcl, 0x9000);
    assert!(flag(&cpu, StatusRegisterFlags::I));
    assert_eq!(cpu.registers.sp, 0xFC);
    assert_eq!(cpu.bus.read(0x01FF), 0x02);
    assert_eq!(cpu.bus.read(0x01FE), 0x00);
    assert_eq!(cpu.bus.read(0x01FD), 0x20);
    // The request was served once.
    cpu.registers.set_flag(StatusRegisterFlags::I, false);
    cpu.bus.write(0x9000, 0xEA);
    assert_eq!(step(&mut cpu), 2);
    assert_eq!(cpu.registers.pcl, 0x9001);
}

#[test]
fn nmi_ignores_mask_and_beats_irq() {
    let mut cpu = cpu_with(0x0200, &[0xEA]);
    cpu.bus.write(0xFFFA, 0x00);
    cpu.bus.write(0xFFFB, 0xA0);
    cpu.registers.sp = 0xFF;
    cpu.registers.set_flag(StatusRegisterFlags::I, true);
    cpu.irq();
    cpu.nmi();
    assert_eq!(step(&mut cpu), 7);
    assert_eq!(cpu.registers.pcl, 0xA000);
}

#[test]
fn interrupt_waits_for_instruction_boundary() {
    let mut cpu = cpu_with(0x0200, &[0xAD, 0x00, 0x30]);
    cpu.bus.write(0xFFFA, 0x00);
    cpu.bus.write(0xFFFB, 0xA0);
    cpu.clock_cycle();
    cpu.nmi();
    cpu.clock_cycle();
    cpu.clock_cycle();
    cpu.clock_cycle();
    assert_eq!(cpu.registers.pcl, 0x0203);
    cpu.clock_cycle();
    assert_eq!(cpu.registers.pcl, 0xA000);
}

#[test]
fn absolute_address_round_trip() {
    let mut bus = Bus::new();
    let addr: u16 = 0xBEEF;
    bus.write(0x0300, (addr & 0xFF) as u8);
    bus.write(0x0301, (addr >> 8) as u8);
    let regs = Registers { acc: 0, x: 0, y: 0, sp: 0, pcl: 0x0300, status: 0 };
    let r = resolve(AddressingMode::Absolute, &regs, &bus);
    assert_eq!(r.operand, Operand::Memory(0xBEEF));
    assert_eq!(r.pc, 0x0302);
    assert!(!r.page_crossed);
    // JMP $BEEF
    let mut cpu = cpu_with(0x0200, &[0x4C, 0xEF, 0xBE]);
    assert_eq!(step(&mut cpu), 3);
    assert_eq!(cpu.registers.pcl, 0xBEEF);
}

#[test]
fn indirect_jump_wraps_within_page() {
    // JMP ($12FF)
    let mut cpu = cpu_with(0x0200, &[0x6C, 0xFF, 0x12]);
    cpu.bus.write(0x12FF, 0x34);
    cpu.bus.write(0x1200, 0x12);
    cpu.bus.write(0x1300, 0x56);
    assert_eq!(step(&mut cpu), 5);
    assert_eq!(cpu.registers.pcl, 0x1234);
    // JMP ($1280) reads the two bytes in order.
    let mut cpu = cpu_with(0x0200, &[0x6C, 0x80, 0x12]);
    cpu.bus.write(0x1280, 0x78);
    cpu.bus.write(0x1281, 0x56);
    step(&mut cpu);
    assert_eq!(cpu.registers.pcl, 0x5678);
}

#[test]
fn indexed_page_crossing_costs_a_cycle() {
    // LDA $12F0,X with X = $0F: no crossing.
    let mut cpu = cpu_with(0x0200, &[0xBD, 0xF0, 0x12]);
    cpu.registers.x = 0x0F;
    cpu.bus.write(0x12FF, 0x42);
    assert_eq!(step(&mut cpu), 4);
    assert_eq!(cpu.registers.acc, 0x42);
    // LDA $12F0,X with X = $20 crosses into page $13.
    let mut cpu = cpu_with(0x0200, &[0xBD, 0xF0, 0x12]);
    cpu.registers.x = 0x20;
    cpu.bus.write(0x1310, 0x43);
    assert_eq!(step(&mut cpu), 5);
    assert_eq!(cpu.registers.acc, 0x43);
    // LDA ($40),Y with base $20F0 and Y = $10 crosses.
    let mut cpu = cpu_with(0x0200, &[0xB1, 0x40]);
    cpu.bus.write(0x0040, 0xF0);
    cpu.bus.write(0x0041, 0x20);
    cpu.registers.y = 0x10;
    cpu.bus.write(0x2100, 0x44);
    assert_eq!(step(&mut cpu), 6);
    assert_eq!(cpu.registers.acc, 0x44);
}

#[test]
fn zero_page_indexing_wraps_in_page_zero() {
    // LDA $F0,X with X = $20 reads $0010.
    let mut cpu = cpu_with(0x0200, &[0xB5, 0xF0]);
    cpu.registers.x = 0x20;
    cpu.bus.write(0x0010, 0x99);
    cpu.bus.write(0x0110, 0x11);
    assert_eq!(step(&mut cpu), 4);
    assert_eq!(cpu.registers.acc, 0x99);
    // LDA ($FF,X) with X = 0 takes the pointer from $FF and $00.
    let mut cpu = cpu_with(0x0200, &[0xA1, 0xFF]);
    cpu.bus.write(0x00FF, 0x00);
    cpu.bus.write(0x0000, 0x30);
    cpu.bus.write(0x3000, 0x77);
    assert_eq!(step(&mut cpu), 6);
    assert_eq!(cpu.registers.acc, 0x77);
}

#[test]
fn subroutine_call_and_return() {
    // JSR $0300 ... at $0300: RTS
    let mut cpu = cpu_with(0x0200, &[0x20, 0x00, 0x03]);
    cpu.bus.write(0x0300, 0x60);
    cpu.registers.sp = 0xFF;
    assert_eq!(step(&mut cpu), 6);
    assert_eq!(cpu.registers.pcl, 0x0300);
    assert_eq!(cpu.bus.read(0x01FF), 0x02);
    assert_eq!(cpu.bus.read(0x01FE), 0x02);
    assert_eq!(cpu.registers.sp, 0xFD);
    assert_eq!(step(&mut cpu), 6);
    assert_eq!(cpu.registers.pcl, 0x0203);
    assert_eq!(cpu.registers.sp, 0xFF);
}

#[test]
fn brk_and_rti() {
    let mut cpu = cpu_with(0x0200, &[0x00, 0xFF, 0xEA]);
    cpu.bus.write(0xFFFE, 0x00);
    cpu.bus.write(0xFFFF, 0x40);
    cpu.bus.write(0x4000, 0x40);
    cpu.registers.sp = 0xFF;
    cpu.registers.status = 0x21;
    assert_eq!(step(&mut cpu), 7);
    assert_eq!(cpu.registers.pcl, 0x4000);
    assert_eq!(cpu.bus.read(0x01FF), 0x02);
    assert_eq!(cpu.bus.read(0x01FE), 0x02);
    assert_eq!(cpu.bus.read(0x01FD), 0x31);
    assert!(flag(&cpu, StatusRegisterFlags::I));
    assert_eq!(step(&mut cpu), 6);
    assert_eq!(cpu.registers.pcl, 0x0202);
    assert_eq!(cpu.registers.status, 0x21);
    assert_eq!(cpu.registers.sp, 0xFF);
}

#[test]
fn stack_push_and_pull() {
    // LDA #$80; PHA; LDA #$00; PLA; PHP; PLP
    let mut cpu = cpu_with(0x0200, &[0xA9, 0x80, 0x48, 0xA9, 0x00, 0x68, 0x08, 0x28]);
    cpu.registers.sp = 0xFF;
    step(&mut cpu);
    assert_eq!(step(&mut cpu), 3);
    assert_eq!(cpu.bus.read(0x01FF), 0x80);
    step(&mut cpu);
    assert!(flag(&cpu, StatusRegisterFlags::Z));
    assert_eq!(step(&mut cpu), 4);
    assert_eq!(cpu.registers.acc, 0x80);
    assert!(flag(&cpu, StatusRegisterFlags::N));
    let before = cpu.registers.status;
    step(&mut cpu);
    assert_eq!(cpu.bus.read(0x01FF), before | 0x30);
    step(&mut cpu);
    assert_eq!(cpu.registers.status, (before | 0x20) & !0x10);
}

#[test]
fn shifts_and_rotates_through_carry() {
    // SEC; LDA #$81; ROL A -> $03, C = 1
    let mut cpu = cpu_with(0x0200, &[0x38, 0xA9, 0x81, 0x2A]);
    step(&mut cpu);
    step(&mut cpu);
    step(&mut cpu);
    assert_eq!(cpu.registers.acc, 0x03);
    assert!(flag(&cpu, StatusRegisterFlags::C));
    // CLC; LDA #$01; ROR A -> $00, C = 1, Z = 1
    let mut cpu = cpu_with(0x0200, &[0x18, 0xA9, 0x01, 0x6A]);
    step(&mut cpu);
    step(&mut cpu);
    step(&mut cpu);
    assert_eq!(cpu.registers.acc, 0x00);
    assert!(flag(&cpu, StatusRegisterFlags::C));
    assert!(flag(&cpu, StatusRegisterFlags::Z));
    // ASL $10 on $C0 -> $80, C = 1, N = 1; LSR $10 -> $40, C = 0
    let mut cpu = cpu_with(0x0200, &[0x06, 0x10, 0x46, 0x10]);
    cpu.bus.write(0x0010, 0xC0);
    assert_eq!(step(&mut cpu), 5);
    assert_eq!(cpu.bus.read(0x0010), 0x80);
    assert!(flag(&cpu, StatusRegisterFlags::C));
    assert!(flag(&cpu, StatusRegisterFlags::N));
    step(&mut cpu);
    assert_eq!(cpu.bus.read(0x0010), 0x40);
    assert!(!flag(&cpu, StatusRegisterFlags::C));
}

#[test]
fn compare_and_bit_test() {
    // LDA #$40; CMP #$40; CPX #$01 (X = 0); BIT $20
    let mut cpu = cpu_with(0x0200, &[0xA9, 0x40, 0xC9, 0x40, 0xE0, 0x01, 0x24, 0x20]);
    cpu.bus.write(0x0020, 0xC0);
    step(&mut cpu);
    step(&mut cpu);
    assert!(flag(&cpu, StatusRegisterFlags::Z));
    assert!(flag(&cpu, StatusRegisterFlags::C));
    assert_eq!(cpu.registers.acc, 0x40);
    step(&mut cpu);
    assert!(!flag(&cpu, StatusRegisterFlags::C));
    assert!(flag(&cpu, StatusRegisterFlags::N));
    step(&mut cpu);
    assert!(!flag(&cpu, StatusRegisterFlags::Z));
    assert!(flag(&cpu, StatusRegisterFlags::V));
    assert!(flag(&cpu, StatusRegisterFlags::N));
}

#[test]
fn increments_transfers_and_stores() {
    // LDX #$FF; INX; DEY; TXA; TAY; STY $0400,X ... INC $10; DEC $11
    let mut cpu = cpu_with(
        0x0200,
        &[0xA2, 0xFF, 0xE8, 0x88, 0x8A, 0xA8, 0x99, 0x00, 0x04, 0xE6, 0x10, 0xC6, 0x11],
    );
    cpu.registers.acc = 0x5A;
    step(&mut cpu);
    step(&mut cpu);
    assert_eq!(cpu.registers.x, 0x00);
    assert!(flag(&cpu, StatusRegisterFlags::Z));
    step(&mut cpu);
    assert_eq!(cpu.registers.y, 0xFF);
    assert!(flag(&cpu, StatusRegisterFlags::N));
    step(&mut cpu);
    step(&mut cpu);
    assert_eq!((cpu.registers.acc, cpu.registers.y), (0x00, 0x00));
    cpu.registers.acc = 0x5A;
    step(&mut cpu);
    assert_eq!(cpu.bus.read(0x0400), 0x5A);
    cpu.bus.write(0x0010, 0xFF);
    cpu.bus.write(0x0011, 0x00);
    step(&mut cpu);
    step(&mut cpu);
    assert_eq!(cpu.bus.read(0x0010), 0x00);
    assert_eq!(cpu.bus.read(0x0011), 0xFF);
}

#[test]
fn logic_operations() {
    // LDA #$F0; AND #$3C; ORA #$01; EOR #$FF
    let mut cpu = cpu_with(0x0200, &[0xA9, 0xF0, 0x29, 0x3C, 0x09, 0x01, 0x49, 0xFF]);
    step(&mut cpu);
    step(&mut cpu);
    assert_eq!(cpu.registers.acc, 0x30);
    step(&mut cpu);
    assert_eq!(cpu.registers.acc, 0x31);
    step(&mut cpu);
    assert_eq!(cpu.registers.acc, 0xCE);
    assert!(flag(&cpu, StatusRegisterFlags::N));
}
