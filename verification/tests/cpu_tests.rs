use nes::opcodes::{opcode_to_spec, Opcode};
use nes::addr::AddrMode;
use nes::bus::Bus;
use nes::cartridge::Cartridge;
use nes::cpu::{CPUStatus, CPUStatusBit, CPU};

fn new_cpu_with_program(program: Vec<u8>) -> CPU {
    let cart = Cartridge::new_from_program(program);
    let bus = Bus::new(cart);
    let mut cpu = CPU::new(bus);
    cpu.reset();
    cpu.pc = 0x8000;
    cpu
}

#[test]
fn mod_test_load_program() {
    let cart = Cartridge::new_from_program(vec![0x01, 0x23, 0x34, 0x00]);
    let bus = Bus::new(cart);
    let mut cpu = CPU::new(bus);
    assert_eq!(cpu.read(cpu.pc), 0x01);
    assert_eq!(cpu.read(cpu.pc + 1), 0x23);
    assert_eq!(cpu.read(cpu.pc + 2), 0x34);
    assert_eq!(cpu.read(cpu.pc + 3), 0x00);
}

#[test]
fn mod_test_fetch_oprand_addr() {
    fn assert_addr_eq(actual: u16, expected: u16) {
        assert_eq!(
            actual, expected,
            "Expected: 0x{:04X?}; Actual: 0x{:04X}",
            expected, actual
        );
    }

    // STA $c000
    let mut cpu = new_cpu_with_program(vec![0x8d, 0x00, 0xc0]);
    let inst = cpu.fetch_next_instruction().unwrap();
    let expected: u16 = 0xC000;
    assert_addr_eq(inst.oprand_addr, expected);

    // STA $0200,X
    let mut cpu = new_cpu_with_program(vec![0x9d, 0x00, 0x02]);
    cpu.reg_x = 0x01;
    let inst = cpu.fetch_next_instruction().unwrap();
    let expected: u16 = 0x0201;
    assert_addr_eq(inst.oprand_addr, expected);

    // STA $0200,Y
    let mut cpu = new_cpu_with_program(vec![0x99, 0x00, 0x02]);
    cpu.reg_y = 0x01;
    let inst = cpu.fetch_next_instruction().unwrap();
    let expected: u16 = 0x0201;
    assert_addr_eq(inst.oprand_addr, expected);

    // STA $c0
    let mut cpu = new_cpu_with_program(vec![0x85, 0xc0]);
    let inst = cpu.fetch_next_instruction().unwrap();
    let expected: u16 = 0x00c0;
    assert_addr_eq(inst.oprand_addr, expected);

    // STA $c0,X
    let mut cpu = new_cpu_with_program(vec![0x95, 0xc0]);
    cpu.reg_x = 0x01;
    let inst = cpu.fetch_next_instruction().unwrap();
    let expected: u16 = 0x00c1;
    assert_addr_eq(inst.oprand_addr, expected);

    // LDX $c0,Y
    let mut cpu = new_cpu_with_program(vec![0xb6, 0xc0]);
    cpu.reg_y = 0x01;
    let inst = cpu.fetch_next_instruction().unwrap();
    let expected: u16 = 0x00c1;
    assert_addr_eq(inst.oprand_addr, expected);

    // LDX #$c0
    let mut cpu = new_cpu_with_program(vec![0xa2, 0xc0]);
    let inst = cpu.fetch_next_instruction().unwrap();
    let expected: u16 = 0x8001;
    assert_addr_eq(inst.oprand_addr, expected);

    // BNE not_equal
    // not_equal: BRK
    let mut cpu = new_cpu_with_program(vec![0xd0, 0x00, 0x00]);
    let inst = cpu.fetch_next_instruction().unwrap();
    let expected: u16 = 0x8002;
    assert_addr_eq(inst.oprand_addr, expected);

    // INX
    let mut cpu = new_cpu_with_program(vec![0xe8]);
    let inst = cpu.fetch_next_instruction().unwrap();
    let expected: u16 = 0;
    assert_addr_eq(inst.oprand_addr, expected);

    // JMP ($00f0)
    let mut cpu = new_cpu_with_program(vec![0x6c, 0xf0, 0x00]);
    cpu.write(0x00f0, 0x12);
    cpu.write(0x00f1, 0x34);
    let inst = cpu.fetch_next_instruction().unwrap();
    let expected: u16 = 0x3412;
    assert_addr_eq(inst.oprand_addr, expected);

    // LDA ($c0,X)
    let mut cpu = new_cpu_with_program(vec![0xa1, 0xc0]);
    cpu.write(0x00c1, 0x12);
    cpu.write(0x00c2, 0x34);
    cpu.reg_x = 1;
    let inst = cpu.fetch_next_instruction().unwrap();
    let expected: u16 = 0x3412;
    assert_addr_eq(inst.oprand_addr, expected);

    // LDA ($c0),Y
    let mut cpu = new_cpu_with_program(vec![0xb1, 0xc0]);
    cpu.write(0x00c0, 0x12);
    cpu.write(0x00c1, 0x34);
    cpu.reg_y = 1;
    let inst = cpu.fetch_next_instruction().unwrap();
    let expected: u16 = 0x3413;
    assert_addr_eq(inst.oprand_addr, expected);
}

#[test]
fn mod_test_cpu_status() {
    let mut status = CPUStatus::new();
    assert_eq!(status.bits, 0b0000_0000);

    status.set(CPUStatusBit::C, true);
    status.turn_on(CPUStatusBit::U);
    assert_eq!(status.bits, 0b0010_0001);

    status.turn_off(CPUStatusBit::U);
    assert_eq!(status.bits, 0b0000_0001);
}

// An indirect JMP whose pointer sits at the end of a page fetches the high
// byte from the start of that same page.
#[test]
fn test_jmp_indirect_page_wrap_bug() {
    let mut cpu = new_cpu_with_program(vec![0x6c, 0xff, 0x02]);
    cpu.write(0x02ff, 0x34);
    cpu.write(0x0200, 0x12);
    cpu.write(0x0300, 0x99); // the byte a non-buggy fetch would use
    let inst = cpu.fetch_next_instruction().unwrap();
    cpu.cycles = inst.cycles;
    cpu.execute_inst(inst);
    assert_eq!(cpu.pc, 0x1234);
}

// IndexedIndirect at operand $FF reads the pointer low byte from $FF and the
// high byte from $00: the pointer wraps inside the zero page.
#[test]
fn test_indexed_indirect_zero_page_wrap() {
    let mut cpu = new_cpu_with_program(vec![0xa1, 0xff]);
    cpu.reg_x = 0;
    cpu.write(0x00ff, 0x34);
    cpu.write(0x0000, 0x12);
    let inst = cpu.fetch_next_instruction().unwrap();
    assert_eq!(inst.oprand_addr, 0x1234);
}

// ADC $7F + $01 with carry clear overflows into negative: V and N both set.
#[test]
fn test_adc_signed_overflow() {
    let mut cpu = new_cpu_with_program(vec![0x69, 0x01]); // ADC #$01
    cpu.acc = 0x7f;
    cpu.set_status(CPUStatusBit::C, false);
    let inst = cpu.fetch_next_instruction().unwrap();
    cpu.cycles = inst.cycles;
    cpu.execute_inst(inst);
    assert_eq!(cpu.acc, 0x80);
    assert!(cpu.get_status(CPUStatusBit::V));
    assert!(cpu.get_status(CPUStatusBit::N));
    assert!(!cpu.get_status(CPUStatusBit::C));
    assert!(!cpu.get_status(CPUStatusBit::Z));
}

// LSR A with A = $01: carry takes the shifted-out bit, the result is zero.
#[test]
fn test_lsr_a_sets_carry_and_zero() {
    let mut cpu = new_cpu_with_program(vec![0x4a]); // LSR A
    cpu.acc = 0x01;
    let inst = cpu.fetch_next_instruction().unwrap();
    cpu.cycles = inst.cycles;
    cpu.execute_inst(inst);
    assert_eq!(cpu.acc, 0x00);
    assert!(cpu.get_status(CPUStatusBit::C));
    assert!(cpu.get_status(CPUStatusBit::Z));
    assert!(!cpu.get_status(CPUStatusBit::N));
}

// A taken branch on the same page costs base + 1 cycles; one whose target is
// on a different page costs base + 2.
#[test]
fn test_branch_cycle_penalties() {
    // BNE +2 with Z clear: target 0x8004, same page as 0x8002
    let mut cpu = new_cpu_with_program(vec![0xd0, 0x02]);
    cpu.set_status(CPUStatusBit::Z, false);
    let inst = cpu.fetch_next_instruction().unwrap();
    assert_eq!(inst.cycles, 2);
    cpu.cycles = inst.cycles;
    cpu.execute_inst(inst);
    assert_eq!(cpu.cycles, 3);
    assert_eq!(cpu.pc, 0x8004);

    // BNE at 0x80FD jumping forward across the page boundary
    let mut program = vec![0xea; 0x100];
    program[0xfd] = 0xd0;
    program[0xfe] = 0x10; // target 0x80FF + 0x10 = 0x810F, next page
    let mut cpu = new_cpu_with_program(program);
    cpu.pc = 0x80fd;
    cpu.set_status(CPUStatusBit::Z, false);
    let inst = cpu.fetch_next_instruction().unwrap();
    assert_eq!(inst.cycles, 2);
    cpu.cycles = inst.cycles;
    cpu.execute_inst(inst);
    assert_eq!(cpu.cycles, 4);
    assert_eq!(cpu.pc, 0x810f);

    // an untaken branch stays at base cycles
    let mut cpu = new_cpu_with_program(vec![0xd0, 0x02]);
    cpu.set_status(CPUStatusBit::Z, true);
    let inst = cpu.fetch_next_instruction().unwrap();
    cpu.cycles = inst.cycles;
    cpu.execute_inst(inst);
    assert_eq!(cpu.cycles, 2);
    assert_eq!(cpu.pc, 0x8002);
}

// The unused status bit reads back 1 after every instruction.
#[test]
fn test_unused_bit_high_after_instruction() {
    let mut cpu = new_cpu_with_program(vec![0x28, 0xea]); // PLP then NOP
    // PLP pulls a status byte with U clear; the bit must still end up high
    cpu.write(0x01fe, 0x00);
    cpu.sp = 0xfd;
    cpu.execute_next_instruction();
    assert_eq!(cpu.status.bits & 0b0010_0000, 0b0010_0000);
    cpu.execute_next_instruction();
    assert_eq!(cpu.status.bits & 0b0010_0000, 0b0010_0000);
}

// SBC is ADC with the operand inverted.
#[test]
fn test_sbc_basic() {
    let mut cpu = new_cpu_with_program(vec![0xe9, 0x03]); // SBC #$03
    cpu.acc = 0x10;
    cpu.set_status(CPUStatusBit::C, true); // no borrow
    let inst = cpu.fetch_next_instruction().unwrap();
    cpu.cycles = inst.cycles;
    cpu.execute_inst(inst);
    assert_eq!(cpu.acc, 0x0d);
    assert!(cpu.get_status(CPUStatusBit::C));
}

// JSR pushes the return address minus one, high byte first; RTS pops it and
// adds one back.
#[test]
fn test_jsr_rts_round_trip() {
    let mut program = vec![0xea; 0x200];
    program[0] = 0x20; // JSR $8100
    program[1] = 0x00;
    program[2] = 0x81;
    program[0x100] = 0x60; // RTS
    let mut cpu = new_cpu_with_program(program);
    let inst = cpu.fetch_next_instruction().unwrap();
    cpu.cycles = inst.cycles;
    cpu.execute_inst(inst);
    assert_eq!(cpu.pc, 0x8100);
    let inst = cpu.fetch_next_instruction().unwrap();
    cpu.cycles = inst.cycles;
    cpu.execute_inst(inst);
    assert_eq!(cpu.pc, 0x8003);
}

// Reset loads the program counter from the vector at $FFFC and parks the
// stack pointer at $FD with I and U set.
#[test]
fn test_reset_state() {
    let mut image = vec![0u8; 0x4000];
    image[0x3ffc] = 0x00; // $FFFC maps to PRG offset $3FFC with one bank
    image[0x3ffd] = 0xc0;
    let cart = Cartridge::new_from_program(image);
    let bus = Bus::new(cart);
    let mut cpu = CPU::new(bus);
    cpu.reset();
    assert_eq!(cpu.pc, 0xc000);
    assert_eq!(cpu.sp, 0xfd);
    assert_eq!(cpu.status.bits, 0x24);
    assert_eq!(cpu.cycles, 7);
}

#[test]
fn test_opcode_table_entries() {
    let s = opcode_to_spec(0x69).unwrap();
    assert_eq!(s.opcode, Opcode::ADC);
    assert_eq!(s.addr_mode, AddrMode::Immediate);
    assert_eq!(s.base_cycles, 2);
    assert!(s.is_official);
    let s = opcode_to_spec(0xb1).unwrap();
    assert_eq!(s.opcode, Opcode::LDA);
    assert_eq!(s.addr_mode, AddrMode::IndirectIndexed);
    assert_eq!(s.base_cycles, 5);
    assert!(s.inc_cycle_on_page_crossed);
    let s = opcode_to_spec(0xa7).unwrap();
    assert_eq!(s.opcode, Opcode::LAX);
    assert!(!s.is_official);
    // a byte no instruction uses
    assert!(opcode_to_spec(0x02).is_none());
}

#[test]
fn cpu_test_load_program() {
    let cart = Cartridge::new_from_program(vec![0x01, 0x23, 0x34]);
    let bus = Bus::new(cart);
    let mut cpu = CPU::new(bus);
    cpu.reset();
    cpu.pc = 0x8000;
    assert_eq!(cpu.read(cpu.pc), 0x01);
    assert_eq!(cpu.read(cpu.pc + 1), 0x23);
    assert_eq!(cpu.read(cpu.pc + 2), 0x34);
    assert_eq!(cpu.read(cpu.pc + 3), 0x00);
}

#[test]
fn cpu_test_fetch_oprand_addr() {
    fn assert_addr_eq(actual: u16, expected: u16) {
        assert_eq!(
            actual, expected,
            "Expected: 0x{:04X?}; Actual: 0x{:04X}",
            expected, actual
        );
    }

    // STA $c000
    let mut cpu = new_cpu_with_program(vec![0x8d, 0x00, 0xc0]);
    let inst = cpu.fetch_next_instruction().unwrap();
    assert_addr_eq(inst.oprand_addr, 0xC000);

    // STA $0200,X
    let mut cpu = new_cpu_with_program(vec![0x9d, 0x00, 0x02]);
    cpu.reg_x = 0x01;
    let inst = cpu.fetch_next_instruction().unwrap();
    assert_addr_eq(inst.oprand_addr, 0x0201);

    // STA $0200,Y
    let mut cpu = new_cpu_with_program(vec![0x99, 0x00, 0x02]);
    cpu.reg_y = 0x01;
    let inst = cpu.fetch_next_instruction().unwrap();
    assert_addr_eq(inst.oprand_addr, 0x0201);

    // STA $c0
    let mut cpu = new_cpu_with_program(vec![0x85, 0xc0]);
    let inst = cpu.fetch_next_instruction().unwrap();
    assert_addr_eq(inst.oprand_addr, 0x00c0);

    // STA $c0,X
    let mut cpu = new_cpu_with_program(vec![0x95, 0xc0]);
    cpu.reg_x = 0x01;
    let inst = cpu.fetch_next_instruction().unwrap();
    assert_addr_eq(inst.oprand_addr, 0x00c1);

    // LDX $c0,Y
    let mut cpu = new_cpu_with_program(vec![0xb6, 0xc0]);
    cpu.reg_y = 0x01;
    let inst = cpu.fetch_next_instruction().unwrap();
    assert_addr_eq(inst.oprand_addr, 0x00c1);

    // LDX #$c0
    let mut cpu = new_cpu_with_program(vec![0xa2, 0xc0]);
    let inst = cpu.fetch_next_instruction().unwrap();
    assert_addr_eq(inst.oprand_addr, 0x8001);

    // BNE not_equal
    let mut cpu = new_cpu_with_program(vec![0xd0, 0x00, 0x00]);
    let inst = cpu.fetch_next_instruction().unwrap();
    assert_addr_eq(inst.oprand_addr, 0x8002);

    // INX
    let mut cpu = new_cpu_with_program(vec![0xe8]);
    let inst = cpu.fetch_next_instruction().unwrap();
    assert_addr_eq(inst.oprand_addr, 0);

    // JMP ($00f0)
    let mut cpu = new_cpu_with_program(vec![0x6c, 0xf0, 0x00]);
    cpu.write(0x00f0, 0x12);
    cpu.write(0x00f1, 0x34);
    let inst = cpu.fetch_next_instruction().unwrap();
    assert_addr_eq(inst.oprand_addr, 0x3412);

    // LDA ($c0,X)
    let mut cpu = new_cpu_with_program(vec![0xa1, 0xc0]);
    cpu.write(0x00c1, 0x12);
    cpu.write(0x00c2, 0x34);
    cpu.reg_x = 1;
    let inst = cpu.fetch_next_instruction().unwrap();
    assert_addr_eq(inst.oprand_addr, 0x3412);

    // LDA ($c0),Y
    let mut cpu = new_cpu_with_program(vec![0xb1, 0xc0]);
    cpu.write(0x00c0, 0x12);
    cpu.write(0x00c1, 0x34);
    cpu.reg_y = 1;
    let inst = cpu.fetch_next_instruction().unwrap();
    assert_addr_eq(inst.oprand_addr, 0x3413);
}

#[test]
fn cpu_test_cpu_status() {
    let mut status = CPUStatus::new();
    assert_eq!(status.bits, 0b0000_0000);

    status.set(CPUStatusBit::C, true);
    status.turn_on(CPUStatusBit::U);
    assert_eq!(status.bits, 0b0010_0001);

    status.turn_off(CPUStatusBit::U);
    assert_eq!(status.bits, 0b0000_0001);
}

// BRK and NMI push the status byte before setting I, so the pushed copy
// carries the old I flag; BRK's copy has B high, NMI's has B low.
#[test]
fn test_brk_pushes_status_before_setting_i() {
    let mut program = vec![0x00, 0x00]; // BRK
    program.resize(16384, 0);
    program[0x3ffe] = 0x00; // IRQ/BRK vector -> $9000
    program[0x3fff] = 0x90;
    let mut cpu = new_cpu_with_program(program);
    cpu.sp = 0xfd;
    cpu.set_status(CPUStatusBit::I, false);
    cpu.set_status(CPUStatusBit::C, true);
    let status_before = cpu.status.bits;
    let inst = cpu.fetch_next_instruction().unwrap();
    cpu.cycles = inst.cycles;
    cpu.execute_inst(inst);
    assert_eq!(cpu.pc, 0x9000);
    // pushed status: the old byte with B forced high, I still low
    let pushed = cpu.read(0x01fb);
    assert_eq!(pushed, status_before | 0b0001_0000);
    assert_eq!(pushed & 0b0000_0100, 0);
    // the live status now has I high and B low
    assert!(cpu.get_status(CPUStatusBit::I));
    assert!(!cpu.get_status(CPUStatusBit::B));
    // the pushed return address is the byte after the break
    assert_eq!(cpu.read(0x01fd), 0x80);
    assert_eq!(cpu.read(0x01fc), 0x02);
}
