use emu6502::cpu::CPU;
use emu6502::memory::Memory;

#[test]
fn immediate_load_sets_negative_flag() {
    let mut cpu = CPU::reset(None);
    let mut memory = Memory::initialize();
    memory.write_byte(0xFFFC, 0xA9);
    memory.write_byte(0xFFFD, 0x84);

    let cycles = cpu.execute(2, &mut memory);

    assert_eq!(cycles, Ok(2));
    assert_eq!(cpu.a_register, 0x84);
    assert!(!cpu.status.zero);
    assert!(cpu.status.negative);
}

#[test]
fn subroutine_call_and_return_then_load() {
    let mut cpu = CPU::reset(Some(0xFF00));
    let mut memory = Memory::initialize();
    memory.write_byte(0xFF00, 0x20);
    memory.write_byte(0xFF01, 0x00);
    memory.write_byte(0xFF02, 0x80);
    memory.write_byte(0x8000, 0x60);
    memory.write_byte(0xFF03, 0xA9);
    memory.write_byte(0xFF04, 0x42);

    let cycles = cpu.execute(14, &mut memory);

    assert_eq!(cycles, Ok(14));
    assert_eq!(cpu.a_register, 0x42);
    assert_eq!(cpu.stack_pointer, 0xFF);
    assert_eq!(cpu.program_counter, 0xFF05);
    // the call pushed the address of its own last byte, high byte first
    assert_eq!(memory.read_byte(0x01FF), 0xFF);
    assert_eq!(memory.read_byte(0x01FE), 0x02);
}

#[test]
fn addition_with_signed_overflow() {
    let mut cpu = CPU::reset(Some(0x0200));
    let mut memory = Memory::initialize();
    cpu.a_register = 127;
    cpu.status.carry = false;
    memory.write_byte(0x0200, 0x69);
    memory.write_byte(0x0201, 0x01);

    let cycles = cpu.execute(2, &mut memory);

    assert_eq!(cycles, Ok(2));
    assert_eq!(cpu.a_register, 0x80);
    assert!(!cpu.status.carry);
    assert!(!cpu.status.zero);
    assert!(cpu.status.negative);
    assert!(cpu.status.overflow);
}

#[test]
fn subtraction_with_signed_overflow() {
    let mut cpu = CPU::reset(Some(0x0200));
    let mut memory = Memory::initialize();
    cpu.a_register = 0x80;
    cpu.status.carry = true;
    memory.write_byte(0x0200, 0xED);
    memory.write_byte(0x0201, 0x00);
    memory.write_byte(0x0202, 0x80);
    memory.write_byte(0x8000, 0x01);

    let cycles = cpu.execute(4, &mut memory);

    assert_eq!(cycles, Ok(4));
    assert_eq!(cpu.a_register, 0x7F);
    assert!(cpu.status.carry);
    assert!(!cpu.status.zero);
    assert!(!cpu.status.negative);
    assert!(cpu.status.overflow);
}

#[test]
fn indexed_read_across_a_page_costs_one_more_cycle() {
    let mut cpu = CPU::reset(Some(0x0200));
    let mut memory = Memory::initialize();
    cpu.x_register = 0xFF;
    cpu.a_register = 0;
    memory.write_byte(0x0200, 0xBD);
    memory.write_byte(0x0201, 0x01);
    memory.write_byte(0x0202, 0x80);
    memory.write_byte(0x8100, 0x37);

    let cycles = cpu.execute(5, &mut memory);

    assert_eq!(cycles, Ok(5));
    assert_eq!(cpu.a_register, 0x37);
    assert_eq!(cpu.program_counter, 0x0203);
}

#[test]
fn branch_not_taken_costs_two_cycles() {
    let mut cpu = CPU::reset(Some(0x0200));
    let mut memory = Memory::initialize();
    cpu.status.zero = false;
    memory.write_byte(0x0200, 0xF0);
    memory.write_byte(0x0201, 0x01);

    let cycles = cpu.execute(2, &mut memory);

    assert_eq!(cycles, Ok(2));
    assert_eq!(cpu.program_counter, 0x0202);
}

#[test]
fn branch_taken_across_a_page_costs_four_cycles() {
    let mut cpu = CPU::reset(Some(0xFEFD));
    let mut memory = Memory::initialize();
    cpu.status.zero = true;
    memory.write_byte(0xFEFD, 0xF0);
    memory.write_byte(0xFEFE, 0x01);

    let cycles = cpu.execute(4, &mut memory);

    assert_eq!(cycles, Ok(4));
    assert_eq!(cpu.program_counter, 0xFF00);
}

#[test]
fn branch_taken_within_the_page_costs_three_cycles() {
    let mut cpu = CPU::reset(Some(0x0200));
    let mut memory = Memory::initialize();
    cpu.status.zero = true;
    memory.write_byte(0x0200, 0xF0);
    memory.write_byte(0x0201, 0x10);

    let cycles = cpu.execute(3, &mut memory);

    assert_eq!(cycles, Ok(3));
    assert_eq!(cpu.program_counter, 0x0212);
}

#[test]
fn branch_backwards_across_a_page() {
    let mut cpu = CPU::reset(Some(0x0300));
    let mut memory = Memory::initialize();
    cpu.status.carry = false;
    memory.write_byte(0x0300, 0x90);
    memory.write_byte(0x0301, 0xFC);

    let cycles = cpu.execute(1, &mut memory);

    assert_eq!(cycles, Ok(4));
    assert_eq!(cpu.program_counter, 0x02FE);
}

#[test]
fn nothing_runs_without_a_budget() {
    let mut cpu = CPU::reset(Some(0x0200));
    let mut memory = Memory::initialize();
    memory.write_byte(0x0200, 0xA9);
    memory.write_byte(0x0201, 0x55);

    assert_eq!(cpu.execute(0, &mut memory), Ok(0));
    assert_eq!(cpu.execute(-3, &mut memory), Ok(0));
    assert_eq!(cpu.a_register, 0);
    assert_eq!(cpu.program_counter, 0x0200);
}

#[test]
fn last_instruction_runs_past_the_budget() {
    let mut cpu = CPU::reset(Some(0x0200));
    let mut memory = Memory::initialize();
    // inc $8000,x takes seven cycles
    memory.write_byte(0x0200, 0xFE);
    memory.write_byte(0x0201, 0x00);
    memory.write_byte(0x0202, 0x80);

    assert_eq!(cpu.execute(1, &mut memory), Ok(7));
    assert_eq!(memory.read_byte(0x8000), 1);
}
