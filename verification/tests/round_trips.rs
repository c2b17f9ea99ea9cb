use emu6502::cpu::{ProcessorFlags, CPU};
use emu6502::instructions::Instruction;
use emu6502::memory::Memory;

#[test]
fn loads_set_zero_and_negative_from_the_loaded_value() {
    let loads = [Instruction::InsLdaIm, Instruction::InsLdxIm, Instruction::InsLdyIm];
    for (which, load) in loads.iter().enumerate() {
        for value in 0..=255u8 {
            let mut cpu = CPU::reset(Some(0x0200));
            let mut memory = Memory::initialize();
            cpu.status = ProcessorFlags::from(!value);
            memory.write_byte(0x0200, load.opcode());
            memory.write_byte(0x0201, value);

            assert_eq!(cpu.execute(2, &mut memory), Ok(2));

            let loaded = [cpu.a_register, cpu.x_register, cpu.y_register][which];
            assert_eq!(loaded, value);
            assert_eq!(cpu.status.zero, value == 0);
            assert_eq!(cpu.status.negative, value & 0x80 != 0);
        }
    }
}

fn read_cost(opcode: u8, base: u16, x: u8) -> i32 {
    let mut cpu = CPU::reset(Some(0x0200));
    let mut memory = Memory::initialize();
    cpu.x_register = x;
    memory.write_byte(0x0200, opcode);
    memory.write_byte(0x0201, (base & 0xFF) as u8);
    memory.write_byte(0x0202, (base >> 8) as u8);
    cpu.execute(1, &mut memory).unwrap()
}

#[test]
fn indexed_read_costs_the_plain_read_plus_the_page_crossing() {
    let lda_abs = Instruction::InsLdaAbs.opcode();
    let lda_abs_x = Instruction::InsLdaAbsX.opcode();
    for (base, index) in [(0x8000u16, 0x00u8), (0x8000, 0xFF), (0x80FF, 0x01), (0x8001, 0xFF), (0xFFFF, 0x01)]
    {
        let target = base.wrapping_add(index as u16);
        let plain = read_cost(lda_abs, target, 0);
        let indexed = read_cost(lda_abs_x, base, index);
        if base >> 8 == target >> 8 {
            assert_eq!(indexed, plain);
        } else {
            assert_eq!(indexed, plain + 1);
        }
        assert_eq!(plain, 4);
    }
}

#[test]
fn push_then_pull_restores_the_accumulator() {
    for value in [0x00u8, 0x01, 0x7F, 0x80, 0xFF] {
        let mut cpu = CPU::reset(Some(0x0200));
        let mut memory = Memory::initialize();
        cpu.a_register = value;
        memory.write_byte(0x0200, Instruction::InsPha.opcode());
        memory.write_byte(0x0201, Instruction::InsLdaIm.opcode());
        memory.write_byte(0x0202, 0x33);
        memory.write_byte(0x0203, Instruction::InsPla.opcode());

        assert_eq!(cpu.execute(3 + 2 + 4, &mut memory), Ok(9));

        assert_eq!(cpu.a_register, value);
        assert_eq!(cpu.stack_pointer, 0xFF);
    }
}

#[test]
fn push_then_pull_restores_the_status_but_sets_break() {
    for byte in 0..=255u8 {
        let mut cpu = CPU::reset(Some(0x0200));
        let mut memory = Memory::initialize();
        let before = ProcessorFlags::from(byte);
        cpu.status = before;
        memory.write_byte(0x0200, Instruction::InsPhp.opcode());
        memory.write_byte(0x0201, Instruction::InsPlp.opcode());

        assert_eq!(cpu.execute(3, &mut memory), Ok(3));
        assert_eq!(cpu.status, before);
        assert_eq!(memory.read_byte(0x01FF), (byte & 0b11011111) | 0b00110000);

        cpu.status = ProcessorFlags::default();
        assert_eq!(cpu.execute(4, &mut memory), Ok(4));

        let mut expected = before;
        expected.break_command = true;
        assert_eq!(cpu.status, expected);
        assert_eq!(cpu.stack_pointer, 0xFF);
    }
}

#[test]
fn return_continues_behind_the_call() {
    for (stack_pointer, call_at, target) in
        [(0xFFu8, 0x0200u16, 0x8000u16), (0x01, 0x12FD, 0x0300), (0x00, 0x4000, 0x4003)]
    {
        let mut cpu = CPU::reset(Some(call_at));
        let mut memory = Memory::initialize();
        cpu.stack_pointer = stack_pointer;
        memory.write_byte(call_at, Instruction::InsJsr.opcode());
        memory.write_byte(call_at + 1, (target & 0xFF) as u8);
        memory.write_byte(call_at + 2, (target >> 8) as u8);
        memory.write_byte(target, Instruction::InsInx.opcode());
        memory.write_byte(target + 1, Instruction::InsRts.opcode());

        assert_eq!(cpu.execute(6, &mut memory), Ok(6));
        assert_eq!(cpu.program_counter, target);
        assert_eq!(cpu.stack_pointer, stack_pointer.wrapping_sub(2));

        assert_eq!(cpu.execute(2 + 6, &mut memory), Ok(8));
        assert_eq!(cpu.program_counter, call_at + 3);
        assert_eq!(cpu.stack_pointer, stack_pointer);
        assert_eq!(cpu.x_register, 1);
    }
}

fn add_then_subtract(a: u8, operand: u8, carry: bool) -> (CPU, bool) {
    let mut cpu = CPU::reset(Some(0x0200));
    let mut memory = Memory::initialize();
    cpu.a_register = a;
    cpu.status.carry = carry;
    memory.write_byte(0x0200, Instruction::InsAdcIm.opcode());
    memory.write_byte(0x0201, operand);
    memory.write_byte(0x0202, Instruction::InsSbcIm.opcode());
    memory.write_byte(0x0203, operand);

    assert_eq!(cpu.execute(2, &mut memory), Ok(2));
    let carry_out = cpu.status.carry;
    assert_eq!(cpu.execute(2, &mut memory), Ok(2));
    (cpu, carry_out)
}

#[test]
fn subtraction_with_the_opposite_carry_undoes_addition() {
    for a in 0..=255u8 {
        for operand in 0..=255u8 {
            for carry in [false, true] {
                let mut cpu = CPU::reset(Some(0x0200));
                let mut memory = Memory::initialize();
                cpu.a_register = a;
                cpu.status.carry = carry;
                memory.write_byte(0x0200, Instruction::InsAdcIm.opcode());
                memory.write_byte(0x0201, operand);
                memory.write_byte(0x0202, Instruction::InsSbcIm.opcode());
                memory.write_byte(0x0203, operand);

                assert_eq!(cpu.execute(2, &mut memory), Ok(2));
                let carried = a as u16 + operand as u16 + carry as u16 > 0xFF;
                assert_eq!(cpu.status.carry, carried);

                cpu.status.carry = !carry;
                assert_eq!(cpu.execute(2, &mut memory), Ok(2));

                assert_eq!(cpu.a_register, a);
                assert_eq!(cpu.status.carry, !carried);
            }
        }
    }
}

#[test]
fn add_with_carry_by_its_own() {
    let mut cpu = CPU::reset(None);
    let mut memory = Memory::initialize();
    let mut cycles = 5;
    cpu.a_register = 0xFF;
    cpu.status.carry = true;

    cpu.add_with_carry(&mut cycles, &mut memory, 0x01);

    assert_eq!(cpu.a_register, 0x01);
    assert!(cpu.status.carry && !cpu.status.overflow);
    assert!(!cpu.status.zero && !cpu.status.negative);
    assert_eq!(cycles, 5);

    // subtraction of 1 with a borrow: 0x01 - 0x01 - 1 = 0xFF, borrow out
    cpu.status.carry = false;
    cpu.add_with_carry(&mut cycles, &mut memory, !0x01);
    assert_eq!(cpu.a_register, 0xFF);
    assert!(!cpu.status.carry && cpu.status.negative && !cpu.status.overflow);
}

#[test]
fn subtraction_undoes_addition_when_the_carry_flipped() {
    for a in 0..=255u8 {
        for operand in 0..=255u8 {
            for carry in [false, true] {
                let (cpu, carry_out) = add_then_subtract(a, operand, carry);
                assert_eq!(cpu.a_register == a, carry_out != carry);
                if carry_out != carry {
                    assert_eq!(cpu.status.carry, carry);
                }
            }
        }
    }
}

#[test]
fn subtraction_does_not_undo_addition_when_the_carry_stayed_clear() {
    let (cpu, carry_out) = add_then_subtract(1, 1, false);

    assert!(!carry_out);
    assert_eq!(cpu.a_register, 0);
    assert!(cpu.status.zero);
}

#[test]
fn addition_and_subtraction_with_exact_values() {
    // 0x50 + 0x50 = 0xA0: no carry, signed overflow
    let mut cpu = CPU::reset(Some(0x0200));
    let mut memory = Memory::initialize();
    cpu.a_register = 0x50;
    memory.write_byte(0x0200, Instruction::InsAdcIm.opcode());
    memory.write_byte(0x0201, 0x50);
    assert_eq!(cpu.execute(2, &mut memory), Ok(2));
    assert_eq!(cpu.a_register, 0xA0);
    assert!(!cpu.status.carry && cpu.status.overflow && cpu.status.negative);

    // 0xD0 + 0x90 + 1 = 0x161: carry, signed overflow, positive result
    let mut cpu = CPU::reset(Some(0x0200));
    cpu.a_register = 0xD0;
    cpu.status.carry = true;
    memory.write_byte(0x0201, 0x90);
    assert_eq!(cpu.execute(2, &mut memory), Ok(2));
    assert_eq!(cpu.a_register, 0x61);
    assert!(cpu.status.carry && cpu.status.overflow && !cpu.status.negative);

    // 0x50 - 0xF0 with no borrow = 0x60, borrow out
    let mut cpu = CPU::reset(Some(0x0200));
    cpu.a_register = 0x50;
    cpu.status.carry = true;
    memory.write_byte(0x0200, Instruction::InsSbcIm.opcode());
    memory.write_byte(0x0201, 0xF0);
    assert_eq!(cpu.execute(2, &mut memory), Ok(2));
    assert_eq!(cpu.a_register, 0x60);
    assert!(!cpu.status.carry && !cpu.status.overflow);
}

#[test]
fn flags_pack_and_unpack() {
    for byte in 0..=255u8 {
        let flags = ProcessorFlags::from(byte);
        assert_eq!(flags.into_u8(), byte & 0b11011111);
        assert_eq!(u8::from(flags), byte & 0b11011111);
        assert_eq!(flags.pushed_byte(), byte | 0b00110000);
        assert_eq!(ProcessorFlags::from(flags.into_u8()), flags);
    }
    let flags = ProcessorFlags::from(0b10000001);
    assert!(flags.carry && flags.negative);
    assert!(!flags.zero && !flags.interupt_disable && !flags.decimal_mode);
    assert!(!flags.break_command && !flags.overflow);
    assert_eq!(ProcessorFlags::from(0b01000000).overflow, true);
    assert_eq!(ProcessorFlags::from(0b00010000).break_command, true);
    assert_eq!(ProcessorFlags::from(0b00001000).decimal_mode, true);
    assert_eq!(ProcessorFlags::from(0b00000100).interupt_disable, true);
    assert_eq!(ProcessorFlags::from(0b00000010).zero, true);
    assert_eq!(ProcessorFlags::from(0b00100000), ProcessorFlags::default());
}

#[test]
fn flags_or_into_each_other() {
    let mut flags = ProcessorFlags::from(0b01000001);
    flags |= ProcessorFlags::from(0b10000011);

    assert_eq!(flags, ProcessorFlags::from(0b11000011));
}
