//! What one instruction does, stated over plain values.
//!
//! Everything here is specification: functions from a processor state and a
//! memory (the sequence of its bytes) to the state, the memory and the cycle
//! count after the instruction. The executable code in `cpu` is proved to
//! compute exactly these.
//!
//! Unless said otherwise, the `cpu` that a function takes is the processor
//! right after the opcode byte was fetched: its program counter is the
//! address of the first operand byte.

use vstd::prelude::*;
use crate::cpu::{ProcessorFlags, CPU};
use crate::instructions::{decode, AddressingMode, Instruction, Operation};
use crate::memory::{high_byte, low_byte, word_at, zero_page_word_at};

verus! {

/// How an operation uses the operand that its addressing mode names.
#[derive(Debug, Clone, Copy, PartialEq, Eq, Structural)]
pub enum Access {
    /// The operand is read and a register or flags change.
    Read,
    /// A register is stored at the operand's address.
    Write,
    /// The operand is read, changed and stored back.
    Modify,
    /// The operation has no operand of this kind: it works on registers, the
    /// stack or the program counter.
    Control,
}

/// The state after one instruction, and the cycles it took.
pub struct Outcome {
    pub cpu: CPU,
    pub memory: Seq<u8>,
    pub cycles: nat,
}

/// What one fetch-decode-execute round does.
pub enum Step {
    /// The byte at the program counter encodes an instruction, which ran.
    Done(Outcome),
    /// The byte at the program counter encodes no instruction. The processor
    /// is left with the program counter past that byte.
    Fault { cpu: CPU, byte: u8 },
}

/// Why a run ended.
pub enum Stop {
    /// The budget was spent.
    Budget,
    /// A byte that encodes no instruction was fetched.
    Fault(u8),
    /// The next instruction is an addition or subtraction and the decimal
    /// flag is set. Decimal arithmetic is not emulated.
    Decimal,
}

/// Where a run ended.
pub struct Run {
    pub cpu: CPU,
    pub memory: Seq<u8>,
    /// The budget that is left; negative when the last instruction ran past
    /// the budget.
    pub remaining: int,
    pub stop: Stop,
}

/// The address of the stack slot that the stack pointer names.
pub open spec fn stack_address(stack_pointer: u8) -> u16 {
    (0x100 + stack_pointer) as u16
}

/// The value of an operand byte read as a two's-complement number.
pub open spec fn signed(v: u8) -> int {
    if v >= 128 {
        v - 256
    } else {
        v as int
    }
}

/// The address `offset` bytes (signed) away from `from`, wrapping at 16 bits.
pub open spec fn displaced(from: u16, offset: u8) -> u16 {
    let target = from + signed(offset);
    if target < 0 {
        (target + 65536) as u16
    } else if target > 65535 {
        (target - 65536) as u16
    } else {
        target as u16
    }
}

/// Whether two addresses lie in the same 256-byte page.
pub open spec fn same_page(a: u16, b: u16) -> bool {
    a / 256 == b / 256
}

/// The flags with zero and negative set from `value`.
pub open spec fn with_zn(status: ProcessorFlags, value: u8) -> ProcessorFlags {
    ProcessorFlags { zero: value == 0, negative: value >= 128, ..status }
}

/// How an operation uses its operand.
pub open spec fn access(operation: Operation) -> Access {
    match operation {
        Operation::Lda
        | Operation::Ldx
        | Operation::Ldy
        | Operation::And
        | Operation::Eor
        | Operation::Ora
        | Operation::Bit
        | Operation::Adc
        | Operation::Sbc
        | Operation::Cmp
        | Operation::Cpx
        | Operation::Cpy => Access::Read,
        Operation::Sta | Operation::Stx | Operation::Sty => Access::Write,
        Operation::Asl
        | Operation::Lsr
        | Operation::Rol
        | Operation::Ror
        | Operation::Inc
        | Operation::Dec => Access::Modify,
        _ => Access::Control,
    }
}

/// Number of operand bytes that follow the opcode.
pub open spec fn operand_length(mode: AddressingMode) -> u16 {
    match mode {
        AddressingMode::Implied | AddressingMode::Accumulator => 0,
        AddressingMode::Absolute
        | AddressingMode::AbsoluteX
        | AddressingMode::AbsoluteY
        | AddressingMode::Indirect => 2,
        _ => 1,
    }
}

/// Number of bytes of an instruction, opcode included.
pub open spec fn instruction_length(instruction: Instruction) -> int {
    1 + operand_length(instruction.spec_mode())
}

/// The address that the operand bytes name before any index is added. For a
/// branch it is the address of the next instruction.
pub open spec fn base_address(mode: AddressingMode, cpu: CPU, memory: Seq<u8>) -> u16 {
    let pc = cpu.program_counter;
    match mode {
        AddressingMode::Immediate => pc,
        AddressingMode::ZeroPage
        | AddressingMode::ZeroPageX
        | AddressingMode::ZeroPageY
        | AddressingMode::IndexedIndirect => memory[pc as int] as u16,
        AddressingMode::Absolute
        | AddressingMode::AbsoluteX
        | AddressingMode::AbsoluteY
        | AddressingMode::Indirect => word_at(memory, pc),
        AddressingMode::IndirectIndexed => zero_page_word_at(memory, memory[pc as int]),
        AddressingMode::Relative => pc.wrapping_add(1),
        AddressingMode::Implied | AddressingMode::Accumulator => 0,
    }
}

/// The address that the instruction works on. For the immediate mode it is
/// the address of the operand byte itself; for a branch, the branch target.
pub open spec fn effective_address(mode: AddressingMode, cpu: CPU, memory: Seq<u8>) -> u16 {
    let pc = cpu.program_counter;
    let operand = memory[pc as int];
    match mode {
        AddressingMode::Immediate => pc,
        AddressingMode::ZeroPage => operand as u16,
        AddressingMode::ZeroPageX => operand.wrapping_add(cpu.x_register) as u16,
        AddressingMode::ZeroPageY => operand.wrapping_add(cpu.y_register) as u16,
        AddressingMode::Absolute => word_at(memory, pc),
        AddressingMode::AbsoluteX => word_at(memory, pc).wrapping_add(cpu.x_register as u16),
        AddressingMode::AbsoluteY => word_at(memory, pc).wrapping_add(cpu.y_register as u16),
        AddressingMode::IndexedIndirect => zero_page_word_at(
            memory,
            operand.wrapping_add(cpu.x_register),
        ),
        AddressingMode::IndirectIndexed => zero_page_word_at(memory, operand).wrapping_add(
            cpu.y_register as u16,
        ),
        AddressingMode::Relative => displaced(pc.wrapping_add(1), operand),
        AddressingMode::Indirect => word_at(memory, word_at(memory, pc)),
        AddressingMode::Implied | AddressingMode::Accumulator => 0,
    }
}

/// Whether adding the index (or the branch offset) left the page of the base
/// address.
pub open spec fn page_crossed(mode: AddressingMode, cpu: CPU, memory: Seq<u8>) -> bool {
    match mode {
        AddressingMode::AbsoluteX
        | AddressingMode::AbsoluteY
        | AddressingMode::IndirectIndexed
        | AddressingMode::Relative => !same_page(
            base_address(mode, cpu, memory),
            effective_address(mode, cpu, memory),
        ),
        _ => false,
    }
}

/// The byte that the instruction works on.
pub open spec fn operand_value(mode: AddressingMode, cpu: CPU, memory: Seq<u8>) -> u8 {
    match mode {
        AddressingMode::Accumulator => cpu.a_register,
        _ => memory[effective_address(mode, cpu, memory) as int],
    }
}

/// Whether a branch operation finds its condition met.
pub open spec fn branch_taken(operation: Operation, status: ProcessorFlags) -> bool {
    match operation {
        Operation::Beq => status.zero,
        Operation::Bne => !status.zero,
        Operation::Bcs => status.carry,
        Operation::Bcc => !status.carry,
        Operation::Bmi => status.negative,
        Operation::Bpl => !status.negative,
        Operation::Bvs => status.overflow,
        Operation::Bvc => !status.overflow,
        _ => false,
    }
}

/// Whether an operation is one of the eight branches.
pub open spec fn is_branch(operation: Operation) -> bool {
    match operation {
        Operation::Beq
        | Operation::Bne
        | Operation::Bcs
        | Operation::Bcc
        | Operation::Bmi
        | Operation::Bpl
        | Operation::Bvs
        | Operation::Bvc => true,
        _ => false,
    }
}

/// Whether an operation is a push or a pull.
pub open spec fn is_stack_operation(operation: Operation) -> bool {
    match operation {
        Operation::Pha | Operation::Php | Operation::Pla | Operation::Plp => true,
        _ => false,
    }
}

/// Whether an operation sets the program counter to something other than
/// the address of the next instruction, whatever the flags are.
pub open spec fn is_transfer(operation: Operation) -> bool {
    match operation {
        Operation::Jmp | Operation::Jsr | Operation::Rts | Operation::Brk | Operation::Rti => true,
        _ => false,
    }
}

/// Whether an instruction pairs its operation with an addressing mode that
/// the operation can work with.
pub open spec fn well_formed(operation: Operation, mode: AddressingMode) -> bool {
    match access(operation) {
        Access::Read => match mode {
            AddressingMode::Immediate
            | AddressingMode::ZeroPage
            | AddressingMode::ZeroPageX
            | AddressingMode::ZeroPageY
            | AddressingMode::Absolute
            | AddressingMode::AbsoluteX
            | AddressingMode::AbsoluteY
            | AddressingMode::IndexedIndirect
            | AddressingMode::IndirectIndexed => true,
            _ => false,
        },
        Access::Write => match mode {
            AddressingMode::ZeroPage
            | AddressingMode::ZeroPageX
            | AddressingMode::ZeroPageY
            | AddressingMode::Absolute
            | AddressingMode::AbsoluteX
            | AddressingMode::AbsoluteY
            | AddressingMode::IndexedIndirect
            | AddressingMode::IndirectIndexed => true,
            _ => false,
        },
        Access::Modify => match mode {
            AddressingMode::Accumulator
            | AddressingMode::ZeroPage
            | AddressingMode::ZeroPageX
            | AddressingMode::Absolute
            | AddressingMode::AbsoluteX => true,
            _ => false,
        },
        Access::Control => match operation {
            Operation::Jmp => mode == AddressingMode::Absolute || mode == AddressingMode::Indirect,
            Operation::Jsr => mode == AddressingMode::Absolute,
            _ => if is_branch(operation) {
                mode == AddressingMode::Relative
            } else {
                mode == AddressingMode::Implied
            },
        },
    }
}

/// The cycles spent between the opcode fetch and the access to the operand:
/// fetching the operand bytes, adding an index, reading a pointer. An indexed
/// address costs a cycle more unless the access is a read that stays in the
/// page.
pub open spec fn addressing_cycles(mode: AddressingMode, access: Access, crossed: bool) -> nat {
    let index: nat = if access == Access::Read && !crossed {
        0
    } else {
        1
    };
    match mode {
        AddressingMode::Immediate | AddressingMode::Implied | AddressingMode::Accumulator => 0,
        AddressingMode::ZeroPage | AddressingMode::Relative => 1,
        AddressingMode::ZeroPageX | AddressingMode::ZeroPageY => 2,
        AddressingMode::Absolute => 2,
        AddressingMode::AbsoluteX | AddressingMode::AbsoluteY => 2 + index,
        AddressingMode::IndexedIndirect => 4,
        AddressingMode::IndirectIndexed => 3 + index,
        AddressingMode::Indirect => 4,
    }
}

/// The documented cycle count of an instruction, before the penalties for a
/// page crossing or a taken branch.
pub open spec fn nominal_cycles(operation: Operation, mode: AddressingMode) -> nat {
    match access(operation) {
        Access::Read => match mode {
            AddressingMode::Immediate => 2,
            AddressingMode::ZeroPage => 3,
            AddressingMode::ZeroPageX | AddressingMode::ZeroPageY => 4,
            AddressingMode::Absolute => 4,
            AddressingMode::AbsoluteX | AddressingMode::AbsoluteY => 4,
            AddressingMode::IndexedIndirect => 6,
            AddressingMode::IndirectIndexed => 5,
            _ => 2,
        },
        Access::Write => match mode {
            AddressingMode::ZeroPage => 3,
            AddressingMode::ZeroPageX | AddressingMode::ZeroPageY => 4,
            AddressingMode::Absolute => 4,
            AddressingMode::AbsoluteX | AddressingMode::AbsoluteY => 5,
            AddressingMode::IndexedIndirect => 6,
            AddressingMode::IndirectIndexed => 6,
            _ => 2,
        },
        Access::Modify => match mode {
            AddressingMode::Accumulator => 2,
            AddressingMode::ZeroPage => 5,
            AddressingMode::ZeroPageX => 6,
            AddressingMode::Absolute => 6,
            AddressingMode::AbsoluteX => 7,
            _ => 2,
        },
        Access::Control => match operation {
            Operation::Jmp => if mode == AddressingMode::Indirect {
                5
            } else {
                3
            },
            Operation::Jsr | Operation::Rts | Operation::Rti => 6,
            Operation::Brk => 7,
            Operation::Pha | Operation::Php => 3,
            Operation::Pla | Operation::Plp => 4,
            _ => 2,
        },
    }
}

/// The cycles that an instruction takes beyond its documented count: one
/// when a read crosses a page, one for a taken branch and one more when the
/// taken branch crosses a page.
pub open spec fn penalty_cycles(instruction: Instruction, cpu: CPU, memory: Seq<u8>) -> nat {
    let operation = instruction.spec_operation();
    let mode = instruction.spec_mode();
    if access(operation) == Access::Read {
        if page_crossed(mode, cpu, memory) {
            1
        } else {
            0
        }
    } else if is_branch(operation) && branch_taken(operation, cpu.status) {
        if page_crossed(mode, cpu, memory) {
            2
        } else {
            1
        }
    } else {
        0
    }
}

/// The cycles that an instruction takes, the opcode fetch included.
pub open spec fn cycles_of(instruction: Instruction, cpu: CPU, memory: Seq<u8>) -> nat {
    nominal_cycles(instruction.spec_operation(), instruction.spec_mode()) + penalty_cycles(
        instruction,
        cpu,
        memory,
    )
}

/// Every instruction pairs its operation with a mode it can work with.
pub proof fn lemma_well_formed(instruction: Instruction)
    ensures
        well_formed(instruction.spec_operation(), instruction.spec_mode()),
{
}

/// Every instruction takes between two and seven cycles.
pub proof fn lemma_cycle_bounds(instruction: Instruction, cpu: CPU, memory: Seq<u8>)
    ensures
        2 <= cycles_of(instruction, cpu, memory) <= 7,
        outcome(instruction, cpu, memory).cycles == cycles_of(instruction, cpu, memory),
{
    lemma_well_formed(instruction);
}

/// Binary addition of `value` and the carry to the accumulator: the sum's
/// low eight bits go to the accumulator, its ninth bit to the carry; overflow
/// is set when both addends have one sign and the sum the other.
pub open spec fn added(cpu: CPU, value: u8) -> CPU {
    let sum = cpu.a_register + value + if cpu.status.carry {
        1int
    } else {
        0int
    };
    let result = (sum % 256) as u8;
    CPU {
        a_register: result,
        status: ProcessorFlags {
            carry: sum > 255,
            overflow: ((cpu.a_register >= 128) == (value >= 128)) && ((result >= 128) != (
            cpu.a_register >= 128)),
            ..with_zn(cpu.status, result)
        },
        ..cpu
    }
}

/// Comparison of a register with `value`: carry when the register is not
/// below the value, zero when they are equal, negative from bit 7 of the
/// eight-bit difference.
pub open spec fn compared(cpu: CPU, register: u8, value: u8) -> CPU {
    CPU {
        status: ProcessorFlags {
            carry: register >= value,
            zero: register == value,
            negative: register.wrapping_sub(value) >= 128,
            ..cpu.status
        },
        ..cpu
    }
}

/// The processor after an operation that reads `value`.
pub open spec fn read_effect(operation: Operation, cpu: CPU, value: u8) -> CPU {
    match operation {
        Operation::Lda => CPU { a_register: value, status: with_zn(cpu.status, value), ..cpu },
        Operation::Ldx => CPU { x_register: value, status: with_zn(cpu.status, value), ..cpu },
        Operation::Ldy => CPU { y_register: value, status: with_zn(cpu.status, value), ..cpu },
        Operation::And => CPU {
            a_register: cpu.a_register & value,
            status: with_zn(cpu.status, cpu.a_register & value),
            ..cpu
        },
        Operation::Eor => CPU {
            a_register: cpu.a_register ^ value,
            status: with_zn(cpu.status, cpu.a_register ^ value),
            ..cpu
        },
        Operation::Ora => CPU {
            a_register: cpu.a_register | value,
            status: with_zn(cpu.status, cpu.a_register | value),
            ..cpu
        },
        Operation::Bit => CPU {
            status: ProcessorFlags {
                zero: cpu.a_register & value == 0,
                negative: value >= 128,
                overflow: (value / 64) % 2 == 1,
                ..cpu.status
            },
            ..cpu
        },
        Operation::Adc => added(cpu, value),
        Operation::Sbc => added(cpu, (255 - value) as u8),
        Operation::Cmp => compared(cpu, cpu.a_register, value),
        Operation::Cpx => compared(cpu, cpu.x_register, value),
        Operation::Cpy => compared(cpu, cpu.y_register, value),
        _ => cpu,
    }
}

/// The register that a store operation writes.
pub open spec fn stored_register(operation: Operation, cpu: CPU) -> u8 {
    match operation {
        Operation::Stx => cpu.x_register,
        Operation::Sty => cpu.y_register,
        _ => cpu.a_register,
    }
}

/// The byte that a read-modify-write operation makes of `value`.
pub open spec fn modified_value(operation: Operation, value: u8, carry: bool) -> u8 {
    let carry_in: int = if carry {
        1
    } else {
        0
    };
    match operation {
        Operation::Asl => ((value * 2) % 256) as u8,
        Operation::Lsr => value / 2,
        Operation::Rol => ((value * 2) % 256 + carry_in) as u8,
        Operation::Ror => (value / 2 + 128 * carry_in) as u8,
        Operation::Inc => value.wrapping_add(1),
        Operation::Dec => value.wrapping_sub(1),
        _ => value,
    }
}

/// The carry after a read-modify-write operation on `value`: the bit that a
/// shift or rotation pushed out; unchanged by an increment or decrement.
pub open spec fn modified_carry(operation: Operation, value: u8, carry: bool) -> bool {
    match operation {
        Operation::Asl | Operation::Rol => value >= 128,
        Operation::Lsr | Operation::Ror => value % 2 == 1,
        _ => carry,
    }
}

/// The flags after a read-modify-write operation on `value`.
pub open spec fn modified_status(
    operation: Operation,
    status: ProcessorFlags,
    value: u8,
) -> ProcessorFlags {
    ProcessorFlags {
        carry: modified_carry(operation, value, status.carry),
        ..with_zn(status, modified_value(operation, value, status.carry))
    }
}

/// The processor after an operation that works on registers and flags alone.
pub open spec fn register_effect(operation: Operation, cpu: CPU) -> CPU {
    match operation {
        Operation::Tax => CPU {
            x_register: cpu.a_register,
            status: with_zn(cpu.status, cpu.a_register),
            ..cpu
        },
        Operation::Tay => CPU {
            y_register: cpu.a_register,
            status: with_zn(cpu.status, cpu.a_register),
            ..cpu
        },
        Operation::Txa => CPU {
            a_register: cpu.x_register,
            status: with_zn(cpu.status, cpu.x_register),
            ..cpu
        },
        Operation::Tya => CPU {
            a_register: cpu.y_register,
            status: with_zn(cpu.status, cpu.y_register),
            ..cpu
        },
        Operation::Tsx => CPU {
            x_register: cpu.stack_pointer,
            status: with_zn(cpu.status, cpu.stack_pointer),
            ..cpu
        },
        Operation::Txs => CPU { stack_pointer: cpu.x_register, ..cpu },
        Operation::Inx => CPU {
            x_register: cpu.x_register.wrapping_add(1),
            status: with_zn(cpu.status, cpu.x_register.wrapping_add(1)),
            ..cpu
        },
        Operation::Iny => CPU {
            y_register: cpu.y_register.wrapping_add(1),
            status: with_zn(cpu.status, cpu.y_register.wrapping_add(1)),
            ..cpu
        },
        Operation::Dex => CPU {
            x_register: cpu.x_register.wrapping_sub(1),
            status: with_zn(cpu.status, cpu.x_register.wrapping_sub(1)),
            ..cpu
        },
        Operation::Dey => CPU {
            y_register: cpu.y_register.wrapping_sub(1),
            status: with_zn(cpu.status, cpu.y_register.wrapping_sub(1)),
            ..cpu
        },
        Operation::Clc => CPU { status: ProcessorFlags { carry: false, ..cpu.status }, ..cpu },
        Operation::Sec => CPU { status: ProcessorFlags { carry: true, ..cpu.status }, ..cpu },
        Operation::Cld => CPU {
            status: ProcessorFlags { decimal_mode: false, ..cpu.status },
            ..cpu
        },
        Operation::Sed => CPU {
            status: ProcessorFlags { decimal_mode: true, ..cpu.status },
            ..cpu
        },
        Operation::Cli => CPU {
            status: ProcessorFlags { interupt_disable: false, ..cpu.status },
            ..cpu
        },
        Operation::Sei => CPU {
            status: ProcessorFlags { interupt_disable: true, ..cpu.status },
            ..cpu
        },
        Operation::Clv => CPU { status: ProcessorFlags { overflow: false, ..cpu.status }, ..cpu },
        _ => cpu,
    }
}

/// The memory after `value` was pushed: it lies in the slot that the stack
/// pointer named.
pub open spec fn pushed_memory(memory: Seq<u8>, stack_pointer: u8, value: u8) -> Seq<u8> {
    memory.update(stack_address(stack_pointer) as int, value)
}

/// The memory after `value` was pushed as a word: the high byte in the slot
/// that the stack pointer named, the low byte in the slot below it.
pub open spec fn pushed_word_memory(memory: Seq<u8>, stack_pointer: u8, value: u16) -> Seq<u8> {
    pushed_memory(
        pushed_memory(memory, stack_pointer, high_byte(value)),
        stack_pointer.wrapping_sub(1),
        low_byte(value),
    )
}

/// The byte that a pull reads: the one in the slot above the stack pointer.
pub open spec fn pulled(memory: Seq<u8>, stack_pointer: u8) -> u8 {
    memory[stack_address(stack_pointer.wrapping_add(1)) as int]
}

/// The word that pulling two bytes reads: low byte first, then high byte.
pub open spec fn pulled_word(memory: Seq<u8>, stack_pointer: u8) -> u16 {
    crate::memory::word(
        pulled(memory, stack_pointer),
        pulled(memory, stack_pointer.wrapping_add(1)),
    )
}

/// The state after an operation that works on the stack or the program
/// counter. `cpu` is the processor after the opcode fetch; `next` is the
/// address of the instruction that follows in memory.
pub open spec fn control_effect(
    operation: Operation,
    mode: AddressingMode,
    cpu: CPU,
    memory: Seq<u8>,
) -> (CPU, Seq<u8>) {
    let next = cpu.program_counter.wrapping_add(operand_length(mode));
    let sp = cpu.stack_pointer;
    match operation {
        Operation::Pha => (
            CPU { stack_pointer: sp.wrapping_sub(1), ..cpu },
            pushed_memory(memory, sp, cpu.a_register),
        ),
        Operation::Php => (
            CPU { stack_pointer: sp.wrapping_sub(1), ..cpu },
            pushed_memory(memory, sp, cpu.status.pushed() as u8),
        ),
        Operation::Pla => (
            CPU {
                stack_pointer: sp.wrapping_add(1),
                a_register: pulled(memory, sp),
                status: with_zn(cpu.status, pulled(memory, sp)),
                ..cpu
            },
            memory,
        ),
        Operation::Plp => (
            CPU {
                stack_pointer: sp.wrapping_add(1),
                status: ProcessorFlags::unpacked(pulled(memory, sp)),
                ..cpu
            },
            memory,
        ),
        Operation::Jmp => (
            CPU { program_counter: effective_address(mode, cpu, memory), ..cpu },
            memory,
        ),
        Operation::Jsr => (
            CPU {
                program_counter: effective_address(mode, cpu, memory),
                stack_pointer: sp.wrapping_sub(2),
                ..cpu
            },
            pushed_word_memory(memory, sp, next.wrapping_sub(1)),
        ),
        Operation::Rts => (
            CPU {
                program_counter: pulled_word(memory, sp).wrapping_add(1),
                stack_pointer: sp.wrapping_add(2),
                ..cpu
            },
            memory,
        ),
        Operation::Brk => {
            let stacked = pushed_memory(
                pushed_word_memory(memory, sp, cpu.program_counter),
                sp.wrapping_sub(2),
                cpu.status.pushed() as u8,
            );
            (
                CPU {
                    program_counter: word_at(stacked, 0xFFFE),
                    stack_pointer: sp.wrapping_sub(3),
                    status: ProcessorFlags { interupt_disable: true, ..cpu.status },
                    ..cpu
                },
                stacked,
            )
        },
        Operation::Rti => (
            CPU {
                program_counter: pulled_word(memory, sp.wrapping_add(1)),
                stack_pointer: sp.wrapping_add(3),
                status: ProcessorFlags::unpacked(pulled(memory, sp)),
                ..cpu
            },
            memory,
        ),
        _ => if is_branch(operation) {
            (
                CPU {
                    program_counter: if branch_taken(operation, cpu.status) {
                        effective_address(mode, cpu, memory)
                    } else {
                        next
                    },
                    ..cpu
                },
                memory,
            )
        } else {
            (register_effect(operation, CPU { program_counter: next, ..cpu }), memory)
        },
    }
}

/// The state after `instruction`, and the cycles it took.
pub open spec fn outcome(instruction: Instruction, cpu: CPU, memory: Seq<u8>) -> Outcome {
    let operation = instruction.spec_operation();
    let mode = instruction.spec_mode();
    let next = CPU {
        program_counter: cpu.program_counter.wrapping_add(operand_length(mode)),
        ..cpu
    };
    let address = effective_address(mode, cpu, memory);
    let value = operand_value(mode, cpu, memory);
    let cycles = cycles_of(instruction, cpu, memory);
    match access(operation) {
        Access::Read => Outcome { cpu: read_effect(operation, next, value), memory, cycles },
        Access::Write => Outcome {
            cpu: next,
            memory: memory.update(address as int, stored_register(operation, cpu)),
            cycles,
        },
        Access::Modify => {
            let result = modified_value(operation, value, cpu.status.carry);
            let status = modified_status(operation, cpu.status, value);
            if mode == AddressingMode::Accumulator {
                Outcome { cpu: CPU { a_register: result, status, ..next }, memory, cycles }
            } else {
                Outcome {
                    cpu: CPU { status, ..next },
                    memory: memory.update(address as int, result),
                    cycles,
                }
            }
        },
        Access::Control => {
            let (after, stacked) = control_effect(operation, mode, cpu, memory);
            Outcome { cpu: after, memory: stacked, cycles }
        },
    }
}

/// The byte at the program counter.
pub open spec fn opcode_at(cpu: CPU, memory: Seq<u8>) -> u8 {
    memory[cpu.program_counter as int]
}

/// One fetch-decode-execute round from `cpu`, whose program counter is at an
/// opcode byte.
pub open spec fn step(cpu: CPU, memory: Seq<u8>) -> Step {
    let byte = opcode_at(cpu, memory);
    let fetched = CPU { program_counter: cpu.program_counter.wrapping_add(1), ..cpu };
    match decode(byte) {
        Ok(instruction) => Step::Done(outcome(instruction, fetched, memory)),
        Err(_) => Step::Fault { cpu: fetched, byte },
    }
}

/// Whether the next instruction is an addition or subtraction with the
/// decimal flag set.
pub open spec fn traps(cpu: CPU, memory: Seq<u8>) -> bool {
    cpu.status.decimal_mode && match decode(opcode_at(cpu, memory)) {
        Ok(instruction) => instruction.spec_operation() == Operation::Adc
            || instruction.spec_operation() == Operation::Sbc,
        Err(_) => false,
    }
}

/// Rounds are run while the budget is positive; the last one may run past
/// it. A byte that encodes no instruction ends the run after its fetch cycle.
/// An addition or subtraction in decimal mode ends the run in front of it.
pub open spec fn run(cpu: CPU, memory: Seq<u8>, budget: int) -> Run
    decreases vstd::math::max(budget, 0),
{
    if budget <= 0 {
        Run { cpu, memory, remaining: budget, stop: Stop::Budget }
    } else if traps(cpu, memory) {
        Run { cpu, memory, remaining: budget, stop: Stop::Decimal }
    } else {
        match step(cpu, memory) {
            Step::Done(o) => run(o.cpu, o.memory, budget - o.cycles),
            Step::Fault { cpu: fetched, byte } => Run {
                cpu: fetched,
                memory,
                remaining: budget - 1,
                stop: Stop::Fault(byte),
            },
        }
    }
}

} // verus!
