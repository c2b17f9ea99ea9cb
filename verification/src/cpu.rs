//! Processor state and the fetch-decode-execute loop.

use vstd::prelude::*;
use vstd::pervasive::unreached;
use crate::bits::{
    lemma_complement, lemma_halves, lemma_masks, lemma_set_pushed_bits, lemma_shifts,
    lemma_sign_extend, lemma_signs, lemma_stack, lemma_word,
};
use crate::instructions::{AddressingMode, Instruction, InstructionsError, Operation};
use crate::memory::{high_byte, low_byte, stored, word, word_at, zero_page_word_at, Memory};
use crate::semantics::{
    access, added, addressing_cycles, branch_taken, compared, control_effect,
    effective_address, is_branch, is_stack_operation, is_transfer, lemma_cycle_bounds,
    lemma_well_formed, modified_status, modified_value, nominal_cycles, operand_length,
    operand_value, outcome, page_crossed, pulled, pulled_word, pushed_memory,
    pushed_word_memory, read_effect, register_effect, run, same_page, stack_address, step,
    traps, well_formed, with_zn, Access, Step, Stop,
};

verus! {

pub type Byte = u8;

pub type SByte = i8;

pub type Word = u16;

/// The seven processor status flags.
#[derive(Debug, Clone, Copy, PartialEq, Eq, Structural)]
pub struct ProcessorFlags {
    pub carry: bool,
    pub zero: bool,
    pub interupt_disable: bool,
    pub decimal_mode: bool,
    pub break_command: bool,
    pub overflow: bool,
    pub negative: bool,
}

/// The number that stands for a flag in a packed status byte.
pub open spec fn weight(flag: bool, w: int) -> int {
    if flag {
        w
    } else {
        0
    }
}

impl ProcessorFlags {
    pub const NEGATIVE_FLAG_BIT: Byte = 0b10000000;

    pub const OVERFLOW_FLAG_BIT: Byte = 0b01000000;

    /// Mask of the two bits that every pushed status byte has set: the break
    /// bit and the unused bit above it.
    pub const PUSHED_BITS: Byte = 0b00110000;

    /// The packed status byte: carry in bit 0, then zero, interrupt disable,
    /// decimal mode, break, (bit 5 unused and clear), overflow, negative.
    pub open spec fn packed(self) -> int {
        weight(self.carry, 1) + weight(self.zero, 2) + weight(self.interupt_disable, 4) + weight(
            self.decimal_mode,
            8,
        ) + weight(self.break_command, 16) + weight(self.overflow, 64) + weight(
            self.negative,
            128,
        )
    }

    /// The flags that a status byte stands for; bit 5 is ignored.
    pub open spec fn unpacked(value: u8) -> ProcessorFlags {
        ProcessorFlags {
            carry: value % 2 == 1,
            zero: (value / 2) % 2 == 1,
            interupt_disable: (value / 4) % 2 == 1,
            decimal_mode: (value / 8) % 2 == 1,
            break_command: (value / 16) % 2 == 1,
            overflow: (value / 64) % 2 == 1,
            negative: value >= 128,
        }
    }

    /// The byte that a push of these flags writes: the packed byte with the
    /// unused bit and the break bit set.
    pub open spec fn pushed(self) -> int {
        self.packed() + 32 + weight(!self.break_command, 16)
    }

    /// Flag by flag disjunction.
    pub open spec fn union(self, rhs: ProcessorFlags) -> ProcessorFlags {
        ProcessorFlags {
            carry: self.carry || rhs.carry,
            zero: self.zero || rhs.zero,
            interupt_disable: self.interupt_disable || rhs.interupt_disable,
            decimal_mode: self.decimal_mode || rhs.decimal_mode,
            break_command: self.break_command || rhs.break_command,
            overflow: self.overflow || rhs.overflow,
            negative: self.negative || rhs.negative,
        }
    }

    pub fn into_u8(&self) -> (value: u8)
        ensures
            value == self.packed(),
    {
        let mut value: u8 = 0;
        if self.carry {
            value = value + 1;
        }
        if self.zero {
            value = value + 2;
        }
        if self.interupt_disable {
            value = value + 4;
        }
        if self.decimal_mode {
            value = value + 8;
        }
        if self.break_command {
            value = value + 16;
        }
        if self.overflow {
            value = value + 64;
        }
        if self.negative {
            value = value + 128;
        }
        value
    }

    /// The byte that a push of these flags writes.
    pub fn pushed_byte(&self) -> (value: u8)
        ensures
            value == self.pushed(),
    {
        let packed = self.into_u8();
        proof {
            lemma_masks(packed);
            lemma_set_pushed_bits(packed);
        }
        packed | Self::PUSHED_BITS
    }
}

impl Default for ProcessorFlags {
    fn default() -> (flags: ProcessorFlags)
        ensures
            flags == ProcessorFlags::unpacked(0),
    {
        ProcessorFlags {
            carry: false,
            zero: false,
            interupt_disable: false,
            decimal_mode: false,
            break_command: false,
            overflow: false,
            negative: false,
        }
    }
}

impl From<u8> for ProcessorFlags {
    fn from(value: u8) -> (flags: ProcessorFlags) {
        proof {
            lemma_masks(value);
        }
        ProcessorFlags {
            carry: value & 0b00000001 != 0,
            zero: value & 0b00000010 != 0,
            interupt_disable: value & 0b00000100 != 0,
            decimal_mode: value & 0b00001000 != 0,
            break_command: value & 0b00010000 != 0,
            overflow: value & Self::OVERFLOW_FLAG_BIT != 0,
            negative: value & Self::NEGATIVE_FLAG_BIT != 0,
        }
    }
}

impl vstd::std_specs::convert::FromSpecImpl<u8> for ProcessorFlags {
    open spec fn obeys_from_spec() -> bool {
        true
    }

    open spec fn from_spec(value: u8) -> ProcessorFlags {
        ProcessorFlags::unpacked(value)
    }
}

impl From<ProcessorFlags> for u8 {
    fn from(val: ProcessorFlags) -> (value: u8) {
        val.into_u8()
    }
}

impl vstd::std_specs::convert::FromSpecImpl<ProcessorFlags> for u8 {
    open spec fn obeys_from_spec() -> bool {
        true
    }

    open spec fn from_spec(val: ProcessorFlags) -> u8 {
        val.packed() as u8
    }
}

impl std::ops::BitOrAssign for ProcessorFlags {
    fn bitor_assign(&mut self, rhs: ProcessorFlags)
        ensures
            *final(self) == old(self).union(rhs),
    {
        self.carry = self.carry || rhs.carry;
        self.zero = self.zero || rhs.zero;
        self.interupt_disable = self.interupt_disable || rhs.interupt_disable;
        self.decimal_mode = self.decimal_mode || rhs.decimal_mode;
        self.break_command = self.break_command || rhs.break_command;
        self.overflow = self.overflow || rhs.overflow;
        self.negative = self.negative || rhs.negative;
    }
}

/// The architectural state of the processor.
#[derive(Debug, Clone, Copy)]
pub struct CPU {
    // Addresses
    pub program_counter: Word,
    pub stack_pointer: Byte,
    // Registers
    pub a_register: Byte,
    pub x_register: Byte,
    pub y_register: Byte,
    // Status flags
    pub status: ProcessorFlags,
}

/// How an operation uses its operand.
pub fn access_of(operation: Operation) -> (a: Access)
    ensures
        a == access(operation),
{
    match operation {
        Operation::Lda
        | Operation::Ldx
        | Operation::Ldy
        | Operation::And
        | Operation::Eor
        | Operation::Ora
        | Operation::Bit
        | Operation::Adc
        | Operation::Sbc
        | Operation::Cmp
        | Operation::Cpx
        | Operation::Cpy => Access::Read,
        Operation::Sta | Operation::Stx | Operation::Sty => Access::Write,
        Operation::Asl
        | Operation::Lsr
        | Operation::Rol
        | Operation::Ror
        | Operation::Inc
        | Operation::Dec => Access::Modify,
        _ => Access::Control,
    }
}

impl CPU {
    /// The processor after a reset: program counter at `reset_vector` (0xFFFC
    /// when none is given), stack pointer at the top of the stack page,
    /// registers zero, flags clear.
    pub fn reset(reset_vector: Option<Word>) -> (cpu: CPU)
        ensures
            cpu.program_counter == match reset_vector {
                Some(vector) => vector,
                None => 0xFFFCu16,
            },
            cpu.stack_pointer == 0xFF,
            cpu.a_register == 0,
            cpu.x_register == 0,
            cpu.y_register == 0,
            cpu.status == ProcessorFlags::unpacked(0),
    {
        let program_counter = match reset_vector {
            Some(vector) => vector,
            None => 0xFFFC,
        };
        CPU {
            program_counter,
            stack_pointer: 0xFF,
            a_register: 0,
            x_register: 0,
            y_register: 0,
            status: ProcessorFlags::default(),
        }
    }

    /// Sets the zero and negative flags from `value`.
    pub fn set_z_n_flags(&mut self, value: Byte)
        ensures
            *final(self) == (CPU { status: with_zn(old(self).status, value), ..*old(self) }),
    {
        proof {
            lemma_masks(value);
        }
        self.status.zero = value == 0;
        self.status.negative = (value & ProcessorFlags::NEGATIVE_FLAG_BIT) > 0;
    }

    /// Fetches the offset of a branch and takes the branch when `test` is
    /// `expected`. A branch that is taken costs one cycle more, and another
    /// when the target lies in another page than the next instruction.
    pub fn branch_if(&mut self, cycles: &mut i32, memory: &mut Memory, test: bool, expected: bool)
        requires
            *old(cycles) >= i32::MIN + 1 + if test == expected {
                if page_crossed(AddressingMode::Relative, *old(self), old(memory)@) {
                    2int
                } else {
                    1int
                }
            } else {
                0int
            },
        ensures
            *final(memory) == *old(memory),
            *final(self) == (CPU {
                program_counter: if test == expected {
                    effective_address(AddressingMode::Relative, *old(self), old(memory)@)
                } else {
                    old(self).program_counter.wrapping_add(1)
                },
                ..*old(self)
            }),
            *final(cycles) == *old(cycles) - 1 - if test == expected {
                if page_crossed(AddressingMode::Relative, *old(self), old(memory)@) {
                    2int
                } else {
                    1int
                }
            } else {
                0int
            },
    {
        let offset = self.fetch_byte(cycles, memory);
        let jump_offset = offset as SByte;
        if test == expected {
            let program_counter_old = self.program_counter;
            proof {
                lemma_sign_extend(offset);
            }
            self.program_counter = self.program_counter.wrapping_add(jump_offset as Word);
            *cycles -= 1;
            if !CPU::check_same_page(program_counter_old, self.program_counter) {
                *cycles -= 1;
            }
        }
    }

    /// Adds `rhs` and the carry to the accumulator, in binary: the low eight
    /// bits of the sum go to the accumulator, the ninth to the carry, and
    /// overflow tells whether the signed sum left the range of a byte.
    /// Subtraction is the addition of the complemented operand.
    pub fn add_with_carry(&mut self, cycles: &mut i32, memory: &mut Memory, rhs: Byte)
        requires
            !old(self).status.decimal_mode,
        ensures
            *final(self) == added(*old(self), rhs),
            *final(cycles) == *old(cycles),
            *final(memory) == *old(memory),
    {
        let carry: Word = if self.status.carry {
            1
        } else {
            0
        };
        let a_old = self.a_register;
        let word_addition: Word = self.a_register as Word + rhs as Word + carry;
        let are_sign_bits_the_same = (self.a_register ^ rhs) & ProcessorFlags::NEGATIVE_FLAG_BIT
            == 0;
        proof {
            lemma_halves(word_addition);
            lemma_signs(a_old, rhs);
        }
        self.a_register = (word_addition & 0x00FF) as Byte;
        self.set_z_n_flags(self.a_register);
        self.status.carry = word_addition > 0xFF;
        proof {
            lemma_signs(rhs, self.a_register);
        }
        self.status.overflow = are_sign_bits_the_same && (rhs ^ self.a_register)
            & ProcessorFlags::NEGATIVE_FLAG_BIT != 0;
    }

    /// Compares `register` with `value` and sets carry, zero and negative.
    fn compare(&mut self, register: Byte, value: Byte)
        ensures
            *final(self) == compared(*old(self), register, value),
    {
        let difference = register.wrapping_sub(value);
        proof {
            lemma_masks(difference);
        }
        self.status.carry = register >= value;
        self.status.zero = register == value;
        self.status.negative = (difference & ProcessorFlags::NEGATIVE_FLAG_BIT) != 0;
    }

    /// Whether the next instruction is an addition or subtraction that would
    /// run with the decimal flag set. Decimal arithmetic is not emulated:
    /// `execute` must not be asked to run such an instruction, and
    /// `try_execute` stops in front of it.
    pub fn decimal_trap(&self, memory: &Memory) -> (trap: bool)
        ensures
            trap == traps(*self, memory@),
    {
        if !self.status.decimal_mode {
            return false;
        }
        match Instruction::try_from(memory.read_byte(self.program_counter)) {
            Ok(instruction) => {
                let operation = instruction.operation();
                match operation {
                    Operation::Adc | Operation::Sbc => true,
                    _ => false,
                }
            },
            Err(_) => false,
        }
    }

    /// Fetches the operand bytes of an instruction in `mode` and forms the
    /// address that the instruction works on. For the immediate mode that is
    /// the address of the operand byte, whose read is left to the caller.
    pub fn resolve(
        &mut self,
        mode: AddressingMode,
        access: Access,
        cycles: &mut i32,
        memory: &mut Memory,
    ) -> (address: Word)
        requires
            mode != AddressingMode::Implied,
            mode != AddressingMode::Accumulator,
            mode != AddressingMode::Relative,
            *old(cycles) >= i32::MIN + addressing_cycles(
                mode,
                access,
                page_crossed(mode, *old(self), old(memory)@),
            ),
        ensures
            address == effective_address(mode, *old(self), old(memory)@),
            *final(memory) == *old(memory),
            *final(self) == (CPU {
                program_counter: old(self).program_counter.wrapping_add(operand_length(mode)),
                ..*old(self)
            }),
            *final(cycles) == *old(cycles) - addressing_cycles(
                mode,
                access,
                page_crossed(mode, *old(self), old(memory)@),
            ),
    {
        let read_only = match access {
            Access::Read => true,
            _ => false,
        };
        match mode {
            AddressingMode::Immediate => {
                let address = self.program_counter;
                self.program_counter = self.program_counter.wrapping_add(1);
                address
            },
            AddressingMode::ZeroPage => {
                let zero_page_address = self.fetch_byte(cycles, memory);
                zero_page_address as Word
            },
            AddressingMode::ZeroPageX => {
                let zero_page_address = self.fetch_byte(cycles, memory);
                let zero_page_address_x = zero_page_address.wrapping_add(self.x_register);
                *cycles -= 1;
                zero_page_address_x as Word
            },
            AddressingMode::ZeroPageY => {
                let zero_page_address = self.fetch_byte(cycles, memory);
                let zero_page_address_y = zero_page_address.wrapping_add(self.y_register);
                *cycles -= 1;
                zero_page_address_y as Word
            },
            AddressingMode::Absolute => self.fetch_word(cycles, memory),
            AddressingMode::AbsoluteX => {
                let absolute_address = self.fetch_word(cycles, memory);
                let absolute_address_x = absolute_address.wrapping_add(self.x_register as Word);
                if !read_only || !CPU::check_same_page(absolute_address, absolute_address_x) {
                    *cycles -= 1;
                }
                absolute_address_x
            },
            AddressingMode::AbsoluteY => {
                let absolute_address = self.fetch_word(cycles, memory);
                let absolute_address_y = absolute_address.wrapping_add(self.y_register as Word);
                if !read_only || !CPU::check_same_page(absolute_address, absolute_address_y) {
                    *cycles -= 1;
                }
                absolute_address_y
            },
            AddressingMode::IndexedIndirect => {
                let zero_page_address = self.fetch_byte(cycles, memory);
                let zero_page_address_x = zero_page_address.wrapping_add(self.x_register);
                *cycles -= 1;
                self.read_word_from_zero_page(cycles, memory, zero_page_address_x)
            },
            AddressingMode::IndirectIndexed => {
                let zero_page_address = self.fetch_byte(cycles, memory);
                let indirect_address = self.read_word_from_zero_page(
                    cycles,
                    memory,
                    zero_page_address,
                );
                let indirect_address_y = indirect_address.wrapping_add(self.y_register as Word);
                if !read_only || !CPU::check_same_page(indirect_address, indirect_address_y) {
                    *cycles -= 1;
                }
                indirect_address_y
            },
            AddressingMode::Indirect => {
                let indirect_address = self.fetch_word(cycles, memory);
                self.read_word_absolute(cycles, memory, indirect_address)
            },
            _ => unreached(),
        }
    }

    /// Applies an operation that reads `value` to registers and flags.
    fn apply_read(
        &mut self,
        operation: Operation,
        value: Byte,
        cycles: &mut i32,
        memory: &mut Memory,
    )
        requires
            access(operation) == Access::Read,
            (operation == Operation::Adc || operation == Operation::Sbc) ==> !old(
                self,
            ).status.decimal_mode,
        ensures
            *final(self) == read_effect(operation, *old(self), value),
            *final(cycles) == *old(cycles),
            *final(memory) == *old(memory),
    {
        match operation {
            Operation::Lda => {
                self.a_register = value;
                self.set_z_n_flags(self.a_register);
            },
            Operation::Ldx => {
                self.x_register = value;
                self.set_z_n_flags(self.x_register);
            },
            Operation::Ldy => {
                self.y_register = value;
                self.set_z_n_flags(self.y_register);
            },
            Operation::And => {
                self.a_register &= value;
                self.set_z_n_flags(self.a_register);
            },
            Operation::Eor => {
                self.a_register ^= value;
                self.set_z_n_flags(self.a_register);
            },
            Operation::Ora => {
                self.a_register |= value;
                self.set_z_n_flags(self.a_register);
            },
            Operation::Bit => {
                proof {
                    lemma_masks(value);
                }
                self.status.zero = (self.a_register & value) == 0;
                self.status.negative = (value & ProcessorFlags::NEGATIVE_FLAG_BIT) != 0;
                self.status.overflow = (value & ProcessorFlags::OVERFLOW_FLAG_BIT) != 0;
            },
            Operation::Adc => {
                self.add_with_carry(cycles, memory, value);
            },
            Operation::Sbc => {
                proof {
                    lemma_complement(value);
                }
                self.add_with_carry(cycles, memory, !value);
            },
            Operation::Cmp => {
                self.compare(self.a_register, value);
            },
            Operation::Cpx => {
                self.compare(self.x_register, value);
            },
            Operation::Cpy => {
                self.compare(self.y_register, value);
            },
            _ => unreached(),
        }
    }

    /// Shifts, rotates, increments or decrements `value` and sets the flags;
    /// returns the new value.
    fn apply_modify(&mut self, operation: Operation, value: Byte) -> (result: Byte)
        requires
            access(operation) == Access::Modify,
        ensures
            result == modified_value(operation, value, old(self).status.carry),
            *final(self) == (CPU {
                status: modified_status(operation, old(self).status, value),
                ..*old(self)
            }),
    {
        proof {
            lemma_shifts(value);
            lemma_masks(value);
        }
        let result = match operation {
            Operation::Asl => {
                self.status.carry = (value & 0b10000000) != 0;
                value << 1
            },
            Operation::Lsr => {
                self.status.carry = (value & 0b00000001) != 0;
                value >> 1
            },
            Operation::Rol => {
                let rotated = if self.status.carry {
                    (value << 1) | 0b00000001
                } else {
                    value << 1
                };
                self.status.carry = (value & 0b10000000) != 0;
                rotated
            },
            Operation::Ror => {
                let rotated = if self.status.carry {
                    (value >> 1) | 0b10000000
                } else {
                    value >> 1
                };
                self.status.carry = (value & 0b00000001) != 0;
                rotated
            },
            Operation::Inc => value.wrapping_add(1),
            Operation::Dec => value.wrapping_sub(1),
            _ => unreached(),
        };
        self.set_z_n_flags(result);
        result
    }

    /// Runs a read-modify-write instruction on the accumulator or on memory.
    fn modify(
        &mut self,
        operation: Operation,
        mode: AddressingMode,
        cycles: &mut i32,
        memory: &mut Memory,
    )
        requires
            access(operation) == Access::Modify,
            well_formed(operation, mode),
            *old(cycles) >= i32::MIN + addressing_cycles(mode, Access::Modify, false) + (if mode
                == AddressingMode::Accumulator {
                1int
            } else {
                3int
            }),
        ensures
            ({
                let value = operand_value(mode, *old(self), old(memory)@);
                let address = effective_address(mode, *old(self), old(memory)@);
                let next = old(self).program_counter.wrapping_add(operand_length(mode));
                let result = modified_value(operation, value, old(self).status.carry);
                let status = modified_status(operation, old(self).status, value);
                if mode == AddressingMode::Accumulator {
                    &&& *final(self) == (CPU {
                        a_register: result,
                        status,
                        program_counter: next,
                        ..*old(self)
                    })
                    &&& final(memory)@ == old(memory)@
                } else {
                    &&& *final(self) == (CPU { status, program_counter: next, ..*old(self) })
                    &&& final(memory)@ == old(memory)@.update(address as int, result)
                }
            }),
            *final(cycles) == *old(cycles) - addressing_cycles(mode, Access::Modify, false) - (
            if mode == AddressingMode::Accumulator {
                1int
            } else {
                3int
            }),
    {
        match mode {
            AddressingMode::Accumulator => {
                let result = self.apply_modify(operation, self.a_register);
                self.a_register = result;
                *cycles -= 1;
            },
            _ => {
                let address = self.resolve(mode, Access::Modify, cycles, memory);
                let value = self.read_byte(cycles, memory, address);
                let result = self.apply_modify(operation, value);
                *cycles -= 1;
                self.write_byte(result, address, cycles, memory);
            },
        }
    }

    /// Runs a push or a pull.
    fn stack_operation(
        &mut self,
        operation: Operation,
        mode: AddressingMode,
        cycles: &mut i32,
        memory: &mut Memory,
    )
        requires
            is_stack_operation(operation),
            *old(cycles) >= i32::MIN + nominal_cycles(operation, mode) - 1,
        ensures
            *final(self) == control_effect(operation, mode, *old(self), old(memory)@).0,
            final(memory)@ == control_effect(operation, mode, *old(self), old(memory)@).1,
            *final(cycles) == *old(cycles) - (nominal_cycles(operation, mode) - 1),
    {
        match operation {
            Operation::Pha => {
                self.push_byte_to_stack(self.a_register, cycles, memory);
            },
            Operation::Php => {
                let status = self.status.pushed_byte();
                self.push_byte_to_stack(status, cycles, memory);
            },
            Operation::Pla => {
                self.a_register = self.pop_byte_from_stack(cycles, memory);
                self.set_z_n_flags(self.a_register);
            },
            Operation::Plp => {
                let status = self.pop_byte_from_stack(cycles, memory);
                self.status = ProcessorFlags::from(status);
            },
            _ => unreached(),
        }
    }

    /// Runs a jump, a call, a return, a break or a return from interrupt.
    fn transfer(
        &mut self,
        operation: Operation,
        mode: AddressingMode,
        cycles: &mut i32,
        memory: &mut Memory,
    )
        requires
            is_transfer(operation),
            well_formed(operation, mode),
            *old(cycles) >= i32::MIN + nominal_cycles(operation, mode) - 1,
        ensures
            *final(self) == control_effect(operation, mode, *old(self), old(memory)@).0,
            final(memory)@ == control_effect(operation, mode, *old(self), old(memory)@).1,
            *final(cycles) == *old(cycles) - (nominal_cycles(operation, mode) - 1),
    {
        proof {
            memory.lemma_len();
        }
        match operation {
            Operation::Jmp => {
                let address = self.resolve(mode, Access::Control, cycles, memory);
                self.program_counter = address;
            },
            Operation::Jsr => {
                let subroutine_address = self.fetch_word(cycles, memory);
                self.push_program_counter_to_stack(cycles, memory);
                self.program_counter = subroutine_address;
            },
            Operation::Rts => {
                let return_address = self.pop_word_from_stack(cycles, memory);
                self.program_counter = return_address.wrapping_add(1);
                *cycles -= 2;
            },
            Operation::Brk => {
                let return_address = self.program_counter;
                *cycles -= 1;
                proof {
                    lemma_halves(return_address);
                }
                self.write_byte(
                    (return_address >> 8) as Byte,
                    self.stack_pointer_to_address(),
                    cycles,
                    memory,
                );
                self.stack_pointer = self.stack_pointer.wrapping_sub(1);
                self.write_byte(
                    (return_address & 0xFF) as Byte,
                    self.stack_pointer_to_address(),
                    cycles,
                    memory,
                );
                self.stack_pointer = self.stack_pointer.wrapping_sub(1);
                let status = self.status.pushed_byte();
                self.write_byte(status, self.stack_pointer_to_address(), cycles, memory);
                self.stack_pointer = self.stack_pointer.wrapping_sub(1);
                self.status.interupt_disable = true;
                self.program_counter = self.read_word_absolute(cycles, memory, 0xFFFE);
            },
            Operation::Rti => {
                let status = self.pop_byte_from_stack(cycles, memory);
                self.status = ProcessorFlags::from(status);
                self.stack_pointer = self.stack_pointer.wrapping_add(1);
                let low = self.read_byte(cycles, memory, self.stack_pointer_to_address());
                self.stack_pointer = self.stack_pointer.wrapping_add(1);
                let high = self.read_byte(cycles, memory, self.stack_pointer_to_address());
                proof {
                    lemma_word(low, high);
                }
                self.program_counter = (low as Word) | ((high as Word) << 8);
            },
            _ => unreached(),
        }
    }

    /// Runs a branch.
    fn branch(
        &mut self,
        operation: Operation,
        mode: AddressingMode,
        cycles: &mut i32,
        memory: &mut Memory,
    )
        requires
            is_branch(operation),
            mode == AddressingMode::Relative,
            *old(cycles) >= i32::MIN + 1 + (if branch_taken(operation, old(self).status) {
                if page_crossed(mode, *old(self), old(memory)@) {
                    2int
                } else {
                    1int
                }
            } else {
                0int
            }),
        ensures
            *final(self) == control_effect(operation, mode, *old(self), old(memory)@).0,
            final(memory)@ == control_effect(operation, mode, *old(self), old(memory)@).1,
            *final(cycles) == *old(cycles) - 1 - (if branch_taken(operation, old(self).status) {
                if page_crossed(mode, *old(self), old(memory)@) {
                    2int
                } else {
                    1int
                }
            } else {
                0int
            }),
    {
        match operation {
            Operation::Beq => {
                self.branch_if(cycles, memory, self.status.zero, true);
            },
            Operation::Bne => {
                self.branch_if(cycles, memory, self.status.zero, false);
            },
            Operation::Bcs => {
                self.branch_if(cycles, memory, self.status.carry, true);
            },
            Operation::Bcc => {
                self.branch_if(cycles, memory, self.status.carry, false);
            },
            Operation::Bmi => {
                self.branch_if(cycles, memory, self.status.negative, true);
            },
            Operation::Bpl => {
                self.branch_if(cycles, memory, self.status.negative, false);
            },
            Operation::Bvs => {
                self.branch_if(cycles, memory, self.status.overflow, true);
            },
            Operation::Bvc => {
                self.branch_if(cycles, memory, self.status.overflow, false);
            },
            _ => unreached(),
        }
    }

    /// Runs an instruction that works on registers and flags alone.
    fn register_operation(&mut self, operation: Operation, cycles: &mut i32)
        requires
            access(operation) == Access::Control,
            !is_stack_operation(operation),
            !is_transfer(operation),
            !is_branch(operation),
            *old(cycles) > i32::MIN,
        ensures
            *final(self) == register_effect(operation, *old(self)),
            *final(cycles) == *old(cycles) - 1,
    {
        match operation {
            Operation::Tax => {
                self.x_register = self.a_register;
                *cycles -= 1;
                self.set_z_n_flags(self.x_register);
            },
            Operation::Tay => {
                self.y_register = self.a_register;
                *cycles -= 1;
                self.set_z_n_flags(self.y_register);
            },
            Operation::Txa => {
                self.a_register = self.x_register;
                *cycles -= 1;
                self.set_z_n_flags(self.a_register);
            },
            Operation::Tya => {
                self.a_register = self.y_register;
                *cycles -= 1;
                self.set_z_n_flags(self.a_register);
            },
            Operation::Tsx => {
                self.x_register = self.stack_pointer;
                *cycles -= 1;
                self.set_z_n_flags(self.x_register);
            },
            Operation::Txs => {
                self.stack_pointer = self.x_register;
                *cycles -= 1;
            },
            Operation::Inx => {
                self.x_register = self.x_register.wrapping_add(1);
                *cycles -= 1;
                self.set_z_n_flags(self.x_register);
            },
            Operation::Iny => {
                self.y_register = self.y_register.wrapping_add(1);
                *cycles -= 1;
                self.set_z_n_flags(self.y_register);
            },
            Operation::Dex => {
                self.x_register = self.x_register.wrapping_sub(1);
                *cycles -= 1;
                self.set_z_n_flags(self.x_register);
            },
            Operation::Dey => {
                self.y_register = self.y_register.wrapping_sub(1);
                *cycles -= 1;
                self.set_z_n_flags(self.y_register);
            },
            Operation::Clc => {
                self.status.carry = false;
                *cycles -= 1;
            },
            Operation::Sec => {
                self.status.carry = true;
                *cycles -= 1;
            },
            Operation::Cld => {
                self.status.decimal_mode = false;
                *cycles -= 1;
            },
            Operation::Sed => {
                self.status.decimal_mode = true;
                *cycles -= 1;
            },
            Operation::Cli => {
                self.status.interupt_disable = false;
                *cycles -= 1;
            },
            Operation::Sei => {
                self.status.interupt_disable = true;
                *cycles -= 1;
            },
            Operation::Clv => {
                self.status.overflow = false;
                *cycles -= 1;
            },
            Operation::Nop => {
                *cycles -= 1;
            },
            _ => unreached(),
        }
    }

    /// Runs an instruction that works on registers, the stack or the program
    /// counter.
    fn control(
        &mut self,
        operation: Operation,
        mode: AddressingMode,
        cycles: &mut i32,
        memory: &mut Memory,
    )
        requires
            access(operation) == Access::Control,
            well_formed(operation, mode),
            *old(cycles) >= i32::MIN + (nominal_cycles(operation, mode) - 1) + (if is_branch(
                operation,
            ) && branch_taken(operation, old(self).status) {
                if page_crossed(mode, *old(self), old(memory)@) {
                    2int
                } else {
                    1int
                }
            } else {
                0int
            }),
        ensures
            *final(self) == control_effect(operation, mode, *old(self), old(memory)@).0,
            final(memory)@ == control_effect(operation, mode, *old(self), old(memory)@).1,
            *final(cycles) == *old(cycles) - (nominal_cycles(operation, mode) - 1) - (if is_branch(
                operation,
            ) && branch_taken(operation, old(self).status) {
                if page_crossed(mode, *old(self), old(memory)@) {
                    2int
                } else {
                    1int
                }
            } else {
                0int
            }),
    {
        match operation {
            Operation::Pha | Operation::Php | Operation::Pla | Operation::Plp => {
                self.stack_operation(operation, mode, cycles, memory);
            },
            Operation::Jmp
            | Operation::Jsr
            | Operation::Rts
            | Operation::Brk
            | Operation::Rti => {
                self.transfer(operation, mode, cycles, memory);
            },
            Operation::Beq
            | Operation::Bne
            | Operation::Bcs
            | Operation::Bcc
            | Operation::Bmi
            | Operation::Bpl
            | Operation::Bvs
            | Operation::Bvc => {
                self.branch(operation, mode, cycles, memory);
            },
            _ => {
                self.register_operation(operation, cycles);
            },
        }
    }

    /// Runs `instruction`, whose opcode byte was just fetched.
    pub fn execute_instruction(
        &mut self,
        instruction: Instruction,
        cycles: &mut i32,
        memory: &mut Memory,
    )
        requires
            *old(cycles) >= i32::MIN + (outcome(instruction, *old(self), old(memory)@).cycles
                - 1),
            (instruction.spec_operation() == Operation::Adc || instruction.spec_operation()
                == Operation::Sbc) ==> !old(self).status.decimal_mode,
        ensures
            *final(self) == outcome(instruction, *old(self), old(memory)@).cpu,
            final(memory)@ == outcome(instruction, *old(self), old(memory)@).memory,
            *final(cycles) == *old(cycles) - (outcome(
                instruction,
                *old(self),
                old(memory)@,
            ).cycles - 1),
    {
        let operation = instruction.operation();
        let mode = instruction.mode();
        proof {
            lemma_well_formed(instruction);
            memory.lemma_len();
        }
        match access_of(operation) {
            Access::Read => {
                let address = self.resolve(mode, Access::Read, cycles, memory);
                let value = self.read_byte(cycles, memory, address);
                self.apply_read(operation, value, cycles, memory);
            },
            Access::Write => {
                let address = self.resolve(mode, Access::Write, cycles, memory);
                let value = match operation {
                    Operation::Stx => self.x_register,
                    Operation::Sty => self.y_register,
                    _ => self.a_register,
                };
                self.write_byte(value, address, cycles, memory);
            },
            Access::Modify => {
                self.modify(operation, mode, cycles, memory);
            },
            Access::Control => {
                self.control(operation, mode, cycles, memory);
            },
        }
    }

    /// Runs instructions until `cycles` are spent or a byte that encodes no
    /// instruction is fetched. Instructions are indivisible: the last one may
    /// run past the budget, and the cycles actually spent are returned. The
    /// error carries the byte that could not be decoded; its fetch was
    /// charged and the program counter is past it.
    ///
    /// The program must not add or subtract in decimal mode within the
    /// budget; `try_execute` is for a caller that cannot promise this.
    pub fn execute(&mut self, cycles: i32, memory: &mut Memory) -> (spent: Result<
        i32,
        InstructionsError,
    >)
        requires
            cycles <= i32::MAX - 6,
            !(run(*old(self), old(memory)@, cycles as int).stop is Decimal),
        ensures
            ({
                let end = run(*old(self), old(memory)@, cycles as int);
                &&& *final(self) == end.cpu
                &&& final(memory)@ == end.memory
                &&& match end.stop {
                    Stop::Fault(byte) => spent == Err::<i32, InstructionsError>(
                        InstructionsError::InstructionDoesntExist(byte),
                    ),
                    _ => spent matches Ok(n) && n == cycles - end.remaining,
                }
            }),
            spent matches Ok(n) ==> if cycles > 0 {
                cycles <= n <= cycles + 6
            } else {
                n == 0
            },
    {
        match self.try_execute(cycles, memory) {
            Some(spent) => spent,
            None => unreached(),
        }
    }

    /// Runs as `execute` does, but stops in front of an addition or
    /// subtraction that would run with the decimal flag set and then
    /// returns `None`, with processor and memory as the instructions before
    /// it left them.
    pub fn try_execute(&mut self, cycles: i32, memory: &mut Memory) -> (spent: Option<
        Result<i32, InstructionsError>,
    >)
        requires
            cycles <= i32::MAX - 6,
        ensures
            ({
                let end = run(*old(self), old(memory)@, cycles as int);
                &&& *final(self) == end.cpu
                &&& final(memory)@ == end.memory
                &&& match end.stop {
                    Stop::Decimal => spent is None,
                    Stop::Fault(byte) => spent == Some(
                        Err::<i32, InstructionsError>(
                            InstructionsError::InstructionDoesntExist(byte),
                        ),
                    ),
                    Stop::Budget => spent matches Some(Ok(n)) && n == cycles - end.remaining,
                }
            }),
            spent matches Some(Ok(n)) ==> if cycles > 0 {
                cycles <= n <= cycles + 6
            } else {
                n == 0
            },
    {
        let mut remaining = cycles;
        while remaining > 0
            invariant
                remaining <= cycles <= i32::MAX - 6,
                cycles > 0 ==> -7 < remaining,
                cycles <= 0 ==> remaining == cycles,
                run(*self, memory@, remaining as int) == run(
                    *old(self),
                    old(memory)@,
                    cycles as int,
                ),
            decreases remaining + 7,
        {
            let ghost before = *self;
            match Instruction::try_from(memory.read_byte(self.program_counter)) {
                Ok(instruction) => {
                    if self.status.decimal_mode {
                        match instruction.operation() {
                            Operation::Adc | Operation::Sbc => {
                                return None;
                            },
                            _ => {},
                        }
                    }
                    let _ = self.fetch_byte(&mut remaining, memory);
                    proof {
                        lemma_cycle_bounds(instruction, *self, memory@);
                        assert(step(before, memory@) == Step::Done(
                            outcome(instruction, *self, memory@),
                        ));
                    }
                    self.execute_instruction(instruction, &mut remaining, memory);
                },
                Err(error) => {
                    let byte = self.fetch_byte(&mut remaining, memory);
                    proof {
                        assert(step(before, memory@) == (Step::Fault { cpu: *self, byte }));
                    }
                    return Some(Err(error));
                },
            }
        }
        Some(Ok(cycles - remaining))
    }

    /// Whether two addresses lie in the same 256-byte page.
    pub fn check_same_page(address_a: Word, address_b: Word) -> (same: bool)
        ensures
            same == same_page(address_a, address_b),
    {
        proof {
            lemma_halves(address_a);
            lemma_halves(address_b);
        }
        address_a >> 8 == address_b >> 8
    }

    /// Reads the byte at the program counter and steps past it; one cycle.
    pub fn fetch_byte(&mut self, cycles: &mut i32, memory: &mut Memory) -> (data: Byte)
        requires
            *old(cycles) > i32::MIN,
        ensures
            data == old(memory)@[old(self).program_counter as int],
            *final(memory) == *old(memory),
            *final(self) == (CPU {
                program_counter: old(self).program_counter.wrapping_add(1),
                ..*old(self)
            }),
            *final(cycles) == *old(cycles) - 1,
    {
        let data: Byte = memory.read_byte(self.program_counter);
        self.program_counter = self.program_counter.wrapping_add(1);
        *cycles -= 1;
        data
    }

    /// Reads the little-endian word at the program counter and steps past
    /// it; two cycles.
    pub fn fetch_word(&mut self, cycles: &mut i32, memory: &mut Memory) -> (data: Word)
        requires
            *old(cycles) > i32::MIN + 1,
        ensures
            data == word_at(old(memory)@, old(self).program_counter),
            *final(memory) == *old(memory),
            *final(self) == (CPU {
                program_counter: old(self).program_counter.wrapping_add(2),
                ..*old(self)
            }),
            *final(cycles) == *old(cycles) - 2,
    {
        // 6502 is little endian
        let low = memory.read_byte(self.program_counter);
        self.program_counter = self.program_counter.wrapping_add(1);
        *cycles -= 1;

        let high = memory.read_byte(self.program_counter);
        self.program_counter = self.program_counter.wrapping_add(1);
        *cycles -= 1;

        proof {
            lemma_word(low, high);
        }
        let data: Word = (low as Word) | ((high as Word) << 8);
        data
    }

    /// Reads the byte at `address`; one cycle.
    pub fn read_byte(&self, cycles: &mut i32, memory: &mut Memory, address: Word) -> (data: Byte)
        requires
            *old(cycles) > i32::MIN,
        ensures
            data == old(memory)@[address as int],
            *final(memory) == *old(memory),
            *final(cycles) == *old(cycles) - 1,
    {
        let data: Byte = memory.read_byte(address);
        *cycles -= 1;
        data
    }

    /// Reads the little-endian word at the page-zero `address`; the high
    /// byte comes from the next page-zero address, 0x00 after 0xFF. Two
    /// cycles.
    pub fn read_word_from_zero_page(
        &self,
        cycles: &mut i32,
        memory: &mut Memory,
        address: Byte,
    ) -> (data: Word)
        requires
            *old(cycles) > i32::MIN + 1,
        ensures
            data == zero_page_word_at(old(memory)@, address),
            *final(memory) == *old(memory),
            *final(cycles) == *old(cycles) - 2,
    {
        let low = memory.read_byte(address as Word);
        *cycles -= 1;

        let high = memory.read_byte(address.wrapping_add(1) as Word);
        *cycles -= 1;

        proof {
            lemma_word(low, high);
        }
        let data: Word = (low as Word) | ((high as Word) << 8);
        data
    }

    /// Reads the little-endian word at `address`; two cycles.
    pub fn read_word_absolute(&self, cycles: &mut i32, memory: &mut Memory, address: Word) -> (data:
        Word)
        requires
            *old(cycles) > i32::MIN + 1,
        ensures
            data == word_at(old(memory)@, address),
            *final(memory) == *old(memory),
            *final(cycles) == *old(cycles) - 2,
    {
        let low = memory.read_byte(address);
        *cycles -= 1;

        let high = memory.read_byte(address.wrapping_add(1));
        *cycles -= 1;

        proof {
            lemma_word(low, high);
        }
        let data: Word = (low as Word) | ((high as Word) << 8);
        data
    }

    /// Writes `data` at `address`, low byte first; two cycles.
    pub fn write_word(&mut self, data: Word, address: Word, cycles: &mut i32, memory: &mut Memory)
        requires
            *old(cycles) > i32::MIN + 1,
        ensures
            final(memory)@ == old(memory)@.update(address as int, low_byte(data)).update(
                address.wrapping_add(1) as int,
                high_byte(data),
            ),
            *final(self) == *old(self),
            *final(cycles) == *old(cycles) - 2,
    {
        proof {
            lemma_halves(data);
        }
        memory.write_byte(address, (data & 0xFF) as Byte);
        *cycles -= 1;
        memory.write_byte(address.wrapping_add(1), (data >> 8) as Byte);
        *cycles -= 1;
    }

    /// Writes `data` at `address`; one cycle.
    pub fn write_byte(&mut self, data: Byte, address: Word, cycles: &mut i32, memory: &mut Memory)
        requires
            *old(cycles) > i32::MIN,
        ensures
            final(memory)@ == old(memory)@.update(address as int, data),
            *final(self) == *old(self),
            *final(cycles) == *old(cycles) - 1,
    {
        memory.write_byte(address, data);
        *cycles -= 1;
    }

    /// The address of the stack slot that the stack pointer names.
    pub fn stack_pointer_to_address(&self) -> (address: Word)
        ensures
            address == stack_address(self.stack_pointer),
    {
        proof {
            lemma_stack(self.stack_pointer);
        }
        0x100 | self.stack_pointer as Word
    }

    /// Pushes the address before the program counter, high byte first;
    /// three cycles.
    pub fn push_program_counter_to_stack(&mut self, cycles: &mut i32, memory: &mut Memory)
        requires
            *old(cycles) > i32::MIN + 2,
        ensures
            final(memory)@ == pushed_word_memory(
                old(memory)@,
                old(self).stack_pointer,
                old(self).program_counter.wrapping_sub(1),
            ),
            *final(self) == (CPU {
                stack_pointer: old(self).stack_pointer.wrapping_sub(2),
                ..*old(self)
            }),
            *final(cycles) == *old(cycles) - 3,
    {
        let return_address = self.program_counter.wrapping_sub(1);
        proof {
            lemma_halves(return_address);
        }
        memory.write_byte(self.stack_pointer_to_address(), (return_address >> 8) as Byte);
        *cycles -= 1;
        self.stack_pointer = self.stack_pointer.wrapping_sub(1);
        memory.write_byte(self.stack_pointer_to_address(), (return_address & 0xFF) as Byte);
        *cycles -= 1;
        self.stack_pointer = self.stack_pointer.wrapping_sub(1);
        *cycles -= 1;
    }

    /// Pulls a word, low byte first; three cycles.
    pub fn pop_word_from_stack(&mut self, cycles: &mut i32, memory: &mut Memory) -> (data: Word)
        requires
            *old(cycles) > i32::MIN + 2,
        ensures
            data == pulled_word(old(memory)@, old(self).stack_pointer),
            *final(memory) == *old(memory),
            *final(self) == (CPU {
                stack_pointer: old(self).stack_pointer.wrapping_add(2),
                ..*old(self)
            }),
            *final(cycles) == *old(cycles) - 3,
    {
        self.stack_pointer = self.stack_pointer.wrapping_add(1);
        let low = memory.read_byte(self.stack_pointer_to_address());
        *cycles -= 1;
        self.stack_pointer = self.stack_pointer.wrapping_add(1);
        let high = memory.read_byte(self.stack_pointer_to_address());
        *cycles -= 1;
        proof {
            lemma_word(low, high);
        }
        let return_address: Word = (low as Word) | ((high as Word) << 8);
        *cycles -= 1;
        return_address
    }

    /// Pushes `data`: writes it where the stack pointer names, then moves
    /// the stack pointer down; two cycles.
    pub fn push_byte_to_stack(&mut self, data: Byte, cycles: &mut i32, memory: &mut Memory)
        requires
            *old(cycles) > i32::MIN + 1,
        ensures
            final(memory)@ == pushed_memory(old(memory)@, old(self).stack_pointer, data),
            *final(self) == (CPU {
                stack_pointer: old(self).stack_pointer.wrapping_sub(1),
                ..*old(self)
            }),
            *final(cycles) == *old(cycles) - 2,
    {
        memory.write_byte(self.stack_pointer_to_address(), data);
        *cycles -= 1;
        self.stack_pointer = self.stack_pointer.wrapping_sub(1);
        *cycles -= 1;
    }

    /// Pulls a byte: moves the stack pointer up, then reads where it names;
    /// three cycles.
    pub fn pop_byte_from_stack(&mut self, cycles: &mut i32, memory: &mut Memory) -> (data: Byte)
        requires
            *old(cycles) > i32::MIN + 2,
        ensures
            data == pulled(old(memory)@, old(self).stack_pointer),
            *final(memory) == *old(memory),
            *final(self) == (CPU {
                stack_pointer: old(self).stack_pointer.wrapping_add(1),
                ..*old(self)
            }),
            *final(cycles) == *old(cycles) - 3,
    {
        self.stack_pointer = self.stack_pointer.wrapping_add(1);
        let data = memory.read_byte(self.stack_pointer_to_address());
        *cycles -= 3;
        data
    }

    /// Loads a program image: its first two bytes are the little-endian load
    /// address, the other `num_bytes - 2` bytes are copied there. Returns the
    /// load address. An image of exactly two bytes names its load address and
    /// loads nothing; one too short to hold the address gives 0.
    pub fn load_program(&self, program: &[Byte], num_bytes: u16, memory: &mut Memory) -> (address:
        Word)
        requires
            num_bytes >= 2 ==> num_bytes <= program@.len(),
        ensures
            num_bytes < 2 ==> address == 0 && final(memory)@ == old(memory)@,
            num_bytes >= 2 ==> address == word(program@[0], program@[1]) && final(memory)@
                == stored(old(memory)@, address, program@.subrange(0, num_bytes as int), 2),
    {
        let mut load_address: Word = 0;
        if num_bytes >= 2 {
            let low = program[0];
            let high = program[1];
            proof {
                lemma_word(low, high);
            }
            load_address = (low as Word) | ((high as Word) << 8);
            let image = vstd::slice::slice_subrange(program, 0, num_bytes as usize);
            memory.load(load_address, image, 2);
        }
        load_address
    }
}

} // verus!
