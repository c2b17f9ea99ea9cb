//! Laws of the instruction set, proved from the definitions in `semantics`.
//!
//! As there, a `cpu` handed to `outcome` is the processor right after the
//! opcode fetch, and a `cpu` handed to `step` is the processor before it.

use vstd::prelude::*;
use crate::cpu::{ProcessorFlags, CPU};
use crate::instructions::{decode, lemma_decode_opcode, AddressingMode, Instruction, Operation};
use crate::memory::word_at;
use crate::semantics::{
    access, branch_taken, cycles_of, effective_address, instruction_length, is_branch,
    is_transfer, lemma_cycle_bounds, lemma_well_formed, nominal_cycles, opcode_at, operand_value,
    outcome, page_crossed, read_effect, run, same_page, stack_address, step, traps, Access, Run,
    Step, Stop,
};

verus! {

/// A machine whose registers and flags are zero and whose memory is zero but
/// for the opcode of `instruction` at the program counter.
pub open spec fn zero_machine(instruction: Instruction, cpu: CPU, memory: Seq<u8>) -> bool {
    &&& memory.len() == 65536
    &&& forall|a: int|
        0 <= a < 65536 ==> #[trigger] memory[a] == if a == cpu.program_counter {
            instruction.spec_opcode()
        } else {
            0u8
        }
    &&& cpu.a_register == 0
    &&& cpu.x_register == 0
    &&& cpu.y_register == 0
    &&& cpu.status == ProcessorFlags::unpacked(0)
}

/// Packing flags into a byte and unpacking the byte gives the flags back.
pub proof fn lemma_flags_round_trip(flags: ProcessorFlags)
    ensures
        0 <= flags.packed() < 256,
        ProcessorFlags::unpacked(flags.packed() as u8) == flags,
{
}

/// The byte that a push writes unpacks to the flags with the break flag set.
pub proof fn lemma_pushed_flags(flags: ProcessorFlags)
    ensures
        0 <= flags.pushed() < 256,
        ProcessorFlags::unpacked(flags.pushed() as u8) == (ProcessorFlags {
            break_command: true,
            ..flags
        }),
{
}

/// On a zero machine every instruction takes its documented number of
/// cycles, plus one if it is a branch whose condition holds; and unless it
/// is a jump, a call, a return or a break, the program counter advances by
/// the length of the instruction.
pub proof fn lemma_zero_machine_cost(instruction: Instruction, cpu: CPU, memory: Seq<u8>)
    requires
        zero_machine(instruction, cpu, memory),
    ensures
        step(cpu, memory) matches Step::Done(o) && {
            &&& o.cycles == nominal_cycles(instruction.spec_operation(), instruction.spec_mode())
                + if is_branch(instruction.spec_operation()) && branch_taken(
                instruction.spec_operation(),
                cpu.status,
            ) {
                1nat
            } else {
                0nat
            }
            &&& !is_transfer(instruction.spec_operation()) ==> o.cpu.program_counter == (
            cpu.program_counter + instruction_length(instruction)) % 65536
        },
{
    lemma_decode_opcode(instruction);
    lemma_well_formed(instruction);
    let pc = cpu.program_counter;
    let fetched = CPU { program_counter: pc.wrapping_add(1), ..cpu };
    let operand = fetched.program_counter;
    let second = operand.wrapping_add(1);
    assert(memory[operand as int] == 0);
    assert(memory[second as int] == 0);
    assert(memory[pc as int] == instruction.spec_opcode());
    assert(word_at(memory, operand) == 0);
}

/// After a load the zero flag tells whether the loaded register is zero and
/// the negative flag whether its bit 7 is set; the register holds the
/// operand.
pub proof fn lemma_load_flags(instruction: Instruction, cpu: CPU, memory: Seq<u8>)
    requires
        instruction.spec_operation() == Operation::Lda || instruction.spec_operation()
            == Operation::Ldx || instruction.spec_operation() == Operation::Ldy,
    ensures
        ({
            let after = outcome(instruction, cpu, memory).cpu;
            let loaded = match instruction.spec_operation() {
                Operation::Lda => after.a_register,
                Operation::Ldx => after.x_register,
                _ => after.y_register,
            };
            &&& loaded == operand_value(instruction.spec_mode(), cpu, memory)
            &&& after.status.zero <==> loaded == 0
            &&& after.status.negative <==> loaded >= 128
        }),
{
}

/// A read through an address indexed by X or Y costs what the same read
/// through a plain absolute address costs when base and indexed address lie
/// in one page, and one cycle more when they do not.
pub proof fn lemma_indexed_read_cost(
    indexed: Instruction,
    plain: Instruction,
    cpu: CPU,
    memory: Seq<u8>,
    other_cpu: CPU,
    other_memory: Seq<u8>,
)
    requires
        access(indexed.spec_operation()) == Access::Read,
        access(plain.spec_operation()) == Access::Read,
        indexed.spec_mode() == AddressingMode::AbsoluteX || indexed.spec_mode()
            == AddressingMode::AbsoluteY,
        plain.spec_mode() == AddressingMode::Absolute,
    ensures
        ({
            let base = word_at(memory, cpu.program_counter);
            let index = if indexed.spec_mode() == AddressingMode::AbsoluteX {
                cpu.x_register
            } else {
                cpu.y_register
            };
            let target = ((base + index) % 65536) as u16;
            &&& effective_address(indexed.spec_mode(), cpu, memory) == target
            &&& cycles_of(indexed, cpu, memory) == cycles_of(plain, other_cpu, other_memory)
                + if same_page(base, target) {
                0nat
            } else {
                1nat
            }
        }),
{
}

/// A push of the accumulator followed by a pull restores the accumulator
/// and the stack pointer, whatever the accumulator held in between.
pub proof fn lemma_pha_pla(cpu: CPU, memory: Seq<u8>, between: u8)
    requires
        memory.len() == 65536,
    ensures
        ({
            let pushed = outcome(Instruction::InsPha, cpu, memory);
            let pulled = outcome(
                Instruction::InsPla,
                CPU { a_register: between, ..pushed.cpu },
                pushed.memory,
            );
            &&& pulled.cpu.a_register == cpu.a_register
            &&& pulled.cpu.stack_pointer == cpu.stack_pointer
            &&& pulled.memory == pushed.memory
        }),
{
}

/// A push of the status followed by a pull restores the stack pointer and
/// every flag but the break flag, which comes back set; whatever the flags
/// were in between.
pub proof fn lemma_php_plp(cpu: CPU, memory: Seq<u8>, between: ProcessorFlags)
    requires
        memory.len() == 65536,
    ensures
        ({
            let pushed = outcome(Instruction::InsPhp, cpu, memory);
            let pulled = outcome(
                Instruction::InsPlp,
                CPU { status: between, ..pushed.cpu },
                pushed.memory,
            );
            &&& pushed.cpu.status == cpu.status
            &&& pulled.cpu.status == (ProcessorFlags { break_command: true, ..cpu.status })
            &&& pulled.cpu.stack_pointer == cpu.stack_pointer
        }),
{
    lemma_pushed_flags(cpu.status);
}

/// A return that finds the stack pointer and the two stack slots as a call
/// left them continues right after the call instruction and restores the
/// stack pointer that the call found.
pub proof fn lemma_jsr_rts(cpu: CPU, memory: Seq<u8>, later: CPU, later_memory: Seq<u8>)
    requires
        memory.len() == 65536,
        later_memory.len() == 65536,
        later.stack_pointer == outcome(Instruction::InsJsr, cpu, memory).cpu.stack_pointer,
        later_memory[stack_address(cpu.stack_pointer) as int] == outcome(
            Instruction::InsJsr,
            cpu,
            memory,
        ).memory[stack_address(cpu.stack_pointer) as int],
        later_memory[stack_address(cpu.stack_pointer.wrapping_sub(1)) as int] == outcome(
            Instruction::InsJsr,
            cpu,
            memory,
        ).memory[stack_address(cpu.stack_pointer.wrapping_sub(1)) as int],
    ensures
        ({
            let called = outcome(Instruction::InsJsr, cpu, memory).cpu;
            let returned = outcome(Instruction::InsRts, later, later_memory).cpu;
            &&& called.program_counter == word_at(memory, cpu.program_counter)
            &&& returned.program_counter == cpu.program_counter.wrapping_add(2)
            &&& returned.stack_pointer == cpu.stack_pointer
        }),
{
}

/// An addition followed by the subtraction of the same operand, with the
/// carry before the subtraction set to the opposite of the carry before the
/// addition, restores the accumulator; and the subtraction borrows exactly
/// when the addition carried.
pub proof fn lemma_adc_sbc(cpu: CPU, operand: u8)
    ensures
        ({
            let sum = read_effect(Operation::Adc, cpu, operand);
            let between = CPU {
                status: ProcessorFlags { carry: !cpu.status.carry, ..sum.status },
                ..sum
            };
            let back = read_effect(Operation::Sbc, between, operand);
            &&& sum.status.carry == (cpu.a_register + operand + if cpu.status.carry {
                1int
            } else {
                0int
            } > 255)
            &&& back.a_register == cpu.a_register
            &&& back.status.carry == !sum.status.carry
        }),
{
}

/// An addition followed at once by the subtraction of the same operand
/// restores the accumulator exactly when the addition's carry out differs
/// from its carry in; the carry is then restored as well.
pub proof fn lemma_adc_sbc_carry_kept(cpu: CPU, operand: u8)
    ensures
        ({
            let sum = read_effect(Operation::Adc, cpu, operand);
            let back = read_effect(Operation::Sbc, sum, operand);
            &&& back.a_register == cpu.a_register <==> sum.status.carry != cpu.status.carry
            &&& sum.status.carry != cpu.status.carry ==> back.status.carry == cpu.status.carry
        }),
{
}

/// A branch costs two cycles when it is not taken, three when it is taken
/// within the page of the next instruction and four when it is taken into
/// another page.
pub proof fn lemma_branch_cost(instruction: Instruction, cpu: CPU, memory: Seq<u8>)
    requires
        is_branch(instruction.spec_operation()),
    ensures
        cycles_of(instruction, cpu, memory) == if !branch_taken(
            instruction.spec_operation(),
            cpu.status,
        ) {
            2nat
        } else if !page_crossed(AddressingMode::Relative, cpu, memory) {
            3nat
        } else {
            4nat
        },
        outcome(instruction, cpu, memory).cycles == cycles_of(instruction, cpu, memory),
{
    lemma_well_formed(instruction);
}

/// A run that ends because its budget is spent has spent at least the
/// budget and at most six cycles more.
pub proof fn lemma_run_spends_budget(cpu: CPU, memory: Seq<u8>, budget: int)
    requires
        budget > 0,
    ensures
        run(cpu, memory, budget).stop is Budget ==> -6 <= run(cpu, memory, budget).remaining <= 0,
    decreases budget,
{
    if !traps(cpu, memory) {
        match step(cpu, memory) {
            Step::Done(o) => {
                let fetched = CPU { program_counter: cpu.program_counter.wrapping_add(1), ..cpu };
                let instruction = decode(opcode_at(cpu, memory))->Ok_0;
                lemma_cycle_bounds(instruction, fetched, memory);
                if budget - o.cycles > 0 {
                    lemma_run_spends_budget(o.cpu, o.memory, budget - o.cycles);
                }
            },
            Step::Fault { .. } => {},
        }
    }
}

/// A budget of one or two cycles runs exactly one instruction. So where the
/// next instruction is no decimal addition or subtraction, such a run meets
/// none, and ends where that one instruction leaves the machine.
pub proof fn lemma_single_instruction_run(cpu: CPU, memory: Seq<u8>, budget: int)
    requires
        0 < budget <= 2,
        !traps(cpu, memory),
    ensures
        match step(cpu, memory) {
            Step::Done(o) => run(cpu, memory, budget) == (Run {
                cpu: o.cpu,
                memory: o.memory,
                remaining: budget - o.cycles,
                stop: Stop::Budget,
            }),
            Step::Fault { cpu: fetched, byte } => run(cpu, memory, budget) == (Run {
                cpu: fetched,
                memory,
                remaining: budget - 1,
                stop: Stop::Fault(byte),
            }),
        },
{
    reveal_with_fuel(run, 2);
    match step(cpu, memory) {
        Step::Done(o) => {
            let fetched = CPU { program_counter: cpu.program_counter.wrapping_add(1), ..cpu };
            let instruction = decode(opcode_at(cpu, memory))->Ok_0;
            lemma_cycle_bounds(instruction, fetched, memory);
        },
        Step::Fault { .. } => {},
    }
}

} // verus!
