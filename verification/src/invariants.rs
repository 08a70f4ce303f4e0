//! What every step of the processor keeps: a property of the memory that no
//! single access breaks is not broken by a tick, by a run of ticks or by a
//! frame. For the console this is the size of each of its memories.

use vstd::prelude::*;
use crate::addressable::{spec_read16_le, Address, Addressable};
use crate::cpu::Cpu;
use crate::instruction::{AddressingMode, Instruction, MemoryAddressingMode};

verus! {

/// Whether no access to the memory breaks `inv`.
pub open spec fn spec_kept<M: Addressable>(inv: spec_fn(M::V) -> bool) -> bool {
    &&& forall|s: M::V, address: Address|
        inv(s) ==> inv((#[trigger] M::spec_read8(s, address)).1)
    &&& forall|s: M::V, address: Address, data: u8|
        inv(s) ==> inv((#[trigger] M::spec_write8(s, address, data)).1)
}

proof fn lemma_read16_keeps<M: Addressable>(
    inv: spec_fn(M::V) -> bool,
    memory: M::V,
    address: Address,
)
    requires
        spec_kept::<M>(inv),
        inv(memory),
    ensures
        inv(spec_read16_le::<M>(memory, address).1),
{
}

proof fn lemma_fetch_keeps<M: Addressable>(inv: spec_fn(M::V) -> bool, cpu: Cpu, memory: M::V)
    requires
        spec_kept::<M>(inv),
        inv(memory),
    ensures
        inv(cpu.spec_fetch8::<M>(memory).memory),
        inv(cpu.spec_fetch16_le::<M>(memory).memory),
{
    lemma_read16_keeps::<M>(inv, memory, cpu.registers.program_counter);
}

proof fn lemma_stack_keeps<M: Addressable>(
    inv: spec_fn(M::V) -> bool,
    cpu: Cpu,
    memory: M::V,
    byte: u8,
    word: u16,
)
    requires
        spec_kept::<M>(inv),
        inv(memory),
    ensures
        inv(cpu.spec_push8::<M>(memory, byte).memory),
        inv(cpu.spec_pull8::<M>(memory).memory),
        inv(cpu.spec_push16_le::<M>(memory, word).memory),
        inv(cpu.spec_pull16_le::<M>(memory).memory),
{
}

proof fn lemma_interrupt_keeps<M: Addressable>(
    inv: spec_fn(M::V) -> bool,
    cpu: Cpu,
    memory: M::V,
)
    requires
        spec_kept::<M>(inv),
        inv(memory),
    ensures
        inv(cpu.spec_interrupt_common::<M>(memory).memory),
        inv(cpu.spec_nmi::<M>(memory).memory),
{
    lemma_stack_keeps::<M>(inv, cpu, memory, 0, cpu.registers.program_counter);
    let pushed = cpu.spec_push16_le::<M>(memory, cpu.registers.program_counter);
    lemma_stack_keeps::<M>(inv, pushed.cpu, pushed.memory, cpu.registers.status.spec_to_byte(), 0);
    let entered = Cpu {
        interrupts: crate::cpu::InterruptState { nmi: false },
        ..cpu
    };
    lemma_stack_keeps::<M>(inv, entered, memory, 0, entered.registers.program_counter);
    let pushed = entered.spec_push16_le::<M>(memory, entered.registers.program_counter);
    lemma_stack_keeps::<M>(
        inv,
        pushed.cpu,
        pushed.memory,
        entered.registers.status.spec_to_byte(),
        0,
    );
    let common = entered.spec_interrupt_common::<M>(memory);
    lemma_read16_keeps::<M>(inv, common.memory, crate::cpu::NMI_VECTOR);
}

proof fn lemma_address_keeps<M: Addressable>(
    inv: spec_fn(M::V) -> bool,
    cpu: Cpu,
    memory: M::V,
    mode: MemoryAddressingMode,
)
    requires
        spec_kept::<M>(inv),
        inv(memory),
    ensures
        inv(cpu.spec_addressing_mode_address::<M>(memory, mode).memory),
{
    lemma_fetch_keeps::<M>(inv, cpu, memory);
    let fetched = cpu.spec_fetch8::<M>(memory);
    if fetched.value is Ok {
        let with_x = Cpu::spec_zero_page(fetched, cpu.registers.x_index);
        lemma_read16_keeps::<M>(inv, with_x.memory, with_x.value->Ok_0);
        let plain = Cpu::spec_zero_page(fetched, 0);
        lemma_read16_keeps::<M>(inv, plain.memory, plain.value->Ok_0);
    }
}

proof fn lemma_operand_keeps<M: Addressable>(
    inv: spec_fn(M::V) -> bool,
    cpu: Cpu,
    memory: M::V,
    instruction: Instruction,
    mode: MemoryAddressingMode,
    data: u8,
)
    requires
        spec_kept::<M>(inv),
        inv(memory),
    ensures
        inv(cpu.spec_addressing_mode_load::<M>(memory, mode).memory),
        inv(cpu.spec_addressing_mode_store::<M>(memory, mode, data).memory),
        inv(cpu.spec_operand_instruction::<M>(memory, instruction, mode).memory),
        inv(cpu.spec_modify_instruction::<M>(memory, instruction, mode).memory),
{
    lemma_fetch_keeps::<M>(inv, cpu, memory);
    lemma_address_keeps::<M>(inv, cpu, memory, mode);
}

proof fn lemma_shift_keeps<M: Addressable>(
    inv: spec_fn(M::V) -> bool,
    cpu: Cpu,
    memory: M::V,
    instruction: Instruction,
    mode: AddressingMode,
)
    requires
        spec_kept::<M>(inv),
        inv(memory),
    ensures
        inv(cpu.spec_shift_instruction::<M>(memory, instruction, mode).memory),
{
    match mode {
        AddressingMode::Accumulator => {},
        AddressingMode::Memory(memory_mode) => {
            lemma_operand_keeps::<M>(inv, cpu, memory, instruction, memory_mode, 0);
        },
    }
}

proof fn lemma_control_keeps<M: Addressable>(
    inv: spec_fn(M::V) -> bool,
    cpu: Cpu,
    memory: M::V,
    instruction: Instruction,
)
    requires
        spec_kept::<M>(inv),
        inv(memory),
    ensures
        inv(cpu.spec_branch_instruction::<M>(memory, instruction).memory),
        inv(cpu.spec_pull_instruction::<M>(memory, instruction).memory),
        inv(cpu.spec_jsr::<M>(memory).memory),
        inv(cpu.spec_rts::<M>(memory).memory),
        inv(cpu.spec_rti::<M>(memory).memory),
        inv(cpu.spec_jmp::<M>(memory).memory),
        inv(cpu.spec_jmpi::<M>(memory).memory),
{
    lemma_fetch_keeps::<M>(inv, cpu, memory);
    lemma_stack_keeps::<M>(inv, cpu, memory, 0, 0);
    let fetched = cpu.spec_fetch16_le::<M>(memory);
    lemma_stack_keeps::<M>(
        inv,
        fetched.cpu,
        fetched.memory,
        0,
        crate::cpu::wrap16(fetched.cpu.registers.program_counter - 1),
    );
    let restored = cpu.spec_pull_instruction::<M>(memory, Instruction::PLP);
    lemma_stack_keeps::<M>(inv, restored.cpu, restored.memory, 0, 0);
    let low = cpu.spec_fetch8::<M>(memory);
    lemma_fetch_keeps::<M>(inv, low.cpu, low.memory);
}

/// An instruction does not break what no access breaks.
pub proof fn lemma_instruction_keeps<M: Addressable>(
    inv: spec_fn(M::V) -> bool,
    cpu: Cpu,
    memory: M::V,
    instruction: Instruction,
)
    requires
        spec_kept::<M>(inv),
        inv(memory),
    ensures
        inv(cpu.spec_emulate_instruction::<M>(memory, instruction).memory),
{
    match instruction {
        Instruction::LDA(mode) => {
            lemma_operand_keeps::<M>(inv, cpu, memory, instruction, mode, 0);
        },
        Instruction::LDX(mode) => {
            lemma_operand_keeps::<M>(inv, cpu, memory, instruction, mode, 0);
        },
        Instruction::LDY(mode) => {
            lemma_operand_keeps::<M>(inv, cpu, memory, instruction, mode, 0);
        },
        Instruction::AND(mode) => {
            lemma_operand_keeps::<M>(inv, cpu, memory, instruction, mode, 0);
        },
        Instruction::ORA(mode) => {
            lemma_operand_keeps::<M>(inv, cpu, memory, instruction, mode, 0);
        },
        Instruction::EOR(mode) => {
            lemma_operand_keeps::<M>(inv, cpu, memory, instruction, mode, 0);
        },
        Instruction::CMP(mode) => {
            lemma_operand_keeps::<M>(inv, cpu, memory, instruction, mode, 0);
        },
        Instruction::CPX(mode) => {
            lemma_operand_keeps::<M>(inv, cpu, memory, instruction, mode, 0);
        },
        Instruction::CPY(mode) => {
            lemma_operand_keeps::<M>(inv, cpu, memory, instruction, mode, 0);
        },
        Instruction::BIT(mode) => {
            lemma_operand_keeps::<M>(inv, cpu, memory, instruction, mode, 0);
        },
        Instruction::ADC(mode) => {
            lemma_operand_keeps::<M>(inv, cpu, memory, instruction, mode, 0);
        },
        Instruction::SBC(mode) => {
            lemma_operand_keeps::<M>(inv, cpu, memory, instruction, mode, 0);
        },
        Instruction::DEC(mode) => {
            lemma_operand_keeps::<M>(inv, cpu, memory, instruction, mode, 0);
        },
        Instruction::INC(mode) => {
            lemma_operand_keeps::<M>(inv, cpu, memory, instruction, mode, 0);
        },
        Instruction::STA(mode) => {
            lemma_operand_keeps::<M>(inv, cpu, memory, instruction, mode, cpu.registers.accumulator);
        },
        Instruction::STX(mode) => {
            lemma_operand_keeps::<M>(inv, cpu, memory, instruction, mode, cpu.registers.x_index);
        },
        Instruction::STY(mode) => {
            lemma_operand_keeps::<M>(inv, cpu, memory, instruction, mode, cpu.registers.y_index);
        },
        Instruction::ASL(mode) => {
            lemma_shift_keeps::<M>(inv, cpu, memory, instruction, mode);
        },
        Instruction::LSR(mode) => {
            lemma_shift_keeps::<M>(inv, cpu, memory, instruction, mode);
        },
        Instruction::ROL(mode) => {
            lemma_shift_keeps::<M>(inv, cpu, memory, instruction, mode);
        },
        Instruction::ROR(mode) => {
            lemma_shift_keeps::<M>(inv, cpu, memory, instruction, mode);
        },
        Instruction::PHA => {
            lemma_stack_keeps::<M>(inv, cpu, memory, cpu.registers.accumulator, 0);
        },
        Instruction::PHP => {
            lemma_stack_keeps::<M>(inv, cpu, memory, cpu.registers.status.spec_to_byte(), 0);
        },
        Instruction::BPL => {
            lemma_control_keeps::<M>(inv, cpu, memory, instruction);
        },
        Instruction::BMI => {
            lemma_control_keeps::<M>(inv, cpu, memory, instruction);
        },
        Instruction::BVC => {
            lemma_control_keeps::<M>(inv, cpu, memory, instruction);
        },
        Instruction::BVS => {
            lemma_control_keeps::<M>(inv, cpu, memory, instruction);
        },
        Instruction::BCC => {
            lemma_control_keeps::<M>(inv, cpu, memory, instruction);
        },
        Instruction::BCS => {
            lemma_control_keeps::<M>(inv, cpu, memory, instruction);
        },
        Instruction::BNE => {
            lemma_control_keeps::<M>(inv, cpu, memory, instruction);
        },
        Instruction::BEQ => {
            lemma_control_keeps::<M>(inv, cpu, memory, instruction);
        },
        Instruction::PLA => {
            lemma_control_keeps::<M>(inv, cpu, memory, instruction);
        },
        Instruction::PLP => {
            lemma_control_keeps::<M>(inv, cpu, memory, instruction);
        },
        Instruction::JSR => {
            lemma_control_keeps::<M>(inv, cpu, memory, instruction);
        },
        Instruction::RTS => {
            lemma_control_keeps::<M>(inv, cpu, memory, instruction);
        },
        Instruction::RTI => {
            lemma_control_keeps::<M>(inv, cpu, memory, instruction);
        },
        Instruction::JMP => {
            lemma_control_keeps::<M>(inv, cpu, memory, instruction);
        },
        Instruction::JMPI => {
            lemma_control_keeps::<M>(inv, cpu, memory, instruction);
        },
        _ => {},
    }
}

/// A tick does not break what no access breaks.
pub proof fn lemma_tick_keeps<M: Addressable>(inv: spec_fn(M::V) -> bool, cpu: Cpu, memory: M::V)
    requires
        spec_kept::<M>(inv),
        inv(memory),
    ensures
        inv(cpu.spec_tick::<M>(memory).memory),
{
    lemma_interrupt_keeps::<M>(inv, cpu, memory);
    let entered = if cpu.interrupts.nmi {
        cpu.spec_nmi::<M>(memory)
    } else {
        cpu.spec_done((), memory)
    };
    lemma_fetch_keeps::<M>(inv, entered.cpu, entered.memory);
    let fetched = entered.cpu.spec_fetch8::<M>(entered.memory);
    if entered.value is Ok && fetched.value is Ok {
        match Instruction::spec_decode(fetched.value->Ok_0) {
            Ok(instruction) => {
                lemma_instruction_keeps::<M>(inv, fetched.cpu, fetched.memory, instruction);
            },
            Err(_) => {},
        }
    }
}

} // verus!
