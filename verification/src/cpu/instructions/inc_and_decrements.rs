use crate::cpu::addressing::absolute::AccessVariant;
use crate::cpu::addressing::{addressing_tasks_for, get_addressing_tasks, has_addressing_tasks, AddressingMode};
use crate::cpu::instructions::InstructionTasks;
use crate::cpu::tasks::modify_memory::{ModificationVariant, ModifyMemoryTasks};
use crate::cpu::tasks::modify_register::ModifyRegisterTasks;
use crate::cpu::{Registers, CPU};
use vstd::prelude::*;

verus! {

/// The instruction a read-modify-write handler on memory builds.
pub open spec fn modify_memory_instruction(
    cpu: CPU,
    addr_mode: AddressingMode,
    variant: ModificationVariant,
) -> InstructionTasks {
    InstructionTasks::ModifyMemory(
        ModifyMemoryTasks::fresh(
            variant,
            addressing_tasks_for(cpu.chip_variant, addr_mode, AccessVariant::Modify),
        ),
    )
}

/// The instruction a register modification handler builds.
pub open spec fn modify_register_instruction(
    register: Registers,
    variant: ModificationVariant,
) -> InstructionTasks {
    InstructionTasks::ModifyRegister(ModifyRegisterTasks::fresh(variant, register))
}

fn decrement_memory(cpu: &mut CPU, addr_mode: AddressingMode) -> (r: InstructionTasks)
    requires
        has_addressing_tasks(addr_mode),
    ensures
        r == modify_memory_instruction(*old(cpu), addr_mode, ModificationVariant::Dec),
        *final(cpu) == *old(cpu),
{
    let addr_tasks = get_addressing_tasks(cpu, addr_mode, AccessVariant::Modify);
    InstructionTasks::ModifyMemory(ModifyMemoryTasks::new_dec(addr_tasks))
}

fn decrement_register(_cpu: &mut CPU, register: Registers) -> (r: InstructionTasks)
    requires
        register == Registers::IndexX || register == Registers::IndexY,
    ensures
        r == modify_register_instruction(register, ModificationVariant::Dec),
        *final(_cpu) == *old(_cpu),
{
    InstructionTasks::ModifyRegister(ModifyRegisterTasks::new_dec(register))
}

fn increment_memory(cpu: &mut CPU, addr_mode: AddressingMode) -> (r: InstructionTasks)
    requires
        has_addressing_tasks(addr_mode),
    ensures
        r == modify_memory_instruction(*old(cpu), addr_mode, ModificationVariant::Inc),
        *final(cpu) == *old(cpu),
{
    let addr_tasks = get_addressing_tasks(cpu, addr_mode, AccessVariant::Modify);
    InstructionTasks::ModifyMemory(ModifyMemoryTasks::new_inc(addr_tasks))
}

fn increment_register(_cpu: &mut CPU, register: Registers) -> (r: InstructionTasks)
    requires
        register == Registers::IndexX || register == Registers::IndexY,
    ensures
        r == modify_register_instruction(register, ModificationVariant::Inc),
        *final(_cpu) == *old(_cpu),
{
    InstructionTasks::ModifyRegister(ModifyRegisterTasks::new_inc(register))
}

/// `DEC zp`
pub fn dec_zp(cpu: &mut CPU) -> (r: InstructionTasks)
    ensures
        r == modify_memory_instruction(*old(cpu), AddressingMode::ZeroPage, ModificationVariant::Dec),
        *final(cpu) == *old(cpu),
{
    decrement_memory(cpu, AddressingMode::ZeroPage)
}

/// `DEC zp,X`
pub fn dec_zpx(cpu: &mut CPU) -> (r: InstructionTasks)
    ensures
        r == modify_memory_instruction(*old(cpu), AddressingMode::ZeroPageX, ModificationVariant::Dec),
        *final(cpu) == *old(cpu),
{
    decrement_memory(cpu, AddressingMode::ZeroPageX)
}

/// `DEC abs`
pub fn dec_a(cpu: &mut CPU) -> (r: InstructionTasks)
    ensures
        r == modify_memory_instruction(*old(cpu), AddressingMode::Absolute, ModificationVariant::Dec),
        *final(cpu) == *old(cpu),
{
    decrement_memory(cpu, AddressingMode::Absolute)
}

/// `DEC abs,X`
pub fn dec_ax(cpu: &mut CPU) -> (r: InstructionTasks)
    ensures
        r == modify_memory_instruction(*old(cpu), AddressingMode::AbsoluteX, ModificationVariant::Dec),
        *final(cpu) == *old(cpu),
{
    decrement_memory(cpu, AddressingMode::AbsoluteX)
}

/// `DEX`
pub fn dex_im(cpu: &mut CPU) -> (r: InstructionTasks)
    ensures
        r == modify_register_instruction(Registers::IndexX, ModificationVariant::Dec),
        *final(cpu) == *old(cpu),
{
    decrement_register(cpu, Registers::IndexX)
}

/// `DEY`
pub fn dey_im(cpu: &mut CPU) -> (r: InstructionTasks)
    ensures
        r == modify_register_instruction(Registers::IndexY, ModificationVariant::Dec),
        *final(cpu) == *old(cpu),
{
    decrement_register(cpu, Registers::IndexY)
}

/// `INC zp`
pub fn inc_zp(cpu: &mut CPU) -> (r: InstructionTasks)
    ensures
        r == modify_memory_instruction(*old(cpu), AddressingMode::ZeroPage, ModificationVariant::Inc),
        *final(cpu) == *old(cpu),
{
    increment_memory(cpu, AddressingMode::ZeroPage)
}

/// `INC zp,X`
pub fn inc_zpx(cpu: &mut CPU) -> (r: InstructionTasks)
    ensures
        r == modify_memory_instruction(*old(cpu), AddressingMode::ZeroPageX, ModificationVariant::Inc),
        *final(cpu) == *old(cpu),
{
    increment_memory(cpu, AddressingMode::ZeroPageX)
}

/// `INC abs`
pub fn inc_a(cpu: &mut CPU) -> (r: InstructionTasks)
    ensures
        r == modify_memory_instruction(*old(cpu), AddressingMode::Absolute, ModificationVariant::Inc),
        *final(cpu) == *old(cpu),
{
    increment_memory(cpu, AddressingMode::Absolute)
}

/// `INC abs,X`
pub fn inc_ax(cpu: &mut CPU) -> (r: InstructionTasks)
    ensures
        r == modify_memory_instruction(*old(cpu), AddressingMode::AbsoluteX, ModificationVariant::Inc),
        *final(cpu) == *old(cpu),
{
    increment_memory(cpu, AddressingMode::AbsoluteX)
}

/// `INX`
pub fn inx_im(cpu: &mut CPU) -> (r: InstructionTasks)
    ensures
        r == modify_register_instruction(Registers::IndexX, ModificationVariant::Inc),
        *final(cpu) == *old(cpu),
{
    increment_register(cpu, Registers::IndexX)
}

/// `INY`
pub fn iny_im(cpu: &mut CPU) -> (r: InstructionTasks)
    ensures
        r == modify_register_instruction(Registers::IndexY, ModificationVariant::Inc),
        *final(cpu) == *old(cpu),
{
    increment_register(cpu, Registers::IndexY)
}

} // verus!
