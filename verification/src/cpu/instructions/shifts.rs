use crate::cpu::addressing::absolute::AccessVariant;
use crate::cpu::addressing::address::Address;
use crate::cpu::addressing::{get_addressing_tasks, AddressingMode};
use crate::cpu::instructions::inc_and_decrements::{modify_memory_instruction, modify_register_instruction};
use crate::cpu::instructions::InstructionTasks;
use crate::cpu::tasks::modify_memory::{ModificationVariant, ModifyMemoryTasks};
use crate::cpu::tasks::modify_register::ModifyRegisterTasks;
use crate::cpu::{Registers, CPU};
use vstd::prelude::*;

verus! {

/// `ASL A`
pub fn asl_acc(cpu: &mut CPU) -> (r: InstructionTasks)
    ensures
        r == modify_register_instruction(Registers::Accumulator, ModificationVariant::ShiftLeft),
        *final(cpu) == old(cpu).with_addr(Address::cleared(AddressingMode::Accumulator, true)),
{
    cpu.addr.reset_acc();
    InstructionTasks::ModifyRegister(ModifyRegisterTasks::new_shift_left(Registers::Accumulator))
}

/// `ASL zp`
pub fn asl_zp(cpu: &mut CPU) -> (r: InstructionTasks)
    ensures
        r == modify_memory_instruction(*old(cpu), AddressingMode::ZeroPage, ModificationVariant::ShiftLeft),
        *final(cpu) == *old(cpu),
{
    let addr_tasks = get_addressing_tasks(cpu, AddressingMode::ZeroPage, AccessVariant::Modify);
    InstructionTasks::ModifyMemory(ModifyMemoryTasks::new_shift_left(addr_tasks))
}

/// `ASL zp,X`
pub fn asl_zpx(cpu: &mut CPU) -> (r: InstructionTasks)
    ensures
        r == modify_memory_instruction(*old(cpu), AddressingMode::ZeroPageX, ModificationVariant::ShiftLeft),
        *final(cpu) == *old(cpu),
{
    let addr_tasks = get_addressing_tasks(cpu, AddressingMode::ZeroPageX, AccessVariant::Modify);
    InstructionTasks::ModifyMemory(ModifyMemoryTasks::new_shift_left(addr_tasks))
}

/// `ASL abs`
pub fn asl_a(cpu: &mut CPU) -> (r: InstructionTasks)
    ensures
        r == modify_memory_instruction(*old(cpu), AddressingMode::Absolute, ModificationVariant::ShiftLeft),
        *final(cpu) == *old(cpu),
{
    let addr_tasks = get_addressing_tasks(cpu, AddressingMode::Absolute, AccessVariant::Modify);
    InstructionTasks::ModifyMemory(ModifyMemoryTasks::new_shift_left(addr_tasks))
}

/// `ASL abs,X`
pub fn asl_ax(cpu: &mut CPU) -> (r: InstructionTasks)
    ensures
        r == modify_memory_instruction(*old(cpu), AddressingMode::AbsoluteX, ModificationVariant::ShiftLeft),
        *final(cpu) == *old(cpu),
{
    let addr_tasks = get_addressing_tasks(cpu, AddressingMode::AbsoluteX, AccessVariant::Modify);
    InstructionTasks::ModifyMemory(ModifyMemoryTasks::new_shift_left(addr_tasks))
}

/// `LSR A`
pub fn lsr_acc(cpu: &mut CPU) -> (r: InstructionTasks)
    ensures
        r == modify_register_instruction(Registers::Accumulator, ModificationVariant::ShiftRight),
        *final(cpu) == old(cpu).with_addr(Address::cleared(AddressingMode::Accumulator, true)),
{
    cpu.addr.reset_acc();
    InstructionTasks::ModifyRegister(ModifyRegisterTasks::new_shift_right(Registers::Accumulator))
}

/// `LSR zp`
pub fn lsr_zp(cpu: &mut CPU) -> (r: InstructionTasks)
    ensures
        r == modify_memory_instruction(*old(cpu), AddressingMode::ZeroPage, ModificationVariant::ShiftRight),
        *final(cpu) == *old(cpu),
{
    let addr_tasks = get_addressing_tasks(cpu, AddressingMode::ZeroPage, AccessVariant::Modify);
    InstructionTasks::ModifyMemory(ModifyMemoryTasks::new_shift_right(addr_tasks))
}

/// `LSR zp,X`
pub fn lsr_zpx(cpu: &mut CPU) -> (r: InstructionTasks)
    ensures
        r == modify_memory_instruction(*old(cpu), AddressingMode::ZeroPageX, ModificationVariant::ShiftRight),
        *final(cpu) == *old(cpu),
{
    let addr_tasks = get_addressing_tasks(cpu, AddressingMode::ZeroPageX, AccessVariant::Modify);
    InstructionTasks::ModifyMemory(ModifyMemoryTasks::new_shift_right(addr_tasks))
}

/// `LSR abs`
pub fn lsr_a(cpu: &mut CPU) -> (r: InstructionTasks)
    ensures
        r == modify_memory_instruction(*old(cpu), AddressingMode::Absolute, ModificationVariant::ShiftRight),
        *final(cpu) == *old(cpu),
{
    let addr_tasks = get_addressing_tasks(cpu, AddressingMode::Absolute, AccessVariant::Modify);
    InstructionTasks::ModifyMemory(ModifyMemoryTasks::new_shift_right(addr_tasks))
}

/// `LSR abs,X`
pub fn lsr_ax(cpu: &mut CPU) -> (r: InstructionTasks)
    ensures
        r == modify_memory_instruction(*old(cpu), AddressingMode::AbsoluteX, ModificationVariant::ShiftRight),
        *final(cpu) == *old(cpu),
{
    let addr_tasks = get_addressing_tasks(cpu, AddressingMode::AbsoluteX, AccessVariant::Modify);
    InstructionTasks::ModifyMemory(ModifyMemoryTasks::new_shift_right(addr_tasks))
}

/// `ROL A`
pub fn rol_acc(cpu: &mut CPU) -> (r: InstructionTasks)
    ensures
        r == modify_register_instruction(Registers::Accumulator, ModificationVariant::RotateLeft),
        *final(cpu) == old(cpu).with_addr(Address::cleared(AddressingMode::Accumulator, true)),
{
    cpu.addr.reset_acc();
    InstructionTasks::ModifyRegister(ModifyRegisterTasks::new_rotate_left(Registers::Accumulator))
}

/// `ROL zp`
pub fn rol_zp(cpu: &mut CPU) -> (r: InstructionTasks)
    ensures
        r == modify_memory_instruction(*old(cpu), AddressingMode::ZeroPage, ModificationVariant::RotateLeft),
        *final(cpu) == *old(cpu),
{
    let addr_tasks = get_addressing_tasks(cpu, AddressingMode::ZeroPage, AccessVariant::Modify);
    InstructionTasks::ModifyMemory(ModifyMemoryTasks::new_rotate_left(addr_tasks))
}

/// `ROL zp,X`
pub fn rol_zpx(cpu: &mut CPU) -> (r: InstructionTasks)
    ensures
        r == modify_memory_instruction(*old(cpu), AddressingMode::ZeroPageX, ModificationVariant::RotateLeft),
        *final(cpu) == *old(cpu),
{
    let addr_tasks = get_addressing_tasks(cpu, AddressingMode::ZeroPageX, AccessVariant::Modify);
    InstructionTasks::ModifyMemory(ModifyMemoryTasks::new_rotate_left(addr_tasks))
}

/// `ROL abs`
pub fn rol_a(cpu: &mut CPU) -> (r: InstructionTasks)
    ensures
        r == modify_memory_instruction(*old(cpu), AddressingMode::Absolute, ModificationVariant::RotateLeft),
        *final(cpu) == *old(cpu),
{
    let addr_tasks = get_addressing_tasks(cpu, AddressingMode::Absolute, AccessVariant::Modify);
    InstructionTasks::ModifyMemory(ModifyMemoryTasks::new_rotate_left(addr_tasks))
}

/// `ROL abs,X`
pub fn rol_ax(cpu: &mut CPU) -> (r: InstructionTasks)
    ensures
        r == modify_memory_instruction(*old(cpu), AddressingMode::AbsoluteX, ModificationVariant::RotateLeft),
        *final(cpu) == *old(cpu),
{
    let addr_tasks = get_addressing_tasks(cpu, AddressingMode::AbsoluteX, AccessVariant::Modify);
    InstructionTasks::ModifyMemory(ModifyMemoryTasks::new_rotate_left(addr_tasks))
}

/// `ROR A`
pub fn ror_acc(cpu: &mut CPU) -> (r: InstructionTasks)
    ensures
        r == modify_register_instruction(Registers::Accumulator, ModificationVariant::RotateRight),
        *final(cpu) == old(cpu).with_addr(Address::cleared(AddressingMode::Accumulator, true)),
{
    cpu.addr.reset_acc();
    InstructionTasks::ModifyRegister(ModifyRegisterTasks::new_rotate_right(Registers::Accumulator))
}

/// `ROR zp`
pub fn ror_zp(cpu: &mut CPU) -> (r: InstructionTasks)
    ensures
        r == modify_memory_instruction(*old(cpu), AddressingMode::ZeroPage, ModificationVariant::RotateRight),
        *final(cpu) == *old(cpu),
{
    let addr_tasks = get_addressing_tasks(cpu, AddressingMode::ZeroPage, AccessVariant::Modify);
    InstructionTasks::ModifyMemory(ModifyMemoryTasks::new_rotate_right(addr_tasks))
}

/// `ROR zp,X`
pub fn ror_zpx(cpu: &mut CPU) -> (r: InstructionTasks)
    ensures
        r == modify_memory_instruction(*old(cpu), AddressingMode::ZeroPageX, ModificationVariant::RotateRight),
        *final(cpu) == *old(cpu),
{
    let addr_tasks = get_addressing_tasks(cpu, AddressingMode::ZeroPageX, AccessVariant::Modify);
    InstructionTasks::ModifyMemory(ModifyMemoryTasks::new_rotate_right(addr_tasks))
}

/// `ROR abs`
pub fn ror_a(cpu: &mut CPU) -> (r: InstructionTasks)
    ensures
        r == modify_memory_instruction(*old(cpu), AddressingMode::Absolute, ModificationVariant::RotateRight),
        *final(cpu) == *old(cpu),
{
    let addr_tasks = get_addressing_tasks(cpu, AddressingMode::Absolute, AccessVariant::Modify);
    InstructionTasks::ModifyMemory(ModifyMemoryTasks::new_rotate_right(addr_tasks))
}

/// `ROR abs,X`
pub fn ror_ax(cpu: &mut CPU) -> (r: InstructionTasks)
    ensures
        r == modify_memory_instruction(*old(cpu), AddressingMode::AbsoluteX, ModificationVariant::RotateRight),
        *final(cpu) == *old(cpu),
{
    let addr_tasks = get_addressing_tasks(cpu, AddressingMode::AbsoluteX, AccessVariant::Modify);
    InstructionTasks::ModifyMemory(ModifyMemoryTasks::new_rotate_right(addr_tasks))
}

} // verus!
