use crate::cpu::instructions::InstructionTasks;
use crate::cpu::tasks::transfer_register::TransferRegistersTasks;
use crate::cpu::{Registers, CPU};
use vstd::prelude::*;

verus! {

/// The instruction a register transfer handler builds.
pub open spec fn transfer_instruction(src: Registers, tgt: Registers) -> InstructionTasks {
    InstructionTasks::TransferRegisters(TransferRegistersTasks::fresh(src, tgt))
}

/// `TAX`
pub fn tax(_cpu: &mut CPU) -> (r: InstructionTasks)
    ensures
        r == transfer_instruction(Registers::Accumulator, Registers::IndexX),
        *final(_cpu) == *old(_cpu),
{
    InstructionTasks::TransferRegisters(TransferRegistersTasks::new(Registers::Accumulator, Registers::IndexX))
}

/// `TXA`
pub fn txa(_cpu: &mut CPU) -> (r: InstructionTasks)
    ensures
        r == transfer_instruction(Registers::IndexX, Registers::Accumulator),
        *final(_cpu) == *old(_cpu),
{
    InstructionTasks::TransferRegisters(TransferRegistersTasks::new(Registers::IndexX, Registers::Accumulator))
}

/// `TAY`
pub fn tay(_cpu: &mut CPU) -> (r: InstructionTasks)
    ensures
        r == transfer_instruction(Registers::Accumulator, Registers::IndexY),
        *final(_cpu) == *old(_cpu),
{
    InstructionTasks::TransferRegisters(TransferRegistersTasks::new(Registers::Accumulator, Registers::IndexY))
}

/// `TYA`
pub fn tya(_cpu: &mut CPU) -> (r: InstructionTasks)
    ensures
        r == transfer_instruction(Registers::IndexY, Registers::Accumulator),
        *final(_cpu) == *old(_cpu),
{
    InstructionTasks::TransferRegisters(TransferRegistersTasks::new(Registers::IndexY, Registers::Accumulator))
}

} // verus!
