use crate::cpu::instructions::InstructionTasks;
use crate::cpu::processor_status::Flags;
use crate::cpu::tasks::Tasks;
use crate::cpu::CPU;
use crate::memory::{Generic64kMem, MemView};
use crate::cpu::addressing::address::Address;
use vstd::prelude::*;

verus! {

/// Sets or clears one status flag in one cycle.
pub struct ChangeStatusFlagTasks {
    pub flag: Flags,
    pub value: bool,
    pub done: bool,
}

impl ChangeStatusFlagTasks {
    pub open spec fn fresh(flag: Flags, value: bool) -> Self {
        ChangeStatusFlagTasks { flag, done: false, value }
    }

    fn new(flag: Flags, value: bool) -> (r: Self)
        ensures
            r == Self::fresh(flag, value),
    {
        ChangeStatusFlagTasks { flag, done: false, value }
    }
}

impl Tasks for ChangeStatusFlagTasks {
    open spec fn is_done(&self) -> bool {
        self.done
    }

    open spec fn can_tick(&self, addr: Address) -> bool {
        !self.done
    }

    closed spec fn next(&self, cpu: CPU, mem: MemView) -> (Self, CPU, MemView, bool) {
        self.step(cpu, mem)
    }

    open spec fn remaining(&self) -> nat {
        if self.done {
            0
        } else {
            1
        }
    }

    fn done(&self) -> (r: bool) {
        self.done
    }

    fn tick(&mut self, cpu: &mut CPU, memory: &mut Generic64kMem) -> (r: bool) {
        cpu.processor_status.change_flag(self.flag, self.value);
        self.done = true;
        self.done
    }

    proof fn lemma_next(&self, cpu: CPU, mem: MemView) {
    }

    proof fn lemma_next_ignores_last_access(&self, cpu: CPU, m1: MemView, m2: MemView) {
    }
}

impl ChangeStatusFlagTasks {
    /// One cycle of this work: the work, processor and memory after it, and whether
    /// the work is finished.
    pub open spec fn step(&self, cpu: CPU, mem: MemView) -> (Self, CPU, MemView, bool) {
        (ChangeStatusFlagTasks { done: true, ..*self }, cpu.with_flag(self.flag, self.value), mem, true)
    }

    /// `next` is `step`.
    pub proof fn lemma_next_is_step(&self, cpu: CPU, mem: MemView)
        ensures
            self.next(cpu, mem) == self.step(cpu, mem),
    {
    }
}

/// The instruction a flag handler builds.
pub open spec fn flag_instruction(flag: Flags, value: bool) -> InstructionTasks {
    InstructionTasks::ChangeStatusFlag(ChangeStatusFlagTasks::fresh(flag, value))
}

fn change_flag_value(_cpu: &mut CPU, flag: Flags, value: bool) -> (r: InstructionTasks)
    ensures
        r == flag_instruction(flag, value),
        *final(_cpu) == *old(_cpu),
{
    InstructionTasks::ChangeStatusFlag(ChangeStatusFlagTasks::new(flag, value))
}

/// `CLC`
pub fn clc(cpu: &mut CPU) -> (r: InstructionTasks)
    ensures
        r == flag_instruction(Flags::Carry, false),
        *final(cpu) == *old(cpu),
{
    change_flag_value(cpu, Flags::Carry, false)
}

/// `CLD`
pub fn cld(cpu: &mut CPU) -> (r: InstructionTasks)
    ensures
        r == flag_instruction(Flags::DecimalMode, false),
        *final(cpu) == *old(cpu),
{
    change_flag_value(cpu, Flags::DecimalMode, false)
}

/// `CLI`
pub fn cli(cpu: &mut CPU) -> (r: InstructionTasks)
    ensures
        r == flag_instruction(Flags::InterruptDisable, false),
        *final(cpu) == *old(cpu),
{
    change_flag_value(cpu, Flags::InterruptDisable, false)
}

/// `CLV`
pub fn clv(cpu: &mut CPU) -> (r: InstructionTasks)
    ensures
        r == flag_instruction(Flags::Overflow, false),
        *final(cpu) == *old(cpu),
{
    change_flag_value(cpu, Flags::Overflow, false)
}

/// `SEC`
pub fn sec(cpu: &mut CPU) -> (r: InstructionTasks)
    ensures
        r == flag_instruction(Flags::Carry, true),
        *final(cpu) == *old(cpu),
{
    change_flag_value(cpu, Flags::Carry, true)
}

/// `SED`
pub fn sed(cpu: &mut CPU) -> (r: InstructionTasks)
    ensures
        r == flag_instruction(Flags::DecimalMode, true),
        *final(cpu) == *old(cpu),
{
    change_flag_value(cpu, Flags::DecimalMode, true)
}

/// `SEI`
pub fn sei(cpu: &mut CPU) -> (r: InstructionTasks)
    ensures
        r == flag_instruction(Flags::InterruptDisable, true),
        *final(cpu) == *old(cpu),
{
    change_flag_value(cpu, Flags::InterruptDisable, true)
}

} // verus!
