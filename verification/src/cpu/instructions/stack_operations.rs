use crate::cpu::instructions::register_transfers::transfer_instruction;
use crate::cpu::instructions::InstructionTasks;
use crate::cpu::tasks::transfer_register::TransferRegistersTasks;
use crate::cpu::tasks::{lemma_run_done, lemma_run_step, run, stepped, Tasks};
use crate::cpu::{add8, sub8, Registers, CPU};
use crate::memory::{mem_after_read, mem_after_write, mem_at, Generic64kMem, MemView, MEMORY_SIZE};
use crate::cpu::addressing::address::Address;
use vstd::prelude::*;

verus! {

/// Progress of a push.
#[derive(PartialEq, Eq, Structural)]
pub enum PushRegisterSteps {
    DummyFetch,
    PushToStack,
    Done,
}

/// Pushes a register onto the stack (`PHA`, `PHP`) in two cycles.
pub struct PushRegisterTasks {
    pub register: Registers,
    pub step: PushRegisterSteps,
}

impl PushRegisterTasks {
    pub open spec fn fresh(register: Registers) -> Self {
        PushRegisterTasks { register, step: PushRegisterSteps::DummyFetch }
    }

    fn new(register: Registers) -> (r: Self)
        ensures
            r == Self::fresh(register),
    {
        PushRegisterTasks { register, step: PushRegisterSteps::DummyFetch }
    }
}

impl Tasks for PushRegisterTasks {
    open spec fn is_done(&self) -> bool {
        self.step == PushRegisterSteps::Done
    }

    open spec fn can_tick(&self, addr: Address) -> bool {
        self.step != PushRegisterSteps::Done
    }

    closed spec fn next(&self, cpu: CPU, mem: MemView) -> (Self, CPU, MemView, bool) {
        self.step(cpu, mem)
    }

    open spec fn remaining(&self) -> nat {
        match self.step {
            PushRegisterSteps::DummyFetch => 2,
            PushRegisterSteps::PushToStack => 1,
            PushRegisterSteps::Done => 0,
        }
    }

    fn done(&self) -> (r: bool) {
        self.step == PushRegisterSteps::Done
    }

    fn tick(&mut self, cpu: &mut CPU, memory: &mut Generic64kMem) -> (r: bool) {
        match self.step {
            PushRegisterSteps::DummyFetch => {
                cpu.dummy_fetch(memory);
                self.step = PushRegisterSteps::PushToStack;
                false
            },
            PushRegisterSteps::PushToStack => {
                let val = cpu.get_register(self.register);
                cpu.push_byte_to_stack(val, memory);
                self.step = PushRegisterSteps::Done;
                true
            },
            PushRegisterSteps::Done => true,
        }
    }

    proof fn lemma_next(&self, cpu: CPU, mem: MemView) {
    }

    proof fn lemma_next_ignores_last_access(&self, cpu: CPU, m1: MemView, m2: MemView) {
    }
}

impl PushRegisterTasks {
    /// One cycle of this work: the work, processor and memory after it, and whether
    /// the work is finished.
    pub open spec fn step(&self, cpu: CPU, mem: MemView) -> (Self, CPU, MemView, bool) {
        match self.step {
            PushRegisterSteps::DummyFetch => (
                PushRegisterTasks { step: PushRegisterSteps::PushToStack, ..*self },
                cpu,
                mem_after_read(mem, cpu.program_counter),
                false,
            ),
            _ => (
                PushRegisterTasks { step: PushRegisterSteps::Done, ..*self },
                cpu.with_stack_pointer(sub8(cpu.stack_pointer, 1)),
                mem_after_write(mem, cpu.stack_address(), cpu.reg(self.register)),
                true,
            ),
        }
    }

    /// `next` is `step`.
    pub proof fn lemma_next_is_step(&self, cpu: CPU, mem: MemView)
        ensures
            self.next(cpu, mem) == self.step(cpu, mem),
    {
    }
}

/// The instruction a push handler builds.
pub open spec fn push_instruction(register: Registers) -> InstructionTasks {
    InstructionTasks::PushRegister(PushRegisterTasks::fresh(register))
}

fn push_register(_cpu: &mut CPU, register: Registers) -> (r: InstructionTasks)
    ensures
        r == push_instruction(register),
        *final(_cpu) == *old(_cpu),
{
    InstructionTasks::PushRegister(PushRegisterTasks::new(register))
}

/// `PHA`
pub fn pha(cpu: &mut CPU) -> (r: InstructionTasks)
    ensures
        r == push_instruction(Registers::Accumulator),
        *final(cpu) == *old(cpu),
{
    push_register(cpu, Registers::Accumulator)
}

/// `PHP`
pub fn php(cpu: &mut CPU) -> (r: InstructionTasks)
    ensures
        r == push_instruction(Registers::ProcessorStatus),
        *final(cpu) == *old(cpu),
{
    push_register(cpu, Registers::ProcessorStatus)
}

/// Progress of a pull.
#[derive(PartialEq, Eq, Structural)]
pub enum PullRegisterSteps {
    DummyFetch,
    PreDecrementStackPointer,
    PullFromStack,
    Done,
}

/// Pulls a register from the stack (`PLA`, `PLP`) in three cycles.
pub struct PullRegisterTasks {
    pub register: Registers,
    pub step: PullRegisterSteps,
}

impl PullRegisterTasks {
    pub open spec fn fresh(register: Registers) -> Self {
        PullRegisterTasks { register, step: PullRegisterSteps::DummyFetch }
    }

    fn new(register: Registers) -> (r: Self)
        ensures
            r == Self::fresh(register),
    {
        PullRegisterTasks { register, step: PullRegisterSteps::DummyFetch }
    }
}

impl Tasks for PullRegisterTasks {
    open spec fn is_done(&self) -> bool {
        self.step == PullRegisterSteps::Done
    }

    open spec fn can_tick(&self, addr: Address) -> bool {
        self.step != PullRegisterSteps::Done
    }

    closed spec fn next(&self, cpu: CPU, mem: MemView) -> (Self, CPU, MemView, bool) {
        self.step(cpu, mem)
    }

    open spec fn remaining(&self) -> nat {
        match self.step {
            PullRegisterSteps::DummyFetch => 3,
            PullRegisterSteps::PreDecrementStackPointer => 2,
            PullRegisterSteps::PullFromStack => 1,
            PullRegisterSteps::Done => 0,
        }
    }

    fn done(&self) -> (r: bool) {
        self.step == PullRegisterSteps::Done
    }

    fn tick(&mut self, cpu: &mut CPU, memory: &mut Generic64kMem) -> (r: bool) {
        match self.step {
            PullRegisterSteps::DummyFetch => {
                cpu.dummy_fetch(memory);
                self.step = PullRegisterSteps::PreDecrementStackPointer;
                false
            },
            PullRegisterSteps::PreDecrementStackPointer => {
                // the stack pointer moves together with the pull in the next cycle
                self.step = PullRegisterSteps::PullFromStack;
                false
            },
            PullRegisterSteps::PullFromStack => {
                let value = cpu.pop_byte_from_stack(memory);
                cpu.set_register(self.register, value);
                self.step = PullRegisterSteps::Done;
                true
            },
            PullRegisterSteps::Done => true,
        }
    }

    proof fn lemma_next(&self, cpu: CPU, mem: MemView) {
    }

    proof fn lemma_next_ignores_last_access(&self, cpu: CPU, m1: MemView, m2: MemView) {
    }
}

impl PullRegisterTasks {
    /// One cycle of this work: the work, processor and memory after it, and whether
    /// the work is finished.
    pub open spec fn step(&self, cpu: CPU, mem: MemView) -> (Self, CPU, MemView, bool) {
        match self.step {
            PullRegisterSteps::DummyFetch => (
                PullRegisterTasks { step: PullRegisterSteps::PreDecrementStackPointer, ..*self },
                cpu,
                mem_after_read(mem, cpu.program_counter),
                false,
            ),
            PullRegisterSteps::PreDecrementStackPointer => (
                PullRegisterTasks { step: PullRegisterSteps::PullFromStack, ..*self },
                cpu,
                mem,
                false,
            ),
            _ => {
                let c1 = cpu.with_stack_pointer(add8(cpu.stack_pointer, 1));
                let a = c1.stack_address();
                (
                    PullRegisterTasks { step: PullRegisterSteps::Done, ..*self },
                    c1.with_register(self.register, mem_at(mem, a)),
                    mem_after_read(mem, a),
                    true,
                )
            },
        }
    }

    /// `next` is `step`.
    pub proof fn lemma_next_is_step(&self, cpu: CPU, mem: MemView)
        ensures
            self.next(cpu, mem) == self.step(cpu, mem),
    {
    }
}

/// A push followed at once by a pull of the same register restores the stack pointer
/// and gives the register back its value (the accumulator and index registers also get
/// zero and negative flags describing it), in five cycles; the pushed byte stays in the
/// stack page.
pub proof fn lemma_push_then_pull(register: Registers, cpu: CPU, mem: MemView)
    requires
        mem.0.len() == MEMORY_SIZE,
        cpu.cycle + 5 < usize::MAX,
        register != Registers::StackPointer,
    ensures
        ({
            let p = run(PushRegisterTasks::fresh(register), cpu, mem, 2);
            let q = run(PullRegisterTasks::fresh(register), p.1, p.2, 3);
            &&& p.0.is_done() && q.0.is_done()
            &&& q.1 == CPU {
                cycle: (cpu.cycle + 5) as usize,
                ..cpu.with_register(register, cpu.reg(register))
            }
            &&& q.2.0 == mem.0.update(cpu.stack_address() as int, cpu.reg(register))
        }),
{
    let t0 = PushRegisterTasks::fresh(register);
    let s1 = stepped(t0, cpu, mem);
    lemma_run_step(t0, cpu, mem, 2);
    let s2 = stepped(s1.0, s1.1, s1.2);
    lemma_run_step(s1.0, s1.1, s1.2, 1);
    lemma_run_done(s2.0, s2.1, s2.2, 0);
    let u0 = PullRegisterTasks::fresh(register);
    let u1 = stepped(u0, s2.1, s2.2);
    lemma_run_step(u0, s2.1, s2.2, 3);
    let u2 = stepped(u1.0, u1.1, u1.2);
    lemma_run_step(u1.0, u1.1, u1.2, 2);
    let u3 = stepped(u2.0, u2.1, u2.2);
    lemma_run_step(u2.0, u2.1, u2.2, 1);
    lemma_run_done(u3.0, u3.1, u3.2, 0);
    assert(u2.1.with_stack_pointer(add8(u2.1.stack_pointer, 1)).stack_address()
        == cpu.stack_address());
}

/// The instruction a pull handler builds.
pub open spec fn pull_instruction(register: Registers) -> InstructionTasks {
    InstructionTasks::PullRegister(PullRegisterTasks::fresh(register))
}

fn pull_register(_cpu: &mut CPU, register: Registers) -> (r: InstructionTasks)
    ensures
        r == pull_instruction(register),
        *final(_cpu) == *old(_cpu),
{
    InstructionTasks::PullRegister(PullRegisterTasks::new(register))
}

/// `PLA`
pub fn pla(cpu: &mut CPU) -> (r: InstructionTasks)
    ensures
        r == pull_instruction(Registers::Accumulator),
        *final(cpu) == *old(cpu),
{
    pull_register(cpu, Registers::Accumulator)
}

/// `PLP`
pub fn plp(cpu: &mut CPU) -> (r: InstructionTasks)
    ensures
        r == pull_instruction(Registers::ProcessorStatus),
        *final(cpu) == *old(cpu),
{
    pull_register(cpu, Registers::ProcessorStatus)
}

/// `TSX`
pub fn tsx(_cpu: &mut CPU) -> (r: InstructionTasks)
    ensures
        r == transfer_instruction(Registers::StackPointer, Registers::IndexX),
        *final(_cpu) == *old(_cpu),
{
    InstructionTasks::TransferRegisters(
        TransferRegistersTasks::new(Registers::StackPointer, Registers::IndexX),
    )
}

/// `TXS`
pub fn txs(_cpu: &mut CPU) -> (r: InstructionTasks)
    ensures
        r == transfer_instruction(Registers::IndexX, Registers::StackPointer),
        *final(_cpu) == *old(_cpu),
{
    InstructionTasks::TransferRegisters(
        TransferRegistersTasks::new(Registers::IndexX, Registers::StackPointer),
    )
}

} // verus!
