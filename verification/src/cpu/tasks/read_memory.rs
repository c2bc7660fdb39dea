use crate::consts::{Byte, Word};
use crate::cpu::addressing::address::Address;
use crate::cpu::addressing::{AddressingMode, AddressingTasks, AnyAddressingTasks};
use crate::cpu::tasks::{lemma_run_done, lemma_run_step, run, stepped, Tasks};
use crate::cpu::CPU;
use crate::memory::{mem_after_read, mem_at, Generic64kMem, MemView, Memory, MEMORY_SIZE};
use vstd::prelude::*;

verus! {

/// Work that reads an operand byte.
pub trait ReadMemoryTasks: Tasks {
    /// The byte read, once it has been read.
    spec fn spec_value(&self) -> Option<Byte>;

    fn value(&self) -> (r: Option<Byte>)
        ensures
            r == self.spec_value(),
    ;

    /// The cycle that finishes the work has read the operand.
    proof fn lemma_value_on_finish(&self, cpu: CPU, mem: MemView)
        requires
            self.can_tick(cpu.addr),
            !self.is_done(),
        ensures
            self.next(cpu, mem).3 ==> self.next(cpu, mem).0.spec_value() is Some,
    ;
}

/// Progress of an addressed read.
#[derive(PartialEq, Eq, Structural)]
pub enum AddressingReadMemoryStep {
    AddressCalculation,
    SeparateMemoryAccess,
    Done,
}

/// Reads the operand at an address computed by addressing tasks, either in the
/// cycle that finishes addressing or in a cycle of its own.
pub struct AddressingReadMemoryTasks {
    pub addressing_tasks: AnyAddressingTasks,
    pub access_during_addressing: bool,
    pub step: AddressingReadMemoryStep,
    pub value: Option<Byte>,
}

impl AddressingReadMemoryTasks {
    pub open spec fn fresh(addressing_tasks: AnyAddressingTasks, access_during_addressing: bool) -> Self {
        AddressingReadMemoryTasks {
            addressing_tasks,
            access_during_addressing,
            step: AddressingReadMemoryStep::AddressCalculation,
            value: None,
        }
    }

    pub fn new_with_access_during_addressing(addressing_tasks: AnyAddressingTasks) -> (r: Self)
        ensures
            r == Self::fresh(addressing_tasks, true),
    {
        AddressingReadMemoryTasks {
            addressing_tasks,
            access_during_addressing: true,
            step: AddressingReadMemoryStep::AddressCalculation,
            value: None,
        }
    }

    pub fn new_with_access_in_separate_cycle(addressing_tasks: AnyAddressingTasks) -> (r: Self)
        ensures
            r == Self::fresh(addressing_tasks, false),
    {
        AddressingReadMemoryTasks {
            addressing_tasks,
            access_during_addressing: false,
            step: AddressingReadMemoryStep::AddressCalculation,
            value: None,
        }
    }

    /// Reads the operand at the computed address.
    fn access_memory(&mut self, cpu: &CPU, memory: &mut Generic64kMem)
        requires
            old(memory).wf(),
            cpu.addr.val is Some,
        ensures
            final(memory).wf(),
            *final(self) == (AddressingReadMemoryTasks {
                value: Some(mem_at(old(memory)@, cpu.addr.val->0)),
                ..*old(self)
            }),
            final(memory)@ == mem_after_read(old(memory)@, cpu.addr.val->0),
    {
        self.value = Some(memory.read(cpu.addr.value().unwrap()));
    }
}

impl ReadMemoryTasks for AddressingReadMemoryTasks {
    open spec fn spec_value(&self) -> Option<Byte> {
        self.value
    }

    fn value(&self) -> (r: Option<Byte>) {
        self.value
    }

    proof fn lemma_value_on_finish(&self, cpu: CPU, mem: MemView) {
    }
}

impl Tasks for AddressingReadMemoryTasks {
    open spec fn is_done(&self) -> bool {
        self.step == AddressingReadMemoryStep::Done
    }

    open spec fn can_tick(&self, addr: Address) -> bool {
        match self.step {
            AddressingReadMemoryStep::AddressCalculation => !self.addressing_tasks.is_done()
                && self.addressing_tasks.can_tick(addr),
            AddressingReadMemoryStep::SeparateMemoryAccess => addr.val is Some,
            AddressingReadMemoryStep::Done => true,
        }
    }

    open spec fn next(&self, cpu: CPU, mem: MemView) -> (Self, CPU, MemView, bool) {
        match self.step {
            AddressingReadMemoryStep::AddressCalculation => {
                let n = self.addressing_tasks.next(cpu, mem);
                if !n.3 {
                    (AddressingReadMemoryTasks { addressing_tasks: n.0, ..*self }, n.1, n.2, false)
                } else if !self.access_during_addressing {
                    (
                        AddressingReadMemoryTasks {
                            addressing_tasks: n.0,
                            step: AddressingReadMemoryStep::SeparateMemoryAccess,
                            ..*self
                        },
                        n.1,
                        n.2,
                        false,
                    )
                } else {
                    let a = n.1.addr.val->0;
                    (
                        AddressingReadMemoryTasks {
                            addressing_tasks: n.0,
                            step: AddressingReadMemoryStep::Done,
                            value: Some(mem_at(n.2, a)),
                            ..*self
                        },
                        n.1,
                        mem_after_read(n.2, a),
                        true,
                    )
                }
            },
            AddressingReadMemoryStep::SeparateMemoryAccess => {
                let a = cpu.addr.val->0;
                (
                    AddressingReadMemoryTasks {
                        step: AddressingReadMemoryStep::Done,
                        value: Some(mem_at(mem, a)),
                        ..*self
                    },
                    cpu,
                    mem_after_read(mem, a),
                    true,
                )
            },
            AddressingReadMemoryStep::Done => (*self, cpu, mem, true),
        }
    }

    open spec fn remaining(&self) -> nat {
        match self.step {
            AddressingReadMemoryStep::AddressCalculation => self.addressing_tasks.remaining() + 1,
            AddressingReadMemoryStep::SeparateMemoryAccess => 1,
            AddressingReadMemoryStep::Done => 0,
        }
    }

    fn done(&self) -> (r: bool) {
        self.step == AddressingReadMemoryStep::Done
    }

    fn tick(&mut self, cpu: &mut CPU, memory: &mut Generic64kMem) -> (r: bool) {
        match self.step {
            AddressingReadMemoryStep::AddressCalculation => {
                let mut addressing_done = false;
                proof {
                    self.addressing_tasks.lemma_finishes_with_address(*cpu, memory@);
                }
                if !self.addressing_tasks.done() {
                    addressing_done = self.addressing_tasks.tick(cpu, memory);
                }
                if !addressing_done {
                    return addressing_done;
                }
                if !self.access_during_addressing {
                    self.step = AddressingReadMemoryStep::SeparateMemoryAccess;
                    return false;
                }
                self.access_memory(cpu, memory);
                self.step = AddressingReadMemoryStep::Done;
                addressing_done
            },
            AddressingReadMemoryStep::SeparateMemoryAccess => {
                self.access_memory(cpu, memory);
                self.step = AddressingReadMemoryStep::Done;
                true
            },
            AddressingReadMemoryStep::Done => {
                true
            },
        }
    }

    proof fn lemma_next(&self, cpu: CPU, mem: MemView) {
        if self.step == AddressingReadMemoryStep::AddressCalculation {
            self.addressing_tasks.lemma_next(cpu, mem);
            self.addressing_tasks.lemma_finishes_with_address(cpu, mem);
        }
    }

    proof fn lemma_next_ignores_last_access(&self, cpu: CPU, m1: MemView, m2: MemView) {
        if self.step == AddressingReadMemoryStep::AddressCalculation {
            self.addressing_tasks.lemma_next_ignores_last_access(cpu, m1, m2);
        }
    }
}

/// Reads the byte at the program counter (immediate operand) in one cycle.
pub struct ImmediateReadMemoryTasks {
    pub done: bool,
    pub value: Option<Byte>,
}

impl ImmediateReadMemoryTasks {
    pub open spec fn fresh() -> Self {
        ImmediateReadMemoryTasks { done: false, value: None }
    }

    pub fn new() -> (r: Self)
        ensures
            r == Self::fresh(),
    {
        ImmediateReadMemoryTasks { done: false, value: None }
    }
}

impl ReadMemoryTasks for ImmediateReadMemoryTasks {
    open spec fn spec_value(&self) -> Option<Byte> {
        self.value
    }

    fn value(&self) -> (r: Option<Byte>) {
        self.value
    }

    proof fn lemma_value_on_finish(&self, cpu: CPU, mem: MemView) {
    }
}

impl Tasks for ImmediateReadMemoryTasks {
    open spec fn is_done(&self) -> bool {
        self.done
    }

    open spec fn can_tick(&self, addr: Address) -> bool {
        !self.done
    }

    open spec fn next(&self, cpu: CPU, mem: MemView) -> (Self, CPU, MemView, bool) {
        let pc = cpu.program_counter;
        let a = Address::cleared(AddressingMode::Immediate, false).with_val(pc).finished();
        (
            ImmediateReadMemoryTasks { done: true, value: Some(mem_at(mem, pc)) },
            cpu.with_addr(a).pc_incremented(),
            mem_after_read(mem, pc),
            true,
        )
    }

    open spec fn remaining(&self) -> nat {
        if self.done {
            0
        } else {
            1
        }
    }

    fn done(&self) -> (r: bool) {
        self.done
    }

    fn tick(&mut self, cpu: &mut CPU, memory: &mut Generic64kMem) -> (r: bool) {
        let pc: Word = cpu.program_counter;
        cpu.addr.reset(AddressingMode::Immediate);
        cpu.addr.set(pc);
        self.value = Some(memory.read(pc));
        cpu.increment_program_counter();
        cpu.addr.done = true;
        self.done = true;
        true
    }

    proof fn lemma_next(&self, cpu: CPU, mem: MemView) {
    }

    proof fn lemma_next_ignores_last_access(&self, cpu: CPU, m1: MemView, m2: MemView) {
    }
}

/// An addressed read runs in step with its addressing. If the addressing tasks `a` take
/// exactly `k` cycles from `(cpu, mem)` and end at address `x`, the read finishes with the
/// byte at `x` (as memory stands after the addressing) in the same `k` cycles when it reads
/// during addressing, and in `k + 1` when it reads in a cycle of its own; until then it has
/// no value and is not done. It writes nothing: memory only records the read of `x`.
#[verifier::rlimit(40)]
pub proof fn lemma_addressed_read(
    a: AnyAddressingTasks,
    during: bool,
    cpu: CPU,
    mem: MemView,
    k: nat,
)
    requires
        !a.is_done(),
        a.can_tick(cpu.addr),
        mem.0.len() == MEMORY_SIZE,
        0 < k,
        run(a, cpu, mem, k).0.is_done(),
        !run(a, cpu, mem, (k - 1) as nat).0.is_done(),
    ensures
        ({
            let ar = run(a, cpu, mem, k);
            let x = ar.1.addr.val->0;
            let t = AddressingReadMemoryTasks::fresh(a, during);
            let total: nat = if during {
                k
            } else {
                k + 1
            };
            let rr = run(t, cpu, mem, total);
            &&& ar.1.addr.val is Some
            &&& rr.0.is_done()
            &&& rr.0.value == Some(mem_at(ar.2, x))
            &&& rr.1 == (if during {
                ar.1
            } else {
                CPU { cycle: (ar.1.cycle + 1) as usize, ..ar.1 }
            })
            &&& rr.2 == mem_after_read(ar.2, x)
            &&& forall|j: nat|
                j < total ==> !(#[trigger] run(t, cpu, mem, j)).0.is_done() && run(
                    t,
                    cpu,
                    mem,
                    j,
                ).0.value is None
        }),
    decreases k,
{
    a.lemma_next(cpu, mem);
    a.lemma_finishes_with_address(cpu, mem);
    let t = AddressingReadMemoryTasks::fresh(a, during);
    let total: nat = if during {
        k
    } else {
        k + 1
    };
    let n = a.next(cpu, mem);
    let c1 = CPU { cycle: (n.1.cycle + 1) as usize, ..n.1 };
    lemma_run_step(a, cpu, mem, k);
    lemma_run_step(t, cpu, mem, total);
    let s1 = stepped(t, cpu, mem);
    if n.3 {
        lemma_run_done(n.0, c1, n.2, (k - 1) as nat);
        if k > 1 {
            lemma_run_step(a, cpu, mem, (k - 1) as nat);
            lemma_run_done(n.0, c1, n.2, (k - 2) as nat);
        }
        assert(k == 1);
        if during {
            lemma_run_done(s1.0, s1.1, s1.2, 0);
        } else {
            lemma_run_step(s1.0, s1.1, s1.2, 1);
            let s2 = stepped(s1.0, s1.1, s1.2);
            lemma_run_done(s2.0, s2.1, s2.2, 0);
        }
        assert forall|j: nat| j < total implies !(#[trigger] run(t, cpu, mem, j)).0.is_done()
            && run(t, cpu, mem, j).0.value is None by {
            if j > 0 {
                lemma_run_step(t, cpu, mem, j);
                assert(run(s1.0, s1.1, s1.2, 0) == s1);
            }
        }
    } else {
        if k == 1 {
            lemma_run_done(n.0, c1, n.2, 0);
        }
        lemma_run_step(a, cpu, mem, (k - 1) as nat);
        assert(s1.0 == AddressingReadMemoryTasks::fresh(n.0, during));
        lemma_addressed_read(n.0, during, c1, n.2, (k - 1) as nat);
        assert forall|j: nat| j < total implies !(#[trigger] run(t, cpu, mem, j)).0.is_done()
            && run(t, cpu, mem, j).0.value is None by {
            if j > 0 {
                lemma_run_step(t, cpu, mem, j);
                assert(run(t, cpu, mem, j) == run(s1.0, s1.1, s1.2, (j - 1) as nat));
            }
        }
    }
}

/// Either kind of operand read.
pub enum AnyReadMemoryTasks {
    Addressing(AddressingReadMemoryTasks),
    Immediate(ImmediateReadMemoryTasks),
}

impl ReadMemoryTasks for AnyReadMemoryTasks {
    open spec fn spec_value(&self) -> Option<Byte> {
        match self {
            AnyReadMemoryTasks::Addressing(t) => t.spec_value(),
            AnyReadMemoryTasks::Immediate(t) => t.spec_value(),
        }
    }

    fn value(&self) -> (r: Option<Byte>) {
        match self {
            AnyReadMemoryTasks::Addressing(t) => t.value(),
            AnyReadMemoryTasks::Immediate(t) => t.value(),
        }
    }

    proof fn lemma_value_on_finish(&self, cpu: CPU, mem: MemView) {
        match self {
            AnyReadMemoryTasks::Addressing(t) => t.lemma_value_on_finish(cpu, mem),
            AnyReadMemoryTasks::Immediate(t) => t.lemma_value_on_finish(cpu, mem),
        }
    }
}

impl Tasks for AnyReadMemoryTasks {
    open spec fn is_done(&self) -> bool {
        match self {
            AnyReadMemoryTasks::Addressing(t) => t.is_done(),
            AnyReadMemoryTasks::Immediate(t) => t.is_done(),
        }
    }

    open spec fn can_tick(&self, addr: Address) -> bool {
        match self {
            AnyReadMemoryTasks::Addressing(t) => t.can_tick(addr),
            AnyReadMemoryTasks::Immediate(t) => t.can_tick(addr),
        }
    }

    open spec fn next(&self, cpu: CPU, mem: MemView) -> (Self, CPU, MemView, bool) {
        match self {
            AnyReadMemoryTasks::Addressing(t) => {
                let n = t.next(cpu, mem);
                (AnyReadMemoryTasks::Addressing(n.0), n.1, n.2, n.3)
            },
            AnyReadMemoryTasks::Immediate(t) => {
                let n = t.next(cpu, mem);
                (AnyReadMemoryTasks::Immediate(n.0), n.1, n.2, n.3)
            },
        }
    }

    open spec fn remaining(&self) -> nat {
        match self {
            AnyReadMemoryTasks::Addressing(t) => t.remaining(),
            AnyReadMemoryTasks::Immediate(t) => t.remaining(),
        }
    }

    fn done(&self) -> (r: bool) {
        match self {
            AnyReadMemoryTasks::Addressing(t) => t.done(),
            AnyReadMemoryTasks::Immediate(t) => t.done(),
        }
    }

    fn tick(&mut self, cpu: &mut CPU, memory: &mut Generic64kMem) -> (r: bool) {
        match self {
            AnyReadMemoryTasks::Addressing(t) => t.tick(cpu, memory),
            AnyReadMemoryTasks::Immediate(t) => t.tick(cpu, memory),
        }
    }

    proof fn lemma_next(&self, cpu: CPU, mem: MemView) {
        match self {
            AnyReadMemoryTasks::Addressing(t) => t.lemma_next(cpu, mem),
            AnyReadMemoryTasks::Immediate(t) => t.lemma_next(cpu, mem),
        }
    }

    proof fn lemma_next_ignores_last_access(&self, cpu: CPU, m1: MemView, m2: MemView) {
        match self {
            AnyReadMemoryTasks::Addressing(t) => t.lemma_next_ignores_last_access(cpu, m1, m2),
            AnyReadMemoryTasks::Immediate(t) => t.lemma_next_ignores_last_access(cpu, m1, m2),
        }
    }
}

/// Running an `Addressing` read as any read is running it.
pub proof fn lemma_run_any_read_addressing(t: AddressingReadMemoryTasks, cpu: CPU, mem: MemView, fuel: nat)
    ensures
        run(AnyReadMemoryTasks::Addressing(t), cpu, mem, fuel) == (
            AnyReadMemoryTasks::Addressing(run(t, cpu, mem, fuel).0),
            run(t, cpu, mem, fuel).1,
            run(t, cpu, mem, fuel).2,
        ),
    decreases fuel,
{
    if fuel > 0 && !t.is_done() {
        lemma_run_step(AnyReadMemoryTasks::Addressing(t), cpu, mem, fuel);
        lemma_run_step(t, cpu, mem, fuel);
        let s = stepped(t, cpu, mem);
        lemma_run_any_read_addressing(s.0, s.1, s.2, (fuel - 1) as nat);
    }
}

/// Running an `Immediate` read as any read is running it.
pub proof fn lemma_run_any_read_immediate(t: ImmediateReadMemoryTasks, cpu: CPU, mem: MemView, fuel: nat)
    ensures
        run(AnyReadMemoryTasks::Immediate(t), cpu, mem, fuel) == (
            AnyReadMemoryTasks::Immediate(run(t, cpu, mem, fuel).0),
            run(t, cpu, mem, fuel).1,
            run(t, cpu, mem, fuel).2,
        ),
    decreases fuel,
{
    if fuel > 0 && !t.is_done() {
        lemma_run_step(AnyReadMemoryTasks::Immediate(t), cpu, mem, fuel);
        lemma_run_step(t, cpu, mem, fuel);
        let s = stepped(t, cpu, mem);
        lemma_run_any_read_immediate(s.0, s.1, s.2, (fuel - 1) as nat);
    }
}

} // verus!
