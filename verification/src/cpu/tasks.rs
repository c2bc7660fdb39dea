use crate::cpu::CPU;
use crate::memory::{Generic64kMem, MemView, MEMORY_SIZE};
use crate::cpu::addressing::address::Address;
use vstd::prelude::*;

pub mod modify_memory;
pub mod modify_register;
pub mod read_memory;
pub mod transfer_register;

verus! {

/// Work spread over clock cycles: each `tick` performs one cycle of it.
///
/// `next` is the cycle-level model: the state of the work, of the processor and
/// of the memory after one cycle, and whether the work has finished.
pub trait Tasks: Sized {
    /// Whether every cycle of the work has run.
    spec fn is_done(&self) -> bool;

    /// Whether one more cycle may run on a processor in state `cpu`.
    spec fn can_tick(&self, addr: Address) -> bool;

    /// The outcome of one cycle.
    spec fn next(&self, cpu: CPU, mem: MemView) -> (Self, CPU, MemView, bool);

    /// An upper bound on the cycles still to run.
    spec fn remaining(&self) -> nat;

    /// Whether every cycle of the work has run.
    fn done(&self) -> (r: bool)
        ensures
            r == self.is_done(),
    ;

    /// Runs one cycle; returns whether the work has finished.
    fn tick(&mut self, cpu: &mut CPU, memory: &mut Generic64kMem) -> (r: bool)
        requires
            old(self).can_tick(old(cpu).addr),
            old(memory).wf(),
        ensures
            final(memory).wf(),
            *final(self) == old(self).next(*old(cpu), old(memory)@).0,
            *final(cpu) == old(self).next(*old(cpu), old(memory)@).1,
            final(memory)@ == old(self).next(*old(cpu), old(memory)@).2,
            r == old(self).next(*old(cpu), old(memory)@).3,
    ;

    /// Every cycle reports truthfully whether the work is finished, brings the work
    /// strictly closer to its end, leaves it ready for the next cycle, keeps the
    /// size of memory, and touches neither the cycle counter nor the scheduled instruction.
    proof fn lemma_next(&self, cpu: CPU, mem: MemView)
        requires
            self.can_tick(cpu.addr),
            mem.0.len() == MEMORY_SIZE,
        ensures
            self.next(cpu, mem).3 == self.next(cpu, mem).0.is_done(),
            !self.is_done() ==> self.next(cpu, mem).0.remaining() < self.remaining(),
            !self.next(cpu, mem).3 ==> self.next(cpu, mem).0.can_tick(self.next(cpu, mem).1.addr),
            self.next(cpu, mem).2.0.len() == MEMORY_SIZE,
            self.next(cpu, mem).1.cycle == cpu.cycle,
            self.next(cpu, mem).1.current_instruction == cpu.current_instruction,
            self.next(cpu, mem).1.chip_variant == cpu.chip_variant,
            self.next(cpu, mem).1.sync == cpu.sync,
    ;

    /// A cycle does not depend on which access the memory saw last: from the same bytes
    /// it gives the same work, processor, bytes and answer.
    proof fn lemma_next_ignores_last_access(&self, cpu: CPU, m1: MemView, m2: MemView)
        requires
            m1.0 == m2.0,
        ensures
            self.next(cpu, m1).0 == self.next(cpu, m2).0,
            self.next(cpu, m1).1 == self.next(cpu, m2).1,
            self.next(cpu, m1).2.0 == self.next(cpu, m2).2.0,
            self.next(cpu, m1).3 == self.next(cpu, m2).3,
    ;
}

/// The outcome of running `t` cycle after cycle until it is done, for at most `fuel`
/// cycles, with the processor's cycle counter advanced once per cycle.
pub open spec fn run<T: Tasks>(t: T, cpu: CPU, mem: MemView, fuel: nat) -> (T, CPU, MemView)
    decreases fuel,
{
    if fuel == 0 || t.is_done() {
        (t, cpu, mem)
    } else {
        let n = t.next(cpu, mem);
        run(n.0, CPU { cycle: (n.1.cycle + 1) as usize, ..n.1 }, n.2, (fuel - 1) as nat)
    }
}

/// One cycle of `run`: the processor after the cycle, with its counter advanced.
pub open spec fn stepped<T: Tasks>(t: T, cpu: CPU, mem: MemView) -> (T, CPU, MemView) {
    let n = t.next(cpu, mem);
    (n.0, CPU { cycle: (n.1.cycle + 1) as usize, ..n.1 }, n.2)
}

/// Running unfinished work for `fuel` cycles is one cycle followed by `fuel - 1` more.
pub proof fn lemma_run_step<T: Tasks>(t: T, cpu: CPU, mem: MemView, fuel: nat)
    requires
        fuel > 0,
        !t.is_done(),
    ensures
        run(t, cpu, mem, fuel) == run(
            stepped(t, cpu, mem).0,
            stepped(t, cpu, mem).1,
            stepped(t, cpu, mem).2,
            (fuel - 1) as nat,
        ),
{
}

/// Finished work stays as it is.
pub proof fn lemma_run_done<T: Tasks>(t: T, cpu: CPU, mem: MemView, fuel: nat)
    requires
        t.is_done(),
    ensures
        run(t, cpu, mem, fuel) == (t, cpu, mem),
{
}

/// Work that can run keeps the size of memory, however long it runs.
pub proof fn lemma_run_keeps_size<T: Tasks>(t: T, cpu: CPU, mem: MemView, fuel: nat)
    requires
        !t.is_done() ==> t.can_tick(cpu.addr),
        mem.0.len() == MEMORY_SIZE,
    ensures
        run(t, cpu, mem, fuel).2.0.len() == MEMORY_SIZE,
    decreases fuel,
{
    if fuel > 0 && !t.is_done() {
        t.lemma_next(cpu, mem);
        lemma_run_step(t, cpu, mem, fuel);
        let s = stepped(t, cpu, mem);
        lemma_run_keeps_size(s.0, s.1, s.2, (fuel - 1) as nat);
    }
}

/// Work that can run and is done after `fuel` cycles finished after exactly as many
/// cycles as the cycle counter advanced by, and was not done one cycle earlier.
pub proof fn lemma_run_exact<T: Tasks>(t: T, cpu: CPU, mem: MemView, fuel: nat)
    requires
        !t.is_done(),
        t.can_tick(cpu.addr),
        mem.0.len() == MEMORY_SIZE,
        cpu.cycle + fuel < usize::MAX,
        run(t, cpu, mem, fuel).0.is_done(),
    ensures
        ({
            let k = (run(t, cpu, mem, fuel).1.cycle - cpu.cycle) as nat;
            &&& 0 < k <= fuel
            &&& run(t, cpu, mem, fuel).1.cycle == cpu.cycle + k
            &&& run(t, cpu, mem, k) == run(t, cpu, mem, fuel)
            &&& !run(t, cpu, mem, (k - 1) as nat).0.is_done()
        }),
    decreases fuel,
{
    t.lemma_next(cpu, mem);
    assert(fuel > 0);
    lemma_run_step(t, cpu, mem, fuel);
    let s = stepped(t, cpu, mem);
    lemma_run_step(t, cpu, mem, 1);
    if s.0.is_done() {
        lemma_run_done(s.0, s.1, s.2, (fuel - 1) as nat);
    } else {
        lemma_run_exact(s.0, s.1, s.2, (fuel - 1) as nat);
        let k = (run(t, cpu, mem, fuel).1.cycle - cpu.cycle) as nat;
        lemma_run_step(t, cpu, mem, k);
        if k > 1 {
            lemma_run_step(t, cpu, mem, (k - 1) as nat);
        }
    }
}

} // verus!
