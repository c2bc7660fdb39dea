use crate::cpu::tasks::Tasks;
use crate::cpu::{Registers, CPU};
use crate::memory::{mem_after_read, Generic64kMem, MemView};
use crate::cpu::addressing::address::Address;
use vstd::prelude::*;

verus! {

/// Copies one register into another in one cycle (`TAX`, `TXS`, ...); the
/// destination's flags update as `set_register` describes.
pub struct TransferRegistersTasks {
    pub src: Registers,
    pub tgt: Registers,
    pub done: bool,
}

impl TransferRegistersTasks {
    pub open spec fn fresh(src: Registers, tgt: Registers) -> Self {
        TransferRegistersTasks { src, tgt, done: false }
    }

    pub fn new(src: Registers, tgt: Registers) -> (r: Self)
        ensures
            r == Self::fresh(src, tgt),
    {
        TransferRegistersTasks { src, tgt, done: false }
    }
}

impl Tasks for TransferRegistersTasks {
    open spec fn is_done(&self) -> bool {
        self.done
    }

    open spec fn can_tick(&self, addr: Address) -> bool {
        !self.done
    }

    closed spec fn next(&self, cpu: CPU, mem: MemView) -> (Self, CPU, MemView, bool) {
        self.step(cpu, mem)
    }

    open spec fn remaining(&self) -> nat {
        if self.done {
            0
        } else {
            1
        }
    }

    fn done(&self) -> (r: bool) {
        self.done
    }

    fn tick(&mut self, cpu: &mut CPU, memory: &mut Generic64kMem) -> (r: bool) {
        cpu.dummy_fetch(memory);
        cpu.transfer_registers(self.src, self.tgt);
        self.done = true;
        self.done
    }

    proof fn lemma_next(&self, cpu: CPU, mem: MemView) {
    }

    proof fn lemma_next_ignores_last_access(&self, cpu: CPU, m1: MemView, m2: MemView) {
    }
}

impl TransferRegistersTasks {
    /// One cycle of this work: the work, processor and memory after it, and whether
    /// the work is finished.
    pub open spec fn step(&self, cpu: CPU, mem: MemView) -> (Self, CPU, MemView, bool) {
        (
            TransferRegistersTasks { done: true, ..*self },
            cpu.with_transfer(self.src, self.tgt),
            mem_after_read(mem, cpu.program_counter),
            true,
        )
    }

    /// `next` is `step`.
    pub proof fn lemma_next_is_step(&self, cpu: CPU, mem: MemView)
        ensures
            self.next(cpu, mem) == self.step(cpu, mem),
    {
    }
}

} // verus!
