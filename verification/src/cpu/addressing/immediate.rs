use crate::consts::Word;
use crate::cpu::addressing::address::Address;
use crate::cpu::addressing::{AddressingMode, AddressingTasks};
use crate::cpu::tasks::Tasks;
use crate::cpu::CPU;
use crate::memory::{Generic64kMem, MemView};
use vstd::prelude::*;

verus! {

/// Immediate addressing: the operand is the byte at the program counter (one cycle).
pub struct ImmediateAddressingTasks {
    pub done: bool,
}

impl ImmediateAddressingTasks {
    pub open spec fn fresh() -> Self {
        ImmediateAddressingTasks { done: false }
    }

    pub fn new() -> (r: Self)
        ensures
            r == Self::fresh(),
    {
        ImmediateAddressingTasks { done: false }
    }
}

impl AddressingTasks for ImmediateAddressingTasks {
    open spec fn spec_fetch_during_addressing(&self) -> bool {
        false
    }

    fn fetch_during_addressing(&self) -> (r: bool) {
        false
    }

    proof fn lemma_finishes_with_address(&self, cpu: CPU, mem: MemView) {
    }
}

impl Tasks for ImmediateAddressingTasks {
    open spec fn is_done(&self) -> bool {
        self.done
    }

    open spec fn can_tick(&self, addr: Address) -> bool {
        true
    }

    open spec fn next(&self, cpu: CPU, mem: MemView) -> (Self, CPU, MemView, bool) {
        if self.done {
            (*self, cpu, mem, true)
        } else {
            let a = Address::cleared(AddressingMode::Immediate, false).with_val(
                cpu.program_counter,
            ).finished();
            (ImmediateAddressingTasks { done: true }, cpu.with_addr(a).pc_incremented(), mem, true)
        }
    }

    open spec fn remaining(&self) -> nat {
        if self.done {
            0
        } else {
            1
        }
    }

    fn done(&self) -> (r: bool) {
        self.done
    }

    fn tick(&mut self, cpu: &mut CPU, memory: &mut Generic64kMem) -> (r: bool) {
        if self.done {
            return self.done;
        }
        let addr: Word = cpu.program_counter;
        cpu.addr.reset(AddressingMode::Immediate);
        cpu.addr.set(addr);
        cpu.increment_program_counter();
        cpu.addr.done = true;
        self.done = true;
        self.done
    }

    proof fn lemma_next(&self, cpu: CPU, mem: MemView) {
    }

    proof fn lemma_next_ignores_last_access(&self, cpu: CPU, m1: MemView, m2: MemView) {
    }
}

} // verus!
