use crate::consts::{Byte, Word};
use crate::cpu::addressing::address::Address;
use crate::cpu::addressing::{offset_value, AddressingMode, AddressingTasks, OffsetVariant};
use crate::cpu::tasks::{lemma_run_done, lemma_run_step, run, stepped, Tasks};
use crate::cpu::{add16, add8, CPU};
use crate::memory::{mem_after_read, mem_at, Generic64kMem, MemView, Memory, MEMORY_SIZE};
use vstd::prelude::*;

verus! {

/// Zero page addressing: the operand byte is the address (one cycle).
pub struct ZeroPageAddressingTasks {
    pub done: bool,
}

impl ZeroPageAddressingTasks {
    pub open spec fn fresh() -> Self {
        ZeroPageAddressingTasks { done: false }
    }

    pub fn new() -> (r: Self)
        ensures
            r == Self::fresh(),
    {
        ZeroPageAddressingTasks { done: false }
    }
}

impl AddressingTasks for ZeroPageAddressingTasks {
    open spec fn spec_fetch_during_addressing(&self) -> bool {
        false
    }

    fn fetch_during_addressing(&self) -> (r: bool) {
        false
    }

    proof fn lemma_finishes_with_address(&self, cpu: CPU, mem: MemView) {
    }
}

impl Tasks for ZeroPageAddressingTasks {
    open spec fn is_done(&self) -> bool {
        self.done
    }

    open spec fn can_tick(&self, addr: Address) -> bool {
        true
    }

    open spec fn next(&self, cpu: CPU, mem: MemView) -> (Self, CPU, MemView, bool) {
        if self.done {
            (*self, cpu, mem, true)
        } else {
            let pc = cpu.program_counter;
            let a = Address::cleared(AddressingMode::ZeroPage, false).with_val(
                mem_at(mem, pc) as Word,
            ).finished();
            (ZeroPageAddressingTasks { done: true }, cpu.with_addr(a).pc_incremented(), mem_after_read(mem, pc), true)
        }
    }

    open spec fn remaining(&self) -> nat {
        if self.done {
            0
        } else {
            1
        }
    }

    fn done(&self) -> (r: bool) {
        self.done
    }

    fn tick(&mut self, cpu: &mut CPU, memory: &mut Generic64kMem) -> (r: bool) {
        if self.done {
            return self.done;
        }
        cpu.addr.reset(AddressingMode::ZeroPage);
        let addr: Byte = memory.read(cpu.program_counter);
        cpu.addr.set(addr as Word);
        cpu.increment_program_counter();
        cpu.addr.done = true;
        self.done = true;
        self.done
    }

    proof fn lemma_next(&self, cpu: CPU, mem: MemView) {
    }

    proof fn lemma_next_ignores_last_access(&self, cpu: CPU, m1: MemView, m2: MemView) {
    }
}

/// Progress of zero page indexed addressing.
#[derive(PartialEq, Eq, Structural)]
pub enum ZeroPageOffsetStep {
    ZeroPageAccess,
    Offset,
    Done,
}

/// Zero page indexed addressing: the operand byte plus an index register,
/// wrapping within the zero page (two cycles).
pub struct ZeroPageOffsetAddressingTasks {
    pub step: ZeroPageOffsetStep,
    pub variant: OffsetVariant,
}

impl ZeroPageOffsetAddressingTasks {
    pub open spec fn fresh(variant: OffsetVariant) -> Self {
        ZeroPageOffsetAddressingTasks { step: ZeroPageOffsetStep::ZeroPageAccess, variant }
    }

    pub fn new_offset_by_x() -> (r: Self)
        ensures
            r == Self::fresh(OffsetVariant::X),
    {
        ZeroPageOffsetAddressingTasks {
            step: ZeroPageOffsetStep::ZeroPageAccess,
            variant: OffsetVariant::X,
        }
    }

    pub fn new_offset_by_y() -> (r: Self)
        ensures
            r == Self::fresh(OffsetVariant::Y),
    {
        ZeroPageOffsetAddressingTasks {
            step: ZeroPageOffsetStep::ZeroPageAccess,
            variant: OffsetVariant::Y,
        }
    }
}

/// The addressing mode an offset variant gives zero page indexing.
pub open spec fn zero_page_mode(variant: OffsetVariant) -> AddressingMode {
    match variant {
        OffsetVariant::X => AddressingMode::ZeroPageX,
        OffsetVariant::Y => AddressingMode::ZeroPageY,
    }
}

impl AddressingTasks for ZeroPageOffsetAddressingTasks {
    open spec fn spec_fetch_during_addressing(&self) -> bool {
        false
    }

    fn fetch_during_addressing(&self) -> (r: bool) {
        false
    }

    proof fn lemma_finishes_with_address(&self, cpu: CPU, mem: MemView) {
    }
}

impl Tasks for ZeroPageOffsetAddressingTasks {
    open spec fn is_done(&self) -> bool {
        self.step == ZeroPageOffsetStep::Done
    }

    open spec fn can_tick(&self, addr: Address) -> bool {
        match self.step {
            ZeroPageOffsetStep::ZeroPageAccess => true,
            ZeroPageOffsetStep::Offset => addr.val is Some,
            ZeroPageOffsetStep::Done => false,
        }
    }

    open spec fn next(&self, cpu: CPU, mem: MemView) -> (Self, CPU, MemView, bool) {
        match self.step {
            ZeroPageOffsetStep::ZeroPageAccess => {
                let pc = cpu.program_counter;
                let a = Address::cleared(zero_page_mode(self.variant), false).with_val(
                    mem_at(mem, pc) as Word,
                );
                (
                    ZeroPageOffsetAddressingTasks { step: ZeroPageOffsetStep::Offset, ..*self },
                    cpu.with_addr(a).pc_incremented(),
                    mem_after_read(mem, pc),
                    false,
                )
            },
            _ => {
                let base = cpu.addr.val->0 as u8;
                let target = add8(base, offset_value(cpu, self.variant));
                (
                    ZeroPageOffsetAddressingTasks { step: ZeroPageOffsetStep::Done, ..*self },
                    cpu.with_addr(cpu.addr.with_val(target as Word).finished()),
                    mem_after_read(mem, base as Word),
                    true,
                )
            },
        }
    }

    open spec fn remaining(&self) -> nat {
        match self.step {
            ZeroPageOffsetStep::ZeroPageAccess => 2,
            ZeroPageOffsetStep::Offset => 1,
            ZeroPageOffsetStep::Done => 0,
        }
    }

    fn done(&self) -> (r: bool) {
        self.step == ZeroPageOffsetStep::Done
    }

    fn tick(&mut self, cpu: &mut CPU, memory: &mut Generic64kMem) -> (r: bool) {
        match self.step {
            ZeroPageOffsetStep::ZeroPageAccess => {
                match self.variant {
                    OffsetVariant::X => cpu.addr.reset(AddressingMode::ZeroPageX),
                    OffsetVariant::Y => cpu.addr.reset(AddressingMode::ZeroPageY),
                }
                let addr: Byte = memory.read(cpu.program_counter);
                cpu.addr.set(addr as Word);
                cpu.increment_program_counter();
                self.step = ZeroPageOffsetStep::Offset;
                false
            },
            ZeroPageOffsetStep::Offset => {
                let offset: Byte = match self.variant {
                    OffsetVariant::X => cpu.index_register_x,
                    OffsetVariant::Y => cpu.index_register_y,
                };
                let addr_output = cpu.addr.value().unwrap() as Byte;
                let _ = memory.read(addr_output as Word);  // dummy fetch from address
                let final_address = addr_output.wrapping_add(offset);
                cpu.addr.set(final_address as Word);
                cpu.addr.done = true;
                self.step = ZeroPageOffsetStep::Done;
                true
            },
            ZeroPageOffsetStep::Done => {
                true
            },
        }
    }

    proof fn lemma_next(&self, cpu: CPU, mem: MemView) {
    }

    proof fn lemma_next_ignores_last_access(&self, cpu: CPU, m1: MemView, m2: MemView) {
    }
}


/// Zero page indexed addressing stays in the zero page: the effective address is the
/// operand plus the index register, modulo 256, found in two cycles after one operand byte.
pub proof fn lemma_zero_page_indexed(variant: OffsetVariant, cpu: CPU, mem: MemView)
    requires
        mem.0.len() == MEMORY_SIZE,
        cpu.cycle + 2 < usize::MAX,
    ensures
        ({
            let fresh = ZeroPageOffsetAddressingTasks {
                step: ZeroPageOffsetStep::ZeroPageAccess,
                variant,
            };
            let r = run(fresh, cpu, mem, 2);
            let target = add8(mem_at(mem, cpu.program_counter), offset_value(cpu, variant));
            &&& r.0.is_done()
            &&& r.1.addr.val == Some(target as Word)
            &&& r.1.addr.done
            &&& r.1 == (CPU {
                addr: r.1.addr,
                program_counter: r.1.program_counter,
                cycle: r.1.cycle,
                ..cpu
            })
            &&& r.1.program_counter == add16(cpu.program_counter, 1)
            &&& r.2.0 == mem.0
            &&& r.1.cycle == cpu.cycle + 2
        }),
{
    let t0 = ZeroPageOffsetAddressingTasks { step: ZeroPageOffsetStep::ZeroPageAccess, variant };
    let s1 = stepped(t0, cpu, mem);
    lemma_run_step(t0, cpu, mem, 2);
    let s2 = stepped(s1.0, s1.1, s1.2);
    lemma_run_step(s1.0, s1.1, s1.2, 1);
    lemma_run_done(s2.0, s2.1, s2.2, 0);
}

} // verus!
