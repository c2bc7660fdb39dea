use crate::consts::{spec_hi, spec_lo, spec_word, word_from_le_bytes, Byte};
use crate::cpu::addressing::absolute::AbsoluteAddressingTasks;
use crate::cpu::addressing::address::Address;
use crate::cpu::addressing::indirect::IndirectAddressingTasks;
use crate::cpu::addressing::{AddressingMode, AddressingTasks, AnyAddressingTasks};
use crate::cpu::instructions::InstructionTasks;
use crate::cpu::tasks::{lemma_run_done, lemma_run_step, run, stepped, Tasks};
use crate::cpu::{add16, add8, sub8, ChipVariant, CPU};
use crate::memory::{
    mem_after_read, mem_after_write, mem_at, Generic64kMem, MemView, Memory, MEMORY_SIZE,
};
use vstd::prelude::*;

verus! {

/// Progress of `JSR`.
#[derive(PartialEq, Eq, Structural)]
pub enum JsrSteps {
    LoAddressFetch,
    FetchStack,
    PushProgramCounterHi,
    PushProgramCounterLo,
    HiAddressFetch,
    Done,
}

/// `JSR abs`: pushes the address of the operand's last byte (high byte first)
/// and jumps to the operand, in five cycles.
pub struct JsrTasks {
    pub step: JsrSteps,
    pub lo_addr: Option<Byte>,
}

impl JsrTasks {
    pub open spec fn fresh() -> Self {
        JsrTasks { step: JsrSteps::LoAddressFetch, lo_addr: None }
    }

    pub fn new() -> (r: Self)
        ensures
            r == Self::fresh(),
    {
        JsrTasks { step: JsrSteps::LoAddressFetch, lo_addr: None }
    }
}

impl Tasks for JsrTasks {
    open spec fn is_done(&self) -> bool {
        self.step == JsrSteps::Done
    }

    open spec fn can_tick(&self, addr: Address) -> bool {
        self.step != JsrSteps::Done && (self.step != JsrSteps::LoAddressFetch
            ==> self.lo_addr is Some)
    }

    closed spec fn next(&self, cpu: CPU, mem: MemView) -> (Self, CPU, MemView, bool) {
        self.step(cpu, mem)
    }

    open spec fn remaining(&self) -> nat {
        match self.step {
            JsrSteps::LoAddressFetch => 5,
            JsrSteps::FetchStack => 4,
            JsrSteps::PushProgramCounterHi => 3,
            JsrSteps::PushProgramCounterLo => 2,
            JsrSteps::HiAddressFetch => 1,
            JsrSteps::Done => 0,
        }
    }

    fn done(&self) -> (r: bool) {
        self.step == JsrSteps::Done
    }

    fn tick(&mut self, cpu: &mut CPU, memory: &mut Generic64kMem) -> (r: bool) {
        match self.step {
            JsrSteps::LoAddressFetch => {
                self.lo_addr = Some(memory.read(cpu.program_counter));
                cpu.increment_program_counter();
                self.step = JsrSteps::FetchStack;
                false
            },
            JsrSteps::FetchStack => {
                let _ = memory.read(cpu.get_stack_ptr_address());  // dummy fetch
                self.step = JsrSteps::PushProgramCounterHi;
                false
            },
            JsrSteps::PushProgramCounterHi => {
                let ret_program_counter_hi = cpu.get_program_counter_hi();
                memory.write(cpu.get_stack_ptr_address(), ret_program_counter_hi);
                cpu.stack_pointer = cpu.stack_pointer.wrapping_sub(1);
                self.step = JsrSteps::PushProgramCounterLo;
                false
            },
            JsrSteps::PushProgramCounterLo => {
                let ret_program_counter_lo = cpu.get_program_counter_lo();
                memory.write(cpu.get_stack_ptr_address(), ret_program_counter_lo);
                cpu.stack_pointer = cpu.stack_pointer.wrapping_sub(1);
                self.step = JsrSteps::HiAddressFetch;
                false
            },
            JsrSteps::HiAddressFetch => {
                let lo_addr = self.lo_addr.unwrap();
                let hi_addr = memory.read(cpu.program_counter);
                cpu.program_counter = word_from_le_bytes(lo_addr, hi_addr);
                self.step = JsrSteps::Done;
                true
            },
            JsrSteps::Done => true,
        }
    }

    proof fn lemma_next(&self, cpu: CPU, mem: MemView) {
    }

    proof fn lemma_next_ignores_last_access(&self, cpu: CPU, m1: MemView, m2: MemView) {
    }
}

impl JsrTasks {
    /// One cycle of this work: the work, processor and memory after it, and whether
    /// the work is finished.
    pub open spec fn step(&self, cpu: CPU, mem: MemView) -> (Self, CPU, MemView, bool) {
        let pc = cpu.program_counter;
        let sa = cpu.stack_address();
        let sp1 = cpu.with_stack_pointer(sub8(cpu.stack_pointer, 1));
        match self.step {
            JsrSteps::LoAddressFetch => (
                JsrTasks { step: JsrSteps::FetchStack, lo_addr: Some(mem_at(mem, pc)) },
                cpu.pc_incremented(),
                mem_after_read(mem, pc),
                false,
            ),
            JsrSteps::FetchStack => (
                JsrTasks { step: JsrSteps::PushProgramCounterHi, ..*self },
                cpu,
                mem_after_read(mem, sa),
                false,
            ),
            JsrSteps::PushProgramCounterHi => (
                JsrTasks { step: JsrSteps::PushProgramCounterLo, ..*self },
                sp1,
                mem_after_write(mem, sa, spec_hi(pc)),
                false,
            ),
            JsrSteps::PushProgramCounterLo => (
                JsrTasks { step: JsrSteps::HiAddressFetch, ..*self },
                sp1,
                mem_after_write(mem, sa, spec_lo(pc)),
                false,
            ),
            _ => (
                JsrTasks { step: JsrSteps::Done, ..*self },
                cpu.with_pc(spec_word(self.lo_addr->0, mem_at(mem, pc))),
                mem_after_read(mem, pc),
                true,
            ),
        }
    }

    /// `next` is `step`.
    pub proof fn lemma_next_is_step(&self, cpu: CPU, mem: MemView)
        ensures
            self.next(cpu, mem) == self.step(cpu, mem),
    {
    }
}

/// The instruction `jsr_a` builds.
pub open spec fn jsr_instruction() -> InstructionTasks {
    InstructionTasks::Jsr(JsrTasks::fresh())
}

/// `JSR abs`
pub fn jsr_a(_cpu: &mut CPU) -> (r: InstructionTasks)
    ensures
        r == jsr_instruction(),
        *final(_cpu) == *old(_cpu),
{
    InstructionTasks::Jsr(JsrTasks::new())
}

/// Progress of `RTS`.
#[derive(PartialEq, Eq, Structural)]
pub enum RtsSteps {
    DummyFetch,
    PreDecrementStackPointer,
    PopProgramCounterLo,
    PopProgramCounterHi,
    IncrementProgramCounter,
    Done,
}

/// `RTS`: pulls the return address (low byte first) and continues after it, in
/// five cycles.
pub struct RtsTasks {
    pub step: RtsSteps,
}

impl RtsTasks {
    pub open spec fn fresh() -> Self {
        RtsTasks { step: RtsSteps::DummyFetch }
    }

    fn new() -> (r: Self)
        ensures
            r == Self::fresh(),
    {
        RtsTasks { step: RtsSteps::DummyFetch }
    }
}

impl Tasks for RtsTasks {
    open spec fn is_done(&self) -> bool {
        self.step == RtsSteps::Done
    }

    open spec fn can_tick(&self, addr: Address) -> bool {
        self.step != RtsSteps::Done
    }

    closed spec fn next(&self, cpu: CPU, mem: MemView) -> (Self, CPU, MemView, bool) {
        self.step(cpu, mem)
    }

    open spec fn remaining(&self) -> nat {
        match self.step {
            RtsSteps::DummyFetch => 5,
            RtsSteps::PreDecrementStackPointer => 4,
            RtsSteps::PopProgramCounterLo => 3,
            RtsSteps::PopProgramCounterHi => 2,
            RtsSteps::IncrementProgramCounter => 1,
            RtsSteps::Done => 0,
        }
    }

    fn done(&self) -> (r: bool) {
        self.step == RtsSteps::Done
    }

    fn tick(&mut self, cpu: &mut CPU, memory: &mut Generic64kMem) -> (r: bool) {
        match self.step {
            RtsSteps::DummyFetch => {
                cpu.dummy_fetch(memory);
                self.step = RtsSteps::PreDecrementStackPointer;
                false
            },
            RtsSteps::PreDecrementStackPointer => {
                let _ = memory.read(cpu.get_stack_ptr_address());  // dummy read
                cpu.stack_pointer = cpu.stack_pointer.wrapping_add(1);
                self.step = RtsSteps::PopProgramCounterLo;
                false
            },
            RtsSteps::PopProgramCounterLo => {
                let stack_addr = cpu.get_stack_ptr_address();
                let lo = memory.read(stack_addr);
                cpu.set_program_counter_lo(lo);
                cpu.stack_pointer = cpu.stack_pointer.wrapping_add(1);
                self.step = RtsSteps::PopProgramCounterHi;
                false
            },
            RtsSteps::PopProgramCounterHi => {
                let stack_addr = cpu.get_stack_ptr_address();
                let hi = memory.read(stack_addr);
                cpu.set_program_counter_hi(hi);
                self.step = RtsSteps::IncrementProgramCounter;
                false
            },
            RtsSteps::IncrementProgramCounter => {
                cpu.dummy_fetch(memory);
                cpu.increment_program_counter();
                self.step = RtsSteps::Done;
                true
            },
            RtsSteps::Done => true,
        }
    }

    proof fn lemma_next(&self, cpu: CPU, mem: MemView) {
    }

    proof fn lemma_next_ignores_last_access(&self, cpu: CPU, m1: MemView, m2: MemView) {
    }
}

impl RtsTasks {
    /// One cycle of this work: the work, processor and memory after it, and whether
    /// the work is finished.
    pub open spec fn step(&self, cpu: CPU, mem: MemView) -> (Self, CPU, MemView, bool) {
        let pc = cpu.program_counter;
        let sa = cpu.stack_address();
        let up = add8(cpu.stack_pointer, 1);
        match self.step {
            RtsSteps::DummyFetch => (
                RtsTasks { step: RtsSteps::PreDecrementStackPointer },
                cpu,
                mem_after_read(mem, pc),
                false,
            ),
            RtsSteps::PreDecrementStackPointer => (
                RtsTasks { step: RtsSteps::PopProgramCounterLo },
                cpu.with_stack_pointer(up),
                mem_after_read(mem, sa),
                false,
            ),
            RtsSteps::PopProgramCounterLo => (
                RtsTasks { step: RtsSteps::PopProgramCounterHi },
                cpu.with_pc_lo(mem_at(mem, sa)).with_stack_pointer(up),
                mem_after_read(mem, sa),
                false,
            ),
            RtsSteps::PopProgramCounterHi => (
                RtsTasks { step: RtsSteps::IncrementProgramCounter },
                cpu.with_pc_hi(mem_at(mem, sa)),
                mem_after_read(mem, sa),
                false,
            ),
            _ => (
                RtsTasks { step: RtsSteps::Done },
                cpu.pc_incremented(),
                mem_after_read(mem, pc),
                true,
            ),
        }
    }

    /// `next` is `step`.
    pub proof fn lemma_next_is_step(&self, cpu: CPU, mem: MemView)
        ensures
            self.next(cpu, mem) == self.step(cpu, mem),
    {
    }
}

/// `JSR` runs in five cycles: it pushes the address of its operand's last byte, high
/// byte first, and continues at the operand (whose high byte it reads after the pushes).
#[verifier::rlimit(40)]
pub proof fn lemma_jsr_call(cpu: CPU, mem: MemView)
    requires
        mem.0.len() == MEMORY_SIZE,
        cpu.cycle + 5 < usize::MAX,
    ensures
        ({
            let j = run(JsrTasks::fresh(), cpu, mem, 5);
            let pc = cpu.program_counter;
            let ret = add16(pc, 1);
            &&& j.0.is_done()
            &&& j.1.cycle == cpu.cycle + 5
            &&& j.1.stack_pointer == sub8(cpu.stack_pointer, 2)
            &&& j.2.0 == mem.0.update(cpu.stack_address() as int, spec_hi(ret)).update(
                cpu.with_stack_pointer(sub8(cpu.stack_pointer, 1)).stack_address() as int,
                spec_lo(ret),
            )
            &&& j.1.program_counter == spec_word(mem_at(mem, pc), mem_at(j.2, ret))
            &&& j.1 == (CPU {
                cycle: j.1.cycle,
                stack_pointer: j.1.stack_pointer,
                program_counter: j.1.program_counter,
                ..cpu
            })
        }),
{
    let t0 = JsrTasks::fresh();
    let s1 = stepped(t0, cpu, mem);
    lemma_run_step(t0, cpu, mem, 5);
    let s2 = stepped(s1.0, s1.1, s1.2);
    lemma_run_step(s1.0, s1.1, s1.2, 4);
    let s3 = stepped(s2.0, s2.1, s2.2);
    lemma_run_step(s2.0, s2.1, s2.2, 3);
    let s4 = stepped(s3.0, s3.1, s3.2);
    lemma_run_step(s3.0, s3.1, s3.2, 2);
    let s5 = stepped(s4.0, s4.1, s4.2);
    lemma_run_step(s4.0, s4.1, s4.2, 1);
    lemma_run_done(s5.0, s5.1, s5.2, 0);
    assert(s5.2.0 =~= mem.0.update(cpu.stack_address() as int, spec_hi(add16(cpu.program_counter, 1))).update(
        cpu.with_stack_pointer(sub8(cpu.stack_pointer, 1)).stack_address() as int,
        spec_lo(add16(cpu.program_counter, 1)),
    ));
}

/// `RTS` runs in five cycles: it pulls an address, low byte first, and continues one
/// byte after it; memory contents stay as they were.
#[verifier::rlimit(40)]
pub proof fn lemma_rts_return(cpu: CPU, mem: MemView)
    requires
        mem.0.len() == MEMORY_SIZE,
        cpu.cycle + 5 < usize::MAX,
    ensures
        ({
            let r = run(RtsTasks::fresh(), cpu, mem, 5);
            let lo_at = cpu.with_stack_pointer(add8(cpu.stack_pointer, 1)).stack_address();
            let hi_at = cpu.with_stack_pointer(add8(cpu.stack_pointer, 2)).stack_address();
            &&& r.0.is_done()
            &&& r.1.cycle == cpu.cycle + 5
            &&& r.1.stack_pointer == add8(cpu.stack_pointer, 2)
            &&& r.2.0 == mem.0
            &&& r.1.program_counter == add16(spec_word(mem_at(mem, lo_at), mem_at(mem, hi_at)), 1)
            &&& r.1 == (CPU {
                cycle: r.1.cycle,
                stack_pointer: r.1.stack_pointer,
                program_counter: r.1.program_counter,
                ..cpu
            })
        }),
{
    let t0 = RtsTasks::fresh();
    let s1 = stepped(t0, cpu, mem);
    lemma_run_step(t0, cpu, mem, 5);
    let s2 = stepped(s1.0, s1.1, s1.2);
    lemma_run_step(s1.0, s1.1, s1.2, 4);
    let s3 = stepped(s2.0, s2.1, s2.2);
    lemma_run_step(s2.0, s2.1, s2.2, 3);
    let s4 = stepped(s3.0, s3.1, s3.2);
    lemma_run_step(s3.0, s3.1, s3.2, 2);
    let s5 = stepped(s4.0, s4.1, s4.2);
    lemma_run_step(s4.0, s4.1, s4.2, 1);
    lemma_run_done(s5.0, s5.1, s5.2, 0);
    crate::consts::lemma_word_parts(
        mem_at(mem, cpu.with_stack_pointer(add8(cpu.stack_pointer, 1)).stack_address()),
        spec_hi(cpu.program_counter),
    );
}

/// A subroutine that returns at once resumes after its `JSR`: `RTS` run right after
/// `JSR` continues three bytes after the `JSR` opcode (two after its operand, where the
/// program counter points when `JSR` starts) with the stack pointer restored, ten cycles
/// later; the registers, the status and everything else in the processor but the cycle
/// counter and the program counter are as they were before the `JSR`.
#[verifier::rlimit(40)]
pub proof fn lemma_jsr_then_rts(cpu: CPU, mem: MemView)
    requires
        mem.0.len() == MEMORY_SIZE,
        cpu.cycle + 10 < usize::MAX,
    ensures
        ({
            let j = run(JsrTasks::fresh(), cpu, mem, 5);
            let r = run(RtsTasks::fresh(), j.1, j.2, 5);
            &&& r.1.program_counter == add16(cpu.program_counter, 2)
            &&& r.1.stack_pointer == cpu.stack_pointer
            &&& r.1.cycle == cpu.cycle + 10
            &&& r.1 == (CPU {
                cycle: r.1.cycle,
                program_counter: r.1.program_counter,
                ..cpu
            })
        }),
{
    lemma_jsr_call(cpu, mem);
    let j = run(JsrTasks::fresh(), cpu, mem, 5);
    lemma_rts_return(j.1, j.2);
    let ret = add16(cpu.program_counter, 1);
    let sp = cpu.stack_pointer;
    let hi_at = cpu.stack_address();
    let lo_at = cpu.with_stack_pointer(sub8(sp, 1)).stack_address();
    assert(j.1.with_stack_pointer(add8(j.1.stack_pointer, 1)).stack_address() == lo_at);
    assert(j.1.with_stack_pointer(add8(j.1.stack_pointer, 2)).stack_address() == hi_at);
    assert(lo_at != hi_at);
    assert(mem_at(j.2, lo_at) == spec_lo(ret));
    assert(mem_at(j.2, hi_at) == spec_hi(ret));
    crate::consts::lemma_word_bytes(ret);
}

/// Any subroutine that leaves the stack pointer and the two stacked return bytes as `JSR`
/// left them resumes after its `JSR`: `RTS` run from such a state (`callee`, `callee_mem`)
/// continues three bytes after the `JSR` opcode with the stack pointer as it was before
/// the call; `RTS` itself changes no register or flag of the callee's state.
#[verifier::rlimit(40)]
pub proof fn lemma_jsr_then_rts_after_callee(cpu: CPU, mem: MemView, callee: CPU, callee_mem: MemView)
    requires
        mem.0.len() == MEMORY_SIZE,
        callee_mem.0.len() == MEMORY_SIZE,
        cpu.cycle + 5 < usize::MAX,
        callee.cycle + 5 < usize::MAX,
        callee.stack_pointer == run(JsrTasks::fresh(), cpu, mem, 5).1.stack_pointer,
        mem_at(callee_mem, cpu.stack_address()) == mem_at(
            run(JsrTasks::fresh(), cpu, mem, 5).2,
            cpu.stack_address(),
        ),
        mem_at(callee_mem, cpu.with_stack_pointer(sub8(cpu.stack_pointer, 1)).stack_address())
            == mem_at(
            run(JsrTasks::fresh(), cpu, mem, 5).2,
            cpu.with_stack_pointer(sub8(cpu.stack_pointer, 1)).stack_address(),
        ),
    ensures
        ({
            let r = run(RtsTasks::fresh(), callee, callee_mem, 5);
            &&& r.1.program_counter == add16(cpu.program_counter, 2)
            &&& r.1.stack_pointer == cpu.stack_pointer
            &&& r.1.cycle == callee.cycle + 5
            &&& r.1 == (CPU {
                cycle: r.1.cycle,
                stack_pointer: r.1.stack_pointer,
                program_counter: r.1.program_counter,
                ..callee
            })
        }),
{
    lemma_jsr_call(cpu, mem);
    let j = run(JsrTasks::fresh(), cpu, mem, 5);
    lemma_rts_return(callee, callee_mem);
    let ret = add16(cpu.program_counter, 1);
    let sp = cpu.stack_pointer;
    let hi_at = cpu.stack_address();
    let lo_at = cpu.with_stack_pointer(sub8(sp, 1)).stack_address();
    assert(callee.with_stack_pointer(add8(callee.stack_pointer, 1)).stack_address() == lo_at);
    assert(callee.with_stack_pointer(add8(callee.stack_pointer, 2)).stack_address() == hi_at);
    assert(lo_at != hi_at);
    assert(mem_at(j.2, lo_at) == spec_lo(ret));
    assert(mem_at(j.2, hi_at) == spec_hi(ret));
    crate::consts::lemma_word_bytes(ret);
}

/// The instruction `rts` builds.
pub open spec fn rts_instruction() -> InstructionTasks {
    InstructionTasks::Rts(RtsTasks::fresh())
}

/// `RTS`
pub fn rts(cpu: &mut CPU) -> (r: InstructionTasks)
    ensures
        r == rts_instruction(),
        *final(cpu) == old(cpu).with_addr(Address::cleared(AddressingMode::Implicit, true)),
{
    cpu.addr.reset_implicit();
    InstructionTasks::Rts(RtsTasks::new())
}

/// `JMP`: the program counter takes the address the addressing computes.
pub struct JmpTasks {
    pub addressing_tasks: AnyAddressingTasks,
}

impl JmpTasks {
    pub open spec fn fresh(addressing_tasks: AnyAddressingTasks) -> Self {
        JmpTasks { addressing_tasks }
    }

    fn new(addressing_tasks: AnyAddressingTasks) -> (r: Self)
        ensures
            r == Self::fresh(addressing_tasks),
    {
        JmpTasks { addressing_tasks }
    }
}

impl Tasks for JmpTasks {
    open spec fn is_done(&self) -> bool {
        self.addressing_tasks.is_done()
    }

    open spec fn can_tick(&self, addr: Address) -> bool {
        self.addressing_tasks.is_done() || self.addressing_tasks.can_tick(addr)
    }

    closed spec fn next(&self, cpu: CPU, mem: MemView) -> (Self, CPU, MemView, bool) {
        self.step(cpu, mem)
    }

    open spec fn remaining(&self) -> nat {
        self.addressing_tasks.remaining()
    }

    fn done(&self) -> (r: bool) {
        self.addressing_tasks.done()
    }

    fn tick(&mut self, cpu: &mut CPU, memory: &mut Generic64kMem) -> (r: bool) {
        if self.addressing_tasks.done() {
            return true;
        }
        proof {
            self.addressing_tasks.lemma_finishes_with_address(*cpu, memory@);
        }
        let done = self.addressing_tasks.tick(cpu, memory);
        if done {
            cpu.program_counter = cpu.addr.value().unwrap();
        }
        done
    }

    proof fn lemma_next(&self, cpu: CPU, mem: MemView) {
        if !self.addressing_tasks.is_done() {
            self.addressing_tasks.lemma_next(cpu, mem);
        }
    }

    proof fn lemma_next_ignores_last_access(&self, cpu: CPU, m1: MemView, m2: MemView) {
        if !self.addressing_tasks.is_done() {
            self.addressing_tasks.lemma_next_ignores_last_access(cpu, m1, m2);
        }
    }
}

impl JmpTasks {
    /// One cycle of this work: the work, processor and memory after it, and whether
    /// the work is finished.
    pub open spec fn step(&self, cpu: CPU, mem: MemView) -> (Self, CPU, MemView, bool) {
        if self.addressing_tasks.is_done() {
            (*self, cpu, mem, true)
        } else {
            let n = self.addressing_tasks.next(cpu, mem);
            if n.3 {
                (JmpTasks { addressing_tasks: n.0 }, n.1.with_pc(n.1.addr.val->0), n.2, true)
            } else {
                (JmpTasks { addressing_tasks: n.0 }, n.1, n.2, false)
            }
        }
    }

    /// `next` is `step`.
    pub proof fn lemma_next_is_step(&self, cpu: CPU, mem: MemView)
        ensures
            self.next(cpu, mem) == self.step(cpu, mem),
    {
    }
}

/// The instruction `jmp_a` builds.
pub open spec fn jmp_absolute_instruction() -> InstructionTasks {
    InstructionTasks::Jmp(JmpTasks::fresh(AnyAddressingTasks::Absolute(AbsoluteAddressingTasks::fresh())))
}

/// The instruction `jmp_in` builds: CMOS parts fetch the pointer correctly.
pub open spec fn jmp_indirect_instruction(chip_variant: ChipVariant) -> InstructionTasks {
    InstructionTasks::Jmp(
        JmpTasks::fresh(
            AnyAddressingTasks::Indirect(
                IndirectAddressingTasks::fresh(chip_variant != ChipVariant::NMOS),
            ),
        ),
    )
}

/// `JMP abs`
pub fn jmp_a(_cpu: &mut CPU) -> (r: InstructionTasks)
    ensures
        r == jmp_absolute_instruction(),
        *final(_cpu) == *old(_cpu),
{
    InstructionTasks::Jmp(JmpTasks::new(AnyAddressingTasks::Absolute(AbsoluteAddressingTasks::new())))
}

/// `JMP (abs)`
pub fn jmp_in(cpu: &mut CPU) -> (r: InstructionTasks)
    ensures
        r == jmp_indirect_instruction(old(cpu).chip_variant),
        *final(cpu) == *old(cpu),
{
    let addr_tasks = if cpu.chip_variant == ChipVariant::NMOS {
        AnyAddressingTasks::Indirect(IndirectAddressingTasks::new_incorrect_addressing())
    } else {
        AnyAddressingTasks::Indirect(IndirectAddressingTasks::new_fixed_addressing())
    };
    InstructionTasks::Jmp(JmpTasks::new(addr_tasks))
}

} // verus!
