use crate::consts::{spec_hi, spec_lo, spec_word, Byte, Word, BRK_INTERRUPT_VECTOR};
use crate::cpu::addressing::address::Address;
use crate::cpu::addressing::AddressingMode;
use crate::cpu::instructions::InstructionTasks;
use crate::cpu::processor_status::{lemma_flag_read_back, Flags, ProcessorStatus};
use crate::cpu::tasks::{lemma_run_done, lemma_run_step, run, stepped, Tasks};
use crate::cpu::{add16, add8, sub8, ChipVariant, CPU};
use crate::memory::{mem_after_read, mem_after_write, mem_at, Generic64kMem, MemView, Memory, MEMORY_SIZE};
use vstd::prelude::*;

verus! {

/// `NOP`: one cycle that reads and discards the next byte.
pub struct NopTasks {
    pub done: bool,
}

impl NopTasks {
    pub open spec fn fresh() -> Self {
        NopTasks { done: false }
    }

    fn new() -> (r: Self)
        ensures
            r == Self::fresh(),
    {
        NopTasks { done: false }
    }
}

impl Tasks for NopTasks {
    open spec fn is_done(&self) -> bool {
        self.done
    }

    open spec fn can_tick(&self, addr: Address) -> bool {
        !self.done
    }

    closed spec fn next(&self, cpu: CPU, mem: MemView) -> (Self, CPU, MemView, bool) {
        self.step(cpu, mem)
    }

    open spec fn remaining(&self) -> nat {
        if self.done {
            0
        } else {
            1
        }
    }

    fn done(&self) -> (r: bool) {
        self.done
    }

    fn tick(&mut self, cpu: &mut CPU, memory: &mut Generic64kMem) -> (r: bool) {
        cpu.dummy_fetch(memory);
        self.done = true;
        true
    }

    proof fn lemma_next(&self, cpu: CPU, mem: MemView) {
    }

    proof fn lemma_next_ignores_last_access(&self, cpu: CPU, m1: MemView, m2: MemView) {
    }
}

impl NopTasks {
    /// One cycle of this work: the work, processor and memory after it, and whether
    /// the work is finished.
    pub open spec fn step(&self, cpu: CPU, mem: MemView) -> (Self, CPU, MemView, bool) {
        (NopTasks { done: true }, cpu, mem_after_read(mem, cpu.program_counter), true)
    }

    /// `next` is `step`.
    pub proof fn lemma_next_is_step(&self, cpu: CPU, mem: MemView)
        ensures
            self.next(cpu, mem) == self.step(cpu, mem),
    {
    }
}

/// The instruction `nop` builds.
pub open spec fn nop_instruction() -> InstructionTasks {
    InstructionTasks::Nop(NopTasks::fresh())
}

/// `NOP`
pub fn nop(cpu: &mut CPU) -> (r: InstructionTasks)
    ensures
        r == nop_instruction(),
        *final(cpu) == old(cpu).with_addr(Address::cleared(AddressingMode::Implicit, true)),
{
    cpu.addr.reset_implicit();
    InstructionTasks::Nop(NopTasks::new())
}

/// Progress of `BRK`.
#[derive(PartialEq, Eq, Structural)]
pub enum BrkSteps {
    InitialFetchAndDiscard,
    PushProgramCounterHi,
    PushProgramCounterLo,
    PushProcessorStatus,
    AccessBrkVectorLo,
    AccessBrkVectorHi,
    Done,
}

/// `BRK`: pushes the return address and the status (with the break bit set),
/// disables interrupts (CMOS parts also clear decimal mode) and jumps through the
/// vector at `$FFFE`, in six cycles.
pub struct BrkTasks {
    pub step: BrkSteps,
}

impl BrkTasks {
    pub open spec fn fresh() -> Self {
        BrkTasks { step: BrkSteps::InitialFetchAndDiscard }
    }

    fn new() -> (r: Self)
        ensures
            r == Self::fresh(),
    {
        BrkTasks { step: BrkSteps::InitialFetchAndDiscard }
    }
}

impl Tasks for BrkTasks {
    open spec fn is_done(&self) -> bool {
        self.step == BrkSteps::Done
    }

    open spec fn can_tick(&self, addr: Address) -> bool {
        self.step != BrkSteps::Done
    }

    closed spec fn next(&self, cpu: CPU, mem: MemView) -> (Self, CPU, MemView, bool) {
        self.step(cpu, mem)
    }

    open spec fn remaining(&self) -> nat {
        match self.step {
            BrkSteps::InitialFetchAndDiscard => 6,
            BrkSteps::PushProgramCounterHi => 5,
            BrkSteps::PushProgramCounterLo => 4,
            BrkSteps::PushProcessorStatus => 3,
            BrkSteps::AccessBrkVectorLo => 2,
            BrkSteps::AccessBrkVectorHi => 1,
            BrkSteps::Done => 0,
        }
    }

    fn done(&self) -> (r: bool) {
        self.step == BrkSteps::Done
    }

    fn tick(&mut self, cpu: &mut CPU, memory: &mut Generic64kMem) -> (r: bool) {
        match self.step {
            BrkSteps::InitialFetchAndDiscard => {
                let _ = memory.read(cpu.program_counter);  // fetch and discard
                cpu.increment_program_counter();
                self.step = BrkSteps::PushProgramCounterHi;
                false
            },
            BrkSteps::PushProgramCounterHi => {
                memory.write(cpu.get_stack_ptr_address(), cpu.get_program_counter_hi());
                cpu.stack_pointer = cpu.stack_pointer.wrapping_sub(1);
                self.step = BrkSteps::PushProgramCounterLo;
                false
            },
            BrkSteps::PushProgramCounterLo => {
                memory.write(cpu.get_stack_ptr_address(), cpu.get_program_counter_lo());
                cpu.stack_pointer = cpu.stack_pointer.wrapping_sub(1);
                self.step = BrkSteps::PushProcessorStatus;
                false
            },
            BrkSteps::PushProcessorStatus => {
                let status: Byte = cpu.processor_status.to_byte();
                memory.write(cpu.get_stack_ptr_address(), status | 0x10);
                cpu.stack_pointer = cpu.stack_pointer.wrapping_sub(1);
                self.step = BrkSteps::AccessBrkVectorLo;
                false
            },
            BrkSteps::AccessBrkVectorLo => {
                let lo = memory.read(BRK_INTERRUPT_VECTOR);
                cpu.set_program_counter_lo(lo);
                self.step = BrkSteps::AccessBrkVectorHi;
                false
            },
            BrkSteps::AccessBrkVectorHi => {
                cpu.processor_status.change_interrupt_disable_flag(true);
                if cpu.chip_variant != ChipVariant::NMOS {
                    cpu.processor_status.change_decimal_mode_flag(false);
                }
                let hi = memory.read(BRK_INTERRUPT_VECTOR + 1);
                cpu.set_program_counter_hi(hi);
                self.step = BrkSteps::Done;
                true
            },
            BrkSteps::Done => true,
        }
    }

    proof fn lemma_next(&self, cpu: CPU, mem: MemView) {
    }

    proof fn lemma_next_ignores_last_access(&self, cpu: CPU, m1: MemView, m2: MemView) {
    }
}

impl BrkTasks {
    /// One cycle of this work: the work, processor and memory after it, and whether
    /// the work is finished.
    pub open spec fn step(&self, cpu: CPU, mem: MemView) -> (Self, CPU, MemView, bool) {
        let pc = cpu.program_counter;
        let sa = cpu.stack_address();
        let sp1 = cpu.with_stack_pointer(sub8(cpu.stack_pointer, 1));
        match self.step {
            BrkSteps::InitialFetchAndDiscard => (
                BrkTasks { step: BrkSteps::PushProgramCounterHi },
                cpu.pc_incremented(),
                mem_after_read(mem, pc),
                false,
            ),
            BrkSteps::PushProgramCounterHi => (
                BrkTasks { step: BrkSteps::PushProgramCounterLo },
                sp1,
                mem_after_write(mem, sa, spec_hi(pc)),
                false,
            ),
            BrkSteps::PushProgramCounterLo => (
                BrkTasks { step: BrkSteps::PushProcessorStatus },
                sp1,
                mem_after_write(mem, sa, spec_lo(pc)),
                false,
            ),
            BrkSteps::PushProcessorStatus => (
                BrkTasks { step: BrkSteps::AccessBrkVectorLo },
                sp1,
                mem_after_write(mem, sa, cpu.processor_status@ | 0x10),
                false,
            ),
            BrkSteps::AccessBrkVectorLo => (
                BrkTasks { step: BrkSteps::AccessBrkVectorHi },
                cpu.with_pc_lo(mem_at(mem, BRK_INTERRUPT_VECTOR)),
                mem_after_read(mem, BRK_INTERRUPT_VECTOR),
                false,
            ),
            _ => {
                let c1 = cpu.with_flag(Flags::InterruptDisable, true);
                let c2 = if cpu.chip_variant != ChipVariant::NMOS {
                    c1.with_flag(Flags::DecimalMode, false)
                } else {
                    c1
                };
                (
                    BrkTasks { step: BrkSteps::Done },
                    c2.with_pc_hi(mem_at(mem, 0xFFFF)),
                    mem_after_read(mem, 0xFFFF),
                    true,
                )
            },
        }
    }

    /// `next` is `step`.
    pub proof fn lemma_next_is_step(&self, cpu: CPU, mem: MemView)
        ensures
            self.next(cpu, mem) == self.step(cpu, mem),
    {
    }
}

/// The instruction `brk` builds.
pub open spec fn brk_instruction() -> InstructionTasks {
    InstructionTasks::Brk(BrkTasks::fresh())
}

/// `BRK`
pub fn brk(cpu: &mut CPU) -> (r: InstructionTasks)
    ensures
        r == brk_instruction(),
        *final(cpu) == old(cpu).with_addr(Address::cleared(AddressingMode::Implicit, true)),
{
    cpu.addr.reset_implicit();
    InstructionTasks::Brk(BrkTasks::new())
}

/// Progress of `RTI`.
#[derive(PartialEq, Eq, Structural)]
pub enum RtiSteps {
    DummyFetch,
    StackPointerPreDecrement,
    PopProcessorStatus,
    PopProgramCounterLo,
    PopProgramCounterHi,
    Done,
}

/// `RTI`: pulls the status (ignoring the break bit) and the return address, in
/// five cycles.
pub struct RtiTasks {
    pub step: RtiSteps,
}

impl RtiTasks {
    pub open spec fn fresh() -> Self {
        RtiTasks { step: RtiSteps::DummyFetch }
    }

    fn new() -> (r: Self)
        ensures
            r == Self::fresh(),
    {
        RtiTasks { step: RtiSteps::DummyFetch }
    }
}

impl Tasks for RtiTasks {
    open spec fn is_done(&self) -> bool {
        self.step == RtiSteps::Done
    }

    open spec fn can_tick(&self, addr: Address) -> bool {
        self.step != RtiSteps::Done
    }

    closed spec fn next(&self, cpu: CPU, mem: MemView) -> (Self, CPU, MemView, bool) {
        self.step(cpu, mem)
    }

    open spec fn remaining(&self) -> nat {
        match self.step {
            RtiSteps::DummyFetch => 5,
            RtiSteps::StackPointerPreDecrement => 4,
            RtiSteps::PopProcessorStatus => 3,
            RtiSteps::PopProgramCounterLo => 2,
            RtiSteps::PopProgramCounterHi => 1,
            RtiSteps::Done => 0,
        }
    }

    fn done(&self) -> (r: bool) {
        self.step == RtiSteps::Done
    }

    fn tick(&mut self, cpu: &mut CPU, memory: &mut Generic64kMem) -> (r: bool) {
        match self.step {
            RtiSteps::DummyFetch => {
                cpu.dummy_fetch(memory);
                self.step = RtiSteps::StackPointerPreDecrement;
                false
            },
            RtiSteps::StackPointerPreDecrement => {
                let _ = memory.read(cpu.get_stack_ptr_address());  // dummy fetch
                cpu.stack_pointer = cpu.stack_pointer.wrapping_add(1);
                self.step = RtiSteps::PopProcessorStatus;
                false
            },
            RtiSteps::PopProcessorStatus => {
                let stack_addr = cpu.get_stack_ptr_address();
                // break flag is always ignored when restoring from stack
                let value = memory.read(stack_addr);
                cpu.processor_status = ProcessorStatus::from_byte_value(value & 0b11101111);
                cpu.stack_pointer = cpu.stack_pointer.wrapping_add(1);
                self.step = RtiSteps::PopProgramCounterLo;
                false
            },
            RtiSteps::PopProgramCounterLo => {
                let stack_addr = cpu.get_stack_ptr_address();
                let lo = memory.read(stack_addr);
                cpu.set_program_counter_lo(lo);
                cpu.stack_pointer = cpu.stack_pointer.wrapping_add(1);
                self.step = RtiSteps::PopProgramCounterHi;
                false
            },
            RtiSteps::PopProgramCounterHi => {
                let stack_addr = cpu.get_stack_ptr_address();
                let hi = memory.read(stack_addr);
                cpu.set_program_counter_hi(hi);
                self.step = RtiSteps::Done;
                true
            },
            RtiSteps::Done => true,
        }
    }

    proof fn lemma_next(&self, cpu: CPU, mem: MemView) {
    }

    proof fn lemma_next_ignores_last_access(&self, cpu: CPU, m1: MemView, m2: MemView) {
    }
}

impl RtiTasks {
    /// One cycle of this work: the work, processor and memory after it, and whether
    /// the work is finished.
    pub open spec fn step(&self, cpu: CPU, mem: MemView) -> (Self, CPU, MemView, bool) {
        let pc = cpu.program_counter;
        let sa = cpu.stack_address();
        let up = add8(cpu.stack_pointer, 1);
        match self.step {
            RtiSteps::DummyFetch => (
                RtiTasks { step: RtiSteps::StackPointerPreDecrement },
                cpu,
                mem_after_read(mem, pc),
                false,
            ),
            RtiSteps::StackPointerPreDecrement => (
                RtiTasks { step: RtiSteps::PopProcessorStatus },
                cpu.with_stack_pointer(up),
                mem_after_read(mem, sa),
                false,
            ),
            RtiSteps::PopProcessorStatus => (
                RtiTasks { step: RtiSteps::PopProgramCounterLo },
                cpu.with_status(ProcessorStatus { flags: mem_at(mem, sa) & 0b11101111 }).with_stack_pointer(up),
                mem_after_read(mem, sa),
                false,
            ),
            RtiSteps::PopProgramCounterLo => (
                RtiTasks { step: RtiSteps::PopProgramCounterHi },
                cpu.with_pc_lo(mem_at(mem, sa)).with_stack_pointer(up),
                mem_after_read(mem, sa),
                false,
            ),
            _ => (
                RtiTasks { step: RtiSteps::Done },
                cpu.with_pc_hi(mem_at(mem, sa)),
                mem_after_read(mem, sa),
                true,
            ),
        }
    }

    /// `next` is `step`.
    pub proof fn lemma_next_is_step(&self, cpu: CPU, mem: MemView)
        ensures
            self.next(cpu, mem) == self.step(cpu, mem),
    {
    }
}

/// `BRK` runs in six cycles: it skips the byte after its opcode, pushes the address after
/// that byte (high byte first) and then the status with the break bit set, disables
/// interrupts and continues at the address stored at `$FFFE`/`$FFFF`.
#[verifier::rlimit(40)]
pub proof fn lemma_brk_interrupt(cpu: CPU, mem: MemView)
    requires
        mem.0.len() == MEMORY_SIZE,
        cpu.cycle + 6 < usize::MAX,
    ensures
        ({
            let b = run(BrkTasks::fresh(), cpu, mem, 6);
            let sp = cpu.stack_pointer;
            let ret = add16(cpu.program_counter, 1);
            &&& b.0.is_done()
            &&& b.1.cycle == cpu.cycle + 6
            &&& b.1.stack_pointer == sub8(sp, 3)
            &&& mem_at(b.2, cpu.stack_address()) == spec_hi(ret)
            &&& mem_at(b.2, cpu.with_stack_pointer(sub8(sp, 1)).stack_address()) == spec_lo(ret)
            &&& mem_at(b.2, cpu.with_stack_pointer(sub8(sp, 2)).stack_address())
                == cpu.processor_status@ | 0x10
            &&& b.1.program_counter == spec_word(
                mem_at(mem, BRK_INTERRUPT_VECTOR),
                mem_at(mem, 0xFFFF),
            )
            &&& b.1.flag(Flags::InterruptDisable)
        }),
{
    let t0 = BrkTasks::fresh();
    let s1 = stepped(t0, cpu, mem);
    lemma_run_step(t0, cpu, mem, 6);
    let s2 = stepped(s1.0, s1.1, s1.2);
    lemma_run_step(s1.0, s1.1, s1.2, 5);
    let s3 = stepped(s2.0, s2.1, s2.2);
    lemma_run_step(s2.0, s2.1, s2.2, 4);
    let s4 = stepped(s3.0, s3.1, s3.2);
    lemma_run_step(s3.0, s3.1, s3.2, 3);
    let s5 = stepped(s4.0, s4.1, s4.2);
    lemma_run_step(s4.0, s4.1, s4.2, 2);
    let s6 = stepped(s5.0, s5.1, s5.2);
    lemma_run_step(s5.0, s5.1, s5.2, 1);
    lemma_run_done(s6.0, s6.1, s6.2, 0);
    let lo = mem_at(mem, BRK_INTERRUPT_VECTOR);
    crate::consts::lemma_word_parts(lo, spec_hi(add16(cpu.program_counter, 1)));
    let ps = s5.1.processor_status.with_flag(Flags::InterruptDisable, true);
    lemma_flag_read_back(s5.1.processor_status, Flags::InterruptDisable, Flags::DecimalMode, true);
    lemma_flag_read_back(ps, Flags::DecimalMode, Flags::InterruptDisable, false);
}

/// `RTI` runs in five cycles: it pulls the status (with the break bit cleared) and then an
/// address, low byte first, and continues at that address; memory contents stay as they
/// were.
#[verifier::rlimit(40)]
pub proof fn lemma_rti_return(cpu: CPU, mem: MemView)
    requires
        mem.0.len() == MEMORY_SIZE,
        cpu.cycle + 5 < usize::MAX,
    ensures
        ({
            let r = run(RtiTasks::fresh(), cpu, mem, 5);
            let sp = cpu.stack_pointer;
            let ps_at = cpu.with_stack_pointer(add8(sp, 1)).stack_address();
            let lo_at = cpu.with_stack_pointer(add8(sp, 2)).stack_address();
            let hi_at = cpu.with_stack_pointer(add8(sp, 3)).stack_address();
            &&& r.0.is_done()
            &&& r.1.cycle == cpu.cycle + 5
            &&& r.1.stack_pointer == add8(sp, 3)
            &&& r.2.0 == mem.0
            &&& r.1.processor_status@ == mem_at(mem, ps_at) & 0b11101111
            &&& r.1.program_counter == spec_word(mem_at(mem, lo_at), mem_at(mem, hi_at))
            &&& r.1 == (CPU {
                cycle: r.1.cycle,
                stack_pointer: r.1.stack_pointer,
                program_counter: r.1.program_counter,
                processor_status: r.1.processor_status,
                ..cpu
            })
        }),
{
    let t0 = RtiTasks::fresh();
    let s1 = stepped(t0, cpu, mem);
    lemma_run_step(t0, cpu, mem, 5);
    let s2 = stepped(s1.0, s1.1, s1.2);
    lemma_run_step(s1.0, s1.1, s1.2, 4);
    let s3 = stepped(s2.0, s2.1, s2.2);
    lemma_run_step(s2.0, s2.1, s2.2, 3);
    let s4 = stepped(s3.0, s3.1, s3.2);
    lemma_run_step(s3.0, s3.1, s3.2, 2);
    let s5 = stepped(s4.0, s4.1, s4.2);
    lemma_run_step(s4.0, s4.1, s4.2, 1);
    lemma_run_done(s5.0, s5.1, s5.2, 0);
    let sp = cpu.stack_pointer;
    assert(add8(add8(sp, 1), 1) == add8(sp, 2));
    assert(add8(add8(sp, 2), 1) == add8(sp, 3));
    crate::consts::lemma_word_parts(
        mem_at(mem, cpu.with_stack_pointer(add8(sp, 2)).stack_address()),
        spec_hi(cpu.program_counter),
    );
}

/// Any interrupt handler that leaves the stack pointer and the three bytes `BRK` pushed as
/// `BRK` left them returns behind the `BRK`: `RTI` run from such a state (`handler`,
/// `handler_mem`) continues two bytes after the `BRK` opcode with the stack pointer and
/// every status flag but the break bit as they were before the `BRK`; `RTI` changes
/// nothing else in the handler's state but the cycle counter.
#[verifier::rlimit(40)]
pub proof fn lemma_brk_then_rti_after_handler(
    cpu: CPU,
    mem: MemView,
    handler: CPU,
    handler_mem: MemView,
)
    requires
        mem.0.len() == MEMORY_SIZE,
        handler_mem.0.len() == MEMORY_SIZE,
        cpu.cycle + 6 < usize::MAX,
        handler.cycle + 5 < usize::MAX,
        handler.stack_pointer == run(BrkTasks::fresh(), cpu, mem, 6).1.stack_pointer,
        mem_at(handler_mem, cpu.stack_address()) == mem_at(
            run(BrkTasks::fresh(), cpu, mem, 6).2,
            cpu.stack_address(),
        ),
        mem_at(handler_mem, cpu.with_stack_pointer(sub8(cpu.stack_pointer, 1)).stack_address())
            == mem_at(
            run(BrkTasks::fresh(), cpu, mem, 6).2,
            cpu.with_stack_pointer(sub8(cpu.stack_pointer, 1)).stack_address(),
        ),
        mem_at(handler_mem, cpu.with_stack_pointer(sub8(cpu.stack_pointer, 2)).stack_address())
            == mem_at(
            run(BrkTasks::fresh(), cpu, mem, 6).2,
            cpu.with_stack_pointer(sub8(cpu.stack_pointer, 2)).stack_address(),
        ),
    ensures
        ({
            let r = run(RtiTasks::fresh(), handler, handler_mem, 5);
            &&& r.1.program_counter == add16(cpu.program_counter, 1)
            &&& r.1.stack_pointer == cpu.stack_pointer
            &&& r.1.processor_status@ == cpu.processor_status@ & 0b11101111
            &&& r.1.cycle == handler.cycle + 5
            &&& r.1 == (CPU {
                cycle: r.1.cycle,
                stack_pointer: r.1.stack_pointer,
                program_counter: r.1.program_counter,
                processor_status: r.1.processor_status,
                ..handler
            })
        }),
{
    lemma_brk_interrupt(cpu, mem);
    lemma_rti_return(handler, handler_mem);
    let sp = cpu.stack_pointer;
    let hs = handler.stack_pointer;
    assert(handler.with_stack_pointer(add8(hs, 1)).stack_address() == cpu.with_stack_pointer(
        sub8(sp, 2),
    ).stack_address());
    assert(handler.with_stack_pointer(add8(hs, 2)).stack_address() == cpu.with_stack_pointer(
        sub8(sp, 1),
    ).stack_address());
    assert(handler.with_stack_pointer(add8(hs, 3)).stack_address() == cpu.stack_address());
    let x = cpu.processor_status@;
    assert((x | 0x10) & 0b11101111 == x & 0b11101111) by (bit_vector);
    crate::consts::lemma_word_bytes(add16(cpu.program_counter, 1));
}

/// The instruction `rti` builds.
pub open spec fn rti_instruction() -> InstructionTasks {
    InstructionTasks::Rti(RtiTasks::fresh())
}

/// `RTI`
pub fn rti(cpu: &mut CPU) -> (r: InstructionTasks)
    ensures
        r == rti_instruction(),
        *final(cpu) == old(cpu).with_addr(Address::cleared(AddressingMode::Implicit, true)),
{
    cpu.addr.reset_implicit();
    InstructionTasks::Rti(RtiTasks::new())
}

} // verus!
