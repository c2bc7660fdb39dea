use crate::consts::{spec_hi, spec_lo, spec_word, word_from_le_bytes, Byte, Word};
use crate::cpu::addressing::address::Address;
use crate::cpu::addressing::AddressingMode;
use crate::cpu::instructions::InstructionTasks;
use crate::cpu::processor_status::Flags;
use crate::cpu::tasks::{lemma_run_done, lemma_run_step, run, stepped, Tasks};
use crate::cpu::{add16, add8, sub16, sub8, CPU};
use crate::memory::{mem_after_read, mem_at, Generic64kMem, MemView, Memory, MEMORY_SIZE};
use vstd::prelude::*;

verus! {

/// When a branch is taken.
#[derive(Copy, Clone, Debug, PartialEq, Eq, Structural)]
pub enum BranchCondition {
    /// The flag is set.
    FlagSet(Flags),
    /// The flag is clear.
    FlagClear(Flags),
    /// Regardless of the processor state.
    Constant(bool),
}

/// Whether the condition holds on a processor in state `cpu`.
pub open spec fn condition_holds(condition: BranchCondition, cpu: CPU) -> bool {
    match condition {
        BranchCondition::FlagSet(flag) => cpu.flag(flag),
        BranchCondition::FlagClear(flag) => !cpu.flag(flag),
        BranchCondition::Constant(value) => value,
    }
}

impl BranchCondition {
    /// Evaluates the condition on `cpu`.
    pub fn holds(&self, cpu: &CPU) -> (r: bool)
        ensures
            r == condition_holds(*self, *cpu),
    {
        match self {
            BranchCondition::FlagSet(flag) => cpu.processor_status.get_flag(*flag),
            BranchCondition::FlagClear(flag) => !cpu.processor_status.get_flag(*flag),
            BranchCondition::Constant(value) => *value,
        }
    }
}

/// Progress of a relative branch.
#[derive(PartialEq, Eq, Structural)]
pub enum BranchStep {
    ConditionExecution,
    OffsetProgramCounterLo,
    OffsetProgramCounterHi,
    Done,
}

/// A conditional relative branch: one cycle when not taken, two when taken within
/// the page, three when the target lies on another page.
pub struct BranchTasks {
    pub condition: BranchCondition,
    pub step: BranchStep,
}

/// New low byte of the program counter after adding the signed `offset` to its
/// low byte, and whether that crossed into another page.
pub open spec fn offset_lo(pc: Word, offset: Byte) -> (Byte, bool) {
    let lo = spec_lo(pc) as int;
    if offset >= 128 {
        let t = lo - (256 - offset as int);
        (((t + 256) % 256) as Byte, t < 0)
    } else {
        let t = lo + offset as int;
        ((t % 256) as Byte, t > 255)
    }
}

/// The high byte after the page crossing a signed `offset` caused.
pub open spec fn fixed_hi(hi: Byte, offset: Byte) -> Byte {
    if offset >= 128 {
        sub8(hi, 1)
    } else {
        add8(hi, 1)
    }
}

impl BranchTasks {
    pub open spec fn fresh(condition: BranchCondition) -> Self {
        BranchTasks { condition, step: BranchStep::ConditionExecution }
    }

    pub fn new(condition: BranchCondition) -> (r: Self)
        ensures
            r == Self::fresh(condition),
    {
        BranchTasks { condition, step: BranchStep::ConditionExecution }
    }
}

impl Tasks for BranchTasks {
    open spec fn is_done(&self) -> bool {
        self.step == BranchStep::Done
    }

    open spec fn can_tick(&self, addr: Address) -> bool {
        match self.step {
            BranchStep::OffsetProgramCounterLo => addr.indirect is Some,
            BranchStep::OffsetProgramCounterHi => addr.indirect is Some,
            _ => true,
        }
    }

    closed spec fn next(&self, cpu: CPU, mem: MemView) -> (Self, CPU, MemView, bool) {
        self.step(cpu, mem)
    }

    open spec fn remaining(&self) -> nat {
        match self.step {
            BranchStep::ConditionExecution => 3,
            BranchStep::OffsetProgramCounterLo => 2,
            BranchStep::OffsetProgramCounterHi => 1,
            BranchStep::Done => 0,
        }
    }

    fn done(&self) -> (r: bool) {
        self.step == BranchStep::Done
    }

    fn tick(&mut self, cpu: &mut CPU, memory: &mut Generic64kMem) -> (r: bool) {
        match self.step {
            BranchStep::ConditionExecution => {
                let offset = memory.read(cpu.program_counter);
                cpu.addr.set_indirect_lo(offset);
                cpu.increment_program_counter();
                if self.condition.holds(cpu) {
                    self.step = BranchStep::OffsetProgramCounterLo;
                    return false;
                }
                cpu.addr.done = true;
                self.step = BranchStep::Done;
                true
            },
            BranchStep::OffsetProgramCounterLo => {
                let offset = crate::consts::word_lo(cpu.addr.indirect().unwrap());
                let program_counter_lo = cpu.get_program_counter_lo();
                let program_counter_hi = cpu.get_program_counter_hi();
                let offset_program_counter_lo: u8;
                let carry: bool;
                if offset >= 128 {
                    let amount: u16 = 256 - offset as u16;
                    if (program_counter_lo as u16) < amount {
                        offset_program_counter_lo = (program_counter_lo as u16 + 256 - amount) as u8;
                        carry = true;
                    } else {
                        offset_program_counter_lo = (program_counter_lo as u16 - amount) as u8;
                        carry = false;
                    }
                } else {
                    let t: u16 = program_counter_lo as u16 + offset as u16;
                    offset_program_counter_lo = (t % 256) as u8;
                    carry = t > 255;
                }
                cpu.program_counter = word_from_le_bytes(
                    offset_program_counter_lo,
                    program_counter_hi,
                );
                if !carry {
                    cpu.addr.set(cpu.program_counter);
                    cpu.addr.done = true;
                    self.step = BranchStep::Done;
                    return true;
                }
                self.step = BranchStep::OffsetProgramCounterHi;
                false
            },
            BranchStep::OffsetProgramCounterHi => {
                let offset = crate::consts::word_lo(cpu.addr.indirect().unwrap());
                let program_counter_lo = cpu.get_program_counter_lo();
                let program_counter_hi = cpu.get_program_counter_hi();
                let offset_program_counter_hi: Byte = if offset >= 128 {
                    program_counter_hi.wrapping_sub(1)
                } else {
                    program_counter_hi.wrapping_add(1)
                };
                cpu.program_counter = word_from_le_bytes(
                    program_counter_lo,
                    offset_program_counter_hi,
                );
                cpu.addr.set(cpu.program_counter);
                cpu.addr.done = true;
                self.step = BranchStep::Done;
                true
            },
            BranchStep::Done => true,
        }
    }

    proof fn lemma_next(&self, cpu: CPU, mem: MemView) {
    }

    proof fn lemma_next_ignores_last_access(&self, cpu: CPU, m1: MemView, m2: MemView) {
    }
}

impl BranchTasks {
    /// One cycle of this work: the work, processor and memory after it, and whether
    /// the work is finished.
    pub open spec fn step(&self, cpu: CPU, mem: MemView) -> (Self, CPU, MemView, bool) {
        let pc = cpu.program_counter;
        match self.step {
            BranchStep::ConditionExecution => {
                let a = cpu.addr.with_indirect_lo(mem_at(mem, pc));
                let c1 = cpu.with_addr(a).pc_incremented();
                if condition_holds(self.condition, c1) {
                    (
                        BranchTasks { step: BranchStep::OffsetProgramCounterLo, ..*self },
                        c1,
                        mem_after_read(mem, pc),
                        false,
                    )
                } else {
                    (
                        BranchTasks { step: BranchStep::Done, ..*self },
                        c1.with_addr(a.finished()),
                        mem_after_read(mem, pc),
                        true,
                    )
                }
            },
            BranchStep::OffsetProgramCounterLo => {
                let o = spec_lo(cpu.addr.indirect->0);
                let l = offset_lo(pc, o);
                let c1 = cpu.with_pc(spec_word(l.0, spec_hi(pc)));
                if !l.1 {
                    (
                        BranchTasks { step: BranchStep::Done, ..*self },
                        c1.with_addr(cpu.addr.with_val(c1.program_counter).finished()),
                        mem,
                        true,
                    )
                } else {
                    (BranchTasks { step: BranchStep::OffsetProgramCounterHi, ..*self }, c1, mem, false)
                }
            },
            BranchStep::OffsetProgramCounterHi => {
                let o = spec_lo(cpu.addr.indirect->0);
                let c1 = cpu.with_pc(spec_word(spec_lo(pc), fixed_hi(spec_hi(pc), o)));
                (
                    BranchTasks { step: BranchStep::Done, ..*self },
                    c1.with_addr(cpu.addr.with_val(c1.program_counter).finished()),
                    mem,
                    true,
                )
            },
            BranchStep::Done => (*self, cpu, mem, true),
        }
    }

    /// `next` is `step`.
    pub proof fn lemma_next_is_step(&self, cpu: CPU, mem: MemView)
        ensures
            self.next(cpu, mem) == self.step(cpu, mem),
    {
    }
}

/// Where a taken branch lands: `pc` moved by the signed (two's complement) `offset`,
/// wrapping around the address space.
pub open spec fn branch_target(pc: Word, offset: Byte) -> Word {
    if offset >= 128 {
        sub16(pc, (256 - offset as int) as Word)
    } else {
        add16(pc, offset as Word)
    }
}

/// Adding a signed offset to the low byte, then fixing the high byte when the page
/// changed, gives the branch target; the page changes exactly when the fix is needed.
proof fn lemma_offset_arithmetic(pc: Word, o: Byte)
    ensures
        ({
            let l = offset_lo(pc, o);
            &&& !l.1 ==> spec_word(l.0, spec_hi(pc)) == branch_target(pc, o) && spec_hi(
                branch_target(pc, o),
            ) == spec_hi(pc)
            &&& l.1 ==> spec_word(l.0, fixed_hi(spec_hi(pc), o)) == branch_target(pc, o)
                && spec_hi(branch_target(pc, o)) != spec_hi(pc)
        }),
{
}

/// A branch reads its offset (kept as the low byte of the indirect word) and, when its
/// condition fails, goes on after the operand in one cycle; when it holds, it lands on the target, in two cycles within the page
/// and three when the target lies on another page. Registers, flags and memory contents
/// stay as they were.
pub proof fn lemma_branch(condition: BranchCondition, cpu: CPU, mem: MemView)
    requires
        mem.0.len() == MEMORY_SIZE,
        cpu.cycle + 3 < usize::MAX,
    ensures
        ({
            let r = run(BranchTasks::fresh(condition), cpu, mem, 3);
            let next_pc = add16(cpu.program_counter, 1);
            let target = branch_target(next_pc, mem_at(mem, cpu.program_counter));
            &&& r.0.is_done()
            &&& r.2 == mem_after_read(mem, cpu.program_counter)
            &&& r.1.addr.done
            &&& r.1.addr.indirect matches Some(i) && spec_lo(i) == mem_at(mem, cpu.program_counter)
            &&& r.1 == (CPU {
                addr: r.1.addr,
                program_counter: r.1.program_counter,
                cycle: r.1.cycle,
                ..cpu
            })
            &&& !condition_holds(condition, cpu) ==> r.1.program_counter == next_pc && r.1.cycle
                == cpu.cycle + 1
            &&& condition_holds(condition, cpu) ==> r.1.program_counter == target && r.1.addr.val
                == Some(target) && r.1.cycle == cpu.cycle + if spec_hi(target) == spec_hi(next_pc) {
                2int
            } else {
                3int
            }
        }),
{
    let t0 = BranchTasks::fresh(condition);
    let s1 = stepped(t0, cpu, mem);
    lemma_run_step(t0, cpu, mem, 3);
    let o = mem_at(mem, cpu.program_counter);
    let next_pc = add16(cpu.program_counter, 1);
    assert(condition_holds(condition, s1.1) == condition_holds(condition, cpu));
    if !condition_holds(condition, cpu) {
        lemma_run_done(s1.0, s1.1, s1.2, 2);
    } else {
        crate::consts::lemma_word_parts(o, crate::cpu::addressing::address::hi_or_zero(cpu.addr.indirect));
        assert(spec_lo(s1.1.addr.indirect->0) == o);
        lemma_offset_arithmetic(next_pc, o);
        let s2 = stepped(s1.0, s1.1, s1.2);
        lemma_run_step(s1.0, s1.1, s1.2, 2);
        if !offset_lo(next_pc, o).1 {
            lemma_run_done(s2.0, s2.1, s2.2, 1);
        } else {
            crate::consts::lemma_word_parts(offset_lo(next_pc, o).0, spec_hi(next_pc));
            let s3 = stepped(s2.0, s2.1, s2.2);
            lemma_run_step(s2.0, s2.1, s2.2, 1);
            lemma_run_done(s3.0, s3.1, s3.2, 0);
        }
    }
}

/// The instruction a branch handler builds.
pub open spec fn branch_instruction(condition: BranchCondition) -> InstructionTasks {
    InstructionTasks::Branch(BranchTasks::fresh(condition))
}

/// Starts a branch: the operand is a relative offset.
pub fn branch(cpu: &mut CPU, condition: BranchCondition) -> (r: InstructionTasks)
    ensures
        r == branch_instruction(condition),
        *final(cpu) == old(cpu).with_addr(Address::cleared(AddressingMode::Relative, false)),
{
    cpu.addr.reset(AddressingMode::Relative);
    InstructionTasks::Branch(BranchTasks::new(condition))
}

/// `BCC rel`
pub fn bcc(cpu: &mut CPU) -> (r: InstructionTasks)
    ensures
        r == branch_instruction(BranchCondition::FlagClear(Flags::Carry)),
        *final(cpu) == old(cpu).with_addr(Address::cleared(AddressingMode::Relative, false)),
{
    branch(cpu, BranchCondition::FlagClear(Flags::Carry))
}

/// `BCS rel`
pub fn bcs(cpu: &mut CPU) -> (r: InstructionTasks)
    ensures
        r == branch_instruction(BranchCondition::FlagSet(Flags::Carry)),
        *final(cpu) == old(cpu).with_addr(Address::cleared(AddressingMode::Relative, false)),
{
    branch(cpu, BranchCondition::FlagSet(Flags::Carry))
}

/// `BEQ rel`
pub fn beq(cpu: &mut CPU) -> (r: InstructionTasks)
    ensures
        r == branch_instruction(BranchCondition::FlagSet(Flags::Zero)),
        *final(cpu) == old(cpu).with_addr(Address::cleared(AddressingMode::Relative, false)),
{
    branch(cpu, BranchCondition::FlagSet(Flags::Zero))
}

/// `BMI rel`
pub fn bmi(cpu: &mut CPU) -> (r: InstructionTasks)
    ensures
        r == branch_instruction(BranchCondition::FlagSet(Flags::Negative)),
        *final(cpu) == old(cpu).with_addr(Address::cleared(AddressingMode::Relative, false)),
{
    branch(cpu, BranchCondition::FlagSet(Flags::Negative))
}

/// `BNE rel`
pub fn bne(cpu: &mut CPU) -> (r: InstructionTasks)
    ensures
        r == branch_instruction(BranchCondition::FlagClear(Flags::Zero)),
        *final(cpu) == old(cpu).with_addr(Address::cleared(AddressingMode::Relative, false)),
{
    branch(cpu, BranchCondition::FlagClear(Flags::Zero))
}

/// `BPL rel`
pub fn bpl(cpu: &mut CPU) -> (r: InstructionTasks)
    ensures
        r == branch_instruction(BranchCondition::FlagClear(Flags::Negative)),
        *final(cpu) == old(cpu).with_addr(Address::cleared(AddressingMode::Relative, false)),
{
    branch(cpu, BranchCondition::FlagClear(Flags::Negative))
}

/// `BVS rel`
pub fn bvs(cpu: &mut CPU) -> (r: InstructionTasks)
    ensures
        r == branch_instruction(BranchCondition::FlagSet(Flags::Overflow)),
        *final(cpu) == old(cpu).with_addr(Address::cleared(AddressingMode::Relative, false)),
{
    branch(cpu, BranchCondition::FlagSet(Flags::Overflow))
}

/// `BVC rel`
pub fn bvc(cpu: &mut CPU) -> (r: InstructionTasks)
    ensures
        r == branch_instruction(BranchCondition::FlagClear(Flags::Overflow)),
        *final(cpu) == old(cpu).with_addr(Address::cleared(AddressingMode::Relative, false)),
{
    branch(cpu, BranchCondition::FlagClear(Flags::Overflow))
}

} // verus!
