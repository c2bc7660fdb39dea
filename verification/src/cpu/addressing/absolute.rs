use crate::consts::{spec_hi, spec_lo, spec_word, word_from_le_bytes, word_hi, word_lo, Word};
use crate::cpu::addressing::address::Address;
use crate::cpu::addressing::{offset_value, AddressingMode, AddressingTasks, OffsetVariant};
use crate::cpu::tasks::{lemma_run_done, lemma_run_step, run, stepped, Tasks};
use crate::cpu::{add16, add8, CPU};
use crate::memory::{mem_after_read, mem_at, Generic64kMem, MemView, Memory, MEMORY_SIZE};
use vstd::prelude::*;

verus! {

/// Progress of absolute indexed addressing.
#[derive(PartialEq, Eq, Structural)]
pub enum AbsoluteOffsetStep {
    MemoryAccessLo,
    MemoryAccessHiOffsetLo,
    FixHi,
    Refetch,
    Done,
}

/// What the instruction does with the operand: this decides whether a page
/// crossing costs an extra cycle.
#[derive(Debug, Copy, Clone, PartialEq, Eq, Structural)]
pub enum AccessVariant {
    Read,
    Modify,
    Write,
}

/// Absolute indexed addressing: a word from the instruction stream plus an index
/// register. Reads that stay within the page take three cycles, reads that cross
/// it four; writes always take three and read-modify-writes always four.
pub struct AbsoluteOffsetAddressingTasks {
    pub step: AbsoluteOffsetStep,
    pub offset_variant: OffsetVariant,
    pub access_variant: AccessVariant,
    pub carry: bool,
}

/// The addressing mode an offset variant gives absolute indexing.
pub open spec fn absolute_mode(variant: OffsetVariant) -> AddressingMode {
    match variant {
        OffsetVariant::X => AddressingMode::AbsoluteX,
        OffsetVariant::Y => AddressingMode::AbsoluteY,
    }
}

impl AbsoluteOffsetAddressingTasks {
    pub open spec fn fresh(offset_variant: OffsetVariant, access_variant: AccessVariant) -> Self {
        AbsoluteOffsetAddressingTasks {
            step: AbsoluteOffsetStep::MemoryAccessLo,
            offset_variant,
            access_variant,
            carry: false,
        }
    }

    pub fn new(offset_variant: OffsetVariant, access_variant: AccessVariant) -> (r: Self)
        ensures
            r == Self::fresh(offset_variant, access_variant),
    {
        AbsoluteOffsetAddressingTasks {
            step: AbsoluteOffsetStep::MemoryAccessLo,
            offset_variant,
            access_variant,
            carry: false,
        }
    }
}

impl AddressingTasks for AbsoluteOffsetAddressingTasks {
    open spec fn spec_fetch_during_addressing(&self) -> bool {
        true
    }

    fn fetch_during_addressing(&self) -> (r: bool) {
        true
    }

    proof fn lemma_finishes_with_address(&self, cpu: CPU, mem: MemView) {
    }
}

impl Tasks for AbsoluteOffsetAddressingTasks {
    open spec fn is_done(&self) -> bool {
        self.step == AbsoluteOffsetStep::Done
    }

    open spec fn can_tick(&self, addr: Address) -> bool {
        match self.step {
            AbsoluteOffsetStep::MemoryAccessLo => true,
            AbsoluteOffsetStep::MemoryAccessHiOffsetLo => true,
            AbsoluteOffsetStep::FixHi => addr.val is Some,
            AbsoluteOffsetStep::Refetch => addr.val is Some,
            AbsoluteOffsetStep::Done => false,
        }
    }

    open spec fn next(&self, cpu: CPU, mem: MemView) -> (Self, CPU, MemView, bool) {
        let pc = cpu.program_counter;
        match self.step {
            AbsoluteOffsetStep::MemoryAccessLo => {
                let a = Address::cleared(absolute_mode(self.offset_variant), false).with_indirect_lo(
                    mem_at(mem, pc),
                );
                (
                    AbsoluteOffsetAddressingTasks {
                        step: AbsoluteOffsetStep::MemoryAccessHiOffsetLo,
                        ..*self
                    },
                    cpu.with_addr(a).pc_incremented(),
                    mem_after_read(mem, pc),
                    false,
                )
            },
            AbsoluteOffsetStep::MemoryAccessHiOffsetLo => {
                let a1 = cpu.addr.with_indirect_hi(mem_at(mem, pc));
                let base = a1.indirect->0;
                let sum = spec_lo(base) as int + offset_value(cpu, self.offset_variant) as int;
                let a2 = a1.with_val(spec_word((sum % 256) as u8, spec_hi(base)));
                (
                    AbsoluteOffsetAddressingTasks {
                        step: AbsoluteOffsetStep::FixHi,
                        carry: sum > 255,
                        ..*self
                    },
                    cpu.with_addr(a2).pc_incremented(),
                    mem_after_read(mem, pc),
                    false,
                )
            },
            AbsoluteOffsetStep::FixHi => {
                let v = cpu.addr.val->0;
                let m1 = mem_after_read(mem, v);
                if self.access_variant == AccessVariant::Read && !self.carry {
                    (
                        AbsoluteOffsetAddressingTasks { step: AbsoluteOffsetStep::Done, ..*self },
                        cpu.with_addr(cpu.addr.finished()),
                        m1,
                        true,
                    )
                } else {
                    let a1 = if self.carry {
                        cpu.addr.with_hi(add8(spec_hi(v), 1))
                    } else {
                        cpu.addr
                    };
                    if self.access_variant == AccessVariant::Write {
                        (
                            AbsoluteOffsetAddressingTasks { step: AbsoluteOffsetStep::Done, ..*self },
                            cpu.with_addr(a1.finished()),
                            m1,
                            true,
                        )
                    } else {
                        (
                            AbsoluteOffsetAddressingTasks {
                                step: AbsoluteOffsetStep::Refetch,
                                ..*self
                            },
                            cpu.with_addr(a1),
                            m1,
                            false,
                        )
                    }
                }
            },
            _ => {
                let v = cpu.addr.val->0;
                (
                    AbsoluteOffsetAddressingTasks { step: AbsoluteOffsetStep::Done, ..*self },
                    cpu.with_addr(cpu.addr.finished()),
                    mem_after_read(mem, v),
                    true,
                )
            },
        }
    }

    open spec fn remaining(&self) -> nat {
        match self.step {
            AbsoluteOffsetStep::MemoryAccessLo => 4,
            AbsoluteOffsetStep::MemoryAccessHiOffsetLo => 3,
            AbsoluteOffsetStep::FixHi => 2,
            AbsoluteOffsetStep::Refetch => 1,
            AbsoluteOffsetStep::Done => 0,
        }
    }

    fn done(&self) -> (r: bool) {
        self.step == AbsoluteOffsetStep::Done
    }

    fn tick(&mut self, cpu: &mut CPU, memory: &mut Generic64kMem) -> (r: bool) {
        match self.step {
            AbsoluteOffsetStep::MemoryAccessLo => {
                match self.offset_variant {
                    OffsetVariant::X => cpu.addr.reset(AddressingMode::AbsoluteX),
                    OffsetVariant::Y => cpu.addr.reset(AddressingMode::AbsoluteY),
                }
                let addr_lo = memory.read(cpu.program_counter);
                cpu.addr.set_indirect_lo(addr_lo);
                cpu.increment_program_counter();
                self.step = AbsoluteOffsetStep::MemoryAccessHiOffsetLo;
                false
            },
            AbsoluteOffsetStep::MemoryAccessHiOffsetLo => {
                let addr_hi = memory.read(cpu.program_counter);
                cpu.addr.set_indirect_hi(addr_hi);
                cpu.increment_program_counter();
                let offset = match self.offset_variant {
                    OffsetVariant::X => cpu.index_register_x,
                    OffsetVariant::Y => cpu.index_register_y,
                };
                let indirect = cpu.addr.indirect().unwrap();
                let lo = word_lo(indirect);
                let hi = word_hi(indirect);
                let sum: u16 = lo as u16 + offset as u16;
                let new_lo = (sum % 256) as u8;
                let carry = sum > 255;
                cpu.addr.set(word_from_le_bytes(new_lo, hi));
                self.carry = carry;
                self.step = AbsoluteOffsetStep::FixHi;
                false
            },
            AbsoluteOffsetStep::FixHi => {
                let tgt_addr = cpu.addr.value().unwrap();
                let hi = word_hi(tgt_addr);
                let _ = memory.read(tgt_addr);  // dummy read
                if self.access_variant == AccessVariant::Read && !self.carry {
                    cpu.addr.done = true;
                    self.step = AbsoluteOffsetStep::Done;
                    return true;
                }
                if self.carry {
                    cpu.addr.set_hi(hi.wrapping_add(1));
                }
                if self.access_variant == AccessVariant::Write {
                    cpu.addr.done = true;
                    self.step = AbsoluteOffsetStep::Done;
                    return true;
                }
                self.step = AbsoluteOffsetStep::Refetch;
                false
            },
            AbsoluteOffsetStep::Refetch => {
                let tgt_addr = cpu.addr.value().unwrap();
                let _ = memory.read(tgt_addr);  // dummy read
                cpu.addr.done = true;
                self.step = AbsoluteOffsetStep::Done;
                true
            },
            AbsoluteOffsetStep::Done => {
                true
            },
        }
    }

    proof fn lemma_next(&self, cpu: CPU, mem: MemView) {
    }

    proof fn lemma_next_ignores_last_access(&self, cpu: CPU, m1: MemView, m2: MemView) {
    }
}

/// Adding an index to the low byte of a word, and carrying into the high byte when the
/// sum overflows, gives the word plus the index; the carry happens exactly when the
/// result lies on another page.
pub proof fn lemma_index_arithmetic(base: Word, index: u8)
    ensures
        ({
            let sum = spec_lo(base) as int + index as int;
            let v = spec_word((sum % 256) as u8, spec_hi(base));
            &&& sum <= 255 ==> v == add16(base, index as Word) && spec_hi(add16(base, index as Word))
                == spec_hi(base)
            &&& sum > 255 ==> spec_word(spec_lo(v), add8(spec_hi(v), 1)) == add16(base, index as Word)
                && spec_hi(add16(base, index as Word)) != spec_hi(base)
        }),
{
}

/// Absolute indexed addressing yields the operand word plus the index register,
/// wrapping around the address space, after reading both operand bytes. A read takes
/// three cycles, or four when the index carries into another page; a write always three;
/// a read-modify-write always four.
#[verifier::rlimit(40)]
pub proof fn lemma_absolute_indexed(
    variant: OffsetVariant,
    access: AccessVariant,
    cpu: CPU,
    mem: MemView,
)
    requires
        mem.0.len() == MEMORY_SIZE,
        cpu.cycle + 4 < usize::MAX,
    ensures
        ({
            let r = run(AbsoluteOffsetAddressingTasks::fresh(variant, access), cpu, mem, 4);
            let pc = cpu.program_counter;
            let base = spec_word(mem_at(mem, pc), mem_at(mem, add16(pc, 1)));
            let target = add16(base, offset_value(cpu, variant) as Word);
            let crosses = spec_hi(target) != spec_hi(base);
            &&& r.0.is_done()
            &&& r.1.addr.val == Some(target)
            &&& r.1.addr.indirect == Some(base)
            &&& r.1.addr.mode == Some(absolute_mode(variant))
            &&& r.1.addr.done
            &&& r.1.program_counter == add16(pc, 2)
            &&& r.1 == (CPU {
                addr: r.1.addr,
                program_counter: r.1.program_counter,
                cycle: r.1.cycle,
                ..cpu
            })
            &&& r.2.0 == mem.0
            &&& r.1.cycle == cpu.cycle + match access {
                AccessVariant::Read => if crosses {
                    4int
                } else {
                    3int
                },
                AccessVariant::Write => 3int,
                AccessVariant::Modify => 4int,
            }
        }),
{
    let t0 = AbsoluteOffsetAddressingTasks::fresh(variant, access);
    let s1 = stepped(t0, cpu, mem);
    lemma_run_step(t0, cpu, mem, 4);
    let s2 = stepped(s1.0, s1.1, s1.2);
    lemma_run_step(s1.0, s1.1, s1.2, 3);
    let pc = cpu.program_counter;
    crate::consts::lemma_word_parts(mem_at(mem, pc), 0);
    let base = spec_word(mem_at(mem, pc), mem_at(mem, add16(pc, 1)));
    crate::consts::lemma_word_parts(mem_at(mem, pc), mem_at(mem, add16(pc, 1)));
    assert(s2.1.addr.indirect == Some(base));
    let sum = spec_lo(base) as int + offset_value(cpu, variant) as int;
    lemma_index_arithmetic(base, offset_value(cpu, variant));
    crate::consts::lemma_word_parts((sum % 256) as u8, spec_hi(base));
    assert(s2.1.addr.val == Some(spec_word((sum % 256) as u8, spec_hi(base))));
    assert(s2.0.carry == (sum > 255));
    assert(s2.1.cycle == cpu.cycle + 2);
    assert(s2.1.program_counter == add16(pc, 2));
    assert(s2.2.0 == mem.0);
    let s3 = stepped(s2.0, s2.1, s2.2);
    lemma_run_step(s2.0, s2.1, s2.2, 2);
    if access == AccessVariant::Read && sum <= 255 {
        assert(s3.0.is_done());
        lemma_run_done(s3.0, s3.1, s3.2, 1);
    } else if access == AccessVariant::Write {
        assert(s3.0.is_done());
        lemma_run_done(s3.0, s3.1, s3.2, 1);
    } else {
        assert(!s3.0.is_done());
        let s4 = stepped(s3.0, s3.1, s3.2);
        lemma_run_step(s3.0, s3.1, s3.2, 1);
        lemma_run_done(s4.0, s4.1, s4.2, 0);
    }
}

/// Progress of absolute addressing.
#[derive(PartialEq, Eq, Structural)]
pub enum AbsoluteStep {
    MemoryLo,
    MemoryHi,
    Done,
}

/// Absolute addressing: the little-endian word following the opcode (two cycles).
pub struct AbsoluteAddressingTasks {
    pub step: AbsoluteStep,
}

impl AbsoluteAddressingTasks {
    pub open spec fn fresh() -> Self {
        AbsoluteAddressingTasks { step: AbsoluteStep::MemoryLo }
    }

    pub fn new() -> (r: Self)
        ensures
            r == Self::fresh(),
    {
        AbsoluteAddressingTasks { step: AbsoluteStep::MemoryLo }
    }
}

impl AddressingTasks for AbsoluteAddressingTasks {
    open spec fn spec_fetch_during_addressing(&self) -> bool {
        false
    }

    fn fetch_during_addressing(&self) -> (r: bool) {
        false
    }

    proof fn lemma_finishes_with_address(&self, cpu: CPU, mem: MemView) {
    }
}

impl Tasks for AbsoluteAddressingTasks {
    open spec fn is_done(&self) -> bool {
        self.step == AbsoluteStep::Done
    }

    open spec fn can_tick(&self, addr: Address) -> bool {
        self.step != AbsoluteStep::Done
    }

    open spec fn next(&self, cpu: CPU, mem: MemView) -> (Self, CPU, MemView, bool) {
        let pc = cpu.program_counter;
        match self.step {
            AbsoluteStep::MemoryLo => {
                let a = Address::cleared(AddressingMode::Absolute, false).with_lo(mem_at(mem, pc));
                (
                    AbsoluteAddressingTasks { step: AbsoluteStep::MemoryHi },
                    cpu.with_addr(a).pc_incremented(),
                    mem_after_read(mem, pc),
                    false,
                )
            },
            _ => {
                let a = cpu.addr.with_hi(mem_at(mem, pc)).finished();
                (
                    AbsoluteAddressingTasks { step: AbsoluteStep::Done },
                    cpu.with_addr(a).pc_incremented(),
                    mem_after_read(mem, pc),
                    true,
                )
            },
        }
    }

    open spec fn remaining(&self) -> nat {
        match self.step {
            AbsoluteStep::MemoryLo => 2,
            AbsoluteStep::MemoryHi => 1,
            AbsoluteStep::Done => 0,
        }
    }

    fn done(&self) -> (r: bool) {
        self.step == AbsoluteStep::Done
    }

    fn tick(&mut self, cpu: &mut CPU, memory: &mut Generic64kMem) -> (r: bool) {
        match self.step {
            AbsoluteStep::MemoryLo => {
                cpu.addr.reset(AddressingMode::Absolute);
                let addr_lo = memory.read(cpu.program_counter);
                cpu.addr.set_lo(addr_lo);
                cpu.increment_program_counter();
                self.step = AbsoluteStep::MemoryHi;
                false
            },
            AbsoluteStep::MemoryHi => {
                let addr_hi = memory.read(cpu.program_counter);
                cpu.addr.set_hi(addr_hi);
                cpu.increment_program_counter();
                cpu.addr.done = true;
                self.step = AbsoluteStep::Done;
                true
            },
            AbsoluteStep::Done => {
                true
            },
        }
    }

    proof fn lemma_next(&self, cpu: CPU, mem: MemView) {
    }

    proof fn lemma_next_ignores_last_access(&self, cpu: CPU, m1: MemView, m2: MemView) {
    }
}

} // verus!
