use crate::consts::{spec_hi, spec_lo, spec_word, word_from_le_bytes, word_hi, word_lo, Byte, Word};
use crate::cpu::addressing::absolute::AccessVariant;
use crate::cpu::addressing::address::Address;
use crate::cpu::addressing::{AddressingMode, AddressingTasks};
use crate::cpu::tasks::{lemma_run_done, lemma_run_step, run, stepped, Tasks};
use crate::cpu::{add16, add8, CPU};
use crate::memory::{mem_after_read, mem_at, Generic64kMem, MemView, Memory, MEMORY_SIZE};
use vstd::prelude::*;

verus! {

/// Progress of indirect indexed addressing.
#[derive(PartialEq, Eq, Structural)]
pub enum IndirectIndexYStep {
    PointerAddrFetch,
    IndirectAccessLo,
    IndirectAccessHi,
    MemAccessAndFixHi,
    Refetch,
    Done,
}

/// Indirect indexed addressing `(zp),Y`: a word read from the zero page plus
/// index register Y. Reads take four cycles, or five when crossing a page.
pub struct IndirectIndexYAddressingTasks {
    pub step: IndirectIndexYStep,
    pub carry: bool,
    pub access_variant: AccessVariant,
}

impl IndirectIndexYAddressingTasks {
    pub open spec fn fresh(access_variant: AccessVariant) -> Self {
        IndirectIndexYAddressingTasks {
            step: IndirectIndexYStep::PointerAddrFetch,
            carry: false,
            access_variant,
        }
    }

    pub fn new(access_variant: AccessVariant) -> (r: Self)
        ensures
            r == Self::fresh(access_variant),
    {
        IndirectIndexYAddressingTasks {
            step: IndirectIndexYStep::PointerAddrFetch,
            carry: false,
            access_variant,
        }
    }
}

impl AddressingTasks for IndirectIndexYAddressingTasks {
    open spec fn spec_fetch_during_addressing(&self) -> bool {
        true
    }

    fn fetch_during_addressing(&self) -> (r: bool) {
        true
    }

    proof fn lemma_finishes_with_address(&self, cpu: CPU, mem: MemView) {
    }
}

impl Tasks for IndirectIndexYAddressingTasks {
    open spec fn is_done(&self) -> bool {
        self.step == IndirectIndexYStep::Done
    }

    open spec fn can_tick(&self, addr: Address) -> bool {
        match self.step {
            IndirectIndexYStep::PointerAddrFetch => true,
            IndirectIndexYStep::IndirectAccessLo => addr.indirect is Some,
            IndirectIndexYStep::IndirectAccessHi => addr.indirect is Some,
            IndirectIndexYStep::MemAccessAndFixHi => addr.val is Some,
            IndirectIndexYStep::Refetch => addr.val is Some,
            IndirectIndexYStep::Done => false,
        }
    }

    open spec fn next(&self, cpu: CPU, mem: MemView) -> (Self, CPU, MemView, bool) {
        let pc = cpu.program_counter;
        match self.step {
            IndirectIndexYStep::PointerAddrFetch => {
                let a = Address::cleared(AddressingMode::IndirectIndexY, false).with_indirect_lo(
                    mem_at(mem, pc),
                );
                (
                    IndirectIndexYAddressingTasks {
                        step: IndirectIndexYStep::IndirectAccessLo,
                        ..*self
                    },
                    cpu.with_addr(a).pc_incremented(),
                    mem_after_read(mem, pc),
                    false,
                )
            },
            IndirectIndexYStep::IndirectAccessLo => {
                let ptr = cpu.addr.indirect->0;
                (
                    IndirectIndexYAddressingTasks {
                        step: IndirectIndexYStep::IndirectAccessHi,
                        ..*self
                    },
                    cpu.with_addr(cpu.addr.with_lo(mem_at(mem, ptr))),
                    mem_after_read(mem, ptr),
                    false,
                )
            },
            IndirectIndexYStep::IndirectAccessHi => {
                let ind = cpu.addr.indirect->0;
                let ptr = spec_word(add8(spec_lo(ind), 1), spec_hi(ind));
                let a1 = cpu.addr.with_hi(mem_at(mem, ptr));
                let sum = spec_lo(a1.val->0) as int + cpu.index_register_y as int;
                let a2 = a1.with_lo((sum % 256) as u8);
                (
                    IndirectIndexYAddressingTasks {
                        step: IndirectIndexYStep::MemAccessAndFixHi,
                        carry: sum > 255,
                        ..*self
                    },
                    cpu.with_addr(a2),
                    mem_after_read(mem, ptr),
                    false,
                )
            },
            IndirectIndexYStep::MemAccessAndFixHi => {
                let tgt = cpu.addr.val->0;
                let m1 = mem_after_read(mem, tgt);
                if !self.carry {
                    (
                        IndirectIndexYAddressingTasks { step: IndirectIndexYStep::Done, ..*self },
                        cpu.with_addr(cpu.addr.finished()),
                        m1,
                        true,
                    )
                } else {
                    let a1 = cpu.addr.with_hi(add8(spec_hi(tgt), 1));
                    if self.access_variant == AccessVariant::Read {
                        (
                            IndirectIndexYAddressingTasks {
                                step: IndirectIndexYStep::Refetch,
                                ..*self
                            },
                            cpu.with_addr(a1),
                            m1,
                            false,
                        )
                    } else {
                        (
                            IndirectIndexYAddressingTasks {
                                step: IndirectIndexYStep::Done,
                                ..*self
                            },
                            cpu.with_addr(a1),
                            m1,
                            true,
                        )
                    }
                }
            },
            _ => {
                let tgt = cpu.addr.val->0;
                (
                    IndirectIndexYAddressingTasks { step: IndirectIndexYStep::Done, ..*self },
                    cpu.with_addr(cpu.addr.finished()),
                    mem_after_read(mem, tgt),
                    true,
                )
            },
        }
    }

    open spec fn remaining(&self) -> nat {
        match self.step {
            IndirectIndexYStep::PointerAddrFetch => 5,
            IndirectIndexYStep::IndirectAccessLo => 4,
            IndirectIndexYStep::IndirectAccessHi => 3,
            IndirectIndexYStep::MemAccessAndFixHi => 2,
            IndirectIndexYStep::Refetch => 1,
            IndirectIndexYStep::Done => 0,
        }
    }

    fn done(&self) -> (r: bool) {
        self.step == IndirectIndexYStep::Done
    }

    #[verifier::rlimit(40)]
    fn tick(&mut self, cpu: &mut CPU, memory: &mut Generic64kMem) -> (r: bool) {
        match self.step {
            IndirectIndexYStep::PointerAddrFetch => {
                cpu.addr.reset(AddressingMode::IndirectIndexY);
                let addr: Byte = memory.read(cpu.program_counter);
                cpu.addr.set_indirect_lo(addr);
                cpu.increment_program_counter();
                self.step = IndirectIndexYStep::IndirectAccessLo;
                false
            },
            IndirectIndexYStep::IndirectAccessLo => {
                let ptr_addr = cpu.addr.indirect().unwrap();
                let addr_lo = memory.read(ptr_addr);
                cpu.addr.set_lo(addr_lo);
                self.step = IndirectIndexYStep::IndirectAccessHi;
                false
            },
            IndirectIndexYStep::IndirectAccessHi => {
                let indirect = cpu.addr.indirect().unwrap();
                let indirect_lo = word_lo(indirect);
                let indirect_hi = word_hi(indirect);
                let ptr_addr = word_from_le_bytes(indirect_lo.wrapping_add(1), indirect_hi);
                let addr_hi = memory.read(ptr_addr);
                cpu.addr.set_hi(addr_hi);
                let lo = word_lo(cpu.addr.value().unwrap());
                let sum: u16 = lo as u16 + cpu.index_register_y as u16;
                let new_lo = (sum % 256) as u8;
                let carry = sum > 255;
                cpu.addr.set_lo(new_lo);
                self.carry = carry;
                self.step = IndirectIndexYStep::MemAccessAndFixHi;
                false
            },
            IndirectIndexYStep::MemAccessAndFixHi => {
                let tgt_addr = cpu.addr.value().unwrap();
                let _ = memory.read(tgt_addr);  // dummy fetch
                if !self.carry {
                    cpu.addr.done = true;
                    self.step = IndirectIndexYStep::Done;
                    return true;
                }
                let hi = word_hi(tgt_addr);
                let new_hi = hi.wrapping_add(1);
                cpu.addr.set_hi(new_hi);
                match self.access_variant {
                    AccessVariant::Read => {
                        self.step = IndirectIndexYStep::Refetch;
                        false
                    },
                    AccessVariant::Modify | AccessVariant::Write => {
                        self.step = IndirectIndexYStep::Done;
                        true
                    },
                }
            },
            IndirectIndexYStep::Refetch => {
                let tgt_addr = cpu.addr.value().unwrap();
                let _ = memory.read(tgt_addr);  // dummy refetch
                cpu.addr.done = true;
                self.step = IndirectIndexYStep::Done;
                true
            },
            IndirectIndexYStep::Done => {
                true
            },
        }
    }

    proof fn lemma_next(&self, cpu: CPU, mem: MemView) {
    }

    proof fn lemma_next_ignores_last_access(&self, cpu: CPU, m1: MemView, m2: MemView) {
    }
}

/// Indirect indexed addressing `(zp),Y`: the operand names a zero-page pointer whose
/// two bytes (the second wrapping within the zero page) hold a base address; the
/// effective address is the base plus `Y`, wrapping around the address space. It takes
/// four cycles, and five for a read whose index carries into another page. A write or
/// read-modify-write whose index carries into another page ends without marking the
/// addressing as done: the fixed-up address is there, but the flag stays clear.
#[verifier::rlimit(40)]
pub proof fn lemma_indirect_index_y(access: AccessVariant, cpu: CPU, mem: MemView)
    requires
        mem.0.len() == MEMORY_SIZE,
        cpu.cycle + 5 < usize::MAX,
    ensures
        ({
            let r = run(IndirectIndexYAddressingTasks::fresh(access), cpu, mem, 5);
            let zp = mem_at(mem, cpu.program_counter);
            let base = spec_word(mem_at(mem, zp as Word), mem_at(mem, add8(zp, 1) as Word));
            let target = add16(base, cpu.index_register_y as Word);
            let crosses = spec_hi(target) != spec_hi(base);
            &&& r.0.is_done()
            &&& r.1.addr.val == Some(target)
            &&& r.1.addr.done == !(crosses && access != AccessVariant::Read)
            &&& r.1 == (CPU {
                addr: r.1.addr,
                program_counter: r.1.program_counter,
                cycle: r.1.cycle,
                ..cpu
            })
            &&& r.1.program_counter == add16(cpu.program_counter, 1)
            &&& r.2.0 == mem.0
            &&& r.1.cycle == cpu.cycle + if crosses && access == AccessVariant::Read {
                5int
            } else {
                4int
            }
        }),
{
    let zp = mem_at(mem, cpu.program_counter);
    let lo = mem_at(mem, zp as Word);
    let hi = mem_at(mem, add8(zp, 1) as Word);
    let base = spec_word(lo, hi);
    let y = cpu.index_register_y;
    crate::consts::lemma_word_parts(zp, 0);
    crate::consts::lemma_word_parts(lo, 0);
    crate::consts::lemma_word_parts(lo, hi);
    let t0 = IndirectIndexYAddressingTasks::fresh(access);
    let s1 = stepped(t0, cpu, mem);
    lemma_run_step(t0, cpu, mem, 5);
    assert(s1.1.addr.indirect == Some(spec_word(zp, 0)));
    let s2 = stepped(s1.0, s1.1, s1.2);
    lemma_run_step(s1.0, s1.1, s1.2, 4);
    assert(s2.1.addr.val == Some(spec_word(lo, 0)));
    let s3 = stepped(s2.0, s2.1, s2.2);
    lemma_run_step(s2.0, s2.1, s2.2, 3);
    assert(spec_word(add8(spec_lo(spec_word(zp, 0)), 1), spec_hi(spec_word(zp, 0))) == add8(zp, 1)
        as Word);
    let sum = spec_lo(base) as int + y as int;
    crate::consts::lemma_word_parts((sum % 256) as u8, hi);
    assert(s3.1.addr.val == Some(spec_word((sum % 256) as u8, hi)));
    assert(s3.0.carry == (sum > 255));
    crate::cpu::addressing::absolute::lemma_index_arithmetic(base, y);
    let s4 = stepped(s3.0, s3.1, s3.2);
    lemma_run_step(s3.0, s3.1, s3.2, 2);
    if sum > 255 && access == AccessVariant::Read {
        let s5 = stepped(s4.0, s4.1, s4.2);
        lemma_run_step(s4.0, s4.1, s4.2, 1);
        lemma_run_done(s5.0, s5.1, s5.2, 0);
    } else {
        lemma_run_done(s4.0, s4.1, s4.2, 1);
    }
}

/// Progress of indexed indirect addressing.
#[derive(PartialEq, Eq, Structural)]
pub enum IndexIndirectXStep {
    IndirectAccess,
    SumWithX,
    MemoryAccessLo,
    MemoryAccessHi,
    Done,
}

/// Indexed indirect addressing `(zp,X)`: the word stored at the zero page
/// address operand plus X, wrapping within the zero page (four cycles).
pub struct IndexIndirectXAddressingTasks {
    pub step: IndexIndirectXStep,
    pub tgt_addr_lo: u8,
}

impl IndexIndirectXAddressingTasks {
    pub open spec fn fresh() -> Self {
        IndexIndirectXAddressingTasks { step: IndexIndirectXStep::IndirectAccess, tgt_addr_lo: 0 }
    }

    pub fn new() -> (r: Self)
        ensures
            r == Self::fresh(),
    {
        IndexIndirectXAddressingTasks { step: IndexIndirectXStep::IndirectAccess, tgt_addr_lo: 0 }
    }
}

impl AddressingTasks for IndexIndirectXAddressingTasks {
    open spec fn spec_fetch_during_addressing(&self) -> bool {
        false
    }

    fn fetch_during_addressing(&self) -> (r: bool) {
        false
    }

    proof fn lemma_finishes_with_address(&self, cpu: CPU, mem: MemView) {
    }
}

impl Tasks for IndexIndirectXAddressingTasks {
    open spec fn is_done(&self) -> bool {
        self.step == IndexIndirectXStep::Done
    }

    open spec fn can_tick(&self, addr: Address) -> bool {
        match self.step {
            IndexIndirectXStep::SumWithX => addr.indirect is Some,
            IndexIndirectXStep::Done => false,
            _ => true,
        }
    }

    open spec fn next(&self, cpu: CPU, mem: MemView) -> (Self, CPU, MemView, bool) {
        let pc = cpu.program_counter;
        match self.step {
            IndexIndirectXStep::IndirectAccess => {
                let a = Address::cleared(AddressingMode::IndexIndirectX, false).with_indirect_lo(
                    mem_at(mem, pc),
                );
                (
                    IndexIndirectXAddressingTasks { step: IndexIndirectXStep::SumWithX, ..*self },
                    cpu.with_addr(a).pc_incremented(),
                    mem_after_read(mem, pc),
                    false,
                )
            },
            IndexIndirectXStep::SumWithX => {
                let ao = cpu.addr.indirect->0;
                (
                    IndexIndirectXAddressingTasks {
                        step: IndexIndirectXStep::MemoryAccessLo,
                        tgt_addr_lo: add8(spec_lo(ao), cpu.index_register_x),
                    },
                    cpu,
                    mem_after_read(mem, ao),
                    false,
                )
            },
            IndexIndirectXStep::MemoryAccessLo => {
                let p = spec_word(self.tgt_addr_lo, 0);
                (
                    IndexIndirectXAddressingTasks {
                        step: IndexIndirectXStep::MemoryAccessHi,
                        ..*self
                    },
                    cpu.with_addr(cpu.addr.with_lo(mem_at(mem, p))),
                    mem_after_read(mem, p),
                    false,
                )
            },
            _ => {
                let p = spec_word(add8(self.tgt_addr_lo, 1), 0);
                (
                    IndexIndirectXAddressingTasks { step: IndexIndirectXStep::Done, ..*self },
                    cpu.with_addr(cpu.addr.with_hi(mem_at(mem, p)).finished()),
                    mem_after_read(mem, p),
                    true,
                )
            },
        }
    }

    open spec fn remaining(&self) -> nat {
        match self.step {
            IndexIndirectXStep::IndirectAccess => 4,
            IndexIndirectXStep::SumWithX => 3,
            IndexIndirectXStep::MemoryAccessLo => 2,
            IndexIndirectXStep::MemoryAccessHi => 1,
            IndexIndirectXStep::Done => 0,
        }
    }

    fn done(&self) -> (r: bool) {
        self.step == IndexIndirectXStep::Done
    }

    fn tick(&mut self, cpu: &mut CPU, memory: &mut Generic64kMem) -> (r: bool) {
        match self.step {
            IndexIndirectXStep::IndirectAccess => {
                cpu.addr.reset(AddressingMode::IndexIndirectX);
                let addr: Byte = memory.read(cpu.program_counter);
                cpu.addr.set_indirect_lo(addr);
                cpu.increment_program_counter();
                self.step = IndexIndirectXStep::SumWithX;
                false
            },
            IndexIndirectXStep::SumWithX => {
                let addr_output = cpu.addr.indirect().unwrap();
                let _ = memory.read(addr_output);  // dummy read
                self.tgt_addr_lo = word_lo(addr_output).wrapping_add(cpu.index_register_x);
                self.step = IndexIndirectXStep::MemoryAccessLo;
                false
            },
            IndexIndirectXStep::MemoryAccessLo => {
                let addr_lo = memory.read(word_from_le_bytes(self.tgt_addr_lo, 0x0));
                cpu.addr.set_lo(addr_lo);
                self.step = IndexIndirectXStep::MemoryAccessHi;
                false
            },
            IndexIndirectXStep::MemoryAccessHi => {
                let tgt_addr = word_from_le_bytes(self.tgt_addr_lo.wrapping_add(1), 0x0);
                let addr_hi = memory.read(tgt_addr);
                cpu.addr.set_hi(addr_hi);
                cpu.addr.done = true;
                self.step = IndexIndirectXStep::Done;
                true
            },
            IndexIndirectXStep::Done => {
                true
            },
        }
    }

    proof fn lemma_next(&self, cpu: CPU, mem: MemView) {
    }

    proof fn lemma_next_ignores_last_access(&self, cpu: CPU, m1: MemView, m2: MemView) {
    }
}

/// Progress of indirect addressing.
#[derive(PartialEq, Eq, Structural)]
pub enum IndirectStep {
    IndirectFetchLo,
    IndirectFetchHi,
    AddrFixing,
    MemoryAccessLo,
    FixedMemoryAccessHi,
    IncorrectMemoryAccessHi,
    Done,
}

/// Indirect addressing `(abs)`, used by `JMP`. The NMOS part fetches the high byte
/// of a pointer ending in `$FF` from the start of the same page (four cycles);
/// the CMOS parts fetch it correctly and spend one more cycle.
pub struct IndirectAddressingTasks {
    pub fixed_addressing: bool,
    pub step: IndirectStep,
}

/// Where the high byte of the target is fetched from, given the pointer. The CMOS parts
/// read the byte after the pointer, wrapping from `$FFFF` to `$0000`.
pub open spec fn pointer_hi_location(ptr: Word, fixed_addressing: bool) -> Word {
    if !fixed_addressing && spec_lo(ptr) == 0xFF {
        spec_word(0, spec_hi(ptr))
    } else {
        add16(ptr, 1)
    }
}

impl IndirectAddressingTasks {
    pub open spec fn fresh(fixed_addressing: bool) -> Self {
        IndirectAddressingTasks { fixed_addressing, step: IndirectStep::IndirectFetchLo }
    }

    pub fn new_fixed_addressing() -> (r: Self)
        ensures
            r == Self::fresh(true),
    {
        IndirectAddressingTasks { fixed_addressing: true, step: IndirectStep::IndirectFetchLo }
    }

    pub fn new_incorrect_addressing() -> (r: Self)
        ensures
            r == Self::fresh(false),
    {
        IndirectAddressingTasks { fixed_addressing: false, step: IndirectStep::IndirectFetchLo }
    }
}

impl AddressingTasks for IndirectAddressingTasks {
    open spec fn spec_fetch_during_addressing(&self) -> bool {
        false
    }

    fn fetch_during_addressing(&self) -> (r: bool) {
        false
    }

    proof fn lemma_finishes_with_address(&self, cpu: CPU, mem: MemView) {
    }
}

impl Tasks for IndirectAddressingTasks {
    open spec fn is_done(&self) -> bool {
        self.step == IndirectStep::Done
    }

    open spec fn can_tick(&self, addr: Address) -> bool {
        match self.step {
            IndirectStep::IndirectFetchLo => true,
            IndirectStep::IndirectFetchHi => true,
            IndirectStep::AddrFixing => addr.indirect is Some,
            IndirectStep::MemoryAccessLo => addr.indirect is Some,
            IndirectStep::FixedMemoryAccessHi => addr.indirect is Some && self.fixed_addressing,
            IndirectStep::IncorrectMemoryAccessHi => addr.indirect is Some
                && !self.fixed_addressing,
            IndirectStep::Done => false,
        }
    }

    open spec fn next(&self, cpu: CPU, mem: MemView) -> (Self, CPU, MemView, bool) {
        let pc = cpu.program_counter;
        match self.step {
            IndirectStep::IndirectFetchLo => {
                let a = Address::cleared(AddressingMode::Indirect, false).with_indirect_lo(
                    mem_at(mem, pc),
                );
                (
                    IndirectAddressingTasks { step: IndirectStep::IndirectFetchHi, ..*self },
                    cpu.with_addr(a).pc_incremented(),
                    mem_after_read(mem, pc),
                    false,
                )
            },
            IndirectStep::IndirectFetchHi => {
                let a = cpu.addr.with_indirect_hi(mem_at(mem, pc));
                (
                    IndirectAddressingTasks {
                        step: if self.fixed_addressing {
                            IndirectStep::AddrFixing
                        } else {
                            IndirectStep::MemoryAccessLo
                        },
                        ..*self
                    },
                    cpu.with_addr(a).pc_incremented(),
                    mem_after_read(mem, pc),
                    false,
                )
            },
            IndirectStep::AddrFixing => (
                IndirectAddressingTasks { step: IndirectStep::MemoryAccessLo, ..*self },
                cpu,
                mem,
                false,
            ),
            IndirectStep::MemoryAccessLo => {
                let ptr = cpu.addr.indirect->0;
                (
                    IndirectAddressingTasks {
                        step: if self.fixed_addressing {
                            IndirectStep::FixedMemoryAccessHi
                        } else {
                            IndirectStep::IncorrectMemoryAccessHi
                        },
                        ..*self
                    },
                    cpu.with_addr(cpu.addr.with_lo(mem_at(mem, ptr))),
                    mem_after_read(mem, ptr),
                    false,
                )
            },
            _ => {
                let loc = pointer_hi_location(cpu.addr.indirect->0, self.fixed_addressing);
                (
                    IndirectAddressingTasks { step: IndirectStep::Done, ..*self },
                    cpu.with_addr(cpu.addr.with_hi(mem_at(mem, loc)).finished()),
                    mem_after_read(mem, loc),
                    true,
                )
            },
        }
    }

    open spec fn remaining(&self) -> nat {
        match self.step {
            IndirectStep::IndirectFetchLo => 5,
            IndirectStep::IndirectFetchHi => 4,
            IndirectStep::AddrFixing => 3,
            IndirectStep::MemoryAccessLo => 2,
            IndirectStep::FixedMemoryAccessHi => 1,
            IndirectStep::IncorrectMemoryAccessHi => 1,
            IndirectStep::Done => 0,
        }
    }

    fn done(&self) -> (r: bool) {
        self.step == IndirectStep::Done
    }

    fn tick(&mut self, cpu: &mut CPU, memory: &mut Generic64kMem) -> (r: bool) {
        match self.step {
            IndirectStep::IndirectFetchLo => {
                cpu.addr.reset(AddressingMode::Indirect);
                let lo = memory.read(cpu.program_counter);
                cpu.addr.set_indirect_lo(lo);
                cpu.increment_program_counter();
                self.step = IndirectStep::IndirectFetchHi;
                false
            },
            IndirectStep::IndirectFetchHi => {
                let hi = memory.read(cpu.program_counter);
                cpu.addr.set_indirect_hi(hi);
                cpu.increment_program_counter();
                if self.fixed_addressing {
                    self.step = IndirectStep::AddrFixing;
                } else {
                    self.step = IndirectStep::MemoryAccessLo;
                }
                false
            },
            IndirectStep::AddrFixing => {
                self.step = IndirectStep::MemoryAccessLo;
                false
            },
            IndirectStep::MemoryAccessLo => {
                let addr = cpu.addr.indirect().unwrap();
                let addr_lo = memory.read(addr);
                cpu.addr.set_lo(addr_lo);
                if self.fixed_addressing {
                    self.step = IndirectStep::FixedMemoryAccessHi;
                } else {
                    self.step = IndirectStep::IncorrectMemoryAccessHi;
                }
                false
            },
            IndirectStep::FixedMemoryAccessHi => {
                let addr = cpu.addr.indirect().unwrap();
                let addr_hi = memory.read(addr.wrapping_add(1));
                cpu.addr.set_hi(addr_hi);
                cpu.addr.done = true;
                self.step = IndirectStep::Done;
                true
            },
            IndirectStep::IncorrectMemoryAccessHi => {
                let addr = cpu.addr.indirect().unwrap();
                let should_incorrectly_jump = word_lo(addr) == 0xFF;
                let mut target_addr = addr.wrapping_add(1);
                if should_incorrectly_jump {
                    target_addr = word_from_le_bytes(0, word_hi(addr));
                }
                let addr_hi = memory.read(target_addr);
                cpu.addr.set_hi(addr_hi);
                cpu.addr.done = true;
                self.step = IndirectStep::Done;
                true
            },
            IndirectStep::Done => {
                true
            },
        }
    }

    proof fn lemma_next(&self, cpu: CPU, mem: MemView) {
    }

    proof fn lemma_next_ignores_last_access(&self, cpu: CPU, m1: MemView, m2: MemView) {
    }
}


/// Indirect addressing `(abs)` yields the word stored at the pointer the operand holds,
/// after reading both operand bytes. The NMOS part takes four cycles and, for a pointer
/// ending in `$FF`, reads the high byte from the start of the same page; the CMOS parts
/// read it from the next address and take five cycles.
pub proof fn lemma_indirect(fixed_addressing: bool, cpu: CPU, mem: MemView)
    requires
        mem.0.len() == MEMORY_SIZE,
        cpu.cycle + 5 < usize::MAX,
    ensures
        ({
            let r = run(IndirectAddressingTasks::fresh(fixed_addressing), cpu, mem, 5);
            let pc = cpu.program_counter;
            let ptr = spec_word(mem_at(mem, pc), mem_at(mem, add16(pc, 1)));
            &&& r.0.is_done()
            &&& r.1.addr.val == Some(
                spec_word(mem_at(mem, ptr), mem_at(mem, pointer_hi_location(ptr, fixed_addressing))),
            )
            &&& r.1.addr.indirect == Some(ptr)
            &&& r.1.program_counter == add16(pc, 2)
            &&& r.2.0 == mem.0
            &&& r.1.cycle == cpu.cycle + if fixed_addressing {
                5int
            } else {
                4int
            }
        }),
{
    let pc = cpu.program_counter;
    let plo = mem_at(mem, pc);
    let phi = mem_at(mem, add16(pc, 1));
    let ptr = spec_word(plo, phi);
    let lo = mem_at(mem, ptr);
    crate::consts::lemma_word_parts(plo, 0);
    crate::consts::lemma_word_parts(plo, phi);
    crate::consts::lemma_word_parts(lo, 0);
    let t0 = IndirectAddressingTasks::fresh(fixed_addressing);
    let s1 = stepped(t0, cpu, mem);
    lemma_run_step(t0, cpu, mem, 5);
    let s2 = stepped(s1.0, s1.1, s1.2);
    lemma_run_step(s1.0, s1.1, s1.2, 4);
    assert(s2.1.addr.indirect == Some(ptr));
    if fixed_addressing {
        let s3 = stepped(s2.0, s2.1, s2.2);
        lemma_run_step(s2.0, s2.1, s2.2, 3);
        let s4 = stepped(s3.0, s3.1, s3.2);
        lemma_run_step(s3.0, s3.1, s3.2, 2);
        let s5 = stepped(s4.0, s4.1, s4.2);
        lemma_run_step(s4.0, s4.1, s4.2, 1);
        lemma_run_done(s5.0, s5.1, s5.2, 0);
    } else {
        let s3 = stepped(s2.0, s2.1, s2.2);
        lemma_run_step(s2.0, s2.1, s2.2, 3);
        let s4 = stepped(s3.0, s3.1, s3.2);
        lemma_run_step(s3.0, s3.1, s3.2, 2);
        lemma_run_done(s4.0, s4.1, s4.2, 1);
    }
}


/// Indexed indirect addressing `(zp,X)`: the operand plus `X`, wrapping within the zero
/// page, names a pointer whose two bytes (the second also wrapping within the zero page)
/// are the effective address; it takes four cycles after reading one operand byte.
pub proof fn lemma_index_indirect_x(cpu: CPU, mem: MemView)
    requires
        mem.0.len() == MEMORY_SIZE,
        cpu.cycle + 4 < usize::MAX,
    ensures
        ({
            let r = run(IndexIndirectXAddressingTasks::fresh(), cpu, mem, 4);
            let zp = add8(mem_at(mem, cpu.program_counter), cpu.index_register_x);
            &&& r.0.is_done()
            &&& r.1.addr.val == Some(
                spec_word(mem_at(mem, zp as Word), mem_at(mem, add8(zp, 1) as Word)),
            )
            &&& r.1.addr.done
            &&& r.1 == (CPU {
                addr: r.1.addr,
                program_counter: r.1.program_counter,
                cycle: r.1.cycle,
                ..cpu
            })
            &&& r.1.program_counter == add16(cpu.program_counter, 1)
            &&& r.2.0 == mem.0
            &&& r.1.cycle == cpu.cycle + 4
        }),
{
    let operand = mem_at(mem, cpu.program_counter);
    let zp = add8(operand, cpu.index_register_x);
    let lo = mem_at(mem, zp as Word);
    crate::consts::lemma_word_parts(operand, 0);
    crate::consts::lemma_word_parts(lo, 0);
    assert(spec_word(zp, 0) == zp as Word);
    assert(spec_word(add8(zp, 1), 0) == add8(zp, 1) as Word);
    let t0 = IndexIndirectXAddressingTasks::fresh();
    let s1 = stepped(t0, cpu, mem);
    lemma_run_step(t0, cpu, mem, 4);
    let s2 = stepped(s1.0, s1.1, s1.2);
    lemma_run_step(s1.0, s1.1, s1.2, 3);
    let s3 = stepped(s2.0, s2.1, s2.2);
    lemma_run_step(s2.0, s2.1, s2.2, 2);
    let s4 = stepped(s3.0, s3.1, s3.2);
    lemma_run_step(s3.0, s3.1, s3.2, 1);
    lemma_run_done(s4.0, s4.1, s4.2, 0);
}

} // verus!
