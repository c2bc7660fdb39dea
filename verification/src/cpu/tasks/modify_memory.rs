use crate::consts::Byte;
use crate::cpu::addressing::{AddressingTasks, AnyAddressingTasks};
use crate::cpu::processor_status::Flags;
use crate::cpu::tasks::{lemma_run_done, lemma_run_step, run, stepped, Tasks};
use crate::cpu::{add8, is_negative, sub8, CPU};
use crate::memory::{mem_after_read, mem_after_write, mem_at, Generic64kMem, MemView, Memory, MEMORY_SIZE};
use crate::cpu::addressing::address::Address;
use vstd::prelude::*;

verus! {

/// The read-modify-write operations (`INC`, `DEC`, `ASL`, `LSR`, `ROL`, `ROR`).
#[derive(Copy, Clone, Debug, PartialEq, Eq, Structural)]
pub enum ModificationVariant {
    Inc,
    Dec,
    ShiftLeft,
    ShiftRight,
    RotateLeft,
    RotateRight,
}

/// The value a modification produces from `v` and the carry flag.
pub open spec fn modified_value(variant: ModificationVariant, v: Byte, carry: bool) -> Byte {
    match variant {
        ModificationVariant::Inc => add8(v, 1),
        ModificationVariant::Dec => sub8(v, 1),
        ModificationVariant::ShiftLeft => ((v as int * 2) % 256) as Byte,
        ModificationVariant::ShiftRight => (v / 2) as Byte,
        ModificationVariant::RotateLeft => ((v as int * 2) % 256 + if carry {
            1int
        } else {
            0int
        }) as Byte,
        ModificationVariant::RotateRight => (v / 2 + if carry {
            128int
        } else {
            0int
        }) as Byte,
    }
}

/// The processor after a modification wrote `value`, which was `previous` before:
/// zero and negative flags describe `value`; shifts and rotations move the bit
/// shifted out into the carry flag.
pub open spec fn after_modification(
    cpu: CPU,
    variant: ModificationVariant,
    previous: Byte,
    value: Byte,
) -> CPU {
    let c = cpu.with_value_status(value);
    match variant {
        ModificationVariant::ShiftLeft | ModificationVariant::RotateLeft => c.with_flag(
            Flags::Carry,
            is_negative(previous),
        ),
        ModificationVariant::ShiftRight | ModificationVariant::RotateRight => c.with_flag(
            Flags::Carry,
            previous % 2 == 1,
        ),
        _ => c,
    }
}

/// Computes the value a modification produces from `value` and the carry flag.
pub fn modify_value(variant: ModificationVariant, value: Byte, carry: bool) -> (r: Byte)
    ensures
        r == modified_value(variant, value, carry),
{
    match variant {
        ModificationVariant::Inc => value.wrapping_add(1),
        ModificationVariant::Dec => value.wrapping_sub(1),
        ModificationVariant::ShiftLeft => {
            assert((value << 1u8) == ((value as int * 2) % 256) as u8) by (bit_vector);
            value << 1
        },
        ModificationVariant::ShiftRight => {
            assert((value >> 1u8) == (value / 2) as u8) by (bit_vector);
            value >> 1
        },
        ModificationVariant::RotateLeft => {
            let mod_value = value << 1;
            assert(mod_value == ((value as int * 2) % 256) as u8) by (bit_vector)
                requires
                    mod_value == value << 1u8,
            ;
            if !carry {
                mod_value
            } else {
                assert((mod_value | 1u8) == (mod_value + 1) as u8 && mod_value < 255) by (bit_vector)
                    requires
                        mod_value == value << 1u8,
                ;
                mod_value | 0b00000001
            }
        },
        ModificationVariant::RotateRight => {
            let mod_value = value >> 1;
            assert(mod_value == (value / 2) as u8) by (bit_vector)
                requires
                    mod_value == value >> 1u8,
            ;
            if !carry {
                mod_value
            } else {
                assert((mod_value | 0x80u8) == (mod_value + 128) as u8 && mod_value < 128)
                    by (bit_vector)
                    requires
                        mod_value == value >> 1u8,
                ;
                mod_value | 0b10000000
            }
        },
    }
}

/// Progress of a read-modify-write on memory.
#[derive(PartialEq, Eq, Structural)]
pub enum ModifyMemoryStep {
    Addressing,
    MemoryAccess,
    ValueModification,
    MemoryAndStatusWrite,
    Done,
}

/// A read-modify-write on the byte at an addressed location.
pub struct ModifyMemoryTasks {
    pub variant: ModificationVariant,
    pub addr_tasks: AnyAddressingTasks,
    pub step: ModifyMemoryStep,
    pub previous_value: Byte,
    pub value: Byte,
}

impl ModifyMemoryTasks {
    pub open spec fn fresh(variant: ModificationVariant, addr_tasks: AnyAddressingTasks) -> Self {
        ModifyMemoryTasks {
            variant,
            addr_tasks,
            step: ModifyMemoryStep::Addressing,
            previous_value: 0,
            value: 0,
        }
    }

    fn with_variant(variant: ModificationVariant, addr_tasks: AnyAddressingTasks) -> (r: Self)
        ensures
            r == Self::fresh(variant, addr_tasks),
    {
        ModifyMemoryTasks {
            variant,
            addr_tasks,
            step: ModifyMemoryStep::Addressing,
            previous_value: 0,
            value: 0,
        }
    }

    pub fn new_inc(addr_tasks: AnyAddressingTasks) -> (r: Self)
        ensures
            r == Self::fresh(ModificationVariant::Inc, addr_tasks),
    {
        Self::with_variant(ModificationVariant::Inc, addr_tasks)
    }

    pub fn new_dec(addr_tasks: AnyAddressingTasks) -> (r: Self)
        ensures
            r == Self::fresh(ModificationVariant::Dec, addr_tasks),
    {
        Self::with_variant(ModificationVariant::Dec, addr_tasks)
    }

    pub fn new_shift_left(addr_tasks: AnyAddressingTasks) -> (r: Self)
        ensures
            r == Self::fresh(ModificationVariant::ShiftLeft, addr_tasks),
    {
        Self::with_variant(ModificationVariant::ShiftLeft, addr_tasks)
    }

    pub fn new_shift_right(addr_tasks: AnyAddressingTasks) -> (r: Self)
        ensures
            r == Self::fresh(ModificationVariant::ShiftRight, addr_tasks),
    {
        Self::with_variant(ModificationVariant::ShiftRight, addr_tasks)
    }

    pub fn new_rotate_left(addr_tasks: AnyAddressingTasks) -> (r: Self)
        ensures
            r == Self::fresh(ModificationVariant::RotateLeft, addr_tasks),
    {
        Self::with_variant(ModificationVariant::RotateLeft, addr_tasks)
    }

    pub fn new_rotate_right(addr_tasks: AnyAddressingTasks) -> (r: Self)
        ensures
            r == Self::fresh(ModificationVariant::RotateRight, addr_tasks),
    {
        Self::with_variant(ModificationVariant::RotateRight, addr_tasks)
    }
}

impl Tasks for ModifyMemoryTasks {
    open spec fn is_done(&self) -> bool {
        self.step == ModifyMemoryStep::Done
    }

    open spec fn can_tick(&self, addr: Address) -> bool {
        match self.step {
            ModifyMemoryStep::Addressing => !self.addr_tasks.is_done() && self.addr_tasks.can_tick(addr),
            ModifyMemoryStep::Done => false,
            _ => addr.val is Some,
        }
    }

    closed spec fn next(&self, cpu: CPU, mem: MemView) -> (Self, CPU, MemView, bool) {
        self.step(cpu, mem)
    }

    open spec fn remaining(&self) -> nat {
        match self.step {
            ModifyMemoryStep::Addressing => self.addr_tasks.remaining() + 3,
            ModifyMemoryStep::MemoryAccess => 3,
            ModifyMemoryStep::ValueModification => 2,
            ModifyMemoryStep::MemoryAndStatusWrite => 1,
            ModifyMemoryStep::Done => 0,
        }
    }

    fn done(&self) -> (r: bool) {
        self.step == ModifyMemoryStep::Done
    }

    fn tick(&mut self, cpu: &mut CPU, memory: &mut Generic64kMem) -> (r: bool) {
        match self.step {
            ModifyMemoryStep::Addressing => {
                proof {
                    self.addr_tasks.lemma_finishes_with_address(*cpu, memory@);
                }
                let done = self.addr_tasks.tick(cpu, memory);
                if done {
                    if self.addr_tasks.fetch_during_addressing() {
                        self.value = memory.read(cpu.addr.value().unwrap());
                        self.step = ModifyMemoryStep::ValueModification;
                    } else {
                        self.step = ModifyMemoryStep::MemoryAccess;
                    }
                }
                false
            },
            ModifyMemoryStep::MemoryAccess => {
                self.value = memory.read(cpu.addr.value().unwrap());
                self.step = ModifyMemoryStep::ValueModification;
                false
            },
            ModifyMemoryStep::ValueModification => {
                self.previous_value = self.value;
                self.value = modify_value(
                    self.variant,
                    self.value,
                    cpu.processor_status.get_carry_flag(),
                );
                self.step = ModifyMemoryStep::MemoryAndStatusWrite;
                false
            },
            ModifyMemoryStep::MemoryAndStatusWrite => {
                memory.write(cpu.addr.value().unwrap(), self.value);
                cpu.set_status_of_value(self.value);
                match self.variant {
                    ModificationVariant::ShiftLeft | ModificationVariant::RotateLeft => {
                        proof {
                            crate::cpu::lemma_sign_bit(self.previous_value);
                        }
                        cpu.processor_status.change_carry_flag(
                            self.previous_value & 0b10000000 > 0,
                        );
                    },
                    ModificationVariant::ShiftRight | ModificationVariant::RotateRight => {
                        let prev = self.previous_value;
                        assert((prev & 1u8 > 0) == (prev % 2 == 1)) by (bit_vector);
                        cpu.processor_status.change_carry_flag(
                            self.previous_value & 0b00000001 > 0,
                        );
                    },
                    _ => {},
                };
                self.step = ModifyMemoryStep::Done;
                true
            },
            ModifyMemoryStep::Done => {
                true
            },
        }
    }

    proof fn lemma_next(&self, cpu: CPU, mem: MemView) {
        if self.step == ModifyMemoryStep::Addressing {
            self.addr_tasks.lemma_next(cpu, mem);
            self.addr_tasks.lemma_finishes_with_address(cpu, mem);
        }
    }

    proof fn lemma_next_ignores_last_access(&self, cpu: CPU, m1: MemView, m2: MemView) {
        if self.step == ModifyMemoryStep::Addressing {
            self.addr_tasks.lemma_next_ignores_last_access(cpu, m1, m2);
        }
    }
}

impl ModifyMemoryTasks {
    /// One cycle of this work: the work, processor and memory after it, and whether
    /// the work is finished.
    pub open spec fn step(&self, cpu: CPU, mem: MemView) -> (Self, CPU, MemView, bool) {
        match self.step {
            ModifyMemoryStep::Addressing => {
                let n = self.addr_tasks.next(cpu, mem);
                if !n.3 {
                    (ModifyMemoryTasks { addr_tasks: n.0, ..*self }, n.1, n.2, false)
                } else if n.0.spec_fetch_during_addressing() {
                    let a = n.1.addr.val->0;
                    (
                        ModifyMemoryTasks {
                            addr_tasks: n.0,
                            step: ModifyMemoryStep::ValueModification,
                            value: mem_at(n.2, a),
                            ..*self
                        },
                        n.1,
                        mem_after_read(n.2, a),
                        false,
                    )
                } else {
                    (
                        ModifyMemoryTasks {
                            addr_tasks: n.0,
                            step: ModifyMemoryStep::MemoryAccess,
                            ..*self
                        },
                        n.1,
                        n.2,
                        false,
                    )
                }
            },
            ModifyMemoryStep::MemoryAccess => {
                let a = cpu.addr.val->0;
                (
                    ModifyMemoryTasks {
                        step: ModifyMemoryStep::ValueModification,
                        value: mem_at(mem, a),
                        ..*self
                    },
                    cpu,
                    mem_after_read(mem, a),
                    false,
                )
            },
            ModifyMemoryStep::ValueModification => (
                ModifyMemoryTasks {
                    step: ModifyMemoryStep::MemoryAndStatusWrite,
                    previous_value: self.value,
                    value: modified_value(self.variant, self.value, cpu.flag(Flags::Carry)),
                    ..*self
                },
                cpu,
                mem,
                false,
            ),
            _ => {
                let a = cpu.addr.val->0;
                (
                    ModifyMemoryTasks { step: ModifyMemoryStep::Done, ..*self },
                    after_modification(cpu, self.variant, self.previous_value, self.value),
                    mem_after_write(mem, a, self.value),
                    true,
                )
            },
        }
    }

    /// `next` is `step`.
    pub proof fn lemma_next_is_step(&self, cpu: CPU, mem: MemView)
        ensures
            self.next(cpu, mem) == self.step(cpu, mem),
    {
    }
}

/// Once the address is known, a read-modify-write takes three more cycles: it reads the
/// byte at the address, writes the modified byte back there, and sets the zero and
/// negative flags from it (and, for shifts and rotations, the carry flag from the bit
/// shifted out). No other byte of memory and nothing else in the processor changes but
/// the cycle counter.
pub proof fn lemma_modify_at_address(t: ModifyMemoryTasks, cpu: CPU, mem: MemView)
    requires
        t.step == ModifyMemoryStep::MemoryAccess,
        cpu.addr.val is Some,
        mem.0.len() == MEMORY_SIZE,
        cpu.cycle + 3 < usize::MAX,
    ensures
        ({
            let a = cpu.addr.val->0;
            let m = mem_at(mem, a);
            let v = modified_value(t.variant, m, cpu.flag(Flags::Carry));
            let r = run(t, cpu, mem, 3);
            &&& r.0.step == ModifyMemoryStep::Done
            &&& r.1 == CPU {
                cycle: (cpu.cycle + 3) as usize,
                ..after_modification(cpu, t.variant, m, v)
            }
            &&& r.2 == mem_after_write(mem, a, v)
        }),
{
    let a = cpu.addr.val->0;
    t.lemma_next_is_step(cpu, mem);
    lemma_run_step(t, cpu, mem, 3);
    let s1 = stepped(t, cpu, mem);
    s1.0.lemma_next_is_step(s1.1, s1.2);
    lemma_run_step(s1.0, s1.1, s1.2, 2);
    let s2 = stepped(s1.0, s1.1, s1.2);
    s2.0.lemma_next_is_step(s2.1, s2.2);
    lemma_run_step(s2.0, s2.1, s2.2, 1);
    let s3 = stepped(s2.0, s2.1, s2.2);
    lemma_run_done(s3.0, s3.1, s3.2, 0);
}

/// A whole read-modify-write: if the addressing tasks `a` take exactly `k` cycles from
/// `(cpu, mem)` and end at address `x` holding `m`, the instruction finishes `k + 2` cycles
/// after it starts when the addressing reads the operand in its last cycle, and `k + 3`
/// otherwise. Then `x` holds the modified byte `v`, no other byte has changed since the
/// addressing, and the processor is as the addressing left it but for the flags that
/// `after_modification` sets from `v` and for the cycle counter; it is not done before.
#[verifier::rlimit(40)]
pub proof fn lemma_modify_memory(
    variant: ModificationVariant,
    a: AnyAddressingTasks,
    cpu: CPU,
    mem: MemView,
    k: nat,
)
    requires
        !a.is_done(),
        a.can_tick(cpu.addr),
        mem.0.len() == MEMORY_SIZE,
        cpu.cycle + k + 3 < usize::MAX,
        0 < k,
        run(a, cpu, mem, k).0.is_done(),
        !run(a, cpu, mem, (k - 1) as nat).0.is_done(),
    ensures
        ({
            let ar = run(a, cpu, mem, k);
            let x = ar.1.addr.val->0;
            let m = mem_at(ar.2, x);
            let v = modified_value(variant, m, ar.1.flag(Flags::Carry));
            let t = ModifyMemoryTasks::fresh(variant, a);
            let extra: nat = if a.spec_fetch_during_addressing() {
                2
            } else {
                3
            };
            let r = run(t, cpu, mem, k + extra);
            &&& ar.1.addr.val is Some
            &&& r.0.step == ModifyMemoryStep::Done
            &&& r.1.cycle == ar.1.cycle + extra
            &&& r.1 == (CPU { cycle: r.1.cycle, ..after_modification(ar.1, variant, m, v) })
            &&& r.2.0 == ar.2.0.update(x as int, v)
            &&& forall|j: nat|
                j < k + extra ==> (#[trigger] run(t, cpu, mem, j)).0.step != ModifyMemoryStep::Done
        }),
    decreases k,
{
    a.lemma_next(cpu, mem);
    a.lemma_finishes_with_address(cpu, mem);
    let t = ModifyMemoryTasks::fresh(variant, a);
    let extra: nat = if a.spec_fetch_during_addressing() {
        2
    } else {
        3
    };
    let n = a.next(cpu, mem);
    let c1 = CPU { cycle: (n.1.cycle + 1) as usize, ..n.1 };
    lemma_run_step(a, cpu, mem, k);
    t.lemma_next_is_step(cpu, mem);
    lemma_run_step(t, cpu, mem, k + extra);
    let s1 = stepped(t, cpu, mem);
    if n.3 {
        lemma_run_done(n.0, c1, n.2, (k - 1) as nat);
        if k > 1 {
            lemma_run_step(a, cpu, mem, (k - 1) as nat);
            lemma_run_done(n.0, c1, n.2, (k - 2) as nat);
        }
        assert(k == 1);
        if a.spec_fetch_during_addressing() {
            s1.0.lemma_next_is_step(s1.1, s1.2);
            lemma_run_step(s1.0, s1.1, s1.2, 2);
            let s2 = stepped(s1.0, s1.1, s1.2);
            s2.0.lemma_next_is_step(s2.1, s2.2);
            lemma_run_step(s2.0, s2.1, s2.2, 1);
            let s3 = stepped(s2.0, s2.1, s2.2);
            lemma_run_done(s3.0, s3.1, s3.2, 0);
            assert forall|j: nat| j < k + extra implies (#[trigger] run(t, cpu, mem, j)).0.step
                != ModifyMemoryStep::Done by {
                if j > 0 {
                    lemma_run_step(t, cpu, mem, j);
                    if j > 1 {
                        lemma_run_step(s1.0, s1.1, s1.2, (j - 1) as nat);
                        assert(run(s2.0, s2.1, s2.2, 0) == s2);
                    } else {
                        assert(run(s1.0, s1.1, s1.2, 0) == s1);
                    }
                }
            }
        } else {
            lemma_modify_at_address(s1.0, s1.1, s1.2);
            assert forall|j: nat| j < k + extra implies (#[trigger] run(t, cpu, mem, j)).0.step
                != ModifyMemoryStep::Done by {
                if j > 0 {
                    lemma_run_step(t, cpu, mem, j);
                    let j1 = (j - 1) as nat;
                    s1.0.lemma_next_is_step(s1.1, s1.2);
                    let s2 = stepped(s1.0, s1.1, s1.2);
                    if j1 > 0 {
                        lemma_run_step(s1.0, s1.1, s1.2, j1);
                        s2.0.lemma_next_is_step(s2.1, s2.2);
                        if j1 > 1 {
                            lemma_run_step(s2.0, s2.1, s2.2, (j1 - 1) as nat);
                            let s3 = stepped(s2.0, s2.1, s2.2);
                            assert(run(s3.0, s3.1, s3.2, 0) == s3);
                        } else {
                            assert(run(s2.0, s2.1, s2.2, 0) == s2);
                        }
                    } else {
                        assert(run(s1.0, s1.1, s1.2, 0) == s1);
                    }
                }
            }
        }
    } else {
        if k == 1 {
            lemma_run_done(n.0, c1, n.2, 0);
        }
        lemma_run_step(a, cpu, mem, (k - 1) as nat);
        assert(s1.0 == ModifyMemoryTasks::fresh(variant, n.0));
        lemma_modify_memory(variant, n.0, c1, n.2, (k - 1) as nat);
        assert forall|j: nat| j < k + extra implies (#[trigger] run(t, cpu, mem, j)).0.step
            != ModifyMemoryStep::Done by {
            if j > 0 {
                lemma_run_step(t, cpu, mem, j);
                assert(run(t, cpu, mem, j) == run(s1.0, s1.1, s1.2, (j - 1) as nat));
            }
        }
    }
}

} // verus!
