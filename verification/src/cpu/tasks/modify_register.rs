use crate::consts::Byte;
use crate::cpu::processor_status::{lemma_flag_read_back, Flags};
use crate::cpu::tasks::modify_memory::{
    modified_value, modify_value, ModificationVariant,
};
use crate::cpu::tasks::{lemma_run_step, run, Tasks};
use crate::cpu::{is_negative, Registers, CPU};
use crate::memory::{Generic64kMem, MemView};
use crate::cpu::addressing::address::Address;
use vstd::prelude::*;

verus! {

/// A one-cycle modification of a register (`INX`, `DEY`, `ASL A`, ...).
pub struct ModifyRegisterTasks {
    pub variant: ModificationVariant,
    pub register: Registers,
    pub value: Byte,
    pub done: bool,
}

impl ModifyRegisterTasks {
    pub open spec fn fresh(variant: ModificationVariant, register: Registers) -> Self {
        ModifyRegisterTasks { done: false, register, value: 0, variant }
    }

    pub fn new_inc(register: Registers) -> (r: Self)
        ensures
            r == Self::fresh(ModificationVariant::Inc, register),
    {
        ModifyRegisterTasks { done: false, register, value: 0, variant: ModificationVariant::Inc }
    }

    pub fn new_dec(register: Registers) -> (r: Self)
        ensures
            r == Self::fresh(ModificationVariant::Dec, register),
    {
        ModifyRegisterTasks { done: false, register, value: 0, variant: ModificationVariant::Dec }
    }

    pub fn new_shift_left(register: Registers) -> (r: Self)
        ensures
            r == Self::fresh(ModificationVariant::ShiftLeft, register),
    {
        ModifyRegisterTasks {
            done: false,
            register,
            value: 0,
            variant: ModificationVariant::ShiftLeft,
        }
    }

    pub fn new_shift_right(register: Registers) -> (r: Self)
        ensures
            r == Self::fresh(ModificationVariant::ShiftRight, register),
    {
        ModifyRegisterTasks {
            done: false,
            register,
            value: 0,
            variant: ModificationVariant::ShiftRight,
        }
    }

    pub fn new_rotate_left(register: Registers) -> (r: Self)
        ensures
            r == Self::fresh(ModificationVariant::RotateLeft, register),
    {
        ModifyRegisterTasks {
            done: false,
            register,
            value: 0,
            variant: ModificationVariant::RotateLeft,
        }
    }

    pub fn new_rotate_right(register: Registers) -> (r: Self)
        ensures
            r == Self::fresh(ModificationVariant::RotateRight, register),
    {
        ModifyRegisterTasks {
            done: false,
            register,
            value: 0,
            variant: ModificationVariant::RotateRight,
        }
    }
}

impl Tasks for ModifyRegisterTasks {
    open spec fn is_done(&self) -> bool {
        self.done
    }

    open spec fn can_tick(&self, addr: Address) -> bool {
        !self.done
    }

    closed spec fn next(&self, cpu: CPU, mem: MemView) -> (Self, CPU, MemView, bool) {
        self.step(cpu, mem)
    }

    open spec fn remaining(&self) -> nat {
        if self.done {
            0
        } else {
            1
        }
    }

    fn done(&self) -> (r: bool) {
        self.done
    }

    fn tick(&mut self, cpu: &mut CPU, memory: &mut Generic64kMem) -> (r: bool) {
        let previous_value = cpu.get_register(self.register);
        self.value = modify_value(self.variant, previous_value, cpu.processor_status.get_carry_flag());
        cpu.set_register(self.register, self.value);
        match self.variant {
            ModificationVariant::ShiftLeft | ModificationVariant::RotateLeft => {
                proof {
                    crate::cpu::lemma_sign_bit(previous_value);
                }
                cpu.processor_status.change_carry_flag(previous_value & 0b10000000 > 0);
            },
            ModificationVariant::ShiftRight | ModificationVariant::RotateRight => {
                assert((previous_value & 1u8 > 0) == (previous_value % 2 == 1)) by (bit_vector);
                cpu.processor_status.change_carry_flag(previous_value & 0b00000001 > 0);
            },
            _ => {},
        }
        self.done = true;
        self.done
    }

    proof fn lemma_next(&self, cpu: CPU, mem: MemView) {
    }

    proof fn lemma_next_ignores_last_access(&self, cpu: CPU, m1: MemView, m2: MemView) {
    }
}

impl ModifyRegisterTasks {
    /// One cycle of this work: the work, processor and memory after it, and whether
    /// the work is finished.
    pub open spec fn step(&self, cpu: CPU, mem: MemView) -> (Self, CPU, MemView, bool) {
        let previous = cpu.reg(self.register);
        let value = modified_value(self.variant, previous, cpu.flag(Flags::Carry));
        let c = cpu.with_register(self.register, value);
        let c2 = match self.variant {
            ModificationVariant::ShiftLeft | ModificationVariant::RotateLeft => c.with_flag(
                Flags::Carry,
                is_negative(previous),
            ),
            ModificationVariant::ShiftRight | ModificationVariant::RotateRight => c.with_flag(
                Flags::Carry,
                previous % 2 == 1,
            ),
            _ => c,
        };
        (ModifyRegisterTasks { value, done: true, ..*self }, c2, mem, true)
    }

    /// `next` is `step`.
    pub proof fn lemma_next_is_step(&self, cpu: CPU, mem: MemView)
        ensures
            self.next(cpu, mem) == self.step(cpu, mem),
    {
    }
}

/// The carry flag after a register or memory modification: shifts and rotations take the
/// bit shifted out of `previous`, increments and decrements keep `carry`.
pub open spec fn carry_after_modification(
    variant: ModificationVariant,
    previous: Byte,
    carry: bool,
) -> bool {
    match variant {
        ModificationVariant::ShiftLeft | ModificationVariant::RotateLeft => is_negative(previous),
        ModificationVariant::ShiftRight | ModificationVariant::RotateRight => previous % 2 == 1,
        _ => carry,
    }
}

/// A modification of the accumulator or an index register (`INX`, `DEY`, `ASL A`,
/// `ROR A`, ...) takes one cycle: the register takes the modified value, the zero and
/// negative flags describe it, the carry flag is as `carry_after_modification` says, and
/// the other flags, the other registers, the program counter and memory are unchanged.
pub proof fn lemma_modify_register(
    variant: ModificationVariant,
    register: Registers,
    cpu: CPU,
    mem: MemView,
)
    requires
        register == Registers::Accumulator || register == Registers::IndexX || register
            == Registers::IndexY,
        cpu.cycle + 1 < usize::MAX,
    ensures
        ({
            let previous = cpu.reg(register);
            let carry = cpu.flag(Flags::Carry);
            let v = modified_value(variant, previous, carry);
            let r = run(ModifyRegisterTasks::fresh(variant, register), cpu, mem, 1);
            &&& r.0.done
            &&& r.1.reg(register) == v
            &&& r.1.flag(Flags::Zero) == (v == 0)
            &&& r.1.flag(Flags::Negative) == is_negative(v)
            &&& r.1.flag(Flags::Carry) == carry_after_modification(variant, previous, carry)
            &&& forall|f: Flags|
                f != Flags::Zero && f != Flags::Negative && f != Flags::Carry ==> r.1.flag(f)
                    == cpu.flag(f)
            &&& forall|o: Registers|
                o != register && o != Registers::ProcessorStatus ==> r.1.reg(o) == cpu.reg(o)
            &&& r.1.program_counter == cpu.program_counter
            &&& r.1.cycle == cpu.cycle + 1
            &&& r.2 == mem
        }),
{
    let t = ModifyRegisterTasks::fresh(variant, register);
    t.lemma_next_is_step(cpu, mem);
    lemma_run_step(t, cpu, mem, 1);
    let previous = cpu.reg(register);
    let carry = cpu.flag(Flags::Carry);
    let v = modified_value(variant, previous, carry);
    let ps0 = cpu.processor_status;
    let ps1 = ps0.with_flag(Flags::Zero, v == 0);
    let ps2 = ps1.with_flag(Flags::Negative, is_negative(v));
    let cf = carry_after_modification(variant, previous, carry);
    let ps3 = ps2.with_flag(Flags::Carry, cf);
    assert forall|f: Flags| true implies {
        &&& ps1.flag(f) == (if f == Flags::Zero { v == 0 } else { ps0.flag(f) })
        &&& ps2.flag(f) == (if f == Flags::Negative { is_negative(v) } else { ps1.flag(f) })
        &&& ps3.flag(f) == (if f == Flags::Carry { cf } else { ps2.flag(f) })
    } by {
        lemma_flag_read_back(ps0, Flags::Zero, f, v == 0);
        lemma_flag_read_back(ps1, Flags::Negative, f, is_negative(v));
        lemma_flag_read_back(ps2, Flags::Carry, f, cf);
    }
}

} // verus!
