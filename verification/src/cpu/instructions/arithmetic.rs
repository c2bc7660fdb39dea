use crate::consts::Byte;
use crate::cpu::addressing::{has_addressing_tasks, AddressingMode};
use crate::cpu::instructions::{advance_read, lemma_read_cycle, read_cycle, read_ready, InstructionTasks};
use crate::cpu::processor_status::{lemma_flag_read_back, Flags};
use crate::cpu::tasks::read_memory::{AnyReadMemoryTasks, ImmediateReadMemoryTasks, ReadMemoryTasks};
use crate::cpu::tasks::{lemma_run_done, lemma_run_step, run, stepped, Tasks};
use crate::cpu::{add8, is_negative, lemma_compare_status, read_memory_for, sub8, Registers, CPU};
use crate::memory::{mem_after_read, mem_at, Generic64kMem, MemView, MEMORY_SIZE};
use crate::cpu::addressing::address::Address;
use vstd::prelude::*;

verus! {

/// Compares a register with an operand (`CMP`, `CPX`, `CPY`): carry tells
/// `register >= operand`, zero tells equality, negative is bit 7 of the difference.
pub struct CompareTasks {
    pub done: bool,
    pub read_memory_tasks: AnyReadMemoryTasks,
    pub register: Registers,
}

impl CompareTasks {
    pub open spec fn fresh(read_memory_tasks: AnyReadMemoryTasks, register: Registers) -> Self {
        CompareTasks { done: false, read_memory_tasks, register }
    }

    pub fn new(read_memory_tasks: AnyReadMemoryTasks, register: Registers) -> (r: Self)
        ensures
            r == Self::fresh(read_memory_tasks, register),
    {
        CompareTasks { read_memory_tasks, done: false, register }
    }
}

impl Tasks for CompareTasks {
    open spec fn is_done(&self) -> bool {
        self.done
    }

    open spec fn can_tick(&self, addr: Address) -> bool {
        !self.done && read_ready(self.read_memory_tasks, addr)
    }

    closed spec fn next(&self, cpu: CPU, mem: MemView) -> (Self, CPU, MemView, bool) {
        self.step(cpu, mem)
    }

    open spec fn remaining(&self) -> nat {
        if self.done {
            0
        } else {
            self.read_memory_tasks.remaining() + 1
        }
    }

    fn done(&self) -> (r: bool) {
        self.done
    }

    fn tick(&mut self, cpu: &mut CPU, memory: &mut Generic64kMem) -> (r: bool) {
        match advance_read(&mut self.read_memory_tasks, cpu, memory) {
            None => false,
            Some(value) => {
                cpu.set_cmp_status(self.register, value);
                self.done = true;
                true
            },
        }
    }

    proof fn lemma_next(&self, cpu: CPU, mem: MemView) {
        lemma_read_cycle(self.read_memory_tasks, cpu, mem);
    }

    proof fn lemma_next_ignores_last_access(&self, cpu: CPU, m1: MemView, m2: MemView) {
        if !self.read_memory_tasks.is_done() {
            self.read_memory_tasks.lemma_next_ignores_last_access(cpu, m1, m2);
        }
    }
}

impl CompareTasks {
    /// One cycle of this work: the work, processor and memory after it, and whether
    /// the work is finished.
    pub open spec fn step(&self, cpu: CPU, mem: MemView) -> (Self, CPU, MemView, bool) {
        let n = read_cycle(self.read_memory_tasks, cpu, mem);
        if !n.3 {
            (CompareTasks { read_memory_tasks: n.0, ..*self }, n.1, n.2, false)
        } else {
            (
                CompareTasks { done: true, read_memory_tasks: n.0, ..*self },
                n.1.with_cmp_status(self.register, n.0.spec_value()->0),
                n.2,
                true,
            )
        }
    }

    /// `next` is `step`.
    pub proof fn lemma_next_is_step(&self, cpu: CPU, mem: MemView)
        ensures
            self.next(cpu, mem) == self.step(cpu, mem),
    {
    }
}

/// With an immediate operand a compare takes one cycle: it reads the byte after the
/// opcode, advances the program counter past it, and sets carry, zero and negative from
/// comparing `register` with it as `with_cmp_status` describes; no register changes and
/// memory only records the read.
pub proof fn lemma_compare_immediate(register: Registers, cpu: CPU, mem: MemView)
    requires
        cpu.cycle + 1 < usize::MAX,
    ensures
        ({
            let pc = cpu.program_counter;
            let t = CompareTasks::fresh(
                AnyReadMemoryTasks::Immediate(ImmediateReadMemoryTasks::fresh()),
                register,
            );
            let a = Address::cleared(AddressingMode::Immediate, false).with_val(pc).finished();
            let r = run(t, cpu, mem, 1);
            &&& r.0.done
            &&& r.1.cycle == cpu.cycle + 1
            &&& r.1 == CPU {
                cycle: r.1.cycle,
                ..cpu.with_addr(a).pc_incremented().with_cmp_status(register, mem_at(mem, pc))
            }
            &&& r.2 == mem_after_read(mem, pc)
        }),
{
    let t = CompareTasks::fresh(
        AnyReadMemoryTasks::Immediate(ImmediateReadMemoryTasks::fresh()),
        register,
    );
    t.lemma_next_is_step(cpu, mem);
    lemma_run_step(t, cpu, mem, 1);
}

/// The instruction a compare handler builds.
pub open spec fn compare_instruction(
    cpu: CPU,
    addr_mode: Option<AddressingMode>,
    register: Registers,
) -> InstructionTasks {
    InstructionTasks::Compare(CompareTasks::fresh(read_memory_for(cpu.chip_variant, addr_mode), register))
}

/// The processor `after` is `before` compared: carry tells whether the register holds at
/// least `v`, zero whether it equals `v`, negative is bit 7 of the register minus `v`;
/// nothing else differs.
pub open spec fn compared(before: CPU, after: CPU, register: Registers, v: Byte) -> bool {
    let r = before.reg(register);
    &&& after.flag(Flags::Carry) == (r >= v)
    &&& after.flag(Flags::Zero) == (r == v)
    &&& after.flag(Flags::Negative) == is_negative(sub8(r, v))
    &&& forall|f: Flags|
        f != Flags::Carry && f != Flags::Zero && f != Flags::Negative ==> #[trigger] after.flag(f)
            == before.flag(f)
    &&& after == CPU { processor_status: after.processor_status, ..before }
}

/// One cycle of a compare: a cycle of its operand read and, if that cycle completes the
/// read, the comparison of the register with the operand.
proof fn lemma_compare_cycle(read: AnyReadMemoryTasks, register: Registers, cpu: CPU, mem: MemView)
    requires
        !read.is_done(),
        read.can_tick(cpu.addr),
        mem.0.len() == MEMORY_SIZE,
    ensures
        ({
            let rs = stepped(read, cpu, mem);
            let ls = stepped(InstructionTasks::Compare(CompareTasks::fresh(read, register)), cpu, mem);
            &&& ls.2 == rs.2
            &&& ls.0.is_done() == rs.0.is_done()
            &&& rs.0.is_done() ==> compared(rs.1, ls.1, register, rs.0.spec_value()->0)
            &&& !rs.0.is_done() ==> ls.1 == rs.1 && ls.0 == InstructionTasks::Compare(
                CompareTasks::fresh(rs.0, register),
            )
        }),
{
    let t = CompareTasks::fresh(read, register);
    t.lemma_next_is_step(cpu, mem);
    read.lemma_next(cpu, mem);
    let n = read.next(cpu, mem);
    if n.3 {
        let v = n.0.spec_value()->0;
        lemma_compare_status(n.1, register, v);
        let ls = stepped(InstructionTasks::Compare(CompareTasks::fresh(read, register)), cpu, mem);
        assert forall|f: Flags|
            f != Flags::Carry && f != Flags::Zero && f != Flags::Negative implies #[trigger] ls.1.flag(f)
                == stepped(read, cpu, mem).1.flag(f) by {
            assert(ls.1.flag(f) == n.1.with_cmp_status(register, v).flag(f));
        }
    }
}

/// A compare runs in step with its operand read, whatever the read: memory and, until the
/// read finishes, the processor are as the read alone leaves them; in the cycle that
/// completes the read the register is compared with the operand.
proof fn lemma_compare_follows_read(
    read: AnyReadMemoryTasks,
    register: Registers,
    cpu: CPU,
    mem: MemView,
    fuel: nat,
)
    requires
        !read.is_done(),
        read.can_tick(cpu.addr),
        mem.0.len() == MEMORY_SIZE,
    ensures
        ({
            let rr = run(read, cpu, mem, fuel);
            let ir = run(InstructionTasks::Compare(CompareTasks::fresh(read, register)), cpu, mem, fuel);
            &&& ir.2 == rr.2
            &&& ir.0.is_done() == rr.0.is_done()
            &&& !rr.0.is_done() ==> ir.1 == rr.1
            &&& rr.0.is_done() ==> compared(rr.1, ir.1, register, rr.0.spec_value()->0)
        }),
    decreases fuel,
{
    if fuel > 0 {
        let it = InstructionTasks::Compare(CompareTasks::fresh(read, register));
        lemma_compare_cycle(read, register, cpu, mem);
        read.lemma_next(cpu, mem);
        lemma_run_step(it, cpu, mem, fuel);
        lemma_run_step(read, cpu, mem, fuel);
        let rs = stepped(read, cpu, mem);
        let ls = stepped(it, cpu, mem);
        let rest = (fuel - 1) as nat;
        if rs.0.is_done() {
            lemma_run_done(rs.0, rs.1, rs.2, rest);
            lemma_run_done(ls.0, ls.1, ls.2, rest);
        } else {
            lemma_compare_follows_read(rs.0, register, rs.1, rs.2, rest);
        }
    }
}

/// The instruction a compare handler builds compares the register it is given, for every
/// addressing mode: cycle for cycle it reads its operand `v` as the read for that mode
/// does, and in the cycle that completes the read it sets carry to whether the register
/// is at least `v`, zero to whether it equals `v`, and negative to bit 7 of the register
/// minus `v`, changing no other flag and no register (`compared`). Until then the
/// processor and memory are as that read leaves them.
pub proof fn lemma_compare_handler(
    handler_cpu: CPU,
    mode: Option<AddressingMode>,
    register: Registers,
    cpu: CPU,
    mem: MemView,
    fuel: nat,
)
    requires
        !read_memory_for(handler_cpu.chip_variant, mode).is_done(),
        read_memory_for(handler_cpu.chip_variant, mode).can_tick(cpu.addr),
        mem.0.len() == MEMORY_SIZE,
    ensures
        ({
            let rr = run(read_memory_for(handler_cpu.chip_variant, mode), cpu, mem, fuel);
            let ir = run(compare_instruction(handler_cpu, mode, register), cpu, mem, fuel);
            &&& ir.2 == rr.2
            &&& ir.0.is_done() == rr.0.is_done()
            &&& !rr.0.is_done() ==> ir.1 == rr.1
            &&& rr.0.is_done() ==> compared(rr.1, ir.1, register, rr.0.spec_value()->0)
        }),
{
    lemma_compare_follows_read(read_memory_for(handler_cpu.chip_variant, mode), register, cpu, mem, fuel);
}

pub fn compare(cpu: &mut CPU, addr_mode: Option<AddressingMode>, register: Registers) -> (r:
    InstructionTasks)
    requires
        addr_mode matches Some(mode) ==> has_addressing_tasks(mode),
    ensures
        r == compare_instruction(*old(cpu), addr_mode, register),
        *final(cpu) == *old(cpu),
{
    let read_memory_tasks = cpu.read_memory(addr_mode);
    InstructionTasks::Compare(CompareTasks::new(read_memory_tasks, register))
}

/// How an arithmetic operation changes a flag.
#[derive(Copy, Clone, PartialEq, Eq, Debug, Structural)]
pub enum FlagOp {
    Unchanged,
    Raise,
    Clear,
}

/// Whether adding two bytes of the same sign gave a result of the other sign.
pub open spec fn sign_overflow(a: Byte, b: Byte, result: Byte) -> bool {
    is_negative(a) == is_negative(b) && is_negative(result) != is_negative(a)
}

/// `ADC` (binary mode): the sum of accumulator, operand and incoming carry modulo 256.
/// Carry is set exactly when the sum exceeds 255 and cleared otherwise; overflow is set
/// exactly when the signed sum leaves the range of a byte and cleared otherwise.
pub open spec fn spec_adc(val: Byte, acc: Byte, carry: bool) -> (Byte, FlagOp, FlagOp) {
    let sum = acc as int + val as int + if carry {
        1int
    } else {
        0int
    };
    let result = (sum % 256) as Byte;
    (
        result,
        if sum > 255 {
            FlagOp::Raise
        } else {
            FlagOp::Clear
        },
        if sign_overflow(acc, val, result) {
            FlagOp::Raise
        } else {
            FlagOp::Clear
        },
    )
}

/// `SBC` (binary mode): the accumulator plus the one's complement of the operand plus
/// the carry, modulo 256, i.e. `acc - val - (1 - carry)`. Carry is set exactly when no
/// borrow occurred (the sum exceeds 255) and cleared otherwise; overflow is set exactly
/// when the signed difference leaves the range of a byte and cleared otherwise.
pub open spec fn spec_sbc(val: Byte, acc: Byte, carry: bool) -> (Byte, FlagOp, FlagOp) {
    let complement = (255 - val) as Byte;
    spec_adc(complement, acc, carry)
}

proof fn lemma_sign_overflow_bits(a: Byte, b: Byte, result: Byte)
    ensures
        ((a ^ result) & (b ^ result) & 0x80 > 0) == sign_overflow(a, b, result),
{
    assert(((a ^ result) & (b ^ result) & 0x80 > 0) == ((a >= 0x80) == (b >= 0x80) && (result
        >= 0x80) != (a >= 0x80))) by (bit_vector);
}

/// Add with carry.
pub fn adc(val: Byte, acc: Byte, carry: bool) -> (r: (Byte, FlagOp, FlagOp))
    ensures
        r == spec_adc(val, acc, carry),
{
    let carry_in: u16 = if carry {
        1
    } else {
        0
    };
    let sum: u16 = acc as u16 + val as u16 + carry_in;
    let result = (sum % 256) as u8;
    // the sign of the result differs from the signs of both inputs
    let overflow = (acc ^ result) & (val ^ result) & 0x80 > 0;
    proof {
        lemma_sign_overflow_bits(acc, val, result);
    }
    let carry_op = if sum > 255 {
        FlagOp::Raise
    } else {
        FlagOp::Clear
    };
    let overflow_op = if overflow {
        FlagOp::Raise
    } else {
        FlagOp::Clear
    };
    (result, carry_op, overflow_op)
}

/// Subtract with borrow: adds the one's complement of the operand.
pub fn sbc(val: Byte, acc: Byte, carry: bool) -> (r: (Byte, FlagOp, FlagOp))
    ensures
        r == spec_sbc(val, acc, carry),
{
    let complement: u8 = 0xFF - val;
    adc(complement, acc, carry)
}

/// The two operations that involve the carry flag.
#[derive(Copy, Clone, PartialEq, Eq, Debug, Structural)]
pub enum ArithmeticOperation {
    Adc,
    Sbc,
}

/// Result byte and flag changes of an arithmetic operation.
pub open spec fn arithmetic_result(op: ArithmeticOperation, value: Byte, acc: Byte, carry: bool) -> (
    Byte,
    FlagOp,
    FlagOp,
) {
    match op {
        ArithmeticOperation::Adc => spec_adc(value, acc, carry),
        ArithmeticOperation::Sbc => spec_sbc(value, acc, carry),
    }
}

/// The processor after an arithmetic operation on operand `value`: the result goes
/// to the accumulator (with zero and negative flags), then carry and overflow change
/// as the operation asks.
pub open spec fn after_arithmetic(cpu: CPU, op: ArithmeticOperation, value: Byte) -> CPU {
    let res = arithmetic_result(op, value, cpu.accumulator, cpu.flag(Flags::Carry));
    let c1 = cpu.with_register(Registers::Accumulator, res.0);
    let c2 = if res.1 != FlagOp::Unchanged {
        c1.with_flag(Flags::Carry, res.1 == FlagOp::Raise)
    } else {
        c1
    };
    if res.2 != FlagOp::Unchanged {
        c2.with_flag(Flags::Overflow, res.2 == FlagOp::Raise)
    } else {
        c2
    }
}

/// Addition or subtraction on the accumulator with an operand.
pub struct ArithmeticTasks {
    pub done: bool,
    pub read_memory_tasks: AnyReadMemoryTasks,
    pub operation: ArithmeticOperation,
}

impl ArithmeticTasks {
    pub open spec fn fresh(read_memory_tasks: AnyReadMemoryTasks, operation: ArithmeticOperation) -> Self {
        ArithmeticTasks { done: false, read_memory_tasks, operation }
    }

    pub fn new(read_memory_tasks: AnyReadMemoryTasks, operation: ArithmeticOperation) -> (r: Self)
        ensures
            r == Self::fresh(read_memory_tasks, operation),
    {
        ArithmeticTasks { done: false, read_memory_tasks, operation }
    }
}

impl Tasks for ArithmeticTasks {
    open spec fn is_done(&self) -> bool {
        self.done
    }

    open spec fn can_tick(&self, addr: Address) -> bool {
        !self.done && read_ready(self.read_memory_tasks, addr)
    }

    closed spec fn next(&self, cpu: CPU, mem: MemView) -> (Self, CPU, MemView, bool) {
        self.step(cpu, mem)
    }

    open spec fn remaining(&self) -> nat {
        if self.done {
            0
        } else {
            self.read_memory_tasks.remaining() + 1
        }
    }

    fn done(&self) -> (r: bool) {
        self.done
    }

    fn tick(&mut self, cpu: &mut CPU, memory: &mut Generic64kMem) -> (r: bool) {
        let value = match advance_read(&mut self.read_memory_tasks, cpu, memory) {
            None => {
                return false;
            },
            Some(value) => value,
        };
        let accumulator = cpu.get_register(Registers::Accumulator);
        let carry_in = cpu.processor_status.get_carry_flag();
        let (result, carry, overflow) = match self.operation {
            ArithmeticOperation::Adc => adc(value, accumulator, carry_in),
            ArithmeticOperation::Sbc => sbc(value, accumulator, carry_in),
        };
        cpu.set_register(Registers::Accumulator, result);
        if carry != FlagOp::Unchanged {
            cpu.processor_status.change_carry_flag(carry == FlagOp::Raise)
        }
        if overflow != FlagOp::Unchanged {
            cpu.processor_status.change_overflow_flag(overflow == FlagOp::Raise)
        }
        self.done = true;
        true
    }

    proof fn lemma_next(&self, cpu: CPU, mem: MemView) {
        lemma_read_cycle(self.read_memory_tasks, cpu, mem);
    }

    proof fn lemma_next_ignores_last_access(&self, cpu: CPU, m1: MemView, m2: MemView) {
        if !self.read_memory_tasks.is_done() {
            self.read_memory_tasks.lemma_next_ignores_last_access(cpu, m1, m2);
        }
    }
}

impl ArithmeticTasks {
    /// One cycle of this work: the work, processor and memory after it, and whether
    /// the work is finished.
    pub open spec fn step(&self, cpu: CPU, mem: MemView) -> (Self, CPU, MemView, bool) {
        let n = read_cycle(self.read_memory_tasks, cpu, mem);
        if !n.3 {
            (ArithmeticTasks { read_memory_tasks: n.0, ..*self }, n.1, n.2, false)
        } else {
            (
                ArithmeticTasks { done: true, read_memory_tasks: n.0, ..*self },
                after_arithmetic(n.1, self.operation, n.0.spec_value()->0),
                n.2,
                true,
            )
        }
    }

    /// `next` is `step`.
    pub proof fn lemma_next_is_step(&self, cpu: CPU, mem: MemView)
        ensures
            self.next(cpu, mem) == self.step(cpu, mem),
    {
    }
}

/// With an immediate operand `ADC` and `SBC` take one cycle: they read the byte after the
/// opcode, advance the program counter past it, and update the accumulator, carry and
/// overflow as `after_arithmetic` describes; memory only records the read.
pub proof fn lemma_arithmetic_immediate(op: ArithmeticOperation, cpu: CPU, mem: MemView)
    requires
        cpu.cycle + 1 < usize::MAX,
    ensures
        ({
            let pc = cpu.program_counter;
            let t = ArithmeticTasks::fresh(
                AnyReadMemoryTasks::Immediate(ImmediateReadMemoryTasks::fresh()),
                op,
            );
            let a = Address::cleared(AddressingMode::Immediate, false).with_val(pc).finished();
            let r = run(t, cpu, mem, 1);
            &&& r.0.done
            &&& r.1 == CPU {
                cycle: (cpu.cycle + 1) as usize,
                ..after_arithmetic(cpu.with_addr(a).pc_incremented(), op, mem_at(mem, pc))
            }
            &&& r.2 == mem_after_read(mem, pc)
        }),
{
    let t = ArithmeticTasks::fresh(
        AnyReadMemoryTasks::Immediate(ImmediateReadMemoryTasks::fresh()),
        op,
    );
    t.lemma_next_is_step(cpu, mem);
    lemma_run_step(t, cpu, mem, 1);
}

/// The processor `after` is `before` after `ADC v` (or `SBC v`, which adds `255 - v`): the
/// accumulator holds the accumulator plus the addend plus the carry, modulo 256; carry
/// tells whether that sum exceeds 255; overflow whether the addend and the accumulator have
/// the same sign and the result the other; zero and negative describe the result; no other
/// flag and no other register changes.
pub open spec fn added(before: CPU, after: CPU, op: ArithmeticOperation, v: Byte) -> bool {
    let acc = before.accumulator;
    let w: int = match op {
        ArithmeticOperation::Adc => v as int,
        ArithmeticOperation::Sbc => 255 - v,
    };
    let sum = acc + w + if before.flag(Flags::Carry) {
        1int
    } else {
        0int
    };
    let result = after.accumulator;
    &&& result == sum % 256
    &&& after.flag(Flags::Carry) == (sum > 255)
    &&& after.flag(Flags::Overflow) == ((acc >= 128) == (w >= 128) && (result >= 128) != (acc >= 128))
    &&& after.flag(Flags::Zero) == (result == 0)
    &&& after.flag(Flags::Negative) == (result >= 128)
    &&& forall|f: Flags|
        f != Flags::Carry && f != Flags::Zero && f != Flags::Negative && f != Flags::Overflow
            ==> #[trigger] after.flag(f) == before.flag(f)
    &&& after == CPU { processor_status: after.processor_status, accumulator: after.accumulator, ..before }
}

/// `after_arithmetic` is the addition `added` describes.
proof fn lemma_after_arithmetic(cpu: CPU, op: ArithmeticOperation, v: Byte)
    ensures
        added(cpu, after_arithmetic(cpu, op, v), op, v),
{
    let res = arithmetic_result(op, v, cpu.accumulator, cpu.flag(Flags::Carry));
    let r = res.0;
    let ps0 = cpu.processor_status;
    let ps1 = ps0.with_flag(Flags::Zero, r == 0);
    let ps2 = ps1.with_flag(Flags::Negative, is_negative(r));
    let ps3 = ps2.with_flag(Flags::Carry, res.1 == FlagOp::Raise);
    let ps4 = ps3.with_flag(Flags::Overflow, res.2 == FlagOp::Raise);
    let after = after_arithmetic(cpu, op, v);
    assert(after.processor_status == ps4);
    assert forall|f: Flags| #![trigger after.flag(f)] true implies {
        &&& ps1.flag(f) == (if f == Flags::Zero { r == 0 } else { ps0.flag(f) })
        &&& ps2.flag(f) == (if f == Flags::Negative { is_negative(r) } else { ps1.flag(f) })
        &&& ps3.flag(f) == (if f == Flags::Carry { res.1 == FlagOp::Raise } else { ps2.flag(f) })
        &&& ps4.flag(f) == (if f == Flags::Overflow { res.2 == FlagOp::Raise } else { ps3.flag(f) })
    } by {
        lemma_flag_read_back(ps0, Flags::Zero, f, r == 0);
        lemma_flag_read_back(ps1, Flags::Negative, f, is_negative(r));
        lemma_flag_read_back(ps2, Flags::Carry, f, res.1 == FlagOp::Raise);
        lemma_flag_read_back(ps3, Flags::Overflow, f, res.2 == FlagOp::Raise);
    }
    assert(after.flag(Flags::Carry) == (res.1 == FlagOp::Raise));
    assert(after.flag(Flags::Overflow) == (res.2 == FlagOp::Raise));
    assert(after.flag(Flags::Zero) == (r == 0));
    assert(after.flag(Flags::Negative) == is_negative(r));
}

/// One cycle of `ADC`/`SBC`: a cycle of its operand read and, if that cycle completes the
/// read, the addition.
proof fn lemma_arithmetic_cycle(read: AnyReadMemoryTasks, op: ArithmeticOperation, cpu: CPU, mem: MemView)
    requires
        !read.is_done(),
        read.can_tick(cpu.addr),
        mem.0.len() == MEMORY_SIZE,
    ensures
        ({
            let rs = stepped(read, cpu, mem);
            let ls = stepped(InstructionTasks::Arithmetic(ArithmeticTasks::fresh(read, op)), cpu, mem);
            &&& ls.2 == rs.2
            &&& ls.0.is_done() == rs.0.is_done()
            &&& rs.0.is_done() ==> added(rs.1, ls.1, op, rs.0.spec_value()->0)
            &&& !rs.0.is_done() ==> ls.1 == rs.1 && ls.0 == InstructionTasks::Arithmetic(
                ArithmeticTasks::fresh(rs.0, op),
            )
        }),
{
    let t = ArithmeticTasks::fresh(read, op);
    t.lemma_next_is_step(cpu, mem);
    read.lemma_next(cpu, mem);
    let n = read.next(cpu, mem);
    if n.3 {
        let v = n.0.spec_value()->0;
        lemma_after_arithmetic(n.1, op, v);
        let ls = stepped(InstructionTasks::Arithmetic(t), cpu, mem);
        let rs = stepped(read, cpu, mem);
        assert forall|f: Flags| #![trigger ls.1.flag(f)] true implies ls.1.flag(f)
            == after_arithmetic(n.1, op, v).flag(f) && rs.1.flag(f) == n.1.flag(f) by {}
    }
}

/// `ADC`/`SBC` run in step with their operand read, whatever the read.
proof fn lemma_arithmetic_follows_read(
    read: AnyReadMemoryTasks,
    op: ArithmeticOperation,
    cpu: CPU,
    mem: MemView,
    fuel: nat,
)
    requires
        !read.is_done(),
        read.can_tick(cpu.addr),
        mem.0.len() == MEMORY_SIZE,
    ensures
        ({
            let rr = run(read, cpu, mem, fuel);
            let ir = run(InstructionTasks::Arithmetic(ArithmeticTasks::fresh(read, op)), cpu, mem, fuel);
            &&& ir.2 == rr.2
            &&& ir.0.is_done() == rr.0.is_done()
            &&& !rr.0.is_done() ==> ir.1 == rr.1
            &&& rr.0.is_done() ==> added(rr.1, ir.1, op, rr.0.spec_value()->0)
        }),
    decreases fuel,
{
    if fuel > 0 {
        let it = InstructionTasks::Arithmetic(ArithmeticTasks::fresh(read, op));
        lemma_arithmetic_cycle(read, op, cpu, mem);
        read.lemma_next(cpu, mem);
        lemma_run_step(it, cpu, mem, fuel);
        lemma_run_step(read, cpu, mem, fuel);
        let rs = stepped(read, cpu, mem);
        let ls = stepped(it, cpu, mem);
        let rest = (fuel - 1) as nat;
        if rs.0.is_done() {
            lemma_run_done(rs.0, rs.1, rs.2, rest);
            lemma_run_done(ls.0, ls.1, ls.2, rest);
        } else {
            lemma_arithmetic_follows_read(rs.0, op, rs.1, rs.2, rest);
        }
    }
}

/// The instruction an arithmetic handler builds adds (or subtracts) the operand of the
/// addressing mode it is given, for every mode: cycle for cycle it reads its operand `v` as
/// the read for that mode does, and in the cycle that completes the read it updates the
/// accumulator and the carry, overflow, zero and negative flags as `added` describes.
/// Until then the processor and memory are as that read leaves them.
pub proof fn lemma_arithmetic_handler(
    handler_cpu: CPU,
    mode: Option<AddressingMode>,
    op: ArithmeticOperation,
    cpu: CPU,
    mem: MemView,
    fuel: nat,
)
    requires
        !read_memory_for(handler_cpu.chip_variant, mode).is_done(),
        read_memory_for(handler_cpu.chip_variant, mode).can_tick(cpu.addr),
        mem.0.len() == MEMORY_SIZE,
    ensures
        ({
            let rr = run(read_memory_for(handler_cpu.chip_variant, mode), cpu, mem, fuel);
            let ir = run(arithmetic_instruction(handler_cpu, mode, op), cpu, mem, fuel);
            &&& ir.2 == rr.2
            &&& ir.0.is_done() == rr.0.is_done()
            &&& !rr.0.is_done() ==> ir.1 == rr.1
            &&& rr.0.is_done() ==> added(rr.1, ir.1, op, rr.0.spec_value()->0)
        }),
{
    lemma_arithmetic_follows_read(read_memory_for(handler_cpu.chip_variant, mode), op, cpu, mem, fuel);
}

/// The instruction an arithmetic handler builds.
pub open spec fn arithmetic_instruction(
    cpu: CPU,
    addr_mode: Option<AddressingMode>,
    operation: ArithmeticOperation,
) -> InstructionTasks {
    InstructionTasks::Arithmetic(
        ArithmeticTasks::fresh(read_memory_for(cpu.chip_variant, addr_mode), operation),
    )
}

pub fn operations_with_carry(
    cpu: &mut CPU,
    addr_mode: Option<AddressingMode>,
    operation: ArithmeticOperation,
) -> (r: InstructionTasks)
    requires
        addr_mode matches Some(mode) ==> has_addressing_tasks(mode),
    ensures
        r == arithmetic_instruction(*old(cpu), addr_mode, operation),
        *final(cpu) == *old(cpu),
{
    let read_memory_tasks = cpu.read_memory(addr_mode);
    InstructionTasks::Arithmetic(ArithmeticTasks::new(read_memory_tasks, operation))
}

/// `CMP #imm`
pub fn cmp_im(cpu: &mut CPU) -> (r: InstructionTasks)
    ensures
        r == compare_instruction(*old(cpu), None, Registers::Accumulator),
        *final(cpu) == *old(cpu),
{
    compare(cpu, None, Registers::Accumulator)
}

/// `CMP zp`
pub fn cmp_zp(cpu: &mut CPU) -> (r: InstructionTasks)
    ensures
        r == compare_instruction(*old(cpu), Some(AddressingMode::ZeroPage), Registers::Accumulator),
        *final(cpu) == *old(cpu),
{
    compare(cpu, Some(AddressingMode::ZeroPage), Registers::Accumulator)
}

/// `CMP zp,X`
pub fn cmp_zpx(cpu: &mut CPU) -> (r: InstructionTasks)
    ensures
        r == compare_instruction(*old(cpu), Some(AddressingMode::ZeroPageX), Registers::Accumulator),
        *final(cpu) == *old(cpu),
{
    compare(cpu, Some(AddressingMode::ZeroPageX), Registers::Accumulator)
}

/// `CMP abs`
pub fn cmp_a(cpu: &mut CPU) -> (r: InstructionTasks)
    ensures
        r == compare_instruction(*old(cpu), Some(AddressingMode::Absolute), Registers::Accumulator),
        *final(cpu) == *old(cpu),
{
    compare(cpu, Some(AddressingMode::Absolute), Registers::Accumulator)
}

/// `CMP abs,X`
pub fn cmp_ax(cpu: &mut CPU) -> (r: InstructionTasks)
    ensures
        r == compare_instruction(*old(cpu), Some(AddressingMode::AbsoluteX), Registers::Accumulator),
        *final(cpu) == *old(cpu),
{
    compare(cpu, Some(AddressingMode::AbsoluteX), Registers::Accumulator)
}

/// `CMP abs,Y`
pub fn cmp_ay(cpu: &mut CPU) -> (r: InstructionTasks)
    ensures
        r == compare_instruction(*old(cpu), Some(AddressingMode::AbsoluteY), Registers::Accumulator),
        *final(cpu) == *old(cpu),
{
    compare(cpu, Some(AddressingMode::AbsoluteY), Registers::Accumulator)
}

/// `CMP (zp,X)`
pub fn cmp_inx(cpu: &mut CPU) -> (r: InstructionTasks)
    ensures
        r == compare_instruction(*old(cpu), Some(AddressingMode::IndexIndirectX), Registers::Accumulator),
        *final(cpu) == *old(cpu),
{
    compare(cpu, Some(AddressingMode::IndexIndirectX), Registers::Accumulator)
}

/// `CMP (zp),Y`
pub fn cmp_iny(cpu: &mut CPU) -> (r: InstructionTasks)
    ensures
        r == compare_instruction(*old(cpu), Some(AddressingMode::IndirectIndexY), Registers::Accumulator),
        *final(cpu) == *old(cpu),
{
    compare(cpu, Some(AddressingMode::IndirectIndexY), Registers::Accumulator)
}

/// `CPX #imm`
pub fn cpx_im(cpu: &mut CPU) -> (r: InstructionTasks)
    ensures
        r == compare_instruction(*old(cpu), None, Registers::IndexX),
        *final(cpu) == *old(cpu),
{
    compare(cpu, None, Registers::IndexX)
}

/// `CPX zp`
pub fn cpx_zp(cpu: &mut CPU) -> (r: InstructionTasks)
    ensures
        r == compare_instruction(*old(cpu), Some(AddressingMode::ZeroPage), Registers::IndexX),
        *final(cpu) == *old(cpu),
{
    compare(cpu, Some(AddressingMode::ZeroPage), Registers::IndexX)
}

/// `CPX abs`
pub fn cpx_a(cpu: &mut CPU) -> (r: InstructionTasks)
    ensures
        r == compare_instruction(*old(cpu), Some(AddressingMode::Absolute), Registers::IndexX),
        *final(cpu) == *old(cpu),
{
    compare(cpu, Some(AddressingMode::Absolute), Registers::IndexX)
}

/// `CPY #imm`
pub fn cpy_im(cpu: &mut CPU) -> (r: InstructionTasks)
    ensures
        r == compare_instruction(*old(cpu), None, Registers::IndexY),
        *final(cpu) == *old(cpu),
{
    compare(cpu, None, Registers::IndexY)
}

/// `CPY zp`
pub fn cpy_zp(cpu: &mut CPU) -> (r: InstructionTasks)
    ensures
        r == compare_instruction(*old(cpu), Some(AddressingMode::ZeroPage), Registers::IndexY),
        *final(cpu) == *old(cpu),
{
    compare(cpu, Some(AddressingMode::ZeroPage), Registers::IndexY)
}

/// `CPY abs`
pub fn cpy_a(cpu: &mut CPU) -> (r: InstructionTasks)
    ensures
        r == compare_instruction(*old(cpu), Some(AddressingMode::Absolute), Registers::IndexY),
        *final(cpu) == *old(cpu),
{
    compare(cpu, Some(AddressingMode::Absolute), Registers::IndexY)
}

/// `ADC #imm`
pub fn adc_im(cpu: &mut CPU) -> (r: InstructionTasks)
    ensures
        r == arithmetic_instruction(*old(cpu), None, ArithmeticOperation::Adc),
        *final(cpu) == *old(cpu),
{
    operations_with_carry(cpu, None, ArithmeticOperation::Adc)
}

/// `ADC zp`
pub fn adc_zp(cpu: &mut CPU) -> (r: InstructionTasks)
    ensures
        r == arithmetic_instruction(*old(cpu), Some(AddressingMode::ZeroPage), ArithmeticOperation::Adc),
        *final(cpu) == *old(cpu),
{
    operations_with_carry(cpu, Some(AddressingMode::ZeroPage), ArithmeticOperation::Adc)
}

/// `ADC zp,X`
pub fn adc_zpx(cpu: &mut CPU) -> (r: InstructionTasks)
    ensures
        r == arithmetic_instruction(*old(cpu), Some(AddressingMode::ZeroPageX), ArithmeticOperation::Adc),
        *final(cpu) == *old(cpu),
{
    operations_with_carry(cpu, Some(AddressingMode::ZeroPageX), ArithmeticOperation::Adc)
}

/// `ADC abs`
pub fn adc_a(cpu: &mut CPU) -> (r: InstructionTasks)
    ensures
        r == arithmetic_instruction(*old(cpu), Some(AddressingMode::Absolute), ArithmeticOperation::Adc),
        *final(cpu) == *old(cpu),
{
    operations_with_carry(cpu, Some(AddressingMode::Absolute), ArithmeticOperation::Adc)
}

/// `ADC abs,X`
pub fn adc_ax(cpu: &mut CPU) -> (r: InstructionTasks)
    ensures
        r == arithmetic_instruction(*old(cpu), Some(AddressingMode::AbsoluteX), ArithmeticOperation::Adc),
        *final(cpu) == *old(cpu),
{
    operations_with_carry(cpu, Some(AddressingMode::AbsoluteX), ArithmeticOperation::Adc)
}

/// `ADC abs,Y`
pub fn adc_ay(cpu: &mut CPU) -> (r: InstructionTasks)
    ensures
        r == arithmetic_instruction(*old(cpu), Some(AddressingMode::AbsoluteY), ArithmeticOperation::Adc),
        *final(cpu) == *old(cpu),
{
    operations_with_carry(cpu, Some(AddressingMode::AbsoluteY), ArithmeticOperation::Adc)
}

/// `ADC (zp,X)`
pub fn adc_inx(cpu: &mut CPU) -> (r: InstructionTasks)
    ensures
        r == arithmetic_instruction(*old(cpu), Some(AddressingMode::IndexIndirectX), ArithmeticOperation::Adc),
        *final(cpu) == *old(cpu),
{
    operations_with_carry(cpu, Some(AddressingMode::IndexIndirectX), ArithmeticOperation::Adc)
}

/// `ADC (zp),Y`
pub fn adc_iny(cpu: &mut CPU) -> (r: InstructionTasks)
    ensures
        r == arithmetic_instruction(*old(cpu), Some(AddressingMode::IndirectIndexY), ArithmeticOperation::Adc),
        *final(cpu) == *old(cpu),
{
    operations_with_carry(cpu, Some(AddressingMode::IndirectIndexY), ArithmeticOperation::Adc)
}

/// `SBC #imm`
pub fn sbc_im(cpu: &mut CPU) -> (r: InstructionTasks)
    ensures
        r == arithmetic_instruction(*old(cpu), None, ArithmeticOperation::Sbc),
        *final(cpu) == *old(cpu),
{
    operations_with_carry(cpu, None, ArithmeticOperation::Sbc)
}

/// `SBC zp`
pub fn sbc_zp(cpu: &mut CPU) -> (r: InstructionTasks)
    ensures
        r == arithmetic_instruction(*old(cpu), Some(AddressingMode::ZeroPage), ArithmeticOperation::Sbc),
        *final(cpu) == *old(cpu),
{
    operations_with_carry(cpu, Some(AddressingMode::ZeroPage), ArithmeticOperation::Sbc)
}

/// `SBC zp,X`
pub fn sbc_zpx(cpu: &mut CPU) -> (r: InstructionTasks)
    ensures
        r == arithmetic_instruction(*old(cpu), Some(AddressingMode::ZeroPageX), ArithmeticOperation::Sbc),
        *final(cpu) == *old(cpu),
{
    operations_with_carry(cpu, Some(AddressingMode::ZeroPageX), ArithmeticOperation::Sbc)
}

/// `SBC abs`
pub fn sbc_a(cpu: &mut CPU) -> (r: InstructionTasks)
    ensures
        r == arithmetic_instruction(*old(cpu), Some(AddressingMode::Absolute), ArithmeticOperation::Sbc),
        *final(cpu) == *old(cpu),
{
    operations_with_carry(cpu, Some(AddressingMode::Absolute), ArithmeticOperation::Sbc)
}

/// `SBC abs,X`
pub fn sbc_ax(cpu: &mut CPU) -> (r: InstructionTasks)
    ensures
        r == arithmetic_instruction(*old(cpu), Some(AddressingMode::AbsoluteX), ArithmeticOperation::Sbc),
        *final(cpu) == *old(cpu),
{
    operations_with_carry(cpu, Some(AddressingMode::AbsoluteX), ArithmeticOperation::Sbc)
}

/// `SBC abs,Y`
pub fn sbc_ay(cpu: &mut CPU) -> (r: InstructionTasks)
    ensures
        r == arithmetic_instruction(*old(cpu), Some(AddressingMode::AbsoluteY), ArithmeticOperation::Sbc),
        *final(cpu) == *old(cpu),
{
    operations_with_carry(cpu, Some(AddressingMode::AbsoluteY), ArithmeticOperation::Sbc)
}

/// `SBC (zp,X)`
pub fn sbc_inx(cpu: &mut CPU) -> (r: InstructionTasks)
    ensures
        r == arithmetic_instruction(*old(cpu), Some(AddressingMode::IndexIndirectX), ArithmeticOperation::Sbc),
        *final(cpu) == *old(cpu),
{
    operations_with_carry(cpu, Some(AddressingMode::IndexIndirectX), ArithmeticOperation::Sbc)
}

/// `SBC (zp),Y`
pub fn sbc_iny(cpu: &mut CPU) -> (r: InstructionTasks)
    ensures
        r == arithmetic_instruction(*old(cpu), Some(AddressingMode::IndirectIndexY), ArithmeticOperation::Sbc),
        *final(cpu) == *old(cpu),
{
    operations_with_carry(cpu, Some(AddressingMode::IndirectIndexY), ArithmeticOperation::Sbc)
}

} // verus!
