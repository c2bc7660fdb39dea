use crate::consts::Byte;
use crate::cpu::addressing::{has_addressing_tasks, AddressingMode};
use crate::cpu::instructions::{advance_read, lemma_read_cycle, read_cycle, read_ready, InstructionTasks};
use crate::cpu::tasks::read_memory::{AnyReadMemoryTasks, ImmediateReadMemoryTasks, ReadMemoryTasks};
use crate::cpu::tasks::{lemma_run_done, lemma_run_step, run, stepped, Tasks};
use crate::cpu::processor_status::{lemma_flag_read_back, Flags};
use crate::cpu::{is_negative, lemma_with_register_loads, loaded, read_memory_for, Registers, CPU};
use crate::memory::{mem_after_read, mem_at, Generic64kMem, MemView, MEMORY_SIZE};
use crate::cpu::addressing::address::Address;
use vstd::prelude::*;

verus! {

/// The logical operations on the accumulator.
#[derive(Copy, Clone, Debug, PartialEq, Eq, Structural)]
pub enum LogicalVariant {
    And,
    Eor,
    Ora,
    Bit,
}

/// The processor after a logical operation with operand `value`: `AND`, `EOR`,
/// `ORA` store their result in the accumulator (with zero and negative flags);
/// `BIT` only sets the zero, overflow and negative flags from `A & value`.
pub open spec fn after_logical(cpu: CPU, variant: LogicalVariant, value: Byte) -> CPU {
    match variant {
        LogicalVariant::And => cpu.with_register(Registers::Accumulator, cpu.accumulator & value),
        LogicalVariant::Eor => cpu.with_register(Registers::Accumulator, cpu.accumulator ^ value),
        LogicalVariant::Ora => cpu.with_register(Registers::Accumulator, cpu.accumulator | value),
        LogicalVariant::Bit => cpu.with_bit_status(cpu.accumulator & value),
    }
}

/// A logical operation between the accumulator and an operand.
pub struct LogicalTasks {
    pub done: bool,
    pub read_memory_tasks: AnyReadMemoryTasks,
    pub variant: LogicalVariant,
}

impl LogicalTasks {
    pub open spec fn fresh(read_memory_tasks: AnyReadMemoryTasks, variant: LogicalVariant) -> Self {
        LogicalTasks { done: false, read_memory_tasks, variant }
    }

    pub fn new_and(read_memory_tasks: AnyReadMemoryTasks) -> (r: Self)
        ensures
            r == Self::fresh(read_memory_tasks, LogicalVariant::And),
    {
        LogicalTasks { done: false, read_memory_tasks, variant: LogicalVariant::And }
    }

    pub fn new_eor(read_memory_tasks: AnyReadMemoryTasks) -> (r: Self)
        ensures
            r == Self::fresh(read_memory_tasks, LogicalVariant::Eor),
    {
        LogicalTasks { done: false, read_memory_tasks, variant: LogicalVariant::Eor }
    }

    pub fn new_ora(read_memory_tasks: AnyReadMemoryTasks) -> (r: Self)
        ensures
            r == Self::fresh(read_memory_tasks, LogicalVariant::Ora),
    {
        LogicalTasks { done: false, read_memory_tasks, variant: LogicalVariant::Ora }
    }

    pub fn new_bit(read_memory_tasks: AnyReadMemoryTasks) -> (r: Self)
        ensures
            r == Self::fresh(read_memory_tasks, LogicalVariant::Bit),
    {
        LogicalTasks { done: false, read_memory_tasks, variant: LogicalVariant::Bit }
    }
}

impl Tasks for LogicalTasks {
    open spec fn is_done(&self) -> bool {
        self.done
    }

    open spec fn can_tick(&self, addr: Address) -> bool {
        !self.done && read_ready(self.read_memory_tasks, addr)
    }

    closed spec fn next(&self, cpu: CPU, mem: MemView) -> (Self, CPU, MemView, bool) {
        self.step(cpu, mem)
    }

    open spec fn remaining(&self) -> nat {
        if self.done {
            0
        } else {
            self.read_memory_tasks.remaining() + 1
        }
    }

    fn done(&self) -> (r: bool) {
        self.done
    }

    fn tick(&mut self, cpu: &mut CPU, memory: &mut Generic64kMem) -> (r: bool) {
        let value = match advance_read(&mut self.read_memory_tasks, cpu, memory) {
            None => {
                return false;
            },
            Some(value) => value,
        };
        match self.variant {
            LogicalVariant::And => {
                let result_value = cpu.get_register(Registers::Accumulator) & value;
                cpu.set_register(Registers::Accumulator, result_value);
            },
            LogicalVariant::Eor => {
                let result_value = cpu.get_register(Registers::Accumulator) ^ value;
                cpu.set_register(Registers::Accumulator, result_value);
            },
            LogicalVariant::Ora => {
                let result_value = cpu.get_register(Registers::Accumulator) | value;
                cpu.set_register(Registers::Accumulator, result_value);
            },
            LogicalVariant::Bit => {
                cpu.set_bit_status(cpu.accumulator & value);
            },
        }
        self.done = true;
        self.done
    }

    proof fn lemma_next(&self, cpu: CPU, mem: MemView) {
        lemma_read_cycle(self.read_memory_tasks, cpu, mem);
    }

    proof fn lemma_next_ignores_last_access(&self, cpu: CPU, m1: MemView, m2: MemView) {
        if !self.read_memory_tasks.is_done() {
            self.read_memory_tasks.lemma_next_ignores_last_access(cpu, m1, m2);
        }
    }
}

impl LogicalTasks {
    /// One cycle of this work: the work, processor and memory after it, and whether
    /// the work is finished.
    pub open spec fn step(&self, cpu: CPU, mem: MemView) -> (Self, CPU, MemView, bool) {
        let n = read_cycle(self.read_memory_tasks, cpu, mem);
        if !n.3 {
            (LogicalTasks { read_memory_tasks: n.0, ..*self }, n.1, n.2, false)
        } else {
            (
                LogicalTasks { done: true, read_memory_tasks: n.0, ..*self },
                after_logical(n.1, self.variant, n.0.spec_value()->0),
                n.2,
                true,
            )
        }
    }

    /// `next` is `step`.
    pub proof fn lemma_next_is_step(&self, cpu: CPU, mem: MemView)
        ensures
            self.next(cpu, mem) == self.step(cpu, mem),
    {
    }
}

/// With an immediate operand a logical operation takes one cycle: it reads the byte after
/// the opcode, advances the program counter past it, and combines it with the
/// accumulator as `after_logical` describes; memory only records the read.
pub proof fn lemma_logical_immediate(variant: LogicalVariant, cpu: CPU, mem: MemView)
    requires
        cpu.cycle + 1 < usize::MAX,
    ensures
        ({
            let pc = cpu.program_counter;
            let t = LogicalTasks::fresh(
                AnyReadMemoryTasks::Immediate(ImmediateReadMemoryTasks::fresh()),
                variant,
            );
            let a = Address::cleared(AddressingMode::Immediate, false).with_val(pc).finished();
            let r = run(t, cpu, mem, 1);
            &&& r.0.done
            &&& r.1 == CPU {
                cycle: (cpu.cycle + 1) as usize,
                ..after_logical(cpu.with_addr(a).pc_incremented(), variant, mem_at(mem, pc))
            }
            &&& r.2 == mem_after_read(mem, pc)
        }),
{
    let t = LogicalTasks::fresh(
        AnyReadMemoryTasks::Immediate(ImmediateReadMemoryTasks::fresh()),
        variant,
    );
    t.lemma_next_is_step(cpu, mem);
    lemma_run_step(t, cpu, mem, 1);
}

/// A logical operation runs in step with its operand read, whatever the read: for any
/// number of cycles, memory is as the read alone leaves it; until the read has finished
/// the processor is too, and the operation is not done; in the cycle that completes the
/// read the operation combines the operand with the accumulator as `after_logical`
/// describes and is done.
pub proof fn lemma_logical_follows_read(
    read: AnyReadMemoryTasks,
    variant: LogicalVariant,
    cpu: CPU,
    mem: MemView,
    fuel: nat,
)
    requires
        !read.is_done(),
        read.can_tick(cpu.addr),
        mem.0.len() == MEMORY_SIZE,
    ensures
        ({
            let rr = run(read, cpu, mem, fuel);
            let lr = run(LogicalTasks::fresh(read, variant), cpu, mem, fuel);
            &&& lr.2 == rr.2
            &&& lr.0.done == rr.0.is_done()
            &&& rr.0.is_done() ==> lr.1 == after_logical(rr.1, variant, rr.0.spec_value()->0)
            &&& !rr.0.is_done() ==> lr.1 == rr.1
        }),
    decreases fuel,
{
    if fuel > 0 {
        let t = LogicalTasks::fresh(read, variant);
        t.lemma_next_is_step(cpu, mem);
        read.lemma_next(cpu, mem);
        lemma_run_step(t, cpu, mem, fuel);
        lemma_run_step(read, cpu, mem, fuel);
        let n = read.next(cpu, mem);
        let c1 = CPU { cycle: (n.1.cycle + 1) as usize, ..n.1 };
        let lt = stepped(t, cpu, mem);
        if n.3 {
            lemma_run_done(n.0, c1, n.2, (fuel - 1) as nat);
            lemma_run_done(lt.0, lt.1, lt.2, (fuel - 1) as nat);
        } else {
            assert(lt.0 == LogicalTasks::fresh(n.0, variant));
            lemma_logical_follows_read(n.0, variant, c1, n.2, (fuel - 1) as nat);
        }
    }
}

/// The processor `after` is `before` after the logical operation `variant` with operand
/// `v`: `AND`, `EOR` and `ORA` load the accumulator with its bitwise and, exclusive or, or
/// inclusive or with `v` (as `loaded` describes); `BIT` only sets zero to whether the
/// accumulator and `v` have no bit in common, and overflow and negative to bits 6 and 7 of
/// their bitwise and.
pub open spec fn logically_combined(before: CPU, after: CPU, variant: LogicalVariant, v: Byte) -> bool {
    let acc = before.accumulator;
    match variant {
        LogicalVariant::And => loaded(before, after, Registers::Accumulator, acc & v),
        LogicalVariant::Eor => loaded(before, after, Registers::Accumulator, acc ^ v),
        LogicalVariant::Ora => loaded(before, after, Registers::Accumulator, acc | v),
        LogicalVariant::Bit => {
            let m = acc & v;
            &&& after.flag(Flags::Zero) == (m == 0)
            &&& after.flag(Flags::Overflow) == (m & 0x40 != 0)
            &&& after.flag(Flags::Negative) == (m >= 128)
            &&& forall|f: Flags|
                f != Flags::Zero && f != Flags::Negative && f != Flags::Overflow
                    ==> #[trigger] after.flag(f) == before.flag(f)
            &&& after == CPU { processor_status: after.processor_status, ..before }
        },
    }
}

/// `after_logical` is the operation `logically_combined` describes.
proof fn lemma_after_logical(cpu: CPU, variant: LogicalVariant, v: Byte)
    ensures
        logically_combined(cpu, after_logical(cpu, variant, v), variant, v),
{
    let acc = cpu.accumulator;
    match variant {
        LogicalVariant::And => lemma_with_register_loads(cpu, Registers::Accumulator, acc & v),
        LogicalVariant::Eor => lemma_with_register_loads(cpu, Registers::Accumulator, acc ^ v),
        LogicalVariant::Ora => lemma_with_register_loads(cpu, Registers::Accumulator, acc | v),
        LogicalVariant::Bit => {
            let m = acc & v;
            let after = after_logical(cpu, variant, v);
            let ps0 = cpu.processor_status;
            let ps1 = ps0.with_flag(Flags::Zero, m == 0);
            let ps2 = ps1.with_flag(Flags::Overflow, m & 0b0100_0000 != 0);
            let ps3 = ps2.with_flag(Flags::Negative, is_negative(m));
            assert(after.processor_status == ps3);
            assert forall|f: Flags| #![trigger after.flag(f)] true implies {
                &&& ps1.flag(f) == (if f == Flags::Zero { m == 0 } else { ps0.flag(f) })
                &&& ps2.flag(f) == (if f == Flags::Overflow { m & 0b0100_0000 != 0 } else { ps1.flag(f) })
                &&& ps3.flag(f) == (if f == Flags::Negative { is_negative(m) } else { ps2.flag(f) })
            } by {
                lemma_flag_read_back(ps0, Flags::Zero, f, m == 0);
                lemma_flag_read_back(ps1, Flags::Overflow, f, m & 0b0100_0000 != 0);
                lemma_flag_read_back(ps2, Flags::Negative, f, is_negative(m));
            }
            assert(after.flag(Flags::Zero) == (m == 0));
            assert(after.flag(Flags::Overflow) == (m & 0x40 != 0));
            assert(after.flag(Flags::Negative) == (m >= 128));
        },
    }
}

/// A logical operation, as an instruction, runs in step with its operand read, whatever
/// the read.
proof fn lemma_logical_follows_instruction(
    read: AnyReadMemoryTasks,
    variant: LogicalVariant,
    cpu: CPU,
    mem: MemView,
    fuel: nat,
)
    requires
        !read.is_done(),
        read.can_tick(cpu.addr),
        mem.0.len() == MEMORY_SIZE,
    ensures
        ({
            let rr = run(read, cpu, mem, fuel);
            let ir = run(InstructionTasks::Logical(LogicalTasks::fresh(read, variant)), cpu, mem, fuel);
            &&& ir.2 == rr.2
            &&& ir.0.is_done() == rr.0.is_done()
            &&& !rr.0.is_done() ==> ir.1 == rr.1
            &&& rr.0.is_done() ==> logically_combined(rr.1, ir.1, variant, rr.0.spec_value()->0)
        }),
    decreases fuel,
{
    if fuel > 0 {
        let t = LogicalTasks::fresh(read, variant);
        let it = InstructionTasks::Logical(t);
        t.lemma_next_is_step(cpu, mem);
        read.lemma_next(cpu, mem);
        lemma_run_step(it, cpu, mem, fuel);
        lemma_run_step(read, cpu, mem, fuel);
        let rs = stepped(read, cpu, mem);
        let ls = stepped(it, cpu, mem);
        let rest = (fuel - 1) as nat;
        if rs.0.is_done() {
            lemma_run_done(rs.0, rs.1, rs.2, rest);
            lemma_run_done(ls.0, ls.1, ls.2, rest);
            let n = read.next(cpu, mem);
            let v = n.0.spec_value()->0;
            lemma_after_logical(n.1, variant, v);
            assert forall|f: Flags| #![trigger ls.1.flag(f)] true implies ls.1.flag(f)
                == after_logical(n.1, variant, v).flag(f) && rs.1.flag(f) == n.1.flag(f) by {}
            assert forall|o: Registers| #![trigger ls.1.reg(o)] true implies ls.1.reg(o)
                == after_logical(n.1, variant, v).reg(o) && rs.1.reg(o) == n.1.reg(o) by {}
        } else {
            lemma_logical_follows_instruction(rs.0, variant, rs.1, rs.2, rest);
        }
    }
}

/// The instruction a logical-operation handler builds combines the accumulator with the
/// operand of the addressing mode it is given, by the operation it is given, for every
/// mode: cycle for cycle it reads its operand `v` as the read for that mode does, and in
/// the cycle that completes the read it changes the processor as `logically_combined`
/// describes. Until then the processor and memory are as that read leaves them.
pub proof fn lemma_logical_handler(
    handler_cpu: CPU,
    mode: Option<AddressingMode>,
    variant: LogicalVariant,
    cpu: CPU,
    mem: MemView,
    fuel: nat,
)
    requires
        !read_memory_for(handler_cpu.chip_variant, mode).is_done(),
        read_memory_for(handler_cpu.chip_variant, mode).can_tick(cpu.addr),
        mem.0.len() == MEMORY_SIZE,
    ensures
        ({
            let rr = run(read_memory_for(handler_cpu.chip_variant, mode), cpu, mem, fuel);
            let ir = run(logical_instruction(handler_cpu, mode, variant), cpu, mem, fuel);
            &&& ir.2 == rr.2
            &&& ir.0.is_done() == rr.0.is_done()
            &&& !rr.0.is_done() ==> ir.1 == rr.1
            &&& rr.0.is_done() ==> logically_combined(rr.1, ir.1, variant, rr.0.spec_value()->0)
        }),
{
    lemma_logical_follows_instruction(read_memory_for(handler_cpu.chip_variant, mode), variant, cpu, mem, fuel);
}

/// The instruction a logical-operation handler builds.
pub open spec fn logical_instruction(
    cpu: CPU,
    addr_mode: Option<AddressingMode>,
    variant: LogicalVariant,
) -> InstructionTasks {
    InstructionTasks::Logical(LogicalTasks::fresh(read_memory_for(cpu.chip_variant, addr_mode), variant))
}

pub fn and(cpu: &mut CPU, addr_mode: Option<AddressingMode>) -> (r: InstructionTasks)
    requires
        addr_mode matches Some(mode) ==> has_addressing_tasks(mode),
    ensures
        r == logical_instruction(*old(cpu), addr_mode, LogicalVariant::And),
        *final(cpu) == *old(cpu),
{
    let read_memory_tasks = cpu.read_memory(addr_mode);
    InstructionTasks::Logical(LogicalTasks::new_and(read_memory_tasks))
}

/// `AND #imm`
pub fn and_im(cpu: &mut CPU) -> (r: InstructionTasks)
    ensures
        r == logical_instruction(*old(cpu), None, LogicalVariant::And),
        *final(cpu) == *old(cpu),
{
    and(cpu, None)
}

/// `AND zp`
pub fn and_zp(cpu: &mut CPU) -> (r: InstructionTasks)
    ensures
        r == logical_instruction(*old(cpu), Some(AddressingMode::ZeroPage), LogicalVariant::And),
        *final(cpu) == *old(cpu),
{
    and(cpu, Some(AddressingMode::ZeroPage))
}

/// `AND zp,X`
pub fn and_zpx(cpu: &mut CPU) -> (r: InstructionTasks)
    ensures
        r == logical_instruction(*old(cpu), Some(AddressingMode::ZeroPageX), LogicalVariant::And),
        *final(cpu) == *old(cpu),
{
    and(cpu, Some(AddressingMode::ZeroPageX))
}

/// `AND abs`
pub fn and_a(cpu: &mut CPU) -> (r: InstructionTasks)
    ensures
        r == logical_instruction(*old(cpu), Some(AddressingMode::Absolute), LogicalVariant::And),
        *final(cpu) == *old(cpu),
{
    and(cpu, Some(AddressingMode::Absolute))
}

/// `AND abs,X`
pub fn and_ax(cpu: &mut CPU) -> (r: InstructionTasks)
    ensures
        r == logical_instruction(*old(cpu), Some(AddressingMode::AbsoluteX), LogicalVariant::And),
        *final(cpu) == *old(cpu),
{
    and(cpu, Some(AddressingMode::AbsoluteX))
}

/// `AND abs,Y`
pub fn and_ay(cpu: &mut CPU) -> (r: InstructionTasks)
    ensures
        r == logical_instruction(*old(cpu), Some(AddressingMode::AbsoluteY), LogicalVariant::And),
        *final(cpu) == *old(cpu),
{
    and(cpu, Some(AddressingMode::AbsoluteY))
}

/// `AND (zp,X)`
pub fn and_inx(cpu: &mut CPU) -> (r: InstructionTasks)
    ensures
        r == logical_instruction(*old(cpu), Some(AddressingMode::IndexIndirectX), LogicalVariant::And),
        *final(cpu) == *old(cpu),
{
    and(cpu, Some(AddressingMode::IndexIndirectX))
}

/// `AND (zp),Y`
pub fn and_iny(cpu: &mut CPU) -> (r: InstructionTasks)
    ensures
        r == logical_instruction(*old(cpu), Some(AddressingMode::IndirectIndexY), LogicalVariant::And),
        *final(cpu) == *old(cpu),
{
    and(cpu, Some(AddressingMode::IndirectIndexY))
}

pub fn eor(cpu: &mut CPU, addr_mode: Option<AddressingMode>) -> (r: InstructionTasks)
    requires
        addr_mode matches Some(mode) ==> has_addressing_tasks(mode),
    ensures
        r == logical_instruction(*old(cpu), addr_mode, LogicalVariant::Eor),
        *final(cpu) == *old(cpu),
{
    let read_memory_tasks = cpu.read_memory(addr_mode);
    InstructionTasks::Logical(LogicalTasks::new_eor(read_memory_tasks))
}

/// `EOR #imm`
pub fn eor_im(cpu: &mut CPU) -> (r: InstructionTasks)
    ensures
        r == logical_instruction(*old(cpu), None, LogicalVariant::Eor),
        *final(cpu) == *old(cpu),
{
    eor(cpu, None)
}

/// `EOR zp`
pub fn eor_zp(cpu: &mut CPU) -> (r: InstructionTasks)
    ensures
        r == logical_instruction(*old(cpu), Some(AddressingMode::ZeroPage), LogicalVariant::Eor),
        *final(cpu) == *old(cpu),
{
    eor(cpu, Some(AddressingMode::ZeroPage))
}

/// `EOR zp,X`
pub fn eor_zpx(cpu: &mut CPU) -> (r: InstructionTasks)
    ensures
        r == logical_instruction(*old(cpu), Some(AddressingMode::ZeroPageX), LogicalVariant::Eor),
        *final(cpu) == *old(cpu),
{
    eor(cpu, Some(AddressingMode::ZeroPageX))
}

/// `EOR abs`
pub fn eor_a(cpu: &mut CPU) -> (r: InstructionTasks)
    ensures
        r == logical_instruction(*old(cpu), Some(AddressingMode::Absolute), LogicalVariant::Eor),
        *final(cpu) == *old(cpu),
{
    eor(cpu, Some(AddressingMode::Absolute))
}

/// `EOR abs,X`
pub fn eor_ax(cpu: &mut CPU) -> (r: InstructionTasks)
    ensures
        r == logical_instruction(*old(cpu), Some(AddressingMode::AbsoluteX), LogicalVariant::Eor),
        *final(cpu) == *old(cpu),
{
    eor(cpu, Some(AddressingMode::AbsoluteX))
}

/// `EOR abs,Y`
pub fn eor_ay(cpu: &mut CPU) -> (r: InstructionTasks)
    ensures
        r == logical_instruction(*old(cpu), Some(AddressingMode::AbsoluteY), LogicalVariant::Eor),
        *final(cpu) == *old(cpu),
{
    eor(cpu, Some(AddressingMode::AbsoluteY))
}

/// `EOR (zp,X)`
pub fn eor_inx(cpu: &mut CPU) -> (r: InstructionTasks)
    ensures
        r == logical_instruction(*old(cpu), Some(AddressingMode::IndexIndirectX), LogicalVariant::Eor),
        *final(cpu) == *old(cpu),
{
    eor(cpu, Some(AddressingMode::IndexIndirectX))
}

/// `EOR (zp),Y`
pub fn eor_iny(cpu: &mut CPU) -> (r: InstructionTasks)
    ensures
        r == logical_instruction(*old(cpu), Some(AddressingMode::IndirectIndexY), LogicalVariant::Eor),
        *final(cpu) == *old(cpu),
{
    eor(cpu, Some(AddressingMode::IndirectIndexY))
}

pub fn ora(cpu: &mut CPU, addr_mode: Option<AddressingMode>) -> (r: InstructionTasks)
    requires
        addr_mode matches Some(mode) ==> has_addressing_tasks(mode),
    ensures
        r == logical_instruction(*old(cpu), addr_mode, LogicalVariant::Ora),
        *final(cpu) == *old(cpu),
{
    let read_memory_tasks = cpu.read_memory(addr_mode);
    InstructionTasks::Logical(LogicalTasks::new_ora(read_memory_tasks))
}

/// `ORA #imm`
pub fn ora_im(cpu: &mut CPU) -> (r: InstructionTasks)
    ensures
        r == logical_instruction(*old(cpu), None, LogicalVariant::Ora),
        *final(cpu) == *old(cpu),
{
    ora(cpu, None)
}

/// `ORA zp`
pub fn ora_zp(cpu: &mut CPU) -> (r: InstructionTasks)
    ensures
        r == logical_instruction(*old(cpu), Some(AddressingMode::ZeroPage), LogicalVariant::Ora),
        *final(cpu) == *old(cpu),
{
    ora(cpu, Some(AddressingMode::ZeroPage))
}

/// `ORA zp,X`
pub fn ora_zpx(cpu: &mut CPU) -> (r: InstructionTasks)
    ensures
        r == logical_instruction(*old(cpu), Some(AddressingMode::ZeroPageX), LogicalVariant::Ora),
        *final(cpu) == *old(cpu),
{
    ora(cpu, Some(AddressingMode::ZeroPageX))
}

/// `ORA abs`
pub fn ora_a(cpu: &mut CPU) -> (r: InstructionTasks)
    ensures
        r == logical_instruction(*old(cpu), Some(AddressingMode::Absolute), LogicalVariant::Ora),
        *final(cpu) == *old(cpu),
{
    ora(cpu, Some(AddressingMode::Absolute))
}

/// `ORA abs,X`
pub fn ora_ax(cpu: &mut CPU) -> (r: InstructionTasks)
    ensures
        r == logical_instruction(*old(cpu), Some(AddressingMode::AbsoluteX), LogicalVariant::Ora),
        *final(cpu) == *old(cpu),
{
    ora(cpu, Some(AddressingMode::AbsoluteX))
}

/// `ORA abs,Y`
pub fn ora_ay(cpu: &mut CPU) -> (r: InstructionTasks)
    ensures
        r == logical_instruction(*old(cpu), Some(AddressingMode::AbsoluteY), LogicalVariant::Ora),
        *final(cpu) == *old(cpu),
{
    ora(cpu, Some(AddressingMode::AbsoluteY))
}

/// `ORA (zp,X)`
pub fn ora_inx(cpu: &mut CPU) -> (r: InstructionTasks)
    ensures
        r == logical_instruction(*old(cpu), Some(AddressingMode::IndexIndirectX), LogicalVariant::Ora),
        *final(cpu) == *old(cpu),
{
    ora(cpu, Some(AddressingMode::IndexIndirectX))
}

/// `ORA (zp),Y`
pub fn ora_iny(cpu: &mut CPU) -> (r: InstructionTasks)
    ensures
        r == logical_instruction(*old(cpu), Some(AddressingMode::IndirectIndexY), LogicalVariant::Ora),
        *final(cpu) == *old(cpu),
{
    ora(cpu, Some(AddressingMode::IndirectIndexY))
}

pub fn bit(cpu: &mut CPU, addr_mode: Option<AddressingMode>) -> (r: InstructionTasks)
    requires
        addr_mode matches Some(mode) ==> has_addressing_tasks(mode),
    ensures
        r == logical_instruction(*old(cpu), addr_mode, LogicalVariant::Bit),
        *final(cpu) == *old(cpu),
{
    let read_memory_tasks = cpu.read_memory(addr_mode);
    InstructionTasks::Logical(LogicalTasks::new_bit(read_memory_tasks))
}

/// `BIT zp`
pub fn bit_zp(cpu: &mut CPU) -> (r: InstructionTasks)
    ensures
        r == logical_instruction(*old(cpu), Some(AddressingMode::ZeroPage), LogicalVariant::Bit),
        *final(cpu) == *old(cpu),
{
    bit(cpu, Some(AddressingMode::ZeroPage))
}

/// `BIT abs`
pub fn bit_a(cpu: &mut CPU) -> (r: InstructionTasks)
    ensures
        r == logical_instruction(*old(cpu), Some(AddressingMode::Absolute), LogicalVariant::Bit),
        *final(cpu) == *old(cpu),
{
    bit(cpu, Some(AddressingMode::Absolute))
}

} // verus!
