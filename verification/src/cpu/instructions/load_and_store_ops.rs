use crate::cpu::addressing::absolute::AccessVariant;
use crate::cpu::addressing::{
    addressing_tasks_for, get_addressing_tasks, has_addressing_tasks, AddressingMode,
    AddressingTasks, AnyAddressingTasks,
};
use crate::cpu::instructions::{advance_read, lemma_read_cycle, read_cycle, read_ready, InstructionTasks};
use crate::cpu::tasks::read_memory::{AnyReadMemoryTasks, ReadMemoryTasks};
use crate::cpu::tasks::{lemma_run_done, lemma_run_step, run, stepped, Tasks};
use crate::cpu::processor_status::Flags;
use crate::cpu::{lemma_with_register_loads, loaded, read_memory_for, Registers, CPU};
use crate::consts::Word;
use crate::memory::{lemma_read_after_write, mem_after_write, mem_at, Generic64kMem, MemView, Memory, MEMORY_SIZE};
use crate::cpu::addressing::address::Address;
use vstd::prelude::*;

verus! {

/// Loads an operand into a register (`LDA`, `LDX`, `LDY`); the register's zero and
/// negative flags follow the value.
pub struct LoadTasks {
    pub done: bool,
    pub read_memory_tasks: AnyReadMemoryTasks,
    pub register: Registers,
}

impl LoadTasks {
    pub open spec fn fresh(read_memory_tasks: AnyReadMemoryTasks, register: Registers) -> Self {
        LoadTasks { done: false, read_memory_tasks, register }
    }

    pub fn new(read_memory_tasks: AnyReadMemoryTasks, register: Registers) -> (r: Self)
        ensures
            r == Self::fresh(read_memory_tasks, register),
    {
        LoadTasks { done: false, read_memory_tasks, register }
    }
}

impl Tasks for LoadTasks {
    open spec fn is_done(&self) -> bool {
        self.done
    }

    open spec fn can_tick(&self, addr: Address) -> bool {
        !self.done && read_ready(self.read_memory_tasks, addr)
    }

    closed spec fn next(&self, cpu: CPU, mem: MemView) -> (Self, CPU, MemView, bool) {
        self.step(cpu, mem)
    }

    open spec fn remaining(&self) -> nat {
        if self.done {
            0
        } else {
            self.read_memory_tasks.remaining() + 1
        }
    }

    fn done(&self) -> (r: bool) {
        self.done
    }

    fn tick(&mut self, cpu: &mut CPU, memory: &mut Generic64kMem) -> (r: bool) {
        match advance_read(&mut self.read_memory_tasks, cpu, memory) {
            None => false,
            Some(value) => {
                cpu.set_register(self.register, value);
                self.done = true;
                self.done
            },
        }
    }

    proof fn lemma_next(&self, cpu: CPU, mem: MemView) {
        lemma_read_cycle(self.read_memory_tasks, cpu, mem);
    }

    proof fn lemma_next_ignores_last_access(&self, cpu: CPU, m1: MemView, m2: MemView) {
        if !self.read_memory_tasks.is_done() {
            self.read_memory_tasks.lemma_next_ignores_last_access(cpu, m1, m2);
        }
    }
}

impl LoadTasks {
    /// One cycle of this work: the work, processor and memory after it, and whether
    /// the work is finished.
    pub open spec fn step(&self, cpu: CPU, mem: MemView) -> (Self, CPU, MemView, bool) {
        let n = read_cycle(self.read_memory_tasks, cpu, mem);
        if !n.3 {
            (LoadTasks { read_memory_tasks: n.0, ..*self }, n.1, n.2, false)
        } else {
            (
                LoadTasks { done: true, read_memory_tasks: n.0, ..*self },
                n.1.with_register(self.register, n.0.spec_value()->0),
                n.2,
                true,
            )
        }
    }

    /// `next` is `step`.
    pub proof fn lemma_next_is_step(&self, cpu: CPU, mem: MemView)
        ensures
            self.next(cpu, mem) == self.step(cpu, mem),
    {
    }
}

/// The instruction a load handler builds.
pub open spec fn load_instruction(
    cpu: CPU,
    addr_mode: Option<AddressingMode>,
    register: Registers,
) -> InstructionTasks {
    InstructionTasks::Load(LoadTasks::fresh(read_memory_for(cpu.chip_variant, addr_mode), register))
}

/// One cycle of a load: a cycle of its operand read and, if that cycle completes the read,
/// the load of the operand into the register.
proof fn lemma_load_cycle(read: AnyReadMemoryTasks, register: Registers, cpu: CPU, mem: MemView)
    requires
        !read.is_done(),
        read.can_tick(cpu.addr),
        mem.0.len() == MEMORY_SIZE,
        register == Registers::Accumulator || register == Registers::IndexX || register
            == Registers::IndexY,
    ensures
        ({
            let rs = stepped(read, cpu, mem);
            let ls = stepped(InstructionTasks::Load(LoadTasks::fresh(read, register)), cpu, mem);
            &&& ls.2 == rs.2
            &&& ls.0.is_done() == rs.0.is_done()
            &&& rs.0.is_done() ==> loaded(rs.1, ls.1, register, rs.0.spec_value()->0)
            &&& !rs.0.is_done() ==> ls.1 == rs.1 && ls.0 == InstructionTasks::Load(
                LoadTasks::fresh(rs.0, register),
            )
        }),
{
    let t = LoadTasks::fresh(read, register);
    t.lemma_next_is_step(cpu, mem);
    read.lemma_next(cpu, mem);
    let n = read.next(cpu, mem);
    if n.3 {
        let v = n.0.spec_value()->0;
        lemma_with_register_loads(n.1, register, v);
        let ls = stepped(InstructionTasks::Load(t), cpu, mem);
        let rs = stepped(read, cpu, mem);
        assert forall|f: Flags| #![trigger ls.1.flag(f)] true implies ls.1.flag(f)
            == n.1.with_register(register, v).flag(f) && rs.1.flag(f) == n.1.flag(f) by {}
        assert forall|o: Registers| #![trigger ls.1.reg(o)] true implies ls.1.reg(o)
            == n.1.with_register(register, v).reg(o) && rs.1.reg(o) == n.1.reg(o) by {}
    }
}

/// A load runs in step with its operand read, whatever the read.
proof fn lemma_load_follows_read(
    read: AnyReadMemoryTasks,
    register: Registers,
    cpu: CPU,
    mem: MemView,
    fuel: nat,
)
    requires
        !read.is_done(),
        read.can_tick(cpu.addr),
        mem.0.len() == MEMORY_SIZE,
        register == Registers::Accumulator || register == Registers::IndexX || register
            == Registers::IndexY,
    ensures
        ({
            let rr = run(read, cpu, mem, fuel);
            let ir = run(InstructionTasks::Load(LoadTasks::fresh(read, register)), cpu, mem, fuel);
            &&& ir.2 == rr.2
            &&& ir.0.is_done() == rr.0.is_done()
            &&& !rr.0.is_done() ==> ir.1 == rr.1
            &&& rr.0.is_done() ==> loaded(rr.1, ir.1, register, rr.0.spec_value()->0)
        }),
    decreases fuel,
{
    if fuel > 0 {
        let it = InstructionTasks::Load(LoadTasks::fresh(read, register));
        lemma_load_cycle(read, register, cpu, mem);
        read.lemma_next(cpu, mem);
        lemma_run_step(it, cpu, mem, fuel);
        lemma_run_step(read, cpu, mem, fuel);
        let rs = stepped(read, cpu, mem);
        let ls = stepped(it, cpu, mem);
        let rest = (fuel - 1) as nat;
        if rs.0.is_done() {
            lemma_run_done(rs.0, rs.1, rs.2, rest);
            lemma_run_done(ls.0, ls.1, ls.2, rest);
        } else {
            lemma_load_follows_read(rs.0, register, rs.1, rs.2, rest);
        }
    }
}

/// The instruction a load handler builds loads the operand of the addressing mode it is
/// given into the register it is given (`LDA`, `LDX`, `LDY`), for every mode: cycle for
/// cycle it reads its operand `v` as the read for that mode does, and in the cycle that
/// completes the read the register holds `v`, zero and negative describe `v`, and nothing
/// else changes (`loaded`). Until then the processor and memory are as that read leaves
/// them.
pub proof fn lemma_load_handler(
    handler_cpu: CPU,
    mode: Option<AddressingMode>,
    register: Registers,
    cpu: CPU,
    mem: MemView,
    fuel: nat,
)
    requires
        !read_memory_for(handler_cpu.chip_variant, mode).is_done(),
        read_memory_for(handler_cpu.chip_variant, mode).can_tick(cpu.addr),
        mem.0.len() == MEMORY_SIZE,
        register == Registers::Accumulator || register == Registers::IndexX || register
            == Registers::IndexY,
    ensures
        ({
            let rr = run(read_memory_for(handler_cpu.chip_variant, mode), cpu, mem, fuel);
            let ir = run(load_instruction(handler_cpu, mode, register), cpu, mem, fuel);
            &&& ir.2 == rr.2
            &&& ir.0.is_done() == rr.0.is_done()
            &&& !rr.0.is_done() ==> ir.1 == rr.1
            &&& rr.0.is_done() ==> loaded(rr.1, ir.1, register, rr.0.spec_value()->0)
        }),
{
    lemma_load_follows_read(read_memory_for(handler_cpu.chip_variant, mode), register, cpu, mem, fuel);
}

pub fn ld(cpu: &mut CPU, addr_mode: Option<AddressingMode>, register: Registers) -> (r:
    InstructionTasks)
    requires
        addr_mode matches Some(mode) ==> has_addressing_tasks(mode),
    ensures
        r == load_instruction(*old(cpu), addr_mode, register),
        *final(cpu) == *old(cpu),
{
    let read_memory_tasks = cpu.read_memory(addr_mode);
    InstructionTasks::Load(LoadTasks::new(read_memory_tasks, register))
}

/// `LDA #imm`
pub fn lda_im(cpu: &mut CPU) -> (r: InstructionTasks)
    ensures
        r == load_instruction(*old(cpu), None, Registers::Accumulator),
        *final(cpu) == *old(cpu),
{
    ld(cpu, None, Registers::Accumulator)
}

/// `LDA zp`
pub fn lda_zp(cpu: &mut CPU) -> (r: InstructionTasks)
    ensures
        r == load_instruction(*old(cpu), Some(AddressingMode::ZeroPage), Registers::Accumulator),
        *final(cpu) == *old(cpu),
{
    ld(cpu, Some(AddressingMode::ZeroPage), Registers::Accumulator)
}

/// `LDA zp,X`
pub fn lda_zpx(cpu: &mut CPU) -> (r: InstructionTasks)
    ensures
        r == load_instruction(*old(cpu), Some(AddressingMode::ZeroPageX), Registers::Accumulator),
        *final(cpu) == *old(cpu),
{
    ld(cpu, Some(AddressingMode::ZeroPageX), Registers::Accumulator)
}

/// `LDA abs`
pub fn lda_a(cpu: &mut CPU) -> (r: InstructionTasks)
    ensures
        r == load_instruction(*old(cpu), Some(AddressingMode::Absolute), Registers::Accumulator),
        *final(cpu) == *old(cpu),
{
    ld(cpu, Some(AddressingMode::Absolute), Registers::Accumulator)
}

/// `LDA abs,X`
pub fn lda_ax(cpu: &mut CPU) -> (r: InstructionTasks)
    ensures
        r == load_instruction(*old(cpu), Some(AddressingMode::AbsoluteX), Registers::Accumulator),
        *final(cpu) == *old(cpu),
{
    ld(cpu, Some(AddressingMode::AbsoluteX), Registers::Accumulator)
}

/// `LDA abs,Y`
pub fn lda_ay(cpu: &mut CPU) -> (r: InstructionTasks)
    ensures
        r == load_instruction(*old(cpu), Some(AddressingMode::AbsoluteY), Registers::Accumulator),
        *final(cpu) == *old(cpu),
{
    ld(cpu, Some(AddressingMode::AbsoluteY), Registers::Accumulator)
}

/// `LDA (zp,X)`
pub fn lda_inx(cpu: &mut CPU) -> (r: InstructionTasks)
    ensures
        r == load_instruction(
            *old(cpu),
            Some(AddressingMode::IndexIndirectX),
            Registers::Accumulator,
        ),
        *final(cpu) == *old(cpu),
{
    ld(cpu, Some(AddressingMode::IndexIndirectX), Registers::Accumulator)
}

/// `LDA (zp),Y`
pub fn lda_iny(cpu: &mut CPU) -> (r: InstructionTasks)
    ensures
        r == load_instruction(
            *old(cpu),
            Some(AddressingMode::IndirectIndexY),
            Registers::Accumulator,
        ),
        *final(cpu) == *old(cpu),
{
    ld(cpu, Some(AddressingMode::IndirectIndexY), Registers::Accumulator)
}

/// `LDY #imm`
pub fn ldy_im(cpu: &mut CPU) -> (r: InstructionTasks)
    ensures
        r == load_instruction(*old(cpu), None, Registers::IndexY),
        *final(cpu) == *old(cpu),
{
    ld(cpu, None, Registers::IndexY)
}

/// `LDY zp`
pub fn ldy_zp(cpu: &mut CPU) -> (r: InstructionTasks)
    ensures
        r == load_instruction(*old(cpu), Some(AddressingMode::ZeroPage), Registers::IndexY),
        *final(cpu) == *old(cpu),
{
    ld(cpu, Some(AddressingMode::ZeroPage), Registers::IndexY)
}

/// `LDY zp,X`
pub fn ldy_zpx(cpu: &mut CPU) -> (r: InstructionTasks)
    ensures
        r == load_instruction(*old(cpu), Some(AddressingMode::ZeroPageX), Registers::IndexY),
        *final(cpu) == *old(cpu),
{
    ld(cpu, Some(AddressingMode::ZeroPageX), Registers::IndexY)
}

/// `LDY abs`
pub fn ldy_a(cpu: &mut CPU) -> (r: InstructionTasks)
    ensures
        r == load_instruction(*old(cpu), Some(AddressingMode::Absolute), Registers::IndexY),
        *final(cpu) == *old(cpu),
{
    ld(cpu, Some(AddressingMode::Absolute), Registers::IndexY)
}

/// `LDY abs,X`
pub fn ldy_ax(cpu: &mut CPU) -> (r: InstructionTasks)
    ensures
        r == load_instruction(*old(cpu), Some(AddressingMode::AbsoluteX), Registers::IndexY),
        *final(cpu) == *old(cpu),
{
    ld(cpu, Some(AddressingMode::AbsoluteX), Registers::IndexY)
}

/// `LDX #imm`
pub fn ldx_im(cpu: &mut CPU) -> (r: InstructionTasks)
    ensures
        r == load_instruction(*old(cpu), None, Registers::IndexX),
        *final(cpu) == *old(cpu),
{
    ld(cpu, None, Registers::IndexX)
}

/// `LDX zp`
pub fn ldx_zp(cpu: &mut CPU) -> (r: InstructionTasks)
    ensures
        r == load_instruction(*old(cpu), Some(AddressingMode::ZeroPage), Registers::IndexX),
        *final(cpu) == *old(cpu),
{
    ld(cpu, Some(AddressingMode::ZeroPage), Registers::IndexX)
}

/// `LDX zp,Y`
pub fn ldx_zpy(cpu: &mut CPU) -> (r: InstructionTasks)
    ensures
        r == load_instruction(*old(cpu), Some(AddressingMode::ZeroPageY), Registers::IndexX),
        *final(cpu) == *old(cpu),
{
    ld(cpu, Some(AddressingMode::ZeroPageY), Registers::IndexX)
}

/// `LDX abs`
pub fn ldx_a(cpu: &mut CPU) -> (r: InstructionTasks)
    ensures
        r == load_instruction(*old(cpu), Some(AddressingMode::Absolute), Registers::IndexX),
        *final(cpu) == *old(cpu),
{
    ld(cpu, Some(AddressingMode::Absolute), Registers::IndexX)
}

/// `LDX abs,Y`
pub fn ldx_ay(cpu: &mut CPU) -> (r: InstructionTasks)
    ensures
        r == load_instruction(*old(cpu), Some(AddressingMode::AbsoluteY), Registers::IndexX),
        *final(cpu) == *old(cpu),
{
    ld(cpu, Some(AddressingMode::AbsoluteY), Registers::IndexX)
}

/// Stores a register at an addressed location (`STA`, `STX`, `STY`) in the cycle
/// after addressing finishes.
pub struct StoreTasks {
    pub done: bool,
    pub addressing_tasks: AnyAddressingTasks,
    pub src_register: Registers,
}

impl StoreTasks {
    pub open spec fn fresh(addressing_tasks: AnyAddressingTasks, src_register: Registers) -> Self {
        StoreTasks { done: false, addressing_tasks, src_register }
    }

    pub fn new(addressing_tasks: AnyAddressingTasks, src_register: Registers) -> (r: Self)
        ensures
            r == Self::fresh(addressing_tasks, src_register),
    {
        StoreTasks { done: false, addressing_tasks, src_register }
    }
}

impl Tasks for StoreTasks {
    open spec fn is_done(&self) -> bool {
        self.done
    }

    open spec fn can_tick(&self, addr: Address) -> bool {
        !self.done && if self.addressing_tasks.is_done() {
            addr.val is Some
        } else {
            self.addressing_tasks.can_tick(addr)
        }
    }

    closed spec fn next(&self, cpu: CPU, mem: MemView) -> (Self, CPU, MemView, bool) {
        self.step(cpu, mem)
    }

    open spec fn remaining(&self) -> nat {
        if self.done {
            0
        } else {
            self.addressing_tasks.remaining() + 1
        }
    }

    fn done(&self) -> (r: bool) {
        self.done
    }

    fn tick(&mut self, cpu: &mut CPU, memory: &mut Generic64kMem) -> (r: bool) {
        if !self.addressing_tasks.done() {
            self.addressing_tasks.tick(cpu, memory);
            return false;
        }
        let value = cpu.get_register(self.src_register);
        memory.write(cpu.addr.value().unwrap(), value);
        self.done = true;
        self.done
    }

    proof fn lemma_next(&self, cpu: CPU, mem: MemView) {
        if !self.addressing_tasks.is_done() {
            self.addressing_tasks.lemma_next(cpu, mem);
            self.addressing_tasks.lemma_finishes_with_address(cpu, mem);
        }
    }

    proof fn lemma_next_ignores_last_access(&self, cpu: CPU, m1: MemView, m2: MemView) {
        if !self.addressing_tasks.is_done() {
            self.addressing_tasks.lemma_next_ignores_last_access(cpu, m1, m2);
        }
    }
}

impl StoreTasks {
    /// One cycle of this work: the work, processor and memory after it, and whether
    /// the work is finished.
    pub open spec fn step(&self, cpu: CPU, mem: MemView) -> (Self, CPU, MemView, bool) {
        if !self.addressing_tasks.is_done() {
            let n = self.addressing_tasks.next(cpu, mem);
            (StoreTasks { addressing_tasks: n.0, ..*self }, n.1, n.2, false)
        } else {
            (
                StoreTasks { done: true, ..*self },
                cpu,
                mem_after_write(mem, cpu.addr.val->0, cpu.reg(self.src_register)),
                true,
            )
        }
    }

    /// `next` is `step`.
    pub proof fn lemma_next_is_step(&self, cpu: CPU, mem: MemView)
        ensures
            self.next(cpu, mem) == self.step(cpu, mem),
    {
    }
}

/// Once its address is known, a store takes one more cycle: it writes the source
/// register to that address, every other byte keeps its value, and the processor is
/// unchanged but for its cycle counter.
pub proof fn lemma_store_at_address(t: StoreTasks, cpu: CPU, mem: MemView)
    requires
        !t.done,
        t.addressing_tasks.is_done(),
        cpu.addr.val is Some,
        mem.0.len() == MEMORY_SIZE,
        cpu.cycle + 1 < usize::MAX,
    ensures
        ({
            let a = cpu.addr.val->0;
            let v = cpu.reg(t.src_register);
            let r = run(t, cpu, mem, 1);
            &&& r.0.done
            &&& r.1 == CPU { cycle: (cpu.cycle + 1) as usize, ..cpu }
            &&& r.2 == mem_after_write(mem, a, v)
            &&& mem_at(r.2, a) == v
            &&& forall|b: Word| b != a ==> mem_at(r.2, b) == mem_at(mem, b)
        }),
{
    let a = cpu.addr.val->0;
    let v = cpu.reg(t.src_register);
    t.lemma_next_is_step(cpu, mem);
    lemma_run_step(t, cpu, mem, 1);
    assert forall|b: Word| b != a implies mem_at(mem_after_write(mem, a, v), b) == mem_at(mem, b) by {
        lemma_read_after_write(mem, a, b, v);
    }
    lemma_read_after_write(mem, a, a, v);
}

/// A whole store: if the addressing tasks `a` take exactly `k` cycles from `(cpu, mem)` and
/// end at address `x`, the store finishes one cycle later having written the source
/// register (as it stood after the addressing) to `x`; no other byte changes since the
/// addressing, the processor is as the addressing left it but for the cycle counter (no
/// register and no flag changes), and the store is not done before.
#[verifier::rlimit(40)]
pub proof fn lemma_store(a: AnyAddressingTasks, src: Registers, cpu: CPU, mem: MemView, k: nat)
    requires
        !a.is_done(),
        a.can_tick(cpu.addr),
        mem.0.len() == MEMORY_SIZE,
        cpu.cycle + k + 1 < usize::MAX,
        0 < k,
        run(a, cpu, mem, k).0.is_done(),
        !run(a, cpu, mem, (k - 1) as nat).0.is_done(),
    ensures
        ({
            let ar = run(a, cpu, mem, k);
            let x = ar.1.addr.val->0;
            let t = StoreTasks::fresh(a, src);
            let r = run(t, cpu, mem, k + 1);
            &&& ar.1.addr.val is Some
            &&& r.0.done
            &&& r.1 == CPU { cycle: (ar.1.cycle + 1) as usize, ..ar.1 }
            &&& r.2 == mem_after_write(ar.2, x, ar.1.reg(src))
            &&& forall|j: nat| j < k + 1 ==> !(#[trigger] run(t, cpu, mem, j)).0.done
        }),
    decreases k,
{
    a.lemma_next(cpu, mem);
    a.lemma_finishes_with_address(cpu, mem);
    let t = StoreTasks::fresh(a, src);
    let n = a.next(cpu, mem);
    let c1 = CPU { cycle: (n.1.cycle + 1) as usize, ..n.1 };
    lemma_run_step(a, cpu, mem, k);
    t.lemma_next_is_step(cpu, mem);
    lemma_run_step(t, cpu, mem, k + 1);
    let s1 = stepped(t, cpu, mem);
    if n.3 {
        lemma_run_done(n.0, c1, n.2, (k - 1) as nat);
        if k > 1 {
            lemma_run_step(a, cpu, mem, (k - 1) as nat);
            lemma_run_done(n.0, c1, n.2, (k - 2) as nat);
        }
        assert(k == 1);
        lemma_store_at_address(s1.0, s1.1, s1.2);
        assert forall|j: nat| j < k + 1 implies !(#[trigger] run(t, cpu, mem, j)).0.done by {
            if j > 0 {
                lemma_run_step(t, cpu, mem, j);
                assert(run(s1.0, s1.1, s1.2, 0) == s1);
            }
        }
    } else {
        if k == 1 {
            lemma_run_done(n.0, c1, n.2, 0);
        }
        lemma_run_step(a, cpu, mem, (k - 1) as nat);
        assert(s1.0 == StoreTasks::fresh(n.0, src));
        lemma_store(n.0, src, c1, n.2, (k - 1) as nat);
        assert forall|j: nat| j < k + 1 implies !(#[trigger] run(t, cpu, mem, j)).0.done by {
            if j > 0 {
                lemma_run_step(t, cpu, mem, j);
                assert(run(t, cpu, mem, j) == run(s1.0, s1.1, s1.2, (j - 1) as nat));
            }
        }
    }
}

/// The instruction a store handler builds.
pub open spec fn store_instruction(
    cpu: CPU,
    addr_mode: AddressingMode,
    register: Registers,
) -> InstructionTasks {
    InstructionTasks::Store(
        StoreTasks::fresh(
            addressing_tasks_for(cpu.chip_variant, addr_mode, AccessVariant::Write),
            register,
        ),
    )
}

pub fn store(cpu: &mut CPU, addr_mode: AddressingMode, register: Registers) -> (r:
    InstructionTasks)
    requires
        has_addressing_tasks(addr_mode),
    ensures
        r == store_instruction(*old(cpu), addr_mode, register),
        *final(cpu) == *old(cpu),
{
    let addr_tasks = get_addressing_tasks(cpu, addr_mode, AccessVariant::Write);
    InstructionTasks::Store(StoreTasks::new(addr_tasks, register))
}

/// `STA zp`
pub fn sta_zp(cpu: &mut CPU) -> (r: InstructionTasks)
    ensures
        r == store_instruction(*old(cpu), AddressingMode::ZeroPage, Registers::Accumulator),
        *final(cpu) == *old(cpu),
{
    store(cpu, AddressingMode::ZeroPage, Registers::Accumulator)
}

/// `STA zp,X`
pub fn sta_zpx(cpu: &mut CPU) -> (r: InstructionTasks)
    ensures
        r == store_instruction(*old(cpu), AddressingMode::ZeroPageX, Registers::Accumulator),
        *final(cpu) == *old(cpu),
{
    store(cpu, AddressingMode::ZeroPageX, Registers::Accumulator)
}

/// `STA abs`
pub fn sta_a(cpu: &mut CPU) -> (r: InstructionTasks)
    ensures
        r == store_instruction(*old(cpu), AddressingMode::Absolute, Registers::Accumulator),
        *final(cpu) == *old(cpu),
{
    store(cpu, AddressingMode::Absolute, Registers::Accumulator)
}

/// `STA abs,X`
pub fn sta_ax(cpu: &mut CPU) -> (r: InstructionTasks)
    ensures
        r == store_instruction(*old(cpu), AddressingMode::AbsoluteX, Registers::Accumulator),
        *final(cpu) == *old(cpu),
{
    store(cpu, AddressingMode::AbsoluteX, Registers::Accumulator)
}

/// `STA abs,Y`
pub fn sta_ay(cpu: &mut CPU) -> (r: InstructionTasks)
    ensures
        r == store_instruction(*old(cpu), AddressingMode::AbsoluteY, Registers::Accumulator),
        *final(cpu) == *old(cpu),
{
    store(cpu, AddressingMode::AbsoluteY, Registers::Accumulator)
}

/// `STA (zp,X)`
pub fn sta_inx(cpu: &mut CPU) -> (r: InstructionTasks)
    ensures
        r == store_instruction(*old(cpu), AddressingMode::IndexIndirectX, Registers::Accumulator),
        *final(cpu) == *old(cpu),
{
    store(cpu, AddressingMode::IndexIndirectX, Registers::Accumulator)
}

/// `STA (zp),Y`
pub fn sta_iny(cpu: &mut CPU) -> (r: InstructionTasks)
    ensures
        r == store_instruction(*old(cpu), AddressingMode::IndirectIndexY, Registers::Accumulator),
        *final(cpu) == *old(cpu),
{
    store(cpu, AddressingMode::IndirectIndexY, Registers::Accumulator)
}

/// `STX zp`
pub fn stx_zp(cpu: &mut CPU) -> (r: InstructionTasks)
    ensures
        r == store_instruction(*old(cpu), AddressingMode::ZeroPage, Registers::IndexX),
        *final(cpu) == *old(cpu),
{
    store(cpu, AddressingMode::ZeroPage, Registers::IndexX)
}

/// `STX zp,Y`
pub fn stx_zpy(cpu: &mut CPU) -> (r: InstructionTasks)
    ensures
        r == store_instruction(*old(cpu), AddressingMode::ZeroPageY, Registers::IndexX),
        *final(cpu) == *old(cpu),
{
    store(cpu, AddressingMode::ZeroPageY, Registers::IndexX)
}

/// `STX abs`
pub fn stx_a(cpu: &mut CPU) -> (r: InstructionTasks)
    ensures
        r == store_instruction(*old(cpu), AddressingMode::Absolute, Registers::IndexX),
        *final(cpu) == *old(cpu),
{
    store(cpu, AddressingMode::Absolute, Registers::IndexX)
}

/// `STY zp`
pub fn sty_zp(cpu: &mut CPU) -> (r: InstructionTasks)
    ensures
        r == store_instruction(*old(cpu), AddressingMode::ZeroPage, Registers::IndexY),
        *final(cpu) == *old(cpu),
{
    store(cpu, AddressingMode::ZeroPage, Registers::IndexY)
}

/// `STY zp,X`
pub fn sty_zpx(cpu: &mut CPU) -> (r: InstructionTasks)
    ensures
        r == store_instruction(*old(cpu), AddressingMode::ZeroPageX, Registers::IndexY),
        *final(cpu) == *old(cpu),
{
    store(cpu, AddressingMode::ZeroPageX, Registers::IndexY)
}

/// `STY abs`
pub fn sty_a(cpu: &mut CPU) -> (r: InstructionTasks)
    ensures
        r == store_instruction(*old(cpu), AddressingMode::Absolute, Registers::IndexY),
        *final(cpu) == *old(cpu),
{
    store(cpu, AddressingMode::Absolute, Registers::IndexY)
}

} // verus!
