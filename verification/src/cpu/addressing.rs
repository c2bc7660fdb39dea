use crate::cpu::addressing::absolute::{
    AbsoluteAddressingTasks, AbsoluteOffsetAddressingTasks, AccessVariant,
};
use crate::cpu::addressing::immediate::ImmediateAddressingTasks;
use crate::cpu::addressing::indirect::{
    IndexIndirectXAddressingTasks, IndirectAddressingTasks, IndirectIndexYAddressingTasks,
};
use crate::cpu::addressing::zero_page::{ZeroPageAddressingTasks, ZeroPageOffsetAddressingTasks};
use crate::cpu::tasks::{lemma_run_step, run, stepped, Tasks};
use crate::cpu::{ChipVariant, CPU};
use crate::memory::{Generic64kMem, MemView};
use crate::cpu::addressing::address::Address;
use vstd::prelude::*;

pub mod absolute;
pub mod address;
pub mod immediate;
pub mod indirect;
pub mod zero_page;

verus! {

/// How an instruction finds its operand.
#[derive(Debug, Copy, Clone, PartialEq, Eq, Structural)]
pub enum AddressingMode {
    Absolute,
    AbsoluteX,
    AbsoluteY,
    Accumulator,
    Immediate,
    Implicit,
    IndexIndirectX,
    Indirect,
    IndirectIndexY,
    Relative,
    ZeroPage,
    ZeroPageX,
    ZeroPageY,
}

impl AddressingMode {
    /// The mode's name, spelled like the variant.
    pub fn name(&self) -> (r: &'static str)
        ensures
            r@ == match *self {
            AddressingMode::Absolute => "Absolute"@,
            AddressingMode::AbsoluteX => "AbsoluteX"@,
            AddressingMode::AbsoluteY => "AbsoluteY"@,
            AddressingMode::Accumulator => "Accumulator"@,
            AddressingMode::Immediate => "Immediate"@,
            AddressingMode::Implicit => "Implicit"@,
            AddressingMode::IndexIndirectX => "IndexIndirectX"@,
            AddressingMode::Indirect => "Indirect"@,
            AddressingMode::IndirectIndexY => "IndirectIndexY"@,
            AddressingMode::Relative => "Relative"@,
            AddressingMode::ZeroPage => "ZeroPage"@,
            AddressingMode::ZeroPageX => "ZeroPageX"@,
            AddressingMode::ZeroPageY => "ZeroPageY"@,
            },
    {
        match self {
            AddressingMode::Absolute => "Absolute",
            AddressingMode::AbsoluteX => "AbsoluteX",
            AddressingMode::AbsoluteY => "AbsoluteY",
            AddressingMode::Accumulator => "Accumulator",
            AddressingMode::Immediate => "Immediate",
            AddressingMode::Implicit => "Implicit",
            AddressingMode::IndexIndirectX => "IndexIndirectX",
            AddressingMode::Indirect => "Indirect",
            AddressingMode::IndirectIndexY => "IndirectIndexY",
            AddressingMode::Relative => "Relative",
            AddressingMode::ZeroPage => "ZeroPage",
            AddressingMode::ZeroPageX => "ZeroPageX",
            AddressingMode::ZeroPageY => "ZeroPageY",
        }
    }
}

/// Which index register offsets an indexed address.
#[derive(Debug, Copy, Clone, PartialEq, Eq, Structural)]
pub enum OffsetVariant {
    X,
    Y,
}

/// Value of the index register an offset variant names.
pub open spec fn offset_value(cpu: CPU, variant: OffsetVariant) -> u8 {
    match variant {
        OffsetVariant::X => cpu.index_register_x,
        OffsetVariant::Y => cpu.index_register_y,
    }
}

/// Work that computes an effective address into `cpu.addr`.
pub trait AddressingTasks: Tasks {
    /// Whether the cycle that finishes addressing also reads the operand.
    spec fn spec_fetch_during_addressing(&self) -> bool;

    fn fetch_during_addressing(&self) -> (r: bool)
        ensures
            r == self.spec_fetch_during_addressing(),
    ;

    /// When addressing finishes, the effective address is known.
    proof fn lemma_finishes_with_address(&self, cpu: CPU, mem: MemView)
        requires
            self.can_tick(cpu.addr),
            !self.is_done(),
        ensures
            self.next(cpu, mem).3 ==> self.next(cpu, mem).1.addr.val is Some,
            self.next(cpu, mem).0.spec_fetch_during_addressing()
                == self.spec_fetch_during_addressing(),
    ;
}

/// Any of the addressing procedures.
pub enum AnyAddressingTasks {
    ZeroPage(ZeroPageAddressingTasks),
    ZeroPageOffset(ZeroPageOffsetAddressingTasks),
    Absolute(AbsoluteAddressingTasks),
    AbsoluteOffset(AbsoluteOffsetAddressingTasks),
    IndirectIndexY(IndirectIndexYAddressingTasks),
    IndexIndirectX(IndexIndirectXAddressingTasks),
    Indirect(IndirectAddressingTasks),
    Immediate(ImmediateAddressingTasks),
}

impl Tasks for AnyAddressingTasks {
    open spec fn is_done(&self) -> bool {
        match self {
            AnyAddressingTasks::ZeroPage(t) => t.is_done(),
            AnyAddressingTasks::ZeroPageOffset(t) => t.is_done(),
            AnyAddressingTasks::Absolute(t) => t.is_done(),
            AnyAddressingTasks::AbsoluteOffset(t) => t.is_done(),
            AnyAddressingTasks::IndirectIndexY(t) => t.is_done(),
            AnyAddressingTasks::IndexIndirectX(t) => t.is_done(),
            AnyAddressingTasks::Indirect(t) => t.is_done(),
            AnyAddressingTasks::Immediate(t) => t.is_done(),
        }
    }

    open spec fn can_tick(&self, addr: Address) -> bool {
        match self {
            AnyAddressingTasks::ZeroPage(t) => t.can_tick(addr),
            AnyAddressingTasks::ZeroPageOffset(t) => t.can_tick(addr),
            AnyAddressingTasks::Absolute(t) => t.can_tick(addr),
            AnyAddressingTasks::AbsoluteOffset(t) => t.can_tick(addr),
            AnyAddressingTasks::IndirectIndexY(t) => t.can_tick(addr),
            AnyAddressingTasks::IndexIndirectX(t) => t.can_tick(addr),
            AnyAddressingTasks::Indirect(t) => t.can_tick(addr),
            AnyAddressingTasks::Immediate(t) => t.can_tick(addr),
        }
    }

    open spec fn next(&self, cpu: CPU, mem: MemView) -> (Self, CPU, MemView, bool) {
        match self {
            AnyAddressingTasks::ZeroPage(t) => {
                let n = t.next(cpu, mem);
                (AnyAddressingTasks::ZeroPage(n.0), n.1, n.2, n.3)
            },
            AnyAddressingTasks::ZeroPageOffset(t) => {
                let n = t.next(cpu, mem);
                (AnyAddressingTasks::ZeroPageOffset(n.0), n.1, n.2, n.3)
            },
            AnyAddressingTasks::Absolute(t) => {
                let n = t.next(cpu, mem);
                (AnyAddressingTasks::Absolute(n.0), n.1, n.2, n.3)
            },
            AnyAddressingTasks::AbsoluteOffset(t) => {
                let n = t.next(cpu, mem);
                (AnyAddressingTasks::AbsoluteOffset(n.0), n.1, n.2, n.3)
            },
            AnyAddressingTasks::IndirectIndexY(t) => {
                let n = t.next(cpu, mem);
                (AnyAddressingTasks::IndirectIndexY(n.0), n.1, n.2, n.3)
            },
            AnyAddressingTasks::IndexIndirectX(t) => {
                let n = t.next(cpu, mem);
                (AnyAddressingTasks::IndexIndirectX(n.0), n.1, n.2, n.3)
            },
            AnyAddressingTasks::Indirect(t) => {
                let n = t.next(cpu, mem);
                (AnyAddressingTasks::Indirect(n.0), n.1, n.2, n.3)
            },
            AnyAddressingTasks::Immediate(t) => {
                let n = t.next(cpu, mem);
                (AnyAddressingTasks::Immediate(n.0), n.1, n.2, n.3)
            },
        }
    }

    open spec fn remaining(&self) -> nat {
        match self {
            AnyAddressingTasks::ZeroPage(t) => t.remaining(),
            AnyAddressingTasks::ZeroPageOffset(t) => t.remaining(),
            AnyAddressingTasks::Absolute(t) => t.remaining(),
            AnyAddressingTasks::AbsoluteOffset(t) => t.remaining(),
            AnyAddressingTasks::IndirectIndexY(t) => t.remaining(),
            AnyAddressingTasks::IndexIndirectX(t) => t.remaining(),
            AnyAddressingTasks::Indirect(t) => t.remaining(),
            AnyAddressingTasks::Immediate(t) => t.remaining(),
        }
    }

    fn done(&self) -> (r: bool) {
        match self {
            AnyAddressingTasks::ZeroPage(t) => t.done(),
            AnyAddressingTasks::ZeroPageOffset(t) => t.done(),
            AnyAddressingTasks::Absolute(t) => t.done(),
            AnyAddressingTasks::AbsoluteOffset(t) => t.done(),
            AnyAddressingTasks::IndirectIndexY(t) => t.done(),
            AnyAddressingTasks::IndexIndirectX(t) => t.done(),
            AnyAddressingTasks::Indirect(t) => t.done(),
            AnyAddressingTasks::Immediate(t) => t.done(),
        }
    }

    fn tick(&mut self, cpu: &mut CPU, memory: &mut Generic64kMem) -> (r: bool) {
        match self {
            AnyAddressingTasks::ZeroPage(t) => t.tick(cpu, memory),
            AnyAddressingTasks::ZeroPageOffset(t) => t.tick(cpu, memory),
            AnyAddressingTasks::Absolute(t) => t.tick(cpu, memory),
            AnyAddressingTasks::AbsoluteOffset(t) => t.tick(cpu, memory),
            AnyAddressingTasks::IndirectIndexY(t) => t.tick(cpu, memory),
            AnyAddressingTasks::IndexIndirectX(t) => t.tick(cpu, memory),
            AnyAddressingTasks::Indirect(t) => t.tick(cpu, memory),
            AnyAddressingTasks::Immediate(t) => t.tick(cpu, memory),
        }
    }

    proof fn lemma_next(&self, cpu: CPU, mem: MemView) {
        match self {
            AnyAddressingTasks::ZeroPage(t) => t.lemma_next(cpu, mem),
            AnyAddressingTasks::ZeroPageOffset(t) => t.lemma_next(cpu, mem),
            AnyAddressingTasks::Absolute(t) => t.lemma_next(cpu, mem),
            AnyAddressingTasks::AbsoluteOffset(t) => t.lemma_next(cpu, mem),
            AnyAddressingTasks::IndirectIndexY(t) => t.lemma_next(cpu, mem),
            AnyAddressingTasks::IndexIndirectX(t) => t.lemma_next(cpu, mem),
            AnyAddressingTasks::Indirect(t) => t.lemma_next(cpu, mem),
            AnyAddressingTasks::Immediate(t) => t.lemma_next(cpu, mem),
        }
    }

    proof fn lemma_next_ignores_last_access(&self, cpu: CPU, m1: MemView, m2: MemView) {
        match self {
            AnyAddressingTasks::ZeroPage(t) => t.lemma_next_ignores_last_access(cpu, m1, m2),
            AnyAddressingTasks::ZeroPageOffset(t) => t.lemma_next_ignores_last_access(cpu, m1, m2),
            AnyAddressingTasks::Absolute(t) => t.lemma_next_ignores_last_access(cpu, m1, m2),
            AnyAddressingTasks::AbsoluteOffset(t) => t.lemma_next_ignores_last_access(cpu, m1, m2),
            AnyAddressingTasks::IndirectIndexY(t) => t.lemma_next_ignores_last_access(cpu, m1, m2),
            AnyAddressingTasks::IndexIndirectX(t) => t.lemma_next_ignores_last_access(cpu, m1, m2),
            AnyAddressingTasks::Indirect(t) => t.lemma_next_ignores_last_access(cpu, m1, m2),
            AnyAddressingTasks::Immediate(t) => t.lemma_next_ignores_last_access(cpu, m1, m2),
        }
    }
}

impl AddressingTasks for AnyAddressingTasks {
    open spec fn spec_fetch_during_addressing(&self) -> bool {
        match self {
            AnyAddressingTasks::ZeroPage(t) => t.spec_fetch_during_addressing(),
            AnyAddressingTasks::ZeroPageOffset(t) => t.spec_fetch_during_addressing(),
            AnyAddressingTasks::Absolute(t) => t.spec_fetch_during_addressing(),
            AnyAddressingTasks::AbsoluteOffset(t) => t.spec_fetch_during_addressing(),
            AnyAddressingTasks::IndirectIndexY(t) => t.spec_fetch_during_addressing(),
            AnyAddressingTasks::IndexIndirectX(t) => t.spec_fetch_during_addressing(),
            AnyAddressingTasks::Indirect(t) => t.spec_fetch_during_addressing(),
            AnyAddressingTasks::Immediate(t) => t.spec_fetch_during_addressing(),
        }
    }

    fn fetch_during_addressing(&self) -> (r: bool) {
        match self {
            AnyAddressingTasks::ZeroPage(t) => t.fetch_during_addressing(),
            AnyAddressingTasks::ZeroPageOffset(t) => t.fetch_during_addressing(),
            AnyAddressingTasks::Absolute(t) => t.fetch_during_addressing(),
            AnyAddressingTasks::AbsoluteOffset(t) => t.fetch_during_addressing(),
            AnyAddressingTasks::IndirectIndexY(t) => t.fetch_during_addressing(),
            AnyAddressingTasks::IndexIndirectX(t) => t.fetch_during_addressing(),
            AnyAddressingTasks::Indirect(t) => t.fetch_during_addressing(),
            AnyAddressingTasks::Immediate(t) => t.fetch_during_addressing(),
        }
    }

    proof fn lemma_finishes_with_address(&self, cpu: CPU, mem: MemView) {
        match self {
            AnyAddressingTasks::ZeroPage(t) => {
                t.lemma_finishes_with_address(cpu, mem);
                assert(self.next(cpu, mem).0 == AnyAddressingTasks::ZeroPage(t.next(cpu, mem).0));
                assert(t.next(cpu, mem).0.spec_fetch_during_addressing() == false);
                assert(self.spec_fetch_during_addressing() == false);
                assert(self.next(cpu, mem).0.spec_fetch_during_addressing() == false);
            },
            AnyAddressingTasks::ZeroPageOffset(t) => t.lemma_finishes_with_address(cpu, mem),
            AnyAddressingTasks::Absolute(t) => t.lemma_finishes_with_address(cpu, mem),
            AnyAddressingTasks::AbsoluteOffset(t) => t.lemma_finishes_with_address(cpu, mem),
            AnyAddressingTasks::IndirectIndexY(t) => t.lemma_finishes_with_address(cpu, mem),
            AnyAddressingTasks::IndexIndirectX(t) => t.lemma_finishes_with_address(cpu, mem),
            AnyAddressingTasks::Indirect(t) => t.lemma_finishes_with_address(cpu, mem),
            AnyAddressingTasks::Immediate(t) => t.lemma_finishes_with_address(cpu, mem),
        }
    }
}

/// Whether a mode computes its operand address through addressing tasks.
pub open spec fn has_addressing_tasks(mode: AddressingMode) -> bool {
    !(mode is Accumulator || mode is Implicit || mode is Relative)
}

/// The addressing procedure for a mode, as `get_addressing_tasks` builds it.
pub open spec fn addressing_tasks_for(
    chip_variant: ChipVariant,
    mode: AddressingMode,
    access_variant: AccessVariant,
) -> AnyAddressingTasks {
    match mode {
        AddressingMode::ZeroPage => AnyAddressingTasks::ZeroPage(ZeroPageAddressingTasks::fresh()),
        AddressingMode::ZeroPageX => AnyAddressingTasks::ZeroPageOffset(
            ZeroPageOffsetAddressingTasks::fresh(OffsetVariant::X),
        ),
        AddressingMode::ZeroPageY => AnyAddressingTasks::ZeroPageOffset(
            ZeroPageOffsetAddressingTasks::fresh(OffsetVariant::Y),
        ),
        AddressingMode::Absolute => AnyAddressingTasks::Absolute(AbsoluteAddressingTasks::fresh()),
        AddressingMode::AbsoluteX => AnyAddressingTasks::AbsoluteOffset(
            AbsoluteOffsetAddressingTasks::fresh(OffsetVariant::X, access_variant),
        ),
        AddressingMode::AbsoluteY => AnyAddressingTasks::AbsoluteOffset(
            AbsoluteOffsetAddressingTasks::fresh(OffsetVariant::Y, access_variant),
        ),
        AddressingMode::IndirectIndexY => AnyAddressingTasks::IndirectIndexY(
            IndirectIndexYAddressingTasks::fresh(access_variant),
        ),
        AddressingMode::IndexIndirectX => AnyAddressingTasks::IndexIndirectX(
            IndexIndirectXAddressingTasks::fresh(),
        ),
        AddressingMode::Indirect => AnyAddressingTasks::Indirect(
            IndirectAddressingTasks::fresh(chip_variant != ChipVariant::NMOS),
        ),
        _ => AnyAddressingTasks::Immediate(ImmediateAddressingTasks::fresh()),
    }
}

/// Builds the addressing procedure for `mode`. The NMOS part keeps its page-wrapping
/// bug for indirect jumps; the CMOS parts fetch the pointer correctly.
pub fn get_addressing_tasks(
    cpu: &CPU,
    mode: AddressingMode,
    access_variant: AccessVariant,
) -> (r: AnyAddressingTasks)
    requires
        has_addressing_tasks(mode),
    ensures
        r == addressing_tasks_for(cpu.chip_variant, mode, access_variant),
        forall|a: Address| r.can_tick(a),
        !r.is_done(),
{
    match mode {
        AddressingMode::ZeroPage => AnyAddressingTasks::ZeroPage(ZeroPageAddressingTasks::new()),
        AddressingMode::ZeroPageX => AnyAddressingTasks::ZeroPageOffset(
            ZeroPageOffsetAddressingTasks::new_offset_by_x(),
        ),
        AddressingMode::ZeroPageY => AnyAddressingTasks::ZeroPageOffset(
            ZeroPageOffsetAddressingTasks::new_offset_by_y(),
        ),
        AddressingMode::Absolute => AnyAddressingTasks::Absolute(AbsoluteAddressingTasks::new()),
        AddressingMode::AbsoluteX => AnyAddressingTasks::AbsoluteOffset(
            AbsoluteOffsetAddressingTasks::new(OffsetVariant::X, access_variant),
        ),
        AddressingMode::AbsoluteY => AnyAddressingTasks::AbsoluteOffset(
            AbsoluteOffsetAddressingTasks::new(OffsetVariant::Y, access_variant),
        ),
        AddressingMode::IndirectIndexY => AnyAddressingTasks::IndirectIndexY(
            IndirectIndexYAddressingTasks::new(access_variant),
        ),
        AddressingMode::IndexIndirectX => AnyAddressingTasks::IndexIndirectX(
            IndexIndirectXAddressingTasks::new(),
        ),
        AddressingMode::Indirect => {
            if cpu.chip_variant == ChipVariant::NMOS {
                AnyAddressingTasks::Indirect(IndirectAddressingTasks::new_incorrect_addressing())
            } else {
                AnyAddressingTasks::Indirect(IndirectAddressingTasks::new_fixed_addressing())
            }
        },
        _ => AnyAddressingTasks::Immediate(ImmediateAddressingTasks::new()),
    }
}

/// Running `ZeroPage` addressing as any addressing is running it.
pub proof fn lemma_run_any_zero_page(t: ZeroPageAddressingTasks, cpu: CPU, mem: MemView, fuel: nat)
    ensures
        run(AnyAddressingTasks::ZeroPage(t), cpu, mem, fuel) == (
            AnyAddressingTasks::ZeroPage(run(t, cpu, mem, fuel).0),
            run(t, cpu, mem, fuel).1,
            run(t, cpu, mem, fuel).2,
        ),
    decreases fuel,
{
    if fuel > 0 && !t.is_done() {
        lemma_run_step(AnyAddressingTasks::ZeroPage(t), cpu, mem, fuel);
        lemma_run_step(t, cpu, mem, fuel);
        let s = stepped(t, cpu, mem);
        lemma_run_any_zero_page(s.0, s.1, s.2, (fuel - 1) as nat);
    }
}

/// Running `ZeroPageOffset` addressing as any addressing is running it.
pub proof fn lemma_run_any_zero_page_offset(t: ZeroPageOffsetAddressingTasks, cpu: CPU, mem: MemView, fuel: nat)
    ensures
        run(AnyAddressingTasks::ZeroPageOffset(t), cpu, mem, fuel) == (
            AnyAddressingTasks::ZeroPageOffset(run(t, cpu, mem, fuel).0),
            run(t, cpu, mem, fuel).1,
            run(t, cpu, mem, fuel).2,
        ),
    decreases fuel,
{
    if fuel > 0 && !t.is_done() {
        lemma_run_step(AnyAddressingTasks::ZeroPageOffset(t), cpu, mem, fuel);
        lemma_run_step(t, cpu, mem, fuel);
        let s = stepped(t, cpu, mem);
        lemma_run_any_zero_page_offset(s.0, s.1, s.2, (fuel - 1) as nat);
    }
}

/// Running `Absolute` addressing as any addressing is running it.
pub proof fn lemma_run_any_absolute(t: AbsoluteAddressingTasks, cpu: CPU, mem: MemView, fuel: nat)
    ensures
        run(AnyAddressingTasks::Absolute(t), cpu, mem, fuel) == (
            AnyAddressingTasks::Absolute(run(t, cpu, mem, fuel).0),
            run(t, cpu, mem, fuel).1,
            run(t, cpu, mem, fuel).2,
        ),
    decreases fuel,
{
    if fuel > 0 && !t.is_done() {
        lemma_run_step(AnyAddressingTasks::Absolute(t), cpu, mem, fuel);
        lemma_run_step(t, cpu, mem, fuel);
        let s = stepped(t, cpu, mem);
        lemma_run_any_absolute(s.0, s.1, s.2, (fuel - 1) as nat);
    }
}

/// Running `AbsoluteOffset` addressing as any addressing is running it.
pub proof fn lemma_run_any_absolute_offset(t: AbsoluteOffsetAddressingTasks, cpu: CPU, mem: MemView, fuel: nat)
    ensures
        run(AnyAddressingTasks::AbsoluteOffset(t), cpu, mem, fuel) == (
            AnyAddressingTasks::AbsoluteOffset(run(t, cpu, mem, fuel).0),
            run(t, cpu, mem, fuel).1,
            run(t, cpu, mem, fuel).2,
        ),
    decreases fuel,
{
    if fuel > 0 && !t.is_done() {
        lemma_run_step(AnyAddressingTasks::AbsoluteOffset(t), cpu, mem, fuel);
        lemma_run_step(t, cpu, mem, fuel);
        let s = stepped(t, cpu, mem);
        lemma_run_any_absolute_offset(s.0, s.1, s.2, (fuel - 1) as nat);
    }
}

/// Running `IndirectIndexY` addressing as any addressing is running it.
pub proof fn lemma_run_any_indirect_index_y(t: IndirectIndexYAddressingTasks, cpu: CPU, mem: MemView, fuel: nat)
    ensures
        run(AnyAddressingTasks::IndirectIndexY(t), cpu, mem, fuel) == (
            AnyAddressingTasks::IndirectIndexY(run(t, cpu, mem, fuel).0),
            run(t, cpu, mem, fuel).1,
            run(t, cpu, mem, fuel).2,
        ),
    decreases fuel,
{
    if fuel > 0 && !t.is_done() {
        lemma_run_step(AnyAddressingTasks::IndirectIndexY(t), cpu, mem, fuel);
        lemma_run_step(t, cpu, mem, fuel);
        let s = stepped(t, cpu, mem);
        lemma_run_any_indirect_index_y(s.0, s.1, s.2, (fuel - 1) as nat);
    }
}

/// Running `IndexIndirectX` addressing as any addressing is running it.
pub proof fn lemma_run_any_index_indirect_x(t: IndexIndirectXAddressingTasks, cpu: CPU, mem: MemView, fuel: nat)
    ensures
        run(AnyAddressingTasks::IndexIndirectX(t), cpu, mem, fuel) == (
            AnyAddressingTasks::IndexIndirectX(run(t, cpu, mem, fuel).0),
            run(t, cpu, mem, fuel).1,
            run(t, cpu, mem, fuel).2,
        ),
    decreases fuel,
{
    if fuel > 0 && !t.is_done() {
        lemma_run_step(AnyAddressingTasks::IndexIndirectX(t), cpu, mem, fuel);
        lemma_run_step(t, cpu, mem, fuel);
        let s = stepped(t, cpu, mem);
        lemma_run_any_index_indirect_x(s.0, s.1, s.2, (fuel - 1) as nat);
    }
}

/// Running `Indirect` addressing as any addressing is running it.
pub proof fn lemma_run_any_indirect(t: IndirectAddressingTasks, cpu: CPU, mem: MemView, fuel: nat)
    ensures
        run(AnyAddressingTasks::Indirect(t), cpu, mem, fuel) == (
            AnyAddressingTasks::Indirect(run(t, cpu, mem, fuel).0),
            run(t, cpu, mem, fuel).1,
            run(t, cpu, mem, fuel).2,
        ),
    decreases fuel,
{
    if fuel > 0 && !t.is_done() {
        lemma_run_step(AnyAddressingTasks::Indirect(t), cpu, mem, fuel);
        lemma_run_step(t, cpu, mem, fuel);
        let s = stepped(t, cpu, mem);
        lemma_run_any_indirect(s.0, s.1, s.2, (fuel - 1) as nat);
    }
}

} // verus!
