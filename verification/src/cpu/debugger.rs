use crate::consts::{Byte, Word, DEFAULT_INSTRUCTION_HISTORY_CAPACITY};
use crate::cpu::debugger::debug_instruction_info::DebugInstructionInfo;
use crate::cpu::debugger::registers::Registers;
use crate::cpu::processor_status::ProcessorStatus;
use crate::cpu::{InstructionExecution, CPU};
use crate::memory::{mem_after_read, mem_at, Generic64kMem, MemView, Memory};
use core::ops::RangeInclusive;
use ringbuffer::{AllocRingBuffer, RingBuffer};
use vstd::prelude::*;
use vstd::std_specs::range::RangeInclusiveView;

pub mod debug_instruction_info;
pub mod registers;
pub mod text;

verus! {

/// A trap that fired: the watched range and the address that fell in it.
#[derive(Debug, PartialEq)]
pub enum Traps {
    AddressRange(RangeInclusive<Word>, Word),
}

/// A condition the debugger watches for.
#[derive(Debug, PartialEq)]
pub enum TrapConditions {
    AddressRange(RangeInclusive<Word>),
}

/// What one probe of the processor found.
#[derive(Debug, PartialEq)]
pub struct ProbeResult {
    pub events: Vec<ProbeEvent>,
    pub registers: Registers,
    pub processor_status: ProcessorStatus,
}

/// Something the debugger noticed during the last cycle.
#[derive(Debug, PartialEq)]
pub enum ProbeEvent {
    NextInstruction,
    InstructionDone,
    AddressingDone,
    TrapHit(Traps),
    MemoryModification((Byte, Byte)),
}

/// Names for addresses, supplied by the user of the debugger.
pub trait Symbols {
    /// The name of `addr`, if it has one.
    fn get(&self, addr: &Word) -> Option<String>;
}

#[verifier::external_type_specification]
#[verifier::external_body]
#[verifier::reject_recursive_types(T)]
pub struct ExAllocRingBuffer<T>(AllocRingBuffer<T>);

/// The instructions a history buffer holds, oldest first.
pub uninterp spec fn history_items(rb: AllocRingBuffer<DebugInstructionInfo>) -> Seq<
    DebugInstructionInfo,
>;

/// The number of instructions a history buffer keeps at most.
pub uninterp spec fn history_capacity(rb: AllocRingBuffer<DebugInstructionInfo>) -> nat;

/// Contents of a ring buffer of capacity `cap` after pushing `x`: when it is full,
/// the oldest item leaves.
pub open spec fn ring_pushed(s: Seq<DebugInstructionInfo>, cap: nat, x: DebugInstructionInfo) -> Seq<
    DebugInstructionInfo,
> {
    if s.len() == cap {
        s.drop_first().push(x)
    } else {
        s.push(x)
    }
}

/// `AllocRingBuffer::new`: an empty buffer keeping at most `capacity` items
/// (the source panics on a zero capacity).
#[verifier::external_body]
fn history_new(capacity: usize) -> (r: AllocRingBuffer<DebugInstructionInfo>)
    requires
        capacity > 0,
    ensures
        history_items(r) == Seq::<DebugInstructionInfo>::empty(),
        history_capacity(r) == capacity,
{
    AllocRingBuffer::new(capacity)
}

/// `RingBuffer::push`: appends `item`; when the buffer is full (its length equals its
/// capacity) the oldest item is dropped first.
#[verifier::external_body]
#[allow(deprecated)]
fn history_push(rb: &mut AllocRingBuffer<DebugInstructionInfo>, item: DebugInstructionInfo)
    ensures
        history_capacity(*final(rb)) == history_capacity(*old(rb)),
        history_items(*final(rb)) == ring_pushed(
            history_items(*old(rb)),
            history_capacity(*old(rb)),
            item,
        ),
{
    rb.push(item)
}

/// `RingBuffer::back`: the most recently pushed item, if any.
#[verifier::external_body]
fn history_back(rb: &AllocRingBuffer<DebugInstructionInfo>) -> (r: Option<&DebugInstructionInfo>)
    ensures
        history_items(*rb).len() == 0 ==> r is None,
        history_items(*rb).len() > 0 ==> r is Some && *r->0 == history_items(*rb).last(),
{
    rb.back()
}

/// `RingBuffer::back_mut`: a mutable reference to the most recently pushed item, if any.
#[verifier::external_body]
fn history_back_mut(rb: &mut AllocRingBuffer<DebugInstructionInfo>) -> (r: Option<
    &mut DebugInstructionInfo,
>)
    ensures
        history_capacity(*final(rb)) == history_capacity(*old(rb)),
        history_items(*old(rb)).len() == 0 ==> r is None && history_items(*final(rb))
            == history_items(*old(rb)),
        history_items(*old(rb)).len() > 0 ==> r is Some && *r->0 == history_items(*old(rb)).last()
            && history_items(*final(rb)) == history_items(*old(rb)).update(
            history_items(*old(rb)).len() - 1,
            *final(r->0),
        ),
{
    rb.back_mut()
}

/// `Clone::clone` of a `RangeInclusive<u16>`: the derived clone copies both bounds and
/// whether the range was exhausted.
#[verifier::external_body]
fn clone_range(r: &RangeInclusive<Word>) -> (c: RangeInclusive<Word>)
    ensures
        c@ == r@,
{
    r.clone()
}

/// Whether `v` lies in the range, as `RangeInclusive::contains` decides it.
pub open spec fn in_range(r: RangeInclusiveView<Word>, v: Word) -> bool {
    r.start <= v && if r.exhausted {
        v < r.end
    } else {
        v <= r.end
    }
}

/// The last cycle finished an instruction.
pub open spec fn finishes_instruction(cpu: CPU) -> bool {
    cpu.current_instruction is None && cpu.cycle > 0
}

/// The last cycle fetched a new instruction.
pub open spec fn starts_instruction(cpu: CPU) -> bool {
    !finishes_instruction(cpu) && cpu.sync && cpu.current_instruction is Some
}

/// What the debugger first records of an instruction.
pub open spec fn info_for(ie: InstructionExecution) -> DebugInstructionInfo {
    DebugInstructionInfo {
        addr: ie.addr,
        addr_symbol: None,
        opcode: ie.opcode,
        name: ie.name,
        starting_cycle: ie.starting_cycle,
        target_addr: None,
        target_val: None,
        target_symbol: None,
    }
}

/// The history once a newly fetched instruction is recorded.
pub open spec fn history_after_fetch(h: Seq<DebugInstructionInfo>, cap: nat, cpu: CPU) -> Seq<
    DebugInstructionInfo,
> {
    if starts_instruction(cpu) {
        ring_pushed(h, cap, info_for(cpu.current_instruction->0))
    } else {
        h
    }
}

/// The last recorded instruction has just finished addressing.
pub open spec fn completes_addressing(h: Seq<DebugInstructionInfo>, cpu: CPU) -> bool {
    h.len() > 0 && h.last().target_addr is None && cpu.addr.done
}

/// An instruction record completed with the processor's address and the byte found there.
pub open spec fn with_target(
    info: DebugInstructionInfo,
    cpu: CPU,
    mem: MemView,
) -> DebugInstructionInfo {
    DebugInstructionInfo {
        target_val: match cpu.addr.val {
            Some(a) => Some(mem_at(mem, a)),
            None => info.target_val,
        },
        target_addr: Some(cpu.addr),
        ..info
    }
}

/// The history after one probe.
pub open spec fn history_after_probe(
    h: Seq<DebugInstructionInfo>,
    cap: nat,
    cpu: CPU,
    mem: MemView,
) -> Seq<DebugInstructionInfo> {
    let h1 = history_after_fetch(h, cap, cpu);
    if completes_addressing(h1, cpu) {
        h1.update(h1.len() - 1, with_target(h1.last(), cpu, mem))
    } else {
        h1
    }
}

/// The memory after a probe: reading the target of an instruction whose addressing
/// just finished is recorded as the memory's last access.
pub open spec fn memory_after_probe(h: Seq<DebugInstructionInfo>, cap: nat, cpu: CPU, mem: MemView) -> MemView {
    if completes_addressing(history_after_fetch(h, cap, cpu), cpu) && cpu.addr.val is Some {
        mem_after_read(mem, cpu.addr.val->0)
    } else {
        mem
    }
}

/// The events a probe reports before any trap.
pub open spec fn leading_events(h: Seq<DebugInstructionInfo>, cap: nat, cpu: CPU) -> Seq<
    ProbeEvent,
> {
    let first = if finishes_instruction(cpu) {
        seq![ProbeEvent::InstructionDone]
    } else if starts_instruction(cpu) {
        seq![ProbeEvent::NextInstruction]
    } else {
        Seq::empty()
    };
    if completes_addressing(history_after_fetch(h, cap, cpu), cpu) {
        first.push(ProbeEvent::AddressingDone)
    } else {
        first
    }
}

/// The ranges, in order, of the traps that contain `v`.
pub open spec fn ranges_hit(traps: Seq<TrapConditions>, v: Word) -> Seq<RangeInclusiveView<Word>>
    decreases traps.len(),
{
    if traps.len() == 0 {
        Seq::empty()
    } else {
        let earlier = ranges_hit(traps.drop_last(), v);
        match traps.last() {
            TrapConditions::AddressRange(r) => if in_range(r@, v) {
                earlier.push(r@)
            } else {
                earlier
            },
        }
    }
}

/// The ranges of the traps a probe reports.
pub open spec fn traps_fired(
    h: Seq<DebugInstructionInfo>,
    cap: nat,
    traps: Seq<TrapConditions>,
    cpu: CPU,
) -> Seq<RangeInclusiveView<Word>> {
    if completes_addressing(history_after_fetch(h, cap, cpu), cpu) && cpu.addr.val is Some {
        ranges_hit(traps, cpu.addr.val->0)
    } else {
        Seq::empty()
    }
}

/// The history after probing `cpus[0]`, ..., `cpus[i]` in turn (with the memories
/// `mems[0]`, ..., `mems[i]`), starting from `h`.
pub open spec fn history_after_probes(
    h: Seq<DebugInstructionInfo>,
    cap: nat,
    cpus: Seq<CPU>,
    mems: Seq<MemView>,
    i: nat,
) -> Seq<DebugInstructionInfo>
    decreases i,
{
    let before = if i == 0 {
        h
    } else {
        history_after_probes(h, cap, cpus, mems, (i - 1) as nat)
    };
    history_after_probe(before, cap, cpus[i as int], mems[i as int])
}

/// The history the probe of `cpus[i]` finds, in the sequence of probes from `h`.
pub open spec fn history_before_probe(
    h: Seq<DebugInstructionInfo>,
    cap: nat,
    cpus: Seq<CPU>,
    mems: Seq<MemView>,
    i: nat,
) -> Seq<DebugInstructionInfo> {
    if i == 0 {
        h
    } else {
        history_after_probes(h, cap, cpus, mems, (i - 1) as nat)
    }
}

/// `cpus[i]` is the first of `cpus` whose addressing is done.
pub open spec fn first_addressing_done(cpus: Seq<CPU>, i: nat) -> bool {
    &&& cpus[i as int].addr.done
    &&& forall|j: int| 0 <= j < i ==> !(#[trigger] cpus[j]).addr.done
}

/// The probes of one instruction: the first sees it fetched, no later one sees a fetch.
pub open spec fn probes_of_one_instruction(cpus: Seq<CPU>, mems: Seq<MemView>) -> bool {
    &&& cpus.len() > 0
    &&& mems.len() == cpus.len()
    &&& starts_instruction(cpus[0])
    &&& forall|j: int| 0 < j < cpus.len() ==> !starts_instruction(#[trigger] cpus[j])
}

/// Along the probes of one instruction, the record of the instruction gets its target at
/// the first probe that finds the addressing done, and only there.
proof fn lemma_target_pending(
    h: Seq<DebugInstructionInfo>,
    cap: nat,
    cpus: Seq<CPU>,
    mems: Seq<MemView>,
    i: nat,
)
    requires
        cap > 0,
        probes_of_one_instruction(cpus, mems),
        i < cpus.len(),
    ensures
        history_after_fetch(history_before_probe(h, cap, cpus, mems, i), cap, cpus[i as int]).len() > 0,
        completes_addressing(
            history_after_fetch(history_before_probe(h, cap, cpus, mems, i), cap, cpus[i as int]),
            cpus[i as int],
        ) == first_addressing_done(cpus, i),
        history_after_probes(h, cap, cpus, mems, i).len() > 0,
        (history_after_probes(h, cap, cpus, mems, i).last().target_addr is None) == (forall|j: int|
            0 <= j <= i ==> !(#[trigger] cpus[j]).addr.done),
    decreases i,
{
    if i > 0 {
        lemma_target_pending(h, cap, cpus, mems, (i - 1) as nat);
        assert(!starts_instruction(cpus[i as int]));
        if forall|j: int| 0 <= j < i ==> !(#[trigger] cpus[j]).addr.done {
        } else {
            let j0 = choose|j: int| 0 <= j < i && (#[trigger] cpus[j]).addr.done;
            assert(!(forall|j: int| 0 <= j <= i - 1 ==> !(#[trigger] cpus[j]).addr.done)) by {
                assert(cpus[j0].addr.done);
            }
            assert(!first_addressing_done(cpus, i));
            assert(!(forall|j: int| 0 <= j <= i ==> !(#[trigger] cpus[j]).addr.done)) by {
                assert(cpus[j0].addr.done);
            }
        }
    }
}

/// Over the probes of one instruction (the first probe sees it fetched, no later one sees
/// a fetch), the end of addressing is reported by the first probe that finds the
/// processor's addressing done, and by no other: only that probe reports
/// `AddressingDone`, and only that probe reports trap hits, one for each watched range
/// that contains the address, in the order the traps were set.
pub proof fn lemma_addressing_reported_once(
    h: Seq<DebugInstructionInfo>,
    cap: nat,
    traps: Seq<TrapConditions>,
    cpus: Seq<CPU>,
    mems: Seq<MemView>,
    i: nat,
)
    requires
        cap > 0,
        probes_of_one_instruction(cpus, mems),
        i < cpus.len(),
    ensures
        ({
            let before = history_before_probe(h, cap, cpus, mems, i);
            let cpu = cpus[i as int];
            &&& leading_events(before, cap, cpu).contains(ProbeEvent::AddressingDone)
                == first_addressing_done(cpus, i)
            &&& traps_fired(before, cap, traps, cpu) == (if first_addressing_done(cpus, i)
                && cpu.addr.val is Some {
                ranges_hit(traps, cpu.addr.val->0)
            } else {
                Seq::empty()
            })
        }),
{
    lemma_target_pending(h, cap, cpus, mems, i);
    let before = history_before_probe(h, cap, cpus, mems, i);
    let cpu = cpus[i as int];
    let ev = leading_events(before, cap, cpu);
    let first = if finishes_instruction(cpu) {
        seq![ProbeEvent::InstructionDone]
    } else if starts_instruction(cpu) {
        seq![ProbeEvent::NextInstruction]
    } else {
        Seq::<ProbeEvent>::empty()
    };
    assert(!first.contains(ProbeEvent::AddressingDone)) by {
        if first.len() > 0 {
            assert(first[0] != ProbeEvent::AddressingDone);
        }
    }
    if first_addressing_done(cpus, i) {
        assert(ev == first.push(ProbeEvent::AddressingDone));
        assert(ev[ev.len() - 1] == ProbeEvent::AddressingDone);
    } else {
        assert(ev == first);
    }
}

/// `e` reports a trap on range `r` hit by address `v`.
pub open spec fn is_trap_hit(e: ProbeEvent, r: RangeInclusiveView<Word>, v: Word) -> bool {
    match e {
        ProbeEvent::TrapHit(Traps::AddressRange(range, addr)) => range@ == r && addr == v,
        _ => false,
    }
}

/// Events are the leading events followed by one trap event per range hit.
pub open spec fn events_match(
    events: Seq<ProbeEvent>,
    lead: Seq<ProbeEvent>,
    hits: Seq<RangeInclusiveView<Word>>,
    v: Word,
) -> bool {
    &&& events.len() == lead.len() + hits.len()
    &&& events.take(lead.len() as int) == lead
    &&& forall|k: int|
        0 <= k < hits.len() ==> #[trigger] is_trap_hit(events[lead.len() + k], hits[k], v)
}

/// Watches the processor cycle by cycle: keeps a bounded history of executed
/// instructions and reports traps on addresses.
pub struct Debugger {
    instructions: AllocRingBuffer<DebugInstructionInfo>,
    traps: Vec<TrapConditions>,
}

impl Debugger {
    /// The recorded instructions, oldest first.
    pub closed spec fn history(&self) -> Seq<DebugInstructionInfo> {
        history_items(self.instructions)
    }

    /// How many instructions the history keeps.
    pub closed spec fn capacity(&self) -> nat {
        history_capacity(self.instructions)
    }

    /// The watched traps, in the order they were set.
    pub closed spec fn trap_list(&self) -> Seq<TrapConditions> {
        self.traps@
    }

    /// The history never holds more than its capacity, which is the default one.
    pub open spec fn wf(&self) -> bool {
        &&& self.capacity() == DEFAULT_INSTRUCTION_HISTORY_CAPACITY
        &&& self.history().len() <= self.capacity()
    }

    /// A debugger with an empty history and no traps.
    pub fn new() -> (r: Self)
        ensures
            r.wf(),
            r.history() == Seq::<DebugInstructionInfo>::empty(),
            r.trap_list() == Seq::<TrapConditions>::empty(),
    {
        Debugger {
            instructions: history_new(DEFAULT_INSTRUCTION_HISTORY_CAPACITY),
            traps: Vec::new(),
        }
    }

    /// Inspects the processor after a cycle: records a newly fetched instruction,
    /// completes the record of the last one when its addressing finishes, and reports
    /// what happened and which traps fired.
    pub fn probe(&mut self, cpu: &CPU, memory: &mut Generic64kMem) -> (result: ProbeResult)
        requires
            old(self).wf(),
            old(memory).wf(),
        ensures
            final(self).wf(),
            final(memory).wf(),
            final(memory)@ == memory_after_probe(old(self).history(), old(self).capacity(), *cpu, old(memory)@),
            final(self).trap_list() == old(self).trap_list(),
            final(self).history() == history_after_probe(
                old(self).history(),
                old(self).capacity(),
                *cpu,
                old(memory)@,
            ),
            result.registers == (Registers {
                a: cpu.accumulator,
                x: cpu.index_register_x,
                y: cpu.index_register_y,
            }),
            result.processor_status == cpu.processor_status,
            events_match(
                result.events@,
                leading_events(old(self).history(), old(self).capacity(), *cpu),
                traps_fired(old(self).history(), old(self).capacity(), old(self).trap_list(), *cpu),
                cpu.addr.val->0,
            ),
    {
        let ghost h = self.history();
        let ghost cap = self.capacity();
        let mut result = ProbeResult {
            events: Vec::new(),
            registers: Registers {
                a: cpu.accumulator,
                x: cpu.index_register_x,
                y: cpu.index_register_y,
            },
            processor_status: cpu.processor_status,
        };
        if cpu.current_instruction.is_none() && cpu.cycle > 0 {
            result.events.push(ProbeEvent::InstructionDone);
        } else if cpu.sync() {
            match &cpu.current_instruction {
                Some(instruction) => {
                    history_push(
                        &mut self.instructions,
                        DebugInstructionInfo {
                            addr: instruction.addr,
                            addr_symbol: None,
                            opcode: instruction.opcode,
                            name: instruction.name,
                            starting_cycle: instruction.starting_cycle,
                            target_addr: None,
                            target_val: None,
                            target_symbol: None,
                        },
                    );
                    result.events.push(ProbeEvent::NextInstruction);
                },
                None => {},
            }
        }
        let ghost h1 = self.history();
        assert(h1 == history_after_fetch(h, cap, *cpu));
        let target_addr = cpu.addr;
        let addressing_done = match history_back_mut(&mut self.instructions) {
            None => false,
            Some(last_instruction) => {
                let done = last_instruction.target_addr.is_none() && cpu.addr.done;
                if done {
                    match target_addr.value() {
                        Some(addr) => {
                            last_instruction.target_val = Some(memory.read(addr));
                        },
                        None => {},
                    }
                    last_instruction.target_addr = Some(target_addr);
                }
                done
            },
        };
        assert(addressing_done == completes_addressing(h1, *cpu));
        if addressing_done {
            result.events.push(ProbeEvent::AddressingDone);
        }
        let ghost lead = result.events@;
        assert(lead == leading_events(h, cap, *cpu));
        let ghost probed = self.history();
        assert(probed == history_after_probe(h, cap, *cpu, old(memory)@));
        assert(memory@ == memory_after_probe(h, cap, *cpu, old(memory)@));
        assert(result.events@.take(lead.len() as int) =~= lead);
        let mut i: usize = 0;
        while i < self.traps.len()
            invariant
                0 <= i <= self.traps@.len(),
                self.history() == probed,
                self.capacity() == cap,
                probed.len() <= cap,
                cap == DEFAULT_INSTRUCTION_HISTORY_CAPACITY,
                result.registers == (Registers {
                    a: cpu.accumulator,
                    x: cpu.index_register_x,
                    y: cpu.index_register_y,
                }),
                result.processor_status == cpu.processor_status,
                self.traps@ == old(self).traps@,
                lead == leading_events(h, cap, *cpu),
                addressing_done == completes_addressing(h1, *cpu),
                target_addr == cpu.addr,
                events_match(
                    result.events@,
                    lead,
                    if addressing_done && target_addr.val is Some {
                        ranges_hit(self.traps@.take(i as int), target_addr.val->0)
                    } else {
                        Seq::empty()
                    },
                    target_addr.val->0,
                ),
            decreases self.traps@.len() - i,
        {
            let ghost before = result.events@;
            let ghost hits_before = if addressing_done && target_addr.val is Some {
                ranges_hit(self.traps@.take(i as int), target_addr.val->0)
            } else {
                Seq::empty()
            };
            proof {
                let t = self.traps@.take(i as int + 1);
                assert(t.drop_last() == self.traps@.take(i as int));
                assert(t.last() == self.traps@[i as int]);
            }
            match &self.traps[i] {
                TrapConditions::AddressRange(rng) => {
                    if addressing_done {
                        match target_addr.value() {
                            Some(target_addr_val) => {
                                if rng.contains(&target_addr_val) {
                                    result.events.push(
                                        ProbeEvent::TrapHit(
                                            Traps::AddressRange(clone_range(rng), target_addr_val),
                                        ),
                                    );
                                    proof {
                                        assert(result.events@.take(lead.len() as int) =~= before.take(
                                            lead.len() as int,
                                        ));
                                        let hits = hits_before.push(rng@);
                                        assert forall|k: int| 0 <= k < hits.len() implies #[trigger] is_trap_hit(
                                            result.events@[lead.len() + k],
                                            hits[k],
                                            target_addr.val->0,
                                        ) by {
                                            if k < hits_before.len() {
                                                assert(result.events@[lead.len() + k] == before[lead.len() + k]);
                                                assert(is_trap_hit(before[lead.len() + k], hits_before[k], target_addr.val->0));
                                            }
                                        }
                                    }
                                }
                            },
                            None => {},
                        }
                    }
                },
            }
            proof {
                assert(self.traps@.take(i as int + 1).drop_last() == self.traps@.take(i as int));
            }
            i = i + 1;
        }
        proof {
            assert(self.traps@.take(self.traps@.len() as int) == self.traps@);
        }
        result
    }

    /// Like `probe`, and names the addresses of the last instruction with `symbols`:
    /// its own address when it was just fetched, its target when its addressing just finished.
    pub fn probe_with_symbols<S: Symbols>(
        &mut self,
        cpu: &CPU,
        memory: &mut Generic64kMem,
        symbols: &S,
    ) -> (result: ProbeResult)
        requires
            old(self).wf(),
            old(memory).wf(),
        ensures
            final(self).wf(),
            final(memory).wf(),
            final(memory)@ == memory_after_probe(old(self).history(), old(self).capacity(), *cpu, old(memory)@),
            final(self).trap_list() == old(self).trap_list(),
            ({
                let probed = history_after_probe(
                    old(self).history(),
                    old(self).capacity(),
                    *cpu,
                    old(memory)@,
                );
                let lead = leading_events(old(self).history(), old(self).capacity(), *cpu);
                &&& final(self).history().len() == probed.len()
                &&& forall|i: int|
                    0 <= i < probed.len() - 1 ==> #[trigger] final(self).history()[i] == probed[i]
                &&& probed.len() > 0 ==> symbols_added(
                    probed.last(),
                    final(self).history().last(),
                    lead.contains(ProbeEvent::NextInstruction),
                    lead.contains(ProbeEvent::AddressingDone),
                )
            }),
            result.registers == (Registers {
                a: cpu.accumulator,
                x: cpu.index_register_x,
                y: cpu.index_register_y,
            }),
            result.processor_status == cpu.processor_status,
            events_match(
                result.events@,
                leading_events(old(self).history(), old(self).capacity(), *cpu),
                traps_fired(old(self).history(), old(self).capacity(), old(self).trap_list(), *cpu),
                cpu.addr.val->0,
            ),
    {
        let result = self.probe(cpu, memory);
        let ghost lead = leading_events(old(self).history(), old(self).capacity(), *cpu);
        let named_instruction = has_event(&result.events, &ProbeEvent::NextInstruction);
        let named_target = has_event(&result.events, &ProbeEvent::AddressingDone);
        proof {
            lemma_lead_flags(result.events@, lead, traps_fired(
                old(self).history(),
                old(self).capacity(),
                old(self).trap_list(),
                *cpu,
            ), cpu.addr.val->0);
        }
        match history_back_mut(&mut self.instructions) {
            None => {},
            Some(last_instruction) => {
                if named_instruction {
                    last_instruction.addr_symbol = symbols.get(&last_instruction.addr);
                }
                if named_target {
                    last_instruction.target_symbol = match last_instruction.target_addr {
                        Some(target) => match target.value() {
                            Some(addr) => symbols.get(&addr),
                            None => None,
                        },
                        None => None,
                    };
                }
            },
        }
        result
    }

    /// The most recently recorded instruction, if any.
    pub fn get_last_instruction(&self) -> (r: Option<&DebugInstructionInfo>)
        ensures
            self.history().len() == 0 ==> r is None,
            self.history().len() > 0 ==> r is Some && *r->0 == self.history().last(),
    {
        history_back(&self.instructions)
    }

    /// Watches for instructions whose target address lies in `addrs`.
    pub fn trap_between_addresses(&mut self, addrs: RangeInclusive<Word>)
        ensures
            final(self).history() == old(self).history(),
            final(self).capacity() == old(self).capacity(),
            final(self).trap_list() == old(self).trap_list().push(
                TrapConditions::AddressRange(addrs),
            ),
    {
        self.traps.push(TrapConditions::AddressRange(addrs));
    }
}

/// `after` is `before` with its symbol fields possibly filled in: the instruction's own
/// symbol when `named_instruction`, the target's symbol when `named_target` (and none
/// when the target has no address).
pub open spec fn symbols_added(
    before: DebugInstructionInfo,
    after: DebugInstructionInfo,
    named_instruction: bool,
    named_target: bool,
) -> bool {
    &&& after.addr == before.addr
    &&& after.opcode == before.opcode
    &&& after.name == before.name
    &&& after.starting_cycle == before.starting_cycle
    &&& after.target_addr == before.target_addr
    &&& after.target_val == before.target_val
    &&& !named_instruction ==> after.addr_symbol == before.addr_symbol
    &&& !named_target ==> after.target_symbol == before.target_symbol
    &&& named_target && (before.target_addr is None || before.target_addr->0.val is None)
        ==> after.target_symbol is None
}

/// Whether `events` holds an event of the same kind as `kind` (a plain event, no trap).
fn has_event(events: &Vec<ProbeEvent>, kind: &ProbeEvent) -> (r: bool)
    requires
        !(kind is TrapHit),
        !(kind is MemoryModification),
    ensures
        r == events@.contains(*kind),
{
    let mut i: usize = 0;
    while i < events.len()
        invariant
            0 <= i <= events@.len(),
            !(kind is TrapHit),
            !(kind is MemoryModification),
            forall|j: int| 0 <= j < i ==> events@[j] != *kind,
        decreases events@.len() - i,
    {
        let same = match (&events[i], kind) {
            (ProbeEvent::NextInstruction, ProbeEvent::NextInstruction) => true,
            (ProbeEvent::InstructionDone, ProbeEvent::InstructionDone) => true,
            (ProbeEvent::AddressingDone, ProbeEvent::AddressingDone) => true,
            _ => false,
        };
        if same {
            return true;
        }
        i = i + 1;
    }
    false
}

/// Trap events are never plain events: a plain event occurs in the events exactly
/// when it occurs among the leading ones.
proof fn lemma_lead_flags(
    events: Seq<ProbeEvent>,
    lead: Seq<ProbeEvent>,
    hits: Seq<RangeInclusiveView<Word>>,
    v: Word,
)
    requires
        events_match(events, lead, hits, v),
    ensures
        events.contains(ProbeEvent::NextInstruction) == lead.contains(ProbeEvent::NextInstruction),
        events.contains(ProbeEvent::AddressingDone) == lead.contains(ProbeEvent::AddressingDone),
{
    assert forall|e: ProbeEvent| !(e is TrapHit) implies events.contains(e) == lead.contains(e) by {
        if events.contains(e) {
            let j = choose|j: int| 0 <= j < events.len() && events[j] == e;
            if j >= lead.len() {
                assert(is_trap_hit(events[lead.len() + (j - lead.len())], hits[j - lead.len()], v));
            } else {
                assert(lead[j] == events.take(lead.len() as int)[j]);
            }
        }
        if lead.contains(e) {
            let j = choose|j: int| 0 <= j < lead.len() && lead[j] == e;
            assert(events.take(lead.len() as int)[j] == events[j]);
        }
    }
}

impl Default for Debugger {
    fn default() -> (r: Self)
        ensures
            r.wf(),
            r.history() == Seq::<DebugInstructionInfo>::empty(),
            r.trap_list() == Seq::<TrapConditions>::empty(),
    {
        Self::new()
    }
}

} // verus!
