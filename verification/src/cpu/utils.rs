use crate::cpu::debugger::Debugger;
use crate::cpu::instructions::{lemma_remaining_bound, opcode_name};
use crate::cpu::processor_status::Flags;
use crate::cpu::tasks::Tasks;
use crate::cpu::{
    cycles_run, instruction_ran, instruction_took, lemma_cycles_run_add, lemma_cycles_run_counts,
    lemma_cycles_run_ignores_last_access, lemma_ticked_ignores_last_access, CPU,
    INSTRUCTION_CYCLE_BOUND,
};
use crate::consts::Byte;
use crate::cpu::debugger::debug_instruction_info::DebugInstructionInfo;
use crate::memory::{mem_at, Generic64kMem, MemView};
use vstd::prelude::*;

verus! {

/// Runs clock cycles until the instruction under way (or, if none is, the next one)
/// has finished, letting the debugger, if one is given, probe the processor after
/// every cycle.
pub fn execute_next_instruction(
    cpu: &mut CPU,
    memory: &mut Generic64kMem,
    debugger: Option<&mut Debugger>,
)
    requires
        old(cpu).inv(),
        old(memory).wf(),
        old(cpu).cycle + INSTRUCTION_CYCLE_BOUND < usize::MAX,
        old(cpu).current_instruction is None ==> opcode_name(
            mem_at(old(memory)@, old(cpu).program_counter),
        ) is Some,
        debugger matches Some(d) ==> d.wf(),
    ensures
        final(memory).wf(),
        final(cpu).inv(),
        final(cpu).current_instruction is None,
        old(cpu).cycle < final(cpu).cycle <= old(cpu).cycle + INSTRUCTION_CYCLE_BOUND,
        final(cpu).chip_variant == old(cpu).chip_variant,
        instruction_ran(*old(cpu), old(memory)@, *final(cpu), final(memory)@),
        debugger matches Some(d) ==> final(d).wf(),
{
    match debugger {
        Some(dbg) => execute_probed(cpu, memory, dbg),
        None => cpu.execute_next_instruction(memory),
    }
}

/// Runs the next instruction to its end, probing after every cycle.
fn execute_probed(cpu: &mut CPU, memory: &mut Generic64kMem, debugger: &mut Debugger)
    requires
        old(cpu).inv(),
        old(memory).wf(),
        old(cpu).cycle + INSTRUCTION_CYCLE_BOUND < usize::MAX,
        old(cpu).current_instruction is None ==> opcode_name(
            mem_at(old(memory)@, old(cpu).program_counter),
        ) is Some,
        old(debugger).wf(),
    ensures
        final(memory).wf(),
        final(cpu).inv(),
        final(cpu).current_instruction is None,
        old(cpu).cycle < final(cpu).cycle <= old(cpu).cycle + INSTRUCTION_CYCLE_BOUND,
        final(cpu).chip_variant == old(cpu).chip_variant,
        instruction_ran(*old(cpu), old(memory)@, *final(cpu), final(memory)@),
        final(debugger).wf(),
        old(cpu).current_instruction is None ==> final(debugger).history().len() > 0
            && final(debugger).history().last().opcode == mem_at(
            old(memory)@,
            old(cpu).program_counter,
        ),
        old(cpu).current_instruction is Some ==> final(debugger).history().len()
            == old(debugger).history().len(),
        old(cpu).current_instruction is Some && old(debugger).history().len() > 0
            ==> final(debugger).history().last().opcode == old(debugger).history().last().opcode,
{
    let ghost start = *cpu;
    let ghost h0 = debugger.history();
    let ghost start_mem = memory@;
    proof {
        if cpu.current_instruction is Some {
            lemma_remaining_bound(cpu.current_instruction->0.tasks);
        }
    }
    cpu.tick(memory);
    debugger.probe(cpu, memory);
    let ghost hl = debugger.history().len();
    let ghost lo: Byte = if hl > 0 {
        debugger.history().last().opcode
    } else {
        0
    };
    proof {
        if start.current_instruction is None {
            assert(hl > 0);
            assert(lo == mem_at(start_mem, start.program_counter));
        } else {
            assert(hl == h0.len());
            assert(h0.len() > 0 ==> lo == h0.last().opcode);
        }
    }
    let ghost mut m: nat = 1;
    proof {
        if cpu.current_instruction is Some {
            lemma_remaining_bound(cpu.current_instruction->0.tasks);
        }
        assert(cycles_run(start, start_mem, 0) == (start, start_mem));
    }
    while cpu.current_instruction.is_some()
        invariant
            cpu.inv(),
            memory.wf(),
            start.cycle < cpu.cycle,
            cpu.current_instruction matches Some(ie) ==> cpu.cycle + ie.tasks.remaining() <= start.cycle
                + INSTRUCTION_CYCLE_BOUND,
            cpu.current_instruction is None ==> cpu.cycle <= start.cycle + INSTRUCTION_CYCLE_BOUND,
            start.cycle + INSTRUCTION_CYCLE_BOUND < usize::MAX,
            cpu.chip_variant == start.chip_variant,
            debugger.wf(),
            debugger.history().len() == hl,
            hl > 0 ==> debugger.history().last().opcode == lo,
            1 <= m,
            cpu.cycle == start.cycle + m,
            *cpu == cycles_run(start, start_mem, m).0,
            memory@.0 == cycles_run(start, start_mem, m).1.0,
            forall|j: nat|
                0 < j < m ==> (#[trigger] cycles_run(start, start_mem, j)).0.current_instruction is Some,
        decreases
            match cpu.current_instruction {
                Some(ie) => ie.tasks.remaining(),
                None => 0,
            },
    {
        proof {
            let ie = cpu.current_instruction->0;
            ie.tasks.lemma_next(cpu.task_view(), memory@);
            lemma_ticked_ignores_last_access(*cpu, memory@, cycles_run(start, start_mem, m).1);
        }
        cpu.tick(memory);
        debugger.probe(cpu, memory);
        proof {
            m = m + 1;
        }
    }
    assert(instruction_took(start, start_mem, *cpu, memory@, m));
}

/// Point `j` of the run from `(cpu, mem)` lies between two instructions: it is the start,
/// or an instruction has just finished there.
pub open spec fn at_boundary(cpu: CPU, mem: MemView, j: nat) -> bool {
    j == 0 || cycles_run(cpu, mem, j).0.current_instruction is None
}

/// The instruction run from the boundary `i` is `BRK` as the debugger records it: it was
/// fetched there with opcode 0, or (when the run starts inside an instruction) the
/// debugger's last record `h` before the run has opcode 0.
pub open spec fn runs_brk_from(
    cpu: CPU,
    mem: MemView,
    h: Seq<DebugInstructionInfo>,
    i: nat,
) -> bool {
    let p = cycles_run(cpu, mem, i);
    if p.0.current_instruction is None {
        mem_at(p.1, p.0.program_counter) == 0
    } else {
        h.len() > 0 && h.last().opcode == 0
    }
}

/// The instruction that ended at `k` is `BRK`: it ran from a boundary `i` before `k` with
/// no boundary in between.
pub open spec fn brk_ended_at(cpu: CPU, mem: MemView, h: Seq<DebugInstructionInfo>, k: nat) -> bool {
    exists|i: nat|
        #![trigger at_boundary(cpu, mem, i)]
        {
            &&& i < k
            &&& at_boundary(cpu, mem, i)
            &&& runs_brk_from(cpu, mem, h, i)
            &&& forall|j: nat| i < j < k ==> !#[trigger] at_boundary(cpu, mem, j)
        }
}

/// `execute_until_break` stops at point `k`: a boundary where the break flag is set, or
/// where a `BRK` instruction has just ended.
pub open spec fn stops_at(cpu: CPU, mem: MemView, h: Seq<DebugInstructionInfo>, k: nat) -> bool {
    &&& at_boundary(cpu, mem, k)
    &&& (cycles_run(cpu, mem, k).0.flag(Flags::Break) || brk_ended_at(cpu, mem, h, k))
}

/// The run from `(cpu, mem)` reaches a stopping point within `n` cycles; every opcode
/// fetched before is one the processor implements, and the cycle counter has room.
pub open spec fn stops_within(cpu: CPU, mem: MemView, h: Seq<DebugInstructionInfo>, n: nat) -> bool {
    &&& stops_at(cpu, mem, h, n)
    &&& cpu.cycle + n + INSTRUCTION_CYCLE_BOUND < usize::MAX
    &&& forall|j: nat|
        j < n && (#[trigger] cycles_run(cpu, mem, j)).0.current_instruction is None ==> opcode_name(
            mem_at(cycles_run(cpu, mem, j).1, cycles_run(cpu, mem, j).0.program_counter),
        ) is Some
}

/// `after` and the contents of `after_mem` are the state some cycles after `(cpu, mem)`,
/// at the first stopping point.
pub open spec fn stopped_at_first_stop(
    cpu: CPU,
    mem: MemView,
    h: Seq<DebugInstructionInfo>,
    after: CPU,
    after_mem: MemView,
) -> bool {
    exists|k: nat|
        {
            &&& after == cycles_run(cpu, mem, k).0
            &&& after_mem.0 == cycles_run(cpu, mem, k).1.0
            &&& stops_at(cpu, mem, h, k)
            &&& forall|j: nat| j < k ==> !#[trigger] stops_at(cpu, mem, h, j)
        }
}

/// One instruction run from point `k` of the run from `(start, start_mem)` ends at
/// `k + m`, with no boundary in between and none past the boundary `n`.
#[verifier::rlimit(40)]
proof fn lemma_instruction_step(
    start: CPU,
    start_mem: MemView,
    n: nat,
    k: nat,
    m: nat,
    here: CPU,
    here_mem: MemView,
    after: CPU,
    after_mem: MemView,
)
    requires
        k < n,
        at_boundary(start, start_mem, n),
        here == cycles_run(start, start_mem, k).0,
        here_mem.0 == cycles_run(start, start_mem, k).1.0,
        instruction_took(here, here_mem, after, after_mem, m),
    ensures
        after == cycles_run(start, start_mem, k + m).0,
        after_mem.0 == cycles_run(start, start_mem, k + m).1.0,
        k + m <= n,
        forall|j: nat| k < j < k + m ==> !#[trigger] at_boundary(start, start_mem, j),
{
    let canon = cycles_run(start, start_mem, k);
    lemma_cycles_run_add(start, start_mem, k, m);
    lemma_cycles_run_ignores_last_access(here, here_mem, canon.1, m);
    assert(canon.0 == here);
    assert(cycles_run(here, canon.1, m) == cycles_run(start, start_mem, k + m));
    assert(after == cycles_run(here, here_mem, m).0);
    assert forall|j: nat| k < j < k + m implies !#[trigger] at_boundary(start, start_mem, j) by {
        lemma_cycles_run_add(start, start_mem, k, (j - k) as nat);
        lemma_cycles_run_ignores_last_access(here, here_mem, canon.1, (j - k) as nat);
        assert(cycles_run(here, here_mem, (j - k) as nat).0.current_instruction is Some);
    }
    if n < k + m {
        assert(!at_boundary(start, start_mem, n));
    }
}

/// Runs whole instructions, probing every cycle with the debugger, until one ends with
/// the break flag set or the debugger's last recorded instruction is `BRK`, and returns
/// the cycle counter. It stops at the first such point (or at once, if the break flag is
/// already set).
pub fn execute_until_break(
    cpu: &mut CPU,
    memory: &mut Generic64kMem,
    debugger: &mut Debugger,
) -> (r: usize)
    requires
        old(cpu).inv(),
        old(memory).wf(),
        old(debugger).wf(),
        exists|n: nat| stops_within(*old(cpu), old(memory)@, old(debugger).history(), n),
    ensures
        final(memory).wf(),
        final(cpu).inv(),
        final(debugger).wf(),
        r == final(cpu).cycle,
        stopped_at_first_stop(
            *old(cpu),
            old(memory)@,
            old(debugger).history(),
            *final(cpu),
            final(memory)@,
        ),
{
    let ghost start = *cpu;
    let ghost start_mem = memory@;
    let ghost h0 = debugger.history();
    let ghost n = choose|n: nat| stops_within(start, start_mem, h0, n);
    let ghost mut k: nat = 0;
    proof {
        assert(cycles_run(start, start_mem, 0) == (start, start_mem));
        lemma_cycles_run_counts(start, start_mem, n);
        assert(!brk_ended_at(start, start_mem, h0, 0));
    }
    while !cpu.processor_status.get_break_flag()
        invariant_except_break
            !brk_ended_at(start, start_mem, h0, k),
        invariant
            cpu.inv(),
            memory.wf(),
            debugger.wf(),
            stops_within(start, start_mem, h0, n),
            k <= n,
            *cpu == cycles_run(start, start_mem, k).0,
            memory@.0 == cycles_run(start, start_mem, k).1.0,
            cpu.cycle == start.cycle + k,
            at_boundary(start, start_mem, k),
            k == 0 ==> debugger.history() == h0,
            forall|j: nat| j < k ==> !#[trigger] stops_at(start, start_mem, h0, j),
            forall|j: nat|
                j <= n ==> (#[trigger] cycles_run(start, start_mem, j)).0.cycle == start.cycle + j,
        ensures
            cpu.inv(),
            memory.wf(),
            debugger.wf(),
            *cpu == cycles_run(start, start_mem, k).0,
            memory@.0 == cycles_run(start, start_mem, k).1.0,
            stops_at(start, start_mem, h0, k),
            forall|j: nat| j < k ==> !#[trigger] stops_at(start, start_mem, h0, j),
        decreases n - k,
    {
        assert(!stops_at(start, start_mem, h0, k));
        assert(k != n);
        let ghost here = *cpu;
        let ghost here_mem = memory@;
        let ghost here_hist = debugger.history();
        proof {
            if cpu.current_instruction is None {
                assert(cycles_run(start, start_mem, k).0.current_instruction is None);
            }
        }
        execute_probed(cpu, memory, debugger);
        let ghost m = choose|m: nat| instruction_took(here, here_mem, *cpu, memory@, m);
        let ghost brk = runs_brk_from(start, start_mem, h0, k);
        proof {
            lemma_instruction_step(start, start_mem, n, k, m, here, here_mem, *cpu, memory@);
            let k2 = k + m;
            assert(at_boundary(start, start_mem, k2));
            assert forall|j: nat| j < k2 implies !#[trigger] stops_at(start, start_mem, h0, j) by {
                if k < j {
                    assert(!at_boundary(start, start_mem, j));
                }
            }
            if brk {
                assert(brk_ended_at(start, start_mem, h0, k2)) by {
                    assert(at_boundary(start, start_mem, k));
                }
            } else {
                if brk_ended_at(start, start_mem, h0, k2) {
                    let i = choose|i: nat|
                        #![trigger at_boundary(start, start_mem, i)]
                        {
                            &&& i < k2
                            &&& at_boundary(start, start_mem, i)
                            &&& runs_brk_from(start, start_mem, h0, i)
                            &&& forall|j: nat| i < j < k2 ==> !#[trigger] at_boundary(start, start_mem, j)
                        };
                    if i < k {
                        assert(at_boundary(start, start_mem, k));
                    } else if i > k {
                        assert(!at_boundary(start, start_mem, i));
                    }
                    assert(false);
                }
            }
            k = k2;
        }
        match debugger.get_last_instruction() {
            None => {},
            Some(inst) => {
                if inst.opcode == 0x00 {
                    break;
                }
            },
        }
    }
    cpu.cycle
}

} // verus!
