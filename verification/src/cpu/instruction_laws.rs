use crate::consts::{spec_hi, spec_lo, spec_word, Byte, Word, BRK_INTERRUPT_VECTOR};
use crate::cpu::addressing::absolute::{
    lemma_absolute_indexed, lemma_index_arithmetic, AbsoluteAddressingTasks,
    AbsoluteOffsetAddressingTasks, AccessVariant,
};
use crate::cpu::addressing::indirect::{
    lemma_index_indirect_x, lemma_indirect, lemma_indirect_index_y, pointer_hi_location,
    IndirectAddressingTasks, IndexIndirectXAddressingTasks,
    IndirectIndexYAddressingTasks,
};
use crate::cpu::addressing::zero_page::{
    lemma_zero_page_indexed, ZeroPageAddressingTasks, ZeroPageOffsetAddressingTasks,
};
use crate::cpu::addressing::{
    addressing_tasks_for, lemma_run_any_absolute, lemma_run_any_indirect, AnyAddressingTasks, lemma_run_any_absolute_offset,
    lemma_run_any_index_indirect_x, lemma_run_any_indirect_index_y, lemma_run_any_zero_page,
    lemma_run_any_zero_page_offset, offset_value, AddressingMode, AddressingTasks, OffsetVariant,
};
use crate::cpu::instructions::branches::{branch_target, lemma_branch};
use crate::cpu::instructions::load_and_store_ops::lemma_store;
use crate::cpu::instructions::{
    branch_instruction, flag_instruction, lemma_run_branch, lemma_run_change_status_flag,
    lemma_run_modify_memory, lemma_run_modify_register, lemma_run_store,
    lemma_run_transfer_registers, modify_memory_instruction, modify_register_instruction,
    store_instruction, transfer_instruction, BranchCondition, ChangeStatusFlagTasks,
    BranchTasks, StoreTasks,
};
use crate::cpu::tasks::modify_register::{lemma_modify_register, ModifyRegisterTasks};
use crate::cpu::tasks::transfer_register::TransferRegistersTasks;
use crate::cpu::tasks::read_memory::{
    lemma_addressed_read, lemma_run_any_read_addressing, lemma_run_any_read_immediate,
    AddressingReadMemoryTasks, ImmediateReadMemoryTasks, ReadMemoryTasks,
};
use crate::cpu::tasks::{lemma_run_done, lemma_run_exact, lemma_run_keeps_size, lemma_run_step, run, stepped};
use crate::cpu::processor_status::{lemma_flag_read_back, lemma_flag_unchanged, Flags};
use crate::cpu::tasks::modify_memory::{
    after_modification, lemma_modify_memory, modified_value, ModificationVariant, ModifyMemoryStep,
    ModifyMemoryTasks,
};
use crate::cpu::addressing::address::Address;
use crate::cpu::instructions::{lemma_decode_table, read_cycle};
use crate::cpu::tasks::Tasks;
use crate::cpu::{
    add16, add8, cycles_run, lemma_clock_runs_instruction, operand_read_during_addressing, read_memory_for, ChipVariant, is_negative, lemma_compare_status, lemma_with_register_loads, sub8, Registers,
    CPU,
};
use crate::cpu::instructions::arithmetic::{
    added, arithmetic_instruction, compare_instruction, compared, lemma_arithmetic_handler,
    lemma_compare_handler, ArithmeticOperation,
};
use crate::cpu::instructions::load_and_store_ops::{lemma_load_handler, load_instruction};
use crate::cpu::instructions::jumps_and_calls::{
    jmp_absolute_instruction, jmp_indirect_instruction, lemma_jsr_call, lemma_rts_return, JmpTasks,
};
use crate::cpu::instructions::stack_operations::lemma_push_then_pull;
use crate::cpu::instructions::system_functions::{lemma_brk_interrupt, lemma_rti_return};
use crate::cpu::instructions::{
    brk_instruction, jsr_instruction, lemma_run_brk, lemma_run_jmp, lemma_run_jsr, lemma_run_pull_register,
    lemma_run_push_register, lemma_run_rti, lemma_run_rts, pull_instruction, push_instruction,
    rti_instruction, rts_instruction, BrkTasks, JsrTasks, PullRegisterTasks, PushRegisterTasks,
    RtiTasks, RtsTasks,
};
use crate::cpu::instructions::logical::{
    lemma_logical_handler, logical_instruction, logically_combined, LogicalVariant,
};
use crate::cpu::loaded;
use crate::memory::{mem_after_read, mem_after_write, mem_at, MemView, MEMORY_SIZE};
use vstd::prelude::*;

verus! {

/// The register a compare opcode compares: `X` for `CPX`, `Y` for `CPY`, the
/// accumulator for `CMP`.
pub open spec fn compared_register(opcode: Byte) -> Registers {
    if opcode == 0xE0 || opcode == 0xE4 || opcode == 0xEC {
        Registers::IndexX
    } else if opcode == 0xC0 || opcode == 0xC4 || opcode == 0xCC {
        Registers::IndexY
    } else {
        Registers::Accumulator
    }
}

/// `CMP #v`, `CPX #v` and `CPY #v` (opcodes $C9, $E0, $C0), started between two
/// instructions, take two clock cycles. They compare the accumulator, `X` or `Y`
/// respectively with the byte `v` after the opcode: the carry flag tells whether the
/// register is at least `v`, the zero flag whether it equals `v`, and the negative flag
/// is bit 7 of the register minus `v`. No register and no byte of memory changes, and
/// the program counter moves past the operand.
pub proof fn lemma_compare_immediate_instruction(cpu: CPU, mem: MemView)
    requires
        cpu.current_instruction is None,
        mem.0.len() == MEMORY_SIZE,
        cpu.cycle + 2 < usize::MAX,
        mem_at(mem, cpu.program_counter) == 0xC9 || mem_at(mem, cpu.program_counter) == 0xE0
            || mem_at(mem, cpu.program_counter) == 0xC0,
    ensures
        ({
            let pc = cpu.program_counter;
            let reg = compared_register(mem_at(mem, pc));
            let r = cpu.reg(reg);
            let v = mem_at(mem, add16(pc, 1));
            let after = cycles_run(cpu, mem, 2);
            &&& after.0.current_instruction is None
            &&& after.0.flag(Flags::Carry) == (r >= v)
            &&& after.0.flag(Flags::Zero) == (r == v)
            &&& after.0.flag(Flags::Negative) == is_negative(sub8(r, v))
            &&& after.0.program_counter == add16(pc, 2)
            &&& after.0.accumulator == cpu.accumulator
            &&& after.0.index_register_x == cpu.index_register_x
            &&& after.0.index_register_y == cpu.index_register_y
            &&& after.0.stack_pointer == cpu.stack_pointer
            &&& after.1.0 == mem.0
            &&& after.0.cycle == cpu.cycle + 2
        }),
{
    let pc = cpu.program_counter;
    let reg = compared_register(mem_at(mem, pc));
    let s1 = cpu.ticked(mem);
    assert(cycles_run(cpu, mem, 0) == (cpu, mem));
    assert(cycles_run(cpu, mem, 1) == s1);
    assert(cycles_run(cpu, mem, 2) == s1.0.ticked(s1.1));
    let ie = s1.0.current_instruction->0;
    let tv = s1.0.task_view();
    ie.tasks.lemma_next(tv, s1.1);
    let n = ie.tasks.next(tv, s1.1);
    match ie.tasks {
        crate::cpu::instructions::InstructionTasks::Compare(t) => {
            t.lemma_next_is_step(tv, s1.1);
            assert(t.register == reg);
            let rn = read_cycle(t.read_memory_tasks, tv, s1.1);
            lemma_compare_status(rn.1, reg, mem_at(mem, add16(pc, 1)));
        },
        _ => {
            assert(false);
        },
    }
}

/// The target of a branch whose offset byte is `offset`, taken from `next_pc` (the
/// address after the operand): `offset` read as a signed byte, added modulo 65536.
pub open spec fn signed_target(next_pc: Word, offset: Byte) -> int {
    (next_pc as int + (if offset >= 128 {
        offset as int - 256
    } else {
        offset as int
    })) % 65536
}

/// Whether a branch on `condition` is taken by a processor in state `cpu`.
pub open spec fn branch_taken(condition: BranchCondition, cpu: CPU) -> bool {
    match condition {
        BranchCondition::FlagSet(f) => cpu.flag(f),
        BranchCondition::FlagClear(f) => !cpu.flag(f),
        BranchCondition::Constant(b) => b,
    }
}

/// The instruction a branch handler builds branches on the condition it is given: it
/// reads its offset byte and, when the condition fails (a set-flag condition with the flag
/// clear, a clear-flag condition with the flag set), goes on after the operand in one
/// cycle; otherwise it lands on the address after the operand plus the offset read as a
/// signed byte, in two cycles within the page and three across a page. No register, no
/// flag and no byte of memory changes.
pub proof fn lemma_branch_handler(condition: BranchCondition, cpu: CPU, mem: MemView)
    requires
        mem.0.len() == MEMORY_SIZE,
        cpu.cycle + 3 < usize::MAX,
    ensures
        ({
            let r = run(branch_instruction(condition), cpu, mem, 3);
            let next_pc = add16(cpu.program_counter, 1);
            let target = signed_target(next_pc, mem_at(mem, cpu.program_counter));
            &&& r.0.is_done()
            &&& r.2.0 == mem.0
            &&& r.1.accumulator == cpu.accumulator
            &&& r.1.index_register_x == cpu.index_register_x
            &&& r.1.index_register_y == cpu.index_register_y
            &&& r.1.stack_pointer == cpu.stack_pointer
            &&& r.1.processor_status == cpu.processor_status
            &&& !branch_taken(condition, cpu) ==> r.1.program_counter == next_pc && r.1.cycle
                == cpu.cycle + 1
            &&& branch_taken(condition, cpu) ==> r.1.program_counter == target && r.1.cycle
                == cpu.cycle + if target / 256 == next_pc / 256 {
                2int
            } else {
                3int
            }
        }),
{
    lemma_branch(condition, cpu, mem);
    lemma_run_branch(BranchTasks::fresh(condition), cpu, mem, 3);
    let next_pc = add16(cpu.program_counter, 1);
    let o = mem_at(mem, cpu.program_counter);
    let bt = branch_target(next_pc, o);
    assert(bt as int == signed_target(next_pc, o));
    assert(spec_hi(bt) == bt / 256);
    assert(spec_hi(next_pc) == next_pc / 256);
}

/// The instruction a store handler builds writes the register it is given through the
/// addressing mode it is given: if that mode's addressing takes exactly `k` cycles from
/// `(cpu, mem)` and ends at address `x`, the store finishes one cycle later with the
/// register (as it stood after the addressing) written at `x` and nothing else changed
/// but the cycle counter, and it is not done before.
pub proof fn lemma_store_handler(
    handler_cpu: CPU,
    mode: AddressingMode,
    register: Registers,
    cpu: CPU,
    mem: MemView,
    k: nat,
)
    requires
        !addressing_tasks_for(handler_cpu.chip_variant, mode, AccessVariant::Write).is_done(),
        addressing_tasks_for(handler_cpu.chip_variant, mode, AccessVariant::Write).can_tick(cpu.addr),
        mem.0.len() == MEMORY_SIZE,
        cpu.cycle + k + 1 < usize::MAX,
        0 < k,
        run(addressing_tasks_for(handler_cpu.chip_variant, mode, AccessVariant::Write), cpu, mem, k).0.is_done(),
        !run(
            addressing_tasks_for(handler_cpu.chip_variant, mode, AccessVariant::Write),
            cpu,
            mem,
            (k - 1) as nat,
        ).0.is_done(),
    ensures
        ({
            let a = addressing_tasks_for(handler_cpu.chip_variant, mode, AccessVariant::Write);
            let ar = run(a, cpu, mem, k);
            let x = ar.1.addr.val->0;
            let r = run(store_instruction(handler_cpu, mode, register), cpu, mem, k + 1);
            &&& ar.1.addr.val is Some
            &&& r.0.is_done()
            &&& r.1 == CPU { cycle: (ar.1.cycle + 1) as usize, ..ar.1 }
            &&& r.2 == mem_after_write(ar.2, x, ar.1.reg(register))
            &&& forall|j: nat|
                j < k + 1 ==> !(#[trigger] run(store_instruction(handler_cpu, mode, register), cpu, mem, j)).0.is_done()
        }),
{
    let a = addressing_tasks_for(handler_cpu.chip_variant, mode, AccessVariant::Write);
    let t = StoreTasks::fresh(a, register);
    lemma_store(a, register, cpu, mem, k);
    lemma_run_store(t, cpu, mem, k + 1);
    assert forall|j: nat| j < k + 1 implies !(#[trigger] run(
        store_instruction(handler_cpu, mode, register),
        cpu,
        mem,
        j,
    )).0.is_done() by {
        lemma_run_store(t, cpu, mem, j);
        assert(!run(t, cpu, mem, j).0.done);
    }
}

/// The byte a read-modify-write operation makes of `v` with the carry flag `carry`:
/// `v + 1` and `v - 1` modulo 256 for increment and decrement, `v` doubled modulo 256
/// or halved (rounding down) for the shifts, and the same with the carry entering at the
/// free end for the rotations.
pub open spec fn modification_result(variant: ModificationVariant, v: Byte, carry: bool) -> int {
    let c: int = if carry {
        1
    } else {
        0
    };
    match variant {
        ModificationVariant::Inc => (v + 1) % 256,
        ModificationVariant::Dec => (v + 255) % 256,
        ModificationVariant::ShiftLeft => (2 * v) % 256,
        ModificationVariant::ShiftRight => v as int / 2,
        ModificationVariant::RotateLeft => (2 * v) % 256 + c,
        ModificationVariant::RotateRight => v as int / 2 + 128 * c,
    }
}

/// The carry flag after a read-modify-write operation on `v`: the bit shifted out by a
/// shift or rotation (bit 7 to the left, bit 0 to the right); kept by increment and
/// decrement.
pub open spec fn carry_out(variant: ModificationVariant, v: Byte, carry: bool) -> bool {
    match variant {
        ModificationVariant::ShiftLeft | ModificationVariant::RotateLeft => v >= 128,
        ModificationVariant::ShiftRight | ModificationVariant::RotateRight => v % 2 == 1,
        _ => carry,
    }
}

/// The processor `after` is `before` after modifying the byte `v` into `r`: zero and
/// negative describe `r`, carry is as `carry_out` says, and no other flag and no register
/// changes.
pub open spec fn modified(before: CPU, after: CPU, variant: ModificationVariant, v: Byte, r: int) -> bool {
    &&& after.flag(Flags::Zero) == (r == 0)
    &&& after.flag(Flags::Negative) == (r >= 128)
    &&& after.flag(Flags::Carry) == carry_out(variant, v, before.flag(Flags::Carry))
    &&& forall|f: Flags|
        f != Flags::Zero && f != Flags::Negative && f != Flags::Carry ==> #[trigger] after.flag(f)
            == before.flag(f)
    &&& after == CPU { processor_status: after.processor_status, ..before }
}

/// `modified_value` and `after_modification` are the modification and the flag changes
/// described by `modification_result`, `carry_out` and `modified`.
proof fn lemma_modification_meaning(cpu: CPU, variant: ModificationVariant, v: Byte)
    ensures
        modified_value(variant, v, cpu.flag(Flags::Carry)) as int == modification_result(
            variant,
            v,
            cpu.flag(Flags::Carry),
        ),
        modified(
            cpu,
            after_modification(cpu, variant, v, modified_value(variant, v, cpu.flag(Flags::Carry))),
            variant,
            v,
            modification_result(variant, v, cpu.flag(Flags::Carry)),
        ),
{
    let c = cpu.flag(Flags::Carry);
    let r = modified_value(variant, v, c);
    let after = after_modification(cpu, variant, v, r);
    let ps0 = cpu.processor_status;
    let ps1 = ps0.with_flag(Flags::Zero, r == 0);
    let ps2 = ps1.with_flag(Flags::Negative, is_negative(r));
    let co = carry_out(variant, v, c);
    let ps3 = ps2.with_flag(Flags::Carry, co);
    assert forall|f: Flags| #![trigger after.flag(f)] true implies {
        &&& ps1.flag(f) == (if f == Flags::Zero { r == 0 } else { ps0.flag(f) })
        &&& ps2.flag(f) == (if f == Flags::Negative { is_negative(r) } else { ps1.flag(f) })
        &&& ps3.flag(f) == (if f == Flags::Carry { co } else { ps2.flag(f) })
    } by {
        lemma_flag_read_back(ps0, Flags::Zero, f, r == 0);
        lemma_flag_read_back(ps1, Flags::Negative, f, is_negative(r));
        lemma_flag_read_back(ps2, Flags::Carry, f, co);
    }
    match variant {
        ModificationVariant::Inc | ModificationVariant::Dec => {
            assert(after.processor_status == ps2);
            lemma_flag_unchanged(ps2, Flags::Carry);
            lemma_flag_read_back(ps0, Flags::Zero, Flags::Carry, r == 0);
            lemma_flag_read_back(ps1, Flags::Negative, Flags::Carry, is_negative(r));
        },
        _ => {
            assert(after.processor_status == ps3);
        },
    }
}

/// The instruction a read-modify-write handler (`INC`, `DEC`, `ASL`, `LSR`, `ROL`, `ROR`
/// on memory) builds modifies the byte at the address its addressing mode gives: if that
/// mode's addressing takes exactly `k` cycles from `(cpu, mem)` and ends at `x` holding
/// `m`, the instruction ends `k + 2` or `k + 3` cycles after it starts with `x` holding
/// `modification_result(variant, m, carry)`, no other byte changed since the addressing,
/// and the flags as `modified` describes.
pub proof fn lemma_modify_memory_handler(
    handler_cpu: CPU,
    mode: AddressingMode,
    variant: ModificationVariant,
    cpu: CPU,
    mem: MemView,
    k: nat,
)
    requires
        !addressing_tasks_for(handler_cpu.chip_variant, mode, AccessVariant::Modify).is_done(),
        addressing_tasks_for(handler_cpu.chip_variant, mode, AccessVariant::Modify).can_tick(cpu.addr),
        mem.0.len() == MEMORY_SIZE,
        cpu.cycle + k + 3 < usize::MAX,
        0 < k,
        run(addressing_tasks_for(handler_cpu.chip_variant, mode, AccessVariant::Modify), cpu, mem, k).0.is_done(),
        !run(
            addressing_tasks_for(handler_cpu.chip_variant, mode, AccessVariant::Modify),
            cpu,
            mem,
            (k - 1) as nat,
        ).0.is_done(),
    ensures
        ({
            let a = addressing_tasks_for(handler_cpu.chip_variant, mode, AccessVariant::Modify);
            let ar = run(a, cpu, mem, k);
            let x = ar.1.addr.val->0;
            let m = mem_at(ar.2, x);
            let res = modification_result(variant, m, ar.1.flag(Flags::Carry));
            let extra: nat = if a.spec_fetch_during_addressing() {
                2
            } else {
                3
            };
            let r = run(modify_memory_instruction(handler_cpu, mode, variant), cpu, mem, k + extra);
            &&& ar.1.addr.val is Some
            &&& r.0.is_done()
            &&& r.1.cycle == ar.1.cycle + extra
            &&& modified(ar.1, (CPU { cycle: ar.1.cycle, ..r.1 }), variant, m, res)
            &&& r.2.0.len() == ar.2.0.len()
            &&& mem_at(r.2, x) == res
            &&& forall|b: Word| b != x ==> #[trigger] mem_at(r.2, b) == mem_at(ar.2, b)
            &&& forall|j: nat|
                j < k + extra ==> !(#[trigger] run(
                    modify_memory_instruction(handler_cpu, mode, variant),
                    cpu,
                    mem,
                    j,
                )).0.is_done()
        }),
{
    let a = addressing_tasks_for(handler_cpu.chip_variant, mode, AccessVariant::Modify);
    let t = ModifyMemoryTasks::fresh(variant, a);
    let extra: nat = if a.spec_fetch_during_addressing() {
        2
    } else {
        3
    };
    lemma_modify_memory(variant, a, cpu, mem, k);
    lemma_run_modify_memory(t, cpu, mem, k + extra);
    let ar = run(a, cpu, mem, k);
    let x = ar.1.addr.val->0;
    let m = mem_at(ar.2, x);
    lemma_modification_meaning(ar.1, variant, m);
    lemma_run_keeps_size(a, cpu, mem, k);
    let r = run(t, cpu, mem, k + extra);
    assert(mem_at(r.2, x) == modified_value(variant, m, ar.1.flag(Flags::Carry)));
    let rc = (CPU { cycle: ar.1.cycle, ..r.1 });
    assert forall|f: Flags| #![trigger rc.flag(f)] true implies rc.flag(f) == r.1.flag(f) by {}
    assert forall|j: nat| j < k + extra implies !(#[trigger] run(
        modify_memory_instruction(handler_cpu, mode, variant),
        cpu,
        mem,
        j,
    )).0.is_done() by {
        lemma_run_modify_memory(t, cpu, mem, j);
        assert(run(t, cpu, mem, j).0.step != ModifyMemoryStep::Done);
    }
}

/// The instruction a register-modification handler (`INX`, `INY`, `DEX`, `DEY`, `ASL A`,
/// `LSR A`, `ROL A`, `ROR A`) builds modifies the register it is given, in one cycle: the
/// register holds `modification_result` of its old value, zero and negative describe the
/// new value, carry is as `carry_out` says, and no other flag, register or byte of memory
/// changes, nor the program counter.
pub proof fn lemma_modify_register_handler(
    register: Registers,
    variant: ModificationVariant,
    cpu: CPU,
    mem: MemView,
)
    requires
        register == Registers::Accumulator || register == Registers::IndexX || register
            == Registers::IndexY,
        cpu.cycle + 1 < usize::MAX,
    ensures
        ({
            let v = cpu.reg(register);
            let carry = cpu.flag(Flags::Carry);
            let res = modification_result(variant, v, carry);
            let r = run(modify_register_instruction(register, variant), cpu, mem, 1);
            &&& r.0.is_done()
            &&& r.1.reg(register) == res
            &&& r.1.flag(Flags::Zero) == (res == 0)
            &&& r.1.flag(Flags::Negative) == (res >= 128)
            &&& r.1.flag(Flags::Carry) == carry_out(variant, v, carry)
            &&& forall|f: Flags|
                f != Flags::Zero && f != Flags::Negative && f != Flags::Carry ==> #[trigger] r.1.flag(f)
                    == cpu.flag(f)
            &&& forall|o: Registers|
                o != register && o != Registers::ProcessorStatus ==> #[trigger] r.1.reg(o)
                    == cpu.reg(o)
            &&& r.1.program_counter == cpu.program_counter
            &&& r.1.cycle == cpu.cycle + 1
            &&& r.2 == mem
        }),
{
    let t = ModifyRegisterTasks::fresh(variant, register);
    lemma_modify_register(variant, register, cpu, mem);
    lemma_run_modify_register(t, cpu, mem, 1);
    lemma_modification_meaning(cpu, variant, cpu.reg(register));
}

/// The instruction a transfer handler (`TAX`, `TAY`, `TXA`, `TYA`, `TSX`, `TXS`) builds
/// copies the source register into the target register in one cycle; a copy into the
/// accumulator or an index register also makes zero and negative describe the value, a
/// copy into the stack pointer changes no flag. No other register, flag or byte of
/// memory changes, nor the program counter.
pub proof fn lemma_transfer_handler(src: Registers, tgt: Registers, cpu: CPU, mem: MemView)
    requires
        src != Registers::ProcessorStatus,
        tgt != Registers::ProcessorStatus,
        cpu.cycle + 1 < usize::MAX,
    ensures
        ({
            let v = cpu.reg(src);
            let r = run(transfer_instruction(src, tgt), cpu, mem, 1);
            &&& r.0.is_done()
            &&& r.1.reg(tgt) == v
            &&& tgt != Registers::StackPointer ==> r.1.flag(Flags::Zero) == (v == 0) && r.1.flag(
                Flags::Negative,
            ) == (v >= 128)
            &&& forall|f: Flags|
                (tgt == Registers::StackPointer || (f != Flags::Zero && f != Flags::Negative))
                    ==> #[trigger] r.1.flag(f) == cpu.flag(f)
            &&& forall|o: Registers|
                o != tgt && o != Registers::ProcessorStatus ==> #[trigger] r.1.reg(o) == cpu.reg(o)
            &&& r.1.program_counter == cpu.program_counter
            &&& r.1.cycle == cpu.cycle + 1
            &&& r.2.0 == mem.0
        }),
{
    let t = TransferRegistersTasks::fresh(src, tgt);
    t.lemma_next_is_step(cpu, mem);
    lemma_run_step(t, cpu, mem, 1);
    lemma_run_transfer_registers(t, cpu, mem, 1);
    let v = cpu.reg(src);
    let after = cpu.with_transfer(src, tgt);
    let r = run(transfer_instruction(src, tgt), cpu, mem, 1);
    if tgt != Registers::StackPointer {
        lemma_with_register_loads(cpu, tgt, v);
    }
    assert forall|f: Flags| #![trigger r.1.flag(f)] true implies r.1.flag(f) == after.flag(f) by {}
    assert forall|o: Registers| #![trigger r.1.reg(o)] true implies r.1.reg(o) == after.reg(o) by {}
}

/// The instruction a flag handler (`CLC`, `SEC`, `CLD`, `SED`, `CLI`, `SEI`, `CLV`) builds
/// sets the flag it is given to the value it is given, in one cycle, changing no other
/// flag, no register, no byte of memory and not the program counter.
pub proof fn lemma_flag_handler(flag: Flags, value: bool, cpu: CPU, mem: MemView)
    requires
        cpu.cycle + 1 < usize::MAX,
    ensures
        ({
            let r = run(flag_instruction(flag, value), cpu, mem, 1);
            &&& r.0.is_done()
            &&& r.1.flag(flag) == value
            &&& forall|f: Flags| f != flag ==> #[trigger] r.1.flag(f) == cpu.flag(f)
            &&& r.1 == (CPU { processor_status: r.1.processor_status, cycle: r.1.cycle, ..cpu })
            &&& r.1.cycle == cpu.cycle + 1
            &&& r.2 == mem
        }),
{
    let t = ChangeStatusFlagTasks::fresh(flag, value);
    t.lemma_next_is_step(cpu, mem);
    lemma_run_step(t, cpu, mem, 1);
    lemma_run_change_status_flag(t, cpu, mem, 1);
    let r = run(flag_instruction(flag, value), cpu, mem, 1);
    assert forall|f: Flags| #![trigger r.1.flag(f)] f != flag implies r.1.flag(f) == cpu.flag(f) by {
        lemma_flag_read_back(cpu.processor_status, flag, f, value);
    }
    lemma_flag_read_back(cpu.processor_status, flag, flag, value);
}

/// The modes that address memory through operand bytes.
pub open spec fn is_memory_mode(mode: AddressingMode) -> bool {
    mode == AddressingMode::ZeroPage || mode == AddressingMode::ZeroPageX || mode
        == AddressingMode::ZeroPageY || mode == AddressingMode::Absolute || mode
        == AddressingMode::AbsoluteX || mode == AddressingMode::AbsoluteY || mode
        == AddressingMode::IndexIndirectX || mode == AddressingMode::IndirectIndexY
}

/// The address an operand of addressing mode `mode` designates, from the bytes `b0`
/// (and `b1`) after the opcode, at the program counter of `cpu`: the zero-page byte `b0`,
/// plus `X` or `Y` within the zero page; the word `b0 + 256 * b1`, plus `X` or `Y` modulo
/// 65536; for `(zp,X)` the word stored at `b0 + X` (both bytes within the zero page); for
/// `(zp),Y` the word stored at `b0` (both bytes within the zero page) plus `Y` modulo 65536.
pub open spec fn operand_address(mode: AddressingMode, cpu: CPU, mem: MemView) -> int {
    let pc = cpu.program_counter;
    let b0 = mem_at(mem, pc) as int;
    let b1 = mem_at(mem, add16(pc, 1)) as int;
    let w = b0 + 256 * b1;
    let x = cpu.index_register_x as int;
    let y = cpu.index_register_y as int;
    match mode {
        AddressingMode::ZeroPage => b0,
        AddressingMode::ZeroPageX => (b0 + x) % 256,
        AddressingMode::ZeroPageY => (b0 + y) % 256,
        AddressingMode::Absolute => w,
        AddressingMode::AbsoluteX => (w + x) % 65536,
        AddressingMode::AbsoluteY => (w + y) % 65536,
        AddressingMode::IndexIndirectX => {
            let p = (b0 + x) % 256;
            mem_at(mem, p as Word) + 256 * mem_at(mem, ((p + 1) % 256) as Word)
        },
        AddressingMode::IndirectIndexY => (mem_at(mem, b0 as Word) + 256 * mem_at(
            mem,
            ((b0 + 1) % 256) as Word,
        ) + y) % 65536,
        _ => 0,
    }
}

/// The cycles the addressing of `mode` takes for an access of kind `access`: one for zero
/// page, two for indexed zero page and absolute, four for `(zp,X)`; absolute indexed takes
/// three for a read within the page and four across one, three for a write and four for a
/// read-modify-write; `(zp),Y` four, and five for a read across a page.
pub open spec fn addressing_cycles(mode: AddressingMode, access: AccessVariant, cpu: CPU, mem: MemView) -> nat {
    let b0 = mem_at(mem, cpu.program_counter) as int;
    let x = cpu.index_register_x as int;
    let y = cpu.index_register_y as int;
    match mode {
        AddressingMode::ZeroPage => 1,
        AddressingMode::ZeroPageX | AddressingMode::ZeroPageY | AddressingMode::Absolute => 2,
        AddressingMode::AbsoluteX | AddressingMode::AbsoluteY => {
            let i = if mode == AddressingMode::AbsoluteX {
                x
            } else {
                y
            };
            match access {
                AccessVariant::Read => if b0 + i > 255 {
                    4
                } else {
                    3
                },
                AccessVariant::Write => 3,
                AccessVariant::Modify => 4,
            }
        },
        AddressingMode::IndexIndirectX => 4,
        _ => if access == AccessVariant::Read && mem_at(mem, b0 as Word) + y > 255 {
            5
        } else {
            4
        },
    }
}

/// The addressing of each memory mode ends, after exactly `addressing_cycles` cycles,
/// at `operand_address`, changing no byte of memory.
#[verifier::rlimit(80)]
#[verifier::spinoff_prover]
pub proof fn lemma_mode_addressing(
    chip: ChipVariant,
    mode: AddressingMode,
    access: AccessVariant,
    cpu: CPU,
    mem: MemView,
)
    requires
        is_memory_mode(mode),
        mem.0.len() == MEMORY_SIZE,
        cpu.cycle + 5 < usize::MAX,
    ensures
        ({
            let a = addressing_tasks_for(chip, mode, access);
            let k = addressing_cycles(mode, access, cpu, mem);
            let ar = run(a, cpu, mem, k);
            &&& !a.is_done()
            &&& a.can_tick(cpu.addr)
            &&& 0 < k
            &&& ar.0.is_done()
            &&& !run(a, cpu, mem, (k - 1) as nat).0.is_done()
            &&& ar.1.addr.val is Some
            &&& ar.1.addr.val->0 as int == operand_address(mode, cpu, mem)
            &&& ar.2.0 == mem.0
            &&& ar.1 == (CPU {
                addr: ar.1.addr,
                program_counter: ar.1.program_counter,
                cycle: ar.1.cycle,
                ..cpu
            })
        }),
{
    let a = addressing_tasks_for(chip, mode, access);
    let pc = cpu.program_counter;
    let b0 = mem_at(mem, pc);
    let b1 = mem_at(mem, add16(pc, 1));
    match mode {
        AddressingMode::ZeroPage => {
            let t = ZeroPageAddressingTasks::fresh();
            lemma_run_any_zero_page(t, cpu, mem, 1);
            lemma_run_step(t, cpu, mem, 1);
            lemma_run_exact(a, cpu, mem, 1);
        },
        AddressingMode::ZeroPageX | AddressingMode::ZeroPageY => {
            let v = if mode == AddressingMode::ZeroPageX {
                OffsetVariant::X
            } else {
                OffsetVariant::Y
            };
            let t = ZeroPageOffsetAddressingTasks::fresh(v);
            lemma_zero_page_indexed(v, cpu, mem);
            lemma_run_any_zero_page_offset(t, cpu, mem, 2);
            lemma_run_exact(a, cpu, mem, 2);
        },
        AddressingMode::Absolute => {
            let t = AbsoluteAddressingTasks::fresh();
            lemma_run_any_absolute(t, cpu, mem, 2);
            lemma_run_step(t, cpu, mem, 2);
            let s1 = stepped(t, cpu, mem);
            lemma_run_step(s1.0, s1.1, s1.2, 1);
            crate::consts::lemma_word_parts(b0, 0);
            lemma_run_exact(a, cpu, mem, 2);
        },
        AddressingMode::AbsoluteX | AddressingMode::AbsoluteY => {
            let v = if mode == AddressingMode::AbsoluteX {
                OffsetVariant::X
            } else {
                OffsetVariant::Y
            };
            let t = AbsoluteOffsetAddressingTasks::fresh(v, access);
            lemma_absolute_indexed(v, access, cpu, mem);
            lemma_run_any_absolute_offset(t, cpu, mem, 4);
            lemma_run_exact(a, cpu, mem, 4);
            let base = spec_word(b0, b1);
            crate::consts::lemma_word_parts(b0, b1);
            lemma_index_arithmetic(base, offset_value(cpu, v));
        },
        AddressingMode::IndexIndirectX => {
            let t = IndexIndirectXAddressingTasks::fresh();
            lemma_index_indirect_x(cpu, mem);
            lemma_run_any_index_indirect_x(t, cpu, mem, 4);
            lemma_run_exact(a, cpu, mem, 4);
        },
        _ => {
            let t = IndirectIndexYAddressingTasks::fresh(access);
            lemma_indirect_index_y(access, cpu, mem);
            lemma_run_any_indirect_index_y(t, cpu, mem, 5);
            lemma_run_exact(a, cpu, mem, 5);
            let lo = mem_at(mem, b0 as Word);
            let hi = mem_at(mem, add8(b0, 1) as Word);
            let base = spec_word(lo, hi);
            crate::consts::lemma_word_parts(lo, hi);
            lemma_index_arithmetic(base, cpu.index_register_y);
        },
    }
}

/// Where the operand of an instruction with addressing `mode` lies: right after the opcode
/// for an immediate operand (`None`), at `operand_address` otherwise.
pub open spec fn operand_location(mode: Option<AddressingMode>, cpu: CPU, mem: MemView) -> int {
    match mode {
        None => cpu.program_counter as int,
        Some(m) => operand_address(m, cpu, mem),
    }
}

/// The cycles reading the operand of addressing `mode` takes: one for an immediate operand;
/// otherwise the addressing, plus a cycle of its own for the read except with absolute
/// indexed and `(zp),Y` addressing, which read in their last cycle.
pub open spec fn read_cycles(mode: Option<AddressingMode>, cpu: CPU, mem: MemView) -> nat {
    match mode {
        None => 1,
        Some(m) => addressing_cycles(m, AccessVariant::Read, cpu, mem) + if m
            == AddressingMode::AbsoluteX || m == AddressingMode::AbsoluteY || m
            == AddressingMode::IndirectIndexY {
            0nat
        } else {
            1nat
        },
    }
}

/// The operand read of every addressing mode an operand can have finishes after exactly
/// `read_cycles` cycles with the byte at `operand_location`, changing no byte of memory.
pub proof fn lemma_operand_read(chip: ChipVariant, mode: Option<AddressingMode>, cpu: CPU, mem: MemView)
    requires
        mode matches Some(m) ==> is_memory_mode(m),
        mem.0.len() == MEMORY_SIZE,
        cpu.cycle + 6 < usize::MAX,
    ensures
        ({
            let t = read_memory_for(chip, mode);
            let k = read_cycles(mode, cpu, mem);
            let rr = run(t, cpu, mem, k);
            &&& !t.is_done()
            &&& t.can_tick(cpu.addr)
            &&& 0 < k
            &&& rr.0.is_done()
            &&& !run(t, cpu, mem, (k - 1) as nat).0.is_done()
            &&& rr.0.spec_value() == Some(mem_at(mem, operand_location(mode, cpu, mem) as Word))
            &&& rr.2.0 == mem.0
            &&& rr.1 == (CPU {
                addr: rr.1.addr,
                program_counter: rr.1.program_counter,
                cycle: rr.1.cycle,
                ..cpu
            })
        }),
{
    match mode {
        None => {
            let t = ImmediateReadMemoryTasks::fresh();
            lemma_run_any_read_immediate(t, cpu, mem, 1);
            lemma_run_step(t, cpu, mem, 1);
        },
        Some(m) => {
            let a = addressing_tasks_for(chip, m, AccessVariant::Read);
            let during = operand_read_during_addressing(m);
            lemma_mode_addressing(chip, m, AccessVariant::Read, cpu, mem);
            let k = addressing_cycles(m, AccessVariant::Read, cpu, mem);
            lemma_addressed_read(a, during, cpu, mem, k);
            let t = AddressingReadMemoryTasks::fresh(a, during);
            let total: nat = if during {
                k
            } else {
                k + 1
            };
            lemma_run_any_read_addressing(t, cpu, mem, total);
            lemma_run_any_read_addressing(t, cpu, mem, (total - 1) as nat);
        },
    }
}

/// `CMP`, `CPX`, `CPY`: the instruction a compare handler builds, for every operand mode,
/// finishes after exactly `read_cycles` cycles, changing no byte of memory, with the
/// register it is given compared with the byte at `operand_location` (`compared`).
pub proof fn lemma_compare_instruction_run(
    handler_cpu: CPU,
    mode: Option<AddressingMode>,
    register: Registers,
    cpu: CPU,
    mem: MemView,
)
    requires
        mode matches Some(m) ==> is_memory_mode(m),
        mem.0.len() == MEMORY_SIZE,
        cpu.cycle + 6 < usize::MAX,
    ensures
        ({
            let k = read_cycles(mode, cpu, mem);
            let v = mem_at(mem, operand_location(mode, cpu, mem) as Word);
            let rr = run(read_memory_for(handler_cpu.chip_variant, mode), cpu, mem, k);
            let ir = run(compare_instruction(handler_cpu, mode, register), cpu, mem, k);
            &&& ir.0.is_done()
            &&& !run(compare_instruction(handler_cpu, mode, register), cpu, mem, (k - 1) as nat).0.is_done()
            &&& ir.2.0 == mem.0
            &&& rr.1 == (CPU {
                addr: rr.1.addr,
                program_counter: rr.1.program_counter,
                cycle: rr.1.cycle,
                ..cpu
            })
            &&& compared(rr.1, ir.1, register, v)
        }),
{
    let k = read_cycles(mode, cpu, mem);
    lemma_operand_read(handler_cpu.chip_variant, mode, cpu, mem);
    lemma_compare_handler(handler_cpu, mode, register, cpu, mem, k);
    lemma_compare_handler(handler_cpu, mode, register, cpu, mem, (k - 1) as nat);
}

/// `ADC`, `SBC`: the instruction an arithmetic handler builds, for every operand mode,
/// finishes after exactly `read_cycles` cycles, changing no byte of memory, with the byte
/// at `operand_location` added to (or subtracted from) the accumulator with the carry
/// (`added`).
pub proof fn lemma_arithmetic_instruction_run(
    handler_cpu: CPU,
    mode: Option<AddressingMode>,
    op: ArithmeticOperation,
    cpu: CPU,
    mem: MemView,
)
    requires
        mode matches Some(m) ==> is_memory_mode(m),
        mem.0.len() == MEMORY_SIZE,
        cpu.cycle + 6 < usize::MAX,
    ensures
        ({
            let k = read_cycles(mode, cpu, mem);
            let v = mem_at(mem, operand_location(mode, cpu, mem) as Word);
            let rr = run(read_memory_for(handler_cpu.chip_variant, mode), cpu, mem, k);
            let ir = run(arithmetic_instruction(handler_cpu, mode, op), cpu, mem, k);
            &&& ir.0.is_done()
            &&& !run(arithmetic_instruction(handler_cpu, mode, op), cpu, mem, (k - 1) as nat).0.is_done()
            &&& ir.2.0 == mem.0
            &&& rr.1 == (CPU {
                addr: rr.1.addr,
                program_counter: rr.1.program_counter,
                cycle: rr.1.cycle,
                ..cpu
            })
            &&& added(rr.1, ir.1, op, v)
        }),
{
    let k = read_cycles(mode, cpu, mem);
    lemma_operand_read(handler_cpu.chip_variant, mode, cpu, mem);
    lemma_arithmetic_handler(handler_cpu, mode, op, cpu, mem, k);
    lemma_arithmetic_handler(handler_cpu, mode, op, cpu, mem, (k - 1) as nat);
}

/// `AND`, `EOR`, `ORA`, `BIT`: the instruction a logical handler builds, for every
/// operand mode, finishes after exactly `read_cycles` cycles, changing no byte of memory,
/// with the accumulator combined with the byte at `operand_location`
/// (`logically_combined`).
pub proof fn lemma_logical_instruction_run(
    handler_cpu: CPU,
    mode: Option<AddressingMode>,
    variant: LogicalVariant,
    cpu: CPU,
    mem: MemView,
)
    requires
        mode matches Some(m) ==> is_memory_mode(m),
        mem.0.len() == MEMORY_SIZE,
        cpu.cycle + 6 < usize::MAX,
    ensures
        ({
            let k = read_cycles(mode, cpu, mem);
            let v = mem_at(mem, operand_location(mode, cpu, mem) as Word);
            let rr = run(read_memory_for(handler_cpu.chip_variant, mode), cpu, mem, k);
            let ir = run(logical_instruction(handler_cpu, mode, variant), cpu, mem, k);
            &&& ir.0.is_done()
            &&& !run(logical_instruction(handler_cpu, mode, variant), cpu, mem, (k - 1) as nat).0.is_done()
            &&& ir.2.0 == mem.0
            &&& rr.1 == (CPU {
                addr: rr.1.addr,
                program_counter: rr.1.program_counter,
                cycle: rr.1.cycle,
                ..cpu
            })
            &&& logically_combined(rr.1, ir.1, variant, v)
        }),
{
    let k = read_cycles(mode, cpu, mem);
    lemma_operand_read(handler_cpu.chip_variant, mode, cpu, mem);
    lemma_logical_handler(handler_cpu, mode, variant, cpu, mem, k);
    lemma_logical_handler(handler_cpu, mode, variant, cpu, mem, (k - 1) as nat);
}

/// `LDA`, `LDX`, `LDY`: the instruction a load handler builds, for every operand mode,
/// finishes after exactly `read_cycles` cycles, changing no byte of memory, with the byte
/// at `operand_location` loaded into the register it is given (`loaded`).
pub proof fn lemma_load_instruction_run(
    handler_cpu: CPU,
    mode: Option<AddressingMode>,
    register: Registers,
    cpu: CPU,
    mem: MemView,
)
    requires
        mode matches Some(m) ==> is_memory_mode(m),
        mem.0.len() == MEMORY_SIZE,
        cpu.cycle + 6 < usize::MAX,
        register == Registers::Accumulator || register == Registers::IndexX || register
            == Registers::IndexY,
    ensures
        ({
            let k = read_cycles(mode, cpu, mem);
            let v = mem_at(mem, operand_location(mode, cpu, mem) as Word);
            let rr = run(read_memory_for(handler_cpu.chip_variant, mode), cpu, mem, k);
            let ir = run(load_instruction(handler_cpu, mode, register), cpu, mem, k);
            &&& ir.0.is_done()
            &&& !run(load_instruction(handler_cpu, mode, register), cpu, mem, (k - 1) as nat).0.is_done()
            &&& ir.2.0 == mem.0
            &&& rr.1 == (CPU {
                addr: rr.1.addr,
                program_counter: rr.1.program_counter,
                cycle: rr.1.cycle,
                ..cpu
            })
            &&& loaded(rr.1, ir.1, register, v)
        }),
{
    let k = read_cycles(mode, cpu, mem);
    lemma_operand_read(handler_cpu.chip_variant, mode, cpu, mem);
    lemma_load_handler(handler_cpu, mode, register, cpu, mem, k);
    lemma_load_handler(handler_cpu, mode, register, cpu, mem, (k - 1) as nat);
}

/// `STA`, `STX`, `STY`: the instruction a store handler builds, for every memory mode,
/// finishes one cycle after its addressing (`addressing_cycles` for a write), with the
/// register it is given written at `operand_address` and no other byte changed; it is not
/// done before.
pub proof fn lemma_store_instruction_run(
    handler_cpu: CPU,
    mode: AddressingMode,
    register: Registers,
    cpu: CPU,
    mem: MemView,
)
    requires
        is_memory_mode(mode),
        mem.0.len() == MEMORY_SIZE,
        cpu.cycle + 6 < usize::MAX,
    ensures
        ({
            let k = addressing_cycles(mode, AccessVariant::Write, cpu, mem);
            let x = operand_address(mode, cpu, mem);
            let ar = run(addressing_tasks_for(handler_cpu.chip_variant, mode, AccessVariant::Write), cpu, mem, k);
            let r = run(store_instruction(handler_cpu, mode, register), cpu, mem, k + 1);
            &&& r.0.is_done()
            &&& !run(store_instruction(handler_cpu, mode, register), cpu, mem, k).0.is_done()
            &&& mem_at(r.2, x as Word) == ar.1.reg(register)
            &&& forall|b: Word| b != x ==> #[trigger] mem_at(r.2, b) == mem_at(mem, b)
            &&& r.1 == (CPU { cycle: r.1.cycle, ..ar.1 })
        }),
{
    let k = addressing_cycles(mode, AccessVariant::Write, cpu, mem);
    lemma_mode_addressing(handler_cpu.chip_variant, mode, AccessVariant::Write, cpu, mem);
    lemma_store_handler(handler_cpu, mode, register, cpu, mem, k);
}

/// The cycles a read-modify-write takes after its addressing: two when the addressing has
/// already read the operand (absolute indexed and `(zp),Y`), three otherwise.
pub open spec fn modify_extra_cycles(mode: AddressingMode) -> nat {
    if mode == AddressingMode::AbsoluteX || mode == AddressingMode::AbsoluteY || mode
        == AddressingMode::IndirectIndexY {
        2
    } else {
        3
    }
}

/// `INC`, `DEC`, `ASL`, `LSR`, `ROL`, `ROR` on memory: the instruction a read-modify-write
/// handler builds, for every memory mode, finishes `modify_extra_cycles` after its
/// addressing (`addressing_cycles` for a read-modify-write), with the byte `m` at
/// `operand_address` replaced by `modification_result` of it, no other byte changed, and
/// the flags as `modified` describes; it is not done before.
pub proof fn lemma_modify_memory_instruction_run(
    handler_cpu: CPU,
    mode: AddressingMode,
    variant: ModificationVariant,
    cpu: CPU,
    mem: MemView,
)
    requires
        is_memory_mode(mode),
        mem.0.len() == MEMORY_SIZE,
        cpu.cycle + 8 < usize::MAX,
    ensures
        ({
            let k = addressing_cycles(mode, AccessVariant::Modify, cpu, mem);
            let total = k + modify_extra_cycles(mode);
            let x = operand_address(mode, cpu, mem);
            let m = mem_at(mem, x as Word);
            let ar = run(addressing_tasks_for(handler_cpu.chip_variant, mode, AccessVariant::Modify), cpu, mem, k);
            let res = modification_result(variant, m, ar.1.flag(Flags::Carry));
            let r = run(modify_memory_instruction(handler_cpu, mode, variant), cpu, mem, total);
            &&& r.0.is_done()
            &&& !run(modify_memory_instruction(handler_cpu, mode, variant), cpu, mem, (total - 1) as nat).0.is_done()
            &&& mem_at(r.2, x as Word) == res
            &&& forall|b: Word| b != x ==> #[trigger] mem_at(r.2, b) == mem_at(mem, b)
            &&& modified(ar.1, (CPU { cycle: ar.1.cycle, ..r.1 }), variant, m, res)
        }),
{
    let k = addressing_cycles(mode, AccessVariant::Modify, cpu, mem);
    lemma_mode_addressing(handler_cpu.chip_variant, mode, AccessVariant::Modify, cpu, mem);
    lemma_modify_memory_handler(handler_cpu, mode, variant, cpu, mem, k);
    let a = addressing_tasks_for(handler_cpu.chip_variant, mode, AccessVariant::Modify);
    assert(a.spec_fetch_during_addressing() == (modify_extra_cycles(mode) == 2));
    let ar = run(a, cpu, mem, k);
    let extra: nat = if a.spec_fetch_during_addressing() {
        2
    } else {
        3
    };
    assert(extra == modify_extra_cycles(mode));
    let r = run(modify_memory_instruction(handler_cpu, mode, variant), cpu, mem, k + extra);
    let x = operand_address(mode, cpu, mem);
    assert(ar.1.addr.val->0 as int == x);
    lemma_modify_memory(variant, a, cpu, mem, k);
    lemma_run_modify_memory(ModifyMemoryTasks::fresh(variant, a), cpu, mem, k + extra);
    lemma_run_keeps_size(a, cpu, mem, k);
    assert forall|b: Word| b != x implies #[trigger] mem_at(r.2, b) == mem_at(mem, b) by {
        assert(b != ar.1.addr.val->0);
        assert(r.2.0[b as int] == ar.2.0[b as int]);
    }
}

/// The processor after an opcode fetch, as its instruction's work sees it: the program
/// counter moved past the opcode, the address register cleared, one more cycle counted.
pub open spec fn after_fetch(cpu: CPU) -> CPU {
    CPU {
        current_instruction: None,
        sync: false,
        cycle: (cpu.cycle + 1) as usize,
        addr: Address::new_spec(),
        program_counter: add16(cpu.program_counter, 1),
        ..cpu
    }
}

/// `cpu` with the program counter, the address register, the cycle counter and the fetch
/// signal of `after`: what an instruction that changes no register and no flag leaves.
pub open spec fn between(cpu: CPU, after: CPU) -> CPU {
    CPU {
        addr: after.addr,
        program_counter: after.program_counter,
        cycle: after.cycle,
        sync: after.sync,
        current_instruction: after.current_instruction,
        ..cpu
    }
}

/// Whether `op` is one of the ADC and SBC opcodes.
pub open spec fn is_arithmetic_opcode(op: Byte) -> bool {
    op == 0x69 || op == 0x65 || op == 0x75 || op == 0x6D || op == 0x7D || op == 0x79 || op == 0x61 || op == 0x71 || op == 0xE9 || op == 0xE5 || op == 0xF5 || op == 0xED || op == 0xFD || op == 0xF9 || op == 0xE1 || op == 0xF1
}

/// The operand addressing of each ADC and SBC opcode (`None` for an immediate operand).
pub open spec fn arithmetic_opcode_mode(op: Byte) -> Option<AddressingMode> {
    match op {
        0x69 => None,
        0x65 => Some(AddressingMode::ZeroPage),
        0x75 => Some(AddressingMode::ZeroPageX),
        0x6D => Some(AddressingMode::Absolute),
        0x7D => Some(AddressingMode::AbsoluteX),
        0x79 => Some(AddressingMode::AbsoluteY),
        0x61 => Some(AddressingMode::IndexIndirectX),
        0x71 => Some(AddressingMode::IndirectIndexY),
        0xE9 => None,
        0xE5 => Some(AddressingMode::ZeroPage),
        0xF5 => Some(AddressingMode::ZeroPageX),
        0xED => Some(AddressingMode::Absolute),
        0xFD => Some(AddressingMode::AbsoluteX),
        0xF9 => Some(AddressingMode::AbsoluteY),
        0xE1 => Some(AddressingMode::IndexIndirectX),
        0xF1 => Some(AddressingMode::IndirectIndexY),
        _ => None,
    }
}

/// What each ADC and SBC opcode does to its operand.
pub open spec fn arithmetic_opcode_op(op: Byte) -> ArithmeticOperation {
    match op {
        0x69 => ArithmeticOperation::Adc,
        0x65 => ArithmeticOperation::Adc,
        0x75 => ArithmeticOperation::Adc,
        0x6D => ArithmeticOperation::Adc,
        0x7D => ArithmeticOperation::Adc,
        0x79 => ArithmeticOperation::Adc,
        0x61 => ArithmeticOperation::Adc,
        0x71 => ArithmeticOperation::Adc,
        0xE9 => ArithmeticOperation::Sbc,
        0xE5 => ArithmeticOperation::Sbc,
        0xF5 => ArithmeticOperation::Sbc,
        0xED => ArithmeticOperation::Sbc,
        0xFD => ArithmeticOperation::Sbc,
        0xF9 => ArithmeticOperation::Sbc,
        0xE1 => ArithmeticOperation::Sbc,
        0xF1 => ArithmeticOperation::Sbc,
        _ => ArithmeticOperation::Adc,
    }
}

/// Every ADC and SBC opcode, started between two instructions, takes its fetch cycle and then
/// `read_cycles` for its operand addressing, and adds the operand at `operand_location` to the accumulator with the carry (SBC: its complement) as `added` describes; memory keeps its bytes, and the
/// processor is otherwise as before but for the program counter, the address register and
/// the cycle counter.
pub proof fn lemma_arithmetic_opcode(cpu: CPU, mem: MemView)
    requires
        cpu.current_instruction is None,
        is_arithmetic_opcode(mem_at(mem, cpu.program_counter)),
        mem.0.len() == MEMORY_SIZE,
        cpu.cycle + 8 < usize::MAX,
    ensures
        ({
            let op = mem_at(mem, cpu.program_counter);
            let mode = arithmetic_opcode_mode(op);
            let c1 = after_fetch(cpu);
            let k = read_cycles(mode, c1, mem);
            let v = mem_at(mem, operand_location(mode, c1, mem) as Word);
            let after = cycles_run(cpu, mem, k + 1);
            &&& after.0.current_instruction is None
            &&& after.1.0 == mem.0
            &&& added(between(cpu, after.0), after.0, arithmetic_opcode_op(op), v)
        }),
{
    let pc = cpu.program_counter;
    let op = mem_at(mem, pc);
    let mode = arithmetic_opcode_mode(op);
    let fetched = CPU {
        sync: true,
        cycle: (cpu.cycle + 1) as usize,
        addr: Address::new_spec(),
        ..cpu.pc_incremented()
    };
    lemma_decode_table(op, fetched);
    let c1 = after_fetch(cpu);
    let m1 = mem_after_read(mem, pc);
    assert(cpu.ticked(mem).0.task_view() == c1);
    assert(cpu.ticked(mem).1 == m1);
    let k = read_cycles(mode, c1, m1);
    lemma_arithmetic_instruction_run(fetched, mode, arithmetic_opcode_op(op), c1, m1);
    lemma_clock_runs_instruction(cpu, mem, k);
    assert(read_cycles(mode, c1, mem) == k);
    assert(operand_location(mode, c1, mem) == operand_location(mode, c1, m1));
    let after = cycles_run(cpu, mem, k + 1);
    let b = between(cpu, after.0);
    let rr1 = run(read_memory_for(fetched.chip_variant, mode), c1, m1, k).1;
    assert(b.processor_status == rr1.processor_status);
    assert forall|f: Flags| #![trigger b.flag(f)] true implies b.flag(f) == rr1.flag(f) by {}
    assert forall|o: Registers| #![trigger b.reg(o)] true implies b.reg(o) == rr1.reg(o) by {}
}

/// Whether `op` is one of the AND, EOR, ORA and BIT opcodes.
pub open spec fn is_logical_opcode(op: Byte) -> bool {
    op == 0x49 || op == 0x45 || op == 0x55 || op == 0x4D || op == 0x5D || op == 0x59 || op == 0x41 || op == 0x51 || op == 0x29 || op == 0x25 || op == 0x35 || op == 0x2D || op == 0x3D || op == 0x39 || op == 0x21 || op == 0x31 || op == 0x09 || op == 0x05 || op == 0x15 || op == 0x0D || op == 0x1D || op == 0x19 || op == 0x01 || op == 0x11 || op == 0x24 || op == 0x2C
}

/// The operand addressing of each AND, EOR, ORA and BIT opcode (`None` for an immediate operand).
pub open spec fn logical_opcode_mode(op: Byte) -> Option<AddressingMode> {
    match op {
        0x49 => None,
        0x45 => Some(AddressingMode::ZeroPage),
        0x55 => Some(AddressingMode::ZeroPageX),
        0x4D => Some(AddressingMode::Absolute),
        0x5D => Some(AddressingMode::AbsoluteX),
        0x59 => Some(AddressingMode::AbsoluteY),
        0x41 => Some(AddressingMode::IndexIndirectX),
        0x51 => Some(AddressingMode::IndirectIndexY),
        0x29 => None,
        0x25 => Some(AddressingMode::ZeroPage),
        0x35 => Some(AddressingMode::ZeroPageX),
        0x2D => Some(AddressingMode::Absolute),
        0x3D => Some(AddressingMode::AbsoluteX),
        0x39 => Some(AddressingMode::AbsoluteY),
        0x21 => Some(AddressingMode::IndexIndirectX),
        0x31 => Some(AddressingMode::IndirectIndexY),
        0x09 => None,
        0x05 => Some(AddressingMode::ZeroPage),
        0x15 => Some(AddressingMode::ZeroPageX),
        0x0D => Some(AddressingMode::Absolute),
        0x1D => Some(AddressingMode::AbsoluteX),
        0x19 => Some(AddressingMode::AbsoluteY),
        0x01 => Some(AddressingMode::IndexIndirectX),
        0x11 => Some(AddressingMode::IndirectIndexY),
        0x24 => Some(AddressingMode::ZeroPage),
        0x2C => Some(AddressingMode::Absolute),
        _ => None,
    }
}

/// What each AND, EOR, ORA and BIT opcode does to its operand.
pub open spec fn logical_opcode_variant(op: Byte) -> LogicalVariant {
    match op {
        0x49 => LogicalVariant::And,
        0x45 => LogicalVariant::And,
        0x55 => LogicalVariant::And,
        0x4D => LogicalVariant::And,
        0x5D => LogicalVariant::And,
        0x59 => LogicalVariant::And,
        0x41 => LogicalVariant::And,
        0x51 => LogicalVariant::And,
        0x29 => LogicalVariant::Eor,
        0x25 => LogicalVariant::Eor,
        0x35 => LogicalVariant::Eor,
        0x2D => LogicalVariant::Eor,
        0x3D => LogicalVariant::Eor,
        0x39 => LogicalVariant::Eor,
        0x21 => LogicalVariant::Eor,
        0x31 => LogicalVariant::Eor,
        0x09 => LogicalVariant::Ora,
        0x05 => LogicalVariant::Ora,
        0x15 => LogicalVariant::Ora,
        0x0D => LogicalVariant::Ora,
        0x1D => LogicalVariant::Ora,
        0x19 => LogicalVariant::Ora,
        0x01 => LogicalVariant::Ora,
        0x11 => LogicalVariant::Ora,
        0x24 => LogicalVariant::Bit,
        0x2C => LogicalVariant::Bit,
        _ => LogicalVariant::And,
    }
}

/// Every AND, EOR, ORA and BIT opcode, started between two instructions, takes its fetch cycle and then
/// `read_cycles` for its operand addressing, and combines the accumulator with the operand at `operand_location` as `logically_combined` describes; memory keeps its bytes, and the
/// processor is otherwise as before but for the program counter, the address register and
/// the cycle counter.
pub proof fn lemma_logical_opcode(cpu: CPU, mem: MemView)
    requires
        cpu.current_instruction is None,
        is_logical_opcode(mem_at(mem, cpu.program_counter)),
        mem.0.len() == MEMORY_SIZE,
        cpu.cycle + 8 < usize::MAX,
    ensures
        ({
            let op = mem_at(mem, cpu.program_counter);
            let mode = logical_opcode_mode(op);
            let c1 = after_fetch(cpu);
            let k = read_cycles(mode, c1, mem);
            let v = mem_at(mem, operand_location(mode, c1, mem) as Word);
            let after = cycles_run(cpu, mem, k + 1);
            &&& after.0.current_instruction is None
            &&& after.1.0 == mem.0
            &&& logically_combined(between(cpu, after.0), after.0, logical_opcode_variant(op), v)
        }),
{
    let pc = cpu.program_counter;
    let op = mem_at(mem, pc);
    let mode = logical_opcode_mode(op);
    let fetched = CPU {
        sync: true,
        cycle: (cpu.cycle + 1) as usize,
        addr: Address::new_spec(),
        ..cpu.pc_incremented()
    };
    lemma_decode_table(op, fetched);
    let c1 = after_fetch(cpu);
    let m1 = mem_after_read(mem, pc);
    assert(cpu.ticked(mem).0.task_view() == c1);
    assert(cpu.ticked(mem).1 == m1);
    let k = read_cycles(mode, c1, m1);
    lemma_logical_instruction_run(fetched, mode, logical_opcode_variant(op), c1, m1);
    lemma_clock_runs_instruction(cpu, mem, k);
    assert(read_cycles(mode, c1, mem) == k);
    assert(operand_location(mode, c1, mem) == operand_location(mode, c1, m1));
    let after = cycles_run(cpu, mem, k + 1);
    let b = between(cpu, after.0);
    let rr1 = run(read_memory_for(fetched.chip_variant, mode), c1, m1, k).1;
    assert(b.processor_status == rr1.processor_status);
    assert forall|f: Flags| #![trigger b.flag(f)] true implies b.flag(f) == rr1.flag(f) by {}
    assert forall|o: Registers| #![trigger b.reg(o)] true implies b.reg(o) == rr1.reg(o) by {}
}

/// Whether `op` is one of the CMP, CPX and CPY opcodes.
pub open spec fn is_compare_opcode(op: Byte) -> bool {
    op == 0xC9 || op == 0xC5 || op == 0xD5 || op == 0xCD || op == 0xDD || op == 0xD9 || op == 0xC1 || op == 0xD1 || op == 0xE0 || op == 0xE4 || op == 0xEC || op == 0xC0 || op == 0xC4 || op == 0xCC
}

/// The operand addressing of each CMP, CPX and CPY opcode (`None` for an immediate operand).
pub open spec fn compare_opcode_mode(op: Byte) -> Option<AddressingMode> {
    match op {
        0xC9 => None,
        0xC5 => Some(AddressingMode::ZeroPage),
        0xD5 => Some(AddressingMode::ZeroPageX),
        0xCD => Some(AddressingMode::Absolute),
        0xDD => Some(AddressingMode::AbsoluteX),
        0xD9 => Some(AddressingMode::AbsoluteY),
        0xC1 => Some(AddressingMode::IndexIndirectX),
        0xD1 => Some(AddressingMode::IndirectIndexY),
        0xE0 => None,
        0xE4 => Some(AddressingMode::ZeroPage),
        0xEC => Some(AddressingMode::Absolute),
        0xC0 => None,
        0xC4 => Some(AddressingMode::ZeroPage),
        0xCC => Some(AddressingMode::Absolute),
        _ => None,
    }
}

/// What each CMP, CPX and CPY opcode does to its operand.
pub open spec fn compare_opcode_register(op: Byte) -> Registers {
    match op {
        0xC9 => Registers::Accumulator,
        0xC5 => Registers::Accumulator,
        0xD5 => Registers::Accumulator,
        0xCD => Registers::Accumulator,
        0xDD => Registers::Accumulator,
        0xD9 => Registers::Accumulator,
        0xC1 => Registers::Accumulator,
        0xD1 => Registers::Accumulator,
        0xE0 => Registers::IndexX,
        0xE4 => Registers::IndexX,
        0xEC => Registers::IndexX,
        0xC0 => Registers::IndexY,
        0xC4 => Registers::IndexY,
        0xCC => Registers::IndexY,
        _ => Registers::Accumulator,
    }
}

/// Every CMP, CPX and CPY opcode, started between two instructions, takes its fetch cycle and then
/// `read_cycles` for its operand addressing, and compares the register the opcode names with the operand at `operand_location` as `compared` describes; memory keeps its bytes, and the
/// processor is otherwise as before but for the program counter, the address register and
/// the cycle counter.
pub proof fn lemma_compare_opcode(cpu: CPU, mem: MemView)
    requires
        cpu.current_instruction is None,
        is_compare_opcode(mem_at(mem, cpu.program_counter)),
        mem.0.len() == MEMORY_SIZE,
        cpu.cycle + 8 < usize::MAX,
    ensures
        ({
            let op = mem_at(mem, cpu.program_counter);
            let mode = compare_opcode_mode(op);
            let c1 = after_fetch(cpu);
            let k = read_cycles(mode, c1, mem);
            let v = mem_at(mem, operand_location(mode, c1, mem) as Word);
            let after = cycles_run(cpu, mem, k + 1);
            &&& after.0.current_instruction is None
            &&& after.1.0 == mem.0
            &&& compared(between(cpu, after.0), after.0, compare_opcode_register(op), v)
        }),
{
    let pc = cpu.program_counter;
    let op = mem_at(mem, pc);
    let mode = compare_opcode_mode(op);
    let fetched = CPU {
        sync: true,
        cycle: (cpu.cycle + 1) as usize,
        addr: Address::new_spec(),
        ..cpu.pc_incremented()
    };
    lemma_decode_table(op, fetched);
    let c1 = after_fetch(cpu);
    let m1 = mem_after_read(mem, pc);
    assert(cpu.ticked(mem).0.task_view() == c1);
    assert(cpu.ticked(mem).1 == m1);
    let k = read_cycles(mode, c1, m1);
    lemma_compare_instruction_run(fetched, mode, compare_opcode_register(op), c1, m1);
    lemma_clock_runs_instruction(cpu, mem, k);
    assert(read_cycles(mode, c1, mem) == k);
    assert(operand_location(mode, c1, mem) == operand_location(mode, c1, m1));
    let after = cycles_run(cpu, mem, k + 1);
    let b = between(cpu, after.0);
    let rr1 = run(read_memory_for(fetched.chip_variant, mode), c1, m1, k).1;
    assert(b.processor_status == rr1.processor_status);
    assert forall|f: Flags| #![trigger b.flag(f)] true implies b.flag(f) == rr1.flag(f) by {}
    assert forall|o: Registers| #![trigger b.reg(o)] true implies b.reg(o) == rr1.reg(o) by {}
}

/// Whether `op` is one of the LDA, LDX and LDY opcodes.
pub open spec fn is_load_opcode(op: Byte) -> bool {
    op == 0xA9 || op == 0xA5 || op == 0xB5 || op == 0xAD || op == 0xBD || op == 0xB9 || op == 0xA1 || op == 0xB1 || op == 0xA0 || op == 0xA4 || op == 0xB4 || op == 0xAC || op == 0xBC || op == 0xA2 || op == 0xA6 || op == 0xB6 || op == 0xAE || op == 0xBE
}

/// The operand addressing of each LDA, LDX and LDY opcode (`None` for an immediate operand).
pub open spec fn load_opcode_mode(op: Byte) -> Option<AddressingMode> {
    match op {
        0xA9 => None,
        0xA5 => Some(AddressingMode::ZeroPage),
        0xB5 => Some(AddressingMode::ZeroPageX),
        0xAD => Some(AddressingMode::Absolute),
        0xBD => Some(AddressingMode::AbsoluteX),
        0xB9 => Some(AddressingMode::AbsoluteY),
        0xA1 => Some(AddressingMode::IndexIndirectX),
        0xB1 => Some(AddressingMode::IndirectIndexY),
        0xA0 => None,
        0xA4 => Some(AddressingMode::ZeroPage),
        0xB4 => Some(AddressingMode::ZeroPageX),
        0xAC => Some(AddressingMode::Absolute),
        0xBC => Some(AddressingMode::AbsoluteX),
        0xA2 => None,
        0xA6 => Some(AddressingMode::ZeroPage),
        0xB6 => Some(AddressingMode::ZeroPageY),
        0xAE => Some(AddressingMode::Absolute),
        0xBE => Some(AddressingMode::AbsoluteY),
        _ => None,
    }
}

/// What each LDA, LDX and LDY opcode does to its operand.
pub open spec fn load_opcode_register(op: Byte) -> Registers {
    match op {
        0xA9 => Registers::Accumulator,
        0xA5 => Registers::Accumulator,
        0xB5 => Registers::Accumulator,
        0xAD => Registers::Accumulator,
        0xBD => Registers::Accumulator,
        0xB9 => Registers::Accumulator,
        0xA1 => Registers::Accumulator,
        0xB1 => Registers::Accumulator,
        0xA0 => Registers::IndexY,
        0xA4 => Registers::IndexY,
        0xB4 => Registers::IndexY,
        0xAC => Registers::IndexY,
        0xBC => Registers::IndexY,
        0xA2 => Registers::IndexX,
        0xA6 => Registers::IndexX,
        0xB6 => Registers::IndexX,
        0xAE => Registers::IndexX,
        0xBE => Registers::IndexX,
        _ => Registers::Accumulator,
    }
}

/// Every LDA, LDX and LDY opcode, started between two instructions, takes its fetch cycle and then
/// `read_cycles` for its operand addressing, and loads the operand at `operand_location` into the register the opcode names as `loaded` describes; memory keeps its bytes, and the
/// processor is otherwise as before but for the program counter, the address register and
/// the cycle counter.
pub proof fn lemma_load_opcode(cpu: CPU, mem: MemView)
    requires
        cpu.current_instruction is None,
        is_load_opcode(mem_at(mem, cpu.program_counter)),
        mem.0.len() == MEMORY_SIZE,
        cpu.cycle + 8 < usize::MAX,
    ensures
        ({
            let op = mem_at(mem, cpu.program_counter);
            let mode = load_opcode_mode(op);
            let c1 = after_fetch(cpu);
            let k = read_cycles(mode, c1, mem);
            let v = mem_at(mem, operand_location(mode, c1, mem) as Word);
            let after = cycles_run(cpu, mem, k + 1);
            &&& after.0.current_instruction is None
            &&& after.1.0 == mem.0
            &&& loaded(between(cpu, after.0), after.0, load_opcode_register(op), v)
        }),
{
    let pc = cpu.program_counter;
    let op = mem_at(mem, pc);
    let mode = load_opcode_mode(op);
    let fetched = CPU {
        sync: true,
        cycle: (cpu.cycle + 1) as usize,
        addr: Address::new_spec(),
        ..cpu.pc_incremented()
    };
    lemma_decode_table(op, fetched);
    let c1 = after_fetch(cpu);
    let m1 = mem_after_read(mem, pc);
    assert(cpu.ticked(mem).0.task_view() == c1);
    assert(cpu.ticked(mem).1 == m1);
    let k = read_cycles(mode, c1, m1);
    lemma_load_instruction_run(fetched, mode, load_opcode_register(op), c1, m1);
    lemma_clock_runs_instruction(cpu, mem, k);
    assert(read_cycles(mode, c1, mem) == k);
    assert(operand_location(mode, c1, mem) == operand_location(mode, c1, m1));
    let after = cycles_run(cpu, mem, k + 1);
    let b = between(cpu, after.0);
    let rr1 = run(read_memory_for(fetched.chip_variant, mode), c1, m1, k).1;
    assert(b.processor_status == rr1.processor_status);
    assert forall|f: Flags| #![trigger b.flag(f)] true implies b.flag(f) == rr1.flag(f) by {}
    assert forall|o: Registers| #![trigger b.reg(o)] true implies b.reg(o) == rr1.reg(o) by {}
}

/// `JSR`, as the handler builds it, runs in five cycles: it pushes the address of its
/// operand's last byte, high byte first, and continues at the operand; nothing else changes.
pub proof fn lemma_jsr_handler(cpu: CPU, mem: MemView)
    requires
        mem.0.len() == MEMORY_SIZE,
        cpu.cycle + 5 < usize::MAX,
    ensures
        ({
            let j = run(jsr_instruction(), cpu, mem, 5);
            let pc = cpu.program_counter;
            let ret = add16(pc, 1);
            &&& j.0.is_done()
            &&& j.1.cycle == cpu.cycle + 5
            &&& j.1.stack_pointer == sub8(cpu.stack_pointer, 2)
            &&& j.2.0 == mem.0.update(cpu.stack_address() as int, spec_hi(ret)).update(
                cpu.with_stack_pointer(sub8(cpu.stack_pointer, 1)).stack_address() as int,
                spec_lo(ret),
            )
            &&& j.1.program_counter == spec_word(mem_at(mem, pc), mem_at(j.2, ret))
            &&& j.1 == (CPU {
                cycle: j.1.cycle,
                stack_pointer: j.1.stack_pointer,
                program_counter: j.1.program_counter,
                ..cpu
            })
        }),
{
    lemma_jsr_call(cpu, mem);
    lemma_run_jsr(JsrTasks::fresh(), cpu, mem, 5);
}

/// `RTS`, as the handler builds it, runs in five cycles: it pulls an address, low byte
/// first, and continues one byte after it; nothing else changes but the stack pointer.
pub proof fn lemma_rts_handler(cpu: CPU, mem: MemView)
    requires
        mem.0.len() == MEMORY_SIZE,
        cpu.cycle + 5 < usize::MAX,
    ensures
        ({
            let r = run(rts_instruction(), cpu, mem, 5);
            let lo_at = cpu.with_stack_pointer(add8(cpu.stack_pointer, 1)).stack_address();
            let hi_at = cpu.with_stack_pointer(add8(cpu.stack_pointer, 2)).stack_address();
            &&& r.0.is_done()
            &&& r.1.cycle == cpu.cycle + 5
            &&& r.1.stack_pointer == add8(cpu.stack_pointer, 2)
            &&& r.2.0 == mem.0
            &&& r.1.program_counter == add16(spec_word(mem_at(mem, lo_at), mem_at(mem, hi_at)), 1)
            &&& r.1 == (CPU {
                cycle: r.1.cycle,
                stack_pointer: r.1.stack_pointer,
                program_counter: r.1.program_counter,
                ..cpu
            })
        }),
{
    lemma_rts_return(cpu, mem);
    lemma_run_rts(RtsTasks::fresh(), cpu, mem, 5);
}

/// `BRK`, as the handler builds it, runs in six cycles: it pushes the address after the
/// byte that follows it (high byte first) and the status with the break bit set, disables
/// interrupts and continues at the address stored at `$FFFE`/`$FFFF`.
pub proof fn lemma_brk_handler(cpu: CPU, mem: MemView)
    requires
        mem.0.len() == MEMORY_SIZE,
        cpu.cycle + 6 < usize::MAX,
    ensures
        ({
            let b = run(brk_instruction(), cpu, mem, 6);
            let sp = cpu.stack_pointer;
            let ret = add16(cpu.program_counter, 1);
            &&& b.0.is_done()
            &&& b.1.cycle == cpu.cycle + 6
            &&& b.1.stack_pointer == sub8(sp, 3)
            &&& mem_at(b.2, cpu.stack_address()) == spec_hi(ret)
            &&& mem_at(b.2, cpu.with_stack_pointer(sub8(sp, 1)).stack_address()) == spec_lo(ret)
            &&& mem_at(b.2, cpu.with_stack_pointer(sub8(sp, 2)).stack_address())
                == cpu.processor_status@ | 0x10
            &&& b.1.program_counter == spec_word(
                mem_at(mem, BRK_INTERRUPT_VECTOR),
                mem_at(mem, 0xFFFF),
            )
            &&& b.1.flag(Flags::InterruptDisable)
        }),
{
    lemma_brk_interrupt(cpu, mem);
    lemma_run_brk(BrkTasks::fresh(), cpu, mem, 6);
}

/// `RTI`, as the handler builds it, runs in five cycles: it pulls the status (break bit
/// cleared) and then an address, low byte first, and continues at that address.
pub proof fn lemma_rti_handler(cpu: CPU, mem: MemView)
    requires
        mem.0.len() == MEMORY_SIZE,
        cpu.cycle + 5 < usize::MAX,
    ensures
        ({
            let r = run(rti_instruction(), cpu, mem, 5);
            let sp = cpu.stack_pointer;
            let ps_at = cpu.with_stack_pointer(add8(sp, 1)).stack_address();
            let lo_at = cpu.with_stack_pointer(add8(sp, 2)).stack_address();
            let hi_at = cpu.with_stack_pointer(add8(sp, 3)).stack_address();
            &&& r.0.is_done()
            &&& r.1.cycle == cpu.cycle + 5
            &&& r.1.stack_pointer == add8(sp, 3)
            &&& r.2.0 == mem.0
            &&& r.1.processor_status@ == mem_at(mem, ps_at) & 0b11101111
            &&& r.1.program_counter == spec_word(mem_at(mem, lo_at), mem_at(mem, hi_at))
            &&& r.1 == (CPU {
                cycle: r.1.cycle,
                stack_pointer: r.1.stack_pointer,
                program_counter: r.1.program_counter,
                processor_status: r.1.processor_status,
                ..cpu
            })
        }),
{
    lemma_rti_return(cpu, mem);
    lemma_run_rti(RtiTasks::fresh(), cpu, mem, 5);
}

/// `PHA`/`PHP` followed by `PLA`/`PLP`, as the handlers build them, for the same register:
/// the stack pointer is restored and the register gets its value back (the accumulator and
/// index registers with zero and negative describing it), in five cycles; the pushed byte
/// stays in the stack page.
pub proof fn lemma_push_pull_handler(register: Registers, cpu: CPU, mem: MemView)
    requires
        mem.0.len() == MEMORY_SIZE,
        cpu.cycle + 5 < usize::MAX,
        register != Registers::StackPointer,
    ensures
        ({
            let p = run(push_instruction(register), cpu, mem, 2);
            let q = run(pull_instruction(register), p.1, p.2, 3);
            &&& p.0.is_done() && q.0.is_done()
            &&& q.1 == CPU {
                cycle: (cpu.cycle + 5) as usize,
                ..cpu.with_register(register, cpu.reg(register))
            }
            &&& q.2.0 == mem.0.update(cpu.stack_address() as int, cpu.reg(register))
        }),
{
    lemma_push_then_pull(register, cpu, mem);
    let p = run(PushRegisterTasks::fresh(register), cpu, mem, 2);
    lemma_run_push_register(PushRegisterTasks::fresh(register), cpu, mem, 2);
    lemma_run_pull_register(PullRegisterTasks::fresh(register), p.1, p.2, 3);
}

/// A jump runs in step with its addressing: if the addressing takes exactly `k` cycles, the
/// jump ends with it, the program counter set to the address the addressing found.
proof fn lemma_jmp_follows_addressing(a: AnyAddressingTasks, cpu: CPU, mem: MemView, k: nat)
    requires
        !a.is_done(),
        a.can_tick(cpu.addr),
        mem.0.len() == MEMORY_SIZE,
        0 < k,
        run(a, cpu, mem, k).0.is_done(),
        !run(a, cpu, mem, (k - 1) as nat).0.is_done(),
    ensures
        ({
            let ar = run(a, cpu, mem, k);
            let r = run(JmpTasks::fresh(a), cpu, mem, k);
            &&& r.0.is_done()
            &&& r.1 == ar.1.with_pc(ar.1.addr.val->0)
            &&& r.2 == ar.2
        }),
    decreases k,
{
    a.lemma_next(cpu, mem);
    let t = JmpTasks::fresh(a);
    t.lemma_next_is_step(cpu, mem);
    let n = a.next(cpu, mem);
    lemma_run_step(a, cpu, mem, k);
    lemma_run_step(t, cpu, mem, k);
    let s1 = stepped(a, cpu, mem);
    let j1 = stepped(t, cpu, mem);
    if n.3 {
        lemma_run_done(s1.0, s1.1, s1.2, (k - 1) as nat);
        if k > 1 {
            lemma_run_step(a, cpu, mem, (k - 1) as nat);
            lemma_run_done(s1.0, s1.1, s1.2, (k - 2) as nat);
        }
        assert(k == 1);
        assert(run(j1.0, j1.1, j1.2, 0) == j1);
    } else {
        if k == 1 {
            assert(run(s1.0, s1.1, s1.2, 0) == s1);
        }
        lemma_run_step(a, cpu, mem, (k - 1) as nat);
        assert(j1.0 == JmpTasks::fresh(s1.0));
        lemma_jmp_follows_addressing(s1.0, s1.1, s1.2, (k - 1) as nat);
    }
}

/// `JMP abs`, as the handler builds it, takes two cycles and continues at the word
/// `b0 + 256 * b1` formed by the two bytes after the opcode; no register, flag or byte of
/// memory changes.
pub proof fn lemma_jmp_absolute_handler(cpu: CPU, mem: MemView)
    requires
        mem.0.len() == MEMORY_SIZE,
        cpu.cycle + 5 < usize::MAX,
    ensures
        ({
            let pc = cpu.program_counter;
            let r = run(jmp_absolute_instruction(), cpu, mem, 2);
            &&& r.0.is_done()
            &&& r.1.program_counter as int == mem_at(mem, pc) + 256 * mem_at(mem, add16(pc, 1))
            &&& r.1 == (CPU {
                addr: r.1.addr,
                program_counter: r.1.program_counter,
                cycle: r.1.cycle,
                ..cpu
            })
            &&& r.2.0 == mem.0
        }),
{
    let a = addressing_tasks_for(cpu.chip_variant, AddressingMode::Absolute, AccessVariant::Read);
    lemma_mode_addressing(cpu.chip_variant, AddressingMode::Absolute, AccessVariant::Read, cpu, mem);
    lemma_jmp_follows_addressing(a, cpu, mem, 2);
    lemma_run_jmp(JmpTasks::fresh(a), cpu, mem, 2);
}

/// Where `JMP (ptr)` reads the high byte of its target: NMOS parts stay in the pointer's
/// page (after a low byte at `$xxFF` they read `$xx00`); CMOS parts read the next address.
pub open spec fn jump_pointer_hi(ptr: int, chip: ChipVariant) -> int {
    if chip == ChipVariant::NMOS {
        ptr - ptr % 256 + (ptr + 1) % 256
    } else {
        (ptr + 1) % 65536
    }
}

/// `JMP (ptr)`, as the handler builds it for a chip variant, continues at the word stored
/// at the pointer `ptr` formed by the two bytes after the opcode, its high byte read from
/// `jump_pointer_hi`; it takes four cycles on NMOS parts and five on CMOS parts, and
/// changes no byte of memory.
#[verifier::rlimit(80)]
#[verifier::spinoff_prover]
pub proof fn lemma_jmp_indirect_handler(cpu: CPU, mem: MemView)
    requires
        mem.0.len() == MEMORY_SIZE,
        cpu.cycle + 5 < usize::MAX,
    ensures
        ({
            let pc = cpu.program_counter;
            let ptr = mem_at(mem, pc) + 256 * mem_at(mem, add16(pc, 1));
            let k: nat = if cpu.chip_variant == ChipVariant::NMOS {
                4
            } else {
                5
            };
            let r = run(jmp_indirect_instruction(cpu.chip_variant), cpu, mem, k);
            &&& r.0.is_done()
            &&& r.1.program_counter as int == mem_at(mem, ptr as Word) + 256 * mem_at(
                mem,
                jump_pointer_hi(ptr, cpu.chip_variant) as Word,
            )
            &&& r.2.0 == mem.0
        }),
{
    let fixed = cpu.chip_variant != ChipVariant::NMOS;
    let it = IndirectAddressingTasks::fresh(fixed);
    let a = AnyAddressingTasks::Indirect(it);
    lemma_indirect(fixed, cpu, mem);
    lemma_run_any_indirect(it, cpu, mem, 5);
    lemma_run_exact(a, cpu, mem, 5);
    let k: nat = if fixed {
        5
    } else {
        4
    };
    lemma_run_any_indirect(it, cpu, mem, k);
    lemma_jmp_follows_addressing(a, cpu, mem, k);
    lemma_run_jmp(JmpTasks::fresh(a), cpu, mem, k);
    let pc = cpu.program_counter;
    let ptr = spec_word(mem_at(mem, pc), mem_at(mem, add16(pc, 1)));
    crate::consts::lemma_word_parts(mem_at(mem, pc), mem_at(mem, add16(pc, 1)));
    let hl = pointer_hi_location(ptr, fixed);
    assert(hl as int == jump_pointer_hi(ptr as int, cpu.chip_variant));
}

} // verus!
