use crate::consts::{
    spec_hi, spec_lo, spec_word, word_from_le_bytes, word_hi, word_lo, Byte, Word, RESET_VECTOR,
    STACK_PAGE_HI,
};
use crate::cpu::addressing::absolute::AccessVariant;
use crate::cpu::addressing::address::Address;
use crate::cpu::addressing::{
    addressing_tasks_for, get_addressing_tasks, has_addressing_tasks, AddressingMode,
};
use crate::cpu::tasks::read_memory::{
    AddressingReadMemoryTasks, AnyReadMemoryTasks, ImmediateReadMemoryTasks,
};
use crate::cpu::tasks::{lemma_run_done, lemma_run_step, run, stepped, Tasks};
use crate::cpu::instructions::{
    decode, decoded, lemma_decoded_ready, lemma_remaining_bound, opcode_name, InstructionTasks,
};
use crate::cpu::processor_status::{Flags, ProcessorStatus};
use crate::memory::{mem_after_read, mem_after_write, mem_at, Generic64kMem, MemView, Memory, MEMORY_SIZE};
use vstd::prelude::*;

pub mod addressing;
pub mod debugger;
pub mod instruction_laws;
pub mod instructions;
pub mod processor_status;
pub mod tasks;
pub mod utils;

verus! {

/// The member of the 6502 family being emulated.
#[derive(Copy, Clone, Debug, PartialEq, Eq, Structural)]
pub enum ChipVariant {
    NMOS,
    RockwellCMOS,
    WDCCMOS,
}

/// The processor's registers that instructions name.
#[derive(Copy, Clone, Debug, PartialEq, Eq, Structural)]
pub enum Registers {
    StackPointer,
    ProcessorStatus,
    Accumulator,
    IndexX,
    IndexY,
}

/// An instruction being executed: where it was fetched, what it is, and its remaining work.
pub struct InstructionExecution {
    pub addr: Word,
    pub opcode: Byte,
    pub name: &'static str,
    pub starting_cycle: usize,
    pub tasks: InstructionTasks,
}

/// The processor state.
pub struct CPU {
    pub chip_variant: ChipVariant,
    pub current_instruction: Option<InstructionExecution>,
    pub cycle: usize,
    pub program_counter: Word,
    pub stack_pointer: Byte,
    pub accumulator: Byte,
    pub index_register_x: Byte,
    pub index_register_y: Byte,
    pub processor_status: ProcessorStatus,
    pub sync: bool,
    pub addr: Address,
}

/// No instruction runs for more cycles than this, opcode fetch included.
pub const INSTRUCTION_CYCLE_BOUND: usize = 16;

/// Whether the sign bit (bit 7) of a byte is set.
pub open spec fn is_negative(v: Byte) -> bool {
    v >= 0x80
}

/// `a + b` modulo 256.
pub open spec fn add8(a: Byte, b: Byte) -> Byte {
    ((a as int + b as int) % 256) as Byte
}

/// `a - b` modulo 256.
pub open spec fn sub8(a: Byte, b: Byte) -> Byte {
    ((a as int - b as int + 256) % 256) as Byte
}

/// `a + b` modulo 65536.
pub open spec fn add16(a: Word, b: Word) -> Word {
    ((a as int + b as int) % 65536) as Word
}

/// `a - b` modulo 65536.
pub open spec fn sub16(a: Word, b: Word) -> Word {
    ((a as int - b as int + 65536) % 65536) as Word
}

pub proof fn lemma_sign_bit(v: Byte)
    ensures
        ((v & 0b1000_0000) > 1) == is_negative(v),
        ((v & 0b1000_0000) > 0) == is_negative(v),
{
    assert(((v & 0b1000_0000) > 1) == (v >= 0x80)) by (bit_vector);
    assert(((v & 0b1000_0000) > 0) == (v >= 0x80)) by (bit_vector);
}

/// Whether the operand is read in the cycle that finishes addressing.
pub open spec fn operand_read_during_addressing(mode: AddressingMode) -> bool {
    mode == AddressingMode::AbsoluteX || mode == AddressingMode::AbsoluteY || mode
        == AddressingMode::IndirectIndexY
}

fn access_cycle_has_been_done_during_addressing(addr_mode: AddressingMode) -> (r: bool)
    ensures
        r == operand_read_during_addressing(addr_mode),
{
    addr_mode == AddressingMode::AbsoluteX || addr_mode == AddressingMode::AbsoluteY || addr_mode
        == AddressingMode::IndirectIndexY
}

/// The operand read `read_memory` builds.
pub open spec fn read_memory_for(
    chip_variant: ChipVariant,
    addr_mode: Option<AddressingMode>,
) -> AnyReadMemoryTasks {
    match addr_mode {
        Some(mode) => AnyReadMemoryTasks::Addressing(
            AddressingReadMemoryTasks::fresh(
                addressing_tasks_for(chip_variant, mode, AccessVariant::Read),
                operand_read_during_addressing(mode),
            ),
        ),
        None => AnyReadMemoryTasks::Immediate(ImmediateReadMemoryTasks::fresh()),
    }
}

/// The processor and memory after `n` clock cycles.
pub open spec fn cycles_run(cpu: CPU, mem: MemView, n: nat) -> (CPU, MemView)
    decreases n,
{
    if n == 0 {
        (cpu, mem)
    } else {
        let p = cycles_run(cpu, mem, (n - 1) as nat);
        p.0.ticked(p.1)
    }
}

/// Running `a` cycles and then `b` more is running `a + b` cycles.
pub proof fn lemma_cycles_run_add(cpu: CPU, mem: MemView, a: nat, b: nat)
    ensures
        cycles_run(cycles_run(cpu, mem, a).0, cycles_run(cpu, mem, a).1, b) == cycles_run(
            cpu,
            mem,
            a + b,
        ),
    decreases b,
{
    if b > 0 {
        lemma_cycles_run_add(cpu, mem, a, (b - 1) as nat);
    }
}

/// A clock cycle does not depend on which access the memory saw last.
pub proof fn lemma_ticked_ignores_last_access(cpu: CPU, m1: MemView, m2: MemView)
    requires
        m1.0 == m2.0,
    ensures
        cpu.ticked(m1).0 == cpu.ticked(m2).0,
        cpu.ticked(m1).1.0 == cpu.ticked(m2).1.0,
{
    match cpu.current_instruction {
        Some(ie) => ie.tasks.lemma_next_ignores_last_access(cpu.task_view(), m1, m2),
        None => {},
    }
}

/// Running cycles does not depend on which access the memory saw last.
pub proof fn lemma_cycles_run_ignores_last_access(cpu: CPU, m1: MemView, m2: MemView, n: nat)
    requires
        m1.0 == m2.0,
    ensures
        cycles_run(cpu, m1, n).0 == cycles_run(cpu, m2, n).0,
        cycles_run(cpu, m1, n).1.0 == cycles_run(cpu, m2, n).1.0,
    decreases n,
{
    if n > 0 {
        lemma_cycles_run_ignores_last_access(cpu, m1, m2, (n - 1) as nat);
        let p1 = cycles_run(cpu, m1, (n - 1) as nat);
        let p2 = cycles_run(cpu, m2, (n - 1) as nat);
        lemma_ticked_ignores_last_access(p1.0, p1.1, p2.1);
    }
}

/// Each cycle advances the cycle counter by one while it has room.
pub proof fn lemma_cycles_run_counts(cpu: CPU, mem: MemView, n: nat)
    requires
        cpu.cycle + n < usize::MAX,
    ensures
        forall|j: nat| j <= n ==> (#[trigger] cycles_run(cpu, mem, j)).0.cycle == cpu.cycle + j,
    decreases n,
{
    if n > 0 {
        lemma_cycles_run_counts(cpu, mem, (n - 1) as nat);
        assert forall|j: nat| j <= n implies (#[trigger] cycles_run(cpu, mem, j)).0.cycle
            == cpu.cycle + j by {
            if j == n {
                assert(cycles_run(cpu, mem, (n - 1) as nat).0.cycle == cpu.cycle + n - 1);
            }
        }
    }
}

/// From `(cpu, mem)`, `m` cycles reach the processor `after` and the memory contents of
/// `after_mem` at an instruction boundary, with no boundary before.
pub open spec fn instruction_took(
    cpu: CPU,
    mem: MemView,
    after: CPU,
    after_mem: MemView,
    m: nat,
) -> bool {
    &&& 1 <= m <= INSTRUCTION_CYCLE_BOUND
    &&& after == cycles_run(cpu, mem, m).0
    &&& after_mem.0 == cycles_run(cpu, mem, m).1.0
    &&& after.cycle == cpu.cycle + m
    &&& forall|j: nat| 0 < j < m ==> (#[trigger] cycles_run(cpu, mem, j)).0.current_instruction is Some
}

/// One instruction (the one under way, or the next one) ran from `(cpu, mem)` to
/// `(after, after_mem)`.
pub open spec fn instruction_ran(cpu: CPU, mem: MemView, after: CPU, after_mem: MemView) -> bool {
    exists|m: nat| instruction_took(cpu, mem, after, after_mem, m)
}

/// Within `n` cycles the processor reaches an instruction boundary with the break flag
/// set; every opcode fetched before is one it implements, and the cycle counter has room.
pub open spec fn breaks_within(cpu: CPU, mem: MemView, n: nat) -> bool {
    &&& cycles_run(cpu, mem, n).0.current_instruction is None
    &&& cycles_run(cpu, mem, n).0.flag(Flags::Break)
    &&& cpu.cycle + n + INSTRUCTION_CYCLE_BOUND < usize::MAX
    &&& forall|j: nat|
        j < n && (#[trigger] cycles_run(cpu, mem, j)).0.current_instruction is None ==> opcode_name(
            mem_at(cycles_run(cpu, mem, j).1, cycles_run(cpu, mem, j).0.program_counter),
        ) is Some
}

/// `after` and the contents of `after_mem` are those some cycles after `(cpu, mem)`: at the
/// first instruction boundary (or the start) where the break flag is set.
pub open spec fn stopped_at_first_break(
    cpu: CPU,
    mem: MemView,
    after: CPU,
    after_mem: MemView,
) -> bool {
    exists|k: nat|
        {
            &&& after == cycles_run(cpu, mem, k).0
            &&& after_mem.0 == cycles_run(cpu, mem, k).1.0
            &&& (k > 0 ==> after.current_instruction is None)
            &&& forall|j: nat|
                j < k && (j == 0 || (#[trigger] cycles_run(cpu, mem, j)).0.current_instruction is None)
                    ==> !cycles_run(cpu, mem, j).0.flag(Flags::Break)
        }
}

/// One pass of `execute_until_break`: from the boundary (or start) `k`, where the break
/// flag is clear, one instruction reaches the next boundary, no later than the boundary `n`.
#[verifier::rlimit(40)]
pub proof fn lemma_break_loop_step(
    start: CPU,
    start_mem: MemView,
    n: nat,
    k: nat,
    m: nat,
    here: CPU,
    here_mem: MemView,
    after: CPU,
    after_mem: MemView,
)
    requires
        breaks_within(start, start_mem, n),
        k < n,
        here == cycles_run(start, start_mem, k).0,
        here_mem.0 == cycles_run(start, start_mem, k).1.0,
        !here.flag(Flags::Break),
        instruction_took(here, here_mem, after, after_mem, m),
        forall|j: nat|
            j < k && (j == 0 || (#[trigger] cycles_run(start, start_mem, j)).0.current_instruction is None)
                ==> !cycles_run(start, start_mem, j).0.flag(Flags::Break),
    ensures
        after == cycles_run(start, start_mem, k + m).0,
        after_mem.0 == cycles_run(start, start_mem, k + m).1.0,
        k + m <= n,
        forall|j: nat|
            j < k + m && (j == 0 || (#[trigger] cycles_run(start, start_mem, j)).0.current_instruction is None)
                ==> !cycles_run(start, start_mem, j).0.flag(Flags::Break),
{
    let canon = cycles_run(start, start_mem, k);
    lemma_cycles_run_add(start, start_mem, k, m);
    lemma_cycles_run_ignores_last_access(here, here_mem, canon.1, m);
    assert(canon.0 == here);
    assert(cycles_run(here, canon.1, m) == cycles_run(start, start_mem, k + m));
    assert(after == cycles_run(here, here_mem, m).0);
    assert forall|j: nat| k < j < k + m implies (#[trigger] cycles_run(
        start,
        start_mem,
        j,
    )).0.current_instruction is Some by {
        lemma_cycles_run_add(start, start_mem, k, (j - k) as nat);
        lemma_cycles_run_ignores_last_access(here, here_mem, canon.1, (j - k) as nat);
        assert(cycles_run(here, here_mem, (j - k) as nat).0.current_instruction is Some);
    }
    if n < k + m {
        assert(cycles_run(start, start_mem, n).0.current_instruction is Some);
    }
}

impl CPU {
    /// Value of a register.
    pub open spec fn reg(self, register: Registers) -> Byte {
        match register {
            Registers::Accumulator => self.accumulator,
            Registers::IndexX => self.index_register_x,
            Registers::IndexY => self.index_register_y,
            Registers::ProcessorStatus => self.processor_status@,
            Registers::StackPointer => self.stack_pointer,
        }
    }

    /// The status flag `flag`.
    pub open spec fn flag(self, flag: Flags) -> bool {
        self.processor_status.flag(flag)
    }

    pub open spec fn with_pc(self, pc: Word) -> CPU {
        CPU { program_counter: pc, ..self }
    }

    /// The processor with its program counter advanced by one, wrapping at 0xFFFF.
    pub open spec fn pc_incremented(self) -> CPU {
        self.with_pc(add16(self.program_counter, 1))
    }

    pub open spec fn with_addr(self, addr: Address) -> CPU {
        CPU { addr, ..self }
    }

    pub open spec fn with_status(self, status: ProcessorStatus) -> CPU {
        CPU { processor_status: status, ..self }
    }

    pub open spec fn with_stack_pointer(self, sp: Byte) -> CPU {
        CPU { stack_pointer: sp, ..self }
    }

    pub open spec fn with_flag(self, flag: Flags, value: bool) -> CPU {
        self.with_status(self.processor_status.with_flag(flag, value))
    }

    /// Zero and negative flags describing `value`.
    pub open spec fn with_value_status(self, value: Byte) -> CPU {
        self.with_flag(Flags::Zero, value == 0).with_flag(Flags::Negative, is_negative(value))
    }

    /// The processor after `set_register`: accumulator and index registers also
    /// update the zero and negative flags; the status register takes the byte as it is.
    pub open spec fn with_register(self, register: Registers, value: Byte) -> CPU {
        match register {
            Registers::Accumulator => CPU { accumulator: value, ..self }.with_value_status(value),
            Registers::IndexX => CPU { index_register_x: value, ..self }.with_value_status(value),
            Registers::IndexY => CPU { index_register_y: value, ..self }.with_value_status(value),
            Registers::ProcessorStatus => self.with_status(ProcessorStatus { flags: value }),
            Registers::StackPointer => self.with_stack_pointer(value),
        }
    }

    /// Address of the stack slot the stack pointer designates.
    pub open spec fn stack_address(self) -> Word {
        (0x0100 + self.stack_pointer as int) as Word
    }

    /// The processor after comparing `register` with `value` (`CMP`, `CPX`, `CPY`).
    pub open spec fn with_cmp_status(self, register: Registers, value: Byte) -> CPU {
        let r = self.reg(register);
        self.with_flag(Flags::Carry, r >= value).with_flag(Flags::Zero, r == value).with_flag(
            Flags::Negative,
            is_negative(sub8(r, value)),
        )
    }

    /// The processor after `BIT` saw `value`.
    pub open spec fn with_bit_status(self, value: Byte) -> CPU {
        self.with_flag(Flags::Zero, value == 0).with_flag(
            Flags::Overflow,
            value & 0b0100_0000 != 0,
        ).with_flag(Flags::Negative, is_negative(value))
    }

    /// The processor after `transfer_registers(src, tgt)`.
    pub open spec fn with_transfer(self, src: Registers, tgt: Registers) -> CPU {
        self.with_register(tgt, self.reg(src))
    }

    /// The processor with the low byte of the program counter replaced.
    pub open spec fn with_pc_lo(self, lo: Byte) -> CPU {
        self.with_pc(spec_word(lo, spec_hi(self.program_counter)))
    }

    /// The processor with the high byte of the program counter replaced.
    pub open spec fn with_pc_hi(self, hi: Byte) -> CPU {
        self.with_pc(spec_word(spec_lo(self.program_counter), hi))
    }

    /// The processor as the tasks of the current instruction see it during a cycle.
    pub open spec fn task_view(self) -> CPU {
        CPU { current_instruction: None, sync: false, ..self }
    }

    /// Well-formed: a scheduled instruction still has work to do and can run its next cycle.
    pub open spec fn inv(self) -> bool {
        match self.current_instruction {
            Some(ie) => !ie.tasks.is_done() && ie.tasks.can_tick(self.addr),
            None => true,
        }
    }

    /// Whether `tick` may run: the invariant holds, the cycle counter has room, and
    /// an opcode about to be fetched is one the processor implements.
    pub open spec fn can_tick(self, mem: MemView) -> bool {
        &&& self.inv()
        &&& self.cycle < usize::MAX
        &&& self.current_instruction is None ==> opcode_name(mem_at(mem, self.program_counter)) is Some
    }

    /// One clock cycle: either fetch and decode the next opcode, or run one cycle of
    /// the current instruction, which ends when its work is done.
    pub open spec fn ticked(self, mem: MemView) -> (CPU, MemView) {
        match self.current_instruction {
            Some(ie) => {
                let n = ie.tasks.next(self.task_view(), mem);
                (
                    CPU {
                        cycle: (self.cycle + 1) as usize,
                        current_instruction: if n.3 {
                            None
                        } else {
                            Some(InstructionExecution { tasks: n.0, ..ie })
                        },
                        ..n.1
                    },
                    n.2,
                )
            },
            None => {
                let pc = self.program_counter;
                let opcode = mem_at(mem, pc);
                let fetched = CPU {
                    sync: true,
                    cycle: (self.cycle + 1) as usize,
                    addr: Address::new_spec(),
                    ..self.pc_incremented()
                };
                let d = decoded(opcode, fetched);
                (
                    CPU {
                        current_instruction: Some(
                            InstructionExecution {
                                addr: pc,
                                opcode,
                                name: opcode_name(opcode)->0,
                                starting_cycle: (self.cycle + 1) as usize,
                                tasks: d.0,
                            },
                        ),
                        ..d.1
                    },
                    mem_after_read(mem, pc),
                )
            },
        }
    }

    /// A processor of the given variant in its power-on state.
    pub fn new(chip_variant: ChipVariant) -> (r: Self)
        ensures
            r.chip_variant == chip_variant,
            r.current_instruction is None,
            r.cycle == 0,
            r.program_counter == RESET_VECTOR,
            r.stack_pointer == 0,
            r.accumulator == 0,
            r.index_register_x == 0,
            r.index_register_y == 0,
            r.processor_status@ == 0,
            !r.sync,
            r.addr == Address::new_spec(),
    {
        CPU {
            chip_variant,
            current_instruction: None,
            cycle: 0,
            program_counter: RESET_VECTOR,
            stack_pointer: 0x00,
            accumulator: 0,
            index_register_x: 0,
            index_register_y: 0,
            processor_status: ProcessorStatus::from_byte_value(0),
            sync: false,
            addr: Address::new(),
        }
    }

    /// An NMOS 6502 in its power-on state.
    pub fn new_nmos() -> (r: Self)
        ensures
            r == Self::new_state(ChipVariant::NMOS),
    {
        CPU::new(ChipVariant::NMOS)
    }

    /// A Rockwell CMOS 65C02 in its power-on state.
    pub fn new_rockwell_cmos() -> (r: Self)
        ensures
            r == Self::new_state(ChipVariant::RockwellCMOS),
    {
        CPU::new(ChipVariant::RockwellCMOS)
    }

    /// A WDC CMOS 65C02 in its power-on state.
    pub fn new_wdc_cmos() -> (r: Self)
        ensures
            r == Self::new_state(ChipVariant::WDCCMOS),
    {
        CPU::new(ChipVariant::WDCCMOS)
    }

    /// The power-on state of a processor of the given variant.
    pub open spec fn new_state(chip_variant: ChipVariant) -> CPU {
        CPU {
            chip_variant,
            current_instruction: None,
            cycle: 0,
            program_counter: RESET_VECTOR,
            stack_pointer: 0,
            accumulator: 0,
            index_register_x: 0,
            index_register_y: 0,
            processor_status: ProcessorStatus { flags: 0 },
            sync: false,
            addr: Address::new_spec(),
        }
    }

    /// Loads the program counter from the reset vector and clears the registers,
    /// the cycle counter and the decimal flag.
    pub fn reset(&mut self, memory: &mut Generic64kMem)
        requires
            old(memory).wf(),
        ensures
            final(memory).wf(),
            final(memory)@.0 == old(memory)@.0,
            final(memory)@.1 == Some(crate::memory::Operation::Read((RESET_VECTOR + 1) as Word)),
            final(self).program_counter == spec_word(
                mem_at(old(memory)@, RESET_VECTOR),
                mem_at(old(memory)@, (RESET_VECTOR + 1) as Word),
            ),
            final(self).cycle == 0,
            final(self).stack_pointer == 0,
            final(self).accumulator == 0,
            final(self).index_register_x == 0,
            final(self).index_register_y == 0,
            final(self).processor_status == old(self).processor_status.with_flag(
                Flags::DecimalMode,
                false,
            ),
            final(self).chip_variant == old(self).chip_variant,
            final(self).sync == old(self).sync,
            final(self).addr == old(self).addr,
            final(self).current_instruction == old(self).current_instruction,
    {
        self.cycle = 0;
        self.program_counter = self.fetch_address_from(RESET_VECTOR, memory);
        self.cycle = 0;
        self.stack_pointer = 0x00;
        self.processor_status.change_decimal_mode_flag(false);
        self.accumulator = 0;
        self.index_register_x = 0;
        self.index_register_y = 0;
    }

    /// Runs one clock cycle. The cycle that fetches an opcode raises `sync`.
    pub fn tick(&mut self, memory: &mut Generic64kMem)
        requires
            old(self).can_tick(old(memory)@),
            old(memory).wf(),
        ensures
            final(memory).wf(),
            *final(self) == old(self).ticked(old(memory)@).0,
            final(memory)@ == old(self).ticked(old(memory)@).1,
            final(self).inv(),
            final(self).cycle == old(self).cycle + 1,
            final(self).sync == (old(self).current_instruction is None),
            final(self).chip_variant == old(self).chip_variant,
    {
        let current_instruction = self.current_instruction.take();
        match current_instruction {
            Some(mut current_instruction) => {
                self.sync = false;
                proof {
                    current_instruction.tasks.lemma_next(*self, memory@);
                }
                let tasks_done = current_instruction.tasks.tick(self, memory);
                self.cycle = self.cycle + 1;
                if tasks_done {
                    return ;
                }
                self.current_instruction = Some(current_instruction);
            },
            None => {
                self.sync = true;
                proof {
                    lemma_decoded_ready(
                        mem_at(memory@, self.program_counter),
                        CPU {
                            cycle: (self.cycle + 1) as usize,
                            addr: Address::new_spec(),
                            ..self.pc_incremented()
                        },
                    );
                }
                let scheduled = self.schedule_instruction(memory);
                self.current_instruction = Some(scheduled);
            },
        }
    }

    /// Fetches the opcode at the program counter, clears the address of the previous
    /// instruction and starts the new one.
    fn schedule_instruction(&mut self, memory: &mut Generic64kMem) -> (r: InstructionExecution)
        requires
            old(memory).wf(),
            old(self).cycle < usize::MAX,
            opcode_name(mem_at(old(memory)@, old(self).program_counter)) is Some,
        ensures
            final(memory).wf(),
            final(memory)@ == mem_after_read(old(memory)@, old(self).program_counter),
            ({
                let opcode = mem_at(old(memory)@, old(self).program_counter);
                let fetched = CPU {
                    cycle: (old(self).cycle + 1) as usize,
                    addr: Address::new_spec(),
                    ..old(self).pc_incremented()
                };
                let d = decoded(opcode, fetched);
                &&& *final(self) == d.1
                &&& r == (InstructionExecution {
                    addr: old(self).program_counter,
                    opcode,
                    name: opcode_name(opcode)->0,
                    starting_cycle: (old(self).cycle + 1) as usize,
                    tasks: d.0,
                })
            }),
    {
        let (opcode, addr) = self.fetch_opcode(memory);
        self.addr = Address::new();
        let instruction = decode(opcode, self).unwrap();
        InstructionExecution {
            addr,
            tasks: instruction.tasks,
            opcode,
            name: instruction.name,
            starting_cycle: self.cycle,
        }
    }

    /// Runs clock cycles until the instruction under way (or, if none is, the next
    /// one) has finished: the state is that of `m` cycles later, for some `m` between one
    /// and the cycle bound, and no instruction boundary lies in between.
    pub fn execute_next_instruction(&mut self, memory: &mut Generic64kMem)
        requires
            old(self).inv(),
            old(memory).wf(),
            old(self).cycle + INSTRUCTION_CYCLE_BOUND < usize::MAX,
            old(self).current_instruction is None ==> opcode_name(
                mem_at(old(memory)@, old(self).program_counter),
            ) is Some,
        ensures
            final(memory).wf(),
            final(self).inv(),
            final(self).current_instruction is None,
            old(self).cycle < final(self).cycle <= old(self).cycle + INSTRUCTION_CYCLE_BOUND,
            final(self).chip_variant == old(self).chip_variant,
            instruction_ran(*old(self), old(memory)@, *final(self), final(memory)@),
    {
        let ghost start = *self;
        let ghost start_mem = memory@;
        proof {
            if self.current_instruction is Some {
                lemma_remaining_bound(self.current_instruction->0.tasks);
            }
        }
        self.tick(memory);
        let ghost mut m: nat = 1;
        proof {
            if self.current_instruction is Some {
                lemma_remaining_bound(self.current_instruction->0.tasks);
            }
            assert(cycles_run(start, start_mem, 0) == (start, start_mem));
        }
        while self.current_instruction.is_some()
            invariant
                self.inv(),
                memory.wf(),
                start.cycle < self.cycle,
                self.current_instruction matches Some(ie) ==> self.cycle + ie.tasks.remaining()
                    <= start.cycle + INSTRUCTION_CYCLE_BOUND,
                self.current_instruction is None ==> self.cycle <= start.cycle
                    + INSTRUCTION_CYCLE_BOUND,
                start.cycle + INSTRUCTION_CYCLE_BOUND < usize::MAX,
                self.chip_variant == start.chip_variant,
                1 <= m,
                self.cycle == start.cycle + m,
                (*self, memory@) == cycles_run(start, start_mem, m),
                forall|j: nat|
                    0 < j < m ==> (#[trigger] cycles_run(start, start_mem, j)).0.current_instruction is Some,
            decreases
                match self.current_instruction {
                    Some(ie) => ie.tasks.remaining(),
                    None => 0,
                },
        {
            proof {
                let ie = self.current_instruction->0;
                ie.tasks.lemma_next(self.task_view(), memory@);
            }
            self.tick(memory);
            proof {
                m = m + 1;
            }
        }
        assert(instruction_took(start, start_mem, *self, memory@, m));
    }

    /// Runs whole instructions until one ends with the break flag set, and returns the
    /// cycle counter. It stops at the first instruction boundary (or at once, if the flag
    /// is already set) where the flag is set.
    pub fn execute_until_break(&mut self, memory: &mut Generic64kMem) -> (r: usize)
        requires
            old(self).inv(),
            old(memory).wf(),
            exists|n: nat| breaks_within(*old(self), old(memory)@, n),
        ensures
            final(memory).wf(),
            final(self).inv(),
            r == final(self).cycle,
            final(self).flag(Flags::Break),
            stopped_at_first_break(*old(self), old(memory)@, *final(self), final(memory)@),
    {
        let ghost start = *self;
        let ghost start_mem = memory@;
        let ghost n = choose|n: nat| breaks_within(start, start_mem, n);
        let ghost mut k: nat = 0;
        proof {
            assert(cycles_run(start, start_mem, 0) == (start, start_mem));
            lemma_cycles_run_counts(start, start_mem, n);
        }
        while !self.processor_status.get_break_flag()
            invariant
                self.inv(),
                memory.wf(),
                breaks_within(start, start_mem, n),
                k <= n,
                *self == cycles_run(start, start_mem, k).0,
                memory@.0 == cycles_run(start, start_mem, k).1.0,
                self.cycle == start.cycle + k,
                k > 0 ==> self.current_instruction is None,
                forall|j: nat|
                    j < k && (j == 0 || (#[trigger] cycles_run(start, start_mem, j)).0.current_instruction is None)
                        ==> !cycles_run(start, start_mem, j).0.flag(Flags::Break),
                forall|j: nat|
                    j <= n ==> (#[trigger] cycles_run(start, start_mem, j)).0.cycle == start.cycle + j,
            decreases n - k,
        {
            assert(k != n);
            let ghost here = *self;
            let ghost here_mem = memory@;
            self.execute_next_instruction(memory);
            let ghost m = choose|m: nat| instruction_took(here, here_mem, *self, memory@, m);
            proof {
                lemma_break_loop_step(start, start_mem, n, k, m, here, here_mem, *self, memory@);
                k = k + m;
            }
        }
        self.cycle
    }

    /// The status register as a byte.
    pub fn get_processor_status(&self) -> (r: Byte)
        ensures
            r == self.processor_status@,
    {
        self.processor_status.to_byte()
    }

    /// Whether the last cycle fetched an opcode.
    pub fn sync(&self) -> (r: bool)
        ensures
            r == self.sync,
    {
        self.sync
    }

    fn increment_program_counter(&mut self)
        ensures
            *final(self) == old(self).pc_incremented(),
    {
        self.program_counter = self.program_counter.wrapping_add(1);
    }

    fn increment_register(&mut self, register: Registers)
        ensures
            *final(self) == old(self).with_register(register, add8(old(self).reg(register), 1)),
    {
        let v = self.get_register(register);
        self.set_register(register, v.wrapping_add(1));
    }

    fn decrement_register(&mut self, register: Registers)
        ensures
            *final(self) == old(self).with_register(register, sub8(old(self).reg(register), 1)),
    {
        let v = self.get_register(register);
        self.set_register(register, v.wrapping_sub(1));
    }

    fn set_register(&mut self, register: Registers, value: Byte)
        ensures
            *final(self) == old(self).with_register(register, value),
    {
        match register {
            Registers::Accumulator => self.accumulator = value,
            Registers::IndexX => self.index_register_x = value,
            Registers::IndexY => self.index_register_y = value,
            Registers::ProcessorStatus => self.processor_status = ProcessorStatus::from_byte_value(value),
            Registers::StackPointer => self.stack_pointer = value,
        };
        if register == Registers::ProcessorStatus || register == Registers::StackPointer {
            return ;
        };
        self.set_status_of_register(register);
    }

    fn get_register(&self, register: Registers) -> (r: Byte)
        ensures
            r == self.reg(register),
    {
        match register {
            Registers::Accumulator => self.accumulator,
            Registers::IndexX => self.index_register_x,
            Registers::IndexY => self.index_register_y,
            Registers::ProcessorStatus => self.processor_status.to_byte(),
            Registers::StackPointer => self.stack_pointer,
        }
    }

    /// Reads the opcode at the program counter and advances past it.
    fn fetch_opcode(&mut self, memory: &mut Generic64kMem) -> (r: (Byte, Word))
        requires
            old(memory).wf(),
            old(self).cycle < usize::MAX,
        ensures
            final(memory).wf(),
            r == (mem_at(old(memory)@, old(self).program_counter), old(self).program_counter),
            final(memory)@ == mem_after_read(old(memory)@, old(self).program_counter),
            *final(self) == (CPU { cycle: (old(self).cycle + 1) as usize, ..old(self).pc_incremented() }),
    {
        let addr = self.program_counter;
        let opcode = memory.read(addr);
        self.increment_program_counter();
        self.cycle = self.cycle + 1;
        (opcode, addr)
    }

    /// Reads the little-endian word stored at `addr`, spending two cycles.
    fn fetch_address_from(&mut self, addr: Word, memory: &mut Generic64kMem) -> (r: Word)
        requires
            old(memory).wf(),
            addr < 0xFFFF,
            old(self).cycle + 2 <= usize::MAX,
        ensures
            final(memory).wf(),
            r == spec_word(mem_at(old(memory)@, addr), mem_at(old(memory)@, (addr + 1) as Word)),
            final(memory)@ == mem_after_read(mem_after_read(old(memory)@, addr), (addr + 1) as Word),
            *final(self) == (CPU { cycle: (old(self).cycle + 2) as usize, ..*old(self) }),
    {
        let lo = memory.read(addr);
        self.cycle = self.cycle + 1;
        let hi = memory.read(addr + 1);
        self.cycle = self.cycle + 1;
        word_from_le_bytes(lo, hi)
    }

    fn set_status_of_register(&mut self, register: Registers)
        ensures
            *final(self) == old(self).with_value_status(old(self).reg(register)),
    {
        let target_register = self.get_register(register);
        proof {
            lemma_sign_bit(target_register);
        }
        self.processor_status.change_zero_flag(target_register == 0);
        self.processor_status.change_negative_flag((target_register & 0b10000000) > 1);
    }

    fn set_status_of_value(&mut self, value: Byte)
        ensures
            *final(self) == old(self).with_value_status(value),
    {
        proof {
            lemma_sign_bit(value);
        }
        self.processor_status.change_zero_flag(value == 0);
        self.processor_status.change_negative_flag((value & 0b10000000) > 1);
    }

    fn set_cmp_status(&mut self, register: Registers, value: Byte)
        ensures
            *final(self) == old(self).with_cmp_status(register, value),
    {
        let target_register = self.get_register(register);
        let diff = target_register.wrapping_sub(value);
        proof {
            lemma_sign_bit(diff);
        }
        self.processor_status.change_carry_flag(target_register >= value);
        self.processor_status.change_zero_flag(target_register == value);
        self.processor_status.change_negative_flag((diff & 0b10000000) > 1);
    }

    fn set_bit_status(&mut self, value: Byte)
        ensures
            *final(self) == old(self).with_bit_status(value),
    {
        proof {
            lemma_sign_bit(value);
            assert(((value & 0b01000000) > 0) == (value & 0b0100_0000 != 0)) by (bit_vector);
        }
        self.processor_status.change_zero_flag(value == 0);
        self.processor_status.change_overflow_flag((value & 0b01000000) > 0);
        self.processor_status.change_negative_flag((value & 0b10000000) > 0);
    }

    /// Writes `val` to the stack slot and moves the stack pointer down.
    fn push_byte_to_stack(&mut self, val: Byte, memory: &mut Generic64kMem)
        requires
            old(memory).wf(),
        ensures
            final(memory).wf(),
            final(memory)@ == mem_after_write(old(memory)@, old(self).stack_address(), val),
            *final(self) == old(self).with_stack_pointer(sub8(old(self).stack_pointer, 1)),
    {
        let stack_addr: Word = self.get_stack_ptr_address();
        memory.write(stack_addr, val);
        self.decrement_register(Registers::StackPointer);
    }

    /// Moves the stack pointer up and reads the stack slot it then designates.
    fn pop_byte_from_stack(&mut self, memory: &mut Generic64kMem) -> (r: Byte)
        requires
            old(memory).wf(),
        ensures
            final(memory).wf(),
            *final(self) == old(self).with_stack_pointer(add8(old(self).stack_pointer, 1)),
            r == mem_at(old(memory)@, final(self).stack_address()),
            final(memory)@ == mem_after_read(old(memory)@, final(self).stack_address()),
    {
        self.increment_register(Registers::StackPointer);
        let stack_addr: Word = self.get_stack_ptr_address();
        memory.read(stack_addr)
    }

    /// Address of the stack slot the stack pointer designates.
    fn get_stack_ptr_address(&self) -> (r: Word)
        ensures
            r == self.stack_address(),
    {
        let sp = self.stack_pointer as u16;
        proof {
            assert(STACK_PAGE_HI | sp == 0x0100 + sp) by (bit_vector)
                requires
                    sp < 256,
                    STACK_PAGE_HI == 0x0100,
            ;
        }
        STACK_PAGE_HI | sp
    }

    fn get_program_counter_lo(&self) -> (r: Byte)
        ensures
            r == spec_lo(self.program_counter),
    {
        word_lo(self.program_counter)
    }

    fn get_program_counter_hi(&self) -> (r: Byte)
        ensures
            r == spec_hi(self.program_counter),
    {
        word_hi(self.program_counter)
    }

    fn set_program_counter_lo(&mut self, lo: Byte)
        ensures
            *final(self) == old(self).with_pc_lo(lo),
    {
        self.program_counter = word_from_le_bytes(lo, self.get_program_counter_hi());
    }

    fn set_program_counter_hi(&mut self, hi: Byte)
        ensures
            *final(self) == old(self).with_pc_hi(hi),
    {
        self.program_counter = word_from_le_bytes(self.get_program_counter_lo(), hi);
    }

    fn transfer_registers(&mut self, src: Registers, tgt: Registers)
        ensures
            *final(self) == old(self).with_transfer(src, tgt),
    {
        let value = self.get_register(src);
        self.set_register(tgt, value);
    }

    /// The operand read an instruction with addressing mode `addr_mode` performs;
    /// `None` stands for an immediate operand.
    fn read_memory(&self, addr_mode: Option<AddressingMode>) -> (r: AnyReadMemoryTasks)
        requires
            addr_mode matches Some(mode) ==> has_addressing_tasks(mode),
        ensures
            r == read_memory_for(self.chip_variant, addr_mode),
            forall|a: Address| r.can_tick(a),
            !r.is_done(),
    {
        match addr_mode {
            Some(mode) => {
                let addressing_tasks = get_addressing_tasks(self, mode, AccessVariant::Read);
                if access_cycle_has_been_done_during_addressing(mode) {
                    AnyReadMemoryTasks::Addressing(
                        AddressingReadMemoryTasks::new_with_access_during_addressing(
                            addressing_tasks,
                        ),
                    )
                } else {
                    AnyReadMemoryTasks::Addressing(
                        AddressingReadMemoryTasks::new_with_access_in_separate_cycle(
                            addressing_tasks,
                        ),
                    )
                }
            },
            None => AnyReadMemoryTasks::Immediate(ImmediateReadMemoryTasks::new()),
        }
    }

    /// Reads the byte at the program counter and discards it.
    fn dummy_fetch(&self, memory: &mut Generic64kMem)
        requires
            old(memory).wf(),
        ensures
            final(memory).wf(),
            final(memory)@ == mem_after_read(old(memory)@, self.program_counter),
    {
        let _ = memory.read(self.program_counter);
    }
}

/// Comparing a register with a byte (`CMP`, `CPX`, `CPY`) sets the carry flag when the
/// register is at least the byte, the zero flag when they are equal, and the negative flag
/// from bit 7 of their wrapping difference; the other flags and every register stay as
/// they were.
pub proof fn lemma_compare_status(cpu: CPU, register: Registers, value: Byte)
    ensures
        ({
            let r = cpu.reg(register);
            let after = cpu.with_cmp_status(register, value);
            &&& after.flag(Flags::Carry) == (r >= value)
            &&& after.flag(Flags::Zero) == (r == value)
            &&& after.flag(Flags::Negative) == is_negative(sub8(r, value))
            &&& forall|f: Flags|
                f != Flags::Carry && f != Flags::Zero && f != Flags::Negative ==> #[trigger] after.flag(f)
                    == cpu.flag(f)
            &&& forall|o: Registers| o != Registers::ProcessorStatus ==> #[trigger] after.reg(o) == cpu.reg(o)
        }),
{
    let r = cpu.reg(register);
    let ps0 = cpu.processor_status;
    let ps1 = ps0.with_flag(Flags::Carry, r >= value);
    let ps2 = ps1.with_flag(Flags::Zero, r == value);
    let n = is_negative(sub8(r, value));
    assert forall|f: Flags| #![trigger cpu.with_cmp_status(register, value).flag(f)] true implies {
        &&& ps1.flag(f) == (if f == Flags::Carry { r >= value } else { ps0.flag(f) })
        &&& ps2.flag(f) == (if f == Flags::Zero { r == value } else { ps1.flag(f) })
        &&& ps2.with_flag(Flags::Negative, n).flag(f) == (if f == Flags::Negative { n } else { ps2.flag(f) })
        &&& cpu.with_cmp_status(register, value).flag(f) == ps2.with_flag(Flags::Negative, n).flag(f)
    } by {
        crate::cpu::processor_status::lemma_flag_read_back(ps0, Flags::Carry, f, r >= value);
        crate::cpu::processor_status::lemma_flag_read_back(ps1, Flags::Zero, f, r == value);
        crate::cpu::processor_status::lemma_flag_read_back(ps2, Flags::Negative, f, n);
    }
    let after = cpu.with_cmp_status(register, value);
    assert(after.flag(Flags::Carry) == (r >= value));
    assert(after.flag(Flags::Zero) == (r == value));
    assert(after.flag(Flags::Negative) == n);
}

/// The processor `after` is `before` with `v` loaded into `register` (the accumulator,
/// `X` or `Y`): the register holds `v`, the zero and negative flags describe `v`, and no
/// other flag, no other register and nothing else changes.
pub open spec fn loaded(before: CPU, after: CPU, register: Registers, v: Byte) -> bool {
    &&& after.reg(register) == v
    &&& after.flag(Flags::Zero) == (v == 0)
    &&& after.flag(Flags::Negative) == (v >= 128)
    &&& forall|f: Flags|
        f != Flags::Zero && f != Flags::Negative ==> #[trigger] after.flag(f) == before.flag(f)
    &&& forall|o: Registers|
        o != register && o != Registers::ProcessorStatus ==> #[trigger] after.reg(o) == before.reg(o)
    &&& after == CPU {
        processor_status: after.processor_status,
        accumulator: after.accumulator,
        index_register_x: after.index_register_x,
        index_register_y: after.index_register_y,
        ..before
    }
}

/// Setting the accumulator or an index register loads it as `loaded` describes.
pub proof fn lemma_with_register_loads(cpu: CPU, register: Registers, v: Byte)
    requires
        register == Registers::Accumulator || register == Registers::IndexX || register
            == Registers::IndexY,
    ensures
        loaded(cpu, cpu.with_register(register, v), register, v),
{
    let after = cpu.with_register(register, v);
    let ps0 = cpu.processor_status;
    let ps1 = ps0.with_flag(Flags::Zero, v == 0);
    let ps2 = ps1.with_flag(Flags::Negative, is_negative(v));
    assert(after.processor_status == ps2);
    assert forall|f: Flags| #![trigger after.flag(f)] true implies {
        &&& ps1.flag(f) == (if f == Flags::Zero { v == 0 } else { ps0.flag(f) })
        &&& ps2.flag(f) == (if f == Flags::Negative { is_negative(v) } else { ps1.flag(f) })
    } by {
        crate::cpu::processor_status::lemma_flag_read_back(ps0, Flags::Zero, f, v == 0);
        crate::cpu::processor_status::lemma_flag_read_back(ps1, Flags::Negative, f, is_negative(v));
    }
    assert(after.flag(Flags::Zero) == (v == 0));
    assert(after.flag(Flags::Negative) == is_negative(v));
}

/// While an instruction is under way, each clock cycle is a cycle of its work: if the work
/// finishes after exactly `k` cycles, run from the processor's view of itself, then `k`
/// clock cycles end with the processor and memory that run of the work ends with.
pub proof fn lemma_clock_runs_work(s: CPU, mem: MemView, k: nat)
    requires
        s.current_instruction is Some,
        s.inv(),
        mem.0.len() == MEMORY_SIZE,
        0 < k,
        run(s.current_instruction->0.tasks, s.task_view(), mem, k).0.is_done(),
        !run(s.current_instruction->0.tasks, s.task_view(), mem, (k - 1) as nat).0.is_done(),
    ensures
        cycles_run(s, mem, k).0 == run(s.current_instruction->0.tasks, s.task_view(), mem, k).1,
        cycles_run(s, mem, k).1 == run(s.current_instruction->0.tasks, s.task_view(), mem, k).2,
    decreases k,
{
    let ie = s.current_instruction->0;
    let t = ie.tasks;
    let tv = s.task_view();
    t.lemma_next(tv, mem);
    let n = t.next(tv, mem);
    lemma_run_step(t, tv, mem, k);
    let rs = stepped(t, tv, mem);
    let s1 = s.ticked(mem);
    lemma_cycles_run_add(s, mem, 1, (k - 1) as nat);
    assert(cycles_run(s, mem, 0) == (s, mem));
    assert(cycles_run(s, mem, 1) == s1);
    if n.3 {
        if k > 1 {
            lemma_run_step(t, tv, mem, (k - 1) as nat);
            lemma_run_done(rs.0, rs.1, rs.2, (k - 2) as nat);
        }
        assert(k == 1);
        assert(cycles_run(s1.0, s1.1, 0) == s1);
    } else {
        if k == 1 {
            assert(run(rs.0, rs.1, rs.2, 0) == rs);
        }
        lemma_run_step(t, tv, mem, (k - 1) as nat);
        assert(s1.0.task_view() == rs.1);
        lemma_clock_runs_work(s1.0, s1.1, (k - 1) as nat);
    }
}

/// An instruction started between two instructions takes its fetch cycle and then the
/// cycles of its work: if the work the fetch schedules finishes after exactly `k` cycles,
/// `k + 1` clock cycles end with the processor and memory that work ends with.
pub proof fn lemma_clock_runs_instruction(cpu: CPU, mem: MemView, k: nat)
    requires
        cpu.current_instruction is None,
        opcode_name(mem_at(mem, cpu.program_counter)) is Some,
        mem.0.len() == MEMORY_SIZE,
        0 < k,
        run(
            cpu.ticked(mem).0.current_instruction->0.tasks,
            cpu.ticked(mem).0.task_view(),
            cpu.ticked(mem).1,
            k,
        ).0.is_done(),
        !run(
            cpu.ticked(mem).0.current_instruction->0.tasks,
            cpu.ticked(mem).0.task_view(),
            cpu.ticked(mem).1,
            (k - 1) as nat,
        ).0.is_done(),
    ensures
        cycles_run(cpu, mem, k + 1) == (
            run(
                cpu.ticked(mem).0.current_instruction->0.tasks,
                cpu.ticked(mem).0.task_view(),
                cpu.ticked(mem).1,
                k,
            ).1,
            run(
                cpu.ticked(mem).0.current_instruction->0.tasks,
                cpu.ticked(mem).0.task_view(),
                cpu.ticked(mem).1,
                k,
            ).2,
        ),
{
    let s1 = cpu.ticked(mem);
    let pc = cpu.program_counter;
    let opcode = mem_at(mem, pc);
    let fetched = CPU {
        sync: true,
        cycle: (cpu.cycle + 1) as usize,
        addr: Address::new_spec(),
        ..cpu.pc_incremented()
    };
    lemma_decoded_ready(opcode, fetched);
    lemma_cycles_run_add(cpu, mem, 1, k);
    assert(cycles_run(cpu, mem, 0) == (cpu, mem));
    assert(cycles_run(cpu, mem, 1) == s1);
    lemma_clock_runs_work(s1.0, s1.1, k);
}

} // verus!
