# cpu6502

A cycle-stepped emulator of the MOS 6502 family (NMOS, Rockwell CMOS and WDC CMOS
variants), verified with Verus.

Every instruction is a small state machine: each call of `tick` performs one clock
cycle of it, with the memory accesses the real part makes in that cycle. Its contract
is a spec function `next` that gives the state after the cycle, and whole instructions
are specified by running `next` until the work is done. `next` is closed; each kind of
work publishes its definition as the open spec function `step` together with the lemma
`lemma_next_is_step`, so callers outside a module can unfold any cycle.

Layout:

- `src/memory.rs` — the 64 KiB memory and the `Memory` trait (reads and writes, and the
  last access made).
- `src/cpu.rs` — the processor state, `tick`, instruction scheduling, and running whole
  instructions (`execute_next_instruction`, `execute_until_break`).
- `src/cpu/addressing/` — the addressing modes, cycle by cycle.
- `src/cpu/tasks/` — reusable work: reading an operand, read-modify-write, register
  changes and transfers.
- `src/cpu/instructions/` — the instruction set, grouped as in the data sheets, and the
  opcode table (`decode`).
- `src/cpu/debugger/` — a debugger that probes the processor after each cycle, keeps a
  bounded history of executed instructions in a ring buffer, reports traps on target
  addresses and formats instructions as text.
- `app/` — a small program that loads a demonstration program and runs it.

The proved properties include, besides the exact per-cycle contracts: a `JSR` followed
by `RTS` (after any subroutine that leaves the stack as `JSR` left it) resumes after the
call with the stack pointer restored; likewise `BRK` followed by `RTI` resumes two bytes
after the `BRK` with the stack pointer and the status (but its break bit) restored;
read-modify-write instructions and stores, for any addressing, write the modified byte
(or the register) at the computed address and change nothing else; addressed reads and
logical operations run in step with their addressing and operand reads; register
modifications, immediate logical, arithmetic and compare operations each have a
whole-instruction law; the debugged run (`utils::execute_until_break`) stops at the first
instruction boundary where the break flag is set or a `BRK` has just ended; a push followed by a
pull restores the register; taken branches land on the signed offset with the page
crossing costing a cycle; indexed and indirect addressing compute their targets with
the documented wrap-arounds and cycle counts (including the NMOS indirect `JMP` page
bug); every instruction finishes within a bounded number of cycles; and the debugger's
history never exceeds its capacity.
