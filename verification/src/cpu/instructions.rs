use crate::consts::Byte;
use crate::cpu::addressing::address::Address;
use crate::cpu::addressing::AddressingMode;
use crate::cpu::processor_status::Flags;
use crate::cpu::tasks::modify_memory::{ModificationVariant, ModifyMemoryTasks};
use crate::cpu::tasks::modify_register::ModifyRegisterTasks;
use crate::cpu::tasks::read_memory::{AnyReadMemoryTasks, ReadMemoryTasks};
use crate::cpu::tasks::transfer_register::TransferRegistersTasks;
use crate::cpu::tasks::{lemma_run_step, run, stepped, Tasks};
use crate::cpu::{Registers, CPU};
use crate::memory::{Generic64kMem, MemView, MEMORY_SIZE};
use vstd::prelude::*;

pub mod arithmetic;
pub mod branches;
pub mod inc_and_decrements;
pub mod jumps_and_calls;
pub mod load_and_store_ops;
pub mod logical;
pub mod register_transfers;
pub mod shifts;
pub mod stack_operations;
pub mod status_flag_changes;
pub mod system_functions;

pub use self::arithmetic::{ArithmeticTasks, CompareTasks, ArithmeticOperation, adc_a, adc_ax, adc_ay, adc_im, adc_inx, adc_iny, adc_zp, adc_zpx, arithmetic_instruction, cmp_a, cmp_ax, cmp_ay, cmp_im, cmp_inx, cmp_iny, cmp_zp, cmp_zpx, compare_instruction, cpx_a, cpx_im, cpx_zp, cpy_a, cpy_im, cpy_zp, sbc_a, sbc_ax, sbc_ay, sbc_im, sbc_inx, sbc_iny, sbc_zp, sbc_zpx};
pub use self::branches::{BranchTasks, BranchCondition, bcc, bcs, beq, bmi, bne, bpl, branch_instruction, bvc, bvs};
pub use self::inc_and_decrements::{dec_a, dec_ax, dec_zp, dec_zpx, dex_im, dey_im, inc_a, inc_ax, inc_zp, inc_zpx, inx_im, iny_im, modify_memory_instruction, modify_register_instruction};
pub use self::jumps_and_calls::{JmpTasks, JsrTasks, RtsTasks, jmp_a, jmp_absolute_instruction, jmp_in, jmp_indirect_instruction, jsr_a, jsr_instruction, rts, rts_instruction};
pub use self::load_and_store_ops::{LoadTasks, StoreTasks, lda_a, lda_ax, lda_ay, lda_im, lda_inx, lda_iny, lda_zp, lda_zpx, ldx_a, ldx_ay, ldx_im, ldx_zp, ldx_zpy, ldy_a, ldy_ax, ldy_im, ldy_zp, ldy_zpx, load_instruction, sta_a, sta_ax, sta_ay, sta_inx, sta_iny, sta_zp, sta_zpx, store_instruction, stx_a, stx_zp, stx_zpy, sty_a, sty_zp, sty_zpx};
pub use self::logical::{LogicalTasks, LogicalVariant, and_a, and_ax, and_ay, and_im, and_inx, and_iny, and_zp, and_zpx, bit_a, bit_zp, eor_a, eor_ax, eor_ay, eor_im, eor_inx, eor_iny, eor_zp, eor_zpx, logical_instruction, ora_a, ora_ax, ora_ay, ora_im, ora_inx, ora_iny, ora_zp, ora_zpx};
pub use self::register_transfers::{tax, tay, transfer_instruction, txa, tya};
pub use self::shifts::{asl_a, asl_acc, asl_ax, asl_zp, asl_zpx, lsr_a, lsr_acc, lsr_ax, lsr_zp, lsr_zpx, rol_a, rol_acc, rol_ax, rol_zp, rol_zpx, ror_a, ror_acc, ror_ax, ror_zp, ror_zpx};
pub use self::stack_operations::{PullRegisterTasks, PushRegisterTasks, pha, php, pla, plp, pull_instruction, push_instruction, tsx, txs};
pub use self::status_flag_changes::{ChangeStatusFlagTasks, clc, cld, cli, clv, flag_instruction, sec, sed, sei};
pub use self::system_functions::{BrkTasks, NopTasks, RtiTasks, brk, brk_instruction, nop, nop_instruction, rti, rti_instruction};

verus! {

pub const ADC_A: Byte = 0x6D;
pub const ADC_AX: Byte = 0x7D;
pub const ADC_AY: Byte = 0x79;
pub const ADC_IM: Byte = 0x69;
pub const ADC_INX: Byte = 0x61;
pub const ADC_INY: Byte = 0x71;
pub const ADC_ZP: Byte = 0x65;
pub const ADC_ZPX: Byte = 0x75;
pub const AND_A: Byte = 0x4D;
pub const AND_AX: Byte = 0x5D;
pub const AND_AY: Byte = 0x59;
pub const AND_IM: Byte = 0x49;
pub const AND_INX: Byte = 0x41;
pub const AND_INY: Byte = 0x51;
pub const AND_ZP: Byte = 0x45;
pub const AND_ZPX: Byte = 0x55;
pub const ASL_A: Byte = 0x0E;
pub const ASL_ACC: Byte = 0x0A;
pub const ASL_AX: Byte = 0x1E;
pub const ASL_ZP: Byte = 0x06;
pub const ASL_ZPX: Byte = 0x16;
pub const BCC: Byte = 0x90;
pub const BCS: Byte = 0xB0;
pub const BEQ: Byte = 0xF0;
pub const BIT_A: Byte = 0x2C;
pub const BIT_ZP: Byte = 0x24;
pub const BMI: Byte = 0x30;
pub const BNE: Byte = 0xD0;
pub const BPL: Byte = 0x10;
pub const BRK: Byte = 0x00;
pub const BVC: Byte = 0x50;
pub const BVS: Byte = 0x70;
pub const CLC: Byte = 0x18;
pub const CLD: Byte = 0xD8;
pub const CLI: Byte = 0x58;
pub const CLV: Byte = 0xB8;
pub const CMP_A: Byte = 0xCD;
pub const CMP_AX: Byte = 0xDD;
pub const CMP_AY: Byte = 0xD9;
pub const CMP_IM: Byte = 0xC9;
pub const CMP_INX: Byte = 0xC1;
pub const CMP_INY: Byte = 0xD1;
pub const CMP_ZP: Byte = 0xC5;
pub const CMP_ZPX: Byte = 0xD5;
pub const CPX_A: Byte = 0xEC;
pub const CPX_IM: Byte = 0xE0;
pub const CPX_ZP: Byte = 0xE4;
pub const CPY_A: Byte = 0xCC;
pub const CPY_IM: Byte = 0xC0;
pub const CPY_ZP: Byte = 0xC4;
pub const DEC_A: Byte = 0xCE;
pub const DEC_AX: Byte = 0xDE;
pub const DEC_ZP: Byte = 0xC6;
pub const DEC_ZPX: Byte = 0xD6;
pub const DEX_IM: Byte = 0xCA;
pub const DEY_IM: Byte = 0x88;
pub const EOR_A: Byte = 0x2D;
pub const EOR_AX: Byte = 0x3D;
pub const EOR_AY: Byte = 0x39;
pub const EOR_IM: Byte = 0x29;
pub const EOR_INX: Byte = 0x21;
pub const EOR_INY: Byte = 0x31;
pub const EOR_ZP: Byte = 0x25;
pub const EOR_ZPX: Byte = 0x35;
pub const INC_A: Byte = 0xEE;
pub const INC_AX: Byte = 0xFE;
pub const INC_ZP: Byte = 0xE6;
pub const INC_ZPX: Byte = 0xF6;
pub const INX_IM: Byte = 0xE8;
pub const INY_IM: Byte = 0xC8;
pub const JMP_A: Byte = 0x4C;
pub const JMP_IN: Byte = 0x6C;
pub const JSR_A: Byte = 0x20;
pub const LDA_A: Byte = 0xAD;
pub const LDA_AX: Byte = 0xBD;
pub const LDA_AY: Byte = 0xB9;
pub const LDA_IM: Byte = 0xA9;
pub const LDA_INX: Byte = 0xA1;
pub const LDA_INY: Byte = 0xB1;
pub const LDA_ZP: Byte = 0xA5;
pub const LDA_ZPX: Byte = 0xB5;
pub const LDX_A: Byte = 0xAE;
pub const LDX_AY: Byte = 0xBE;
pub const LDX_IM: Byte = 0xA2;
pub const LDX_ZP: Byte = 0xA6;
pub const LDX_ZPY: Byte = 0xB6;
pub const LDY_A: Byte = 0xAC;
pub const LDY_AX: Byte = 0xBC;
pub const LDY_IM: Byte = 0xA0;
pub const LDY_ZP: Byte = 0xA4;
pub const LDY_ZPX: Byte = 0xB4;
pub const LSR_A: Byte = 0x4E;
pub const LSR_ACC: Byte = 0x4A;
pub const LSR_AX: Byte = 0x5E;
pub const LSR_ZP: Byte = 0x46;
pub const LSR_ZPX: Byte = 0x56;
pub const NOP: Byte = 0xEA;
pub const ORA_A: Byte = 0x0D;
pub const ORA_AX: Byte = 0x1D;
pub const ORA_AY: Byte = 0x19;
pub const ORA_IM: Byte = 0x09;
pub const ORA_INX: Byte = 0x01;
pub const ORA_INY: Byte = 0x11;
pub const ORA_ZP: Byte = 0x05;
pub const ORA_ZPX: Byte = 0x15;
pub const PHA: Byte = 0x48;
pub const PHP: Byte = 0x08;
pub const PLA: Byte = 0x68;
pub const PLP: Byte = 0x28;
pub const ROL_A: Byte = 0x2E;
pub const ROL_ACC: Byte = 0x2A;
pub const ROL_AX: Byte = 0x3E;
pub const ROL_ZP: Byte = 0x26;
pub const ROL_ZPX: Byte = 0x36;
pub const ROR_A: Byte = 0x6E;
pub const ROR_ACC: Byte = 0x6A;
pub const ROR_AX: Byte = 0x7E;
pub const ROR_ZP: Byte = 0x66;
pub const ROR_ZPX: Byte = 0x76;
pub const RTI: Byte = 0x40;
pub const RTS: Byte = 0x60;
pub const SBC_A: Byte = 0xED;
pub const SBC_AX: Byte = 0xFD;
pub const SBC_AY: Byte = 0xF9;
pub const SBC_IM: Byte = 0xE9;
pub const SBC_INX: Byte = 0xE1;
pub const SBC_INY: Byte = 0xF1;
pub const SBC_ZP: Byte = 0xE5;
pub const SBC_ZPX: Byte = 0xF5;
pub const SEC: Byte = 0x38;
pub const SED: Byte = 0xF8;
pub const SEI: Byte = 0x78;
pub const STA_A: Byte = 0x8D;
pub const STA_AX: Byte = 0x9D;
pub const STA_AY: Byte = 0x99;
pub const STA_INX: Byte = 0x81;
pub const STA_INY: Byte = 0x91;
pub const STA_ZP: Byte = 0x85;
pub const STA_ZPX: Byte = 0x95;
pub const STX_A: Byte = 0x8E;
pub const STX_ZP: Byte = 0x86;
pub const STX_ZPY: Byte = 0x96;
pub const STY_A: Byte = 0x8C;
pub const STY_ZP: Byte = 0x84;
pub const STY_ZPX: Byte = 0x94;
pub const TAX: Byte = 0xAA;
pub const TAY: Byte = 0xA8;
pub const TSX: Byte = 0xBA;
pub const TXA: Byte = 0x8A;
pub const TXS: Byte = 0x9A;
pub const TYA: Byte = 0x98;

/// The remaining work of an instruction being executed.
pub enum InstructionTasks {
    Load(LoadTasks),
    Store(StoreTasks),
    Logical(LogicalTasks),
    Compare(CompareTasks),
    Arithmetic(ArithmeticTasks),
    ModifyMemory(ModifyMemoryTasks),
    ModifyRegister(ModifyRegisterTasks),
    TransferRegisters(TransferRegistersTasks),
    Branch(BranchTasks),
    Jsr(JsrTasks),
    Rts(RtsTasks),
    Jmp(JmpTasks),
    PushRegister(PushRegisterTasks),
    PullRegister(PullRegisterTasks),
    ChangeStatusFlag(ChangeStatusFlagTasks),
    Nop(NopTasks),
    Brk(BrkTasks),
    Rti(RtiTasks),
}

impl Tasks for InstructionTasks {
    open spec fn is_done(&self) -> bool {
        match self {
            InstructionTasks::Load(t) => t.is_done(),
            InstructionTasks::Store(t) => t.is_done(),
            InstructionTasks::Logical(t) => t.is_done(),
            InstructionTasks::Compare(t) => t.is_done(),
            InstructionTasks::Arithmetic(t) => t.is_done(),
            InstructionTasks::ModifyMemory(t) => t.is_done(),
            InstructionTasks::ModifyRegister(t) => t.is_done(),
            InstructionTasks::TransferRegisters(t) => t.is_done(),
            InstructionTasks::Branch(t) => t.is_done(),
            InstructionTasks::Jsr(t) => t.is_done(),
            InstructionTasks::Rts(t) => t.is_done(),
            InstructionTasks::Jmp(t) => t.is_done(),
            InstructionTasks::PushRegister(t) => t.is_done(),
            InstructionTasks::PullRegister(t) => t.is_done(),
            InstructionTasks::ChangeStatusFlag(t) => t.is_done(),
            InstructionTasks::Nop(t) => t.is_done(),
            InstructionTasks::Brk(t) => t.is_done(),
            InstructionTasks::Rti(t) => t.is_done(),
        }
    }

    open spec fn can_tick(&self, addr: Address) -> bool {
        match self {
            InstructionTasks::Load(t) => t.can_tick(addr),
            InstructionTasks::Store(t) => t.can_tick(addr),
            InstructionTasks::Logical(t) => t.can_tick(addr),
            InstructionTasks::Compare(t) => t.can_tick(addr),
            InstructionTasks::Arithmetic(t) => t.can_tick(addr),
            InstructionTasks::ModifyMemory(t) => t.can_tick(addr),
            InstructionTasks::ModifyRegister(t) => t.can_tick(addr),
            InstructionTasks::TransferRegisters(t) => t.can_tick(addr),
            InstructionTasks::Branch(t) => t.can_tick(addr),
            InstructionTasks::Jsr(t) => t.can_tick(addr),
            InstructionTasks::Rts(t) => t.can_tick(addr),
            InstructionTasks::Jmp(t) => t.can_tick(addr),
            InstructionTasks::PushRegister(t) => t.can_tick(addr),
            InstructionTasks::PullRegister(t) => t.can_tick(addr),
            InstructionTasks::ChangeStatusFlag(t) => t.can_tick(addr),
            InstructionTasks::Nop(t) => t.can_tick(addr),
            InstructionTasks::Brk(t) => t.can_tick(addr),
            InstructionTasks::Rti(t) => t.can_tick(addr),
        }
    }

    open spec fn next(&self, cpu: CPU, mem: MemView) -> (Self, CPU, MemView, bool) {
        match self {
            InstructionTasks::Load(t) => {
                let n = t.next(cpu, mem);
                (InstructionTasks::Load(n.0), n.1, n.2, n.3)
            },
            InstructionTasks::Store(t) => {
                let n = t.next(cpu, mem);
                (InstructionTasks::Store(n.0), n.1, n.2, n.3)
            },
            InstructionTasks::Logical(t) => {
                let n = t.next(cpu, mem);
                (InstructionTasks::Logical(n.0), n.1, n.2, n.3)
            },
            InstructionTasks::Compare(t) => {
                let n = t.next(cpu, mem);
                (InstructionTasks::Compare(n.0), n.1, n.2, n.3)
            },
            InstructionTasks::Arithmetic(t) => {
                let n = t.next(cpu, mem);
                (InstructionTasks::Arithmetic(n.0), n.1, n.2, n.3)
            },
            InstructionTasks::ModifyMemory(t) => {
                let n = t.next(cpu, mem);
                (InstructionTasks::ModifyMemory(n.0), n.1, n.2, n.3)
            },
            InstructionTasks::ModifyRegister(t) => {
                let n = t.next(cpu, mem);
                (InstructionTasks::ModifyRegister(n.0), n.1, n.2, n.3)
            },
            InstructionTasks::TransferRegisters(t) => {
                let n = t.next(cpu, mem);
                (InstructionTasks::TransferRegisters(n.0), n.1, n.2, n.3)
            },
            InstructionTasks::Branch(t) => {
                let n = t.next(cpu, mem);
                (InstructionTasks::Branch(n.0), n.1, n.2, n.3)
            },
            InstructionTasks::Jsr(t) => {
                let n = t.next(cpu, mem);
                (InstructionTasks::Jsr(n.0), n.1, n.2, n.3)
            },
            InstructionTasks::Rts(t) => {
                let n = t.next(cpu, mem);
                (InstructionTasks::Rts(n.0), n.1, n.2, n.3)
            },
            InstructionTasks::Jmp(t) => {
                let n = t.next(cpu, mem);
                (InstructionTasks::Jmp(n.0), n.1, n.2, n.3)
            },
            InstructionTasks::PushRegister(t) => {
                let n = t.next(cpu, mem);
                (InstructionTasks::PushRegister(n.0), n.1, n.2, n.3)
            },
            InstructionTasks::PullRegister(t) => {
                let n = t.next(cpu, mem);
                (InstructionTasks::PullRegister(n.0), n.1, n.2, n.3)
            },
            InstructionTasks::ChangeStatusFlag(t) => {
                let n = t.next(cpu, mem);
                (InstructionTasks::ChangeStatusFlag(n.0), n.1, n.2, n.3)
            },
            InstructionTasks::Nop(t) => {
                let n = t.next(cpu, mem);
                (InstructionTasks::Nop(n.0), n.1, n.2, n.3)
            },
            InstructionTasks::Brk(t) => {
                let n = t.next(cpu, mem);
                (InstructionTasks::Brk(n.0), n.1, n.2, n.3)
            },
            InstructionTasks::Rti(t) => {
                let n = t.next(cpu, mem);
                (InstructionTasks::Rti(n.0), n.1, n.2, n.3)
            },
        }
    }

    open spec fn remaining(&self) -> nat {
        match self {
            InstructionTasks::Load(t) => t.remaining(),
            InstructionTasks::Store(t) => t.remaining(),
            InstructionTasks::Logical(t) => t.remaining(),
            InstructionTasks::Compare(t) => t.remaining(),
            InstructionTasks::Arithmetic(t) => t.remaining(),
            InstructionTasks::ModifyMemory(t) => t.remaining(),
            InstructionTasks::ModifyRegister(t) => t.remaining(),
            InstructionTasks::TransferRegisters(t) => t.remaining(),
            InstructionTasks::Branch(t) => t.remaining(),
            InstructionTasks::Jsr(t) => t.remaining(),
            InstructionTasks::Rts(t) => t.remaining(),
            InstructionTasks::Jmp(t) => t.remaining(),
            InstructionTasks::PushRegister(t) => t.remaining(),
            InstructionTasks::PullRegister(t) => t.remaining(),
            InstructionTasks::ChangeStatusFlag(t) => t.remaining(),
            InstructionTasks::Nop(t) => t.remaining(),
            InstructionTasks::Brk(t) => t.remaining(),
            InstructionTasks::Rti(t) => t.remaining(),
        }
    }

    fn done(&self) -> (r: bool) {
        match self {
            InstructionTasks::Load(t) => t.done(),
            InstructionTasks::Store(t) => t.done(),
            InstructionTasks::Logical(t) => t.done(),
            InstructionTasks::Compare(t) => t.done(),
            InstructionTasks::Arithmetic(t) => t.done(),
            InstructionTasks::ModifyMemory(t) => t.done(),
            InstructionTasks::ModifyRegister(t) => t.done(),
            InstructionTasks::TransferRegisters(t) => t.done(),
            InstructionTasks::Branch(t) => t.done(),
            InstructionTasks::Jsr(t) => t.done(),
            InstructionTasks::Rts(t) => t.done(),
            InstructionTasks::Jmp(t) => t.done(),
            InstructionTasks::PushRegister(t) => t.done(),
            InstructionTasks::PullRegister(t) => t.done(),
            InstructionTasks::ChangeStatusFlag(t) => t.done(),
            InstructionTasks::Nop(t) => t.done(),
            InstructionTasks::Brk(t) => t.done(),
            InstructionTasks::Rti(t) => t.done(),
        }
    }

    fn tick(&mut self, cpu: &mut CPU, memory: &mut Generic64kMem) -> (r: bool) {
        match self {
            InstructionTasks::Load(t) => t.tick(cpu, memory),
            InstructionTasks::Store(t) => t.tick(cpu, memory),
            InstructionTasks::Logical(t) => t.tick(cpu, memory),
            InstructionTasks::Compare(t) => t.tick(cpu, memory),
            InstructionTasks::Arithmetic(t) => t.tick(cpu, memory),
            InstructionTasks::ModifyMemory(t) => t.tick(cpu, memory),
            InstructionTasks::ModifyRegister(t) => t.tick(cpu, memory),
            InstructionTasks::TransferRegisters(t) => t.tick(cpu, memory),
            InstructionTasks::Branch(t) => t.tick(cpu, memory),
            InstructionTasks::Jsr(t) => t.tick(cpu, memory),
            InstructionTasks::Rts(t) => t.tick(cpu, memory),
            InstructionTasks::Jmp(t) => t.tick(cpu, memory),
            InstructionTasks::PushRegister(t) => t.tick(cpu, memory),
            InstructionTasks::PullRegister(t) => t.tick(cpu, memory),
            InstructionTasks::ChangeStatusFlag(t) => t.tick(cpu, memory),
            InstructionTasks::Nop(t) => t.tick(cpu, memory),
            InstructionTasks::Brk(t) => t.tick(cpu, memory),
            InstructionTasks::Rti(t) => t.tick(cpu, memory),
        }
    }

    #[verifier::rlimit(40)]
    proof fn lemma_next(&self, cpu: CPU, mem: MemView) {
        match self {
            InstructionTasks::Load(t) => {
                t.lemma_next(cpu, mem);
                assert(self.next(cpu, mem).0 == InstructionTasks::Load(t.next(cpu, mem).0));
            },
            InstructionTasks::Store(t) => {
                t.lemma_next(cpu, mem);
                assert(self.next(cpu, mem).0 == InstructionTasks::Store(t.next(cpu, mem).0));
            },
            InstructionTasks::Logical(t) => {
                t.lemma_next(cpu, mem);
                assert(self.next(cpu, mem).0 == InstructionTasks::Logical(t.next(cpu, mem).0));
            },
            InstructionTasks::Compare(t) => {
                t.lemma_next(cpu, mem);
                assert(self.next(cpu, mem).0 == InstructionTasks::Compare(t.next(cpu, mem).0));
            },
            InstructionTasks::Arithmetic(t) => {
                t.lemma_next(cpu, mem);
                assert(self.next(cpu, mem).0 == InstructionTasks::Arithmetic(t.next(cpu, mem).0));
            },
            InstructionTasks::ModifyMemory(t) => {
                t.lemma_next(cpu, mem);
                assert(self.next(cpu, mem).0 == InstructionTasks::ModifyMemory(t.next(cpu, mem).0));
            },
            InstructionTasks::ModifyRegister(t) => {
                t.lemma_next(cpu, mem);
                assert(self.next(cpu, mem).0 == InstructionTasks::ModifyRegister(t.next(cpu, mem).0));
            },
            InstructionTasks::TransferRegisters(t) => {
                t.lemma_next(cpu, mem);
                assert(self.next(cpu, mem).0 == InstructionTasks::TransferRegisters(t.next(cpu, mem).0));
            },
            InstructionTasks::Branch(t) => {
                t.lemma_next(cpu, mem);
                assert(self.next(cpu, mem).0 == InstructionTasks::Branch(t.next(cpu, mem).0));
            },
            InstructionTasks::Jsr(t) => {
                t.lemma_next(cpu, mem);
                assert(self.next(cpu, mem).0 == InstructionTasks::Jsr(t.next(cpu, mem).0));
            },
            InstructionTasks::Rts(t) => {
                t.lemma_next(cpu, mem);
                assert(self.next(cpu, mem).0 == InstructionTasks::Rts(t.next(cpu, mem).0));
            },
            InstructionTasks::Jmp(t) => {
                t.lemma_next(cpu, mem);
                assert(self.next(cpu, mem).0 == InstructionTasks::Jmp(t.next(cpu, mem).0));
            },
            InstructionTasks::PushRegister(t) => {
                t.lemma_next(cpu, mem);
                assert(self.next(cpu, mem).0 == InstructionTasks::PushRegister(t.next(cpu, mem).0));
            },
            InstructionTasks::PullRegister(t) => {
                t.lemma_next(cpu, mem);
                assert(self.next(cpu, mem).0 == InstructionTasks::PullRegister(t.next(cpu, mem).0));
            },
            InstructionTasks::ChangeStatusFlag(t) => {
                t.lemma_next(cpu, mem);
                assert(self.next(cpu, mem).0 == InstructionTasks::ChangeStatusFlag(t.next(cpu, mem).0));
            },
            InstructionTasks::Nop(t) => {
                t.lemma_next(cpu, mem);
                assert(self.next(cpu, mem).0 == InstructionTasks::Nop(t.next(cpu, mem).0));
            },
            InstructionTasks::Brk(t) => {
                t.lemma_next(cpu, mem);
                assert(self.next(cpu, mem).0 == InstructionTasks::Brk(t.next(cpu, mem).0));
            },
            InstructionTasks::Rti(t) => {
                t.lemma_next(cpu, mem);
                assert(self.next(cpu, mem).0 == InstructionTasks::Rti(t.next(cpu, mem).0));
            },
        }
    }

    proof fn lemma_next_ignores_last_access(&self, cpu: CPU, m1: MemView, m2: MemView) {
        match self {
            InstructionTasks::Load(t) => t.lemma_next_ignores_last_access(cpu, m1, m2),
            InstructionTasks::Store(t) => t.lemma_next_ignores_last_access(cpu, m1, m2),
            InstructionTasks::Logical(t) => t.lemma_next_ignores_last_access(cpu, m1, m2),
            InstructionTasks::Compare(t) => t.lemma_next_ignores_last_access(cpu, m1, m2),
            InstructionTasks::Arithmetic(t) => t.lemma_next_ignores_last_access(cpu, m1, m2),
            InstructionTasks::ModifyMemory(t) => t.lemma_next_ignores_last_access(cpu, m1, m2),
            InstructionTasks::ModifyRegister(t) => t.lemma_next_ignores_last_access(cpu, m1, m2),
            InstructionTasks::TransferRegisters(t) => t.lemma_next_ignores_last_access(cpu, m1, m2),
            InstructionTasks::Branch(t) => t.lemma_next_ignores_last_access(cpu, m1, m2),
            InstructionTasks::Jsr(t) => t.lemma_next_ignores_last_access(cpu, m1, m2),
            InstructionTasks::Rts(t) => t.lemma_next_ignores_last_access(cpu, m1, m2),
            InstructionTasks::Jmp(t) => t.lemma_next_ignores_last_access(cpu, m1, m2),
            InstructionTasks::PushRegister(t) => t.lemma_next_ignores_last_access(cpu, m1, m2),
            InstructionTasks::PullRegister(t) => t.lemma_next_ignores_last_access(cpu, m1, m2),
            InstructionTasks::ChangeStatusFlag(t) => t.lemma_next_ignores_last_access(cpu, m1, m2),
            InstructionTasks::Nop(t) => t.lemma_next_ignores_last_access(cpu, m1, m2),
            InstructionTasks::Brk(t) => t.lemma_next_ignores_last_access(cpu, m1, m2),
            InstructionTasks::Rti(t) => t.lemma_next_ignores_last_access(cpu, m1, m2),
        }
    }
}

/// Whether an operand read can run its next cycle (or has its value ready).
pub open spec fn read_ready(read: AnyReadMemoryTasks, addr: Address) -> bool {
    if read.is_done() {
        read.spec_value() is Some
    } else {
        read.can_tick(addr)
    }
}

/// One cycle of an operand read, or nothing when the value is already there.
pub open spec fn read_cycle(read: AnyReadMemoryTasks, cpu: CPU, mem: MemView) -> (
    AnyReadMemoryTasks,
    CPU,
    MemView,
    bool,
) {
    if read.is_done() {
        (read, cpu, mem, true)
    } else {
        read.next(cpu, mem)
    }
}

/// A read cycle keeps the read ready, brings it closer to its end, and yields
/// the operand when it finishes.
pub proof fn lemma_read_cycle(read: AnyReadMemoryTasks, cpu: CPU, mem: MemView)
    requires
        read_ready(read, cpu.addr),
        mem.0.len() == MEMORY_SIZE,
    ensures
        read_cycle(read, cpu, mem).3 ==> read_cycle(read, cpu, mem).0.spec_value() is Some,
        !read_cycle(read, cpu, mem).3 ==> !read_cycle(read, cpu, mem).0.is_done() && read_cycle(
            read,
            cpu,
            mem,
        ).0.can_tick(read_cycle(read, cpu, mem).1.addr),
        !read.is_done() ==> read_cycle(read, cpu, mem).0.remaining() < read.remaining(),
        read_cycle(read, cpu, mem).2.0.len() == MEMORY_SIZE,
        read_cycle(read, cpu, mem).1.cycle == cpu.cycle,
        read_cycle(read, cpu, mem).1.current_instruction == cpu.current_instruction,
        read_cycle(read, cpu, mem).1.chip_variant == cpu.chip_variant,
        read_cycle(read, cpu, mem).1.sync == cpu.sync,
{
    if !read.is_done() {
        read.lemma_next(cpu, mem);
        read.lemma_value_on_finish(cpu, mem);
    }
}

/// Runs one cycle of an operand read; returns the operand once it is known.
pub fn advance_read(
    read: &mut AnyReadMemoryTasks,
    cpu: &mut CPU,
    memory: &mut Generic64kMem,
) -> (r: Option<Byte>)
    requires
        read_ready(*old(read), old(cpu).addr),
        old(memory).wf(),
    ensures
        final(memory).wf(),
        *final(read) == read_cycle(*old(read), *old(cpu), old(memory)@).0,
        *final(cpu) == read_cycle(*old(read), *old(cpu), old(memory)@).1,
        final(memory)@ == read_cycle(*old(read), *old(cpu), old(memory)@).2,
        r == if read_cycle(*old(read), *old(cpu), old(memory)@).3 {
            read_cycle(*old(read), *old(cpu), old(memory)@).0.spec_value()
        } else {
            None
        },
        r is Some == read_cycle(*old(read), *old(cpu), old(memory)@).3,
{
    proof {
        lemma_read_cycle(*read, *cpu, memory@);
    }
    if !read.done() {
        if !read.tick(cpu, memory) {
            return None;
        }
    }
    read.value()
}

/// A decoded instruction: its mnemonic and its work.
pub struct Instruction {
    pub tasks: InstructionTasks,
    pub name: &'static str,
}

/// Mnemonic of every opcode this processor implements.
pub open spec fn opcode_name(opcode: Byte) -> Option<&'static str> {
    match opcode {
        0x69 => Some("ADC"),
        0x65 => Some("ADC"),
        0x75 => Some("ADC"),
        0x6D => Some("ADC"),
        0x7D => Some("ADC"),
        0x79 => Some("ADC"),
        0x61 => Some("ADC"),
        0x71 => Some("ADC"),
        0xE9 => Some("SBC"),
        0xE5 => Some("SBC"),
        0xF5 => Some("SBC"),
        0xED => Some("SBC"),
        0xFD => Some("SBC"),
        0xF9 => Some("SBC"),
        0xE1 => Some("SBC"),
        0xF1 => Some("SBC"),
        0x49 => Some("AND"),
        0x45 => Some("AND"),
        0x55 => Some("AND"),
        0x4D => Some("AND"),
        0x5D => Some("AND"),
        0x59 => Some("AND"),
        0x41 => Some("AND"),
        0x51 => Some("AND"),
        0x29 => Some("EOR"),
        0x25 => Some("EOR"),
        0x35 => Some("EOR"),
        0x2D => Some("EOR"),
        0x3D => Some("EOR"),
        0x39 => Some("EOR"),
        0x21 => Some("EOR"),
        0x31 => Some("EOR"),
        0x09 => Some("ORA"),
        0x05 => Some("ORA"),
        0x15 => Some("ORA"),
        0x0D => Some("ORA"),
        0x1D => Some("ORA"),
        0x19 => Some("ORA"),
        0x01 => Some("ORA"),
        0x11 => Some("ORA"),
        0x24 => Some("BIT"),
        0x2C => Some("BIT"),
        0x0A => Some("ASL"),
        0x06 => Some("ASL"),
        0x16 => Some("ASL"),
        0x0E => Some("ASL"),
        0x1E => Some("ASL"),
        0x4A => Some("LSR"),
        0x46 => Some("LSR"),
        0x56 => Some("LSR"),
        0x4E => Some("LSR"),
        0x5E => Some("LSR"),
        0x2A => Some("ROL"),
        0x26 => Some("ROL"),
        0x36 => Some("ROL"),
        0x2E => Some("ROL"),
        0x3E => Some("ROL"),
        0x6A => Some("ROR"),
        0x66 => Some("ROR"),
        0x76 => Some("ROR"),
        0x6E => Some("ROR"),
        0x7E => Some("ROR"),
        0x90 => Some("BCC"),
        0xB0 => Some("BCS"),
        0xF0 => Some("BEQ"),
        0x30 => Some("BMI"),
        0xD0 => Some("BNE"),
        0x10 => Some("BPL"),
        0x50 => Some("BVC"),
        0x70 => Some("BVS"),
        0x00 => Some("BRK"),
        0x18 => Some("CLC"),
        0xD8 => Some("CLD"),
        0x58 => Some("CLI"),
        0xB8 => Some("CLV"),
        0x38 => Some("SEC"),
        0xF8 => Some("SED"),
        0x78 => Some("SEI"),
        0xC9 => Some("CMP"),
        0xC5 => Some("CMP"),
        0xD5 => Some("CMP"),
        0xCD => Some("CMP"),
        0xDD => Some("CMP"),
        0xD9 => Some("CMP"),
        0xC1 => Some("CMP"),
        0xD1 => Some("CMP"),
        0xE0 => Some("CPX"),
        0xE4 => Some("CPX"),
        0xEC => Some("CPX"),
        0xC0 => Some("CPY"),
        0xC4 => Some("CPY"),
        0xCC => Some("CPY"),
        0xCE => Some("DEC"),
        0xDE => Some("DEC"),
        0xC6 => Some("DEC"),
        0xD6 => Some("DEC"),
        0xE6 => Some("INC"),
        0xF6 => Some("INC"),
        0xEE => Some("INC"),
        0xFE => Some("INC"),
        0xCA => Some("DEX"),
        0x88 => Some("DEY"),
        0xE8 => Some("INX"),
        0xC8 => Some("INY"),
        0x4C => Some("JMP"),
        0x6C => Some("JMP"),
        0x20 => Some("JSR"),
        0xA9 => Some("LDA"),
        0xA5 => Some("LDA"),
        0xB5 => Some("LDA"),
        0xAD => Some("LDA"),
        0xBD => Some("LDA"),
        0xB9 => Some("LDA"),
        0xA1 => Some("LDA"),
        0xB1 => Some("LDA"),
        0xA0 => Some("LDY"),
        0xA4 => Some("LDY"),
        0xB4 => Some("LDY"),
        0xAC => Some("LDY"),
        0xBC => Some("LDY"),
        0xA2 => Some("LDX"),
        0xA6 => Some("LDX"),
        0xB6 => Some("LDX"),
        0xAE => Some("LDX"),
        0xBE => Some("LDX"),
        0xEA => Some("NOP"),
        0x48 => Some("PHA"),
        0x08 => Some("PHP"),
        0x68 => Some("PLA"),
        0x28 => Some("PLP"),
        0x40 => Some("RTI"),
        0x60 => Some("RTS"),
        0x85 => Some("STA"),
        0x95 => Some("STA"),
        0x8D => Some("STA"),
        0x9D => Some("STA"),
        0x99 => Some("STA"),
        0x81 => Some("STA"),
        0x91 => Some("STA"),
        0x86 => Some("STX"),
        0x96 => Some("STX"),
        0x8E => Some("STX"),
        0x84 => Some("STY"),
        0x94 => Some("STY"),
        0x8C => Some("STY"),
        0xAA => Some("TAX"),
        0xA8 => Some("TAY"),
        0xBA => Some("TSX"),
        0x8A => Some("TXA"),
        0x9A => Some("TXS"),
        0x98 => Some("TYA"),
        _ => None,
    }
}

/// The work an implemented opcode starts and the processor state its handler leaves.
pub open spec fn decoded(opcode: Byte, cpu: CPU) -> (InstructionTasks, CPU) {
    match opcode {
        0x69 => (arithmetic_instruction(cpu, None, ArithmeticOperation::Adc), cpu),
        0x65 => (arithmetic_instruction(cpu, Some(AddressingMode::ZeroPage), ArithmeticOperation::Adc), cpu),
        0x75 => (arithmetic_instruction(cpu, Some(AddressingMode::ZeroPageX), ArithmeticOperation::Adc), cpu),
        0x6D => (arithmetic_instruction(cpu, Some(AddressingMode::Absolute), ArithmeticOperation::Adc), cpu),
        0x7D => (arithmetic_instruction(cpu, Some(AddressingMode::AbsoluteX), ArithmeticOperation::Adc), cpu),
        0x79 => (arithmetic_instruction(cpu, Some(AddressingMode::AbsoluteY), ArithmeticOperation::Adc), cpu),
        0x61 => (arithmetic_instruction(cpu, Some(AddressingMode::IndexIndirectX), ArithmeticOperation::Adc), cpu),
        0x71 => (arithmetic_instruction(cpu, Some(AddressingMode::IndirectIndexY), ArithmeticOperation::Adc), cpu),
        0xE9 => (arithmetic_instruction(cpu, None, ArithmeticOperation::Sbc), cpu),
        0xE5 => (arithmetic_instruction(cpu, Some(AddressingMode::ZeroPage), ArithmeticOperation::Sbc), cpu),
        0xF5 => (arithmetic_instruction(cpu, Some(AddressingMode::ZeroPageX), ArithmeticOperation::Sbc), cpu),
        0xED => (arithmetic_instruction(cpu, Some(AddressingMode::Absolute), ArithmeticOperation::Sbc), cpu),
        0xFD => (arithmetic_instruction(cpu, Some(AddressingMode::AbsoluteX), ArithmeticOperation::Sbc), cpu),
        0xF9 => (arithmetic_instruction(cpu, Some(AddressingMode::AbsoluteY), ArithmeticOperation::Sbc), cpu),
        0xE1 => (arithmetic_instruction(cpu, Some(AddressingMode::IndexIndirectX), ArithmeticOperation::Sbc), cpu),
        0xF1 => (arithmetic_instruction(cpu, Some(AddressingMode::IndirectIndexY), ArithmeticOperation::Sbc), cpu),
        0x49 => (logical_instruction(cpu, None, LogicalVariant::And), cpu),
        0x45 => (logical_instruction(cpu, Some(AddressingMode::ZeroPage), LogicalVariant::And), cpu),
        0x55 => (logical_instruction(cpu, Some(AddressingMode::ZeroPageX), LogicalVariant::And), cpu),
        0x4D => (logical_instruction(cpu, Some(AddressingMode::Absolute), LogicalVariant::And), cpu),
        0x5D => (logical_instruction(cpu, Some(AddressingMode::AbsoluteX), LogicalVariant::And), cpu),
        0x59 => (logical_instruction(cpu, Some(AddressingMode::AbsoluteY), LogicalVariant::And), cpu),
        0x41 => (logical_instruction(cpu, Some(AddressingMode::IndexIndirectX), LogicalVariant::And), cpu),
        0x51 => (logical_instruction(cpu, Some(AddressingMode::IndirectIndexY), LogicalVariant::And), cpu),
        0x29 => (logical_instruction(cpu, None, LogicalVariant::Eor), cpu),
        0x25 => (logical_instruction(cpu, Some(AddressingMode::ZeroPage), LogicalVariant::Eor), cpu),
        0x35 => (logical_instruction(cpu, Some(AddressingMode::ZeroPageX), LogicalVariant::Eor), cpu),
        0x2D => (logical_instruction(cpu, Some(AddressingMode::Absolute), LogicalVariant::Eor), cpu),
        0x3D => (logical_instruction(cpu, Some(AddressingMode::AbsoluteX), LogicalVariant::Eor), cpu),
        0x39 => (logical_instruction(cpu, Some(AddressingMode::AbsoluteY), LogicalVariant::Eor), cpu),
        0x21 => (logical_instruction(cpu, Some(AddressingMode::IndexIndirectX), LogicalVariant::Eor), cpu),
        0x31 => (logical_instruction(cpu, Some(AddressingMode::IndirectIndexY), LogicalVariant::Eor), cpu),
        0x09 => (logical_instruction(cpu, None, LogicalVariant::Ora), cpu),
        0x05 => (logical_instruction(cpu, Some(AddressingMode::ZeroPage), LogicalVariant::Ora), cpu),
        0x15 => (logical_instruction(cpu, Some(AddressingMode::ZeroPageX), LogicalVariant::Ora), cpu),
        0x0D => (logical_instruction(cpu, Some(AddressingMode::Absolute), LogicalVariant::Ora), cpu),
        0x1D => (logical_instruction(cpu, Some(AddressingMode::AbsoluteX), LogicalVariant::Ora), cpu),
        0x19 => (logical_instruction(cpu, Some(AddressingMode::AbsoluteY), LogicalVariant::Ora), cpu),
        0x01 => (logical_instruction(cpu, Some(AddressingMode::IndexIndirectX), LogicalVariant::Ora), cpu),
        0x11 => (logical_instruction(cpu, Some(AddressingMode::IndirectIndexY), LogicalVariant::Ora), cpu),
        0x24 => (logical_instruction(cpu, Some(AddressingMode::ZeroPage), LogicalVariant::Bit), cpu),
        0x2C => (logical_instruction(cpu, Some(AddressingMode::Absolute), LogicalVariant::Bit), cpu),
        0x0A => (modify_register_instruction(Registers::Accumulator, ModificationVariant::ShiftLeft), cpu.with_addr(Address::cleared(AddressingMode::Accumulator, true))),
        0x06 => (modify_memory_instruction(cpu, AddressingMode::ZeroPage, ModificationVariant::ShiftLeft), cpu),
        0x16 => (modify_memory_instruction(cpu, AddressingMode::ZeroPageX, ModificationVariant::ShiftLeft), cpu),
        0x0E => (modify_memory_instruction(cpu, AddressingMode::Absolute, ModificationVariant::ShiftLeft), cpu),
        0x1E => (modify_memory_instruction(cpu, AddressingMode::AbsoluteX, ModificationVariant::ShiftLeft), cpu),
        0x4A => (modify_register_instruction(Registers::Accumulator, ModificationVariant::ShiftRight), cpu.with_addr(Address::cleared(AddressingMode::Accumulator, true))),
        0x46 => (modify_memory_instruction(cpu, AddressingMode::ZeroPage, ModificationVariant::ShiftRight), cpu),
        0x56 => (modify_memory_instruction(cpu, AddressingMode::ZeroPageX, ModificationVariant::ShiftRight), cpu),
        0x4E => (modify_memory_instruction(cpu, AddressingMode::Absolute, ModificationVariant::ShiftRight), cpu),
        0x5E => (modify_memory_instruction(cpu, AddressingMode::AbsoluteX, ModificationVariant::ShiftRight), cpu),
        0x2A => (modify_register_instruction(Registers::Accumulator, ModificationVariant::RotateLeft), cpu.with_addr(Address::cleared(AddressingMode::Accumulator, true))),
        0x26 => (modify_memory_instruction(cpu, AddressingMode::ZeroPage, ModificationVariant::RotateLeft), cpu),
        0x36 => (modify_memory_instruction(cpu, AddressingMode::ZeroPageX, ModificationVariant::RotateLeft), cpu),
        0x2E => (modify_memory_instruction(cpu, AddressingMode::Absolute, ModificationVariant::RotateLeft), cpu),
        0x3E => (modify_memory_instruction(cpu, AddressingMode::AbsoluteX, ModificationVariant::RotateLeft), cpu),
        0x6A => (modify_register_instruction(Registers::Accumulator, ModificationVariant::RotateRight), cpu.with_addr(Address::cleared(AddressingMode::Accumulator, true))),
        0x66 => (modify_memory_instruction(cpu, AddressingMode::ZeroPage, ModificationVariant::RotateRight), cpu),
        0x76 => (modify_memory_instruction(cpu, AddressingMode::ZeroPageX, ModificationVariant::RotateRight), cpu),
        0x6E => (modify_memory_instruction(cpu, AddressingMode::Absolute, ModificationVariant::RotateRight), cpu),
        0x7E => (modify_memory_instruction(cpu, AddressingMode::AbsoluteX, ModificationVariant::RotateRight), cpu),
        0x90 => (branch_instruction(BranchCondition::FlagClear(Flags::Carry)), cpu.with_addr(Address::cleared(AddressingMode::Relative, false))),
        0xB0 => (branch_instruction(BranchCondition::FlagSet(Flags::Carry)), cpu.with_addr(Address::cleared(AddressingMode::Relative, false))),
        0xF0 => (branch_instruction(BranchCondition::FlagSet(Flags::Zero)), cpu.with_addr(Address::cleared(AddressingMode::Relative, false))),
        0x30 => (branch_instruction(BranchCondition::FlagSet(Flags::Negative)), cpu.with_addr(Address::cleared(AddressingMode::Relative, false))),
        0xD0 => (branch_instruction(BranchCondition::FlagClear(Flags::Zero)), cpu.with_addr(Address::cleared(AddressingMode::Relative, false))),
        0x10 => (branch_instruction(BranchCondition::FlagClear(Flags::Negative)), cpu.with_addr(Address::cleared(AddressingMode::Relative, false))),
        0x50 => (branch_instruction(BranchCondition::FlagClear(Flags::Overflow)), cpu.with_addr(Address::cleared(AddressingMode::Relative, false))),
        0x70 => (branch_instruction(BranchCondition::FlagSet(Flags::Overflow)), cpu.with_addr(Address::cleared(AddressingMode::Relative, false))),
        0x00 => (brk_instruction(), cpu.with_addr(Address::cleared(AddressingMode::Implicit, true))),
        0x18 => (flag_instruction(Flags::Carry, false), cpu),
        0xD8 => (flag_instruction(Flags::DecimalMode, false), cpu),
        0x58 => (flag_instruction(Flags::InterruptDisable, false), cpu),
        0xB8 => (flag_instruction(Flags::Overflow, false), cpu),
        0x38 => (flag_instruction(Flags::Carry, true), cpu),
        0xF8 => (flag_instruction(Flags::DecimalMode, true), cpu),
        0x78 => (flag_instruction(Flags::InterruptDisable, true), cpu),
        0xC9 => (compare_instruction(cpu, None, Registers::Accumulator), cpu),
        0xC5 => (compare_instruction(cpu, Some(AddressingMode::ZeroPage), Registers::Accumulator), cpu),
        0xD5 => (compare_instruction(cpu, Some(AddressingMode::ZeroPageX), Registers::Accumulator), cpu),
        0xCD => (compare_instruction(cpu, Some(AddressingMode::Absolute), Registers::Accumulator), cpu),
        0xDD => (compare_instruction(cpu, Some(AddressingMode::AbsoluteX), Registers::Accumulator), cpu),
        0xD9 => (compare_instruction(cpu, Some(AddressingMode::AbsoluteY), Registers::Accumulator), cpu),
        0xC1 => (compare_instruction(cpu, Some(AddressingMode::IndexIndirectX), Registers::Accumulator), cpu),
        0xD1 => (compare_instruction(cpu, Some(AddressingMode::IndirectIndexY), Registers::Accumulator), cpu),
        0xE0 => (compare_instruction(cpu, None, Registers::IndexX), cpu),
        0xE4 => (compare_instruction(cpu, Some(AddressingMode::ZeroPage), Registers::IndexX), cpu),
        0xEC => (compare_instruction(cpu, Some(AddressingMode::Absolute), Registers::IndexX), cpu),
        0xC0 => (compare_instruction(cpu, None, Registers::IndexY), cpu),
        0xC4 => (compare_instruction(cpu, Some(AddressingMode::ZeroPage), Registers::IndexY), cpu),
        0xCC => (compare_instruction(cpu, Some(AddressingMode::Absolute), Registers::IndexY), cpu),
        0xCE => (modify_memory_instruction(cpu, AddressingMode::Absolute, ModificationVariant::Dec), cpu),
        0xDE => (modify_memory_instruction(cpu, AddressingMode::AbsoluteX, ModificationVariant::Dec), cpu),
        0xC6 => (modify_memory_instruction(cpu, AddressingMode::ZeroPage, ModificationVariant::Dec), cpu),
        0xD6 => (modify_memory_instruction(cpu, AddressingMode::ZeroPageX, ModificationVariant::Dec), cpu),
        0xE6 => (modify_memory_instruction(cpu, AddressingMode::ZeroPage, ModificationVariant::Inc), cpu),
        0xF6 => (modify_memory_instruction(cpu, AddressingMode::ZeroPageX, ModificationVariant::Inc), cpu),
        0xEE => (modify_memory_instruction(cpu, AddressingMode::Absolute, ModificationVariant::Inc), cpu),
        0xFE => (modify_memory_instruction(cpu, AddressingMode::AbsoluteX, ModificationVariant::Inc), cpu),
        0xCA => (modify_register_instruction(Registers::IndexX, ModificationVariant::Dec), cpu),
        0x88 => (modify_register_instruction(Registers::IndexY, ModificationVariant::Dec), cpu),
        0xE8 => (modify_register_instruction(Registers::IndexX, ModificationVariant::Inc), cpu),
        0xC8 => (modify_register_instruction(Registers::IndexY, ModificationVariant::Inc), cpu),
        0x4C => (jmp_absolute_instruction(), cpu),
        0x6C => (jmp_indirect_instruction(cpu.chip_variant), cpu),
        0x20 => (jsr_instruction(), cpu),
        0xA9 => (load_instruction(cpu, None, Registers::Accumulator), cpu),
        0xA5 => (load_instruction(cpu, Some(AddressingMode::ZeroPage), Registers::Accumulator), cpu),
        0xB5 => (load_instruction(cpu, Some(AddressingMode::ZeroPageX), Registers::Accumulator), cpu),
        0xAD => (load_instruction(cpu, Some(AddressingMode::Absolute), Registers::Accumulator), cpu),
        0xBD => (load_instruction(cpu, Some(AddressingMode::AbsoluteX), Registers::Accumulator), cpu),
        0xB9 => (load_instruction(cpu, Some(AddressingMode::AbsoluteY), Registers::Accumulator), cpu),
        0xA1 => (load_instruction(cpu, Some(AddressingMode::IndexIndirectX), Registers::Accumulator), cpu),
        0xB1 => (load_instruction(cpu, Some(AddressingMode::IndirectIndexY), Registers::Accumulator), cpu),
        0xA0 => (load_instruction(cpu, None, Registers::IndexY), cpu),
        0xA4 => (load_instruction(cpu, Some(AddressingMode::ZeroPage), Registers::IndexY), cpu),
        0xB4 => (load_instruction(cpu, Some(AddressingMode::ZeroPageX), Registers::IndexY), cpu),
        0xAC => (load_instruction(cpu, Some(AddressingMode::Absolute), Registers::IndexY), cpu),
        0xBC => (load_instruction(cpu, Some(AddressingMode::AbsoluteX), Registers::IndexY), cpu),
        0xA2 => (load_instruction(cpu, None, Registers::IndexX), cpu),
        0xA6 => (load_instruction(cpu, Some(AddressingMode::ZeroPage), Registers::IndexX), cpu),
        0xB6 => (load_instruction(cpu, Some(AddressingMode::ZeroPageY), Registers::IndexX), cpu),
        0xAE => (load_instruction(cpu, Some(AddressingMode::Absolute), Registers::IndexX), cpu),
        0xBE => (load_instruction(cpu, Some(AddressingMode::AbsoluteY), Registers::IndexX), cpu),
        0xEA => (nop_instruction(), cpu.with_addr(Address::cleared(AddressingMode::Implicit, true))),
        0x48 => (push_instruction(Registers::Accumulator), cpu),
        0x08 => (push_instruction(Registers::ProcessorStatus), cpu),
        0x68 => (pull_instruction(Registers::Accumulator), cpu),
        0x28 => (pull_instruction(Registers::ProcessorStatus), cpu),
        0x40 => (rti_instruction(), cpu.with_addr(Address::cleared(AddressingMode::Implicit, true))),
        0x60 => (rts_instruction(), cpu.with_addr(Address::cleared(AddressingMode::Implicit, true))),
        0x85 => (store_instruction(cpu, AddressingMode::ZeroPage, Registers::Accumulator), cpu),
        0x95 => (store_instruction(cpu, AddressingMode::ZeroPageX, Registers::Accumulator), cpu),
        0x8D => (store_instruction(cpu, AddressingMode::Absolute, Registers::Accumulator), cpu),
        0x9D => (store_instruction(cpu, AddressingMode::AbsoluteX, Registers::Accumulator), cpu),
        0x99 => (store_instruction(cpu, AddressingMode::AbsoluteY, Registers::Accumulator), cpu),
        0x81 => (store_instruction(cpu, AddressingMode::IndexIndirectX, Registers::Accumulator), cpu),
        0x91 => (store_instruction(cpu, AddressingMode::IndirectIndexY, Registers::Accumulator), cpu),
        0x86 => (store_instruction(cpu, AddressingMode::ZeroPage, Registers::IndexX), cpu),
        0x96 => (store_instruction(cpu, AddressingMode::ZeroPageY, Registers::IndexX), cpu),
        0x8E => (store_instruction(cpu, AddressingMode::Absolute, Registers::IndexX), cpu),
        0x84 => (store_instruction(cpu, AddressingMode::ZeroPage, Registers::IndexY), cpu),
        0x94 => (store_instruction(cpu, AddressingMode::ZeroPageX, Registers::IndexY), cpu),
        0x8C => (store_instruction(cpu, AddressingMode::Absolute, Registers::IndexY), cpu),
        0xAA => (transfer_instruction(Registers::Accumulator, Registers::IndexX), cpu),
        0xA8 => (transfer_instruction(Registers::Accumulator, Registers::IndexY), cpu),
        0xBA => (transfer_instruction(Registers::StackPointer, Registers::IndexX), cpu),
        0x8A => (transfer_instruction(Registers::IndexX, Registers::Accumulator), cpu),
        0x9A => (transfer_instruction(Registers::IndexX, Registers::StackPointer), cpu),
        0x98 => (transfer_instruction(Registers::IndexY, Registers::Accumulator), cpu),
        _ => (nop_instruction(), cpu),
    }
}

/// No instruction's work lasts more than fifteen cycles.
pub proof fn lemma_remaining_bound(tasks: InstructionTasks)
    ensures
        tasks.remaining() <= 15,
{
}

/// A freshly decoded instruction has work to do, can run its first cycle whatever
/// the address register holds, and its handler changed nothing but that register.
pub proof fn lemma_decoded_ready(opcode: Byte, cpu: CPU)
    requires
        opcode_name(opcode) is Some,
    ensures
        !decoded(opcode, cpu).0.is_done(),
        forall|a: Address| decoded(opcode, cpu).0.can_tick(a),
        decoded(opcode, cpu).1 == cpu.with_addr(decoded(opcode, cpu).1.addr),
{
}

/// The opcode table: which instruction each of the 151 implemented opcodes starts (its
/// operation, addressing mode, register, flag or branch condition) and its mnemonic, as
/// the original opcode map gives them; every other byte is not an instruction.
pub proof fn lemma_decode_table(opcode: Byte, cpu: CPU)
    ensures
        opcode == 0x69 ==> decoded(opcode, cpu) == (arithmetic_instruction(cpu, None, ArithmeticOperation::Adc), cpu) && opcode_name(opcode) == Some("ADC"),
        opcode == 0x65 ==> decoded(opcode, cpu) == (arithmetic_instruction(cpu, Some(AddressingMode::ZeroPage), ArithmeticOperation::Adc), cpu) && opcode_name(opcode) == Some("ADC"),
        opcode == 0x75 ==> decoded(opcode, cpu) == (arithmetic_instruction(cpu, Some(AddressingMode::ZeroPageX), ArithmeticOperation::Adc), cpu) && opcode_name(opcode) == Some("ADC"),
        opcode == 0x6D ==> decoded(opcode, cpu) == (arithmetic_instruction(cpu, Some(AddressingMode::Absolute), ArithmeticOperation::Adc), cpu) && opcode_name(opcode) == Some("ADC"),
        opcode == 0x7D ==> decoded(opcode, cpu) == (arithmetic_instruction(cpu, Some(AddressingMode::AbsoluteX), ArithmeticOperation::Adc), cpu) && opcode_name(opcode) == Some("ADC"),
        opcode == 0x79 ==> decoded(opcode, cpu) == (arithmetic_instruction(cpu, Some(AddressingMode::AbsoluteY), ArithmeticOperation::Adc), cpu) && opcode_name(opcode) == Some("ADC"),
        opcode == 0x61 ==> decoded(opcode, cpu) == (arithmetic_instruction(cpu, Some(AddressingMode::IndexIndirectX), ArithmeticOperation::Adc), cpu) && opcode_name(opcode) == Some("ADC"),
        opcode == 0x71 ==> decoded(opcode, cpu) == (arithmetic_instruction(cpu, Some(AddressingMode::IndirectIndexY), ArithmeticOperation::Adc), cpu) && opcode_name(opcode) == Some("ADC"),
        opcode == 0xE9 ==> decoded(opcode, cpu) == (arithmetic_instruction(cpu, None, ArithmeticOperation::Sbc), cpu) && opcode_name(opcode) == Some("SBC"),
        opcode == 0xE5 ==> decoded(opcode, cpu) == (arithmetic_instruction(cpu, Some(AddressingMode::ZeroPage), ArithmeticOperation::Sbc), cpu) && opcode_name(opcode) == Some("SBC"),
        opcode == 0xF5 ==> decoded(opcode, cpu) == (arithmetic_instruction(cpu, Some(AddressingMode::ZeroPageX), ArithmeticOperation::Sbc), cpu) && opcode_name(opcode) == Some("SBC"),
        opcode == 0xED ==> decoded(opcode, cpu) == (arithmetic_instruction(cpu, Some(AddressingMode::Absolute), ArithmeticOperation::Sbc), cpu) && opcode_name(opcode) == Some("SBC"),
        opcode == 0xFD ==> decoded(opcode, cpu) == (arithmetic_instruction(cpu, Some(AddressingMode::AbsoluteX), ArithmeticOperation::Sbc), cpu) && opcode_name(opcode) == Some("SBC"),
        opcode == 0xF9 ==> decoded(opcode, cpu) == (arithmetic_instruction(cpu, Some(AddressingMode::AbsoluteY), ArithmeticOperation::Sbc), cpu) && opcode_name(opcode) == Some("SBC"),
        opcode == 0xE1 ==> decoded(opcode, cpu) == (arithmetic_instruction(cpu, Some(AddressingMode::IndexIndirectX), ArithmeticOperation::Sbc), cpu) && opcode_name(opcode) == Some("SBC"),
        opcode == 0xF1 ==> decoded(opcode, cpu) == (arithmetic_instruction(cpu, Some(AddressingMode::IndirectIndexY), ArithmeticOperation::Sbc), cpu) && opcode_name(opcode) == Some("SBC"),
        opcode == 0x49 ==> decoded(opcode, cpu) == (logical_instruction(cpu, None, LogicalVariant::And), cpu) && opcode_name(opcode) == Some("AND"),
        opcode == 0x45 ==> decoded(opcode, cpu) == (logical_instruction(cpu, Some(AddressingMode::ZeroPage), LogicalVariant::And), cpu) && opcode_name(opcode) == Some("AND"),
        opcode == 0x55 ==> decoded(opcode, cpu) == (logical_instruction(cpu, Some(AddressingMode::ZeroPageX), LogicalVariant::And), cpu) && opcode_name(opcode) == Some("AND"),
        opcode == 0x4D ==> decoded(opcode, cpu) == (logical_instruction(cpu, Some(AddressingMode::Absolute), LogicalVariant::And), cpu) && opcode_name(opcode) == Some("AND"),
        opcode == 0x5D ==> decoded(opcode, cpu) == (logical_instruction(cpu, Some(AddressingMode::AbsoluteX), LogicalVariant::And), cpu) && opcode_name(opcode) == Some("AND"),
        opcode == 0x59 ==> decoded(opcode, cpu) == (logical_instruction(cpu, Some(AddressingMode::AbsoluteY), LogicalVariant::And), cpu) && opcode_name(opcode) == Some("AND"),
        opcode == 0x41 ==> decoded(opcode, cpu) == (logical_instruction(cpu, Some(AddressingMode::IndexIndirectX), LogicalVariant::And), cpu) && opcode_name(opcode) == Some("AND"),
        opcode == 0x51 ==> decoded(opcode, cpu) == (logical_instruction(cpu, Some(AddressingMode::IndirectIndexY), LogicalVariant::And), cpu) && opcode_name(opcode) == Some("AND"),
        opcode == 0x29 ==> decoded(opcode, cpu) == (logical_instruction(cpu, None, LogicalVariant::Eor), cpu) && opcode_name(opcode) == Some("EOR"),
        opcode == 0x25 ==> decoded(opcode, cpu) == (logical_instruction(cpu, Some(AddressingMode::ZeroPage), LogicalVariant::Eor), cpu) && opcode_name(opcode) == Some("EOR"),
        opcode == 0x35 ==> decoded(opcode, cpu) == (logical_instruction(cpu, Some(AddressingMode::ZeroPageX), LogicalVariant::Eor), cpu) && opcode_name(opcode) == Some("EOR"),
        opcode == 0x2D ==> decoded(opcode, cpu) == (logical_instruction(cpu, Some(AddressingMode::Absolute), LogicalVariant::Eor), cpu) && opcode_name(opcode) == Some("EOR"),
        opcode == 0x3D ==> decoded(opcode, cpu) == (logical_instruction(cpu, Some(AddressingMode::AbsoluteX), LogicalVariant::Eor), cpu) && opcode_name(opcode) == Some("EOR"),
        opcode == 0x39 ==> decoded(opcode, cpu) == (logical_instruction(cpu, Some(AddressingMode::AbsoluteY), LogicalVariant::Eor), cpu) && opcode_name(opcode) == Some("EOR"),
        opcode == 0x21 ==> decoded(opcode, cpu) == (logical_instruction(cpu, Some(AddressingMode::IndexIndirectX), LogicalVariant::Eor), cpu) && opcode_name(opcode) == Some("EOR"),
        opcode == 0x31 ==> decoded(opcode, cpu) == (logical_instruction(cpu, Some(AddressingMode::IndirectIndexY), LogicalVariant::Eor), cpu) && opcode_name(opcode) == Some("EOR"),
        opcode == 0x09 ==> decoded(opcode, cpu) == (logical_instruction(cpu, None, LogicalVariant::Ora), cpu) && opcode_name(opcode) == Some("ORA"),
        opcode == 0x05 ==> decoded(opcode, cpu) == (logical_instruction(cpu, Some(AddressingMode::ZeroPage), LogicalVariant::Ora), cpu) && opcode_name(opcode) == Some("ORA"),
        opcode == 0x15 ==> decoded(opcode, cpu) == (logical_instruction(cpu, Some(AddressingMode::ZeroPageX), LogicalVariant::Ora), cpu) && opcode_name(opcode) == Some("ORA"),
        opcode == 0x0D ==> decoded(opcode, cpu) == (logical_instruction(cpu, Some(AddressingMode::Absolute), LogicalVariant::Ora), cpu) && opcode_name(opcode) == Some("ORA"),
        opcode == 0x1D ==> decoded(opcode, cpu) == (logical_instruction(cpu, Some(AddressingMode::AbsoluteX), LogicalVariant::Ora), cpu) && opcode_name(opcode) == Some("ORA"),
        opcode == 0x19 ==> decoded(opcode, cpu) == (logical_instruction(cpu, Some(AddressingMode::AbsoluteY), LogicalVariant::Ora), cpu) && opcode_name(opcode) == Some("ORA"),
        opcode == 0x01 ==> decoded(opcode, cpu) == (logical_instruction(cpu, Some(AddressingMode::IndexIndirectX), LogicalVariant::Ora), cpu) && opcode_name(opcode) == Some("ORA"),
        opcode == 0x11 ==> decoded(opcode, cpu) == (logical_instruction(cpu, Some(AddressingMode::IndirectIndexY), LogicalVariant::Ora), cpu) && opcode_name(opcode) == Some("ORA"),
        opcode == 0x24 ==> decoded(opcode, cpu) == (logical_instruction(cpu, Some(AddressingMode::ZeroPage), LogicalVariant::Bit), cpu) && opcode_name(opcode) == Some("BIT"),
        opcode == 0x2C ==> decoded(opcode, cpu) == (logical_instruction(cpu, Some(AddressingMode::Absolute), LogicalVariant::Bit), cpu) && opcode_name(opcode) == Some("BIT"),
        opcode == 0x0A ==> decoded(opcode, cpu) == (modify_register_instruction(Registers::Accumulator, ModificationVariant::ShiftLeft), cpu.with_addr(Address::cleared(AddressingMode::Accumulator, true))) && opcode_name(opcode) == Some("ASL"),
        opcode == 0x06 ==> decoded(opcode, cpu) == (modify_memory_instruction(cpu, AddressingMode::ZeroPage, ModificationVariant::ShiftLeft), cpu) && opcode_name(opcode) == Some("ASL"),
        opcode == 0x16 ==> decoded(opcode, cpu) == (modify_memory_instruction(cpu, AddressingMode::ZeroPageX, ModificationVariant::ShiftLeft), cpu) && opcode_name(opcode) == Some("ASL"),
        opcode == 0x0E ==> decoded(opcode, cpu) == (modify_memory_instruction(cpu, AddressingMode::Absolute, ModificationVariant::ShiftLeft), cpu) && opcode_name(opcode) == Some("ASL"),
        opcode == 0x1E ==> decoded(opcode, cpu) == (modify_memory_instruction(cpu, AddressingMode::AbsoluteX, ModificationVariant::ShiftLeft), cpu) && opcode_name(opcode) == Some("ASL"),
        opcode == 0x4A ==> decoded(opcode, cpu) == (modify_register_instruction(Registers::Accumulator, ModificationVariant::ShiftRight), cpu.with_addr(Address::cleared(AddressingMode::Accumulator, true))) && opcode_name(opcode) == Some("LSR"),
        opcode == 0x46 ==> decoded(opcode, cpu) == (modify_memory_instruction(cpu, AddressingMode::ZeroPage, ModificationVariant::ShiftRight), cpu) && opcode_name(opcode) == Some("LSR"),
        opcode == 0x56 ==> decoded(opcode, cpu) == (modify_memory_instruction(cpu, AddressingMode::ZeroPageX, ModificationVariant::ShiftRight), cpu) && opcode_name(opcode) == Some("LSR"),
        opcode == 0x4E ==> decoded(opcode, cpu) == (modify_memory_instruction(cpu, AddressingMode::Absolute, ModificationVariant::ShiftRight), cpu) && opcode_name(opcode) == Some("LSR"),
        opcode == 0x5E ==> decoded(opcode, cpu) == (modify_memory_instruction(cpu, AddressingMode::AbsoluteX, ModificationVariant::ShiftRight), cpu) && opcode_name(opcode) == Some("LSR"),
        opcode == 0x2A ==> decoded(opcode, cpu) == (modify_register_instruction(Registers::Accumulator, ModificationVariant::RotateLeft), cpu.with_addr(Address::cleared(AddressingMode::Accumulator, true))) && opcode_name(opcode) == Some("ROL"),
        opcode == 0x26 ==> decoded(opcode, cpu) == (modify_memory_instruction(cpu, AddressingMode::ZeroPage, ModificationVariant::RotateLeft), cpu) && opcode_name(opcode) == Some("ROL"),
        opcode == 0x36 ==> decoded(opcode, cpu) == (modify_memory_instruction(cpu, AddressingMode::ZeroPageX, ModificationVariant::RotateLeft), cpu) && opcode_name(opcode) == Some("ROL"),
        opcode == 0x2E ==> decoded(opcode, cpu) == (modify_memory_instruction(cpu, AddressingMode::Absolute, ModificationVariant::RotateLeft), cpu) && opcode_name(opcode) == Some("ROL"),
        opcode == 0x3E ==> decoded(opcode, cpu) == (modify_memory_instruction(cpu, AddressingMode::AbsoluteX, ModificationVariant::RotateLeft), cpu) && opcode_name(opcode) == Some("ROL"),
        opcode == 0x6A ==> decoded(opcode, cpu) == (modify_register_instruction(Registers::Accumulator, ModificationVariant::RotateRight), cpu.with_addr(Address::cleared(AddressingMode::Accumulator, true))) && opcode_name(opcode) == Some("ROR"),
        opcode == 0x66 ==> decoded(opcode, cpu) == (modify_memory_instruction(cpu, AddressingMode::ZeroPage, ModificationVariant::RotateRight), cpu) && opcode_name(opcode) == Some("ROR"),
        opcode == 0x76 ==> decoded(opcode, cpu) == (modify_memory_instruction(cpu, AddressingMode::ZeroPageX, ModificationVariant::RotateRight), cpu) && opcode_name(opcode) == Some("ROR"),
        opcode == 0x6E ==> decoded(opcode, cpu) == (modify_memory_instruction(cpu, AddressingMode::Absolute, ModificationVariant::RotateRight), cpu) && opcode_name(opcode) == Some("ROR"),
        opcode == 0x7E ==> decoded(opcode, cpu) == (modify_memory_instruction(cpu, AddressingMode::AbsoluteX, ModificationVariant::RotateRight), cpu) && opcode_name(opcode) == Some("ROR"),
        opcode == 0x90 ==> decoded(opcode, cpu) == (branch_instruction(BranchCondition::FlagClear(Flags::Carry)), cpu.with_addr(Address::cleared(AddressingMode::Relative, false))) && opcode_name(opcode) == Some("BCC"),
        opcode == 0xB0 ==> decoded(opcode, cpu) == (branch_instruction(BranchCondition::FlagSet(Flags::Carry)), cpu.with_addr(Address::cleared(AddressingMode::Relative, false))) && opcode_name(opcode) == Some("BCS"),
        opcode == 0xF0 ==> decoded(opcode, cpu) == (branch_instruction(BranchCondition::FlagSet(Flags::Zero)), cpu.with_addr(Address::cleared(AddressingMode::Relative, false))) && opcode_name(opcode) == Some("BEQ"),
        opcode == 0x30 ==> decoded(opcode, cpu) == (branch_instruction(BranchCondition::FlagSet(Flags::Negative)), cpu.with_addr(Address::cleared(AddressingMode::Relative, false))) && opcode_name(opcode) == Some("BMI"),
        opcode == 0xD0 ==> decoded(opcode, cpu) == (branch_instruction(BranchCondition::FlagClear(Flags::Zero)), cpu.with_addr(Address::cleared(AddressingMode::Relative, false))) && opcode_name(opcode) == Some("BNE"),
        opcode == 0x10 ==> decoded(opcode, cpu) == (branch_instruction(BranchCondition::FlagClear(Flags::Negative)), cpu.with_addr(Address::cleared(AddressingMode::Relative, false))) && opcode_name(opcode) == Some("BPL"),
        opcode == 0x50 ==> decoded(opcode, cpu) == (branch_instruction(BranchCondition::FlagClear(Flags::Overflow)), cpu.with_addr(Address::cleared(AddressingMode::Relative, false))) && opcode_name(opcode) == Some("BVC"),
        opcode == 0x70 ==> decoded(opcode, cpu) == (branch_instruction(BranchCondition::FlagSet(Flags::Overflow)), cpu.with_addr(Address::cleared(AddressingMode::Relative, false))) && opcode_name(opcode) == Some("BVS"),
        opcode == 0x00 ==> decoded(opcode, cpu) == (brk_instruction(), cpu.with_addr(Address::cleared(AddressingMode::Implicit, true))) && opcode_name(opcode) == Some("BRK"),
        opcode == 0x18 ==> decoded(opcode, cpu) == (flag_instruction(Flags::Carry, false), cpu) && opcode_name(opcode) == Some("CLC"),
        opcode == 0xD8 ==> decoded(opcode, cpu) == (flag_instruction(Flags::DecimalMode, false), cpu) && opcode_name(opcode) == Some("CLD"),
        opcode == 0x58 ==> decoded(opcode, cpu) == (flag_instruction(Flags::InterruptDisable, false), cpu) && opcode_name(opcode) == Some("CLI"),
        opcode == 0xB8 ==> decoded(opcode, cpu) == (flag_instruction(Flags::Overflow, false), cpu) && opcode_name(opcode) == Some("CLV"),
        opcode == 0x38 ==> decoded(opcode, cpu) == (flag_instruction(Flags::Carry, true), cpu) && opcode_name(opcode) == Some("SEC"),
        opcode == 0xF8 ==> decoded(opcode, cpu) == (flag_instruction(Flags::DecimalMode, true), cpu) && opcode_name(opcode) == Some("SED"),
        opcode == 0x78 ==> decoded(opcode, cpu) == (flag_instruction(Flags::InterruptDisable, true), cpu) && opcode_name(opcode) == Some("SEI"),
        opcode == 0xC9 ==> decoded(opcode, cpu) == (compare_instruction(cpu, None, Registers::Accumulator), cpu) && opcode_name(opcode) == Some("CMP"),
        opcode == 0xC5 ==> decoded(opcode, cpu) == (compare_instruction(cpu, Some(AddressingMode::ZeroPage), Registers::Accumulator), cpu) && opcode_name(opcode) == Some("CMP"),
        opcode == 0xD5 ==> decoded(opcode, cpu) == (compare_instruction(cpu, Some(AddressingMode::ZeroPageX), Registers::Accumulator), cpu) && opcode_name(opcode) == Some("CMP"),
        opcode == 0xCD ==> decoded(opcode, cpu) == (compare_instruction(cpu, Some(AddressingMode::Absolute), Registers::Accumulator), cpu) && opcode_name(opcode) == Some("CMP"),
        opcode == 0xDD ==> decoded(opcode, cpu) == (compare_instruction(cpu, Some(AddressingMode::AbsoluteX), Registers::Accumulator), cpu) && opcode_name(opcode) == Some("CMP"),
        opcode == 0xD9 ==> decoded(opcode, cpu) == (compare_instruction(cpu, Some(AddressingMode::AbsoluteY), Registers::Accumulator), cpu) && opcode_name(opcode) == Some("CMP"),
        opcode == 0xC1 ==> decoded(opcode, cpu) == (compare_instruction(cpu, Some(AddressingMode::IndexIndirectX), Registers::Accumulator), cpu) && opcode_name(opcode) == Some("CMP"),
        opcode == 0xD1 ==> decoded(opcode, cpu) == (compare_instruction(cpu, Some(AddressingMode::IndirectIndexY), Registers::Accumulator), cpu) && opcode_name(opcode) == Some("CMP"),
        opcode == 0xE0 ==> decoded(opcode, cpu) == (compare_instruction(cpu, None, Registers::IndexX), cpu) && opcode_name(opcode) == Some("CPX"),
        opcode == 0xE4 ==> decoded(opcode, cpu) == (compare_instruction(cpu, Some(AddressingMode::ZeroPage), Registers::IndexX), cpu) && opcode_name(opcode) == Some("CPX"),
        opcode == 0xEC ==> decoded(opcode, cpu) == (compare_instruction(cpu, Some(AddressingMode::Absolute), Registers::IndexX), cpu) && opcode_name(opcode) == Some("CPX"),
        opcode == 0xC0 ==> decoded(opcode, cpu) == (compare_instruction(cpu, None, Registers::IndexY), cpu) && opcode_name(opcode) == Some("CPY"),
        opcode == 0xC4 ==> decoded(opcode, cpu) == (compare_instruction(cpu, Some(AddressingMode::ZeroPage), Registers::IndexY), cpu) && opcode_name(opcode) == Some("CPY"),
        opcode == 0xCC ==> decoded(opcode, cpu) == (compare_instruction(cpu, Some(AddressingMode::Absolute), Registers::IndexY), cpu) && opcode_name(opcode) == Some("CPY"),
        opcode == 0xCE ==> decoded(opcode, cpu) == (modify_memory_instruction(cpu, AddressingMode::Absolute, ModificationVariant::Dec), cpu) && opcode_name(opcode) == Some("DEC"),
        opcode == 0xDE ==> decoded(opcode, cpu) == (modify_memory_instruction(cpu, AddressingMode::AbsoluteX, ModificationVariant::Dec), cpu) && opcode_name(opcode) == Some("DEC"),
        opcode == 0xC6 ==> decoded(opcode, cpu) == (modify_memory_instruction(cpu, AddressingMode::ZeroPage, ModificationVariant::Dec), cpu) && opcode_name(opcode) == Some("DEC"),
        opcode == 0xD6 ==> decoded(opcode, cpu) == (modify_memory_instruction(cpu, AddressingMode::ZeroPageX, ModificationVariant::Dec), cpu) && opcode_name(opcode) == Some("DEC"),
        opcode == 0xE6 ==> decoded(opcode, cpu) == (modify_memory_instruction(cpu, AddressingMode::ZeroPage, ModificationVariant::Inc), cpu) && opcode_name(opcode) == Some("INC"),
        opcode == 0xF6 ==> decoded(opcode, cpu) == (modify_memory_instruction(cpu, AddressingMode::ZeroPageX, ModificationVariant::Inc), cpu) && opcode_name(opcode) == Some("INC"),
        opcode == 0xEE ==> decoded(opcode, cpu) == (modify_memory_instruction(cpu, AddressingMode::Absolute, ModificationVariant::Inc), cpu) && opcode_name(opcode) == Some("INC"),
        opcode == 0xFE ==> decoded(opcode, cpu) == (modify_memory_instruction(cpu, AddressingMode::AbsoluteX, ModificationVariant::Inc), cpu) && opcode_name(opcode) == Some("INC"),
        opcode == 0xCA ==> decoded(opcode, cpu) == (modify_register_instruction(Registers::IndexX, ModificationVariant::Dec), cpu) && opcode_name(opcode) == Some("DEX"),
        opcode == 0x88 ==> decoded(opcode, cpu) == (modify_register_instruction(Registers::IndexY, ModificationVariant::Dec), cpu) && opcode_name(opcode) == Some("DEY"),
        opcode == 0xE8 ==> decoded(opcode, cpu) == (modify_register_instruction(Registers::IndexX, ModificationVariant::Inc), cpu) && opcode_name(opcode) == Some("INX"),
        opcode == 0xC8 ==> decoded(opcode, cpu) == (modify_register_instruction(Registers::IndexY, ModificationVariant::Inc), cpu) && opcode_name(opcode) == Some("INY"),
        opcode == 0x4C ==> decoded(opcode, cpu) == (jmp_absolute_instruction(), cpu) && opcode_name(opcode) == Some("JMP"),
        opcode == 0x6C ==> decoded(opcode, cpu) == (jmp_indirect_instruction(cpu.chip_variant), cpu) && opcode_name(opcode) == Some("JMP"),
        opcode == 0x20 ==> decoded(opcode, cpu) == (jsr_instruction(), cpu) && opcode_name(opcode) == Some("JSR"),
        opcode == 0xA9 ==> decoded(opcode, cpu) == (load_instruction(cpu, None, Registers::Accumulator), cpu) && opcode_name(opcode) == Some("LDA"),
        opcode == 0xA5 ==> decoded(opcode, cpu) == (load_instruction(cpu, Some(AddressingMode::ZeroPage), Registers::Accumulator), cpu) && opcode_name(opcode) == Some("LDA"),
        opcode == 0xB5 ==> decoded(opcode, cpu) == (load_instruction(cpu, Some(AddressingMode::ZeroPageX), Registers::Accumulator), cpu) && opcode_name(opcode) == Some("LDA"),
        opcode == 0xAD ==> decoded(opcode, cpu) == (load_instruction(cpu, Some(AddressingMode::Absolute), Registers::Accumulator), cpu) && opcode_name(opcode) == Some("LDA"),
        opcode == 0xBD ==> decoded(opcode, cpu) == (load_instruction(cpu, Some(AddressingMode::AbsoluteX), Registers::Accumulator), cpu) && opcode_name(opcode) == Some("LDA"),
        opcode == 0xB9 ==> decoded(opcode, cpu) == (load_instruction(cpu, Some(AddressingMode::AbsoluteY), Registers::Accumulator), cpu) && opcode_name(opcode) == Some("LDA"),
        opcode == 0xA1 ==> decoded(opcode, cpu) == (load_instruction(cpu, Some(AddressingMode::IndexIndirectX), Registers::Accumulator), cpu) && opcode_name(opcode) == Some("LDA"),
        opcode == 0xB1 ==> decoded(opcode, cpu) == (load_instruction(cpu, Some(AddressingMode::IndirectIndexY), Registers::Accumulator), cpu) && opcode_name(opcode) == Some("LDA"),
        opcode == 0xA0 ==> decoded(opcode, cpu) == (load_instruction(cpu, None, Registers::IndexY), cpu) && opcode_name(opcode) == Some("LDY"),
        opcode == 0xA4 ==> decoded(opcode, cpu) == (load_instruction(cpu, Some(AddressingMode::ZeroPage), Registers::IndexY), cpu) && opcode_name(opcode) == Some("LDY"),
        opcode == 0xB4 ==> decoded(opcode, cpu) == (load_instruction(cpu, Some(AddressingMode::ZeroPageX), Registers::IndexY), cpu) && opcode_name(opcode) == Some("LDY"),
        opcode == 0xAC ==> decoded(opcode, cpu) == (load_instruction(cpu, Some(AddressingMode::Absolute), Registers::IndexY), cpu) && opcode_name(opcode) == Some("LDY"),
        opcode == 0xBC ==> decoded(opcode, cpu) == (load_instruction(cpu, Some(AddressingMode::AbsoluteX), Registers::IndexY), cpu) && opcode_name(opcode) == Some("LDY"),
        opcode == 0xA2 ==> decoded(opcode, cpu) == (load_instruction(cpu, None, Registers::IndexX), cpu) && opcode_name(opcode) == Some("LDX"),
        opcode == 0xA6 ==> decoded(opcode, cpu) == (load_instruction(cpu, Some(AddressingMode::ZeroPage), Registers::IndexX), cpu) && opcode_name(opcode) == Some("LDX"),
        opcode == 0xB6 ==> decoded(opcode, cpu) == (load_instruction(cpu, Some(AddressingMode::ZeroPageY), Registers::IndexX), cpu) && opcode_name(opcode) == Some("LDX"),
        opcode == 0xAE ==> decoded(opcode, cpu) == (load_instruction(cpu, Some(AddressingMode::Absolute), Registers::IndexX), cpu) && opcode_name(opcode) == Some("LDX"),
        opcode == 0xBE ==> decoded(opcode, cpu) == (load_instruction(cpu, Some(AddressingMode::AbsoluteY), Registers::IndexX), cpu) && opcode_name(opcode) == Some("LDX"),
        opcode == 0xEA ==> decoded(opcode, cpu) == (nop_instruction(), cpu.with_addr(Address::cleared(AddressingMode::Implicit, true))) && opcode_name(opcode) == Some("NOP"),
        opcode == 0x48 ==> decoded(opcode, cpu) == (push_instruction(Registers::Accumulator), cpu) && opcode_name(opcode) == Some("PHA"),
        opcode == 0x08 ==> decoded(opcode, cpu) == (push_instruction(Registers::ProcessorStatus), cpu) && opcode_name(opcode) == Some("PHP"),
        opcode == 0x68 ==> decoded(opcode, cpu) == (pull_instruction(Registers::Accumulator), cpu) && opcode_name(opcode) == Some("PLA"),
        opcode == 0x28 ==> decoded(opcode, cpu) == (pull_instruction(Registers::ProcessorStatus), cpu) && opcode_name(opcode) == Some("PLP"),
        opcode == 0x40 ==> decoded(opcode, cpu) == (rti_instruction(), cpu.with_addr(Address::cleared(AddressingMode::Implicit, true))) && opcode_name(opcode) == Some("RTI"),
        opcode == 0x60 ==> decoded(opcode, cpu) == (rts_instruction(), cpu.with_addr(Address::cleared(AddressingMode::Implicit, true))) && opcode_name(opcode) == Some("RTS"),
        opcode == 0x85 ==> decoded(opcode, cpu) == (store_instruction(cpu, AddressingMode::ZeroPage, Registers::Accumulator), cpu) && opcode_name(opcode) == Some("STA"),
        opcode == 0x95 ==> decoded(opcode, cpu) == (store_instruction(cpu, AddressingMode::ZeroPageX, Registers::Accumulator), cpu) && opcode_name(opcode) == Some("STA"),
        opcode == 0x8D ==> decoded(opcode, cpu) == (store_instruction(cpu, AddressingMode::Absolute, Registers::Accumulator), cpu) && opcode_name(opcode) == Some("STA"),
        opcode == 0x9D ==> decoded(opcode, cpu) == (store_instruction(cpu, AddressingMode::AbsoluteX, Registers::Accumulator), cpu) && opcode_name(opcode) == Some("STA"),
        opcode == 0x99 ==> decoded(opcode, cpu) == (store_instruction(cpu, AddressingMode::AbsoluteY, Registers::Accumulator), cpu) && opcode_name(opcode) == Some("STA"),
        opcode == 0x81 ==> decoded(opcode, cpu) == (store_instruction(cpu, AddressingMode::IndexIndirectX, Registers::Accumulator), cpu) && opcode_name(opcode) == Some("STA"),
        opcode == 0x91 ==> decoded(opcode, cpu) == (store_instruction(cpu, AddressingMode::IndirectIndexY, Registers::Accumulator), cpu) && opcode_name(opcode) == Some("STA"),
        opcode == 0x86 ==> decoded(opcode, cpu) == (store_instruction(cpu, AddressingMode::ZeroPage, Registers::IndexX), cpu) && opcode_name(opcode) == Some("STX"),
        opcode == 0x96 ==> decoded(opcode, cpu) == (store_instruction(cpu, AddressingMode::ZeroPageY, Registers::IndexX), cpu) && opcode_name(opcode) == Some("STX"),
        opcode == 0x8E ==> decoded(opcode, cpu) == (store_instruction(cpu, AddressingMode::Absolute, Registers::IndexX), cpu) && opcode_name(opcode) == Some("STX"),
        opcode == 0x84 ==> decoded(opcode, cpu) == (store_instruction(cpu, AddressingMode::ZeroPage, Registers::IndexY), cpu) && opcode_name(opcode) == Some("STY"),
        opcode == 0x94 ==> decoded(opcode, cpu) == (store_instruction(cpu, AddressingMode::ZeroPageX, Registers::IndexY), cpu) && opcode_name(opcode) == Some("STY"),
        opcode == 0x8C ==> decoded(opcode, cpu) == (store_instruction(cpu, AddressingMode::Absolute, Registers::IndexY), cpu) && opcode_name(opcode) == Some("STY"),
        opcode == 0xAA ==> decoded(opcode, cpu) == (transfer_instruction(Registers::Accumulator, Registers::IndexX), cpu) && opcode_name(opcode) == Some("TAX"),
        opcode == 0xA8 ==> decoded(opcode, cpu) == (transfer_instruction(Registers::Accumulator, Registers::IndexY), cpu) && opcode_name(opcode) == Some("TAY"),
        opcode == 0xBA ==> decoded(opcode, cpu) == (transfer_instruction(Registers::StackPointer, Registers::IndexX), cpu) && opcode_name(opcode) == Some("TSX"),
        opcode == 0x8A ==> decoded(opcode, cpu) == (transfer_instruction(Registers::IndexX, Registers::Accumulator), cpu) && opcode_name(opcode) == Some("TXA"),
        opcode == 0x9A ==> decoded(opcode, cpu) == (transfer_instruction(Registers::IndexX, Registers::StackPointer), cpu) && opcode_name(opcode) == Some("TXS"),
        opcode == 0x98 ==> decoded(opcode, cpu) == (transfer_instruction(Registers::IndexY, Registers::Accumulator), cpu) && opcode_name(opcode) == Some("TYA"),
        opcode_name(opcode) is Some ==> (opcode == 0x69 || opcode == 0x65 || opcode == 0x75 || opcode == 0x6D || opcode == 0x7D || opcode == 0x79 || opcode == 0x61 || opcode == 0x71
            || opcode == 0xE9 || opcode == 0xE5 || opcode == 0xF5 || opcode == 0xED || opcode == 0xFD || opcode == 0xF9 || opcode == 0xE1 || opcode == 0xF1
            || opcode == 0x49 || opcode == 0x45 || opcode == 0x55 || opcode == 0x4D || opcode == 0x5D || opcode == 0x59 || opcode == 0x41 || opcode == 0x51
            || opcode == 0x29 || opcode == 0x25 || opcode == 0x35 || opcode == 0x2D || opcode == 0x3D || opcode == 0x39 || opcode == 0x21 || opcode == 0x31
            || opcode == 0x09 || opcode == 0x05 || opcode == 0x15 || opcode == 0x0D || opcode == 0x1D || opcode == 0x19 || opcode == 0x01 || opcode == 0x11
            || opcode == 0x24 || opcode == 0x2C || opcode == 0x0A || opcode == 0x06 || opcode == 0x16 || opcode == 0x0E || opcode == 0x1E || opcode == 0x4A
            || opcode == 0x46 || opcode == 0x56 || opcode == 0x4E || opcode == 0x5E || opcode == 0x2A || opcode == 0x26 || opcode == 0x36 || opcode == 0x2E
            || opcode == 0x3E || opcode == 0x6A || opcode == 0x66 || opcode == 0x76 || opcode == 0x6E || opcode == 0x7E || opcode == 0x90 || opcode == 0xB0
            || opcode == 0xF0 || opcode == 0x30 || opcode == 0xD0 || opcode == 0x10 || opcode == 0x50 || opcode == 0x70 || opcode == 0x00 || opcode == 0x18
            || opcode == 0xD8 || opcode == 0x58 || opcode == 0xB8 || opcode == 0x38 || opcode == 0xF8 || opcode == 0x78 || opcode == 0xC9 || opcode == 0xC5
            || opcode == 0xD5 || opcode == 0xCD || opcode == 0xDD || opcode == 0xD9 || opcode == 0xC1 || opcode == 0xD1 || opcode == 0xE0 || opcode == 0xE4
            || opcode == 0xEC || opcode == 0xC0 || opcode == 0xC4 || opcode == 0xCC || opcode == 0xCE || opcode == 0xDE || opcode == 0xC6 || opcode == 0xD6
            || opcode == 0xE6 || opcode == 0xF6 || opcode == 0xEE || opcode == 0xFE || opcode == 0xCA || opcode == 0x88 || opcode == 0xE8 || opcode == 0xC8
            || opcode == 0x4C || opcode == 0x6C || opcode == 0x20 || opcode == 0xA9 || opcode == 0xA5 || opcode == 0xB5 || opcode == 0xAD || opcode == 0xBD
            || opcode == 0xB9 || opcode == 0xA1 || opcode == 0xB1 || opcode == 0xA0 || opcode == 0xA4 || opcode == 0xB4 || opcode == 0xAC || opcode == 0xBC
            || opcode == 0xA2 || opcode == 0xA6 || opcode == 0xB6 || opcode == 0xAE || opcode == 0xBE || opcode == 0xEA || opcode == 0x48 || opcode == 0x08
            || opcode == 0x68 || opcode == 0x28 || opcode == 0x40 || opcode == 0x60 || opcode == 0x85 || opcode == 0x95 || opcode == 0x8D || opcode == 0x9D
            || opcode == 0x99 || opcode == 0x81 || opcode == 0x91 || opcode == 0x86 || opcode == 0x96 || opcode == 0x8E || opcode == 0x84 || opcode == 0x94
            || opcode == 0x8C || opcode == 0xAA || opcode == 0xA8 || opcode == 0xBA || opcode == 0x8A || opcode == 0x9A || opcode == 0x98),
{
}

/// Running the `Store` instruction is running its work.
pub proof fn lemma_run_store(t: StoreTasks, cpu: CPU, mem: MemView, fuel: nat)
    ensures
        run(InstructionTasks::Store(t), cpu, mem, fuel) == (
            InstructionTasks::Store(run(t, cpu, mem, fuel).0),
            run(t, cpu, mem, fuel).1,
            run(t, cpu, mem, fuel).2,
        ),
    decreases fuel,
{
    if fuel > 0 && !t.is_done() {
        lemma_run_step(InstructionTasks::Store(t), cpu, mem, fuel);
        lemma_run_step(t, cpu, mem, fuel);
        let s = stepped(t, cpu, mem);
        lemma_run_store(s.0, s.1, s.2, (fuel - 1) as nat);
    }
}

/// Running the `Branch` instruction is running its work.
pub proof fn lemma_run_branch(t: BranchTasks, cpu: CPU, mem: MemView, fuel: nat)
    ensures
        run(InstructionTasks::Branch(t), cpu, mem, fuel) == (
            InstructionTasks::Branch(run(t, cpu, mem, fuel).0),
            run(t, cpu, mem, fuel).1,
            run(t, cpu, mem, fuel).2,
        ),
    decreases fuel,
{
    if fuel > 0 && !t.is_done() {
        lemma_run_step(InstructionTasks::Branch(t), cpu, mem, fuel);
        lemma_run_step(t, cpu, mem, fuel);
        let s = stepped(t, cpu, mem);
        lemma_run_branch(s.0, s.1, s.2, (fuel - 1) as nat);
    }
}

/// Running the `ModifyMemory` instruction is running its work.
pub proof fn lemma_run_modify_memory(t: ModifyMemoryTasks, cpu: CPU, mem: MemView, fuel: nat)
    ensures
        run(InstructionTasks::ModifyMemory(t), cpu, mem, fuel) == (
            InstructionTasks::ModifyMemory(run(t, cpu, mem, fuel).0),
            run(t, cpu, mem, fuel).1,
            run(t, cpu, mem, fuel).2,
        ),
    decreases fuel,
{
    if fuel > 0 && !t.is_done() {
        lemma_run_step(InstructionTasks::ModifyMemory(t), cpu, mem, fuel);
        lemma_run_step(t, cpu, mem, fuel);
        let s = stepped(t, cpu, mem);
        lemma_run_modify_memory(s.0, s.1, s.2, (fuel - 1) as nat);
    }
}

/// Running the `ModifyRegister` instruction is running its work.
pub proof fn lemma_run_modify_register(t: ModifyRegisterTasks, cpu: CPU, mem: MemView, fuel: nat)
    ensures
        run(InstructionTasks::ModifyRegister(t), cpu, mem, fuel) == (
            InstructionTasks::ModifyRegister(run(t, cpu, mem, fuel).0),
            run(t, cpu, mem, fuel).1,
            run(t, cpu, mem, fuel).2,
        ),
    decreases fuel,
{
    if fuel > 0 && !t.is_done() {
        lemma_run_step(InstructionTasks::ModifyRegister(t), cpu, mem, fuel);
        lemma_run_step(t, cpu, mem, fuel);
        let s = stepped(t, cpu, mem);
        lemma_run_modify_register(s.0, s.1, s.2, (fuel - 1) as nat);
    }
}

/// Running the `TransferRegisters` instruction is running its work.
pub proof fn lemma_run_transfer_registers(t: TransferRegistersTasks, cpu: CPU, mem: MemView, fuel: nat)
    ensures
        run(InstructionTasks::TransferRegisters(t), cpu, mem, fuel) == (
            InstructionTasks::TransferRegisters(run(t, cpu, mem, fuel).0),
            run(t, cpu, mem, fuel).1,
            run(t, cpu, mem, fuel).2,
        ),
    decreases fuel,
{
    if fuel > 0 && !t.is_done() {
        lemma_run_step(InstructionTasks::TransferRegisters(t), cpu, mem, fuel);
        lemma_run_step(t, cpu, mem, fuel);
        let s = stepped(t, cpu, mem);
        lemma_run_transfer_registers(s.0, s.1, s.2, (fuel - 1) as nat);
    }
}

/// Running the `ChangeStatusFlag` instruction is running its work.
pub proof fn lemma_run_change_status_flag(t: ChangeStatusFlagTasks, cpu: CPU, mem: MemView, fuel: nat)
    ensures
        run(InstructionTasks::ChangeStatusFlag(t), cpu, mem, fuel) == (
            InstructionTasks::ChangeStatusFlag(run(t, cpu, mem, fuel).0),
            run(t, cpu, mem, fuel).1,
            run(t, cpu, mem, fuel).2,
        ),
    decreases fuel,
{
    if fuel > 0 && !t.is_done() {
        lemma_run_step(InstructionTasks::ChangeStatusFlag(t), cpu, mem, fuel);
        lemma_run_step(t, cpu, mem, fuel);
        let s = stepped(t, cpu, mem);
        lemma_run_change_status_flag(s.0, s.1, s.2, (fuel - 1) as nat);
    }
}

/// Running the `Jsr` instruction is running its work.
pub proof fn lemma_run_jsr(t: JsrTasks, cpu: CPU, mem: MemView, fuel: nat)
    ensures
        run(InstructionTasks::Jsr(t), cpu, mem, fuel) == (
            InstructionTasks::Jsr(run(t, cpu, mem, fuel).0),
            run(t, cpu, mem, fuel).1,
            run(t, cpu, mem, fuel).2,
        ),
    decreases fuel,
{
    if fuel > 0 && !t.is_done() {
        lemma_run_step(InstructionTasks::Jsr(t), cpu, mem, fuel);
        lemma_run_step(t, cpu, mem, fuel);
        let s = stepped(t, cpu, mem);
        lemma_run_jsr(s.0, s.1, s.2, (fuel - 1) as nat);
    }
}

/// Running the `Rts` instruction is running its work.
pub proof fn lemma_run_rts(t: RtsTasks, cpu: CPU, mem: MemView, fuel: nat)
    ensures
        run(InstructionTasks::Rts(t), cpu, mem, fuel) == (
            InstructionTasks::Rts(run(t, cpu, mem, fuel).0),
            run(t, cpu, mem, fuel).1,
            run(t, cpu, mem, fuel).2,
        ),
    decreases fuel,
{
    if fuel > 0 && !t.is_done() {
        lemma_run_step(InstructionTasks::Rts(t), cpu, mem, fuel);
        lemma_run_step(t, cpu, mem, fuel);
        let s = stepped(t, cpu, mem);
        lemma_run_rts(s.0, s.1, s.2, (fuel - 1) as nat);
    }
}

/// Running the `Jmp` instruction is running its work.
pub proof fn lemma_run_jmp(t: JmpTasks, cpu: CPU, mem: MemView, fuel: nat)
    ensures
        run(InstructionTasks::Jmp(t), cpu, mem, fuel) == (
            InstructionTasks::Jmp(run(t, cpu, mem, fuel).0),
            run(t, cpu, mem, fuel).1,
            run(t, cpu, mem, fuel).2,
        ),
    decreases fuel,
{
    if fuel > 0 && !t.is_done() {
        lemma_run_step(InstructionTasks::Jmp(t), cpu, mem, fuel);
        lemma_run_step(t, cpu, mem, fuel);
        let s = stepped(t, cpu, mem);
        lemma_run_jmp(s.0, s.1, s.2, (fuel - 1) as nat);
    }
}

/// Running the `PushRegister` instruction is running its work.
pub proof fn lemma_run_push_register(t: PushRegisterTasks, cpu: CPU, mem: MemView, fuel: nat)
    ensures
        run(InstructionTasks::PushRegister(t), cpu, mem, fuel) == (
            InstructionTasks::PushRegister(run(t, cpu, mem, fuel).0),
            run(t, cpu, mem, fuel).1,
            run(t, cpu, mem, fuel).2,
        ),
    decreases fuel,
{
    if fuel > 0 && !t.is_done() {
        lemma_run_step(InstructionTasks::PushRegister(t), cpu, mem, fuel);
        lemma_run_step(t, cpu, mem, fuel);
        let s = stepped(t, cpu, mem);
        lemma_run_push_register(s.0, s.1, s.2, (fuel - 1) as nat);
    }
}

/// Running the `PullRegister` instruction is running its work.
pub proof fn lemma_run_pull_register(t: PullRegisterTasks, cpu: CPU, mem: MemView, fuel: nat)
    ensures
        run(InstructionTasks::PullRegister(t), cpu, mem, fuel) == (
            InstructionTasks::PullRegister(run(t, cpu, mem, fuel).0),
            run(t, cpu, mem, fuel).1,
            run(t, cpu, mem, fuel).2,
        ),
    decreases fuel,
{
    if fuel > 0 && !t.is_done() {
        lemma_run_step(InstructionTasks::PullRegister(t), cpu, mem, fuel);
        lemma_run_step(t, cpu, mem, fuel);
        let s = stepped(t, cpu, mem);
        lemma_run_pull_register(s.0, s.1, s.2, (fuel - 1) as nat);
    }
}

/// Running the `Brk` instruction is running its work.
pub proof fn lemma_run_brk(t: BrkTasks, cpu: CPU, mem: MemView, fuel: nat)
    ensures
        run(InstructionTasks::Brk(t), cpu, mem, fuel) == (
            InstructionTasks::Brk(run(t, cpu, mem, fuel).0),
            run(t, cpu, mem, fuel).1,
            run(t, cpu, mem, fuel).2,
        ),
    decreases fuel,
{
    if fuel > 0 && !t.is_done() {
        lemma_run_step(InstructionTasks::Brk(t), cpu, mem, fuel);
        lemma_run_step(t, cpu, mem, fuel);
        let s = stepped(t, cpu, mem);
        lemma_run_brk(s.0, s.1, s.2, (fuel - 1) as nat);
    }
}

/// Running the `Rti` instruction is running its work.
pub proof fn lemma_run_rti(t: RtiTasks, cpu: CPU, mem: MemView, fuel: nat)
    ensures
        run(InstructionTasks::Rti(t), cpu, mem, fuel) == (
            InstructionTasks::Rti(run(t, cpu, mem, fuel).0),
            run(t, cpu, mem, fuel).1,
            run(t, cpu, mem, fuel).2,
        ),
    decreases fuel,
{
    if fuel > 0 && !t.is_done() {
        lemma_run_step(InstructionTasks::Rti(t), cpu, mem, fuel);
        lemma_run_step(t, cpu, mem, fuel);
        let s = stepped(t, cpu, mem);
        lemma_run_rti(s.0, s.1, s.2, (fuel - 1) as nat);
    }
}

/// Mnemonic of an opcode, if the processor implements it.
pub fn instruction_name(opcode: Byte) -> (r: Option<&'static str>)
    ensures
        r == opcode_name(opcode),
{
    match opcode {
        0x69 => Some("ADC"),
        0x65 => Some("ADC"),
        0x75 => Some("ADC"),
        0x6D => Some("ADC"),
        0x7D => Some("ADC"),
        0x79 => Some("ADC"),
        0x61 => Some("ADC"),
        0x71 => Some("ADC"),
        0xE9 => Some("SBC"),
        0xE5 => Some("SBC"),
        0xF5 => Some("SBC"),
        0xED => Some("SBC"),
        0xFD => Some("SBC"),
        0xF9 => Some("SBC"),
        0xE1 => Some("SBC"),
        0xF1 => Some("SBC"),
        0x49 => Some("AND"),
        0x45 => Some("AND"),
        0x55 => Some("AND"),
        0x4D => Some("AND"),
        0x5D => Some("AND"),
        0x59 => Some("AND"),
        0x41 => Some("AND"),
        0x51 => Some("AND"),
        0x29 => Some("EOR"),
        0x25 => Some("EOR"),
        0x35 => Some("EOR"),
        0x2D => Some("EOR"),
        0x3D => Some("EOR"),
        0x39 => Some("EOR"),
        0x21 => Some("EOR"),
        0x31 => Some("EOR"),
        0x09 => Some("ORA"),
        0x05 => Some("ORA"),
        0x15 => Some("ORA"),
        0x0D => Some("ORA"),
        0x1D => Some("ORA"),
        0x19 => Some("ORA"),
        0x01 => Some("ORA"),
        0x11 => Some("ORA"),
        0x24 => Some("BIT"),
        0x2C => Some("BIT"),
        0x0A => Some("ASL"),
        0x06 => Some("ASL"),
        0x16 => Some("ASL"),
        0x0E => Some("ASL"),
        0x1E => Some("ASL"),
        0x4A => Some("LSR"),
        0x46 => Some("LSR"),
        0x56 => Some("LSR"),
        0x4E => Some("LSR"),
        0x5E => Some("LSR"),
        0x2A => Some("ROL"),
        0x26 => Some("ROL"),
        0x36 => Some("ROL"),
        0x2E => Some("ROL"),
        0x3E => Some("ROL"),
        0x6A => Some("ROR"),
        0x66 => Some("ROR"),
        0x76 => Some("ROR"),
        0x6E => Some("ROR"),
        0x7E => Some("ROR"),
        0x90 => Some("BCC"),
        0xB0 => Some("BCS"),
        0xF0 => Some("BEQ"),
        0x30 => Some("BMI"),
        0xD0 => Some("BNE"),
        0x10 => Some("BPL"),
        0x50 => Some("BVC"),
        0x70 => Some("BVS"),
        0x00 => Some("BRK"),
        0x18 => Some("CLC"),
        0xD8 => Some("CLD"),
        0x58 => Some("CLI"),
        0xB8 => Some("CLV"),
        0x38 => Some("SEC"),
        0xF8 => Some("SED"),
        0x78 => Some("SEI"),
        0xC9 => Some("CMP"),
        0xC5 => Some("CMP"),
        0xD5 => Some("CMP"),
        0xCD => Some("CMP"),
        0xDD => Some("CMP"),
        0xD9 => Some("CMP"),
        0xC1 => Some("CMP"),
        0xD1 => Some("CMP"),
        0xE0 => Some("CPX"),
        0xE4 => Some("CPX"),
        0xEC => Some("CPX"),
        0xC0 => Some("CPY"),
        0xC4 => Some("CPY"),
        0xCC => Some("CPY"),
        0xCE => Some("DEC"),
        0xDE => Some("DEC"),
        0xC6 => Some("DEC"),
        0xD6 => Some("DEC"),
        0xE6 => Some("INC"),
        0xF6 => Some("INC"),
        0xEE => Some("INC"),
        0xFE => Some("INC"),
        0xCA => Some("DEX"),
        0x88 => Some("DEY"),
        0xE8 => Some("INX"),
        0xC8 => Some("INY"),
        0x4C => Some("JMP"),
        0x6C => Some("JMP"),
        0x20 => Some("JSR"),
        0xA9 => Some("LDA"),
        0xA5 => Some("LDA"),
        0xB5 => Some("LDA"),
        0xAD => Some("LDA"),
        0xBD => Some("LDA"),
        0xB9 => Some("LDA"),
        0xA1 => Some("LDA"),
        0xB1 => Some("LDA"),
        0xA0 => Some("LDY"),
        0xA4 => Some("LDY"),
        0xB4 => Some("LDY"),
        0xAC => Some("LDY"),
        0xBC => Some("LDY"),
        0xA2 => Some("LDX"),
        0xA6 => Some("LDX"),
        0xB6 => Some("LDX"),
        0xAE => Some("LDX"),
        0xBE => Some("LDX"),
        0xEA => Some("NOP"),
        0x48 => Some("PHA"),
        0x08 => Some("PHP"),
        0x68 => Some("PLA"),
        0x28 => Some("PLP"),
        0x40 => Some("RTI"),
        0x60 => Some("RTS"),
        0x85 => Some("STA"),
        0x95 => Some("STA"),
        0x8D => Some("STA"),
        0x9D => Some("STA"),
        0x99 => Some("STA"),
        0x81 => Some("STA"),
        0x91 => Some("STA"),
        0x86 => Some("STX"),
        0x96 => Some("STX"),
        0x8E => Some("STX"),
        0x84 => Some("STY"),
        0x94 => Some("STY"),
        0x8C => Some("STY"),
        0xAA => Some("TAX"),
        0xA8 => Some("TAY"),
        0xBA => Some("TSX"),
        0x8A => Some("TXA"),
        0x9A => Some("TXS"),
        0x98 => Some("TYA"),
        _ => None,
    }
}

/// Decodes an opcode and runs its handler, which starts the instruction's work.
pub fn decode(opcode: Byte, cpu: &mut CPU) -> (r: Option<Instruction>)
    ensures
        r is Some == opcode_name(opcode) is Some,
        r matches Some(i) ==> i.name == opcode_name(opcode)->0 && i.tasks == decoded(opcode, *old(cpu)).0
            && *final(cpu) == decoded(opcode, *old(cpu)).1,
        r is None ==> *final(cpu) == *old(cpu),
{
    match opcode {
        0x69 => Some(Instruction { tasks: adc_im(cpu), name: "ADC" }),
        0x65 => Some(Instruction { tasks: adc_zp(cpu), name: "ADC" }),
        0x75 => Some(Instruction { tasks: adc_zpx(cpu), name: "ADC" }),
        0x6D => Some(Instruction { tasks: adc_a(cpu), name: "ADC" }),
        0x7D => Some(Instruction { tasks: adc_ax(cpu), name: "ADC" }),
        0x79 => Some(Instruction { tasks: adc_ay(cpu), name: "ADC" }),
        0x61 => Some(Instruction { tasks: adc_inx(cpu), name: "ADC" }),
        0x71 => Some(Instruction { tasks: adc_iny(cpu), name: "ADC" }),
        0xE9 => Some(Instruction { tasks: sbc_im(cpu), name: "SBC" }),
        0xE5 => Some(Instruction { tasks: sbc_zp(cpu), name: "SBC" }),
        0xF5 => Some(Instruction { tasks: sbc_zpx(cpu), name: "SBC" }),
        0xED => Some(Instruction { tasks: sbc_a(cpu), name: "SBC" }),
        0xFD => Some(Instruction { tasks: sbc_ax(cpu), name: "SBC" }),
        0xF9 => Some(Instruction { tasks: sbc_ay(cpu), name: "SBC" }),
        0xE1 => Some(Instruction { tasks: sbc_inx(cpu), name: "SBC" }),
        0xF1 => Some(Instruction { tasks: sbc_iny(cpu), name: "SBC" }),
        0x49 => Some(Instruction { tasks: and_im(cpu), name: "AND" }),
        0x45 => Some(Instruction { tasks: and_zp(cpu), name: "AND" }),
        0x55 => Some(Instruction { tasks: and_zpx(cpu), name: "AND" }),
        0x4D => Some(Instruction { tasks: and_a(cpu), name: "AND" }),
        0x5D => Some(Instruction { tasks: and_ax(cpu), name: "AND" }),
        0x59 => Some(Instruction { tasks: and_ay(cpu), name: "AND" }),
        0x41 => Some(Instruction { tasks: and_inx(cpu), name: "AND" }),
        0x51 => Some(Instruction { tasks: and_iny(cpu), name: "AND" }),
        0x29 => Some(Instruction { tasks: eor_im(cpu), name: "EOR" }),
        0x25 => Some(Instruction { tasks: eor_zp(cpu), name: "EOR" }),
        0x35 => Some(Instruction { tasks: eor_zpx(cpu), name: "EOR" }),
        0x2D => Some(Instruction { tasks: eor_a(cpu), name: "EOR" }),
        0x3D => Some(Instruction { tasks: eor_ax(cpu), name: "EOR" }),
        0x39 => Some(Instruction { tasks: eor_ay(cpu), name: "EOR" }),
        0x21 => Some(Instruction { tasks: eor_inx(cpu), name: "EOR" }),
        0x31 => Some(Instruction { tasks: eor_iny(cpu), name: "EOR" }),
        0x09 => Some(Instruction { tasks: ora_im(cpu), name: "ORA" }),
        0x05 => Some(Instruction { tasks: ora_zp(cpu), name: "ORA" }),
        0x15 => Some(Instruction { tasks: ora_zpx(cpu), name: "ORA" }),
        0x0D => Some(Instruction { tasks: ora_a(cpu), name: "ORA" }),
        0x1D => Some(Instruction { tasks: ora_ax(cpu), name: "ORA" }),
        0x19 => Some(Instruction { tasks: ora_ay(cpu), name: "ORA" }),
        0x01 => Some(Instruction { tasks: ora_inx(cpu), name: "ORA" }),
        0x11 => Some(Instruction { tasks: ora_iny(cpu), name: "ORA" }),
        0x24 => Some(Instruction { tasks: bit_zp(cpu), name: "BIT" }),
        0x2C => Some(Instruction { tasks: bit_a(cpu), name: "BIT" }),
        0x0A => Some(Instruction { tasks: asl_acc(cpu), name: "ASL" }),
        0x06 => Some(Instruction { tasks: asl_zp(cpu), name: "ASL" }),
        0x16 => Some(Instruction { tasks: asl_zpx(cpu), name: "ASL" }),
        0x0E => Some(Instruction { tasks: asl_a(cpu), name: "ASL" }),
        0x1E => Some(Instruction { tasks: asl_ax(cpu), name: "ASL" }),
        0x4A => Some(Instruction { tasks: lsr_acc(cpu), name: "LSR" }),
        0x46 => Some(Instruction { tasks: lsr_zp(cpu), name: "LSR" }),
        0x56 => Some(Instruction { tasks: lsr_zpx(cpu), name: "LSR" }),
        0x4E => Some(Instruction { tasks: lsr_a(cpu), name: "LSR" }),
        0x5E => Some(Instruction { tasks: lsr_ax(cpu), name: "LSR" }),
        0x2A => Some(Instruction { tasks: rol_acc(cpu), name: "ROL" }),
        0x26 => Some(Instruction { tasks: rol_zp(cpu), name: "ROL" }),
        0x36 => Some(Instruction { tasks: rol_zpx(cpu), name: "ROL" }),
        0x2E => Some(Instruction { tasks: rol_a(cpu), name: "ROL" }),
        0x3E => Some(Instruction { tasks: rol_ax(cpu), name: "ROL" }),
        0x6A => Some(Instruction { tasks: ror_acc(cpu), name: "ROR" }),
        0x66 => Some(Instruction { tasks: ror_zp(cpu), name: "ROR" }),
        0x76 => Some(Instruction { tasks: ror_zpx(cpu), name: "ROR" }),
        0x6E => Some(Instruction { tasks: ror_a(cpu), name: "ROR" }),
        0x7E => Some(Instruction { tasks: ror_ax(cpu), name: "ROR" }),
        0x90 => Some(Instruction { tasks: bcc(cpu), name: "BCC" }),
        0xB0 => Some(Instruction { tasks: bcs(cpu), name: "BCS" }),
        0xF0 => Some(Instruction { tasks: beq(cpu), name: "BEQ" }),
        0x30 => Some(Instruction { tasks: bmi(cpu), name: "BMI" }),
        0xD0 => Some(Instruction { tasks: bne(cpu), name: "BNE" }),
        0x10 => Some(Instruction { tasks: bpl(cpu), name: "BPL" }),
        0x50 => Some(Instruction { tasks: bvc(cpu), name: "BVC" }),
        0x70 => Some(Instruction { tasks: bvs(cpu), name: "BVS" }),
        0x00 => Some(Instruction { tasks: brk(cpu), name: "BRK" }),
        0x18 => Some(Instruction { tasks: clc(cpu), name: "CLC" }),
        0xD8 => Some(Instruction { tasks: cld(cpu), name: "CLD" }),
        0x58 => Some(Instruction { tasks: cli(cpu), name: "CLI" }),
        0xB8 => Some(Instruction { tasks: clv(cpu), name: "CLV" }),
        0x38 => Some(Instruction { tasks: sec(cpu), name: "SEC" }),
        0xF8 => Some(Instruction { tasks: sed(cpu), name: "SED" }),
        0x78 => Some(Instruction { tasks: sei(cpu), name: "SEI" }),
        0xC9 => Some(Instruction { tasks: cmp_im(cpu), name: "CMP" }),
        0xC5 => Some(Instruction { tasks: cmp_zp(cpu), name: "CMP" }),
        0xD5 => Some(Instruction { tasks: cmp_zpx(cpu), name: "CMP" }),
        0xCD => Some(Instruction { tasks: cmp_a(cpu), name: "CMP" }),
        0xDD => Some(Instruction { tasks: cmp_ax(cpu), name: "CMP" }),
        0xD9 => Some(Instruction { tasks: cmp_ay(cpu), name: "CMP" }),
        0xC1 => Some(Instruction { tasks: cmp_inx(cpu), name: "CMP" }),
        0xD1 => Some(Instruction { tasks: cmp_iny(cpu), name: "CMP" }),
        0xE0 => Some(Instruction { tasks: cpx_im(cpu), name: "CPX" }),
        0xE4 => Some(Instruction { tasks: cpx_zp(cpu), name: "CPX" }),
        0xEC => Some(Instruction { tasks: cpx_a(cpu), name: "CPX" }),
        0xC0 => Some(Instruction { tasks: cpy_im(cpu), name: "CPY" }),
        0xC4 => Some(Instruction { tasks: cpy_zp(cpu), name: "CPY" }),
        0xCC => Some(Instruction { tasks: cpy_a(cpu), name: "CPY" }),
        0xCE => Some(Instruction { tasks: dec_a(cpu), name: "DEC" }),
        0xDE => Some(Instruction { tasks: dec_ax(cpu), name: "DEC" }),
        0xC6 => Some(Instruction { tasks: dec_zp(cpu), name: "DEC" }),
        0xD6 => Some(Instruction { tasks: dec_zpx(cpu), name: "DEC" }),
        0xE6 => Some(Instruction { tasks: inc_zp(cpu), name: "INC" }),
        0xF6 => Some(Instruction { tasks: inc_zpx(cpu), name: "INC" }),
        0xEE => Some(Instruction { tasks: inc_a(cpu), name: "INC" }),
        0xFE => Some(Instruction { tasks: inc_ax(cpu), name: "INC" }),
        0xCA => Some(Instruction { tasks: dex_im(cpu), name: "DEX" }),
        0x88 => Some(Instruction { tasks: dey_im(cpu), name: "DEY" }),
        0xE8 => Some(Instruction { tasks: inx_im(cpu), name: "INX" }),
        0xC8 => Some(Instruction { tasks: iny_im(cpu), name: "INY" }),
        0x4C => Some(Instruction { tasks: jmp_a(cpu), name: "JMP" }),
        0x6C => Some(Instruction { tasks: jmp_in(cpu), name: "JMP" }),
        0x20 => Some(Instruction { tasks: jsr_a(cpu), name: "JSR" }),
        0xA9 => Some(Instruction { tasks: lda_im(cpu), name: "LDA" }),
        0xA5 => Some(Instruction { tasks: lda_zp(cpu), name: "LDA" }),
        0xB5 => Some(Instruction { tasks: lda_zpx(cpu), name: "LDA" }),
        0xAD => Some(Instruction { tasks: lda_a(cpu), name: "LDA" }),
        0xBD => Some(Instruction { tasks: lda_ax(cpu), name: "LDA" }),
        0xB9 => Some(Instruction { tasks: lda_ay(cpu), name: "LDA" }),
        0xA1 => Some(Instruction { tasks: lda_inx(cpu), name: "LDA" }),
        0xB1 => Some(Instruction { tasks: lda_iny(cpu), name: "LDA" }),
        0xA0 => Some(Instruction { tasks: ldy_im(cpu), name: "LDY" }),
        0xA4 => Some(Instruction { tasks: ldy_zp(cpu), name: "LDY" }),
        0xB4 => Some(Instruction { tasks: ldy_zpx(cpu), name: "LDY" }),
        0xAC => Some(Instruction { tasks: ldy_a(cpu), name: "LDY" }),
        0xBC => Some(Instruction { tasks: ldy_ax(cpu), name: "LDY" }),
        0xA2 => Some(Instruction { tasks: ldx_im(cpu), name: "LDX" }),
        0xA6 => Some(Instruction { tasks: ldx_zp(cpu), name: "LDX" }),
        0xB6 => Some(Instruction { tasks: ldx_zpy(cpu), name: "LDX" }),
        0xAE => Some(Instruction { tasks: ldx_a(cpu), name: "LDX" }),
        0xBE => Some(Instruction { tasks: ldx_ay(cpu), name: "LDX" }),
        0xEA => Some(Instruction { tasks: nop(cpu), name: "NOP" }),
        0x48 => Some(Instruction { tasks: pha(cpu), name: "PHA" }),
        0x08 => Some(Instruction { tasks: php(cpu), name: "PHP" }),
        0x68 => Some(Instruction { tasks: pla(cpu), name: "PLA" }),
        0x28 => Some(Instruction { tasks: plp(cpu), name: "PLP" }),
        0x40 => Some(Instruction { tasks: rti(cpu), name: "RTI" }),
        0x60 => Some(Instruction { tasks: rts(cpu), name: "RTS" }),
        0x85 => Some(Instruction { tasks: sta_zp(cpu), name: "STA" }),
        0x95 => Some(Instruction { tasks: sta_zpx(cpu), name: "STA" }),
        0x8D => Some(Instruction { tasks: sta_a(cpu), name: "STA" }),
        0x9D => Some(Instruction { tasks: sta_ax(cpu), name: "STA" }),
        0x99 => Some(Instruction { tasks: sta_ay(cpu), name: "STA" }),
        0x81 => Some(Instruction { tasks: sta_inx(cpu), name: "STA" }),
        0x91 => Some(Instruction { tasks: sta_iny(cpu), name: "STA" }),
        0x86 => Some(Instruction { tasks: stx_zp(cpu), name: "STX" }),
        0x96 => Some(Instruction { tasks: stx_zpy(cpu), name: "STX" }),
        0x8E => Some(Instruction { tasks: stx_a(cpu), name: "STX" }),
        0x84 => Some(Instruction { tasks: sty_zp(cpu), name: "STY" }),
        0x94 => Some(Instruction { tasks: sty_zpx(cpu), name: "STY" }),
        0x8C => Some(Instruction { tasks: sty_a(cpu), name: "STY" }),
        0xAA => Some(Instruction { tasks: tax(cpu), name: "TAX" }),
        0xA8 => Some(Instruction { tasks: tay(cpu), name: "TAY" }),
        0xBA => Some(Instruction { tasks: tsx(cpu), name: "TSX" }),
        0x8A => Some(Instruction { tasks: txa(cpu), name: "TXA" }),
        0x9A => Some(Instruction { tasks: txs(cpu), name: "TXS" }),
        0x98 => Some(Instruction { tasks: tya(cpu), name: "TYA" }),
        _ => None,
    }
}

} // verus!
