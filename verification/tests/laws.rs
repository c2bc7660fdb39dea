use cpu6502::cpu::instructions::arithmetic::{adc, sbc, FlagOp};
use cpu6502::cpu::debugger::{Debugger, ProbeEvent, Traps};
use cpu6502::cpu::addressing::address::Address;
use cpu6502::cpu::addressing::AddressingMode;
use cpu6502::cpu::debugger::debug_instruction_info::DebugInstructionInfo;
use cpu6502::cpu::debugger::registers::Registers;
use cpu6502::cpu::processor_status::ProcessorStatus;
use cpu6502::cpu::utils;
use cpu6502::cpu::CPU;
use cpu6502::memory::{Generic64kMem, Memory, Operation};

fn memory_with(stores: &[(u16, u8)]) -> Generic64kMem {
    let mut memory = Generic64kMem::new();
    memory.store(stores);
    memory
}

fn cpu_at(pc: u16) -> CPU {
    let mut cpu = CPU::new_nmos();
    cpu.program_counter = pc;
    cpu.stack_pointer = 0xFF;
    cpu.cycle = 0;
    cpu
}

#[test]
fn jsr_then_rts_resumes_after_the_call_with_the_stack_pointer_restored() {
    let mut memory = memory_with(&[(0x0200, 0x20), (0x0201, 0x00), (0x0202, 0x03), (0x0300, 0x60)]);
    let mut cpu = cpu_at(0x0200);

    cpu.execute_next_instruction(&mut memory);
    assert_eq!(cpu.program_counter, 0x0300);
    assert_eq!(cpu.stack_pointer, 0xFD);
    assert_eq!(memory.data[0x01FF], 0x02);
    assert_eq!(memory.data[0x01FE], 0x02);
    assert_eq!(cpu.cycle, 6);

    cpu.execute_next_instruction(&mut memory);
    assert_eq!(cpu.program_counter, 0x0203);
    assert_eq!(cpu.stack_pointer, 0xFF);
    assert_eq!(cpu.cycle, 12);
}

#[test]
fn jsr_with_the_stack_pointer_at_zero_wraps_within_the_stack_page() {
    let mut memory = memory_with(&[(0x0200, 0x20), (0x0201, 0x00), (0x0202, 0x03), (0x0300, 0x60)]);
    let mut cpu = cpu_at(0x0200);
    cpu.stack_pointer = 0x00;

    cpu.execute_next_instruction(&mut memory);
    assert_eq!(cpu.stack_pointer, 0xFE);
    assert_eq!(memory.data[0x0100], 0x02);
    assert_eq!(memory.data[0x01FF], 0x02);

    cpu.execute_next_instruction(&mut memory);
    assert_eq!(cpu.program_counter, 0x0203);
    assert_eq!(cpu.stack_pointer, 0x00);
}

#[test]
fn taken_branch_forward_over_a_page_takes_four_cycles() {
    // BNE +$20 at $02F0 with the zero flag clear
    let mut memory = memory_with(&[(0x02F0, 0xD0), (0x02F1, 0x20)]);
    let mut cpu = cpu_at(0x02F0);

    cpu.execute_next_instruction(&mut memory);
    assert_eq!(cpu.program_counter, 0x0312);
    assert_eq!(cpu.addr.value(), Some(0x0312));
    assert_eq!(cpu.cycle, 4);
}

#[test]
fn taken_branch_backward_over_a_page_lands_on_the_previous_page() {
    // BEQ -3 at $0300 with the zero flag set
    let mut memory = memory_with(&[(0x0300, 0xF0), (0x0301, 0xFD)]);
    let mut cpu = cpu_at(0x0300);
    cpu.processor_status.change_zero_flag(true);

    cpu.execute_next_instruction(&mut memory);
    assert_eq!(cpu.program_counter, 0x02FF);
    assert_eq!(cpu.cycle, 4);
}

#[test]
fn untaken_branch_takes_two_cycles_and_skips_its_operand() {
    let mut memory = memory_with(&[(0x0300, 0xF0), (0x0301, 0xFD)]);
    let mut cpu = cpu_at(0x0300);

    cpu.execute_next_instruction(&mut memory);
    assert_eq!(cpu.program_counter, 0x0302);
    assert_eq!(cpu.cycle, 2);
}

#[test]
fn pha_then_pla_restores_the_accumulator_and_the_stack_pointer() {
    // PHA; LDA #$00; PLA
    let mut memory = memory_with(&[(0x0400, 0x48), (0x0401, 0xA9), (0x0402, 0x00), (0x0403, 0x68)]);
    let mut cpu = cpu_at(0x0400);
    cpu.accumulator = 0x80;

    cpu.execute_next_instruction(&mut memory);
    assert_eq!(cpu.stack_pointer, 0xFE);
    assert_eq!(memory.data[0x01FF], 0x80);
    cpu.execute_next_instruction(&mut memory);
    assert_eq!(cpu.accumulator, 0x00);
    cpu.execute_next_instruction(&mut memory);
    assert_eq!(cpu.accumulator, 0x80);
    assert_eq!(cpu.stack_pointer, 0xFF);
    assert!(cpu.processor_status.get_negative_flag());
    assert!(!cpu.processor_status.get_zero_flag());
    assert_eq!(cpu.cycle, 3 + 2 + 4);
}

#[test]
fn absolute_x_read_crossing_a_page_reads_the_next_page_with_one_more_cycle() {
    // LDA $12FF,X with X = 1 reads $1300
    let mut memory = memory_with(&[(0x0500, 0xBD), (0x0501, 0xFF), (0x0502, 0x12), (0x1300, 0x5A)]);
    let mut cpu = cpu_at(0x0500);
    cpu.index_register_x = 0x01;

    cpu.execute_next_instruction(&mut memory);
    assert_eq!(cpu.accumulator, 0x5A);
    assert_eq!(cpu.program_counter, 0x0503);
    assert_eq!(cpu.cycle, 5);
}

#[test]
fn absolute_x_read_within_the_page_takes_four_cycles() {
    let mut memory = memory_with(&[(0x0500, 0xBD), (0x0501, 0x10), (0x0502, 0x12), (0x1211, 0x5A)]);
    let mut cpu = cpu_at(0x0500);
    cpu.index_register_x = 0x01;

    cpu.execute_next_instruction(&mut memory);
    assert_eq!(cpu.accumulator, 0x5A);
    assert_eq!(cpu.cycle, 4);
}

#[test]
fn indirect_index_y_read_crossing_a_page_takes_six_cycles() {
    // LDA ($10),Y with ($10) = $12FF and Y = 1 reads $1300
    let mut memory = memory_with(&[
        (0x0600, 0xB1),
        (0x0601, 0x10),
        (0x0010, 0xFF),
        (0x0011, 0x12),
        (0x1300, 0x77),
    ]);
    let mut cpu = cpu_at(0x0600);
    cpu.index_register_y = 0x01;

    cpu.execute_next_instruction(&mut memory);
    assert_eq!(cpu.accumulator, 0x77);
    assert_eq!(cpu.cycle, 6);
}

#[test]
fn indirect_index_y_pointer_wraps_within_the_zero_page() {
    // LDA ($FF),Y reads the pointer's high byte from $00
    let mut memory = memory_with(&[
        (0x0600, 0xB1),
        (0x0601, 0xFF),
        (0x00FF, 0x34),
        (0x0000, 0x12),
        (0x1234, 0x99),
    ]);
    let mut cpu = cpu_at(0x0600);

    cpu.execute_next_instruction(&mut memory);
    assert_eq!(cpu.accumulator, 0x99);
}

#[test]
fn zero_page_x_address_wraps_within_the_zero_page() {
    // LDA $FF,X with X = 2 reads $0001
    let mut memory = memory_with(&[(0x0700, 0xB5), (0x0701, 0xFF), (0x0001, 0x3C)]);
    let mut cpu = cpu_at(0x0700);
    cpu.index_register_x = 0x02;

    cpu.execute_next_instruction(&mut memory);
    assert_eq!(cpu.accumulator, 0x3C);
    assert_eq!(cpu.addr.value(), Some(0x0001));
    assert_eq!(cpu.cycle, 4);
}

#[test]
fn nmos_indirect_jump_reads_the_high_byte_from_the_same_page() {
    // JMP ($02FF)
    let mut memory =
        memory_with(&[(0x0800, 0x6C), (0x0801, 0xFF), (0x0802, 0x02), (0x02FF, 0x34), (0x0300, 0x12), (0x0200, 0x56)]);
    let mut cpu = cpu_at(0x0800);

    cpu.execute_next_instruction(&mut memory);
    assert_eq!(cpu.program_counter, 0x5634);
    assert_eq!(cpu.cycle, 5);
}

#[test]
fn cmos_indirect_jump_reads_the_high_byte_from_the_next_address() {
    let mut memory =
        memory_with(&[(0x0800, 0x6C), (0x0801, 0xFF), (0x0802, 0x02), (0x02FF, 0x34), (0x0300, 0x12), (0x0200, 0x56)]);
    let mut cpu = CPU::new_rockwell_cmos();
    cpu.program_counter = 0x0800;
    cpu.cycle = 0;

    cpu.execute_next_instruction(&mut memory);
    assert_eq!(cpu.program_counter, 0x1234);
    assert_eq!(cpu.cycle, 6);
}

#[test]
fn a_read_gives_back_the_last_write_and_is_recorded() {
    let mut memory = Generic64kMem::new();
    memory.write(0x1234, 0xAB);
    assert_eq!(memory.get_last_operation(), Some(Operation::Write(0x1234)));
    memory.write(0x1235, 0xCD);
    assert_eq!(memory.read(0x1234), 0xAB);
    assert_eq!(memory.get_last_operation(), Some(Operation::Read(0x1234)));
    assert_eq!(memory.read(0x1235), 0xCD);
}

#[test]
fn insert_copies_bytes_in_order_and_leaves_the_rest() {
    let mut memory = Generic64kMem::new();
    memory.insert(0xFFFD, &[1, 2, 3]);
    assert_eq!(memory.data[0xFFFC], 0);
    assert_eq!(memory.data[0xFFFD], 1);
    assert_eq!(memory.data[0xFFFE], 2);
    assert_eq!(memory.data[0xFFFF], 3);
    assert_eq!(memory.get_last_operation(), None);
}

#[test]
fn store_applies_pairs_in_order_so_the_later_one_wins() {
    let memory = memory_with(&[(0x0042, 1), (0x0042, 2)]);
    assert_eq!(memory.data[0x0042], 2);
}

#[test]
fn execute_until_break_stops_once_an_instruction_sets_the_break_flag() {
    // LDA #$10; PHA; PLP
    let mut memory = memory_with(&[(0x0900, 0xA9), (0x0901, 0x10), (0x0902, 0x48), (0x0903, 0x28)]);
    let mut cpu = cpu_at(0x0900);

    let cycles = cpu.execute_until_break(&mut memory);
    assert_eq!(cycles, 2 + 3 + 4);
    assert!(cpu.processor_status.get_break_flag());
    assert_eq!(cpu.program_counter, 0x0904);
}

#[test]
fn execute_until_break_returns_at_once_when_the_flag_is_already_set() {
    let mut memory = Generic64kMem::new();
    let mut cpu = cpu_at(0x0900);
    cpu.processor_status.change_break_flag(true);

    assert_eq!(cpu.execute_until_break(&mut memory), 0);
    assert_eq!(cpu.program_counter, 0x0900);
}

#[test]
fn debugged_execution_stops_after_brk() {
    // NOP; BRK, with the interrupt vector pointing back at $0A00
    let mut memory = memory_with(&[(0x0A00, 0xEA), (0x0A01, 0x00), (0xFFFE, 0x00), (0xFFFF, 0x0A)]);
    let mut cpu = cpu_at(0x0A00);
    let mut debugger = Debugger::new();

    let cycles = utils::execute_until_break(&mut cpu, &mut memory, &mut debugger);
    assert_eq!(cycles, 2 + 7);
    assert_eq!(cpu.program_counter, 0x0A00);
    let last = debugger.get_last_instruction().expect("BRK was recorded");
    assert_eq!(last.opcode, 0x00);
    assert_eq!(last.to_string(), "3@0xA01: BRK");
}

#[test]
fn debugged_instruction_is_probed_every_cycle() {
    let mut memory = memory_with(&[(0x0000, 0xA9), (0x0001, 0x42)]);
    let mut cpu = cpu_at(0x0000);
    let mut debugger = Debugger::new();

    utils::execute_next_instruction(&mut cpu, &mut memory, Some(&mut debugger));
    let last = debugger.get_last_instruction().expect("LDA was recorded");
    assert_eq!(last.target_val, Some(0x42));
    assert_eq!(last.to_string(), "1@0x00: LDA #66");
    assert_eq!(cpu.accumulator, 0x42);
}

#[test]
fn debugger_history_keeps_only_the_latest_instructions() {
    let mut stores = Vec::new();
    for i in 0..40u16 {
        stores.push((0x0B00 + i, 0xEA));
    }
    let mut memory = memory_with(&stores);
    let mut cpu = cpu_at(0x0B00);
    let mut debugger = Debugger::new();

    for _ in 0..40 {
        utils::execute_next_instruction(&mut cpu, &mut memory, Some(&mut debugger));
    }
    let last = debugger.get_last_instruction().expect("NOPs were recorded");
    assert_eq!(last.addr, 0x0B27);
    assert_eq!(last.to_string(), "79@0xB27: NOP");
}

#[test]
fn processor_status_converts_to_and_from_its_byte() {
    let status: ProcessorStatus = 0b1010_0001.into();
    assert!(status == 0b1010_0001u8);
    assert!(status.get_carry_flag());
    assert!(status.get_negative_flag());
    assert!(!status.get_zero_flag());
    let byte: u8 = status.into();
    assert_eq!(byte, 0b1010_0001);
    assert!(status == ProcessorStatus::from_byte_value(0b1010_0001));
}

#[test]
fn processor_status_text_names_every_flag() {
    let status: ProcessorStatus = 0b0100_0010.into();
    assert_eq!(
        status.to_string(),
        "Carry: false; Zero: true, IntDisable: false, Decimal: false, Break: false; Overflow: true; Negative: false"
    );
}

#[test]
fn flag_changes_read_back_commute_and_keep_a_flag_set_to_its_value() {
    let mut a = ProcessorStatus::from_byte_value(0b0000_0000);
    a.change_carry_flag(true);
    a.change_negative_flag(true);
    let mut b = ProcessorStatus::from_byte_value(0b0000_0000);
    b.change_negative_flag(true);
    b.change_carry_flag(true);
    assert!(a == b);
    assert!(a == 0b1000_0001u8);
    assert!(a.get_carry_flag());
    assert!(!a.get_zero_flag());

    let before = a;
    let zero = a.get_zero_flag();
    a.change_zero_flag(zero);
    assert!(a == before);
}

#[test]
fn probing_a_finished_address_reads_the_target_and_records_the_read() {
    // LDA $1234
    let mut memory = memory_with(&[(0x0000, 0xAD), (0x0001, 0x34), (0x0002, 0x12), (0x1234, 0x99)]);
    let mut cpu = cpu_at(0x0000);
    let mut debugger = Debugger::new();
    debugger.trap_between_addresses(0x1200..=0x12FF);

    cpu.tick(&mut memory);
    let first = debugger.probe(&cpu, &mut memory);
    assert_eq!(first.events, vec![ProbeEvent::NextInstruction]);
    cpu.tick(&mut memory);
    debugger.probe(&cpu, &mut memory);
    cpu.tick(&mut memory);
    assert_eq!(memory.get_last_operation(), Some(Operation::Read(0x0002)));
    let result = debugger.probe(&cpu, &mut memory);
    assert_eq!(
        result.events,
        vec![ProbeEvent::AddressingDone, ProbeEvent::TrapHit(Traps::AddressRange(0x1200..=0x12FF, 0x1234))]
    );
    assert_eq!(memory.get_last_operation(), Some(Operation::Read(0x1234)));
    assert_eq!(debugger.get_last_instruction().unwrap().target_val, Some(0x99));
}

fn info(addr: u16, name: &'static str, target: Option<Address>) -> DebugInstructionInfo {
    DebugInstructionInfo {
        addr,
        addr_symbol: None,
        opcode: 0,
        name,
        starting_cycle: 12345,
        target_addr: target,
        target_val: None,
        target_symbol: None,
    }
}

#[test]
fn instruction_text_pads_short_addresses_and_shows_zero_offsets_with_a_sign() {
    let mut relative = Address::new();
    relative.reset(AddressingMode::Relative);
    relative.set_indirect_lo(0x00);
    assert_eq!(info(0x5, "BNE", Some(relative)).to_string(), "12345@0x05: BNE *+0");

    let mut most_negative = Address::new();
    most_negative.reset(AddressingMode::Relative);
    most_negative.set_indirect_lo(0x80);
    assert_eq!(info(0xFFFF, "BEQ", Some(most_negative)).to_string(), "12345@0xFFFF: BEQ *-128");
}

#[test]
fn instruction_text_marks_an_unknown_operand() {
    let mut absolute = Address::new();
    absolute.reset(AddressingMode::Absolute);
    assert_eq!(info(0x1000, "STA", Some(absolute)).to_string(), "12345@0x1000: STA ?");
    assert_eq!(info(0x1000, "STA", None).to_string(), "12345@0x1000: STA ?");
}

#[test]
fn register_text_pads_hexadecimal_to_two_digits() {
    let registers = Registers { a: 0, x: 5, y: 255 };
    assert_eq!(registers.to_string(), "A: 0 / $00; X: 5 / $05; Y: 255 / $FF\n");
}

#[test]
fn addressing_mode_names_match_their_variants() {
    assert_eq!(AddressingMode::IndirectIndexY.name(), "IndirectIndexY");
    assert_eq!(AddressingMode::ZeroPageX.name(), "ZeroPageX");
}

#[test]
fn index_indirect_x_pointer_wraps_within_the_zero_page() {
    // LDA ($FF,X) with X = 1 reads the pointer at $00/$01
    let mut memory = memory_with(&[
        (0x0C00, 0xA1),
        (0x0C01, 0xFF),
        (0x0000, 0x78),
        (0x0001, 0x56),
        (0x5678, 0x21),
    ]);
    let mut cpu = cpu_at(0x0C00);
    cpu.index_register_x = 0x01;

    cpu.execute_next_instruction(&mut memory);
    assert_eq!(cpu.accumulator, 0x21);
    assert_eq!(cpu.addr.value(), Some(0x5678));
    assert_eq!(cpu.cycle, 6);
}

#[test]
fn adc_adds_the_incoming_carry_and_sets_or_clears_both_flags() {
    assert_eq!(adc(0x00, 0x00, true), (0x01, FlagOp::Clear, FlagOp::Clear));
    assert_eq!(adc(0x01, 0xFF, false), (0x00, FlagOp::Raise, FlagOp::Clear));
    assert_eq!(adc(0x01, 0x7F, false), (0x80, FlagOp::Clear, FlagOp::Raise));
    assert_eq!(adc(0xFF, 0xFF, true), (0xFF, FlagOp::Raise, FlagOp::Clear));
}

#[test]
fn sbc_sets_carry_when_no_borrow_occurs() {
    assert_eq!(sbc(0x01, 0x05, true), (0x04, FlagOp::Raise, FlagOp::Clear));
    assert_eq!(sbc(0x01, 0x05, false), (0x03, FlagOp::Raise, FlagOp::Clear));
    assert_eq!(sbc(0x06, 0x05, true), (0xFF, FlagOp::Clear, FlagOp::Clear));
    assert_eq!(sbc(0x00, 0x42, true), (0x42, FlagOp::Raise, FlagOp::Clear));
    assert_eq!(sbc(0x01, 0x80, true), (0x7F, FlagOp::Raise, FlagOp::Raise));
}

#[test]
fn adc_instruction_clears_a_previously_set_carry() {
    // SEC; ADC #$01 with A = 0 gives 2 and clears the carry
    let mut memory = memory_with(&[(0x0D00, 0x38), (0x0D01, 0x69), (0x0D02, 0x01)]);
    let mut cpu = cpu_at(0x0D00);
    cpu.execute_next_instruction(&mut memory);
    cpu.execute_next_instruction(&mut memory);
    assert_eq!(cpu.accumulator, 0x02);
    assert!(!cpu.processor_status.get_carry_flag());
}

#[test]
fn plp_takes_the_pulled_byte_as_it_is() {
    // PLP with $DE on the stack
    let mut memory = memory_with(&[(0x0E00, 0x28), (0x01FF, 0xDE)]);
    let mut cpu = cpu_at(0x0E00);
    cpu.stack_pointer = 0xFE;
    cpu.execute_next_instruction(&mut memory);
    assert_eq!(cpu.get_processor_status(), 0xDE);
    assert_eq!(cpu.stack_pointer, 0xFF);
}

#[test]
fn brk_then_rti_resumes_two_bytes_after_brk_with_the_status_restored() {
    // BRK at $0200 (padding byte at $0201), handler at $0300 is RTI.
    let mut memory = memory_with(&[
        (0x0200, 0x00),
        (0x0201, 0xEA),
        (0x0300, 0x40),
        (0xFFFE, 0x00),
        (0xFFFF, 0x03),
    ]);
    let mut cpu = cpu_at(0x0200);
    cpu.processor_status = 0x01_u8.into();

    cpu.execute_next_instruction(&mut memory);
    assert_eq!(cpu.program_counter, 0x0300);
    assert_eq!(cpu.stack_pointer, 0xFC);
    assert_eq!(memory.data[0x01FF], 0x02);
    assert_eq!(memory.data[0x01FE], 0x02);
    assert_eq!(memory.data[0x01FD], 0x11);
    assert!(cpu.processor_status.get_interrupt_disable_flag());
    assert_eq!(cpu.cycle, 7);

    cpu.execute_next_instruction(&mut memory);
    assert_eq!(cpu.program_counter, 0x0202);
    assert_eq!(cpu.stack_pointer, 0xFF);
    assert_eq!(u8::from(cpu.processor_status), 0x01);
    assert_eq!(cpu.cycle, 13);
}

#[test]
fn asl_accumulator_moves_bit_seven_into_carry() {
    // ASL A with A = $81
    let mut memory = memory_with(&[(0x0200, 0x0A)]);
    let mut cpu = cpu_at(0x0200);
    cpu.accumulator = 0x81;

    cpu.execute_next_instruction(&mut memory);
    assert_eq!(cpu.accumulator, 0x02);
    assert!(cpu.processor_status.get_carry_flag());
    assert!(!cpu.processor_status.get_zero_flag());
    assert!(!cpu.processor_status.get_negative_flag());
    assert_eq!(cpu.program_counter, 0x0201);
    assert_eq!(cpu.cycle, 2);
}

#[test]
fn cmp_immediate_sets_carry_and_zero_on_equal_operand() {
    // CMP #$42 with A = $42
    let mut memory = memory_with(&[(0x0200, 0xC9), (0x0201, 0x42)]);
    let mut cpu = cpu_at(0x0200);
    cpu.accumulator = 0x42;

    cpu.execute_next_instruction(&mut memory);
    assert!(cpu.processor_status.get_carry_flag());
    assert!(cpu.processor_status.get_zero_flag());
    assert!(!cpu.processor_status.get_negative_flag());
    assert_eq!(cpu.accumulator, 0x42);
    assert_eq!(cpu.program_counter, 0x0202);
    assert_eq!(cpu.cycle, 2);
}

#[test]
fn indirect_index_y_store_crossing_a_page_leaves_addressing_not_done() {
    // STA ($10),Y with ($10) = $12FF and Y = 1 writes $1300
    let mut memory = memory_with(&[
        (0x0600, 0x91),
        (0x0601, 0x10),
        (0x0010, 0xFF),
        (0x0011, 0x12),
    ]);
    let mut cpu = cpu_at(0x0600);
    cpu.index_register_y = 0x01;
    cpu.accumulator = 0x5A;

    cpu.execute_next_instruction(&mut memory);
    assert_eq!(memory.data[0x1300], 0x5A);
    assert_eq!(cpu.addr.value(), Some(0x1300));
    assert!(!cpu.addr.done);
    assert_eq!(cpu.cycle, 6);
}
