use cpu6502::cpu::CPU;
use cpu6502::cpu::addressing::AddressingMode;
use cpu6502::cpu::addressing::address::Address;
use cpu6502::cpu::debugger::debug_instruction_info::DebugInstructionInfo;
use cpu6502::cpu::instructions::BMI;
use cpu6502::cpu::instructions::NOP;
use cpu6502::cpu::tasks::Tasks;
use cpu6502::memory::Generic64kMem;

fn memory_mock(payload: &[u8]) -> Generic64kMem {
    let mut memory = Generic64kMem::new();
    memory.insert(0, payload);
    memory
}

#[allow(dead_code)]
fn memory_default() -> Generic64kMem {
    memory_mock(&[0x44, 0x51, 0x88, 0x42, 0x99])
}

#[allow(dead_code)]
fn run_tasks<T: Tasks>(cpu: &mut CPU, tasks: &mut T, memory: &mut Generic64kMem) {
    while !tasks.done() {
        tasks.tick(cpu, memory);
        cpu.cycle += 1;
    }
}

#[test]
fn should_show_absolute_address_instruction() {
    let mut addr = Address::new();
    addr.reset(AddressingMode::Absolute);
    addr.set(0x5955u16);
    let uut = DebugInstructionInfo {
      addr: 0x21,
      addr_symbol: None,
      opcode: 0xAD,
      name: "LDA",
      starting_cycle: 3,
      target_addr: Some(addr),
      target_val: None,
      target_symbol: None,
    };

    assert_eq!(uut.to_string(), "3@0x21: LDA $5955");
}

#[test]
fn should_show_absolute_x_address_instruction() {
    let mut addr = Address::new();
    addr.reset(AddressingMode::AbsoluteX);
    addr.set_indirect_lo(0x59u8);
    let uut = DebugInstructionInfo {
      addr: 0x21,
      addr_symbol: None,
      opcode: 0xBD,
      name: "LDA",
      starting_cycle: 3,
      target_addr: Some(addr),
      target_val: None,
      target_symbol: None,
    };

    assert_eq!(uut.to_string(), "3@0x21: LDA $59,X");
}

#[test]
fn should_show_absolute_y_address_instruction() {
    let mut addr = Address::new();
    addr.reset(AddressingMode::AbsoluteY);
    addr.set_indirect_lo(0x59u8);
    let uut = DebugInstructionInfo {
      addr: 0x21,
      addr_symbol: None,
      opcode: 0xB9,
      name: "LDA",
      starting_cycle: 3,
      target_addr: Some(addr),
      target_val: None,
      target_symbol: None,
    };

    assert_eq!(uut.to_string(), "3@0x21: LDA $59,Y");
}

#[test]
fn should_show_accumulator_address_instruction() {
    let mut addr = Address::new();
    addr.reset(AddressingMode::Accumulator);
    let uut = DebugInstructionInfo {
      addr: 0x21,
      addr_symbol: None,
      opcode: 0x4A,
      name: "LSR",
      starting_cycle: 3,
      target_addr: Some(addr),
      target_val: None,
      target_symbol: None,
    };

    assert_eq!(uut.to_string(), "3@0x21: LSR A");
}

#[test]
fn should_show_immediate_address_instruction() {
    let mut addr = Address::new();
    addr.reset(AddressingMode::Immediate);
    let uut = DebugInstructionInfo {
      addr: 0x21,
      addr_symbol: None,
      opcode: 0xA0,
      name: "LDY",
      starting_cycle: 3,
      target_addr: Some(addr),
      target_val: Some(89),
      target_symbol: None,
    };

    assert_eq!(uut.to_string(), "3@0x21: LDY #89");
}

#[test]
fn should_show_implicit_address_instruction() {
    let mut addr = Address::new();
    addr.reset(AddressingMode::Implicit);
    let uut = DebugInstructionInfo {
      addr: 0x21,
      addr_symbol: None,
      opcode: 0xEA,
      name: "NOP",
      starting_cycle: 3,
      target_addr: Some(addr),
      target_val: None,
      target_symbol: None,
    };

    assert_eq!(uut.to_string(), "3@0x21: NOP");
}

#[test]
fn should_show_indirect_address_instruction() {
    let mut addr = Address::new();
    addr.reset(AddressingMode::Indirect);
    addr.set_indirect_lo(0x59);
    addr.set_indirect_hi(0x25);
    let uut = DebugInstructionInfo {
      addr: 0x21,
      addr_symbol: None,
      opcode: 0x6C,
      name: "JMP",
      starting_cycle: 3,
      target_addr: Some(addr),
      target_val: None,
      target_symbol: None,
    };

    assert_eq!(uut.to_string(), "3@0x21: JMP ($2559)");
}

#[test]
fn should_show_index_indirect_x_address_instruction() {
    let mut addr = Address::new();
    addr.reset(AddressingMode::IndexIndirectX);
    addr.set_indirect_lo(0x59);
    let uut = DebugInstructionInfo {
      addr: 0x21,
      addr_symbol: None,
      opcode: 0xA1,
      name: "LDA",
      starting_cycle: 3,
      target_addr: Some(addr),
      target_val: None,
      target_symbol: None,
    };

    assert_eq!(uut.to_string(), "3@0x21: LDA ($59,X)");
}

#[test]
fn should_show_indirect_index_y_address_instruction() {
    let mut addr = Address::new();
    addr.reset(AddressingMode::IndirectIndexY);
    addr.set_indirect_lo(0x59);
    let uut = DebugInstructionInfo {
      addr: 0x21,
      addr_symbol: None,
      opcode: 0xB1,
      name: "LDA",
      starting_cycle: 3,
      target_addr: Some(addr),
      target_val: None,
      target_symbol: None,
    };

    assert_eq!(uut.to_string(), "3@0x21: LDA ($59),Y");
}

#[test]
fn should_show_relative_address_instruction_when_offset_is_positive_() {
    let mut addr = Address::new();
    addr.reset(AddressingMode::Relative);
    addr.set_indirect_lo(0x4);
    let uut = DebugInstructionInfo {
      addr: 0x21,
      addr_symbol: None,
      opcode: 0x30,
      name: "BMI",
      starting_cycle: 3,
      target_addr: Some(addr),
      target_val: None,
      target_symbol: None,
    };

    assert_eq!(uut.to_string(), "3@0x21: BMI *+4");
}

#[test]
fn should_show_relative_address_instruction_when_offset_is_negative_() {
    let mut addr = Address::new();
    addr.reset(AddressingMode::Relative);
    addr.set_indirect_lo(0xFD);
    let uut = DebugInstructionInfo {
      addr: 0x21,
      addr_symbol: None,
      opcode: 0x30,
      name: "BMI",
      starting_cycle: 3,
      target_addr: Some(addr),
      target_val: None,
      target_symbol: None,
    };

    assert_eq!(uut.to_string(), "3@0x21: BMI *-3");
}

#[test]
fn should_show_zero_page_address_instruction() {
    let mut addr = Address::new();
    addr.reset(AddressingMode::ZeroPage);
    addr.set_lo(0x59u8);
    let uut = DebugInstructionInfo {
      addr: 0x21,
      addr_symbol: None,
      opcode: 0xA5,
      name: "LDA",
      starting_cycle: 3,
      target_addr: Some(addr),
      target_val: None,
      target_symbol: None,
    };

    assert_eq!(uut.to_string(), "3@0x21: LDA $59");
}

#[test]
fn should_show_zero_page_x_address_instruction() {
    let mut addr = Address::new();
    addr.reset(AddressingMode::ZeroPageX);
    addr.set_lo(0x59u8);
    let uut = DebugInstructionInfo {
      addr: 0x21,
      addr_symbol: None,
      opcode: 0xB5,
      name: "LDA",
      starting_cycle: 3,
      target_addr: Some(addr),
      target_val: None,
      target_symbol: None,
    };

    assert_eq!(uut.to_string(), "3@0x21: LDA $59,X");
}

#[test]
fn should_show_zero_page_y_address_instruction() {
    let mut addr = Address::new();
    addr.reset(AddressingMode::ZeroPageY);
    addr.set_lo(0x59u8);
    let uut = DebugInstructionInfo {
      addr: 0x21,
      addr_symbol: None,
      opcode: 0xB6,
      name: "LDX",
      starting_cycle: 3,
      target_addr: Some(addr),
      target_val: None,
      target_symbol: None,
    };

    assert_eq!(uut.to_string(), "3@0x21: LDX $59,Y");
}

#[test]
fn should_show_target_symbol_instead_of_address_when_available() {
    let mut addr = Address::new();
    addr.reset(AddressingMode::Absolute);
    addr.set(0x5955u16);
    let uut = DebugInstructionInfo {
      addr: 0x21,
      addr_symbol: None,
      opcode: 0xAD,
      name: "LDA",
      starting_cycle: 3,
      target_addr: Some(addr),
      target_val: None,
      target_symbol: Some(String::from(".PEEK")),
    };

    assert_eq!(uut.to_string(), "3@0x21: LDA .PEEK");
}

#[test]
fn should_show_instruction_symbol_instead_of_address_when_available() {
    let mut addr = Address::new();
    addr.reset(AddressingMode::Absolute);
    addr.set(0x5955u16);
    let uut = DebugInstructionInfo {
      addr: 0x21,
      addr_symbol: Some(String::from(".MONRD")),
      opcode: 0xAD,
      name: "LDA",
      starting_cycle: 3,
      target_addr: Some(addr),
      target_val: None,
      target_symbol: None,
    };

    assert_eq!(uut.to_string(), "3@.MONRD: LDA $5955");
}
