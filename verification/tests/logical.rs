use cpu6502::consts::Byte;
use cpu6502::cpu::CPU;
use cpu6502::cpu::instructions::logical::and_a;
use cpu6502::cpu::instructions::logical::and_ax;
use cpu6502::cpu::instructions::logical::and_ay;
use cpu6502::cpu::instructions::logical::and_im;
use cpu6502::cpu::instructions::logical::and_inx;
use cpu6502::cpu::instructions::logical::and_iny;
use cpu6502::cpu::instructions::logical::and_zp;
use cpu6502::cpu::instructions::logical::and_zpx;
use cpu6502::cpu::instructions::logical::bit_a;
use cpu6502::cpu::instructions::logical::bit_zp;
use cpu6502::cpu::instructions::logical::eor_a;
use cpu6502::cpu::instructions::logical::eor_ax;
use cpu6502::cpu::instructions::logical::eor_ay;
use cpu6502::cpu::instructions::logical::eor_im;
use cpu6502::cpu::instructions::logical::eor_inx;
use cpu6502::cpu::instructions::logical::eor_iny;
use cpu6502::cpu::instructions::logical::eor_zp;
use cpu6502::cpu::instructions::logical::eor_zpx;
use cpu6502::cpu::instructions::logical::ora_a;
use cpu6502::cpu::instructions::logical::ora_ax;
use cpu6502::cpu::instructions::logical::ora_ay;
use cpu6502::cpu::instructions::logical::ora_im;
use cpu6502::cpu::instructions::logical::ora_inx;
use cpu6502::cpu::instructions::logical::ora_iny;
use cpu6502::cpu::instructions::logical::ora_zp;
use cpu6502::cpu::instructions::logical::ora_zpx;
use cpu6502::cpu::tasks::Tasks;
use cpu6502::memory::Generic64kMem;

fn memory_mock(payload: &[u8]) -> Generic64kMem {
    let mut memory = Generic64kMem::new();
    memory.insert(0, payload);
    memory
}

#[allow(dead_code)]
fn memory_default() -> Generic64kMem {
    memory_mock(&[0x44, 0x51, 0x88, 0x42, 0x99])
}

#[allow(dead_code)]
fn run_tasks<T: Tasks>(cpu: &mut CPU, tasks: &mut T, memory: &mut Generic64kMem) {
    while !tasks.done() {
        tasks.tick(cpu, memory);
        cpu.cycle += 1;
    }
}

#[test]
fn logical_should_or_accumulator_with_a_value_from_immediate_address() {
    let mut memory = memory_mock(&[0x22, 0x00]);
    let mut cpu = CPU::new_nmos();
    cpu.program_counter = 0x00;
    cpu.accumulator = 0x16;

    let mut tasks = ora_im(&mut cpu);
    run_tasks(&mut cpu, &mut tasks, &mut memory);

    assert_eq!(cpu.accumulator, 0x36);
}

#[test]
fn logical_should_set_processor_status() {
    let mut memory = memory_mock(&[0x22, 0x00]);
    let mut cpu = CPU::new_nmos();
    cpu.program_counter = 0x00;
    cpu.accumulator = 0x86;

    let mut tasks = ora_im(&mut cpu);
    run_tasks(&mut cpu, &mut tasks, &mut memory);

    assert_eq!(cpu.get_processor_status(), 0x80);
}

#[test]
fn logical_should_take_one_cycle() {
    let mut memory = memory_mock(&[0x22, 0x00]);
    let mut cpu = CPU::new_nmos();
    cpu.program_counter = 0x00;
    cpu.accumulator = 0x14;
    cpu.cycle = 0;

    let mut tasks = ora_im(&mut cpu);
    run_tasks(&mut cpu, &mut tasks, &mut memory);

    assert_eq!(cpu.cycle, 1);
}

#[test]
fn logical_should_or_accumulator_with_a_value_from_zero_page_address() {
    const ZERO_PAGE_ADDR: Byte = 0x03;
    const VALUE: Byte = 0x22;
    let mut memory = memory_mock(&[ZERO_PAGE_ADDR, 0xFF, 0x00, VALUE]);
    let mut cpu = CPU::new_nmos();
    cpu.accumulator = 0x16;
    cpu.program_counter = 0x00;

    let mut tasks = ora_zp(&mut cpu);
    run_tasks(&mut cpu, &mut tasks, &mut memory);

    assert_eq!(cpu.accumulator, 0x36);
}

#[test]
fn logical_should_set_processor_status_ora_zp() {
    const ZERO_PAGE_ADDR: Byte = 0x03;
    const VALUE: Byte = 0x22;
    let mut memory = memory_mock(&[ZERO_PAGE_ADDR, 0xFF, 0x00, VALUE]);
    let mut cpu = CPU::new_nmos();
    cpu.accumulator = 0x86;
    cpu.program_counter = 0x00;

    let mut tasks = ora_zp(&mut cpu);
    run_tasks(&mut cpu, &mut tasks, &mut memory);

    assert_eq!(cpu.get_processor_status(), 0x80);
}

#[test]
fn logical_should_take_two_cycles() {
    const ZERO_PAGE_ADDR: Byte = 0x03;
    const VALUE: Byte = 0x22;
    let mut memory = memory_mock(&[ZERO_PAGE_ADDR, 0xFF, 0x00, VALUE]);
    let mut cpu = CPU::new_nmos();
    cpu.accumulator = 0x16;
    cpu.program_counter = 0x00;
    cpu.cycle = 0;

    let mut tasks = ora_zp(&mut cpu);
    run_tasks(&mut cpu, &mut tasks, &mut memory);

    assert_eq!(cpu.cycle, 2);
}

#[test]
fn logical_should_or_accumulator_with_a_value_at_a_zero_page_address_summed_with_index_register_x() {
    const ZERO_PAGE_ADDR: Byte = 0x01;
    const VALUE: Byte = 0x22;
    let mut memory = memory_mock(&[ZERO_PAGE_ADDR, 0xFF, 0x00, VALUE]);
    let mut cpu = CPU::new_nmos();
    cpu.accumulator = 0x16;
    cpu.index_register_x = 0x02;
    cpu.program_counter = 0x00;

    let mut tasks = ora_zpx(&mut cpu);
    run_tasks(&mut cpu, &mut tasks, &mut memory);

    assert_eq!(cpu.accumulator, 0x36);
}

#[test]
fn logical_should_set_processor_status_ora_zpx() {
    const ZERO_PAGE_ADDR: Byte = 0x01;
    const VALUE: Byte = 0x22;
    let mut memory = memory_mock(&[ZERO_PAGE_ADDR, 0xFF, 0x00, VALUE]);
    let mut cpu = CPU::new_nmos();
    cpu.accumulator = 0x86;
    cpu.index_register_x = 0x02;
    cpu.program_counter = 0x00;

    let mut tasks = ora_zpx(&mut cpu);
    run_tasks(&mut cpu, &mut tasks, &mut memory);

    assert_eq!(cpu.get_processor_status(), 0x80);
}

#[test]
fn logical_should_take_three_cycles() {
    const ZERO_PAGE_ADDR: Byte = 0x01;
    const VALUE: Byte = 0x22;
    let mut memory = memory_mock(&[ZERO_PAGE_ADDR, 0xFF, 0x00, VALUE]);
    let mut cpu = CPU::new_nmos();
    cpu.accumulator = 0x16;
    cpu.index_register_x = 0x02;
    cpu.program_counter = 0x00;
    cpu.cycle = 0;

    let mut tasks = ora_zpx(&mut cpu);
    run_tasks(&mut cpu, &mut tasks, &mut memory);

    assert_eq!(cpu.cycle, 3);
}

#[test]
fn logical_should_or_accumulator_with_a_value_in_memory_at_an_absolute_address() {
    const ADDR_LO: Byte = 0x04;
    const ADDR_HI: Byte = 0x00;
    const VALUE: Byte = 0x22;
    let mut memory = memory_mock(&[ADDR_LO, ADDR_HI, 0x00, 0x00, VALUE]);
    let mut cpu = CPU::new_nmos();
    cpu.accumulator = 0x16;
    cpu.program_counter = 0x00;

    let mut tasks = ora_a(&mut cpu);
    run_tasks(&mut cpu, &mut tasks, &mut memory);

    assert_eq!(cpu.accumulator, 0x36);
}

#[test]
fn logical_should_set_processor_status_ora_a() {
    const ADDR_LO: Byte = 0x04;
    const ADDR_HI: Byte = 0x00;
    const VALUE: Byte = 0x22;
    let mut memory = memory_mock(&[ADDR_LO, ADDR_HI, 0x00, 0x00, VALUE]);
    let mut cpu = CPU::new_nmos();
    cpu.accumulator = 0x86;
    cpu.program_counter = 0x00;

    let mut tasks = ora_a(&mut cpu);
    run_tasks(&mut cpu, &mut tasks, &mut memory);

    assert_eq!(cpu.get_processor_status(), 0x80);
}

#[test]
fn logical_should_take_three_cycles_ora_a() {
    const ADDR_LO: Byte = 0x04;
    const ADDR_HI: Byte = 0x00;
    const VALUE: Byte = 0x22;
    let mut memory = memory_mock(&[ADDR_LO, ADDR_HI, 0x00, 0x00, VALUE]);
    let mut cpu = CPU::new_nmos();
    cpu.accumulator = 0x16;
    cpu.program_counter = 0x00;
    cpu.cycle = 0;

    let mut tasks = ora_a(&mut cpu);
    run_tasks(&mut cpu, &mut tasks, &mut memory);

    assert_eq!(cpu.cycle, 3);
}

#[test]
fn logical_should_or_accumulator_with_a_value_in_memory_at_an_absolute_address_offset_by_index_register_x() {
    const ADDR_LO: Byte = 0x02;
    const ADDR_HI: Byte = 0x00;
    const OFFSET: Byte = 0x02;
    const VALUE: Byte = 0x22;
    let mut memory = memory_mock(&[ADDR_LO, ADDR_HI, 0x00, 0x00, VALUE]);
    let mut cpu = CPU::new_nmos();
    cpu.accumulator = 0x16;
    cpu.program_counter = 0x00;
    cpu.index_register_x = OFFSET;

    let mut tasks = ora_ax(&mut cpu);
    run_tasks(&mut cpu, &mut tasks, &mut memory);

    assert_eq!(cpu.accumulator, 0x36);
}

#[test]
fn logical_should_set_processor_status_ora_ax() {
    const ADDR_LO: Byte = 0x02;
    const ADDR_HI: Byte = 0x00;
    const OFFSET: Byte = 0x02;
    const VALUE: Byte = 0x22;
    let mut memory = memory_mock(&[ADDR_LO, ADDR_HI, 0x00, 0x00, VALUE]);
    let mut cpu = CPU::new_nmos();
    cpu.accumulator = 0x86;
    cpu.program_counter = 0x00;
    cpu.index_register_x = OFFSET;

    let mut tasks = ora_ax(&mut cpu);
    run_tasks(&mut cpu, &mut tasks, &mut memory);

    assert_eq!(cpu.get_processor_status(), 0x80);
}

#[test]
fn logical_should_take_three_cycles_when_adding_offset_crosses_over_page_flip() {
    const ADDR_LO: Byte = 0x02;
    const ADDR_HI: Byte = 0x00;
    const OFFSET: Byte = 0x02;
    const VALUE: Byte = 0x22;
    let mut memory = memory_mock(&[ADDR_LO, ADDR_HI, 0x00, 0x00, VALUE]);
    let mut cpu = CPU::new_nmos();
    cpu.accumulator = 0x16;
    cpu.program_counter = 0x00;
    cpu.index_register_x = OFFSET;
    cpu.cycle = 0;

    let mut tasks = ora_ax(&mut cpu);
    run_tasks(&mut cpu, &mut tasks, &mut memory);

    assert_eq!(cpu.cycle, 3);
}

#[test]
fn logical_should_take_four_cycles_when_adding_offset_crosses_over_page_flip() {
    const ADDR_HI: Byte = 0x00;
    const OFFSET: Byte = 0x02;
    const VALUE: Byte = 0x22;
    const ADDR_LO_ON_ZERO_PAGE_BOUNDARY: Byte = 0xFF;
    let mut memory = memory_mock(&[
      ADDR_LO_ON_ZERO_PAGE_BOUNDARY,
      ADDR_HI,
      0x45,
      0xAF,
      0xDD,
      VALUE,
    ]);
    let mut cpu = CPU::new_nmos();
    cpu.accumulator = 0x16;
    cpu.program_counter = 0x00;
    cpu.index_register_x = OFFSET;
    cpu.cycle = 0;

    let mut tasks = ora_ax(&mut cpu);
    run_tasks(&mut cpu, &mut tasks, &mut memory);

    assert_eq!(cpu.cycle, 4);
}

#[test]
fn logical_should_or_accumulator_with_a_value_in_memory_at_an_absolute_address_offset_by_index_register_y() {
    const ADDR_LO: Byte = 0x02;
    const ADDR_HI: Byte = 0x00;
    const OFFSET: Byte = 0x02;
    const VALUE: Byte = 0x22;
    let mut memory = memory_mock(&[ADDR_LO, ADDR_HI, 0x00, 0x00, VALUE]);
    let mut cpu = CPU::new_nmos();
    cpu.accumulator = 0x16;
    cpu.program_counter = 0x00;
    cpu.index_register_y = OFFSET;

    let mut tasks = ora_ay(&mut cpu);
    run_tasks(&mut cpu, &mut tasks, &mut memory);

    assert_eq!(cpu.accumulator, 0x36);
}

#[test]
fn logical_should_set_processor_status_ora_ay() {
    const ADDR_LO: Byte = 0x02;
    const ADDR_HI: Byte = 0x00;
    const OFFSET: Byte = 0x02;
    const VALUE: Byte = 0x22;
    let mut memory = memory_mock(&[ADDR_LO, ADDR_HI, 0x00, 0x00, VALUE]);
    let mut cpu = CPU::new_nmos();
    cpu.accumulator = 0x86;
    cpu.program_counter = 0x00;
    cpu.index_register_y = OFFSET;

    let mut tasks = ora_ay(&mut cpu);
    run_tasks(&mut cpu, &mut tasks, &mut memory);

    assert_eq!(cpu.get_processor_status(), 0x80);
}

#[test]
fn logical_should_take_three_cycles_when_adding_offset_crosses_over_page_flip_ora_ay() {
    const ADDR_LO: Byte = 0x02;
    const ADDR_HI: Byte = 0x00;
    const OFFSET: Byte = 0x02;
    const VALUE: Byte = 0x22;
    let mut memory = memory_mock(&[ADDR_LO, ADDR_HI, 0x00, 0x00, VALUE]);
    let mut cpu = CPU::new_nmos();
    cpu.accumulator = 0x16;
    cpu.program_counter = 0x00;
    cpu.index_register_y = OFFSET;
    cpu.cycle = 0;

    let mut tasks = ora_ay(&mut cpu);
    run_tasks(&mut cpu, &mut tasks, &mut memory);

    assert_eq!(cpu.cycle, 3);
}

#[test]
fn logical_should_take_four_cycles_when_adding_offset_crosses_over_page_flip_ora_ay() {
    const ADDR_HI: Byte = 0x00;
    const OFFSET: Byte = 0x02;
    const VALUE: Byte = 0x22;
    const ADDR_LO_ON_ZERO_PAGE_BOUNDARY: Byte = 0xFF;
    let mut memory = memory_mock(&[
      ADDR_LO_ON_ZERO_PAGE_BOUNDARY,
      ADDR_HI,
      0x45,
      0xAF,
      0xDD,
      VALUE,
    ]);
    let mut cpu = CPU::new_nmos();
    cpu.accumulator = 0x16;
    cpu.program_counter = 0x00;
    cpu.index_register_y = OFFSET;
    cpu.cycle = 0;

    let mut tasks = ora_ay(&mut cpu);
    run_tasks(&mut cpu, &mut tasks, &mut memory);

    assert_eq!(cpu.cycle, 4);
}

#[test]
fn logical_should_or_accumulator_with_a_value_in_an_indirect_adress_stored_in_zero_page_offset_with_index_register_x() {
    const ZP_ADDRESS: Byte = 0x02;
    const OFFSET: Byte = 0x01;
    const EFFECTIVE_ADDRESS_LO: Byte = 0x05;
    const EFFECTIVE_ADDRESS_HI: Byte = 0x00;
    const VALUE: Byte = 0x22;
    let mut memory = memory_mock(&[
      ZP_ADDRESS,
      0x00,
      0x00,
      EFFECTIVE_ADDRESS_LO,
      EFFECTIVE_ADDRESS_HI,
      VALUE,
    ]);
    let mut cpu = CPU::new_nmos();
    cpu.program_counter = 0x00;
    cpu.accumulator = 0x16;
    cpu.index_register_x = OFFSET;

    let mut tasks = ora_inx(&mut cpu);
    run_tasks(&mut cpu, &mut tasks, &mut memory);

    assert_eq!(cpu.accumulator, 0x36);
}

#[test]
fn logical_should_set_processor_status_ora_inx() {
    const ZP_ADDRESS: Byte = 0x02;
    const OFFSET: Byte = 0x01;
    const EFFECTIVE_ADDRESS_LO: Byte = 0x05;
    const EFFECTIVE_ADDRESS_HI: Byte = 0x00;
    const VALUE: Byte = 0x22;
    let mut memory = memory_mock(&[
      ZP_ADDRESS,
      0x00,
      0x00,
      EFFECTIVE_ADDRESS_LO,
      EFFECTIVE_ADDRESS_HI,
      VALUE,
    ]);
    let mut cpu = CPU::new_nmos();
    cpu.program_counter = 0x00;
    cpu.accumulator = 0x86;
    cpu.index_register_x = OFFSET;

    let mut tasks = ora_inx(&mut cpu);
    run_tasks(&mut cpu, &mut tasks, &mut memory);

    assert_eq!(cpu.get_processor_status(), 0x80);
}

#[test]
fn logical_should_take_five_cycles() {
    const ZP_ADDRESS: Byte = 0x02;
    const OFFSET: Byte = 0x01;
    const EFFECTIVE_ADDRESS_LO: Byte = 0x05;
    const EFFECTIVE_ADDRESS_HI: Byte = 0x00;
    const VALUE: Byte = 0x22;
    let mut memory = memory_mock(&[
      ZP_ADDRESS,
      0x00,
      0x00,
      EFFECTIVE_ADDRESS_LO,
      EFFECTIVE_ADDRESS_HI,
      VALUE,
    ]);
    let mut cpu = CPU::new_nmos();
    cpu.program_counter = 0x00;
    cpu.accumulator = 0x16;
    cpu.index_register_x = OFFSET;
    cpu.cycle = 0;

    let mut tasks = ora_inx(&mut cpu);
    run_tasks(&mut cpu, &mut tasks, &mut memory);

    assert_eq!(cpu.cycle, 5);
}

#[test]
fn logical_should_or_accumulator_with_a_value_from_an_indirect_adress_stored_in_memory_at_zero_page_and_offset_with_value_from_index_register_y() {
    const INDIRECT_ZERO_PAGE_ADDRESS_PLACE: Byte = 0x01;
    const ADDRESS_LO: Byte = 0x03;
    const ADDRESS_HI: Byte = 0x00;
    const VALUE: Byte = 0x22;
    let mut memory = memory_mock(&[
      INDIRECT_ZERO_PAGE_ADDRESS_PLACE,
      ADDRESS_LO,
      ADDRESS_HI,
      0x45,
      0xAF,
      VALUE,
    ]);
    let mut cpu = CPU::new_nmos();
    cpu.accumulator = 0x16;
    cpu.index_register_y = 0x02;
    cpu.program_counter = 0x00;

    let mut tasks = ora_iny(&mut cpu);
    run_tasks(&mut cpu, &mut tasks, &mut memory);

    assert_eq!(cpu.accumulator, 0x36);
}

#[test]
fn logical_should_set_processor_status_ora_iny() {
    const INDIRECT_ZERO_PAGE_ADDRESS_PLACE: Byte = 0x01;
    const ADDRESS_LO: Byte = 0x03;
    const ADDRESS_HI: Byte = 0x00;
    const VALUE: Byte = 0x22;
    let mut memory = memory_mock(&[
      INDIRECT_ZERO_PAGE_ADDRESS_PLACE,
      ADDRESS_LO,
      ADDRESS_HI,
      0x45,
      0xAF,
      VALUE,
    ]);
    let mut cpu = CPU::new_nmos();
    cpu.accumulator = 0x86;
    cpu.index_register_y = 0x02;
    cpu.program_counter = 0x00;

    let mut tasks = ora_iny(&mut cpu);
    run_tasks(&mut cpu, &mut tasks, &mut memory);

    assert_eq!(cpu.get_processor_status(), 0x80);
}

#[test]
fn logical_should_take_four_cycles_when_summing_indirect_address_with_index_y_does_not_cross_page_flip() {
    const INDIRECT_ZERO_PAGE_ADDRESS_PLACE: Byte = 0x01;
    const ADDRESS_LO: Byte = 0x03;
    const ADDRESS_HI: Byte = 0x00;
    const VALUE: Byte = 0x22;
    let mut memory = memory_mock(&[
      INDIRECT_ZERO_PAGE_ADDRESS_PLACE,
      ADDRESS_LO,
      ADDRESS_HI,
      0x45,
      0xAF,
      VALUE,
    ]);
    let mut cpu = CPU::new_nmos();
    cpu.accumulator = 0x16;
    cpu.index_register_y = 0x02;
    cpu.program_counter = 0x00;
    cpu.cycle = 0;

    let mut tasks = ora_iny(&mut cpu);
    run_tasks(&mut cpu, &mut tasks, &mut memory);

    assert_eq!(cpu.cycle, 4);
}

#[test]
fn logical_should_take_five_cycles_when_summing_indirect_address_with_index_y_crosses_page_flip() {
    const INDIRECT_ZERO_PAGE_ADDRESS_PLACE: Byte = 0x01;
    const ADDRESS_LO_ON_ZERO_PAGE_BOUNDARY: Byte = 0xFF;
    const ADDRESS_HI: Byte = 0x00;
    const VALUE: Byte = 0x22;
    let mut payload: [Byte; 512] = [0x00; 512];
    payload[0x0000] = INDIRECT_ZERO_PAGE_ADDRESS_PLACE;
    payload[0x0001] = ADDRESS_LO_ON_ZERO_PAGE_BOUNDARY;
    payload[0x0002] = ADDRESS_HI;
    payload[0x0101] = VALUE;

    let mut memory = memory_mock(&payload);
    let mut cpu = CPU::new_nmos();
    cpu.accumulator = 0x16;
    cpu.index_register_y = 0x02;
    cpu.program_counter = 0x00;
    cpu.cycle = 0;

    let mut tasks = ora_iny(&mut cpu);
    run_tasks(&mut cpu, &mut tasks, &mut memory);

    assert_eq!(cpu.cycle, 5);
}

#[test]
fn logical_should_set_zero_flag_when_logic_and_on_accumulator_and_value_from_zero_page_is_zero() {
    const ZERO_PAGE_ADDR_LO: Byte = 0x01;
    let mut memory = memory_mock(&[ZERO_PAGE_ADDR_LO, 0x0F]);
    let mut cpu = CPU::new_nmos();
    cpu.program_counter = 0x00;
    cpu.accumulator = 0xF0;

    let mut tasks = bit_zp(&mut cpu);
    run_tasks(&mut cpu, &mut tasks, &mut memory);

    assert_eq!(cpu.get_processor_status(), 0b00000010);
}

#[test]
fn logical_should_set_carry_flag_when_logic_and_on_accumulator_and_value_from_zero_page_is_has_seventh_bit_set() {
    const ZERO_PAGE_ADDR_LO: Byte = 0x01;
    let mut memory = memory_mock(&[ZERO_PAGE_ADDR_LO, 0b01000000]);
    let mut cpu = CPU::new_nmos();
    cpu.program_counter = 0x00;
    cpu.accumulator = 0xF0;

    let mut tasks = bit_zp(&mut cpu);
    run_tasks(&mut cpu, &mut tasks, &mut memory);

    assert_eq!(cpu.get_processor_status(), 0b01000000);
}

#[test]
fn logical_should_set_negative_flag_when_logic_and_on_accumulator_and_value_from_zero_page_is_has_eight_bit_set() {
    const ZERO_PAGE_ADDR_LO: Byte = 0x01;
    let mut memory = memory_mock(&[ZERO_PAGE_ADDR_LO, 0b10000000]);
    let mut cpu = CPU::new_nmos();
    cpu.program_counter = 0x00;
    cpu.accumulator = 0xF0;

    let mut tasks = bit_zp(&mut cpu);
    run_tasks(&mut cpu, &mut tasks, &mut memory);

    assert_eq!(cpu.get_processor_status(), 0b10000000);
}

#[test]
fn logical_should_take_two_cycles_bit_zp() {
    const ZERO_PAGE_ADDR_LO: Byte = 0x01;
    let mut memory = memory_mock(&[ZERO_PAGE_ADDR_LO, 0x0F]);
    let mut cpu = CPU::new_nmos();
    cpu.program_counter = 0x00;
    cpu.accumulator = 0xF0;

    let mut tasks = bit_zp(&mut cpu);
    run_tasks(&mut cpu, &mut tasks, &mut memory);

    assert_eq!(cpu.cycle, 2);
}

#[test]
fn logical_should_set_zero_flag_when_logic_and_on_accumulator_and_value_from_absolute_address_is_zero() {
    const ABSOLUTE_ADDR_LO: Byte = 0x03;
    const ABSOLUTE_ADDR_HI: Byte = 0x00;
    let mut memory = memory_mock(&[ABSOLUTE_ADDR_LO, ABSOLUTE_ADDR_HI, 0x00, 0x0F]);
    let mut cpu = CPU::new_nmos();
    cpu.program_counter = 0x00;
    cpu.accumulator = 0xF0;

    let mut tasks = bit_a(&mut cpu);
    run_tasks(&mut cpu, &mut tasks, &mut memory);

    assert_eq!(cpu.get_processor_status(), 0b00000010);
}

#[test]
fn logical_should_set_carry_flag_when_logic_and_on_accumulator_and_value_from_absolute_address_is_has_seventh_bit_set() {
    const ABSOLUTE_ADDR_LO: Byte = 0x03;
    const ABSOLUTE_ADDR_HI: Byte = 0x00;
    let mut memory = memory_mock(&[ABSOLUTE_ADDR_LO, ABSOLUTE_ADDR_HI, 0x00, 0b01000000]);
    let mut cpu = CPU::new_nmos();
    cpu.program_counter = 0x00;
    cpu.accumulator = 0xF0;

    let mut tasks = bit_a(&mut cpu);
    run_tasks(&mut cpu, &mut tasks, &mut memory);

    assert_eq!(cpu.get_processor_status(), 0b01000000);
}

#[test]
fn logical_should_set_negative_flag_when_logic_and_on_accumulator_and_value_from_absolute_address_is_has_eight_bit_set() {
    const ABSOLUTE_ADDR_LO: Byte = 0x03;
    const ABSOLUTE_ADDR_HI: Byte = 0x00;
    let mut memory = memory_mock(&[ABSOLUTE_ADDR_LO, ABSOLUTE_ADDR_HI, 0x00, 0b10000000]);
    let mut cpu = CPU::new_nmos();
    cpu.program_counter = 0x00;
    cpu.accumulator = 0xF0;

    let mut tasks = bit_a(&mut cpu);
    run_tasks(&mut cpu, &mut tasks, &mut memory);

    assert_eq!(cpu.get_processor_status(), 0b10000000);
}

#[test]
fn logical_should_take_two_cycles_bit_a() {
    const ABSOLUTE_ADDR_LO: Byte = 0x03;
    const ABSOLUTE_ADDR_HI: Byte = 0x00;
    let mut memory = memory_mock(&[ABSOLUTE_ADDR_LO, ABSOLUTE_ADDR_HI, 0x00, 0x0F]);
    let mut cpu = CPU::new_nmos();
    cpu.program_counter = 0x00;
    cpu.accumulator = 0xF0;

    let mut tasks = bit_a(&mut cpu);
    run_tasks(&mut cpu, &mut tasks, &mut memory);

    assert_eq!(cpu.cycle, 3);
}

#[test]
fn logical_should_and_accumulator_with_a_value_from_immediate_address() {
    const VALUE: Byte = 0x82;
    let mut memory = memory_mock(&[VALUE, 0x00]);
    let mut cpu = CPU::new_nmos();
    cpu.program_counter = 0x00;
    cpu.accumulator = 0x07;

    let mut tasks = and_im(&mut cpu);
    run_tasks(&mut cpu, &mut tasks, &mut memory);

    assert_eq!(cpu.accumulator, 0x02);
}

#[test]
fn logical_should_set_processor_status_and_im() {
    const VALUE: Byte = 0x82;
    let mut memory = memory_mock(&[VALUE, 0x00]);
    let mut cpu = CPU::new_nmos();
    cpu.program_counter = 0x00;
    cpu.accumulator = 0x86;

    let mut tasks = and_im(&mut cpu);
    run_tasks(&mut cpu, &mut tasks, &mut memory);

    assert_eq!(cpu.get_processor_status(), 0x80);
}

#[test]
fn logical_should_take_one_cycle_and_im() {
    const VALUE: Byte = 0x82;
    let mut memory = memory_mock(&[VALUE, 0x00]);
    let mut cpu = CPU::new_nmos();
    cpu.program_counter = 0x00;
    cpu.accumulator = 0x07;
    cpu.cycle = 0;

    let mut tasks = and_im(&mut cpu);
    run_tasks(&mut cpu, &mut tasks, &mut memory);

    assert_eq!(cpu.cycle, 1);
}

#[test]
fn logical_should_and_accumulator_with_a_value_from_zero_page_address() {
    const ZERO_PAGE_ADDR: Byte = 0x03;
    const VALUE: Byte = 0x82;
    let mut memory = memory_mock(&[ZERO_PAGE_ADDR, 0xFF, 0x00, VALUE]);
    let mut cpu = CPU::new_nmos();
    cpu.accumulator = 0x07;
    cpu.program_counter = 0x00;

    let mut tasks = and_zp(&mut cpu);
    run_tasks(&mut cpu, &mut tasks, &mut memory);

    assert_eq!(cpu.accumulator, 0x02);
}

#[test]
fn logical_should_set_processor_status_and_zp() {
    const ZERO_PAGE_ADDR: Byte = 0x03;
    const VALUE: Byte = 0x82;
    let mut memory = memory_mock(&[ZERO_PAGE_ADDR, 0xFF, 0x00, VALUE]);
    let mut cpu = CPU::new_nmos();
    cpu.accumulator = 0x86;
    cpu.program_counter = 0x00;

    let mut tasks = and_zp(&mut cpu);
    run_tasks(&mut cpu, &mut tasks, &mut memory);

    assert_eq!(cpu.get_processor_status(), 0x80);
}

#[test]
fn logical_should_take_two_cycles_and_zp() {
    const ZERO_PAGE_ADDR: Byte = 0x03;
    const VALUE: Byte = 0x82;
    let mut memory = memory_mock(&[ZERO_PAGE_ADDR, 0xFF, 0x00, VALUE]);
    let mut cpu = CPU::new_nmos();
    cpu.accumulator = 0x07;
    cpu.program_counter = 0x00;
    cpu.cycle = 0;

    let mut tasks = and_zp(&mut cpu);
    run_tasks(&mut cpu, &mut tasks, &mut memory);

    assert_eq!(cpu.cycle, 2);
}

#[test]
fn logical_should_and_accumulator_with_a_value_at_a_zero_page_address_summed_with_index_register_x() {
    const ZERO_PAGE_ADDR: Byte = 0x01;
    const VALUE: Byte = 0x82;
    let mut memory = memory_mock(&[ZERO_PAGE_ADDR, 0xFF, 0x00, VALUE]);
    let mut cpu = CPU::new_nmos();
    cpu.accumulator = 0x07;
    cpu.index_register_x = 0x02;
    cpu.program_counter = 0x00;

    let mut tasks = and_zpx(&mut cpu);
    run_tasks(&mut cpu, &mut tasks, &mut memory);

    assert_eq!(cpu.accumulator, 0x02);
}

#[test]
fn logical_should_set_processor_status_and_zpx() {
    const ZERO_PAGE_ADDR: Byte = 0x01;
    const VALUE: Byte = 0x82;
    let mut memory = memory_mock(&[ZERO_PAGE_ADDR, 0xFF, 0x00, VALUE]);
    let mut cpu = CPU::new_nmos();
    cpu.accumulator = 0x86;
    cpu.index_register_x = 0x02;
    cpu.program_counter = 0x00;

    let mut tasks = and_zpx(&mut cpu);
    run_tasks(&mut cpu, &mut tasks, &mut memory);

    assert_eq!(cpu.get_processor_status(), 0x80);
}

#[test]
fn logical_should_take_three_cycles_and_zpx() {
    const ZERO_PAGE_ADDR: Byte = 0x01;
    const VALUE: Byte = 0x82;
    let mut memory = memory_mock(&[ZERO_PAGE_ADDR, 0xFF, 0x00, VALUE]);
    let mut cpu = CPU::new_nmos();
    cpu.accumulator = 0x07;
    cpu.index_register_x = 0x02;
    cpu.program_counter = 0x00;
    cpu.cycle = 0;

    let mut tasks = and_zpx(&mut cpu);
    run_tasks(&mut cpu, &mut tasks, &mut memory);

    assert_eq!(cpu.cycle, 3);
}

#[test]
fn logical_should_and_accumulator_with_a_value_in_memory_at_an_absolute_address() {
    const ADDR_LO: Byte = 0x04;
    const ADDR_HI: Byte = 0x00;
    const VALUE: Byte = 0x82;
    let mut memory = memory_mock(&[ADDR_LO, ADDR_HI, 0x00, 0x00, VALUE]);
    let mut cpu = CPU::new_nmos();
    cpu.accumulator = 0x07;
    cpu.program_counter = 0x00;

    let mut tasks = and_a(&mut cpu);
    run_tasks(&mut cpu, &mut tasks, &mut memory);

    assert_eq!(cpu.accumulator, 0x02);
}

#[test]
fn logical_should_set_processor_status_and_a() {
    const ADDR_LO: Byte = 0x04;
    const ADDR_HI: Byte = 0x00;
    const VALUE: Byte = 0x82;
    let mut memory = memory_mock(&[ADDR_LO, ADDR_HI, 0x00, 0x00, VALUE]);
    let mut cpu = CPU::new_nmos();
    cpu.accumulator = 0x86;
    cpu.program_counter = 0x00;

    let mut tasks = and_a(&mut cpu);
    run_tasks(&mut cpu, &mut tasks, &mut memory);

    assert_eq!(cpu.get_processor_status(), 0x80);
}

#[test]
fn logical_should_take_three_cycles_and_a() {
    const ADDR_LO: Byte = 0x04;
    const ADDR_HI: Byte = 0x00;
    const VALUE: Byte = 0x82;
    let mut memory = memory_mock(&[ADDR_LO, ADDR_HI, 0x00, 0x00, VALUE]);
    let mut cpu = CPU::new_nmos();
    cpu.accumulator = 0x07;
    cpu.program_counter = 0x00;
    cpu.cycle = 0;

    let mut tasks = and_a(&mut cpu);
    run_tasks(&mut cpu, &mut tasks, &mut memory);

    assert_eq!(cpu.cycle, 3);
}

#[test]
fn logical_should_and_accumulator_with_a_value_in_memory_at_an_absolute_address_offset_by_index_register_x() {
    const ADDR_LO: Byte = 0x02;
    const ADDR_HI: Byte = 0x00;
    const OFFSET: Byte = 0x02;
    const VALUE: Byte = 0x82;
    let mut memory = memory_mock(&[ADDR_LO, ADDR_HI, 0x00, 0x00, VALUE]);
    let mut cpu = CPU::new_nmos();
    cpu.accumulator = 0x07;
    cpu.program_counter = 0x00;
    cpu.index_register_x = OFFSET;

    let mut tasks = and_ax(&mut cpu);
    run_tasks(&mut cpu, &mut tasks, &mut memory);

    assert_eq!(cpu.accumulator, 0x02);
}

#[test]
fn logical_should_set_processor_status_and_ax() {
    const ADDR_LO: Byte = 0x02;
    const ADDR_HI: Byte = 0x00;
    const OFFSET: Byte = 0x02;
    const VALUE: Byte = 0x82;
    let mut memory = memory_mock(&[ADDR_LO, ADDR_HI, 0x00, 0x00, VALUE]);
    let mut cpu = CPU::new_nmos();
    cpu.accumulator = 0x86;
    cpu.program_counter = 0x00;
    cpu.index_register_x = OFFSET;

    let mut tasks = and_ax(&mut cpu);
    run_tasks(&mut cpu, &mut tasks, &mut memory);

    assert_eq!(cpu.get_processor_status(), 0x80);
}

#[test]
fn logical_should_take_three_cycles_when_adding_offset_crosses_over_page_flip_and_ax() {
    const ADDR_LO: Byte = 0x02;
    const ADDR_HI: Byte = 0x00;
    const OFFSET: Byte = 0x02;
    const VALUE: Byte = 0x82;
    let mut memory = memory_mock(&[ADDR_LO, ADDR_HI, 0x00, 0x00, VALUE]);
    let mut cpu = CPU::new_nmos();
    cpu.accumulator = 0x07;
    cpu.program_counter = 0x00;
    cpu.index_register_x = OFFSET;
    cpu.cycle = 0;

    let mut tasks = and_ax(&mut cpu);
    run_tasks(&mut cpu, &mut tasks, &mut memory);

    assert_eq!(cpu.cycle, 3);
}

#[test]
fn logical_should_take_four_cycles_when_adding_offset_crosses_over_page_flip_and_ax() {
    const ADDR_HI: Byte = 0x00;
    const OFFSET: Byte = 0x02;
    const VALUE: Byte = 0x82;
    const ADDR_LO_ON_ZERO_PAGE_BOUNDARY: Byte = 0xFF;
    let mut memory = memory_mock(&[
      ADDR_LO_ON_ZERO_PAGE_BOUNDARY,
      ADDR_HI,
      0x45,
      0xAF,
      0xDD,
      VALUE,
    ]);
    let mut cpu = CPU::new_nmos();
    cpu.accumulator = 0x07;
    cpu.program_counter = 0x00;
    cpu.index_register_x = OFFSET;
    cpu.cycle = 0;

    let mut tasks = and_ax(&mut cpu);
    run_tasks(&mut cpu, &mut tasks, &mut memory);

    assert_eq!(cpu.cycle, 4);
}

#[test]
fn logical_should_and_accumulator_with_a_value_in_memory_at_an_absolute_address_offset_by_index_register_y() {
    const ADDR_LO: Byte = 0x02;
    const ADDR_HI: Byte = 0x00;
    const OFFSET: Byte = 0x02;
    const VALUE: Byte = 0x82;
    let mut memory = memory_mock(&[ADDR_LO, ADDR_HI, 0x00, 0x00, VALUE]);
    let mut cpu = CPU::new_nmos();
    cpu.accumulator = 0x07;
    cpu.program_counter = 0x00;
    cpu.index_register_y = OFFSET;

    let mut tasks = and_ay(&mut cpu);
    run_tasks(&mut cpu, &mut tasks, &mut memory);

    assert_eq!(cpu.accumulator, 0x02);
}

#[test]
fn logical_should_set_processor_status_and_ay() {
    const ADDR_LO: Byte = 0x02;
    const ADDR_HI: Byte = 0x00;
    const OFFSET: Byte = 0x02;
    const VALUE: Byte = 0x82;
    let mut memory = memory_mock(&[ADDR_LO, ADDR_HI, 0x00, 0x00, VALUE]);
    let mut cpu = CPU::new_nmos();
    cpu.accumulator = 0x86;
    cpu.program_counter = 0x00;
    cpu.index_register_y = OFFSET;

    let mut tasks = and_ay(&mut cpu);
    run_tasks(&mut cpu, &mut tasks, &mut memory);

    assert_eq!(cpu.get_processor_status(), 0x80);
}

#[test]
fn logical_should_take_three_cycles_when_adding_offset_crosses_over_page_flip_and_ay() {
    const ADDR_LO: Byte = 0x02;
    const ADDR_HI: Byte = 0x00;
    const OFFSET: Byte = 0x02;
    const VALUE: Byte = 0x82;
    let mut memory = memory_mock(&[ADDR_LO, ADDR_HI, 0x00, 0x00, VALUE]);
    let mut cpu = CPU::new_nmos();
    cpu.accumulator = 0x07;
    cpu.program_counter = 0x00;
    cpu.index_register_y = OFFSET;
    cpu.cycle = 0;

    let mut tasks = and_ay(&mut cpu);
    run_tasks(&mut cpu, &mut tasks, &mut memory);

    assert_eq!(cpu.cycle, 3);
}

#[test]
fn logical_should_take_four_cycles_when_adding_offset_crosses_over_page_flip_and_ay() {
    const ADDR_HI: Byte = 0x00;
    const OFFSET: Byte = 0x02;
    const VALUE: Byte = 0x82;
    const ADDR_LO_ON_ZERO_PAGE_BOUNDARY: Byte = 0xFF;
    let mut memory = memory_mock(&[
      ADDR_LO_ON_ZERO_PAGE_BOUNDARY,
      ADDR_HI,
      0x45,
      0xAF,
      0xDD,
      VALUE,
    ]);
    let mut cpu = CPU::new_nmos();
    cpu.accumulator = 0x07;
    cpu.program_counter = 0x00;
    cpu.index_register_y = OFFSET;
    cpu.cycle = 0;

    let mut tasks = and_ay(&mut cpu);
    run_tasks(&mut cpu, &mut tasks, &mut memory);

    assert_eq!(cpu.cycle, 4);
}

#[test]
fn logical_should_and_accumulator_with_a_value_in_an_indirect_adress_stored_in_zero_page_offset_with_index_register_x() {
    const ZP_ADDRESS: Byte = 0x02;
    const OFFSET: Byte = 0x01;
    const EFFECTIVE_ADDRESS_LO: Byte = 0x05;
    const EFFECTIVE_ADDRESS_HI: Byte = 0x00;
    const VALUE: Byte = 0x82;
    let mut memory = memory_mock(&[
      ZP_ADDRESS,
      0x00,
      0x00,
      EFFECTIVE_ADDRESS_LO,
      EFFECTIVE_ADDRESS_HI,
      VALUE,
    ]);
    let mut cpu = CPU::new_nmos();
    cpu.program_counter = 0x00;
    cpu.accumulator = 0x07;
    cpu.index_register_x = OFFSET;

    let mut tasks = and_inx(&mut cpu);
    run_tasks(&mut cpu, &mut tasks, &mut memory);

    assert_eq!(cpu.accumulator, 0x02);
}

#[test]
fn logical_should_set_processor_status_and_inx() {
    const ZP_ADDRESS: Byte = 0x02;
    const OFFSET: Byte = 0x01;
    const EFFECTIVE_ADDRESS_LO: Byte = 0x05;
    const EFFECTIVE_ADDRESS_HI: Byte = 0x00;
    const VALUE: Byte = 0x82;
    let mut memory = memory_mock(&[
      ZP_ADDRESS,
      0x00,
      0x00,
      EFFECTIVE_ADDRESS_LO,
      EFFECTIVE_ADDRESS_HI,
      VALUE,
    ]);
    let mut cpu = CPU::new_nmos();
    cpu.program_counter = 0x00;
    cpu.accumulator = 0x86;
    cpu.index_register_x = OFFSET;

    let mut tasks = and_inx(&mut cpu);
    run_tasks(&mut cpu, &mut tasks, &mut memory);

    assert_eq!(cpu.get_processor_status(), 0x80);
}

#[test]
fn logical_should_take_five_cycles_and_inx() {
    const ZP_ADDRESS: Byte = 0x02;
    const OFFSET: Byte = 0x01;
    const EFFECTIVE_ADDRESS_LO: Byte = 0x05;
    const EFFECTIVE_ADDRESS_HI: Byte = 0x00;
    const VALUE: Byte = 0x82;
    let mut memory = memory_mock(&[
      ZP_ADDRESS,
      0x00,
      0x00,
      EFFECTIVE_ADDRESS_LO,
      EFFECTIVE_ADDRESS_HI,
      VALUE,
    ]);
    let mut cpu = CPU::new_nmos();
    cpu.program_counter = 0x00;
    cpu.accumulator = 0x07;
    cpu.index_register_x = OFFSET;
    cpu.cycle = 0;

    let mut tasks = and_inx(&mut cpu);
    run_tasks(&mut cpu, &mut tasks, &mut memory);

    assert_eq!(cpu.cycle, 5);
}

#[test]
fn logical_should_and_accumulator_with_a_value_from_an_indirect_adress_stored_in_memory_at_zero_page_and_offset_with_value_from_index_register_y() {
    const INDIRECT_ZERO_PAGE_ADDRESS_PLACE: Byte = 0x01;
    const ADDRESS_LO: Byte = 0x03;
    const ADDRESS_HI: Byte = 0x00;
    const VALUE: Byte = 0x82;
    let mut memory = memory_mock(&[
      INDIRECT_ZERO_PAGE_ADDRESS_PLACE,
      ADDRESS_LO,
      ADDRESS_HI,
      0x45,
      0xAF,
      VALUE,
    ]);
    let mut cpu = CPU::new_nmos();
    cpu.accumulator = 0x07;
    cpu.index_register_y = 0x02;
    cpu.program_counter = 0x00;

    let mut tasks = and_iny(&mut cpu);
    run_tasks(&mut cpu, &mut tasks, &mut memory);

    assert_eq!(cpu.accumulator, 0x02);
}

#[test]
fn logical_should_set_processor_status_and_iny() {
    const INDIRECT_ZERO_PAGE_ADDRESS_PLACE: Byte = 0x01;
    const ADDRESS_LO: Byte = 0x03;
    const ADDRESS_HI: Byte = 0x00;
    const VALUE: Byte = 0x82;
    let mut memory = memory_mock(&[
      INDIRECT_ZERO_PAGE_ADDRESS_PLACE,
      ADDRESS_LO,
      ADDRESS_HI,
      0x45,
      0xAF,
      VALUE,
    ]);
    let mut cpu = CPU::new_nmos();
    cpu.accumulator = 0x86;
    cpu.index_register_y = 0x02;
    cpu.program_counter = 0x00;

    let mut tasks = and_iny(&mut cpu);
    run_tasks(&mut cpu, &mut tasks, &mut memory);

    assert_eq!(cpu.get_processor_status(), 0x80);
}

#[test]
fn logical_should_take_four_cycles_when_summing_indirect_address_with_index_y_does_not_cross_page_flip_and_iny() {
    const INDIRECT_ZERO_PAGE_ADDRESS_PLACE: Byte = 0x01;
    const ADDRESS_LO: Byte = 0x03;
    const ADDRESS_HI: Byte = 0x00;
    const VALUE: Byte = 0x82;
    let mut memory = memory_mock(&[
      INDIRECT_ZERO_PAGE_ADDRESS_PLACE,
      ADDRESS_LO,
      ADDRESS_HI,
      0x45,
      0xAF,
      VALUE,
    ]);
    let mut cpu = CPU::new_nmos();
    cpu.accumulator = 0x07;
    cpu.index_register_y = 0x02;
    cpu.program_counter = 0x00;
    cpu.cycle = 0;

    let mut tasks = and_iny(&mut cpu);
    run_tasks(&mut cpu, &mut tasks, &mut memory);

    assert_eq!(cpu.cycle, 4);
}

#[test]
fn logical_should_take_five_cycles_when_summing_indirect_address_with_index_y_crosses_page_flip_and_iny() {
    const INDIRECT_ZERO_PAGE_ADDRESS_PLACE: Byte = 0x01;
    const ADDRESS_LO_ON_ZERO_PAGE_BOUNDARY: Byte = 0xFF;
    const ADDRESS_HI: Byte = 0x00;
    const VALUE: Byte = 0x82;
    let mut payload: [Byte; 512] = [0x00; 512];
    payload[0x0000] = INDIRECT_ZERO_PAGE_ADDRESS_PLACE;
    payload[0x0001] = ADDRESS_LO_ON_ZERO_PAGE_BOUNDARY;
    payload[0x0002] = ADDRESS_HI;
    payload[0x0101] = VALUE;

    let mut memory = memory_mock(&payload);
    let mut cpu = CPU::new_nmos();
    cpu.accumulator = 0x07;
    cpu.index_register_y = 0x02;
    cpu.program_counter = 0x00;
    cpu.cycle = 0;

    let mut tasks = and_iny(&mut cpu);
    run_tasks(&mut cpu, &mut tasks, &mut memory);

    assert_eq!(cpu.cycle, 5);
}

#[test]
fn logical_should_eor_accumulator_with_a_value_from_immediate_address() {
    const VALUE: Byte = 0x85;
    let mut memory = memory_mock(&[VALUE, 0x00]);
    let mut cpu = CPU::new_nmos();
    cpu.program_counter = 0x00;
    cpu.accumulator = 0x07;

    let mut tasks = eor_im(&mut cpu);
    run_tasks(&mut cpu, &mut tasks, &mut memory);

    assert_eq!(cpu.accumulator, 0x82);
}

#[test]
fn logical_should_set_processor_status_eor_im() {
    const VALUE: Byte = 0x85;
    let mut memory = memory_mock(&[VALUE, 0x00]);
    let mut cpu = CPU::new_nmos();
    cpu.program_counter = 0x00;
    cpu.accumulator = 0x07;

    let mut tasks = eor_im(&mut cpu);
    run_tasks(&mut cpu, &mut tasks, &mut memory);

    assert_eq!(cpu.get_processor_status(), 0x80);
}

#[test]
fn logical_should_take_one_cycle_eor_im() {
    const VALUE: Byte = 0x85;
    let mut memory = memory_mock(&[VALUE, 0x00]);
    let mut cpu = CPU::new_nmos();
    cpu.program_counter = 0x00;
    cpu.accumulator = 0x07;
    cpu.cycle = 0;

    let mut tasks = eor_im(&mut cpu);
    run_tasks(&mut cpu, &mut tasks, &mut memory);

    assert_eq!(cpu.cycle, 1);
}

#[test]
fn logical_should_eor_accumulator_with_a_value_from_zero_page_address() {
    const ZERO_PAGE_ADDR: Byte = 0x03;
    const VALUE: Byte = 0x85;
    let mut memory = memory_mock(&[ZERO_PAGE_ADDR, 0xFF, 0x00, VALUE]);
    let mut cpu = CPU::new_nmos();
    cpu.accumulator = 0x07;
    cpu.program_counter = 0x00;

    let mut tasks = eor_zp(&mut cpu);
    run_tasks(&mut cpu, &mut tasks, &mut memory);

    assert_eq!(cpu.accumulator, 0x82);
}

#[test]
fn logical_should_set_processor_status_eor_zp() {
    const ZERO_PAGE_ADDR: Byte = 0x03;
    const VALUE: Byte = 0x85;
    let mut memory = memory_mock(&[ZERO_PAGE_ADDR, 0xFF, 0x00, VALUE]);
    let mut cpu = CPU::new_nmos();
    cpu.accumulator = 0x07;
    cpu.program_counter = 0x00;

    let mut tasks = eor_zp(&mut cpu);
    run_tasks(&mut cpu, &mut tasks, &mut memory);

    assert_eq!(cpu.get_processor_status(), 0x80);
}

#[test]
fn logical_should_take_two_cycles_eor_zp() {
    const ZERO_PAGE_ADDR: Byte = 0x03;
    const VALUE: Byte = 0x85;
    let mut memory = memory_mock(&[ZERO_PAGE_ADDR, 0xFF, 0x00, VALUE]);
    let mut cpu = CPU::new_nmos();
    cpu.accumulator = 0x07;
    cpu.program_counter = 0x00;
    cpu.cycle = 0;

    let mut tasks = eor_zp(&mut cpu);
    run_tasks(&mut cpu, &mut tasks, &mut memory);

    assert_eq!(cpu.cycle, 2);
}

#[test]
fn logical_should_eor_accumulator_with_a_value_at_a_zero_page_address_summed_with_index_register_x() {
    const ZERO_PAGE_ADDR: Byte = 0x01;
    const VALUE: Byte = 0x85;
    let mut memory = memory_mock(&[ZERO_PAGE_ADDR, 0xFF, 0x00, VALUE]);
    let mut cpu = CPU::new_nmos();
    cpu.accumulator = 0x07;
    cpu.index_register_x = 0x02;
    cpu.program_counter = 0x00;

    let mut tasks = eor_zpx(&mut cpu);
    run_tasks(&mut cpu, &mut tasks, &mut memory);

    assert_eq!(cpu.accumulator, 0x82);
}

#[test]
fn logical_should_set_processor_status_eor_zpx() {
    const ZERO_PAGE_ADDR: Byte = 0x01;
    const VALUE: Byte = 0x85;
    let mut memory = memory_mock(&[ZERO_PAGE_ADDR, 0xFF, 0x00, VALUE]);
    let mut cpu = CPU::new_nmos();
    cpu.accumulator = 0x07;
    cpu.index_register_x = 0x02;
    cpu.program_counter = 0x00;

    let mut tasks = eor_zpx(&mut cpu);
    run_tasks(&mut cpu, &mut tasks, &mut memory);

    assert_eq!(cpu.get_processor_status(), 0x80);
}

#[test]
fn logical_should_take_three_cycles_eor_zpx() {
    const ZERO_PAGE_ADDR: Byte = 0x01;
    const VALUE: Byte = 0x85;
    let mut memory = memory_mock(&[ZERO_PAGE_ADDR, 0xFF, 0x00, VALUE]);
    let mut cpu = CPU::new_nmos();
    cpu.accumulator = 0x07;
    cpu.index_register_x = 0x02;
    cpu.program_counter = 0x00;
    cpu.cycle = 0;

    let mut tasks = eor_zpx(&mut cpu);
    run_tasks(&mut cpu, &mut tasks, &mut memory);

    assert_eq!(cpu.cycle, 3);
}

#[test]
fn logical_should_eor_accumulator_with_a_value_in_memory_at_an_absolute_address() {
    const ADDR_LO: Byte = 0x04;
    const ADDR_HI: Byte = 0x00;
    const VALUE: Byte = 0x85;
    let mut memory = memory_mock(&[ADDR_LO, ADDR_HI, 0x00, 0x00, VALUE]);
    let mut cpu = CPU::new_nmos();
    cpu.accumulator = 0x07;
    cpu.program_counter = 0x00;

    let mut tasks = eor_a(&mut cpu);
    run_tasks(&mut cpu, &mut tasks, &mut memory);

    assert_eq!(cpu.accumulator, 0x82);
}

#[test]
fn logical_should_set_processor_status_eor_a() {
    const ADDR_LO: Byte = 0x04;
    const ADDR_HI: Byte = 0x00;
    const VALUE: Byte = 0x85;
    let mut memory = memory_mock(&[ADDR_LO, ADDR_HI, 0x00, 0x00, VALUE]);
    let mut cpu = CPU::new_nmos();
    cpu.accumulator = 0x07;
    cpu.program_counter = 0x00;

    let mut tasks = eor_a(&mut cpu);
    run_tasks(&mut cpu, &mut tasks, &mut memory);

    assert_eq!(cpu.get_processor_status(), 0x80);
}

#[test]
fn logical_should_take_three_cycles_eor_a() {
    const ADDR_LO: Byte = 0x04;
    const ADDR_HI: Byte = 0x00;
    const VALUE: Byte = 0x85;
    let mut memory = memory_mock(&[ADDR_LO, ADDR_HI, 0x00, 0x00, VALUE]);
    let mut cpu = CPU::new_nmos();
    cpu.accumulator = 0x07;
    cpu.program_counter = 0x00;
    cpu.cycle = 0;

    let mut tasks = eor_a(&mut cpu);
    run_tasks(&mut cpu, &mut tasks, &mut memory);

    assert_eq!(cpu.cycle, 3);
}

#[test]
fn logical_should_eor_accumulator_with_a_value_in_memory_at_an_absolute_address_offset_by_index_register_x() {
    const ADDR_LO: Byte = 0x02;
    const ADDR_HI: Byte = 0x00;
    const OFFSET: Byte = 0x02;
    const VALUE: Byte = 0x85;
    let mut memory = memory_mock(&[ADDR_LO, ADDR_HI, 0x00, 0x00, VALUE]);
    let mut cpu = CPU::new_nmos();
    cpu.accumulator = 0x07;
    cpu.program_counter = 0x00;
    cpu.index_register_x = OFFSET;

    let mut tasks = eor_ax(&mut cpu);
    run_tasks(&mut cpu, &mut tasks, &mut memory);

    assert_eq!(cpu.accumulator, 0x82);
}

#[test]
fn logical_should_set_processor_status_eor_ax() {
    const ADDR_LO: Byte = 0x02;
    const ADDR_HI: Byte = 0x00;
    const OFFSET: Byte = 0x02;
    const VALUE: Byte = 0x85;
    let mut memory = memory_mock(&[ADDR_LO, ADDR_HI, 0x00, 0x00, VALUE]);
    let mut cpu = CPU::new_nmos();
    cpu.accumulator = 0x07;
    cpu.program_counter = 0x00;
    cpu.index_register_x = OFFSET;

    let mut tasks = eor_ax(&mut cpu);
    run_tasks(&mut cpu, &mut tasks, &mut memory);

    assert_eq!(cpu.get_processor_status(), 0x80);
}

#[test]
fn logical_should_take_three_cycles_when_adding_offset_crosses_over_page_flip_eor_ax() {
    const ADDR_LO: Byte = 0x02;
    const ADDR_HI: Byte = 0x00;
    const OFFSET: Byte = 0x02;
    const VALUE: Byte = 0x85;
    let mut memory = memory_mock(&[ADDR_LO, ADDR_HI, 0x00, 0x00, VALUE]);
    let mut cpu = CPU::new_nmos();
    cpu.accumulator = 0x07;
    cpu.program_counter = 0x00;
    cpu.index_register_x = OFFSET;
    cpu.cycle = 0;

    let mut tasks = eor_ax(&mut cpu);
    run_tasks(&mut cpu, &mut tasks, &mut memory);

    assert_eq!(cpu.cycle, 3);
}

#[test]
fn logical_should_take_four_cycles_when_adding_offset_crosses_over_page_flip_eor_ax() {
    const ADDR_HI: Byte = 0x00;
    const OFFSET: Byte = 0x02;
    const VALUE: Byte = 0x85;
    const ADDR_LO_ON_ZERO_PAGE_BOUNDARY: Byte = 0xFF;
    let mut memory = memory_mock(&[
      ADDR_LO_ON_ZERO_PAGE_BOUNDARY,
      ADDR_HI,
      0x45,
      0xAF,
      0xDD,
      VALUE,
    ]);
    let mut cpu = CPU::new_nmos();
    cpu.accumulator = 0x07;
    cpu.program_counter = 0x00;
    cpu.index_register_x = OFFSET;
    cpu.cycle = 0;

    let mut tasks = eor_ax(&mut cpu);
    run_tasks(&mut cpu, &mut tasks, &mut memory);

    assert_eq!(cpu.cycle, 4);
}

#[test]
fn logical_should_eor_accumulator_with_a_value_in_memory_at_an_absolute_address_offset_by_index_register_y() {
    const ADDR_LO: Byte = 0x02;
    const ADDR_HI: Byte = 0x00;
    const OFFSET: Byte = 0x02;
    const VALUE: Byte = 0x85;
    let mut memory = memory_mock(&[ADDR_LO, ADDR_HI, 0x00, 0x00, VALUE]);
    let mut cpu = CPU::new_nmos();
    cpu.accumulator = 0x07;
    cpu.program_counter = 0x00;
    cpu.index_register_y = OFFSET;

    let mut tasks = eor_ay(&mut cpu);
    run_tasks(&mut cpu, &mut tasks, &mut memory);

    assert_eq!(cpu.accumulator, 0x82);
}

#[test]
fn logical_should_set_processor_status_eor_ay() {
    const ADDR_LO: Byte = 0x02;
    const ADDR_HI: Byte = 0x00;
    const OFFSET: Byte = 0x02;
    const VALUE: Byte = 0x85;
    let mut memory = memory_mock(&[ADDR_LO, ADDR_HI, 0x00, 0x00, VALUE]);
    let mut cpu = CPU::new_nmos();
    cpu.accumulator = 0x07;
    cpu.program_counter = 0x00;
    cpu.index_register_y = OFFSET;

    let mut tasks = eor_ay(&mut cpu);
    run_tasks(&mut cpu, &mut tasks, &mut memory);

    assert_eq!(cpu.get_processor_status(), 0x80);
}

#[test]
fn logical_should_take_three_cycles_when_adding_offset_crosses_over_page_flip_eor_ay() {
    const ADDR_LO: Byte = 0x02;
    const ADDR_HI: Byte = 0x00;
    const OFFSET: Byte = 0x02;
    const VALUE: Byte = 0x85;
    let mut memory = memory_mock(&[ADDR_LO, ADDR_HI, 0x00, 0x00, VALUE]);
    let mut cpu = CPU::new_nmos();
    cpu.accumulator = 0x07;
    cpu.program_counter = 0x00;
    cpu.index_register_y = OFFSET;
    cpu.cycle = 0;

    let mut tasks = eor_ay(&mut cpu);
    run_tasks(&mut cpu, &mut tasks, &mut memory);

    assert_eq!(cpu.cycle, 3);
}

#[test]
fn logical_should_take_four_cycles_when_adding_offset_crosses_over_page_flip_eor_ay() {
    const ADDR_HI: Byte = 0x00;
    const OFFSET: Byte = 0x02;
    const VALUE: Byte = 0x85;
    const ADDR_LO_ON_ZERO_PAGE_BOUNDARY: Byte = 0xFF;
    let mut memory = memory_mock(&[
      ADDR_LO_ON_ZERO_PAGE_BOUNDARY,
      ADDR_HI,
      0x45,
      0xAF,
      0xDD,
      VALUE,
    ]);
    let mut cpu = CPU::new_nmos();
    cpu.accumulator = 0x07;
    cpu.program_counter = 0x00;
    cpu.index_register_y = OFFSET;
    cpu.cycle = 0;

    let mut tasks = eor_ay(&mut cpu);
    run_tasks(&mut cpu, &mut tasks, &mut memory);

    assert_eq!(cpu.cycle, 4);
}

#[test]
fn logical_should_eor_accumulator_with_a_value_in_an_indirect_adress_stored_in_zero_page_offset_with_index_register_x() {
    const ZP_ADDRESS: Byte = 0x02;
    const OFFSET: Byte = 0x01;
    const EFFECTIVE_ADDRESS_LO: Byte = 0x05;
    const EFFECTIVE_ADDRESS_HI: Byte = 0x00;
    const VALUE: Byte = 0x85;
    let mut memory = memory_mock(&[
      ZP_ADDRESS,
      0x00,
      0x00,
      EFFECTIVE_ADDRESS_LO,
      EFFECTIVE_ADDRESS_HI,
      VALUE,
    ]);
    let mut cpu = CPU::new_nmos();
    cpu.program_counter = 0x00;
    cpu.accumulator = 0x07;
    cpu.index_register_x = OFFSET;

    let mut tasks = eor_inx(&mut cpu);
    run_tasks(&mut cpu, &mut tasks, &mut memory);

    assert_eq!(cpu.accumulator, 0x82);
}

#[test]
fn logical_should_set_processor_status_eor_inx() {
    const ZP_ADDRESS: Byte = 0x02;
    const OFFSET: Byte = 0x01;
    const EFFECTIVE_ADDRESS_LO: Byte = 0x05;
    const EFFECTIVE_ADDRESS_HI: Byte = 0x00;
    const VALUE: Byte = 0x85;
    let mut memory = memory_mock(&[
      ZP_ADDRESS,
      0x00,
      0x00,
      EFFECTIVE_ADDRESS_LO,
      EFFECTIVE_ADDRESS_HI,
      VALUE,
    ]);
    let mut cpu = CPU::new_nmos();
    cpu.program_counter = 0x00;
    cpu.accumulator = 0x07;
    cpu.index_register_x = OFFSET;

    let mut tasks = eor_inx(&mut cpu);
    run_tasks(&mut cpu, &mut tasks, &mut memory);

    assert_eq!(cpu.get_processor_status(), 0x80);
}

#[test]
fn logical_should_take_five_cycles_eor_inx() {
    const ZP_ADDRESS: Byte = 0x02;
    const OFFSET: Byte = 0x01;
    const EFFECTIVE_ADDRESS_LO: Byte = 0x05;
    const EFFECTIVE_ADDRESS_HI: Byte = 0x00;
    const VALUE: Byte = 0x85;
    let mut memory = memory_mock(&[
      ZP_ADDRESS,
      0x00,
      0x00,
      EFFECTIVE_ADDRESS_LO,
      EFFECTIVE_ADDRESS_HI,
      VALUE,
    ]);
    let mut cpu = CPU::new_nmos();
    cpu.program_counter = 0x00;
    cpu.accumulator = 0x07;
    cpu.index_register_x = OFFSET;
    cpu.cycle = 0;

    let mut tasks = eor_inx(&mut cpu);
    run_tasks(&mut cpu, &mut tasks, &mut memory);

    assert_eq!(cpu.cycle, 5);
}

#[test]
fn logical_should_eor_accumulator_with_a_value_from_an_indirect_adress_stored_in_memory_at_zero_page_and_offset_with_value_from_index_register_y() {
    const INDIRECT_ZERO_PAGE_ADDRESS_PLACE: Byte = 0x01;
    const ADDRESS_LO: Byte = 0x03;
    const ADDRESS_HI: Byte = 0x00;
    const VALUE: Byte = 0x85;
    let mut memory = memory_mock(&[
      INDIRECT_ZERO_PAGE_ADDRESS_PLACE,
      ADDRESS_LO,
      ADDRESS_HI,
      0x45,
      0xAF,
      VALUE,
    ]);
    let mut cpu = CPU::new_nmos();
    cpu.accumulator = 0x07;
    cpu.index_register_y = 0x02;
    cpu.program_counter = 0x00;

    let mut tasks = eor_iny(&mut cpu);
    run_tasks(&mut cpu, &mut tasks, &mut memory);

    assert_eq!(cpu.accumulator, 0x82);
}

#[test]
fn logical_should_set_processor_status_eor_iny() {
    const INDIRECT_ZERO_PAGE_ADDRESS_PLACE: Byte = 0x01;
    const ADDRESS_LO: Byte = 0x03;
    const ADDRESS_HI: Byte = 0x00;
    const VALUE: Byte = 0x85;
    let mut memory = memory_mock(&[
      INDIRECT_ZERO_PAGE_ADDRESS_PLACE,
      ADDRESS_LO,
      ADDRESS_HI,
      0x45,
      0xAF,
      VALUE,
    ]);
    let mut cpu = CPU::new_nmos();
    cpu.accumulator = 0x07;
    cpu.index_register_y = 0x02;
    cpu.program_counter = 0x00;

    let mut tasks = eor_iny(&mut cpu);
    run_tasks(&mut cpu, &mut tasks, &mut memory);

    assert_eq!(cpu.get_processor_status(), 0x80);
}

#[test]
fn logical_should_take_four_cycles_when_summing_indirect_address_with_index_y_does_not_cross_page_flip_eor_iny() {
    const INDIRECT_ZERO_PAGE_ADDRESS_PLACE: Byte = 0x01;
    const ADDRESS_LO: Byte = 0x03;
    const ADDRESS_HI: Byte = 0x00;
    const VALUE: Byte = 0x85;
    let mut memory = memory_mock(&[
      INDIRECT_ZERO_PAGE_ADDRESS_PLACE,
      ADDRESS_LO,
      ADDRESS_HI,
      0x45,
      0xAF,
      VALUE,
    ]);
    let mut cpu = CPU::new_nmos();
    cpu.accumulator = 0x07;
    cpu.index_register_y = 0x02;
    cpu.program_counter = 0x00;
    cpu.cycle = 0;

    let mut tasks = eor_iny(&mut cpu);
    run_tasks(&mut cpu, &mut tasks, &mut memory);

    assert_eq!(cpu.cycle, 4);
}

#[test]
fn logical_should_take_five_cycles_when_summing_indirect_address_with_index_y_crosses_page_flip_eor_iny() {
    const INDIRECT_ZERO_PAGE_ADDRESS_PLACE: Byte = 0x01;
    const ADDRESS_LO_ON_ZERO_PAGE_BOUNDARY: Byte = 0xFF;
    const ADDRESS_HI: Byte = 0x00;
    const VALUE: Byte = 0x85;
    let mut payload: [Byte; 512] = [0x00; 512];
    payload[0x0000] = INDIRECT_ZERO_PAGE_ADDRESS_PLACE;
    payload[0x0001] = ADDRESS_LO_ON_ZERO_PAGE_BOUNDARY;
    payload[0x0002] = ADDRESS_HI;
    payload[0x0101] = VALUE;

    let mut memory = memory_mock(&payload);
    let mut cpu = CPU::new_nmos();
    cpu.accumulator = 0x07;
    cpu.index_register_y = 0x02;
    cpu.program_counter = 0x00;
    cpu.cycle = 0;

    let mut tasks = eor_iny(&mut cpu);
    run_tasks(&mut cpu, &mut tasks, &mut memory);

    assert_eq!(cpu.cycle, 5);
}
