use cpu6502::consts::Byte;
use cpu6502::consts::Word;
use cpu6502::cpu::CPU;
use cpu6502::cpu::instructions::load_and_store_ops::lda_a;
use cpu6502::cpu::instructions::load_and_store_ops::lda_ax;
use cpu6502::cpu::instructions::load_and_store_ops::lda_ay;
use cpu6502::cpu::instructions::load_and_store_ops::lda_im;
use cpu6502::cpu::instructions::load_and_store_ops::lda_iny;
use cpu6502::cpu::instructions::load_and_store_ops::lda_zp;
use cpu6502::cpu::instructions::load_and_store_ops::lda_zpx;
use cpu6502::cpu::instructions::load_and_store_ops::ldx_a;
use cpu6502::cpu::instructions::load_and_store_ops::ldx_ay;
use cpu6502::cpu::instructions::load_and_store_ops::ldx_im;
use cpu6502::cpu::instructions::load_and_store_ops::ldx_zp;
use cpu6502::cpu::instructions::load_and_store_ops::ldx_zpy;
use cpu6502::cpu::instructions::load_and_store_ops::ldy_a;
use cpu6502::cpu::instructions::load_and_store_ops::ldy_ax;
use cpu6502::cpu::instructions::load_and_store_ops::ldy_im;
use cpu6502::cpu::instructions::load_and_store_ops::ldy_zp;
use cpu6502::cpu::instructions::load_and_store_ops::ldy_zpx;
use cpu6502::cpu::instructions::load_and_store_ops::sta_a;
use cpu6502::cpu::instructions::load_and_store_ops::sta_ax;
use cpu6502::cpu::instructions::load_and_store_ops::sta_ay;
use cpu6502::cpu::instructions::load_and_store_ops::sta_inx;
use cpu6502::cpu::instructions::load_and_store_ops::sta_iny;
use cpu6502::cpu::instructions::load_and_store_ops::sta_zp;
use cpu6502::cpu::instructions::load_and_store_ops::sta_zpx;
use cpu6502::cpu::instructions::load_and_store_ops::stx_a;
use cpu6502::cpu::instructions::load_and_store_ops::stx_zp;
use cpu6502::cpu::instructions::load_and_store_ops::stx_zpy;
use cpu6502::cpu::instructions::load_and_store_ops::sty_a;
use cpu6502::cpu::instructions::load_and_store_ops::sty_zp;
use cpu6502::cpu::instructions::load_and_store_ops::sty_zpx;
use cpu6502::cpu::tasks::Tasks;
use cpu6502::memory::Generic64kMem;

fn memory_mock(payload: &[u8]) -> Generic64kMem {
    let mut memory = Generic64kMem::new();
    memory.insert(0, payload);
    memory
}

#[allow(dead_code)]
fn memory_default() -> Generic64kMem {
    memory_mock(&[0x44, 0x51, 0x88, 0x42, 0x99])
}

#[allow(dead_code)]
fn run_tasks<T: Tasks>(cpu: &mut CPU, tasks: &mut T, memory: &mut Generic64kMem) {
    while !tasks.done() {
        tasks.tick(cpu, memory);
        cpu.cycle += 1;
    }
}

#[test]
fn should_fetch_byte_pointed_by_program_counter_into_accumulator() {
    let mut memory = memory_default();
    let mut cpu = CPU::new_nmos();
    cpu.program_counter = 0x00;
    assert_eq!(cpu.accumulator, 0x0);

    let mut tasks = lda_im(&mut cpu);
    run_tasks(&mut cpu, &mut tasks, &mut memory);

    assert_eq!(cpu.accumulator, 0x44);
}

#[test]
fn load_and_store_ops_should_set_load_accumulator_processor_status() {
    let mut memory = memory_default();
    let mut cpu = CPU::new_nmos();
    cpu.program_counter = 0x04;

    let mut tasks = lda_im(&mut cpu);
    run_tasks(&mut cpu, &mut tasks, &mut memory);

    assert_eq!(cpu.get_processor_status(), 0b10000000);
}

#[test]
fn load_and_store_ops_should_take_one_cycle() {
    let mut memory = memory_default();
    let mut cpu = CPU::new_nmos();
    cpu.program_counter = 0x00;
    cpu.cycle = 0;

    let mut tasks = lda_im(&mut cpu);
    run_tasks(&mut cpu, &mut tasks, &mut memory);

    assert_eq!(cpu.cycle, 1);
}

#[test]
fn should_fetch_byte_from_a_zero_page_address_stored_in_a_place_pointed_by_program_counter_into_accumulator() {
    let mut memory = memory_mock(&[0x03, 0xFF, 0x00, 0x45]);
    let mut cpu = CPU::new_nmos();
    cpu.program_counter = 0x00;
    assert_eq!(cpu.accumulator, 0x0);

    let mut tasks = lda_zp(&mut cpu);
    run_tasks(&mut cpu, &mut tasks, &mut memory);

    assert_eq!(cpu.accumulator, 0x45);
}

#[test]
fn load_and_store_ops_should_set_load_accumulator_processor_status_lda_zp() {
    let mut memory = memory_mock(&[0x03, 0xFF, 0x00, 0xFF]);
    let mut cpu = CPU::new_nmos();
    cpu.program_counter = 0x00;

    let mut tasks = lda_zp(&mut cpu);
    run_tasks(&mut cpu, &mut tasks, &mut memory);

    assert_eq!(cpu.get_processor_status(), 0b10000000);
}

#[test]
fn load_and_store_ops_should_take_two_cycles() {
    let mut memory = memory_mock(&[0x03, 0xFF, 0x00, 0x05]);
    let mut cpu = CPU::new_nmos();
    cpu.program_counter = 0x00;
    cpu.cycle = 0;

    let mut tasks = lda_zp(&mut cpu);
    run_tasks(&mut cpu, &mut tasks, &mut memory);

    assert_eq!(cpu.cycle, 2);
}

#[test]
fn should_fetch_byte_from_an_address_stored_in_program_counter_pointed_place_summed_with_index_register_x_into_accumulator() {
    let mut memory = memory_mock(&[0x01, 0x00, 0x00, 0x55]);
    let mut cpu = CPU::new_nmos();
    cpu.index_register_x = 0x02;
    cpu.program_counter = 0x00;
    assert_eq!(cpu.accumulator, 0x0);

    let mut tasks = lda_zpx(&mut cpu);
    run_tasks(&mut cpu, &mut tasks, &mut memory);

    assert_eq!(cpu.accumulator, 0x55);
}

#[test]
fn load_and_store_ops_should_overflow_over_byte_when_summing_address_from_memory_with_register_x() {
    let mut memory = memory_mock(&[0xFF, 0x88, 0x00]);
    let mut cpu = CPU::new_nmos();
    cpu.index_register_x = 0x02;
    cpu.program_counter = 0x00;

    let mut tasks = lda_zpx(&mut cpu);
    run_tasks(&mut cpu, &mut tasks, &mut memory);

    assert_eq!(cpu.accumulator, 0x88);
}

#[test]
fn load_and_store_ops_should_set_load_accumulator_processor_status_lda_zpx() {
    let mut memory = memory_mock(&[0x01, 0x00, 0x00, 0xFF]);
    let mut cpu = CPU::new_nmos();
    cpu.index_register_x = 0x02;
    cpu.program_counter = 0x00;

    let mut tasks = lda_zpx(&mut cpu);
    run_tasks(&mut cpu, &mut tasks, &mut memory);

    assert_eq!(cpu.get_processor_status(), 0b10000000);
}

#[test]
fn load_and_store_ops_should_take_three_cycles() {
    let mut memory = memory_mock(&[0x01, 0x00, 0x00, 0x55]);
    let mut cpu = CPU::new_nmos();
    cpu.index_register_x = 0x02;
    cpu.program_counter = 0x00;
    cpu.cycle = 0;

    let mut tasks = lda_zpx(&mut cpu);
    run_tasks(&mut cpu, &mut tasks, &mut memory);

    assert_eq!(cpu.cycle, 3);
}

#[test]
fn should_fetch_byte_from_an_absolute_address_stored_in_a_place_pointed_by_program_counter_into_accumulator() {
    let mut memory = memory_mock(&[0x03, 0x00, 0x00, 0x45]);
    let mut cpu = CPU::new_nmos();
    cpu.program_counter = 0x00;
    assert_eq!(cpu.accumulator, 0x0);

    let mut tasks = lda_a(&mut cpu);
    run_tasks(&mut cpu, &mut tasks, &mut memory);

    assert_eq!(cpu.accumulator, 0x45);
}

#[test]
fn load_and_store_ops_should_set_load_accumulator_processor_status_lda_a() {
    let mut memory = memory_mock(&[0x03, 0x00, 0x00, 0xFF]);
    let mut cpu = CPU::new_nmos();
    cpu.program_counter = 0x00;

    let mut tasks = lda_a(&mut cpu);
    run_tasks(&mut cpu, &mut tasks, &mut memory);

    assert_eq!(cpu.get_processor_status(), 0b10000000);
}

#[test]
fn load_and_store_ops_should_take_three_cycles_lda_a() {
    let mut memory = memory_mock(&[0x03, 0x00, 0x00, 0x05]);
    let mut cpu = CPU::new_nmos();
    cpu.program_counter = 0x00;
    cpu.cycle = 0;

    let mut tasks = lda_a(&mut cpu);
    run_tasks(&mut cpu, &mut tasks, &mut memory);

    assert_eq!(cpu.cycle, 3);
}

#[test]
fn should_fetch_byte_from_an_absolute_address_offset_by_index_register_x_into_accumulator() {
    const ADDRESS_LO: Byte = 0x03;
    const ADDRESS_HI: Byte = 0x00;
    const VALUE: Byte = 0xDB;
    let mut memory = memory_mock(&[
        ADDRESS_LO, ADDRESS_HI, 0x45, 0xAF, 0xDD, VALUE,
    ]);
    let mut cpu = CPU::new_nmos();
    cpu.program_counter = 0x00;
    cpu.index_register_x = 0x02;
    assert_eq!(cpu.accumulator, 0x0);

    let mut tasks = lda_ax(&mut cpu);
    run_tasks(&mut cpu, &mut tasks, &mut memory);

    assert_eq!(cpu.accumulator, VALUE);
}

#[test]
fn load_and_store_ops_should_set_load_accumulator_processor_status_lda_ax() {
    const ADDRESS_LO: Byte = 0x03;
    const ADDRESS_HI: Byte = 0x00;
    const VALUE: Byte = 0xDB;
    let mut memory = memory_mock(&[
        ADDRESS_LO, ADDRESS_HI, 0x45, 0xAF, 0xDD, VALUE,
    ]);
    let mut cpu = CPU::new_nmos();
    cpu.program_counter = 0x00;
    cpu.index_register_x = 0x02;

    let mut tasks = lda_ax(&mut cpu);
    run_tasks(&mut cpu, &mut tasks, &mut memory);

    assert_eq!(cpu.get_processor_status(), 0b10000000);
}

#[test]
fn load_and_store_ops_should_take_three_cycles_when_adding_offset_crosses_over_page_flip() {
    const ADDRESS_LO: Byte = 0x03;
    const ADDRESS_HI: Byte = 0x00;
    const VALUE: Byte = 0xDB;
    let mut memory = memory_mock(&[
        ADDRESS_LO, ADDRESS_HI, 0x45, 0xAF, 0xDD, VALUE,
    ]);
    let mut cpu = CPU::new_nmos();
    cpu.program_counter = 0x00;
    cpu.index_register_x = 0x02;
    cpu.cycle = 0;

    let mut tasks = lda_ax(&mut cpu);
    run_tasks(&mut cpu, &mut tasks, &mut memory);

    assert_eq!(cpu.cycle, 3);
}

#[test]
fn load_and_store_ops_should_take_four_cycles_when_adding_offset_crosses_over_page_flip() {
    const ADDRESS_LO_ON_ZERO_PAGE_BOUNDARY: Byte = 0xFF;
    const ADDRESS_HI: Byte = 0x00;
    const VALUE: Byte = 0xDB;
    let mut memory = memory_mock(&[
        ADDRESS_LO_ON_ZERO_PAGE_BOUNDARY,
        ADDRESS_HI,
        0x45,
        0xAF,
        0xDD,
        VALUE,
    ]);
    let mut cpu = CPU::new_nmos();
    cpu.program_counter = 0x00;
    cpu.index_register_x = 0x02;
    cpu.cycle = 0;

    let mut tasks = lda_ax(&mut cpu);
    run_tasks(&mut cpu, &mut tasks, &mut memory);

    assert_eq!(cpu.cycle, 4);
}

#[test]
fn should_fetch_byte_from_an_absolute_address_offset_by_index_register_y_into_accumulator() {
    const ADDRESS_LO: Byte = 0x03;
    const ADDRESS_HI: Byte = 0x00;
    const VALUE: Byte = 0xDB;
    let mut memory = memory_mock(&[
        ADDRESS_LO, ADDRESS_HI, 0x45, 0xAF, 0xDD, VALUE,
    ]);
    let mut cpu = CPU::new_nmos();
    cpu.program_counter = 0x00;
    cpu.index_register_y = 0x02;
    assert_eq!(cpu.accumulator, 0x0);

    let mut tasks = lda_ay(&mut cpu);
    run_tasks(&mut cpu, &mut tasks, &mut memory);

    assert_eq!(cpu.accumulator, VALUE);
}

#[test]
fn load_and_store_ops_should_set_load_accumulator_processor_status_lda_ay() {
    const ADDRESS_LO: Byte = 0x03;
    const ADDRESS_HI: Byte = 0x00;
    const VALUE: Byte = 0xDB;
    let mut memory = memory_mock(&[
        ADDRESS_LO, ADDRESS_HI, 0x45, 0xAF, 0xDD, VALUE,
    ]);
    let mut cpu = CPU::new_nmos();
    cpu.program_counter = 0x00;
    cpu.index_register_y = 0x02;

    let mut tasks = lda_ay(&mut cpu);
    run_tasks(&mut cpu, &mut tasks, &mut memory);

    assert_eq!(cpu.get_processor_status(), 0b10000000);
}

#[test]
fn load_and_store_ops_should_take_three_cycles_when_adding_offset_crosses_over_page_flip_lda_ay() {
    const ADDRESS_LO: Byte = 0x03;
    const ADDRESS_HI: Byte = 0x00;
    const VALUE: Byte = 0xDB;
    let mut memory = memory_mock(&[
        ADDRESS_LO, ADDRESS_HI, 0x45, 0xAF, 0xDD, VALUE,
    ]);
    let mut cpu = CPU::new_nmos();
    cpu.program_counter = 0x00;
    cpu.index_register_y = 0x02;
    cpu.cycle = 0;

    let mut tasks = lda_ay(&mut cpu);
    run_tasks(&mut cpu, &mut tasks, &mut memory);

    assert_eq!(cpu.cycle, 3);
}

#[test]
fn load_and_store_ops_should_take_four_cycles_when_adding_offset_crosses_over_page_flip_lda_ay() {
    const ADDRESS_LO_ON_ZERO_PAGE_BOUNDARY: Byte = 0xFF;
    const ADDRESS_HI: Byte = 0x00;
    const VALUE: Byte = 0xDB;
    let mut memory = memory_mock(&[
        ADDRESS_LO_ON_ZERO_PAGE_BOUNDARY,
        ADDRESS_HI,
        0x45,
        0xAF,
        0xDD,
        VALUE,
    ]);
    let mut cpu = CPU::new_nmos();
    cpu.program_counter = 0x00;
    cpu.index_register_y = 0x02;
    cpu.cycle = 0;

    let mut tasks = lda_ay(&mut cpu);
    run_tasks(&mut cpu, &mut tasks, &mut memory);

    assert_eq!(cpu.cycle, 4);
}

#[test]
fn should_fetch_byte_from_an_indirect_adress_stored_in_memory_at_zero_page_and_offset_with_value_from_index_register_y() {
    const INDIRECT_ZERO_PAGE_ADDRESS_PLACE: Byte = 0x01;
    const ADDRESS_LO: Byte = 0x03;
    const ADDRESS_HI: Byte = 0x00;
    const VALUE: Byte = 0xDB;
    let mut memory = memory_mock(&[
        INDIRECT_ZERO_PAGE_ADDRESS_PLACE,
        ADDRESS_LO,
        ADDRESS_HI,
        0x45,
        0xAF,
        VALUE,
    ]);
    let mut cpu = CPU::new_nmos();
    cpu.index_register_y = 0x02;
    cpu.program_counter = 0x00;
    assert_eq!(cpu.accumulator, 0x0);

    let mut tasks = lda_iny(&mut cpu);
    run_tasks(&mut cpu, &mut tasks, &mut memory);

    assert_eq!(cpu.accumulator, VALUE);
}

#[test]
fn load_and_store_ops_should_set_load_accumulator_processor_status_lda_iny() {
    const INDIRECT_ZERO_PAGE_ADDRESS_PLACE: Byte = 0x01;
    const ADDRESS_LO: Byte = 0x03;
    const ADDRESS_HI: Byte = 0x00;
    const VALUE: Byte = 0xDB;
    let mut memory = memory_mock(&[
        INDIRECT_ZERO_PAGE_ADDRESS_PLACE,
        ADDRESS_LO,
        ADDRESS_HI,
        0x45,
        0xAF,
        VALUE,
    ]);
    let mut cpu = CPU::new_nmos();
    cpu.index_register_y = 0x02;
    cpu.program_counter = 0x00;

    let mut tasks = lda_iny(&mut cpu);
    run_tasks(&mut cpu, &mut tasks, &mut memory);

    assert_eq!(cpu.get_processor_status(), 0b10000000);
}

#[test]
fn load_and_store_ops_should_take_four_cycles_when_summing_indirect_address_with_index_y_does_not_cross_page_flip() {
    const INDIRECT_ZERO_PAGE_ADDRESS_PLACE: Byte = 0x01;
    const ADDRESS_LO: Byte = 0x03;
    const ADDRESS_HI: Byte = 0x00;
    const VALUE: Byte = 0xDB;
    let mut memory = memory_mock(&[
        INDIRECT_ZERO_PAGE_ADDRESS_PLACE,
        ADDRESS_LO,
        ADDRESS_HI,
        0x45,
        0xAF,
        VALUE,
    ]);
    let mut cpu = CPU::new_nmos();
    cpu.index_register_y = 0x02;
    cpu.program_counter = 0x00;
    cpu.cycle = 0;

    let mut tasks = lda_iny(&mut cpu);
    run_tasks(&mut cpu, &mut tasks, &mut memory);

    assert_eq!(cpu.cycle, 4);
}

#[test]
fn load_and_store_ops_should_take_five_cycles_when_summing_indirect_address_with_index_y_crosses_page_flip() {
    const INDIRECT_ZERO_PAGE_ADDRESS_PLACE: Byte = 0x01;
    const ADDRESS_LO_ON_ZERO_PAGE_BOUNDARY: Byte = 0xFF;
    const ADDRESS_HI: Byte = 0x00;
    const VALUE: Byte = 0xDB;
    let mut payload: [Byte; 512] = [0x00; 512];
    payload[0x0000] = INDIRECT_ZERO_PAGE_ADDRESS_PLACE;
    payload[0x0001] = ADDRESS_LO_ON_ZERO_PAGE_BOUNDARY;
    payload[0x0002] = ADDRESS_HI;
    payload[0x0101] = VALUE;

    let mut memory = memory_mock(&payload);
    let mut cpu = CPU::new_nmos();
    cpu.index_register_y = 0x02;
    cpu.program_counter = 0x00;
    cpu.cycle = 0;

    let mut tasks = lda_iny(&mut cpu);
    run_tasks(&mut cpu, &mut tasks, &mut memory);

    assert_eq!(cpu.cycle, 5);
}

#[test]
fn should_fetch_byte_pointed_by_program_counter_into_index_register_x() {
    let mut memory = memory_default();
    let mut cpu = CPU::new_nmos();
    cpu.program_counter = 0x00;
    assert_eq!(cpu.index_register_x, 0x0);

    let mut tasks = ldx_im(&mut cpu);
    run_tasks(&mut cpu, &mut tasks, &mut memory);

    assert_eq!(cpu.index_register_x, 0x44);
}

#[test]
fn load_and_store_ops_should_set_load_index_register_x_processor_status() {
    let mut memory = memory_default();
    let mut cpu = CPU::new_nmos();
    cpu.program_counter = 0x04;

    let mut tasks = ldx_im(&mut cpu);
    run_tasks(&mut cpu, &mut tasks, &mut memory);

    assert_eq!(cpu.get_processor_status(), 0b10000000);
}

#[test]
fn load_and_store_ops_should_take_one_cycle_ldx_im() {
    let mut memory = memory_default();
    let mut cpu = CPU::new_nmos();
    cpu.program_counter = 0x00;
    cpu.cycle = 0;

    let mut tasks = ldx_im(&mut cpu);
    run_tasks(&mut cpu, &mut tasks, &mut memory);

    assert_eq!(cpu.cycle, 1);
}

#[test]
fn should_fetch_byte_from_a_zero_page_address_stored_in_a_place_pointed_by_program_counter_into_index_register_x() {
    let mut memory = memory_mock(&[0x03, 0xFF, 0x00, 0x45]);
    let mut cpu = CPU::new_nmos();
    cpu.program_counter = 0x00;
    assert_eq!(cpu.index_register_x, 0x0);

    let mut tasks = ldx_zp(&mut cpu);
    run_tasks(&mut cpu, &mut tasks, &mut memory);

    assert_eq!(cpu.index_register_x, 0x45);
}

#[test]
fn load_and_store_ops_should_set_load_index_register_x_processor_status_ldx_zp() {
    let mut memory = memory_mock(&[0x03, 0xFF, 0x00, 0xFF]);
    let mut cpu = CPU::new_nmos();
    cpu.program_counter = 0x00;

    let mut tasks = ldx_zp(&mut cpu);
    run_tasks(&mut cpu, &mut tasks, &mut memory);

    assert_eq!(cpu.get_processor_status(), 0b10000000);
}

#[test]
fn load_and_store_ops_should_take_two_cycles_ldx_zp() {
    let mut memory = memory_mock(&[0x03, 0xFF, 0x00, 0x05]);
    let mut cpu = CPU::new_nmos();
    cpu.program_counter = 0x00;
    cpu.cycle = 0;

    let mut tasks = ldx_zp(&mut cpu);
    run_tasks(&mut cpu, &mut tasks, &mut memory);

    assert_eq!(cpu.cycle, 2);
}

#[test]
fn should_fetch_byte_from_an_address_stored_in_program_counter_pointed_place_summed_with_index_register_y_into_index_register_x() {
    let mut memory = memory_mock(&[0x01, 0x00, 0x00, 0x55]);
    let mut cpu = CPU::new_nmos();
    cpu.index_register_y = 0x02;
    cpu.program_counter = 0x00;
    assert_eq!(cpu.index_register_x, 0x0);

    let mut tasks = ldx_zpy(&mut cpu);
    run_tasks(&mut cpu, &mut tasks, &mut memory);

    assert_eq!(cpu.index_register_x, 0x55);
}

#[test]
fn should_overflow_over_byte_when_summing_address_from_memory_with_register_y() {
    let mut memory = memory_mock(&[0xFF, 0x88, 0x00]);
    let mut cpu = CPU::new_nmos();
    cpu.index_register_y = 0x02;
    cpu.program_counter = 0x00;

    let mut tasks = ldx_zpy(&mut cpu);
    run_tasks(&mut cpu, &mut tasks, &mut memory);

    assert_eq!(cpu.index_register_x, 0x88);
}

#[test]
fn load_and_store_ops_should_set_load_index_register_x_processor_status_ldx_zpy() {
    let mut memory = memory_mock(&[0x01, 0x00, 0x00, 0xFF]);
    let mut cpu = CPU::new_nmos();
    cpu.index_register_y = 0x02;
    cpu.program_counter = 0x00;

    let mut tasks = ldx_zpy(&mut cpu);
    run_tasks(&mut cpu, &mut tasks, &mut memory);

    assert_eq!(cpu.get_processor_status(), 0b10000000);
}

#[test]
fn load_and_store_ops_should_take_three_cycles_ldx_zpy() {
    let mut memory = memory_mock(&[0x01, 0x00, 0x00, 0x55]);
    let mut cpu = CPU::new_nmos();
    cpu.index_register_y = 0x02;
    cpu.program_counter = 0x00;
    cpu.cycle = 0;

    let mut tasks = ldx_zpy(&mut cpu);
    run_tasks(&mut cpu, &mut tasks, &mut memory);

    assert_eq!(cpu.cycle, 3);
}

#[test]
fn should_fetch_byte_from_an_absolute_address_stored_in_a_place_pointed_by_program_counter_into_index_register_x() {
    let mut memory = memory_mock(&[0x03, 0x00, 0x00, 0x45]);
    let mut cpu = CPU::new_nmos();
    cpu.program_counter = 0x00;
    assert_eq!(cpu.index_register_x, 0x0);

    let mut tasks = ldx_a(&mut cpu);
    run_tasks(&mut cpu, &mut tasks, &mut memory);

    assert_eq!(cpu.index_register_x, 0x45);
}

#[test]
fn load_and_store_ops_should_set_load_index_register_x_processor_status_ldx_a() {
    let mut memory = memory_mock(&[0x03, 0x00, 0x00, 0xFF]);
    let mut cpu = CPU::new_nmos();
    cpu.program_counter = 0x00;

    let mut tasks = ldx_a(&mut cpu);
    run_tasks(&mut cpu, &mut tasks, &mut memory);

    assert_eq!(cpu.get_processor_status(), 0b10000000);
}

#[test]
fn load_and_store_ops_should_take_three_cycles_ldx_a() {
    let mut memory = memory_mock(&[0x03, 0x00, 0x00, 0x05]);
    let mut cpu = CPU::new_nmos();
    cpu.program_counter = 0x00;
    cpu.cycle = 0;

    let mut tasks = ldx_a(&mut cpu);
    run_tasks(&mut cpu, &mut tasks, &mut memory);

    assert_eq!(cpu.cycle, 3);
}

#[test]
fn should_fetch_byte_from_an_absolute_address_offset_by_index_register_y_into_index_register_x() {
    const ADDRESS_LO: Byte = 0x03;
    const ADDRESS_HI: Byte = 0x00;
    const VALUE: Byte = 0xDB;
    let mut memory = memory_mock(&[
        ADDRESS_LO, ADDRESS_HI, 0x45, 0xAF, 0xDD, VALUE,
    ]);
    let mut cpu = CPU::new_nmos();
    cpu.program_counter = 0x00;
    cpu.index_register_y = 0x02;
    assert_eq!(cpu.index_register_x, 0x0);

    let mut tasks = ldx_ay(&mut cpu);
    run_tasks(&mut cpu, &mut tasks, &mut memory);

    assert_eq!(cpu.index_register_x, VALUE);
}

#[test]
fn load_and_store_ops_should_set_load_index_register_x_processor_status_ldx_ay() {
    const ADDRESS_LO: Byte = 0x03;
    const ADDRESS_HI: Byte = 0x00;
    const VALUE: Byte = 0xDB;
    let mut memory = memory_mock(&[
        ADDRESS_LO, ADDRESS_HI, 0x45, 0xAF, 0xDD, VALUE,
    ]);
    let mut cpu = CPU::new_nmos();
    cpu.program_counter = 0x00;
    cpu.index_register_y = 0x02;

    let mut tasks = ldx_ay(&mut cpu);
    run_tasks(&mut cpu, &mut tasks, &mut memory);

    assert_eq!(cpu.get_processor_status(), 0b10000000);
}

#[test]
fn load_and_store_ops_should_take_three_cycles_when_adding_offset_crosses_over_page_flip_ldx_ay() {
    const ADDRESS_LO: Byte = 0x03;
    const ADDRESS_HI: Byte = 0x00;
    const VALUE: Byte = 0xDB;
    let mut memory = memory_mock(&[
        ADDRESS_LO, ADDRESS_HI, 0x45, 0xAF, 0xDD, VALUE,
    ]);
    let mut cpu = CPU::new_nmos();
    cpu.program_counter = 0x00;
    cpu.index_register_y = 0x02;
    cpu.cycle = 0;

    let mut tasks = ldx_ay(&mut cpu);
    run_tasks(&mut cpu, &mut tasks, &mut memory);

    assert_eq!(cpu.cycle, 3);
}

#[test]
fn load_and_store_ops_should_take_four_cycles_when_adding_offset_crosses_over_page_flip_ldx_ay() {
    const ADDRESS_LO_ON_ZERO_PAGE_BOUNDARY: Byte = 0xFF;
    const ADDRESS_HI: Byte = 0x00;
    const VALUE: Byte = 0xDB;
    let mut memory = memory_mock(&[
        ADDRESS_LO_ON_ZERO_PAGE_BOUNDARY,
        ADDRESS_HI,
        0x45,
        0xAF,
        0xDD,
        VALUE,
    ]);
    let mut cpu = CPU::new_nmos();
    cpu.program_counter = 0x00;
    cpu.index_register_y = 0x02;
    cpu.cycle = 0;

    let mut tasks = ldx_ay(&mut cpu);
    run_tasks(&mut cpu, &mut tasks, &mut memory);

    assert_eq!(cpu.cycle, 4);
}

#[test]
fn should_fetch_byte_pointed_by_program_counter_into_index_register_y() {
    let mut memory = memory_default();
    let mut cpu = CPU::new_nmos();
    cpu.program_counter = 0x00;
    assert_eq!(cpu.index_register_y, 0x0);

    let mut tasks = ldy_im(&mut cpu);
    run_tasks(&mut cpu, &mut tasks, &mut memory);

    assert_eq!(cpu.index_register_y, 0x44);
}

#[test]
fn load_and_store_ops_should_set_load_index_register_y_processor_status() {
    let mut memory = memory_default();
    let mut cpu = CPU::new_nmos();
    cpu.program_counter = 0x04;

    let mut tasks = ldy_im(&mut cpu);
    run_tasks(&mut cpu, &mut tasks, &mut memory);

    assert_eq!(cpu.get_processor_status(), 0b10000000);
}

#[test]
fn load_and_store_ops_should_take_one_cycle_ldy_im() {
    let mut memory = memory_default();
    let mut cpu = CPU::new_nmos();
    cpu.program_counter = 0x00;
    cpu.cycle = 0;

    let mut tasks = ldy_im(&mut cpu);
    run_tasks(&mut cpu, &mut tasks, &mut memory);

    assert_eq!(cpu.cycle, 1);
}

#[test]
fn should_fetch_byte_from_a_zero_page_address_stored_in_a_place_pointed_by_program_counter_into_index_register_y() {
    let mut memory = memory_mock(&[0x03, 0xFF, 0x00, 0x45]);
    let mut cpu = CPU::new_nmos();
    cpu.program_counter = 0x00;
    assert_eq!(cpu.index_register_y, 0x0);

    let mut tasks = ldy_zp(&mut cpu);
    run_tasks(&mut cpu, &mut tasks, &mut memory);

    assert_eq!(cpu.index_register_y, 0x45);
}

#[test]
fn load_and_store_ops_should_set_load_index_register_y_processor_status_ldy_zp() {
    let mut memory = memory_mock(&[0x03, 0xFF, 0x00, 0xFF]);
    let mut cpu = CPU::new_nmos();
    cpu.program_counter = 0x00;

    let mut tasks = ldy_zp(&mut cpu);
    run_tasks(&mut cpu, &mut tasks, &mut memory);

    assert_eq!(cpu.get_processor_status(), 0b10000000);
}

#[test]
fn load_and_store_ops_should_take_two_cycles_ldy_zp() {
    let mut memory = memory_mock(&[0x03, 0xFF, 0x00, 0x05]);
    let mut cpu = CPU::new_nmos();
    cpu.program_counter = 0x00;
    cpu.cycle = 0;

    let mut tasks = ldy_zp(&mut cpu);
    run_tasks(&mut cpu, &mut tasks, &mut memory);

    assert_eq!(cpu.cycle, 2);
}

#[test]
fn should_fetch_byte_from_an_address_stored_in_program_counter_pointed_place_summed_with_index_register_x_into_index_register_y() {
    let mut memory = memory_mock(&[0x01, 0x00, 0x00, 0x55]);
    let mut cpu = CPU::new_nmos();
    cpu.index_register_x = 0x02;
    cpu.program_counter = 0x00;
    assert_eq!(cpu.index_register_y, 0x0);

    let mut tasks = ldy_zpx(&mut cpu);
    run_tasks(&mut cpu, &mut tasks, &mut memory);

    assert_eq!(cpu.index_register_y, 0x55);
}

#[test]
fn load_and_store_ops_should_overflow_over_byte_when_summing_address_from_memory_with_register_x_ldy_zpx() {
    let mut memory = memory_mock(&[0xFF, 0x88, 0x00]);
    let mut cpu = CPU::new_nmos();
    cpu.index_register_x = 0x02;
    cpu.program_counter = 0x00;

    let mut tasks = ldy_zpx(&mut cpu);
    run_tasks(&mut cpu, &mut tasks, &mut memory);

    assert_eq!(cpu.index_register_y, 0x88);
}

#[test]
fn load_and_store_ops_should_set_load_index_register_y_processor_status_ldy_zpx() {
    let mut memory = memory_mock(&[0x01, 0x00, 0x00, 0xFF]);
    let mut cpu = CPU::new_nmos();
    cpu.index_register_x = 0x02;
    cpu.program_counter = 0x00;

    let mut tasks = ldy_zpx(&mut cpu);
    run_tasks(&mut cpu, &mut tasks, &mut memory);

    assert_eq!(cpu.get_processor_status(), 0b10000000);
}

#[test]
fn load_and_store_ops_should_take_three_cycles_ldy_zpx() {
    let mut memory = memory_mock(&[0x01, 0x00, 0x00, 0x55]);
    let mut cpu = CPU::new_nmos();
    cpu.index_register_x = 0x02;
    cpu.program_counter = 0x00;
    cpu.cycle = 0;

    let mut tasks = ldy_zpx(&mut cpu);
    run_tasks(&mut cpu, &mut tasks, &mut memory);

    assert_eq!(cpu.cycle, 3);
}

#[test]
fn should_fetch_byte_from_an_absolute_address_stored_in_a_place_pointed_by_program_counter_into_index_register_y() {
    let mut memory = memory_mock(&[0x03, 0x00, 0x00, 0x45]);
    let mut cpu = CPU::new_nmos();
    cpu.program_counter = 0x00;
    assert_eq!(cpu.index_register_y, 0x0);

    let mut tasks = ldy_a(&mut cpu);
    run_tasks(&mut cpu, &mut tasks, &mut memory);

    assert_eq!(cpu.index_register_y, 0x45);
}

#[test]
fn load_and_store_ops_should_set_load_index_register_y_processor_status_ldy_a() {
    let mut memory = memory_mock(&[0x03, 0x00, 0x00, 0xFF]);
    let mut cpu = CPU::new_nmos();
    cpu.program_counter = 0x00;

    let mut tasks = ldy_a(&mut cpu);
    run_tasks(&mut cpu, &mut tasks, &mut memory);

    assert_eq!(cpu.get_processor_status(), 0b10000000);
}

#[test]
fn load_and_store_ops_should_take_three_cycles_ldy_a() {
    let mut memory = memory_mock(&[0x03, 0x00, 0x00, 0x05]);
    let mut cpu = CPU::new_nmos();
    cpu.program_counter = 0x00;
    cpu.cycle = 0;

    let mut tasks = ldy_a(&mut cpu);
    run_tasks(&mut cpu, &mut tasks, &mut memory);

    assert_eq!(cpu.cycle, 3);
}

#[test]
fn should_fetch_byte_from_an_absolute_address_offset_by_index_register_x_into_index_register_y() {
    const ADDRESS_LO: Byte = 0x03;
    const ADDRESS_HI: Byte = 0x00;
    const VALUE: Byte = 0xDB;
    let mut memory = memory_mock(&[
        ADDRESS_LO, ADDRESS_HI, 0x45, 0xAF, 0xDD, VALUE,
    ]);
    let mut cpu = CPU::new_nmos();
    cpu.program_counter = 0x00;
    cpu.index_register_x = 0x02;
    assert_eq!(cpu.index_register_y, 0x0);

    let mut tasks = ldy_ax(&mut cpu);
    run_tasks(&mut cpu, &mut tasks, &mut memory);

    assert_eq!(cpu.index_register_y, VALUE);
}

#[test]
fn load_and_store_ops_should_set_load_index_register_y_processor_status_ldy_ax() {
    const ADDRESS_LO: Byte = 0x03;
    const ADDRESS_HI: Byte = 0x00;
    const VALUE: Byte = 0xDB;
    let mut memory = memory_mock(&[
        ADDRESS_LO, ADDRESS_HI, 0x45, 0xAF, 0xDD, VALUE,
    ]);
    let mut cpu = CPU::new_nmos();
    cpu.program_counter = 0x00;
    cpu.index_register_x = 0x02;

    let mut tasks = ldy_ax(&mut cpu);
    run_tasks(&mut cpu, &mut tasks, &mut memory);

    assert_eq!(cpu.get_processor_status(), 0b10000000);
}

#[test]
fn load_and_store_ops_should_take_three_cycles_when_adding_offset_crosses_over_page_flip_ldy_ax() {
    const ADDRESS_LO: Byte = 0x03;
    const ADDRESS_HI: Byte = 0x00;
    const VALUE: Byte = 0xDB;
    let mut memory = memory_mock(&[
        ADDRESS_LO, ADDRESS_HI, 0x45, 0xAF, 0xDD, VALUE,
    ]);
    let mut cpu = CPU::new_nmos();
    cpu.program_counter = 0x00;
    cpu.index_register_x = 0x02;
    cpu.cycle = 0;

    let mut tasks = ldy_ax(&mut cpu);
    run_tasks(&mut cpu, &mut tasks, &mut memory);

    assert_eq!(cpu.cycle, 3);
}

#[test]
fn load_and_store_ops_should_take_four_cycles_when_adding_offset_crosses_over_page_flip_ldy_ax() {
    const ADDRESS_LO_ON_ZERO_PAGE_BOUNDARY: Byte = 0xFF;
    const ADDRESS_HI: Byte = 0x00;
    const VALUE: Byte = 0xDB;
    let mut memory = memory_mock(&[
        ADDRESS_LO_ON_ZERO_PAGE_BOUNDARY,
        ADDRESS_HI,
        0x45,
        0xAF,
        0xDD,
        VALUE,
    ]);
    let mut cpu = CPU::new_nmos();
    cpu.program_counter = 0x00;
    cpu.index_register_x = 0x02;
    cpu.cycle = 0;

    let mut tasks = ldy_ax(&mut cpu);
    run_tasks(&mut cpu, &mut tasks, &mut memory);

    assert_eq!(cpu.cycle, 4);
}

#[test]
fn should_store_accumulator_in_memory_at_a_zero_page_address() {
    const ZERO_PAGE_ADDR: Byte = 0x03;
    let mut memory = memory_mock(&[ZERO_PAGE_ADDR, 0xFF, 0x00, 0x00]);
    let mut cpu = CPU::new_nmos();
    cpu.accumulator = 0x02;
    cpu.program_counter = 0x00;

    let mut tasks = sta_zp(&mut cpu);
    run_tasks(&mut cpu, &mut tasks, &mut memory);

    assert_eq!(memory.data[(ZERO_PAGE_ADDR) as usize], 0x02);
}

#[test]
fn load_and_store_ops_should_take_two_cycles_sta_zp() {
    const ZERO_PAGE_ADDR: Byte = 0x03;
    let mut memory = memory_mock(&[ZERO_PAGE_ADDR, 0xFF, 0x00, 0x00]);
    let mut cpu = CPU::new_nmos();
    cpu.accumulator = 0x02;
    cpu.program_counter = 0x00;
    cpu.cycle = 0;

    let mut tasks = sta_zp(&mut cpu);
    run_tasks(&mut cpu, &mut tasks, &mut memory);

    assert_eq!(cpu.cycle, 2);
}

#[test]
fn should_store_accumulator_in_memory_at_a_zero_page_address_summed_with_index_register_x() {
    const ZERO_PAGE_ADDR: Byte = 0x01;
    const ZERO_PAGE_ADDR_SUM_X: Word = 0x03;
    let mut memory = memory_mock(&[ZERO_PAGE_ADDR, 0xFF, 0x00, 0x00]);
    let mut cpu = CPU::new_nmos();
    cpu.accumulator = 0x05;
    cpu.index_register_x = 0x02;
    cpu.program_counter = 0x00;

    let mut tasks = sta_zpx(&mut cpu);
    run_tasks(&mut cpu, &mut tasks, &mut memory);

    assert_eq!(memory.data[(ZERO_PAGE_ADDR_SUM_X) as usize], 0x05);
}

#[test]
fn load_and_store_ops_should_take_three_cycles_sta_zpx() {
    const ZERO_PAGE_ADDR: Byte = 0x01;
    let mut memory = memory_mock(&[ZERO_PAGE_ADDR, 0xFF, 0x00, 0x00]);
    let mut cpu = CPU::new_nmos();
    cpu.accumulator = 0x05;
    cpu.index_register_x = 0x02;
    cpu.program_counter = 0x00;
    cpu.cycle = 0;

    let mut tasks = sta_zpx(&mut cpu);
    run_tasks(&mut cpu, &mut tasks, &mut memory);

    assert_eq!(cpu.cycle, 3);
}

#[test]
fn should_store_accumulator_in_memory_at_an_absolute_address() {
    const ADDR_LO: Byte = 0x04;
    const ADDR_HI: Byte = 0x00;
    const ADDR: Word = 0x0004;
    let mut memory = memory_mock(&[ADDR_LO, ADDR_HI, 0x00, 0x00, 0x00]);
    let mut cpu = CPU::new_nmos();
    cpu.accumulator = 0x0A;
    cpu.program_counter = 0x00;

    let mut tasks = sta_a(&mut cpu);
    run_tasks(&mut cpu, &mut tasks, &mut memory);

    assert_eq!(memory.data[(ADDR as Word) as usize], 0x0A);
}

#[test]
fn load_and_store_ops_should_take_three_cycles_sta_a() {
    const ADDR_LO: Byte = 0x04;
    const ADDR_HI: Byte = 0x00;
    let mut memory = memory_mock(&[ADDR_LO, ADDR_HI, 0x00, 0x00, 0x00]);
    let mut cpu = CPU::new_nmos();
    cpu.accumulator = 0x0A;
    cpu.program_counter = 0x00;
    cpu.cycle = 0;

    let mut tasks = sta_a(&mut cpu);
    run_tasks(&mut cpu, &mut tasks, &mut memory);

    assert_eq!(cpu.cycle, 3);
}

#[test]
fn should_store_accumulator_in_memory_at_an_absolute_address_offset_by_index_register_x() {
    const ADDR_LO: Byte = 0x02;
    const ADDR_HI: Byte = 0x00;
    const OFFSET: Byte = 0x02;
    const ADDR_OFFSET_BY_X: Word = 0x0004;
    let mut memory = memory_mock(&[ADDR_LO, ADDR_HI, 0x00, 0x00, 0x00]);
    let mut cpu = CPU::new_nmos();
    cpu.accumulator = 0x08;
    cpu.program_counter = 0x00;
    cpu.index_register_x = OFFSET;

    let mut tasks = sta_ax(&mut cpu);
    run_tasks(&mut cpu, &mut tasks, &mut memory);

    assert_eq!(memory.data[(ADDR_OFFSET_BY_X) as usize], 0x08);
}

#[test]
fn load_and_store_ops_should_take_four_cycles() {
    const ADDR_LO: Byte = 0x02;
    const ADDR_HI: Byte = 0x00;
    const OFFSET: Byte = 0x02;
    let mut memory = memory_mock(&[ADDR_LO, ADDR_HI, 0x00, 0x00, 0x00]);
    let mut cpu = CPU::new_nmos();
    cpu.accumulator = 0x08;
    cpu.program_counter = 0x00;
    cpu.index_register_x = OFFSET;
    cpu.cycle = 0;

    let mut tasks = sta_ax(&mut cpu);
    run_tasks(&mut cpu, &mut tasks, &mut memory);

    assert_eq!(cpu.cycle, 4);
}

#[test]
fn should_store_accumulator_in_memory_at_an_absolute_address_offset_by_index_register_y() {
    const ADDR_LO: Byte = 0x02;
    const ADDR_HI: Byte = 0x00;
    const OFFSET: Byte = 0x02;
    const ADDR_OFFSET_BY_Y: Word = 0x0004;
    let mut memory = memory_mock(&[ADDR_LO, ADDR_HI, 0x00, 0x00, 0x00]);
    let mut cpu = CPU::new_nmos();
    cpu.accumulator = 0x08;
    cpu.program_counter = 0x00;
    cpu.index_register_y = OFFSET;

    let mut tasks = sta_ay(&mut cpu);
    run_tasks(&mut cpu, &mut tasks, &mut memory);

    assert_eq!(memory.data[(ADDR_OFFSET_BY_Y) as usize], 0x08);
}

#[test]
fn load_and_store_ops_should_take_four_cycles_sta_ay() {
    const ADDR_LO: Byte = 0x02;
    const ADDR_HI: Byte = 0x00;
    const OFFSET: Byte = 0x02;
    let mut memory = memory_mock(&[ADDR_LO, ADDR_HI, 0x00, 0x00, 0x00]);
    let mut cpu = CPU::new_nmos();
    cpu.accumulator = 0x08;
    cpu.program_counter = 0x00;
    cpu.index_register_y = OFFSET;
    cpu.cycle = 0;

    let mut tasks = sta_ay(&mut cpu);
    run_tasks(&mut cpu, &mut tasks, &mut memory);

    assert_eq!(cpu.cycle, 4);
}

#[test]
fn should_store_accumulator_in_an_indirect_adress_stored_in_zero_page_offset_with_index_register_x() {
    const ZP_ADDRESS: Byte = 0x02;
    const OFFSET: Byte = 0x01;
    const EFFECTIVE_ADDRESS_LO: Byte = 0x05;
    const EFFECTIVE_ADDRESS_HI: Byte = 0x00;
    const EFFECTIVE_ADDRESS: Word = 0x0005;
    let mut memory = memory_mock(&[
        ZP_ADDRESS,
        0x00,
        0x00,
        EFFECTIVE_ADDRESS_LO,
        EFFECTIVE_ADDRESS_HI,
        0x00,
        0x00,
    ]);
    let mut cpu = CPU::new_nmos();
    cpu.program_counter = 0x00;
    cpu.accumulator = 0xA9;
    cpu.index_register_x = OFFSET;

    let mut tasks = sta_inx(&mut cpu);
    run_tasks(&mut cpu, &mut tasks, &mut memory);

    assert_eq!(memory.data[(EFFECTIVE_ADDRESS) as usize], 0xA9);
}

#[test]
fn load_and_store_ops_should_take_five_cycles() {
    const ZP_ADDRESS: Byte = 0x02;
    const OFFSET: Byte = 0x01;
    const EFFECTIVE_ADDRESS_LO: Byte = 0x05;
    const EFFECTIVE_ADDRESS_HI: Byte = 0x00;
    let mut memory = memory_mock(&[
        ZP_ADDRESS,
        0x00,
        0x00,
        EFFECTIVE_ADDRESS_LO,
        EFFECTIVE_ADDRESS_HI,
        0x00,
        0x00,
    ]);
    let mut cpu = CPU::new_nmos();
    cpu.program_counter = 0x00;
    cpu.accumulator = 0xA9;
    cpu.index_register_x = OFFSET;
    cpu.cycle = 0;

    let mut tasks = sta_inx(&mut cpu);
    run_tasks(&mut cpu, &mut tasks, &mut memory);

    assert_eq!(cpu.cycle, 5);
}

#[test]
fn should_store_accumulator_in_offset_with_index_register_y_indirect_adress_stored_in_zero_page() {
    const ZP_ADDRESS: Byte = 0x01;
    const ADDRESS_LO: Byte = 0x03;
    const ADDRESS_HI: Byte = 0x00;
    const OFFSET: Byte = 0x01;
    const EFFECTIVE_ADDRESS: Word = 0x0004;
    let mut memory = memory_mock(&[
        ZP_ADDRESS, ADDRESS_LO, ADDRESS_HI, 0x00, 0x00,
    ]);
    let mut cpu = CPU::new_nmos();
    cpu.accumulator = 0xDF;
    cpu.index_register_y = OFFSET;
    cpu.program_counter = 0x00;

    let mut tasks = sta_iny(&mut cpu);
    run_tasks(&mut cpu, &mut tasks, &mut memory);

    assert_eq!(memory.data[(EFFECTIVE_ADDRESS) as usize], 0xDF);
}

#[test]
fn load_and_store_ops_should_take_five_cycles_when_summing_indirect_address_with_index_y_crosses_page_flip_sta_iny() {
    const ZP_ADDRESS: Byte = 0x01;
    const ADDRESS_LO: Byte = 0x03;
    const ADDRESS_HI: Byte = 0x00;
    const OFFSET: Byte = 0x01;
    let mut memory = memory_mock(&[
        ZP_ADDRESS, ADDRESS_LO, ADDRESS_HI, 0x00, 0x00,
    ]);
    let mut cpu = CPU::new_nmos();
    cpu.accumulator = 0xDF;
    cpu.index_register_y = OFFSET;
    cpu.program_counter = 0x00;
    cpu.cycle = 0;

    let mut tasks = sta_iny(&mut cpu);
    run_tasks(&mut cpu, &mut tasks, &mut memory);

    assert_eq!(cpu.cycle, 5);
}

#[test]
fn should_store_index_register_x_in_memory_at_a_zero_page_address() {
    const ZERO_PAGE_ADDR: Byte = 0x03;
    let mut memory = memory_mock(&[ZERO_PAGE_ADDR, 0xFF, 0x00, 0x00]);
    let mut cpu = CPU::new_nmos();
    cpu.index_register_x = 0x02;
    cpu.program_counter = 0x00;

    let mut tasks = stx_zp(&mut cpu);
    run_tasks(&mut cpu, &mut tasks, &mut memory);

    assert_eq!(memory.data[(ZERO_PAGE_ADDR as Word) as usize], 0x02);
}

#[test]
fn load_and_store_ops_should_take_two_cycles_stx_zp() {
    const ZERO_PAGE_ADDR: Byte = 0x03;
    let mut memory = memory_mock(&[ZERO_PAGE_ADDR, 0xFF, 0x00, 0x00]);
    let mut cpu = CPU::new_nmos();
    cpu.index_register_x = 0x02;
    cpu.program_counter = 0x00;
    cpu.cycle = 0;

    let mut tasks = stx_zp(&mut cpu);
    run_tasks(&mut cpu, &mut tasks, &mut memory);

    assert_eq!(cpu.cycle, 2);
}

#[test]
fn should_store_index_register_x_in_memory_at_a_zero_page_address_summed_with_index_register_y() {
    const ZERO_PAGE_ADDR: Byte = 0x01;
    const ZERO_PAGE_ADDR_SUM_Y: Word = 0x03;
    let mut memory = memory_mock(&[ZERO_PAGE_ADDR, 0xFF, 0x00, 0x00]);
    let mut cpu = CPU::new_nmos();
    cpu.index_register_x = 0x05;
    cpu.index_register_y = 0x02;
    cpu.program_counter = 0x00;

    let mut tasks = stx_zpy(&mut cpu);
    run_tasks(&mut cpu, &mut tasks, &mut memory);

    assert_eq!(memory.data[(ZERO_PAGE_ADDR_SUM_Y) as usize], 0x05);
}

#[test]
fn load_and_store_ops_should_take_three_cycles_stx_zpy() {
    const ZERO_PAGE_ADDR: Byte = 0x01;
    let mut memory = memory_mock(&[ZERO_PAGE_ADDR, 0xFF, 0x00, 0x00]);
    let mut cpu = CPU::new_nmos();
    cpu.index_register_x = 0x05;
    cpu.index_register_y = 0x02;
    cpu.program_counter = 0x00;
    cpu.cycle = 0;

    let mut tasks = stx_zpy(&mut cpu);
    run_tasks(&mut cpu, &mut tasks, &mut memory);

    assert_eq!(cpu.cycle, 3);
}

#[test]
fn should_store_index_register_x_in_memory_at_an_absolute_address() {
    const ADDR_LO: Byte = 0x04;
    const ADDR_HI: Byte = 0x00;
    const ADDR: Word = 0x0004;
    let mut memory = memory_mock(&[ADDR_LO, ADDR_HI, 0x00, 0x00, 0x00]);
    let mut cpu = CPU::new_nmos();
    cpu.index_register_x = 0x0A;
    cpu.program_counter = 0x00;

    let mut tasks = stx_a(&mut cpu);
    run_tasks(&mut cpu, &mut tasks, &mut memory);

    assert_eq!(memory.data[(ADDR) as usize], 0x0A);
}

#[test]
fn load_and_store_ops_should_take_three_cycles_stx_a() {
    const ADDR_LO: Byte = 0x04;
    const ADDR_HI: Byte = 0x00;
    let mut memory = memory_mock(&[ADDR_LO, ADDR_HI, 0x00, 0x00, 0x00]);
    let mut cpu = CPU::new_nmos();
    cpu.index_register_x = 0x0A;
    cpu.program_counter = 0x00;
    cpu.cycle = 0;

    let mut tasks = stx_a(&mut cpu);
    run_tasks(&mut cpu, &mut tasks, &mut memory);

    assert_eq!(cpu.cycle, 3);
}

#[test]
fn should_store_index_register_y_in_memory_at_a_zero_page_address() {
    const ZERO_PAGE_ADDR: Byte = 0x03;
    let mut memory = memory_mock(&[ZERO_PAGE_ADDR, 0xFF, 0x00, 0x00]);
    let mut cpu = CPU::new_nmos();
    cpu.index_register_y = 0x02;
    cpu.program_counter = 0x00;

    let mut tasks = sty_zp(&mut cpu);
    run_tasks(&mut cpu, &mut tasks, &mut memory);

    assert_eq!(memory.data[(ZERO_PAGE_ADDR as Word) as usize], 0x02);
}

#[test]
fn load_and_store_ops_should_take_two_cycles_sty_zp() {
    const ZERO_PAGE_ADDR: Byte = 0x03;
    let mut memory = memory_mock(&[ZERO_PAGE_ADDR, 0xFF, 0x00, 0x00]);
    let mut cpu = CPU::new_nmos();
    cpu.index_register_y = 0x02;
    cpu.program_counter = 0x00;
    cpu.cycle = 0;

    let mut tasks = sty_zp(&mut cpu);
    run_tasks(&mut cpu, &mut tasks, &mut memory);

    assert_eq!(cpu.cycle, 2);
}

#[test]
fn should_store_index_register_y_in_memory_at_a_zero_page_address_summed_with_index_register_x() {
    const ZERO_PAGE_ADDR: Byte = 0x01;
    const ZERO_PAGE_ADDR_SUM_X: Word = 0x03;
    let mut memory = memory_mock(&[ZERO_PAGE_ADDR, 0xFF, 0x00, 0x00]);
    let mut cpu = CPU::new_nmos();
    cpu.index_register_y = 0x05;
    cpu.index_register_x = 0x02;
    cpu.program_counter = 0x00;

    let mut tasks = sty_zpx(&mut cpu);
    run_tasks(&mut cpu, &mut tasks, &mut memory);

    assert_eq!(memory.data[(ZERO_PAGE_ADDR_SUM_X) as usize], 0x05);
}

#[test]
fn load_and_store_ops_should_take_three_cycles_sty_zpx() {
    const ZERO_PAGE_ADDR: Byte = 0x01;
    let mut memory = memory_mock(&[ZERO_PAGE_ADDR, 0xFF, 0x00, 0x00]);
    let mut cpu = CPU::new_nmos();
    cpu.index_register_y = 0x05;
    cpu.index_register_x = 0x02;
    cpu.program_counter = 0x00;
    cpu.cycle = 0;

    let mut tasks = sty_zpx(&mut cpu);
    run_tasks(&mut cpu, &mut tasks, &mut memory);

    assert_eq!(cpu.cycle, 3);
}

#[test]
fn should_store_index_register_y_in_memory_at_an_absolute_address() {
    const ADDR_LO: Byte = 0x04;
    const ADDR_HI: Byte = 0x00;
    const ADDR: Word = 0x0004;
    let mut memory = memory_mock(&[ADDR_LO, ADDR_HI, 0x00, 0x00, 0x00]);
    let mut cpu = CPU::new_nmos();
    cpu.index_register_y = 0x0A;
    cpu.program_counter = 0x00;

    let mut tasks = sty_a(&mut cpu);
    run_tasks(&mut cpu, &mut tasks, &mut memory);

    assert_eq!(memory.data[(ADDR) as usize], 0x0A);
}

#[test]
fn load_and_store_ops_should_take_three_cycles_sty_a() {
    const ADDR_LO: Byte = 0x04;
    const ADDR_HI: Byte = 0x00;
    let mut memory = memory_mock(&[ADDR_LO, ADDR_HI, 0x00, 0x00, 0x00]);
    let mut cpu = CPU::new_nmos();
    cpu.index_register_y = 0x0A;
    cpu.program_counter = 0x00;
    cpu.cycle = 0;

    let mut tasks = sty_a(&mut cpu);
    run_tasks(&mut cpu, &mut tasks, &mut memory);

    assert_eq!(cpu.cycle, 3);
}
