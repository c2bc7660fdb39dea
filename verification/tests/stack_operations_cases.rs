use cpu6502::cpu::CPU;
use cpu6502::cpu::instructions::stack_operations::pha;
use cpu6502::cpu::instructions::stack_operations::php;
use cpu6502::cpu::instructions::stack_operations::pla;
use cpu6502::cpu::instructions::stack_operations::plp;
use cpu6502::cpu::instructions::stack_operations::tsx;
use cpu6502::cpu::instructions::stack_operations::txs;
use cpu6502::cpu::tasks::Tasks;
use cpu6502::memory::Generic64kMem;

fn memory_mock(payload: &[u8]) -> Generic64kMem {
    let mut memory = Generic64kMem::new();
    memory.insert(0, payload);
    memory
}

#[allow(dead_code)]
fn memory_default() -> Generic64kMem {
    memory_mock(&[0x44, 0x51, 0x88, 0x42, 0x99])
}

#[allow(dead_code)]
fn run_tasks<T: Tasks>(cpu: &mut CPU, tasks: &mut T, memory: &mut Generic64kMem) {
    while !tasks.done() {
        tasks.tick(cpu, memory);
        cpu.cycle += 1;
    }
}

#[test]
fn tests_should_push_accumulator_into_stack() {
    let mut memory = memory_default();
    let mut cpu = CPU::new_nmos();
    cpu.stack_pointer = 0xFF;
    cpu.accumulator = 0xDE;

    let mut tasks = pha(&mut cpu);
    run_tasks(&mut cpu, &mut tasks, &mut memory);

    assert_eq!(memory.data[(0x01FF) as usize], 0xDE);
}

#[test]
fn tests_should_take_two_cycles_pha() {
    let mut memory = memory_default();
    let mut cpu = CPU::new_nmos();
    cpu.accumulator = 0xDE;
    cpu.stack_pointer = 0xFF;
    cpu.cycle = 0;

    let mut tasks = pha(&mut cpu);
    run_tasks(&mut cpu, &mut tasks, &mut memory);

    assert_eq!(cpu.cycle, 2);
}

#[test]
fn tests_should_pull_stack_into_accumulator() {
    let mut memory = memory_default();
    let mut cpu = CPU::new_nmos();
    cpu.stack_pointer = 0xFE;
    memory.data[(0x01FF) as usize] = 0xDE;
    cpu.accumulator = 0x00;

    let mut tasks = pla(&mut cpu);
    run_tasks(&mut cpu, &mut tasks, &mut memory);

    assert_eq!(cpu.accumulator, 0xDE);
}

#[test]
fn tests_should_take_three_cycles() {
    let mut memory = memory_default();
    let mut cpu = CPU::new_nmos();
    cpu.stack_pointer = 0xFE;
    memory.data[(0x01FF) as usize] = 0xDE;
    cpu.cycle = 0;

    let mut tasks = pla(&mut cpu);
    run_tasks(&mut cpu, &mut tasks, &mut memory);

    assert_eq!(cpu.cycle, 3);
}

#[test]
fn tests_should_set_processor_status_based_on_accumulator_value() {
    let mut memory = memory_default();
    let mut cpu = CPU::new_nmos();
    cpu.stack_pointer = 0xFE;
    memory.data[(0x01FF) as usize] = 0xDE;
    cpu.processor_status = (0x00 as u8).into();

    let mut tasks = pla(&mut cpu);
    run_tasks(&mut cpu, &mut tasks, &mut memory);

    assert_eq!(cpu.get_processor_status(), 0b10000000);
}

#[test]
fn tests_should_push_processor_status_into_stack() {
    let mut memory = memory_default();
    let mut cpu = CPU::new_nmos();
    cpu.processor_status = (0b10101010 as u8).into();
    cpu.stack_pointer = 0xFF;

    let mut tasks = php(&mut cpu);
    run_tasks(&mut cpu, &mut tasks, &mut memory);

    assert_eq!(memory.data[(0x01FF) as usize], 0b10101010);
}

#[test]
fn tests_should_take_two_cycles_php() {
    let mut memory = memory_default();
    let mut cpu = CPU::new_nmos();
    cpu.processor_status = (0b10101010 as u8).into();
    cpu.stack_pointer = 0xFF;
    cpu.cycle = 0;

    let mut tasks = php(&mut cpu);
    run_tasks(&mut cpu, &mut tasks, &mut memory);

    assert_eq!(cpu.cycle, 2);
}

#[test]
fn tests_should_pull_stack_into_accumulator_plp() {
    let mut memory = memory_default();
    let mut cpu = CPU::new_nmos();
    cpu.stack_pointer = 0xFE;
    memory.data[(0x01FF) as usize] = 0xDE;
    cpu.processor_status = (0x00 as u8).into();

    let mut tasks = plp(&mut cpu);
    run_tasks(&mut cpu, &mut tasks, &mut memory);

    assert_eq!(cpu.get_processor_status(), 0xDE);
}

#[test]
fn tests_should_take_three_cycles_plp() {
    let mut memory = memory_default();
    let mut cpu = CPU::new_nmos();
    cpu.stack_pointer = 0xFE;
    memory.data[(0x01FF) as usize] = 0xDE;
    cpu.processor_status = (0x00 as u8).into();
    cpu.cycle = 0;

    let mut tasks = plp(&mut cpu);
    run_tasks(&mut cpu, &mut tasks, &mut memory);

    assert_eq!(cpu.cycle, 3);
}

#[test]
fn tests_should_push_index_x_register_into_stack_pointer_register_txs() {
    let mut memory = memory_default();
    let mut cpu = CPU::new_nmos();
    cpu.index_register_x = 0xDE;

    let mut tasks = txs(&mut cpu);
    run_tasks(&mut cpu, &mut tasks, &mut memory);

    assert_eq!(cpu.stack_pointer, 0xDE);
}

#[test]
fn tests_should_take_one_cycle_txs() {
    let mut memory = memory_default();
    let mut cpu = CPU::new_nmos();
    cpu.index_register_x = 0xDE;
    cpu.cycle = 0;

    let mut tasks = txs(&mut cpu);
    run_tasks(&mut cpu, &mut tasks, &mut memory);

    assert_eq!(cpu.cycle, 1);
}

#[test]
fn tests_should_push_stack_pointer_into_index_x_register_register() {
    let mut memory = memory_default();
    let mut cpu = CPU::new_nmos();
    cpu.stack_pointer = 0xDE;

    let mut tasks = tsx(&mut cpu);
    run_tasks(&mut cpu, &mut tasks, &mut memory);

    assert_eq!(cpu.index_register_x, 0xDE);
}

#[test]
fn tests_should_take_one_cycle_tsx() {
    let mut memory = memory_default();
    let mut cpu = CPU::new_nmos();
    cpu.stack_pointer = 0xDE;
    cpu.cycle = 0;

    let mut tasks = tsx(&mut cpu);
    run_tasks(&mut cpu, &mut tasks, &mut memory);

    assert_eq!(cpu.cycle, 1);
}

#[test]
fn tests_should_set_processor_status_based_on_index_x_register_value_tsx() {
    let mut memory = memory_default();
    let mut cpu = CPU::new_nmos();
    cpu.stack_pointer = 0xDE;
    cpu.processor_status = (0x00 as u8).into();

    let mut tasks = tsx(&mut cpu);
    run_tasks(&mut cpu, &mut tasks, &mut memory);

    assert_eq!(cpu.get_processor_status(), 0b10000000);
}
