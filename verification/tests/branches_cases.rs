use cpu6502::consts::Byte;
use cpu6502::cpu::CPU;
use cpu6502::cpu::instructions::branches::BranchCondition;
use cpu6502::cpu::instructions::branches::bcc;
use cpu6502::cpu::instructions::branches::bcs;
use cpu6502::cpu::instructions::branches::beq;
use cpu6502::cpu::instructions::branches::bmi;
use cpu6502::cpu::instructions::branches::bne;
use cpu6502::cpu::instructions::branches::bpl;
use cpu6502::cpu::instructions::branches::branch;
use cpu6502::cpu::instructions::branches::bvc;
use cpu6502::cpu::instructions::branches::bvs;
use cpu6502::cpu::tasks::Tasks;
use cpu6502::memory::Generic64kMem;

fn memory_mock(payload: &[u8]) -> Generic64kMem {
    let mut memory = Generic64kMem::new();
    memory.insert(0, payload);
    memory
}

#[allow(dead_code)]
fn memory_default() -> Generic64kMem {
    memory_mock(&[0x44, 0x51, 0x88, 0x42, 0x99])
}

#[allow(dead_code)]
fn run_tasks<T: Tasks>(cpu: &mut CPU, tasks: &mut T, memory: &mut Generic64kMem) {
    while !tasks.done() {
        tasks.tick(cpu, memory);
        cpu.cycle += 1;
    }
}

#[test]
fn tests_should_not_take_branch_and_advance_past_operand_when_condition_is_false() {
    let mut memory = memory_mock(&[0x22, 0x00, 0x01, 0x00]);
    let mut cpu = CPU::new_nmos();
    cpu.program_counter = 0x0000;

    let condition = BranchCondition::Constant(false);
    let mut tasks = branch(&mut cpu, condition);
    run_tasks(&mut cpu, &mut tasks, &mut memory);

    assert_eq!(cpu.program_counter, 0x0001);
}

#[test]
fn tests_should_take_branch_and_offset_program_counter_by_operand_when_condition_is_true() {
    const OFFSET: Byte = 0x03;
    let mut memory = memory_mock(&[OFFSET, 0x00, 0x01, 0x00]);
    let mut cpu = CPU::new_nmos();
    cpu.program_counter = 0x00;

    let condition = BranchCondition::Constant(true);
    let mut tasks = branch(&mut cpu, condition);
    run_tasks(&mut cpu, &mut tasks, &mut memory);

    assert_eq!(cpu.program_counter, 0x0004);
}

#[test]
fn tests_should_take_branch_and_offset_program_counter_backwards_by_negative_operand_in_twos_complement_when_condition_is_true() {
    const OFFSET: Byte = 0x03;
    const NEGATIVE_OFFSET_TWOS_COMPLEMENT: Byte = (OFFSET ^ 0xFF) + 1;
    let mut memory = memory_mock(&[
        0x22,
        0x00,
        NEGATIVE_OFFSET_TWOS_COMPLEMENT,
        0x00,
    ]);
    let mut cpu = CPU::new_nmos();
    cpu.program_counter = 0x02;

    let condition = BranchCondition::Constant(true);
    let mut tasks = branch(&mut cpu, condition);
    run_tasks(&mut cpu, &mut tasks, &mut memory);

    assert_eq!(cpu.program_counter, 0x00);
}

#[test]
fn tests_should_take_and_offset_program_counter_over_page_flip_by_operand_when_condition_is_true() {
    const OFFSET: Byte = 0x04;
    let mut payload: [Byte; 512] = [0x00; 512];
    payload[0x00FE] = OFFSET;
    let mut memory = memory_mock(&payload);
    let mut cpu = CPU::new_nmos();
    cpu.program_counter = 0x00FE;

    let condition = BranchCondition::Constant(true);
    let mut tasks = branch(&mut cpu, condition);
    run_tasks(&mut cpu, &mut tasks, &mut memory);

    assert_eq!(cpu.program_counter, 0x0103);
}

#[test]
fn tests_should_take_branch_and_offset_program_counter_backwards_over_page_flip_by_negative_operand_in_twos_complement_when_condition_is_true() {
    const OFFSET: Byte = 0x03;
    const NEGATIVE_OFFSET_TWOS_COMPLEMENT: Byte = (OFFSET ^ 0xFF) + 1;
    let mut memory = memory_mock(&[
        NEGATIVE_OFFSET_TWOS_COMPLEMENT,
        0x00,
        0x00,
        0x00,
    ]);
    let mut cpu = CPU::new_nmos();
    cpu.program_counter = 0x00;

    let condition = BranchCondition::Constant(true);
    let mut tasks = branch(&mut cpu, condition);
    run_tasks(&mut cpu, &mut tasks, &mut memory);

    assert_eq!(cpu.program_counter, 0xFFFE);
}

#[test]
fn tests_should_take_one_cycle_when_not_branching() {
    let mut memory = memory_mock(&[0x02, 0x00, 0x01, 0x00]);
    let mut cpu = CPU::new_nmos();
    cpu.program_counter = 0x00;
    cpu.cycle = 0;

    let condition = BranchCondition::Constant(false);
    let mut tasks = branch(&mut cpu, condition);
    run_tasks(&mut cpu, &mut tasks, &mut memory);

    assert_eq!(cpu.cycle, 1);
}

#[test]
fn tests_should_take_two_cycles_when_branching_without_crossing_a_page_flip() {
    const OFFSET: Byte = 0x03;
    let mut memory = memory_mock(&[OFFSET, 0x00, 0x01, 0x00]);
    let mut cpu = CPU::new_nmos();
    cpu.program_counter = 0x00;
    cpu.cycle = 0;

    let condition = BranchCondition::Constant(true);
    let mut tasks = branch(&mut cpu, condition);
    run_tasks(&mut cpu, &mut tasks, &mut memory);

    assert_eq!(cpu.cycle, 2);
}

#[test]
fn tests_should_take_three_cycles_when_branching_with_a_page_flips_crossing() {
    const OFFSET: Byte = 0x04;
    let mut payload: [Byte; 512] = [0x00; 512];
    payload[0x00FE] = OFFSET;
    let mut memory = memory_mock(&payload);
    let mut cpu = CPU::new_nmos();
    cpu.program_counter = 0x00FE;
    cpu.cycle = 0;

    let condition = BranchCondition::Constant(true);
    let mut tasks = branch(&mut cpu, condition);
    run_tasks(&mut cpu, &mut tasks, &mut memory);

    assert_eq!(cpu.cycle, 3);
}

#[test]
fn tests_should_not_take_branch_when_carry_flag_is_set() {
    let mut memory = memory_mock(&[0x22, 0x00, 0x01, 0x00]);
    let mut cpu = CPU::new_nmos();
    cpu.processor_status.change_carry_flag(true);
    cpu.program_counter = 0x00;

    let mut tasks = bcc(&mut cpu);
    run_tasks(&mut cpu, &mut tasks, &mut memory);

    assert_eq!(cpu.program_counter, 0x0001);
}

#[test]
fn tests_should_take_branch_when_carry_flag_is_clear() {
    const OFFSET: Byte = 0x03;
    let mut memory = memory_mock(&[OFFSET, 0x00, 0x01, 0x00]);
    let mut cpu = CPU::new_nmos();
    cpu.processor_status.change_carry_flag(false);
    cpu.program_counter = 0x00;

    let mut tasks = bcc(&mut cpu);
    run_tasks(&mut cpu, &mut tasks, &mut memory);

    assert_eq!(cpu.program_counter, 0x0004);
}

#[test]
fn tests_should_not_take_branch_when_carry_flag_is_clear() {
    let mut memory = memory_mock(&[0x22, 0x00, 0x01, 0x00]);
    let mut cpu = CPU::new_nmos();
    cpu.processor_status.change_carry_flag(false);
    cpu.program_counter = 0x00;

    let mut tasks = bcs(&mut cpu);
    run_tasks(&mut cpu, &mut tasks, &mut memory);

    assert_eq!(cpu.program_counter, 0x0001);
}

#[test]
fn tests_should_take_branch_when_carry_flag_is_set() {
    const OFFSET: Byte = 0x03;
    let mut memory = memory_mock(&[OFFSET, 0x00, 0x01, 0x00]);
    let mut cpu = CPU::new_nmos();
    cpu.processor_status.change_carry_flag(true);
    cpu.program_counter = 0x00;

    let mut tasks = bcs(&mut cpu);
    run_tasks(&mut cpu, &mut tasks, &mut memory);

    assert_eq!(cpu.program_counter, 0x0004);
}

#[test]
fn tests_should_not_take_branch_when_zero_flag_is_clear() {
    let mut memory = memory_mock(&[0x22, 0x00, 0x01, 0x00]);
    let mut cpu = CPU::new_nmos();
    cpu.processor_status.change_zero_flag(false);
    cpu.program_counter = 0x00;

    let mut tasks = beq(&mut cpu);
    run_tasks(&mut cpu, &mut tasks, &mut memory);

    assert_eq!(cpu.program_counter, 0x0001);
}

#[test]
fn tests_should_take_branch_when_zero_flag_is_set() {
    const OFFSET: Byte = 0x03;
    let mut memory = memory_mock(&[OFFSET, 0x00, 0x01, 0x00]);
    let mut cpu = CPU::new_nmos();
    cpu.processor_status.change_zero_flag(true);
    cpu.program_counter = 0x00;

    let mut tasks = beq(&mut cpu);
    run_tasks(&mut cpu, &mut tasks, &mut memory);

    assert_eq!(cpu.program_counter, 0x0004);
}

#[test]
fn tests_should_not_take_branch_when_negative_flag_is_clear() {
    let mut memory = memory_mock(&[0x22, 0x00, 0x01, 0x00]);
    let mut cpu = CPU::new_nmos();
    cpu.processor_status.change_negative_flag(false);
    cpu.program_counter = 0x00;

    let mut tasks = bmi(&mut cpu);
    run_tasks(&mut cpu, &mut tasks, &mut memory);

    assert_eq!(cpu.program_counter, 0x0001);
}

#[test]
fn tests_should_take_branch_when_negative_flag_is_set() {
    const OFFSET: Byte = 0x03;
    let mut memory = memory_mock(&[OFFSET, 0x00, 0x01, 0x00]);
    let mut cpu = CPU::new_nmos();
    cpu.processor_status.change_negative_flag(true);
    cpu.program_counter = 0x00;

    let mut tasks = bmi(&mut cpu);
    run_tasks(&mut cpu, &mut tasks, &mut memory);

    assert_eq!(cpu.program_counter, 0x0004);
}

#[test]
fn tests_should_not_take_branch_when_zero_flag_is_set() {
    let mut memory = memory_mock(&[0x22, 0x00, 0x01, 0x00]);
    let mut cpu = CPU::new_nmos();
    cpu.processor_status.change_zero_flag(true);
    cpu.program_counter = 0x00;

    let mut tasks = bne(&mut cpu);
    run_tasks(&mut cpu, &mut tasks, &mut memory);

    assert_eq!(cpu.program_counter, 0x0001);
}

#[test]
fn tests_should_take_branch_when_zero_flag_is_clear() {
    const OFFSET: Byte = 0x03;
    let mut memory = memory_mock(&[OFFSET, 0x00, 0x01, 0x00]);
    let mut cpu = CPU::new_nmos();
    cpu.processor_status.change_zero_flag(false);
    cpu.program_counter = 0x00;

    let mut tasks = bne(&mut cpu);
    run_tasks(&mut cpu, &mut tasks, &mut memory);

    assert_eq!(cpu.program_counter, 0x0004);
}

#[test]
fn tests_should_not_take_branch_when_negative_flag_is_set() {
    let mut memory = memory_mock(&[0x22, 0x00, 0x01, 0x00]);
    let mut cpu = CPU::new_nmos();
    cpu.processor_status.change_negative_flag(true);
    cpu.program_counter = 0x00;

    let mut tasks = bpl(&mut cpu);
    run_tasks(&mut cpu, &mut tasks, &mut memory);

    assert_eq!(cpu.program_counter, 0x0001);
}

#[test]
fn tests_should_take_branch_when_negative_flag_is_clear() {
    const OFFSET: Byte = 0x03;
    let mut memory = memory_mock(&[OFFSET, 0x00, 0x01, 0x00]);
    let mut cpu = CPU::new_nmos();
    cpu.processor_status.change_negative_flag(false);
    cpu.program_counter = 0x00;

    let mut tasks = bpl(&mut cpu);
    run_tasks(&mut cpu, &mut tasks, &mut memory);

    assert_eq!(cpu.program_counter, 0x0004);
}

#[test]
fn tests_should_not_take_branch_when_negative_flag_is_set_bvc() {
    let mut memory = memory_mock(&[0x22, 0x00, 0x01, 0x00]);
    let mut cpu = CPU::new_nmos();
    cpu.processor_status.change_overflow_flag(true);
    cpu.program_counter = 0x00;

    let mut tasks = bvc(&mut cpu);
    run_tasks(&mut cpu, &mut tasks, &mut memory);

    assert_eq!(cpu.program_counter, 0x0001);
}

#[test]
fn tests_should_take_branch_when_negative_flag_is_clear_bvc() {
    const OFFSET: Byte = 0x03;
    let mut memory = memory_mock(&[OFFSET, 0x00, 0x01, 0x00]);
    let mut cpu = CPU::new_nmos();
    cpu.processor_status.change_overflow_flag(false);
    cpu.program_counter = 0x00;

    let mut tasks = bvc(&mut cpu);
    run_tasks(&mut cpu, &mut tasks, &mut memory);

    assert_eq!(cpu.program_counter, 0x0004);
}

#[test]
fn tests_should_not_take_branch_when_negative_flag_is_clear_bvs() {
    let mut memory = memory_mock(&[0x22, 0x00, 0x01, 0x00]);
    let mut cpu = CPU::new_nmos();
    cpu.processor_status.change_overflow_flag(false);
    cpu.program_counter = 0x00;

    let mut tasks = bvs(&mut cpu);
    run_tasks(&mut cpu, &mut tasks, &mut memory);

    assert_eq!(cpu.program_counter, 0x0001);
}

#[test]
fn tests_should_take_branch_when_negative_flag_is_set_bvs() {
    const OFFSET: Byte = 0x03;
    let mut memory = memory_mock(&[OFFSET, 0x00, 0x01, 0x00]);
    let mut cpu = CPU::new_nmos();
    cpu.processor_status.change_overflow_flag(true);
    cpu.program_counter = 0x00;

    let mut tasks = bvs(&mut cpu);
    run_tasks(&mut cpu, &mut tasks, &mut memory);

    assert_eq!(cpu.program_counter, 0x0004);
}
