use cpu6502::cpu::CPU;
use cpu6502::cpu::debugger::registers::Registers;
use cpu6502::cpu::tasks::Tasks;
use cpu6502::memory::Generic64kMem;

fn memory_mock(payload: &[u8]) -> Generic64kMem {
    let mut memory = Generic64kMem::new();
    memory.insert(0, payload);
    memory
}

#[allow(dead_code)]
fn memory_default() -> Generic64kMem {
    memory_mock(&[0x44, 0x51, 0x88, 0x42, 0x99])
}

#[allow(dead_code)]
fn run_tasks<T: Tasks>(cpu: &mut CPU, tasks: &mut T, memory: &mut Generic64kMem) {
    while !tasks.done() {
        tasks.tick(cpu, memory);
        cpu.cycle += 1;
    }
}

#[test]
fn should_display_registers_information() {
    let uut = Registers {
      a: 0x59,
      x: 0xFD,
      y: 0xA0,
    };

    assert_eq!(uut.to_string(), "A: 89 / $59; X: 253 / $FD; Y: 160 / $A0\n".to_owned());
}
