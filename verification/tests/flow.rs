use chip8_emulator::opcode::recognized;
use chip8_emulator::{Chip8_CPU, Fault, Mode, Progress, TimerTick};

fn boot_flow(program: &[u8]) -> Chip8_CPU {
    let mut cpu = Chip8_CPU::new();
    cpu.init();
    assert_eq!(cpu.load(program), Ok(()));
    cpu
}

fn ran() -> Progress {
    Progress::Executed(TimerTick { delay_ran: false, sound_ran: false, sound_stopped: false })
}

#[test]
fn fetch_reads_the_high_byte_first() {
    let mut cpu = boot_flow(&[0x12, 0x34]);
    assert_eq!(cpu.cycle(), Ok(ran()));
    assert_eq!(cpu.pc, 0x234);
}

#[test]
fn sys_only_moves_on() {
    let mut cpu = boot_flow(&[0x01, 0x23]);
    assert_eq!(cpu.cycle(), Ok(ran()));
    assert_eq!(cpu.pc, 0x202);
    assert!(cpu.stack.is_empty());
}

#[test]
fn zero_word_only_moves_on() {
    let mut cpu = boot_flow(&[]);
    assert_eq!(cpu.cycle(), Ok(ran()));
    assert_eq!(cpu.pc, 0x202);
}

#[test]
fn jump_offset_adds_v0() {
    let mut cpu = boot_flow(&[0xB3, 0x00]);
    cpu.v[0] = 0x21;
    assert_eq!(cpu.cycle(), Ok(ran()));
    assert_eq!(cpu.pc, 0x321);
}

#[test]
fn call_then_return_comes_back_behind_the_call() {
    let mut cpu = boot_flow(&[0x22, 0x06, 0x00, 0x00, 0x00, 0x00, 0x00, 0xEE]);
    assert_eq!(cpu.cycle(), Ok(ran()));
    assert_eq!(cpu.pc, 0x206);
    assert_eq!(cpu.stack, vec![0x200]);
    assert_eq!(cpu.cycle(), Ok(ran()));
    assert_eq!(cpu.pc, 0x202);
    assert!(cpu.stack.is_empty());
}

#[test]
fn nested_calls_return_in_reverse_order() {
    let mut cpu = boot_flow(&[0x22, 0x04, 0x00, 0x00, 0x22, 0x08, 0x00, 0xEE, 0x00, 0xEE]);
    assert_eq!(cpu.cycle(), Ok(ran()));
    assert_eq!(cpu.cycle(), Ok(ran()));
    assert_eq!(cpu.pc, 0x208);
    assert_eq!(cpu.stack, vec![0x200, 0x204]);
    assert_eq!(cpu.cycle(), Ok(ran()));
    assert_eq!(cpu.pc, 0x206);
    assert_eq!(cpu.stack, vec![0x200]);
    assert_eq!(cpu.cycle(), Ok(ran()));
    assert_eq!(cpu.pc, 0x202);
    assert!(cpu.stack.is_empty());
}

#[test]
fn sixteen_calls_fit_and_the_next_overflows() {
    let mut cpu = boot_flow(&[0x22, 0x00]);
    let mut depth: usize = 0;
    while depth < 16 {
        assert_eq!(cpu.cycle(), Ok(ran()));
        depth += 1;
    }
    assert_eq!(cpu.stack.len(), 16);
    assert_eq!(cpu.cycle(), Err(Fault::StackOverflow { pc: 0x200, opcode: 0x2200 }));
    assert_eq!(cpu.stack.len(), 16);
    assert_eq!(cpu.pc, 0x200);
}

#[test]
fn return_with_an_empty_stack_underflows() {
    let mut cpu = boot_flow(&[0x00, 0xEE]);
    cpu.dt = 5;
    assert_eq!(cpu.cycle(), Err(Fault::StackUnderflow { pc: 0x200, opcode: 0x00EE }));
    assert_eq!(cpu.pc, 0x200);
    assert_eq!(cpu.dt, 5);
}

#[test]
fn program_counter_past_memory_is_a_fault() {
    let mut cpu = boot_flow(&[0x1F, 0xFF]);
    assert_eq!(cpu.cycle(), Ok(ran()));
    assert_eq!(cpu.pc, 0xFFF);
    assert_eq!(cpu.cycle(), Err(Fault::PcOutOfBounds { pc: 0xFFF }));
    assert_eq!(cpu.pc, 0xFFF);
}

#[test]
fn last_instruction_of_memory_runs_and_the_next_fetch_faults() {
    let mut cpu = boot_flow(&[0x1F, 0xFE]);
    cpu.memory[0xFFE] = 0x61;
    cpu.memory[0xFFF] = 0x07;
    assert_eq!(cpu.cycle(), Ok(ran()));
    assert_eq!(cpu.cycle(), Ok(ran()));
    assert_eq!(cpu.v[1], 7);
    assert_eq!(cpu.pc, 0x1000);
    assert_eq!(cpu.cycle(), Err(Fault::PcOutOfBounds { pc: 0x1000 }));
}

#[test]
fn skip_if_equal_to_immediate() {
    let mut cpu = boot_flow(&[0x31, 0x42, 0x00, 0x00, 0x31, 0x43]);
    cpu.v[1] = 0x42;
    assert_eq!(cpu.cycle(), Ok(ran()));
    assert_eq!(cpu.pc, 0x204);
    assert_eq!(cpu.cycle(), Ok(ran()));
    assert_eq!(cpu.pc, 0x206);
}

#[test]
fn skip_if_not_equal_to_immediate() {
    let mut cpu = boot_flow(&[0x41, 0x42, 0x41, 0x43]);
    cpu.v[1] = 0x42;
    assert_eq!(cpu.cycle(), Ok(ran()));
    assert_eq!(cpu.pc, 0x202);
    assert_eq!(cpu.cycle(), Ok(ran()));
    assert_eq!(cpu.pc, 0x206);
}

#[test]
fn skip_if_registers_are_equal() {
    let mut cpu = boot_flow(&[0x51, 0x20, 0x51, 0x30]);
    cpu.v[1] = 5;
    cpu.v[2] = 6;
    cpu.v[3] = 5;
    assert_eq!(cpu.cycle(), Ok(ran()));
    assert_eq!(cpu.pc, 0x202);
    assert_eq!(cpu.cycle(), Ok(ran()));
    assert_eq!(cpu.pc, 0x206);
}

#[test]
fn skip_if_registers_differ() {
    let mut cpu = boot_flow(&[0x91, 0x30, 0x91, 0x20]);
    cpu.v[1] = 5;
    cpu.v[2] = 6;
    cpu.v[3] = 5;
    assert_eq!(cpu.cycle(), Ok(ran()));
    assert_eq!(cpu.pc, 0x202);
    assert_eq!(cpu.cycle(), Ok(ran()));
    assert_eq!(cpu.pc, 0x206);
}

#[test]
fn unknown_arithmetic_word_only_moves_on() {
    let mut cpu = boot_flow(&[0x81, 0x28]);
    cpu.v[1] = 3;
    cpu.v[2] = 4;
    cpu.v[15] = 9;
    assert_eq!(cpu.cycle(), Ok(ran()));
    assert_eq!(cpu.pc, 0x202);
    assert_eq!(cpu.v[1], 3);
    assert_eq!(cpu.v[2], 4);
    assert_eq!(cpu.v[15], 9);
}

#[test]
fn unknown_key_word_only_moves_on() {
    let mut cpu = boot_flow(&[0xE1, 0x00]);
    cpu.v[1] = 200;
    assert_eq!(cpu.cycle(), Ok(ran()));
    assert_eq!(cpu.pc, 0x202);
}

#[test]
fn unknown_f_word_only_moves_on() {
    let mut cpu = boot_flow(&[0xF1, 0xFF]);
    cpu.i = 0xFFFF;
    assert_eq!(cpu.cycle(), Ok(ran()));
    assert_eq!(cpu.pc, 0x202);
    assert_eq!(cpu.i, 0xFFFF);
}

#[test]
fn execute_runs_a_given_word() {
    let mut cpu = Chip8_CPU::new();
    cpu.init();
    assert_eq!(cpu.execute(0x6B07, 0), Ok(()));
    assert_eq!(cpu.v[0xB], 7);
    assert_eq!(cpu.pc, 0x202);
    assert_eq!(cpu.execute(0x00EE, 0), Err(Fault::StackUnderflow { pc: 0x202, opcode: 0x00EE }));
}

#[test]
fn store_past_memory_is_a_fault() {
    let mut cpu = boot_flow(&[0xF2, 0x55]);
    cpu.i = 0xFFE;
    cpu.v[0] = 1;
    assert_eq!(cpu.cycle(), Err(Fault::MemoryOutOfBounds { pc: 0x200, opcode: 0xF255 }));
    assert_eq!(cpu.memory[0xFFE], 0);
    assert_eq!(cpu.pc, 0x200);
}

#[test]
fn load_past_memory_is_a_fault() {
    let mut cpu = boot_flow(&[0xF1, 0x65]);
    cpu.i = 0xFFF;
    cpu.memory[0xFFF] = 9;
    assert_eq!(cpu.cycle(), Err(Fault::MemoryOutOfBounds { pc: 0x200, opcode: 0xF165 }));
    assert_eq!(cpu.v[0], 0);
    assert_eq!(cpu.pc, 0x200);
}

#[test]
fn bcd_past_memory_is_a_fault() {
    let mut cpu = boot_flow(&[0xF1, 0x33]);
    cpu.i = 0xFFE;
    cpu.v[1] = 123;
    assert_eq!(cpu.cycle(), Err(Fault::MemoryOutOfBounds { pc: 0x200, opcode: 0xF133 }));
    assert_eq!(cpu.memory[0xFFE], 0);
    assert_eq!(cpu.memory[0xFFF], 0);
}

#[test]
fn sprite_past_memory_is_a_fault() {
    let mut cpu = boot_flow(&[0xD0, 0x12]);
    cpu.i = 0xFFF;
    cpu.memory[0xFFF] = 0xFF;
    cpu.draw_flag = false;
    assert_eq!(cpu.cycle(), Err(Fault::MemoryOutOfBounds { pc: 0x200, opcode: 0xD012 }));
    assert!(cpu.gfx.iter().all(|p| !*p));
    assert!(!cpu.draw_flag);
}

#[test]
fn key_test_of_a_missing_key_is_a_fault() {
    let mut cpu = boot_flow(&[0xE1, 0x9E]);
    cpu.v[1] = 16;
    assert_eq!(cpu.cycle(), Err(Fault::KeyOutOfRange { pc: 0x200, opcode: 0xE19E }));
    assert_eq!(cpu.pc, 0x200);
    let mut other = boot_flow(&[0xE1, 0xA1]);
    other.v[1] = 255;
    assert_eq!(other.cycle(), Err(Fault::KeyOutOfRange { pc: 0x200, opcode: 0xE1A1 }));
}

#[test]
fn words_of_the_instruction_set_are_recognized() {
    let known: [u16; 35] = [
        0x0123, 0x00E0, 0x00EE, 0x1234, 0x2345, 0x3456, 0x4567, 0x5670, 0x6789, 0x789A, 0x8120, 0x8121,
        0x8122, 0x8123, 0x8124, 0x8125, 0x8126, 0x8127, 0x812E, 0x9120, 0xA123, 0xB123, 0xC123, 0xD123,
        0xE19E, 0xE1A1, 0xF107, 0xF10A, 0xF115, 0xF118, 0xF11E, 0xF129, 0xF133, 0xF155, 0xF165,
    ];
    for opcode in known {
        assert!(recognized(opcode), "{:#06x}", opcode);
    }
}

#[test]
fn other_words_are_not_recognized() {
    let unknown: [u16; 12] = [
        0x8128, 0x8129, 0x812D, 0x812F, 0xE100, 0xE19F, 0xE1A0, 0xF100, 0xF108, 0xF134, 0xF156, 0xF1FF,
    ];
    for opcode in unknown {
        assert!(!recognized(opcode), "{:#06x}", opcode);
        let mut cpu = Chip8_CPU::new();
        cpu.init();
        cpu.i = 0xFFFF;
        cpu.v[1] = 0xFF;
        assert_eq!(cpu.execute(opcode, 0), Ok(()));
        assert_eq!(cpu.pc, 0x202);
        assert_eq!(cpu.v[1], 0xFF);
        assert_eq!(cpu.i, 0xFFFF);
    }
}

#[test]
fn run_instruction_leaves_the_timers_alone() {
    let mut cpu = boot_flow(&[0x61, 0x07, 0xF2, 0x0A, 0x00, 0xEE]);
    cpu.dt = 3;
    cpu.st = 1;
    assert_eq!(cpu.run_instruction(0), Ok(()));
    assert_eq!(cpu.v[1], 7);
    assert_eq!(cpu.pc, 0x202);
    assert_eq!(cpu.dt, 3);
    assert_eq!(cpu.st, 1);
    assert_eq!(cpu.run_instruction(0), Ok(()));
    assert_eq!(cpu.mode, Mode::AwaitingKey(2));
    assert_eq!(cpu.pc, 0x202);
    cpu.keys[4] = true;
    assert_eq!(cpu.run_instruction(0), Ok(()));
    assert_eq!(cpu.mode, Mode::Running);
    assert_eq!(cpu.v[2], 4);
    assert_eq!(cpu.pc, 0x204);
    assert_eq!(cpu.run_instruction(0), Err(Fault::StackUnderflow { pc: 0x204, opcode: 0x00EE }));
    assert_eq!(cpu.dt, 3);
    assert_eq!(cpu.st, 1);
}

#[test]
fn every_fault_leaves_the_machine_untouched() {
    let programs: [[u8; 2]; 8] = [
        [0x00, 0xEE],
        [0x22, 0x00],
        [0xD0, 0x11],
        [0xE1, 0x9E],
        [0xE1, 0xA1],
        [0xF1, 0x33],
        [0xF1, 0x55],
        [0xF1, 0x65],
    ];
    for program in programs {
        let mut cpu = boot_flow(&program);
        cpu.i = 0xFFFF;
        cpu.v[1] = 0x10;
        cpu.dt = 3;
        cpu.st = 1;
        cpu.draw_flag = false;
        if program[0] == 0x22 {
            cpu.stack = vec![0x300; 16];
        }
        let before = cpu.clone();
        assert!(cpu.cycle().is_err());
        assert_eq!(cpu, before);
    }
    let mut cpu = boot_flow(&[]);
    cpu.pc = 0xFFF;
    cpu.dt = 3;
    let before = cpu.clone();
    assert_eq!(cpu.cycle(), Err(Fault::PcOutOfBounds { pc: 0xFFF }));
    assert_eq!(cpu, before);
}
