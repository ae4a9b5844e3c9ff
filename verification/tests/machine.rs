use chip8_emulator::font::FONTS;
use chip8_emulator::{Chip8_CPU, LoadError, Mode};

#[test]
fn new_machine_is_blank() {
    let cpu = Chip8_CPU::new();
    assert!(cpu.memory.iter().all(|b| *b == 0));
    assert!(cpu.v.iter().all(|b| *b == 0));
    assert!(cpu.gfx.iter().all(|p| !*p));
    assert!(cpu.keys.iter().all(|k| !*k));
    assert_eq!(cpu.i, 0);
    assert_eq!(cpu.pc, 0);
    assert_eq!(cpu.dt, 0);
    assert_eq!(cpu.st, 0);
    assert!(cpu.stack.is_empty());
    assert!(cpu.draw_flag);
    assert_eq!(cpu.mode, Mode::Running);
}

#[test]
fn init_resets_everything_but_the_screen_and_the_keypad() {
    let mut cpu = Chip8_CPU::new();
    cpu.memory[0x300] = 7;
    cpu.memory[3] = 9;
    cpu.v[4] = 5;
    cpu.i = 0x123;
    cpu.pc = 0x456;
    cpu.dt = 3;
    cpu.st = 4;
    cpu.stack.push(0x222);
    cpu.keys[2] = true;
    cpu.draw_flag = false;
    cpu.mode = Mode::AwaitingKey(3);
    cpu.gfx[17] = true;
    cpu.init();
    assert_eq!(cpu.pc, 0x200);
    assert_eq!(cpu.i, 0);
    assert_eq!(cpu.dt, 0);
    assert_eq!(cpu.st, 0);
    assert!(cpu.stack.is_empty());
    assert!(cpu.v.iter().all(|b| *b == 0));
    assert!(cpu.keys[2]);
    assert_eq!(cpu.keys.iter().filter(|k| **k).count(), 1);
    assert!(cpu.draw_flag);
    assert_eq!(cpu.mode, Mode::Running);
    assert_eq!(&cpu.memory[0..80], &FONTS[..]);
    assert!(cpu.memory[80..].iter().all(|b| *b == 0));
    assert!(cpu.gfx[17]);
}

#[test]
fn font_glyphs_sit_five_bytes_apart() {
    let mut cpu = Chip8_CPU::new();
    cpu.init();
    assert_eq!(&cpu.memory[0..5], &[0xF0, 0x90, 0x90, 0x90, 0xF0]);
    assert_eq!(&cpu.memory[5..10], &[0x20, 0x60, 0x20, 0x20, 0x70]);
    assert_eq!(&cpu.memory[5 * 0xA..5 * 0xA + 5], &[0xF0, 0x90, 0xF0, 0x90, 0x90]);
    assert_eq!(&cpu.memory[75..80], &[0xF0, 0x80, 0xF0, 0x80, 0x80]);
}

#[test]
fn load_copies_the_program_to_0x200() {
    let mut cpu = Chip8_CPU::new();
    cpu.init();
    let rom: Vec<u8> = vec![0x12, 0x34, 0x56];
    assert_eq!(cpu.load(&rom), Ok(()));
    assert_eq!(&cpu.memory[0x200..0x203], &[0x12, 0x34, 0x56]);
    assert_eq!(cpu.memory[0x203], 0);
    assert_eq!(cpu.memory[0x1FF], 0);
    assert_eq!(&cpu.memory[0..80], &FONTS[..]);
    assert_eq!(cpu.pc, 0x200);
}

#[test]
fn load_takes_a_program_that_fills_memory() {
    let mut cpu = Chip8_CPU::new();
    cpu.init();
    let rom: Vec<u8> = vec![0xAB; 3584];
    assert_eq!(cpu.load(&rom), Ok(()));
    assert_eq!(cpu.memory[0x200], 0xAB);
    assert_eq!(cpu.memory[0xFFF], 0xAB);
    assert_eq!(cpu.memory[0x1FF], 0);
}

#[test]
fn load_takes_an_empty_program() {
    let mut cpu = Chip8_CPU::new();
    cpu.init();
    let rom: Vec<u8> = Vec::new();
    assert_eq!(cpu.load(&rom), Ok(()));
    assert!(cpu.memory[0x200..].iter().all(|b| *b == 0));
}

#[test]
fn load_refuses_a_program_that_is_too_large() {
    let mut cpu = Chip8_CPU::new();
    cpu.init();
    cpu.memory[0x200] = 0x11;
    let rom: Vec<u8> = vec![0xAB; 3585];
    assert_eq!(cpu.load(&rom), Err(LoadError::TooLarge));
    assert_eq!(cpu.memory[0x200], 0x11);
    assert!(cpu.memory[0x201..].iter().all(|b| *b == 0));
}

#[test]
fn fresh_and_reset_machines_are_valid() {
    let mut cpu = Chip8_CPU::new();
    assert!(cpu.is_valid());
    cpu.init();
    assert!(cpu.is_valid());
    cpu.stack = vec![0x200; 16];
    cpu.mode = Mode::AwaitingKey(15);
    assert!(cpu.is_valid());
}

#[test]
fn hand_made_states_can_be_invalid() {
    let mut cpu = Chip8_CPU::new();
    cpu.stack = vec![0x200; 17];
    assert!(!cpu.is_valid());
    cpu.stack = vec![0x200, 0xFFF];
    assert!(!cpu.is_valid());
    cpu.stack = vec![0xFFE];
    assert!(cpu.is_valid());
    cpu.mode = Mode::AwaitingKey(16);
    assert!(!cpu.is_valid());
}
