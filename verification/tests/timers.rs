use chip8_emulator::{Chip8_CPU, Progress, TimerTick};

fn boot_timers(program: &[u8]) -> Chip8_CPU {
    let mut cpu = Chip8_CPU::new();
    cpu.init();
    assert_eq!(cpu.load(program), Ok(()));
    cpu
}

#[test]
fn timers_at_zero_stay_at_zero() {
    let mut cpu = Chip8_CPU::new();
    cpu.init();
    let tick: TimerTick = cpu.tick_timers();
    assert_eq!(tick, TimerTick { delay_ran: false, sound_ran: false, sound_stopped: false });
    assert_eq!(cpu.dt, 0);
    assert_eq!(cpu.st, 0);
}

#[test]
fn timers_count_down_by_one() {
    let mut cpu = Chip8_CPU::new();
    cpu.init();
    cpu.dt = 255;
    cpu.st = 2;
    let tick: TimerTick = cpu.tick_timers();
    assert_eq!(tick, TimerTick { delay_ran: true, sound_ran: true, sound_stopped: false });
    assert_eq!(cpu.dt, 254);
    assert_eq!(cpu.st, 1);
}

#[test]
fn sound_stops_once_when_the_timer_runs_out() {
    let mut cpu = boot_timers(&[0x12, 0x00]);
    cpu.st = 3;
    let mut stops: u32 = 0;
    let mut round: u32 = 0;
    while round < 10 {
        match cpu.cycle() {
            Ok(Progress::Executed(tick)) => {
                if tick.sound_stopped {
                    stops += 1;
                    assert_eq!(round, 2);
                    assert_eq!(cpu.st, 0);
                }
            },
            other => panic!("unexpected {:?}", other),
        }
        round += 1;
    }
    assert_eq!(stops, 1);
    assert_eq!(cpu.st, 0);
    assert_eq!(cpu.dt, 0);
}

#[test]
fn delay_timer_runs_without_a_sound_event() {
    let mut cpu = boot_timers(&[0x12, 0x00]);
    cpu.dt = 1;
    assert_eq!(
        cpu.cycle(),
        Ok(Progress::Executed(TimerTick { delay_ran: true, sound_ran: false, sound_stopped: false }))
    );
    assert_eq!(cpu.dt, 0);
    assert_eq!(
        cpu.cycle(),
        Ok(Progress::Executed(TimerTick { delay_ran: false, sound_ran: false, sound_stopped: false }))
    );
    assert_eq!(cpu.dt, 0);
}

#[test]
fn set_delay_decays_in_the_same_cycle() {
    let mut cpu = boot_timers(&[0xF1, 0x15, 0xF2, 0x07]);
    cpu.v[1] = 5;
    assert_eq!(
        cpu.cycle(),
        Ok(Progress::Executed(TimerTick { delay_ran: true, sound_ran: false, sound_stopped: false }))
    );
    assert_eq!(cpu.dt, 4);
    assert_eq!(
        cpu.cycle(),
        Ok(Progress::Executed(TimerTick { delay_ran: true, sound_ran: false, sound_stopped: false }))
    );
    assert_eq!(cpu.v[2], 4);
    assert_eq!(cpu.dt, 3);
    assert_eq!(cpu.pc, 0x204);
}

#[test]
fn set_sound_to_one_stops_in_the_same_cycle() {
    let mut cpu = boot_timers(&[0xF1, 0x18]);
    cpu.v[1] = 1;
    assert_eq!(
        cpu.cycle(),
        Ok(Progress::Executed(TimerTick { delay_ran: false, sound_ran: true, sound_stopped: true }))
    );
    assert_eq!(cpu.st, 0);
    assert_eq!(cpu.pc, 0x202);
}

#[test]
fn set_timer_instructions_alone() {
    let mut cpu = Chip8_CPU::new();
    cpu.init();
    cpu.v[4] = 77;
    cpu.i_ld_fx15(0xF415);
    cpu.i_ld_fx18(0xF418);
    assert_eq!(cpu.dt, 77);
    assert_eq!(cpu.st, 77);
    cpu.i_ld_fx07(0xF607);
    assert_eq!(cpu.v[6], 77);
    assert_eq!(cpu.pc, 0x206);
}
