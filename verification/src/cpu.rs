//! The executable machine: its state, construction, reset, program loading and timers.

use vstd::prelude::*;
use crate::font::{FONTS, FONT_BYTES};
use crate::machine::{LoadError, Machine, Mode, TimerTick, MAX_PROGRAM_BYTES, PROGRAM_START};

verus! {

/// The machine. Its view is the [`Machine`] that its fields spell out; every operation
/// is stated over that view.
#[allow(non_camel_case_types)]
#[derive(Clone, Debug, PartialEq, Eq)]
pub struct Chip8_CPU {
    /// The memory: the font from 0x000, the program from 0x200.
    pub memory: [u8; 4096],
    /// The registers V0 to VF. VF doubles as the flag of arithmetic and drawing.
    pub v: [u8; 16],
    /// The index register.
    pub i: u16,
    /// The program counter.
    pub pc: u16,
    /// The screen, row by row.
    pub gfx: [bool; 2048],
    /// The delay timer.
    pub dt: u8,
    /// The sound timer.
    pub st: u8,
    /// The return addresses of the calls in progress.
    pub stack: Vec<u16>,
    /// The keypad: entry `k` is true while key `k` is down.
    pub keys: [bool; 16],
    /// Whether the screen changed since it was last drawn.
    pub draw_flag: bool,
    /// Whether the machine is parked on a key wait.
    pub mode: Mode,
}

impl View for Chip8_CPU {
    type V = Machine;

    open spec fn view(&self) -> Machine {
        Machine {
            memory: self.memory@,
            v: self.v@,
            i: self.i,
            pc: self.pc,
            gfx: self.gfx@,
            dt: self.dt,
            st: self.st,
            stack: self.stack@,
            keys: self.keys@,
            draw_flag: self.draw_flag,
            mode: self.mode,
        }
    }
}

impl Chip8_CPU {
    /// A machine with everything at zero and a redraw requested.
    pub fn new() -> (cpu: Chip8_CPU)
        ensures
            cpu@ == Machine::blank(),
            cpu@.wf(),
    {
        Chip8_CPU {
            memory: [0u8; 4096],
            v: [0u8; 16],
            i: 0,
            pc: 0,
            gfx: [false; 2048],
            dt: 0,
            st: 0,
            stack: Vec::with_capacity(16),
            keys: [false; 16],
            draw_flag: true,
            mode: Mode::Running,
        }
    }

    /// Whether the state is one that the machine can be in: at most sixteen return
    /// addresses, each the address of a call, and a key wait, if there is one, for a
    /// register that exists. Every operation keeps a valid machine valid; a host that
    /// writes to the fields itself can ask here before it runs a cycle.
    pub fn is_valid(&self) -> (valid: bool)
        ensures
            valid == self@.wf(),
    {
        if self.stack.len() > 16 {
            return false;
        }
        let mut k: usize = 0;
        while k < self.stack.len()
            invariant
                k <= self.stack@.len(),
                forall|j: int| 0 <= j < k ==> #[trigger] self.stack@[j] <= 4094,
            decreases self.stack@.len() - k,
        {
            if self.stack[k] > 4094 {
                return false;
            }
            k += 1;
        }
        match self.mode {
            Mode::AwaitingKey(x) => x < 16,
            Mode::Running => true,
        }
    }

    /// Resets the machine: memory holds the font and nothing else, registers, timers and
    /// stack are cleared, execution starts over at 0x200 and a redraw is requested. The
    /// screen and the keypad stay as they are.
    pub fn init(&mut self)
        ensures
            final(self)@ == old(self)@.reset(),
            final(self)@.wf(),
    {
        self.memory = [0u8; 4096];
        self.v = [0u8; 16];
        self.i = 0;
        self.pc = PROGRAM_START;
        self.dt = 0;
        self.st = 0;
        self.stack = Vec::with_capacity(16);
        self.draw_flag = true;
        self.mode = Mode::Running;
        let mut k: usize = 0;
        while k < FONT_BYTES
            invariant
                k <= FONT_BYTES,
                forall|a: int| 0 <= a < k ==> self.memory@[a] == FONTS@[a],
                forall|a: int| k <= a < 4096 ==> self.memory@[a] == 0,
                self.v@ == Seq::new(16, |r: int| 0u8),
                self.keys@ == old(self).keys@,
                self.i == 0,
                self.pc == PROGRAM_START,
                self.dt == 0,
                self.st == 0,
                self.stack@ == Seq::<u16>::empty(),
                self.draw_flag,
                self.mode == Mode::Running,
                self.gfx@ == old(self).gfx@,
            decreases FONT_BYTES - k,
        {
            self.memory[k] = FONTS[k];
            k += 1;
        }
    }

    /// Copies `rom` to memory from `PROGRAM_START` on. A program of more than
    /// `MAX_PROGRAM_BYTES` bytes is refused
    /// and the machine is left as it was.
    pub fn load(&mut self, rom: &[u8]) -> (loaded: Result<(), LoadError>)
        ensures
            rom@.len() <= MAX_PROGRAM_BYTES ==> loaded == Ok::<(), LoadError>(()) && final(self)@ == old(
                self,
            )@.with_program(rom@),
            rom@.len() > MAX_PROGRAM_BYTES ==> loaded == Err::<(), LoadError>(LoadError::TooLarge)
                && final(self)@ == old(self)@,
            old(self)@.wf() ==> final(self)@.wf(),
    {
        let len = rom.len();
        if len > MAX_PROGRAM_BYTES {
            return Err(LoadError::TooLarge);
        }
        let mut k: usize = 0;
        while k < len
            invariant
                k <= len,
                len == rom@.len(),
                len <= MAX_PROGRAM_BYTES,
                forall|a: int|
                    PROGRAM_START <= a < PROGRAM_START + k ==> self.memory@[a] == rom@[a - PROGRAM_START],
                forall|a: int|
                    0 <= a < 4096 && !(PROGRAM_START <= a < PROGRAM_START + k) ==> self.memory@[a] == old(
                        self,
                    ).memory@[a],
                self.v@ == old(self).v@,
                self.keys@ == old(self).keys@,
                self.gfx@ == old(self).gfx@,
                self.stack@ == old(self).stack@,
                self.i == old(self).i,
                self.pc == old(self).pc,
                self.dt == old(self).dt,
                self.st == old(self).st,
                self.draw_flag == old(self).draw_flag,
                self.mode == old(self).mode,
            decreases len - k,
        {
            self.memory[PROGRAM_START as usize + k] = rom[k];
            k += 1;
        }
        Ok(())
    }

    /// Marks key `key` as down or up.
    pub fn set_key(&mut self, key: u8, pressed: bool)
        requires
            key < 16,
        ensures
            final(self)@ == old(self)@.with_key(key as int, pressed),
            old(self)@.wf() ==> final(self)@.wf(),
    {
        self.keys[key as usize] = pressed;
    }

    /// Lets both timers decay by one step and tells what happened: whether each of them
    /// ran, and whether the sound timer reached zero just now.
    pub fn tick_timers(&mut self) -> (tick: TimerTick)
        ensures
            final(self)@ == old(self)@.tick(),
            tick == old(self)@.tick_report(),
            old(self)@.wf() ==> final(self)@.wf(),
    {
        let tick = TimerTick {
            delay_ran: self.dt > 0,
            sound_ran: self.st > 0,
            sound_stopped: self.st == 1,
        };
        if self.dt > 0 {
            self.dt -= 1;
        }
        if self.st > 0 {
            self.st -= 1;
        }
        tick
    }
}

} // verus!
