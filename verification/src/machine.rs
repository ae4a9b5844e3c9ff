//! The mathematical model of the machine: its state as sequences and integers, the
//! validity predicate of that state, and the values that one cycle reports.

use vstd::prelude::*;
use crate::font::{FONTS, FONT_BYTES};

verus! {

/// Address at which programs are loaded and at which execution starts.
pub const PROGRAM_START: u16 = 0x200;

/// Largest program that fits between `PROGRAM_START` and the end of memory.
pub const MAX_PROGRAM_BYTES: usize = 3584;

/// Whether the machine runs instructions or is parked on a key wait.
#[derive(Clone, Copy, Debug, PartialEq, Eq, Structural)]
pub enum Mode {
    /// The next cycle fetches and executes the instruction at the program counter.
    Running,
    /// The next cycle looks at the keypad and, if a key is down, stores its index in the
    /// register named here.
    AwaitingKey(u8),
}

/// A condition that stops emulation. Each names the program counter at which it arose.
#[derive(Clone, Copy, Debug, PartialEq, Eq, Structural)]
pub enum Fault {
    /// The two bytes of the next instruction do not both lie inside memory.
    PcOutOfBounds { pc: u16 },
    /// A call was made with the stack already full.
    StackOverflow { pc: u16, opcode: u16 },
    /// A return was made with the stack empty.
    StackUnderflow { pc: u16, opcode: u16 },
    /// An instruction addressed memory through the index register past the last byte.
    MemoryOutOfBounds { pc: u16, opcode: u16 },
    /// A key test named a key that the keypad does not have.
    KeyOutOfRange { pc: u16, opcode: u16 },
}

/// What the timers did at the end of one cycle.
#[derive(Clone, Copy, Debug, PartialEq, Eq, Structural)]
pub struct TimerTick {
    /// The delay timer was above zero and went down by one.
    pub delay_ran: bool,
    /// The sound timer was above zero and went down by one.
    pub sound_ran: bool,
    /// The sound timer went from one to zero.
    pub sound_stopped: bool,
}

/// What one cycle did.
#[derive(Clone, Copy, Debug, PartialEq, Eq, Structural)]
pub enum Progress {
    /// An instruction ran and the timers decayed.
    Executed(TimerTick),
    /// No key is down: nothing ran and the timers stood still.
    AwaitingKey,
}

/// Why a program was not loaded.
#[derive(Clone, Copy, Debug, PartialEq, Eq, Structural)]
pub enum LoadError {
    /// The program has more than `MAX_PROGRAM_BYTES` bytes.
    TooLarge,
}

/// The state of the machine as mathematical values.
#[verifier::ext_equal]
pub struct Machine {
    /// The 4096 bytes of memory.
    pub memory: Seq<u8>,
    /// The registers V0 to VF.
    pub v: Seq<u8>,
    /// The index register.
    pub i: u16,
    /// The program counter.
    pub pc: u16,
    /// The screen, row by row: pixel `(x, y)` is entry `x + 64 * y`.
    pub gfx: Seq<bool>,
    /// The delay timer.
    pub dt: u8,
    /// The sound timer.
    pub st: u8,
    /// The return addresses, the most recent last.
    pub stack: Seq<u16>,
    /// The keypad: entry `k` is true while key `k` is down.
    pub keys: Seq<bool>,
    /// Whether the screen changed since the host last drew it.
    pub draw_flag: bool,
    /// Whether the machine is parked on a key wait.
    pub mode: Mode,
}

impl Machine {
    /// The sizes are those of the machine, every return address is one at which an
    /// instruction was fetched, and a parked machine waits for a register that exists.
    pub open spec fn wf(self) -> bool {
        &&& self.memory.len() == 4096
        &&& self.v.len() == 16
        &&& self.gfx.len() == 2048
        &&& self.keys.len() == 16
        &&& self.stack.len() <= 16
        &&& forall|k: int| 0 <= k < self.stack.len() ==> #[trigger] self.stack[k] <= 4094
        &&& (self.mode matches Mode::AwaitingKey(x) ==> x < 16)
    }

    /// Both bytes of the instruction at the program counter lie inside memory.
    pub open spec fn can_fetch(self) -> bool {
        self.pc + 1 < 4096
    }

    /// The instruction word at the program counter, most significant byte first.
    pub open spec fn fetch(self) -> u16 {
        (self.memory[self.pc as int] * 256 + self.memory[self.pc + 1]) as u16
    }

    /// The state right after construction: everything zero, a redraw requested.
    pub open spec fn blank() -> Machine {
        Machine {
            memory: Seq::new(4096, |a: int| 0u8),
            v: Seq::new(16, |r: int| 0u8),
            i: 0,
            pc: 0,
            gfx: Seq::new(2048, |p: int| false),
            dt: 0,
            st: 0,
            stack: Seq::empty(),
            keys: Seq::new(16, |k: int| false),
            draw_flag: true,
            mode: Mode::Running,
        }
    }

    /// The state after a reset: the font at the bottom of an otherwise zero memory,
    /// registers, timers and stack cleared, the program counter at `PROGRAM_START`, the
    /// machine running, a redraw requested. The screen keeps its pixels and the keypad
    /// its keys: only drawing changes the one, and only the host the other.
    pub open spec fn reset(self) -> Machine {
        Machine {
            memory: Seq::new(4096, |a: int| if a < FONT_BYTES { FONTS@[a] } else { 0u8 }),
            v: Seq::new(16, |r: int| 0u8),
            i: 0,
            pc: PROGRAM_START,
            gfx: self.gfx,
            dt: 0,
            st: 0,
            stack: Seq::empty(),
            keys: self.keys,
            draw_flag: true,
            mode: Mode::Running,
        }
    }

    /// The state with `rom` copied to memory from `PROGRAM_START` on.
    pub open spec fn with_program(self, rom: Seq<u8>) -> Machine {
        Machine {
            memory: Seq::new(
                4096,
                |a: int|
                    if PROGRAM_START <= a < PROGRAM_START + rom.len() {
                        rom[a - PROGRAM_START]
                    } else {
                        self.memory[a]
                    },
            ),
            ..self
        }
    }

    /// The state with key `k` down or up.
    pub open spec fn with_key(self, k: int, pressed: bool) -> Machine {
        Machine { keys: self.keys.update(k, pressed), ..self }
    }

    /// The state once the host has drawn the screen.
    pub open spec fn drawn(self) -> Machine {
        Machine { draw_flag: false, ..self }
    }
}

} // verus!
