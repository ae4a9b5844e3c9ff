//! A verified interpreter core for the CHIP-8 virtual machine.
//!
//! [`Chip8_CPU`] is the machine: 4096 bytes of memory, sixteen registers, an index
//! register, a program counter, a call stack of sixteen levels, two timers, a keypad of
//! sixteen keys and a screen of 64 by 32 pixels. Its view is the mathematical
//! [`Machine`](machine::Machine), and every operation is specified as a function on that
//! view: [`isa`] says what each instruction does, [`cycle`] what a whole cycle does, and
//! [`laws`] proves what follows.
//!
//! The host drives the machine: it loads a program, calls [`Chip8_CPU::cycle`] in a loop,
//! plots what [`Chip8_CPU::draw_graphics`] returns when a redraw is requested, and hands
//! key events to [`Chip8_CPU::setKeys`].

pub mod cpu;
pub mod cycle;
pub mod display;
pub mod font;
pub mod instructions;
pub mod isa;
pub mod keypad;
pub mod laws;
pub mod machine;
pub mod opcode;
pub mod random;

pub use crate::cpu::Chip8_CPU;
pub use crate::keypad::KeyEvent;
pub use crate::machine::{Fault, LoadError, Mode, Progress, TimerTick};
