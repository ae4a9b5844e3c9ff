//! One cycle of the machine: fetch, decode, execute, and the decay of the timers.

use vstd::prelude::*;
use crate::cpu::Chip8_CPU;
use crate::machine::{Fault, Machine, Mode, Progress};
use crate::opcode::{
    family, family_of, kk_of, n_of, nnn_of, operand_kk, operand_n, word, x_of, y_of,
};
use crate::random::random_byte;

verus! {

impl Machine {
    /// The fault that executing `opcode` in this state raises, if it raises one.
    pub open spec fn fault(self, opcode: u16) -> Option<Fault> {
        let family = family_of(opcode);
        let x = x_of(opcode);
        let kk = kk_of(opcode);
        let pc = self.pc;
        if family == 0x0 && kk == 0xEE && self.stack_empty() {
            Some(Fault::StackUnderflow { pc, opcode })
        } else if family == 0x2 && self.stack_full() {
            Some(Fault::StackOverflow { pc, opcode })
        } else if family == 0xD && self.sprite_outside(n_of(opcode)) {
            Some(Fault::MemoryOutOfBounds { pc, opcode })
        } else if family == 0xE && (kk == 0x9E || kk == 0xA1) && self.key_missing(x) {
            Some(Fault::KeyOutOfRange { pc, opcode })
        } else if family == 0xF && kk == 0x33 && self.bcd_outside() {
            Some(Fault::MemoryOutOfBounds { pc, opcode })
        } else if family == 0xF && (kk == 0x55 || kk == 0x65) && self.regs_outside(x) {
            Some(Fault::MemoryOutOfBounds { pc, opcode })
        } else {
            None
        }
    }

    /// The state after `opcode` is executed in this state, where it raises no fault.
    /// `random` is the byte that Cxkk masks; no other instruction looks at it. A word
    /// that is no instruction of its family only moves the program counter on.
    pub open spec fn execute(self, opcode: u16, random: u8) -> Machine {
        let family = family_of(opcode);
        let x = x_of(opcode);
        let y = y_of(opcode);
        let n = n_of(opcode);
        let kk = kk_of(opcode);
        let nnn = nnn_of(opcode);
        if family == 0x0 {
            if kk == 0xE0 {
                self.clear_screen()
            } else if kk == 0xEE {
                self.ret()
            } else {
                self.sys()
            }
        } else if family == 0x1 {
            self.jump(nnn)
        } else if family == 0x2 {
            self.call(nnn)
        } else if family == 0x3 {
            self.skip_eq_imm(x, kk)
        } else if family == 0x4 {
            self.skip_ne_imm(x, kk)
        } else if family == 0x5 {
            self.skip_eq_reg(x, y)
        } else if family == 0x6 {
            self.load_imm(x, kk)
        } else if family == 0x7 {
            self.add_imm(x, kk)
        } else if family == 0x8 {
            if n == 0x0 {
                self.load_reg(x, y)
            } else if n == 0x1 {
                self.or_reg(x, y)
            } else if n == 0x2 {
                self.and_reg(x, y)
            } else if n == 0x3 {
                self.xor_reg(x, y)
            } else if n == 0x4 {
                self.add_reg(x, y)
            } else if n == 0x5 {
                self.sub_reg(x, y)
            } else if n == 0x6 {
                self.shift_right(x)
            } else if n == 0x7 {
                self.subn_reg(x, y)
            } else if n == 0xE {
                self.shift_left(x)
            } else {
                self.advance(2)
            }
        } else if family == 0x9 {
            self.skip_ne_reg(x, y)
        } else if family == 0xA {
            self.load_index(nnn)
        } else if family == 0xB {
            self.jump_offset(nnn)
        } else if family == 0xC {
            self.random(x, kk, random)
        } else if family == 0xD {
            self.draw(x, y, n)
        } else if family == 0xE {
            if kk == 0x9E {
                self.skip_key(x)
            } else if kk == 0xA1 {
                self.skip_not_key(x)
            } else {
                self.advance(2)
            }
        } else {
            if kk == 0x07 {
                self.get_delay(x)
            } else if kk == 0x0A {
                self.wait_key(x)
            } else if kk == 0x15 {
                self.set_delay(x)
            } else if kk == 0x18 {
                self.set_sound(x)
            } else if kk == 0x1E {
                self.add_index(x)
            } else if kk == 0x29 {
                self.font_addr(x)
            } else if kk == 0x33 {
                self.store_bcd(x)
            } else if kk == 0x55 {
                self.store_regs(x)
            } else if kk == 0x65 {
                self.load_regs(x)
            } else {
                self.advance(2)
            }
        }
    }

    /// The fault that stops the next cycle, if one does: the program counter too close
    /// to the end of memory, or the fault of the instruction there.
    pub open spec fn step_fault(self) -> Option<Fault> {
        if !self.can_fetch() {
            Some(Fault::PcOutOfBounds { pc: self.pc })
        } else if self.mode is Running {
            self.fault(self.fetch())
        } else {
            None
        }
    }

    /// The state after the instruction part of the next cycle, where no fault stops it: a
    /// parked machine looks at the keypad, a running one executes the instruction at
    /// the program counter.
    pub open spec fn step_instruction(self, random: u8) -> Machine {
        match self.mode {
            Mode::AwaitingKey(x) => self.wait_key(x as int),
            Mode::Running => self.execute(self.fetch(), random),
        }
    }

    /// The state after the next cycle. A fault leaves the state as it is; so does a key
    /// wait with no key down, but for the mode; else the instruction runs and then the
    /// timers decay.
    pub open spec fn step(self, random: u8) -> Machine {
        if self.step_fault() is Some {
            self
        } else if self.step_instruction(random).mode is AwaitingKey {
            self.step_instruction(random)
        } else {
            self.step_instruction(random).tick()
        }
    }

    /// What the next cycle reports.
    pub open spec fn step_result(self, random: u8) -> Result<Progress, Fault> {
        if let Some(fault) = self.step_fault() {
            Err(fault)
        } else if self.step_instruction(random).mode is AwaitingKey {
            Ok(Progress::AwaitingKey)
        } else {
            Ok(Progress::Executed(self.step_instruction(random).tick_report()))
        }
    }

    /// The next cycle executes Cxkk, the one instruction that uses a random byte.
    pub open spec fn draws_random(self) -> bool {
        self.can_fetch() && self.mode is Running && family_of(self.fetch()) == 0xC
    }
}

impl Chip8_CPU {
    /// Executes the instruction `opcode`, with `random` as the byte that Cxkk masks. A
    /// refused instruction returns its fault and changes nothing.
    pub fn execute(&mut self, opcode: u16, random: u8) -> (done: Result<(), Fault>)
        requires
            old(self)@.wf(),
            old(self)@.can_fetch(),
        ensures
            match done {
                Ok(_) => old(self)@.fault(opcode) is None && final(self)@ == old(self)@.execute(
                    opcode,
                    random,
                ),
                Err(fault) => old(self)@.fault(opcode) == Some(fault) && final(self)@ == old(self)@,
            },
            final(self)@.wf(),
    {
        match family(opcode) {
            0x0 => {
                match operand_kk(opcode) {
                    0xE0 => {
                        self.i_clr_00e0(opcode);
                        Ok(())
                    },
                    0xEE => self.i_ret_00ee(opcode),
                    _ => {
                        self.i_sys_0nnn(opcode);
                        Ok(())
                    },
                }
            },
            0x1 => {
                self.i_jp_1nnn(opcode);
                Ok(())
            },
            0x2 => self.i_call_2nnn(opcode),
            0x3 => {
                self.i_se_3xkk(opcode);
                Ok(())
            },
            0x4 => {
                self.i_sne_4xkk(opcode);
                Ok(())
            },
            0x5 => {
                self.i_se_5xy0(opcode);
                Ok(())
            },
            0x6 => {
                self.i_ld_6xkk(opcode);
                Ok(())
            },
            0x7 => {
                self.i_add_7xkk(opcode);
                Ok(())
            },
            0x8 => {
                match operand_n(opcode) {
                    0x0 => self.i_ld_8xy0(opcode),
                    0x1 => self.i_or_8xy1(opcode),
                    0x2 => self.i_and_8xy2(opcode),
                    0x3 => self.i_xor_8xy3(opcode),
                    0x4 => self.i_add_8xy4(opcode),
                    0x5 => self.i_sub_8xy5(opcode),
                    0x6 => self.i_shr_8xy6(opcode),
                    0x7 => self.i_subn_8xy7(opcode),
                    0xE => self.i_shl_8xye(opcode),
                    _ => {
                        self.pc += 2;
                    },
                }
                Ok(())
            },
            0x9 => {
                self.i_sne_9xy0(opcode);
                Ok(())
            },
            0xA => {
                self.i_ld_annn(opcode);
                Ok(())
            },
            0xB => {
                self.i_jp_bnnn(opcode);
                Ok(())
            },
            0xC => {
                self.i_rnd_cxkk(opcode, random);
                Ok(())
            },
            0xD => self.i_drw_dxyn(opcode),
            0xE => {
                match operand_kk(opcode) {
                    0x9E => self.i_skp_ex9e(opcode),
                    0xA1 => self.i_sknp_exa1(opcode),
                    _ => {
                        self.pc += 2;
                        Ok(())
                    },
                }
            },
            _ => {
                match operand_kk(opcode) {
                    0x07 => {
                        self.i_ld_fx07(opcode);
                        Ok(())
                    },
                    0x0A => {
                        self.i_ld_fx0a(opcode);
                        Ok(())
                    },
                    0x15 => {
                        self.i_ld_fx15(opcode);
                        Ok(())
                    },
                    0x18 => {
                        self.i_ld_fx18(opcode);
                        Ok(())
                    },
                    0x1E => {
                        self.i_add_fx1e(opcode);
                        Ok(())
                    },
                    0x29 => {
                        self.i_ld_fx29(opcode);
                        Ok(())
                    },
                    0x33 => self.i_ld_fx33(opcode),
                    0x55 => self.i_ld_fx55(opcode),
                    0x65 => self.i_ld_fx65(opcode),
                    _ => {
                        self.pc += 2;
                        Ok(())
                    },
                }
            },
        }
    }

    /// Whether the next cycle executes Cxkk and so uses a random byte.
    pub fn wants_random(&self) -> (wanted: bool)
        ensures
            wanted == self@.draws_random(),
    {
        if self.pc as usize + 1 >= 4096 {
            return false;
        }
        match self.mode {
            Mode::AwaitingKey(_) => false,
            Mode::Running => {
                let opcode = word(self.memory[self.pc as usize], self.memory[self.pc as usize + 1]);
                family(opcode) == 0xC
            },
        }
    }

    /// Runs the instruction part of one cycle, with `random` as the byte that Cxkk masks,
    /// and leaves the timers alone: a parked machine looks at the keypad, a running one
    /// fetches the instruction at the program counter and executes it. A fault is
    /// returned with the machine untouched.
    ///
    /// This is for a host that paces the timers by its own clock and calls
    /// [`Chip8_CPU::tick_timers`] when that clock says so.
    pub fn run_instruction(&mut self, random: u8) -> (done: Result<(), Fault>)
        requires
            old(self)@.wf(),
        ensures
            match done {
                Ok(_) => old(self)@.step_fault() is None && final(self)@ == old(self)@.step_instruction(
                    random,
                ),
                Err(fault) => old(self)@.step_fault() == Some(fault) && final(self)@ == old(self)@,
            },
            final(self)@.wf(),
    {
        if self.pc as usize + 1 >= 4096 {
            return Err(Fault::PcOutOfBounds { pc: self.pc });
        }
        match self.mode {
            Mode::AwaitingKey(x) => {
                self.wait_for_key(x as usize);
                Ok(())
            },
            Mode::Running => {
                let opcode = word(self.memory[self.pc as usize], self.memory[self.pc as usize + 1]);
                self.execute(opcode, random)
            },
        }
    }

    /// Runs one cycle with `random` as the byte that Cxkk masks.
    ///
    /// A parked machine looks at the keypad; a running one fetches the instruction at
    /// the program counter and executes it. Then the timers decay. A fault is returned
    /// with the machine untouched, and a key wait with no key down reports
    /// `Progress::AwaitingKey` without moving the program counter or the timers.
    pub fn step(&mut self, random: u8) -> (progress: Result<Progress, Fault>)
        requires
            old(self)@.wf(),
        ensures
            final(self)@ == old(self)@.step(random),
            progress == old(self)@.step_result(random),
            final(self)@.wf(),
    {
        match self.run_instruction(random) {
            Ok(_) => {},
            Err(fault) => {
                return Err(fault);
            },
        }
        match self.mode {
            Mode::AwaitingKey(_) => Ok(Progress::AwaitingKey),
            Mode::Running => {
                let tick = self.tick_timers();
                Ok(Progress::Executed(tick))
            },
        }
    }

    /// Runs one cycle, drawing the byte for Cxkk from the random generator when that is
    /// the instruction to execute.
    ///
    /// The cycle is the one that [`Chip8_CPU::step`] runs with the byte drawn. Where the
    /// instruction is not Cxkk nothing is drawn and the cycle is fully determined.
    pub fn cycle(&mut self) -> (progress: Result<Progress, Fault>)
        requires
            old(self)@.wf(),
        ensures
            exists|random: u8|
                final(self)@ == #[trigger] old(self)@.step(random) && progress == old(self)@.step_result(
                    random,
                ),
            !old(self)@.draws_random() ==> final(self)@ == old(self)@.step(0) && progress == old(
                self,
            )@.step_result(0),
            final(self)@.wf(),
    {
        let random: u8 = if self.wants_random() {
            random_byte()
        } else {
            0
        };
        self.step(random)
    }
}

} // verus!
