//! The instructions, one function each.
//!
//! Each takes the instruction word, reads its operands from it and changes the machine
//! as the function of the same purpose in [`crate::isa`] says. An instruction that can
//! be refused returns the fault and then leaves the machine untouched.

use vstd::prelude::*;
use crate::cpu::Chip8_CPU;
use crate::font::GLYPH_BYTES;
use crate::machine::Fault;
use crate::opcode::{kk_of, nnn_of, operand_kk, operand_nnn, operand_x, operand_y, x_of, y_of};

verus! {

impl Chip8_CPU {
    /// 0nnn: does nothing and goes on to the next instruction.
    pub fn i_sys_0nnn(&mut self, opcode: u16)
        requires
            old(self)@.wf(),
            old(self)@.can_fetch(),
        ensures
            final(self)@ == old(self)@.sys(),
            final(self)@.wf(),
    {
        self.pc += 2;
    }

    /// 00E0: clears the screen and asks for a redraw.
    pub fn i_clr_00e0(&mut self, opcode: u16)
        requires
            old(self)@.wf(),
            old(self)@.can_fetch(),
        ensures
            final(self)@ == old(self)@.clear_screen(),
            final(self)@.wf(),
    {
        self.gfx = [false; 2048];
        self.draw_flag = true;
        self.pc += 2;
    }

    /// 00EE: returns to the instruction after the most recent call. With an empty stack
    /// the return is refused.
    pub fn i_ret_00ee(&mut self, opcode: u16) -> (done: Result<(), Fault>)
        requires
            old(self)@.wf(),
        ensures
            match done {
                Ok(_) => !old(self)@.stack_empty() && final(self)@ == old(self)@.ret(),
                Err(fault) => old(self)@.stack_empty() && final(self)@ == old(self)@ && fault == (
                Fault::StackUnderflow { pc: old(self).pc, opcode }),
            },
            final(self)@.wf(),
    {
        match self.stack.pop() {
            Some(address) => {
                self.pc = address + 2;
                Ok(())
            },
            None => Err(Fault::StackUnderflow { pc: self.pc, opcode }),
        }
    }

    /// 1nnn: jumps to `nnn`.
    pub fn i_jp_1nnn(&mut self, opcode: u16)
        requires
            old(self)@.wf(),
        ensures
            final(self)@ == old(self)@.jump(nnn_of(opcode)),
            final(self)@.wf(),
    {
        let addr: u16 = operand_nnn(opcode);
        self.pc = addr;
    }

    /// 2nnn: calls the subroutine at `nnn`, keeping the address of the call on the stack.
    /// With sixteen calls in progress the call is refused.
    pub fn i_call_2nnn(&mut self, opcode: u16) -> (done: Result<(), Fault>)
        requires
            old(self)@.wf(),
            old(self)@.can_fetch(),
        ensures
            match done {
                Ok(_) => !old(self)@.stack_full() && final(self)@ == old(self)@.call(nnn_of(opcode)),
                Err(fault) => old(self)@.stack_full() && final(self)@ == old(self)@ && fault == (
                Fault::StackOverflow { pc: old(self).pc, opcode }),
            },
            final(self)@.wf(),
    {
        if self.stack.len() >= 16 {
            return Err(Fault::StackOverflow { pc: self.pc, opcode });
        }
        let addr: u16 = operand_nnn(opcode);
        self.stack.push(self.pc);
        self.pc = addr;
        Ok(())
    }

    /// 3xkk: skips the next instruction if Vx equals `kk`.
    pub fn i_se_3xkk(&mut self, opcode: u16)
        requires
            old(self)@.wf(),
            old(self)@.can_fetch(),
        ensures
            final(self)@ == old(self)@.skip_eq_imm(x_of(opcode), kk_of(opcode)),
            final(self)@.wf(),
    {
        let x: usize = operand_x(opcode);
        let kk: u8 = operand_kk(opcode);
        if self.v[x] == kk {
            self.pc += 2;
        }
        self.pc += 2;
    }

    /// 4xkk: skips the next instruction if Vx differs from `kk`.
    pub fn i_sne_4xkk(&mut self, opcode: u16)
        requires
            old(self)@.wf(),
            old(self)@.can_fetch(),
        ensures
            final(self)@ == old(self)@.skip_ne_imm(x_of(opcode), kk_of(opcode)),
            final(self)@.wf(),
    {
        let x: usize = operand_x(opcode);
        let kk: u8 = operand_kk(opcode);
        if self.v[x] != kk {
            self.pc += 2;
        }
        self.pc += 2;
    }

    /// 5xy0: skips the next instruction if Vx equals Vy.
    pub fn i_se_5xy0(&mut self, opcode: u16)
        requires
            old(self)@.wf(),
            old(self)@.can_fetch(),
        ensures
            final(self)@ == old(self)@.skip_eq_reg(x_of(opcode), y_of(opcode)),
            final(self)@.wf(),
    {
        let x: usize = operand_x(opcode);
        let y: usize = operand_y(opcode);
        if self.v[x] == self.v[y] {
            self.pc += 2;
        }
        self.pc += 2;
    }

    /// 6xkk: sets Vx to `kk`.
    pub fn i_ld_6xkk(&mut self, opcode: u16)
        requires
            old(self)@.wf(),
            old(self)@.can_fetch(),
        ensures
            final(self)@ == old(self)@.load_imm(x_of(opcode), kk_of(opcode)),
            final(self)@.wf(),
    {
        let x: usize = operand_x(opcode);
        let kk: u8 = operand_kk(opcode);
        self.v[x] = kk;
        self.pc += 2;
    }

    /// 7xkk: adds `kk` to Vx, wrapping at 256 and leaving VF alone.
    pub fn i_add_7xkk(&mut self, opcode: u16)
        requires
            old(self)@.wf(),
            old(self)@.can_fetch(),
        ensures
            final(self)@ == old(self)@.add_imm(x_of(opcode), kk_of(opcode)),
            final(self)@.wf(),
    {
        let x: usize = operand_x(opcode);
        let kk: u8 = operand_kk(opcode);
        self.v[x] = self.v[x].wrapping_add(kk);
        self.pc += 2;
    }

    /// 8xy0: copies Vy to Vx.
    pub fn i_ld_8xy0(&mut self, opcode: u16)
        requires
            old(self)@.wf(),
            old(self)@.can_fetch(),
        ensures
            final(self)@ == old(self)@.load_reg(x_of(opcode), y_of(opcode)),
            final(self)@.wf(),
    {
        let x: usize = operand_x(opcode);
        let y: usize = operand_y(opcode);
        self.v[x] = self.v[y];
        self.pc += 2;
    }

    /// 8xy1: sets Vx to Vx or Vy.
    pub fn i_or_8xy1(&mut self, opcode: u16)
        requires
            old(self)@.wf(),
            old(self)@.can_fetch(),
        ensures
            final(self)@ == old(self)@.or_reg(x_of(opcode), y_of(opcode)),
            final(self)@.wf(),
    {
        let x: usize = operand_x(opcode);
        let y: usize = operand_y(opcode);
        self.v[x] = self.v[x] | self.v[y];
        self.pc += 2;
    }

    /// 8xy2: sets Vx to Vx and Vy.
    pub fn i_and_8xy2(&mut self, opcode: u16)
        requires
            old(self)@.wf(),
            old(self)@.can_fetch(),
        ensures
            final(self)@ == old(self)@.and_reg(x_of(opcode), y_of(opcode)),
            final(self)@.wf(),
    {
        let x: usize = operand_x(opcode);
        let y: usize = operand_y(opcode);
        self.v[x] = self.v[x] & self.v[y];
        self.pc += 2;
    }

    /// 8xy3: sets Vx to Vx exclusive-or Vy.
    pub fn i_xor_8xy3(&mut self, opcode: u16)
        requires
            old(self)@.wf(),
            old(self)@.can_fetch(),
        ensures
            final(self)@ == old(self)@.xor_reg(x_of(opcode), y_of(opcode)),
            final(self)@.wf(),
    {
        let x: usize = operand_x(opcode);
        let y: usize = operand_y(opcode);
        self.v[x] = self.v[x] ^ self.v[y];
        self.pc += 2;
    }

    /// 8xy4: adds Vy to Vx. VF becomes 1 if the sum exceeds 255 and 0 if not, then Vx
    /// becomes the sum modulo 256.
    pub fn i_add_8xy4(&mut self, opcode: u16)
        requires
            old(self)@.wf(),
            old(self)@.can_fetch(),
        ensures
            final(self)@ == old(self)@.add_reg(x_of(opcode), y_of(opcode)),
            final(self)@.wf(),
    {
        let x: usize = operand_x(opcode);
        let y: usize = operand_y(opcode);
        let result: u16 = self.v[x] as u16 + self.v[y] as u16;
        assert(result & 0xFF == result % 256) by (bit_vector);
        self.v[15] = if result > 255 {
            1
        } else {
            0
        };
        self.v[x] = (result & 0xFF) as u8;
        self.pc += 2;
    }

    /// 8xy5: subtracts Vy from Vx. VF becomes 1 if Vx exceeds Vy and 0 if not, then Vx
    /// becomes the difference modulo 256.
    pub fn i_sub_8xy5(&mut self, opcode: u16)
        requires
            old(self)@.wf(),
            old(self)@.can_fetch(),
        ensures
            final(self)@ == old(self)@.sub_reg(x_of(opcode), y_of(opcode)),
            final(self)@.wf(),
    {
        let x: usize = operand_x(opcode);
        let y: usize = operand_y(opcode);
        let vx: u8 = self.v[x];
        let vy: u8 = self.v[y];
        self.v[15] = if vx > vy {
            1
        } else {
            0
        };
        self.v[x] = vx.wrapping_sub(vy);
        self.pc += 2;
    }

    /// 8xy6: shifts Vx right by one bit. VF becomes the bit shifted out.
    pub fn i_shr_8xy6(&mut self, opcode: u16)
        requires
            old(self)@.wf(),
            old(self)@.can_fetch(),
        ensures
            final(self)@ == old(self)@.shift_right(x_of(opcode)),
            final(self)@.wf(),
    {
        let x: usize = operand_x(opcode);
        let vx: u8 = self.v[x];
        assert(vx & 0x01 == vx % 2 && vx >> 1 == vx / 2) by (bit_vector);
        self.v[15] = vx & 0x01;
        self.v[x] = vx >> 1;
        self.pc += 2;
    }

    /// 8xy7: sets Vx to Vy minus Vx. VF becomes 1 if Vy exceeds Vx and 0 if not, then Vx
    /// becomes the difference modulo 256.
    pub fn i_subn_8xy7(&mut self, opcode: u16)
        requires
            old(self)@.wf(),
            old(self)@.can_fetch(),
        ensures
            final(self)@ == old(self)@.subn_reg(x_of(opcode), y_of(opcode)),
            final(self)@.wf(),
    {
        let x: usize = operand_x(opcode);
        let y: usize = operand_y(opcode);
        let vx: u8 = self.v[x];
        let vy: u8 = self.v[y];
        self.v[15] = if vy > vx {
            1
        } else {
            0
        };
        self.v[x] = vy.wrapping_sub(vx);
        self.pc += 2;
    }

    /// 8xyE: shifts Vx left by one bit. VF becomes the bit shifted out.
    pub fn i_shl_8xye(&mut self, opcode: u16)
        requires
            old(self)@.wf(),
            old(self)@.can_fetch(),
        ensures
            final(self)@ == old(self)@.shift_left(x_of(opcode)),
            final(self)@.wf(),
    {
        let x: usize = operand_x(opcode);
        let vx: u8 = self.v[x];
        assert(vx >> 7 == (if vx >= 128 { 1u8 } else { 0u8 }) && vx << 1 == (vx * 2) % 256) by (bit_vector);
        self.v[15] = vx >> 7;
        self.v[x] = vx << 1;
        self.pc += 2;
    }

    /// 9xy0: skips the next instruction if Vx differs from Vy.
    pub fn i_sne_9xy0(&mut self, opcode: u16)
        requires
            old(self)@.wf(),
            old(self)@.can_fetch(),
        ensures
            final(self)@ == old(self)@.skip_ne_reg(x_of(opcode), y_of(opcode)),
            final(self)@.wf(),
    {
        let x: usize = operand_x(opcode);
        let y: usize = operand_y(opcode);
        if self.v[x] != self.v[y] {
            self.pc += 2;
        }
        self.pc += 2;
    }

    /// Annn: sets I to `nnn`.
    pub fn i_ld_annn(&mut self, opcode: u16)
        requires
            old(self)@.wf(),
            old(self)@.can_fetch(),
        ensures
            final(self)@ == old(self)@.load_index(nnn_of(opcode)),
            final(self)@.wf(),
    {
        let addr: u16 = operand_nnn(opcode);
        self.i = addr;
        self.pc += 2;
    }

    /// Bnnn: jumps to `nnn` plus V0.
    pub fn i_jp_bnnn(&mut self, opcode: u16)
        requires
            old(self)@.wf(),
        ensures
            final(self)@ == old(self)@.jump_offset(nnn_of(opcode)),
            final(self)@.wf(),
    {
        let addr: u16 = operand_nnn(opcode);
        self.pc = addr + self.v[0] as u16;
    }

    /// Cxkk: sets Vx to `random` masked by `kk`. The caller draws `random`.
    pub fn i_rnd_cxkk(&mut self, opcode: u16, random: u8)
        requires
            old(self)@.wf(),
            old(self)@.can_fetch(),
        ensures
            final(self)@ == old(self)@.random(x_of(opcode), kk_of(opcode), random),
            final(self)@.wf(),
    {
        let x: usize = operand_x(opcode);
        let kk: u8 = operand_kk(opcode);
        self.v[x] = random & kk;
        self.pc += 2;
    }

    /// Ex9E: skips the next instruction if the key named by Vx is down. A Vx above 15
    /// names no key and is refused.
    pub fn i_skp_ex9e(&mut self, opcode: u16) -> (done: Result<(), Fault>)
        requires
            old(self)@.wf(),
            old(self)@.can_fetch(),
        ensures
            match done {
                Ok(_) => !old(self)@.key_missing(x_of(opcode)) && final(self)@ == old(self)@.skip_key(
                    x_of(opcode),
                ),
                Err(fault) => old(self)@.key_missing(x_of(opcode)) && final(self)@ == old(self)@ && fault
                    == (Fault::KeyOutOfRange { pc: old(self).pc, opcode }),
            },
            final(self)@.wf(),
    {
        let x: usize = operand_x(opcode);
        let vx: u8 = self.v[x];
        if vx >= 16 {
            return Err(Fault::KeyOutOfRange { pc: self.pc, opcode });
        }
        if self.keys[vx as usize] {
            self.pc += 2;
        }
        self.pc += 2;
        Ok(())
    }

    /// ExA1: skips the next instruction if the key named by Vx is up. A Vx above 15
    /// names no key and is refused.
    pub fn i_sknp_exa1(&mut self, opcode: u16) -> (done: Result<(), Fault>)
        requires
            old(self)@.wf(),
            old(self)@.can_fetch(),
        ensures
            match done {
                Ok(_) => !old(self)@.key_missing(x_of(opcode)) && final(self)@ == old(
                    self,
                )@.skip_not_key(x_of(opcode)),
                Err(fault) => old(self)@.key_missing(x_of(opcode)) && final(self)@ == old(self)@ && fault
                    == (Fault::KeyOutOfRange { pc: old(self).pc, opcode }),
            },
            final(self)@.wf(),
    {
        let x: usize = operand_x(opcode);
        let vx: u8 = self.v[x];
        if vx >= 16 {
            return Err(Fault::KeyOutOfRange { pc: self.pc, opcode });
        }
        if !self.keys[vx as usize] {
            self.pc += 2;
        }
        self.pc += 2;
        Ok(())
    }

    /// Fx07: copies the delay timer to Vx.
    pub fn i_ld_fx07(&mut self, opcode: u16)
        requires
            old(self)@.wf(),
            old(self)@.can_fetch(),
        ensures
            final(self)@ == old(self)@.get_delay(x_of(opcode)),
            final(self)@.wf(),
    {
        let x: usize = operand_x(opcode);
        self.v[x] = self.dt;
        self.pc += 2;
    }

    /// Fx15: sets the delay timer to Vx.
    pub fn i_ld_fx15(&mut self, opcode: u16)
        requires
            old(self)@.wf(),
            old(self)@.can_fetch(),
        ensures
            final(self)@ == old(self)@.set_delay(x_of(opcode)),
            final(self)@.wf(),
    {
        let x: usize = operand_x(opcode);
        self.dt = self.v[x];
        self.pc += 2;
    }

    /// Fx18: sets the sound timer to Vx.
    pub fn i_ld_fx18(&mut self, opcode: u16)
        requires
            old(self)@.wf(),
            old(self)@.can_fetch(),
        ensures
            final(self)@ == old(self)@.set_sound(x_of(opcode)),
            final(self)@.wf(),
    {
        let x: usize = operand_x(opcode);
        self.st = self.v[x];
        self.pc += 2;
    }

    /// Fx1E: adds Vx to I, wrapping at 65536 and touching no flag.
    pub fn i_add_fx1e(&mut self, opcode: u16)
        requires
            old(self)@.wf(),
            old(self)@.can_fetch(),
        ensures
            final(self)@ == old(self)@.add_index(x_of(opcode)),
            final(self)@.wf(),
    {
        let x: usize = operand_x(opcode);
        self.i = self.i.wrapping_add(self.v[x] as u16);
        self.pc += 2;
    }

    /// Fx29: points I at the glyph of the digit in Vx: five bytes for each digit below it.
    pub fn i_ld_fx29(&mut self, opcode: u16)
        requires
            old(self)@.wf(),
            old(self)@.can_fetch(),
        ensures
            final(self)@ == old(self)@.font_addr(x_of(opcode)),
            final(self)@.wf(),
    {
        let x: usize = operand_x(opcode);
        self.i = GLYPH_BYTES * (self.v[x] as u16);
        self.pc += 2;
    }

    /// Fx33: writes the three decimal digits of Vx to memory at I, I + 1 and I + 2. The
    /// store is refused if those bytes do not all lie inside memory.
    pub fn i_ld_fx33(&mut self, opcode: u16) -> (done: Result<(), Fault>)
        requires
            old(self)@.wf(),
            old(self)@.can_fetch(),
        ensures
            match done {
                Ok(_) => !old(self)@.bcd_outside() && final(self)@ == old(self)@.store_bcd(x_of(opcode)),
                Err(fault) => old(self)@.bcd_outside() && final(self)@ == old(self)@ && fault == (
                Fault::MemoryOutOfBounds { pc: old(self).pc, opcode }),
            },
            final(self)@.wf(),
    {
        let x: usize = operand_x(opcode);
        let vx: u8 = self.v[x];
        let base: usize = self.i as usize;
        if base + 2 >= 4096 {
            return Err(Fault::MemoryOutOfBounds { pc: self.pc, opcode });
        }
        self.memory[base] = vx / 100;
        self.memory[base + 1] = (vx / 10) % 10;
        self.memory[base + 2] = vx % 10;
        self.pc += 2;
        Ok(())
    }

    /// Fx55: copies V0 to Vx to memory at I to I + x; I stays. The store is refused if
    /// those bytes do not all lie inside memory.
    pub fn i_ld_fx55(&mut self, opcode: u16) -> (done: Result<(), Fault>)
        requires
            old(self)@.wf(),
            old(self)@.can_fetch(),
        ensures
            match done {
                Ok(_) => !old(self)@.regs_outside(x_of(opcode)) && final(self)@ == old(
                    self,
                )@.store_regs(x_of(opcode)),
                Err(fault) => old(self)@.regs_outside(x_of(opcode)) && final(self)@ == old(self)@
                    && fault == (Fault::MemoryOutOfBounds { pc: old(self).pc, opcode }),
            },
            final(self)@.wf(),
    {
        let x: usize = operand_x(opcode);
        let base: usize = self.i as usize;
        if base + x >= 4096 {
            return Err(Fault::MemoryOutOfBounds { pc: self.pc, opcode });
        }
        let mut r: usize = 0;
        while r <= x
            invariant
                r <= x + 1,
                x < 16,
                base == old(self).i,
                base + x < 4096,
                forall|a: int| base <= a < base + r ==> self.memory@[a] == old(self).v@[a - base],
                forall|a: int|
                    0 <= a < 4096 && !(base <= a < base + r) ==> self.memory@[a] == old(self).memory@[a],
                self.v@ == old(self).v@,
                self.keys@ == old(self).keys@,
                self.gfx@ == old(self).gfx@,
                self.stack@ == old(self).stack@,
                self.i == old(self).i,
                self.pc == old(self).pc,
                self.dt == old(self).dt,
                self.st == old(self).st,
                self.draw_flag == old(self).draw_flag,
                self.mode == old(self).mode,
            decreases x + 1 - r,
        {
            self.memory[base + r] = self.v[r];
            r += 1;
        }
        self.pc += 2;
        Ok(())
    }

    /// Fx65: copies memory at I to I + x to V0 to Vx; I stays. The load is refused if
    /// those bytes do not all lie inside memory.
    pub fn i_ld_fx65(&mut self, opcode: u16) -> (done: Result<(), Fault>)
        requires
            old(self)@.wf(),
            old(self)@.can_fetch(),
        ensures
            match done {
                Ok(_) => !old(self)@.regs_outside(x_of(opcode)) && final(self)@ == old(self)@.load_regs(
                    x_of(opcode),
                ),
                Err(fault) => old(self)@.regs_outside(x_of(opcode)) && final(self)@ == old(self)@
                    && fault == (Fault::MemoryOutOfBounds { pc: old(self).pc, opcode }),
            },
            final(self)@.wf(),
    {
        let x: usize = operand_x(opcode);
        let base: usize = self.i as usize;
        if base + x >= 4096 {
            return Err(Fault::MemoryOutOfBounds { pc: self.pc, opcode });
        }
        let mut r: usize = 0;
        while r <= x
            invariant
                r <= x + 1,
                x < 16,
                base == old(self).i,
                base + x < 4096,
                forall|k: int| 0 <= k < r ==> self.v@[k] == old(self).memory@[base + k],
                forall|k: int| r <= k < 16 ==> self.v@[k] == old(self).v@[k],
                self.memory@ == old(self).memory@,
                self.keys@ == old(self).keys@,
                self.gfx@ == old(self).gfx@,
                self.stack@ == old(self).stack@,
                self.i == old(self).i,
                self.pc == old(self).pc,
                self.dt == old(self).dt,
                self.st == old(self).st,
                self.draw_flag == old(self).draw_flag,
                self.mode == old(self).mode,
            decreases x + 1 - r,
        {
            self.v[r] = self.memory[base + r];
            r += 1;
        }
        self.pc += 2;
        Ok(())
    }
}

} // verus!
