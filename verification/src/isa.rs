//! What each instruction does, as a function from one machine state to the next.
//!
//! Every function here is a specification. Operands are the decoded fields of the
//! instruction word: register numbers `x` and `y`, the byte `kk`, the address `nnn`.
//! None of them tests for a fault: the conditions under which an instruction is
//! refused are those of [`Machine::fault`].

use vstd::prelude::*;
use crate::font::GLYPH_BYTES;
use crate::machine::{Machine, Mode, TimerTick};

verus! {

/// The highest key below `below` that is down, if any is.
pub open spec fn highest_pressed(keys: Seq<bool>, below: int) -> Option<u8>
    decreases below,
{
    if below <= 0 {
        None
    } else if keys[below - 1] {
        Some((below - 1) as u8)
    } else {
        highest_pressed(keys, below - 1)
    }
}

/// Whether bit `col` of `byte`, counted from the most significant, is set.
pub open spec fn sprite_bit(byte: u8, col: int) -> bool {
    byte & (0x80u8 >> (col as u8)) != 0
}

impl Machine {
    /// The state with the program counter moved on by `by` bytes.
    pub open spec fn advance(self, by: int) -> Machine {
        Machine { pc: (self.pc + by) as u16, ..self }
    }

    /// The state past the next instruction too if `cond` holds, else past this one only.
    pub open spec fn skip_if(self, cond: bool) -> Machine {
        self.advance(
            if cond {
                4
            } else {
                2
            },
        )
    }

    /// The state with register `x` holding `value`.
    pub open spec fn with_v(self, x: int, value: u8) -> Machine {
        Machine { v: self.v.update(x, value), ..self }
    }

    /// The state with VF holding `flag` as 1 or 0 and then register `x` holding `value`.
    /// Where `x` is VF itself, `value` is what stays.
    pub open spec fn with_flag_and_v(self, flag: bool, x: int, value: u8) -> Machine {
        self.with_v(
            15,
            if flag {
                1u8
            } else {
                0u8
            },
        ).with_v(x, value)
    }

    /// 0nnn, but for 00E0 and 00EE: nothing but the step to the next instruction.
    pub open spec fn sys(self) -> Machine {
        self.advance(2)
    }

    /// 00E0: every pixel off, a redraw requested.
    pub open spec fn clear_screen(self) -> Machine {
        Machine { gfx: Seq::new(2048, |p: int| false), draw_flag: true, ..self }.advance(2)
    }

    /// 00EE: back to the instruction after the most recent call.
    pub open spec fn ret(self) -> Machine {
        Machine { pc: (self.stack.last() + 2) as u16, stack: self.stack.drop_last(), ..self }
    }

    /// 1nnn: on to `nnn`.
    pub open spec fn jump(self, nnn: u16) -> Machine {
        Machine { pc: nnn, ..self }
    }

    /// 2nnn: on to `nnn`, the address of this call kept on the stack.
    pub open spec fn call(self, nnn: u16) -> Machine {
        Machine { pc: nnn, stack: self.stack.push(self.pc), ..self }
    }

    /// 3xkk: skip if Vx is `kk`.
    pub open spec fn skip_eq_imm(self, x: int, kk: u8) -> Machine {
        self.skip_if(self.v[x] == kk)
    }

    /// 4xkk: skip if Vx is not `kk`.
    pub open spec fn skip_ne_imm(self, x: int, kk: u8) -> Machine {
        self.skip_if(self.v[x] != kk)
    }

    /// 5xy0: skip if Vx is Vy.
    pub open spec fn skip_eq_reg(self, x: int, y: int) -> Machine {
        self.skip_if(self.v[x] == self.v[y])
    }

    /// 9xy0: skip if Vx is not Vy.
    pub open spec fn skip_ne_reg(self, x: int, y: int) -> Machine {
        self.skip_if(self.v[x] != self.v[y])
    }

    /// 6xkk: Vx becomes `kk`.
    pub open spec fn load_imm(self, x: int, kk: u8) -> Machine {
        self.with_v(x, kk).advance(2)
    }

    /// 7xkk: Vx becomes Vx + `kk` modulo 256; VF is left alone.
    pub open spec fn add_imm(self, x: int, kk: u8) -> Machine {
        self.with_v(x, ((self.v[x] + kk) % 256) as u8).advance(2)
    }

    /// 8xy0: Vx becomes Vy.
    pub open spec fn load_reg(self, x: int, y: int) -> Machine {
        self.with_v(x, self.v[y]).advance(2)
    }

    /// 8xy1: Vx becomes Vx or Vy, bit by bit.
    pub open spec fn or_reg(self, x: int, y: int) -> Machine {
        self.with_v(x, self.v[x] | self.v[y]).advance(2)
    }

    /// 8xy2: Vx becomes Vx and Vy, bit by bit.
    pub open spec fn and_reg(self, x: int, y: int) -> Machine {
        self.with_v(x, self.v[x] & self.v[y]).advance(2)
    }

    /// 8xy3: Vx becomes Vx exclusive-or Vy, bit by bit.
    pub open spec fn xor_reg(self, x: int, y: int) -> Machine {
        self.with_v(x, self.v[x] ^ self.v[y]).advance(2)
    }

    /// 8xy4: VF tells whether Vx + Vy exceeds 255, Vx becomes the sum modulo 256.
    pub open spec fn add_reg(self, x: int, y: int) -> Machine {
        let sum = self.v[x] + self.v[y];
        self.with_flag_and_v(sum > 255, x, (sum % 256) as u8).advance(2)
    }

    /// 8xy5: VF tells whether Vx exceeds Vy, Vx becomes Vx - Vy modulo 256.
    pub open spec fn sub_reg(self, x: int, y: int) -> Machine {
        self.with_flag_and_v(self.v[x] > self.v[y], x, ((self.v[x] - self.v[y]) % 256) as u8).advance(
            2,
        )
    }

    /// 8xy6: VF takes the lowest bit of Vx, Vx is halved.
    pub open spec fn shift_right(self, x: int) -> Machine {
        self.with_flag_and_v(self.v[x] % 2 == 1, x, (self.v[x] / 2) as u8).advance(2)
    }

    /// 8xy7: VF tells whether Vy exceeds Vx, Vx becomes Vy - Vx modulo 256.
    pub open spec fn subn_reg(self, x: int, y: int) -> Machine {
        self.with_flag_and_v(self.v[y] > self.v[x], x, ((self.v[y] - self.v[x]) % 256) as u8).advance(
            2,
        )
    }

    /// 8xyE: VF takes the highest bit of Vx, Vx is doubled modulo 256.
    pub open spec fn shift_left(self, x: int) -> Machine {
        self.with_flag_and_v(self.v[x] >= 128, x, ((self.v[x] * 2) % 256) as u8).advance(2)
    }

    /// Annn: I becomes `nnn`.
    pub open spec fn load_index(self, nnn: u16) -> Machine {
        Machine { i: nnn, ..self }.advance(2)
    }

    /// Bnnn: on to `nnn` + V0.
    pub open spec fn jump_offset(self, nnn: u16) -> Machine {
        Machine { pc: (nnn + self.v[0]) as u16, ..self }
    }

    /// Cxkk: Vx becomes the random byte `byte` masked by `kk`.
    pub open spec fn random(self, x: int, kk: u8, byte: u8) -> Machine {
        self.with_v(x, byte & kk).advance(2)
    }

    /// Whether the sprite of `n` rows at I, drawn with its top left corner at `(x, y)`,
    /// has a set bit on pixel `p`. Columns wrap at 64 and rows at 32.
    pub open spec fn sprite_hits(self, x: int, y: int, n: int, p: int) -> bool {
        let col = (p % 64 - x) % 64;
        let row = (p / 64 - y) % 32;
        col < 8 && row < n && sprite_bit(self.memory[self.i + row], col)
    }

    /// Whether that sprite has a set bit on a pixel that is on.
    pub open spec fn sprite_collides(self, x: int, y: int, n: int) -> bool {
        exists|p: int| 0 <= p < 2048 && self.gfx[p] && #[trigger] self.sprite_hits(x, y, n, p)
    }

    /// The screen after that sprite is drawn: each pixel under a set bit is flipped.
    pub open spec fn blit(self, x: int, y: int, n: int) -> Seq<bool> {
        Seq::new(2048, |p: int| self.gfx[p] != self.sprite_hits(x, y, n, p))
    }

    /// Dxyn: the sprite of `n` rows at I is drawn at `(Vx, Vy)`, VF tells whether a pixel
    /// went off, a redraw is requested.
    pub open spec fn draw(self, x: int, y: int, n: int) -> Machine {
        let px = self.v[x] as int;
        let py = self.v[y] as int;
        Machine {
            gfx: self.blit(px, py, n),
            v: self.v.update(
                15,
                if self.sprite_collides(px, py, n) {
                    1u8
                } else {
                    0u8
                },
            ),
            draw_flag: true,
            ..self
        }.advance(2)
    }

    /// Ex9E: skip if the key named by Vx is down.
    pub open spec fn skip_key(self, x: int) -> Machine {
        self.skip_if(self.keys[self.v[x] as int])
    }

    /// ExA1: skip if the key named by Vx is up.
    pub open spec fn skip_not_key(self, x: int) -> Machine {
        self.skip_if(!self.keys[self.v[x] as int])
    }

    /// Fx07: Vx becomes the delay timer.
    pub open spec fn get_delay(self, x: int) -> Machine {
        self.with_v(x, self.dt).advance(2)
    }

    /// The highest key that is down, if any is.
    pub open spec fn pressed_key(self) -> Option<u8> {
        highest_pressed(self.keys, 16)
    }

    /// Fx0A: with a key down, Vx becomes the highest such key and the machine runs on;
    /// with none, the machine parks where it stands.
    pub open spec fn wait_key(self, x: int) -> Machine {
        match self.pressed_key() {
            Some(key) => Machine { mode: Mode::Running, ..self.with_v(x, key).advance(2) },
            None => Machine { mode: Mode::AwaitingKey(x as u8), ..self },
        }
    }

    /// Fx15: the delay timer becomes Vx.
    pub open spec fn set_delay(self, x: int) -> Machine {
        Machine { dt: self.v[x], ..self }.advance(2)
    }

    /// Fx18: the sound timer becomes Vx.
    pub open spec fn set_sound(self, x: int) -> Machine {
        Machine { st: self.v[x], ..self }.advance(2)
    }

    /// Fx1E: I becomes I + Vx modulo 65536.
    pub open spec fn add_index(self, x: int) -> Machine {
        Machine { i: ((self.i + self.v[x]) % 65536) as u16, ..self }.advance(2)
    }

    /// Fx29: I becomes the address of the glyph of Vx.
    pub open spec fn font_addr(self, x: int) -> Machine {
        Machine { i: (GLYPH_BYTES * self.v[x]) as u16, ..self }.advance(2)
    }

    /// Fx33: the hundreds, tens and ones of Vx go to memory at I, I + 1 and I + 2.
    pub open spec fn store_bcd(self, x: int) -> Machine {
        let value = self.v[x] as int;
        let base = self.i as int;
        Machine {
            memory: self.memory.update(base, (value / 100) as u8).update(
                base + 1,
                ((value / 10) % 10) as u8,
            ).update(base + 2, (value % 10) as u8),
            ..self
        }.advance(2)
    }

    /// Fx55: V0 to Vx go to memory at I to I + x.
    pub open spec fn store_regs(self, x: int) -> Machine {
        Machine {
            memory: Seq::new(
                4096,
                |a: int| if self.i <= a <= self.i + x { self.v[a - self.i] } else { self.memory[a] },
            ),
            ..self
        }.advance(2)
    }

    /// Fx65: V0 to Vx come from memory at I to I + x.
    pub open spec fn load_regs(self, x: int) -> Machine {
        Machine {
            v: Seq::new(16, |r: int| if r <= x { self.memory[self.i + r] } else { self.v[r] }),
            ..self
        }.advance(2)
    }

    /// A return finds no address to go back to.
    pub open spec fn stack_empty(self) -> bool {
        self.stack.len() == 0
    }

    /// A call finds no room for its return address.
    pub open spec fn stack_full(self) -> bool {
        self.stack.len() >= 16
    }

    /// A sprite of `n` rows at I does not lie inside memory.
    pub open spec fn sprite_outside(self, n: int) -> bool {
        n > 0 && self.i + n > 4096
    }

    /// Vx names no key of the keypad.
    pub open spec fn key_missing(self, x: int) -> bool {
        self.v[x] >= 16
    }

    /// The three bytes at I do not lie inside memory.
    pub open spec fn bcd_outside(self) -> bool {
        self.i + 2 >= 4096
    }

    /// The bytes at I to I + x do not lie inside memory.
    pub open spec fn regs_outside(self, x: int) -> bool {
        self.i + x >= 4096
    }

    /// The state after the timers decayed: each timer above zero is one less.
    pub open spec fn tick(self) -> Machine {
        Machine {
            dt: if self.dt > 0 { (self.dt - 1) as u8 } else { 0 },
            st: if self.st > 0 { (self.st - 1) as u8 } else { 0 },
            ..self
        }
    }

    /// What that decay reports to the host.
    pub open spec fn tick_report(self) -> TimerTick {
        TimerTick { delay_ran: self.dt > 0, sound_ran: self.st > 0, sound_stopped: self.st == 1 }
    }
}

} // verus!
