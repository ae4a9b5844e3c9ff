//! Drawing: the sprite instruction and the points that the host plots.

use vstd::prelude::*;
use crate::cpu::Chip8_CPU;
use crate::isa::sprite_bit;
use crate::machine::{Fault, Machine};
use crate::opcode::{n_of, operand_n, operand_x, operand_y, x_of, y_of};

verus! {

/// Whether bit `col` of `byte`, counted from the most significant, is set.
pub fn bit_at(byte: u8, col: u8) -> (set: bool)
    requires
        col < 8,
    ensures
        set == sprite_bit(byte, col as int),
{
    byte & (0x80u8 >> col) != 0
}

/// Side of the square of points that the host plots for one pixel: its surface is this
/// many times as wide and as high as the screen.
pub const PIXEL_SCALE: i32 = 5;

/// The points of the square that stands for pixel `(px, py)`, column by column and each
/// column from its top.
pub open spec fn block_points(px: int, py: int) -> Seq<(i32, i32)> {
    Seq::new(
        (PIXEL_SCALE * PIXEL_SCALE) as nat,
        |k: int|
            ((k / (PIXEL_SCALE as int) + PIXEL_SCALE * px) as i32, (k % (PIXEL_SCALE as int) + PIXEL_SCALE
                * py) as i32),
    )
}

/// The points of the pixels that are on among the first `upto` of `gfx`, pixel after
/// pixel.
pub open spec fn points_before(gfx: Seq<bool>, upto: int) -> Seq<(i32, i32)>
    decreases upto,
{
    if upto <= 0 {
        Seq::empty()
    } else if gfx[upto - 1] {
        points_before(gfx, upto - 1) + block_points((upto - 1) % 64, (upto - 1) / 64)
    } else {
        points_before(gfx, upto - 1)
    }
}

impl Machine {
    /// The points that show the screen on a surface `PIXEL_SCALE` times as wide and as
    /// high: the square of each pixel that is on, the pixels taken row by row.
    pub open spec fn lit_points(self) -> Seq<(i32, i32)> {
        points_before(self.gfx, 2048)
    }
}

/// Whether the sprite of `m` at `(x, y)` has a set bit on pixel `p` in the part drawn
/// before row `rows`, column `cols`: the rows above `rows`, and of row `rows` the
/// columns left of `cols`.
spec fn hits_before(m: Machine, x: int, y: int, rows: int, cols: int, p: int) -> bool {
    let col = (p % 64 - x) % 64;
    let row = (p / 64 - y) % 32;
    col < 8 && (row < rows || (row == rows && col < cols)) && sprite_bit(m.memory[m.i + row], col)
}

/// Whether that part of the sprite has a set bit on a pixel that is on.
spec fn collides_before(m: Machine, x: int, y: int, rows: int, cols: int) -> bool {
    exists|p: int| 0 <= p < 2048 && m.gfx[p] && #[trigger] hits_before(m, x, y, rows, cols, p)
}

/// The pixel under column `i` of row `j` of a sprite at `(x, y)` lies on the screen, and
/// the sprite reaches it by that column and row.
proof fn lemma_pixel_under(x: int, y: int, i: int, j: int)
    requires
        0 <= x < 256,
        0 <= y < 256,
        0 <= i < 8,
        0 <= j < 16,
    ensures
        0 <= (x + i) % 64 + ((y + j) % 32) * 64 < 2048,
        (((x + i) % 64 + ((y + j) % 32) * 64) % 64 - x) % 64 == i,
        (((x + i) % 64 + ((y + j) % 32) * 64) / 64 - y) % 32 == j,
{
}

/// A pixel that column `i` of row `j` of a sprite at `(x, y)` reaches is the pixel under
/// that column and row.
proof fn lemma_pixel_alone(x: int, y: int, i: int, j: int, p: int)
    requires
        0 <= x < 256,
        0 <= y < 256,
        0 <= i < 8,
        0 <= j < 16,
        0 <= p < 2048,
        (p % 64 - x) % 64 == i,
        (p / 64 - y) % 32 == j,
    ensures
        p == (x + i) % 64 + ((y + j) % 32) * 64,
{
}

impl Chip8_CPU {
    /// Dxyn: draws the sprite of `n` rows that memory holds at I with its top left corner
    /// at `(Vx, Vy)`. Each set bit flips the pixel under it, columns wrapping at 64 and
    /// rows at 32. VF becomes 1 if a pixel went off and 0 if none did, and a redraw is
    /// requested. The draw is refused if the sprite does not lie inside memory.
    pub fn i_drw_dxyn(&mut self, opcode: u16) -> (done: Result<(), Fault>)
        requires
            old(self)@.wf(),
            old(self)@.can_fetch(),
        ensures
            match done {
                Ok(_) => !old(self)@.sprite_outside(n_of(opcode)) && final(self)@ == old(self)@.draw(
                    x_of(opcode),
                    y_of(opcode),
                    n_of(opcode),
                ),
                Err(fault) => old(self)@.sprite_outside(n_of(opcode)) && final(self)@ == old(self)@
                    && fault == (Fault::MemoryOutOfBounds { pc: old(self).pc, opcode }),
            },
            final(self)@.wf(),
    {
        let x: u16 = self.v[operand_x(opcode)] as u16;
        let y: u16 = self.v[operand_y(opcode)] as u16;
        let n: u16 = operand_n(opcode);
        if n > 0 && self.i as usize + n as usize > 4096 {
            return Err(Fault::MemoryOutOfBounds { pc: self.pc, opcode });
        }
        let ghost before = self@;
        self.v[15] = 0;
        let mut j: u16 = 0;
        while j < n
            invariant
                j <= n < 16,
                x == before.v[x_of(opcode)],
                y == before.v[y_of(opcode)],
                before == old(self)@,
                before.wf(),
                !before.sprite_outside(n as int),
                self@ == (Machine { gfx: self.gfx@, v: self.v@, ..before }),
                forall|p: int|
                    0 <= p < 2048 ==> self.gfx@[p] == (before.gfx[p] != hits_before(
                        before,
                        x as int,
                        y as int,
                        j as int,
                        0,
                        p,
                    )),
                self.v@ == before.v.update(
                    15,
                    if collides_before(before, x as int, y as int, j as int, 0) {
                        1u8
                    } else {
                        0u8
                    },
                ),
            decreases n - j,
        {
            let pixel: u8 = self.memory[(j + self.i) as usize];
            let mut i: u16 = 0;
            while i < 8
                invariant
                    i <= 8,
                    j < n < 16,
                    x == before.v[x_of(opcode)],
                    y == before.v[y_of(opcode)],
                    before.wf(),
                    !before.sprite_outside(n as int),
                    pixel == before.memory[before.i + j],
                    self@ == (Machine { gfx: self.gfx@, v: self.v@, ..before }),
                    forall|p: int|
                        0 <= p < 2048 ==> self.gfx@[p] == (before.gfx[p] != hits_before(
                            before,
                            x as int,
                            y as int,
                            j as int,
                            i as int,
                            p,
                        )),
                    self.v@ == before.v.update(
                        15,
                        if collides_before(before, x as int, y as int, j as int, i as int) {
                            1u8
                        } else {
                            0u8
                        },
                    ),
                decreases 8 - i,
            {
                proof {
                    lemma_pixel_under(x as int, y as int, i as int, j as int);
                }
                let ghost loc = (x + i) % 64 + ((y + j) % 32) * 64;
                if bit_at(pixel, i as u8) {
                    let pixel_location: usize = ((x + i) % 64 + ((y + j) % 32) * 64) as usize;
                    assert(hits_before(before, x as int, y as int, j as int, i + 1, loc));
                    if self.gfx[pixel_location] {
                        self.v[15] = 1;
                    }
                    self.gfx[pixel_location] = !self.gfx[pixel_location];
                    assert forall|p: int| 0 <= p < 2048 implies hits_before(
                        before,
                        x as int,
                        y as int,
                        j as int,
                        i + 1,
                        p,
                    ) == (hits_before(before, x as int, y as int, j as int, i as int, p) || p == loc) by {
                        if (p % 64 - x) % 64 == i && (p / 64 - y) % 32 == j {
                            lemma_pixel_alone(x as int, y as int, i as int, j as int, p);
                        }
                    }
                } else {
                    assert forall|p: int| 0 <= p < 2048 implies hits_before(
                        before,
                        x as int,
                        y as int,
                        j as int,
                        i + 1,
                        p,
                    ) == hits_before(before, x as int, y as int, j as int, i as int, p) by {}
                }
                i += 1;
            }
            assert forall|p: int| 0 <= p < 2048 implies hits_before(
                before,
                x as int,
                y as int,
                j as int,
                8,
                p,
            ) == hits_before(before, x as int, y as int, j + 1, 0, p) by {}
            j += 1;
        }
        self.draw_flag = true;
        self.pc += 2;
        assert(self.gfx@ == before.blit(x as int, y as int, n as int));
        Ok(())
    }

    /// Hands the host the points to plot for the screen as it stands, and takes the
    /// request for a redraw as served.
    pub fn draw_graphics(&mut self) -> (points: Vec<(i32, i32)>)
        ensures
            final(self)@ == old(self)@.drawn(),
            points@ == old(self)@.lit_points(),
    {
        let mut points: Vec<(i32, i32)> = Vec::new();
        let mut j: i32 = 0;
        while j < 32
            invariant
                0 <= j <= 32,
                self@ == old(self)@,
                points@ == points_before(self.gfx@, 64 * j),
            decreases 32 - j,
        {
            let mut i: i32 = 0;
            while i < 64
                invariant
                    0 <= j < 32,
                    0 <= i <= 64,
                    self@ == old(self)@,
                    points@ == points_before(self.gfx@, i + 64 * j),
                decreases 64 - i,
            {
                let pixel_location: usize = (i + (j * 64)) as usize;
                if self.gfx[pixel_location] {
                    let ghost earlier = points@;
                    let ghost block = block_points(i as int, j as int);
                    let mut x: i32 = 0;
                    while x < PIXEL_SCALE
                        invariant
                            0 <= j < 32,
                            0 <= i < 64,
                            0 <= x <= PIXEL_SCALE,
                            block == block_points(i as int, j as int),
                            points@ == earlier + block.take(PIXEL_SCALE * x),
                        decreases PIXEL_SCALE - x,
                    {
                        let mut y: i32 = 0;
                        while y < PIXEL_SCALE
                            invariant
                                0 <= j < 32,
                                0 <= i < 64,
                                0 <= x < PIXEL_SCALE,
                                0 <= y <= PIXEL_SCALE,
                                block == block_points(i as int, j as int),
                                points@ == earlier + block.take(PIXEL_SCALE * x + y),
                            decreases PIXEL_SCALE - y,
                        {
                            points.push((x + (PIXEL_SCALE * i), y + (PIXEL_SCALE * j)));
                            assert(block.take(PIXEL_SCALE * x + y + 1) == block.take(PIXEL_SCALE * x + y).push(
                                block[PIXEL_SCALE * x + y],
                            ));
                            y += 1;
                        }
                        x += 1;
                    }
                }
                i += 1;
            }
            j += 1;
        }
        self.draw_flag = false;
        points
    }
}

} // verus!
