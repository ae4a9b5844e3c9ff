//! Laws of the instruction set, proved of the functions in [`crate::isa`] and
//! [`crate::cycle`] that the contracts of the executable machine are stated with.

use vstd::prelude::*;
use crate::display::{block_points, points_before};
use crate::isa::sprite_bit;
use crate::keypad::{keypad_key, lemma_highest_pressed, KeyEvent};
use crate::machine::{Fault, Machine, Mode, Progress};
use crate::opcode::{family_of, is_instruction, kk_of};

verus! {

/// Adding Vy to Vx leaves 1 in VF exactly when the sum of the two values exceeds 255, and
/// 0 otherwise; Vx holds the sum modulo 256. This is said of every register `x` but VF,
/// which would hold the sum and not the flag.
pub proof fn lemma_add_carry(m: Machine, x: int, y: int)
    requires
        m.wf(),
        0 <= x < 15,
        0 <= y < 16,
    ensures
        m.add_reg(x, y).v[15] == 1 <==> m.v[x] + m.v[y] > 255,
        m.add_reg(x, y).v[15] == 0 <==> m.v[x] + m.v[y] <= 255,
        m.add_reg(x, y).v[x] == (m.v[x] + m.v[y]) % 256,
{
}

/// Subtracting Vy from Vx leaves 1 in VF exactly when Vx exceeds Vy, and 0 otherwise; Vx
/// holds the difference modulo 256. This is said of every register `x` but VF.
pub proof fn lemma_sub_no_borrow(m: Machine, x: int, y: int)
    requires
        m.wf(),
        0 <= x < 15,
        0 <= y < 16,
    ensures
        m.sub_reg(x, y).v[15] == 1 <==> m.v[x] > m.v[y],
        m.sub_reg(x, y).v[15] == 0 <==> m.v[x] <= m.v[y],
        m.sub_reg(x, y).v[x] == (m.v[x] - m.v[y]) % 256,
{
}

/// Subtracting Vx from Vy leaves 1 in VF exactly when Vy exceeds Vx, and 0 otherwise; Vx
/// holds the difference modulo 256. This is said of every register `x` but VF.
pub proof fn lemma_subn_no_borrow(m: Machine, x: int, y: int)
    requires
        m.wf(),
        0 <= x < 15,
        0 <= y < 16,
    ensures
        m.subn_reg(x, y).v[15] == 1 <==> m.v[y] > m.v[x],
        m.subn_reg(x, y).v[15] == 0 <==> m.v[y] <= m.v[x],
        m.subn_reg(x, y).v[x] == (m.v[y] - m.v[x]) % 256,
{
}

/// The shifts are shifts of bits: a shift to the right leaves the lowest bit of Vx in VF
/// and Vx moved one bit down, a shift to the left leaves the highest bit of Vx in VF
/// and Vx moved one bit up within its eight bits. This is said of every register `x`
/// but VF.
pub proof fn lemma_shift_bits(m: Machine, x: int)
    requires
        m.wf(),
        0 <= x < 15,
    ensures
        m.shift_right(x).v[15] == m.v[x] & 1,
        m.shift_right(x).v[x] == m.v[x] >> 1,
        m.shift_left(x).v[15] == m.v[x] >> 7,
        m.shift_left(x).v[x] == m.v[x] << 1,
{
    let vx: u8 = m.v[x];
    assert(vx & 1 == vx % 2 && vx >> 1 == vx / 2) by (bit_vector);
    assert(vx >> 7 == (if vx >= 128 { 1u8 } else { 0u8 }) && vx << 1 == (vx * 2) % 256) by (bit_vector);
}

/// Column `col` of row `row` of a sprite drawn at `(x, y)` lands on the pixel `col` to the
/// right and `row` down, counted round the edges of the screen: a set bit there, and
/// nothing else, makes the sprite hit that pixel.
pub proof fn lemma_sprite_wraps(m: Machine, x: int, y: int, n: int, row: int, col: int)
    requires
        0 <= x < 256,
        0 <= y < 256,
        0 <= row < n <= 15,
        0 <= col < 8,
    ensures
        0 <= (x + col) % 64 + 64 * ((y + row) % 32) < 2048,
        m.sprite_hits(x, y, n, (x + col) % 64 + 64 * ((y + row) % 32)) == sprite_bit(
            m.memory[m.i + row],
            col,
        ),
{
}

/// Drawing a sprite and then drawing it again at the same place gives back the screen
/// as it was, and the second draw leaves 1 in VF exactly when the sprite has a set bit
/// on a pixel that was off before the first.
pub proof fn lemma_draw_twice(m: Machine, x: int, y: int, n: int)
    requires
        m.wf(),
        0 <= x < 16,
        0 <= y < 16,
        0 <= n < 16,
        m.draw(x, y, n).v[x] == m.v[x],
        m.draw(x, y, n).v[y] == m.v[y],
    ensures
        m.draw(x, y, n).draw(x, y, n).gfx == m.gfx,
        m.draw(x, y, n).draw(x, y, n).v[15] == 1 <==> exists|p: int|
            0 <= p < 2048 && !m.gfx[p] && #[trigger] m.sprite_hits(m.v[x] as int, m.v[y] as int, n, p),
        m.draw(x, y, n).draw(x, y, n).v[15] == 0 <==> !exists|p: int|
            0 <= p < 2048 && !m.gfx[p] && #[trigger] m.sprite_hits(m.v[x] as int, m.v[y] as int, n, p),
{
    let px = m.v[x] as int;
    let py = m.v[y] as int;
    let once = m.draw(x, y, n);
    assert forall|p: int| 0 <= p < 2048 implies once.sprite_hits(px, py, n, p) == m.sprite_hits(
        px,
        py,
        n,
        p,
    ) by {}
}

/// On pixels that are off, a sprite with a set bit drawn twice at the same place first
/// turns on every pixel that it touches, with 0 in VF, and then turns every one of
/// them off again, with 1 in VF.
pub proof fn lemma_draw_twice_on_clear(m: Machine, x: int, y: int, n: int)
    requires
        m.wf(),
        0 <= x < 16,
        0 <= y < 16,
        0 <= n < 16,
        m.draw(x, y, n).v[x] == m.v[x],
        m.draw(x, y, n).v[y] == m.v[y],
        forall|p: int|
            0 <= p < 2048 && #[trigger] m.sprite_hits(m.v[x] as int, m.v[y] as int, n, p) ==> !m.gfx[p],
        exists|p: int| 0 <= p < 2048 && #[trigger] m.sprite_hits(m.v[x] as int, m.v[y] as int, n, p),
    ensures
        m.draw(x, y, n).v[15] == 0,
        m.draw(x, y, n).draw(x, y, n).v[15] == 1,
        forall|p: int|
            0 <= p < 2048 && #[trigger] m.sprite_hits(m.v[x] as int, m.v[y] as int, n, p) ==> m.draw(
                x,
                y,
                n,
            ).gfx[p] && !m.draw(x, y, n).draw(x, y, n).gfx[p],
{
    lemma_draw_twice(m, x, y, n);
}

/// A call that is followed at once by a return ends on the instruction after the call,
/// with the stack as it was before the call.
pub proof fn lemma_call_then_return(m: Machine, nnn: u16)
    requires
        m.wf(),
        m.can_fetch(),
        !m.stack_full(),
    ensures
        !m.call(nnn).stack_empty(),
        m.call(nnn).ret().pc == m.pc + 2,
        m.call(nnn).ret().stack == m.stack,
        m.call(nnn).ret() == m.advance(2),
{
}

/// Storing V0 to Vx, zeroing them and loading them again gives every register the value
/// it had, and neither the store nor the load moves I.
pub proof fn lemma_store_then_load(m: Machine, x: int)
    requires
        m.wf(),
        0 <= x < 16,
        !m.regs_outside(x),
    ensures
        m.store_regs(x).i == m.i,
        ({
            let stored = m.store_regs(x);
            let zeroed = Machine {
                v: Seq::new(16, |r: int| if r <= x { 0u8 } else { stored.v[r] }),
                ..stored
            };
            zeroed.load_regs(x).v == m.v && zeroed.load_regs(x).i == m.i
        }),
{
}

/// The three bytes that the decimal store writes are the digits of Vx: each is below
/// ten, and as hundreds, tens and ones they add up to Vx. Nothing else in memory
/// changes, and I stays.
pub proof fn lemma_bcd_digits(m: Machine, x: int)
    requires
        m.wf(),
        0 <= x < 16,
        !m.bcd_outside(),
    ensures
        ({
            let after = m.store_bcd(x);
            let base = m.i as int;
            &&& after.memory[base] < 10
            &&& after.memory[base + 1] < 10
            &&& after.memory[base + 2] < 10
            &&& 100 * after.memory[base] + 10 * after.memory[base + 1] + after.memory[base + 2] == m.v[x]
            &&& after.i == m.i
            &&& forall|a: int|
                0 <= a < 4096 && !(base <= a <= base + 2) ==> after.memory[a] == m.memory[a]
        }),
{
}

/// A machine that comes to a key wait, or is parked on one, while no key is down stays
/// where it is: the cycle reports the wait, and the program counter, the timers, the
/// registers, memory, the screen and the stack are what they were.
pub proof fn lemma_key_wait_blocks(m: Machine, random: u8)
    requires
        m.wf(),
        m.can_fetch(),
        m.mode is AwaitingKey || (family_of(m.fetch()) == 0xF && kk_of(m.fetch()) == 0x0A),
        forall|k: int| 0 <= k < 16 ==> !m.keys[k],
    ensures
        m.step_result(random) == Ok::<Progress, Fault>(Progress::AwaitingKey),
        m.step(random).mode is AwaitingKey,
        m.step(random) == (Machine { mode: m.step(random).mode, ..m }),
{
    lemma_highest_pressed(m.keys, 16);
}

/// A parked machine that finds key `key` down, and no key above it, puts `key` in the
/// register it waits for, moves on by one instruction and runs again; the timers decay
/// in that cycle.
pub proof fn lemma_key_wait_resumes(m: Machine, x: u8, key: u8, random: u8)
    requires
        m.wf(),
        m.can_fetch(),
        m.mode == Mode::AwaitingKey(x),
        key < 16,
        m.keys[key as int],
        forall|k: int| key < k < 16 ==> !m.keys[k],
    ensures
        m.step(random).v[x as int] == key,
        m.step(random).pc == m.pc + 2,
        m.step(random).mode is Running,
        m.step_result(random) == Ok::<Progress, Fault>(
            Progress::Executed(m.tick_report()),
        ),
{
    lemma_highest_pressed(m.keys, 16);
}

/// The state after `n` decays of the timers with nothing run between them.
pub open spec fn ticks(m: Machine, n: nat) -> Machine
    decreases n,
{
    if n == 0 {
        m
    } else {
        ticks(m, (n - 1) as nat).tick()
    }
}

/// How many of those `n` decays report that the sound stopped.
pub open spec fn alerts(m: Machine, n: nat) -> nat
    decreases n,
{
    if n == 0 {
        0
    } else {
        alerts(m, (n - 1) as nat) + if ticks(m, (n - 1) as nat).tick_report().sound_stopped {
            1nat
        } else {
            0nat
        }
    }
}

/// Each timer counts down to zero and stays there, and a sound timer that is left to run
/// out reports the end of the sound once: in the decay that takes it from 1 to 0, and in
/// no other.
pub proof fn lemma_timers_run_out(m: Machine, n: nat)
    ensures
        ticks(m, n).dt == if m.dt >= n { m.dt - n } else { 0 },
        ticks(m, n).st == if m.st >= n { m.st - n } else { 0 },
        alerts(m, n) == if 0 < m.st <= n { 1nat } else { 0nat },
        m.tick_report().sound_stopped <==> m.st == 1 && m.tick().st == 0,
    decreases n,
{
    if n > 0 {
        lemma_timers_run_out(m, (n - 1) as nat);
    }
}

/// A cycle that does not execute Cxkk does the same whatever the random byte is.
pub proof fn lemma_random_unused(m: Machine, a: u8, b: u8)
    requires
        !m.draws_random(),
    ensures
        m.step(a) == m.step(b),
        m.step_result(a) == m.step_result(b),
{
}

/// Memory changes under the two stores, Fx33 and Fx55, and under no other instruction.
pub proof fn lemma_memory_written_by_stores(m: Machine, opcode: u16, random: u8)
    requires
        m.wf(),
        !(family_of(opcode) == 0xF && (kk_of(opcode) == 0x33 || kk_of(opcode) == 0x55)),
    ensures
        m.execute(opcode, random).memory == m.memory,
{
}

/// A word that is no instruction is run as one that does nothing: it raises no fault and
/// only moves the program counter on by two.
pub proof fn lemma_unknown_word_moves_on(m: Machine, opcode: u16, random: u8)
    requires
        !is_instruction(opcode),
    ensures
        m.fault(opcode) is None,
        m.execute(opcode, random) == m.advance(2),
{
}

/// Whether `event` is an event of key `k` of the keypad.
pub open spec fn stands_for(event: KeyEvent, k: int) -> bool {
    keypad_key(event.keycode) == Some(k as u8)
}

/// Key events change the keypad and nothing else.
pub proof fn lemma_events_touch_keys_only(m: Machine, events: Seq<KeyEvent>)
    requires
        m.wf(),
    ensures
        m.with_events(events).wf(),
        m.with_events(events) == (Machine { keys: m.with_events(events).keys, ..m }),
    decreases events.len(),
{
    if events.len() > 0 {
        lemma_events_touch_keys_only(m, events.drop_last());
    }
}

/// A key of which a run of events holds no event is after the run as it was before.
pub proof fn lemma_key_without_event(m: Machine, events: Seq<KeyEvent>, k: int)
    requires
        m.wf(),
        0 <= k < 16,
        forall|j: int| 0 <= j < events.len() ==> !stands_for(#[trigger] events[j], k),
    ensures
        m.with_events(events).keys[k] == m.keys[k],
    decreases events.len(),
{
    if events.len() > 0 {
        lemma_events_touch_keys_only(m, events.drop_last());
        lemma_key_without_event(m, events.drop_last(), k);
    }
}

/// The last event of a key in a run of events decides: the key is down after the run if
/// that event is a press, and up if it is a release.
pub proof fn lemma_last_event_decides(m: Machine, events: Seq<KeyEvent>, k: int, j: int)
    requires
        m.wf(),
        0 <= k < 16,
        0 <= j < events.len(),
        stands_for(events[j], k),
        forall|l: int| j < l < events.len() ==> !stands_for(#[trigger] events[l], k),
    ensures
        m.with_events(events).keys[k] == events[j].pressed,
    decreases events.len(),
{
    lemma_events_touch_keys_only(m, events.drop_last());
    if j < events.len() - 1 {
        lemma_last_event_decides(m, events.drop_last(), k, j);
    }
}

/// The points that the host plots are the points of the squares of the pixels that are
/// on: `(a, b)` is among the points of the first `upto` pixels exactly when it lies in
/// the square of one of them that is on. The square of pixel `(x, y)` spans the columns
/// `5 * x` to `5 * x + 4` and the rows `5 * y` to `5 * y + 4`.
pub proof fn lemma_points_of_lit_pixels(gfx: Seq<bool>, upto: int, a: i32, b: i32)
    requires
        0 <= upto <= 2048,
    ensures
        points_before(gfx, upto).contains((a, b)) <==> 0 <= a < 320 && 0 <= b < 160 && a / 5 + 64 * (b
            / 5) < upto && gfx[a / 5 + 64 * (b / 5)],
    decreases upto,
{
    if upto > 0 {
        lemma_points_of_lit_pixels(gfx, upto - 1, a, b);
        let p = upto - 1;
        let earlier = points_before(gfx, p);
        let block = block_points(p % 64, p / 64);
        let inside = 0 <= a < 320 && 0 <= b < 160 && a / 5 + 64 * (b / 5) == p;
        assert(block.contains((a, b)) <==> inside) by {
            if inside {
                let k = 5 * (a - 5 * (p % 64)) + (b - 5 * (p / 64));
                assert(block[k] == (a, b));
            }
        }
        if gfx[p] {
            assert((earlier + block).contains((a, b)) <==> earlier.contains((a, b)) || block.contains(
                (a, b),
            )) by {
                if earlier.contains((a, b)) {
                    let k = choose|k: int| 0 <= k < earlier.len() && earlier[k] == (a, b);
                    assert((earlier + block)[k] == (a, b));
                }
                if block.contains((a, b)) {
                    let k = choose|k: int| 0 <= k < block.len() && block[k] == (a, b);
                    assert((earlier + block)[earlier.len() + k] == (a, b));
                }
            }
        }
    }
}

} // verus!
