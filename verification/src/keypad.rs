//! The keypad: key events from the host's keyboard, and the instruction that waits for a
//! key.

use vstd::prelude::*;
use crate::cpu::Chip8_CPU;
use crate::isa::highest_pressed;
use crate::machine::{Machine, Mode};
use crate::opcode::{operand_x, x_of};

verus! {

/// A key of the host's keyboard going down or up.
#[derive(Clone, Copy, Debug, PartialEq, Eq, Structural)]
pub struct KeyEvent {
    /// The code of the symbol on the key. Digits and lower-case letters have their ASCII
    /// codes.
    pub keycode: i32,
    /// True for a key going down, false for one going up.
    pub pressed: bool,
}

/// The key of the keypad that the keyboard key with code `keycode` stands for: the
/// digits `0` to `9` for keys 0 to 9 and the letters `a` to `f` for keys 10 to 15.
pub open spec fn keypad_key(keycode: i32) -> Option<u8> {
    if 48 <= keycode <= 57 {
        Some((keycode - 48) as u8)
    } else if 97 <= keycode <= 102 {
        Some((keycode - 87) as u8)
    } else {
        None
    }
}

/// The key of the keypad that the keyboard key with code `keycode` stands for, if any.
pub fn key_for(keycode: i32) -> (key: Option<u8>)
    ensures
        key == keypad_key(keycode),
        key matches Some(k) ==> k < 16,
{
    if 48 <= keycode && keycode <= 57 {
        Some((keycode - 48) as u8)
    } else if 97 <= keycode && keycode <= 102 {
        Some((keycode - 87) as u8)
    } else {
        None
    }
}

impl Machine {
    /// The state after one key event: the key it stands for is down or up, and an event
    /// of a key that stands for none changes nothing.
    pub open spec fn with_event(self, event: KeyEvent) -> Machine {
        match keypad_key(event.keycode) {
            Some(key) => self.with_key(key as int, event.pressed),
            None => self,
        }
    }

    /// The state after a run of key events, taken in order.
    pub open spec fn with_events(self, events: Seq<KeyEvent>) -> Machine
        decreases events.len(),
    {
        if events.len() == 0 {
            self
        } else {
            self.with_events(events.drop_last()).with_event(events.last())
        }
    }
}

/// What `highest_pressed` finds: a key that is down with none above it down, or nothing
/// where no key is down.
pub proof fn lemma_highest_pressed(keys: Seq<bool>, below: int)
    requires
        0 <= below <= 256,
    ensures
        match highest_pressed(keys, below) {
            Some(key) => key < below && keys[key as int] && forall|k: int|
                key < k < below ==> !#[trigger] keys[k],
            None => forall|k: int| 0 <= k < below ==> !#[trigger] keys[k],
        },
    decreases below,
{
    if below > 0 && !keys[below - 1] {
        lemma_highest_pressed(keys, below - 1);
    }
}

impl Chip8_CPU {
    /// Takes in the key events that the host has collected, in order.
    #[allow(non_snake_case)]
    pub fn setKeys(&mut self, events: &[KeyEvent])
        ensures
            final(self)@ == old(self)@.with_events(events@),
            old(self)@.wf() ==> final(self)@.wf(),
    {
        let mut k: usize = 0;
        while k < events.len()
            invariant
                k <= events@.len(),
                self@ == old(self)@.with_events(events@.take(k as int)),
                old(self)@.wf() ==> self@.wf(),
            decreases events@.len() - k,
        {
            let event = events[k];
            assert(events@.take(k + 1).drop_last() == events@.take(k as int));
            match key_for(event.keycode) {
                Some(key) => {
                    self.keys[key as usize] = event.pressed;
                },
                None => {},
            }
            k += 1;
        }
        assert(events@.take(k as int) == events@);
    }

    /// The highest key that is down, if any is.
    pub fn pressed_key(&self) -> (key: Option<u8>)
        ensures
            key == self@.pressed_key(),
            key matches Some(k) ==> k < 16,
    {
        let mut key_pressed: Option<u8> = None;
        let mut index: u8 = 0;
        while index < 16
            invariant
                index <= 16,
                key_pressed == highest_pressed(self.keys@, index as int),
                key_pressed matches Some(k) ==> k < 16,
            decreases 16 - index,
        {
            if self.keys[index as usize] {
                key_pressed = Some(index);
            }
            index += 1;
        }
        key_pressed
    }

    /// Looks at the keypad once for the key wait on register `x`: with a key down, Vx
    /// becomes the highest such key and the machine runs on behind the instruction; with
    /// none, the machine parks and nothing else changes.
    pub fn wait_for_key(&mut self, x: usize)
        requires
            old(self)@.wf(),
            old(self)@.can_fetch(),
            x < 16,
        ensures
            final(self)@ == old(self)@.wait_key(x as int),
            final(self)@.wf(),
    {
        match self.pressed_key() {
            Some(key) => {
                self.v[x] = key;
                self.pc += 2;
                self.mode = Mode::Running;
            },
            None => {
                self.mode = Mode::AwaitingKey(x as u8);
            },
        }
    }

    /// Fx0A: waits for a key. It does not block: it looks at the keypad once, as
    /// [`Chip8_CPU::wait_for_key`] says.
    pub fn i_ld_fx0a(&mut self, opcode: u16)
        requires
            old(self)@.wf(),
            old(self)@.can_fetch(),
        ensures
            final(self)@ == old(self)@.wait_key(x_of(opcode)),
            final(self)@.wf(),
    {
        let x: usize = operand_x(opcode);
        self.wait_for_key(x);
    }
}

} // verus!
