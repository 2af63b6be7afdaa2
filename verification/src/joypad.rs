//! The 8-key input matrix behind register 0xFF00.
//!
//! Bits 5 and 4 select (active-low) the button and d-pad halves of the
//! matrix; bits 3..=0 report the selected keys, active-low. A key going from
//! released to pressed between two frames raises the Joypad interrupt.

use vstd::prelude::*;

use crate::gameboy::KeyStates;
use crate::interrupt::Interrupt;

verus! {

pub const JOYP_ADDR: u16 = 0xFF00;

pub struct Joypad {
    /// The stored select bits of 0xFF00 (only bits 5 and 4 are kept).
    pub joyp: u8,
    /// Key states sampled at the previous frame.
    pub states: KeyStates,
}

/// Active-low button nibble: Start, Select, B, A at bits 3..=0.
pub open spec fn spec_buttons(s: KeyStates) -> u8 {
    (((if s.start { 0int } else { 1int }) * 8) + ((if s.select { 0int } else { 1int }) * 4) + ((
    if s.b {
        0int
    } else {
        1int
    }) * 2) + (if s.a { 0int } else { 1int })) as u8
}

/// Active-low d-pad nibble: Down, Up, Left, Right at bits 3..=0.
pub open spec fn spec_dpad(s: KeyStates) -> u8 {
    (((if s.down { 0int } else { 1int }) * 8) + ((if s.up { 0int } else { 1int }) * 4) + ((
    if s.left {
        0int
    } else {
        1int
    }) * 2) + (if s.right { 0int } else { 1int })) as u8
}

/// Whether any key goes from released to pressed between the two samples.
pub open spec fn spec_any_pressed_edge(prev: KeyStates, new: KeyStates) -> bool {
    ||| (new.a && !prev.a)
    ||| (new.b && !prev.b)
    ||| (new.start && !prev.start)
    ||| (new.select && !prev.select)
    ||| (new.up && !prev.up)
    ||| (new.down && !prev.down)
    ||| (new.left && !prev.left)
    ||| (new.right && !prev.right)
}

impl Joypad {
    /// The byte read back from 0xFF00: the select bits, with the low nibble
    /// reporting the selected key group (both groups ANDed when both are
    /// selected, all-released when neither is).
    pub open spec fn spec_joyp(self) -> u8 {
        let sel = self.joyp & 0x30;
        if sel == 0x00 {
            self.joyp | (spec_buttons(self.states) & spec_dpad(self.states))
        } else if sel == 0x10 {
            self.joyp | spec_buttons(self.states)
        } else if sel == 0x20 {
            self.joyp | spec_dpad(self.states)
        } else {
            self.joyp | 0x0F
        }
    }

    /// The joypad after a register write: only the select bits are kept.
    pub open spec fn spec_wb(self, value: u8) -> Joypad {
        Joypad { joyp: value & 0x30, ..self }
    }

    /// The joypad after sampling a new frame of key states, and the
    /// interrupt bit raised on any released-to-pressed transition.
    pub open spec fn spec_tick(self, new_states: KeyStates) -> (Joypad, u8) {
        (
            Joypad { states: new_states, ..self },
            if spec_any_pressed_edge(self.states, new_states) {
                Interrupt::Joypad.spec_bit()
            } else {
                0u8
            },
        )
    }

    pub fn new() -> (r: Joypad)
        ensures
            r.joyp == 0xFF,
            r.states == KeyStates::spec_released(),
    {
        Joypad { joyp: 0xFF, states: KeyStates::released() }
    }

    /// Sample a new frame of key states; raises the Joypad interrupt bit on
    /// any released-to-pressed transition.
    pub fn tick(&mut self, new_states: KeyStates) -> (r: u8)
        ensures
            (*final(self), r) == old(self).spec_tick(new_states),
            r <= 0x10,
    {
        let mut interrupts: u8 = 0;

        if (new_states.a && !self.states.a) || (new_states.b && !self.states.b) || (new_states.start
            && !self.states.start) || (new_states.select && !self.states.select) || (new_states.up
            && !self.states.up) || (new_states.down && !self.states.down) || (new_states.left
            && !self.states.left) || (new_states.right && !self.states.right) {
            interrupts = Interrupt::Joypad.bit();
        }

        self.states = new_states;

        interrupts
    }

    pub fn rb(&self, addr: u16) -> (r: u8)
        requires
            addr == JOYP_ADDR,
        ensures
            r == self.spec_joyp(),
    {
        self.build_joyp()
    }

    /// Only the two select bits of a write are kept.
    pub fn wb(&mut self, addr: u16, value: u8)
        requires
            addr == JOYP_ADDR,
        ensures
            *final(self) == old(self).spec_wb(value),
    {
        self.joyp = value & 0x30;
    }

    fn build_joyp(&self) -> (r: u8)
        ensures
            r == self.spec_joyp(),
    {
        let sel = self.joyp & 0x30;
        if sel == 0x00 {
            self.joyp | (self.build_buttons() & self.build_dpad())
        } else if sel == 0x10 {
            self.joyp | self.build_buttons()
        } else if sel == 0x20 {
            self.joyp | self.build_dpad()
        } else {
            self.joyp | 0x0F
        }
    }

    fn build_buttons(&self) -> (r: u8)
        ensures
            r == spec_buttons(self.states),
    {
        (if self.states.start { 0u8 } else { 1u8 }) * 8 + (if self.states.select { 0u8 } else { 1u8 }) * 4
            + (if self.states.b { 0u8 } else { 1u8 }) * 2 + (if self.states.a { 0u8 } else { 1u8 })
    }

    fn build_dpad(&self) -> (r: u8)
        ensures
            r == spec_dpad(self.states),
    {
        (if self.states.down { 0u8 } else { 1u8 }) * 8 + (if self.states.up { 0u8 } else { 1u8 }) * 4
            + (if self.states.left { 0u8 } else { 1u8 }) * 2 + (if self.states.right { 0u8 } else { 1u8 })
    }
}

} // verus!
