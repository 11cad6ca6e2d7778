//! Joypad: register `P1/JOYP` at `0xFF00`.

use vstd::prelude::*;

verus! {

/// Set of buttons held down on the host side, one bit per button.
#[derive(Clone, Copy, PartialEq, Eq, Structural, Debug)]
pub struct JoypadState {
    pub bits: u8,
}

impl JoypadState {
    pub fn empty() -> (r: JoypadState)
        ensures r.bits == 0,
    {
        JoypadState { bits: 0 }
    }

    pub fn right() -> (r: JoypadState)
        ensures r.bits == 0x01,
    {
        JoypadState { bits: 0x01 }
    }

    pub fn left() -> (r: JoypadState)
        ensures r.bits == 0x02,
    {
        JoypadState { bits: 0x02 }
    }

    pub fn up() -> (r: JoypadState)
        ensures r.bits == 0x04,
    {
        JoypadState { bits: 0x04 }
    }

    pub fn down() -> (r: JoypadState)
        ensures r.bits == 0x08,
    {
        JoypadState { bits: 0x08 }
    }

    pub fn a() -> (r: JoypadState)
        ensures r.bits == 0x10,
    {
        JoypadState { bits: 0x10 }
    }

    pub fn b() -> (r: JoypadState)
        ensures r.bits == 0x20,
    {
        JoypadState { bits: 0x20 }
    }

    pub fn select() -> (r: JoypadState)
        ensures r.bits == 0x40,
    {
        JoypadState { bits: 0x40 }
    }

    pub fn start() -> (r: JoypadState)
        ensures r.bits == 0x80,
    {
        JoypadState { bits: 0x80 }
    }

    pub fn union(self, other: JoypadState) -> (r: JoypadState)
        ensures r.bits == self.bits | other.bits,
    {
        JoypadState { bits: self.bits | other.bits }
    }

    pub fn contains(&self, other: JoypadState) -> (r: bool)
        ensures r == (self.bits & other.bits == other.bits),
    {
        self.bits & other.bits == other.bits
    }
}

/// The eight physical buttons.
#[derive(Clone, Copy, PartialEq, Eq, Structural, Debug)]
pub enum Button {
    Right,
    Left,
    Up,
    Down,
    A,
    B,
    Select,
    Start,
}

/// Joypad register state: the held buttons and the two active-low select lines.
#[derive(Debug)]
pub struct Joypad {
    pub state: JoypadState,
    pub select_buttons: bool,
    pub select_dpad: bool,
}

/// Value read from `P1`: bits 7..6 read 1, bits 5 and 4 are the inverted select
/// lines, and the low nibble is 1 for every released key of the selected groups
/// (d-pad keys are state bits 0..3, action keys are state bits 4..7).
pub open spec fn spec_joypad_read(state: u8, select_buttons: bool, select_dpad: bool) -> u8 {
    let dpad: u8 = if select_dpad { state & 0x0F } else { 0 };
    let buttons: u8 = if select_buttons { (state >> 4) & 0x0F } else { 0 };
    let nibble: u8 = 0x0F & !(dpad | buttons);
    let sel: u8 = (if select_buttons { 0u8 } else { 0x20u8 }) | (if select_dpad { 0u8 } else { 0x10u8 });
    0xC0 | sel | nibble
}

impl Joypad {
    pub fn new() -> (r: Joypad)
        ensures r.state.bits == 0, !r.select_buttons, !r.select_dpad,
    {
        Joypad { state: JoypadState::empty(), select_buttons: false, select_dpad: false }
    }

    /// Replaces the held-button set. Returns `true` when at least one button went
    /// from released to pressed (the condition for a joypad interrupt).
    pub fn set_state(&mut self, state: JoypadState) -> (pressed: bool)
        ensures
            final(self).state == state,
            final(self).select_buttons == old(self).select_buttons,
            final(self).select_dpad == old(self).select_dpad,
            pressed == (state.bits & !old(self).state.bits != 0),
    {
        let newly = state.bits & !self.state.bits;
        self.state = state;
        newly != 0
    }

    pub fn read(&self) -> (r: u8)
        ensures r == spec_joypad_read(self.state.bits, self.select_buttons, self.select_dpad),
    {
        let s = self.state.bits;
        let sb = self.select_buttons;
        let sd = self.select_dpad;
        let mut nibble: u8 = 0x0F;
        if sd {
            nibble = nibble & !(s & 0x0F);
        }
        if sb {
            nibble = nibble & !((s >> 4) & 0x0F);
        }
        let b: u8 = if sb { 0 } else { 0x20 };
        let d: u8 = if sd { 0 } else { 0x10 };
        let r = 0xC0 | (b | d) | nibble;
        proof {
            let dpad: u8 = if sd { s & 0x0F } else { 0 };
            let buttons: u8 = if sb { (s >> 4) & 0x0F } else { 0 };
            assert(nibble == 0x0F & !(dpad | buttons)) by (bit_vector)
                requires
                    nibble == (if sb { (if sd { 0x0Fu8 & !(s & 0x0F) } else { 0x0Fu8 }) & !((s >> 4) & 0x0F) } else { if sd { 0x0Fu8 & !(s & 0x0F) } else { 0x0Fu8 } }),
                    dpad == (if sd { s & 0x0F } else { 0u8 }),
                    buttons == (if sb { (s >> 4) & 0x0F } else { 0u8 });
        }
        r
    }

    /// Bits 4 (d-pad) and 5 (buttons) of the written value are active-low select lines.
    pub fn write(&mut self, val: u8)
        ensures
            final(self).select_dpad == (val & 0x10 == 0),
            final(self).select_buttons == (val & 0x20 == 0),
            final(self).state == old(self).state,
    {
        self.select_dpad = (val & 0x10) == 0;
        self.select_buttons = (val & 0x20) == 0;
    }
}

/// P1 is active low: bit `i` of the low nibble reads 0 exactly when key `i` of a
/// selected group is held (d-pad keys are state bits 0..3, action keys bits 4..7).
pub proof fn lemma_joypad_active_low(state: u8, select_buttons: bool, select_dpad: bool, i: u8)
    by (bit_vector)
    requires
        i < 4,
    ensures
        (spec_joypad_read(state, select_buttons, select_dpad) >> i) & 1 == 0
            <==> ((select_dpad && (state >> i) & 1 == 1) || (select_buttons && (state >> (i + 4)) & 1 == 1)),
{
}

} // verus!
