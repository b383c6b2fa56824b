//! The console's built-in buttons.
use vstd::prelude::*;
use crate::bits::{lemma_word_fields, lemma_word_shift, lemma_byte_fields};

verus! {

/// Each button of the console, with the bit that represents it in the keypad state.
#[derive(Clone, Copy, PartialEq, Eq, Structural, Debug)]
pub enum Keys {
    Y4,
    Y3,
    Y2,
    Y1,
    X4,
    X3,
    X2,
    X1,
    B,
    A,
    Start,
}

impl Keys {
    pub open spec fn spec_mask(self) -> u16 {
        match self {
            Keys::Y4 => 0x0800,
            Keys::Y3 => 0x0400,
            Keys::Y2 => 0x0200,
            Keys::Y1 => 0x0100,
            Keys::X4 => 0x0080,
            Keys::X3 => 0x0040,
            Keys::X2 => 0x0020,
            Keys::X1 => 0x0010,
            Keys::B => 0x0008,
            Keys::A => 0x0004,
            Keys::Start => 0x0002,
        }
    }

    /// The bit representing this key.
    pub fn bits(self) -> (r: u16)
        ensures r == self.spec_mask(),
    {
        match self {
            Keys::Y4 => 0x0800,
            Keys::Y3 => 0x0400,
            Keys::Y2 => 0x0200,
            Keys::Y1 => 0x0100,
            Keys::X4 => 0x0080,
            Keys::X3 => 0x0040,
            Keys::X2 => 0x0020,
            Keys::X1 => 0x0010,
            Keys::B => 0x0008,
            Keys::A => 0x0004,
            Keys::Start => 0x0002,
        }
    }
}

/// The state of the console's built-in buttons.
pub struct Keypad {
    /// Which buttons are currently pressed, one bit per button
    pub state: u16,
    /// The value emitted to the key scan I/O port
    pub keys: u8,
}

/// The abstract state of the keypad.
pub struct KeypadView {
    pub state: u16,
    pub keys: u8,
}

impl View for Keypad {
    type V = KeypadView;

    open spec fn view(&self) -> KeypadView {
        KeypadView { state: self.state, keys: self.keys }
    }
}

/// The 4-bit group of a key scan line, selected when its poll bit is set.
pub open spec fn scan_group(state: u16, shift: u16, selected: bool) -> u8 {
    if selected { ((state >> shift) & 0x0F) as u8 } else { 0 }
}

/// What a poll with the given selection bits reads from the buttons.
pub open spec fn scanned_keys(state: u16, poll: u8) -> u8 {
    scan_group(state, 0, poll & 0x04 != 0) | scan_group(state, 4, poll & 0x02 != 0) | scan_group(state, 8, poll & 0x01 != 0)
}

/// The button state after a key is pressed or released.
pub open spec fn key_set(state: u16, key: Keys, pressed: bool) -> u16 {
    if pressed { state | key.spec_mask() } else { state & !key.spec_mask() }
}

impl Keypad {
    /// A keypad with no button pressed and nothing scanned.
    pub fn new() -> (r: Self)
        ensures r@ == (KeypadView { state: 0, keys: 0 }),
    {
        Self { state: 0, keys: 0 }
    }

    /// Polls the keypad: bits 0, 1 and 2 of `poll` select the Y, X and action groups.
    pub fn poll(&mut self, poll: u8)
        ensures final(self)@ == (KeypadView { keys: scanned_keys(old(self).state, poll), ..old(self)@ }),
    {
        let action: u8 = if poll & 0x04 != 0 { 0x0F } else { 0x00 };
        let x: u8 = if poll & 0x02 != 0 { 0x0F } else { 0x00 };
        let y: u8 = if poll & 0x01 != 0 { 0x0F } else { 0x00 };
        let state = self.state;
        let g0 = (state & 0x0F) as u8;
        let g1 = ((state >> 4u16) & 0x0F) as u8;
        let g2 = ((state >> 8u16) & 0x0F) as u8;
        proof {
            lemma_word_fields(state);
            lemma_word_shift(state, 4);
            lemma_word_shift(state, 8);
            lemma_byte_fields(g0);
            lemma_byte_fields(g1);
            lemma_byte_fields(g2);
        }
        self.keys = (g0 & action) | (g1 & x) | (g2 & y);
    }

    /// Returns the value of the last key scan.
    pub fn read_keys(&self) -> (r: u8)
        ensures r == self.keys,
    {
        self.keys
    }

    /// Presses or releases a key.
    pub fn set_key(&mut self, key: Keys, pressed: bool)
        ensures final(self)@ == (KeypadView { state: key_set(old(self).state, key, pressed), ..old(self)@ }),
    {
        let mask = key.bits();
        if pressed {
            self.state = self.state | mask;
        } else {
            self.state = self.state & !mask;
        }
    }
}

} // verus!
