//! Input events as plain values.

use vstd::prelude::*;

verus! {

/// The `modifiers` of a key pressed alone. Those of a key pressed with
/// modifiers held are the bitwise or of the bits below.
pub const NO_MODIFIERS: u8 = 0;

/// The modifier bit of the Shift key.
pub const SHIFT: u8 = 1;

/// The modifier bit of the Control key.
pub const CONTROL: u8 = 2;

/// The modifier bit of the Alt key.
pub const ALT: u8 = 4;

/// The modifier bit of the Super key.
pub const SUPER: u8 = 8;

/// The modifier bit of the Hyper key.
pub const HYPER: u8 = 16;

/// The modifier bit of the Meta key.
pub const META: u8 = 32;

/// A key of the keyboard.
#[derive(Clone, Copy, Debug, PartialEq, Eq, Structural)]
pub enum Key {
    Backspace,
    Enter,
    Left,
    Right,
    Home,
    End,
    Delete,
    /// A character key, with the character it produces.
    Char(char),
    Esc,
    /// Any other key: none of them means anything here.
    Other,
}

/// Whether a key went down, is held, or came up.
#[derive(Clone, Copy, Debug, PartialEq, Eq, Structural)]
pub enum KeyKind {
    Press,
    Repeat,
    Release,
}

/// One key event: the key, the modifier bits held with it, and its kind.
#[derive(Clone, Copy, Debug, PartialEq, Eq, Structural)]
pub struct KeyEvent {
    pub code: Key,
    pub modifiers: u8,
    pub kind: KeyKind,
}

impl KeyEvent {
    /// The press of `code` with `modifiers` held.
    pub fn new(code: Key, modifiers: u8) -> (key: KeyEvent)
        ensures
            key == (KeyEvent { code, modifiers, kind: KeyKind::Press }),
    {
        KeyEvent { code, modifiers, kind: KeyKind::Press }
    }

    /// The press of `code` with no modifier held.
    pub fn press(code: Key) -> (key: KeyEvent)
        ensures
            key == (KeyEvent { code, modifiers: NO_MODIFIERS, kind: KeyKind::Press }),
    {
        KeyEvent { code, modifiers: NO_MODIFIERS, kind: KeyKind::Press }
    }
}

/// One event read from the terminal.
#[derive(Clone, Copy, Debug, PartialEq, Eq, Structural)]
pub enum Event {
    /// A key event of any kind.
    Key(KeyEvent),
    /// The terminal was resized to this many columns and rows.
    Resize(u16, u16),
    /// Anything else the terminal reports: focus changes, mouse events.
    Other,
}

} // verus!
