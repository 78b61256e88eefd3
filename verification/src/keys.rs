//! Key presses as the controller sees them: plain data, free of any terminal library.

use vstd::prelude::*;

verus! {

/// The key that was pressed.
#[derive(Clone, Copy, Debug, PartialEq, Eq, Structural)]
pub enum Key {
    Backspace,
    Enter,
    Left,
    Right,
    Up,
    Down,
    Home,
    End,
    Tab,
    Delete,
    Esc,
    /// A character key, with the character it produces.
    Char(char),
    /// Any key that neither the controller nor the line editor gives a meaning to.
    Null,
}

/// One key press: the key, and the bits of the modifiers held with it
/// (shift 1, control 2, alt 4, super 8, hyper 16, meta 32).
#[derive(Clone, Copy, Debug, PartialEq, Eq, Structural)]
pub struct KeyEvent {
    pub code: Key,
    pub modifiers: u8,
}

impl KeyEvent {
    /// A key pressed with the given modifier bits.
    pub fn new(code: Key, modifiers: u8) -> (key: KeyEvent)
        ensures
            key == (KeyEvent { code, modifiers }),
    {
        KeyEvent { code, modifiers }
    }

    /// A key pressed with no modifier held.
    pub fn plain(code: Key) -> (key: KeyEvent)
        ensures
            key == (KeyEvent { code, modifiers: 0 }),
    {
        KeyEvent { code, modifiers: 0 }
    }
}

} // verus!
