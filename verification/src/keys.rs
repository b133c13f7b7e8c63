//! Logical key values.
//!
//! The terminal layer decodes raw keyboard events into these logical keys;
//! everything in this crate only ever sees the logical value.

use vstd::prelude::*;

verus! {

/// Represents an key.
#[derive(PartialEq, Eq, Clone, Copy, Hash, Debug, Structural)]
pub enum Key {
    /// Both Enter (or Return) and numpad Enter
    Enter,
    /// Tabulation key
    Tab,
    /// Backspace key
    Backspace,
    /// Escape key
    Esc,
    /// Left arrow
    Left,
    /// Right arrow
    Right,
    /// Up arrow
    Up,
    /// Down arrow
    Down,
    /// Insert key
    Ins,
    /// Delete key
    Delete,
    /// Home key
    Home,
    /// End key
    End,
    /// Page Up key
    PageUp,
    /// Page Down key
    PageDown,
    /// F0 key
    F0,
    /// F1 key
    F1,
    /// F2 key
    F2,
    /// F3 key
    F3,
    /// F4 key
    F4,
    /// F5 key
    F5,
    /// F6 key
    F6,
    /// F7 key
    F7,
    /// F8 key
    F8,
    /// F9 key
    F9,
    /// F10 key
    F10,
    /// F11 key
    F11,
    /// F12 key
    F12,
    Char(char),
    Ctrl(char),
    Alt(char),
    Unknown,
}

/// The keys that end the session from any base mode.
pub open spec fn spec_is_exit(k: Key) -> bool {
    k == Key::Ctrl('c') || k == Key::Char('q') || k == Key::Esc
}

/// The function key with the given number.
pub open spec fn spec_from_f(n: u8) -> Key {
    if n == 0 {
        Key::F0
    } else if n == 1 {
        Key::F1
    } else if n == 2 {
        Key::F2
    } else if n == 3 {
        Key::F3
    } else if n == 4 {
        Key::F4
    } else if n == 5 {
        Key::F5
    } else if n == 6 {
        Key::F6
    } else if n == 7 {
        Key::F7
    } else if n == 8 {
        Key::F8
    } else if n == 9 {
        Key::F9
    } else if n == 10 {
        Key::F10
    } else if n == 11 {
        Key::F11
    } else {
        Key::F12
    }
}

impl Key {
    /// If exit
    pub fn is_exit(&self) -> (r: bool)
        ensures
            r == spec_is_exit(*self),
    {
        matches!(self, Key::Ctrl('c') | Key::Char('q') | Key::Esc)
    }

    /// Returns the function key corresponding to the given number
    ///
    /// 1 -> F1, etc...
    pub fn from_f(n: u8) -> (k: Key)
        requires
            n <= 12,
        ensures
            k == spec_from_f(n),
    {
        match n {
            0 => Key::F0,
            1 => Key::F1,
            2 => Key::F2,
            3 => Key::F3,
            4 => Key::F4,
            5 => Key::F5,
            6 => Key::F6,
            7 => Key::F7,
            8 => Key::F8,
            9 => Key::F9,
            10 => Key::F10,
            11 => Key::F11,
            _ => Key::F12,
        }
    }
}

} // verus!
