//! The keys and events the terminal reports, decoded from the terminfo
//! key table.

use vstd::prelude::*;

verus! {

/// A decoded keystroke.
#[derive(Debug, Clone, PartialEq, Eq)]
pub enum Key {
    /// A function key; the value may be between 0 and 63.
    Fn(usize),
    Char(char),
    Up,
    Down,
    Left,
    Tab,
    Right,
    Delete,
    Backspace,
    Escape,
    Enter,
    Begin,
    End,
    Clear,
    Exit,
    Backtab,
    KeypadA1,
    KeypadA3,
    KeypadB2,
    KeypadC1,
    KeypadC3,
    Control(char),
    Invalid(u8),
}

/// A decoded terminal event: a scroll or a keystroke.
#[derive(Debug, Clone, PartialEq, Eq)]
pub enum Event {
    ScrollUp(usize),
    ScrollDonw(usize),
    Key(Key),
}

} // verus!
