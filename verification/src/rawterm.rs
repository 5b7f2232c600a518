//! The small decoded-input vocabulary of a raw-mode terminal.

use vstd::prelude::*;

verus! {

/// A direction an arrow key points in.
#[derive(Debug, Copy, Clone, PartialEq, Eq, Structural)]
pub enum ArrowDirection {
    Up,
    Down,
    Left,
    Right,
}

/// A keystroke as a raw-mode reader reports it.
#[derive(Debug, Copy, Clone, PartialEq, Eq)]
pub enum Key {
    Char(char),
    Control(char),
    Delete,
    Newline,
    Escape,
    Arrow(ArrowDirection),
    Invalid(u8),
}

} // verus!
