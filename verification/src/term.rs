//! The data types of the styled-terminal facade: a cursor position and a
//! line alignment.

use vstd::prelude::*;

verus! {

/// A cursor position: column, then row.
#[derive(Debug, Copy, Clone, Eq, PartialEq, Structural)]
pub struct Cursor(pub usize, pub usize);

/// How a line is aligned in the terminal's width.
#[derive(Debug, Copy, Clone, Eq, PartialEq, Structural)]
pub enum Align {
    Left,
    Right,
    Center,
}

} // verus!
