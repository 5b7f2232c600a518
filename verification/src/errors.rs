//! The error kinds of the terminal-facing helpers: colors, markup and the
//! surrounding terminal plumbing.

use vstd::prelude::*;

use crate::terminfo::fields::StringField;

verus! {

/// Outlines the various points where the terminal helpers may fail.
#[derive(Debug, Clone, PartialEq, Eq)]
pub enum ErrorKind {
    /// The terminal could not be put into raw mode.
    InitRawModeFailed,
    /// The terminal could not be taken out of raw mode.
    ExitRawModeFailed,
    /// The next character could not be read.
    GetCharFailed,
    /// The next keystroke could not be read.
    ReadKeyFailed,
    /// A number was malformed.
    InvalidNumber,
    /// A color was malformed.
    InvalidColor,
    /// An operating-system command escape could not be written.
    OscFailed,
    /// The terminal could not be created.
    TermInitFailed,
    /// A control sequence could not be written.
    CsiFailed,
    /// A `[+...]` markup block names neither `fg:` nor `bg:`.
    InvalidColorLocation,
    /// A `[-...]` markup block names neither `fg`, `bg` nor `all`.
    InvalidResetSpecifier,
    /// No color goes by the given name.
    UnknownColorName(String),
    /// The terminal did not answer a cursor query with a valid sequence.
    InvalidCursorPosition,
    /// The width of a tab character could not be measured.
    FailedToGetTabWidth,
    /// A line could not be read from the input.
    ReadLineFailed,
    /// Bytes could not be written to the output.
    FailedWriteToStdout,
    /// A line could not be aligned to the right.
    FailedToAlignRight,
    /// A line could not be centered.
    FailedToAlignCenter,
    /// A required terminfo capability is missing.
    MissingTermInfoField(StringField),
    /// A terminfo capability string failed to run.
    FailedToRunTerminfo(StringField),
}

} // verus!
