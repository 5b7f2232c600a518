//! The error kinds the terminfo layer and the capability-string interpreter
//! report.  Failures are plain values; no kind is ever produced for an absent
//! capability, which lookups report as `false` or `None` instead.

use vstd::prelude::*;

verus! {

/// The operand types the capability-string interpreter distinguishes, as
/// they appear in an `UnexpectedArgumentType` report.
#[derive(Debug, Clone, Copy, PartialEq, Eq, Structural)]
pub enum ArgType {
    /// A 64-bit signed integer operand.
    Integer,
    /// A byte-string operand.
    Str,
    /// A single-byte character operand.
    Char,
    /// No operand at all: an empty stack or an unset parameter.
    Null,
}

/// Outlines the various points where the terminfo routines may fail.
#[derive(Debug, Clone, Copy, PartialEq, Eq, Structural)]
pub enum ErrorKind {
    /// No compiled terminfo file could be located for the terminal.
    FailedToFindTermInfo,
    /// A located file could not be read or parsed.
    FailedToParseFile,
    /// The buffer does not start with the 16-bit magic word `0o432`.
    InvalidMagicNumber,
    /// The sections the header declares run past the end of the buffer.
    IncompleteTermInfo,
    /// A string-table offset would reach the absent sentinel.
    MaxStrTabSizeReached,
    /// A read at the first index was asked of a table with only the second
    /// many bytes.
    OutOfRange(usize, usize),
    /// The buffer is too short to hold the six-word header.
    IncompleteTermInfoHeader,
    /// A string could not be read out of a string table.
    FailedToReadStringFromTable,
    /// The extended sections run past the end of the buffer.
    IncompleteExtendedTermInfo,
    /// Bytes follow the base sections, but too few for an extended header.
    IncompleteExtendedHeader,
    /// A capability array cannot grow past `0xFFFF` entries.
    MaximumCapabilityCountExceeded,
    /// A `%` conversion carries no valid terminating letter.
    BadPrintfSpecifier,
    /// A `.` in a `%` conversion is not followed by digits.
    BadPrecisionSpecified,
    /// The given byte is not a decimal digit.
    InvalidDigit(u8),
    /// An argument could not be written to the output.
    FailedToWriteArgument,
    /// `%p` is not followed by a digit between 1 and 9.
    InvalidArgumentIdentifier,
    /// An instruction wanted the first operand type but found the second.
    UnexpectedArgumentType(ArgType, ArgType),
    /// A string literal could not be written to the output.
    FailedToWriteStringLiteral,
    /// The capability string stops in the middle of a directive.
    UnexpectedEof,
}

} // verus!
