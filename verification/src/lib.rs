//! A library for terminfo-driven terminal programming.
//!
//! The heart of the crate is the `terminfo` module: a zero-copy parser for
//! compiled `terminfo(5)` files, an owned mutable mirror of a parsed file,
//! and an interpreter for the parameterised capability strings the format
//! embeds.  Around it sit small helpers that compose ANSI and XTerm escape
//! sequences byte for byte.

pub mod ansi;
pub mod events;
pub mod kitty;
pub mod rawterm;
pub mod term;
pub mod xterm;
pub mod errors;
pub mod format;
pub mod lang;
pub mod terminfo;
pub mod util;

