//! The operand type of the capability-string interpreter: a typed value
//! that can sit in a parameter slot or on the evaluation stack.

use vstd::prelude::*;

use vstd::string::StringSliceAdditionalSpecFns;

verus! {

/// The mathematical value of an operand.
pub ghost enum ArgV {
    Integer(i64),
    Str(Seq<u8>),
    Char(u8),
}

/// A typed operand: a signed 64-bit integer, a byte string, or a single
/// byte character.
#[derive(Debug, Clone, PartialEq, Eq)]
pub enum Argument {
    Integer(i64),
    Str(Vec<u8>),
    Char(u8),
}

impl View for Argument {
    type V = ArgV;

    open spec fn view(&self) -> ArgV {
        match self {
            Argument::Integer(x) => ArgV::Integer(*x),
            Argument::Str(s) => ArgV::Str(s@),
            Argument::Char(c) => ArgV::Char(*c),
        }
    }
}

impl Argument {
    /// A string operand holding the bytes of `s`.
    pub fn of_str(s: &str) -> (r: Argument)
        ensures
            r@ == ArgV::Str(s.spec_bytes()),
    {
        Argument::Str(vstd::slice::slice_to_vec(s.as_bytes()))
    }

    /// A string operand holding the given bytes.
    pub fn of_bytes(s: &[u8]) -> (r: Argument)
        ensures
            r@ == ArgV::Str(s@),
    {
        Argument::Str(vstd::slice::slice_to_vec(s))
    }
}

impl From<i64> for Argument {
    fn from(s: i64) -> (r: Argument) {
        Argument::Integer(s)
    }
}

impl vstd::std_specs::convert::FromSpecImpl<i64> for Argument {
    open spec fn obeys_from_spec() -> bool {
        true
    }

    open spec fn from_spec(s: i64) -> Argument {
        Argument::Integer(s)
    }
}

impl From<i32> for Argument {
    fn from(s: i32) -> (r: Argument) {
        Argument::Integer(s as i64)
    }
}

impl vstd::std_specs::convert::FromSpecImpl<i32> for Argument {
    open spec fn obeys_from_spec() -> bool {
        true
    }

    open spec fn from_spec(s: i32) -> Argument {
        Argument::Integer(s as i64)
    }
}

impl From<isize> for Argument {
    fn from(s: isize) -> (r: Argument) {
        Argument::Integer(s as i64)
    }
}

impl vstd::std_specs::convert::FromSpecImpl<isize> for Argument {
    open spec fn obeys_from_spec() -> bool {
        true
    }

    open spec fn from_spec(s: isize) -> Argument {
        Argument::Integer(s as i64)
    }
}

impl From<u64> for Argument {
    fn from(s: u64) -> (r: Argument) {
        Argument::Integer(s as i64)
    }
}

impl vstd::std_specs::convert::FromSpecImpl<u64> for Argument {
    open spec fn obeys_from_spec() -> bool {
        true
    }

    open spec fn from_spec(s: u64) -> Argument {
        Argument::Integer(s as i64)
    }
}

impl From<u32> for Argument {
    fn from(s: u32) -> (r: Argument) {
        Argument::Integer(s as i64)
    }
}

impl vstd::std_specs::convert::FromSpecImpl<u32> for Argument {
    open spec fn obeys_from_spec() -> bool {
        true
    }

    open spec fn from_spec(s: u32) -> Argument {
        Argument::Integer(s as i64)
    }
}

impl From<usize> for Argument {
    fn from(s: usize) -> (r: Argument) {
        Argument::Integer(s as i64)
    }
}

impl vstd::std_specs::convert::FromSpecImpl<usize> for Argument {
    open spec fn obeys_from_spec() -> bool {
        true
    }

    open spec fn from_spec(s: usize) -> Argument {
        Argument::Integer(s as i64)
    }
}

impl From<char> for Argument {
    fn from(c: char) -> (r: Argument) {
        Argument::Char(c as u8)
    }
}

impl vstd::std_specs::convert::FromSpecImpl<char> for Argument {
    open spec fn obeys_from_spec() -> bool {
        true
    }

    open spec fn from_spec(c: char) -> Argument {
        Argument::Char(c as u8)
    }
}

impl From<u8> for Argument {
    fn from(c: u8) -> (r: Argument) {
        Argument::Char(c)
    }
}

impl vstd::std_specs::convert::FromSpecImpl<u8> for Argument {
    open spec fn obeys_from_spec() -> bool {
        true
    }

    open spec fn from_spec(c: u8) -> Argument {
        Argument::Char(c)
    }
}

impl From<bool> for Argument {
    fn from(b: bool) -> (r: Argument) {
        Argument::Integer(
            if b {
                1
            } else {
                0
            },
        )
    }
}

impl vstd::std_specs::convert::FromSpecImpl<bool> for Argument {
    open spec fn obeys_from_spec() -> bool {
        true
    }

    open spec fn from_spec(b: bool) -> Argument {
        Argument::Integer(
            if b {
                1
            } else {
                0
            },
        )
    }
}

} // verus!
