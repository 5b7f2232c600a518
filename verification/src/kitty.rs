//! Kitty extensions to the xterm protocol: styled underlines and
//! underline colors.

use vstd::prelude::*;

use crate::ansi::Color;
use crate::errors::ErrorKind;
use crate::util::push_dec_u64;
use crate::util::spec_dec_nat;

verus! {

/// An underline style.
#[derive(Debug, Copy, Clone, PartialEq, Eq, Structural)]
pub enum Underline {
    Off,
    Straight,
    Double,
    Curly,
    Dotted,
    Dashed,
}

impl Underline {
    /// The style's numeric parameter.
    pub open spec fn spec_code(self) -> u8 {
        match self {
            Underline::Off => 0,
            Underline::Straight => 1,
            Underline::Double => 2,
            Underline::Curly => 3,
            Underline::Dotted => 4,
            Underline::Dashed => 5,
        }
    }

    /// The style's numeric parameter.
    pub fn code(self) -> (r: u8)
        ensures
            r == self.spec_code(),
    {
        match self {
            Underline::Off => 0,
            Underline::Straight => 1,
            Underline::Double => 2,
            Underline::Curly => 3,
            Underline::Dotted => 4,
            Underline::Dashed => 5,
        }
    }
}

/// The sequence that selects an underline style: `ESC ] 4:` then the
/// style code and `m`.
pub open spec fn spec_set_underline(u: Underline) -> Seq<u8> {
    seq![27u8, 93u8, 52u8, 58u8] + spec_dec_nat(u.spec_code() as nat) + seq![109u8]
}

/// Append the underline-style sequence for `u` to `w`.
pub fn set_underline(w: &mut Vec<u8>, u: Underline) -> (r: Result<(), ErrorKind>)
    ensures
        r is Ok,
        final(w)@ == old(w)@ + spec_set_underline(u),
{
    w.push(27);
    w.push(93);
    w.push(52);
    w.push(58);
    push_dec_u64(w, u.code() as u64);
    w.push(109);
    proof {
        assert(w@ =~= old(w)@ + spec_set_underline(u));
    }
    Ok(())
}

/// The sequence that sets the underline color: `58;5;` with a palette
/// index, `58;2;` with an RGB triple.
pub open spec fn spec_set_underline_color(c: Color) -> Seq<u8> {
    match c {
        Color::Index(i) => seq![27u8, 93u8, 53u8, 56u8, 59u8, 53u8, 59u8] + spec_dec_nat(i as nat)
            + seq![109u8],
        Color::Rgb(r, g, b) => seq![27u8, 93u8, 53u8, 56u8, 59u8, 50u8, 59u8] + spec_dec_nat(
            r as nat,
        ) + seq![59u8] + spec_dec_nat(g as nat) + seq![59u8] + spec_dec_nat(b as nat) + seq![109u8],
    }
}

/// Append the underline-color sequence for `c` to `w`.
pub fn set_underline_color(w: &mut Vec<u8>, c: Color) -> (r: Result<(), ErrorKind>)
    ensures
        r is Ok,
        final(w)@ == old(w)@ + spec_set_underline_color(c),
{
    w.push(27);
    w.push(93);
    w.push(53);
    w.push(56);
    w.push(59);
    match c {
        Color::Index(i) => {
            w.push(53);
            w.push(59);
            push_dec_u64(w, i as u64);
        },
        Color::Rgb(r, g, b) => {
            w.push(50);
            w.push(59);
            push_dec_u64(w, r as u64);
            w.push(59);
            push_dec_u64(w, g as u64);
            w.push(59);
            push_dec_u64(w, b as u64);
        },
    }
    w.push(109);
    proof {
        assert(w@ =~= old(w)@ + spec_set_underline_color(c));
    }
    Ok(())
}

/// The sequence that resets the underline color.
pub open spec fn spec_reset_underline_color() -> Seq<u8> {
    seq![27u8, 93u8, 53u8, 57u8, 109u8]
}

/// Append the reset-underline-color sequence to `w`.
pub fn reset_underline_color(w: &mut Vec<u8>) -> (r: Result<(), ErrorKind>)
    ensures
        r is Ok,
        final(w)@ == old(w)@ + spec_reset_underline_color(),
{
    w.push(27);
    w.push(93);
    w.push(53);
    w.push(57);
    w.push(109);
    proof {
        assert(w@ =~= old(w)@ + spec_reset_underline_color());
    }
    Ok(())
}

} // verus!
