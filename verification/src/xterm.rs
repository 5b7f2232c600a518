//! Composers for the XTerm operating-system commands: icon and title
//! strings, X properties and color queries.  They work on any
//! xterm-descended terminal.

use vstd::prelude::*;

use crate::errors::ErrorKind;
use crate::util::push_dec_u64;
use crate::util::spec_dec_nat;
use vstd::string::StringSliceAdditionalSpecFns;

verus! {

/// The opener of every such command: `ESC [`, followed by the command
/// number and a semicolon.
pub open spec fn spec_osc_open(num: u8) -> Seq<u8> {
    seq![27u8, 91u8] + spec_dec_nat(num as nat) + seq![59u8]
}

/// The closer of every such command: `ESC \`.
pub open spec fn spec_osc_close() -> Seq<u8> {
    seq![27u8, 92u8]
}

/// Append the sequence that sets both icon and title to `w`.
pub fn set_icon_and_title(w: &mut Vec<u8>, s: &str) -> (r: Result<(), ErrorKind>)
    ensures
        r is Ok,
        final(w)@ == old(w)@ + spec_osc_open(0) + s.spec_bytes() + spec_osc_close(),
{
    osc_str(w, 0, s);
    Ok(())
}

/// Append the sequence that sets the icon to `w`.
pub fn set_icon(w: &mut Vec<u8>, s: &str) -> (r: Result<(), ErrorKind>)
    ensures
        r is Ok,
        final(w)@ == old(w)@ + spec_osc_open(1) + s.spec_bytes() + spec_osc_close(),
{
    osc_str(w, 1, s);
    Ok(())
}

/// Append the sequence that sets the title to `w`.
pub fn set_title(w: &mut Vec<u8>, s: &str) -> (r: Result<(), ErrorKind>)
    ensures
        r is Ok,
        final(w)@ == old(w)@ + spec_osc_open(2) + s.spec_bytes() + spec_osc_close(),
{
    osc_str(w, 2, s);
    Ok(())
}

/// Append the sequence that resets the title to `w`.
pub fn reset_title(w: &mut Vec<u8>) -> (r: Result<(), ErrorKind>)
    ensures
        r is Ok,
        final(w)@ == old(w)@ + spec_osc_open(2) + spec_osc_close(),
{
    w.push(27);
    w.push(91);
    push_dec_u64(w, 2);
    w.push(59);
    w.push(27);
    w.push(92);
    proof {
        assert(w@ =~= old(w)@ + spec_osc_open(2) + spec_osc_close());
    }
    Ok(())
}

/// Append the sequence that sets X property `k` to `v`.
pub fn set_x_property(w: &mut Vec<u8>, k: &str, v: &str) -> (r: Result<(), ErrorKind>)
    ensures
        r is Ok,
        final(w)@ == old(w)@ + spec_osc_open(3) + k.spec_bytes() + seq![61u8] + v.spec_bytes()
            + spec_osc_close(),
{
    w.push(27);
    w.push(91);
    push_dec_u64(w, 3);
    w.push(59);
    crate::lang::printf::append_slice(w, k.as_bytes());
    w.push(61);
    crate::lang::printf::append_slice(w, v.as_bytes());
    w.push(27);
    w.push(92);
    proof {
        assert(w@ =~= old(w)@ + spec_osc_open(3) + k.spec_bytes() + seq![61u8] + v.spec_bytes()
            + spec_osc_close());
    }
    Ok(())
}

/// Append the sequence that removes X property `k`.
pub fn remove_x_property(w: &mut Vec<u8>, k: &str) -> (r: Result<(), ErrorKind>)
    ensures
        r is Ok,
        final(w)@ == old(w)@ + spec_osc_open(3) + k.spec_bytes() + spec_osc_close(),
{
    osc_str(w, 3, k);
    Ok(())
}

/// Append the sequence that queries X property `k`.
pub fn query_x_property(w: &mut Vec<u8>, k: &str) -> (r: Result<(), ErrorKind>)
    ensures
        r is Ok,
        final(w)@ == old(w)@ + spec_osc_open(3) + seq![63u8] + k.spec_bytes() + spec_osc_close(),
{
    w.push(27);
    w.push(91);
    push_dec_u64(w, 3);
    w.push(59);
    w.push(63);
    crate::lang::printf::append_slice(w, k.as_bytes());
    w.push(27);
    w.push(92);
    proof {
        assert(w@ =~= old(w)@ + spec_osc_open(3) + seq![63u8] + k.spec_bytes() + spec_osc_close());
    }
    Ok(())
}

/// Append the sequence that queries the palette entry `c`.
pub fn query_color(w: &mut Vec<u8>, c: u8) -> (r: Result<(), ErrorKind>)
    ensures
        r is Ok,
        final(w)@ == old(w)@ + spec_osc_open(4) + spec_dec_nat(c as nat) + seq![59u8, 63u8]
            + spec_osc_close(),
{
    w.push(27);
    w.push(91);
    push_dec_u64(w, 4);
    w.push(59);
    push_dec_u64(w, c as u64);
    w.push(59);
    w.push(63);
    w.push(27);
    w.push(92);
    proof {
        assert(w@ =~= old(w)@ + spec_osc_open(4) + spec_dec_nat(c as nat) + seq![59u8, 63u8]
            + spec_osc_close());
    }
    Ok(())
}

/// Append the command opener, the string, and the closer.
fn osc_str(w: &mut Vec<u8>, num: u8, s: &str)
    ensures
        final(w)@ == old(w)@ + spec_osc_open(num) + s.spec_bytes() + spec_osc_close(),
{
    w.push(27);
    w.push(91);
    push_dec_u64(w, num as u64);
    w.push(59);
    crate::lang::printf::append_slice(w, s.as_bytes());
    w.push(27);
    w.push(92);
    proof {
        assert(w@ =~= old(w)@ + spec_osc_open(num) + s.spec_bytes() + spec_osc_close());
    }
}

} // verus!
