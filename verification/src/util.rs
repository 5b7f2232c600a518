//! Byte-level helpers shared by the terminfo reader and the escape-sequence
//! composers: little-endian reads, NUL scanning and decimal rendering.

use vstd::prelude::*;

verus! {

/// The 16-bit sentinel that a compiled terminfo file stores for an absent
/// capability.
pub const INVALID: u16 = 0xFFFF;

/// The terminfo "absent" sentinel, `0xFFFF`.
pub fn invalid() -> (r: u16)
    ensures
        r == INVALID,
{
    0xFFFF
}

/// What `read_le_u16` returns: the little-endian 16-bit word starting at byte
/// `2 * i`, or the absent sentinel when the buffer cannot hold even one word.
pub open spec fn spec_read_le_u16(b: Seq<u8>, i: int) -> u16 {
    if b.len() < 2 {
        0xFFFFu16
    } else {
        (b[2 * i] + 256 * b[2 * i + 1]) as u16
    }
}

/// Read a little endian `u16` from a byte slice.
///
/// `i` is the word's offset in two-byte blocks: the read starts at `b[2 * i]`.
/// A buffer shorter than two bytes yields the absent sentinel.
pub fn read_le_u16(b: &[u8], i: usize) -> (r: u16)
    requires
        b@.len() >= 2 ==> 2 * (i as int) + 2 <= b@.len(),
    ensures
        r == spec_read_le_u16(b@, i as int),
{
    if b.len() < 2 {
        return 0xFFFF;
    }
    let lo: u16 = b[2 * i] as u16;
    let hi: u16 = b[2 * i + 1] as u16;
    lo + 256 * hi
}

/// What `read_le_u32` returns: the little-endian 32-bit word starting at byte
/// `4 * i`, or `0xFFFF` when the buffer cannot hold even one word.
pub open spec fn spec_read_le_u32(b: Seq<u8>, i: int) -> u32 {
    if b.len() < 4 {
        0xFFFFu32
    } else {
        (b[4 * i] + 0x100 * b[4 * i + 1] + 0x10000 * b[4 * i + 2] + 0x1000000 * b[4 * i
            + 3]) as u32
    }
}

/// Read a little endian `u32` from a byte slice.
///
/// `i` is the word's offset in four-byte blocks: the read starts at `b[4 * i]`.
/// A buffer shorter than four bytes yields the absent sentinel.
pub fn read_le_u32(b: &[u8], i: usize) -> (r: u32)
    requires
        b@.len() >= 4 ==> 4 * (i as int) + 4 <= b@.len(),
    ensures
        r == spec_read_le_u32(b@, i as int),
{
    if b.len() < 4 {
        return 0xFFFF;
    }
    let b0: u32 = b[4 * i] as u32;
    let b1: u32 = b[4 * i + 1] as u32;
    let b2: u32 = b[4 * i + 2] as u32;
    let b3: u32 = b[4 * i + 3] as u32;
    b0 + 0x100 * b1 + 0x10000 * b2 + 0x1000000 * b3
}

/// The index of the first NUL byte of `s`, or `s.len()` when `s` holds none.
pub open spec fn spec_strlen(s: Seq<u8>) -> nat
    decreases s.len(),
{
    if s.len() == 0 {
        0
    } else if s[0] == 0 {
        0
    } else {
        1 + spec_strlen(s.drop_first())
    }
}

/// `spec_strlen` marks the first NUL: everything before it is non-zero, and
/// the byte there (if any) is zero.
pub proof fn lemma_strlen(s: Seq<u8>)
    ensures
        spec_strlen(s) <= s.len(),
        forall|j: int| 0 <= j < spec_strlen(s) ==> s[j] != 0,
        spec_strlen(s) < s.len() ==> s[spec_strlen(s) as int] == 0,
    decreases s.len(),
{
    if s.len() != 0 && s[0] != 0 {
        lemma_strlen(s.drop_first());
        assert forall|j: int| 0 <= j < spec_strlen(s) implies s[j] != 0 by {
            if j > 0 {
                assert(s.drop_first()[j - 1] != 0);
            }
        }
    }
}

/// Any index with the first-NUL properties is `spec_strlen`.
pub proof fn lemma_strlen_unique(s: Seq<u8>, r: int)
    requires
        0 <= r <= s.len(),
        forall|j: int| 0 <= j < r ==> s[j] != 0,
        r < s.len() ==> s[r] == 0,
    ensures
        r == spec_strlen(s),
    decreases s.len(),
{
    if s.len() != 0 && s[0] != 0 {
        assert(r >= 1);
        lemma_strlen_unique(s.drop_first(), r - 1);
    }
}

/// The number of bytes before the first NUL byte in `s`, or `s.len()` when no
/// NUL byte is found.
pub fn strlen(s: &[u8]) -> (r: usize)
    ensures
        r == spec_strlen(s@),
{
    let mut i: usize = 0;
    while i < s.len() && s[i] != 0
        invariant
            0 <= i <= s@.len(),
            forall|j: int| 0 <= j < i ==> s@[j] != 0,
        decreases s@.len() - i,
    {
        i += 1;
    }
    proof {
        lemma_strlen_unique(s@, i as int);
    }
    i
}

/// True when some byte of the 64-bit word `num` is zero.
pub open spec fn spec_has_null_byte(num: u64) -> bool {
    num & 0xFF == 0 || (num >> 8) & 0xFF == 0 || (num >> 16) & 0xFF == 0 || (num >> 24) & 0xFF == 0
        || (num >> 32) & 0xFF == 0 || (num >> 40) & 0xFF == 0 || (num >> 48) & 0xFF == 0 || (num
        >> 56) & 0xFF == 0
}

/// Check if there is at least one zero byte in `num`, a word at a time, with
/// the classic carry-and-mask trick.
pub fn has_null_byte(num: u64) -> (r: bool)
    ensures
        r == spec_has_null_byte(num),
{
    let d = num.wrapping_sub(0x0101010101010101);
    proof {
        if num >= 0x0101010101010101 {
            assert(((((num - 0x0101010101010101) as u64) & !num & 0x8080808080808080) != 0)
                == spec_has_null_byte(num)) by (bit_vector)
                requires
                    num >= 0x0101010101010101,
            ;
        } else {
            assert(((((num - 0x0101010101010101 + 0x10000000000000000) as u64) & !num
                & 0x8080808080808080) != 0) == spec_has_null_byte(num)) by (bit_vector)
                requires
                    num < 0x0101010101010101,
            ;
        }
    }
    (d & !num & 0x8080808080808080) != 0
}

/// The ASCII digit for `d`.
pub open spec fn spec_dec_digit(d: int) -> u8 {
    (0x30 + d) as u8
}

/// The shortest decimal rendering of `n`, most significant digit first.
pub open spec fn spec_dec_nat(n: nat) -> Seq<u8>
    decreases n,
{
    if n < 10 {
        seq![spec_dec_digit(n as int)]
    } else {
        spec_dec_nat(n / 10).push(spec_dec_digit((n % 10) as int))
    }
}

/// Append the decimal rendering of `n` to `w`.
pub fn push_dec_u64(w: &mut Vec<u8>, n: u64)
    ensures
        final(w)@ == old(w)@ + spec_dec_nat(n as nat),
    decreases n,
{
    if n >= 10 {
        push_dec_u64(w, n / 10);
    }
    w.push(0x30 + (n % 10) as u8);
}

/// The bytes `write_u8_ansi` emits: nothing at all for zero, the plain
/// decimal rendering otherwise.
pub open spec fn spec_dec_u8_ansi(n: u8) -> Seq<u8> {
    if n == 0 {
        Seq::empty()
    } else {
        spec_dec_nat(n as nat)
    }
}

/// Append `num` to `w` in the form an ANSI-escape composer wants.
///
/// Zero produces no bytes at all: the composers that call this helper elide
/// default ANSI parameters, so the literal `"0"` is never needed.  That is a
/// contract, not an accident.  Returns how many bytes were appended.
pub fn write_u8_ansi(w: &mut Vec<u8>, num: u8) -> (r: usize)
    ensures
        final(w)@ == old(w)@ + spec_dec_u8_ansi(num),
        r == spec_dec_u8_ansi(num).len(),
{
    if num == 0 {
        assert(w@ =~= old(w)@ + spec_dec_u8_ansi(num));
        return 0;
    }
    let ghost w0 = w@;
    let len0 = w.len();
    push_dec_u64(w, num as u64);
    w.len() - len0
}

/// Relies on `String::from_utf8`: it succeeds exactly on valid UTF-8 and
/// returns the string those bytes encode.
#[verifier::external_body]
pub(crate) fn bytes_to_string(v: Vec<u8>) -> (r: Option<String>)
    ensures
        match r {
            Some(s) => vstd::utf8::valid_utf8(v@) && s@ == vstd::utf8::decode_utf8(v@),
            None => !vstd::utf8::valid_utf8(v@),
        },
{
    match String::from_utf8(v) {
        Ok(s) => Some(s),
        Err(_) => None,
    }
}

} // verus!
