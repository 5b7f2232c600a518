//! The printf subset the capability language uses: `%` conversion
//! specifications with flags, width and precision, for the conversions
//! `d o x X s c`.
//!
//! Flags are introduced by a leading `:`; precision truncates an integer's
//! digits (most significant first) rather than setting a minimum digit
//! count, and formatting zero emits no digits at all — both kept for
//! compatibility with the capability strings this library interprets.

use vstd::prelude::*;

use crate::lang::argument::ArgV;
use crate::lang::argument::Argument;
use crate::terminfo::errors::ArgType;
use crate::terminfo::errors::ErrorKind;

verus! {

/// A parsed conversion specification.
#[derive(Debug, Clone, Copy, PartialEq, Eq)]
pub struct PrintfArgs {
    /// Pad on the right instead of the left (`-`).
    pub left_align: bool,
    /// Put `+` before a non-negative number (`+`).
    pub show_sign: bool,
    /// Put a space before a non-negative number (` `).
    pub pad_sign: bool,
    /// Alternate form: a leading `0` for octal, `0x`/`0X` for hex (`#`).
    pub alt: bool,
    /// Pad with spaces up to this many bytes.
    pub width: Option<usize>,
    /// Keep at most this many digits, or string bytes.
    pub prec: Option<usize>,
    /// The conversion letter: one of `d o x X s c`.
    pub character: char,
}

/// An ASCII decimal digit.
pub open spec fn spec_is_digit(c: u8) -> bool {
    0x30 <= c <= 0x39
}

/// A printf flag byte: `+`, `-`, `#` or space.
pub open spec fn spec_is_flag(c: u8) -> bool {
    c == 43 || c == 45 || c == 35 || c == 32
}

/// A byte that ends a conversion specification: one of `x X c d o s`.
pub open spec fn spec_is_term(c: u8) -> bool {
    c == 120 || c == 88 || c == 99 || c == 100 || c == 111 || c == 115
}

/// How many consecutive digits start at `i`.
pub open spec fn spec_digit_run(s: Seq<u8>, i: int) -> int
    decreases s.len() - i,
{
    if i < 0 || i >= s.len() || !spec_is_digit(s[i]) {
        0
    } else {
        1 + spec_digit_run(s, i + 1)
    }
}

/// How many consecutive flag bytes start at `i`.
pub open spec fn spec_flag_run(s: Seq<u8>, i: int) -> int
    decreases s.len() - i,
{
    if i < 0 || i >= s.len() || !spec_is_flag(s[i]) {
        0
    } else {
        1 + spec_flag_run(s, i + 1)
    }
}

/// How many consecutive non-terminator bytes start at `i`.
pub open spec fn spec_nonterm_run(s: Seq<u8>, i: int) -> int
    decreases s.len() - i,
{
    if i < 0 || i >= s.len() || spec_is_term(s[i]) {
        0
    } else {
        1 + spec_nonterm_run(s, i + 1)
    }
}

/// The decimal value of the `n` digits starting at `i`.
pub open spec fn spec_dec_value(s: Seq<u8>, i: int, n: int) -> int
    decreases n,
{
    if n <= 0 {
        0
    } else {
        spec_dec_value(s, i, n - 1) * 10 + (s[i + n - 1] - 0x30)
    }
}

/// A run's digits, run length and value behave as expected.
pub proof fn lemma_digit_run_unique(s: Seq<u8>, i: int, k: int)
    requires
        0 <= i,
        i + k <= s.len(),
        0 <= k,
        forall|j: int| i <= j < i + k ==> spec_is_digit(s[j]),
        i + k < s.len() ==> !spec_is_digit(s[i + k]),
    ensures
        spec_digit_run(s, i) == k,
    decreases k,
{
    if k > 0 {
        lemma_digit_run_unique(s, i + 1, k - 1);
    }
}

/// Any run of flag bytes that stops at a non-flag is the flag run.
pub proof fn lemma_flag_run_unique(s: Seq<u8>, i: int, k: int)
    requires
        0 <= i,
        i + k <= s.len(),
        0 <= k,
        forall|j: int| i <= j < i + k ==> spec_is_flag(s[j]),
        i + k < s.len() ==> !spec_is_flag(s[i + k]),
    ensures
        spec_flag_run(s, i) == k,
    decreases k,
{
    if k > 0 {
        lemma_flag_run_unique(s, i + 1, k - 1);
    }
}

/// Any run of non-terminators that stops at a terminator is the run.
pub proof fn lemma_nonterm_run_unique(s: Seq<u8>, i: int, k: int)
    requires
        0 <= i,
        i + k <= s.len(),
        0 <= k,
        forall|j: int| i <= j < i + k ==> !spec_is_term(s[j]),
        i + k < s.len() ==> spec_is_term(s[i + k]),
    ensures
        spec_nonterm_run(s, i) == k,
    decreases k,
{
    if k > 0 {
        lemma_nonterm_run_unique(s, i + 1, k - 1);
    }
}

/// Digit values never go negative, so a value only grows with more digits.
pub proof fn lemma_dec_value_nonneg(s: Seq<u8>, i: int, n: int)
    requires
        forall|j: int| i <= j < i + n ==> spec_is_digit(s[j]),
    ensures
        spec_dec_value(s, i, n) >= 0,
    decreases n,
{
    if n > 0 {
        lemma_dec_value_nonneg(s, i, n - 1);
    }
}

/// The conversion letter for a terminator byte.
pub open spec fn spec_conv_char(c: u8) -> char {
    if c == 120 {
        'x'
    } else if c == 88 {
        'X'
    } else if c == 99 {
        'c'
    } else if c == 100 {
        'd'
    } else if c == 111 {
        'o'
    } else {
        's'
    }
}

/// The specification with everything off.
pub open spec fn spec_printf_plain() -> PrintfArgs {
    PrintfArgs {
        left_align: false,
        show_sign: false,
        pad_sign: false,
        alt: false,
        width: None,
        prec: None,
        character: ' ',
    }
}

/// The conversion letter, parsed at position `i`.
pub open spec fn spec_parse_specifier(s: Seq<u8>, i: int, a: PrintfArgs) -> Result<
    PrintfArgs,
    ErrorKind,
> {
    if 0 <= i < s.len() && spec_is_term(s[i]) {
        Ok(PrintfArgs { character: spec_conv_char(s[i]), ..a })
    } else {
        Err(ErrorKind::BadPrintfSpecifier)
    }
}

/// Width, optional precision and the conversion letter, parsed from `i`.
/// A width or precision above `0xFFFF` is rejected, as is a `.` that no
/// digit follows.
pub open spec fn spec_parse_width(s: Seq<u8>, i: int, a: PrintfArgs) -> Result<
    PrintfArgs,
    ErrorKind,
> {
    let wr = spec_digit_run(s, i);
    let wv = spec_dec_value(s, i, wr);
    if wr > 0 && wv > 0xFFFF {
        Err(ErrorKind::BadPrecisionSpecified)
    } else {
        let a1 = if wr > 0 {
            PrintfArgs { width: Some(wv as usize), ..a }
        } else {
            a
        };
        let j = i + wr;
        if j < s.len() && s[j] == 46 {
            let pr = spec_digit_run(s, j + 1);
            let pv = spec_dec_value(s, j + 1, pr);
            if pr == 0 || pv > 0xFFFF {
                Err(ErrorKind::BadPrecisionSpecified)
            } else {
                spec_parse_specifier(s, j + 1 + pr, PrintfArgs { prec: Some(pv as usize), ..a1 })
            }
        } else {
            spec_parse_specifier(s, j, a1)
        }
    }
}

/// Flags (after a leading `:`), then width and the rest.
pub open spec fn spec_parse_flags(s: Seq<u8>, i: int) -> Result<PrintfArgs, ErrorKind> {
    let fr = spec_flag_run(s, i);
    let a = PrintfArgs {
        show_sign: exists|k: int| i <= k < i + fr && s[k] == 43,
        left_align: exists|k: int| i <= k < i + fr && s[k] == 45,
        alt: exists|k: int| i <= k < i + fr && s[k] == 35,
        pad_sign: exists|k: int| i <= k < i + fr && s[k] == 32,
        ..spec_printf_plain()
    };
    spec_parse_width(s, i + fr, a)
}

/// What `PrintfArgs::parse` returns for the given bytes.
pub open spec fn spec_parse_printf(s: Seq<u8>) -> Result<PrintfArgs, ErrorKind> {
    if s.len() < 1 {
        Err(ErrorKind::BadPrintfSpecifier)
    } else if s[0] == 58 {
        spec_parse_flags(s, 1)
    } else if spec_is_digit(s[0]) || s[0] == 46 {
        spec_parse_width(s, 0, spec_printf_plain())
    } else {
        spec_parse_specifier(s, 0, spec_printf_plain())
    }
}

/// The digit byte for value `d` in a radix up to 16.
pub open spec fn spec_radix_digit(d: int, upper: bool) -> u8 {
    if d < 10 {
        (0x30 + d) as u8
    } else if upper {
        (0x41 + d - 10) as u8
    } else {
        (0x61 + d - 10) as u8
    }
}

/// The digits of `n` in the given radix, most significant first.
pub open spec fn spec_radix_digits(n: nat, radix: nat, upper: bool) -> Seq<u8>
    recommends
        2 <= radix <= 16,
    decreases n,
    via spec_radix_digits_decreases
{
    if radix < 2 {
        Seq::empty()
    } else if n < radix {
        seq![spec_radix_digit(n as int, upper)]
    } else {
        spec_radix_digits(n / radix, radix, upper).push(
            spec_radix_digit((n % radix) as int, upper),
        )
    }
}

#[via_fn]
proof fn spec_radix_digits_decreases(n: nat, radix: nat, upper: bool) {
    if radix >= 2 && n >= radix {
        assert(n / radix < n) by (nonlinear_arith)
            requires
                n >= radix,
                radix >= 2,
        ;
    }
}

/// The radix of a conversion letter, or zero when it is not numeric.
pub open spec fn spec_radix_of(c: char) -> nat {
    if c == 'x' || c == 'X' {
        16
    } else if c == 'o' {
        8
    } else if c == 'd' {
        10
    } else {
        0
    }
}

/// The magnitude of `num`.
pub open spec fn spec_mag(num: i64) -> nat {
    if num < 0 {
        (-(num as int)) as nat
    } else {
        num as nat
    }
}

/// The sign and alternate-form bytes that precede a number's digits.
pub open spec fn spec_num_prefix(a: PrintfArgs, num: i64) -> Seq<u8> {
    let sign: Seq<u8> = if num < 0 {
        seq![45u8]
    } else if a.pad_sign {
        seq![32u8]
    } else if a.show_sign {
        seq![43u8]
    } else {
        Seq::empty()
    };
    let alt: Seq<u8> = if a.alt && a.character == 'o' {
        seq![48u8]
    } else if a.alt && a.character == 'X' {
        seq![48u8, 88u8]
    } else if a.alt && (a.character == 'x') {
        seq![48u8, 120u8]
    } else {
        Seq::empty()
    };
    sign + alt
}

/// `body` padded with spaces to the specification's width: on the left by
/// default, on the right when `-` was given.
pub open spec fn spec_pad(a: PrintfArgs, body: Seq<u8>) -> Seq<u8> {
    match a.width {
        Some(wd) => if body.len() < wd {
            let spaces = Seq::new((wd - body.len()) as nat, |k: int| 32u8);
            if a.left_align {
                body + spaces
            } else {
                spaces + body
            }
        } else {
            body
        },
        None => body,
    }
}

/// The bytes a numeric conversion produces: prefix, then the magnitude's
/// digits — none at all for zero — truncated to the precision, padded to
/// the width.  Precision keeps the most significant digits and never eats
/// the prefix.
pub open spec fn spec_fmt_number(a: PrintfArgs, num: i64) -> Seq<u8> {
    let radix = spec_radix_of(a.character);
    let upper = a.character == 'X';
    let digits: Seq<u8> = if spec_mag(num) == 0 {
        Seq::empty()
    } else {
        spec_radix_digits(spec_mag(num), radix, upper)
    };
    let digits2 = match a.prec {
        Some(p) => if digits.len() > p {
            digits.subrange(0, p as int)
        } else {
            digits
        },
        None => digits,
    };
    spec_pad(a, spec_num_prefix(a, num) + digits2)
}

/// What `write_number` appends, or the error it reports: a numeric
/// conversion formats the number; `s` and `c` conversions reject an
/// integer operand.
pub open spec fn spec_write_number_res(a: PrintfArgs, num: i64) -> Result<Seq<u8>, ErrorKind> {
    if a.character == 's' {
        Err(ErrorKind::UnexpectedArgumentType(ArgType::Str, ArgType::Integer))
    } else if a.character == 'c' {
        Err(ErrorKind::UnexpectedArgumentType(ArgType::Char, ArgType::Integer))
    } else if a.character == 'x' || a.character == 'X' || a.character == 'o' || a.character
        == 'd' {
        Ok(spec_fmt_number(a, num))
    } else {
        Err(ErrorKind::UnexpectedArgumentType(ArgType::Null, ArgType::Integer))
    }
}

/// What `write_string` appends, or the error it reports: the bytes,
/// truncated to the precision and padded to the width.
pub open spec fn spec_write_string_res(a: PrintfArgs, s: Seq<u8>) -> Result<Seq<u8>, ErrorKind> {
    if a.character == 'x' || a.character == 'X' || a.character == 'o' || a.character == 'd' {
        Err(ErrorKind::UnexpectedArgumentType(ArgType::Integer, ArgType::Str))
    } else if a.character == 'c' {
        Err(ErrorKind::UnexpectedArgumentType(ArgType::Char, ArgType::Str))
    } else {
        let body = match a.prec {
            Some(p) => if s.len() > p {
                s.subrange(0, p as int)
            } else {
                s
            },
            None => s,
        };
        Ok(spec_pad(a, body))
    }
}

/// What `write_char` appends, or the error it reports: the one byte,
/// padded to the width; precision is ignored.
pub open spec fn spec_write_char_res(a: PrintfArgs, c: u8) -> Result<Seq<u8>, ErrorKind> {
    if a.character == 'x' || a.character == 'X' || a.character == 'o' || a.character == 'd' {
        Err(ErrorKind::UnexpectedArgumentType(ArgType::Integer, ArgType::Char))
    } else if a.character == 's' {
        Err(ErrorKind::UnexpectedArgumentType(ArgType::Integer, ArgType::Str))
    } else {
        Ok(spec_pad(a, seq![c]))
    }
}

/// What `print` appends for an operand of each type; a missing operand
/// renders as the literal bytes `(null)`, unpadded.
pub open spec fn spec_print_out(a: PrintfArgs, arg: Option<ArgV>) -> Result<Seq<u8>, ErrorKind> {
    match arg {
        None => Ok(seq![40u8, 110u8, 117u8, 108u8, 108u8, 41u8]),
        Some(ArgV::Integer(x)) => spec_write_number_res(a, x),
        Some(ArgV::Str(s)) => spec_write_string_res(a, s),
        Some(ArgV::Char(c)) => spec_write_char_res(a, c),
    }
}

impl PrintfArgs {
    /// Parse one conversion specification from the front of `src`.
    pub fn parse(src: &[u8]) -> (r: Result<PrintfArgs, ErrorKind>)
        ensures
            r == spec_parse_printf(src@),
    {
        if src.len() < 1 {
            return Err(ErrorKind::BadPrintfSpecifier);
        }
        let mut a = PrintfArgs {
            left_align: false,
            show_sign: false,
            pad_sign: false,
            alt: false,
            width: None,
            prec: None,
            character: ' ',
        };
        let mut i: usize = 0;
        if src[0] == 58 {
            i = 1;
            let fstart = i;
            while i < src.len() && (src[i] == 43 || src[i] == 45 || src[i] == 35 || src[i] == 32)
                invariant
                    fstart <= i <= src@.len(),
                    fstart == 1,
                    forall|j: int| fstart <= j < i ==> spec_is_flag(src@[j]),
                    a.show_sign == exists|k: int| fstart <= k < i && src@[k] == 43,
                    a.left_align == exists|k: int| fstart <= k < i && src@[k] == 45,
                    a.alt == exists|k: int| fstart <= k < i && src@[k] == 35,
                    a.pad_sign == exists|k: int| fstart <= k < i && src@[k] == 32,
                    a.width is None && a.prec is None && a.character == ' ',
                decreases src@.len() - i,
            {
                if src[i] == 43 {
                    a.show_sign = true;
                } else if src[i] == 45 {
                    a.left_align = true;
                } else if src[i] == 35 {
                    a.alt = true;
                } else {
                    a.pad_sign = true;
                }
                i += 1;
            }
            proof {
                lemma_flag_run_unique(src@, fstart as int, i - fstart);
            }
        } else if !(48 <= src[0] && src[0] <= 57) && src[0] != 46 {
            return parse_specifier_at(src, 0, a);
        }
        parse_width_at(src, i, a)
    }

    /// Append `num`, formatted under this specification, to `w`; on an
    /// error nothing is appended.
    #[verifier::rlimit(100)]
    #[verifier::spinoff_prover]
    pub fn write_number(&self, w: &mut Vec<u8>, num: i64) -> (r: Result<(), ErrorKind>)
        ensures
            match spec_write_number_res(*self, num) {
                Ok(bytes) => r is Ok && final(w)@ == old(w)@ + bytes,
                Err(e) => r == Err::<(), ErrorKind>(e) && final(w)@ == old(w)@,
            },
    {
        let radix: u64 = if self.character == 'x' || self.character == 'X' {
            16
        } else if self.character == 'o' {
            8
        } else if self.character == 'd' {
            10
        } else if self.character == 's' {
            return Err(ErrorKind::UnexpectedArgumentType(ArgType::Str, ArgType::Integer));
        } else if self.character == 'c' {
            return Err(ErrorKind::UnexpectedArgumentType(ArgType::Char, ArgType::Integer));
        } else {
            return Err(ErrorKind::UnexpectedArgumentType(ArgType::Null, ArgType::Integer));
        };
        let upper = self.character == 'X';
        let mut buf: Vec<u8> = Vec::new();
        if num < 0 {
            buf.push(45);
        } else if self.pad_sign {
            buf.push(32);
        } else if self.show_sign {
            buf.push(43);
        }
        if self.alt && self.character == 'o' {
            buf.push(48);
        } else if self.alt && self.character == 'X' {
            buf.push(48);
            buf.push(88);
        } else if self.alt && self.character == 'x' {
            buf.push(48);
            buf.push(120);
        }
        let prefix_len = buf.len();
        proof {
            assert(buf@ =~= spec_num_prefix(*self, num));
        }
        let mag: u64 = if num == i64::MIN {
            0x8000000000000000u64
        } else if num < 0 {
            (-num) as u64
        } else {
            num as u64
        };
        proof {
            assert(mag as nat == spec_mag(num));
        }
        if mag > 0 {
            push_radix(&mut buf, mag, radix, upper);
        }
        let ghost digits: Seq<u8> = if spec_mag(num) == 0 {
            Seq::<u8>::empty()
        } else {
            spec_radix_digits(spec_mag(num), spec_radix_of(self.character), upper)
        };
        proof {
            assert(buf@ == spec_num_prefix(*self, num) + digits);
            assert(buf@.len() == prefix_len + digits.len());
        }
        let ghost pre_trunc = buf@;
        match self.prec {
            Some(p) => {
                if buf.len() - prefix_len > p {
                    buf.truncate(prefix_len + p);
                    proof {
                        assert(buf@ == pre_trunc.subrange(0, prefix_len + p));
                        assert(buf@ =~= spec_num_prefix(*self, num) + digits.subrange(0, p as int));
                    }
                }
            },
            None => {},
        }
        proof {
            let digits2 = match self.prec {
                Some(p) => if digits.len() > p {
                    digits.subrange(0, p as int)
                } else {
                    digits
                },
                None => digits,
            };
            assert(buf@ =~= spec_num_prefix(*self, num) + digits2);
        }
        pad_into(self, w, buf.as_slice());
        Ok(())
    }

    /// Append the byte string `s`, truncated and padded under this
    /// specification, to `w`; on an error nothing is appended.
    pub fn write_string(&self, w: &mut Vec<u8>, s: &[u8]) -> (r: Result<(), ErrorKind>)
        ensures
            match spec_write_string_res(*self, s@) {
                Ok(bytes) => r is Ok && final(w)@ == old(w)@ + bytes,
                Err(e) => r == Err::<(), ErrorKind>(e) && final(w)@ == old(w)@,
            },
    {
        if self.character == 'x' || self.character == 'X' || self.character == 'o'
            || self.character == 'd' {
            return Err(ErrorKind::UnexpectedArgumentType(ArgType::Integer, ArgType::Str));
        }
        if self.character == 'c' {
            return Err(ErrorKind::UnexpectedArgumentType(ArgType::Char, ArgType::Str));
        }
        let slen = match self.prec {
            Some(p) => if s.len() > p {
                p
            } else {
                s.len()
            },
            None => s.len(),
        };
        let body = vstd::slice::slice_subrange(s, 0, slen);
        proof {
            let expect = match self.prec {
                Some(p) => if s@.len() > p {
                    s@.subrange(0, p as int)
                } else {
                    s@
                },
                None => s@,
            };
            assert(body@ =~= expect);
        }
        pad_into(self, w, body);
        Ok(())
    }

    /// Append the single byte `c`, padded under this specification, to
    /// `w`; on an error nothing is appended.
    pub fn write_char(&self, w: &mut Vec<u8>, c: u8) -> (r: Result<(), ErrorKind>)
        ensures
            match spec_write_char_res(*self, c) {
                Ok(bytes) => r is Ok && final(w)@ == old(w)@ + bytes,
                Err(e) => r == Err::<(), ErrorKind>(e) && final(w)@ == old(w)@,
            },
    {
        if self.character == 'x' || self.character == 'X' || self.character == 'o'
            || self.character == 'd' {
            return Err(ErrorKind::UnexpectedArgumentType(ArgType::Integer, ArgType::Char));
        }
        if self.character == 's' {
            return Err(ErrorKind::UnexpectedArgumentType(ArgType::Integer, ArgType::Str));
        }
        let mut one: Vec<u8> = Vec::new();
        one.push(c);
        proof {
            assert(one@ =~= seq![c]);
        }
        pad_into(self, w, one.as_slice());
        Ok(())
    }

    /// Append the operand under this specification: numbers, strings and
    /// chars go through their writers, and a missing operand renders as
    /// the literal bytes `(null)`.
    pub fn print(&self, w: &mut Vec<u8>, arg: Option<Argument>) -> (r: Result<(), ErrorKind>)
        ensures
            match spec_print_out(
                *self,
                match arg {
                    Some(a) => Some(a@),
                    None => None,
                },
            ) {
                Ok(bytes) => r is Ok && final(w)@ == old(w)@ + bytes,
                Err(e) => r == Err::<(), ErrorKind>(e) && final(w)@ == old(w)@,
            },
    {
        match arg {
            Some(Argument::Integer(x)) => self.write_number(w, x),
            Some(Argument::Str(s)) => self.write_string(w, s.as_slice()),
            Some(Argument::Char(c)) => self.write_char(w, c),
            None => {
                let ghost w0 = w@;
                w.push(40);
                w.push(110);
                w.push(117);
                w.push(108);
                w.push(108);
                w.push(41);
                proof {
                    assert(w@ =~= w0 + seq![40u8, 110u8, 117u8, 108u8, 108u8, 41u8]);
                }
                Ok(())
            },
        }
    }
}

/// Parse the conversion letter at position `i`.
fn parse_specifier_at(src: &[u8], i: usize, a: PrintfArgs) -> (r: Result<PrintfArgs, ErrorKind>)
    ensures
        r == spec_parse_specifier(src@, i as int, a),
{
    if i < src.len() {
        let c = src[i];
        if c == 120 || c == 88 || c == 99 || c == 100 || c == 111 || c == 115 {
            let ch: char = if c == 120 {
                'x'
            } else if c == 88 {
                'X'
            } else if c == 99 {
                'c'
            } else if c == 100 {
                'd'
            } else if c == 111 {
                'o'
            } else {
                's'
            };
            return Ok(PrintfArgs { character: ch, ..a });
        }
    }
    Err(ErrorKind::BadPrintfSpecifier)
}

/// Read the digit run at `i`: how far it reaches and its value, the value
/// capped just above `0xFFFF`.
fn read_number(src: &[u8], i: usize) -> (r: (usize, usize))
    requires
        i <= src@.len(),
    ensures
        r.0 == i + spec_digit_run(src@, i as int),
        r.0 <= src@.len(),
        ({
            let v = spec_dec_value(src@, i as int, spec_digit_run(src@, i as int));
            if v <= 0xFFFF {
                r.1 == v
            } else {
                r.1 > 0xFFFF
            }
        }),
{
    let mut j = i;
    let mut v: usize = 0;
    while j < src.len() && 48 <= src[j] && src[j] <= 57
        invariant
            i <= j <= src@.len(),
            forall|k: int| i <= k < j ==> spec_is_digit(src@[k]),
            v <= 0x10000,
            ({
                let cur = spec_dec_value(src@, i as int, j - i);
                if cur <= 0xFFFF {
                    v == cur
                } else {
                    v == 0x10000
                }
            }),
        decreases src@.len() - j,
    {
        proof {
            lemma_dec_value_nonneg(src@, i as int, j - i);
            assert(spec_dec_value(src@, i as int, (j - i) + 1) == spec_dec_value(
                src@,
                i as int,
                j - i,
            ) * 10 + (src@[j as int] - 0x30));
        }
        let d = (src[j] - 48) as usize;
        if v * 10 + d > 0xFFFF {
            v = 0x10000;
        } else {
            v = v * 10 + d;
        }
        j += 1;
    }
    proof {
        lemma_digit_run_unique(src@, i as int, j - i);
    }
    (j, v)
}

/// Parse width, precision and the conversion letter from position `i`.
fn parse_width_at(src: &[u8], i: usize, a: PrintfArgs) -> (r: Result<PrintfArgs, ErrorKind>)
    requires
        i <= src@.len(),
    ensures
        r == spec_parse_width(src@, i as int, a),
{
    let (j, wv) = read_number(src, i);
    let mut a1 = a;
    if j > i {
        if wv > 0xFFFF {
            return Err(ErrorKind::BadPrecisionSpecified);
        }
        a1 = PrintfArgs { width: Some(wv), ..a1 };
    }
    if j < src.len() && src[j] == 46 {
        let (k, pv) = read_number(src, j + 1);
        if k == j + 1 || pv > 0xFFFF {
            return Err(ErrorKind::BadPrecisionSpecified);
        }
        parse_specifier_at(src, k, PrintfArgs { prec: Some(pv), ..a1 })
    } else {
        parse_specifier_at(src, j, a1)
    }
}

/// Append the digits of `n` in the given radix, most significant first.
fn push_radix(buf: &mut Vec<u8>, n: u64, radix: u64, upper: bool)
    requires
        2 <= radix <= 16,
    ensures
        final(buf)@ == old(buf)@ + spec_radix_digits(n as nat, radix as nat, upper),
    decreases n,
{
    if n >= radix {
        proof {
            assert(n / radix < n) by (nonlinear_arith)
                requires
                    n >= radix,
                    radix >= 2,
            ;
        }
        push_radix(buf, n / radix, radix, upper);
    }
    proof {
        assert(n % radix < radix) by (nonlinear_arith)
            requires
                radix >= 2,
        ;
        if n < radix {
            assert(n % radix == n) by (nonlinear_arith)
                requires
                    n < radix,
                    radix >= 1,
            ;
        }
    }
    let d = (n % radix) as u8;
    let ch: u8 = if d < 10 {
        0x30 + d
    } else if upper {
        0x41 + (d - 10)
    } else {
        0x61 + (d - 10)
    };
    buf.push(ch);
    proof {
        assert(ch == spec_radix_digit((n % radix) as int, upper));
        if n < radix {
            assert(buf@ =~= old(buf)@ + spec_radix_digits(n as nat, radix as nat, upper));
        } else {
            assert(buf@ =~= old(buf)@ + spec_radix_digits(n as nat, radix as nat, upper));
        }
    }
}

/// Append `body` to `w`, padded with spaces to the specification's width.
fn pad_into(a: &PrintfArgs, w: &mut Vec<u8>, body: &[u8])
    ensures
        final(w)@ == old(w)@ + spec_pad(*a, body@),
{
    let wd = match a.width {
        Some(wd) => wd,
        None => {
            append_slice(w, body);
            proof {
                assert(w@ =~= old(w)@ + spec_pad(*a, body@));
            }
            return ;
        },
    };
    if body.len() >= wd {
        append_slice(w, body);
        proof {
            assert(w@ =~= old(w)@ + spec_pad(*a, body@));
        }
        return ;
    }
    let pad_n = wd - body.len();
    if a.left_align {
        append_slice(w, body);
        push_spaces(w, pad_n);
        proof {
            assert(w@ =~= old(w)@ + spec_pad(*a, body@));
        }
    } else {
        push_spaces(w, pad_n);
        append_slice(w, body);
        proof {
            assert(w@ =~= old(w)@ + spec_pad(*a, body@));
        }
    }
}

/// Append every byte of `s` to `w`.
pub fn append_slice(w: &mut Vec<u8>, s: &[u8])
    ensures
        final(w)@ == old(w)@ + s@,
{
    let mut i: usize = 0;
    while i < s.len()
        invariant
            0 <= i <= s@.len(),
            w@ =~= old(w)@ + s@.subrange(0, i as int),
        decreases s@.len() - i,
    {
        w.push(s[i]);
        proof {
            assert(w@ =~= old(w)@ + s@.subrange(0, i + 1));
        }
        i += 1;
    }
    proof {
        assert(w@ =~= old(w)@ + s@);
    }
}

/// Append `n` spaces to `w`.
fn push_spaces(w: &mut Vec<u8>, n: usize)
    ensures
        final(w)@ == old(w)@ + Seq::new(n as nat, |k: int| 32u8),
{
    let mut i: usize = 0;
    while i < n
        invariant
            0 <= i <= n,
            w@ =~= old(w)@ + Seq::new(i as nat, |k: int| 32u8),
        decreases n - i,
    {
        w.push(32);
        proof {
            assert(w@ =~= old(w)@ + Seq::new((i + 1) as nat, |k: int| 32u8));
        }
        i += 1;
    }
}

} // verus!
