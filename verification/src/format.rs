//! The minimal-markup formatter: `_` toggles bold, `*` italics, `~`
//! strike-through and `%` blink; `[+fg:...]` and `[+bg:...]` set colors,
//! `[-fg]`, `[-bg]` and `[-all]` reset them, and a backslash escapes any
//! of the markup bytes.

use vstd::prelude::*;

use crate::ansi::spec_parse_color;
use crate::ansi::spec_set_background;
use crate::ansi::spec_set_foreground;
use crate::ansi::spec_sgr;
use crate::ansi::spec_is_ws;
use crate::ansi::GraphicRendition;
use crate::errors::ErrorKind;
use crate::util::bytes_to_string;
use vstd::string::StringSliceAdditionalSpecFns;

verus! {

/// A byte with markup meaning.
pub open spec fn spec_is_special(c: u8) -> bool {
    c == 95 || c == 42 || c == 92 || c == 37 || c == 91 || c == 126
}

/// How many plain bytes start at `i`.
pub open spec fn spec_plain_run(s: Seq<u8>, i: int) -> nat
    decreases s.len() - i,
{
    if i < 0 || i >= s.len() || spec_is_special(s[i]) {
        0
    } else {
        1 + spec_plain_run(s, i + 1)
    }
}

/// The plain run stays inside the sequence.
pub proof fn lemma_plain_run_bound(s: Seq<u8>, i: int)
    requires
        0 <= i <= s.len(),
    ensures
        i + spec_plain_run(s, i) <= s.len(),
    decreases s.len() - i,
{
    if i < s.len() && !spec_is_special(s[i]) {
        lemma_plain_run_bound(s, i + 1);
    }
}

/// Any run of plain bytes that stops at a special byte is the run.
pub proof fn lemma_plain_run_unique(s: Seq<u8>, i: int, k: int)
    requires
        0 <= i,
        i + k <= s.len(),
        0 <= k,
        forall|j: int| i <= j < i + k ==> !spec_is_special(s[j]),
        i + k < s.len() ==> spec_is_special(s[i + k]),
    ensures
        spec_plain_run(s, i) == k,
    decreases k,
{
    if k > 0 {
        lemma_plain_run_unique(s, i + 1, k - 1);
    }
}

/// How many bytes before the next occurrence of byte `b`.
pub open spec fn spec_until_byte(s: Seq<u8>, i: int, b: u8) -> nat
    decreases s.len() - i,
{
    if i < 0 || i >= s.len() || s[i] == b {
        0
    } else {
        1 + spec_until_byte(s, i + 1, b)
    }
}

/// Any run without `b` that stops at one is the run.
pub proof fn lemma_until_byte_unique(s: Seq<u8>, i: int, b: u8, k: int)
    requires
        0 <= i,
        i + k <= s.len(),
        0 <= k,
        forall|j: int| i <= j < i + k ==> s[j] != b,
        i + k < s.len() ==> s[i + k] == b,
    ensures
        spec_until_byte(s, i, b) == k,
    decreases k,
{
    if k > 0 {
        lemma_until_byte_unique(s, i + 1, b, k - 1);
    }
}

/// `t` with leading and trailing whitespace dropped.
pub open spec fn spec_trim(t: Seq<u8>) -> Seq<u8>
    decreases t.len(),
{
    if t.len() == 0 {
        t
    } else if spec_is_ws(t[0]) {
        spec_trim(t.drop_first())
    } else if spec_is_ws(t.last()) {
        spec_trim(t.drop_last())
    } else {
        t
    }
}

/// The `fg` label bytes.
pub open spec fn spec_fg_label() -> Seq<u8> {
    seq![102u8, 103u8]
}

/// The `bg` label bytes.
pub open spec fn spec_bg_label() -> Seq<u8> {
    seq![98u8, 103u8]
}

/// The `all` label bytes.
pub open spec fn spec_all_label() -> Seq<u8> {
    seq![97u8, 108u8, 108u8]
}

/// What formatting emits from position `i` with the four style flags in
/// the given states, or nothing when the markup is malformed: an unknown
/// color, a block that is not closed, or a block with the wrong label.
pub open spec fn spec_fmt(s: Seq<u8>, i: int, bold: bool, italics: bool, strike: bool, blink: bool)
    -> Option<Seq<u8>>
    decreases s.len() - i, 1int,
    via spec_fmt_decreases
{
    if i < 0 || i >= s.len() {
        Some(Seq::empty())
    } else if !spec_is_special(s[i]) {
        let n = spec_plain_run(s, i);
        match spec_fmt(s, i + n, bold, italics, strike, blink) {
            Some(rest) => Some(s.subrange(i, i + n) + rest),
            None => None,
        }
    } else if s[i] == 95 {
        let tok = spec_sgr(
            if !bold {
                GraphicRendition::Bold
            } else {
                GraphicRendition::ResetImpact
            },
        );
        match spec_fmt(s, i + 1, !bold, italics, strike, blink) {
            Some(rest) => Some(tok + rest),
            None => None,
        }
    } else if s[i] == 42 {
        let tok = spec_sgr(
            if !italics {
                GraphicRendition::Italic
            } else {
                GraphicRendition::ResetStyle
            },
        );
        match spec_fmt(s, i + 1, bold, !italics, strike, blink) {
            Some(rest) => Some(tok + rest),
            None => None,
        }
    } else if s[i] == 126 {
        let tok = spec_sgr(
            if !strike {
                GraphicRendition::Strike
            } else {
                GraphicRendition::ResetStrike
            },
        );
        match spec_fmt(s, i + 1, bold, italics, !strike, blink) {
            Some(rest) => Some(tok + rest),
            None => None,
        }
    } else if s[i] == 37 {
        let tok = spec_sgr(
            if !blink {
                GraphicRendition::Blink
            } else {
                GraphicRendition::ResetBlink
            },
        );
        match spec_fmt(s, i + 1, bold, italics, strike, !blink) {
            Some(rest) => Some(tok + rest),
            None => None,
        }
    } else if s[i] == 92 {
        if i + 1 >= s.len() {
            Some(seq![92u8])
        } else {
            let c = s[i + 1];
            let tok: Seq<u8> = if c == 92 || c == 95 || c == 126 || c == 42 || c == 37 || c
                == 123 {
                seq![c]
            } else {
                seq![92u8, c]
            };
            match spec_fmt(s, i + 2, bold, italics, strike, blink) {
                Some(rest) => Some(tok + rest),
                None => None,
            }
        }
    } else {
        // s[i] == 91, an opening bracket
        if i + 1 >= s.len() {
            Some(seq![91u8])
        } else if s[i + 1] == 43 {
            spec_fmt_color_block(s, i, bold, italics, strike, blink)
        } else if s[i + 1] == 45 {
            spec_fmt_reset_block(s, i, bold, italics, strike, blink)
        } else {
            match spec_fmt(s, i + 2, bold, italics, strike, blink) {
                Some(rest) => Some(seq![91u8, s[i + 1]] + rest),
                None => None,
            }
        }
    }
}

#[via_fn]
proof fn spec_fmt_decreases(
    s: Seq<u8>,
    i: int,
    bold: bool,
    italics: bool,
    strike: bool,
    blink: bool,
) {
    if 0 <= i < s.len() && !spec_is_special(s[i]) {
        assert(spec_plain_run(s, i) == 1 + spec_plain_run(s, i + 1));
        lemma_plain_run_bound(s, i);
    }
}

/// A `[+label:color]` block at `i`: the label picks foreground or
/// background, the color is parsed after the colon, and the block must
/// close with `]`.
pub open spec fn spec_fmt_color_block(
    s: Seq<u8>,
    i: int,
    bold: bool,
    italics: bool,
    strike: bool,
    blink: bool,
) -> Option<Seq<u8>>
    decreases s.len() - i, 0int,
{
    let cr = spec_until_byte(s, i + 2, 58);
    let br = spec_until_byte(s, i + 2 + cr, 93);
    let endb = i + 2 + cr + br;
    if endb >= s.len() || i + 2 + cr >= s.len() {
        None
    } else {
        let label = spec_trim(s.subrange(i + 2, i + 2 + cr));
        let colorb = s.subrange(i + 2 + cr + 1, endb);
        let tok: Option<Seq<u8>> = if label == spec_fg_label() {
            match spec_parse_color(colorb) {
                Some(c) => Some(spec_set_foreground(c)),
                None => None,
            }
        } else if label == spec_bg_label() {
            match spec_parse_color(colorb) {
                Some(c) => Some(spec_set_background(c)),
                None => None,
            }
        } else {
            None
        };
        match tok {
            None => None,
            Some(tok) => match spec_fmt(s, endb + 1, bold, italics, strike, blink) {
                Some(rest) => Some(tok + rest),
                None => None,
            },
        }
    }
}

/// A `[-label]` block at `i`: `fg`, `bg` or `all` resets the matching
/// rendition, and the block must close with `]`.
pub open spec fn spec_fmt_reset_block(
    s: Seq<u8>,
    i: int,
    bold: bool,
    italics: bool,
    strike: bool,
    blink: bool,
) -> Option<Seq<u8>>
    decreases s.len() - i, 0int,
{
    let br = spec_until_byte(s, i + 2, 93);
    let endb = i + 2 + br;
    if endb >= s.len() {
        None
    } else {
        let label = spec_trim(s.subrange(i + 2, endb));
        let tok: Option<Seq<u8>> = if label == spec_fg_label() {
            Some(spec_sgr(GraphicRendition::ResetForeground))
        } else if label == spec_bg_label() {
            Some(spec_sgr(GraphicRendition::ResetBackground))
        } else if label == spec_all_label() {
            Some(spec_sgr(GraphicRendition::Reset))
        } else {
            None
        };
        match tok {
            None => None,
            Some(tok) => match spec_fmt(s, endb + 1, bold, italics, strike, blink) {
                Some(rest) => Some(tok + rest),
                None => None,
            },
        }
    }
}

/// Render the markup in `s` into `w`.  On a malformed block or an unknown
/// color nothing of that block is appended and an error is reported.
pub fn write_fmt(w: &mut Vec<u8>, s: &[u8]) -> (r: Result<(), ErrorKind>)
    ensures
        match spec_fmt(s@, 0, false, false, false, false) {
            Some(out) => r is Ok && final(w)@ == old(w)@ + out,
            None => r is Err,
        },
{
    write_fmt_at(w, s, 0, false, false, false, false)
}

/// Render the markup in `s`.  The output must come out as valid UTF-8 to
/// be returned as a string; since every escape sequence is ASCII, that is
/// the case whenever `s` itself is valid UTF-8.
pub fn format(s: &str) -> (r: Result<String, ErrorKind>)
    ensures
        match spec_fmt(s.spec_bytes(), 0, false, false, false, false) {
            Some(out) => if vstd::utf8::valid_utf8(out) {
                r matches Ok(t) && t@ == vstd::utf8::decode_utf8(out)
            } else {
                r == Err::<String, ErrorKind>(ErrorKind::FailedWriteToStdout)
            },
            None => r is Err,
        },
{
    let mut w: Vec<u8> = Vec::new();
    match write_fmt(&mut w, s.as_bytes()) {
        Ok(()) => {},
        Err(e) => {
            return Err(e);
        },
    }
    match bytes_to_string(w) {
        Some(t) => Ok(t),
        None => Err(ErrorKind::FailedWriteToStdout),
    }
}

/// Render from position `i` on with the given style flags.
fn write_fmt_at(
    w: &mut Vec<u8>,
    s: &[u8],
    i: usize,
    bold: bool,
    italics: bool,
    strike: bool,
    blink: bool,
) -> (r: Result<(), ErrorKind>)
    requires
        i <= s@.len(),
    ensures
        match spec_fmt(s@, i as int, bold, italics, strike, blink) {
            Some(out) => r is Ok && final(w)@ == old(w)@ + out,
            None => r is Err,
        },
    decreases s@.len() - i, 1int,
{
    if i >= s.len() {
        proof {
            assert(w@ =~= old(w)@ + Seq::<u8>::empty());
        }
        return Ok(());
    }
    let c = s[i];
    if !(c == 95 || c == 42 || c == 92 || c == 37 || c == 91 || c == 126) {
        return write_plain(w, s, i, bold, italics, strike, blink);
    }
    if c == 95 || c == 42 || c == 126 || c == 37 {
        return write_toggle(w, s, i, bold, italics, strike, blink);
    }
    if c == 92 {
        return write_escape(w, s, i, bold, italics, strike, blink);
    }
    // c == 91, an opening bracket
    if i + 1 >= s.len() {
        w.push(91);
        proof {
            assert(w@ =~= old(w)@ + seq![91u8]);
        }
        return Ok(());
    }
    let e = s[i + 1];
    if e == 43 {
        return write_color_block(w, s, i, bold, italics, strike, blink);
    }
    if e == 45 {
        return write_reset_block(w, s, i, bold, italics, strike, blink);
    }
    w.push(91);
    w.push(e);
    let r = write_fmt_at(w, s, i + 2, bold, italics, strike, blink);
    proof {
        if spec_fmt(s@, i as int, bold, italics, strike, blink) is Some {
            assert(w@ =~= old(w)@ + spec_fmt(s@, i as int, bold, italics, strike, blink)->Some_0);
        }
    }
    return r;
}

/// Render a run of plain bytes and everything after it.
#[verifier::rlimit(60)]
#[verifier::spinoff_prover]
fn write_plain(
    w: &mut Vec<u8>,
    s: &[u8],
    i: usize,
    bold: bool,
    italics: bool,
    strike: bool,
    blink: bool,
) -> (r: Result<(), ErrorKind>)
    requires
        i < s@.len(),
        !spec_is_special(s@[i as int]),
    ensures
        match spec_fmt(s@, i as int, bold, italics, strike, blink) {
            Some(out) => r is Ok && final(w)@ == old(w)@ + out,
            None => r is Err,
        },
    decreases s@.len() - i, 0int,
{
    let mut j = i;
    while j < s.len() && !(s[j] == 95 || s[j] == 42 || s[j] == 92 || s[j] == 37 || s[j] == 91
        || s[j] == 126)
        invariant
            i <= j <= s@.len(),
            forall|k: int| i <= k < j ==> !spec_is_special(s@[k]),
        decreases s@.len() - j,
    {
        j += 1;
    }
    proof {
        lemma_plain_run_unique(s@, i as int, j - i);
    }
    crate::lang::printf::append_slice(w, vstd::slice::slice_subrange(s, i, j));
    let r = write_fmt_at(w, s, j, bold, italics, strike, blink);
    proof {
        if spec_fmt(s@, i as int, bold, italics, strike, blink) is Some {
            assert(w@ =~= old(w)@ + spec_fmt(s@, i as int, bold, italics, strike, blink)->Some_0);
        }
    }
    r
}

/// Render a style toggle and everything after it.
#[verifier::rlimit(60)]
#[verifier::spinoff_prover]
fn write_toggle(
    w: &mut Vec<u8>,
    s: &[u8],
    i: usize,
    bold: bool,
    italics: bool,
    strike: bool,
    blink: bool,
) -> (r: Result<(), ErrorKind>)
    requires
        i < s@.len(),
        s@[i as int] == 95 || s@[i as int] == 42 || s@[i as int] == 126 || s@[i as int] == 37,
    ensures
        match spec_fmt(s@, i as int, bold, italics, strike, blink) {
            Some(out) => r is Ok && final(w)@ == old(w)@ + out,
            None => r is Err,
        },
    decreases s@.len() - i, 0int,
{
    let c = s[i];
    let gr: GraphicRendition = if c == 95 {
        if !bold {
            GraphicRendition::Bold
        } else {
            GraphicRendition::ResetImpact
        }
    } else if c == 42 {
        if !italics {
            GraphicRendition::Italic
        } else {
            GraphicRendition::ResetStyle
        }
    } else if c == 126 {
        if !strike {
            GraphicRendition::Strike
        } else {
            GraphicRendition::ResetStrike
        }
    } else {
        if !blink {
            GraphicRendition::Blink
        } else {
            GraphicRendition::ResetBlink
        }
    };
    match crate::ansi::sgr(w, gr) {
        Ok(()) => {},
        Err(e) => {
            return Err(e);
        },
    }
    let nb = if c == 95 {
        !bold
    } else {
        bold
    };
    let ni = if c == 42 {
        !italics
    } else {
        italics
    };
    let ns = if c == 126 {
        !strike
    } else {
        strike
    };
    let nk = if c == 37 {
        !blink
    } else {
        blink
    };
    let r = write_fmt_at(w, s, i + 1, nb, ni, ns, nk);
    proof {
        if spec_fmt(s@, i as int, bold, italics, strike, blink) is Some {
            assert(w@ =~= old(w)@ + spec_fmt(s@, i as int, bold, italics, strike, blink)->Some_0);
        }
    }
    r
}

/// Render a backslash escape and everything after it.
#[verifier::rlimit(60)]
#[verifier::spinoff_prover]
fn write_escape(
    w: &mut Vec<u8>,
    s: &[u8],
    i: usize,
    bold: bool,
    italics: bool,
    strike: bool,
    blink: bool,
) -> (r: Result<(), ErrorKind>)
    requires
        i < s@.len(),
        s@[i as int] == 92,
    ensures
        match spec_fmt(s@, i as int, bold, italics, strike, blink) {
            Some(out) => r is Ok && final(w)@ == old(w)@ + out,
            None => r is Err,
        },
    decreases s@.len() - i, 0int,
{
    if s.len() - i <= 1 {
        w.push(92);
        proof {
            assert(w@ =~= old(w)@ + seq![92u8]);
        }
        return Ok(());
    }
    let e = s[i + 1];
    if e == 92 || e == 95 || e == 126 || e == 42 || e == 37 || e == 123 {
        w.push(e);
    } else {
        w.push(92);
        w.push(e);
    }
    let r = write_fmt_at(w, s, i + 2, bold, italics, strike, blink);
    proof {
        if spec_fmt(s@, i as int, bold, italics, strike, blink) is Some {
            assert(w@ =~= old(w)@ + spec_fmt(s@, i as int, bold, italics, strike, blink)->Some_0);
        }
    }
    r
}

/// Render a `[+label:color]` block and everything after it.
#[verifier::rlimit(100)]
#[verifier::spinoff_prover]
fn write_color_block(
    w: &mut Vec<u8>,
    s: &[u8],
    i: usize,
    bold: bool,
    italics: bool,
    strike: bool,
    blink: bool,
) -> (r: Result<(), ErrorKind>)
    requires
        i + 1 < s@.len(),
        s@[i as int] == 91,
        s@[i + 1] == 43,
    ensures
        match spec_fmt_color_block(s@, i as int, bold, italics, strike, blink) {
            Some(out) => r is Ok && final(w)@ == old(w)@ + out,
            None => r is Err,
        },
    decreases s@.len() - i, 0int,
{
    let slen = s.len();
    let cr = scan_until(s, i + 2, 58);
    let cend = i + 2 + cr;
    if cend >= s.len() {
        return Err(ErrorKind::InvalidColorLocation);
    }
    let br = scan_until(s, cend, 93);
    proof {
        assert(s@[cend as int] == 58);
        assert(spec_until_byte(s@, cend as int, 93) == 1 + spec_until_byte(s@, cend + 1, 93));
    }
    let endb = cend + br;
    if endb >= s.len() {
        return Err(ErrorKind::InvalidColorLocation);
    }
    let label = trim_bytes(s, i + 2, cend);
    let is_fg = label_is(&label, 102, 103);
    let is_bg = label_is(&label, 98, 103);
    if !is_fg && !is_bg {
        return Err(ErrorKind::InvalidColorLocation);
    }
    let colorb = vstd::slice::slice_subrange(s, cend + 1, endb);
    let color = match crate::ansi::parse_color_bytes(colorb) {
        Some(cv) => cv,
        None => {
            return Err(ErrorKind::InvalidColor);
        },
    };
    if is_fg {
        match crate::ansi::set_foreground(w, color) {
            Ok(()) => {},
            Err(e) => {
                return Err(e);
            },
        }
    } else {
        match crate::ansi::set_background(w, color) {
            Ok(()) => {},
            Err(e) => {
                return Err(e);
            },
        }
    }
    let r = write_fmt_at(w, s, endb + 1, bold, italics, strike, blink);
    proof {
        if spec_fmt_color_block(s@, i as int, bold, italics, strike, blink) is Some {
            assert(w@ =~= old(w)@ + spec_fmt_color_block(
                s@,
                i as int,
                bold,
                italics,
                strike,
                blink,
            )->Some_0);
        }
    }
    r
}

/// Render a `[-label]` block and everything after it.
#[verifier::rlimit(100)]
#[verifier::spinoff_prover]
fn write_reset_block(
    w: &mut Vec<u8>,
    s: &[u8],
    i: usize,
    bold: bool,
    italics: bool,
    strike: bool,
    blink: bool,
) -> (r: Result<(), ErrorKind>)
    requires
        i + 1 < s@.len(),
        s@[i as int] == 91,
        s@[i + 1] == 45,
    ensures
        match spec_fmt_reset_block(s@, i as int, bold, italics, strike, blink) {
            Some(out) => r is Ok && final(w)@ == old(w)@ + out,
            None => r is Err,
        },
    decreases s@.len() - i, 0int,
{
    let slen = s.len();
    let br = scan_until(s, i + 2, 93);
    let endb = i + 2 + br;
    if endb >= s.len() {
        return Err(ErrorKind::InvalidResetSpecifier);
    }
    let label = trim_bytes(s, i + 2, endb);
    let gr: GraphicRendition = if label_is(&label, 102, 103) {
        GraphicRendition::ResetForeground
    } else if label_is(&label, 98, 103) {
        GraphicRendition::ResetBackground
    } else if label_is3(&label, 97, 108, 108) {
        GraphicRendition::Reset
    } else {
        return Err(ErrorKind::InvalidResetSpecifier);
    };
    match crate::ansi::sgr(w, gr) {
        Ok(()) => {},
        Err(e2) => {
            return Err(e2);
        },
    }
    let r = write_fmt_at(w, s, endb + 1, bold, italics, strike, blink);
    proof {
        if spec_fmt_reset_block(s@, i as int, bold, italics, strike, blink) is Some {
            assert(w@ =~= old(w)@ + spec_fmt_reset_block(
                s@,
                i as int,
                bold,
                italics,
                strike,
                blink,
            )->Some_0);
        }
    }
    r
}

/// How far until byte `b` from `i`.
fn scan_until(s: &[u8], i: usize, b: u8) -> (r: usize)
    requires
        i <= s@.len(),
    ensures
        r == spec_until_byte(s@, i as int, b),
        i + r <= s@.len(),
        i + r < s@.len() ==> s@[i + r] == b,
{
    let mut j = i;
    while j < s.len() && s[j] != b
        invariant
            i <= j <= s@.len(),
            forall|k: int| i <= k < j ==> s@[k] != b,
        decreases s@.len() - j,
    {
        j += 1;
    }
    proof {
        lemma_until_byte_unique(s@, i as int, b, j - i);
    }
    j - i
}

/// The bytes `s[from..to]` with surrounding whitespace dropped.
fn trim_bytes(s: &[u8], from: usize, to: usize) -> (r: Vec<u8>)
    requires
        from <= to <= s@.len(),
    ensures
        r@ == spec_trim(s@.subrange(from as int, to as int)),
{
    let mut a = from;
    let mut b = to;
    while a < b && (s[a] == 32 || s[a] == 9 || s[a] == 13 || s[a] == 10)
        invariant
            from <= a <= b <= s@.len(),
            spec_trim(s@.subrange(from as int, to as int)) == spec_trim(
                s@.subrange(a as int, b as int),
            ),
        decreases b - a,
    {
        proof {
            assert(s@.subrange(a as int, b as int).drop_first() =~= s@.subrange(a + 1, b as int));
        }
        a += 1;
    }
    while b > a && (s[b - 1] == 32 || s[b - 1] == 9 || s[b - 1] == 13 || s[b - 1] == 10)
        invariant
            from <= a <= b <= s@.len(),
            spec_trim(s@.subrange(from as int, to as int)) == spec_trim(
                s@.subrange(a as int, b as int),
            ),
            a < b ==> !spec_is_ws(s@[a as int]),
        decreases b - a,
    {
        proof {
            assert(s@.subrange(a as int, b as int).drop_last() =~= s@.subrange(a as int, b - 1));
        }
        b -= 1;
    }
    let r = vstd::slice::slice_to_vec(vstd::slice::slice_subrange(s, a, b));
    proof {
        assert(spec_trim(s@.subrange(a as int, b as int)) == s@.subrange(a as int, b as int));
    }
    r
}

/// Whether the label is exactly the two given bytes.
fn label_is(label: &Vec<u8>, a: u8, b: u8) -> (r: bool)
    ensures
        r == (label@ == seq![a, b]),
{
    let r = label.len() == 2 && label[0] == a && label[1] == b;
    proof {
        if r {
            assert(label@ =~= seq![a, b]);
        }
    }
    r
}

/// Whether the label is exactly the three given bytes.
fn label_is3(label: &Vec<u8>, a: u8, b: u8, c: u8) -> (r: bool)
    ensures
        r == (label@ == seq![a, b, c]),
{
    let r = label.len() == 3 && label[0] == a && label[1] == b && label[2] == c;
    proof {
        if r {
            assert(label@ =~= seq![a, b, c]);
        }
    }
    r
}

} // verus!
