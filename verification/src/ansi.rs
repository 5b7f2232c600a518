//! Composers for ANSI escape sequences: colors, cursor movement and
//! graphic renditions, each stated byte for byte.

use vstd::prelude::*;

use crate::errors::ErrorKind;
use crate::lang::printf::lemma_dec_value_nonneg;
use crate::lang::printf::lemma_digit_run_unique;
use crate::lang::printf::spec_dec_value;
use crate::lang::printf::spec_digit_run;
use crate::lang::printf::spec_is_digit;
use crate::util::push_dec_u64;
use crate::util::spec_dec_nat;
use vstd::string::StringSliceAdditionalSpecFns;

verus! {

/// A color: one of the 256 palette indices, or a direct RGB triple.
#[derive(Debug, Copy, Clone, Eq, PartialEq, Structural)]
pub enum Color {
    Index(u8),
    Rgb(u8, u8, u8),
}

/// The final byte of a control sequence.
#[derive(Debug, Copy, Clone, Eq, PartialEq, Structural)]
pub enum ControlSequence {
    CursorUp,
    CursorDown,
    CursorRight,
    CursorLeft,
    CursorNextLine,
    CursorPrevLine,
    CursorToColumn,
    CursorMoveTo,
    EraseDisplay,
    EraseLine,
    ScollUp,
    ScrollDown,
    CursorMoveToAlt,
    AddGraphicRendition,
    AuxControl,
    ReportCursor,
    CursorSaveState,
    CursorRestoreState,
}

impl ControlSequence {
    /// The byte that ends this control sequence.
    pub open spec fn spec_code(self) -> u8 {
        match self {
            ControlSequence::CursorUp => 65,
            ControlSequence::CursorDown => 66,
            ControlSequence::CursorRight => 67,
            ControlSequence::CursorLeft => 69,
            ControlSequence::CursorNextLine => 70,
            ControlSequence::CursorPrevLine => 71,
            ControlSequence::CursorToColumn => 72,
            ControlSequence::CursorMoveTo => 73,
            ControlSequence::EraseDisplay => 74,
            ControlSequence::EraseLine => 75,
            ControlSequence::ScollUp => 76,
            ControlSequence::ScrollDown => 77,
            ControlSequence::CursorMoveToAlt => 102,
            ControlSequence::AddGraphicRendition => 109,
            ControlSequence::AuxControl => 105,
            ControlSequence::ReportCursor => 110,
            ControlSequence::CursorSaveState => 115,
            ControlSequence::CursorRestoreState => 117,
        }
    }

    /// The byte that ends this control sequence.
    pub fn code(self) -> (r: u8)
        ensures
            r == self.spec_code(),
    {
        match self {
            ControlSequence::CursorUp => 65,
            ControlSequence::CursorDown => 66,
            ControlSequence::CursorRight => 67,
            ControlSequence::CursorLeft => 69,
            ControlSequence::CursorNextLine => 70,
            ControlSequence::CursorPrevLine => 71,
            ControlSequence::CursorToColumn => 72,
            ControlSequence::CursorMoveTo => 73,
            ControlSequence::EraseDisplay => 74,
            ControlSequence::EraseLine => 75,
            ControlSequence::ScollUp => 76,
            ControlSequence::ScrollDown => 77,
            ControlSequence::CursorMoveToAlt => 102,
            ControlSequence::AddGraphicRendition => 109,
            ControlSequence::AuxControl => 105,
            ControlSequence::ReportCursor => 110,
            ControlSequence::CursorSaveState => 115,
            ControlSequence::CursorRestoreState => 117,
        }
    }
}

/// A graphic rendition parameter.
#[derive(Debug, Copy, Clone, Eq, PartialEq, Structural)]
pub enum GraphicRendition {
    Reset,
    Bold,
    Faint,
    Italic,
    Underline,
    Blink,
    FastBlink,
    Invert,
    Conceal,
    Strike,
    Fraktur,
    ResetImpact,
    ResetStyle,
    ResetUnderline,
    ResetBlink,
    ResetInvert,
    ResetConceal,
    ResetStrike,
    ResetFrame,
    ResetOverline,
    ResetIdeogram,
    ResetFont,
    ResetBackground,
    ResetForeground,
}

impl GraphicRendition {
    /// The numeric SGR parameter of this rendition.
    pub open spec fn spec_code(self) -> u8 {
        match self {
            GraphicRendition::Reset => 0,
            GraphicRendition::Bold => 1,
            GraphicRendition::Faint => 2,
            GraphicRendition::Italic => 3,
            GraphicRendition::Underline => 4,
            GraphicRendition::Blink => 5,
            GraphicRendition::FastBlink => 6,
            GraphicRendition::Invert => 7,
            GraphicRendition::Conceal => 8,
            GraphicRendition::Strike => 9,
            GraphicRendition::Fraktur => 20,
            GraphicRendition::ResetImpact => 22,
            GraphicRendition::ResetStyle => 23,
            GraphicRendition::ResetUnderline => 24,
            GraphicRendition::ResetBlink => 25,
            GraphicRendition::ResetInvert => 27,
            GraphicRendition::ResetConceal => 28,
            GraphicRendition::ResetStrike => 29,
            GraphicRendition::ResetFrame => 54,
            GraphicRendition::ResetOverline => 55,
            GraphicRendition::ResetIdeogram => 65,
            GraphicRendition::ResetFont => 10,
            GraphicRendition::ResetBackground => 49,
            GraphicRendition::ResetForeground => 39,
        }
    }

    /// The numeric SGR parameter of this rendition.
    pub fn code(self) -> (r: u8)
        ensures
            r == self.spec_code(),
    {
        match self {
            GraphicRendition::Reset => 0,
            GraphicRendition::Bold => 1,
            GraphicRendition::Faint => 2,
            GraphicRendition::Italic => 3,
            GraphicRendition::Underline => 4,
            GraphicRendition::Blink => 5,
            GraphicRendition::FastBlink => 6,
            GraphicRendition::Invert => 7,
            GraphicRendition::Conceal => 8,
            GraphicRendition::Strike => 9,
            GraphicRendition::Fraktur => 20,
            GraphicRendition::ResetImpact => 22,
            GraphicRendition::ResetStyle => 23,
            GraphicRendition::ResetUnderline => 24,
            GraphicRendition::ResetBlink => 25,
            GraphicRendition::ResetInvert => 27,
            GraphicRendition::ResetConceal => 28,
            GraphicRendition::ResetStrike => 29,
            GraphicRendition::ResetFrame => 54,
            GraphicRendition::ResetOverline => 55,
            GraphicRendition::ResetIdeogram => 65,
            GraphicRendition::ResetFont => 10,
            GraphicRendition::ResetBackground => 49,
            GraphicRendition::ResetForeground => 39,
        }
    }
}

/// The introducer of every control sequence: `ESC [`.
pub open spec fn spec_csi() -> Seq<u8> {
    seq![27u8, 91u8]
}

/// The sequence that sets the foreground color: the 30-based parameter for
/// the first eight colors, the 82-based one for the bright eight, `38;5;`
/// for the rest of the palette, and `38;2;` for direct RGB.
pub open spec fn spec_set_foreground(c: Color) -> Seq<u8> {
    match c {
        Color::Index(x) => if x <= 7 {
            spec_csi() + spec_dec_nat((x + 30) as nat) + seq![109u8]
        } else if x <= 15 {
            spec_csi() + spec_dec_nat((x + 82) as nat) + seq![109u8]
        } else {
            spec_csi() + seq![51u8, 56u8, 59u8, 53u8, 59u8] + spec_dec_nat(x as nat) + seq![109u8]
        },
        Color::Rgb(r, g, b) => spec_csi() + seq![51u8, 56u8, 59u8, 50u8, 59u8] + spec_dec_nat(
            r as nat,
        ) + seq![59u8] + spec_dec_nat(g as nat) + seq![59u8] + spec_dec_nat(b as nat) + seq![109u8],
    }
}

/// The sequence that sets the background color; direct RGB keeps the
/// unusual `98;2;` introducer this library has always written.
pub open spec fn spec_set_background(c: Color) -> Seq<u8> {
    match c {
        Color::Index(x) => if x <= 7 {
            spec_csi() + spec_dec_nat((x + 40) as nat) + seq![109u8]
        } else if x <= 15 {
            spec_csi() + spec_dec_nat((x + 92) as nat) + seq![109u8]
        } else {
            spec_csi() + seq![52u8, 56u8, 59u8, 53u8, 59u8] + spec_dec_nat(x as nat) + seq![109u8]
        },
        Color::Rgb(r, g, b) => spec_csi() + seq![57u8, 56u8, 59u8, 50u8, 59u8] + spec_dec_nat(
            r as nat,
        ) + seq![59u8] + spec_dec_nat(g as nat) + seq![59u8] + spec_dec_nat(b as nat) + seq![109u8],
    }
}

/// Append the foreground-color sequence for `c` to `w`.
pub fn set_foreground(w: &mut Vec<u8>, c: Color) -> (r: Result<(), ErrorKind>)
    ensures
        r is Ok,
        final(w)@ == old(w)@ + spec_set_foreground(c),
{
    w.push(27);
    w.push(91);
    match c {
        Color::Index(x) => {
            if x <= 7 {
                push_dec_u64(w, (x + 30) as u64);
            } else if x <= 15 {
                push_dec_u64(w, (x + 82) as u64);
            } else {
                w.push(51);
                w.push(56);
                w.push(59);
                w.push(53);
                w.push(59);
                push_dec_u64(w, x as u64);
            }
        },
        Color::Rgb(r, g, b) => {
            w.push(51);
            w.push(56);
            w.push(59);
            w.push(50);
            w.push(59);
            push_dec_u64(w, r as u64);
            w.push(59);
            push_dec_u64(w, g as u64);
            w.push(59);
            push_dec_u64(w, b as u64);
        },
    }
    w.push(109);
    proof {
        assert(w@ =~= old(w)@ + spec_set_foreground(c));
    }
    Ok(())
}

/// Append the background-color sequence for `c` to `w`.
pub fn set_background(w: &mut Vec<u8>, c: Color) -> (r: Result<(), ErrorKind>)
    ensures
        r is Ok,
        final(w)@ == old(w)@ + spec_set_background(c),
{
    w.push(27);
    w.push(91);
    match c {
        Color::Index(x) => {
            if x <= 7 {
                push_dec_u64(w, (x + 40) as u64);
            } else if x <= 15 {
                push_dec_u64(w, (x + 92) as u64);
            } else {
                w.push(52);
                w.push(56);
                w.push(59);
                w.push(53);
                w.push(59);
                push_dec_u64(w, x as u64);
            }
        },
        Color::Rgb(r, g, b) => {
            w.push(57);
            w.push(56);
            w.push(59);
            w.push(50);
            w.push(59);
            push_dec_u64(w, r as u64);
            w.push(59);
            push_dec_u64(w, g as u64);
            w.push(59);
            push_dec_u64(w, b as u64);
        },
    }
    w.push(109);
    proof {
        assert(w@ =~= old(w)@ + spec_set_background(c));
    }
    Ok(())
}

/// The sequence that moves the cursor `shift` rows: `A` up for a positive
/// shift, `B` down for a negative one, nothing at all for zero.
pub open spec fn spec_shift_vertical(shift: int) -> Seq<u8> {
    if shift < 0 {
        spec_csi() + spec_dec_nat((-shift) as nat) + seq![66u8]
    } else if shift > 0 {
        spec_csi() + spec_dec_nat(shift as nat) + seq![65u8]
    } else {
        Seq::empty()
    }
}

/// Append the vertical cursor-shift sequence to `w`.
pub fn cursor_shift_vertical(w: &mut Vec<u8>, shift: i64) -> (r: Result<(), ErrorKind>)
    ensures
        r is Ok,
        final(w)@ == old(w)@ + spec_shift_vertical(shift as int),
{
    if shift < 0 {
        w.push(27);
        w.push(91);
        push_dec_u64(w, neg_mag(shift));
        w.push(66);
        proof {
            assert(w@ =~= old(w)@ + spec_shift_vertical(shift as int));
        }
    } else if shift > 0 {
        w.push(27);
        w.push(91);
        push_dec_u64(w, shift as u64);
        w.push(65);
        proof {
            assert(w@ =~= old(w)@ + spec_shift_vertical(shift as int));
        }
    } else {
        proof {
            assert(w@ =~= old(w)@ + spec_shift_vertical(shift as int));
        }
    }
    Ok(())
}

/// The sequence that moves the cursor `shift` columns: `C` right for a
/// positive shift, `D` left for a negative one, nothing at all for zero.
pub open spec fn spec_shift_horizontal(shift: int) -> Seq<u8> {
    if shift < 0 {
        spec_csi() + spec_dec_nat((-shift) as nat) + seq![68u8]
    } else if shift > 0 {
        spec_csi() + spec_dec_nat(shift as nat) + seq![67u8]
    } else {
        Seq::empty()
    }
}

/// Append the horizontal cursor-shift sequence to `w`.
pub fn cursor_shift_horizontal(w: &mut Vec<u8>, shift: i64) -> (r: Result<(), ErrorKind>)
    ensures
        r is Ok,
        final(w)@ == old(w)@ + spec_shift_horizontal(shift as int),
{
    if shift < 0 {
        w.push(27);
        w.push(91);
        push_dec_u64(w, neg_mag(shift));
        w.push(68);
        proof {
            assert(w@ =~= old(w)@ + spec_shift_horizontal(shift as int));
        }
    } else if shift > 0 {
        w.push(27);
        w.push(91);
        push_dec_u64(w, shift as u64);
        w.push(67);
        proof {
            assert(w@ =~= old(w)@ + spec_shift_horizontal(shift as int));
        }
    } else {
        proof {
            assert(w@ =~= old(w)@ + spec_shift_horizontal(shift as int));
        }
    }
    Ok(())
}

/// The two coordinates joined by `;`, ended — as this library has always
/// done — with `m`.
pub open spec fn spec_cursor_move(x: int, y: int) -> Seq<u8> {
    spec_csi() + spec_dec_nat(x as nat) + seq![59u8] + spec_dec_nat(y as nat) + seq![109u8]
}

/// Append the cursor-move sequence to `w`.
pub fn cursor_move(w: &mut Vec<u8>, x: u64, y: u64) -> (r: Result<(), ErrorKind>)
    ensures
        r is Ok,
        final(w)@ == old(w)@ + spec_cursor_move(x as int, y as int),
{
    w.push(27);
    w.push(91);
    push_dec_u64(w, x);
    w.push(59);
    push_dec_u64(w, y);
    w.push(109);
    proof {
        assert(w@ =~= old(w)@ + spec_cursor_move(x as int, y as int));
    }
    Ok(())
}

/// The sequence that puts the cursor in column `x`.
pub open spec fn spec_cursor_set_column(x: int) -> Seq<u8> {
    spec_csi() + spec_dec_nat(x as nat) + seq![71u8]
}

/// Append the set-column sequence to `w`.
pub fn cursor_set_column(w: &mut Vec<u8>, x: u64) -> (r: Result<(), ErrorKind>)
    ensures
        r is Ok,
        final(w)@ == old(w)@ + spec_cursor_set_column(x as int),
{
    w.push(27);
    w.push(91);
    push_dec_u64(w, x);
    w.push(71);
    proof {
        assert(w@ =~= old(w)@ + spec_cursor_set_column(x as int));
    }
    Ok(())
}

/// The select-graphic-rendition sequence for `gr`.
pub open spec fn spec_sgr(gr: GraphicRendition) -> Seq<u8> {
    spec_csi() + spec_dec_nat(gr.spec_code() as nat) + seq![109u8]
}

/// Append the select-graphic-rendition sequence for `gr` to `w`.
pub fn sgr(w: &mut Vec<u8>, gr: GraphicRendition) -> (r: Result<(), ErrorKind>)
    ensures
        r is Ok,
        final(w)@ == old(w)@ + spec_sgr(gr),
{
    w.push(27);
    w.push(91);
    push_dec_u64(w, gr.code() as u64);
    w.push(109);
    proof {
        assert(w@ =~= old(w)@ + spec_sgr(gr));
    }
    Ok(())
}


/// An ASCII whitespace byte, as the color parser skips them.
pub open spec fn spec_is_ws(c: u8) -> bool {
    c == 32 || c == 9 || c == 13 || c == 10
}

/// How many whitespace bytes start the sequence.
pub open spec fn spec_ws_run(s: Seq<u8>, i: int) -> int
    decreases s.len() - i,
{
    if i < 0 || i >= s.len() || !spec_is_ws(s[i]) {
        0
    } else {
        1 + spec_ws_run(s, i + 1)
    }
}

/// Any whitespace run that stops at a non-space is the run.
pub proof fn lemma_ws_run_unique(s: Seq<u8>, i: int, k: int)
    requires
        0 <= i,
        i + k <= s.len(),
        0 <= k,
        forall|j: int| i <= j < i + k ==> spec_is_ws(s[j]),
        i + k < s.len() ==> !spec_is_ws(s[i + k]),
    ensures
        spec_ws_run(s, i) == k,
    decreases k,
{
    if k > 0 {
        lemma_ws_run_unique(s, i + 1, k - 1);
    }
}

/// The byte lowered to ASCII lower case.
pub open spec fn spec_lower_byte(c: u8) -> u8 {
    if 65 <= c <= 90 {
        (c + 32) as u8
    } else {
        c
    }
}

/// The color name in canonical form: leading whitespace dropped, every
/// byte lowered.
pub open spec fn spec_canon(s: Seq<u8>) -> Seq<u8> {
    s.subrange(spec_ws_run(s, 0), s.len() as int).map_values(|c: u8| spec_lower_byte(c))
}

/// The palette index a color name denotes, if any.
pub open spec fn spec_named_color(t: Seq<u8>) -> Option<u8> {
    if t == seq![98u8, 108u8, 97u8, 99u8, 107u8] {
        Some(0u8)
    } else if t == seq![103u8, 114u8, 101u8, 101u8, 110u8] {
        Some(2u8)
    } else if t == seq![121u8, 101u8, 108u8, 108u8, 111u8, 119u8] {
        Some(3u8)
    } else if t == seq![98u8, 108u8, 117u8, 101u8] {
        Some(4u8)
    } else if t == seq![109u8, 97u8, 103u8, 101u8, 110u8, 116u8, 97u8] {
        Some(5u8)
    } else if t == seq![99u8, 121u8, 97u8, 110u8] {
        Some(6u8)
    } else if t == seq![103u8, 114u8, 101u8, 121u8] {
        Some(7u8)
    } else if t == seq![100u8, 97u8, 114u8, 107u8, 103u8, 114u8, 101u8, 121u8] {
        Some(8u8)
    } else if t == seq![98u8, 114u8, 105u8, 103u8, 104u8, 116u8, 114u8, 101u8, 100u8] {
        Some(9u8)
    } else if t == seq![98u8, 114u8, 105u8, 103u8, 104u8, 116u8, 103u8, 114u8, 101u8, 101u8, 110u8] {
        Some(10u8)
    } else if t == seq![98u8, 114u8, 105u8, 103u8, 104u8, 116u8, 121u8, 101u8, 108u8, 108u8, 111u8, 119u8] {
        Some(11u8)
    } else if t == seq![98u8, 114u8, 105u8, 103u8, 104u8, 116u8, 98u8, 108u8, 117u8, 101u8] {
        Some(12u8)
    } else if t == seq![98u8, 114u8, 105u8, 103u8, 104u8, 116u8, 109u8, 97u8, 103u8, 101u8, 110u8, 116u8, 97u8] {
        Some(13u8)
    } else if t == seq![98u8, 114u8, 105u8, 103u8, 104u8, 116u8, 99u8, 121u8, 97u8, 110u8] {
        Some(14u8)
    } else if t == seq![119u8, 104u8, 105u8, 116u8, 101u8] {
        Some(15u8)
    } else {
        None
    }
}

/// One decimal RGB component read at `i`: optional spaces, then digits.
/// The value, the position just past the digits, or nothing when there
/// are no digits or the value does not fit a byte.
pub open spec fn spec_rgb_component(t: Seq<u8>, i: int) -> Option<(u8, int)> {
    let d = i + spec_ws_run(t, i);
    let n = spec_digit_run(t, d);
    let v = spec_dec_value(t, d, n);
    if n > 0 && v <= 255 {
        Some((v as u8, d + n))
    } else {
        None
    }
}

/// An `rgb(r, g, b)` form parsed after the `rgb` prefix: anything up to
/// the opening parenthesis is skipped, each component is decimal with a
/// byte's range, and fractional components are not supported here.
pub open spec fn spec_parse_rgb(t: Seq<u8>, i: int) -> Option<Color> {
    let open_at = i + spec_nonparen_run(t, i);
    if open_at >= t.len() {
        None
    } else {
        match spec_rgb_component(t, open_at + 1) {
            None => None,
            Some((r, p1)) => if p1 < t.len() && t[p1] == 44 {
                match spec_rgb_component(t, p1 + 1) {
                    None => None,
                    Some((g, p2)) => if p2 < t.len() && t[p2] == 44 {
                        match spec_rgb_component(t, p2 + 1) {
                            None => None,
                            Some((b, p3)) => if p3 < t.len() && t[p3] == 41 {
                                Some(Color::Rgb(r, g, b))
                            } else {
                                None
                            },
                        }
                    } else {
                        None
                    },
                }
            } else {
                None
            },
        }
    }
}

/// How many bytes before the next `(`.
pub open spec fn spec_nonparen_run(s: Seq<u8>, i: int) -> int
    decreases s.len() - i,
{
    if i < 0 || i >= s.len() || s[i] == 40 {
        0
    } else {
        1 + spec_nonparen_run(s, i + 1)
    }
}

/// Any run without `(` that stops at one is the run.
pub proof fn lemma_nonparen_run_unique(s: Seq<u8>, i: int, k: int)
    requires
        0 <= i,
        i + k <= s.len(),
        0 <= k,
        forall|j: int| i <= j < i + k ==> s[j] != 40,
        i + k < s.len() ==> s[i + k] == 40,
    ensures
        spec_nonparen_run(s, i) == k,
    decreases k,
{
    if k > 0 {
        lemma_nonparen_run_unique(s, i + 1, k - 1);
    }
}

/// What `parse_color` accepts: a decimal palette index, an `rgb(...)`
/// triple, `red`, or one of the named colors; anything else is refused.
pub open spec fn spec_parse_color(s: Seq<u8>) -> Option<Color> {
    let t = spec_canon(s);
    if t.len() == 0 {
        None
    } else if t[0] == 35 {
        None
    } else if spec_is_digit(t[0]) {
        let n = spec_digit_run(t, 0);
        let v = spec_dec_value(t, 0, n);
        if n == t.len() && v <= 255 {
            Some(Color::Index(v as u8))
        } else {
            None
        }
    } else if t[0] == 114 && t.len() > 4 && t[1] == 103 && t[2] == 98 {
        spec_parse_rgb(t, 2)
    } else if t[0] == 114 && t.len() > 2 && t[1] == 101 && t[2] == 100 {
        Some(Color::Index(1))
    } else {
        match spec_named_color(t) {
            Some(k) => Some(Color::Index(k)),
            None => None,
        }
    }
}

/// True when the refusal is for an unrecognised name rather than a
/// malformed index or triple.
pub open spec fn spec_color_unknown_name(s: Seq<u8>) -> bool {
    let t = spec_canon(s);
    t.len() > 0 && t[0] != 35 && !spec_is_digit(t[0]) && !(t[0] == 114 && t.len() > 4 && t[1]
        == 103 && t[2] == 98) && !(t[0] == 114 && t.len() > 2 && t[1] == 101 && t[2] == 100)
        && spec_named_color(t) is None
}


/// Parse a color from text: a decimal palette index, an `rgb(r, g, b)`
/// triple with whole-number components, `red`, or one of the named
/// colors, with leading whitespace skipped and case ignored.  An
/// unrecognised name is reported with `UnknownColorName`; any other
/// malformed form with `InvalidColor`.
pub fn parse_color(s: &str) -> (r: Result<Color, ErrorKind>)
    ensures
        match r {
            Ok(c) => spec_parse_color(s.spec_bytes()) == Some(c),
            Err(e) => spec_parse_color(s.spec_bytes()) is None && if spec_color_unknown_name(
                s.spec_bytes(),
            ) {
                e matches ErrorKind::UnknownColorName(n) && n@ == s@
            } else {
                e == ErrorKind::InvalidColor
            },
        },
{
    match parse_color_bytes(s.as_bytes()) {
        Some(c) => Ok(c),
        None => {
            if color_unknown_name(s.as_bytes()) {
                Err(ErrorKind::UnknownColorName(s.to_owned()))
            } else {
                Err(ErrorKind::InvalidColor)
            }
        },
    }
}

/// Whether the refusal for these bytes is an unrecognised name.
fn color_unknown_name(raw: &[u8]) -> (r: bool)
    ensures
        r == spec_color_unknown_name(raw@),
{
    let t = canon_bytes(raw);
    if t.len() == 0 {
        return false;
    }
    let c0 = t[0];
    if c0 == 35 || (48 <= c0 && c0 <= 57) {
        return false;
    }
    if c0 == 114 && t.len() > 4 && t[1] == 103 && t[2] == 98 {
        return false;
    }
    if c0 == 114 && t.len() > 2 && t[1] == 101 && t[2] == 100 {
        return false;
    }
    named_color(t.as_slice()).is_none()
}

/// The canonical form of the name: leading whitespace dropped, bytes
/// lowered.
fn canon_bytes(raw: &[u8]) -> (t: Vec<u8>)
    ensures
        t@ == spec_canon(raw@),
{
    let mut i: usize = 0;
    while i < raw.len() && (raw[i] == 32 || raw[i] == 9 || raw[i] == 13 || raw[i] == 10)
        invariant
            0 <= i <= raw@.len(),
            forall|j: int| 0 <= j < i ==> spec_is_ws(raw@[j]),
        decreases raw@.len() - i,
    {
        i += 1;
    }
    proof {
        lemma_ws_run_unique(raw@, 0, i as int);
    }
    let mut t: Vec<u8> = Vec::new();
    let mut j = i;
    while j < raw.len()
        invariant
            i <= j <= raw@.len(),
            t@ =~= raw@.subrange(i as int, j as int).map_values(|c: u8| spec_lower_byte(c)),
        decreases raw@.len() - j,
    {
        let c = raw[j];
        let lc: u8 = if 65 <= c && c <= 90 {
            c + 32
        } else {
            c
        };
        t.push(lc);
        proof {
            assert(t@ =~= raw@.subrange(i as int, j + 1).map_values(|c: u8| spec_lower_byte(c)));
        }
        j += 1;
    }
    proof {
        assert(t@ =~= spec_canon(raw@));
    }
    t
}

/// Parse a color from canonicalised bytes; `None` on any refusal.
pub fn parse_color_bytes(raw: &[u8]) -> (r: Option<Color>)
    ensures
        r == spec_parse_color(raw@),
{
    let t = canon_bytes(raw);
    if t.len() == 0 {
        return None;
    }
    let c0 = t[0];
    if c0 == 35 {
        return None;
    }
    if 48 <= c0 && c0 <= 57 {
        let (dend, v) = read_color_number(t.as_slice(), 0);
        if dend == t.len() && v <= 255 {
            return Some(Color::Index(v as u8));
        }
        return None;
    }
    if c0 == 114 && t.len() > 4 && t[1] == 103 && t[2] == 98 {
        return parse_rgb_at(t.as_slice(), 2);
    }
    if c0 == 114 && t.len() > 2 && t[1] == 101 && t[2] == 100 {
        return Some(Color::Index(1));
    }
    match named_color(t.as_slice()) {
        Some(k) => Some(Color::Index(k)),
        None => None,
    }
}

/// The palette index a canonical color name denotes, if any.
fn named_color(t: &[u8]) -> (r: Option<u8>)
    ensures
        r == spec_named_color(t@),
{
    let mut name: Vec<u8> = Vec::new();
    name.push(98);
    name.push(108);
    name.push(97);
    name.push(99);
    name.push(107);
    proof {
        assert(name@ =~= seq![98u8, 108u8, 97u8, 99u8, 107u8]);
    }
    if crate::terminfo::terminfo::eq_bytes(t, name.as_slice()) {
        return Some(0);
    }
    let mut name: Vec<u8> = Vec::new();
    name.push(103);
    name.push(114);
    name.push(101);
    name.push(101);
    name.push(110);
    proof {
        assert(name@ =~= seq![103u8, 114u8, 101u8, 101u8, 110u8]);
    }
    if crate::terminfo::terminfo::eq_bytes(t, name.as_slice()) {
        return Some(2);
    }
    let mut name: Vec<u8> = Vec::new();
    name.push(121);
    name.push(101);
    name.push(108);
    name.push(108);
    name.push(111);
    name.push(119);
    proof {
        assert(name@ =~= seq![121u8, 101u8, 108u8, 108u8, 111u8, 119u8]);
    }
    if crate::terminfo::terminfo::eq_bytes(t, name.as_slice()) {
        return Some(3);
    }
    let mut name: Vec<u8> = Vec::new();
    name.push(98);
    name.push(108);
    name.push(117);
    name.push(101);
    proof {
        assert(name@ =~= seq![98u8, 108u8, 117u8, 101u8]);
    }
    if crate::terminfo::terminfo::eq_bytes(t, name.as_slice()) {
        return Some(4);
    }
    let mut name: Vec<u8> = Vec::new();
    name.push(109);
    name.push(97);
    name.push(103);
    name.push(101);
    name.push(110);
    name.push(116);
    name.push(97);
    proof {
        assert(name@ =~= seq![109u8, 97u8, 103u8, 101u8, 110u8, 116u8, 97u8]);
    }
    if crate::terminfo::terminfo::eq_bytes(t, name.as_slice()) {
        return Some(5);
    }
    let mut name: Vec<u8> = Vec::new();
    name.push(99);
    name.push(121);
    name.push(97);
    name.push(110);
    proof {
        assert(name@ =~= seq![99u8, 121u8, 97u8, 110u8]);
    }
    if crate::terminfo::terminfo::eq_bytes(t, name.as_slice()) {
        return Some(6);
    }
    let mut name: Vec<u8> = Vec::new();
    name.push(103);
    name.push(114);
    name.push(101);
    name.push(121);
    proof {
        assert(name@ =~= seq![103u8, 114u8, 101u8, 121u8]);
    }
    if crate::terminfo::terminfo::eq_bytes(t, name.as_slice()) {
        return Some(7);
    }
    let mut name: Vec<u8> = Vec::new();
    name.push(100);
    name.push(97);
    name.push(114);
    name.push(107);
    name.push(103);
    name.push(114);
    name.push(101);
    name.push(121);
    proof {
        assert(name@ =~= seq![100u8, 97u8, 114u8, 107u8, 103u8, 114u8, 101u8, 121u8]);
    }
    if crate::terminfo::terminfo::eq_bytes(t, name.as_slice()) {
        return Some(8);
    }
    let mut name: Vec<u8> = Vec::new();
    name.push(98);
    name.push(114);
    name.push(105);
    name.push(103);
    name.push(104);
    name.push(116);
    name.push(114);
    name.push(101);
    name.push(100);
    proof {
        assert(name@ =~= seq![98u8, 114u8, 105u8, 103u8, 104u8, 116u8, 114u8, 101u8, 100u8]);
    }
    if crate::terminfo::terminfo::eq_bytes(t, name.as_slice()) {
        return Some(9);
    }
    let mut name: Vec<u8> = Vec::new();
    name.push(98);
    name.push(114);
    name.push(105);
    name.push(103);
    name.push(104);
    name.push(116);
    name.push(103);
    name.push(114);
    name.push(101);
    name.push(101);
    name.push(110);
    proof {
        assert(name@ =~= seq![98u8, 114u8, 105u8, 103u8, 104u8, 116u8, 103u8, 114u8, 101u8, 101u8, 110u8]);
    }
    if crate::terminfo::terminfo::eq_bytes(t, name.as_slice()) {
        return Some(10);
    }
    let mut name: Vec<u8> = Vec::new();
    name.push(98);
    name.push(114);
    name.push(105);
    name.push(103);
    name.push(104);
    name.push(116);
    name.push(121);
    name.push(101);
    name.push(108);
    name.push(108);
    name.push(111);
    name.push(119);
    proof {
        assert(name@ =~= seq![98u8, 114u8, 105u8, 103u8, 104u8, 116u8, 121u8, 101u8, 108u8, 108u8, 111u8, 119u8]);
    }
    if crate::terminfo::terminfo::eq_bytes(t, name.as_slice()) {
        return Some(11);
    }
    let mut name: Vec<u8> = Vec::new();
    name.push(98);
    name.push(114);
    name.push(105);
    name.push(103);
    name.push(104);
    name.push(116);
    name.push(98);
    name.push(108);
    name.push(117);
    name.push(101);
    proof {
        assert(name@ =~= seq![98u8, 114u8, 105u8, 103u8, 104u8, 116u8, 98u8, 108u8, 117u8, 101u8]);
    }
    if crate::terminfo::terminfo::eq_bytes(t, name.as_slice()) {
        return Some(12);
    }
    let mut name: Vec<u8> = Vec::new();
    name.push(98);
    name.push(114);
    name.push(105);
    name.push(103);
    name.push(104);
    name.push(116);
    name.push(109);
    name.push(97);
    name.push(103);
    name.push(101);
    name.push(110);
    name.push(116);
    name.push(97);
    proof {
        assert(name@ =~= seq![98u8, 114u8, 105u8, 103u8, 104u8, 116u8, 109u8, 97u8, 103u8, 101u8, 110u8, 116u8, 97u8]);
    }
    if crate::terminfo::terminfo::eq_bytes(t, name.as_slice()) {
        return Some(13);
    }
    let mut name: Vec<u8> = Vec::new();
    name.push(98);
    name.push(114);
    name.push(105);
    name.push(103);
    name.push(104);
    name.push(116);
    name.push(99);
    name.push(121);
    name.push(97);
    name.push(110);
    proof {
        assert(name@ =~= seq![98u8, 114u8, 105u8, 103u8, 104u8, 116u8, 99u8, 121u8, 97u8, 110u8]);
    }
    if crate::terminfo::terminfo::eq_bytes(t, name.as_slice()) {
        return Some(14);
    }
    let mut name: Vec<u8> = Vec::new();
    name.push(119);
    name.push(104);
    name.push(105);
    name.push(116);
    name.push(101);
    proof {
        assert(name@ =~= seq![119u8, 104u8, 105u8, 116u8, 101u8]);
    }
    if crate::terminfo::terminfo::eq_bytes(t, name.as_slice()) {
        return Some(15);
    }
    None
}

/// Read the digit run at `i` with its value, capped just above 255.
fn read_color_number(t: &[u8], i: usize) -> (r: (usize, usize))
    requires
        i <= t@.len(),
    ensures
        i <= r.0,
        r.0 == i + spec_digit_run(t@, i as int),
        r.0 <= t@.len(),
        ({
            let v = spec_dec_value(t@, i as int, spec_digit_run(t@, i as int));
            if v <= 255 {
                r.1 == v
            } else {
                r.1 > 255
            }
        }),
{
    let mut j = i;
    let mut v: usize = 0;
    while j < t.len() && 48 <= t[j] && t[j] <= 57
        invariant
            i <= j <= t@.len(),
            forall|k: int| i <= k < j ==> spec_is_digit(t@[k]),
            v <= 256,
            ({
                let cur = spec_dec_value(t@, i as int, j - i);
                if cur <= 255 {
                    v == cur
                } else {
                    v == 256
                }
            }),
        decreases t@.len() - j,
    {
        proof {
            lemma_dec_value_nonneg(t@, i as int, j - i);
            assert(spec_dec_value(t@, i as int, (j - i) + 1) == spec_dec_value(t@, i as int, j - i)
                * 10 + (t@[j as int] - 0x30));
        }
        let d = (t[j] - 48) as usize;
        if v * 10 + d > 255 {
            v = 256;
        } else {
            v = v * 10 + d;
        }
        j += 1;
    }
    proof {
        lemma_digit_run_unique(t@, i as int, j - i);
    }
    (j, v)
}

/// Parse `(r, g, b)` after the `rgb` prefix at `i`.
fn parse_rgb_at(t: &[u8], i: usize) -> (r: Option<Color>)
    requires
        i <= t@.len(),
    ensures
        r == spec_parse_rgb(t@, i as int),
{
    let mut j = i;
    while j < t.len() && t[j] != 40
        invariant
            i <= j <= t@.len(),
            forall|k: int| i <= k < j ==> t@[k] != 40,
        decreases t@.len() - j,
    {
        j += 1;
    }
    proof {
        lemma_nonparen_run_unique(t@, i as int, j - i);
    }
    if j >= t.len() {
        return None;
    }
    let (rv, p1) = match rgb_component(t, j + 1) {
        Some(x) => x,
        None => {
            return None;
        },
    };
    if !(p1 < t.len() && t[p1] == 44) {
        return None;
    }
    let (gv, p2) = match rgb_component(t, p1 + 1) {
        Some(x) => x,
        None => {
            return None;
        },
    };
    if !(p2 < t.len() && t[p2] == 44) {
        return None;
    }
    let (bv, p3) = match rgb_component(t, p2 + 1) {
        Some(x) => x,
        None => {
            return None;
        },
    };
    if !(p3 < t.len() && t[p3] == 41) {
        return None;
    }
    Some(Color::Rgb(rv, gv, bv))
}

/// One decimal RGB component at `i`: optional spaces, then digits that
/// fit a byte.
fn rgb_component(t: &[u8], i: usize) -> (r: Option<(u8, usize)>)
    requires
        i <= t@.len(),
    ensures
        match r {
            Some((v, p)) => spec_rgb_component(t@, i as int) == Some((v, p as int)) && i <= p
                <= t@.len(),
            None => spec_rgb_component(t@, i as int) is None,
        },
{
    let mut d = i;
    while d < t.len() && (t[d] == 32 || t[d] == 9 || t[d] == 13 || t[d] == 10)
        invariant
            i <= d <= t@.len(),
            forall|k: int| i <= k < d ==> spec_is_ws(t@[k]),
        decreases t@.len() - d,
    {
        d += 1;
    }
    proof {
        lemma_ws_run_unique(t@, i as int, d - i);
    }
    let (dend, v) = read_color_number(t, d);
    if dend == d || v > 255 {
        return None;
    }
    Some((v as u8, dend))
}

/// The magnitude of a negative shift.
fn neg_mag(shift: i64) -> (r: u64)
    requires
        shift < 0,
    ensures
        r as int == -(shift as int),
{
    if shift == i64::MIN {
        0x8000000000000000u64
    } else {
        (-shift) as u64
    }
}

} // verus!
