//! The parser of the parameterised-string language: it turns a capability
//! string into a flat instruction list with branch offsets already
//! resolved, so that execution is a single forward walk.
//!
//! The grammar is `%%`, `%p[1-9]`, `%i`, `%l`, the arithmetic and logic
//! operators, `%{N}`, `%'c'`, the conditional `%?…%t…[%e…]%;`, and printf
//! conversion specifications; any other `%` directive is a parse error.
//! A conditional becomes `condition BranchFalse(n) then-arm [Jump(m)
//! else-arm]`, where the offsets say how many following instructions to
//! skip.
//!
//! The spec functions mirror this recursive descent; they carry a fuel
//! argument only to bound their recursion, and `spec_parse` supplies fuel
//! that provably never runs out.

use vstd::prelude::*;

use crate::lang::printf::lemma_nonterm_run_unique;
use crate::lang::printf::spec_digit_run;
use crate::lang::printf::spec_dec_value;
use crate::lang::printf::lemma_digit_run_unique;
use crate::lang::printf::lemma_dec_value_nonneg;
use crate::lang::printf::spec_is_digit;
use crate::lang::printf::spec_is_term;
use crate::lang::printf::spec_nonterm_run;
use crate::lang::printf::spec_parse_printf;
use crate::lang::printf::spec_parse_width;
use crate::lang::printf::spec_parse_specifier;
use crate::lang::printf::spec_flag_run;
use crate::lang::printf::PrintfArgs;
use crate::terminfo::errors::ErrorKind;

verus! {

/// One instruction of the flat stream.
#[derive(Debug, Clone, Copy, PartialEq, Eq)]
pub enum Op {
    /// Push parameter `i` (already zero-based).
    Push(usize),
    /// Do nothing.
    NoOp,
    Add,
    Sub,
    Mul,
    Div,
    Mod,
    BitAnd,
    BitOr,
    BitXor,
    Less,
    Greater,
    Equal,
    /// Bitwise complement of the top integer.
    Invert,
    /// Logical complement of the top integer.
    Not,
    /// Add one to parameters one and two, for 1-based row and column.
    IncrementArgs,
    /// Pop a string, push its byte length.
    StrLen,
    /// Pop; when false, skip that many following instructions.
    BranchFalse(usize),
    /// Skip that many following instructions.
    Jump(usize),
    /// Pop and print under a conversion specification.
    Print(PrintfArgs),
    /// Print the source bytes of this half-open range.
    PrintSlice(usize, usize),
    /// Push a literal integer (`%{N}`).
    PushInt(i64),
    /// Push a literal character (`%'c'`).
    PushChar(u8),
}

/// How many consecutive bytes other than `%` start at `i`.
pub open spec fn spec_lit_run(s: Seq<u8>, i: int) -> int
    decreases s.len() - i,
{
    if i < 0 || i >= s.len() || s[i] == 37 {
        0
    } else {
        1 + spec_lit_run(s, i + 1)
    }
}

/// Any run of non-`%` bytes that stops at a `%` or the end is the run.
pub proof fn lemma_lit_run_unique(s: Seq<u8>, i: int, k: int)
    requires
        0 <= i,
        i + k <= s.len(),
        0 <= k,
        forall|j: int| i <= j < i + k ==> s[j] != 37,
        i + k < s.len() ==> s[i + k] == 37,
    ensures
        spec_lit_run(s, i) == k,
    decreases k,
{
    if k > 0 {
        lemma_lit_run_unique(s, i + 1, k - 1);
    }
}

/// The run stays inside the sequence.
pub proof fn lemma_lit_run_bound(s: Seq<u8>, i: int)
    requires
        0 <= i <= s.len(),
    ensures
        0 <= spec_lit_run(s, i),
        i + spec_lit_run(s, i) <= s.len(),
    decreases s.len() - i,
{
    if i < s.len() && s[i] != 37 {
        lemma_lit_run_bound(s, i + 1);
    }
}

/// The non-terminator run stays inside the sequence.
pub proof fn lemma_nonterm_run_bound(s: Seq<u8>, i: int)
    requires
        0 <= i <= s.len(),
    ensures
        0 <= spec_nonterm_run(s, i),
        i + spec_nonterm_run(s, i) <= s.len(),
    decreases s.len() - i,
{
    if i < s.len() && !spec_is_term(s[i]) {
        lemma_nonterm_run_bound(s, i + 1);
    }
}

/// The digit run stays inside the sequence.
pub proof fn lemma_digit_run_bound(s: Seq<u8>, i: int)
    requires
        0 <= i <= s.len(),
    ensures
        0 <= spec_digit_run(s, i),
        i + spec_digit_run(s, i) <= s.len(),
        forall|j: int| i <= j < i + spec_digit_run(s, i) ==> spec_is_digit(s[j]),
    decreases s.len() - i,
{
    if i < s.len() && spec_is_digit(s[i]) {
        lemma_digit_run_bound(s, i + 1);
        assert forall|j: int| i <= j < i + spec_digit_run(s, i) implies spec_is_digit(s[j]) by {
            if j > i {
                assert(spec_is_digit(s[j]));
            }
        }
    }
}

/// The non-terminator run stops at or before any terminator.
pub proof fn lemma_nonterm_run_min(s: Seq<u8>, i: int, q: int)
    requires
        0 <= i <= q < s.len(),
        spec_is_term(s[q]),
    ensures
        spec_nonterm_run(s, i) <= q - i,
    decreases q - i,
{
    if i < q && !spec_is_term(s[i]) {
        lemma_nonterm_run_min(s, i + 1, q);
    }
}

/// A conversion specification that parses holds a terminator byte.
pub proof fn lemma_width_ok_has_term(t: Seq<u8>, i: int, a: PrintfArgs)
    requires
        spec_parse_width(t, i, a) is Ok,
    ensures
        exists|p: int| 0 <= p < t.len() && spec_is_term(#[trigger] t[p]),
{
    let wr = spec_digit_run(t, i);
    let j = i + wr;
    if j < t.len() && t[j] == 46 {
        let pr = spec_digit_run(t, j + 1);
        let q = j + 1 + pr;
        assert(spec_is_term(t[q]));
    } else {
        assert(spec_is_term(t[j]));
    }
}

/// A conversion specification that parses holds a terminator byte.
pub proof fn lemma_printf_ok_has_term(t: Seq<u8>)
    requires
        spec_parse_printf(t) is Ok,
    ensures
        exists|p: int| 0 <= p < t.len() && spec_is_term(#[trigger] t[p]),
{
    if t.len() < 1 {
    } else if t[0] == 58 {
        let fr = spec_flag_run(t, 1);
        let res = spec_parse_printf(t);
        lemma_width_ok_has_term(
            t,
            1 + fr,
            PrintfArgs {
                show_sign: exists|k: int| 1 <= k < 1 + fr && t[k] == 43,
                left_align: exists|k: int| 1 <= k < 1 + fr && t[k] == 45,
                alt: exists|k: int| 1 <= k < 1 + fr && t[k] == 35,
                pad_sign: exists|k: int| 1 <= k < 1 + fr && t[k] == 32,
                ..crate::lang::printf::spec_printf_plain()
            },
        );
    } else if spec_is_digit(t[0]) || t[0] == 46 {
        lemma_width_ok_has_term(t, 0, crate::lang::printf::spec_printf_plain());
    } else {
        assert(spec_is_term(t[0]));
    }
}

/// When the conversion after a `%` parses, the run to its terminator ends
/// inside the string.
pub proof fn lemma_print_run_in_range(s: Seq<u8>, i: int)
    requires
        0 <= i,
        i + 1 <= s.len(),
        spec_parse_printf(s.subrange(i + 1, s.len() as int)) is Ok,
    ensures
        i + 1 + spec_nonterm_run(s, i + 1) < s.len(),
{
    let t = s.subrange(i + 1, s.len() as int);
    lemma_printf_ok_has_term(t);
    let p = choose|p: int| 0 <= p < t.len() && spec_is_term(#[trigger] t[p]);
    assert(t[p] == s[i + 1 + p]);
    lemma_nonterm_run_min(s, i + 1, i + 1 + p);
}

/// One instruction parsed at position `i`: the operations it becomes and
/// the position just past it.
pub open spec fn spec_parse_instr(s: Seq<u8>, i: int, fuel: nat) -> Result<
    (Seq<Op>, int),
    ErrorKind,
>
    decreases fuel,
{
    if fuel == 0 {
        Err(ErrorKind::UnexpectedEof)
    } else if i < 0 || i >= s.len() {
        Err(ErrorKind::UnexpectedEof)
    } else if s[i] != 37 {
        let n = spec_lit_run(s, i);
        Ok((seq![Op::PrintSlice(i as usize, (i + n) as usize)], i + n))
    } else if i + 1 >= s.len() {
        Err(ErrorKind::UnexpectedEof)
    } else {
        let c = s[i + 1];
        if c == 37 {
            Ok((seq![Op::PrintSlice(i as usize, (i + 1) as usize)], i + 2))
        } else if c == 112 {
            if i + 2 < s.len() && 49 <= s[i + 2] <= 57 {
                Ok((seq![Op::Push((s[i + 2] - 49) as usize)], i + 3))
            } else {
                Err(ErrorKind::InvalidArgumentIdentifier)
            }
        } else if c == 105 {
            Ok((seq![Op::IncrementArgs], i + 2))
        } else if c == 108 {
            Ok((seq![Op::StrLen], i + 2))
        } else if c == 43 {
            Ok((seq![Op::Add], i + 2))
        } else if c == 45 {
            Ok((seq![Op::Sub], i + 2))
        } else if c == 42 {
            Ok((seq![Op::Mul], i + 2))
        } else if c == 47 {
            Ok((seq![Op::Div], i + 2))
        } else if c == 109 {
            Ok((seq![Op::Mod], i + 2))
        } else if c == 38 {
            Ok((seq![Op::BitAnd], i + 2))
        } else if c == 94 {
            Ok((seq![Op::BitXor], i + 2))
        } else if c == 124 {
            Ok((seq![Op::BitOr], i + 2))
        } else if c == 61 {
            Ok((seq![Op::Equal], i + 2))
        } else if c == 60 {
            Ok((seq![Op::Less], i + 2))
        } else if c == 62 {
            Ok((seq![Op::Greater], i + 2))
        } else if c == 126 {
            Ok((seq![Op::Invert], i + 2))
        } else if c == 33 {
            Ok((seq![Op::Not], i + 2))
        } else if c == 123 {
            if i + 2 >= s.len() {
                Err(ErrorKind::UnexpectedEof)
            } else {
                let dr = spec_digit_run(s, i + 2);
                let dv = spec_dec_value(s, i + 2, dr);
                if dr == 0 {
                    Err(ErrorKind::InvalidDigit(s[i + 2]))
                } else if dv > i64::MAX {
                    Err(ErrorKind::InvalidDigit(s[i + 2]))
                } else if i + 2 + dr >= s.len() {
                    Err(ErrorKind::UnexpectedEof)
                } else if s[i + 2 + dr] != 125 {
                    Err(ErrorKind::InvalidDigit(s[i + 2 + dr]))
                } else {
                    Ok((seq![Op::PushInt(dv as i64)], i + 3 + dr))
                }
            }
        } else if c == 39 {
            if i + 3 >= s.len() {
                Err(ErrorKind::UnexpectedEof)
            } else if s[i + 3] != 39 {
                Err(ErrorKind::BadPrintfSpecifier)
            } else {
                Ok((seq![Op::PushChar(s[i + 2])], i + 4))
            }
        } else if c == 63 {
            spec_parse_cond(s, i + 2, (fuel - 1) as nat)
        } else {
            match spec_parse_printf(s.subrange(i + 1, s.len() as int)) {
                Err(e) => Err(e),
                Ok(pa) => Ok((seq![Op::Print(pa)], i + 2 + spec_nonterm_run(s, i + 1))),
            }
        }
    }
}

/// A sequence of instructions parsed from `i` until the end of the string
/// (no stop bytes) or until `%` followed by one of the stop bytes, whose
/// position is returned.
pub open spec fn spec_parse_seq(s: Seq<u8>, i: int, stops: Seq<u8>, fuel: nat) -> Result<
    (Seq<Op>, int),
    ErrorKind,
>
    decreases fuel,
{
    if fuel == 0 {
        Err(ErrorKind::UnexpectedEof)
    } else if stops.len() == 0 && i >= s.len() {
        Ok((Seq::empty(), i))
    } else if stops.len() > 0 && s.len() - i < 2 {
        Err(ErrorKind::UnexpectedEof)
    } else if stops.len() > 0 && s[i] == 37 && stops.contains(s[i + 1]) {
        Ok((Seq::empty(), i))
    } else {
        match spec_parse_instr(s, i, (fuel - 1) as nat) {
            Err(e) => Err(e),
            Ok((ops, j)) => match spec_parse_seq(s, j, stops, (fuel - 1) as nat) {
                Err(e) => Err(e),
                Ok((ops2, k)) => Ok((ops + ops2, k)),
            },
        }
    }
}

/// A conditional parsed from the start of its condition: the condition,
/// a `BranchFalse` over the then-arm, the then-arm, and — when an `%e`
/// part follows — a `Jump` over it; the position just past the closing
/// `%;` is returned.
pub open spec fn spec_parse_cond(s: Seq<u8>, i: int, fuel: nat) -> Result<
    (Seq<Op>, int),
    ErrorKind,
>
    decreases fuel,
{
    if fuel == 0 {
        Err(ErrorKind::UnexpectedEof)
    } else {
        match spec_parse_seq(s, i, seq![116u8], (fuel - 1) as nat) {
            Err(e) => Err(e),
            Ok((c_ops, j)) => match spec_parse_seq(s, j + 2, seq![101u8, 59u8], (fuel - 1) as nat) {
                Err(e) => Err(e),
                Ok((a_ops, k)) => {
                    if s[k + 1] == 59 {
                        Ok((c_ops + seq![Op::BranchFalse(a_ops.len() as usize)] + a_ops, k + 2))
                    } else {
                        match spec_parse_tail(s, k + 2, (fuel - 1) as nat) {
                            Err(e) => Err(e),
                            Ok((b_ops, m)) => Ok(
                                (
                                    c_ops + seq![Op::BranchFalse((a_ops.len() + 1) as usize)]
                                        + a_ops + seq![Op::Jump(b_ops.len() as usize)] + b_ops,
                                    m,
                                ),
                            ),
                        }
                    }
                },
            },
        }
    }
}

/// What follows an `%e`: either a plain else-arm up to the closing `%;`,
/// or another condition with its own `%t`, making the conditional a
/// multi-way chain.
pub open spec fn spec_parse_tail(s: Seq<u8>, i: int, fuel: nat) -> Result<(Seq<Op>, int), ErrorKind>
    decreases fuel,
{
    if fuel == 0 {
        Err(ErrorKind::UnexpectedEof)
    } else {
        match spec_parse_seq(s, i, seq![116u8, 59u8], (fuel - 1) as nat) {
            Err(e) => Err(e),
            Ok((seg, m)) => {
                if s[m + 1] == 59 {
                    Ok((seg, m + 2))
                } else {
                    match spec_parse_seq(s, m + 2, seq![101u8, 59u8], (fuel - 1) as nat) {
                        Err(e) => Err(e),
                        Ok((a_ops, k)) => {
                            if s[k + 1] == 59 {
                                Ok(
                                    (
                                        seg + seq![Op::BranchFalse(a_ops.len() as usize)] + a_ops,
                                        k + 2,
                                    ),
                                )
                            } else {
                                match spec_parse_tail(s, k + 2, (fuel - 1) as nat) {
                                    Err(e) => Err(e),
                                    Ok((b_ops, m2)) => Ok(
                                        (
                                            seg + seq![Op::BranchFalse(
                                                (a_ops.len() + 1) as usize,
                                            )] + a_ops + seq![Op::Jump(b_ops.len() as usize)]
                                                + b_ops,
                                            m2,
                                        ),
                                    ),
                                }
                            }
                        },
                    }
                }
            },
        }
    }
}

/// What parsing a whole capability string yields.
pub open spec fn spec_parse(s: Seq<u8>) -> Result<Seq<Op>, ErrorKind> {
    match spec_parse_seq(s, 0, Seq::empty(), (4 * s.len() + 2) as nat) {
        Ok((ops, j)) => Ok(ops),
        Err(e) => Err(e),
    }
}

/// A successful instruction parse moves forward and emits at most one
/// operation per byte; a successful sequence parse never moves backward.
pub proof fn lemma_instr_advances(s: Seq<u8>, i: int, fuel: nat)
    ensures
        spec_parse_instr(s, i, fuel) matches Ok((ops, j)) ==> i + 1 <= j <= s.len()
            && ops.len() <= j - i,
    decreases fuel,
{
    if fuel > 0 && 0 <= i < s.len() {
        if s[i] != 37 {
            lemma_lit_run_bound(s, i + 1);
        } else if i + 1 < s.len() {
            let c = s[i + 1];
            if c == 123 {
                if i + 2 < s.len() {
                    lemma_digit_run_bound(s, i + 2);
                }
            } else if c == 63 {
                lemma_cond_advances(s, i + 2, (fuel - 1) as nat);
            } else if !(c == 37 || c == 112 || c == 105 || c == 108 || c == 43 || c == 45 || c == 42
                || c == 47 || c == 109 || c == 38 || c == 94 || c == 124 || c == 61 || c == 60 || c
                == 62 || c == 126 || c == 33 || c == 39) {
                lemma_nonterm_run_bound(s, i + 1);
                if spec_parse_printf(s.subrange(i + 1, s.len() as int)) is Ok {
                    lemma_print_run_in_range(s, i);
                }
            }
        }
    }
}

/// A successful conditional parse moves forward and emits at most one
/// operation per byte before its end.
pub proof fn lemma_cond_advances(s: Seq<u8>, i: int, fuel: nat)
    requires
        i <= s.len(),
    ensures
        spec_parse_cond(s, i, fuel) matches Ok((ops, j)) ==> i + 2 <= j <= s.len() && ops.len()
            <= j - i,
    decreases fuel,
{
    if fuel > 0 {
        lemma_seq_advances(s, i, seq![116u8], (fuel - 1) as nat);
        match spec_parse_seq(s, i, seq![116u8], (fuel - 1) as nat) {
            Ok((c_ops, j)) => {
                lemma_seq_advances(s, j + 2, seq![101u8, 59u8], (fuel - 1) as nat);
                match spec_parse_seq(s, j + 2, seq![101u8, 59u8], (fuel - 1) as nat) {
                    Ok((a_ops, k)) => {
                        lemma_tail_advances(s, k + 2, (fuel - 1) as nat);
                    },
                    _ => {},
                }
            },
            _ => {},
        }
    }
}

/// A successful else-part parse moves forward and emits at most one
/// operation per byte before its end.
pub proof fn lemma_tail_advances(s: Seq<u8>, i: int, fuel: nat)
    requires
        i <= s.len(),
    ensures
        spec_parse_tail(s, i, fuel) matches Ok((ops, j)) ==> i + 2 <= j <= s.len() && ops.len()
            <= j - i,
    decreases fuel,
{
    if fuel > 0 {
        lemma_seq_advances(s, i, seq![116u8, 59u8], (fuel - 1) as nat);
        match spec_parse_seq(s, i, seq![116u8, 59u8], (fuel - 1) as nat) {
            Ok((seg, m)) => {
                lemma_seq_advances(s, m + 2, seq![101u8, 59u8], (fuel - 1) as nat);
                match spec_parse_seq(s, m + 2, seq![101u8, 59u8], (fuel - 1) as nat) {
                    Ok((a_ops, k)) => {
                        lemma_tail_advances(s, k + 2, (fuel - 1) as nat);
                    },
                    _ => {},
                }
            },
            _ => {},
        }
    }
}

/// A successful sequence parse lands between its start and the end of the
/// string, and emits at most one operation per byte.
pub proof fn lemma_seq_advances(s: Seq<u8>, i: int, stops: Seq<u8>, fuel: nat)
    requires
        i <= s.len(),
    ensures
        spec_parse_seq(s, i, stops, fuel) matches Ok((ops, j)) ==> i <= j <= s.len() && ops.len()
            <= j - i && (stops.len() > 0 ==> j + 2 <= s.len()),
    decreases fuel,
{
    if fuel > 0 {
        lemma_instr_advances(s, i, (fuel - 1) as nat);
        match spec_parse_instr(s, i, (fuel - 1) as nat) {
            Ok((ops, j)) => {
                lemma_seq_advances(s, j, stops, (fuel - 1) as nat);
            },
            _ => {},
        }
    }
}

/// Fuel does not change what an instruction parse returns, as long as
/// there is at least one unit of fuel per remaining byte, plus one.
pub proof fn lemma_instr_fuel(s: Seq<u8>, i: int, f1: nat, f2: nat)
    requires
        f1 >= 4 * (s.len() - i) + 1,
        f2 >= 4 * (s.len() - i) + 1,
        f1 >= 1,
        f2 >= 1,
    ensures
        spec_parse_instr(s, i, f1) == spec_parse_instr(s, i, f2),
    decreases f1 + f2,
{
    if 0 <= i < s.len() && s[i] == 37 && i + 1 < s.len() && s[i + 1] == 63 {
        lemma_cond_fuel(s, i + 2, (f1 - 1) as nat, (f2 - 1) as nat);
    }
}

/// Fuel does not change what a conditional parse returns, given enough of
/// it.
pub proof fn lemma_cond_fuel(s: Seq<u8>, i: int, f1: nat, f2: nat)
    requires
        i <= s.len(),
        f1 >= 4 * (s.len() - i) + 3,
        f2 >= 4 * (s.len() - i) + 3,
    ensures
        spec_parse_cond(s, i, f1) == spec_parse_cond(s, i, f2),
    decreases f1 + f2,
{
    lemma_seq_fuel(s, i, seq![116u8], (f1 - 1) as nat, (f2 - 1) as nat);
    match spec_parse_seq(s, i, seq![116u8], (f1 - 1) as nat) {
        Ok((c_ops, j)) => {
            lemma_seq_advances(s, i, seq![116u8], (f1 - 1) as nat);
            lemma_seq_fuel(s, j + 2, seq![101u8, 59u8], (f1 - 1) as nat, (f2 - 1) as nat);
            match spec_parse_seq(s, j + 2, seq![101u8, 59u8], (f1 - 1) as nat) {
                Ok((a_ops, k)) => {
                    lemma_seq_advances(s, j + 2, seq![101u8, 59u8], (f1 - 1) as nat);
                    if s[k + 1] != 59 {
                        lemma_tail_fuel(s, k + 2, (f1 - 1) as nat, (f2 - 1) as nat);
                    }
                },
                _ => {},
            }
        },
        _ => {},
    }
}

/// Fuel does not change what an else-part parse returns, given enough of
/// it.
pub proof fn lemma_tail_fuel(s: Seq<u8>, i: int, f1: nat, f2: nat)
    requires
        i <= s.len(),
        f1 >= 4 * (s.len() - i) + 3,
        f2 >= 4 * (s.len() - i) + 3,
    ensures
        spec_parse_tail(s, i, f1) == spec_parse_tail(s, i, f2),
    decreases f1 + f2,
{
    lemma_seq_fuel(s, i, seq![116u8, 59u8], (f1 - 1) as nat, (f2 - 1) as nat);
    match spec_parse_seq(s, i, seq![116u8, 59u8], (f1 - 1) as nat) {
        Ok((seg, m)) => {
            lemma_seq_advances(s, i, seq![116u8, 59u8], (f1 - 1) as nat);
            if s[m + 1] != 59 {
                lemma_seq_fuel(s, m + 2, seq![101u8, 59u8], (f1 - 1) as nat, (f2 - 1) as nat);
                match spec_parse_seq(s, m + 2, seq![101u8, 59u8], (f1 - 1) as nat) {
                    Ok((a_ops, k)) => {
                        lemma_seq_advances(s, m + 2, seq![101u8, 59u8], (f1 - 1) as nat);
                        if s[k + 1] != 59 {
                            lemma_tail_fuel(s, k + 2, (f1 - 1) as nat, (f2 - 1) as nat);
                        }
                    },
                    _ => {},
                }
            }
        },
        _ => {},
    }
}

/// Fuel does not change what a sequence parse returns, as long as there
/// are two units more fuel than remaining bytes.
pub proof fn lemma_seq_fuel(s: Seq<u8>, i: int, stops: Seq<u8>, f1: nat, f2: nat)
    requires
        f1 >= 4 * (s.len() - i) + 2,
        f2 >= 4 * (s.len() - i) + 2,
        f1 >= 1,
        f2 >= 1,
    ensures
        spec_parse_seq(s, i, stops, f1) == spec_parse_seq(s, i, stops, f2),
    decreases f1 + f2,
{
    let halt1 = (stops.len() == 0 && i >= s.len()) || (stops.len() > 0 && s.len() - i < 2) || (
    stops.len() > 0 && 0 <= i && i + 1 < s.len() && s[i] == 37 && stops.contains(s[i + 1]));
    if !halt1 {
        lemma_instr_fuel(s, i, (f1 - 1) as nat, (f2 - 1) as nat);
        match spec_parse_instr(s, i, (f1 - 1) as nat) {
            Ok((ops, j)) => {
                lemma_instr_advances(s, i, (f1 - 1) as nat);
                lemma_seq_fuel(s, j, stops, (f1 - 1) as nat, (f2 - 1) as nat);
            },
            _ => {},
        }
    }
}

/// Every `PrintSlice` range a parse emits lies inside the source string.
pub open spec fn spec_ops_slices_ok(ops: Seq<Op>, slen: int) -> bool {
    forall|k: int|
        0 <= k < ops.len() ==> match #[trigger] ops[k] {
            Op::PrintSlice(a, b) => a <= b <= slen,
            _ => true,
        }
}

/// A successful instruction parse emits only in-range slice operations.
pub proof fn lemma_instr_slices_ok(s: Seq<u8>, i: int, fuel: nat)
    requires
        s.len() <= usize::MAX,
    ensures
        spec_parse_instr(s, i, fuel) matches Ok((ops, j)) ==> spec_ops_slices_ok(
            ops,
            s.len() as int,
        ),
    decreases fuel,
{
    if fuel > 0 && 0 <= i < s.len() {
        if s[i] != 37 {
            lemma_lit_run_bound(s, i);
        } else if i + 1 < s.len() && s[i + 1] == 63 {
            lemma_cond_slices_ok(s, i + 2, (fuel - 1) as nat);
        }
    }
}

/// A successful conditional parse emits only in-range slice operations.
pub proof fn lemma_cond_slices_ok(s: Seq<u8>, i: int, fuel: nat)
    requires
        s.len() <= usize::MAX,
    ensures
        spec_parse_cond(s, i, fuel) matches Ok((ops, j)) ==> spec_ops_slices_ok(
            ops,
            s.len() as int,
        ),
    decreases fuel,
{
    if fuel > 0 {
        lemma_seq_slices_ok(s, i, seq![116u8], (fuel - 1) as nat);
        match spec_parse_seq(s, i, seq![116u8], (fuel - 1) as nat) {
            Ok((c_ops, j)) => {
                lemma_seq_slices_ok(s, j + 2, seq![101u8, 59u8], (fuel - 1) as nat);
                match spec_parse_seq(s, j + 2, seq![101u8, 59u8], (fuel - 1) as nat) {
                    Ok((a_ops, k)) => {
                        lemma_tail_slices_ok(s, k + 2, (fuel - 1) as nat);
                    },
                    _ => {},
                }
            },
            _ => {},
        }
    }
}

/// A successful else-part parse emits only in-range slice operations.
pub proof fn lemma_tail_slices_ok(s: Seq<u8>, i: int, fuel: nat)
    requires
        s.len() <= usize::MAX,
    ensures
        spec_parse_tail(s, i, fuel) matches Ok((ops, j)) ==> spec_ops_slices_ok(
            ops,
            s.len() as int,
        ),
    decreases fuel,
{
    if fuel > 0 {
        lemma_seq_slices_ok(s, i, seq![116u8, 59u8], (fuel - 1) as nat);
        match spec_parse_seq(s, i, seq![116u8, 59u8], (fuel - 1) as nat) {
            Ok((seg, m)) => {
                lemma_seq_slices_ok(s, m + 2, seq![101u8, 59u8], (fuel - 1) as nat);
                match spec_parse_seq(s, m + 2, seq![101u8, 59u8], (fuel - 1) as nat) {
                    Ok((a_ops, k)) => {
                        lemma_tail_slices_ok(s, k + 2, (fuel - 1) as nat);
                    },
                    _ => {},
                }
            },
            _ => {},
        }
    }
}

/// A successful sequence parse emits only in-range slice operations.
pub proof fn lemma_seq_slices_ok(s: Seq<u8>, i: int, stops: Seq<u8>, fuel: nat)
    requires
        s.len() <= usize::MAX,
    ensures
        spec_parse_seq(s, i, stops, fuel) matches Ok((ops, j)) ==> spec_ops_slices_ok(
            ops,
            s.len() as int,
        ),
    decreases fuel,
{
    if fuel > 0 {
        lemma_instr_slices_ok(s, i, (fuel - 1) as nat);
        match spec_parse_instr(s, i, (fuel - 1) as nat) {
            Ok((ops, j)) => {
                lemma_seq_slices_ok(s, j, stops, (fuel - 1) as nat);
            },
            _ => {},
        }
    }
}

/// A parsed capability string only prints slices that its source holds.
pub proof fn lemma_parse_slices_ok(s: Seq<u8>)
    requires
        s.len() <= usize::MAX,
    ensures
        spec_parse(s) matches Ok(ops) ==> spec_ops_slices_ok(ops, s.len() as int),
{
    lemma_seq_slices_ok(s, 0, Seq::empty(), (4 * s.len() + 2) as nat);
}

/// A parser for one capability string.
pub struct Parser<'a> {
    src: &'a [u8],
}

impl<'a> View for Parser<'a> {
    type V = Seq<u8>;

    closed spec fn view(&self) -> Seq<u8> {
        self.src@
    }
}

impl<'a> Parser<'a> {
    /// A parser over the given capability string.
    pub fn new(src: &'a [u8]) -> (r: Parser<'a>)
        ensures
            r@ == src@,
    {
        Parser { src }
    }

    /// Parse the whole string into a flat instruction list.
    pub fn parse(&self) -> (r: Result<Vec<Op>, ErrorKind>)
        ensures
            match r {
                Ok(ops) => spec_parse(self@) == Ok::<Seq<Op>, ErrorKind>(ops@),
                Err(e) => spec_parse(self@) == Err::<Seq<Op>, ErrorKind>(e),
            },
    {
        let mut ops: Vec<Op> = Vec::new();
        match parse_seq_exec(self.src, 0, 0, &mut ops) {
            Ok(_) => Ok(ops),
            Err(e) => Err(e),
        }
    }
}

/// The stop set for a sequence parse, as a small code: no stops for the
/// whole string, then one code per conditional delimiter set.
pub open spec fn spec_stops_of(code: u8) -> Seq<u8> {
    if code == 1 {
        seq![116u8]
    } else if code == 2 {
        seq![101u8, 59u8]
    } else if code == 3 {
        seq![59u8]
    } else if code == 4 {
        seq![116u8, 59u8]
    } else {
        Seq::empty()
    }
}

/// Whether byte `c` is in the stop set named by `code`.
fn stop_matches(code: u8, c: u8) -> (r: bool)
    ensures
        r == spec_stops_of(code).contains(c),
{
    let r = if code == 1 {
        c == 116
    } else if code == 2 {
        c == 101 || c == 59
    } else if code == 3 {
        c == 59
    } else if code == 4 {
        c == 116 || c == 59
    } else {
        false
    };
    proof {
        let stops = spec_stops_of(code);
        if r {
            if code == 1 {
                assert(stops[0] == c);
            } else if code == 2 {
                if c == 101 {
                    assert(stops[0] == c);
                } else {
                    assert(stops[1] == c);
                }
            } else if code == 3 {
                assert(stops[0] == c);
            } else if code == 4 {
                if c == 116 {
                    assert(stops[0] == c);
                } else {
                    assert(stops[1] == c);
                }
            }
        }
    }
    r
}

/// Parse instructions from `i` until the end or the stop set, appending to
/// `ops`; the position where parsing stopped is returned.
fn parse_seq_exec(s: &[u8], i: usize, stop_code: u8, ops: &mut Vec<Op>) -> (r: Result<
    usize,
    ErrorKind,
>)
    requires
        i <= s@.len(),
        stop_code <= 4,
    ensures
        match r {
            Ok(j) => spec_parse_seq(s@, i as int, spec_stops_of(stop_code), (4 * (s@.len() - i)
                + 2) as nat) matches Ok((sops, sj)) && sj == j && final(ops)@ == old(ops)@ + sops,
            Err(e) => spec_parse_seq(s@, i as int, spec_stops_of(stop_code), (4 * (s@.len() - i)
                + 2) as nat) == Err::<(Seq<Op>, int), ErrorKind>(e),
        },
    decreases s@.len() - i, 1int,
{
    let ghost stops = spec_stops_of(stop_code);
    let ghost fuel = (4 * (s@.len() - i) + 2) as nat;
    if stop_code == 0 {
        if i >= s.len() {
            proof {
                assert(ops@ =~= old(ops)@ + Seq::<Op>::empty());
            }
            return Ok(i);
        }
    } else {
        if s.len() - i < 2 {
            return Err(ErrorKind::UnexpectedEof);
        }
        if s[i] == 37 && stop_matches(stop_code, s[i + 1]) {
            proof {
                assert(ops@ =~= old(ops)@ + Seq::<Op>::empty());
            }
            return Ok(i);
        }
    }
    let ghost mid = ops@;
    let j = match parse_instr_exec(s, i, ops) {
        Ok(j) => j,
        Err(e) => {
            proof {
                lemma_instr_fuel(s@, i as int, (4 * (s@.len() - i) + 1) as nat, (fuel - 1) as nat);
            }
            return Err(e);
        },
    };
    proof {
        lemma_instr_fuel(s@, i as int, (4 * (s@.len() - i) + 1) as nat, (fuel - 1) as nat);
        lemma_instr_advances(s@, i as int, (fuel - 1) as nat);
    }
    match parse_seq_exec(s, j, stop_code, ops) {
        Ok(k) => {
            proof {
                lemma_seq_fuel(
                    s@,
                    j as int,
                    stops,
                    (4 * (s@.len() - j) + 2) as nat,
                    (fuel - 1) as nat,
                );
                let st = spec_parse_instr(s@, i as int, (fuel - 1) as nat);
                let rest = spec_parse_seq(s@, j as int, stops, (fuel - 1) as nat);
                assert(ops@ =~= old(ops)@ + (st->Ok_0.0 + rest->Ok_0.0));
            }
            Ok(k)
        },
        Err(e) => {
            proof {
                lemma_seq_fuel(
                    s@,
                    j as int,
                    stops,
                    (4 * (s@.len() - j) + 2) as nat,
                    (fuel - 1) as nat,
                );
            }
            Err(e)
        },
    }
}

/// Parse the single instruction at `i`, appending its operations to
/// `ops`; the position just past it is returned.
#[verifier::rlimit(100)]
#[verifier::spinoff_prover]
fn parse_instr_exec(s: &[u8], i: usize, ops: &mut Vec<Op>) -> (r: Result<usize, ErrorKind>)
    requires
        i < s@.len(),
    ensures
        match r {
            Ok(j) => spec_parse_instr(s@, i as int, (4 * (s@.len() - i) + 1) as nat) matches Ok(
                (sops, sj),
            ) && sj == j && i < j <= s@.len() && final(ops)@ == old(ops)@ + sops,
            Err(e) => spec_parse_instr(s@, i as int, (4 * (s@.len() - i) + 1) as nat) == Err::<
                (Seq<Op>, int),
                ErrorKind,
            >(e) && final(ops)@ == old(ops)@,
        },
    decreases s@.len() - i, 0int,
{
    let ghost fuel = (4 * (s@.len() - i) + 1) as nat;
    if s[i] != 37 {
        let mut j = i;
        while j < s.len() && s[j] != 37
            invariant
                i <= j <= s@.len(),
                forall|k: int| i <= k < j ==> s@[k] != 37,
            decreases s@.len() - j,
        {
            j += 1;
        }
        proof {
            lemma_lit_run_unique(s@, i as int, j - i);
        }
        ops.push(Op::PrintSlice(i, j));
        proof {
            assert(ops@ =~= old(ops)@ + seq![Op::PrintSlice(i, j)]);
        }
        return Ok(j);
    }
    if i + 1 >= s.len() {
        return Err(ErrorKind::UnexpectedEof);
    }
    let c = s[i + 1];
    let simple: Option<Op> = match c {
        105 => Some(Op::IncrementArgs),
        108 => Some(Op::StrLen),
        43 => Some(Op::Add),
        45 => Some(Op::Sub),
        42 => Some(Op::Mul),
        47 => Some(Op::Div),
        109 => Some(Op::Mod),
        38 => Some(Op::BitAnd),
        94 => Some(Op::BitXor),
        124 => Some(Op::BitOr),
        61 => Some(Op::Equal),
        60 => Some(Op::Less),
        62 => Some(Op::Greater),
        126 => Some(Op::Invert),
        33 => Some(Op::Not),
        _ => None,
    };
    match simple {
        Some(op) => {
            ops.push(op);
            proof {
                assert(ops@ =~= old(ops)@ + seq![op]);
            }
            return Ok(i + 2);
        },
        None => {},
    }
    if c == 37 {
        ops.push(Op::PrintSlice(i, i + 1));
        proof {
            assert(ops@ =~= old(ops)@ + seq![Op::PrintSlice(i, (i + 1) as usize)]);
        }
        return Ok(i + 2);
    }
    if c == 112 {
        if s.len() - i > 2 && 49 <= s[i + 2] && s[i + 2] <= 57 {
            let op = Op::Push((s[i + 2] - 49) as usize);
            ops.push(op);
            proof {
                assert(ops@ =~= old(ops)@ + seq![op]);
            }
            return Ok(i + 3);
        }
        return Err(ErrorKind::InvalidArgumentIdentifier);
    }
    if c == 123 {
        if s.len() - i <= 2 {
            return Err(ErrorKind::UnexpectedEof);
        }
        let (dend, dv, fits) = read_int_literal(s, i + 2);
        if dend == i + 2 {
            return Err(ErrorKind::InvalidDigit(s[i + 2]));
        }
        if !fits {
            return Err(ErrorKind::InvalidDigit(s[i + 2]));
        }
        if dend >= s.len() {
            return Err(ErrorKind::UnexpectedEof);
        }
        if s[dend] != 125 {
            return Err(ErrorKind::InvalidDigit(s[dend]));
        }
        let op = Op::PushInt(dv);
        ops.push(op);
        proof {
            assert(ops@ =~= old(ops)@ + seq![op]);
        }
        return Ok(dend + 1);
    }
    if c == 39 {
        if s.len() - i <= 3 {
            return Err(ErrorKind::UnexpectedEof);
        }
        if s[i + 3] != 39 {
            return Err(ErrorKind::BadPrintfSpecifier);
        }
        let op = Op::PushChar(s[i + 2]);
        ops.push(op);
        proof {
            assert(ops@ =~= old(ops)@ + seq![op]);
        }
        return Ok(i + 4);
    }
    if c == 63 {
        match parse_cond_exec(s, i + 2, ops) {
            Ok(m) => {
                proof {
                    lemma_cond_fuel(
                        s@,
                        i + 2,
                        (4 * (s@.len() - (i + 2)) + 3) as nat,
                        (fuel - 1) as nat,
                    );
                    lemma_cond_advances(s@, i + 2, (fuel - 1) as nat);
                }
                return Ok(m);
            },
            Err(e) => {
                proof {
                    lemma_cond_fuel(
                        s@,
                        i + 2,
                        (4 * (s@.len() - (i + 2)) + 3) as nat,
                        (fuel - 1) as nat,
                    );
                }
                return Err(e);
            },
        }
    }
    let tail = vstd::slice::slice_subrange(s, i + 1, s.len());
    let pa = match crate::lang::printf::PrintfArgs::parse(tail) {
        Ok(pa) => pa,
        Err(e) => {
            return Err(e);
        },
    };
    let mut j = i + 1;
    while j < s.len() && !(s[j] == 120 || s[j] == 88 || s[j] == 99 || s[j] == 100 || s[j] == 111
        || s[j] == 115)
        invariant
            i + 1 <= j <= s@.len(),
            forall|k: int| i + 1 <= k < j ==> !spec_is_term(s@[k]),
        decreases s@.len() - j,
    {
        j += 1;
    }
    proof {
        lemma_nonterm_run_unique(s@, i + 1, j - (i + 1));
        lemma_print_run_in_range(s@, i as int);
    }
    let op = Op::Print(pa);
    ops.push(op);
    proof {
        assert(ops@ =~= old(ops)@ + seq![op]);
    }
    Ok(j + 1)
}


/// Parse a conditional from the start of its condition at `i`, appending
/// the assembled operations to `ops`; the position just past the closing
/// `%;` is returned.  On an error nothing is appended.
#[verifier::rlimit(100)]
#[verifier::spinoff_prover]
fn parse_cond_exec(s: &[u8], i: usize, ops: &mut Vec<Op>) -> (r: Result<usize, ErrorKind>)
    requires
        i <= s@.len(),
    ensures
        match r {
            Ok(j) => spec_parse_cond(s@, i as int, (4 * (s@.len() - i) + 3) as nat) matches Ok(
                (sops, sj),
            ) && sj == j && final(ops)@ == old(ops)@ + sops,
            Err(e) => spec_parse_cond(s@, i as int, (4 * (s@.len() - i) + 3) as nat) == Err::<
                (Seq<Op>, int),
                ErrorKind,
            >(e) && final(ops)@ == old(ops)@,
        },
    decreases s@.len() - i, 2int,
{
    let slen = s.len();
    let ghost fuel = (4 * (s@.len() - i) + 3) as nat;
    let mut c_ops: Vec<Op> = Vec::new();
    let j = match parse_seq_exec(s, i, 1, &mut c_ops) {
        Ok(j) => j,
        Err(e) => {
            return Err(e);
        },
    };
    proof {
        lemma_seq_advances(s@, i as int, seq![116u8], (fuel - 1) as nat);
    }
    let mut a_ops: Vec<Op> = Vec::new();
    let k = match parse_seq_exec(s, j + 2, 2, &mut a_ops) {
        Ok(k) => k,
        Err(e) => {
            proof {
                lemma_seq_fuel(
                    s@,
                    j + 2,
                    seq![101u8, 59u8],
                    (4 * (s@.len() - (j + 2)) + 2) as nat,
                    (fuel - 1) as nat,
                );
            }
            return Err(e);
        },
    };
    proof {
        lemma_seq_fuel(
            s@,
            j + 2,
            seq![101u8, 59u8],
            (4 * (s@.len() - (j + 2)) + 2) as nat,
            (fuel - 1) as nat,
        );
        lemma_seq_advances(s@, j + 2, seq![101u8, 59u8], (fuel - 1) as nat);
    }
    if s[k + 1] == 59 {
        let ghost before = ops@;
        ops.append(&mut c_ops);
        ops.push(Op::BranchFalse(a_ops.len()));
        ops.append(&mut a_ops);
        proof {
            assert(spec_parse_cond(s@, i as int, fuel) matches Ok((sops, sj)) && sj == k + 2
                && ops@ =~= before + sops);
        }
        return Ok(k + 2);
    }
    let mut b_ops: Vec<Op> = Vec::new();
    let m = match parse_tail_exec(s, k + 2, &mut b_ops) {
        Ok(m) => m,
        Err(e) => {
            proof {
                lemma_tail_fuel(
                    s@,
                    k + 2,
                    (4 * (s@.len() - (k + 2)) + 3) as nat,
                    (fuel - 1) as nat,
                );
            }
            return Err(e);
        },
    };
    proof {
        lemma_tail_fuel(s@, k + 2, (4 * (s@.len() - (k + 2)) + 3) as nat, (fuel - 1) as nat);
        lemma_tail_advances(s@, k + 2, (fuel - 1) as nat);
    }
    let ghost before = ops@;
    ops.append(&mut c_ops);
    ops.push(Op::BranchFalse(a_ops.len() + 1));
    ops.append(&mut a_ops);
    ops.push(Op::Jump(b_ops.len()));
    ops.append(&mut b_ops);
    proof {
        assert(spec_parse_cond(s@, i as int, fuel) matches Ok((sops, sj)) && sj == m as int && ops@
            =~= before + sops);
    }
    Ok(m)
}

/// Parse what follows an `%e`: a plain else-arm, or another condition and
/// arm of the chain.  On an error nothing is appended.
#[verifier::rlimit(100)]
#[verifier::spinoff_prover]
fn parse_tail_exec(s: &[u8], i: usize, ops: &mut Vec<Op>) -> (r: Result<usize, ErrorKind>)
    requires
        i <= s@.len(),
    ensures
        match r {
            Ok(j) => spec_parse_tail(s@, i as int, (4 * (s@.len() - i) + 3) as nat) matches Ok(
                (sops, sj),
            ) && sj == j && final(ops)@ == old(ops)@ + sops,
            Err(e) => spec_parse_tail(s@, i as int, (4 * (s@.len() - i) + 3) as nat) == Err::<
                (Seq<Op>, int),
                ErrorKind,
            >(e) && final(ops)@ == old(ops)@,
        },
    decreases s@.len() - i, 2int,
{
    let slen = s.len();
    let ghost fuel = (4 * (s@.len() - i) + 3) as nat;
    let mut seg: Vec<Op> = Vec::new();
    let m = match parse_seq_exec(s, i, 4, &mut seg) {
        Ok(m) => m,
        Err(e) => {
            return Err(e);
        },
    };
    proof {
        lemma_seq_advances(s@, i as int, seq![116u8, 59u8], (fuel - 1) as nat);
    }
    if s[m + 1] == 59 {
        let ghost before = ops@;
        ops.append(&mut seg);
        proof {
            assert(spec_parse_tail(s@, i as int, fuel) matches Ok((sops, sj)) && sj == m + 2
                && ops@ =~= before + sops);
        }
        return Ok(m + 2);
    }
    let mut a_ops: Vec<Op> = Vec::new();
    let k = match parse_seq_exec(s, m + 2, 2, &mut a_ops) {
        Ok(k) => k,
        Err(e) => {
            proof {
                lemma_seq_fuel(
                    s@,
                    m + 2,
                    seq![101u8, 59u8],
                    (4 * (s@.len() - (m + 2)) + 2) as nat,
                    (fuel - 1) as nat,
                );
            }
            return Err(e);
        },
    };
    proof {
        lemma_seq_fuel(
            s@,
            m + 2,
            seq![101u8, 59u8],
            (4 * (s@.len() - (m + 2)) + 2) as nat,
            (fuel - 1) as nat,
        );
        lemma_seq_advances(s@, m + 2, seq![101u8, 59u8], (fuel - 1) as nat);
    }
    if s[k + 1] == 59 {
        let ghost before = ops@;
        ops.append(&mut seg);
        ops.push(Op::BranchFalse(a_ops.len()));
        ops.append(&mut a_ops);
        proof {
            assert(spec_parse_tail(s@, i as int, fuel) matches Ok((sops, sj)) && sj == k + 2
                && ops@ =~= before + sops);
        }
        return Ok(k + 2);
    }
    let mut b_ops: Vec<Op> = Vec::new();
    let m2 = match parse_tail_exec(s, k + 2, &mut b_ops) {
        Ok(m2) => m2,
        Err(e) => {
            proof {
                lemma_tail_fuel(
                    s@,
                    k + 2,
                    (4 * (s@.len() - (k + 2)) + 3) as nat,
                    (fuel - 1) as nat,
                );
            }
            return Err(e);
        },
    };
    proof {
        lemma_tail_fuel(s@, k + 2, (4 * (s@.len() - (k + 2)) + 3) as nat, (fuel - 1) as nat);
        lemma_tail_advances(s@, k + 2, (fuel - 1) as nat);
    }
    let ghost before = ops@;
    ops.append(&mut seg);
    ops.push(Op::BranchFalse(a_ops.len() + 1));
    ops.append(&mut a_ops);
    ops.push(Op::Jump(b_ops.len()));
    ops.append(&mut b_ops);
    proof {
        assert(spec_parse_tail(s@, i as int, fuel) matches Ok((sops, sj)) && sj == m2 as int && ops@
            =~= before + sops);
    }
    Ok(m2)
}

/// Read the decimal literal at `i`: where it ends, its value, and whether
/// it fits a signed 64-bit integer.
fn read_int_literal(s: &[u8], i: usize) -> (r: (usize, i64, bool))
    requires
        i <= s@.len(),
    ensures
        i <= r.0,
        r.0 == i + spec_digit_run(s@, i as int),
        r.0 <= s@.len(),
        ({
            let v = spec_dec_value(s@, i as int, spec_digit_run(s@, i as int));
            if v <= i64::MAX {
                r.2 && r.1 == v
            } else {
                !r.2
            }
        }),
{
    let mut j = i;
    let mut v: i64 = 0;
    let mut fits = true;
    while j < s.len() && 48 <= s[j] && s[j] <= 57
        invariant
            i <= j <= s@.len(),
            forall|k: int| i <= k < j ==> spec_is_digit(s@[k]),
            0 <= v,
            ({
                let cur = spec_dec_value(s@, i as int, j - i);
                if cur <= i64::MAX {
                    fits && v == cur
                } else {
                    !fits
                }
            }),
        decreases s@.len() - j,
    {
        proof {
            lemma_dec_value_nonneg(s@, i as int, j - i);
            assert(spec_dec_value(s@, i as int, (j - i) + 1) == spec_dec_value(
                s@,
                i as int,
                j - i,
            ) * 10 + (s@[j as int] - 0x30));
        }
        let d = (s[j] - 48) as i64;
        if fits {
            if v > (i64::MAX - d) / 10 {
                fits = false;
                proof {
                    assert(spec_dec_value(s@, i as int, j - i) * 10 + (s@[j as int] - 0x30)
                        > i64::MAX) by (nonlinear_arith)
                        requires
                            spec_dec_value(s@, i as int, j - i) == v,
                            v > (i64::MAX - d) / 10,
                            d == s@[j as int] - 0x30,
                            0 <= d <= 9,
                            v >= 0,
                    ;
                }
            } else {
                proof {
                    assert(v * 10 + d <= i64::MAX) by (nonlinear_arith)
                        requires
                            v <= (i64::MAX - d) / 10,
                            0 <= d <= 9,
                            v >= 0,
                    ;
                }
                v = v * 10 + d;
            }
        } else {
            proof {
                lemma_dec_value_nonneg(s@, i as int, j - i);
                assert(spec_dec_value(s@, i as int, (j - i) + 1) > i64::MAX) by (nonlinear_arith)
                    requires
                        spec_dec_value(s@, i as int, (j - i) + 1) == spec_dec_value(
                            s@,
                            i as int,
                            j - i,
                        ) * 10 + (s@[j as int] - 0x30),
                        spec_dec_value(s@, i as int, j - i) > i64::MAX,
                        0 <= s@[j as int] - 0x30,
                ;
            }
        }
        j += 1;
    }
    proof {
        lemma_digit_run_unique(s@, i as int, j - i);
    }
    (j, v, fits)
}

} // verus!
