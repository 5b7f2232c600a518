//! The execution environment of the capability language: a stack machine
//! over typed operands with nine positional parameters, and the executor
//! that parses a capability string and runs it.
//!
//! Arithmetic wraps on 64-bit overflow; division and remainder by zero
//! yield zero, and both truncate toward zero.  A machine error aborts the
//! evaluation and leaves whatever prefix was already written in place;
//! callers are expected to discard the output on failure.

use vstd::prelude::*;

use crate::lang::argument::ArgV;
use crate::lang::argument::Argument;
use crate::lang::parser::lemma_parse_slices_ok;
use crate::lang::parser::spec_ops_slices_ok;
use crate::lang::parser::spec_parse;
use crate::lang::parser::Op;
use crate::lang::parser::Parser;
use crate::lang::printf::spec_print_out;
use crate::terminfo::errors::ArgType;
use crate::terminfo::errors::ErrorKind;

verus! {

/// The mathematical state of an execution environment.
pub ghost struct EnvV {
    pub stack: Seq<ArgV>,
    pub args: Seq<Option<ArgV>>,
}

/// The state every fresh environment starts in: an empty stack and nine
/// unset parameters.
pub open spec fn spec_env_init() -> EnvV {
    EnvV { stack: Seq::empty(), args: Seq::new(9, |k: int| None) }
}

/// The "pop as bool" rule: a non-zero integer, a non-empty string or a
/// non-zero character count as true; so does nothing at all count as
/// false.
pub open spec fn spec_as_bool(a: Option<ArgV>) -> bool {
    match a {
        Some(ArgV::Integer(x)) => x != 0,
        Some(ArgV::Str(s)) => s.len() != 0,
        Some(ArgV::Char(c)) => c != 0,
        None => false,
    }
}

/// Signed division truncating toward zero; zero when the divisor is zero.
pub open spec fn spec_div_trunc(l: i64, r: i64) -> i64 {
    if r == 0 {
        0
    } else {
        let q = (crate::lang::printf::spec_mag(l) / crate::lang::printf::spec_mag(r)) as int;
        if (l < 0) != (r < 0) {
            (-q) as i64
        } else {
            q as i64
        }
    }
}

/// Signed remainder with the dividend's sign; zero when the divisor is
/// zero.
pub open spec fn spec_mod_trunc(l: i64, r: i64) -> i64 {
    if r == 0 {
        0
    } else {
        let m = (crate::lang::printf::spec_mag(l) % crate::lang::printf::spec_mag(r)) as int;
        if l < 0 {
            (-m) as i64
        } else {
            m as i64
        }
    }
}

/// What a binary arithmetic instruction pushes for left and right integer
/// operands.
pub open spec fn spec_binop(op: Op, l: i64, r: i64) -> i64 {
    match op {
        Op::Add => vstd::wrapping::i64_specs::wrapping_add(l, r),
        Op::Sub => vstd::wrapping::i64_specs::wrapping_sub(l, r),
        Op::Mul => vstd::wrapping::i64_specs::wrapping_mul(l, r),
        Op::Div => spec_div_trunc(l, r),
        Op::Mod => spec_mod_trunc(l, r),
        Op::BitAnd => l & r,
        Op::BitOr => l | r,
        Op::BitXor => l ^ r,
        Op::Less => if l < r {
            1
        } else {
            0
        },
        Op::Greater => if l > r {
            1
        } else {
            0
        },
        Op::Equal => if l == r {
            1
        } else {
            0
        },
        _ => 0,
    }
}

/// Whether an instruction is one of the binary arithmetic or comparison
/// instructions.
pub open spec fn spec_is_binop(op: Op) -> bool {
    op == Op::Add || op == Op::Sub || op == Op::Mul || op == Op::Div || op == Op::Mod || op
        == Op::BitAnd || op == Op::BitOr || op == Op::BitXor || op == Op::Less || op == Op::Greater
        || op == Op::Equal
}

/// The error an integer pop reports for what it actually found.
pub open spec fn spec_int_pop_err(a: Option<ArgV>) -> ErrorKind {
    match a {
        Some(ArgV::Str(_)) => ErrorKind::UnexpectedArgumentType(ArgType::Integer, ArgType::Str),
        Some(ArgV::Char(_)) => ErrorKind::UnexpectedArgumentType(ArgType::Integer, ArgType::Char),
        _ => ErrorKind::UnexpectedArgumentType(ArgType::Str, ArgType::Null),
    }
}

/// The top of the stack, if any.
pub open spec fn spec_top(env: EnvV) -> Option<ArgV> {
    if env.stack.len() == 0 {
        None
    } else {
        Some(env.stack.last())
    }
}

/// The environment with its top popped off, when there is one.
pub open spec fn spec_popped(env: EnvV) -> EnvV {
    if env.stack.len() == 0 {
        env
    } else {
        EnvV { stack: env.stack.drop_last(), ..env }
    }
}

/// One parameter slot incremented, when it holds an integer.
pub open spec fn spec_incr_slot(args: Seq<Option<ArgV>>, k: int) -> Seq<Option<ArgV>> {
    if 0 <= k < args.len() {
        match args[k] {
            Some(ArgV::Integer(x)) => args.update(
                k,
                Some(ArgV::Integer(vstd::wrapping::i64_specs::wrapping_add(x, 1))),
            ),
            _ => args,
        }
    } else {
        args
    }
}

/// Run the instruction stream from `ip` on: the final output and
/// environment, or the output written so far and the error that stopped
/// the run.
pub open spec fn spec_run(src: Seq<u8>, ops: Seq<Op>, ip: int, env: EnvV, out: Seq<u8>) -> Result<
    (Seq<u8>, EnvV),
    (Seq<u8>, ErrorKind),
>
    decreases ops.len() - ip,
{
    if ip < 0 || ip >= ops.len() {
        Ok((out, env))
    } else {
        match ops[ip] {
            Op::NoOp => spec_run(src, ops, ip + 1, env, out),
            Op::Push(k) => {
                let v = if k < 9 && k < env.args.len() && env.args[k as int] is Some {
                    env.args[k as int]->0
                } else {
                    ArgV::Integer(0)
                };
                spec_run(src, ops, ip + 1, EnvV { stack: env.stack.push(v), ..env }, out)
            },
            Op::PushInt(v) => spec_run(
                src,
                ops,
                ip + 1,
                EnvV { stack: env.stack.push(ArgV::Integer(v)), ..env },
                out,
            ),
            Op::PushChar(c) => spec_run(
                src,
                ops,
                ip + 1,
                EnvV { stack: env.stack.push(ArgV::Char(c)), ..env },
                out,
            ),
            Op::Invert => {
                match spec_top(env) {
                    Some(ArgV::Integer(x)) => spec_run(
                        src,
                        ops,
                        ip + 1,
                        EnvV { stack: spec_popped(env).stack.push(ArgV::Integer(!x)), ..env },
                        out,
                    ),
                    a => Err((out, spec_int_pop_err(a))),
                }
            },
            Op::Not => {
                match spec_top(env) {
                    Some(ArgV::Integer(x)) => spec_run(
                        src,
                        ops,
                        ip + 1,
                        EnvV {
                            stack: spec_popped(env).stack.push(
                                ArgV::Integer(
                                    if x == 0 {
                                        1
                                    } else {
                                        0
                                    },
                                ),
                            ),
                            ..env
                        },
                        out,
                    ),
                    a => Err((out, spec_int_pop_err(a))),
                }
            },
            Op::IncrementArgs => {
                let args1 = spec_incr_slot(env.args, 0);
                let args2 = spec_incr_slot(args1, 1);
                spec_run(src, ops, ip + 1, EnvV { args: args2, ..env }, out)
            },
            Op::StrLen => {
                match spec_top(env) {
                    Some(ArgV::Str(s)) => spec_run(
                        src,
                        ops,
                        ip + 1,
                        EnvV {
                            stack: spec_popped(env).stack.push(ArgV::Integer(s.len() as i64)),
                            ..env
                        },
                        out,
                    ),
                    Some(ArgV::Integer(_)) => Err(
                        (out, ErrorKind::UnexpectedArgumentType(ArgType::Str, ArgType::Integer)),
                    ),
                    Some(ArgV::Char(_)) => Err(
                        (out, ErrorKind::UnexpectedArgumentType(ArgType::Str, ArgType::Char)),
                    ),
                    None => Err(
                        (out, ErrorKind::UnexpectedArgumentType(ArgType::Str, ArgType::Null)),
                    ),
                }
            },
            Op::BranchFalse(n) => {
                let b = spec_as_bool(spec_top(env));
                let env1 = spec_popped(env);
                if b {
                    spec_run(src, ops, ip + 1, env1, out)
                } else if ip + 1 + n >= ops.len() {
                    Ok((out, env1))
                } else {
                    spec_run(src, ops, ip + 1 + n, env1, out)
                }
            },
            Op::Jump(n) => if ip + 1 + n >= ops.len() {
                Ok((out, env))
            } else {
                spec_run(src, ops, ip + 1 + n, env, out)
            },
            Op::Print(pa) => {
                let a = spec_top(env);
                let env1 = spec_popped(env);
                match spec_print_out(pa, a) {
                    Ok(bytes) => spec_run(src, ops, ip + 1, env1, out + bytes),
                    Err(e) => Err((out, e)),
                }
            },
            Op::PrintSlice(a, b) => {
                let piece = if a <= b <= src.len() {
                    src.subrange(a as int, b as int)
                } else {
                    Seq::empty()
                };
                spec_run(src, ops, ip + 1, env, out + piece)
            },
            _ => {
                // the binary arithmetic and comparison instructions
                match spec_top(env) {
                    Some(ArgV::Integer(rv)) => {
                        let env1 = spec_popped(env);
                        match spec_top(env1) {
                            Some(ArgV::Integer(lv)) => spec_run(
                                src,
                                ops,
                                ip + 1,
                                EnvV {
                                    stack: spec_popped(env1).stack.push(
                                        ArgV::Integer(spec_binop(ops[ip], lv, rv)),
                                    ),
                                    ..env
                                },
                                out,
                            ),
                            a => Err((out, spec_int_pop_err(a))),
                        }
                    },
                    a => Err((out, spec_int_pop_err(a))),
                }
            },
        }
    }
}

/// Parse a capability string and run it from a starting environment: the
/// bytes written and the final environment, or the bytes written before
/// the error.  A parse error writes nothing.
pub open spec fn spec_exec(src: Seq<u8>, env: EnvV) -> Result<
    (Seq<u8>, EnvV),
    (Seq<u8>, ErrorKind),
> {
    match spec_parse(src) {
        Err(e) => Err((Seq::empty(), e)),
        Ok(ops) => spec_run(src, ops, 0, env, Seq::empty()),
    }
}

/// Evaluating a capability string is deterministic: the same string and
/// the same arguments give byte-identical output, every time.
pub proof fn lemma_exec_deterministic(
    src: Seq<u8>,
    env: EnvV,
    r1: Result<(Seq<u8>, EnvV), (Seq<u8>, ErrorKind)>,
    r2: Result<(Seq<u8>, EnvV), (Seq<u8>, ErrorKind)>,
)
    requires
        r1 == spec_exec(src, env),
        r2 == spec_exec(src, env),
    ensures
        r1 == r2,
{
}

/// The typed stack and the nine parameter slots of one evaluation.
pub struct ExecutionEnvironment {
    stack: Vec<Argument>,
    arguments: Vec<Option<Argument>>,
}

impl View for ExecutionEnvironment {
    type V = EnvV;

    closed spec fn view(&self) -> EnvV {
        EnvV {
            stack: Seq::new(self.stack@.len(), |k: int| self.stack@[k]@),
            args: Seq::new(
                self.arguments@.len(),
                |k: int|
                    match self.arguments@[k] {
                        Some(a) => Some(a@),
                        None => None,
                    },
            ),
        }
    }
}

impl ExecutionEnvironment {
    /// There are always exactly nine parameter slots.
    pub open spec fn wf(self) -> bool {
        self@.args.len() == 9
    }

    /// A fresh environment: empty stack, nine unset parameters.
    pub fn new() -> (r: ExecutionEnvironment)
        ensures
            r@ == spec_env_init(),
            r.wf(),
    {
        let mut arguments: Vec<Option<Argument>> = Vec::new();
        let mut k: usize = 0;
        while k < 9
            invariant
                k <= 9,
                arguments@.len() == k,
                forall|j: int| 0 <= j < k ==> arguments@[j] is None,
            decreases 9 - k,
        {
            arguments.push(None);
            k += 1;
        }
        let r = ExecutionEnvironment { stack: Vec::new(), arguments };
        proof {
            assert(r@.stack =~= spec_env_init().stack);
            assert(r@.args =~= spec_env_init().args);
        }
        r
    }

    /// Pop the top operand, if any.
    pub fn pop(&mut self) -> (r: Option<Argument>)
        ensures
            final(self)@ == spec_popped(old(self)@),
            match r {
                Some(a) => spec_top(old(self)@) == Some(a@),
                None => spec_top(old(self)@) is None,
            },
            final(self).wf() == old(self).wf(),
    {
        let r = self.stack.pop();
        proof {
            assert(final(self)@.args =~= old(self)@.args);
            if old(self)@.stack.len() > 0 {
                assert(final(self)@.stack =~= spec_popped(old(self)@).stack);
            } else {
                assert(final(self)@.stack =~= spec_popped(old(self)@).stack);
            }
        }
        r
    }

    /// Push an operand.
    pub fn push(&mut self, t: Argument)
        ensures
            final(self)@ == (EnvV { stack: old(self)@.stack.push(t@), ..old(self)@ }),
            final(self).wf() == old(self).wf(),
    {
        self.stack.push(t);
        proof {
            assert(final(self)@.args =~= old(self)@.args);
            assert(final(self)@.stack =~= old(self)@.stack.push(t@));
        }
    }

    /// Pop an operand that must be an integer.
    pub fn pop_integer(&mut self) -> (r: Result<i64, ErrorKind>)
        ensures
            final(self)@ == spec_popped(old(self)@),
            match r {
                Ok(x) => spec_top(old(self)@) == Some(ArgV::Integer(x)),
                Err(e) => !(spec_top(old(self)@) matches Some(a) && a is Integer) && e
                    == spec_int_pop_err(spec_top(old(self)@)),
            },
            final(self).wf() == old(self).wf(),
    {
        match self.pop() {
            Some(Argument::Integer(x)) => Ok(x),
            Some(Argument::Str(_)) => Err(
                ErrorKind::UnexpectedArgumentType(ArgType::Integer, ArgType::Str),
            ),
            Some(Argument::Char(_)) => Err(
                ErrorKind::UnexpectedArgumentType(ArgType::Integer, ArgType::Char),
            ),
            None => Err(ErrorKind::UnexpectedArgumentType(ArgType::Str, ArgType::Null)),
        }
    }

    /// Pop an operand that must be a byte string.
    pub fn pop_string(&mut self) -> (r: Result<Vec<u8>, ErrorKind>)
        ensures
            final(self)@ == spec_popped(old(self)@),
            match r {
                Ok(s) => spec_top(old(self)@) == Some(ArgV::Str(s@)),
                Err(e) => !(spec_top(old(self)@) matches Some(a) && a is Str) && e == match spec_top(
                    old(self)@,
                ) {
                    Some(ArgV::Integer(_)) => ErrorKind::UnexpectedArgumentType(
                        ArgType::Str,
                        ArgType::Integer,
                    ),
                    Some(ArgV::Char(_)) => ErrorKind::UnexpectedArgumentType(
                        ArgType::Str,
                        ArgType::Char,
                    ),
                    _ => ErrorKind::UnexpectedArgumentType(ArgType::Str, ArgType::Null),
                },
            },
            final(self).wf() == old(self).wf(),
    {
        match self.pop() {
            Some(Argument::Str(s)) => Ok(s),
            Some(Argument::Integer(_)) => Err(
                ErrorKind::UnexpectedArgumentType(ArgType::Str, ArgType::Integer),
            ),
            Some(Argument::Char(_)) => Err(
                ErrorKind::UnexpectedArgumentType(ArgType::Str, ArgType::Char),
            ),
            None => Err(ErrorKind::UnexpectedArgumentType(ArgType::Str, ArgType::Null)),
        }
    }

    /// Pop an operand that must be a character.
    pub fn pop_char(&mut self) -> (r: Result<u8, ErrorKind>)
        ensures
            final(self)@ == spec_popped(old(self)@),
            match r {
                Ok(c) => spec_top(old(self)@) == Some(ArgV::Char(c)),
                Err(e) => !(spec_top(old(self)@) matches Some(a) && a is Char) && e == match spec_top(
                    old(self)@,
                ) {
                    Some(ArgV::Integer(_)) => ErrorKind::UnexpectedArgumentType(
                        ArgType::Char,
                        ArgType::Integer,
                    ),
                    Some(ArgV::Str(_)) => ErrorKind::UnexpectedArgumentType(
                        ArgType::Char,
                        ArgType::Str,
                    ),
                    _ => ErrorKind::UnexpectedArgumentType(ArgType::Char, ArgType::Null),
                },
            },
            final(self).wf() == old(self).wf(),
    {
        match self.pop() {
            Some(Argument::Char(c)) => Ok(c),
            Some(Argument::Integer(_)) => Err(
                ErrorKind::UnexpectedArgumentType(ArgType::Char, ArgType::Integer),
            ),
            Some(Argument::Str(_)) => Err(
                ErrorKind::UnexpectedArgumentType(ArgType::Char, ArgType::Str),
            ),
            None => Err(ErrorKind::UnexpectedArgumentType(ArgType::Char, ArgType::Null)),
        }
    }

    /// Run an already parsed instruction stream against `src`, writing
    /// into `w`.
    pub fn write(&mut self, src: &[u8], ops: &Vec<Op>, w: &mut Vec<u8>) -> (r: Result<
        (),
        ErrorKind,
    >)
        requires
            old(self).wf(),
            spec_ops_slices_ok(ops@, src@.len() as int),
        ensures
            final(self).wf(),
            match spec_run(src@, ops@, 0, old(self)@, Seq::empty()) {
                Ok((out, env)) => r is Ok && final(w)@ == old(w)@ + out && final(self)@ == env,
                Err((out, e)) => r == Err::<(), ErrorKind>(e) && final(w)@ == old(w)@ + out,
            },
    {
        let ghost env0 = self@;
        let ghost w0 = w@;
        let mut ip: usize = 0;
        proof {
            assert(w@.subrange(w0.len() as int, w@.len() as int) =~= Seq::<u8>::empty());
        }
        loop
            invariant
                env0 == old(self)@,
                w0 == old(w)@,
                self.wf(),
                ip <= ops@.len(),
                spec_ops_slices_ok(ops@, src@.len() as int),
                w0.len() <= w@.len(),
                w@.subrange(0, w0.len() as int) == w0,
                spec_run(src@, ops@, ip as int, self@, w@.subrange(w0.len() as int, w@.len() as int))
                    == spec_run(src@, ops@, 0, env0, Seq::empty()),
            decreases ops@.len() - ip,
        {
            if ip >= ops.len() {
                proof {
                    assert(w@ =~= w0 + w@.subrange(w0.len() as int, w@.len() as int));
                }
                return Ok(());
            }
            let ghost pre = self@;
            let ghost wpre = w@;
            let op = &ops[ip];
            match op {
                Op::NoOp => {
                    proof {
                        assert(spec_run(
                            src@,
                            ops@,
                            ip as int,
                            pre,
                            wpre.subrange(w0.len() as int, wpre.len() as int),
                        ) == spec_run(
                            src@,
                            ops@,
                            ip + 1,
                            self@,
                            w@.subrange(w0.len() as int, w@.len() as int),
                        ));
                    }
                    ip += 1;
                },
                Op::Push(k) => {
                    let k = *k;
                    let v: Argument = if k < 9 {
                        match &self.arguments[k] {
                            Some(a) => dup_arg(a),
                            None => Argument::Integer(0),
                        }
                    } else {
                        Argument::Integer(0)
                    };
                    self.push(v);
                    proof {
                        assert(spec_run(
                            src@,
                            ops@,
                            ip as int,
                            pre,
                            wpre.subrange(w0.len() as int, wpre.len() as int),
                        ) == spec_run(
                            src@,
                            ops@,
                            ip + 1,
                            self@,
                            w@.subrange(w0.len() as int, w@.len() as int),
                        ));
                    }
                    ip += 1;
                },
                Op::PushInt(v) => {
                    self.push(Argument::Integer(*v));
                    proof {
                        assert(spec_run(
                            src@,
                            ops@,
                            ip as int,
                            pre,
                            wpre.subrange(w0.len() as int, wpre.len() as int),
                        ) == spec_run(
                            src@,
                            ops@,
                            ip + 1,
                            self@,
                            w@.subrange(w0.len() as int, w@.len() as int),
                        ));
                    }
                    ip += 1;
                },
                Op::PushChar(c) => {
                    self.push(Argument::Char(*c));
                    proof {
                        assert(spec_run(
                            src@,
                            ops@,
                            ip as int,
                            pre,
                            wpre.subrange(w0.len() as int, wpre.len() as int),
                        ) == spec_run(
                            src@,
                            ops@,
                            ip + 1,
                            self@,
                            w@.subrange(w0.len() as int, w@.len() as int),
                        ));
                    }
                    ip += 1;
                },
                Op::Invert => {
                    let x = match self.pop_integer() {
                        Ok(x) => x,
                        Err(e) => {
                            proof {
                                assert(w@ =~= w0 + w@.subrange(w0.len() as int, w@.len() as int));
                            }
                            return Err(e);
                        },
                    };
                    self.push(Argument::Integer(!x));
                    proof {
                        assert(spec_run(
                            src@,
                            ops@,
                            ip as int,
                            pre,
                            wpre.subrange(w0.len() as int, wpre.len() as int),
                        ) == spec_run(
                            src@,
                            ops@,
                            ip + 1,
                            self@,
                            w@.subrange(w0.len() as int, w@.len() as int),
                        ));
                    }
                    ip += 1;
                },
                Op::Not => {
                    let x = match self.pop_integer() {
                        Ok(x) => x,
                        Err(e) => {
                            proof {
                                assert(w@ =~= w0 + w@.subrange(w0.len() as int, w@.len() as int));
                            }
                            return Err(e);
                        },
                    };
                    self.push(
                        Argument::Integer(
                            if x == 0 {
                                1
                            } else {
                                0
                            },
                        ),
                    );
                    proof {
                        assert(spec_run(
                            src@,
                            ops@,
                            ip as int,
                            pre,
                            wpre.subrange(w0.len() as int, wpre.len() as int),
                        ) == spec_run(
                            src@,
                            ops@,
                            ip + 1,
                            self@,
                            w@.subrange(w0.len() as int, w@.len() as int),
                        ));
                    }
                    ip += 1;
                },
                Op::IncrementArgs => {
                    self.incr_slot(0);
                    self.incr_slot(1);
                    proof {
                        assert(spec_run(
                            src@,
                            ops@,
                            ip as int,
                            pre,
                            wpre.subrange(w0.len() as int, wpre.len() as int),
                        ) == spec_run(
                            src@,
                            ops@,
                            ip + 1,
                            self@,
                            w@.subrange(w0.len() as int, w@.len() as int),
                        ));
                    }
                    ip += 1;
                },
                Op::StrLen => {
                    let s = match self.pop_string() {
                        Ok(s) => s,
                        Err(e) => {
                            proof {
                                assert(w@ =~= w0 + w@.subrange(w0.len() as int, w@.len() as int));
                            }
                            return Err(e);
                        },
                    };
                    let slen: i64 = s.len() as i64;
                    self.push(Argument::Integer(slen));
                    proof {
                        assert(spec_top(pre) == Some(ArgV::Str(s@)));
                        assert(self@.stack =~= spec_popped(pre).stack.push(
                            ArgV::Integer(s@.len() as i64),
                        ));
                        assert(self@.args =~= pre.args);
                        assert(self@ == EnvV {
                            stack: spec_popped(pre).stack.push(ArgV::Integer(s@.len() as i64)),
                            ..pre
                        });
                        assert(spec_run(
                            src@,
                            ops@,
                            ip as int,
                            pre,
                            wpre.subrange(w0.len() as int, wpre.len() as int),
                        ) == spec_run(
                            src@,
                            ops@,
                            ip + 1,
                            self@,
                            wpre.subrange(w0.len() as int, wpre.len() as int),
                        ));
                    }
                    ip += 1;
                },
                Op::BranchFalse(n) => {
                    let n = *n;
                    let b = self.pop_bool();
                    if b {
                    proof {
                        assert(spec_run(
                            src@,
                            ops@,
                            ip as int,
                            pre,
                            wpre.subrange(w0.len() as int, wpre.len() as int),
                        ) == spec_run(
                            src@,
                            ops@,
                            ip + 1,
                            self@,
                            w@.subrange(w0.len() as int, w@.len() as int),
                        ));
                    }
                        ip += 1;
                    } else {
                        if n >= ops.len() - (ip + 1) {
                            proof {
                                assert(spec_run(
                                    src@,
                                    ops@,
                                    ip as int,
                                    pre,
                                    wpre.subrange(w0.len() as int, wpre.len() as int),
                                ) == spec_run(
                                    src@,
                                    ops@,
                                    ops@.len() as int,
                                    self@,
                                    w@.subrange(w0.len() as int, w@.len() as int),
                                ));
                            }
                            ip = ops.len();
                        } else {
                            proof {
                                assert(spec_run(
                                    src@,
                                    ops@,
                                    ip as int,
                                    pre,
                                    wpre.subrange(w0.len() as int, wpre.len() as int),
                                ) == spec_run(
                                    src@,
                                    ops@,
                                    ip + 1 + n,
                                    self@,
                                    w@.subrange(w0.len() as int, w@.len() as int),
                                ));
                            }
                            ip = ip + 1 + n;
                        }
                    }
                },
                Op::Jump(n) => {
                    let n = *n;
                    if n >= ops.len() - (ip + 1) {
                        proof {
                            assert(spec_run(
                                src@,
                                ops@,
                                ip as int,
                                pre,
                                wpre.subrange(w0.len() as int, wpre.len() as int),
                            ) == spec_run(
                                src@,
                                ops@,
                                ops@.len() as int,
                                self@,
                                w@.subrange(w0.len() as int, w@.len() as int),
                            ));
                        }
                        ip = ops.len();
                    } else {
                        proof {
                            assert(spec_run(
                                src@,
                                ops@,
                                ip as int,
                                pre,
                                wpre.subrange(w0.len() as int, wpre.len() as int),
                            ) == spec_run(
                                src@,
                                ops@,
                                ip + 1 + n,
                                self@,
                                w@.subrange(w0.len() as int, w@.len() as int),
                            ));
                        }
                        ip = ip + 1 + n;
                    }
                },
                Op::Print(pa) => {
                    let pa = *pa;
                    let a = self.pop();
                    match pa.print(w, a) {
                        Ok(()) => {
                            proof {
                                let bytes = spec_print_out(pa, spec_top(pre))->Ok_0;
                                assert(w@ == wpre + bytes);
                                assert(w@.subrange(wpre.len() as int, w@.len() as int) =~= bytes);
                                assert(w@.subrange(0, w0.len() as int) =~= w0);
                                assert(w@.subrange(w0.len() as int, w@.len() as int) =~=
                                    wpre.subrange(w0.len() as int, wpre.len() as int)
                                    + w@.subrange(wpre.len() as int, w@.len() as int));
                                assert(spec_run(
                                    src@,
                                    ops@,
                                    ip as int,
                                    pre,
                                    wpre.subrange(w0.len() as int, wpre.len() as int),
                                ) == spec_run(
                                    src@,
                                    ops@,
                                    ip + 1,
                                    self@,
                                    w@.subrange(w0.len() as int, w@.len() as int),
                                ));
                            }
                            ip += 1;
                        },
                        Err(e) => {
                            proof {
                                assert(w@ =~= w0 + w@.subrange(w0.len() as int, w@.len() as int));
                            }
                            return Err(e);
                        },
                    }
                },
                Op::PrintSlice(a, b) => {
                    let a = *a;
                    let b = *b;
                    proof {
                        assert(ops@[ip as int] == Op::PrintSlice(a, b));
                        assert(a <= b <= src@.len());
                    }
                    let piece = vstd::slice::slice_subrange(src, a, b);
                    crate::lang::printf::append_slice(w, piece);
                    proof {
                        assert(w@.subrange(0, w0.len() as int) =~= w0);
                        assert(w@.subrange(w0.len() as int, w@.len() as int) =~= wpre.subrange(
                            w0.len() as int,
                            wpre.len() as int,
                        ) + piece@);
                        assert(spec_run(
                            src@,
                            ops@,
                            ip as int,
                            pre,
                            wpre.subrange(w0.len() as int, wpre.len() as int),
                        ) == spec_run(
                            src@,
                            ops@,
                            ip + 1,
                            self@,
                            w@.subrange(w0.len() as int, w@.len() as int),
                        ));
                    }
                    ip += 1;
                },
                _ => {
                    // the binary arithmetic and comparison instructions
                    proof {
                        assert(spec_is_binop(ops@[ip as int]));
                    }
                    let rv = match self.pop_integer() {
                        Ok(x) => x,
                        Err(e) => {
                            proof {
                                assert(w@ =~= w0 + w@.subrange(w0.len() as int, w@.len() as int));
                            }
                            return Err(e);
                        },
                    };
                    let lv = match self.pop_integer() {
                        Ok(x) => x,
                        Err(e) => {
                            proof {
                                assert(w@ =~= w0 + w@.subrange(w0.len() as int, w@.len() as int));
                            }
                            return Err(e);
                        },
                    };
                    let res: i64 = match op {
                        Op::Add => lv.wrapping_add(rv),
                        Op::Sub => lv.wrapping_sub(rv),
                        Op::Mul => lv.wrapping_mul(rv),
                        Op::Div => div_trunc(lv, rv),
                        Op::Mod => mod_trunc(lv, rv),
                        Op::BitAnd => lv & rv,
                        Op::BitOr => lv | rv,
                        Op::BitXor => lv ^ rv,
                        Op::Less => if lv < rv {
                            1
                        } else {
                            0
                        },
                        Op::Greater => if lv > rv {
                            1
                        } else {
                            0
                        },
                        _ => if lv == rv {
                            1
                        } else {
                            0
                        },
                    };
                    self.push(Argument::Integer(res));
                    proof {
                        assert(res == spec_binop(ops@[ip as int], lv, rv));
                        assert(self@ == EnvV {
                            stack: spec_popped(spec_popped(pre)).stack.push(
                                ArgV::Integer(spec_binop(ops@[ip as int], lv, rv)),
                            ),
                            ..pre
                        });
                        assert(spec_run(
                            src@,
                            ops@,
                            ip as int,
                            pre,
                            wpre.subrange(w0.len() as int, wpre.len() as int),
                        ) == spec_run(
                            src@,
                            ops@,
                            ip + 1,
                            self@,
                            wpre.subrange(w0.len() as int, wpre.len() as int),
                        ));
                    }
                    ip += 1;
                },
            }
        }
    }

    /// Add one to the integer in parameter slot `k`, when there is one.
    fn incr_slot(&mut self, k: usize)
        requires
            old(self).wf(),
        ensures
            final(self)@ == (EnvV {
                args: spec_incr_slot(old(self)@.args, k as int),
                ..old(self)@
            }),
            final(self).wf(),
    {
        if k < self.arguments.len() {
            let updated: Option<Argument> = match &self.arguments[k] {
                Some(Argument::Integer(x)) => Some(Argument::Integer(x.wrapping_add(1))),
                _ => {
                    proof {
                        assert(final(self)@ =~= old(self)@);
                        assert(spec_incr_slot(old(self)@.args, k as int) =~= old(self)@.args);
                    }
                    return ;
                },
            };
            self.arguments.set(k, updated);
            proof {
                assert(final(self)@.args =~= spec_incr_slot(old(self)@.args, k as int));
                assert(final(self)@.stack =~= old(self)@.stack);
            }
        }
    }

    /// Pop the top operand as a truth value; an empty stack reads false.
    fn pop_bool(&mut self) -> (r: bool)
        ensures
            final(self)@ == spec_popped(old(self)@),
            r == spec_as_bool(spec_top(old(self)@)),
            final(self).wf() == old(self).wf(),
    {
        match self.pop() {
            Some(Argument::Integer(x)) => x != 0,
            Some(Argument::Str(s)) => s.len() != 0,
            Some(Argument::Char(c)) => c != 0,
            None => false,
        }
    }
}

/// An owned copy of an operand.
fn dup_arg(a: &Argument) -> (r: Argument)
    ensures
        r@ == a@,
{
    match a {
        Argument::Integer(x) => Argument::Integer(*x),
        Argument::Str(s) => Argument::Str(vstd::slice::slice_to_vec(s.as_slice())),
        Argument::Char(c) => Argument::Char(*c),
    }
}

/// Division truncating toward zero; zero when the divisor is zero.
fn div_trunc(l: i64, r: i64) -> (res: i64)
    ensures
        res == spec_div_trunc(l, r),
{
    if r == 0 {
        return 0;
    }
    let lm = mag64(l);
    let rm = mag64(r);
    let q = lm / rm;
    if (l < 0) != (r < 0) {
        neg64(q)
    } else {
        #[verifier::truncate] (q as i64)
    }
}

/// Remainder with the dividend's sign; zero when the divisor is zero.
fn mod_trunc(l: i64, r: i64) -> (res: i64)
    ensures
        res == spec_mod_trunc(l, r),
{
    if r == 0 {
        return 0;
    }
    let lm = mag64(l);
    let rm = mag64(r);
    let m = lm % rm;
    if l < 0 {
        neg64(m)
    } else {
        #[verifier::truncate] (m as i64)
    }
}

/// The magnitude of `x`.
fn mag64(x: i64) -> (r: u64)
    ensures
        r as nat == crate::lang::printf::spec_mag(x),
{
    if x == i64::MIN {
        0x8000000000000000u64
    } else if x < 0 {
        (-x) as u64
    } else {
        x as u64
    }
}

/// `-q`, where `q` is at most two to the sixty-third.
fn neg64(q: u64) -> (r: i64)
    requires
        q <= 0x8000000000000000,
    ensures
        r as int == -(q as int),
{
    if q == 0x8000000000000000 {
        i64::MIN
    } else {
        -(q as i64)
    }
}

/// The spec-level state of an executor.
pub ghost struct ExecutorV {
    pub src: Seq<u8>,
    pub env: EnvV,
    pub argc: int,
}

/// One evaluation of a capability string: arguments go in through `arg`
/// and `argi`, and `write`, `vec` or `string` parse and run the string.
pub struct Executor<'a> {
    src: &'a [u8],
    env: ExecutionEnvironment,
    argc: usize,
}

impl<'a> View for Executor<'a> {
    type V = ExecutorV;

    closed spec fn view(&self) -> ExecutorV {
        ExecutorV { src: self.src@, env: self.env@, argc: self.argc as int }
    }
}

impl<'a> Executor<'a> {
    /// The environment always has its nine parameter slots, and the
    /// count of pushed arguments stays within them.
    pub open spec fn wf(self) -> bool {
        self@.env.args.len() == 9 && 0 <= self@.argc <= 9
    }

    /// An executor over the given capability string, with no arguments
    /// set.
    pub fn new(src: &'a [u8]) -> (r: Executor<'a>)
        ensures
            r@ == (ExecutorV { src: src@, env: spec_env_init(), argc: 0 }),
            r.wf(),
    {
        Executor { src, env: ExecutionEnvironment::new(), argc: 0 }
    }

    /// Set parameter `i`; slots past the ninth are silently ignored, a
    /// documented cap of the parameter table.
    pub fn argi(self, i: usize, a: Argument) -> (r: Executor<'a>)
        requires
            self.wf(),
        ensures
            r.wf(),
            r@.src == self@.src,
            r@.argc == self@.argc,
            r@.env.stack == self@.env.stack,
            r@.env.args == if i < 9 {
                self@.env.args.update(i as int, Some(a@))
            } else {
                self@.env.args
            },
    {
        let Executor { src, mut env, argc } = self;
        if i < 9 {
            env.arguments.set(i, Some(a));
        }
        Executor { src, env, argc }
    }

    /// Append the next positional parameter; after nine arguments the
    /// call does nothing, a documented cap of the parameter table.
    pub fn arg(self, a: Argument) -> (r: Executor<'a>)
        requires
            self.wf(),
        ensures
            r.wf(),
            r@.src == self@.src,
            r@.env.stack == self@.env.stack,
            r@.env.args == if self@.argc < 9 {
                self@.env.args.update(self@.argc, Some(a@))
            } else {
                self@.env.args
            },
            r@.argc == if self@.argc < 9 {
                self@.argc + 1
            } else {
                self@.argc
            },
    {
        let Executor { src, mut env, argc } = self;
        if argc < 9 {
            env.arguments.set(argc, Some(a));
            Executor { src, env, argc: argc + 1 }
        } else {
            Executor { src, env, argc }
        }
    }

    /// Parse the capability string and run it, appending the output to
    /// `w`.  On an error, whatever prefix was produced stays in `w`.
    pub fn write(&mut self, w: &mut Vec<u8>) -> (r: Result<(), ErrorKind>)
        requires
            old(self).wf(),
        ensures
            final(self).wf(),
            final(self)@.src == old(self)@.src,
            match spec_exec(old(self)@.src, old(self)@.env) {
                Ok((out, env)) => r is Ok && final(w)@ == old(w)@ + out && final(self)@.env == env,
                Err((out, e)) => r == Err::<(), ErrorKind>(e) && final(w)@ == old(w)@ + out,
            },
    {
        let parser = Parser::new(self.src);
        let ops = match parser.parse() {
            Ok(ops) => ops,
            Err(e) => {
                proof {
                    assert(final(w)@ =~= old(w)@ + Seq::<u8>::empty());
                }
                return Err(e);
            },
        };
        let srclen = self.src.len();
        proof {
            lemma_parse_slices_ok(self.src@);
        }
        self.env.write(self.src, &ops, w)
    }

    /// Parse the capability string and run it, collecting the output.
    pub fn vec(&mut self) -> (r: Result<Vec<u8>, ErrorKind>)
        requires
            old(self).wf(),
        ensures
            final(self).wf(),
            final(self)@.src == old(self)@.src,
            match spec_exec(old(self)@.src, old(self)@.env) {
                Ok((out, env)) => r matches Ok(v) && v@ == out,
                Err((out, e)) => r == Err::<Vec<u8>, ErrorKind>(e),
            },
    {
        let mut w: Vec<u8> = Vec::new();
        match self.write(&mut w) {
            Ok(()) => Ok(w),
            Err(e) => Err(e),
        }
    }

    /// Parse the capability string and run it, collecting the output as a
    /// string.  Output that is not valid UTF-8 is reported as a failure
    /// to write the argument.
    pub fn string(&mut self) -> (r: Result<String, ErrorKind>)
        requires
            old(self).wf(),
        ensures
            final(self).wf(),
            match spec_exec(old(self)@.src, old(self)@.env) {
                Ok((out, env)) => if vstd::utf8::valid_utf8(out) {
                    r matches Ok(s) && s@ == vstd::utf8::decode_utf8(out)
                } else {
                    r == Err::<String, ErrorKind>(ErrorKind::FailedToWriteArgument)
                },
                Err((out, e)) => r == Err::<String, ErrorKind>(e),
            },
    {
        let v = match self.vec() {
            Ok(v) => v,
            Err(e) => {
                return Err(e);
            },
        };
        match crate::util::bytes_to_string(v) {
            Some(s) => Ok(s),
            None => Err(ErrorKind::FailedToWriteArgument),
        }
    }
}

} // verus!
