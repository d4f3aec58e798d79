//! The instruction parser: a line-oriented driver over the whitespace-free
//! token stream that recognizes labels and mnemonics and produces the
//! ordered sequence of instruction nodes, together with the
//! precedence-climbing sub-parser for bracketed addressing arithmetic.
//!
//! The parser works on operand *shape* only — how many tokens, in what
//! bracket and comma structure. Operand meaning, register names included, is
//! resolved later by the code generator.

use vstd::prelude::*;

use crate::ast::{Expr, ExprArgs, ExprKind, S, SpecExpr, SpecExprArgs, SpecS};
use crate::common::{clone_token, Regs, SpecTokenKind, TokenEnum};
use crate::lexer::{LexerError, SpecToken, Token};

verus! {

/// A parsing failure.
///
/// * `EmptyExpr` — a bracketed expression ended where an operand was needed;
/// * `UnknownExpr` — a line began with a token that starts no instruction
///   (the message joins the display text of that token and the rest of its
///   line), or an expression token fits no grammar rule (the message is
///   that token's display text);
/// * `FailedToParseReg` — an identifier in a register slot names no register;
/// * `UnknownMnemonic` — an identifier in mnemonic position is no mnemonic;
/// * `ExpectedToken` — a required token (a comma, a colon, a closing
///   parenthesis, an operand) is missing; the text says which;
/// * `Lexer` — the input could not be lexed at all.
///
/// Where a failure arises at a known source line, it carries that line,
/// counted from zero; failures inside a bracketed expression carry line 0.
#[derive(Debug, PartialEq)]
pub enum ParserError {
    EmptyExpr,
    UnknownExpr(String, u32),
    FailedToParseReg(String),
    UnknownMnemonic(String, u32),
    ExpectedToken(String, u32),
    Lexer(LexerError),
}

/// The mathematical model of a parsing failure: the variant and its
/// structured payload. An `UnknownExpr` keeps its message — the offending
/// source text is part of what the diagnostic promises — while an
/// `ExpectedToken` keeps only the line, its message being a fixed usage
/// text.
pub ghost enum SpecParserError {
    EmptyExpr,
    UnknownExpr(Seq<char>, u32),
    FailedToParseReg(Seq<char>),
    UnknownMnemonic(Seq<char>, u32),
    ExpectedToken(u32),
    Lexer(LexerError),
}

impl View for ParserError {
    type V = SpecParserError;

    open spec fn view(&self) -> SpecParserError {
        match self {
            ParserError::EmptyExpr => SpecParserError::EmptyExpr,
            ParserError::UnknownExpr(msg, line) => SpecParserError::UnknownExpr(msg@, *line),
            ParserError::FailedToParseReg(name) => SpecParserError::FailedToParseReg(name@),
            ParserError::UnknownMnemonic(name, line) => SpecParserError::UnknownMnemonic(
                name@,
                *line,
            ),
            ParserError::ExpectedToken(_, line) => SpecParserError::ExpectedToken(*line),
            ParserError::Lexer(e) => SpecParserError::Lexer(*e),
        }
    }
}

/// The register a name resolves to: `acc` and `r1` through `r8`, exactly.
pub open spec fn spec_reg_of(name: Seq<char>) -> Option<Regs> {
    if name == "acc"@ {
        Some(Regs::ACC)
    } else if name == "r1"@ {
        Some(Regs::R1)
    } else if name == "r2"@ {
        Some(Regs::R2)
    } else if name == "r3"@ {
        Some(Regs::R3)
    } else if name == "r4"@ {
        Some(Regs::R4)
    } else if name == "r5"@ {
        Some(Regs::R5)
    } else if name == "r6"@ {
        Some(Regs::R6)
    } else if name == "r7"@ {
        Some(Regs::R7)
    } else if name == "r8"@ {
        Some(Regs::R8)
    } else {
        None
    }
}

/// The instruction a mnemonic names, by exact lowercase match.
pub open spec fn spec_mnemonic_of(name: Seq<char>) -> Option<ExprKind> {
    if name == "mov"@ {
        Some(ExprKind::Mov)
    } else if name == "add"@ {
        Some(ExprKind::Add)
    } else if name == "sub"@ {
        Some(ExprKind::Sub)
    } else if name == "mul"@ {
        Some(ExprKind::Mul)
    } else if name == "lsf"@ {
        Some(ExprKind::Lsf)
    } else if name == "rsf"@ {
        Some(ExprKind::Rsf)
    } else if name == "and"@ {
        Some(ExprKind::And)
    } else if name == "or"@ {
        Some(ExprKind::Or)
    } else if name == "xor"@ {
        Some(ExprKind::Xor)
    } else if name == "call"@ {
        Some(ExprKind::Call)
    } else if name == "push"@ {
        Some(ExprKind::Push)
    } else if name == "pop"@ {
        Some(ExprKind::Pop)
    } else if name == "not"@ {
        Some(ExprKind::Not)
    } else if name == "inc"@ {
        Some(ExprKind::Inc)
    } else if name == "dec"@ {
        Some(ExprKind::Dec)
    } else if name == "jne"@ {
        Some(ExprKind::JmpNotEQ)
    } else if name == "jeq"@ {
        Some(ExprKind::JmpEQ)
    } else if name == "jlt"@ {
        Some(ExprKind::JmpLT)
    } else if name == "jgt"@ {
        Some(ExprKind::JmpGT)
    } else if name == "ret"@ {
        Some(ExprKind::Ret)
    } else if name == "hlt"@ {
        Some(ExprKind::HLT)
    } else {
        None
    }
}

/// Register-name resolution is stable: each of the nine register names
/// resolves to its fixed register, whose binary encoding is the fixed small
/// integer shown here — the same on every resolution, since resolution is a
/// pure function of the name.
pub proof fn lemma_register_encoding_fixed()
    ensures
        spec_reg_of("acc"@) == Some(Regs::ACC) && crate::common::reg_code(Regs::ACC) == 1,
        spec_reg_of("r1"@) == Some(Regs::R1) && crate::common::reg_code(Regs::R1) == 2,
        spec_reg_of("r2"@) == Some(Regs::R2) && crate::common::reg_code(Regs::R2) == 3,
        spec_reg_of("r3"@) == Some(Regs::R3) && crate::common::reg_code(Regs::R3) == 4,
        spec_reg_of("r4"@) == Some(Regs::R4) && crate::common::reg_code(Regs::R4) == 5,
        spec_reg_of("r5"@) == Some(Regs::R5) && crate::common::reg_code(Regs::R5) == 6,
        spec_reg_of("r6"@) == Some(Regs::R6) && crate::common::reg_code(Regs::R6) == 7,
        spec_reg_of("r7"@) == Some(Regs::R7) && crate::common::reg_code(Regs::R7) == 8,
        spec_reg_of("r8"@) == Some(Regs::R8) && crate::common::reg_code(Regs::R8) == 9,
{
    reveal_strlit("acc");
    reveal_strlit("r1");
    reveal_strlit("r2");
    reveal_strlit("r3");
    reveal_strlit("r4");
    reveal_strlit("r5");
    reveal_strlit("r6");
    reveal_strlit("r7");
    reveal_strlit("r8");
    assert("acc"@.len() == 3);
    assert("r1"@.len() == 2 && "r1"@[1] == '1');
    assert("r2"@.len() == 2 && "r2"@[1] == '2');
    assert("r3"@.len() == 2 && "r3"@[1] == '3');
    assert("r4"@.len() == 2 && "r4"@[1] == '4');
    assert("r5"@.len() == 2 && "r5"@[1] == '5');
    assert("r6"@.len() == 2 && "r6"@[1] == '6');
    assert("r7"@.len() == 2 && "r7"@[1] == '7');
    assert("r8"@.len() == 2 && "r8"@[1] == '8');
}

/// A mnemonic that takes no operands.
pub open spec fn spec_no_args_kind(m: ExprKind) -> bool {
    m == ExprKind::Ret || m == ExprKind::HLT
}

/// A mnemonic that takes exactly one operand token.
pub open spec fn spec_single_kind(m: ExprKind) -> bool {
    m == ExprKind::Call || m == ExprKind::Push || m == ExprKind::Pop || m == ExprKind::Not || m
        == ExprKind::Inc || m == ExprKind::Dec
}

/// A mnemonic that takes two comma-separated operand tokens.
pub open spec fn spec_double_kind(m: ExprKind) -> bool {
    m == ExprKind::Add || m == ExprKind::Sub || m == ExprKind::Mul || m == ExprKind::Lsf || m
        == ExprKind::Rsf || m == ExprKind::And || m == ExprKind::Or || m == ExprKind::Xor || m
        == ExprKind::JmpNotEQ || m == ExprKind::JmpEQ || m == ExprKind::JmpLT || m
        == ExprKind::JmpGT
}

/// The right binding power of a prefix operator: `+` and `-` bind their
/// operand very tightly.
pub open spec fn spec_prefix_bp(k: SpecTokenKind) -> Option<u8> {
    match k {
        SpecTokenKind::Plus => Some(9),
        SpecTokenKind::Minus => Some(9),
        _ => None,
    }
}

/// The left and right binding powers of an infix operator: the ternary `?`
/// binds loosest and right-associates, `+` and `-` bind left-associatively
/// below `*`.
pub open spec fn spec_infix_bp(k: SpecTokenKind) -> Option<(u8, u8)> {
    match k {
        SpecTokenKind::Question => Some((2, 1)),
        SpecTokenKind::Plus => Some((3, 4)),
        SpecTokenKind::Minus => Some((3, 4)),
        SpecTokenKind::Star => Some((5, 6)),
        _ => None,
    }
}

/// Precedence climbing over a bounded token stream, from `pos` with minimum
/// binding power `min_bp`: parse one operand — a prefix operator applied to
/// an operand, a parenthesized expression, or an atom (a literal, memory
/// address or identifier token) — then extend it through [`spec_expr_loop`].
/// The result carries the position just past the parsed expression.
pub open spec fn spec_expr_bp(t: Seq<SpecToken>, pos: int, min_bp: u8) -> Result<
    (SpecS, int),
    SpecParserError,
>
    decreases t.len() - pos, 1int,
{
    if pos < 0 || pos >= t.len() {
        Err(SpecParserError::EmptyExpr)
    } else {
        let k = t[pos].kind;
        match spec_prefix_bp(k) {
            Some(rbp) => match spec_expr_bp(t, pos + 1, rbp) {
                Err(e) => Err(e),
                Ok((rhs, p2)) => if pos < p2 <= t.len() {
                    spec_expr_loop(t, p2, min_bp, SpecS::Cons(k, seq![rhs]))
                } else {
                    Err(SpecParserError::EmptyExpr)
                },
            },
            None => if k is OpenParen {
                match spec_expr_bp(t, pos + 1, 0) {
                    Err(e) => Err(e),
                    Ok((lhs, p2)) => if p2 < t.len() && t[p2].kind is CloseParen {
                        if pos < p2 + 1 <= t.len() {
                            spec_expr_loop(t, p2 + 1, min_bp, lhs)
                        } else {
                            Err(SpecParserError::EmptyExpr)
                        }
                    } else {
                        Err(SpecParserError::ExpectedToken(0))
                    },
                }
            } else if k is Mem || k is Lit || k is Ident {
                spec_expr_loop(t, pos + 1, min_bp, SpecS::Atom(k))
            } else {
                Err(SpecParserError::UnknownExpr(crate::common::spec_token_text(k), 0))
            },
        }
    }
}

/// The climbing loop: with a parsed left operand `lhs` in hand, consume an
/// infix operator whose left binding power reaches `min_bp` and its right
/// operand (for `?`, an unconstrained middle operand up to the mandatory
/// `:` first), fold them into `lhs`, and repeat; stop at anything weaker.
pub open spec fn spec_expr_loop(t: Seq<SpecToken>, pos: int, min_bp: u8, lhs: SpecS) -> Result<
    (SpecS, int),
    SpecParserError,
>
    decreases t.len() - pos, 0int,
{
    if pos < 0 || pos >= t.len() {
        Ok((lhs, pos))
    } else {
        let k = t[pos].kind;
        match spec_infix_bp(k) {
            None => Ok((lhs, pos)),
            Some((lbp, rbp)) => if lbp < min_bp {
                Ok((lhs, pos))
            } else if k is Question {
                match spec_expr_bp(t, pos + 1, 0) {
                    Err(e) => Err(e),
                    Ok((mhs, p2)) => if pos < p2 && p2 < t.len() && t[p2].kind is Colon {
                        match spec_expr_bp(t, p2 + 1, rbp) {
                            Err(e) => Err(e),
                            Ok((rhs, p3)) => if pos < p3 <= t.len() {
                                spec_expr_loop(t, p3, min_bp, SpecS::Cons(k, seq![lhs, mhs, rhs]))
                            } else {
                                Err(SpecParserError::EmptyExpr)
                            },
                        }
                    } else {
                        Err(SpecParserError::ExpectedToken(0))
                    },
                }
            } else {
                match spec_expr_bp(t, pos + 1, rbp) {
                    Err(e) => Err(e),
                    Ok((rhs, p2)) => if pos < p2 <= t.len() {
                        spec_expr_loop(t, p2, min_bp, SpecS::Cons(k, seq![lhs, rhs]))
                    } else {
                        Err(SpecParserError::EmptyExpr)
                    },
                }
            },
        }
    }
}

/// A successful climb always advances: the end position lies past `pos` and
/// within the stream.
pub proof fn lemma_expr_bp_advances(t: Seq<SpecToken>, pos: int, min_bp: u8)
    requires
        0 <= pos,
    ensures
        spec_expr_bp(t, pos, min_bp) matches Ok(r) ==> pos < r.1 <= t.len(),
    decreases t.len() - pos, 1int,
{
    if 0 <= pos < t.len() {
        let k = t[pos].kind;
        match spec_prefix_bp(k) {
            Some(rbp) => {
                lemma_expr_bp_advances(t, pos + 1, rbp);
                if let Ok((rhs, p2)) = spec_expr_bp(t, pos + 1, rbp) {
                    if pos < p2 <= t.len() {
                        lemma_expr_loop_advances(t, p2, min_bp, SpecS::Cons(k, seq![rhs]));
                    }
                }
            },
            None => {
                if k is OpenParen {
                    lemma_expr_bp_advances(t, pos + 1, 0);
                    if let Ok((lhs, p2)) = spec_expr_bp(t, pos + 1, 0) {
                        if p2 < t.len() && t[p2].kind is CloseParen {
                            if pos < p2 + 1 <= t.len() {
                                lemma_expr_loop_advances(t, p2 + 1, min_bp, lhs);
                            }
                        }
                    }
                } else if k is Mem || k is Lit || k is Ident {
                    lemma_expr_loop_advances(t, pos + 1, min_bp, SpecS::Atom(k));
                }
            },
        }
    }
}

/// The climbing loop never moves backwards and stays within the stream.
pub proof fn lemma_expr_loop_advances(t: Seq<SpecToken>, pos: int, min_bp: u8, lhs: SpecS)
    requires
        0 <= pos <= t.len(),
    ensures
        spec_expr_loop(t, pos, min_bp, lhs) matches Ok(r) ==> pos <= r.1 <= t.len(),
    decreases t.len() - pos, 0int,
{
    if pos < t.len() {
        let k = t[pos].kind;
        match spec_infix_bp(k) {
            None => {},
            Some((lbp, rbp)) => {
                if lbp < min_bp {
                } else if k is Question {
                    lemma_expr_bp_advances(t, pos + 1, 0);
                    if let Ok((mhs, p2)) = spec_expr_bp(t, pos + 1, 0) {
                        if pos < p2 && p2 < t.len() && t[p2].kind is Colon {
                            lemma_expr_bp_advances(t, p2 + 1, rbp);
                            if let Ok((rhs, p3)) = spec_expr_bp(t, p2 + 1, rbp) {
                                if pos < p3 <= t.len() {
                                    lemma_expr_loop_advances(
                                        t,
                                        p3,
                                        min_bp,
                                        SpecS::Cons(k, seq![lhs, mhs, rhs]),
                                    );
                                }
                            }
                        }
                    }
                } else {
                    lemma_expr_bp_advances(t, pos + 1, rbp);
                    if let Ok((rhs, p2)) = spec_expr_bp(t, pos + 1, rbp) {
                        if pos < p2 <= t.len() {
                            lemma_expr_loop_advances(t, p2, min_bp, SpecS::Cons(k, seq![lhs, rhs]));
                        }
                    }
                }
            },
        }
    }
}

/// The index of the first `CloseBracket` token at or after `from`, if any.
pub open spec fn spec_find_close(t: Seq<SpecToken>, from: int) -> Option<int>
    decreases t.len() - from,
{
    if from >= t.len() {
        None
    } else if t[from].kind is CloseBracket {
        Some(from)
    } else {
        spec_find_close(t, from + 1)
    }
}

/// A found closing bracket lies within the stream, at or past `from`, and is
/// the first one there.
pub proof fn lemma_find_close(t: Seq<SpecToken>, from: int)
    requires
        0 <= from,
    ensures
        spec_find_close(t, from) matches Some(c) ==> {
            &&& from <= c < t.len()
            &&& t[c].kind is CloseBracket
            &&& forall|j: int| from <= j < c ==> !((#[trigger] t[j]).kind is CloseBracket)
        },
        spec_find_close(t, from) is None ==> forall|j: int|
            from <= j < t.len() ==> !((#[trigger] t[j]).kind is CloseBracket),
    decreases t.len() - from,
{
    if from < t.len() && !(t[from].kind is CloseBracket) {
        lemma_find_close(t, from + 1);
    }
}

/// How many newline tokens lie in `t[from..to]`.
pub open spec fn spec_count_newlines(t: Seq<SpecToken>, from: int, to: int) -> nat
    decreases to - from,
{
    if from >= to {
        0
    } else {
        (if t[from].kind is NewLine {
            1nat
        } else {
            0nat
        }) + spec_count_newlines(t, from + 1, to)
    }
}

/// The line counter after `n` more lines; it saturates rather than wrap.
pub open spec fn spec_line_add(line: u32, n: nat) -> u32 {
    if line + n > u32::MAX {
        u32::MAX
    } else {
        (line + n) as u32
    }
}

/// The line counter after one more line; it saturates rather than wrap.
pub open spec fn spec_line_inc(line: u32) -> u32 {
    if line == u32::MAX {
        line
    } else {
        (line + 1) as u32
    }
}

/// One step of the instruction driver.
pub ghost enum SpecStep {
    /// The stream is exhausted.
    Done,
    /// A newline was skipped; the line counter advanced.
    Skip { next: int, line: u32 },
    /// One instruction node was produced, the stream continuing at `next`.
    Emit { e: SpecExpr, next: int, line: u32 },
    /// The step failed.
    Fail(SpecParserError),
}

/// The operands of a two-operand mnemonic: the tokens at `i+1` and `i+3`
/// with a comma between them; a missing operand or comma is a failure.
pub open spec fn spec_double_step(t: Seq<SpecToken>, i: int, line: u32, m: ExprKind) -> SpecStep {
    if i + 1 >= t.len() {
        SpecStep::Fail(SpecParserError::ExpectedToken(line))
    } else if i + 2 >= t.len() || !(t[i + 2].kind is Comma) {
        SpecStep::Fail(SpecParserError::ExpectedToken(line))
    } else if i + 3 >= t.len() {
        SpecStep::Fail(SpecParserError::ExpectedToken(line))
    } else {
        SpecStep::Emit {
            e: SpecExpr { kind: m, args: SpecExprArgs::Double(t[i + 1].kind, t[i + 3].kind) },
            next: i + 4,
            line,
        }
    }
}

/// The operands of a `mov` at `i`: a bracketed addressing expression with one
/// trailing operand, or two or three plain comma-separated operands. The
/// bracketed sub-stream runs to the first closing bracket (newlines dropped,
/// though counted for diagnostics); the sub-parser's failures pass through.
pub open spec fn spec_mov_step(t: Seq<SpecToken>, i: int, line: u32) -> SpecStep {
    if i + 1 >= t.len() {
        SpecStep::Fail(SpecParserError::ExpectedToken(line))
    } else if t[i + 1].kind is OpenBracket {
        match spec_find_close(t, i + 2) {
            Some(c) => {
                let sub = crate::lexer::spec_filter_expr_tokens(t.subrange(i + 2, c));
                let line2 = spec_line_add(line, spec_count_newlines(t, i + 2, c));
                match spec_expr_bp(sub, 0, 0) {
                    Err(e) => SpecStep::Fail(e),
                    Ok((tree, _)) => if c + 1 < t.len() && t[c + 1].kind is Comma {
                        if c + 2 < t.len() {
                            SpecStep::Emit {
                                e: SpecExpr {
                                    kind: ExprKind::Mov,
                                    args: SpecExprArgs::Complex(tree, t[c + 2].kind),
                                },
                                next: c + 3,
                                line: line2,
                            }
                        } else {
                            SpecStep::Fail(SpecParserError::ExpectedToken(line2))
                        }
                    } else {
                        SpecStep::Fail(SpecParserError::ExpectedToken(line2))
                    },
                }
            },
            None => {
                let sub = crate::lexer::spec_filter_expr_tokens(
                    t.subrange(i + 2, t.len() as int),
                );
                let line2 = spec_line_add(line, spec_count_newlines(t, i + 2, t.len() as int));
                match spec_expr_bp(sub, 0, 0) {
                    Err(e) => SpecStep::Fail(e),
                    Ok(_) => SpecStep::Fail(SpecParserError::ExpectedToken(line2)),
                }
            },
        }
    } else {
        if i + 2 >= t.len() || !(t[i + 2].kind is Comma) {
            SpecStep::Fail(SpecParserError::ExpectedToken(line))
        } else if i + 3 >= t.len() {
            SpecStep::Fail(SpecParserError::ExpectedToken(line))
        } else if i + 4 < t.len() && t[i + 4].kind is Comma {
            if i + 5 < t.len() {
                SpecStep::Emit {
                    e: SpecExpr {
                        kind: ExprKind::Mov,
                        args: SpecExprArgs::Triple(
                            t[i + 1].kind,
                            t[i + 3].kind,
                            t[i + 5].kind,
                        ),
                    },
                    next: i + 6,
                    line,
                }
            } else {
                SpecStep::Fail(SpecParserError::ExpectedToken(line))
            }
        } else {
            SpecStep::Emit {
                e: SpecExpr {
                    kind: ExprKind::Mov,
                    args: SpecExprArgs::Double(t[i + 1].kind, t[i + 3].kind),
                },
                next: i + 4,
                line,
            }
        }
    }
}

/// What an identifier leads to at `i`: a label when a colon follows;
/// otherwise the identifier is a mnemonic and its operand strategy runs —
/// no operands, one operand token, two comma-separated operands, or the
/// three-way `mov` strategy. An identifier that names no mnemonic fails.
pub open spec fn spec_ident_step(t: Seq<SpecToken>, i: int, line: u32, name: Seq<char>) -> SpecStep {
    if i + 1 < t.len() && t[i + 1].kind is Colon {
        SpecStep::Emit {
            e: SpecExpr { kind: ExprKind::Label, args: SpecExprArgs::Single(t[i].kind) },
            next: i + 2,
            line,
        }
    } else {
        match spec_mnemonic_of(name) {
            None => SpecStep::Fail(SpecParserError::UnknownMnemonic(name, line)),
            Some(m) => if spec_no_args_kind(m) {
                SpecStep::Emit {
                    e: SpecExpr { kind: m, args: SpecExprArgs::NoArgs },
                    next: i + 1,
                    line,
                }
            } else if spec_single_kind(m) {
                if i + 1 < t.len() {
                    SpecStep::Emit {
                        e: SpecExpr { kind: m, args: SpecExprArgs::Single(t[i + 1].kind) },
                        next: i + 2,
                        line,
                    }
                } else {
                    SpecStep::Fail(SpecParserError::ExpectedToken(line))
                }
            } else if spec_double_kind(m) {
                spec_double_step(t, i, line, m)
            } else {
                spec_mov_step(t, i, line)
            },
        }
    }
}

/// The diagnostic context for a malformed line: the display text of each
/// token from `i` up to the first newline token (or the end of the stream),
/// each followed by one space.
pub open spec fn spec_error_context(t: Seq<SpecToken>, i: int) -> Seq<char>
    decreases t.len() - i,
{
    if i < 0 || i >= t.len() || t[i].kind is NewLine {
        Seq::empty()
    } else {
        crate::common::spec_token_text(t[i].kind) + seq![' '] + spec_error_context(t, i + 1)
    }
}

/// One step of the instruction driver at `i`: done at the end of the stream;
/// a newline advances the line counter; an identifier opens a label or an
/// instruction; any other leading token is an `UnknownExpr` failure whose
/// message holds the token and the rest of its line.
pub open spec fn spec_step(t: Seq<SpecToken>, i: int, line: u32) -> SpecStep {
    if i >= t.len() {
        SpecStep::Done
    } else {
        match t[i].kind {
            SpecTokenKind::NewLine => SpecStep::Skip { next: i + 1, line: spec_line_inc(line) },
            SpecTokenKind::Ident(name) => spec_ident_step(t, i, line, name),
            _ => SpecStep::Fail(SpecParserError::UnknownExpr(spec_error_context(t, i), line)),
        }
    }
}

/// Every emitting or skipping step advances and stays within the stream.
pub proof fn lemma_step_advances(t: Seq<SpecToken>, i: int, line: u32)
    requires
        0 <= i,
    ensures
        spec_step(t, i, line) matches SpecStep::Skip { next, .. } ==> i < next <= t.len(),
        spec_step(t, i, line) matches SpecStep::Emit { next, .. } ==> i < next <= t.len(),
{
    if i < t.len() {
        if t[i].kind matches SpecTokenKind::Ident(name) {
            lemma_find_close(t, i + 2);
        }
    }
}

/// The instruction sequence of the stream from `i`: the driver's steps run
/// to exhaustion, or to the first failure.
pub open spec fn spec_parse_instrs(t: Seq<SpecToken>, i: int, line: u32) -> Result<
    Seq<SpecExpr>,
    SpecParserError,
>
    decreases t.len() - i,
{
    match spec_step(t, i, line) {
        SpecStep::Done => Ok(Seq::empty()),
        SpecStep::Fail(e) => Err(e),
        SpecStep::Skip { next, line: l2 } => {
            if i < next <= t.len() {
                spec_parse_instrs(t, next, l2)
            } else {
                Ok(Seq::empty())
            }
        },
        SpecStep::Emit { e, next, line: l2 } => {
            if i < next <= t.len() {
                match spec_parse_instrs(t, next, l2) {
                    Err(e2) => Err(e2),
                    Ok(rest) => Ok(seq![e] + rest),
                }
            } else {
                Ok(seq![e])
            }
        },
    }
}

/// The instruction sequence of a whole source text: its tokens, whitespace
/// dropped, driven from the start at line zero; a lexing failure surfaces as
/// a `Lexer` error.
pub open spec fn spec_parse_program(s: Seq<char>) -> Result<Seq<SpecExpr>, SpecParserError> {
    match crate::lexer::spec_tokens(s) {
        Err(c) => Err(SpecParserError::Lexer(LexerError::UnsupportedChar(c))),
        Ok(ts) => spec_parse_instrs(crate::lexer::spec_filter_parse_tokens(ts), 0, 0),
    }
}

/// Counting newlines extends one token at a time at the right end.
proof fn lemma_count_newlines_snoc(t: Seq<SpecToken>, a: int, b: int)
    requires
        a <= b,
    ensures
        spec_count_newlines(t, a, b + 1) == spec_count_newlines(t, a, b) + (if t[b].kind
            is NewLine {
            1nat
        } else {
            0nat
        }),
    decreases b - a,
{
    if a < b {
        lemma_count_newlines_snoc(t, a + 1, b);
        assert(spec_count_newlines(t, a, b + 1) == (if t[a].kind is NewLine {
            1nat
        } else {
            0nat
        }) + spec_count_newlines(t, a + 1, b + 1));
        assert(spec_count_newlines(t, a, b) == (if t[a].kind is NewLine {
            1nat
        } else {
            0nat
        }) + spec_count_newlines(t, a + 1, b));
    } else {
        assert(spec_count_newlines(t, a, b) == 0);
        assert(spec_count_newlines(t, b + 1, b + 1) == 0);
        assert(spec_count_newlines(t, b, b + 1) == (if t[b].kind is NewLine {
            1nat
        } else {
            0nat
        }) + spec_count_newlines(t, b + 1, b + 1));
    }
}

/// Whether a token is the newline token.
fn is_newline_token(k: &TokenEnum) -> (r: bool)
    ensures
        r == (k@ is NewLine),
{
    matches!(k, TokenEnum::NewLine)
}

/// Comparison of a character vector with a string, character for character.
fn chars_eq_str(v: &Vec<char>, s: &str) -> (r: bool)
    ensures
        r == (v@ == s@),
{
    let w = crate::chars::to_char_vec(s);
    if v.len() != w.len() {
        proof {
            assert(v@.len() != w@.len());
        }
        return false;
    }
    let mut i: usize = 0;
    while i < v.len()
        invariant
            i <= v@.len(),
            v@.len() == w@.len(),
            w@ == s@,
            forall|j: int| 0 <= j < i ==> v@[j] == w@[j],
        decreases v@.len() - i,
    {
        if v[i] != w[i] {
            return false;
        }
        i = i + 1;
    }
    proof {
        assert(v@ =~= w@);
    }
    true
}

/// Parsing is idempotent: what a source text parses to is a function of the
/// text alone, so parsing the same instruction text twice yields structurally
/// equal instruction-node sequences (and equal structured failures). This is
/// the determinism that [`InstructionParser::parse`]'s contract pins down:
/// its result always equals [`spec_parse_program`] of the input.
pub proof fn lemma_parse_idempotent(
    s: Seq<char>,
    r1: Result<Seq<SpecExpr>, SpecParserError>,
    r2: Result<Seq<SpecExpr>, SpecParserError>,
)
    requires
        r1 == spec_parse_program(s),
        r2 == spec_parse_program(s),
    ensures
        r1 == r2,
{
}

/// The instruction parser. It carries the current source line, counted from
/// zero, for diagnostics only.
#[derive(Debug)]
pub struct InstructionParser {
    pub line: u32,
}

/// Groups the helpers that resolve operand tokens semantically.
#[derive(Debug)]
pub struct ParserHelper;

impl ParserHelper {
    /// Resolves a register name: `acc` and `r1` through `r8` name the nine
    /// registers; any other text fails with `FailedToParseReg` carrying it.
    pub fn parse_reg(token: &str) -> (r: Result<Regs, ParserError>)
        ensures
            (match spec_reg_of(token@) {
                Some(reg) => r == Ok::<Regs, ParserError>(reg),
                None => r matches Err(e) && e@ == SpecParserError::FailedToParseReg(token@),
            }),
    {
        let v = crate::chars::to_char_vec(token);
        proof {
            reveal_strlit("acc");
            reveal_strlit("r1");
            reveal_strlit("r2");
            reveal_strlit("r3");
            reveal_strlit("r4");
            reveal_strlit("r5");
            reveal_strlit("r6");
            reveal_strlit("r7");
            reveal_strlit("r8");
        }
        if v.len() == 3 && v[0] == 'a' && v[1] == 'c' && v[2] == 'c' {
            proof {
                assert(token@ =~= "acc"@);
            }
            Ok(Regs::ACC)
        } else if v.len() == 2 && v[0] == 'r' && v[1] == '1' {
            proof {
                assert(token@ =~= "r1"@);
            }
            Ok(Regs::R1)
        } else if v.len() == 2 && v[0] == 'r' && v[1] == '2' {
            proof {
                assert(token@ =~= "r2"@);
            }
            Ok(Regs::R2)
        } else if v.len() == 2 && v[0] == 'r' && v[1] == '3' {
            proof {
                assert(token@ =~= "r3"@);
            }
            Ok(Regs::R3)
        } else if v.len() == 2 && v[0] == 'r' && v[1] == '4' {
            proof {
                assert(token@ =~= "r4"@);
            }
            Ok(Regs::R4)
        } else if v.len() == 2 && v[0] == 'r' && v[1] == '5' {
            proof {
                assert(token@ =~= "r5"@);
            }
            Ok(Regs::R5)
        } else if v.len() == 2 && v[0] == 'r' && v[1] == '6' {
            proof {
                assert(token@ =~= "r6"@);
            }
            Ok(Regs::R6)
        } else if v.len() == 2 && v[0] == 'r' && v[1] == '7' {
            proof {
                assert(token@ =~= "r7"@);
            }
            Ok(Regs::R7)
        } else if v.len() == 2 && v[0] == 'r' && v[1] == '8' {
            proof {
                assert(token@ =~= "r8"@);
            }
            Ok(Regs::R8)
        } else {
            proof {
                assert(spec_reg_of(token@) is None);
            }
            Err(ParserError::FailedToParseReg(token.to_owned()))
        }
    }
}

/// The right binding power of a prefix operator; see [`spec_prefix_bp`].
fn prefix_binding_power(op: &TokenEnum) -> (r: Option<((), u8)>)
    ensures
        (match spec_prefix_bp(op@) {
            Some(bp) => r == Some(((), bp)),
            None => r is None,
        }),
{
    match op {
        TokenEnum::Plus => Some(((), 9)),
        TokenEnum::Minus => Some(((), 9)),
        _ => None,
    }
}

/// The binding powers of an infix operator; see [`spec_infix_bp`].
fn infix_binding_power(op: &TokenEnum) -> (r: Option<(u8, u8)>)
    ensures
        r == spec_infix_bp(op@),
{
    match op {
        TokenEnum::Question => Some((2, 1)),
        TokenEnum::Plus => Some((3, 4)),
        TokenEnum::Minus => Some((3, 4)),
        TokenEnum::Star => Some((5, 6)),
        _ => None,
    }
}

impl InstructionParser {
    pub fn new() -> (p: Self)
        ensures
            p.line == 0,
    {
        Self { line: 0 }
    }

    /// The precedence-climbing expression sub-parser, over the bounded token
    /// stream of a bracketed addressing expression; see [`spec_expr_bp`].
    /// Returns the parsed tree and the position just past it.
    #[verifier::loop_isolation(false)]
    pub fn expr_bp(toks: &Vec<Token>, pos: usize, min_bp: u8) -> (r: Result<
        (S, usize),
        ParserError,
    >)
        requires
            pos <= toks@.len(),
        ensures
            (match spec_expr_bp(toks.deep_view(), pos as int, min_bp) {
                Ok((ss, p)) => r matches Ok(res) && res.0@ == ss && res.1 == p,
                Err(e) => r matches Err(err) && err@ == e,
            }),
        decreases toks@.len() - pos,
    {
        let ghost t = toks.deep_view();
        proof {
            lemma_expr_bp_advances(t, pos as int, min_bp);
        }
        if pos >= toks.len() {
            return Err(ParserError::EmptyExpr);
        }
        let first = &toks[pos];
        let mut cur: usize;
        let mut lhs: S;
        if prefix_binding_power(&first.kind).is_some() {
            let op = clone_token(&first.kind);
            proof {
                lemma_expr_bp_advances(t, pos as int + 1, 9);
            }
            match Self::expr_bp(toks, pos + 1, 9) {
                Err(e) => {
                    return Err(e);
                },
                Ok((rhs, p2)) => {
                    let ghost rhs_view = rhs@;
                    let mut cs: Vec<S> = Vec::new();
                    cs.push(rhs);
                    lhs = S::Cons(op, cs);
                    cur = p2;
                    proof {
                        crate::ast::lemma_s_children(lhs->Cons_1@);
                        assert(crate::ast::spec_s_children(lhs->Cons_1@) =~= seq![rhs_view]);
                        assert(lhs@ == SpecS::Cons(t[pos as int].kind, seq![rhs_view]));
                    }
                },
            }
        } else {
            match &first.kind {
                TokenEnum::OpenParen => {
                    proof {
                        lemma_expr_bp_advances(t, pos as int + 1, 0);
                    }
                    match Self::expr_bp(toks, pos + 1, 0) {
                        Err(e) => {
                            return Err(e);
                        },
                        Ok((inner, p2)) => {
                            if p2 < toks.len() && matches!(toks[p2].kind, TokenEnum::CloseParen) {
                                lhs = inner;
                                cur = p2 + 1;
                            } else {
                                return Err(
                                    ParserError::ExpectedToken(")".to_owned(), 0),
                                );
                            }
                        },
                    }
                },
                TokenEnum::Mem(_) | TokenEnum::Lit(_) | TokenEnum::Ident(_) => {
                    lhs = S::Atom(clone_token(&first.kind));
                    cur = pos + 1;
                },
                _ => {
                    let text = crate::chars::chars_to_string(
                        &crate::common::token_text(&first.kind),
                    );
                    return Err(ParserError::UnknownExpr(text, 0));
                },
            }
        }
        loop
            invariant
                pos < cur <= toks@.len(),
                spec_expr_bp(t, pos as int, min_bp) == spec_expr_loop(
                    t,
                    cur as int,
                    min_bp,
                    lhs@,
                ),
            decreases toks@.len() - cur,
        {
            proof {
                lemma_expr_loop_advances(t, cur as int, min_bp, lhs@);
            }
            if cur >= toks.len() {
                break ;
            }
            let bp = infix_binding_power(&toks[cur].kind);
            match bp {
                None => {
                    break ;
                },
                Some((lbp, rbp)) => {
                    if lbp < min_bp {
                        break ;
                    }
                    let op = clone_token(&toks[cur].kind);
                    if matches!(op, TokenEnum::Question) {
                        proof {
                            lemma_expr_bp_advances(t, cur as int + 1, 0);
                        }
                        let (mhs, p2) = match Self::expr_bp(toks, cur + 1, 0) {
                            Err(e) => {
                                return Err(e);
                            },
                            Ok(x) => x,
                        };
                        if !(p2 < toks.len() && matches!(toks[p2].kind, TokenEnum::Colon)) {
                            return Err(ParserError::ExpectedToken(":".to_owned(), 0));
                        }
                        proof {
                            lemma_expr_bp_advances(t, p2 as int + 1, rbp);
                        }
                        let (rhs, p3) = match Self::expr_bp(toks, p2 + 1, rbp) {
                            Err(e) => {
                                return Err(e);
                            },
                            Ok(x) => x,
                        };
                        let ghost lhs_view = lhs@;
                        let ghost mhs_view = mhs@;
                        let ghost rhs_view = rhs@;
                        let mut cs: Vec<S> = Vec::new();
                        cs.push(lhs);
                        cs.push(mhs);
                        cs.push(rhs);
                        lhs = S::Cons(op, cs);
                        cur = p3;
                        proof {
                            crate::ast::lemma_s_children(lhs->Cons_1@);
                            assert(crate::ast::spec_s_children(lhs->Cons_1@) =~= seq![
                                lhs_view,
                                mhs_view,
                                rhs_view,
                            ]);
                        }
                    } else {
                        proof {
                            lemma_expr_bp_advances(t, cur as int + 1, rbp);
                        }
                        let (rhs, p2) = match Self::expr_bp(toks, cur + 1, rbp) {
                            Err(e) => {
                                return Err(e);
                            },
                            Ok(x) => x,
                        };
                        let ghost lhs_view = lhs@;
                        let ghost rhs_view = rhs@;
                        let mut cs: Vec<S> = Vec::new();
                        cs.push(lhs);
                        cs.push(rhs);
                        lhs = S::Cons(op, cs);
                        cur = p2;
                        proof {
                            crate::ast::lemma_s_children(lhs->Cons_1@);
                            assert(crate::ast::spec_s_children(lhs->Cons_1@) =~= seq![
                                lhs_view,
                                rhs_view,
                            ]);
                        }
                    }
                },
            }
        }
        Ok((lhs, cur))
    }

    /// Parses a whole program into its ordered instruction-node sequence;
    /// see [`spec_parse_program`]. The result is a function of the input
    /// text alone, so re-parsing the same text yields a structurally equal
    /// sequence. Whitespace tokens are dropped before driving; newlines
    /// advance the diagnostic line counter and separate instructions.
    #[verifier::loop_isolation(false)]
    pub fn parse(&mut self, input: &str) -> (r: Result<Vec<Expr>, ParserError>)
        requires
            input@.len() <= u32::MAX as nat,
        ensures
            (match spec_parse_program(input@) {
                Ok(es) => r matches Ok(v) && v.deep_view() == es,
                Err(e) => r matches Err(err) && err@ == e,
            }),
    {
        let mut raw = match crate::lexer::tokenize_old(input) {
            Err(e) => {
                return Err(ParserError::Lexer(e));
            },
            Ok(ts) => ts,
        };
        let ghost ts = crate::lexer::spec_tokens(input@)->Ok_0;
        let mut toks: Vec<Token> = Vec::new();
        let ghost n = ts.len();
        let ghost mut idx: int = 0;
        proof {
            assert(raw.deep_view() =~= ts.subrange(0, n as int));
            assert(toks.deep_view() =~= crate::lexer::spec_filter_parse_tokens(ts.take(0)));
        }
        loop
            invariant
                n == ts.len(),
                0 <= idx <= n,
                idx + raw@.len() == n,
                raw.deep_view() == ts.subrange(idx, n as int),
                toks.deep_view() == crate::lexer::spec_filter_parse_tokens(ts.take(idx)),
            decreases raw@.len(),
        {
            if raw.len() == 0 {
                break ;
            }
            let ghost pre = raw@;
            let tk = raw.remove(0);
            proof {
                assert(ts.subrange(idx, n as int)[0] == ts[idx]);
                assert(tk@ == ts[idx]);
            }
            let keep = !matches!(tk.kind, TokenEnum::Whitespace);
            let ghost prev = toks.deep_view();
            if keep {
                toks.push(tk);
                proof {
                    assert(toks.deep_view() =~= prev.push(ts[idx]));
                }
            }
            proof {
                idx = idx + 1;
                assert(ts.take(idx).drop_last() =~= ts.take(idx - 1));
                assert(ts.take(idx).last() == ts[idx - 1]);
                assert(raw@ =~= pre.subrange(1, pre.len() as int));
                assert forall|x: int| 0 <= x < raw@.len() implies #[trigger] raw.deep_view()[x]
                    == ts[idx + x] by {
                    assert(raw@[x] == pre[x + 1]);
                    assert(ts.subrange(idx - 1, n as int)[x + 1] == ts[idx + x]);
                }
                assert(raw.deep_view() =~= ts.subrange(idx, n as int));
            }
        }
        proof {
            assert(ts.take(n as int) =~= ts);
        }
        self.line = 0;
        let ghost t = toks.deep_view();
        let mut exprs: Vec<Expr> = Vec::new();
        let mut i: usize = 0;
        proof {
            assert(exprs.deep_view() =~= Seq::<SpecExpr>::empty());
        }
        loop
            invariant
                i <= t.len(),
                t == toks.deep_view(),
                (match spec_parse_instrs(t, i as int, self.line) {
                    Ok(rest) => spec_parse_instrs(t, 0, 0) matches Ok(all) && all
                        == exprs.deep_view() + rest,
                    Err(e) => spec_parse_instrs(t, 0, 0) == Err::<
                        Seq<SpecExpr>,
                        SpecParserError,
                    >(e),
                }),
            decreases t.len() - i,
        {
            proof {
                lemma_step_advances(t, i as int, self.line);
            }
            if i >= toks.len() {
                proof {
                    assert(exprs.deep_view() + Seq::<SpecExpr>::empty() =~= exprs.deep_view());
                }
                break ;
            }
            if matches!(toks[i].kind, TokenEnum::NewLine) {
                self.line = if self.line < u32::MAX {
                    self.line + 1
                } else {
                    self.line
                };
                i = i + 1;
            } else if matches!(toks[i].kind, TokenEnum::Ident(_)) {
                let ghost pre = exprs.deep_view();
                match self.parse_ident(&toks, i) {
                    Err(e) => {
                        return Err(e);
                    },
                    Ok((e, ni)) => {
                        let ghost ev = e@;
                        exprs.push(e);
                        i = ni;
                        proof {
                            assert(exprs.deep_view() =~= pre.push(ev));
                            let rest2 = spec_parse_instrs(t, i as int, self.line);
                            if rest2 is Ok {
                                assert((pre + (seq![ev] + rest2->Ok_0)) =~= (pre.push(ev)
                                    + rest2->Ok_0));
                            }
                        }
                    },
                }
            } else {
                return Err(self.collect_error_on_line(&toks, i));
            }
        }
        Ok(exprs)
    }

    /// Builds the diagnostic for a line that begins with a token no
    /// instruction can start with: the message joins the display text of the
    /// offending token and the rest of its line, one space after each; see
    /// [`spec_error_context`].
    #[verifier::loop_isolation(false)]
    pub fn collect_error_on_line(&self, toks: &Vec<Token>, i: usize) -> (r: ParserError)
        ensures
            r@ == SpecParserError::UnknownExpr(
                spec_error_context(toks.deep_view(), i as int),
                self.line,
            ),
    {
        let ghost t = toks.deep_view();
        let mut text: Vec<char> = Vec::new();
        let mut j = i;
        proof {
            assert(text@ + spec_error_context(t, j as int) =~= spec_error_context(t, i as int));
        }
        while j < toks.len() && !is_newline_token(&toks[j].kind)
            invariant
                i <= j,
                spec_error_context(t, i as int) == text@ + spec_error_context(t, j as int),
            decreases toks@.len() - j,
        {
            let mut piece = crate::common::token_text(&toks[j].kind);
            let ghost pre = text@;
            text.append(&mut piece);
            text.push(' ');
            j = j + 1;
            proof {
                assert(spec_error_context(t, j - 1) == crate::common::spec_token_text(
                    t[j - 1].kind,
                ) + seq![' '] + spec_error_context(t, j as int));
                assert(text@ =~= pre + crate::common::spec_token_text(t[j - 1].kind) + seq![' ']);
                assert(pre + (crate::common::spec_token_text(t[j - 1].kind) + seq![' ']
                    + spec_error_context(t, j as int)) =~= (pre + crate::common::spec_token_text(
                    t[j - 1].kind,
                ) + seq![' ']) + spec_error_context(t, j as int));
            }
        }
        proof {
            assert(spec_error_context(t, j as int) =~= Seq::<char>::empty());
            assert(text@ =~= spec_error_context(t, i as int));
        }
        ParserError::UnknownExpr(crate::chars::chars_to_string(&text), self.line)
    }

    /// Recognizes a label: an identifier immediately followed by a colon
    /// yields a `Label` node carrying the identifier token.
    pub fn try_label(&self, toks: &Vec<Token>, i: usize) -> (r: Option<Expr>)
        requires
            i < toks@.len(),
        ensures
            ({
                let t = toks.deep_view();
                if i + 1 < t.len() && t[i as int + 1].kind is Colon {
                    r matches Some(e) && e@ == (SpecExpr {
                        kind: ExprKind::Label,
                        args: SpecExprArgs::Single(t[i as int].kind),
                    })
                } else {
                    r is None
                }
            }),
    {
        let n = toks.len();
        if i + 1 < n && matches!(toks[i + 1].kind, TokenEnum::Colon) {
            Some(Expr::new(ExprKind::Label, ExprArgs::Single(clone_token(&toks[i].kind))))
        } else {
            None
        }
    }

    /// Parses the instruction or label that the identifier at `i` opens; see
    /// [`spec_ident_step`]. Returns the node and the position just past it.
    /// Newlines inside a bracketed `mov` operand advance the line counter.
    pub fn parse_ident(&mut self, toks: &Vec<Token>, i: usize) -> (r: Result<
        (Expr, usize),
        ParserError,
    >)
        requires
            i < toks@.len(),
            toks.deep_view()[i as int].kind is Ident,
        ensures
            (match spec_step(toks.deep_view(), i as int, old(self).line) {
                SpecStep::Emit { e, next, line } => r matches Ok(p) && p.0@ == e && p.1 == next
                    && final(self).line == line,
                SpecStep::Fail(er) => r matches Err(x) && x@ == er,
                _ => false,
            }),
    {
        let n = toks.len();
        let ghost t = toks.deep_view();
        if let Some(e) = self.try_label(toks, i) {
            return Ok((e, i + 2));
        }
        let name: &String = match &toks[i].kind {
            TokenEnum::Ident(s) => s,
            _ => vstd::pervasive::unreached(),
        };
        let ghost nm = t[i as int].kind->Ident_0;
        let nv = crate::chars::to_char_vec(name.as_str());
        proof {
            assert(nv@ == nm);
        }
        if chars_eq_str(&nv, "mov") {
            self.parse_mov(toks, i)
        } else if chars_eq_str(&nv, "add") {
            self.parse_double_args(toks, i, ExprKind::Add)
        } else if chars_eq_str(&nv, "sub") {
            self.parse_double_args(toks, i, ExprKind::Sub)
        } else if chars_eq_str(&nv, "mul") {
            self.parse_double_args(toks, i, ExprKind::Mul)
        } else if chars_eq_str(&nv, "lsf") {
            self.parse_double_args(toks, i, ExprKind::Lsf)
        } else if chars_eq_str(&nv, "rsf") {
            self.parse_double_args(toks, i, ExprKind::Rsf)
        } else if chars_eq_str(&nv, "and") {
            self.parse_double_args(toks, i, ExprKind::And)
        } else if chars_eq_str(&nv, "or") {
            self.parse_double_args(toks, i, ExprKind::Or)
        } else if chars_eq_str(&nv, "xor") {
            self.parse_double_args(toks, i, ExprKind::Xor)
        } else if chars_eq_str(&nv, "call") {
            self.parse_single_args(toks, i, ExprKind::Call)
        } else if chars_eq_str(&nv, "push") {
            self.parse_single_args(toks, i, ExprKind::Push)
        } else if chars_eq_str(&nv, "pop") {
            self.parse_single_args(toks, i, ExprKind::Pop)
        } else if chars_eq_str(&nv, "not") {
            self.parse_single_args(toks, i, ExprKind::Not)
        } else if chars_eq_str(&nv, "inc") {
            self.parse_single_args(toks, i, ExprKind::Inc)
        } else if chars_eq_str(&nv, "dec") {
            self.parse_single_args(toks, i, ExprKind::Dec)
        } else if chars_eq_str(&nv, "jne") {
            self.parse_double_args(toks, i, ExprKind::JmpNotEQ)
        } else if chars_eq_str(&nv, "jeq") {
            self.parse_double_args(toks, i, ExprKind::JmpEQ)
        } else if chars_eq_str(&nv, "jlt") {
            self.parse_double_args(toks, i, ExprKind::JmpLT)
        } else if chars_eq_str(&nv, "jgt") {
            self.parse_double_args(toks, i, ExprKind::JmpGT)
        } else if chars_eq_str(&nv, "ret") {
            Ok((Expr::new(ExprKind::Ret, ExprArgs::NoArgs), i + 1))
        } else if chars_eq_str(&nv, "hlt") {
            Ok((Expr::new(ExprKind::HLT, ExprArgs::NoArgs), i + 1))
        } else {
            proof {
                assert(spec_mnemonic_of(nm) is None);
            }
            Err(ParserError::UnknownMnemonic(name.clone(), self.line))
        }
    }

    /// Consumes the one operand token of a single-operand mnemonic.
    pub fn parse_single_args(&self, toks: &Vec<Token>, i: usize, kind: ExprKind) -> (r: Result<
        (Expr, usize),
        ParserError,
    >)
        requires
            i < toks@.len(),
        ensures
            ({
                let t = toks.deep_view();
                if i + 1 < t.len() {
                    r matches Ok(p) && p.0@ == (SpecExpr {
                        kind,
                        args: SpecExprArgs::Single(t[i as int + 1].kind),
                    }) && p.1 == i + 2
                } else {
                    r matches Err(e) && e@ == SpecParserError::ExpectedToken(self.line)
                }
            }),
    {
        let n = toks.len();
        if i + 1 >= n {
            return Err(ParserError::ExpectedToken("operand".to_owned(), self.line));
        }
        let lhs = clone_token(&toks[i + 1].kind);
        Ok((Expr::new(kind, ExprArgs::Single(lhs)), i + 2))
    }

    /// Consumes the two comma-separated operand tokens of a two-operand
    /// mnemonic; a missing operand or comma fails.
    pub fn parse_double_args(&self, toks: &Vec<Token>, i: usize, kind: ExprKind) -> (r: Result<
        (Expr, usize),
        ParserError,
    >)
        requires
            i < toks@.len(),
        ensures
            (match spec_double_step(toks.deep_view(), i as int, self.line, kind) {
                SpecStep::Emit { e, next, line } => r matches Ok(p) && p.0@ == e && p.1 == next
                    && line == self.line,
                SpecStep::Fail(er) => r matches Err(x) && x@ == er,
                _ => false,
            }),
    {
        let n = toks.len();
        if i + 1 >= n {
            return Err(ParserError::ExpectedToken("operand".to_owned(), self.line));
        }
        if i + 2 >= n || !matches!(toks[i + 2].kind, TokenEnum::Comma) {
            return Err(ParserError::ExpectedToken(",".to_owned(), self.line));
        }
        if i + 3 >= n {
            return Err(ParserError::ExpectedToken("operand".to_owned(), self.line));
        }
        let lhs = clone_token(&toks[i + 1].kind);
        let rhs = clone_token(&toks[i + 3].kind);
        Ok((Expr::new(kind, ExprArgs::Double(lhs, rhs)), i + 4))
    }

    /// Parses the operands of `mov`, the one instruction with bracketed
    /// addressing and a three-operand form; see [`spec_mov_step`]. A
    /// bracketed operand is materialized as a bounded sub-stream up to the
    /// matching close bracket and handed to the expression sub-parser.
    #[verifier::loop_isolation(false)]
    pub fn parse_mov(&mut self, toks: &Vec<Token>, i: usize) -> (r: Result<
        (Expr, usize),
        ParserError,
    >)
        requires
            i < toks@.len(),
        ensures
            (match spec_mov_step(toks.deep_view(), i as int, old(self).line) {
                SpecStep::Emit { e, next, line } => r matches Ok(p) && p.0@ == e && p.1 == next
                    && final(self).line == line,
                SpecStep::Fail(er) => r matches Err(x) && x@ == er,
                _ => false,
            }),
    {
        let n = toks.len();
        let ghost t = toks.deep_view();
        if i + 1 >= n {
            return Err(
                ParserError::ExpectedToken("mov usage: mov <expr>, <reg/mem>".to_owned(), self.line),
            );
        }
        if matches!(toks[i + 1].kind, TokenEnum::OpenBracket) {
            let mut c = i + 2;
            while c < n && !matches!(toks[c].kind, TokenEnum::CloseBracket)
                invariant
                    i + 2 <= c <= t.len(),
                    spec_find_close(t, i as int + 2) == spec_find_close(t, c as int),
                decreases t.len() - c,
            {
                c = c + 1;
            }
            let mut sub: Vec<Token> = Vec::new();
            let mut j = i + 2;
            proof {
                assert(sub.deep_view() =~= crate::lexer::spec_filter_expr_tokens(
                    t.subrange(i as int + 2, j as int),
                ));
            }
            while j < c
                invariant
                    i + 2 <= j <= c <= t.len(),
                    sub.deep_view() == crate::lexer::spec_filter_expr_tokens(
                        t.subrange(i as int + 2, j as int),
                    ),
                    self.line == spec_line_add(
                        old(self).line,
                        spec_count_newlines(t, i as int + 2, j as int),
                    ),
                decreases c - j,
            {
                let keep = match &toks[j].kind {
                    TokenEnum::Whitespace => false,
                    TokenEnum::NewLine => false,
                    _ => true,
                };
                let ghost prev = sub.deep_view();
                if keep {
                    sub.push(Token::new(clone_token(&toks[j].kind), toks[j].len));
                    proof {
                        assert(sub.deep_view() =~= prev.push(t[j as int]));
                    }
                } else {
                    if matches!(toks[j].kind, TokenEnum::NewLine) {
                        self.line = if self.line < u32::MAX {
                            self.line + 1
                        } else {
                            self.line
                        };
                    }
                }
                j = j + 1;
                proof {
                    lemma_count_newlines_snoc(t, i as int + 2, j - 1);
                    let seg = t.subrange(i as int + 2, j as int);
                    assert(seg.drop_last() =~= t.subrange(i as int + 2, j - 1));
                    assert(seg.last() == t[j - 1]);
                }
            }
            let lhs = match Self::expr_bp(&sub, 0, 0) {
                Err(e) => {
                    return Err(e);
                },
                Ok((tree, _)) => tree,
            };
            if c >= n {
                return Err(
                    ParserError::ExpectedToken(
                        "mov usage: mov <expr>, <reg/mem>".to_owned(),
                        self.line,
                    ),
                );
            }
            if c + 1 < n && matches!(toks[c + 1].kind, TokenEnum::Comma) {
                if c + 2 < n {
                    let rhs = clone_token(&toks[c + 2].kind);
                    Ok((Expr::new(ExprKind::Mov, ExprArgs::Complex(lhs, rhs)), c + 3))
                } else {
                    Err(
                        ParserError::ExpectedToken(
                            "mov usage: mov <expr>, <reg/mem>".to_owned(),
                            self.line,
                        ),
                    )
                }
            } else {
                Err(
                    ParserError::ExpectedToken(
                        "mov usage: mov <expr>, <reg/mem>".to_owned(),
                        self.line,
                    ),
                )
            }
        } else {
            if i + 2 >= n || !matches!(toks[i + 2].kind, TokenEnum::Comma) {
                return Err(ParserError::ExpectedToken(",".to_owned(), self.line));
            }
            if i + 3 >= n {
                return Err(
                    ParserError::ExpectedToken(
                        "mov usage: mov <expr>, <reg/mem>".to_owned(),
                        self.line,
                    ),
                );
            }
            if i + 4 < n && matches!(toks[i + 4].kind, TokenEnum::Comma) {
                if i + 5 >= n {
                    return Err(
                        ParserError::ExpectedToken(
                            "mov lit offset reg usage: mov <lit>, <reg/mem>, <reg/mem>".to_owned(),
                            self.line,
                        ),
                    );
                }
                let a = clone_token(&toks[i + 1].kind);
                let b = clone_token(&toks[i + 3].kind);
                let d = clone_token(&toks[i + 5].kind);
                Ok((Expr::new(ExprKind::Mov, ExprArgs::Triple(a, b, d)), i + 6))
            } else {
                let a = clone_token(&toks[i + 1].kind);
                let b = clone_token(&toks[i + 3].kind);
                Ok((Expr::new(ExprKind::Mov, ExprArgs::Double(a, b)), i + 4))
            }
        }
    }
}

} // verus!
