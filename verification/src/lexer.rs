//! The lexer: a stateful cursor over the source characters that produces one
//! token per step, together with the derived whole-input token streams.
//!
//! The scanner consumes characters greedily for the token class selected by
//! the first character and never backtracks. Its behaviour is captured by
//! [`spec_scan`], which gives the token and the number of characters consumed
//! at any position of the input.

use vstd::prelude::*;

use crate::chars::{alpha_char, chars_to_string, is_alphabetic, is_numeric, is_whitespace,
    numeric_char, to_char_vec, whitespace_char};
use crate::common::{SpecTokenKind, TokenEnum};

verus! {

/// One token: its kind and the number of source characters it spans. The
/// length serves diagnostics only and is never interpreted downstream.
#[derive(Debug, PartialEq)]
pub struct Token {
    pub kind: TokenEnum,
    pub len: u32,
}

/// The mathematical model of a token.
pub ghost struct SpecToken {
    pub kind: SpecTokenKind,
    pub len: nat,
}

impl View for Token {
    type V = SpecToken;

    open spec fn view(&self) -> SpecToken {
        SpecToken { kind: self.kind@, len: self.len as nat }
    }
}

impl DeepView for Token {
    type V = SpecToken;

    open spec fn deep_view(&self) -> SpecToken {
        self.view()
    }
}

impl Token {
    pub fn new(kind: TokenEnum, len: u32) -> (t: Self)
        ensures
            t.kind == kind,
            t.len == len,
    {
        Self { kind, len }
    }
}

/// A lexing failure. A malformed numeric literal after `&` or `$` surfaces as
/// `WrongHexVal` inside the scanner (and as an `InvalidIdent` token outside);
/// a leading character that no token class recognizes is `UnsupportedChar`,
/// a non-recoverable input defect.
#[derive(Debug, Clone, Copy, PartialEq, Eq, Structural)]
pub enum LexerError {
    WrongHexVal,
    WrongIdent,
    UnsupportedChar(char),
}

/// A character that may continue an identifier: alphabetic or numeric.
pub open spec fn spec_id_continue(c: char) -> bool {
    alpha_char(c) || numeric_char(c)
}

/// A character that may continue an identifier: alphabetic or numeric.
pub fn is_valid_id_continue(c: &char) -> (r: bool)
    ensures
        r == spec_id_continue(*c),
{
    is_alphabetic(*c) || is_numeric(*c)
}

/// An ASCII hexadecimal digit.
pub open spec fn spec_is_hex_digit(c: char) -> bool {
    48 <= c as u32 <= 57 || 97 <= c as u32 <= 102 || 65 <= c as u32 <= 70
}

/// An ASCII decimal digit.
pub open spec fn spec_is_dec_digit(c: char) -> bool {
    48 <= c as u32 <= 57
}

/// A character collected by the numeric scanner: a hexadecimal digit or the
/// base prefix letter `x`.
pub open spec fn spec_is_hexx(c: char) -> bool {
    spec_is_hex_digit(c) || c == 'x'
}

/// A whitespace character other than the newline, which is its own token.
pub open spec fn spec_is_blank(c: char) -> bool {
    whitespace_char(c) && c != '\n'
}

/// The length of the run of numeric-scanner characters starting at `pos`.
pub open spec fn spec_hexx_run(s: Seq<char>, pos: int) -> nat
    decreases s.len() - pos,
{
    if pos < 0 || pos >= s.len() || !spec_is_hexx(s[pos]) {
        0
    } else {
        1 + spec_hexx_run(s, pos + 1)
    }
}

/// The length of the run of identifier characters starting at `pos`.
pub open spec fn spec_id_run(s: Seq<char>, pos: int) -> nat
    decreases s.len() - pos,
{
    if pos < 0 || pos >= s.len() || !spec_id_continue(s[pos]) {
        0
    } else {
        1 + spec_id_run(s, pos + 1)
    }
}

/// The length of the run of non-newline whitespace starting at `pos`.
pub open spec fn spec_blank_run(s: Seq<char>, pos: int) -> nat
    decreases s.len() - pos,
{
    if pos < 0 || pos >= s.len() || !spec_is_blank(s[pos]) {
        0
    } else {
        1 + spec_blank_run(s, pos + 1)
    }
}

/// The numeric value of a hexadecimal digit (0 for any other character).
pub open spec fn spec_hex_digit_val(c: char) -> nat {
    if 48 <= c as u32 <= 57 {
        (c as u32 - 48) as nat
    } else if 97 <= c as u32 <= 102 {
        (c as u32 - 87) as nat
    } else if 65 <= c as u32 <= 70 {
        (c as u32 - 55) as nat
    } else {
        0
    }
}

/// The value of `t` read as a base-16 numeral.
pub open spec fn spec_hex_val(t: Seq<char>) -> nat
    decreases t.len(),
{
    if t.len() == 0 {
        0
    } else {
        spec_hex_val(t.drop_last()) * 16 + spec_hex_digit_val(t.last())
    }
}

/// The value of `t` read as a base-10 numeral.
pub open spec fn spec_dec_val(t: Seq<char>) -> nat
    decreases t.len(),
{
    if t.len() == 0 {
        0
    } else {
        spec_dec_val(t.drop_last()) * 10 + (if spec_is_dec_digit(t.last()) {
            (t.last() as u32 - 48) as nat
        } else {
            0
        })
    }
}

/// Every character of `t` is a hexadecimal digit.
pub open spec fn spec_all_hex(t: Seq<char>) -> bool {
    forall|i: int| 0 <= i < t.len() ==> spec_is_hex_digit(t[i])
}

/// Every character of `t` is a decimal digit.
pub open spec fn spec_all_dec(t: Seq<char>) -> bool {
    forall|i: int| 0 <= i < t.len() ==> spec_is_dec_digit(t[i])
}

/// `t` with every leading `0x` pair removed.
pub open spec fn spec_trim0x(t: Seq<char>) -> Seq<char>
    decreases t.len(),
{
    if t.len() >= 2 && t[0] == '0' && t[1] == 'x' {
        spec_trim0x(t.skip(2))
    } else {
        t
    }
}

/// The value of a collected numeric text: base 16 when it begins with `0x`
/// (after stripping every leading `0x` pair), base 10 otherwise. `None` when
/// the text is empty, holds a character invalid for its base, or exceeds 16
/// bits — the cases in which the scanner emits an `InvalidIdent` token.
pub open spec fn spec_num_val(t: Seq<char>) -> Option<u16> {
    if t.len() >= 2 && t[0] == '0' && t[1] == 'x' {
        let u = spec_trim0x(t);
        if u.len() > 0 && spec_all_hex(u) && spec_hex_val(u) <= 0xFFFF {
            Some(spec_hex_val(u) as u16)
        } else {
            None
        }
    } else {
        if t.len() > 0 && spec_all_dec(t) && spec_dec_val(t) <= 0xFFFF {
            Some(spec_dec_val(t) as u16)
        } else {
            None
        }
    }
}

/// One scanner step: either a token kind with the number of characters
/// consumed producing it, or the one unclassifiable character.
pub ghost enum SpecScan {
    Step { kind: SpecTokenKind, consumed: nat },
    Bad(char),
}

/// The reported span of a scanned token: the characters consumed, except that
/// an `InvalidIdent` reports no span.
pub open spec fn spec_step_len(kind: SpecTokenKind, consumed: nat) -> nat {
    if kind is InvalidIdent {
        0
    } else {
        consumed
    }
}

/// What scanning after a consumed `&` yields: a register-indirect reference
/// when an alphabetic character follows, otherwise a numeric address (or the
/// `InvalidIdent` marker when the numeral is malformed). `consumed` counts
/// the `&` itself.
pub open spec fn spec_scan_amp(s: Seq<char>, pos: int) -> SpecScan {
    if pos + 1 < s.len() && alpha_char(s[pos + 1]) {
        let k: nat = spec_id_run(s, pos + 1);
        SpecScan::Step {
            kind: SpecTokenKind::Ref(s.subrange(pos + 1, pos + 1 + k)),
            consumed: 1 + k,
        }
    } else {
        let k: nat = spec_hexx_run(s, pos + 1);
        match spec_num_val(s.subrange(pos + 1, pos + 1 + k)) {
            Some(v) => SpecScan::Step { kind: SpecTokenKind::Mem(v), consumed: 1 + k },
            None => SpecScan::Step { kind: SpecTokenKind::InvalidIdent, consumed: 1 + k },
        }
    }
}

/// What scanning after a consumed `$` yields: a numeric literal, or the
/// `InvalidIdent` marker when the numeral is malformed. `consumed` counts the
/// `$` itself.
pub open spec fn spec_scan_dollar(s: Seq<char>, pos: int) -> SpecScan {
    let k: nat = spec_hexx_run(s, pos + 1);
    match spec_num_val(s.subrange(pos + 1, pos + 1 + k)) {
        Some(v) => SpecScan::Step { kind: SpecTokenKind::Lit(v), consumed: 1 + k },
        None => SpecScan::Step { kind: SpecTokenKind::InvalidIdent, consumed: 1 + k },
    }
}

/// One scan step at `pos`: the token the lexer produces there and how many
/// characters it consumes. At or past the end of input the scanner yields
/// `EndOfInput` forever. A `&` or `$` starts an address, register reference
/// or literal; the single-character punctuation and operator tokens follow;
/// a newline absorbs one following tab into its span; any other whitespace
/// opens a whitespace run; an alphabetic character opens an identifier run;
/// everything else is an unsupported character.
pub open spec fn spec_scan(s: Seq<char>, pos: int) -> SpecScan {
    if pos >= s.len() {
        SpecScan::Step { kind: SpecTokenKind::EOF, consumed: 0 }
    } else {
        let c = s[pos];
        if c == '&' {
            spec_scan_amp(s, pos)
        } else if c == '$' {
            spec_scan_dollar(s, pos)
        } else if c == ',' {
            SpecScan::Step { kind: SpecTokenKind::Comma, consumed: 1 }
        } else if c == '(' {
            SpecScan::Step { kind: SpecTokenKind::OpenParen, consumed: 1 }
        } else if c == ')' {
            SpecScan::Step { kind: SpecTokenKind::CloseParen, consumed: 1 }
        } else if c == '[' {
            SpecScan::Step { kind: SpecTokenKind::OpenBracket, consumed: 1 }
        } else if c == ']' {
            SpecScan::Step { kind: SpecTokenKind::CloseBracket, consumed: 1 }
        } else if c == '!' {
            SpecScan::Step { kind: SpecTokenKind::Neg, consumed: 1 }
        } else if c == ':' {
            SpecScan::Step { kind: SpecTokenKind::Colon, consumed: 1 }
        } else if c == '?' {
            SpecScan::Step { kind: SpecTokenKind::Question, consumed: 1 }
        } else if c == ';' {
            SpecScan::Step { kind: SpecTokenKind::Semicolon, consumed: 1 }
        } else if c == '+' {
            SpecScan::Step { kind: SpecTokenKind::Plus, consumed: 1 }
        } else if c == '*' {
            SpecScan::Step { kind: SpecTokenKind::Star, consumed: 1 }
        } else if c == '-' {
            SpecScan::Step { kind: SpecTokenKind::Minus, consumed: 1 }
        } else if c == '\n' {
            if pos + 1 < s.len() && s[pos + 1] == '\t' {
                SpecScan::Step { kind: SpecTokenKind::NewLine, consumed: 2 }
            } else {
                SpecScan::Step { kind: SpecTokenKind::NewLine, consumed: 1 }
            }
        } else if whitespace_char(c) {
            SpecScan::Step { kind: SpecTokenKind::Whitespace, consumed: spec_blank_run(s, pos) }
        } else if alpha_char(c) {
            let k: nat = spec_id_run(s, pos);
            SpecScan::Step { kind: SpecTokenKind::Ident(s.subrange(pos, pos + k)), consumed: k }
        } else {
            SpecScan::Bad(c)
        }
    }
}

/// A run never reaches past the end of the input.
pub proof fn lemma_hexx_run_bound(s: Seq<char>, pos: int)
    requires
        0 <= pos <= s.len(),
    ensures
        pos + spec_hexx_run(s, pos) <= s.len(),
    decreases s.len() - pos,
{
    if pos < s.len() && spec_is_hexx(s[pos]) {
        lemma_hexx_run_bound(s, pos + 1);
    }
}

/// A run never reaches past the end of the input.
pub proof fn lemma_id_run_bound(s: Seq<char>, pos: int)
    requires
        0 <= pos <= s.len(),
    ensures
        pos + spec_id_run(s, pos) <= s.len(),
    decreases s.len() - pos,
{
    if pos < s.len() && spec_id_continue(s[pos]) {
        lemma_id_run_bound(s, pos + 1);
    }
}

/// A run never reaches past the end of the input.
pub proof fn lemma_blank_run_bound(s: Seq<char>, pos: int)
    requires
        0 <= pos <= s.len(),
    ensures
        pos + spec_blank_run(s, pos) <= s.len(),
    decreases s.len() - pos,
{
    if pos < s.len() && spec_is_blank(s[pos]) {
        lemma_blank_run_bound(s, pos + 1);
    }
}

/// Inside the input, every scan step consumes at least one character and
/// stays within the input; the `EndOfInput` token arises exactly at its end.
pub proof fn lemma_scan_bounds(s: Seq<char>, pos: int)
    requires
        0 <= pos <= s.len(),
    ensures
        spec_scan(s, pos) matches SpecScan::Step { kind, consumed } ==> {
            &&& (kind is EOF <==> pos == s.len())
            &&& pos + consumed <= s.len()
            &&& (pos < s.len() ==> consumed >= 1)
        },
{
    if pos < s.len() {
        let c = s[pos];
        if c == '&' || c == '$' {
            lemma_hexx_run_bound(s, pos + 1);
            if pos + 1 < s.len() {
                lemma_id_run_bound(s, pos + 1);
            }
        } else if c == '\n' {
        } else if whitespace_char(c) {
            lemma_blank_run_bound(s, pos);
        } else if alpha_char(c) {
            lemma_id_run_bound(s, pos);
        }
    }
}

/// The token stream from `pos`: the tokens the scanner yields up to (and
/// excluding) `EndOfInput`, or the first unsupported character.
pub open spec fn spec_tokens_from(s: Seq<char>, pos: int) -> Result<Seq<SpecToken>, char>
    decreases s.len() - pos,
{
    match spec_scan(s, pos) {
        SpecScan::Bad(c) => Err(c),
        SpecScan::Step { kind, consumed } => {
            if kind is EOF {
                Ok(Seq::empty())
            } else {
                let tok = SpecToken { kind, len: spec_step_len(kind, consumed) };
                if consumed >= 1 && pos + consumed <= s.len() {
                    match spec_tokens_from(s, pos + consumed) {
                        Ok(rest) => Ok(seq![tok] + rest),
                        Err(c) => Err(c),
                    }
                } else {
                    Ok(seq![tok])
                }
            }
        },
    }
}

/// The raw token stream of the whole input.
pub open spec fn spec_tokens(s: Seq<char>) -> Result<Seq<SpecToken>, char> {
    spec_tokens_from(s, 0)
}

/// The kinds of a token sequence, spans dropped.
pub open spec fn spec_token_kinds(ts: Seq<SpecToken>) -> Seq<SpecTokenKind> {
    Seq::new(ts.len(), |i: int| ts[i].kind)
}

/// A token the expression sub-parser sees: neither whitespace nor a newline.
pub open spec fn spec_expr_relevant(t: SpecToken) -> bool {
    !(t.kind is Whitespace || t.kind is NewLine)
}

/// The token sequence with whitespace and newline tokens removed, order kept.
pub open spec fn spec_filter_expr_tokens(ts: Seq<SpecToken>) -> Seq<SpecToken>
    decreases ts.len(),
{
    if ts.len() == 0 {
        Seq::empty()
    } else {
        let rest = spec_filter_expr_tokens(ts.drop_last());
        if spec_expr_relevant(ts.last()) {
            rest.push(ts.last())
        } else {
            rest
        }
    }
}

/// The token sequence with whitespace tokens removed, order kept; newlines
/// stay, since the instruction parser counts source lines by them.
pub open spec fn spec_filter_parse_tokens(ts: Seq<SpecToken>) -> Seq<SpecToken>
    decreases ts.len(),
{
    if ts.len() == 0 {
        Seq::empty()
    } else {
        let rest = spec_filter_parse_tokens(ts.drop_last());
        if !(ts.last().kind is Whitespace) {
            rest.push(ts.last())
        } else {
            rest
        }
    }
}

/// The total number of source characters the tokens report spanning.
pub open spec fn spec_token_spans(ts: Seq<SpecToken>) -> int
    decreases ts.len(),
{
    if ts.len() == 0 {
        0
    } else {
        ts[0].len + spec_token_spans(ts.drop_first())
    }
}

proof fn lemma_spans_from(s: Seq<char>, pos: int)
    requires
        0 <= pos <= s.len(),
        spec_tokens_from(s, pos) is Ok,
        forall|i: int|
            0 <= i < spec_tokens_from(s, pos)->Ok_0.len() ==> !((#[trigger] spec_tokens_from(
                s,
                pos,
            )->Ok_0[i]).kind is InvalidIdent),
    ensures
        pos + spec_token_spans(spec_tokens_from(s, pos)->Ok_0) == s.len(),
    decreases s.len() - pos,
{
    lemma_scan_bounds(s, pos);
    let step = spec_scan(s, pos);
    match step {
        SpecScan::Bad(_) => {
            assert(false);
        },
        SpecScan::Step { kind, consumed } => {
            if kind is EOF {
                assert(pos == s.len());
            } else {
                let tok = SpecToken { kind, len: spec_step_len(kind, consumed) };
                let all = spec_tokens_from(s, pos)->Ok_0;
                let p2 = pos + consumed;
                assert(spec_tokens_from(s, p2) is Ok);
                let rest = spec_tokens_from(s, p2)->Ok_0;
                assert(all == seq![tok] + rest);
                assert(all[0] == tok);
                assert(!(kind is InvalidIdent));
                assert(tok.len == consumed);
                assert forall|i: int| 0 <= i < rest.len() implies !((#[trigger] rest[i]).kind
                    is InvalidIdent) by {
                    assert(rest[i] == all[i + 1]);
                }
                lemma_spans_from(s, p2);
                assert(all.drop_first() =~= rest);
            }
        },
    }
}

/// Token spans cover the input: for an input free of lexical defects — one
/// that lexes without error and whose stream holds no `InvalidIdent` marker —
/// rebuilding source spans from the `(kind, length)` pairs reproduces a total
/// consumed length equal to the input length.
pub proof fn lemma_token_spans_cover_input(s: Seq<char>)
    requires
        spec_tokens(s) is Ok,
        forall|i: int|
            0 <= i < spec_tokens(s)->Ok_0.len() ==> !((#[trigger] spec_tokens(
                s,
            )->Ok_0[i]).kind is InvalidIdent),
    ensures
        spec_token_spans(spec_tokens(s)->Ok_0) == s.len(),
{
    lemma_spans_from(s, 0);
}

/// An ASCII hexadecimal digit.
fn is_hex_digit_char(c: char) -> (r: bool)
    ensures
        r == spec_is_hex_digit(c),
{
    let u = c as u32;
    (48 <= u && u <= 57) || (97 <= u && u <= 102) || (65 <= u && u <= 70)
}

/// A character the numeric scanner collects: a hexadecimal digit or `x`.
fn is_hexx_char(c: char) -> (r: bool)
    ensures
        r == spec_is_hexx(c),
{
    is_hex_digit_char(c) || c == 'x'
}

/// An ASCII decimal digit.
fn is_dec_digit_char(c: char) -> (r: bool)
    ensures
        r == spec_is_dec_digit(c),
{
    let u = c as u32;
    48 <= u && u <= 57
}

/// The value of a hexadecimal digit.
fn hex_digit_val(c: char) -> (d: u8)
    requires
        spec_is_hex_digit(c),
    ensures
        d as nat == spec_hex_digit_val(c),
{
    let u = c as u32;
    if u <= 57 {
        (u - 48) as u8
    } else if u >= 97 {
        (u - 87) as u8
    } else {
        (u - 55) as u8
    }
}

/// The stateful scanner: the input characters and the current position.
pub struct Cursor {
    pub chars: Vec<char>,
    pub pos: usize,
}

impl Cursor {
    /// The position stays within the input, whose length fits the 32-bit
    /// token spans.
    pub open spec fn wf(&self) -> bool {
        self.pos <= self.chars@.len() && self.chars@.len() <= u32::MAX as nat
    }

    pub fn new(input: &str) -> (c: Self)
        requires
            input@.len() <= u32::MAX as nat,
        ensures
            c.wf(),
            c.chars@ == input@,
            c.pos == 0,
    {
        Self { chars: to_char_vec(input), pos: 0 }
    }

    /// Scans one token and advances past it; repeated calls exhaust the input
    /// and thereafter yield `EndOfInput` indefinitely. The result and the new
    /// position are exactly what [`spec_scan`] gives at the old position; a
    /// character no token class recognizes is an `UnsupportedChar` failure.
    pub fn parse_token(&mut self) -> (r: Result<Token, LexerError>)
        requires
            old(self).wf(),
        ensures
            final(self).wf(),
            final(self).chars == old(self).chars,
            (match spec_scan(old(self).chars@, old(self).pos as int) {
                SpecScan::Step { kind, consumed } => {
                    &&& r matches Ok(t) && t@.kind == kind && t@.len == spec_step_len(
                        kind,
                        consumed,
                    )
                    &&& final(self).pos == old(self).pos + consumed
                },
                SpecScan::Bad(c) => {
                    &&& r == Err::<Token, LexerError>(LexerError::UnsupportedChar(c))
                    &&& final(self).pos == old(self).pos + 1
                },
            }),
    {
        if self.pos >= self.chars.len() {
            return Ok(Token::new(TokenEnum::EOF, 0));
        }
        let c = self.chars[self.pos];
        self.pos = self.pos + 1;
        if c == '&' {
            Ok(self.parse_mem())
        } else if c == '$' {
            Ok(self.parse_lit())
        } else if c == ',' {
            Ok(Token::new(TokenEnum::Comma, 1))
        } else if c == '(' {
            Ok(Token::new(TokenEnum::OpenParen, 1))
        } else if c == ')' {
            Ok(Token::new(TokenEnum::CloseParen, 1))
        } else if c == '[' {
            Ok(Token::new(TokenEnum::OpenBracket, 1))
        } else if c == ']' {
            Ok(Token::new(TokenEnum::CloseBracket, 1))
        } else if c == '!' {
            Ok(Token::new(TokenEnum::Neg, 1))
        } else if c == ':' {
            Ok(Token::new(TokenEnum::Colon, 1))
        } else if c == '?' {
            Ok(Token::new(TokenEnum::Question, 1))
        } else if c == ';' {
            Ok(Token::new(TokenEnum::Semicolon, 1))
        } else if c == '+' {
            Ok(Token::new(TokenEnum::Plus, 1))
        } else if c == '*' {
            Ok(Token::new(TokenEnum::Star, 1))
        } else if c == '-' {
            Ok(Token::new(TokenEnum::Minus, 1))
        } else if c == '\n' {
            Ok(self.parse_newline())
        } else if is_whitespace(c) {
            Ok(self.eat_whitespace())
        } else if is_alphabetic(c) {
            Ok(self.parse_ident(c))
        } else {
            Err(LexerError::UnsupportedChar(c))
        }
    }

    /// Scans the optional tab absorbed into a newline's span. Expects the
    /// newline itself to have been consumed already.
    pub fn parse_newline(&mut self) -> (t: Token)
        requires
            old(self).wf(),
            old(self).pos >= 1,
        ensures
            final(self).wf(),
            final(self).chars == old(self).chars,
            t@.kind == SpecTokenKind::NewLine,
            ({
                let s = old(self).chars@;
                let p = old(self).pos as int;
                if p < s.len() && s[p] == '\t' {
                    t@.len == 2 && final(self).pos == p + 1
                } else {
                    t@.len == 1 && final(self).pos == p
                }
            }),
    {
        let mut len: u32 = 1;
        if self.pos < self.chars.len() && self.chars[self.pos] == '\t' {
            self.pos = self.pos + 1;
            len = len + 1;
        }
        Token::new(TokenEnum::NewLine, len)
    }

    /// Collects the numeric text after a consumed `&` or `$` and reads its
    /// value: base 16 with a `0x` prefix, base 10 otherwise. Advances past
    /// the collected run in either case; yields `WrongHexVal` when the text
    /// is empty, has a character invalid for its base, or exceeds 16 bits.
    #[verifier::loop_isolation(false)]
    pub fn parse_hex(&mut self) -> (r: Result<(u16, u32), LexerError>)
        requires
            old(self).wf(),
        ensures
            final(self).wf(),
            final(self).chars == old(self).chars,
            final(self).pos == old(self).pos + spec_hexx_run(
                old(self).chars@,
                old(self).pos as int,
            ),
            ({
                let s = old(self).chars@;
                let p = old(self).pos as int;
                let k = spec_hexx_run(s, p);
                match spec_num_val(s.subrange(p, p + k)) {
                    Some(v) => r == Ok::<(u16, u32), LexerError>((v, k as u32)),
                    None => r == Err::<(u16, u32), LexerError>(LexerError::WrongHexVal),
                }
            }),
    {
        let ghost s = self.chars@;
        let start = self.pos;
        proof {
            lemma_hexx_run_bound(s, start as int);
        }
        while self.pos < self.chars.len() && is_hexx_char(self.chars[self.pos])
            invariant
                self.wf(),
                self.chars == old(self).chars,
                start <= self.pos,
                spec_hexx_run(s, start as int) == self.pos - start + spec_hexx_run(
                    s,
                    self.pos as int,
                ),
            decreases s.len() - self.pos,
        {
            self.pos = self.pos + 1;
        }
        let end = self.pos;
        let ghost k = spec_hexx_run(s, start as int);
        let ghost t = s.subrange(start as int, start as int + k);
        proof {
            assert(end == start + k);
            assert(t =~= s.subrange(start as int, end as int));
        }
        if end - start >= 2 && self.chars[start] == '0' && self.chars[start + 1] == 'x' {
            let mut i = start;
            while i < end && self.chars[i] == '0' && i + 1 < end && self.chars[i + 1] == 'x'
                invariant
                    self.wf(),
                    self.chars == old(self).chars,
                    start <= i <= end,
                    end <= s.len(),
                    spec_trim0x(s.subrange(start as int, end as int)) == spec_trim0x(
                        s.subrange(i as int, end as int),
                    ),
                decreases end - i,
            {
                proof {
                    assert(s.subrange(i as int, end as int).skip(2) =~= s.subrange(
                        i as int + 2,
                        end as int,
                    ));
                }
                i = i + 2;
            }
            let ghost u = s.subrange(i as int, end as int);
            proof {
                assert(spec_trim0x(s.subrange(i as int, end as int)) == u);
                assert(spec_trim0x(t) == u);
            }
            if i == end {
                return Err(LexerError::WrongHexVal);
            }
            let mut val: u32 = 0;
            let mut over = false;
            let mut j = i;
            while j < end
                invariant
                    self.wf(),
                    self.chars == old(self).chars,
                    i <= j <= end,
                    end <= s.len(),
                    spec_all_hex(s.subrange(i as int, j as int)),
                    !over ==> val == spec_hex_val(s.subrange(i as int, j as int)) && val <= 0xFFFF,
                    over ==> spec_hex_val(s.subrange(i as int, j as int)) > 0xFFFF,
                decreases end - j,
            {
                let c = self.chars[j];
                if !is_hex_digit_char(c) {
                    proof {
                        assert(u[j - i] == c);
                        assert(!spec_all_hex(u));
                    }
                    return Err(LexerError::WrongHexVal);
                }
                let d = hex_digit_val(c);
                proof {
                    assert(s.subrange(i as int, j as int + 1).drop_last() =~= s.subrange(
                        i as int,
                        j as int,
                    ));
                    assert(s.subrange(i as int, j as int + 1).last() == s[j as int]);
                    assert forall|x: int| 0 <= x < j as int + 1 - i implies spec_is_hex_digit(
                        #[trigger] s.subrange(i as int, j as int + 1)[x],
                    ) by {
                        if x < j - i {
                            assert(s.subrange(i as int, j as int)[x] == s.subrange(
                                i as int,
                                j as int + 1,
                            )[x]);
                        }
                    }
                }
                if !over {
                    let nv = val * 16 + d as u32;
                    if nv > 0xFFFF {
                        over = true;
                    } else {
                        val = nv;
                    }
                }
                j = j + 1;
            }
            if over {
                return Err(LexerError::WrongHexVal);
            }
            Ok((val as u16, (end - start) as u32))
        } else {
            if start == end {
                return Err(LexerError::WrongHexVal);
            }
            let mut val: u32 = 0;
            let mut over = false;
            let mut j = start;
            while j < end
                invariant
                    self.wf(),
                    self.chars == old(self).chars,
                    start <= j <= end,
                    end <= s.len(),
                    spec_all_dec(s.subrange(start as int, j as int)),
                    !over ==> val == spec_dec_val(s.subrange(start as int, j as int)) && val
                        <= 0xFFFF,
                    over ==> spec_dec_val(s.subrange(start as int, j as int)) > 0xFFFF,
                decreases end - j,
            {
                let c = self.chars[j];
                if !is_dec_digit_char(c) {
                    proof {
                        assert(t[j - start] == c);
                        assert(!spec_all_dec(t));
                    }
                    return Err(LexerError::WrongHexVal);
                }
                let d = (c as u32 - 48) as u8;
                proof {
                    assert(s.subrange(start as int, j as int + 1).drop_last() =~= s.subrange(
                        start as int,
                        j as int,
                    ));
                    assert(s.subrange(start as int, j as int + 1).last() == s[j as int]);
                    assert forall|x: int| 0 <= x < j as int + 1 - start implies spec_is_dec_digit(
                        #[trigger] s.subrange(start as int, j as int + 1)[x],
                    ) by {
                        if x < j - start {
                            assert(s.subrange(start as int, j as int)[x] == s.subrange(
                                start as int,
                                j as int + 1,
                            )[x]);
                        }
                    }
                }
                if !over {
                    let nv = val * 10 + d as u32;
                    if nv > 0xFFFF {
                        over = true;
                    } else {
                        val = nv;
                    }
                }
                j = j + 1;
            }
            if over {
                return Err(LexerError::WrongHexVal);
            }
            Ok((val as u16, (end - start) as u32))
        }
    }

    /// Scans what follows a consumed `&`: a register-indirect reference when
    /// a letter follows, otherwise a memory address (or the `InvalidIdent`
    /// marker for a malformed numeral).
    fn parse_mem(&mut self) -> (t: Token)
        requires
            old(self).wf(),
            old(self).pos >= 1,
        ensures
            final(self).wf(),
            final(self).chars == old(self).chars,
            spec_scan_amp(old(self).chars@, old(self).pos - 1) matches SpecScan::Step {
                kind,
                consumed,
            } && t@.kind == kind && t@.len == spec_step_len(kind, consumed) && final(self).pos
                == old(self).pos - 1 + consumed,
    {
        proof {
            lemma_hexx_run_bound(self.chars@, self.pos as int);
            if self.pos < self.chars@.len() {
                lemma_id_run_bound(self.chars@, self.pos as int);
            }
        }
        if self.pos < self.chars.len() && is_alphabetic(self.chars[self.pos]) {
            let first = self.chars[self.pos];
            self.pos = self.pos + 1;
            let v = self.ident_chars(first);
            let len = v.len() as u32 + 1;
            Token::new(TokenEnum::Ref(chars_to_string(&v)), len)
        } else {
            match self.parse_hex() {
                Ok((x, size)) => Token::new(TokenEnum::Mem(x), size + 1),
                Err(_) => Token::new(TokenEnum::InvalidIdent, 0),
            }
        }
    }

    /// Scans the numeric literal after a consumed `$` (or the `InvalidIdent`
    /// marker for a malformed numeral).
    fn parse_lit(&mut self) -> (t: Token)
        requires
            old(self).wf(),
            old(self).pos >= 1,
        ensures
            final(self).wf(),
            final(self).chars == old(self).chars,
            spec_scan_dollar(old(self).chars@, old(self).pos - 1) matches SpecScan::Step {
                kind,
                consumed,
            } && t@.kind == kind && t@.len == spec_step_len(kind, consumed) && final(self).pos
                == old(self).pos - 1 + consumed,
    {
        proof {
            lemma_hexx_run_bound(self.chars@, self.pos as int);
        }
        match self.parse_hex() {
            Ok((x, size)) => Token::new(TokenEnum::Lit(x), size + 1),
            Err(_) => Token::new(TokenEnum::InvalidIdent, 0),
        }
    }

    /// Consumes the whitespace run opened by an already-consumed non-newline
    /// whitespace character; the token spans the whole run.
    #[verifier::loop_isolation(false)]
    fn eat_whitespace(&mut self) -> (t: Token)
        requires
            old(self).wf(),
            old(self).pos >= 1,
            spec_is_blank(old(self).chars@[old(self).pos - 1]),
        ensures
            final(self).wf(),
            final(self).chars == old(self).chars,
            t@.kind == SpecTokenKind::Whitespace,
            t@.len == spec_blank_run(old(self).chars@, old(self).pos - 1),
            final(self).pos == old(self).pos - 1 + spec_blank_run(
                old(self).chars@,
                old(self).pos - 1,
            ),
    {
        let ghost s = self.chars@;
        let ghost p0 = self.pos as int - 1;
        let mut len: u32 = 1;
        while self.pos < self.chars.len() && is_whitespace(self.chars[self.pos]) && self.chars[
            self.pos] != '\n'
            invariant
                self.wf(),
                self.chars == old(self).chars,
                p0 + 1 <= self.pos,
                len == self.pos - p0,
                spec_blank_run(s, p0) == self.pos - p0 + spec_blank_run(s, self.pos as int),
            decreases s.len() - self.pos,
        {
            self.pos = self.pos + 1;
            len = len + 1;
        }
        Token::new(TokenEnum::Whitespace, len)
    }

    /// Collects the identifier run opened by an already-consumed identifier
    /// character, that character included.
    #[verifier::loop_isolation(false)]
    fn ident_chars(&mut self, first: char) -> (v: Vec<char>)
        requires
            old(self).wf(),
            old(self).pos >= 1,
            old(self).chars@[old(self).pos - 1] == first,
            spec_id_continue(first),
        ensures
            final(self).wf(),
            final(self).chars == old(self).chars,
            v@ == old(self).chars@.subrange(
                old(self).pos - 1,
                old(self).pos - 1 + spec_id_run(old(self).chars@, old(self).pos - 1),
            ),
            final(self).pos == old(self).pos - 1 + spec_id_run(
                old(self).chars@,
                old(self).pos - 1,
            ),
    {
        let ghost s = self.chars@;
        let ghost p0 = self.pos as int - 1;
        let mut v: Vec<char> = Vec::new();
        v.push(first);
        proof {
            assert(v@ =~= s.subrange(p0, p0 + 1));
        }
        while self.pos < self.chars.len() && is_valid_id_continue(&self.chars[self.pos])
            invariant
                self.wf(),
                self.chars == old(self).chars,
                p0 + 1 <= self.pos,
                v@ == s.subrange(p0, self.pos as int),
                spec_id_run(s, p0) == self.pos - p0 + spec_id_run(s, self.pos as int),
            decreases s.len() - self.pos,
        {
            let c = self.chars[self.pos];
            v.push(c);
            self.pos = self.pos + 1;
            proof {
                assert(v@ =~= s.subrange(p0, self.pos as int));
            }
        }
        v
    }

    /// Scans the identifier opened by an already-consumed first character.
    fn parse_ident(&mut self, first_char: char) -> (t: Token)
        requires
            old(self).wf(),
            old(self).pos >= 1,
            old(self).chars@[old(self).pos - 1] == first_char,
            spec_id_continue(first_char),
        ensures
            final(self).wf(),
            final(self).chars == old(self).chars,
            t@.kind == SpecTokenKind::Ident(
                old(self).chars@.subrange(
                    old(self).pos - 1,
                    old(self).pos - 1 + spec_id_run(old(self).chars@, old(self).pos - 1),
                ),
            ),
            t@.len == spec_id_run(old(self).chars@, old(self).pos - 1),
            final(self).pos == old(self).pos - 1 + spec_id_run(
                old(self).chars@,
                old(self).pos - 1,
            ),
    {
        proof {
            lemma_id_run_bound(self.chars@, self.pos as int - 1);
        }
        let v = self.ident_chars(first_char);
        let len = v.len() as u32;
        Token::new(TokenEnum::Ident(chars_to_string(&v)), len)
    }
}

/// Lexes the whole input into the sequence of token kinds, `EndOfInput`
/// excluded. Fails on the first character no token class recognizes.
#[verifier::loop_isolation(false)]
pub fn tokenize(input: &str) -> (r: Result<Vec<TokenEnum>, LexerError>)
    requires
        input@.len() <= u32::MAX as nat,
    ensures
        (match spec_tokens(input@) {
            Ok(ts) => r matches Ok(v) && v.deep_view() == spec_token_kinds(ts),
            Err(c) => r == Err::<Vec<TokenEnum>, LexerError>(LexerError::UnsupportedChar(c)),
        }),
{
    match tokenize_old(input) {
        Err(e) => Err(e),
        Ok(toks) => {
            let ghost ts = spec_tokens(input@)->Ok_0;
            let mut v: Vec<TokenEnum> = Vec::new();
            let mut toks = toks;
            let ghost n = ts.len();
            proof {
                assert(toks.deep_view() =~= ts);
                assert(toks.deep_view() =~= ts.subrange(0, n as int));
                assert(v.deep_view() =~= spec_token_kinds(ts).take(0));
            }
            loop
                invariant
                    n == ts.len(),
                    v@.len() + toks@.len() == n,
                    toks.deep_view() == ts.subrange(v@.len() as int, n as int),
                    v.deep_view() == spec_token_kinds(ts).take(v@.len() as int),
                decreases toks@.len(),
            {
                if toks.len() == 0 {
                    break ;
                }
                let ghost i = v@.len() as int;
                let ghost pretoks = toks@;
                let t = toks.remove(0);
                proof {
                    assert(ts.subrange(i, n as int)[0] == ts[i]);
                    assert(t@ == ts[i]);
                }
                v.push(t.kind);
                proof {
                    assert(v.deep_view() =~= spec_token_kinds(ts).take(i + 1));
                    assert(toks@ =~= pretoks.subrange(1, pretoks.len() as int));
                    assert forall|x: int| 0 <= x < toks@.len() implies #[trigger] toks.deep_view()[x]
                        == ts[i + 1 + x] by {
                        assert(toks@[x] == pretoks[x + 1]);
                        assert(ts.subrange(i, n as int)[x + 1] == ts[i + 1 + x]);
                    }
                    assert(toks.deep_view() =~= ts.subrange(i + 1, n as int));
                }
            }
            proof {
                assert(spec_token_kinds(ts).take(n as int) =~= spec_token_kinds(ts));
            }
            Ok(v)
        },
    }
}

/// Lexes the whole input into its raw token stream, `EndOfInput` excluded;
/// whitespace and newline tokens are kept, so the stream preserves the exact
/// source layout. Fails on the first character no token class recognizes.
#[verifier::loop_isolation(false)]
pub fn tokenize_old(input: &str) -> (r: Result<Vec<Token>, LexerError>)
    requires
        input@.len() <= u32::MAX as nat,
    ensures
        (match spec_tokens(input@) {
            Ok(ts) => r matches Ok(v) && v.deep_view() == ts,
            Err(c) => r == Err::<Vec<Token>, LexerError>(LexerError::UnsupportedChar(c)),
        }),
{
    let ghost s = input@;
    let mut lexer = Cursor::new(input);
    let mut v: Vec<Token> = Vec::new();
    let ghost mut done: Seq<SpecToken> = Seq::empty();
    proof {
        assert(v.deep_view() =~= done);
    }
    loop
        invariant
            lexer.wf(),
            lexer.chars@ == s,
            s.len() <= u32::MAX as nat,
            v.deep_view() == done,
            (match spec_tokens_from(s, lexer.pos as int) {
                Ok(rest) => spec_tokens(s) matches Ok(all) && all == done + rest,
                Err(c) => spec_tokens(s) matches Err(c2) && c2 == c,
            }),
        decreases s.len() - lexer.pos,
    {
        let ghost p = lexer.pos as int;
        proof {
            lemma_scan_bounds(s, p);
        }
        let t = match lexer.parse_token() {
            Ok(t) => t,
            Err(e) => {
                return Err(e);
            },
        };
        if matches!(t.kind, TokenEnum::EOF) {
            proof {
                assert(spec_tokens_from(s, p) == Ok::<Seq<SpecToken>, char>(Seq::empty()));
                assert(spec_tokens(s) matches Ok(all) && all == done + Seq::<SpecToken>::empty());
                assert(done + Seq::<SpecToken>::empty() =~= done);
            }
            break ;
        }
        let ghost pre = v.deep_view();
        v.push(t);
        proof {
            let step = spec_scan(s, p);
            let kind = step->Step_kind;
            let consumed = step->Step_consumed;
            let tok = SpecToken { kind, len: spec_step_len(kind, consumed) };
            assert(t@ == tok);
            assert(v.deep_view() =~= pre.push(tok));
            assert(spec_tokens_from(s, p) == (match spec_tokens_from(s, p + consumed) {
                Ok(rest) => Ok::<Seq<SpecToken>, char>(seq![tok] + rest),
                Err(c) => Err::<Seq<SpecToken>, char>(c),
            }));
            done = done.push(tok);
            if spec_tokens_from(s, p + consumed) is Ok {
                let rest2 = spec_tokens_from(s, p + consumed)->Ok_0;
                assert((pre + (seq![tok] + rest2)) =~= (pre.push(tok) + rest2));
            }
        }
    }
    Ok(v)
}

/// Lexes the whole input and keeps only the tokens the expression sub-parser
/// reads: whitespace and newline tokens are removed. Fails on the first
/// character no token class recognizes.
#[verifier::loop_isolation(false)]
pub fn tokenize_expr(input: &str) -> (r: Result<Vec<Token>, LexerError>)
    requires
        input@.len() <= u32::MAX as nat,
    ensures
        (match spec_tokens(input@) {
            Ok(ts) => r matches Ok(v) && v.deep_view() == spec_filter_expr_tokens(ts),
            Err(c) => r == Err::<Vec<Token>, LexerError>(LexerError::UnsupportedChar(c)),
        }),
{
    match tokenize_old(input) {
        Err(e) => Err(e),
        Ok(toks) => {
            let ghost ts = spec_tokens(input@)->Ok_0;
            let mut v: Vec<Token> = Vec::new();
            let mut toks = toks;
            let ghost n = ts.len();
            let ghost mut i: int = 0;
            proof {
                assert(toks.deep_view() =~= ts.subrange(0, n as int));
                assert(v.deep_view() =~= spec_filter_expr_tokens(ts.take(0)));
            }
            loop
                invariant
                    n == ts.len(),
                    0 <= i <= n,
                    i + toks@.len() == n,
                    toks.deep_view() == ts.subrange(i, n as int),
                    v.deep_view() == spec_filter_expr_tokens(ts.take(i)),
                decreases toks@.len(),
            {
                if toks.len() == 0 {
                    break ;
                }
                let ghost pretoks = toks@;
                let t = toks.remove(0);
                proof {
                    assert(ts.subrange(i, n as int)[0] == ts[i]);
                    assert(t@ == ts[i]);
                }
                let keep = match &t.kind {
                    TokenEnum::Whitespace => false,
                    TokenEnum::NewLine => false,
                    _ => true,
                };
                let ghost pre = v.deep_view();
                if keep {
                    v.push(t);
                    proof {
                        assert(v.deep_view() =~= pre.push(ts[i]));
                    }
                }
                proof {
                    i = i + 1;
                    assert(ts.take(i).drop_last() =~= ts.take(i - 1));
                    assert(ts.take(i).last() == ts[i - 1]);
                    assert(toks@ =~= pretoks.subrange(1, pretoks.len() as int));
                    assert forall|x: int| 0 <= x < toks@.len() implies #[trigger] toks.deep_view()[x]
                        == ts[i + x] by {
                        assert(toks@[x] == pretoks[x + 1]);
                        assert(ts.subrange(i - 1, n as int)[x + 1] == ts[i + x]);
                    }
                    assert(toks.deep_view() =~= ts.subrange(i, n as int));
                }
            }
            proof {
                assert(ts.take(n as int) =~= ts);
            }
            Ok(v)
        },
    }
}

} // verus!
