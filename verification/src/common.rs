//! The token vocabulary shared by all stages, and the register set.

use vstd::prelude::*;

verus! {

/// The nine named registers of the target machine. Each has a fixed one-byte
/// encoding, given by [`reg_code`]; the encoding is part of the binary format
/// and must not be renumbered independently of it.
#[derive(Debug, Clone, Copy, PartialEq, Eq, Structural)]
pub enum Regs {
    ACC,
    R1,
    R2,
    R3,
    R4,
    R5,
    R6,
    R7,
    R8,
}

/// The fixed binary encoding of each register.
pub open spec fn reg_code(r: Regs) -> u8 {
    match r {
        Regs::ACC => 1,
        Regs::R1 => 2,
        Regs::R2 => 3,
        Regs::R3 => 4,
        Regs::R4 => 5,
        Regs::R5 => 6,
        Regs::R6 => 7,
        Regs::R7 => 8,
        Regs::R8 => 9,
    }
}

impl Regs {
    /// The fixed binary encoding of this register.
    pub fn code(&self) -> (b: u8)
        ensures
            b == reg_code(*self),
    {
        match self {
            Regs::ACC => 1,
            Regs::R1 => 2,
            Regs::R2 => 3,
            Regs::R3 => 4,
            Regs::R4 => 5,
            Regs::R5 => 6,
            Regs::R6 => 7,
            Regs::R7 => 8,
            Regs::R8 => 9,
        }
    }
}

/// The token vocabulary. Exactly one variant is active per token; the set is
/// closed. `Lit` carries a numeric constant written `$n`, `Mem` a `&`-prefixed
/// address, `Ref` a `&`-prefixed register name (register-indirect addressing),
/// and `Ident` covers register names, mnemonics and labels alike — telling
/// registers from other identifiers is deferred to the code generator.
#[derive(Debug, PartialEq)]
pub enum TokenEnum {
    Whitespace,
    Comma,
    Colon,
    Semicolon,
    Or,
    And,
    Neg,
    Plus,
    Star,
    Minus,
    Lit(u16),
    Mem(u16),
    Reg(Regs),
    OpenParen,
    CloseParen,
    OpenBracket,
    CloseBracket,
    Question,
    Ident(String),
    Ref(String),
    InvalidIdent,
    EOF,
    NewLine,
}

/// The mathematical model of a token kind: identifier text is a sequence of
/// characters rather than a `String`.
pub ghost enum SpecTokenKind {
    Whitespace,
    Comma,
    Colon,
    Semicolon,
    Or,
    And,
    Neg,
    Plus,
    Star,
    Minus,
    Lit(u16),
    Mem(u16),
    Reg(Regs),
    OpenParen,
    CloseParen,
    OpenBracket,
    CloseBracket,
    Question,
    Ident(Seq<char>),
    Ref(Seq<char>),
    InvalidIdent,
    EOF,
    NewLine,
}

impl View for TokenEnum {
    type V = SpecTokenKind;

    open spec fn view(&self) -> SpecTokenKind {
        match self {
            TokenEnum::Whitespace => SpecTokenKind::Whitespace,
            TokenEnum::Comma => SpecTokenKind::Comma,
            TokenEnum::Colon => SpecTokenKind::Colon,
            TokenEnum::Semicolon => SpecTokenKind::Semicolon,
            TokenEnum::Or => SpecTokenKind::Or,
            TokenEnum::And => SpecTokenKind::And,
            TokenEnum::Neg => SpecTokenKind::Neg,
            TokenEnum::Plus => SpecTokenKind::Plus,
            TokenEnum::Star => SpecTokenKind::Star,
            TokenEnum::Minus => SpecTokenKind::Minus,
            TokenEnum::Lit(n) => SpecTokenKind::Lit(*n),
            TokenEnum::Mem(n) => SpecTokenKind::Mem(*n),
            TokenEnum::Reg(r) => SpecTokenKind::Reg(*r),
            TokenEnum::OpenParen => SpecTokenKind::OpenParen,
            TokenEnum::CloseParen => SpecTokenKind::CloseParen,
            TokenEnum::OpenBracket => SpecTokenKind::OpenBracket,
            TokenEnum::CloseBracket => SpecTokenKind::CloseBracket,
            TokenEnum::Question => SpecTokenKind::Question,
            TokenEnum::Ident(s) => SpecTokenKind::Ident(s@),
            TokenEnum::Ref(s) => SpecTokenKind::Ref(s@),
            TokenEnum::InvalidIdent => SpecTokenKind::InvalidIdent,
            TokenEnum::EOF => SpecTokenKind::EOF,
            TokenEnum::NewLine => SpecTokenKind::NewLine,
        }
    }
}

impl DeepView for TokenEnum {
    type V = SpecTokenKind;

    open spec fn deep_view(&self) -> SpecTokenKind {
        self.view()
    }
}

/// An exact copy of a token kind; identifier text is copied character for
/// character.
pub fn clone_token(k: &TokenEnum) -> (r: TokenEnum)
    ensures
        r == *k,
{
    match k {
        TokenEnum::Whitespace => TokenEnum::Whitespace,
        TokenEnum::Comma => TokenEnum::Comma,
        TokenEnum::Colon => TokenEnum::Colon,
        TokenEnum::Semicolon => TokenEnum::Semicolon,
        TokenEnum::Or => TokenEnum::Or,
        TokenEnum::And => TokenEnum::And,
        TokenEnum::Neg => TokenEnum::Neg,
        TokenEnum::Plus => TokenEnum::Plus,
        TokenEnum::Star => TokenEnum::Star,
        TokenEnum::Minus => TokenEnum::Minus,
        TokenEnum::Lit(n) => TokenEnum::Lit(*n),
        TokenEnum::Mem(n) => TokenEnum::Mem(*n),
        TokenEnum::Reg(r) => TokenEnum::Reg(*r),
        TokenEnum::OpenParen => TokenEnum::OpenParen,
        TokenEnum::CloseParen => TokenEnum::CloseParen,
        TokenEnum::OpenBracket => TokenEnum::OpenBracket,
        TokenEnum::CloseBracket => TokenEnum::CloseBracket,
        TokenEnum::Question => TokenEnum::Question,
        TokenEnum::Ident(s) => TokenEnum::Ident(s.clone()),
        TokenEnum::Ref(s) => TokenEnum::Ref(s.clone()),
        TokenEnum::InvalidIdent => TokenEnum::InvalidIdent,
        TokenEnum::EOF => TokenEnum::EOF,
        TokenEnum::NewLine => TokenEnum::NewLine,
    }
}

/// The big-endian byte pair of a 16-bit value: most significant byte first.
pub open spec fn spec_u16_bytes(n: u16) -> (u8, u8) {
    ((n / 256) as u8, (n % 256) as u8)
}

/// Splits a 16-bit value into its big-endian byte pair, most significant
/// byte first; operand serialization uses this layout throughout.
pub fn parse_u16(lit: &u16) -> (r: (u8, u8))
    ensures
        r == spec_u16_bytes(*lit),
{
    ((*lit / 256) as u8, (*lit % 256) as u8)
}

/// The decimal digits of `n`, most significant first.
pub open spec fn spec_dec_digits(n: nat) -> Seq<char>
    decreases n,
{
    if n < 10 {
        seq![spec_digit_char(n)]
    } else {
        spec_dec_digits(n / 10).push(spec_digit_char(n % 10))
    }
}

/// The character for a single decimal digit.
pub open spec fn spec_digit_char(d: nat) -> char {
    ((48 + d) as u8) as char
}

/// The decimal digits of `n`, most significant first.
pub fn dec_chars(n: u16) -> (v: Vec<char>)
    ensures
        v@ == spec_dec_digits(n as nat),
    decreases n,
{
    if n < 10 {
        let mut v: Vec<char> = Vec::new();
        v.push((48 + n as u8) as char);
        proof {
            assert(v@ =~= spec_dec_digits(n as nat));
        }
        v
    } else {
        let mut v = dec_chars(n / 10);
        v.push((48 + (n % 10) as u8) as char);
        v
    }
}

/// The display text of a token, as it appears in diagnostics and in the
/// rendering of expression trees: identifiers and register-indirect operands
/// print their text, numeric operands print in decimal (`&`-prefixed for
/// addresses), registers print their name, and the operator and comma tokens
/// print their single character. Every other kind has no display text and
/// renders as the empty sequence.
pub open spec fn spec_token_text(k: SpecTokenKind) -> Seq<char> {
    match k {
        SpecTokenKind::Ident(s) => s,
        SpecTokenKind::Lit(n) => spec_dec_digits(n as nat),
        SpecTokenKind::Mem(n) => seq!['&'] + spec_dec_digits(n as nat),
        SpecTokenKind::Ref(s) => seq!['&'] + s,
        SpecTokenKind::Reg(r) => spec_reg_name(r),
        SpecTokenKind::Comma => seq![','],
        SpecTokenKind::Plus => seq!['+'],
        SpecTokenKind::Minus => seq!['-'],
        SpecTokenKind::Star => seq!['*'],
        SpecTokenKind::Question => seq!['?'],
        SpecTokenKind::Colon => seq![':'],
        _ => Seq::empty(),
    }
}

/// The display name of a register.
pub open spec fn spec_reg_name(r: Regs) -> Seq<char> {
    match r {
        Regs::ACC => seq!['A', 'C', 'C'],
        Regs::R1 => seq!['R', '1'],
        Regs::R2 => seq!['R', '2'],
        Regs::R3 => seq!['R', '3'],
        Regs::R4 => seq!['R', '4'],
        Regs::R5 => seq!['R', '5'],
        Regs::R6 => seq!['R', '6'],
        Regs::R7 => seq!['R', '7'],
        Regs::R8 => seq!['R', '8'],
    }
}

/// The display text of a token; see [`spec_token_text`].
pub fn token_text(k: &TokenEnum) -> (v: Vec<char>)
    ensures
        v@ == spec_token_text(k@),
{
    match k {
        TokenEnum::Ident(s) => crate::chars::to_char_vec(s.as_str()),
        TokenEnum::Lit(n) => dec_chars(*n),
        TokenEnum::Mem(n) => {
            let mut v: Vec<char> = Vec::new();
            v.push('&');
            let digits = dec_chars(*n);
            proof {
                assert(v@ =~= seq!['&'] + digits@.take(0));
            }
            let mut i: usize = 0;
            while i < digits.len()
                invariant
                    i <= digits@.len(),
                    v@ == seq!['&'] + digits@.take(i as int),
                decreases digits@.len() - i,
            {
                v.push(digits[i]);
                i = i + 1;
                proof {
                    assert(v@ =~= seq!['&'] + digits@.take(i as int));
                }
            }
            proof {
                assert(digits@.take(digits@.len() as int) =~= digits@);
            }
            v
        },
        TokenEnum::Ref(s) => {
            let mut v: Vec<char> = Vec::new();
            v.push('&');
            let name = crate::chars::to_char_vec(s.as_str());
            proof {
                assert(v@ =~= seq!['&'] + name@.take(0));
            }
            let mut i: usize = 0;
            while i < name.len()
                invariant
                    i <= name@.len(),
                    v@ == seq!['&'] + name@.take(i as int),
                decreases name@.len() - i,
            {
                v.push(name[i]);
                i = i + 1;
                proof {
                    assert(v@ =~= seq!['&'] + name@.take(i as int));
                }
            }
            proof {
                assert(name@.take(name@.len() as int) =~= name@);
            }
            v
        },
        TokenEnum::Reg(r) => {
            let mut v: Vec<char> = Vec::new();
            match r {
                Regs::ACC => {
                    v.push('A');
                    v.push('C');
                    v.push('C');
                },
                Regs::R1 => {
                    v.push('R');
                    v.push('1');
                },
                Regs::R2 => {
                    v.push('R');
                    v.push('2');
                },
                Regs::R3 => {
                    v.push('R');
                    v.push('3');
                },
                Regs::R4 => {
                    v.push('R');
                    v.push('4');
                },
                Regs::R5 => {
                    v.push('R');
                    v.push('5');
                },
                Regs::R6 => {
                    v.push('R');
                    v.push('6');
                },
                Regs::R7 => {
                    v.push('R');
                    v.push('7');
                },
                Regs::R8 => {
                    v.push('R');
                    v.push('8');
                },
            }
            proof {
                assert(v@ =~= spec_reg_name(*r));
            }
            v
        },
        TokenEnum::Comma => {
            let mut v: Vec<char> = Vec::new();
            v.push(',');
            proof {
                assert(v@ =~= seq![',']);
            }
            v
        },
        TokenEnum::Plus => {
            let mut v: Vec<char> = Vec::new();
            v.push('+');
            proof {
                assert(v@ =~= seq!['+']);
            }
            v
        },
        TokenEnum::Minus => {
            let mut v: Vec<char> = Vec::new();
            v.push('-');
            proof {
                assert(v@ =~= seq!['-']);
            }
            v
        },
        TokenEnum::Star => {
            let mut v: Vec<char> = Vec::new();
            v.push('*');
            proof {
                assert(v@ =~= seq!['*']);
            }
            v
        },
        TokenEnum::Question => {
            let mut v: Vec<char> = Vec::new();
            v.push('?');
            proof {
                assert(v@ =~= seq!['?']);
            }
            v
        },
        TokenEnum::Colon => {
            let mut v: Vec<char> = Vec::new();
            v.push(':');
            proof {
                assert(v@ =~= seq![':']);
            }
            v
        },
        _ => {
            let v: Vec<char> = Vec::new();
            v
        },
    }
}

} // verus!
