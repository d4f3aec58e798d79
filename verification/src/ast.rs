//! Instruction nodes and the expression trees for bracketed addressing.

use vstd::prelude::*;

use crate::common::{SpecTokenKind, TokenEnum};

verus! {

/// The instruction mnemonics.
#[derive(Debug, Clone, Copy, PartialEq, Eq, Structural)]
pub enum ExprKind {
    Mov,
    Add,
    Sub,
    Mul,
    And,
    Or,
    Xor,
    Inc,
    Dec,
    Not,
    Lsf,
    Rsf,
    JmpEQ,
    JmpNotEQ,
    JmpGT,
    JmpLT,
    Push,
    Pop,
    Call,
    Ret,
    HLT,
    Label,
}

/// How many token-level operands an instruction node carries. `Complex` holds
/// the expression tree of a bracketed addressing form together with its one
/// trailing operand. The shape — not the mnemonic alone — selects the opcode
/// variant during generation.
#[derive(Debug, PartialEq)]
pub enum ExprArgs {
    NoArgs,
    Single(TokenEnum),
    Complex(S, TokenEnum),
    Double(TokenEnum, TokenEnum),
    Triple(TokenEnum, TokenEnum, TokenEnum),
}

/// One instruction node: a mnemonic together with its operand shape.
#[derive(Debug, PartialEq)]
pub struct Expr {
    pub kind: ExprKind,
    pub args: ExprArgs,
}

impl Expr {
    pub fn new(kind: ExprKind, args: ExprArgs) -> (e: Self)
        ensures
            e.kind == kind,
            e.args == args,
    {
        Self { kind, args }
    }
}

/// An s-expression tree for bracketed addressing arithmetic: either a single
/// atom token, or an operator token applied to its ordered children (one for
/// a prefix operator, two for an infix, three for the ternary form).
#[derive(Debug, PartialEq)]
pub enum S {
    Atom(TokenEnum),
    Cons(TokenEnum, Vec<S>),
}

/// The mathematical model of an expression tree.
pub ghost enum SpecS {
    Atom(SpecTokenKind),
    Cons(SpecTokenKind, Seq<SpecS>),
}

/// The model of a sequence of child trees, each mapped to its model.
pub open spec fn spec_s_children(cs: Seq<S>) -> Seq<SpecS>
    decreases cs,
{
    if cs.len() == 0 {
        Seq::empty()
    } else {
        proof {
            assert(decreases_to!(cs => cs[cs.len() - 1]));
            assert(decreases_to!(cs => cs.drop_last())) by {
                vstd::seq::axiom_seq_len_decreases(cs, cs.drop_last());
            }
        }
        spec_s_children(cs.drop_last()).push(cs.last()@)
    }
}

impl View for S {
    type V = SpecS;

    open spec fn view(&self) -> SpecS
        decreases self,
    {
        match self {
            S::Atom(t) => SpecS::Atom(t@),
            S::Cons(t, cs) => {
                proof {
                    assert(decreases_to!(self => *cs));
                    assert(decreases_to!(*cs => cs@));
                }
                SpecS::Cons(t@, spec_s_children(cs@))
            },
        }
    }
}

impl DeepView for S {
    type V = SpecS;

    open spec fn deep_view(&self) -> SpecS {
        self.view()
    }
}

/// The model of a child sequence is the pointwise model of its elements.
pub proof fn lemma_s_children(cs: Seq<S>)
    ensures
        spec_s_children(cs).len() == cs.len(),
        forall|i: int| 0 <= i < cs.len() ==> spec_s_children(cs)[i] == cs[i]@,
    decreases cs,
{
    if cs.len() > 0 {
        vstd::seq::axiom_seq_len_decreases(cs, cs.drop_last());
        lemma_s_children(cs.drop_last());
        assert(spec_s_children(cs) == spec_s_children(cs.drop_last()).push(cs.last()@));
        assert forall|i: int| 0 <= i < cs.len() implies spec_s_children(cs)[i] == cs[i]@ by {
            if i < cs.len() - 1 {
                assert(spec_s_children(cs)[i] == spec_s_children(cs.drop_last())[i]);
                assert(cs.drop_last()[i] == cs[i]);
            } else {
                assert(spec_s_children(cs)[i] == cs.last()@);
                assert(cs.last() == cs[i]);
            }
        }
    }
}

/// The rendering of an expression tree: an atom prints its token's display
/// text; an operator node prints `(`, the operator, each child preceded by a
/// space, then `)`.
pub open spec fn spec_s_text(s: SpecS) -> Seq<char>
    decreases s,
{
    match s {
        SpecS::Atom(t) => crate::common::spec_token_text(t),
        SpecS::Cons(t, cs) => seq!['('] + crate::common::spec_token_text(t) + spec_s_list_text(cs)
            + seq![')'],
    }
}

/// The rendering of a list of child trees: each child's text preceded by a
/// space.
pub open spec fn spec_s_list_text(cs: Seq<SpecS>) -> Seq<char>
    decreases cs,
{
    if cs.len() == 0 {
        Seq::empty()
    } else {
        proof {
            assert(decreases_to!(cs => cs[cs.len() - 1]));
            assert(decreases_to!(cs => cs.drop_last())) by {
                vstd::seq::axiom_seq_len_decreases(cs, cs.drop_last());
            }
        }
        spec_s_list_text(cs.drop_last()) + seq![' '] + spec_s_text(cs.last())
    }
}

impl S {
    /// The characters of this tree's rendering; see [`spec_s_text`].
    pub fn text_chars(&self) -> (v: Vec<char>)
        ensures
            v@ == spec_s_text(self@),
        decreases *self,
    {
        match self {
            S::Atom(t) => crate::common::token_text(t),
            S::Cons(t, cs) => {
                let mut v: Vec<char> = Vec::new();
                v.push('(');
                let mut ht = crate::common::token_text(t);
                v.append(&mut ht);
                proof {
                    lemma_s_children(cs@);
                    assert(v@ =~= seq!['('] + crate::common::spec_token_text(t@)
                        + spec_s_list_text(spec_s_children(cs@).take(0)));
                }
                let mut j: usize = 0;
                while j < cs.len()
                    invariant
                        j <= cs@.len(),
                        self is Cons,
                        self->Cons_0 == *t,
                        self->Cons_1 == *cs,
                        spec_s_children(cs@).len() == cs@.len(),
                        forall|i: int|
                            0 <= i < cs@.len() ==> spec_s_children(cs@)[i] == cs@[i]@,
                        v@ == seq!['('] + crate::common::spec_token_text(t@)
                            + spec_s_list_text(spec_s_children(cs@).take(j as int)),
                    decreases cs@.len() - j,
                {
                    v.push(' ');
                    proof {
                        assert(decreases_to!(*self => self->Cons_1));
                        assert(self->Cons_1 == *cs);
                        assert(decreases_to!(*cs => cs@));
                        assert(decreases_to!(cs@ => cs@[j as int]));
                    }
                    let mut ct = cs[j].text_chars();
                    v.append(&mut ct);
                    j = j + 1;
                    proof {
                        let pre = spec_s_children(cs@).take(j - 1);
                        let cur = spec_s_children(cs@).take(j as int);
                        assert(cur.drop_last() =~= pre);
                        assert(cur.last() == cs@[j - 1]@);
                        assert(v@ =~= seq!['('] + crate::common::spec_token_text(t@)
                            + spec_s_list_text(cur));
                    }
                }
                v.push(')');
                proof {
                    assert(spec_s_children(cs@).take(cs@.len() as int) =~= spec_s_children(cs@));
                    assert(v@ =~= spec_s_text(self@));
                }
                v
            },
        }
    }

    /// This tree's rendering as a string; see [`spec_s_text`].
    pub fn to_string(&self) -> (r: String)
        ensures
            r@ == spec_s_text(self@),
    {
        let v = self.text_chars();
        crate::chars::chars_to_string(&v)
    }
}

/// The mathematical model of an operand shape.
pub ghost enum SpecExprArgs {
    NoArgs,
    Single(SpecTokenKind),
    Complex(SpecS, SpecTokenKind),
    Double(SpecTokenKind, SpecTokenKind),
    Triple(SpecTokenKind, SpecTokenKind, SpecTokenKind),
}

impl View for ExprArgs {
    type V = SpecExprArgs;

    open spec fn view(&self) -> SpecExprArgs {
        match self {
            ExprArgs::NoArgs => SpecExprArgs::NoArgs,
            ExprArgs::Single(t) => SpecExprArgs::Single(t@),
            ExprArgs::Complex(s, t) => SpecExprArgs::Complex(s@, t@),
            ExprArgs::Double(a, b) => SpecExprArgs::Double(a@, b@),
            ExprArgs::Triple(a, b, c) => SpecExprArgs::Triple(a@, b@, c@),
        }
    }
}

impl DeepView for ExprArgs {
    type V = SpecExprArgs;

    open spec fn deep_view(&self) -> SpecExprArgs {
        self.view()
    }
}

/// The mathematical model of an instruction node.
pub ghost struct SpecExpr {
    pub kind: ExprKind,
    pub args: SpecExprArgs,
}

impl View for Expr {
    type V = SpecExpr;

    open spec fn view(&self) -> SpecExpr {
        SpecExpr { kind: self.kind, args: self.args@ }
    }
}

impl DeepView for Expr {
    type V = SpecExpr;

    open spec fn deep_view(&self) -> SpecExpr {
        self.view()
    }
}

} // verus!
