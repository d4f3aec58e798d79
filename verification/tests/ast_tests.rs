use assembler::ast::{Expr, ExprArgs, ExprKind, S};
use assembler::common::TokenEnum;

#[test]
fn s_display_atoms() {
    assert_eq!(S::Atom(TokenEnum::Lit(12)).to_string(), "12");
    assert_eq!(S::Atom(TokenEnum::Mem(7)).to_string(), "&7");
    assert_eq!(S::Atom(TokenEnum::Ident("x".into())).to_string(), "x");
}

#[test]
fn s_display_trees() {
    let prefix = S::Cons(
        TokenEnum::Minus,
        vec![S::Atom(TokenEnum::Ident("x".into()))],
    );
    assert_eq!(prefix.to_string(), "(- x)");

    let ternary = S::Cons(
        TokenEnum::Question,
        vec![
            S::Atom(TokenEnum::Ident("a".into())),
            S::Atom(TokenEnum::Lit(1)),
            S::Atom(TokenEnum::Mem(2)),
        ],
    );
    assert_eq!(ternary.to_string(), "(? a 1 &2)");
}

#[test]
fn expr_new_keeps_fields() {
    let e = Expr::new(ExprKind::Push, ExprArgs::Single(TokenEnum::Lit(3)));
    assert_eq!(e.kind, ExprKind::Push);
    assert_eq!(e.args, ExprArgs::Single(TokenEnum::Lit(3)));
}
