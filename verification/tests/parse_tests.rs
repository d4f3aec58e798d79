use assembler::ast::{Expr, ExprArgs, ExprKind, S};
use assembler::common::TokenEnum;
use assembler::lexer::tokenize_expr;
use assembler::parse::{InstructionParser, ParserError, ParserHelper};

#[test]
fn tests() {
    let tokens = tokenize_expr("&1").unwrap();
    let (s, _) = InstructionParser::expr_bp(&tokens, 0, 0).unwrap();
    assert_eq!(s.to_string(), "&1");

    let tokens = tokenize_expr("&1 + &2 * &3").unwrap();
    let (s, _) = InstructionParser::expr_bp(&tokens, 0, 0).unwrap();
    assert_eq!(s.to_string(), "(+ &1 (* &2 &3))");

    let tokens = tokenize_expr("a + b * c * d + e").unwrap();
    let (s, _) = InstructionParser::expr_bp(&tokens, 0, 0).unwrap();
    assert_eq!(s.to_string(), "(+ (+ a (* (* b c) d)) e)");

    let tokens = tokenize_expr("--$1 * $2").unwrap();
    let (s, _) = InstructionParser::expr_bp(&tokens, 0, 0).unwrap();
    assert_eq!(s.to_string(), "(* (- (- 1)) 2)");

    let tokens = tokenize_expr("((((($0)))))").unwrap();
    let (s, _) = InstructionParser::expr_bp(&tokens, 0, 0).unwrap();
    assert_eq!(s.to_string(), "0");

    let tokens = tokenize_expr(
        "a ? b :
        c ? d :
        e",
    )
    .unwrap();
    let (s, _) = InstructionParser::expr_bp(&tokens, 0, 0).unwrap();
    assert_eq!(s.to_string(), "(? a b (? c d e))");

    let tokens = tokenize_expr("(&1 + &2) * &3").unwrap();
    let (s, _) = InstructionParser::expr_bp(&tokens, 0, 0).unwrap();
    assert_eq!(s.to_string(), "(* (+ &1 &2) &3)");
}

#[test]
fn parse_expr() {
    let mut parser = InstructionParser::new();
    let parsed = parser.parse("mov $1, $2").unwrap();
    assert_eq!(
        parsed,
        vec![Expr::new(
            ExprKind::Mov,
            ExprArgs::Double(TokenEnum::Lit(1), TokenEnum::Lit(2))
        )]
    );

    let parsed = parser
        .parse(
            "mov $1, r1
            add $0x000f, r1
            not r1",
        )
        .unwrap();
    assert_eq!(
        parsed,
        vec![
            Expr::new(
                ExprKind::Mov,
                ExprArgs::Double(TokenEnum::Lit(1), TokenEnum::Ident("r1".into()))
            ),
            Expr::new(
                ExprKind::Add,
                ExprArgs::Double(TokenEnum::Lit(0x000fu16), TokenEnum::Ident("r1".into()))
            ),
            Expr::new(
                ExprKind::Not,
                ExprArgs::Single(TokenEnum::Ident("r1".into()))
            ),
        ]
    );

    let parsed = parser.parse("mov $1, $1, r1").unwrap();
    assert_eq!(
        parsed,
        vec![Expr::new(
            ExprKind::Mov,
            ExprArgs::Triple(
                TokenEnum::Lit(1),
                TokenEnum::Lit(1),
                TokenEnum::Ident("r1".into())
            )
        )]
    );

    let parsed = parser.parse("mov [$1 + &2], r1").unwrap();
    assert_eq!(
        parsed,
        vec![Expr::new(
            ExprKind::Mov,
            ExprArgs::Complex(
                S::Cons(
                    TokenEnum::Plus,
                    vec![S::Atom(TokenEnum::Lit(1)), S::Atom(TokenEnum::Mem(2))]
                ),
                TokenEnum::Ident("r1".into())
            )
        )]
    );
}

#[test]
fn registers_resolve_stably() {
    // each register name resolves to the same fixed encoding every time
    let names = ["acc", "r1", "r2", "r3", "r4", "r5", "r6", "r7", "r8"];
    for (idx, name) in names.iter().enumerate() {
        let first = ParserHelper::parse_reg(name).unwrap();
        let again = ParserHelper::parse_reg(name).unwrap();
        assert_eq!(first, again);
        assert_eq!(first.code(), (idx + 1) as u8);
    }
    assert!(matches!(
        ParserHelper::parse_reg("r9"),
        Err(ParserError::FailedToParseReg(_))
    ));
}

#[test]
fn reparse_yields_equal_nodes() {
    // re-parsing the same instruction text yields structurally equal
    // instruction-node sequences
    let text = "start:
        mov $1, r1
        mov [&2 + $3], acc
        add r1, r2
        hlt";
    let first = InstructionParser::new().parse(text).unwrap();
    let second = InstructionParser::new().parse(text).unwrap();
    assert_eq!(first, second);
}

#[test]
fn parse_label() {
    let parsed = InstructionParser::new().parse("loop:").unwrap();
    assert_eq!(
        parsed,
        vec![Expr::new(
            ExprKind::Label,
            ExprArgs::Single(TokenEnum::Ident("loop".into()))
        )]
    );
}

#[test]
fn missing_comma_is_reported() {
    let err = InstructionParser::new().parse("add $1 r2").unwrap_err();
    assert!(matches!(err, ParserError::ExpectedToken(_, 0)));
}

#[test]
fn unknown_mnemonic_is_reported() {
    let err = InstructionParser::new().parse("frob $1, r2").unwrap_err();
    match err {
        ParserError::UnknownMnemonic(name, line) => {
            assert_eq!(name, "frob");
            assert_eq!(line, 0);
        }
        other => panic!("unexpected error {:?}", other),
    }
}

#[test]
fn stray_token_is_reported_with_line() {
    let err = InstructionParser::new().parse("hlt\n, r2").unwrap_err();
    match err {
        ParserError::UnknownExpr(msg, line) => {
            // the message joins the offending token and the rest of its line
            assert_eq!(msg, ", r2 ");
            assert_eq!(line, 1);
        }
        other => panic!("unexpected error {:?}", other),
    }
}

#[test]
fn empty_bracket_expression_is_reported() {
    let err = InstructionParser::new().parse("mov [], r1").unwrap_err();
    assert!(matches!(err, ParserError::EmptyExpr));
}

#[test]
fn lexer_failure_surfaces_in_parse() {
    let err = InstructionParser::new().parse("mov %1, r2").unwrap_err();
    assert!(matches!(err, ParserError::Lexer(_)));
}
