use assembler::common::TokenEnum;
use assembler::lexer::{tokenize, tokenize_old, LexerError, Token};

#[test]
fn parse_mov() {
    let tokens: Vec<_> = tokenize_old("mov $10, r2").unwrap();
    assert_eq!(
        tokens,
        vec![
            Token::new(TokenEnum::Ident("mov".into()), 3),
            Token::new(TokenEnum::Whitespace, 1),
            Token::new(TokenEnum::Lit(10), 3),
            Token::new(TokenEnum::Comma, 1),
            Token::new(TokenEnum::Whitespace, 1),
            Token::new(TokenEnum::Ident("r2".into()), 2),
        ]
    );
}

#[test]
fn parse_multiline() {
    let tokens: Vec<_> = tokenize_old("mov $10, r2\nmov &10, acc").unwrap();
    assert_eq!(
        tokens,
        vec![
            Token::new(TokenEnum::Ident("mov".into()), 3),
            Token::new(TokenEnum::Whitespace, 1),
            Token::new(TokenEnum::Lit(10), 3),
            Token::new(TokenEnum::Comma, 1),
            Token::new(TokenEnum::Whitespace, 1),
            Token::new(TokenEnum::Ident("r2".into()), 2),
            Token::new(TokenEnum::NewLine, 1),
            Token::new(TokenEnum::Ident("mov".into()), 3),
            Token::new(TokenEnum::Whitespace, 1),
            Token::new(TokenEnum::Mem(10), 3),
            Token::new(TokenEnum::Comma, 1),
            Token::new(TokenEnum::Whitespace, 1),
            Token::new(TokenEnum::Ident("acc".into()), 3),
        ]
    );
}

#[test]
fn parse_expression() {
    let tokens: Vec<_> = tokenize_old("mov [&1 + !var - $10], acc").unwrap();
    assert_eq!(
        tokens,
        vec![
            Token::new(TokenEnum::Ident("mov".into()), 3),
            Token::new(TokenEnum::Whitespace, 1),
            Token::new(TokenEnum::OpenBracket, 1),
            Token::new(TokenEnum::Mem(1), 2),
            Token::new(TokenEnum::Whitespace, 1),
            Token::new(TokenEnum::Plus, 1),
            Token::new(TokenEnum::Whitespace, 1),
            Token::new(TokenEnum::Neg, 1),
            Token::new(TokenEnum::Ident("var".into()), 3),
            Token::new(TokenEnum::Whitespace, 1),
            Token::new(TokenEnum::Minus, 1),
            Token::new(TokenEnum::Whitespace, 1),
            Token::new(TokenEnum::Lit(10), 3),
            Token::new(TokenEnum::CloseBracket, 1),
            Token::new(TokenEnum::Comma, 1),
            Token::new(TokenEnum::Whitespace, 1),
            Token::new(TokenEnum::Ident("acc".into()), 3),
        ]
    )
}

#[test]
fn register_indirect_token() {
    let tokens: Vec<_> = tokenize_old("&r1").unwrap();
    assert_eq!(tokens, vec![Token::new(TokenEnum::Ref("r1".into()), 3)]);
}

#[test]
fn hex_and_decimal_literals() {
    let tokens: Vec<_> = tokenize_old("$0x000f &0xFF $15").unwrap();
    assert_eq!(
        tokens,
        vec![
            Token::new(TokenEnum::Lit(15), 7),
            Token::new(TokenEnum::Whitespace, 1),
            Token::new(TokenEnum::Mem(255), 5),
            Token::new(TokenEnum::Whitespace, 1),
            Token::new(TokenEnum::Lit(15), 3),
        ]
    );
}

#[test]
fn malformed_numeral_is_invalid_ident() {
    // letters after `$` fail the decimal read; so does a bare `0x` prefix
    // and a 17-bit value
    let tokens: Vec<_> = tokenize_old("$zz").unwrap();
    assert_eq!(
        tokens,
        vec![
            Token::new(TokenEnum::InvalidIdent, 0),
            Token::new(TokenEnum::Ident("zz".into()), 2),
        ]
    );
    let tokens: Vec<_> = tokenize_old("$0x").unwrap();
    assert_eq!(tokens, vec![Token::new(TokenEnum::InvalidIdent, 0)]);
    let tokens: Vec<_> = tokenize_old("$0x10000").unwrap();
    assert_eq!(tokens, vec![Token::new(TokenEnum::InvalidIdent, 0)]);
}

#[test]
fn newline_absorbs_one_tab() {
    let tokens: Vec<_> = tokenize_old("a\n\tb").unwrap();
    assert_eq!(
        tokens,
        vec![
            Token::new(TokenEnum::Ident("a".into()), 1),
            Token::new(TokenEnum::NewLine, 2),
            Token::new(TokenEnum::Ident("b".into()), 1),
        ]
    );
}

#[test]
fn unsupported_character_fails_lexing() {
    assert_eq!(
        tokenize("mov # r2").unwrap_err(),
        LexerError::UnsupportedChar('#')
    );
}

#[test]
fn token_spans_cover_input() {
    // for inputs free of lexical defects, the token lengths sum to the
    // number of source characters
    for input in ["mov $10, r2", "mov [&1 + !var - $10], acc", "a\n\tb", "push $0x10\npop r1"] {
        let tokens = tokenize_old(input).unwrap();
        let total: u32 = tokens.iter().map(|t| t.len).sum();
        assert_eq!(total as usize, input.chars().count());
    }
}
