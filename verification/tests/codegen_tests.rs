use assembler::codegen::{ArgsShape, CodeGen, CodeGenError, OperandKind};
use assembler::ast::ExprKind;
use assembler::parse::InstructionParser;

#[test]
fn codegen_mov() {
    let mut parser = InstructionParser::new();
    let mut codegen = CodeGen::new();

    let parsed = parser.parse("mov $1, r2").unwrap();
    let generated = codegen.generate(&parsed).unwrap();
    assert_eq!(generated, vec![0x10u8, 0x00u8, 0x01u8, 0x03u8]);

    let parsed = parser.parse("mov &r1, r2").unwrap();
    let generated = codegen.generate(&parsed).unwrap();
    assert_eq!(generated, vec![0x1Cu8, 0x02u8, 0x03u8]);

    let parsed = parser
        .parse(
            "mov $1, r1
        mov &2, r2
        mov r1, r3",
        )
        .unwrap();
    let generated = codegen.generate(&parsed).unwrap();
    assert_eq!(
        generated,
        vec![
            0x10u8, 0x00u8, 0x01u8, 0x02u8, 0x13u8, 0x00u8, 0x02u8, 0x03u8, 0x11u8, 0x02u8, 0x04u8
        ]
    );
}

#[test]
fn codegen_add() {
    let mut parser = InstructionParser::new();
    let mut codegen = CodeGen::new();

    let parsed = parser.parse("add $1, r2").unwrap();
    let generated = codegen.generate(&parsed).unwrap();
    assert_eq!(generated, vec![0x3Fu8, 0x00u8, 0x01u8, 0x03u8]);

    let parsed = parser.parse("add r1, r2").unwrap();
    let generated = codegen.generate(&parsed).unwrap();
    assert_eq!(generated, vec![0x14u8, 0x02u8, 0x03u8]);
}

#[test]
fn codegen_sub() {
    let mut parser = InstructionParser::new();
    let mut codegen = CodeGen::new();

    let parsed = parser.parse("sub $1, r2").unwrap();
    let generated = codegen.generate(&parsed).unwrap();
    assert_eq!(generated, vec![0x16u8, 0x00u8, 0x01u8, 0x03u8]);

    let parsed = parser.parse("sub r1, r2").unwrap();
    let generated = codegen.generate(&parsed).unwrap();
    assert_eq!(generated, vec![0x1Fu8, 0x02u8, 0x03u8]);

    let parsed = parser.parse("sub r1, $1").unwrap();
    let generated = codegen.generate(&parsed).unwrap();
    assert_eq!(generated, vec![0x1Eu8, 0x02u8, 0x00u8, 0x01u8]);
}

#[test]
fn codegen_mul() {
    let mut parser = InstructionParser::new();
    let mut codegen = CodeGen::new();

    let parsed = parser.parse("mul $1, r2").unwrap();
    let generated = codegen.generate(&parsed).unwrap();
    assert_eq!(generated, vec![0x20u8, 0x00u8, 0x01u8, 0x03u8]);

    let parsed = parser.parse("mul r1, r2").unwrap();
    let generated = codegen.generate(&parsed).unwrap();
    assert_eq!(generated, vec![0x21u8, 0x02u8, 0x03u8]);
}

#[test]
fn codegen_stack() {
    let mut parser = InstructionParser::new();
    let mut codegen = CodeGen::new();

    let parsed = parser.parse("push $1").unwrap();
    let generated = codegen.generate(&parsed).unwrap();
    assert_eq!(generated, vec![0x17u8, 0x00u8, 0x01u8]);

    let parsed = parser.parse("push r1").unwrap();
    let generated = codegen.generate(&parsed).unwrap();
    assert_eq!(generated, vec![0x18u8, 0x02u8]);

    let parsed = parser.parse("pop r2").unwrap();
    let generated = codegen.generate(&parsed).unwrap();
    assert_eq!(generated, vec![0x1Au8, 0x03u8]);
}

#[test]
fn codegen_subroutine() {
    let mut parser = InstructionParser::new();
    let mut codegen = CodeGen::new();

    let parsed = parser.parse("call $1").unwrap();
    let generated = codegen.generate(&parsed).unwrap();
    assert_eq!(generated, vec![0x5Eu8, 0x00u8, 0x01u8]);

    let parsed = parser.parse("call r1").unwrap();
    let generated = codegen.generate(&parsed).unwrap();
    assert_eq!(generated, vec![0x5Fu8, 0x02u8]);

    let parsed = parser.parse("ret").unwrap();
    let generated = codegen.generate(&parsed).unwrap();
    assert_eq!(generated, vec![0x60u8]);
}

#[test]
fn codegen_hlt() {
    let mut parser = InstructionParser::new();
    let mut codegen = CodeGen::new();

    let parsed = parser.parse("hlt").unwrap();
    let generated = codegen.generate(&parsed).unwrap();
    assert_eq!(generated, vec![0xFFu8]);
}

#[test]
fn codegen_inc_dec() {
    let mut parser = InstructionParser::new();
    let mut codegen = CodeGen::new();

    let parsed = parser.parse("inc r1").unwrap();
    let generated = codegen.generate(&parsed).unwrap();
    assert_eq!(generated, vec![0x35u8, 0x02u8]);

    let parsed = parser.parse("dec r1").unwrap();
    let generated = codegen.generate(&parsed).unwrap();
    assert_eq!(generated, vec![0x36u8, 0x02u8]);
}

#[test]
fn codegen_mov_memory_forms() {
    let mut parser = InstructionParser::new();
    let mut codegen = CodeGen::new();

    let parsed = parser.parse("mov r1, &16").unwrap();
    let generated = codegen.generate(&parsed).unwrap();
    assert_eq!(generated, vec![0x12u8, 0x02u8, 0x00u8, 0x10u8]);

    let parsed = parser.parse("mov $5, &6").unwrap();
    let generated = codegen.generate(&parsed).unwrap();
    assert_eq!(generated, vec![0x1Bu8, 0x00u8, 0x05u8, 0x00u8, 0x06u8]);

    let parsed = parser.parse("mov &10, r1, r2").unwrap();
    let generated = codegen.generate(&parsed).unwrap();
    assert_eq!(generated, vec![0x1Du8, 0x00u8, 0x0Au8, 0x02u8, 0x03u8]);
}

#[test]
fn codegen_mixed_program_concatenates() {
    // a program mixing mov, add and hlt is the exact concatenation of each
    // instruction's independent encoding, with no extra bytes between
    let mut parser = InstructionParser::new();
    let mut codegen = CodeGen::new();

    let parsed = parser.parse("mov $1, r2\nadd r1, r2\nhlt").unwrap();
    let generated = codegen.generate(&parsed).unwrap();
    assert_eq!(
        generated,
        vec![0x10u8, 0x00u8, 0x01u8, 0x03u8, 0x14u8, 0x02u8, 0x03u8, 0xFFu8]
    );
}

#[test]
fn codegen_unsupported_operand_shape() {
    let mut parser = InstructionParser::new();
    let mut codegen = CodeGen::new();

    // pop takes a register, not a literal
    let parsed = parser.parse("pop $1").unwrap();
    let err = codegen.generate(&parsed).unwrap_err();
    assert_eq!(
        err,
        CodeGenError::UnsupportedArgs(ExprKind::Pop, ArgsShape::Single(OperandKind::Literal))
    );

    // a bracketed mov has no registered opcode
    let parsed = parser.parse("mov [$1 + &2], r1").unwrap();
    let err = codegen.generate(&parsed).unwrap_err();
    assert_eq!(
        err,
        CodeGenError::UnsupportedArgs(ExprKind::Mov, ArgsShape::Complex(OperandKind::Identifier))
    );

    // a literal destination for a literal mov has no registered opcode
    let parsed = parser.parse("mov $1, $2").unwrap();
    let err = codegen.generate(&parsed).unwrap_err();
    assert_eq!(
        err,
        CodeGenError::UnsupportedArgs(
            ExprKind::Mov,
            ArgsShape::Double(OperandKind::Literal, OperandKind::Literal)
        )
    );
}

#[test]
fn codegen_invalid_register() {
    let mut parser = InstructionParser::new();
    let mut codegen = CodeGen::new();

    let parsed = parser.parse("inc r9").unwrap();
    let err = codegen.generate(&parsed).unwrap_err();
    assert_eq!(err, CodeGenError::InvalidRegister("r9".into()));
}

#[test]
fn codegen_unimplemented_mnemonic() {
    let mut parser = InstructionParser::new();
    let mut codegen = CodeGen::new();

    let parsed = parser.parse("xor r1, r2").unwrap();
    let err = codegen.generate(&parsed).unwrap_err();
    assert_eq!(err, CodeGenError::Unimplemented(ExprKind::Xor));

    let parsed = parser.parse("here:").unwrap();
    let err = codegen.generate(&parsed).unwrap_err();
    assert_eq!(err, CodeGenError::Unimplemented(ExprKind::Label));
}

#[test]
fn codegen_hex_literal() {
    let mut parser = InstructionParser::new();
    let mut codegen = CodeGen::new();

    let parsed = parser.parse("push $0x10").unwrap();
    let generated = codegen.generate(&parsed).unwrap();
    assert_eq!(generated, vec![0x17u8, 0x00u8, 0x10u8]);
}
