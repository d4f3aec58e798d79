//! The code generator: maps each instruction node's mnemonic and operand
//! shape to an opcode and serializes its operands into bytes.
//!
//! Generation is a pure fold over the instruction sequence: each node
//! independently yields its byte fragment and the fragments are concatenated
//! in program order. The byte layout of every variant is fixed: the opcode
//! byte first, then the operand bytes in left-to-right source order — one
//! byte for a register (its fixed encoding), two bytes for a literal or
//! memory address, most significant byte first.

use vstd::prelude::*;

use crate::ast::{Expr, ExprArgs, ExprKind, SpecExpr, SpecExprArgs};
use crate::common::{parse_u16, reg_code, spec_u16_bytes, Regs, SpecTokenKind, TokenEnum};
use crate::instructions::{ADD_LIT_REG, ADD_REG_REG, CALL_LIT, CALL_REG, DEC_REG, HLT, INC_REG,
    MOV_LIT_MEM, MOV_LIT_OFF_REG, MOV_LIT_REG, MOV_MEM_REG, MOV_REG_MEM, MOV_REG_PTR_REG,
    MOV_REG_REG, MUL_LIT_REG, MUL_REG_REG, POP, PSH_LIT, PSH_REG, RET, SUB_LIT_REG, SUB_REG_LIT,
    SUB_REG_REG};
use crate::parse::{spec_reg_of, ParserHelper};

verus! {

/// The canonicalized kind of one operand token, as the generator's dispatch
/// keys on it: a numeric literal, a memory address, an identifier (a
/// register name, resolved only at generation time), a register-indirect
/// reference, an already-resolved register, or any other token standing in
/// an operand slot.
#[derive(Debug, Clone, Copy, PartialEq, Eq, Structural)]
pub enum OperandKind {
    Literal,
    MemoryAddress,
    Identifier,
    RegisterIndirect,
    Register,
    Other,
}

/// The canonicalized operand-kind tuple of an instruction node: its shape
/// together with the kind of each operand token. `Complex` names the kind of
/// the one trailing operand beside the bracketed expression tree.
#[derive(Debug, Clone, Copy, PartialEq, Eq, Structural)]
pub enum ArgsShape {
    NoArgs,
    Single(OperandKind),
    Complex(OperandKind),
    Double(OperandKind, OperandKind),
    Triple(OperandKind, OperandKind, OperandKind),
}

/// The canonicalized kind of an operand token.
pub open spec fn spec_operand_kind(k: SpecTokenKind) -> OperandKind {
    match k {
        SpecTokenKind::Lit(_) => OperandKind::Literal,
        SpecTokenKind::Mem(_) => OperandKind::MemoryAddress,
        SpecTokenKind::Ident(_) => OperandKind::Identifier,
        SpecTokenKind::Ref(_) => OperandKind::RegisterIndirect,
        SpecTokenKind::Reg(_) => OperandKind::Register,
        _ => OperandKind::Other,
    }
}

/// The canonicalized operand-kind tuple of an operand shape.
pub open spec fn spec_args_shape(args: SpecExprArgs) -> ArgsShape {
    match args {
        SpecExprArgs::NoArgs => ArgsShape::NoArgs,
        SpecExprArgs::Single(a) => ArgsShape::Single(spec_operand_kind(a)),
        SpecExprArgs::Complex(_, a) => ArgsShape::Complex(spec_operand_kind(a)),
        SpecExprArgs::Double(a, b) => ArgsShape::Double(
            spec_operand_kind(a),
            spec_operand_kind(b),
        ),
        SpecExprArgs::Triple(a, b, c) => ArgsShape::Triple(
            spec_operand_kind(a),
            spec_operand_kind(b),
            spec_operand_kind(c),
        ),
    }
}

/// The canonicalized kind of an operand token.
pub fn operand_kind(k: &TokenEnum) -> (r: OperandKind)
    ensures
        r == spec_operand_kind(k@),
{
    match k {
        TokenEnum::Lit(_) => OperandKind::Literal,
        TokenEnum::Mem(_) => OperandKind::MemoryAddress,
        TokenEnum::Ident(_) => OperandKind::Identifier,
        TokenEnum::Ref(_) => OperandKind::RegisterIndirect,
        TokenEnum::Reg(_) => OperandKind::Register,
        _ => OperandKind::Other,
    }
}

/// The canonicalized operand-kind tuple of an operand shape.
pub fn args_shape(args: &ExprArgs) -> (r: ArgsShape)
    ensures
        r == spec_args_shape(args@),
{
    match args {
        ExprArgs::NoArgs => ArgsShape::NoArgs,
        ExprArgs::Single(a) => ArgsShape::Single(operand_kind(a)),
        ExprArgs::Complex(_, a) => ArgsShape::Complex(operand_kind(a)),
        ExprArgs::Double(a, b) => ArgsShape::Double(operand_kind(a), operand_kind(b)),
        ExprArgs::Triple(a, b, c) => ArgsShape::Triple(
            operand_kind(a),
            operand_kind(b),
            operand_kind(c),
        ),
    }
}

/// A generation failure.
///
/// * `Unimplemented` — the mnemonic has no generation routine at all (the
///   logic and jump family, shifts, `not`, and labels);
/// * `UnsupportedArgs` — the mnemonic is generated, but the named
///   mnemonic/operand-kind pairing has no registered opcode;
/// * `InvalidRegister` — an identifier in a register slot names no register.
#[derive(Debug, PartialEq)]
pub enum CodeGenError {
    Unimplemented(ExprKind),
    UnsupportedArgs(ExprKind, ArgsShape),
    InvalidRegister(String),
}

/// The mathematical model of a generation failure.
pub ghost enum SpecCodeGenError {
    Unimplemented(ExprKind),
    UnsupportedArgs(ExprKind, ArgsShape),
    InvalidRegister(Seq<char>),
}

impl View for CodeGenError {
    type V = SpecCodeGenError;

    open spec fn view(&self) -> SpecCodeGenError {
        match self {
            CodeGenError::Unimplemented(k) => SpecCodeGenError::Unimplemented(*k),
            CodeGenError::UnsupportedArgs(k, s) => SpecCodeGenError::UnsupportedArgs(*k, *s),
            CodeGenError::InvalidRegister(name) => SpecCodeGenError::InvalidRegister(name@),
        }
    }
}

/// The bytes of a `mov`, by addressing mode: literal, register, memory,
/// register-indirect and literal-offset forms each select their opcode; any
/// other shape has no registered opcode, and an identifier that names no
/// register fails. Register names resolve left to right.
pub open spec fn spec_gen_mov(args: SpecExprArgs) -> Result<Seq<u8>, SpecCodeGenError> {
    match args {
        SpecExprArgs::Double(SpecTokenKind::Lit(lit), SpecTokenKind::Ident(r)) => match spec_reg_of(
            r,
        ) {
            None => Err(SpecCodeGenError::InvalidRegister(r)),
            Some(reg) => Ok(
                seq![
                    MOV_LIT_REG,
                    spec_u16_bytes(lit).0,
                    spec_u16_bytes(lit).1,
                    reg_code(reg),
                ],
            ),
        },
        SpecExprArgs::Double(SpecTokenKind::Ident(r1), SpecTokenKind::Ident(r2)) => match spec_reg_of(
            r1,
        ) {
            None => Err(SpecCodeGenError::InvalidRegister(r1)),
            Some(reg1) => match spec_reg_of(r2) {
                None => Err(SpecCodeGenError::InvalidRegister(r2)),
                Some(reg2) => Ok(seq![MOV_REG_REG, reg_code(reg1), reg_code(reg2)]),
            },
        },
        SpecExprArgs::Double(SpecTokenKind::Ident(r), SpecTokenKind::Mem(mem)) => match spec_reg_of(
            r,
        ) {
            None => Err(SpecCodeGenError::InvalidRegister(r)),
            Some(reg) => Ok(
                seq![
                    MOV_REG_MEM,
                    reg_code(reg),
                    spec_u16_bytes(mem).0,
                    spec_u16_bytes(mem).1,
                ],
            ),
        },
        SpecExprArgs::Double(SpecTokenKind::Mem(mem), SpecTokenKind::Ident(r)) => match spec_reg_of(
            r,
        ) {
            None => Err(SpecCodeGenError::InvalidRegister(r)),
            Some(reg) => Ok(
                seq![
                    MOV_MEM_REG,
                    spec_u16_bytes(mem).0,
                    spec_u16_bytes(mem).1,
                    reg_code(reg),
                ],
            ),
        },
        SpecExprArgs::Double(SpecTokenKind::Lit(lit), SpecTokenKind::Mem(mem)) => Ok(
            seq![
                MOV_LIT_MEM,
                spec_u16_bytes(lit).0,
                spec_u16_bytes(lit).1,
                spec_u16_bytes(mem).0,
                spec_u16_bytes(mem).1,
            ],
        ),
        SpecExprArgs::Double(SpecTokenKind::Ref(rr), SpecTokenKind::Ident(r)) => match spec_reg_of(
            rr,
        ) {
            None => Err(SpecCodeGenError::InvalidRegister(rr)),
            Some(regref) => match spec_reg_of(r) {
                None => Err(SpecCodeGenError::InvalidRegister(r)),
                Some(reg) => Ok(seq![MOV_REG_PTR_REG, reg_code(regref), reg_code(reg)]),
            },
        },
        SpecExprArgs::Triple(
            SpecTokenKind::Mem(mem),
            SpecTokenKind::Ident(r1),
            SpecTokenKind::Ident(r2),
        ) => match spec_reg_of(r1) {
            None => Err(SpecCodeGenError::InvalidRegister(r1)),
            Some(reg1) => match spec_reg_of(r2) {
                None => Err(SpecCodeGenError::InvalidRegister(r2)),
                Some(reg2) => Ok(
                    seq![
                        MOV_LIT_OFF_REG,
                        spec_u16_bytes(mem).0,
                        spec_u16_bytes(mem).1,
                        reg_code(reg1),
                        reg_code(reg2),
                    ],
                ),
            },
        },
        _ => Err(SpecCodeGenError::UnsupportedArgs(ExprKind::Mov, spec_args_shape(args))),
    }
}

/// The bytes of an `add`: register-register or literal-register.
pub open spec fn spec_gen_add(args: SpecExprArgs) -> Result<Seq<u8>, SpecCodeGenError> {
    match args {
        SpecExprArgs::Double(SpecTokenKind::Ident(r1), SpecTokenKind::Ident(r2)) => match spec_reg_of(
            r1,
        ) {
            None => Err(SpecCodeGenError::InvalidRegister(r1)),
            Some(reg1) => match spec_reg_of(r2) {
                None => Err(SpecCodeGenError::InvalidRegister(r2)),
                Some(reg2) => Ok(seq![ADD_REG_REG, reg_code(reg1), reg_code(reg2)]),
            },
        },
        SpecExprArgs::Double(SpecTokenKind::Lit(lit), SpecTokenKind::Ident(r)) => match spec_reg_of(
            r,
        ) {
            None => Err(SpecCodeGenError::InvalidRegister(r)),
            Some(reg) => Ok(
                seq![
                    ADD_LIT_REG,
                    spec_u16_bytes(lit).0,
                    spec_u16_bytes(lit).1,
                    reg_code(reg),
                ],
            ),
        },
        _ => Err(SpecCodeGenError::UnsupportedArgs(ExprKind::Add, spec_args_shape(args))),
    }
}

/// The bytes of a `sub`: register-register, literal-register, or
/// register-literal.
pub open spec fn spec_gen_sub(args: SpecExprArgs) -> Result<Seq<u8>, SpecCodeGenError> {
    match args {
        SpecExprArgs::Double(SpecTokenKind::Ident(r1), SpecTokenKind::Ident(r2)) => match spec_reg_of(
            r1,
        ) {
            None => Err(SpecCodeGenError::InvalidRegister(r1)),
            Some(reg1) => match spec_reg_of(r2) {
                None => Err(SpecCodeGenError::InvalidRegister(r2)),
                Some(reg2) => Ok(seq![SUB_REG_REG, reg_code(reg1), reg_code(reg2)]),
            },
        },
        SpecExprArgs::Double(SpecTokenKind::Lit(lit), SpecTokenKind::Ident(r)) => match spec_reg_of(
            r,
        ) {
            None => Err(SpecCodeGenError::InvalidRegister(r)),
            Some(reg) => Ok(
                seq![
                    SUB_LIT_REG,
                    spec_u16_bytes(lit).0,
                    spec_u16_bytes(lit).1,
                    reg_code(reg),
                ],
            ),
        },
        SpecExprArgs::Double(SpecTokenKind::Ident(r), SpecTokenKind::Lit(lit)) => match spec_reg_of(
            r,
        ) {
            None => Err(SpecCodeGenError::InvalidRegister(r)),
            Some(reg) => Ok(
                seq![
                    SUB_REG_LIT,
                    reg_code(reg),
                    spec_u16_bytes(lit).0,
                    spec_u16_bytes(lit).1,
                ],
            ),
        },
        _ => Err(SpecCodeGenError::UnsupportedArgs(ExprKind::Sub, spec_args_shape(args))),
    }
}

/// The bytes of a `mul`: register-register or literal-register.
pub open spec fn spec_gen_mul(args: SpecExprArgs) -> Result<Seq<u8>, SpecCodeGenError> {
    match args {
        SpecExprArgs::Double(SpecTokenKind::Ident(r1), SpecTokenKind::Ident(r2)) => match spec_reg_of(
            r1,
        ) {
            None => Err(SpecCodeGenError::InvalidRegister(r1)),
            Some(reg1) => match spec_reg_of(r2) {
                None => Err(SpecCodeGenError::InvalidRegister(r2)),
                Some(reg2) => Ok(seq![MUL_REG_REG, reg_code(reg1), reg_code(reg2)]),
            },
        },
        SpecExprArgs::Double(SpecTokenKind::Lit(lit), SpecTokenKind::Ident(r)) => match spec_reg_of(
            r,
        ) {
            None => Err(SpecCodeGenError::InvalidRegister(r)),
            Some(reg) => Ok(
                seq![
                    MUL_LIT_REG,
                    spec_u16_bytes(lit).0,
                    spec_u16_bytes(lit).1,
                    reg_code(reg),
                ],
            ),
        },
        _ => Err(SpecCodeGenError::UnsupportedArgs(ExprKind::Mul, spec_args_shape(args))),
    }
}

/// The bytes of a `push`: a register or a literal.
pub open spec fn spec_gen_push(args: SpecExprArgs) -> Result<Seq<u8>, SpecCodeGenError> {
    match args {
        SpecExprArgs::Single(SpecTokenKind::Ident(r)) => match spec_reg_of(r) {
            None => Err(SpecCodeGenError::InvalidRegister(r)),
            Some(reg) => Ok(seq![PSH_REG, reg_code(reg)]),
        },
        SpecExprArgs::Single(SpecTokenKind::Lit(lit)) => Ok(
            seq![PSH_LIT, spec_u16_bytes(lit).0, spec_u16_bytes(lit).1],
        ),
        _ => Err(SpecCodeGenError::UnsupportedArgs(ExprKind::Push, spec_args_shape(args))),
    }
}

/// The bytes of a `pop`: a register.
pub open spec fn spec_gen_pop(args: SpecExprArgs) -> Result<Seq<u8>, SpecCodeGenError> {
    match args {
        SpecExprArgs::Single(SpecTokenKind::Ident(r)) => match spec_reg_of(r) {
            None => Err(SpecCodeGenError::InvalidRegister(r)),
            Some(reg) => Ok(seq![POP, reg_code(reg)]),
        },
        _ => Err(SpecCodeGenError::UnsupportedArgs(ExprKind::Pop, spec_args_shape(args))),
    }
}

/// The bytes of a `call`: a register or a literal address.
pub open spec fn spec_gen_call(args: SpecExprArgs) -> Result<Seq<u8>, SpecCodeGenError> {
    match args {
        SpecExprArgs::Single(SpecTokenKind::Ident(r)) => match spec_reg_of(r) {
            None => Err(SpecCodeGenError::InvalidRegister(r)),
            Some(reg) => Ok(seq![CALL_REG, reg_code(reg)]),
        },
        SpecExprArgs::Single(SpecTokenKind::Lit(lit)) => Ok(
            seq![CALL_LIT, spec_u16_bytes(lit).0, spec_u16_bytes(lit).1],
        ),
        _ => Err(SpecCodeGenError::UnsupportedArgs(ExprKind::Call, spec_args_shape(args))),
    }
}

/// The bytes of an `inc`: a register.
pub open spec fn spec_gen_inc(args: SpecExprArgs) -> Result<Seq<u8>, SpecCodeGenError> {
    match args {
        SpecExprArgs::Single(SpecTokenKind::Ident(r)) => match spec_reg_of(r) {
            None => Err(SpecCodeGenError::InvalidRegister(r)),
            Some(reg) => Ok(seq![INC_REG, reg_code(reg)]),
        },
        _ => Err(SpecCodeGenError::UnsupportedArgs(ExprKind::Inc, spec_args_shape(args))),
    }
}

/// The bytes of a `dec`: a register.
pub open spec fn spec_gen_dec(args: SpecExprArgs) -> Result<Seq<u8>, SpecCodeGenError> {
    match args {
        SpecExprArgs::Single(SpecTokenKind::Ident(r)) => match spec_reg_of(r) {
            None => Err(SpecCodeGenError::InvalidRegister(r)),
            Some(reg) => Ok(seq![DEC_REG, reg_code(reg)]),
        },
        _ => Err(SpecCodeGenError::UnsupportedArgs(ExprKind::Dec, spec_args_shape(args))),
    }
}

/// The bytes of one instruction node, dispatched first by mnemonic and then
/// by operand shape. `ret` and `hlt` are bare one-byte opcodes; the logic
/// and jump families, the shifts, `not` and labels have no generation
/// routine and fail as `Unimplemented`.
pub open spec fn spec_gen_expr(e: SpecExpr) -> Result<Seq<u8>, SpecCodeGenError> {
    match e.kind {
        ExprKind::Mov => spec_gen_mov(e.args),
        ExprKind::Add => spec_gen_add(e.args),
        ExprKind::Sub => spec_gen_sub(e.args),
        ExprKind::Mul => spec_gen_mul(e.args),
        ExprKind::Inc => spec_gen_inc(e.args),
        ExprKind::Dec => spec_gen_dec(e.args),
        ExprKind::Push => spec_gen_push(e.args),
        ExprKind::Pop => spec_gen_pop(e.args),
        ExprKind::Call => spec_gen_call(e.args),
        ExprKind::HLT => Ok(seq![HLT]),
        ExprKind::Ret => Ok(seq![RET]),
        _ => Err(SpecCodeGenError::Unimplemented(e.kind)),
    }
}

/// The bytes of a whole program: each node's fragment in order, or the first
/// node's failure.
pub open spec fn spec_generate_from(es: Seq<SpecExpr>, i: int) -> Result<Seq<u8>, SpecCodeGenError>
    decreases es.len() - i,
{
    if i < 0 || i >= es.len() {
        Ok(Seq::empty())
    } else {
        match spec_gen_expr(es[i]) {
            Err(e) => Err(e),
            Ok(bs) => match spec_generate_from(es, i + 1) {
                Err(e) => Err(e),
                Ok(rest) => Ok(bs + rest),
            },
        }
    }
}

/// The bytes of a whole program, from its first instruction.
pub open spec fn spec_generate(es: Seq<SpecExpr>) -> Result<Seq<u8>, SpecCodeGenError> {
    spec_generate_from(es, 0)
}

/// The code generator. It holds no state across instructions; generation is
/// a pure fold over the instruction sequence.
#[derive(Debug)]
pub struct CodeGen;

impl CodeGen {
    pub fn new() -> (c: Self) {
        CodeGen
    }

    /// Serializes a whole instruction sequence into the final byte buffer;
    /// see [`spec_generate`]. The buffer is the concatenation of each
    /// instruction's independent encoding, in program order, with nothing
    /// between; the first failing instruction aborts the whole generation.
    #[verifier::loop_isolation(false)]
    pub fn generate(&mut self, input: &Vec<Expr>) -> (r: Result<Vec<u8>, CodeGenError>)
        ensures
            (match spec_generate(input.deep_view()) {
                Ok(bs) => r matches Ok(v) && v@ == bs,
                Err(e) => r matches Err(x) && x@ == e,
            }),
    {
        let ghost es = input.deep_view();
        let mut out: Vec<u8> = Vec::new();
        let mut i: usize = 0;
        proof {
            assert(out@ =~= Seq::<u8>::empty());
        }
        loop
            invariant
                i <= es.len(),
                es == input.deep_view(),
                (match spec_generate_from(es, i as int) {
                    Ok(rest) => spec_generate_from(es, 0) matches Ok(all) && all == out@ + rest,
                    Err(e) => spec_generate_from(es, 0) == Err::<Seq<u8>, SpecCodeGenError>(e),
                }),
            decreases es.len() - i,
        {
            if i >= input.len() {
                proof {
                    assert(out@ + Seq::<u8>::empty() =~= out@);
                }
                break ;
            }
            let mut bs = match self.gen_expr(&input[i]) {
                Err(e) => {
                    return Err(e);
                },
                Ok(v) => v,
            };
            let ghost pre = out@;
            let ghost frag = bs@;
            out.append(&mut bs);
            i = i + 1;
            proof {
                if spec_generate_from(es, i as int) is Ok {
                    let rest = spec_generate_from(es, i as int)->Ok_0;
                    assert((pre + (frag + rest)) =~= ((pre + frag) + rest));
                }
            }
        }
        Ok(out)
    }

    /// The bytes of one instruction node; see [`spec_gen_expr`].
    pub fn gen_expr(&mut self, expr: &Expr) -> (r: Result<Vec<u8>, CodeGenError>)
        ensures
            (match spec_gen_expr(expr@) {
                Ok(bs) => r matches Ok(v) && v@ == bs,
                Err(e) => r matches Err(x) && x@ == e,
            }),
    {
        match expr.kind {
            ExprKind::Mov => self.gen_mov(&expr.args),
            ExprKind::Add => self.gen_add(&expr.args),
            ExprKind::Sub => self.gen_sub(&expr.args),
            ExprKind::Mul => self.gen_mul(&expr.args),
            ExprKind::Inc => self.gen_inc(&expr.args),
            ExprKind::Dec => self.gen_dec(&expr.args),
            ExprKind::Lsf => self.gen_left_shift(&expr.args),
            ExprKind::Rsf => self.gen_rigth_shift(&expr.args),
            ExprKind::And => self.gen_and(&expr.args),
            ExprKind::Or => self.gen_or(&expr.args),
            ExprKind::Xor => self.gen_xor(&expr.args),
            ExprKind::JmpEQ => self.gen_jmp_eq(&expr.args),
            ExprKind::JmpGT => self.gen_jmp_gt(&expr.args),
            ExprKind::JmpNotEQ => self.gen_jmp_not_eq(&expr.args),
            ExprKind::JmpLT => self.gen_jmp_lt(&expr.args),
            ExprKind::Push => self.gen_push(&expr.args),
            ExprKind::Pop => self.gen_pop(&expr.args),
            ExprKind::HLT => {
                let mut v: Vec<u8> = Vec::new();
                v.push(HLT);
                proof {
                    assert(v@ =~= seq![HLT]);
                }
                Ok(v)
            },
            ExprKind::Call => self.gen_call(&expr.args),
            ExprKind::Ret => {
                let mut v: Vec<u8> = Vec::new();
                v.push(RET);
                proof {
                    assert(v@ =~= seq![RET]);
                }
                Ok(v)
            },
            ExprKind::Not => Err(CodeGenError::Unimplemented(ExprKind::Not)),
            ExprKind::Label => Err(CodeGenError::Unimplemented(ExprKind::Label)),
        }
    }

    /// The bytes of a `mov`; see [`spec_gen_mov`].
    pub fn gen_mov(&mut self, args: &ExprArgs) -> (r: Result<Vec<u8>, CodeGenError>)
        ensures
            (match spec_gen_mov(args@) {
                Ok(bs) => r matches Ok(v) && v@ == bs,
                Err(e) => r matches Err(x) && x@ == e,
            }),
    {
        match args {
            ExprArgs::Double(TokenEnum::Lit(lit), TokenEnum::Ident(mb_reg)) => {
                let reg = match ParserHelper::parse_reg(mb_reg.as_str()) {
                    Ok(reg) => reg,
                    Err(_) => {
                        return Err(CodeGenError::InvalidRegister(mb_reg.clone()));
                    },
                };
                let (lit_h, lit_l) = parse_u16(lit);
                let mut v: Vec<u8> = Vec::new();
                v.push(MOV_LIT_REG);
                v.push(lit_h);
                v.push(lit_l);
                v.push(reg.code());
                proof {
                    assert(v@ =~= spec_gen_mov(args@)->Ok_0);
                }
                Ok(v)
            },
            ExprArgs::Double(TokenEnum::Ident(mb_reg1), TokenEnum::Ident(mb_reg2)) => {
                let reg1 = match ParserHelper::parse_reg(mb_reg1.as_str()) {
                    Ok(reg) => reg,
                    Err(_) => {
                        return Err(CodeGenError::InvalidRegister(mb_reg1.clone()));
                    },
                };
                let reg2 = match ParserHelper::parse_reg(mb_reg2.as_str()) {
                    Ok(reg) => reg,
                    Err(_) => {
                        return Err(CodeGenError::InvalidRegister(mb_reg2.clone()));
                    },
                };
                let mut v: Vec<u8> = Vec::new();
                v.push(MOV_REG_REG);
                v.push(reg1.code());
                v.push(reg2.code());
                proof {
                    assert(v@ =~= spec_gen_mov(args@)->Ok_0);
                }
                Ok(v)
            },
            ExprArgs::Double(TokenEnum::Ident(mb_reg), TokenEnum::Mem(mem)) => {
                let reg = match ParserHelper::parse_reg(mb_reg.as_str()) {
                    Ok(reg) => reg,
                    Err(_) => {
                        return Err(CodeGenError::InvalidRegister(mb_reg.clone()));
                    },
                };
                let (mem_h, mem_l) = parse_u16(mem);
                let mut v: Vec<u8> = Vec::new();
                v.push(MOV_REG_MEM);
                v.push(reg.code());
                v.push(mem_h);
                v.push(mem_l);
                proof {
                    assert(v@ =~= spec_gen_mov(args@)->Ok_0);
                }
                Ok(v)
            },
            ExprArgs::Double(TokenEnum::Mem(mem), TokenEnum::Ident(mb_reg)) => {
                let reg = match ParserHelper::parse_reg(mb_reg.as_str()) {
                    Ok(reg) => reg,
                    Err(_) => {
                        return Err(CodeGenError::InvalidRegister(mb_reg.clone()));
                    },
                };
                let (mem_h, mem_l) = parse_u16(mem);
                let mut v: Vec<u8> = Vec::new();
                v.push(MOV_MEM_REG);
                v.push(mem_h);
                v.push(mem_l);
                v.push(reg.code());
                proof {
                    assert(v@ =~= spec_gen_mov(args@)->Ok_0);
                }
                Ok(v)
            },
            ExprArgs::Double(TokenEnum::Lit(lit), TokenEnum::Mem(mem)) => {
                let (lit_h, lit_l) = parse_u16(lit);
                let (mem_h, mem_l) = parse_u16(mem);
                let mut v: Vec<u8> = Vec::new();
                v.push(MOV_LIT_MEM);
                v.push(lit_h);
                v.push(lit_l);
                v.push(mem_h);
                v.push(mem_l);
                proof {
                    assert(v@ =~= spec_gen_mov(args@)->Ok_0);
                }
                Ok(v)
            },
            ExprArgs::Double(TokenEnum::Ref(mb_regref), TokenEnum::Ident(mb_reg)) => {
                let regref = match ParserHelper::parse_reg(mb_regref.as_str()) {
                    Ok(reg) => reg,
                    Err(_) => {
                        return Err(CodeGenError::InvalidRegister(mb_regref.clone()));
                    },
                };
                let reg = match ParserHelper::parse_reg(mb_reg.as_str()) {
                    Ok(reg) => reg,
                    Err(_) => {
                        return Err(CodeGenError::InvalidRegister(mb_reg.clone()));
                    },
                };
                let mut v: Vec<u8> = Vec::new();
                v.push(MOV_REG_PTR_REG);
                v.push(regref.code());
                v.push(reg.code());
                proof {
                    assert(v@ =~= spec_gen_mov(args@)->Ok_0);
                }
                Ok(v)
            },
            ExprArgs::Triple(
                TokenEnum::Mem(mem),
                TokenEnum::Ident(mb_reg1),
                TokenEnum::Ident(mb_reg2),
            ) => {
                let reg1 = match ParserHelper::parse_reg(mb_reg1.as_str()) {
                    Ok(reg) => reg,
                    Err(_) => {
                        return Err(CodeGenError::InvalidRegister(mb_reg1.clone()));
                    },
                };
                let reg2 = match ParserHelper::parse_reg(mb_reg2.as_str()) {
                    Ok(reg) => reg,
                    Err(_) => {
                        return Err(CodeGenError::InvalidRegister(mb_reg2.clone()));
                    },
                };
                let (mem_h, mem_l) = parse_u16(mem);
                let mut v: Vec<u8> = Vec::new();
                v.push(MOV_LIT_OFF_REG);
                v.push(mem_h);
                v.push(mem_l);
                v.push(reg1.code());
                v.push(reg2.code());
                proof {
                    assert(v@ =~= spec_gen_mov(args@)->Ok_0);
                }
                Ok(v)
            },
            _ => Err(CodeGenError::UnsupportedArgs(ExprKind::Mov, args_shape(args))),
        }
    }

    /// The bytes of an `add`; see [`spec_gen_add`].
    fn gen_add(&self, args: &ExprArgs) -> (r: Result<Vec<u8>, CodeGenError>)
        ensures
            (match spec_gen_add(args@) {
                Ok(bs) => r matches Ok(v) && v@ == bs,
                Err(e) => r matches Err(x) && x@ == e,
            }),
    {
        match args {
            ExprArgs::Double(TokenEnum::Ident(mb_reg1), TokenEnum::Ident(mb_reg2)) => {
                let reg1 = match ParserHelper::parse_reg(mb_reg1.as_str()) {
                    Ok(reg) => reg,
                    Err(_) => {
                        return Err(CodeGenError::InvalidRegister(mb_reg1.clone()));
                    },
                };
                let reg2 = match ParserHelper::parse_reg(mb_reg2.as_str()) {
                    Ok(reg) => reg,
                    Err(_) => {
                        return Err(CodeGenError::InvalidRegister(mb_reg2.clone()));
                    },
                };
                let mut v: Vec<u8> = Vec::new();
                v.push(ADD_REG_REG);
                v.push(reg1.code());
                v.push(reg2.code());
                proof {
                    assert(v@ =~= spec_gen_add(args@)->Ok_0);
                }
                Ok(v)
            },
            ExprArgs::Double(TokenEnum::Lit(lit), TokenEnum::Ident(mb_reg)) => {
                let reg = match ParserHelper::parse_reg(mb_reg.as_str()) {
                    Ok(reg) => reg,
                    Err(_) => {
                        return Err(CodeGenError::InvalidRegister(mb_reg.clone()));
                    },
                };
                let (lit_h, lit_l) = parse_u16(lit);
                let mut v: Vec<u8> = Vec::new();
                v.push(ADD_LIT_REG);
                v.push(lit_h);
                v.push(lit_l);
                v.push(reg.code());
                proof {
                    assert(v@ =~= spec_gen_add(args@)->Ok_0);
                }
                Ok(v)
            },
            _ => Err(CodeGenError::UnsupportedArgs(ExprKind::Add, args_shape(args))),
        }
    }

    /// The bytes of a `sub`; see [`spec_gen_sub`].
    fn gen_sub(&self, args: &ExprArgs) -> (r: Result<Vec<u8>, CodeGenError>)
        ensures
            (match spec_gen_sub(args@) {
                Ok(bs) => r matches Ok(v) && v@ == bs,
                Err(e) => r matches Err(x) && x@ == e,
            }),
    {
        match args {
            ExprArgs::Double(TokenEnum::Ident(mb_reg1), TokenEnum::Ident(mb_reg2)) => {
                let reg1 = match ParserHelper::parse_reg(mb_reg1.as_str()) {
                    Ok(reg) => reg,
                    Err(_) => {
                        return Err(CodeGenError::InvalidRegister(mb_reg1.clone()));
                    },
                };
                let reg2 = match ParserHelper::parse_reg(mb_reg2.as_str()) {
                    Ok(reg) => reg,
                    Err(_) => {
                        return Err(CodeGenError::InvalidRegister(mb_reg2.clone()));
                    },
                };
                let mut v: Vec<u8> = Vec::new();
                v.push(SUB_REG_REG);
                v.push(reg1.code());
                v.push(reg2.code());
                proof {
                    assert(v@ =~= spec_gen_sub(args@)->Ok_0);
                }
                Ok(v)
            },
            ExprArgs::Double(TokenEnum::Lit(lit), TokenEnum::Ident(mb_reg)) => {
                let reg = match ParserHelper::parse_reg(mb_reg.as_str()) {
                    Ok(reg) => reg,
                    Err(_) => {
                        return Err(CodeGenError::InvalidRegister(mb_reg.clone()));
                    },
                };
                let (lit_h, lit_l) = parse_u16(lit);
                let mut v: Vec<u8> = Vec::new();
                v.push(SUB_LIT_REG);
                v.push(lit_h);
                v.push(lit_l);
                v.push(reg.code());
                proof {
                    assert(v@ =~= spec_gen_sub(args@)->Ok_0);
                }
                Ok(v)
            },
            ExprArgs::Double(TokenEnum::Ident(mb_reg), TokenEnum::Lit(lit)) => {
                let reg = match ParserHelper::parse_reg(mb_reg.as_str()) {
                    Ok(reg) => reg,
                    Err(_) => {
                        return Err(CodeGenError::InvalidRegister(mb_reg.clone()));
                    },
                };
                let (lit_h, lit_l) = parse_u16(lit);
                let mut v: Vec<u8> = Vec::new();
                v.push(SUB_REG_LIT);
                v.push(reg.code());
                v.push(lit_h);
                v.push(lit_l);
                proof {
                    assert(v@ =~= spec_gen_sub(args@)->Ok_0);
                }
                Ok(v)
            },
            _ => Err(CodeGenError::UnsupportedArgs(ExprKind::Sub, args_shape(args))),
        }
    }

    /// The bytes of a `mul`; see [`spec_gen_mul`].
    fn gen_mul(&self, args: &ExprArgs) -> (r: Result<Vec<u8>, CodeGenError>)
        ensures
            (match spec_gen_mul(args@) {
                Ok(bs) => r matches Ok(v) && v@ == bs,
                Err(e) => r matches Err(x) && x@ == e,
            }),
    {
        match args {
            ExprArgs::Double(TokenEnum::Ident(mb_reg1), TokenEnum::Ident(mb_reg2)) => {
                let reg1 = match ParserHelper::parse_reg(mb_reg1.as_str()) {
                    Ok(reg) => reg,
                    Err(_) => {
                        return Err(CodeGenError::InvalidRegister(mb_reg1.clone()));
                    },
                };
                let reg2 = match ParserHelper::parse_reg(mb_reg2.as_str()) {
                    Ok(reg) => reg,
                    Err(_) => {
                        return Err(CodeGenError::InvalidRegister(mb_reg2.clone()));
                    },
                };
                let mut v: Vec<u8> = Vec::new();
                v.push(MUL_REG_REG);
                v.push(reg1.code());
                v.push(reg2.code());
                proof {
                    assert(v@ =~= spec_gen_mul(args@)->Ok_0);
                }
                Ok(v)
            },
            ExprArgs::Double(TokenEnum::Lit(lit), TokenEnum::Ident(mb_reg)) => {
                let reg = match ParserHelper::parse_reg(mb_reg.as_str()) {
                    Ok(reg) => reg,
                    Err(_) => {
                        return Err(CodeGenError::InvalidRegister(mb_reg.clone()));
                    },
                };
                let (lit_h, lit_l) = parse_u16(lit);
                let mut v: Vec<u8> = Vec::new();
                v.push(MUL_LIT_REG);
                v.push(lit_h);
                v.push(lit_l);
                v.push(reg.code());
                proof {
                    assert(v@ =~= spec_gen_mul(args@)->Ok_0);
                }
                Ok(v)
            },
            _ => Err(CodeGenError::UnsupportedArgs(ExprKind::Mul, args_shape(args))),
        }
    }

    /// The bytes of a `push`; see [`spec_gen_push`].
    fn gen_push(&self, args: &ExprArgs) -> (r: Result<Vec<u8>, CodeGenError>)
        ensures
            (match spec_gen_push(args@) {
                Ok(bs) => r matches Ok(v) && v@ == bs,
                Err(e) => r matches Err(x) && x@ == e,
            }),
    {
        match args {
            ExprArgs::Single(TokenEnum::Ident(mb_reg)) => {
                let reg = match ParserHelper::parse_reg(mb_reg.as_str()) {
                    Ok(reg) => reg,
                    Err(_) => {
                        return Err(CodeGenError::InvalidRegister(mb_reg.clone()));
                    },
                };
                let mut v: Vec<u8> = Vec::new();
                v.push(PSH_REG);
                v.push(reg.code());
                proof {
                    assert(v@ =~= spec_gen_push(args@)->Ok_0);
                }
                Ok(v)
            },
            ExprArgs::Single(TokenEnum::Lit(lit)) => {
                let (lit_h, lit_l) = parse_u16(lit);
                let mut v: Vec<u8> = Vec::new();
                v.push(PSH_LIT);
                v.push(lit_h);
                v.push(lit_l);
                proof {
                    assert(v@ =~= spec_gen_push(args@)->Ok_0);
                }
                Ok(v)
            },
            _ => Err(CodeGenError::UnsupportedArgs(ExprKind::Push, args_shape(args))),
        }
    }

    /// The bytes of a `pop`; see [`spec_gen_pop`].
    fn gen_pop(&self, args: &ExprArgs) -> (r: Result<Vec<u8>, CodeGenError>)
        ensures
            (match spec_gen_pop(args@) {
                Ok(bs) => r matches Ok(v) && v@ == bs,
                Err(e) => r matches Err(x) && x@ == e,
            }),
    {
        match args {
            ExprArgs::Single(TokenEnum::Ident(mb_reg)) => {
                let reg = match ParserHelper::parse_reg(mb_reg.as_str()) {
                    Ok(reg) => reg,
                    Err(_) => {
                        return Err(CodeGenError::InvalidRegister(mb_reg.clone()));
                    },
                };
                let mut v: Vec<u8> = Vec::new();
                v.push(POP);
                v.push(reg.code());
                proof {
                    assert(v@ =~= spec_gen_pop(args@)->Ok_0);
                }
                Ok(v)
            },
            _ => Err(CodeGenError::UnsupportedArgs(ExprKind::Pop, args_shape(args))),
        }
    }

    /// The bytes of a `call`; see [`spec_gen_call`].
    fn gen_call(&self, args: &ExprArgs) -> (r: Result<Vec<u8>, CodeGenError>)
        ensures
            (match spec_gen_call(args@) {
                Ok(bs) => r matches Ok(v) && v@ == bs,
                Err(e) => r matches Err(x) && x@ == e,
            }),
    {
        match args {
            ExprArgs::Single(TokenEnum::Ident(mb_reg)) => {
                let reg = match ParserHelper::parse_reg(mb_reg.as_str()) {
                    Ok(reg) => reg,
                    Err(_) => {
                        return Err(CodeGenError::InvalidRegister(mb_reg.clone()));
                    },
                };
                let mut v: Vec<u8> = Vec::new();
                v.push(CALL_REG);
                v.push(reg.code());
                proof {
                    assert(v@ =~= spec_gen_call(args@)->Ok_0);
                }
                Ok(v)
            },
            ExprArgs::Single(TokenEnum::Lit(lit)) => {
                let (lit_h, lit_l) = parse_u16(lit);
                let mut v: Vec<u8> = Vec::new();
                v.push(CALL_LIT);
                v.push(lit_h);
                v.push(lit_l);
                proof {
                    assert(v@ =~= spec_gen_call(args@)->Ok_0);
                }
                Ok(v)
            },
            _ => Err(CodeGenError::UnsupportedArgs(ExprKind::Call, args_shape(args))),
        }
    }

    /// The bytes of an `inc`; see [`spec_gen_inc`].
    fn gen_inc(&self, args: &ExprArgs) -> (r: Result<Vec<u8>, CodeGenError>)
        ensures
            (match spec_gen_inc(args@) {
                Ok(bs) => r matches Ok(v) && v@ == bs,
                Err(e) => r matches Err(x) && x@ == e,
            }),
    {
        match args {
            ExprArgs::Single(TokenEnum::Ident(mb_reg)) => {
                let reg = match ParserHelper::parse_reg(mb_reg.as_str()) {
                    Ok(reg) => reg,
                    Err(_) => {
                        return Err(CodeGenError::InvalidRegister(mb_reg.clone()));
                    },
                };
                let mut v: Vec<u8> = Vec::new();
                v.push(INC_REG);
                v.push(reg.code());
                proof {
                    assert(v@ =~= spec_gen_inc(args@)->Ok_0);
                }
                Ok(v)
            },
            _ => Err(CodeGenError::UnsupportedArgs(ExprKind::Inc, args_shape(args))),
        }
    }

    /// The bytes of a `dec`; see [`spec_gen_dec`].
    fn gen_dec(&self, args: &ExprArgs) -> (r: Result<Vec<u8>, CodeGenError>)
        ensures
            (match spec_gen_dec(args@) {
                Ok(bs) => r matches Ok(v) && v@ == bs,
                Err(e) => r matches Err(x) && x@ == e,
            }),
    {
        match args {
            ExprArgs::Single(TokenEnum::Ident(mb_reg)) => {
                let reg = match ParserHelper::parse_reg(mb_reg.as_str()) {
                    Ok(reg) => reg,
                    Err(_) => {
                        return Err(CodeGenError::InvalidRegister(mb_reg.clone()));
                    },
                };
                let mut v: Vec<u8> = Vec::new();
                v.push(DEC_REG);
                v.push(reg.code());
                proof {
                    assert(v@ =~= spec_gen_dec(args@)->Ok_0);
                }
                Ok(v)
            },
            _ => Err(CodeGenError::UnsupportedArgs(ExprKind::Dec, args_shape(args))),
        }
    }

    /// `and` has no generation routine yet.
    fn gen_and(&self, args: &ExprArgs) -> (r: Result<Vec<u8>, CodeGenError>)
        ensures
            r matches Err(e) && e@ == SpecCodeGenError::Unimplemented(ExprKind::And),
    {
        let _ = args;
        Err(CodeGenError::Unimplemented(ExprKind::And))
    }

    /// `or` has no generation routine yet.
    fn gen_or(&self, args: &ExprArgs) -> (r: Result<Vec<u8>, CodeGenError>)
        ensures
            r matches Err(e) && e@ == SpecCodeGenError::Unimplemented(ExprKind::Or),
    {
        let _ = args;
        Err(CodeGenError::Unimplemented(ExprKind::Or))
    }

    /// `xor` has no generation routine yet.
    fn gen_xor(&self, args: &ExprArgs) -> (r: Result<Vec<u8>, CodeGenError>)
        ensures
            r matches Err(e) && e@ == SpecCodeGenError::Unimplemented(ExprKind::Xor),
    {
        let _ = args;
        Err(CodeGenError::Unimplemented(ExprKind::Xor))
    }

    /// `jeq` has no generation routine yet.
    fn gen_jmp_eq(&self, args: &ExprArgs) -> (r: Result<Vec<u8>, CodeGenError>)
        ensures
            r matches Err(e) && e@ == SpecCodeGenError::Unimplemented(ExprKind::JmpEQ),
    {
        let _ = args;
        Err(CodeGenError::Unimplemented(ExprKind::JmpEQ))
    }

    /// `jgt` has no generation routine yet.
    fn gen_jmp_gt(&self, args: &ExprArgs) -> (r: Result<Vec<u8>, CodeGenError>)
        ensures
            r matches Err(e) && e@ == SpecCodeGenError::Unimplemented(ExprKind::JmpGT),
    {
        let _ = args;
        Err(CodeGenError::Unimplemented(ExprKind::JmpGT))
    }

    /// `jne` has no generation routine yet.
    fn gen_jmp_not_eq(&self, args: &ExprArgs) -> (r: Result<Vec<u8>, CodeGenError>)
        ensures
            r matches Err(e) && e@ == SpecCodeGenError::Unimplemented(ExprKind::JmpNotEQ),
    {
        let _ = args;
        Err(CodeGenError::Unimplemented(ExprKind::JmpNotEQ))
    }

    /// `jlt` has no generation routine yet.
    fn gen_jmp_lt(&self, args: &ExprArgs) -> (r: Result<Vec<u8>, CodeGenError>)
        ensures
            r matches Err(e) && e@ == SpecCodeGenError::Unimplemented(ExprKind::JmpLT),
    {
        let _ = args;
        Err(CodeGenError::Unimplemented(ExprKind::JmpLT))
    }

    /// `lsf` has no generation routine yet.
    fn gen_left_shift(&self, args: &ExprArgs) -> (r: Result<Vec<u8>, CodeGenError>)
        ensures
            r matches Err(e) && e@ == SpecCodeGenError::Unimplemented(ExprKind::Lsf),
    {
        let _ = args;
        Err(CodeGenError::Unimplemented(ExprKind::Lsf))
    }

    /// `rsf` has no generation routine yet.
    fn gen_rigth_shift(&self, args: &ExprArgs) -> (r: Result<Vec<u8>, CodeGenError>)
        ensures
            r matches Err(e) && e@ == SpecCodeGenError::Unimplemented(ExprKind::Rsf),
    {
        let _ = args;
        Err(CodeGenError::Unimplemented(ExprKind::Rsf))
    }
}

} // verus!
