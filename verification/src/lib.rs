//! An assembler for a small register-based virtual machine.
//!
//! Source text flows through three stages: the lexer ([`lexer`]) turns the
//! input into a token stream, the instruction parser ([`parse`]) groups the
//! tokens into typed instruction nodes (with a precedence-climbing sub-parser
//! for bracketed addressing arithmetic), and the code generator ([`codegen`])
//! maps each instruction node to an opcode and serializes its operands into
//! the final byte buffer.

pub mod ast;
pub mod chars;
pub mod codegen;
pub mod common;
pub mod instructions;
pub mod lexer;
pub mod parse;
