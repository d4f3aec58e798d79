//! The instruction set: one opcode byte per mnemonic and addressing-mode
//! combination. These values are the versioned binary contract of the target
//! machine; renumbering any of them changes the binary format.

use vstd::prelude::*;

verus! {

/// `mov $lit, reg`
pub const MOV_LIT_REG: u8 = 0x10;

/// `mov reg, reg`
pub const MOV_REG_REG: u8 = 0x11;

/// `mov reg, &mem`
pub const MOV_REG_MEM: u8 = 0x12;

/// `mov &mem, reg`
pub const MOV_MEM_REG: u8 = 0x13;

/// `add reg, reg`
pub const ADD_REG_REG: u8 = 0x14;

/// `sub $lit, reg`
pub const SUB_LIT_REG: u8 = 0x16;

/// `push $lit`
pub const PSH_LIT: u8 = 0x17;

/// `push reg`
pub const PSH_REG: u8 = 0x18;

/// `pop reg`
pub const POP: u8 = 0x1A;

/// `mov $lit, &mem`
pub const MOV_LIT_MEM: u8 = 0x1B;

/// `mov &reg, reg` — register-indirect source
pub const MOV_REG_PTR_REG: u8 = 0x1C;

/// `mov &mem, reg, reg` — the literal-offset move
pub const MOV_LIT_OFF_REG: u8 = 0x1D;

/// `sub reg, $lit`
pub const SUB_REG_LIT: u8 = 0x1E;

/// `sub reg, reg`
pub const SUB_REG_REG: u8 = 0x1F;

/// `mul $lit, reg`
pub const MUL_LIT_REG: u8 = 0x20;

/// `mul reg, reg`
pub const MUL_REG_REG: u8 = 0x21;

/// `inc reg`
pub const INC_REG: u8 = 0x35;

/// `dec reg`
pub const DEC_REG: u8 = 0x36;

/// `add $lit, reg`
pub const ADD_LIT_REG: u8 = 0x3F;

/// `call $lit`
pub const CALL_LIT: u8 = 0x5E;

/// `call reg`
pub const CALL_REG: u8 = 0x5F;

/// `ret`
pub const RET: u8 = 0x60;

/// `hlt`
pub const HLT: u8 = 0xFF;

} // verus!
