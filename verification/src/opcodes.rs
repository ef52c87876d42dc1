//! The opcode table and the operation that each opcode selects.
//!
//! Opcodes are single bytes. The four constant tables list every byte the
//! machine recognises; [`Operation::of`] maps a byte (and, for the byte
//! swaps, the immediate) to the operation it selects.

use vstd::prelude::*;
use crate::memory::Width;

verus! {

/// Opcodes of the 64-bit arithmetic and logic instructions.
#[allow(non_camel_case_types)]
#[non_exhaustive]
pub struct OPCODES;

impl OPCODES {
    pub const ALU64_ADD_IMM: u8 = 0x07;
    pub const ALU64_ADD_REG: u8 = 0x0f;
    pub const ALU64_SUB_IMM: u8 = 0x17;
    pub const ALU64_SUB_REG: u8 = 0x1f;
    pub const ALU64_MUL_IMM: u8 = 0x27;
    pub const ALU64_MUL_REG: u8 = 0x2f;
    pub const ALU64_DIV_IMM: u8 = 0x37;
    pub const ALU64_DIV_REG: u8 = 0x3f;
    pub const ALU64_OR_IMM: u8 = 0x47;
    pub const ALU64_OR_REG: u8 = 0x4f;
    pub const ALU64_AND_IMM: u8 = 0x57;
    pub const ALU64_AND_REG: u8 = 0x5f;
    pub const ALU64_LSH_IMM: u8 = 0x67;
    pub const ALU64_LSH_REG: u8 = 0x6f;
    pub const ALU64_RSH_IMM: u8 = 0x77;
    pub const ALU64_RSH_REG: u8 = 0x7f;
    pub const ALU64_NEG: u8 = 0x87;
    pub const ALU64_MOD_IMM: u8 = 0x97;
    pub const ALU64_MOD_REG: u8 = 0x9f;
    pub const ALU64_XOR_IMM: u8 = 0xa7;
    pub const ALU64_XOR_REG: u8 = 0xaf;
    pub const ALU64_MOV_IMM: u8 = 0xb7;
    pub const ALU64_MOV_REG: u8 = 0xbf;
    pub const ALU64_ARSH_IMM: u8 = 0xc7;
    pub const ALU64_ARSH_REG: u8 = 0xcf;
}

/// Opcodes of the byte-swap instructions. The three widths of each
/// direction share one byte; the immediate (16, 32 or 64) selects the width.
#[allow(non_camel_case_types)]
#[non_exhaustive]
pub struct BYTESWAP_INSTRUCTIONS;

impl BYTESWAP_INSTRUCTIONS {
    pub const BYTESWAP_LE16: u8 = 0xd4;
    pub const BYTESWAP_LE32: u8 = 0xd4;
    pub const BYTESWAP_LE64: u8 = 0xd4;
    pub const BYTESWAP_BE16: u8 = 0xdc;
    pub const BYTESWAP_BE32: u8 = 0xdc;
    pub const BYTESWAP_BE64: u8 = 0xdc;
}

/// Opcodes of the load and store instructions.
#[allow(non_camel_case_types)]
#[non_exhaustive]
pub struct MEMORY_INSTRUCTIONS;

impl MEMORY_INSTRUCTIONS {
    pub const MEM_LDDW: u8 = 0x18;
    pub const MEM_LDABSW: u8 = 0x20;
    pub const MEM_LDABSH: u8 = 0x28;
    pub const MEM_LDABSB: u8 = 0x30;
    pub const MEM_LDABSDW: u8 = 0x38;
    pub const MEM_LDINDW: u8 = 0x40;
    pub const MEM_LDINDH: u8 = 0x48;
    pub const MEM_LDINDB: u8 = 0x50;
    pub const MEM_LDINDDW: u8 = 0x58;
    pub const MEM_LDXW: u8 = 0x61;
    pub const MEM_LDXH: u8 = 0x69;
    pub const MEM_LDXB: u8 = 0x71;
    pub const MEM_LDXDW: u8 = 0x79;
    pub const MEM_STW: u8 = 0x62;
    pub const MEM_STH: u8 = 0x6a;
    pub const MEM_STB: u8 = 0x72;
    pub const MEM_STDW: u8 = 0x7a;
    pub const MEM_STXW: u8 = 0x63;
    pub const MEM_STXH: u8 = 0x6b;
    pub const MEM_STXB: u8 = 0x73;
    pub const MEM_STXDW: u8 = 0x7b;
}

/// Opcodes of the jump, call and exit instructions.
#[allow(non_camel_case_types)]
#[non_exhaustive]
pub struct BRANCH_INSTRUCTIONS;

impl BRANCH_INSTRUCTIONS {
    pub const BRANCH_JA: u8 = 0x05;
    pub const BRANCH_JEQ_IMM: u8 = 0x15;
    pub const BRANCH_JEQ_REG: u8 = 0x1d;
    pub const BRANCH_JGT_IMM: u8 = 0x25;
    pub const BRANCH_JGT_REG: u8 = 0x2d;
    pub const BRANCH_JGE_IMM: u8 = 0x35;
    pub const BRANCH_JGE_REG: u8 = 0x3d;
    pub const BRANCH_JLT_IMM: u8 = 0xa5;
    pub const BRANCH_JLT_REG: u8 = 0xad;
    pub const BRANCH_JLE_IMM: u8 = 0xb5;
    pub const BRANCH_JLE_REG: u8 = 0xbd;
    pub const BRANCH_JSET_IMM: u8 = 0x45;
    pub const BRANCH_JSET_REG: u8 = 0x4d;
    pub const BRANCH_JNE_IMM: u8 = 0x55;
    pub const BRANCH_JNE_REG: u8 = 0x5d;
    pub const BRANCH_JSGT_IMM: u8 = 0x65;
    pub const BRANCH_JSGT_REG: u8 = 0x6d;
    pub const BRANCH_JSGE_IMM: u8 = 0x75;
    pub const BRANCH_JSGE_REG: u8 = 0x7d;
    pub const BRANCH_JSLT_IMM: u8 = 0xc5;
    pub const BRANCH_JSLT_REG: u8 = 0xcd;
    pub const BRANCH_JSLE_IMM: u8 = 0xd5;
    pub const BRANCH_JSLE_REG: u8 = 0xdd;
    pub const BRANCH_CALL: u8 = 0x85;
    pub const BRANCH_EXIT: u8 = 0x95;
}

/// A two-operand arithmetic or logic operation.
#[derive(Clone, Copy, Debug, PartialEq, Eq, Structural)]
pub enum AluOp {
    Add,
    Sub,
    Mul,
    Div,
    Or,
    And,
    Lsh,
    Rsh,
    Mod,
    Xor,
    Mov,
    Arsh,
}

/// Where the second operand of an instruction comes from.
#[derive(Clone, Copy, Debug, PartialEq, Eq, Structural)]
pub enum Operand {
    /// The instruction's immediate, sign-extended to 64 bits.
    Immediate,
    /// The source register.
    Register,
}

/// The comparison that a conditional jump makes between the destination
/// register and its operand.
#[derive(Clone, Copy, Debug, PartialEq, Eq, Structural)]
pub enum Condition {
    Equal,
    Greater,
    GreaterOrEqual,
    Less,
    LessOrEqual,
    AnyBitSet,
    NotEqual,
    SignedGreater,
    SignedGreaterOrEqual,
    SignedLess,
    SignedLessOrEqual,
}

/// The byte order that a byte swap converts to.
#[derive(Clone, Copy, Debug, PartialEq, Eq, Structural)]
pub enum ByteOrder {
    Little,
    Big,
}

/// What an instruction does, as selected by its opcode.
#[derive(Clone, Copy, Debug, PartialEq, Eq, Structural)]
pub enum Operation {
    /// `dest = dest op operand` (`Mov`: `dest = operand`).
    Alu(AluOp, Operand),
    /// `dest = -dest`.
    Negate,
    /// Convert the low bytes of `dest` to a byte order.
    ByteSwap(ByteOrder, Width),
    /// Load a 64-bit immediate that spans two instruction slots.
    LoadWide,
    /// Load from the linear memory at the address given by the immediate.
    LoadAbsolute(Width),
    /// Load from the linear memory at the source register plus the
    /// immediate.
    LoadIndirect(Width),
    /// Load from the linear memory at the source register plus the offset.
    LoadRegister(Width),
    /// Store the immediate at the destination register plus the offset.
    StoreImmediate(Width),
    /// Store the source register at the destination register plus the offset.
    StoreRegister(Width),
    /// Jump unconditionally.
    Jump,
    /// Jump if the condition holds between `dest` and the operand.
    Branch(Condition, Operand),
    /// Call the function that the immediate names.
    Call,
    /// End the run with `r0` as the exit code.
    Exit,
}

/// The arithmetic operation that `opcode` selects, if it is one.
pub open spec fn alu_operation(opcode: u8) -> Option<Operation> {
    if opcode == OPCODES::ALU64_ADD_IMM {
        Some(Operation::Alu(AluOp::Add, Operand::Immediate))
    } else if opcode == OPCODES::ALU64_ADD_REG {
        Some(Operation::Alu(AluOp::Add, Operand::Register))
    } else if opcode == OPCODES::ALU64_SUB_IMM {
        Some(Operation::Alu(AluOp::Sub, Operand::Immediate))
    } else if opcode == OPCODES::ALU64_SUB_REG {
        Some(Operation::Alu(AluOp::Sub, Operand::Register))
    } else if opcode == OPCODES::ALU64_MUL_IMM {
        Some(Operation::Alu(AluOp::Mul, Operand::Immediate))
    } else if opcode == OPCODES::ALU64_MUL_REG {
        Some(Operation::Alu(AluOp::Mul, Operand::Register))
    } else if opcode == OPCODES::ALU64_DIV_IMM {
        Some(Operation::Alu(AluOp::Div, Operand::Immediate))
    } else if opcode == OPCODES::ALU64_DIV_REG {
        Some(Operation::Alu(AluOp::Div, Operand::Register))
    } else if opcode == OPCODES::ALU64_OR_IMM {
        Some(Operation::Alu(AluOp::Or, Operand::Immediate))
    } else if opcode == OPCODES::ALU64_OR_REG {
        Some(Operation::Alu(AluOp::Or, Operand::Register))
    } else if opcode == OPCODES::ALU64_AND_IMM {
        Some(Operation::Alu(AluOp::And, Operand::Immediate))
    } else if opcode == OPCODES::ALU64_AND_REG {
        Some(Operation::Alu(AluOp::And, Operand::Register))
    } else if opcode == OPCODES::ALU64_LSH_IMM {
        Some(Operation::Alu(AluOp::Lsh, Operand::Immediate))
    } else if opcode == OPCODES::ALU64_LSH_REG {
        Some(Operation::Alu(AluOp::Lsh, Operand::Register))
    } else if opcode == OPCODES::ALU64_RSH_IMM {
        Some(Operation::Alu(AluOp::Rsh, Operand::Immediate))
    } else if opcode == OPCODES::ALU64_RSH_REG {
        Some(Operation::Alu(AluOp::Rsh, Operand::Register))
    } else if opcode == OPCODES::ALU64_MOD_IMM {
        Some(Operation::Alu(AluOp::Mod, Operand::Immediate))
    } else if opcode == OPCODES::ALU64_MOD_REG {
        Some(Operation::Alu(AluOp::Mod, Operand::Register))
    } else if opcode == OPCODES::ALU64_XOR_IMM {
        Some(Operation::Alu(AluOp::Xor, Operand::Immediate))
    } else if opcode == OPCODES::ALU64_XOR_REG {
        Some(Operation::Alu(AluOp::Xor, Operand::Register))
    } else if opcode == OPCODES::ALU64_MOV_IMM {
        Some(Operation::Alu(AluOp::Mov, Operand::Immediate))
    } else if opcode == OPCODES::ALU64_MOV_REG {
        Some(Operation::Alu(AluOp::Mov, Operand::Register))
    } else if opcode == OPCODES::ALU64_ARSH_IMM {
        Some(Operation::Alu(AluOp::Arsh, Operand::Immediate))
    } else if opcode == OPCODES::ALU64_ARSH_REG {
        Some(Operation::Alu(AluOp::Arsh, Operand::Register))
    } else if opcode == OPCODES::ALU64_NEG {
        Some(Operation::Negate)
    } else {
        None
    }
}

/// The width that the immediate of a byte swap selects, if it is one of 16,
/// 32 and 64.
pub open spec fn swap_width(imm: i32) -> Option<Width> {
    if imm == 16 {
        Some(Width::Half)
    } else if imm == 32 {
        Some(Width::Word)
    } else if imm == 64 {
        Some(Width::DoubleWord)
    } else {
        None
    }
}

/// The byte swap that `opcode` and `imm` select, if they select one.
pub open spec fn swap_operation(opcode: u8, imm: i32) -> Option<Operation> {
    match swap_width(imm) {
        Some(width) => if opcode == BYTESWAP_INSTRUCTIONS::BYTESWAP_LE64 {
            Some(Operation::ByteSwap(ByteOrder::Little, width))
        } else if opcode == BYTESWAP_INSTRUCTIONS::BYTESWAP_BE64 {
            Some(Operation::ByteSwap(ByteOrder::Big, width))
        } else {
            None
        },
        None => None,
    }
}

/// The load or store that `opcode` selects, if it is one.
pub open spec fn memory_operation(opcode: u8) -> Option<Operation> {
    if opcode == MEMORY_INSTRUCTIONS::MEM_LDDW {
        Some(Operation::LoadWide)
    } else if opcode == MEMORY_INSTRUCTIONS::MEM_LDABSW {
        Some(Operation::LoadAbsolute(Width::Word))
    } else if opcode == MEMORY_INSTRUCTIONS::MEM_LDABSH {
        Some(Operation::LoadAbsolute(Width::Half))
    } else if opcode == MEMORY_INSTRUCTIONS::MEM_LDABSB {
        Some(Operation::LoadAbsolute(Width::Byte))
    } else if opcode == MEMORY_INSTRUCTIONS::MEM_LDABSDW {
        Some(Operation::LoadAbsolute(Width::DoubleWord))
    } else if opcode == MEMORY_INSTRUCTIONS::MEM_LDINDW {
        Some(Operation::LoadIndirect(Width::Word))
    } else if opcode == MEMORY_INSTRUCTIONS::MEM_LDINDH {
        Some(Operation::LoadIndirect(Width::Half))
    } else if opcode == MEMORY_INSTRUCTIONS::MEM_LDINDB {
        Some(Operation::LoadIndirect(Width::Byte))
    } else if opcode == MEMORY_INSTRUCTIONS::MEM_LDINDDW {
        Some(Operation::LoadIndirect(Width::DoubleWord))
    } else if opcode == MEMORY_INSTRUCTIONS::MEM_LDXW {
        Some(Operation::LoadRegister(Width::Word))
    } else if opcode == MEMORY_INSTRUCTIONS::MEM_LDXH {
        Some(Operation::LoadRegister(Width::Half))
    } else if opcode == MEMORY_INSTRUCTIONS::MEM_LDXB {
        Some(Operation::LoadRegister(Width::Byte))
    } else if opcode == MEMORY_INSTRUCTIONS::MEM_LDXDW {
        Some(Operation::LoadRegister(Width::DoubleWord))
    } else if opcode == MEMORY_INSTRUCTIONS::MEM_STW {
        Some(Operation::StoreImmediate(Width::Word))
    } else if opcode == MEMORY_INSTRUCTIONS::MEM_STH {
        Some(Operation::StoreImmediate(Width::Half))
    } else if opcode == MEMORY_INSTRUCTIONS::MEM_STB {
        Some(Operation::StoreImmediate(Width::Byte))
    } else if opcode == MEMORY_INSTRUCTIONS::MEM_STDW {
        Some(Operation::StoreImmediate(Width::DoubleWord))
    } else if opcode == MEMORY_INSTRUCTIONS::MEM_STXW {
        Some(Operation::StoreRegister(Width::Word))
    } else if opcode == MEMORY_INSTRUCTIONS::MEM_STXH {
        Some(Operation::StoreRegister(Width::Half))
    } else if opcode == MEMORY_INSTRUCTIONS::MEM_STXB {
        Some(Operation::StoreRegister(Width::Byte))
    } else if opcode == MEMORY_INSTRUCTIONS::MEM_STXDW {
        Some(Operation::StoreRegister(Width::DoubleWord))
    } else {
        None
    }
}

/// The jump, call or exit that `opcode` selects, if it is one.
pub open spec fn branch_operation(opcode: u8) -> Option<Operation> {
    if opcode == BRANCH_INSTRUCTIONS::BRANCH_JA {
        Some(Operation::Jump)
    } else if opcode == BRANCH_INSTRUCTIONS::BRANCH_JEQ_IMM {
        Some(Operation::Branch(Condition::Equal, Operand::Immediate))
    } else if opcode == BRANCH_INSTRUCTIONS::BRANCH_JEQ_REG {
        Some(Operation::Branch(Condition::Equal, Operand::Register))
    } else if opcode == BRANCH_INSTRUCTIONS::BRANCH_JGT_IMM {
        Some(Operation::Branch(Condition::Greater, Operand::Immediate))
    } else if opcode == BRANCH_INSTRUCTIONS::BRANCH_JGT_REG {
        Some(Operation::Branch(Condition::Greater, Operand::Register))
    } else if opcode == BRANCH_INSTRUCTIONS::BRANCH_JGE_IMM {
        Some(Operation::Branch(Condition::GreaterOrEqual, Operand::Immediate))
    } else if opcode == BRANCH_INSTRUCTIONS::BRANCH_JGE_REG {
        Some(Operation::Branch(Condition::GreaterOrEqual, Operand::Register))
    } else if opcode == BRANCH_INSTRUCTIONS::BRANCH_JLT_IMM {
        Some(Operation::Branch(Condition::Less, Operand::Immediate))
    } else if opcode == BRANCH_INSTRUCTIONS::BRANCH_JLT_REG {
        Some(Operation::Branch(Condition::Less, Operand::Register))
    } else if opcode == BRANCH_INSTRUCTIONS::BRANCH_JLE_IMM {
        Some(Operation::Branch(Condition::LessOrEqual, Operand::Immediate))
    } else if opcode == BRANCH_INSTRUCTIONS::BRANCH_JLE_REG {
        Some(Operation::Branch(Condition::LessOrEqual, Operand::Register))
    } else if opcode == BRANCH_INSTRUCTIONS::BRANCH_JSET_IMM {
        Some(Operation::Branch(Condition::AnyBitSet, Operand::Immediate))
    } else if opcode == BRANCH_INSTRUCTIONS::BRANCH_JSET_REG {
        Some(Operation::Branch(Condition::AnyBitSet, Operand::Register))
    } else if opcode == BRANCH_INSTRUCTIONS::BRANCH_JNE_IMM {
        Some(Operation::Branch(Condition::NotEqual, Operand::Immediate))
    } else if opcode == BRANCH_INSTRUCTIONS::BRANCH_JNE_REG {
        Some(Operation::Branch(Condition::NotEqual, Operand::Register))
    } else if opcode == BRANCH_INSTRUCTIONS::BRANCH_JSGT_IMM {
        Some(Operation::Branch(Condition::SignedGreater, Operand::Immediate))
    } else if opcode == BRANCH_INSTRUCTIONS::BRANCH_JSGT_REG {
        Some(Operation::Branch(Condition::SignedGreater, Operand::Register))
    } else if opcode == BRANCH_INSTRUCTIONS::BRANCH_JSGE_IMM {
        Some(Operation::Branch(Condition::SignedGreaterOrEqual, Operand::Immediate))
    } else if opcode == BRANCH_INSTRUCTIONS::BRANCH_JSGE_REG {
        Some(Operation::Branch(Condition::SignedGreaterOrEqual, Operand::Register))
    } else if opcode == BRANCH_INSTRUCTIONS::BRANCH_JSLT_IMM {
        Some(Operation::Branch(Condition::SignedLess, Operand::Immediate))
    } else if opcode == BRANCH_INSTRUCTIONS::BRANCH_JSLT_REG {
        Some(Operation::Branch(Condition::SignedLess, Operand::Register))
    } else if opcode == BRANCH_INSTRUCTIONS::BRANCH_JSLE_IMM {
        Some(Operation::Branch(Condition::SignedLessOrEqual, Operand::Immediate))
    } else if opcode == BRANCH_INSTRUCTIONS::BRANCH_JSLE_REG {
        Some(Operation::Branch(Condition::SignedLessOrEqual, Operand::Register))
    } else if opcode == BRANCH_INSTRUCTIONS::BRANCH_CALL {
        Some(Operation::Call)
    } else if opcode == BRANCH_INSTRUCTIONS::BRANCH_EXIT {
        Some(Operation::Exit)
    } else {
        None
    }
}

impl Operation {
    /// The operation that an instruction with this opcode and immediate
    /// performs, or `None` if the opcode is not in the tables (or, for a byte
    /// swap, the immediate is not a width).
    pub open spec fn of(opcode: u8, imm: i32) -> Option<Operation> {
        if alu_operation(opcode) is Some {
            alu_operation(opcode)
        } else if memory_operation(opcode) is Some {
            memory_operation(opcode)
        } else if branch_operation(opcode) is Some {
            branch_operation(opcode)
        } else {
            swap_operation(opcode, imm)
        }
    }

    /// Finds the operation that an instruction with this opcode and
    /// immediate performs.
    pub fn decode(opcode: u8, imm: i32) -> (operation: Option<Operation>)
        ensures
            operation == Operation::of(opcode, imm),
    {
        match opcode {
            0x05 => Some(Operation::Jump),
            0x07 => Some(Operation::Alu(AluOp::Add, Operand::Immediate)),
            0x0f => Some(Operation::Alu(AluOp::Add, Operand::Register)),
            0x15 => Some(Operation::Branch(Condition::Equal, Operand::Immediate)),
            0x17 => Some(Operation::Alu(AluOp::Sub, Operand::Immediate)),
            0x18 => Some(Operation::LoadWide),
            0x1d => Some(Operation::Branch(Condition::Equal, Operand::Register)),
            0x1f => Some(Operation::Alu(AluOp::Sub, Operand::Register)),
            0x20 => Some(Operation::LoadAbsolute(Width::Word)),
            0x25 => Some(Operation::Branch(Condition::Greater, Operand::Immediate)),
            0x27 => Some(Operation::Alu(AluOp::Mul, Operand::Immediate)),
            0x28 => Some(Operation::LoadAbsolute(Width::Half)),
            0x2d => Some(Operation::Branch(Condition::Greater, Operand::Register)),
            0x2f => Some(Operation::Alu(AluOp::Mul, Operand::Register)),
            0x30 => Some(Operation::LoadAbsolute(Width::Byte)),
            0x35 => Some(Operation::Branch(Condition::GreaterOrEqual, Operand::Immediate)),
            0x37 => Some(Operation::Alu(AluOp::Div, Operand::Immediate)),
            0x38 => Some(Operation::LoadAbsolute(Width::DoubleWord)),
            0x3d => Some(Operation::Branch(Condition::GreaterOrEqual, Operand::Register)),
            0x3f => Some(Operation::Alu(AluOp::Div, Operand::Register)),
            0x40 => Some(Operation::LoadIndirect(Width::Word)),
            0x45 => Some(Operation::Branch(Condition::AnyBitSet, Operand::Immediate)),
            0x47 => Some(Operation::Alu(AluOp::Or, Operand::Immediate)),
            0x48 => Some(Operation::LoadIndirect(Width::Half)),
            0x4d => Some(Operation::Branch(Condition::AnyBitSet, Operand::Register)),
            0x4f => Some(Operation::Alu(AluOp::Or, Operand::Register)),
            0x50 => Some(Operation::LoadIndirect(Width::Byte)),
            0x55 => Some(Operation::Branch(Condition::NotEqual, Operand::Immediate)),
            0x57 => Some(Operation::Alu(AluOp::And, Operand::Immediate)),
            0x58 => Some(Operation::LoadIndirect(Width::DoubleWord)),
            0x5d => Some(Operation::Branch(Condition::NotEqual, Operand::Register)),
            0x5f => Some(Operation::Alu(AluOp::And, Operand::Register)),
            0x61 => Some(Operation::LoadRegister(Width::Word)),
            0x62 => Some(Operation::StoreImmediate(Width::Word)),
            0x63 => Some(Operation::StoreRegister(Width::Word)),
            0x65 => Some(Operation::Branch(Condition::SignedGreater, Operand::Immediate)),
            0x67 => Some(Operation::Alu(AluOp::Lsh, Operand::Immediate)),
            0x69 => Some(Operation::LoadRegister(Width::Half)),
            0x6a => Some(Operation::StoreImmediate(Width::Half)),
            0x6b => Some(Operation::StoreRegister(Width::Half)),
            0x6d => Some(Operation::Branch(Condition::SignedGreater, Operand::Register)),
            0x6f => Some(Operation::Alu(AluOp::Lsh, Operand::Register)),
            0x71 => Some(Operation::LoadRegister(Width::Byte)),
            0x72 => Some(Operation::StoreImmediate(Width::Byte)),
            0x73 => Some(Operation::StoreRegister(Width::Byte)),
            0x75 => Some(Operation::Branch(Condition::SignedGreaterOrEqual, Operand::Immediate)),
            0x77 => Some(Operation::Alu(AluOp::Rsh, Operand::Immediate)),
            0x79 => Some(Operation::LoadRegister(Width::DoubleWord)),
            0x7a => Some(Operation::StoreImmediate(Width::DoubleWord)),
            0x7b => Some(Operation::StoreRegister(Width::DoubleWord)),
            0x7d => Some(Operation::Branch(Condition::SignedGreaterOrEqual, Operand::Register)),
            0x7f => Some(Operation::Alu(AluOp::Rsh, Operand::Register)),
            0x85 => Some(Operation::Call),
            0x87 => Some(Operation::Negate),
            0x95 => Some(Operation::Exit),
            0x97 => Some(Operation::Alu(AluOp::Mod, Operand::Immediate)),
            0x9f => Some(Operation::Alu(AluOp::Mod, Operand::Register)),
            0xa5 => Some(Operation::Branch(Condition::Less, Operand::Immediate)),
            0xa7 => Some(Operation::Alu(AluOp::Xor, Operand::Immediate)),
            0xad => Some(Operation::Branch(Condition::Less, Operand::Register)),
            0xaf => Some(Operation::Alu(AluOp::Xor, Operand::Register)),
            0xb5 => Some(Operation::Branch(Condition::LessOrEqual, Operand::Immediate)),
            0xb7 => Some(Operation::Alu(AluOp::Mov, Operand::Immediate)),
            0xbd => Some(Operation::Branch(Condition::LessOrEqual, Operand::Register)),
            0xbf => Some(Operation::Alu(AluOp::Mov, Operand::Register)),
            0xc5 => Some(Operation::Branch(Condition::SignedLess, Operand::Immediate)),
            0xc7 => Some(Operation::Alu(AluOp::Arsh, Operand::Immediate)),
            0xcd => Some(Operation::Branch(Condition::SignedLess, Operand::Register)),
            0xcf => Some(Operation::Alu(AluOp::Arsh, Operand::Register)),
            0xd5 => Some(Operation::Branch(Condition::SignedLessOrEqual, Operand::Immediate)),
            0xdd => Some(Operation::Branch(Condition::SignedLessOrEqual, Operand::Register)),
            0xd4 => match Operation::decode_swap_width(imm) {
                Some(width) => Some(Operation::ByteSwap(ByteOrder::Little, width)),
                None => None,
            },
            0xdc => match Operation::decode_swap_width(imm) {
                Some(width) => Some(Operation::ByteSwap(ByteOrder::Big, width)),
                None => None,
            },
            _ => None,
        }
    }

    /// Finds the width that the immediate of a byte swap selects.
    fn decode_swap_width(imm: i32) -> (width: Option<Width>)
        ensures
            width == swap_width(imm),
    {
        match imm {
            16 => Some(Width::Half),
            32 => Some(Width::Word),
            64 => Some(Width::DoubleWord),
            _ => None,
        }
    }
}

} // verus!
