use super::types::{Block, BlockType, ValueType};
use vstd::prelude::*;

verus! {

/// The opcodes that this runtime knows, one per instruction.
/// <https://webassembly.github.io/spec/core/binary/instructions.html>
#[derive(Debug, Clone, Copy, PartialEq, Eq, Structural)]
pub enum Opcode {
    Unreachable,
    Nop,
    Block,
    Loop,
    If,
    Else,
    End,
    Br,
    BrIf,
    BrTable,
    Return,
    Call,
    CallIndirect,
    Drop,
    Select,
    LocalGet,
    LocalSet,
    LocalTee,
    GlobalGet,
    GlobalSet,
    I32Load,
    I64Load,
    F32Load,
    F64Load,
    I32Load8S,
    I32Load8U,
    I32Load16S,
    I32Load16U,
    I64Load8S,
    I64Load8U,
    I64Load16S,
    I64Load16U,
    I64Load32S,
    I64Load32U,
    I32Store,
    I64Store,
    F32Store,
    F64Store,
    I32Store8,
    I32Store16,
    I64Store8,
    I64Store16,
    I64Store32,
    MemorySize,
    MemoryGrow,
    I32Const,
    I64Const,
    F32Const,
    F64Const,
    I32Eqz,
    I32Eq,
    I32Ne,
    I32LtS,
    I32LtU,
    I32GtS,
    I32GtU,
    I32LeS,
    I32LeU,
    I32GeS,
    I32GeU,
    I64Eqz,
    I64Eq,
    I64Ne,
    I64LtS,
    I64LtU,
    I64GtS,
    I64GtU,
    I64LeS,
    I64LeU,
    I64GeS,
    I64GeU,
    F32Eq,
    F32Ne,
    F32Lt,
    F32Gt,
    F32Le,
    F32Ge,
    F64Eq,
    F64Ne,
    F64Lt,
    F64Gt,
    F64Le,
    F64Ge,
    I32Clz,
    I32Ctz,
    I32Popcnt,
    I32Add,
    I32Sub,
    I32Mul,
    I32DivS,
    I32DivU,
    I32RemS,
    I32RemU,
    I32And,
    I32Or,
    I32Xor,
    I32ShL,
    I32ShrS,
    I32ShrU,
    I32RtoL,
    I32RtoR,
    I64Clz,
    I64Ctz,
    I64Popcnt,
    I64Add,
    I64Sub,
    I64Mul,
    I64DivS,
    I64DivU,
    I64RemS,
    I64RemU,
    I64And,
    I64Or,
    I64Xor,
    I64ShL,
    I64ShrS,
    I64ShrU,
    I64RtoL,
    I64RtoR,
    F32Abs,
    F32Neg,
    F32Ceil,
    F32Floor,
    F32Trunc,
    F32Nearest,
    F32Sqrt,
    F32Add,
    F32Sub,
    F32Mul,
    F32Div,
    F32Min,
    F32Max,
    F32Copysign,
    F64Abs,
    F64Neg,
    F64Ceil,
    F64Floor,
    F64Trunc,
    F64Nearest,
    F64Sqrt,
    F64Add,
    F64Sub,
    F64Mul,
    F64Div,
    F64Min,
    F64Max,
    F64Copysign,
    I32WrapI64,
    I32TruncF32S,
    I32TruncF32U,
    I32TruncF64S,
    I32TruncF64U,
    I64ExtendI32S,
    I64ExtendI32U,
    I64TruncF32S,
    I64TruncF32U,
    I64TruncF64S,
    I64TruncF64U,
    F32ConvertI32S,
    F32ConvertI32U,
    F32ConvertI64S,
    F32ConvertI64U,
    F32DemoteF64,
    F64ConvertI32S,
    F64ConvertI32U,
    F64ConvertI64S,
    F64ConvertI64U,
    F64PromoteF32,
    I32ReinterpretF32,
    I64ReinterpretF64,
    F32ReinterpretI32,
    F64ReinterpretI64,
    I32Extend8S,
    I32Extend16S,
    I64Extend8S,
    I64Extend16S,
    I64Extend32S,
}

/// What follows an opcode in the binary format.
#[derive(Debug, Clone, Copy, PartialEq, Eq, Structural)]
pub enum ImmediateKind {
    /// nothing
    Nothing,
    /// one unsigned LEB128 index
    Index,
    /// two unsigned LEB128 indices (type index, then table index)
    TwoIndices,
    /// a block type byte
    BlockType,
    /// a vector of label indices and a default label
    LabelTable,
    /// alignment and offset of a memory access
    MemArg,
    /// a memory index byte, skipped
    MemIndex,
    /// a signed LEB128 32-bit constant
    I32,
    /// a signed LEB128 64-bit constant
    I64,
    /// four little-endian bytes
    F32,
    /// eight little-endian bytes
    F64,
}

/// The byte that encodes an opcode.
pub open spec fn opcode_byte(op: Opcode) -> u8 {
    match op {
        Opcode::Unreachable => 0x00,
        Opcode::Nop => 0x01,
        Opcode::Block => 0x02,
        Opcode::Loop => 0x03,
        Opcode::If => 0x04,
        Opcode::Else => 0x05,
        Opcode::End => 0x0b,
        Opcode::Br => 0x0c,
        Opcode::BrIf => 0x0d,
        Opcode::BrTable => 0x0e,
        Opcode::Return => 0x0f,
        Opcode::Call => 0x10,
        Opcode::CallIndirect => 0x11,
        Opcode::Drop => 0x1a,
        Opcode::Select => 0x1b,
        Opcode::LocalGet => 0x20,
        Opcode::LocalSet => 0x21,
        Opcode::LocalTee => 0x22,
        Opcode::GlobalGet => 0x23,
        Opcode::GlobalSet => 0x24,
        Opcode::I32Load => 0x28,
        Opcode::I64Load => 0x29,
        Opcode::F32Load => 0x2a,
        Opcode::F64Load => 0x2b,
        Opcode::I32Load8S => 0x2c,
        Opcode::I32Load8U => 0x2d,
        Opcode::I32Load16S => 0x2e,
        Opcode::I32Load16U => 0x2f,
        Opcode::I64Load8S => 0x30,
        Opcode::I64Load8U => 0x31,
        Opcode::I64Load16S => 0x32,
        Opcode::I64Load16U => 0x33,
        Opcode::I64Load32S => 0x34,
        Opcode::I64Load32U => 0x35,
        Opcode::I32Store => 0x36,
        Opcode::I64Store => 0x37,
        Opcode::F32Store => 0x38,
        Opcode::F64Store => 0x39,
        Opcode::I32Store8 => 0x3a,
        Opcode::I32Store16 => 0x3b,
        Opcode::I64Store8 => 0x3c,
        Opcode::I64Store16 => 0x3d,
        Opcode::I64Store32 => 0x3e,
        Opcode::MemorySize => 0x3f,
        Opcode::MemoryGrow => 0x40,
        Opcode::I32Const => 0x41,
        Opcode::I64Const => 0x42,
        Opcode::F32Const => 0x43,
        Opcode::F64Const => 0x44,
        Opcode::I32Eqz => 0x45,
        Opcode::I32Eq => 0x46,
        Opcode::I32Ne => 0x47,
        Opcode::I32LtS => 0x48,
        Opcode::I32LtU => 0x49,
        Opcode::I32GtS => 0x4a,
        Opcode::I32GtU => 0x4b,
        Opcode::I32LeS => 0x4c,
        Opcode::I32LeU => 0x4d,
        Opcode::I32GeS => 0x4e,
        Opcode::I32GeU => 0x4f,
        Opcode::I64Eqz => 0x50,
        Opcode::I64Eq => 0x51,
        Opcode::I64Ne => 0x52,
        Opcode::I64LtS => 0x53,
        Opcode::I64LtU => 0x54,
        Opcode::I64GtS => 0x55,
        Opcode::I64GtU => 0x56,
        Opcode::I64LeS => 0x57,
        Opcode::I64LeU => 0x58,
        Opcode::I64GeS => 0x59,
        Opcode::I64GeU => 0x5a,
        Opcode::F32Eq => 0x5b,
        Opcode::F32Ne => 0x5c,
        Opcode::F32Lt => 0x5d,
        Opcode::F32Gt => 0x5e,
        Opcode::F32Le => 0x5f,
        Opcode::F32Ge => 0x60,
        Opcode::F64Eq => 0x61,
        Opcode::F64Ne => 0x62,
        Opcode::F64Lt => 0x63,
        Opcode::F64Gt => 0x64,
        Opcode::F64Le => 0x65,
        Opcode::F64Ge => 0x66,
        Opcode::I32Clz => 0x67,
        Opcode::I32Ctz => 0x68,
        Opcode::I32Popcnt => 0x69,
        Opcode::I32Add => 0x6a,
        Opcode::I32Sub => 0x6b,
        Opcode::I32Mul => 0x6c,
        Opcode::I32DivS => 0x6d,
        Opcode::I32DivU => 0x6e,
        Opcode::I32RemS => 0x6f,
        Opcode::I32RemU => 0x70,
        Opcode::I32And => 0x71,
        Opcode::I32Or => 0x72,
        Opcode::I32Xor => 0x73,
        Opcode::I32ShL => 0x74,
        Opcode::I32ShrS => 0x75,
        Opcode::I32ShrU => 0x76,
        Opcode::I32RtoL => 0x77,
        Opcode::I32RtoR => 0x78,
        Opcode::I64Clz => 0x79,
        Opcode::I64Ctz => 0x7a,
        Opcode::I64Popcnt => 0x7b,
        Opcode::I64Add => 0x7c,
        Opcode::I64Sub => 0x7d,
        Opcode::I64Mul => 0x7e,
        Opcode::I64DivS => 0x7f,
        Opcode::I64DivU => 0x80,
        Opcode::I64RemS => 0x81,
        Opcode::I64RemU => 0x82,
        Opcode::I64And => 0x83,
        Opcode::I64Or => 0x84,
        Opcode::I64Xor => 0x85,
        Opcode::I64ShL => 0x86,
        Opcode::I64ShrS => 0x87,
        Opcode::I64ShrU => 0x88,
        Opcode::I64RtoL => 0x89,
        Opcode::I64RtoR => 0x8a,
        Opcode::F32Abs => 0x8b,
        Opcode::F32Neg => 0x8c,
        Opcode::F32Ceil => 0x8d,
        Opcode::F32Floor => 0x8e,
        Opcode::F32Trunc => 0x8f,
        Opcode::F32Nearest => 0x90,
        Opcode::F32Sqrt => 0x91,
        Opcode::F32Add => 0x92,
        Opcode::F32Sub => 0x93,
        Opcode::F32Mul => 0x94,
        Opcode::F32Div => 0x95,
        Opcode::F32Min => 0x96,
        Opcode::F32Max => 0x97,
        Opcode::F32Copysign => 0x98,
        Opcode::F64Abs => 0x99,
        Opcode::F64Neg => 0x9a,
        Opcode::F64Ceil => 0x9b,
        Opcode::F64Floor => 0x9c,
        Opcode::F64Trunc => 0x9d,
        Opcode::F64Nearest => 0x9e,
        Opcode::F64Sqrt => 0x9f,
        Opcode::F64Add => 0xa0,
        Opcode::F64Sub => 0xa1,
        Opcode::F64Mul => 0xa2,
        Opcode::F64Div => 0xa3,
        Opcode::F64Min => 0xa4,
        Opcode::F64Max => 0xa5,
        Opcode::F64Copysign => 0xa6,
        Opcode::I32WrapI64 => 0xa7,
        Opcode::I32TruncF32S => 0xa8,
        Opcode::I32TruncF32U => 0xa9,
        Opcode::I32TruncF64S => 0xaa,
        Opcode::I32TruncF64U => 0xab,
        Opcode::I64ExtendI32S => 0xac,
        Opcode::I64ExtendI32U => 0xad,
        Opcode::I64TruncF32S => 0xae,
        Opcode::I64TruncF32U => 0xaf,
        Opcode::I64TruncF64S => 0xb0,
        Opcode::I64TruncF64U => 0xb1,
        Opcode::F32ConvertI32S => 0xb2,
        Opcode::F32ConvertI32U => 0xb3,
        Opcode::F32ConvertI64S => 0xb4,
        Opcode::F32ConvertI64U => 0xb5,
        Opcode::F32DemoteF64 => 0xb6,
        Opcode::F64ConvertI32S => 0xb7,
        Opcode::F64ConvertI32U => 0xb8,
        Opcode::F64ConvertI64S => 0xb9,
        Opcode::F64ConvertI64U => 0xba,
        Opcode::F64PromoteF32 => 0xbb,
        Opcode::I32ReinterpretF32 => 0xbc,
        Opcode::I64ReinterpretF64 => 0xbd,
        Opcode::F32ReinterpretI32 => 0xbe,
        Opcode::F64ReinterpretI64 => 0xbf,
        Opcode::I32Extend8S => 0xc0,
        Opcode::I32Extend16S => 0xc1,
        Opcode::I64Extend8S => 0xc2,
        Opcode::I64Extend16S => 0xc3,
        Opcode::I64Extend32S => 0xc4,
    }
}

/// The kind of immediate that follows an opcode.
pub open spec fn opcode_immediate(op: Opcode) -> ImmediateKind {
    match op {
        Opcode::Block => ImmediateKind::BlockType,
        Opcode::Loop => ImmediateKind::BlockType,
        Opcode::If => ImmediateKind::BlockType,
        Opcode::Br => ImmediateKind::Index,
        Opcode::BrIf => ImmediateKind::Index,
        Opcode::BrTable => ImmediateKind::LabelTable,
        Opcode::Call => ImmediateKind::Index,
        Opcode::CallIndirect => ImmediateKind::TwoIndices,
        Opcode::LocalGet => ImmediateKind::Index,
        Opcode::LocalSet => ImmediateKind::Index,
        Opcode::LocalTee => ImmediateKind::Index,
        Opcode::GlobalGet => ImmediateKind::Index,
        Opcode::GlobalSet => ImmediateKind::Index,
        Opcode::I32Load => ImmediateKind::MemArg,
        Opcode::I64Load => ImmediateKind::MemArg,
        Opcode::F32Load => ImmediateKind::MemArg,
        Opcode::F64Load => ImmediateKind::MemArg,
        Opcode::I32Load8S => ImmediateKind::MemArg,
        Opcode::I32Load8U => ImmediateKind::MemArg,
        Opcode::I32Load16S => ImmediateKind::MemArg,
        Opcode::I32Load16U => ImmediateKind::MemArg,
        Opcode::I64Load8S => ImmediateKind::MemArg,
        Opcode::I64Load8U => ImmediateKind::MemArg,
        Opcode::I64Load16S => ImmediateKind::MemArg,
        Opcode::I64Load16U => ImmediateKind::MemArg,
        Opcode::I64Load32S => ImmediateKind::MemArg,
        Opcode::I64Load32U => ImmediateKind::MemArg,
        Opcode::I32Store => ImmediateKind::MemArg,
        Opcode::I64Store => ImmediateKind::MemArg,
        Opcode::F32Store => ImmediateKind::MemArg,
        Opcode::F64Store => ImmediateKind::MemArg,
        Opcode::I32Store8 => ImmediateKind::MemArg,
        Opcode::I32Store16 => ImmediateKind::MemArg,
        Opcode::I64Store8 => ImmediateKind::MemArg,
        Opcode::I64Store16 => ImmediateKind::MemArg,
        Opcode::I64Store32 => ImmediateKind::MemArg,
        Opcode::MemorySize => ImmediateKind::MemIndex,
        Opcode::MemoryGrow => ImmediateKind::Index,
        Opcode::I32Const => ImmediateKind::I32,
        Opcode::I64Const => ImmediateKind::I64,
        Opcode::F32Const => ImmediateKind::F32,
        Opcode::F64Const => ImmediateKind::F64,
        _ => ImmediateKind::Nothing,
    }
}

/// The opcode that a byte encodes, if any.
pub open spec fn spec_opcode_from_byte(b: u8) -> Option<Opcode> {
    if b == 0x00 {
        Some(Opcode::Unreachable)
    } else if b == 0x01 {
        Some(Opcode::Nop)
    } else if b == 0x02 {
        Some(Opcode::Block)
    } else if b == 0x03 {
        Some(Opcode::Loop)
    } else if b == 0x04 {
        Some(Opcode::If)
    } else if b == 0x05 {
        Some(Opcode::Else)
    } else if b == 0x0b {
        Some(Opcode::End)
    } else if b == 0x0c {
        Some(Opcode::Br)
    } else if b == 0x0d {
        Some(Opcode::BrIf)
    } else if b == 0x0e {
        Some(Opcode::BrTable)
    } else if b == 0x0f {
        Some(Opcode::Return)
    } else if b == 0x10 {
        Some(Opcode::Call)
    } else if b == 0x11 {
        Some(Opcode::CallIndirect)
    } else if b == 0x1a {
        Some(Opcode::Drop)
    } else if b == 0x1b {
        Some(Opcode::Select)
    } else if b == 0x20 {
        Some(Opcode::LocalGet)
    } else if b == 0x21 {
        Some(Opcode::LocalSet)
    } else if b == 0x22 {
        Some(Opcode::LocalTee)
    } else if b == 0x23 {
        Some(Opcode::GlobalGet)
    } else if b == 0x24 {
        Some(Opcode::GlobalSet)
    } else if b == 0x28 {
        Some(Opcode::I32Load)
    } else if b == 0x29 {
        Some(Opcode::I64Load)
    } else if b == 0x2a {
        Some(Opcode::F32Load)
    } else if b == 0x2b {
        Some(Opcode::F64Load)
    } else if b == 0x2c {
        Some(Opcode::I32Load8S)
    } else if b == 0x2d {
        Some(Opcode::I32Load8U)
    } else if b == 0x2e {
        Some(Opcode::I32Load16S)
    } else if b == 0x2f {
        Some(Opcode::I32Load16U)
    } else if b == 0x30 {
        Some(Opcode::I64Load8S)
    } else if b == 0x31 {
        Some(Opcode::I64Load8U)
    } else if b == 0x32 {
        Some(Opcode::I64Load16S)
    } else if b == 0x33 {
        Some(Opcode::I64Load16U)
    } else if b == 0x34 {
        Some(Opcode::I64Load32S)
    } else if b == 0x35 {
        Some(Opcode::I64Load32U)
    } else if b == 0x36 {
        Some(Opcode::I32Store)
    } else if b == 0x37 {
        Some(Opcode::I64Store)
    } else if b == 0x38 {
        Some(Opcode::F32Store)
    } else if b == 0x39 {
        Some(Opcode::F64Store)
    } else if b == 0x3a {
        Some(Opcode::I32Store8)
    } else if b == 0x3b {
        Some(Opcode::I32Store16)
    } else if b == 0x3c {
        Some(Opcode::I64Store8)
    } else if b == 0x3d {
        Some(Opcode::I64Store16)
    } else if b == 0x3e {
        Some(Opcode::I64Store32)
    } else if b == 0x3f {
        Some(Opcode::MemorySize)
    } else if b == 0x40 {
        Some(Opcode::MemoryGrow)
    } else if b == 0x41 {
        Some(Opcode::I32Const)
    } else if b == 0x42 {
        Some(Opcode::I64Const)
    } else if b == 0x43 {
        Some(Opcode::F32Const)
    } else if b == 0x44 {
        Some(Opcode::F64Const)
    } else if b == 0x45 {
        Some(Opcode::I32Eqz)
    } else if b == 0x46 {
        Some(Opcode::I32Eq)
    } else if b == 0x47 {
        Some(Opcode::I32Ne)
    } else if b == 0x48 {
        Some(Opcode::I32LtS)
    } else if b == 0x49 {
        Some(Opcode::I32LtU)
    } else if b == 0x4a {
        Some(Opcode::I32GtS)
    } else if b == 0x4b {
        Some(Opcode::I32GtU)
    } else if b == 0x4c {
        Some(Opcode::I32LeS)
    } else if b == 0x4d {
        Some(Opcode::I32LeU)
    } else if b == 0x4e {
        Some(Opcode::I32GeS)
    } else if b == 0x4f {
        Some(Opcode::I32GeU)
    } else if b == 0x50 {
        Some(Opcode::I64Eqz)
    } else if b == 0x51 {
        Some(Opcode::I64Eq)
    } else if b == 0x52 {
        Some(Opcode::I64Ne)
    } else if b == 0x53 {
        Some(Opcode::I64LtS)
    } else if b == 0x54 {
        Some(Opcode::I64LtU)
    } else if b == 0x55 {
        Some(Opcode::I64GtS)
    } else if b == 0x56 {
        Some(Opcode::I64GtU)
    } else if b == 0x57 {
        Some(Opcode::I64LeS)
    } else if b == 0x58 {
        Some(Opcode::I64LeU)
    } else if b == 0x59 {
        Some(Opcode::I64GeS)
    } else if b == 0x5a {
        Some(Opcode::I64GeU)
    } else if b == 0x5b {
        Some(Opcode::F32Eq)
    } else if b == 0x5c {
        Some(Opcode::F32Ne)
    } else if b == 0x5d {
        Some(Opcode::F32Lt)
    } else if b == 0x5e {
        Some(Opcode::F32Gt)
    } else if b == 0x5f {
        Some(Opcode::F32Le)
    } else if b == 0x60 {
        Some(Opcode::F32Ge)
    } else if b == 0x61 {
        Some(Opcode::F64Eq)
    } else if b == 0x62 {
        Some(Opcode::F64Ne)
    } else if b == 0x63 {
        Some(Opcode::F64Lt)
    } else if b == 0x64 {
        Some(Opcode::F64Gt)
    } else if b == 0x65 {
        Some(Opcode::F64Le)
    } else if b == 0x66 {
        Some(Opcode::F64Ge)
    } else if b == 0x67 {
        Some(Opcode::I32Clz)
    } else if b == 0x68 {
        Some(Opcode::I32Ctz)
    } else if b == 0x69 {
        Some(Opcode::I32Popcnt)
    } else if b == 0x6a {
        Some(Opcode::I32Add)
    } else if b == 0x6b {
        Some(Opcode::I32Sub)
    } else if b == 0x6c {
        Some(Opcode::I32Mul)
    } else if b == 0x6d {
        Some(Opcode::I32DivS)
    } else if b == 0x6e {
        Some(Opcode::I32DivU)
    } else if b == 0x6f {
        Some(Opcode::I32RemS)
    } else if b == 0x70 {
        Some(Opcode::I32RemU)
    } else if b == 0x71 {
        Some(Opcode::I32And)
    } else if b == 0x72 {
        Some(Opcode::I32Or)
    } else if b == 0x73 {
        Some(Opcode::I32Xor)
    } else if b == 0x74 {
        Some(Opcode::I32ShL)
    } else if b == 0x75 {
        Some(Opcode::I32ShrS)
    } else if b == 0x76 {
        Some(Opcode::I32ShrU)
    } else if b == 0x77 {
        Some(Opcode::I32RtoL)
    } else if b == 0x78 {
        Some(Opcode::I32RtoR)
    } else if b == 0x79 {
        Some(Opcode::I64Clz)
    } else if b == 0x7a {
        Some(Opcode::I64Ctz)
    } else if b == 0x7b {
        Some(Opcode::I64Popcnt)
    } else if b == 0x7c {
        Some(Opcode::I64Add)
    } else if b == 0x7d {
        Some(Opcode::I64Sub)
    } else if b == 0x7e {
        Some(Opcode::I64Mul)
    } else if b == 0x7f {
        Some(Opcode::I64DivS)
    } else if b == 0x80 {
        Some(Opcode::I64DivU)
    } else if b == 0x81 {
        Some(Opcode::I64RemS)
    } else if b == 0x82 {
        Some(Opcode::I64RemU)
    } else if b == 0x83 {
        Some(Opcode::I64And)
    } else if b == 0x84 {
        Some(Opcode::I64Or)
    } else if b == 0x85 {
        Some(Opcode::I64Xor)
    } else if b == 0x86 {
        Some(Opcode::I64ShL)
    } else if b == 0x87 {
        Some(Opcode::I64ShrS)
    } else if b == 0x88 {
        Some(Opcode::I64ShrU)
    } else if b == 0x89 {
        Some(Opcode::I64RtoL)
    } else if b == 0x8a {
        Some(Opcode::I64RtoR)
    } else if b == 0x8b {
        Some(Opcode::F32Abs)
    } else if b == 0x8c {
        Some(Opcode::F32Neg)
    } else if b == 0x8d {
        Some(Opcode::F32Ceil)
    } else if b == 0x8e {
        Some(Opcode::F32Floor)
    } else if b == 0x8f {
        Some(Opcode::F32Trunc)
    } else if b == 0x90 {
        Some(Opcode::F32Nearest)
    } else if b == 0x91 {
        Some(Opcode::F32Sqrt)
    } else if b == 0x92 {
        Some(Opcode::F32Add)
    } else if b == 0x93 {
        Some(Opcode::F32Sub)
    } else if b == 0x94 {
        Some(Opcode::F32Mul)
    } else if b == 0x95 {
        Some(Opcode::F32Div)
    } else if b == 0x96 {
        Some(Opcode::F32Min)
    } else if b == 0x97 {
        Some(Opcode::F32Max)
    } else if b == 0x98 {
        Some(Opcode::F32Copysign)
    } else if b == 0x99 {
        Some(Opcode::F64Abs)
    } else if b == 0x9a {
        Some(Opcode::F64Neg)
    } else if b == 0x9b {
        Some(Opcode::F64Ceil)
    } else if b == 0x9c {
        Some(Opcode::F64Floor)
    } else if b == 0x9d {
        Some(Opcode::F64Trunc)
    } else if b == 0x9e {
        Some(Opcode::F64Nearest)
    } else if b == 0x9f {
        Some(Opcode::F64Sqrt)
    } else if b == 0xa0 {
        Some(Opcode::F64Add)
    } else if b == 0xa1 {
        Some(Opcode::F64Sub)
    } else if b == 0xa2 {
        Some(Opcode::F64Mul)
    } else if b == 0xa3 {
        Some(Opcode::F64Div)
    } else if b == 0xa4 {
        Some(Opcode::F64Min)
    } else if b == 0xa5 {
        Some(Opcode::F64Max)
    } else if b == 0xa6 {
        Some(Opcode::F64Copysign)
    } else if b == 0xa7 {
        Some(Opcode::I32WrapI64)
    } else if b == 0xa8 {
        Some(Opcode::I32TruncF32S)
    } else if b == 0xa9 {
        Some(Opcode::I32TruncF32U)
    } else if b == 0xaa {
        Some(Opcode::I32TruncF64S)
    } else if b == 0xab {
        Some(Opcode::I32TruncF64U)
    } else if b == 0xac {
        Some(Opcode::I64ExtendI32S)
    } else if b == 0xad {
        Some(Opcode::I64ExtendI32U)
    } else if b == 0xae {
        Some(Opcode::I64TruncF32S)
    } else if b == 0xaf {
        Some(Opcode::I64TruncF32U)
    } else if b == 0xb0 {
        Some(Opcode::I64TruncF64S)
    } else if b == 0xb1 {
        Some(Opcode::I64TruncF64U)
    } else if b == 0xb2 {
        Some(Opcode::F32ConvertI32S)
    } else if b == 0xb3 {
        Some(Opcode::F32ConvertI32U)
    } else if b == 0xb4 {
        Some(Opcode::F32ConvertI64S)
    } else if b == 0xb5 {
        Some(Opcode::F32ConvertI64U)
    } else if b == 0xb6 {
        Some(Opcode::F32DemoteF64)
    } else if b == 0xb7 {
        Some(Opcode::F64ConvertI32S)
    } else if b == 0xb8 {
        Some(Opcode::F64ConvertI32U)
    } else if b == 0xb9 {
        Some(Opcode::F64ConvertI64S)
    } else if b == 0xba {
        Some(Opcode::F64ConvertI64U)
    } else if b == 0xbb {
        Some(Opcode::F64PromoteF32)
    } else if b == 0xbc {
        Some(Opcode::I32ReinterpretF32)
    } else if b == 0xbd {
        Some(Opcode::I64ReinterpretF64)
    } else if b == 0xbe {
        Some(Opcode::F32ReinterpretI32)
    } else if b == 0xbf {
        Some(Opcode::F64ReinterpretI64)
    } else if b == 0xc0 {
        Some(Opcode::I32Extend8S)
    } else if b == 0xc1 {
        Some(Opcode::I32Extend16S)
    } else if b == 0xc2 {
        Some(Opcode::I64Extend8S)
    } else if b == 0xc3 {
        Some(Opcode::I64Extend16S)
    } else if b == 0xc4 {
        Some(Opcode::I64Extend32S)
    } else {
        None
    }
}

impl Opcode {
    /// Decodes an opcode from its byte; `None` for a byte that encodes no
    /// instruction of this runtime.
    pub fn from_u8(b: u8) -> (res: Option<Opcode>)
        ensures
            res == spec_opcode_from_byte(b),
    {
        match b {
            0x00 => Some(Opcode::Unreachable),
            0x01 => Some(Opcode::Nop),
            0x02 => Some(Opcode::Block),
            0x03 => Some(Opcode::Loop),
            0x04 => Some(Opcode::If),
            0x05 => Some(Opcode::Else),
            0x0b => Some(Opcode::End),
            0x0c => Some(Opcode::Br),
            0x0d => Some(Opcode::BrIf),
            0x0e => Some(Opcode::BrTable),
            0x0f => Some(Opcode::Return),
            0x10 => Some(Opcode::Call),
            0x11 => Some(Opcode::CallIndirect),
            0x1a => Some(Opcode::Drop),
            0x1b => Some(Opcode::Select),
            0x20 => Some(Opcode::LocalGet),
            0x21 => Some(Opcode::LocalSet),
            0x22 => Some(Opcode::LocalTee),
            0x23 => Some(Opcode::GlobalGet),
            0x24 => Some(Opcode::GlobalSet),
            0x28 => Some(Opcode::I32Load),
            0x29 => Some(Opcode::I64Load),
            0x2a => Some(Opcode::F32Load),
            0x2b => Some(Opcode::F64Load),
            0x2c => Some(Opcode::I32Load8S),
            0x2d => Some(Opcode::I32Load8U),
            0x2e => Some(Opcode::I32Load16S),
            0x2f => Some(Opcode::I32Load16U),
            0x30 => Some(Opcode::I64Load8S),
            0x31 => Some(Opcode::I64Load8U),
            0x32 => Some(Opcode::I64Load16S),
            0x33 => Some(Opcode::I64Load16U),
            0x34 => Some(Opcode::I64Load32S),
            0x35 => Some(Opcode::I64Load32U),
            0x36 => Some(Opcode::I32Store),
            0x37 => Some(Opcode::I64Store),
            0x38 => Some(Opcode::F32Store),
            0x39 => Some(Opcode::F64Store),
            0x3a => Some(Opcode::I32Store8),
            0x3b => Some(Opcode::I32Store16),
            0x3c => Some(Opcode::I64Store8),
            0x3d => Some(Opcode::I64Store16),
            0x3e => Some(Opcode::I64Store32),
            0x3f => Some(Opcode::MemorySize),
            0x40 => Some(Opcode::MemoryGrow),
            0x41 => Some(Opcode::I32Const),
            0x42 => Some(Opcode::I64Const),
            0x43 => Some(Opcode::F32Const),
            0x44 => Some(Opcode::F64Const),
            0x45 => Some(Opcode::I32Eqz),
            0x46 => Some(Opcode::I32Eq),
            0x47 => Some(Opcode::I32Ne),
            0x48 => Some(Opcode::I32LtS),
            0x49 => Some(Opcode::I32LtU),
            0x4a => Some(Opcode::I32GtS),
            0x4b => Some(Opcode::I32GtU),
            0x4c => Some(Opcode::I32LeS),
            0x4d => Some(Opcode::I32LeU),
            0x4e => Some(Opcode::I32GeS),
            0x4f => Some(Opcode::I32GeU),
            0x50 => Some(Opcode::I64Eqz),
            0x51 => Some(Opcode::I64Eq),
            0x52 => Some(Opcode::I64Ne),
            0x53 => Some(Opcode::I64LtS),
            0x54 => Some(Opcode::I64LtU),
            0x55 => Some(Opcode::I64GtS),
            0x56 => Some(Opcode::I64GtU),
            0x57 => Some(Opcode::I64LeS),
            0x58 => Some(Opcode::I64LeU),
            0x59 => Some(Opcode::I64GeS),
            0x5a => Some(Opcode::I64GeU),
            0x5b => Some(Opcode::F32Eq),
            0x5c => Some(Opcode::F32Ne),
            0x5d => Some(Opcode::F32Lt),
            0x5e => Some(Opcode::F32Gt),
            0x5f => Some(Opcode::F32Le),
            0x60 => Some(Opcode::F32Ge),
            0x61 => Some(Opcode::F64Eq),
            0x62 => Some(Opcode::F64Ne),
            0x63 => Some(Opcode::F64Lt),
            0x64 => Some(Opcode::F64Gt),
            0x65 => Some(Opcode::F64Le),
            0x66 => Some(Opcode::F64Ge),
            0x67 => Some(Opcode::I32Clz),
            0x68 => Some(Opcode::I32Ctz),
            0x69 => Some(Opcode::I32Popcnt),
            0x6a => Some(Opcode::I32Add),
            0x6b => Some(Opcode::I32Sub),
            0x6c => Some(Opcode::I32Mul),
            0x6d => Some(Opcode::I32DivS),
            0x6e => Some(Opcode::I32DivU),
            0x6f => Some(Opcode::I32RemS),
            0x70 => Some(Opcode::I32RemU),
            0x71 => Some(Opcode::I32And),
            0x72 => Some(Opcode::I32Or),
            0x73 => Some(Opcode::I32Xor),
            0x74 => Some(Opcode::I32ShL),
            0x75 => Some(Opcode::I32ShrS),
            0x76 => Some(Opcode::I32ShrU),
            0x77 => Some(Opcode::I32RtoL),
            0x78 => Some(Opcode::I32RtoR),
            0x79 => Some(Opcode::I64Clz),
            0x7a => Some(Opcode::I64Ctz),
            0x7b => Some(Opcode::I64Popcnt),
            0x7c => Some(Opcode::I64Add),
            0x7d => Some(Opcode::I64Sub),
            0x7e => Some(Opcode::I64Mul),
            0x7f => Some(Opcode::I64DivS),
            0x80 => Some(Opcode::I64DivU),
            0x81 => Some(Opcode::I64RemS),
            0x82 => Some(Opcode::I64RemU),
            0x83 => Some(Opcode::I64And),
            0x84 => Some(Opcode::I64Or),
            0x85 => Some(Opcode::I64Xor),
            0x86 => Some(Opcode::I64ShL),
            0x87 => Some(Opcode::I64ShrS),
            0x88 => Some(Opcode::I64ShrU),
            0x89 => Some(Opcode::I64RtoL),
            0x8a => Some(Opcode::I64RtoR),
            0x8b => Some(Opcode::F32Abs),
            0x8c => Some(Opcode::F32Neg),
            0x8d => Some(Opcode::F32Ceil),
            0x8e => Some(Opcode::F32Floor),
            0x8f => Some(Opcode::F32Trunc),
            0x90 => Some(Opcode::F32Nearest),
            0x91 => Some(Opcode::F32Sqrt),
            0x92 => Some(Opcode::F32Add),
            0x93 => Some(Opcode::F32Sub),
            0x94 => Some(Opcode::F32Mul),
            0x95 => Some(Opcode::F32Div),
            0x96 => Some(Opcode::F32Min),
            0x97 => Some(Opcode::F32Max),
            0x98 => Some(Opcode::F32Copysign),
            0x99 => Some(Opcode::F64Abs),
            0x9a => Some(Opcode::F64Neg),
            0x9b => Some(Opcode::F64Ceil),
            0x9c => Some(Opcode::F64Floor),
            0x9d => Some(Opcode::F64Trunc),
            0x9e => Some(Opcode::F64Nearest),
            0x9f => Some(Opcode::F64Sqrt),
            0xa0 => Some(Opcode::F64Add),
            0xa1 => Some(Opcode::F64Sub),
            0xa2 => Some(Opcode::F64Mul),
            0xa3 => Some(Opcode::F64Div),
            0xa4 => Some(Opcode::F64Min),
            0xa5 => Some(Opcode::F64Max),
            0xa6 => Some(Opcode::F64Copysign),
            0xa7 => Some(Opcode::I32WrapI64),
            0xa8 => Some(Opcode::I32TruncF32S),
            0xa9 => Some(Opcode::I32TruncF32U),
            0xaa => Some(Opcode::I32TruncF64S),
            0xab => Some(Opcode::I32TruncF64U),
            0xac => Some(Opcode::I64ExtendI32S),
            0xad => Some(Opcode::I64ExtendI32U),
            0xae => Some(Opcode::I64TruncF32S),
            0xaf => Some(Opcode::I64TruncF32U),
            0xb0 => Some(Opcode::I64TruncF64S),
            0xb1 => Some(Opcode::I64TruncF64U),
            0xb2 => Some(Opcode::F32ConvertI32S),
            0xb3 => Some(Opcode::F32ConvertI32U),
            0xb4 => Some(Opcode::F32ConvertI64S),
            0xb5 => Some(Opcode::F32ConvertI64U),
            0xb6 => Some(Opcode::F32DemoteF64),
            0xb7 => Some(Opcode::F64ConvertI32S),
            0xb8 => Some(Opcode::F64ConvertI32U),
            0xb9 => Some(Opcode::F64ConvertI64S),
            0xba => Some(Opcode::F64ConvertI64U),
            0xbb => Some(Opcode::F64PromoteF32),
            0xbc => Some(Opcode::I32ReinterpretF32),
            0xbd => Some(Opcode::I64ReinterpretF64),
            0xbe => Some(Opcode::F32ReinterpretI32),
            0xbf => Some(Opcode::F64ReinterpretI64),
            0xc0 => Some(Opcode::I32Extend8S),
            0xc1 => Some(Opcode::I32Extend16S),
            0xc2 => Some(Opcode::I64Extend8S),
            0xc3 => Some(Opcode::I64Extend16S),
            0xc4 => Some(Opcode::I64Extend32S),
            _ => None,
        }
    }

    /// The byte that encodes this opcode.
    pub fn to_u8(&self) -> (b: u8)
        ensures
            b == opcode_byte(*self),
    {
        match self {
            Opcode::Unreachable => 0x00,
            Opcode::Nop => 0x01,
            Opcode::Block => 0x02,
            Opcode::Loop => 0x03,
            Opcode::If => 0x04,
            Opcode::Else => 0x05,
            Opcode::End => 0x0b,
            Opcode::Br => 0x0c,
            Opcode::BrIf => 0x0d,
            Opcode::BrTable => 0x0e,
            Opcode::Return => 0x0f,
            Opcode::Call => 0x10,
            Opcode::CallIndirect => 0x11,
            Opcode::Drop => 0x1a,
            Opcode::Select => 0x1b,
            Opcode::LocalGet => 0x20,
            Opcode::LocalSet => 0x21,
            Opcode::LocalTee => 0x22,
            Opcode::GlobalGet => 0x23,
            Opcode::GlobalSet => 0x24,
            Opcode::I32Load => 0x28,
            Opcode::I64Load => 0x29,
            Opcode::F32Load => 0x2a,
            Opcode::F64Load => 0x2b,
            Opcode::I32Load8S => 0x2c,
            Opcode::I32Load8U => 0x2d,
            Opcode::I32Load16S => 0x2e,
            Opcode::I32Load16U => 0x2f,
            Opcode::I64Load8S => 0x30,
            Opcode::I64Load8U => 0x31,
            Opcode::I64Load16S => 0x32,
            Opcode::I64Load16U => 0x33,
            Opcode::I64Load32S => 0x34,
            Opcode::I64Load32U => 0x35,
            Opcode::I32Store => 0x36,
            Opcode::I64Store => 0x37,
            Opcode::F32Store => 0x38,
            Opcode::F64Store => 0x39,
            Opcode::I32Store8 => 0x3a,
            Opcode::I32Store16 => 0x3b,
            Opcode::I64Store8 => 0x3c,
            Opcode::I64Store16 => 0x3d,
            Opcode::I64Store32 => 0x3e,
            Opcode::MemorySize => 0x3f,
            Opcode::MemoryGrow => 0x40,
            Opcode::I32Const => 0x41,
            Opcode::I64Const => 0x42,
            Opcode::F32Const => 0x43,
            Opcode::F64Const => 0x44,
            Opcode::I32Eqz => 0x45,
            Opcode::I32Eq => 0x46,
            Opcode::I32Ne => 0x47,
            Opcode::I32LtS => 0x48,
            Opcode::I32LtU => 0x49,
            Opcode::I32GtS => 0x4a,
            Opcode::I32GtU => 0x4b,
            Opcode::I32LeS => 0x4c,
            Opcode::I32LeU => 0x4d,
            Opcode::I32GeS => 0x4e,
            Opcode::I32GeU => 0x4f,
            Opcode::I64Eqz => 0x50,
            Opcode::I64Eq => 0x51,
            Opcode::I64Ne => 0x52,
            Opcode::I64LtS => 0x53,
            Opcode::I64LtU => 0x54,
            Opcode::I64GtS => 0x55,
            Opcode::I64GtU => 0x56,
            Opcode::I64LeS => 0x57,
            Opcode::I64LeU => 0x58,
            Opcode::I64GeS => 0x59,
            Opcode::I64GeU => 0x5a,
            Opcode::F32Eq => 0x5b,
            Opcode::F32Ne => 0x5c,
            Opcode::F32Lt => 0x5d,
            Opcode::F32Gt => 0x5e,
            Opcode::F32Le => 0x5f,
            Opcode::F32Ge => 0x60,
            Opcode::F64Eq => 0x61,
            Opcode::F64Ne => 0x62,
            Opcode::F64Lt => 0x63,
            Opcode::F64Gt => 0x64,
            Opcode::F64Le => 0x65,
            Opcode::F64Ge => 0x66,
            Opcode::I32Clz => 0x67,
            Opcode::I32Ctz => 0x68,
            Opcode::I32Popcnt => 0x69,
            Opcode::I32Add => 0x6a,
            Opcode::I32Sub => 0x6b,
            Opcode::I32Mul => 0x6c,
            Opcode::I32DivS => 0x6d,
            Opcode::I32DivU => 0x6e,
            Opcode::I32RemS => 0x6f,
            Opcode::I32RemU => 0x70,
            Opcode::I32And => 0x71,
            Opcode::I32Or => 0x72,
            Opcode::I32Xor => 0x73,
            Opcode::I32ShL => 0x74,
            Opcode::I32ShrS => 0x75,
            Opcode::I32ShrU => 0x76,
            Opcode::I32RtoL => 0x77,
            Opcode::I32RtoR => 0x78,
            Opcode::I64Clz => 0x79,
            Opcode::I64Ctz => 0x7a,
            Opcode::I64Popcnt => 0x7b,
            Opcode::I64Add => 0x7c,
            Opcode::I64Sub => 0x7d,
            Opcode::I64Mul => 0x7e,
            Opcode::I64DivS => 0x7f,
            Opcode::I64DivU => 0x80,
            Opcode::I64RemS => 0x81,
            Opcode::I64RemU => 0x82,
            Opcode::I64And => 0x83,
            Opcode::I64Or => 0x84,
            Opcode::I64Xor => 0x85,
            Opcode::I64ShL => 0x86,
            Opcode::I64ShrS => 0x87,
            Opcode::I64ShrU => 0x88,
            Opcode::I64RtoL => 0x89,
            Opcode::I64RtoR => 0x8a,
            Opcode::F32Abs => 0x8b,
            Opcode::F32Neg => 0x8c,
            Opcode::F32Ceil => 0x8d,
            Opcode::F32Floor => 0x8e,
            Opcode::F32Trunc => 0x8f,
            Opcode::F32Nearest => 0x90,
            Opcode::F32Sqrt => 0x91,
            Opcode::F32Add => 0x92,
            Opcode::F32Sub => 0x93,
            Opcode::F32Mul => 0x94,
            Opcode::F32Div => 0x95,
            Opcode::F32Min => 0x96,
            Opcode::F32Max => 0x97,
            Opcode::F32Copysign => 0x98,
            Opcode::F64Abs => 0x99,
            Opcode::F64Neg => 0x9a,
            Opcode::F64Ceil => 0x9b,
            Opcode::F64Floor => 0x9c,
            Opcode::F64Trunc => 0x9d,
            Opcode::F64Nearest => 0x9e,
            Opcode::F64Sqrt => 0x9f,
            Opcode::F64Add => 0xa0,
            Opcode::F64Sub => 0xa1,
            Opcode::F64Mul => 0xa2,
            Opcode::F64Div => 0xa3,
            Opcode::F64Min => 0xa4,
            Opcode::F64Max => 0xa5,
            Opcode::F64Copysign => 0xa6,
            Opcode::I32WrapI64 => 0xa7,
            Opcode::I32TruncF32S => 0xa8,
            Opcode::I32TruncF32U => 0xa9,
            Opcode::I32TruncF64S => 0xaa,
            Opcode::I32TruncF64U => 0xab,
            Opcode::I64ExtendI32S => 0xac,
            Opcode::I64ExtendI32U => 0xad,
            Opcode::I64TruncF32S => 0xae,
            Opcode::I64TruncF32U => 0xaf,
            Opcode::I64TruncF64S => 0xb0,
            Opcode::I64TruncF64U => 0xb1,
            Opcode::F32ConvertI32S => 0xb2,
            Opcode::F32ConvertI32U => 0xb3,
            Opcode::F32ConvertI64S => 0xb4,
            Opcode::F32ConvertI64U => 0xb5,
            Opcode::F32DemoteF64 => 0xb6,
            Opcode::F64ConvertI32S => 0xb7,
            Opcode::F64ConvertI32U => 0xb8,
            Opcode::F64ConvertI64S => 0xb9,
            Opcode::F64ConvertI64U => 0xba,
            Opcode::F64PromoteF32 => 0xbb,
            Opcode::I32ReinterpretF32 => 0xbc,
            Opcode::I64ReinterpretF64 => 0xbd,
            Opcode::F32ReinterpretI32 => 0xbe,
            Opcode::F64ReinterpretI64 => 0xbf,
            Opcode::I32Extend8S => 0xc0,
            Opcode::I32Extend16S => 0xc1,
            Opcode::I64Extend8S => 0xc2,
            Opcode::I64Extend16S => 0xc3,
            Opcode::I64Extend32S => 0xc4,
        }
    }

    /// The kind of immediate that follows this opcode.
    pub fn immediate_kind(&self) -> (k: ImmediateKind)
        ensures
            k == opcode_immediate(*self),
    {
        match self {
            Opcode::Block => ImmediateKind::BlockType,
            Opcode::Loop => ImmediateKind::BlockType,
            Opcode::If => ImmediateKind::BlockType,
            Opcode::Br => ImmediateKind::Index,
            Opcode::BrIf => ImmediateKind::Index,
            Opcode::BrTable => ImmediateKind::LabelTable,
            Opcode::Call => ImmediateKind::Index,
            Opcode::CallIndirect => ImmediateKind::TwoIndices,
            Opcode::LocalGet => ImmediateKind::Index,
            Opcode::LocalSet => ImmediateKind::Index,
            Opcode::LocalTee => ImmediateKind::Index,
            Opcode::GlobalGet => ImmediateKind::Index,
            Opcode::GlobalSet => ImmediateKind::Index,
            Opcode::I32Load => ImmediateKind::MemArg,
            Opcode::I64Load => ImmediateKind::MemArg,
            Opcode::F32Load => ImmediateKind::MemArg,
            Opcode::F64Load => ImmediateKind::MemArg,
            Opcode::I32Load8S => ImmediateKind::MemArg,
            Opcode::I32Load8U => ImmediateKind::MemArg,
            Opcode::I32Load16S => ImmediateKind::MemArg,
            Opcode::I32Load16U => ImmediateKind::MemArg,
            Opcode::I64Load8S => ImmediateKind::MemArg,
            Opcode::I64Load8U => ImmediateKind::MemArg,
            Opcode::I64Load16S => ImmediateKind::MemArg,
            Opcode::I64Load16U => ImmediateKind::MemArg,
            Opcode::I64Load32S => ImmediateKind::MemArg,
            Opcode::I64Load32U => ImmediateKind::MemArg,
            Opcode::I32Store => ImmediateKind::MemArg,
            Opcode::I64Store => ImmediateKind::MemArg,
            Opcode::F32Store => ImmediateKind::MemArg,
            Opcode::F64Store => ImmediateKind::MemArg,
            Opcode::I32Store8 => ImmediateKind::MemArg,
            Opcode::I32Store16 => ImmediateKind::MemArg,
            Opcode::I64Store8 => ImmediateKind::MemArg,
            Opcode::I64Store16 => ImmediateKind::MemArg,
            Opcode::I64Store32 => ImmediateKind::MemArg,
            Opcode::MemorySize => ImmediateKind::MemIndex,
            Opcode::MemoryGrow => ImmediateKind::Index,
            Opcode::I32Const => ImmediateKind::I32,
            Opcode::I64Const => ImmediateKind::I64,
            Opcode::F32Const => ImmediateKind::F32,
            Opcode::F64Const => ImmediateKind::F64,
            _ => ImmediateKind::Nothing,
        }
    }
}

/// Every opcode decodes back from its byte.
pub proof fn lemma_opcode_byte_roundtrip(op: Opcode)
    ensures
        spec_opcode_from_byte(opcode_byte(op)) == Some(op),
{
}

/// A byte decodes to an opcode only if it is that opcode's byte.
pub proof fn lemma_opcode_from_byte_sound(b: u8)
    ensures
        spec_opcode_from_byte(b) matches Some(op) ==> opcode_byte(op) == b,
{
}

/// The opcode bytes of the WebAssembly core specification (version 1, with
/// the sign-extension operators), byte by byte: each byte decodes to the
/// instruction that the specification gives it, and the bytes that it gives
/// none decode to nothing.
/// <https://www.w3.org/TR/wasm-core-1/#instructions%E2%91%A6>
pub proof fn lemma_opcode_table()
    ensures
        spec_opcode_from_byte(0x00) == Some(Opcode::Unreachable),
        spec_opcode_from_byte(0x01) == Some(Opcode::Nop),
        spec_opcode_from_byte(0x02) == Some(Opcode::Block),
        spec_opcode_from_byte(0x03) == Some(Opcode::Loop),
        spec_opcode_from_byte(0x04) == Some(Opcode::If),
        spec_opcode_from_byte(0x05) == Some(Opcode::Else),
        spec_opcode_from_byte(0x0b) == Some(Opcode::End),
        spec_opcode_from_byte(0x0c) == Some(Opcode::Br),
        spec_opcode_from_byte(0x0d) == Some(Opcode::BrIf),
        spec_opcode_from_byte(0x0e) == Some(Opcode::BrTable),
        spec_opcode_from_byte(0x0f) == Some(Opcode::Return),
        spec_opcode_from_byte(0x10) == Some(Opcode::Call),
        spec_opcode_from_byte(0x11) == Some(Opcode::CallIndirect),
        spec_opcode_from_byte(0x1a) == Some(Opcode::Drop),
        spec_opcode_from_byte(0x1b) == Some(Opcode::Select),
        spec_opcode_from_byte(0x20) == Some(Opcode::LocalGet),
        spec_opcode_from_byte(0x21) == Some(Opcode::LocalSet),
        spec_opcode_from_byte(0x22) == Some(Opcode::LocalTee),
        spec_opcode_from_byte(0x23) == Some(Opcode::GlobalGet),
        spec_opcode_from_byte(0x24) == Some(Opcode::GlobalSet),
        spec_opcode_from_byte(0x28) == Some(Opcode::I32Load),
        spec_opcode_from_byte(0x29) == Some(Opcode::I64Load),
        spec_opcode_from_byte(0x2a) == Some(Opcode::F32Load),
        spec_opcode_from_byte(0x2b) == Some(Opcode::F64Load),
        spec_opcode_from_byte(0x2c) == Some(Opcode::I32Load8S),
        spec_opcode_from_byte(0x2d) == Some(Opcode::I32Load8U),
        spec_opcode_from_byte(0x2e) == Some(Opcode::I32Load16S),
        spec_opcode_from_byte(0x2f) == Some(Opcode::I32Load16U),
        spec_opcode_from_byte(0x30) == Some(Opcode::I64Load8S),
        spec_opcode_from_byte(0x31) == Some(Opcode::I64Load8U),
        spec_opcode_from_byte(0x32) == Some(Opcode::I64Load16S),
        spec_opcode_from_byte(0x33) == Some(Opcode::I64Load16U),
        spec_opcode_from_byte(0x34) == Some(Opcode::I64Load32S),
        spec_opcode_from_byte(0x35) == Some(Opcode::I64Load32U),
        spec_opcode_from_byte(0x36) == Some(Opcode::I32Store),
        spec_opcode_from_byte(0x37) == Some(Opcode::I64Store),
        spec_opcode_from_byte(0x38) == Some(Opcode::F32Store),
        spec_opcode_from_byte(0x39) == Some(Opcode::F64Store),
        spec_opcode_from_byte(0x3a) == Some(Opcode::I32Store8),
        spec_opcode_from_byte(0x3b) == Some(Opcode::I32Store16),
        spec_opcode_from_byte(0x3c) == Some(Opcode::I64Store8),
        spec_opcode_from_byte(0x3d) == Some(Opcode::I64Store16),
        spec_opcode_from_byte(0x3e) == Some(Opcode::I64Store32),
        spec_opcode_from_byte(0x3f) == Some(Opcode::MemorySize),
        spec_opcode_from_byte(0x40) == Some(Opcode::MemoryGrow),
        spec_opcode_from_byte(0x41) == Some(Opcode::I32Const),
        spec_opcode_from_byte(0x42) == Some(Opcode::I64Const),
        spec_opcode_from_byte(0x43) == Some(Opcode::F32Const),
        spec_opcode_from_byte(0x44) == Some(Opcode::F64Const),
        spec_opcode_from_byte(0x45) == Some(Opcode::I32Eqz),
        spec_opcode_from_byte(0x46) == Some(Opcode::I32Eq),
        spec_opcode_from_byte(0x47) == Some(Opcode::I32Ne),
        spec_opcode_from_byte(0x48) == Some(Opcode::I32LtS),
        spec_opcode_from_byte(0x49) == Some(Opcode::I32LtU),
        spec_opcode_from_byte(0x4a) == Some(Opcode::I32GtS),
        spec_opcode_from_byte(0x4b) == Some(Opcode::I32GtU),
        spec_opcode_from_byte(0x4c) == Some(Opcode::I32LeS),
        spec_opcode_from_byte(0x4d) == Some(Opcode::I32LeU),
        spec_opcode_from_byte(0x4e) == Some(Opcode::I32GeS),
        spec_opcode_from_byte(0x4f) == Some(Opcode::I32GeU),
        spec_opcode_from_byte(0x50) == Some(Opcode::I64Eqz),
        spec_opcode_from_byte(0x51) == Some(Opcode::I64Eq),
        spec_opcode_from_byte(0x52) == Some(Opcode::I64Ne),
        spec_opcode_from_byte(0x53) == Some(Opcode::I64LtS),
        spec_opcode_from_byte(0x54) == Some(Opcode::I64LtU),
        spec_opcode_from_byte(0x55) == Some(Opcode::I64GtS),
        spec_opcode_from_byte(0x56) == Some(Opcode::I64GtU),
        spec_opcode_from_byte(0x57) == Some(Opcode::I64LeS),
        spec_opcode_from_byte(0x58) == Some(Opcode::I64LeU),
        spec_opcode_from_byte(0x59) == Some(Opcode::I64GeS),
        spec_opcode_from_byte(0x5a) == Some(Opcode::I64GeU),
        spec_opcode_from_byte(0x5b) == Some(Opcode::F32Eq),
        spec_opcode_from_byte(0x5c) == Some(Opcode::F32Ne),
        spec_opcode_from_byte(0x5d) == Some(Opcode::F32Lt),
        spec_opcode_from_byte(0x5e) == Some(Opcode::F32Gt),
        spec_opcode_from_byte(0x5f) == Some(Opcode::F32Le),
        spec_opcode_from_byte(0x60) == Some(Opcode::F32Ge),
        spec_opcode_from_byte(0x61) == Some(Opcode::F64Eq),
        spec_opcode_from_byte(0x62) == Some(Opcode::F64Ne),
        spec_opcode_from_byte(0x63) == Some(Opcode::F64Lt),
        spec_opcode_from_byte(0x64) == Some(Opcode::F64Gt),
        spec_opcode_from_byte(0x65) == Some(Opcode::F64Le),
        spec_opcode_from_byte(0x66) == Some(Opcode::F64Ge),
        spec_opcode_from_byte(0x67) == Some(Opcode::I32Clz),
        spec_opcode_from_byte(0x68) == Some(Opcode::I32Ctz),
        spec_opcode_from_byte(0x69) == Some(Opcode::I32Popcnt),
        spec_opcode_from_byte(0x6a) == Some(Opcode::I32Add),
        spec_opcode_from_byte(0x6b) == Some(Opcode::I32Sub),
        spec_opcode_from_byte(0x6c) == Some(Opcode::I32Mul),
        spec_opcode_from_byte(0x6d) == Some(Opcode::I32DivS),
        spec_opcode_from_byte(0x6e) == Some(Opcode::I32DivU),
        spec_opcode_from_byte(0x6f) == Some(Opcode::I32RemS),
        spec_opcode_from_byte(0x70) == Some(Opcode::I32RemU),
        spec_opcode_from_byte(0x71) == Some(Opcode::I32And),
        spec_opcode_from_byte(0x72) == Some(Opcode::I32Or),
        spec_opcode_from_byte(0x73) == Some(Opcode::I32Xor),
        spec_opcode_from_byte(0x74) == Some(Opcode::I32ShL),
        spec_opcode_from_byte(0x75) == Some(Opcode::I32ShrS),
        spec_opcode_from_byte(0x76) == Some(Opcode::I32ShrU),
        spec_opcode_from_byte(0x77) == Some(Opcode::I32RtoL),
        spec_opcode_from_byte(0x78) == Some(Opcode::I32RtoR),
        spec_opcode_from_byte(0x79) == Some(Opcode::I64Clz),
        spec_opcode_from_byte(0x7a) == Some(Opcode::I64Ctz),
        spec_opcode_from_byte(0x7b) == Some(Opcode::I64Popcnt),
        spec_opcode_from_byte(0x7c) == Some(Opcode::I64Add),
        spec_opcode_from_byte(0x7d) == Some(Opcode::I64Sub),
        spec_opcode_from_byte(0x7e) == Some(Opcode::I64Mul),
        spec_opcode_from_byte(0x7f) == Some(Opcode::I64DivS),
        spec_opcode_from_byte(0x80) == Some(Opcode::I64DivU),
        spec_opcode_from_byte(0x81) == Some(Opcode::I64RemS),
        spec_opcode_from_byte(0x82) == Some(Opcode::I64RemU),
        spec_opcode_from_byte(0x83) == Some(Opcode::I64And),
        spec_opcode_from_byte(0x84) == Some(Opcode::I64Or),
        spec_opcode_from_byte(0x85) == Some(Opcode::I64Xor),
        spec_opcode_from_byte(0x86) == Some(Opcode::I64ShL),
        spec_opcode_from_byte(0x87) == Some(Opcode::I64ShrS),
        spec_opcode_from_byte(0x88) == Some(Opcode::I64ShrU),
        spec_opcode_from_byte(0x89) == Some(Opcode::I64RtoL),
        spec_opcode_from_byte(0x8a) == Some(Opcode::I64RtoR),
        spec_opcode_from_byte(0x8b) == Some(Opcode::F32Abs),
        spec_opcode_from_byte(0x8c) == Some(Opcode::F32Neg),
        spec_opcode_from_byte(0x8d) == Some(Opcode::F32Ceil),
        spec_opcode_from_byte(0x8e) == Some(Opcode::F32Floor),
        spec_opcode_from_byte(0x8f) == Some(Opcode::F32Trunc),
        spec_opcode_from_byte(0x90) == Some(Opcode::F32Nearest),
        spec_opcode_from_byte(0x91) == Some(Opcode::F32Sqrt),
        spec_opcode_from_byte(0x92) == Some(Opcode::F32Add),
        spec_opcode_from_byte(0x93) == Some(Opcode::F32Sub),
        spec_opcode_from_byte(0x94) == Some(Opcode::F32Mul),
        spec_opcode_from_byte(0x95) == Some(Opcode::F32Div),
        spec_opcode_from_byte(0x96) == Some(Opcode::F32Min),
        spec_opcode_from_byte(0x97) == Some(Opcode::F32Max),
        spec_opcode_from_byte(0x98) == Some(Opcode::F32Copysign),
        spec_opcode_from_byte(0x99) == Some(Opcode::F64Abs),
        spec_opcode_from_byte(0x9a) == Some(Opcode::F64Neg),
        spec_opcode_from_byte(0x9b) == Some(Opcode::F64Ceil),
        spec_opcode_from_byte(0x9c) == Some(Opcode::F64Floor),
        spec_opcode_from_byte(0x9d) == Some(Opcode::F64Trunc),
        spec_opcode_from_byte(0x9e) == Some(Opcode::F64Nearest),
        spec_opcode_from_byte(0x9f) == Some(Opcode::F64Sqrt),
        spec_opcode_from_byte(0xa0) == Some(Opcode::F64Add),
        spec_opcode_from_byte(0xa1) == Some(Opcode::F64Sub),
        spec_opcode_from_byte(0xa2) == Some(Opcode::F64Mul),
        spec_opcode_from_byte(0xa3) == Some(Opcode::F64Div),
        spec_opcode_from_byte(0xa4) == Some(Opcode::F64Min),
        spec_opcode_from_byte(0xa5) == Some(Opcode::F64Max),
        spec_opcode_from_byte(0xa6) == Some(Opcode::F64Copysign),
        spec_opcode_from_byte(0xa7) == Some(Opcode::I32WrapI64),
        spec_opcode_from_byte(0xa8) == Some(Opcode::I32TruncF32S),
        spec_opcode_from_byte(0xa9) == Some(Opcode::I32TruncF32U),
        spec_opcode_from_byte(0xaa) == Some(Opcode::I32TruncF64S),
        spec_opcode_from_byte(0xab) == Some(Opcode::I32TruncF64U),
        spec_opcode_from_byte(0xac) == Some(Opcode::I64ExtendI32S),
        spec_opcode_from_byte(0xad) == Some(Opcode::I64ExtendI32U),
        spec_opcode_from_byte(0xae) == Some(Opcode::I64TruncF32S),
        spec_opcode_from_byte(0xaf) == Some(Opcode::I64TruncF32U),
        spec_opcode_from_byte(0xb0) == Some(Opcode::I64TruncF64S),
        spec_opcode_from_byte(0xb1) == Some(Opcode::I64TruncF64U),
        spec_opcode_from_byte(0xb2) == Some(Opcode::F32ConvertI32S),
        spec_opcode_from_byte(0xb3) == Some(Opcode::F32ConvertI32U),
        spec_opcode_from_byte(0xb4) == Some(Opcode::F32ConvertI64S),
        spec_opcode_from_byte(0xb5) == Some(Opcode::F32ConvertI64U),
        spec_opcode_from_byte(0xb6) == Some(Opcode::F32DemoteF64),
        spec_opcode_from_byte(0xb7) == Some(Opcode::F64ConvertI32S),
        spec_opcode_from_byte(0xb8) == Some(Opcode::F64ConvertI32U),
        spec_opcode_from_byte(0xb9) == Some(Opcode::F64ConvertI64S),
        spec_opcode_from_byte(0xba) == Some(Opcode::F64ConvertI64U),
        spec_opcode_from_byte(0xbb) == Some(Opcode::F64PromoteF32),
        spec_opcode_from_byte(0xbc) == Some(Opcode::I32ReinterpretF32),
        spec_opcode_from_byte(0xbd) == Some(Opcode::I64ReinterpretF64),
        spec_opcode_from_byte(0xbe) == Some(Opcode::F32ReinterpretI32),
        spec_opcode_from_byte(0xbf) == Some(Opcode::F64ReinterpretI64),
        spec_opcode_from_byte(0xc0) == Some(Opcode::I32Extend8S),
        spec_opcode_from_byte(0xc1) == Some(Opcode::I32Extend16S),
        spec_opcode_from_byte(0xc2) == Some(Opcode::I64Extend8S),
        spec_opcode_from_byte(0xc3) == Some(Opcode::I64Extend16S),
        spec_opcode_from_byte(0xc4) == Some(Opcode::I64Extend32S),
        forall|b: u8|
            (0x06 <= b <= 0x0a || 0x12 <= b <= 0x19 || 0x1c <= b <= 0x1f || 0x25 <= b <= 0x27 || 0xc5 <= b) ==> spec_opcode_from_byte(b) is None,
{
}

#[derive(Debug, Clone, Copy, PartialEq, Eq, Structural)]
pub struct MemoryArg {
    pub align: u32,
    pub offset: u32,
}

/// An instruction together with its immediates. Floating-point constants are
/// held by their IEEE 754 bit patterns. Blocks are flat: the instructions of a
/// block follow it in the same sequence, up to the matching `End`.
#[derive(Debug, Clone, PartialEq)]
pub enum Instruction {
    Unreachable,
    Nop,
    Block(Block),
    Loop(Block),
    If(Block),
    Else,
    End,
    Br(u32),
    BrIf(u32),
    BrTable(Vec<u32>, u32),
    Return,
    Call(u32),
    CallIndirect(u32, u32),
    Drop,
    Select,
    LocalGet(u32),
    LocalSet(u32),
    LocalTee(u32),
    GlobalGet(u32),
    GlobalSet(u32),
    I32Load(MemoryArg),
    I64Load(MemoryArg),
    F32Load(MemoryArg),
    F64Load(MemoryArg),
    I32Load8S(MemoryArg),
    I32Load8U(MemoryArg),
    I32Load16S(MemoryArg),
    I32Load16U(MemoryArg),
    I64Load8S(MemoryArg),
    I64Load8U(MemoryArg),
    I64Load16S(MemoryArg),
    I64Load16U(MemoryArg),
    I64Load32S(MemoryArg),
    I64Load32U(MemoryArg),
    I32Store(MemoryArg),
    I64Store(MemoryArg),
    F32Store(MemoryArg),
    F64Store(MemoryArg),
    I32Store8(MemoryArg),
    I32Store16(MemoryArg),
    I64Store8(MemoryArg),
    I64Store16(MemoryArg),
    I64Store32(MemoryArg),
    MemorySize,
    MemoryGrow(u32),
    I32Const(i32),
    I64Const(i64),
    F32Const(u32),
    F64Const(u64),
    I32Eqz,
    I32Eq,
    I32Ne,
    I32LtS,
    I32LtU,
    I32GtS,
    I32GtU,
    I32LeS,
    I32LeU,
    I32GeS,
    I32GeU,
    I64Eqz,
    I64Eq,
    I64Ne,
    I64LtS,
    I64LtU,
    I64GtS,
    I64GtU,
    I64LeS,
    I64LeU,
    I64GeS,
    I64GeU,
    F32Eq,
    F32Ne,
    F32Lt,
    F32Gt,
    F32Le,
    F32Ge,
    F64Eq,
    F64Ne,
    F64Lt,
    F64Gt,
    F64Le,
    F64Ge,
    I32Clz,
    I32Ctz,
    I32Popcnt,
    I32Add,
    I32Sub,
    I32Mul,
    I32DivS,
    I32DivU,
    I32RemS,
    I32RemU,
    I32And,
    I32Or,
    I32Xor,
    I32ShL,
    I32ShrS,
    I32ShrU,
    I32RtoL,
    I32RtoR,
    I64Clz,
    I64Ctz,
    I64Popcnt,
    I64Add,
    I64Sub,
    I64Mul,
    I64DivS,
    I64DivU,
    I64RemS,
    I64RemU,
    I64And,
    I64Or,
    I64Xor,
    I64ShL,
    I64ShrS,
    I64ShrU,
    I64RtoL,
    I64RtoR,
    F32Abs,
    F32Neg,
    F32Ceil,
    F32Floor,
    F32Trunc,
    F32Nearest,
    F32Sqrt,
    F32Add,
    F32Sub,
    F32Mul,
    F32Div,
    F32Min,
    F32Max,
    F32Copysign,
    F64Abs,
    F64Neg,
    F64Ceil,
    F64Floor,
    F64Trunc,
    F64Nearest,
    F64Sqrt,
    F64Add,
    F64Sub,
    F64Mul,
    F64Div,
    F64Min,
    F64Max,
    F64Copysign,
    I32WrapI64,
    I32TruncF32S,
    I32TruncF32U,
    I32TruncF64S,
    I32TruncF64U,
    I64ExtendI32S,
    I64ExtendI32U,
    I64TruncF32S,
    I64TruncF32U,
    I64TruncF64S,
    I64TruncF64U,
    F32ConvertI32S,
    F32ConvertI32U,
    F32ConvertI64S,
    F32ConvertI64U,
    F32DemoteF64,
    F64ConvertI32S,
    F64ConvertI32U,
    F64ConvertI64S,
    F64ConvertI64U,
    F64PromoteF32,
    I32ReinterpretF32,
    I64ReinterpretF64,
    F32ReinterpretI32,
    F64ReinterpretI64,
    I32Extend8S,
    I32Extend16S,
    I64Extend8S,
    I64Extend16S,
    I64Extend32S,
}

/// The immediate of a decoded instruction.
#[derive(Debug, Clone, PartialEq)]
pub enum Immediate {
    Nothing,
    Index(u32),
    TwoIndices(u32, u32),
    BlockType(BlockType),
    LabelTable(Vec<u32>, u32),
    MemArg(MemoryArg),
    MemIndex,
    I32(i32),
    I64(i64),
    F32(u32),
    F64(u64),
}

/// What an immediate holds, with vectors as sequences. A block type is `None`
/// when empty, and otherwise the sequence of its value types.
pub enum ImmediateV {
    Nothing,
    Index(u32),
    TwoIndices(u32, u32),
    BlockType(Option<Seq<ValueType>>),
    LabelTable(Seq<u32>, u32),
    MemArg(MemoryArg),
    MemIndex,
    I32(i32),
    I64(i64),
    F32(u32),
    F64(u64),
}

/// A block type with its vector as a sequence: `None` when empty.
pub open spec fn block_type_view(bt: BlockType) -> Option<Seq<ValueType>> {
    match bt {
        BlockType::Empty => None,
        BlockType::Value(types) => Some(types@),
    }
}

impl View for Immediate {
    type V = ImmediateV;

    open spec fn view(&self) -> ImmediateV {
        match self {
            Immediate::Nothing => ImmediateV::Nothing,
            Immediate::Index(i) => ImmediateV::Index(*i),
            Immediate::TwoIndices(a, b) => ImmediateV::TwoIndices(*a, *b),
            Immediate::BlockType(bt) => ImmediateV::BlockType(block_type_view(*bt)),
            Immediate::LabelTable(labels, default) => ImmediateV::LabelTable(labels@, *default),
            Immediate::MemArg(arg) => ImmediateV::MemArg(*arg),
            Immediate::MemIndex => ImmediateV::MemIndex,
            Immediate::I32(v) => ImmediateV::I32(*v),
            Immediate::I64(v) => ImmediateV::I64(*v),
            Immediate::F32(v) => ImmediateV::F32(*v),
            Immediate::F64(v) => ImmediateV::F64(*v),
        }
    }
}

/// Whether an immediate is of the given kind.
pub open spec fn immediate_has_kind(imm: ImmediateV, kind: ImmediateKind) -> bool {
    match kind {
        ImmediateKind::Nothing => imm is Nothing,
        ImmediateKind::Index => imm is Index,
        ImmediateKind::TwoIndices => imm is TwoIndices,
        ImmediateKind::BlockType => imm is BlockType,
        ImmediateKind::LabelTable => imm is LabelTable,
        ImmediateKind::MemArg => imm is MemArg,
        ImmediateKind::MemIndex => imm is MemIndex,
        ImmediateKind::I32 => imm is I32,
        ImmediateKind::I64 => imm is I64,
        ImmediateKind::F32 => imm is F32,
        ImmediateKind::F64 => imm is F64,
    }
}

/// The immediate of an instruction, as its view.
pub open spec fn instruction_immediate(inst: Instruction) -> ImmediateV {
    match inst {
        Instruction::Unreachable => ImmediateV::Nothing,
        Instruction::Nop => ImmediateV::Nothing,
        Instruction::Block(block) => ImmediateV::BlockType(block_type_view(block.block_type)),
        Instruction::Loop(block) => ImmediateV::BlockType(block_type_view(block.block_type)),
        Instruction::If(block) => ImmediateV::BlockType(block_type_view(block.block_type)),
        Instruction::Else => ImmediateV::Nothing,
        Instruction::End => ImmediateV::Nothing,
        Instruction::Br(i) => ImmediateV::Index(i),
        Instruction::BrIf(i) => ImmediateV::Index(i),
        Instruction::BrTable(labels, default) => ImmediateV::LabelTable(labels@, default),
        Instruction::Return => ImmediateV::Nothing,
        Instruction::Call(i) => ImmediateV::Index(i),
        Instruction::CallIndirect(a, b) => ImmediateV::TwoIndices(a, b),
        Instruction::Drop => ImmediateV::Nothing,
        Instruction::Select => ImmediateV::Nothing,
        Instruction::LocalGet(i) => ImmediateV::Index(i),
        Instruction::LocalSet(i) => ImmediateV::Index(i),
        Instruction::LocalTee(i) => ImmediateV::Index(i),
        Instruction::GlobalGet(i) => ImmediateV::Index(i),
        Instruction::GlobalSet(i) => ImmediateV::Index(i),
        Instruction::I32Load(arg) => ImmediateV::MemArg(arg),
        Instruction::I64Load(arg) => ImmediateV::MemArg(arg),
        Instruction::F32Load(arg) => ImmediateV::MemArg(arg),
        Instruction::F64Load(arg) => ImmediateV::MemArg(arg),
        Instruction::I32Load8S(arg) => ImmediateV::MemArg(arg),
        Instruction::I32Load8U(arg) => ImmediateV::MemArg(arg),
        Instruction::I32Load16S(arg) => ImmediateV::MemArg(arg),
        Instruction::I32Load16U(arg) => ImmediateV::MemArg(arg),
        Instruction::I64Load8S(arg) => ImmediateV::MemArg(arg),
        Instruction::I64Load8U(arg) => ImmediateV::MemArg(arg),
        Instruction::I64Load16S(arg) => ImmediateV::MemArg(arg),
        Instruction::I64Load16U(arg) => ImmediateV::MemArg(arg),
        Instruction::I64Load32S(arg) => ImmediateV::MemArg(arg),
        Instruction::I64Load32U(arg) => ImmediateV::MemArg(arg),
        Instruction::I32Store(arg) => ImmediateV::MemArg(arg),
        Instruction::I64Store(arg) => ImmediateV::MemArg(arg),
        Instruction::F32Store(arg) => ImmediateV::MemArg(arg),
        Instruction::F64Store(arg) => ImmediateV::MemArg(arg),
        Instruction::I32Store8(arg) => ImmediateV::MemArg(arg),
        Instruction::I32Store16(arg) => ImmediateV::MemArg(arg),
        Instruction::I64Store8(arg) => ImmediateV::MemArg(arg),
        Instruction::I64Store16(arg) => ImmediateV::MemArg(arg),
        Instruction::I64Store32(arg) => ImmediateV::MemArg(arg),
        Instruction::MemorySize => ImmediateV::MemIndex,
        Instruction::MemoryGrow(i) => ImmediateV::Index(i),
        Instruction::I32Const(v) => ImmediateV::I32(v),
        Instruction::I64Const(v) => ImmediateV::I64(v),
        Instruction::F32Const(v) => ImmediateV::F32(v),
        Instruction::F64Const(v) => ImmediateV::F64(v),
        Instruction::I32Eqz => ImmediateV::Nothing,
        Instruction::I32Eq => ImmediateV::Nothing,
        Instruction::I32Ne => ImmediateV::Nothing,
        Instruction::I32LtS => ImmediateV::Nothing,
        Instruction::I32LtU => ImmediateV::Nothing,
        Instruction::I32GtS => ImmediateV::Nothing,
        Instruction::I32GtU => ImmediateV::Nothing,
        Instruction::I32LeS => ImmediateV::Nothing,
        Instruction::I32LeU => ImmediateV::Nothing,
        Instruction::I32GeS => ImmediateV::Nothing,
        Instruction::I32GeU => ImmediateV::Nothing,
        Instruction::I64Eqz => ImmediateV::Nothing,
        Instruction::I64Eq => ImmediateV::Nothing,
        Instruction::I64Ne => ImmediateV::Nothing,
        Instruction::I64LtS => ImmediateV::Nothing,
        Instruction::I64LtU => ImmediateV::Nothing,
        Instruction::I64GtS => ImmediateV::Nothing,
        Instruction::I64GtU => ImmediateV::Nothing,
        Instruction::I64LeS => ImmediateV::Nothing,
        Instruction::I64LeU => ImmediateV::Nothing,
        Instruction::I64GeS => ImmediateV::Nothing,
        Instruction::I64GeU => ImmediateV::Nothing,
        Instruction::F32Eq => ImmediateV::Nothing,
        Instruction::F32Ne => ImmediateV::Nothing,
        Instruction::F32Lt => ImmediateV::Nothing,
        Instruction::F32Gt => ImmediateV::Nothing,
        Instruction::F32Le => ImmediateV::Nothing,
        Instruction::F32Ge => ImmediateV::Nothing,
        Instruction::F64Eq => ImmediateV::Nothing,
        Instruction::F64Ne => ImmediateV::Nothing,
        Instruction::F64Lt => ImmediateV::Nothing,
        Instruction::F64Gt => ImmediateV::Nothing,
        Instruction::F64Le => ImmediateV::Nothing,
        Instruction::F64Ge => ImmediateV::Nothing,
        Instruction::I32Clz => ImmediateV::Nothing,
        Instruction::I32Ctz => ImmediateV::Nothing,
        Instruction::I32Popcnt => ImmediateV::Nothing,
        Instruction::I32Add => ImmediateV::Nothing,
        Instruction::I32Sub => ImmediateV::Nothing,
        Instruction::I32Mul => ImmediateV::Nothing,
        Instruction::I32DivS => ImmediateV::Nothing,
        Instruction::I32DivU => ImmediateV::Nothing,
        Instruction::I32RemS => ImmediateV::Nothing,
        Instruction::I32RemU => ImmediateV::Nothing,
        Instruction::I32And => ImmediateV::Nothing,
        Instruction::I32Or => ImmediateV::Nothing,
        Instruction::I32Xor => ImmediateV::Nothing,
        Instruction::I32ShL => ImmediateV::Nothing,
        Instruction::I32ShrS => ImmediateV::Nothing,
        Instruction::I32ShrU => ImmediateV::Nothing,
        Instruction::I32RtoL => ImmediateV::Nothing,
        Instruction::I32RtoR => ImmediateV::Nothing,
        Instruction::I64Clz => ImmediateV::Nothing,
        Instruction::I64Ctz => ImmediateV::Nothing,
        Instruction::I64Popcnt => ImmediateV::Nothing,
        Instruction::I64Add => ImmediateV::Nothing,
        Instruction::I64Sub => ImmediateV::Nothing,
        Instruction::I64Mul => ImmediateV::Nothing,
        Instruction::I64DivS => ImmediateV::Nothing,
        Instruction::I64DivU => ImmediateV::Nothing,
        Instruction::I64RemS => ImmediateV::Nothing,
        Instruction::I64RemU => ImmediateV::Nothing,
        Instruction::I64And => ImmediateV::Nothing,
        Instruction::I64Or => ImmediateV::Nothing,
        Instruction::I64Xor => ImmediateV::Nothing,
        Instruction::I64ShL => ImmediateV::Nothing,
        Instruction::I64ShrS => ImmediateV::Nothing,
        Instruction::I64ShrU => ImmediateV::Nothing,
        Instruction::I64RtoL => ImmediateV::Nothing,
        Instruction::I64RtoR => ImmediateV::Nothing,
        Instruction::F32Abs => ImmediateV::Nothing,
        Instruction::F32Neg => ImmediateV::Nothing,
        Instruction::F32Ceil => ImmediateV::Nothing,
        Instruction::F32Floor => ImmediateV::Nothing,
        Instruction::F32Trunc => ImmediateV::Nothing,
        Instruction::F32Nearest => ImmediateV::Nothing,
        Instruction::F32Sqrt => ImmediateV::Nothing,
        Instruction::F32Add => ImmediateV::Nothing,
        Instruction::F32Sub => ImmediateV::Nothing,
        Instruction::F32Mul => ImmediateV::Nothing,
        Instruction::F32Div => ImmediateV::Nothing,
        Instruction::F32Min => ImmediateV::Nothing,
        Instruction::F32Max => ImmediateV::Nothing,
        Instruction::F32Copysign => ImmediateV::Nothing,
        Instruction::F64Abs => ImmediateV::Nothing,
        Instruction::F64Neg => ImmediateV::Nothing,
        Instruction::F64Ceil => ImmediateV::Nothing,
        Instruction::F64Floor => ImmediateV::Nothing,
        Instruction::F64Trunc => ImmediateV::Nothing,
        Instruction::F64Nearest => ImmediateV::Nothing,
        Instruction::F64Sqrt => ImmediateV::Nothing,
        Instruction::F64Add => ImmediateV::Nothing,
        Instruction::F64Sub => ImmediateV::Nothing,
        Instruction::F64Mul => ImmediateV::Nothing,
        Instruction::F64Div => ImmediateV::Nothing,
        Instruction::F64Min => ImmediateV::Nothing,
        Instruction::F64Max => ImmediateV::Nothing,
        Instruction::F64Copysign => ImmediateV::Nothing,
        Instruction::I32WrapI64 => ImmediateV::Nothing,
        Instruction::I32TruncF32S => ImmediateV::Nothing,
        Instruction::I32TruncF32U => ImmediateV::Nothing,
        Instruction::I32TruncF64S => ImmediateV::Nothing,
        Instruction::I32TruncF64U => ImmediateV::Nothing,
        Instruction::I64ExtendI32S => ImmediateV::Nothing,
        Instruction::I64ExtendI32U => ImmediateV::Nothing,
        Instruction::I64TruncF32S => ImmediateV::Nothing,
        Instruction::I64TruncF32U => ImmediateV::Nothing,
        Instruction::I64TruncF64S => ImmediateV::Nothing,
        Instruction::I64TruncF64U => ImmediateV::Nothing,
        Instruction::F32ConvertI32S => ImmediateV::Nothing,
        Instruction::F32ConvertI32U => ImmediateV::Nothing,
        Instruction::F32ConvertI64S => ImmediateV::Nothing,
        Instruction::F32ConvertI64U => ImmediateV::Nothing,
        Instruction::F32DemoteF64 => ImmediateV::Nothing,
        Instruction::F64ConvertI32S => ImmediateV::Nothing,
        Instruction::F64ConvertI32U => ImmediateV::Nothing,
        Instruction::F64ConvertI64S => ImmediateV::Nothing,
        Instruction::F64ConvertI64U => ImmediateV::Nothing,
        Instruction::F64PromoteF32 => ImmediateV::Nothing,
        Instruction::I32ReinterpretF32 => ImmediateV::Nothing,
        Instruction::I64ReinterpretF64 => ImmediateV::Nothing,
        Instruction::F32ReinterpretI32 => ImmediateV::Nothing,
        Instruction::F64ReinterpretI64 => ImmediateV::Nothing,
        Instruction::I32Extend8S => ImmediateV::Nothing,
        Instruction::I32Extend16S => ImmediateV::Nothing,
        Instruction::I64Extend8S => ImmediateV::Nothing,
        Instruction::I64Extend16S => ImmediateV::Nothing,
        Instruction::I64Extend32S => ImmediateV::Nothing,
    }
}

impl View for Instruction {
    type V = (Opcode, ImmediateV);

    open spec fn view(&self) -> (Opcode, ImmediateV) {
        (instruction_opcode(*self), instruction_immediate(*self))
    }
}

/// The opcode of an instruction.
pub open spec fn instruction_opcode(inst: Instruction) -> Opcode {
    match inst {
        Instruction::Unreachable => Opcode::Unreachable,
        Instruction::Nop => Opcode::Nop,
        Instruction::Block(..) => Opcode::Block,
        Instruction::Loop(..) => Opcode::Loop,
        Instruction::If(..) => Opcode::If,
        Instruction::Else => Opcode::Else,
        Instruction::End => Opcode::End,
        Instruction::Br(..) => Opcode::Br,
        Instruction::BrIf(..) => Opcode::BrIf,
        Instruction::BrTable(..) => Opcode::BrTable,
        Instruction::Return => Opcode::Return,
        Instruction::Call(..) => Opcode::Call,
        Instruction::CallIndirect(..) => Opcode::CallIndirect,
        Instruction::Drop => Opcode::Drop,
        Instruction::Select => Opcode::Select,
        Instruction::LocalGet(..) => Opcode::LocalGet,
        Instruction::LocalSet(..) => Opcode::LocalSet,
        Instruction::LocalTee(..) => Opcode::LocalTee,
        Instruction::GlobalGet(..) => Opcode::GlobalGet,
        Instruction::GlobalSet(..) => Opcode::GlobalSet,
        Instruction::I32Load(..) => Opcode::I32Load,
        Instruction::I64Load(..) => Opcode::I64Load,
        Instruction::F32Load(..) => Opcode::F32Load,
        Instruction::F64Load(..) => Opcode::F64Load,
        Instruction::I32Load8S(..) => Opcode::I32Load8S,
        Instruction::I32Load8U(..) => Opcode::I32Load8U,
        Instruction::I32Load16S(..) => Opcode::I32Load16S,
        Instruction::I32Load16U(..) => Opcode::I32Load16U,
        Instruction::I64Load8S(..) => Opcode::I64Load8S,
        Instruction::I64Load8U(..) => Opcode::I64Load8U,
        Instruction::I64Load16S(..) => Opcode::I64Load16S,
        Instruction::I64Load16U(..) => Opcode::I64Load16U,
        Instruction::I64Load32S(..) => Opcode::I64Load32S,
        Instruction::I64Load32U(..) => Opcode::I64Load32U,
        Instruction::I32Store(..) => Opcode::I32Store,
        Instruction::I64Store(..) => Opcode::I64Store,
        Instruction::F32Store(..) => Opcode::F32Store,
        Instruction::F64Store(..) => Opcode::F64Store,
        Instruction::I32Store8(..) => Opcode::I32Store8,
        Instruction::I32Store16(..) => Opcode::I32Store16,
        Instruction::I64Store8(..) => Opcode::I64Store8,
        Instruction::I64Store16(..) => Opcode::I64Store16,
        Instruction::I64Store32(..) => Opcode::I64Store32,
        Instruction::MemorySize => Opcode::MemorySize,
        Instruction::MemoryGrow(..) => Opcode::MemoryGrow,
        Instruction::I32Const(..) => Opcode::I32Const,
        Instruction::I64Const(..) => Opcode::I64Const,
        Instruction::F32Const(..) => Opcode::F32Const,
        Instruction::F64Const(..) => Opcode::F64Const,
        Instruction::I32Eqz => Opcode::I32Eqz,
        Instruction::I32Eq => Opcode::I32Eq,
        Instruction::I32Ne => Opcode::I32Ne,
        Instruction::I32LtS => Opcode::I32LtS,
        Instruction::I32LtU => Opcode::I32LtU,
        Instruction::I32GtS => Opcode::I32GtS,
        Instruction::I32GtU => Opcode::I32GtU,
        Instruction::I32LeS => Opcode::I32LeS,
        Instruction::I32LeU => Opcode::I32LeU,
        Instruction::I32GeS => Opcode::I32GeS,
        Instruction::I32GeU => Opcode::I32GeU,
        Instruction::I64Eqz => Opcode::I64Eqz,
        Instruction::I64Eq => Opcode::I64Eq,
        Instruction::I64Ne => Opcode::I64Ne,
        Instruction::I64LtS => Opcode::I64LtS,
        Instruction::I64LtU => Opcode::I64LtU,
        Instruction::I64GtS => Opcode::I64GtS,
        Instruction::I64GtU => Opcode::I64GtU,
        Instruction::I64LeS => Opcode::I64LeS,
        Instruction::I64LeU => Opcode::I64LeU,
        Instruction::I64GeS => Opcode::I64GeS,
        Instruction::I64GeU => Opcode::I64GeU,
        Instruction::F32Eq => Opcode::F32Eq,
        Instruction::F32Ne => Opcode::F32Ne,
        Instruction::F32Lt => Opcode::F32Lt,
        Instruction::F32Gt => Opcode::F32Gt,
        Instruction::F32Le => Opcode::F32Le,
        Instruction::F32Ge => Opcode::F32Ge,
        Instruction::F64Eq => Opcode::F64Eq,
        Instruction::F64Ne => Opcode::F64Ne,
        Instruction::F64Lt => Opcode::F64Lt,
        Instruction::F64Gt => Opcode::F64Gt,
        Instruction::F64Le => Opcode::F64Le,
        Instruction::F64Ge => Opcode::F64Ge,
        Instruction::I32Clz => Opcode::I32Clz,
        Instruction::I32Ctz => Opcode::I32Ctz,
        Instruction::I32Popcnt => Opcode::I32Popcnt,
        Instruction::I32Add => Opcode::I32Add,
        Instruction::I32Sub => Opcode::I32Sub,
        Instruction::I32Mul => Opcode::I32Mul,
        Instruction::I32DivS => Opcode::I32DivS,
        Instruction::I32DivU => Opcode::I32DivU,
        Instruction::I32RemS => Opcode::I32RemS,
        Instruction::I32RemU => Opcode::I32RemU,
        Instruction::I32And => Opcode::I32And,
        Instruction::I32Or => Opcode::I32Or,
        Instruction::I32Xor => Opcode::I32Xor,
        Instruction::I32ShL => Opcode::I32ShL,
        Instruction::I32ShrS => Opcode::I32ShrS,
        Instruction::I32ShrU => Opcode::I32ShrU,
        Instruction::I32RtoL => Opcode::I32RtoL,
        Instruction::I32RtoR => Opcode::I32RtoR,
        Instruction::I64Clz => Opcode::I64Clz,
        Instruction::I64Ctz => Opcode::I64Ctz,
        Instruction::I64Popcnt => Opcode::I64Popcnt,
        Instruction::I64Add => Opcode::I64Add,
        Instruction::I64Sub => Opcode::I64Sub,
        Instruction::I64Mul => Opcode::I64Mul,
        Instruction::I64DivS => Opcode::I64DivS,
        Instruction::I64DivU => Opcode::I64DivU,
        Instruction::I64RemS => Opcode::I64RemS,
        Instruction::I64RemU => Opcode::I64RemU,
        Instruction::I64And => Opcode::I64And,
        Instruction::I64Or => Opcode::I64Or,
        Instruction::I64Xor => Opcode::I64Xor,
        Instruction::I64ShL => Opcode::I64ShL,
        Instruction::I64ShrS => Opcode::I64ShrS,
        Instruction::I64ShrU => Opcode::I64ShrU,
        Instruction::I64RtoL => Opcode::I64RtoL,
        Instruction::I64RtoR => Opcode::I64RtoR,
        Instruction::F32Abs => Opcode::F32Abs,
        Instruction::F32Neg => Opcode::F32Neg,
        Instruction::F32Ceil => Opcode::F32Ceil,
        Instruction::F32Floor => Opcode::F32Floor,
        Instruction::F32Trunc => Opcode::F32Trunc,
        Instruction::F32Nearest => Opcode::F32Nearest,
        Instruction::F32Sqrt => Opcode::F32Sqrt,
        Instruction::F32Add => Opcode::F32Add,
        Instruction::F32Sub => Opcode::F32Sub,
        Instruction::F32Mul => Opcode::F32Mul,
        Instruction::F32Div => Opcode::F32Div,
        Instruction::F32Min => Opcode::F32Min,
        Instruction::F32Max => Opcode::F32Max,
        Instruction::F32Copysign => Opcode::F32Copysign,
        Instruction::F64Abs => Opcode::F64Abs,
        Instruction::F64Neg => Opcode::F64Neg,
        Instruction::F64Ceil => Opcode::F64Ceil,
        Instruction::F64Floor => Opcode::F64Floor,
        Instruction::F64Trunc => Opcode::F64Trunc,
        Instruction::F64Nearest => Opcode::F64Nearest,
        Instruction::F64Sqrt => Opcode::F64Sqrt,
        Instruction::F64Add => Opcode::F64Add,
        Instruction::F64Sub => Opcode::F64Sub,
        Instruction::F64Mul => Opcode::F64Mul,
        Instruction::F64Div => Opcode::F64Div,
        Instruction::F64Min => Opcode::F64Min,
        Instruction::F64Max => Opcode::F64Max,
        Instruction::F64Copysign => Opcode::F64Copysign,
        Instruction::I32WrapI64 => Opcode::I32WrapI64,
        Instruction::I32TruncF32S => Opcode::I32TruncF32S,
        Instruction::I32TruncF32U => Opcode::I32TruncF32U,
        Instruction::I32TruncF64S => Opcode::I32TruncF64S,
        Instruction::I32TruncF64U => Opcode::I32TruncF64U,
        Instruction::I64ExtendI32S => Opcode::I64ExtendI32S,
        Instruction::I64ExtendI32U => Opcode::I64ExtendI32U,
        Instruction::I64TruncF32S => Opcode::I64TruncF32S,
        Instruction::I64TruncF32U => Opcode::I64TruncF32U,
        Instruction::I64TruncF64S => Opcode::I64TruncF64S,
        Instruction::I64TruncF64U => Opcode::I64TruncF64U,
        Instruction::F32ConvertI32S => Opcode::F32ConvertI32S,
        Instruction::F32ConvertI32U => Opcode::F32ConvertI32U,
        Instruction::F32ConvertI64S => Opcode::F32ConvertI64S,
        Instruction::F32ConvertI64U => Opcode::F32ConvertI64U,
        Instruction::F32DemoteF64 => Opcode::F32DemoteF64,
        Instruction::F64ConvertI32S => Opcode::F64ConvertI32S,
        Instruction::F64ConvertI32U => Opcode::F64ConvertI32U,
        Instruction::F64ConvertI64S => Opcode::F64ConvertI64S,
        Instruction::F64ConvertI64U => Opcode::F64ConvertI64U,
        Instruction::F64PromoteF32 => Opcode::F64PromoteF32,
        Instruction::I32ReinterpretF32 => Opcode::I32ReinterpretF32,
        Instruction::I64ReinterpretF64 => Opcode::I64ReinterpretF64,
        Instruction::F32ReinterpretI32 => Opcode::F32ReinterpretI32,
        Instruction::F64ReinterpretI64 => Opcode::F64ReinterpretI64,
        Instruction::I32Extend8S => Opcode::I32Extend8S,
        Instruction::I32Extend16S => Opcode::I32Extend16S,
        Instruction::I64Extend8S => Opcode::I64Extend8S,
        Instruction::I64Extend16S => Opcode::I64Extend16S,
        Instruction::I64Extend32S => Opcode::I64Extend32S,
    }
}

/// Builds the instruction of an opcode and an immediate of the opcode's kind.
#[verifier::spinoff_prover]
#[verifier::rlimit(50)]
pub fn make_instruction(op: Opcode, imm: Immediate) -> (inst: Instruction)
    requires
        immediate_has_kind(imm@, opcode_immediate(op)),
    ensures
        inst@ == (op, imm@),
{
    match op {
        Opcode::Unreachable => Instruction::Unreachable,
        Opcode::Nop => Instruction::Nop,
        Opcode::Block => Instruction::Block(Block { block_type: take_block_type(imm) }),
        Opcode::Loop => Instruction::Loop(Block { block_type: take_block_type(imm) }),
        Opcode::If => Instruction::If(Block { block_type: take_block_type(imm) }),
        Opcode::Else => Instruction::Else,
        Opcode::End => Instruction::End,
        Opcode::Br => Instruction::Br(take_index(imm)),
        Opcode::BrIf => Instruction::BrIf(take_index(imm)),
        Opcode::BrTable => {
            let (labels, default) = take_label_table(imm);
            Instruction::BrTable(labels, default)
        },
        Opcode::Return => Instruction::Return,
        Opcode::Call => Instruction::Call(take_index(imm)),
        Opcode::CallIndirect => {
            let (a, b) = take_two_indices(imm);
            Instruction::CallIndirect(a, b)
        },
        Opcode::Drop => Instruction::Drop,
        Opcode::Select => Instruction::Select,
        Opcode::LocalGet => Instruction::LocalGet(take_index(imm)),
        Opcode::LocalSet => Instruction::LocalSet(take_index(imm)),
        Opcode::LocalTee => Instruction::LocalTee(take_index(imm)),
        Opcode::GlobalGet => Instruction::GlobalGet(take_index(imm)),
        Opcode::GlobalSet => Instruction::GlobalSet(take_index(imm)),
        Opcode::I32Load => Instruction::I32Load(take_mem_arg(imm)),
        Opcode::I64Load => Instruction::I64Load(take_mem_arg(imm)),
        Opcode::F32Load => Instruction::F32Load(take_mem_arg(imm)),
        Opcode::F64Load => Instruction::F64Load(take_mem_arg(imm)),
        Opcode::I32Load8S => Instruction::I32Load8S(take_mem_arg(imm)),
        Opcode::I32Load8U => Instruction::I32Load8U(take_mem_arg(imm)),
        Opcode::I32Load16S => Instruction::I32Load16S(take_mem_arg(imm)),
        Opcode::I32Load16U => Instruction::I32Load16U(take_mem_arg(imm)),
        Opcode::I64Load8S => Instruction::I64Load8S(take_mem_arg(imm)),
        Opcode::I64Load8U => Instruction::I64Load8U(take_mem_arg(imm)),
        Opcode::I64Load16S => Instruction::I64Load16S(take_mem_arg(imm)),
        Opcode::I64Load16U => Instruction::I64Load16U(take_mem_arg(imm)),
        Opcode::I64Load32S => Instruction::I64Load32S(take_mem_arg(imm)),
        Opcode::I64Load32U => Instruction::I64Load32U(take_mem_arg(imm)),
        Opcode::I32Store => Instruction::I32Store(take_mem_arg(imm)),
        Opcode::I64Store => Instruction::I64Store(take_mem_arg(imm)),
        Opcode::F32Store => Instruction::F32Store(take_mem_arg(imm)),
        Opcode::F64Store => Instruction::F64Store(take_mem_arg(imm)),
        Opcode::I32Store8 => Instruction::I32Store8(take_mem_arg(imm)),
        Opcode::I32Store16 => Instruction::I32Store16(take_mem_arg(imm)),
        Opcode::I64Store8 => Instruction::I64Store8(take_mem_arg(imm)),
        Opcode::I64Store16 => Instruction::I64Store16(take_mem_arg(imm)),
        Opcode::I64Store32 => Instruction::I64Store32(take_mem_arg(imm)),
        Opcode::MemorySize => Instruction::MemorySize,
        Opcode::MemoryGrow => Instruction::MemoryGrow(take_index(imm)),
        Opcode::I32Const => Instruction::I32Const(take_i32(imm)),
        Opcode::I64Const => Instruction::I64Const(take_i64(imm)),
        Opcode::F32Const => Instruction::F32Const(take_f32(imm)),
        Opcode::F64Const => Instruction::F64Const(take_f64(imm)),
        Opcode::I32Eqz => Instruction::I32Eqz,
        Opcode::I32Eq => Instruction::I32Eq,
        Opcode::I32Ne => Instruction::I32Ne,
        Opcode::I32LtS => Instruction::I32LtS,
        Opcode::I32LtU => Instruction::I32LtU,
        Opcode::I32GtS => Instruction::I32GtS,
        Opcode::I32GtU => Instruction::I32GtU,
        Opcode::I32LeS => Instruction::I32LeS,
        Opcode::I32LeU => Instruction::I32LeU,
        Opcode::I32GeS => Instruction::I32GeS,
        Opcode::I32GeU => Instruction::I32GeU,
        Opcode::I64Eqz => Instruction::I64Eqz,
        Opcode::I64Eq => Instruction::I64Eq,
        Opcode::I64Ne => Instruction::I64Ne,
        Opcode::I64LtS => Instruction::I64LtS,
        Opcode::I64LtU => Instruction::I64LtU,
        Opcode::I64GtS => Instruction::I64GtS,
        Opcode::I64GtU => Instruction::I64GtU,
        Opcode::I64LeS => Instruction::I64LeS,
        Opcode::I64LeU => Instruction::I64LeU,
        Opcode::I64GeS => Instruction::I64GeS,
        Opcode::I64GeU => Instruction::I64GeU,
        Opcode::F32Eq => Instruction::F32Eq,
        Opcode::F32Ne => Instruction::F32Ne,
        Opcode::F32Lt => Instruction::F32Lt,
        Opcode::F32Gt => Instruction::F32Gt,
        Opcode::F32Le => Instruction::F32Le,
        Opcode::F32Ge => Instruction::F32Ge,
        Opcode::F64Eq => Instruction::F64Eq,
        Opcode::F64Ne => Instruction::F64Ne,
        Opcode::F64Lt => Instruction::F64Lt,
        Opcode::F64Gt => Instruction::F64Gt,
        Opcode::F64Le => Instruction::F64Le,
        Opcode::F64Ge => Instruction::F64Ge,
        Opcode::I32Clz => Instruction::I32Clz,
        Opcode::I32Ctz => Instruction::I32Ctz,
        Opcode::I32Popcnt => Instruction::I32Popcnt,
        Opcode::I32Add => Instruction::I32Add,
        Opcode::I32Sub => Instruction::I32Sub,
        Opcode::I32Mul => Instruction::I32Mul,
        Opcode::I32DivS => Instruction::I32DivS,
        Opcode::I32DivU => Instruction::I32DivU,
        Opcode::I32RemS => Instruction::I32RemS,
        Opcode::I32RemU => Instruction::I32RemU,
        Opcode::I32And => Instruction::I32And,
        Opcode::I32Or => Instruction::I32Or,
        Opcode::I32Xor => Instruction::I32Xor,
        Opcode::I32ShL => Instruction::I32ShL,
        Opcode::I32ShrS => Instruction::I32ShrS,
        Opcode::I32ShrU => Instruction::I32ShrU,
        Opcode::I32RtoL => Instruction::I32RtoL,
        Opcode::I32RtoR => Instruction::I32RtoR,
        Opcode::I64Clz => Instruction::I64Clz,
        Opcode::I64Ctz => Instruction::I64Ctz,
        Opcode::I64Popcnt => Instruction::I64Popcnt,
        Opcode::I64Add => Instruction::I64Add,
        Opcode::I64Sub => Instruction::I64Sub,
        Opcode::I64Mul => Instruction::I64Mul,
        Opcode::I64DivS => Instruction::I64DivS,
        Opcode::I64DivU => Instruction::I64DivU,
        Opcode::I64RemS => Instruction::I64RemS,
        Opcode::I64RemU => Instruction::I64RemU,
        Opcode::I64And => Instruction::I64And,
        Opcode::I64Or => Instruction::I64Or,
        Opcode::I64Xor => Instruction::I64Xor,
        Opcode::I64ShL => Instruction::I64ShL,
        Opcode::I64ShrS => Instruction::I64ShrS,
        Opcode::I64ShrU => Instruction::I64ShrU,
        Opcode::I64RtoL => Instruction::I64RtoL,
        Opcode::I64RtoR => Instruction::I64RtoR,
        Opcode::F32Abs => Instruction::F32Abs,
        Opcode::F32Neg => Instruction::F32Neg,
        Opcode::F32Ceil => Instruction::F32Ceil,
        Opcode::F32Floor => Instruction::F32Floor,
        Opcode::F32Trunc => Instruction::F32Trunc,
        Opcode::F32Nearest => Instruction::F32Nearest,
        Opcode::F32Sqrt => Instruction::F32Sqrt,
        Opcode::F32Add => Instruction::F32Add,
        Opcode::F32Sub => Instruction::F32Sub,
        Opcode::F32Mul => Instruction::F32Mul,
        Opcode::F32Div => Instruction::F32Div,
        Opcode::F32Min => Instruction::F32Min,
        Opcode::F32Max => Instruction::F32Max,
        Opcode::F32Copysign => Instruction::F32Copysign,
        Opcode::F64Abs => Instruction::F64Abs,
        Opcode::F64Neg => Instruction::F64Neg,
        Opcode::F64Ceil => Instruction::F64Ceil,
        Opcode::F64Floor => Instruction::F64Floor,
        Opcode::F64Trunc => Instruction::F64Trunc,
        Opcode::F64Nearest => Instruction::F64Nearest,
        Opcode::F64Sqrt => Instruction::F64Sqrt,
        Opcode::F64Add => Instruction::F64Add,
        Opcode::F64Sub => Instruction::F64Sub,
        Opcode::F64Mul => Instruction::F64Mul,
        Opcode::F64Div => Instruction::F64Div,
        Opcode::F64Min => Instruction::F64Min,
        Opcode::F64Max => Instruction::F64Max,
        Opcode::F64Copysign => Instruction::F64Copysign,
        Opcode::I32WrapI64 => Instruction::I32WrapI64,
        Opcode::I32TruncF32S => Instruction::I32TruncF32S,
        Opcode::I32TruncF32U => Instruction::I32TruncF32U,
        Opcode::I32TruncF64S => Instruction::I32TruncF64S,
        Opcode::I32TruncF64U => Instruction::I32TruncF64U,
        Opcode::I64ExtendI32S => Instruction::I64ExtendI32S,
        Opcode::I64ExtendI32U => Instruction::I64ExtendI32U,
        Opcode::I64TruncF32S => Instruction::I64TruncF32S,
        Opcode::I64TruncF32U => Instruction::I64TruncF32U,
        Opcode::I64TruncF64S => Instruction::I64TruncF64S,
        Opcode::I64TruncF64U => Instruction::I64TruncF64U,
        Opcode::F32ConvertI32S => Instruction::F32ConvertI32S,
        Opcode::F32ConvertI32U => Instruction::F32ConvertI32U,
        Opcode::F32ConvertI64S => Instruction::F32ConvertI64S,
        Opcode::F32ConvertI64U => Instruction::F32ConvertI64U,
        Opcode::F32DemoteF64 => Instruction::F32DemoteF64,
        Opcode::F64ConvertI32S => Instruction::F64ConvertI32S,
        Opcode::F64ConvertI32U => Instruction::F64ConvertI32U,
        Opcode::F64ConvertI64S => Instruction::F64ConvertI64S,
        Opcode::F64ConvertI64U => Instruction::F64ConvertI64U,
        Opcode::F64PromoteF32 => Instruction::F64PromoteF32,
        Opcode::I32ReinterpretF32 => Instruction::I32ReinterpretF32,
        Opcode::I64ReinterpretF64 => Instruction::I64ReinterpretF64,
        Opcode::F32ReinterpretI32 => Instruction::F32ReinterpretI32,
        Opcode::F64ReinterpretI64 => Instruction::F64ReinterpretI64,
        Opcode::I32Extend8S => Instruction::I32Extend8S,
        Opcode::I32Extend16S => Instruction::I32Extend16S,
        Opcode::I64Extend8S => Instruction::I64Extend8S,
        Opcode::I64Extend16S => Instruction::I64Extend16S,
        Opcode::I64Extend32S => Instruction::I64Extend32S,
    }
}

fn take_index(imm: Immediate) -> (v: u32)
    requires
        imm is Index,
    ensures
        v == imm->Index_0,
{
    match imm {
        Immediate::Index(x) => x,
        _ => 0,
    }
}

fn take_two_indices(imm: Immediate) -> (v: (u32, u32))
    requires
        imm is TwoIndices,
    ensures
        v == (imm->TwoIndices_0, imm->TwoIndices_1),
{
    match imm {
        Immediate::TwoIndices(a, b) => (a, b),
        _ => (0, 0),
    }
}

fn take_block_type(imm: Immediate) -> (v: BlockType)
    requires
        imm is BlockType,
    ensures
        block_type_view(v) == imm@->BlockType_0,
{
    match imm {
        Immediate::BlockType(x) => x,
        _ => BlockType::Empty,
    }
}

fn take_label_table(imm: Immediate) -> (v: (Vec<u32>, u32))
    requires
        imm is LabelTable,
    ensures
        v.0@ == imm@->LabelTable_0 && v.1 == imm@->LabelTable_1,
{
    match imm {
        Immediate::LabelTable(labels, default) => (labels, default),
        _ => (Vec::new(), 0),
    }
}

fn take_mem_arg(imm: Immediate) -> (v: MemoryArg)
    requires
        imm is MemArg,
    ensures
        v == imm->MemArg_0,
{
    match imm {
        Immediate::MemArg(x) => x,
        _ => MemoryArg { align: 0, offset: 0 },
    }
}

fn take_i32(imm: Immediate) -> (v: i32)
    requires
        imm is I32,
    ensures
        v == imm->I32_0,
{
    match imm {
        Immediate::I32(x) => x,
        _ => 0,
    }
}

fn take_i64(imm: Immediate) -> (v: i64)
    requires
        imm is I64,
    ensures
        v == imm->I64_0,
{
    match imm {
        Immediate::I64(x) => x,
        _ => 0,
    }
}

fn take_f32(imm: Immediate) -> (v: u32)
    requires
        imm is F32,
    ensures
        v == imm->F32_0,
{
    match imm {
        Immediate::F32(x) => x,
        _ => 0,
    }
}

fn take_f64(imm: Immediate) -> (v: u64)
    requires
        imm is F64,
    ensures
        v == imm->F64_0,
{
    match imm {
        Immediate::F64(x) => x,
        _ => 0,
    }
}


/// A copy of a sequence of indices.
fn copy_u32s(v: &Vec<u32>) -> (r: Vec<u32>)
    ensures
        r@ == v@,
{
    let mut r: Vec<u32> = Vec::new();
    let mut i: usize = 0;
    while i < v.len()
        invariant
            i <= v.len(),
            r@ == v@.take(i as int),
        decreases v.len() - i,
    {
        r.push(v[i]);
        i = i + 1;
        assert(r@ =~= v@.take(i as int));
    }
    assert(v@.take(v.len() as int) =~= v@);
    r
}

/// A copy of a block type.
fn copy_block_type(bt: &BlockType) -> (r: BlockType)
    ensures
        block_type_view(r) == block_type_view(*bt),
{
    match bt {
        BlockType::Empty => BlockType::Empty,
        BlockType::Value(types) => {
            let mut r: Vec<ValueType> = Vec::new();
            let mut i: usize = 0;
            while i < types.len()
                invariant
                    i <= types.len(),
                    r@ == types@.take(i as int),
                decreases types.len() - i,
            {
                r.push(types[i]);
                i = i + 1;
                assert(r@ =~= types@.take(i as int));
            }
            assert(types@.take(types.len() as int) =~= types@);
            BlockType::Value(r)
        },
    }
}

impl Instruction {
    /// A copy of the instruction.
    #[verifier::spinoff_prover]
    #[verifier::rlimit(50)]
    pub fn duplicate(&self) -> (r: Instruction)
        ensures
            r@ == self@,
    {
        match self {
            Instruction::Unreachable => Instruction::Unreachable,
            Instruction::Nop => Instruction::Nop,
            Instruction::Block(b) => Instruction::Block(Block { block_type: copy_block_type(&b.block_type) }),
            Instruction::Loop(b) => Instruction::Loop(Block { block_type: copy_block_type(&b.block_type) }),
            Instruction::If(b) => Instruction::If(Block { block_type: copy_block_type(&b.block_type) }),
            Instruction::Else => Instruction::Else,
            Instruction::End => Instruction::End,
            Instruction::Br(x) => Instruction::Br(*x),
            Instruction::BrIf(x) => Instruction::BrIf(*x),
            Instruction::BrTable(l, d) => Instruction::BrTable(copy_u32s(l), *d),
            Instruction::Return => Instruction::Return,
            Instruction::Call(x) => Instruction::Call(*x),
            Instruction::CallIndirect(a, c) => Instruction::CallIndirect(*a, *c),
            Instruction::Drop => Instruction::Drop,
            Instruction::Select => Instruction::Select,
            Instruction::LocalGet(x) => Instruction::LocalGet(*x),
            Instruction::LocalSet(x) => Instruction::LocalSet(*x),
            Instruction::LocalTee(x) => Instruction::LocalTee(*x),
            Instruction::GlobalGet(x) => Instruction::GlobalGet(*x),
            Instruction::GlobalSet(x) => Instruction::GlobalSet(*x),
            Instruction::I32Load(x) => Instruction::I32Load(*x),
            Instruction::I64Load(x) => Instruction::I64Load(*x),
            Instruction::F32Load(x) => Instruction::F32Load(*x),
            Instruction::F64Load(x) => Instruction::F64Load(*x),
            Instruction::I32Load8S(x) => Instruction::I32Load8S(*x),
            Instruction::I32Load8U(x) => Instruction::I32Load8U(*x),
            Instruction::I32Load16S(x) => Instruction::I32Load16S(*x),
            Instruction::I32Load16U(x) => Instruction::I32Load16U(*x),
            Instruction::I64Load8S(x) => Instruction::I64Load8S(*x),
            Instruction::I64Load8U(x) => Instruction::I64Load8U(*x),
            Instruction::I64Load16S(x) => Instruction::I64Load16S(*x),
            Instruction::I64Load16U(x) => Instruction::I64Load16U(*x),
            Instruction::I64Load32S(x) => Instruction::I64Load32S(*x),
            Instruction::I64Load32U(x) => Instruction::I64Load32U(*x),
            Instruction::I32Store(x) => Instruction::I32Store(*x),
            Instruction::I64Store(x) => Instruction::I64Store(*x),
            Instruction::F32Store(x) => Instruction::F32Store(*x),
            Instruction::F64Store(x) => Instruction::F64Store(*x),
            Instruction::I32Store8(x) => Instruction::I32Store8(*x),
            Instruction::I32Store16(x) => Instruction::I32Store16(*x),
            Instruction::I64Store8(x) => Instruction::I64Store8(*x),
            Instruction::I64Store16(x) => Instruction::I64Store16(*x),
            Instruction::I64Store32(x) => Instruction::I64Store32(*x),
            Instruction::MemorySize => Instruction::MemorySize,
            Instruction::MemoryGrow(x) => Instruction::MemoryGrow(*x),
            Instruction::I32Const(x) => Instruction::I32Const(*x),
            Instruction::I64Const(x) => Instruction::I64Const(*x),
            Instruction::F32Const(x) => Instruction::F32Const(*x),
            Instruction::F64Const(x) => Instruction::F64Const(*x),
            Instruction::I32Eqz => Instruction::I32Eqz,
            Instruction::I32Eq => Instruction::I32Eq,
            Instruction::I32Ne => Instruction::I32Ne,
            Instruction::I32LtS => Instruction::I32LtS,
            Instruction::I32LtU => Instruction::I32LtU,
            Instruction::I32GtS => Instruction::I32GtS,
            Instruction::I32GtU => Instruction::I32GtU,
            Instruction::I32LeS => Instruction::I32LeS,
            Instruction::I32LeU => Instruction::I32LeU,
            Instruction::I32GeS => Instruction::I32GeS,
            Instruction::I32GeU => Instruction::I32GeU,
            Instruction::I64Eqz => Instruction::I64Eqz,
            Instruction::I64Eq => Instruction::I64Eq,
            Instruction::I64Ne => Instruction::I64Ne,
            Instruction::I64LtS => Instruction::I64LtS,
            Instruction::I64LtU => Instruction::I64LtU,
            Instruction::I64GtS => Instruction::I64GtS,
            Instruction::I64GtU => Instruction::I64GtU,
            Instruction::I64LeS => Instruction::I64LeS,
            Instruction::I64LeU => Instruction::I64LeU,
            Instruction::I64GeS => Instruction::I64GeS,
            Instruction::I64GeU => Instruction::I64GeU,
            Instruction::F32Eq => Instruction::F32Eq,
            Instruction::F32Ne => Instruction::F32Ne,
            Instruction::F32Lt => Instruction::F32Lt,
            Instruction::F32Gt => Instruction::F32Gt,
            Instruction::F32Le => Instruction::F32Le,
            Instruction::F32Ge => Instruction::F32Ge,
            Instruction::F64Eq => Instruction::F64Eq,
            Instruction::F64Ne => Instruction::F64Ne,
            Instruction::F64Lt => Instruction::F64Lt,
            Instruction::F64Gt => Instruction::F64Gt,
            Instruction::F64Le => Instruction::F64Le,
            Instruction::F64Ge => Instruction::F64Ge,
            Instruction::I32Clz => Instruction::I32Clz,
            Instruction::I32Ctz => Instruction::I32Ctz,
            Instruction::I32Popcnt => Instruction::I32Popcnt,
            Instruction::I32Add => Instruction::I32Add,
            Instruction::I32Sub => Instruction::I32Sub,
            Instruction::I32Mul => Instruction::I32Mul,
            Instruction::I32DivS => Instruction::I32DivS,
            Instruction::I32DivU => Instruction::I32DivU,
            Instruction::I32RemS => Instruction::I32RemS,
            Instruction::I32RemU => Instruction::I32RemU,
            Instruction::I32And => Instruction::I32And,
            Instruction::I32Or => Instruction::I32Or,
            Instruction::I32Xor => Instruction::I32Xor,
            Instruction::I32ShL => Instruction::I32ShL,
            Instruction::I32ShrS => Instruction::I32ShrS,
            Instruction::I32ShrU => Instruction::I32ShrU,
            Instruction::I32RtoL => Instruction::I32RtoL,
            Instruction::I32RtoR => Instruction::I32RtoR,
            Instruction::I64Clz => Instruction::I64Clz,
            Instruction::I64Ctz => Instruction::I64Ctz,
            Instruction::I64Popcnt => Instruction::I64Popcnt,
            Instruction::I64Add => Instruction::I64Add,
            Instruction::I64Sub => Instruction::I64Sub,
            Instruction::I64Mul => Instruction::I64Mul,
            Instruction::I64DivS => Instruction::I64DivS,
            Instruction::I64DivU => Instruction::I64DivU,
            Instruction::I64RemS => Instruction::I64RemS,
            Instruction::I64RemU => Instruction::I64RemU,
            Instruction::I64And => Instruction::I64And,
            Instruction::I64Or => Instruction::I64Or,
            Instruction::I64Xor => Instruction::I64Xor,
            Instruction::I64ShL => Instruction::I64ShL,
            Instruction::I64ShrS => Instruction::I64ShrS,
            Instruction::I64ShrU => Instruction::I64ShrU,
            Instruction::I64RtoL => Instruction::I64RtoL,
            Instruction::I64RtoR => Instruction::I64RtoR,
            Instruction::F32Abs => Instruction::F32Abs,
            Instruction::F32Neg => Instruction::F32Neg,
            Instruction::F32Ceil => Instruction::F32Ceil,
            Instruction::F32Floor => Instruction::F32Floor,
            Instruction::F32Trunc => Instruction::F32Trunc,
            Instruction::F32Nearest => Instruction::F32Nearest,
            Instruction::F32Sqrt => Instruction::F32Sqrt,
            Instruction::F32Add => Instruction::F32Add,
            Instruction::F32Sub => Instruction::F32Sub,
            Instruction::F32Mul => Instruction::F32Mul,
            Instruction::F32Div => Instruction::F32Div,
            Instruction::F32Min => Instruction::F32Min,
            Instruction::F32Max => Instruction::F32Max,
            Instruction::F32Copysign => Instruction::F32Copysign,
            Instruction::F64Abs => Instruction::F64Abs,
            Instruction::F64Neg => Instruction::F64Neg,
            Instruction::F64Ceil => Instruction::F64Ceil,
            Instruction::F64Floor => Instruction::F64Floor,
            Instruction::F64Trunc => Instruction::F64Trunc,
            Instruction::F64Nearest => Instruction::F64Nearest,
            Instruction::F64Sqrt => Instruction::F64Sqrt,
            Instruction::F64Add => Instruction::F64Add,
            Instruction::F64Sub => Instruction::F64Sub,
            Instruction::F64Mul => Instruction::F64Mul,
            Instruction::F64Div => Instruction::F64Div,
            Instruction::F64Min => Instruction::F64Min,
            Instruction::F64Max => Instruction::F64Max,
            Instruction::F64Copysign => Instruction::F64Copysign,
            Instruction::I32WrapI64 => Instruction::I32WrapI64,
            Instruction::I32TruncF32S => Instruction::I32TruncF32S,
            Instruction::I32TruncF32U => Instruction::I32TruncF32U,
            Instruction::I32TruncF64S => Instruction::I32TruncF64S,
            Instruction::I32TruncF64U => Instruction::I32TruncF64U,
            Instruction::I64ExtendI32S => Instruction::I64ExtendI32S,
            Instruction::I64ExtendI32U => Instruction::I64ExtendI32U,
            Instruction::I64TruncF32S => Instruction::I64TruncF32S,
            Instruction::I64TruncF32U => Instruction::I64TruncF32U,
            Instruction::I64TruncF64S => Instruction::I64TruncF64S,
            Instruction::I64TruncF64U => Instruction::I64TruncF64U,
            Instruction::F32ConvertI32S => Instruction::F32ConvertI32S,
            Instruction::F32ConvertI32U => Instruction::F32ConvertI32U,
            Instruction::F32ConvertI64S => Instruction::F32ConvertI64S,
            Instruction::F32ConvertI64U => Instruction::F32ConvertI64U,
            Instruction::F32DemoteF64 => Instruction::F32DemoteF64,
            Instruction::F64ConvertI32S => Instruction::F64ConvertI32S,
            Instruction::F64ConvertI32U => Instruction::F64ConvertI32U,
            Instruction::F64ConvertI64S => Instruction::F64ConvertI64S,
            Instruction::F64ConvertI64U => Instruction::F64ConvertI64U,
            Instruction::F64PromoteF32 => Instruction::F64PromoteF32,
            Instruction::I32ReinterpretF32 => Instruction::I32ReinterpretF32,
            Instruction::I64ReinterpretF64 => Instruction::I64ReinterpretF64,
            Instruction::F32ReinterpretI32 => Instruction::F32ReinterpretI32,
            Instruction::F64ReinterpretI64 => Instruction::F64ReinterpretI64,
            Instruction::I32Extend8S => Instruction::I32Extend8S,
            Instruction::I32Extend16S => Instruction::I32Extend16S,
            Instruction::I64Extend8S => Instruction::I64Extend8S,
            Instruction::I64Extend16S => Instruction::I64Extend16S,
            Instruction::I64Extend32S => Instruction::I64Extend32S,
        }
    }

    /// The opcode of the instruction.
    #[verifier::spinoff_prover]
    #[verifier::rlimit(50)]
    pub fn opcode(&self) -> (op: Opcode)
        ensures
            op == self@.0,
    {
        match self {
            Instruction::Unreachable => Opcode::Unreachable,
            Instruction::Nop => Opcode::Nop,
            Instruction::Block(_) => Opcode::Block,
            Instruction::Loop(_) => Opcode::Loop,
            Instruction::If(_) => Opcode::If,
            Instruction::Else => Opcode::Else,
            Instruction::End => Opcode::End,
            Instruction::Br(_) => Opcode::Br,
            Instruction::BrIf(_) => Opcode::BrIf,
            Instruction::BrTable(..) => Opcode::BrTable,
            Instruction::Return => Opcode::Return,
            Instruction::Call(_) => Opcode::Call,
            Instruction::CallIndirect(..) => Opcode::CallIndirect,
            Instruction::Drop => Opcode::Drop,
            Instruction::Select => Opcode::Select,
            Instruction::LocalGet(_) => Opcode::LocalGet,
            Instruction::LocalSet(_) => Opcode::LocalSet,
            Instruction::LocalTee(_) => Opcode::LocalTee,
            Instruction::GlobalGet(_) => Opcode::GlobalGet,
            Instruction::GlobalSet(_) => Opcode::GlobalSet,
            Instruction::I32Load(_) => Opcode::I32Load,
            Instruction::I64Load(_) => Opcode::I64Load,
            Instruction::F32Load(_) => Opcode::F32Load,
            Instruction::F64Load(_) => Opcode::F64Load,
            Instruction::I32Load8S(_) => Opcode::I32Load8S,
            Instruction::I32Load8U(_) => Opcode::I32Load8U,
            Instruction::I32Load16S(_) => Opcode::I32Load16S,
            Instruction::I32Load16U(_) => Opcode::I32Load16U,
            Instruction::I64Load8S(_) => Opcode::I64Load8S,
            Instruction::I64Load8U(_) => Opcode::I64Load8U,
            Instruction::I64Load16S(_) => Opcode::I64Load16S,
            Instruction::I64Load16U(_) => Opcode::I64Load16U,
            Instruction::I64Load32S(_) => Opcode::I64Load32S,
            Instruction::I64Load32U(_) => Opcode::I64Load32U,
            Instruction::I32Store(_) => Opcode::I32Store,
            Instruction::I64Store(_) => Opcode::I64Store,
            Instruction::F32Store(_) => Opcode::F32Store,
            Instruction::F64Store(_) => Opcode::F64Store,
            Instruction::I32Store8(_) => Opcode::I32Store8,
            Instruction::I32Store16(_) => Opcode::I32Store16,
            Instruction::I64Store8(_) => Opcode::I64Store8,
            Instruction::I64Store16(_) => Opcode::I64Store16,
            Instruction::I64Store32(_) => Opcode::I64Store32,
            Instruction::MemorySize => Opcode::MemorySize,
            Instruction::MemoryGrow(_) => Opcode::MemoryGrow,
            Instruction::I32Const(_) => Opcode::I32Const,
            Instruction::I64Const(_) => Opcode::I64Const,
            Instruction::F32Const(_) => Opcode::F32Const,
            Instruction::F64Const(_) => Opcode::F64Const,
            Instruction::I32Eqz => Opcode::I32Eqz,
            Instruction::I32Eq => Opcode::I32Eq,
            Instruction::I32Ne => Opcode::I32Ne,
            Instruction::I32LtS => Opcode::I32LtS,
            Instruction::I32LtU => Opcode::I32LtU,
            Instruction::I32GtS => Opcode::I32GtS,
            Instruction::I32GtU => Opcode::I32GtU,
            Instruction::I32LeS => Opcode::I32LeS,
            Instruction::I32LeU => Opcode::I32LeU,
            Instruction::I32GeS => Opcode::I32GeS,
            Instruction::I32GeU => Opcode::I32GeU,
            Instruction::I64Eqz => Opcode::I64Eqz,
            Instruction::I64Eq => Opcode::I64Eq,
            Instruction::I64Ne => Opcode::I64Ne,
            Instruction::I64LtS => Opcode::I64LtS,
            Instruction::I64LtU => Opcode::I64LtU,
            Instruction::I64GtS => Opcode::I64GtS,
            Instruction::I64GtU => Opcode::I64GtU,
            Instruction::I64LeS => Opcode::I64LeS,
            Instruction::I64LeU => Opcode::I64LeU,
            Instruction::I64GeS => Opcode::I64GeS,
            Instruction::I64GeU => Opcode::I64GeU,
            Instruction::F32Eq => Opcode::F32Eq,
            Instruction::F32Ne => Opcode::F32Ne,
            Instruction::F32Lt => Opcode::F32Lt,
            Instruction::F32Gt => Opcode::F32Gt,
            Instruction::F32Le => Opcode::F32Le,
            Instruction::F32Ge => Opcode::F32Ge,
            Instruction::F64Eq => Opcode::F64Eq,
            Instruction::F64Ne => Opcode::F64Ne,
            Instruction::F64Lt => Opcode::F64Lt,
            Instruction::F64Gt => Opcode::F64Gt,
            Instruction::F64Le => Opcode::F64Le,
            Instruction::F64Ge => Opcode::F64Ge,
            Instruction::I32Clz => Opcode::I32Clz,
            Instruction::I32Ctz => Opcode::I32Ctz,
            Instruction::I32Popcnt => Opcode::I32Popcnt,
            Instruction::I32Add => Opcode::I32Add,
            Instruction::I32Sub => Opcode::I32Sub,
            Instruction::I32Mul => Opcode::I32Mul,
            Instruction::I32DivS => Opcode::I32DivS,
            Instruction::I32DivU => Opcode::I32DivU,
            Instruction::I32RemS => Opcode::I32RemS,
            Instruction::I32RemU => Opcode::I32RemU,
            Instruction::I32And => Opcode::I32And,
            Instruction::I32Or => Opcode::I32Or,
            Instruction::I32Xor => Opcode::I32Xor,
            Instruction::I32ShL => Opcode::I32ShL,
            Instruction::I32ShrS => Opcode::I32ShrS,
            Instruction::I32ShrU => Opcode::I32ShrU,
            Instruction::I32RtoL => Opcode::I32RtoL,
            Instruction::I32RtoR => Opcode::I32RtoR,
            Instruction::I64Clz => Opcode::I64Clz,
            Instruction::I64Ctz => Opcode::I64Ctz,
            Instruction::I64Popcnt => Opcode::I64Popcnt,
            Instruction::I64Add => Opcode::I64Add,
            Instruction::I64Sub => Opcode::I64Sub,
            Instruction::I64Mul => Opcode::I64Mul,
            Instruction::I64DivS => Opcode::I64DivS,
            Instruction::I64DivU => Opcode::I64DivU,
            Instruction::I64RemS => Opcode::I64RemS,
            Instruction::I64RemU => Opcode::I64RemU,
            Instruction::I64And => Opcode::I64And,
            Instruction::I64Or => Opcode::I64Or,
            Instruction::I64Xor => Opcode::I64Xor,
            Instruction::I64ShL => Opcode::I64ShL,
            Instruction::I64ShrS => Opcode::I64ShrS,
            Instruction::I64ShrU => Opcode::I64ShrU,
            Instruction::I64RtoL => Opcode::I64RtoL,
            Instruction::I64RtoR => Opcode::I64RtoR,
            Instruction::F32Abs => Opcode::F32Abs,
            Instruction::F32Neg => Opcode::F32Neg,
            Instruction::F32Ceil => Opcode::F32Ceil,
            Instruction::F32Floor => Opcode::F32Floor,
            Instruction::F32Trunc => Opcode::F32Trunc,
            Instruction::F32Nearest => Opcode::F32Nearest,
            Instruction::F32Sqrt => Opcode::F32Sqrt,
            Instruction::F32Add => Opcode::F32Add,
            Instruction::F32Sub => Opcode::F32Sub,
            Instruction::F32Mul => Opcode::F32Mul,
            Instruction::F32Div => Opcode::F32Div,
            Instruction::F32Min => Opcode::F32Min,
            Instruction::F32Max => Opcode::F32Max,
            Instruction::F32Copysign => Opcode::F32Copysign,
            Instruction::F64Abs => Opcode::F64Abs,
            Instruction::F64Neg => Opcode::F64Neg,
            Instruction::F64Ceil => Opcode::F64Ceil,
            Instruction::F64Floor => Opcode::F64Floor,
            Instruction::F64Trunc => Opcode::F64Trunc,
            Instruction::F64Nearest => Opcode::F64Nearest,
            Instruction::F64Sqrt => Opcode::F64Sqrt,
            Instruction::F64Add => Opcode::F64Add,
            Instruction::F64Sub => Opcode::F64Sub,
            Instruction::F64Mul => Opcode::F64Mul,
            Instruction::F64Div => Opcode::F64Div,
            Instruction::F64Min => Opcode::F64Min,
            Instruction::F64Max => Opcode::F64Max,
            Instruction::F64Copysign => Opcode::F64Copysign,
            Instruction::I32WrapI64 => Opcode::I32WrapI64,
            Instruction::I32TruncF32S => Opcode::I32TruncF32S,
            Instruction::I32TruncF32U => Opcode::I32TruncF32U,
            Instruction::I32TruncF64S => Opcode::I32TruncF64S,
            Instruction::I32TruncF64U => Opcode::I32TruncF64U,
            Instruction::I64ExtendI32S => Opcode::I64ExtendI32S,
            Instruction::I64ExtendI32U => Opcode::I64ExtendI32U,
            Instruction::I64TruncF32S => Opcode::I64TruncF32S,
            Instruction::I64TruncF32U => Opcode::I64TruncF32U,
            Instruction::I64TruncF64S => Opcode::I64TruncF64S,
            Instruction::I64TruncF64U => Opcode::I64TruncF64U,
            Instruction::F32ConvertI32S => Opcode::F32ConvertI32S,
            Instruction::F32ConvertI32U => Opcode::F32ConvertI32U,
            Instruction::F32ConvertI64S => Opcode::F32ConvertI64S,
            Instruction::F32ConvertI64U => Opcode::F32ConvertI64U,
            Instruction::F32DemoteF64 => Opcode::F32DemoteF64,
            Instruction::F64ConvertI32S => Opcode::F64ConvertI32S,
            Instruction::F64ConvertI32U => Opcode::F64ConvertI32U,
            Instruction::F64ConvertI64S => Opcode::F64ConvertI64S,
            Instruction::F64ConvertI64U => Opcode::F64ConvertI64U,
            Instruction::F64PromoteF32 => Opcode::F64PromoteF32,
            Instruction::I32ReinterpretF32 => Opcode::I32ReinterpretF32,
            Instruction::I64ReinterpretF64 => Opcode::I64ReinterpretF64,
            Instruction::F32ReinterpretI32 => Opcode::F32ReinterpretI32,
            Instruction::F64ReinterpretI64 => Opcode::F64ReinterpretI64,
            Instruction::I32Extend8S => Opcode::I32Extend8S,
            Instruction::I32Extend16S => Opcode::I32Extend16S,
            Instruction::I64Extend8S => Opcode::I64Extend8S,
            Instruction::I64Extend16S => Opcode::I64Extend16S,
            Instruction::I64Extend32S => Opcode::I64Extend32S,
        }
    }
}


} // verus!
