use vstd::prelude::*;

verus! {

/// Errors of decoding a module from its binary format.
#[derive(Debug, Clone, Copy, PartialEq, Eq, Structural)]
pub enum DecodeError {
    InvalidMemoryCount,
    InvalidTableCount,
    InvalidElmType(u8),
    InvalidInitExprOpcode(u8),
    InvalidInitExprEndOpcode(u8),
    InvalidImportKind(u8),
    InvalidOpcode(u8),
    /// the input ended before the item being read
    UnexpectedEof,
    /// a LEB128 number that is malformed or too large for 64 bits
    InvalidLeb128,
    /// a number that does not fit the integer type it is read into
    IntegerOutOfRange,
    /// a name that is not valid UTF-8
    InvalidUtf8,
    InvalidValueType(u8),
    InvalidFuncType(u8),
    InvalidExportKind(u8),
    InvalidMutability(u8),
    InvalidSectionId(u8),
    InvalidMagic,
    InvalidVersion,
}

} // verus!
