//! Values, labels, frames and typed access to memory bytes.
use super::error::RuntimeError;
use super::integer::{
    popcnt_i32, popcnt_i64, popcount_u32, popcount_u64, sext_i64, sign_extend_i64, signed_i32, signed_i64,
    to_signed_i32, to_signed_i64, to_unsigned_i32, to_unsigned_i64, unsigned_i32, unsigned_i64, wrap_i32, wrap_i64,
    lemma_pow2_values, lemma_trunc_div_bound_i32, lemma_trunc_div_bound_i64, pow2_int, trunc_div_i32, trunc_div_i64, trunc_rem_i32, trunc_rem_i64,
    rotl_u32, rotl_u64, Ibinop, Irelop, Itestop, Iunop,
};
use crate::binary::instruction::Instruction;
use crate::binary::types::ExportDesc;
use crate::endian::{le_byte, le_value, lemma_le_value_bound, lemma_pow256_values, pow256, read_le, write_le};
use vstd::prelude::*;

verus! {

/// A value of the runtime. Floating-point values are held by their IEEE 754
/// bit patterns.
/// <https://webassembly.github.io/spec/core/exec/runtime.html#syntax-val>
#[derive(Debug, Clone, Copy, PartialEq, Eq, Structural)]
pub enum Value {
    I32(i32),
    I64(i64),
    F32(u32),
    F64(u64),
}

impl Value {
    /// Whether an integer value is not zero.
    pub fn is_true(&self) -> (b: bool)
        requires
            self is I32 || self is I64,
        ensures
            b == match *self {
                Value::I32(v) => v != 0,
                Value::I64(v) => v != 0,
                _ => false,
            },
    {
        match *self {
            Value::I32(v) => 0 != v,
            Value::I64(v) => 0 != v,
            _ => false,
        }
    }

    /// The low 32 bits of an i64.
    pub fn i32_wrap_i64(&self) -> (r: Result<Value, RuntimeError>)
        requires
            self is I64,
        ensures
            r == Ok::<Value, RuntimeError>(Value::I32(wrap_i32(self->I64_0 as int))),
    {
        match *self {
            Value::I64(l) => {
                let low = to_unsigned_i64(l) % 0x1_0000_0000;
                let v = to_signed_i32(low as u32);
                proof {
                    assert(unsigned_i64(l) as int % 0x1_0000_0000 == (l as int) % 0x1_0000_0000) by {
                        assert(0x1_0000_0000_0000_0000int == 0x1_0000_0000int * 0x1_0000_0000int);
                        vstd::arithmetic::div_mod::lemma_mod_mod(l as int, 0x1_0000_0000int, 0x1_0000_0000int);
                        vstd::arithmetic::div_mod::lemma_mod_mod(unsigned_i64(l) as int, 0x1_0000_0000int, 0x1_0000_0000int);
                    }
                }
                Ok(Value::I32(v))
            },
            _ => Ok(Value::I32(0)),
        }
    }

    /// An i32 sign-extended to an i64.
    pub fn i64_extend_i32_s(&self) -> (r: Result<Value, RuntimeError>)
        requires
            self is I32,
        ensures
            r == Ok::<Value, RuntimeError>(Value::I64(self->I32_0 as i64)),
    {
        match *self {
            Value::I32(l) => Ok(Value::I64(l as i64)),
            _ => Ok(Value::I64(0)),
        }
    }

    /// An i32 zero-extended to an i64.
    pub fn i64_extend_i32_u(&self) -> (r: Result<Value, RuntimeError>)
        requires
            self is I32,
        ensures
            r == Ok::<Value, RuntimeError>(Value::I64(unsigned_i32(self->I32_0) as i64)),
    {
        match *self {
            Value::I32(l) => Ok(Value::I64(to_unsigned_i32(l) as i64)),
            _ => Ok(Value::I64(0)),
        }
    }

    /// The bits of an f32 read as an i32.
    pub fn i32_reinterpret_f32(&self) -> (r: Result<Value, RuntimeError>)
        requires
            self is F32,
        ensures
            r == Ok::<Value, RuntimeError>(Value::I32(signed_i32(self->F32_0))),
    {
        match *self {
            Value::F32(bits) => Ok(Value::I32(to_signed_i32(bits))),
            _ => Ok(Value::I32(0)),
        }
    }

    /// The bits of an f64 read as an i64.
    pub fn i64_reinterpret_f64(&self) -> (r: Result<Value, RuntimeError>)
        requires
            self is F64,
        ensures
            r == Ok::<Value, RuntimeError>(Value::I64(signed_i64(self->F64_0))),
    {
        match *self {
            Value::F64(bits) => Ok(Value::I64(to_signed_i64(bits))),
            _ => Ok(Value::I64(0)),
        }
    }

    /// The bits of an i32 read as an f32.
    pub fn f32_reinterpret_i32(&self) -> (r: Result<Value, RuntimeError>)
        requires
            self is I32,
        ensures
            r == Ok::<Value, RuntimeError>(Value::F32(unsigned_i32(self->I32_0))),
    {
        match *self {
            Value::I32(i) => Ok(Value::F32(to_unsigned_i32(i))),
            _ => Ok(Value::F32(0)),
        }
    }

    /// The bits of an i64 read as an f64.
    pub fn f64_reinterpret_i64(&self) -> (r: Result<Value, RuntimeError>)
        requires
            self is I64,
        ensures
            r == Ok::<Value, RuntimeError>(Value::F64(unsigned_i64(self->I64_0))),
    {
        match *self {
            Value::I64(i) => Ok(Value::F64(to_unsigned_i64(i))),
            _ => Ok(Value::F64(0)),
        }
    }
}

/// Reinterpreting the bits of an i32 as an f32 and back gives the i32.
pub proof fn lemma_reinterpret_roundtrip_i32(v: i32)
    ensures
        signed_i32(unsigned_i32(v)) == v,
{
}

/// Reinterpreting the bits of an i64 as an f64 and back gives the i64.
pub proof fn lemma_reinterpret_roundtrip_i64(v: i64)
    ensures
        signed_i64(unsigned_i64(v)) == v,
{
}

#[derive(Debug, Clone, Copy, PartialEq, Eq, Structural)]
pub enum LabelKind {
    If,
    Loop,
    Block,
}

#[derive(Debug, Clone, Copy, PartialEq, Eq, Structural)]
pub struct Label {
    pub kind: LabelKind,
    /// when the label is a loop's, the pc of the `loop` instruction, where a
    /// branch to it goes
    pub start: Option<isize>,
    /// the pc of the `end` of the block
    pub pc: usize,
    /// the height of the value stack when the block was entered
    pub sp: usize,
    /// result arity
    pub arity: usize,
}

#[derive(Clone, Debug)]
pub struct Frame {
    /// the pc of the instruction executed last
    pub pc: isize,
    /// the height of the value stack below the frame
    pub sp: usize,
    /// the function's instructions
    pub insts: Vec<Instruction>,
    /// result arity
    pub arity: usize,
    /// local variables
    pub locals: Vec<Value>,
    /// labels for if, loop, block
    pub labels: Vec<Label>,
}

#[derive(Debug, Clone, Copy, PartialEq, Eq, Structural)]
pub enum ExternalVal {
    Func(u32),
    Table(u32),
    Memory(u32),
    Global(u32),
}

impl ExternalVal {
    pub fn from_export_desc(value: ExportDesc) -> (r: ExternalVal)
        ensures
            r == match value {
                ExportDesc::Func(i) => ExternalVal::Func(i),
                ExportDesc::Table(i) => ExternalVal::Table(i),
                ExportDesc::Memory(i) => ExternalVal::Memory(i),
                ExportDesc::Global(i) => ExternalVal::Global(i),
            },
    {
        match value {
            ExportDesc::Func(addr) => ExternalVal::Func(addr),
            ExportDesc::Table(addr) => ExternalVal::Table(addr),
            ExportDesc::Memory(addr) => ExternalVal::Memory(addr),
            ExportDesc::Global(addr) => ExternalVal::Global(addr),
        }
    }
}

/// Numbers stored in memory as little-endian bytes.
pub trait Numeric: Sized {
    /// The number of bytes.
    spec fn size() -> nat;

    /// The number whose unsigned little-endian reading is `v`.
    spec fn from_le_value(v: nat) -> Self;

    /// The unsigned reading of the number's bits.
    spec fn le_bits(self) -> nat;

    /// Reads the number at `addr`; out of bounds is an error.
    fn read(buf: &[u8], addr: usize) -> (r: Result<Self, RuntimeError>)
        ensures
            addr + Self::size() <= buf@.len() ==> r == Ok::<Self, RuntimeError>(
                Self::from_le_value(le_value(buf@.subrange(addr as int, addr + Self::size()))),
            ),
            addr + Self::size() > buf@.len() ==> r == Err::<Self, RuntimeError>(
                RuntimeError::OutOfBoundsMemoryAccess,
            ),
    ;

    /// Writes the number at `addr`; out of bounds is an error and changes
    /// nothing.
    fn write(buf: &mut Vec<u8>, addr: usize, value: Self) -> (r: Result<(), RuntimeError>)
        ensures
            final(buf)@.len() == old(buf)@.len(),
            addr + Self::size() <= old(buf)@.len() ==> {
                &&& r is Ok
                &&& forall|j: int|
                    0 <= j < Self::size() ==> #[trigger] final(buf)@[addr + j] == le_byte(
                        value.le_bits(),
                        j as nat,
                    )
                &&& forall|k: int|
                    0 <= k < old(buf)@.len() && !(addr <= k < addr + Self::size())
                        ==> #[trigger] final(buf)@[k] == old(buf)@[k]
            },
            addr + Self::size() > old(buf)@.len() ==> r == Err::<(), RuntimeError>(
                RuntimeError::OutOfBoundsMemoryAccess,
            ) && final(buf)@ == old(buf)@,
    ;

    /// The number's bits, cut to its size, read back give the number.
    proof fn lemma_roundtrip(self)
        ensures
            Self::from_le_value(self.le_bits() % pow256(Self::size())) == self,
            self.le_bits() < pow256(Self::size()),
    ;
}

impl Numeric for i8 {
    open spec fn size() -> nat {
        1
    }

    open spec fn from_le_value(v: nat) -> i8 {
        if v >= 0x80 { (v - 0x100) as i8 } else { v as i8 }
    }

    open spec fn le_bits(self) -> nat {
        if self < 0 { (self + 0x100) as nat } else { self as nat }
    }

    fn read(buf: &[u8], addr: usize) -> (r: Result<i8, RuntimeError>) {
        let len = buf.len();
        if addr > len || 1 > len - addr {
            return Err(RuntimeError::OutOfBoundsMemoryAccess);
        }
        let v = read_le(buf, addr, 1);
        proof {
            lemma_le_value_bound(buf@.subrange(addr as int, addr + 1));
            lemma_pow256_values();
        }
        Ok(if v >= 0x80u64 { (v as i128 - 0x100i128) as i8 } else { v as i8 })
    }

    fn write(buf: &mut Vec<u8>, addr: usize, value: i8) -> (r: Result<(), RuntimeError>) {
        let len = buf.len();
        if addr > len || 1 > len - addr {
            return Err(RuntimeError::OutOfBoundsMemoryAccess);
        }
        let bits: u64 = if value < 0 { (value as i128 + 0x100i128) as u64 } else { value as u64 };
        write_le(buf, addr, 1, bits);
        Ok(())
    }

    proof fn lemma_roundtrip(self) {
        lemma_pow256_values();
    }
}

impl Numeric for u8 {
    open spec fn size() -> nat {
        1
    }

    open spec fn from_le_value(v: nat) -> u8 {
        v as u8
    }

    open spec fn le_bits(self) -> nat {
        self as nat
    }

    fn read(buf: &[u8], addr: usize) -> (r: Result<u8, RuntimeError>) {
        let len = buf.len();
        if addr > len || 1 > len - addr {
            return Err(RuntimeError::OutOfBoundsMemoryAccess);
        }
        let v = read_le(buf, addr, 1);
        proof {
            lemma_le_value_bound(buf@.subrange(addr as int, addr + 1));
            lemma_pow256_values();
        }
        Ok(v as u8)
    }

    fn write(buf: &mut Vec<u8>, addr: usize, value: u8) -> (r: Result<(), RuntimeError>) {
        let len = buf.len();
        if addr > len || 1 > len - addr {
            return Err(RuntimeError::OutOfBoundsMemoryAccess);
        }
        let bits: u64 = value as u64;
        write_le(buf, addr, 1, bits);
        Ok(())
    }

    proof fn lemma_roundtrip(self) {
        lemma_pow256_values();
    }
}

impl Numeric for i16 {
    open spec fn size() -> nat {
        2
    }

    open spec fn from_le_value(v: nat) -> i16 {
        if v >= 0x8000 { (v - 0x1_0000) as i16 } else { v as i16 }
    }

    open spec fn le_bits(self) -> nat {
        if self < 0 { (self + 0x1_0000) as nat } else { self as nat }
    }

    fn read(buf: &[u8], addr: usize) -> (r: Result<i16, RuntimeError>) {
        let len = buf.len();
        if addr > len || 2 > len - addr {
            return Err(RuntimeError::OutOfBoundsMemoryAccess);
        }
        let v = read_le(buf, addr, 2);
        proof {
            lemma_le_value_bound(buf@.subrange(addr as int, addr + 2));
            lemma_pow256_values();
        }
        Ok(if v >= 0x8000u64 { (v as i128 - 0x1_0000i128) as i16 } else { v as i16 })
    }

    fn write(buf: &mut Vec<u8>, addr: usize, value: i16) -> (r: Result<(), RuntimeError>) {
        let len = buf.len();
        if addr > len || 2 > len - addr {
            return Err(RuntimeError::OutOfBoundsMemoryAccess);
        }
        let bits: u64 = if value < 0 { (value as i128 + 0x1_0000i128) as u64 } else { value as u64 };
        write_le(buf, addr, 2, bits);
        Ok(())
    }

    proof fn lemma_roundtrip(self) {
        lemma_pow256_values();
    }
}

impl Numeric for u16 {
    open spec fn size() -> nat {
        2
    }

    open spec fn from_le_value(v: nat) -> u16 {
        v as u16
    }

    open spec fn le_bits(self) -> nat {
        self as nat
    }

    fn read(buf: &[u8], addr: usize) -> (r: Result<u16, RuntimeError>) {
        let len = buf.len();
        if addr > len || 2 > len - addr {
            return Err(RuntimeError::OutOfBoundsMemoryAccess);
        }
        let v = read_le(buf, addr, 2);
        proof {
            lemma_le_value_bound(buf@.subrange(addr as int, addr + 2));
            lemma_pow256_values();
        }
        Ok(v as u16)
    }

    fn write(buf: &mut Vec<u8>, addr: usize, value: u16) -> (r: Result<(), RuntimeError>) {
        let len = buf.len();
        if addr > len || 2 > len - addr {
            return Err(RuntimeError::OutOfBoundsMemoryAccess);
        }
        let bits: u64 = value as u64;
        write_le(buf, addr, 2, bits);
        Ok(())
    }

    proof fn lemma_roundtrip(self) {
        lemma_pow256_values();
    }
}

impl Numeric for i32 {
    open spec fn size() -> nat {
        4
    }

    open spec fn from_le_value(v: nat) -> i32 {
        if v >= 0x8000_0000 { (v - 0x1_0000_0000) as i32 } else { v as i32 }
    }

    open spec fn le_bits(self) -> nat {
        if self < 0 { (self + 0x1_0000_0000) as nat } else { self as nat }
    }

    fn read(buf: &[u8], addr: usize) -> (r: Result<i32, RuntimeError>) {
        let len = buf.len();
        if addr > len || 4 > len - addr {
            return Err(RuntimeError::OutOfBoundsMemoryAccess);
        }
        let v = read_le(buf, addr, 4);
        proof {
            lemma_le_value_bound(buf@.subrange(addr as int, addr + 4));
            lemma_pow256_values();
        }
        Ok(if v >= 0x8000_0000u64 { (v as i128 - 0x1_0000_0000i128) as i32 } else { v as i32 })
    }

    fn write(buf: &mut Vec<u8>, addr: usize, value: i32) -> (r: Result<(), RuntimeError>) {
        let len = buf.len();
        if addr > len || 4 > len - addr {
            return Err(RuntimeError::OutOfBoundsMemoryAccess);
        }
        let bits: u64 = if value < 0 { (value as i128 + 0x1_0000_0000i128) as u64 } else { value as u64 };
        write_le(buf, addr, 4, bits);
        Ok(())
    }

    proof fn lemma_roundtrip(self) {
        lemma_pow256_values();
    }
}

impl Numeric for u32 {
    open spec fn size() -> nat {
        4
    }

    open spec fn from_le_value(v: nat) -> u32 {
        v as u32
    }

    open spec fn le_bits(self) -> nat {
        self as nat
    }

    fn read(buf: &[u8], addr: usize) -> (r: Result<u32, RuntimeError>) {
        let len = buf.len();
        if addr > len || 4 > len - addr {
            return Err(RuntimeError::OutOfBoundsMemoryAccess);
        }
        let v = read_le(buf, addr, 4);
        proof {
            lemma_le_value_bound(buf@.subrange(addr as int, addr + 4));
            lemma_pow256_values();
        }
        Ok(v as u32)
    }

    fn write(buf: &mut Vec<u8>, addr: usize, value: u32) -> (r: Result<(), RuntimeError>) {
        let len = buf.len();
        if addr > len || 4 > len - addr {
            return Err(RuntimeError::OutOfBoundsMemoryAccess);
        }
        let bits: u64 = value as u64;
        write_le(buf, addr, 4, bits);
        Ok(())
    }

    proof fn lemma_roundtrip(self) {
        lemma_pow256_values();
    }
}

impl Numeric for i64 {
    open spec fn size() -> nat {
        8
    }

    open spec fn from_le_value(v: nat) -> i64 {
        if v >= 0x8000_0000_0000_0000 { (v - 0x1_0000_0000_0000_0000) as i64 } else { v as i64 }
    }

    open spec fn le_bits(self) -> nat {
        if self < 0 { (self + 0x1_0000_0000_0000_0000) as nat } else { self as nat }
    }

    fn read(buf: &[u8], addr: usize) -> (r: Result<i64, RuntimeError>) {
        let len = buf.len();
        if addr > len || 8 > len - addr {
            return Err(RuntimeError::OutOfBoundsMemoryAccess);
        }
        let v = read_le(buf, addr, 8);
        proof {
            lemma_le_value_bound(buf@.subrange(addr as int, addr + 8));
            lemma_pow256_values();
        }
        Ok(if v >= 0x8000_0000_0000_0000u64 { (v as i128 - 0x1_0000_0000_0000_0000i128) as i64 } else { v as i64 })
    }

    fn write(buf: &mut Vec<u8>, addr: usize, value: i64) -> (r: Result<(), RuntimeError>) {
        let len = buf.len();
        if addr > len || 8 > len - addr {
            return Err(RuntimeError::OutOfBoundsMemoryAccess);
        }
        let bits: u64 = if value < 0 { (value as i128 + 0x1_0000_0000_0000_0000i128) as u64 } else { value as u64 };
        write_le(buf, addr, 8, bits);
        Ok(())
    }

    proof fn lemma_roundtrip(self) {
        lemma_pow256_values();
    }
}

impl Numeric for u64 {
    open spec fn size() -> nat {
        8
    }

    open spec fn from_le_value(v: nat) -> u64 {
        v as u64
    }

    open spec fn le_bits(self) -> nat {
        self as nat
    }

    fn read(buf: &[u8], addr: usize) -> (r: Result<u64, RuntimeError>) {
        let len = buf.len();
        if addr > len || 8 > len - addr {
            return Err(RuntimeError::OutOfBoundsMemoryAccess);
        }
        let v = read_le(buf, addr, 8);
        proof {
            lemma_le_value_bound(buf@.subrange(addr as int, addr + 8));
            lemma_pow256_values();
        }
        Ok(v as u64)
    }

    fn write(buf: &mut Vec<u8>, addr: usize, value: u64) -> (r: Result<(), RuntimeError>) {
        let len = buf.len();
        if addr > len || 8 > len - addr {
            return Err(RuntimeError::OutOfBoundsMemoryAccess);
        }
        let bits: u64 = value as u64;
        write_le(buf, addr, 8, bits);
        Ok(())
    }

    proof fn lemma_roundtrip(self) {
        lemma_pow256_values();
    }
}
} // verus!

verus! {

/// The sum, wrapped, of two integers of the same type.
pub open spec fn value_add(l: Value, r: Value) -> Result<Value, RuntimeError> {
    match (l, r) {
        (Value::I32(a), Value::I32(b)) => Ok(Value::I32(a.op_add(b))),
        (Value::I64(a), Value::I64(b)) => Ok(Value::I64(a.op_add(b))),
        _ => Err(RuntimeError::UnexpectedStackValueType),
    }
}

/// The difference, wrapped, of two integers of the same type.
pub open spec fn value_sub(l: Value, r: Value) -> Result<Value, RuntimeError> {
    match (l, r) {
        (Value::I32(a), Value::I32(b)) => Ok(Value::I32(a.op_sub(b))),
        (Value::I64(a), Value::I64(b)) => Ok(Value::I64(a.op_sub(b))),
        _ => Err(RuntimeError::UnexpectedStackValueType),
    }
}

/// The product, wrapped, of two integers of the same type.
pub open spec fn value_mul(l: Value, r: Value) -> Result<Value, RuntimeError> {
    match (l, r) {
        (Value::I32(a), Value::I32(b)) => Ok(Value::I32(a.op_mul(b))),
        (Value::I64(a), Value::I64(b)) => Ok(Value::I64(a.op_mul(b))),
        _ => Err(RuntimeError::UnexpectedStackValueType),
    }
}

/// The bitwise and, of two integers of the same type.
pub open spec fn value_and(l: Value, r: Value) -> Result<Value, RuntimeError> {
    match (l, r) {
        (Value::I32(a), Value::I32(b)) => Ok(Value::I32(a.op_and(b))),
        (Value::I64(a), Value::I64(b)) => Ok(Value::I64(a.op_and(b))),
        _ => Err(RuntimeError::UnexpectedStackValueType),
    }
}

/// The bitwise or, of two integers of the same type.
pub open spec fn value_or(l: Value, r: Value) -> Result<Value, RuntimeError> {
    match (l, r) {
        (Value::I32(a), Value::I32(b)) => Ok(Value::I32(a.op_or(b))),
        (Value::I64(a), Value::I64(b)) => Ok(Value::I64(a.op_or(b))),
        _ => Err(RuntimeError::UnexpectedStackValueType),
    }
}

/// The bitwise exclusive or, of two integers of the same type.
pub open spec fn value_xor(l: Value, r: Value) -> Result<Value, RuntimeError> {
    match (l, r) {
        (Value::I32(a), Value::I32(b)) => Ok(Value::I32(a.op_xor(b))),
        (Value::I64(a), Value::I64(b)) => Ok(Value::I64(a.op_xor(b))),
        _ => Err(RuntimeError::UnexpectedStackValueType),
    }
}

/// The left shift by the right operand modulo the width, of two integers of the same type.
pub open spec fn value_shl(l: Value, r: Value) -> Result<Value, RuntimeError> {
    match (l, r) {
        (Value::I32(a), Value::I32(b)) => Ok(Value::I32(a.op_shl(b))),
        (Value::I64(a), Value::I64(b)) => Ok(Value::I64(a.op_shl(b))),
        _ => Err(RuntimeError::UnexpectedStackValueType),
    }
}

/// The arithmetic right shift by the right operand modulo the width, of two integers of the same type.
pub open spec fn value_shr_s(l: Value, r: Value) -> Result<Value, RuntimeError> {
    match (l, r) {
        (Value::I32(a), Value::I32(b)) => Ok(Value::I32(a.op_shr_s(b))),
        (Value::I64(a), Value::I64(b)) => Ok(Value::I64(a.op_shr_s(b))),
        _ => Err(RuntimeError::UnexpectedStackValueType),
    }
}

/// The logical right shift by the right operand modulo the width, of two integers of the same type.
pub open spec fn value_shr_u(l: Value, r: Value) -> Result<Value, RuntimeError> {
    match (l, r) {
        (Value::I32(a), Value::I32(b)) => Ok(Value::I32(a.op_shr_u(b))),
        (Value::I64(a), Value::I64(b)) => Ok(Value::I64(a.op_shr_u(b))),
        _ => Err(RuntimeError::UnexpectedStackValueType),
    }
}

/// The left rotation, of two integers of the same type.
pub open spec fn value_rotl(l: Value, r: Value) -> Result<Value, RuntimeError> {
    match (l, r) {
        (Value::I32(a), Value::I32(b)) => Ok(Value::I32(a.op_rotl(b))),
        (Value::I64(a), Value::I64(b)) => Ok(Value::I64(a.op_rotl(b))),
        _ => Err(RuntimeError::UnexpectedStackValueType),
    }
}

/// The right rotation, of two integers of the same type.
pub open spec fn value_rotr(l: Value, r: Value) -> Result<Value, RuntimeError> {
    match (l, r) {
        (Value::I32(a), Value::I32(b)) => Ok(Value::I32(a.op_rotr(b))),
        (Value::I64(a), Value::I64(b)) => Ok(Value::I64(a.op_rotr(b))),
        _ => Err(RuntimeError::UnexpectedStackValueType),
    }
}

/// The signed quotient, rounded toward zero, of two integers of the same type; a zero divisor is an error.
pub open spec fn value_div_s(l: Value, r: Value) -> Result<Value, RuntimeError> {
    match (l, r) {
        (Value::I32(a), Value::I32(b)) => match a.op_div_s(b) {
            Ok(v) => Ok(Value::I32(v)),
            Err(e) => Err(e),
        },
        (Value::I64(a), Value::I64(b)) => match a.op_div_s(b) {
            Ok(v) => Ok(Value::I64(v)),
            Err(e) => Err(e),
        },
        _ => Err(RuntimeError::UnexpectedStackValueType),
    }
}

/// The unsigned quotient, of two integers of the same type; a zero divisor is an error.
pub open spec fn value_div_u(l: Value, r: Value) -> Result<Value, RuntimeError> {
    match (l, r) {
        (Value::I32(a), Value::I32(b)) => match a.op_div_u(b) {
            Ok(v) => Ok(Value::I32(v)),
            Err(e) => Err(e),
        },
        (Value::I64(a), Value::I64(b)) => match a.op_div_u(b) {
            Ok(v) => Ok(Value::I64(v)),
            Err(e) => Err(e),
        },
        _ => Err(RuntimeError::UnexpectedStackValueType),
    }
}

/// The signed remainder, with the sign of the dividend, of two integers of the same type; a zero divisor is an error.
pub open spec fn value_rem_s(l: Value, r: Value) -> Result<Value, RuntimeError> {
    match (l, r) {
        (Value::I32(a), Value::I32(b)) => match a.op_rem_s(b) {
            Ok(v) => Ok(Value::I32(v)),
            Err(e) => Err(e),
        },
        (Value::I64(a), Value::I64(b)) => match a.op_rem_s(b) {
            Ok(v) => Ok(Value::I64(v)),
            Err(e) => Err(e),
        },
        _ => Err(RuntimeError::UnexpectedStackValueType),
    }
}

/// The unsigned remainder, of two integers of the same type; a zero divisor is an error.
pub open spec fn value_rem_u(l: Value, r: Value) -> Result<Value, RuntimeError> {
    match (l, r) {
        (Value::I32(a), Value::I32(b)) => match a.op_rem_u(b) {
            Ok(v) => Ok(Value::I32(v)),
            Err(e) => Err(e),
        },
        (Value::I64(a), Value::I64(b)) => match a.op_rem_u(b) {
            Ok(v) => Ok(Value::I64(v)),
            Err(e) => Err(e),
        },
        _ => Err(RuntimeError::UnexpectedStackValueType),
    }
}

/// Whether the operands are equal, as an i32 that is 1 or 0, of two integers of the same type.
pub open spec fn value_equal(l: Value, r: Value) -> Result<Value, RuntimeError> {
    match (l, r) {
        (Value::I32(a), Value::I32(b)) => Ok(Value::I32(if a.as_signed() == b.as_signed() { 1 } else { 0 })),
        (Value::I64(a), Value::I64(b)) => Ok(Value::I32(if a.as_signed() == b.as_signed() { 1 } else { 0 })),
        _ => Err(RuntimeError::UnexpectedStackValueType),
    }
}

/// Whether the operands differ, as an i32 that is 1 or 0, of two integers of the same type.
pub open spec fn value_not_equal(l: Value, r: Value) -> Result<Value, RuntimeError> {
    match (l, r) {
        (Value::I32(a), Value::I32(b)) => Ok(Value::I32(if a.as_signed() != b.as_signed() { 1 } else { 0 })),
        (Value::I64(a), Value::I64(b)) => Ok(Value::I32(if a.as_signed() != b.as_signed() { 1 } else { 0 })),
        _ => Err(RuntimeError::UnexpectedStackValueType),
    }
}

/// Signed less than, as an i32 that is 1 or 0, of two integers of the same type.
pub open spec fn value_lt_s(l: Value, r: Value) -> Result<Value, RuntimeError> {
    match (l, r) {
        (Value::I32(a), Value::I32(b)) => Ok(Value::I32(if a.as_signed() < b.as_signed() { 1 } else { 0 })),
        (Value::I64(a), Value::I64(b)) => Ok(Value::I32(if a.as_signed() < b.as_signed() { 1 } else { 0 })),
        _ => Err(RuntimeError::UnexpectedStackValueType),
    }
}

/// Unsigned less than, as an i32 that is 1 or 0, of two integers of the same type.
pub open spec fn value_lt_u(l: Value, r: Value) -> Result<Value, RuntimeError> {
    match (l, r) {
        (Value::I32(a), Value::I32(b)) => Ok(Value::I32(if a.as_unsigned() < b.as_unsigned() { 1 } else { 0 })),
        (Value::I64(a), Value::I64(b)) => Ok(Value::I32(if a.as_unsigned() < b.as_unsigned() { 1 } else { 0 })),
        _ => Err(RuntimeError::UnexpectedStackValueType),
    }
}

/// Signed greater than, as an i32 that is 1 or 0, of two integers of the same type.
pub open spec fn value_gt_s(l: Value, r: Value) -> Result<Value, RuntimeError> {
    match (l, r) {
        (Value::I32(a), Value::I32(b)) => Ok(Value::I32(if a.as_signed() > b.as_signed() { 1 } else { 0 })),
        (Value::I64(a), Value::I64(b)) => Ok(Value::I32(if a.as_signed() > b.as_signed() { 1 } else { 0 })),
        _ => Err(RuntimeError::UnexpectedStackValueType),
    }
}

/// Unsigned greater than, as an i32 that is 1 or 0, of two integers of the same type.
pub open spec fn value_gt_u(l: Value, r: Value) -> Result<Value, RuntimeError> {
    match (l, r) {
        (Value::I32(a), Value::I32(b)) => Ok(Value::I32(if a.as_unsigned() > b.as_unsigned() { 1 } else { 0 })),
        (Value::I64(a), Value::I64(b)) => Ok(Value::I32(if a.as_unsigned() > b.as_unsigned() { 1 } else { 0 })),
        _ => Err(RuntimeError::UnexpectedStackValueType),
    }
}

/// Signed at most, as an i32 that is 1 or 0, of two integers of the same type.
pub open spec fn value_le_s(l: Value, r: Value) -> Result<Value, RuntimeError> {
    match (l, r) {
        (Value::I32(a), Value::I32(b)) => Ok(Value::I32(if a.as_signed() <= b.as_signed() { 1 } else { 0 })),
        (Value::I64(a), Value::I64(b)) => Ok(Value::I32(if a.as_signed() <= b.as_signed() { 1 } else { 0 })),
        _ => Err(RuntimeError::UnexpectedStackValueType),
    }
}

/// Unsigned at most, as an i32 that is 1 or 0, of two integers of the same type.
pub open spec fn value_le_u(l: Value, r: Value) -> Result<Value, RuntimeError> {
    match (l, r) {
        (Value::I32(a), Value::I32(b)) => Ok(Value::I32(if a.as_unsigned() <= b.as_unsigned() { 1 } else { 0 })),
        (Value::I64(a), Value::I64(b)) => Ok(Value::I32(if a.as_unsigned() <= b.as_unsigned() { 1 } else { 0 })),
        _ => Err(RuntimeError::UnexpectedStackValueType),
    }
}

/// Signed at least, as an i32 that is 1 or 0, of two integers of the same type.
pub open spec fn value_ge_s(l: Value, r: Value) -> Result<Value, RuntimeError> {
    match (l, r) {
        (Value::I32(a), Value::I32(b)) => Ok(Value::I32(if a.as_signed() >= b.as_signed() { 1 } else { 0 })),
        (Value::I64(a), Value::I64(b)) => Ok(Value::I32(if a.as_signed() >= b.as_signed() { 1 } else { 0 })),
        _ => Err(RuntimeError::UnexpectedStackValueType),
    }
}

/// Unsigned at least, as an i32 that is 1 or 0, of two integers of the same type.
pub open spec fn value_ge_u(l: Value, r: Value) -> Result<Value, RuntimeError> {
    match (l, r) {
        (Value::I32(a), Value::I32(b)) => Ok(Value::I32(if a.as_unsigned() >= b.as_unsigned() { 1 } else { 0 })),
        (Value::I64(a), Value::I64(b)) => Ok(Value::I32(if a.as_unsigned() >= b.as_unsigned() { 1 } else { 0 })),
        _ => Err(RuntimeError::UnexpectedStackValueType),
    }
}

/// The number of leading zero bits, of an integer.
pub open spec fn value_clz(v: Value) -> Result<Value, RuntimeError> {
    match v {
        Value::I32(a) => Ok(Value::I32(a.op_clz())),
        Value::I64(a) => Ok(Value::I64(a.op_clz())),
        _ => Err(RuntimeError::UnexpectedStackValueType),
    }
}

/// The number of trailing zero bits, of an integer.
pub open spec fn value_ctz(v: Value) -> Result<Value, RuntimeError> {
    match v {
        Value::I32(a) => Ok(Value::I32(a.op_ctz())),
        Value::I64(a) => Ok(Value::I64(a.op_ctz())),
        _ => Err(RuntimeError::UnexpectedStackValueType),
    }
}

/// The low 8 bits, sign-extended, of an integer.
pub open spec fn value_extend8_s(v: Value) -> Result<Value, RuntimeError> {
    match v {
        Value::I32(a) => Ok(Value::I32(a.op_extend8_s())),
        Value::I64(a) => Ok(Value::I64(a.op_extend8_s())),
        _ => Err(RuntimeError::UnexpectedStackValueType),
    }
}

/// The low 16 bits, sign-extended, of an integer.
pub open spec fn value_extend16_s(v: Value) -> Result<Value, RuntimeError> {
    match v {
        Value::I32(a) => Ok(Value::I32(a.op_extend16_s())),
        Value::I64(a) => Ok(Value::I64(a.op_extend16_s())),
        _ => Err(RuntimeError::UnexpectedStackValueType),
    }
}

/// Whether an integer is zero, as an i32 that is 1 or 0.
pub open spec fn value_eqz(v: Value) -> Result<Value, RuntimeError> {
    match v {
        Value::I32(a) => Ok(Value::I32(if a.is_zero() { 1 } else { 0 })),
        Value::I64(a) => Ok(Value::I32(if a.is_zero() { 1 } else { 0 })),
        _ => Err(RuntimeError::UnexpectedStackValueType),
    }
}

/// The number of one bits of an integer.
pub open spec fn value_popcnt(v: Value) -> Result<Value, RuntimeError> {
    match v {
        Value::I32(a) => Ok(Value::I32(popcount_u32(unsigned_i32(a), 32) as i32)),
        Value::I64(a) => Ok(Value::I64(popcount_u64(unsigned_i64(a), 64) as i64)),
        _ => Err(RuntimeError::UnexpectedStackValueType),
    }
}

/// The low 32 bits of an i64, sign-extended.
pub open spec fn value_i64_extend_32s(v: Value) -> Result<Value, RuntimeError> {
    match v {
        Value::I64(a) => Ok(Value::I64(sext_i64(a, 32))),
        _ => Err(RuntimeError::UnexpectedStackValueType),
    }
}

impl Value {
    /// The sum, wrapped; operands that are not two integers of one type are an error.
    pub fn add(&self, rhs: &Value) -> (r: Result<Value, RuntimeError>)
        ensures
            r == value_add(*self, *rhs),
    {
        match (*self, *rhs) {
            (Value::I32(a), Value::I32(b)) => match Ibinop::add(&a, b) {
                Ok(v) => Ok(Value::I32(v)),
                Err(e) => Err(e),
            },
            (Value::I64(a), Value::I64(b)) => match Ibinop::add(&a, b) {
                Ok(v) => Ok(Value::I64(v)),
                Err(e) => Err(e),
            },
            _ => Err(RuntimeError::UnexpectedStackValueType),
        }
    }

    /// The difference, wrapped; operands that are not two integers of one type are an error.
    pub fn sub(&self, rhs: &Value) -> (r: Result<Value, RuntimeError>)
        ensures
            r == value_sub(*self, *rhs),
    {
        match (*self, *rhs) {
            (Value::I32(a), Value::I32(b)) => match Ibinop::sub(&a, b) {
                Ok(v) => Ok(Value::I32(v)),
                Err(e) => Err(e),
            },
            (Value::I64(a), Value::I64(b)) => match Ibinop::sub(&a, b) {
                Ok(v) => Ok(Value::I64(v)),
                Err(e) => Err(e),
            },
            _ => Err(RuntimeError::UnexpectedStackValueType),
        }
    }

    /// The product, wrapped; operands that are not two integers of one type are an error.
    pub fn mul(&self, rhs: &Value) -> (r: Result<Value, RuntimeError>)
        ensures
            r == value_mul(*self, *rhs),
    {
        match (*self, *rhs) {
            (Value::I32(a), Value::I32(b)) => match Ibinop::mul(&a, b) {
                Ok(v) => Ok(Value::I32(v)),
                Err(e) => Err(e),
            },
            (Value::I64(a), Value::I64(b)) => match Ibinop::mul(&a, b) {
                Ok(v) => Ok(Value::I64(v)),
                Err(e) => Err(e),
            },
            _ => Err(RuntimeError::UnexpectedStackValueType),
        }
    }

    /// The bitwise and; operands that are not two integers of one type are an error.
    pub fn and(&self, rhs: &Value) -> (r: Result<Value, RuntimeError>)
        ensures
            r == value_and(*self, *rhs),
    {
        match (*self, *rhs) {
            (Value::I32(a), Value::I32(b)) => match Ibinop::and(&a, b) {
                Ok(v) => Ok(Value::I32(v)),
                Err(e) => Err(e),
            },
            (Value::I64(a), Value::I64(b)) => match Ibinop::and(&a, b) {
                Ok(v) => Ok(Value::I64(v)),
                Err(e) => Err(e),
            },
            _ => Err(RuntimeError::UnexpectedStackValueType),
        }
    }

    /// The bitwise or; operands that are not two integers of one type are an error.
    pub fn or(&self, rhs: &Value) -> (r: Result<Value, RuntimeError>)
        ensures
            r == value_or(*self, *rhs),
    {
        match (*self, *rhs) {
            (Value::I32(a), Value::I32(b)) => match Ibinop::or(&a, b) {
                Ok(v) => Ok(Value::I32(v)),
                Err(e) => Err(e),
            },
            (Value::I64(a), Value::I64(b)) => match Ibinop::or(&a, b) {
                Ok(v) => Ok(Value::I64(v)),
                Err(e) => Err(e),
            },
            _ => Err(RuntimeError::UnexpectedStackValueType),
        }
    }

    /// The bitwise exclusive or; operands that are not two integers of one type are an error.
    pub fn xor(&self, rhs: &Value) -> (r: Result<Value, RuntimeError>)
        ensures
            r == value_xor(*self, *rhs),
    {
        match (*self, *rhs) {
            (Value::I32(a), Value::I32(b)) => match Ibinop::xor(&a, b) {
                Ok(v) => Ok(Value::I32(v)),
                Err(e) => Err(e),
            },
            (Value::I64(a), Value::I64(b)) => match Ibinop::xor(&a, b) {
                Ok(v) => Ok(Value::I64(v)),
                Err(e) => Err(e),
            },
            _ => Err(RuntimeError::UnexpectedStackValueType),
        }
    }

    /// The left shift by the right operand modulo the width; operands that are not two integers of one type are an error.
    pub fn shl(&self, rhs: &Value) -> (r: Result<Value, RuntimeError>)
        ensures
            r == value_shl(*self, *rhs),
    {
        match (*self, *rhs) {
            (Value::I32(a), Value::I32(b)) => match Ibinop::shl(&a, b) {
                Ok(v) => Ok(Value::I32(v)),
                Err(e) => Err(e),
            },
            (Value::I64(a), Value::I64(b)) => match Ibinop::shl(&a, b) {
                Ok(v) => Ok(Value::I64(v)),
                Err(e) => Err(e),
            },
            _ => Err(RuntimeError::UnexpectedStackValueType),
        }
    }

    /// The arithmetic right shift by the right operand modulo the width; operands that are not two integers of one type are an error.
    pub fn shr_s(&self, rhs: &Value) -> (r: Result<Value, RuntimeError>)
        ensures
            r == value_shr_s(*self, *rhs),
    {
        match (*self, *rhs) {
            (Value::I32(a), Value::I32(b)) => match Ibinop::shr_s(&a, b) {
                Ok(v) => Ok(Value::I32(v)),
                Err(e) => Err(e),
            },
            (Value::I64(a), Value::I64(b)) => match Ibinop::shr_s(&a, b) {
                Ok(v) => Ok(Value::I64(v)),
                Err(e) => Err(e),
            },
            _ => Err(RuntimeError::UnexpectedStackValueType),
        }
    }

    /// The logical right shift by the right operand modulo the width; operands that are not two integers of one type are an error.
    pub fn shr_u(&self, rhs: &Value) -> (r: Result<Value, RuntimeError>)
        ensures
            r == value_shr_u(*self, *rhs),
    {
        match (*self, *rhs) {
            (Value::I32(a), Value::I32(b)) => match Ibinop::shr_u(&a, b) {
                Ok(v) => Ok(Value::I32(v)),
                Err(e) => Err(e),
            },
            (Value::I64(a), Value::I64(b)) => match Ibinop::shr_u(&a, b) {
                Ok(v) => Ok(Value::I64(v)),
                Err(e) => Err(e),
            },
            _ => Err(RuntimeError::UnexpectedStackValueType),
        }
    }

    /// The left rotation; operands that are not two integers of one type are an error.
    pub fn rotl(&self, rhs: &Value) -> (r: Result<Value, RuntimeError>)
        ensures
            r == value_rotl(*self, *rhs),
    {
        match (*self, *rhs) {
            (Value::I32(a), Value::I32(b)) => match Ibinop::rotl(&a, b) {
                Ok(v) => Ok(Value::I32(v)),
                Err(e) => Err(e),
            },
            (Value::I64(a), Value::I64(b)) => match Ibinop::rotl(&a, b) {
                Ok(v) => Ok(Value::I64(v)),
                Err(e) => Err(e),
            },
            _ => Err(RuntimeError::UnexpectedStackValueType),
        }
    }

    /// The right rotation; operands that are not two integers of one type are an error.
    pub fn rotr(&self, rhs: &Value) -> (r: Result<Value, RuntimeError>)
        ensures
            r == value_rotr(*self, *rhs),
    {
        match (*self, *rhs) {
            (Value::I32(a), Value::I32(b)) => match Ibinop::rotr(&a, b) {
                Ok(v) => Ok(Value::I32(v)),
                Err(e) => Err(e),
            },
            (Value::I64(a), Value::I64(b)) => match Ibinop::rotr(&a, b) {
                Ok(v) => Ok(Value::I64(v)),
                Err(e) => Err(e),
            },
            _ => Err(RuntimeError::UnexpectedStackValueType),
        }
    }

    /// The signed quotient, rounded toward zero; a zero divisor, or operands that are not two integers of one
    /// type, are an error.
    pub fn div_s(&self, rhs: &Value) -> (r: Result<Value, RuntimeError>)
        ensures
            r == value_div_s(*self, *rhs),
    {
        match (*self, *rhs) {
            (Value::I32(a), Value::I32(b)) => match Ibinop::div_s(&a, b) {
                Ok(v) => Ok(Value::I32(v)),
                Err(e) => Err(e),
            },
            (Value::I64(a), Value::I64(b)) => match Ibinop::div_s(&a, b) {
                Ok(v) => Ok(Value::I64(v)),
                Err(e) => Err(e),
            },
            _ => Err(RuntimeError::UnexpectedStackValueType),
        }
    }

    /// The unsigned quotient; a zero divisor, or operands that are not two integers of one
    /// type, are an error.
    pub fn div_u(&self, rhs: &Value) -> (r: Result<Value, RuntimeError>)
        ensures
            r == value_div_u(*self, *rhs),
    {
        match (*self, *rhs) {
            (Value::I32(a), Value::I32(b)) => match Ibinop::div_u(&a, b) {
                Ok(v) => Ok(Value::I32(v)),
                Err(e) => Err(e),
            },
            (Value::I64(a), Value::I64(b)) => match Ibinop::div_u(&a, b) {
                Ok(v) => Ok(Value::I64(v)),
                Err(e) => Err(e),
            },
            _ => Err(RuntimeError::UnexpectedStackValueType),
        }
    }

    /// The signed remainder, with the sign of the dividend; a zero divisor, or operands that are not two integers of one
    /// type, are an error.
    pub fn rem_s(&self, rhs: &Value) -> (r: Result<Value, RuntimeError>)
        ensures
            r == value_rem_s(*self, *rhs),
    {
        match (*self, *rhs) {
            (Value::I32(a), Value::I32(b)) => match Ibinop::rem_s(&a, b) {
                Ok(v) => Ok(Value::I32(v)),
                Err(e) => Err(e),
            },
            (Value::I64(a), Value::I64(b)) => match Ibinop::rem_s(&a, b) {
                Ok(v) => Ok(Value::I64(v)),
                Err(e) => Err(e),
            },
            _ => Err(RuntimeError::UnexpectedStackValueType),
        }
    }

    /// The unsigned remainder; a zero divisor, or operands that are not two integers of one
    /// type, are an error.
    pub fn rem_u(&self, rhs: &Value) -> (r: Result<Value, RuntimeError>)
        ensures
            r == value_rem_u(*self, *rhs),
    {
        match (*self, *rhs) {
            (Value::I32(a), Value::I32(b)) => match Ibinop::rem_u(&a, b) {
                Ok(v) => Ok(Value::I32(v)),
                Err(e) => Err(e),
            },
            (Value::I64(a), Value::I64(b)) => match Ibinop::rem_u(&a, b) {
                Ok(v) => Ok(Value::I64(v)),
                Err(e) => Err(e),
            },
            _ => Err(RuntimeError::UnexpectedStackValueType),
        }
    }

    /// Whether the operands are equal, as 1 or 0; operands that are not two integers of one type are
    /// an error.
    pub fn equal(&self, rhs: &Value) -> (r: Result<Value, RuntimeError>)
        ensures
            r == value_equal(*self, *rhs),
    {
        match (*self, *rhs) {
            (Value::I32(a), Value::I32(b)) => match Irelop::equal(&a, b) {
                Ok(v) => Ok(Value::I32(v)),
                Err(e) => Err(e),
            },
            (Value::I64(a), Value::I64(b)) => match Irelop::equal(&a, b) {
                Ok(v) => Ok(Value::I32(v)),
                Err(e) => Err(e),
            },
            _ => Err(RuntimeError::UnexpectedStackValueType),
        }
    }

    /// Whether the operands differ, as 1 or 0; operands that are not two integers of one type are
    /// an error.
    pub fn not_equal(&self, rhs: &Value) -> (r: Result<Value, RuntimeError>)
        ensures
            r == value_not_equal(*self, *rhs),
    {
        match (*self, *rhs) {
            (Value::I32(a), Value::I32(b)) => match Irelop::not_equal(&a, b) {
                Ok(v) => Ok(Value::I32(v)),
                Err(e) => Err(e),
            },
            (Value::I64(a), Value::I64(b)) => match Irelop::not_equal(&a, b) {
                Ok(v) => Ok(Value::I32(v)),
                Err(e) => Err(e),
            },
            _ => Err(RuntimeError::UnexpectedStackValueType),
        }
    }

    /// Signed less than, as 1 or 0; operands that are not two integers of one type are
    /// an error.
    pub fn lt_s(&self, rhs: &Value) -> (r: Result<Value, RuntimeError>)
        ensures
            r == value_lt_s(*self, *rhs),
    {
        match (*self, *rhs) {
            (Value::I32(a), Value::I32(b)) => match Irelop::lt_s(&a, b) {
                Ok(v) => Ok(Value::I32(v)),
                Err(e) => Err(e),
            },
            (Value::I64(a), Value::I64(b)) => match Irelop::lt_s(&a, b) {
                Ok(v) => Ok(Value::I32(v)),
                Err(e) => Err(e),
            },
            _ => Err(RuntimeError::UnexpectedStackValueType),
        }
    }

    /// Unsigned less than, as 1 or 0; operands that are not two integers of one type are
    /// an error.
    pub fn lt_u(&self, rhs: &Value) -> (r: Result<Value, RuntimeError>)
        ensures
            r == value_lt_u(*self, *rhs),
    {
        match (*self, *rhs) {
            (Value::I32(a), Value::I32(b)) => match Irelop::lt_u(&a, b) {
                Ok(v) => Ok(Value::I32(v)),
                Err(e) => Err(e),
            },
            (Value::I64(a), Value::I64(b)) => match Irelop::lt_u(&a, b) {
                Ok(v) => Ok(Value::I32(v)),
                Err(e) => Err(e),
            },
            _ => Err(RuntimeError::UnexpectedStackValueType),
        }
    }

    /// Signed greater than, as 1 or 0; operands that are not two integers of one type are
    /// an error.
    pub fn gt_s(&self, rhs: &Value) -> (r: Result<Value, RuntimeError>)
        ensures
            r == value_gt_s(*self, *rhs),
    {
        match (*self, *rhs) {
            (Value::I32(a), Value::I32(b)) => match Irelop::gt_s(&a, b) {
                Ok(v) => Ok(Value::I32(v)),
                Err(e) => Err(e),
            },
            (Value::I64(a), Value::I64(b)) => match Irelop::gt_s(&a, b) {
                Ok(v) => Ok(Value::I32(v)),
                Err(e) => Err(e),
            },
            _ => Err(RuntimeError::UnexpectedStackValueType),
        }
    }

    /// Unsigned greater than, as 1 or 0; operands that are not two integers of one type are
    /// an error.
    pub fn gt_u(&self, rhs: &Value) -> (r: Result<Value, RuntimeError>)
        ensures
            r == value_gt_u(*self, *rhs),
    {
        match (*self, *rhs) {
            (Value::I32(a), Value::I32(b)) => match Irelop::gt_u(&a, b) {
                Ok(v) => Ok(Value::I32(v)),
                Err(e) => Err(e),
            },
            (Value::I64(a), Value::I64(b)) => match Irelop::gt_u(&a, b) {
                Ok(v) => Ok(Value::I32(v)),
                Err(e) => Err(e),
            },
            _ => Err(RuntimeError::UnexpectedStackValueType),
        }
    }

    /// Signed at most, as 1 or 0; operands that are not two integers of one type are
    /// an error.
    pub fn le_s(&self, rhs: &Value) -> (r: Result<Value, RuntimeError>)
        ensures
            r == value_le_s(*self, *rhs),
    {
        match (*self, *rhs) {
            (Value::I32(a), Value::I32(b)) => match Irelop::le_s(&a, b) {
                Ok(v) => Ok(Value::I32(v)),
                Err(e) => Err(e),
            },
            (Value::I64(a), Value::I64(b)) => match Irelop::le_s(&a, b) {
                Ok(v) => Ok(Value::I32(v)),
                Err(e) => Err(e),
            },
            _ => Err(RuntimeError::UnexpectedStackValueType),
        }
    }

    /// Unsigned at most, as 1 or 0; operands that are not two integers of one type are
    /// an error.
    pub fn le_u(&self, rhs: &Value) -> (r: Result<Value, RuntimeError>)
        ensures
            r == value_le_u(*self, *rhs),
    {
        match (*self, *rhs) {
            (Value::I32(a), Value::I32(b)) => match Irelop::le_u(&a, b) {
                Ok(v) => Ok(Value::I32(v)),
                Err(e) => Err(e),
            },
            (Value::I64(a), Value::I64(b)) => match Irelop::le_u(&a, b) {
                Ok(v) => Ok(Value::I32(v)),
                Err(e) => Err(e),
            },
            _ => Err(RuntimeError::UnexpectedStackValueType),
        }
    }

    /// Signed at least, as 1 or 0; operands that are not two integers of one type are
    /// an error.
    pub fn ge_s(&self, rhs: &Value) -> (r: Result<Value, RuntimeError>)
        ensures
            r == value_ge_s(*self, *rhs),
    {
        match (*self, *rhs) {
            (Value::I32(a), Value::I32(b)) => match Irelop::ge_s(&a, b) {
                Ok(v) => Ok(Value::I32(v)),
                Err(e) => Err(e),
            },
            (Value::I64(a), Value::I64(b)) => match Irelop::ge_s(&a, b) {
                Ok(v) => Ok(Value::I32(v)),
                Err(e) => Err(e),
            },
            _ => Err(RuntimeError::UnexpectedStackValueType),
        }
    }

    /// Unsigned at least, as 1 or 0; operands that are not two integers of one type are
    /// an error.
    pub fn ge_u(&self, rhs: &Value) -> (r: Result<Value, RuntimeError>)
        ensures
            r == value_ge_u(*self, *rhs),
    {
        match (*self, *rhs) {
            (Value::I32(a), Value::I32(b)) => match Irelop::ge_u(&a, b) {
                Ok(v) => Ok(Value::I32(v)),
                Err(e) => Err(e),
            },
            (Value::I64(a), Value::I64(b)) => match Irelop::ge_u(&a, b) {
                Ok(v) => Ok(Value::I32(v)),
                Err(e) => Err(e),
            },
            _ => Err(RuntimeError::UnexpectedStackValueType),
        }
    }

    /// The number of leading zero bits; a float is an error.
    pub fn clz(&self) -> (r: Result<Value, RuntimeError>)
        ensures
            r == value_clz(*self),
    {
        match *self {
            Value::I32(a) => match Iunop::clz(&a) {
                Ok(v) => Ok(Value::I32(v)),
                Err(e) => Err(e),
            },
            Value::I64(a) => match Iunop::clz(&a) {
                Ok(v) => Ok(Value::I64(v)),
                Err(e) => Err(e),
            },
            _ => Err(RuntimeError::UnexpectedStackValueType),
        }
    }

    /// The number of trailing zero bits; a float is an error.
    pub fn ctz(&self) -> (r: Result<Value, RuntimeError>)
        ensures
            r == value_ctz(*self),
    {
        match *self {
            Value::I32(a) => match Iunop::ctz(&a) {
                Ok(v) => Ok(Value::I32(v)),
                Err(e) => Err(e),
            },
            Value::I64(a) => match Iunop::ctz(&a) {
                Ok(v) => Ok(Value::I64(v)),
                Err(e) => Err(e),
            },
            _ => Err(RuntimeError::UnexpectedStackValueType),
        }
    }

    /// The low 8 bits, sign-extended; a float is an error.
    pub fn extend8_s(&self) -> (r: Result<Value, RuntimeError>)
        ensures
            r == value_extend8_s(*self),
    {
        match *self {
            Value::I32(a) => match Iunop::extend8_s(&a) {
                Ok(v) => Ok(Value::I32(v)),
                Err(e) => Err(e),
            },
            Value::I64(a) => match Iunop::extend8_s(&a) {
                Ok(v) => Ok(Value::I64(v)),
                Err(e) => Err(e),
            },
            _ => Err(RuntimeError::UnexpectedStackValueType),
        }
    }

    /// The low 16 bits, sign-extended; a float is an error.
    pub fn extend16_s(&self) -> (r: Result<Value, RuntimeError>)
        ensures
            r == value_extend16_s(*self),
    {
        match *self {
            Value::I32(a) => match Iunop::extend16_s(&a) {
                Ok(v) => Ok(Value::I32(v)),
                Err(e) => Err(e),
            },
            Value::I64(a) => match Iunop::extend16_s(&a) {
                Ok(v) => Ok(Value::I64(v)),
                Err(e) => Err(e),
            },
            _ => Err(RuntimeError::UnexpectedStackValueType),
        }
    }

    /// Whether an integer is zero, as 1 or 0; a float is an error.
    pub fn eqz(&self) -> (r: Result<Value, RuntimeError>)
        ensures
            r == value_eqz(*self),
    {
        match *self {
            Value::I32(a) => match Itestop::eqz(&a) {
                Ok(v) => Ok(Value::I32(v)),
                Err(e) => Err(e),
            },
            Value::I64(a) => match Itestop::eqz(&a) {
                Ok(v) => Ok(Value::I32(v)),
                Err(e) => Err(e),
            },
            _ => Err(RuntimeError::UnexpectedStackValueType),
        }
    }

    /// The number of one bits of an integer; a float is an error.
    pub fn popcnt(&self) -> (r: Result<Value, RuntimeError>)
        ensures
            r == value_popcnt(*self),
    {
        match *self {
            Value::I32(a) => Ok(Value::I32(popcnt_i32(a))),
            Value::I64(a) => Ok(Value::I64(popcnt_i64(a))),
            _ => Err(RuntimeError::UnexpectedStackValueType),
        }
    }

    /// The low 32 bits of an i64, sign-extended; another type is an error.
    pub fn i64_extend_32s(&self) -> (r: Result<Value, RuntimeError>)
        ensures
            r == value_i64_extend_32s(*self),
    {
        match *self {
            Value::I64(a) => Ok(Value::I64(sign_extend_i64(a, 32))),
            _ => Err(RuntimeError::UnexpectedStackValueType),
        }
    }
}

/// Whether bit `k` of `x` is set.
pub open spec fn bit_i32(x: i32, k: u32) -> bool {
    (x >> k) & 1i32 == 1i32
}

/// Whether bit `k` of `x` is set.
pub open spec fn bit_i64(x: i64, k: u64) -> bool {
    (x >> k) & 1i64 == 1i64
}

/// `and`, `or` and `xor` of two `i32` work bit by bit: bit `k` of the result
/// is set when it is set in both operands, in either, and in exactly one.
pub proof fn lemma_i32_bitwise(x: i32, y: i32, k: u32)
    requires
        k < 32,
    ensures
        value_and(Value::I32(x), Value::I32(y)) matches Ok(Value::I32(r)) && bit_i32(r, k) == (bit_i32(x, k) && bit_i32(y, k)),
        value_or(Value::I32(x), Value::I32(y)) matches Ok(Value::I32(r)) && bit_i32(r, k) == (bit_i32(x, k) || bit_i32(y, k)),
        value_xor(Value::I32(x), Value::I32(y)) matches Ok(Value::I32(r)) && bit_i32(r, k) == (bit_i32(x, k) != bit_i32(y, k)),
{
    assert((((x & y) >> k) & 1i32 == 1i32) == (((x >> k) & 1i32 == 1i32) && ((y >> k) & 1i32 == 1i32))) by (bit_vector)
        requires
            k < 32,
    ;
    assert((((x | y) >> k) & 1i32 == 1i32) == (((x >> k) & 1i32 == 1i32) || ((y >> k) & 1i32 == 1i32))) by (bit_vector)
        requires
            k < 32,
    ;
    assert((((x ^ y) >> k) & 1i32 == 1i32) == (((x >> k) & 1i32 == 1i32) != ((y >> k) & 1i32 == 1i32))) by (bit_vector)
        requires
            k < 32,
    ;
}

/// `and`, `or` and `xor` of two `i64` work bit by bit: bit `k` of the result
/// is set when it is set in both operands, in either, and in exactly one.
pub proof fn lemma_i64_bitwise(x: i64, y: i64, k: u64)
    requires
        k < 64,
    ensures
        value_and(Value::I64(x), Value::I64(y)) matches Ok(Value::I64(r)) && bit_i64(r, k) == (bit_i64(x, k) && bit_i64(y, k)),
        value_or(Value::I64(x), Value::I64(y)) matches Ok(Value::I64(r)) && bit_i64(r, k) == (bit_i64(x, k) || bit_i64(y, k)),
        value_xor(Value::I64(x), Value::I64(y)) matches Ok(Value::I64(r)) && bit_i64(r, k) == (bit_i64(x, k) != bit_i64(y, k)),
{
    assert((((x & y) >> k) & 1i64 == 1i64) == (((x >> k) & 1i64 == 1i64) && ((y >> k) & 1i64 == 1i64))) by (bit_vector)
        requires
            k < 64,
    ;
    assert((((x | y) >> k) & 1i64 == 1i64) == (((x >> k) & 1i64 == 1i64) || ((y >> k) & 1i64 == 1i64))) by (bit_vector)
        requires
            k < 64,
    ;
    assert((((x ^ y) >> k) & 1i64 == 1i64) == (((x >> k) & 1i64 == 1i64) != ((y >> k) & 1i64 == 1i64))) by (bit_vector)
        requires
            k < 64,
    ;
}

/// Addition, subtraction and multiplication of two `i32` give the exact
/// result up to a multiple of 2^32: they wrap around.
pub proof fn lemma_i32_wrapping(x: i32, y: i32)
    ensures
        value_add(Value::I32(x), Value::I32(y)) matches Ok(Value::I32(r)) && (r - (x + y)) % 0x1_0000_0000 == 0,
        value_sub(Value::I32(x), Value::I32(y)) matches Ok(Value::I32(r)) && (r - (x - y)) % 0x1_0000_0000 == 0,
        value_mul(Value::I32(x), Value::I32(y)) matches Ok(Value::I32(r)) && (r - x * y) % 0x1_0000_0000 == 0,
{
    lemma_wrap_i32_congruent(x + y);
    lemma_wrap_i32_congruent(x - y);
    lemma_wrap_i32_congruent(x * y);
}

/// The comparisons of two `i32` answer 1 when they hold and 0 when not: the
/// signed ones on the numbers, the unsigned ones on the numbers read modulo
/// 2^32; `eqz` answers whether the number is zero.
pub proof fn lemma_i32_compare(x: i32, y: i32)
    ensures
        value_equal(Value::I32(x), Value::I32(y)) == Ok::<Value, RuntimeError>(Value::I32(if x == y { 1 } else { 0 })),
        value_not_equal(Value::I32(x), Value::I32(y)) == Ok::<Value, RuntimeError>(Value::I32(if x != y { 1 } else { 0 })),
        value_lt_s(Value::I32(x), Value::I32(y)) == Ok::<Value, RuntimeError>(Value::I32(if x < y { 1 } else { 0 })),
        value_gt_s(Value::I32(x), Value::I32(y)) == Ok::<Value, RuntimeError>(Value::I32(if x > y { 1 } else { 0 })),
        value_le_s(Value::I32(x), Value::I32(y)) == Ok::<Value, RuntimeError>(Value::I32(if x <= y { 1 } else { 0 })),
        value_ge_s(Value::I32(x), Value::I32(y)) == Ok::<Value, RuntimeError>(Value::I32(if x >= y { 1 } else { 0 })),
        value_lt_u(Value::I32(x), Value::I32(y)) == Ok::<Value, RuntimeError>(Value::I32(if (x as int) % 0x1_0000_0000 < (y as int) % 0x1_0000_0000 { 1 } else { 0 })),
        value_gt_u(Value::I32(x), Value::I32(y)) == Ok::<Value, RuntimeError>(Value::I32(if (x as int) % 0x1_0000_0000 > (y as int) % 0x1_0000_0000 { 1 } else { 0 })),
        value_le_u(Value::I32(x), Value::I32(y)) == Ok::<Value, RuntimeError>(Value::I32(if (x as int) % 0x1_0000_0000 <= (y as int) % 0x1_0000_0000 { 1 } else { 0 })),
        value_ge_u(Value::I32(x), Value::I32(y)) == Ok::<Value, RuntimeError>(Value::I32(if (x as int) % 0x1_0000_0000 >= (y as int) % 0x1_0000_0000 { 1 } else { 0 })),
        value_eqz(Value::I32(x)) == Ok::<Value, RuntimeError>(Value::I32(if x == 0 { 1 } else { 0 })),
{
    lemma_unsigned_i32(x);
    lemma_unsigned_i32(y);
}

/// The unsigned reading of `x` is `x` modulo 2^32.
pub(crate) proof fn lemma_unsigned_i32(x: i32)
    ensures
        unsigned_i32(x) as int == (x as int) % 0x1_0000_0000,
{
}

/// Wrapping a number into `i32` changes it by a multiple of 2^32.
pub(crate) proof fn lemma_wrap_i32_congruent(t: int)
    ensures
        (wrap_i32(t) - t) % 0x1_0000_0000 == 0,
{
    let m = t % 0x1_0000_0000;
    assert(t == 0x1_0000_0000 * (t / 0x1_0000_0000) + m);
    if m > i32::MAX {
        assert(wrap_i32(t) - t == -0x1_0000_0000 * (t / 0x1_0000_0000) - 0x1_0000_0000);
        assert((-0x1_0000_0000 * (t / 0x1_0000_0000) - 0x1_0000_0000) == 0x1_0000_0000 * (-(t / 0x1_0000_0000) - 1));
        vstd::arithmetic::div_mod::lemma_mod_multiples_basic(-(t / 0x1_0000_0000) - 1, 0x1_0000_0000);
    } else {
        assert(wrap_i32(t) - t == -0x1_0000_0000 * (t / 0x1_0000_0000));
        assert(-0x1_0000_0000 * (t / 0x1_0000_0000) == 0x1_0000_0000 * (-(t / 0x1_0000_0000)));
        vstd::arithmetic::div_mod::lemma_mod_multiples_basic(-(t / 0x1_0000_0000), 0x1_0000_0000);
    }
}

/// Addition, subtraction and multiplication of two `i64` give the exact
/// result up to a multiple of 2^64: they wrap around.
pub proof fn lemma_i64_wrapping(x: i64, y: i64)
    ensures
        value_add(Value::I64(x), Value::I64(y)) matches Ok(Value::I64(r)) && (r - (x + y)) % 0x1_0000_0000_0000_0000 == 0,
        value_sub(Value::I64(x), Value::I64(y)) matches Ok(Value::I64(r)) && (r - (x - y)) % 0x1_0000_0000_0000_0000 == 0,
        value_mul(Value::I64(x), Value::I64(y)) matches Ok(Value::I64(r)) && (r - x * y) % 0x1_0000_0000_0000_0000 == 0,
{
    lemma_wrap_i64_congruent(x + y);
    lemma_wrap_i64_congruent(x - y);
    lemma_wrap_i64_congruent(x * y);
}

/// The comparisons of two `i64` answer 1 when they hold and 0 when not: the
/// signed ones on the numbers, the unsigned ones on the numbers read modulo
/// 2^64; `eqz` answers whether the number is zero.
pub proof fn lemma_i64_compare(x: i64, y: i64)
    ensures
        value_equal(Value::I64(x), Value::I64(y)) == Ok::<Value, RuntimeError>(Value::I32(if x == y { 1 } else { 0 })),
        value_not_equal(Value::I64(x), Value::I64(y)) == Ok::<Value, RuntimeError>(Value::I32(if x != y { 1 } else { 0 })),
        value_lt_s(Value::I64(x), Value::I64(y)) == Ok::<Value, RuntimeError>(Value::I32(if x < y { 1 } else { 0 })),
        value_gt_s(Value::I64(x), Value::I64(y)) == Ok::<Value, RuntimeError>(Value::I32(if x > y { 1 } else { 0 })),
        value_le_s(Value::I64(x), Value::I64(y)) == Ok::<Value, RuntimeError>(Value::I32(if x <= y { 1 } else { 0 })),
        value_ge_s(Value::I64(x), Value::I64(y)) == Ok::<Value, RuntimeError>(Value::I32(if x >= y { 1 } else { 0 })),
        value_lt_u(Value::I64(x), Value::I64(y)) == Ok::<Value, RuntimeError>(Value::I32(if (x as int) % 0x1_0000_0000_0000_0000 < (y as int) % 0x1_0000_0000_0000_0000 { 1 } else { 0 })),
        value_gt_u(Value::I64(x), Value::I64(y)) == Ok::<Value, RuntimeError>(Value::I32(if (x as int) % 0x1_0000_0000_0000_0000 > (y as int) % 0x1_0000_0000_0000_0000 { 1 } else { 0 })),
        value_le_u(Value::I64(x), Value::I64(y)) == Ok::<Value, RuntimeError>(Value::I32(if (x as int) % 0x1_0000_0000_0000_0000 <= (y as int) % 0x1_0000_0000_0000_0000 { 1 } else { 0 })),
        value_ge_u(Value::I64(x), Value::I64(y)) == Ok::<Value, RuntimeError>(Value::I32(if (x as int) % 0x1_0000_0000_0000_0000 >= (y as int) % 0x1_0000_0000_0000_0000 { 1 } else { 0 })),
        value_eqz(Value::I64(x)) == Ok::<Value, RuntimeError>(Value::I32(if x == 0 { 1 } else { 0 })),
{
    lemma_unsigned_i64(x);
    lemma_unsigned_i64(y);
}

/// The unsigned reading of `x` is `x` modulo 2^64.
pub(crate) proof fn lemma_unsigned_i64(x: i64)
    ensures
        unsigned_i64(x) as int == (x as int) % 0x1_0000_0000_0000_0000,
{
}

/// Wrapping a number into `i64` changes it by a multiple of 2^64.
proof fn lemma_wrap_i64_congruent(t: int)
    ensures
        (wrap_i64(t) - t) % 0x1_0000_0000_0000_0000 == 0,
{
    let m = t % 0x1_0000_0000_0000_0000;
    assert(t == 0x1_0000_0000_0000_0000 * (t / 0x1_0000_0000_0000_0000) + m);
    if m > i64::MAX {
        assert(wrap_i64(t) - t == -0x1_0000_0000_0000_0000 * (t / 0x1_0000_0000_0000_0000) - 0x1_0000_0000_0000_0000);
        assert((-0x1_0000_0000_0000_0000 * (t / 0x1_0000_0000_0000_0000) - 0x1_0000_0000_0000_0000) == 0x1_0000_0000_0000_0000 * (-(t / 0x1_0000_0000_0000_0000) - 1));
        vstd::arithmetic::div_mod::lemma_mod_multiples_basic(-(t / 0x1_0000_0000_0000_0000) - 1, 0x1_0000_0000_0000_0000);
    } else {
        assert(wrap_i64(t) - t == -0x1_0000_0000_0000_0000 * (t / 0x1_0000_0000_0000_0000));
        assert(-0x1_0000_0000_0000_0000 * (t / 0x1_0000_0000_0000_0000) == 0x1_0000_0000_0000_0000 * (-(t / 0x1_0000_0000_0000_0000)));
        vstd::arithmetic::div_mod::lemma_mod_multiples_basic(-(t / 0x1_0000_0000_0000_0000), 0x1_0000_0000_0000_0000);
    }
}

/// Division rounding toward zero, with the remainder taking the sign of the
/// dividend: `x == q * d + r`, `|r| < |d|`.
proof fn lemma_trunc_divmod(x: int, d: int)
    requires
        d != 0,
    ensures
        x == trunc_div_i32(x, d) * d + trunc_rem_i32(x, d),
        -d < trunc_rem_i32(x, d) < d || d < trunc_rem_i32(x, d) < -d,
        trunc_rem_i32(x, d) == 0 || ((trunc_rem_i32(x, d) < 0) == (x < 0)),
        trunc_div_i64(x, d) == trunc_div_i32(x, d),
        trunc_rem_i64(x, d) == trunc_rem_i32(x, d),
{
    let q = trunc_div_i32(x, d);
    let r = trunc_rem_i32(x, d);
    if x == 0 {
    } else if x > 0 && d > 0 {
        vstd::arithmetic::div_mod::lemma_fundamental_div_mod(x, d);
        vstd::arithmetic::div_mod::lemma_mod_pos_bound(x, d);
        assert(x == q * d + r) by (nonlinear_arith)
            requires
                x == d * (x / d) + (x % d),
                q == x / d,
                r == x % d,
        ;
    } else if x < 0 && d < 0 {
        let a = -x;
        let b = -d;
        vstd::arithmetic::div_mod::lemma_fundamental_div_mod(a, b);
        vstd::arithmetic::div_mod::lemma_mod_pos_bound(a, b);
        assert(x == q * d + r) by (nonlinear_arith)
            requires
                a == b * (a / b) + (a % b),
                a == -x,
                b == -d,
                q == a / b,
                r == -(a % b),
        ;
    } else if x < 0 {
        let a = -x;
        vstd::arithmetic::div_mod::lemma_fundamental_div_mod(a, d);
        vstd::arithmetic::div_mod::lemma_mod_pos_bound(a, d);
        assert(x == q * d + r) by (nonlinear_arith)
            requires
                a == d * (a / d) + (a % d),
                a == -x,
                q == -(a / d),
                r == -(a % d),
        ;
    } else {
        let b = -d;
        vstd::arithmetic::div_mod::lemma_fundamental_div_mod(x, b);
        vstd::arithmetic::div_mod::lemma_mod_pos_bound(x, b);
        assert(x == q * d + r) by (nonlinear_arith)
            requires
                x == b * (x / b) + (x % b),
                b == -d,
                q == -(x / b),
                r == x % b,
        ;
    }
}

/// Unsigned division: the quotient and remainder of the numbers read modulo
/// 2^32, read back as `i32`.
proof fn lemma_unsigned_divmod_i32(x: i32, y: i32)
    requires
        y != 0,
    ensures
        value_div_u(Value::I32(x), Value::I32(y)) matches Ok(Value::I32(q))
            && value_rem_u(Value::I32(x), Value::I32(y)) matches Ok(Value::I32(r))
            && (x as int) % 0x1_0000_0000 == ((q as int) % 0x1_0000_0000) * ((y as int) % 0x1_0000_0000) + (r as int) % 0x1_0000_0000
            && (r as int) % 0x1_0000_0000 < (y as int) % 0x1_0000_0000,
{
    lemma_unsigned_i32(x);
    lemma_unsigned_i32(y);
    let a = unsigned_i32(x) as int;
    let b = unsigned_i32(y) as int;
    vstd::arithmetic::div_mod::lemma_fundamental_div_mod(a, b);
    vstd::arithmetic::div_mod::lemma_mod_pos_bound(a, b);
    assert(0 <= a / b <= a) by (nonlinear_arith)
        requires
            a >= 0,
            b >= 1,
    ;
    let q = signed_i32((a / b) as u32);
    let r = signed_i32((a % b) as u32);
    assert((q as int) % 0x1_0000_0000 == a / b);
    assert((r as int) % 0x1_0000_0000 == a % b);
    assert(a == (a / b) * b + a % b) by (nonlinear_arith)
        requires
            a == b * (a / b) + (a % b),
    ;
}

/// Unsigned division: the quotient and remainder of the numbers read modulo
/// 2^64, read back as `i64`.
proof fn lemma_unsigned_divmod_i64(x: i64, y: i64)
    requires
        y != 0,
    ensures
        value_div_u(Value::I64(x), Value::I64(y)) matches Ok(Value::I64(q))
            && value_rem_u(Value::I64(x), Value::I64(y)) matches Ok(Value::I64(r))
            && (x as int) % 0x1_0000_0000_0000_0000 == ((q as int) % 0x1_0000_0000_0000_0000) * ((y as int) % 0x1_0000_0000_0000_0000) + (r as int) % 0x1_0000_0000_0000_0000
            && (r as int) % 0x1_0000_0000_0000_0000 < (y as int) % 0x1_0000_0000_0000_0000,
{
    lemma_unsigned_i64(x);
    lemma_unsigned_i64(y);
    let a = unsigned_i64(x) as int;
    let b = unsigned_i64(y) as int;
    vstd::arithmetic::div_mod::lemma_fundamental_div_mod(a, b);
    vstd::arithmetic::div_mod::lemma_mod_pos_bound(a, b);
    assert(0 <= a / b <= a) by (nonlinear_arith)
        requires
            a >= 0,
            b >= 1,
    ;
    let q = signed_i64((a / b) as u64);
    let r = signed_i64((a % b) as u64);
    assert((q as int) % 0x1_0000_0000_0000_0000 == a / b);
    assert((r as int) % 0x1_0000_0000_0000_0000 == a % b);
    assert(a == (a / b) * b + a % b) by (nonlinear_arith)
        requires
            a == b * (a / b) + (a % b),
    ;
}

/// Division of two `i32`: a zero divisor is an error for all four
/// operations; otherwise the signed quotient `q` and remainder `r` satisfy
/// `x == q * y + r` with `|r| < |y|` and `r` of the sign of `x` (so the
/// quotient is rounded toward zero), but for `i32::MIN / -1`, whose quotient
/// does not fit and is an error while its remainder is 0; the unsigned ones
/// do the same on the numbers read modulo 2^32.
pub proof fn lemma_i32_division(x: i32, y: i32)
    ensures
        y == 0 ==> {
            &&& value_div_s(Value::I32(x), Value::I32(y)) == Err::<Value, RuntimeError>(RuntimeError::IntegerDivideByZero)
            &&& value_rem_s(Value::I32(x), Value::I32(y)) == Err::<Value, RuntimeError>(RuntimeError::IntegerDivideByZero)
            &&& value_div_u(Value::I32(x), Value::I32(y)) == Err::<Value, RuntimeError>(RuntimeError::IntegerDivideByZero)
            &&& value_rem_u(Value::I32(x), Value::I32(y)) == Err::<Value, RuntimeError>(RuntimeError::IntegerDivideByZero)
        },
        x == i32::MIN && y == -1 ==> {
            &&& value_div_s(Value::I32(x), Value::I32(y)) == Err::<Value, RuntimeError>(RuntimeError::DivisionOverflow)
            &&& value_rem_s(Value::I32(x), Value::I32(y)) == Ok::<Value, RuntimeError>(Value::I32(0))
        },
        y != 0 && !(x == i32::MIN && y == -1) ==> (value_div_s(Value::I32(x), Value::I32(y)) matches Ok(Value::I32(q))
            && value_rem_s(Value::I32(x), Value::I32(y)) matches Ok(Value::I32(r))
            && x == q * y + r
            && (-y < r < y || y < r < -y)
            && (r == 0 || (r < 0) == (x < 0))),
        y != 0 ==> (value_div_u(Value::I32(x), Value::I32(y)) matches Ok(Value::I32(q))
            && value_rem_u(Value::I32(x), Value::I32(y)) matches Ok(Value::I32(r))
            && (x as int) % 0x1_0000_0000 == ((q as int) % 0x1_0000_0000) * ((y as int) % 0x1_0000_0000) + (r as int) % 0x1_0000_0000
            && (r as int) % 0x1_0000_0000 < (y as int) % 0x1_0000_0000),
{
    if y != 0 {
        lemma_trunc_divmod(x as int, y as int);
        lemma_unsigned_divmod_i32(x, y);
        if !(x == i32::MIN && y == -1) {
            lemma_trunc_div_bound_i32(x, y);
        }
    }
}

/// Division of two `i64`: a zero divisor is an error for all four
/// operations; otherwise the signed quotient `q` and remainder `r` satisfy
/// `x == q * y + r` with `|r| < |y|` and `r` of the sign of `x` (so the
/// quotient is rounded toward zero), but for `i64::MIN / -1`, whose quotient
/// does not fit and is an error while its remainder is 0; the unsigned ones
/// do the same on the numbers read modulo 2^64.
pub proof fn lemma_i64_division(x: i64, y: i64)
    ensures
        y == 0 ==> {
            &&& value_div_s(Value::I64(x), Value::I64(y)) == Err::<Value, RuntimeError>(RuntimeError::IntegerDivideByZero)
            &&& value_rem_s(Value::I64(x), Value::I64(y)) == Err::<Value, RuntimeError>(RuntimeError::IntegerDivideByZero)
            &&& value_div_u(Value::I64(x), Value::I64(y)) == Err::<Value, RuntimeError>(RuntimeError::IntegerDivideByZero)
            &&& value_rem_u(Value::I64(x), Value::I64(y)) == Err::<Value, RuntimeError>(RuntimeError::IntegerDivideByZero)
        },
        x == i64::MIN && y == -1 ==> {
            &&& value_div_s(Value::I64(x), Value::I64(y)) == Err::<Value, RuntimeError>(RuntimeError::DivisionOverflow)
            &&& value_rem_s(Value::I64(x), Value::I64(y)) == Ok::<Value, RuntimeError>(Value::I64(0))
        },
        y != 0 && !(x == i64::MIN && y == -1) ==> (value_div_s(Value::I64(x), Value::I64(y)) matches Ok(Value::I64(q))
            && value_rem_s(Value::I64(x), Value::I64(y)) matches Ok(Value::I64(r))
            && x == q * y + r
            && (-y < r < y || y < r < -y)
            && (r == 0 || (r < 0) == (x < 0))),
        y != 0 ==> (value_div_u(Value::I64(x), Value::I64(y)) matches Ok(Value::I64(q))
            && value_rem_u(Value::I64(x), Value::I64(y)) matches Ok(Value::I64(r))
            && (x as int) % 0x1_0000_0000_0000_0000 == ((q as int) % 0x1_0000_0000_0000_0000) * ((y as int) % 0x1_0000_0000_0000_0000) + (r as int) % 0x1_0000_0000_0000_0000
            && (r as int) % 0x1_0000_0000_0000_0000 < (y as int) % 0x1_0000_0000_0000_0000),
{
    if y != 0 {
        lemma_trunc_divmod(x as int, y as int);
        lemma_unsigned_divmod_i64(x, y);
        if !(x == i64::MIN && y == -1) {
            lemma_trunc_div_bound_i64(x, y);
        }
    }
}

/// Bit `j` of an `i32` is bit `j` of its unsigned reading.
proof fn lemma_bit_unsigned_i32(x: i32, j: u32)
    requires
        j < 32,
    ensures
        bit_i32(x, j) == ((unsigned_i32(x) >> j) & 1u32 == 1u32),
        unsigned_i32(signed_i32(unsigned_i32(x))) == unsigned_i32(x),
{
    assert(((x >> j) & 1i32 == 1i32) == ((unsigned_i32(x) >> j) & 1u32 == 1u32)) by (bit_vector)
        requires
            j < 32,
    ;
}

/// The shifts and rotations of an `i32` by `y` move its bits by `y` modulo
/// 32: `shl` moves them up and brings in zeros, `shr_u` moves them down and
/// brings in zeros, `shr_s` moves them down and brings in copies of the sign
/// bit, and the rotations move them around, what leaves one end coming in
/// at the other.
pub proof fn lemma_i32_shifts(x: i32, y: i32, j: u32)
    requires
        j < 32,
    ensures
        ({
            let s = ((y as int) % 32) as u32;
            &&& value_shl(Value::I32(x), Value::I32(y)) matches Ok(Value::I32(r)) && bit_i32(r, j) == (j >= s && bit_i32(x, (j - s) as u32))
            &&& value_shr_u(Value::I32(x), Value::I32(y)) matches Ok(Value::I32(r)) && bit_i32(r, j) == (j + s < 32 && bit_i32(x, (j + s) as u32))
            &&& value_shr_s(Value::I32(x), Value::I32(y)) matches Ok(Value::I32(r)) && bit_i32(r, j) == if j + s < 32 {
                bit_i32(x, (j + s) as u32)
            } else {
                bit_i32(x, 31)
            }
            &&& value_rotl(Value::I32(x), Value::I32(y)) matches Ok(Value::I32(r)) && bit_i32(r, j) == bit_i32(x, ((j + 32 - s) % 32) as u32)
            &&& value_rotr(Value::I32(x), Value::I32(y)) matches Ok(Value::I32(r)) && bit_i32(r, j) == bit_i32(x, ((j + s) % 32) as u32)
        }),
{
    lemma_unsigned_i32(y);
    let s = unsigned_i32(y) % 32;
    assert(s == (y as int) % 32);
    let u = unsigned_i32(x);
    let t = ((32 - s) % 32) as u32;
    lemma_bit_unsigned_i32(x, j);
    lemma_bit_unsigned_i32(x, 31);
    if j >= s {
        lemma_bit_unsigned_i32(x, (j - s) as u32);
    }
    if j + s < 32 {
        lemma_bit_unsigned_i32(x, (j + s) as u32);
    }
    lemma_bit_unsigned_i32(x, ((j + 32 - s) % 32) as u32);
    lemma_bit_unsigned_i32(x, ((j + s) % 32) as u32);
    let shl = u << s;
    let shr = u >> s;
    let rl = rotl_u32(u, s);
    let rr = rotl_u32(u, t);
    lemma_bit_unsigned_i32(signed_i32(shl), j);
    lemma_bit_unsigned_i32(signed_i32(shr), j);
    lemma_bit_unsigned_i32(signed_i32(rl), j);
    lemma_bit_unsigned_i32(signed_i32(rr), j);
    assert(unsigned_i32(signed_i32(shl)) == shl);
    assert(unsigned_i32(signed_i32(shr)) == shr);
    assert(unsigned_i32(signed_i32(rl)) == rl);
    assert(unsigned_i32(signed_i32(rr)) == rr);
    assert(((shl >> j) & 1u32 == 1u32) == (j >= s && (u >> ((j - s) as u32)) & 1u32 == 1u32)) by (bit_vector)
        requires
            shl == u << s,
            s < 32,
            j < 32,
    ;
    assert(((shr >> j) & 1u32 == 1u32) == (j + s < 32 && (u >> ((j + s) as u32)) & 1u32 == 1u32)) by (bit_vector)
        requires
            shr == u >> s,
            s < 32,
            j < 32,
    ;
    assert(((rl >> j) & 1u32 == 1u32) == ((u >> (((j + 32 - s) % 32) as u32)) & 1u32 == 1u32)) by (bit_vector)
        requires
            s == 0 ==> rl == u,
            s != 0 ==> rl == (u << s) | (u >> ((32 - s) as u32)),
            s < 32,
            j < 32,
    ;
    assert(((rr >> j) & 1u32 == 1u32) == ((u >> (((j + s) % 32) as u32)) & 1u32 == 1u32)) by (bit_vector)
        requires
            t == ((32 - s) % 32) as u32,
            t == 0 ==> rr == u,
            t != 0 ==> rr == (u << t) | (u >> ((32 - t) as u32)),
            s < 32,
            j < 32,
    ;
    assert((((x >> s) >> j) & 1i32 == 1i32) == if j + s < 32 {
        (x >> ((j + s) as u32)) & 1i32 == 1i32
    } else {
        (x >> 31u32) & 1i32 == 1i32
    }) by (bit_vector)
        requires
            s < 32,
            j < 32,
    ;
}

/// Bit `j` of an `i64` is bit `j` of its unsigned reading.
proof fn lemma_bit_unsigned_i64(x: i64, j: u64)
    requires
        j < 64,
    ensures
        bit_i64(x, j) == ((unsigned_i64(x) >> j) & 1u64 == 1u64),
        unsigned_i64(signed_i64(unsigned_i64(x))) == unsigned_i64(x),
{
    assert(((x >> j) & 1i64 == 1i64) == ((unsigned_i64(x) >> j) & 1u64 == 1u64)) by (bit_vector)
        requires
            j < 64,
    ;
}

/// The shifts and rotations of an `i64` by `y` move its bits by `y` modulo
/// 64: `shl` moves them up and brings in zeros, `shr_u` moves them down and
/// brings in zeros, `shr_s` moves them down and brings in copies of the sign
/// bit, and the rotations move them around, what leaves one end coming in
/// at the other.
pub proof fn lemma_i64_shifts(x: i64, y: i64, j: u64)
    requires
        j < 64,
    ensures
        ({
            let s = ((y as int) % 64) as u64;
            &&& value_shl(Value::I64(x), Value::I64(y)) matches Ok(Value::I64(r)) && bit_i64(r, j) == (j >= s && bit_i64(x, (j - s) as u64))
            &&& value_shr_u(Value::I64(x), Value::I64(y)) matches Ok(Value::I64(r)) && bit_i64(r, j) == (j + s < 64 && bit_i64(x, (j + s) as u64))
            &&& value_shr_s(Value::I64(x), Value::I64(y)) matches Ok(Value::I64(r)) && bit_i64(r, j) == if j + s < 64 {
                bit_i64(x, (j + s) as u64)
            } else {
                bit_i64(x, 63)
            }
            &&& value_rotl(Value::I64(x), Value::I64(y)) matches Ok(Value::I64(r)) && bit_i64(r, j) == bit_i64(x, ((j + 64 - s) % 64) as u64)
            &&& value_rotr(Value::I64(x), Value::I64(y)) matches Ok(Value::I64(r)) && bit_i64(r, j) == bit_i64(x, ((j + s) % 64) as u64)
        }),
{
    lemma_unsigned_i64(y);
    let s = unsigned_i64(y) % 64;
    assert(s == (y as int) % 64);
    let u = unsigned_i64(x);
    let t = ((64 - s) % 64) as u64;
    lemma_bit_unsigned_i64(x, j);
    lemma_bit_unsigned_i64(x, 63);
    if j >= s {
        lemma_bit_unsigned_i64(x, (j - s) as u64);
    }
    if j + s < 64 {
        lemma_bit_unsigned_i64(x, (j + s) as u64);
    }
    lemma_bit_unsigned_i64(x, ((j + 64 - s) % 64) as u64);
    lemma_bit_unsigned_i64(x, ((j + s) % 64) as u64);
    let shl = u << s;
    let shr = u >> s;
    let rl = rotl_u64(u, s);
    let rr = rotl_u64(u, t);
    lemma_bit_unsigned_i64(signed_i64(shl), j);
    lemma_bit_unsigned_i64(signed_i64(shr), j);
    lemma_bit_unsigned_i64(signed_i64(rl), j);
    lemma_bit_unsigned_i64(signed_i64(rr), j);
    assert(unsigned_i64(signed_i64(shl)) == shl);
    assert(unsigned_i64(signed_i64(shr)) == shr);
    assert(unsigned_i64(signed_i64(rl)) == rl);
    assert(unsigned_i64(signed_i64(rr)) == rr);
    assert(((shl >> j) & 1u64 == 1u64) == (j >= s && (u >> ((j - s) as u64)) & 1u64 == 1u64)) by (bit_vector)
        requires
            shl == u << s,
            s < 64,
            j < 64,
    ;
    assert(((shr >> j) & 1u64 == 1u64) == (j + s < 64 && (u >> ((j + s) as u64)) & 1u64 == 1u64)) by (bit_vector)
        requires
            shr == u >> s,
            s < 64,
            j < 64,
    ;
    assert(((rl >> j) & 1u64 == 1u64) == ((u >> (((j + 64 - s) % 64) as u64)) & 1u64 == 1u64)) by (bit_vector)
        requires
            s == 0 ==> rl == u,
            s != 0 ==> rl == (u << s) | (u >> ((64 - s) as u64)),
            s < 64,
            j < 64,
    ;
    assert(((rr >> j) & 1u64 == 1u64) == ((u >> (((j + s) % 64) as u64)) & 1u64 == 1u64)) by (bit_vector)
        requires
            t == ((64 - s) % 64) as u64,
            t == 0 ==> rr == u,
            t != 0 ==> rr == (u << t) | (u >> ((64 - t) as u64)),
            s < 64,
            j < 64,
    ;
    assert((((x >> s) >> j) & 1i64 == 1i64) == if j + s < 64 {
        (x >> ((j + s) as u64)) & 1i64 == 1i64
    } else {
        (x >> 63u64) & 1i64 == 1i64
    }) by (bit_vector)
        requires
            s < 64,
            j < 64,
    ;
}

/// Reading the low bits of `x` modulo `m == 2 * h` as a two's complement
/// number gives a number in `[-h, h)` that differs from `x` by a multiple of
/// `m`.
proof fn lemma_sign_extended(x: int, m: int, h: int)
    requires
        m > 0,
        m == 2 * h,
    ensures
        ({
            let b = x % m;
            let r = if b >= h { b - m } else { b };
            -h <= r < h && (r - x) % m == 0
        }),
{
    let b = x % m;
    let q = x / m;
    vstd::arithmetic::div_mod::lemma_fundamental_div_mod(x, m);
    vstd::arithmetic::div_mod::lemma_mod_division_less_than_divisor(x, m);
    if b >= h {
        assert(b - m - x == (-q - 1) * m) by (nonlinear_arith)
            requires
                x == m * q + b,
        ;
        vstd::arithmetic::div_mod::lemma_mod_multiples_basic(-q - 1, m);
    } else {
        assert(b - x == (-q) * m) by (nonlinear_arith)
            requires
                x == m * q + b,
        ;
        vstd::arithmetic::div_mod::lemma_mod_multiples_basic(-q, m);
    }
}

/// `extend8_s` and `extend16_s` of an `i32` give the number that its low 8
/// (16) bits hold as a two's complement number: it lies in `[-2^7, 2^7)`
/// (`[-2^15, 2^15)`) and differs from `x` by a multiple of `2^8` (`2^16`).
pub proof fn lemma_i32_sign_extend(x: i32)
    ensures
        value_extend8_s(Value::I32(x)) matches Ok(Value::I32(r)) && -0x80 <= r < 0x80 && (r - x) % 0x100 == 0,
        value_extend16_s(Value::I32(x)) matches Ok(Value::I32(r)) && -0x8000 <= r < 0x8000 && (r - x) % 0x1_0000 == 0,
{
    lemma_pow2_values();
    lemma_sign_extended(x as int, 0x100, 0x80);
    lemma_sign_extended(x as int, 0x1_0000, 0x8000);
}

/// `extend8_s`, `extend16_s` and `extend32_s` of an `i64` give the number
/// that its low 8 (16, 32) bits hold as a two's complement number: it lies
/// in `[-2^7, 2^7)` (`[-2^15, 2^15)`, `[-2^31, 2^31)`) and differs from `x`
/// by a multiple of `2^8` (`2^16`, `2^32`).
pub proof fn lemma_i64_sign_extend(x: i64)
    ensures
        value_extend8_s(Value::I64(x)) matches Ok(Value::I64(r)) && -0x80 <= r < 0x80 && (r - x) % 0x100 == 0,
        value_extend16_s(Value::I64(x)) matches Ok(Value::I64(r)) && -0x8000 <= r < 0x8000 && (r - x) % 0x1_0000 == 0,
        value_i64_extend_32s(Value::I64(x)) matches Ok(Value::I64(r)) && -0x8000_0000 <= r < 0x8000_0000 && (r - x) % 0x1_0000_0000 == 0,
{
    lemma_pow2_values();
    lemma_sign_extended(x as int, 0x100, 0x80);
    lemma_sign_extended(x as int, 0x1_0000, 0x8000);
    lemma_sign_extended(x as int, 0x1_0000_0000, 0x8000_0000);
}

/// `clz` of an `i32` counts the zero bits above its highest set bit, and
/// `ctz` the zero bits below its lowest one; both are 32 for zero.
pub proof fn lemma_i32_count_zeros(x: i32)
    ensures
        value_clz(Value::I32(x)) matches Ok(Value::I32(n)) && 0 <= n <= 32
            && (forall|j: u32| 32 - n <= j < 32 ==> !#[trigger] bit_i32(x, j))
            && (n < 32 ==> bit_i32(x, (31 - n) as u32)),
        value_ctz(Value::I32(x)) matches Ok(Value::I32(n)) && 0 <= n <= 32
            && (forall|j: u32| j < n ==> !#[trigger] bit_i32(x, j))
            && (n < 32 ==> bit_i32(x, n as u32)),
{
    let u = unsigned_i32(x);
    vstd::std_specs::bits::axiom_u32_leading_zeros(u);
    vstd::std_specs::bits::axiom_u32_trailing_zeros(u);
    let lz = vstd::std_specs::bits::u32_leading_zeros(u);
    let tz = vstd::std_specs::bits::u32_trailing_zeros(u);
    assert forall|j: u32| 32 - lz <= j < 32 implies !#[trigger] bit_i32(x, j) by {
        lemma_bit_unsigned_i32(x, j);
    }
    assert forall|j: u32| j < tz implies !#[trigger] bit_i32(x, j) by {
        lemma_bit_unsigned_i32(x, j);
    }
    if lz < 32 {
        let k = (31 - lz) as u32;
        lemma_bit_unsigned_i32(x, k);
        assert((u >> k) & 1u32 != 0u32 ==> (u >> k) & 1u32 == 1u32) by (bit_vector);
    }
    if tz < 32 {
        lemma_bit_unsigned_i32(x, tz);
    }
}

/// `clz` of an `i64` counts the zero bits above its highest set bit, and
/// `ctz` the zero bits below its lowest one; both are 64 for zero.
pub proof fn lemma_i64_count_zeros(x: i64)
    ensures
        value_clz(Value::I64(x)) matches Ok(Value::I64(n)) && 0 <= n <= 64
            && (forall|j: u64| 64 - n <= j < 64 ==> !#[trigger] bit_i64(x, j))
            && (n < 64 ==> bit_i64(x, (63 - n) as u64)),
        value_ctz(Value::I64(x)) matches Ok(Value::I64(n)) && 0 <= n <= 64
            && (forall|j: u64| j < n ==> !#[trigger] bit_i64(x, j))
            && (n < 64 ==> bit_i64(x, n as u64)),
{
    let u = unsigned_i64(x);
    vstd::std_specs::bits::axiom_u64_leading_zeros(u);
    vstd::std_specs::bits::axiom_u64_trailing_zeros(u);
    let lz = vstd::std_specs::bits::u64_leading_zeros(u);
    let tz = vstd::std_specs::bits::u64_trailing_zeros(u);
    assert forall|j: u64| 64 - lz <= j < 64 implies !#[trigger] bit_i64(x, j) by {
        lemma_bit_unsigned_i64(x, j);
    }
    assert forall|j: u64| j < tz implies !#[trigger] bit_i64(x, j) by {
        lemma_bit_unsigned_i64(x, j);
    }
    if lz < 64 {
        let k = (63 - lz) as u64;
        lemma_bit_unsigned_i64(x, k);
        assert((u >> k) & 1u64 != 0u64 ==> (u >> k) & 1u64 == 1u64) by (bit_vector);
    }
    if tz < 64 {
        lemma_bit_unsigned_i64(x, tz as u64);
    }
}

/// The number of bits below `m` that are set in `x`.
pub open spec fn set_bits_i32(x: i32, m: u32) -> nat
    decreases m,
{
    if m == 0 {
        0
    } else {
        set_bits_i32(x, (m - 1) as u32) + if bit_i32(x, (m - 1) as u32) { 1nat } else { 0nat }
    }
}

/// The number of bits below `m` that are set in `x`.
pub open spec fn set_bits_i64(x: i64, m: u64) -> nat
    decreases m,
{
    if m == 0 {
        0
    } else {
        set_bits_i64(x, (m - 1) as u64) + if bit_i64(x, (m - 1) as u64) { 1nat } else { 0nat }
    }
}

proof fn lemma_popcount_bits_i32(x: i32, m: u32)
    requires
        m <= 32,
    ensures
        popcount_u32(unsigned_i32(x), m as nat) == set_bits_i32(x, m),
    decreases m,
{
    if m > 0 {
        let j = (m - 1) as u32;
        lemma_popcount_bits_i32(x, j);
        lemma_bit_unsigned_i32(x, j);
        let u = unsigned_i32(x);
        assert((u >> j) & 1u32 == 1u32 || (u >> j) & 1u32 == 0u32) by (bit_vector);
    }
}

proof fn lemma_popcount_bits_i64(x: i64, m: u64)
    requires
        m <= 64,
    ensures
        popcount_u64(unsigned_i64(x), m as nat) == set_bits_i64(x, m),
    decreases m,
{
    if m > 0 {
        let j = (m - 1) as u64;
        lemma_popcount_bits_i64(x, j);
        lemma_bit_unsigned_i64(x, j);
        let u = unsigned_i64(x);
        assert((u >> j) & 1u64 == 1u64 || (u >> j) & 1u64 == 0u64) by (bit_vector);
    }
}

/// `popcnt` counts the bits that are set.
pub proof fn lemma_popcnt_counts_bits(x: i32, y: i64)
    ensures
        value_popcnt(Value::I32(x)) == Ok::<Value, RuntimeError>(Value::I32(set_bits_i32(x, 32) as i32)),
        value_popcnt(Value::I64(y)) == Ok::<Value, RuntimeError>(Value::I64(set_bits_i64(y, 64) as i64)),
{
    lemma_popcount_bits_i32(x, 32);
    lemma_popcount_bits_i64(y, 64);
}

} // verus!
