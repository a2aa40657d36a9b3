//! What the numeric and memory instructions give, apart from the stack.
use super::error::RuntimeError;
use super::integer::{signed_i32, signed_i64, unsigned_i32, unsigned_i64, wrap_i32};
use super::module::{lemma_load_after_store, spec_load, spec_store, InternalMemoryInst};
use super::value::{
    value_add, value_and, value_clz, value_ctz, value_div_s, value_div_u, value_equal, value_eqz, value_extend16_s, value_extend8_s, value_ge_s, value_ge_u, value_gt_s, value_gt_u, value_i64_extend_32s, value_le_s, value_le_u, value_lt_s, value_lt_u, value_mul, value_not_equal, value_or, value_popcnt, value_rem_s, value_rem_u, value_rotl, value_rotr, value_shl, value_shr_s, value_shr_u, value_sub, value_xor, lemma_unsigned_i32, lemma_unsigned_i64, lemma_wrap_i32_congruent, Numeric, Value,
};
use crate::binary::instruction::{MemoryArg, Opcode};
use crate::endian::{le_value, lemma_le_value_bound, lemma_pow256_values, pow256};
use vstd::prelude::*;

verus! {

/// Whether a value is a float.
pub open spec fn is_float(v: Value) -> bool {
    v is F32 || v is F64
}

/// Whether two values are floats of one type.
pub open spec fn float_pair(l: Value, r: Value) -> bool {
    (l is F32 && r is F32) || (l is F64 && r is F64)
}

impl Value {
    /// Whether the value is a float.
    pub fn is_float(&self) -> (b: bool)
        ensures
            b == is_float(*self),
    {
        match self {
            Value::F32(_) | Value::F64(_) => true,
            _ => false,
        }
    }
}

pub(crate) fn is_float_pair(l: Value, r: Value) -> (b: bool)
    ensures
        b == float_pair(l, r),
{
    match (l, r) {
        (Value::F32(_), Value::F32(_)) | (Value::F64(_), Value::F64(_)) => true,
        _ => false,
    }
}

/// Whether an opcode is a numeric instruction of two operands.
pub open spec fn is_binary_op(op: Opcode) -> bool {
    match op {
        Opcode::I32Add => true,
        Opcode::I32Sub => true,
        Opcode::I32Mul => true,
        Opcode::I32Eq => true,
        Opcode::I32Ne => true,
        Opcode::I64Add => true,
        Opcode::I64Sub => true,
        Opcode::I64Mul => true,
        Opcode::I64Eq => true,
        Opcode::I64Ne => true,
        Opcode::F32Add => true,
        Opcode::F32Sub => true,
        Opcode::F32Mul => true,
        Opcode::F32Eq => true,
        Opcode::F32Ne => true,
        Opcode::F64Add => true,
        Opcode::F64Sub => true,
        Opcode::F64Mul => true,
        Opcode::F64Eq => true,
        Opcode::F64Ne => true,
        Opcode::I32DivS => true,
        Opcode::I32DivU => true,
        Opcode::I32RemS => true,
        Opcode::I32RemU => true,
        Opcode::I32And => true,
        Opcode::I32Or => true,
        Opcode::I32Xor => true,
        Opcode::I32ShL => true,
        Opcode::I32ShrS => true,
        Opcode::I32ShrU => true,
        Opcode::I32RtoL => true,
        Opcode::I32RtoR => true,
        Opcode::I32LtS => true,
        Opcode::I32LtU => true,
        Opcode::I32GtS => true,
        Opcode::I32GtU => true,
        Opcode::I32LeS => true,
        Opcode::I32LeU => true,
        Opcode::I32GeS => true,
        Opcode::I32GeU => true,
        Opcode::I64DivS => true,
        Opcode::I64DivU => true,
        Opcode::I64RemS => true,
        Opcode::I64RemU => true,
        Opcode::I64And => true,
        Opcode::I64Or => true,
        Opcode::I64Xor => true,
        Opcode::I64ShL => true,
        Opcode::I64ShrS => true,
        Opcode::I64ShrU => true,
        Opcode::I64RtoL => true,
        Opcode::I64RtoR => true,
        Opcode::I64LtS => true,
        Opcode::I64LtU => true,
        Opcode::I64GtS => true,
        Opcode::I64GtU => true,
        Opcode::I64LeS => true,
        Opcode::I64LeU => true,
        Opcode::I64GeS => true,
        Opcode::I64GeU => true,
        Opcode::F32Div => true,
        Opcode::F32Min => true,
        Opcode::F32Max => true,
        Opcode::F32Copysign => true,
        Opcode::F32Lt => true,
        Opcode::F32Gt => true,
        Opcode::F32Le => true,
        Opcode::F32Ge => true,
        Opcode::F64Div => true,
        Opcode::F64Min => true,
        Opcode::F64Max => true,
        Opcode::F64Copysign => true,
        Opcode::F64Lt => true,
        Opcode::F64Gt => true,
        Opcode::F64Le => true,
        Opcode::F64Ge => true,
        _ => false,
    }
}
/// Whether an opcode is a numeric instruction of one operand.
pub open spec fn is_unary_op(op: Opcode) -> bool {
    match op {
        Opcode::I32Eqz => true,
        Opcode::I32Clz => true,
        Opcode::I32Ctz => true,
        Opcode::I32Popcnt => true,
        Opcode::I32Extend8S => true,
        Opcode::I32Extend16S => true,
        Opcode::I64Eqz => true,
        Opcode::I64Clz => true,
        Opcode::I64Ctz => true,
        Opcode::I64Popcnt => true,
        Opcode::I64Extend8S => true,
        Opcode::I64Extend16S => true,
        Opcode::I64Extend32S => true,
        Opcode::F32Abs => true,
        Opcode::F32Neg => true,
        Opcode::F32Ceil => true,
        Opcode::F32Floor => true,
        Opcode::F32Trunc => true,
        Opcode::F32Nearest => true,
        Opcode::F32Sqrt => true,
        Opcode::F64Abs => true,
        Opcode::F64Neg => true,
        Opcode::F64Ceil => true,
        Opcode::F64Floor => true,
        Opcode::F64Trunc => true,
        Opcode::F64Nearest => true,
        Opcode::F64Sqrt => true,
        Opcode::I32WrapI64 => true,
        Opcode::I64ExtendI32S => true,
        Opcode::I64ExtendI32U => true,
        Opcode::I32ReinterpretF32 => true,
        Opcode::I64ReinterpretF64 => true,
        Opcode::F32ReinterpretI32 => true,
        Opcode::F64ReinterpretI64 => true,
        Opcode::I32TruncF32S => true,
        Opcode::I32TruncF32U => true,
        Opcode::I32TruncF64S => true,
        Opcode::I32TruncF64U => true,
        Opcode::I64TruncF32S => true,
        Opcode::I64TruncF32U => true,
        Opcode::I64TruncF64S => true,
        Opcode::I64TruncF64U => true,
        Opcode::F32ConvertI32S => true,
        Opcode::F32ConvertI32U => true,
        Opcode::F32ConvertI64S => true,
        Opcode::F32ConvertI64U => true,
        Opcode::F32DemoteF64 => true,
        Opcode::F64ConvertI32S => true,
        Opcode::F64ConvertI32U => true,
        Opcode::F64ConvertI64S => true,
        Opcode::F64ConvertI64U => true,
        Opcode::F64PromoteF32 => true,
        _ => false,
    }
}
/// What a numeric instruction of two operands gives: `None` when the host
/// computes it, on floats; else its value or its error.
pub open spec fn binary_result(op: Opcode, l: Value, r: Value) -> Option<Result<Value, RuntimeError>> {
    match op {
        Opcode::I32Add => if float_pair(l, r) { None } else { Some(value_add(l, r)) },
        Opcode::I32Sub => if float_pair(l, r) { None } else { Some(value_sub(l, r)) },
        Opcode::I32Mul => if float_pair(l, r) { None } else { Some(value_mul(l, r)) },
        Opcode::I32Eq => if float_pair(l, r) { None } else { Some(value_equal(l, r)) },
        Opcode::I32Ne => if float_pair(l, r) { None } else { Some(value_not_equal(l, r)) },
        Opcode::I64Add => if float_pair(l, r) { None } else { Some(value_add(l, r)) },
        Opcode::I64Sub => if float_pair(l, r) { None } else { Some(value_sub(l, r)) },
        Opcode::I64Mul => if float_pair(l, r) { None } else { Some(value_mul(l, r)) },
        Opcode::I64Eq => if float_pair(l, r) { None } else { Some(value_equal(l, r)) },
        Opcode::I64Ne => if float_pair(l, r) { None } else { Some(value_not_equal(l, r)) },
        Opcode::F32Add => if float_pair(l, r) { None } else { Some(value_add(l, r)) },
        Opcode::F32Sub => if float_pair(l, r) { None } else { Some(value_sub(l, r)) },
        Opcode::F32Mul => if float_pair(l, r) { None } else { Some(value_mul(l, r)) },
        Opcode::F32Eq => if float_pair(l, r) { None } else { Some(value_equal(l, r)) },
        Opcode::F32Ne => if float_pair(l, r) { None } else { Some(value_not_equal(l, r)) },
        Opcode::F64Add => if float_pair(l, r) { None } else { Some(value_add(l, r)) },
        Opcode::F64Sub => if float_pair(l, r) { None } else { Some(value_sub(l, r)) },
        Opcode::F64Mul => if float_pair(l, r) { None } else { Some(value_mul(l, r)) },
        Opcode::F64Eq => if float_pair(l, r) { None } else { Some(value_equal(l, r)) },
        Opcode::F64Ne => if float_pair(l, r) { None } else { Some(value_not_equal(l, r)) },
        Opcode::I32DivS => Some(value_div_s(l, r)),
        Opcode::I32DivU => Some(value_div_u(l, r)),
        Opcode::I32RemS => Some(value_rem_s(l, r)),
        Opcode::I32RemU => Some(value_rem_u(l, r)),
        Opcode::I32And => Some(value_and(l, r)),
        Opcode::I32Or => Some(value_or(l, r)),
        Opcode::I32Xor => Some(value_xor(l, r)),
        Opcode::I32ShL => Some(value_shl(l, r)),
        Opcode::I32ShrS => Some(value_shr_s(l, r)),
        Opcode::I32ShrU => Some(value_shr_u(l, r)),
        Opcode::I32RtoL => Some(value_rotl(l, r)),
        Opcode::I32RtoR => Some(value_rotr(l, r)),
        Opcode::I32LtS => Some(value_lt_s(l, r)),
        Opcode::I32LtU => Some(value_lt_u(l, r)),
        Opcode::I32GtS => Some(value_gt_s(l, r)),
        Opcode::I32GtU => Some(value_gt_u(l, r)),
        Opcode::I32LeS => Some(value_le_s(l, r)),
        Opcode::I32LeU => Some(value_le_u(l, r)),
        Opcode::I32GeS => Some(value_ge_s(l, r)),
        Opcode::I32GeU => Some(value_ge_u(l, r)),
        Opcode::I64DivS => Some(value_div_s(l, r)),
        Opcode::I64DivU => Some(value_div_u(l, r)),
        Opcode::I64RemS => Some(value_rem_s(l, r)),
        Opcode::I64RemU => Some(value_rem_u(l, r)),
        Opcode::I64And => Some(value_and(l, r)),
        Opcode::I64Or => Some(value_or(l, r)),
        Opcode::I64Xor => Some(value_xor(l, r)),
        Opcode::I64ShL => Some(value_shl(l, r)),
        Opcode::I64ShrS => Some(value_shr_s(l, r)),
        Opcode::I64ShrU => Some(value_shr_u(l, r)),
        Opcode::I64RtoL => Some(value_rotl(l, r)),
        Opcode::I64RtoR => Some(value_rotr(l, r)),
        Opcode::I64LtS => Some(value_lt_s(l, r)),
        Opcode::I64LtU => Some(value_lt_u(l, r)),
        Opcode::I64GtS => Some(value_gt_s(l, r)),
        Opcode::I64GtU => Some(value_gt_u(l, r)),
        Opcode::I64LeS => Some(value_le_s(l, r)),
        Opcode::I64LeU => Some(value_le_u(l, r)),
        Opcode::I64GeS => Some(value_ge_s(l, r)),
        Opcode::I64GeU => Some(value_ge_u(l, r)),
        Opcode::F32Div => if float_pair(l, r) { None } else { Some(Err(RuntimeError::UnexpectedStackValueType)) },
        Opcode::F32Min => if float_pair(l, r) { None } else { Some(Err(RuntimeError::UnexpectedStackValueType)) },
        Opcode::F32Max => if float_pair(l, r) { None } else { Some(Err(RuntimeError::UnexpectedStackValueType)) },
        Opcode::F32Copysign => if float_pair(l, r) { None } else { Some(Err(RuntimeError::UnexpectedStackValueType)) },
        Opcode::F32Lt => if float_pair(l, r) { None } else { Some(Err(RuntimeError::UnexpectedStackValueType)) },
        Opcode::F32Gt => if float_pair(l, r) { None } else { Some(Err(RuntimeError::UnexpectedStackValueType)) },
        Opcode::F32Le => if float_pair(l, r) { None } else { Some(Err(RuntimeError::UnexpectedStackValueType)) },
        Opcode::F32Ge => if float_pair(l, r) { None } else { Some(Err(RuntimeError::UnexpectedStackValueType)) },
        Opcode::F64Div => if float_pair(l, r) { None } else { Some(Err(RuntimeError::UnexpectedStackValueType)) },
        Opcode::F64Min => if float_pair(l, r) { None } else { Some(Err(RuntimeError::UnexpectedStackValueType)) },
        Opcode::F64Max => if float_pair(l, r) { None } else { Some(Err(RuntimeError::UnexpectedStackValueType)) },
        Opcode::F64Copysign => if float_pair(l, r) { None } else { Some(Err(RuntimeError::UnexpectedStackValueType)) },
        Opcode::F64Lt => if float_pair(l, r) { None } else { Some(Err(RuntimeError::UnexpectedStackValueType)) },
        Opcode::F64Gt => if float_pair(l, r) { None } else { Some(Err(RuntimeError::UnexpectedStackValueType)) },
        Opcode::F64Le => if float_pair(l, r) { None } else { Some(Err(RuntimeError::UnexpectedStackValueType)) },
        Opcode::F64Ge => if float_pair(l, r) { None } else { Some(Err(RuntimeError::UnexpectedStackValueType)) },
        _ => Some(Err(RuntimeError::UnexpectedStackValueType)),
    }
}

/// What a numeric instruction of one operand gives: `None` when the host
/// computes it, on floats; else its value or its error.
pub open spec fn unary_result(op: Opcode, v: Value) -> Option<Result<Value, RuntimeError>> {
    match op {
        Opcode::I32Eqz => Some(value_eqz(v)),
        Opcode::I32Clz => Some(value_clz(v)),
        Opcode::I32Ctz => Some(value_ctz(v)),
        Opcode::I32Popcnt => Some(value_popcnt(v)),
        Opcode::I32Extend8S => Some(value_extend8_s(v)),
        Opcode::I32Extend16S => Some(value_extend16_s(v)),
        Opcode::I64Eqz => Some(value_eqz(v)),
        Opcode::I64Clz => Some(value_clz(v)),
        Opcode::I64Ctz => Some(value_ctz(v)),
        Opcode::I64Popcnt => Some(value_popcnt(v)),
        Opcode::I64Extend8S => Some(value_extend8_s(v)),
        Opcode::I64Extend16S => Some(value_extend16_s(v)),
        Opcode::I64Extend32S => Some(value_i64_extend_32s(v)),
        Opcode::F32Abs => if is_float(v) { None } else { Some(Err(RuntimeError::UnexpectedStackValueType)) },
        Opcode::F32Neg => if is_float(v) { None } else { Some(Err(RuntimeError::UnexpectedStackValueType)) },
        Opcode::F32Ceil => if is_float(v) { None } else { Some(Err(RuntimeError::UnexpectedStackValueType)) },
        Opcode::F32Floor => if is_float(v) { None } else { Some(Err(RuntimeError::UnexpectedStackValueType)) },
        Opcode::F32Trunc => if is_float(v) { None } else { Some(Err(RuntimeError::UnexpectedStackValueType)) },
        Opcode::F32Nearest => if is_float(v) { None } else { Some(Err(RuntimeError::UnexpectedStackValueType)) },
        Opcode::F32Sqrt => if is_float(v) { None } else { Some(Err(RuntimeError::UnexpectedStackValueType)) },
        Opcode::F64Abs => if is_float(v) { None } else { Some(Err(RuntimeError::UnexpectedStackValueType)) },
        Opcode::F64Neg => if is_float(v) { None } else { Some(Err(RuntimeError::UnexpectedStackValueType)) },
        Opcode::F64Ceil => if is_float(v) { None } else { Some(Err(RuntimeError::UnexpectedStackValueType)) },
        Opcode::F64Floor => if is_float(v) { None } else { Some(Err(RuntimeError::UnexpectedStackValueType)) },
        Opcode::F64Trunc => if is_float(v) { None } else { Some(Err(RuntimeError::UnexpectedStackValueType)) },
        Opcode::F64Nearest => if is_float(v) { None } else { Some(Err(RuntimeError::UnexpectedStackValueType)) },
        Opcode::F64Sqrt => if is_float(v) { None } else { Some(Err(RuntimeError::UnexpectedStackValueType)) },
        Opcode::I32WrapI64 => match v {
            Value::I64(x) => Some(Ok(Value::I32(wrap_i32(x as int)))),
            _ => Some(Err(RuntimeError::UnexpectedStackValueType)),
        },
        Opcode::I64ExtendI32S => match v {
            Value::I32(x) => Some(Ok(Value::I64(x as i64))),
            _ => Some(Err(RuntimeError::UnexpectedStackValueType)),
        },
        Opcode::I64ExtendI32U => match v {
            Value::I32(x) => Some(Ok(Value::I64(unsigned_i32(x) as i64))),
            _ => Some(Err(RuntimeError::UnexpectedStackValueType)),
        },
        Opcode::I32ReinterpretF32 => match v {
            Value::F32(x) => Some(Ok(Value::I32(signed_i32(x)))),
            _ => Some(Err(RuntimeError::UnexpectedStackValueType)),
        },
        Opcode::I64ReinterpretF64 => match v {
            Value::F64(x) => Some(Ok(Value::I64(signed_i64(x)))),
            _ => Some(Err(RuntimeError::UnexpectedStackValueType)),
        },
        Opcode::F32ReinterpretI32 => match v {
            Value::I32(x) => Some(Ok(Value::F32(unsigned_i32(x)))),
            _ => Some(Err(RuntimeError::UnexpectedStackValueType)),
        },
        Opcode::F64ReinterpretI64 => match v {
            Value::I64(x) => Some(Ok(Value::F64(unsigned_i64(x)))),
            _ => Some(Err(RuntimeError::UnexpectedStackValueType)),
        },
        Opcode::I32TruncF32S => if v is F32 { None } else { Some(Err(RuntimeError::UnexpectedStackValueType)) },
        Opcode::I32TruncF32U => if v is F32 { None } else { Some(Err(RuntimeError::UnexpectedStackValueType)) },
        Opcode::I32TruncF64S => if v is F64 { None } else { Some(Err(RuntimeError::UnexpectedStackValueType)) },
        Opcode::I32TruncF64U => if v is F64 { None } else { Some(Err(RuntimeError::UnexpectedStackValueType)) },
        Opcode::I64TruncF32S => if v is F32 { None } else { Some(Err(RuntimeError::UnexpectedStackValueType)) },
        Opcode::I64TruncF32U => if v is F32 { None } else { Some(Err(RuntimeError::UnexpectedStackValueType)) },
        Opcode::I64TruncF64S => if v is F64 { None } else { Some(Err(RuntimeError::UnexpectedStackValueType)) },
        Opcode::I64TruncF64U => if v is F64 { None } else { Some(Err(RuntimeError::UnexpectedStackValueType)) },
        Opcode::F32ConvertI32S => if v is I32 { None } else { Some(Err(RuntimeError::UnexpectedStackValueType)) },
        Opcode::F32ConvertI32U => if v is I32 { None } else { Some(Err(RuntimeError::UnexpectedStackValueType)) },
        Opcode::F32ConvertI64S => if v is I64 { None } else { Some(Err(RuntimeError::UnexpectedStackValueType)) },
        Opcode::F32ConvertI64U => if v is I64 { None } else { Some(Err(RuntimeError::UnexpectedStackValueType)) },
        Opcode::F32DemoteF64 => if v is F64 { None } else { Some(Err(RuntimeError::UnexpectedStackValueType)) },
        Opcode::F64ConvertI32S => if v is I32 { None } else { Some(Err(RuntimeError::UnexpectedStackValueType)) },
        Opcode::F64ConvertI32U => if v is I32 { None } else { Some(Err(RuntimeError::UnexpectedStackValueType)) },
        Opcode::F64ConvertI64S => if v is I64 { None } else { Some(Err(RuntimeError::UnexpectedStackValueType)) },
        Opcode::F64ConvertI64U => if v is I64 { None } else { Some(Err(RuntimeError::UnexpectedStackValueType)) },
        Opcode::F64PromoteF32 => if v is F32 { None } else { Some(Err(RuntimeError::UnexpectedStackValueType)) },
        _ => Some(Err(RuntimeError::UnexpectedStackValueType)),
    }
}

#[verifier::spinoff_prover]
pub(crate) fn exec_is_binary_op(op: Opcode) -> (b: bool)
    ensures
        b == is_binary_op(op),
{
    match op {
        Opcode::I32Add => true,
        Opcode::I32Sub => true,
        Opcode::I32Mul => true,
        Opcode::I32Eq => true,
        Opcode::I32Ne => true,
        Opcode::I64Add => true,
        Opcode::I64Sub => true,
        Opcode::I64Mul => true,
        Opcode::I64Eq => true,
        Opcode::I64Ne => true,
        Opcode::F32Add => true,
        Opcode::F32Sub => true,
        Opcode::F32Mul => true,
        Opcode::F32Eq => true,
        Opcode::F32Ne => true,
        Opcode::F64Add => true,
        Opcode::F64Sub => true,
        Opcode::F64Mul => true,
        Opcode::F64Eq => true,
        Opcode::F64Ne => true,
        Opcode::I32DivS => true,
        Opcode::I32DivU => true,
        Opcode::I32RemS => true,
        Opcode::I32RemU => true,
        Opcode::I32And => true,
        Opcode::I32Or => true,
        Opcode::I32Xor => true,
        Opcode::I32ShL => true,
        Opcode::I32ShrS => true,
        Opcode::I32ShrU => true,
        Opcode::I32RtoL => true,
        Opcode::I32RtoR => true,
        Opcode::I32LtS => true,
        Opcode::I32LtU => true,
        Opcode::I32GtS => true,
        Opcode::I32GtU => true,
        Opcode::I32LeS => true,
        Opcode::I32LeU => true,
        Opcode::I32GeS => true,
        Opcode::I32GeU => true,
        Opcode::I64DivS => true,
        Opcode::I64DivU => true,
        Opcode::I64RemS => true,
        Opcode::I64RemU => true,
        Opcode::I64And => true,
        Opcode::I64Or => true,
        Opcode::I64Xor => true,
        Opcode::I64ShL => true,
        Opcode::I64ShrS => true,
        Opcode::I64ShrU => true,
        Opcode::I64RtoL => true,
        Opcode::I64RtoR => true,
        Opcode::I64LtS => true,
        Opcode::I64LtU => true,
        Opcode::I64GtS => true,
        Opcode::I64GtU => true,
        Opcode::I64LeS => true,
        Opcode::I64LeU => true,
        Opcode::I64GeS => true,
        Opcode::I64GeU => true,
        Opcode::F32Div => true,
        Opcode::F32Min => true,
        Opcode::F32Max => true,
        Opcode::F32Copysign => true,
        Opcode::F32Lt => true,
        Opcode::F32Gt => true,
        Opcode::F32Le => true,
        Opcode::F32Ge => true,
        Opcode::F64Div => true,
        Opcode::F64Min => true,
        Opcode::F64Max => true,
        Opcode::F64Copysign => true,
        Opcode::F64Lt => true,
        Opcode::F64Gt => true,
        Opcode::F64Le => true,
        Opcode::F64Ge => true,
        _ => false,
    }
}
#[verifier::spinoff_prover]
pub(crate) fn exec_is_unary_op(op: Opcode) -> (b: bool)
    ensures
        b == is_unary_op(op),
{
    match op {
        Opcode::I32Eqz => true,
        Opcode::I32Clz => true,
        Opcode::I32Ctz => true,
        Opcode::I32Popcnt => true,
        Opcode::I32Extend8S => true,
        Opcode::I32Extend16S => true,
        Opcode::I64Eqz => true,
        Opcode::I64Clz => true,
        Opcode::I64Ctz => true,
        Opcode::I64Popcnt => true,
        Opcode::I64Extend8S => true,
        Opcode::I64Extend16S => true,
        Opcode::I64Extend32S => true,
        Opcode::F32Abs => true,
        Opcode::F32Neg => true,
        Opcode::F32Ceil => true,
        Opcode::F32Floor => true,
        Opcode::F32Trunc => true,
        Opcode::F32Nearest => true,
        Opcode::F32Sqrt => true,
        Opcode::F64Abs => true,
        Opcode::F64Neg => true,
        Opcode::F64Ceil => true,
        Opcode::F64Floor => true,
        Opcode::F64Trunc => true,
        Opcode::F64Nearest => true,
        Opcode::F64Sqrt => true,
        Opcode::I32WrapI64 => true,
        Opcode::I64ExtendI32S => true,
        Opcode::I64ExtendI32U => true,
        Opcode::I32ReinterpretF32 => true,
        Opcode::I64ReinterpretF64 => true,
        Opcode::F32ReinterpretI32 => true,
        Opcode::F64ReinterpretI64 => true,
        Opcode::I32TruncF32S => true,
        Opcode::I32TruncF32U => true,
        Opcode::I32TruncF64S => true,
        Opcode::I32TruncF64U => true,
        Opcode::I64TruncF32S => true,
        Opcode::I64TruncF32U => true,
        Opcode::I64TruncF64S => true,
        Opcode::I64TruncF64U => true,
        Opcode::F32ConvertI32S => true,
        Opcode::F32ConvertI32U => true,
        Opcode::F32ConvertI64S => true,
        Opcode::F32ConvertI64U => true,
        Opcode::F32DemoteF64 => true,
        Opcode::F64ConvertI32S => true,
        Opcode::F64ConvertI32U => true,
        Opcode::F64ConvertI64S => true,
        Opcode::F64ConvertI64U => true,
        Opcode::F64PromoteF32 => true,
        _ => false,
    }
}
#[verifier::spinoff_prover]
#[verifier::rlimit(50)]
pub(crate) fn exec_binary_result(op: Opcode, l: Value, r: Value) -> (res: Option<Result<Value, RuntimeError>>)
    ensures
        res == binary_result(op, l, r),
{
    match op {
        Opcode::I32Add => if is_float_pair(l, r) { None } else { Some(l.add(&r)) },
        Opcode::I32Sub => if is_float_pair(l, r) { None } else { Some(l.sub(&r)) },
        Opcode::I32Mul => if is_float_pair(l, r) { None } else { Some(l.mul(&r)) },
        Opcode::I32Eq => if is_float_pair(l, r) { None } else { Some(l.equal(&r)) },
        Opcode::I32Ne => if is_float_pair(l, r) { None } else { Some(l.not_equal(&r)) },
        Opcode::I64Add => if is_float_pair(l, r) { None } else { Some(l.add(&r)) },
        Opcode::I64Sub => if is_float_pair(l, r) { None } else { Some(l.sub(&r)) },
        Opcode::I64Mul => if is_float_pair(l, r) { None } else { Some(l.mul(&r)) },
        Opcode::I64Eq => if is_float_pair(l, r) { None } else { Some(l.equal(&r)) },
        Opcode::I64Ne => if is_float_pair(l, r) { None } else { Some(l.not_equal(&r)) },
        Opcode::F32Add => if is_float_pair(l, r) { None } else { Some(l.add(&r)) },
        Opcode::F32Sub => if is_float_pair(l, r) { None } else { Some(l.sub(&r)) },
        Opcode::F32Mul => if is_float_pair(l, r) { None } else { Some(l.mul(&r)) },
        Opcode::F32Eq => if is_float_pair(l, r) { None } else { Some(l.equal(&r)) },
        Opcode::F32Ne => if is_float_pair(l, r) { None } else { Some(l.not_equal(&r)) },
        Opcode::F64Add => if is_float_pair(l, r) { None } else { Some(l.add(&r)) },
        Opcode::F64Sub => if is_float_pair(l, r) { None } else { Some(l.sub(&r)) },
        Opcode::F64Mul => if is_float_pair(l, r) { None } else { Some(l.mul(&r)) },
        Opcode::F64Eq => if is_float_pair(l, r) { None } else { Some(l.equal(&r)) },
        Opcode::F64Ne => if is_float_pair(l, r) { None } else { Some(l.not_equal(&r)) },
        Opcode::I32DivS => Some(l.div_s(&r)),
        Opcode::I32DivU => Some(l.div_u(&r)),
        Opcode::I32RemS => Some(l.rem_s(&r)),
        Opcode::I32RemU => Some(l.rem_u(&r)),
        Opcode::I32And => Some(l.and(&r)),
        Opcode::I32Or => Some(l.or(&r)),
        Opcode::I32Xor => Some(l.xor(&r)),
        Opcode::I32ShL => Some(l.shl(&r)),
        Opcode::I32ShrS => Some(l.shr_s(&r)),
        Opcode::I32ShrU => Some(l.shr_u(&r)),
        Opcode::I32RtoL => Some(l.rotl(&r)),
        Opcode::I32RtoR => Some(l.rotr(&r)),
        Opcode::I32LtS => Some(l.lt_s(&r)),
        Opcode::I32LtU => Some(l.lt_u(&r)),
        Opcode::I32GtS => Some(l.gt_s(&r)),
        Opcode::I32GtU => Some(l.gt_u(&r)),
        Opcode::I32LeS => Some(l.le_s(&r)),
        Opcode::I32LeU => Some(l.le_u(&r)),
        Opcode::I32GeS => Some(l.ge_s(&r)),
        Opcode::I32GeU => Some(l.ge_u(&r)),
        Opcode::I64DivS => Some(l.div_s(&r)),
        Opcode::I64DivU => Some(l.div_u(&r)),
        Opcode::I64RemS => Some(l.rem_s(&r)),
        Opcode::I64RemU => Some(l.rem_u(&r)),
        Opcode::I64And => Some(l.and(&r)),
        Opcode::I64Or => Some(l.or(&r)),
        Opcode::I64Xor => Some(l.xor(&r)),
        Opcode::I64ShL => Some(l.shl(&r)),
        Opcode::I64ShrS => Some(l.shr_s(&r)),
        Opcode::I64ShrU => Some(l.shr_u(&r)),
        Opcode::I64RtoL => Some(l.rotl(&r)),
        Opcode::I64RtoR => Some(l.rotr(&r)),
        Opcode::I64LtS => Some(l.lt_s(&r)),
        Opcode::I64LtU => Some(l.lt_u(&r)),
        Opcode::I64GtS => Some(l.gt_s(&r)),
        Opcode::I64GtU => Some(l.gt_u(&r)),
        Opcode::I64LeS => Some(l.le_s(&r)),
        Opcode::I64LeU => Some(l.le_u(&r)),
        Opcode::I64GeS => Some(l.ge_s(&r)),
        Opcode::I64GeU => Some(l.ge_u(&r)),
        Opcode::F32Div => if is_float_pair(l, r) { None } else { Some(Err(RuntimeError::UnexpectedStackValueType)) },
        Opcode::F32Min => if is_float_pair(l, r) { None } else { Some(Err(RuntimeError::UnexpectedStackValueType)) },
        Opcode::F32Max => if is_float_pair(l, r) { None } else { Some(Err(RuntimeError::UnexpectedStackValueType)) },
        Opcode::F32Copysign => if is_float_pair(l, r) { None } else { Some(Err(RuntimeError::UnexpectedStackValueType)) },
        Opcode::F32Lt => if is_float_pair(l, r) { None } else { Some(Err(RuntimeError::UnexpectedStackValueType)) },
        Opcode::F32Gt => if is_float_pair(l, r) { None } else { Some(Err(RuntimeError::UnexpectedStackValueType)) },
        Opcode::F32Le => if is_float_pair(l, r) { None } else { Some(Err(RuntimeError::UnexpectedStackValueType)) },
        Opcode::F32Ge => if is_float_pair(l, r) { None } else { Some(Err(RuntimeError::UnexpectedStackValueType)) },
        Opcode::F64Div => if is_float_pair(l, r) { None } else { Some(Err(RuntimeError::UnexpectedStackValueType)) },
        Opcode::F64Min => if is_float_pair(l, r) { None } else { Some(Err(RuntimeError::UnexpectedStackValueType)) },
        Opcode::F64Max => if is_float_pair(l, r) { None } else { Some(Err(RuntimeError::UnexpectedStackValueType)) },
        Opcode::F64Copysign => if is_float_pair(l, r) { None } else { Some(Err(RuntimeError::UnexpectedStackValueType)) },
        Opcode::F64Lt => if is_float_pair(l, r) { None } else { Some(Err(RuntimeError::UnexpectedStackValueType)) },
        Opcode::F64Gt => if is_float_pair(l, r) { None } else { Some(Err(RuntimeError::UnexpectedStackValueType)) },
        Opcode::F64Le => if is_float_pair(l, r) { None } else { Some(Err(RuntimeError::UnexpectedStackValueType)) },
        Opcode::F64Ge => if is_float_pair(l, r) { None } else { Some(Err(RuntimeError::UnexpectedStackValueType)) },
        _ => Some(Err(RuntimeError::UnexpectedStackValueType)),
    }
}

#[verifier::spinoff_prover]
#[verifier::rlimit(50)]
pub(crate) fn exec_unary_result(op: Opcode, v: Value) -> (res: Option<Result<Value, RuntimeError>>)
    ensures
        res == unary_result(op, v),
{
    match op {
        Opcode::I32Eqz => Some(v.eqz()),
        Opcode::I32Clz => Some(v.clz()),
        Opcode::I32Ctz => Some(v.ctz()),
        Opcode::I32Popcnt => Some(v.popcnt()),
        Opcode::I32Extend8S => Some(v.extend8_s()),
        Opcode::I32Extend16S => Some(v.extend16_s()),
        Opcode::I64Eqz => Some(v.eqz()),
        Opcode::I64Clz => Some(v.clz()),
        Opcode::I64Ctz => Some(v.ctz()),
        Opcode::I64Popcnt => Some(v.popcnt()),
        Opcode::I64Extend8S => Some(v.extend8_s()),
        Opcode::I64Extend16S => Some(v.extend16_s()),
        Opcode::I64Extend32S => Some(v.i64_extend_32s()),
        Opcode::F32Abs => if v.is_float() { None } else { Some(Err(RuntimeError::UnexpectedStackValueType)) },
        Opcode::F32Neg => if v.is_float() { None } else { Some(Err(RuntimeError::UnexpectedStackValueType)) },
        Opcode::F32Ceil => if v.is_float() { None } else { Some(Err(RuntimeError::UnexpectedStackValueType)) },
        Opcode::F32Floor => if v.is_float() { None } else { Some(Err(RuntimeError::UnexpectedStackValueType)) },
        Opcode::F32Trunc => if v.is_float() { None } else { Some(Err(RuntimeError::UnexpectedStackValueType)) },
        Opcode::F32Nearest => if v.is_float() { None } else { Some(Err(RuntimeError::UnexpectedStackValueType)) },
        Opcode::F32Sqrt => if v.is_float() { None } else { Some(Err(RuntimeError::UnexpectedStackValueType)) },
        Opcode::F64Abs => if v.is_float() { None } else { Some(Err(RuntimeError::UnexpectedStackValueType)) },
        Opcode::F64Neg => if v.is_float() { None } else { Some(Err(RuntimeError::UnexpectedStackValueType)) },
        Opcode::F64Ceil => if v.is_float() { None } else { Some(Err(RuntimeError::UnexpectedStackValueType)) },
        Opcode::F64Floor => if v.is_float() { None } else { Some(Err(RuntimeError::UnexpectedStackValueType)) },
        Opcode::F64Trunc => if v.is_float() { None } else { Some(Err(RuntimeError::UnexpectedStackValueType)) },
        Opcode::F64Nearest => if v.is_float() { None } else { Some(Err(RuntimeError::UnexpectedStackValueType)) },
        Opcode::F64Sqrt => if v.is_float() { None } else { Some(Err(RuntimeError::UnexpectedStackValueType)) },
        Opcode::I32WrapI64 => match v {
            Value::I64(_) => Some(v.i32_wrap_i64()),
            _ => Some(Err(RuntimeError::UnexpectedStackValueType)),
        },
        Opcode::I64ExtendI32S => match v {
            Value::I32(_) => Some(v.i64_extend_i32_s()),
            _ => Some(Err(RuntimeError::UnexpectedStackValueType)),
        },
        Opcode::I64ExtendI32U => match v {
            Value::I32(_) => Some(v.i64_extend_i32_u()),
            _ => Some(Err(RuntimeError::UnexpectedStackValueType)),
        },
        Opcode::I32ReinterpretF32 => match v {
            Value::F32(_) => Some(v.i32_reinterpret_f32()),
            _ => Some(Err(RuntimeError::UnexpectedStackValueType)),
        },
        Opcode::I64ReinterpretF64 => match v {
            Value::F64(_) => Some(v.i64_reinterpret_f64()),
            _ => Some(Err(RuntimeError::UnexpectedStackValueType)),
        },
        Opcode::F32ReinterpretI32 => match v {
            Value::I32(_) => Some(v.f32_reinterpret_i32()),
            _ => Some(Err(RuntimeError::UnexpectedStackValueType)),
        },
        Opcode::F64ReinterpretI64 => match v {
            Value::I64(_) => Some(v.f64_reinterpret_i64()),
            _ => Some(Err(RuntimeError::UnexpectedStackValueType)),
        },
        Opcode::I32TruncF32S => match v {
            Value::F32(_) => None,
            _ => Some(Err(RuntimeError::UnexpectedStackValueType)),
        },
        Opcode::I32TruncF32U => match v {
            Value::F32(_) => None,
            _ => Some(Err(RuntimeError::UnexpectedStackValueType)),
        },
        Opcode::I32TruncF64S => match v {
            Value::F64(_) => None,
            _ => Some(Err(RuntimeError::UnexpectedStackValueType)),
        },
        Opcode::I32TruncF64U => match v {
            Value::F64(_) => None,
            _ => Some(Err(RuntimeError::UnexpectedStackValueType)),
        },
        Opcode::I64TruncF32S => match v {
            Value::F32(_) => None,
            _ => Some(Err(RuntimeError::UnexpectedStackValueType)),
        },
        Opcode::I64TruncF32U => match v {
            Value::F32(_) => None,
            _ => Some(Err(RuntimeError::UnexpectedStackValueType)),
        },
        Opcode::I64TruncF64S => match v {
            Value::F64(_) => None,
            _ => Some(Err(RuntimeError::UnexpectedStackValueType)),
        },
        Opcode::I64TruncF64U => match v {
            Value::F64(_) => None,
            _ => Some(Err(RuntimeError::UnexpectedStackValueType)),
        },
        Opcode::F32ConvertI32S => match v {
            Value::I32(_) => None,
            _ => Some(Err(RuntimeError::UnexpectedStackValueType)),
        },
        Opcode::F32ConvertI32U => match v {
            Value::I32(_) => None,
            _ => Some(Err(RuntimeError::UnexpectedStackValueType)),
        },
        Opcode::F32ConvertI64S => match v {
            Value::I64(_) => None,
            _ => Some(Err(RuntimeError::UnexpectedStackValueType)),
        },
        Opcode::F32ConvertI64U => match v {
            Value::I64(_) => None,
            _ => Some(Err(RuntimeError::UnexpectedStackValueType)),
        },
        Opcode::F32DemoteF64 => match v {
            Value::F64(_) => None,
            _ => Some(Err(RuntimeError::UnexpectedStackValueType)),
        },
        Opcode::F64ConvertI32S => match v {
            Value::I32(_) => None,
            _ => Some(Err(RuntimeError::UnexpectedStackValueType)),
        },
        Opcode::F64ConvertI32U => match v {
            Value::I32(_) => None,
            _ => Some(Err(RuntimeError::UnexpectedStackValueType)),
        },
        Opcode::F64ConvertI64S => match v {
            Value::I64(_) => None,
            _ => Some(Err(RuntimeError::UnexpectedStackValueType)),
        },
        Opcode::F64ConvertI64U => match v {
            Value::I64(_) => None,
            _ => Some(Err(RuntimeError::UnexpectedStackValueType)),
        },
        Opcode::F64PromoteF32 => match v {
            Value::F32(_) => None,
            _ => Some(Err(RuntimeError::UnexpectedStackValueType)),
        },
        _ => Some(Err(RuntimeError::UnexpectedStackValueType)),
    }
}

/// Whether an opcode loads from memory.
pub open spec fn is_load_op(op: Opcode) -> bool {
    match op {
        Opcode::I32Load => true,
        Opcode::I64Load => true,
        Opcode::F32Load => true,
        Opcode::F64Load => true,
        Opcode::I32Load8S => true,
        Opcode::I32Load8U => true,
        Opcode::I32Load16S => true,
        Opcode::I32Load16U => true,
        Opcode::I64Load8S => true,
        Opcode::I64Load8U => true,
        Opcode::I64Load16S => true,
        Opcode::I64Load16U => true,
        Opcode::I64Load32S => true,
        Opcode::I64Load32U => true,
        _ => false,
    }
}
/// Whether an opcode stores to memory.
pub open spec fn is_store_op(op: Opcode) -> bool {
    match op {
        Opcode::I32Store => true,
        Opcode::I64Store => true,
        Opcode::F32Store => true,
        Opcode::F64Store => true,
        Opcode::I32Store8 => true,
        Opcode::I32Store16 => true,
        Opcode::I64Store8 => true,
        Opcode::I64Store16 => true,
        Opcode::I64Store32 => true,
        _ => false,
    }
}
/// What a load reads from the bytes of a memory.
pub open spec fn load_value(op: Opcode, data: Seq<u8>, addr: usize, arg: MemoryArg) -> Result<Value, RuntimeError> {
    match op {
        Opcode::I32Load => match spec_load::<i32>(data, addr, arg) {
            Ok(x) => Ok(Value::I32(x)),
            Err(e) => Err(e),
        },
        Opcode::I64Load => match spec_load::<i64>(data, addr, arg) {
            Ok(x) => Ok(Value::I64(x)),
            Err(e) => Err(e),
        },
        Opcode::F32Load => match spec_load::<u32>(data, addr, arg) {
            Ok(x) => Ok(Value::F32(x)),
            Err(e) => Err(e),
        },
        Opcode::F64Load => match spec_load::<u64>(data, addr, arg) {
            Ok(x) => Ok(Value::F64(x)),
            Err(e) => Err(e),
        },
        Opcode::I32Load8S => match spec_load::<i8>(data, addr, arg) {
            Ok(x) => Ok(Value::I32(x as i32)),
            Err(e) => Err(e),
        },
        Opcode::I32Load8U => match spec_load::<u8>(data, addr, arg) {
            Ok(x) => Ok(Value::I32(x as i32)),
            Err(e) => Err(e),
        },
        Opcode::I32Load16S => match spec_load::<i16>(data, addr, arg) {
            Ok(x) => Ok(Value::I32(x as i32)),
            Err(e) => Err(e),
        },
        Opcode::I32Load16U => match spec_load::<u16>(data, addr, arg) {
            Ok(x) => Ok(Value::I32(x as i32)),
            Err(e) => Err(e),
        },
        Opcode::I64Load8S => match spec_load::<i8>(data, addr, arg) {
            Ok(x) => Ok(Value::I64(x as i64)),
            Err(e) => Err(e),
        },
        Opcode::I64Load8U => match spec_load::<u8>(data, addr, arg) {
            Ok(x) => Ok(Value::I64(x as i64)),
            Err(e) => Err(e),
        },
        Opcode::I64Load16S => match spec_load::<i16>(data, addr, arg) {
            Ok(x) => Ok(Value::I64(x as i64)),
            Err(e) => Err(e),
        },
        Opcode::I64Load16U => match spec_load::<u16>(data, addr, arg) {
            Ok(x) => Ok(Value::I64(x as i64)),
            Err(e) => Err(e),
        },
        Opcode::I64Load32S => match spec_load::<i32>(data, addr, arg) {
            Ok(x) => Ok(Value::I64(x as i64)),
            Err(e) => Err(e),
        },
        Opcode::I64Load32U => match spec_load::<u32>(data, addr, arg) {
            Ok(x) => Ok(Value::I64(x as i64)),
            Err(e) => Err(e),
        },
        _ => Err(RuntimeError::UnexpectedStackValueType),
    }
}

/// Whether a value is of the type that a store takes.
pub open spec fn store_operand_ok(op: Opcode, v: Value) -> bool {
    match op {
        Opcode::I32Store => v is I32,
        Opcode::I64Store => v is I64,
        Opcode::F32Store => v is F32,
        Opcode::F64Store => v is F64,
        Opcode::I32Store8 => v is I32,
        Opcode::I32Store16 => v is I32,
        Opcode::I64Store8 => v is I64,
        Opcode::I64Store16 => v is I64,
        Opcode::I64Store32 => v is I64,
        _ => false,
    }
}

/// What a store makes of the bytes of a memory.
pub open spec fn store_result(op: Opcode, data: Seq<u8>, addr: usize, arg: MemoryArg, v: Value) -> Result<Seq<u8>, RuntimeError> {
    match (op, v) {
        (Opcode::I32Store, Value::I32(x)) => spec_store::<i32>(data, addr, arg, x),
        (Opcode::I64Store, Value::I64(x)) => spec_store::<i64>(data, addr, arg, x),
        (Opcode::F32Store, Value::F32(x)) => spec_store::<u32>(data, addr, arg, x),
        (Opcode::F64Store, Value::F64(x)) => spec_store::<u64>(data, addr, arg, x),
        (Opcode::I32Store8, Value::I32(x)) => spec_store::<i8>(data, addr, arg, x as i8),
        (Opcode::I32Store16, Value::I32(x)) => spec_store::<i16>(data, addr, arg, x as i16),
        (Opcode::I64Store8, Value::I64(x)) => spec_store::<i8>(data, addr, arg, x as i8),
        (Opcode::I64Store16, Value::I64(x)) => spec_store::<i16>(data, addr, arg, x as i16),
        (Opcode::I64Store32, Value::I64(x)) => spec_store::<i32>(data, addr, arg, x as i32),
        _ => Err(RuntimeError::UnexpectedStackValueType),
    }
}

pub(crate) fn exec_is_load_op(op: Opcode) -> (b: bool)
    ensures
        b == is_load_op(op),
{
    match op {
        Opcode::I32Load => true,
        Opcode::I64Load => true,
        Opcode::F32Load => true,
        Opcode::F64Load => true,
        Opcode::I32Load8S => true,
        Opcode::I32Load8U => true,
        Opcode::I32Load16S => true,
        Opcode::I32Load16U => true,
        Opcode::I64Load8S => true,
        Opcode::I64Load8U => true,
        Opcode::I64Load16S => true,
        Opcode::I64Load16U => true,
        Opcode::I64Load32S => true,
        Opcode::I64Load32U => true,
        _ => false,
    }
}
pub(crate) fn exec_is_store_op(op: Opcode) -> (b: bool)
    ensures
        b == is_store_op(op),
{
    match op {
        Opcode::I32Store => true,
        Opcode::I64Store => true,
        Opcode::F32Store => true,
        Opcode::F64Store => true,
        Opcode::I32Store8 => true,
        Opcode::I32Store16 => true,
        Opcode::I64Store8 => true,
        Opcode::I64Store16 => true,
        Opcode::I64Store32 => true,
        _ => false,
    }
}
pub(crate) fn exec_store_operand_ok(op: Opcode, v: Value) -> (b: bool)
    ensures
        b == store_operand_ok(op, v),
{
    match op {
        Opcode::I32Store => match v {
            Value::I32(_) => true,
            _ => false,
        },
        Opcode::I64Store => match v {
            Value::I64(_) => true,
            _ => false,
        },
        Opcode::F32Store => match v {
            Value::F32(_) => true,
            _ => false,
        },
        Opcode::F64Store => match v {
            Value::F64(_) => true,
            _ => false,
        },
        Opcode::I32Store8 => match v {
            Value::I32(_) => true,
            _ => false,
        },
        Opcode::I32Store16 => match v {
            Value::I32(_) => true,
            _ => false,
        },
        Opcode::I64Store8 => match v {
            Value::I64(_) => true,
            _ => false,
        },
        Opcode::I64Store16 => match v {
            Value::I64(_) => true,
            _ => false,
        },
        Opcode::I64Store32 => match v {
            Value::I64(_) => true,
            _ => false,
        },
        _ => false,
    }
}

#[verifier::spinoff_prover]
pub(crate) fn exec_load(op: Opcode, mem: &InternalMemoryInst, addr: usize, arg: &MemoryArg) -> (r: Result<Value, RuntimeError>)
    ensures
        r == load_value(op, mem.data@, addr, *arg),
{
    match op {
        Opcode::I32Load => match mem.load::<i32>(addr, arg) {
            Ok(x) => Ok(Value::I32(x)),
            Err(e) => Err(e),
        },
        Opcode::I64Load => match mem.load::<i64>(addr, arg) {
            Ok(x) => Ok(Value::I64(x)),
            Err(e) => Err(e),
        },
        Opcode::F32Load => match mem.load::<u32>(addr, arg) {
            Ok(x) => Ok(Value::F32(x)),
            Err(e) => Err(e),
        },
        Opcode::F64Load => match mem.load::<u64>(addr, arg) {
            Ok(x) => Ok(Value::F64(x)),
            Err(e) => Err(e),
        },
        Opcode::I32Load8S => match mem.load::<i8>(addr, arg) {
            Ok(x) => Ok(Value::I32(x as i32)),
            Err(e) => Err(e),
        },
        Opcode::I32Load8U => match mem.load::<u8>(addr, arg) {
            Ok(x) => Ok(Value::I32(x as i32)),
            Err(e) => Err(e),
        },
        Opcode::I32Load16S => match mem.load::<i16>(addr, arg) {
            Ok(x) => Ok(Value::I32(x as i32)),
            Err(e) => Err(e),
        },
        Opcode::I32Load16U => match mem.load::<u16>(addr, arg) {
            Ok(x) => Ok(Value::I32(x as i32)),
            Err(e) => Err(e),
        },
        Opcode::I64Load8S => match mem.load::<i8>(addr, arg) {
            Ok(x) => Ok(Value::I64(x as i64)),
            Err(e) => Err(e),
        },
        Opcode::I64Load8U => match mem.load::<u8>(addr, arg) {
            Ok(x) => Ok(Value::I64(x as i64)),
            Err(e) => Err(e),
        },
        Opcode::I64Load16S => match mem.load::<i16>(addr, arg) {
            Ok(x) => Ok(Value::I64(x as i64)),
            Err(e) => Err(e),
        },
        Opcode::I64Load16U => match mem.load::<u16>(addr, arg) {
            Ok(x) => Ok(Value::I64(x as i64)),
            Err(e) => Err(e),
        },
        Opcode::I64Load32S => match mem.load::<i32>(addr, arg) {
            Ok(x) => Ok(Value::I64(x as i64)),
            Err(e) => Err(e),
        },
        Opcode::I64Load32U => match mem.load::<u32>(addr, arg) {
            Ok(x) => Ok(Value::I64(x as i64)),
            Err(e) => Err(e),
        },
        _ => Err(RuntimeError::UnexpectedStackValueType),
    }
}

#[verifier::spinoff_prover]
pub(crate) fn exec_store(op: Opcode, mem: &mut InternalMemoryInst, addr: usize, arg: &MemoryArg, v: Value) -> (r: Result<(), RuntimeError>)
    ensures
        final(mem).max == old(mem).max,
        match store_result(op, old(mem).data@, addr, *arg, v) {
            Ok(data) => r is Ok && final(mem).data@ == data,
            Err(e) => r == Err::<(), RuntimeError>(e) && final(mem).data@ == old(mem).data@,
        },
{
    match (op, v) {
        (Opcode::I32Store, Value::I32(x)) => mem.write::<i32>(addr, arg, x),
        (Opcode::I64Store, Value::I64(x)) => mem.write::<i64>(addr, arg, x),
        (Opcode::F32Store, Value::F32(x)) => mem.write::<u32>(addr, arg, x),
        (Opcode::F64Store, Value::F64(x)) => mem.write::<u64>(addr, arg, x),
        (Opcode::I32Store8, Value::I32(x)) => mem.write::<i8>(addr, arg, x as i8),
        (Opcode::I32Store16, Value::I32(x)) => mem.write::<i16>(addr, arg, x as i16),
        (Opcode::I64Store8, Value::I64(x)) => mem.write::<i8>(addr, arg, x as i8),
        (Opcode::I64Store16, Value::I64(x)) => mem.write::<i16>(addr, arg, x as i16),
        (Opcode::I64Store32, Value::I64(x)) => mem.write::<i32>(addr, arg, x as i32),
        _ => Err(RuntimeError::UnexpectedStackValueType),
    }
}

/// The unsigned little-endian number that the `n` bytes at the effective
/// address of an access hold, when they lie in `data`.
pub open spec fn loaded(data: Seq<u8>, addr: usize, arg: MemoryArg, n: nat) -> Option<int> {
    let at = addr + arg.offset;
    if at + n <= data.len() {
        Some(le_value(data.subrange(at, at + n)) as int)
    } else {
        None
    }
}

/// Each load reads its bytes at the effective address, least significant
/// first: a signed load of `n` bytes gives the number they hold as a two's
/// complement number of `8n` bits, an unsigned one the number itself (so
/// below `2^(8n)`), a float load the bit pattern; bytes out of memory are an
/// error.
pub proof fn lemma_load_reads_bytes(op: Opcode, data: Seq<u8>, addr: usize, arg: MemoryArg)
    requires
        data.len() <= usize::MAX,
    ensures
        op == Opcode::I32Load ==> match loaded(data, addr, arg, 4) {
            Some(v) => load_value(op, data, addr, arg) matches Ok(Value::I32(x)) && x == (if v >= 0x8000_0000 { v - 0x1_0000_0000 } else { v }),
            None => load_value(op, data, addr, arg) == Err::<Value, RuntimeError>(RuntimeError::OutOfBoundsMemoryAccess),
        },
        op == Opcode::I64Load ==> match loaded(data, addr, arg, 8) {
            Some(v) => load_value(op, data, addr, arg) matches Ok(Value::I64(x)) && x == (if v >= 0x8000_0000_0000_0000 { v - 0x1_0000_0000_0000_0000 } else { v }),
            None => load_value(op, data, addr, arg) == Err::<Value, RuntimeError>(RuntimeError::OutOfBoundsMemoryAccess),
        },
        op == Opcode::F32Load ==> match loaded(data, addr, arg, 4) {
            Some(v) => load_value(op, data, addr, arg) matches Ok(Value::F32(x)) && x == v,
            None => load_value(op, data, addr, arg) == Err::<Value, RuntimeError>(RuntimeError::OutOfBoundsMemoryAccess),
        },
        op == Opcode::F64Load ==> match loaded(data, addr, arg, 8) {
            Some(v) => load_value(op, data, addr, arg) matches Ok(Value::F64(x)) && x == v,
            None => load_value(op, data, addr, arg) == Err::<Value, RuntimeError>(RuntimeError::OutOfBoundsMemoryAccess),
        },
        op == Opcode::I32Load8S ==> match loaded(data, addr, arg, 1) {
            Some(v) => load_value(op, data, addr, arg) matches Ok(Value::I32(x)) && x == (if v >= 0x80 { v - 0x100 } else { v }),
            None => load_value(op, data, addr, arg) == Err::<Value, RuntimeError>(RuntimeError::OutOfBoundsMemoryAccess),
        },
        op == Opcode::I32Load8U ==> match loaded(data, addr, arg, 1) {
            Some(v) => load_value(op, data, addr, arg) matches Ok(Value::I32(x)) && x == v,
            None => load_value(op, data, addr, arg) == Err::<Value, RuntimeError>(RuntimeError::OutOfBoundsMemoryAccess),
        },
        op == Opcode::I32Load16S ==> match loaded(data, addr, arg, 2) {
            Some(v) => load_value(op, data, addr, arg) matches Ok(Value::I32(x)) && x == (if v >= 0x8000 { v - 0x1_0000 } else { v }),
            None => load_value(op, data, addr, arg) == Err::<Value, RuntimeError>(RuntimeError::OutOfBoundsMemoryAccess),
        },
        op == Opcode::I32Load16U ==> match loaded(data, addr, arg, 2) {
            Some(v) => load_value(op, data, addr, arg) matches Ok(Value::I32(x)) && x == v,
            None => load_value(op, data, addr, arg) == Err::<Value, RuntimeError>(RuntimeError::OutOfBoundsMemoryAccess),
        },
        op == Opcode::I64Load8S ==> match loaded(data, addr, arg, 1) {
            Some(v) => load_value(op, data, addr, arg) matches Ok(Value::I64(x)) && x == (if v >= 0x80 { v - 0x100 } else { v }),
            None => load_value(op, data, addr, arg) == Err::<Value, RuntimeError>(RuntimeError::OutOfBoundsMemoryAccess),
        },
        op == Opcode::I64Load8U ==> match loaded(data, addr, arg, 1) {
            Some(v) => load_value(op, data, addr, arg) matches Ok(Value::I64(x)) && x == v,
            None => load_value(op, data, addr, arg) == Err::<Value, RuntimeError>(RuntimeError::OutOfBoundsMemoryAccess),
        },
        op == Opcode::I64Load16S ==> match loaded(data, addr, arg, 2) {
            Some(v) => load_value(op, data, addr, arg) matches Ok(Value::I64(x)) && x == (if v >= 0x8000 { v - 0x1_0000 } else { v }),
            None => load_value(op, data, addr, arg) == Err::<Value, RuntimeError>(RuntimeError::OutOfBoundsMemoryAccess),
        },
        op == Opcode::I64Load16U ==> match loaded(data, addr, arg, 2) {
            Some(v) => load_value(op, data, addr, arg) matches Ok(Value::I64(x)) && x == v,
            None => load_value(op, data, addr, arg) == Err::<Value, RuntimeError>(RuntimeError::OutOfBoundsMemoryAccess),
        },
        op == Opcode::I64Load32S ==> match loaded(data, addr, arg, 4) {
            Some(v) => load_value(op, data, addr, arg) matches Ok(Value::I64(x)) && x == (if v >= 0x8000_0000 { v - 0x1_0000_0000 } else { v }),
            None => load_value(op, data, addr, arg) == Err::<Value, RuntimeError>(RuntimeError::OutOfBoundsMemoryAccess),
        },
        op == Opcode::I64Load32U ==> match loaded(data, addr, arg, 4) {
            Some(v) => load_value(op, data, addr, arg) matches Ok(Value::I64(x)) && x == v,
            None => load_value(op, data, addr, arg) == Err::<Value, RuntimeError>(RuntimeError::OutOfBoundsMemoryAccess),
        },
{
    lemma_pow256_values();
    let at = addr + arg.offset;
    if at + 8 <= data.len() {
        lemma_le_value_bound(data.subrange(at, at + 8));
    }
    if at + 4 <= data.len() {
        lemma_le_value_bound(data.subrange(at, at + 4));
    }
    if at + 2 <= data.len() {
        lemma_le_value_bound(data.subrange(at, at + 2));
    }
    if at + 1 <= data.len() {
        lemma_le_value_bound(data.subrange(at, at + 1));
    }
    reveal_with_fuel(pow256, 3);
}

/// Whether `after` differs from `before` at most in the `n` bytes from `at`.
pub open spec fn unchanged_outside(after: Seq<u8>, before: Seq<u8>, at: int, n: nat) -> bool {
    &&& after.len() == before.len()
    &&& forall|k: int| 0 <= k < before.len() && !(at <= k < at + n) ==> #[trigger] after[k] == before[k]
}

/// What a store does, for one opcode: it succeeds exactly when its `n` bytes
/// lie in memory, it changes no byte outside them, and the load `back` of the
/// same width at the same address then gives `expect`.
pub open spec fn store_law(op: Opcode, data: Seq<u8>, addr: usize, arg: MemoryArg, v: Value, n: nat, back: Opcode, expect: Value) -> bool {
    let at = addr + arg.offset;
    &&& (store_result(op, data, addr, arg, v) is Ok <==> at + n <= data.len())
    &&& at + n > data.len() ==> store_result(op, data, addr, arg, v) == Err::<Seq<u8>, RuntimeError>(RuntimeError::OutOfBoundsMemoryAccess)
    &&& at + n <= data.len() ==> {
        let after = store_result(op, data, addr, arg, v)->Ok_0;
        &&& unchanged_outside(after, data, at, n)
        &&& load_value(back, after, addr, arg) == Ok::<Value, RuntimeError>(expect)
    }
}

proof fn lemma_store_one<T: Numeric>(data: Seq<u8>, addr: usize, arg: MemoryArg, x: T)
    requires
        data.len() <= usize::MAX,
    ensures
        spec_store::<T>(data, addr, arg, x) is Ok <==> addr + arg.offset + T::size() <= data.len(),
        addr + arg.offset + T::size() > data.len() ==> spec_store::<T>(data, addr, arg, x) == Err::<Seq<u8>, RuntimeError>(RuntimeError::OutOfBoundsMemoryAccess),
        addr + arg.offset + T::size() <= data.len() ==> {
            &&& unchanged_outside(spec_store::<T>(data, addr, arg, x)->Ok_0, data, addr + arg.offset, T::size())
            &&& spec_load::<T>(spec_store::<T>(data, addr, arg, x)->Ok_0, addr, arg) == Ok::<T, RuntimeError>(x)
        },
{
    if addr + arg.offset + T::size() <= data.len() {
        lemma_load_after_store::<T>(data, addr, arg, x);
    }
}

/// Each store writes exactly its width in bytes at the effective address
/// (four for `i32.store`, one for `i32.store8`, ...), and fails, changing
/// nothing, when they do not lie in memory; reading the same bytes back gives
/// the value, or its low bytes for a narrow store, sign-extended by the
/// signed load of that width.
pub proof fn lemma_store_writes_bytes(op: Opcode, data: Seq<u8>, addr: usize, arg: MemoryArg, v: Value)
    requires
        data.len() <= usize::MAX,
    ensures
        op == Opcode::I32Store ==> (v matches Value::I32(x) ==> store_law(op, data, addr, arg, v, 4, Opcode::I32Load, Value::I32(x))),
        op == Opcode::I64Store ==> (v matches Value::I64(x) ==> store_law(op, data, addr, arg, v, 8, Opcode::I64Load, Value::I64(x))),
        op == Opcode::F32Store ==> (v matches Value::F32(x) ==> store_law(op, data, addr, arg, v, 4, Opcode::F32Load, Value::F32(x))),
        op == Opcode::F64Store ==> (v matches Value::F64(x) ==> store_law(op, data, addr, arg, v, 8, Opcode::F64Load, Value::F64(x))),
        op == Opcode::I32Store8 ==> (v matches Value::I32(x) ==> store_law(op, data, addr, arg, v, 1, Opcode::I32Load8S, Value::I32(x as i8 as i32))),
        op == Opcode::I32Store16 ==> (v matches Value::I32(x) ==> store_law(op, data, addr, arg, v, 2, Opcode::I32Load16S, Value::I32(x as i16 as i32))),
        op == Opcode::I64Store8 ==> (v matches Value::I64(x) ==> store_law(op, data, addr, arg, v, 1, Opcode::I64Load8S, Value::I64(x as i8 as i64))),
        op == Opcode::I64Store16 ==> (v matches Value::I64(x) ==> store_law(op, data, addr, arg, v, 2, Opcode::I64Load16S, Value::I64(x as i16 as i64))),
        op == Opcode::I64Store32 ==> (v matches Value::I64(x) ==> store_law(op, data, addr, arg, v, 4, Opcode::I64Load32S, Value::I64(x as i32 as i64))),
{
    match v {
        Value::I32(x) => {
            lemma_store_one::<i32>(data, addr, arg, x);
            lemma_store_one::<i16>(data, addr, arg, x as i16);
            lemma_store_one::<i8>(data, addr, arg, x as i8);
        },
        Value::I64(x) => {
            lemma_store_one::<i64>(data, addr, arg, x);
            lemma_store_one::<i32>(data, addr, arg, x as i32);
            lemma_store_one::<i16>(data, addr, arg, x as i16);
            lemma_store_one::<i8>(data, addr, arg, x as i8);
        },
        Value::F32(x) => {
            lemma_store_one::<u32>(data, addr, arg, x);
        },
        Value::F64(x) => {
            lemma_store_one::<u64>(data, addr, arg, x);
        },
    }
}

/// The conversions between integer types, and between integers and float
/// bit patterns, keep the bits: `i32.wrap_i64` keeps the number modulo 2^32,
/// `i64.extend_i32_s` keeps the number, `i64.extend_i32_u` gives the number
/// read modulo 2^32, and each reinterpretation gives a number with the same
/// bits, so equal modulo 2^32 (2^64).
pub proof fn lemma_conversions_keep_bits(x: i32, y: i64, f: u32, g: u64)
    ensures
        unary_result(Opcode::I32WrapI64, Value::I64(y)) matches Some(Ok(Value::I32(r))) && (r - y) % 0x1_0000_0000 == 0,
        unary_result(Opcode::I64ExtendI32S, Value::I32(x)) matches Some(Ok(Value::I64(r))) && r == x,
        unary_result(Opcode::I64ExtendI32U, Value::I32(x)) matches Some(Ok(Value::I64(r))) && r == (x as int) % 0x1_0000_0000,
        unary_result(Opcode::I32ReinterpretF32, Value::F32(f)) matches Some(Ok(Value::I32(r))) && (r - f) % 0x1_0000_0000 == 0,
        unary_result(Opcode::F32ReinterpretI32, Value::I32(x)) matches Some(Ok(Value::F32(r))) && r == (x as int) % 0x1_0000_0000,
        unary_result(Opcode::I64ReinterpretF64, Value::F64(g)) matches Some(Ok(Value::I64(r))) && (r - g) % 0x1_0000_0000_0000_0000 == 0,
        unary_result(Opcode::F64ReinterpretI64, Value::I64(y)) matches Some(Ok(Value::F64(r))) && r == (y as int) % 0x1_0000_0000_0000_0000,
{
    lemma_wrap_i32_congruent(y as int);
    lemma_unsigned_i32(x);
    lemma_unsigned_i64(y);
}

} // verus!
