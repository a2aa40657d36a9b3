use super::instruction::Instruction;
use vstd::prelude::*;

verus! {

/// Value types of the binary format.
/// <https://webassembly.github.io/spec/core/binary/types.html#value-types>
#[derive(Debug, Clone, Copy, PartialEq, Eq, Structural)]
pub enum ValueType {
    I32,
    I64,
    F32,
    F64,
}

/// The byte that encodes a value type.
pub open spec fn value_type_byte(t: ValueType) -> u8 {
    match t {
        ValueType::I32 => 0x7f,
        ValueType::I64 => 0x7e,
        ValueType::F32 => 0x7d,
        ValueType::F64 => 0x7c,
    }
}

/// The value type that a byte encodes, if any.
pub open spec fn spec_value_type_from_byte(b: u8) -> Option<ValueType> {
    if b == 0x7f {
        Some(ValueType::I32)
    } else if b == 0x7e {
        Some(ValueType::I64)
    } else if b == 0x7d {
        Some(ValueType::F32)
    } else if b == 0x7c {
        Some(ValueType::F64)
    } else {
        None
    }
}

impl ValueType {
    /// Decodes a value type from its byte; `None` for any other byte.
    pub fn from_byte(b: u8) -> (res: Option<ValueType>)
        ensures
            res == spec_value_type_from_byte(b),
    {
        if b == 0x7f {
            Some(ValueType::I32)
        } else if b == 0x7e {
            Some(ValueType::I64)
        } else if b == 0x7d {
            Some(ValueType::F32)
        } else if b == 0x7c {
            Some(ValueType::F64)
        } else {
            None
        }
    }

    /// The byte that encodes this value type.
    pub fn to_byte(&self) -> (b: u8)
        ensures
            b == value_type_byte(*self),
    {
        match self {
            ValueType::I32 => 0x7f,
            ValueType::I64 => 0x7e,
            ValueType::F32 => 0x7d,
            ValueType::F64 => 0x7c,
        }
    }
}

/// Decoding the byte of a value type gives the value type back, and a byte
/// decodes to a value type exactly when it is that type's byte.
pub proof fn lemma_value_type_byte_roundtrip(t: ValueType, b: u8)
    ensures
        spec_value_type_from_byte(value_type_byte(t)) == Some(t),
        spec_value_type_from_byte(b) == Some(t) <==> b == value_type_byte(t),
{
}

/// The bytes of the value types, as the binary format fixes them: 0x7f is
/// `i32`, 0x7e `i64`, 0x7d `f32`, 0x7c `f64`, and no other byte is a value
/// type.
pub proof fn lemma_value_type_table(b: u8)
    ensures
        spec_value_type_from_byte(0x7f) == Some(ValueType::I32),
        spec_value_type_from_byte(0x7e) == Some(ValueType::I64),
        spec_value_type_from_byte(0x7d) == Some(ValueType::F32),
        spec_value_type_from_byte(0x7c) == Some(ValueType::F64),
        !(0x7c <= b <= 0x7f) ==> spec_value_type_from_byte(b) is None,
{
}

/// Whether two sequences of value types are equal, element by element.
pub fn value_types_equal(a: &Vec<ValueType>, b: &Vec<ValueType>) -> (res: bool)
    ensures
        res <==> a@ == b@,
{
    if a.len() != b.len() {
        return false;
    }
    let mut i: usize = 0;
    while i < a.len()
        invariant
            a.len() == b.len(),
            i <= a.len(),
            forall|j: int| 0 <= j < i ==> a@[j] == b@[j],
        decreases a.len() - i,
    {
        if a[i] != b[i] {
            return false;
        }
        i = i + 1;
    }
    assert(a@ =~= b@);
    true
}

/// Function types.
/// <https://webassembly.github.io/spec/core/binary/types.html#function-types>
#[derive(Debug, Default, Clone, PartialEq)]
pub struct FuncType {
    pub params: Vec<ValueType>,
    pub results: Vec<ValueType>,
}

/// A run of local variables of one type, as the code section declares it.
#[derive(Debug, Clone, Copy, PartialEq, Eq, Structural)]
pub struct FunctionLocal {
    pub type_count: u32,
    pub value_type: ValueType,
}

/// The locals and instructions of a function body.
#[derive(Debug, Default, Clone, PartialEq)]
pub struct FunctionBody {
    pub locals: Vec<FunctionLocal>,
    pub code: Vec<Instruction>,
}

#[derive(Debug, Clone, Copy, PartialEq, Eq, Structural)]
pub enum ExportDesc {
    Func(u32),
    Table(u32),
    Memory(u32),
    Global(u32),
}

#[derive(Debug, Clone, PartialEq)]
pub struct Export {
    pub name: String,
    pub desc: ExportDesc,
}

#[derive(Debug, Clone, Copy, PartialEq, Eq, Structural)]
pub enum ElemType {
    FuncRef,
}

#[derive(Debug, Clone, Copy, PartialEq, Eq, Structural)]
pub struct Limits {
    pub min: u32,
    pub max: Option<u32>,
}

#[derive(Debug, Clone, Copy, PartialEq, Eq, Structural)]
pub struct Table {
    pub elem_type: ElemType,
    pub limits: Limits,
}

#[derive(Debug, Clone, Copy, PartialEq, Eq, Structural)]
pub struct Memory {
    pub limits: Limits,
}

#[derive(Debug, Clone, Copy, PartialEq, Eq, Structural)]
pub enum Mutability {
    Const,
    Var,
}

#[derive(Debug, Clone, Copy, PartialEq, Eq, Structural)]
pub struct GlobalType {
    pub value_type: ValueType,
    pub mutability: Mutability,
}

/// A constant of an initializer expression. Floating-point constants are held
/// by their IEEE 754 bit patterns.
#[derive(Debug, Clone, Copy, PartialEq, Eq, Structural)]
pub enum ExprValue {
    I32(i32),
    I64(i64),
    F32(u32),
    F64(u64),
}

/// An offset expression: a constant, or the value of a global.
#[derive(Debug, Clone, Copy, PartialEq, Eq, Structural)]
pub enum Expr {
    Value(ExprValue),
    GlobalIndex(usize),
}

#[derive(Debug, Clone, Copy, PartialEq, Eq, Structural)]
pub struct Global {
    pub global_type: GlobalType,
    pub init_expr: ExprValue,
}

#[derive(Debug, Clone, Copy, PartialEq, Eq, Structural)]
pub enum ImportKind {
    Func(u32),
    Table(Table),
    Memory(Memory),
    Global(GlobalType),
}

#[derive(Debug, Clone, PartialEq)]
pub struct Import {
    pub module: String,
    pub field: String,
    pub kind: ImportKind,
}

#[derive(Debug, Clone, PartialEq)]
pub struct Element {
    pub table_index: u32,
    /// offset in the table
    pub offset: Expr,
    /// indices of functions
    pub init: Vec<u32>,
}

#[derive(Debug, Clone, PartialEq)]
pub struct Data {
    pub memory_index: u32,
    pub offset: Expr,
    pub init: Vec<u8>,
}

#[derive(Default, Debug, Clone, PartialEq)]
pub struct Custom {
    pub name: String,
    pub data: Vec<u8>,
}

/// <https://www.w3.org/TR/wasm-core-1/#binary-blocktype>
#[derive(Debug, Clone, PartialEq)]
pub enum BlockType {
    Empty,
    /// only one value type is allowed now
    Value(Vec<ValueType>),
}

impl BlockType {
    /// The number of values the block leaves on the stack.
    pub open spec fn spec_result_count(&self) -> nat {
        match self {
            BlockType::Empty => 0,
            BlockType::Value(value_types) => value_types@.len(),
        }
    }

    pub fn result_count(&self) -> (n: usize)
        ensures
            n == self.spec_result_count(),
    {
        match self {
            BlockType::Empty => 0,
            BlockType::Value(value_types) => value_types.len(),
        }
    }
}

#[derive(Debug, Clone, PartialEq)]
pub struct Block {
    pub block_type: BlockType,
}

} // verus!

verus! {

impl View for FuncType {
    type V = (Seq<ValueType>, Seq<ValueType>);

    open spec fn view(&self) -> (Seq<ValueType>, Seq<ValueType>) {
        (self.params@, self.results@)
    }
}

impl View for FunctionBody {
    type V = (Seq<FunctionLocal>, Seq<(super::instruction::Opcode, super::instruction::ImmediateV)>);

    open spec fn view(&self) -> Self::V {
        (self.locals@, self.code@.map_values(|i: Instruction| i@))
    }
}

impl View for Export {
    type V = (Seq<char>, ExportDesc);

    open spec fn view(&self) -> (Seq<char>, ExportDesc) {
        (self.name@, self.desc)
    }
}

impl View for Import {
    type V = (Seq<char>, Seq<char>, ImportKind);

    open spec fn view(&self) -> (Seq<char>, Seq<char>, ImportKind) {
        (self.module@, self.field@, self.kind)
    }
}

impl View for Element {
    type V = (u32, Expr, Seq<u32>);

    open spec fn view(&self) -> (u32, Expr, Seq<u32>) {
        (self.table_index, self.offset, self.init@)
    }
}

impl View for Data {
    type V = (u32, Expr, Seq<u8>);

    open spec fn view(&self) -> (u32, Expr, Seq<u8>) {
        (self.memory_index, self.offset, self.init@)
    }
}

impl View for Custom {
    type V = (Seq<char>, Seq<u8>);

    open spec fn view(&self) -> (Seq<char>, Seq<u8>) {
        (self.name@, self.data@)
    }
}

impl View for ValueType {
    type V = ValueType;

    open spec fn view(&self) -> ValueType {
        *self
    }
}

impl View for Limits {
    type V = Limits;

    open spec fn view(&self) -> Limits {
        *self
    }
}

impl View for Table {
    type V = Table;

    open spec fn view(&self) -> Table {
        *self
    }
}

impl View for Memory {
    type V = Memory;

    open spec fn view(&self) -> Memory {
        *self
    }
}

impl View for GlobalType {
    type V = GlobalType;

    open spec fn view(&self) -> GlobalType {
        *self
    }
}

impl View for Global {
    type V = Global;

    open spec fn view(&self) -> Global {
        *self
    }
}

impl View for ExprValue {
    type V = ExprValue;

    open spec fn view(&self) -> ExprValue {
        *self
    }
}

impl View for FunctionLocal {
    type V = FunctionLocal;

    open spec fn view(&self) -> FunctionLocal {
        *self
    }
}

impl View for BlockType {
    type V = Option<Seq<ValueType>>;

    open spec fn view(&self) -> Option<Seq<ValueType>> {
        match self {
            BlockType::Empty => None,
            BlockType::Value(types) => Some(types@),
        }
    }
}

/// The views of a sequence of values.
pub open spec fn views<T: View>(s: Seq<T>) -> Seq<T::V> {
    s.map_values(|x: T| x@)
}

} // verus!
