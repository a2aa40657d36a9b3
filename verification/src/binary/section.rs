//! The sections of a module and the grammar of their contents.
//! <https://webassembly.github.io/spec/core/binary/modules.html#sections>
use super::error::DecodeError;
use super::instruction::{
    make_instruction, opcode_immediate, spec_opcode_from_byte, Immediate, ImmediateKind,
    ImmediateV, Instruction, MemoryArg, Opcode,
};
use super::reader::{
    spec_byte, spec_bytes, spec_f32, spec_f64, spec_i32, spec_i64, spec_name, spec_u32,
    SectionReader,
};
use super::types::{
    spec_value_type_from_byte, views, Block, BlockType, Custom, Data, Element, ElemType, Export,
    ExportDesc, Expr, ExprValue, FuncType, FunctionBody, FunctionLocal, Global, GlobalType, Import,
    ImportKind, Limits, Memory, Mutability, Table, ValueType,
};
use vstd::prelude::*;

verus! {

#[derive(Debug, Clone, Copy, PartialEq, Eq, Structural)]
pub enum SectionID {
    Custom,
    Type,
    Import,
    Function,
    Table,
    Memory,
    Global,
    Export,
    Start,
    Element,
    Code,
    Data,
}

/// The section id that a byte encodes, if any.
pub open spec fn spec_section_id(b: u8) -> Option<SectionID> {
    if b == 0x00 {
        Some(SectionID::Custom)
    } else if b == 0x01 {
        Some(SectionID::Type)
    } else if b == 0x02 {
        Some(SectionID::Import)
    } else if b == 0x03 {
        Some(SectionID::Function)
    } else if b == 0x04 {
        Some(SectionID::Table)
    } else if b == 0x05 {
        Some(SectionID::Memory)
    } else if b == 0x06 {
        Some(SectionID::Global)
    } else if b == 0x07 {
        Some(SectionID::Export)
    } else if b == 0x08 {
        Some(SectionID::Start)
    } else if b == 0x09 {
        Some(SectionID::Element)
    } else if b == 0x0a {
        Some(SectionID::Code)
    } else if b == 0x0b {
        Some(SectionID::Data)
    } else {
        None
    }
}

impl SectionID {
    /// Decodes a section id; `None` for an unknown id.
    pub fn from_u8(id: u8) -> (res: Option<SectionID>)
        ensures
            res == spec_section_id(id),
    {
        match id {
            0x00 => Some(SectionID::Custom),
            0x01 => Some(SectionID::Type),
            0x02 => Some(SectionID::Import),
            0x03 => Some(SectionID::Function),
            0x04 => Some(SectionID::Table),
            0x05 => Some(SectionID::Memory),
            0x06 => Some(SectionID::Global),
            0x07 => Some(SectionID::Export),
            0x08 => Some(SectionID::Start),
            0x09 => Some(SectionID::Element),
            0x0a => Some(SectionID::Code),
            0x0b => Some(SectionID::Data),
            _ => None,
        }
    }
}

/// A decoded section.
#[derive(Debug)]
pub enum Section {
    Custom(Custom),
    Type(Vec<FuncType>),
    Import(Vec<Import>),
    Function(Vec<u32>),
    Table(Vec<Table>),
    /// only 1 memory for now
    Memory(Vec<Memory>),
    Global(Vec<Global>),
    Export(Vec<Export>),
    Start(u32),
    Element(Vec<Element>),
    Data(Vec<Data>),
    Code(Vec<FunctionBody>),
}

/// A section with its vectors as sequences of views.
pub enum SectionV {
    Custom((Seq<char>, Seq<u8>)),
    Type(Seq<(Seq<ValueType>, Seq<ValueType>)>),
    Import(Seq<(Seq<char>, Seq<char>, ImportKind)>),
    Function(Seq<u32>),
    Table(Seq<Table>),
    Memory(Seq<Memory>),
    Global(Seq<Global>),
    Export(Seq<(Seq<char>, ExportDesc)>),
    Start(u32),
    Element(Seq<(u32, Expr, Seq<u32>)>),
    Data(Seq<(u32, Expr, Seq<u8>)>),
    Code(Seq<(Seq<FunctionLocal>, Seq<(Opcode, ImmediateV)>)>),
}

impl View for Section {
    type V = SectionV;

    open spec fn view(&self) -> SectionV {
        match self {
            Section::Custom(c) => SectionV::Custom(c@),
            Section::Type(v) => SectionV::Type(views(v@)),
            Section::Import(v) => SectionV::Import(views(v@)),
            Section::Function(v) => SectionV::Function(v@),
            Section::Table(v) => SectionV::Table(v@),
            Section::Memory(v) => SectionV::Memory(v@),
            Section::Global(v) => SectionV::Global(v@),
            Section::Export(v) => SectionV::Export(views(v@)),
            Section::Start(i) => SectionV::Start(*i),
            Section::Element(v) => SectionV::Element(views(v@)),
            Section::Data(v) => SectionV::Data(views(v@)),
            Section::Code(v) => SectionV::Code(views(v@)),
        }
    }
}

// ---------------------------------------------------------------------------
// The grammar, as spec functions from bytes and a position to a value and the
// position after it.

/// `n` items, one after another, each read by `item`.
pub open spec fn spec_repeat<T>(
    item: spec_fn(Seq<u8>, int) -> Result<(T, int), DecodeError>,
    s: Seq<u8>,
    p: int,
    n: nat,
) -> Result<(Seq<T>, int), DecodeError>
    decreases n,
{
    if n == 0 {
        Ok((Seq::empty(), p))
    } else {
        match spec_repeat(item, s, p, (n - 1) as nat) {
            Ok((items, q)) => match item(s, q) {
                Ok((x, r)) => Ok((items.push(x), r)),
                Err(e) => Err(e),
            },
            Err(e) => Err(e),
        }
    }
}

/// A vector: its length as an unsigned LEB128 number, then its items.
pub open spec fn spec_vec<T>(
    item: spec_fn(Seq<u8>, int) -> Result<(T, int), DecodeError>,
    s: Seq<u8>,
    p: int,
) -> Result<(Seq<T>, int), DecodeError> {
    match spec_u32(s, p) {
        Ok((n, q)) => spec_repeat(item, s, q, n as nat),
        Err(e) => Err(e),
    }
}

/// Once `n` items fail, more items fail with the same error.
pub proof fn lemma_repeat_err<T>(
    item: spec_fn(Seq<u8>, int) -> Result<(T, int), DecodeError>,
    s: Seq<u8>,
    p: int,
    n: nat,
    m: nat,
)
    requires
        n <= m,
        spec_repeat(item, s, p, n) is Err,
    ensures
        spec_repeat(item, s, p, m) == spec_repeat(item, s, p, n),
    decreases m,
{
    if n < m {
        lemma_repeat_err(item, s, p, n, (m - 1) as nat);
    }
}

pub open spec fn spec_value_type(s: Seq<u8>, p: int) -> Result<(ValueType, int), DecodeError> {
    match spec_byte(s, p) {
        Ok((b, q)) => match spec_value_type_from_byte(b) {
            Some(t) => Ok((t, q)),
            None => Err(DecodeError::InvalidValueType(b)),
        },
        Err(e) => Err(e),
    }
}

pub open spec fn value_type_item() -> spec_fn(Seq<u8>, int) -> Result<(ValueType, int), DecodeError> {
    |s: Seq<u8>, p: int| spec_value_type(s, p)
}

pub open spec fn u32_item() -> spec_fn(Seq<u8>, int) -> Result<(u32, int), DecodeError> {
    |s: Seq<u8>, p: int| spec_u32(s, p)
}

/// A function type: 0x60, the vector of parameter types, then the vector of
/// result types.
pub open spec fn spec_func_type(s: Seq<u8>, p: int) -> Result<
    ((Seq<ValueType>, Seq<ValueType>), int),
    DecodeError,
> {
    match spec_byte(s, p) {
        Ok((b, q)) => if b != 0x60 {
            Err(DecodeError::InvalidFuncType(b))
        } else {
            match spec_vec(value_type_item(), s, q) {
                Ok((params, r)) => match spec_vec(value_type_item(), s, r) {
                    Ok((results, t)) => Ok(((params, results), t)),
                    Err(e) => Err(e),
                },
                Err(e) => Err(e),
            }
        },
        Err(e) => Err(e),
    }
}

pub open spec fn func_type_item() -> spec_fn(Seq<u8>, int) -> Result<
    ((Seq<ValueType>, Seq<ValueType>), int),
    DecodeError,
> {
    |s: Seq<u8>, p: int| spec_func_type(s, p)
}

/// Limits: a flag, the minimum, and the maximum when the flag is not 0.
pub open spec fn spec_limits(s: Seq<u8>, p: int) -> Result<(Limits, int), DecodeError> {
    match spec_u32(s, p) {
        Ok((flag, q)) => match spec_u32(s, q) {
            Ok((min, r)) => if flag == 0 {
                Ok((Limits { min, max: None }, r))
            } else {
                match spec_u32(s, r) {
                    Ok((max, t)) => Ok((Limits { min, max: Some(max) }, t)),
                    Err(e) => Err(e),
                }
            },
            Err(e) => Err(e),
        },
        Err(e) => Err(e),
    }
}

/// A table type: the element type 0x70 (funcref), then limits.
pub open spec fn spec_table(s: Seq<u8>, p: int) -> Result<(Table, int), DecodeError> {
    match spec_byte(s, p) {
        Ok((b, q)) => if b != 0x70 {
            Err(DecodeError::InvalidElmType(b))
        } else {
            match spec_limits(s, q) {
                Ok((limits, r)) => Ok((Table { elem_type: ElemType::FuncRef, limits }, r)),
                Err(e) => Err(e),
            }
        },
        Err(e) => Err(e),
    }
}

pub open spec fn table_item() -> spec_fn(Seq<u8>, int) -> Result<(Table, int), DecodeError> {
    |s: Seq<u8>, p: int| spec_table(s, p)
}

pub open spec fn spec_memory(s: Seq<u8>, p: int) -> Result<(Memory, int), DecodeError> {
    match spec_limits(s, p) {
        Ok((limits, q)) => Ok((Memory { limits }, q)),
        Err(e) => Err(e),
    }
}

pub open spec fn memory_item() -> spec_fn(Seq<u8>, int) -> Result<(Memory, int), DecodeError> {
    |s: Seq<u8>, p: int| spec_memory(s, p)
}

/// A global type: a value type byte, then a mutability byte (0 or 1). Both
/// bytes are read before either is checked.
pub open spec fn spec_global_type(s: Seq<u8>, p: int) -> Result<(GlobalType, int), DecodeError> {
    match spec_byte(s, p) {
        Ok((t, q)) => match spec_byte(s, q) {
            Ok((m, r)) => match spec_value_type_from_byte(t) {
                Some(value_type) => if m == 0 {
                    Ok((GlobalType { value_type, mutability: Mutability::Const }, r))
                } else if m == 1 {
                    Ok((GlobalType { value_type, mutability: Mutability::Var }, r))
                } else {
                    Err(DecodeError::InvalidMutability(m))
                },
                None => Err(DecodeError::InvalidValueType(t)),
            },
            Err(e) => Err(e),
        },
        Err(e) => Err(e),
    }
}

/// A constant initializer expression: one `*.const` instruction, then `end`.
pub open spec fn spec_expr(s: Seq<u8>, p: int) -> Result<(ExprValue, int), DecodeError> {
    match spec_byte(s, p) {
        Ok((op, q)) => {
            let value: Result<(ExprValue, int), DecodeError> = if op == 0x41 {
                match spec_i32(s, q) {
                    Ok((v, r)) => Ok((ExprValue::I32(v), r)),
                    Err(e) => Err(e),
                }
            } else if op == 0x42 {
                match spec_i64(s, q) {
                    Ok((v, r)) => Ok((ExprValue::I64(v), r)),
                    Err(e) => Err(e),
                }
            } else if op == 0x43 {
                match spec_f32(s, q) {
                    Ok((v, r)) => Ok((ExprValue::F32(v), r)),
                    Err(e) => Err(e),
                }
            } else if op == 0x44 {
                match spec_f64(s, q) {
                    Ok((v, r)) => Ok((ExprValue::F64(v), r)),
                    Err(e) => Err(e),
                }
            } else {
                Err(DecodeError::InvalidInitExprOpcode(op))
            };
            match value {
                Ok((v, r)) => match spec_byte(s, r) {
                    Ok((end, t)) => if end == 0x0b {
                        Ok((v, t))
                    } else {
                        Err(DecodeError::InvalidInitExprEndOpcode(end))
                    },
                    Err(e) => Err(e),
                },
                Err(e) => Err(e),
            }
        },
        Err(e) => Err(e),
    }
}

pub open spec fn spec_global(s: Seq<u8>, p: int) -> Result<(Global, int), DecodeError> {
    match spec_global_type(s, p) {
        Ok((global_type, q)) => match spec_expr(s, q) {
            Ok((init_expr, r)) => Ok((Global { global_type, init_expr }, r)),
            Err(e) => Err(e),
        },
        Err(e) => Err(e),
    }
}

pub open spec fn global_item() -> spec_fn(Seq<u8>, int) -> Result<(Global, int), DecodeError> {
    |s: Seq<u8>, p: int| spec_global(s, p)
}

/// An import: module name, field name, a kind byte and its description.
pub open spec fn spec_import(s: Seq<u8>, p: int) -> Result<
    ((Seq<char>, Seq<char>, ImportKind), int),
    DecodeError,
> {
    match spec_name(s, p) {
        Ok((module, q)) => match spec_name(s, q) {
            Ok((field, r)) => match spec_byte(s, r) {
                Ok((kind, t)) => {
                    let desc: Result<(ImportKind, int), DecodeError> = if kind == 0 {
                        match spec_u32(s, t) {
                            Ok((i, u)) => Ok((ImportKind::Func(i), u)),
                            Err(e) => Err(e),
                        }
                    } else if kind == 1 {
                        match spec_table(s, t) {
                            Ok((tb, u)) => Ok((ImportKind::Table(tb), u)),
                            Err(e) => Err(e),
                        }
                    } else if kind == 2 {
                        match spec_memory(s, t) {
                            Ok((m, u)) => Ok((ImportKind::Memory(m), u)),
                            Err(e) => Err(e),
                        }
                    } else if kind == 3 {
                        match spec_global_type(s, t) {
                            Ok((g, u)) => Ok((ImportKind::Global(g), u)),
                            Err(e) => Err(e),
                        }
                    } else {
                        Err(DecodeError::InvalidImportKind(kind))
                    };
                    match desc {
                        Ok((k, u)) => Ok(((module, field, k), u)),
                        Err(e) => Err(e),
                    }
                },
                Err(e) => Err(e),
            },
            Err(e) => Err(e),
        },
        Err(e) => Err(e),
    }
}

pub open spec fn import_item() -> spec_fn(Seq<u8>, int) -> Result<
    ((Seq<char>, Seq<char>, ImportKind), int),
    DecodeError,
> {
    |s: Seq<u8>, p: int| spec_import(s, p)
}

/// An export: a name, a kind byte, then an index; the kind is checked after
/// the index is read.
pub open spec fn spec_export(s: Seq<u8>, p: int) -> Result<((Seq<char>, ExportDesc), int), DecodeError> {
    match spec_name(s, p) {
        Ok((name, q)) => match spec_byte(s, q) {
            Ok((kind, r)) => match spec_u32(s, r) {
                Ok((idx, t)) => if kind == 0 {
                    Ok(((name, ExportDesc::Func(idx)), t))
                } else if kind == 1 {
                    Ok(((name, ExportDesc::Table(idx)), t))
                } else if kind == 2 {
                    Ok(((name, ExportDesc::Memory(idx)), t))
                } else if kind == 3 {
                    Ok(((name, ExportDesc::Global(idx)), t))
                } else {
                    Err(DecodeError::InvalidExportKind(kind))
                },
                Err(e) => Err(e),
            },
            Err(e) => Err(e),
        },
        Err(e) => Err(e),
    }
}

pub open spec fn export_item() -> spec_fn(Seq<u8>, int) -> Result<
    ((Seq<char>, ExportDesc), int),
    DecodeError,
> {
    |s: Seq<u8>, p: int| spec_export(s, p)
}

/// An element segment: table index, offset expression, vector of function
/// indices.
pub open spec fn spec_element(s: Seq<u8>, p: int) -> Result<((u32, Expr, Seq<u32>), int), DecodeError> {
    match spec_u32(s, p) {
        Ok((table_index, q)) => match spec_expr(s, q) {
            Ok((offset, r)) => match spec_vec(u32_item(), s, r) {
                Ok((init, t)) => Ok(((table_index, Expr::Value(offset), init), t)),
                Err(e) => Err(e),
            },
            Err(e) => Err(e),
        },
        Err(e) => Err(e),
    }
}

pub open spec fn element_item() -> spec_fn(Seq<u8>, int) -> Result<
    ((u32, Expr, Seq<u32>), int),
    DecodeError,
> {
    |s: Seq<u8>, p: int| spec_element(s, p)
}

/// A data segment: memory index, offset expression, then its bytes with their
/// count before them.
pub open spec fn spec_data(s: Seq<u8>, p: int) -> Result<((u32, Expr, Seq<u8>), int), DecodeError> {
    match spec_u32(s, p) {
        Ok((memory_index, q)) => match spec_expr(s, q) {
            Ok((offset, r)) => match spec_u32(s, r) {
                Ok((size, t)) => match spec_bytes(s, t, size as int) {
                    Ok((init, u)) => Ok(((memory_index, Expr::Value(offset), init), u)),
                    Err(e) => Err(e),
                },
                Err(e) => Err(e),
            },
            Err(e) => Err(e),
        },
        Err(e) => Err(e),
    }
}

pub open spec fn data_item() -> spec_fn(Seq<u8>, int) -> Result<
    ((u32, Expr, Seq<u8>), int),
    DecodeError,
> {
    |s: Seq<u8>, p: int| spec_data(s, p)
}

/// A block type: 0x40 for none, or one value type.
pub open spec fn spec_block_type(s: Seq<u8>, p: int) -> Result<(Option<Seq<ValueType>>, int), DecodeError> {
    match spec_byte(s, p) {
        Ok((b, q)) => if b == 0x40 {
            Ok((None, q))
        } else {
            match spec_value_type_from_byte(b) {
                Some(t) => Ok((Some(seq![t]), q)),
                None => Err(DecodeError::InvalidValueType(b)),
            }
        },
        Err(e) => Err(e),
    }
}

/// The immediate of the given kind at `p`.
pub open spec fn spec_immediate(kind: ImmediateKind, s: Seq<u8>, p: int) -> Result<
    (ImmediateV, int),
    DecodeError,
> {
    match kind {
        ImmediateKind::Nothing => Ok((ImmediateV::Nothing, p)),
        ImmediateKind::Index => match spec_u32(s, p) {
            Ok((i, q)) => Ok((ImmediateV::Index(i), q)),
            Err(e) => Err(e),
        },
        ImmediateKind::TwoIndices => match spec_u32(s, p) {
            Ok((a, q)) => match spec_u32(s, q) {
                Ok((b, r)) => Ok((ImmediateV::TwoIndices(a, b), r)),
                Err(e) => Err(e),
            },
            Err(e) => Err(e),
        },
        ImmediateKind::BlockType => match spec_block_type(s, p) {
            Ok((bt, q)) => Ok((ImmediateV::BlockType(bt), q)),
            Err(e) => Err(e),
        },
        ImmediateKind::LabelTable => match spec_vec(u32_item(), s, p) {
            Ok((labels, q)) => match spec_u32(s, q) {
                Ok((default, r)) => Ok((ImmediateV::LabelTable(labels, default), r)),
                Err(e) => Err(e),
            },
            Err(e) => Err(e),
        },
        ImmediateKind::MemArg => match spec_u32(s, p) {
            Ok((align, q)) => match spec_u32(s, q) {
                Ok((offset, r)) => Ok((ImmediateV::MemArg(MemoryArg { align, offset }), r)),
                Err(e) => Err(e),
            },
            Err(e) => Err(e),
        },
        // the memory index byte is skipped when there is one
        ImmediateKind::MemIndex => if 0 <= p < s.len() {
            Ok((ImmediateV::MemIndex, p + 1))
        } else {
            Ok((ImmediateV::MemIndex, p))
        },
        ImmediateKind::I32 => match spec_i32(s, p) {
            Ok((v, q)) => Ok((ImmediateV::I32(v), q)),
            Err(e) => Err(e),
        },
        ImmediateKind::I64 => match spec_i64(s, p) {
            Ok((v, q)) => Ok((ImmediateV::I64(v), q)),
            Err(e) => Err(e),
        },
        ImmediateKind::F32 => match spec_f32(s, p) {
            Ok((v, q)) => Ok((ImmediateV::F32(v), q)),
            Err(e) => Err(e),
        },
        ImmediateKind::F64 => match spec_f64(s, p) {
            Ok((v, q)) => Ok((ImmediateV::F64(v), q)),
            Err(e) => Err(e),
        },
    }
}

/// One instruction: its opcode byte, then the immediate of the opcode's kind.
pub open spec fn spec_instruction(s: Seq<u8>, p: int) -> Result<((Opcode, ImmediateV), int), DecodeError> {
    match spec_byte(s, p) {
        Ok((b, q)) => match spec_opcode_from_byte(b) {
            Some(op) => match spec_immediate(opcode_immediate(op), s, q) {
                Ok((imm, r)) => Ok(((op, imm), r)),
                Err(e) => Err(e),
            },
            None => Err(DecodeError::InvalidOpcode(b)),
        },
        Err(e) => Err(e),
    }
}


/// The section ids, as the binary format fixes them: 0 custom, 1 type,
/// 2 import, 3 function, 4 table, 5 memory, 6 global, 7 export, 8 start,
/// 9 element, 10 code, 11 data; a larger byte is no section id.
pub proof fn lemma_section_id_table(b: u8)
    ensures
        spec_section_id(0) == Some(SectionID::Custom),
        spec_section_id(1) == Some(SectionID::Type),
        spec_section_id(2) == Some(SectionID::Import),
        spec_section_id(3) == Some(SectionID::Function),
        spec_section_id(4) == Some(SectionID::Table),
        spec_section_id(5) == Some(SectionID::Memory),
        spec_section_id(6) == Some(SectionID::Global),
        spec_section_id(7) == Some(SectionID::Export),
        spec_section_id(8) == Some(SectionID::Start),
        spec_section_id(9) == Some(SectionID::Element),
        spec_section_id(10) == Some(SectionID::Code),
        spec_section_id(11) == Some(SectionID::Data),
        b > 11 ==> spec_section_id(b) is None,
{
}

/// An export is its name, a kind byte and an index: kind 0 exports a
/// function, 1 a table, 2 a memory and 3 a global; another kind is an error.
pub proof fn lemma_export_kinds(s: Seq<u8>, p: int, name: Seq<char>, q: int, idx: u32, t: int)
    requires
        spec_name(s, p) == Ok::<(Seq<char>, int), DecodeError>((name, q)),
        0 <= q < s.len(),
        spec_u32(s, q + 1) == Ok::<(u32, int), DecodeError>((idx, t)),
    ensures
        s[q] == 0 ==> spec_export(s, p) == Ok::<((Seq<char>, ExportDesc), int), DecodeError>(((name, ExportDesc::Func(idx)), t)),
        s[q] == 1 ==> spec_export(s, p) == Ok::<((Seq<char>, ExportDesc), int), DecodeError>(((name, ExportDesc::Table(idx)), t)),
        s[q] == 2 ==> spec_export(s, p) == Ok::<((Seq<char>, ExportDesc), int), DecodeError>(((name, ExportDesc::Memory(idx)), t)),
        s[q] == 3 ==> spec_export(s, p) == Ok::<((Seq<char>, ExportDesc), int), DecodeError>(((name, ExportDesc::Global(idx)), t)),
        s[q] > 3 ==> spec_export(s, p) == Err::<((Seq<char>, ExportDesc), int), DecodeError>(DecodeError::InvalidExportKind(s[q])),
{
}

/// A global type is a value type byte and a mutability byte: 0 is a
/// constant, 1 a variable, another byte an error.
pub proof fn lemma_global_mutability(s: Seq<u8>, p: int, t: ValueType)
    requires
        0 <= p,
        p + 2 <= s.len(),
        spec_value_type_from_byte(s[p]) == Some(t),
    ensures
        s[p + 1] == 0 ==> spec_global_type(s, p) == Ok::<(GlobalType, int), DecodeError>((GlobalType { value_type: t, mutability: Mutability::Const }, p + 2)),
        s[p + 1] == 1 ==> spec_global_type(s, p) == Ok::<(GlobalType, int), DecodeError>((GlobalType { value_type: t, mutability: Mutability::Var }, p + 2)),
        s[p + 1] > 1 ==> spec_global_type(s, p) == Err::<(GlobalType, int), DecodeError>(DecodeError::InvalidMutability(s[p + 1])),
{
}

/// How instructions read their immediates: a constant reads a signed
/// number of its width after the opcode; a memory access reads the
/// alignment and then the offset; a branch or call reads an index;
/// `call_indirect` reads the type index and then the table index; a block
/// reads 0x40 for no result or one value type; an arithmetic instruction
/// such as `i32.add` reads nothing.
pub proof fn lemma_instruction_immediates(s: Seq<u8>, p: int, a: u32, q: int, b: u32, r: int)
    requires
        0 <= p < s.len(),
    ensures
        s[p] == 0x41 ==> (spec_i32(s, p + 1) matches Ok((v, e)) ==> spec_instruction(s, p) == Ok::<((Opcode, ImmediateV), int), DecodeError>(((Opcode::I32Const, ImmediateV::I32(v)), e))),
        s[p] == 0x42 ==> (spec_i64(s, p + 1) matches Ok((v, e)) ==> spec_instruction(s, p) == Ok::<((Opcode, ImmediateV), int), DecodeError>(((Opcode::I64Const, ImmediateV::I64(v)), e))),
        (spec_u32(s, p + 1) == Ok::<(u32, int), DecodeError>((a, q)) && spec_u32(s, q) == Ok::<(u32, int), DecodeError>((b, r))) ==> {
            &&& s[p] == 0x28 ==> spec_instruction(s, p) == Ok::<((Opcode, ImmediateV), int), DecodeError>(((Opcode::I32Load, ImmediateV::MemArg(MemoryArg { align: a, offset: b })), r))
            &&& s[p] == 0x29 ==> spec_instruction(s, p) == Ok::<((Opcode, ImmediateV), int), DecodeError>(((Opcode::I64Load, ImmediateV::MemArg(MemoryArg { align: a, offset: b })), r))
            &&& s[p] == 0x2d ==> spec_instruction(s, p) == Ok::<((Opcode, ImmediateV), int), DecodeError>(((Opcode::I32Load8U, ImmediateV::MemArg(MemoryArg { align: a, offset: b })), r))
            &&& s[p] == 0x36 ==> spec_instruction(s, p) == Ok::<((Opcode, ImmediateV), int), DecodeError>(((Opcode::I32Store, ImmediateV::MemArg(MemoryArg { align: a, offset: b })), r))
            &&& s[p] == 0x3a ==> spec_instruction(s, p) == Ok::<((Opcode, ImmediateV), int), DecodeError>(((Opcode::I32Store8, ImmediateV::MemArg(MemoryArg { align: a, offset: b })), r))
            &&& s[p] == 0x11 ==> spec_instruction(s, p) == Ok::<((Opcode, ImmediateV), int), DecodeError>(((Opcode::CallIndirect, ImmediateV::TwoIndices(a, b)), r))
        },
        spec_u32(s, p + 1) == Ok::<(u32, int), DecodeError>((a, q)) ==> {
            &&& s[p] == 0x0c ==> spec_instruction(s, p) == Ok::<((Opcode, ImmediateV), int), DecodeError>(((Opcode::Br, ImmediateV::Index(a)), q))
            &&& s[p] == 0x0d ==> spec_instruction(s, p) == Ok::<((Opcode, ImmediateV), int), DecodeError>(((Opcode::BrIf, ImmediateV::Index(a)), q))
            &&& s[p] == 0x10 ==> spec_instruction(s, p) == Ok::<((Opcode, ImmediateV), int), DecodeError>(((Opcode::Call, ImmediateV::Index(a)), q))
            &&& s[p] == 0x20 ==> spec_instruction(s, p) == Ok::<((Opcode, ImmediateV), int), DecodeError>(((Opcode::LocalGet, ImmediateV::Index(a)), q))
            &&& s[p] == 0x21 ==> spec_instruction(s, p) == Ok::<((Opcode, ImmediateV), int), DecodeError>(((Opcode::LocalSet, ImmediateV::Index(a)), q))
            &&& s[p] == 0x23 ==> spec_instruction(s, p) == Ok::<((Opcode, ImmediateV), int), DecodeError>(((Opcode::GlobalGet, ImmediateV::Index(a)), q))
        },
        p + 1 < s.len() && s[p] == 0x02 && s[p + 1] == 0x40 ==> spec_instruction(s, p) == Ok::<((Opcode, ImmediateV), int), DecodeError>(((Opcode::Block, ImmediateV::BlockType(None)), p + 2)),
        p + 1 < s.len() && s[p] == 0x03 && s[p + 1] == 0x7f ==> spec_instruction(s, p) == Ok::<((Opcode, ImmediateV), int), DecodeError>(((Opcode::Loop, ImmediateV::BlockType(Some(seq![ValueType::I32]))), p + 2)),
        s[p] == 0x6a ==> spec_instruction(s, p) == Ok::<((Opcode, ImmediateV), int), DecodeError>(((Opcode::I32Add, ImmediateV::Nothing), p + 1)),
        s[p] == 0x1b ==> spec_instruction(s, p) == Ok::<((Opcode, ImmediateV), int), DecodeError>(((Opcode::Select, ImmediateV::Nothing), p + 1)),
{
}

/// The instructions from `p` to the end of `s`.
pub open spec fn spec_instructions_from(s: Seq<u8>, p: int) -> Result<
    (Seq<(Opcode, ImmediateV)>, int),
    DecodeError,
>
    decreases s.len() - p,
{
    if !(0 <= p < s.len()) {
        Ok((Seq::empty(), p))
    } else {
        match spec_instruction(s, p) {
            Ok((inst, q)) => if p < q <= s.len() {
                match spec_instructions_from(s, q) {
                    Ok((rest, r)) => Ok((seq![inst] + rest, r)),
                    Err(e) => Err(e),
                }
            } else {
                Err(DecodeError::UnexpectedEof)
            },
            Err(e) => Err(e),
        }
    }
}

pub open spec fn spec_local(s: Seq<u8>, p: int) -> Result<(FunctionLocal, int), DecodeError> {
    match spec_u32(s, p) {
        Ok((type_count, q)) => match spec_value_type(s, q) {
            Ok((value_type, r)) => Ok((FunctionLocal { type_count, value_type }, r)),
            Err(e) => Err(e),
        },
        Err(e) => Err(e),
    }
}

pub open spec fn local_item() -> spec_fn(Seq<u8>, int) -> Result<(FunctionLocal, int), DecodeError> {
    |s: Seq<u8>, p: int| spec_local(s, p)
}

/// A function body, all of `s`: the vector of local declarations, then
/// instructions up to the end.
pub open spec fn spec_function_body(s: Seq<u8>) -> Result<
    (Seq<FunctionLocal>, Seq<(Opcode, ImmediateV)>),
    DecodeError,
> {
    match spec_vec(local_item(), s, 0) {
        Ok((locals, p)) => match spec_instructions_from(s, p) {
            Ok((code, _)) => Ok((locals, code)),
            Err(e) => Err(e),
        },
        Err(e) => Err(e),
    }
}

/// An entry of the code section: the size of the body, then the body.
pub open spec fn spec_code(s: Seq<u8>, p: int) -> Result<
    ((Seq<FunctionLocal>, Seq<(Opcode, ImmediateV)>), int),
    DecodeError,
> {
    match spec_u32(s, p) {
        Ok((size, q)) => match spec_bytes(s, q, size as int) {
            Ok((body, r)) => match spec_function_body(body) {
                Ok(f) => Ok((f, r)),
                Err(e) => Err(e),
            },
            Err(e) => Err(e),
        },
        Err(e) => Err(e),
    }
}

pub open spec fn code_item() -> spec_fn(Seq<u8>, int) -> Result<
    ((Seq<FunctionLocal>, Seq<(Opcode, ImmediateV)>), int),
    DecodeError,
> {
    |s: Seq<u8>, p: int| spec_code(s, p)
}

/// The vector that a section holds, or the error of reading it.
pub open spec fn vec_section<T>(
    r: Result<(Seq<T>, int), DecodeError>,
    f: spec_fn(Seq<T>) -> SectionV,
) -> Result<SectionV, DecodeError> {
    match r {
        Ok((items, _)) => Ok(f(items)),
        Err(e) => Err(e),
    }
}

/// The section with the given id whose contents are `s`.
pub open spec fn spec_section(id: SectionID, s: Seq<u8>) -> Result<SectionV, DecodeError> {
    match id {
        SectionID::Custom => match spec_name(s, 0) {
            Ok((name, p)) => if 0 <= p <= s.len() {
                Ok(SectionV::Custom((name, s.subrange(p, s.len() as int))))
            } else {
                Err(DecodeError::UnexpectedEof)
            },
            Err(e) => Err(e),
        },
        SectionID::Type => vec_section(
            spec_vec(func_type_item(), s, 0),
            |v| SectionV::Type(v),
        ),
        SectionID::Import => vec_section(spec_vec(import_item(), s, 0), |v| SectionV::Import(v)),
        SectionID::Function => vec_section(spec_vec(u32_item(), s, 0), |v| SectionV::Function(v)),
        SectionID::Table => match spec_u32(s, 0) {
            Ok((n, p)) => if n != 1 {
                Err(DecodeError::InvalidTableCount)
            } else {
                vec_section(spec_repeat(table_item(), s, p, 1), |v| SectionV::Table(v))
            },
            Err(e) => Err(e),
        },
        SectionID::Memory => match spec_u32(s, 0) {
            Ok((n, p)) => if n != 1 {
                Err(DecodeError::InvalidMemoryCount)
            } else {
                vec_section(spec_repeat(memory_item(), s, p, 1), |v| SectionV::Memory(v))
            },
            Err(e) => Err(e),
        },
        SectionID::Global => vec_section(spec_vec(global_item(), s, 0), |v| SectionV::Global(v)),
        SectionID::Export => vec_section(spec_vec(export_item(), s, 0), |v| SectionV::Export(v)),
        SectionID::Start => match spec_u32(s, 0) {
            Ok((i, _)) => Ok(SectionV::Start(i)),
            Err(e) => Err(e),
        },
        SectionID::Element => vec_section(
            spec_vec(element_item(), s, 0),
            |v| SectionV::Element(v),
        ),
        SectionID::Data => vec_section(spec_vec(data_item(), s, 0), |v| SectionV::Data(v)),
        SectionID::Code => vec_section(spec_vec(code_item(), s, 0), |v| SectionV::Code(v)),
    }
}

/// How a decoding function's result relates to the grammar: an `Ok` value's
/// view and the reader's new position are what the grammar gives, and an
/// error is the grammar's error.
pub open spec fn decoded<T: View>(
    spec: Result<(T::V, int), DecodeError>,
    res: Result<T, DecodeError>,
    pos: int,
) -> bool {
    match res {
        Ok(v) => spec == Ok::<(T::V, int), DecodeError>((v@, pos)),
        Err(e) => spec == Err::<(T::V, int), DecodeError>(e),
    }
}

// ---------------------------------------------------------------------------
// Decoding, against the grammar above.

pub fn decode_value_type(reader: &mut SectionReader) -> (res: Result<ValueType, DecodeError>)
    ensures
        final(reader).data() == old(reader).data(),
        final(reader).position() >= old(reader).position(),
        decoded(spec_value_type(old(reader).data(), old(reader).position()), res, final(reader).position()),
{
    let b = reader.byte()?;
    match ValueType::from_byte(b) {
        Some(t) => Ok(t),
        None => Err(DecodeError::InvalidValueType(b)),
    }
}

/// A function type: 0x60, then the parameter and result types.
pub fn decode_func_type(reader: &mut SectionReader) -> (res: Result<FuncType, DecodeError>)
    ensures
        final(reader).data() == old(reader).data(),
        final(reader).position() >= old(reader).position(),
        decoded(spec_func_type(old(reader).data(), old(reader).position()), res, final(reader).position()),
{
    let func_type = reader.byte()?;
    if func_type != 0x60 {
        return Err(DecodeError::InvalidFuncType(func_type));
    }
    let params = decode_value_types(reader)?;
    let results = decode_value_types(reader)?;
    Ok(FuncType { params, results })
}

pub fn decode_limits(reader: &mut SectionReader) -> (res: Result<Limits, DecodeError>)
    ensures
        final(reader).data() == old(reader).data(),
        final(reader).position() >= old(reader).position(),
        decoded(spec_limits(old(reader).data(), old(reader).position()), res, final(reader).position()),
{
    let limits = reader.u32()?;
    let min = reader.u32()?;
    let max = if limits == 0x00 {
        None
    } else {
        let max = reader.u32()?;
        Some(max)
    };
    Ok(Limits { min, max })
}

pub fn decode_table(reader: &mut SectionReader) -> (res: Result<Table, DecodeError>)
    ensures
        final(reader).data() == old(reader).data(),
        final(reader).position() >= old(reader).position(),
        decoded(spec_table(old(reader).data(), old(reader).position()), res, final(reader).position()),
{
    let elem_type = reader.byte()?;
    if elem_type != 0x70 {
        return Err(DecodeError::InvalidElmType(elem_type));
    }
    let limits = decode_limits(reader)?;
    Ok(Table { elem_type: ElemType::FuncRef, limits })
}

pub fn decode_memory(reader: &mut SectionReader) -> (res: Result<Memory, DecodeError>)
    ensures
        final(reader).data() == old(reader).data(),
        final(reader).position() >= old(reader).position(),
        decoded(spec_memory(old(reader).data(), old(reader).position()), res, final(reader).position()),
{
    let limits = decode_limits(reader)?;
    Ok(Memory { limits })
}

pub fn decode_global_type(reader: &mut SectionReader) -> (res: Result<GlobalType, DecodeError>)
    ensures
        final(reader).data() == old(reader).data(),
        final(reader).position() >= old(reader).position(),
        decoded(spec_global_type(old(reader).data(), old(reader).position()), res, final(reader).position()),
{
    let value_type = reader.byte()?;
    let mutability = reader.byte()?;
    let value_type = match ValueType::from_byte(value_type) {
        Some(t) => t,
        None => return Err(DecodeError::InvalidValueType(value_type)),
    };
    let mutability = if mutability == 0 {
        Mutability::Const
    } else if mutability == 1 {
        Mutability::Var
    } else {
        return Err(DecodeError::InvalidMutability(mutability));
    };
    Ok(GlobalType { value_type, mutability })
}

/// A constant initializer expression.
pub fn decode_expr(reader: &mut SectionReader) -> (res: Result<ExprValue, DecodeError>)
    ensures
        final(reader).data() == old(reader).data(),
        final(reader).position() >= old(reader).position(),
        decoded(spec_expr(old(reader).data(), old(reader).position()), res, final(reader).position()),
{
    let byte = reader.byte()?;
    let value = if byte == 0x41 {
        ExprValue::I32(reader.i32()?)
    } else if byte == 0x42 {
        ExprValue::I64(reader.i64()?)
    } else if byte == 0x43 {
        ExprValue::F32(reader.f32_bits()?)
    } else if byte == 0x44 {
        ExprValue::F64(reader.f64_bits()?)
    } else {
        return Err(DecodeError::InvalidInitExprOpcode(byte));
    };
    let end_opcode = reader.byte()?;
    if end_opcode != 0x0b {
        return Err(DecodeError::InvalidInitExprEndOpcode(end_opcode));
    }
    Ok(value)
}

pub fn decode_global(reader: &mut SectionReader) -> (res: Result<Global, DecodeError>)
    ensures
        final(reader).data() == old(reader).data(),
        final(reader).position() >= old(reader).position(),
        decoded(spec_global(old(reader).data(), old(reader).position()), res, final(reader).position()),
{
    let global_type = decode_global_type(reader)?;
    let init_expr = decode_expr(reader)?;
    Ok(Global { global_type, init_expr })
}

pub fn decode_import(reader: &mut SectionReader) -> (res: Result<Import, DecodeError>)
    ensures
        final(reader).data() == old(reader).data(),
        final(reader).position() >= old(reader).position(),
        decoded(spec_import(old(reader).data(), old(reader).position()), res, final(reader).position()),
{
    let module = reader.name()?;
    let field = reader.name()?;
    let import_kind = reader.byte()?;
    let kind = if import_kind == 0x00 {
        ImportKind::Func(reader.u32()?)
    } else if import_kind == 0x01 {
        ImportKind::Table(decode_table(reader)?)
    } else if import_kind == 0x02 {
        ImportKind::Memory(decode_memory(reader)?)
    } else if import_kind == 0x03 {
        ImportKind::Global(decode_global_type(reader)?)
    } else {
        return Err(DecodeError::InvalidImportKind(import_kind));
    };
    Ok(Import { module, field, kind })
}

pub fn decode_export(reader: &mut SectionReader) -> (res: Result<Export, DecodeError>)
    ensures
        final(reader).data() == old(reader).data(),
        final(reader).position() >= old(reader).position(),
        decoded(spec_export(old(reader).data(), old(reader).position()), res, final(reader).position()),
{
    let name = reader.name()?;
    let export_kind = reader.byte()?;
    let idx = reader.u32()?;
    let desc = if export_kind == 0x00 {
        ExportDesc::Func(idx)
    } else if export_kind == 0x01 {
        ExportDesc::Table(idx)
    } else if export_kind == 0x02 {
        ExportDesc::Memory(idx)
    } else if export_kind == 0x03 {
        ExportDesc::Global(idx)
    } else {
        return Err(DecodeError::InvalidExportKind(export_kind));
    };
    Ok(Export { name, desc })
}

pub fn decode_element(reader: &mut SectionReader) -> (res: Result<Element, DecodeError>)
    ensures
        final(reader).data() == old(reader).data(),
        final(reader).position() >= old(reader).position(),
        decoded(spec_element(old(reader).data(), old(reader).position()), res, final(reader).position()),
{
    let table_index = reader.u32()?;
    let offset = decode_expr(reader)?;
    let init = decode_u32s(reader)?;
    Ok(Element { table_index, offset: Expr::Value(offset), init })
}

pub fn decode_data(reader: &mut SectionReader) -> (res: Result<Data, DecodeError>)
    ensures
        final(reader).data() == old(reader).data(),
        final(reader).position() >= old(reader).position(),
        decoded(spec_data(old(reader).data(), old(reader).position()), res, final(reader).position()),
{
    let memory_index = reader.u32()?;
    let offset = decode_expr(reader)?;
    let size = reader.u32()?;
    let init = reader.bytes(size as usize)?;
    Ok(Data { memory_index, offset: Expr::Value(offset), init })
}

pub fn decode_block_type(reader: &mut SectionReader) -> (res: Result<BlockType, DecodeError>)
    ensures
        final(reader).data() == old(reader).data(),
        final(reader).position() >= old(reader).position(),
        decoded(spec_block_type(old(reader).data(), old(reader).position()), res, final(reader).position()),
{
    let byte = reader.byte()?;
    if byte == 0x40 {
        Ok(BlockType::Empty)
    } else {
        match ValueType::from_byte(byte) {
            Some(t) => {
                let mut types = Vec::new();
                types.push(t);
                proof {
                    assert(types@ =~= seq![t]);
                }
                Ok(BlockType::Value(types))
            },
            None => Err(DecodeError::InvalidValueType(byte)),
        }
    }
}

/// A block: its block type. The instructions of the block follow it in the
/// flat sequence of the function body.
pub fn decode_block(reader: &mut SectionReader) -> (res: Result<Block, DecodeError>)
    ensures
        final(reader).data() == old(reader).data(),
        final(reader).position() >= old(reader).position(),
        match res {
            Ok(b) => spec_block_type(old(reader).data(), old(reader).position()) == Ok::<(Option<Seq<ValueType>>, int), DecodeError>((b.block_type@, final(reader).position())),
            Err(e) => spec_block_type(old(reader).data(), old(reader).position()) == Err::<(Option<Seq<ValueType>>, int), DecodeError>(e),
        },
{
    let block_type = decode_block_type(reader)?;
    Ok(Block { block_type })
}

pub fn read_memory_arg(reader: &mut SectionReader) -> (res: Result<MemoryArg, DecodeError>)
    ensures
        final(reader).data() == old(reader).data(),
        final(reader).position() >= old(reader).position(),
        match res {
            Ok(arg) => spec_immediate(ImmediateKind::MemArg, old(reader).data(), old(reader).position()) == Ok::<(ImmediateV, int), DecodeError>((ImmediateV::MemArg(arg), final(reader).position())),
            Err(e) => spec_immediate(ImmediateKind::MemArg, old(reader).data(), old(reader).position()) == Err::<(ImmediateV, int), DecodeError>(e),
        },
{
    let align = reader.u32()?;
    let offset = reader.u32()?;
    Ok(MemoryArg { align, offset })
}

/// The immediate of the given kind.
pub fn decode_immediate(kind: ImmediateKind, reader: &mut SectionReader) -> (res: Result<Immediate, DecodeError>)
    ensures
        final(reader).data() == old(reader).data(),
        final(reader).position() >= old(reader).position(),
        decoded(spec_immediate(kind, old(reader).data(), old(reader).position()), res, final(reader).position()),
        res matches Ok(imm) ==> crate::binary::instruction::immediate_has_kind(imm@, kind),
{
    match kind {
        ImmediateKind::Nothing => Ok(Immediate::Nothing),
        ImmediateKind::Index => Ok(Immediate::Index(reader.u32()?)),
        ImmediateKind::TwoIndices => {
            let a = reader.u32()?;
            let b = reader.u32()?;
            Ok(Immediate::TwoIndices(a, b))
        },
        ImmediateKind::BlockType => Ok(Immediate::BlockType(decode_block_type(reader)?)),
        ImmediateKind::LabelTable => {
            let labels = decode_u32s(reader)?;
            let default = reader.u32()?;
            Ok(Immediate::LabelTable(labels, default))
        },
        ImmediateKind::MemArg => Ok(Immediate::MemArg(read_memory_arg(reader)?)),
        ImmediateKind::MemIndex => {
            // NOTE: memory index is always 0 now
            let _ = reader.byte();
            Ok(Immediate::MemIndex)
        },
        ImmediateKind::I32 => Ok(Immediate::I32(reader.i32()?)),
        ImmediateKind::I64 => Ok(Immediate::I64(reader.i64()?)),
        ImmediateKind::F32 => Ok(Immediate::F32(reader.f32_bits()?)),
        ImmediateKind::F64 => Ok(Immediate::F64(reader.f64_bits()?)),
    }
}

/// One instruction: its opcode, then its immediate.
pub fn decode_instruction(reader: &mut SectionReader) -> (res: Result<Instruction, DecodeError>)
    ensures
        final(reader).data() == old(reader).data(),
        final(reader).position() >= old(reader).position(),
        decoded(spec_instruction(old(reader).data(), old(reader).position()), res, final(reader).position()),
        res is Ok ==> old(reader).position() < final(reader).position() <= final(reader).data().len(),
{
    let _ = reader.remaining();
    let op = reader.byte()?;
    let op = match Opcode::from_u8(op) {
        Some(opcode) => opcode,
        None => return Err(DecodeError::InvalidOpcode(op)),
    };
    let imm = decode_immediate(op.immediate_kind(), reader)?;
    let _ = reader.remaining();
    Ok(make_instruction(op, imm))
}

/// A function body: the local declarations, then the instructions up to the
/// end of the body.
pub fn decode_function_body(reader: &mut SectionReader) -> (res: Result<FunctionBody, DecodeError>)
    requires
        old(reader).position() == 0,
    ensures
        match res {
            Ok(body) => spec_function_body(old(reader).data()) == Ok::<(Seq<FunctionLocal>, Seq<(Opcode, ImmediateV)>), DecodeError>(body@),
            Err(e) => spec_function_body(old(reader).data()) == Err::<(Seq<FunctionLocal>, Seq<(Opcode, ImmediateV)>), DecodeError>(e),
        },
{
    let ghost s = reader.data();
    let locals = decode_locals(reader)?;
    let ghost p0 = reader.position();
    let mut code: Vec<Instruction> = Vec::new();
    assert(code@.map_values(|i: Instruction| i@) =~= Seq::empty());
    assert(prepend(Seq::empty(), spec_instructions_from(s, p0)) == spec_instructions_from(s, p0));
    let _ = reader.remaining();
    while reader.is_end()
        invariant
            reader.data() == s,
            s == old(reader).data(),
            old(reader).position() == 0,
            spec_vec(local_item(), s, 0) == Ok::<(Seq<FunctionLocal>, int), DecodeError>((locals@, p0)),
            0 <= reader.position() <= s.len(),
            spec_instructions_from(s, p0) == prepend(
                code@.map_values(|i: Instruction| i@),
                spec_instructions_from(s, reader.position()),
            ),
        decreases s.len() - reader.position(),
    {
        let ghost pos = reader.position();
        let inst = decode_instruction(reader)?;
        let ghost before = code@;
        code.push(inst);
        proof {
            assert(code@.map_values(|i: Instruction| i@) =~= before.map_values(|i: Instruction| i@).push(inst@));
            let rest = spec_instructions_from(s, reader.position());
            match rest {
                Ok((r, e)) => {
                    assert(before.map_values(|i: Instruction| i@) + (seq![inst@] + r) =~= before.map_values(|i: Instruction| i@).push(inst@) + r);
                },
                Err(_) => {},
            }
        }
    }
    Ok(FunctionBody { locals, code })
}

/// A prefix put before the items of a successful result.
pub open spec fn prepend<T>(prefix: Seq<T>, r: Result<(Seq<T>, int), DecodeError>) -> Result<(Seq<T>, int), DecodeError> {
    match r {
        Ok((items, e)) => Ok((prefix + items, e)),
        Err(e) => Err(e),
    }
}

/// An entry of the code section: the size of the body, then the body.
pub fn decode_code(reader: &mut SectionReader) -> (res: Result<FunctionBody, DecodeError>)
    ensures
        final(reader).data() == old(reader).data(),
        final(reader).position() >= old(reader).position(),
        decoded(spec_code(old(reader).data(), old(reader).position()), res, final(reader).position()),
{
    let func_body_size = reader.u32()?;
    let bytes = reader.bytes(func_body_size as usize)?;
    let mut body = SectionReader::new(bytes.as_slice());
    decode_function_body(&mut body)
}

/// A custom section: a name, then the rest of the section as data.
pub fn decode_custom_section(reader: &mut SectionReader) -> (res: Result<Section, DecodeError>)
    requires
        old(reader).position() == 0,
    ensures
        section_decoded(spec_section(SectionID::Custom, old(reader).data()), res),
{
    let name = reader.name()?;
    let rest = reader.remaining();
    let data = reader.bytes(rest)?;
    Ok(Section::Custom(Custom { name, data }))
}

pub fn decode_start_section(reader: &mut SectionReader) -> (res: Result<Section, DecodeError>)
    requires
        old(reader).position() == 0,
    ensures
        section_decoded(spec_section(SectionID::Start, old(reader).data()), res),
{
    let index = reader.u32()?;
    Ok(Section::Start(index))
}

/// Decodes the section with the given id from its contents.
pub fn decode(id: SectionID, data: &[u8]) -> (res: Result<Section, DecodeError>)
    ensures
        section_decoded(spec_section(id, data@), res),
{
    let mut reader = SectionReader::new(data);
    match id {
        SectionID::Custom => decode_custom_section(&mut reader),
        SectionID::Type => decode_type_section(&mut reader),
        SectionID::Import => decode_import_section(&mut reader),
        SectionID::Function => decode_function_section(&mut reader),
        SectionID::Table => decode_table_section(&mut reader),
        SectionID::Memory => decode_memory_section(&mut reader),
        SectionID::Global => decode_global_section(&mut reader),
        SectionID::Export => decode_export_section(&mut reader),
        SectionID::Start => decode_start_section(&mut reader),
        SectionID::Element => decode_element_section(&mut reader),
        SectionID::Data => decode_data_section(&mut reader),
        SectionID::Code => decode_code_section(&mut reader),
    }
}

/// How a section decoder's result relates to the grammar.
pub open spec fn section_decoded(spec: Result<SectionV, DecodeError>, res: Result<Section, DecodeError>) -> bool {
    match res {
        Ok(sec) => spec == Ok::<SectionV, DecodeError>(sec@),
        Err(e) => spec == Err::<SectionV, DecodeError>(e),
    }
}

/// A vector of value types.
fn decode_value_types(reader: &mut SectionReader) -> (res: Result<Vec<ValueType>, DecodeError>)
    ensures
        final(reader).data() == old(reader).data(),
        final(reader).position() >= old(reader).position(),
        match res {
            Ok(v) => spec_vec(value_type_item(), old(reader).data(), old(reader).position()) == Ok::<(Seq<ValueType>, int), DecodeError>((v@, final(reader).position())),
            Err(e) => spec_vec(value_type_item(), old(reader).data(), old(reader).position()) == Err::<(Seq<ValueType>, int), DecodeError>(e),
        },
{
    let ghost s = reader.data();
    let n = reader.u32()?;
    let ghost p0 = reader.position();
    let mut items: Vec<ValueType> = Vec::new();
    let mut i: u32 = 0;
    while i < n
        invariant
            reader.data() == s,
            s == old(reader).data(),
            spec_u32(s, old(reader).position()) == Ok::<(u32, int), DecodeError>((n, p0)),
            reader.position() >= old(reader).position(),
            i <= n,
            spec_repeat(value_type_item(), s, p0, i as nat) == Ok::<(Seq<ValueType>, int), DecodeError>((items@, reader.position())),
        decreases n - i,
    {
        let x = match decode_value_type(reader) {
            Ok(x) => x,
            Err(e) => {
                proof {
                    lemma_repeat_err(value_type_item(), s, p0, (i + 1) as nat, n as nat);
                }
                return Err(e);
            },
        };
        items.push(x);
        i = i + 1;
    }
    Ok(items)
}

/// A vector of unsigned LEB128 numbers that fit in 32 bits.
pub fn decode_u32s(reader: &mut SectionReader) -> (res: Result<Vec<u32>, DecodeError>)
    ensures
        final(reader).data() == old(reader).data(),
        final(reader).position() >= old(reader).position(),
        match res {
            Ok(v) => spec_vec(u32_item(), old(reader).data(), old(reader).position()) == Ok::<(Seq<u32>, int), DecodeError>((v@, final(reader).position())),
            Err(e) => spec_vec(u32_item(), old(reader).data(), old(reader).position()) == Err::<(Seq<u32>, int), DecodeError>(e),
        },
{
    let ghost s = reader.data();
    let n = reader.u32()?;
    let ghost p0 = reader.position();
    let mut items: Vec<u32> = Vec::new();
    let mut i: u32 = 0;
    while i < n
        invariant
            reader.data() == s,
            s == old(reader).data(),
            spec_u32(s, old(reader).position()) == Ok::<(u32, int), DecodeError>((n, p0)),
            reader.position() >= old(reader).position(),
            i <= n,
            spec_repeat(u32_item(), s, p0, i as nat) == Ok::<(Seq<u32>, int), DecodeError>((items@, reader.position())),
        decreases n - i,
    {
        let x = match reader.u32() {
            Ok(x) => x,
            Err(e) => {
                proof {
                    lemma_repeat_err(u32_item(), s, p0, (i + 1) as nat, n as nat);
                }
                return Err(e);
            },
        };
        items.push(x);
        i = i + 1;
    }
    Ok(items)
}

/// A vector of local declarations.
fn decode_locals(reader: &mut SectionReader) -> (res: Result<Vec<FunctionLocal>, DecodeError>)
    ensures
        final(reader).data() == old(reader).data(),
        final(reader).position() >= old(reader).position(),
        match res {
            Ok(v) => spec_vec(local_item(), old(reader).data(), old(reader).position()) == Ok::<(Seq<FunctionLocal>, int), DecodeError>((v@, final(reader).position())),
            Err(e) => spec_vec(local_item(), old(reader).data(), old(reader).position()) == Err::<(Seq<FunctionLocal>, int), DecodeError>(e),
        },
{
    let ghost s = reader.data();
    let n = reader.u32()?;
    let ghost p0 = reader.position();
    let mut items: Vec<FunctionLocal> = Vec::new();
    let mut i: u32 = 0;
    while i < n
        invariant
            reader.data() == s,
            s == old(reader).data(),
            spec_u32(s, old(reader).position()) == Ok::<(u32, int), DecodeError>((n, p0)),
            reader.position() >= old(reader).position(),
            i <= n,
            spec_repeat(local_item(), s, p0, i as nat) == Ok::<(Seq<FunctionLocal>, int), DecodeError>((items@, reader.position())),
        decreases n - i,
    {
        let x = match decode_local(reader) {
            Ok(x) => x,
            Err(e) => {
                proof {
                    lemma_repeat_err(local_item(), s, p0, (i + 1) as nat, n as nat);
                }
                return Err(e);
            },
        };
        items.push(x);
        i = i + 1;
    }
    Ok(items)
}

/// The type section: a vector of function types.
pub fn decode_type_section(reader: &mut SectionReader) -> (res: Result<Section, DecodeError>)
    requires
        old(reader).position() == 0,
    ensures
        section_decoded(spec_section(SectionID::Type, old(reader).data()), res),
{
    let ghost s = reader.data();
    let n = reader.u32()?;
    let ghost p0 = reader.position();
    let mut items: Vec<FuncType> = Vec::new();
    let mut i: u32 = 0;
    assert(views(items@) =~= Seq::empty());
    while i < n
        invariant
            reader.data() == s,
            s == old(reader).data(),
            spec_u32(s, old(reader).position()) == Ok::<(u32, int), DecodeError>((n, p0)),
            old(reader).position() == 0,
            reader.position() >= old(reader).position(),
            i <= n,
            spec_repeat(func_type_item(), s, p0, i as nat) == Ok::<(Seq<(Seq<ValueType>, Seq<ValueType>)>, int), DecodeError>((views(items@), reader.position())),
        decreases n - i,
    {
        let x = match decode_func_type(reader) {
            Ok(x) => x,
            Err(e) => {
                proof {
                    lemma_repeat_err(func_type_item(), s, p0, (i + 1) as nat, n as nat);
                }
                return Err(e);
            },
        };
        let ghost before = items@;
        items.push(x);
        proof {
            assert(views(items@) =~= views(before).push(x@));
        }
        i = i + 1;
    }
    Ok(Section::Type(items))
}

/// The import section: a vector of imports.
pub fn decode_import_section(reader: &mut SectionReader) -> (res: Result<Section, DecodeError>)
    requires
        old(reader).position() == 0,
    ensures
        section_decoded(spec_section(SectionID::Import, old(reader).data()), res),
{
    let ghost s = reader.data();
    let n = reader.u32()?;
    let ghost p0 = reader.position();
    let mut items: Vec<Import> = Vec::new();
    let mut i: u32 = 0;
    assert(views(items@) =~= Seq::empty());
    while i < n
        invariant
            reader.data() == s,
            s == old(reader).data(),
            spec_u32(s, old(reader).position()) == Ok::<(u32, int), DecodeError>((n, p0)),
            old(reader).position() == 0,
            reader.position() >= old(reader).position(),
            i <= n,
            spec_repeat(import_item(), s, p0, i as nat) == Ok::<(Seq<(Seq<char>, Seq<char>, ImportKind)>, int), DecodeError>((views(items@), reader.position())),
        decreases n - i,
    {
        let x = match decode_import(reader) {
            Ok(x) => x,
            Err(e) => {
                proof {
                    lemma_repeat_err(import_item(), s, p0, (i + 1) as nat, n as nat);
                }
                return Err(e);
            },
        };
        let ghost before = items@;
        items.push(x);
        proof {
            assert(views(items@) =~= views(before).push(x@));
        }
        i = i + 1;
    }
    Ok(Section::Import(items))
}

/// The function section: a vector of type indices.
pub fn decode_function_section(reader: &mut SectionReader) -> (res: Result<Section, DecodeError>)
    requires
        old(reader).position() == 0,
    ensures
        section_decoded(spec_section(SectionID::Function, old(reader).data()), res),
{
    let ghost s = reader.data();
    let n = reader.u32()?;
    let ghost p0 = reader.position();
    let mut items: Vec<u32> = Vec::new();
    let mut i: u32 = 0;
    while i < n
        invariant
            reader.data() == s,
            s == old(reader).data(),
            spec_u32(s, old(reader).position()) == Ok::<(u32, int), DecodeError>((n, p0)),
            old(reader).position() == 0,
            reader.position() >= old(reader).position(),
            i <= n,
            spec_repeat(u32_item(), s, p0, i as nat) == Ok::<(Seq<u32>, int), DecodeError>((items@, reader.position())),
        decreases n - i,
    {
        let x = match reader.u32() {
            Ok(x) => x,
            Err(e) => {
                proof {
                    lemma_repeat_err(u32_item(), s, p0, (i + 1) as nat, n as nat);
                }
                return Err(e);
            },
        };
        items.push(x);
        i = i + 1;
    }
    Ok(Section::Function(items))
}

/// The table section: exactly one table.
pub fn decode_table_section(reader: &mut SectionReader) -> (res: Result<Section, DecodeError>)
    requires
        old(reader).position() == 0,
    ensures
        section_decoded(spec_section(SectionID::Table, old(reader).data()), res),
{
    let ghost s = reader.data();
    let n = reader.u32()?;
    if n != 1 {
        return Err(DecodeError::InvalidTableCount);
    }
    let ghost p0 = reader.position();
    let mut items: Vec<Table> = Vec::new();
    let mut i: u32 = 0;
    while i < n
        invariant
            reader.data() == s,
            s == old(reader).data(),
            spec_u32(s, old(reader).position()) == Ok::<(u32, int), DecodeError>((n, p0)),
            old(reader).position() == 0,
            n == 1,
            reader.position() >= old(reader).position(),
            i <= n,
            spec_repeat(table_item(), s, p0, i as nat) == Ok::<(Seq<Table>, int), DecodeError>((items@, reader.position())),
        decreases n - i,
    {
        let x = match decode_table(reader) {
            Ok(x) => x,
            Err(e) => {
                proof {
                    lemma_repeat_err(table_item(), s, p0, (i + 1) as nat, n as nat);
                }
                return Err(e);
            },
        };
        items.push(x);
        i = i + 1;
    }
    Ok(Section::Table(items))
}

/// The memory section: exactly one memory.
pub fn decode_memory_section(reader: &mut SectionReader) -> (res: Result<Section, DecodeError>)
    requires
        old(reader).position() == 0,
    ensures
        section_decoded(spec_section(SectionID::Memory, old(reader).data()), res),
{
    let ghost s = reader.data();
    let n = reader.u32()?;
    if n != 1 {
        return Err(DecodeError::InvalidMemoryCount);
    }
    let ghost p0 = reader.position();
    let mut items: Vec<Memory> = Vec::new();
    let mut i: u32 = 0;
    while i < n
        invariant
            reader.data() == s,
            s == old(reader).data(),
            spec_u32(s, old(reader).position()) == Ok::<(u32, int), DecodeError>((n, p0)),
            old(reader).position() == 0,
            n == 1,
            reader.position() >= old(reader).position(),
            i <= n,
            spec_repeat(memory_item(), s, p0, i as nat) == Ok::<(Seq<Memory>, int), DecodeError>((items@, reader.position())),
        decreases n - i,
    {
        let x = match decode_memory(reader) {
            Ok(x) => x,
            Err(e) => {
                proof {
                    lemma_repeat_err(memory_item(), s, p0, (i + 1) as nat, n as nat);
                }
                return Err(e);
            },
        };
        items.push(x);
        i = i + 1;
    }
    Ok(Section::Memory(items))
}

/// The global section: a vector of globals.
pub fn decode_global_section(reader: &mut SectionReader) -> (res: Result<Section, DecodeError>)
    requires
        old(reader).position() == 0,
    ensures
        section_decoded(spec_section(SectionID::Global, old(reader).data()), res),
{
    let ghost s = reader.data();
    let n = reader.u32()?;
    let ghost p0 = reader.position();
    let mut items: Vec<Global> = Vec::new();
    let mut i: u32 = 0;
    while i < n
        invariant
            reader.data() == s,
            s == old(reader).data(),
            spec_u32(s, old(reader).position()) == Ok::<(u32, int), DecodeError>((n, p0)),
            old(reader).position() == 0,
            reader.position() >= old(reader).position(),
            i <= n,
            spec_repeat(global_item(), s, p0, i as nat) == Ok::<(Seq<Global>, int), DecodeError>((items@, reader.position())),
        decreases n - i,
    {
        let x = match decode_global(reader) {
            Ok(x) => x,
            Err(e) => {
                proof {
                    lemma_repeat_err(global_item(), s, p0, (i + 1) as nat, n as nat);
                }
                return Err(e);
            },
        };
        items.push(x);
        i = i + 1;
    }
    Ok(Section::Global(items))
}

/// The export section: a vector of exports.
pub fn decode_export_section(reader: &mut SectionReader) -> (res: Result<Section, DecodeError>)
    requires
        old(reader).position() == 0,
    ensures
        section_decoded(spec_section(SectionID::Export, old(reader).data()), res),
{
    let ghost s = reader.data();
    let n = reader.u32()?;
    let ghost p0 = reader.position();
    let mut items: Vec<Export> = Vec::new();
    let mut i: u32 = 0;
    assert(views(items@) =~= Seq::empty());
    while i < n
        invariant
            reader.data() == s,
            s == old(reader).data(),
            spec_u32(s, old(reader).position()) == Ok::<(u32, int), DecodeError>((n, p0)),
            old(reader).position() == 0,
            reader.position() >= old(reader).position(),
            i <= n,
            spec_repeat(export_item(), s, p0, i as nat) == Ok::<(Seq<(Seq<char>, ExportDesc)>, int), DecodeError>((views(items@), reader.position())),
        decreases n - i,
    {
        let x = match decode_export(reader) {
            Ok(x) => x,
            Err(e) => {
                proof {
                    lemma_repeat_err(export_item(), s, p0, (i + 1) as nat, n as nat);
                }
                return Err(e);
            },
        };
        let ghost before = items@;
        items.push(x);
        proof {
            assert(views(items@) =~= views(before).push(x@));
        }
        i = i + 1;
    }
    Ok(Section::Export(items))
}

/// The element section: a vector of element segments.
pub fn decode_element_section(reader: &mut SectionReader) -> (res: Result<Section, DecodeError>)
    requires
        old(reader).position() == 0,
    ensures
        section_decoded(spec_section(SectionID::Element, old(reader).data()), res),
{
    let ghost s = reader.data();
    let n = reader.u32()?;
    let ghost p0 = reader.position();
    let mut items: Vec<Element> = Vec::new();
    let mut i: u32 = 0;
    assert(views(items@) =~= Seq::empty());
    while i < n
        invariant
            reader.data() == s,
            s == old(reader).data(),
            spec_u32(s, old(reader).position()) == Ok::<(u32, int), DecodeError>((n, p0)),
            old(reader).position() == 0,
            reader.position() >= old(reader).position(),
            i <= n,
            spec_repeat(element_item(), s, p0, i as nat) == Ok::<(Seq<(u32, Expr, Seq<u32>)>, int), DecodeError>((views(items@), reader.position())),
        decreases n - i,
    {
        let x = match decode_element(reader) {
            Ok(x) => x,
            Err(e) => {
                proof {
                    lemma_repeat_err(element_item(), s, p0, (i + 1) as nat, n as nat);
                }
                return Err(e);
            },
        };
        let ghost before = items@;
        items.push(x);
        proof {
            assert(views(items@) =~= views(before).push(x@));
        }
        i = i + 1;
    }
    Ok(Section::Element(items))
}

/// The data section: a vector of data segments.
pub fn decode_data_section(reader: &mut SectionReader) -> (res: Result<Section, DecodeError>)
    requires
        old(reader).position() == 0,
    ensures
        section_decoded(spec_section(SectionID::Data, old(reader).data()), res),
{
    let ghost s = reader.data();
    let n = reader.u32()?;
    let ghost p0 = reader.position();
    let mut items: Vec<Data> = Vec::new();
    let mut i: u32 = 0;
    assert(views(items@) =~= Seq::empty());
    while i < n
        invariant
            reader.data() == s,
            s == old(reader).data(),
            spec_u32(s, old(reader).position()) == Ok::<(u32, int), DecodeError>((n, p0)),
            old(reader).position() == 0,
            reader.position() >= old(reader).position(),
            i <= n,
            spec_repeat(data_item(), s, p0, i as nat) == Ok::<(Seq<(u32, Expr, Seq<u8>)>, int), DecodeError>((views(items@), reader.position())),
        decreases n - i,
    {
        let x = match decode_data(reader) {
            Ok(x) => x,
            Err(e) => {
                proof {
                    lemma_repeat_err(data_item(), s, p0, (i + 1) as nat, n as nat);
                }
                return Err(e);
            },
        };
        let ghost before = items@;
        items.push(x);
        proof {
            assert(views(items@) =~= views(before).push(x@));
        }
        i = i + 1;
    }
    Ok(Section::Data(items))
}

/// The code section: a vector of function bodies, each with its size before it.
pub fn decode_code_section(reader: &mut SectionReader) -> (res: Result<Section, DecodeError>)
    requires
        old(reader).position() == 0,
    ensures
        section_decoded(spec_section(SectionID::Code, old(reader).data()), res),
{
    let ghost s = reader.data();
    let n = reader.u32()?;
    let ghost p0 = reader.position();
    let mut items: Vec<FunctionBody> = Vec::new();
    let mut i: u32 = 0;
    assert(views(items@) =~= Seq::empty());
    while i < n
        invariant
            reader.data() == s,
            s == old(reader).data(),
            spec_u32(s, old(reader).position()) == Ok::<(u32, int), DecodeError>((n, p0)),
            old(reader).position() == 0,
            reader.position() >= old(reader).position(),
            i <= n,
            spec_repeat(code_item(), s, p0, i as nat) == Ok::<(Seq<(Seq<FunctionLocal>, Seq<(Opcode, ImmediateV)>)>, int), DecodeError>((views(items@), reader.position())),
        decreases n - i,
    {
        let x = match decode_code(reader) {
            Ok(x) => x,
            Err(e) => {
                proof {
                    lemma_repeat_err(code_item(), s, p0, (i + 1) as nat, n as nat);
                }
                return Err(e);
            },
        };
        let ghost before = items@;
        items.push(x);
        proof {
            assert(views(items@) =~= views(before).push(x@));
        }
        i = i + 1;
    }
    Ok(Section::Code(items))
}

fn decode_local(reader: &mut SectionReader) -> (res: Result<FunctionLocal, DecodeError>)
    ensures
        final(reader).data() == old(reader).data(),
        final(reader).position() >= old(reader).position(),
        decoded(spec_local(old(reader).data(), old(reader).position()), res, final(reader).position()),
{
    let type_count = reader.u32()?;
    let value_type = decode_value_type(reader)?;
    Ok(FunctionLocal { type_count, value_type })
}

} // verus!
