use vstd::prelude::*;

verus! {

/// Traps and other errors of execution.
#[derive(Debug, Clone, Copy, PartialEq, Eq, Structural)]
pub enum RuntimeError {
    IntegerDivideByZero,
    IntegerOverflow,
    DivisionOverflow,
    StackPopError,
    MemorySizeNotPageAligned(u32),
    /// the limit of pages, and the number of pages that was asked for
    MemoryPageOverflow(u32, u64),
    UnexpectedStackValueType,
    NotFoundLocalVariable(usize),
    NotFoundGlobalVariable(usize),
    NoImports,
    NotFoundInstruction(usize),
    NotFoundLabel(usize),
    NotFoundStartPc,
    NotFoundExportedFunction(u32),
    NotFoundMemory(usize),
    InvalidBrTableIndex(usize),
    NotFoundFunction(usize),
    NotFoundTable(usize),
    UndefinedElement,
    UninitializedElement(usize),
    NotFoundFuncType(usize),
    TypeMismatchIndirectCall,
    NotFoundTypeSection,
    /// an access outside the bytes of a memory
    OutOfBoundsMemoryAccess,
    /// the `unreachable` instruction was executed
    Unreachable,
    /// the call stack is empty
    CallStackEmpty,
    /// a frame or label refers past the top of the value stack
    StackUnderflow,
    /// no export has the name that was asked for
    NotFoundExport,
    /// an export is not of the kind that was asked for
    InvalidExportDesc,
    /// the module has imports, but no importer was given
    NoImporters,
    /// no importer has the module name of an import
    NotFoundImportModule,
    /// the code and function sections differ in length
    CodeSectionLengthMismatch,
    /// a table offset or a data segment does not fit
    DataTooLarge,
    /// an offset expression refers to a global that does not exist
    NotFoundOffsetGlobal,
    /// an offset expression does not give an i32
    InvalidOffsetType,
    /// a label was needed, but the frame has none
    LabelPopError,
    /// a float that is NaN was converted to an integer
    InvalidConversionToInteger,
}

/// The kinds of shared state that the runtime can fail to lock.
#[derive(Debug, Clone, Copy, PartialEq, Eq, Structural)]
pub enum Resource {
    Global,
    Memory,
    Store,
    Table,
}

} // verus!
