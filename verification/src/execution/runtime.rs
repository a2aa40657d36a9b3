//! The interpreter: a step function over the stack, the frames and the store,
//! whose floating-point arithmetic and calls of imported functions are handed
//! to the host.
//! <https://www.w3.org/TR/wasm-core-1/#execution%E2%91%A1>
use super::error::RuntimeError;
use super::eval::{
    binary_result, exec_binary_result, exec_is_binary_op, exec_is_load_op, exec_is_store_op,
    exec_is_unary_op, exec_load, exec_store, exec_store_operand_ok, exec_unary_result, is_binary_op,
    is_load_op, is_store_op, is_unary_op, load_value, store_operand_ok, store_result, unary_result,
};
use super::integer::unsigned_i32;
use super::module::{
    export_lookup, func_inst_type, lemma_grow_keeps_bytes, page_limit, spec_grow, spec_pages, FuncInst, FuncInstV, InternalGlobalInst,
    InternalMemoryInst,
};
use super::op::{
    br, get_else_or_end_address, get_end_address, lemma_scan_else_or_end_found, lemma_scan_end_found, global_get, global_set, local_get, local_set, local_tee, push_frame,
    scan_else_or_end, scan_end, spec_br, spec_enter, spec_set_local, spec_unwind, stack_unwind, zero_of, zeros_of,
    FrameV,
};
use super::store::{importer_views, spec_load_store, Importer, LoadError, Store, StoreV};
use super::value::{lemma_unsigned_i32, ExternalVal, Frame, Label, LabelKind, Value};
use crate::binary::instruction::{ImmediateV, Instruction, MemoryArg, Opcode};
use crate::binary::types::{value_types_equal, views, ValueType};
use vstd::prelude::*;

verus! {

broadcast use super::op::lemma_push_drop_last;

/// What a step of the interpreter ends in.
#[derive(Debug)]
pub enum Step {
    /// there is more to run
    Continue,
    /// no frame is left to run
    Finished,
    /// the instruction trapped; it changed nothing but the pc (a call that
    /// cannot start leaves its arguments on the stack)
    Trap(RuntimeError),
    /// a floating-point instruction, with its operands, which were popped:
    /// the host computes it and pushes the result with `resume`
    Float(Opcode, Vec<Value>),
    /// a call of an imported function, by module and name, with its
    /// arguments, which were popped: the host calls it and pushes its results
    /// with `resume`
    Call(String, String, Vec<Value>),
}

pub enum StepV {
    Continue,
    Finished,
    Trap(RuntimeError),
    Float(Opcode, Seq<Value>),
    Call(Seq<char>, Seq<char>, Seq<Value>),
}

impl View for Step {
    type V = StepV;

    open spec fn view(&self) -> StepV {
        match self {
            Step::Continue => StepV::Continue,
            Step::Finished => StepV::Finished,
            Step::Trap(e) => StepV::Trap(*e),
            Step::Float(op, args) => StepV::Float(*op, args@),
            Step::Call(module, field, args) => StepV::Call(module@, field@, args@),
        }
    }
}

#[derive(Debug, Default)]
pub struct Runtime {
    pub store: Store,
    pub stack: Vec<Value>,
    pub call_stack: Vec<Frame>,
    pub start: Option<usize>,
}

/// The state of the interpreter.
pub struct RuntimeV {
    pub store: StoreV,
    pub stack: Seq<Value>,
    pub frames: Seq<FrameV>,
}

impl View for Runtime {
    type V = RuntimeV;

    open spec fn view(&self) -> RuntimeV {
        RuntimeV { store: self.store@, stack: self.stack@, frames: views(self.call_stack@) }
    }
}

// Pieces of state.

pub open spec fn with_stack(s: RuntimeV, stack: Seq<Value>) -> RuntimeV {
    RuntimeV { store: s.store, stack, frames: s.frames }
}

pub open spec fn with_frames(s: RuntimeV, frames: Seq<FrameV>) -> RuntimeV {
    RuntimeV { store: s.store, stack: s.stack, frames }
}

/// The state with its top frame replaced.
pub open spec fn with_top(s: RuntimeV, f: FrameV) -> RuntimeV {
    with_frames(s, s.frames.drop_last().push(f))
}

pub open spec fn with_globals(s: RuntimeV, globals: Seq<InternalGlobalInst>) -> RuntimeV {
    RuntimeV { store: StoreV { globals, ..s.store }, stack: s.stack, frames: s.frames }
}

pub open spec fn with_memory(s: RuntimeV, memory: Seq<(Seq<u8>, Option<u32>)>) -> RuntimeV {
    RuntimeV { store: StoreV { memory, ..s.store }, stack: s.stack, frames: s.frames }
}

pub open spec fn frame_at(f: FrameV, pc: isize, labels: Seq<Label>) -> FrameV {
    FrameV { pc, sp: f.sp, insts: f.insts, arity: f.arity, locals: f.locals, labels }
}

pub open spec fn frame_with_locals(f: FrameV, locals: Seq<Value>) -> FrameV {
    FrameV { pc: f.pc, sp: f.sp, insts: f.insts, arity: f.arity, locals, labels: f.labels }
}

pub open spec fn cont(s: RuntimeV) -> (RuntimeV, StepV) {
    (s, StepV::Continue)
}

pub open spec fn trap(s: RuntimeV, e: RuntimeError) -> (RuntimeV, StepV) {
    (s, StepV::Trap(e))
}

/// Whether an integer value is not zero.
pub open spec fn truthy(v: Value) -> bool {
    match v {
        Value::I32(x) => x != 0,
        Value::I64(x) => x != 0,
        _ => false,
    }
}

/// The number of results of a block type.
pub open spec fn block_arity(imm: ImmediateV) -> nat {
    match imm {
        ImmediateV::BlockType(Some(types)) => types.len(),
        _ => 0,
    }
}

// Control instructions.

/// `block` and `loop`: a label up to the matching `end`; a branch to a loop's
/// label goes back to the loop.
pub open spec fn spec_block(s: RuntimeV, kind: LabelKind, imm: ImmediateV) -> (RuntimeV, StepV) {
    let f = s.frames.last();
    match scan_end(f.insts, f.pc + 1, 0) {
        Err(e) => trap(s, e),
        Ok(end) => cont(
            with_top(
                s,
                frame_at(
                    f,
                    f.pc,
                    f.labels.push(
                        Label {
                            kind,
                            start: if kind == LabelKind::Loop { Some(f.pc) } else { None },
                            pc: end,
                            sp: s.stack.len() as usize,
                            arity: block_arity(imm) as usize,
                        },
                    ),
                ),
            ),
        ),
    }
}

/// `if`: pops the condition; when it is false, goes on after the `else`, or
/// at the `end` when there is none.
pub open spec fn spec_if(s: RuntimeV, imm: ImmediateV) -> (RuntimeV, StepV) {
    let f = s.frames.last();
    if s.stack.len() == 0 {
        trap(s, RuntimeError::StackPopError)
    } else if !(s.stack.last() is I32 || s.stack.last() is I64) {
        trap(s, RuntimeError::UnexpectedStackValueType)
    } else {
        match scan_end(f.insts, f.pc + 1, 0) {
            Err(e) => trap(s, e),
            Ok(end) => {
                let stack = s.stack.drop_last();
                let labels = f.labels.push(
                    Label {
                        kind: LabelKind::If,
                        start: None,
                        pc: end,
                        sp: stack.len() as usize,
                        arity: block_arity(imm) as usize,
                    },
                );
                if truthy(s.stack.last()) {
                    cont(with_top(with_stack(s, stack), frame_at(f, f.pc, labels)))
                } else {
                    match scan_else_or_end(f.insts, f.pc + 1, 0) {
                        Err(e) => trap(s, e),
                        Ok(t) => {
                            let pc = if f.insts[t as int].0 == Opcode::Else { t as int } else { t - 1 };
                            cont(with_top(with_stack(s, stack), frame_at(f, pc as isize, labels)))
                        },
                    }
                }
            },
        }
    }
}

/// Leaving the innermost block, at its `else` or `end`: the stack unwinds to
/// the block's height, and execution goes on at its `end`.
pub open spec fn spec_leave_label(s: RuntimeV) -> (RuntimeV, StepV) {
    let f = s.frames.last();
    if f.labels.len() == 0 {
        trap(s, RuntimeError::LabelPopError)
    } else {
        let label = f.labels.last();
        if label.pc > isize::MAX {
            trap(s, RuntimeError::NotFoundInstruction(label.pc))
        } else {
            match spec_unwind(s.stack, label.sp, label.arity) {
                Err(e) => trap(s, e),
                Ok(stack) => cont(
                    with_top(with_stack(s, stack), frame_at(f, label.pc as isize, f.labels.drop_last())),
                ),
            }
        }
    }
}

/// Leaving the function: its frame is popped and the stack unwinds to the
/// frame's height, but for its result.
pub open spec fn spec_return(s: RuntimeV, stack: Seq<Value>) -> (RuntimeV, StepV) {
    let f = s.frames.last();
    match spec_unwind(stack, f.sp, f.arity) {
        Err(e) => trap(s, e),
        Ok(st) => cont(with_frames(with_stack(s, st), s.frames.drop_last())),
    }
}

/// `end`: of a block when a label is open, else of the function.
pub open spec fn spec_end(s: RuntimeV) -> (RuntimeV, StepV) {
    if s.frames.last().labels.len() > 0 {
        spec_leave_label(s)
    } else {
        spec_return(s, s.stack)
    }
}

/// A branch to the label `level` outward, with `stack` as the stack; a
/// branch past every label leaves the function.
pub open spec fn spec_branch(s: RuntimeV, stack: Seq<Value>, level: u32) -> (RuntimeV, StepV) {
    let f = s.frames.last();
    if level as int == f.labels.len() {
        spec_return(s, stack)
    } else {
        match spec_br(f.labels, stack, level) {
            Err(e) => trap(s, e),
            Ok((labels, st, pc)) => cont(with_top(with_stack(s, st), frame_at(f, pc, labels))),
        }
    }
}

/// `br_if`: pops the condition and branches when it is true.
pub open spec fn spec_br_if(s: RuntimeV, level: u32) -> (RuntimeV, StepV) {
    if s.stack.len() == 0 {
        trap(s, RuntimeError::StackPopError)
    } else if !(s.stack.last() is I32 || s.stack.last() is I64) {
        trap(s, RuntimeError::UnexpectedStackValueType)
    } else if truthy(s.stack.last()) {
        spec_branch(s, s.stack.drop_last(), level)
    } else {
        cont(with_stack(s, s.stack.drop_last()))
    }
}

/// `br_table`: pops an index and branches to the label it picks, or to the
/// default past the end of the table.
pub open spec fn spec_br_table(s: RuntimeV, levels: Seq<u32>, default: u32) -> (RuntimeV, StepV) {
    if s.stack.len() == 0 {
        trap(s, RuntimeError::StackPopError)
    } else if !(s.stack.last() is I32) {
        trap(s, RuntimeError::UnexpectedStackValueType)
    } else {
        let idx = unsigned_i32(s.stack.last()->I32_0) as int;
        let level = if idx < levels.len() { levels[idx] } else { default };
        spec_branch(s, s.stack.drop_last(), level)
    }
}

/// A call of `func`, whose arguments are on `stack`: a defined function gets
/// a frame; an imported one is handed to the host.
pub open spec fn spec_invoke(s: RuntimeV, stack: Seq<Value>, func: FuncInstV) -> (RuntimeV, StepV) {
    match func {
        FuncInstV::Internal(..) => match spec_enter(func, stack) {
            Err(e) => trap(s, e),
            Ok((frame, st)) => cont(with_frames(with_stack(s, st), s.frames.push(frame))),
        },
        FuncInstV::External(module, field, ty) => {
            let n = ty.0.len();
            if stack.len() < n {
                trap(s, RuntimeError::StackUnderflow)
            } else {
                let sp = stack.len() - n;
                (with_stack(s, stack.take(sp)), StepV::Call(module, field, stack.skip(sp)))
            }
        },
    }
}

/// `call`.
pub open spec fn spec_call(s: RuntimeV, idx: u32) -> (RuntimeV, StepV) {
    if idx >= s.store.funcs.len() {
        trap(s, RuntimeError::NotFoundFunction(idx as usize))
    } else {
        spec_invoke(s, s.stack, s.store.funcs[idx as int])
    }
}

/// `call_indirect`: pops an index into the table, and calls the function
/// there when its type is the one expected.
pub open spec fn spec_call_indirect(s: RuntimeV, sig: u32, table: u32) -> (RuntimeV, StepV) {
    if s.stack.len() == 0 {
        trap(s, RuntimeError::StackPopError)
    } else if !(s.stack.last() is I32) {
        trap(s, RuntimeError::UnexpectedStackValueType)
    } else {
        let elem = unsigned_i32(s.stack.last()->I32_0) as int;
        if table >= s.store.tables.len() {
            trap(s, RuntimeError::NotFoundTable(table as usize))
        } else {
            let funcs = s.store.tables[table as int].0;
            if elem >= funcs.len() {
                trap(s, RuntimeError::UndefinedElement)
            } else if funcs[elem] is None {
                trap(s, RuntimeError::UninitializedElement(elem as usize))
            } else if sig >= s.store.func_types.len() {
                trap(s, RuntimeError::NotFoundFuncType(sig as usize))
            } else if func_inst_type(funcs[elem]->0) != s.store.func_types[sig as int] {
                trap(s, RuntimeError::TypeMismatchIndirectCall)
            } else {
                spec_invoke(s, s.stack.drop_last(), funcs[elem]->0)
            }
        }
    }
}

// Parametric and variable instructions.

/// `select`: pops a condition and two values, and pushes the first when the
/// condition is not zero, else the second.
pub open spec fn spec_select(s: RuntimeV) -> (RuntimeV, StepV) {
    let n = s.stack.len();
    if n == 0 {
        trap(s, RuntimeError::StackPopError)
    } else if !(s.stack.last() is I32) {
        trap(s, RuntimeError::UnexpectedStackValueType)
    } else if n < 3 {
        trap(s, RuntimeError::StackPopError)
    } else {
        let v = if s.stack.last()->I32_0 != 0 { s.stack[n - 3] } else { s.stack[n - 2] };
        cont(with_stack(s, s.stack.take(n - 3).push(v)))
    }
}

pub open spec fn spec_local_get(s: RuntimeV, idx: u32) -> (RuntimeV, StepV) {
    let f = s.frames.last();
    if idx >= f.locals.len() {
        trap(s, RuntimeError::NotFoundLocalVariable(idx as usize))
    } else {
        cont(with_stack(s, s.stack.push(f.locals[idx as int])))
    }
}

/// `local.set` pops the value; `local.tee` keeps it.
pub open spec fn spec_local_set(s: RuntimeV, idx: u32, keep: bool) -> (RuntimeV, StepV) {
    let f = s.frames.last();
    if s.stack.len() == 0 {
        trap(s, RuntimeError::StackPopError)
    } else {
        let stack = if keep { s.stack } else { s.stack.drop_last() };
        cont(with_top(with_stack(s, stack), frame_with_locals(f, spec_set_local(f.locals, idx as usize, s.stack.last()))))
    }
}

pub open spec fn spec_global_get(s: RuntimeV, idx: u32) -> (RuntimeV, StepV) {
    if idx >= s.store.globals.len() {
        trap(s, RuntimeError::NotFoundGlobalVariable(idx as usize))
    } else {
        cont(with_stack(s, s.stack.push(s.store.globals[idx as int].value)))
    }
}

pub open spec fn spec_global_set(s: RuntimeV, idx: u32) -> (RuntimeV, StepV) {
    if s.stack.len() == 0 {
        trap(s, RuntimeError::StackPopError)
    } else if idx >= s.store.globals.len() {
        trap(s, RuntimeError::NotFoundGlobalVariable(idx as usize))
    } else {
        let g = s.store.globals[idx as int];
        cont(
            with_globals(
                with_stack(s, s.stack.drop_last()),
                s.store.globals.update(idx as int, InternalGlobalInst { value: s.stack.last(), mutability: g.mutability }),
            ),
        )
    }
}

// Memory instructions; they use the first memory.

/// The address that an i32 on the stack gives.
pub open spec fn address_of(v: Value) -> usize {
    unsigned_i32(v->I32_0) as usize
}

pub open spec fn spec_load_inst(s: RuntimeV, op: Opcode, arg: MemoryArg) -> (RuntimeV, StepV) {
    if s.store.memory.len() == 0 {
        trap(s, RuntimeError::NotFoundMemory(0))
    } else if s.stack.len() == 0 {
        trap(s, RuntimeError::StackPopError)
    } else if !(s.stack.last() is I32) {
        trap(s, RuntimeError::UnexpectedStackValueType)
    } else {
        match load_value(op, s.store.memory[0].0, address_of(s.stack.last()), arg) {
            Err(e) => trap(s, e),
            Ok(v) => cont(with_stack(s, s.stack.drop_last().push(v))),
        }
    }
}

pub open spec fn spec_store_inst(s: RuntimeV, op: Opcode, arg: MemoryArg) -> (RuntimeV, StepV) {
    let n = s.stack.len();
    if s.store.memory.len() == 0 {
        trap(s, RuntimeError::NotFoundMemory(0))
    } else if n == 0 {
        trap(s, RuntimeError::StackPopError)
    } else if !store_operand_ok(op, s.stack.last()) {
        trap(s, RuntimeError::UnexpectedStackValueType)
    } else if n < 2 {
        trap(s, RuntimeError::StackPopError)
    } else if !(s.stack[n - 2] is I32) {
        trap(s, RuntimeError::UnexpectedStackValueType)
    } else {
        let mem = s.store.memory[0];
        match store_result(op, mem.0, address_of(s.stack[n - 2]), arg, s.stack.last()) {
            Err(e) => trap(s, e),
            Ok(data) => cont(with_memory(with_stack(s, s.stack.take(n - 2)), s.store.memory.update(0, (data, mem.1)))),
        }
    }
}

pub open spec fn spec_memory_size(s: RuntimeV) -> (RuntimeV, StepV) {
    if s.store.memory.len() == 0 {
        trap(s, RuntimeError::NotFoundMemory(0))
    } else {
        cont(with_stack(s, s.stack.push(Value::I32(spec_pages(s.store.memory[0].0) as i32))))
    }
}

/// `memory.grow`: pops a number of pages and pushes the old size, or -1 when
/// the memory cannot grow.
pub open spec fn spec_memory_grow(s: RuntimeV) -> (RuntimeV, StepV) {
    if s.store.memory.len() == 0 {
        trap(s, RuntimeError::NotFoundMemory(0))
    } else if s.stack.len() == 0 {
        trap(s, RuntimeError::StackPopError)
    } else if !(s.stack.last() is I32) {
        trap(s, RuntimeError::UnexpectedStackValueType)
    } else {
        let mem = s.store.memory[0];
        let stack = s.stack.drop_last();
        match spec_grow(mem.0, mem.1, unsigned_i32(s.stack.last()->I32_0)) {
            Ok(data) => cont(
                with_memory(
                    with_stack(s, stack.push(Value::I32(spec_pages(mem.0) as i32))),
                    s.store.memory.update(0, (data, mem.1)),
                ),
            ),
            Err(_) => cont(with_stack(s, stack.push(Value::I32(-1i32)))),
        }
    }
}

// Numeric instructions.

pub open spec fn spec_binary(s: RuntimeV, op: Opcode) -> (RuntimeV, StepV) {
    let n = s.stack.len();
    if n < 2 {
        trap(s, RuntimeError::StackPopError)
    } else {
        let l = s.stack[n - 2];
        let r = s.stack[n - 1];
        let rest = s.stack.take(n - 2);
        match binary_result(op, l, r) {
            None => (with_stack(s, rest), StepV::Float(op, seq![l, r])),
            Some(Ok(v)) => cont(with_stack(s, rest.push(v))),
            Some(Err(e)) => trap(s, e),
        }
    }
}

pub open spec fn spec_unary(s: RuntimeV, op: Opcode) -> (RuntimeV, StepV) {
    if s.stack.len() == 0 {
        trap(s, RuntimeError::StackPopError)
    } else {
        let v = s.stack.last();
        let rest = s.stack.drop_last();
        match unary_result(op, v) {
            None => (with_stack(s, rest), StepV::Float(op, seq![v])),
            Some(Ok(w)) => cont(with_stack(s, rest.push(w))),
            Some(Err(e)) => trap(s, e),
        }
    }
}

/// What the instruction `(op, imm)` at the pc of the top frame does.
pub open spec fn spec_instruction(s: RuntimeV, op: Opcode, imm: ImmediateV) -> (RuntimeV, StepV) {
    if is_binary_op(op) {
        spec_binary(s, op)
    } else if is_unary_op(op) {
        spec_unary(s, op)
    } else if is_load_op(op) {
        spec_load_inst(s, op, imm->MemArg_0)
    } else if is_store_op(op) {
        spec_store_inst(s, op, imm->MemArg_0)
    } else {
        match op {
            Opcode::Unreachable => trap(s, RuntimeError::Unreachable),
            Opcode::Nop => cont(s),
            Opcode::Block => spec_block(s, LabelKind::Block, imm),
            Opcode::Loop => spec_block(s, LabelKind::Loop, imm),
            Opcode::If => spec_if(s, imm),
            Opcode::Else => spec_leave_label(s),
            Opcode::End => spec_end(s),
            Opcode::Br => spec_branch(s, s.stack, imm->Index_0),
            Opcode::BrIf => spec_br_if(s, imm->Index_0),
            Opcode::BrTable => spec_br_table(s, imm->LabelTable_0, imm->LabelTable_1),
            Opcode::Return => spec_return(s, s.stack),
            Opcode::Call => spec_call(s, imm->Index_0),
            Opcode::CallIndirect => spec_call_indirect(s, imm->TwoIndices_0, imm->TwoIndices_1),
            Opcode::Drop => if s.stack.len() == 0 {
                cont(s)
            } else {
                cont(with_stack(s, s.stack.drop_last()))
            },
            Opcode::Select => spec_select(s),
            Opcode::LocalGet => spec_local_get(s, imm->Index_0),
            Opcode::LocalSet => spec_local_set(s, imm->Index_0, false),
            Opcode::LocalTee => spec_local_set(s, imm->Index_0, true),
            Opcode::GlobalGet => spec_global_get(s, imm->Index_0),
            Opcode::GlobalSet => spec_global_set(s, imm->Index_0),
            Opcode::MemorySize => spec_memory_size(s),
            Opcode::MemoryGrow => spec_memory_grow(s),
            Opcode::I32Const => cont(with_stack(s, s.stack.push(Value::I32(imm->I32_0)))),
            Opcode::I64Const => cont(with_stack(s, s.stack.push(Value::I64(imm->I64_0)))),
            Opcode::F32Const => cont(with_stack(s, s.stack.push(Value::F32(imm->F32_0)))),
            Opcode::F64Const => cont(with_stack(s, s.stack.push(Value::F64(imm->F64_0)))),
            _ => cont(s),
        }
    }
}

/// The state after a trap: the store as it is, with no value on the stack
/// and no frame.
pub open spec fn after_trap(s: RuntimeV) -> RuntimeV {
    RuntimeV { store: s.store, stack: Seq::empty(), frames: Seq::empty() }
}

/// A state and step, with the stack and the frames dropped when the step
/// traps.
pub open spec fn settle(r: (RuntimeV, StepV)) -> (RuntimeV, StepV) {
    if r.1 is Trap {
        (after_trap(r.0), r.1)
    } else {
        r
    }
}

/// One step: the next instruction of the top frame runs; a trap drops the
/// stack and the frames and leaves the store as it was.
pub open spec fn spec_step(s: RuntimeV) -> (RuntimeV, StepV) {
    settle(spec_advance(s))
}

/// The next instruction of the top frame runs; with no frame, or past the
/// end of the instructions, the run is finished. A trap changes nothing but
/// the pc.
pub open spec fn spec_advance(s: RuntimeV) -> (RuntimeV, StepV) {
    if s.frames.len() == 0 {
        (s, StepV::Finished)
    } else {
        let f = s.frames.last();
        let next = f.pc + 1;
        if next < 0 || next >= f.insts.len() || next > isize::MAX {
            (s, StepV::Finished)
        } else {
            let t = with_top(s, frame_at(f, next as isize, f.labels));
            spec_instruction(t, f.insts[next].0, f.insts[next].1)
        }
    }
}

/// Up to `fuel` steps, stopping at the first that does not continue.
pub open spec fn spec_run(s: RuntimeV, fuel: nat) -> (RuntimeV, StepV)
    decreases fuel,
{
    if fuel == 0 {
        (s, StepV::Continue)
    } else {
        let (t, o) = spec_step(s);
        if o is Continue {
            spec_run(t, (fuel - 1) as nat)
        } else {
            (t, o)
        }
    }
}


/// The memory argument of a load or store.
#[verifier::spinoff_prover]
fn memory_arg_of(inst: &Instruction) -> (arg: MemoryArg)
    requires
        inst@.1 is MemArg,
    ensures
        arg == inst@.1->MemArg_0,
{
    match inst {
        Instruction::I32Load(arg) => *arg,
        Instruction::I64Load(arg) => *arg,
        Instruction::F32Load(arg) => *arg,
        Instruction::F64Load(arg) => *arg,
        Instruction::I32Load8S(arg) => *arg,
        Instruction::I32Load8U(arg) => *arg,
        Instruction::I32Load16S(arg) => *arg,
        Instruction::I32Load16U(arg) => *arg,
        Instruction::I64Load8S(arg) => *arg,
        Instruction::I64Load8U(arg) => *arg,
        Instruction::I64Load16S(arg) => *arg,
        Instruction::I64Load16U(arg) => *arg,
        Instruction::I64Load32S(arg) => *arg,
        Instruction::I64Load32U(arg) => *arg,
        Instruction::I32Store(arg) => *arg,
        Instruction::I64Store(arg) => *arg,
        Instruction::F32Store(arg) => *arg,
        Instruction::F64Store(arg) => *arg,
        Instruction::I32Store8(arg) => *arg,
        Instruction::I32Store16(arg) => *arg,
        Instruction::I64Store8(arg) => *arg,
        Instruction::I64Store16(arg) => *arg,
        Instruction::I64Store32(arg) => *arg,
        _ => MemoryArg { align: 0, offset: 0 },
    }
}

/// A frame whose instructions were moved out, with them put back.
pub open spec fn restored(frame: Frame, insts: Seq<Instruction>) -> FrameV {
    FrameV {
        pc: frame.pc,
        sp: frame.sp,
        insts: views(insts),
        arity: frame.arity,
        locals: frame.locals@,
        labels: frame.labels@,
    }
}

/// The state of a runtime whose top frame was taken out, with it put back.
pub open spec fn current(rest: RuntimeV, frame: Frame, insts: Seq<Instruction>) -> RuntimeV {
    with_frames(rest, rest.frames.push(restored(frame, insts)))
}

/// The frame runs the instruction at its pc, whose opcode is `op`.
pub open spec fn at_op(frame: Frame, insts: Seq<Instruction>, op: Opcode) -> bool {
    0 <= frame.pc < insts.len() && insts[frame.pc as int]@.0 == op
}

/// The immediate of the instruction at the frame's pc.
pub open spec fn imm_at(frame: Frame, insts: Seq<Instruction>) -> ImmediateV {
    insts[frame.pc as int]@.1
}

/// A call of `func`, whose arguments are on `stack`: a defined function gets
/// a frame on `call_stack`; an imported one is handed to the host.
fn invoke_func(stack: &mut Vec<Value>, call_stack: &mut Vec<Frame>, func: &FuncInst, Ghost(s): Ghost<RuntimeV>) -> (o: Step)
    requires
        s.frames == views(old(call_stack)@),
    ensures
        ({
            let (t, so) = spec_invoke(s, old(stack)@, func@);
            &&& o@ == so
            &&& (so is Trap ==> final(stack)@ == old(stack)@ && final(call_stack)@ == old(call_stack)@)
            &&& (!(so is Trap) ==> final(stack)@ == t.stack && views(final(call_stack)@) == t.frames)
        }),
{
    match func {
        FuncInst::Internal(f) => {
            let ghost old_calls = call_stack@;
            match push_frame(stack, call_stack, f) {
                Ok(()) => {
                    proof {
                        assert(call_stack@ =~= old_calls.push(call_stack@.last()));
                        super::module::lemma_views_push(old_calls, call_stack@.last());
                    }
                    Step::Continue
                },
                Err(e) => Step::Trap(e),
            }
        },
        FuncInst::External(f) => {
            let n = f.func_type.params.len();
            let len = stack.len();
            if len < n {
                return Step::Trap(RuntimeError::StackUnderflow);
            }
            let args = stack.split_off(len - n);
            Step::Call(f.module.clone(), f.field.clone(), args)
        },
    }
}

impl Runtime {
    /// A runtime with an empty stack, for the instances of `store`.
    pub fn new(store: Store) -> (r: Runtime)
        ensures
            r@.store == store@,
            r@.stack == Seq::<Value>::empty(),
            r@.frames == Seq::<FrameV>::empty(),
            r.start == match store@.start {
                Some(idx) => Some(idx as usize),
                None => None,
            },
    {
        let start = match store.start {
            Some(idx) => Some(idx as usize),
            None => None,
        };
        let r = Runtime { store, stack: Vec::new(), call_stack: Vec::new(), start };
        assert(r@.frames =~= Seq::<FrameV>::empty());
        r
    }

    /// A runtime for the module that `bytes` encode, linked with
    /// `importers`: the store is loaded as `Store::from_bytes` loads it, and
    /// its start function, if any, is left for `call_start`.
    pub fn from_bytes(bytes: &[u8], importers: Option<&Vec<Importer>>) -> (r: Result<Runtime, LoadError>)
        ensures
            match spec_load_store(bytes@, importer_views(importers)) {
                Ok(s) => r matches Ok(rt) && rt@.store == s && rt@.stack == Seq::<Value>::empty() && rt@.frames
                    == Seq::<FrameV>::empty() && rt.start == match s.start {
                    Some(idx) => Some(idx as usize),
                    None => None,
                },
                Err(e) => r == Err::<Runtime, LoadError>(e),
            },
    {
        match Store::from_bytes(bytes, importers) {
            Ok(store) => Ok(Runtime::new(store)),
            Err(e) => Err(e),
        }
    }

    /// Puts a frame back on the call stack, with its instructions.
    fn put_back(&mut self, frame: Frame, insts: Vec<Instruction>)
        ensures
            final(self)@ == current(old(self)@, frame, insts@),
            final(self).start == old(self).start,
    {
        let mut frame = frame;
        frame.insts = insts;
        let ghost before = self.call_stack@;
        self.call_stack.push(frame);
        proof {
            super::module::lemma_views_push(before, frame);
        }
    }

    fn exec_binary(&mut self, frame: Frame, insts: Vec<Instruction>, op: Opcode) -> (o: Step)
        requires
            is_binary_op(op),
        ensures
            (final(self)@, o@) == spec_binary(current(old(self)@, frame, insts@), op),
            final(self).start == old(self).start,
    {
        let n = self.stack.len();
        if n < 2 {
            self.put_back(frame, insts);
            return Step::Trap(RuntimeError::StackPopError);
        }
        let l = self.stack[n - 2];
        let r = self.stack[n - 1];
        match exec_binary_result(op, l, r) {
            None => {
                self.stack.truncate(n - 2);
                self.put_back(frame, insts);
                let mut args: Vec<Value> = Vec::new();
                args.push(l);
                args.push(r);
                assert(args@ =~= seq![l, r]);
                Step::Float(op, args)
            },
            Some(Ok(v)) => {
                self.stack.truncate(n - 2);
                self.stack.push(v);
                self.put_back(frame, insts);
                Step::Continue
            },
            Some(Err(e)) => {
                self.put_back(frame, insts);
                Step::Trap(e)
            },
        }
    }

    fn exec_unary(&mut self, frame: Frame, insts: Vec<Instruction>, op: Opcode) -> (o: Step)
        requires
            is_unary_op(op),
        ensures
            (final(self)@, o@) == spec_unary(current(old(self)@, frame, insts@), op),
            final(self).start == old(self).start,
    {
        let n = self.stack.len();
        if n == 0 {
            self.put_back(frame, insts);
            return Step::Trap(RuntimeError::StackPopError);
        }
        let v = self.stack[n - 1];
        match exec_unary_result(op, v) {
            None => {
                self.stack.truncate(n - 1);
                self.put_back(frame, insts);
                let mut args: Vec<Value> = Vec::new();
                args.push(v);
                assert(args@ =~= seq![v]);
                Step::Float(op, args)
            },
            Some(Ok(w)) => {
                self.stack.truncate(n - 1);
                self.stack.push(w);
                self.put_back(frame, insts);
                Step::Continue
            },
            Some(Err(e)) => {
                self.put_back(frame, insts);
                Step::Trap(e)
            },
        }
    }

    fn exec_load(&mut self, frame: Frame, insts: Vec<Instruction>, op: Opcode) -> (o: Step)
        requires
            is_load_op(op),
            at_op(frame, insts@, op),
        ensures
            (final(self)@, o@) == spec_load_inst(current(old(self)@, frame, insts@), op, imm_at(frame, insts@)->MemArg_0),
            final(self).start == old(self).start,
    {
        let arg = memory_arg_of(&insts[frame.pc as usize]);
        let n = self.stack.len();
        if self.store.memory.len() == 0 {
            self.put_back(frame, insts);
            return Step::Trap(RuntimeError::NotFoundMemory(0));
        }
        if n == 0 {
            self.put_back(frame, insts);
            return Step::Trap(RuntimeError::StackPopError);
        }
        let addr = match self.stack[n - 1] {
            Value::I32(x) => x,
            _ => {
                self.put_back(frame, insts);
                return Step::Trap(RuntimeError::UnexpectedStackValueType);
            },
        };
        let a = super::integer::to_unsigned_i32(addr) as usize;
        match exec_load(op, &self.store.memory[0], a, &arg) {
            Ok(v) => {
                self.stack.truncate(n - 1);
                self.stack.push(v);
                self.put_back(frame, insts);
                Step::Continue
            },
            Err(e) => {
                self.put_back(frame, insts);
                Step::Trap(e)
            },
        }
    }

    fn exec_store(&mut self, frame: Frame, insts: Vec<Instruction>, op: Opcode) -> (o: Step)
        requires
            is_store_op(op),
            at_op(frame, insts@, op),
        ensures
            (final(self)@, o@) == spec_store_inst(current(old(self)@, frame, insts@), op, imm_at(frame, insts@)->MemArg_0),
            final(self).start == old(self).start,
    {
        let arg = memory_arg_of(&insts[frame.pc as usize]);
        let n = self.stack.len();
        if self.store.memory.len() == 0 {
            self.put_back(frame, insts);
            return Step::Trap(RuntimeError::NotFoundMemory(0));
        }
        if n == 0 {
            self.put_back(frame, insts);
            return Step::Trap(RuntimeError::StackPopError);
        }
        let v = self.stack[n - 1];
        if !exec_store_operand_ok(op, v) {
            self.put_back(frame, insts);
            return Step::Trap(RuntimeError::UnexpectedStackValueType);
        }
        if n < 2 {
            self.put_back(frame, insts);
            return Step::Trap(RuntimeError::StackPopError);
        }
        let addr = match self.stack[n - 2] {
            Value::I32(x) => x,
            _ => {
                self.put_back(frame, insts);
                return Step::Trap(RuntimeError::UnexpectedStackValueType);
            },
        };
        let a = super::integer::to_unsigned_i32(addr) as usize;
        let ghost mems = self.store.memory@;
        let mut mem = self.store.memory.remove(0);
        let r = exec_store(op, &mut mem, a, &arg, v);
        self.store.memory.insert(0, mem);
        proof {
            assert(self.store.memory@ =~= mems.update(0, mem));
            assert(views(self.store.memory@) =~= views(mems).update(0, mem@));
        }
        match r {
            Ok(()) => {
                self.stack.truncate(n - 2);
                self.put_back(frame, insts);
                Step::Continue
            },
            Err(e) => {
                proof {
                    assert(views(self.store.memory@) =~= views(mems));
                }
                self.put_back(frame, insts);
                Step::Trap(e)
            },
        }
    }
}

/// The stack with a value that was popped pushed back.
pub open spec fn with_popped(stack: Seq<Value>, popped: Option<Value>) -> Seq<Value> {
    match popped {
        Some(v) => stack.push(v),
        None => stack,
    }
}

impl Runtime {
    fn exec_block(&mut self, frame: Frame, insts: Vec<Instruction>, kind: LabelKind) -> (o: Step)
        requires
            0 <= frame.pc < insts@.len(),
            kind == LabelKind::Block ==> insts@[frame.pc as int]@.0 == Opcode::Block,
            kind == LabelKind::Loop ==> insts@[frame.pc as int]@.0 == Opcode::Loop,
            kind != LabelKind::If,
        ensures
            (final(self)@, o@) == spec_block(current(old(self)@, frame, insts@), kind, imm_at(frame, insts@)),
            final(self).start == old(self).start,
    {
        let i = frame.pc as usize;
        let arity = match &insts[i] {
            Instruction::Block(b) => b.block_type.result_count(),
            Instruction::Loop(b) => b.block_type.result_count(),
            _ => 0,
        };
        match get_end_address(insts.as_slice(), i) {
            Err(e) => {
                self.put_back(frame, insts);
                Step::Trap(e)
            },
            Ok(end) => {
                let mut frame = frame;
                let start = if kind == LabelKind::Loop {
                    Some(frame.pc)
                } else {
                    None
                };
                let sp = self.stack.len();
                frame.labels.push(Label { kind, start, pc: end, sp, arity });
                self.put_back(frame, insts);
                Step::Continue
            },
        }
    }

    fn exec_if(&mut self, frame: Frame, insts: Vec<Instruction>) -> (o: Step)
        requires
            at_op(frame, insts@, Opcode::If),
        ensures
            (final(self)@, o@) == spec_if(current(old(self)@, frame, insts@), imm_at(frame, insts@)),
            final(self).start == old(self).start,
    {
        let i = frame.pc as usize;
        let arity = match &insts[i] {
            Instruction::If(b) => b.block_type.result_count(),
            _ => 0,
        };
        let n = self.stack.len();
        if n == 0 {
            self.put_back(frame, insts);
            return Step::Trap(RuntimeError::StackPopError);
        }
        let truth = match self.stack[n - 1] {
            Value::I32(x) => x != 0,
            Value::I64(x) => x != 0,
            _ => {
                self.put_back(frame, insts);
                return Step::Trap(RuntimeError::UnexpectedStackValueType);
            },
        };
        let end = match get_end_address(insts.as_slice(), i) {
            Ok(end) => end,
            Err(e) => {
                self.put_back(frame, insts);
                return Step::Trap(e);
            },
        };
        let mut frame = frame;
        if !truth {
            match get_else_or_end_address(insts.as_slice(), i) {
                Err(e) => {
                    self.put_back(frame, insts);
                    return Step::Trap(e);
                },
                Ok(t) => {
                    let is_else = match &insts[t] {
                        Instruction::Else => true,
                        _ => false,
                    };
                    frame.pc = if is_else {
                        t as isize
                    } else {
                        (t - 1) as isize
                    };
                },
            }
        }
        frame.labels.push(Label { kind: LabelKind::If, start: None, pc: end, sp: n - 1, arity });
        self.stack.truncate(n - 1);
        self.put_back(frame, insts);
        Step::Continue
    }

    fn exec_leave_label(&mut self, frame: Frame, insts: Vec<Instruction>) -> (o: Step)
        ensures
            (final(self)@, o@) == spec_leave_label(current(old(self)@, frame, insts@)),
            final(self).start == old(self).start,
    {
        let n = frame.labels.len();
        if n == 0 {
            self.put_back(frame, insts);
            return Step::Trap(RuntimeError::LabelPopError);
        }
        let label = frame.labels[n - 1];
        if label.pc > isize::MAX as usize {
            self.put_back(frame, insts);
            return Step::Trap(RuntimeError::NotFoundInstruction(label.pc));
        }
        match stack_unwind(&mut self.stack, label.sp, label.arity) {
            Err(e) => {
                self.put_back(frame, insts);
                Step::Trap(e)
            },
            Ok(()) => {
                let mut frame = frame;
                frame.labels.pop();
                frame.pc = label.pc as isize;
                self.put_back(frame, insts);
                Step::Continue
            },
        }
    }

    fn exec_return(&mut self, frame: Frame, insts: Vec<Instruction>) -> (o: Step)
        ensures
            (final(self)@, o@) == spec_return(current(old(self)@, frame, insts@), old(self).stack@),
            final(self).start == old(self).start,
    {
        match stack_unwind(&mut self.stack, frame.sp, frame.arity) {
            Err(e) => {
                self.put_back(frame, insts);
                Step::Trap(e)
            },
            Ok(()) => Step::Continue,
        }
    }

    /// A branch to the label `level` outward; `popped` is the operand that
    /// was popped for it, which a trap puts back.
    fn exec_branch(&mut self, frame: Frame, insts: Vec<Instruction>, level: u32, popped: Option<Value>) -> (o: Step)
        ensures
            (final(self)@, o@) == spec_branch(
                current(with_stack(old(self)@, with_popped(old(self).stack@, popped)), frame, insts@),
                old(self).stack@,
                level,
            ),
            final(self).start == old(self).start,
    {
        if level as usize == frame.labels.len() {
            match stack_unwind(&mut self.stack, frame.sp, frame.arity) {
                Ok(()) => Step::Continue,
                Err(e) => {
                    if let Some(v) = popped {
                        self.stack.push(v);
                    }
                    self.put_back(frame, insts);
                    Step::Trap(e)
                },
            }
        } else {
            let mut frame = frame;
            match br(&mut frame.labels, &mut self.stack, level) {
                Ok(pc) => {
                    frame.pc = pc;
                    self.put_back(frame, insts);
                    Step::Continue
                },
                Err(e) => {
                    if let Some(v) = popped {
                        self.stack.push(v);
                    }
                    self.put_back(frame, insts);
                    Step::Trap(e)
                },
            }
        }
    }

    fn exec_br_if(&mut self, frame: Frame, insts: Vec<Instruction>) -> (o: Step)
        requires
            at_op(frame, insts@, Opcode::BrIf),
        ensures
            (final(self)@, o@) == spec_br_if(current(old(self)@, frame, insts@), imm_at(frame, insts@)->Index_0),
            final(self).start == old(self).start,
    {
        let level = match &insts[frame.pc as usize] {
            Instruction::BrIf(l) => *l,
            _ => 0,
        };
        let n = self.stack.len();
        if n == 0 {
            self.put_back(frame, insts);
            return Step::Trap(RuntimeError::StackPopError);
        }
        let c = self.stack[n - 1];
        let truth = match c {
            Value::I32(x) => x != 0,
            Value::I64(x) => x != 0,
            _ => {
                self.put_back(frame, insts);
                return Step::Trap(RuntimeError::UnexpectedStackValueType);
            },
        };
        self.stack.truncate(n - 1);
        if truth {
            proof {
                assert(with_popped(self.stack@, Some(c)) =~= old(self).stack@);
            }
            self.exec_branch(frame, insts, level, Some(c))
        } else {
            self.put_back(frame, insts);
            Step::Continue
        }
    }

    fn exec_br_table(&mut self, frame: Frame, insts: Vec<Instruction>) -> (o: Step)
        requires
            at_op(frame, insts@, Opcode::BrTable),
        ensures
            (final(self)@, o@) == spec_br_table(
                current(old(self)@, frame, insts@),
                imm_at(frame, insts@)->LabelTable_0,
                imm_at(frame, insts@)->LabelTable_1,
            ),
            final(self).start == old(self).start,
    {
        let n = self.stack.len();
        if n == 0 {
            self.put_back(frame, insts);
            return Step::Trap(RuntimeError::StackPopError);
        }
        let c = self.stack[n - 1];
        let x = match c {
            Value::I32(x) => x,
            _ => {
                self.put_back(frame, insts);
                return Step::Trap(RuntimeError::UnexpectedStackValueType);
            },
        };
        let idx = super::integer::to_unsigned_i32(x) as usize;
        let level = match &insts[frame.pc as usize] {
            Instruction::BrTable(levels, default) => if idx < levels.len() {
                levels[idx]
            } else {
                *default
            },
            _ => 0,
        };
        self.stack.truncate(n - 1);
        proof {
            assert(with_popped(self.stack@, Some(c)) =~= old(self).stack@);
        }
        self.exec_branch(frame, insts, level, Some(c))
    }

    fn exec_call(&mut self, frame: Frame, insts: Vec<Instruction>) -> (o: Step)
        requires
            at_op(frame, insts@, Opcode::Call),
        ensures
            (final(self)@, o@) == spec_call(current(old(self)@, frame, insts@), imm_at(frame, insts@)->Index_0),
            final(self).start == old(self).start,
    {
        let idx = match &insts[frame.pc as usize] {
            Instruction::Call(x) => *x,
            _ => 0,
        };
        self.put_back(frame, insts);
        if idx as usize >= self.store.funcs.len() {
            return Step::Trap(RuntimeError::NotFoundFunction(idx as usize));
        }
        let ghost s = self@;
        invoke_func(&mut self.stack, &mut self.call_stack, &self.store.funcs[idx as usize], Ghost(s))
    }

    #[verifier::rlimit(30)]
    fn exec_call_indirect(&mut self, frame: Frame, insts: Vec<Instruction>) -> (o: Step)
        requires
            at_op(frame, insts@, Opcode::CallIndirect),
        ensures
            (final(self)@, o@) == spec_call_indirect(
                current(old(self)@, frame, insts@),
                imm_at(frame, insts@)->TwoIndices_0,
                imm_at(frame, insts@)->TwoIndices_1,
            ),
            final(self).start == old(self).start,
    {
        let (sig, table) = match &insts[frame.pc as usize] {
            Instruction::CallIndirect(a, b) => (*a, *b),
            _ => (0, 0),
        };
        self.put_back(frame, insts);
        let n = self.stack.len();
        if n == 0 {
            return Step::Trap(RuntimeError::StackPopError);
        }
        let c = self.stack[n - 1];
        let x = match c {
            Value::I32(x) => x,
            _ => return Step::Trap(RuntimeError::UnexpectedStackValueType),
        };
        let elem = super::integer::to_unsigned_i32(x) as usize;
        if table as usize >= self.store.tables.len() {
            return Step::Trap(RuntimeError::NotFoundTable(table as usize));
        }
        if elem >= self.store.tables[table as usize].funcs.len() {
            return Step::Trap(RuntimeError::UndefinedElement);
        }
        if sig as usize >= self.store.module.func_types.len() && self.store.tables[table as usize].funcs[elem].is_some() {
            return Step::Trap(RuntimeError::NotFoundFuncType(sig as usize));
        }
        let ghost s = self@;
        let ghost old_stack = self.stack@;
        match &self.store.tables[table as usize].funcs[elem] {
            None => Step::Trap(RuntimeError::UninitializedElement(elem)),
            Some(func) => {
                let ty = match func {
                    FuncInst::Internal(f) => &f.func_type,
                    FuncInst::External(f) => &f.func_type,
                };
                let expected = &self.store.module.func_types[sig as usize];
                if !(value_types_equal(&ty.params, &expected.params) && value_types_equal(&ty.results, &expected.results)) {
                    return Step::Trap(RuntimeError::TypeMismatchIndirectCall);
                }
                self.stack.truncate(n - 1);
                let o = invoke_func(&mut self.stack, &mut self.call_stack, func, Ghost(s));
                if let Step::Trap(_) = o {
                    self.stack.push(c);
                    assert(self.stack@ =~= old_stack);
                }
                o
            },
        }
    }
}

impl Runtime {
    fn exec_select(&mut self, frame: Frame, insts: Vec<Instruction>) -> (o: Step)
        ensures
            (final(self)@, o@) == spec_select(current(old(self)@, frame, insts@)),
            final(self).start == old(self).start,
    {
        self.put_back(frame, insts);
        let n = self.stack.len();
        if n == 0 {
            return Step::Trap(RuntimeError::StackPopError);
        }
        let cond = match self.stack[n - 1] {
            Value::I32(x) => x,
            _ => return Step::Trap(RuntimeError::UnexpectedStackValueType),
        };
        if n < 3 {
            return Step::Trap(RuntimeError::StackPopError);
        }
        let v = if cond != 0 {
            self.stack[n - 3]
        } else {
            self.stack[n - 2]
        };
        self.stack.truncate(n - 3);
        self.stack.push(v);
        Step::Continue
    }

    fn exec_variable(&mut self, frame: Frame, insts: Vec<Instruction>, op: Opcode) -> (o: Step)
        requires
            at_op(frame, insts@, op),
            op == Opcode::LocalGet || op == Opcode::LocalSet || op == Opcode::LocalTee || op == Opcode::GlobalGet
                || op == Opcode::GlobalSet,
        ensures
            (final(self)@, o@) == match op {
                Opcode::LocalGet => spec_local_get(current(old(self)@, frame, insts@), imm_at(frame, insts@)->Index_0),
                Opcode::LocalSet => spec_local_set(current(old(self)@, frame, insts@), imm_at(frame, insts@)->Index_0, false),
                Opcode::LocalTee => spec_local_set(current(old(self)@, frame, insts@), imm_at(frame, insts@)->Index_0, true),
                Opcode::GlobalGet => spec_global_get(current(old(self)@, frame, insts@), imm_at(frame, insts@)->Index_0),
                _ => spec_global_set(current(old(self)@, frame, insts@), imm_at(frame, insts@)->Index_0),
            },
            final(self).start == old(self).start,
    {
        let idx = match &insts[frame.pc as usize] {
            Instruction::LocalGet(x) => *x,
            Instruction::LocalSet(x) => *x,
            Instruction::LocalTee(x) => *x,
            Instruction::GlobalGet(x) => *x,
            Instruction::GlobalSet(x) => *x,
            _ => 0,
        };
        let mut frame = frame;
        match op {
            Opcode::LocalGet => {
                let r = local_get(frame.locals.as_slice(), &mut self.stack, idx as usize);
                self.put_back(frame, insts);
                match r {
                    Ok(()) => Step::Continue,
                    Err(e) => Step::Trap(e),
                }
            },
            Opcode::LocalSet => {
                let r = local_set(&mut frame.locals, &mut self.stack, idx as usize);
                self.put_back(frame, insts);
                match r {
                    Ok(()) => Step::Continue,
                    Err(e) => Step::Trap(e),
                }
            },
            Opcode::LocalTee => {
                let r = local_tee(&mut frame.locals, &mut self.stack, idx as usize);
                self.put_back(frame, insts);
                match r {
                    Ok(()) => Step::Continue,
                    Err(e) => Step::Trap(e),
                }
            },
            Opcode::GlobalGet => {
                self.put_back(frame, insts);
                match global_get(&self.store.globals, &mut self.stack, idx as usize) {
                    Ok(()) => Step::Continue,
                    Err(e) => Step::Trap(e),
                }
            },
            _ => {
                self.put_back(frame, insts);
                match global_set(&mut self.store.globals, &mut self.stack, idx as usize) {
                    Ok(()) => Step::Continue,
                    Err(e) => Step::Trap(e),
                }
            },
        }
    }

    fn exec_memory_size(&mut self, frame: Frame, insts: Vec<Instruction>) -> (o: Step)
        ensures
            (final(self)@, o@) == spec_memory_size(current(old(self)@, frame, insts@)),
            final(self).start == old(self).start,
    {
        self.put_back(frame, insts);
        if self.store.memory.len() == 0 {
            return Step::Trap(RuntimeError::NotFoundMemory(0));
        }
        let size = self.store.memory[0].size();
        self.stack.push(Value::I32(size as i32));
        Step::Continue
    }

    fn exec_memory_grow(&mut self, frame: Frame, insts: Vec<Instruction>) -> (o: Step)
        ensures
            (final(self)@, o@) == spec_memory_grow(current(old(self)@, frame, insts@)),
            final(self).start == old(self).start,
    {
        self.put_back(frame, insts);
        if self.store.memory.len() == 0 {
            return Step::Trap(RuntimeError::NotFoundMemory(0));
        }
        let n = self.stack.len();
        if n == 0 {
            return Step::Trap(RuntimeError::StackPopError);
        }
        let x = match self.stack[n - 1] {
            Value::I32(x) => x,
            _ => return Step::Trap(RuntimeError::UnexpectedStackValueType),
        };
        let size = self.store.memory[0].size();
        let ghost mems = self.store.memory@;
        let mut mem = self.store.memory.remove(0);
        let r = mem.grow(super::integer::to_unsigned_i32(x));
        self.store.memory.insert(0, mem);
        proof {
            assert(self.store.memory@ =~= mems.update(0, mem));
            assert(views(self.store.memory@) =~= views(mems).update(0, mem@));
        }
        self.stack.truncate(n - 1);
        match r {
            Ok(()) => self.stack.push(Value::I32(size as i32)),
            Err(_) => {
                proof {
                    assert(views(self.store.memory@) =~= views(mems));
                }
                self.stack.push(Value::I32(-1))
            },
        }
        Step::Continue
    }

    fn exec_const(&mut self, frame: Frame, insts: Vec<Instruction>, op: Opcode) -> (o: Step)
        requires
            at_op(frame, insts@, op),
            op == Opcode::I32Const || op == Opcode::I64Const || op == Opcode::F32Const || op == Opcode::F64Const,
        ensures
            (final(self)@, o@) == cont(with_stack(current(old(self)@, frame, insts@), old(self).stack@.push(
                match imm_at(frame, insts@) {
                    ImmediateV::I32(x) => Value::I32(x),
                    ImmediateV::I64(x) => Value::I64(x),
                    ImmediateV::F32(x) => Value::F32(x),
                    ImmediateV::F64(x) => Value::F64(x),
                    _ => Value::I32(0),
                },
            ))),
            final(self).start == old(self).start,
    {
        let v = match &insts[frame.pc as usize] {
            Instruction::I32Const(x) => Value::I32(*x),
            Instruction::I64Const(x) => Value::I64(*x),
            Instruction::F32Const(x) => Value::F32(*x),
            Instruction::F64Const(x) => Value::F64(*x),
            _ => Value::I32(0),
        };
        self.stack.push(v);
        self.put_back(frame, insts);
        Step::Continue
    }
}

/// The start of a call of the function `idx`, whose arguments are on the
/// stack.
pub open spec fn spec_start_invoke(s: RuntimeV, idx: usize) -> (RuntimeV, StepV) {
    if idx >= s.store.funcs.len() {
        trap(s, RuntimeError::NotFoundFunction(idx))
    } else {
        spec_invoke(s, s.stack, s.store.funcs[idx as int])
    }
}

/// The start of a call of the exported function `name` with `args`: the
/// arguments are pushed, and the function is looked up among the exports. A
/// name that is not an exported function is refused with the arguments left
/// on the stack; a function that cannot start drops the stack and the
/// frames.
pub open spec fn spec_start_call(s: RuntimeV, name: Seq<char>, args: Seq<Value>) -> (RuntimeV, StepV) {
    let t = with_stack(s, s.stack + args);
    match export_lookup(s.store.exports, name) {
        None => trap(t, RuntimeError::NotFoundExport),
        Some(ExternalVal::Func(idx)) => settle(spec_start_invoke(t, idx as usize)),
        Some(_) => trap(t, RuntimeError::InvalidExportDesc),
    }
}

/// What the export `name` refers to, once it is known to exist in the store;
/// every memory export refers to the first memory.
pub open spec fn spec_export(s: StoreV, name: Seq<char>) -> Result<ExternalVal, RuntimeError> {
    match export_lookup(s.exports, name) {
        None => Err(RuntimeError::NotFoundExport),
        Some(ExternalVal::Table(idx)) => if idx < s.tables.len() {
            Ok(ExternalVal::Table(idx))
        } else {
            Err(RuntimeError::NotFoundTable(idx as usize))
        },
        Some(ExternalVal::Memory(_)) => if s.memory.len() > 0 {
            Ok(ExternalVal::Memory(0))
        } else {
            Err(RuntimeError::NotFoundMemory(0))
        },
        Some(ExternalVal::Global(idx)) => if idx < s.globals.len() {
            Ok(ExternalVal::Global(idx))
        } else {
            Err(RuntimeError::NotFoundGlobalVariable(idx as usize))
        },
        Some(ExternalVal::Func(idx)) => if idx < s.funcs.len() {
            Ok(ExternalVal::Func(idx))
        } else {
            Err(RuntimeError::NotFoundFunction(idx as usize))
        },
    }
}

impl Runtime {
    /// Runs the next instruction of the top frame; after a trap, the stack
    /// and the frames are dropped.
    pub fn step(&mut self) -> (o: Step)
        ensures
            (final(self)@, o@) == spec_step(old(self)@),
            final(self).start == old(self).start,
    {
        let o = self.advance();
        if let Step::Trap(_) = o {
            self.clear();
        }
        o
    }

    /// Runs the next instruction of the top frame; a trap changes nothing
    /// but the pc.
    #[verifier::rlimit(60)]
    fn advance(&mut self) -> (o: Step)
        ensures
            (final(self)@, o@) == spec_advance(old(self)@),
            final(self).start == old(self).start,
    {
        let n = self.call_stack.len();
        if n == 0 {
            return Step::Finished;
        }
        let pc = self.call_stack[n - 1].pc;
        let len = self.call_stack[n - 1].insts.len();
        proof {
            assert(views(self.call_stack@)[n - 1] == self.call_stack@[n - 1]@);
        }
        if pc < -1 || pc == isize::MAX || (pc + 1) as usize >= len {
            return Step::Finished;
        }
        let mut frame = match self.call_stack.pop() {
            Some(f) => f,
            None => return Step::Finished,
        };
        let ghost top = frame@;
        let next: isize = pc + 1;
        frame.pc = next;
        let mut insts: Vec<Instruction> = Vec::new();
        std::mem::swap(&mut insts, &mut frame.insts);
        proof {
            assert(views(self.call_stack@) =~= views(old(self).call_stack@).drop_last());
            assert(restored(frame, insts@) == frame_at(top, next, top.labels));
            assert(current(self@, frame, insts@) == with_top(old(self)@, frame_at(top, next, top.labels)));
        }
        let i = next as usize;
        let op = insts[i].opcode();
        if exec_is_binary_op(op) {
            return self.exec_binary(frame, insts, op);
        }
        if exec_is_unary_op(op) {
            return self.exec_unary(frame, insts, op);
        }
        if exec_is_load_op(op) {
            return self.exec_load(frame, insts, op);
        }
        if exec_is_store_op(op) {
            return self.exec_store(frame, insts, op);
        }
        match op {
            Opcode::Unreachable => {
                self.put_back(frame, insts);
                Step::Trap(RuntimeError::Unreachable)
            },
            Opcode::Nop => {
                self.put_back(frame, insts);
                Step::Continue
            },
            Opcode::Block => self.exec_block(frame, insts, LabelKind::Block),
            Opcode::Loop => self.exec_block(frame, insts, LabelKind::Loop),
            Opcode::If => self.exec_if(frame, insts),
            Opcode::Else => self.exec_leave_label(frame, insts),
            Opcode::End => if frame.labels.len() > 0 {
                self.exec_leave_label(frame, insts)
            } else {
                self.exec_return(frame, insts)
            },
            Opcode::Br => {
                let level = match &insts[i] {
                    Instruction::Br(l) => *l,
                    _ => 0,
                };
                self.exec_branch(frame, insts, level, None)
            },
            Opcode::BrIf => self.exec_br_if(frame, insts),
            Opcode::BrTable => self.exec_br_table(frame, insts),
            Opcode::Return => self.exec_return(frame, insts),
            Opcode::Call => self.exec_call(frame, insts),
            Opcode::CallIndirect => self.exec_call_indirect(frame, insts),
            Opcode::Drop => {
                self.put_back(frame, insts);
                self.stack.pop();
                Step::Continue
            },
            Opcode::Select => self.exec_select(frame, insts),
            Opcode::LocalGet | Opcode::LocalSet | Opcode::LocalTee | Opcode::GlobalGet | Opcode::GlobalSet => {
                self.exec_variable(frame, insts, op)
            },
            Opcode::MemorySize => self.exec_memory_size(frame, insts),
            Opcode::MemoryGrow => self.exec_memory_grow(frame, insts),
            Opcode::I32Const | Opcode::I64Const | Opcode::F32Const | Opcode::F64Const => self.exec_const(frame, insts, op),
            _ => {
                self.put_back(frame, insts);
                Step::Continue
            },
        }
    }

    /// Runs up to `fuel` steps, and stops at the first that does not
    /// continue: `Continue` means the fuel ran out.
    pub fn execute(&mut self, fuel: u64) -> (o: Step)
        ensures
            (final(self)@, o@) == spec_run(old(self)@, fuel as nat),
            final(self).start == old(self).start,
    {
        let mut remaining = fuel;
        while remaining > 0
            invariant
                spec_run(old(self)@, fuel as nat) == spec_run(self@, remaining as nat),
                self.start == old(self).start,
            decreases remaining,
        {
            let o = self.step();
            match o {
                Step::Continue => {},
                _ => return o,
            }
            remaining = remaining - 1;
        }
        Step::Continue
    }

    /// Starts a call of the function `idx`, whose arguments are on the stack.
    pub fn invoke(&mut self, idx: usize) -> (o: Step)
        ensures
            (final(self)@, o@) == spec_start_invoke(old(self)@, idx),
            final(self).start == old(self).start,
    {
        if idx >= self.store.funcs.len() {
            return Step::Trap(RuntimeError::NotFoundFunction(idx));
        }
        let ghost s = self@;
        invoke_func(&mut self.stack, &mut self.call_stack, &self.store.funcs[idx], Ghost(s))
    }

    /// Starts a call of the exported function `name` with `args`.
    pub fn call(&mut self, name: &String, args: Vec<Value>) -> (o: Step)
        ensures
            (final(self)@, o@) == spec_start_call(old(self)@, name@, args@),
            final(self).start == old(self).start,
    {
        let mut args = args;
        self.stack.append(&mut args);
        match self.store.module.get_export(name) {
            None => Step::Trap(RuntimeError::NotFoundExport),
            Some(ExternalVal::Func(idx)) => {
                let o = self.invoke(idx as usize);
                if let Step::Trap(_) = o {
                    self.clear();
                }
                o
            },
            Some(_) => Step::Trap(RuntimeError::InvalidExportDesc),
        }
    }

    /// Starts a call of the start function `idx` with `args`; when it cannot
    /// start, the stack and the frames are dropped.
    pub fn call_start(&mut self, idx: usize, args: Vec<Value>) -> (o: Step)
        ensures
            (final(self)@, o@) == settle(spec_start_invoke(with_stack(old(self)@, old(self)@.stack + args@), idx)),
            final(self).start == old(self).start,
    {
        let mut args = args;
        self.stack.append(&mut args);
        let o = self.invoke(idx);
        if let Step::Trap(_) = o {
            self.clear();
        }
        o
    }

    /// Pushes what the host computed for a step that it was handed.
    pub fn resume(&mut self, value: Option<Value>)
        ensures
            final(self)@ == with_stack(old(self)@, with_popped(old(self)@.stack, value)),
            final(self).start == old(self).start,
    {
        if let Some(v) = value {
            self.stack.push(v);
        }
    }

    /// Pops the result of a call that gives `arity` results.
    pub fn take_result(&mut self, arity: usize) -> (r: Result<Option<Value>, RuntimeError>)
        ensures
            arity == 0 ==> r == Ok::<Option<Value>, RuntimeError>(None) && final(self)@ == old(self)@,
            arity > 0 && old(self)@.stack.len() > 0 ==> r == Ok::<Option<Value>, RuntimeError>(Some(old(self)@.stack.last()))
                && final(self)@ == with_stack(old(self)@, old(self)@.stack.drop_last()),
            arity > 0 && old(self)@.stack.len() == 0 ==> r == Err::<Option<Value>, RuntimeError>(RuntimeError::StackPopError)
                && final(self)@ == old(self)@,
            final(self).start == old(self).start,
    {
        if arity == 0 {
            return Ok(None);
        }
        match self.stack.pop() {
            Some(v) => Ok(Some(v)),
            None => Err(RuntimeError::StackPopError),
        }
    }

    /// Drops the stack and the frames, as after a trap.
    pub fn clear(&mut self)
        ensures
            final(self)@ == after_trap(old(self)@),
            final(self).start == old(self).start,
    {
        self.stack = Vec::new();
        self.call_stack = Vec::new();
        assert(views(self.call_stack@) =~= Seq::<FrameV>::empty());
    }

    /// The frame on top of the call stack.
    pub fn current_frame(&self) -> (r: Result<&Frame, RuntimeError>)
        ensures
            self.call_stack@.len() > 0 ==> (r matches Ok(f) && *f == self.call_stack@.last()),
            self.call_stack@.len() == 0 ==> r == Err::<&Frame, RuntimeError>(RuntimeError::CallStackEmpty),
    {
        let n = self.call_stack.len();
        if n == 0 {
            return Err(RuntimeError::CallStackEmpty);
        }
        Ok(&self.call_stack[n - 1])
    }

    /// What the export `name` refers to in the store.
    pub fn exports(&self, name: &String) -> (r: Result<ExternalVal, RuntimeError>)
        ensures
            r == spec_export(self.store@, name@),
    {
        match self.store.module.get_export(name) {
            None => Err(RuntimeError::NotFoundExport),
            Some(ExternalVal::Table(idx)) => if (idx as usize) < self.store.tables.len() {
                Ok(ExternalVal::Table(idx))
            } else {
                Err(RuntimeError::NotFoundTable(idx as usize))
            },
            Some(ExternalVal::Memory(_)) => if self.store.memory.len() > 0 {
                Ok(ExternalVal::Memory(0))
            } else {
                Err(RuntimeError::NotFoundMemory(0))
            },
            Some(ExternalVal::Global(idx)) => if (idx as usize) < self.store.globals.len() {
                Ok(ExternalVal::Global(idx))
            } else {
                Err(RuntimeError::NotFoundGlobalVariable(idx as usize))
            },
            Some(ExternalVal::Func(idx)) => if (idx as usize) < self.store.funcs.len() {
                Ok(ExternalVal::Func(idx))
            } else {
                Err(RuntimeError::NotFoundFunction(idx as usize))
            },
        }
    }
}


/// A step that traps leaves the store as it was, with no value on the stack
/// and no frame.
pub proof fn lemma_trap_clears(s: RuntimeV)
    requires
        spec_step(s).1 is Trap,
    ensures
        s.frames.len() > 0,
        spec_step(s).0 == after_trap(s),
{
}

/// A call that fails once its function is found leaves no value on the
/// stack and no frame; one whose name is not an exported function leaves the
/// arguments pushed and runs nothing.
pub proof fn lemma_failed_call_clears(s: RuntimeV, name: Seq<char>, args: Seq<Value>)
    requires
        spec_start_call(s, name, args).1 is Trap,
    ensures
        export_lookup(s.store.exports, name) matches Some(ExternalVal::Func(_)) ==> spec_start_call(s, name, args).0
            == after_trap(s),
        !(export_lookup(s.store.exports, name) matches Some(ExternalVal::Func(_))) ==> spec_start_call(s, name, args).0
            == with_stack(s, s.stack + args),
{
    match export_lookup(s.store.exports, name) {
        Some(ExternalVal::Func(idx)) => {
            let t = with_stack(s, s.stack + args);
            let (u, o) = spec_start_invoke(t, idx as usize);
            assert(u.store == t.store);
        },
        _ => {},
    }
}

/// A step changes neither the functions, the tables, the types nor the
/// exports of the store: only the stack, the frames, the memories and the
/// globals.
pub proof fn lemma_step_keeps_code(s: RuntimeV)
    ensures
        spec_step(s).0.store.funcs == s.store.funcs,
        spec_step(s).0.store.tables == s.store.tables,
        spec_step(s).0.store.func_types == s.store.func_types,
        spec_step(s).0.store.exports == s.store.exports,
        spec_step(s).0.store.start == s.store.start,
{
    lemma_advance_keeps_code(s);
}

proof fn lemma_advance_keeps_code(s: RuntimeV)
    ensures
        spec_advance(s).0.store.funcs == s.store.funcs,
        spec_advance(s).0.store.tables == s.store.tables,
        spec_advance(s).0.store.func_types == s.store.func_types,
        spec_advance(s).0.store.exports == s.store.exports,
        spec_advance(s).0.store.start == s.store.start,
{
}

/// A finished run stays finished: stepping again changes nothing.
pub proof fn lemma_finished_is_final(s: RuntimeV)
    requires
        spec_step(s).1 is Finished,
    ensures
        spec_step(s).0 == s,
        spec_step(spec_step(s).0).1 is Finished,
{
}

/// Running `a` steps and then `b` more is running `a + b` steps, when the
/// first run only ran out of fuel.
pub proof fn lemma_run_split(s: RuntimeV, a: nat, b: nat)
    requires
        spec_run(s, a).1 is Continue,
    ensures
        spec_run(s, a + b) == spec_run(spec_run(s, a).0, b),
    decreases a,
{
    if a > 0 {
        let (t, o) = spec_step(s);
        lemma_run_split(t, (a - 1) as nat, b);
        assert((a + b - 1) as nat == (a - 1) as nat + b);
    }
}


/// Returning from a frame gives back the stack of its caller, with the
/// arguments of the call replaced by the result, whatever the callee pushed
/// on top.
pub proof fn lemma_return_restores_caller_stack(func: FuncInstV, stack: Seq<Value>, pushed: Seq<Value>)
    requires
        spec_enter(func, stack) is Ok,
        stack.len() <= usize::MAX,
        pushed.len() > 0,
    ensures
        ({
            let (frame, caller) = spec_enter(func, stack)->Ok_0;
            &&& caller == stack.take(stack.len() - func_inst_type(func).0.len())
            &&& spec_unwind(caller + pushed, frame.sp, frame.arity) == Ok::<Seq<Value>, RuntimeError>(
                if frame.arity > 0 {
                    caller.push(pushed.last())
                } else {
                    caller
                },
            )
        }),
{
    let (frame, caller) = spec_enter(func, stack)->Ok_0;
    let all = caller + pushed;
    assert(all.take(frame.sp as int) =~= caller);
    assert(all.last() == pushed.last());
}


/// A run that stopped before its fuel ran out stops the same way with more
/// fuel.
pub proof fn lemma_run_stops(s: RuntimeV, a: nat, b: nat)
    requires
        !(spec_run(s, a).1 is Continue),
    ensures
        spec_run(s, a + b) == spec_run(s, a),
    decreases a,
{
    if a > 0 {
        let (t, o) = spec_step(s);
        if o is Continue {
            lemma_run_stops(t, (a - 1) as nat, b);
            assert((a + b - 1) as nat == (a - 1) as nat + b);
        }
    }
}

/// A step keeps the number of memories and of globals, and no memory
/// shrinks.
pub proof fn lemma_step_keeps_memories(s: RuntimeV)
    ensures
        spec_step(s).0.store.memory.len() == s.store.memory.len(),
        spec_step(s).0.store.globals.len() == s.store.globals.len(),
        forall|i: int|
            0 <= i < s.store.memory.len() ==> #[trigger] spec_step(s).0.store.memory[i].0.len() >= s.store.memory[i].0.len(),
{
    lemma_advance_keeps_memories(s);
}

proof fn lemma_advance_keeps_memories(s: RuntimeV)
    ensures
        spec_advance(s).0.store.memory.len() == s.store.memory.len(),
        spec_advance(s).0.store.globals.len() == s.store.globals.len(),
        forall|i: int|
            0 <= i < s.store.memory.len() ==> #[trigger] spec_advance(s).0.store.memory[i].0.len()
                >= s.store.memory[i].0.len(),
{
}


/// `local.get` of the local that `local.set` just set pushes the value that
/// was set; `local.set` past the last local adds the locals up to it.
pub proof fn lemma_local_get_after_set(s: RuntimeV, idx: u32)
    requires
        s.frames.len() > 0,
        s.stack.len() > 0,
    ensures
        ({
            let (t, o) = spec_local_set(s, idx, false);
            &&& o is Continue
            &&& t.stack == s.stack.drop_last()
            &&& spec_local_get(t, idx) == cont(with_stack(t, s.stack))
        }),
{
    let f = s.frames.last();
    let locals = spec_set_local(f.locals, idx as usize, s.stack.last());
    assert(locals.len() > idx && locals[idx as int] == s.stack.last());
    let (t, o) = spec_local_set(s, idx, false);
    assert(t.frames.last() == frame_with_locals(f, locals));
    assert(s.stack.drop_last().push(s.stack.last()) =~= s.stack);
}

/// `global.get` of the global that `global.set` just set pushes the value
/// that was set.
pub proof fn lemma_global_get_after_set(s: RuntimeV, idx: u32)
    requires
        s.stack.len() > 0,
        idx < s.store.globals.len(),
    ensures
        ({
            let (t, o) = spec_global_set(s, idx);
            &&& o is Continue
            &&& t.stack == s.stack.drop_last()
            &&& spec_global_get(t, idx) == cont(with_stack(t, s.stack))
        }),
{
    assert(s.stack.drop_last().push(s.stack.last()) =~= s.stack);
}



/// `select` with the operands `v1`, `v2` and an `i32` condition on top of
/// the stack keeps `v1` when the condition is not zero and `v2` when it is
/// zero, in place of the three.
pub proof fn lemma_select_keeps_first_on_true(s: RuntimeV, rest: Seq<Value>, v1: Value, v2: Value, c: i32)
    requires
        s.frames.len() > 0,
        0 <= s.frames.last().pc + 1 < s.frames.last().insts.len(),
        s.frames.last().pc + 1 <= isize::MAX,
        s.frames.last().insts[s.frames.last().pc + 1].0 == Opcode::Select,
        s.stack == rest + seq![v1, v2, Value::I32(c)],
    ensures
        spec_step(s).1 is Continue,
        spec_step(s).0.stack == rest.push(if c != 0 { v1 } else { v2 }),
{
    let n = s.stack.len();
    assert(s.stack[n - 3] == v1 && s.stack[n - 2] == v2 && s.stack.last() == Value::I32(c));
    assert(s.stack.take(n - 3) =~= rest);
}

/// Whether the next instruction of the top frame is `(op, imm)`.
pub open spec fn next_is(s: RuntimeV, op: Opcode, imm: ImmediateV) -> bool {
    &&& s.frames.len() > 0
    &&& 0 <= s.frames.last().pc + 1 < s.frames.last().insts.len()
    &&& s.frames.last().pc + 1 <= isize::MAX
    &&& s.frames.last().insts[s.frames.last().pc + 1] == (op, imm)
}

/// `br_if` with a zero condition on top of the stack only pops it: the
/// frame goes on with the next instruction, its labels as they were.
pub proof fn lemma_br_if_zero_goes_on(s: RuntimeV, level: u32, rest: Seq<Value>)
    requires
        next_is(s, Opcode::BrIf, ImmediateV::Index(level)),
        s.stack == rest.push(Value::I32(0)),
    ensures
        spec_step(s).1 is Continue,
        spec_step(s).0.stack == rest,
        spec_step(s).0.store == s.store,
        spec_step(s).0.frames.len() == s.frames.len(),
        spec_step(s).0.frames.last().pc == s.frames.last().pc + 1,
        spec_step(s).0.frames.last().labels == s.frames.last().labels,
        spec_step(s).0.frames.last().locals == s.frames.last().locals,
{
    assert(s.stack.drop_last() =~= rest);
}

/// `br` to the enclosing block `level` labels outward, and `br_if` with a
/// condition that is not zero, leave that block and the blocks inside it: the
/// stack drops to the height the block had on entry, keeping the top value
/// when the block has a result, and execution goes on at the block's `end`.
pub proof fn lemma_branch_leaves_block(s: RuntimeV, level: u32, rest: Seq<Value>, c: i32)
    requires
        (next_is(s, Opcode::Br, ImmediateV::Index(level)) && s.stack == rest)
            || (next_is(s, Opcode::BrIf, ImmediateV::Index(level)) && c != 0 && s.stack == rest.push(Value::I32(c))),
        level < s.frames.last().labels.len(),
        ({
            let labels = s.frames.last().labels;
            let label = labels[labels.len() - 1 - level];
            &&& label.kind != LabelKind::Loop
            &&& label.pc <= isize::MAX
            &&& label.sp + (if label.arity > 0 { 1int } else { 0 }) <= rest.len()
        }),
    ensures
        ({
            let labels = s.frames.last().labels;
            let label = labels[labels.len() - 1 - level];
            let (t, o) = spec_step(s);
            &&& o is Continue
            &&& t.store == s.store
            &&& t.frames.len() == s.frames.len()
            &&& t.frames.last().pc == label.pc
            &&& t.frames.last().labels == labels.take(labels.len() - 1 - level)
            &&& t.frames.last().locals == s.frames.last().locals
            &&& t.stack == if label.arity > 0 { rest.take(label.sp as int).push(rest.last()) } else { rest.take(label.sp as int) }
        }),
{
    if s.stack != rest {
        assert(s.stack.drop_last() =~= rest);
    }
}

/// A branch to an enclosing `loop` goes back to the loop's start: the stack
/// drops to the height it had on entry, the loop's label stays, and the
/// labels inside it go.
pub proof fn lemma_branch_repeats_loop(s: RuntimeV, level: u32, rest: Seq<Value>, c: i32)
    requires
        (next_is(s, Opcode::Br, ImmediateV::Index(level)) && s.stack == rest)
            || (next_is(s, Opcode::BrIf, ImmediateV::Index(level)) && c != 0 && s.stack == rest.push(Value::I32(c))),
        level < s.frames.last().labels.len(),
        ({
            let labels = s.frames.last().labels;
            let label = labels[labels.len() - 1 - level];
            &&& label.kind == LabelKind::Loop
            &&& label.start is Some
            &&& label.sp <= rest.len()
        }),
    ensures
        ({
            let labels = s.frames.last().labels;
            let label = labels[labels.len() - 1 - level];
            let (t, o) = spec_step(s);
            &&& o is Continue
            &&& t.store == s.store
            &&& t.frames.len() == s.frames.len()
            &&& t.frames.last().pc == label.start->0
            &&& t.frames.last().labels == labels.take(labels.len() - level)
            &&& t.frames.last().locals == s.frames.last().locals
            &&& t.stack == rest.take(label.sp as int)
        }),
{
    if s.stack != rest {
        assert(s.stack.drop_last() =~= rest);
    }
}

/// `call` of a function of the module moves the arguments from the top of
/// the stack into the first locals of a new frame, in order, followed by a
/// zero for each declared local; the new frame starts at the function's
/// first instruction with no label, and the caller will go on after the
/// `call`.
pub proof fn lemma_call_passes_arguments(s: RuntimeV, idx: u32, rest: Seq<Value>, args: Seq<Value>)
    requires
        next_is(s, Opcode::Call, ImmediateV::Index(idx)),
        idx < s.store.funcs.len(),
        s.store.funcs[idx as int] is Internal,
        args.len() == func_inst_type(s.store.funcs[idx as int]).0.len(),
        s.stack == rest + args,
        rest.len() <= usize::MAX,
    ensures
        ({
            let (t, o) = spec_step(s);
            let code = s.store.funcs[idx as int]->Internal_1;
            let g = t.frames.last();
            &&& o is Continue
            &&& t.store == s.store
            &&& t.stack == rest
            &&& t.frames.len() == s.frames.len() + 1
            &&& t.frames[s.frames.len() - 1].pc == s.frames.last().pc + 1
            &&& t.frames[s.frames.len() - 1].locals == s.frames.last().locals
            &&& g.locals.len() == args.len() + code.locals.len()
            &&& (forall|i: int| 0 <= i < args.len() ==> #[trigger] g.locals[i] == args[i])
            &&& (forall|j: int| 0 <= j < code.locals.len() ==> #[trigger] g.locals[args.len() + j] == zero_of(code.locals[j]))
            &&& g.pc == -1
            &&& g.labels.len() == 0
            &&& g.insts == code.body
            &&& g.sp == rest.len()
        }),
{
    let n = args.len();
    let func = s.store.funcs[idx as int];
    let code = func->Internal_1;
    assert(s.stack.take(s.stack.len() - n) =~= rest);
    assert(s.stack.skip(s.stack.len() - n) =~= args);
    let f = s.frames.last();
    let t0 = with_top(s, frame_at(f, (f.pc + 1) as isize, f.labels));
    let (frame, st) = spec_enter(func, t0.stack)->Ok_0;
    assert(frame.locals == args + zeros_of(code.locals));
    assert forall|j: int| 0 <= j < code.locals.len() implies #[trigger] frame.locals[n + j] == zero_of(code.locals[j]) by {
        assert(frame.locals[n + j] == zeros_of(code.locals)[j]);
    }
    assert(spec_step(s) == cont(with_frames(with_stack(t0, st), t0.frames.push(frame))));
}

/// `memory.size` pushes the number of pages of the memory.
pub proof fn lemma_memory_size(s: RuntimeV, imm: ImmediateV)
    requires
        next_is(s, Opcode::MemorySize, imm),
        s.store.memory.len() > 0,
        s.store.memory[0].0.len() <= 0x8000_0000,
    ensures
        spec_step(s).1 is Continue,
        spec_step(s).0.stack == s.stack.push(Value::I32((s.store.memory[0].0.len() / 0x1_0000) as i32)),
        spec_step(s).0.store == s.store,
{
}

/// `memory.grow` by `n` pages (`n` read unsigned) pushes the old number of
/// pages and adds `n` pages of zeros after the bytes, which stay, when the
/// memory may have that many pages; else it pushes -1 and the memory stays
/// as it was.
pub proof fn lemma_memory_grow(s: RuntimeV, imm: ImmediateV, rest: Seq<Value>, n: i32)
    requires
        next_is(s, Opcode::MemoryGrow, imm),
        s.store.memory.len() > 0,
        s.stack == rest.push(Value::I32(n)),
        s.store.memory[0].0.len() % 0x1_0000 == 0,
        s.store.memory[0].0.len() <= 0x8000_0000,
    ensures
        ({
            let (data, max) = s.store.memory[0];
            let (t, o) = spec_step(s);
            let old_pages = data.len() / 0x1_0000;
            let pages = old_pages + (n as int) % 0x1_0000_0000;
            &&& o is Continue
            &&& t.store.globals == s.store.globals
            &&& t.store.funcs == s.store.funcs
            &&& t.store.memory.len() == s.store.memory.len()
            &&& if (max is None || pages <= max->0) && pages <= page_limit() {
                &&& t.stack == rest.push(Value::I32(old_pages as i32))
                &&& t.store.memory[0].1 == max
                &&& t.store.memory[0].0.len() == pages * 0x1_0000
                &&& t.store.memory[0].0.subrange(0, data.len() as int) == data
                &&& forall|k: int| data.len() <= k < pages * 0x1_0000 ==> #[trigger] t.store.memory[0].0[k] == 0
            } else {
                &&& t.stack == rest.push(Value::I32(-1i32))
                &&& t.store == s.store
            }
        }),
{
    let (data, max) = s.store.memory[0];
    lemma_unsigned_i32(n);
    let k = unsigned_i32(n);
    assert(s.stack.drop_last() =~= rest);
    if spec_grow(data, max, k) is Ok {
        let grown = spec_grow(data, max, k)->Ok_0;
        assert forall|j: int| 0 <= j < grown.len() implies (j < data.len() ==> #[trigger] grown[j] == data[j]) && (j >= data.len() ==> grown[j] == 0) by {
            lemma_grow_keeps_bytes(data, max, k, j);
        }
        if grown.len() > 0 {
            lemma_grow_keeps_bytes(data, max, k, 0);
        }
        assert(grown.subrange(0, data.len() as int) =~= data);
        assert(data.len() / 0x1_0000 * 0x1_0000 == data.len());
    }
}

/// `if` with a condition that is not zero goes on with the instruction after
/// it, inside a new block whose end is an `End` after the `if`; with a zero
/// condition it goes on after the `else`, or at the `end`, of the `if`.
/// Either way the condition is popped.
pub proof fn lemma_if_picks_branch(s: RuntimeV, bt: Option<Seq<ValueType>>, rest: Seq<Value>, c: i32)
    requires
        next_is(s, Opcode::If, ImmediateV::BlockType(bt)),
        s.stack == rest.push(Value::I32(c)),
        s.frames.last().insts.len() <= isize::MAX,
        rest.len() <= usize::MAX,
    ensures
        ({
            let f = s.frames.last();
            let at = f.pc + 1;
            let (t, o) = spec_step(s);
            let g = t.frames.last();
            o is Continue ==> {
                &&& t.stack == rest
                &&& t.frames.len() == s.frames.len()
                &&& g.labels.len() == f.labels.len() + 1
                &&& g.labels.last().kind == LabelKind::If
                &&& g.labels.last().sp == rest.len()
                &&& at < g.labels.last().pc < f.insts.len()
                &&& f.insts[g.labels.last().pc as int].0 == Opcode::End
                &&& c != 0 ==> g.pc == at
                &&& c == 0 ==> (at < g.pc < f.insts.len() && f.insts[g.pc as int].0 == Opcode::Else)
                    || (at <= g.pc && g.pc + 1 < f.insts.len() && f.insts[g.pc + 1].0 == Opcode::End)
            }
        }),
{
    let f = s.frames.last();
    let at = f.pc + 1;
    lemma_scan_end_found(f.insts, at + 1, 0);
    lemma_scan_else_or_end_found(f.insts, at + 1, 0);
    assert(s.stack.drop_last() =~= rest);
}

/// `local.tee` sets the local to the value on top of the stack and leaves
/// the stack as it was.
pub proof fn lemma_local_tee_keeps_value(s: RuntimeV, idx: u32)
    requires
        next_is(s, Opcode::LocalTee, ImmediateV::Index(idx)),
        s.stack.len() > 0,
        idx < s.frames.last().locals.len(),
    ensures
        spec_step(s).1 is Continue,
        spec_step(s).0.stack == s.stack,
        spec_step(s).0.frames.last().locals == s.frames.last().locals.update(idx as int, s.stack.last()),
{
    let f = s.frames.last();
    assert(spec_set_local(f.locals, idx as usize, s.stack.last()) =~= f.locals.update(idx as int, s.stack.last()));
}

/// The constant instructions push their immediate, of their own type; `drop`
/// pops the top value.
pub proof fn lemma_const_and_drop(s: RuntimeV, a: i32, b: i64, c: u32, d: u64)
    requires
        s.frames.len() > 0,
    ensures
        next_is(s, Opcode::I32Const, ImmediateV::I32(a)) ==> spec_step(s).1 is Continue && spec_step(s).0.stack == s.stack.push(Value::I32(a)),
        next_is(s, Opcode::I64Const, ImmediateV::I64(b)) ==> spec_step(s).1 is Continue && spec_step(s).0.stack == s.stack.push(Value::I64(b)),
        next_is(s, Opcode::F32Const, ImmediateV::F32(c)) ==> spec_step(s).1 is Continue && spec_step(s).0.stack == s.stack.push(Value::F32(c)),
        next_is(s, Opcode::F64Const, ImmediateV::F64(d)) ==> spec_step(s).1 is Continue && spec_step(s).0.stack == s.stack.push(Value::F64(d)),
        next_is(s, Opcode::Drop, ImmediateV::Nothing) && s.stack.len() > 0 ==> spec_step(s).1 is Continue && spec_step(s).0.stack == s.stack.drop_last(),
{
}

} // verus!
