//! Operations of the interpreter on the value stack, labels, locals and
//! frames.
use super::error::RuntimeError;
use super::module::{InternalFuncInst, InternalGlobalInst};
use super::value::{Frame, Label, LabelKind, Value};
use crate::binary::instruction::{ImmediateV, Instruction, Opcode};
use crate::binary::types::{views, ValueType};
use vstd::prelude::*;

verus! {

/// Dropping the last item of a sequence with an item pushed gives the
/// sequence.
pub broadcast proof fn lemma_push_drop_last<T>(s: Seq<T>, x: T)
    ensures
        #[trigger] s.push(x).drop_last() == s,
{
    assert(s.push(x).drop_last() =~= s);
}

/// Whether an opcode opens a block that an `End` closes.
pub open spec fn opens_block(op: Opcode) -> bool {
    op == Opcode::Block || op == Opcode::Loop || op == Opcode::If
}

/// Scanning from `j` with `depth` blocks open, the index of the `End` that
/// closes the enclosing block.
pub open spec fn scan_end(insts: Seq<(Opcode, ImmediateV)>, j: int, depth: nat) -> Result<usize, RuntimeError>
    decreases insts.len() - j,
{
    if j < 0 || j >= insts.len() {
        Err(RuntimeError::NotFoundInstruction(j as usize))
    } else if opens_block(insts[j].0) {
        scan_end(insts, j + 1, depth + 1)
    } else if insts[j].0 == Opcode::End {
        if depth == 0 {
            Ok(j as usize)
        } else {
            scan_end(insts, j + 1, (depth - 1) as nat)
        }
    } else {
        scan_end(insts, j + 1, depth)
    }
}

/// Scanning from `j` with `depth` blocks open, the index of the `Else` or
/// `End` of the enclosing `if`, whichever comes first.
pub open spec fn scan_else_or_end(insts: Seq<(Opcode, ImmediateV)>, j: int, depth: nat) -> Result<usize, RuntimeError>
    decreases insts.len() - j,
{
    if j < 0 || j >= insts.len() {
        Err(RuntimeError::NotFoundInstruction(j as usize))
    } else if opens_block(insts[j].0) {
        scan_else_or_end(insts, j + 1, depth + 1)
    } else if insts[j].0 == Opcode::Else && depth == 0 {
        Ok(j as usize)
    } else if insts[j].0 == Opcode::End {
        if depth == 0 {
            Ok(j as usize)
        } else {
            scan_else_or_end(insts, j + 1, (depth - 1) as nat)
        }
    } else {
        scan_else_or_end(insts, j + 1, depth)
    }
}

/// What the scan for an `End` finds lies at or after where it starts, and is
/// an `End`.
pub proof fn lemma_scan_end_found(insts: Seq<(Opcode, ImmediateV)>, j: int, depth: nat)
    requires
        insts.len() <= usize::MAX,
    ensures
        scan_end(insts, j, depth) matches Ok(e) ==> j <= e < insts.len() && insts[e as int].0 == Opcode::End,
    decreases insts.len() - j,
{
    if 0 <= j < insts.len() {
        if opens_block(insts[j].0) {
            lemma_scan_end_found(insts, j + 1, depth + 1);
        } else if insts[j].0 == Opcode::End {
            if depth > 0 {
                lemma_scan_end_found(insts, j + 1, (depth - 1) as nat);
            }
        } else {
            lemma_scan_end_found(insts, j + 1, depth);
        }
    }
}

/// What the scan for an `Else` or `End` finds lies at or after where it
/// starts, and is one of them.
pub proof fn lemma_scan_else_or_end_found(insts: Seq<(Opcode, ImmediateV)>, j: int, depth: nat)
    requires
        insts.len() <= usize::MAX,
    ensures
        scan_else_or_end(insts, j, depth) matches Ok(e) ==> j <= e < insts.len() && (insts[e as int].0
            == Opcode::End || insts[e as int].0 == Opcode::Else),
    decreases insts.len() - j,
{
    if 0 <= j < insts.len() {
        if opens_block(insts[j].0) {
            lemma_scan_else_or_end_found(insts, j + 1, depth + 1);
        } else if insts[j].0 == Opcode::Else && depth == 0 {
        } else if insts[j].0 == Opcode::End {
            if depth > 0 {
                lemma_scan_else_or_end_found(insts, j + 1, (depth - 1) as nat);
            }
        } else {
            lemma_scan_else_or_end_found(insts, j + 1, depth);
        }
    }
}

/// In a block with no block inside it, the scans find the first `End`
/// (or, for an `if`, the first `Else` or `End`) from where they start.
pub proof fn lemma_scan_flat(insts: Seq<(Opcode, ImmediateV)>, j: int, e: int)
    requires
        0 <= j <= e < insts.len(),
        forall|k: int| j <= k < e ==> !opens_block(#[trigger] insts[k].0) && insts[k].0 != Opcode::End && insts[k].0 != Opcode::Else,
    ensures
        insts[e].0 == Opcode::End ==> scan_end(insts, j, 0) == Ok::<usize, RuntimeError>(e as usize),
        insts[e].0 == Opcode::End || insts[e].0 == Opcode::Else ==> scan_else_or_end(insts, j, 0) == Ok::<usize, RuntimeError>(e as usize),
    decreases e - j,
{
    if j < e {
        lemma_scan_flat(insts, j + 1, e);
    }
}

/// The index of the `End` that closes the block opened at `pc`.
pub fn get_end_address(insts: &[Instruction], pc: usize) -> (r: Result<usize, RuntimeError>)
    requires
        pc < usize::MAX,
    ensures
        r == scan_end(views(insts@), pc + 1, 0),
        r matches Ok(e) ==> pc < e < insts@.len() && views(insts@)[e as int].0 == Opcode::End,
{
    let mut j: usize = pc + 1;
    let mut depth: usize = 0;
    let ghost s = views(insts@);
    let n = insts.len();
    proof {
        assert(s.len() == n);
        lemma_scan_end_found(s, pc + 1, 0);
    }
    while j < insts.len()
        invariant
            s == views(insts@),
            pc < j,
            depth <= j,
            scan_end(s, pc + 1, 0) == scan_end(s, j as int, depth as nat),
        decreases insts.len() - j,
    {
        let ghost op = s[j as int].0;
        assert(insts@[j as int]@.0 == op);
        match &insts[j] {
            Instruction::If(_) | Instruction::Block(_) | Instruction::Loop(_) => {
                depth = depth + 1;
            },
            Instruction::End => {
                if depth == 0 {
                    return Ok(j);
                } else {
                    depth = depth - 1;
                }
            },
            _ => {},
        }
        j = j + 1;
    }
    Err(RuntimeError::NotFoundInstruction(j))
}

/// The index of the `Else` or the `End` of the `if` at `pc`, whichever comes
/// first; blocks nested in it are skipped.
pub fn get_else_or_end_address(insts: &[Instruction], pc: usize) -> (r: Result<usize, RuntimeError>)
    requires
        pc < usize::MAX,
    ensures
        r == scan_else_or_end(views(insts@), pc + 1, 0),
        r matches Ok(e) ==> pc < e < insts@.len() && (views(insts@)[e as int].0 == Opcode::End
            || views(insts@)[e as int].0 == Opcode::Else),
{
    let mut j: usize = pc + 1;
    let mut depth: usize = 0;
    let ghost s = views(insts@);
    let n = insts.len();
    proof {
        assert(s.len() == n);
        lemma_scan_else_or_end_found(s, pc + 1, 0);
    }
    while j < insts.len()
        invariant
            s == views(insts@),
            pc < j,
            depth <= j,
            scan_else_or_end(s, pc + 1, 0) == scan_else_or_end(s, j as int, depth as nat),
        decreases insts.len() - j,
    {
        let ghost op = s[j as int].0;
        assert(insts@[j as int]@.0 == op);
        match &insts[j] {
            Instruction::If(_) | Instruction::Block(_) | Instruction::Loop(_) => {
                depth = depth + 1;
            },
            Instruction::Else => {
                if depth == 0 {
                    return Ok(j);
                }
            },
            Instruction::End => {
                if depth == 0 {
                    return Ok(j);
                } else {
                    depth = depth - 1;
                }
            },
            _ => {},
        }
        j = j + 1;
    }
    Err(RuntimeError::NotFoundInstruction(j))
}

/// The stack after leaving a block or frame that began at height `sp` and
/// gives `arity` results: the values above `sp` are dropped, but for the top
/// one when there is a result.
pub open spec fn spec_unwind(stack: Seq<Value>, sp: usize, arity: usize) -> Result<Seq<Value>, RuntimeError> {
    if arity > 0 {
        if stack.len() == 0 {
            Err(RuntimeError::StackPopError)
        } else if sp > stack.len() - 1 {
            Err(RuntimeError::StackUnderflow)
        } else {
            Ok(stack.take(sp as int).push(stack.last()))
        }
    } else if sp > stack.len() {
        Err(RuntimeError::StackUnderflow)
    } else {
        Ok(stack.take(sp as int))
    }
}

/// Unwinds the stack to `sp`, keeping the top value when `arity` is not
/// zero; on an error the stack is unchanged.
pub fn stack_unwind(stack: &mut Vec<Value>, sp: usize, arity: usize) -> (r: Result<(), RuntimeError>)
    ensures
        match spec_unwind(old(stack)@, sp, arity) {
            Ok(s) => r is Ok && final(stack)@ == s,
            Err(e) => r == Err::<(), RuntimeError>(e) && final(stack)@ == old(stack)@,
        },
{
    let len = stack.len();
    if arity > 0 {
        if len == 0 {
            return Err(RuntimeError::StackPopError);
        }
        if sp > len - 1 {
            return Err(RuntimeError::StackUnderflow);
        }
        let value = stack[len - 1];
        stack.truncate(sp);
        stack.push(value);
    } else {
        if sp > len {
            return Err(RuntimeError::StackUnderflow);
        }
        stack.truncate(sp);
    }
    Ok(())
}

/// A branch to the label `level` outward: the labels, the stack and the pc
/// after it. A branch to a loop goes back to its start and keeps its label;
/// a branch to another block goes to its end and drops its label.
pub open spec fn spec_br(labels: Seq<Label>, stack: Seq<Value>, level: u32) -> Result<(Seq<Label>, Seq<Value>, isize), RuntimeError> {
    if level >= labels.len() {
        Err(RuntimeError::NotFoundLabel(level as usize))
    } else {
        let idx = labels.len() - 1 - level;
        let label = labels[idx];
        if label.kind == LabelKind::Loop {
            match spec_unwind(stack, label.sp, 0) {
                Err(e) => Err(e),
                Ok(s) => match label.start {
                    Some(start) => Ok((labels.take(idx + 1), s, start)),
                    None => Err(RuntimeError::NotFoundStartPc),
                },
            }
        } else {
            match spec_unwind(stack, label.sp, label.arity) {
                Err(e) => Err(e),
                Ok(s) => if label.pc <= isize::MAX {
                    Ok((labels.take(idx), s, label.pc as isize))
                } else {
                    Err(RuntimeError::NotFoundInstruction(label.pc))
                },
            }
        }
    }
}

/// Branches to the label `level` outward and gives the pc to go on from; on
/// an error nothing changes.
pub fn br(labels: &mut Vec<Label>, stack: &mut Vec<Value>, level: u32) -> (r: Result<isize, RuntimeError>)
    ensures
        match spec_br(old(labels)@, old(stack)@, level) {
            Ok((l, s, pc)) => r == Ok::<isize, RuntimeError>(pc) && final(labels)@ == l && final(stack)@ == s,
            Err(e) => r == Err::<isize, RuntimeError>(e) && final(labels)@ == old(labels)@ && final(stack)@ == old(stack)@,
        },
{
    let n = labels.len();
    if level as usize >= n {
        return Err(RuntimeError::NotFoundLabel(level as usize));
    }
    let idx = n - 1 - level as usize;
    let label = labels[idx];
    if label.kind == LabelKind::Loop {
        let start = match label.start {
            Some(start) => start,
            None => {
                if label.sp > stack.len() {
                    return Err(RuntimeError::StackUnderflow);
                }
                return Err(RuntimeError::NotFoundStartPc);
            },
        };
        match stack_unwind(stack, label.sp, 0) {
            Ok(()) => {},
            Err(e) => return Err(e),
        }
        labels.truncate(idx + 1);
        Ok(start)
    } else {
        if label.pc > isize::MAX as usize {
            let len = stack.len();
            if label.arity > 0 {
                if len == 0 {
                    return Err(RuntimeError::StackPopError);
                }
                if label.sp > len - 1 {
                    return Err(RuntimeError::StackUnderflow);
                }
            } else if label.sp > len {
                return Err(RuntimeError::StackUnderflow);
            }
            return Err(RuntimeError::NotFoundInstruction(label.pc));
        }
        match stack_unwind(stack, label.sp, label.arity) {
            Ok(()) => {},
            Err(e) => return Err(e),
        }
        labels.truncate(idx);
        Ok(label.pc as isize)
    }
}

/// The zero value of a value type.
pub open spec fn zero_of(t: ValueType) -> Value {
    match t {
        ValueType::I32 => Value::I32(0),
        ValueType::I64 => Value::I64(0),
        ValueType::F32 => Value::F32(0),
        ValueType::F64 => Value::F64(0),
    }
}

/// The zero values of the declared locals of a function.
pub open spec fn zeros_of(types: Seq<ValueType>) -> Seq<Value> {
    types.map_values(|t: ValueType| zero_of(t))
}

/// Pushes the value of the local `idx`.
pub fn local_get(locals: &[Value], stack: &mut Vec<Value>, idx: usize) -> (r: Result<(), RuntimeError>)
    ensures
        idx < locals@.len() ==> r is Ok && final(stack)@ == old(stack)@.push(locals@[idx as int]),
        idx >= locals@.len() ==> r == Err::<(), RuntimeError>(RuntimeError::NotFoundLocalVariable(idx))
            && final(stack)@ == old(stack)@,
{
    if idx >= locals.len() {
        return Err(RuntimeError::NotFoundLocalVariable(idx));
    }
    stack.push(locals[idx]);
    Ok(())
}

/// Pushes the value of the global `idx`; a global that does not exist is an
/// error, and nothing changes.
pub fn global_get(globals: &Vec<InternalGlobalInst>, stack: &mut Vec<Value>, idx: usize) -> (r: Result<(), RuntimeError>)
    ensures
        idx < globals@.len() ==> r is Ok && final(stack)@ == old(stack)@.push(globals@[idx as int].value),
        idx >= globals@.len() ==> r == Err::<(), RuntimeError>(RuntimeError::NotFoundGlobalVariable(idx))
            && final(stack)@ == old(stack)@,
{
    if idx >= globals.len() {
        return Err(RuntimeError::NotFoundGlobalVariable(idx));
    }
    stack.push(globals[idx].value);
    Ok(())
}

/// Pops the top value into the global `idx`, which keeps its mutability; an
/// empty stack, then a global that does not exist, is an error, and nothing
/// changes.
pub fn global_set(globals: &mut Vec<InternalGlobalInst>, stack: &mut Vec<Value>, idx: usize) -> (r: Result<(), RuntimeError>)
    ensures
        old(stack)@.len() == 0 ==> r == Err::<(), RuntimeError>(RuntimeError::StackPopError)
            && final(stack)@ == old(stack)@ && final(globals)@ == old(globals)@,
        old(stack)@.len() > 0 && idx >= old(globals)@.len() ==> r == Err::<(), RuntimeError>(
            RuntimeError::NotFoundGlobalVariable(idx),
        ) && final(stack)@ == old(stack)@ && final(globals)@ == old(globals)@,
        old(stack)@.len() > 0 && idx < old(globals)@.len() ==> r is Ok && final(stack)@ == old(stack)@.drop_last()
            && final(globals)@ == old(globals)@.update(
            idx as int,
            InternalGlobalInst { value: old(stack)@.last(), mutability: old(globals)@[idx as int].mutability },
        ),
{
    let n = stack.len();
    if n == 0 {
        return Err(RuntimeError::StackPopError);
    }
    if idx >= globals.len() {
        return Err(RuntimeError::NotFoundGlobalVariable(idx));
    }
    let mutability = globals[idx].mutability;
    let value = stack[n - 1];
    globals.set(idx, InternalGlobalInst { value, mutability });
    stack.truncate(n - 1);
    Ok(())
}

/// The locals after setting the local `idx` to `v`; locals past the end are
/// first added as `I32(0)`.
pub open spec fn spec_set_local(locals: Seq<Value>, idx: usize, v: Value) -> Seq<Value> {
    if idx < locals.len() {
        locals.update(idx as int, v)
    } else {
        locals + Seq::new((idx - locals.len()) as nat, |i: int| Value::I32(0)) + seq![v]
    }
}

/// Pops the top value into the local `idx`.
pub fn local_set(locals: &mut Vec<Value>, stack: &mut Vec<Value>, idx: usize) -> (r: Result<(), RuntimeError>)
    ensures
        old(stack)@.len() > 0 ==> r is Ok && final(stack)@ == old(stack)@.drop_last() && final(locals)@
            == spec_set_local(old(locals)@, idx, old(stack)@.last()),
        old(stack)@.len() == 0 ==> r == Err::<(), RuntimeError>(RuntimeError::StackPopError)
            && final(stack)@ == old(stack)@ && final(locals)@ == old(locals)@,
{
    let value = match stack.pop() {
        Some(v) => v,
        None => return Err(RuntimeError::StackPopError),
    };
    if idx >= locals.len() {
        let ghost before = locals@;
        while locals.len() < idx
            invariant
                before.len() <= locals@.len() <= idx,
                locals@ == before + Seq::new((locals@.len() - before.len()) as nat, |i: int| Value::I32(0)),
            decreases idx - locals@.len(),
        {
            let ghost l = locals@;
            locals.push(Value::I32(0));
            assert(locals@ =~= before + Seq::new((locals@.len() - before.len()) as nat, |i: int| Value::I32(0)));
        }
        locals.push(value);
        assert(locals@ =~= spec_set_local(before, idx, value));
    } else {
        locals.set(idx, value);
    }
    Ok(())
}

/// Sets the local `idx` to the top value, which stays on the stack.
pub fn local_tee(locals: &mut Vec<Value>, stack: &mut Vec<Value>, idx: usize) -> (r: Result<(), RuntimeError>)
    ensures
        old(stack)@.len() > 0 ==> r is Ok && final(stack)@ == old(stack)@ && final(locals)@ == spec_set_local(
            old(locals)@,
            idx,
            old(stack)@.last(),
        ),
        old(stack)@.len() == 0 ==> r == Err::<(), RuntimeError>(RuntimeError::StackPopError)
            && final(stack)@ == old(stack)@ && final(locals)@ == old(locals)@,
{
    let len = stack.len();
    if len == 0 {
        return Err(RuntimeError::StackPopError);
    }
    let value = stack[len - 1];
    stack.push(value);
    let r = local_set(locals, stack, idx);
    assert(stack@ =~= old(stack)@);
    r
}

/// A copy of the instructions of a function body.
pub fn copy_instructions(insts: &Vec<Instruction>) -> (r: Vec<Instruction>)
    ensures
        views(r@) == views(insts@),
{
    let mut r: Vec<Instruction> = Vec::new();
    let mut i: usize = 0;
    while i < insts.len()
        invariant
            i <= insts.len(),
            views(r@) == views(insts@).take(i as int),
        decreases insts.len() - i,
    {
        let ghost before = r@;
        r.push(insts[i].duplicate());
        proof {
            super::module::lemma_views_push(before, r@.last());
        }
        i = i + 1;
        assert(views(r@) =~= views(insts@).take(i as int));
    }
    assert(views(insts@).take(insts.len() as int) =~= views(insts@));
    r
}

/// The zero values of some value types.
pub fn zeros(types: &Vec<ValueType>) -> (r: Vec<Value>)
    ensures
        r@ == zeros_of(types@),
{
    let mut r: Vec<Value> = Vec::new();
    let mut i: usize = 0;
    while i < types.len()
        invariant
            i <= types.len(),
            r@ == zeros_of(types@).take(i as int),
        decreases types.len() - i,
    {
        let v = match types[i] {
            ValueType::I32 => Value::I32(0),
            ValueType::I64 => Value::I64(0),
            ValueType::F32 => Value::F32(0),
            ValueType::F64 => Value::F64(0),
        };
        r.push(v);
        i = i + 1;
        assert(r@ =~= zeros_of(types@).take(i as int));
    }
    assert(zeros_of(types@).take(types.len() as int) =~= zeros_of(types@));
    r
}

/// The view of a frame.
pub struct FrameV {
    pub pc: isize,
    pub sp: usize,
    pub insts: Seq<(Opcode, ImmediateV)>,
    pub arity: usize,
    pub locals: Seq<Value>,
    pub labels: Seq<Label>,
}

impl View for Frame {
    type V = FrameV;

    open spec fn view(&self) -> FrameV {
        FrameV {
            pc: self.pc,
            sp: self.sp,
            insts: views(self.insts@),
            arity: self.arity,
            locals: self.locals@,
            labels: self.labels@,
        }
    }
}

/// The frame and stack of a call of `func`: its arguments move from the top
/// of the stack into its locals, after which come its declared locals as
/// zeros.
pub open spec fn spec_enter(func: super::module::FuncInstV, stack: Seq<Value>) -> Result<(FrameV, Seq<Value>), RuntimeError> {
    match func {
        super::module::FuncInstV::Internal(ty, code) => {
            let n = ty.0.len();
            if stack.len() < n {
                Err(RuntimeError::StackUnderflow)
            } else {
                let sp = stack.len() - n;
                Ok((
                    FrameV {
                        pc: -1isize,
                        sp: sp as usize,
                        insts: code.body,
                        arity: ty.1.len() as usize,
                        locals: stack.skip(sp) + zeros_of(code.locals),
                        labels: Seq::empty(),
                    },
                    stack.take(sp),
                ))
            }
        },
        super::module::FuncInstV::External(..) => Err(RuntimeError::NotFoundFunction(0)),
    }
}

/// Pushes the frame of a call of `func`, whose arguments are on the stack; on
/// an error nothing changes.
pub fn push_frame(stack: &mut Vec<Value>, call_stack: &mut Vec<Frame>, func: &InternalFuncInst) -> (r: Result<(), RuntimeError>)
    ensures
        match spec_enter(super::module::FuncInstV::Internal(func.func_type@, func.code@), old(stack)@) {
            Ok((frame, s)) => r is Ok && final(stack)@ == s && final(call_stack)@.len() == old(call_stack)@.len() + 1
                && final(call_stack)@.take(old(call_stack)@.len() as int) == old(call_stack)@
                && final(call_stack)@.last()@ == frame,
            Err(e) => r == Err::<(), RuntimeError>(e) && final(stack)@ == old(stack)@ && final(call_stack)@
                == old(call_stack)@,
        },
{
    let n = func.func_type.params.len();
    let len = stack.len();
    if len < n {
        return Err(RuntimeError::StackUnderflow);
    }
    let arity = func.func_type.results.len();
    let ghost old_stack = stack@;
    let mut locals = stack.split_off(len - n);
    let declared = zeros(&func.code.locals);
    let mut i: usize = 0;
    let ghost args = locals@;
    while i < declared.len()
        invariant
            i <= declared.len(),
            locals@ == args + declared@.take(i as int),
        decreases declared.len() - i,
    {
        locals.push(declared[i]);
        i = i + 1;
        assert(locals@ =~= args + declared@.take(i as int));
    }
    assert(declared@.take(declared.len() as int) =~= declared@);
    let frame = Frame {
        pc: -1,
        sp: len - n,
        insts: copy_instructions(&func.code.body),
        arity,
        locals,
        labels: Vec::new(),
    };
    let ghost old_calls = call_stack@;
    call_stack.push(frame);
    assert(call_stack@.take(old_calls.len() as int) =~= old_calls);
    assert(frame@.labels =~= Seq::<Label>::empty());
    Ok(())
}

} // verus!
