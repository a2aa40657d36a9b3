//! The store: every instance that a module's execution can reach.
//! <https://www.w3.org/TR/wasm-core-1/#store%E2%91%A0>
use super::error::RuntimeError;
use super::integer::unsigned_i32;
use super::module::{
    copy_func_type, copy_memory, copy_table, export_lookup, opt_func_views, page_limit,
    export_map, spec_export_insts, ExternalFuncInst, Func, FuncInst, FuncInstV, FuncV, InternalFuncInst,
    InternalGlobalInst, InternalMemoryInst, InternalTableInst, ModuleInst, MAX_PAGES, PAGE_SIZE,
};
use super::value::{lemma_unsigned_i32, ExternalVal, Value};
use crate::binary::instruction::{ImmediateV, Instruction, Opcode};
use crate::binary::error::DecodeError;
use crate::binary::module::{spec_module, Decoder, Module, ModuleV};
use crate::binary::types::{
    views, Data, Element, Expr, ExprValue, FunctionBody, FunctionLocal, Global, Import, ImportKind,
    Memory, Mutability, ValueType,
};
use vstd::prelude::*;

verus! {

#[derive(Debug, Default)]
pub struct Store {
    pub funcs: Vec<FuncInst>,
    pub tables: Vec<InternalTableInst>,
    pub memory: Vec<InternalMemoryInst>,
    pub globals: Vec<InternalGlobalInst>,
    pub module: ModuleInst,
    pub start: Option<u32>,
}

/// A store with its vectors as sequences of views.
pub struct StoreV {
    pub funcs: Seq<FuncInstV>,
    pub tables: Seq<(Seq<Option<FuncInstV>>, Option<u32>)>,
    pub memory: Seq<(Seq<u8>, Option<u32>)>,
    pub globals: Seq<InternalGlobalInst>,
    pub func_types: Seq<(Seq<ValueType>, Seq<ValueType>)>,
    pub exports: Seq<(Seq<char>, ExternalVal)>,
    pub start: Option<u32>,
}

impl View for Store {
    type V = StoreV;

    open spec fn view(&self) -> StoreV {
        StoreV {
            funcs: views(self.funcs@),
            tables: views(self.tables@),
            memory: views(self.memory@),
            globals: self.globals@,
            func_types: views(self.module.func_types@),
            exports: views(self.module.exports@),
            start: self.start,
        }
    }
}


/// A module that others import from: its name, and its store, whose exports
/// name what it offers.
#[derive(Debug)]
pub struct Importer {
    pub name: String,
    pub store: Store,
}

impl View for Importer {
    type V = (Seq<char>, StoreV);

    open spec fn view(&self) -> (Seq<char>, StoreV) {
        (self.name@, self.store@)
    }
}

/// What a store offers for imports: a copy of the table, memory or global
/// that its export `field` names.
pub open spec fn resolve_table(s: StoreV, field: Seq<char>) -> Option<(Seq<Option<FuncInstV>>, Option<u32>)> {
    match export_lookup(s.exports, field) {
        Some(ExternalVal::Table(i)) => if i < s.tables.len() {
            Some(s.tables[i as int])
        } else {
            None
        },
        _ => None,
    }
}

pub open spec fn resolve_memory(s: StoreV, field: Seq<char>) -> Option<(Seq<u8>, Option<u32>)> {
    match export_lookup(s.exports, field) {
        Some(ExternalVal::Memory(i)) => if i < s.memory.len() {
            Some(s.memory[i as int])
        } else {
            None
        },
        _ => None,
    }
}

pub open spec fn resolve_global(s: StoreV, field: Seq<char>) -> Option<InternalGlobalInst> {
    match export_lookup(s.exports, field) {
        Some(ExternalVal::Global(i)) => if i < s.globals.len() {
            Some(s.globals[i as int])
        } else {
            None
        },
        _ => None,
    }
}

/// The first importer of the given name, from `i` on.
pub open spec fn find_importer(importers: Seq<(Seq<char>, StoreV)>, name: Seq<char>, i: int) -> Option<int>
    decreases importers.len() - i,
{
    if i < 0 || i >= importers.len() {
        None
    } else if importers[i].0 == name {
        Some(i)
    } else {
        find_importer(importers, name, i + 1)
    }
}

/// The instances that a store is built of, as they are gathered.
pub struct Instances {
    pub funcs: Seq<FuncInstV>,
    pub tables: Seq<(Seq<Option<FuncInstV>>, Option<u32>)>,
    pub memory: Seq<(Seq<u8>, Option<u32>)>,
    pub globals: Seq<InternalGlobalInst>,
}

pub open spec fn no_instances() -> Instances {
    Instances { funcs: Seq::empty(), tables: Seq::empty(), memory: Seq::empty(), globals: Seq::empty() }
}

/// The instances after one import is resolved.
pub open spec fn spec_import_step(
    import: (Seq<char>, Seq<char>, ImportKind),
    types: Option<Seq<(Seq<ValueType>, Seq<ValueType>)>>,
    importers: Seq<(Seq<char>, StoreV)>,
    acc: Instances,
) -> Result<Instances, RuntimeError> {
    let (module, field, kind) = import;
    match find_importer(importers, module, 0) {
        None => Err(RuntimeError::NotFoundImportModule),
        Some(k) => {
            let offered = importers[k].1;
            match kind {
                ImportKind::Func(t) => match types {
                    None => Err(RuntimeError::NotFoundTypeSection),
                    Some(ts) => if t >= ts.len() {
                        Err(RuntimeError::NotFoundFuncType(t as usize))
                    } else {
                        Ok(Instances { funcs: acc.funcs.push(FuncInstV::External(module, field, ts[t as int])), ..acc })
                    },
                },
                ImportKind::Table(_) => match resolve_table(offered, field) {
                    None => Err(RuntimeError::NoImports),
                    Some(t) => Ok(Instances { tables: acc.tables.push(t), ..acc }),
                },
                ImportKind::Memory(_) => match resolve_memory(offered, field) {
                    None => Err(RuntimeError::NoImports),
                    Some(m) => Ok(Instances { memory: acc.memory.push(m), ..acc }),
                },
                ImportKind::Global(_) => match resolve_global(offered, field) {
                    None => Err(RuntimeError::NoImports),
                    Some(g) => Ok(Instances { globals: acc.globals.push(g), ..acc }),
                },
            }
        },
    }
}

/// The instances after the imports from `i` on are resolved.
pub open spec fn spec_imports_from(
    imports: Seq<(Seq<char>, Seq<char>, ImportKind)>,
    i: int,
    types: Option<Seq<(Seq<ValueType>, Seq<ValueType>)>>,
    importers: Seq<(Seq<char>, StoreV)>,
    acc: Instances,
) -> Result<Instances, RuntimeError>
    decreases imports.len() - i,
{
    if i < 0 || i >= imports.len() {
        Ok(acc)
    } else {
        match spec_import_step(imports[i], types, importers, acc) {
            Err(e) => Err(e),
            Ok(acc) => spec_imports_from(imports, i + 1, types, importers, acc),
        }
    }
}

/// The instances that the imports of a module resolve to.
pub open spec fn spec_imports(m: ModuleV, importers: Option<Seq<(Seq<char>, StoreV)>>) -> Result<Instances, RuntimeError> {
    match m.import_section {
        None => Ok(no_instances()),
        Some(imports) => match importers {
            None => Err(RuntimeError::NoImporters),
            Some(importers) => spec_imports_from(imports, 0, m.type_section, importers, no_instances()),
        },
    }
}

/// The value of a global's initializer.
pub open spec fn expr_value(e: ExprValue) -> Value {
    match e {
        ExprValue::I32(v) => Value::I32(v),
        ExprValue::I64(v) => Value::I64(v),
        ExprValue::F32(v) => Value::F32(v),
        ExprValue::F64(v) => Value::F64(v),
    }
}

/// The global instance of a global of the module.
pub open spec fn global_inst(g: Global) -> InternalGlobalInst {
    InternalGlobalInst { value: expr_value(g.init_expr), mutability: g.global_type.mutability == Mutability::Var }
}

/// The local variables that runs of locals declare, one by one.
pub open spec fn expand_locals(locals: Seq<FunctionLocal>) -> Seq<ValueType>
    decreases locals.len(),
{
    if locals.len() == 0 {
        Seq::empty()
    } else {
        let l = locals.last();
        expand_locals(locals.drop_last()) + Seq::new(l.type_count as nat, |i: int| l.value_type)
    }
}

/// The number of locals that runs of locals declare: the sum of their
/// counts.
pub open spec fn declared_count(locals: Seq<FunctionLocal>) -> nat
    decreases locals.len(),
{
    if locals.len() == 0 {
        0
    } else {
        locals[0].type_count as nat + declared_count(locals.drop_first())
    }
}

/// The locals of a function are, run by run, as many of each run's type as
/// its count says: there are as many as the counts add up to, and the run
/// `k` gives the locals from the counts of the runs before it on.
pub proof fn lemma_expand_locals_counts(locals: Seq<FunctionLocal>)
    ensures
        expand_locals(locals).len() == declared_count(locals),
        forall|k: int, i: int|
            0 <= k < locals.len() && 0 <= i < locals[k].type_count ==> #[trigger] expand_locals(locals)[declared_count(
                locals.take(k),
            ) + i] == (#[trigger] locals[k]).value_type,
    decreases locals.len(),
{
    if locals.len() > 0 {
        let p = locals.drop_last();
        lemma_expand_locals_counts(p);
        lemma_declared_count_push(p, locals.last());
        assert(p.push(locals.last()) =~= locals);
        assert forall|k: int, i: int|
            0 <= k < locals.len() && 0 <= i < locals[k].type_count implies #[trigger] expand_locals(locals)[declared_count(
                locals.take(k),
            ) + i] == (#[trigger] locals[k]).value_type by {
            if k < p.len() {
                assert(locals.take(k) =~= p.take(k));
                assert(p[k] == locals[k]);
                lemma_declared_count_prefix(p, k);
            } else {
                assert(locals.take(k) =~= p);
            }
        }
    }
}

/// The count of runs with one more run adds its count.
pub proof fn lemma_declared_count_push(locals: Seq<FunctionLocal>, l: FunctionLocal)
    ensures
        declared_count(locals.push(l)) == declared_count(locals) + l.type_count,
    decreases locals.len(),
{
    if locals.len() > 0 {
        lemma_declared_count_push(locals.drop_first(), l);
        assert(locals.push(l).drop_first() =~= locals.drop_first().push(l));
    } else {
        assert(locals.push(l).drop_first() =~= Seq::<FunctionLocal>::empty());
        assert(declared_count(Seq::<FunctionLocal>::empty()) == 0);
        assert(locals.push(l)[0] == l);
        assert(declared_count(locals) == 0);
    }
}

/// The runs before run `k` declare no more locals than the runs before it
/// together with run `k`'s.
pub proof fn lemma_declared_count_prefix(locals: Seq<FunctionLocal>, k: int)
    requires
        0 <= k < locals.len(),
    ensures
        declared_count(locals.take(k)) + locals[k].type_count <= declared_count(locals),
    decreases locals.len(),
{
    if k + 1 < locals.len() {
        lemma_declared_count_prefix(locals.drop_last(), k);
        assert(locals.drop_last().take(k) =~= locals.take(k));
        lemma_declared_count_push(locals.drop_last(), locals.last());
        assert(locals.drop_last().push(locals.last()) =~= locals);
    } else {
        lemma_declared_count_push(locals.take(k), locals[k]);
        assert(locals.take(k).push(locals[k]) =~= locals);
    }
}

/// The functions after the function with body `body` and type index `t`
/// is added.
pub open spec fn spec_code_step(
    body: (Seq<FunctionLocal>, Seq<(Opcode, ImmediateV)>),
    t: u32,
    types: Option<Seq<(Seq<ValueType>, Seq<ValueType>)>>,
    acc: Seq<FuncInstV>,
) -> Result<Seq<FuncInstV>, RuntimeError> {
    match types {
        None => Err(RuntimeError::NotFoundTypeSection),
        Some(ts) => if t >= ts.len() {
            Err(RuntimeError::NotFoundFuncType(t as usize))
        } else {
            Ok(acc.push(FuncInstV::Internal(ts[t as int], FuncV { type_idx: t, locals: expand_locals(body.0), body: body.1 })))
        },
    }
}

/// The defined functions from the code section, from `j` on, appended to
/// `acc`.
pub open spec fn spec_code_from(
    code: Seq<(Seq<FunctionLocal>, Seq<(Opcode, ImmediateV)>)>,
    idxs: Seq<u32>,
    types: Option<Seq<(Seq<ValueType>, Seq<ValueType>)>>,
    j: int,
    acc: Seq<FuncInstV>,
) -> Result<Seq<FuncInstV>, RuntimeError>
    decreases code.len() - j,
{
    if j < 0 || j >= code.len() || j >= idxs.len() {
        Ok(acc)
    } else {
        match spec_code_step(code[j], idxs[j], types, acc) {
            Err(e) => Err(e),
            Ok(acc) => spec_code_from(code, idxs, types, j + 1, acc),
        }
    }
}

/// The functions after the defined ones are added to `funcs`.
pub open spec fn spec_code(m: ModuleV, funcs: Seq<FuncInstV>) -> Result<Seq<FuncInstV>, RuntimeError> {
    let idxs = match m.function_section {
        Some(idxs) => idxs,
        None => Seq::empty(),
    };
    match m.code_section {
        None => Ok(funcs),
        Some(code) => if code.len() != idxs.len() {
            Err(RuntimeError::CodeSectionLengthMismatch)
        } else {
            spec_code_from(code, idxs, m.type_section, 0, funcs)
        },
    }
}

/// The memories after a memory of the module is added: its minimum number
/// of pages of zeros.
pub open spec fn spec_memory_step(mem: Memory, acc: Seq<(Seq<u8>, Option<u32>)>) -> Result<Seq<(Seq<u8>, Option<u32>)>, RuntimeError> {
    let min = mem.limits.min;
    if min > page_limit() {
        Err(RuntimeError::MemoryPageOverflow(MAX_PAGES, min as u64))
    } else {
        Ok(acc.push((Seq::new((min as nat) * (PAGE_SIZE as nat), |i: int| 0u8), mem.limits.max)))
    }
}

/// The memories after the module's own, from `j` on, are added to `acc`.
pub open spec fn spec_memories_from(mems: Seq<Memory>, j: int, acc: Seq<(Seq<u8>, Option<u32>)>) -> Result<Seq<(Seq<u8>, Option<u32>)>, RuntimeError>
    decreases mems.len() - j,
{
    if j < 0 || j >= mems.len() {
        Ok(acc)
    } else {
        match spec_memory_step(mems[j], acc) {
            Err(e) => Err(e),
            Ok(acc) => spec_memories_from(mems, j + 1, acc),
        }
    }
}

/// The offset that an offset expression gives, read as unsigned.
pub open spec fn spec_offset(globals: Seq<InternalGlobalInst>, e: Expr) -> Result<usize, RuntimeError> {
    match e {
        Expr::Value(ExprValue::I32(v)) => Ok(unsigned_i32(v) as usize),
        Expr::Value(_) => Err(RuntimeError::InvalidOffsetType),
        Expr::GlobalIndex(idx) => if idx >= globals.len() {
            Err(RuntimeError::NotFoundOffsetGlobal)
        } else {
            match globals[idx as int].value {
                Value::I32(v) => Ok(unsigned_i32(v) as usize),
                _ => Err(RuntimeError::InvalidOffsetType),
            }
        },
    }
}

/// The table entries after the functions `init[k..]` are put from
/// `offset + k` on.
pub open spec fn spec_fill_from(
    entries: Seq<Option<FuncInstV>>,
    offset: int,
    init: Seq<u32>,
    k: int,
    funcs: Seq<FuncInstV>,
) -> Result<Seq<Option<FuncInstV>>, RuntimeError>
    decreases init.len() - k,
{
    if k < 0 || k >= init.len() {
        Ok(entries)
    } else if init[k] >= funcs.len() {
        Err(RuntimeError::NotFoundFunction(init[k] as usize))
    } else if offset + k >= entries.len() {
        Err(RuntimeError::DataTooLarge)
    } else {
        spec_fill_from(entries.update(offset + k, Some(funcs[init[k] as int])), offset, init, k + 1, funcs)
    }
}

/// The table entries after an element segment is applied; a segment at or
/// past the end first grows the table by its offset and length.
pub open spec fn spec_elem_step(
    entries: Seq<Option<FuncInstV>>,
    elem: (u32, Expr, Seq<u32>),
    funcs: Seq<FuncInstV>,
    globals: Seq<InternalGlobalInst>,
) -> Result<Seq<Option<FuncInstV>>, RuntimeError> {
    let (_, offset_expr, init) = elem;
    match spec_offset(globals, offset_expr) {
        Err(e) => Err(e),
        Ok(offset) => {
            let new_len = entries.len() + offset + init.len();
            if entries.len() <= offset && new_len > usize::MAX {
                Err(RuntimeError::DataTooLarge)
            } else {
                let grown = if entries.len() <= offset {
                    entries + Seq::new((offset + init.len()) as nat, |i: int| None::<FuncInstV>)
                } else {
                    entries
                };
                spec_fill_from(grown, offset as int, init, 0, funcs)
            }
        },
    }
}

/// The table entries after the element segments from `j` on are applied.
pub open spec fn spec_elems_from(
    entries: Seq<Option<FuncInstV>>,
    elems: Seq<(u32, Expr, Seq<u32>)>,
    j: int,
    funcs: Seq<FuncInstV>,
    globals: Seq<InternalGlobalInst>,
) -> Result<Seq<Option<FuncInstV>>, RuntimeError>
    decreases elems.len() - j,
{
    if j < 0 || j >= elems.len() {
        Ok(entries)
    } else {
        match spec_elem_step(entries, elems[j], funcs, globals) {
            Err(e) => Err(e),
            Ok(filled) => spec_elems_from(filled, elems, j + 1, funcs, globals),
        }
    }
}

/// The table entries after the element section is applied.
pub open spec fn spec_elems(
    entries: Seq<Option<FuncInstV>>,
    m: ModuleV,
    funcs: Seq<FuncInstV>,
    globals: Seq<InternalGlobalInst>,
) -> Result<Seq<Option<FuncInstV>>, RuntimeError> {
    match m.element_section {
        None => Ok(entries),
        Some(elems) => spec_elems_from(entries, elems, 0, funcs, globals),
    }
}

/// The tables: the module's first table, with the elements in it, after the
/// imported ones; or, when the module has none, the first imported table
/// with the elements in it.
pub open spec fn spec_tables(
    m: ModuleV,
    tables: Seq<(Seq<Option<FuncInstV>>, Option<u32>)>,
    funcs: Seq<FuncInstV>,
    globals: Seq<InternalGlobalInst>,
) -> Result<Seq<(Seq<Option<FuncInstV>>, Option<u32>)>, RuntimeError> {
    match m.table_section {
        Some(section) => if section.len() == 0 {
            Err(RuntimeError::NotFoundTable(0))
        } else {
            let table = section[0];
            let entries = Seq::new(table.limits.min as nat, |i: int| None::<FuncInstV>);
            match spec_elems(entries, m, funcs, globals) {
                Err(e) => Err(e),
                Ok(entries) => Ok(tables.push((entries, table.limits.max))),
            }
        },
        None => if tables.len() == 0 {
            Ok(tables)
        } else {
            match spec_elems(tables[0].0, m, funcs, globals) {
                Err(e) => Err(e),
                Ok(entries) => Ok(tables.update(0, (entries, tables[0].1))),
            }
        },
    }
}

/// The memories after a data segment is copied in.
pub open spec fn spec_data_step(
    mems: Seq<(Seq<u8>, Option<u32>)>,
    segment: (u32, Expr, Seq<u8>),
    globals: Seq<InternalGlobalInst>,
) -> Result<Seq<(Seq<u8>, Option<u32>)>, RuntimeError> {
    let (idx, offset_expr, init) = segment;
    match spec_offset(globals, offset_expr) {
        Err(e) => Err(e),
        Ok(offset) => if idx >= mems.len() {
            Err(RuntimeError::NotFoundMemory(idx as usize))
        } else if offset + init.len() > mems[idx as int].0.len() {
            Err(RuntimeError::DataTooLarge)
        } else {
            let (bytes, max) = mems[idx as int];
            let copied = Seq::new(
                bytes.len(),
                |i: int|
                    if offset <= i < offset + init.len() {
                        init[i - offset]
                    } else {
                        bytes[i]
                    },
            );
            Ok(mems.update(idx as int, (copied, max)))
        },
    }
}

/// The memories after the data segments from `j` on are copied in.
pub open spec fn spec_data_from(
    mems: Seq<(Seq<u8>, Option<u32>)>,
    data: Seq<(u32, Expr, Seq<u8>)>,
    j: int,
    globals: Seq<InternalGlobalInst>,
) -> Result<Seq<(Seq<u8>, Option<u32>)>, RuntimeError>
    decreases data.len() - j,
{
    if j < 0 || j >= data.len() {
        Ok(mems)
    } else {
        match spec_data_step(mems, data[j], globals) {
            Err(e) => Err(e),
            Ok(mems) => spec_data_from(mems, data, j + 1, globals),
        }
    }
}

/// The store that a module instantiates to, with the given importers.
pub open spec fn spec_store_new(m: ModuleV, importers: Option<Seq<(Seq<char>, StoreV)>>) -> Result<StoreV, RuntimeError> {
    match spec_imports(m, importers) {
        Err(e) => Err(e),
        Ok(imported) => {
            let globals = imported.globals + match m.global_section {
                Some(gs) => gs.map_values(|g: Global| global_inst(g)),
                None => Seq::empty(),
            };
            match spec_code(m, imported.funcs) {
                Err(e) => Err(e),
                Ok(funcs) => match spec_memories_from(
                    match m.memory_section {
                        Some(ms) => ms,
                        None => Seq::empty(),
                    },
                    0,
                    imported.memory,
                ) {
                    Err(e) => Err(e),
                    Ok(mems) => match spec_tables(m, imported.tables, funcs, globals) {
                        Err(e) => Err(e),
                        Ok(tables) => match spec_data_from(
                            mems,
                            match m.data {
                                Some(d) => d,
                                None => Seq::empty(),
                            },
                            0,
                            globals,
                        ) {
                            Err(e) => Err(e),
                            Ok(mems) => Ok(
                                StoreV {
                                    funcs,
                                    tables,
                                    memory: mems,
                                    globals,
                                    func_types: match m.type_section {
                                        Some(types) => types,
                                        None => Seq::empty(),
                                    },
                                    exports: match m.export_section {
                                        Some(exports) => export_map(spec_export_insts(exports)),
                                        None => Seq::empty(),
                                    },
                                    start: m.start_section,
                                },
                            ),
                        },
                    },
                },
            }
        },
    }
}



/// The importers by their views.
pub open spec fn importer_views(importers: Option<&Vec<Importer>>) -> Option<Seq<(Seq<char>, StoreV)>> {
    match importers {
        Some(v) => Some(views(v@)),
        None => None,
    }
}

/// The instances gathered so far.
pub struct Gathered {
    pub funcs: Vec<FuncInst>,
    pub tables: Vec<InternalTableInst>,
    pub memory: Vec<InternalMemoryInst>,
    pub globals: Vec<InternalGlobalInst>,
}

impl View for Gathered {
    type V = Instances;

    open spec fn view(&self) -> Instances {
        Instances {
            funcs: views(self.funcs@),
            tables: views(self.tables@),
            memory: views(self.memory@),
            globals: self.globals@,
        }
    }
}

/// The first importer named `name`.
fn find_importer_exec(importers: &Vec<Importer>, name: &String) -> (r: Option<usize>)
    ensures
        r matches Some(k) ==> find_importer(views(importers@), name@, 0) == Some(k as int) && k < importers@.len(),
        r is None ==> find_importer(views(importers@), name@, 0) is None,
{
    let mut i: usize = 0;
    while i < importers.len()
        invariant
            i <= importers.len(),
            find_importer(views(importers@), name@, 0) == find_importer(views(importers@), name@, i as int),
        decreases importers.len() - i,
    {
        if importers[i].name == *name {
            return Some(i);
        }
        i = i + 1;
    }
    None
}

impl Store {
    /// A copy of the table that the export `field` names.
    pub fn resolve_table(&self, field: &String) -> (r: Option<InternalTableInst>)
        ensures
            r matches Some(t) ==> resolve_table(self@, field@) == Some(t@),
            r is None ==> resolve_table(self@, field@) is None,
    {
        match self.module.get_export(field) {
            Some(ExternalVal::Table(i)) => if (i as usize) < self.tables.len() {
                Some(copy_table(&self.tables[i as usize]))
            } else {
                None
            },
            _ => None,
        }
    }

    /// A copy of the memory that the export `field` names.
    pub fn resolve_memory(&self, field: &String) -> (r: Option<InternalMemoryInst>)
        ensures
            r matches Some(m) ==> resolve_memory(self@, field@) == Some(m@),
            r is None ==> resolve_memory(self@, field@) is None,
    {
        match self.module.get_export(field) {
            Some(ExternalVal::Memory(i)) => if (i as usize) < self.memory.len() {
                Some(copy_memory(&self.memory[i as usize]))
            } else {
                None
            },
            _ => None,
        }
    }

    /// A copy of the function that the export `field` names.
    pub fn resolve_func(&self, field: &String) -> (r: Option<FuncInst>)
        ensures
            r matches Some(f) ==> (export_lookup(self@.exports, field@) matches Some(ExternalVal::Func(i))
                && i < self@.funcs.len() && f@ == self@.funcs[i as int]),
            r is None ==> !(export_lookup(self@.exports, field@) matches Some(ExternalVal::Func(i)) && i < self@.funcs.len()),
    {
        match self.module.get_export(field) {
            Some(ExternalVal::Func(i)) => if (i as usize) < self.funcs.len() {
                Some(self.funcs[i as usize].duplicate())
            } else {
                None
            },
            _ => None,
        }
    }

    /// The global that the export `field` names.
    pub fn resolve_global(&self, field: &String) -> (r: Option<InternalGlobalInst>)
        ensures
            r == resolve_global(self@, field@),
    {
        match self.module.get_export(field) {
            Some(ExternalVal::Global(i)) => if (i as usize) < self.globals.len() {
                Some(self.globals[i as usize])
            } else {
                None
            },
            _ => None,
        }
    }
}

/// Resolves one import into `g`.
fn import_one(g: &mut Gathered, import: &Import, module: &Module, list: &Vec<Importer>) -> (r: Result<(), RuntimeError>)
    ensures
        match spec_import_step(import@, module@.type_section, views(list@), old(g)@) {
            Ok(a) => r is Ok && final(g)@ == a,
            Err(e) => r == Err::<(), RuntimeError>(e),
        },
{
    let k = match find_importer_exec(list, &import.module) {
        None => return Err(RuntimeError::NotFoundImportModule),
        Some(k) => k,
    };
    let offered = &list[k].store;
    match import.kind {
        ImportKind::Func(t) => {
            let types = match &module.type_section {
                None => return Err(RuntimeError::NotFoundTypeSection),
                Some(types) => types,
            };
            if t as usize >= types.len() {
                return Err(RuntimeError::NotFoundFuncType(t as usize));
            }
            let f = FuncInst::External(
                ExternalFuncInst {
                    module: import.module.clone(),
                    field: import.field.clone(),
                    func_type: copy_func_type(&types[t as usize]),
                },
            );
            let ghost fs = g.funcs@;
            g.funcs.push(f);
            proof {
                super::module::lemma_views_push(fs, f);
            }
            Ok(())
        },
        ImportKind::Table(_) => match offered.resolve_table(&import.field) {
            None => Err(RuntimeError::NoImports),
            Some(t) => {
                let ghost ts = g.tables@;
                g.tables.push(t);
                proof {
                    super::module::lemma_views_push(ts, t);
                }
                Ok(())
            },
        },
        ImportKind::Memory(_) => match offered.resolve_memory(&import.field) {
            None => Err(RuntimeError::NoImports),
            Some(m) => {
                let ghost ms = g.memory@;
                g.memory.push(m);
                proof {
                    super::module::lemma_views_push(ms, m);
                }
                Ok(())
            },
        },
        ImportKind::Global(_) => match offered.resolve_global(&import.field) {
            None => Err(RuntimeError::NoImports),
            Some(gl) => {
                g.globals.push(gl);
                Ok(())
            },
        },
    }
}

/// Resolves the imports of a module.
fn import_instances(module: &Module, importers: Option<&Vec<Importer>>) -> (r: Result<Gathered, RuntimeError>)
    ensures
        match spec_imports(module@, importer_views(importers)) {
            Ok(inst) => r matches Ok(g) && g@ == inst,
            Err(e) => r == Err::<Gathered, RuntimeError>(e),
        },
{
    let mut g = Gathered { funcs: Vec::new(), tables: Vec::new(), memory: Vec::new(), globals: Vec::new() };
    assert(g@ == no_instances()) by {
        assert(views(g.funcs@) =~= Seq::<FuncInstV>::empty());
        assert(views(g.tables@) =~= Seq::<(Seq<Option<FuncInstV>>, Option<u32>)>::empty());
        assert(views(g.memory@) =~= Seq::<(Seq<u8>, Option<u32>)>::empty());
    }
    let imports = match &module.import_section {
        None => return Ok(g),
        Some(imports) => imports,
    };
    let list = match importers {
        None => return Err(RuntimeError::NoImporters),
        Some(v) => v,
    };
    let ghost iv = views(imports@);
    let mut i: usize = 0;
    while i < imports.len()
        invariant
            i <= imports.len(),
            iv == views(imports@),
            module@.import_section == Some(iv),
            importer_views(importers) == Some(views(list@)),
            spec_imports_from(iv, 0, module@.type_section, views(list@), no_instances()) == spec_imports_from(
                iv,
                i as int,
                module@.type_section,
                views(list@),
                g@,
            ),
        decreases imports.len() - i,
    {
        match import_one(&mut g, &imports[i], module, list) {
            Ok(()) => {},
            Err(e) => return Err(e),
        }
        i = i + 1;
    }
    Ok(g)
}

/// The local variables that runs of locals declare, one by one.
fn expand_locals_exec(locals: &Vec<FunctionLocal>) -> (r: Vec<ValueType>)
    ensures
        r@ == expand_locals(locals@),
{
    let mut r: Vec<ValueType> = Vec::new();
    let mut j: usize = 0;
    while j < locals.len()
        invariant
            j <= locals.len(),
            r@ == expand_locals(locals@.take(j as int)),
        decreases locals.len() - j,
    {
        let l = locals[j];
        let ghost base = r@;
        let mut c: u32 = 0;
        while c < l.type_count
            invariant
                c <= l.type_count,
                r@ == base + Seq::new(c as nat, |i: int| l.value_type),
            decreases l.type_count - c,
        {
            r.push(l.value_type);
            c = c + 1;
            assert(r@ =~= base + Seq::new(c as nat, |i: int| l.value_type));
        }
        proof {
            assert(locals@.take(j + 1).drop_last() =~= locals@.take(j as int));
        }
        j = j + 1;
    }
    assert(locals@.take(locals.len() as int) =~= locals@);
    r
}

/// Adds the function with body `body` and type index `t`.
fn add_one_function(funcs: &mut Vec<FuncInst>, body: &FunctionBody, t: u32, module: &Module) -> (r: Result<(), RuntimeError>)
    ensures
        match spec_code_step(body@, t, module@.type_section, views(old(funcs)@)) {
            Ok(fs) => r is Ok && views(final(funcs)@) == fs,
            Err(e) => r == Err::<(), RuntimeError>(e),
        },
{
    let types = match &module.type_section {
        None => return Err(RuntimeError::NotFoundTypeSection),
        Some(types) => types,
    };
    if t as usize >= types.len() {
        return Err(RuntimeError::NotFoundFuncType(t as usize));
    }
    let f = FuncInst::Internal(
        InternalFuncInst {
            func_type: copy_func_type(&types[t as usize]),
            code: Func { type_idx: t, locals: expand_locals_exec(&body.locals), body: super::op::copy_instructions(&body.code) },
        },
    );
    proof {
        assert(views(body.code@) =~= body.code@.map_values(|i: Instruction| i@));
    }
    let ghost fs = funcs@;
    funcs.push(f);
    proof {
        super::module::lemma_views_push(fs, f);
    }
    Ok(())
}

/// Adds the functions of the code section.
fn add_code(module: &Module, funcs: &mut Vec<FuncInst>) -> (r: Result<(), RuntimeError>)
    ensures
        match spec_code(module@, views(old(funcs)@)) {
            Ok(fs) => r is Ok && views(final(funcs)@) == fs,
            Err(e) => r == Err::<(), RuntimeError>(e),
        },
{
    let empty: Vec<u32> = Vec::new();
    let idxs = match &module.function_section {
        Some(idxs) => idxs,
        None => &empty,
    };
    let code = match &module.code_section {
        None => return Ok(()),
        Some(code) => code,
    };
    if code.len() != idxs.len() {
        return Err(RuntimeError::CodeSectionLengthMismatch);
    }
    let ghost cv = views(code@);
    let ghost start = views(funcs@);
    let mut j: usize = 0;
    while j < code.len()
        invariant
            j <= code.len(),
            code.len() == idxs.len(),
            cv == views(code@),
            module@.code_section == Some(cv),
            start == views(old(funcs)@),
            idxs@ == match module@.function_section {
                Some(s) => s,
                None => Seq::<u32>::empty(),
            },
            spec_code_from(cv, idxs@, module@.type_section, 0, start) == spec_code_from(
                cv,
                idxs@,
                module@.type_section,
                j as int,
                views(funcs@),
            ),
        decreases code.len() - j,
    {
        match add_one_function(funcs, &code[j], idxs[j], module) {
            Ok(()) => {},
            Err(e) => return Err(e),
        }
        j = j + 1;
    }
    Ok(())
}

/// Adds a memory of the module.
fn add_one_memory(mems: &mut Vec<InternalMemoryInst>, memory: Memory) -> (r: Result<(), RuntimeError>)
    ensures
        match spec_memory_step(memory, views(old(mems)@)) {
            Ok(ms) => r is Ok && views(final(mems)@) == ms,
            Err(e) => r == Err::<(), RuntimeError>(e),
        },
{
    let min = memory.limits.min;
    let limit: u64 = if (MAX_PAGES as u64) * (PAGE_SIZE as u64) <= usize::MAX as u64 {
        MAX_PAGES as u64
    } else {
        (usize::MAX as u64) / (PAGE_SIZE as u64)
    };
    if min as u64 > limit {
        return Err(RuntimeError::MemoryPageOverflow(MAX_PAGES, min as u64));
    }
    proof {
        assert(min * (PAGE_SIZE as nat) <= usize::MAX) by (nonlinear_arith)
            requires
                min <= limit,
                limit == MAX_PAGES as nat || limit == (usize::MAX as nat) / (PAGE_SIZE as nat),
                limit == MAX_PAGES as nat ==> (MAX_PAGES as nat) * (PAGE_SIZE as nat) <= usize::MAX as nat,
        ;
    }
    let n = (min as usize) * (PAGE_SIZE as usize);
    let mut data: Vec<u8> = Vec::new();
    data.resize(n, 0u8);
    assert(data@ =~= Seq::new((min as nat) * (PAGE_SIZE as nat), |i: int| 0u8));
    let m = InternalMemoryInst { data, max: memory.limits.max };
    let ghost ms = mems@;
    mems.push(m);
    proof {
        super::module::lemma_views_push(ms, m);
    }
    Ok(())
}

/// Adds the memories of the memory section.
fn add_memories(module: &Module, mems: &mut Vec<InternalMemoryInst>) -> (r: Result<(), RuntimeError>)
    ensures
        match spec_memories_from(
            match module@.memory_section {
                Some(ms) => ms,
                None => Seq::empty(),
            },
            0,
            views(old(mems)@),
        ) {
            Ok(ms) => r is Ok && views(final(mems)@) == ms,
            Err(e) => r == Err::<(), RuntimeError>(e),
        },
{
    let empty: Vec<Memory> = Vec::new();
    let section = match &module.memory_section {
        Some(section) => section,
        None => &empty,
    };
    let ghost start = views(mems@);
    let mut j: usize = 0;
    while j < section.len()
        invariant
            j <= section.len(),
            start == views(old(mems)@),
            section@ == match module@.memory_section {
                Some(ms) => ms,
                None => Seq::<Memory>::empty(),
            },
            spec_memories_from(section@, 0, start) == spec_memories_from(section@, j as int, views(mems@)),
        decreases section.len() - j,
    {
        match add_one_memory(mems, section[j]) {
            Ok(()) => {},
            Err(e) => return Err(e),
        }
        j = j + 1;
    }
    Ok(())
}

/// The offset that an offset expression gives.
fn eval_offset(globals: &Vec<InternalGlobalInst>, e: Expr) -> (r: Result<usize, RuntimeError>)
    ensures
        r == spec_offset(globals@, e),
{
    match e {
        Expr::Value(ExprValue::I32(v)) => Ok(super::integer::to_unsigned_i32(v) as usize),
        Expr::Value(_) => Err(RuntimeError::InvalidOffsetType),
        Expr::GlobalIndex(idx) => {
            if idx >= globals.len() {
                return Err(RuntimeError::NotFoundOffsetGlobal);
            }
            match globals[idx].value {
                Value::I32(v) => Ok(super::integer::to_unsigned_i32(v) as usize),
                _ => Err(RuntimeError::InvalidOffsetType),
            }
        },
    }
}

/// Applies an element segment to table entries.
fn apply_element(
    entries: &mut Vec<Option<FuncInst>>,
    elem: &Element,
    funcs: &Vec<FuncInst>,
    globals: &Vec<InternalGlobalInst>,
) -> (r: Result<(), RuntimeError>)
    ensures
        match spec_elem_step(opt_func_views(old(entries)@), elem@, views(funcs@), globals@) {
            Ok(es) => r is Ok && opt_func_views(final(entries)@) == es,
            Err(e) => r == Err::<(), RuntimeError>(e),
        },
{
    let offset = match eval_offset(globals, elem.offset) {
        Ok(offset) => offset,
        Err(e) => return Err(e),
    };
    let ghost fv = views(funcs@);
    let len = entries.len();
    let n = elem.init.len();
    if len <= offset {
        if offset > usize::MAX - len || n > usize::MAX - len - offset {
            return Err(RuntimeError::DataTooLarge);
        }
        let ghost before = entries@;
        let target = len + offset + n;
        while entries.len() < target
            invariant
                target == len + offset + n,
                len <= entries@.len() <= target,
                before.len() == len,
                entries@ == before + Seq::new((entries@.len() - len) as nat, |i: int| None::<FuncInst>),
            decreases target - entries@.len(),
        {
            entries.push(None);
            assert(entries@ =~= before + Seq::new((entries@.len() - len) as nat, |i: int| None::<FuncInst>));
        }
        assert(opt_func_views(entries@) =~= opt_func_views(before) + Seq::new((offset + n) as nat, |i: int| None::<FuncInstV>));
    }
    let ghost grown = opt_func_views(entries@);
    assert(spec_elem_step(opt_func_views(old(entries)@), elem@, fv, globals@) == spec_fill_from(grown, offset as int, elem.init@, 0, fv));
    let mut k: usize = 0;
    while k < n
        invariant
            k <= n,
            n == elem.init@.len(),
            fv == views(funcs@),
            spec_elem_step(opt_func_views(old(entries)@), elem@, fv, globals@) == spec_fill_from(grown, offset as int, elem.init@, 0, fv),
            spec_fill_from(grown, offset as int, elem.init@, 0, fv) == spec_fill_from(
                opt_func_views(entries@),
                offset as int,
                elem.init@,
                k as int,
                fv,
            ),
        decreases n - k,
    {
        let idx = elem.init[k];
        if idx as usize >= funcs.len() {
            return Err(RuntimeError::NotFoundFunction(idx as usize));
        }
        if offset >= entries.len() || k >= entries.len() - offset {
            return Err(RuntimeError::DataTooLarge);
        }
        let f = funcs[idx as usize].duplicate();
        let ghost es = entries@;
        entries.set(offset + k, Some(f));
        assert(opt_func_views(entries@) =~= opt_func_views(es).update(offset + k, Some(fv[idx as int])));
        k = k + 1;
    }
    Ok(())
}

/// Applies the element section to table entries.
fn fill_elements(
    entries: &mut Vec<Option<FuncInst>>,
    module: &Module,
    funcs: &Vec<FuncInst>,
    globals: &Vec<InternalGlobalInst>,
) -> (r: Result<(), RuntimeError>)
    ensures
        match spec_elems(opt_func_views(old(entries)@), module@, views(funcs@), globals@) {
            Ok(es) => r is Ok && opt_func_views(final(entries)@) == es,
            Err(e) => r == Err::<(), RuntimeError>(e),
        },
{
    let elems = match &module.element_section {
        None => return Ok(()),
        Some(elems) => elems,
    };
    let ghost ev = views(elems@);
    let ghost start = opt_func_views(entries@);
    let mut j: usize = 0;
    while j < elems.len()
        invariant
            j <= elems.len(),
            ev == views(elems@),
            module@.element_section == Some(ev),
            start == opt_func_views(old(entries)@),
            spec_elems_from(start, ev, 0, views(funcs@), globals@) == spec_elems_from(
                opt_func_views(entries@),
                ev,
                j as int,
                views(funcs@),
                globals@,
            ),
        decreases elems.len() - j,
    {
        match apply_element(entries, &elems[j], funcs, globals) {
            Ok(()) => {},
            Err(e) => return Err(e),
        }
        j = j + 1;
    }
    Ok(())
}

/// Copies a data segment into its memory.
fn copy_segment(mems: &mut Vec<InternalMemoryInst>, segment: &Data, globals: &Vec<InternalGlobalInst>) -> (r: Result<(), RuntimeError>)
    ensures
        match spec_data_step(views(old(mems)@), segment@, globals@) {
            Ok(ms) => r is Ok && views(final(mems)@) == ms,
            Err(e) => r == Err::<(), RuntimeError>(e),
        },
{
    let offset = match eval_offset(globals, segment.offset) {
        Ok(offset) => offset,
        Err(e) => return Err(e),
    };
    let idx = segment.memory_index as usize;
    if idx >= mems.len() {
        return Err(RuntimeError::NotFoundMemory(idx));
    }
    let n = segment.init.len();
    if offset > mems[idx].data.len() || n > mems[idx].data.len() - offset {
        return Err(RuntimeError::DataTooLarge);
    }
    let ghost ms = mems@;
    let mut mem = mems.remove(idx);
    let ghost bytes = mem.data@;
    assert(bytes.len() == mem.data.len());
    assert(views(ms)[idx as int] == (bytes, mem.max));
    let ghost max = mem.max;
    let mut k: usize = 0;
    while k < n
        invariant
            k <= n,
            mem.max == max,
            bytes.len() <= usize::MAX,
            n == segment.init@.len(),
            offset + n <= bytes.len(),
            mem.data@.len() == bytes.len(),
            forall|i: int| 0 <= i < bytes.len() ==> #[trigger] mem.data@[i] == if offset <= i < offset + k {
                segment.init@[i - offset]
            } else {
                bytes[i]
            },
        decreases n - k,
    {
        mem.data.set(offset + k, segment.init[k]);
        k = k + 1;
    }
    let ghost copied = Seq::new(
        bytes.len(),
        |i: int|
            if offset <= i < offset + n {
                segment.init@[i - offset]
            } else {
                bytes[i]
            },
    );
    assert(mem.data@ =~= copied);
    mems.insert(idx, mem);
    proof {
        assert(mems@ =~= ms.update(idx as int, mem));
        assert(views(mems@) =~= views(ms).update(idx as int, (copied, mem.max)));
    }
    Ok(())
}

/// Copies the data segments into the memories.
fn copy_data(mems: &mut Vec<InternalMemoryInst>, module: &Module, globals: &Vec<InternalGlobalInst>) -> (r: Result<(), RuntimeError>)
    ensures
        match spec_data_from(
            views(old(mems)@),
            match module@.data {
                Some(d) => d,
                None => Seq::empty(),
            },
            0,
            globals@,
        ) {
            Ok(ms) => r is Ok && views(final(mems)@) == ms,
            Err(e) => r == Err::<(), RuntimeError>(e),
        },
{
    let empty: Vec<Data> = Vec::new();
    let data = match &module.data {
        Some(d) => d,
        None => &empty,
    };
    let ghost dv = views(data@);
    let ghost start = views(mems@);
    let mut j: usize = 0;
    while j < data.len()
        invariant
            j <= data.len(),
            dv == views(data@),
            start == views(old(mems)@),
            dv == match module@.data {
                Some(d) => d,
                None => Seq::<(u32, Expr, Seq<u8>)>::empty(),
            },
            spec_data_from(start, dv, 0, globals@) == spec_data_from(views(mems@), dv, j as int, globals@),
        decreases data.len() - j,
    {
        match copy_segment(mems, &data[j], globals) {
            Ok(()) => {},
            Err(e) => return Err(e),
        }
        j = j + 1;
    }
    Ok(())
}

impl Store {
    /// Instantiates a module: resolves its imports with `importers`, and
    /// builds its functions, tables, memories and globals, with the element
    /// and data segments applied.
    /// <https://www.w3.org/TR/wasm-core-1/#instantiation%E2%91%A1>
    #[verifier::rlimit(30)]
    pub fn new(module: &Module, importers: Option<&Vec<Importer>>) -> (r: Result<Store, RuntimeError>)
        ensures
            match spec_store_new(module@, importer_views(importers)) {
                Ok(s) => r matches Ok(st) && st@ == s,
                Err(e) => r == Err::<Store, RuntimeError>(e),
            },
    {
        let g = match import_instances(module, importers) {
            Ok(g) => g,
            Err(e) => return Err(e),
        };
        let Gathered { funcs, tables, memory, globals } = g;
        let mut funcs = funcs;
        let mut tables = tables;
        let mut memory = memory;
        let mut globals = globals;
        let ghost imported_globals = globals@;
        if let Some(section) = &module.global_section {
            let mut j: usize = 0;
            while j < section.len()
                invariant
                    j <= section.len(),
                    globals@ == imported_globals + section@.take(j as int).map_values(|g: Global| global_inst(g)),
                decreases section.len() - j,
            {
                let global = section[j];
                let value = match global.init_expr {
                    ExprValue::I32(v) => Value::I32(v),
                    ExprValue::I64(v) => Value::I64(v),
                    ExprValue::F32(v) => Value::F32(v),
                    ExprValue::F64(v) => Value::F64(v),
                };
                let mutability = match global.global_type.mutability {
                    Mutability::Var => true,
                    Mutability::Const => false,
                };
                globals.push(InternalGlobalInst { value, mutability });
                j = j + 1;
                assert(globals@ =~= imported_globals + section@.take(j as int).map_values(|g: Global| global_inst(g)));
            }
            assert(section@.take(section.len() as int) =~= section@);
        } else {
            assert(globals@ =~= imported_globals + Seq::<InternalGlobalInst>::empty());
        }
        match add_code(module, &mut funcs) {
            Ok(()) => {},
            Err(e) => return Err(e),
        }
        match add_memories(module, &mut memory) {
            Ok(()) => {},
            Err(e) => return Err(e),
        }
        match &module.table_section {
            Some(section) => {
                if section.len() == 0 {
                    return Err(RuntimeError::NotFoundTable(0));
                }
                let table = section[0];
                let mut entries: Vec<Option<FuncInst>> = Vec::new();
                let mut k: u32 = 0;
                while k < table.limits.min
                    invariant
                        k <= table.limits.min,
                        opt_func_views(entries@) == Seq::new(k as nat, |i: int| None::<FuncInstV>),
                    decreases table.limits.min - k,
                {
                    let ghost es = entries@;
                    entries.push(None);
                    proof {
                        super::module::lemma_opt_func_views_push(es, None);
                    }
                    k = k + 1;
                    assert(opt_func_views(entries@) =~= Seq::new(k as nat, |i: int| None::<FuncInstV>));
                }
                match fill_elements(&mut entries, module, &funcs, &globals) {
                    Ok(()) => {},
                    Err(e) => return Err(e),
                }
                let t = InternalTableInst { funcs: entries, max: table.limits.max };
                let ghost ts = tables@;
                tables.push(t);
                proof {
                    super::module::lemma_views_push(ts, t);
                }
            },
            None => {
                if tables.len() > 0 {
                    let ghost ts = tables@;
                    let mut first = tables.remove(0);
                    match fill_elements(&mut first.funcs, module, &funcs, &globals) {
                        Ok(()) => {},
                        Err(e) => return Err(e),
                    }
                    tables.insert(0, first);
                    proof {
                        assert(tables@ =~= ts.update(0, first));
                        assert(views(tables@) =~= views(ts).update(0, first@));
                    }
                }
            },
        }
        match copy_data(&mut memory, module, &globals) {
            Ok(()) => {},
            Err(e) => return Err(e),
        }
        let module_inst = ModuleInst::allocate(module);
        Ok(Store { funcs, tables, memory, globals, module: module_inst, start: module.start_section })
    }
}


/// Why a module could not be loaded: its bytes did not decode, or it did not
/// instantiate.
#[derive(Debug, Clone, Copy, PartialEq, Eq, Structural)]
pub enum LoadError {
    Decode(DecodeError),
    Instantiate(RuntimeError),
}

/// The store that the bytes of a module instantiate to.
pub open spec fn spec_load_store(bytes: Seq<u8>, importers: Option<Seq<(Seq<char>, StoreV)>>) -> Result<StoreV, LoadError> {
    match spec_module(bytes) {
        Err(e) => Err(LoadError::Decode(e)),
        Ok(m) => match spec_store_new(m, importers) {
            Err(e) => Err(LoadError::Instantiate(e)),
            Ok(s) => Ok(s),
        },
    }
}

impl Store {
    /// Decodes a module from its bytes and instantiates it.
    pub fn from_bytes(bytes: &[u8], importers: Option<&Vec<Importer>>) -> (r: Result<Store, LoadError>)
        ensures
            match spec_load_store(bytes@, importer_views(importers)) {
                Ok(s) => r matches Ok(st) && st@ == s,
                Err(e) => r == Err::<Store, LoadError>(e),
            },
    {
        let mut decoder = Decoder::new(bytes);
        let module = match decoder.decode() {
            Ok(m) => m,
            Err(e) => return Err(LoadError::Decode(e)),
        };
        match Store::new(&module, importers) {
            Ok(s) => Ok(s),
            Err(e) => Err(LoadError::Instantiate(e)),
        }
    }
}

/// A data segment whose offset is the constant `v` (read unsigned) copies
/// its bytes into memory `idx` from that offset on, and changes no other
/// byte and no other memory; it fails when the memory does not exist or the
/// bytes do not fit in it.
pub proof fn lemma_data_segment_copies(
    mems: Seq<(Seq<u8>, Option<u32>)>,
    idx: u32,
    v: i32,
    init: Seq<u8>,
    globals: Seq<InternalGlobalInst>,
)
    ensures
        ({
            let off = (v as int) % 0x1_0000_0000;
            let r = spec_data_step(mems, (idx, Expr::Value(ExprValue::I32(v)), init), globals);
            &&& idx >= mems.len() ==> r == Err::<Seq<(Seq<u8>, Option<u32>)>, RuntimeError>(RuntimeError::NotFoundMemory(idx as usize))
            &&& idx < mems.len() && off + init.len() > mems[idx as int].0.len() ==> r == Err::<Seq<(Seq<u8>, Option<u32>)>, RuntimeError>(RuntimeError::DataTooLarge)
            &&& idx < mems.len() && off + init.len() <= mems[idx as int].0.len() ==> {
                let after = r->Ok_0;
                &&& r is Ok
                &&& after.len() == mems.len()
                &&& forall|m: int| 0 <= m < mems.len() && m != idx ==> #[trigger] after[m] == mems[m]
                &&& after[idx as int].1 == mems[idx as int].1
                &&& after[idx as int].0.len() == mems[idx as int].0.len()
                &&& forall|i: int| 0 <= i < init.len() ==> #[trigger] after[idx as int].0[off + i] == init[i]
                &&& forall|k: int| 0 <= k < mems[idx as int].0.len() && !(off <= k < off + init.len())
                    ==> #[trigger] after[idx as int].0[k] == mems[idx as int].0[k]
            }
        }),
{
    lemma_unsigned_i32(v);
}

/// What the entries `after` a fill of `init[k..]` from `offset + k` on hold:
/// each of those positions its function, every other entry what it held.
pub open spec fn filled(entries: Seq<Option<FuncInstV>>, after: Seq<Option<FuncInstV>>, offset: int, init: Seq<u32>, k: int, funcs: Seq<FuncInstV>) -> bool {
    &&& after.len() == entries.len()
    &&& forall|i: int| k <= i < init.len() ==> init[i] < funcs.len() && offset + i < entries.len() && #[trigger] after[offset + i] == Some(funcs[init[i] as int])
    &&& forall|j: int| 0 <= j < entries.len() && !(offset + k <= j < offset + init.len()) ==> #[trigger] after[j] == entries[j]
}

/// The entries after `spec_fill_from` has put `init[k..]` from `offset + k`
/// on: each of those positions holds its function, every other entry is as
/// it was; it succeeds when every index names a function and every position
/// lies in the table.
proof fn lemma_fill_places(
    entries: Seq<Option<FuncInstV>>,
    offset: int,
    init: Seq<u32>,
    k: int,
    funcs: Seq<FuncInstV>,
)
    requires
        0 <= k <= init.len(),
        0 <= offset,
    ensures
        (forall|i: int| k <= i < init.len() ==> init[i] < funcs.len()) && offset + init.len() <= entries.len()
            ==> spec_fill_from(entries, offset, init, k, funcs) is Ok,
        spec_fill_from(entries, offset, init, k, funcs) is Ok ==> filled(entries, spec_fill_from(entries, offset, init, k, funcs)->Ok_0, offset, init, k, funcs),
    decreases init.len() - k,
{
    if k < init.len() && init[k] < funcs.len() && offset + k < entries.len() {
        let next = entries.update(offset + k, Some(funcs[init[k] as int]));
        lemma_fill_places(next, offset, init, k + 1, funcs);
        if spec_fill_from(entries, offset, init, k, funcs) is Ok {
            let after = spec_fill_from(entries, offset, init, k, funcs)->Ok_0;
            assert(after == spec_fill_from(next, offset, init, k + 1, funcs)->Ok_0);
            assert(after[offset + k] == next[offset + k]);
            assert forall|i: int| k <= i < init.len() implies init[i] < funcs.len() && offset + i < entries.len() && #[trigger] after[offset + i] == Some(funcs[init[i] as int]) by {
                if i > k {
                    assert(after[offset + i] == Some(funcs[init[i] as int]));
                }
            }
            assert forall|j: int| 0 <= j < entries.len() && !(offset + k <= j < offset + init.len()) implies #[trigger] after[j] == entries[j] by {
                assert(after[j] == next[j]);
            }
            assert(filled(entries, after, offset, init, k, funcs));
        }
    } else if spec_fill_from(entries, offset, init, k, funcs) is Ok {
        assert(spec_fill_from(entries, offset, init, k, funcs)->Ok_0 == entries);
    }
}

/// An element segment whose offset is the constant `v` (read unsigned) puts
/// the function `init[i]` at entry `offset + i` of the table, for each `i`,
/// and leaves the other entries as they were; when the segment starts at or
/// past the end, the table first grows by the offset and the segment's
/// length, with empty entries.
pub proof fn lemma_element_segment_places(
    entries: Seq<Option<FuncInstV>>,
    t: u32,
    v: i32,
    init: Seq<u32>,
    funcs: Seq<FuncInstV>,
    globals: Seq<InternalGlobalInst>,
)
    requires
        entries.len() + 0x1_0000_0000 + init.len() <= usize::MAX,
    ensures
        ({
            let off = (v as int) % 0x1_0000_0000;
            let r = spec_elem_step(entries, (t, Expr::Value(ExprValue::I32(v)), init), funcs, globals);
            let len = if entries.len() <= off { entries.len() + off + init.len() } else { entries.len() as int };
            &&& (forall|i: int| 0 <= i < init.len() ==> init[i] < funcs.len()) && off + init.len() <= len ==> r is Ok
            &&& r is Ok ==> {
                let after = r->Ok_0;
                &&& after.len() == len
                &&& forall|i: int| 0 <= i < init.len() ==> #[trigger] after[off + i] == Some(funcs[init[i] as int])
                &&& forall|j: int| 0 <= j < len && !(off <= j < off + init.len()) ==> #[trigger] after[j] == if j < entries.len() { entries[j] } else { None::<FuncInstV> }
            }
        }),
{
    lemma_unsigned_i32(v);
    let off = unsigned_i32(v) as int;
    let grown = if entries.len() <= off {
        entries + Seq::new((off + init.len()) as nat, |i: int| None::<FuncInstV>)
    } else {
        entries
    };
    lemma_fill_places(grown, off, init, 0, funcs);
}

} // verus!
