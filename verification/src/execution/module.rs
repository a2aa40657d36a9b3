//! Instances: functions, tables, memories, globals and exports.
//! <https://www.w3.org/TR/wasm-core-1/#runtime-structure%E2%91%A0>
use super::error::RuntimeError;
use super::value::{ExternalVal, Numeric, Value};
use crate::binary::instruction::{ImmediateV, Instruction, MemoryArg, Opcode};
use crate::binary::module::Module;
use crate::binary::types::{views, Export, FuncType, ValueType};
use crate::endian::{le_byte, le_value, lemma_read_after_write, pow256};
use vstd::prelude::*;

verus! {

/// The size of a memory page in bytes.
/// <https://www.w3.org/TR/wasm-core-1/#memory-instances%E2%91%A0>
pub const PAGE_SIZE: u32 = 65536;

/// The most pages a memory can have.
pub const MAX_PAGES: u32 = 65536;

/// The code of a function defined in the module.
#[derive(Debug)]
pub struct Func {
    pub type_idx: u32,
    pub locals: Vec<ValueType>,
    pub body: Vec<Instruction>,
}

/// A function's code with its vectors as sequences of views.
pub struct FuncV {
    pub type_idx: u32,
    pub locals: Seq<ValueType>,
    pub body: Seq<(Opcode, ImmediateV)>,
}

impl View for Func {
    type V = FuncV;

    open spec fn view(&self) -> FuncV {
        FuncV { type_idx: self.type_idx, locals: self.locals@, body: views(self.body@) }
    }
}

#[derive(Debug)]
pub struct InternalFuncInst {
    pub func_type: FuncType,
    pub code: Func,
}

#[derive(Debug)]
pub struct ExternalFuncInst {
    pub module: String,
    /// the function's name
    pub field: String,
    pub func_type: FuncType,
}

#[derive(Debug)]
pub enum FuncInst {
    Internal(InternalFuncInst),
    External(ExternalFuncInst),
}

/// A function instance with its vectors and strings as sequences.
pub enum FuncInstV {
    Internal((Seq<ValueType>, Seq<ValueType>), FuncV),
    External(Seq<char>, Seq<char>, (Seq<ValueType>, Seq<ValueType>)),
}

impl View for FuncInst {
    type V = FuncInstV;

    open spec fn view(&self) -> FuncInstV {
        match self {
            FuncInst::Internal(f) => FuncInstV::Internal(f.func_type@, f.code@),
            FuncInst::External(f) => FuncInstV::External(f.module@, f.field@, f.func_type@),
        }
    }
}

/// The type of a function instance.
pub open spec fn func_inst_type(f: FuncInstV) -> (Seq<ValueType>, Seq<ValueType>) {
    match f {
        FuncInstV::Internal(ty, _) => ty,
        FuncInstV::External(_, _, ty) => ty,
    }
}

/// The views of optional function instances.
pub open spec fn opt_func_views(s: Seq<Option<FuncInst>>) -> Seq<Option<FuncInstV>> {
    s.map_values(
        |f: Option<FuncInst>|
            match f {
                Some(f) => Some(f@),
                None => None,
            },
    )
}

/// The views of optional function instances with one more pushed.
pub proof fn lemma_opt_func_views_push(s: Seq<Option<FuncInst>>, x: Option<FuncInst>)
    ensures
        opt_func_views(s.push(x)) == opt_func_views(s).push(
            match x {
                Some(f) => Some(f@),
                None => None,
            },
        ),
{
    assert(opt_func_views(s.push(x)) =~= opt_func_views(s).push(
        match x {
            Some(f) => Some(f@),
            None => None,
        },
    ));
}

#[derive(Debug, Default)]
pub struct InternalTableInst {
    pub funcs: Vec<Option<FuncInst>>,
    pub max: Option<u32>,
}

impl View for InternalTableInst {
    type V = (Seq<Option<FuncInstV>>, Option<u32>);

    open spec fn view(&self) -> (Seq<Option<FuncInstV>>, Option<u32>) {
        (opt_func_views(self.funcs@), self.max)
    }
}

#[derive(Default, Debug)]
pub struct InternalMemoryInst {
    pub data: Vec<u8>,
    pub max: Option<u32>,
}

impl View for InternalMemoryInst {
    type V = (Seq<u8>, Option<u32>);

    open spec fn view(&self) -> (Seq<u8>, Option<u32>) {
        (self.data@, self.max)
    }
}

/// The number of pages in `data`.
pub open spec fn spec_pages(data: Seq<u8>) -> nat {
    data.len() / (PAGE_SIZE as nat)
}

/// The most pages a memory can have here: the limit of the format, and what
/// fits in the address space.
pub open spec fn page_limit() -> nat {
    if (MAX_PAGES as nat) * (PAGE_SIZE as nat) <= usize::MAX as nat {
        MAX_PAGES as nat
    } else {
        (usize::MAX as nat) / (PAGE_SIZE as nat)
    }
}

/// What growing a memory by `n` pages gives: the bytes, zero-extended by `n`
/// pages, or why it cannot grow.
pub open spec fn spec_grow(data: Seq<u8>, max: Option<u32>, n: u32) -> Result<Seq<u8>, RuntimeError> {
    let len = spec_pages(data) + n;
    if data.len() % (PAGE_SIZE as nat) != 0 {
        Err(RuntimeError::MemorySizeNotPageAligned(PAGE_SIZE))
    } else if max is Some && (max->0 as nat) < len {
        Err(RuntimeError::MemoryPageOverflow(max->0, len as u64))
    } else if len > page_limit() {
        Err(RuntimeError::MemoryPageOverflow(MAX_PAGES, len as u64))
    } else {
        Ok(data + Seq::new((n as nat) * (PAGE_SIZE as nat), |i: int| 0u8))
    }
}

/// `data` with the `n` bytes from `at` replaced by the low `n` bytes of
/// `bits`, least significant first.
pub open spec fn stored(data: Seq<u8>, at: int, n: nat, bits: nat) -> Seq<u8> {
    Seq::new(
        data.len(),
        |k: int|
            if at <= k < at + n {
                le_byte(bits, (k - at) as nat)
            } else {
                data[k]
            },
    )
}

/// The effective address of an access, when it fits in `usize`.
pub open spec fn effective_address(addr: usize, arg: MemoryArg) -> Option<int> {
    if addr + arg.offset <= usize::MAX {
        Some(addr + arg.offset)
    } else {
        None
    }
}

/// What loading a `T` at `addr` with `arg` reads from `data`.
pub open spec fn spec_load<T: Numeric>(data: Seq<u8>, addr: usize, arg: MemoryArg) -> Result<T, RuntimeError> {
    match effective_address(addr, arg) {
        Some(at) => if at + T::size() <= data.len() {
            Ok(T::from_le_value(le_value(data.subrange(at, at + T::size()))))
        } else {
            Err(RuntimeError::OutOfBoundsMemoryAccess)
        },
        None => Err(RuntimeError::OutOfBoundsMemoryAccess),
    }
}

/// What storing `value` at `addr` with `arg` makes of `data`.
pub open spec fn spec_store<T: Numeric>(data: Seq<u8>, addr: usize, arg: MemoryArg, value: T) -> Result<Seq<u8>, RuntimeError> {
    match effective_address(addr, arg) {
        Some(at) => if at + T::size() <= data.len() {
            Ok(stored(data, at, T::size(), value.le_bits()))
        } else {
            Err(RuntimeError::OutOfBoundsMemoryAccess)
        },
        None => Err(RuntimeError::OutOfBoundsMemoryAccess),
    }
}

impl InternalMemoryInst {
    /// The number of pages.
    pub fn size(&self) -> (n: usize)
        ensures
            n == spec_pages(self.data@),
    {
        self.data.len() / (PAGE_SIZE as usize)
    }

    /// Grows the memory by `grow_size` pages of zeros; on an error nothing
    /// changes.
    /// <https://www.w3.org/TR/wasm-core-1/#grow-mem>
    pub fn grow(&mut self, grow_size: u32) -> (r: Result<(), RuntimeError>)
        ensures
            final(self).max == old(self).max,
            match spec_grow(old(self).data@, old(self).max, grow_size) {
                Ok(data) => r is Ok && final(self).data@ == data,
                Err(e) => r == Err::<(), RuntimeError>(e) && final(self).data@ == old(self).data@,
            },
    {
        if self.data.len() % (PAGE_SIZE as usize) != 0 {
            return Err(RuntimeError::MemorySizeNotPageAligned(PAGE_SIZE));
        }
        let size = self.size() as u64;
        let len: u64 = size + grow_size as u64;
        if let Some(max) = self.max {
            if (max as u64) < len {
                return Err(RuntimeError::MemoryPageOverflow(max, len));
            }
        }
        let limit: u64 = if (MAX_PAGES as u64) * (PAGE_SIZE as u64) <= usize::MAX as u64 {
            MAX_PAGES as u64
        } else {
            (usize::MAX as u64) / (PAGE_SIZE as u64)
        };
        if len > limit {
            return Err(RuntimeError::MemoryPageOverflow(MAX_PAGES, len));
        }
        proof {
            assert(len * (PAGE_SIZE as nat) <= usize::MAX) by (nonlinear_arith)
                requires
                    len <= limit,
                    limit == MAX_PAGES as nat || limit == (usize::MAX as nat) / (PAGE_SIZE as nat),
                    limit == MAX_PAGES as nat ==> (MAX_PAGES as nat) * (PAGE_SIZE as nat) <= usize::MAX as nat,
            ;
            assert(self.data@.len() == size * (PAGE_SIZE as nat)) by (nonlinear_arith)
                requires
                    self.data@.len() % (PAGE_SIZE as nat) == 0,
                    size == self.data@.len() / (PAGE_SIZE as nat),
            ;
            assert(len * (PAGE_SIZE as nat) == size * (PAGE_SIZE as nat) + (grow_size as nat) * (PAGE_SIZE as nat)) by (nonlinear_arith)
                requires
                    len == size + grow_size,
            ;
        }
        let new_len = (len as usize) * (PAGE_SIZE as usize);
        let ghost old_data = self.data@;
        self.data.resize(new_len, 0u8);
        proof {
            assert(self.data@ =~= old_data + Seq::new((grow_size as nat) * (PAGE_SIZE as nat), |i: int| 0u8));
        }
        Ok(())
    }

    /// Reads a `T` at `addr` plus the offset of `arg`.
    pub fn load<T: Numeric>(&self, addr: usize, arg: &MemoryArg) -> (r: Result<T, RuntimeError>)
        ensures
            r == spec_load::<T>(self.data@, addr, *arg),
    {
        let at = match addr.checked_add(arg.offset as usize) {
            Some(at) => at,
            None => return Err(RuntimeError::OutOfBoundsMemoryAccess),
        };
        T::read(self.data.as_slice(), at)
    }

    /// Writes `value` at `addr` plus the offset of `arg`; on an error nothing
    /// changes.
    pub fn write<T: Numeric>(&mut self, addr: usize, arg: &MemoryArg, value: T) -> (r: Result<(), RuntimeError>)
        ensures
            final(self).max == old(self).max,
            match spec_store::<T>(old(self).data@, addr, *arg, value) {
                Ok(data) => r is Ok && final(self).data@ == data,
                Err(e) => r == Err::<(), RuntimeError>(e) && final(self).data@ == old(self).data@,
            },
    {
        let at = match addr.checked_add(arg.offset as usize) {
            Some(at) => at,
            None => return Err(RuntimeError::OutOfBoundsMemoryAccess),
        };
        let ghost old_data = self.data@;
        let r = T::write(&mut self.data, at, value);
        proof {
            if at + T::size() <= old_data.len() {
                assert(self.data@ =~= stored(old_data, at as int, T::size(), value.le_bits())) by {
                    assert forall|k: int| 0 <= k < old_data.len() implies #[trigger] self.data@[k]
                        == stored(old_data, at as int, T::size(), value.le_bits())[k] by {
                        if at <= k < at + T::size() {
                            assert(self.data@[at + (k - at)] == le_byte(value.le_bits(), (k - at) as nat));
                        }
                    }
                }
            }
        }
        r
    }
}

/// Loading a `T` where a `T` was just stored gives back the stored value.
pub proof fn lemma_load_after_store<T: Numeric>(data: Seq<u8>, addr: usize, arg: MemoryArg, value: T)
    requires
        spec_store::<T>(data, addr, arg, value) is Ok,
    ensures
        spec_load::<T>(spec_store::<T>(data, addr, arg, value)->Ok_0, addr, arg) == Ok::<T, RuntimeError>(value),
{
    let at = addr + arg.offset;
    let after = stored(data, at, T::size(), value.le_bits());
    let bytes = after.subrange(at, at + T::size());
    assert forall|j: int| 0 <= j < bytes.len() implies #[trigger] bytes[j] == le_byte(value.le_bits(), j as nat) by {
        assert(bytes[j] == after[at + j]);
    }
    lemma_read_after_write(bytes, value.le_bits());
    value.lemma_roundtrip();
}

/// A store leaves every byte outside the stored range as it was, so a load
/// of a range apart from it reads what it read before.
pub proof fn lemma_load_apart_from_store<T: Numeric, U: Numeric>(
    data: Seq<u8>,
    addr: usize,
    arg: MemoryArg,
    value: T,
    other_addr: usize,
    other_arg: MemoryArg,
)
    requires
        spec_store::<T>(data, addr, arg, value) is Ok,
        effective_address(other_addr, other_arg) is Some,
        ({
            let a = addr + arg.offset;
            let b = other_addr + other_arg.offset;
            b + U::size() <= a || a + T::size() <= b
        }),
    ensures
        spec_load::<U>(spec_store::<T>(data, addr, arg, value)->Ok_0, other_addr, other_arg) == spec_load::<U>(data, other_addr, other_arg),
{
    let a = addr + arg.offset;
    let b = other_addr + other_arg.offset;
    let after = stored(data, a, T::size(), value.le_bits());
    if b + U::size() <= data.len() {
        assert(after.subrange(b, b + U::size()) =~= data.subrange(b, b + U::size()));
    }
}

/// Growing a memory keeps its bytes and adds zeros after them.
pub proof fn lemma_grow_keeps_bytes(data: Seq<u8>, max: Option<u32>, n: u32, k: int)
    requires
        spec_grow(data, max, n) is Ok,
        0 <= k < spec_grow(data, max, n)->Ok_0.len(),
    ensures
        spec_grow(data, max, n)->Ok_0.len() == data.len() + (n as nat) * (PAGE_SIZE as nat),
        k < data.len() ==> spec_grow(data, max, n)->Ok_0[k] == data[k],
        k >= data.len() ==> spec_grow(data, max, n)->Ok_0[k] == 0,
        spec_pages(spec_grow(data, max, n)->Ok_0) == spec_pages(data) + n,
{
    let grown = spec_grow(data, max, n)->Ok_0;
    assert(data.len() == spec_pages(data) * (PAGE_SIZE as nat)) by (nonlinear_arith)
        requires
            data.len() % (PAGE_SIZE as nat) == 0,
            spec_pages(data) == data.len() / (PAGE_SIZE as nat),
    ;
    assert(grown.len() == (spec_pages(data) + n) * (PAGE_SIZE as nat)) by (nonlinear_arith)
        requires
            grown.len() == data.len() + (n as nat) * (PAGE_SIZE as nat),
            data.len() == spec_pages(data) * (PAGE_SIZE as nat),
    ;
    let m: int = spec_pages(data) + n;
    assert((m * 65536) / 65536 == m) by (nonlinear_arith);
}

/// A global variable.
#[derive(Debug, Clone, Copy, PartialEq, Eq, Structural)]
pub struct InternalGlobalInst {
    pub value: Value,
    pub mutability: bool,
}

#[derive(Debug)]
pub struct ExportInst {
    pub name: String,
    pub desc: ExternalVal,
}

impl View for ExportInst {
    type V = (Seq<char>, ExternalVal);

    open spec fn view(&self) -> (Seq<char>, ExternalVal) {
        (self.name@, self.desc)
    }
}

/// The function types and exports of an instantiated module. Exports are
/// kept in the order of the export section.
#[derive(Debug, Default)]
pub struct ModuleInst {
    pub func_types: Vec<FuncType>,
    pub exports: Vec<ExportInst>,
}

/// What the export named `name` refers to: the last export of that name, as
/// a later entry of a map replaces an earlier one.
pub open spec fn export_lookup(exports: Seq<(Seq<char>, ExternalVal)>, name: Seq<char>) -> Option<ExternalVal>
    decreases exports.len(),
{
    if exports.len() == 0 {
        None
    } else if exports.last().0 == name {
        Some(exports.last().1)
    } else {
        export_lookup(exports.drop_last(), name)
    }
}

/// The place of the first entry named `name`, if any.
pub open spec fn index_of_key(m: Seq<(Seq<char>, ExternalVal)>, name: Seq<char>) -> Option<int>
    decreases m.len(),
{
    if m.len() == 0 {
        None
    } else {
        match index_of_key(m.drop_last(), name) {
            Some(k) => Some(k),
            None => if m.last().0 == name {
                Some(m.len() - 1)
            } else {
                None
            },
        }
    }
}

/// `m` with the entry `e` put in as a map puts it: replacing the entry of
/// the same name, or added at the end.
pub open spec fn map_insert(m: Seq<(Seq<char>, ExternalVal)>, e: (Seq<char>, ExternalVal)) -> Seq<(Seq<char>, ExternalVal)> {
    match index_of_key(m, e.0) {
        Some(k) => m.update(k, e),
        None => m.push(e),
    }
}

/// The exports put one after another into a map keyed by name: one entry
/// per name, holding the last export of that name.
pub open spec fn export_map(es: Seq<(Seq<char>, ExternalVal)>) -> Seq<(Seq<char>, ExternalVal)>
    decreases es.len(),
{
    if es.len() == 0 {
        Seq::empty()
    } else {
        map_insert(export_map(es.drop_last()), es.last())
    }
}

/// Whether no two entries have the same name.
pub open spec fn names_distinct(m: Seq<(Seq<char>, ExternalVal)>) -> bool {
    forall|i: int, j: int| 0 <= i < j < m.len() ==> (#[trigger] m[i]).0 != (#[trigger] m[j]).0
}

/// `index_of_key` gives the first entry of the name, or none when no entry
/// has it.
pub proof fn lemma_index_of_key(m: Seq<(Seq<char>, ExternalVal)>, name: Seq<char>)
    ensures
        match index_of_key(m, name) {
            Some(k) => 0 <= k < m.len() && m[k].0 == name && forall|j: int| 0 <= j < k ==> (#[trigger] m[j]).0 != name,
            None => forall|j: int| 0 <= j < m.len() ==> (#[trigger] m[j]).0 != name,
        },
    decreases m.len(),
{
    if m.len() > 0 {
        lemma_index_of_key(m.drop_last(), name);
        let p = m.drop_last();
        assert forall|j: int| 0 <= j < p.len() implies p[j] == m[j] by {}
    }
}

/// In a map with one entry per name, the lookup finds the entry of the name.
pub proof fn lemma_lookup_distinct(m: Seq<(Seq<char>, ExternalVal)>, name: Seq<char>)
    requires
        names_distinct(m),
    ensures
        export_lookup(m, name) == match index_of_key(m, name) {
            Some(k) => Some(m[k].1),
            None => None::<ExternalVal>,
        },
    decreases m.len(),
{
    lemma_index_of_key(m, name);
    if m.len() > 0 {
        let p = m.drop_last();
        assert forall|i: int, j: int| 0 <= i < j < p.len() implies (#[trigger] p[i]).0 != (#[trigger] p[j]).0 by {
            assert(p[i] == m[i] && p[j] == m[j]);
        }
        lemma_lookup_distinct(p, name);
        lemma_index_of_key(p, name);
        if m.last().0 == name {
            match index_of_key(p, name) {
                Some(k) => {
                    assert(p[k] == m[k]);
                    assert(m[k].0 != m[m.len() - 1].0);
                },
                None => {},
            }
        } else {
            match index_of_key(p, name) {
                Some(k) => {
                    assert(p[k] == m[k]);
                },
                None => {},
            }
        }
    }
}

/// Putting an entry into a map with one entry per name keeps one entry per
/// name; the entry's name then finds it, and every other name finds what it
/// found before.
pub proof fn lemma_map_insert(m: Seq<(Seq<char>, ExternalVal)>, e: (Seq<char>, ExternalVal), name: Seq<char>)
    requires
        names_distinct(m),
    ensures
        names_distinct(map_insert(m, e)),
        export_lookup(map_insert(m, e), name) == if name == e.0 {
            Some(e.1)
        } else {
            export_lookup(m, name)
        },
{
    lemma_index_of_key(m, e.0);
    let r = map_insert(m, e);
    match index_of_key(m, e.0) {
        Some(k) => {
            assert forall|i: int, j: int| 0 <= i < j < r.len() implies (#[trigger] r[i]).0 != (#[trigger] r[j]).0 by {
                assert(r[i].0 == m[i].0 && r[j].0 == m[j].0);
            }
        },
        None => {
            assert forall|i: int, j: int| 0 <= i < j < r.len() implies (#[trigger] r[i]).0 != (#[trigger] r[j]).0 by {
                if j == m.len() {
                    assert(r[i] == m[i]);
                } else {
                    assert(r[i] == m[i] && r[j] == m[j]);
                }
            }
        },
    }
    lemma_lookup_distinct(m, name);
    lemma_lookup_distinct(r, name);
    lemma_index_of_key(m, name);
    lemma_index_of_key(r, name);
    match index_of_key(r, name) {
        Some(k) => {
            match index_of_key(m, name) {
                Some(k2) => {
                    assert(r[k2].0 == name);
                    if k2 < k {
                    } else if k < k2 {
                        assert(r[k].0 == m[k].0 || k == m.len());
                    }
                },
                None => {},
            }
        },
        None => {
            match index_of_key(m, name) {
                Some(k2) => {
                    assert(r[k2].0 == name);
                },
                None => {},
            }
        },
    }
}

/// The map of the exports has one entry per name, and looking a name up in
/// it finds the last export of that name.
pub proof fn lemma_export_map(es: Seq<(Seq<char>, ExternalVal)>, name: Seq<char>)
    ensures
        names_distinct(export_map(es)),
        export_lookup(export_map(es), name) == export_lookup(es, name),
    decreases es.len(),
{
    if es.len() == 0 {
    } else {
        lemma_export_map(es.drop_last(), name);
        lemma_map_insert(export_map(es.drop_last()), es.last(), name);
    }
}

/// The export instances of an export section.
pub open spec fn spec_export_insts(exports: Seq<(Seq<char>, crate::binary::types::ExportDesc)>) -> Seq<(Seq<char>, ExternalVal)> {
    exports.map_values(
        |e: (Seq<char>, crate::binary::types::ExportDesc)|
            (
                e.0,
                match e.1 {
                    crate::binary::types::ExportDesc::Func(i) => ExternalVal::Func(i),
                    crate::binary::types::ExportDesc::Table(i) => ExternalVal::Table(i),
                    crate::binary::types::ExportDesc::Memory(i) => ExternalVal::Memory(i),
                    crate::binary::types::ExportDesc::Global(i) => ExternalVal::Global(i),
                },
            ),
    )
}

/// The views of a sequence with one more item are the views with that
/// item's view added.
pub proof fn lemma_views_push<T: View>(s: Seq<T>, x: T)
    ensures
        views(s.push(x)) == views(s).push(x@),
{
    assert(views(s.push(x)) =~= views(s).push(x@));
}

/// A copy of a sequence of value types.
pub fn copy_value_types(v: &Vec<ValueType>) -> (r: Vec<ValueType>)
    ensures
        r@ == v@,
{
    let mut r: Vec<ValueType> = Vec::new();
    let mut i: usize = 0;
    while i < v.len()
        invariant
            i <= v.len(),
            r@ == v@.take(i as int),
        decreases v.len() - i,
    {
        r.push(v[i]);
        i = i + 1;
        assert(r@ =~= v@.take(i as int));
    }
    assert(v@.take(v.len() as int) =~= v@);
    r
}

/// A copy of a function type.
pub fn copy_func_type(t: &FuncType) -> (r: FuncType)
    ensures
        r@ == t@,
{
    FuncType { params: copy_value_types(&t.params), results: copy_value_types(&t.results) }
}

/// The place of the first export named `name`, if any.
fn find_export(exports: &Vec<ExportInst>, name: &String) -> (r: Option<usize>)
    ensures
        match r {
            Some(k) => index_of_key(views(exports@), name@) == Some(k as int),
            None => index_of_key(views(exports@), name@) is None,
        },
{
    let ghost m = views(exports@);
    proof {
        lemma_index_of_key(m, name@);
    }
    let mut k: usize = 0;
    while k < exports.len()
        invariant
            k <= exports@.len(),
            m == views(exports@),
            forall|j: int| 0 <= j < k ==> (#[trigger] m[j]).0 != name@,
            match index_of_key(m, name@) {
                Some(f) => 0 <= f < m.len() && m[f].0 == name@ && forall|j: int| 0 <= j < f ==> (#[trigger] m[j]).0 != name@,
                None => forall|j: int| 0 <= j < m.len() ==> (#[trigger] m[j]).0 != name@,
            },
        decreases exports@.len() - k,
    {
        assert(m[k as int] == exports@[k as int]@);
        if exports[k].name == *name {
            return Some(k);
        }
        k = k + 1;
    }
    None
}

impl ModuleInst {
    /// The function types and exports of a module.
    /// <https://www.w3.org/TR/wasm-core-1/#modules%E2%91%A6>
    pub fn allocate(module: &Module) -> (inst: ModuleInst)
        ensures
            views(inst.func_types@) == match module.type_section {
                Some(types) => views(types@),
                None => Seq::empty(),
            },
            views(inst.exports@) == match module.export_section {
                Some(exports) => export_map(spec_export_insts(views(exports@))),
                None => Seq::empty(),
            },
            names_distinct(views(inst.exports@)),
    {
        let mut func_types: Vec<FuncType> = Vec::new();
        if let Some(section) = &module.type_section {
            let mut i: usize = 0;
            while i < section.len()
                invariant
                    i <= section.len(),
                    views(func_types@) == views(section@).take(i as int),
                decreases section.len() - i,
            {
                let ghost before = func_types@;
                func_types.push(copy_func_type(&section[i]));
                proof {
                    lemma_views_push(before, func_types@.last());
                }
                i = i + 1;
                assert(views(func_types@) =~= views(section@).take(i as int));
            }
            assert(views(section@).take(section.len() as int) =~= views(section@));
        } else {
            assert(views(func_types@) =~= Seq::empty());
        }
        let mut exports: Vec<ExportInst> = Vec::new();
        if let Some(section) = &module.export_section {
            let ghost insts = spec_export_insts(views(section@));
            let mut i: usize = 0;
            while i < section.len()
                invariant
                    i <= section.len(),
                    insts == spec_export_insts(views(section@)),
                    views(exports@) == export_map(insts.take(i as int)),
                decreases section.len() - i,
            {
                let export: &Export = &section[i];
                let inst = ExportInst { name: export.name.clone(), desc: ExternalVal::from_export_desc(export.desc) };
                let ghost before = exports@;
                proof {
                    assert(insts.take(i + 1).drop_last() =~= insts.take(i as int));
                    assert(insts.take(i + 1).last() == inst@);
                }
                match find_export(&exports, &inst.name) {
                    Some(k) => {
                        proof {
                            lemma_index_of_key(views(exports@), inst.name@);
                        }
                        exports.set(k, inst);
                        proof {
                            assert(views(exports@) =~= views(before).update(k as int, inst@));
                        }
                    },
                    None => {
                        exports.push(inst);
                        proof {
                            lemma_views_push(before, inst);
                        }
                    },
                }
                i = i + 1;
            }
            assert(insts.take(section.len() as int) =~= insts);
        } else {
            assert(views(exports@) =~= Seq::empty());
        }
        proof {
            match &module.export_section {
                Some(section) => lemma_export_map(spec_export_insts(views(section@)), Seq::empty()),
                None => {},
            }
        }
        ModuleInst { func_types, exports }
    }

    /// What the export named `name` refers to.
    pub fn get_export(&self, name: &String) -> (r: Option<ExternalVal>)
        ensures
            r == export_lookup(views(self.exports@), name@),
    {
        let mut i: usize = self.exports.len();
        assert(views(self.exports@).take(i as int) =~= views(self.exports@));
        while i > 0
            invariant
                i <= self.exports.len(),
                export_lookup(views(self.exports@), name@) == export_lookup(views(self.exports@).take(i as int), name@),
            decreases i,
        {
            let ghost prefix = views(self.exports@).take(i as int);
            assert(prefix.drop_last() =~= views(self.exports@).take(i - 1));
            if self.exports[i - 1].name == *name {
                return Some(self.exports[i - 1].desc);
            }
            i = i - 1;
        }
        None
    }
}


impl FuncInst {
    /// A copy of the function instance.
    pub fn duplicate(&self) -> (r: FuncInst)
        ensures
            r@ == self@,
    {
        match self {
            FuncInst::Internal(f) => FuncInst::Internal(
                InternalFuncInst {
                    func_type: copy_func_type(&f.func_type),
                    code: Func {
                        type_idx: f.code.type_idx,
                        locals: copy_value_types(&f.code.locals),
                        body: super::op::copy_instructions(&f.code.body),
                    },
                },
            ),
            FuncInst::External(f) => FuncInst::External(
                ExternalFuncInst {
                    module: f.module.clone(),
                    field: f.field.clone(),
                    func_type: copy_func_type(&f.func_type),
                },
            ),
        }
    }
}

/// A copy of a table.
pub fn copy_table(t: &InternalTableInst) -> (r: InternalTableInst)
    ensures
        r@ == t@,
{
    let mut funcs: Vec<Option<FuncInst>> = Vec::new();
    let mut i: usize = 0;
    while i < t.funcs.len()
        invariant
            i <= t.funcs.len(),
            funcs@.len() == i,
            opt_func_views(funcs@) == opt_func_views(t.funcs@).take(i as int),
        decreases t.funcs.len() - i,
    {
        let entry = match &t.funcs[i] {
            Some(f) => Some(f.duplicate()),
            None => None,
        };
        let ghost before = funcs@;
        funcs.push(entry);
        proof {
            assert forall|k: int| 0 <= k < i + 1 implies #[trigger] opt_func_views(funcs@)[k] == opt_func_views(t.funcs@)[k] by {
                if k < i {
                    assert(funcs@[k] == before[k]);
                    assert(opt_func_views(before)[k] == opt_func_views(t.funcs@).take(i as int)[k]);
                }
            }
        }
        i = i + 1;
        assert(opt_func_views(funcs@) =~= opt_func_views(t.funcs@).take(i as int));
    }
    assert(opt_func_views(t.funcs@).take(t.funcs.len() as int) =~= opt_func_views(t.funcs@));
    InternalTableInst { funcs, max: t.max }
}

/// A copy of a memory.
pub fn copy_memory(m: &InternalMemoryInst) -> (r: InternalMemoryInst)
    ensures
        r@ == m@,
{
    let mut data: Vec<u8> = Vec::new();
    let mut i: usize = 0;
    while i < m.data.len()
        invariant
            i <= m.data.len(),
            data@ == m.data@.take(i as int),
        decreases m.data.len() - i,
    {
        data.push(m.data[i]);
        i = i + 1;
        assert(data@ =~= m.data@.take(i as int));
    }
    assert(m.data@.take(m.data.len() as int) =~= m.data@);
    InternalMemoryInst { data, max: m.max }
}

} // verus!
