//! What the WASI preview 1 functions read from and write to the memory of
//! the module that calls them.
use super::file::{fdflags_bits, filetype_number, FdStat, FileType};
use crate::endian::{le_byte, le_value, lemma_le_value_bound, lemma_pow256_values, lemma_read_after_write, pow256, read_le, write_le};
use crate::execution::error::RuntimeError;
use crate::execution::module::{stored, InternalMemoryInst};
use crate::execution::value::Value;
use vstd::prelude::*;

verus! {

pub const ERRNO_SUCCESS: u16 = 0;

pub const ERRNO_BADF: u16 = 8;

pub const ERRNO_INVAL: u16 = 28;

pub const ERRNO_NOENT: u16 = 44;

pub const ERRNO_NOTDIR: u16 = 54;

pub const ERRNO_NOTCAPABLE: u16 = 76;

pub const CLOCKID_REALTIME: u32 = 0;

pub const CLOCKID_MONOTONIC: u32 = 1;

pub const SUBSCRIPTION_TYPE_CLOCK: u8 = 0;

pub const SUBSCRIPTION_CLOCK_ABSTIME: u16 = 1;

pub const OFLAGS_CREAT: u16 = 1;

pub const OFLAGS_DIRECTORY: u16 = 2;

pub const OFLAGS_EXCL: u16 = 4;

pub const OFLAGS_TRUNC: u16 = 8;

/// `data` with `bytes` copied in from `at`.
pub open spec fn copied(data: Seq<u8>, at: int, bytes: Seq<u8>) -> Seq<u8> {
    Seq::new(
        data.len(),
        |i: int|
            if at <= i < at + bytes.len() {
                bytes[i - at]
            } else {
                data[i]
            },
    )
}

/// Copies `bytes` into the memory from `at`; out of bounds is an error and
/// changes nothing.
pub fn write_bytes(mem: &mut InternalMemoryInst, at: u64, bytes: &[u8]) -> (r: Result<(), RuntimeError>)
    ensures
        final(mem).max == old(mem).max,
        at + bytes@.len() <= old(mem).data@.len() ==> r is Ok && final(mem).data@ == copied(
            old(mem).data@,
            at as int,
            bytes@,
        ),
        at + bytes@.len() > old(mem).data@.len() ==> r == Err::<(), RuntimeError>(RuntimeError::OutOfBoundsMemoryAccess)
            && final(mem).data@ == old(mem).data@,
{
    let len = mem.data.len();
    let n = bytes.len();
    if at > len as u64 || n > len - (at as usize) {
        return Err(RuntimeError::OutOfBoundsMemoryAccess);
    }
    let at = at as usize;
    let ghost before = mem.data@;
    let ghost max = mem.max;
    let mut k: usize = 0;
    while k < n
        invariant
            k <= n,
            n == bytes@.len(),
            at + n <= before.len(),
            len == before.len(),
            mem.max == max,
            mem.data@.len() == before.len(),
            forall|i: int| 0 <= i < before.len() ==> #[trigger] mem.data@[i] == if at <= i < at + k {
                bytes@[i - at]
            } else {
                before[i]
            },
        decreases n - k,
    {
        mem.data.set(at + k, bytes[k]);
        k = k + 1;
    }
    assert(mem.data@ =~= copied(before, at as int, bytes@));
    Ok(())
}

/// Writes the low `n` bytes of `v`, least significant first, at `at`; out of
/// bounds is an error and changes nothing.
pub fn write_uint(mem: &mut InternalMemoryInst, at: u64, n: usize, v: u64) -> (r: Result<(), RuntimeError>)
    requires
        n <= 8,
    ensures
        final(mem).max == old(mem).max,
        at + n <= old(mem).data@.len() ==> r is Ok && final(mem).data@ == stored(old(mem).data@, at as int, n as nat, v as nat),
        at + n > old(mem).data@.len() ==> r == Err::<(), RuntimeError>(RuntimeError::OutOfBoundsMemoryAccess)
            && final(mem).data@ == old(mem).data@,
{
    let len = mem.data.len();
    if at > len as u64 || n > len - (at as usize) {
        return Err(RuntimeError::OutOfBoundsMemoryAccess);
    }
    let ghost before = mem.data@;
    write_le(&mut mem.data, at as usize, n, v);
    proof {
        assert forall|k: int| 0 <= k < before.len() implies #[trigger] mem.data@[k] == stored(before, at as int, n as nat, v as nat)[k] by {
            if at <= k < at + n {
                assert(mem.data@[at + (k - at)] == le_byte(v as nat, (k - at) as nat));
            }
        }
        assert(mem.data@ =~= stored(before, at as int, n as nat, v as nat));
    }
    Ok(())
}

/// Reads the `n`-byte little-endian number at `at`.
pub fn read_uint(mem: &InternalMemoryInst, at: u64, n: usize) -> (r: Result<u64, RuntimeError>)
    requires
        n <= 8,
    ensures
        at + n <= mem.data@.len() ==> r == Ok::<u64, RuntimeError>(le_value(mem.data@.subrange(at as int, at + n)) as u64),
        at + n > mem.data@.len() ==> r == Err::<u64, RuntimeError>(RuntimeError::OutOfBoundsMemoryAccess),
{
    let len = mem.data.len();
    if at > len as u64 || n > len - (at as usize) {
        return Err(RuntimeError::OutOfBoundsMemoryAccess);
    }
    Ok(read_le(mem.data.as_slice(), at as usize, n))
}

/// One write into memory: the low `n` bytes of a number at a place, least
/// significant first, or bytes at a place.
pub enum MemWrite {
    Uint(u64, usize, u64),
    Bytes(u64, Vec<u8>),
}

/// A write into memory, as plain values.
pub enum MemWriteV {
    Uint(int, nat, nat),
    Bytes(int, Seq<u8>),
}

impl View for MemWrite {
    type V = MemWriteV;

    open spec fn view(&self) -> MemWriteV {
        match self {
            MemWrite::Uint(at, n, v) => MemWriteV::Uint(*at as int, *n as nat, *v as nat),
            MemWrite::Bytes(at, b) => MemWriteV::Bytes(*at as int, b@),
        }
    }
}

/// `data` after one write, or nothing when it does not fit.
pub open spec fn write_one(data: Seq<u8>, w: MemWriteV) -> Option<Seq<u8>> {
    match w {
        MemWriteV::Uint(at, n, v) => if at + n <= data.len() {
            Some(stored(data, at, n, v))
        } else {
            None
        },
        MemWriteV::Bytes(at, b) => if at + b.len() <= data.len() {
            Some(copied(data, at, b))
        } else {
            None
        },
    }
}

/// `data` after the writes, one after another: the first that does not fit
/// stops them, with what the writes before it wrote kept, and the error.
pub open spec fn writes_in_order(data: Seq<u8>, ws: Seq<MemWriteV>) -> (Seq<u8>, Option<RuntimeError>)
    decreases ws.len(),
{
    if ws.len() == 0 {
        (data, None)
    } else {
        match write_one(data, ws[0]) {
            None => (data, Some(RuntimeError::OutOfBoundsMemoryAccess)),
            Some(d) => writes_in_order(d, ws.drop_first()),
        }
    }
}

/// The outcome of writes that stop at an error.
pub open spec fn outcome(e: Option<RuntimeError>) -> Result<(), RuntimeError> {
    match e {
        None => Ok(()),
        Some(x) => Err(x),
    }
}

/// The views of a list of writes.
pub open spec fn writes_view(ws: Seq<MemWrite>) -> Seq<MemWriteV> {
    ws.map_values(|w: MemWrite| w@)
}

/// Makes the writes one after another, stopping at the first that does not
/// fit.
pub fn apply_writes(mem: &mut InternalMemoryInst, ws: &Vec<MemWrite>) -> (r: Result<(), RuntimeError>)
    requires
        forall|i: int| 0 <= i < ws@.len() ==> (#[trigger] ws@[i] matches MemWrite::Uint(_, n, _) ==> n <= 8),
    ensures
        final(mem).max == old(mem).max,
        final(mem).data@ == writes_in_order(old(mem).data@, writes_view(ws@)).0,
        r == outcome(writes_in_order(old(mem).data@, writes_view(ws@)).1),
{
    let ghost all = writes_view(ws@);
    assert(all.skip(0) =~= all);
    let mut i: usize = 0;
    while i < ws.len()
        invariant
            i <= ws@.len(),
            all == writes_view(ws@),
            forall|j: int| 0 <= j < ws@.len() ==> (#[trigger] ws@[j] matches MemWrite::Uint(_, n, _) ==> n <= 8),
            mem.max == old(mem).max,
            writes_in_order(old(mem).data@, all) == writes_in_order(mem.data@, all.skip(i as int)),
        decreases ws@.len() - i,
    {
        let ghost rest = all.skip(i as int);
        proof {
            assert(rest[0] == ws@[i as int]@);
            assert(rest.drop_first() =~= all.skip(i + 1));
        }
        let r = match &ws[i] {
            MemWrite::Uint(at, n, v) => write_uint(mem, *at, *n, *v),
            MemWrite::Bytes(at, b) => write_bytes(mem, *at, b.as_slice()),
        };
        match r {
            Ok(()) => {},
            Err(e) => return Err(e),
        }
        i = i + 1;
    }
    proof {
        assert(all.skip(i as int).len() == 0);
    }
    Ok(())
}

/// A string as the memory holds it: its bytes and a NUL.
pub open spec fn with_nul(s: Seq<u8>) -> Seq<u8> {
    s.push(0u8)
}

/// The bytes that the strings take with a NUL after each.
pub open spec fn strings_size(items: Seq<Seq<u8>>) -> nat
    decreases items.len(),
{
    if items.len() == 0 {
        0
    } else {
        strings_size(items.drop_last()) + items.last().len() + 1
    }
}

/// The memory and the errno after the strings from `i` on are put in:
/// for each a pointer at `ptr`, then its bytes and a NUL at `buf`. Where a
/// pointer or a string does not fit, the errno is `INVAL`, and what was put
/// before stays.
pub open spec fn spec_put_strings(data: Seq<u8>, items: Seq<Seq<u8>>, i: int, ptr: int, buf: int) -> (Seq<u8>, u16)
    decreases items.len() - i,
{
    if i < 0 || i >= items.len() {
        (data, ERRNO_SUCCESS)
    } else if ptr + 4 > data.len() {
        (data, ERRNO_INVAL)
    } else {
        let d = stored(data, ptr, 4, (buf % 0x1_0000_0000) as nat);
        let s = with_nul(items[i]);
        if buf + s.len() > d.len() {
            (d, ERRNO_INVAL)
        } else {
            spec_put_strings(copied(d, buf, s), items, i + 1, ptr + 4, buf + s.len())
        }
    }
}

/// The view of a list of strings.
pub open spec fn strings_view(items: Seq<Vec<u8>>) -> Seq<Seq<u8>> {
    items.map_values(|v: Vec<u8>| v@)
}

/// Copying bytes and then one more after them is copying the bytes with it.
pub proof fn lemma_copied_push(data: Seq<u8>, at: int, s: Seq<u8>, x: u8)
    requires
        0 <= at,
        at + s.len() + 1 <= data.len(),
    ensures
        copied(copied(data, at, s), at + s.len(), seq![x]) == copied(data, at, s.push(x)),
{
    assert(copied(copied(data, at, s), at + s.len(), seq![x]) =~= copied(data, at, s.push(x)));
}

/// Puts the strings in memory as `args_get` and `environ_get` do: a pointer
/// to each at `ptr` and on, and the strings, each with a NUL, at `buf` and
/// on. Gives the errno.
pub fn put_strings(mem: &mut InternalMemoryInst, items: &Vec<Vec<u8>>, ptr: u32, buf: u32) -> (errno: u16)
    ensures
        final(mem).max == old(mem).max,
        (final(mem).data@, errno) == spec_put_strings(old(mem).data@, strings_view(items@), 0, ptr as int, buf as int),
{
    let ghost sv = strings_view(items@);
    let mut p: u64 = ptr as u64;
    let mut b: u64 = buf as u64;
    let mut i: usize = 0;
    while i < items.len()
        invariant
            i <= items.len(),
            sv == strings_view(items@),
            mem.max == old(mem).max,
            mem.data@.len() == old(mem).data@.len(),
            p <= u32::MAX || p <= mem.data@.len(),
            b <= u32::MAX || b <= mem.data@.len(),
            spec_put_strings(old(mem).data@, sv, 0, ptr as int, buf as int) == spec_put_strings(
                mem.data@,
                sv,
                i as int,
                p as int,
                b as int,
            ),
        decreases items.len() - i,
    {
        let len = mem.data.len() as u64;
        if p > len || 4 > len - p {
            return ERRNO_INVAL;
        }
        match write_uint(mem, p, 4, b % 0x1_0000_0000) {
            Ok(()) => {},
            Err(_) => return ERRNO_INVAL,
        }
        let item = &items[i];
        assert(sv[i as int] == item@);
        let n = item.len() as u64;
        if b > len || n >= len - b {
            return ERRNO_INVAL;
        }
        let ghost d = mem.data@;
        match write_bytes(mem, b, item.as_slice()) {
            Ok(()) => {},
            Err(_) => return ERRNO_INVAL,
        }
        let mut nul: Vec<u8> = Vec::new();
        nul.push(0u8);
        assert(nul@ =~= seq![0u8]);
        match write_bytes(mem, b + n, nul.as_slice()) {
            Ok(()) => {},
            Err(_) => return ERRNO_INVAL,
        }
        proof {
            lemma_copied_push(d, b as int, item@, 0u8);
        }
        p = p + 4;
        b = b + n + 1;
        i = i + 1;
    }
    ERRNO_SUCCESS
}


/// The memory and the error after the number of strings is put at
/// `count_ptr` and then the bytes they take with their NULs at `size_ptr`,
/// as `args_sizes_get` and `environ_sizes_get` do; a number out of memory
/// stops the rest.
pub open spec fn spec_put_sizes(data: Seq<u8>, items: Seq<Seq<u8>>, count_ptr: int, size_ptr: int) -> (Seq<u8>, Option<RuntimeError>) {
    writes_in_order(
        data,
        seq![
            MemWriteV::Uint(count_ptr, 4, items.len() % 0x1_0000_0000),
            MemWriteV::Uint(size_ptr, 4, strings_size(items) % 0x1_0000_0000),
        ],
    )
}

/// Adding `n + 1` to a number modulo 2^32 is adding it to the number's
/// remainder.
proof fn lemma_mod_add_step(a: nat, n: nat)
    ensures
        (a % 0x1_0000_0000 + n + 1) % 0x1_0000_0000 == (a + n + 1) % 0x1_0000_0000,
{
    vstd::arithmetic::div_mod::lemma_add_mod_noop(a as int, (n + 1) as int, 0x1_0000_0000);
    vstd::arithmetic::div_mod::lemma_mod_twice((n + 1) as int, 0x1_0000_0000);
}

/// Puts the number of strings and the bytes they take with their NULs in
/// memory.
#[verifier::spinoff_prover]
pub fn put_sizes(mem: &mut InternalMemoryInst, items: &Vec<Vec<u8>>, count_ptr: u32, size_ptr: u32) -> (r: Result<(), RuntimeError>)
    ensures
        final(mem).max == old(mem).max,
        final(mem).data@ == spec_put_sizes(old(mem).data@, strings_view(items@), count_ptr as int, size_ptr as int).0,
        r == outcome(spec_put_sizes(old(mem).data@, strings_view(items@), count_ptr as int, size_ptr as int).1),
{
    let ghost sv = strings_view(items@);
    let mut size: u64 = 0;
    let mut i: usize = 0;
    while i < items.len()
        invariant
            i <= items.len(),
            sv == strings_view(items@),
            size < 0x1_0000_0000,
            size == strings_size(sv.take(i as int)) % 0x1_0000_0000,
        decreases items.len() - i,
    {
        let n = items[i].len();
        proof {
            assert(sv.take(i + 1).drop_last() =~= sv.take(i as int));
            assert(sv.take(i + 1).last() == items@[i as int]@);
            lemma_mod_add_step(strings_size(sv.take(i as int)), n as nat);
        }
        size = ((size as u128 + n as u128 + 1) % 0x1_0000_0000) as u64;
        i = i + 1;
    }
    assert(sv.take(items.len() as int) =~= sv);
    let count = (items.len() as u128 % 0x1_0000_0000) as u64;
    let mut ws: Vec<MemWrite> = Vec::new();
    ws.push(MemWrite::Uint(count_ptr as u64, 4, count));
    ws.push(MemWrite::Uint(size_ptr as u64, 4, size));
    proof {
        assert(writes_view(ws@) =~= seq![
            MemWriteV::Uint(count_ptr as int, 4, sv.len() % 0x1_0000_0000),
            MemWriteV::Uint(size_ptr as int, 4, strings_size(sv) % 0x1_0000_0000),
        ]);
    }
    apply_writes(mem, &ws)
}

/// The memory and errno after `environ_get` puts an empty environment: one
/// pointer, to an empty string.
pub open spec fn spec_put_empty_environ(data: Seq<u8>, ptr: int, buf: int) -> (Seq<u8>, u16) {
    if ptr + 4 > data.len() || buf + 1 > data.len() {
        (data, ERRNO_INVAL)
    } else {
        (copied(stored(data, ptr, 4, buf as nat), buf, seq![0u8]), ERRNO_SUCCESS)
    }
}

/// Puts an empty environment in memory as `environ_get` does: one pointer,
/// to an empty string.
pub fn put_empty_environ(mem: &mut InternalMemoryInst, ptr: u32, buf: u32) -> (errno: u16)
    ensures
        final(mem).max == old(mem).max,
        (final(mem).data@, errno) == spec_put_empty_environ(old(mem).data@, ptr as int, buf as int),
{
    let len = mem.data.len() as u64;
    if ptr as u64 > len || 4 > len - ptr as u64 || buf as u64 >= len {
        return ERRNO_INVAL;
    }
    match write_uint(mem, ptr as u64, 4, buf as u64) {
        Ok(()) => {},
        Err(_) => return ERRNO_INVAL,
    }
    let mut nul: Vec<u8> = Vec::new();
    nul.push(0u8);
    assert(nul@ =~= seq![0u8]);
    match write_bytes(mem, buf as u64, nul.as_slice()) {
        Ok(()) => {},
        Err(_) => return ERRNO_INVAL,
    }
    ERRNO_SUCCESS
}

/// The byte ranges that the I/O vectors from `k` on at `iovs` name: each
/// vector is a 32-bit start and a 32-bit length; a vector, or a range, out
/// of the memory is an error.
pub open spec fn spec_iovec_ranges(data: Seq<u8>, iovs: int, n: int, k: int) -> Result<Seq<(int, int)>, RuntimeError>
    decreases n - k,
{
    if k < 0 || k >= n {
        Ok(Seq::empty())
    } else {
        let at = iovs + 8 * k;
        if at + 8 > data.len() {
            Err(RuntimeError::OutOfBoundsMemoryAccess)
        } else {
            let start = le_value(data.subrange(at, at + 4)) as int;
            let len = le_value(data.subrange(at + 4, at + 8)) as int;
            if start + len > data.len() {
                Err(RuntimeError::OutOfBoundsMemoryAccess)
            } else {
                match spec_iovec_ranges(data, iovs, n, k + 1) {
                    Err(e) => Err(e),
                    Ok(rest) => Ok(seq![(start, start + len)] + rest),
                }
            }
        }
    }
}

/// The byte ranges that `n` I/O vectors at `iovs` name, as `fd_write` and
/// `fd_read` use them.
pub fn iovec_ranges(mem: &InternalMemoryInst, iovs: u32, n: u32) -> (r: Result<Vec<(usize, usize)>, RuntimeError>)
    ensures
        match spec_iovec_ranges(mem.data@, iovs as int, n as int, 0) {
            Ok(ranges) => r matches Ok(v) && v@.len() == ranges.len() && forall|i: int|
                0 <= i < ranges.len() ==> (#[trigger] v@[i]).0 == ranges[i].0 && v@[i].1 == ranges[i].1,
            Err(e) => r == Err::<Vec<(usize, usize)>, RuntimeError>(e),
        },
{
    let mut out: Vec<(usize, usize)> = Vec::new();
    let mut k: u32 = 0;
    let ghost data = mem.data@;
    let len = mem.data.len() as u64;
    while k < n
        invariant
            k <= n,
            data == mem.data@,
            len == data.len(),
            len <= usize::MAX,
            spec_iovec_ranges(data, iovs as int, n as int, 0) matches Ok(all) ==> (spec_iovec_ranges(
                data,
                iovs as int,
                n as int,
                k as int,
            ) matches Ok(rest) && all == out@.map_values(|p: (usize, usize)| (p.0 as int, p.1 as int)) + rest),
            spec_iovec_ranges(data, iovs as int, n as int, 0) is Err ==> spec_iovec_ranges(
                data,
                iovs as int,
                n as int,
                k as int,
            ) == spec_iovec_ranges(data, iovs as int, n as int, 0),
        decreases n - k,
    {
        let at = iovs as u64 + 8 * k as u64;
        if at > len || 8 > len - at {
            return Err(RuntimeError::OutOfBoundsMemoryAccess);
        }
        let start = match read_uint(mem, at, 4) {
            Ok(v) => v,
            Err(e) => return Err(e),
        };
        let size = match read_uint(mem, at + 4, 4) {
            Ok(v) => v,
            Err(e) => return Err(e),
        };
        proof {
            lemma_pow256_values();
            lemma_le_value_bound(data.subrange(at as int, at + 4));
            lemma_le_value_bound(data.subrange(at + 4, at + 8));
        }
        if start > len || size > len - start {
            return Err(RuntimeError::OutOfBoundsMemoryAccess);
        }
        let ghost before = out@;
        assert(len <= usize::MAX);
        let pair: (usize, usize) = (start as usize, (start + size) as usize);
        assert(pair.0 as int == start as int && pair.1 as int == start + size);
        out.push(pair);
        proof {
            assert(out@.map_values(|p: (usize, usize)| (p.0 as int, p.1 as int)) =~= before.map_values(
                |p: (usize, usize)| (p.0 as int, p.1 as int),
            ).push((start as int, start + size)));
        }
        k = k + 1;
    }
    Ok(out)
}

/// The writes of `fd_fdstat_get` for a file's state at `at`: its kind, its
/// flags, and all rights.
pub open spec fn fdstat_writes(at: int, stat: FdStat) -> Seq<MemWriteV> {
    seq![
        MemWriteV::Uint(at, 1, filetype_number(stat.filetype) as nat),
        MemWriteV::Uint(at + 2, 2, fdflags_bits(stat.flags) as nat),
        MemWriteV::Uint(at + 8, 8, u64::MAX as nat),
        MemWriteV::Uint(at + 16, 8, u64::MAX as nat),
    ]
}

/// The memory and the error after `fd_fdstat_get` puts a file's state at
/// `at`, field by field; a field out of memory stops the rest.
pub open spec fn spec_put_fdstat(data: Seq<u8>, at: int, stat: FdStat) -> (Seq<u8>, Option<RuntimeError>) {
    writes_in_order(data, fdstat_writes(at, stat))
}

/// Puts a file's state in memory as `fd_fdstat_get` does.
pub fn put_fdstat(mem: &mut InternalMemoryInst, at: u32, stat: FdStat) -> (r: Result<(), RuntimeError>)
    ensures
        final(mem).max == old(mem).max,
        final(mem).data@ == spec_put_fdstat(old(mem).data@, at as int, stat).0,
        r == outcome(spec_put_fdstat(old(mem).data@, at as int, stat).1),
{
    let at = at as u64;
    let mut ws: Vec<MemWrite> = Vec::new();
    ws.push(MemWrite::Uint(at, 1, stat.filetype.to_u8() as u64));
    ws.push(MemWrite::Uint(at + 2, 2, stat.flags.bits() as u64));
    ws.push(MemWrite::Uint(at + 8, 8, u64::MAX));
    ws.push(MemWrite::Uint(at + 16, 8, u64::MAX));
    proof {
        assert(writes_view(ws@) =~= fdstat_writes(at as int, stat));
    }
    apply_writes(mem, &ws)
}

/// What `fd_filestat_get` and `path_filestat_get` tell of a file: its kind,
/// its size, and when it was last read, last written and made, in
/// nanoseconds since 1970.
#[derive(Debug, Copy, Clone, PartialEq, Eq, Structural)]
pub struct Filestat {
    pub filetype: FileType,
    pub size: u64,
    pub atim: u64,
    pub mtim: u64,
    pub ctim: u64,
}

/// The writes of a file's state at `at`: device and inode 0, its kind, a
/// link count of 0, its size and its three times.
pub open spec fn filestat_writes(at: int, st: Filestat) -> Seq<MemWriteV> {
    seq![
        MemWriteV::Uint(at, 8, 0),
        MemWriteV::Uint(at + 8, 8, 0),
        MemWriteV::Uint(at + 16, 1, filetype_number(st.filetype) as nat),
        MemWriteV::Uint(at + 24, 8, 0),
        MemWriteV::Uint(at + 32, 8, st.size as nat),
        MemWriteV::Uint(at + 40, 8, st.atim as nat),
        MemWriteV::Uint(at + 48, 8, st.mtim as nat),
        MemWriteV::Uint(at + 56, 8, st.ctim as nat),
    ]
}

/// The memory and the error after a file's state is put at `at`, field by
/// field; a field out of memory stops the rest.
pub open spec fn spec_put_filestat(data: Seq<u8>, at: int, st: Filestat) -> (Seq<u8>, Option<RuntimeError>) {
    writes_in_order(data, filestat_writes(at, st))
}

/// Puts a file's state in memory as `fd_filestat_get` and
/// `path_filestat_get` do.
pub fn put_filestat(mem: &mut InternalMemoryInst, at: u32, st: Filestat) -> (r: Result<(), RuntimeError>)
    ensures
        final(mem).max == old(mem).max,
        final(mem).data@ == spec_put_filestat(old(mem).data@, at as int, st).0,
        r == outcome(spec_put_filestat(old(mem).data@, at as int, st).1),
{
    let at = at as u64;
    let mut ws: Vec<MemWrite> = Vec::new();
    ws.push(MemWrite::Uint(at, 8, 0));
    ws.push(MemWrite::Uint(at + 8, 8, 0));
    ws.push(MemWrite::Uint(at + 16, 1, st.filetype.to_u8() as u64));
    ws.push(MemWrite::Uint(at + 24, 8, 0));
    ws.push(MemWrite::Uint(at + 32, 8, st.size));
    ws.push(MemWrite::Uint(at + 40, 8, st.atim));
    ws.push(MemWrite::Uint(at + 48, 8, st.mtim));
    ws.push(MemWrite::Uint(at + 56, 8, st.ctim));
    proof {
        assert(writes_view(ws@) =~= filestat_writes(at as int, st));
    }
    apply_writes(mem, &ws)
}

/// The memory and the error after `fd_prestat_get` puts the state of a
/// preopened directory at `at`: the tag 0, for a directory, then the length
/// of its name; a field out of memory stops the rest.
pub open spec fn spec_put_prestat(data: Seq<u8>, at: int, name_len: u32) -> (Seq<u8>, Option<RuntimeError>) {
    writes_in_order(data, seq![MemWriteV::Uint(at, 1, 0), MemWriteV::Uint(at + 4, 4, name_len as nat)])
}

/// Puts the state of a preopened directory in memory as `fd_prestat_get`
/// does.
pub fn put_prestat(mem: &mut InternalMemoryInst, at: u32, name_len: u32) -> (r: Result<(), RuntimeError>)
    ensures
        final(mem).max == old(mem).max,
        final(mem).data@ == spec_put_prestat(old(mem).data@, at as int, name_len).0,
        r == outcome(spec_put_prestat(old(mem).data@, at as int, name_len).1),
{
    let at = at as u64;
    let mut ws: Vec<MemWrite> = Vec::new();
    ws.push(MemWrite::Uint(at, 1, 0));
    ws.push(MemWrite::Uint(at + 4, 4, name_len as u64));
    proof {
        assert(writes_view(ws@) =~= seq![MemWriteV::Uint(at as int, 1, 0), MemWriteV::Uint(at + 4, 4, name_len as nat)]);
    }
    apply_writes(mem, &ws)
}

/// Puts the name of a preopened directory at `path_ptr` as
/// `fd_prestat_dir_name` does: a buffer of `path_len` bytes shorter than the
/// name is `INVAL`, with nothing written; a name out of memory is an error.
pub fn put_prestat_dir_name(mem: &mut InternalMemoryInst, path_ptr: u32, path_len: u32, name: &[u8]) -> (r: Result<u16, RuntimeError>)
    ensures
        final(mem).max == old(mem).max,
        path_len < name@.len() ==> r == Ok::<u16, RuntimeError>(ERRNO_INVAL) && final(mem).data@ == old(mem).data@,
        path_len >= name@.len() && path_ptr + name@.len() <= old(mem).data@.len() ==> r == Ok::<u16, RuntimeError>(
            ERRNO_SUCCESS,
        ) && final(mem).data@ == copied(old(mem).data@, path_ptr as int, name@),
        path_len >= name@.len() && path_ptr + name@.len() > old(mem).data@.len() ==> r == Err::<u16, RuntimeError>(
            RuntimeError::OutOfBoundsMemoryAccess,
        ) && final(mem).data@ == old(mem).data@,
{
    if (path_len as usize) < name.len() {
        return Ok(ERRNO_INVAL);
    }
    match write_bytes(mem, path_ptr as u64, name) {
        Ok(()) => Ok(ERRNO_SUCCESS),
        Err(e) => Err(e),
    }
}

/// The bytes that a directory entry takes in `fd_readdir`'s buffer: a header
/// of 24 bytes, then its name.
pub open spec fn dirent_size(e: (Seq<u8>, FileType)) -> nat {
    24 + e.0.len()
}

/// The view of a list of directory entries: each name's bytes and its kind.
pub open spec fn dirents_view(es: Seq<(Vec<u8>, FileType)>) -> Seq<(Seq<u8>, FileType)> {
    es.map_values(|e: (Vec<u8>, FileType)| (e.0@, e.1))
}

/// How many entries from `k` on fit, one after another, in `room` bytes:
/// they stop at the first that does not.
pub open spec fn dirents_fitting(es: Seq<(Seq<u8>, FileType)>, k: int, room: nat) -> nat
    decreases es.len() - k,
{
    if k < 0 || k >= es.len() || dirent_size(es[k]) > room {
        0
    } else {
        1 + dirents_fitting(es, k + 1, (room - dirent_size(es[k])) as nat)
    }
}

/// The bytes that `count` entries from `k` on take.
pub open spec fn dirents_size(es: Seq<(Seq<u8>, FileType)>, k: int, count: nat) -> nat
    decreases count,
{
    if count == 0 {
        0
    } else {
        dirent_size(es[k]) + dirents_size(es, k + 1, (count - 1) as nat)
    }
}

/// The writes of entry `index` at `at`: the cookie of the next entry, the
/// inode 0, the name's length, the entry's kind, and the name.
pub open spec fn dirent_writes(at: int, index: nat, e: (Seq<u8>, FileType)) -> Seq<MemWriteV> {
    seq![
        MemWriteV::Uint(at, 8, index + 1),
        MemWriteV::Uint(at + 8, 8, 0),
        MemWriteV::Uint(at + 16, 4, e.0.len()),
        MemWriteV::Uint(at + 20, 1, filetype_number(e.1) as nat),
        MemWriteV::Bytes(at + 24, e.0),
    ]
}

/// The writes of `count` entries from `k` on, one after another from `at`.
pub open spec fn dirents_writes(es: Seq<(Seq<u8>, FileType)>, k: int, count: nat, at: int) -> Seq<MemWriteV>
    decreases count,
{
    if count == 0 {
        Seq::empty()
    } else {
        let last = k + count - 1;
        dirents_writes(es, k, (count - 1) as nat, at) + dirent_writes(
            at + dirents_size(es, k, (count - 1) as nat),
            last as nat,
            es[last],
        )
    }
}

/// The memory and the error after `fd_readdir` fills the buffer of
/// `buf_len` bytes at `buf` with the entries from `cookie` on that fit,
/// field by field, and then puts the bytes used at `bufused`; a write out of
/// memory stops the rest.
pub open spec fn spec_put_dirents(
    data: Seq<u8>,
    es: Seq<(Seq<u8>, FileType)>,
    buf: int,
    buf_len: nat,
    cookie: nat,
    bufused: int,
) -> (Seq<u8>, Option<RuntimeError>) {
    let n = dirents_fitting(es, cookie as int, buf_len);
    let used = dirents_size(es, cookie as int, n);
    writes_in_order(data, dirents_writes(es, cookie as int, n, buf).push(MemWriteV::Uint(bufused, 4, used)))
}

/// Taking one more entry adds its size.
pub proof fn lemma_dirents_size_push(es: Seq<(Seq<u8>, FileType)>, k: int, count: nat)
    ensures
        dirents_size(es, k, count + 1) == dirents_size(es, k, count) + dirent_size(es[k + count]),
    decreases count,
{
    if count > 0 {
        lemma_dirents_size_push(es, k + 1, (count - 1) as nat);
    } else {
        assert(dirents_size(es, k + 1, 0) == 0);
    }
}

/// Puts a directory's entries in memory as `fd_readdir` does: from the entry
/// numbered `cookie` on, as many as fit in `buf_len` bytes at `buf`, then
/// the bytes used at `bufused`.
pub fn put_dirents(
    mem: &mut InternalMemoryInst,
    entries: &Vec<(Vec<u8>, FileType)>,
    buf: u32,
    buf_len: u32,
    cookie: u64,
    bufused: u32,
) -> (r: Result<(), RuntimeError>)
    ensures
        final(mem).max == old(mem).max,
        final(mem).data@ == spec_put_dirents(old(mem).data@, dirents_view(entries@), buf as int, buf_len as nat, cookie as nat, bufused as int).0,
        r == outcome(spec_put_dirents(old(mem).data@, dirents_view(entries@), buf as int, buf_len as nat, cookie as nat, bufused as int).1),
{
    let ghost es = dirents_view(entries@);
    // how many entries fit, and the bytes they take
    let mut k: usize = 0;
    let mut used: u64 = 0;
    let mut count: usize = 0;
    let start: usize = if cookie < entries.len() as u64 {
        cookie as usize
    } else {
        entries.len()
    };
    proof {
        if cookie >= entries.len() {
            assert(dirents_fitting(es, cookie as int, buf_len as nat) == 0);
        }
    }
    k = start;
    loop
        invariant
            es == dirents_view(entries@),
            start <= k <= entries@.len(),
            count == k - start,
            start == cookie || (start == entries@.len() && cookie >= entries@.len()),
            used <= buf_len,
            used == dirents_size(es, cookie as int, count as nat),
            dirents_fitting(es, cookie as int, buf_len as nat) == count + dirents_fitting(
                es,
                k as int,
                (buf_len - used) as nat,
            ),
        ensures
            start <= k <= entries@.len(),
            count == k - start,
            start == cookie || (start == entries@.len() && cookie >= entries@.len()),
            used <= buf_len,
            used == dirents_size(es, cookie as int, count as nat),
            dirents_fitting(es, cookie as int, buf_len as nat) == count,
        decreases entries@.len() - k,
    {
        if k >= entries.len() {
            break;
        }
        let len = entries[k].0.len() as u64;
        let room = buf_len as u64 - used;
        assert(es[k as int] == (entries@[k as int].0@, entries@[k as int].1));
        if room < 24 || len > room - 24 {
            break;
        }
        proof {
            lemma_dirents_size_push(es, cookie as int, count as nat);
        }
        used = used + 24 + len;
        k = k + 1;
        count = count + 1;
    }
    // the writes of the entries, one after another, then the bytes used
    let mut ws: Vec<MemWrite> = Vec::new();
    let mut j: usize = start;
    let mut at: u64 = buf as u64;
    while j < k
        invariant
            es == dirents_view(entries@),
            start <= j <= k <= entries@.len(),
            count == k - start,
            start == cookie || count == 0,
            used == dirents_size(es, cookie as int, count as nat),
            used <= buf_len,
            at == buf + dirents_size(es, cookie as int, (j - start) as nat),
            writes_view(ws@) == dirents_writes(es, cookie as int, (j - start) as nat, buf as int),
            forall|m: int| 0 <= m < ws@.len() ==> (#[trigger] ws@[m] matches MemWrite::Uint(_, n, _) ==> n <= 8),
        decreases k - j,
    {
        proof {
            lemma_dirents_size_push(es, cookie as int, (j - start) as nat);
            lemma_dirents_size_mono(es, cookie as int, (j - start + 1) as nat, count as nat);
            assert(es[j as int] == (entries@[j as int].0@, entries@[j as int].1));
        }
        let name = &entries[j].0;
        let n = name.len() as u64;
        let ghost before = writes_view(ws@);
        ws.push(MemWrite::Uint(at, 8, j as u64 + 1));
        ws.push(MemWrite::Uint(at + 8, 8, 0));
        ws.push(MemWrite::Uint(at + 16, 4, n));
        ws.push(MemWrite::Uint(at + 20, 1, entries[j].1.to_u8() as u64));
        ws.push(MemWrite::Bytes(at + 24, copy_bytes(name)));
        proof {
            assert(writes_view(ws@) =~= before + dirent_writes(at as int, j as nat, es[j as int]));
            assert(dirents_writes(es, cookie as int, (j - start + 1) as nat, buf as int) == before + dirent_writes(
                at as int,
                j as nat,
                es[j as int],
            ));
        }
        at = at + 24 + n;
        j = j + 1;
    }
    let ghost before = writes_view(ws@);
    ws.push(MemWrite::Uint(bufused as u64, 4, used));
    proof {
        assert(writes_view(ws@) =~= before.push(MemWriteV::Uint(bufused as int, 4, used as nat)));
    }
    apply_writes(mem, &ws)
}

/// A copy of the bytes.
fn copy_bytes(v: &Vec<u8>) -> (r: Vec<u8>)
    ensures
        r@ == v@,
{
    let mut r: Vec<u8> = Vec::new();
    let mut i: usize = 0;
    while i < v.len()
        invariant
            i <= v@.len(),
            r@ == v@.take(i as int),
        decreases v@.len() - i,
    {
        r.push(v[i]);
        i = i + 1;
        proof {
            assert(r@ =~= v@.take(i as int));
        }
    }
    proof {
        assert(v@.take(v@.len() as int) =~= v@);
    }
    r
}

/// Entries from `k` take no fewer bytes as more of them are taken.
pub proof fn lemma_dirents_size_mono(es: Seq<(Seq<u8>, FileType)>, k: int, a: nat, b: nat)
    requires
        a <= b,
    ensures
        dirents_size(es, k, a) <= dirents_size(es, k, b),
    decreases b,
{
    if a < b {
        lemma_dirents_size_mono(es, k, a, (b - 1) as nat);
        lemma_dirents_size_push(es, k, (b - 1) as nat);
    }
}

/// What `poll_oneoff` answers for one subscription: its user data, its kind,
/// and the errno for it.
#[derive(Debug, Copy, Clone, PartialEq, Eq, Structural)]
pub struct PollEvent {
    pub userdata: u64,
    pub kind: u8,
    pub error: u16,
}

/// The nanoseconds that a clock subscription asks to wait: its timeout, or,
/// when the timeout is a time of the real-time clock, what is left of it at
/// `now`; 0 for an absolute time of another clock.
pub open spec fn clock_wait(clock: nat, timeout: nat, flags: nat, now: u64) -> nat {
    if flags % 2 == 1 {
        if clock == CLOCKID_REALTIME as nat && timeout > now {
            (timeout - now) as nat
        } else {
            0
        }
    } else {
        timeout
    }
}

/// What the 48-byte subscription at `base` asks for: the event to answer
/// and, for a clock, the time to wait. A clock subscription is read up to its
/// flags, another up to its kind; reading out of memory is an error.
pub open spec fn spec_subscription(data: Seq<u8>, base: int, now: u64) -> Result<(PollEvent, Option<nat>), RuntimeError> {
    if base + 9 > data.len() {
        Err(RuntimeError::OutOfBoundsMemoryAccess)
    } else {
        let userdata = le_value(data.subrange(base, base + 8)) as u64;
        let kind = data[base + 8];
        if kind != SUBSCRIPTION_TYPE_CLOCK {
            Ok((PollEvent { userdata, kind, error: ERRNO_INVAL }, None))
        } else if base + 42 > data.len() {
            Err(RuntimeError::OutOfBoundsMemoryAccess)
        } else {
            let clock = le_value(data.subrange(base + 16, base + 20));
            let timeout = le_value(data.subrange(base + 24, base + 32));
            let flags = le_value(data.subrange(base + 40, base + 42));
            Ok((PollEvent { userdata, kind, error: ERRNO_SUCCESS }, Some(clock_wait(clock, timeout, flags, now))))
        }
    }
}

/// The smaller of two optional waits.
pub open spec fn min_wait(a: Option<nat>, b: Option<nat>) -> Option<nat> {
    match (a, b) {
        (Some(x), Some(y)) => Some(if x <= y { x } else { y }),
        (Some(x), None) => Some(x),
        (None, _) => b,
    }
}

/// The events and the shortest wait of the subscriptions from `i` to `n` at
/// `in_ptr`, after `events` and `wait` of those before.
pub open spec fn spec_subscriptions(
    data: Seq<u8>,
    in_ptr: int,
    n: int,
    now: u64,
    i: int,
    events: Seq<PollEvent>,
    wait: Option<nat>,
) -> Result<(Seq<PollEvent>, Option<nat>), RuntimeError>
    decreases n - i,
{
    if i >= n {
        Ok((events, wait))
    } else {
        match spec_subscription(data, in_ptr + 48 * i, now) {
            Err(e) => Err(e),
            Ok((ev, w)) => spec_subscriptions(data, in_ptr, n, now, i + 1, events.push(ev), min_wait(wait, w)),
        }
    }
}

/// Reads the `n` subscriptions that `poll_oneoff` is given at `in_ptr`,
/// with `now` the time of the real-time clock: the events to answer, and the
/// shortest wait that a clock subscription asks for, if any.
pub fn read_subscriptions(mem: &InternalMemoryInst, in_ptr: u32, n: u32, now: u64) -> (r: Result<(Vec<PollEvent>, Option<u64>), RuntimeError>)
    ensures
        match spec_subscriptions(mem.data@, in_ptr as int, n as int, now, 0, Seq::empty(), None) {
            Ok((evs, w)) => r matches Ok((events, wait)) && events@ == evs && match wait {
                Some(t) => w == Some(t as nat),
                None => w is None,
            },
            Err(e) => r == Err::<(Vec<PollEvent>, Option<u64>), RuntimeError>(e),
        },
{
    let mut events: Vec<PollEvent> = Vec::new();
    let mut wait: Option<u64> = None;
    let mut i: u32 = 0;
    while i < n
        invariant
            i <= n,
            spec_subscriptions(mem.data@, in_ptr as int, n as int, now, 0, Seq::empty(), None)
                == spec_subscriptions(
                mem.data@,
                in_ptr as int,
                n as int,
                now,
                i as int,
                events@,
                match wait {
                    Some(t) => Some(t as nat),
                    None => None,
                },
            ),
        decreases n - i,
    {
        let base = in_ptr as u64 + 48 * i as u64;
        let userdata = match read_uint(mem, base, 8) {
            Ok(v) => v,
            Err(e) => return Err(e),
        };
        let kind = match read_uint(mem, base + 8, 1) {
            Ok(v) => v,
            Err(e) => return Err(e),
        };
        proof {
            lemma_pow256_values();
            lemma_le_value_bound(mem.data@.subrange(base + 8, base + 9));
            assert(mem.data@.subrange(base + 8, base + 9).drop_first().len() == 0);
            assert(le_value(mem.data@.subrange(base + 8, base + 9)) == mem.data@[base + 8]);
            lemma_le_value_bound(mem.data@.subrange(base as int, base + 8));
        }
        let kind = kind as u8;
        let ghost old_events = events@;
        let ghost old_wait: Option<nat> = match wait {
            Some(t) => Some(t as nat),
            None => None,
        };
        if kind != SUBSCRIPTION_TYPE_CLOCK {
            events.push(PollEvent { userdata, kind, error: ERRNO_INVAL });
            proof {
                assert(spec_subscription(mem.data@, in_ptr + 48 * i, now) == Ok::<(PollEvent, Option<nat>), RuntimeError>(
                    (PollEvent { userdata, kind, error: ERRNO_INVAL }, None),
                ));
                assert(min_wait(old_wait, None) == old_wait);
            }
        } else {
            let clock = match read_uint(mem, base + 16, 4) {
                Ok(v) => v,
                Err(e) => return Err(e),
            };
            let timeout = match read_uint(mem, base + 24, 8) {
                Ok(v) => v,
                Err(e) => return Err(e),
            };
            let _precision = match read_uint(mem, base + 32, 8) {
                Ok(v) => v,
                Err(e) => return Err(e),
            };
            let flags = match read_uint(mem, base + 40, 2) {
                Ok(v) => v,
                Err(e) => return Err(e),
            };
            let w: u64 = if flags % 2 == 1 {
                if clock == CLOCKID_REALTIME as u64 && timeout > now {
                    timeout - now
                } else {
                    0
                }
            } else {
                timeout
            };
            events.push(PollEvent { userdata, kind, error: ERRNO_SUCCESS });
            wait = match wait {
                Some(t) => Some(if t <= w { t } else { w }),
                None => Some(w),
            };
            proof {
                lemma_le_value_bound(mem.data@.subrange(base + 16, base + 20));
                lemma_le_value_bound(mem.data@.subrange(base + 24, base + 32));
                lemma_le_value_bound(mem.data@.subrange(base + 40, base + 42));
                assert(clock as nat == le_value(mem.data@.subrange(base + 16, base + 20)));
                assert(timeout as nat == le_value(mem.data@.subrange(base + 24, base + 32)));
                assert(flags as nat == le_value(mem.data@.subrange(base + 40, base + 42)));
                assert(w as nat == clock_wait(clock as nat, timeout as nat, flags as nat, now));
                assert(spec_subscription(mem.data@, in_ptr + 48 * i, now) == Ok::<(PollEvent, Option<nat>), RuntimeError>(
                    (PollEvent { userdata, kind, error: ERRNO_SUCCESS }, Some(w as nat)),
                ));
            }
        }
        i = i + 1;
    }
    Ok((events, wait))
}

/// The writes of an event at `at` as `poll_oneoff` answers it: user data,
/// errno, kind, and zeros for the bytes ready and the flags.
pub open spec fn event_writes(at: int, ev: PollEvent) -> Seq<MemWriteV> {
    seq![
        MemWriteV::Uint(at, 8, ev.userdata as nat),
        MemWriteV::Uint(at + 8, 2, ev.error as nat),
        MemWriteV::Uint(at + 10, 1, ev.kind as nat),
        MemWriteV::Uint(at + 16, 8, 0),
        MemWriteV::Uint(at + 24, 2, 0),
    ]
}

/// The writes of the events, one after another, 32 bytes apart from
/// `out_ptr`.
pub open spec fn events_writes(evs: Seq<PollEvent>, out_ptr: int) -> Seq<MemWriteV>
    decreases evs.len(),
{
    if evs.len() == 0 {
        Seq::empty()
    } else {
        events_writes(evs.drop_last(), out_ptr) + event_writes(out_ptr + 32 * (evs.len() - 1), evs.last())
    }
}

/// The memory and the error after `poll_oneoff` puts its events at
/// `out_ptr`, field by field, and then their number at `nevents_ptr`; a
/// field out of memory stops the rest.
pub open spec fn spec_put_events(data: Seq<u8>, out_ptr: int, evs: Seq<PollEvent>, nevents_ptr: int) -> (Seq<u8>, Option<RuntimeError>) {
    writes_in_order(data, events_writes(evs, out_ptr).push(MemWriteV::Uint(nevents_ptr, 4, evs.len())))
}

/// Puts the events in memory as `poll_oneoff` answers them.
pub fn put_events(mem: &mut InternalMemoryInst, out_ptr: u32, events: &Vec<PollEvent>, nevents_ptr: u32) -> (r: Result<(), RuntimeError>)
    requires
        events@.len() <= u32::MAX,
    ensures
        final(mem).max == old(mem).max,
        final(mem).data@ == spec_put_events(old(mem).data@, out_ptr as int, events@, nevents_ptr as int).0,
        r == outcome(spec_put_events(old(mem).data@, out_ptr as int, events@, nevents_ptr as int).1),
{
    let mut ws: Vec<MemWrite> = Vec::new();
    let mut i: usize = 0;
    let mut at: u64 = out_ptr as u64;
    while i < events.len()
        invariant
            i <= events@.len(),
            events@.len() <= u32::MAX,
            at == out_ptr + 32 * i,
            writes_view(ws@) == events_writes(events@.take(i as int), out_ptr as int),
            forall|j: int| 0 <= j < ws@.len() ==> (#[trigger] ws@[j] matches MemWrite::Uint(_, n, _) ==> n <= 8),
        decreases events@.len() - i,
    {
        let ev = events[i];
        let ghost before = writes_view(ws@);
        ws.push(MemWrite::Uint(at, 8, ev.userdata));
        ws.push(MemWrite::Uint(at + 8, 2, ev.error as u64));
        ws.push(MemWrite::Uint(at + 10, 1, ev.kind as u64));
        ws.push(MemWrite::Uint(at + 16, 8, 0));
        ws.push(MemWrite::Uint(at + 24, 2, 0));
        proof {
            let t = events@.take(i + 1);
            assert(t.drop_last() =~= events@.take(i as int));
            assert(t.last() == ev);
            assert(writes_view(ws@) =~= before + event_writes(at as int, ev));
        }
        at = at + 32;
        i = i + 1;
    }
    let ghost before = writes_view(ws@);
    ws.push(MemWrite::Uint(nevents_ptr as u64, 4, events.len() as u64));
    proof {
        assert(events@.take(events@.len() as int) =~= events@);
        assert(writes_view(ws@) =~= before.push(MemWriteV::Uint(nevents_ptr as int, 4, events@.len())));
    }
    apply_writes(mem, &ws)
}

/// The memory and the error after `path_readlink` puts the target of a
/// symbolic link: as much of it as fits in the `buf_len` bytes at `buf`,
/// then the bytes put at `bufused`; a write out of memory stops the rest.
pub open spec fn spec_put_link_target(data: Seq<u8>, buf: int, buf_len: nat, target: Seq<u8>, bufused: int) -> (Seq<u8>, Option<RuntimeError>) {
    let n = if target.len() <= buf_len { target.len() } else { buf_len };
    writes_in_order(data, seq![MemWriteV::Bytes(buf, target.take(n as int)), MemWriteV::Uint(bufused, 4, n)])
}

/// Puts the target of a symbolic link in memory as `path_readlink` does.
pub fn put_link_target(mem: &mut InternalMemoryInst, buf: u32, buf_len: u32, target: &[u8], bufused: u32) -> (r: Result<(), RuntimeError>)
    ensures
        final(mem).max == old(mem).max,
        final(mem).data@ == spec_put_link_target(old(mem).data@, buf as int, buf_len as nat, target@, bufused as int).0,
        r == outcome(spec_put_link_target(old(mem).data@, buf as int, buf_len as nat, target@, bufused as int).1),
{
    let n: usize = if target.len() <= buf_len as usize { target.len() } else { buf_len as usize };
    let mut part: Vec<u8> = Vec::new();
    let mut i: usize = 0;
    while i < n
        invariant
            n <= target@.len(),
            i <= n,
            part@ == target@.take(i as int),
        decreases n - i,
    {
        part.push(target[i]);
        i = i + 1;
        proof {
            assert(part@ =~= target@.take(i as int));
        }
    }
    let ghost p = part@;
    let mut ws: Vec<MemWrite> = Vec::new();
    ws.push(MemWrite::Bytes(buf as u64, part));
    ws.push(MemWrite::Uint(bufused as u64, 4, n as u64));
    proof {
        assert(writes_view(ws@) =~= seq![
            MemWriteV::Bytes(buf as int, target@.take(n as int)),
            MemWriteV::Uint(bufused as int, 4, n as nat),
        ]);
    }
    apply_writes(mem, &ws)
}

/// Argument `idx` of a WASI call as an `i32`: an `i64` gives its low 32
/// bits, a float gives 0.
pub fn arg_i32(args: &Vec<Value>, idx: usize) -> (r: i32)
    requires
        idx < args@.len(),
    ensures
        r == match args@[idx as int] {
            Value::I32(v) => v,
            Value::I64(v) => v as i32,
            _ => 0,
        },
{
    match args[idx] {
        Value::I32(v) => v,
        Value::I64(v) => v as i32,
        _ => 0,
    }
}

/// Argument `idx` of a WASI call as an `i64`: an `i32` is sign-extended, a
/// float gives 0.
pub fn arg_i64(args: &Vec<Value>, idx: usize) -> (r: i64)
    requires
        idx < args@.len(),
    ensures
        r == match args@[idx as int] {
            Value::I64(v) => v,
            Value::I32(v) => v as i64,
            _ => 0,
        },
{
    match args[idx] {
        Value::I64(v) => v,
        Value::I32(v) => v as i64,
        _ => 0,
    }
}

/// Where `fd_seek` moves: to an offset from the start, from the current
/// position, or from the end.
#[derive(Debug, Copy, Clone, PartialEq, Eq, Structural)]
pub enum SeekTarget {
    Start(u64),
    Current(i64),
    End(i64),
}

/// Where `fd_seek` moves for `whence` and `offset`: 0 counts from the start,
/// 1 from the current position, 2 from the end; any other `whence` goes to
/// the start.
pub fn seek_target(whence: i32, offset: i64) -> (t: SeekTarget)
    ensures
        t == match whence {
            0 => SeekTarget::Start(offset as u64),
            1 => SeekTarget::Current(offset),
            2 => SeekTarget::End(offset),
            _ => SeekTarget::Start(0),
        },
{
    match whence {
        0 => SeekTarget::Start(offset as u64),
        1 => SeekTarget::Current(offset),
        2 => SeekTarget::End(offset),
        _ => SeekTarget::Start(0),
    }
}

/// How `path_open` opens a path: as a directory, or as a file for reading
/// and writing that may be created, truncated, or must be new.
#[derive(Debug, Copy, Clone, PartialEq, Eq, Structural)]
pub struct OpenPlan {
    pub directory: bool,
    pub create: bool,
    pub truncate: bool,
    pub create_new: bool,
}

/// How `path_open` opens a path with the open flags `oflags`.
pub fn open_plan(oflags: u16) -> (p: OpenPlan)
    ensures
        p.directory == (oflags & OFLAGS_DIRECTORY != 0),
        p.create == (oflags & OFLAGS_CREAT != 0),
        p.truncate == (oflags & OFLAGS_TRUNC != 0),
        p.create_new == (oflags & OFLAGS_EXCL != 0),
{
    OpenPlan {
        directory: oflags & OFLAGS_DIRECTORY != 0,
        create: oflags & OFLAGS_CREAT != 0,
        truncate: oflags & OFLAGS_TRUNC != 0,
        create_new: oflags & OFLAGS_EXCL != 0,
    }
}

/// The kind of a directory entry from what the file system tells of it: a
/// file, a directory, a symbolic link, or else unknown.
pub fn filetype_of(is_file: bool, is_dir: bool, is_symlink: bool) -> (t: FileType)
    ensures
        t == if is_file {
            FileType::RegularFile
        } else if is_dir {
            FileType::Directory
        } else if is_symlink {
            FileType::SymbolicLink
        } else {
            FileType::Unknown
        },
{
    if is_file {
        FileType::RegularFile
    } else if is_dir {
        FileType::Directory
    } else if is_symlink {
        FileType::SymbolicLink
    } else {
        FileType::Unknown
    }
}

/// The components of a path: the pieces between slashes, empty ones dropped,
/// with the piece still being read.
pub open spec fn path_pieces(s: Seq<u8>) -> (Seq<Seq<u8>>, Seq<u8>)
    decreases s.len(),
{
    if s.len() == 0 {
        (Seq::empty(), Seq::empty())
    } else {
        let (done, cur) = path_pieces(s.drop_last());
        if s.last() == 47u8 {
            if cur.len() > 0 {
                (done.push(cur), Seq::empty())
            } else {
                (done, Seq::empty())
            }
        } else {
            (done, cur.push(s.last()))
        }
    }
}

/// The components of a path: the pieces between slashes, empty ones
/// dropped.
pub open spec fn path_components(s: Seq<u8>) -> Seq<Seq<u8>> {
    let (done, cur) = path_pieces(s);
    if cur.len() > 0 {
        done.push(cur)
    } else {
        done
    }
}

/// Whether `path` lies under `root`: the components of `root` begin those of
/// `path`, as `Path::starts_with` compares two canonical paths.
pub open spec fn spec_path_within(root: Seq<u8>, path: Seq<u8>) -> bool {
    let r = path_components(root);
    let p = path_components(path);
    r.len() <= p.len() && p.take(r.len() as int) == r
}

/// The components of `s`, as ranges of byte positions.
#[verifier::spinoff_prover]
fn component_ranges(s: &[u8]) -> (r: Vec<(usize, usize)>)
    ensures
        r@.len() == path_components(s@).len(),
        forall|k: int|
            0 <= k < r@.len() ==> #[trigger] r@[k].0 <= r@[k].1 <= s@.len() && s@.subrange(r@[k].0 as int, r@[k].1 as int)
                == path_components(s@)[k],
{
    let n = s.len();
    let mut out: Vec<(usize, usize)> = Vec::new();
    let mut start: usize = 0;
    let mut i: usize = 0;
    while i < n
        invariant
            n == s@.len(),
            start <= i <= n,
            out@.len() == path_pieces(s@.take(i as int)).0.len(),
            s@.subrange(start as int, i as int) == path_pieces(s@.take(i as int)).1,
            forall|k: int|
                0 <= k < out@.len() ==> #[trigger] out@[k].0 <= out@[k].1 <= start && s@.subrange(
                    out@[k].0 as int,
                    out@[k].1 as int,
                ) == path_pieces(s@.take(i as int)).0[k],
        decreases n - i,
    {
        let c = s[i];
        let ghost prev = path_pieces(s@.take(i as int));
        let ghost old_out = out@;
        let ghost old_start = start;
        proof {
            let t = s@.take(i + 1);
            assert(t.drop_last() =~= s@.take(i as int));
            assert(t.last() == c);
            assert(s@.subrange(start as int, i + 1) =~= s@.subrange(start as int, i as int).push(c));
        }
        if c == 47u8 {
            if start < i {
                out.push((start, i));
            }
            start = i + 1;
        }
        i = i + 1;
        proof {
            let cur = path_pieces(s@.take(i as int));
            assert(s@.subrange(start as int, i as int) =~= cur.1);
            assert forall|k: int| 0 <= k < out@.len() implies #[trigger] out@[k].0 <= out@[k].1 <= start
                && s@.subrange(out@[k].0 as int, out@[k].1 as int) == cur.0[k] by {
                if k < old_out.len() {
                    assert(out@[k] == old_out[k]);
                    assert(s@.subrange(old_out[k].0 as int, old_out[k].1 as int) == prev.0[k]);
                } else {
                    assert(out@[k] == (old_start, (i - 1) as usize));
                    assert(s@.subrange(old_start as int, i - 1) == prev.1);
                }
            }
        }
    }
    let ghost pc = path_pieces(s@);
    let ghost comps = path_components(s@);
    proof {
        assert(s@.take(n as int) =~= s@);
        assert(path_pieces(s@.take(n as int)) == pc);
        assert(s@.subrange(start as int, n as int) == pc.1);
    }
    let ghost old_out = out@;
    if start < n {
        out.push((start, n));
        proof {
            assert(comps == pc.0.push(pc.1));
        }
    } else {
        proof {
            assert(pc.1.len() == 0);
            assert(comps == pc.0);
        }
    }
    proof {
        assert forall|k: int| 0 <= k < out@.len() implies #[trigger] out@[k].0 <= out@[k].1 <= s@.len()
            && s@.subrange(out@[k].0 as int, out@[k].1 as int) =~= comps[k] by {
            if k < old_out.len() {
                assert(out@[k] == old_out[k]);
                assert(s@.subrange(old_out[k].0 as int, old_out[k].1 as int) == pc.0[k]);
                assert(comps[k] == pc.0[k]);
            } else {
                assert(out@[k] == (start, n));
                assert(comps[k] == pc.1);
            }
        }
    }
    out
}

/// Whether the canonical path `path` lies under the canonical path `root`,
/// component by component; the resolution of WASI paths refuses any other.
pub fn path_within(root: &[u8], path: &[u8]) -> (r: bool)
    ensures
        r == spec_path_within(root@, path@),
{
    let rc = component_ranges(root);
    let pc = component_ranges(path);
    let ghost rs = path_components(root@);
    let ghost ps = path_components(path@);
    if rc.len() > pc.len() {
        return false;
    }
    let mut k: usize = 0;
    while k < rc.len()
        invariant
            rc@.len() == rs.len(),
            pc@.len() == ps.len(),
            rs.len() <= ps.len(),
            k <= rc@.len(),
            rs == path_components(root@),
            ps == path_components(path@),
            forall|j: int|
                0 <= j < rc@.len() ==> #[trigger] rc@[j].0 <= rc@[j].1 <= root@.len() && root@.subrange(
                    rc@[j].0 as int,
                    rc@[j].1 as int,
                ) == rs[j],
            forall|j: int|
                0 <= j < pc@.len() ==> #[trigger] pc@[j].0 <= pc@[j].1 <= path@.len() && path@.subrange(
                    pc@[j].0 as int,
                    pc@[j].1 as int,
                ) == ps[j],
            forall|j: int| 0 <= j < k ==> rs[j] == ps[j],
        decreases rc@.len() - k,
    {
        let (a0, a1) = rc[k];
        let (b0, b1) = pc[k];
        assert(rc@[k as int] == (a0, a1) && pc@[k as int] == (b0, b1));
        if a1 - a0 != b1 - b0 {
            assert(rs[k as int].len() != ps[k as int].len());
            assert(ps.take(rs.len() as int)[k as int] == ps[k as int]);
            return false;
        }
        let ghost sa = root@.subrange(a0 as int, a1 as int);
        let ghost sb = path@.subrange(b0 as int, b1 as int);
        let mut j: usize = 0;
        let mut same = true;
        while j < a1 - a0 && same
            invariant
                a0 <= a1 <= root@.len(),
                b0 <= b1 <= path@.len(),
                a1 - a0 == b1 - b0,
                j <= a1 - a0,
                sa == root@.subrange(a0 as int, a1 as int),
                sb == path@.subrange(b0 as int, b1 as int),
                forall|m: int| 0 <= m < j ==> #[trigger] sa[m] == sb[m],
                !same ==> sa != sb,
            decreases 2 * (a1 - a0 - j) + if same { 1int } else { 0int },
        {
            assert(sa[j as int] == root@[a0 + j] && sb[j as int] == path@[b0 + j]);
            if root[a0 + j] != path[b0 + j] {
                same = false;
            } else {
                j = j + 1;
            }
        }
        if !same {
            assert(ps.take(rs.len() as int)[k as int] == ps[k as int]);
            return false;
        }
        assert(sa =~= sb);
        k = k + 1;
    }
    assert(ps.take(rs.len() as int) =~= rs);
    true
}

/// Whether the writes are all numbers whose bytes lie in `len` bytes of
/// memory, no two of them on a common byte.
pub open spec fn disjoint_fitting(len: nat, ws: Seq<MemWriteV>) -> bool {
    &&& forall|i: int| 0 <= i < ws.len() ==> (#[trigger] ws[i]) is Uint && 0 <= ws[i]->Uint_0 && ws[i]->Uint_0 + ws[i]->Uint_1 <= len
    &&& forall|i: int, j: int|
        0 <= i < ws.len() && 0 <= j < ws.len() && i != j ==> #[trigger] apart(ws[i], ws[j])
}

/// Whether two number writes share no byte.
pub open spec fn apart(a: MemWriteV, b: MemWriteV) -> bool {
    a->Uint_0 + a->Uint_1 <= b->Uint_0 || b->Uint_0 + b->Uint_1 <= a->Uint_0
}

/// Whether the number write `w` writes byte `k`.
pub open spec fn writes_at(w: MemWriteV, k: int) -> bool {
    w->Uint_0 <= k < w->Uint_0 + w->Uint_1
}

/// Whether byte `k` is one that some write of `ws` writes.
pub open spec fn written(ws: Seq<MemWriteV>, k: int) -> bool {
    exists|i: int| 0 <= i < ws.len() && #[trigger] writes_at(ws[i], k)
}

/// Number writes that fit and share no byte all take place, in any order
/// alike: each leaves its bytes, least significant first, and every other
/// byte stays as it was.
pub proof fn lemma_disjoint_writes(data: Seq<u8>, ws: Seq<MemWriteV>)
    requires
        disjoint_fitting(data.len(), ws),
    ensures
        writes_in_order(data, ws).1 is None,
        writes_in_order(data, ws).0.len() == data.len(),
        forall|i: int, j: int|
            0 <= i < ws.len() && 0 <= j < ws[i]->Uint_1
                ==> #[trigger] writes_in_order(data, ws).0[ws[i]->Uint_0 + j] == le_byte(#[trigger] ws[i]->Uint_2, j as nat),
        forall|k: int| 0 <= k < data.len() && !written(ws, k) ==> #[trigger] writes_in_order(data, ws).0[k] == data[k],
    decreases ws.len(),
{
    if ws.len() > 0 {
        let w = ws[0];
        let (at, n, v) = (w->Uint_0, w->Uint_1, w->Uint_2);
        let d = stored(data, at, n, v);
        let rest = ws.drop_first();
        assert forall|i: int| 0 <= i < rest.len() implies (#[trigger] rest[i]) is Uint && 0 <= rest[i]->Uint_0 && rest[i]->Uint_0 + rest[i]->Uint_1 <= d.len() by {
            assert(rest[i] == ws[i + 1]);
        }
        assert forall|i: int, j: int| 0 <= i < rest.len() && 0 <= j < rest.len() && i != j implies #[trigger] apart(rest[i], rest[j]) by {
            assert(rest[i] == ws[i + 1] && rest[j] == ws[j + 1]);
            assert(apart(ws[i + 1], ws[j + 1]));
        }
        lemma_disjoint_writes(d, rest);
        let fin = writes_in_order(data, ws).0;
        assert(fin == writes_in_order(d, rest).0);
        assert forall|k: int| 0 <= k < data.len() && !written(ws, k) implies #[trigger] fin[k] == data[k] by {
            if written(rest, k) {
                let i = choose|i: int| 0 <= i < rest.len() && #[trigger] writes_at(rest[i], k);
                assert(rest[i] == ws[i + 1]);
                assert(writes_at(ws[i + 1], k));
                assert(false);
            }
            if writes_at(ws[0], k) {
                assert(false);
            }
        }
        assert forall|i: int, j: int|
            0 <= i < ws.len() && 0 <= j < ws[i]->Uint_1
                implies #[trigger] fin[ws[i]->Uint_0 + j] == le_byte(#[trigger] ws[i]->Uint_2, j as nat) by {
            if i > 0 {
                assert(rest[i - 1] == ws[i]);
            } else {
                let k = at + j;
                if written(rest, k) {
                    let i2 = choose|i2: int| 0 <= i2 < rest.len() && #[trigger] writes_at(rest[i2], k);
                    assert(rest[i2] == ws[i2 + 1]);
                    assert(apart(ws[0], ws[i2 + 1]));
                    assert(false);
                }
            }
        }
    }
}

/// Reading back a number that one of such writes wrote gives it modulo
/// 256^n.
proof fn lemma_disjoint_read_back(data: Seq<u8>, ws: Seq<MemWriteV>, i: int)
    requires
        disjoint_fitting(data.len(), ws),
        0 <= i < ws.len(),
    ensures
        le_value(writes_in_order(data, ws).0.subrange(ws[i]->Uint_0, ws[i]->Uint_0 + ws[i]->Uint_1)) == ws[i]->Uint_2 % pow256(ws[i]->Uint_1),
{
    lemma_disjoint_writes(data, ws);
    let (at, n, v) = (ws[i]->Uint_0, ws[i]->Uint_1, ws[i]->Uint_2);
    let bytes = writes_in_order(data, ws).0.subrange(at, at + n);
    assert forall|j: int| 0 <= j < bytes.len() implies #[trigger] bytes[j] == le_byte(v, j as nat) by {
        assert(bytes[j] == writes_in_order(data, ws).0[at + j]);
    }
    lemma_read_after_write(bytes, v);
}

/// Where `fd_fdstat_get` puts a file's state, as WASI lays it out: the file
/// kind in the byte at 0, the flags in the 16 bits at 2, and all rights set
/// in the 64 bits at 8 and at 16; the bytes between them stay as they were.
pub proof fn lemma_fdstat_layout(data: Seq<u8>, at: int, stat: FdStat)
    requires
        0 <= at,
        at + 24 <= data.len(),
    ensures
        ({
            let (d, e) = spec_put_fdstat(data, at, stat);
            &&& e is None
            &&& d.len() == data.len()
            &&& le_value(d.subrange(at, at + 1)) == filetype_number(stat.filetype)
            &&& le_value(d.subrange(at + 2, at + 4)) == fdflags_bits(stat.flags)
            &&& le_value(d.subrange(at + 8, at + 16)) == u64::MAX
            &&& le_value(d.subrange(at + 16, at + 24)) == u64::MAX
            &&& forall|k: int| 0 <= k < data.len() && !(at <= k < at + 1) && !(at + 2 <= k < at + 4) && !(at + 8 <= k < at + 24)
                ==> #[trigger] d[k] == data[k]
        }),
{
    let ws = fdstat_writes(at, stat);
    assert forall|i: int| 0 <= i < ws.len() implies (#[trigger] ws[i]) is Uint && 0 <= ws[i]->Uint_0 && ws[i]->Uint_0 + ws[i]->Uint_1 <= data.len() by {
        if i == 0 {} else if i == 1 {} else if i == 2 {} else {}
    }
    assert forall|i: int, j: int| 0 <= i < ws.len() && 0 <= j < ws.len() && i != j implies #[trigger] apart(ws[i], ws[j]) by {
        if i == 0 {} else if i == 1 {} else if i == 2 {} else {}
    }
    lemma_disjoint_writes(data, ws);
    lemma_pow256_values();
    lemma_disjoint_read_back(data, ws, 0);
    lemma_disjoint_read_back(data, ws, 1);
    lemma_disjoint_read_back(data, ws, 2);
    lemma_disjoint_read_back(data, ws, 3);
    let d = writes_in_order(data, ws).0;
    assert forall|k: int| 0 <= k < data.len() && !(at <= k < at + 1) && !(at + 2 <= k < at + 4) && !(at + 8 <= k < at + 24)
        implies #[trigger] d[k] == data[k] by {
        if written(ws, k) {
            let i = choose|i: int| 0 <= i < ws.len() && #[trigger] writes_at(ws[i], k);
            if i == 0 {} else if i == 1 {} else if i == 2 {} else {}
            assert(false);
        }
    }
}

/// Where `fd_filestat_get` puts a file's state, as WASI lays it out: device
/// and inode 0 in the 64 bits at 0 and 8, the file kind in the byte at 16,
/// the link count 0 in the 64 bits at 24, then the size and the times of the
/// last read, the last write and the last change in the 64 bits at 32, 40,
/// 48 and 56; the bytes after the kind's byte, up to 24, stay as they were.
pub proof fn lemma_filestat_layout(data: Seq<u8>, at: int, st: Filestat)
    requires
        0 <= at,
        at + 64 <= data.len(),
    ensures
        ({
            let (d, e) = spec_put_filestat(data, at, st);
            &&& e is None
            &&& d.len() == data.len()
            &&& le_value(d.subrange(at, at + 8)) == 0
            &&& le_value(d.subrange(at + 8, at + 16)) == 0
            &&& le_value(d.subrange(at + 16, at + 17)) == filetype_number(st.filetype)
            &&& le_value(d.subrange(at + 24, at + 32)) == 0
            &&& le_value(d.subrange(at + 32, at + 40)) == st.size
            &&& le_value(d.subrange(at + 40, at + 48)) == st.atim
            &&& le_value(d.subrange(at + 48, at + 56)) == st.mtim
            &&& le_value(d.subrange(at + 56, at + 64)) == st.ctim
            &&& forall|k: int| 0 <= k < data.len() && !(at <= k < at + 17) && !(at + 24 <= k < at + 64)
                ==> #[trigger] d[k] == data[k]
        }),
{
    let ws = filestat_writes(at, st);
    assert forall|i: int| 0 <= i < ws.len() implies (#[trigger] ws[i]) is Uint && 0 <= ws[i]->Uint_0 && ws[i]->Uint_0 + ws[i]->Uint_1 <= data.len() by {
        if i == 0 {} else if i == 1 {} else if i == 2 {} else if i == 3 {} else if i == 4 {} else if i == 5 {} else if i == 6 {} else {}
    }
    assert forall|i: int, j: int| 0 <= i < ws.len() && 0 <= j < ws.len() && i != j implies #[trigger] apart(ws[i], ws[j]) by {
        if i == 0 {} else if i == 1 {} else if i == 2 {} else if i == 3 {} else if i == 4 {} else if i == 5 {} else if i == 6 {} else {}
    }
    lemma_disjoint_writes(data, ws);
    lemma_pow256_values();
    lemma_disjoint_read_back(data, ws, 0);
    lemma_disjoint_read_back(data, ws, 1);
    lemma_disjoint_read_back(data, ws, 2);
    lemma_disjoint_read_back(data, ws, 3);
    lemma_disjoint_read_back(data, ws, 4);
    lemma_disjoint_read_back(data, ws, 5);
    lemma_disjoint_read_back(data, ws, 6);
    lemma_disjoint_read_back(data, ws, 7);
    let d = writes_in_order(data, ws).0;
    assert forall|k: int| 0 <= k < data.len() && !(at <= k < at + 17) && !(at + 24 <= k < at + 64)
        implies #[trigger] d[k] == data[k] by {
        if written(ws, k) {
            let i = choose|i: int| 0 <= i < ws.len() && #[trigger] writes_at(ws[i], k);
            if i == 0 {} else if i == 1 {} else if i == 2 {} else if i == 3 {} else if i == 4 {} else if i == 5 {} else if i == 6 {} else {}
            assert(false);
        }
    }
}

/// Where `fd_prestat_get` puts the state of a preopened directory, as WASI
/// lays it out: the tag 0 (a directory) in the byte at 0 and the length of
/// its name in the 32 bits at 4; the bytes between stay as they were.
pub proof fn lemma_prestat_layout(data: Seq<u8>, at: int, name_len: u32)
    requires
        0 <= at,
        at + 8 <= data.len(),
    ensures
        ({
            let (d, e) = spec_put_prestat(data, at, name_len);
            &&& e is None
            &&& d.len() == data.len()
            &&& le_value(d.subrange(at, at + 1)) == 0
            &&& le_value(d.subrange(at + 4, at + 8)) == name_len
            &&& forall|k: int| 0 <= k < data.len() && !(at <= k < at + 1) && !(at + 4 <= k < at + 8) ==> #[trigger] d[k] == data[k]
        }),
{
    let ws = seq![MemWriteV::Uint(at, 1, 0), MemWriteV::Uint(at + 4, 4, name_len as nat)];
    assert forall|i: int| 0 <= i < ws.len() implies (#[trigger] ws[i]) is Uint && 0 <= ws[i]->Uint_0 && ws[i]->Uint_0 + ws[i]->Uint_1 <= data.len() by {
        if i == 0 {} else {}
    }
    assert forall|i: int, j: int| 0 <= i < ws.len() && 0 <= j < ws.len() && i != j implies #[trigger] apart(ws[i], ws[j]) by {
        if i == 0 {} else {}
    }
    lemma_disjoint_writes(data, ws);
    lemma_pow256_values();
    lemma_disjoint_read_back(data, ws, 0);
    lemma_disjoint_read_back(data, ws, 1);
    let d = writes_in_order(data, ws).0;
    assert forall|k: int| 0 <= k < data.len() && !(at <= k < at + 1) && !(at + 4 <= k < at + 8) implies #[trigger] d[k] == data[k] by {
        if written(ws, k) {
            let i = choose|i: int| 0 <= i < ws.len() && #[trigger] writes_at(ws[i], k);
            if i == 0 {} else {}
            assert(false);
        }
    }
}

/// Where `poll_oneoff` puts an event, as WASI lays it out: the user data in
/// the 64 bits at 0, the errno in the 16 bits at 8, the kind in the byte at
/// 10, and zero bytes ready and flags in the 64 bits at 16 and the 16 bits at
/// 24; the bytes between them stay as they were.
pub proof fn lemma_event_layout(data: Seq<u8>, at: int, ev: PollEvent)
    requires
        0 <= at,
        at + 32 <= data.len(),
    ensures
        ({
            let (d, e) = writes_in_order(data, event_writes(at, ev));
            &&& e is None
            &&& d.len() == data.len()
            &&& le_value(d.subrange(at, at + 8)) == ev.userdata
            &&& le_value(d.subrange(at + 8, at + 10)) == ev.error
            &&& le_value(d.subrange(at + 10, at + 11)) == ev.kind
            &&& le_value(d.subrange(at + 16, at + 24)) == 0
            &&& le_value(d.subrange(at + 24, at + 26)) == 0
            &&& forall|k: int| 0 <= k < data.len() && !(at <= k < at + 11) && !(at + 16 <= k < at + 26)
                ==> #[trigger] d[k] == data[k]
        }),
{
    let ws = event_writes(at, ev);
    assert forall|i: int| 0 <= i < ws.len() implies (#[trigger] ws[i]) is Uint && 0 <= ws[i]->Uint_0 && ws[i]->Uint_0 + ws[i]->Uint_1 <= data.len() by {
        if i == 0 {} else if i == 1 {} else if i == 2 {} else if i == 3 {} else {}
    }
    assert forall|i: int, j: int| 0 <= i < ws.len() && 0 <= j < ws.len() && i != j implies #[trigger] apart(ws[i], ws[j]) by {
        if i == 0 {} else if i == 1 {} else if i == 2 {} else if i == 3 {} else {}
    }
    lemma_disjoint_writes(data, ws);
    lemma_pow256_values();
    lemma_disjoint_read_back(data, ws, 0);
    lemma_disjoint_read_back(data, ws, 1);
    lemma_disjoint_read_back(data, ws, 2);
    lemma_disjoint_read_back(data, ws, 3);
    lemma_disjoint_read_back(data, ws, 4);
    let d = writes_in_order(data, ws).0;
    assert forall|k: int| 0 <= k < data.len() && !(at <= k < at + 11) && !(at + 16 <= k < at + 26)
        implies #[trigger] d[k] == data[k] by {
        if written(ws, k) {
            let i = choose|i: int| 0 <= i < ws.len() && #[trigger] writes_at(ws[i], k);
            if i == 0 {} else if i == 1 {} else if i == 2 {} else if i == 3 {} else {}
            assert(false);
        }
    }
}

} // verus!
