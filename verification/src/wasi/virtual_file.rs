//! A file held in memory: bytes and a position, as a cursor over a vector.
use super::file::{FdFlags, File, FileError, FileType};
use crate::binary::reader::string_from_utf8;
use vstd::prelude::*;
use vstd::utf8::{decode_utf8, valid_utf8};

verus! {

/// The bytes of a file and the position of the next read or write.
#[derive(Debug, Default)]
pub struct VirtualFile {
    pub data: Vec<u8>,
    pub pos: u64,
}

impl View for VirtualFile {
    type V = (Seq<u8>, u64);

    open spec fn view(&self) -> (Seq<u8>, u64) {
        (self.data@, self.pos)
    }
}

/// The bytes after writing `data` at `pos`: zeros fill the gap past the end,
/// and the written bytes replace or extend what was there.
pub open spec fn spec_write(bytes: Seq<u8>, pos: nat, data: Seq<u8>) -> Seq<u8> {
    let padded = if pos > bytes.len() {
        bytes + Seq::new((pos - bytes.len()) as nat, |i: int| 0u8)
    } else {
        bytes
    };
    let end = pos + data.len();
    Seq::new(
        if end > padded.len() { end } else { padded.len() },
        |i: int|
            if pos <= i < end {
                data[i - pos]
            } else {
                padded[i]
            },
    )
}

/// The bytes that a read of up to `len` bytes at `pos` gives.
pub open spec fn spec_read(bytes: Seq<u8>, pos: nat, len: nat) -> Seq<u8> {
    if pos >= bytes.len() {
        Seq::empty()
    } else if pos + len <= bytes.len() {
        bytes.subrange(pos as int, (pos + len) as int)
    } else {
        bytes.subrange(pos as int, bytes.len() as int)
    }
}

/// Reading at the position of a write, as many bytes as were written, gives
/// back the written bytes.
pub proof fn lemma_read_back_written(bytes: Seq<u8>, pos: nat, data: Seq<u8>)
    ensures
        spec_read(spec_write(bytes, pos, data), pos, data.len()) == data,
{
    let w = spec_write(bytes, pos, data);
    if data.len() > 0 {
        assert(spec_read(w, pos, data.len()) =~= data);
    } else {
        assert(spec_read(w, pos, 0) =~= data);
    }
}

/// A write leaves the bytes before its position as they were, and the file
/// is at least as long as before.
pub proof fn lemma_write_keeps_earlier_bytes(bytes: Seq<u8>, pos: nat, data: Seq<u8>, i: int)
    requires
        0 <= i < bytes.len(),
        i < pos,
    ensures
        spec_write(bytes, pos, data)[i] == bytes[i],
        spec_write(bytes, pos, data).len() >= bytes.len(),
{
}

impl VirtualFile {
    /// A file holding a copy of `data`, at position 0.
    pub fn new(data: &[u8]) -> (f: VirtualFile)
        ensures
            f@ == (data@, 0u64),
    {
        let mut v: Vec<u8> = Vec::new();
        let mut i: usize = 0;
        while i < data.len()
            invariant
                i <= data.len(),
                v@ == data@.take(i as int),
            decreases data.len() - i,
        {
            v.push(data[i]);
            i = i + 1;
            assert(v@ =~= data@.take(i as int));
        }
        assert(data@.take(data.len() as int) =~= data@);
        VirtualFile { data: v, pos: 0 }
    }

    /// Cuts or extends the file with zeros to `len` bytes.
    pub fn set_len(&mut self, len: u64) -> (r: Result<(), FileError>)
        ensures
            len <= usize::MAX ==> r is Ok && final(self).pos == old(self).pos && final(self).data@ == if len
                <= old(self).data@.len() {
                old(self).data@.take(len as int)
            } else {
                old(self).data@ + Seq::new((len - old(self).data@.len()) as nat, |i: int| 0u8)
            },
            len > usize::MAX ==> r == Err::<(), FileError>(FileError::PositionOverflow) && final(self)@ == old(self)@,
    {
        if len > usize::MAX as u64 {
            return Err(FileError::PositionOverflow);
        }
        let ghost before = self.data@;
        self.data.resize(len as usize, 0u8);
        proof {
            if len as int > before.len() {
                assert(self.data@ =~= before + Seq::new((len - before.len()) as nat, |i: int| 0u8));
            } else {
                assert(self.data@ =~= before.take(len as int));
            }
        }
        Ok(())
    }

    /// The number of bytes.
    pub fn size(&self) -> (n: u64)
        ensures
            n == self.data@.len(),
    {
        self.data.len() as u64
    }
}

impl File for VirtualFile {
    /// Writes at the position and moves it past the bytes written.
    fn write(&mut self, data: &[u8]) -> (r: Result<usize, FileError>)
        ensures
            old(self).pos + data@.len() <= usize::MAX ==> r == Ok::<usize, FileError>(data@.len() as usize)
                && final(self).data@ == spec_write(old(self).data@, old(self).pos as nat, data@)
                && final(self).pos == old(self).pos + data@.len(),
            old(self).pos + data@.len() > usize::MAX ==> r == Err::<usize, FileError>(FileError::PositionOverflow)
                && final(self)@ == old(self)@,
    {
        let n = data.len();
        if self.pos > usize::MAX as u64 || n > usize::MAX - (self.pos as usize) {
            return Err(FileError::PositionOverflow);
        }
        let pos = self.pos as usize;
        let ghost before = self.data@;
        while self.data.len() < pos
            invariant
                self.pos == old(self).pos,
                pos == self.pos,
                before.len() <= self.data@.len() <= pos || self.data@.len() == before.len(),
                self.data@ == before + Seq::new((self.data@.len() - before.len()) as nat, |i: int| 0u8),
            decreases pos - self.data@.len(),
        {
            self.data.push(0u8);
            assert(self.data@ =~= before + Seq::new((self.data@.len() - before.len()) as nat, |i: int| 0u8));
        }
        let ghost padded = self.data@;
        assert(padded =~= if pos > before.len() {
            before + Seq::new((pos - before.len()) as nat, |i: int| 0u8)
        } else {
            before
        });
        let mut i: usize = 0;
        while i < n
            invariant
                self.pos == old(self).pos,
                pos == self.pos,
                i <= n,
                n == data@.len(),
                pos + n <= usize::MAX,
                pos <= padded.len(),
                self.data@.len() == if pos + i > padded.len() { pos + i } else { padded.len() as int },
                forall|k: int| 0 <= k < self.data@.len() ==> #[trigger] self.data@[k] == if pos <= k < pos + i {
                    data@[k - pos]
                } else {
                    padded[k]
                },
            decreases n - i,
        {
            if pos + i < self.data.len() {
                self.data.set(pos + i, data[i]);
            } else {
                self.data.push(data[i]);
            }
            i = i + 1;
        }
        assert(self.data@ =~= spec_write(before, pos as nat, data@));
        self.pos = self.pos + n as u64;
        Ok(n)
    }

    /// Reads up to `len` bytes at the position and moves it past them.
    fn read(&mut self, len: usize) -> (r: Result<Vec<u8>, FileError>)
        ensures
            r matches Ok(v) && v@ == spec_read(old(self).data@, old(self).pos as nat, len as nat),
            final(self).data@ == old(self).data@,
            final(self).pos == old(self).pos + spec_read(old(self).data@, old(self).pos as nat, len as nat).len(),
    {
        let size = self.data.len();
        let mut out: Vec<u8> = Vec::new();
        if self.pos >= size as u64 {
            return Ok(out);
        }
        let pos = self.pos as usize;
        let end = if len <= size - pos {
            pos + len
        } else {
            size
        };
        let mut i: usize = pos;
        while i < end
            invariant
                pos <= i <= end <= size,
                size == self.data@.len(),
                out@ == self.data@.subrange(pos as int, i as int),
            decreases end - i,
        {
            out.push(self.data[i]);
            i = i + 1;
            assert(out@ =~= self.data@.subrange(pos as int, i as int));
        }
        self.pos = self.pos + (end - pos) as u64;
        Ok(out)
    }

    /// Moves to `pos`.
    fn seek(&mut self, pos: u64) -> (r: Result<u64, FileError>)
        ensures
            r == Ok::<u64, FileError>(pos),
            final(self)@ == (old(self).data@, pos),
    {
        self.pos = pos;
        Ok(pos)
    }

    fn filetype(&self) -> (r: Result<FileType, FileError>)
        ensures
            r == Ok::<FileType, FileError>(FileType::RegularFile),
    {
        Ok(FileType::RegularFile)
    }

    fn fdflags(&self) -> (r: Result<FdFlags, FileError>)
        ensures
            r == Ok::<FdFlags, FileError>(FdFlags::Append),
    {
        Ok(FdFlags::Append)
    }

    /// Reads from the position to the end as a string; the position moves
    /// to the end.
    fn read_string(&mut self) -> (r: Result<String, FileError>)
        ensures
            final(self).data@ == old(self).data@,
            final(self).pos == if old(self).pos > old(self).data@.len() { old(self).pos } else { old(self).data@.len() as u64 },
            ({
                let rest = spec_read(old(self).data@, old(self).pos as nat, old(self).data@.len());
                &&& valid_utf8(rest) ==> (r matches Ok(st) && st@ == decode_utf8(rest))
                &&& !valid_utf8(rest) ==> r == Err::<String, FileError>(FileError::InvalidUtf8)
            }),
    {
        let size = self.data.len();
        let rest = self.read(size);
        let bytes = match rest {
            Ok(b) => b,
            Err(e) => return Err(e),
        };
        match string_from_utf8(bytes) {
            Ok(s) => Ok(s),
            Err(_) => Err(FileError::InvalidUtf8),
        }
    }
}

} // verus!
