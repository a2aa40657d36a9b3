//! Reading the primitive values of the binary format from a byte slice.
use super::error::DecodeError;
use super::leb::{read_signed, read_unsigned, sleb, uleb};
use crate::endian::{le_value, lemma_le_value_bound, lemma_pow256_values, read_le};
use vstd::prelude::*;
use vstd::utf8::{decode_utf8, valid_utf8};

verus! {

/// The byte at `p`, and the position after it.
pub open spec fn spec_byte(s: Seq<u8>, p: int) -> Result<(u8, int), DecodeError> {
    if 0 <= p < s.len() {
        Ok((s[p], p + 1))
    } else {
        Err(DecodeError::UnexpectedEof)
    }
}

/// An unsigned LEB128 number at `p` that fits in 32 bits.
pub open spec fn spec_u32(s: Seq<u8>, p: int) -> Result<(u32, int), DecodeError> {
    match uleb(s.skip(p)) {
        Some((v, n)) => if v <= u32::MAX {
            Ok((v as u32, p + n))
        } else {
            Err(DecodeError::IntegerOutOfRange)
        },
        None => Err(DecodeError::InvalidLeb128),
    }
}

/// A signed LEB128 number at `p` that fits in 32 bits.
pub open spec fn spec_i32(s: Seq<u8>, p: int) -> Result<(i32, int), DecodeError> {
    match sleb(s.skip(p)) {
        Some((v, n)) => if i32::MIN <= v <= i32::MAX {
            Ok((v as i32, p + n))
        } else {
            Err(DecodeError::IntegerOutOfRange)
        },
        None => Err(DecodeError::InvalidLeb128),
    }
}

/// A signed LEB128 number at `p` that fits in 64 bits.
pub open spec fn spec_i64(s: Seq<u8>, p: int) -> Result<(i64, int), DecodeError> {
    match sleb(s.skip(p)) {
        Some((v, n)) => Ok((v as i64, p + n)),
        None => Err(DecodeError::InvalidLeb128),
    }
}

/// The `n` bytes at `p`.
pub open spec fn spec_bytes(s: Seq<u8>, p: int, n: int) -> Result<(Seq<u8>, int), DecodeError> {
    if 0 <= p && 0 <= n && p + n <= s.len() {
        Ok((s.subrange(p, p + n), p + n))
    } else {
        Err(DecodeError::UnexpectedEof)
    }
}

/// Four little-endian bytes at `p`: the bit pattern of a 32-bit float.
pub open spec fn spec_f32(s: Seq<u8>, p: int) -> Result<(u32, int), DecodeError> {
    match spec_bytes(s, p, 4) {
        Ok((b, q)) => Ok((le_value(b) as u32, q)),
        Err(e) => Err(e),
    }
}

/// Eight little-endian bytes at `p`: the bit pattern of a 64-bit float.
pub open spec fn spec_f64(s: Seq<u8>, p: int) -> Result<(u64, int), DecodeError> {
    match spec_bytes(s, p, 8) {
        Ok((b, q)) => Ok((le_value(b) as u64, q)),
        Err(e) => Err(e),
    }
}

/// The `n` bytes at `p`, decoded as UTF-8.
pub open spec fn spec_string(s: Seq<u8>, p: int, n: int) -> Result<(Seq<char>, int), DecodeError> {
    match spec_bytes(s, p, n) {
        Ok((b, q)) => if valid_utf8(b) {
            Ok((decode_utf8(b), q))
        } else {
            Err(DecodeError::InvalidUtf8)
        },
        Err(e) => Err(e),
    }
}

/// A name: its length as an unsigned LEB128 number, then its UTF-8 bytes.
pub open spec fn spec_name(s: Seq<u8>, p: int) -> Result<(Seq<char>, int), DecodeError> {
    match spec_u32(s, p) {
        Ok((n, q)) => spec_string(s, q, n as int),
        Err(e) => Err(e),
    }
}

/// Calls `String::from_utf8`. The contract claims what std documents: the
/// bytes become a string exactly when they are valid UTF-8, and the string
/// holds the characters that they encode.
#[verifier::external_body]
pub(crate) fn string_from_utf8(bytes: Vec<u8>) -> (res: Result<String, std::string::FromUtf8Error>)
    ensures
        match res {
            Ok(st) => valid_utf8(bytes@) && st@ == decode_utf8(bytes@),
            Err(_) => !valid_utf8(bytes@),
        },
{
    String::from_utf8(bytes)
}

#[verifier::external_type_specification]
#[verifier::external_body]
pub struct ExFromUtf8Error(std::string::FromUtf8Error);

/// A cursor over the bytes of a section or of a function body.
pub struct SectionReader<'a> {
    buf: &'a [u8],
    pos: usize,
}

impl<'a> SectionReader<'a> {
    #[verifier::type_invariant]
    spec fn inv(&self) -> bool {
        self.pos <= self.buf@.len()
    }

    /// The bytes being read.
    pub closed spec fn data(&self) -> Seq<u8> {
        self.buf@
    }

    /// The position of the next byte to read.
    pub closed spec fn position(&self) -> int {
        self.pos as int
    }

    pub fn new(buf: &'a [u8]) -> (r: Self)
        ensures
            r.data() == buf@,
            r.position() == 0,
    {
        Self { buf, pos: 0 }
    }

    /// The number of bytes not yet read.
    pub fn remaining(&self) -> (n: usize)
        ensures
            n == self.data().len() - self.position(),
    {
        proof {
            use_type_invariant(self);
        }
        self.buf.len() - self.pos
    }

    /// The position of the next byte to read.
    pub fn pos(&self) -> (p: usize)
        ensures
            p == self.position(),
    {
        self.pos
    }

    pub fn byte(&mut self) -> (res: Result<u8, DecodeError>)
        ensures
            final(self).data() == old(self).data(),
            final(self).position() >= old(self).position(),
            res is Err ==> final(self).position() == old(self).position(),
            spec_byte(old(self).data(), old(self).position()) == match res {
                Ok(b) => Ok::<(u8, int), DecodeError>((b, final(self).position())),
                Err(e) => Err(e),
            },
    {
        proof {
            use_type_invariant(&*self);
        }
        if self.pos < self.buf.len() {
            let b = self.buf[self.pos];
            self.pos = self.pos + 1;
            Ok(b)
        } else {
            Err(DecodeError::UnexpectedEof)
        }
    }

    pub fn u32(&mut self) -> (res: Result<u32, DecodeError>)
        ensures
            final(self).data() == old(self).data(),
            final(self).position() >= old(self).position(),
            spec_u32(old(self).data(), old(self).position()) == match res {
                Ok(v) => Ok::<(u32, int), DecodeError>((v, final(self).position())),
                Err(e) => Err(e),
            },
    {
        proof {
            use_type_invariant(&*self);
        }
        let (v, next) = read_unsigned(self.buf, self.pos)?;
        if v > 0xffff_ffff {
            return Err(DecodeError::IntegerOutOfRange);
        }
        proof {
            super::leb::lemma_uleb_bounds(self.buf@.skip(self.pos as int));
        }
        self.pos = next;
        Ok(v as u32)
    }

    pub fn i32(&mut self) -> (res: Result<i32, DecodeError>)
        ensures
            final(self).data() == old(self).data(),
            final(self).position() >= old(self).position(),
            spec_i32(old(self).data(), old(self).position()) == match res {
                Ok(v) => Ok::<(i32, int), DecodeError>((v, final(self).position())),
                Err(e) => Err(e),
            },
    {
        proof {
            use_type_invariant(&*self);
        }
        let (v, next) = read_signed(self.buf, self.pos)?;
        if v < -0x8000_0000 || v > 0x7fff_ffff {
            return Err(DecodeError::IntegerOutOfRange);
        }
        proof {
            super::leb::lemma_sleb_len(self.buf@.skip(self.pos as int), 0);
        }
        self.pos = next;
        Ok(v as i32)
    }

    pub fn i64(&mut self) -> (res: Result<i64, DecodeError>)
        ensures
            final(self).data() == old(self).data(),
            final(self).position() >= old(self).position(),
            spec_i64(old(self).data(), old(self).position()) == match res {
                Ok(v) => Ok::<(i64, int), DecodeError>((v, final(self).position())),
                Err(e) => Err(e),
            },
    {
        proof {
            use_type_invariant(&*self);
        }
        let (v, next) = read_signed(self.buf, self.pos)?;
        proof {
            super::leb::lemma_sleb_len(self.buf@.skip(self.pos as int), 0);
        }
        self.pos = next;
        Ok(v)
    }

    pub fn bytes(&mut self, num: usize) -> (res: Result<Vec<u8>, DecodeError>)
        ensures
            final(self).data() == old(self).data(),
            final(self).position() >= old(self).position(),
            spec_bytes(old(self).data(), old(self).position(), num as int) == match res {
                Ok(b) => Ok::<(Seq<u8>, int), DecodeError>((b@, final(self).position())),
                Err(e) => Err(e),
            },
    {
        proof {
            use_type_invariant(&*self);
        }
        if num > self.buf.len() - self.pos {
            return Err(DecodeError::UnexpectedEof);
        }
        let len = self.buf.len();
        let mut out: Vec<u8> = Vec::new();
        let mut i: usize = 0;
        while i < num
            invariant
                self.pos + num <= self.buf@.len(),
                self.buf@.len() == len,
                i <= num,
                out@ =~= self.buf@.subrange(self.pos as int, self.pos + i),
            decreases num - i,
        {
            out.push(self.buf[self.pos + i]);
            i = i + 1;
        }
        self.pos = self.pos + num;
        Ok(out)
    }

    /// Four little-endian bytes: the bit pattern of a 32-bit float.
    pub fn f32_bits(&mut self) -> (res: Result<u32, DecodeError>)
        ensures
            final(self).data() == old(self).data(),
            final(self).position() >= old(self).position(),
            spec_f32(old(self).data(), old(self).position()) == match res {
                Ok(v) => Ok::<(u32, int), DecodeError>((v, final(self).position())),
                Err(e) => Err(e),
            },
    {
        proof {
            use_type_invariant(&*self);
        }
        if 4 > self.buf.len() - self.pos {
            return Err(DecodeError::UnexpectedEof);
        }
        let v = read_le(self.buf, self.pos, 4);
        proof {
            lemma_le_value_bound(self.buf@.subrange(self.pos as int, self.pos + 4));
            lemma_pow256_values();
        }
        self.pos = self.pos + 4;
        Ok(v as u32)
    }

    /// Eight little-endian bytes: the bit pattern of a 64-bit float.
    pub fn f64_bits(&mut self) -> (res: Result<u64, DecodeError>)
        ensures
            final(self).data() == old(self).data(),
            final(self).position() >= old(self).position(),
            spec_f64(old(self).data(), old(self).position()) == match res {
                Ok(v) => Ok::<(u64, int), DecodeError>((v, final(self).position())),
                Err(e) => Err(e),
            },
    {
        proof {
            use_type_invariant(&*self);
        }
        if 8 > self.buf.len() - self.pos {
            return Err(DecodeError::UnexpectedEof);
        }
        let v = read_le(self.buf, self.pos, 8);
        self.pos = self.pos + 8;
        Ok(v)
    }

    /// `size` bytes decoded as UTF-8.
    pub fn string(&mut self, size: usize) -> (res: Result<String, DecodeError>)
        ensures
            final(self).data() == old(self).data(),
            final(self).position() >= old(self).position(),
            spec_string(old(self).data(), old(self).position(), size as int) == match res {
                Ok(st) => Ok::<(Seq<char>, int), DecodeError>((st@, final(self).position())),
                Err(e) => Err(e),
            },
    {
        let bytes = self.bytes(size)?;
        match string_from_utf8(bytes) {
            Ok(st) => Ok(st),
            Err(_) => Err(DecodeError::InvalidUtf8),
        }
    }

    /// A name: its length, then its UTF-8 bytes.
    pub fn name(&mut self) -> (res: Result<String, DecodeError>)
        ensures
            final(self).data() == old(self).data(),
            final(self).position() >= old(self).position(),
            spec_name(old(self).data(), old(self).position()) == match res {
                Ok(st) => Ok::<(Seq<char>, int), DecodeError>((st@, final(self).position())),
                Err(e) => Err(e),
            },
    {
        let size = self.u32()?;
        self.string(size as usize)
    }

    /// Whether any bytes are left to read (true while the reader is not at its
    /// end).
    pub fn is_end(&self) -> (more: bool)
        ensures
            more <==> self.position() < self.data().len(),
    {
        proof {
            use_type_invariant(self);
        }
        self.pos < self.buf.len()
    }
}

} // verus!
