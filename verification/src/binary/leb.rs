//! LEB128 numbers, read through the `leb128` crate.
use vstd::prelude::*;

verus! {

#[verifier::external_type_specification]
#[verifier::external_body]
pub struct ExLeb128ReadError(::leb128::read::Error);

/// 128 to the power `n`.
pub open spec fn pow128(n: nat) -> nat
    decreases n,
{
    if n == 0 {
        1
    } else {
        128 * pow128((n - 1) as nat)
    }
}

/// The unsigned LEB128 number whose first byte is `s[k]`, read as if it began
/// the stream: its value and the index just past its last byte. `None` when
/// the bytes run out first, or when the tenth byte is more than 1 (the value
/// would not fit in 64 bits).
pub open spec fn uleb_from(s: Seq<u8>, k: nat) -> Option<(int, nat)>
    decreases 10 - k,
{
    if k >= s.len() || k >= 10 {
        None
    } else {
        let b = s[k as int];
        if k == 9 && b > 1 {
            None
        } else if b < 0x80 {
            Some((b as int, k + 1))
        } else {
            match uleb_from(s, k + 1) {
                Some((v, n)) => Some(((b - 0x80) + 0x80 * v, n)),
                None => None,
            }
        }
    }
}

/// The unsigned LEB128 number at the start of `s`: its value and length.
pub open spec fn uleb(s: Seq<u8>) -> Option<(int, nat)> {
    uleb_from(s, 0)
}

/// The bytes of a signed LEB128 number from `s[k]` on: the value of their low
/// seven bits, the index just past the last byte, and the last byte. `None`
/// when the bytes run out first, or when the tenth byte is neither 0 nor 0x7f.
pub open spec fn sleb_raw_from(s: Seq<u8>, k: nat) -> Option<(int, nat, u8)>
    decreases 10 - k,
{
    if k >= s.len() || k >= 10 {
        None
    } else {
        let b = s[k as int];
        if k == 9 && b != 0 && b != 0x7f {
            None
        } else if b < 0x80 {
            Some((b as int, k + 1, b))
        } else {
            match sleb_raw_from(s, k + 1) {
                Some((v, n, last)) => Some(((b - 0x80) + 0x80 * v, n, last)),
                None => None,
            }
        }
    }
}

/// The signed LEB128 number at the start of `s`, as a 64-bit two's complement
/// value: its value and length.
pub open spec fn sleb(s: Seq<u8>) -> Option<(int, nat)> {
    match sleb_raw_from(s, 0) {
        Some((raw, n, last)) => Some(
            (
                if n < 10 && last >= 0x40 {
                    raw - pow128(n)
                } else if n == 10 && last == 0x7f {
                    raw - 128 * pow128(9)
                } else {
                    raw
                },
                n,
            ),
        ),
        None => None,
    }
}

/// Calls `leb128::read::unsigned` on the bytes from `pos` on. The contract
/// claims that the crate reads exactly the bytes of the number, returns its
/// value when it ends within the input and fits in 64 bits, and fails
/// otherwise; on success the result holds how many bytes were left unread.
#[verifier::external_body]
fn leb128_read_unsigned(bytes: &[u8]) -> (res: Result<(u64, usize), ::leb128::read::Error>)
    ensures
        match res {
            Ok((v, rest)) => uleb(bytes@) matches Some((value, n)) && v == value && rest
                == bytes@.len() - n,
            Err(_) => uleb(bytes@) is None,
        },
{
    let mut reader = bytes;
    match ::leb128::read::unsigned(&mut reader) {
        Ok(v) => Ok((v, reader.len())),
        Err(e) => Err(e),
    }
}

/// Calls `leb128::read::signed` on the bytes. The contract claims that the
/// crate reads exactly the bytes of the number, returns its 64-bit two's
/// complement value when it ends within the input and fits, and fails
/// otherwise; on success the result holds how many bytes were left unread.
#[verifier::external_body]
fn leb128_read_signed(bytes: &[u8]) -> (res: Result<(i64, usize), ::leb128::read::Error>)
    ensures
        match res {
            Ok((v, rest)) => sleb(bytes@) matches Some((value, n)) && v == value && rest
                == bytes@.len() - n,
            Err(_) => sleb(bytes@) is None,
        },
{
    let mut reader = bytes;
    match ::leb128::read::signed(&mut reader) {
        Ok(v) => Ok((v, reader.len())),
        Err(e) => Err(e),
    }
}

proof fn lemma_uleb_from_bounds(s: Seq<u8>, k: nat)
    requires
        k <= 10,
    ensures
        uleb_from(s, k) matches Some((v, n)) ==> k < n <= s.len() && n <= 10 && 0 <= v < pow128(
            (n - k) as nat,
        ),
    decreases 10 - k,
{
    if k < s.len() && k < 10 {
        lemma_uleb_from_bounds(s, k + 1);
        reveal_with_fuel(pow128, 2);
        let b = s[k as int];
        if b >= 0x80 && !(k == 9 && b > 1) {
            match uleb_from(s, k + 1) {
                Some((v, n)) => {
                    assert(pow128((n - k) as nat) == 128 * pow128((n - (k + 1)) as nat));
                    assert(0x80 * v <= 0x80 * (pow128((n - (k + 1)) as nat) - 1)) by (nonlinear_arith)
                        requires v < pow128((n - (k + 1)) as nat);
                },
                None => {},
            }
        }
    }
}

/// The value of an unsigned LEB128 number is below 2^64 and its length is at
/// most ten bytes.
pub proof fn lemma_uleb_bounds(s: Seq<u8>)
    ensures
        uleb(s) matches Some((v, n)) ==> 0 < n <= s.len() && n <= 10 && 0 <= v <= u64::MAX,
{
    lemma_uleb_from_bounds(s, 0);
    reveal_with_fuel(pow128, 10);
    assert(pow128(9) == 0x8000_0000_0000_0000);
    if let Some((v, n)) = uleb(s) {
        if n == 10 {
            // below 128^10 is not enough on its own; the tenth byte bounds it
            lemma_uleb_tenth(s, 0);
        } else {
            lemma_pow128_mono(n, 9);
        }
    }
}

proof fn lemma_pow128_mono(a: nat, b: nat)
    requires
        a <= b,
    ensures
        pow128(a) <= pow128(b),
    decreases b,
{
    if a < b {
        lemma_pow128_mono(a, (b - 1) as nat);
    }
}

proof fn lemma_uleb_tenth(s: Seq<u8>, k: nat)
    requires
        k <= 9,
        uleb_from(s, k) matches Some((v, n)) && n == 10,
    ensures
        uleb_from(s, k) matches Some((v, n)) && v < pow128((9 - k) as nat) * 2,
    decreases 9 - k,
{
    let b = s[k as int];
    if k < 9 {
        lemma_uleb_tenth(s, k + 1);
        let (v1, n1) = uleb_from(s, k + 1).unwrap();
        assert(pow128((9 - k) as nat) == 128 * pow128((9 - (k + 1)) as nat));
        assert(0x80 * v1 <= 0x80 * (pow128((9 - (k + 1)) as nat) * 2 - 1)) by (nonlinear_arith)
            requires v1 < pow128((9 - (k + 1)) as nat) * 2;
    }
}

/// Reads an unsigned LEB128 number at `pos`: its value and the position just
/// past it. `Err(InvalidLeb128)` exactly when the bytes from `pos` on do not
/// begin with such a number.
pub fn read_unsigned(bytes: &[u8], pos: usize) -> (res: Result<(u64, usize), super::error::DecodeError>)
    requires
        pos <= bytes@.len(),
    ensures
        match res {
            Ok((v, next)) => uleb(bytes@.skip(pos as int)) matches Some((value, n)) && v == value
                && next == pos + n,
            Err(e) => e == super::error::DecodeError::InvalidLeb128 && uleb(bytes@.skip(pos as int)) is None,
        },
{
    let tail = vstd::slice::slice_subrange(bytes, pos, bytes.len());
    assert(tail@ =~= bytes@.skip(pos as int));
    match leb128_read_unsigned(tail) {
        Ok((v, rest)) => {
            proof {
                lemma_uleb_bounds(tail@);
            }
            Ok((v, bytes.len() - rest))
        },
        Err(_) => Err(super::error::DecodeError::InvalidLeb128),
    }
}

/// Reads a signed LEB128 number at `pos`: its value and the position just
/// past it. `Err(InvalidLeb128)` exactly when the bytes from `pos` on do not
/// begin with such a number.
pub fn read_signed(bytes: &[u8], pos: usize) -> (res: Result<(i64, usize), super::error::DecodeError>)
    requires
        pos <= bytes@.len(),
    ensures
        match res {
            Ok((v, next)) => sleb(bytes@.skip(pos as int)) matches Some((value, n)) && v == value
                && next == pos + n,
            Err(e) => e == super::error::DecodeError::InvalidLeb128 && sleb(bytes@.skip(pos as int)) is None,
        },
{
    let tail = vstd::slice::slice_subrange(bytes, pos, bytes.len());
    assert(tail@ =~= bytes@.skip(pos as int));
    match leb128_read_signed(tail) {
        Ok((v, rest)) => {
            proof {
                lemma_sleb_len(tail@, 0);
            }
            Ok((v, bytes.len() - rest))
        },
        Err(_) => Err(super::error::DecodeError::InvalidLeb128),
    }
}

pub proof fn lemma_sleb_len(s: Seq<u8>, k: nat)
    ensures
        sleb_raw_from(s, k) matches Some((v, n, last)) ==> k < n <= s.len(),
    decreases 10 - k,
{
    if k < s.len() && k < 10 {
        lemma_sleb_len(s, k + 1);
    }
}

} // verus!
