//! Little-endian integers in byte sequences.
use vstd::arithmetic::div_mod::{lemma_breakdown, lemma_div_denominator};
use vstd::prelude::*;

verus! {

/// 256 to the power `n`.
pub open spec fn pow256(n: nat) -> nat
    decreases n,
{
    if n == 0 {
        1
    } else {
        256 * pow256((n - 1) as nat)
    }
}

/// The unsigned number whose little-endian bytes are `s`.
pub open spec fn le_value(s: Seq<u8>) -> nat
    decreases s.len(),
{
    if s.len() == 0 {
        0
    } else {
        s[0] as nat + 256 * le_value(s.drop_first())
    }
}

/// Byte `j` (counting from the least significant) of `v`.
pub open spec fn le_byte(v: nat, j: nat) -> u8 {
    ((v / pow256(j)) % 256) as u8
}

pub proof fn lemma_pow256_pos(n: nat)
    ensures
        pow256(n) > 0,
    decreases n,
{
    if n > 0 {
        lemma_pow256_pos((n - 1) as nat);
    }
}

pub proof fn lemma_pow256_values()
    ensures
        pow256(0) == 1,
        pow256(1) == 0x100,
        pow256(2) == 0x1_0000,
        pow256(4) == 0x1_0000_0000,
        pow256(8) == 0x1_0000_0000_0000_0000,
{
    reveal_with_fuel(pow256, 9);
}

/// A sequence of bytes read as a little-endian number is below 256^len.
pub proof fn lemma_le_value_bound(s: Seq<u8>)
    ensures
        le_value(s) < pow256(s.len()),
    decreases s.len(),
{
    if s.len() > 0 {
        lemma_le_value_bound(s.drop_first());
        let r = le_value(s.drop_first());
        let p = pow256((s.len() - 1) as nat);
        assert(s[0] as nat + 256 * r <= 255 + 256 * (p - 1)) by (nonlinear_arith)
            requires
                s[0] < 256,
                r < p,
        ;
    }
}

/// The bytes `le_byte(v, 0..n)` read back as a little-endian number give `v`
/// modulo 256^n.
pub proof fn lemma_le_value_of_bytes(s: Seq<u8>, v: nat)
    requires
        forall|j: int| 0 <= j < s.len() ==> #[trigger] s[j] == le_byte(v, j as nat),
    ensures
        le_value(s) == v % pow256(s.len()),
    decreases s.len(),
{
    if s.len() == 0 {
        assert(v % 1 == 0);
    } else {
        let t = s.drop_first();
        assert forall|j: int| 0 <= j < t.len() implies #[trigger] t[j] == le_byte(
            v / 256,
            j as nat,
        ) by {
            assert(t[j] == s[j + 1]);
            lemma_pow256_pos(j as nat);
            lemma_div_denominator(v as int, 256, pow256(j as nat) as int);
            assert(pow256((j + 1) as nat) == 256 * pow256(j as nat));
        }
        lemma_le_value_of_bytes(t, v / 256);
        lemma_pow256_pos((s.len() - 1) as nat);
        lemma_breakdown(v as int, 256, pow256((s.len() - 1) as nat) as int);
        assert(pow256(s.len()) == 256 * pow256((s.len() - 1) as nat));
        assert(pow256(0) == 1);
        assert(v / 1 == v);
        assert(s[0] == le_byte(v, 0));
        assert(s[0] as nat == v % 256);
        assert(le_value(s) == s[0] as nat + 256 * le_value(t));
    }
}

proof fn lemma_le_value_step(s: Seq<u8>, i: int, e: int)
    requires
        0 <= i < e <= s.len(),
    ensures
        le_value(s.subrange(i, e)) == s[i] as nat + 256 * le_value(s.subrange(i + 1, e)),
{
    assert(s.subrange(i, e).drop_first() =~= s.subrange(i + 1, e));
}

/// Reads the `n` bytes at `at` as a little-endian unsigned number.
pub fn read_le(buf: &[u8], at: usize, n: usize) -> (v: u64)
    requires
        n <= 8,
        at + n <= buf@.len(),
    ensures
        v as nat == le_value(buf@.subrange(at as int, at + n)),
{
    let len = buf.len();
    let mut i: usize = n;
    let mut acc: u64 = 0;
    proof {
        lemma_pow256_values();
        assert(buf@.subrange(at + n, at + n).len() == 0);
    }
    while i > 0
        invariant
            n <= 8,
            at + n <= buf@.len(),
            buf@.len() == len,
            i <= n,
            acc as nat == le_value(buf@.subrange(at + i, at + n)),
            pow256(8) == 0x1_0000_0000_0000_0000,
        decreases i,
    {
        proof {
            lemma_le_value_bound(buf@.subrange(at + i, at + n));
            lemma_pow256_mono((n - i) as nat, 7);
            lemma_pow256_values();
            assert(pow256(7) == 0x100_0000_0000_0000) by {
                reveal_with_fuel(pow256, 8);
            }
            lemma_le_value_step(buf@, at + i - 1, at + n);
        }
        let b = buf[at + i - 1];
        acc = acc * 256 + b as u64;
        i = i - 1;
    }
    acc
}

proof fn lemma_pow256_mono(a: nat, b: nat)
    requires
        a <= b,
    ensures
        pow256(a) <= pow256(b),
    decreases b,
{
    if a < b {
        lemma_pow256_mono(a, (b - 1) as nat);
    }
}

/// Writes the low `n` bytes of `v`, least significant first, at `at`; the
/// other bytes stay as they were.
pub fn write_le(buf: &mut Vec<u8>, at: usize, n: usize, v: u64)
    requires
        n <= 8,
        at + n <= old(buf)@.len(),
    ensures
        final(buf)@.len() == old(buf)@.len(),
        forall|j: int| 0 <= j < n ==> #[trigger] final(buf)@[at + j] == le_byte(v as nat, j as nat),
        forall|k: int|
            0 <= k < old(buf)@.len() && !(at <= k < at + n) ==> #[trigger] final(buf)@[k] == old(
                buf,
            )@[k],
{
    let len = buf.len();
    let mut i: usize = 0;
    let mut rest: u64 = v;
    proof {
        lemma_pow256_values();
    }
    while i < n
        invariant
            n <= 8,
            at + n <= buf@.len(),
            buf@.len() == old(buf)@.len(),
            buf@.len() == len,
            i <= n,
            rest as nat == v as nat / pow256(i as nat),
            forall|j: int| 0 <= j < i ==> #[trigger] buf@[at + j] == le_byte(v as nat, j as nat),
            forall|k: int|
                0 <= k < old(buf)@.len() && !(at <= k < at + i) ==> #[trigger] buf@[k] == old(
                    buf,
                )@[k],
        decreases n - i,
    {
        proof {
            lemma_pow256_pos(i as nat);
            lemma_div_denominator(v as int, pow256(i as nat) as int, 256);
            assert(pow256((i + 1) as nat) == 256 * pow256(i as nat));
            assert(pow256(i as nat) * 256 == 256 * pow256(i as nat)) by (nonlinear_arith);
        }
        buf.set(at + i, (rest % 256) as u8);
        rest = rest / 256;
        i = i + 1;
    }
}

/// Reading back the bytes that `write_le` wrote gives the value modulo 256^n.
pub proof fn lemma_read_after_write(bytes: Seq<u8>, v: nat)
    requires
        forall|j: int| 0 <= j < bytes.len() ==> #[trigger] bytes[j] == le_byte(v, j as nat),
    ensures
        le_value(bytes) == v % pow256(bytes.len()),
{
    lemma_le_value_of_bytes(bytes, v);
}

} // verus!
