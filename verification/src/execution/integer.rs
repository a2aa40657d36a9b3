//! Integer instructions on i32 and i64.
//! <https://www.w3.org/TR/wasm-core-1/#numeric-instructions%E2%91%A0>
use super::error::RuntimeError;
use vstd::arithmetic::power2::{lemma2_to64, pow2};
use vstd::prelude::*;
use vstd::std_specs::bits::{
    u32_leading_zeros, u32_trailing_zeros, u64_leading_zeros, u64_trailing_zeros,
};

verus! {

/// 2 to the power `n`, as an integer.
pub open spec fn pow2_int(n: nat) -> int {
    pow2(n) as int
}

pub(crate) proof fn lemma_pow2_values()
    ensures
        pow2_int(7) == 0x80,
        pow2_int(8) == 0x100,
        pow2_int(15) == 0x8000,
        pow2_int(16) == 0x1_0000,
        pow2_int(31) == 0x8000_0000,
        pow2_int(32) == 0x1_0000_0000,
{
    lemma2_to64();
}

/// Unary integer instructions.
pub trait Iunop: Sized {
    /// The number of leading zero bits.
    spec fn op_clz(self) -> Self;

    /// The number of trailing zero bits.
    spec fn op_ctz(self) -> Self;

    /// The low 8 bits, sign-extended.
    spec fn op_extend8_s(self) -> Self;

    /// The low 16 bits, sign-extended.
    spec fn op_extend16_s(self) -> Self;

    fn clz(&self) -> (r: Result<Self, RuntimeError>)
        ensures
            r == Ok::<Self, RuntimeError>(self.op_clz()),
    ;

    fn ctz(&self) -> (r: Result<Self, RuntimeError>)
        ensures
            r == Ok::<Self, RuntimeError>(self.op_ctz()),
    ;

    fn extend8_s(&self) -> (r: Result<Self, RuntimeError>)
        ensures
            r == Ok::<Self, RuntimeError>(self.op_extend8_s()),
    ;

    fn extend16_s(&self) -> (r: Result<Self, RuntimeError>)
        ensures
            r == Ok::<Self, RuntimeError>(self.op_extend16_s()),
    ;
}

/// Binary integer instructions.
pub trait Ibinop: Sized {
    spec fn op_add(self, rhs: Self) -> Self;

    spec fn op_sub(self, rhs: Self) -> Self;

    spec fn op_mul(self, rhs: Self) -> Self;

    spec fn op_div_s(self, rhs: Self) -> Result<Self, RuntimeError>;

    spec fn op_div_u(self, rhs: Self) -> Result<Self, RuntimeError>;

    spec fn op_rem_s(self, rhs: Self) -> Result<Self, RuntimeError>;

    spec fn op_rem_u(self, rhs: Self) -> Result<Self, RuntimeError>;

    spec fn op_and(self, rhs: Self) -> Self;

    spec fn op_or(self, rhs: Self) -> Self;

    spec fn op_xor(self, rhs: Self) -> Self;

    spec fn op_shl(self, rhs: Self) -> Self;

    spec fn op_shr_s(self, rhs: Self) -> Self;

    spec fn op_shr_u(self, rhs: Self) -> Self;

    spec fn op_rotl(self, rhs: Self) -> Self;

    spec fn op_rotr(self, rhs: Self) -> Self;

    fn add(&self, rhs: Self) -> (r: Result<Self, RuntimeError>)
        ensures
            r == Ok::<Self, RuntimeError>(self.op_add(rhs)),
    ;

    fn sub(&self, rhs: Self) -> (r: Result<Self, RuntimeError>)
        ensures
            r == Ok::<Self, RuntimeError>(self.op_sub(rhs)),
    ;

    fn mul(&self, rhs: Self) -> (r: Result<Self, RuntimeError>)
        ensures
            r == Ok::<Self, RuntimeError>(self.op_mul(rhs)),
    ;

    fn div_s(&self, rhs: Self) -> (r: Result<Self, RuntimeError>)
        ensures
            r == self.op_div_s(rhs),
    ;

    fn div_u(&self, rhs: Self) -> (r: Result<Self, RuntimeError>)
        ensures
            r == self.op_div_u(rhs),
    ;

    fn rem_s(&self, rhs: Self) -> (r: Result<Self, RuntimeError>)
        ensures
            r == self.op_rem_s(rhs),
    ;

    fn rem_u(&self, rhs: Self) -> (r: Result<Self, RuntimeError>)
        ensures
            r == self.op_rem_u(rhs),
    ;

    fn and(&self, rhs: Self) -> (r: Result<Self, RuntimeError>)
        ensures
            r == Ok::<Self, RuntimeError>(self.op_and(rhs)),
    ;

    fn or(&self, rhs: Self) -> (r: Result<Self, RuntimeError>)
        ensures
            r == Ok::<Self, RuntimeError>(self.op_or(rhs)),
    ;

    fn xor(&self, rhs: Self) -> (r: Result<Self, RuntimeError>)
        ensures
            r == Ok::<Self, RuntimeError>(self.op_xor(rhs)),
    ;

    fn shl(&self, rhs: Self) -> (r: Result<Self, RuntimeError>)
        ensures
            r == Ok::<Self, RuntimeError>(self.op_shl(rhs)),
    ;

    fn shr_s(&self, rhs: Self) -> (r: Result<Self, RuntimeError>)
        ensures
            r == Ok::<Self, RuntimeError>(self.op_shr_s(rhs)),
    ;

    fn shr_u(&self, rhs: Self) -> (r: Result<Self, RuntimeError>)
        ensures
            r == Ok::<Self, RuntimeError>(self.op_shr_u(rhs)),
    ;

    fn rotl(&self, rhs: Self) -> (r: Result<Self, RuntimeError>)
        ensures
            r == Ok::<Self, RuntimeError>(self.op_rotl(rhs)),
    ;

    fn rotr(&self, rhs: Self) -> (r: Result<Self, RuntimeError>)
        ensures
            r == Ok::<Self, RuntimeError>(self.op_rotr(rhs)),
    ;
}

/// Integer comparisons; the result is 1 when the relation holds, else 0.
pub trait Irelop: Sized {
    /// The value read as a signed number.
    spec fn as_signed(self) -> int;

    /// The value read as an unsigned number.
    spec fn as_unsigned(self) -> int;

    fn equal(&self, rhs: Self) -> (r: Result<i32, RuntimeError>)
        ensures
            r == Ok::<i32, RuntimeError>(if self.as_signed() == rhs.as_signed() { 1 } else { 0 }),
    ;

    fn not_equal(&self, rhs: Self) -> (r: Result<i32, RuntimeError>)
        ensures
            r == Ok::<i32, RuntimeError>(if self.as_signed() != rhs.as_signed() { 1 } else { 0 }),
    ;

    fn lt_s(&self, rhs: Self) -> (r: Result<i32, RuntimeError>)
        ensures
            r == Ok::<i32, RuntimeError>(if self.as_signed() < rhs.as_signed() { 1 } else { 0 }),
    ;

    fn lt_u(&self, rhs: Self) -> (r: Result<i32, RuntimeError>)
        ensures
            r == Ok::<i32, RuntimeError>(if self.as_unsigned() < rhs.as_unsigned() { 1 } else { 0 }),
    ;

    fn gt_s(&self, rhs: Self) -> (r: Result<i32, RuntimeError>)
        ensures
            r == Ok::<i32, RuntimeError>(if self.as_signed() > rhs.as_signed() { 1 } else { 0 }),
    ;

    fn gt_u(&self, rhs: Self) -> (r: Result<i32, RuntimeError>)
        ensures
            r == Ok::<i32, RuntimeError>(if self.as_unsigned() > rhs.as_unsigned() { 1 } else { 0 }),
    ;

    fn le_s(&self, rhs: Self) -> (r: Result<i32, RuntimeError>)
        ensures
            r == Ok::<i32, RuntimeError>(if self.as_signed() <= rhs.as_signed() { 1 } else { 0 }),
    ;

    fn le_u(&self, rhs: Self) -> (r: Result<i32, RuntimeError>)
        ensures
            r == Ok::<i32, RuntimeError>(if self.as_unsigned() <= rhs.as_unsigned() { 1 } else { 0 }),
    ;

    fn ge_s(&self, rhs: Self) -> (r: Result<i32, RuntimeError>)
        ensures
            r == Ok::<i32, RuntimeError>(if self.as_signed() >= rhs.as_signed() { 1 } else { 0 }),
    ;

    fn ge_u(&self, rhs: Self) -> (r: Result<i32, RuntimeError>)
        ensures
            r == Ok::<i32, RuntimeError>(if self.as_unsigned() >= rhs.as_unsigned() { 1 } else { 0 }),
    ;
}

/// The integer test: 1 when the value is zero, else 0.
pub trait Itestop: Sized {
    spec fn is_zero(self) -> bool;

    fn eqz(&self) -> (r: Result<i32, RuntimeError>)
        ensures
            r == Ok::<i32, RuntimeError>(if self.is_zero() { 1 } else { 0 }),
    ;
}

/// `x` wrapped into the range of i32 (two's complement).
pub open spec fn wrap_i32(x: int) -> i32 {
    let m = x % (0x1_0000_0000 as int);
    if m > i32::MAX {
        (m - 0x1_0000_0000) as i32
    } else {
        m as i32
    }
}

/// The unsigned reading of the bits of `x`.
pub open spec fn unsigned_i32(x: i32) -> u32 {
    if x < 0 {
        (x + 0x1_0000_0000) as u32
    } else {
        x as u32
    }
}

/// The signed reading of the bits of `x`.
pub open spec fn signed_i32(x: u32) -> i32 {
    if x > i32::MAX {
        (x - 0x1_0000_0000) as i32
    } else {
        x as i32
    }
}

/// Division rounding toward zero.
pub open spec fn trunc_div_i32(x: int, d: int) -> int {
    if x == 0 {
        0
    } else if x > 0 && d > 0 {
        x / d
    } else if x < 0 && d < 0 {
        (x * -1) / (d * -1)
    } else if x < 0 {
        ((x * -1) / d) * -1
    } else {
        (x / (d * -1)) * -1
    }
}

/// The remainder of division rounding toward zero: it has the sign of `x`.
pub open spec fn trunc_rem_i32(x: int, d: int) -> int {
    if x == 0 {
        0
    } else if x > 0 && d > 0 {
        x % d
    } else if x < 0 && d < 0 {
        ((x * -1) % (d * -1)) * -1
    } else if x < 0 {
        ((x * -1) % d) * -1
    } else {
        x % (d * -1)
    }
}

/// The number of one bits among the lowest `n` bits of `x`.
pub open spec fn popcount_u32(x: u32, n: nat) -> nat
    decreases n,
{
    if n == 0 {
        0
    } else {
        popcount_u32(x, (n - 1) as nat) + ((x >> ((n - 1) as u32)) & 1) as nat
    }
}

/// Rotation of the bits of `x` left by `k`, for `k` below the width.
pub open spec fn rotl_u32(x: u32, k: u32) -> u32 {
    if k == 0 {
        x
    } else {
        (x << k) | (x >> ((32 - k) as u32))
    }
}

/// The low `n` bits of `x` sign-extended, for `n` below the width.
pub open spec fn sext_i32(x: i32, n: nat) -> i32
    recommends
        0 < n < 32,
{
    let b = (x as int) % pow2_int(n);
    if b >= pow2_int((n - 1) as nat) {
        (b - pow2_int(n)) as i32
    } else {
        b as i32
    }
}

pub fn to_unsigned_i32(x: i32) -> (r: u32)
    ensures
        r == unsigned_i32(x),
{
    if x < 0 {
        (x as i64 + 0x1_0000_0000i64) as u32
    } else {
        x as u32
    }
}

pub fn to_signed_i32(x: u32) -> (r: i32)
    ensures
        r == signed_i32(x),
{
    if x > 0x7fff_ffffu32 {
        (x as i64 - 0x1_0000_0000i64) as i32
    } else {
        x as i32
    }
}

proof fn lemma_unsigned_signed_i32(x: i32)
    ensures
        signed_i32(unsigned_i32(x)) == x,
        unsigned_i32(x) as int % 0x1_0000_0000 == (x as int) % 0x1_0000_0000,
{
}

pub(crate) proof fn lemma_trunc_div_bound_i32(x: i32, d: i32)
    requires
        d != 0,
        !(x == i32::MIN && d == -1),
    ensures
        i32::MIN <= trunc_div_i32(x as int, d as int) <= i32::MAX,
{
    let a: int = if x < 0 { (x as int) * -1 } else { x as int };
    let b: int = if d < 0 { (d as int) * -1 } else { d as int };
    assert(0 <= a / b <= a) by (nonlinear_arith)
        requires
            a >= 0,
            b >= 1,
    ;
    if b == 1 {
        assert(a / b == a) by (nonlinear_arith)
            requires
                b == 1,
        ;
    } else {
        assert(a / b <= a / 2) by (nonlinear_arith)
            requires
                a >= 0,
                b >= 2,
        ;
    }
}

fn popcnt_u32(x: u32) -> (r: u32)
    ensures
        r == popcount_u32(x, 32),
        r <= 32,
{
    let mut count: u32 = 0;
    let mut i: u32 = 0;
    while i < 32
        invariant
            i <= 32,
            count == popcount_u32(x, i as nat),
            count <= i,
        decreases 32 - i,
    {
        let bit = (x >> i) & 1;
        assert(bit <= 1) by (bit_vector)
            requires
                bit == (x >> i) & 1,
        ;
        count = count + bit as u32;
        i = i + 1;
    }
    count
}

impl Iunop for i32 {
    open spec fn op_clz(self) -> i32 {
        u32_leading_zeros(unsigned_i32(self)) as i32
    }

    open spec fn op_ctz(self) -> i32 {
        u32_trailing_zeros(unsigned_i32(self)) as i32
    }

    open spec fn op_extend8_s(self) -> i32 {
        sext_i32(self, 8)
    }

    open spec fn op_extend16_s(self) -> i32 {
        sext_i32(self, 16)
    }

    fn clz(&self) -> (r: Result<i32, RuntimeError>) {
        Ok(to_unsigned_i32(*self).leading_zeros() as i32)
    }

    fn ctz(&self) -> (r: Result<i32, RuntimeError>) {
        Ok(to_unsigned_i32(*self).trailing_zeros() as i32)
    }

    fn extend8_s(&self) -> (r: Result<i32, RuntimeError>) {
        Ok(sign_extend_i32(*self, 8))
    }

    fn extend16_s(&self) -> (r: Result<i32, RuntimeError>) {
        Ok(sign_extend_i32(*self, 16))
    }
}

/// The low `n` bits of `x` sign-extended.
fn sign_extend_i32(x: i32, n: u32) -> (r: i32)
    requires
        n == 8 || n == 16 || n == 32,
        n < 32,
    ensures
        r == sext_i32(x, n as nat),
{
    let m: i64 = if n == 8 {
        0x100
    } else if n == 16 {
        0x1_0000
    } else {
        0x1_0000_0000
    };
    let h: i64 = m / 2;
    proof {
        lemma_pow2_values();
    }
    let ux = to_unsigned_i32(x) as i64;
    let b = ux % m;
    proof {
        lemma_unsigned_signed_i32(x);
        assert((x as int) % (m as int) == (ux as int) % (m as int)) by (nonlinear_arith)
            requires
                (ux as int) % 0x1_0000_0000 == (x as int) % 0x1_0000_0000,
                m == 0x100 || m == 0x1_0000 || m == 0x1_0000_0000,
                0 <= ux < 0x1_0000_0000,
        {
            let k: int = (0x1_0000_0000 as int) / (m as int);
            assert((0x1_0000_0000 as int) == (m as int) * k);
            vstd::arithmetic::div_mod::lemma_mod_mod(x as int, m as int, k);
            vstd::arithmetic::div_mod::lemma_mod_mod(ux as int, m as int, k);
        }
    }
    if b >= h {
        (b - m) as i32
    } else {
        b as i32
    }
}

impl Ibinop for i32 {
    open spec fn op_add(self, rhs: i32) -> i32 {
        wrap_i32(self + rhs)
    }

    open spec fn op_sub(self, rhs: i32) -> i32 {
        wrap_i32(self - rhs)
    }

    open spec fn op_mul(self, rhs: i32) -> i32 {
        wrap_i32(self * rhs)
    }

    open spec fn op_div_s(self, rhs: i32) -> Result<i32, RuntimeError> {
        if rhs == 0 {
            Err(RuntimeError::IntegerDivideByZero)
        } else if self == i32::MIN && rhs == -1 {
            Err(RuntimeError::DivisionOverflow)
        } else {
            Ok(trunc_div_i32(self as int, rhs as int) as i32)
        }
    }

    open spec fn op_div_u(self, rhs: i32) -> Result<i32, RuntimeError> {
        if rhs == 0 {
            Err(RuntimeError::IntegerDivideByZero)
        } else {
            Ok(signed_i32((unsigned_i32(self) / unsigned_i32(rhs)) as u32))
        }
    }

    open spec fn op_rem_s(self, rhs: i32) -> Result<i32, RuntimeError> {
        if rhs == 0 {
            Err(RuntimeError::IntegerDivideByZero)
        } else {
            Ok(trunc_rem_i32(self as int, rhs as int) as i32)
        }
    }

    open spec fn op_rem_u(self, rhs: i32) -> Result<i32, RuntimeError> {
        if rhs == 0 {
            Err(RuntimeError::IntegerDivideByZero)
        } else {
            Ok(signed_i32((unsigned_i32(self) % unsigned_i32(rhs)) as u32))
        }
    }

    open spec fn op_and(self, rhs: i32) -> i32 {
        self & rhs
    }

    open spec fn op_or(self, rhs: i32) -> i32 {
        self | rhs
    }

    open spec fn op_xor(self, rhs: i32) -> i32 {
        self ^ rhs
    }

    open spec fn op_shl(self, rhs: i32) -> i32 {
        signed_i32(unsigned_i32(self) << (unsigned_i32(rhs) % 32))
    }

    open spec fn op_shr_s(self, rhs: i32) -> i32 {
        self >> (unsigned_i32(rhs) % 32)
    }

    open spec fn op_shr_u(self, rhs: i32) -> i32 {
        signed_i32(unsigned_i32(self) >> (unsigned_i32(rhs) % 32))
    }

    open spec fn op_rotl(self, rhs: i32) -> i32 {
        signed_i32(rotl_u32(unsigned_i32(self), unsigned_i32(rhs) % 32))
    }

    open spec fn op_rotr(self, rhs: i32) -> i32 {
        signed_i32(rotl_u32(unsigned_i32(self), ((32 - unsigned_i32(rhs) % 32) % 32) as u32))
    }

    fn add(&self, rhs: i32) -> (r: Result<i32, RuntimeError>) {
        Ok(self.wrapping_add(rhs))
    }

    fn sub(&self, rhs: i32) -> (r: Result<i32, RuntimeError>) {
        Ok(self.wrapping_sub(rhs))
    }

    fn mul(&self, rhs: i32) -> (r: Result<i32, RuntimeError>) {
        Ok(self.wrapping_mul(rhs))
    }

    fn div_s(&self, rhs: i32) -> (r: Result<i32, RuntimeError>) {
        if rhs == 0 {
            return Err(RuntimeError::IntegerDivideByZero);
        }
        if *self == i32::MIN && rhs == -1 {
            return Err(RuntimeError::DivisionOverflow);
        }
        proof {
            lemma_trunc_div_bound_i32(*self, rhs);
        }
        match self.checked_div(rhs) {
            Some(v) => Ok(v),
            None => Err(RuntimeError::DivisionOverflow),
        }
    }

    fn div_u(&self, rhs: i32) -> (r: Result<i32, RuntimeError>) {
        if rhs == 0 {
            return Err(RuntimeError::IntegerDivideByZero);
        }
        Ok(to_signed_i32(to_unsigned_i32(*self) / to_unsigned_i32(rhs)))
    }

    fn rem_s(&self, rhs: i32) -> (r: Result<i32, RuntimeError>) {
        if rhs == 0 {
            return Err(RuntimeError::IntegerDivideByZero);
        }
        if rhs == -1 {
            return Ok(0);
        }
        match self.checked_rem(rhs) {
            Some(v) => Ok(v),
            None => Ok(0),
        }
    }

    fn rem_u(&self, rhs: i32) -> (r: Result<i32, RuntimeError>) {
        if rhs == 0 {
            return Err(RuntimeError::IntegerDivideByZero);
        }
        Ok(to_signed_i32(to_unsigned_i32(*self) % to_unsigned_i32(rhs)))
    }

    fn and(&self, rhs: i32) -> (r: Result<i32, RuntimeError>) {
        Ok(*self & rhs)
    }

    fn or(&self, rhs: i32) -> (r: Result<i32, RuntimeError>) {
        Ok(*self | rhs)
    }

    fn xor(&self, rhs: i32) -> (r: Result<i32, RuntimeError>) {
        Ok(*self ^ rhs)
    }

    fn shl(&self, rhs: i32) -> (r: Result<i32, RuntimeError>) {
        let k = to_unsigned_i32(rhs) % 32;
        Ok(to_signed_i32(to_unsigned_i32(*self) << k))
    }

    fn shr_s(&self, rhs: i32) -> (r: Result<i32, RuntimeError>) {
        let k = to_unsigned_i32(rhs) % 32;
        Ok(*self >> k)
    }

    fn shr_u(&self, rhs: i32) -> (r: Result<i32, RuntimeError>) {
        let k = to_unsigned_i32(rhs) % 32;
        Ok(to_signed_i32(to_unsigned_i32(*self) >> k))
    }

    fn rotl(&self, rhs: i32) -> (r: Result<i32, RuntimeError>) {
        let k = to_unsigned_i32(rhs) % 32;
        let x = to_unsigned_i32(*self);
        let v = if k == 0 {
            x
        } else {
            (x << k) | (x >> (32 - k))
        };
        Ok(to_signed_i32(v))
    }

    fn rotr(&self, rhs: i32) -> (r: Result<i32, RuntimeError>) {
        let k = (32 - to_unsigned_i32(rhs) % 32) % 32;
        let x = to_unsigned_i32(*self);
        let v = if k == 0 {
            x
        } else {
            (x << k) | (x >> (32 - k))
        };
        Ok(to_signed_i32(v))
    }
}

impl Irelop for i32 {
    fn equal(&self, rhs: i32) -> (r: Result<i32, RuntimeError>) {
        Ok(if *self == rhs { 1 } else { 0 })
    }

    fn not_equal(&self, rhs: i32) -> (r: Result<i32, RuntimeError>) {
        Ok(if *self != rhs { 1 } else { 0 })
    }

    fn lt_s(&self, rhs: i32) -> (r: Result<i32, RuntimeError>) {
        Ok(if *self < rhs { 1 } else { 0 })
    }

    fn lt_u(&self, rhs: i32) -> (r: Result<i32, RuntimeError>) {
        Ok(if to_unsigned_i32(*self) < to_unsigned_i32(rhs) { 1 } else { 0 })
    }

    fn gt_s(&self, rhs: i32) -> (r: Result<i32, RuntimeError>) {
        Ok(if *self > rhs { 1 } else { 0 })
    }

    fn gt_u(&self, rhs: i32) -> (r: Result<i32, RuntimeError>) {
        Ok(if to_unsigned_i32(*self) > to_unsigned_i32(rhs) { 1 } else { 0 })
    }

    fn le_s(&self, rhs: i32) -> (r: Result<i32, RuntimeError>) {
        Ok(if *self <= rhs { 1 } else { 0 })
    }

    fn le_u(&self, rhs: i32) -> (r: Result<i32, RuntimeError>) {
        Ok(if to_unsigned_i32(*self) <= to_unsigned_i32(rhs) { 1 } else { 0 })
    }

    fn ge_s(&self, rhs: i32) -> (r: Result<i32, RuntimeError>) {
        Ok(if *self >= rhs { 1 } else { 0 })
    }

    fn ge_u(&self, rhs: i32) -> (r: Result<i32, RuntimeError>) {
        Ok(if to_unsigned_i32(*self) >= to_unsigned_i32(rhs) { 1 } else { 0 })
    }

    open spec fn as_signed(self) -> int {
        self as int
    }

    open spec fn as_unsigned(self) -> int {
        unsigned_i32(self) as int
    }
}

impl Itestop for i32 {
    open spec fn is_zero(self) -> bool {
        self == 0
    }

    fn eqz(&self) -> (r: Result<i32, RuntimeError>) {
        Ok(if *self == 0 { 1 } else { 0 })
    }
}

/// The number of one bits of `x`.
pub fn popcnt_i32(x: i32) -> (r: i32)
    ensures
        r == popcount_u32(unsigned_i32(x), 32),
{
    popcnt_u32(to_unsigned_i32(x)) as i32
}

/// `x` wrapped into the range of i64 (two's complement).
pub open spec fn wrap_i64(x: int) -> i64 {
    let m = x % (0x1_0000_0000_0000_0000 as int);
    if m > i64::MAX {
        (m - 0x1_0000_0000_0000_0000) as i64
    } else {
        m as i64
    }
}

/// The unsigned reading of the bits of `x`.
pub open spec fn unsigned_i64(x: i64) -> u64 {
    if x < 0 {
        (x + 0x1_0000_0000_0000_0000) as u64
    } else {
        x as u64
    }
}

/// The signed reading of the bits of `x`.
pub open spec fn signed_i64(x: u64) -> i64 {
    if x > i64::MAX {
        (x - 0x1_0000_0000_0000_0000) as i64
    } else {
        x as i64
    }
}

/// Division rounding toward zero.
pub open spec fn trunc_div_i64(x: int, d: int) -> int {
    if x == 0 {
        0
    } else if x > 0 && d > 0 {
        x / d
    } else if x < 0 && d < 0 {
        (x * -1) / (d * -1)
    } else if x < 0 {
        ((x * -1) / d) * -1
    } else {
        (x / (d * -1)) * -1
    }
}

/// The remainder of division rounding toward zero: it has the sign of `x`.
pub open spec fn trunc_rem_i64(x: int, d: int) -> int {
    if x == 0 {
        0
    } else if x > 0 && d > 0 {
        x % d
    } else if x < 0 && d < 0 {
        ((x * -1) % (d * -1)) * -1
    } else if x < 0 {
        ((x * -1) % d) * -1
    } else {
        x % (d * -1)
    }
}

/// The number of one bits among the lowest `n` bits of `x`.
pub open spec fn popcount_u64(x: u64, n: nat) -> nat
    decreases n,
{
    if n == 0 {
        0
    } else {
        popcount_u64(x, (n - 1) as nat) + ((x >> ((n - 1) as u64)) & 1) as nat
    }
}

/// Rotation of the bits of `x` left by `k`, for `k` below the width.
pub open spec fn rotl_u64(x: u64, k: u64) -> u64 {
    if k == 0 {
        x
    } else {
        (x << k) | (x >> ((64 - k) as u64))
    }
}

/// The low `n` bits of `x` sign-extended, for `n` below the width.
pub open spec fn sext_i64(x: i64, n: nat) -> i64
    recommends
        0 < n < 64,
{
    let b = (x as int) % pow2_int(n);
    if b >= pow2_int((n - 1) as nat) {
        (b - pow2_int(n)) as i64
    } else {
        b as i64
    }
}

pub fn to_unsigned_i64(x: i64) -> (r: u64)
    ensures
        r == unsigned_i64(x),
{
    if x < 0 {
        (x as i128 + 0x1_0000_0000_0000_0000i128) as u64
    } else {
        x as u64
    }
}

pub fn to_signed_i64(x: u64) -> (r: i64)
    ensures
        r == signed_i64(x),
{
    if x > 0x7fff_ffff_ffff_ffffu64 {
        (x as i128 - 0x1_0000_0000_0000_0000i128) as i64
    } else {
        x as i64
    }
}

proof fn lemma_unsigned_signed_i64(x: i64)
    ensures
        signed_i64(unsigned_i64(x)) == x,
        unsigned_i64(x) as int % 0x1_0000_0000_0000_0000 == (x as int) % 0x1_0000_0000_0000_0000,
{
}

pub(crate) proof fn lemma_trunc_div_bound_i64(x: i64, d: i64)
    requires
        d != 0,
        !(x == i64::MIN && d == -1),
    ensures
        i64::MIN <= trunc_div_i64(x as int, d as int) <= i64::MAX,
{
    let a: int = if x < 0 { (x as int) * -1 } else { x as int };
    let b: int = if d < 0 { (d as int) * -1 } else { d as int };
    assert(0 <= a / b <= a) by (nonlinear_arith)
        requires
            a >= 0,
            b >= 1,
    ;
    if b == 1 {
        assert(a / b == a) by (nonlinear_arith)
            requires
                b == 1,
        ;
    } else {
        assert(a / b <= a / 2) by (nonlinear_arith)
            requires
                a >= 0,
                b >= 2,
        ;
    }
}

fn popcnt_u64(x: u64) -> (r: u32)
    ensures
        r == popcount_u64(x, 64),
        r <= 64,
{
    let mut count: u32 = 0;
    let mut i: u64 = 0;
    while i < 64
        invariant
            i <= 64,
            count == popcount_u64(x, i as nat),
            count <= i,
        decreases 64 - i,
    {
        let bit = (x >> i) & 1;
        assert(bit <= 1) by (bit_vector)
            requires
                bit == (x >> i) & 1,
        ;
        count = count + bit as u32;
        i = i + 1;
    }
    count
}

impl Iunop for i64 {
    open spec fn op_clz(self) -> i64 {
        u64_leading_zeros(unsigned_i64(self)) as i64
    }

    open spec fn op_ctz(self) -> i64 {
        u64_trailing_zeros(unsigned_i64(self)) as i64
    }

    open spec fn op_extend8_s(self) -> i64 {
        sext_i64(self, 8)
    }

    open spec fn op_extend16_s(self) -> i64 {
        sext_i64(self, 16)
    }

    fn clz(&self) -> (r: Result<i64, RuntimeError>) {
        Ok(to_unsigned_i64(*self).leading_zeros() as i64)
    }

    fn ctz(&self) -> (r: Result<i64, RuntimeError>) {
        Ok(to_unsigned_i64(*self).trailing_zeros() as i64)
    }

    fn extend8_s(&self) -> (r: Result<i64, RuntimeError>) {
        Ok(sign_extend_i64(*self, 8))
    }

    fn extend16_s(&self) -> (r: Result<i64, RuntimeError>) {
        Ok(sign_extend_i64(*self, 16))
    }
}

/// The low `n` bits of `x` sign-extended.
pub fn sign_extend_i64(x: i64, n: u32) -> (r: i64)
    requires
        n == 8 || n == 16 || n == 32,
        n < 64,
    ensures
        r == sext_i64(x, n as nat),
{
    let m: i128 = if n == 8 {
        0x100
    } else if n == 16 {
        0x1_0000
    } else {
        0x1_0000_0000
    };
    let h: i128 = m / 2;
    proof {
        lemma_pow2_values();
    }
    let ux = to_unsigned_i64(x) as i128;
    let b = ux % m;
    proof {
        lemma_unsigned_signed_i64(x);
        assert((x as int) % (m as int) == (ux as int) % (m as int)) by (nonlinear_arith)
            requires
                (ux as int) % 0x1_0000_0000_0000_0000 == (x as int) % 0x1_0000_0000_0000_0000,
                m == 0x100 || m == 0x1_0000 || m == 0x1_0000_0000,
                0 <= ux < 0x1_0000_0000_0000_0000,
        {
            let k: int = (0x1_0000_0000_0000_0000 as int) / (m as int);
            assert((0x1_0000_0000_0000_0000 as int) == (m as int) * k);
            vstd::arithmetic::div_mod::lemma_mod_mod(x as int, m as int, k);
            vstd::arithmetic::div_mod::lemma_mod_mod(ux as int, m as int, k);
        }
    }
    if b >= h {
        (b - m) as i64
    } else {
        b as i64
    }
}

impl Ibinop for i64 {
    open spec fn op_add(self, rhs: i64) -> i64 {
        wrap_i64(self + rhs)
    }

    open spec fn op_sub(self, rhs: i64) -> i64 {
        wrap_i64(self - rhs)
    }

    open spec fn op_mul(self, rhs: i64) -> i64 {
        wrap_i64(self * rhs)
    }

    open spec fn op_div_s(self, rhs: i64) -> Result<i64, RuntimeError> {
        if rhs == 0 {
            Err(RuntimeError::IntegerDivideByZero)
        } else if self == i64::MIN && rhs == -1 {
            Err(RuntimeError::DivisionOverflow)
        } else {
            Ok(trunc_div_i64(self as int, rhs as int) as i64)
        }
    }

    open spec fn op_div_u(self, rhs: i64) -> Result<i64, RuntimeError> {
        if rhs == 0 {
            Err(RuntimeError::IntegerDivideByZero)
        } else {
            Ok(signed_i64((unsigned_i64(self) / unsigned_i64(rhs)) as u64))
        }
    }

    open spec fn op_rem_s(self, rhs: i64) -> Result<i64, RuntimeError> {
        if rhs == 0 {
            Err(RuntimeError::IntegerDivideByZero)
        } else {
            Ok(trunc_rem_i64(self as int, rhs as int) as i64)
        }
    }

    open spec fn op_rem_u(self, rhs: i64) -> Result<i64, RuntimeError> {
        if rhs == 0 {
            Err(RuntimeError::IntegerDivideByZero)
        } else {
            Ok(signed_i64((unsigned_i64(self) % unsigned_i64(rhs)) as u64))
        }
    }

    open spec fn op_and(self, rhs: i64) -> i64 {
        self & rhs
    }

    open spec fn op_or(self, rhs: i64) -> i64 {
        self | rhs
    }

    open spec fn op_xor(self, rhs: i64) -> i64 {
        self ^ rhs
    }

    open spec fn op_shl(self, rhs: i64) -> i64 {
        signed_i64(unsigned_i64(self) << (unsigned_i64(rhs) % 64))
    }

    open spec fn op_shr_s(self, rhs: i64) -> i64 {
        self >> (unsigned_i64(rhs) % 64)
    }

    open spec fn op_shr_u(self, rhs: i64) -> i64 {
        signed_i64(unsigned_i64(self) >> (unsigned_i64(rhs) % 64))
    }

    open spec fn op_rotl(self, rhs: i64) -> i64 {
        signed_i64(rotl_u64(unsigned_i64(self), unsigned_i64(rhs) % 64))
    }

    open spec fn op_rotr(self, rhs: i64) -> i64 {
        signed_i64(rotl_u64(unsigned_i64(self), ((64 - unsigned_i64(rhs) % 64) % 64) as u64))
    }

    fn add(&self, rhs: i64) -> (r: Result<i64, RuntimeError>) {
        Ok(self.wrapping_add(rhs))
    }

    fn sub(&self, rhs: i64) -> (r: Result<i64, RuntimeError>) {
        Ok(self.wrapping_sub(rhs))
    }

    fn mul(&self, rhs: i64) -> (r: Result<i64, RuntimeError>) {
        Ok(self.wrapping_mul(rhs))
    }

    fn div_s(&self, rhs: i64) -> (r: Result<i64, RuntimeError>) {
        if rhs == 0 {
            return Err(RuntimeError::IntegerDivideByZero);
        }
        if *self == i64::MIN && rhs == -1 {
            return Err(RuntimeError::DivisionOverflow);
        }
        proof {
            lemma_trunc_div_bound_i64(*self, rhs);
        }
        match self.checked_div(rhs) {
            Some(v) => Ok(v),
            None => Err(RuntimeError::DivisionOverflow),
        }
    }

    fn div_u(&self, rhs: i64) -> (r: Result<i64, RuntimeError>) {
        if rhs == 0 {
            return Err(RuntimeError::IntegerDivideByZero);
        }
        Ok(to_signed_i64(to_unsigned_i64(*self) / to_unsigned_i64(rhs)))
    }

    fn rem_s(&self, rhs: i64) -> (r: Result<i64, RuntimeError>) {
        if rhs == 0 {
            return Err(RuntimeError::IntegerDivideByZero);
        }
        if rhs == -1 {
            return Ok(0);
        }
        match self.checked_rem(rhs) {
            Some(v) => Ok(v),
            None => Ok(0),
        }
    }

    fn rem_u(&self, rhs: i64) -> (r: Result<i64, RuntimeError>) {
        if rhs == 0 {
            return Err(RuntimeError::IntegerDivideByZero);
        }
        Ok(to_signed_i64(to_unsigned_i64(*self) % to_unsigned_i64(rhs)))
    }

    fn and(&self, rhs: i64) -> (r: Result<i64, RuntimeError>) {
        Ok(*self & rhs)
    }

    fn or(&self, rhs: i64) -> (r: Result<i64, RuntimeError>) {
        Ok(*self | rhs)
    }

    fn xor(&self, rhs: i64) -> (r: Result<i64, RuntimeError>) {
        Ok(*self ^ rhs)
    }

    fn shl(&self, rhs: i64) -> (r: Result<i64, RuntimeError>) {
        let k = to_unsigned_i64(rhs) % 64;
        Ok(to_signed_i64(to_unsigned_i64(*self) << k))
    }

    fn shr_s(&self, rhs: i64) -> (r: Result<i64, RuntimeError>) {
        let k = to_unsigned_i64(rhs) % 64;
        Ok(*self >> k)
    }

    fn shr_u(&self, rhs: i64) -> (r: Result<i64, RuntimeError>) {
        let k = to_unsigned_i64(rhs) % 64;
        Ok(to_signed_i64(to_unsigned_i64(*self) >> k))
    }

    fn rotl(&self, rhs: i64) -> (r: Result<i64, RuntimeError>) {
        let k = to_unsigned_i64(rhs) % 64;
        let x = to_unsigned_i64(*self);
        let v = if k == 0 {
            x
        } else {
            (x << k) | (x >> (64 - k))
        };
        Ok(to_signed_i64(v))
    }

    fn rotr(&self, rhs: i64) -> (r: Result<i64, RuntimeError>) {
        let k = (64 - to_unsigned_i64(rhs) % 64) % 64;
        let x = to_unsigned_i64(*self);
        let v = if k == 0 {
            x
        } else {
            (x << k) | (x >> (64 - k))
        };
        Ok(to_signed_i64(v))
    }
}

impl Irelop for i64 {
    fn equal(&self, rhs: i64) -> (r: Result<i32, RuntimeError>) {
        Ok(if *self == rhs { 1 } else { 0 })
    }

    fn not_equal(&self, rhs: i64) -> (r: Result<i32, RuntimeError>) {
        Ok(if *self != rhs { 1 } else { 0 })
    }

    fn lt_s(&self, rhs: i64) -> (r: Result<i32, RuntimeError>) {
        Ok(if *self < rhs { 1 } else { 0 })
    }

    fn lt_u(&self, rhs: i64) -> (r: Result<i32, RuntimeError>) {
        Ok(if to_unsigned_i64(*self) < to_unsigned_i64(rhs) { 1 } else { 0 })
    }

    fn gt_s(&self, rhs: i64) -> (r: Result<i32, RuntimeError>) {
        Ok(if *self > rhs { 1 } else { 0 })
    }

    fn gt_u(&self, rhs: i64) -> (r: Result<i32, RuntimeError>) {
        Ok(if to_unsigned_i64(*self) > to_unsigned_i64(rhs) { 1 } else { 0 })
    }

    fn le_s(&self, rhs: i64) -> (r: Result<i32, RuntimeError>) {
        Ok(if *self <= rhs { 1 } else { 0 })
    }

    fn le_u(&self, rhs: i64) -> (r: Result<i32, RuntimeError>) {
        Ok(if to_unsigned_i64(*self) <= to_unsigned_i64(rhs) { 1 } else { 0 })
    }

    fn ge_s(&self, rhs: i64) -> (r: Result<i32, RuntimeError>) {
        Ok(if *self >= rhs { 1 } else { 0 })
    }

    fn ge_u(&self, rhs: i64) -> (r: Result<i32, RuntimeError>) {
        Ok(if to_unsigned_i64(*self) >= to_unsigned_i64(rhs) { 1 } else { 0 })
    }

    open spec fn as_signed(self) -> int {
        self as int
    }

    open spec fn as_unsigned(self) -> int {
        unsigned_i64(self) as int
    }
}

impl Itestop for i64 {
    open spec fn is_zero(self) -> bool {
        self == 0
    }

    fn eqz(&self) -> (r: Result<i32, RuntimeError>) {
        Ok(if *self == 0 { 1 } else { 0 })
    }
}

/// The number of one bits of `x`.
pub fn popcnt_i64(x: i64) -> (r: i64)
    ensures
        r == popcount_u64(unsigned_i64(x), 64),
{
    popcnt_u64(to_unsigned_i64(x)) as i64
}

} // verus!
