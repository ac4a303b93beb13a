//! Fixed-point scalar arithmetic.
//!
//! A quantity is stored as an `i64` holding its value times [`SCALE`]
//! (milliunits).  Updates that could leave the `i64` range saturate at the
//! range ends, and divisions truncate toward zero; the specification
//! functions [`sat64`] and [`tdiv`] name those two roundings, so every
//! contract in the crate can state the computed value exactly.

use vstd::prelude::*;

verus! {

use vstd::arithmetic::div_mod::lemma_fundamental_div_mod;
use vstd::arithmetic::div_mod::lemma_mod_bound;

/// One unit, in fixed-point representation.
pub const SCALE: i64 = 1000;

/// Clamp an unbounded integer into the `i64` range.
pub open spec fn sat64(x: int) -> int {
    if x > i64::MAX {
        i64::MAX as int
    } else if x < i64::MIN {
        i64::MIN as int
    } else {
        x
    }
}

/// Division truncating toward zero, for a positive divisor; this is the
/// rounding the executable code performs.
pub open spec fn tdiv(a: int, b: int) -> int {
    if a >= 0 {
        a / b
    } else {
        -((-a) / b)
    }
}

/// Saturated sum of two fixed-point numbers.
pub open spec fn s_add(a: int, b: int) -> int {
    sat64(a + b)
}

/// Saturated difference of two fixed-point numbers.
pub open spec fn s_sub(a: int, b: int) -> int {
    sat64(a - b)
}

/// Saturated product of two fixed-point numbers (`a * b / SCALE`).
pub open spec fn s_mul(a: int, b: int) -> int {
    sat64(tdiv(a * b, SCALE as int))
}

/// Clamp `x` into `[lo, hi]`.
pub open spec fn clamp_int(x: int, lo: int, hi: int) -> int {
    if x < lo {
        lo
    } else if x > hi {
        hi
    } else {
        x
    }
}

/// The truncated quotient, scaled back up, lands within one divisor of the
/// dividend: `a - b < tdiv(a, b) * b < a + b`.
pub proof fn lemma_tdiv_close(a: int, b: int)
    requires
        b > 0,
    ensures
        a - b < tdiv(a, b) * b < a + b,
        a >= 0 ==> 0 <= tdiv(a, b) <= a,
        a < 0 ==> a <= tdiv(a, b) <= 0,
{
    if a >= 0 {
        let q = a / b;
        let r = a % b;
        lemma_fundamental_div_mod(a, b);
        lemma_mod_bound(a, b);
        assert(a - b < q * b <= a && 0 <= q <= a) by (nonlinear_arith)
            requires
                a == b * q + r,
                0 <= r < b,
                a >= 0,
        {}
        assert(tdiv(a, b) == q);
    } else {
        let n = -a;
        let q = n / b;
        let r = n % b;
        lemma_fundamental_div_mod(n, b);
        lemma_mod_bound(n, b);
        assert(n - b < q * b <= n && 0 <= q <= n) by (nonlinear_arith)
            requires
                n == b * q + r,
                0 <= r < b,
                n > 0,
        {}
        assert(tdiv(a, b) == -q);
        assert((-q) * b == -(q * b)) by (nonlinear_arith) {}
    }
}

/// The product of two `i64` values stays well inside the `i128` range.
pub proof fn lemma_mul_i64_bounds(a: int, b: int)
    requires
        i64::MIN <= a <= i64::MAX,
        i64::MIN <= b <= i64::MAX,
    ensures
        -0x40000000000000000000000000000000 <= a * b
            <= 0x40000000000000000000000000000000,
{
    assert(-0x40000000000000000000000000000000 <= a * b
        <= 0x40000000000000000000000000000000) by (nonlinear_arith)
        requires
            -0x8000000000000000 <= a <= 0x7fffffffffffffff,
            -0x8000000000000000 <= b <= 0x7fffffffffffffff,
    {}
}

/// Truncating division of an `i128` by a positive divisor.
pub(crate) fn tdiv_i128(a: i128, b: i128) -> (r: i128)
    requires
        b > 0,
        a > i128::MIN,
    ensures
        r == tdiv(a as int, b as int),
        a >= 0 ==> 0 <= r <= a,
        a < 0 ==> a <= r <= 0,
{
    proof {
        lemma_tdiv_close(a as int, b as int);
    }
    if a >= 0 {
        let q: u128 = (a as u128) / (b as u128);
        q as i128
    } else {
        let n: i128 = -a;
        proof {
            lemma_tdiv_close(n as int, b as int);
        }
        let q: u128 = (n as u128) / (b as u128);
        -(q as i128)
    }
}

/// Saturate an `i128` into the `i64` range.
pub(crate) fn sat_i128(x: i128) -> (r: i64)
    ensures
        r as int == sat64(x as int),
{
    if x > i64::MAX as i128 {
        i64::MAX
    } else if x < i64::MIN as i128 {
        i64::MIN
    } else {
        x as i64
    }
}

/// Saturated fixed-point sum.
pub fn sat_add64(a: i64, b: i64) -> (r: i64)
    ensures
        r as int == s_add(a as int, b as int),
{
    sat_i128((a as i128) + (b as i128))
}

/// Saturated fixed-point difference.
pub fn sat_sub64(a: i64, b: i64) -> (r: i64)
    ensures
        r as int == s_sub(a as int, b as int),
{
    sat_i128((a as i128) - (b as i128))
}

/// Saturated fixed-point product: `a * b / SCALE`, truncated toward zero.
pub fn mul_milli(a: i64, b: i64) -> (r: i64)
    ensures
        r as int == s_mul(a as int, b as int),
{
    proof {
        lemma_mul_i64_bounds(a as int, b as int);
    }
    sat_i128(tdiv_i128((a as i128) * (b as i128), SCALE as i128))
}

/// Truncating division of fixed-point numbers by a positive divisor.
pub fn tdiv64(a: i64, b: i64) -> (r: i64)
    requires
        b > 0,
    ensures
        r as int == tdiv(a as int, b as int),
{
    let q: i128 = tdiv_i128(a as i128, b as i128);
    q as i64
}

/// A fixed-point count of `x`, rounded away from zero to a whole number of
/// units: the magnitude is divided by `SCALE` and rounded up, the sign kept.
pub open spec fn round_away_spec(x: int) -> int {
    if x >= 0 {
        (x + SCALE - 1) / (SCALE as int)
    } else {
        -(((-x) + SCALE - 1) / (SCALE as int))
    }
}

/// Round a fixed-point number away from zero to a whole count of units.
pub fn round_away(x: i64) -> (r: i64)
    ensures
        r as int == round_away_spec(x as int),
{
    if x >= 0 {
        proof {
            lemma_tdiv_close(x + SCALE - 1, SCALE as int);
        }
        let q: i128 = tdiv_i128((x as i128) + (SCALE as i128) - 1, SCALE as i128);
        q as i64
    } else {
        let n: i128 = -(x as i128);
        let q: i128 = tdiv_i128(n + (SCALE as i128) - 1, SCALE as i128);
        proof {
            lemma_tdiv_close(n + SCALE - 1, SCALE as int);
        }
        (-q) as i64
    }
}

/// Where an index lands after moving `n` steps and being clamped into
/// `[0, dim - 1]` (or to `0` when the extent is empty).
pub open spec fn clamp_index_spec(cur: int, n: int, dim: int) -> int {
    clamp_int(cur + n, 0, if dim >= 1 {
        dim - 1
    } else {
        0
    })
}

/// Move an index by `n` steps, clamped into the extent `dim`.
pub fn clamp_index(cur: u32, n: i64, dim: u32) -> (r: u32)
    ensures
        r as int == clamp_index_spec(cur as int, n as int, dim as int),
        dim >= 1 ==> r < dim,
        dim == 0 ==> r == 0,
{
    let hi: u32 = if dim >= 1 {
        dim - 1
    } else {
        0
    };
    let v: i128 = (cur as i128) + (n as i128);
    if v < 0 {
        0
    } else if v > hi as i128 {
        hi
    } else {
        v as u32
    }
}

} // verus!
