//! Fixed-point scalar arithmetic.
//!
//! Every animated quantity in this crate is an `i64` in milli-units:
//! the value `1000` stands for one unit (`UNIT`). All values the engines
//! touch are kept inside `[-VAL_MAX, VAL_MAX]`, which leaves ample
//! headroom for the products that the filter and interpolation code form.

use vstd::prelude::*;

verus! {

/// One unit in milli-units: the fixed-point image of 1.0.
pub const UNIT: i64 = 1000;

/// Largest magnitude an animated scalar may take (one million units).
pub const VAL_MAX: i64 = 1_000_000_000;

/// A scalar the engines may hold: bounded so that sums and the products
/// formed by `mul_div` stay well inside the `i64` range.
pub open spec fn val_ok(v: int) -> bool {
    -VAL_MAX <= v <= VAL_MAX
}

/// Integer division rounding toward zero, on a positive divisor.
/// This is the rounding that the executable code performs.
pub open spec fn div_toward_zero(a: int, d: int) -> int
    recommends
        d >= 1,
{
    if a >= 0 {
        a / d
    } else {
        -((-a) / d)
    }
}

/// `a * b / d`, rounding toward zero: the exact value computed by `mul_div`.
pub open spec fn mul_div_spec(a: int, b: int, d: int) -> int
    recommends
        d >= 1,
{
    div_toward_zero(a * b, d)
}

/// Addition clamped to `[-VAL_MAX, VAL_MAX]`: running accumulators
/// saturate at the representable bound instead of wrapping.
pub open spec fn sat_add_spec(a: int, b: int) -> int {
    if a + b > VAL_MAX {
        VAL_MAX as int
    } else if a + b < -VAL_MAX {
        -VAL_MAX as int
    } else {
        a + b
    }
}

/// Computes `a * b / d` rounded toward zero, without overflow.
pub fn mul_div(a: i64, b: i64, d: i64) -> (r: i64)
    requires
        -2 * VAL_MAX <= a <= 2 * VAL_MAX,
        0 <= b <= VAL_MAX,
        1 <= d,
    ensures
        r == mul_div_spec(a as int, b as int, d as int),
{
    proof {
        assert(-2_000_000_000_000_000_000 <= a * b <= 2_000_000_000_000_000_000)
            by (nonlinear_arith)
            requires
                -2 * VAL_MAX <= a <= 2 * VAL_MAX,
                0 <= b <= VAL_MAX,
        ;
    }
    let prod: i64 = a * b;
    if prod >= 0 {
        proof {
            vstd::arithmetic::div_mod::lemma_div_nonincreasing(prod as int, d as int);
            vstd::arithmetic::div_mod::lemma_div_pos_is_pos(prod as int, d as int);
        }
        ((prod as u64) / (d as u64)) as i64
    } else {
        let neg: i64 = -prod;
        proof {
            vstd::arithmetic::div_mod::lemma_div_nonincreasing(neg as int, d as int);
            vstd::arithmetic::div_mod::lemma_div_pos_is_pos(neg as int, d as int);
        }
        -((((neg) as u64) / (d as u64)) as i64)
    }
}

/// Adds two bounded scalars, saturating at the representable bound.
pub fn sat_add(a: i64, b: i64) -> (r: i64)
    requires
        val_ok(a as int),
        val_ok(b as int),
    ensures
        r == sat_add_spec(a as int, b as int),
        val_ok(r as int),
{
    let s: i64 = a + b;
    if s > VAL_MAX {
        VAL_MAX
    } else if s < -VAL_MAX {
        -VAL_MAX
    } else {
        s
    }
}

/// Scaling by a factor `b/d` with `0 <= b <= d` never grows a value's
/// magnitude, and keeps its sign.
pub proof fn lemma_mul_div_contracts(a: int, b: int, d: int)
    requires
        1 <= d,
        0 <= b <= d,
    ensures
        a >= 0 ==> 0 <= mul_div_spec(a, b, d) <= a,
        a < 0 ==> a <= mul_div_spec(a, b, d) <= 0,
{
    if a >= 0 {
        assert(0 <= a * b <= a * d) by (nonlinear_arith)
            requires
                a >= 0,
                0 <= b <= d,
        ;
        vstd::arithmetic::div_mod::lemma_div_pos_is_pos(a * b, d);
        vstd::arithmetic::div_mod::lemma_div_is_ordered(a * b, a * d, d);
        vstd::arithmetic::div_mod::lemma_div_multiples_vanish(a, d);
        assert(a * d == d * a) by (nonlinear_arith);
    } else {
        let n = -a;
        assert(0 <= n * b <= n * d) by (nonlinear_arith)
            requires
                n > 0,
                0 <= b <= d,
        ;
        vstd::arithmetic::div_mod::lemma_div_pos_is_pos(n * b, d);
        vstd::arithmetic::div_mod::lemma_div_is_ordered(n * b, n * d, d);
        vstd::arithmetic::div_mod::lemma_div_multiples_vanish(n, d);
        assert(n * d == d * n) by (nonlinear_arith);
        assert(a * b == -(n * b)) by (nonlinear_arith)
            requires
                n == -a,
        ;
    }
}

/// For a non-negative value, scaling grows with the numerator of the
/// factor.
pub proof fn lemma_mul_div_monotone(a: int, b1: int, b2: int, d: int)
    requires
        1 <= d,
        0 <= a,
        0 <= b1 <= b2,
    ensures
        mul_div_spec(a, b1, d) <= mul_div_spec(a, b2, d),
{
    assert(0 <= a * b1 <= a * b2) by (nonlinear_arith)
        requires
            0 <= a,
            0 <= b1 <= b2,
    ;
    vstd::arithmetic::div_mod::lemma_div_is_ordered(a * b1, a * b2, d);
}

/// Scaling by the factor `d/d` is the identity, whatever the sign of `a`.
pub proof fn lemma_mul_div_identity(a: int, d: int)
    requires
        1 <= d,
    ensures
        mul_div_spec(a, d, d) == a,
{
    if a >= 0 {
        vstd::arithmetic::div_mod::lemma_div_multiples_vanish(a, d);
        assert(a * d == d * a) by (nonlinear_arith);
    } else {
        let n = -a;
        vstd::arithmetic::div_mod::lemma_div_multiples_vanish(n, d);
        assert(n * d == d * n) by (nonlinear_arith);
        assert(a * d == -(n * d)) by (nonlinear_arith)
            requires
                n == -a,
        ;
    }
}

/// When `d` divides `a`, scaling distributes exactly:
/// `a * b / d == (a / d) * b`.
pub proof fn lemma_mul_div_exact(a: int, b: int, d: int)
    requires
        1 <= d,
        0 <= b,
        a % d == 0,
    ensures
        mul_div_spec(a, b, d) == (a / d) * b,
{
    let q = a / d;
    vstd::arithmetic::div_mod::lemma_fundamental_div_mod(a, d);
    assert(a == d * q);
    if a >= 0 {
        assert(a * b == d * (q * b)) by (nonlinear_arith)
            requires
                a == d * q,
        ;
        vstd::arithmetic::div_mod::lemma_div_multiples_vanish(q * b, d);
    } else {
        assert((-a) * b == d * ((-q) * b)) by (nonlinear_arith)
            requires
                a == d * q,
        ;
        vstd::arithmetic::div_mod::lemma_div_multiples_vanish((-q) * b, d);
        assert(a * b == -((-a) * b)) by (nonlinear_arith);
        assert(-((-q) * b) == q * b) by (nonlinear_arith);
    }
}

} // verus!
