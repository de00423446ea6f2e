//! First-order (PT1) exponential smoothing.
//!
//! One update moves a value toward a target by the fraction
//! `dt / (tau + dt)` of the remaining gap, rounding toward zero. With a
//! positive time constant `tau` the value approaches the target from its
//! own side and never overshoots; with `tau == 0` the target is taken on
//! immediately. Because the arithmetic is integral, repeated updates
//! settle inside a band of width about `tau / dt` around the target
//! rather than exactly on it; `lemma_pt1_convergence` bounds that band.

use vstd::prelude::*;

use crate::num::{mul_div, mul_div_spec, val_ok, VAL_MAX};
use crate::num::{lemma_mul_div_contracts, lemma_mul_div_identity};

verus! {

/// The value one PT1 update yields: the current value `u` moved toward
/// the target `y` by `dt / (tau + dt)` of the gap, rounded toward zero.
pub open spec fn pt1_next(u: int, y: int, tau: int, dt: int) -> int
    recommends
        tau >= 0,
        tau + dt >= 1,
{
    if y >= u {
        u + mul_div_spec(y - u, dt, tau + dt)
    } else {
        u - mul_div_spec(u - y, dt, tau + dt)
    }
}

/// The value after `n` PT1 updates with a constant target and timestep.
pub open spec fn pt1_iter(u: int, y: int, tau: int, dt: int, n: nat) -> int
    decreases n,
{
    if n == 0 {
        u
    } else {
        pt1_next(pt1_iter(u, y, tau, dt, (n - 1) as nat), y, tau, dt)
    }
}

/// The gap below which an update may no longer make progress: once
/// `|y - u| <= pt1_band(tau, dt)`, the scaled gap can round to zero.
pub open spec fn pt1_band(tau: int, dt: int) -> int
    recommends
        dt >= 1,
{
    (tau + dt - 1) / dt
}

/// One smoothing update. The result lies between the current value and
/// the target, so a smoothed value never overshoots; a zero time
/// constant reproduces the target at once.
pub fn pt1_step(u: i64, y: i64, tau: i64, dt: i64) -> (r: i64)
    requires
        val_ok(u as int),
        val_ok(y as int),
        0 <= tau <= VAL_MAX,
        0 <= dt <= VAL_MAX,
        tau + dt >= 1,
    ensures
        r == pt1_next(u as int, y as int, tau as int, dt as int),
        u <= y ==> u <= r <= y,
        y <= u ==> y <= r <= u,
        tau == 0 ==> r == y,
        val_ok(r as int),
{
    proof {
        lemma_pt1_next_between(u as int, y as int, tau as int, dt as int);
        if tau == 0 {
            lemma_pt1_next_tau_zero(u as int, y as int, dt as int);
        }
    }
    if y >= u {
        u + mul_div(y - u, dt, tau + dt)
    } else {
        u - mul_div(u - y, dt, tau + dt)
    }
}

/// An update lands between the current value and the target.
pub proof fn lemma_pt1_next_between(u: int, y: int, tau: int, dt: int)
    requires
        tau >= 0,
        dt >= 0,
        tau + dt >= 1,
    ensures
        u <= y ==> u <= pt1_next(u, y, tau, dt) <= y,
        y <= u ==> y <= pt1_next(u, y, tau, dt) <= u,
{
    if y >= u {
        lemma_mul_div_contracts(y - u, dt, tau + dt);
    } else {
        lemma_mul_div_contracts(u - y, dt, tau + dt);
    }
}

/// With a zero time constant the update reproduces the target exactly.
pub proof fn lemma_pt1_next_tau_zero(u: int, y: int, dt: int)
    requires
        dt >= 1,
    ensures
        pt1_next(u, y, 0, dt) == y,
{
    if y >= u {
        lemma_mul_div_identity(y - u, dt);
    } else {
        lemma_mul_div_identity(u - y, dt);
    }
}

/// One update contracts the gap to the target by the factor
/// `tau / (tau + dt)`, up to one milli-unit of rounding: the
/// exponential decay rate of a first-order filter with time constant
/// `tau` sampled every `dt`.
pub proof fn lemma_pt1_contraction(u: int, y: int, tau: int, dt: int)
    requires
        tau >= 0,
        dt >= 1,
    ensures
        abs_gap(y, pt1_next(u, y, tau, dt)) <= mul_div_spec(abs_gap(y, u), tau, tau + dt) + 1,
{
    let d = tau + dt;
    let g = abs_gap(y, u);
    let q = (g * dt) / d;
    let r = (g * dt) % d;
    lemma_pt1_next_between(u, y, tau, dt);
    assert(g * dt >= 0) by (nonlinear_arith)
        requires
            g >= 0,
            dt >= 1,
    ;
    vstd::arithmetic::div_mod::lemma_fundamental_div_mod(g * dt, d);
    vstd::arithmetic::div_mod::lemma_mod_division_less_than_divisor(g * dt, d);
    vstd::arithmetic::div_mod::lemma_div_pos_is_pos(g * dt, d);
    if y >= u {
        assert((y - u) * dt == g * dt);
        assert(pt1_next(u, y, tau, dt) == u + q);
    } else {
        assert((u - y) * dt == g * dt);
        assert(pt1_next(u, y, tau, dt) == u - q);
    }
    assert(abs_gap(y, pt1_next(u, y, tau, dt)) == g - q);
    assert(g * tau == d * (g - q) - r) by (nonlinear_arith)
        requires
            g * dt == d * q + r,
            d == tau + dt,
    ;
    if r == 0 {
        vstd::arithmetic::div_mod::lemma_div_multiples_vanish(g - q, d);
        assert(g * tau == d * (g - q));
        assert((g * tau) / d == g - q);
    } else {
        assert(g * tau == (g - q - 1) * d + (d - r)) by (nonlinear_arith)
            requires
                g * tau == d * (g - q) - r,
        ;
        vstd::arithmetic::div_mod::lemma_fundamental_div_mod_converse_div(
            g * tau,
            d,
            g - q - 1,
            d - r,
        );
        assert((g * tau) / d == g - q - 1);
    }
    assert(g * tau >= 0) by (nonlinear_arith)
        requires
            g >= 0,
            tau >= 0,
    ;
}

/// One update shrinks a gap above the rounding band by at least one,
/// and never lets the gap grow.
proof fn lemma_pt1_next_gap(u: int, y: int, tau: int, dt: int)
    requires
        tau >= 0,
        dt >= 1,
    ensures
        abs_gap(y, pt1_next(u, y, tau, dt)) <= abs_gap(y, u),
        abs_gap(y, u) > pt1_band(tau, dt) ==> abs_gap(y, pt1_next(u, y, tau, dt)) <= abs_gap(
            y,
            u,
        ) - 1,
{
    let d = tau + dt;
    let g = abs_gap(y, u);
    lemma_pt1_next_between(u, y, tau, dt);
    if g > pt1_band(tau, dt) {
        let band = (tau + dt - 1) / dt;
        vstd::arithmetic::div_mod::lemma_fundamental_div_mod(tau + dt - 1, dt);
        assert(band * dt >= tau);
        assert(g * dt >= (band + 1) * dt) by (nonlinear_arith)
            requires
                g >= band + 1,
                dt >= 1,
        ;
        assert((band + 1) * dt == band * dt + dt) by (nonlinear_arith);
        assert(g * dt >= d);
        vstd::arithmetic::div_mod::lemma_div_is_ordered(d, g * dt, d);
        vstd::arithmetic::div_mod::lemma_div_by_self(d);
        if y >= u {
            assert((y - u) * dt == g * dt);
            assert(pt1_next(u, y, tau, dt) == u + (g * dt) / d);
        } else {
            assert((u - y) * dt == g * dt);
            assert(pt1_next(u, y, tau, dt) == u - (g * dt) / d);
        }
    }
}

/// The magnitude of the gap between a target and a value.
pub open spec fn abs_gap(y: int, u: int) -> int {
    if y >= u {
        y - u
    } else {
        u - y
    }
}

/// After `n` updates the gap to the target is at most the larger of
/// `|y - u| - n` and the rounding band: the filter closes in by at
/// least one milli-unit per update until it reaches the band.
proof fn lemma_pt1_gap_bound(u: int, y: int, tau: int, dt: int, n: nat)
    requires
        tau >= 0,
        dt >= 1,
    ensures
        abs_gap(y, pt1_iter(u, y, tau, dt, n)) <= abs_gap(y, u) - n
            || abs_gap(y, pt1_iter(u, y, tau, dt, n)) <= pt1_band(tau, dt),
    decreases n,
{
    if n > 0 {
        let prev = pt1_iter(u, y, tau, dt, (n - 1) as nat);
        lemma_pt1_gap_bound(u, y, tau, dt, (n - 1) as nat);
        lemma_pt1_next_gap(prev, y, tau, dt);
    }
}

/// PT1 convergence: with a positive timestep, after at least `|y - u|`
/// updates the value sits within the rounding band of the target. The
/// band is about `tau / dt`, so a finer timestep settles closer.
pub proof fn lemma_pt1_convergence(u: int, y: int, tau: int, dt: int, n: nat)
    requires
        tau >= 0,
        dt >= 1,
        n >= abs_gap(y, u),
    ensures
        abs_gap(y, pt1_iter(u, y, tau, dt, n)) <= pt1_band(tau, dt),
{
    lemma_pt1_gap_bound(u, y, tau, dt, n);
    vstd::arithmetic::div_mod::lemma_div_pos_is_pos(tau + dt - 1, dt);
}

/// Monotone approach: every iterate stays between the start value and
/// the target, so a value starting below a fixed target never exceeds it.
pub proof fn lemma_pt1_monotone(u: int, y: int, tau: int, dt: int, n: nat)
    requires
        tau >= 0,
        dt >= 1,
    ensures
        u <= y ==> u <= pt1_iter(u, y, tau, dt, n) <= y,
        y <= u ==> y <= pt1_iter(u, y, tau, dt, n) <= u,
    decreases n,
{
    if n > 0 {
        lemma_pt1_monotone(u, y, tau, dt, (n - 1) as nat);
        lemma_pt1_next_between(pt1_iter(u, y, tau, dt, (n - 1) as nat), y, tau, dt);
    }
}

} // verus!
