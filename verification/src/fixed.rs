//! Fixed-point arithmetic for the simulation.
//!
//! Every physical quantity (position, velocity, temperature, lifetime, size,
//! elapsed time, configuration parameter) is an `i64` counting steps of
//! `1 / SCALE` of a simulation unit. A product of two fixed-point values is
//! scaled back down with a truncating division by `SCALE`, so the magnitude
//! of a scaled product never exceeds the magnitude of the raw product.

use vstd::prelude::*;
use vstd::arithmetic::div_mod::lemma_fundamental_div_mod;
use vstd::arithmetic::div_mod::lemma_div_pos_is_pos;
use vstd::pervasive::unreached;

verus! {

/// Fixed-point steps per simulation unit.
pub const SCALE: i64 = 600;

/// Magnitude of a mathematical integer.
pub open spec fn iabs(a: int) -> int {
    if a >= 0 {
        a
    } else {
        -a
    }
}

/// Division that truncates toward zero, as `i64` division does.
pub open spec fn tdiv(a: int, b: int) -> int
    recommends
        b > 0,
{
    if a >= 0 {
        a / b
    } else {
        -((-a) / b)
    }
}

/// Division toward zero never grows a magnitude, and the divisor scales the
/// quotient's magnitude down to at most the dividend's.
pub proof fn lemma_tdiv_bounds(a: int, b: int)
    requires
        b >= 1,
    ensures
        b * iabs(tdiv(a, b)) <= iabs(a),
        iabs(tdiv(a, b)) <= iabs(a),
{
    let m = iabs(a);
    lemma_fundamental_div_mod(m, b);
    lemma_div_pos_is_pos(m, b);
    assert(b * (m / b) <= m);
    assert(iabs(tdiv(a, b)) == m / b);
    assert(m / b <= b * (m / b)) by (nonlinear_arith)
        requires
            b >= 1,
            m / b >= 0;
}

/// Bounds on two factors bound their product.
pub proof fn lemma_mul_bounds(a: int, ca: int, b: int, cb: int)
    requires
        -ca <= a <= ca,
        0 <= b <= cb,
    ensures
        -(ca * b) <= a * b <= ca * b,
        -(ca * cb) <= a * b <= ca * cb,
        iabs(a * b) <= ca * cb,
        iabs(a * b) <= ca * b,
{
    assert(-(ca * b) <= a * b <= ca * b && ca * b <= ca * cb && 0 <= ca * b) by (nonlinear_arith)
        requires
            -ca <= a <= ca,
            0 <= b <= cb;
}

/// A velocity bounded at spawn time may drift each tick, but every tick of
/// drift drains life in proportion; the drift a value has accumulated is
/// therefore paid for by the life its particle has already spent. Slack is
/// measured in life units, magnitudes and bases in fixed-point steps, and the
/// numeric factors are the aging rate (ten life units per second) times the
/// fixed-point scale.
pub proof fn lemma_drift_budget(av: int, adv: int, base: int, rate: int, slack: int, dt: int)
    by (nonlinear_arith)
    requires
        0 <= av,
        0 <= adv,
        0 <= dt,
        0 <= rate,
        0 <= slack,
        6000 * av <= 6000 * base + rate * slack,
        600 * adv <= rate * dt,
    ensures
        6000 * (av + adv) <= 6000 * base + rate * (slack + 10 * dt),
{
}

/// A non-negative value is no larger than itself scaled by a positive factor.
pub proof fn lemma_le_self_mul(b: int, v: int)
    by (nonlinear_arith)
    requires
        1 <= b,
        0 <= v,
    ensures
        v <= b * v,
{
}

/// A common positive factor can be cancelled from an inequality.
pub proof fn lemma_mul_cancel_le(b: int, v: int, cap: int)
    by (nonlinear_arith)
    requires
        1 <= b,
        b * v <= b * cap,
    ensures
        v <= cap,
{
}

/// Multiply two fixed-point values and scale the result back down.
pub fn fx_mul(a: i64, b: i64) -> (r: i64)
    requires
        iabs(a as int * b as int) <= i64::MAX as int,
    ensures
        r == tdiv(a as int * b as int, SCALE as int),
        SCALE * iabs(r as int) <= iabs(a as int * b as int),
        iabs(r as int) <= iabs(a as int * b as int),
        a as int * b as int >= 0 ==> r >= 0,
{
    proof {
        lemma_tdiv_bounds(a as int * b as int, SCALE as int);
    }
    let p: i64 = a * b;
    match p.checked_div(SCALE) {
        Some(r) => r,
        // The divisor is positive and truncation shrinks magnitudes, so the
        // division cannot fail.
        None => unreached(),
    }
}

/// Truncating division of a fixed-point value by a positive divisor.
pub fn fx_div(a: i64, b: i64) -> (r: i64)
    requires
        b >= 1,
    ensures
        r == tdiv(a as int, b as int),
        b * iabs(r as int) <= iabs(a as int),
        iabs(r as int) <= iabs(a as int),
        a >= 0 ==> r >= 0,
{
    proof {
        lemma_tdiv_bounds(a as int, b as int);
    }
    match a.checked_div(b) {
        Some(r) => r,
        // The divisor is positive and truncation shrinks magnitudes, so the
        // division cannot fail.
        None => unreached(),
    }
}

} // verus!
