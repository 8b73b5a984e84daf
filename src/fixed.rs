//! Fixed-point scalars and angles.
//!
//! Every length, factor, time and input value of the library is an `i64`
//! counting millionths of a unit: `ONE` stands for 1.0. Angles count
//! millionths of a degree, so that a full turn is `FULL_TURN`.
use vstd::prelude::*;
use vstd::arithmetic::div_mod::{lemma_mod_multiples_vanish, lemma_mod_bound, lemma_div_nonincreasing};

verus! {

/// The fixed-point representation of 1.0.
pub const ONE: i64 = 1_000_000;

/// Largest magnitude accepted for a stored length, factor, time or input value.
pub const LIMIT: i64 = 1_000_000_000_000;

/// Largest magnitude of an intermediate product handled by the wide helpers.
pub const WIDE: i128 = 1_000_000_000_000_000_000_000_000_000_000_000_000;

/// One full turn, in millionths of a degree.
pub const FULL_TURN: i64 = 360_000_000;

/// Half a turn.
pub const HALF_TURN: i64 = 180_000_000;

/// A quarter turn: the angle between the horizon and either pole.
pub const QUARTER_TURN: i64 = 90_000_000;

/// A multiple of `FULL_TURN` larger than `WIDE`, used to shift angles into
/// the non-negative range before taking a remainder.
const ANGLE_SHIFT: i128 = 36_000_000_000_000_000_000_000_000_000_000_000_000;

/// Is `v` a magnitude that the library stores?
pub open spec fn within_limit(v: int) -> bool {
    -LIMIT <= v <= LIMIT
}

/// Division rounding toward zero, for a positive divisor.
pub open spec fn trunc_div(n: int, d: int) -> int {
    if n >= 0 {
        n / d
    } else {
        -((-n) / d)
    }
}

/// `v` brought into `[lo, hi]`.
pub open spec fn clamp(v: int, lo: int, hi: int) -> int {
    if v < lo {
        lo
    } else if v > hi {
        hi
    } else {
        v
    }
}

/// The product of two fixed-point values, rounded toward zero.
pub open spec fn fixed_mul(a: int, b: int) -> int {
    trunc_div(a * b, ONE as int)
}

/// An angle reduced to `[0, FULL_TURN)`.
pub open spec fn turn_angle(a: int) -> int {
    a % (FULL_TURN as int)
}

/// An angle reduced to `[-HALF_TURN, HALF_TURN)`.
pub open spec fn signed_angle(a: int) -> int {
    (a + HALF_TURN) % (FULL_TURN as int) - HALF_TURN
}

pub proof fn lemma_trunc_div_bound(n: int, d: int)
    requires
        d > 0,
    ensures
        n >= 0 ==> 0 <= trunc_div(n, d) <= n,
        n < 0 ==> n <= trunc_div(n, d) <= 0,
{
    if n >= 0 {
        lemma_div_nonincreasing(n, d);
        assert(n / d >= 0) by (nonlinear_arith)
            requires
                n >= 0,
                d > 0,
        ;
    } else {
        lemma_div_nonincreasing(-n, d);
        assert((-n) / d >= 0) by (nonlinear_arith)
            requires
                -n >= 0,
                d > 0,
        ;
    }
}

/// A bound on a product from bounds on its factors.
pub proof fn lemma_mul_bound(a: int, b: int, la: int, lb: int)
    requires
        -la <= a <= la,
        -lb <= b <= lb,
    ensures
        -(la * lb) <= a * b <= la * lb,
{
    assert(-(la * lb) <= a * b <= la * lb) by (nonlinear_arith)
        requires
            -la <= a <= la,
            -lb <= b <= lb,
    ;
}

/// Division of a wide value rounding toward zero.
pub fn div_toward_zero(n: i128, d: i128) -> (r: i128)
    requires
        d > 0,
        -WIDE <= n <= WIDE,
    ensures
        r == trunc_div(n as int, d as int),
        n >= 0 ==> 0 <= r <= n,
        n < 0 ==> n <= r <= 0,
{
    proof {
        lemma_trunc_div_bound(n as int, d as int);
    }
    if n >= 0 {
        n / d
    } else {
        let m = -n;
        -(m / d)
    }
}

/// `v` brought into `[lo, hi]`.
pub fn clamp_wide(v: i128, lo: i64, hi: i64) -> (r: i64)
    requires
        lo <= hi,
    ensures
        r == clamp(v as int, lo as int, hi as int),
{
    if v < lo as i128 {
        lo
    } else if v > hi as i128 {
        hi
    } else {
        v as i64
    }
}

/// An angle reduced to `[0, FULL_TURN)`.
pub fn wrap_turn(a: i128) -> (r: i64)
    requires
        -WIDE - HALF_TURN <= a <= WIDE + HALF_TURN,
    ensures
        r == turn_angle(a as int),
        0 <= r < FULL_TURN,
{
    let shifted: i128 = a + ANGLE_SHIFT;
    let m: i128 = shifted % (FULL_TURN as i128);
    proof {
        lemma_mod_multiples_vanish(100_000_000_000_000_000_000_000_000_000, a as int, FULL_TURN as int);
        assert(ANGLE_SHIFT == FULL_TURN * 100_000_000_000_000_000_000_000_000_000);
        lemma_mod_bound(a as int, FULL_TURN as int);
    }
    m as i64
}

/// An angle reduced to `[-HALF_TURN, HALF_TURN)`.
pub fn wrap_signed(a: i128) -> (r: i64)
    requires
        -WIDE <= a <= WIDE,
    ensures
        r == signed_angle(a as int),
        -HALF_TURN <= r < HALF_TURN,
{
    let t = wrap_turn(a + HALF_TURN as i128);
    t - HALF_TURN
}

} // verus!
