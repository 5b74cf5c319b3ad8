//! Saturating fixed-point scalar arithmetic.
//!
//! Every world quantity (distance, speed, angle, health, energy, reward) is
//! an `i64` holding micro-units: [`FX_ONE`] is one world unit. All values the
//! engine keeps are confined to the working range `[-FX_LIMIT, FX_LIMIT]`;
//! an operation whose exact result would leave that range saturates at the
//! boundary. Saturation is the engine's safe default for degenerate
//! numeric cases: the tick loop has no error channel, so no operation here
//! can fail or panic.

use vstd::prelude::*;

verus! {

use vstd::arithmetic::div_mod::lemma_div_is_ordered;
use vstd::arithmetic::div_mod::lemma_div_pos_is_pos;
use vstd::arithmetic::div_mod::lemma_div_by_multiple;
use vstd::math::abs;

/// One world unit in fixed-point micro-units.
pub const FX_ONE: i64 = 1_000_000;

/// Bound of the working range: one thousand world units.
pub const FX_LIMIT: i64 = 1_000_000_000;

/// A scalar lies in the engine's working range.
pub open spec fn fx_ok(x: i64) -> bool {
    -FX_LIMIT <= x <= FX_LIMIT
}

/// Saturation to the working range.
pub open spec fn sat_spec(x: int) -> int {
    if x > FX_LIMIT {
        FX_LIMIT as int
    } else if x < -(FX_LIMIT as int) {
        -(FX_LIMIT as int)
    } else {
        x
    }
}

/// Round-toward-zero division by a positive divisor, the rounding the
/// executable scalar operations use.
pub open spec fn div_trunc(a: int, b: int) -> int {
    if a >= 0 {
        a / b
    } else {
        -((-a) / b)
    }
}

/// Saturating fixed-point sum.
pub open spec fn fadd(a: int, b: int) -> int {
    sat_spec(a + b)
}

/// Saturating fixed-point difference.
pub open spec fn fsub(a: int, b: int) -> int {
    sat_spec(a - b)
}

/// Saturating fixed-point product: `a * b` rescaled by one unit.
pub open spec fn fmul(a: int, b: int) -> int {
    sat_spec(div_trunc(a * b, FX_ONE as int))
}

/// Saturating fixed-point quotient: the ratio `a / b` scaled to one unit,
/// for a positive divisor.
pub open spec fn fdiv(a: int, b: int) -> int {
    sat_spec(div_trunc(a * FX_ONE, b))
}

/// Clamping into an arbitrary interval.
pub open spec fn clamp_spec(x: int, lo: int, hi: int) -> int {
    if x < lo {
        lo
    } else if x > hi {
        hi
    } else {
        x
    }
}

/// Magnitude bound of a truncated quotient: dividing by a positive
/// divisor never grows the magnitude and respects `m / b` bounds.
pub proof fn lemma_div_trunc_range(a: int, b: int, m: int)
    requires
        b > 0,
        0 <= m,
        -m <= a <= m,
    ensures
        -(m / b) <= div_trunc(a, b) <= m / b,
        abs(div_trunc(a, b)) <= m,
{
    if a >= 0 {
        lemma_div_pos_is_pos(a, b);
        lemma_div_is_ordered(a, m, b);
        lemma_div_is_ordered(0, a, b);
        assert(m / b <= m) by (nonlinear_arith)
            requires b > 0, 0 <= m,
        ;
    } else {
        lemma_div_pos_is_pos(-a, b);
        lemma_div_is_ordered(-a, m, b);
        lemma_div_is_ordered(0, -a, b);
        assert(m / b <= m) by (nonlinear_arith)
            requires b > 0, 0 <= m,
        ;
    }
}

/// Saturate a raw scalar into the working range.
pub fn fx_sat(x: i64) -> (r: i64)
    ensures
        r == sat_spec(x as int),
        fx_ok(r),
{
    if x > FX_LIMIT {
        FX_LIMIT
    } else if x < -FX_LIMIT {
        -FX_LIMIT
    } else {
        x
    }
}

/// Saturating addition of two in-range scalars.
pub fn fx_add(a: i64, b: i64) -> (r: i64)
    requires
        fx_ok(a),
        fx_ok(b),
    ensures
        r == fadd(a as int, b as int),
        fx_ok(r),
{
    fx_sat(a + b)
}

/// Saturating subtraction of two in-range scalars.
pub fn fx_sub(a: i64, b: i64) -> (r: i64)
    requires
        fx_ok(a),
        fx_ok(b),
    ensures
        r == fsub(a as int, b as int),
        fx_ok(r),
{
    fx_sat(a - b)
}

/// Round-toward-zero division by a positive divisor.
pub fn div_pos(a: i64, b: i64) -> (r: i64)
    requires
        b > 0,
        a > i64::MIN,
    ensures
        r == div_trunc(a as int, b as int),
        abs(r as int) <= abs(a as int),
{
    proof {
        lemma_div_trunc_range(a as int, b as int, abs(a as int) as int);
    }
    if a >= 0 {
        ((a as u64) / (b as u64)) as i64
    } else {
        let m: u64 = (-a) as u64;
        -((m / (b as u64)) as i64)
    }
}

/// Saturating fixed-point multiplication.
pub fn fx_mul(a: i64, b: i64) -> (r: i64)
    requires
        fx_ok(a),
        fx_ok(b),
    ensures
        r == fmul(a as int, b as int),
        fx_ok(r),
{
    proof {
        assert(-1_000_000_000_000_000_000 <= (a as int) * (b as int) <= 1_000_000_000_000_000_000)
            by (nonlinear_arith)
            requires
                -1_000_000_000 <= a <= 1_000_000_000,
                -1_000_000_000 <= b <= 1_000_000_000,
        ;
    }
    let p: i64 = a * b;
    fx_sat(div_pos(p, FX_ONE))
}

/// Saturating fixed-point division by a positive in-range divisor.
pub fn fx_div(a: i64, b: i64) -> (r: i64)
    requires
        fx_ok(a),
        0 < b <= FX_LIMIT,
    ensures
        r == fdiv(a as int, b as int),
        fx_ok(r),
{
    let p: i64 = a * FX_ONE;
    fx_sat(div_pos(p, b))
}

/// Division of an in-range scalar by a positive constant; the result
/// stays in range.
pub fn fx_div_const(a: i64, b: i64) -> (r: i64)
    requires
        fx_ok(a),
        b > 0,
    ensures
        r == div_trunc(a as int, b as int),
        fx_ok(r),
{
    proof {
        lemma_div_trunc_range(a as int, b as int, FX_LIMIT as int);
    }
    div_pos(a, b)
}

/// The fraction `a / b` of a value within `[0, b]`, as a unit-scaled
/// ratio in `[0, FX_ONE]`.
pub fn fx_unit_frac(a: i64, b: i64) -> (r: i64)
    requires
        0 <= a <= b,
        0 < b <= FX_LIMIT,
    ensures
        r == fdiv(a as int, b as int),
        0 <= r <= FX_ONE,
{
    proof {
        assert((a as int) * (FX_ONE as int) <= (b as int) * (FX_ONE as int)) by (nonlinear_arith)
            requires
                0 <= a <= b,
        ;
        lemma_div_is_ordered(0, (a as int) * (FX_ONE as int), b as int);
        lemma_div_is_ordered((a as int) * (FX_ONE as int), (b as int) * (FX_ONE as int), b as int);
        lemma_div_by_multiple(FX_ONE as int, b as int);
        assert((b as int) * (FX_ONE as int) == (FX_ONE as int) * (b as int));
    }
    let p: i64 = a * FX_ONE;
    fx_sat(div_pos(p, b))
}

/// Scaling of a nonnegative in-range value by a unit fraction; the result
/// keeps the value's bounds.
pub fn fx_mul_unit(a: i64, u: i64) -> (r: i64)
    requires
        0 <= a <= FX_LIMIT,
        0 <= u <= FX_ONE,
    ensures
        r == fmul(a as int, u as int),
        0 <= r <= a,
{
    proof {
        assert(0 <= (a as int) * (u as int) <= (a as int) * (FX_ONE as int)) by (nonlinear_arith)
            requires
                0 <= a,
                0 <= u <= FX_ONE,
        ;
        lemma_div_is_ordered(0, (a as int) * (u as int), FX_ONE as int);
        lemma_div_is_ordered((a as int) * (u as int), (a as int) * (FX_ONE as int), FX_ONE as int);
        lemma_div_by_multiple(a as int, FX_ONE as int);
        assert((a as int) * (FX_ONE as int) == (a as int) * (FX_ONE as int));
    }
    let p: i64 = a * u;
    fx_sat(div_pos(p, FX_ONE))
}

/// Clamp an in-range scalar into an in-range interval.
pub fn fx_clamp(x: i64, lo: i64, hi: i64) -> (r: i64)
    requires
        fx_ok(x),
        fx_ok(lo),
        fx_ok(hi),
        lo <= hi,
    ensures
        r == clamp_spec(x as int, lo as int, hi as int),
        lo <= r <= hi,
        fx_ok(r),
{
    if x < lo {
        lo
    } else if x > hi {
        hi
    } else {
        x
    }
}

/// Absolute value of an in-range scalar.
pub fn fx_abs(x: i64) -> (r: i64)
    requires
        fx_ok(x),
    ensures
        r == abs(x as int),
        0 <= r <= FX_LIMIT,
{
    if x < 0 {
        -x
    } else {
        x
    }
}

/// Rescaling product `a * b / FX_ONE` without saturation, for callers
/// that track magnitude bounds themselves. The ghost pair carries the
/// caller's magnitude bounds on `a` and `b`.
pub fn fx_scaled_mul(a: i64, b: i64, bnd: Ghost<(int, int)>) -> (r: i64)
    requires
        abs(a as int) <= bnd@.0,
        abs(b as int) <= bnd@.1,
        0 <= bnd@.0,
        0 <= bnd@.1,
        bnd@.0 * bnd@.1 <= 9_000_000_000_000_000_000,
    ensures
        r == div_trunc(a as int * b as int, FX_ONE as int),
        abs(r as int) <= (bnd@.0 * bnd@.1) / (FX_ONE as int),
{
    proof {
        assert(-(bnd@.0 * bnd@.1) <= (a as int) * (b as int) <= bnd@.0 * bnd@.1)
            by (nonlinear_arith)
            requires
                abs(a as int) <= bnd@.0,
                abs(b as int) <= bnd@.1,
                0 <= bnd@.0,
                0 <= bnd@.1,
        ;
        lemma_div_trunc_range((a as int) * (b as int), FX_ONE as int, bnd@.0 * bnd@.1);
    }
    let p: i64 = a * b;
    div_pos(p, FX_ONE)
}

/// Division by a positive divisor with interval tracking: the ghost pair
/// carries the caller's lower and upper bounds on the dividend.
pub fn div_pos_range(a: i64, b: i64, bnd: Ghost<(int, int)>) -> (r: i64)
    requires
        b > 0,
        0 <= bnd@.0 <= a as int,
        a as int <= bnd@.1,
    ensures
        r == div_trunc(a as int, b as int),
        bnd@.0 / (b as int) <= r as int <= bnd@.1 / (b as int),
{
    proof {
        lemma_div_is_ordered(bnd@.0, a as int, b as int);
        lemma_div_is_ordered(a as int, bnd@.1, b as int);
        lemma_div_pos_is_pos(a as int, b as int);
    }
    div_pos(a, b)
}

/// Rescaling product of two nonnegative scalars with interval tracking.
pub fn fx_scaled_mul_nn(a: i64, b: i64, bnd: Ghost<(int, int)>) -> (r: i64)
    requires
        0 <= a as int <= bnd@.0,
        0 <= b as int <= bnd@.1,
        bnd@.0 * bnd@.1 <= 9_000_000_000_000_000_000,
    ensures
        r == div_trunc(a as int * b as int, FX_ONE as int),
        0 <= r as int <= (bnd@.0 * bnd@.1) / (FX_ONE as int),
{
    proof {
        assert(0 <= (a as int) * (b as int) <= bnd@.0 * bnd@.1) by (nonlinear_arith)
            requires
                0 <= a as int <= bnd@.0,
                0 <= b as int <= bnd@.1,
        ;
        lemma_div_is_ordered(0, (a as int) * (b as int), FX_ONE as int);
        lemma_div_is_ordered((a as int) * (b as int), bnd@.0 * bnd@.1, FX_ONE as int);
    }
    let p: i64 = a * b;
    div_pos(p, FX_ONE)
}

/// The integer square root: the greatest `r` with `r * r <= n`.
pub open spec fn sqrt_floor(n: int) -> int
    decreases n,
{
    if n < 1 {
        0
    } else {
        let p = sqrt_floor(n - 1);
        if (p + 1) * (p + 1) <= n {
            p + 1
        } else {
            p
        }
    }
}

/// `sqrt_floor` is the floor of the real square root.
pub proof fn lemma_sqrt_floor_props(n: int)
    requires
        0 <= n,
    ensures
        0 <= sqrt_floor(n),
        sqrt_floor(n) * sqrt_floor(n) <= n,
        n < (sqrt_floor(n) + 1) * (sqrt_floor(n) + 1),
    decreases n,
{
    if n >= 1 {
        lemma_sqrt_floor_props(n - 1);
        let p = sqrt_floor(n - 1);
        if (p + 1) * (p + 1) <= n {
            assert(n < (p + 2) * (p + 2)) by (nonlinear_arith)
                requires
                    0 <= p,
                    n - 1 < (p + 1) * (p + 1),
                    (p + 1) * (p + 1) <= n,
            ;
        }
    }
}

/// The square-root bracket `r * r <= n < (r + 1) * (r + 1)` has a unique
/// nonnegative solution.
pub proof fn lemma_sqrt_unique(n: int, r: int)
    requires
        0 <= n,
        0 <= r,
        r * r <= n,
        n < (r + 1) * (r + 1),
    ensures
        r == sqrt_floor(n),
{
    lemma_sqrt_floor_props(n);
    let s = sqrt_floor(n);
    assert(r == s) by (nonlinear_arith)
        requires
            0 <= r,
            0 <= s,
            r * r <= n,
            n < (r + 1) * (r + 1),
            s * s <= n,
            n < (s + 1) * (s + 1),
    ;
}

/// Integer square root of a nonnegative scalar, by bisection.
pub fn isqrt(n: i64) -> (r: i64)
    requires
        0 <= n <= 8_000_000_000_000_000_000,
    ensures
        r == sqrt_floor(n as int),
        0 <= r <= 3_000_000_000,
{
    let mut lo: i64 = 0;
    let mut hi: i64 = 3_000_000_000;
    proof {
        assert((3_000_000_000 + 1) * (3_000_000_000 + 1) > 8_000_000_000_000_000_000int);
    }
    while lo < hi
        invariant
            0 <= lo <= hi <= 3_000_000_000,
            lo * lo <= n,
            n < (hi + 1) * (hi + 1),
        decreases hi - lo,
    {
        let gap: i64 = hi - lo + 1;
        let mid: i64 = lo + div_pos(gap, 2);
        proof {
            assert(1 <= gap / 2 && gap / 2 < gap) by (nonlinear_arith)
                requires 2 <= gap,
            ;
            assert(mid * mid <= 3_000_000_000i64 * 3_000_000_000i64) by (nonlinear_arith)
                requires 0 <= mid <= 3_000_000_000,
            ;
        }
        let sq: i64 = mid * mid;
        if sq <= n {
            lo = mid;
        } else {
            hi = mid - 1;
        }
    }
    proof {
        lemma_sqrt_unique(n as int, lo as int);
    }
    lo
}

} // verus!
