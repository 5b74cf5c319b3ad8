//! Planar vectors over the fixed-point scalars.
//!
//! Positions, velocities and fist targets are all `Vec2` values in
//! micro-units. A degenerate normalization (of the zero vector) yields the
//! zero vector: the engine's safe default for direction computations.

use vstd::prelude::*;

verus! {

use crate::fx::FX_ONE;
use crate::fx::FX_LIMIT;
use crate::fx::fx_ok;
use crate::fx::fadd;
use crate::fx::fsub;
use crate::fx::fmul;
use crate::fx::div_trunc;
use crate::fx::sat_spec;
use crate::fx::sqrt_floor;
use crate::fx::lemma_sqrt_floor_props;
use crate::fx::lemma_div_trunc_range;
use crate::fx::fx_add;
use crate::fx::fx_sub;
use crate::fx::fx_mul;
use crate::fx::fx_sat;
use crate::fx::div_pos;
use crate::fx::isqrt;
use crate::trig::sin_spec;
use crate::trig::cos_spec;
use crate::trig::sin_fp;
use crate::trig::cos_fp;
use vstd::math::abs;

/// A point or displacement of the ring plane, in micro-units.
#[derive(Clone, Copy, Debug, PartialEq, Eq)]
pub struct Vec2 {
    pub x: i64,
    pub y: i64,
}

/// Both components lie in the working range.
pub open spec fn v2_ok(v: Vec2) -> bool {
    fx_ok(v.x) && fx_ok(v.y)
}

/// Componentwise saturating sum.
pub open spec fn v2_add_spec(a: Vec2, b: Vec2) -> Vec2 {
    Vec2 { x: fadd(a.x as int, b.x as int) as i64, y: fadd(a.y as int, b.y as int) as i64 }
}

/// Componentwise saturating difference.
pub open spec fn v2_sub_spec(a: Vec2, b: Vec2) -> Vec2 {
    Vec2 { x: fsub(a.x as int, b.x as int) as i64, y: fsub(a.y as int, b.y as int) as i64 }
}

/// Saturating scaling by a fixed-point factor.
pub open spec fn v2_scale_spec(v: Vec2, s: int) -> Vec2 {
    Vec2 { x: fmul(v.x as int, s) as i64, y: fmul(v.y as int, s) as i64 }
}

/// Euclidean length, saturated into the working range.
pub open spec fn v2_mag_spec(v: Vec2) -> int {
    sat_spec(sqrt_floor(v.x as int * v.x as int + v.y as int * v.y as int))
}

/// Unit direction of a vector; the zero vector maps to itself.
pub open spec fn v2_norm_spec(v: Vec2) -> Vec2 {
    let m = v2_mag_spec(v);
    if m == 0 {
        Vec2 { x: 0, y: 0 }
    } else {
        Vec2 {
            x: div_trunc(v.x as int * FX_ONE, m) as i64,
            y: div_trunc(v.y as int * FX_ONE, m) as i64,
        }
    }
}

/// Counterclockwise rotation by an angle in micro-radians.
pub open spec fn v2_rotate_spec(v: Vec2, angle: int) -> Vec2 {
    let c = cos_spec(angle);
    let s = sin_spec(angle);
    Vec2 {
        x: fsub(fmul(c, v.x as int), fmul(s, v.y as int)) as i64,
        y: fadd(fmul(s, v.x as int), fmul(c, v.y as int)) as i64,
    }
}

/// Componentwise saturating vector sum.
pub fn v2_add(a: Vec2, b: Vec2) -> (r: Vec2)
    requires
        v2_ok(a),
        v2_ok(b),
    ensures
        r == v2_add_spec(a, b),
        v2_ok(r),
{
    Vec2 { x: fx_add(a.x, b.x), y: fx_add(a.y, b.y) }
}

/// Componentwise saturating vector difference.
pub fn v2_sub(a: Vec2, b: Vec2) -> (r: Vec2)
    requires
        v2_ok(a),
        v2_ok(b),
    ensures
        r == v2_sub_spec(a, b),
        v2_ok(r),
{
    Vec2 { x: fx_sub(a.x, b.x), y: fx_sub(a.y, b.y) }
}

/// Saturating scaling by a fixed-point factor.
pub fn v2_scale(v: Vec2, s: i64) -> (r: Vec2)
    requires
        v2_ok(v),
        fx_ok(s),
    ensures
        r == v2_scale_spec(v, s as int),
        v2_ok(r),
{
    Vec2 { x: fx_mul(v.x, s), y: fx_mul(v.y, s) }
}

/// Euclidean length of an in-range vector.
pub fn v2_mag(v: Vec2) -> (r: i64)
    requires
        v2_ok(v),
    ensures
        r == v2_mag_spec(v),
        0 <= r <= FX_LIMIT,
{
    proof {
        assert(0 <= (v.x as int) * (v.x as int) <= 1_000_000_000_000_000_000
            && 0 <= (v.y as int) * (v.y as int) <= 1_000_000_000_000_000_000)
            by (nonlinear_arith)
            requires
                -1_000_000_000 <= v.x <= 1_000_000_000,
                -1_000_000_000 <= v.y <= 1_000_000_000,
        ;
    }
    let sq: i64 = v.x * v.x + v.y * v.y;
    let root: i64 = isqrt(sq);
    fx_sat(root)
}

/// The length bounds each component's magnitude.
proof fn lemma_mag_dominates(v: Vec2)
    requires
        v2_ok(v),
    ensures
        abs(v.x as int) <= v2_mag_spec(v),
        abs(v.y as int) <= v2_mag_spec(v),
{
    let n = v.x as int * v.x as int + v.y as int * v.y as int;
    assert(0 <= v.x as int * v.x as int + v.y as int * v.y as int) by (nonlinear_arith);
    lemma_sqrt_floor_props(n);
    let s = sqrt_floor(n);
    assert(abs(v.x as int) <= s && abs(v.y as int) <= s) by (nonlinear_arith)
        requires
            0 <= s,
            s * s <= n,
            n < (s + 1) * (s + 1),
            n == v.x as int * v.x as int + v.y as int * v.y as int,
    ;
}

/// Unit direction of an in-range vector, with the zero vector as its own
/// direction.
pub fn v2_norm(v: Vec2) -> (r: Vec2)
    requires
        v2_ok(v),
    ensures
        r == v2_norm_spec(v),
        -FX_ONE <= r.x <= FX_ONE,
        -FX_ONE <= r.y <= FX_ONE,
        v2_ok(r),
{
    let m: i64 = v2_mag(v);
    if m == 0 {
        Vec2 { x: 0, y: 0 }
    } else {
        proof {
            lemma_mag_dominates(v);
            assert(abs(v.x as int) <= m && abs(v.y as int) <= m);
            assert((m as int) * (FX_ONE as int) / (m as int) == FX_ONE) by (nonlinear_arith)
                requires
                    0 < m,
            ;
            lemma_div_trunc_range(v.x as int * FX_ONE, m as int, (m as int) * (FX_ONE as int));
            lemma_div_trunc_range(v.y as int * FX_ONE, m as int, (m as int) * (FX_ONE as int));
            assert(abs(v.x as int * FX_ONE) <= (m as int) * (FX_ONE as int)
                && abs(v.y as int * FX_ONE) <= (m as int) * (FX_ONE as int))
                by (nonlinear_arith)
                requires
                    abs(v.x as int) <= m,
                    abs(v.y as int) <= m,
                    0 < m,
            ;
        }
        Vec2 { x: div_pos(v.x * FX_ONE, m), y: div_pos(v.y * FX_ONE, m) }
    }
}

/// Counterclockwise rotation by an angle within about two half-turns.
pub fn v2_rotate(v: Vec2, angle: i64) -> (r: Vec2)
    requires
        v2_ok(v),
        -7_000_000 <= angle <= 7_000_000,
    ensures
        r == v2_rotate_spec(v, angle as int),
        v2_ok(r),
{
    let c: i64 = cos_fp(angle);
    let s: i64 = sin_fp(angle);
    Vec2 { x: fx_sub(fx_mul(c, v.x), fx_mul(s, v.y)), y: fx_add(fx_mul(s, v.x), fx_mul(c, v.y)) }
}

/// Distance between two in-range points.
pub open spec fn v2_dist_spec(a: Vec2, b: Vec2) -> int {
    v2_mag_spec(v2_sub_spec(b, a))
}

/// Distance between two in-range points.
pub fn v2_dist(a: Vec2, b: Vec2) -> (r: i64)
    requires
        v2_ok(a),
        v2_ok(b),
    ensures
        r == v2_dist_spec(a, b),
        0 <= r <= FX_LIMIT,
{
    v2_mag(v2_sub(b, a))
}

} // verus!
