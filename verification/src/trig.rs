//! Fixed-point angle and logarithm kernels.
//!
//! Angles are micro-radians kept near `(-pi, pi]`. The kernels are defined
//! polynomial approximations: each executable function returns exactly the
//! value of its spec mirror, so every engine transition built on them has
//! an exact mathematical description.

use vstd::prelude::*;

verus! {

use crate::fx::FX_ONE;
use crate::fx::fx_ok;
use crate::fx::div_trunc;
use crate::fx::clamp_spec;
use crate::fx::div_pos;
use crate::fx::fx_clamp;
use crate::fx::fx_scaled_mul;
use crate::fx::fx_scaled_mul_nn;
use crate::fx::div_pos_range;
use crate::fx::lemma_div_trunc_range;
use vstd::arithmetic::div_mod::lemma_div_pos_is_pos;
use vstd::math::abs;

/// Half a turn, in micro-radians.
pub const FX_PI: i64 = 3_141_593;

/// A quarter turn, in micro-radians.
pub const FX_HALF_PI: i64 = 1_570_796;

/// A full turn, in micro-radians.
pub const FX_TWO_PI: i64 = 6_283_186;

/// One wrapping step into `[-FX_PI, FX_PI]`, for inputs within one extra
/// half-turn of that interval.
pub open spec fn wrap_pi_spec(x: int) -> int {
    if x > FX_PI {
        x - FX_TWO_PI
    } else if x < -(FX_PI as int) {
        x + FX_TWO_PI
    } else {
        x
    }
}

/// Quadrant folding of a wrapped angle into `[-FX_HALF_PI, FX_HALF_PI]`.
pub open spec fn fold_half_spec(x: int) -> int {
    if x > FX_HALF_PI {
        FX_PI - x
    } else if x < -(FX_HALF_PI as int) {
        -(FX_PI as int) - x
    } else {
        x
    }
}

/// Degree-seven sine polynomial on the folded quadrant.
pub open spec fn sin_poly_spec(t: int) -> int {
    let t2 = div_trunc(t * t, FX_ONE as int);
    let t3 = div_trunc(t * t2, FX_ONE as int);
    let t5 = div_trunc(t3 * t2, FX_ONE as int);
    let t7 = div_trunc(t5 * t2, FX_ONE as int);
    t - div_trunc(t3, 6) + div_trunc(t5, 120) - div_trunc(t7, 5040)
}

/// The engine's sine: reduce, fold, evaluate, clamp to one unit.
pub open spec fn sin_spec(x: int) -> int {
    clamp_spec(sin_poly_spec(fold_half_spec(wrap_pi_spec(x))), -(FX_ONE as int), FX_ONE as int)
}

/// The engine's cosine, as the sine of the complementary angle.
pub open spec fn cos_spec(x: int) -> int {
    sin_spec(FX_HALF_PI - x)
}

/// Sine of an angle within about three half-turns of zero.
#[verifier::rlimit(60)]
pub fn sin_fp(x: i64) -> (r: i64)
    requires
        -9_000_000 <= x <= 9_000_000,
    ensures
        r == sin_spec(x as int),
        -FX_ONE <= r <= FX_ONE,
{
    let w: i64 = if x > FX_PI {
        x - FX_TWO_PI
    } else if x < -FX_PI {
        x + FX_TWO_PI
    } else {
        x
    };
    let t: i64 = if w > FX_HALF_PI {
        FX_PI - w
    } else if w < -FX_HALF_PI {
        -FX_PI - w
    } else {
        w
    };
    let t2: i64 = fx_scaled_mul(t, t, Ghost((1_570_797int, 1_570_797int)));
    let t3: i64 = fx_scaled_mul(t, t2, Ghost((1_570_797int, 2_467_403int)));
    let t5: i64 = fx_scaled_mul(t3, t2, Ghost((3_880_000int, 2_467_403int)));
    let t7: i64 = fx_scaled_mul(t5, t2, Ghost((9_580_000int, 2_467_403int)));
    let p: i64 = t - div_pos(t3, 6) + div_pos(t5, 120) - div_pos(t7, 5040);
    proof {
        let ts = fold_half_spec(wrap_pi_spec(x as int));
        assert(t == ts);
        assert(p == sin_poly_spec(ts));
    }
    fx_clamp(p, -FX_ONE, FX_ONE)
}

/// Cosine of an angle within about two half-turns of zero.
pub fn cos_fp(x: i64) -> (r: i64)
    requires
        -7_000_000 <= x <= 7_000_000,
    ensures
        r == cos_spec(x as int),
        -FX_ONE <= r <= FX_ONE,
{
    sin_fp(FX_HALF_PI - x)
}

/// Arctangent core on `[-FX_ONE, FX_ONE]`: a quarter-turn slope with a
/// quadratic correction term.
pub open spec fn atan_core_spec(z: int) -> int {
    div_trunc(785_398 * z, FX_ONE as int) + div_trunc(
        div_trunc(273_000 * z, FX_ONE as int) * (FX_ONE - abs(z)),
        FX_ONE as int,
    )
}

/// The angle of the vector `(x, y)` in `[-FX_PI, FX_PI]`, with the zero
/// vector mapped to zero angle.
pub open spec fn atan2_spec(y: int, x: int) -> int {
    if x == 0 && y == 0 {
        0
    } else if abs(y) <= abs(x) {
        let t = atan_core_spec(div_trunc(abs(y) * FX_ONE, abs(x) as int));
        if x > 0 {
            if y >= 0 {
                t
            } else {
                -t
            }
        } else {
            if y >= 0 {
                FX_PI - t
            } else {
                t - FX_PI
            }
        }
    } else {
        let t = atan_core_spec(div_trunc(abs(x) * FX_ONE, abs(y) as int));
        if y > 0 {
            if x >= 0 {
                FX_HALF_PI - t
            } else {
                FX_HALF_PI + t
            }
        } else {
            if x >= 0 {
                -(FX_HALF_PI as int) + t
            } else {
                -(FX_HALF_PI as int) - t
            }
        }
    }
}

/// Arctangent core evaluation; nonnegative on nonnegative input.
fn atan_core(z: i64) -> (r: i64)
    requires
        0 <= z <= FX_ONE,
    ensures
        r == atan_core_spec(z as int),
        0 <= r <= 1_058_398,
{
    proof {
        lemma_div_trunc_range(785_398 * (z as int), FX_ONE as int, 785_398_000_000);
        lemma_div_trunc_range(273_000 * (z as int), FX_ONE as int, 273_000_000_000);
        lemma_div_pos_is_pos(785_398 * (z as int), FX_ONE as int);
        lemma_div_pos_is_pos(273_000 * (z as int), FX_ONE as int);
    }
    let slope: i64 = div_pos(785_398 * z, FX_ONE);
    let c: i64 = div_pos(273_000 * z, FX_ONE);
    let corr: i64 = fx_scaled_mul(c, FX_ONE - z, Ghost((273_000int, 1_000_000int)));
    proof {
        assert(0 <= (c as int) * ((FX_ONE - z) as int)) by (nonlinear_arith)
            requires
                0 <= c,
                0 <= FX_ONE - z,
        ;
        lemma_div_pos_is_pos((c as int) * ((FX_ONE - z) as int), FX_ONE as int);
    }
    slope + corr
}

/// The angle of the vector `(x, y)`: a total arctangent with the safe
/// default of zero for the zero vector.
pub fn atan2_fp(y: i64, x: i64) -> (r: i64)
    requires
        fx_ok(y),
        fx_ok(x),
    ensures
        r == atan2_spec(y as int, x as int),
        -FX_PI <= r <= FX_PI,
{
    let ay: i64 = if y < 0 {
        -y
    } else {
        y
    };
    let ax: i64 = if x < 0 {
        -x
    } else {
        x
    };
    if x == 0 && y == 0 {
        0
    } else if ay <= ax {
        proof {
            lemma_div_trunc_range((ay as int) * (FX_ONE as int), ax as int, (ax as int) * (FX_ONE as int));
            assert(((ax as int) * (FX_ONE as int)) / (ax as int) == FX_ONE) by (nonlinear_arith)
                requires
                    0 < ax,
            ;
        }
        let z: i64 = div_pos(ay * FX_ONE, ax);
        let t: i64 = atan_core(z);
        if x > 0 {
            if y >= 0 {
                t
            } else {
                -t
            }
        } else {
            if y >= 0 {
                FX_PI - t
            } else {
                t - FX_PI
            }
        }
    } else {
        proof {
            lemma_div_trunc_range((ax as int) * (FX_ONE as int), ay as int, (ay as int) * (FX_ONE as int));
            assert(((ay as int) * (FX_ONE as int)) / (ay as int) == FX_ONE) by (nonlinear_arith)
                requires
                    0 < ay,
            ;
        }
        let z: i64 = div_pos(ax * FX_ONE, ay);
        let t: i64 = atan_core(z);
        if y > 0 {
            if x >= 0 {
                FX_HALF_PI - t
            } else {
                FX_HALF_PI + t
            }
        } else {
            if x >= 0 {
                -FX_HALF_PI + t
            } else {
                -FX_HALF_PI - t
            }
        }
    }
}

/// Normalization ladder for the base-two logarithm: scales a ratio in
/// `[FX_ONE / 64, 64 * FX_ONE]` into `[FX_ONE, 2 * FX_ONE)` and returns
/// the mantissa together with the exponent already turned into units.
pub open spec fn lg2_norm_spec(x: int) -> (int, int) {
    let s1 = if x >= 8_000_000 {
        (div_trunc(x, 8), 3_000_000int)
    } else {
        (x, 0int)
    };
    let s2 = if s1.0 >= 8_000_000 {
        (div_trunc(s1.0, 8), s1.1 + 3_000_000)
    } else {
        s1
    };
    let s3 = if s2.0 >= 4_000_000 {
        (div_trunc(s2.0, 4), s2.1 + 2_000_000)
    } else {
        s2
    };
    let s4 = if s3.0 >= 2_000_000 {
        (div_trunc(s3.0, 2), s3.1 + 1_000_000)
    } else {
        s3
    };
    let s5 = if s4.0 < 31_250 {
        (s4.0 * 32, s4.1 - 5_000_000)
    } else {
        s4
    };
    let s6 = if s5.0 < 125_000 {
        (s5.0 * 8, s5.1 - 3_000_000)
    } else {
        s5
    };
    let s7 = if s6.0 < 500_000 {
        (s6.0 * 4, s6.1 - 2_000_000)
    } else {
        s6
    };
    if s7.0 < 1_000_000 {
        (s7.0 * 2, s7.1 - 1_000_000)
    } else {
        s7
    }
}

/// The engine's base-two logarithm on `[FX_ONE / 64, 64 * FX_ONE]`:
/// normalization, a square-root-of-two half-step, then a degree-five
/// series for the remaining mantissa.
pub open spec fn lg2_spec(x: int) -> int {
    let norm = lg2_norm_spec(x);
    let half = if norm.0 >= 1_414_214 {
        (div_trunc(norm.0 * FX_ONE, 1_414_214), norm.1 + 500_000)
    } else {
        norm
    };
    let v = half.0 - FX_ONE;
    let w2 = div_trunc(v * v, FX_ONE as int);
    let w3 = div_trunc(w2 * v, FX_ONE as int);
    let w4 = div_trunc(w3 * v, FX_ONE as int);
    let w5 = div_trunc(w4 * v, FX_ONE as int);
    let series = v - div_trunc(w2, 2) + div_trunc(w3, 3) - div_trunc(w4, 4) + div_trunc(w5, 5);
    half.1 + div_trunc(1_442_695 * series, FX_ONE as int)
}

/// Base-two logarithm of a ratio clamped into `[FX_ONE / 64, 64 * FX_ONE]`.
#[verifier::rlimit(60)]
pub fn lg2_fp(x: i64) -> (r: i64)
    requires
        15_625 <= x <= 64_000_000,
    ensures
        r == lg2_spec(x as int),
        -7_000_000 <= r <= 7_500_000,
{
    let mut u: i64 = x;
    let mut e: i64 = 0;
    if u >= 8_000_000 {
        u = div_pos_range(u, 8, Ghost((8_000_000int, 64_000_000int)));
        e = e + 3_000_000;
    }
    if u >= 8_000_000 {
        u = div_pos_range(u, 8, Ghost((8_000_000int, 8_000_000int)));
        e = e + 3_000_000;
    }
    if u >= 4_000_000 {
        u = div_pos_range(u, 4, Ghost((4_000_000int, 8_000_000int)));
        e = e + 2_000_000;
    }
    if u >= 2_000_000 {
        u = div_pos_range(u, 2, Ghost((2_000_000int, 4_000_000int)));
        e = e + 1_000_000;
    }
    if u < 31_250 {
        u = u * 32;
        e = e - 5_000_000;
    }
    if u < 125_000 {
        u = u * 8;
        e = e - 3_000_000;
    }
    if u < 500_000 {
        u = u * 4;
        e = e - 2_000_000;
    }
    if u < 1_000_000 {
        u = u * 2;
        e = e - 1_000_000;
    }
    proof {
        assert((u as int, e as int) == lg2_norm_spec(x as int));
        assert(1_000_000 <= u < 2_000_000);
        assert(-6_000_000 <= e <= 6_000_000);
    }
    if u >= 1_414_214 {
        let p: i64 = u * FX_ONE;
        u = div_pos_range(p, 1_414_214, Ghost((1_414_214_000_000int, 2_000_000_000_000int)));
        e = e + 500_000;
    }
    let v: i64 = u - FX_ONE;
    proof {
        assert(0 <= v <= 414_214);
    }
    let w2: i64 = fx_scaled_mul_nn(v, v, Ghost((414_214int, 414_214int)));
    let w3: i64 = fx_scaled_mul_nn(w2, v, Ghost((171_574int, 414_214int)));
    let w4: i64 = fx_scaled_mul_nn(w3, v, Ghost((71_073int, 414_214int)));
    let w5: i64 = fx_scaled_mul_nn(w4, v, Ghost((29_440int, 414_214int)));
    let series: i64 = v - div_pos(w2, 2) + div_pos(w3, 3) - div_pos(w4, 4) + div_pos(w5, 5);
    proof {
        lemma_div_trunc_range(1_442_695 * (series as int), FX_ONE as int, 750_202_400_000);
    }
    let frac: i64 = div_pos(1_442_695 * series, FX_ONE);
    e + frac
}

} // verus!
