//! Circle-circle contact query, used for every collision check.
//!
//! The query returns the signed gap between two circles: negative when
//! they overlap, positive when apart. A result is only reported when the
//! gap lies within a fixed one-unit tolerance; farther pairs yield no
//! contact.

use vstd::prelude::*;

verus! {

use crate::fx::FX_ONE;
use crate::fx::fx_ok;
use crate::fx::fsub;
use crate::fx::fx_sub;
use crate::fx::lemma_sqrt_floor_props;
use crate::vec2::Vec2;
use crate::vec2::v2_ok;
use crate::vec2::v2_sub_spec;
use crate::vec2::v2_mag_spec;
use crate::vec2::v2_dist_spec;
use crate::vec2::v2_dist;

/// Largest gap still reported as a contact (one world unit).
pub const CONTACT_TOLERANCE: i64 = 1_000_000;

/// Signed gap between two circles: center distance less both radii.
pub open spec fn contact_gap_spec(a_pos: Vec2, a_radius: int, b_pos: Vec2, b_radius: int) -> int {
    fsub(fsub(v2_dist_spec(a_pos, b_pos), a_radius), b_radius)
}

/// The contact query's result: the gap when it is within tolerance,
/// nothing otherwise.
pub open spec fn contact_distance_spec(
    a_pos: Vec2,
    a_radius: int,
    b_pos: Vec2,
    b_radius: int,
) -> Option<i64> {
    let gap = contact_gap_spec(a_pos, a_radius, b_pos, b_radius);
    if gap <= CONTACT_TOLERANCE {
        Some(gap as i64)
    } else {
        None
    }
}

/// Signed distance between two circles, reported only within the fixed
/// tolerance.
pub fn get_contact_distance(a_pos: Vec2, a_radius: i64, b_pos: Vec2, b_radius: i64) -> (r: Option<
    i64,
>)
    requires
        v2_ok(a_pos),
        v2_ok(b_pos),
        fx_ok(a_radius),
        fx_ok(b_radius),
    ensures
        r == contact_distance_spec(a_pos, a_radius as int, b_pos, b_radius as int),
        r is Some <==> contact_gap_spec(a_pos, a_radius as int, b_pos, b_radius as int)
            <= CONTACT_TOLERANCE,
{
    let dist: i64 = v2_dist(a_pos, b_pos);
    let gap: i64 = fx_sub(fx_sub(dist, a_radius), b_radius);
    if gap <= CONTACT_TOLERANCE {
        Some(gap)
    } else {
        None
    }
}

/// Law: the contact query is symmetric in its two circles.
pub proof fn lemma_contact_symmetric(a_pos: Vec2, a_radius: int, b_pos: Vec2, b_radius: int)
    requires
        v2_ok(a_pos),
        v2_ok(b_pos),
        0 <= a_radius <= FX_ONE * 1_000,
        0 <= b_radius <= FX_ONE * 1_000,
    ensures
        contact_distance_spec(a_pos, a_radius, b_pos, b_radius) == contact_distance_spec(
            b_pos,
            b_radius,
            a_pos,
            a_radius,
        ),
{
    let d1 = v2_sub_spec(b_pos, a_pos);
    let d2 = v2_sub_spec(a_pos, b_pos);
    assert(d1.x as int == -(d2.x as int) && d1.y as int == -(d2.y as int));
    assert(d1.x as int * d1.x as int == d2.x as int * d2.x as int && d1.y as int * d1.y as int
        == d2.y as int * d2.y as int) by (nonlinear_arith)
        requires
            d1.x as int == -(d2.x as int),
            d1.y as int == -(d2.y as int),
    ;
    assert(v2_mag_spec(d1) == v2_mag_spec(d2));
    let n = d1.x as int * d1.x as int + d1.y as int * d1.y as int;
    assert(0 <= n) by (nonlinear_arith)
        requires
            n == d1.x as int * d1.x as int + d1.y as int * d1.y as int,
    ;
    lemma_sqrt_floor_props(n);
    let d = v2_dist_spec(a_pos, b_pos);
    assert(0 <= d);
    assert(contact_gap_spec(a_pos, a_radius, b_pos, b_radius) == contact_gap_spec(
        b_pos,
        b_radius,
        a_pos,
        a_radius,
    ));
}

} // verus!
