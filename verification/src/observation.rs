//! Per-player observations and their normalized feature vector.
//!
//! Every positional and velocity field is expressed in the observer's
//! local frame except the observer's own world position and rotation,
//! which pass through verbatim. The opponent's fields are also expressed
//! in the observer's frame, not the opponent's own. The normalized vector
//! has a fixed length and field order: it is the wire contract consumed
//! by an external learning component.

use vstd::prelude::*;

verus! {

use crate::fx::FX_ONE;
use crate::fx::fx_ok;
use crate::fx::fadd;
use crate::fx::fdiv;
use crate::fx::clamp_spec;
use crate::fx::fx_add;
use crate::fx::fx_div;
use crate::fx::fx_clamp;
use crate::vec2::Vec2;
use crate::vec2::v2_ok;
use crate::vec2::v2_sub_spec;
use crate::vec2::v2_rotate_spec;
use crate::vec2::v2_sub;
use crate::vec2::v2_rotate;
use crate::player::Player;
use crate::player::player_wf;
use crate::fist::fist_state_code;
use crate::trig::FX_PI;
use crate::trig::FX_TWO_PI;
use crate::params::STARTING_HEALTH;
use crate::params::MAX_ENERGY;
use crate::params::RING_SIZE_X;
use crate::params::RING_SIZE_Y;
use crate::params::MAX_VELOCITY;
use crate::params::MAX_LOCAL_DISTANCE;
use crate::params::OBSERVATION_LENGTH;

/// A world position carried into an observer's local frame: translate to
/// the observer's origin, rotate by the negative facing, then flip the
/// secondary axis so forward is positive.
pub open spec fn world_to_local_spec(observer: Player, world_pos: Vec2) -> Vec2 {
    let rel = v2_sub_spec(world_pos, observer.position);
    let loc = v2_rotate_spec(rel, -(observer.rotation as int));
    Vec2 { x: loc.x, y: (-(loc.y as int)) as i64 }
}

/// A world velocity carried into an observer's local frame: only the
/// rotation and axis flip, no translation.
pub open spec fn velocity_to_local_spec(observer: Player, world_vel: Vec2) -> Vec2 {
    let loc = v2_rotate_spec(world_vel, -(observer.rotation as int));
    Vec2 { x: loc.x, y: (-(loc.y as int)) as i64 }
}

/// One combatant's view of the match.
#[derive(Clone, Copy, Debug, PartialEq, Eq)]
pub struct Observation {
    pub health: i64,
    pub op_health: i64,
    pub energy: i64,
    pub op_energy: i64,
    /// Own position, kept in world coordinates.
    pub position: Vec2,
    /// Own rotation, kept in world coordinates.
    pub rotation: i64,
    pub velocity: Vec2,
    pub left_fist_position: Vec2,
    pub right_fist_position: Vec2,
    pub left_fist_state: usize,
    pub right_fist_state: usize,
    pub op_position: Vec2,
    pub op_velocity: Vec2,
    pub op_left_fist_position: Vec2,
    pub op_right_fist_position: Vec2,
    pub op_left_fist_state: usize,
    pub op_right_fist_state: usize,
}

/// Every scalar of an observation lies in the working range and state
/// codes are dense.
pub open spec fn observation_wf(o: Observation) -> bool {
    &&& fx_ok(o.health) && fx_ok(o.op_health)
    &&& fx_ok(o.energy) && fx_ok(o.op_energy)
    &&& v2_ok(o.position)
    &&& fx_ok(o.rotation)
    &&& v2_ok(o.velocity)
    &&& v2_ok(o.left_fist_position) && v2_ok(o.right_fist_position)
    &&& o.left_fist_state <= 2 && o.right_fist_state <= 2
    &&& v2_ok(o.op_position)
    &&& v2_ok(o.op_velocity)
    &&& v2_ok(o.op_left_fist_position) && v2_ok(o.op_right_fist_position)
    &&& o.op_left_fist_state <= 2 && o.op_right_fist_state <= 2
}

/// The observation one combatant derives from the pair: own and opponent
/// fields, all relative quantities in the observer's frame.
pub open spec fn observation_spec(me: Player, op: Player) -> Observation {
    Observation {
        health: me.health,
        op_health: op.health,
        energy: me.energy,
        op_energy: op.energy,
        position: me.position,
        rotation: me.rotation,
        velocity: velocity_to_local_spec(me, me.velocity),
        left_fist_position: world_to_local_spec(me, me.fists.0.position),
        right_fist_position: world_to_local_spec(me, me.fists.1.position),
        left_fist_state: fist_state_code(me.fists.0.state) as usize,
        right_fist_state: fist_state_code(me.fists.1.state) as usize,
        op_position: world_to_local_spec(me, op.position),
        op_velocity: velocity_to_local_spec(me, op.velocity),
        op_left_fist_position: world_to_local_spec(me, op.fists.0.position),
        op_right_fist_position: world_to_local_spec(me, op.fists.1.position),
        op_left_fist_state: fist_state_code(op.fists.0.state) as usize,
        op_right_fist_state: fist_state_code(op.fists.1.state) as usize,
    }
}

/// A world position carried into the observer's local frame.
pub fn world_to_local(observer: &Player, world_pos: Vec2) -> (r: Vec2)
    requires
        player_wf(*observer),
        v2_ok(world_pos),
    ensures
        r == world_to_local_spec(*observer, world_pos),
        v2_ok(r),
{
    let rel = v2_sub(world_pos, observer.position);
    let loc = v2_rotate(rel, -observer.rotation);
    Vec2 { x: loc.x, y: -loc.y }
}

/// A world velocity carried into the observer's local frame.
pub fn velocity_to_local(observer: &Player, world_vel: Vec2) -> (r: Vec2)
    requires
        player_wf(*observer),
        v2_ok(world_vel),
    ensures
        r == velocity_to_local_spec(*observer, world_vel),
        v2_ok(r),
{
    let loc = v2_rotate(world_vel, -observer.rotation);
    Vec2 { x: loc.x, y: -loc.y }
}

/// A gauge as a fraction of its fixed maximum.
pub open spec fn gauge_entry_spec(value: int, max: int) -> int {
    fdiv(value, max)
}

/// A coordinate scaled and clamped into one unit either way.
pub open spec fn clamped_entry_spec(value: int, scale: int) -> int {
    clamp_spec(fdiv(value, scale), -(FX_ONE as int), FX_ONE as int)
}

/// The normalized feature vector of an observation: gauges as fractions,
/// world position as ring fractions, rotation in one unit, velocities and
/// local distances clamped into one unit either way, state codes scaled
/// onto half-unit steps.
pub open spec fn normalize_spec(o: Observation) -> Seq<i64> {
    seq![
        gauge_entry_spec(o.health as int, STARTING_HEALTH as int) as i64,
        gauge_entry_spec(o.op_health as int, STARTING_HEALTH as int) as i64,
        gauge_entry_spec(o.energy as int, MAX_ENERGY as int) as i64,
        gauge_entry_spec(o.op_energy as int, MAX_ENERGY as int) as i64,
        gauge_entry_spec(o.position.x as int, RING_SIZE_X as int) as i64,
        gauge_entry_spec(o.position.y as int, RING_SIZE_Y as int) as i64,
        gauge_entry_spec(fadd(o.rotation as int, FX_PI as int), FX_TWO_PI as int) as i64,
        clamped_entry_spec(o.velocity.x as int, MAX_VELOCITY as int) as i64,
        clamped_entry_spec(o.velocity.y as int, MAX_VELOCITY as int) as i64,
        clamped_entry_spec(o.left_fist_position.x as int, MAX_LOCAL_DISTANCE as int) as i64,
        clamped_entry_spec(o.left_fist_position.y as int, MAX_LOCAL_DISTANCE as int) as i64,
        clamped_entry_spec(o.right_fist_position.x as int, MAX_LOCAL_DISTANCE as int) as i64,
        clamped_entry_spec(o.right_fist_position.y as int, MAX_LOCAL_DISTANCE as int) as i64,
        (o.left_fist_state * 500_000) as i64,
        (o.right_fist_state * 500_000) as i64,
        clamped_entry_spec(o.op_position.x as int, MAX_LOCAL_DISTANCE as int) as i64,
        clamped_entry_spec(o.op_position.y as int, MAX_LOCAL_DISTANCE as int) as i64,
        clamped_entry_spec(o.op_velocity.x as int, MAX_VELOCITY as int) as i64,
        clamped_entry_spec(o.op_velocity.y as int, MAX_VELOCITY as int) as i64,
        clamped_entry_spec(o.op_left_fist_position.x as int, MAX_LOCAL_DISTANCE as int) as i64,
        clamped_entry_spec(o.op_left_fist_position.y as int, MAX_LOCAL_DISTANCE as int) as i64,
        clamped_entry_spec(o.op_right_fist_position.x as int, MAX_LOCAL_DISTANCE as int) as i64,
        clamped_entry_spec(o.op_right_fist_position.y as int, MAX_LOCAL_DISTANCE as int) as i64,
        (o.op_left_fist_state * 500_000) as i64,
        (o.op_right_fist_state * 500_000) as i64,
    ]
}

impl Observation {
    /// The fixed-length normalized feature vector of this observation.
    #[verifier::rlimit(100)]
    pub fn normalize(&self) -> (r: Vec<i64>)
        requires
            observation_wf(*self),
        ensures
            r@.len() == OBSERVATION_LENGTH,
            r@ == normalize_spec(*self),
    {
        let e0: i64 = fx_div(self.health, STARTING_HEALTH);
        let e1: i64 = fx_div(self.op_health, STARTING_HEALTH);
        let e2: i64 = fx_div(self.energy, MAX_ENERGY);
        let e3: i64 = fx_div(self.op_energy, MAX_ENERGY);
        let e4: i64 = fx_div(self.position.x, RING_SIZE_X);
        let e5: i64 = fx_div(self.position.y, RING_SIZE_Y);
        let e6: i64 = fx_div(fx_add(self.rotation, FX_PI), FX_TWO_PI);
        let e7: i64 = fx_clamp(fx_div(self.velocity.x, MAX_VELOCITY), -FX_ONE, FX_ONE);
        let e8: i64 = fx_clamp(fx_div(self.velocity.y, MAX_VELOCITY), -FX_ONE, FX_ONE);
        let e9: i64 = fx_clamp(fx_div(self.left_fist_position.x, MAX_LOCAL_DISTANCE), -FX_ONE, FX_ONE);
        let e10: i64 = fx_clamp(fx_div(self.left_fist_position.y, MAX_LOCAL_DISTANCE), -FX_ONE, FX_ONE);
        let e11: i64 = fx_clamp(fx_div(self.right_fist_position.x, MAX_LOCAL_DISTANCE), -FX_ONE, FX_ONE);
        let e12: i64 = fx_clamp(fx_div(self.right_fist_position.y, MAX_LOCAL_DISTANCE), -FX_ONE, FX_ONE);
        let e13: i64 = (self.left_fist_state as i64) * 500_000;
        let e14: i64 = (self.right_fist_state as i64) * 500_000;
        let e15: i64 = fx_clamp(fx_div(self.op_position.x, MAX_LOCAL_DISTANCE), -FX_ONE, FX_ONE);
        let e16: i64 = fx_clamp(fx_div(self.op_position.y, MAX_LOCAL_DISTANCE), -FX_ONE, FX_ONE);
        let e17: i64 = fx_clamp(fx_div(self.op_velocity.x, MAX_VELOCITY), -FX_ONE, FX_ONE);
        let e18: i64 = fx_clamp(fx_div(self.op_velocity.y, MAX_VELOCITY), -FX_ONE, FX_ONE);
        let e19: i64 = fx_clamp(fx_div(self.op_left_fist_position.x, MAX_LOCAL_DISTANCE), -FX_ONE, FX_ONE);
        let e20: i64 = fx_clamp(fx_div(self.op_left_fist_position.y, MAX_LOCAL_DISTANCE), -FX_ONE, FX_ONE);
        let e21: i64 = fx_clamp(fx_div(self.op_right_fist_position.x, MAX_LOCAL_DISTANCE), -FX_ONE, FX_ONE);
        let e22: i64 = fx_clamp(fx_div(self.op_right_fist_position.y, MAX_LOCAL_DISTANCE), -FX_ONE, FX_ONE);
        let e23: i64 = (self.op_left_fist_state as i64) * 500_000;
        let e24: i64 = (self.op_right_fist_state as i64) * 500_000;
        let out: Vec<i64> = vec![
            e0, e1, e2, e3, e4, e5, e6, e7, e8, e9, e10, e11, e12, e13, e14, e15, e16, e17, e18,
            e19, e20, e21, e22, e23, e24,
        ];
        proof {
            assert(out@ =~= normalize_spec(*self));
        }
        out
    }
}

} // verus!
