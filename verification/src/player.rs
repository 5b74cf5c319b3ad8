//! One combatant: kinematic state, combat gauges and the two fists.
//!
//! Punch reach, punch speed and guard angle are linear interpolations
//! between an exhausted and a fresh bound, driven by the current energy
//! fraction: spending energy on punches degrades later punches until the
//! gauge regenerates.

use vstd::prelude::*;

verus! {

use crate::fx::FX_ONE;
use crate::fx::fx_ok;
use crate::fx::fadd;
use crate::fx::fsub;
use crate::fx::fmul;
use crate::fx::fdiv;
use crate::fx::fx_add;
use crate::fx::fx_sub;
use crate::fx::fx_mul;
use crate::fx::fx_unit_frac;
use crate::fx::fx_mul_unit;
use crate::fx::lemma_div_trunc_range;
use crate::vec2::Vec2;
use crate::vec2::v2_ok;
use crate::vec2::v2_add_spec;
use crate::vec2::v2_scale_spec;
use crate::vec2::v2_sub_spec;
use crate::vec2::v2_rotate_spec;
use crate::vec2::v2_add;
use crate::vec2::v2_scale;
use crate::vec2::v2_sub;
use crate::vec2::v2_rotate;
use crate::trig::FX_PI;
use crate::trig::FX_HALF_PI;
use crate::trig::FX_TWO_PI;
use crate::trig::wrap_pi_spec;
use crate::trig::atan2_spec;
use crate::trig::atan2_fp;
use crate::fist::Fist;
use crate::fist::FistState;
use crate::fist::fist_wf;
use crate::control::Control;
use crate::control::move_x_num;
use crate::control::move_y_num;
use crate::params::STARTING_HEALTH;
use crate::params::MAX_ENERGY;
use crate::params::STARTING_ENERGY;
use crate::params::ACCELERATION;
use crate::params::DECCELERATION;
use crate::params::KNOCKBACK_ACCELERATION;
use crate::params::FIST_DISTANCE;
use crate::params::MIN_FIST_OFFSET_ANGLE;
use crate::params::MAX_FIST_OFFSET_ANGLE;
use crate::params::MIN_REACH;
use crate::params::MAX_REACH;
use crate::params::MIN_PUNCH_SPEED;
use crate::params::MAX_PUNCH_SPEED;
use crate::params::ROTATION_DRIFT;
use crate::params::HIT_DAMAGE;

/// Largest rotation magnitude any combatant can hold between wraps: one
/// half-turn plus the largest facing-correction step.
pub const ROTATION_BOUND: i64 = 3_500_000;

/// One combatant.
#[derive(Clone, Copy, Debug, PartialEq, Eq)]
pub struct Player {
    pub position: Vec2,
    /// Facing, in micro-radians; zero faces up, positive turns clockwise
    /// on screen.
    pub rotation: i64,
    pub velocity: Vec2,
    /// Left and right fist.
    pub fists: (Fist, Fist),
    pub health: i64,
    pub energy: i64,
}

/// Well-formedness of a combatant: every scalar in range, gauges inside
/// their clamps, fists well-formed, and never both fists extending.
pub open spec fn player_wf(p: Player) -> bool {
    &&& v2_ok(p.position)
    &&& v2_ok(p.velocity)
    &&& -ROTATION_BOUND <= p.rotation <= ROTATION_BOUND
    &&& 0 <= p.health <= STARTING_HEALTH
    &&& 0 <= p.energy <= MAX_ENERGY
    &&& fist_wf(p.fists.0)
    &&& fist_wf(p.fists.1)
    &&& !((p.fists.0.state is Extending) && (p.fists.1.state is Extending))
}

/// The energy gauge as a unit fraction of its maximum.
pub open spec fn energy_frac_spec(energy: int) -> int {
    fdiv(energy, MAX_ENERGY as int)
}

/// Guard angle for a given energy: tighter when fresh, wider when
/// exhausted.
pub open spec fn fist_offset_angle_spec(energy: int) -> int {
    fadd(
        fmul(
            (MAX_FIST_OFFSET_ANGLE - MIN_FIST_OFFSET_ANGLE) as int,
            fsub(FX_ONE as int, energy_frac_spec(energy)),
        ),
        MIN_FIST_OFFSET_ANGLE as int,
    )
}

/// Punch speed for a given energy.
pub open spec fn punch_speed_spec(energy: int) -> int {
    fadd(
        fmul((MAX_PUNCH_SPEED - MIN_PUNCH_SPEED) as int, energy_frac_spec(energy)),
        MIN_PUNCH_SPEED as int,
    )
}

/// Punch reach for a given energy.
pub open spec fn reach_spec(energy: int) -> int {
    fadd(fmul((MAX_REACH - MIN_REACH) as int, energy_frac_spec(energy)), MIN_REACH as int)
}

/// The guard position of a fist: a fixed distance from the body center,
/// at the facing offset by the signed guard angle.
pub open spec fn fist_resting_pos_spec(p: Player, fist_index: int) -> Vec2 {
    let off = if fist_index == 0 {
        -fist_offset_angle_spec(p.energy as int)
    } else if fist_index == 1 {
        fist_offset_angle_spec(p.energy as int)
    } else {
        0
    };
    let angle = p.rotation + off;
    v2_add_spec(
        p.position,
        v2_scale_spec(v2_rotate_spec(Vec2 { x: 0, y: (-FX_ONE) as i64 }, angle), FIST_DISTANCE as int),
    )
}

/// A combatant after one movement update: impulse in the facing frame,
/// damping, integration, passive rotation drift, then resting fists
/// following the new guard poses.
pub open spec fn handle_move_spec(p: Player, c: Control) -> Player {
    let delta = Vec2 {
        x: (move_x_num(c.move_x) * FX_ONE) as i64,
        y: (-move_y_num(c.move_y) * FX_ONE) as i64,
    };
    let rotated = v2_rotate_spec(delta, p.rotation as int);
    let vel = v2_scale_spec(
        v2_add_spec(p.velocity, v2_scale_spec(rotated, ACCELERATION as int)),
        DECCELERATION as int,
    );
    let moved = Player {
        position: v2_add_spec(p.position, vel),
        rotation: wrap_pi_spec(p.rotation + move_x_num(c.move_x) * ROTATION_DRIFT) as i64,
        velocity: vel,
        fists: p.fists,
        health: p.health,
        energy: p.energy,
    };
    let f0 = if moved.fists.0.state is Resting {
        Fist { state: moved.fists.0.state, position: fist_resting_pos_spec(moved, 0) }
    } else {
        moved.fists.0
    };
    let f1 = if moved.fists.1.state is Resting {
        Fist { state: moved.fists.1.state, position: fist_resting_pos_spec(moved, 1) }
    } else {
        moved.fists.1
    };
    Player {
        position: moved.position,
        rotation: moved.rotation,
        velocity: moved.velocity,
        fists: (f0, f1),
        health: moved.health,
        energy: moved.energy,
    }
}

/// A combatant after taking one hit: a fixed backward knockback impulse
/// along the facing axis and one unit of health lost, floored at zero.
pub open spec fn get_hit_spec(p: Player) -> Player {
    let rotated = v2_rotate_spec(Vec2 { x: 0, y: FX_ONE }, p.rotation as int);
    let vel = v2_add_spec(p.velocity, v2_scale_spec(rotated, KNOCKBACK_ACCELERATION as int));
    Player {
        position: v2_add_spec(p.position, vel),
        rotation: p.rotation,
        velocity: vel,
        fists: p.fists,
        health: if p.health >= HIT_DAMAGE {
            (p.health - HIT_DAMAGE) as i64
        } else {
            0
        },
        energy: p.energy,
    }
}

/// A combatant after one proportional facing-correction step toward a
/// target position.
pub open spec fn rotate_and_face_spec(p: Player, target: Vec2, match_factor: int) -> Player {
    let dirv = v2_sub_spec(target, p.position);
    let new_rotation = atan2_spec(dirv.y as int, dirv.x as int) + FX_HALF_PI;
    let delta = wrap_pi_spec(new_rotation - p.rotation);
    Player {
        position: p.position,
        rotation: (p.rotation + fmul(delta, match_factor)) as i64,
        velocity: p.velocity,
        fists: p.fists,
        health: p.health,
        energy: p.energy,
    }
}

/// A combatant freshly placed at a starting pose: full starting gauges,
/// no motion, both fists resting at their guard poses.
pub open spec fn player_new_spec(start_pos: Vec2, rotation: i64) -> Player {
    let base = Player {
        position: start_pos,
        rotation: rotation,
        velocity: Vec2 { x: 0, y: 0 },
        fists: (
            Fist { state: FistState::Resting, position: Vec2 { x: 0, y: 0 } },
            Fist { state: FistState::Resting, position: Vec2 { x: 0, y: 0 } },
        ),
        health: STARTING_HEALTH,
        energy: STARTING_ENERGY,
    };
    Player {
        position: base.position,
        rotation: base.rotation,
        velocity: base.velocity,
        fists: (
            Fist { state: FistState::Resting, position: fist_resting_pos_spec(base, 0) },
            Fist { state: FistState::Resting, position: fist_resting_pos_spec(base, 1) },
        ),
        health: base.health,
        energy: base.energy,
    }
}

impl Player {
    /// A combatant at a starting pose, with both fists at their guard.
    pub fn new(start_pos: Vec2, rotation: i64) -> (r: Self)
        requires
            v2_ok(start_pos),
            -FX_PI <= rotation <= FX_PI,
        ensures
            r == player_new_spec(start_pos, rotation),
            player_wf(r),
    {
        let mut player = Self {
            position: start_pos,
            rotation: rotation,
            velocity: Vec2 { x: 0, y: 0 },
            health: STARTING_HEALTH,
            energy: STARTING_ENERGY,
            fists: (
                Fist::new(Vec2 { x: 0, y: 0 }),
                Fist::new(Vec2 { x: 0, y: 0 }),
            ),
        };
        let rest0 = player.get_fist_resting_pos(0);
        let rest1 = player.get_fist_resting_pos(1);
        player.fists.0.position = rest0;
        player.fists.1.position = rest1;
        player
    }

    /// Guard angle at the current energy, between the fresh and the
    /// exhausted bound.
    pub fn get_fist_offset_angle(&self) -> (r: i64)
        requires
            0 <= self.energy <= MAX_ENERGY,
        ensures
            r == fist_offset_angle_spec(self.energy as int),
            MIN_FIST_OFFSET_ANGLE <= r <= MAX_FIST_OFFSET_ANGLE,
    {
        let frac: i64 = fx_unit_frac(self.energy, MAX_ENERGY);
        let pct: i64 = fx_sub(FX_ONE, frac);
        fx_add(
            fx_mul_unit(MAX_FIST_OFFSET_ANGLE - MIN_FIST_OFFSET_ANGLE, pct),
            MIN_FIST_OFFSET_ANGLE,
        )
    }

    /// Punch speed at the current energy, between the exhausted and the
    /// fresh bound.
    pub fn get_punch_speed(&self) -> (r: i64)
        requires
            0 <= self.energy <= MAX_ENERGY,
        ensures
            r == punch_speed_spec(self.energy as int),
            MIN_PUNCH_SPEED <= r <= MAX_PUNCH_SPEED,
    {
        let frac: i64 = fx_unit_frac(self.energy, MAX_ENERGY);
        fx_add(fx_mul_unit(MAX_PUNCH_SPEED - MIN_PUNCH_SPEED, frac), MIN_PUNCH_SPEED)
    }

    /// Punch reach at the current energy, between the exhausted and the
    /// fresh bound.
    pub fn get_reach(&self) -> (r: i64)
        requires
            0 <= self.energy <= MAX_ENERGY,
        ensures
            r == reach_spec(self.energy as int),
            MIN_REACH <= r <= MAX_REACH,
    {
        let frac: i64 = fx_unit_frac(self.energy, MAX_ENERGY);
        fx_add(fx_mul_unit(MAX_REACH - MIN_REACH, frac), MIN_REACH)
    }

    /// The guard position of the indexed fist (left is zero, right one).
    pub fn get_fist_resting_pos(&self, fist_index: usize) -> (r: Vec2)
        requires
            v2_ok(self.position),
            -ROTATION_BOUND <= self.rotation <= ROTATION_BOUND,
            0 <= self.energy <= MAX_ENERGY,
        ensures
            r == fist_resting_pos_spec(*self, fist_index as int),
            v2_ok(r),
    {
        let fist_offset_angle: i64 = if fist_index == 0 {
            -self.get_fist_offset_angle()
        } else if fist_index == 1 {
            self.get_fist_offset_angle()
        } else {
            0
        };
        let angle: i64 = self.rotation + fist_offset_angle;
        let dir = v2_rotate(Vec2 { x: 0, y: -FX_ONE }, angle);
        v2_add(self.position, v2_scale(dir, FIST_DISTANCE))
    }

    /// Apply one tick of movement input: facing-frame impulse, damping,
    /// integration, passive rotation drift, resting fists following.
    pub fn handle_move(&mut self, controls: Control)
        requires
            player_wf(*old(self)),
        ensures
            *final(self) == handle_move_spec(*old(self), controls),
            player_wf(*final(self)),
            -FX_PI <= final(self).rotation <= FX_PI,
            final(self).health == old(self).health,
            final(self).energy == old(self).energy,
    {
        let delta_x: i64 = (controls.move_x.to_num() as i64) * FX_ONE;
        let delta_y: i64 = -(controls.move_y.to_num() as i64) * FX_ONE;
        let delta = Vec2 { x: delta_x, y: delta_y };
        let rotated = v2_rotate(delta, self.rotation);
        let new_velocity = v2_scale(
            v2_add(self.velocity, v2_scale(rotated, ACCELERATION)),
            DECCELERATION,
        );
        self.velocity = new_velocity;
        self.position = v2_add(self.position, new_velocity);
        let drift: i64 = (controls.move_x.to_num() as i64) * ROTATION_DRIFT;
        let rot_raw: i64 = self.rotation + drift;
        self.rotation = if rot_raw > FX_PI {
            rot_raw - FX_TWO_PI
        } else if rot_raw < -FX_PI {
            rot_raw + FX_TWO_PI
        } else {
            rot_raw
        };
        let rest0 = self.get_fist_resting_pos(0);
        let rest1 = self.get_fist_resting_pos(1);
        let resting0 = match self.fists.0.state {
            FistState::Resting => true,
            _ => false,
        };
        let resting1 = match self.fists.1.state {
            FistState::Resting => true,
            _ => false,
        };
        if resting0 {
            self.fists.0.position = rest0;
        }
        if resting1 {
            self.fists.1.position = rest1;
        }
    }

    /// Take one hit: backward knockback along the facing axis and one
    /// unit of health lost, floored at zero.
    pub fn get_hit(&mut self)
        requires
            player_wf(*old(self)),
        ensures
            *final(self) == get_hit_spec(*old(self)),
            player_wf(*final(self)),
            final(self).health <= old(self).health,
            final(self).rotation == old(self).rotation,
            final(self).energy == old(self).energy,
    {
        let rotated = v2_rotate(Vec2 { x: 0, y: FX_ONE }, self.rotation);
        let new_velocity = v2_add(self.velocity, v2_scale(rotated, KNOCKBACK_ACCELERATION));
        self.velocity = new_velocity;
        self.position = v2_add(self.position, new_velocity);
        self.health = if self.health >= HIT_DAMAGE {
            self.health - HIT_DAMAGE
        } else {
            0
        };
    }

    /// Turn a fixed fraction of the way toward facing a target position.
    pub fn rotate_and_face(&mut self, position: Vec2, match_factor: i64)
        requires
            player_wf(*old(self)),
            -FX_PI <= old(self).rotation <= FX_PI,
            v2_ok(position),
            0 <= match_factor <= 100_000,
        ensures
            *final(self) == rotate_and_face_spec(*old(self), position, match_factor as int),
            player_wf(*final(self)),
            final(self).health == old(self).health,
            final(self).energy == old(self).energy,
    {
        let direction_vector = v2_sub(position, self.position);
        let new_rotation: i64 = atan2_fp(direction_vector.y, direction_vector.x) + FX_HALF_PI;
        let delta_raw: i64 = new_rotation - self.rotation;
        let delta: i64 = if delta_raw > FX_PI {
            delta_raw - FX_TWO_PI
        } else if delta_raw < -FX_PI {
            delta_raw + FX_TWO_PI
        } else {
            delta_raw
        };
        proof {
            assert(-314_159_300_000 <= (delta as int) * (match_factor as int) <= 314_159_300_000)
                by (nonlinear_arith)
                requires
                    -3_141_593 <= delta <= 3_141_593,
                    0 <= match_factor <= 100_000,
            ;
            lemma_div_trunc_range(
                (delta as int) * (match_factor as int),
                FX_ONE as int,
                314_159_300_000,
            );
        }
        let step: i64 = fx_mul(delta, match_factor);
        self.rotation = self.rotation + step;
    }

    /// Step straight ahead along the facing axis by a signed distance.
    pub fn move_forwand(&mut self, distance: i64)
        requires
            player_wf(*old(self)),
            fx_ok(distance),
        ensures
            *final(self) == (Player {
                position: v2_add_spec(
                    old(self).position,
                    v2_rotate_spec(
                        v2_scale_spec(Vec2 { x: 0, y: (-FX_ONE) as i64 }, distance as int),
                        old(self).rotation as int,
                    ),
                ),
                ..*old(self)
            }),
            player_wf(*final(self)),
    {
        let scaled = v2_scale(Vec2 { x: 0, y: -FX_ONE }, distance);
        let delta = v2_rotate(scaled, self.rotation);
        self.position = v2_add(self.position, delta);
    }
}

} // verus!
