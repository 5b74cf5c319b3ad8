//! The match engine: two combatants and the per-tick state transition.
//!
//! One tick runs a fixed ordered pipeline: movement, fist advancement,
//! fist-body contact, knockback, fist-fist contact, punch initiation,
//! facing correction, center-seeking drift, mutual attraction and
//! repulsion, wall clamping, energy regeneration, then observation and
//! reward derivation with the termination check. No stage is fallible:
//! every numeric edge case resolves to a safe default.

use vstd::prelude::*;

verus! {

use crate::fx::FX_ONE;
use crate::fx::fx_ok;
use crate::fx::fadd;
use crate::fx::fsub;
use crate::fx::fmul;
use crate::fx::fdiv;
use crate::fx::clamp_spec;
use crate::fx::fx_add;
use crate::fx::fx_sub;
use crate::fx::fx_mul;
use crate::fx::fx_div;
use crate::fx::fx_clamp;
use crate::fx::fx_unit_frac;
use crate::fx::fx_mul_unit;
use crate::vec2::Vec2;
use crate::vec2::v2_ok;
use crate::vec2::v2_add_spec;
use crate::vec2::v2_sub_spec;
use crate::vec2::v2_scale_spec;
use crate::vec2::v2_norm_spec;
use crate::vec2::v2_mag_spec;
use crate::vec2::v2_dist_spec;
use crate::vec2::v2_add;
use crate::vec2::v2_sub;
use crate::vec2::v2_scale;
use crate::vec2::v2_norm;
use crate::vec2::v2_mag;
use crate::vec2::v2_dist;
use crate::trig::FX_PI;
use crate::trig::lg2_spec;
use crate::trig::lg2_fp;
use crate::fist::Fist;
use crate::fist::FistState;
use crate::fist::fist_wf;
use crate::fist::fist_retract_spec;
use crate::control::Control;
use crate::control::MoveY;
use crate::player::Player;
use crate::player::player_wf;
use crate::player::energy_frac_spec;
use crate::player::fist_resting_pos_spec;
use crate::player::reach_spec;
use crate::player::punch_speed_spec;
use crate::player::handle_move_spec;
use crate::player::get_hit_spec;
use crate::player::rotate_and_face_spec;
use crate::player::player_new_spec;
use crate::observation::Observation;
use crate::observation::observation_spec;
use crate::observation::observation_wf;
use crate::observation::world_to_local;
use crate::observation::velocity_to_local;
use crate::contact::CONTACT_TOLERANCE;
use crate::contact::contact_gap_spec;
use crate::contact::get_contact_distance;
use crate::params::RING_SIZE_X;
use crate::params::RING_SIZE_Y;
use crate::params::MIN_PLAYER_DISTANCE;
use crate::params::MAX_ENERGY;
use crate::params::ENERGY_REGEN;
use crate::params::PLAYER_RADIUS;
use crate::params::ATTRACTION_FACTOR;
use crate::params::REPULSION_FACTOR;
use crate::params::FIST_RADIUS;
use crate::params::MAX_REACH;
use crate::params::MAX_PUNCH_SPEED;
use crate::params::PUNCH_RETRACT_SPEED;
use crate::params::FACE_MATCH_FACTOR;
use crate::params::CENTER_DEAD_ZONE;
use crate::params::CENTER_PULL;
use crate::params::PUNCH_MIN_ENERGY;
use crate::params::PUNCH_ENERGY_COST;
use crate::params::BACK_STEP_PENALTY;
use crate::params::NEAR_MISS_MAX;
use crate::params::HIT_REWARD;
use crate::params::KNOCKBACK_PENALTY;
use crate::params::WIN_BONUS;
use crate::params::ENERGY_SHAPING;
use crate::params::ENERGY_FACTOR_BASE;
use crate::params::ENERGY_FACTOR_SLOPE;

/// The complete output of one tick: both observations, both rewards, and
/// whether the match is over.
#[derive(Clone, Copy, Debug, PartialEq, Eq)]
pub struct StepResult {
    pub observations: (Observation, Observation),
    pub rewards: (i64, i64),
    pub is_done: bool,
}

/// A whole match: the two combatants (index zero and one, fixed for the
/// match) and the cumulative punch counters kept for external reporting.
#[derive(Clone, Copy, Debug, PartialEq, Eq)]
pub struct GameState {
    pub players: (Player, Player),
    pub num_punches: (usize, usize),
    pub num_landed_punches: (usize, usize),
}

/// Well-formedness of a match: both combatants well-formed.
pub open spec fn game_wf(g: GameState) -> bool {
    player_wf(g.players.0) && player_wf(g.players.1)
}

/// A fresh match: one combatant above center facing down, one below
/// facing up, counters cleared.
pub open spec fn game_new_spec() -> GameState {
    GameState {
        players: (
            player_new_spec(Vec2 { x: 200_000_000, y: 100_000_000 }, FX_PI),
            player_new_spec(Vec2 { x: 200_000_000, y: 300_000_000 }, 0),
        ),
        num_punches: (0, 0),
        num_landed_punches: (0, 0),
    }
}

impl GameState {
    /// A fresh match at the fixed starting poses.
    pub fn new() -> (r: Self)
        ensures
            r == game_new_spec(),
            game_wf(r),
    {
        let player_0 = Player::new(Vec2 { x: 200_000_000, y: 100_000_000 }, FX_PI);
        let player_1 = Player::new(Vec2 { x: 200_000_000, y: 300_000_000 }, 0);
        Self { players: (player_0, player_1), num_punches: (0, 0), num_landed_punches: (0, 0) }
    }

    /// The indexed combatant's observation of the current state. A pure
    /// query: it depends on nothing but the state.
    pub fn get_observation(&self, player_i: usize) -> (r: Observation)
        requires
            game_wf(*self),
            player_i <= 1,
        ensures
            player_i == 0 ==> r == observation_spec(self.players.0, self.players.1),
            player_i == 1 ==> r == observation_spec(self.players.1, self.players.0),
            observation_wf(r),
    {
        let (player, opponent): (&Player, &Player) = if player_i == 0 {
            (&self.players.0, &self.players.1)
        } else {
            (&self.players.1, &self.players.0)
        };
        Observation {
            health: player.health,
            op_health: opponent.health,
            energy: player.energy,
            op_energy: opponent.energy,
            position: player.position,
            rotation: player.rotation,
            velocity: velocity_to_local(player, player.velocity),
            left_fist_position: world_to_local(player, player.fists.0.position),
            right_fist_position: world_to_local(player, player.fists.1.position),
            left_fist_state: player.fists.0.state.to_int(),
            right_fist_state: player.fists.1.state.to_int(),
            op_position: world_to_local(player, opponent.position),
            op_velocity: velocity_to_local(player, opponent.velocity),
            op_left_fist_position: world_to_local(player, opponent.fists.0.position),
            op_right_fist_position: world_to_local(player, opponent.fists.1.position),
            op_left_fist_state: opponent.fists.0.state.to_int(),
            op_right_fist_state: opponent.fists.1.state.to_int(),
        }
    }
}

/// The shaped reward for a punch forced to retract near the opponent:
/// it decays as the fourth power of the normalized miss distance and is
/// weighted by the attacker's energy fraction, favoring committed
/// high-energy near-misses.
pub open spec fn near_miss_reward_spec(fist_pos: Vec2, op_position: Vec2, energy: int) -> int {
    let distance_from_op = fsub(
        fsub(v2_dist_spec(fist_pos, op_position), PLAYER_RADIUS as int),
        FIST_RADIUS as int,
    );
    let distance_percentage = clamp_spec(
        fdiv(distance_from_op, MAX_REACH as int),
        0,
        FX_ONE as int,
    );
    let q = fsub(FX_ONE as int, distance_percentage);
    let q2 = fmul(q, q);
    let q4 = fmul(q2, q2);
    let base = fmul(NEAR_MISS_MAX as int, q4);
    let factor = fadd(
        fmul(ENERGY_FACTOR_SLOPE as int, energy_frac_spec(energy)),
        ENERGY_FACTOR_BASE as int,
    );
    fmul(base, factor)
}

/// One tick of a fist's state machine: a resting fist follows its guard,
/// an extending fist flies toward its frozen target and is forced into
/// retraction past the owner's reach (earning the near-miss reward), a
/// retracting fist returns to the live guard and comes to rest within one
/// step of it.
pub open spec fn advance_fist_spec(
    fist: Fist,
    owner_pos: Vec2,
    resting: Vec2,
    reach: int,
    op_position: Vec2,
    energy: int,
) -> (Fist, int) {
    match fist.state {
        FistState::Resting => (Fist { state: fist.state, position: resting }, 0),
        FistState::Extending { target, speed } => {
            let direction = v2_norm_spec(v2_sub_spec(target, fist.position));
            let newpos = v2_add_spec(fist.position, v2_scale_spec(direction, speed as int));
            if v2_mag_spec(v2_sub_spec(newpos, owner_pos)) > reach {
                (
                    Fist {
                        state: FistState::Retracting { speed: PUNCH_RETRACT_SPEED },
                        position: newpos,
                    },
                    near_miss_reward_spec(newpos, op_position, energy),
                )
            } else {
                (Fist { state: fist.state, position: newpos }, 0)
            }
        },
        FistState::Retracting { speed } => {
            let direction = v2_norm_spec(v2_sub_spec(resting, fist.position));
            let newpos = v2_add_spec(fist.position, v2_scale_spec(direction, speed as int));
            if v2_mag_spec(v2_sub_spec(newpos, resting)) < MAX_PUNCH_SPEED {
                (Fist { state: FistState::Resting, position: newpos }, 0)
            } else {
                (Fist { state: fist.state, position: newpos }, 0)
            }
        },
    }
}

/// A combatant with both fists advanced one tick, and the shaped reward
/// earned by punches forced to retract.
pub open spec fn fists_advance_spec(p: Player, op_position: Vec2) -> (Player, int) {
    let reach = reach_spec(p.energy as int);
    let a0 = advance_fist_spec(
        p.fists.0,
        p.position,
        fist_resting_pos_spec(p, 0),
        reach,
        op_position,
        p.energy as int,
    );
    let a1 = advance_fist_spec(
        p.fists.1,
        p.position,
        fist_resting_pos_spec(p, 1),
        reach,
        op_position,
        p.energy as int,
    );
    (
        Player {
            position: p.position,
            rotation: p.rotation,
            velocity: p.velocity,
            fists: (a0.0, a1.0),
            health: p.health,
            energy: p.energy,
        },
        fadd(a0.1, a1.1),
    )
}

/// The shaped near-miss reward (see `near_miss_reward_spec`).
fn near_miss_reward(fist_pos: Vec2, op_position: Vec2, energy: i64) -> (r: i64)
    requires
        v2_ok(fist_pos),
        v2_ok(op_position),
        0 <= energy <= MAX_ENERGY,
    ensures
        r == near_miss_reward_spec(fist_pos, op_position, energy as int),
        0 <= r <= NEAR_MISS_MAX,
{
    let distance_from_op: i64 = fx_sub(
        fx_sub(v2_dist(fist_pos, op_position), PLAYER_RADIUS),
        FIST_RADIUS,
    );
    let distance_percentage: i64 = fx_clamp(fx_div(distance_from_op, MAX_REACH), 0, FX_ONE);
    let q: i64 = fx_sub(FX_ONE, distance_percentage);
    let q2: i64 = fx_mul_unit(q, q);
    let q4: i64 = fx_mul_unit(q2, q2);
    let base: i64 = fx_mul_unit(NEAR_MISS_MAX, q4);
    let ep: i64 = fx_unit_frac(energy, MAX_ENERGY);
    let factor: i64 = fx_add(fx_mul_unit(ENERGY_FACTOR_SLOPE, ep), ENERGY_FACTOR_BASE);
    fx_mul_unit(base, factor)
}

/// One tick of a fist's state machine (see `advance_fist_spec`).
fn advance_fist(
    fist: Fist,
    owner_pos: Vec2,
    resting: Vec2,
    reach: i64,
    op_position: Vec2,
    energy: i64,
) -> (r: (Fist, i64))
    requires
        fist_wf(fist),
        v2_ok(owner_pos),
        v2_ok(resting),
        v2_ok(op_position),
        0 <= reach <= MAX_REACH,
        0 <= energy <= MAX_ENERGY,
    ensures
        r.0 == advance_fist_spec(
            fist,
            owner_pos,
            resting,
            reach as int,
            op_position,
            energy as int,
        ).0,
        r.1 == advance_fist_spec(
            fist,
            owner_pos,
            resting,
            reach as int,
            op_position,
            energy as int,
        ).1,
        fist_wf(r.0),
        r.0.state is Extending ==> fist.state is Extending,
        0 <= r.1 <= NEAR_MISS_MAX,
{
    match fist.state {
        FistState::Resting => (Fist { state: fist.state, position: resting }, 0),
        FistState::Extending { target, speed } => {
            let direction = v2_norm(v2_sub(target, fist.position));
            let newpos = v2_add(fist.position, v2_scale(direction, speed));
            let from_owner: i64 = v2_mag(v2_sub(newpos, owner_pos));
            if from_owner > reach {
                let reward = near_miss_reward(newpos, op_position, energy);
                (
                    Fist {
                        state: FistState::Retracting { speed: PUNCH_RETRACT_SPEED },
                        position: newpos,
                    },
                    reward,
                )
            } else {
                (Fist { state: fist.state, position: newpos }, 0)
            }
        },
        FistState::Retracting { speed } => {
            let direction = v2_norm(v2_sub(resting, fist.position));
            let newpos = v2_add(fist.position, v2_scale(direction, speed));
            let from_resting: i64 = v2_mag(v2_sub(newpos, resting));
            if from_resting < MAX_PUNCH_SPEED {
                (Fist { state: FistState::Resting, position: newpos }, 0)
            } else {
                (Fist { state: fist.state, position: newpos }, 0)
            }
        },
    }
}

/// Advance both of a combatant's fists one tick (see
/// `fists_advance_spec`).
fn fists_advance(p: Player, op_position: Vec2) -> (r: (Player, i64))
    requires
        player_wf(p),
        v2_ok(op_position),
    ensures
        r.0 == fists_advance_spec(p, op_position).0,
        r.1 == fists_advance_spec(p, op_position).1,
        player_wf(r.0),
        r.0.health == p.health,
        r.0.energy == p.energy,
        r.0.rotation == p.rotation,
        0 <= r.1 <= 2 * NEAR_MISS_MAX,
{
    let rest0 = p.get_fist_resting_pos(0);
    let rest1 = p.get_fist_resting_pos(1);
    let reach = p.get_reach();
    let a0 = advance_fist(p.fists.0, p.position, rest0, reach, op_position, p.energy);
    let a1 = advance_fist(p.fists.1, p.position, rest1, reach, op_position, p.energy);
    (
        Player {
            position: p.position,
            rotation: p.rotation,
            velocity: p.velocity,
            fists: (a0.0, a1.0),
            health: p.health,
            energy: p.energy,
        },
        fx_add(a0.1, a1.1),
    )
}

/// A fist touches a body circle when their gap is within the contact
/// tolerance.
pub open spec fn fist_touches_spec(fist_pos: Vec2, other_pos: Vec2, other_radius: int) -> bool {
    contact_gap_spec(fist_pos, FIST_RADIUS as int, other_pos, other_radius) <= CONTACT_TOLERANCE
}

/// Fist-body contact for one attacker: every touching fist counts a
/// landed punch, earns the fixed hit reward, and is forced to retract;
/// the defender is marked hit if any fist touched.
pub open spec fn fist_body_stage_spec(p: Player, op_pos: Vec2) -> (Player, bool, int, int) {
    let h0 = fist_touches_spec(p.fists.0.position, op_pos, PLAYER_RADIUS as int);
    let h1 = fist_touches_spec(p.fists.1.position, op_pos, PLAYER_RADIUS as int);
    let f0 = if h0 {
        fist_retract_spec(p.fists.0)
    } else {
        p.fists.0
    };
    let f1 = if h1 {
        fist_retract_spec(p.fists.1)
    } else {
        p.fists.1
    };
    let reward = fadd(
        if h0 {
            HIT_REWARD as int
        } else {
            0
        },
        if h1 {
            HIT_REWARD as int
        } else {
            0
        },
    );
    let landed: int = (if h0 {
        1int
    } else {
        0int
    }) + (if h1 {
        1int
    } else {
        0int
    });
    (
        Player {
            position: p.position,
            rotation: p.rotation,
            velocity: p.velocity,
            fists: (f0, f1),
            health: p.health,
            energy: p.energy,
        },
        h0 || h1,
        reward,
        landed,
    )
}

/// Fist-fist contact across the pair: each extending fist that touches
/// any of the opponent's fists is forced to retract; resting and
/// retracting fists are unaffected.
pub open spec fn fist_fist_stage_spec(p0: Player, p1: Player) -> (Player, Player) {
    let t00 = fist_touches_spec(p0.fists.0.position, p1.fists.0.position, FIST_RADIUS as int);
    let t01 = fist_touches_spec(p0.fists.0.position, p1.fists.1.position, FIST_RADIUS as int);
    let t10 = fist_touches_spec(p0.fists.1.position, p1.fists.0.position, FIST_RADIUS as int);
    let t11 = fist_touches_spec(p0.fists.1.position, p1.fists.1.position, FIST_RADIUS as int);
    let f00 = if (p0.fists.0.state is Extending) && (t00 || t01) {
        fist_retract_spec(p0.fists.0)
    } else {
        p0.fists.0
    };
    let f01 = if (p0.fists.1.state is Extending) && (t10 || t11) {
        fist_retract_spec(p0.fists.1)
    } else {
        p0.fists.1
    };
    let f10 = if (p1.fists.0.state is Extending) && (t00 || t10) {
        fist_retract_spec(p1.fists.0)
    } else {
        p1.fists.0
    };
    let f11 = if (p1.fists.1.state is Extending) && (t01 || t11) {
        fist_retract_spec(p1.fists.1)
    } else {
        p1.fists.1
    };
    (
        Player {
            position: p0.position,
            rotation: p0.rotation,
            velocity: p0.velocity,
            fists: (f00, f01),
            health: p0.health,
            energy: p0.energy,
        },
        Player {
            position: p1.position,
            rotation: p1.rotation,
            velocity: p1.velocity,
            fists: (f10, f11),
            health: p1.health,
            energy: p1.energy,
        },
    )
}

/// Whether a combatant may launch the indexed fist this tick: the fist
/// rests, its flag alone is set, the other fist rests too, and energy is
/// above the punch floor.
pub open spec fn may_punch_spec(p: Player, this_flag: bool, other_flag: bool, other: Fist) -> bool {
    &&& this_flag
    &&& !other_flag
    &&& other.state is Resting
    &&& p.energy > PUNCH_MIN_ENERGY
}

/// Punch initiation for one combatant: at most one fist can launch; the
/// launch aims at the opponent's position snapshot, moves at the current
/// punch speed, and costs one unit of energy. Returns the combatant and
/// the number of punches thrown.
pub open spec fn initiate_punches_spec(
    p: Player,
    left_punch: bool,
    right_punch: bool,
    op_position: Vec2,
) -> (Player, int) {
    let speed = punch_speed_spec(p.energy as int);
    let left_fires = (p.fists.0.state is Resting) && may_punch_spec(
        p,
        left_punch,
        right_punch,
        p.fists.1,
    );
    let right_fires = (p.fists.1.state is Resting) && may_punch_spec(
        p,
        right_punch,
        left_punch,
        p.fists.0,
    );
    let f0 = if left_fires {
        Fist {
            state: FistState::Extending { target: op_position, speed: speed as i64 },
            position: p.fists.0.position,
        }
    } else {
        p.fists.0
    };
    let f1 = if right_fires {
        Fist {
            state: FistState::Extending { target: op_position, speed: speed as i64 },
            position: p.fists.1.position,
        }
    } else {
        p.fists.1
    };
    let fired: int = if left_fires || right_fires {
        1
    } else {
        0
    };
    (
        Player {
            position: p.position,
            rotation: p.rotation,
            velocity: p.velocity,
            fists: (f0, f1),
            health: p.health,
            energy: if left_fires || right_fires {
                (p.energy - PUNCH_ENERGY_COST) as i64
            } else {
                p.energy
            },
        },
        fired,
    )
}

/// Center-seeking drift: beyond a dead-zone fraction of the ring, a
/// combatant is pulled toward the ring center in proportion to the
/// excess distance.
pub open spec fn center_drift_spec(p: Player) -> Player {
    let center = Vec2 { x: 200_000_000, y: 200_000_000 };
    let difference = v2_sub_spec(center, p.position);
    let direction = v2_norm_spec(difference);
    let excess = fsub(
        fdiv(v2_mag_spec(difference), RING_SIZE_X as int),
        CENTER_DEAD_ZONE as int,
    );
    let magnitude = if excess > 0 {
        excess
    } else {
        0
    };
    Player {
        position: v2_add_spec(
            p.position,
            v2_scale_spec(v2_scale_spec(direction, magnitude), CENTER_PULL as int),
        ),
        rotation: p.rotation,
        velocity: p.velocity,
        fists: p.fists,
        health: p.health,
        energy: p.energy,
    }
}

/// The shared attraction-or-repulsion step: the gap between the bodies,
/// compared to the desired fighting distance, sets a log-ratio drift;
/// closer than desired pushes apart strongly, farther pulls together
/// weakly. The ratio is clamped to the logarithm kernel's domain: the
/// safe default for degenerate (overlapping) configurations.
pub open spec fn attraction_delta_spec(pos0: Vec2, pos1: Vec2) -> int {
    let player_distance = fsub(v2_dist_spec(pos0, pos1), 2 * PLAYER_RADIUS as int);
    let factor = if player_distance < MIN_PLAYER_DISTANCE {
        REPULSION_FACTOR as int
    } else {
        ATTRACTION_FACTOR as int
    };
    let ratio = clamp_spec(fdiv(player_distance, MIN_PLAYER_DISTANCE as int), 15_625, 64_000_000);
    fmul(lg2_spec(ratio), factor)
}

/// One combatant displaced along the direction to the other by the
/// shared attraction delta.
pub open spec fn apply_attraction_spec(p: Player, other_pos: Vec2, delta: int) -> Player {
    Player {
        position: v2_add_spec(
            p.position,
            v2_scale_spec(v2_norm_spec(v2_sub_spec(other_pos, p.position)), delta),
        ),
        rotation: p.rotation,
        velocity: p.velocity,
        fists: p.fists,
        health: p.health,
        energy: p.energy,
    }
}

/// A combatant's body circle clamped fully inside the ring rectangle.
pub open spec fn clamp_to_ring_spec(p: Player) -> Player {
    Player {
        position: Vec2 {
            x: clamp_spec(
                p.position.x as int,
                PLAYER_RADIUS as int,
                (RING_SIZE_X - PLAYER_RADIUS) as int,
            ) as i64,
            y: clamp_spec(
                p.position.y as int,
                PLAYER_RADIUS as int,
                (RING_SIZE_Y - PLAYER_RADIUS) as int,
            ) as i64,
        },
        rotation: p.rotation,
        velocity: p.velocity,
        fists: p.fists,
        health: p.health,
        energy: p.energy,
    }
}

/// Unconditional energy regeneration, clamped to the gauge.
pub open spec fn regen_spec(p: Player) -> Player {
    Player {
        position: p.position,
        rotation: p.rotation,
        velocity: p.velocity,
        fists: p.fists,
        health: p.health,
        energy: clamp_spec(p.energy + ENERGY_REGEN, 0, MAX_ENERGY as int) as i64,
    }
}

/// A reporting counter increased by a few events, saturating at the
/// counter's top rather than wrapping.
pub open spec fn bump_spec(c: int, n: int) -> int {
    if c + n <= usize::MAX {
        c + n
    } else {
        usize::MAX as int
    }
}

/// Fist-body contact for one attacker (see `fist_body_stage_spec`).
fn fist_body_stage(p: Player, op_pos: Vec2) -> (r: (Player, bool, i64, usize))
    requires
        player_wf(p),
        v2_ok(op_pos),
    ensures
        r.0 == fist_body_stage_spec(p, op_pos).0,
        r.1 == fist_body_stage_spec(p, op_pos).1,
        r.2 == fist_body_stage_spec(p, op_pos).2,
        r.3 == fist_body_stage_spec(p, op_pos).3,
        player_wf(r.0),
        r.0.health == p.health && r.0.energy == p.energy && r.0.rotation == p.rotation,
        0 <= r.2 <= 2 * HIT_REWARD,
        r.3 <= 2,
{
    let c0 = get_contact_distance(p.fists.0.position, FIST_RADIUS, op_pos, PLAYER_RADIUS);
    let c1 = get_contact_distance(p.fists.1.position, FIST_RADIUS, op_pos, PLAYER_RADIUS);
    let h0 = c0.is_some();
    let h1 = c1.is_some();
    let f0 = if h0 {
        Fist {
            state: FistState::Retracting { speed: PUNCH_RETRACT_SPEED },
            position: p.fists.0.position,
        }
    } else {
        p.fists.0
    };
    let f1 = if h1 {
        Fist {
            state: FistState::Retracting { speed: PUNCH_RETRACT_SPEED },
            position: p.fists.1.position,
        }
    } else {
        p.fists.1
    };
    let reward: i64 = fx_add(
        if h0 {
            HIT_REWARD
        } else {
            0
        },
        if h1 {
            HIT_REWARD
        } else {
            0
        },
    );
    let landed: usize = (if h0 {
        1
    } else {
        0
    }) + (if h1 {
        1
    } else {
        0
    });
    (
        Player {
            position: p.position,
            rotation: p.rotation,
            velocity: p.velocity,
            fists: (f0, f1),
            health: p.health,
            energy: p.energy,
        },
        h0 || h1,
        reward,
        landed,
    )
}

/// Fist-fist contact across the pair (see `fist_fist_stage_spec`).
fn fist_fist_stage(p0: Player, p1: Player) -> (r: (Player, Player))
    requires
        player_wf(p0),
        player_wf(p1),
    ensures
        r.0 == fist_fist_stage_spec(p0, p1).0,
        r.1 == fist_fist_stage_spec(p0, p1).1,
        player_wf(r.0),
        player_wf(r.1),
        r.0.health == p0.health && r.0.energy == p0.energy,
        r.1.health == p1.health && r.1.energy == p1.energy,
{
    let c00 = get_contact_distance(p0.fists.0.position, FIST_RADIUS, p1.fists.0.position, FIST_RADIUS);
    let c01 = get_contact_distance(p0.fists.0.position, FIST_RADIUS, p1.fists.1.position, FIST_RADIUS);
    let c10 = get_contact_distance(p0.fists.1.position, FIST_RADIUS, p1.fists.0.position, FIST_RADIUS);
    let c11 = get_contact_distance(p0.fists.1.position, FIST_RADIUS, p1.fists.1.position, FIST_RADIUS);
    let t00 = c00.is_some();
    let t01 = c01.is_some();
    let t10 = c10.is_some();
    let t11 = c11.is_some();
    let ext00 = match p0.fists.0.state {
        FistState::Extending { .. } => true,
        _ => false,
    };
    let ext01 = match p0.fists.1.state {
        FistState::Extending { .. } => true,
        _ => false,
    };
    let ext10 = match p1.fists.0.state {
        FistState::Extending { .. } => true,
        _ => false,
    };
    let ext11 = match p1.fists.1.state {
        FistState::Extending { .. } => true,
        _ => false,
    };
    let f00 = if ext00 && (t00 || t01) {
        Fist {
            state: FistState::Retracting { speed: PUNCH_RETRACT_SPEED },
            position: p0.fists.0.position,
        }
    } else {
        p0.fists.0
    };
    let f01 = if ext01 && (t10 || t11) {
        Fist {
            state: FistState::Retracting { speed: PUNCH_RETRACT_SPEED },
            position: p0.fists.1.position,
        }
    } else {
        p0.fists.1
    };
    let f10 = if ext10 && (t00 || t10) {
        Fist {
            state: FistState::Retracting { speed: PUNCH_RETRACT_SPEED },
            position: p1.fists.0.position,
        }
    } else {
        p1.fists.0
    };
    let f11 = if ext11 && (t01 || t11) {
        Fist {
            state: FistState::Retracting { speed: PUNCH_RETRACT_SPEED },
            position: p1.fists.1.position,
        }
    } else {
        p1.fists.1
    };
    (
        Player {
            position: p0.position,
            rotation: p0.rotation,
            velocity: p0.velocity,
            fists: (f00, f01),
            health: p0.health,
            energy: p0.energy,
        },
        Player {
            position: p1.position,
            rotation: p1.rotation,
            velocity: p1.velocity,
            fists: (f10, f11),
            health: p1.health,
            energy: p1.energy,
        },
    )
}

/// Punch initiation for one combatant (see `initiate_punches_spec`).
fn initiate_punches(p: Player, left_punch: bool, right_punch: bool, op_position: Vec2) -> (r: (
    Player,
    usize,
))
    requires
        player_wf(p),
        v2_ok(op_position),
    ensures
        r.0 == initiate_punches_spec(p, left_punch, right_punch, op_position).0,
        r.1 == initiate_punches_spec(p, left_punch, right_punch, op_position).1,
        player_wf(r.0),
        r.0.health == p.health,
        r.1 <= 1,
{
    let speed = p.get_punch_speed();
    let left_resting = match p.fists.0.state {
        FistState::Resting => true,
        _ => false,
    };
    let right_resting = match p.fists.1.state {
        FistState::Resting => true,
        _ => false,
    };
    let left_fires = left_resting && left_punch && !right_punch && right_resting && p.energy
        > PUNCH_MIN_ENERGY;
    let right_fires = right_resting && right_punch && !left_punch && left_resting && p.energy
        > PUNCH_MIN_ENERGY;
    let f0 = if left_fires {
        Fist {
            state: FistState::Extending { target: op_position, speed },
            position: p.fists.0.position,
        }
    } else {
        p.fists.0
    };
    let f1 = if right_fires {
        Fist {
            state: FistState::Extending { target: op_position, speed },
            position: p.fists.1.position,
        }
    } else {
        p.fists.1
    };
    let fired: usize = if left_fires || right_fires {
        1
    } else {
        0
    };
    (
        Player {
            position: p.position,
            rotation: p.rotation,
            velocity: p.velocity,
            fists: (f0, f1),
            health: p.health,
            energy: if left_fires || right_fires {
                p.energy - PUNCH_ENERGY_COST
            } else {
                p.energy
            },
        },
        fired,
    )
}

/// Center-seeking drift (see `center_drift_spec`).
fn center_drift(p: Player) -> (r: Player)
    requires
        player_wf(p),
    ensures
        r == center_drift_spec(p),
        player_wf(r),
        r.health == p.health && r.energy == p.energy,
{
    let center = Vec2 { x: 200_000_000, y: 200_000_000 };
    let difference = v2_sub(center, p.position);
    let direction = v2_norm(difference);
    let excess: i64 = fx_sub(fx_div(v2_mag(difference), RING_SIZE_X), CENTER_DEAD_ZONE);
    let magnitude: i64 = if excess > 0 {
        excess
    } else {
        0
    };
    Player {
        position: v2_add(p.position, v2_scale(v2_scale(direction, magnitude), CENTER_PULL)),
        rotation: p.rotation,
        velocity: p.velocity,
        fists: p.fists,
        health: p.health,
        energy: p.energy,
    }
}

/// The shared attraction-or-repulsion delta (see
/// `attraction_delta_spec`).
fn attraction_delta(pos0: Vec2, pos1: Vec2) -> (r: i64)
    requires
        v2_ok(pos0),
        v2_ok(pos1),
    ensures
        r == attraction_delta_spec(pos0, pos1),
        fx_ok(r),
{
    let player_distance: i64 = fx_sub(v2_dist(pos0, pos1), 2 * PLAYER_RADIUS);
    let factor: i64 = if player_distance < MIN_PLAYER_DISTANCE {
        REPULSION_FACTOR
    } else {
        ATTRACTION_FACTOR
    };
    let ratio: i64 = fx_clamp(fx_div(player_distance, MIN_PLAYER_DISTANCE), 15_625, 64_000_000);
    let lg: i64 = lg2_fp(ratio);
    fx_mul(lg, factor)
}

/// One combatant displaced by the shared attraction delta (see
/// `apply_attraction_spec`).
fn apply_attraction(p: Player, other_pos: Vec2, delta: i64) -> (r: Player)
    requires
        player_wf(p),
        v2_ok(other_pos),
        fx_ok(delta),
    ensures
        r == apply_attraction_spec(p, other_pos, delta as int),
        player_wf(r),
        r.health == p.health && r.energy == p.energy,
{
    let direction = v2_norm(v2_sub(other_pos, p.position));
    Player {
        position: v2_add(p.position, v2_scale(direction, delta)),
        rotation: p.rotation,
        velocity: p.velocity,
        fists: p.fists,
        health: p.health,
        energy: p.energy,
    }
}

/// Wall clamping (see `clamp_to_ring_spec`).
fn clamp_to_ring(p: Player) -> (r: Player)
    requires
        player_wf(p),
    ensures
        r == clamp_to_ring_spec(p),
        player_wf(r),
        PLAYER_RADIUS <= r.position.x <= RING_SIZE_X - PLAYER_RADIUS,
        PLAYER_RADIUS <= r.position.y <= RING_SIZE_Y - PLAYER_RADIUS,
        r.health == p.health && r.energy == p.energy,
{
    Player {
        position: Vec2 {
            x: fx_clamp(p.position.x, PLAYER_RADIUS, RING_SIZE_X - PLAYER_RADIUS),
            y: fx_clamp(p.position.y, PLAYER_RADIUS, RING_SIZE_Y - PLAYER_RADIUS),
        },
        rotation: p.rotation,
        velocity: p.velocity,
        fists: p.fists,
        health: p.health,
        energy: p.energy,
    }
}

/// Energy regeneration (see `regen_spec`).
fn regen(p: Player) -> (r: Player)
    requires
        player_wf(p),
    ensures
        r == regen_spec(p),
        player_wf(r),
        r.health == p.health,
{
    Player {
        position: p.position,
        rotation: p.rotation,
        velocity: p.velocity,
        fists: p.fists,
        health: p.health,
        energy: fx_clamp(p.energy + ENERGY_REGEN, 0, MAX_ENERGY),
    }
}

/// Saturating counter bump (see `bump_spec`).
fn bump_counter(c: usize, n: usize) -> (r: usize)
    requires
        n <= 2,
    ensures
        r == bump_spec(c as int, n as int),
{
    if c <= usize::MAX - n {
        c + n
    } else {
        usize::MAX
    }
}

/// One full tick of the match, as a fixed ordered pipeline over the
/// state captured at entry: movement with the backward-step penalty,
/// fist advancement with the near-miss reward, fist-body contact,
/// knockback, fist-fist contact, punch initiation aimed at the post-move
/// position snapshot, facing correction toward that snapshot,
/// center-seeking drift, mutual attraction or repulsion, wall clamping,
/// energy regeneration with its shaping reward, then termination and the
/// win bonus. Returns the new state, both rewards and the done flag.
pub open spec fn step_spec(g: GameState, c0: Control, c1: Control) -> (GameState, (int, int), bool) {
    let r0_a: int = if c0.move_y is Back {
        -(BACK_STEP_PENALTY as int)
    } else {
        0
    };
    let r1_a: int = if c1.move_y is Back {
        -(BACK_STEP_PENALTY as int)
    } else {
        0
    };
    let p0_m = handle_move_spec(g.players.0, c0);
    let p1_m = handle_move_spec(g.players.1, c1);
    let pos0 = p0_m.position;
    let pos1 = p1_m.position;
    let a0 = fists_advance_spec(p0_m, pos1);
    let a1 = fists_advance_spec(p1_m, pos0);
    let r0_b = fadd(r0_a, a0.1);
    let r1_b = fadd(r1_a, a1.1);
    let b0 = fist_body_stage_spec(a0.0, pos1);
    let b1 = fist_body_stage_spec(a1.0, pos0);
    let r0_c = fadd(r0_b, b0.2);
    let r1_c = fadd(r1_b, b1.2);
    let p0_k = if b1.1 {
        get_hit_spec(b0.0)
    } else {
        b0.0
    };
    let p1_k = if b0.1 {
        get_hit_spec(b1.0)
    } else {
        b1.0
    };
    let r0_d = if b1.1 {
        fsub(r0_c, KNOCKBACK_PENALTY as int)
    } else {
        r0_c
    };
    let r1_d = if b0.1 {
        fsub(r1_c, KNOCKBACK_PENALTY as int)
    } else {
        r1_c
    };
    let ff = fist_fist_stage_spec(p0_k, p1_k);
    let i0 = initiate_punches_spec(ff.0, c0.left_punch, c0.right_punch, pos1);
    let i1 = initiate_punches_spec(ff.1, c1.left_punch, c1.right_punch, pos0);
    let f0 = rotate_and_face_spec(i0.0, pos1, FACE_MATCH_FACTOR as int);
    let f1 = rotate_and_face_spec(i1.0, pos0, FACE_MATCH_FACTOR as int);
    let d0 = center_drift_spec(f0);
    let d1 = center_drift_spec(f1);
    let delta = attraction_delta_spec(pos0, pos1);
    let t0 = apply_attraction_spec(d0, d1.position, delta);
    let t1 = apply_attraction_spec(d1, d0.position, delta);
    let w0 = clamp_to_ring_spec(t0);
    let w1 = clamp_to_ring_spec(t1);
    let e0 = regen_spec(w0);
    let e1 = regen_spec(w1);
    let r0_e = fadd(r0_d, fmul(ENERGY_SHAPING as int, energy_frac_spec(e0.energy as int)));
    let r1_e = fadd(r1_d, fmul(ENERGY_SHAPING as int, energy_frac_spec(e1.energy as int)));
    let is_done = e0.health <= 0 || e1.health <= 0;
    let r0_f = if is_done && e0.health > e1.health {
        fadd(r0_e, WIN_BONUS as int)
    } else {
        r0_e
    };
    let r1_f = if is_done && e1.health > e0.health {
        fadd(r1_e, WIN_BONUS as int)
    } else {
        r1_e
    };
    (
        GameState {
            players: (e0, e1),
            num_punches: (
                bump_spec(g.num_punches.0 as int, i0.1) as usize,
                bump_spec(g.num_punches.1 as int, i1.1) as usize,
            ),
            num_landed_punches: (
                bump_spec(g.num_landed_punches.0 as int, b0.3) as usize,
                bump_spec(g.num_landed_punches.1 as int, b1.3) as usize,
            ),
        },
        (r0_f, r1_f),
        is_done,
    )
}

impl GameState {
    /// Advance the match by one tick with the pair of controls captured
    /// at the start of the tick. The per-tick pipeline and its fixed
    /// ordering are `step_spec`; health never increases, both
    /// combatants stay well-formed, and the done flag holds exactly when
    /// a combatant's health is exhausted.
    #[verifier::rlimit(100)]
    pub fn step(&mut self, controls: (Control, Control)) -> (r: StepResult)
        requires
            game_wf(*old(self)),
        ensures
            game_wf(*final(self)),
            *final(self) == step_spec(*old(self), controls.0, controls.1).0,
            r.rewards.0 == step_spec(*old(self), controls.0, controls.1).1.0,
            r.rewards.1 == step_spec(*old(self), controls.0, controls.1).1.1,
            r.is_done == step_spec(*old(self), controls.0, controls.1).2,
            r.observations.0 == observation_spec(final(self).players.0, final(self).players.1),
            r.observations.1 == observation_spec(final(self).players.1, final(self).players.0),
            final(self).players.0.health <= old(self).players.0.health,
            final(self).players.1.health <= old(self).players.1.health,
            0 <= final(self).players.0.health && 0 <= final(self).players.1.health,
            0 <= final(self).players.0.energy <= MAX_ENERGY,
            0 <= final(self).players.1.energy <= MAX_ENERGY,
            !((final(self).players.0.fists.0.state is Extending) && (
            final(self).players.0.fists.1.state is Extending)),
            !((final(self).players.1.fists.0.state is Extending) && (
            final(self).players.1.fists.1.state is Extending)),
            r.is_done <==> (final(self).players.0.health <= 0 || final(self).players.1.health
                <= 0),
    {
        let c0 = controls.0;
        let c1 = controls.1;
        let mut p0 = self.players.0;
        let mut p1 = self.players.1;

        // movement, with the backward-step penalty
        let mut reward0: i64 = match c0.move_y {
            MoveY::Back => -BACK_STEP_PENALTY,
            MoveY::Stay => 0,
        };
        let mut reward1: i64 = match c1.move_y {
            MoveY::Back => -BACK_STEP_PENALTY,
            MoveY::Stay => 0,
        };
        p0.handle_move(c0);
        p1.handle_move(c1);
        let players_pos = (p0.position, p1.position);

        // fist state machines, with the near-miss reward
        let a0 = fists_advance(p0, players_pos.1);
        let a1 = fists_advance(p1, players_pos.0);
        p0 = a0.0;
        p1 = a1.0;
        reward0 = fx_add(reward0, a0.1);
        reward1 = fx_add(reward1, a1.1);

        // fist-body contact
        let b0 = fist_body_stage(p0, players_pos.1);
        let b1 = fist_body_stage(p1, players_pos.0);
        p0 = b0.0;
        p1 = b1.0;
        reward0 = fx_add(reward0, b0.2);
        reward1 = fx_add(reward1, b1.2);

        // knockback, at most once per combatant however many fists hit
        if b1.1 {
            p0.get_hit();
            reward0 = fx_sub(reward0, KNOCKBACK_PENALTY);
        }
        if b0.1 {
            p1.get_hit();
            reward1 = fx_sub(reward1, KNOCKBACK_PENALTY);
        }

        // fist-fist contact: extending punches cancel each other
        let ff = fist_fist_stage(p0, p1);
        p0 = ff.0;
        p1 = ff.1;

        // punch initiation, from the start-of-tick controls
        let i0 = initiate_punches(p0, c0.left_punch, c0.right_punch, players_pos.1);
        let i1 = initiate_punches(p1, c1.left_punch, c1.right_punch, players_pos.0);
        p0 = i0.0;
        p1 = i1.0;

        // facing correction toward the post-move snapshot
        p0.rotate_and_face(players_pos.1, FACE_MATCH_FACTOR);
        p1.rotate_and_face(players_pos.0, FACE_MATCH_FACTOR);

        // center-seeking drift
        p0 = center_drift(p0);
        p1 = center_drift(p1);

        // mutual attraction or repulsion around the fighting range
        let delta = attraction_delta(players_pos.0, players_pos.1);
        let players_pos_2 = (p0.position, p1.position);
        p0 = apply_attraction(p0, players_pos_2.1, delta);
        p1 = apply_attraction(p1, players_pos_2.0, delta);

        // wall clamping
        p0 = clamp_to_ring(p0);
        p1 = clamp_to_ring(p1);

        // energy regeneration, and the shaping reward for high energy
        p0 = regen(p0);
        p1 = regen(p1);
        reward0 = fx_add(reward0, fx_mul_unit(ENERGY_SHAPING, fx_unit_frac(p0.energy, MAX_ENERGY)));
        reward1 = fx_add(reward1, fx_mul_unit(ENERGY_SHAPING, fx_unit_frac(p1.energy, MAX_ENERGY)));

        // termination, and the winner's bonus (none on an exact tie)
        let is_done = p0.health <= 0 || p1.health <= 0;
        if is_done {
            if p0.health > p1.health {
                reward0 = fx_add(reward0, WIN_BONUS);
            } else if p1.health > p0.health {
                reward1 = fx_add(reward1, WIN_BONUS);
            }
        }

        let np0 = bump_counter(self.num_punches.0, i0.1);
        let np1 = bump_counter(self.num_punches.1, i1.1);
        let nl0 = bump_counter(self.num_landed_punches.0, b0.3);
        let nl1 = bump_counter(self.num_landed_punches.1, b1.3);
        self.players = (p0, p1);
        self.num_punches = (np0, np1);
        self.num_landed_punches = (nl0, nl1);

        let observation0 = self.get_observation(0);
        let observation1 = self.get_observation(1);

        StepResult {
            observations: (observation0, observation1),
            rewards: (reward0, reward1),
            is_done,
        }
    }
}

/// Law: a fist can only launch into `Extending` when, at that instant,
/// the opposite fist of the same combatant is resting (neither extending
/// nor retracting), its own flag alone is set, and energy is above the
/// punch floor; the launch costs exactly one unit of energy.
pub proof fn lemma_punch_gate(p: Player, left_punch: bool, right_punch: bool, op_position: Vec2)
    requires
        player_wf(p),
    ensures
        (initiate_punches_spec(p, left_punch, right_punch, op_position).0.fists.0.state
            is Extending) && !(p.fists.0.state is Extending) ==> {
            &&& p.fists.0.state is Resting
            &&& p.fists.1.state is Resting
            &&& left_punch && !right_punch
            &&& p.energy > PUNCH_MIN_ENERGY
            &&& initiate_punches_spec(p, left_punch, right_punch, op_position).0.energy
                == p.energy - PUNCH_ENERGY_COST
        },
        (initiate_punches_spec(p, left_punch, right_punch, op_position).0.fists.1.state
            is Extending) && !(p.fists.1.state is Extending) ==> {
            &&& p.fists.0.state is Resting
            &&& p.fists.1.state is Resting
            &&& right_punch && !left_punch
            &&& p.energy > PUNCH_MIN_ENERGY
        },
{
}

/// Law: observing the same state twice, with no step between, yields
/// identical observations.
pub proof fn lemma_observation_idempotent(g1: GameState, g2: GameState)
    requires
        g1 == g2,
    ensures
        observation_spec(g1.players.0, g1.players.1) == observation_spec(
            g2.players.0,
            g2.players.1,
        ),
        observation_spec(g1.players.1, g1.players.0) == observation_spec(
            g2.players.1,
            g2.players.0,
        ),
{
}

} // verus!
