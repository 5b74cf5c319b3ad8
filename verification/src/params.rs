//! Named simulation constants, in fixed-point micro-units.
//!
//! The ring geometry and minimum fighting distance are part of the
//! observable contract: external callers use them to interpret world
//! coordinates. The remaining constants tune kinematics, combat stats and
//! reward shaping.

use vstd::prelude::*;

verus! {

/// Ring width, in micro-units (400 world units).
pub const RING_SIZE_X: i64 = 400_000_000;

/// Ring height, in micro-units (400 world units).
pub const RING_SIZE_Y: i64 = 400_000_000;

/// Desired minimum gap between the two bodies (88 world units).
pub const MIN_PLAYER_DISTANCE: i64 = 88_000_000;

/// Health both combatants start with (5 units).
pub const STARTING_HEALTH: i64 = 5_000_000;

/// Upper clamp of the energy gauge (10 units).
pub const MAX_ENERGY: i64 = 10_000_000;

/// Energy both combatants start with (7 units).
pub const STARTING_ENERGY: i64 = 7_000_000;

/// Unconditional per-tick energy regeneration (half a unit per second at
/// twenty-four ticks per second).
pub const ENERGY_REGEN: i64 = 20_833;

/// Body circle radius (26 world units).
pub const PLAYER_RADIUS: i64 = 26_000_000;

/// Movement impulse per tick of held input (3 units per tick).
pub const ACCELERATION: i64 = 3_000_000;

/// Per-tick velocity decay factor (four fifths).
pub const DECCELERATION: i64 = 800_000;

/// Scale of the drift toward the opponent when too far apart.
pub const ATTRACTION_FACTOR: i64 = 2_000_000;

/// Scale of the drift away from the opponent when too close.
pub const REPULSION_FACTOR: i64 = 8_000_000;

/// Backward impulse taken with a landed hit (8 units per tick).
pub const KNOCKBACK_ACCELERATION: i64 = 8_000_000;

/// Fist circle radius (15 world units).
pub const FIST_RADIUS: i64 = 15_000_000;

/// Distance of a resting fist from the body center (56 world units).
pub const FIST_DISTANCE: i64 = 56_000_000;

/// Guard angle at full energy (a quarter half-turn, in micro-radians).
pub const MIN_FIST_OFFSET_ANGLE: i64 = 785_398;

/// Guard angle when exhausted (three tenths of a half-turn).
pub const MAX_FIST_OFFSET_ANGLE: i64 = 942_478;

/// Punch reach when exhausted (100 world units).
pub const MIN_REACH: i64 = 100_000_000;

/// Punch reach at full energy (140 world units).
pub const MAX_REACH: i64 = 140_000_000;

/// Punch speed when exhausted (8 units per tick).
pub const MIN_PUNCH_SPEED: i64 = 8_000_000;

/// Punch speed at full energy (14 units per tick).
pub const MAX_PUNCH_SPEED: i64 = 14_000_000;

/// Speed of a fist returning to its guard (14 units per tick).
pub const PUNCH_RETRACT_SPEED: i64 = 14_000_000;

/// Passive rotation drift per tick of horizontal input (micro-radians).
pub const ROTATION_DRIFT: i64 = 30_000;

/// Fraction of the way each combatant turns toward the opponent per tick.
pub const FACE_MATCH_FACTOR: i64 = 80_000;

/// Fraction of the ring inside which no center-seeking drift applies.
pub const CENTER_DEAD_ZONE: i64 = 300_000;

/// Gain of the center-seeking drift (100 units per unit of excess).
pub const CENTER_PULL: i64 = 100_000_000;

/// Energy floor a punch may be thrown above (1 unit).
pub const PUNCH_MIN_ENERGY: i64 = 1_000_000;

/// Energy a thrown punch costs (1 unit).
pub const PUNCH_ENERGY_COST: i64 = 1_000_000;

/// Health lost with each registered hit (1 unit).
pub const HIT_DAMAGE: i64 = 1_000_000;

/// Reward penalty per tick of backward movement.
pub const BACK_STEP_PENALTY: i64 = 100_000;

/// Peak of the shaped near-miss reward (8 units).
pub const NEAR_MISS_MAX: i64 = 8_000_000;

/// Reward granted for a landed punch (10 units).
pub const HIT_REWARD: i64 = 10_000_000;

/// Reward penalty for being knocked back (6 units).
pub const KNOCKBACK_PENALTY: i64 = 6_000_000;

/// Bonus granted to the healthier side when the match ends (50 units).
pub const WIN_BONUS: i64 = 50_000_000;

/// Per-tick reward gain for a full energy gauge (a ten-thousandth).
pub const ENERGY_SHAPING: i64 = 100;

/// Constant part of the energy weighting of the near-miss reward.
pub const ENERGY_FACTOR_BASE: i64 = 200_000;

/// Energy-dependent part of that weighting.
pub const ENERGY_FACTOR_SLOPE: i64 = 800_000;

/// Velocity scale of the normalized observation (20 units per tick).
pub const MAX_VELOCITY: i64 = 20_000_000;

/// Local-distance scale of the normalized observation (300 world units).
pub const MAX_LOCAL_DISTANCE: i64 = 300_000_000;

/// Number of entries in a normalized observation vector.
pub const OBSERVATION_LENGTH: usize = 25;

} // verus!
