//! The match engine: scenarios, invariants and the observation codec.

use boxing::control::{Control, MoveX, MoveY};
use boxing::fist::{Fist, FistState};
use boxing::game::GameState;
use boxing::params::{
    MAX_ENERGY, MAX_PUNCH_SPEED, MIN_FIST_OFFSET_ANGLE, MIN_PUNCH_SPEED, MIN_REACH,
    OBSERVATION_LENGTH, PLAYER_RADIUS, PUNCH_RETRACT_SPEED, RING_SIZE_X, RING_SIZE_Y,
    STARTING_ENERGY, STARTING_HEALTH,
};
use boxing::player::Player;
use boxing::trig::FX_PI;
use boxing::vec2::Vec2;

fn neutral() -> Control {
    Control::default()
}

fn punch_left() -> Control {
    Control { move_x: MoveX::Stay, move_y: MoveY::Stay, left_punch: true, right_punch: false }
}

fn is_resting(f: &Fist) -> bool {
    matches!(f.state, FistState::Resting)
}

fn is_extending(f: &Fist) -> bool {
    matches!(f.state, FistState::Extending { .. })
}

#[test]
fn new_match_layout() {
    let state = GameState::new();
    assert_eq!(state.players.0.position, Vec2 { x: 200_000_000, y: 100_000_000 });
    assert_eq!(state.players.0.rotation, FX_PI);
    assert_eq!(state.players.1.position, Vec2 { x: 200_000_000, y: 300_000_000 });
    assert_eq!(state.players.1.rotation, 0);
    for p in [&state.players.0, &state.players.1] {
        assert_eq!(p.health, STARTING_HEALTH);
        assert_eq!(p.energy, STARTING_ENERGY);
        assert_eq!(p.velocity, Vec2 { x: 0, y: 0 });
        assert!(is_resting(&p.fists.0));
        assert!(is_resting(&p.fists.1));
    }
    assert_eq!(state.num_punches, (0, 0));
    assert_eq!(state.num_landed_punches, (0, 0));
}

#[test]
fn neutral_tick_changes_nothing_but_drift() {
    let mut state = GameState::new();
    let result = state.step((neutral(), neutral()));
    // both fists stay resting, gauges keep their values except regen
    for p in [&state.players.0, &state.players.1] {
        assert!(is_resting(&p.fists.0));
        assert!(is_resting(&p.fists.1));
        assert_eq!(p.health, STARTING_HEALTH);
        assert_eq!(p.energy, STARTING_ENERGY + 20_833);
        assert_eq!(p.velocity, Vec2 { x: 0, y: 0 });
    }
    // at the symmetric starting poses the facing correction is exact
    assert_eq!(state.players.0.rotation, FX_PI);
    assert_eq!(state.players.1.rotation, 0);
    assert!(!result.is_done);
    // the only reward is the energy-conservation shaping term
    assert_eq!(result.rewards, (70, 70));
    assert_eq!(state.num_punches, (0, 0));
}

#[test]
fn left_punch_launches_and_costs_energy() {
    let mut state = GameState::new();
    let result = state.step((punch_left(), neutral()));
    assert!(!result.is_done);
    // the left fist extends toward the opponent's post-move position at
    // the punch speed set by the pre-punch energy fraction
    match state.players.0.fists.0.state {
        FistState::Extending { target, speed } => {
            assert_eq!(target, Vec2 { x: 200_000_000, y: 300_000_000 });
            assert_eq!(speed, 12_200_000);
        },
        _ => panic!("left fist did not extend"),
    }
    assert!(is_resting(&state.players.0.fists.1));
    // one unit of energy spent, then the tick's regeneration
    assert_eq!(state.players.0.energy, STARTING_ENERGY - 1_000_000 + 20_833);
    assert_eq!(state.num_punches, (1, 0));
    // a punch launched this tick cannot land this tick
    assert_eq!(state.players.1.health, STARTING_HEALTH);
    assert_eq!(state.num_landed_punches, (0, 0));
}

#[test]
fn both_punch_flags_block_each_other() {
    let mut state = GameState::new();
    let both = Control {
        move_x: MoveX::Stay,
        move_y: MoveY::Stay,
        left_punch: true,
        right_punch: true,
    };
    state.step((both, neutral()));
    assert!(is_resting(&state.players.0.fists.0));
    assert!(is_resting(&state.players.0.fists.1));
    assert_eq!(state.num_punches, (0, 0));
    assert_eq!(state.players.0.energy, STARTING_ENERGY + 20_833);
}

#[test]
fn punch_needs_energy_above_floor() {
    let mut state = GameState::new();
    state.players.0.energy = 1_000_000;
    state.step((punch_left(), neutral()));
    assert!(is_resting(&state.players.0.fists.0));
    assert_eq!(state.num_punches, (0, 0));
    assert_eq!(state.players.0.energy, 1_000_000 + 20_833);
}

/// A state with the attacker's left fist already in flight, one step
/// short of the defender's body.
fn about_to_land() -> GameState {
    let mut state = GameState::new();
    state.players.0.position = Vec2 { x: 150_000_000, y: 200_000_000 };
    state.players.1.position = Vec2 { x: 250_000_000, y: 200_000_000 };
    state.players.0.fists.0 = Fist {
        state: FistState::Extending {
            target: Vec2 { x: 250_000_000, y: 200_000_000 },
            speed: 8_000_000,
        },
        position: Vec2 { x: 230_000_000, y: 200_000_000 },
    };
    state
}

#[test]
fn landed_punch_hits_knocks_and_retracts() {
    let mut state = about_to_land();
    let result = state.step((neutral(), neutral()));
    // the defender loses exactly one unit of health and is knocked back
    assert_eq!(state.players.1.health, STARTING_HEALTH - 1_000_000);
    assert_ne!(state.players.1.velocity, Vec2 { x: 0, y: 0 });
    // the attacking fist retracts within the same tick
    match state.players.0.fists.0.state {
        FistState::Retracting { speed } => assert_eq!(speed, PUNCH_RETRACT_SPEED),
        _ => panic!("attacking fist did not retract"),
    }
    assert_eq!(state.num_landed_punches, (1, 0));
    // the fixed hit reward and knockback penalty, plus shaping
    assert_eq!(result.rewards, (10_000_070, -5_999_930));
    assert!(!result.is_done);
}

#[test]
fn simultaneous_knockouts_tie_without_bonus() {
    let mut state = about_to_land();
    state.players.0.health = 1_000_000;
    state.players.1.health = 1_000_000;
    state.players.1.fists.0 = Fist {
        state: FistState::Extending {
            target: Vec2 { x: 150_000_000, y: 200_000_000 },
            speed: 8_000_000,
        },
        position: Vec2 { x: 170_000_000, y: 200_000_000 },
    };
    let result = state.step((neutral(), neutral()));
    assert!(result.is_done);
    assert_eq!(state.players.0.health, 0);
    assert_eq!(state.players.1.health, 0);
    // both land, both are knocked back, and the tie grants no win bonus
    assert_eq!(result.rewards, (4_000_070, 4_000_070));
}

#[test]
fn knockout_grants_win_bonus_to_healthier_side() {
    let mut state = about_to_land();
    state.players.1.health = 1_000_000;
    let result = state.step((neutral(), neutral()));
    assert!(result.is_done);
    assert_eq!(state.players.1.health, 0);
    assert_eq!(state.players.0.health, STARTING_HEALTH);
    assert_eq!(result.rewards.0, 10_000_070 + 50_000_000);
    assert_eq!(result.rewards.1, -5_999_930);
}

#[test]
fn invariants_hold_over_a_varied_match() {
    let mut state = GameState::new();
    let mut prev_health = (state.players.0.health, state.players.1.health);
    for t in 0..300usize {
        let c0 = Control::from_int((t * 7 + 3) % 24);
        let c1 = Control::from_int((t * 5 + 11) % 24);
        let result = state.step((c0, c1));
        for p in [&state.players.0, &state.players.1] {
            // energy stays inside its clamps after any sequence of ticks
            assert!(p.energy >= 0 && p.energy <= MAX_ENERGY);
            // health never goes below zero
            assert!(p.health >= 0);
            // never both fists extending: one punch at a time
            assert!(!(is_extending(&p.fists.0) && is_extending(&p.fists.1)));
            // the body circle stays inside the ring after wall clamping
            assert!(p.position.x >= PLAYER_RADIUS && p.position.x <= RING_SIZE_X - PLAYER_RADIUS);
            assert!(p.position.y >= PLAYER_RADIUS && p.position.y <= RING_SIZE_Y - PLAYER_RADIUS);
        }
        // health is non-increasing over the match
        assert!(state.players.0.health <= prev_health.0);
        assert!(state.players.1.health <= prev_health.1);
        prev_health = (state.players.0.health, state.players.1.health);
        assert_eq!(
            result.is_done,
            state.players.0.health <= 0 || state.players.1.health <= 0,
        );
    }
}

#[test]
fn observation_query_is_idempotent() {
    let mut state = GameState::new();
    state.step((punch_left(), neutral()));
    state.step((neutral(), punch_left()));
    for player_i in [0usize, 1usize] {
        let first = state.get_observation(player_i);
        let second = state.get_observation(player_i);
        assert_eq!(first, second);
    }
}

#[test]
fn observation_keeps_world_fields_verbatim() {
    let state = GameState::new();
    let obs = state.get_observation(0);
    assert_eq!(obs.health, STARTING_HEALTH);
    assert_eq!(obs.op_health, STARTING_HEALTH);
    assert_eq!(obs.energy, STARTING_ENERGY);
    // own position and rotation pass through in world coordinates
    assert_eq!(obs.position, Vec2 { x: 200_000_000, y: 100_000_000 });
    assert_eq!(obs.rotation, FX_PI);
    // the opponent, 200 units below in world space, sits ahead of the
    // downward-facing observer in its local frame
    assert!(obs.op_position.y > 199_000_000 && obs.op_position.y < 201_000_000);
    assert!(obs.op_position.x > -1_000_000 && obs.op_position.x < 1_000_000);
    assert_eq!(obs.left_fist_state, 0);
    assert_eq!(obs.op_left_fist_state, 0);
}

#[test]
fn normalized_observation_layout() {
    let state = GameState::new();
    let v = state.get_observation(0).normalize();
    assert_eq!(v.len(), OBSERVATION_LENGTH);
    assert_eq!(v[0], 1_000_000);  // full health
    assert_eq!(v[1], 1_000_000);
    assert_eq!(v[2], 700_000);  // starting energy fraction
    assert_eq!(v[4], 500_000);  // ring-center column
    assert_eq!(v[5], 250_000);  // upper quarter row
    assert_eq!(v[6], 1_000_000);  // rotation of one half-turn maps to one
    assert_eq!(v[13], 0);  // resting fists
    assert_eq!(v[14], 0);
    assert_eq!(v[23], 0);
    assert_eq!(v[24], 0);
    for entry in v {
        assert!(entry >= -1_000_000 && entry <= 1_000_000);
    }
}

#[test]
fn combat_stats_interpolate_with_energy() {
    let mut p = Player::new(Vec2 { x: 200_000_000, y: 200_000_000 }, 0);
    p.energy = 0;
    assert_eq!(p.get_punch_speed(), MIN_PUNCH_SPEED);
    assert_eq!(p.get_reach(), MIN_REACH);
    assert_eq!(p.get_fist_offset_angle(), 942_478);
    p.energy = MAX_ENERGY;
    assert_eq!(p.get_punch_speed(), MAX_PUNCH_SPEED);
    assert_eq!(p.get_reach(), 140_000_000);
    assert_eq!(p.get_fist_offset_angle(), MIN_FIST_OFFSET_ANGLE);
    p.energy = STARTING_ENERGY;
    assert_eq!(p.get_punch_speed(), 12_200_000);
    assert_eq!(p.get_reach(), 128_000_000);
}

#[test]
fn repeated_hits_floor_health_at_zero() {
    let mut p = Player::new(Vec2 { x: 200_000_000, y: 200_000_000 }, 0);
    for expected in [4_000_000i64, 3_000_000, 2_000_000, 1_000_000, 0, 0, 0] {
        p.get_hit();
        assert_eq!(p.health, expected);
    }
}

#[test]
fn forced_retraction_keeps_position() {
    let mut fist = Fist {
        state: FistState::Extending {
            target: Vec2 { x: 0, y: 0 },
            speed: MAX_PUNCH_SPEED,
        },
        position: Vec2 { x: 10_000_000, y: 20_000_000 },
    };
    fist.retract();
    match fist.state {
        FistState::Retracting { speed } => assert_eq!(speed, PUNCH_RETRACT_SPEED),
        _ => panic!("retract did not force the retracting state"),
    }
    assert_eq!(fist.position, Vec2 { x: 10_000_000, y: 20_000_000 });
}

#[test]
fn fist_state_codes() {
    assert_eq!(FistState::Resting.to_int(), 0);
    let ext = FistState::Extending { target: Vec2 { x: 0, y: 0 }, speed: 8_000_000 };
    assert_eq!(ext.to_int(), 1);
    assert_eq!(FistState::Retracting { speed: 14_000_000 }.to_int(), 2);
}

#[test]
fn walking_forward_moves_along_facing() {
    let mut p = Player::new(Vec2 { x: 200_000_000, y: 200_000_000 }, 0);
    p.move_forwand(10_000_000);
    // facing up: x untouched, y decreases by about ten units
    assert_eq!(p.position.x, 200_000_000);
    assert!(p.position.y > 189_900_000 && p.position.y < 190_100_000);
}
