//! A deterministic two-combatant boxing simulation on a fixed-size 2D ring.
//!
//! Each tick consumes one control input per player and advances player
//! kinematics, the fist state machines, contact resolution, drift and wall
//! constraints, then emits per-player observations, rewards and a
//! termination flag.
//!
//! All world quantities are carried in a saturating fixed-point encoding
//! (see [`fx`]), so that every state transition is exact integer
//! arithmetic with a verified contract.

pub mod contact;
pub mod control;
pub mod fist;
pub mod fx;
pub mod game;
pub mod observation;
pub mod params;
pub mod player;
pub mod trig;
pub mod vec2;
