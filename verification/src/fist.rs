//! The per-fist punch state machine.
//!
//! A fist cycles `Resting -> Extending -> Retracting -> Resting` and never
//! takes any other transition. While resting it follows its owner's guard
//! pose; while extending it flies toward a target frozen at launch; while
//! retracting it returns to the live guard pose.

use vstd::prelude::*;

verus! {

use crate::vec2::Vec2;
use crate::vec2::v2_ok;
use crate::params::MAX_PUNCH_SPEED;
use crate::params::PUNCH_RETRACT_SPEED;

/// The lifecycle state of one fist.
#[derive(Clone, Copy, Debug, PartialEq, Eq)]
pub enum FistState {
    /// Following the owner's guard pose.
    Resting,
    /// Flying toward a target frozen at launch, at a launch-time speed.
    Extending { target: Vec2, speed: i64 },
    /// Returning to the live guard pose at a fixed speed.
    Retracting { speed: i64 },
}

/// The dense code of a fist state: resting, extending, retracting.
pub open spec fn fist_state_code(s: FistState) -> int {
    match s {
        FistState::Resting => 0,
        FistState::Extending { .. } => 1,
        FistState::Retracting { .. } => 2,
    }
}

impl FistState {
    /// The dense integer code of this state.
    pub fn to_int(&self) -> (r: usize)
        ensures
            r == fist_state_code(*self),
            r <= 2,
    {
        match self {
            FistState::Resting => 0,
            FistState::Extending { .. } => 1,
            FistState::Retracting { .. } => 2,
        }
    }
}

/// One fist: its state-machine state and its world position.
#[derive(Clone, Copy, Debug, PartialEq, Eq)]
pub struct Fist {
    pub state: FistState,
    pub position: Vec2,
}

/// Well-formedness of a fist: its position and any stored target lie in
/// the working range, and stored speeds are nonnegative and bounded.
pub open spec fn fist_wf(f: Fist) -> bool {
    &&& v2_ok(f.position)
    &&& match f.state {
        FistState::Resting => true,
        FistState::Extending { target, speed } => v2_ok(target) && 0 <= speed <= MAX_PUNCH_SPEED,
        FistState::Retracting { speed } => 0 <= speed <= PUNCH_RETRACT_SPEED,
    }
}

/// A fist forced into retraction: same position, retracting at the fixed
/// retract speed.
pub open spec fn fist_retract_spec(f: Fist) -> Fist {
    Fist { state: FistState::Retracting { speed: PUNCH_RETRACT_SPEED }, position: f.position }
}

impl Fist {
    /// A new fist resting at the given guard position.
    pub fn new(start_pos: Vec2) -> (r: Self)
        requires
            v2_ok(start_pos),
        ensures
            r == (Fist { state: FistState::Resting, position: start_pos }),
            fist_wf(r),
    {
        Self { state: FistState::Resting, position: start_pos }
    }

    /// Force this fist into `Retracting` at the fixed retract speed; its
    /// position stays where contact resolution found it.
    pub fn retract(&mut self)
        requires
            fist_wf(*old(self)),
        ensures
            *final(self) == fist_retract_spec(*old(self)),
            fist_wf(*final(self)),
    {
        self.state = FistState::Retracting { speed: PUNCH_RETRACT_SPEED };
    }
}

} // verus!
