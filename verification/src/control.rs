//! Control inputs and their dense integer encoding.
//!
//! A control combines a horizontal move, an optional backward move and the
//! two punch flags: 24 combinations in all. The encoding onto `0..24` is a
//! fixed mixed-radix composition and is a stable wire contract: policies
//! trained against it depend on the exact mapping. An out-of-range action
//! id decodes to the neutral control rather than failing, because a
//! learning policy may transiently propose invalid ids.

use vstd::prelude::*;

verus! {

/// Horizontal movement intent.
#[derive(Clone, Copy, Debug, PartialEq, Eq)]
pub enum MoveX {
    Left,
    Stay,
    Right,
}

impl MoveX {
    /// The signed unit factor of the horizontal intent.
    pub fn to_num(&self) -> (r: i32)
        ensures
            r == move_x_num(*self),
    {
        match self {
            MoveX::Left => -1,
            MoveX::Right => 1,
            MoveX::Stay => 0,
        }
    }
}

/// The signed unit factor of the horizontal intent.
pub open spec fn move_x_num(m: MoveX) -> int {
    match m {
        MoveX::Left => -1,
        MoveX::Right => 1,
        MoveX::Stay => 0,
    }
}

/// Vertical movement intent: only backing off is possible.
#[derive(Clone, Copy, Debug, PartialEq, Eq)]
pub enum MoveY {
    Back,
    Stay,
}

impl MoveY {
    /// The signed unit factor of the vertical intent.
    pub fn to_num(&self) -> (r: i32)
        ensures
            r == move_y_num(*self),
    {
        match self {
            MoveY::Stay => 0,
            MoveY::Back => -1,
        }
    }
}

/// The signed unit factor of the vertical intent.
pub open spec fn move_y_num(m: MoveY) -> int {
    match m {
        MoveY::Stay => 0,
        MoveY::Back => -1,
    }
}

/// One tick's input for one player.
#[derive(Clone, Copy, Debug, PartialEq, Eq)]
pub struct Control {
    pub move_x: MoveX,
    pub move_y: MoveY,
    pub left_punch: bool,
    pub right_punch: bool,
}

/// The neutral, no-op control.
pub open spec fn control_neutral() -> Control {
    Control { move_x: MoveX::Stay, move_y: MoveY::Stay, left_punch: false, right_punch: false }
}

impl Default for Control {
    /// The neutral control: no movement, no punches.
    fn default() -> (r: Self)
        ensures
            r == control_neutral(),
    {
        Self { move_x: MoveX::Stay, move_y: MoveY::Stay, left_punch: false, right_punch: false }
    }
}

/// The action id of a control: a mixed-radix composition of its four
/// independent fields.
pub open spec fn control_to_int_spec(c: Control) -> int {
    let x: int = match c.move_x {
        MoveX::Stay => 0,
        MoveX::Left => 1,
        MoveX::Right => 2,
    };
    let y: int = match c.move_y {
        MoveY::Stay => 0,
        MoveY::Back => 1,
    };
    let l: int = if c.left_punch {
        1
    } else {
        0
    };
    let r: int = if c.right_punch {
        1
    } else {
        0
    };
    8 * x + 4 * y + l + 2 * r
}

/// The control an action id denotes; ids outside `0..24` denote the
/// neutral control.
pub open spec fn control_from_int_spec(i: int) -> Control {
    if 0 <= i < 24 {
        Control {
            move_x: if i < 8 {
                MoveX::Stay
            } else if i < 16 {
                MoveX::Left
            } else {
                MoveX::Right
            },
            move_y: if i % 8 < 4 {
                MoveY::Stay
            } else {
                MoveY::Back
            },
            left_punch: i % 2 == 1,
            right_punch: i % 4 >= 2,
        }
    } else {
        control_neutral()
    }
}

impl Control {
    /// Encode this control as its dense action id in `0..24`.
    pub fn to_int(&self) -> (r: usize)
        ensures
            r == control_to_int_spec(*self),
            r < 24,
    {
        let x: usize = match self.move_x {
            MoveX::Stay => 0,
            MoveX::Left => 1,
            MoveX::Right => 2,
        };
        let y: usize = match self.move_y {
            MoveY::Stay => 0,
            MoveY::Back => 1,
        };
        let l: usize = if self.left_punch {
            1
        } else {
            0
        };
        let r: usize = if self.right_punch {
            1
        } else {
            0
        };
        8 * x + 4 * y + l + 2 * r
    }

    /// Decode an action id; ids outside `0..24` yield the neutral control.
    pub fn from_int(action: usize) -> (r: Self)
        ensures
            r == control_from_int_spec(action as int),
    {
        if action < 24 {
            let move_x = if action < 8 {
                MoveX::Stay
            } else if action < 16 {
                MoveX::Left
            } else {
                MoveX::Right
            };
            let move_y = if action % 8 < 4 {
                MoveY::Stay
            } else {
                MoveY::Back
            };
            let left_punch = action % 2 == 1;
            let right_punch = action % 4 >= 2;
            Self { move_x, move_y, left_punch, right_punch }
        } else {
            Self { move_x: MoveX::Stay, move_y: MoveY::Stay, left_punch: false, right_punch: false }
        }
    }
}

/// Law: decoding the id of any control gives that control back.
pub proof fn lemma_control_roundtrip(c: Control)
    ensures
        control_from_int_spec(control_to_int_spec(c)) == c,
{
    match c.move_x {
        MoveX::Stay => {
            assert(control_from_int_spec(control_to_int_spec(c)) == c);
        },
        MoveX::Left => {
            assert(control_from_int_spec(control_to_int_spec(c)) == c);
        },
        MoveX::Right => {
            assert(control_from_int_spec(control_to_int_spec(c)) == c);
        },
    }
}

/// Law: encoding the control an in-range action id decodes to gives the
/// same id back.
pub proof fn lemma_action_roundtrip(i: int)
    requires
        0 <= i < 24,
    ensures
        control_to_int_spec(control_from_int_spec(i)) == i,
{
}

} // verus!
