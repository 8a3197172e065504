use vstd::prelude::*;
use crate::constants::FALL_TIME;

verus! {

/// What the player asks for in one simulation update. The four directions
/// hold for as long as their key is held; the two turns fire once per
/// press.
#[derive(Clone, Copy, Debug, PartialEq, Eq, Structural)]
pub struct Motion {
    pub up: bool,
    pub down: bool,
    pub left: bool,
    pub right: bool,
    pub rotation_right: bool,
    pub rotation_left: bool,
}

impl Default for Motion {
    fn default() -> (motion: Motion)
        ensures
            motion == Motion::idle(),
    {
        Motion {
            up: false,
            down: false,
            left: false,
            right: false,
            rotation_right: false,
            rotation_left: false,
        }
    }
}

impl Motion {
    /// The motion that asks for nothing.
    pub open spec fn idle() -> Motion {
        Motion {
            up: false,
            down: false,
            left: false,
            right: false,
            rotation_right: false,
            rotation_left: false,
        }
    }

    /// Whether the motion asks for anything.
    pub open spec fn is_any(self) -> bool {
        self.up || self.down || self.left || self.right || self.rotation_left
            || self.rotation_right
    }

    /// The motion that two axes and two buttons ask for. A positive value
    /// of the vertical axis is up, a negative one down; a negative value of
    /// the horizontal axis is left, a positive one right.
    pub fn new(vertical: i32, horizontal: i32, rotation_right: bool, rotation_left: bool) -> (motion:
        Motion)
        ensures
            motion == (Motion {
                up: vertical > 0,
                down: vertical < 0,
                left: horizontal < 0,
                right: horizontal > 0,
                rotation_right,
                rotation_left,
            }),
    {
        Motion {
            up: vertical > 0,
            down: vertical < 0,
            left: horizontal < 0,
            right: horizontal > 0,
            rotation_right,
            rotation_left,
        }
    }

    /// Forgets everything that was asked for.
    pub fn reset(&mut self)
        ensures
            *final(self) == Motion::idle(),
    {
        self.up = false;
        self.down = false;
        self.left = false;
        self.right = false;
        self.rotation_right = false;
        self.rotation_left = false;
    }

    /// Whether the motion asks for anything.
    pub fn any(&self) -> (any: bool)
        ensures
            any == self.is_any(),
    {
        self.up || self.down || self.left || self.right || self.rotation_left
            || self.rotation_right
    }
}

/// The time left until the controlled piece falls by itself, in simulation
/// updates. It is negative in the update in which the piece falls.
#[derive(Clone, Copy, Debug, PartialEq, Eq, Structural)]
pub struct Timing {
    pub fall_timeout: i32,
}

impl Default for Timing {
    fn default() -> (timing: Timing)
        ensures
            timing.fall_timeout == FALL_TIME,
    {
        Timing { fall_timeout: FALL_TIME as i32 }
    }
}

} // verus!
