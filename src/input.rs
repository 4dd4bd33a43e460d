use vstd::prelude::*;

use crate::direction::Direction;

verus! {

/// Which of a player's four direction keys are held down this frame.
#[derive(Clone, Copy, Debug, PartialEq, Eq, Structural)]
pub struct DirectionKeys {
    pub left: bool,
    pub right: bool,
    pub down: bool,
    pub up: bool,
}

/// Everything a player reads from the keyboard in one frame.
///
/// `speed_up` and `speed_down` are edge-triggered: they are true only in the
/// frame in which the key went down. `reset` is level-triggered: it is true
/// in every frame in which the key is held.
#[derive(Clone, Copy, Debug, PartialEq, Eq, Structural)]
pub struct FrameInput {
    pub keys: DirectionKeys,
    pub speed_up: bool,
    pub speed_down: bool,
    pub reset: bool,
}

impl DirectionKeys {
    /// No direction key is held.
    pub fn none() -> (r: DirectionKeys)
        ensures
            !r.left && !r.right && !r.down && !r.up,
    {
        DirectionKeys { left: false, right: false, down: false, up: false }
    }

    /// The direction asked for by the held keys, with `current` kept when
    /// none is held. The first held key in the order left, right, down, up
    /// wins.
    pub open spec fn requested(self, current: Direction) -> Direction {
        if self.left {
            Direction::Left
        } else if self.right {
            Direction::Right
        } else if self.down {
            Direction::Down
        } else if self.up {
            Direction::Up
        } else {
            current
        }
    }

    /// Resolves the held keys into a candidate direction.
    pub fn resolve(&self, current: Direction) -> (r: Direction)
        ensures
            r == self.requested(current),
    {
        if self.left {
            Direction::Left
        } else if self.right {
            Direction::Right
        } else if self.down {
            Direction::Down
        } else if self.up {
            Direction::Up
        } else {
            current
        }
    }
}

impl FrameInput {
    /// A frame in which no key is held or pressed.
    pub fn idle() -> (r: FrameInput)
        ensures
            !r.keys.left && !r.keys.right && !r.keys.down && !r.keys.up,
            !r.speed_up && !r.speed_down && !r.reset,
    {
        FrameInput { keys: DirectionKeys::none(), speed_up: false, speed_down: false, reset: false }
    }
}

} // verus!
