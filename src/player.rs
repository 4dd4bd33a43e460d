use vstd::prelude::*;

use crate::direction::{turn, turned, Direction};
use crate::input::FrameInput;
use crate::motion::{
    distance, integrate, integration_check, integration_fits, shifted_x, shifted_y, velocity_of,
    Position, Velocity,
};
use crate::speed::{adjust_fits, adjust_speed, adjusted, speed_in_range};

verus! {

/// Speed, in units per second, of a freshly made or reset [`Player`].
pub const PLAYER_DEFAULT_SPEED: i64 = 250;

/// What one press of a speed key adds to or takes from a [`Player`]'s speed.
pub const PLAYER_SPEED_STEP: i64 = 10;

/// Speed of a freshly made [`Player2`].
pub const PLAYER2_DEFAULT_SPEED: i64 = 100;

/// What one press of a speed key adds to or takes from a [`Player2`]'s speed.
pub const PLAYER2_SPEED_STEP: i64 = 1;

/// A player that moves itself: every frame it advances its position by
/// `axis(direction) * speed * dt`.
#[derive(Clone, Copy, Debug, PartialEq, Eq, Structural)]
pub struct Player {
    pub direction: Direction,
    /// Units per second. Unbounded: it may reach zero or go negative.
    pub speed: i64,
}

/// A player driven by a physics engine: every frame it commands the
/// velocity of its body, and the engine moves the body.
#[derive(Clone, Copy, Debug, PartialEq, Eq, Structural)]
pub struct Player2 {
    pub direction: Direction,
    /// Units per second handed to the engine. Unbounded, as for [`Player`].
    pub speed: i64,
}

/// An order for the physics engine about one player's body.
#[derive(Clone, Copy, Debug, PartialEq, Eq, Structural)]
pub enum PhysicsCommand {
    /// Set the body's linear velocity, waking it if `wake`.
    SetLinearVelocity { velocity: Velocity, wake: bool },
    /// Move the body to the identity pose (origin, no rotation), waking it if `wake`.
    SetIdentityPose { wake: bool },
}

/// The velocity for moving along `d` at `speed`, both components exact.
pub open spec fn velocity_along(d: Direction, speed: int) -> Velocity {
    Velocity { x: (d.axis_x() * speed) as i64, y: (d.axis_y() * speed) as i64 }
}

impl Default for Player {
    fn default() -> (r: Player)
        ensures
            r.direction == Direction::Up,
            r.speed == PLAYER_DEFAULT_SPEED,
    {
        Player { direction: Direction::Up, speed: PLAYER_DEFAULT_SPEED }
    }
}

impl Default for Player2 {
    fn default() -> (r: Player2)
        ensures
            r.direction == Direction::Up,
            r.speed == PLAYER2_DEFAULT_SPEED,
    {
        Player2 { direction: Direction::Up, speed: PLAYER2_DEFAULT_SPEED }
    }
}

impl Player {
    /// The direction after one frame with `input`.
    pub open spec fn next_direction(self, input: FrameInput) -> Direction {
        turned(self.direction, input.keys.requested(self.direction))
    }

    /// The speed after one frame with `input`: reset restores the default,
    /// else the frame's speed events apply.
    pub open spec fn next_speed(self, input: FrameInput) -> int {
        if input.reset {
            PLAYER_DEFAULT_SPEED as int
        } else {
            adjusted(self.speed as int, PLAYER_SPEED_STEP as int, input.speed_up, input.speed_down)
        }
    }

    /// The horizontal coordinate after one frame of `dt` microseconds.
    pub open spec fn next_x(self, pos: Position, input: FrameInput, dt: int) -> int {
        if input.reset {
            0
        } else {
            shifted_x(pos, self.next_direction(input), distance(self.next_speed(input), dt))
        }
    }

    /// The vertical coordinate after one frame of `dt` microseconds.
    pub open spec fn next_y(self, pos: Position, input: FrameInput, dt: int) -> int {
        if input.reset {
            0
        } else {
            shifted_y(pos, self.next_direction(input), distance(self.next_speed(input), dt))
        }
    }

    /// Whether the new speed and position of the frame fit their integer types.
    pub open spec fn step_fits(self, pos: Position, input: FrameInput, dt: int) -> bool {
        !input.reset ==> {
            &&& speed_in_range(self.next_speed(input))
            &&& integration_fits(pos, self.next_direction(input), self.next_speed(input), dt)
        }
    }

    /// Whether [`Player::update`] may be called with these values.
    pub fn can_update(&self, pos: &Position, input: &FrameInput, dt: u64) -> (r: bool)
        ensures
            r == self.step_fits(*pos, *input, dt as int),
    {
        if input.reset {
            return true;
        }
        if !adjust_fits(self.speed, PLAYER_SPEED_STEP, input.speed_up, input.speed_down) {
            return false;
        }
        let mut speed = self.speed;
        adjust_speed(&mut speed, PLAYER_SPEED_STEP, input.speed_up, input.speed_down);
        let dir = turn(self.direction, input.keys.resolve(self.direction));
        integration_check(pos, dir, speed, dt)
    }

    /// Runs one frame of `dt` microseconds: turn as the keys ask unless that
    /// would reverse, apply the speed events, move, and on reset return to
    /// the origin at the default speed.
    pub fn update(&mut self, pos: &mut Position, input: &FrameInput, dt: u64)
        requires
            old(self).step_fits(*old(pos), *input, dt as int),
        ensures
            final(self).direction == old(self).next_direction(*input),
            final(self).speed == old(self).next_speed(*input),
            final(pos).x == old(self).next_x(*old(pos), *input, dt as int),
            final(pos).y == old(self).next_y(*old(pos), *input, dt as int),
    {
        let candidate = input.keys.resolve(self.direction);
        self.direction = turn(self.direction, candidate);
        if input.reset {
            *pos = Position::origin();
            self.speed = PLAYER_DEFAULT_SPEED;
        } else {
            adjust_speed(&mut self.speed, PLAYER_SPEED_STEP, input.speed_up, input.speed_down);
            integrate(pos, self.direction, self.speed, dt);
        }
    }
}

impl Player2 {
    /// The direction after one frame with `input`.
    pub open spec fn next_direction(self, input: FrameInput) -> Direction {
        turned(self.direction, input.keys.requested(self.direction))
    }

    /// The speed after one frame with `input`. Reset moves the body but
    /// leaves the speed as it is.
    pub open spec fn next_speed(self, input: FrameInput) -> int {
        adjusted(self.speed as int, PLAYER2_SPEED_STEP as int, input.speed_up, input.speed_down)
    }

    /// What one frame with `input` orders the engine to do, when the body
    /// was found: the velocity, then the identity pose if reset is held.
    /// When the body was not found, nothing is ordered.
    pub open spec fn commands(self, input: FrameInput, body_found: bool) -> Seq<PhysicsCommand> {
        if !body_found {
            seq![]
        } else {
            let v = PhysicsCommand::SetLinearVelocity {
                velocity: velocity_along(self.next_direction(input), self.next_speed(input)),
                wake: true,
            };
            if input.reset {
                seq![v, PhysicsCommand::SetIdentityPose { wake: true }]
            } else {
                seq![v]
            }
        }
    }

    /// Whether the new speed of the frame fits.
    pub open spec fn step_fits(self, input: FrameInput) -> bool {
        speed_in_range(self.next_speed(input))
    }

    /// Whether [`Player2::update`] may be called with these values.
    pub fn can_update(&self, input: &FrameInput) -> (r: bool)
        ensures
            r == self.step_fits(*input),
    {
        adjust_fits(self.speed, PLAYER2_SPEED_STEP, input.speed_up, input.speed_down)
    }

    /// Runs one frame: turn as the keys ask unless that would reverse, apply
    /// the speed events, and return the orders for the engine.
    /// `body_found` tells whether the player's body could be looked up this
    /// frame; without it direction and speed still change, and the orders
    /// are skipped until a later frame finds the body.
    pub fn update(&mut self, input: &FrameInput, body_found: bool) -> (cmds: Vec<PhysicsCommand>)
        requires
            old(self).step_fits(*input),
        ensures
            final(self).direction == old(self).next_direction(*input),
            final(self).speed == old(self).next_speed(*input),
            cmds@ == old(self).commands(*input, body_found),
    {
        let candidate = input.keys.resolve(self.direction);
        self.direction = turn(self.direction, candidate);
        adjust_speed(&mut self.speed, PLAYER2_SPEED_STEP, input.speed_up, input.speed_down);
        let mut cmds: Vec<PhysicsCommand> = Vec::new();
        if body_found {
            let velocity = velocity_of(self.direction, self.speed);
            cmds.push(PhysicsCommand::SetLinearVelocity { velocity, wake: true });
            if input.reset {
                cmds.push(PhysicsCommand::SetIdentityPose { wake: true });
            }
        }
        proof {
            assert(cmds@ =~= old(self).commands(*input, body_found));
        }
        cmds
    }
}

} // verus!
