//! Per-frame movement control for player entities in a 2D arena.
//!
//! A player steers in one of four directions and may never reverse in a
//! single frame: it has to turn through a perpendicular direction first.
//! One kind of player moves by integrating its own position; the other hands
//! a velocity command to a physics engine every frame.
//!
//! All quantities are integers: speeds in whole units per second, elapsed
//! time in microseconds, and positions in millionths of a unit, so a
//! displacement `speed * dt` is exact and never rounded.

mod direction;
mod input;
mod laws;
mod motion;
mod player;
mod speed;

pub use direction::{turn, turned, Direction};
pub use input::{DirectionKeys, FrameInput};
pub use laws::{
    course_after, headings, lemma_frame_rate_independent, lemma_headings_never_reverse,
    lemma_reset_orders_identity_pose, lemma_reset_restores, lemma_steady_course,
    lemma_steady_velocity, lemma_turn_never_reverses, lemma_velocity_reasserted, total_time,
};
pub use motion::{
    distance, integrate, integration_check, integration_fits, shifted_x, shifted_y, velocity_of,
    Position, Velocity,
};
pub use player::{
    velocity_along, PhysicsCommand, Player, Player2, PLAYER2_DEFAULT_SPEED, PLAYER2_SPEED_STEP, PLAYER_DEFAULT_SPEED,
    PLAYER_SPEED_STEP,
};
pub use speed::{adjust_fits, adjust_speed, adjusted, speed_in_range};
