use vstd::prelude::*;

use crate::direction::Direction;
use crate::speed::speed_in_range;

verus! {

/// A point of the arena, in millionths of a unit on each axis.
#[derive(Clone, Copy, Debug, PartialEq, Eq, Structural)]
pub struct Position {
    pub x: i64,
    pub y: i64,
}

/// A velocity for the physics engine, in whole units on each axis.
#[derive(Clone, Copy, Debug, PartialEq, Eq, Structural)]
pub struct Velocity {
    pub x: i64,
    pub y: i64,
}

impl Position {
    /// The centre of the arena.
    pub fn origin() -> (r: Position)
        ensures
            r.x == 0 && r.y == 0,
    {
        Position { x: 0, y: 0 }
    }
}

/// The distance covered at `speed` units per second in `dt` microseconds,
/// in millionths of a unit.
pub open spec fn distance(speed: int, dt: int) -> int {
    speed * dt
}

/// Horizontal coordinate after moving `dist` along `d` from `p`.
pub open spec fn shifted_x(p: Position, d: Direction, dist: int) -> int {
    p.x + d.axis_x() * dist
}

/// Vertical coordinate after moving `dist` along `d` from `p`.
pub open spec fn shifted_y(p: Position, d: Direction, dist: int) -> int {
    p.y + d.axis_y() * dist
}

/// Whether both coordinates after one frame of direct integration fit.
pub open spec fn integration_fits(p: Position, d: Direction, speed: int, dt: int) -> bool {
    &&& i64::MIN <= shifted_x(p, d, distance(speed, dt)) <= i64::MAX
    &&& i64::MIN <= shifted_y(p, d, distance(speed, dt)) <= i64::MAX
}

proof fn lemma_distance_bounds(speed: int, dt: int)
    requires
        speed_in_range(speed),
        0 <= dt <= u64::MAX,
    ensures
        -0x7fff_ffff_ffff_ffff_0000_0000_0000_0000 <= distance(speed, dt)
            <= 0x7fff_ffff_ffff_ffff_0000_0000_0000_0000,
{
    assert(-0x7fff_ffff_ffff_ffff * 0x1_0000_0000_0000_0000 <= speed * dt
        <= 0x7fff_ffff_ffff_ffff * 0x1_0000_0000_0000_0000) by (nonlinear_arith)
        requires
            -0x7fff_ffff_ffff_ffff <= speed <= 0x7fff_ffff_ffff_ffff,
            0 <= dt <= 0x1_0000_0000_0000_0000,
    ;
}

/// The distance of one frame as an `i128`, which always holds it.
fn frame_distance(speed: i64, dt: u64) -> (r: i128)
    requires
        speed_in_range(speed as int),
    ensures
        r == distance(speed as int, dt as int),
        -0x7fff_ffff_ffff_ffff_0000_0000_0000_0000 <= r <= 0x7fff_ffff_ffff_ffff_0000_0000_0000_0000,
{
    proof {
        lemma_distance_bounds(speed as int, dt as int);
    }
    speed as i128 * dt as i128
}

/// Whether [`integrate`] may be called with these values.
pub fn integration_check(p: &Position, d: Direction, speed: i64, dt: u64) -> (r: bool)
    requires
        speed_in_range(speed as int),
    ensures
        r == integration_fits(*p, d, speed as int, dt as int),
{
    let dist = frame_distance(speed, dt);
    let (x, y): (i128, i128) = match d {
        Direction::Left => (p.x as i128 - dist, p.y as i128),
        Direction::Right => (p.x as i128 + dist, p.y as i128),
        Direction::Up => (p.x as i128, p.y as i128 + dist),
        Direction::Down => (p.x as i128, p.y as i128 - dist),
    };
    i64::MIN as i128 <= x && x <= i64::MAX as i128 && i64::MIN as i128 <= y && y
        <= i64::MAX as i128
}

/// Moves `pos` along `d` at `speed` units per second for `dt` microseconds.
pub fn integrate(pos: &mut Position, d: Direction, speed: i64, dt: u64)
    requires
        speed_in_range(speed as int),
        integration_fits(*old(pos), d, speed as int, dt as int),
    ensures
        final(pos).x == shifted_x(*old(pos), d, distance(speed as int, dt as int)),
        final(pos).y == shifted_y(*old(pos), d, distance(speed as int, dt as int)),
{
    let dist = frame_distance(speed, dt);
    match d {
        Direction::Left => pos.x = (pos.x as i128 - dist) as i64,
        Direction::Right => pos.x = (pos.x as i128 + dist) as i64,
        Direction::Up => pos.y = (pos.y as i128 + dist) as i64,
        Direction::Down => pos.y = (pos.y as i128 - dist) as i64,
    }
}

/// The velocity of a body moving along `d` at `speed`.
pub fn velocity_of(d: Direction, speed: i64) -> (v: Velocity)
    requires
        speed_in_range(speed as int),
    ensures
        v.x == d.axis_x() * speed,
        v.y == d.axis_y() * speed,
{
    match d {
        Direction::Left => Velocity { x: -speed, y: 0 },
        Direction::Right => Velocity { x: speed, y: 0 },
        Direction::Up => Velocity { x: 0, y: speed },
        Direction::Down => Velocity { x: 0, y: -speed },
    }
}

} // verus!
