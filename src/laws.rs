use vstd::prelude::*;

use crate::direction::{turned, Direction};
use crate::input::FrameInput;
use crate::motion::{distance, Position};
use crate::player::{
    velocity_along, PhysicsCommand, Player, Player2, PLAYER_DEFAULT_SPEED,
};

verus! {

/// The directions held frame after frame by a player that starts in
/// `start` and is asked for `candidates` in turn: `start` first, then the
/// direction after each request.
pub open spec fn headings(start: Direction, candidates: Seq<Direction>) -> Seq<Direction>
    decreases candidates.len(),
{
    if candidates.len() == 0 {
        seq![start]
    } else {
        let before = headings(start, candidates.drop_last());
        before.push(turned(before.last(), candidates.last()))
    }
}

/// A single request never turns a player straight round.
pub proof fn lemma_turn_never_reverses(current: Direction, candidate: Direction)
    ensures
        turned(current, candidate) != current.opposite(),
{
}

/// Whatever directions are asked for, frame after frame, no direction a
/// player holds is ever followed by its opposite.
pub proof fn lemma_headings_never_reverse(start: Direction, candidates: Seq<Direction>)
    ensures
        headings(start, candidates).len() == candidates.len() + 1,
        forall|i: int|
            1 <= i <= candidates.len() ==> #[trigger] headings(start, candidates)[i] != headings(
                start,
                candidates,
            )[i - 1].opposite(),
    decreases candidates.len(),
{
    if candidates.len() > 0 {
        let rest = candidates.drop_last();
        lemma_headings_never_reverse(start, rest);
        let before = headings(start, rest);
        let h = headings(start, candidates);
        assert(h == before.push(turned(before.last(), candidates.last())));
        lemma_turn_never_reverses(before.last(), candidates.last());
        assert forall|i: int| 1 <= i <= candidates.len() implies #[trigger] h[i] != h[i
            - 1].opposite() by {
            if i < candidates.len() {
                assert(before[i] != before[i - 1].opposite());
                assert(h[i] == before[i]);
                assert(h[i - 1] == before[i - 1]);
            }
        }
    }
}

/// A frame that asks for the direction already held, with no speed event
/// and no reset, keeps direction and speed, and moves the player by exactly
/// `axis(direction) * speed * dt`: every such frame of the same length moves
/// it by the same amount.
pub proof fn lemma_steady_course(p: Player, pos: Position, input: FrameInput, dt: int)
    requires
        input.keys.requested(p.direction) == p.direction,
        !input.speed_up,
        !input.speed_down,
        !input.reset,
    ensures
        p.next_direction(input) == p.direction,
        p.next_speed(input) == p.speed,
        p.next_x(pos, input, dt) - pos.x == p.direction.axis_x() * distance(p.speed as int, dt),
        p.next_y(pos, input, dt) - pos.y == p.direction.axis_y() * distance(p.speed as int, dt),
{
}

/// A frame that asks for the direction already held, with no speed event,
/// keeps direction and speed, and orders the same velocity as the frame
/// before it.
pub proof fn lemma_steady_velocity(p: Player2, input: FrameInput)
    requires
        input.keys.requested(p.direction) == p.direction,
        !input.speed_up,
        !input.speed_down,
    ensures
        p.next_direction(input) == p.direction,
        p.next_speed(input) == p.speed,
        p.commands(input, true)[0] == (PhysicsCommand::SetLinearVelocity {
            velocity: velocity_along(p.direction, p.speed as int),
            wake: true,
        }),
{
}

/// Total of the frame lengths in `dts`.
pub open spec fn total_time(dts: Seq<int>) -> int
    decreases dts.len(),
{
    if dts.len() == 0 {
        0
    } else {
        total_time(dts.drop_last()) + dts.last()
    }
}

/// Where direct integration takes a player from `start` along `d` at
/// `speed`, over frames lasting `dts` microseconds, one after another.
pub open spec fn course_after(start: (int, int), d: Direction, speed: int, dts: Seq<int>) -> (int, int)
    decreases dts.len(),
{
    if dts.len() == 0 {
        start
    } else {
        let before = course_after(start, d, speed, dts.drop_last());
        (
            before.0 + d.axis_x() * distance(speed, dts.last()),
            before.1 + d.axis_y() * distance(speed, dts.last()),
        )
    }
}

/// Moving in a fixed direction at a fixed speed, the displacement depends
/// on the total time alone, not on how it is split into frames.
pub proof fn lemma_frame_rate_independent(
    start: (int, int),
    d: Direction,
    speed: int,
    dts: Seq<int>,
)
    ensures
        course_after(start, d, speed, dts) == (
            start.0 + d.axis_x() * distance(speed, total_time(dts)),
            start.1 + d.axis_y() * distance(speed, total_time(dts)),
        ),
    decreases dts.len(),
{
    if dts.len() > 0 {
        let rest = dts.drop_last();
        lemma_frame_rate_independent(start, d, speed, rest);
        let t = total_time(rest);
        let last = dts.last();
        assert(total_time(dts) == t + last);
        assert(distance(speed, t) + distance(speed, last) == distance(speed, t + last))
            by (nonlinear_arith);
        let now = course_after(start, d, speed, dts);
        let whole = distance(speed, total_time(dts));
        match d {
            Direction::Left => {},
            Direction::Right => {},
            Direction::Up => {},
            Direction::Down => {},
        }
        assert(now.0 == start.0 + d.axis_x() * whole);
        assert(now.1 == start.1 + d.axis_y() * whole);
    } else {
        assert(distance(speed, 0) == 0);
        match d {
            Direction::Left => {},
            Direction::Right => {},
            Direction::Up => {},
            Direction::Down => {},
        }
    }
}

/// Every frame that finds the body orders the velocity `axis(d) * speed`
/// for the direction `d` asked for (when it is not the reverse) and the
/// speed after the frame's speed events. Nothing the engine reports goes
/// into it, so whatever the engine did to the velocity is overwritten.
pub proof fn lemma_velocity_reasserted(p: Player2, input: FrameInput, d: Direction)
    requires
        p.step_fits(input),
        input.keys.requested(p.direction) == d,
        d != p.direction.opposite(),
    ensures
        p.commands(input, true)[0] == (PhysicsCommand::SetLinearVelocity {
            velocity: velocity_along(d, p.next_speed(input)),
            wake: true,
        }),
        velocity_along(d, p.next_speed(input)).x == d.axis_x() * p.next_speed(input),
        velocity_along(d, p.next_speed(input)).y == d.axis_y() * p.next_speed(input),
{
    match d {
        Direction::Left => {},
        Direction::Right => {},
        Direction::Up => {},
        Direction::Down => {},
    }
}

/// Reset puts a self-moving player at the origin with the default speed,
/// whatever its direction, speed and position were.
pub proof fn lemma_reset_restores(p: Player, pos: Position, input: FrameInput, dt: int)
    requires
        input.reset,
    ensures
        p.next_x(pos, input, dt) == 0,
        p.next_y(pos, input, dt) == 0,
        p.next_speed(input) == PLAYER_DEFAULT_SPEED,
{
}

/// Reset orders a physics-driven player's body to the identity pose, as the
/// last order of the frame, whatever the player's state was.
pub proof fn lemma_reset_orders_identity_pose(p: Player2, input: FrameInput)
    requires
        input.reset,
    ensures
        p.commands(input, true).last() == (PhysicsCommand::SetIdentityPose { wake: true }),
{
}

} // verus!
