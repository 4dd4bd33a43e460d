use uler_kampret::{
    adjust_fits, adjust_speed, integrate, integration_check, turn, velocity_of, Direction,
    DirectionKeys, FrameInput, PhysicsCommand, Player, Player2, Position, Velocity,
    PLAYER2_DEFAULT_SPEED, PLAYER2_SPEED_STEP, PLAYER_DEFAULT_SPEED, PLAYER_SPEED_STEP,
};

/// A tenth of a second, in microseconds.
const TENTH: u64 = 100_000;

/// One unit, in millionths of a unit.
const UNIT: i64 = 1_000_000;

fn held(left: bool, right: bool, down: bool, up: bool) -> FrameInput {
    let mut input = FrameInput::idle();
    input.keys = DirectionKeys { left, right, down, up };
    input
}

fn right_held() -> FrameInput {
    held(false, true, false, false)
}

fn speed_up_pressed() -> FrameInput {
    let mut input = FrameInput::idle();
    input.speed_up = true;
    input
}

fn reset_held() -> FrameInput {
    let mut input = FrameInput::idle();
    input.reset = true;
    input
}

#[test]
fn opposite_of_each_direction() {
    assert_eq!(Direction::Left.opposite(), Direction::Right);
    assert_eq!(Direction::Right.opposite(), Direction::Left);
    assert_eq!(Direction::Up.opposite(), Direction::Down);
    assert_eq!(Direction::Down.opposite(), Direction::Up);
}

#[test]
fn axis_of_each_direction() {
    assert_eq!(Direction::Up.axis(), (0, 1));
    assert_eq!(Direction::Down.axis(), (0, -1));
    assert_eq!(Direction::Left.axis(), (-1, 0));
    assert_eq!(Direction::Right.axis(), (1, 0));
}

#[test]
fn resolve_follows_key_priority() {
    let all = DirectionKeys { left: true, right: true, down: true, up: true };
    assert_eq!(all.resolve(Direction::Up), Direction::Left);
    let no_left = DirectionKeys { left: false, right: true, down: true, up: true };
    assert_eq!(no_left.resolve(Direction::Up), Direction::Right);
    let down_up = DirectionKeys { left: false, right: false, down: true, up: true };
    assert_eq!(down_up.resolve(Direction::Left), Direction::Down);
    let up = DirectionKeys { left: false, right: false, down: false, up: true };
    assert_eq!(up.resolve(Direction::Left), Direction::Up);
}

#[test]
fn resolve_without_keys_keeps_current() {
    let keys = DirectionKeys::none();
    for d in [Direction::Left, Direction::Up, Direction::Right, Direction::Down] {
        assert_eq!(keys.resolve(d), d);
    }
}

#[test]
fn turn_rejects_reverse_only() {
    assert_eq!(turn(Direction::Left, Direction::Right), Direction::Left);
    assert_eq!(turn(Direction::Up, Direction::Down), Direction::Up);
    assert_eq!(turn(Direction::Up, Direction::Right), Direction::Right);
    assert_eq!(turn(Direction::Up, Direction::Left), Direction::Left);
    assert_eq!(turn(Direction::Down, Direction::Down), Direction::Down);
}

#[test]
fn realized_directions_never_reverse() {
    let requests = [
        Direction::Down,
        Direction::Left,
        Direction::Right,
        Direction::Down,
        Direction::Up,
        Direction::Right,
        Direction::Left,
        Direction::Up,
    ];
    let mut current = Direction::Up;
    let mut seen = vec![current];
    for r in requests {
        let next = turn(current, r);
        assert_ne!(next, current.opposite());
        current = next;
        seen.push(current);
    }
    assert_eq!(
        seen,
        vec![
            Direction::Up,
            Direction::Up,
            Direction::Left,
            Direction::Left,
            Direction::Down,
            Direction::Down,
            Direction::Right,
            Direction::Right,
            Direction::Up,
        ]
    );
}

#[test]
fn defaults() {
    let p = Player::default();
    assert_eq!(p.direction, Direction::Up);
    assert_eq!(p.speed, 250);
    assert_eq!(PLAYER_DEFAULT_SPEED, 250);
    assert_eq!(PLAYER_SPEED_STEP, 10);
    let p2 = Player2::default();
    assert_eq!(p2.direction, Direction::Up);
    assert_eq!(p2.speed, 100);
    assert_eq!(PLAYER2_DEFAULT_SPEED, 100);
    assert_eq!(PLAYER2_SPEED_STEP, 1);
}

#[test]
fn scenario_turn_and_move() {
    let mut p = Player { direction: Direction::Up, speed: 250 };
    let mut pos = Position::origin();
    let input = right_held();
    assert!(p.can_update(&pos, &input, TENTH));
    p.update(&mut pos, &input, TENTH);
    assert_eq!(p.direction, Direction::Right);
    assert_eq!(pos, Position { x: 25 * UNIT, y: 0 });
}

#[test]
fn scenario_reverse_rejected() {
    let mut p = Player { direction: Direction::Left, speed: 250 };
    let mut pos = Position::origin();
    p.update(&mut pos, &right_held(), TENTH);
    assert_eq!(p.direction, Direction::Left);
    assert_eq!(pos, Position { x: -25 * UNIT, y: 0 });
}

#[test]
fn scenario_speed_up_edge() {
    let mut speed: i64 = 100;
    adjust_speed(&mut speed, 10, true, false);
    assert_eq!(speed, 110);
    // The key stays held, but no new press edge comes.
    adjust_speed(&mut speed, 10, false, false);
    assert_eq!(speed, 110);

    let mut p = Player { direction: Direction::Up, speed: 100 };
    let mut pos = Position::origin();
    p.update(&mut pos, &speed_up_pressed(), 0);
    assert_eq!(p.speed, 110);
    p.update(&mut pos, &FrameInput::idle(), 0);
    assert_eq!(p.speed, 110);
}

#[test]
fn speed_events_both_fire() {
    let mut speed: i64 = 7;
    adjust_speed(&mut speed, 10, true, true);
    assert_eq!(speed, 7);
}

#[test]
fn speed_may_go_negative() {
    let mut p = Player { direction: Direction::Up, speed: 5 };
    let mut pos = Position::origin();
    let mut input = FrameInput::idle();
    input.speed_down = true;
    p.update(&mut pos, &input, TENTH);
    assert_eq!(p.speed, -5);
    assert_eq!(pos, Position { x: 0, y: -UNIT / 2 });
}

#[test]
fn speed_limits_are_reported() {
    assert!(adjust_fits(i64::MAX - 10, 10, true, false));
    assert!(!adjust_fits(i64::MAX - 9, 10, true, false));
    assert!(!adjust_fits(-i64::MAX + 9, 10, false, true));
    assert!(adjust_fits(i64::MAX, 10, true, true));
    let p = Player { direction: Direction::Up, speed: i64::MAX - 5 };
    let pos = Position::origin();
    assert!(!p.can_update(&pos, &speed_up_pressed(), 0));
    assert!(p.can_update(&pos, &reset_held(), 0));
}

#[test]
fn integrate_moves_along_axis() {
    let mut pos = Position { x: 3, y: 4 };
    integrate(&mut pos, Direction::Down, 2, 1_000_000);
    assert_eq!(pos, Position { x: 3, y: 4 - 2_000_000 });
    integrate(&mut pos, Direction::Left, 7, 3);
    assert_eq!(pos, Position { x: 3 - 21, y: 4 - 2_000_000 });
}

#[test]
fn integration_limits_are_reported() {
    let pos = Position { x: i64::MAX - 10, y: 0 };
    assert!(integration_check(&pos, Direction::Right, 10, 1));
    assert!(!integration_check(&pos, Direction::Right, 11, 1));
    assert!(integration_check(&pos, Direction::Up, i64::MAX, 1));
    assert!(!integration_check(&pos, Direction::Up, i64::MAX, 2));
    assert!(integration_check(&pos, Direction::Left, i64::MAX, 1));
    let p = Player { direction: Direction::Right, speed: 11 };
    assert!(!p.can_update(&pos, &FrameInput::idle(), 1));
}

#[test]
fn frame_split_does_not_change_displacement() {
    let mut one = Player { direction: Direction::Right, speed: 250 };
    let mut one_pos = Position::origin();
    one.update(&mut one_pos, &FrameInput::idle(), 1_000_000);

    let mut many = Player { direction: Direction::Right, speed: 250 };
    let mut many_pos = Position::origin();
    for dt in [100_000u64, 250_000, 16_667, 333_333, 300_000] {
        many.update(&mut many_pos, &FrameInput::idle(), dt);
    }
    assert_eq!(one_pos, Position { x: 250 * UNIT, y: 0 });
    assert_eq!(many_pos, one_pos);
}

#[test]
fn steady_frames_move_by_same_amount() {
    let mut p = Player { direction: Direction::Down, speed: 40 };
    let mut pos = Position { x: 1, y: 2 };
    let input = held(false, false, true, false);
    p.update(&mut pos, &input, TENTH);
    let first = pos;
    p.update(&mut pos, &input, TENTH);
    assert_eq!(p.direction, Direction::Down);
    assert_eq!(p.speed, 40);
    assert_eq!(first, Position { x: 1, y: 2 - 4 * UNIT });
    assert_eq!(pos.y - first.y, first.y - 2);
    assert_eq!(pos.x, 1);
}

#[test]
fn reset_restores_origin_and_speed() {
    let mut p = Player { direction: Direction::Left, speed: -40 };
    let mut pos = Position { x: 123, y: -456 };
    let mut input = reset_held();
    input.keys = DirectionKeys { left: false, right: false, down: true, up: false };
    input.speed_up = true;
    p.update(&mut pos, &input, TENTH);
    assert_eq!(pos, Position::origin());
    assert_eq!(p.speed, PLAYER_DEFAULT_SPEED);
    assert_eq!(p.direction, Direction::Down);
}

#[test]
fn physics_player_orders_velocity() {
    let mut p = Player2::default();
    let cmds = p.update(&right_held(), true);
    assert_eq!(p.direction, Direction::Right);
    assert_eq!(
        cmds,
        vec![PhysicsCommand::SetLinearVelocity { velocity: Velocity { x: 100, y: 0 }, wake: true }]
    );
    let mut input = FrameInput::idle();
    input.speed_down = true;
    let cmds = p.update(&input, true);
    assert_eq!(p.speed, 99);
    assert_eq!(
        cmds,
        vec![PhysicsCommand::SetLinearVelocity { velocity: Velocity { x: 99, y: 0 }, wake: true }]
    );
}

#[test]
fn physics_player_keeps_reasserting_velocity() {
    let mut p = Player2 { direction: Direction::Down, speed: 30 };
    for _ in 0..3 {
        let cmds = p.update(&FrameInput::idle(), true);
        assert_eq!(
            cmds,
            vec![PhysicsCommand::SetLinearVelocity {
                velocity: Velocity { x: 0, y: -30 },
                wake: true
            }]
        );
    }
}

#[test]
fn physics_player_without_body_skips_orders() {
    let mut p = Player2 { direction: Direction::Left, speed: 10 };
    let mut input = held(false, false, false, true);
    input.speed_up = true;
    let cmds = p.update(&input, false);
    assert!(cmds.is_empty());
    assert_eq!(p.direction, Direction::Up);
    assert_eq!(p.speed, 11);
    let cmds = p.update(&FrameInput::idle(), true);
    assert_eq!(
        cmds,
        vec![PhysicsCommand::SetLinearVelocity { velocity: Velocity { x: 0, y: 11 }, wake: true }]
    );
}

#[test]
fn physics_player_reset_orders_identity_pose() {
    let mut p = Player2 { direction: Direction::Left, speed: 55 };
    let cmds = p.update(&reset_held(), true);
    assert_eq!(
        cmds,
        vec![
            PhysicsCommand::SetLinearVelocity { velocity: Velocity { x: -55, y: 0 }, wake: true },
            PhysicsCommand::SetIdentityPose { wake: true },
        ]
    );
    assert_eq!(p.speed, 55);
    assert!(p.update(&reset_held(), false).is_empty());
}

#[test]
fn physics_player_rejects_reverse() {
    let mut p = Player2 { direction: Direction::Up, speed: 5 };
    let cmds = p.update(&held(false, false, true, false), true);
    assert_eq!(p.direction, Direction::Up);
    assert_eq!(
        cmds,
        vec![PhysicsCommand::SetLinearVelocity { velocity: Velocity { x: 0, y: 5 }, wake: true }]
    );
    assert!(!Player2 { direction: Direction::Up, speed: i64::MAX }.can_update(&speed_up_pressed()));
    assert!(Player2 { direction: Direction::Up, speed: i64::MAX }.can_update(&FrameInput::idle()));
}

#[test]
fn velocity_of_each_direction() {
    assert_eq!(velocity_of(Direction::Left, 100), Velocity { x: -100, y: 0 });
    assert_eq!(velocity_of(Direction::Right, -3), Velocity { x: -3, y: 0 });
    assert_eq!(velocity_of(Direction::Up, 7), Velocity { x: 0, y: 7 });
    assert_eq!(velocity_of(Direction::Down, 7), Velocity { x: 0, y: -7 });
    assert_eq!(velocity_of(Direction::Down, i64::MAX), Velocity { x: 0, y: -i64::MAX });
}
