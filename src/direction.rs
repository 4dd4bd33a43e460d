use vstd::prelude::*;

verus! {

/// One of the four compass directions a player can move in.
#[derive(Clone, Copy, Debug, PartialEq, Eq, Structural)]
pub enum Direction {
    Left,
    Up,
    Right,
    Down,
}

impl Direction {
    /// The direction pointing the other way.
    pub open spec fn spec_opposite(self) -> Direction {
        match self {
            Direction::Left => Direction::Right,
            Direction::Right => Direction::Left,
            Direction::Up => Direction::Down,
            Direction::Down => Direction::Up,
        }
    }

    #[verifier::when_used_as_spec(spec_opposite)]
    pub fn opposite(self) -> (r: Direction)
        ensures
            r == self.spec_opposite(),
    {
        match self {
            Direction::Left => Direction::Right,
            Direction::Right => Direction::Left,
            Direction::Up => Direction::Down,
            Direction::Down => Direction::Up,
        }
    }

    /// Horizontal component of the unit vector of this direction.
    pub open spec fn axis_x(self) -> int {
        match self {
            Direction::Left => -1,
            Direction::Right => 1,
            Direction::Up => 0,
            Direction::Down => 0,
        }
    }

    /// Vertical component of the unit vector of this direction.
    pub open spec fn axis_y(self) -> int {
        match self {
            Direction::Left => 0,
            Direction::Right => 0,
            Direction::Up => 1,
            Direction::Down => -1,
        }
    }

    /// The unit vector of this direction: `Up` is `(0, 1)`, `Left` is `(-1, 0)`.
    pub fn axis(self) -> (r: (i8, i8))
        ensures
            r.0 == self.axis_x(),
            r.1 == self.axis_y(),
    {
        match self {
            Direction::Left => (-1, 0),
            Direction::Right => (1, 0),
            Direction::Up => (0, 1),
            Direction::Down => (0, -1),
        }
    }
}

/// The direction a player ends up with when it moves in `current` and is
/// asked to move in `candidate`: the candidate is taken unless it is the
/// exact reverse of the current direction.
pub open spec fn turned(current: Direction, candidate: Direction) -> Direction {
    if candidate != current.opposite() {
        candidate
    } else {
        current
    }
}

/// Applies the turn guard to one requested direction.
pub fn turn(current: Direction, candidate: Direction) -> (r: Direction)
    ensures
        r == turned(current, candidate),
{
    if candidate != current.opposite() {
        candidate
    } else {
        current
    }
}

} // verus!
