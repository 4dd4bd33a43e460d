use vstd::prelude::*;

verus! {

/// A speed whose negation is still an `i64`.
pub open spec fn speed_in_range(s: int) -> bool {
    -(i64::MAX as int) <= s <= i64::MAX as int
}

/// The speed after one frame's speed events: `increment` is added when the
/// speed-up key was pressed and taken away when the speed-down key was
/// pressed. Nothing clamps the result, which may reach zero or go negative.
pub open spec fn adjusted(speed: int, increment: int, up: bool, down: bool) -> int {
    speed + (if up { increment } else { 0int }) - (if down { increment } else { 0int })
}

/// Applies one frame's speed events to `speed` in place.
pub fn adjust_speed(speed: &mut i64, increment: i64, up: bool, down: bool)
    requires
        speed_in_range(adjusted(*old(speed) as int, increment as int, up, down)),
    ensures
        *final(speed) == adjusted(*old(speed) as int, increment as int, up, down),
{
    let mut s: i128 = *speed as i128;
    if up {
        s = s + increment as i128;
    }
    if down {
        s = s - increment as i128;
    }
    *speed = s as i64;
}

/// Whether [`adjust_speed`] may be called with these values.
pub fn adjust_fits(speed: i64, increment: i64, up: bool, down: bool) -> (r: bool)
    ensures
        r == speed_in_range(adjusted(speed as int, increment as int, up, down)),
{
    let mut s: i128 = speed as i128;
    if up {
        s = s + increment as i128;
    }
    if down {
        s = s - increment as i128;
    }
    -(i64::MAX as i128) <= s && s <= i64::MAX as i128
}

} // verus!
