//! A self-test pattern for the emulated peripheral: every stick axis and
//! trigger sweeps back and forth between two bounds, one step per write.
use vstd::prelude::*;
use crate::model::{baseline, UniversalGamepad};

verus! {

pub const OSCILLATE_LOWER: u8 = 64;

pub const OSCILLATE_UPPER: u8 = 192;

/// Next value and direction of the sweep: the direction turns at each bound,
/// and the value moves one step that way without leaving the bounds.
pub open spec fn spec_oscillate(value: u8, up: bool) -> (u8, bool) {
    let up = if value == OSCILLATE_LOWER {
        true
    } else if value == OSCILLATE_UPPER {
        false
    } else {
        up
    };
    let value = if up && value < OSCILLATE_UPPER {
        (value + 1) as u8
    } else if !up && value > OSCILLATE_LOWER {
        (value - 1) as u8
    } else {
        value
    };
    (value, up)
}

/// One step of the sweep.
pub fn oscillate_step(value: u8, up: bool) -> (r: (u8, bool))
    ensures
        r == spec_oscillate(value, up),
        OSCILLATE_LOWER <= value <= OSCILLATE_UPPER ==> OSCILLATE_LOWER <= r.0 <= OSCILLATE_UPPER,
{
    let mut up = up;
    if value == OSCILLATE_LOWER {
        up = true;
    } else if value == OSCILLATE_UPPER {
        up = false;
    }
    let mut value = value;
    if up && value < OSCILLATE_UPPER {
        value = value + 1;
    } else if !up && value > OSCILLATE_LOWER {
        value = value - 1;
    }
    (value, up)
}

/// The all-released state with every stick axis and trigger at `value`.
pub fn test_pattern(value: u8) -> (r: UniversalGamepad)
    ensures
        r.sticks.left.x == value && r.sticks.left.y == value,
        r.sticks.right.x == value && r.sticks.right.y == value,
        r.triggers.left == value && r.triggers.right == value,
        r.buttons == baseline().buttons,
        r.other == baseline().other,
        !r.sticks.left.pressed && !r.sticks.right.pressed,
{
    let mut g = UniversalGamepad::nothing_pressed();
    g.sticks.left.x = value;
    g.sticks.left.y = value;
    g.sticks.right.x = value;
    g.sticks.right.y = value;
    g.triggers.left = value;
    g.triggers.right = value;
    g
}

} // verus!
