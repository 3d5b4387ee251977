//! The 8-way hat switch that carries the directional pad.
use vstd::prelude::*;
use crate::model::{DPad, released_dpad};

verus! {

/// Directions of a hat value: 0 is up and each step turns 45 degrees
/// clockwise, so each compass position sets the one or two directions of its
/// sector. Any value above 7 means centred.
pub open spec fn spec_hat_dpad(hat: u8) -> DPad {
    DPad {
        up: hat == 0 || hat == 1 || hat == 7,
        right: hat == 1 || hat == 2 || hat == 3,
        down: hat == 3 || hat == 4 || hat == 5,
        left: hat == 5 || hat == 6 || hat == 7,
    }
}

/// How many directions of `d` are set.
pub open spec fn pressed_count(d: DPad) -> int {
    (if d.up { 1int } else { 0 }) + (if d.down { 1int } else { 0 }) + (if d.left { 1int } else { 0 })
        + (if d.right { 1int } else { 0 })
}

impl DPad {
    /// Decodes a hat value into directional-pad flags.
    pub fn from_hat(hat: u8) -> (r: DPad)
        ensures
            r == spec_hat_dpad(hat),
    {
        DPad {
            up: hat == 0 || hat == 1 || hat == 7,
            right: hat == 1 || hat == 2 || hat == 3,
            down: hat == 3 || hat == 4 || hat == 5,
            left: hat == 5 || hat == 6 || hat == 7,
        }
    }
}

/// No two opposite directions are set, so `d` is one of the eight compass
/// positions or centred.
pub open spec fn is_hat_position(d: DPad) -> bool {
    !(d.up && d.down) && !(d.left && d.right)
}

/// Hat value of a directional pad: its compass position (0 up, turning
/// clockwise), or 8, the null value, when it is centred or holds two
/// opposite directions.
pub open spec fn spec_dpad_hat(d: DPad) -> u8 {
    if (d.up && d.down) || (d.left && d.right) {
        8
    } else if d.up {
        if d.right {
            1
        } else if d.left {
            7
        } else {
            0
        }
    } else if d.down {
        if d.right {
            3
        } else if d.left {
            5
        } else {
            4
        }
    } else if d.right {
        2
    } else if d.left {
        6
    } else {
        8
    }
}

impl DPad {
    /// Encodes the directional pad as a hat value.
    pub fn to_hat(&self) -> (r: u8)
        ensures
            r == spec_dpad_hat(*self),
            r <= 8,
    {
        if (self.up && self.down) || (self.left && self.right) {
            8
        } else if self.up {
            if self.right {
                1
            } else if self.left {
                7
            } else {
                0
            }
        } else if self.down {
            if self.right {
                3
            } else if self.left {
                5
            } else {
                4
            }
        } else if self.right {
            2
        } else if self.left {
            6
        } else {
            8
        }
    }
}

/// Encoding and decoding hat values are inverse: a compass position
/// survives the round trip, any other value comes back as the null value 8,
/// and every directional pad that is a hat position is read back unchanged.
pub proof fn lemma_hat_round_trip(hat: u8, d: DPad)
    ensures
        hat <= 7 ==> spec_dpad_hat(spec_hat_dpad(hat)) == hat,
        hat > 7 ==> spec_dpad_hat(spec_hat_dpad(hat)) == 8,
        is_hat_position(d) ==> spec_hat_dpad(spec_dpad_hat(d)) == d,
        spec_dpad_hat(d) <= 8,
        spec_dpad_hat(released_dpad()) == 8,
{
}

/// A compass position (0 to 7) sets one direction when it is a main point
/// (even) and two adjacent ones when it lies between two (odd); opposite
/// directions are never set together; any other value sets none.
pub proof fn lemma_hat_directions(hat: u8)
    ensures
        hat <= 7 && hat % 2 == 0 ==> pressed_count(spec_hat_dpad(hat)) == 1,
        hat <= 7 && hat % 2 == 1 ==> pressed_count(spec_hat_dpad(hat)) == 2,
        !(spec_hat_dpad(hat).up && spec_hat_dpad(hat).down),
        !(spec_hat_dpad(hat).left && spec_hat_dpad(hat).right),
        hat > 7 ==> spec_hat_dpad(hat) == released_dpad(),
{
}

} // verus!
