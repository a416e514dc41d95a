//! The state of one stick of the controller.

use vstd::prelude::*;

verus! {

/// Represents the state of a stick of the controller.
#[derive(Debug, Clone, Copy, PartialEq, Eq, Structural)]
pub struct JoyStick {
    /// How far the stick is pushed sideways.
    pub x: i8,
    /// How far the stick is pushed forwards or backwards.
    pub y: i8,
}

impl JoyStick {
    /// How far an axis is pushed, whatever the direction.
    pub open spec fn magnitude(axis: i8) -> int {
        if axis < 0 {
            -axis
        } else {
            axis as int
        }
    }

    /// How far the stick is pushed on the axis on which it is pushed most.
    pub open spec fn activation(self) -> int {
        if Self::magnitude(self.x) > Self::magnitude(self.y) {
            Self::magnitude(self.x)
        } else {
            Self::magnitude(self.y)
        }
    }

    /// An axis that is pushed less than `min` counts as at rest.
    pub open spec fn clamp_axis(axis: i8, min: u8) -> i8 {
        if Self::magnitude(axis) < min {
            0
        } else {
            axis
        }
    }

    /// How far an axis is pushed, whatever the direction.
    fn reach(axis: i8) -> (reach: u8)
        ensures
            reach == Self::magnitude(axis),
    {
        if axis < 0 {
            (-(axis as i16)) as u8
        } else {
            axis as u8
        }
    }

    /// Clamps the stick so that an axis has to be pushed by a minimum amount
    /// before it registers, to avoid stick drift.
    pub fn clamp(self, min: u8) -> (clamped: Self)
        ensures
            clamped.x == Self::clamp_axis(self.x, min),
            clamped.y == Self::clamp_axis(self.y, min),
    {
        let mut clamped = self;
        if Self::reach(clamped.x) < min {
            clamped.x = 0
        }
        if Self::reach(clamped.y) < min {
            clamped.y = 0
        }
        clamped
    }

    /// Checks whether the stick is pushed further on `x` than on `y`.
    pub fn x_larger(&self) -> (larger: bool)
        ensures
            larger == (Self::magnitude(self.x) > Self::magnitude(self.y)),
    {
        Self::reach(self.x) > Self::reach(self.y)
    }

    /// Returns the stick that is pushed further of two: `self` if it is
    /// pushed further than `other`, else `other`.
    pub fn get_larger(self, other: JoyStick) -> (larger: JoyStick)
        ensures
            larger == if self.activation() > other.activation() {
                self
            } else {
                other
            },
    {
        let largest: u8 = if self.x_larger() {
            Self::reach(self.x)
        } else {
            Self::reach(self.y)
        };
        let other_largest: u8 = if other.x_larger() {
            Self::reach(other.x)
        } else {
            Self::reach(other.y)
        };
        if largest > other_largest {
            self
        } else {
            other
        }
    }
}

} // verus!
