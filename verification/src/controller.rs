//! The controllers and what can be read from them.

use vstd::prelude::*;

pub mod joystick;

verus! {

/// A controller that you can read from.
#[derive(Debug, Clone, Copy, PartialEq, Eq, Structural)]
pub enum Controller {
    /// The master controller.
    Master,
    /// The partner controller.
    Partner,
}

/// An analog axis of a stick on the controller.
#[derive(Debug, Clone, Copy, PartialEq, Eq, Structural)]
pub enum ControllerAnalog {
    /// The x axis of the left joystick.
    LeftX,
    /// The y axis of the left joystick.
    LeftY,
    /// The x axis of the right joystick.
    RightX,
    /// The y axis of the right joystick.
    RightY,
}

/// A digital input (button) on the controller.
#[derive(Debug, Clone, Copy, PartialEq, Eq, Structural)]
pub enum ControllerDigital {
    /// The first trigger on the left side of the controller.
    L1,
    /// The second trigger on the left side of the controller.
    L2,
    /// The first trigger on the right side of the controller.
    R1,
    /// The second trigger on the right side of the controller.
    R2,
    /// The up arrow on the left arrow pad of the controller.
    Up,
    /// The down arrow on the left arrow pad of the controller.
    Down,
    /// The left arrow on the left arrow pad of the controller.
    Left,
    /// The right arrow on the left arrow pad of the controller.
    Right,
    /// The 'X' button on the right button pad of the controller.
    X,
    /// The 'B' button on the right button pad of the controller.
    B,
    /// The 'Y' button on the right button pad of the controller.
    Y,
    /// The 'A' button on the right button pad of the controller.
    A,
}

impl Controller {
    /// The number by which the firmware knows the controller.
    pub open spec fn spec_code(self) -> u32 {
        match self {
            Controller::Master => 0,
            Controller::Partner => 1,
        }
    }

    /// The number by which the firmware knows the controller.
    #[verifier::when_used_as_spec(spec_code)]
    pub fn code(self) -> (code: u32)
        ensures
            code == self.spec_code(),
    {
        match self {
            Controller::Master => 0,
            Controller::Partner => 1,
        }
    }
}

impl ControllerAnalog {
    /// The number by which the firmware knows the axis.
    pub open spec fn spec_code(self) -> u32 {
        match self {
            ControllerAnalog::LeftX => 0,
            ControllerAnalog::LeftY => 1,
            ControllerAnalog::RightX => 2,
            ControllerAnalog::RightY => 3,
        }
    }

    /// The number by which the firmware knows the axis.
    #[verifier::when_used_as_spec(spec_code)]
    pub fn code(self) -> (code: u32)
        ensures
            code == self.spec_code(),
    {
        match self {
            ControllerAnalog::LeftX => 0,
            ControllerAnalog::LeftY => 1,
            ControllerAnalog::RightX => 2,
            ControllerAnalog::RightY => 3,
        }
    }
}

impl ControllerDigital {
    /// The number by which the firmware knows the button. The buttons are
    /// numbered from 6 in the order in which they are declared.
    pub open spec fn spec_code(self) -> u32 {
        match self {
            ControllerDigital::L1 => 6,
            ControllerDigital::L2 => 7,
            ControllerDigital::R1 => 8,
            ControllerDigital::R2 => 9,
            ControllerDigital::Up => 10,
            ControllerDigital::Down => 11,
            ControllerDigital::Left => 12,
            ControllerDigital::Right => 13,
            ControllerDigital::X => 14,
            ControllerDigital::B => 15,
            ControllerDigital::Y => 16,
            ControllerDigital::A => 17,
        }
    }

    /// The number by which the firmware knows the button.
    #[verifier::when_used_as_spec(spec_code)]
    pub fn code(self) -> (code: u32)
        ensures
            code == self.spec_code(),
    {
        match self {
            ControllerDigital::L1 => 6,
            ControllerDigital::L2 => 7,
            ControllerDigital::R1 => 8,
            ControllerDigital::R2 => 9,
            ControllerDigital::Up => 10,
            ControllerDigital::Down => 11,
            ControllerDigital::Left => 12,
            ControllerDigital::Right => 13,
            ControllerDigital::X => 14,
            ControllerDigital::B => 15,
            ControllerDigital::Y => 16,
            ControllerDigital::A => 17,
        }
    }
}

} // verus!
