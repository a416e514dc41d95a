//! The configurations of an ADI port.

use vstd::prelude::*;

verus! {

/// The configuration of an ADI port.
#[derive(Debug, Clone, Copy, PartialEq, Eq, Structural)]
pub enum AdiConfig {
    /// An analog voltage input.
    AnalogIn,
    /// An analog voltage output.
    AnalogOut,
    /// A digital voltage input.
    DigitalIn,
    /// A digital voltage output.
    DigitalOut,
}

impl AdiConfig {
    /// The number by which the firmware knows the configuration.
    pub open spec fn spec_code(self) -> u32 {
        match self {
            AdiConfig::AnalogIn => 0,
            AdiConfig::AnalogOut => 1,
            AdiConfig::DigitalIn => 2,
            AdiConfig::DigitalOut => 3,
        }
    }

    /// The number by which the firmware knows the configuration.
    #[verifier::when_used_as_spec(spec_code)]
    pub fn code(self) -> (code: u32)
        ensures
            code == self.spec_code(),
    {
        match self {
            AdiConfig::AnalogIn => 0,
            AdiConfig::AnalogOut => 1,
            AdiConfig::DigitalIn => 2,
            AdiConfig::DigitalOut => 3,
        }
    }
}

} // verus!
