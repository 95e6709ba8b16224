//! Error kinds and operating modes of the generator.

use vstd::prelude::*;

verus! {

/// Why a generator could not be built or an operation was refused.
#[derive(Debug, Clone, Copy, PartialEq, Eq, Structural)]
pub enum Error {
    /// Neither a step target nor a duration target was given.
    NoStepTargetAndNoDuration,
    /// Both a step target and a duration target were given.
    BothStepTargetAndDuration,
    /// The acceleration is zero.
    ZeroAcceleration,
    /// The target speed is zero.
    ZeroRpm,
    /// The parameters cannot be represented, or the operation does not
    /// apply to the generator's operating mode.
    InvalidState,
    /// No sigmoid steepness within bounds meets the tolerance.
    InvalidAlpha,
}

impl Error {
    /// The text of each error kind.
    pub open spec fn spec_description(self) -> Seq<char> {
        match self {
            Error::NoStepTargetAndNoDuration => "No targets: No step target and no duration target"@,
            Error::BothStepTargetAndDuration => "Multiple targets: Step target and duration target"@,
            Error::ZeroAcceleration => "Zero acceleration"@,
            Error::ZeroRpm => "Zero RPM"@,
            Error::InvalidState => "Invalid state"@,
            Error::InvalidAlpha => "Invalid alpha"@,
        }
    }

    /// A short human-readable description of the error.
    pub fn description(&self) -> (text: &'static str)
        ensures
            text@ == self.spec_description(),
    {
        match self {
            Error::NoStepTargetAndNoDuration => "No targets: No step target and no duration target",
            Error::BothStepTargetAndDuration => "Multiple targets: Step target and duration target",
            Error::ZeroAcceleration => "Zero acceleration",
            Error::ZeroRpm => "Zero RPM",
            Error::InvalidState => "Invalid state",
            Error::InvalidAlpha => "Invalid alpha",
        }
    }
}

/// Which kind of target ends the motion.
#[derive(Debug, Clone, Copy, PartialEq, Eq, Structural)]
pub enum OperatingMode {
    /// The motion ends after a number of steps.
    Step,
    /// The motion ends after a span of time.
    Duration,
}

} // verus!
