//! The generator: owns the state of one motion and advances it tick by
//! tick.

use crate::error::{Error, OperatingMode};
use crate::motion::{elapsed_since, Motion, Phase};
use crate::numeric::{to_int, Q12};
use crate::recurrence::{count_up, slow_down_floor, slow_down_step, speed_up_step};
use crate::resolver::{first_delay, representable, resolve_delays, target_delay};
use crate::sequencer::{as_nat, decide_duration, decide_step};
use fugit::WrappingTimerInstantU32;
use vstd::prelude::*;

verus! {

/// State of the stepgen, for a timer of `TIMER_HZ_MICROS` ticks per second.
#[derive(Debug)]
pub struct Stepgen<const TIMER_HZ_MICROS: u32> {
    // Operating mode
    operating_mode: OperatingMode,
    current_step: u32,
    // Amount of acceleration steps we've taken so far
    acceleration_steps: u32,
    // How long did the acceleration take
    acceleration_duration_ms: u32,
    // Previously calculated delay
    current_delay: u32,
    current_duration_ms: u32,
    // First step delay
    first_delay: u32,
    // Target step
    target_step: u32,
    // Target duration
    target_duration_ms: u32,
    // Target speed delay
    target_delay: u32,
    // The delay held while cruising
    cruise_lock: Option<u32>,
    // Start time
    start_time_ms: Option<u32>,
    is_acceleration_done: bool,
    is_stopped: bool,
}

/// The error, if any, with which these parameters are refused.
pub open spec fn rejection(
    timer_hz: int,
    target_rpm: int,
    acceleration: int,
    target_step: int,
    target_duration_ms: int,
    steps_per_revolution: int,
) -> Option<Error> {
    if acceleration == 0 {
        Some(Error::ZeroAcceleration)
    } else if target_rpm == 0 {
        Some(Error::ZeroRpm)
    } else if target_step != 0 && target_duration_ms != 0 {
        Some(Error::BothStepTargetAndDuration)
    } else if target_step == 0 && target_duration_ms == 0 {
        Some(Error::NoStepTargetAndNoDuration)
    } else if !representable(timer_hz, steps_per_revolution, acceleration, target_rpm) {
        Some(Error::InvalidState)
    } else {
        None
    }
}

/// The mode that the two targets ask for: steps if a step target is given.
pub open spec fn mode_of(target_step: int) -> OperatingMode {
    if target_step != 0 {
        OperatingMode::Step
    } else {
        OperatingMode::Duration
    }
}

/// Calls `checked_duration_since` of `fugit`'s wrapping instants on two
/// readings of a millisecond timer, and takes the ticks of the duration it
/// gives. That method reads `now - start` modulo the 32-bit range: it gives
/// the difference if it is below half the range, and nothing otherwise.
#[verifier::external_body]
fn clock_elapsed(now: u32, start: u32) -> (gap: Option<u32>)
    ensures
        as_nat(gap) == elapsed_since(now as nat, start as nat),
{
    WrappingTimerInstantU32::<1_000>::from_ticks(now).checked_duration_since(
        WrappingTimerInstantU32::<1_000>::from_ticks(start),
    ).map(|gap| gap.as_ticks())
}

impl<const TIMER_HZ_MICROS: u32> View for Stepgen<TIMER_HZ_MICROS> {
    type V = Motion;

    closed spec fn view(&self) -> Motion {
        Motion {
            mode: self.operating_mode,
            current_step: self.current_step as nat,
            acceleration_steps: self.acceleration_steps as nat,
            current_delay: self.current_delay as nat,
            first_delay: self.first_delay as nat,
            target_delay: self.target_delay as nat,
            cruise_lock: as_nat(self.cruise_lock),
            target_step: self.target_step as nat,
            target_duration: self.target_duration_ms as nat,
            start_time: as_nat(self.start_time_ms),
            elapsed: self.current_duration_ms as nat,
            acceleration_duration: self.acceleration_duration_ms as nat,
            acceleration_done: self.is_acceleration_done,
            stopped: self.is_stopped,
        }
    }
}

impl<const TIMER_HZ_MICROS: u32> Stepgen<TIMER_HZ_MICROS> {
    #[verifier::type_invariant]
    spec fn inv(self) -> bool {
        self@.wf()
    }

    /// A generator between the two given delays, as bit patterns at scale
    /// `Q12`, that has not emitted a step yet. Exactly one of the two
    /// targets must be given, that is, be other than zero. A first delay
    /// below the target delay is raised to it.
    pub fn with_delays(
        first_delay: u32,
        target_delay: u32,
        target_step: u32,
        target_duration_ms: u32,
    ) -> (r: Result<Self, Error>)
        ensures
            target_step != 0 && target_duration_ms != 0 ==> r == Err::<Self, Error>(
                Error::BothStepTargetAndDuration,
            ),
            target_step == 0 && target_duration_ms == 0 ==> r == Err::<Self, Error>(
                Error::NoStepTargetAndNoDuration,
            ),
            (target_step == 0) != (target_duration_ms == 0) ==> r is Ok,
            r matches Ok(generator) ==> generator@ == Motion::fresh(
                mode_of(target_step as int),
                if first_delay < target_delay {
                    target_delay as nat
                } else {
                    first_delay as nat
                },
                target_delay as nat,
                target_step as nat,
                target_duration_ms as nat,
            ) && generator@.wf(),
    {
        if target_step != 0 && target_duration_ms != 0 {
            return Err(Error::BothStepTargetAndDuration);
        }
        if target_step == 0 && target_duration_ms == 0 {
            return Err(Error::NoStepTargetAndNoDuration);
        }
        let operating_mode = if target_step != 0 {
            OperatingMode::Step
        } else {
            OperatingMode::Duration
        };
        // If first_delay is smaller than target_delay, first_delay = target_delay
        let first_delay = if first_delay < target_delay {
            target_delay
        } else {
            first_delay
        };
        Ok(
            Stepgen {
                operating_mode,
                current_step: 0,
                acceleration_steps: 0,
                acceleration_duration_ms: 0,
                current_delay: 0,
                current_duration_ms: 0,
                first_delay,
                target_step,
                target_duration_ms,
                target_delay,
                cruise_lock: None,
                start_time_ms: None,
                is_acceleration_done: false,
                is_stopped: false,
            },
        )
    }

    /// Create new copy of stepgen, for a target speed in revolutions per
    /// minute, an acceleration in revolutions per minute per second, and
    /// either a number of steps or a time in milliseconds after which the
    /// motion ends.
    pub fn new(
        target_rpm: u16,
        acceleration: u16,
        target_step: u32,
        target_duration_ms: u32,
        full_steps_per_revolution: u16,
    ) -> (r: Result<Self, Error>)
        ensures
            acceleration == 0 ==> r == Err::<Self, Error>(Error::ZeroAcceleration),
            acceleration != 0 && target_rpm == 0 ==> r == Err::<Self, Error>(Error::ZeroRpm),
            match r {
                Ok(generator) => rejection(
                    TIMER_HZ_MICROS as int,
                    target_rpm as int,
                    acceleration as int,
                    target_step as int,
                    target_duration_ms as int,
                    full_steps_per_revolution as int,
                ) is None && generator@.wf() && generator@ == Motion::fresh(
                    mode_of(target_step as int),
                    first_delay(
                        TIMER_HZ_MICROS as int,
                        full_steps_per_revolution as int,
                        acceleration as int,
                        target_rpm as int,
                    ) as nat,
                    target_delay(
                        TIMER_HZ_MICROS as int,
                        full_steps_per_revolution as int,
                        target_rpm as int,
                    ) as nat,
                    target_step as nat,
                    target_duration_ms as nat,
                ),
                Err(error) => rejection(
                    TIMER_HZ_MICROS as int,
                    target_rpm as int,
                    acceleration as int,
                    target_step as int,
                    target_duration_ms as int,
                    full_steps_per_revolution as int,
                ) == Some(error),
            },
    {
        if acceleration == 0 {
            return Err(Error::ZeroAcceleration);
        }
        if target_rpm == 0 {
            return Err(Error::ZeroRpm);
        }
        if target_step != 0 && target_duration_ms != 0 {
            return Err(Error::BothStepTargetAndDuration);
        }
        if target_step == 0 && target_duration_ms == 0 {
            return Err(Error::NoStepTargetAndNoDuration);
        }
        match resolve_delays(TIMER_HZ_MICROS, full_steps_per_revolution, acceleration, target_rpm) {
            None => Err(Error::InvalidState),
            Some((first_delay, target_delay)) => Self::with_delays(
                first_delay,
                target_delay,
                target_step,
                target_duration_ms,
            ),
        }
    }

    /// Returns 'None' if it should stop. Otherwise, returns delay as u32.
    /// In duration mode `timer_ms` is the reading of a millisecond clock;
    /// without one the motion ends. Step mode does not look at it.
    pub fn next_delay(&mut self, timer_ms: Option<u32>) -> (delay: Option<u32>)
        ensures
            final(self)@ == old(self)@.advance(as_nat(timer_ms)),
            as_nat(delay) == old(self)@.output(as_nat(timer_ms)),
            final(self)@.wf(),
    {
        proof {
            use_type_invariant(&*self);
        }
        match self.operating_mode {
            OperatingMode::Step => self.next_delay_step(),
            OperatingMode::Duration => match timer_ms {
                None => {
                    self.stop();
                    None
                },
                Some(current_ms) => self.next_delay_duration(current_ms),
            },
        }
    }

    /// Duration operating mode
    pub fn next_delay_duration(&mut self, current_ms: u32) -> (delay: Option<u32>)
        ensures
            final(self)@ == old(self)@.duration_advance(current_ms as nat),
            as_nat(delay) == old(self)@.duration_output(current_ms as nat),
            final(self)@.wf(),
    {
        proof {
            use_type_invariant(&*self);
        }
        let elapsed = match self.start_time_ms {
            None => None,
            Some(start_ms) => clock_elapsed(current_ms, start_ms),
        };
        let phase = decide_duration(
            self.is_stopped,
            self.start_time_ms.is_some(),
            elapsed,
            self.target_duration_ms,
            self.acceleration_duration_ms,
            self.current_delay == self.target_delay,
        );
        if !self.is_stopped {
            if let Some(elapsed) = elapsed {
                self.observe(elapsed);
            }
        }
        let delay = self.apply(phase);
        // If start time is None, we're at the start of the move. Set start time.
        match phase {
            Phase::Start => self.begin(current_ms),
            _ => {},
        }
        delay
    }

    /// Step operating mode
    pub fn next_delay_step(&mut self) -> (delay: Option<u32>)
        ensures
            final(self)@ == old(self)@.step_advance(),
            as_nat(delay) == old(self)@.step_output(),
            final(self)@.wf(),
    {
        proof {
            use_type_invariant(&*self);
        }
        let phase = decide_step(
            self.is_stopped,
            self.current_step,
            self.acceleration_steps,
            self.target_step,
            self.current_delay == self.target_delay,
        );
        self.apply(phase)
    }

    /// Does what the sequencer decided, and gives the delay to emit.
    fn apply(&mut self, phase: Phase) -> (delay: Option<u32>)
        requires
            phase == Phase::Cruising ==> old(self)@.current_delay == old(self)@.target_delay,
            phase == Phase::Cruising || phase == Phase::Accelerating || phase
                == Phase::Decelerating ==> old(self)@.current_step >= 1,
        ensures
            final(self)@ == old(self)@.apply(phase),
            as_nat(delay) == Motion::emitted(phase, final(self)@),
    {
        match phase {
            Phase::Start => {
                self.start();
                Some(to_int(self.current_delay, Q12))
            },
            Phase::Accelerating => {
                self.speed_up();
                Some(to_int(self.current_delay, Q12))
            },
            Phase::Cruising => {
                self.cruise();
                Some(to_int(self.target_delay, Q12))
            },
            Phase::Decelerating => {
                self.slow_down();
                Some(to_int(self.current_delay, Q12))
            },
            Phase::Stopped => {
                self.stop();
                None
            },
        }
    }

    /// Sets a new step target while the motion is under way. Only a
    /// generator in step mode has a step target: one in duration mode is
    /// left as it is, and the call fails.
    pub fn set_step_target(&mut self, target_step: u32) -> (r: Result<(), Error>)
        ensures
            final(self)@ == old(self)@.retarget(target_step as nat),
            final(self)@.wf(),
            old(self)@.mode == OperatingMode::Step ==> r is Ok,
            old(self)@.mode == OperatingMode::Duration ==> r == Err::<(), Error>(
                Error::InvalidState,
            ),
    {
        proof {
            use_type_invariant(&*self);
        }
        match self.operating_mode {
            OperatingMode::Step => {
                *self = Stepgen {
                    target_step,
                    cruise_lock: None,
                    ..*self
                };
                Ok(())
            },
            OperatingMode::Duration => Err(Error::InvalidState),
        }
    }

    /// Takes in the time since the first tick.
    fn observe(&mut self, elapsed: u32)
        ensures
            final(self)@ == (Motion { elapsed: elapsed as nat, ..old(self)@ }),
    {
        proof {
            use_type_invariant(&*self);
        }
        *self = Stepgen {
            current_duration_ms: elapsed,
            ..*self
        };
    }

    /// Takes in the clock reading of the first tick.
    fn begin(&mut self, start_ms: u32)
        requires
            old(self)@.current_step >= 1,
        ensures
            final(self)@ == (Motion { start_time: Some(start_ms as nat), ..old(self)@ }),
    {
        proof {
            use_type_invariant(&*self);
        }
        *self = Stepgen {
            start_time_ms: Some(start_ms),
            ..*self
        };
    }

    /// The first step: loads the first delay and counts it as one
    /// acceleration step.
    fn start(&mut self)
        ensures
            final(self)@ == old(self)@.start(),
    {
        proof {
            use_type_invariant(&*self);
        }
        *self = Stepgen {
            current_step: count_up(self.current_step),
            acceleration_steps: 1,
            current_delay: self.first_delay,
            cruise_lock: None,
            ..*self
        };
    }

    /// A step at the target speed.
    fn cruise(&mut self)
        requires
            old(self)@.current_step >= 1,
            old(self)@.current_delay == old(self)@.target_delay,
        ensures
            final(self)@ == old(self)@.cruise(),
    {
        proof {
            use_type_invariant(&*self);
        }
        *self = Stepgen {
            current_step: count_up(self.current_step),
            acceleration_duration_ms: if self.is_acceleration_done {
                self.acceleration_duration_ms
            } else {
                self.current_duration_ms
            },
            cruise_lock: Some(self.target_delay),
            is_acceleration_done: true,
            ..*self
        };
    }

    /// The end of the motion.
    fn stop(&mut self)
        ensures
            final(self)@ == old(self)@.stop(),
    {
        proof {
            use_type_invariant(&*self);
        }
        *self = Stepgen {
            is_stopped: true,
            ..*self
        };
    }

    /// Speed up function
    fn speed_up(&mut self)
        requires
            old(self)@.current_step >= 1,
        ensures
            final(self)@ == old(self)@.speed_up(),
    {
        proof {
            use_type_invariant(&*self);
            crate::motion::lemma_speed_up_delay_bounds(
                self@.current_delay,
                self@.acceleration_steps,
                self@.target_delay,
            );
        }
        let current_delay = speed_up_step(
            self.current_delay,
            self.acceleration_steps,
            self.target_delay,
        );
        *self = Stepgen {
            current_step: count_up(self.current_step),
            acceleration_steps: count_up(self.acceleration_steps),
            acceleration_duration_ms: self.current_duration_ms,
            current_delay,
            ..*self
        };
    }

    /// Slow down function
    fn slow_down(&mut self)
        requires
            old(self)@.current_step >= 1,
        ensures
            final(self)@ == old(self)@.slow_down(),
    {
        proof {
            use_type_invariant(&*self);
            crate::motion::lemma_slow_down_delay_bounds(
                self@.current_delay,
                self@.acceleration_steps,
                self@.first_delay,
            );
        }
        let current_delay = slow_down_step(
            self.current_delay,
            self.acceleration_steps,
            self.first_delay,
        );
        *self = Stepgen {
            current_step: count_up(self.current_step),
            acceleration_steps: slow_down_floor(self.acceleration_steps),
            current_delay,
            cruise_lock: None,
            ..*self
        };
    }

    /// Steps emitted so far.
    pub fn get_current_step(&self) -> (steps: u32)
        ensures
            steps == self@.current_step,
    {
        self.current_step
    }

    /// The step at which the motion ends, in step mode.
    pub fn get_target_step(&self) -> (steps: u32)
        ensures
            steps == self@.target_step,
    {
        self.target_step
    }

    /// Ramp steps taken and not yet given back.
    pub fn get_acceleration_steps(&self) -> (steps: u32)
        ensures
            steps == self@.acceleration_steps,
    {
        self.acceleration_steps
    }

    /// Milliseconds that the acceleration took.
    pub fn get_acceleration_duration_ms(&self) -> (ms: u32)
        ensures
            ms == self@.acceleration_duration,
    {
        self.acceleration_duration_ms
    }

    /// Whether the target speed has been reached at least once.
    pub fn is_acceleration_done(&self) -> (done: bool)
        ensures
            done == self@.acceleration_done,
    {
        self.is_acceleration_done
    }

    /// Whether the delay is held at the target delay.
    pub fn is_cruising(&self) -> (cruising: bool)
        ensures
            cruising == self@.cruise_lock is Some,
    {
        self.cruise_lock.is_some()
    }
}

} // verus!
