//! The mathematical model of a generator: its state, the delay recurrence,
//! and the decision taken on each tick.
//!
//! Delays are bit patterns at scale [`Q12`](crate::numeric::Q12); counters
//! and times are natural numbers that stay within 32 bits.

use crate::error::OperatingMode;
use vstd::prelude::*;

verus! {

/// What a tick does.
#[derive(Debug, Clone, Copy, PartialEq, Eq, Structural)]
pub enum Phase {
    /// The first tick of a motion: the first delay is loaded.
    Start,
    /// The delay shrinks towards the target delay.
    Accelerating,
    /// The delay is held at the target delay.
    Cruising,
    /// The delay grows towards the first delay.
    Decelerating,
    /// The motion is over: no delay is emitted.
    Stopped,
}

/// The state of a generator.
pub struct Motion {
    /// Whether steps or time end the motion.
    pub mode: OperatingMode,
    /// Steps emitted so far.
    pub current_step: nat,
    /// Index of the recurrence: ramp steps not yet given back.
    pub acceleration_steps: nat,
    /// The delay of the most recent step.
    pub current_delay: nat,
    /// The delay of the first step, the longest delay of the ramp.
    pub first_delay: nat,
    /// The delay at the target speed, the shortest delay of the ramp.
    pub target_delay: nat,
    /// The delay held while cruising, if the generator cruises.
    pub cruise_lock: Option<nat>,
    /// The step at which the motion ends, in step mode.
    pub target_step: nat,
    /// The time after which the motion ends, in duration mode.
    pub target_duration: nat,
    /// The clock reading of the first tick, in duration mode.
    pub start_time: Option<nat>,
    /// Time since the first tick, as of the latest tick.
    pub elapsed: nat,
    /// Time that the acceleration took.
    pub acceleration_duration: nat,
    /// Whether the target speed has been reached at least once.
    pub acceleration_done: bool,
    /// Whether the motion is over.
    pub stopped: bool,
}

/// The whole ticks of a delay.
pub open spec fn delay_ticks(delay: nat) -> nat {
    delay / 4096
}

/// A counter one further, held at the largest 32-bit value.
pub open spec fn bump(count: nat) -> nat {
    if count < u32::MAX {
        count + 1
    } else {
        count
    }
}

/// The delay after one acceleration step at index `n`: shortened by
/// `2 * delay / (4 * n + 1)`, but not below the target delay.
pub open spec fn speed_up_delay(delay: nat, n: nat, target_delay: nat) -> nat {
    let next = delay - (2 * delay) / (4 * n + 1);
    if next < target_delay {
        target_delay
    } else {
        next as nat
    }
}

/// The index after one deceleration step: one lower, but not below one.
pub open spec fn slow_down_index(n: nat) -> nat {
    if n <= 1 {
        1
    } else {
        (n - 1) as nat
    }
}

/// The delay after one deceleration step from index `n`: lengthened by
/// `2 * delay / (4 * m - 1)` for the lowered index `m`, but not above the
/// first delay.
pub open spec fn slow_down_delay(delay: nat, n: nat, first_delay: nat) -> nat {
    let m = slow_down_index(n);
    let next = delay + (2 * delay) as int / (4 * m - 1);
    if next > first_delay {
        first_delay
    } else {
        next as nat
    }
}

/// The time from `start` to `now` on a 32-bit clock that wraps around, if
/// `now` is less than half the clock's range after `start`.
pub open spec fn elapsed_since(now: nat, start: nat) -> Option<nat> {
    let gap = if now >= start {
        now - start
    } else {
        now - start + 0x1_0000_0000
    };
    if gap < 0x8000_0000 {
        Some(gap as nat)
    } else {
        None
    }
}

/// What a tick in step mode does. The first tick always takes a step. After
/// it the motion stops on the target step; it slows down as soon as the
/// steps left are no more than the index of the recurrence, so that the
/// ramp down ends on the target; it holds the target delay once that is
/// reached; and it speeds up otherwise.
pub open spec fn step_decision(
    stopped: bool,
    current_step: nat,
    acceleration_steps: nat,
    target_step: nat,
    at_target_delay: bool,
) -> Phase {
    if stopped {
        Phase::Stopped
    } else if current_step == 0 {
        Phase::Start
    } else if current_step >= target_step {
        Phase::Stopped
    } else if current_step + acceleration_steps >= target_step {
        Phase::Decelerating
    } else if at_target_delay {
        Phase::Cruising
    } else {
        Phase::Accelerating
    }
}

/// What a tick in duration mode does. The first tick always takes a step.
/// After it the motion stops when the target duration is over or the time
/// since the first tick cannot be told; it slows down as soon as the time
/// left is no more than the acceleration took; it holds the target delay
/// once that is reached; and it speeds up otherwise.
pub open spec fn duration_decision(
    stopped: bool,
    started: bool,
    elapsed: Option<nat>,
    target_duration: nat,
    acceleration_duration: nat,
    at_target_delay: bool,
) -> Phase {
    if stopped {
        Phase::Stopped
    } else if !started {
        Phase::Start
    } else {
        match elapsed {
            None => Phase::Stopped,
            Some(elapsed) => if elapsed >= target_duration {
                Phase::Stopped
            } else if target_duration - elapsed <= acceleration_duration {
                Phase::Decelerating
            } else if at_target_delay {
                Phase::Cruising
            } else {
                Phase::Accelerating
            },
        }
    }
}

impl Motion {
    /// A generator that has not emitted a step yet.
    pub open spec fn fresh(
        mode: OperatingMode,
        first_delay: nat,
        target_delay: nat,
        target_step: nat,
        target_duration: nat,
    ) -> Motion {
        Motion {
            mode,
            current_step: 0,
            acceleration_steps: 0,
            current_delay: 0,
            first_delay,
            target_delay,
            cruise_lock: None,
            target_step,
            target_duration,
            start_time: None,
            elapsed: 0,
            acceleration_duration: 0,
            acceleration_done: false,
            stopped: false,
        }
    }

    /// What holds of every state that a generator can be in.
    pub open spec fn wf(self) -> bool {
        &&& self.current_step <= u32::MAX
        &&& self.acceleration_steps <= self.current_step
        &&& self.current_delay <= u32::MAX
        &&& self.first_delay <= u32::MAX
        &&& self.target_delay <= self.first_delay
        &&& self.target_step <= u32::MAX
        &&& self.target_duration <= u32::MAX
        &&& self.elapsed <= u32::MAX
        &&& self.acceleration_duration <= u32::MAX
        &&& (self.start_time matches Some(start) ==> start <= u32::MAX && self.current_step >= 1)
        &&& (self.current_step >= 1 ==> self.acceleration_steps >= 1 && self.target_delay
            <= self.current_delay <= self.first_delay)
        &&& (self.cruise_lock matches Some(delay) ==> delay == self.target_delay
            && self.current_delay == self.target_delay)
    }

    /// What the next tick does in step mode.
    pub open spec fn step_phase(self) -> Phase {
        step_decision(
            self.stopped,
            self.current_step,
            self.acceleration_steps,
            self.target_step,
            self.current_delay == self.target_delay,
        )
    }

    /// The time since the first tick at clock reading `now`, if the motion
    /// has started and the clock has not run backwards.
    pub open spec fn elapsed_at(self, now: nat) -> Option<nat> {
        match self.start_time {
            None => None,
            Some(start) => elapsed_since(now, start),
        }
    }

    /// What the next tick does in duration mode, at clock reading `now`.
    pub open spec fn duration_phase(self, now: nat) -> Phase {
        duration_decision(
            self.stopped,
            self.start_time is Some,
            self.elapsed_at(now),
            self.target_duration,
            self.acceleration_duration,
            self.current_delay == self.target_delay,
        )
    }

    /// What the next tick does. A tick without a clock reading ends a
    /// motion in duration mode; step mode does not look at the clock.
    pub open spec fn phase(self, clock: Option<nat>) -> Phase {
        match self.mode {
            OperatingMode::Step => self.step_phase(),
            OperatingMode::Duration => match clock {
                None => Phase::Stopped,
                Some(now) => self.duration_phase(now),
            },
        }
    }

    /// The state after an acceleration step.
    pub open spec fn speed_up(self) -> Motion {
        Motion {
            current_delay: speed_up_delay(
                self.current_delay,
                self.acceleration_steps,
                self.target_delay,
            ),
            acceleration_steps: bump(self.acceleration_steps),
            acceleration_duration: self.elapsed,
            current_step: bump(self.current_step),
            ..self
        }
    }

    /// The state after a deceleration step.
    pub open spec fn slow_down(self) -> Motion {
        Motion {
            current_delay: slow_down_delay(
                self.current_delay,
                self.acceleration_steps,
                self.first_delay,
            ),
            acceleration_steps: slow_down_index(self.acceleration_steps),
            cruise_lock: None,
            current_step: bump(self.current_step),
            ..self
        }
    }

    /// The state after the first step of a motion.
    pub open spec fn start(self) -> Motion {
        Motion {
            current_delay: self.first_delay,
            acceleration_steps: 1,
            cruise_lock: None,
            current_step: bump(self.current_step),
            ..self
        }
    }

    /// The state after a step at the target speed. The time that the
    /// acceleration took is recorded the first time.
    pub open spec fn cruise(self) -> Motion {
        Motion {
            acceleration_done: true,
            acceleration_duration: if self.acceleration_done {
                self.acceleration_duration
            } else {
                self.elapsed
            },
            cruise_lock: Some(self.target_delay),
            current_step: bump(self.current_step),
            ..self
        }
    }

    /// The state once the motion is over.
    pub open spec fn stop(self) -> Motion {
        Motion { stopped: true, ..self }
    }

    /// The state after a tick that does `phase`.
    pub open spec fn apply(self, phase: Phase) -> Motion {
        match phase {
            Phase::Start => self.start(),
            Phase::Accelerating => self.speed_up(),
            Phase::Cruising => self.cruise(),
            Phase::Decelerating => self.slow_down(),
            Phase::Stopped => self.stop(),
        }
    }

    /// The state with the clock reading `now` taken in: the first reading
    /// of a motion becomes its start, later ones give the elapsed time.
    pub open spec fn observe(self, now: nat) -> Motion {
        if self.stopped {
            self
        } else {
            match self.start_time {
                None => Motion { start_time: Some(now), ..self },
                Some(start) => match elapsed_since(now, start) {
                    None => self,
                    Some(elapsed) => Motion { elapsed, ..self },
                },
            }
        }
    }

    /// The state after a tick in step mode.
    pub open spec fn step_advance(self) -> Motion {
        self.apply(self.step_phase())
    }

    /// The state after a tick in duration mode, at clock reading `now`.
    pub open spec fn duration_advance(self, now: nat) -> Motion {
        self.observe(now).apply(self.duration_phase(now))
    }

    /// The state after a tick.
    pub open spec fn advance(self, clock: Option<nat>) -> Motion {
        match self.mode {
            OperatingMode::Step => self.step_advance(),
            OperatingMode::Duration => match clock {
                None => self.stop(),
                Some(now) => self.duration_advance(now),
            },
        }
    }

    /// What a tick that does `phase` and leaves the state `next` emits:
    /// nothing once the motion is over, the held delay while cruising, and
    /// the current delay otherwise, in whole ticks.
    pub open spec fn emitted(phase: Phase, next: Motion) -> Option<nat> {
        match phase {
            Phase::Stopped => None,
            Phase::Cruising => Some(delay_ticks(next.target_delay)),
            _ => Some(delay_ticks(next.current_delay)),
        }
    }

    /// What a tick emits.
    pub open spec fn output(self, clock: Option<nat>) -> Option<nat> {
        Motion::emitted(self.phase(clock), self.advance(clock))
    }

    /// What a tick in step mode emits.
    pub open spec fn step_output(self) -> Option<nat> {
        Motion::emitted(self.step_phase(), self.step_advance())
    }

    /// What a tick in duration mode emits, at clock reading `now`.
    pub open spec fn duration_output(self, now: nat) -> Option<nat> {
        Motion::emitted(self.duration_phase(now), self.duration_advance(now))
    }

    /// The state with a new step target. The cruise lock is given up, so
    /// that the next tick decides anew. Only step mode has a step target.
    pub open spec fn retarget(self, target_step: nat) -> Motion {
        match self.mode {
            OperatingMode::Step => Motion { target_step, cruise_lock: None, ..self },
            OperatingMode::Duration => self,
        }
    }
}

/// An acceleration step never lengthens the delay and never takes it below
/// the target delay.
pub proof fn lemma_speed_up_delay_bounds(delay: nat, n: nat, target_delay: nat)
    requires
        target_delay <= delay,
    ensures
        target_delay <= speed_up_delay(delay, n, target_delay) <= delay,
{
    let cut = (2 * delay) / (4 * n + 1);
    assert(0 <= cut <= 2 * delay) by (nonlinear_arith)
        requires
            cut == (2 * delay) / (4 * n + 1),
            4 * n + 1 >= 1,
            delay >= 0,
    ;
}

/// A deceleration step never shortens the delay and never takes it above
/// the first delay.
pub proof fn lemma_slow_down_delay_bounds(delay: nat, n: nat, first_delay: nat)
    requires
        delay <= first_delay,
    ensures
        delay <= slow_down_delay(delay, n, first_delay) <= first_delay,
{
    let m = slow_down_index(n);
    let gain = (2 * delay) as int / (4 * m - 1);
    assert(0 <= gain) by (nonlinear_arith)
        requires
            gain == (2 * delay) as int / (4 * m - 1),
            4 * m - 1 >= 3,
            delay >= 0,
    ;
}

/// Every tick keeps the state well formed, and no tick takes a step back.
pub proof fn lemma_advance_wf(s: Motion, clock: Option<nat>)
    requires
        s.wf(),
        clock matches Some(now) ==> now <= u32::MAX,
    ensures
        s.advance(clock).wf(),
        s.step_advance().wf(),
        clock matches Some(now) ==> s.duration_advance(now).wf(),
        s.advance(clock).current_step >= s.current_step,
        s.step_advance().current_step >= s.current_step,
        clock matches Some(now) ==> s.duration_advance(now).current_step >= s.current_step,
{
    if s.current_step >= 1 {
        lemma_speed_up_delay_bounds(s.current_delay, s.acceleration_steps, s.target_delay);
        lemma_slow_down_delay_bounds(s.current_delay, s.acceleration_steps, s.first_delay);
    }
}

} // verus!
