//! The decision taken on each tick: whether to start, speed up, hold the
//! speed, slow down or stop.

use crate::motion::{duration_decision, step_decision, Phase};
use vstd::prelude::*;

verus! {

/// A 32-bit value, if any, as a natural number.
pub open spec fn as_nat(value: Option<u32>) -> Option<nat> {
    match value {
        Some(v) => Some(v as nat),
        None => None,
    }
}

/// What the next tick does in step mode, from the steps taken, the index
/// of the recurrence, the step target, and whether the delay is the target
/// delay.
pub fn decide_step(
    stopped: bool,
    current_step: u32,
    acceleration_steps: u32,
    target_step: u32,
    at_target_delay: bool,
) -> (phase: Phase)
    ensures
        phase == step_decision(
            stopped,
            current_step as nat,
            acceleration_steps as nat,
            target_step as nat,
            at_target_delay,
        ),
{
    // The motion is over, and stays so.
    if stopped {
        return Phase::Stopped;
    }
    // If current step is 0, we're at the start of the move.
    if current_step == 0 {
        return Phase::Start;
    }
    // If current step is bigger or equal to the target step, we're at the end of the move.
    if current_step >= target_step {
        return Phase::Stopped;
    }
    // If the move would end on the target step or beyond it when slowing down from
    // now on, we need to slow down.
    if current_step as u64 + acceleration_steps as u64 >= target_step as u64 {
        return Phase::Decelerating;
    }
    // If the current delay is equal to the target delay, we're at the target speed.
    // Else, we need to accelerate.
    if at_target_delay {
        Phase::Cruising
    } else {
        Phase::Accelerating
    }
}

/// What the next tick does in duration mode, from the time since the first
/// tick (`None` if it cannot be told), the target duration, the time that
/// the acceleration took, and whether the delay is the target delay. All
/// times are in the same unit.
pub fn decide_duration(
    stopped: bool,
    started: bool,
    elapsed: Option<u32>,
    target_duration: u32,
    acceleration_duration: u32,
    at_target_delay: bool,
) -> (phase: Phase)
    ensures
        phase == duration_decision(
            stopped,
            started,
            as_nat(elapsed),
            target_duration as nat,
            acceleration_duration as nat,
            at_target_delay,
        ),
{
    if stopped {
        return Phase::Stopped;
    }
    // If the move has not started, we're at the start of the move.
    if !started {
        return Phase::Start;
    }
    let elapsed = match elapsed {
        None => {
            return Phase::Stopped;
        },
        Some(elapsed) => elapsed,
    };
    // We reached the target duration.
    if elapsed >= target_duration {
        return Phase::Stopped;
    }
    // If the time remaining is less than the time it took to accelerate, slow down.
    let time_remaining = target_duration - elapsed;
    if time_remaining <= acceleration_duration {
        return Phase::Decelerating;
    }
    // If the current delay is equal to the target delay, we're at the target speed.
    // Else, we need to accelerate.
    if at_target_delay {
        Phase::Cruising
    } else {
        Phase::Accelerating
    }
}

} // verus!
