//! What holds of every motion: laws about whole runs of a generator,
//! stated over its model and proved from the model alone.

use crate::error::OperatingMode;
use crate::motion::{
    lemma_advance_wf, lemma_slow_down_delay_bounds, lemma_speed_up_delay_bounds, Motion, Phase,
};
use vstd::prelude::*;

verus! {

/// The state after `ticks` ticks in step mode.
pub open spec fn run_steps(s: Motion, ticks: nat) -> Motion
    decreases ticks,
{
    if ticks == 0 {
        s
    } else {
        run_steps(s, (ticks - 1) as nat).step_advance()
    }
}

/// The state after one tick for each of the given clock readings.
pub open spec fn run(s: Motion, clocks: Seq<Option<nat>>) -> Motion
    decreases clocks.len(),
{
    if clocks.len() == 0 {
        s
    } else {
        run(s, clocks.drop_last()).advance(clocks.last())
    }
}

/// How many of the first `ticks` ticks of a run in step mode do `phase`.
pub open spec fn phase_count(s: Motion, ticks: nat, phase: Phase) -> nat
    decreases ticks,
{
    if ticks == 0 {
        0
    } else {
        let earlier = phase_count(s, (ticks - 1) as nat, phase);
        if run_steps(s, (ticks - 1) as nat).step_phase() == phase {
            earlier + 1
        } else {
            earlier
        }
    }
}

/// A generator in step mode does on every tick what a tick in step mode
/// does, whatever the clock reading.
pub proof fn lemma_step_mode_ignores_clock(s: Motion, clock: Option<nat>)
    requires
        s.mode == OperatingMode::Step,
    ensures
        s.advance(clock) == s.step_advance(),
        s.output(clock) == s.step_output(),
        s.phase(clock) == s.step_phase(),
{
}

/// In step mode a run is the same whatever the clock readings are: what
/// is said below of runs in step mode holds of every run of a generator in
/// step mode.
pub proof fn lemma_run_in_step_mode(s: Motion, clocks: Seq<Option<nat>>)
    requires
        s.mode == OperatingMode::Step,
    ensures
        run(s, clocks) == run_steps(s, clocks.len()),
        run(s, clocks).mode == OperatingMode::Step,
    decreases clocks.len(),
{
    if clocks.len() > 0 {
        lemma_run_in_step_mode(s, clocks.drop_last());
        lemma_step_mode_ignores_clock(run(s, clocks.drop_last()), clocks.last());
    }
}

/// A generator that has not reached its step target takes one step per
/// tick in step mode until it has.
pub proof fn lemma_steps_advance(s: Motion, ticks: nat)
    requires
        s.wf(),
        !s.stopped,
        s.current_step + ticks <= s.target_step,
    ensures
        run_steps(s, ticks).wf(),
        !run_steps(s, ticks).stopped,
        run_steps(s, ticks).current_step == s.current_step + ticks,
        run_steps(s, ticks).target_step == s.target_step,
        run_steps(s, ticks).target_delay == s.target_delay,
        run_steps(s, ticks).first_delay == s.first_delay,
        run_steps(s, ticks).mode == s.mode,
    decreases ticks,
{
    if ticks > 0 {
        let before = (ticks - 1) as nat;
        lemma_steps_advance(s, before);
        lemma_advance_wf(run_steps(s, before), None);
    }
}

/// A motion with a step target of `n` emits exactly `n` delays: each of
/// the first `n` ticks emits one, and the tick after them ends the motion
/// with `n` steps taken.
pub proof fn law_step_target_is_met(s: Motion, ticks: nat)
    requires
        s.wf(),
        !s.stopped,
        s.current_step == 0,
        s.target_step >= 1,
        ticks <= s.target_step,
    ensures
        run_steps(s, ticks).current_step == ticks,
        ticks < s.target_step ==> run_steps(s, ticks).step_output() is Some,
        ticks == s.target_step ==> run_steps(s, ticks).step_output() is None,
        ticks == s.target_step ==> run_steps(s, ticks).step_advance().current_step
            == s.target_step,
{
    lemma_steps_advance(s, ticks);
}

/// On a tick that accelerates the delay does not grow and stays at or
/// above the target delay; on a tick that decelerates it does not shrink
/// and stays at or below the first delay.
pub proof fn law_ramp_is_monotone(s: Motion, clock: Option<nat>)
    requires
        s.wf(),
    ensures
        s.phase(clock) == Phase::Accelerating ==> s.target_delay <= s.advance(
            clock,
        ).current_delay <= s.current_delay,
        s.phase(clock) == Phase::Decelerating ==> s.current_delay <= s.advance(
            clock,
        ).current_delay <= s.first_delay,
        s.step_phase() == Phase::Accelerating ==> s.target_delay
            <= s.step_advance().current_delay <= s.current_delay,
        s.step_phase() == Phase::Decelerating ==> s.current_delay
            <= s.step_advance().current_delay <= s.first_delay,
        forall|now: nat|
            s.duration_phase(now) == Phase::Accelerating ==> s.target_delay
                <= #[trigger] s.duration_advance(now).current_delay <= s.current_delay,
        forall|now: nat|
            s.duration_phase(now) == Phase::Decelerating ==> s.current_delay
                <= #[trigger] s.duration_advance(now).current_delay <= s.first_delay,
{
    if s.current_step >= 1 {
        lemma_speed_up_delay_bounds(s.current_delay, s.acceleration_steps, s.target_delay);
        lemma_slow_down_delay_bounds(s.current_delay, s.acceleration_steps, s.first_delay);
    }
}

/// No tick takes a generator beyond its target: a tick in step mode that
/// emits a delay after the first leaves the steps taken at or below the
/// step target, and a tick in duration mode after the first emits a delay
/// only while the time since the first tick is below the target duration.
pub proof fn law_targets_are_not_overshot(s: Motion, now: nat)
    requires
        s.wf(),
    ensures
        s.current_step >= 1 && s.step_output() is Some ==> s.step_advance().current_step
            <= s.target_step,
        s.start_time is Some && s.duration_output(now) is Some ==> (s.elapsed_at(now) matches Some(
            elapsed,
        ) && elapsed < s.target_duration),
{
}

/// A generator that is stopped stays stopped.
pub proof fn lemma_stopped_stays(s: Motion, clocks: Seq<Option<nat>>)
    requires
        s.stopped,
    ensures
        run(s, clocks).stopped,
    decreases clocks.len(),
{
    if clocks.len() > 0 {
        lemma_stopped_stays(s, clocks.drop_last());
    }
}

/// Once a tick has emitted nothing, every later tick emits nothing,
/// whatever the clock readings are.
pub proof fn law_stop_is_final(
    s: Motion,
    clock: Option<nat>,
    later: Seq<Option<nat>>,
    again: Option<nat>,
)
    requires
        s.output(clock) is None,
    ensures
        run(s.advance(clock), later).output(again) is None,
{
    lemma_stopped_stays(s.advance(clock), later);
}

/// After a new step target that has not been passed yet, a generator in
/// flight takes exactly the steps that are left to it and then stops on
/// the target. If the target is so near that slowing down is due, every
/// one of these steps slows down.
pub proof fn law_retarget_is_met(s: Motion, target_step: nat, ticks: nat)
    requires
        s.wf(),
        s.mode == OperatingMode::Step,
        !s.stopped,
        1 <= s.current_step <= target_step <= u32::MAX,
        ticks <= target_step - s.current_step,
    ensures
        run_steps(s.retarget(target_step), ticks).current_step == s.current_step + ticks,
        s.current_step + ticks < target_step ==> run_steps(
            s.retarget(target_step),
            ticks,
        ).step_output() is Some,
        s.current_step + ticks == target_step ==> run_steps(
            s.retarget(target_step),
            ticks,
        ).step_output() is None,
        s.current_step + ticks < target_step && s.current_step + s.acceleration_steps
            >= target_step ==> run_steps(s.retarget(target_step), ticks).step_phase()
            == Phase::Decelerating,
{
    let t = s.retarget(target_step);
    lemma_steps_advance(t, ticks);
    if s.current_step + s.acceleration_steps >= target_step {
        lemma_slowing_down_goes_on(t, ticks);
    }
}

/// Once slowing down is due, it stays due until the target is reached.
pub proof fn lemma_slowing_down_goes_on(s: Motion, ticks: nat)
    requires
        s.wf(),
        !s.stopped,
        1 <= s.current_step,
        s.current_step + ticks <= s.target_step,
        s.current_step + s.acceleration_steps >= s.target_step,
    ensures
        run_steps(s, ticks).current_step + run_steps(s, ticks).acceleration_steps
            >= s.target_step,
        s.current_step + ticks < s.target_step ==> run_steps(s, ticks).step_phase()
            == Phase::Decelerating,
    decreases ticks,
{
    lemma_steps_advance(s, ticks);
    if ticks > 0 {
        let before = (ticks - 1) as nat;
        lemma_slowing_down_goes_on(s, before);
        lemma_steps_advance(s, before);
    }
}

/// How many of the first `ticks` ticks of a run in step mode shorten or
/// load the delay: the first step and every step that accelerates.
pub open spec fn ramp_up_count(s: Motion, ticks: nat) -> nat {
    phase_count(s, ticks, Phase::Start) + phase_count(s, ticks, Phase::Accelerating)
}

/// How the steps of a run in step mode are shared out between the phases,
/// and what this says of the state. Before the generator slows down, its
/// index counts the steps that sped up; once it slows down, the step at
/// which it began to and the steps that sped up add up to the target, or
/// to one more if it never cruised.
proof fn lemma_ramp_accounts(s: Motion, ticks: nat)
    requires
        s.wf(),
        !s.stopped,
        s.current_step == 0,
        1 <= s.target_step,
        ticks <= s.target_step,
    ensures
        ({
            let r = run_steps(s, ticks);
            let up = ramp_up_count(s, ticks);
            let held = phase_count(s, ticks, Phase::Cruising);
            let down = phase_count(s, ticks, Phase::Decelerating);
            let target = s.target_step;
            &&& up + held + down == ticks
            &&& phase_count(s, ticks, Phase::Stopped) == 0
            &&& down == 0 ==> r.acceleration_steps == up
            &&& down == 0 && held == 0 && ticks >= 1 ==> r.current_step == r.acceleration_steps
                && r.current_step + r.acceleration_steps <= target + 1
            &&& down == 0 && held >= 1 ==> r.current_delay == r.target_delay && r.current_step
                + r.acceleration_steps <= target
            &&& down >= 1 ==> r.current_step + r.acceleration_steps >= target && target <= (ticks
                - down) + up <= target + 1
            &&& down >= 1 && held >= 1 ==> (ticks - down) + up == target
        }),
    decreases ticks,
{
    lemma_steps_advance(s, ticks);
    if ticks > 0 {
        let before = (ticks - 1) as nat;
        lemma_ramp_accounts(s, before);
        lemma_steps_advance(s, before);
        let q = run_steps(s, before);
        lemma_advance_wf(q, None);
        assert(run_steps(s, ticks) == q.step_advance());
        assert(before == 0 ==> q.step_phase() == Phase::Start);
    }
}

/// A motion in step mode slows down for as many steps as it sped up,
/// the first step counted, or for one step fewer; and for exactly as many
/// if it cruised in between. Every step of the motion does one of the
/// three.
pub proof fn law_ramp_is_symmetric(s: Motion)
    requires
        s.wf(),
        !s.stopped,
        s.current_step == 0,
        1 <= s.target_step,
    ensures
        ({
            let up = ramp_up_count(s, s.target_step);
            let held = phase_count(s, s.target_step, Phase::Cruising);
            let down = phase_count(s, s.target_step, Phase::Decelerating);
            &&& up + held + down == s.target_step
            &&& down == up || down + 1 == up
            &&& held >= 1 ==> down == up
        }),
{
    lemma_ramp_accounts(s, s.target_step);
    lemma_steps_advance(s, s.target_step);
}

} // verus!
