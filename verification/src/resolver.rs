//! Derivation of the two delays that bound a ramp from the speed and
//! acceleration that the caller asks for.
//!
//! Speeds are in revolutions per minute, accelerations in revolutions per
//! minute per second, and delays come out as bit patterns at scale
//! [`Q12`](crate::numeric::Q12), in ticks of a timer of the given frequency.

use crate::numeric::{
    checked_div, checked_mul, floor_sqrt, from_int, rescale, rescale_nearest, sqrt_q32, PI_Q12,
    PI_Q18, Q12, Q18, Q32,
};
use vstd::arithmetic::div_mod::lemma_div_multiples_vanish_quotient;
use vstd::prelude::*;

verus! {

/// The factor 0.676 at scale `Q32`, rounded to the nearest pattern. It
/// corrects the error that the recurrence makes on the first step.
pub const FIRST_STEP_CORRECTION: u32 = 2_903_397_892;

/// Seconds per step at one revolution per minute, at scale `Q12`.
pub open spec fn step_period(steps_per_revolution: int) -> int {
    (60 * 4096int) / steps_per_revolution
}

/// The delay at the target speed: `60 / steps_per_revolution * timer_hz /
/// target_rpm` ticks.
pub open spec fn target_delay(timer_hz: int, steps_per_revolution: int, target_rpm: int) -> int {
    (step_period(steps_per_revolution) * timer_hz) / target_rpm
}

/// The angle of one step in radians, at scale `Q18`:
/// `360 / steps_per_revolution * pi / 180`.
pub open spec fn step_angle(steps_per_revolution: int) -> int {
    ((((360 * 0x4_0000int) / steps_per_revolution) * PI_Q18) / 0x4_0000) / 180
}

/// The acceleration in radians per second squared, at scale `Q12`:
/// `acceleration * 2 * pi / 60`.
pub open spec fn angular_acceleration(acceleration: int) -> int {
    (acceleration * (2 * PI_Q12)) / 60
}

/// Twice the step angle over the angular acceleration, at scale `Q12`.
pub open spec fn ramp_ratio(steps_per_revolution: int, acceleration: int) -> int {
    (((2 * step_angle(steps_per_revolution)) / 64) * 4096) / angular_acceleration(acceleration)
}

/// The first delay in seconds, at scale `Q12`: the corrected square root
/// of the ramp ratio. The root is taken at scale `Q32` and the product
/// rounded to the nearest pattern at scale `Q12`.
pub open spec fn first_step_seconds(steps_per_revolution: int, acceleration: int) -> int {
    let root = floor_sqrt(ramp_ratio(steps_per_revolution, acceleration) * 0x10_0000 * 0x1_0000_0000);
    let corrected = (root * FIRST_STEP_CORRECTION) / 0x1_0000_0000;
    (corrected * 4096 + 0x8000_0000) / 0x1_0000_0000
}

/// The delay of the first step: `timer_hz * 0.676 * sqrt(2 * step_angle /
/// angular_acceleration)` ticks, but not less than the target delay.
pub open spec fn first_delay(
    timer_hz: int,
    steps_per_revolution: int,
    acceleration: int,
    target_rpm: int,
) -> int {
    let raw = first_step_seconds(steps_per_revolution, acceleration) * timer_hz;
    let target = target_delay(timer_hz, steps_per_revolution, target_rpm);
    if raw < target {
        target
    } else {
        raw
    }
}

/// Whether the delays of these parameters, and every number on the way to
/// them, can be held in 32 bits at its scale.
pub open spec fn representable(
    timer_hz: int,
    steps_per_revolution: int,
    acceleration: int,
    target_rpm: int,
) -> bool {
    &&& 1 <= steps_per_revolution
    &&& 1 <= acceleration
    &&& 1 <= target_rpm
    &&& timer_hz * 4096 <= u32::MAX
    &&& steps_per_revolution * 0x4_0000 <= u32::MAX
    &&& step_period(steps_per_revolution) * timer_hz <= u32::MAX
    &&& ramp_ratio(steps_per_revolution, acceleration) * 0x10_0000 <= u32::MAX
}

/// Dividing two numbers that are both `scale` times too large gives the
/// quotient of the numbers themselves.
proof fn lemma_scaled_quotient(a: int, b: int, scale: int)
    requires
        0 <= a,
        0 < b,
        0 < scale,
    ensures
        (a * scale) / (b * scale) == a / b,
{
    lemma_div_multiples_vanish_quotient(scale, a, b);
    assert(scale * a == a * scale) by (nonlinear_arith);
    assert(scale * b == b * scale) by (nonlinear_arith);
}

/// Multiplying by a whole number at a scale and dividing by the scale
/// multiplies by the whole number.
proof fn lemma_scaled_product(a: int, n: int, scale: int)
    requires
        0 < scale,
    ensures
        (a * (n * scale)) / scale == a * n,
{
    assert(a * (n * scale) == (a * n) * scale) by (nonlinear_arith);
    vstd::arithmetic::div_mod::lemma_div_multiples_vanish(a * n, scale);
    assert((a * n) * scale == scale * (a * n)) by (nonlinear_arith);
}

/// The delay at the target speed, or `None` if it cannot be represented.
pub fn resolve_target_delay(timer_hz: u32, steps_per_revolution: u16, target_rpm: u16) -> (r:
    Option<u32>)
    ensures
        r is Some <==> {
            &&& 1 <= steps_per_revolution
            &&& 1 <= target_rpm
            &&& timer_hz * 4096 <= u32::MAX
            &&& step_period(steps_per_revolution as int) * timer_hz <= u32::MAX
        },
        r matches Some(target) ==> target == target_delay(
            timer_hz as int,
            steps_per_revolution as int,
            target_rpm as int,
        ),
{
    if steps_per_revolution == 0 || target_rpm == 0 {
        return None;
    }
    let ghost hz = timer_hz as int;
    let ghost spr = steps_per_revolution as int;
    let ghost rpm = target_rpm as int;
    let hz12 = from_int(timer_hz, Q12)?;
    let sixty = from_int(60, Q12).unwrap();
    let spr12 = from_int(steps_per_revolution as u32, Q12).unwrap();
    let rpm12 = from_int(target_rpm as u32, Q12).unwrap();
    proof {
        lemma_scaled_quotient(60 * 4096int, spr, 4096);
    }
    let period = checked_div(sixty, spr12, Q12).unwrap();
    assert(period == step_period(spr));
    proof {
        lemma_scaled_product(period as int, hz, 4096);
    }
    let scaled = checked_mul(period, hz12, Q12)?;
    assert(scaled == step_period(spr) * hz);
    proof {
        lemma_scaled_quotient(scaled as int, rpm, 4096);
    }
    checked_div(scaled, rpm12, Q12)
}

/// The angle of one step, or `None` if the number of steps in a
/// revolution is zero or cannot be represented at scale `Q18`.
pub fn resolve_step_angle(steps_per_revolution: u16) -> (r: Option<u32>)
    ensures
        r is Some <==> 1 <= steps_per_revolution && steps_per_revolution * 0x4_0000 <= u32::MAX,
        r matches Some(angle) ==> angle == step_angle(steps_per_revolution as int),
{
    if steps_per_revolution == 0 {
        return None;
    }
    let ghost spr = steps_per_revolution as int;
    let full_turn = from_int(360, Q18).unwrap();
    let half_turn = from_int(180, Q18).unwrap();
    let spr18 = from_int(steps_per_revolution as u32, Q18)?;
    proof {
        lemma_scaled_quotient(360 * 0x4_0000int, spr, 0x4_0000);
    }
    let degrees = checked_div(full_turn, spr18, Q18).unwrap();
    assert(degrees == (360 * 0x4_0000int) / spr);
    assert(0 <= degrees as int * PI_Q18 as int <= 360 * 0x4_0000 * 823549) by (nonlinear_arith)
        requires
            0 <= degrees <= 360 * 0x4_0000,
            PI_Q18 == 823549,
    ;
    let scaled_angle = checked_mul(degrees, PI_Q18, Q18).unwrap();
    proof {
        lemma_scaled_quotient(scaled_angle as int, 180, 0x4_0000);
    }
    checked_div(scaled_angle, half_turn, Q18)
}

/// The acceleration in radians per second squared.
pub fn resolve_angular_acceleration(acceleration: u16) -> (angular: u32)
    ensures
        angular == angular_acceleration(acceleration as int),
{
    let ghost acc = acceleration as int;
    let acc12 = from_int(acceleration as u32, Q12).unwrap();
    let two12 = from_int(2, Q12).unwrap();
    let sixty = from_int(60, Q12).unwrap();
    assert(acc12 as int * two12 as int == acc * 0x200_0000) by (nonlinear_arith)
        requires
            acc12 == acc * 4096,
            two12 == 8192,
    ;
    let doubled = checked_mul(acc12, two12, Q12).unwrap();
    assert(doubled == acc * 8192);
    assert(doubled as int * PI_Q12 as int == (acc * (2 * PI_Q12)) * 4096) by (nonlinear_arith)
        requires
            doubled == acc * 8192,
            PI_Q12 == 12867,
    ;
    let turned = checked_mul(doubled, PI_Q12, Q12).unwrap();
    assert(turned == acc * (2 * PI_Q12));
    proof {
        lemma_scaled_quotient(turned as int, 60, 4096);
    }
    checked_div(turned, sixty, Q12).unwrap()
}

/// The first delay in seconds, or `None` if the step angle or the ramp
/// ratio cannot be represented or the acceleration is zero.
pub fn resolve_first_step_seconds(steps_per_revolution: u16, acceleration: u16) -> (r: Option<
    u32,
>)
    ensures
        r is Some <==> {
            &&& 1 <= steps_per_revolution
            &&& 1 <= acceleration
            &&& steps_per_revolution * 0x4_0000 <= u32::MAX
            &&& ramp_ratio(steps_per_revolution as int, acceleration as int) * 0x10_0000
                <= u32::MAX
        },
        r matches Some(seconds) ==> seconds <= 4096 && seconds == first_step_seconds(
            steps_per_revolution as int,
            acceleration as int,
        ),
{
    if acceleration == 0 {
        return None;
    }
    let ghost spr = steps_per_revolution as int;
    let ghost acc = acceleration as int;
    let angle = resolve_step_angle(steps_per_revolution)?;
    let angular = resolve_angular_acceleration(acceleration);
    let two18 = from_int(2, Q18).unwrap();
    let twice_angle = checked_mul(two18, angle, Q18).unwrap();
    let narrow_angle = rescale(twice_angle, Q18, Q12).unwrap();
    assert(narrow_angle == (2 * step_angle(spr)) / 64);
    let ratio = checked_div(narrow_angle, angular, Q12).unwrap();
    assert(ratio == ramp_ratio(spr, acc));
    // The root is taken of a number below one.
    let wide_ratio = rescale(ratio, Q12, Q32)?;
    assert(wide_ratio == ratio * 0x10_0000);
    let root = sqrt_q32(wide_ratio);
    let corrected = checked_mul(root, FIRST_STEP_CORRECTION, Q32).unwrap();
    rescale_nearest(corrected, Q32, Q12)
}

/// The first delay and the target delay, in this order, for a timer of
/// `timer_hz` ticks per second, or `None` if they cannot be represented.
pub fn resolve_delays(
    timer_hz: u32,
    steps_per_revolution: u16,
    acceleration: u16,
    target_rpm: u16,
) -> (r: Option<(u32, u32)>)
    ensures
        r is Some <==> representable(
            timer_hz as int,
            steps_per_revolution as int,
            acceleration as int,
            target_rpm as int,
        ),
        r matches Some((first, target)) ==> target <= first && first == first_delay(
            timer_hz as int,
            steps_per_revolution as int,
            acceleration as int,
            target_rpm as int,
        ) && target == target_delay(
            timer_hz as int,
            steps_per_revolution as int,
            target_rpm as int,
        ),
{
    let target = resolve_target_delay(timer_hz, steps_per_revolution, target_rpm)?;
    let seconds = resolve_first_step_seconds(steps_per_revolution, acceleration)?;
    let hz12 = from_int(timer_hz, Q12).unwrap();
    proof {
        lemma_scaled_product(seconds as int, timer_hz as int, 4096);
        assert(seconds * timer_hz <= 4096 * 0xf_ffff) by (nonlinear_arith)
            requires
                seconds <= 4096,
                timer_hz <= 0xf_ffff,
        ;
    }
    let raw = checked_mul(seconds, hz12, Q12).unwrap();
    // The target speed is reached before the acceleration would finish.
    let first = if raw < target {
        target
    } else {
        raw
    };
    Some((first, target))
}

} // verus!
