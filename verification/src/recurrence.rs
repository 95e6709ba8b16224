//! The delay recurrence: each step's delay follows from the delay before
//! it and the index of the step on the ramp, without a square root.

use crate::motion::{
    bump, lemma_slow_down_delay_bounds, lemma_speed_up_delay_bounds, slow_down_delay,
    slow_down_index, speed_up_delay,
};
use vstd::prelude::*;

verus! {

/// A counter one further, held at the largest value that it can take.
pub fn count_up(count: u32) -> (next: u32)
    ensures
        next == bump(count as nat),
{
    if count < u32::MAX {
        count + 1
    } else {
        count
    }
}

/// The delay after one acceleration step at index `n`: not longer than the
/// delay before, and not shorter than the target delay.
pub fn speed_up_step(delay: u32, n: u32, target_delay: u32) -> (next: u32)
    ensures
        next == speed_up_delay(delay as nat, n as nat, target_delay as nat),
        target_delay <= delay ==> target_delay <= next <= delay,
{
    proof {
        if target_delay <= delay {
            lemma_speed_up_delay_bounds(delay as nat, n as nat, target_delay as nat);
        }
    }
    let cut: u64 = (2 * (delay as u64)) / (4 * (n as u64) + 1);
    if cut > delay as u64 {
        return target_delay;
    }
    let next: u32 = delay - (cut as u32);
    if next < target_delay {
        target_delay
    } else {
        next
    }
}

/// The index after one deceleration step from index `n`.
pub fn slow_down_floor(n: u32) -> (m: u32)
    ensures
        m == slow_down_index(n as nat),
        m >= 1,
{
    if n <= 1 {
        1
    } else {
        n - 1
    }
}

/// The delay after one deceleration step from index `n`: not shorter than
/// the delay before, and not longer than the first delay.
pub fn slow_down_step(delay: u32, n: u32, first_delay: u32) -> (next: u32)
    ensures
        next == slow_down_delay(delay as nat, n as nat, first_delay as nat),
        delay <= first_delay ==> delay <= next <= first_delay,
{
    proof {
        if delay <= first_delay {
            lemma_slow_down_delay_bounds(delay as nat, n as nat, first_delay as nat);
        }
    }
    let m: u32 = slow_down_floor(n);
    let gain: u64 = (2 * (delay as u64)) / (4 * (m as u64) - 1);
    let next: u64 = delay as u64 + gain;
    if next > first_delay as u64 {
        first_delay
    } else {
        next as u32
    }
}

} // verus!
