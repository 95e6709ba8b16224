use fixed::types::extra::U12;
use fixed::FixedU32;
use stepgen::recurrence::{count_up, slow_down_floor, slow_down_step, speed_up_step};
use stepgen::sequencer::{decide_duration, decide_step};
use stepgen::motion::Phase;

type Fix = FixedU32<U12>;

#[test]
fn speed_up_shortens_by_two_over_four_n_plus_one() {
    // 2000 ticks less two fifths are 1200 ticks.
    assert_eq!(speed_up_step(8_192_000, 1, 0), 4_915_200);
    // 1200 ticks less two ninths: 4915200 - 9830400 / 9 = 3822934 units.
    assert_eq!(speed_up_step(4_915_200, 2, 0), 3_822_934);
    assert_eq!(speed_up_step(3_822_934, 3, 0), 3_234_791);
    // The cut is rounded down, so the delay is rounded up.
    assert_eq!(speed_up_step(7, 1, 0), 5);
    assert_eq!(speed_up_step(2, 1, 0), 2);
    assert_eq!(speed_up_step(u32::MAX, u32::MAX, 0), u32::MAX);
}

#[test]
fn speed_up_stops_at_the_target_delay() {
    assert_eq!(speed_up_step(8_192_000, 1, 5_000_000), 5_000_000);
    assert_eq!(speed_up_step(8_192_000, 1, 4_915_200), 4_915_200);
    assert_eq!(speed_up_step(8_192_000, 1, 4_915_199), 4_915_200);
    assert_eq!(speed_up_step(614_400, 97, 614_400), 614_400);
    // At index zero the whole delay would go and more.
    assert_eq!(speed_up_step(8_192_000, 0, 3), 3);
}

#[test]
fn slow_down_lengthens_by_two_over_four_m_minus_one() {
    // From index 2 the index goes to 1: 1200 ticks and two thirds more are 2000 ticks.
    assert_eq!(slow_down_step(4_915_200, 2, u32::MAX), 8_192_000);
    assert_eq!(slow_down_step(3_822_934, 3, u32::MAX), 4_915_200);
    // 3234791 + 6469582 / 11 = 3822934 units.
    assert_eq!(slow_down_step(3_234_791, 4, u32::MAX), 3_822_934);
    // The index does not go below one.
    assert_eq!(slow_down_step(300, 1, u32::MAX), 500);
    assert_eq!(slow_down_step(300, 0, u32::MAX), 500);
    assert_eq!(slow_down_floor(0), 1);
    assert_eq!(slow_down_floor(1), 1);
    assert_eq!(slow_down_floor(2), 1);
    assert_eq!(slow_down_floor(98), 97);
    assert_eq!(slow_down_floor(u32::MAX), u32::MAX - 1);
}

#[test]
fn slow_down_stops_at_the_first_delay() {
    assert_eq!(slow_down_step(4_915_200, 2, 8_000_000), 8_000_000);
    assert_eq!(slow_down_step(4_915_200, 2, 8_192_000), 8_192_000);
    assert_eq!(slow_down_step(4_915_200, 2, 8_192_001), 8_192_000);
    assert_eq!(slow_down_step(u32::MAX, 1, u32::MAX), u32::MAX);
    assert_eq!(slow_down_step(u32::MAX - 1, 1, u32::MAX), u32::MAX);
}

#[test]
fn steps_are_those_of_fixed_point_arithmetic() {
    let two = Fix::from_num(2);
    let four = Fix::from_num(4);
    let mut state: u64 = 0x9e37_79b9_7f4a_7c15;
    for _ in 0..2_000 {
        state = state.wrapping_mul(6364136223846793005).wrapping_add(1442695040888963407);
        let delay = ((state >> 33) as u32) >> ((state & 15) as u32);
        let n = 1 + ((state >> 8) as u32 & 0xffff);
        let d = Fix::from_bits(delay);
        let faster = d - two * d / (four * Fix::from_num(n) + Fix::ONE);
        assert_eq!(speed_up_step(delay, n, 0), faster.to_bits());
        let slower = d.to_bits() as u64
            + (two * d / (four * Fix::from_num(n) - Fix::ONE)).to_bits() as u64;
        assert_eq!(slow_down_step(delay, n + 1, u32::MAX) as u64, slower.min(u32::MAX as u64));
    }
}

#[test]
fn counters_stay_at_their_largest_value() {
    assert_eq!(count_up(0), 1);
    assert_eq!(count_up(41), 42);
    assert_eq!(count_up(u32::MAX - 1), u32::MAX);
    assert_eq!(count_up(u32::MAX), u32::MAX);
}

#[test]
fn step_decision_follows_the_steps_left() {
    // Stopped stays stopped.
    assert_eq!(decide_step(true, 0, 0, 10, false), Phase::Stopped);
    assert_eq!(decide_step(true, 5, 5, 10, true), Phase::Stopped);
    // The first tick starts, whatever the target.
    assert_eq!(decide_step(false, 0, 0, 10, false), Phase::Start);
    assert_eq!(decide_step(false, 0, 0, 0, true), Phase::Start);
    // On the target or beyond it the motion stops.
    assert_eq!(decide_step(false, 10, 1, 10, false), Phase::Stopped);
    assert_eq!(decide_step(false, 11, 1, 10, false), Phase::Stopped);
    // As many steps left as the index counts: slow down.
    assert_eq!(decide_step(false, 6, 4, 10, false), Phase::Decelerating);
    assert_eq!(decide_step(false, 6, 5, 10, true), Phase::Decelerating);
    assert_eq!(decide_step(false, 9, 1, 10, true), Phase::Decelerating);
    assert_eq!(decide_step(false, u32::MAX - 1, u32::MAX, u32::MAX, false), Phase::Decelerating);
    // One more step left than the index counts: hold or speed up.
    assert_eq!(decide_step(false, 5, 4, 10, true), Phase::Cruising);
    assert_eq!(decide_step(false, 5, 4, 10, false), Phase::Accelerating);
}

#[test]
fn duration_decision_follows_the_time_left() {
    assert_eq!(decide_duration(true, true, Some(5), 100, 10, false), Phase::Stopped);
    assert_eq!(decide_duration(false, false, None, 100, 0, false), Phase::Start);
    assert_eq!(decide_duration(false, false, Some(500), 100, 0, true), Phase::Start);
    // The clock ran backwards.
    assert_eq!(decide_duration(false, true, None, 100, 0, false), Phase::Stopped);
    // The time is up.
    assert_eq!(decide_duration(false, true, Some(100), 100, 10, false), Phase::Stopped);
    assert_eq!(decide_duration(false, true, Some(101), 100, 10, true), Phase::Stopped);
    // No more time left than the acceleration took: slow down.
    assert_eq!(decide_duration(false, true, Some(90), 100, 10, true), Phase::Decelerating);
    assert_eq!(decide_duration(false, true, Some(99), 100, 10, false), Phase::Decelerating);
    assert_eq!(decide_duration(false, true, Some(89), 100, 10, true), Phase::Cruising);
    assert_eq!(decide_duration(false, true, Some(89), 100, 10, false), Phase::Accelerating);
    assert_eq!(decide_duration(false, true, Some(0), u32::MAX, 0, false), Phase::Accelerating);
}
