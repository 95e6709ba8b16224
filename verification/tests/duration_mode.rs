use stepgen::{Error, Stepgen};

const FIRST: u32 = 2000 * 4096;
const TARGET: u32 = 500 * 4096;

fn generator(duration_ms: u32) -> Stepgen<1_000_000> {
    Stepgen::<1_000_000>::with_delays(FIRST, TARGET, 0, duration_ms).unwrap()
}

// Runs the generator on a clock that starts at `start_ms` and moves on by
// the delays that the generator emits, in microseconds.
fn drain(generator: &mut Stepgen<1_000_000>, start_ms: u32) -> Vec<u32> {
    let mut delays = Vec::new();
    let mut elapsed_us: u64 = 0;
    loop {
        let now = start_ms.wrapping_add((elapsed_us / 1000) as u32);
        match generator.next_delay(Some(now)) {
            None => return delays,
            Some(delay) => {
                delays.push(delay);
                elapsed_us += delay as u64;
            }
        }
        assert!(delays.len() <= 1_000_000);
    }
}

#[test]
fn ramp_over_a_tenth_of_a_second() {
    let mut g = generator(100);
    let delays = drain(&mut g, 4_294_967_000);
    assert_eq!(delays.len(), 187);
    assert_eq!(&delays[..12], &[2000, 1200, 933, 789, 696, 630, 580, 540, 507, 500, 500, 500]);
    assert_eq!(&delays[175..], &[500, 500, 500, 528, 562, 604, 656, 726, 822, 972, 1250, 2000]);
    assert_eq!(delays.iter().filter(|&&delay| delay == 500).count(), 169);
    assert_eq!(g.get_acceleration_duration_ms(), 8);
    assert_eq!(g.get_current_step(), 187);
    assert_eq!(g.get_acceleration_steps(), 1);
    assert!(g.is_acceleration_done());
}

#[test]
fn clock_may_wrap_around() {
    let mut g = generator(100);
    let delays = drain(&mut g, 4_294_967_250);
    assert_eq!(delays.len(), 187);
    assert_eq!(&delays[..12], &[2000, 1200, 933, 789, 696, 630, 580, 540, 507, 500, 500, 500]);
    assert_eq!(&delays[175..], &[500, 500, 500, 528, 562, 604, 656, 726, 822, 972, 1250, 2000]);
    assert_eq!(g.get_acceleration_duration_ms(), 8);
}

#[test]
fn motion_ends_when_the_time_is_up() {
    let mut g = generator(400);
    assert_eq!(g.next_delay(Some(1000)), Some(2000));
    assert_eq!(g.next_delay(Some(1399)), Some(1200));
    assert_eq!(g.get_acceleration_duration_ms(), 399);
    // One millisecond is left, less than the acceleration took.
    assert_eq!(g.next_delay(Some(1399)), Some(2000));
    assert_eq!(g.next_delay(Some(1400)), None);
    assert_eq!(g.get_current_step(), 3);
    // The time between the two readings counts, not the readings.
    let mut g = generator(400);
    assert_eq!(g.next_delay(Some(1000)), Some(2000));
    assert_eq!(g.next_delay(Some(1500)), None);
    let mut g = generator(400);
    assert_eq!(g.next_delay(Some(400)), Some(2000));
    assert_eq!(g.next_delay(Some(500)), Some(1200));
    let mut g = generator(400);
    assert_eq!(g.next_delay(Some(u32::MAX - 10)), Some(2000));
    assert_eq!(g.next_delay(Some(5)), Some(1200));
    assert_eq!(g.get_acceleration_duration_ms(), 16);
}

#[test]
fn clock_that_runs_backwards_ends_the_motion() {
    let mut g = generator(400);
    assert_eq!(g.next_delay(Some(1000)), Some(2000));
    assert_eq!(g.next_delay(Some(999)), None);
    assert_eq!(g.next_delay(Some(1001)), None);
    // Half the range of the clock is out of reach, whatever the target.
    let mut g = generator(u32::MAX);
    assert_eq!(g.next_delay(Some(0)), Some(2000));
    assert_eq!(g.next_delay(Some(0x7fff_ffff)), Some(1200));
    let mut g = generator(u32::MAX);
    assert_eq!(g.next_delay(Some(0)), Some(2000));
    assert_eq!(g.next_delay(Some(0x8000_0000)), None);
}

#[test]
fn tick_without_clock_ends_the_motion() {
    let mut g = generator(400);
    assert_eq!(g.next_delay(None), None);
    assert_eq!(g.next_delay(Some(0)), None);
    assert_eq!(g.get_current_step(), 0);
    let mut g = generator(400);
    assert_eq!(g.next_delay(Some(0)), Some(2000));
    assert_eq!(g.next_delay(None), None);
    assert_eq!(g.next_delay(Some(1)), None);
    assert_eq!(g.next_delay_duration(1), None);
    assert_eq!(g.get_current_step(), 1);
}

#[test]
fn cruise_records_the_acceleration_time_once() {
    let mut g = generator(10_000);
    let mut now = 0;
    loop {
        g.next_delay(Some(now)).unwrap();
        now += 3;
        if g.is_cruising() {
            break;
        }
    }
    assert!(g.is_acceleration_done());
    // Ten steps: the first, eight that sped up, and the first held one.
    assert_eq!(g.get_current_step(), 11);
    let recorded = g.get_acceleration_duration_ms();
    assert_eq!(recorded, 30);
    for _ in 0..20 {
        assert_eq!(g.next_delay(Some(now)), Some(500));
        now += 3;
        assert_eq!(g.get_acceleration_duration_ms(), recorded);
    }
}

#[test]
fn delays_never_leave_the_ramp() {
    // A clock that stands still near the end keeps the generator slowing down.
    let mut g = generator(100);
    assert_eq!(g.next_delay(Some(0)), Some(2000));
    assert_eq!(g.next_delay(Some(60)), Some(1200));
    let mut last = 1200;
    for _ in 0..50 {
        let delay = g.next_delay(Some(61)).unwrap();
        assert!(last <= delay && delay <= 2000);
        last = delay;
    }
    assert_eq!(last, 2000);
    assert_eq!(g.get_acceleration_steps(), 1);
}

#[test]
fn duration_from_speed_and_acceleration() {
    let mut g = Stepgen::<1_000_000>::new(120, 1000, 0, 2500, 200).unwrap();
    assert_eq!(g.set_step_target(5), Err(Error::InvalidState));
    assert_eq!(g.next_delay(Some(77)), Some(14892));
    assert_eq!(g.next_delay(Some(92)), Some(8935));
    assert_eq!(g.get_acceleration_duration_ms(), 15);
    assert_eq!(g.next_delay(Some(2577)), None);
}
