use ballistics::binary64::Binary64;
use ballistics::integrator::{continues, descends, time_step, trajectory, Flight, FlightState};
use ballistics::vector3::Vector3;

const G: f64 = 9.80665;

fn b(x: f64) -> Binary64 {
    Binary64::from_bits(x.to_bits())
}

fn f(x: Binary64) -> f64 {
    f64::from_bits(x.to_bits())
}

fn v(x: f64, y: f64, z: f64) -> Vector3 {
    Vector3::new(b(x), b(y), b(z))
}

/// One explicit Euler step under gravity alone.
fn free_fall(state: FlightState, step: Binary64) -> FlightState {
    let dt = f(step);
    let position = v(
        f(state.position.x) + f(state.velocity.x) * dt,
        f(state.position.y) + f(state.velocity.y) * dt,
        f(state.position.z) + f(state.velocity.z) * dt,
    );
    let velocity = v(
        f(state.velocity.x),
        f(state.velocity.y),
        f(state.velocity.z) + -G * dt,
    );
    FlightState { position, velocity, elapsed: b(f(state.elapsed) + dt) }
}

fn fly(position: Vector3, velocity: Vector3, end_height: f64, max_time: f64) -> Flight {
    trajectory(position, velocity, free_fall, b(end_height), b(max_time), usize::MAX)
}

fn same_bits(one: &Flight, other: &Flight) -> bool {
    one.finished == other.finished
        && one.samples.len() == other.samples.len()
        && one.samples.iter().zip(other.samples.iter()).all(|(p, q)| {
            p.position.x.to_bits() == q.position.x.to_bits()
                && p.position.y.to_bits() == q.position.y.to_bits()
                && p.position.z.to_bits() == q.position.z.to_bits()
                && p.velocity.x.to_bits() == q.velocity.x.to_bits()
                && p.velocity.y.to_bits() == q.velocity.y.to_bits()
                && p.velocity.z.to_bits() == q.velocity.z.to_bits()
                && p.elapsed.to_bits() == q.elapsed.to_bits()
        })
}

#[test]
fn time_step_is_a_tenth() {
    assert_eq!(f(time_step()), 0.1);
    assert_eq!(time_step().to_bits(), 0x3FB9_9999_9999_999A);
}

#[test]
fn advance_is_handed_the_time_step() {
    let flight = trajectory(
        v(0.0, 0.0, 0.0),
        v(0.0, 0.0, 0.0),
        |state: FlightState, step: Binary64| FlightState {
            position: state.position,
            velocity: state.velocity,
            elapsed: step,
        },
        b(0.0),
        b(0.05),
        usize::MAX,
    );
    assert_eq!(flight.samples.len(), 2);
    assert_eq!(f(flight.samples[1].elapsed), 0.1);
    assert!(flight.finished);
}

#[test]
fn flight_starts_at_the_given_state_with_no_time_passed() {
    let flight = fly(v(1.0, 2.0, 3.0), v(10.0, 0.0, 20.0), 0.0, 1.0);
    let start = flight.samples[0];
    assert_eq!(f(start.position.x), 1.0);
    assert_eq!(f(start.position.y), 2.0);
    assert_eq!(f(start.position.z), 3.0);
    assert_eq!(f(start.velocity.x), 10.0);
    assert_eq!(f(start.velocity.y), 0.0);
    assert_eq!(f(start.velocity.z), 20.0);
    assert_eq!(start.elapsed.to_bits(), 0.0f64.to_bits());
}

#[test]
fn no_step_is_taken_without_time() {
    for max_time in [0.0, -0.0, -1.0, f64::NAN, f64::NEG_INFINITY] {
        let flight = fly(v(0.0, 0.0, 100.0), v(0.0, 0.0, -5.0), 0.0, max_time);
        assert_eq!(flight.samples.len(), 1);
        assert!(flight.finished);
    }
}

#[test]
fn samples_while_only_the_clock_runs() {
    // The end height is out of reach above, so only the clock asks for steps.
    // Elapsed time is the running sum of the time step, so the counts follow
    // that sum: 0.1 added five times is 0.5, added ten times it is still
    // below 1.
    let expected = [(0.1, 2), (0.2, 3), (0.25, 4), (0.3, 4), (0.5, 6), (0.8, 10), (1.0, 12), (2.0, 21), (3.0, 31)];
    for (max_time, samples) in expected {
        let flight = fly(v(0.0, 0.0, 0.0), v(10.0, 0.0, 20.0), 1e9, max_time);
        assert_eq!(flight.samples.len(), samples, "max_time {}", max_time);
        assert!(flight.finished);
    }
}

#[test]
fn samples_are_one_more_than_the_samples_with_time_left() {
    for max_time in [0.0, 0.05, 0.5, 1.0, 2.0, 7.3] {
        let flight = fly(v(0.0, 0.0, 0.0), v(10.0, 0.0, 20.0), 1e9, max_time);
        let with_time_left = flight.samples.iter().filter(|s| f(s.elapsed) < max_time).count();
        assert_eq!(flight.samples.len(), with_time_left + 1);
    }
}

#[test]
fn elapsed_time_is_the_running_sum_of_the_step() {
    let flight = fly(v(0.0, 0.0, 0.0), v(10.0, 0.0, 20.0), 1e9, 1.0);
    let mut t = 0.0f64;
    for sample in flight.samples.iter() {
        assert_eq!(f(sample.elapsed).to_bits(), t.to_bits());
        t = t + 0.1;
    }
}

#[test]
fn a_falling_projectile_flies_on_after_time_is_up() {
    let flight = fly(v(0.0, 0.0, 100.0), v(3.0, 0.0, -1.0), 0.0, 0.1);
    assert!(flight.finished);
    let count = flight.samples.len();
    assert!(count > 2);
    // Every sample but the last is above the end height, the last is not.
    for sample in flight.samples[1..count - 1].iter() {
        assert!(f(sample.position.z) > 0.0);
    }
    assert!(!(f(flight.samples[count - 1].position.z) > 0.0));
    assert!(f(flight.samples[count - 1].elapsed) > 0.1);
}

#[test]
fn a_rising_projectile_stops_when_time_is_up() {
    // Still rising after two steps: above the end height, but not falling.
    let flight = fly(v(0.0, 0.0, 0.0), v(0.0, 0.0, 50.0), -10.0, 0.2);
    assert_eq!(flight.samples.len(), 3);
    assert!(flight.finished);
    assert!(f(flight.samples[2].position.z) > f(flight.samples[1].position.z));
}

#[test]
fn a_projectile_below_the_end_height_flies_until_time_is_up() {
    let flight = fly(v(0.0, 0.0, -50.0), v(0.0, 0.0, -1.0), 0.0, 0.5);
    assert_eq!(flight.samples.len(), 6);
    assert!(flight.finished);
}

#[test]
fn a_level_step_is_not_a_fall() {
    // No gravity and no vertical speed: height never drops, so the flight
    // ends with the clock although it stays above the end height.
    let flight = trajectory(
        v(0.0, 0.0, 10.0),
        v(1.0, 0.0, 0.0),
        |state: FlightState, step: Binary64| FlightState {
            position: v(f(state.position.x) + f(state.velocity.x) * f(step), 0.0, f(state.position.z)),
            velocity: state.velocity,
            elapsed: b(f(state.elapsed) + f(step)),
        },
        b(0.0),
        b(0.5),
        usize::MAX,
    );
    assert_eq!(flight.samples.len(), 6);
    assert!(flight.finished);
}

#[test]
fn the_cap_cuts_a_flight_short() {
    let flight = trajectory(v(0.0, 0.0, 0.0), v(10.0, 0.0, 20.0), free_fall, b(1e9), b(10.0), 3);
    assert_eq!(flight.samples.len(), 4);
    assert!(!flight.finished);
    let none = trajectory(v(0.0, 0.0, 0.0), v(10.0, 0.0, 20.0), free_fall, b(1e9), b(10.0), 0);
    assert_eq!(none.samples.len(), 1);
    assert!(!none.finished);
}

#[test]
fn a_flight_that_ends_at_the_cap_is_finished() {
    let flight = trajectory(v(0.0, 0.0, 0.0), v(10.0, 0.0, 20.0), free_fall, b(1e9), b(0.5), 5);
    assert_eq!(flight.samples.len(), 6);
    assert!(flight.finished);
}

#[test]
fn a_capped_flight_is_the_start_of_the_full_one() {
    let full = fly(v(0.0, 0.0, 0.0), v(10.0, 0.0, 20.0), 0.0, 3.0);
    let capped = trajectory(v(0.0, 0.0, 0.0), v(10.0, 0.0, 20.0), free_fall, b(0.0), b(3.0), 7);
    assert_eq!(capped.samples.len(), 8);
    for k in 0..8 {
        assert_eq!(capped.samples[k].position.z.to_bits(), full.samples[k].position.z.to_bits());
        assert_eq!(capped.samples[k].elapsed.to_bits(), full.samples[k].elapsed.to_bits());
    }
}

#[test]
fn two_runs_give_the_same_bits() {
    let one = fly(v(0.0, 0.0, 0.0), v(10.0, 0.0, 20.0), 0.0, 5.0);
    let other = fly(v(0.0, 0.0, 0.0), v(10.0, 0.0, 20.0), 0.0, 5.0);
    assert!(one.samples.len() > 40);
    assert!(same_bits(&one, &other));
    let shorter = fly(v(0.0, 0.0, 0.0), v(10.0, 0.0, 20.0), 0.0, 4.0);
    assert!(!same_bits(&one, &shorter));
}

#[test]
fn each_sample_is_one_step_from_the_one_before() {
    let flight = fly(v(0.0, 0.0, 2.0), v(4.0, -1.0, 6.0), 0.0, 1.0);
    for k in 1..flight.samples.len() {
        let expected = free_fall(flight.samples[k - 1], time_step());
        assert_eq!(flight.samples[k].position.x.to_bits(), expected.position.x.to_bits());
        assert_eq!(flight.samples[k].position.y.to_bits(), expected.position.y.to_bits());
        assert_eq!(flight.samples[k].position.z.to_bits(), expected.position.z.to_bits());
        assert_eq!(flight.samples[k].velocity.z.to_bits(), expected.velocity.z.to_bits());
        assert_eq!(flight.samples[k].elapsed.to_bits(), expected.elapsed.to_bits());
    }
}

#[test]
fn every_sample_but_the_last_asks_for_a_step() {
    let end_height = b(0.0);
    let max_time = b(1.0);
    let flight = fly(v(0.0, 0.0, 0.0), v(10.0, 0.0, 20.0), 0.0, 1.0);
    let count = flight.samples.len();
    let mut falling = false;
    for k in 0..count {
        if k > 0 {
            falling = descends(flight.samples[k - 1].position, flight.samples[k].position);
        }
        assert_eq!(continues(flight.samples[k], falling, end_height, max_time), k + 1 < count);
    }
}

#[test]
fn a_thrown_projectile_comes_down_to_the_end_height() {
    // Up and down again: the clock runs out on the way down, the flight ends
    // with the first sample at or below the end height.
    let flight = fly(v(0.0, 0.0, 0.0), v(10.0, 0.0, 20.0), 0.0, 3.0);
    let count = flight.samples.len();
    assert!(flight.finished);
    assert_eq!(count, 43);
    assert!(f(flight.samples[count - 2].position.z) > 0.0);
    assert!(f(flight.samples[count - 1].position.z) <= 0.0);
}

#[test]
fn free_fall_tracks_the_closed_form() {
    // Without drag the horizontal motion is uniform, and explicit Euler steps
    // run ahead of the parabola by g * dt * t / 2.
    let flight = fly(v(0.0, 0.0, 0.0), v(10.0, 0.0, 20.0), 0.0, 1.0);
    for sample in flight.samples.iter() {
        let t = f(sample.elapsed);
        let closed_form = 20.0 * t - G * t * t / 2.0;
        assert!((f(sample.position.x) - 10.0 * t).abs() < 1e-9);
        assert!((f(sample.position.z) - (closed_form + G * 0.1 * t / 2.0)).abs() < 1e-9);
    }
}

#[test]
fn a_fast_shot_peaks_within_a_hundredth_of_the_closed_form() {
    let flight = fly(v(0.0, 0.0, 0.0), v(300.0, 0.0, 1000.0), 0.0, 150.0);
    let apex = 1000.0 * 1000.0 / (2.0 * G);
    let highest = flight.samples.iter().map(|s| f(s.position.z)).fold(f64::MIN, f64::max);
    assert!((highest - apex).abs() / apex < 0.01);
}

#[test]
fn descends_only_on_a_loss_of_height() {
    assert!(descends(v(0.0, 0.0, 2.0), v(5.0, 5.0, 1.0)));
    assert!(!descends(v(0.0, 0.0, 1.0), v(5.0, 5.0, 1.0)));
    assert!(!descends(v(0.0, 0.0, 1.0), v(0.0, 0.0, 2.0)));
    assert!(!descends(v(0.0, 0.0, 0.0), v(0.0, 0.0, -0.0)));
    assert!(!descends(v(0.0, 0.0, f64::NAN), v(0.0, 0.0, 1.0)));
    assert!(!descends(v(0.0, 0.0, 1.0), v(0.0, 0.0, f64::NAN)));
}

#[test]
fn continues_while_falling_above_the_end_height_or_with_time_left() {
    let state = |z: f64, t: f64| FlightState { position: v(0.0, 0.0, z), velocity: v(0.0, 0.0, 0.0), elapsed: b(t) };
    // above and falling, time up
    assert!(continues(state(5.0, 9.0), true, b(0.0), b(1.0)));
    // above, not falling, time up
    assert!(!continues(state(5.0, 9.0), false, b(0.0), b(1.0)));
    // at the end height, falling, time up
    assert!(!continues(state(0.0, 9.0), true, b(0.0), b(1.0)));
    // below, falling, time left
    assert!(continues(state(-5.0, 0.5), true, b(0.0), b(1.0)));
    // below, not falling, time left
    assert!(continues(state(-5.0, 0.5), false, b(0.0), b(1.0)));
    // time exactly up
    assert!(!continues(state(-5.0, 1.0), false, b(0.0), b(1.0)));
    // nothing compares with a NaN
    assert!(!continues(state(f64::NAN, f64::NAN), true, b(0.0), b(1.0)));
    assert!(!continues(state(5.0, 0.5), true, b(f64::NAN), b(f64::NAN)));
}

#[test]
fn path_holds_the_positions_in_order() {
    let flight = fly(v(1.0, 2.0, 3.0), v(10.0, 0.0, 20.0), 0.0, 1.0);
    let path = flight.path();
    assert_eq!(path.len(), flight.samples.len());
    assert_eq!(f(path[0].x), 1.0);
    assert_eq!(f(path[0].y), 2.0);
    assert_eq!(f(path[0].z), 3.0);
    for k in 0..path.len() {
        assert_eq!(path[k].x.to_bits(), flight.samples[k].position.x.to_bits());
        assert_eq!(path[k].y.to_bits(), flight.samples[k].position.y.to_bits());
        assert_eq!(path[k].z.to_bits(), flight.samples[k].position.z.to_bits());
    }
}
