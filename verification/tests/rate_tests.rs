use pixel_pipeline::rate::RateState;
use pixel_pipeline::rate::compute_budget;
use pixel_pipeline::rate::compute_rate;

#[test]
fn new_controller_respects_the_floor() {
    let r = RateState::new(0, 4);
    assert_eq!(r.floor, 4);
    assert_eq!(r.target_rate, 4);
    let s = RateState::new(1000, 0);
    assert_eq!(s.floor, 1);
    assert_eq!(s.target_rate, 1000);
}

#[test]
fn constant_load_at_target_is_a_fixed_point() {
    let mut r = RateState::new(1000, 2);
    r.update(1000);
    assert_eq!(r.target_rate, 1000);
    r.update(1000);
    assert_eq!(r.target_rate, 1000);
}

#[test]
fn order_of_magnitude_deviation_snaps_to_half_measured() {
    let mut r = RateState::new(1000, 2);
    r.update(50_000); // more than 10x above the target
    assert_eq!(r.target_rate, 25_000);
    let mut s = RateState::new(100_000, 2);
    s.update(500); // more than 10x below the target
    assert_eq!(s.target_rate, 250);
}

#[test]
fn snap_never_sinks_below_the_floor() {
    let mut r = RateState::new(1000, 6);
    r.update(0);
    assert_eq!(r.target_rate, 6);
}

#[test]
fn moderate_surplus_grows_by_a_tenth() {
    let mut r = RateState::new(1000, 1);
    r.update(2000); // within 10x: grow by target/10
    assert_eq!(r.target_rate, 1100);
}

#[test]
fn moderate_shortfall_shrinks_by_a_tenth() {
    let mut r = RateState::new(1000, 1);
    r.update(500); // within 10x: shrink by target/10
    assert_eq!(r.target_rate, 900);
}

#[test]
fn controller_converges_to_constant_load_and_stays() {
    // the convergence law on concrete values: from an arbitrary start,
    // a constant measured rate is reached in a bounded number of cycles
    // and never left again
    let mut r = RateState::new(123_456, 3);
    let sustainable = 5000u64;
    let mut cycles = 0u32;
    while r.target_rate != sustainable {
        r.update(sustainable);
        cycles += 1;
        assert!(cycles < 200, "controller failed to converge");
    }
    for _ in 0..10 {
        r.update(sustainable);
        assert_eq!(r.target_rate, sustainable);
    }
}

#[test]
fn convergence_from_below_steps_through_the_gap() {
    let mut r = RateState::new(1, 1);
    let sustainable = 9u64; // within an order of magnitude of 1
    let mut cycles = 0u32;
    while r.target_rate != sustainable {
        r.update(sustainable);
        cycles += 1;
        assert!(cycles < 100);
    }
    assert_eq!(r.target_rate, 9);
}

#[test]
fn budget_is_duration_times_target() {
    // 16 milliseconds at 6250 requests per second
    assert_eq!(compute_budget(16_000, 6250, 1), 100);
    // the floor prevents starvation on very short cycles
    assert_eq!(compute_budget(1, 1, 7), 7);
    assert_eq!(compute_budget(0, 1000, 3), 3);
}

#[test]
fn measured_rate_is_count_over_elapsed() {
    // 100 requests in one millisecond: 100 000 per second
    assert_eq!(compute_rate(100, 1000), 100_000);
    // an instantaneous drain counts as one microsecond
    assert_eq!(compute_rate(3, 0), 3_000_000);
    assert_eq!(compute_rate(0, 5000), 0);
}
