use rpm_gauge::gauge::Gauge;

fn gauge_at(value: u32) -> Gauge {
    let mut g = Gauge::new();
    g.current_value = value;
    g
}

#[test]
fn new_starts_at_zero_with_standard_configuration() {
    let g = Gauge::new();
    assert_eq!(g.current_value, 0);
    assert_eq!(g.max_value, 9000);
    assert_eq!(g.danger_threshold, 6000);
    assert_eq!(g.radius, 150);
    assert_eq!(g.center, 200);
    assert_eq!(g.value_step, 50);
    assert_eq!(g.decay_rate, 20);
}

#[test]
fn holding_one_second_gains_five_thousand() {
    let mut g = Gauge::new();
    g.update_rpm(true, 1000);
    assert_eq!(g.current_value, 5000);
}

#[test]
fn holding_long_enough_reaches_max_exactly() {
    // Accumulated gain 5000 + 5000 >= 9000, so the clamp lands exactly on it.
    let mut g = Gauge::new();
    g.update_rpm(true, 1000);
    g.update_rpm(true, 1000);
    assert_eq!(g.current_value, 9000);
}

#[test]
fn holding_at_max_is_a_noop() {
    let mut g = gauge_at(9000);
    g.update_rpm(true, 123456);
    assert_eq!(g.current_value, 9000);
}

#[test]
fn holding_never_decreases_and_never_exceeds_max() {
    let mut g = Gauge::new();
    let mut previous: u32 = g.current_value;
    let frames: [u32; 8] = [16, 0, 250, 1, 1000, 3, 100000, 7];
    for dt in frames {
        g.update_rpm(true, dt);
        assert!(g.current_value >= previous);
        assert!(g.current_value <= 9000);
        previous = g.current_value;
    }
}

#[test]
fn releasing_one_second_loses_two_thousand() {
    let mut g = gauge_at(5000);
    g.update_rpm(false, 1000);
    assert_eq!(g.current_value, 3000);
}

#[test]
fn releasing_clamps_at_zero() {
    let mut g = gauge_at(1000);
    g.update_rpm(false, 1000);
    assert_eq!(g.current_value, 0);
}

#[test]
fn releasing_at_zero_is_a_noop() {
    let mut g = Gauge::new();
    g.update_rpm(false, 500);
    assert_eq!(g.current_value, 0);
}

#[test]
fn releasing_never_increases_and_never_goes_negative() {
    let mut g = gauge_at(4321);
    let mut previous: u32 = g.current_value;
    let frames: [u32; 8] = [16, 0, 250, 1, 1000, 3, 100000, 7];
    for dt in frames {
        g.update_rpm(false, dt);
        assert!(g.current_value <= previous);
        previous = g.current_value;
    }
    assert_eq!(g.current_value, 0);
}

#[test]
fn releasing_with_zero_elapsed_time_changes_nothing() {
    let mut g = gauge_at(4567);
    g.update_rpm(false, 0);
    assert_eq!(g.current_value, 4567);
}

#[test]
fn holding_with_zero_elapsed_time_changes_nothing() {
    let mut g = gauge_at(4567);
    g.update_rpm(true, 0);
    assert_eq!(g.current_value, 4567);
}

#[test]
fn one_millisecond_steps_use_the_exact_rates() {
    let mut g = Gauge::new();
    g.update_rpm(true, 1);
    assert_eq!(g.current_value, 5);
    g.update_rpm(false, 1);
    assert_eq!(g.current_value, 3);
}
