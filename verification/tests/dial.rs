use rpm_gauge::dial::{angle_units, dial_ticks, make_tick, readout_digits, DialColor};
use rpm_gauge::gauge::Gauge;

#[test]
fn needle_angle_covers_the_sweep_endpoints() {
    // In units of pi/36000 on the standard dial: 27000 units is 3*pi/4,
    // 81000 units is 9*pi/4, and the midpoint value sits exactly halfway.
    assert_eq!(angle_units(9000, 0), 27000);
    assert_eq!(angle_units(9000, 4500), 54000);
    assert_eq!(angle_units(9000, 9000), 81000);
}

#[test]
fn needle_angle_is_monotonic_with_a_uniform_step() {
    let mut previous: u64 = angle_units(9000, 0);
    let mut v: u32 = 1;
    while v <= 9000 {
        let units = angle_units(9000, v);
        assert_eq!(units, previous + 6);
        previous = units;
        v += 1;
    }
}

#[test]
fn dial_has_a_tick_every_hundred_rpm() {
    let ticks = dial_ticks(9000, 6000);
    assert_eq!(ticks.len(), 91);
    for (k, tick) in ticks.iter().enumerate() {
        assert_eq!(tick.rpm, 100 * k as u32);
        assert_eq!(tick.angle_units, angle_units(9000, tick.rpm));
    }
}

#[test]
fn tick_tiers_follow_the_rpm_multiples() {
    let ticks = dial_ticks(9000, 6000);
    // Multiple of 1000: long, heavy, labelled with the RPM in thousands.
    assert_eq!(ticks[0].length, 20);
    assert_eq!(ticks[0].thickness, 2);
    assert_eq!(ticks[0].label, Some(0));
    assert_eq!(ticks[30].rpm, 3000);
    assert_eq!(ticks[30].length, 20);
    assert_eq!(ticks[30].thickness, 2);
    assert_eq!(ticks[30].label, Some(3));
    // Multiple of 500 only: medium, light, unlabelled.
    assert_eq!(ticks[5].rpm, 500);
    assert_eq!(ticks[5].length, 10);
    assert_eq!(ticks[5].thickness, 1);
    assert_eq!(ticks[5].label, None);
    // Plain multiple of 100: short, light, unlabelled.
    assert_eq!(ticks[1].rpm, 100);
    assert_eq!(ticks[1].length, 5);
    assert_eq!(ticks[1].thickness, 1);
    assert_eq!(ticks[1].label, None);
}

#[test]
fn danger_color_switches_exactly_at_the_threshold() {
    let ticks = dial_ticks(9000, 6000);
    for tick in &ticks {
        if tick.rpm >= 6000 {
            assert_eq!(tick.color, DialColor::Red);
        } else {
            assert_eq!(tick.color, DialColor::Black);
        }
    }
    assert_eq!(ticks[59].rpm, 5900);
    assert_eq!(ticks[59].color, DialColor::Black);
    assert_eq!(ticks[60].rpm, 6000);
    assert_eq!(ticks[60].color, DialColor::Red);
}

#[test]
fn a_single_tick_carries_its_styling() {
    let t = make_tick(9000, 6000, 7500);
    assert_eq!(t.rpm, 7500);
    assert_eq!(t.length, 10);
    assert_eq!(t.thickness, 1);
    assert_eq!(t.color, DialColor::Red);
    assert_eq!(t.label, None);
    assert_eq!(t.angle_units, 27000 + 6 * 7500);
}

#[test]
fn readout_renders_decimal_digits() {
    assert_eq!(readout_digits(0), vec![b'0']);
    assert_eq!(readout_digits(42), vec![b'4', b'2']);
    assert_eq!(readout_digits(1234), vec![b'1', b'2', b'3', b'4']);
    assert_eq!(readout_digits(9000), vec![b'9', b'0', b'0', b'0']);
}

#[test]
fn a_frame_scene_reflects_the_gauge_state() {
    let mut g = Gauge::new();
    g.update_rpm(true, 1000);
    g.update_rpm(false, 400);
    assert_eq!(g.current_value, 4200);
    let scene = g.draw();
    assert_eq!(scene.center, 200);
    assert_eq!(scene.radius, 150);
    assert_eq!(scene.needle_angle_units, angle_units(9000, 4200));
    assert_eq!(scene.ticks.len(), 91);
    assert_eq!(scene.readout, vec![b'4', b'2', b'0', b'0']);
}
