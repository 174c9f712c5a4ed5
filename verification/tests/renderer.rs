use rgbcal::rgb::Rgb;
use rgbcal::LEVELS;

#[test]
fn frame_tick_time_default_rate() {
    // 1_000_000 / (3 * 10 * 16), truncated.
    assert_eq!(Rgb::frame_tick_time(10), 2083);
}

#[test]
fn frame_tick_time_other_rates() {
    assert_eq!(Rgb::frame_tick_time(1), 20_833);
    assert_eq!(Rgb::frame_tick_time(60), 1_000_000 / (3 * 60 * 16));
}

#[test]
fn new_starts_dark_with_default_tick() {
    let r = Rgb::new(10);
    assert_eq!(r.levels, [0, 0, 0]);
    assert_eq!(r.tick_time, 2083);
}

#[test]
fn phase_duration_is_level_invariant() {
    let mut r = Rgb::new(10);
    for level in 0..LEVELS {
        r.set_levels([level, 0, 0]);
        let p = r.step_plan(0);
        assert_eq!(p.on_time + p.off_time, (LEVELS as u64) * 2083);
    }
}

#[test]
fn phase_zero_level_skips_high_pulse() {
    let mut r = Rgb::new(10);
    r.set_levels([0, 3, 0]);
    let p = r.step_plan(0);
    assert!(!p.pulse_high);
    assert_eq!(p.on_time, 0);
    assert!(p.hold_low);
    assert_eq!(p.off_time, (LEVELS as u64) * 2083);
}

#[test]
fn phase_top_level_keeps_shortest_rest() {
    let mut r = Rgb::new(10);
    r.set_levels([LEVELS - 1, 0, 0]);
    let p = r.step_plan(0);
    assert!(p.pulse_high);
    assert_eq!(p.on_time, ((LEVELS - 1) as u64) * 2083);
    assert!(p.hold_low);
    assert_eq!(p.off_time, 2083);
}

#[test]
fn phase_plans_follow_snapshot_per_channel() {
    let mut r = Rgb::new(10);
    r.set_levels([4, 8, 12]);
    for led in 0..3 {
        let p = r.step_plan(led);
        assert_eq!(p.on_time, (r.levels[led] as u64) * 2083);
        assert_eq!(p.off_time, ((LEVELS - r.levels[led]) as u64) * 2083);
    }
}
