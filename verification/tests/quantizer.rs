use rgbcal::knob::quantize;
use rgbcal::LEVELS;

#[test]
fn quantize_rail_low() {
    assert_eq!(quantize(0), 0);
}

#[test]
fn quantize_rail_high() {
    assert_eq!(quantize(0x7fff), LEVELS - 1);
}

#[test]
fn quantize_negative_clamped() {
    assert_eq!(quantize(-1), 0);
    assert_eq!(quantize(i16::MIN), 0);
}

#[test]
fn quantize_low_dead_zone_threshold() {
    // 18 * 1666 / 10_000 == 2, still level 0; one step later the first
    // non-zero level appears.
    assert_eq!(quantize(1666), 0);
    assert_eq!(quantize(1667), 1);
}

#[test]
fn quantize_high_dead_zone_threshold() {
    // 18 * 9444 / 10_000 == 16 gives level 14; from 9445 on the top level
    // saturates long before the rail.
    assert_eq!(quantize(9444), 14);
    assert_eq!(quantize(9445), 15);
    assert_eq!(quantize(20000), 15);
}

#[test]
fn quantize_range_full_sweep() {
    for raw in 0..=0x7fff_i16 {
        assert!(quantize(raw) < LEVELS);
    }
}

#[test]
fn quantize_monotonic_full_sweep() {
    let mut prev = quantize(0);
    for raw in 1..=0x7fff_i16 {
        let cur = quantize(raw);
        assert!(prev <= cur);
        prev = cur;
    }
}
