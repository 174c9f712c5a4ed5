use rgbcal::knob::quantize;
use rgbcal::rgb::Rgb;
use rgbcal::state::ControlState;
use rgbcal::ui::{UiState, UiWrite};
use rgbcal::LEVELS;

#[test]
fn rails_quantize_to_extreme_levels() {
    assert_eq!(quantize(0), 0);
    assert_eq!(quantize(0x7fff), LEVELS - 1);
}

#[test]
fn knob_to_pin_timing_pipeline() {
    // Knob at the high rail with both buttons pressed: red goes to full
    // brightness, and the next render cycle holds the red pin high for
    // 15 of its 16 ticks.
    let mut ctrl = ControlState::new();
    let mut ui = UiState { levels: [3, 9, 11], frame_rate: 10 };
    ui.seed(&mut ctrl);

    let level = quantize(0x7fff);
    let w = ui.update(level, true, true);
    assert!(matches!(w, UiWrite::Levels(_)));
    w.apply(&mut ctrl);

    let mut rgb = Rgb::new(ctrl.read_rate());
    rgb.set_levels(ctrl.read_levels());
    let p = rgb.step_plan(0);
    assert!(p.pulse_high);
    assert_eq!(p.on_time, 15 * 2083);
    assert_eq!(p.off_time, 2083);
    assert_eq!(p.on_time + p.off_time, 16 * 2083);
}
