//! Core of a three-channel RGB dimmer driven by an analog knob and two
//! buttons: knob-to-level quantization, software-PWM render timing, and the
//! shared control state through which the input controller feeds the renderer.
//!
//! Hardware collaborators (analog front-end, output pins, buttons, timer,
//! console) are out of scope here; the surrounding harness samples and drives
//! pins, while every decision and every computed duration comes from this
//! library.

use vstd::prelude::*;

pub mod knob;
pub mod rgb;
pub mod state;
pub mod ui;

verus! {

/// Number of discrete brightness levels per channel; a channel's level always
/// lies in `[0, LEVELS - 1]`.
pub const LEVELS: u32 = 16;

} // verus!
