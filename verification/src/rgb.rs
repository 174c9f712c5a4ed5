//! The software-PWM renderer's timing core. The render loop snapshots the
//! three levels once per full cycle and, per channel, raises its pin for
//! `level * tick_time` and rests low for `(LEVELS - level) * tick_time`
//! microseconds. The loop itself lives in the harness, which awaits the
//! timer and drives the pins; every duration and every skip decision is
//! computed and proved here.

use vstd::prelude::*;

verus! {

use crate::LEVELS;
use crate::state::levels_ok;

/// Largest tick ever produced: `frame_tick_time` of the slowest rate (1).
pub const TICK_TIME_MAX: u64 = 20_833;

/// Microseconds per minimal PWM tick for a frame rate: one nominal frame
/// period split over three channels of `LEVELS` ticks each.
pub open spec fn tick_time_spec(frame_rate: int) -> int {
    1_000_000int / (3 * frame_rate * (LEVELS as int))
}

/// Time a channel's pin is held high during one phase.
pub open spec fn on_time_spec(level: int, tick_time: int) -> int {
    level * tick_time
}

/// Time a channel's pin rests low during one phase.
pub open spec fn off_time_spec(level: int, tick_time: int) -> int {
    (LEVELS - level) * tick_time
}

/// What one channel phase does: raise the pin and hold it high for `on_time`
/// microseconds (skipped entirely when the level is zero — no transition, no
/// wait), then rest low for `off_time` microseconds (skipped when the level
/// is full scale).
pub struct PhasePlan {
    pub pulse_high: bool,
    pub on_time: u64,
    pub hold_low: bool,
    pub off_time: u64,
}

/// The renderer: the per-cycle snapshot of the three levels, and the tick
/// unit fixed at construction from the configured frame rate.
pub struct Rgb {
    pub levels: [u32; 3],
    pub tick_time: u64,
}

impl Rgb {
    pub open spec fn wf(&self) -> bool {
        &&& levels_ok(self.levels)
        &&& self.tick_time <= TICK_TIME_MAX
    }

    /// Microseconds per minimal PWM tick at the given frame rate.
    pub fn frame_tick_time(frame_rate: u64) -> (t: u64)
        requires
            1 <= frame_rate,
            frame_rate <= u64::MAX / 48,
        ensures
            t == tick_time_spec(frame_rate as int),
            t <= TICK_TIME_MAX,
    {
        proof {
            vstd::arithmetic::div_mod::lemma_div_is_ordered_by_denominator(
                1_000_000,
                48,
                3 * frame_rate * (LEVELS as int),
            );
        }
        1_000_000 / (3 * frame_rate * (LEVELS as u64))
    }

    /// A renderer for the given frame rate, all channels initially dark.
    pub fn new(frame_rate: u64) -> (s: Self)
        requires
            1 <= frame_rate,
            frame_rate <= u64::MAX / 48,
        ensures
            s.levels[0] == 0,
            s.levels[1] == 0,
            s.levels[2] == 0,
            s.tick_time == tick_time_spec(frame_rate as int),
            s.wf(),
    {
        let tick_time = Self::frame_tick_time(frame_rate);
        Rgb { levels: [0, 0, 0], tick_time }
    }

    /// The cycle-boundary snapshot: adopt the levels read from the shared
    /// control state for the coming three phases.
    pub fn set_levels(&mut self, levels: [u32; 3])
        requires
            old(self).wf(),
            levels_ok(levels),
        ensures
            final(self).levels == levels,
            final(self).tick_time == old(self).tick_time,
            final(self).wf(),
    {
        self.levels = levels;
    }

    /// Plan one channel's phase: how long the pin is high, how long it rests
    /// low, and which of the two holds is skipped. The two holds always sum
    /// to `LEVELS * tick_time`, so every phase lasts the same regardless of
    /// level and only the duty cycle varies.
    pub fn step_plan(&self, led: usize) -> (p: PhasePlan)
        requires
            self.wf(),
            led < 3,
        ensures
            p.pulse_high == (self.levels[led as int] > 0),
            p.on_time == on_time_spec(self.levels[led as int] as int, self.tick_time as int),
            p.hold_low == (self.levels[led as int] < LEVELS),
            p.off_time == off_time_spec(self.levels[led as int] as int, self.tick_time as int),
            p.on_time + p.off_time == LEVELS * self.tick_time,
    {
        let level = self.levels[led];
        proof {
            lemma_times_tick_bounded(level as int, self.tick_time as int);
            lemma_times_tick_bounded((LEVELS - level) as int, self.tick_time as int);
            lemma_phase_duration(level as int, self.tick_time as int);
        }
        let on_time: u64 = (level as u64) * self.tick_time;
        let off_time: u64 = ((LEVELS - level) as u64) * self.tick_time;
        PhasePlan { pulse_high: level > 0, on_time, hold_low: level < LEVELS, off_time }
    }
}

/// A hold of at most `LEVELS` ticks fits comfortably in a `u64`.
proof fn lemma_times_tick_bounded(level: int, tick_time: int)
    requires
        0 <= level <= LEVELS,
        0 <= tick_time <= TICK_TIME_MAX,
    ensures
        0 <= level * tick_time <= LEVELS * TICK_TIME_MAX,
{
    assert(0 <= level * tick_time <= LEVELS * TICK_TIME_MAX) by (nonlinear_arith)
        requires
            0 <= level <= LEVELS,
            0 <= tick_time <= TICK_TIME_MAX,
    ;
}

/// Law: a dark channel emits no high pulse at all, and a channel at full
/// scale has no low rest — the corresponding hold vanishes outright.
pub proof fn lemma_phase_skips(level: int, tick_time: int)
    ensures
        level == 0 ==> on_time_spec(level, tick_time) == 0,
        level == LEVELS ==> off_time_spec(level, tick_time) == 0,
{
}

/// Law: a channel phase's high hold and low rest always sum to
/// `LEVELS * tick_time`, whatever the level — phase duration is
/// level-invariant, so the refresh rate never flickers.
pub proof fn lemma_phase_duration(level: int, tick_time: int)
    requires
        0 <= level <= LEVELS,
    ensures
        on_time_spec(level, tick_time) + off_time_spec(level, tick_time) == LEVELS * tick_time,
{
    assert(level * tick_time + (LEVELS - level) * tick_time == LEVELS * tick_time)
        by (nonlinear_arith);
}

} // verus!
