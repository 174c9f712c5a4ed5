//! The shared control state: the one entity both long-running tasks touch.
//! The input controller writes brightness levels and the frame rate through
//! the accessors below; the renderer snapshots them at each cycle boundary.
//!
//! In the running system the state sits behind a mutual-exclusion primitive of
//! the host runtime, so a whole accessor call is one critical section: a
//! snapshot can never observe a half-applied write. The accessors here carry
//! that contract; the harness supplies the exclusion.

use vstd::prelude::*;

verus! {

use crate::LEVELS;

/// Every channel's level lies in `[0, LEVELS - 1]`.
pub open spec fn levels_ok(levels: [u32; 3]) -> bool {
    forall|i: int| 0 <= i < 3 ==> levels[i] < LEVELS
}

/// Current brightness levels (channel 0 = red, 1 = green, 2 = blue) and the
/// frame rate that paces rendering and input polling.
pub struct ControlState {
    pub levels: [u32; 3],
    pub frame_rate: u64,
}

/// The state `s` becomes after one `write_levels(l)` call: the whole triple
/// replaced at once, the rate untouched.
pub open spec fn with_levels(s: ControlState, l: [u32; 3]) -> ControlState {
    ControlState { levels: l, frame_rate: s.frame_rate }
}

impl ControlState {
    /// Levels in range and a usable (non-zero) rate: the rate is a divisor of
    /// render timing, so zero must never reach the renderer.
    pub open spec fn wf(&self) -> bool {
        &&& levels_ok(self.levels)
        &&& self.frame_rate >= 1
    }

    /// The documented start-up default: all channels at full brightness,
    /// rate 10.
    pub fn new() -> (s: Self)
        ensures
            s.levels[0] == LEVELS - 1,
            s.levels[1] == LEVELS - 1,
            s.levels[2] == LEVELS - 1,
            s.frame_rate == 10,
            s.wf(),
    {
        ControlState { levels: [LEVELS - 1, LEVELS - 1, LEVELS - 1], frame_rate: 10 }
    }

    /// A consistent snapshot of the three levels.
    pub fn read_levels(&self) -> (l: [u32; 3])
        ensures
            l == self.levels,
    {
        self.levels
    }

    /// The current frame rate.
    pub fn read_rate(&self) -> (r: u64)
        ensures
            r == self.frame_rate,
    {
        self.frame_rate
    }

    /// Replace the whole levels triple in one exclusive access.
    pub fn write_levels(&mut self, levels: [u32; 3])
        requires
            levels_ok(levels),
        ensures
            *final(self) == with_levels(*old(self), levels),
            final(self).levels == levels,
            final(self).frame_rate == old(self).frame_rate,
            old(self).frame_rate >= 1 ==> final(self).wf(),
    {
        self.levels = levels;
    }

    /// Replace the frame rate in one exclusive access.
    pub fn write_rate(&mut self, rate: u64)
        requires
            rate >= 1,
        ensures
            final(self).frame_rate == rate,
            final(self).levels == old(self).levels,
            levels_ok(old(self).levels) ==> final(self).wf(),
    {
        self.frame_rate = rate;
    }
}

/// Law: a snapshot taken after one `write_levels` call reflects that call in
/// every channel at once — no snapshot mixes channels of the pre-write triple
/// with channels of the post-write triple.
pub proof fn lemma_snapshot_untorn(s: ControlState, l: [u32; 3])
    ensures
        forall|i: int| 0 <= i < 3 ==> with_levels(s, l).levels[i] == l[i],
        with_levels(s, l).frame_rate == s.frame_rate,
{
}

} // verus!
