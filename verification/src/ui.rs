//! The input controller's decision core. Each polling iteration the harness
//! samples the knob, quantizes it, reads the two buttons, and hands all three
//! to [`UiState::update`], which picks the target by the button-priority
//! rule, suppresses redundant writes, and says which shared-state write to
//! make; [`UiWrite::apply`] then performs it through the accessors. The
//! harness prints the report that [`UiState::show`] formats and sleeps for
//! the current rate before the next iteration.

use vstd::prelude::*;

verus! {

use crate::LEVELS;
use crate::state::{levels_ok, ControlState};

/// Fixed multiplier applied to `1 + knob_level` when the buttons leave the
/// frame rate as the update target.
pub const RATE_SCALE: u64 = 10;

/// The input controller's local mirror of the last levels and rate it
/// applied: a cache for write suppression and for the state report, never a
/// source of truth for the renderer.
pub struct UiState {
    pub levels: [u32; 3],
    pub frame_rate: u64,
}

/// Which channel a button combination targets, by the fixed precedence
/// both-pressed, a-only, b-only: red, green, blue. Meaningful only when at
/// least one button is pressed; neither pressed targets the frame rate
/// instead.
pub open spec fn target_channel(button_a: bool, button_b: bool) -> int {
    if button_a && button_b {
        0
    } else if button_a {
        1
    } else {
        2
    }
}

/// Frame-rate candidate for a knob level: `1 + level`, scaled.
pub open spec fn rate_candidate(level: u32) -> int {
    (1 + level) * RATE_SCALE
}

/// The one shared-state write an input iteration decided on, if any.
pub enum UiWrite {
    /// Replace the whole levels triple.
    Levels([u32; 3]),
    /// Replace the frame rate.
    Rate(u64),
    /// Suppressed: the candidate equalled the last-applied value.
    NoWrite,
}

impl UiWrite {
    /// A write the control state accepts: levels in range, rate non-zero.
    pub open spec fn wf(&self) -> bool {
        match *self {
            UiWrite::Levels(l) => levels_ok(l),
            UiWrite::Rate(r) => r >= 1,
            UiWrite::NoWrite => true,
        }
    }

    /// Perform the decided write through the shared-state accessors; a
    /// suppressed write touches nothing.
    pub fn apply(&self, ctrl: &mut ControlState)
        requires
            self.wf(),
        ensures
            self matches UiWrite::Levels(l) ==> final(ctrl).levels == l
                && final(ctrl).frame_rate == old(ctrl).frame_rate,
            self matches UiWrite::Rate(r) ==> final(ctrl).frame_rate == r
                && final(ctrl).levels == old(ctrl).levels,
            self is NoWrite ==> *final(ctrl) == *old(ctrl),
            old(ctrl).wf() ==> final(ctrl).wf(),
    {
        match self {
            UiWrite::Levels(l) => ctrl.write_levels(*l),
            UiWrite::Rate(r) => ctrl.write_rate(*r),
            UiWrite::NoWrite => {},
        }
    }
}

impl Default for UiState {
    /// The documented start-up default: every channel at full brightness,
    /// rate 10.
    fn default() -> (s: Self)
        ensures
            s.levels[0] == LEVELS - 1,
            s.levels[1] == LEVELS - 1,
            s.levels[2] == LEVELS - 1,
            s.frame_rate == 10,
            s.wf(),
    {
        UiState { levels: [LEVELS - 1, LEVELS - 1, LEVELS - 1], frame_rate: 10 }
    }
}

impl UiState {
    pub open spec fn wf(&self) -> bool {
        &&& levels_ok(self.levels)
        &&& self.frame_rate >= 1
    }

    /// Seed the shared control state from this mirror, both the levels and
    /// the rate, before the two loops start.
    pub fn seed(&self, ctrl: &mut ControlState)
        requires
            self.wf(),
        ensures
            final(ctrl).levels == self.levels,
            final(ctrl).frame_rate == self.frame_rate,
            final(ctrl).wf(),
    {
        ctrl.write_levels(self.levels);
        ctrl.write_rate(self.frame_rate);
    }

    /// One polling decision: from the quantized knob level and the two
    /// button states, pick the target by the priority rule, and write only
    /// on change.
    ///
    /// With a button pressed the candidate level goes to the targeted
    /// channel; with neither pressed the scaled rate candidate goes to the
    /// frame rate. A candidate equal to the last-applied value is
    /// suppressed: the mirror stays put and no write is decided.
    pub fn update(&mut self, level: u32, button_a: bool, button_b: bool) -> (w: UiWrite)
        requires
            old(self).wf(),
            level < LEVELS,
        ensures
            final(self).wf(),
            w.wf(),
            (button_a || button_b) ==> ({
                let c = target_channel(button_a, button_b);
                if old(self).levels[c] == level {
                    *final(self) == *old(self) && w == UiWrite::NoWrite
                } else {
                    &&& final(self).levels[c] == level
                    &&& forall|i: int|
                        0 <= i < 3 && i != c ==> final(self).levels[i] == old(self).levels[i]
                    &&& final(self).frame_rate == old(self).frame_rate
                    &&& w == UiWrite::Levels(final(self).levels)
                }
            }),
            (!button_a && !button_b) ==> ({
                let cand = rate_candidate(level);
                if old(self).frame_rate == cand {
                    *final(self) == *old(self) && w == UiWrite::NoWrite
                } else {
                    &&& final(self).frame_rate == cand
                    &&& final(self).levels == old(self).levels
                    &&& w == UiWrite::Rate(final(self).frame_rate)
                }
            }),
            w is NoWrite ==> *final(self) == *old(self),
    {
        if button_a || button_b {
            let c: usize = if button_a && button_b {
                0
            } else if button_a {
                1
            } else {
                2
            };
            if self.levels[c] != level {
                let updated: [u32; 3] = if c == 0 {
                    [level, self.levels[1], self.levels[2]]
                } else if c == 1 {
                    [self.levels[0], level, self.levels[2]]
                } else {
                    [self.levels[0], self.levels[1], level]
                };
                self.levels = updated;
                UiWrite::Levels(updated)
            } else {
                UiWrite::NoWrite
            }
        } else {
            let cand: u64 = (1 + level as u64) * RATE_SCALE;
            if self.frame_rate != cand {
                self.frame_rate = cand;
                UiWrite::Rate(cand)
            } else {
                UiWrite::NoWrite
            }
        }
    }
    /// Format the state report the controller emits each iteration: a blank
    /// line, one `name: level` line per channel, and the frame rate.
    pub fn show(&self) -> (out: String)
        ensures
            out@ == report_spec(*self),
    {
        let mut out = String::new();
        out.append("\nred: ");
        push_dec(&mut out, self.levels[0] as u64);
        out.append("\ngreen: ");
        push_dec(&mut out, self.levels[1] as u64);
        out.append("\nblue: ");
        push_dec(&mut out, self.levels[2] as u64);
        out.append("\nframe rate: ");
        push_dec(&mut out, self.frame_rate);
        out.append("\n");
        proof {
            assert(out@ =~= report_spec(*self));
        }
        out
    }
}

/// The character for one decimal digit.
pub open spec fn digit_char(d: int) -> char {
    if d == 0 {
        '0'
    } else if d == 1 {
        '1'
    } else if d == 2 {
        '2'
    } else if d == 3 {
        '3'
    } else if d == 4 {
        '4'
    } else if d == 5 {
        '5'
    } else if d == 6 {
        '6'
    } else if d == 7 {
        '7'
    } else if d == 8 {
        '8'
    } else {
        '9'
    }
}

/// The decimal rendering of a number, most significant digit first.
pub open spec fn dec_spec(n: nat) -> Seq<char>
    decreases n,
{
    if n < 10 {
        seq![digit_char(n as int)]
    } else {
        dec_spec(n / 10).push(digit_char((n % 10) as int))
    }
}

/// The full state report: channel names with their levels, then the rate,
/// one line each after a leading blank line.
pub open spec fn report_spec(s: UiState) -> Seq<char> {
    "\nred: "@ + dec_spec(s.levels[0] as nat) + "\ngreen: "@ + dec_spec(s.levels[1] as nat)
        + "\nblue: "@ + dec_spec(s.levels[2] as nat) + "\nframe rate: "@ + dec_spec(
        s.frame_rate as nat,
    ) + "\n"@
}

/// Append one decimal digit.
fn push_digit(out: &mut String, d: u64)
    requires
        d < 10,
    ensures
        final(out)@ == old(out)@ + seq![digit_char(d as int)],
{
    if d == 0 {
        out.append("0");
        proof {
            reveal_strlit("0");
            assert(("0")@ =~= seq![digit_char(d as int)]);
        }
    } else if d == 1 {
        out.append("1");
        proof {
            reveal_strlit("1");
            assert(("1")@ =~= seq![digit_char(d as int)]);
        }
    } else if d == 2 {
        out.append("2");
        proof {
            reveal_strlit("2");
            assert(("2")@ =~= seq![digit_char(d as int)]);
        }
    } else if d == 3 {
        out.append("3");
        proof {
            reveal_strlit("3");
            assert(("3")@ =~= seq![digit_char(d as int)]);
        }
    } else if d == 4 {
        out.append("4");
        proof {
            reveal_strlit("4");
            assert(("4")@ =~= seq![digit_char(d as int)]);
        }
    } else if d == 5 {
        out.append("5");
        proof {
            reveal_strlit("5");
            assert(("5")@ =~= seq![digit_char(d as int)]);
        }
    } else if d == 6 {
        out.append("6");
        proof {
            reveal_strlit("6");
            assert(("6")@ =~= seq![digit_char(d as int)]);
        }
    } else if d == 7 {
        out.append("7");
        proof {
            reveal_strlit("7");
            assert(("7")@ =~= seq![digit_char(d as int)]);
        }
    } else if d == 8 {
        out.append("8");
        proof {
            reveal_strlit("8");
            assert(("8")@ =~= seq![digit_char(d as int)]);
        }
    } else {
        out.append("9");
        proof {
            reveal_strlit("9");
            assert(("9")@ =~= seq![digit_char(d as int)]);
        }
    }
}

/// Append a number in decimal.
fn push_dec(out: &mut String, n: u64)
    ensures
        final(out)@ == old(out)@ + dec_spec(n as nat),
    decreases n,
{
    if n < 10 {
        push_digit(out, n);
    } else {
        push_dec(out, n / 10);
        push_digit(out, n % 10);
        proof {
            assert(final(out)@ =~= old(out)@ + dec_spec(n as nat));
        }
    }
}

} // verus!
