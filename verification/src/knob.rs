//! The quantizer: turns one raw analog knob sample into a discrete
//! brightness level in `[0, LEVELS - 1]`.
//!
//! The scaling deliberately skews by two steps: the first and last couple of
//! quantization steps saturate (a dead zone at both rails), compensating for
//! knobs whose mechanical travel does not span the full convertible range.

use vstd::prelude::*;

verus! {

use crate::LEVELS;

/// Reference denominator the raw reading is normalized by.
pub const RAW_SCALE: u32 = 10_000;

/// Largest raw reading the analog front-end can convert; larger or negative
/// readings are clamped, never rejected.
pub const RAW_MAX: u32 = 0x7fff;

/// A raw reading clamped to the convertible range `[0, RAW_MAX]`.
pub open spec fn clamp_raw(raw: int) -> int {
    if raw < 0 {
        0
    } else if raw > RAW_MAX {
        RAW_MAX as int
    } else {
        raw
    }
}

/// Level the quantizer assigns to a raw reading: scale the clamped reading by
/// `(LEVELS + 2) / RAW_SCALE`, drop two steps of dead zone, and saturate into
/// `[0, LEVELS - 1]`.
pub open spec fn quantize_spec(raw: int) -> int {
    let scaled = ((LEVELS + 2) * clamp_raw(raw)) / (RAW_SCALE as int);
    if scaled < 2 {
        0
    } else if scaled - 2 > LEVELS - 1 {
        LEVELS - 1
    } else {
        scaled - 2
    }
}

/// Quantize one raw analog sample into a brightness level.
///
/// Out-of-range samples are silently clamped; the result always lies in
/// `[0, LEVELS - 1]`.
pub fn quantize(raw: i16) -> (level: u32)
    ensures
        level == quantize_spec(raw as int),
        level < LEVELS,
{
    let clamped: u32 = if raw < 0 {
        0
    } else {
        raw as u32
    };
    let scaled: u32 = ((LEVELS + 2) * clamped) / RAW_SCALE;
    if scaled < 2 {
        0
    } else if scaled - 2 > LEVELS - 1 {
        LEVELS - 1
    } else {
        scaled - 2
    }
}

/// Law: the quantizer's output never leaves `[0, LEVELS - 1]`, whatever the
/// raw reading.
pub proof fn lemma_quantize_range(raw: int)
    ensures
        0 <= quantize_spec(raw) < LEVELS,
{
}

/// Law: quantization is monotonic non-decreasing in the raw reading; turning
/// the knob up never lowers the level.
pub proof fn lemma_quantize_monotonic(r1: int, r2: int)
    requires
        r1 <= r2,
    ensures
        quantize_spec(r1) <= quantize_spec(r2),
{
    let c1 = clamp_raw(r1);
    let c2 = clamp_raw(r2);
    assert(c1 <= c2);
    assert((LEVELS + 2) * c1 <= (LEVELS + 2) * c2);
    vstd::arithmetic::div_mod::lemma_div_is_ordered(
        (LEVELS + 2) * c1,
        (LEVELS + 2) * c2,
        RAW_SCALE as int,
    );
}

} // verus!
