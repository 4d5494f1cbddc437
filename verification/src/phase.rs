//! Beat phase in fixed point.
//!
//! A phase counts beats since the last reset in thousandths of a beat, so the
//! integer part is `phase / 1000` and the fractional part is `phase % 1000`.

use vstd::prelude::*;

verus! {

/// Number of phase units that make up one whole beat.
pub const PHASE_SCALE: u64 = 1000;

/// The index of the beat that `phase` lies in: the integer part of the phase.
pub open spec fn beat_index(phase: u64) -> nat {
    (phase / PHASE_SCALE) as nat
}

/// Progress within the current beat, in thousandths: always below `PHASE_SCALE`.
pub open spec fn beat_fraction(phase: u64) -> nat {
    (phase % PHASE_SCALE) as nat
}

/// Integer part of a phase.
pub fn whole_beats(phase: u64) -> (k: u64)
    ensures
        k == beat_index(phase),
        k * PHASE_SCALE <= phase < (k + 1) * PHASE_SCALE,
{
    phase / PHASE_SCALE
}

/// Fractional part of a phase, in thousandths of a beat.
pub fn fraction(phase: u64) -> (f: u64)
    ensures
        f == beat_fraction(phase),
        f < PHASE_SCALE,
        phase == beat_index(phase) * PHASE_SCALE + f,
{
    phase % PHASE_SCALE
}

} // verus!
