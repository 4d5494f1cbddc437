//! The beat clock.
//!
//! The clock turns elapsed milliseconds and a tempo into a beat phase. It reads
//! no timer itself: every operation that depends on the time takes the current
//! reading of a millisecond counter, which must never run backwards.

use vstd::prelude::*;

verus! {

/// Tempo of a fresh clock: 120 beats per minute, in tenths.
pub const DEFAULT_BPM: u32 = 1200;

/// Lowest tempo that stepwise adjustment reaches: 30 beats per minute, in tenths.
pub const MIN_BPM: u32 = 300;

/// Highest tempo that stepwise adjustment reaches: 200 beats per minute, in tenths.
pub const MAX_BPM: u32 = 2000;

/// A tempo is only taken over directly if it lies above this: 100 beats per minute, in tenths.
pub const DIRECT_BPM_FLOOR: u32 = 1000;

/// Milliseconds times tenths of a beat per minute that make one thousandth of a beat.
pub const PHASE_DIVISOR: u64 = 600;

/// The phase reached after `elapsed` milliseconds at a tempo of `bpm` tenths of
/// a beat per minute, in thousandths of a beat, rounded down: `elapsed / 60000`
/// minutes times `bpm / 10` beats per minute. A phase that no longer fits the
/// counter stays at the counter's largest value.
pub open spec fn phase_after(elapsed: int, bpm: int) -> int {
    let exact = elapsed * bpm / (PHASE_DIVISOR as int);
    if exact > u64::MAX {
        u64::MAX as int
    } else {
        exact
    }
}

/// `tempo` moved by `delta`, then brought into the range from `MIN_BPM` to `MAX_BPM`.
pub open spec fn adjusted_bpm(tempo: int, delta: int) -> int {
    if tempo + delta < MIN_BPM {
        MIN_BPM as int
    } else if tempo + delta > MAX_BPM {
        MAX_BPM as int
    } else {
        tempo + delta
    }
}

/// A beat clock: the phase it last computed, the reading of the millisecond
/// counter at its last reset, and its tempo.
pub struct Metronome {
    counter: u64,
    t0: u64,
    bpm: u32,
}

impl Metronome {
    /// The phase computed last, in thousandths of a beat.
    pub closed spec fn counter(&self) -> u64 {
        self.counter
    }

    /// The reading of the millisecond counter at the last reset.
    pub closed spec fn epoch(&self) -> u64 {
        self.t0
    }

    /// The tempo, in tenths of a beat per minute.
    pub closed spec fn bpm(&self) -> u32 {
        self.bpm
    }

    /// A clock that starts at `now` with phase zero and the default tempo.
    pub fn new(now: u64) -> (clock: Self)
        ensures
            clock.counter() == 0,
            clock.epoch() == now,
            clock.bpm() == DEFAULT_BPM,
    {
        Metronome { counter: 0, t0: now, bpm: DEFAULT_BPM }
    }

    /// Brings the phase up to date for the reading `now`. This is the step
    /// that a periodic updater repeats.
    pub fn update(&mut self, now: u64)
        requires
            now >= old(self).epoch(),
        ensures
            final(self).counter() == phase_after(now - old(self).epoch(), old(self).bpm() as int),
            final(self).epoch() == old(self).epoch(),
            final(self).bpm() == old(self).bpm(),
    {
        let elapsed: u64 = now - self.t0;
        assert(0 <= (elapsed as int) * (self.bpm as int) < 0x1_0000_0000_0000_0000_0000_0000)
            by (nonlinear_arith)
            requires
                0 <= elapsed < 0x1_0000_0000_0000_0000,
                0 <= self.bpm < 0x1_0000_0000,
        ;
        let exact: u128 = (elapsed as u128) * (self.bpm as u128) / (PHASE_DIVISOR as u128);
        if exact > u64::MAX as u128 {
            self.counter = u64::MAX;
        } else {
            self.counter = exact as u64;
        }
    }

    /// Restarts the count at the reading `now`. The tempo stays.
    pub fn reset(&mut self, now: u64)
        ensures
            final(self).counter() == 0,
            final(self).epoch() == now,
            final(self).bpm() == old(self).bpm(),
    {
        self.counter = 0;
        self.t0 = now;
    }

    /// Moves the tempo by `delta` tenths and keeps it between `MIN_BPM` and `MAX_BPM`.
    pub fn adjust_bpm(&mut self, delta: i32)
        ensures
            final(self).bpm() == adjusted_bpm(old(self).bpm() as int, delta as int),
            MIN_BPM <= final(self).bpm() <= MAX_BPM,
            final(self).counter() == old(self).counter(),
            final(self).epoch() == old(self).epoch(),
    {
        let moved: i64 = (self.bpm as i64) + (delta as i64);
        if moved < MIN_BPM as i64 {
            self.bpm = MIN_BPM;
        } else if moved > MAX_BPM as i64 {
            self.bpm = MAX_BPM;
        } else {
            self.bpm = moved as u32;
        }
    }

    /// Takes over `new_bpm` as the tempo if it lies above `DIRECT_BPM_FLOOR`,
    /// and leaves the tempo alone otherwise.
    pub fn set_bpm(&mut self, new_bpm: u32)
        ensures
            final(self).bpm() == if new_bpm > DIRECT_BPM_FLOOR {
                new_bpm
            } else {
                old(self).bpm()
            },
            final(self).counter() == old(self).counter(),
            final(self).epoch() == old(self).epoch(),
    {
        if new_bpm > DIRECT_BPM_FLOOR {
            self.bpm = new_bpm;
        }
    }

    /// The phase computed last, in thousandths of a beat.
    pub fn get_counter(&self) -> (phase: u64)
        ensures
            phase == self.counter(),
    {
        self.counter
    }

    /// The reading of the millisecond counter at the last reset.
    pub fn get_epoch(&self) -> (reading: u64)
        ensures
            reading == self.epoch(),
    {
        self.t0
    }

    /// The tempo, in tenths of a beat per minute.
    pub fn get_bpm(&self) -> (tempo: u32)
        ensures
            tempo == self.bpm(),
    {
        self.bpm
    }
}

/// The phase never runs backwards while the tempo stays: more elapsed time
/// gives a phase at least as large.
pub proof fn lemma_phase_monotone(earlier: nat, later: nat, bpm: nat)
    requires
        earlier <= later,
    ensures
        0 <= phase_after(earlier as int, bpm as int) <= phase_after(later as int, bpm as int),
{
    let a = earlier * bpm;
    let b = later * bpm;
    assert(0 <= a <= b) by (nonlinear_arith)
        requires
            0 <= earlier <= later,
            0 <= bpm,
            a == earlier * bpm,
            b == later * bpm,
    ;
    assert(0 <= a / 600 <= b / 600);
}

/// One minute at a tempo of `beats` whole beats per minute is `beats` whole beats.
pub proof fn lemma_phase_after_a_minute(beats: nat)
    requires
        beats * 1000 <= u64::MAX,
    ensures
        phase_after(60000, (beats * 10) as int) == beats * 1000,
{
    assert(60000 * (beats * 10) == (beats * 1000) * 600) by (nonlinear_arith);
    assert(((beats * 1000) * 600) / 600 == beats * 1000) by (nonlinear_arith);
}

} // verus!
