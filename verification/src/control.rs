//! What the controls mean for the clock.
//!
//! Key presses and the messages of the control surface arrive already decoded.
//! This module holds the rules that turn them into changes of the beat clock.

use vstd::prelude::*;
use crate::metronome::{adjusted_bpm, Metronome};

verus! {

/// Tenths of a beat per minute that one press of an arrow key moves the tempo.
pub const TEMPO_STEP: i32 = 1;

/// Tempo at the bottom of the tempo slider: 110 beats per minute, in tenths.
pub const SLIDER_BASE_BPM: u32 = 1100;

/// Tenths of a beat per minute per step of the tempo slider: a fifth of a beat per minute.
pub const SLIDER_BPM_PER_STEP: u32 = 2;

/// Index of the strip whose slider sets the tempo: the first one.
pub const TEMPO_STRIP: u8 = 0;

/// What a key press asks for.
#[derive(Clone, Copy, Debug, PartialEq, Eq, Structural)]
pub enum KeyCommand {
    /// Leave the frame loop.
    Quit,
    /// Restart the beat count.
    Reset,
    /// Speed up by one step.
    TempoUp,
    /// Slow down by one step.
    TempoDown,
    /// A key without meaning here.
    Ignored,
}

/// A message of the control surface.
#[derive(Clone, Copy, Debug, PartialEq, Eq, Structural)]
pub enum SurfaceEvent {
    /// The vertical slider of strip number `strip` was moved to `value`.
    VerticalSlider { strip: u8, value: u8 },
    /// Any other control.
    Other,
}

/// The tempo that position `value` of the tempo slider stands for.
pub open spec fn slider_bpm(value: u8) -> u32 {
    (SLIDER_BASE_BPM + SLIDER_BPM_PER_STEP * value) as u32
}

/// The tempo that a batch of messages asks for: that of the last movement of
/// the tempo slider among them, and zero if there is none.
pub open spec fn requested_bpm(events: Seq<SurfaceEvent>) -> u32
    decreases events.len(),
{
    if events.len() == 0 {
        0
    } else {
        match events.last() {
            SurfaceEvent::VerticalSlider { strip, value } if strip == TEMPO_STRIP => slider_bpm(
                value,
            ),
            _ => requested_bpm(events.drop_last()),
        }
    }
}

/// The tempo that position `value` of the tempo slider stands for.
pub fn slider_tempo(value: u8) -> (tempo: u32)
    ensures
        tempo == slider_bpm(value),
        tempo == 1100 + 2 * value,
{
    SLIDER_BASE_BPM + SLIDER_BPM_PER_STEP * (value as u32)
}

/// The tempo that a batch of messages asks for.
pub fn requested_tempo(events: &Vec<SurfaceEvent>) -> (tempo: u32)
    ensures
        tempo == requested_bpm(events@),
{
    let mut tempo: u32 = 0;
    let mut i: usize = 0;
    while i < events.len()
        invariant
            i <= events.len(),
            tempo == requested_bpm(events@.take(i as int)),
        decreases events.len() - i,
    {
        proof {
            let next = events@.take(i + 1);
            assert(next.drop_last() =~= events@.take(i as int));
            assert(next.last() == events@[i as int]);
        }
        match events[i] {
            SurfaceEvent::VerticalSlider { strip, value } => {
                if strip == TEMPO_STRIP {
                    tempo = slider_tempo(value);
                }
            },
            SurfaceEvent::Other => {},
        }
        i = i + 1;
    }
    assert(events@.take(events.len() as int) =~= events@);
    tempo
}

/// Applies a batch of messages of the control surface to the clock: the tempo
/// they ask for is handed to the clock, which takes it over or not by its own rule.
pub fn apply_surface_events(clock: &mut Metronome, events: &Vec<SurfaceEvent>)
    ensures
        final(clock).bpm() == if requested_bpm(events@) > crate::metronome::DIRECT_BPM_FLOOR {
            requested_bpm(events@)
        } else {
            old(clock).bpm()
        },
        final(clock).counter() == old(clock).counter(),
        final(clock).epoch() == old(clock).epoch(),
{
    let tempo = requested_tempo(events);
    clock.set_bpm(tempo);
}

/// Applies a key press at the reading `now` of the millisecond counter, and
/// says whether the frame loop goes on.
pub fn apply_key(clock: &mut Metronome, key: KeyCommand, now: u64) -> (running: bool)
    ensures
        running == (key != KeyCommand::Quit),
        key == KeyCommand::Reset ==> final(clock).counter() == 0 && final(clock).epoch() == now
            && final(clock).bpm() == old(clock).bpm(),
        key == KeyCommand::TempoUp ==> final(clock).bpm() == adjusted_bpm(
            old(clock).bpm() as int,
            TEMPO_STEP as int,
        ),
        key == KeyCommand::TempoDown ==> final(clock).bpm() == adjusted_bpm(
            old(clock).bpm() as int,
            -(TEMPO_STEP as int),
        ),
        key == KeyCommand::TempoUp || key == KeyCommand::TempoDown ==> final(clock).counter()
            == old(clock).counter() && final(clock).epoch() == old(clock).epoch(),
        key == KeyCommand::Quit || key == KeyCommand::Ignored ==> *final(clock) == *old(clock),
{
    match key {
        KeyCommand::Quit => false,
        KeyCommand::Reset => {
            clock.reset(now);
            true
        },
        KeyCommand::TempoUp => {
            clock.adjust_bpm(TEMPO_STEP);
            true
        },
        KeyCommand::TempoDown => {
            clock.adjust_bpm(-TEMPO_STEP);
            true
        },
        KeyCommand::Ignored => true,
    }
}

} // verus!
