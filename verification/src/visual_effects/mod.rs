//! Beat-driven visual effects and the machinery that combines them.

use vstd::prelude::*;
use crate::draw::DrawCommand;

pub mod beat_bars;
pub mod composite;
pub mod pulsing_circle;
pub mod spiral;
pub mod wave;
pub mod zoom_feedback;

pub use beat_bars::BeatBarsEffect;
pub use composite::VisualEffectComposite;
pub use pulsing_circle::PulsingCircle;
pub use spiral::SpiralEffect;
pub use wave::WaveEffect;
pub use zoom_feedback::ZoomFeedback;

verus! {

/// Something that can render itself for a given beat phase.
///
/// An effect keeps no per-frame state: what it draws is a function of its fixed
/// configuration and of the phase alone, and it draws for every phase.
pub trait GenericVisualEffect {
    /// What the effect draws at `phase`, in drawing order.
    spec fn commands(&self, phase: u64) -> Seq<DrawCommand>;

    /// The effect's stable, human-readable name.
    spec fn label(&self) -> Seq<char>;

    /// Renders the effect at `phase`.
    fn draw(&self, phase: u64) -> (out: Vec<DrawCommand>)
        ensures
            out@ == self.commands(phase),
    ;

    /// The name of the effect, for diagnostics.
    fn name(&self) -> (n: &str)
        ensures
            n@ == self.label(),
    ;
}

/// The effects that come with the library, as one type, so that effects of
/// different kinds can stand side by side in one collection.
pub enum Effect {
    BeatBars(BeatBarsEffect),
    PulsingCircle(PulsingCircle),
    Wave(WaveEffect),
    Spiral(SpiralEffect),
}

impl GenericVisualEffect for Effect {
    open spec fn commands(&self, phase: u64) -> Seq<DrawCommand> {
        match self {
            Effect::BeatBars(e) => e.commands(phase),
            Effect::PulsingCircle(e) => e.commands(phase),
            Effect::Wave(e) => e.commands(phase),
            Effect::Spiral(e) => e.commands(phase),
        }
    }

    open spec fn label(&self) -> Seq<char> {
        match self {
            Effect::BeatBars(e) => e.label(),
            Effect::PulsingCircle(e) => e.label(),
            Effect::Wave(e) => e.label(),
            Effect::Spiral(e) => e.label(),
        }
    }

    fn draw(&self, phase: u64) -> (out: Vec<DrawCommand>) {
        match self {
            Effect::BeatBars(e) => e.draw(phase),
            Effect::PulsingCircle(e) => e.draw(phase),
            Effect::Wave(e) => e.draw(phase),
            Effect::Spiral(e) => e.draw(phase),
        }
    }

    fn name(&self) -> (n: &str) {
        match self {
            Effect::BeatBars(e) => e.name(),
            Effect::PulsingCircle(e) => e.name(),
            Effect::Wave(e) => e.name(),
            Effect::Spiral(e) => e.name(),
        }
    }
}

} // verus!
