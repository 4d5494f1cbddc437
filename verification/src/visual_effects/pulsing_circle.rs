//! A circle that swells over each beat.

use vstd::prelude::*;
use crate::arith::{lemma_product_bound, lemma_scale_monotone};
use crate::draw::{Color, DrawCommand, SUBPIXELS};
use crate::phase::{beat_fraction, beat_index, fraction, PHASE_SCALE};
use super::GenericVisualEffect;

verus! {

/// A filled circle at a fixed centre. Its radius starts each beat at the base
/// radius and grows linearly by the pulse amplitude over the beat.
pub struct PulsingCircle {
    center_x: i32,
    center_y: i32,
    base_radius: i32,
    pulse_amplitude: i32,
    color: Color,
}

impl PulsingCircle {
    /// Horizontal position of the centre, in pixels.
    pub closed spec fn center_x(&self) -> i32 {
        self.center_x
    }

    /// Vertical position of the centre, in pixels.
    pub closed spec fn center_y(&self) -> i32 {
        self.center_y
    }

    /// Radius at the start of a beat, in pixels.
    pub closed spec fn base_radius(&self) -> i32 {
        self.base_radius
    }

    /// Growth of the radius over one whole beat, in pixels.
    pub closed spec fn pulse_amplitude(&self) -> i32 {
        self.pulse_amplitude
    }

    /// Fill colour.
    pub closed spec fn color(&self) -> Color {
        self.color
    }

    /// Radius at `phase`: the base radius plus the fraction of the beat times the amplitude.
    pub open spec fn radius(&self, phase: u64) -> int {
        self.base_radius() * SUBPIXELS + beat_fraction(phase) * self.pulse_amplitude()
    }

    /// The circle at `phase`.
    pub open spec fn circle(&self, phase: u64) -> DrawCommand {
        DrawCommand::Circle {
            center_x: (self.center_x() * SUBPIXELS) as i128,
            center_y: (self.center_y() * SUBPIXELS) as i128,
            radius: self.radius(phase) as i128,
            color: self.color(),
        }
    }

    /// A circle centred on `(center_x, center_y)` pulsing between `base_radius`
    /// and `base_radius + pulse_amplitude`.
    pub fn new(
        center_x: i32,
        center_y: i32,
        base_radius: i32,
        pulse_amplitude: i32,
        color: Color,
    ) -> (effect: Self)
        ensures
            effect.center_x() == center_x,
            effect.center_y() == center_y,
            effect.base_radius() == base_radius,
            effect.pulse_amplitude() == pulse_amplitude,
            effect.color() == color,
    {
        PulsingCircle { center_x, center_y, base_radius, pulse_amplitude, color }
    }
}

impl GenericVisualEffect for PulsingCircle {
    open spec fn commands(&self, phase: u64) -> Seq<DrawCommand> {
        seq![self.circle(phase)]
    }

    open spec fn label(&self) -> Seq<char> {
        "Pulsing Circle"@
    }

    fn draw(&self, phase: u64) -> (out: Vec<DrawCommand>) {
        let grown: u64 = fraction(phase);
        proof {
            lemma_product_bound(grown as int, self.pulse_amplitude as int, 1000, 0x8000_0000);
        }
        let radius: i128 = (self.base_radius as i128) * SUBPIXELS + (grown as i128) * (
        self.pulse_amplitude as i128);
        let center_x: i128 = (self.center_x as i128) * SUBPIXELS;
        let center_y: i128 = (self.center_y as i128) * SUBPIXELS;
        let mut out: Vec<DrawCommand> = Vec::new();
        out.push(DrawCommand::Circle { center_x, center_y, radius, color: self.color });
        assert(out@ =~= seq![self.circle(phase)]);
        out
    }

    fn name(&self) -> (n: &str) {
        "Pulsing Circle"
    }
}

/// Within one beat the radius never shrinks, given an amplitude that is not
/// negative: a later phase of the same beat gives a radius at least as large.
pub proof fn lemma_radius_grows_within_beat(circle: PulsingCircle, earlier: u64, later: u64)
    requires
        circle.pulse_amplitude() >= 0,
        earlier <= later,
        beat_index(earlier) == beat_index(later),
    ensures
        circle.radius(earlier) <= circle.radius(later),
{
    let a = circle.pulse_amplitude() as int;
    let s = beat_fraction(earlier) as int;
    let t = beat_fraction(later) as int;
    lemma_scale_monotone(a, s, t);
    assert(s * a == a * s && t * a == a * t) by (nonlinear_arith);
}

/// Throughout a beat the radius stays between the base radius and the base
/// radius plus the amplitude, the latter excluded, given an amplitude that is
/// not negative.
pub proof fn lemma_radius_range(circle: PulsingCircle, phase: u64)
    requires
        circle.pulse_amplitude() >= 0,
    ensures
        circle.base_radius() * SUBPIXELS <= circle.radius(phase),
        circle.radius(phase) <= (circle.base_radius() + circle.pulse_amplitude()) * SUBPIXELS,
        circle.pulse_amplitude() > 0 ==> circle.radius(phase) < (circle.base_radius()
            + circle.pulse_amplitude()) * SUBPIXELS,
{
    let a = circle.pulse_amplitude() as int;
    let b = circle.base_radius() as int;
    let f = beat_fraction(phase) as int;
    assert(0 <= f * a <= a * 1000 && (a > 0 ==> f * a < a * 1000)) by (nonlinear_arith)
        requires
            0 <= f < 1000,
            a >= 0,
    ;
    assert((b + a) * 1000 == b * 1000 + a * 1000) by (nonlinear_arith);
}

/// The radius is back at the base radius whenever the phase lies exactly on a
/// beat, and, unless the amplitude is zero, at no other phase.
pub proof fn lemma_radius_resets_on_the_beat(circle: PulsingCircle, phase: u64)
    ensures
        beat_fraction(phase) == 0 ==> circle.radius(phase) == circle.base_radius() * SUBPIXELS,
        circle.pulse_amplitude() != 0 && circle.radius(phase) == circle.base_radius() * SUBPIXELS
            ==> beat_fraction(phase) == 0,
{
    let a = circle.pulse_amplitude() as int;
    let f = beat_fraction(phase) as int;
    assert(f == 0 ==> f * a == 0) by (nonlinear_arith);
    assert(a != 0 && f * a == 0 ==> f == 0) by (nonlinear_arith);
}

/// Crossing into beat `k` resets the radius: one step before the beat the
/// radius is the largest of the ending beat, on the beat it is the base radius.
pub proof fn lemma_radius_at_beat_boundary(circle: PulsingCircle, k: nat)
    requires
        k >= 1,
        k * PHASE_SCALE <= u64::MAX,
    ensures
        circle.radius((k * PHASE_SCALE) as u64) == circle.base_radius() * SUBPIXELS,
        circle.radius((k * PHASE_SCALE - 1) as u64) == circle.base_radius() * SUBPIXELS + 999
            * circle.pulse_amplitude(),
{
    let on = (k * PHASE_SCALE) as u64;
    let before = (k * PHASE_SCALE - 1) as u64;
    assert(on % 1000 == 0 && before % 1000 == 999) by (nonlinear_arith)
        requires
            on == k * 1000,
            before == k * 1000 - 1,
            k >= 1,
    ;
    assert(0 * circle.pulse_amplitude() == 0);
}

} // verus!
