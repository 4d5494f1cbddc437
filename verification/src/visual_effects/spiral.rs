//! A spiral that turns with the beat.

use vstd::prelude::*;
use crate::draw::{Color, DrawCommand, PolarPoint, SUBPIXELS};
use super::GenericVisualEffect;

verus! {

/// Number of strokes of the spiral. The curve runs over the parameter
/// `t = 0, 0.02, ..` up to, but not including, `t = 10`: 500 points, 499 strokes.
pub const SPIRAL_SEGMENTS: u32 = 499;

/// Thickness of the spiral's stroke, in thousandths of a pixel.
pub const SPIRAL_THICKNESS: i128 = 2000;

/// Millionths of a radian between neighbouring points: the parameter step `0.02`.
pub const SPIRAL_STEP: i128 = 20000;

/// Thousandths of a pixel that the radius grows between neighbouring points:
/// twenty pixels per unit of the parameter.
pub const SPIRAL_GROWTH: i128 = 400;

/// Millionths of a radian that the spiral turns per thousandth of a beat:
/// two radians per beat.
pub const SPIRAL_TURN: i128 = 2000;

/// An Archimedean spiral around a fixed centre. The point at parameter `t` lies
/// at radius `20 t` and angle `t + 2 * phase`, so the spiral turns steadily
/// with the phase, whatever the beat boundaries.
pub struct SpiralEffect {
    center_x: i32,
    center_y: i32,
    color: Color,
}

impl SpiralEffect {
    /// Horizontal position of the centre, in pixels.
    pub closed spec fn center_x(&self) -> i32 {
        self.center_x
    }

    /// Vertical position of the centre, in pixels.
    pub closed spec fn center_y(&self) -> i32 {
        self.center_y
    }

    /// Stroke colour.
    pub closed spec fn color(&self) -> Color {
        self.color
    }

    /// How far the whole spiral is turned at `phase`.
    pub open spec fn rotation(phase: u64) -> int {
        phase * SPIRAL_TURN
    }

    /// The `i`-th point of the curve, at parameter `t = i / 50`.
    pub open spec fn point(&self, phase: u64, i: int) -> PolarPoint {
        PolarPoint {
            center_x: (self.center_x() * SUBPIXELS) as i128,
            center_y: (self.center_y() * SUBPIXELS) as i128,
            radius_x: (i * SPIRAL_GROWTH) as i128,
            radius_y: (i * SPIRAL_GROWTH) as i128,
            angle: (i * SPIRAL_STEP + Self::rotation(phase)) as i128,
        }
    }

    /// The stroke from point `i` to point `i + 1`.
    pub open spec fn segment(&self, phase: u64, i: int) -> DrawCommand {
        DrawCommand::Line {
            from: self.point(phase, i),
            to: self.point(phase, i + 1),
            thickness: SPIRAL_THICKNESS,
            color: self.color(),
        }
    }

    /// A spiral around `(center_x, center_y)`.
    pub fn new(center_x: i32, center_y: i32, color: Color) -> (effect: Self)
        ensures
            effect.center_x() == center_x,
            effect.center_y() == center_y,
            effect.color() == color,
    {
        SpiralEffect { center_x, center_y, color }
    }

    /// The `i`-th point of the curve at `phase`.
    pub fn sample(&self, phase: u64, i: u32) -> (p: PolarPoint)
        ensures
            p == self.point(phase, i as int),
    {
        let radius: i128 = (i as i128) * SPIRAL_GROWTH;
        let rotation: i128 = (phase as i128) * SPIRAL_TURN;
        PolarPoint {
            center_x: (self.center_x as i128) * SUBPIXELS,
            center_y: (self.center_y as i128) * SUBPIXELS,
            radius_x: radius,
            radius_y: radius,
            angle: (i as i128) * SPIRAL_STEP + rotation,
        }
    }
}

impl GenericVisualEffect for SpiralEffect {
    open spec fn commands(&self, phase: u64) -> Seq<DrawCommand> {
        Seq::new(SPIRAL_SEGMENTS as nat, |i: int| self.segment(phase, i))
    }

    open spec fn label(&self) -> Seq<char> {
        "Spiral Effect"@
    }

    fn draw(&self, phase: u64) -> (out: Vec<DrawCommand>) {
        let mut out: Vec<DrawCommand> = Vec::new();
        let mut i: u32 = 0;
        while i < SPIRAL_SEGMENTS
            invariant
                i <= SPIRAL_SEGMENTS,
                out@ == Seq::new(i as nat, |k: int| self.segment(phase, k)),
            decreases SPIRAL_SEGMENTS - i,
        {
            let from = self.sample(phase, i);
            let to = self.sample(phase, i + 1);
            out.push(
                DrawCommand::Line { from, to, thickness: SPIRAL_THICKNESS, color: self.color },
            );
            i = i + 1;
            assert(out@ =~= Seq::new(i as nat, |k: int| self.segment(phase, k)));
        }
        out
    }

    fn name(&self) -> (n: &str) {
        "Spiral Effect"
    }
}

/// The strokes form one connected curve that starts in the centre: every
/// stroke starts where the one before it ended.
pub proof fn lemma_spiral_connected(spiral: SpiralEffect, phase: u64, i: int)
    requires
        0 <= i < SPIRAL_SEGMENTS - 1,
    ensures
        spiral.commands(phase).len() == SPIRAL_SEGMENTS,
        spiral.commands(phase)[i] == spiral.segment(phase, i),
        spiral.commands(phase)[i + 1] == spiral.segment(phase, i + 1),
        spiral.segment(phase, i)->Line_to == spiral.segment(phase, i + 1)->Line_from,
        spiral.point(phase, 0).radius_x == 0 && spiral.point(phase, 0).radius_y == 0,
{
}

/// The spiral turns as a whole and steadily: advancing the phase turns every
/// point by the same angle, two radians per beat, and moves none closer to or
/// farther from the centre.
pub proof fn lemma_spiral_turns(spiral: SpiralEffect, phase: u64, later: u64, i: int)
    requires
        phase <= later,
        0 <= i <= SPIRAL_SEGMENTS,
    ensures
        spiral.point(later, i).angle - spiral.point(phase, i).angle == (later - phase)
            * SPIRAL_TURN,
        spiral.point(later, i).radius_x == spiral.point(phase, i).radius_x,
        spiral.point(later, i).radius_y == spiral.point(phase, i).radius_y,
{
}

} // verus!
