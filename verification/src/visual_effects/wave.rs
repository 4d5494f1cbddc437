//! A sine wave that slides sideways with the beat.

use vstd::prelude::*;
use crate::arith::lemma_product_bound;
use crate::draw::{Color, DrawCommand, PolarPoint, SUBPIXELS};
use super::GenericVisualEffect;

verus! {

/// Number of sample columns of the wave: one per pixel of an 800 pixel wide canvas.
pub const WAVE_SAMPLES: u32 = 800;

/// Thickness of the wave's stroke, in thousandths of a pixel.
pub const WAVE_THICKNESS: i128 = 2000;

/// Millionths of a radian that the sine's argument advances per sample column:
/// a hundredth of a radian.
pub const WAVE_STEP: i128 = 10000;

/// A sine curve across the canvas. Column `x` sits at height
/// `y_offset + amplitude * sin(x / 100 + phase * frequency)`, so the curve
/// slides sideways as the phase grows and never snaps back on a beat.
pub struct WaveEffect {
    amplitude: i32,
    frequency: i32,
    color: Color,
    y_offset: i32,
}

impl WaveEffect {
    /// Height of the crests above the centre line, in pixels.
    pub closed spec fn amplitude(&self) -> i32 {
        self.amplitude
    }

    /// Radians of horizontal shift per beat, in thousandths.
    pub closed spec fn frequency(&self) -> i32 {
        self.frequency
    }

    /// Vertical position of the centre line, in pixels.
    pub closed spec fn y_offset(&self) -> i32 {
        self.y_offset
    }

    /// Stroke colour.
    pub closed spec fn color(&self) -> Color {
        self.color
    }

    /// The argument of the sine at column `x`: `x / 100 + phase * frequency` radians.
    pub open spec fn angle(&self, phase: u64, x: int) -> int {
        x * WAVE_STEP + phase * self.frequency()
    }

    /// The point of the curve above column `x`.
    pub open spec fn point(&self, phase: u64, x: int) -> PolarPoint {
        PolarPoint {
            center_x: (x * SUBPIXELS) as i128,
            center_y: (self.y_offset() * SUBPIXELS) as i128,
            radius_x: 0,
            radius_y: (self.amplitude() * SUBPIXELS) as i128,
            angle: self.angle(phase, x) as i128,
        }
    }

    /// The stroke from column `x` to column `x + 1`.
    pub open spec fn segment(&self, phase: u64, x: int) -> DrawCommand {
        DrawCommand::Line {
            from: self.point(phase, x),
            to: self.point(phase, x + 1),
            thickness: WAVE_THICKNESS,
            color: self.color(),
        }
    }

    /// A wave of the given amplitude and frequency around the line `y = y_offset`.
    pub fn new(amplitude: i32, frequency: i32, y_offset: i32, color: Color) -> (effect: Self)
        ensures
            effect.amplitude() == amplitude,
            effect.frequency() == frequency,
            effect.y_offset() == y_offset,
            effect.color() == color,
    {
        WaveEffect { amplitude, frequency, color, y_offset }
    }

    /// The point of the curve above column `x` at `phase`.
    pub fn sample(&self, phase: u64, x: u32) -> (p: PolarPoint)
        ensures
            p == self.point(phase, x as int),
    {
        proof {
            lemma_product_bound(
                phase as int,
                self.frequency as int,
                0x1_0000_0000_0000_0000,
                0x8000_0000,
            );
        }
        let shift: i128 = (phase as i128) * (self.frequency as i128);
        PolarPoint {
            center_x: (x as i128) * SUBPIXELS,
            center_y: (self.y_offset as i128) * SUBPIXELS,
            radius_x: 0,
            radius_y: (self.amplitude as i128) * SUBPIXELS,
            angle: (x as i128) * WAVE_STEP + shift,
        }
    }
}

impl GenericVisualEffect for WaveEffect {
    open spec fn commands(&self, phase: u64) -> Seq<DrawCommand> {
        Seq::new((WAVE_SAMPLES - 1) as nat, |x: int| self.segment(phase, x))
    }

    open spec fn label(&self) -> Seq<char> {
        "Wave Effect"@
    }

    fn draw(&self, phase: u64) -> (out: Vec<DrawCommand>) {
        let mut out: Vec<DrawCommand> = Vec::new();
        let mut x: u32 = 0;
        while x < WAVE_SAMPLES - 1
            invariant
                x <= WAVE_SAMPLES - 1,
                out@ == Seq::new(x as nat, |k: int| self.segment(phase, k)),
            decreases WAVE_SAMPLES - 1 - x,
        {
            let from = self.sample(phase, x);
            let to = self.sample(phase, x + 1);
            out.push(DrawCommand::Line { from, to, thickness: WAVE_THICKNESS, color: self.color });
            x = x + 1;
            assert(out@ =~= Seq::new(x as nat, |k: int| self.segment(phase, k)));
        }
        out
    }

    fn name(&self) -> (n: &str) {
        "Wave Effect"
    }
}

/// The strokes form one connected curve from the first column to the last:
/// every stroke starts where the one before it ended.
pub proof fn lemma_wave_connected(wave: WaveEffect, phase: u64, x: int)
    requires
        0 <= x < WAVE_SAMPLES - 2,
    ensures
        wave.commands(phase).len() == WAVE_SAMPLES - 1,
        wave.commands(phase)[x] == wave.segment(phase, x),
        wave.commands(phase)[x + 1] == wave.segment(phase, x + 1),
        wave.segment(phase, x)->Line_to == wave.segment(phase, x + 1)->Line_from,
{
}

/// The curve slides steadily: advancing the phase shifts the sine's argument
/// by the same amount in every column, the frequency times the advance, and
/// changes nothing else about a point.
pub proof fn lemma_wave_shift(wave: WaveEffect, phase: u64, later: u64, x: int)
    requires
        phase <= later,
    ensures
        wave.angle(later, x) - wave.angle(phase, x) == (later - phase) * wave.frequency(),
        wave.point(later, x).center_x == wave.point(phase, x).center_x,
        wave.point(later, x).center_y == wave.point(phase, x).center_y,
        wave.point(later, x).radius_y == wave.point(phase, x).radius_y,
{
    let f = wave.frequency() as int;
    assert(later * f - phase * f == (later - phase) * f) by (nonlinear_arith);
}

} // verus!
