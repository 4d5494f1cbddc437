//! Rising bars, one per beat.

use vstd::prelude::*;
use crate::arith::lemma_product_bound;
use crate::draw::{Color, DrawCommand, SUBPIXELS};
use crate::phase::{beat_fraction, beat_index, fraction, whole_beats, PHASE_SCALE};
use super::GenericVisualEffect;

verus! {

/// A row of `num_bars` columns. On each beat the next column fills from the
/// bottom of the canvas to its top, then the following column takes over.
pub struct BeatBarsEffect {
    num_bars: u32,
    bar_width: i32,
    canvas_height: i32,
    color: Color,
}

impl BeatBarsEffect {
    /// There is always at least one column.
    #[verifier::type_invariant]
    spec fn has_a_bar(self) -> bool {
        self.num_bars > 0
    }

    /// Number of columns.
    pub closed spec fn num_bars(&self) -> u32 {
        self.num_bars
    }

    /// Width of one column, in pixels.
    pub closed spec fn bar_width(&self) -> i32 {
        self.bar_width
    }

    /// Height of the canvas, in pixels.
    pub closed spec fn canvas_height(&self) -> i32 {
        self.canvas_height
    }

    /// Fill colour of the bar.
    pub closed spec fn color(&self) -> Color {
        self.color
    }

    /// The column that is filling at `phase`: the beat index modulo the number of columns.
    pub open spec fn bar_index(&self, phase: u64) -> int {
        beat_index(phase) as int % self.num_bars() as int
    }

    /// Height of the bar at `phase`: the canvas height times the fraction of the beat.
    pub open spec fn bar_height(&self, phase: u64) -> int {
        self.canvas_height() * beat_fraction(phase)
    }

    /// Left edge of the bar at `phase`.
    pub open spec fn bar_x(&self, phase: u64) -> int {
        self.bar_width() * self.bar_index(phase) * SUBPIXELS
    }

    /// The bar at `phase`, anchored to the bottom of the canvas.
    pub open spec fn bar(&self, phase: u64) -> DrawCommand {
        DrawCommand::Rectangle {
            x: self.bar_x(phase) as i128,
            y: (self.canvas_height() * SUBPIXELS - self.bar_height(phase)) as i128,
            width: (self.bar_width() * SUBPIXELS) as i128,
            height: self.bar_height(phase) as i128,
            color: self.color(),
        }
    }

    /// A row of `num_bars` bars of the given width on a canvas of the given height.
    pub fn new(num_bars: u32, bar_width: i32, canvas_height: i32, color: Color) -> (effect: Self)
        requires
            num_bars > 0,
        ensures
            effect.num_bars() == num_bars,
            effect.bar_width() == bar_width,
            effect.canvas_height() == canvas_height,
            effect.color() == color,
    {
        BeatBarsEffect { num_bars, bar_width, canvas_height, color }
    }
}

impl GenericVisualEffect for BeatBarsEffect {
    open spec fn commands(&self, phase: u64) -> Seq<DrawCommand> {
        seq![self.bar(phase)]
    }

    open spec fn label(&self) -> Seq<char> {
        "Beat Bars"@
    }

    fn draw(&self, phase: u64) -> (out: Vec<DrawCommand>) {
        proof {
            use_type_invariant(self);
        }
        let index: u64 = whole_beats(phase) % (self.num_bars as u64);
        let filled: u64 = fraction(phase);
        proof {
            lemma_product_bound(self.canvas_height as int, filled as int, 0x8000_0000, 1000);
            lemma_product_bound(self.bar_width as int, index as int, 0x8000_0000, 0x1_0000_0000);
        }
        let height: i128 = (self.canvas_height as i128) * (filled as i128);
        let x: i128 = (self.bar_width as i128) * (index as i128) * SUBPIXELS;
        let y: i128 = (self.canvas_height as i128) * SUBPIXELS - height;
        let width: i128 = (self.bar_width as i128) * SUBPIXELS;
        let mut out: Vec<DrawCommand> = Vec::new();
        out.push(DrawCommand::Rectangle { x, y, width, height, color: self.color });
        assert(out@ =~= seq![self.bar(phase)]);
        out
    }

    fn name(&self) -> (n: &str) {
        "Beat Bars"
    }
}

/// The bar always stands in one of the effect's columns, and it is never
/// taller than the canvas: its height lies between zero and the canvas height,
/// the canvas height itself excluded unless it is zero.
pub proof fn lemma_bar_within_canvas(effect: BeatBarsEffect, phase: u64)
    requires
        effect.num_bars() > 0,
    ensures
        0 <= effect.bar_index(phase) < effect.num_bars(),
        effect.canvas_height() >= 0 ==> 0 <= effect.bar_height(phase) <= effect.canvas_height()
            * SUBPIXELS,
        effect.canvas_height() > 0 ==> effect.bar_height(phase) < effect.canvas_height()
            * SUBPIXELS,
{
    let h = effect.canvas_height() as int;
    let f = beat_fraction(phase) as int;
    assert(h >= 0 ==> 0 <= h * f <= h * 1000) by (nonlinear_arith)
        requires
            0 <= f < 1000,
    ;
    assert(h > 0 ==> h * f < h * 1000) by (nonlinear_arith)
        requires
            0 <= f < 1000,
    ;
}

/// Exactly on beat `k` the bar has no height yet and stands in column `k mod num_bars`.
pub proof fn lemma_bar_on_the_beat(effect: BeatBarsEffect, k: nat)
    requires
        effect.num_bars() > 0,
        k * PHASE_SCALE <= u64::MAX,
    ensures
        effect.bar_height((k * PHASE_SCALE) as u64) == 0,
        effect.bar_index((k * PHASE_SCALE) as u64) == k % (effect.num_bars() as nat),
{
    let phase = (k * PHASE_SCALE) as u64;
    assert(phase / 1000 == k && phase % 1000 == 0) by (nonlinear_arith)
        requires
            phase == k * 1000,
    ;
    assert(effect.canvas_height() * 0 == 0);
}

/// Within one beat the column stays and the bar only grows (on a canvas of
/// non-negative height): a later phase of the same beat gives the same column
/// and a bar at least as tall.
pub proof fn lemma_bar_rises_within_beat(effect: BeatBarsEffect, earlier: u64, later: u64)
    requires
        earlier <= later,
        beat_index(earlier) == beat_index(later),
        effect.canvas_height() >= 0,
    ensures
        effect.bar_index(earlier) == effect.bar_index(later),
        effect.bar_height(earlier) <= effect.bar_height(later),
{
    crate::arith::lemma_scale_monotone(
        effect.canvas_height() as int,
        beat_fraction(earlier) as int,
        beat_fraction(later) as int,
    );
}

} // verus!
