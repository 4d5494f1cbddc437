//! One frame of output.

use vstd::prelude::*;
use crate::draw::{Color, DrawCommand};
use crate::visual_effects::composite::{commands_of, VisualEffectComposite};

verus! {

/// Colour that every frame starts from: black.
pub open spec fn background() -> Color {
    Color { r: 0, g: 0, b: 0 }
}

/// Colour of the tempo readout: white.
pub open spec fn label_color() -> Color {
    Color { r: 255, g: 255, b: 255 }
}

/// Distance of the tempo readout from the left and the top edge, in thousandths of a pixel.
pub const LABEL_MARGIN: i128 = 10000;

/// A frame at phase `counter` and tempo `bpm`: the cleared background, the
/// tempo readout, then every effect in registration order.
pub open spec fn frame_commands(
    effects: &VisualEffectComposite,
    counter: u64,
    bpm: u32,
) -> Seq<DrawCommand> {
    seq![
        DrawCommand::Clear { color: background() },
        DrawCommand::TempoLabel {
            x: LABEL_MARGIN,
            y: LABEL_MARGIN,
            tempo: bpm,
            color: label_color(),
        },
    ] + commands_of(effects.effects(), counter, effects.effects().len())
}

/// The decimal digits of `n` as ASCII, most significant first, without leading zeros.
pub open spec fn decimal(n: nat) -> Seq<u8>
    decreases n,
{
    if n < 10 {
        seq![(48 + n) as u8]
    } else {
        decimal(n / 10).push((48 + n % 10) as u8)
    }
}

/// The text of the tempo readout for a tempo of `bpm` tenths of a beat per
/// minute: `BPM: `, the whole beats per minute, a point, and the tenths.
pub open spec fn tempo_text(bpm: u32) -> Seq<u8> {
    seq![66u8, 80u8, 77u8, 58u8, 32u8] + decimal((bpm / 10) as nat) + seq![
        46u8,
        (48 + bpm % 10) as u8,
    ]
}

/// Appends the decimal digits of `n` to `out`.
pub fn push_decimal(out: &mut Vec<u8>, n: u32)
    ensures
        final(out)@ == old(out)@ + decimal(n as nat),
    decreases n,
{
    if n >= 10 {
        push_decimal(out, n / 10);
    }
    out.push(48 + (n % 10) as u8);
    assert(final(out)@ =~= old(out)@ + decimal(n as nat));
}

/// The text of the tempo readout, as ASCII.
pub fn tempo_label(bpm: u32) -> (text: Vec<u8>)
    ensures
        text@ == tempo_text(bpm),
{
    let mut text: Vec<u8> = Vec::new();
    text.push(66);
    text.push(80);
    text.push(77);
    text.push(58);
    text.push(32);
    push_decimal(&mut text, bpm / 10);
    text.push(46);
    text.push(48 + (bpm % 10) as u8);
    assert(text@ =~= tempo_text(bpm));
    text
}

/// A number's digits are decimal digits, there is at least one, and they
/// spell the number: the digits before the last spell its tenth part, and the
/// last digit is its remainder.
pub proof fn lemma_decimal_spells(n: nat)
    ensures
        decimal(n).len() >= 1,
        forall|i: int| 0 <= i < decimal(n).len() ==> 48 <= #[trigger] decimal(n)[i] <= 57,
        decimal(n).last() == 48 + n % 10,
        n >= 10 ==> decimal(n).drop_last() == decimal(n / 10),
        n >= 10 ==> decimal(n)[0] != 48,
        n < 10 ==> decimal(n).len() == 1,
    decreases n,
{
    if n >= 10 {
        lemma_decimal_spells(n / 10);
        assert(decimal(n).drop_last() =~= decimal(n / 10));
        assert(decimal(n)[0] == decimal(n / 10)[0]);
        if n / 10 < 10 {
            assert(decimal(n / 10)[0] == 48 + n / 10);
        }
    }
}

/// Lists what one frame draws, in order.
pub fn render_frame(effects: &VisualEffectComposite, counter: u64, bpm: u32) -> (out: Vec<
    DrawCommand,
>)
    ensures
        out@ == frame_commands(effects, counter, bpm),
{
    let mut out: Vec<DrawCommand> = Vec::new();
    out.push(DrawCommand::Clear { color: Color::rgb(0, 0, 0) });
    out.push(
        DrawCommand::TempoLabel {
            x: LABEL_MARGIN,
            y: LABEL_MARGIN,
            tempo: bpm,
            color: Color::rgb(255, 255, 255),
        },
    );
    let mut drawn = effects.draw_all(counter);
    out.append(&mut drawn);
    assert(out@ =~= frame_commands(effects, counter, bpm));
    out
}

} // verus!
