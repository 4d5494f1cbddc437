use visual_metronome::draw::{Color, DrawCommand};
use visual_metronome::frame::{push_decimal, render_frame, tempo_label};
use visual_metronome::visual_effects::{
    BeatBarsEffect, Effect, PulsingCircle, VisualEffectComposite, ZoomFeedback,
};

#[test]
fn frame_clears_then_labels_then_draws_the_effects() {
    let mut effects = VisualEffectComposite::new();
    effects.add_effect(Effect::BeatBars(BeatBarsEffect::new(4, 200, 600, Color::rgb(255, 0, 255))));
    effects.add_effect(Effect::PulsingCircle(PulsingCircle::new(
        400,
        300,
        50,
        100,
        Color::rgb(0, 255, 255),
    )));
    let out = render_frame(&effects, 1500, 1234);
    assert_eq!(
        out,
        vec![
            DrawCommand::Clear { color: Color { r: 0, g: 0, b: 0 } },
            DrawCommand::TempoLabel {
                x: 10_000,
                y: 10_000,
                tempo: 1234,
                color: Color { r: 255, g: 255, b: 255 },
            },
            DrawCommand::Rectangle {
                x: 200_000,
                y: 300_000,
                width: 200_000,
                height: 300_000,
                color: Color { r: 255, g: 0, b: 255 },
            },
            DrawCommand::Circle {
                center_x: 400_000,
                center_y: 300_000,
                radius: 100_000,
                color: Color { r: 0, g: 255, b: 255 },
            },
        ]
    );
}

#[test]
fn frame_without_effects_still_clears_and_labels() {
    let effects = VisualEffectComposite::new();
    let out = render_frame(&effects, 0, 1200);
    assert_eq!(out.len(), 2);
    assert_eq!(out[0], DrawCommand::Clear { color: Color::rgb(0, 0, 0) });
    assert!(matches!(out[1], DrawCommand::TempoLabel { tempo: 1200, .. }));
}

#[test]
fn frame_fits_between_the_compositor_transitions() {
    let mut effects = VisualEffectComposite::new();
    effects.add_effect(Effect::BeatBars(BeatBarsEffect::new(4, 200, 600, Color::rgb(255, 0, 255))));
    let direct = effects.draw_all(2500);
    let mut feedback = ZoomFeedback::new(900, 20);
    let begin = feedback.begin_frame().unwrap();
    let drawn = effects.draw_all(2500);
    let end = feedback.end_frame().unwrap();
    assert_eq!(drawn, direct);
    assert_eq!(end.present, begin.destination);
}

#[test]
fn tempo_label_shows_one_decimal() {
    assert_eq!(tempo_label(1200), b"BPM: 120.0".to_vec());
    assert_eq!(tempo_label(1234), b"BPM: 123.4".to_vec());
    assert_eq!(tempo_label(1001), b"BPM: 100.1".to_vec());
    assert_eq!(tempo_label(300), b"BPM: 30.0".to_vec());
    assert_eq!(tempo_label(7), b"BPM: 0.7".to_vec());
    assert_eq!(tempo_label(0), b"BPM: 0.0".to_vec());
    assert_eq!(tempo_label(u32::MAX), b"BPM: 429496729.5".to_vec());
}

#[test]
fn decimal_digits_are_appended() {
    let mut out = b"x".to_vec();
    push_decimal(&mut out, 0);
    push_decimal(&mut out, 9);
    push_decimal(&mut out, 10);
    push_decimal(&mut out, 4_294_967_295);
    assert_eq!(out, b"x09104294967295".to_vec());
}
