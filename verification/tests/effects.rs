use visual_metronome::draw::{Color, DrawCommand, PolarPoint};
use visual_metronome::visual_effects::{
    BeatBarsEffect, GenericVisualEffect, PulsingCircle, SpiralEffect, WaveEffect,
};

fn magenta() -> Color {
    Color::rgb(255, 0, 255)
}

fn bars() -> BeatBarsEffect {
    BeatBarsEffect::new(4, 200, 600, magenta())
}

fn bar_at(effect: &BeatBarsEffect, phase: u64) -> (i128, i128, i128, i128) {
    let out = effect.draw(phase);
    assert_eq!(out.len(), 1);
    match out[0] {
        DrawCommand::Rectangle { x, y, width, height, color } => {
            assert_eq!(color, magenta());
            (x, y, width, height)
        }
        _ => panic!("beat bars draw a rectangle"),
    }
}

fn radius_at(circle: &PulsingCircle, phase: u64) -> i128 {
    let out = circle.draw(phase);
    assert_eq!(out.len(), 1);
    match out[0] {
        DrawCommand::Circle { radius, .. } => radius,
        _ => panic!("a pulsing circle draws a circle"),
    }
}

fn ends(command: &DrawCommand) -> (PolarPoint, PolarPoint) {
    match command {
        DrawCommand::Line { from, to, .. } => (*from, *to),
        _ => panic!("a stroke is a line"),
    }
}

fn position(p: &PolarPoint) -> (f64, f64) {
    let angle = p.angle as f64 / 1_000_000.0;
    let x = (p.center_x as f64 + p.radius_x as f64 * angle.cos()) / 1000.0;
    let y = (p.center_y as f64 + p.radius_y as f64 * angle.sin()) / 1000.0;
    (x, y)
}

#[test]
fn beat_bars_at_one_and_a_half_beats() {
    let (x, y, width, height) = bar_at(&bars(), 1500);
    assert_eq!(x, 200_000);
    assert_eq!(height, 300_000);
    assert_eq!(y, 300_000);
    assert_eq!(width, 200_000);
}

#[test]
fn beat_bars_at_phase_zero() {
    let (x, y, width, height) = bar_at(&bars(), 0);
    assert_eq!(x, 0);
    assert_eq!(height, 0);
    assert_eq!(y, 600_000);
    assert_eq!(width, 200_000);
}

#[test]
fn beat_bars_on_every_beat_have_no_height() {
    let effect = bars();
    for k in 0..20u64 {
        let (x, y, _, height) = bar_at(&effect, k * 1000);
        assert_eq!(height, 0);
        assert_eq!(y, 600_000);
        assert_eq!(x, ((k % 4) * 200_000) as i128);
    }
}

#[test]
fn beat_bars_wrap_around_after_the_last_bar() {
    let effect = bars();
    assert_eq!(bar_at(&effect, 3999).0, 600_000);
    assert_eq!(bar_at(&effect, 3999).3, 599_400);
    assert_eq!(bar_at(&effect, 4000).0, 0);
    assert_eq!(bar_at(&effect, 4250).3, 150_000);
}

#[test]
fn beat_bars_grow_within_a_beat() {
    let effect = bars();
    let mut last = -1;
    for phase in 2000..3000u64 {
        let (x, y, _, height) = bar_at(&effect, phase);
        assert_eq!(x, 400_000);
        assert!(height > last);
        assert_eq!(y + height, 600_000);
        last = height;
    }
}

#[test]
fn beat_bars_take_the_largest_phase() {
    let effect = BeatBarsEffect::new(u32::MAX, i32::MIN, i32::MAX, magenta());
    let (x, _, _, height) = bar_at(&effect, u64::MAX);
    let beat = (u64::MAX / 1000) % (u32::MAX as u64);
    assert_eq!(x, (i32::MIN as i128) * (beat as i128) * 1000);
    assert_eq!(height, (i32::MAX as i128) * ((u64::MAX % 1000) as i128));
}

#[test]
fn beat_bars_with_a_single_bar_stay_in_place() {
    let effect = BeatBarsEffect::new(1, 50, 100, magenta());
    assert_eq!(bar_at(&effect, 0).0, 0);
    assert_eq!(bar_at(&effect, 7300).0, 0);
    assert_eq!(bar_at(&effect, 7300).3, 30_000);
}

#[test]
fn pulsing_circle_radius_follows_the_beat() {
    let circle = PulsingCircle::new(400, 300, 50, 100, Color::rgb(0, 255, 255));
    assert_eq!(radius_at(&circle, 0), 50_000);
    assert_eq!(radius_at(&circle, 250), 75_000);
    assert_eq!(radius_at(&circle, 500), 100_000);
    assert_eq!(radius_at(&circle, 999), 149_900);
    assert_eq!(radius_at(&circle, 1000), 50_000);
    assert_eq!(radius_at(&circle, 2300), 80_000);
}

#[test]
fn pulsing_circle_never_shrinks_within_a_beat() {
    let circle = PulsingCircle::new(400, 300, 50, 100, Color::rgb(0, 255, 255));
    let mut last = radius_at(&circle, 5000);
    assert_eq!(last, 50_000);
    for phase in 5001..6000u64 {
        let radius = radius_at(&circle, phase);
        assert!(radius >= last);
        assert!(radius > 50_000);
        last = radius;
    }
    assert_eq!(radius_at(&circle, 6000), 50_000);
}

#[test]
fn pulsing_circle_keeps_its_centre_and_colour() {
    let circle = PulsingCircle::new(400, 300, 50, 100, Color::rgb(0, 255, 255));
    assert_eq!(
        circle.draw(1500),
        vec![DrawCommand::Circle {
            center_x: 400_000,
            center_y: 300_000,
            radius: 100_000,
            color: Color { r: 0, g: 255, b: 255 },
        }]
    );
}

#[test]
fn pulsing_circle_with_negative_amplitude_shrinks() {
    let circle = PulsingCircle::new(0, 0, 50, -20, Color::rgb(1, 2, 3));
    assert_eq!(radius_at(&circle, 0), 50_000);
    assert_eq!(radius_at(&circle, 500), 40_000);
}

#[test]
fn wave_starts_on_the_centre_line_at_phase_zero() {
    let wave = WaveEffect::new(50, 500, 100, Color::rgb(255, 255, 0));
    let out = wave.draw(0);
    let (from, _) = ends(&out[0]);
    assert_eq!(from.angle, 0);
    assert_eq!(from.center_x, 0);
    assert_eq!(from.center_y, 100_000);
    assert_eq!(from.radius_x, 0);
    assert_eq!(from.radius_y, 50_000);
    let (x, y) = position(&from);
    assert_eq!(x, 0.0);
    assert_eq!(y, 100.0);
}

#[test]
fn wave_spans_the_canvas_in_connected_strokes() {
    let wave = WaveEffect::new(50, 500, 100, Color::rgb(255, 255, 0));
    let out = wave.draw(1234);
    assert_eq!(out.len(), 799);
    for (i, command) in out.iter().enumerate() {
        let (from, to) = ends(command);
        assert_eq!(from.center_x, i as i128 * 1000);
        assert_eq!(to.center_x, (i as i128 + 1) * 1000);
        assert_eq!(from.angle, i as i128 * 10_000 + 1234 * 500);
        assert_eq!(to.angle, (i as i128 + 1) * 10_000 + 1234 * 500);
        if i + 1 < out.len() {
            assert_eq!(to, ends(&out[i + 1]).0);
        }
        match command {
            DrawCommand::Line { thickness, color, .. } => {
                assert_eq!(*thickness, 2000);
                assert_eq!(*color, Color::rgb(255, 255, 0));
            }
            _ => panic!("a stroke is a line"),
        }
    }
}

#[test]
fn wave_shift_does_not_reset_on_the_beat() {
    let wave = WaveEffect::new(50, 500, 100, Color::rgb(255, 255, 0));
    let before = ends(&wave.draw(999)[0]).0;
    let on = ends(&wave.draw(1000)[0]).0;
    let after = ends(&wave.draw(2000)[0]).0;
    assert_eq!(before.angle, 499_500);
    assert_eq!(on.angle, 500_000);
    assert_eq!(after.angle, 1_000_000);
}

#[test]
fn wave_follows_the_sine() {
    let wave = WaveEffect::new(50, 500, 100, Color::rgb(255, 255, 0));
    let out = wave.draw(3000);
    let (from, _) = ends(&out[157]);
    let (x, y) = position(&from);
    let expected = 100.0 + 50.0 * (1.57f64 + 1.5).sin();
    assert_eq!(x, 157.0);
    assert!((y - expected).abs() < 1e-9);
}

#[test]
fn wave_takes_the_largest_phase() {
    let wave = WaveEffect::new(i32::MIN, i32::MIN, i32::MAX, Color::rgb(0, 0, 0));
    let out = wave.draw(u64::MAX);
    let (_, to) = ends(&out[798]);
    assert_eq!(to.angle, 7_990_000 + (u64::MAX as i128) * (i32::MIN as i128));
    assert_eq!(to.radius_y, (i32::MIN as i128) * 1000);
}

#[test]
fn spiral_has_499_connected_strokes_from_the_centre() {
    let spiral = SpiralEffect::new(400, 300, Color::rgb(0, 255, 128));
    let out = spiral.draw(0);
    assert_eq!(out.len(), 499);
    let (first, _) = ends(&out[0]);
    assert_eq!(
        first,
        PolarPoint { center_x: 400_000, center_y: 300_000, radius_x: 0, radius_y: 0, angle: 0 }
    );
    for (i, command) in out.iter().enumerate() {
        let (from, to) = ends(command);
        assert_eq!(from.radius_x, i as i128 * 400);
        assert_eq!(from.radius_y, i as i128 * 400);
        assert_eq!(from.angle, i as i128 * 20_000);
        assert_eq!(to.radius_x, (i as i128 + 1) * 400);
        assert_eq!(to.angle, (i as i128 + 1) * 20_000);
        if i + 1 < out.len() {
            assert_eq!(to, ends(&out[i + 1]).0);
        }
    }
    let (_, last) = ends(&out[498]);
    assert_eq!(last.radius_x, 199_600);
    assert_eq!(last.angle, 9_980_000);
}

#[test]
fn spiral_turns_two_radians_per_beat() {
    let spiral = SpiralEffect::new(400, 300, Color::rgb(0, 255, 128));
    let at_rest = spiral.draw(0);
    let turned = spiral.draw(1500);
    for i in 0..499 {
        let (a, _) = ends(&at_rest[i]);
        let (b, _) = ends(&turned[i]);
        assert_eq!(b.angle - a.angle, 3_000_000);
        assert_eq!(b.radius_x, a.radius_x);
    }
    match turned[10] {
        DrawCommand::Line { thickness, color, .. } => {
            assert_eq!(thickness, 2000);
            assert_eq!(color, Color::rgb(0, 255, 128));
        }
        _ => panic!("a stroke is a line"),
    }
}

#[test]
fn spiral_point_lies_where_the_formula_puts_it() {
    let spiral = SpiralEffect::new(400, 300, Color::rgb(0, 255, 128));
    let out = spiral.draw(250);
    let (from, _) = ends(&out[100]);
    let (x, y) = position(&from);
    let t = 2.0f64;
    assert!((x - (400.0 + 20.0 * t * (t + 0.5).cos())).abs() < 1e-9);
    assert!((y - (300.0 + 20.0 * t * (t + 0.5).sin())).abs() < 1e-9);
}

#[test]
fn sampling_agrees_with_drawing() {
    let wave = WaveEffect::new(50, 500, 100, Color::rgb(255, 255, 0));
    let spiral = SpiralEffect::new(400, 300, Color::rgb(0, 255, 128));
    let strokes = wave.draw(777);
    assert_eq!(wave.sample(777, 0), ends(&strokes[0]).0);
    assert_eq!(wave.sample(777, 799), ends(&strokes[798]).1);
    let turns = spiral.draw(777);
    assert_eq!(spiral.sample(777, 0), ends(&turns[0]).0);
    assert_eq!(spiral.sample(777, 499), ends(&turns[498]).1);
}

#[test]
fn effects_draw_the_same_for_the_same_phase() {
    let wave = WaveEffect::new(50, 500, 100, Color::rgb(255, 255, 0));
    assert_eq!(wave.draw(4321), wave.draw(4321));
    assert_eq!(bars().draw(4321), bars().draw(4321));
}

#[test]
fn effects_have_stable_names() {
    assert_eq!(bars().name(), "Beat Bars");
    assert_eq!(PulsingCircle::new(0, 0, 1, 1, magenta()).name(), "Pulsing Circle");
    assert_eq!(WaveEffect::new(1, 1, 1, magenta()).name(), "Wave Effect");
    assert_eq!(SpiralEffect::new(0, 0, magenta()).name(), "Spiral Effect");
}
