use visual_metronome::visual_effects::zoom_feedback::{
    BeginFrame, Buffer, EndFrame, FrameError, BUFFER_HEIGHT, BUFFER_WIDTH,
};
use visual_metronome::visual_effects::{GenericVisualEffect, ZoomFeedback};

#[test]
fn feedback_starts_idle_with_buffer_a_as_source() {
    let feedback = ZoomFeedback::new(900, 20);
    assert!(!feedback.is_compositing());
    assert_eq!(feedback.source(), Buffer::A);
    assert_eq!(feedback.destination(), Buffer::B);
}

#[test]
fn begin_frame_fades_and_zooms_the_previous_frame() {
    let mut feedback = ZoomFeedback::new(900, 20);
    let plan = feedback.begin_frame().unwrap();
    assert_eq!(plan.clear_alpha, 100);
    assert_eq!(plan.source_alpha, 900);
    assert_eq!(plan.scale, 1020);
    assert_eq!(
        plan,
        BeginFrame {
            create_buffers: true,
            destination: Buffer::B,
            source: Buffer::A,
            clear_alpha: 100,
            source_alpha: 900,
            scale: 1020,
            offset_x: -8_000,
            offset_y: -6_000,
            width: 816_000,
            height: 612_000,
        }
    );
    assert!(feedback.is_compositing());
    assert_eq!(feedback.source(), Buffer::A);
}

#[test]
fn one_frame_flips_the_roles_once() {
    let mut feedback = ZoomFeedback::new(900, 20);
    feedback.begin_frame().unwrap();
    let shown = feedback.end_frame().unwrap();
    assert_eq!(shown, EndFrame { present: Buffer::B });
    assert!(!feedback.is_compositing());
    assert_eq!(feedback.source(), Buffer::B);
    assert_eq!(feedback.destination(), Buffer::A);
}

#[test]
fn n_frames_flip_the_roles_n_times() {
    for n in 0..9u32 {
        let mut feedback = ZoomFeedback::new(500, 0);
        for _ in 0..n {
            feedback.begin_frame().unwrap();
            feedback.end_frame().unwrap();
        }
        let expected = if n % 2 == 0 { Buffer::A } else { Buffer::B };
        assert_eq!(feedback.source(), expected);
        assert!(!feedback.is_compositing());
    }
}

#[test]
fn frames_alternate_between_the_buffers() {
    let mut feedback = ZoomFeedback::new(900, 20);
    let mut written = Vec::new();
    for frame in 0..6 {
        let plan = feedback.begin_frame().unwrap();
        assert_eq!(plan.create_buffers, frame == 0);
        assert_ne!(plan.source, plan.destination);
        let shown = feedback.end_frame().unwrap();
        assert_eq!(shown.present, plan.destination);
        assert_eq!(feedback.source(), plan.destination);
        written.push(plan.destination);
    }
    assert_eq!(
        written,
        vec![Buffer::B, Buffer::A, Buffer::B, Buffer::A, Buffer::B, Buffer::A]
    );
}

#[test]
fn begin_frame_twice_is_rejected() {
    let mut feedback = ZoomFeedback::new(900, 20);
    assert!(feedback.begin_frame().is_ok());
    assert_eq!(feedback.begin_frame(), Err(FrameError::FrameInProgress));
    assert!(feedback.is_compositing());
    assert_eq!(feedback.source(), Buffer::A);
    assert_eq!(feedback.begin_frame(), Err(FrameError::FrameInProgress));
    assert_eq!(feedback.end_frame(), Ok(EndFrame { present: Buffer::B }));
    assert_eq!(feedback.source(), Buffer::B);
}

#[test]
fn end_frame_without_a_frame_is_rejected() {
    let mut feedback = ZoomFeedback::new(900, 20);
    assert_eq!(feedback.end_frame(), Err(FrameError::NoFrameInProgress));
    assert_eq!(feedback.source(), Buffer::A);
    assert!(!feedback.is_compositing());
    feedback.begin_frame().unwrap();
    feedback.end_frame().unwrap();
    assert_eq!(feedback.end_frame(), Err(FrameError::NoFrameInProgress));
    assert_eq!(feedback.source(), Buffer::B);
}

#[test]
fn a_rejected_begin_does_not_ask_for_buffers_again() {
    let mut feedback = ZoomFeedback::new(900, 20);
    assert!(feedback.begin_frame().unwrap().create_buffers);
    assert!(feedback.begin_frame().is_err());
    feedback.end_frame().unwrap();
    assert!(!feedback.begin_frame().unwrap().create_buffers);
}

#[test]
fn full_opacity_clears_with_no_alpha() {
    let mut feedback = ZoomFeedback::new(1000, 0);
    let plan = feedback.begin_frame().unwrap();
    assert_eq!(plan.clear_alpha, 0);
    assert_eq!(plan.source_alpha, 1000);
    assert_eq!(plan.scale, 1000);
    assert_eq!((plan.offset_x, plan.offset_y), (0, 0));
    assert_eq!((plan.width, plan.height), (800_000, 600_000));
}

#[test]
fn zero_opacity_keeps_nothing() {
    let mut feedback = ZoomFeedback::new(0, 20);
    let plan = feedback.begin_frame().unwrap();
    assert_eq!(plan.clear_alpha, 1000);
    assert_eq!(plan.source_alpha, 0);
}

#[test]
fn negative_zoom_shrinks_about_the_centre() {
    let mut feedback = ZoomFeedback::new(900, -50);
    let plan = feedback.begin_frame().unwrap();
    assert_eq!(plan.scale, 950);
    assert_eq!((plan.offset_x, plan.offset_y), (20_000, 15_000));
    assert_eq!((plan.width, plan.height), (760_000, 570_000));
    assert_eq!(plan.width + 2 * plan.offset_x, BUFFER_WIDTH as i128 * 1000);
    assert_eq!(plan.height + 2 * plan.offset_y, BUFFER_HEIGHT as i128 * 1000);
}

#[test]
fn extreme_zoom_factors_are_exact() {
    let mut feedback = ZoomFeedback::new(1, i32::MAX);
    let plan = feedback.begin_frame().unwrap();
    assert_eq!(plan.scale, 1000 + i32::MAX as i64);
    assert_eq!(plan.width, 800 * (1000 + i32::MAX as i128));
    assert_eq!(plan.offset_y, -300 * i32::MAX as i128);
    let mut feedback = ZoomFeedback::new(1, i32::MIN);
    let plan = feedback.begin_frame().unwrap();
    assert_eq!(plan.scale, 1000 + i32::MIN as i64);
    assert_eq!(plan.offset_x, -400 * i32::MIN as i128);
}

#[test]
fn feedback_draws_nothing_as_an_effect() {
    let feedback = ZoomFeedback::new(900, 20);
    assert_eq!(feedback.draw(1500), vec![]);
    assert_eq!(feedback.name(), "Zoom Feedback");
}
