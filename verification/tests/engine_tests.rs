use quick_compare::engine::{
    Compositor, DecodeOutcome, RenderRecovery, SessionControl, SessionEvent, SourceInit,
    StartupError, SurfaceError, render_recovery,
};
use quick_compare::frame::{Frame, FrameError};
use quick_compare::pacing::VideoStatus;

fn rgba_frame(width: u32, height: u32, fill: u8) -> Frame {
    let data = vec![fill; (4 * width * height) as usize];
    Frame::new(width, height, data).unwrap()
}

fn session(n: usize, nominal_ms: Option<u64>, now: u64) -> Compositor {
    let sources: Vec<SourceInit> = (0..n)
        .map(|i| SourceInit { first_frame: rgba_frame(2, 2, i as u8), nominal_ms })
        .collect();
    Compositor::new(sources, 800, 600, now).unwrap()
}

#[test]
fn frame_buffer_must_match_dimensions() {
    assert!(Frame::new(2, 2, vec![0u8; 16]).is_ok());
    assert_eq!(Frame::new(2, 2, vec![0u8; 15]), Err(FrameError::BufferSizeMismatch));
    assert_eq!(Frame::new(2, 2, vec![0u8; 17]), Err(FrameError::BufferSizeMismatch));
    assert!(Frame::new(0, 2, vec![]).is_ok());
}

#[test]
fn startup_rejects_a_mismatched_first_frame() {
    let good = SourceInit { first_frame: rgba_frame(2, 2, 0), nominal_ms: Some(30) };
    let bad = SourceInit {
        first_frame: Frame { width: 2, height: 2, data: vec![0u8; 12] },
        nominal_ms: Some(30),
    };
    let r = Compositor::new(vec![good, bad], 800, 600, 0);
    assert_eq!(r.unwrap_err(), StartupError::InvalidFirstFrame);
}

#[test]
fn startup_builds_the_row_and_starts_playing() {
    let c = session(3, Some(30), 7);
    assert_eq!(c.video_status, VideoStatus::Playing);
    assert_eq!(c.instances.len(), 3);
    assert_eq!(c.window_width, 800);
    assert_eq!(c.window_height, 600);
    let offsets: Vec<i64> = c.instances.iter().map(|v| v.placement.offset_x_num).collect();
    assert_eq!(offsets, vec![-2, 0, 2]);
    for v in &c.instances {
        assert_eq!(v.placement.offset_den, 2);
        assert_eq!(v.placement.scale_den, 3);
        assert_eq!(v.timer.last_accepted, 7);
        assert_eq!(v.nominal_ms, Some(30));
        assert!(!v.finished);
        assert_eq!(v.frames_accepted, 0);
        assert_eq!(v.texture.width, 2);
        assert_eq!(v.texture.height, 2);
    }
}

#[test]
fn paused_session_has_no_due_instances() {
    let mut c = session(2, Some(30), 0);
    c.toggle_video_status(Some(VideoStatus::Paused), 50);
    assert_eq!(c.video_status, VideoStatus::Paused);
    // However long the pause lasts, nothing is due and nothing accumulates.
    assert!(c.due_instances(1_000_000).is_empty());
    assert!(!c.needs_frame(0, 1_000_000));
}

#[test]
fn toggling_twice_without_elapsing_leaves_no_backlog() {
    let mut c = session(2, Some(30), 0);
    // Long past due when the toggle arrives.
    assert!(c.needs_frame(0, 500));
    c.toggle_video_status(None, 500);
    assert_eq!(c.video_status, VideoStatus::Paused);
    c.toggle_video_status(None, 500);
    assert_eq!(c.video_status, VideoStatus::Playing);
    // Timing restarted at the resume instant: nothing fires at once.
    assert!(c.due_instances(500).is_empty());
    assert!(c.due_instances(529).is_empty());
    assert_eq!(c.due_instances(530), vec![0, 1]);
}

#[test]
fn explicit_requests_set_the_state_idempotently() {
    let mut c = session(1, Some(30), 0);
    c.toggle_video_status(Some(VideoStatus::Paused), 10);
    c.toggle_video_status(Some(VideoStatus::Paused), 20);
    assert_eq!(c.video_status, VideoStatus::Paused);
    c.toggle_video_status(Some(VideoStatus::Playing), 30);
    assert_eq!(c.video_status, VideoStatus::Playing);
    // Resume restarted the timers at 30.
    assert_eq!(c.instances[0].timer.last_accepted, 30);
}

#[test]
fn end_of_stream_freezes_exactly_that_instance() {
    let mut c = session(2, Some(30), 0);
    c.apply_decode(0, DecodeOutcome::EndOfStream, 30);
    let frozen_pixels = c.instances[0].texture.pixels.clone();
    assert!(c.instances[0].finished);
    assert!(!c.instances[1].finished);
    // Subsequent ticks: instance 0 is never due again, instance 1 goes on.
    for step in 1..6u64 {
        let now = 30 + step * 30;
        let due = c.due_instances(now);
        assert_eq!(due, vec![1]);
        c.apply_decode(1, DecodeOutcome::Frame(rgba_frame(2, 2, step as u8)), now);
    }
    assert_eq!(c.instances[0].texture.pixels, frozen_pixels);
    assert_eq!(c.instances[0].frames_accepted, 0);
    assert_eq!(c.instances[1].frames_accepted, 5);
}

#[test]
fn decode_failure_freezes_like_end_of_stream() {
    let mut c = session(2, Some(30), 0);
    c.apply_decode(1, DecodeOutcome::Failed, 30);
    let frozen_pixels = c.instances[1].texture.pixels.clone();
    assert!(c.instances[1].finished);
    assert_eq!(c.due_instances(90), vec![0]);
    c.apply_decode(0, DecodeOutcome::Frame(rgba_frame(2, 2, 7)), 90);
    assert_eq!(c.instances[1].texture.pixels, frozen_pixels);
    assert_eq!(c.instances[1].frames_accepted, 0);
    assert_eq!(c.instances[0].frames_accepted, 1);
}

#[test]
fn resize_changes_only_the_aspect_correction() {
    let mut c = session(3, Some(30), 0);
    let placements_before: Vec<_> = c.instances.iter().map(|v| v.placement).collect();
    let a = c.current_aspect();
    assert_eq!((a.y_stretch_num, a.y_stretch_den), (800, 600));
    c.resize(600, 800);
    let a = c.current_aspect();
    assert_eq!((a.y_stretch_num, a.y_stretch_den), (600, 800));
    let placements_after: Vec<_> = c.instances.iter().map(|v| v.placement).collect();
    assert_eq!(placements_before, placements_after);
    assert_eq!(c.video_status, VideoStatus::Playing);
}

#[test]
fn degenerate_resize_is_ignored() {
    let mut c = session(1, Some(30), 0);
    c.resize(0, 500);
    assert_eq!((c.window_width, c.window_height), (800, 600));
    c.resize(500, 0);
    assert_eq!((c.window_width, c.window_height), (800, 600));
}

#[test]
fn render_plan_never_binds_mismatched_dimensions() {
    let mut c = session(2, Some(30), 0);
    // Replace instance 0 with a frame of different dimensions mid-session.
    c.apply_decode(0, DecodeOutcome::Frame(rgba_frame(4, 3, 9)), 30);
    let plan = c.render_plan();
    assert_eq!(plan.len(), 2);
    for (d, v) in plan.iter().zip(c.instances.iter()) {
        assert_eq!(d.width, v.texture.width);
        assert_eq!(d.height, v.texture.height);
        assert_eq!(d.pixel_bytes, (4 * d.width * d.height) as usize);
        assert_eq!(d.transform.placement, v.placement);
        assert_eq!(d.transform.aspect.y_stretch_num, c.window_width);
        assert_eq!(d.transform.aspect.y_stretch_den, c.window_height);
    }
    assert_eq!((plan[0].width, plan[0].height), (4, 3));
    assert_eq!((plan[1].width, plan[1].height), (2, 2));
}

#[test]
fn three_streams_advance_three_frames_in_a_hundred_ms() {
    // Three videos at a nominal 30 ms, ten ticks at 10 ms intervals,
    // playing throughout: each advances by exactly floor(100/30) = 3 frames.
    let mut c = session(3, Some(30), 0);
    for tick in 1..=10u64 {
        let now = tick * 10;
        for i in c.due_instances(now) {
            c.apply_decode(i, DecodeOutcome::Frame(rgba_frame(2, 2, tick as u8)), now);
        }
    }
    for v in &c.instances {
        assert_eq!(v.frames_accepted, 3);
    }
}

#[test]
fn due_instances_lists_exactly_the_due_in_order() {
    let mut c = session(3, Some(30), 0);
    // Advance instance 1 at t=30: it is not due again before t=60, while 0
    // and 2 (last accepted at startup, t=0) are due from t=30 on.
    c.apply_decode(1, DecodeOutcome::Frame(rgba_frame(2, 2, 1)), 30);
    assert_eq!(c.due_instances(29), Vec::<usize>::new());
    assert_eq!(c.due_instances(30), vec![0, 2]);
    assert_eq!(c.due_instances(59), vec![0, 2]);
    assert_eq!(c.due_instances(60), vec![0, 1, 2]);
}

#[test]
fn events_drive_the_session_as_the_window_loop_does() {
    let mut c = session(1, Some(30), 0);
    assert_eq!(c.handle_event(SessionEvent::SpacePressed, 10), SessionControl::Continue);
    assert_eq!(c.video_status, VideoStatus::Paused);
    assert_eq!(
        c.handle_event(SessionEvent::Resized { width: 1024, height: 768 }, 20),
        SessionControl::Continue,
    );
    assert_eq!((c.window_width, c.window_height), (1024, 768));
    assert_eq!(c.handle_event(SessionEvent::EscapePressed, 30), SessionControl::Exit);
    assert_eq!(c.handle_event(SessionEvent::CloseRequested, 40), SessionControl::Exit);
    // Exit events change nothing.
    assert_eq!(c.video_status, VideoStatus::Paused);
}

#[test]
fn render_failures_follow_the_recovery_policy() {
    assert_eq!(render_recovery(SurfaceError::Lost), RenderRecovery::Reconfigure);
    assert_eq!(render_recovery(SurfaceError::OutOfMemory), RenderRecovery::Terminate);
    assert_eq!(render_recovery(SurfaceError::Outdated), RenderRecovery::SkipTick);
    assert_eq!(render_recovery(SurfaceError::Timeout), RenderRecovery::SkipTick);
}
