use quadengine::frame::{AcquireOutcome, BeginFrame, FrameScheduler, PresentOutcome};

#[test]
fn out_of_date_skips_and_recreates_before_next_attempt() {
    let mut s = FrameScheduler::new(3, 800, 600);
    // acquisition reports a stale surface: skip the frame, flag recreation
    let r = s.begin_frame(AcquireOutcome::OutOfDate);
    assert_eq!(r, BeginFrame::Skip);
    assert!(s.needs_recreate());
    // the next frame recreates first, then re-attempts acquisition
    s.recreation_completed(true);
    assert!(!s.needs_recreate());
    let r = s.begin_frame(AcquireOutcome::Success { index: 0, suboptimal: false });
    match r {
        BeginFrame::Proceed { index, wait_previous_use, join_previous_frame } => {
            assert_eq!(index, 0);
            assert!(!wait_previous_use);
            assert!(!join_previous_frame);
        }
        BeginFrame::Skip => panic!("acquisition succeeded but the frame was skipped"),
    }
}

#[test]
fn reacquiring_an_image_waits_on_its_previous_frame() {
    let mut s = FrameScheduler::new(2, 640, 480);
    let r = s.begin_frame(AcquireOutcome::Success { index: 1, suboptimal: false });
    assert!(matches!(r, BeginFrame::Proceed { wait_previous_use: false, .. }));
    s.end_frame(PresentOutcome::Presented);
    // image 1 now carries an outstanding completion signal
    assert!(s.slots[1]);
    let r = s.begin_frame(AcquireOutcome::Success { index: 1, suboptimal: false });
    match r {
        BeginFrame::Proceed { index, wait_previous_use, join_previous_frame } => {
            assert_eq!(index, 1);
            assert!(wait_previous_use);
            assert!(!join_previous_frame);
        }
        BeginFrame::Skip => panic!("acquisition succeeded but the frame was skipped"),
    }
    // after acquisition the slot's old signal has been retired
    assert!(!s.slots[1]);
}

#[test]
fn failed_present_substitutes_completed_signal() {
    let mut s = FrameScheduler::new(2, 640, 480);
    s.begin_frame(AcquireOutcome::Success { index: 0, suboptimal: false });
    s.end_frame(PresentOutcome::Failed);
    // a no-op completed signal: nothing to wait for on reuse
    let r = s.begin_frame(AcquireOutcome::Success { index: 0, suboptimal: false });
    assert!(matches!(r, BeginFrame::Proceed { wait_previous_use: false, .. }));
}

#[test]
fn stale_present_flags_recreation() {
    let mut s = FrameScheduler::new(2, 640, 480);
    s.begin_frame(AcquireOutcome::Success { index: 0, suboptimal: false });
    assert!(!s.needs_recreate());
    s.end_frame(PresentOutcome::OutOfDate);
    assert!(s.needs_recreate());
}

#[test]
fn suboptimal_acquisition_flags_recreation() {
    let mut s = FrameScheduler::new(2, 640, 480);
    let r = s.begin_frame(AcquireOutcome::Success { index: 0, suboptimal: true });
    assert!(matches!(r, BeginFrame::Proceed { .. }));
    assert!(s.needs_recreate());
}

#[test]
fn resize_then_recreation_adopts_latest_window_size() {
    let mut s = FrameScheduler::new(3, 800, 600);
    s.window_resized(1024, 768);
    assert!(s.needs_recreate());
    assert_eq!(s.window_size(), (1024, 768));
    // still the old swapchain until recreation happens
    assert_eq!((s.swap_width, s.swap_height), (800, 600));
    s.recreation_completed(true);
    assert_eq!((s.swap_width, s.swap_height), (1024, 768));
    assert!(!s.needs_recreate());
    // the next successful frame renders against the new dimensions
    let r = s.begin_frame(AcquireOutcome::Success { index: 2, suboptimal: false });
    assert!(matches!(r, BeginFrame::Proceed { .. }));
    assert_eq!((s.swap_width, s.swap_height), (1024, 768));
}

#[test]
fn unsupported_extent_keeps_recreation_pending() {
    let mut s = FrameScheduler::new(3, 800, 600);
    s.window_resized(0, 0);
    s.recreation_completed(false);
    // nothing changed; the next frame retries
    assert!(s.needs_recreate());
    assert_eq!((s.swap_width, s.swap_height), (800, 600));
}

#[test]
fn join_previous_frame_on_a_different_image() {
    let mut s = FrameScheduler::new(3, 800, 600);
    s.begin_frame(AcquireOutcome::Success { index: 0, suboptimal: false });
    s.end_frame(PresentOutcome::Presented);
    // the previous frame used image 0; acquiring image 1 joins its signal
    let r = s.begin_frame(AcquireOutcome::Success { index: 1, suboptimal: false });
    match r {
        BeginFrame::Proceed { wait_previous_use, join_previous_frame, .. } => {
            assert!(!wait_previous_use);
            assert!(join_previous_frame);
        }
        BeginFrame::Skip => panic!("acquisition succeeded but the frame was skipped"),
    }
}
