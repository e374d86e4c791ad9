use chronocam::session::{CaptureSession, Verdict};

#[test]
fn new_session_has_seen_no_frame() {
    let session = CaptureSession::new(3, String::from("chronocam-output"));
    assert_eq!(session.interval_seconds(), 3);
    assert_eq!(session.output_directory(), "chronocam-output");
    assert!(!session.warmed_up());
}

#[test]
fn screening_sets_the_first_frame_aside() {
    for width in [640, 0, -1] {
        let mut session = CaptureSession::new(3, String::from("out"));
        assert_eq!(session.screen(width), Verdict::WarmUp);
        assert!(session.warmed_up());
    }
}

#[test]
fn screening_accepts_later_frames_with_width() {
    let mut session = CaptureSession::new(3, String::from("out"));
    session.screen(0);
    assert_eq!(session.screen(1), Verdict::Accepted);
    assert_eq!(session.screen(640), Verdict::Accepted);
    assert_eq!(session.screen(i32::MAX), Verdict::Accepted);
    assert!(session.warmed_up());
}

#[test]
fn screening_drops_later_frames_without_width() {
    let mut session = CaptureSession::new(3, String::from("out"));
    session.screen(640);
    assert_eq!(session.screen(0), Verdict::Dropped);
    assert_eq!(session.screen(-1), Verdict::Dropped);
    assert_eq!(session.screen(i32::MIN), Verdict::Dropped);
    assert_eq!(session.screen(640), Verdict::Accepted);
}

#[test]
fn screening_leaves_the_settings_alone() {
    let mut session = CaptureSession::new(9, String::from("somewhere"));
    session.screen(640);
    session.screen(0);
    session.screen(640);
    assert_eq!(session.interval_seconds(), 9);
    assert_eq!(session.output_directory(), "somewhere");
}

#[test]
fn verdict_looks_without_touching() {
    let mut session = CaptureSession::new(3, String::from("out"));
    assert_eq!(session.verdict(640), Verdict::WarmUp);
    assert_eq!(session.verdict(0), Verdict::WarmUp);
    assert!(!session.warmed_up());
    session.screen(640);
    assert_eq!(session.verdict(640), Verdict::Accepted);
    assert_eq!(session.verdict(0), Verdict::Dropped);
    assert_eq!(session.verdict(-1), Verdict::Dropped);
    assert_eq!(session.verdict(1), Verdict::Accepted);
}
