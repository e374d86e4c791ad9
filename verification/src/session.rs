//! The state of one run and the screening of its frames: the first frame
//! of a run is set aside while the camera settles, and after it a frame is
//! kept only if it has any width.

use vstd::prelude::*;

verus! {

/// What the screening makes of a frame.
#[derive(Clone, Copy, Debug, PartialEq, Eq, Structural)]
pub enum Verdict {
    /// The first frame of the run: set aside, whatever it holds.
    WarmUp,
    /// A later frame without width: left out.
    Dropped,
    /// A later frame with width: to be stamped and stored.
    Accepted,
}

/// The verdict on a frame `width` pixels wide, before (`!warmed_up`) or after
/// the first frame of the run has been seen.
pub open spec fn verdict_of(warmed_up: bool, width: i32) -> Verdict {
    if !warmed_up {
        Verdict::WarmUp
    } else if width > 0 {
        Verdict::Accepted
    } else {
        Verdict::Dropped
    }
}

/// The state of one run: its two settings, and whether its first frame has
/// been seen.
#[derive(Debug)]
pub struct CaptureSession {
    interval_seconds: u64,
    output_directory: String,
    warmed_up: bool,
}

/// The mathematical model of a session.
pub struct SessionView {
    /// Seconds of rest between one frame and the next.
    pub interval_seconds: u64,
    /// Directory in which the frames are stored.
    pub output_directory: Seq<char>,
    /// Whether the first frame of the run has been seen.
    pub warmed_up: bool,
}

impl View for CaptureSession {
    type V = SessionView;

    closed spec fn view(&self) -> SessionView {
        SessionView {
            interval_seconds: self.interval_seconds,
            output_directory: self.output_directory@,
            warmed_up: self.warmed_up,
        }
    }
}

impl CaptureSession {
    /// A session that has seen no frame yet.
    pub fn new(interval_seconds: u64, output_directory: String) -> (session: CaptureSession)
        ensures
            session@ == (SessionView {
                interval_seconds,
                output_directory: output_directory@,
                warmed_up: false,
            }),
    {
        CaptureSession { interval_seconds, output_directory, warmed_up: false }
    }

    /// What the screening makes of a frame `width` pixels wide, were it read now.
    pub fn verdict(&self, width: i32) -> (verdict: Verdict)
        ensures
            verdict == verdict_of(self@.warmed_up, width),
    {
        if !self.warmed_up {
            Verdict::WarmUp
        } else if width > 0 {
            Verdict::Accepted
        } else {
            Verdict::Dropped
        }
    }

    /// Screens a frame `width` pixels wide that has been read. From the first
    /// frame on the session is warmed up; nothing else of it changes.
    pub fn screen(&mut self, width: i32) -> (verdict: Verdict)
        ensures
            verdict == verdict_of(old(self)@.warmed_up, width),
            final(self)@ == (SessionView { warmed_up: true, ..old(self)@ }),
    {
        let verdict = self.verdict(width);
        self.warmed_up = true;
        verdict
    }

    /// Seconds of rest between one frame and the next.
    pub fn interval_seconds(&self) -> (seconds: u64)
        ensures
            seconds == self@.interval_seconds,
    {
        self.interval_seconds
    }

    /// Directory in which the frames are stored.
    pub fn output_directory(&self) -> (directory: &str)
        ensures
            directory@ == self@.output_directory,
    {
        self.output_directory.as_str()
    }

    /// Whether the first frame of the run has been seen.
    pub fn warmed_up(&self) -> (warmed_up: bool)
        ensures
            warmed_up == self@.warmed_up,
    {
        self.warmed_up
    }
}

} // verus!
