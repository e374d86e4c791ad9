//! The controller of a run. It does none of the outside work itself: it tells
//! its driver what to do next (open the camera, read a frame, draw, store,
//! rest) and is told how that went. From the two it decides the next step.
//!
//! A run goes round in a circle: a frame is read and screened; if it is
//! accepted, the camera is asked how wide its frames are, the banner is
//! painted, the caption is drawn on it and the frame is stored; then the
//! camera rests for the interval and the next frame is read. The first frame
//! of a run is set aside, and the camera rests a moment longer after it.
//!
//! Each piece of outside work is answered by one event that stands for its
//! success. Any other event in its place is taken as the failure of that work
//! and halts the run for good. A rest cannot fail: whatever is reported after
//! it, the run goes on.

use vstd::prelude::*;
use crate::archive::{archive_path, path_text};
use crate::overlay::{banner_across, caption_of, Banner, Caption, CaptionView};
use crate::session::{verdict_of, CaptureSession, SessionView, Verdict};
use crate::timestamp::{
    moment_of, read_clock, rfc2822_text, unread, zone_exists, CaptureTimestamp, ClockReading,
    Moment,
};

verus! {

/// The camera that a run opens.
pub const DEVICE_INDEX: i32 = 0;

/// Seconds of rest after the first frame of a run, in which the camera settles.
/// They come on top of the interval.
pub const GRACE_SECONDS: u64 = 1;

/// Why a run has halted.
#[derive(Clone, Copy, Debug, PartialEq, Eq, Structural)]
pub enum CaptureError {
    /// The camera could not be opened.
    DeviceUnavailable,
    /// The camera gave no frame, or did not say how wide its frames are.
    ReadError,
    /// The banner or the caption could not be drawn.
    AnnotationFailure,
    /// The frame could not be stored.
    PersistFailure,
    /// The clock shows a time that has no number of nanoseconds in 64 bits, one
    /// before 21 September 1677 or after 11 April 2262.
    ClockOutOfRange,
}

/// What the driver reports of the work it was last told to do.
#[derive(Clone, Copy, Debug, PartialEq, Eq, Structural)]
pub enum Event {
    /// The work is done, and there is nothing to tell of it.
    Completed,
    /// The camera gave a frame `width` pixels wide.
    Frame { width: i32 },
    /// The camera says that its frames are `reported` pixels wide.
    Width { reported: i32 },
    /// The work could not be done.
    Failed,
}

/// What the driver is to do next.
#[derive(Debug, PartialEq, Eq)]
pub enum Action {
    /// Open the camera.
    Open { device_index: i32 },
    /// Read the next frame, and report its width.
    Read,
    /// Ask the camera how wide its frames are.
    QueryWidth,
    /// Paint the banner on the frame last read.
    FillBanner(Banner),
    /// Draw the caption on the frame last read.
    DrawCaption(Caption),
    /// Encode the frame last read, with the encoder's own settings, and store
    /// it under `path`.
    Persist { path: String },
    /// Rest.
    Sleep { seconds: u64 },
    /// Give up: the run has failed.
    Halt(CaptureError),
}

/// The mathematical model of an action.
pub enum ActionView {
    Open { device_index: i32 },
    Read,
    QueryWidth,
    FillBanner(Banner),
    DrawCaption(CaptionView),
    Persist { path: Seq<char> },
    Sleep { seconds: u64 },
    Halt(CaptureError),
}

impl View for Action {
    type V = ActionView;

    open spec fn view(&self) -> ActionView {
        match *self {
            Action::Open { device_index } => ActionView::Open { device_index },
            Action::Read => ActionView::Read,
            Action::QueryWidth => ActionView::QueryWidth,
            Action::FillBanner(banner) => ActionView::FillBanner(banner),
            Action::DrawCaption(caption) => ActionView::DrawCaption(caption@),
            Action::Persist { path } => ActionView::Persist { path: path@ },
            Action::Sleep { seconds } => ActionView::Sleep { seconds },
            Action::Halt(error) => ActionView::Halt(error),
        }
    }
}

/// Where in its circle a run stands: which work the driver has been told to
/// do and has not reported on yet.
#[derive(Clone, Copy, Debug, PartialEq, Eq)]
pub enum Phase {
    /// Nothing yet: the run has not begun.
    Idle,
    /// Opening the camera.
    Opening,
    /// Reading a frame.
    Reading,
    /// Resting after the first frame.
    Settling,
    /// Asking for the width of the camera's frames; the frame was accepted at `stamp`.
    Measuring { stamp: CaptureTimestamp },
    /// Painting the banner.
    Bannering { stamp: CaptureTimestamp },
    /// Drawing the caption.
    Captioning { stamp: CaptureTimestamp },
    /// Storing the frame.
    Persisting,
    /// Resting for the interval.
    Pausing,
    /// Nothing any more: the run has failed.
    Halted(CaptureError),
}

/// The mathematical model of a phase.
pub enum PhaseView {
    Idle,
    Opening,
    Reading,
    Settling,
    Measuring { stamp: Moment },
    Bannering { stamp: Moment },
    Captioning { stamp: Moment },
    Persisting,
    Pausing,
    Halted(CaptureError),
}

impl View for Phase {
    type V = PhaseView;

    open spec fn view(&self) -> PhaseView {
        match *self {
            Phase::Idle => PhaseView::Idle,
            Phase::Opening => PhaseView::Opening,
            Phase::Reading => PhaseView::Reading,
            Phase::Settling => PhaseView::Settling,
            Phase::Measuring { stamp } => PhaseView::Measuring { stamp: stamp@ },
            Phase::Bannering { stamp } => PhaseView::Bannering { stamp: stamp@ },
            Phase::Captioning { stamp } => PhaseView::Captioning { stamp: stamp@ },
            Phase::Persisting => PhaseView::Persisting,
            Phase::Pausing => PhaseView::Pausing,
            Phase::Halted(error) => PhaseView::Halted(error),
        }
    }
}

/// The controller of one run.
#[derive(Debug)]
pub struct Controller {
    session: CaptureSession,
    phase: Phase,
}

/// The mathematical model of a controller.
pub struct ControllerView {
    pub session: SessionView,
    pub phase: PhaseView,
}

impl View for Controller {
    type V = ControllerView;

    closed spec fn view(&self) -> ControllerView {
        ControllerView { session: self.session@, phase: self.phase@ }
    }
}

/// The controller of a run that has not begun.
pub open spec fn fresh(interval_seconds: u64, output_directory: Seq<char>) -> ControllerView {
    ControllerView {
        session: SessionView { interval_seconds, output_directory, warmed_up: false },
        phase: PhaseView::Idle,
    }
}

/// The run moves on to `phase`, and the driver is told to do `action`.
pub open spec fn proceed(s: ControllerView, phase: PhaseView, action: ActionView) -> (
    ControllerView,
    ActionView,
) {
    (ControllerView { phase, ..s }, action)
}

/// The run halts.
pub open spec fn halt(s: ControllerView, error: CaptureError) -> (ControllerView, ActionView) {
    (ControllerView { phase: PhaseView::Halted(error), ..s }, ActionView::Halt(error))
}

/// The rest that ends every round.
pub open spec fn pause(s: ControllerView) -> (ControllerView, ActionView) {
    proceed(s, PhaseView::Pausing, ActionView::Sleep { seconds: s.session.interval_seconds })
}

/// What follows when a frame `width` pixels wide has been read, and the clock
/// would show `reading` if it were looked at.
pub open spec fn on_frame(s: ControllerView, width: i32, reading: ClockReading) -> (
    ControllerView,
    ActionView,
) {
    let seen = ControllerView { session: SessionView { warmed_up: true, ..s.session }, ..s };
    match verdict_of(s.session.warmed_up, width) {
        Verdict::WarmUp => proceed(
            seen,
            PhaseView::Settling,
            ActionView::Sleep { seconds: GRACE_SECONDS },
        ),
        Verdict::Dropped => pause(seen),
        Verdict::Accepted => match moment_of(reading) {
            Some(stamp) => proceed(seen, PhaseView::Measuring { stamp }, ActionView::QueryWidth),
            None => halt(seen, CaptureError::ClockOutOfRange),
        },
    }
}

/// The step of the controller: the state that follows `s` and the action that
/// answers `event`, where the clock would show `reading` if it were looked at.
pub open spec fn next(s: ControllerView, event: Event, reading: ClockReading) -> (
    ControllerView,
    ActionView,
) {
    match s.phase {
        PhaseView::Idle => proceed(
            s,
            PhaseView::Opening,
            ActionView::Open { device_index: DEVICE_INDEX },
        ),
        PhaseView::Opening => match event {
            Event::Completed => proceed(s, PhaseView::Reading, ActionView::Read),
            _ => halt(s, CaptureError::DeviceUnavailable),
        },
        PhaseView::Reading => match event {
            Event::Frame { width } => on_frame(s, width, reading),
            _ => halt(s, CaptureError::ReadError),
        },
        PhaseView::Settling => pause(s),
        PhaseView::Measuring { stamp } => match event {
            Event::Width { reported } => proceed(
                s,
                PhaseView::Bannering { stamp },
                ActionView::FillBanner(banner_across(reported)),
            ),
            _ => halt(s, CaptureError::ReadError),
        },
        PhaseView::Bannering { stamp } => match event {
            Event::Completed => proceed(
                s,
                PhaseView::Captioning { stamp },
                ActionView::DrawCaption(
                    caption_of(rfc2822_text(stamp.nanos, stamp.offset_seconds)),
                ),
            ),
            _ => halt(s, CaptureError::AnnotationFailure),
        },
        PhaseView::Captioning { stamp } => match event {
            Event::Completed => proceed(
                s,
                PhaseView::Persisting,
                ActionView::Persist {
                    path: path_text(s.session.output_directory, stamp.nanos as int),
                },
            ),
            _ => halt(s, CaptureError::AnnotationFailure),
        },
        PhaseView::Persisting => match event {
            Event::Completed => pause(s),
            _ => halt(s, CaptureError::PersistFailure),
        },
        PhaseView::Pausing => proceed(s, PhaseView::Reading, ActionView::Read),
        PhaseView::Halted(error) => (s, ActionView::Halt(error)),
    }
}

/// Whether the step from `s` on `event` looks at the clock: it does so when a
/// frame is accepted, and only then.
pub open spec fn needs_clock(s: ControllerView, event: Event) -> bool {
    &&& s.phase is Reading
    &&& event matches Event::Frame { width }
    &&& verdict_of(s.session.warmed_up, width) is Accepted
}

impl Controller {
    /// The controller of a run that has not begun. The first event it is given,
    /// whichever it is, begins the run.
    pub fn new(interval_seconds: u64, output_directory: String) -> (controller: Controller)
        ensures
            controller@ == fresh(interval_seconds, output_directory@),
    {
        Controller {
            session: CaptureSession::new(interval_seconds, output_directory),
            phase: Phase::Idle,
        }
    }

    fn proceed(&mut self, phase: Phase, action: Action) -> (told: Action)
        ensures
            (final(self)@, told@) == proceed(old(self)@, phase@, action@),
    {
        self.phase = phase;
        action
    }

    fn halt(&mut self, error: CaptureError) -> (told: Action)
        ensures
            (final(self)@, told@) == halt(old(self)@, error),
    {
        self.phase = Phase::Halted(error);
        Action::Halt(error)
    }

    fn pause(&mut self) -> (told: Action)
        ensures
            (final(self)@, told@) == pause(old(self)@),
    {
        let seconds = self.session.interval_seconds();
        self.proceed(Phase::Pausing, Action::Sleep { seconds })
    }

    fn on_frame(&mut self, width: i32, reading: ClockReading) -> (told: Action)
        ensures
            (final(self)@, told@) == on_frame(old(self)@, width, reading),
    {
        match self.session.screen(width) {
            Verdict::WarmUp => self.proceed(
                Phase::Settling,
                Action::Sleep { seconds: GRACE_SECONDS },
            ),
            Verdict::Dropped => self.pause(),
            Verdict::Accepted => match CaptureTimestamp::from_reading(reading) {
                Some(stamp) => self.proceed(Phase::Measuring { stamp }, Action::QueryWidth),
                None => self.halt(CaptureError::ClockOutOfRange),
            },
        }
    }

    /// Takes the step that `event` calls for, with `reading` in place of the
    /// clock, and returns what the driver is to do next.
    pub fn advance(&mut self, event: Event, reading: ClockReading) -> (told: Action)
        ensures
            (final(self)@, told@) == next(old(self)@, event, reading),
    {
        match self.phase {
            Phase::Idle => self.proceed(
                Phase::Opening,
                Action::Open { device_index: DEVICE_INDEX },
            ),
            Phase::Opening => match event {
                Event::Completed => self.proceed(Phase::Reading, Action::Read),
                _ => self.halt(CaptureError::DeviceUnavailable),
            },
            Phase::Reading => match event {
                Event::Frame { width } => self.on_frame(width, reading),
                _ => self.halt(CaptureError::ReadError),
            },
            Phase::Settling => self.pause(),
            Phase::Measuring { stamp } => match event {
                Event::Width { reported } => self.proceed(
                    Phase::Bannering { stamp },
                    Action::FillBanner(Banner::across(reported)),
                ),
                _ => self.halt(CaptureError::ReadError),
            },
            Phase::Bannering { stamp } => match event {
                Event::Completed => {
                    let caption = Caption::of(stamp.label());
                    self.proceed(Phase::Captioning { stamp }, Action::DrawCaption(caption))
                },
                _ => self.halt(CaptureError::AnnotationFailure),
            },
            Phase::Captioning { stamp } => match event {
                Event::Completed => {
                    let path = archive_path(self.session.output_directory(), stamp.nanos());
                    self.proceed(Phase::Persisting, Action::Persist { path })
                },
                _ => self.halt(CaptureError::AnnotationFailure),
            },
            Phase::Persisting => match event {
                Event::Completed => self.pause(),
                _ => self.halt(CaptureError::PersistFailure),
            },
            Phase::Pausing => self.proceed(Phase::Reading, Action::Read),
            Phase::Halted(error) => Action::Halt(error),
        }
    }

    /// Whether the step on `event` looks at the clock.
    pub fn needs_clock(&self, event: Event) -> (needed: bool)
        ensures
            needed == needs_clock(self@, event),
    {
        match (self.phase, event) {
            (Phase::Reading, Event::Frame { width }) => match self.session.verdict(width) {
                Verdict::Accepted => true,
                _ => false,
            },
            _ => false,
        }
    }

    /// Takes the step that `event` calls for and returns what the driver is to
    /// do next. The clock is read if a frame is accepted, and then once.
    ///
    /// Nothing is known of what the clock shows but that its zone exists; so
    /// where it is read, the step is the one of `next` for some such reading.
    /// Where it is not read, the step is the one of `next` for any reading.
    pub fn step(&mut self, event: Event) -> (told: Action)
        ensures
            needs_clock(old(self)@, event) ==> exists|reading: ClockReading|
                zone_exists(reading.offset_seconds) && #[trigger] next(old(self)@, event, reading)
                    == (final(self)@, told@),
            !needs_clock(old(self)@, event) ==> (final(self)@, told@) == next(
                old(self)@,
                event,
                unread(),
            ),
    {
        let reading = if self.needs_clock(event) {
            read_clock()
        } else {
            ClockReading { nanos: None, offset_seconds: 0 }
        };
        self.advance(event, reading)
    }

    /// The settings of the run, and whether its first frame has been seen.
    pub fn session(&self) -> (session: &CaptureSession)
        ensures
            session@ == self@.session,
    {
        &self.session
    }

    /// Where in its circle the run stands.
    pub fn phase(&self) -> (phase: Phase)
        ensures
            phase@ == self@.phase,
    {
        self.phase
    }
}

} // verus!
