//! What holds of every run. A run is the controller of `fresh`, fed one input
//! after another: the event that the driver reports, and what the clock would
//! show at that moment if the step looked at it.

use vstd::prelude::*;
use crate::archive::path_text;
use crate::controller::{
    fresh, halt, needs_clock, next, ActionView, CaptureError, ControllerView, Event, PhaseView,
    GRACE_SECONDS,
};
use crate::overlay::{banner_across, caption_of};
use crate::timestamp::{moment_of, rfc2822_text, ClockReading};

verus! {

/// What one step is given.
pub struct Input {
    /// What the driver reports.
    pub event: Event,
    /// What the clock would show.
    pub reading: ClockReading,
}

/// The state of a run before its step `i`, the steps counted from 0.
pub open spec fn state_at(start: ControllerView, inputs: Seq<Input>, i: int) -> ControllerView
    decreases i,
{
    if i <= 0 {
        start
    } else {
        next(state_at(start, inputs, i - 1), inputs[i - 1].event, inputs[i - 1].reading).0
    }
}

/// What the driver is told at step `i` of a run.
pub open spec fn action_at(start: ControllerView, inputs: Seq<Input>, i: int) -> ActionView {
    next(state_at(start, inputs, i), inputs[i].event, inputs[i].reading).1
}

/// Whether step `i` of a run takes a frame from the camera.
pub open spec fn frame_at(start: ControllerView, inputs: Seq<Input>, i: int) -> bool {
    state_at(start, inputs, i).phase is Reading && inputs[i].event is Frame
}

/// The number of frames that a run takes from the camera before its step `i`.
pub open spec fn frames_before(start: ControllerView, inputs: Seq<Input>, i: int) -> nat
    decreases i,
{
    if i <= 0 {
        0
    } else {
        frames_before(start, inputs, i - 1) + if frame_at(start, inputs, i - 1) {
            1nat
        } else {
            0nat
        }
    }
}

/// The error with which a run halts if the work that it waits for in `phase`
/// fails. A rest cannot fail, and before the run has begun there is no work.
pub open spec fn failure_in(phase: PhaseView) -> Option<CaptureError> {
    match phase {
        PhaseView::Opening => Some(CaptureError::DeviceUnavailable),
        PhaseView::Reading => Some(CaptureError::ReadError),
        PhaseView::Measuring { .. } => Some(CaptureError::ReadError),
        PhaseView::Bannering { .. } => Some(CaptureError::AnnotationFailure),
        PhaseView::Captioning { .. } => Some(CaptureError::AnnotationFailure),
        PhaseView::Persisting => Some(CaptureError::PersistFailure),
        PhaseView::Halted(error) => Some(error),
        PhaseView::Idle => None,
        PhaseView::Settling => None,
        PhaseView::Pausing => None,
    }
}

/// Whether the run is at work on a frame that it has accepted.
pub open spec fn at_work_on_a_frame(phase: PhaseView) -> bool {
    phase is Measuring || phase is Bannering || phase is Captioning || phase is Persisting
}

proof fn lemma_settings_stay(start: ControllerView, inputs: Seq<Input>, i: int)
    ensures
        state_at(start, inputs, i).session.interval_seconds == start.session.interval_seconds,
        state_at(start, inputs, i).session.output_directory == start.session.output_directory,
    decreases i,
{
    if i > 0 {
        lemma_settings_stay(start, inputs, i - 1);
    }
}

proof fn lemma_halted_stays(start: ControllerView, inputs: Seq<Input>, i: int, j: int)
    requires
        0 <= i <= j,
        state_at(start, inputs, i).phase is Halted,
    ensures
        state_at(start, inputs, j).phase is Halted,
    decreases j,
{
    if i < j {
        lemma_halted_stays(start, inputs, i, j - 1);
    }
}

proof fn lemma_frames_counted(start: ControllerView, inputs: Seq<Input>, i: int)
    requires
        !start.session.warmed_up,
        !at_work_on_a_frame(start.phase),
        !(start.phase is Settling),
    ensures
        ({
            let state = state_at(start, inputs, i);
            let frames = frames_before(start, inputs, i);
            &&& state.session.warmed_up <==> frames >= 1
            &&& state.phase is Settling ==> frames == 1
            &&& at_work_on_a_frame(state.phase) ==> frames >= 2
        }),
    decreases i,
{
    if i > 0 {
        lemma_frames_counted(start, inputs, i - 1);
    }
}

/// A step that does not look at the clock is the same whatever the clock shows.
pub proof fn law_clock_matters_only_to_accept_a_frame(
    s: ControllerView,
    event: Event,
    one: ClockReading,
    other: ClockReading,
)
    requires
        !needs_clock(s, event),
    ensures
        next(s, event, one) == next(s, event, other),
{
}

/// Every failure halts the run, at once and for good: nothing is tried again,
/// and whatever is reported to a run that has halted, it stays halted with the
/// same error.
pub proof fn law_every_failure_halts_the_run(
    s: ControllerView,
    reading: ClockReading,
    after: Input,
)
    requires
        failure_in(s.phase) is Some,
    ensures
        ({
            let error = failure_in(s.phase)->Some_0;
            let (halted, told) = next(s, Event::Failed, reading);
            &&& (halted, told) == halt(s, error)
            &&& next(halted, after.event, after.reading) == (halted, told)
        }),
{
}

/// The first frame of a run is never stored, whatever it holds. When it is
/// taken the driver is told to let the camera settle, which happens after no
/// other frame; and a frame that is stored is at least the second that the
/// run has taken.
pub proof fn law_first_frame_is_set_aside(
    interval_seconds: u64,
    output_directory: Seq<char>,
    inputs: Seq<Input>,
    i: int,
)
    requires
        0 <= i < inputs.len(),
    ensures
        ({
            let run = fresh(interval_seconds, output_directory);
            let frames = frames_before(run, inputs, i);
            &&& frame_at(run, inputs, i) && frames == 0 ==> action_at(run, inputs, i)
                == (ActionView::Sleep { seconds: GRACE_SECONDS })
            &&& state_at(run, inputs, i).phase is Settling ==> frames == 1
            &&& action_at(run, inputs, i) is Persist ==> frames >= 2
        }),
{
    lemma_frames_counted(fresh(interval_seconds, output_directory), inputs, i);
}

/// After the first frame, a frame without width leaves no file: the driver is
/// told to rest for the interval, once, and then to read the next frame.
/// Nothing of the run changes by it.
pub proof fn law_frame_without_width_is_skipped(
    s: ControllerView,
    width: i32,
    reading: ClockReading,
    after: Input,
)
    requires
        s.phase is Reading,
        s.session.warmed_up,
        width <= 0,
    ensures
        ({
            let (resting, rest) = next(s, Event::Frame { width }, reading);
            let (reading_again, read) = next(resting, after.event, after.reading);
            &&& rest == (ActionView::Sleep { seconds: s.session.interval_seconds })
            &&& read == ActionView::Read
            &&& reading_again == s
        }),
{
}

/// A frame is stored only if it was accepted: three steps before, a frame
/// with width was read, not the first of the run, and the clock showed a
/// moment. The number of that moment names the file.
pub proof fn law_only_accepted_frames_are_stored(
    interval_seconds: u64,
    output_directory: Seq<char>,
    inputs: Seq<Input>,
    i: int,
)
    requires
        0 <= i < inputs.len(),
        action_at(fresh(interval_seconds, output_directory), inputs, i) is Persist,
    ensures
        ({
            let run = fresh(interval_seconds, output_directory);
            &&& i >= 3
            &&& frame_at(run, inputs, i - 3)
            &&& state_at(run, inputs, i - 3).session.warmed_up
            &&& inputs[i - 3].event matches Event::Frame { width }
            &&& width > 0
            &&& moment_of(inputs[i - 3].reading) matches Some(stamp)
            &&& action_at(run, inputs, i) == (ActionView::Persist {
                path: path_text(output_directory, stamp.nanos as int),
            })
        }),
{
    let run = fresh(interval_seconds, output_directory);
    lemma_settings_stay(run, inputs, i);
    assert(state_at(run, inputs, i).phase is Captioning);
    assert(i >= 1);
    assert(state_at(run, inputs, i - 1).phase is Bannering);
    assert(i >= 2);
    assert(state_at(run, inputs, i - 2).phase is Measuring);
    assert(i >= 3);
    assert(state_at(run, inputs, i - 3).phase is Reading);
}

/// A frame is stored only after it has been annotated: the two steps before
/// tell the driver to paint the banner, as wide as the camera has just said
/// that its frames are, and then to draw the caption. The caption shows the
/// moment whose number names the file.
pub proof fn law_stored_frames_are_annotated(
    interval_seconds: u64,
    output_directory: Seq<char>,
    inputs: Seq<Input>,
    i: int,
)
    requires
        0 <= i < inputs.len(),
        action_at(fresh(interval_seconds, output_directory), inputs, i) is Persist,
    ensures
        ({
            let run = fresh(interval_seconds, output_directory);
            &&& i >= 2
            &&& state_at(run, inputs, i).phase matches PhaseView::Captioning { stamp }
            &&& inputs[i - 2].event matches Event::Width { reported }
            &&& action_at(run, inputs, i - 2) == ActionView::FillBanner(banner_across(reported))
            &&& action_at(run, inputs, i - 1) == ActionView::DrawCaption(
                caption_of(rfc2822_text(stamp.nanos, stamp.offset_seconds)),
            )
            &&& action_at(run, inputs, i) == (ActionView::Persist {
                path: path_text(output_directory, stamp.nanos as int),
            })
        }),
{
    let run = fresh(interval_seconds, output_directory);
    lemma_settings_stay(run, inputs, i);
    assert(state_at(run, inputs, i).phase is Captioning);
    assert(i >= 1);
    assert(state_at(run, inputs, i - 1).phase is Bannering);
    assert(i >= 2);
    assert(state_at(run, inputs, i - 2).phase is Measuring);
}

/// Between two frames that are stored the camera rests: right after the first
/// of them is stored, the driver is told to rest for the whole interval.
pub proof fn law_rest_between_stored_frames(
    interval_seconds: u64,
    output_directory: Seq<char>,
    inputs: Seq<Input>,
    i: int,
    j: int,
)
    requires
        0 <= i < j < inputs.len(),
        action_at(fresh(interval_seconds, output_directory), inputs, i) is Persist,
        action_at(fresh(interval_seconds, output_directory), inputs, j) is Persist,
    ensures
        i + 1 < j,
        action_at(fresh(interval_seconds, output_directory), inputs, i + 1)
            == (ActionView::Sleep { seconds: interval_seconds }),
{
    let run = fresh(interval_seconds, output_directory);
    lemma_settings_stay(run, inputs, i + 1);
    assert(state_at(run, inputs, i + 1).phase is Persisting);
    if !(inputs[i + 1].event is Completed) {
        assert(state_at(run, inputs, i + 2).phase is Halted);
        lemma_halted_stays(run, inputs, i + 2, j);
    }
}

} // verus!
