//! Laws of the session, proved over its model.

use vstd::prelude::*;
use crate::error::ErrorView;
use crate::frame::{DeliveryView, EngineFrameView, FrameView};
use crate::options::CaptureOptions;
use crate::session::{AnswersView, CaptureView, Step, next_epoch};
use crate::source::{CapturableSource, SelectorView};

verus! {

/// With no window name, no window handle and no display id, opening fails
/// for want of a selector, whatever the engine answered.
pub proof fn lemma_no_selector_is_refused(options: CaptureOptions, answers: AnswersView)
    ensures
        CaptureView::opened(SelectorView::select(None, None, None), options, answers) == Err::<
            CaptureView,
            ErrorView,
        >(ErrorView::NoSelector),
{
}

/// With a window name that the search did not find, opening fails with
/// that very name, whatever else was given or answered.
pub proof fn lemma_unmatched_name_is_reported(
    name: Seq<char>,
    window_handle: Option<i32>,
    display_id: Option<i32>,
    options: CaptureOptions,
    answers: AnswersView,
)
    requires
        answers.window is None,
    ensures
        CaptureView::opened(
            SelectorView::select(Some(name), window_handle, display_id),
            options,
            answers,
        ) == Err::<CaptureView, ErrorView>(ErrorView::WindowNotFound(name)),
{
}

/// A window name outranks the other selectors: with a name given, neither
/// the window handle, nor the display id, nor what the engine says of the
/// display changes the outcome.
pub proof fn lemma_window_name_wins(
    name: Seq<char>,
    options: CaptureOptions,
    handle_a: Option<i32>,
    display_a: Option<i32>,
    answers_a: AnswersView,
    handle_b: Option<i32>,
    display_b: Option<i32>,
    answers_b: AnswersView,
)
    requires
        answers_a.window == answers_b.window,
        answers_a.build == answers_b.build,
    ensures
        CaptureView::opened(SelectorView::select(Some(name), handle_a, display_a), options, answers_a)
            == CaptureView::opened(
            SelectorView::select(Some(name), handle_b, display_b),
            options,
            answers_b,
        ),
        answers_a.window matches Some(handle) ==> CaptureView::opened(
            SelectorView::select(Some(name), handle_a, display_a),
            options,
            answers_a,
        ) == CaptureView::built(CapturableSource::Window { handle }, options, answers_a.build),
{
}

/// Without a window name, a window handle outranks a display id: the
/// display id and what the engine says of windows by name and of the
/// display do not change the outcome.
pub proof fn lemma_window_handle_wins(
    raw: i32,
    options: CaptureOptions,
    display_a: Option<i32>,
    answers_a: AnswersView,
    display_b: Option<i32>,
    answers_b: AnswersView,
)
    requires
        answers_a.build == answers_b.build,
    ensures
        CaptureView::opened(SelectorView::select(None, Some(raw), display_a), options, answers_a)
            == CaptureView::opened(
            SelectorView::select(None, Some(raw), display_b),
            options,
            answers_b,
        ),
{
}

/// No run of operations changes what a session captures or the options it
/// was built with.
pub proof fn lemma_source_and_options_are_fixed(session: CaptureView, steps: Seq<Step>)
    ensures
        session.run(steps).source == session.source,
        session.run(steps).options == session.options,
    decreases steps.len(),
{
    if steps.len() > 0 {
        lemma_source_and_options_are_fixed(session, steps.drop_last());
    }
}

/// As long as no start has succeeded, a session is exactly as it was built:
/// stops do nothing, grabs fail at once, and refused starts leave no trace.
pub proof fn lemma_unstarted_session_is_untouched(session: CaptureView, steps: Seq<Step>)
    requires
        session.state is Created,
        forall|i: int| 0 <= i < steps.len() ==> !(#[trigger] steps[i]).starts(),
    ensures
        session.run(steps) == session,
    decreases steps.len(),
{
    if steps.len() > 0 {
        lemma_unstarted_session_is_untouched(session, steps.drop_last());
        assert(!steps.last().starts());
    }
}

/// A session that has left `Created` never comes back to it.
pub proof fn lemma_created_is_not_reentered(session: CaptureView, steps: Seq<Step>)
    requires
        !(session.state is Created),
    ensures
        !(session.run(steps).state is Created),
    decreases steps.len(),
{
    if steps.len() > 0 {
        lemma_created_is_not_reentered(session, steps.drop_last());
    }
}

/// Stopping a session that was never started succeeds and leaves it as it
/// is, whatever is handed in as the engine's answer, and whatever was tried
/// on the session before short of a successful start.
pub proof fn lemma_stop_before_start(
    session: CaptureView,
    steps: Seq<Step>,
    teardown: Result<(), Seq<char>>,
)
    requires
        session.state is Created,
        forall|i: int| 0 <= i < steps.len() ==> !(#[trigger] steps[i]).starts(),
    ensures
        session.run(steps).stop(teardown) == (session, Ok::<(), ErrorView>(())),
{
    lemma_unstarted_session_is_untouched(session, steps);
}

/// After any stop, a second stop succeeds and changes nothing. The first
/// stop itself succeeds unless the session ran and the engine's teardown failed.
pub proof fn lemma_stop_twice(
    session: CaptureView,
    first: Result<(), Seq<char>>,
    second: Result<(), Seq<char>>,
)
    ensures
        !(session.stop(first).0.state is Started),
        session.stop(first).0.stop(second) == (session.stop(first).0, Ok::<(), ErrorView>(())),
        session.stop(first).1 is Err <==> session.state is Started && first is Err,
{
}

/// A running session keeps running through any number of grabs, whatever
/// is delivered.
pub proof fn lemma_grabbing_keeps_running(session: CaptureView, grabs: Seq<Step>)
    requires
        session.state is Started,
        forall|i: int| 0 <= i < grabs.len() ==> #[trigger] grabs[i] is Grab,
    ensures
        session.run(grabs).state is Started,
    decreases grabs.len(),
{
    if grabs.len() > 0 {
        lemma_grabbing_keeps_running(session, grabs.drop_last());
        assert(grabs.last() is Grab);
    }
}

/// In a running session, after any number of grabs, the next grab answers
/// in kind: a delivered frame comes back as a frame with a width and a
/// height above zero, the end of the stream as no frame and never as a
/// failure, and only a broken channel as a failure.
pub proof fn lemma_grabs_while_started(
    session: CaptureView,
    grabs: Seq<Step>,
    delivery: DeliveryView,
)
    requires
        session.state is Started,
        forall|i: int| 0 <= i < grabs.len() ==> #[trigger] grabs[i] is Grab,
        delivery.valid(),
    ensures
        match session.run(grabs).grab(delivery).1 {
            Ok(Some(frame)) => delivery is Frame && frame.width > 0 && frame.height > 0,
            Ok(None) => delivery is EndOfStream,
            Err(error) => delivery is ChannelBroken && error == ErrorView::FrameChannel,
        },
{
    lemma_grabbing_keeps_running(session, grabs);
}

/// What a frame's memory reference is follows from the session's options
/// alone: with processor access it is the address of the mapped buffer, to
/// be read for one stride per row; without, it is the texture reference,
/// and nothing is to be read through it.
pub proof fn lemma_memory_follows_cpu_access(
    session: CaptureView,
    delivered: EngineFrameView,
)
    requires
        session.state is Started,
    ensures
        session.grab(DeliveryView::Frame(delivered)).1 matches Ok(Some(frame))
            && frame.cpu_mapped == session.options.cpu_access
            && frame.width == delivered.width
            && frame.height == delivered.height
            && frame.row_pitch == delivered.row_pitch
            && (session.options.cpu_access ==> frame.memory_reference == delivered.mapped
            && frame.mapped_len() == delivered.height * delivered.row_pitch)
            && (!session.options.cpu_access ==> frame.memory_reference == delivered.texture),
{
}

/// The next epoch is never the same epoch.
pub proof fn lemma_next_epoch_differs(epoch: nat)
    ensures
        next_epoch(epoch) != epoch,
{
}

/// A frame is current right after the grab that gave it, and no frame that
/// was current before a grab is current after it.
pub proof fn lemma_grab_replaces_current_frame(
    session: CaptureView,
    delivery: DeliveryView,
    earlier: FrameView,
)
    requires
        session.is_current(earlier),
    ensures
        !session.grab(delivery).0.is_current(earlier),
        session.grab(delivery).1 matches Ok(Some(frame)) ==> session.grab(delivery).0.is_current(
            frame,
        ),
{
}

/// After a stop no frame is current, and a frame grabbed before the stop
/// does not become current again when the session is restarted.
pub proof fn lemma_stop_invalidates_frames(
    session: CaptureView,
    teardown: Result<(), Seq<char>>,
    restart: Result<(), Seq<char>>,
    frame: FrameView,
)
    ensures
        !session.stop(teardown).0.is_current(frame),
        session.is_current(frame) ==> !session.stop(teardown).0.start(restart).0.is_current(frame),
{
}

/// Starting does not depend on where the session is: if the engine agrees
/// the session runs, from `Created` and from `Stopped` alike, and if the
/// engine refuses the session is exactly as before.
pub proof fn lemma_start_outcomes(session: CaptureView, outcome: Result<(), Seq<char>>)
    ensures
        outcome is Ok ==> session.start(outcome).0.state is Started && session.start(outcome).1
            is Ok,
        outcome is Err ==> session.start(outcome).0 == session && session.start(outcome).1
            == Err::<(), ErrorView>(ErrorView::Windows(outcome->Err_0)),
        session.start(outcome).0.source == session.source,
        session.start(outcome).0.options == session.options,
        session.start(outcome).0.epoch == session.epoch,
{
}

} // verus!
