use vstd::prelude::*;
use crate::crop::fragment_file;
use crate::error::CaptureError;
use crate::metrics::{directive_for, lemma_exact_multiple, lemma_single_step, lemma_steps_cover};
use crate::dom::{hide_script, show_script};
use crate::session::{
    events_left, lemma_next_wf, lemma_session_ends, next, Action, Event, Phase, SessionView,
};
use crate::text::spec_is_blank;
use crate::wait::{hidden_wait_next, PollEvent, PollTiming, WaitAction};

verus! {

/// The session after it was given `events`, one after the other.
pub open spec fn run(start: SessionView, events: Seq<Event>) -> SessionView
    decreases events.len(),
{
    if events.len() == 0 {
        start
    } else {
        next(run(start, events.drop_last()), events.last()).0
    }
}

/// How often the session asked for `wanted` while it was given `events`.
pub open spec fn asked(start: SessionView, events: Seq<Event>, wanted: Action) -> nat
    decreases events.len(),
{
    if events.len() == 0 {
        0
    } else {
        let before = asked(start, events.drop_last(), wanted);
        if next(run(start, events.drop_last()), events.last()).1 == wanted {
            before + 1
        } else {
            before
        }
    }
}

/// Every scroll that the events report moved the page.
pub open spec fn scrolls_move(start: SessionView, events: Seq<Event>) -> bool
    decreases events.len(),
{
    events.len() == 0 || (scrolls_move(start, events.drop_last()) && match (
        run(start, events.drop_last()).phase,
        events.last(),
    ) {
        (Phase::Scrolling { index, from }, Event::Scrolled(Some(offset))) => offset != from,
        _ => true,
    })
}

/// A session that has not begun.
pub open spec fn fresh(start: SessionView) -> bool {
    start.wf() && start.phase == Phase::Init
}

/// The session ended, or is about to end, on an error of a snapshot: it was
/// not taken, or could not be cropped.
pub open spec fn snapshot_failed(state: SessionView) -> bool {
    state.failure == Some(CaptureError::Capture) || state.failure == Some(CaptureError::Decode)
        || state.failure == Some(CaptureError::CropBounds) || state.failure == Some(
        CaptureError::Encode,
    )
}

/// The session is past its first scroll.
pub open spec fn past_first_scroll(state: SessionView) -> bool {
    match state.phase {
        Phase::Init => false,
        Phase::Measuring => false,
        Phase::CaptureStep { index } => index >= 2,
        Phase::Scrolling { index, from } => index >= 2,
        _ => true,
    }
}

/// The restoring has begun.
pub open spec fn restoring_begun(state: SessionView) -> bool {
    state.phase is Restoring || state.phase is Done || state.phase is Failed
}

/// What holds of a session after any events, counted from its beginning.
pub open spec fn counted(start: SessionView, events: Seq<Event>) -> bool {
    let end = run(start, events);
    &&& end.wf()
    &&& asked(start, events, Action::Show) == if restoring_begun(end) {
        1nat
    } else {
        0nat
    }
    &&& asked(start, events, Action::Hide) <= 1
    &&& end.failure is None ==> asked(start, events, Action::Hide) == if past_first_scroll(end) {
        1nat
    } else {
        0nat
    }
    &&& asked(start, events, Action::Capture) == end.fragments.len() + if end.phase
        is CaptureStep || snapshot_failed(end) {
        1nat
    } else {
        0nat
    }
    &&& !(end.phase is CaptureStep) ==> (end.failure == Some(CaptureError::Measurement)
        ==> end.fragments.len() == 0)
    &&& end.phase is CaptureStep || end.phase is Scrolling || end.phase is Hiding
        || end.phase is Init || end.phase is Measuring ==> end.failure is None
    &&& scrolls_move(start, events) ==> {
        &&& end.phase matches Phase::Hiding { from } ==> end.offset != from
        &&& restoring_begun(end) && end.failure is None ==> end.fragments.len() == end.steps()
    }
}

/// A snapshot that does not become a fragment fails to decode, is too low
/// for its crop, or cannot be encoded.
pub proof fn lemma_fragment_errors(
    data: Seq<u8>,
    directive: (Option<nat>, nat),
    numer: nat,
    denom: nat,
)
    ensures
        fragment_file(data, directive, numer, denom) matches Err(failure) ==> failure.error
            == CaptureError::Decode || failure.error == CaptureError::CropBounds || failure.error
            == CaptureError::Encode,
{
}

/// From its beginning on, a session asks for the elements to be shown again
/// exactly when it begins to restore, hides them at most once, and has asked
/// for one snapshot for each fragment it holds, and one more while it waits
/// for a snapshot or after one failed.
pub proof fn lemma_counted(start: SessionView, events: Seq<Event>)
    requires
        fresh(start),
    ensures
        counted(start, events),
    decreases events.len(),
{
    if events.len() == 0 {
        assert(start.steps() == 0);
    } else {
        let before = events.drop_last();
        let event = events.last();
        lemma_counted(start, before);
        let state = run(start, before);
        lemma_next_wf(state, event);
        match state.metrics {
            Some((total, viewport)) => {
                lemma_steps_cover(total, viewport);
                match (state.phase, event) {
                    (Phase::CaptureStep { index }, Event::Snapshot(Some(data))) => {
                        lemma_fragment_errors(
                            data@,
                            directive_for(total, viewport, index as nat),
                            state.numer,
                            state.denom,
                        );
                    },
                    _ => {},
                }
            },
            None => {},
        }
    }
}

/// A session that ends well after scrolls that all moved the page has taken
/// every step planned: it asked for as many snapshots as there are steps and
/// holds as many fragments. For a page of exactly `count` viewports that is
/// `count`. It asked once for the elements to be hidden and once for them to
/// be shown again.
pub proof fn lemma_full_run(start: SessionView, events: Seq<Event>, count: nat)
    requires
        fresh(start),
        run(start, events).phase == Phase::Done,
        scrolls_move(start, events),
    ensures
        run(start, events).fragments.len() == run(start, events).steps(),
        asked(start, events, Action::Capture) == run(start, events).steps(),
        asked(start, events, Action::Hide) == 1,
        asked(start, events, Action::Show) == 1,
        run(start, events).metrics matches Some((total, viewport)) && (count > 0 && total == count
            * viewport ==> run(start, events).fragments.len() == count),
{
    lemma_counted(start, events);
    let end = run(start, events);
    let (total, viewport) = end.metrics->Some_0;
    if count > 0 && total == count * viewport {
        lemma_exact_multiple(count, viewport);
    }
}

/// A session on a page that fits in one viewport, if it ends well, asked for
/// exactly one snapshot and holds exactly one fragment, whatever the scroll
/// after it reported.
pub proof fn lemma_single_viewport_run(start: SessionView, events: Seq<Event>)
    requires
        fresh(start),
        run(start, events).phase == Phase::Done,
        run(start, events).metrics matches Some((total, viewport)) && total <= viewport,
    ensures
        run(start, events).fragments.len() == 1,
        asked(start, events, Action::Capture) == 1,
        asked(start, events, Action::Hide) == 1,
        asked(start, events, Action::Show) == 1,
{
    lemma_counted(start, events);
    let end = run(start, events);
    let (total, viewport) = end.metrics->Some_0;
    lemma_single_step(total, viewport);
}

/// Every event in `events` that the session takes reports a success: a page
/// with a height, a snapshot that becomes a fragment, a scroll that came to
/// rest.
pub open spec fn events_succeed(start: SessionView, events: Seq<Event>) -> bool
    decreases events.len(),
{
    events.len() == 0 || (events_succeed(start, events.drop_last()) && {
        let state = run(start, events.drop_last());
        next(state, events.last()).0.failure is None
    })
}

/// While every event reports a success the session does not fail. The
/// visibility of the elements plays no part in that: whether hiding and
/// showing were confirmed or not, the session goes on.
pub proof fn lemma_successful_run(start: SessionView, events: Seq<Event>)
    requires
        fresh(start),
        events_succeed(start, events),
    ensures
        run(start, events).failure is None,
        !(run(start, events).phase is Failed),
    decreases events.len(),
{
    lemma_counted(start, events);
    if events.len() > 0 {
        lemma_successful_run(start, events.drop_last());
    }
}

/// How many of `events` the session took, that is, did not reject.
pub open spec fn taken(start: SessionView, events: Seq<Event>) -> nat
    decreases events.len(),
{
    if events.len() == 0 {
        0
    } else {
        let before = taken(start, events.drop_last());
        if next(run(start, events.drop_last()), events.last()).1 == Action::Rejected {
            before
        } else {
            before + 1
        }
    }
}

/// A session comes to its end: it takes no more than three events for each
/// step planned and seven more, so a caller who answers each action with its
/// event is done after that many.
pub proof fn lemma_run_is_bounded(start: SessionView, events: Seq<Event>)
    requires
        fresh(start),
    ensures
        taken(start, events) + events_left(run(start, events)) <= 3 * run(start, events).steps()
            + 7,
        run(start, events).wf(),
    decreases events.len(),
{
    if events.len() == 0 {
        assert(start.steps() == 0);
    } else {
        let before = events.drop_last();
        let event = events.last();
        lemma_run_is_bounded(start, before);
        let state = run(start, before);
        lemma_next_wf(state, event);
        if next(state, event).1 != Action::Rejected {
            if state.metrics is Some {
                lemma_session_ends(state, event);
            } else {
                let after = next(state, event).0;
                match after.metrics {
                    Some((total, viewport)) => {
                        lemma_steps_cover(total, viewport);
                    },
                    None => {},
                }
            }
        }
    }
}

/// With blank selectors a session whose events all report a success ends
/// well once it ends. It asks once for the elements to be hidden and once
/// for them to be shown again, and neither sends a script to the remote
/// surface; the wait for either is over at its first round.
pub proof fn lemma_blank_selectors_run(
    start: SessionView,
    events: Seq<Event>,
    selectors: Seq<char>,
    elapsed_ms: u64,
    timing: PollTiming,
)
    requires
        fresh(start),
        events_succeed(start, events),
        events_left(run(start, events)) == 0,
        spec_is_blank(selectors),
    ensures
        run(start, events).phase == Phase::Done,
        run(start, events).fragments.len() >= 1,
        asked(start, events, Action::Hide) == 1,
        asked(start, events, Action::Show) == 1,
        hide_script(selectors) is None,
        show_script(selectors) is None,
        hidden_wait_next(selectors, PollEvent::Tick { elapsed_ms }, timing) == WaitAction::Done,
{
    lemma_counted(start, events);
    lemma_successful_run(start, events);
}

} // verus!
