use vstd::prelude::*;
use crate::codec::file_is;
use crate::compose::{combine_screenshots, combined_file, file_views};
use crate::crop::{crop_fragment, fragment_file};
use crate::density::DensityScale;
use crate::error::{plain, CaptureError, CaptureFailure, FailedView};
use crate::metrics::{
    directive_for, get_page_metrics, lemma_steps_cover, reported, scroll_for, steps_for,
    PageMetrics,
};

verus! {

/// Where a capture session stands.
#[derive(Clone, Copy, Debug, PartialEq, Eq, Structural)]
pub enum Phase {
    /// Nothing has been asked of the remote surface yet.
    Init,
    /// The page geometry has been asked for.
    Measuring,
    /// The snapshot of step `index` (counted from 1) has been asked for.
    CaptureStep { index: u32 },
    /// After step `index` a scroll was issued from the offset `from`.
    Scrolling { index: u32, from: u32 },
    /// After the first scroll, which was issued from the offset `from`, the
    /// chosen elements are being hidden.
    Hiding { from: u32 },
    /// The hidden elements are being shown again.
    Restoring,
    /// The session ended with its fragments.
    Done,
    /// The session ended on an error.
    Failed(CaptureError),
}

/// What the remote surface answered.
#[derive(Debug)]
pub enum Event {
    /// The caller starts the session.
    Start,
    /// The probe's answer: scroll height and inner height; nothing where the
    /// remote call failed.
    Measured(Option<(Option<i64>, Option<i64>)>),
    /// The encoded snapshot; nothing where the capture failed.
    Snapshot(Option<Vec<u8>>),
    /// The offset at which the scroll came to rest; nothing where it never
    /// did within the timeout.
    Scrolled(Option<u32>),
    /// Whether hiding was confirmed within the timeout.
    Hidden(bool),
    /// Whether showing again went through.
    Restored(bool),
}

/// What the caller is to do next.
#[derive(Clone, Copy, Debug, PartialEq, Eq, Structural)]
pub enum Action {
    /// Measure the page.
    Measure,
    /// Take a snapshot of the viewport.
    Capture,
    /// Scroll down by `amount` logical rows, wait until the position is
    /// stable and report it.
    Scroll { amount: u32 },
    /// Hide the chosen elements and wait for the confirmation.
    Hide,
    /// Show the chosen elements again.
    Show,
    /// The session is over; its fragments are ready.
    Finished,
    /// The session is over; it failed.
    Failed(CaptureError),
    /// The event does not belong to the session's phase; nothing changed.
    Rejected,
}

/// A session as plain values.
pub struct SessionView {
    pub phase: Phase,
    pub numer: nat,
    pub denom: nat,
    pub metrics: Option<(nat, nat)>,
    pub offset: nat,
    pub fragments: Seq<Seq<u8>>,
    pub failure: Option<CaptureError>,
    /// What the picture codec said of the failure, where it came from there.
    pub reason: Seq<char>,
    pub hide_confirmed: bool,
}

impl SessionView {
    /// Steps planned for the measured page; none before the measurement.
    pub open spec fn steps(self) -> nat {
        match self.metrics {
            Some((total, viewport)) => steps_for(total, viewport),
            None => 0,
        }
    }

    /// What holds of a session in every phase.
    pub open spec fn wf(self) -> bool {
        &&& self.numer > 0
        &&& self.denom > 0
        &&& self.offset <= u32::MAX
        &&& self.fragments.len() <= self.steps()
        &&& match self.metrics {
            Some((total, viewport)) => 0 < total <= u32::MAX && 0 < viewport <= u32::MAX,
            None => true,
        }
        &&& match self.phase {
            Phase::Init => self.metrics is None && self.failure is None,
            Phase::Measuring => self.metrics is None && self.failure is None,
            Phase::CaptureStep { index } => {
                &&& self.metrics is Some
                &&& self.failure is None
                &&& 1 <= index <= self.steps()
                &&& self.fragments.len() == index - 1
            },
            Phase::Scrolling { index, from } => {
                &&& self.metrics is Some
                &&& self.failure is None
                &&& 1 <= index <= self.steps()
                &&& self.fragments.len() == index
                &&& from == self.offset
            },
            Phase::Hiding { from } => {
                &&& self.metrics is Some
                &&& self.failure is None
                &&& self.fragments.len() == 1
            },
            Phase::Restoring => self.failure is None ==> self.metrics is Some
                && self.fragments.len() >= 1,
            Phase::Done => self.failure is None && self.metrics is Some && self.fragments.len()
                >= 1,
            Phase::Failed(error) => self.failure == Some(error),
        }
    }

    /// This session with the hidden elements being restored, on the way to
    /// its end; `failure` is the error it will end on, if any.
    pub open spec fn restoring(self, failure: Option<CaptureError>) -> SessionView {
        SessionView { phase: Phase::Restoring, failure, ..self }
    }
}

/// The session and the action that follow `event` in the session `state`.
///
/// The page is measured, then each step takes a snapshot, crops it, keeps it
/// and scrolls on. The elements are hidden once, after the first scroll has
/// come to rest. A scroll that moves nothing ends the loop early. However the
/// loop ends, by its last step, by exhaustion or by an error, the elements
/// are shown again before the session is over.
pub open spec fn next(state: SessionView, event: Event) -> (SessionView, Action) {
    match (state.phase, event) {
        (Phase::Init, Event::Start) => (
            SessionView { phase: Phase::Measuring, ..state },
            Action::Measure,
        ),
        (Phase::Measuring, Event::Measured(answer)) => match answer {
            Some((total, inner)) => if reported(total) > 0 && reported(inner) > 0 {
                (
                    SessionView {
                        phase: Phase::CaptureStep { index: 1 },
                        metrics: Some((reported(total), reported(inner))),
                        ..state
                    },
                    Action::Capture,
                )
            } else {
                (state.restoring(Some(CaptureError::Measurement)), Action::Show)
            },
            None => (state.restoring(Some(CaptureError::Measurement)), Action::Show),
        },
        (Phase::CaptureStep { index }, Event::Snapshot(snapshot)) => match (
            snapshot,
            state.metrics,
        ) {
            (Some(data), Some((total, viewport))) => match fragment_file(
                data@,
                directive_for(total, viewport, index as nat),
                state.numer,
                state.denom,
            ) {
                Ok(fragment) => (
                    SessionView {
                        phase: Phase::Scrolling { index, from: state.offset as u32 },
                        fragments: state.fragments.push(fragment),
                        ..state
                    },
                    Action::Scroll {
                        amount: scroll_for(total, viewport, state.offset) as u32,
                    },
                ),
                Err(failure) => (
                    SessionView { reason: failure.reason, ..state.restoring(Some(failure.error)) },
                    Action::Show,
                ),
            },
            _ => (state.restoring(Some(CaptureError::Capture)), Action::Show),
        },
        (Phase::Scrolling { index, from }, Event::Scrolled(position)) => match position {
            None => (state.restoring(Some(CaptureError::ScrollTimeout)), Action::Show),
            Some(offset) => if index == 1 {
                (
                    SessionView { phase: Phase::Hiding { from }, offset: offset as nat, ..state },
                    Action::Hide,
                )
            } else if offset == from || index as nat >= state.steps() {
                (SessionView { offset: offset as nat, ..state.restoring(None) }, Action::Show)
            } else {
                (
                    SessionView {
                        phase: Phase::CaptureStep { index: (index + 1) as u32 },
                        offset: offset as nat,
                        ..state
                    },
                    Action::Capture,
                )
            },
        },
        (Phase::Hiding { from }, Event::Hidden(confirmed)) => if state.offset == from
            || state.steps() <= 1 {
            (SessionView { hide_confirmed: confirmed, ..state.restoring(None) }, Action::Show)
        } else {
            (
                SessionView {
                    phase: Phase::CaptureStep { index: 2 },
                    hide_confirmed: confirmed,
                    ..state
                },
                Action::Capture,
            )
        },
        (Phase::Restoring, Event::Restored(_)) => match state.failure {
            Some(error) => (SessionView { phase: Phase::Failed(error), ..state }, Action::Failed(error)),
            None => (SessionView { phase: Phase::Done, ..state }, Action::Finished),
        },
        _ => (state, Action::Rejected),
    }
}

/// What a session has to show for itself: the encoded composite of its
/// fragments where it ended well, its error where it failed, and nothing
/// while it is still under way.
pub open spec fn outcome(state: SessionView) -> Option<Result<Seq<u8>, FailedView>> {
    match state.phase {
        Phase::Done => Some(combined_file(state.fragments)),
        Phase::Failed(error) => Some(Err(FailedView { error, reason: state.reason })),
        _ => None,
    }
}

/// A well-formed session stays well formed whatever happens.
pub proof fn lemma_next_wf(state: SessionView, event: Event)
    requires
        state.wf(),
    ensures
        next(state, event).0.wf(),
{
    match state.metrics {
        Some((total, viewport)) => {
            lemma_steps_cover(total, viewport);
        },
        None => {},
    }
    match (state.phase, event) {
        (Phase::Measuring, Event::Measured(Some((total, inner)))) => {
            if reported(total) > 0 && reported(inner) > 0 {
                lemma_steps_cover(reported(total), reported(inner));
            }
        },
        _ => {},
    }
}

/// How many more events a measured session can take before it is over, at
/// the most.
pub open spec fn events_left(state: SessionView) -> nat {
    let steps = state.steps();
    match state.phase {
        Phase::Init => 3 * steps + 7,
        Phase::Measuring => 3 * steps + 6,
        Phase::CaptureStep { index } => (3 * (steps - index) + 5) as nat,
        Phase::Scrolling { index, from } => (3 * (steps - index) + 4) as nat,
        Phase::Hiding { from } => (3 * (steps - 1) + 3) as nat,
        Phase::Restoring => 1,
        Phase::Done => 0,
        Phase::Failed(error) => 0,
    }
}

/// A measured session comes to its end: every event that it takes brings it
/// nearer, so after the first snapshot is asked for it takes at most three
/// events for each step and two more.
pub proof fn lemma_session_ends(state: SessionView, event: Event)
    requires
        state.wf(),
        state.metrics is Some,
        next(state, event).1 != Action::Rejected,
    ensures
        events_left(next(state, event).0) < events_left(state),
        next(state, event).0.metrics == state.metrics,
        state.phase == (Phase::CaptureStep { index: 1 }) ==> events_left(state) == 3
            * state.steps() + 2,
        events_left(state) == 0 <==> state.phase is Done || state.phase is Failed,
{
    let (total, viewport) = state.metrics->Some_0;
    lemma_steps_cover(total, viewport);
}

/// A session that ends well holds at least one fragment and at most one for
/// each step planned, so there is something to compose.
pub proof fn lemma_done_has_fragments(state: SessionView)
    requires
        state.wf(),
        state.phase == Phase::Done,
    ensures
        1 <= state.fragments.len() <= state.steps(),
        state.failure is None,
{
}

/// A page that fits in one viewport is planned as a single step, and once it
/// is measured no further snapshot is asked for: the session holds at most
/// one fragment, and after the scroll that follows it and the hiding the
/// session goes on to restore, whatever they report.
pub proof fn lemma_single_viewport_session(state: SessionView, event: Event)
    requires
        state.wf(),
        state.metrics matches Some((total, viewport)) && total <= viewport,
    ensures
        state.steps() == 1,
        state.fragments.len() <= 1,
        next(state, event).0.fragments.len() <= 1,
        next(state, event).1 != Action::Capture,
        state.phase is Hiding && event is Hidden ==> next(state, event).0.phase
            == Phase::Restoring,
{
    let (total, viewport) = state.metrics->Some_0;
    crate::metrics::lemma_single_step(total, viewport);
    lemma_next_wf(state, event);
}

/// A scroll that leaves the page where it was ends the loop: no further
/// snapshot is taken, the elements are shown again and the session ends
/// without an error, with the fragments it had, one for each step taken.
/// After the first step the elements are still hidden before that, as after
/// every first scroll.
pub proof fn lemma_exhaustion_ends_loop(
    state: SessionView,
    index: u32,
    from: u32,
    confirmed: bool,
    restored: bool,
)
    requires
        state.wf(),
        state.phase == (Phase::Scrolling { index, from }),
    ensures
        ({
            let scrolled = next(state, Event::Scrolled(Some(from)));
            let stopped = if index == 1 {
                next(scrolled.0, Event::Hidden(confirmed))
            } else {
                scrolled
            };
            let ended = next(stopped.0, Event::Restored(restored));
            &&& index == 1 ==> scrolled.1 == Action::Hide
            &&& stopped.1 == Action::Show
            &&& stopped.0.phase == Phase::Restoring
            &&& stopped.0.failure is None
            &&& ended.1 == Action::Finished
            &&& ended.0.phase == Phase::Done
            &&& ended.0.fragments == state.fragments
            &&& ended.0.fragments.len() == index
            &&& index < state.steps() ==> ended.0.fragments.len() < state.steps()
        }),
{
}

/// No session ends before the elements were shown again: the only phase from
/// which a session reaches its end is the restoring one, and every error
/// leads there first.
pub proof fn lemma_restore_before_end(state: SessionView, event: Event)
    requires
        state.wf(),
    ensures
        ({
            let after = next(state, event).0;
            &&& (after.phase is Done || after.phase is Failed) && after.phase != state.phase
                ==> state.phase == Phase::Restoring
            &&& after.failure is Some && state.failure is None ==> after.phase
                == Phase::Restoring && next(state, event).1 == Action::Show
            &&& next(state, event).1 is Failed ==> state.failure == Some(
                next(state, event).1->Failed_0,
            )
        }),
{
}

/// The elements are hidden once in a session: when the first scroll has come
/// to rest, and at no other time. The first fragment is taken before.
pub proof fn lemma_hide_after_first_scroll(state: SessionView, event: Event)
    requires
        state.wf(),
    ensures
        next(state, event).1 == Action::Hide <==> state.phase == (Phase::Scrolling {
            index: 1,
            from: state.offset as u32,
        }) && event is Scrolled && event->Scrolled_0 is Some,
        next(state, event).1 == Action::Hide ==> state.fragments.len() == 1,
{
}

/// Each snapshot that is kept is followed by a scroll of one viewport, or of
/// what is left of the page where that is less.
pub proof fn lemma_scroll_follows_capture(state: SessionView, event: Event)
    requires
        state.wf(),
        next(state, event).1 is Scroll,
    ensures
        state.phase is CaptureStep,
        state.metrics matches Some((total, viewport)) && next(state, event).1->Scroll_amount
            == scroll_for(total, viewport, state.offset),
        next(state, event).0.fragments.len() == state.fragments.len() + 1,
{
    let (total, viewport) = state.metrics->Some_0;
    lemma_steps_cover(total, viewport);
}

/// One capture session: its phase, the geometry once measured, the scroll
/// offset, and the cropped fragments gathered so far, top to bottom.
#[derive(Debug)]
pub struct CaptureSession {
    phase: Phase,
    density: DensityScale,
    metrics: Option<PageMetrics>,
    offset: u32,
    fragments: Vec<Vec<u8>>,
    failure: Option<CaptureError>,
    reason: String,
    hide_confirmed: bool,
}

impl View for CaptureSession {
    type V = SessionView;

    closed spec fn view(&self) -> SessionView {
        SessionView {
            phase: self.phase,
            numer: self.density.spec_numer(),
            denom: self.density.spec_denom(),
            metrics: match self.metrics {
                Some(metrics) => Some((metrics.total(), metrics.viewport())),
                None => None,
            },
            offset: self.offset as nat,
            fragments: file_views(self.fragments@),
            failure: self.failure,
            reason: self.reason@,
            hide_confirmed: self.hide_confirmed,
        }
    }
}

impl CaptureSession {
    #[verifier::type_invariant]
    spec fn inv(self) -> bool {
        self@.wf()
    }

    /// A session that has not begun, for a display of the given density.
    pub fn new(density: DensityScale) -> (session: CaptureSession)
        ensures
            session@.wf(),
            session@ == (SessionView {
                phase: Phase::Init,
                numer: density.spec_numer(),
                denom: density.spec_denom(),
                metrics: None,
                offset: 0,
                fragments: Seq::empty(),
                failure: None,
                reason: Seq::empty(),
                hide_confirmed: false,
            }),
    {
        let numer: u32 = density.numer();
        let denom: u32 = density.denom();
        let session = CaptureSession {
            phase: Phase::Init,
            density,
            metrics: None,
            offset: 0,
            fragments: Vec::new(),
            failure: None,
            reason: String::new(),
            hide_confirmed: false,
        };
        assert(session@.fragments =~= Seq::empty());
        session
    }

    pub fn phase(&self) -> (phase: Phase)
        ensures
            phase == self@.phase,
            self@.wf(),
    {
        proof {
            use_type_invariant(self);
        }
        self.phase
    }

    /// The cropped fragments gathered so far, the topmost first.
    pub fn fragments(&self) -> (fragments: &Vec<Vec<u8>>)
        ensures
            file_views(fragments@) == self@.fragments,
            self@.wf(),
    {
        proof {
            use_type_invariant(self);
        }
        &self.fragments
    }

    /// Ends the session and hands over its fragments.
    pub fn into_fragments(self) -> (fragments: Vec<Vec<u8>>)
        ensures
            file_views(fragments@) == self@.fragments,
    {
        self.fragments
    }

    /// Ends the session and composes its fragments into one image. There is
    /// nothing to hand over while the session is under way.
    pub fn into_composite(self) -> (result: Option<Result<Vec<u8>, CaptureFailure>>)
        ensures
            match result {
                Some(composite) => outcome(self@) is Some && file_is(
                    composite,
                    outcome(self@)->Some_0,
                ),
                None => outcome(self@) is None,
            },
    {
        match self.phase {
            Phase::Done => Some(combine_screenshots(self.fragments)),
            Phase::Failed(error) => Some(Err(CaptureFailure { error, reason: self.reason })),
            _ => None,
        }
    }

    /// The failure that the session failed on or is about to end on, with
    /// the codec's reason where it came from there.
    pub fn failure_with_reason(&self) -> (failure: Option<CaptureFailure>)
        ensures
            match failure {
                Some(found) => self@.failure == Some(found.error) && found.reason@
                    == self@.reason,
                None => self@.failure is None,
            },
    {
        match self.failure {
            Some(error) => Some(CaptureFailure { error, reason: self.reason.clone() }),
            None => None,
        }
    }

    /// The scroll offset last reported.
    pub fn offset(&self) -> (offset: u32)
        ensures
            offset == self@.offset,
    {
        self.offset
    }

    /// The error the session failed on or is about to end on.
    pub fn failure(&self) -> (failure: Option<CaptureError>)
        ensures
            failure == self@.failure,
    {
        self.failure
    }

    /// Whether hiding the elements was confirmed.
    pub fn hide_confirmed(&self) -> (confirmed: bool)
        ensures
            confirmed == self@.hide_confirmed,
    {
        self.hide_confirmed
    }

    /// The number of steps planned, once the page is measured.
    pub fn step_count(&self) -> (steps: Option<u32>)
        ensures
            match steps {
                Some(count) => self@.metrics is Some && count == self@.steps(),
                None => self@.metrics is None,
            },
    {
        match &self.metrics {
            Some(metrics) => Some(metrics.step_count()),
            None => None,
        }
    }
}

/// Advances a capture session by one event and says what to do next.
pub fn capture_full_page(session: CaptureSession, event: Event) -> (out: (CaptureSession, Action))
    ensures
        out.0@ == next(session@, event).0,
        out.1 == next(session@, event).1,
        out.0@.wf(),
{
    proof {
        use_type_invariant(&session);
        lemma_next_wf(session@, event);
    }
    let CaptureSession {
        phase,
        density,
        metrics,
        offset,
        fragments,
        failure,
        reason,
        hide_confirmed,
    } = session;
    let mut fragments = fragments;
    match (phase, event) {
        (Phase::Init, Event::Start) => (
            CaptureSession {
                phase: Phase::Measuring,
                density,
                metrics,
                offset,
                fragments,
                failure,
                reason,
                hide_confirmed,
            },
            Action::Measure,
        ),
        (Phase::Measuring, Event::Measured(Some((total, inner)))) => {
            match get_page_metrics(total, inner) {
                Ok(measured) => (
                    CaptureSession {
                        phase: Phase::CaptureStep { index: 1 },
                        density,
                        metrics: Some(measured),
                        offset,
                        fragments,
                        failure,
                        reason,
                        hide_confirmed,
                    },
                    Action::Capture,
                ),
                Err(error) => (
                    CaptureSession {
                        phase: Phase::Restoring,
                        density,
                        metrics,
                        offset,
                        fragments,
                        failure: Some(error),
                        reason,
                        hide_confirmed,
                    },
                    Action::Show,
                ),
            }
        },
        (Phase::Measuring, Event::Measured(None)) => (
            CaptureSession {
                phase: Phase::Restoring,
                density,
                metrics,
                offset,
                fragments,
                failure: Some(CaptureError::Measurement),
                reason,
                hide_confirmed,
            },
            Action::Show,
        ),
        (Phase::CaptureStep { index }, Event::Snapshot(snapshot)) => {
            match (snapshot, metrics) {
                (Some(data), Some(measured)) => {
                    let directive = measured.crop_directive(index);
                    match crop_fragment(data.as_slice(), directive, &density) {
                        Ok(fragment) => {
                            let amount: u32 = measured.scroll_amount(offset);
                            let ghost before = file_views(fragments@);
                            fragments.push(fragment);
                            assert(file_views(fragments@) =~= before.push(fragment@));
                            (
                                CaptureSession {
                                    phase: Phase::Scrolling { index, from: offset },
                                    density,
                                    metrics: Some(measured),
                                    offset,
                                    fragments,
                                    failure,
                                    reason,
                                    hide_confirmed,
                                },
                                Action::Scroll { amount },
                            )
                        },
                        Err(failed) => (
                            CaptureSession {
                                phase: Phase::Restoring,
                                density,
                                metrics: Some(measured),
                                offset,
                                fragments,
                                failure: Some(failed.error),
                                reason: failed.reason,
                                hide_confirmed,
                            },
                            Action::Show,
                        ),
                    }
                },
                (_, metrics) => (
                    CaptureSession {
                        phase: Phase::Restoring,
                        density,
                        metrics,
                        offset,
                        fragments,
                        failure: Some(CaptureError::Capture),
                        reason,
                        hide_confirmed,
                    },
                    Action::Show,
                ),
            }
        },
        (Phase::Scrolling { index, from }, Event::Scrolled(None)) => (
            CaptureSession {
                phase: Phase::Restoring,
                density,
                metrics,
                offset,
                fragments,
                failure: Some(CaptureError::ScrollTimeout),
                reason,
                hide_confirmed,
            },
            Action::Show,
        ),
        (Phase::Scrolling { index, from }, Event::Scrolled(Some(position))) => {
            let steps: u32 = match &metrics {
                Some(measured) => measured.step_count(),
                None => 0,
            };
            if index == 1 {
                (
                    CaptureSession {
                        phase: Phase::Hiding { from },
                        density,
                        metrics,
                        offset: position,
                        fragments,
                        failure,
                        reason,
                        hide_confirmed,
                    },
                    Action::Hide,
                )
            } else if position == from || index >= steps {
                (
                    CaptureSession {
                        phase: Phase::Restoring,
                        density,
                        metrics,
                        offset: position,
                        fragments,
                        failure: None,
                        reason,
                        hide_confirmed,
                    },
                    Action::Show,
                )
            } else {
                (
                    CaptureSession {
                        phase: Phase::CaptureStep { index: index + 1 },
                        density,
                        metrics,
                        offset: position,
                        fragments,
                        failure,
                        reason,
                        hide_confirmed,
                    },
                    Action::Capture,
                )
            }
        },
        (Phase::Hiding { from }, Event::Hidden(confirmed)) => {
            let steps: u32 = match &metrics {
                Some(measured) => measured.step_count(),
                None => 0,
            };
            if offset == from || steps <= 1 {
                (
                    CaptureSession {
                        phase: Phase::Restoring,
                        density,
                        metrics,
                        offset,
                        fragments,
                        failure: None,
                        reason,
                        hide_confirmed: confirmed,
                    },
                    Action::Show,
                )
            } else {
                (
                    CaptureSession {
                        phase: Phase::CaptureStep { index: 2 },
                        density,
                        metrics,
                        offset,
                        fragments,
                        failure,
                        reason,
                        hide_confirmed: confirmed,
                    },
                    Action::Capture,
                )
            }
        },
        (Phase::Restoring, Event::Restored(_)) => match failure {
            Some(error) => (
                CaptureSession {
                    phase: Phase::Failed(error),
                    density,
                    metrics,
                    offset,
                    fragments,
                    failure,
                    reason,
                    hide_confirmed,
                },
                Action::Failed(error),
            ),
            None => (
                CaptureSession {
                    phase: Phase::Done,
                    density,
                    metrics,
                    offset,
                    fragments,
                    failure,
                    reason,
                    hide_confirmed,
                },
                Action::Finished,
            ),
        },
        (phase, _) => (
            CaptureSession {
                phase,
                density,
                metrics,
                offset,
                fragments,
                failure,
                reason,
                hide_confirmed,
            },
            Action::Rejected,
        ),
    }
}

} // verus!
