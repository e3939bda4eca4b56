use vstd::prelude::*;
use crate::dom::{hide_script, show_script};
use crate::error::CaptureError;
use crate::text::{is_blank, spec_is_blank, starts_with};

verus! {

/// How long a wait may last and how long it rests between two looks, in
/// milliseconds.
#[derive(Clone, Copy, Debug, PartialEq, Eq, Structural)]
pub struct PollTiming {
    pub timeout_ms: u64,
    pub interval_ms: u64,
}

/// What a waiting caller is to do next.
#[derive(Clone, Copy, Debug, PartialEq, Eq, Structural)]
pub enum WaitAction {
    /// Ask the remote surface.
    Probe,
    /// Rest for `ms` milliseconds, then report the time again.
    Sleep { ms: u64 },
    /// What was waited for has come.
    Done,
    /// The timeout has passed.
    TimedOut,
    /// The remote surface gave an answer that cannot be read.
    Unreadable,
}

/// The scroll offsets a wait has seen: the latest and the one before it.
#[derive(Clone, Copy, Debug, PartialEq, Eq, Structural)]
pub struct ScrollState {
    pub offset: Option<u32>,
    pub last_offset: Option<u32>,
}

/// What a wait for the scroll position learns.
#[derive(Clone, Copy, Debug, PartialEq, Eq, Structural)]
pub enum ScrollEvent {
    /// A round begins, `elapsed_ms` after the wait began.
    Tick { elapsed_ms: u64 },
    /// The scroll offset just read.
    Position(u32),
}

/// What a wait for a yes or no learns.
#[derive(Clone, Copy, Debug, PartialEq, Eq, Structural)]
pub enum PollEvent {
    /// A round begins, `elapsed_ms` after the wait began.
    Tick { elapsed_ms: u64 },
    /// The remote surface's answer; none where it was no yes or no.
    Answer(Option<bool>),
}

/// What a wait for the page to load learns.
#[derive(Debug)]
pub enum LoadEvent {
    /// A round begins, `elapsed_ms` after the wait began.
    Tick { elapsed_ms: u64 },
    /// The document's ready state; none where the answer was no text.
    ReadyState(Option<String>),
}

/// The ready state of a document that has loaded.
pub const READY_COMPLETE: &'static str = "complete";

impl PollTiming {
    /// The timing of a wait for the scroll position: five seconds, a look
    /// every fifth of a second.
    pub fn scroll() -> (timing: PollTiming)
        ensures
            timing == (PollTiming { timeout_ms: 5000, interval_ms: 200 }),
    {
        PollTiming { timeout_ms: 5000, interval_ms: 200 }
    }

    /// The timing of a wait for hidden elements: five seconds, a look every
    /// fifth of a second.
    pub fn visibility() -> (timing: PollTiming)
        ensures
            timing == (PollTiming { timeout_ms: 5000, interval_ms: 200 }),
    {
        PollTiming { timeout_ms: 5000, interval_ms: 200 }
    }

    /// The timing of a wait for the page to load: ten seconds, a look every
    /// half second.
    pub fn page_load() -> (timing: PollTiming)
        ensures
            timing == (PollTiming { timeout_ms: 10000, interval_ms: 500 }),
    {
        PollTiming { timeout_ms: 10000, interval_ms: 500 }
    }

    /// What a round that begins `elapsed_ms` into the wait starts with:
    /// another look while there is time, the timeout after that.
    pub open spec fn spec_begin_round(self, elapsed_ms: u64) -> WaitAction {
        if elapsed_ms < self.timeout_ms {
            WaitAction::Probe
        } else {
            WaitAction::TimedOut
        }
    }

    pub fn begin_round(&self, elapsed_ms: u64) -> (action: WaitAction)
        ensures
            action == self.spec_begin_round(elapsed_ms),
    {
        if elapsed_ms < self.timeout_ms {
            WaitAction::Probe
        } else {
            WaitAction::TimedOut
        }
    }
}

impl ScrollState {
    /// The state of a wait that has read nothing yet.
    pub fn new() -> (state: ScrollState)
        ensures
            state == (ScrollState { offset: None, last_offset: None }),
    {
        ScrollState { offset: None, last_offset: None }
    }

    /// The state after `reading` was read.
    pub open spec fn observed(self, reading: u32) -> ScrollState {
        ScrollState { offset: Some(reading), last_offset: self.offset }
    }

    /// The position has come to rest: two readings in a row are the same.
    pub open spec fn settled(self) -> bool {
        self.offset is Some && self.offset == self.last_offset
    }
}

/// The state and the action that follow `event` in a wait for the scroll
/// position to come to rest.
pub open spec fn scroll_wait_next(state: ScrollState, event: ScrollEvent, timing: PollTiming) -> (
    ScrollState,
    WaitAction,
) {
    match event {
        ScrollEvent::Tick { elapsed_ms } => (state, timing.spec_begin_round(elapsed_ms)),
        ScrollEvent::Position(reading) => if state.observed(reading).settled() {
            (state.observed(reading), WaitAction::Done)
        } else {
            (state.observed(reading), WaitAction::Sleep { ms: timing.interval_ms })
        },
    }
}

/// One move of the wait for the scroll position to come to rest. Each round
/// begins with the time: past the timeout the wait is over, before it the
/// position is read. A reading equal to the one before ends the wait; any
/// other is remembered and the wait rests for an interval.
pub fn wait_for_scroll_complete(state: ScrollState, event: ScrollEvent, timing: &PollTiming) -> (out:
    (ScrollState, WaitAction))
    ensures
        out == scroll_wait_next(state, event, *timing),
{
    match event {
        ScrollEvent::Tick { elapsed_ms } => (state, timing.begin_round(elapsed_ms)),
        ScrollEvent::Position(reading) => {
            let settled = match state.offset {
                Some(before) => before == reading,
                None => false,
            };
            let after = ScrollState { offset: Some(reading), last_offset: state.offset };
            if settled {
                (after, WaitAction::Done)
            } else {
                (after, WaitAction::Sleep { ms: timing.interval_ms })
            }
        },
    }
}

/// The action that follows `event` in a wait for the elements that
/// `selectors` match to be hidden, or to be visible again: the answer is that
/// of the script that asks for the state waited for. Blank selectors match
/// nothing, so that wait is over as it begins.
pub open spec fn hidden_wait_next(selectors: Seq<char>, event: PollEvent, timing: PollTiming)
    -> WaitAction {
    match event {
        PollEvent::Tick { elapsed_ms } => if spec_is_blank(selectors) {
            WaitAction::Done
        } else {
            timing.spec_begin_round(elapsed_ms)
        },
        PollEvent::Answer(answer) => if answer == Some(true) {
            WaitAction::Done
        } else {
            WaitAction::Sleep { ms: timing.interval_ms }
        },
    }
}

/// One move of the wait for the elements that `selectors` match to report
/// the visibility that was asked of them.
pub fn wait_for_elements_hidden(selectors: &str, event: PollEvent, timing: &PollTiming) -> (action:
    WaitAction)
    ensures
        action == hidden_wait_next(selectors@, event, *timing),
{
    match event {
        PollEvent::Tick { elapsed_ms } => if is_blank(selectors) {
            WaitAction::Done
        } else {
            timing.begin_round(elapsed_ms)
        },
        PollEvent::Answer(answer) => match answer {
            Some(true) => WaitAction::Done,
            _ => WaitAction::Sleep { ms: timing.interval_ms },
        },
    }
}

/// The action that follows `event` in a wait for the page to load.
pub open spec fn load_wait_next(event: LoadEvent, timing: PollTiming) -> WaitAction {
    match event {
        LoadEvent::Tick { elapsed_ms } => timing.spec_begin_round(elapsed_ms),
        LoadEvent::ReadyState(Some(state)) => if state@ == READY_COMPLETE@ {
            WaitAction::Done
        } else {
            WaitAction::Sleep { ms: timing.interval_ms }
        },
        LoadEvent::ReadyState(None) => WaitAction::Unreadable,
    }
}

/// One move of the wait for the page to load.
pub fn wait_for_page_load(event: &LoadEvent, timing: &PollTiming) -> (action: WaitAction)
    ensures
        action == load_wait_next(*event, *timing),
{
    match event {
        LoadEvent::Tick { elapsed_ms } => timing.begin_round(*elapsed_ms),
        LoadEvent::ReadyState(Some(state)) => {
            let text = state.as_str();
            let same = text.unicode_len() == READY_COMPLETE.unicode_len() && starts_with(
                text,
                READY_COMPLETE,
            );
            proof {
                assert(text@.subrange(0, text@.len() as int) =~= text@);
                assert(text@ == state@);
                assert(same <==> text@ == READY_COMPLETE@);
            }
            if same {
                WaitAction::Done
            } else {
                WaitAction::Sleep { ms: timing.interval_ms }
            }
        },
        LoadEvent::ReadyState(None) => WaitAction::Unreadable,
    }
}

/// What an action means for the one who waits for the scroll position: the
/// wait went well, it failed, or it is not over.
pub open spec fn spec_scroll_outcome(action: WaitAction) -> Option<Result<(), CaptureError>> {
    match action {
        WaitAction::Done => Some(Ok(())),
        WaitAction::TimedOut => Some(Err(CaptureError::ScrollTimeout)),
        WaitAction::Unreadable => Some(Err(CaptureError::ScrollTimeout)),
        _ => None,
    }
}

/// What an action means for the one who waits for hidden elements: the wait
/// went well, it failed, or it is not over.
pub open spec fn spec_visibility_outcome(action: WaitAction) -> Option<Result<(), CaptureError>> {
    match action {
        WaitAction::Done => Some(Ok(())),
        WaitAction::TimedOut => Some(Err(CaptureError::VisibilityTimeout)),
        WaitAction::Unreadable => Some(Err(CaptureError::VisibilityTimeout)),
        _ => None,
    }
}

/// Says how a wait for the scroll position ended, if it has: settled, or
/// with a scroll timeout.
pub fn scroll_outcome(action: WaitAction) -> (outcome: Option<Result<(), CaptureError>>)
    ensures
        outcome == spec_scroll_outcome(action),
{
    match action {
        WaitAction::Done => Some(Ok(())),
        WaitAction::TimedOut => Some(Err(CaptureError::ScrollTimeout)),
        WaitAction::Unreadable => Some(Err(CaptureError::ScrollTimeout)),
        _ => None,
    }
}

/// Says how a wait for hidden elements ended, if it has: confirmed, or with
/// a visibility timeout, which does not stop a capture.
pub fn visibility_outcome(action: WaitAction) -> (outcome: Option<Result<(), CaptureError>>)
    ensures
        outcome == spec_visibility_outcome(action),
        outcome matches Some(Err(error)) ==> !error.spec_is_fatal(),
{
    match action {
        WaitAction::Done => Some(Ok(())),
        WaitAction::TimedOut => Some(Err(CaptureError::VisibilityTimeout)),
        WaitAction::Unreadable => Some(Err(CaptureError::VisibilityTimeout)),
        _ => None,
    }
}

/// A wait that is never told of a change ends: once the time reported is
/// past the timeout, the round ends the wait.
pub proof fn lemma_wait_times_out(timing: PollTiming, elapsed_ms: u64)
    requires
        elapsed_ms >= timing.timeout_ms,
    ensures
        timing.spec_begin_round(elapsed_ms) == WaitAction::TimedOut,
        forall|state: ScrollState|
            (#[trigger] scroll_wait_next(state, ScrollEvent::Tick { elapsed_ms }, timing)).1
                == WaitAction::TimedOut,
{
}

/// Two equal readings in a row end the wait for the scroll position, and
/// nothing else does.
pub proof fn lemma_scroll_settles(state: ScrollState, reading: u32, timing: PollTiming)
    ensures
        scroll_wait_next(state, ScrollEvent::Position(reading), timing).1 == WaitAction::Done
            <==> state.offset == Some(reading),
        scroll_wait_next(
            scroll_wait_next(state, ScrollEvent::Position(reading), timing).0,
            ScrollEvent::Position(reading),
            timing,
        ).1 == WaitAction::Done,
{
}

/// With blank selectors nothing is hidden and nothing needs showing: neither
/// runs a script on the remote surface, and the wait for the confirmation is
/// over at its first round. The empty text is blank.
pub proof fn lemma_blank_selectors_touch_nothing(
    selectors: Seq<char>,
    elapsed_ms: u64,
    timing: PollTiming,
)
    requires
        spec_is_blank(selectors),
    ensures
        hide_script(selectors) is None,
        show_script(selectors) is None,
        hidden_wait_next(selectors, PollEvent::Tick { elapsed_ms }, timing) == WaitAction::Done,
        spec_is_blank(Seq::<char>::empty()),
{
}

} // verus!
