//! The state shared between the clock poller, the submission task and the
//! view layer.
//!
//! A single value of [`ClockState`] is owned behind whatever exclusion the
//! host provides (a mutex on native, a cooperative single thread on the web);
//! every operation here takes `&mut self`, so each one is atomic with respect
//! to the others: no reader ever observes a half-updated state.

use vstd::prelude::*;
use vstd::assert_by_contradiction;

verus! {

/// The clock-facing state written by the background tasks and read by the
/// view layer each frame.
///
/// - `display_text` always holds the last successfully fetched time string,
///   or the placeholder `"--:--:--"` before the first successful fetch.
/// - `pending_title` is a one-shot value: set together with the display text,
///   consumed (and cleared) by [`ClockState::take_title`].
/// - `error_message` is a transient submission-failure message; the host
///   schedules a delayed clear for it.
pub struct ClockState {
    display_text: String,
    pending_title: Option<String>,
    error_message: Option<String>,
}

/// What `set_time` does: both the display text and the pending title become
/// the new text, in full; the error message is untouched.
pub open spec fn set_time_rel(pre: ClockState, text: Seq<char>, post: ClockState) -> bool {
    &&& post.display() == text
    &&& post.pending() == Some(text)
    &&& post.error() == pre.error()
}

/// What `take_title` does: the pending title is handed out exactly once and
/// cleared; the rest of the state is untouched.
pub open spec fn take_title_rel(
    pre: ClockState,
    post: ClockState,
    taken: Option<Seq<char>>,
) -> bool {
    &&& taken == pre.pending()
    &&& post.pending() is None
    &&& post.display() == pre.display()
    &&& post.error() == pre.error()
}

/// What `set_error` does: the error message becomes the new text; the clock
/// display and the pending title are untouched.
pub open spec fn set_error_rel(pre: ClockState, text: Seq<char>, post: ClockState) -> bool {
    &&& post.error() == Some(text)
    &&& post.display() == pre.display()
    &&& post.pending() == pre.pending()
}

/// What `clear_error` does: the error message is gone; the clock display and
/// the pending title are untouched.
pub open spec fn clear_error_rel(pre: ClockState, post: ClockState) -> bool {
    &&& post.error() is None
    &&& post.display() == pre.display()
    &&& post.pending() == pre.pending()
}

/// One atomic step some task performs on the shared state: the four
/// operations above are the only writers, so any history of the state is a
/// chain of these.
pub enum ClockEvent {
    /// A completed poll published this text (`set_time`).
    TimePublished { text: Seq<char> },
    /// The view layer consumed the pending title (`take_title`).
    TitleTaken { taken: Option<Seq<char>> },
    /// A failed submission surfaced this message (`set_error`).
    ErrorSurfaced { message: Seq<char> },
    /// A successful submission, or the expiry timer, dropped the message
    /// (`clear_error`).
    ErrorCleared,
}

/// The step relation of the shared state: what one atomic operation does.
pub open spec fn clock_step(pre: ClockState, e: ClockEvent, post: ClockState) -> bool {
    match e {
        ClockEvent::TimePublished { text } => set_time_rel(pre, text, post),
        ClockEvent::TitleTaken { taken } => take_title_rel(pre, post, taken),
        ClockEvent::ErrorSurfaced { message } => set_error_rel(pre, message, post),
        ClockEvent::ErrorCleared => clear_error_rel(pre, post),
    }
}

/// A chain of atomic steps: `states` has one entry more than `events`, and
/// each event takes its state to the next.
pub open spec fn clock_trace(states: Seq<ClockState>, events: Seq<ClockEvent>) -> bool {
    &&& states.len() == events.len() + 1
    &&& forall|i: int|
        0 <= i < events.len() ==> clock_step(states[i], #[trigger] events[i], states[i + 1])
}

/// The pending title is a one-shot value: whatever the first `take_title`
/// hands out, a second one without an intervening `set_time` hands out
/// nothing.
pub proof fn lemma_title_taken_at_most_once(
    s0: ClockState,
    s1: ClockState,
    first: Option<Seq<char>>,
    s2: ClockState,
    second: Option<Seq<char>>,
)
    requires
        take_title_rel(s0, s1, first),
        take_title_rel(s1, s2, second),
    ensures
        second is None,
{
}

/// Two racing time publications never tear the display: whichever completes
/// last determines it, and it always equals one of the two fetched texts in
/// full.
pub proof fn lemma_last_time_wins(
    s0: ClockState,
    first: Seq<char>,
    s1: ClockState,
    second: Seq<char>,
    s2: ClockState,
)
    requires
        set_time_rel(s0, first, s1),
        set_time_rel(s1, second, s2),
    ensures
        s2.display() == second,
        s2.display() == first || s2.display() == second,
{
}

proof fn lemma_display_from_some_publish(states: Seq<ClockState>, events: Seq<ClockEvent>, i: int)
    requires
        clock_trace(states, events),
        states[0].display() == "--:--:--"@,
        0 <= i < states.len(),
    ensures
        states[i].display() == "--:--:--"@ || exists|j: int|
            0 <= j < i && (#[trigger] events[j] matches ClockEvent::TimePublished { text }
                && states[i].display() == text),
    decreases i,
{
    if i > 0 {
        lemma_display_from_some_publish(states, events, i - 1);
        assert(clock_step(states[i - 1], events[i - 1], states[i]));
        match events[i - 1] {
            ClockEvent::TimePublished { text } => {
                assert(events[i - 1] matches ClockEvent::TimePublished { text: t }
                    && states[i].display() == t);
            },
            _ => {
                assert(states[i].display() == states[i - 1].display());
                if states[i - 1].display() != "--:--:--"@ {
                    let j = choose|j: int|
                        0 <= j < i - 1 && (#[trigger] events[j]
                            matches ClockEvent::TimePublished { text } && states[i - 1].display()
                            == text);
                    assert(events[j] matches ClockEvent::TimePublished { text }
                        && states[i].display() == text);
                }
            },
        }
    }
}

/// However poll completions, submissions, title reads and error clears
/// interleave, the clock display is never a mixed or corrupted value: at
/// every point of any history it is the placeholder or equals, in full, the
/// text of one of the published fetches.
pub proof fn lemma_display_never_torn(states: Seq<ClockState>, events: Seq<ClockEvent>)
    requires
        clock_trace(states, events),
        states[0].display() == "--:--:--"@,
    ensures
        forall|i: int|
            0 <= i < states.len() ==> (#[trigger] states[i]).display() == "--:--:--"@
                || exists|j: int|
                0 <= j < i && (#[trigger] events[j] matches ClockEvent::TimePublished { text }
                    && states[i].display() == text),
{
    assert forall|i: int| 0 <= i < states.len() implies (#[trigger] states[i]).display()
        == "--:--:--"@ || exists|j: int|
        0 <= j < i && (#[trigger] events[j] matches ClockEvent::TimePublished { text }
            && states[i].display() == text) by {
        lemma_display_from_some_publish(states, events, i);
    }
}

proof fn lemma_pending_stays_clear(states: Seq<ClockState>, events: Seq<ClockEvent>, a: int, b: int)
    requires
        clock_trace(states, events),
        0 <= a <= b < states.len(),
        states[a].pending() is None,
        forall|m: int|
            a <= m < b ==> !(#[trigger] events[m] matches ClockEvent::TimePublished { .. }),
    ensures
        states[b].pending() is None,
    decreases b - a,
{
    if b > a {
        lemma_pending_stays_clear(states, events, a, b - 1);
        assert(clock_step(states[b - 1], events[b - 1], states[b]));
        assert(!(events[b - 1] matches ClockEvent::TimePublished { .. }));
    }
}

/// Across any history: once the title has been consumed, no later read
/// yields a value until a fresh `set_time` publishes one — each publication
/// is shown as a title at most once.
pub proof fn lemma_title_once_per_publish(
    states: Seq<ClockState>,
    events: Seq<ClockEvent>,
    j: int,
    k: int,
    first: Seq<char>,
    second: Seq<char>,
)
    requires
        clock_trace(states, events),
        0 <= j < k < events.len(),
        events[j] == (ClockEvent::TitleTaken { taken: Some(first) }),
        events[k] == (ClockEvent::TitleTaken { taken: Some(second) }),
    ensures
        exists|m: int|
            j < m < k && (#[trigger] events[m]) matches ClockEvent::TimePublished { .. },
{
    assert_by_contradiction!(exists|m: int|
        j < m < k && (#[trigger] events[m]) matches ClockEvent::TimePublished { .. }, {
        assert(clock_step(states[j], events[j], states[j + 1]));
        assert(states[j + 1].pending() is None);
        assert(forall|m: int|
            j + 1 <= m < k ==> !(#[trigger] events[m] matches ClockEvent::TimePublished { .. }));
        lemma_pending_stays_clear(states, events, j + 1, k);
        assert(clock_step(states[k], events[k], states[k + 1]));
        assert(states[k].pending() == Some(second));
    });
}

impl ClockState {
    /// The text shown by the large clock display.
    pub closed spec fn display(self) -> Seq<char> {
        self.display_text@
    }

    /// The not-yet-consumed window/tab title, if any.
    pub closed spec fn pending(self) -> Option<Seq<char>> {
        match self.pending_title {
            Some(t) => Some(t@),
            None => None,
        }
    }

    /// The transient submission-error message, if any.
    pub closed spec fn error(self) -> Option<Seq<char>> {
        match self.error_message {
            Some(t) => Some(t@),
            None => None,
        }
    }

    /// Fresh state: placeholder clock text, no pending title, no error.
    pub fn new() -> (s: ClockState)
        ensures
            s.display() == "--:--:--"@,
            s.pending() is None,
            s.error() is None,
    {
        ClockState {
            display_text: "--:--:--".to_owned(),
            pending_title: None,
            error_message: None,
        }
    }

    /// Publish a freshly fetched time string: the display and the pending
    /// title both become `text`, atomically and in full.
    pub fn set_time(&mut self, text: String)
        ensures
            set_time_rel(*old(self), text@, *final(self)),
    {
        self.pending_title = Some(text.clone());
        self.display_text = text;
    }

    /// Read and clear the pending title in one step.  Returns the title set
    /// by the latest `set_time` at most once; a second call without an
    /// intervening `set_time` returns `None`.
    pub fn take_title(&mut self) -> (taken: Option<String>)
        ensures
            take_title_rel(*old(self), *final(self), taken.deep_view()),
    {
        self.pending_title.take()
    }

    /// Surface a transient submission-failure message.
    pub fn set_error(&mut self, text: String)
        ensures
            set_error_rel(*old(self), text@, *final(self)),
    {
        self.error_message = Some(text);
    }

    /// Drop the transient message (on a later success, or when its delay
    /// expires).  Unconditional: clearing an already-clear state is a no-op.
    pub fn clear_error(&mut self)
        ensures
            clear_error_rel(*old(self), *final(self)),
    {
        self.error_message = None;
    }

    /// Read the clock display, as the view layer does each frame.
    pub fn display_text(&self) -> (r: &str)
        ensures
            r@ == self.display(),
    {
        self.display_text.as_str()
    }

    /// Read the transient error message, as the view layer does each frame.
    pub fn error_text(&self) -> (r: Option<&str>)
        ensures
            r.deep_view() == self.error(),
    {
        match &self.error_message {
            Some(t) => Some(t.as_str()),
            None => None,
        }
    }
}

} // verus!
