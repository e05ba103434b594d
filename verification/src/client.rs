//! The client's two background tasks, reduced to their decisions.
//!
//! The time poller and the submission task each end with one completed (or
//! failed) HTTP exchange; what they then do to the shared [`ClockState`] is
//! decided here, from plain status codes and body texts.  The host performs
//! the requests, hands the results in, and schedules the delayed error clear
//! when asked to.

use vstd::prelude::*;
use vstd::string::StringExecFns;
use crate::record::FormRecord;
use crate::state::{clear_error_rel, set_error_rel, set_time_rel, ClockState};
use crate::wire::{json_string, push_char, push_json_string};

verus! {

/// How often the background poll refreshes the clock, besides the one poll
/// at startup and the one per button click.
pub const POLL_INTERVAL_MS: u32 = 30_000;

/// How long a surfaced submission-failure message stays before the
/// scheduled clear fires.
pub const ERROR_CLEAR_DELAY_MS: u32 = 3_000;

/// The time endpoint, reached at the page's own host on the backend's
/// fixed port.
pub fn time_url(hostname: &str) -> (r: String)
    ensures
        r@ == "http://"@ + hostname@ + ":3000/api/time"@,
{
    let mut out = String::from_str("http://");
    out.append(hostname);
    out.append(":3000/api/time");
    out
}

/// The log endpoint, reached at the page's own host on the backend's
/// fixed port.
pub fn log_url(hostname: &str) -> (r: String)
    ensures
        r@ == "http://"@ + hostname@ + ":3000/api/log"@,
{
    let mut out = String::from_str("http://");
    out.append(hostname);
    out.append(":3000/api/log");
    out
}

// ----------------------------------------------------------------------
// Submission: the wire body.
// ----------------------------------------------------------------------

/// The submission body: a JSON object with the name and the age as string
/// fields, the age transmitted as text even though semantically numeric.
pub open spec fn form_body_text(name: Seq<char>, age: Seq<char>) -> Seq<char> {
    seq!['{', '"', 'n', 'a', 'm', 'e', '"', ':'] + json_string(name) + seq![
        ',',
        '"',
        'a',
        'g',
        'e',
        '"',
        ':',
    ] + json_string(age) + seq!['}']
}

/// Serialize a form record for `POST /api/log`.
pub fn form_body(record: &FormRecord) -> (b: String)
    ensures
        b@ == form_body_text(record.name@, record.age@),
{
    let mut out = String::new();
    push_char(&mut out, '{');
    push_char(&mut out, '"');
    push_char(&mut out, 'n');
    push_char(&mut out, 'a');
    push_char(&mut out, 'm');
    push_char(&mut out, 'e');
    push_char(&mut out, '"');
    push_char(&mut out, ':');
    push_json_string(&mut out, record.name.as_str());
    push_char(&mut out, ',');
    push_char(&mut out, '"');
    push_char(&mut out, 'a');
    push_char(&mut out, 'g');
    push_char(&mut out, 'e');
    push_char(&mut out, '"');
    push_char(&mut out, ':');
    push_json_string(&mut out, record.age.as_str());
    push_char(&mut out, '}');
    proof {
        assert(out@ =~= form_body_text(record.name@, record.age@));
    }
    out
}

// ----------------------------------------------------------------------
// The poll task's decision.
// ----------------------------------------------------------------------

/// The time poller's handling of one completed `GET /api/time` exchange:
/// publish the fetched text via `set_time` on success, leave the state
/// untouched (stale display persists, no error surfaced) on a non-2xx
/// status or an unreadable body.  Returns whether anything was published,
/// so the host knows a repaint is due.
pub fn apply_poll_response(state: &mut ClockState, status: u16, body: Option<String>) -> (published:
    bool)
    ensures
        match body.deep_view() {
            Some(text) => if 200 <= status < 300 {
                set_time_rel(*old(state), text, *final(state))
            } else {
                *final(state) == *old(state)
            },
            None => *final(state) == *old(state),
        },
        published == (200 <= status < 300 && body is Some),
{
    if 200 <= status && status < 300 {
        if let Some(text) = body {
            state.set_time(text);
            return true;
        }
    }
    false
}

// ----------------------------------------------------------------------
// The submission task's decision.
// ----------------------------------------------------------------------

/// How one submission attempt ended, as far as the client can tell.
pub enum SubmissionOutcome {
    /// The backend answered with a 2xx status.
    Accepted,
    /// The backend answered with a non-2xx status; `message` is the
    /// human-readable text of a structured `{"error":...}` body, when the
    /// reply carried one.
    Rejected { message: Option<String> },
    /// No response at all (transport failure).
    NoResponse,
}

/// The error message a rejection surfaces: the `"error"` member of the
/// reply body, when there is a body and it carries one.
pub open spec fn spec_rejected_message(body: Option<Seq<char>>) -> Option<Seq<char>> {
    match body {
        Some(b) => error_field(b),
        None => None,
    }
}

/// What serde_json finds under the `"error"` key of `body`: a function of
/// the text alone.
pub uninterp spec fn error_field(body: Seq<char>) -> Option<Seq<char>>;

/// Relies on `serde_json::from_str::<Value>`, `Value::get` and
/// `Value::as_str`: the string under the `"error"` key of the JSON object
/// in `body`, if `body` parses to an object carrying one.  The result
/// depends on the text alone.
#[verifier::external_body]
fn extract_error_field(body: &str) -> (r: Option<String>)
    ensures
        r.deep_view() == error_field(body@),
{
    match serde_json::from_str::<serde_json::Value>(body) {
        Ok(v) => match v.get("error") {
            Some(e) => match e.as_str() {
                Some(m) => Some(m.to_string()),
                None => None,
            },
            None => None,
        },
        Err(_) => None,
    }
}

/// Interpret one completed `POST /api/log` exchange: a 2xx status is an
/// acceptance; anything else is a rejection carrying whatever structured
/// error message the reply body held.
pub fn classify_submission(status: u16, body: Option<&str>) -> (o: SubmissionOutcome)
    ensures
        200 <= status < 300 ==> o is Accepted,
        !(200 <= status < 300) ==> (o matches SubmissionOutcome::Rejected { message }
            && message.deep_view() == spec_rejected_message(body.deep_view())),
{
    if 200 <= status && status < 300 {
        SubmissionOutcome::Accepted
    } else {
        match body {
            Some(text) => SubmissionOutcome::Rejected { message: extract_error_field(text) },
            None => SubmissionOutcome::Rejected { message: None },
        }
    }
}

/// What one submission outcome does to the shared state: an acceptance
/// clears any transient error; a rejection with a structured message
/// surfaces it; a rejection without one, or no response at all, changes
/// nothing (logged only — the asymmetry is deliberate policy).
pub open spec fn submission_apply_rel(
    pre: ClockState,
    outcome: SubmissionOutcome,
    post: ClockState,
) -> bool {
    match outcome {
        SubmissionOutcome::Accepted => clear_error_rel(pre, post),
        SubmissionOutcome::Rejected { message } => match message {
            Some(m) => set_error_rel(pre, m@, post),
            None => post == pre,
        },
        SubmissionOutcome::NoResponse => post == pre,
    }
}

/// Apply one submission outcome to the shared state.  Returns whether the
/// host must schedule the delayed (3 second) `clear_error` — exactly when a
/// message was surfaced.
pub fn apply_submission_outcome(state: &mut ClockState, outcome: SubmissionOutcome) -> (schedule_clear:
    bool)
    ensures
        submission_apply_rel(*old(state), outcome, *final(state)),
        schedule_clear == (outcome matches SubmissionOutcome::Rejected { message: Some(_) }),
{
    match outcome {
        SubmissionOutcome::Accepted => {
            state.clear_error();
            false
        },
        SubmissionOutcome::Rejected { message } => match message {
            Some(m) => {
                state.set_error(m);
                true
            },
            None => false,
        },
        SubmissionOutcome::NoResponse => false,
    }
}

// ----------------------------------------------------------------------
// The error message's lifecycle.
// ----------------------------------------------------------------------

/// After a successful submission the transient error message is empty.
pub proof fn lemma_success_clears_error(pre: ClockState, post: ClockState)
    requires
        submission_apply_rel(pre, SubmissionOutcome::Accepted, post),
    ensures
        post.error() is None,
{
}

/// After a persistence-failure submission the structured message is
/// surfaced at once — and once the delayed clear fires with no newer state
/// change, the message is empty again.
pub proof fn lemma_failure_error_lifecycle(
    pre: ClockState,
    shown: ClockState,
    cleared: ClockState,
    message: String,
)
    requires
        submission_apply_rel(pre, SubmissionOutcome::Rejected { message: Some(message) }, shown),
        clear_error_rel(shown, cleared),
    ensures
        shown.error() == Some(message@),
        cleared.error() is None,
{
}

} // verus!
