use timelog::client::{apply_submission_outcome, classify_submission, SubmissionOutcome};
use timelog::record::FormRecord;
use timelog::server::{log_reply, plan_log_row, InsertOutcome};
use timelog::state::ClockState;

#[test]
fn numeric_age_is_persisted_as_integer() {
    let record = FormRecord { name: "Ada".to_string(), age: "37".to_string() };
    let row = plan_log_row(&record);
    assert_eq!(row.name, "Ada");
    assert_eq!(row.age, Some(37));

    let reply = log_reply(&InsertOutcome::Inserted);
    assert_eq!(reply.status, 200);
    assert_eq!(reply.body, "");

    let mut state = ClockState::new();
    let outcome = classify_submission(reply.status, Some(reply.body.as_str()));
    assert!(matches!(outcome, SubmissionOutcome::Accepted));
    let schedule_clear = apply_submission_outcome(&mut state, outcome);
    assert!(!schedule_clear);
    assert_eq!(state.error_text(), None);
}

#[test]
fn non_numeric_age_is_persisted_as_null() {
    let record = FormRecord { name: "Grace".to_string(), age: "n/a".to_string() };
    let row = plan_log_row(&record);
    assert_eq!(row.name, "Grace");
    assert_eq!(row.age, None);

    let reply = log_reply(&InsertOutcome::Inserted);
    assert_eq!(reply.status, 200);
}

#[test]
fn persistence_failure_is_surfaced_then_cleared() {
    // The store is unreachable: the handler answers 500 with the structured
    // body, the client shows the message, and the delayed clear removes it.
    let outcome = InsertOutcome::Failed { description: "connection refused".to_string() };
    let reply = log_reply(&outcome);
    assert_eq!(reply.status, 500);
    assert_eq!(reply.body, "{\"error\":\"connection refused\"}");

    let mut state = ClockState::new();
    let classified = classify_submission(reply.status, Some(reply.body.as_str()));
    match &classified {
        SubmissionOutcome::Rejected { message } => {
            assert_eq!(message.as_deref(), Some("connection refused"));
        }
        other => panic!("expected a rejection, got {:?}", status_name(other)),
    }
    let schedule_clear = apply_submission_outcome(&mut state, classified);
    assert!(schedule_clear);
    assert_eq!(state.error_text(), Some("connection refused"));

    // what the scheduled timer runs after the 3 second delay
    state.clear_error();
    assert_eq!(state.error_text(), None);
}

fn status_name(o: &SubmissionOutcome) -> &'static str {
    match o {
        SubmissionOutcome::Accepted => "Accepted",
        SubmissionOutcome::Rejected { .. } => "Rejected",
        SubmissionOutcome::NoResponse => "NoResponse",
    }
}

#[test]
fn success_clears_an_earlier_error() {
    let mut state = ClockState::new();
    state.set_error("stale failure".to_string());
    assert_eq!(state.error_text(), Some("stale failure"));
    let schedule_clear =
        apply_submission_outcome(&mut state, classify_submission(200, Some("")));
    assert!(!schedule_clear);
    assert_eq!(state.error_text(), None);
}

#[test]
fn unstructured_rejection_surfaces_nothing() {
    let mut state = ClockState::new();
    state.set_error("older message".to_string());

    // a non-2xx reply whose body is not JSON at all
    let outcome = classify_submission(502, Some("Bad Gateway"));
    assert!(matches!(&outcome, SubmissionOutcome::Rejected { message: None }));
    assert!(!apply_submission_outcome(&mut state, outcome));
    assert_eq!(state.error_text(), Some("older message"));

    // a JSON body without the "error" key, and one where it is not a string
    let o2 = classify_submission(500, Some("{\"detail\":\"x\"}"));
    assert!(matches!(&o2, SubmissionOutcome::Rejected { message: None }));
    let o3 = classify_submission(500, Some("{\"error\":17}"));
    assert!(matches!(&o3, SubmissionOutcome::Rejected { message: None }));

    // no body at all
    let o4 = classify_submission(500, None);
    assert!(matches!(&o4, SubmissionOutcome::Rejected { message: None }));
}

#[test]
fn transport_failure_changes_nothing() {
    let mut state = ClockState::new();
    state.set_time("10:00:00".to_string());
    state.set_error("older message".to_string());
    assert!(!apply_submission_outcome(&mut state, SubmissionOutcome::NoResponse));
    assert_eq!(state.display_text(), "10:00:00");
    assert_eq!(state.error_text(), Some("older message"));
}

#[test]
fn newer_error_replaces_older_one() {
    let mut state = ClockState::new();
    let first = classify_submission(500, Some("{\"error\":\"first failure\"}"));
    assert!(apply_submission_outcome(&mut state, first));
    let second = classify_submission(500, Some("{\"error\":\"second failure\"}"));
    assert!(apply_submission_outcome(&mut state, second));
    assert_eq!(state.error_text(), Some("second failure"));
}
