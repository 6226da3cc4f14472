use torii::{IntakeError, Status, TaskDraft};

#[test]
fn status_wire_names() {
    assert_eq!(Status::Inbox.as_str(), "inbox");
    assert_eq!(Status::InProgress.as_str(), "in_progress");
    assert_eq!(Status::Cancelled.as_str(), "cancelled");
}

#[test]
fn task_draft_new_sets_only_the_title() {
    let d = TaskDraft::new("Buy milk");
    assert_eq!(d.title, "Buy milk");
    assert!(d.description.is_none() && d.priority.is_none() && d.status.is_none());
}

#[test]
fn intake_error_renders_kind_and_message() {
    assert_eq!(IntakeError::ai("boom").to_string(), "ai: boom");
    assert_eq!(IntakeError::serde("bad json").to_string(), "serde: bad json");
    assert_eq!(IntakeError::validation("no title").to_string(), "validation: no title");
    assert!(matches!(IntakeError::validation("x"), IntakeError::Validation(m) if m == "x"));
}
