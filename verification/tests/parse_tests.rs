use torii::ai::AiOutput;
use torii::parse::{draft_from_arguments, draft_from_fields, draft_from_outputs, parse_priority, parse_status};
use torii::{IntakeError, Priority, Status, ToolCall};

fn tool_call(name: &str, args: &str) -> AiOutput {
    AiOutput::ToolCall(ToolCall { name: name.to_string(), arguments: args.to_string() })
}

#[test]
fn parse_priority_roundtrip() {
    assert!(matches!(parse_priority("p0"), Some(Priority::P0)));
    assert!(matches!(parse_priority("p1"), Some(Priority::P1)));
    assert!(matches!(parse_priority("p2"), Some(Priority::P2)));
    assert!(matches!(parse_priority("p3"), Some(Priority::P3)));
    assert!(parse_priority("unknown").is_none());
}

#[test]
fn parse_status_roundtrip() {
    assert!(matches!(parse_status("inbox"), Some(Status::Inbox)));
    assert!(matches!(parse_status("todo"), Some(Status::Todo)));
    assert!(matches!(parse_status("in_progress"), Some(Status::InProgress)));
    assert!(matches!(parse_status("in_review"), Some(Status::InReview)));
    assert!(matches!(parse_status("done"), Some(Status::Done)));
    assert!(matches!(parse_status("cancelled"), Some(Status::Cancelled)));
    assert!(parse_status("other").is_none());
}

#[test]
fn status_as_str_matches_parse_input() {
    for &s in &[
        Status::Inbox,
        Status::Todo,
        Status::InProgress,
        Status::InReview,
        Status::Done,
        Status::Cancelled,
    ] {
        assert_eq!(parse_status(s.as_str()), Some(s), "{s:?} round-trip");
    }
}

#[test]
fn parse_task_maps_tool_call_to_draft() {
    let outputs = vec![tool_call(
        "create_task",
        r#"{"title":"Buy milk","description":"2%","priority":"p1","status":"todo"}"#,
    )];
    let draft = draft_from_outputs(&outputs).unwrap();
    assert_eq!(draft.title, "Buy milk");
    assert_eq!(draft.description.as_deref(), Some("2%"));
    assert_eq!(draft.priority, Some(Priority::P1));
    assert_eq!(draft.status, Some(Status::Todo));
}

#[test]
fn parse_task_missing_title_is_validation_error() {
    let outputs = vec![tool_call("create_task", r#"{"priority":"p1"}"#)];
    let err = draft_from_outputs(&outputs).unwrap_err();
    assert!(matches!(err, IntakeError::Validation(_)));
}

#[test]
fn outputs_without_create_task_call_are_ai_error() {
    let outputs = vec![
        AiOutput::Other,
        tool_call("other_tool", r#"{"title":"x"}"#),
    ];
    match draft_from_outputs(&outputs).unwrap_err() {
        IntakeError::Ai(m) => assert_eq!(m, "parse_task: model returned no create_task call"),
        other => panic!("unexpected {other:?}"),
    }
    assert!(matches!(draft_from_outputs(&[]), Err(IntakeError::Ai(_))));
}

#[test]
fn first_create_task_call_wins() {
    let outputs = vec![
        AiOutput::Other,
        tool_call("create_task", r#"{"title":"First"}"#),
        tool_call("create_task", r#"{"title":"Second"}"#),
    ];
    let draft = draft_from_outputs(&outputs).unwrap();
    assert_eq!(draft.title, "First");
    assert_eq!(draft.description, None);
    assert_eq!(draft.priority, None);
    assert_eq!(draft.status, None);
}

#[test]
fn malformed_arguments_are_serde_error() {
    let outputs = vec![tool_call("create_task", "{not json")];
    match draft_from_outputs(&outputs).unwrap_err() {
        IntakeError::Serde(m) => assert!(!m.is_empty()),
        other => panic!("unexpected {other:?}"),
    }
}

#[test]
fn unknown_priority_and_status_are_dropped() {
    let draft = draft_from_arguments(r#"{"title":"T","priority":"urgent","status":"blocked"}"#).unwrap();
    assert_eq!(draft.title, "T");
    assert_eq!(draft.priority, None);
    assert_eq!(draft.status, None);
}

#[test]
fn non_string_members_are_absent() {
    let err = draft_from_arguments(r#"{"title":42}"#).unwrap_err();
    assert!(matches!(err, IntakeError::Validation(_)));
    let draft = draft_from_arguments(r#"{"title":"T","description":7,"priority":"p3"}"#).unwrap();
    assert_eq!(draft.description, None);
    assert_eq!(draft.priority, Some(Priority::P3));
    let err = draft_from_arguments("[1,2]").unwrap_err();
    assert!(matches!(err, IntakeError::Validation(_)));
}

#[test]
fn draft_from_fields_copies_and_reads() {
    let draft = draft_from_fields(
        Some("Write report".to_string()),
        Some("by Friday".to_string()),
        Some("p0".to_string()),
        Some("in_review".to_string()),
    )
    .unwrap();
    assert_eq!(draft.title, "Write report");
    assert_eq!(draft.description.as_deref(), Some("by Friday"));
    assert_eq!(draft.priority, Some(Priority::P0));
    assert_eq!(draft.status, Some(Status::InReview));
    match draft_from_fields(None, None, None, None).unwrap_err() {
        IntakeError::Validation(m) => assert_eq!(m, "create_task: missing required field 'title'"),
        other => panic!("unexpected {other:?}"),
    }
}
