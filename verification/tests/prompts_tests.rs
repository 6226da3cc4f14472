use torii::{IntakeError, PromptRegistry};

#[test]
fn every_bundled_prompt_loads() {
    let names = PromptRegistry::names();
    for name in &names {
        assert!(!name.is_empty());
    }
    assert!(!names.is_empty(), "no prompts loaded");
}

#[test]
fn unknown_prompt_returns_validation_error() {
    let err = PromptRegistry::find("does_not_exist").unwrap_err();
    match err {
        IntakeError::Validation(m) => assert_eq!(m, "unknown prompt: does_not_exist"),
        other => panic!("unexpected {other:?}"),
    }
}

#[test]
fn parse_prompt_is_bundled() {
    assert_eq!(PromptRegistry::find("parse").unwrap(), 0);
}
