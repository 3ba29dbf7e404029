use policy_engine::error::ValidationError;
use policy_engine::status::{
    PolicyEngineInputValidationError, PolicyEngineStatus, PolicyEngineStatuses,
};
use policy_engine::strmap::StrMap;
use policy_engine::validate::{
    validate_id, validate_status, validate_transition, validate_workflow,
};
use policy_engine::value::Value;
use policy_engine::workflow::{Context, PolicyEngineWorkflow};

fn empty_detail() -> StrMap<Value> {
    StrMap { entries: Vec::new() }
}

#[test]
fn validate_id_empty_fails_with_missing_field() {
    match validate_id("") {
        Err(ValidationError::MissingField(m)) => {
            assert!(m.0.contains("cannot be empty."));
        }
        other => panic!("expected MissingField, got {:?}", other),
    }
}

#[test]
fn validate_id_nonempty_succeeds() {
    assert!(validate_id("a").is_ok());
    assert!(validate_id("request-17").is_ok());
    assert!(validate_id(" ").is_ok());
}

#[test]
fn validate_status_fails_only_for_unknown() {
    assert!(validate_status(&PolicyEngineStatuses::Submitted).is_ok());
    assert!(validate_status(&PolicyEngineStatuses::InProgress).is_ok());
    assert!(validate_status(&PolicyEngineStatuses::Complete).is_ok());
    assert!(validate_status(&PolicyEngineStatuses::InputValidationError).is_ok());
    match validate_status(&PolicyEngineStatuses::Unknown) {
        Err(ValidationError::CustomError(m)) => {
            assert!(m.0.contains("Unknown status is not allowed."));
        }
        other => panic!("expected CustomError, got {:?}", other),
    }
}

#[test]
fn status_new_unknown_always_fails() {
    match PolicyEngineStatus::new(PolicyEngineStatuses::Unknown, empty_detail()) {
        Err(ValidationError::CustomError(m)) => {
            assert!(m.0.contains("Unknown status is not allowed."));
        }
        other => panic!("expected CustomError, got {:?}", other),
    }
}

#[test]
fn status_new_preserves_detail() {
    let mut detail = empty_detail();
    detail.push("attempt".to_string(), Value::Int(2));
    detail.push("note".to_string(), Value::Str("queued".to_string()));
    let expected = vec![
        ("attempt".to_string(), Value::Int(2)),
        ("note".to_string(), Value::Str("queued".to_string())),
    ];
    let st = PolicyEngineStatus::new(PolicyEngineStatuses::InProgress, detail)
        .expect("a non-Unknown status must be accepted");
    assert_eq!(st.status, PolicyEngineStatuses::InProgress);
    assert_eq!(st.detail.entries, expected);
}

#[test]
fn status_new_succeeds_for_every_tag_but_unknown() {
    for tag in [
        PolicyEngineStatuses::Submitted,
        PolicyEngineStatuses::InProgress,
        PolicyEngineStatuses::Complete,
        PolicyEngineStatuses::InputValidationError,
    ] {
        let st = PolicyEngineStatus::new(tag, empty_detail()).expect("must be accepted");
        assert_eq!(st.status, tag);
    }
}

#[test]
fn validate_workflow_accepts_all() {
    let wf = PolicyEngineWorkflow {
        name: Some("example_workflow".to_string()),
        on: Value::Str("push".to_string()),
        jobs: StrMap { entries: Vec::new() },
    };
    assert!(validate_workflow(&wf).is_ok());
    assert!(wf.validate().is_ok());
}

#[test]
fn transition_rule_is_forward_only() {
    let submitted = PolicyEngineStatuses::Submitted;
    let in_progress = PolicyEngineStatuses::InProgress;
    let complete = PolicyEngineStatuses::Complete;
    let unknown = PolicyEngineStatuses::Unknown;
    assert!(validate_transition(&submitted, &in_progress).is_ok());
    assert!(validate_transition(&in_progress, &complete).is_ok());
    assert!(validate_transition(&complete, &submitted).is_err());
    assert!(validate_transition(&complete, &in_progress).is_err());
    assert!(validate_transition(&in_progress, &submitted).is_err());
    assert!(validate_transition(&submitted, &unknown).is_err());
    assert!(validate_transition(&complete, &complete).is_err());
}

#[test]
fn advance_walks_the_lifecycle() {
    let st = PolicyEngineStatus::new(PolicyEngineStatuses::Submitted, empty_detail()).unwrap();
    let st = st
        .advance(PolicyEngineStatuses::InProgress, empty_detail())
        .expect("submitted may begin evaluation");
    let st = st
        .advance(PolicyEngineStatuses::Complete, empty_detail())
        .expect("evaluation underway may complete");
    assert_eq!(st.status, PolicyEngineStatuses::Complete);
    assert!(st.advance(PolicyEngineStatuses::Submitted, empty_detail()).is_err());
}

#[test]
fn input_validation_error_carries_kind_and_message() {
    let e = validate_id("").unwrap_err();
    let wire = PolicyEngineInputValidationError::from_validation_error(
        &e,
        vec!["id".to_string()],
    );
    assert_eq!(wire.error_type, "missing_field");
    assert!(wire.msg.contains("cannot be empty."));
    assert_eq!(wire.loc, vec!["id".to_string()]);
    assert!(wire.url.is_none());
    assert!(wire.input.is_none());

    let e = validate_status(&PolicyEngineStatuses::Unknown).unwrap_err();
    let wire = PolicyEngineInputValidationError::from_validation_error(
        &e,
        vec!["status".to_string()],
    );
    assert_eq!(wire.error_type, "custom_error");
    assert!(wire.msg.contains("Unknown status is not allowed."));
}

#[test]
fn context_holds_config_and_secrets() {
    let mut env: StrMap<String> = StrMap { entries: Vec::new() };
    env.push("GITHUB_ACTOR".to_string(), "aliceoa".to_string());
    env.push(
        "GITHUB_REPOSITORY".to_string(),
        "scitt-community/scitt-api-emulator".to_string(),
    );
    let mut config: StrMap<StrMap<String>> = StrMap { entries: Vec::new() };
    config.push("env".to_string(), env);
    let mut secrets: StrMap<String> = StrMap { entries: Vec::new() };
    secrets.push("MY_SECRET".to_string(), "test-secret".to_string());
    let ctx = Context { config, secrets };
    let env = ctx.config.get("env").expect("env category is present");
    assert_eq!(
        env.get("GITHUB_REPOSITORY"),
        Some(&"scitt-community/scitt-api-emulator".to_string())
    );
    assert_eq!(ctx.secrets.get("MY_SECRET"), Some(&"test-secret".to_string()));
    assert_eq!(ctx.secrets.get("OTHER"), None);
}

#[test]
fn validation_error_chains_to_its_cause() {
    let e = validate_id("").unwrap_err();
    assert!(e.source().message().contains("cannot be empty."));
    assert!(e.message().contains("cannot be empty."));
}

#[test]
fn string_error_wraps_a_message_unchanged() {
    let e = policy_engine::error::StringError::from("disk on fire".to_string());
    assert_eq!(e.message(), "disk on fire");
    let e = policy_engine::error::StringError::new("see logs".to_string());
    assert_eq!(e.0, "see logs");
}
