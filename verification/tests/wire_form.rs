use policy_engine::error::ValidationError;
use policy_engine::status::{
    PolicyEngineComplete, PolicyEngineCompleteExitStatuses, PolicyEngineInProgress,
    PolicyEngineStatus, PolicyEngineStatusUpdateJob, PolicyEngineStatusUpdateJobStep,
    PolicyEngineStatuses, PolicyEngineSubmitted, PolicyEngineUnknown,
};
use policy_engine::strmap::StrMap;
use policy_engine::value::Value;
use policy_engine::wire::{
    complete_from_value, complete_to_value, exit_status_of_token, exit_status_token,
    in_progress_from_value, in_progress_to_value, status_from_value, status_of_wire_tag,
    status_to_value, step_update_from_value, submitted_from_value, submitted_to_value,
    unknown_from_value, unknown_to_value, wire_tag,
};

const ALL_TAGS: [PolicyEngineStatuses; 5] = [
    PolicyEngineStatuses::Submitted,
    PolicyEngineStatuses::InProgress,
    PolicyEngineStatuses::Complete,
    PolicyEngineStatuses::Unknown,
    PolicyEngineStatuses::InputValidationError,
];

#[test]
fn wire_tags_are_the_five_fixed_tokens() {
    assert_eq!(wire_tag(&PolicyEngineStatuses::Submitted), "submitted");
    assert_eq!(wire_tag(&PolicyEngineStatuses::InProgress), "in_progress");
    assert_eq!(wire_tag(&PolicyEngineStatuses::Complete), "complete");
    assert_eq!(wire_tag(&PolicyEngineStatuses::Unknown), "unknown");
    assert_eq!(
        wire_tag(&PolicyEngineStatuses::InputValidationError),
        "input_validation_error"
    );
}

#[test]
fn wire_tag_round_trips_for_every_tag() {
    for tag in ALL_TAGS {
        let token = wire_tag(&tag);
        assert_eq!(status_of_wire_tag(&token), Some(tag));
    }
}

#[test]
fn unrecognized_tokens_decode_to_nothing() {
    assert_eq!(status_of_wire_tag(""), None);
    assert_eq!(status_of_wire_tag("Submitted"), None);
    assert_eq!(status_of_wire_tag("done"), None);
    assert_eq!(status_of_wire_tag("in-progress"), None);
}

#[test]
fn encoded_status_has_the_wire_shape() {
    let mut detail: StrMap<Value> = StrMap { entries: Vec::new() };
    detail.push("job".to_string(), Value::Str("lint".to_string()));
    let st = PolicyEngineStatus::new(PolicyEngineStatuses::InProgress, detail).unwrap();
    match status_to_value(st) {
        Value::Obj(es) => {
            assert_eq!(es.len(), 2);
            assert_eq!(es[0].0, "status");
            assert_eq!(es[0].1, Value::Str("in_progress".to_string()));
            assert_eq!(es[1].0, "detail");
            assert_eq!(
                es[1].1,
                Value::Obj(vec![("job".to_string(), Value::Str("lint".to_string()))])
            );
        }
        other => panic!("expected an object, got {:?}", other),
    }
}

#[test]
fn status_survives_the_wire_round_trip() {
    for tag in [
        PolicyEngineStatuses::Submitted,
        PolicyEngineStatuses::InProgress,
        PolicyEngineStatuses::Complete,
        PolicyEngineStatuses::InputValidationError,
    ] {
        let mut detail: StrMap<Value> = StrMap { entries: Vec::new() };
        detail.push("attempt".to_string(), Value::Int(3));
        let st = PolicyEngineStatus::new(tag, detail).unwrap();
        let mut detail2: StrMap<Value> = StrMap { entries: Vec::new() };
        detail2.push("attempt".to_string(), Value::Int(3));
        let expected = PolicyEngineStatus::new(tag, detail2).unwrap();
        let decoded = status_from_value(status_to_value(st)).expect("round trip must succeed");
        assert_eq!(decoded, expected);
    }
}

#[test]
fn wire_decoding_goes_through_validation() {
    let doc = Value::Obj(vec![
        ("status".to_string(), Value::Str("unknown".to_string())),
        ("detail".to_string(), Value::Obj(Vec::new())),
    ]);
    match status_from_value(doc) {
        Err(ValidationError::CustomError(m)) => {
            assert!(m.0.contains("Unknown status is not allowed."));
        }
        other => panic!("expected CustomError, got {:?}", other),
    }
}

#[test]
fn exit_status_tokens_are_success_and_failure_only() {
    assert_eq!(
        exit_status_token(&PolicyEngineCompleteExitStatuses::Success),
        "success"
    );
    assert_eq!(
        exit_status_token(&PolicyEngineCompleteExitStatuses::Failure),
        "failure"
    );
    assert_eq!(
        exit_status_of_token("success"),
        Some(PolicyEngineCompleteExitStatuses::Success)
    );
    assert_eq!(
        exit_status_of_token("failure"),
        Some(PolicyEngineCompleteExitStatuses::Failure)
    );
    assert_eq!(exit_status_of_token("ok"), None);
    assert_eq!(exit_status_of_token("Success"), None);
    assert_eq!(exit_status_of_token(""), None);
}

#[test]
fn submitted_payload_round_trips() {
    let p = PolicyEngineSubmitted::new("req-1".to_string()).unwrap();
    let expected = PolicyEngineSubmitted::new("req-1".to_string()).unwrap();
    let decoded = submitted_from_value(submitted_to_value(p)).unwrap();
    assert_eq!(decoded, expected);
    assert!(PolicyEngineSubmitted::new("".to_string()).is_err());
}

#[test]
fn unknown_payload_round_trips() {
    let p = PolicyEngineUnknown::new("req-2".to_string()).unwrap();
    let expected = PolicyEngineUnknown::new("req-2".to_string()).unwrap();
    let decoded = unknown_from_value(unknown_to_value(p)).unwrap();
    assert_eq!(decoded, expected);
}

#[test]
fn complete_payload_round_trips() {
    let build = || {
        let mut outputs: StrMap<Value> = StrMap { entries: Vec::new() };
        outputs.push("report".to_string(), Value::Str("clean".to_string()));
        let mut annotations: StrMap<Value> = StrMap { entries: Vec::new() };
        annotations.push("line".to_string(), Value::Int(12));
        PolicyEngineComplete::new(
            "req-3".to_string(),
            PolicyEngineCompleteExitStatuses::Failure,
            outputs,
            annotations,
        )
        .unwrap()
    };
    let decoded = complete_from_value(complete_to_value(build())).unwrap();
    assert_eq!(decoded, build());
}

fn sample_in_progress() -> PolicyEngineInProgress {
    let mut metadata: StrMap<String> = StrMap { entries: Vec::new() };
    metadata.push("runner".to_string(), "ubuntu-latest".to_string());
    let mut outputs: StrMap<Value> = StrMap { entries: Vec::new() };
    outputs.push("sha".to_string(), Value::Str("abc123".to_string()));
    let step =
        PolicyEngineStatusUpdateJobStep::new(PolicyEngineStatuses::Complete, metadata, outputs)
            .unwrap();
    let mut steps: StrMap<PolicyEngineStatusUpdateJobStep> = StrMap { entries: Vec::new() };
    steps.push("checkout".to_string(), step);
    let mut updates: StrMap<PolicyEngineStatusUpdateJob> = StrMap { entries: Vec::new() };
    updates.push("lint".to_string(), PolicyEngineStatusUpdateJob { steps });
    PolicyEngineInProgress::new("req-5".to_string(), updates).unwrap()
}

#[test]
fn in_progress_payload_round_trips() {
    let decoded = in_progress_from_value(in_progress_to_value(sample_in_progress())).unwrap();
    assert_eq!(decoded, sample_in_progress());
}

#[test]
fn nested_step_updates_reject_the_unknown_sentinel() {
    let metadata: StrMap<String> = StrMap { entries: Vec::new() };
    let outputs: StrMap<Value> = StrMap { entries: Vec::new() };
    assert!(matches!(
        PolicyEngineStatusUpdateJobStep::new(PolicyEngineStatuses::Unknown, metadata, outputs),
        Err(ValidationError::CustomError(_))
    ));
    let doc = Value::Obj(vec![
        ("status".to_string(), Value::Str("unknown".to_string())),
        ("metadata".to_string(), Value::Obj(Vec::new())),
        ("outputs".to_string(), Value::Obj(Vec::new())),
    ]);
    assert!(matches!(
        step_update_from_value(doc),
        Err(ValidationError::CustomError(_))
    ));
}

#[test]
fn rejection_payload_encodes_to_the_error_document() {
    let e = policy_engine::validate::validate_id("").unwrap_err();
    let p = policy_engine::status::PolicyEngineInputValidationError::from_validation_error(
        &e,
        vec!["request".to_string(), "id".to_string()],
    );
    let doc = policy_engine::wire::input_validation_error_to_value(p);
    match doc {
        Value::Obj(es) => {
            assert_eq!(es.len(), 5);
            assert_eq!(es[0].0, "msg");
            assert_eq!(
                es[0].1,
                Value::Str("id is required and cannot be empty.".to_string())
            );
            assert_eq!(es[1].0, "loc");
            assert_eq!(
                es[1].1,
                Value::List(vec![
                    Value::Str("request".to_string()),
                    Value::Str("id".to_string()),
                ])
            );
            assert_eq!(es[2].0, "type");
            assert_eq!(es[2].1, Value::Str("missing_field".to_string()));
            assert_eq!(es[3].0, "url");
            assert_eq!(es[3].1, Value::Null);
            assert_eq!(es[4].0, "input");
            assert_eq!(es[4].1, Value::Null);
        }
        other => panic!("expected an object, got {:?}", other),
    }
}

#[test]
fn payload_decoding_enforces_the_id_and_outcome_rules() {
    let empty_id = Value::Obj(vec![("id".to_string(), Value::Str("".to_string()))]);
    assert!(matches!(
        submitted_from_value(empty_id),
        Err(ValidationError::MissingField(_))
    ));
    let missing_id = Value::Obj(Vec::new());
    assert!(matches!(
        unknown_from_value(missing_id),
        Err(ValidationError::MissingField(_))
    ));
    let bad_outcome = Value::Obj(vec![
        ("id".to_string(), Value::Str("req-4".to_string())),
        ("exit_status".to_string(), Value::Str("done".to_string())),
        ("outputs".to_string(), Value::Obj(Vec::new())),
        ("annotations".to_string(), Value::Obj(Vec::new())),
    ]);
    assert!(matches!(
        complete_from_value(bad_outcome),
        Err(ValidationError::CustomError(_))
    ));
}

#[test]
fn wire_decoding_rejects_ill_shaped_documents() {
    assert!(status_from_value(Value::Str("submitted".to_string())).is_err());
    let missing_detail = Value::Obj(vec![(
        "status".to_string(),
        Value::Str("submitted".to_string()),
    )]);
    assert!(matches!(
        status_from_value(missing_detail),
        Err(ValidationError::MissingField(_))
    ));
    let bad_token = Value::Obj(vec![
        ("status".to_string(), Value::Str("done".to_string())),
        ("detail".to_string(), Value::Obj(Vec::new())),
    ]);
    assert!(matches!(
        status_from_value(bad_token),
        Err(ValidationError::CustomError(_))
    ));
}
