use policy_engine::decode::{
    job_from_value, request_from_value, step_from_value, submit_request_document,
    workflow_from_value,
};
use policy_engine::error::ValidationError;
use policy_engine::status::{PolicyEngineStatus, PolicyEngineStatuses};
use policy_engine::strmap::StrMap;
use policy_engine::value::Value;

/// Turns a parsed JSON tree into the library's open value form.
fn to_value(v: &serde_json::Value) -> Value {
    match v {
        serde_json::Value::Null => Value::Null,
        serde_json::Value::Bool(b) => Value::Bool(*b),
        serde_json::Value::Number(n) => Value::Int(n.as_i64().expect("an integer number")),
        serde_json::Value::String(s) => Value::Str(s.clone()),
        serde_json::Value::Array(a) => Value::List(a.iter().map(to_value).collect()),
        serde_json::Value::Object(m) => {
            Value::Obj(m.iter().map(|(k, x)| (k.clone(), to_value(x))).collect())
        }
    }
}

fn obj(pairs: Vec<(&str, Value)>) -> Value {
    Value::Obj(pairs.into_iter().map(|(k, v)| (k.to_string(), v)).collect())
}

fn sample_document() -> Value {
    let json_data = r#"
        {
            "context": {
                "config": {
                    "env": {
                        "GITHUB_ACTOR": "aliceoa",
                        "GITHUB_ACTOR_ID": "1234567",
                        "GITHUB_API": "https://api.github.com/",
                        "GITHUB_REPOSITORY": "scitt-community/scitt-api-emulator"
                    }
                },
                "secrets": {
                    "MY_SECRET": "test-secret"
                }
            },
            "workflow": {
                "on": {
                    "push": {
                        "branches": [
                            "main"
                        ]
                    }
                },
                "jobs": {
                    "lint": {
                        "runs-on": "ubuntu-latest",
                        "steps": [
                            {
                                "uses": "actions/checkout@v4"
                            }
                        ]
                    }
                }
            }
        }
        "#;
    let parsed: serde_json::Value = serde_json::from_str(json_data).expect("well-formed JSON");
    to_value(&parsed)
}

#[test]
fn sample_document_parses_validates_and_submits() {
    let req = request_from_value(sample_document()).expect("the sample document is well shaped");

    let config = req.context.get("config").expect("context.config is present");
    match config {
        Value::Obj(entries) => {
            let env = entries
                .iter()
                .find(|(k, _)| k == "env")
                .map(|(_, v)| v)
                .expect("context.config.env is present");
            match env {
                Value::Obj(env_entries) => {
                    let repo = env_entries
                        .iter()
                        .find(|(k, _)| k == "GITHUB_REPOSITORY")
                        .map(|(_, v)| v)
                        .expect("GITHUB_REPOSITORY is present");
                    assert_eq!(
                        repo,
                        &Value::Str("scitt-community/scitt-api-emulator".to_string())
                    );
                }
                other => panic!("expected an object, got {:?}", other),
            }
        }
        other => panic!("expected an object, got {:?}", other),
    }

    assert_eq!(req.workflow.jobs.entries.len(), 1);
    let (job_name, job) = &req.workflow.jobs.entries[0];
    assert_eq!(job_name, "lint");
    assert_eq!(job.runs_on, Value::Str("ubuntu-latest".to_string()));
    let steps = job.steps.as_ref().expect("the lint job has steps");
    assert_eq!(steps.len(), 1);
    assert_eq!(steps[0].uses, Some("actions/checkout@v4".to_string()));
    assert_eq!(steps[0].run, None);
    assert!(steps[0].with_inputs.entries.is_empty());

    assert!(req.workflow.validate().is_ok());

    let status = PolicyEngineStatus::new(
        PolicyEngineStatuses::Submitted,
        StrMap { entries: Vec::new() },
    )
    .expect("submitted is accepted");
    assert_eq!(status.status, PolicyEngineStatuses::Submitted);
}

#[test]
fn sample_document_submits_through_the_entry_point() {
    let status = submit_request_document(sample_document()).expect("admission succeeds");
    assert_eq!(status.status, PolicyEngineStatuses::Submitted);
    assert!(status.detail.entries.is_empty());
}

#[test]
fn duplicate_job_names_are_kept_as_distinct_entries_and_pass_validation() {
    let job = |label: &str| {
        obj(vec![
            ("runs-on", Value::Str(label.to_string())),
            ("steps", Value::List(Vec::new())),
        ])
    };
    let doc = obj(vec![
        (
            "workflow",
            obj(vec![
                ("on", Value::Str("push".to_string())),
                (
                    "jobs",
                    obj(vec![("lint", job("ubuntu-latest")), ("lint", job("macos-latest"))]),
                ),
            ]),
        ),
    ]);
    let req = request_from_value(doc).expect("duplicate job names are not a parse error");
    assert_eq!(req.workflow.jobs.entries.len(), 2);
    assert_eq!(req.workflow.jobs.entries[0].0, "lint");
    assert_eq!(req.workflow.jobs.entries[1].0, "lint");
    assert_eq!(
        req.workflow.jobs.entries[0].1.runs_on,
        Value::Str("ubuntu-latest".to_string())
    );
    assert_eq!(
        req.workflow.jobs.entries[1].1.runs_on,
        Value::Str("macos-latest".to_string())
    );
    // The known gap: validation does not yet reject the duplicate.
    assert!(req.workflow.validate().is_ok());
}

#[test]
fn missing_workflow_is_a_missing_field() {
    let doc = obj(vec![("inputs", obj(Vec::new()))]);
    match request_from_value(doc) {
        Err(ValidationError::MissingField(m)) => {
            assert!(m.0.contains("workflow"));
        }
        other => panic!("expected MissingField, got {:?}", other),
    }
}

#[test]
fn non_mapping_documents_are_rejected() {
    assert!(matches!(
        request_from_value(Value::Str("push".to_string())),
        Err(ValidationError::CustomError(_))
    ));
    assert!(matches!(
        workflow_from_value(Value::List(Vec::new())),
        Err(ValidationError::CustomError(_))
    ));
    assert!(matches!(
        job_from_value(Value::Null),
        Err(ValidationError::CustomError(_))
    ));
    assert!(matches!(
        step_from_value(Value::Int(4)),
        Err(ValidationError::CustomError(_))
    ));
}

#[test]
fn workflow_requires_on_and_jobs() {
    let missing_on = obj(vec![("jobs", obj(Vec::new()))]);
    assert!(matches!(
        workflow_from_value(missing_on),
        Err(ValidationError::MissingField(_))
    ));
    let missing_jobs = obj(vec![("on", Value::Str("push".to_string()))]);
    assert!(matches!(
        workflow_from_value(missing_jobs),
        Err(ValidationError::MissingField(_))
    ));
    let bad_jobs = obj(vec![
        ("on", Value::Str("push".to_string())),
        ("jobs", Value::List(Vec::new())),
    ]);
    assert!(matches!(
        workflow_from_value(bad_jobs),
        Err(ValidationError::CustomError(_))
    ));
}

#[test]
fn job_requires_runs_on_and_a_step_list() {
    let missing_runs_on = obj(vec![("steps", Value::List(Vec::new()))]);
    assert!(matches!(
        job_from_value(missing_runs_on),
        Err(ValidationError::MissingField(_))
    ));
    let bad_steps = obj(vec![
        ("runs-on", Value::Str("ubuntu-latest".to_string())),
        ("steps", Value::Str("checkout".to_string())),
    ]);
    assert!(matches!(
        job_from_value(bad_steps),
        Err(ValidationError::CustomError(_))
    ));
    let no_steps = obj(vec![("runs-on", Value::Str("ubuntu-latest".to_string()))]);
    let job = job_from_value(no_steps).expect("steps are optional");
    assert!(job.steps.is_none());
}

#[test]
fn runs_on_keeps_its_open_shape() {
    let matrix = obj(vec![(
        "runs-on",
        Value::List(vec![
            Value::Str("ubuntu-latest".to_string()),
            Value::Str("macos-latest".to_string()),
        ]),
    )]);
    let job = job_from_value(matrix).expect("a list runner label is legitimate");
    assert_eq!(
        job.runs_on,
        Value::List(vec![
            Value::Str("ubuntu-latest".to_string()),
            Value::Str("macos-latest".to_string()),
        ])
    );
}

#[test]
fn step_fields_decode_and_default() {
    let step = obj(vec![
        ("if", Value::Str("github.ref == 'refs/heads/main'".to_string())),
        ("name", Value::Null),
        ("run", Value::Str("cargo test".to_string())),
        ("shell", Value::Str("bash".to_string())),
        (
            "with",
            obj(vec![("token", Value::Str("t".to_string()))]),
        ),
        ("unrecognized", Value::Int(1)),
    ]);
    let st = step_from_value(step).expect("a well-shaped step decodes");
    assert_eq!(st.if_condition, Some("github.ref == 'refs/heads/main'".to_string()));
    assert_eq!(st.name, None);
    assert_eq!(st.uses, None);
    assert_eq!(st.shell, Some("bash".to_string()));
    assert_eq!(st.run, Some("cargo test".to_string()));
    assert_eq!(
        st.with_inputs.entries,
        vec![("token".to_string(), Value::Str("t".to_string()))]
            .into_iter()
            .map(|(k, v)| match v {
                Value::Str(s) => (k, s),
                _ => unreachable!(),
            })
            .collect::<Vec<_>>()
    );
    assert!(st.env.entries.is_empty());
}

#[test]
fn step_string_fields_must_be_strings() {
    let bad = obj(vec![("uses", Value::Int(1))]);
    assert!(matches!(
        step_from_value(bad),
        Err(ValidationError::CustomError(_))
    ));
    let bad_with = obj(vec![(
        "with",
        obj(vec![("token", Value::Int(1))]),
    )]);
    assert!(matches!(
        step_from_value(bad_with),
        Err(ValidationError::CustomError(_))
    ));
}

#[test]
fn absent_open_mappings_default_to_empty() {
    let doc = obj(vec![(
        "workflow",
        obj(vec![
            ("on", Value::Str("push".to_string())),
            ("jobs", obj(Vec::new())),
        ]),
    )]);
    let req = request_from_value(doc).expect("inputs, context and stack are optional");
    assert!(req.inputs.entries.is_empty());
    assert!(req.context.entries.is_empty());
    assert!(req.stack.entries.is_empty());
    assert_eq!(req.workflow.name, None);
}
