//! The outbound wire forms of the status model. A status document is an
//! object with a `status` field carrying one of five fixed lowercase tokens
//! and a `detail` field carrying the auxiliary mapping; each payload variant
//! has its own object form, with `exit_status` restricted to the `success`
//! and `failure` tokens. Encoding and decoding work on [`Value`] trees;
//! turning a tree into transport bytes is the host's concern. Decoding
//! consults the validator exactly as direct construction does, and the
//! round-trip laws state that nothing is lost on the way out and back.

use vstd::prelude::*;
use crate::error::{StringError, ValidationError};
use crate::decode::{str_entries_from, str_entries_ok, str_entries_val};
use crate::status::{
    PolicyEngineComplete, PolicyEngineCompleteExitStatuses, PolicyEngineInProgress,
    PolicyEngineInputValidationError, PolicyEngineStatus, PolicyEngineStatuses,
    PolicyEngineStatusUpdateJob, PolicyEngineStatusUpdateJobStep, PolicyEngineSubmitted,
    PolicyEngineUnknown,
};
use crate::strmap::{assoc_get, lemma_assoc_get_first_match, str_eq, StrMap};
use crate::value::{take_entry, Value};

verus! {

/// The wire token of a status tag: always one of the five fixed lowercase
/// tokens.
pub open spec fn spec_wire_tag(s: PolicyEngineStatuses) -> Seq<char> {
    match s {
        PolicyEngineStatuses::Submitted => "submitted"@,
        PolicyEngineStatuses::InProgress => "in_progress"@,
        PolicyEngineStatuses::Complete => "complete"@,
        PolicyEngineStatuses::Unknown => "unknown"@,
        PolicyEngineStatuses::InputValidationError => "input_validation_error"@,
    }
}

/// The status tag a wire token stands for, if any.
pub open spec fn spec_status_of_tag(t: Seq<char>) -> Option<PolicyEngineStatuses> {
    if t == "submitted"@ {
        Some(PolicyEngineStatuses::Submitted)
    } else if t == "in_progress"@ {
        Some(PolicyEngineStatuses::InProgress)
    } else if t == "complete"@ {
        Some(PolicyEngineStatuses::Complete)
    } else if t == "unknown"@ {
        Some(PolicyEngineStatuses::Unknown)
    } else if t == "input_validation_error"@ {
        Some(PolicyEngineStatuses::InputValidationError)
    } else {
        None
    }
}

/// Emits the wire token of a status tag.
pub fn wire_tag(s: &PolicyEngineStatuses) -> (r: String)
    ensures
        r@ == spec_wire_tag(*s),
{
    match s {
        PolicyEngineStatuses::Submitted => "submitted".to_owned(),
        PolicyEngineStatuses::InProgress => "in_progress".to_owned(),
        PolicyEngineStatuses::Complete => "complete".to_owned(),
        PolicyEngineStatuses::Unknown => "unknown".to_owned(),
        PolicyEngineStatuses::InputValidationError => "input_validation_error".to_owned(),
    }
}

/// Reads a wire token back into a status tag; unrecognized tokens give
/// nothing.
pub fn status_of_wire_tag(t: &str) -> (r: Option<PolicyEngineStatuses>)
    ensures
        r == spec_status_of_tag(t@),
{
    if str_eq(t, "submitted") {
        Some(PolicyEngineStatuses::Submitted)
    } else if str_eq(t, "in_progress") {
        Some(PolicyEngineStatuses::InProgress)
    } else if str_eq(t, "complete") {
        Some(PolicyEngineStatuses::Complete)
    } else if str_eq(t, "unknown") {
        Some(PolicyEngineStatuses::Unknown)
    } else if str_eq(t, "input_validation_error") {
        Some(PolicyEngineStatuses::InputValidationError)
    } else {
        None
    }
}

/// Reading a wire token back yields the tag it was emitted for: the token
/// mapping is injective over all five tags.
pub proof fn lemma_wire_tag_round_trip(s: PolicyEngineStatuses)
    ensures
        spec_status_of_tag(spec_wire_tag(s)) == Some(s),
{
    reveal_strlit("submitted");
    reveal_strlit("in_progress");
    reveal_strlit("complete");
    reveal_strlit("unknown");
    reveal_strlit("input_validation_error");
    assert("submitted"@.len() == 9);
    assert("in_progress"@.len() == 11);
    assert("complete"@.len() == 8);
    assert("unknown"@.len() == 7);
    assert("input_validation_error"@.len() == 22);
    match s {
        PolicyEngineStatuses::Submitted => {
            assert(spec_status_of_tag(spec_wire_tag(s)) == Some(s));
        },
        PolicyEngineStatuses::InProgress => {
            assert(spec_status_of_tag(spec_wire_tag(s)) == Some(s));
        },
        PolicyEngineStatuses::Complete => {
            assert(spec_status_of_tag(spec_wire_tag(s)) == Some(s));
        },
        PolicyEngineStatuses::Unknown => {
            assert(spec_status_of_tag(spec_wire_tag(s)) == Some(s));
        },
        PolicyEngineStatuses::InputValidationError => {
            assert(spec_status_of_tag(spec_wire_tag(s)) == Some(s));
        },
    }
}

/// The wire token of any tag is one of the five fixed lowercase tokens.
pub proof fn lemma_wire_tag_is_token(s: PolicyEngineStatuses)
    ensures
        spec_wire_tag(s) == "submitted"@ || spec_wire_tag(s) == "in_progress"@
            || spec_wire_tag(s) == "complete"@ || spec_wire_tag(s) == "unknown"@
            || spec_wire_tag(s) == "input_validation_error"@,
{
}

/// How a status and its encoded tree relate: the tree is an object of
/// exactly a `status` entry carrying the wire token and a `detail` entry
/// carrying the detail mapping's entries, in that order.
pub open spec fn encoded_status(st: PolicyEngineStatus, v: Value) -> bool {
    match v {
        Value::Obj(es) => {
            &&& es@.len() == 2
            &&& es@[0].0@ == "status"@
            &&& es@[0].1 matches Value::Str(t) && t@ == spec_wire_tag(st.status)
            &&& es@[1].0@ == "detail"@
            &&& es@[1].1 == (Value::Obj(st.detail.entries))
        },
        _ => false,
    }
}

/// The status a tree decodes to, if any: the first `status` entry must
/// hold a recognized token other than `unknown`, and the first `detail`
/// entry must hold an object.
pub open spec fn spec_status_of_value(v: Value) -> Option<PolicyEngineStatus> {
    match v {
        Value::Obj(es) => match (assoc_get(es@, "status"@), assoc_get(es@, "detail"@)) {
            (Some(Value::Str(t)), Some(Value::Obj(d))) => match spec_status_of_tag(t@) {
                Some(s) => if s != PolicyEngineStatuses::Unknown {
                    Some(PolicyEngineStatus { status: s, detail: StrMap { entries: d } })
                } else {
                    None
                },
                None => None,
            },
            _ => None,
        },
        _ => None,
    }
}

/// Encodes a status into its wire tree.
pub fn status_to_value(st: PolicyEngineStatus) -> (r: Value)
    ensures
        encoded_status(st, r),
{
    let tag = wire_tag(&st.status);
    let mut es: Vec<(String, Value)> = Vec::new();
    es.push(("status".to_owned(), Value::Str(tag)));
    es.push(("detail".to_owned(), Value::Obj(st.detail.entries)));
    Value::Obj(es)
}

/// Decodes a wire tree back into a status, consulting the validator as
/// every construction does: a tree whose token is `unknown` is rejected
/// the same way direct construction is.
pub fn status_from_value(v: Value) -> (r: Result<PolicyEngineStatus, ValidationError>)
    ensures
        r is Ok <==> spec_status_of_value(v) is Some,
        r matches Ok(s) ==> Some(s) == spec_status_of_value(v),
        r matches Err(e) ==> (e matches ValidationError::CustomError(_)
            || e matches ValidationError::MissingField(_)),
{
    match v {
        Value::Obj(mut es) => {
            let tagv = take_entry(&mut es, "status");
            proof {
                reveal_strlit("status");
                reveal_strlit("detail");
                assert("status"@[0] != "detail"@[0]);
            }
            let detailv = take_entry(&mut es, "detail");
            match (tagv, detailv) {
                (Some(Value::Str(t)), Some(Value::Obj(d))) => {
                    match status_of_wire_tag(t.as_str()) {
                        Some(s) => {
                            match PolicyEngineStatus::new(s, StrMap { entries: d }) {
                                Ok(st) => Ok(st),
                                Err(e) => Err(e),
                            }
                        },
                        None => Err(ValidationError::CustomError(
                            StringError::new("status is not a recognized token.".to_owned()),
                        )),
                    }
                },
                _ => Err(ValidationError::MissingField(
                    StringError::new(
                        "status and detail are required and must be a token and a mapping.".to_owned(),
                    ),
                )),
            }
        },
        _ => Err(ValidationError::CustomError(
            StringError::new("a status document must be a mapping.".to_owned()),
        )),
    }
}

/// The round-trip law: decoding the encoding of any constructible status
/// (one that does not hold the `Unknown` sentinel) yields it back
/// unchanged. Together with [`lemma_wire_tag_is_token`] this pins the wire
/// form: the tag on the wire is always one of the five fixed tokens, and
/// no information is lost on the way out and back.
pub proof fn lemma_status_value_round_trip(st: PolicyEngineStatus, v: Value)
    requires
        st.wf(),
        encoded_status(st, v),
    ensures
        spec_status_of_value(v) == Some(st),
{
    let es = v->Obj_0;
    reveal_strlit("status");
    reveal_strlit("detail");
    assert("status"@[0] != "detail"@[0]);
    assert(assoc_get(es@, "status"@) == Some(es@[0].1));
    assert(es@.drop_first()[0] == es@[1]);
    assert(assoc_get(es@.drop_first(), "detail"@) == Some(es@[1].1));
    assert(assoc_get(es@, "detail"@) == Some(es@[1].1));
    lemma_wire_tag_round_trip(st.status);
    let t = es@[0].1->Str_0;
    let d = es@[1].1->Obj_0;
    assert(spec_status_of_tag(t@) == Some(st.status));
    assert((StrMap { entries: d }) == st.detail);
    assert(spec_status_of_value(v) == Some(st));
}

/// The wire token of a terminal outcome: exactly `success` or `failure`.
pub open spec fn spec_exit_status_token(x: PolicyEngineCompleteExitStatuses) -> Seq<char> {
    match x {
        PolicyEngineCompleteExitStatuses::Success => "success"@,
        PolicyEngineCompleteExitStatuses::Failure => "failure"@,
    }
}

/// The terminal outcome a wire token stands for, if any: no token besides
/// the two terminal ones is accepted.
pub open spec fn spec_exit_status_of_token(t: Seq<char>) -> Option<
    PolicyEngineCompleteExitStatuses,
> {
    if t == "success"@ {
        Some(PolicyEngineCompleteExitStatuses::Success)
    } else if t == "failure"@ {
        Some(PolicyEngineCompleteExitStatuses::Failure)
    } else {
        None
    }
}

/// Emits the wire token of a terminal outcome.
pub fn exit_status_token(x: &PolicyEngineCompleteExitStatuses) -> (r: String)
    ensures
        r@ == spec_exit_status_token(*x),
{
    match x {
        PolicyEngineCompleteExitStatuses::Success => "success".to_owned(),
        PolicyEngineCompleteExitStatuses::Failure => "failure".to_owned(),
    }
}

/// Reads a wire token back into a terminal outcome; anything besides
/// `success` and `failure` gives nothing.
pub fn exit_status_of_token(t: &str) -> (r: Option<PolicyEngineCompleteExitStatuses>)
    ensures
        r == spec_exit_status_of_token(t@),
{
    if str_eq(t, "success") {
        Some(PolicyEngineCompleteExitStatuses::Success)
    } else if str_eq(t, "failure") {
        Some(PolicyEngineCompleteExitStatuses::Failure)
    } else {
        None
    }
}

/// Reading an outcome token back yields the outcome it was emitted for.
pub proof fn lemma_exit_status_token_round_trip(x: PolicyEngineCompleteExitStatuses)
    ensures
        spec_exit_status_of_token(spec_exit_status_token(x)) == Some(x),
{
    reveal_strlit("success");
    reveal_strlit("failure");
    assert("success"@.len() == 7);
    assert("failure"@.len() == 7);
    assert("success"@[0] == 's' && "failure"@[0] == 'f');
    match x {
        PolicyEngineCompleteExitStatuses::Success => {
            assert(spec_exit_status_of_token(spec_exit_status_token(x)) == Some(x));
        },
        PolicyEngineCompleteExitStatuses::Failure => {
            assert(spec_exit_status_of_token(spec_exit_status_token(x)) == Some(x));
        },
    }
}

/// How a submitted payload and its encoded tree relate: an object of
/// exactly one `id` entry carrying the id.
pub open spec fn encoded_submitted(p: PolicyEngineSubmitted, v: Value) -> bool {
    match v {
        Value::Obj(es) => es@.len() == 1 && es@[0].0@ == "id"@ && es@[0].1 == (Value::Str(p.id)),
        _ => false,
    }
}

/// The submitted payload a tree decodes to, if any: the first `id` entry
/// must hold a non-empty string, as the id invariant demands.
pub open spec fn spec_submitted_of_value(v: Value) -> Option<PolicyEngineSubmitted> {
    match v {
        Value::Obj(es) => match assoc_get(es@, "id"@) {
            Some(Value::Str(id)) => if id@.len() != 0 {
                Some(PolicyEngineSubmitted { id })
            } else {
                None
            },
            _ => None,
        },
        _ => None,
    }
}

/// Encodes a submitted payload into its wire tree.
pub fn submitted_to_value(p: PolicyEngineSubmitted) -> (r: Value)
    ensures
        encoded_submitted(p, r),
{
    let mut es: Vec<(String, Value)> = Vec::new();
    es.push(("id".to_owned(), Value::Str(p.id)));
    Value::Obj(es)
}

/// Decodes a submitted payload, consulting the id check as every
/// construction does.
pub fn submitted_from_value(v: Value) -> (r: Result<PolicyEngineSubmitted, ValidationError>)
    ensures
        r is Ok <==> spec_submitted_of_value(v) is Some,
        r matches Ok(p) ==> Some(p) == spec_submitted_of_value(v),
        r matches Err(e) ==> (e matches ValidationError::CustomError(_)
            || e matches ValidationError::MissingField(_)),
{
    match v {
        Value::Obj(mut es) => match take_entry(&mut es, "id") {
            Some(Value::Str(id)) => PolicyEngineSubmitted::new(id),
            Some(_) => Err(ValidationError::CustomError(
                StringError::new("id must be a string.".to_owned()),
            )),
            None => Err(ValidationError::MissingField(
                StringError::new("id is required and cannot be empty.".to_owned()),
            )),
        },
        _ => Err(ValidationError::CustomError(
            StringError::new("a submitted payload must be a mapping.".to_owned()),
        )),
    }
}

/// The round-trip law for submitted payloads: decoding the encoding of a
/// well-formed payload yields it back unchanged.
pub proof fn lemma_submitted_value_round_trip(p: PolicyEngineSubmitted, v: Value)
    requires
        p.wf(),
        encoded_submitted(p, v),
    ensures
        spec_submitted_of_value(v) == Some(p),
{
    let es = v->Obj_0;
    assert(assoc_get(es@, "id"@) == Some(es@[0].1));
    assert((PolicyEngineSubmitted { id: p.id }) == p);
}

/// How an unknown-id payload and its encoded tree relate: an object of
/// exactly one `id` entry carrying the id.
pub open spec fn encoded_unknown(p: PolicyEngineUnknown, v: Value) -> bool {
    match v {
        Value::Obj(es) => es@.len() == 1 && es@[0].0@ == "id"@ && es@[0].1 == (Value::Str(p.id)),
        _ => false,
    }
}

/// The unknown-id payload a tree decodes to, if any.
pub open spec fn spec_unknown_of_value(v: Value) -> Option<PolicyEngineUnknown> {
    match v {
        Value::Obj(es) => match assoc_get(es@, "id"@) {
            Some(Value::Str(id)) => if id@.len() != 0 {
                Some(PolicyEngineUnknown { id })
            } else {
                None
            },
            _ => None,
        },
        _ => None,
    }
}

/// Encodes an unknown-id payload into its wire tree.
pub fn unknown_to_value(p: PolicyEngineUnknown) -> (r: Value)
    ensures
        encoded_unknown(p, r),
{
    let mut es: Vec<(String, Value)> = Vec::new();
    es.push(("id".to_owned(), Value::Str(p.id)));
    Value::Obj(es)
}

/// Decodes an unknown-id payload, consulting the id check as every
/// construction does.
pub fn unknown_from_value(v: Value) -> (r: Result<PolicyEngineUnknown, ValidationError>)
    ensures
        r is Ok <==> spec_unknown_of_value(v) is Some,
        r matches Ok(p) ==> Some(p) == spec_unknown_of_value(v),
        r matches Err(e) ==> (e matches ValidationError::CustomError(_)
            || e matches ValidationError::MissingField(_)),
{
    match v {
        Value::Obj(mut es) => match take_entry(&mut es, "id") {
            Some(Value::Str(id)) => PolicyEngineUnknown::new(id),
            Some(_) => Err(ValidationError::CustomError(
                StringError::new("id must be a string.".to_owned()),
            )),
            None => Err(ValidationError::MissingField(
                StringError::new("id is required and cannot be empty.".to_owned()),
            )),
        },
        _ => Err(ValidationError::CustomError(
            StringError::new("an unknown payload must be a mapping.".to_owned()),
        )),
    }
}

/// The round-trip law for unknown-id payloads.
pub proof fn lemma_unknown_value_round_trip(p: PolicyEngineUnknown, v: Value)
    requires
        p.wf(),
        encoded_unknown(p, v),
    ensures
        spec_unknown_of_value(v) == Some(p),
{
    let es = v->Obj_0;
    assert(assoc_get(es@, "id"@) == Some(es@[0].1));
    assert((PolicyEngineUnknown { id: p.id }) == p);
}

/// The complete-payload field names are pairwise distinct.
proof fn complete_keys_distinct()
    ensures
        "id"@ != "exit_status"@ && "id"@ != "outputs"@ && "id"@ != "annotations"@,
        "exit_status"@ != "outputs"@ && "exit_status"@ != "annotations"@,
        "outputs"@ != "annotations"@,
{
    reveal_strlit("id");
    reveal_strlit("exit_status");
    reveal_strlit("outputs");
    reveal_strlit("annotations");
    assert("id"@.len() == 2);
    assert("exit_status"@.len() == 11);
    assert("outputs"@.len() == 7);
    assert("annotations"@.len() == 11);
    assert("exit_status"@[0] == 'e' && "annotations"@[0] == 'a');
}

/// How a complete payload and its encoded tree relate: an object of
/// exactly an `id`, an `exit_status` token, an `outputs` object and an
/// `annotations` object, in that order.
pub open spec fn encoded_complete(p: PolicyEngineComplete, v: Value) -> bool {
    match v {
        Value::Obj(es) => {
            &&& es@.len() == 4
            &&& es@[0].0@ == "id"@
            &&& es@[0].1 == (Value::Str(p.id))
            &&& es@[1].0@ == "exit_status"@
            &&& es@[1].1 matches Value::Str(t) && t@ == spec_exit_status_token(p.exit_status)
            &&& es@[2].0@ == "outputs"@
            &&& es@[2].1 == (Value::Obj(p.outputs.entries))
            &&& es@[3].0@ == "annotations"@
            &&& es@[3].1 == (Value::Obj(p.annotations.entries))
        },
        _ => false,
    }
}

/// The complete payload a tree decodes to, if any: the id must be a
/// non-empty string, the outcome token exactly `success` or `failure`,
/// and the two mappings objects.
pub open spec fn spec_complete_of_value(v: Value) -> Option<PolicyEngineComplete> {
    match v {
        Value::Obj(es) => match (
            assoc_get(es@, "id"@),
            assoc_get(es@, "exit_status"@),
            assoc_get(es@, "outputs"@),
            assoc_get(es@, "annotations"@),
        ) {
            (
                Some(Value::Str(id)),
                Some(Value::Str(t)),
                Some(Value::Obj(o)),
                Some(Value::Obj(a)),
            ) => match spec_exit_status_of_token(t@) {
                Some(x) => if id@.len() != 0 {
                    Some(PolicyEngineComplete {
                        id,
                        exit_status: x,
                        outputs: StrMap { entries: o },
                        annotations: StrMap { entries: a },
                    })
                } else {
                    None
                },
                None => None,
            },
            _ => None,
        },
        _ => None,
    }
}

/// Encodes a complete payload into its wire tree.
pub fn complete_to_value(p: PolicyEngineComplete) -> (r: Value)
    ensures
        encoded_complete(p, r),
{
    let token = exit_status_token(&p.exit_status);
    let mut es: Vec<(String, Value)> = Vec::new();
    es.push(("id".to_owned(), Value::Str(p.id)));
    es.push(("exit_status".to_owned(), Value::Str(token)));
    es.push(("outputs".to_owned(), Value::Obj(p.outputs.entries)));
    es.push(("annotations".to_owned(), Value::Obj(p.annotations.entries)));
    Value::Obj(es)
}

/// Decodes a complete payload, consulting the id check as every
/// construction does; no outcome token besides `success` and `failure` is
/// accepted.
pub fn complete_from_value(v: Value) -> (r: Result<PolicyEngineComplete, ValidationError>)
    ensures
        r is Ok <==> spec_complete_of_value(v) is Some,
        r matches Ok(p) ==> Some(p) == spec_complete_of_value(v),
        r matches Err(e) ==> (e matches ValidationError::CustomError(_)
            || e matches ValidationError::MissingField(_)),
{
    match v {
        Value::Obj(mut es) => {
            proof {
                complete_keys_distinct();
            }
            let idv = take_entry(&mut es, "id");
            let tokenv = take_entry(&mut es, "exit_status");
            let outputsv = take_entry(&mut es, "outputs");
            let annotationsv = take_entry(&mut es, "annotations");
            match (idv, tokenv, outputsv, annotationsv) {
                (
                    Some(Value::Str(id)),
                    Some(Value::Str(t)),
                    Some(Value::Obj(o)),
                    Some(Value::Obj(a)),
                ) => match exit_status_of_token(t.as_str()) {
                    Some(x) => PolicyEngineComplete::new(
                        id,
                        x,
                        StrMap { entries: o },
                        StrMap { entries: a },
                    ),
                    None => Err(ValidationError::CustomError(
                        StringError::new(
                            "exit_status must be success or failure.".to_owned(),
                        ),
                    )),
                },
                _ => Err(ValidationError::MissingField(
                    StringError::new(
                        "id, exit_status, outputs and annotations are required.".to_owned(),
                    ),
                )),
            }
        },
        _ => Err(ValidationError::CustomError(
            StringError::new("a complete payload must be a mapping.".to_owned()),
        )),
    }
}

/// The round-trip law for complete payloads: decoding the encoding of a
/// well-formed payload yields it back unchanged, outcome token included.
pub proof fn lemma_complete_value_round_trip(p: PolicyEngineComplete, v: Value)
    requires
        p.wf(),
        encoded_complete(p, v),
    ensures
        spec_complete_of_value(v) == Some(p),
{
    let es = v->Obj_0;
    complete_keys_distinct();
    lemma_assoc_get_first_match(es@, 0, "id"@);
    lemma_assoc_get_first_match(es@, 1, "exit_status"@);
    lemma_assoc_get_first_match(es@, 2, "outputs"@);
    lemma_assoc_get_first_match(es@, 3, "annotations"@);
    lemma_exit_status_token_round_trip(p.exit_status);
    let o = es@[2].1->Obj_0;
    let a = es@[3].1->Obj_0;
    assert((StrMap { entries: o }) == p.outputs);
    assert((StrMap { entries: a }) == p.annotations);
    assert(spec_complete_of_value(v) == Some(PolicyEngineComplete {
        id: p.id,
        exit_status: p.exit_status,
        outputs: p.outputs,
        annotations: p.annotations,
    }));
    assert((PolicyEngineComplete {
        id: p.id,
        exit_status: p.exit_status,
        outputs: p.outputs,
        annotations: p.annotations,
    }) == p);
}

/// How a rejection payload and its encoded tree relate: an object of the
/// message, the location path as a list of strings, the kind tag under the
/// `type` field name, and the optional documentation link and input echo,
/// absent ones carried as null.
pub open spec fn encoded_input_validation_error(
    p: PolicyEngineInputValidationError,
    v: Value,
) -> bool {
    match v {
        Value::Obj(es) => {
            &&& es@.len() == 5
            &&& es@[0].0@ == "msg"@
            &&& es@[0].1 == (Value::Str(p.msg))
            &&& es@[1].0@ == "loc"@
            &&& es@[1].1 matches Value::List(l) && l@.len() == p.loc@.len() && (forall|i: int|
                0 <= i < l@.len() ==> l@[i] == (Value::Str(p.loc@[i])))
            &&& es@[2].0@ == "type"@
            &&& es@[2].1 == (Value::Str(p.error_type))
            &&& es@[3].0@ == "url"@
            &&& es@[3].1 == (match p.url {
                Some(u) => Value::Str(u),
                None => Value::Null,
            })
            &&& es@[4].0@ == "input"@
            &&& es@[4].1 == (match p.input {
                Some(s) => Value::Str(s),
                None => Value::Null,
            })
        },
        _ => false,
    }
}

/// Encodes a rejection payload into the wire document a caller sees when
/// request admission fails.
pub fn input_validation_error_to_value(p: PolicyEngineInputValidationError) -> (r: Value)
    ensures
        encoded_input_validation_error(p, r),
{
    let PolicyEngineInputValidationError { msg, loc, error_type, url, input } = p;
    let mut loc_list: Vec<Value> = Vec::new();
    let mut rest = loc;
    while rest.len() > 0
        invariant
            loc_list@.len() + rest@.len() == p.loc@.len(),
            rest@ == p.loc@.subrange(loc_list@.len() as int, p.loc@.len() as int),
            forall|i: int| 0 <= i < loc_list@.len() ==> loc_list@[i] == (Value::Str(p.loc@[i])),
        decreases rest@.len(),
    {
        let ghost idx = loc_list@.len() as int;
        let seg = rest.remove(0);
        proof {
            assert(seg == p.loc@[idx]);
            assert(rest@ =~= p.loc@.subrange(idx + 1, p.loc@.len() as int));
        }
        loc_list.push(Value::Str(seg));
    }
    let mut es: Vec<(String, Value)> = Vec::new();
    es.push(("msg".to_owned(), Value::Str(msg)));
    es.push(("loc".to_owned(), Value::List(loc_list)));
    es.push(("type".to_owned(), Value::Str(error_type)));
    es.push(("url".to_owned(), match url {
        Some(u) => Value::Str(u),
        None => Value::Null,
    }));
    es.push(("input".to_owned(), match input {
        Some(s) => Value::Str(s),
        None => Value::Null,
    }));
    Value::Obj(es)
}

/// How a string-to-string mapping and its wire object relate: the same
/// names in order, each value wrapped as a string value.
pub open spec fn encoded_str_entries(m: Seq<(String, String)>, o: Seq<(String, Value)>) -> bool {
    o.len() == m.len() && forall|i: int| #![auto] 0 <= i < m.len()
        ==> o[i].0 == m[i].0 && o[i].1 == (Value::Str(m[i].1))
}

/// Wraps a string-to-string mapping into wire object entries.
fn str_entries_to_obj(m: StrMap<String>) -> (r: Vec<(String, Value)>)
    ensures
        encoded_str_entries(m.entries@, r@),
{
    let mut rest = m.entries;
    let mut out: Vec<(String, Value)> = Vec::new();
    while rest.len() > 0
        invariant
            out@.len() + rest@.len() == m.entries@.len(),
            rest@ == m.entries@.subrange(out@.len() as int, m.entries@.len() as int),
            forall|i: int| #![auto] 0 <= i < out@.len() ==> out@[i].0 == m.entries@[i].0
                && out@[i].1 == (Value::Str(m.entries@[i].1)),
        decreases rest@.len(),
    {
        let ghost idx = out@.len() as int;
        let (k, s) = rest.remove(0);
        proof {
            assert(m.entries@[idx] == (k, s));
            assert(rest@ =~= m.entries@.subrange(idx + 1, m.entries@.len() as int));
        }
        out.push((k, Value::Str(s)));
    }
    out
}

/// An encoded string mapping reads back as exactly its entries.
proof fn lemma_encoded_str_entries_decode(m: Seq<(String, String)>, o: Seq<(String, Value)>)
    requires
        encoded_str_entries(m, o),
    ensures
        str_entries_ok(o),
        str_entries_val(o) == m,
{
    assert(str_entries_val(o) =~= m) by {
        assert forall|i: int| 0 <= i < o.len() implies #[trigger] str_entries_val(o)[i] == m[i] by {
            assert(o[i].1 == (Value::Str(m[i].1)));
            assert(m[i] == (m[i].0, m[i].1));
        }
    }
}

/// The step-update field names are pairwise distinct.
proof fn step_update_keys_distinct()
    ensures
        "status"@ != "metadata"@ && "status"@ != "outputs"@,
        "metadata"@ != "outputs"@,
{
    reveal_strlit("status");
    reveal_strlit("metadata");
    reveal_strlit("outputs");
    assert("status"@.len() == 6);
    assert("metadata"@.len() == 8);
    assert("outputs"@.len() == 7);
}

/// How a step update and its encoded tree relate: an object of the status
/// token, the metadata mapping with string values, and the open outputs
/// mapping, in that order.
pub open spec fn encoded_step_update(u: PolicyEngineStatusUpdateJobStep, v: Value) -> bool {
    match v {
        Value::Obj(es) => {
            &&& es@.len() == 3
            &&& es@[0].0@ == "status"@
            &&& es@[0].1 matches Value::Str(t) && t@ == spec_wire_tag(u.status)
            &&& es@[1].0@ == "metadata"@
            &&& es@[1].1 matches Value::Obj(mo) && encoded_str_entries(u.metadata.entries@, mo@)
            &&& es@[2].0@ == "outputs"@
            &&& es@[2].1 == (Value::Obj(u.outputs.entries))
        },
        _ => false,
    }
}

/// The shape a step update decodes from: a recognized status token other
/// than `unknown`, a metadata object of string values, and an outputs
/// object.
pub open spec fn step_update_shape_ok(v: Value) -> bool {
    match v {
        Value::Obj(es) => {
            &&& assoc_get(es@, "status"@) matches Some(Value::Str(t))
                && spec_status_of_tag(t@) matches Some(s)
                && s != PolicyEngineStatuses::Unknown
            &&& assoc_get(es@, "metadata"@) matches Some(Value::Obj(mo)) && str_entries_ok(mo@)
            &&& assoc_get(es@, "outputs"@) matches Some(Value::Obj(_))
        },
        _ => false,
    }
}

/// How a decoded step update corresponds to its document form.
pub open spec fn step_update_matches(u: PolicyEngineStatusUpdateJobStep, v: Value) -> bool {
    match v {
        Value::Obj(es) => {
            &&& assoc_get(es@, "status"@) matches Some(Value::Str(t))
                && spec_status_of_tag(t@) == Some(u.status)
            &&& assoc_get(es@, "metadata"@) matches Some(Value::Obj(mo))
                && u.metadata.entries@ == str_entries_val(mo@)
            &&& assoc_get(es@, "outputs"@) == Some(Value::Obj(u.outputs.entries))
        },
        _ => false,
    }
}

/// Encodes a step update into its wire tree.
pub fn step_update_to_value(u: PolicyEngineStatusUpdateJobStep) -> (r: Value)
    ensures
        encoded_step_update(u, r),
{
    let PolicyEngineStatusUpdateJobStep { status, metadata, outputs } = u;
    let token = wire_tag(&status);
    let mo = str_entries_to_obj(metadata);
    let mut es: Vec<(String, Value)> = Vec::new();
    es.push(("status".to_owned(), Value::Str(token)));
    es.push(("metadata".to_owned(), Value::Obj(mo)));
    es.push(("outputs".to_owned(), Value::Obj(outputs.entries)));
    Value::Obj(es)
}

/// Decodes a step update, consulting the status check as every
/// construction does: a nested `unknown` status is rejected.
pub fn step_update_from_value(v: Value) -> (r: Result<
    PolicyEngineStatusUpdateJobStep,
    ValidationError,
>)
    ensures
        r is Ok <==> step_update_shape_ok(v),
        r matches Ok(u) ==> step_update_matches(u, v),
        r matches Err(e) ==> (e matches ValidationError::CustomError(_)
            || e matches ValidationError::MissingField(_)),
{
    match v {
        Value::Obj(mut es) => {
            proof {
                step_update_keys_distinct();
            }
            let statusv = take_entry(&mut es, "status");
            let metadatav = take_entry(&mut es, "metadata");
            let outputsv = take_entry(&mut es, "outputs");
            match (statusv, metadatav, outputsv) {
                (Some(Value::Str(t)), Some(Value::Obj(mo)), Some(Value::Obj(o))) => {
                    match status_of_wire_tag(t.as_str()) {
                        Some(s) => {
                            let metadata = match str_entries_from(mo) {
                                Ok(m) => m,
                                Err(e) => return Err(e),
                            };
                            PolicyEngineStatusUpdateJobStep::new(
                                s,
                                metadata,
                                StrMap { entries: o },
                            )
                        },
                        None => Err(ValidationError::CustomError(
                            StringError::new("status is not a recognized token.".to_owned()),
                        )),
                    }
                },
                _ => Err(ValidationError::MissingField(
                    StringError::new("status, metadata and outputs are required.".to_owned()),
                )),
            }
        },
        _ => Err(ValidationError::CustomError(
            StringError::new("a step update must be a mapping.".to_owned()),
        )),
    }
}

/// The round-trip law for step updates: the encoding of a well-formed
/// update is well shaped and reads back as the same update.
pub proof fn lemma_step_update_round_trip(u: PolicyEngineStatusUpdateJobStep, v: Value)
    requires
        u.wf(),
        encoded_step_update(u, v),
    ensures
        step_update_shape_ok(v),
        step_update_matches(u, v),
{
    let es = v->Obj_0;
    step_update_keys_distinct();
    lemma_assoc_get_first_match(es@, 0, "status"@);
    lemma_assoc_get_first_match(es@, 1, "metadata"@);
    lemma_assoc_get_first_match(es@, 2, "outputs"@);
    lemma_wire_tag_round_trip(u.status);
    let mo = es@[1].1->Obj_0;
    lemma_encoded_str_entries_decode(u.metadata.entries@, mo@);
}

/// How a mapping of step updates and its wire object relate: the same
/// names in order, each update encoded.
pub open spec fn encoded_step_update_entries(
    m: Seq<(String, PolicyEngineStatusUpdateJobStep)>,
    o: Seq<(String, Value)>,
) -> bool {
    o.len() == m.len() && forall|i: int| #![auto] 0 <= i < m.len()
        ==> o[i].0 == m[i].0 && encoded_step_update(m[i].1, o[i].1)
}

/// Encodes a mapping of step updates into wire object entries.
fn step_update_entries_to_obj(m: StrMap<PolicyEngineStatusUpdateJobStep>) -> (r: Vec<
    (String, Value),
>)
    ensures
        encoded_step_update_entries(m.entries@, r@),
{
    let mut rest = m.entries;
    let mut out: Vec<(String, Value)> = Vec::new();
    while rest.len() > 0
        invariant
            out@.len() + rest@.len() == m.entries@.len(),
            rest@ == m.entries@.subrange(out@.len() as int, m.entries@.len() as int),
            forall|i: int| #![auto] 0 <= i < out@.len() ==> out@[i].0 == m.entries@[i].0
                && encoded_step_update(m.entries@[i].1, out@[i].1),
        decreases rest@.len(),
    {
        let ghost idx = out@.len() as int;
        let (k, u) = rest.remove(0);
        proof {
            assert(m.entries@[idx] == (k, u));
            assert(rest@ =~= m.entries@.subrange(idx + 1, m.entries@.len() as int));
        }
        let uv = step_update_to_value(u);
        out.push((k, uv));
    }
    out
}

/// Decodes wire object entries into a mapping of step updates; fails on
/// the first ill-shaped one.
fn step_update_entries_from_obj(o: Vec<(String, Value)>) -> (r: Result<
    StrMap<PolicyEngineStatusUpdateJobStep>,
    ValidationError,
>)
    ensures
        r is Ok <==> (forall|i: int| 0 <= i < o@.len() ==> step_update_shape_ok(o@[i].1)),
        r matches Ok(m) ==> m.entries@.len() == o@.len() && forall|i: int|
            #![auto]
            0 <= i < o@.len() ==> m.entries@[i].0 == o@[i].0
                && step_update_matches(m.entries@[i].1, o@[i].1),
        r matches Err(e) ==> (e matches ValidationError::CustomError(_)
            || e matches ValidationError::MissingField(_)),
{
    let ghost orig = o@;
    let mut rest = o;
    let mut out: StrMap<PolicyEngineStatusUpdateJobStep> = StrMap::new();
    while rest.len() > 0
        invariant
            orig == o@,
            orig.len() == out.entries@.len() + rest@.len(),
            rest@ == orig.subrange(out.entries@.len() as int, orig.len() as int),
            forall|i: int| #![auto] 0 <= i < out.entries@.len()
                ==> step_update_shape_ok(orig[i].1) && out.entries@[i].0 == orig[i].0
                && step_update_matches(out.entries@[i].1, orig[i].1),
        decreases rest@.len(),
    {
        let ghost idx = out.entries@.len() as int;
        let (name, uv) = rest.remove(0);
        proof {
            assert(orig[idx] == (name, uv));
            assert(rest@ =~= orig.subrange(idx + 1, orig.len() as int));
        }
        match step_update_from_value(uv) {
            Ok(u) => out.push(name, u),
            Err(e) => return Err(e),
        }
    }
    Ok(out)
}

/// How a job update and its encoded tree relate: an object of exactly one
/// `steps` entry carrying the encoded step updates.
pub open spec fn encoded_job_update(j: PolicyEngineStatusUpdateJob, v: Value) -> bool {
    match v {
        Value::Obj(es) => {
            &&& es@.len() == 1
            &&& es@[0].0@ == "steps"@
            &&& es@[0].1 matches Value::Obj(ss)
                && encoded_step_update_entries(j.steps.entries@, ss@)
        },
        _ => false,
    }
}

/// The shape a job update decodes from: a `steps` object of well-shaped
/// step updates.
pub open spec fn job_update_shape_ok(v: Value) -> bool {
    match v {
        Value::Obj(es) => assoc_get(es@, "steps"@) matches Some(Value::Obj(ss))
            && (forall|i: int| 0 <= i < ss@.len() ==> step_update_shape_ok(ss@[i].1)),
        _ => false,
    }
}

/// How a decoded job update corresponds to its document form.
pub open spec fn job_update_matches(j: PolicyEngineStatusUpdateJob, v: Value) -> bool {
    match v {
        Value::Obj(es) => assoc_get(es@, "steps"@) matches Some(Value::Obj(ss))
            && j.steps.entries@.len() == ss@.len() && (forall|i: int|
            #![auto]
            0 <= i < ss@.len() ==> j.steps.entries@[i].0 == ss@[i].0
                && step_update_matches(j.steps.entries@[i].1, ss@[i].1)),
        _ => false,
    }
}

/// Encodes a job update into its wire tree.
pub fn job_update_to_value(j: PolicyEngineStatusUpdateJob) -> (r: Value)
    ensures
        encoded_job_update(j, r),
{
    let PolicyEngineStatusUpdateJob { steps } = j;
    let ss = step_update_entries_to_obj(steps);
    let mut es: Vec<(String, Value)> = Vec::new();
    es.push(("steps".to_owned(), Value::Obj(ss)));
    Value::Obj(es)
}

/// Decodes a job update.
pub fn job_update_from_value(v: Value) -> (r: Result<
    PolicyEngineStatusUpdateJob,
    ValidationError,
>)
    ensures
        r is Ok <==> job_update_shape_ok(v),
        r matches Ok(j) ==> job_update_matches(j, v),
        r matches Err(e) ==> (e matches ValidationError::CustomError(_)
            || e matches ValidationError::MissingField(_)),
{
    match v {
        Value::Obj(mut es) => match take_entry(&mut es, "steps") {
            Some(Value::Obj(ss)) => match step_update_entries_from_obj(ss) {
                Ok(m) => Ok(PolicyEngineStatusUpdateJob { steps: m }),
                Err(e) => Err(e),
            },
            Some(_) => Err(ValidationError::CustomError(
                StringError::new("steps must be a mapping.".to_owned()),
            )),
            None => Err(ValidationError::MissingField(
                StringError::new("steps is required.".to_owned()),
            )),
        },
        _ => Err(ValidationError::CustomError(
            StringError::new("a job update must be a mapping.".to_owned()),
        )),
    }
}

/// The round-trip law for job updates: the encoding of a well-formed
/// update is well shaped and reads back as the same update, step by step.
pub proof fn lemma_job_update_round_trip(j: PolicyEngineStatusUpdateJob, v: Value)
    requires
        j.wf(),
        encoded_job_update(j, v),
    ensures
        job_update_shape_ok(v),
        job_update_matches(j, v),
{
    let es = v->Obj_0;
    lemma_assoc_get_first_match(es@, 0, "steps"@);
    let ss = es@[0].1->Obj_0;
    assert forall|i: int| 0 <= i < ss@.len() implies step_update_shape_ok(#[trigger] ss@[i].1)
        && step_update_matches(j.steps.entries@[i].1, ss@[i].1) by {
        lemma_step_update_round_trip(j.steps.entries@[i].1, ss@[i].1);
    }
}

/// The in-progress field names are distinct.
proof fn in_progress_keys_distinct()
    ensures
        "id"@ != "status_updates"@,
{
    reveal_strlit("id");
    reveal_strlit("status_updates");
    assert("id"@.len() == 2);
    assert("status_updates"@.len() == 14);
}

/// How a mapping of job updates and its wire object relate.
pub open spec fn encoded_job_update_entries(
    m: Seq<(String, PolicyEngineStatusUpdateJob)>,
    o: Seq<(String, Value)>,
) -> bool {
    o.len() == m.len() && forall|i: int| #![auto] 0 <= i < m.len()
        ==> o[i].0 == m[i].0 && encoded_job_update(m[i].1, o[i].1)
}

/// Encodes a mapping of job updates into wire object entries.
fn job_update_entries_to_obj(m: StrMap<PolicyEngineStatusUpdateJob>) -> (r: Vec<(String, Value)>)
    ensures
        encoded_job_update_entries(m.entries@, r@),
{
    let mut rest = m.entries;
    let mut out: Vec<(String, Value)> = Vec::new();
    while rest.len() > 0
        invariant
            out@.len() + rest@.len() == m.entries@.len(),
            rest@ == m.entries@.subrange(out@.len() as int, m.entries@.len() as int),
            forall|i: int| #![auto] 0 <= i < out@.len() ==> out@[i].0 == m.entries@[i].0
                && encoded_job_update(m.entries@[i].1, out@[i].1),
        decreases rest@.len(),
    {
        let ghost idx = out@.len() as int;
        let (k, j) = rest.remove(0);
        proof {
            assert(m.entries@[idx] == (k, j));
            assert(rest@ =~= m.entries@.subrange(idx + 1, m.entries@.len() as int));
        }
        let jv = job_update_to_value(j);
        out.push((k, jv));
    }
    out
}

/// Decodes wire object entries into a mapping of job updates; fails on
/// the first ill-shaped one.
fn job_update_entries_from_obj(o: Vec<(String, Value)>) -> (r: Result<
    StrMap<PolicyEngineStatusUpdateJob>,
    ValidationError,
>)
    ensures
        r is Ok <==> (forall|i: int| 0 <= i < o@.len() ==> job_update_shape_ok(o@[i].1)),
        r matches Ok(m) ==> m.entries@.len() == o@.len() && forall|i: int|
            #![auto]
            0 <= i < o@.len() ==> m.entries@[i].0 == o@[i].0
                && job_update_matches(m.entries@[i].1, o@[i].1),
        r matches Err(e) ==> (e matches ValidationError::CustomError(_)
            || e matches ValidationError::MissingField(_)),
{
    let ghost orig = o@;
    let mut rest = o;
    let mut out: StrMap<PolicyEngineStatusUpdateJob> = StrMap::new();
    while rest.len() > 0
        invariant
            orig == o@,
            orig.len() == out.entries@.len() + rest@.len(),
            rest@ == orig.subrange(out.entries@.len() as int, orig.len() as int),
            forall|i: int| #![auto] 0 <= i < out.entries@.len()
                ==> job_update_shape_ok(orig[i].1) && out.entries@[i].0 == orig[i].0
                && job_update_matches(out.entries@[i].1, orig[i].1),
        decreases rest@.len(),
    {
        let ghost idx = out.entries@.len() as int;
        let (name, jv) = rest.remove(0);
        proof {
            assert(orig[idx] == (name, jv));
            assert(rest@ =~= orig.subrange(idx + 1, orig.len() as int));
        }
        match job_update_from_value(jv) {
            Ok(j) => out.push(name, j),
            Err(e) => return Err(e),
        }
    }
    Ok(out)
}

/// How an in-progress payload and its encoded tree relate: an object of
/// the id and the encoded job updates, in that order.
pub open spec fn encoded_in_progress(p: PolicyEngineInProgress, v: Value) -> bool {
    match v {
        Value::Obj(es) => {
            &&& es@.len() == 2
            &&& es@[0].0@ == "id"@
            &&& es@[0].1 == (Value::Str(p.id))
            &&& es@[1].0@ == "status_updates"@
            &&& es@[1].1 matches Value::Obj(us)
                && encoded_job_update_entries(p.status_updates.entries@, us@)
        },
        _ => false,
    }
}

/// The shape an in-progress payload decodes from: a non-empty string id
/// and a `status_updates` object of well-shaped job updates.
pub open spec fn in_progress_shape_ok(v: Value) -> bool {
    match v {
        Value::Obj(es) => {
            &&& assoc_get(es@, "id"@) matches Some(Value::Str(id)) && id@.len() != 0
            &&& assoc_get(es@, "status_updates"@) matches Some(Value::Obj(us))
                && (forall|i: int| 0 <= i < us@.len() ==> job_update_shape_ok(us@[i].1))
        },
        _ => false,
    }
}

/// How a decoded in-progress payload corresponds to its document form.
pub open spec fn in_progress_matches(p: PolicyEngineInProgress, v: Value) -> bool {
    match v {
        Value::Obj(es) => {
            &&& assoc_get(es@, "id"@) == Some(Value::Str(p.id))
            &&& assoc_get(es@, "status_updates"@) matches Some(Value::Obj(us))
                && p.status_updates.entries@.len() == us@.len() && (forall|i: int|
                #![auto]
                0 <= i < us@.len() ==> p.status_updates.entries@[i].0 == us@[i].0
                    && job_update_matches(p.status_updates.entries@[i].1, us@[i].1))
        },
        _ => false,
    }
}

/// Encodes an in-progress payload into its wire tree.
pub fn in_progress_to_value(p: PolicyEngineInProgress) -> (r: Value)
    ensures
        encoded_in_progress(p, r),
{
    let PolicyEngineInProgress { id, status_updates } = p;
    let us = job_update_entries_to_obj(status_updates);
    let mut es: Vec<(String, Value)> = Vec::new();
    es.push(("id".to_owned(), Value::Str(id)));
    es.push(("status_updates".to_owned(), Value::Obj(us)));
    Value::Obj(es)
}

/// Decodes an in-progress payload, consulting the id check as every
/// construction does; every nested status goes through the status check.
pub fn in_progress_from_value(v: Value) -> (r: Result<PolicyEngineInProgress, ValidationError>)
    ensures
        r is Ok <==> in_progress_shape_ok(v),
        r matches Ok(p) ==> in_progress_matches(p, v),
        r matches Err(e) ==> (e matches ValidationError::CustomError(_)
            || e matches ValidationError::MissingField(_)),
{
    match v {
        Value::Obj(mut es) => {
            proof {
                in_progress_keys_distinct();
            }
            let idv = take_entry(&mut es, "id");
            let updatesv = take_entry(&mut es, "status_updates");
            match (idv, updatesv) {
                (Some(Value::Str(id)), Some(Value::Obj(us))) => {
                    let updates = match job_update_entries_from_obj(us) {
                        Ok(m) => m,
                        Err(e) => return Err(e),
                    };
                    PolicyEngineInProgress::new(id, updates)
                },
                _ => Err(ValidationError::MissingField(
                    StringError::new("id and status_updates are required.".to_owned()),
                )),
            }
        },
        _ => Err(ValidationError::CustomError(
            StringError::new("an in-progress payload must be a mapping.".to_owned()),
        )),
    }
}

/// The round-trip law for in-progress payloads: the encoding of a
/// well-formed payload is well shaped and reads back as the same payload,
/// job by job and step by step.
pub proof fn lemma_in_progress_round_trip(p: PolicyEngineInProgress, v: Value)
    requires
        p.wf(),
        p.updates_wf(),
        encoded_in_progress(p, v),
    ensures
        in_progress_shape_ok(v),
        in_progress_matches(p, v),
{
    let es = v->Obj_0;
    in_progress_keys_distinct();
    lemma_assoc_get_first_match(es@, 0, "id"@);
    lemma_assoc_get_first_match(es@, 1, "status_updates"@);
    let us = es@[1].1->Obj_0;
    assert forall|i: int| 0 <= i < us@.len() implies job_update_shape_ok(#[trigger] us@[i].1)
        && job_update_matches(p.status_updates.entries@[i].1, us@[i].1) by {
        lemma_job_update_round_trip(p.status_updates.entries@[i].1, us@[i].1);
    }
}

} // verus!
