//! Decoding a request document into the typed request model.
//!
//! A document arrives as an open [`Value`] tree (the host turns transport
//! bytes into the tree). Decoding is the parse phase: it only checks that
//! the tree has the right shape and never applies semantic policy, which
//! stays with [`crate::validate`]. Unrecognized extra fields are tolerated;
//! absent optional fields become empty or `None`. The shape a decoder
//! accepts, and the typed value it produces, are pinned by the
//! `*_shape_ok` and `*_matches` specifications.

use vstd::prelude::*;
use crate::error::{StringError, ValidationError};
use crate::status::{PolicyEngineStatus, PolicyEngineStatuses};
use crate::strmap::{assoc_get, unique_keys, StrMap};
use crate::value::{take_entry, Value};
use crate::workflow::{
    PolicyEngineRequest, PolicyEngineWorkflow, PolicyEngineWorkflowJob,
    PolicyEngineWorkflowJobStep,
};

verus! {

/// An optional string field: absent or null gives `None`, a string gives
/// its value, anything else is a shape error.
pub open spec fn opt_str_ok(s: Seq<(String, Value)>, k: Seq<char>) -> bool {
    match assoc_get(s, k) {
        None => true,
        Some(Value::Null) => true,
        Some(Value::Str(_)) => true,
        Some(_) => false,
    }
}

/// The value of an optional string field, when the shape is right.
pub open spec fn opt_str_val(s: Seq<(String, Value)>, k: Seq<char>) -> Option<String> {
    match assoc_get(s, k) {
        Some(Value::Str(x)) => Some(x),
        _ => None,
    }
}

/// Every entry of the object holds a string value.
pub open spec fn str_entries_ok(s: Seq<(String, Value)>) -> bool {
    forall|i: int| 0 <= i < s.len() ==> s[i].1 is Str
}

/// The entries of an all-string object, as string pairs in order.
pub open spec fn str_entries_val(s: Seq<(String, Value)>) -> Seq<(String, String)> {
    s.map(|i: int, e: (String, Value)| (e.0, e.1->Str_0))
}

/// A string-to-string mapping field: absent gives an empty mapping, an
/// object of string values gives its entries, anything else is a shape
/// error.
pub open spec fn strmap_field_ok(s: Seq<(String, Value)>, k: Seq<char>) -> bool {
    match assoc_get(s, k) {
        None => true,
        Some(Value::Obj(o)) => str_entries_ok(o@),
        Some(_) => false,
    }
}

/// The entries of a string-to-string mapping field, when the shape is
/// right.
pub open spec fn strmap_field_val(s: Seq<(String, Value)>, k: Seq<char>) -> Seq<
    (String, String),
> {
    match assoc_get(s, k) {
        Some(Value::Obj(o)) => str_entries_val(o@),
        _ => Seq::empty(),
    }
}

/// An open mapping field: absent gives an empty mapping, an object gives
/// its entries unchanged, anything else is a shape error.
pub open spec fn open_map_field_ok(s: Seq<(String, Value)>, k: Seq<char>) -> bool {
    match assoc_get(s, k) {
        None => true,
        Some(Value::Obj(_)) => true,
        Some(_) => false,
    }
}

/// The entries of an open mapping field, when the shape is right.
pub open spec fn open_map_field_val(s: Seq<(String, Value)>, k: Seq<char>) -> Seq<
    (String, Value),
> {
    match assoc_get(s, k) {
        Some(Value::Obj(o)) => o@,
        _ => Seq::empty(),
    }
}

/// The shape a step decodes from: an object whose optional fields, where
/// present, have the right kinds.
pub open spec fn step_shape_ok(v: Value) -> bool {
    match v {
        Value::Obj(es) => {
            &&& opt_str_ok(es@, "if"@)
            &&& opt_str_ok(es@, "name"@)
            &&& opt_str_ok(es@, "uses"@)
            &&& opt_str_ok(es@, "shell"@)
            &&& opt_str_ok(es@, "run"@)
            &&& strmap_field_ok(es@, "with"@)
            &&& strmap_field_ok(es@, "env"@)
        },
        _ => false,
    }
}

/// How a decoded step corresponds to its document form.
pub open spec fn step_matches(st: PolicyEngineWorkflowJobStep, v: Value) -> bool {
    match v {
        Value::Obj(es) => {
            &&& st.if_condition == opt_str_val(es@, "if"@)
            &&& st.name == opt_str_val(es@, "name"@)
            &&& st.uses == opt_str_val(es@, "uses"@)
            &&& st.shell == opt_str_val(es@, "shell"@)
            &&& st.run == opt_str_val(es@, "run"@)
            &&& st.with_inputs.entries@ == strmap_field_val(es@, "with"@)
            &&& st.env.entries@ == strmap_field_val(es@, "env"@)
        },
        _ => false,
    }
}

/// The shape a job decodes from: an object with a required `runs-on` of
/// any shape and an optional list of well-shaped steps.
pub open spec fn job_shape_ok(v: Value) -> bool {
    match v {
        Value::Obj(es) => {
            &&& assoc_get(es@, "runs-on"@) is Some
            &&& match assoc_get(es@, "steps"@) {
                None => true,
                Some(Value::Null) => true,
                Some(Value::List(l)) => forall|i: int|
                    0 <= i < l@.len() ==> step_shape_ok(l@[i]),
                Some(_) => false,
            }
        },
        _ => false,
    }
}

/// How a decoded job corresponds to its document form.
pub open spec fn job_matches(j: PolicyEngineWorkflowJob, v: Value) -> bool {
    match v {
        Value::Obj(es) => {
            &&& Some(j.runs_on) == assoc_get(es@, "runs-on"@)
            &&& match assoc_get(es@, "steps"@) {
                None => j.steps is None,
                Some(Value::Null) => j.steps is None,
                Some(Value::List(l)) => j.steps matches Some(ss) && ss@.len() == l@.len()
                    && forall|i: int| 0 <= i < l@.len() ==> step_matches(ss@[i], l@[i]),
                Some(_) => false,
            }
        },
        _ => false,
    }
}

/// The shape a workflow decodes from: an object with an optional string
/// `name`, a required open `on`, and a required `jobs` object whose every
/// value is a well-shaped job.
pub open spec fn workflow_shape_ok(v: Value) -> bool {
    match v {
        Value::Obj(es) => {
            &&& opt_str_ok(es@, "name"@)
            &&& assoc_get(es@, "on"@) is Some
            &&& match assoc_get(es@, "jobs"@) {
                Some(Value::Obj(js)) => forall|i: int|
                    0 <= i < js@.len() ==> job_shape_ok(js@[i].1),
                _ => false,
            }
        },
        _ => false,
    }
}

/// How a decoded workflow corresponds to its document form: jobs keep
/// their names and document order.
pub open spec fn workflow_matches(w: PolicyEngineWorkflow, v: Value) -> bool {
    match v {
        Value::Obj(es) => {
            &&& w.name == opt_str_val(es@, "name"@)
            &&& Some(w.on) == assoc_get(es@, "on"@)
            &&& match assoc_get(es@, "jobs"@) {
                Some(Value::Obj(js)) => w.jobs.entries@.len() == js@.len() && forall|i: int|
                    #![auto]
                    0 <= i < js@.len() ==> w.jobs.entries@[i].0 == js@[i].0
                        && job_matches(w.jobs.entries@[i].1, js@[i].1),
                _ => false,
            }
        },
        _ => false,
    }
}

/// The shape a request decodes from: an object with a required well-shaped
/// `workflow` and optional `inputs`, `context` and `stack` objects.
pub open spec fn request_shape_ok(v: Value) -> bool {
    match v {
        Value::Obj(es) => {
            &&& match assoc_get(es@, "workflow"@) {
                Some(w) => workflow_shape_ok(w),
                None => false,
            }
            &&& open_map_field_ok(es@, "inputs"@)
            &&& open_map_field_ok(es@, "context"@)
            &&& open_map_field_ok(es@, "stack"@)
        },
        _ => false,
    }
}

/// How a decoded request corresponds to its document form.
pub open spec fn request_matches(r: PolicyEngineRequest, v: Value) -> bool {
    match v {
        Value::Obj(es) => {
            &&& match assoc_get(es@, "workflow"@) {
                Some(w) => workflow_matches(r.workflow, w),
                None => false,
            }
            &&& r.inputs.entries@ == open_map_field_val(es@, "inputs"@)
            &&& r.context.entries@ == open_map_field_val(es@, "context"@)
            &&& r.stack.entries@ == open_map_field_val(es@, "stack"@)
        },
        _ => false,
    }
}

/// The step field names are pairwise distinct.
proof fn step_keys_distinct()
    ensures
        "if"@ != "name"@ && "if"@ != "uses"@ && "if"@ != "shell"@ && "if"@ != "run"@
            && "if"@ != "with"@ && "if"@ != "env"@,
        "name"@ != "uses"@ && "name"@ != "shell"@ && "name"@ != "run"@ && "name"@ != "with"@
            && "name"@ != "env"@,
        "uses"@ != "shell"@ && "uses"@ != "run"@ && "uses"@ != "with"@ && "uses"@ != "env"@,
        "shell"@ != "run"@ && "shell"@ != "with"@ && "shell"@ != "env"@,
        "run"@ != "with"@ && "run"@ != "env"@,
        "with"@ != "env"@,
{
    reveal_strlit("if");
    reveal_strlit("name");
    reveal_strlit("uses");
    reveal_strlit("shell");
    reveal_strlit("run");
    reveal_strlit("with");
    reveal_strlit("env");
    assert("if"@.len() == 2);
    assert("name"@.len() == 4);
    assert("uses"@.len() == 4);
    assert("shell"@.len() == 5);
    assert("run"@.len() == 3);
    assert("with"@.len() == 4);
    assert("env"@.len() == 3);
    assert("name"@[0] == 'n' && "uses"@[0] == 'u' && "with"@[0] == 'w');
    assert("run"@[0] == 'r' && "env"@[0] == 'e');
}

/// The job field names are distinct.
proof fn job_keys_distinct()
    ensures
        "runs-on"@ != "steps"@,
{
    reveal_strlit("runs-on");
    reveal_strlit("steps");
    assert("runs-on"@.len() == 7);
    assert("steps"@.len() == 5);
}

/// The workflow field names are pairwise distinct.
proof fn workflow_keys_distinct()
    ensures
        "name"@ != "on"@ && "name"@ != "jobs"@,
        "on"@ != "jobs"@,
{
    reveal_strlit("name");
    reveal_strlit("on");
    reveal_strlit("jobs");
    assert("name"@.len() == 4);
    assert("on"@.len() == 2);
    assert("jobs"@.len() == 4);
    assert("name"@[0] == 'n' && "jobs"@[0] == 'j');
}

/// The request field names are pairwise distinct.
proof fn request_keys_distinct()
    ensures
        "workflow"@ != "inputs"@ && "workflow"@ != "context"@ && "workflow"@ != "stack"@,
        "inputs"@ != "context"@ && "inputs"@ != "stack"@,
        "context"@ != "stack"@,
{
    reveal_strlit("workflow");
    reveal_strlit("inputs");
    reveal_strlit("context");
    reveal_strlit("stack");
    assert("workflow"@.len() == 8);
    assert("inputs"@.len() == 6);
    assert("context"@.len() == 7);
    assert("stack"@.len() == 5);
}

/// Takes an optional string field out of an object's entries.
fn take_opt_str(entries: &mut Vec<(String, Value)>, key: &str) -> (r: Result<
    Option<String>,
    ValidationError,
>)
    ensures
        r is Ok <==> opt_str_ok(old(entries)@, key@),
        r matches Ok(x) ==> x == opt_str_val(old(entries)@, key@),
        forall|k: Seq<char>| k != key@ ==>
            assoc_get(final(entries)@, k) == assoc_get(old(entries)@, k),
        r matches Err(e) ==> e matches ValidationError::CustomError(_),
{
    match take_entry(entries, key) {
        None => Ok(None),
        Some(Value::Null) => Ok(None),
        Some(Value::Str(s)) => Ok(Some(s)),
        Some(_) => Err(ValidationError::CustomError(
            StringError::new("expected a string or null.".to_owned()),
        )),
    }
}

/// Converts an object's entries into a string-to-string mapping; fails on
/// the first entry that does not hold a string.
pub(crate) fn str_entries_from(o: Vec<(String, Value)>) -> (r: Result<
    StrMap<String>,
    ValidationError,
>)
    ensures
        r is Ok <==> str_entries_ok(o@),
        r matches Ok(m) ==> m.entries@ == str_entries_val(o@),
        r matches Err(e) ==> e matches ValidationError::CustomError(_),
{
    let ghost orig = o@;
    let mut rest = o;
    let mut out: StrMap<String> = StrMap::new();
    while rest.len() > 0
        invariant
            orig == o@,
            orig.len() == out.entries@.len() + rest@.len(),
            rest@ == orig.subrange(out.entries@.len() as int, orig.len() as int),
            str_entries_ok(orig.subrange(0, out.entries@.len() as int)),
            out.entries@ == str_entries_val(orig.subrange(0, out.entries@.len() as int)),
        decreases rest@.len(),
    {
        let ghost idx = out.entries@.len() as int;
        let ghost pre = out.entries@;
        let (k, ev) = rest.remove(0);
        proof {
            assert(orig[idx] == (k, ev));
            assert(rest@ =~= orig.subrange(idx + 1, orig.len() as int));
        }
        match ev {
            Value::Str(s) => {
                out.push(k, s);
                proof {
                    assert(out.entries@ =~= str_entries_val(orig.subrange(0, idx + 1))) by {
                        assert(orig.subrange(0, idx + 1).drop_last() =~= orig.subrange(0, idx));
                        assert(out.entries@ == pre.push((k, s)));
                        assert forall|j: int| 0 <= j < idx + 1 implies
                            out.entries@[j] == str_entries_val(orig.subrange(0, idx + 1))[j] by {
                            assert(orig.subrange(0, idx + 1)[j] == orig[j]);
                            if j < idx {
                                assert(orig.subrange(0, idx)[j] == orig[j]);
                            }
                        }
                    }
                    assert forall|j: int| #![trigger orig.subrange(0, idx + 1)[j]]
                        0 <= j < idx + 1 implies orig.subrange(0, idx + 1)[j].1 is Str by {
                        assert(orig.subrange(0, idx + 1)[j] == orig[j]);
                        if j < idx {
                            assert(orig.subrange(0, idx)[j] == orig[j]);
                        }
                    }
                }
            },
            _ => {
                proof {
                    assert(!str_entries_ok(orig));
                }
                return Err(ValidationError::CustomError(
                    StringError::new("expected a mapping of string values.".to_owned()),
                ));
            },
        }
    }
    proof {
        assert(orig.subrange(0, orig.len() as int) =~= orig);
    }
    Ok(out)
}

/// Takes a string-to-string mapping field out of an object's entries; an
/// absent field gives the empty mapping.
fn take_str_map(entries: &mut Vec<(String, Value)>, key: &str) -> (r: Result<
    StrMap<String>,
    ValidationError,
>)
    ensures
        r is Ok <==> strmap_field_ok(old(entries)@, key@),
        r matches Ok(m) ==> m.entries@ == strmap_field_val(old(entries)@, key@),
        forall|k: Seq<char>| k != key@ ==>
            assoc_get(final(entries)@, k) == assoc_get(old(entries)@, k),
        r matches Err(e) ==> e matches ValidationError::CustomError(_),
{
    match take_entry(entries, key) {
        None => Ok(StrMap::new()),
        Some(Value::Obj(o)) => str_entries_from(o),
        Some(_) => Err(ValidationError::CustomError(
            StringError::new("expected a mapping.".to_owned()),
        )),
    }
}

/// Takes an open mapping field out of an object's entries; an absent field
/// gives the empty mapping.
fn take_open_map(entries: &mut Vec<(String, Value)>, key: &str) -> (r: Result<
    StrMap<Value>,
    ValidationError,
>)
    ensures
        r is Ok <==> open_map_field_ok(old(entries)@, key@),
        r matches Ok(m) ==> m.entries@ == open_map_field_val(old(entries)@, key@),
        forall|k: Seq<char>| k != key@ ==>
            assoc_get(final(entries)@, k) == assoc_get(old(entries)@, k),
        r matches Err(e) ==> e matches ValidationError::CustomError(_),
{
    match take_entry(entries, key) {
        None => Ok(StrMap::new()),
        Some(Value::Obj(o)) => Ok(StrMap { entries: o }),
        Some(_) => Err(ValidationError::CustomError(
            StringError::new("expected a mapping.".to_owned()),
        )),
    }
}

/// Decodes one step from its document form.
pub fn step_from_value(v: Value) -> (r: Result<PolicyEngineWorkflowJobStep, ValidationError>)
    ensures
        r is Ok <==> step_shape_ok(v),
        r matches Ok(st) ==> step_matches(st, v),
        r matches Err(e) ==> e matches ValidationError::CustomError(_),
{
    match v {
        Value::Obj(mut es) => {
            proof {
                step_keys_distinct();
            }
            let if_condition = match take_opt_str(&mut es, "if") {
                Ok(x) => x,
                Err(e) => return Err(e),
            };
            let name = match take_opt_str(&mut es, "name") {
                Ok(x) => x,
                Err(e) => return Err(e),
            };
            let uses = match take_opt_str(&mut es, "uses") {
                Ok(x) => x,
                Err(e) => return Err(e),
            };
            let shell = match take_opt_str(&mut es, "shell") {
                Ok(x) => x,
                Err(e) => return Err(e),
            };
            let run = match take_opt_str(&mut es, "run") {
                Ok(x) => x,
                Err(e) => return Err(e),
            };
            let with_inputs = match take_str_map(&mut es, "with") {
                Ok(x) => x,
                Err(e) => return Err(e),
            };
            let env = match take_str_map(&mut es, "env") {
                Ok(x) => x,
                Err(e) => return Err(e),
            };
            Ok(PolicyEngineWorkflowJobStep {
                if_condition,
                name,
                uses,
                shell,
                with_inputs,
                env,
                run,
            })
        },
        _ => Err(ValidationError::CustomError(
            StringError::new("a step must be a mapping.".to_owned()),
        )),
    }
}

/// Decodes an ordered list of steps; fails on the first ill-shaped step.
fn steps_from_list(l: Vec<Value>) -> (r: Result<
    Vec<PolicyEngineWorkflowJobStep>,
    ValidationError,
>)
    ensures
        r is Ok <==> (forall|i: int| 0 <= i < l@.len() ==> step_shape_ok(l@[i])),
        r matches Ok(ss) ==> ss@.len() == l@.len() && forall|i: int|
            0 <= i < l@.len() ==> step_matches(ss@[i], l@[i]),
        r matches Err(e) ==> e matches ValidationError::CustomError(_),
{
    let ghost orig = l@;
    let mut rest = l;
    let mut out: Vec<PolicyEngineWorkflowJobStep> = Vec::new();
    while rest.len() > 0
        invariant
            orig == l@,
            orig.len() == out@.len() + rest@.len(),
            rest@ == orig.subrange(out@.len() as int, orig.len() as int),
            forall|i: int| #![auto] 0 <= i < out@.len() ==> step_shape_ok(orig[i])
                && step_matches(out@[i], orig[i]),
        decreases rest@.len(),
    {
        let ghost idx = out@.len() as int;
        let e = rest.remove(0);
        proof {
            assert(e == orig[idx]);
            assert(rest@ =~= orig.subrange(idx + 1, orig.len() as int));
        }
        match step_from_value(e) {
            Ok(st) => out.push(st),
            Err(er) => return Err(er),
        }
    }
    Ok(out)
}

/// Decodes one job from its document form. `runs-on` is required and kept
/// as an open value; a missing list of steps stays absent.
pub fn job_from_value(v: Value) -> (r: Result<PolicyEngineWorkflowJob, ValidationError>)
    ensures
        r is Ok <==> job_shape_ok(v),
        r matches Ok(j) ==> job_matches(j, v),
        r matches Err(e) ==> (e matches ValidationError::CustomError(_)
            || e matches ValidationError::MissingField(_)),
{
    match v {
        Value::Obj(mut es) => {
            proof {
                job_keys_distinct();
            }
            let runs_on = match take_entry(&mut es, "runs-on") {
                Some(x) => x,
                None => return Err(ValidationError::MissingField(
                    StringError::new("runs-on is required.".to_owned()),
                )),
            };
            let steps = match take_entry(&mut es, "steps") {
                None => None,
                Some(Value::Null) => None,
                Some(Value::List(l)) => match steps_from_list(l) {
                    Ok(ss) => Some(ss),
                    Err(e) => return Err(e),
                },
                Some(_) => return Err(ValidationError::CustomError(
                    StringError::new("steps must be a list.".to_owned()),
                )),
            };
            Ok(PolicyEngineWorkflowJob { runs_on, steps })
        },
        _ => Err(ValidationError::CustomError(
            StringError::new("a job must be a mapping.".to_owned()),
        )),
    }
}

/// Decodes the jobs object, keeping names and document order; duplicate
/// job names are kept as distinct entries (validation, not decoding, is
/// the place that could reject them).
fn jobs_from_entries(js: Vec<(String, Value)>) -> (r: Result<
    StrMap<PolicyEngineWorkflowJob>,
    ValidationError,
>)
    ensures
        r is Ok <==> (forall|i: int| 0 <= i < js@.len() ==> job_shape_ok(js@[i].1)),
        r matches Ok(m) ==> m.entries@.len() == js@.len() && forall|i: int|
            #![auto]
            0 <= i < js@.len() ==> m.entries@[i].0 == js@[i].0
                && job_matches(m.entries@[i].1, js@[i].1),
        r matches Err(e) ==> (e matches ValidationError::CustomError(_)
            || e matches ValidationError::MissingField(_)),
{
    let ghost orig = js@;
    let mut rest = js;
    let mut out: StrMap<PolicyEngineWorkflowJob> = StrMap::new();
    while rest.len() > 0
        invariant
            orig == js@,
            orig.len() == out.entries@.len() + rest@.len(),
            rest@ == orig.subrange(out.entries@.len() as int, orig.len() as int),
            forall|i: int| #![auto] 0 <= i < out.entries@.len() ==> job_shape_ok(orig[i].1)
                && out.entries@[i].0 == orig[i].0
                && job_matches(out.entries@[i].1, orig[i].1),
        decreases rest@.len(),
    {
        let ghost idx = out.entries@.len() as int;
        let (name, jv) = rest.remove(0);
        proof {
            assert(orig[idx] == (name, jv));
            assert(rest@ =~= orig.subrange(idx + 1, orig.len() as int));
        }
        match job_from_value(jv) {
            Ok(j) => out.push(name, j),
            Err(e) => return Err(e),
        }
    }
    Ok(out)
}

/// Decodes a workflow from its document form.
pub fn workflow_from_value(v: Value) -> (r: Result<PolicyEngineWorkflow, ValidationError>)
    ensures
        r is Ok <==> workflow_shape_ok(v),
        r matches Ok(w) ==> workflow_matches(w, v),
        r matches Err(e) ==> (e matches ValidationError::CustomError(_)
            || e matches ValidationError::MissingField(_)),
{
    match v {
        Value::Obj(mut es) => {
            proof {
                workflow_keys_distinct();
            }
            let name = match take_opt_str(&mut es, "name") {
                Ok(x) => x,
                Err(e) => return Err(e),
            };
            let on = match take_entry(&mut es, "on") {
                Some(x) => x,
                None => return Err(ValidationError::MissingField(
                    StringError::new("on is required.".to_owned()),
                )),
            };
            let jobs = match take_entry(&mut es, "jobs") {
                Some(Value::Obj(js)) => match jobs_from_entries(js) {
                    Ok(m) => m,
                    Err(e) => return Err(e),
                },
                Some(_) => return Err(ValidationError::CustomError(
                    StringError::new("jobs must be a mapping.".to_owned()),
                )),
                None => return Err(ValidationError::MissingField(
                    StringError::new("jobs is required.".to_owned()),
                )),
            };
            Ok(PolicyEngineWorkflow { name, on, jobs })
        },
        _ => Err(ValidationError::CustomError(
            StringError::new("a workflow must be a mapping.".to_owned()),
        )),
    }
}

/// Decodes a request from its document form. `workflow` is required; the
/// three open mappings default to empty when absent.
pub fn request_from_value(v: Value) -> (r: Result<PolicyEngineRequest, ValidationError>)
    ensures
        r is Ok <==> request_shape_ok(v),
        r matches Ok(req) ==> request_matches(req, v),
        r matches Err(e) ==> (e matches ValidationError::CustomError(_)
            || e matches ValidationError::MissingField(_)),
        (v matches Value::Obj(es) && assoc_get(es@, "workflow"@) is None) ==>
            (r matches Err(e) && e matches ValidationError::MissingField(_)),
{
    match v {
        Value::Obj(mut es) => {
            proof {
                request_keys_distinct();
            }
            let workflow = match take_entry(&mut es, "workflow") {
                Some(wv) => match workflow_from_value(wv) {
                    Ok(w) => w,
                    Err(e) => return Err(e),
                },
                None => return Err(ValidationError::MissingField(
                    StringError::new("workflow is required.".to_owned()),
                )),
            };
            let inputs = match take_open_map(&mut es, "inputs") {
                Ok(x) => x,
                Err(e) => return Err(e),
            };
            let context = match take_open_map(&mut es, "context") {
                Ok(x) => x,
                Err(e) => return Err(e),
            };
            let stack = match take_open_map(&mut es, "stack") {
                Ok(x) => x,
                Err(e) => return Err(e),
            };
            Ok(PolicyEngineRequest { inputs, workflow, context, stack })
        },
        _ => Err(ValidationError::CustomError(
            StringError::new("a request must be a mapping.".to_owned()),
        )),
    }
}

/// Decoding keeps duplicate job names visible as distinct entries: when a
/// decoded workflow's job names mirror the document's (as
/// [`workflow_matches`] guarantees), its job mapping is well-formed
/// exactly when the document's job names are unique. A workflow with a
/// duplicate still passes validation today — rejecting it is the known
/// extension point of [`crate::validate::validate_workflow`] — but this
/// pins down that the duplicate is never papered over by decoding.
pub proof fn lemma_decoded_job_names_mirror_document(
    w: PolicyEngineWorkflow,
    js: Seq<(String, Value)>,
)
    requires
        w.jobs.entries@.len() == js.len(),
        forall|i: int| #![auto] 0 <= i < js.len() ==> w.jobs.entries@[i].0 == js[i].0,
    ensures
        w.jobs.wf() <==> unique_keys(js),
{
    if unique_keys(js) {
        assert forall|i: int, j: int| 0 <= i < j < w.jobs.entries@.len() implies
            (#[trigger] w.jobs.entries@[i]).0@ != (#[trigger] w.jobs.entries@[j]).0@ by {
            assert(js[i].0@ != js[j].0@);
        }
    }
    if w.jobs.wf() {
        assert forall|i: int, j: int| 0 <= i < j < js.len() implies
            (#[trigger] js[i]).0@ != (#[trigger] js[j]).0@ by {
            assert(w.jobs.entries@[i].0@ != w.jobs.entries@[j].0@);
        }
    }
}

/// Admits a parsed request: consults workflow validation, then constructs
/// the initial `Submitted` status with an empty detail mapping through the
/// validating constructor. Admission of a parsed request always succeeds
/// today, because workflow validation accepts every workflow.
pub fn admit_request(req: &PolicyEngineRequest) -> (r: Result<
    PolicyEngineStatus,
    ValidationError,
>)
    ensures
        r is Ok,
        r matches Ok(st) ==> st.status == PolicyEngineStatuses::Submitted
            && st.detail.entries@.len() == 0 && st.wf(),
{
    match req.workflow.validate() {
        Ok(()) => {},
        Err(e) => return Err(e),
    }
    PolicyEngineStatus::new(PolicyEngineStatuses::Submitted, StrMap::new())
}

/// The single host-facing entry point: parses a request document (already
/// turned into a tree by the host), runs validation, and returns the
/// initial status or the typed validation failure. Success is owed exactly
/// on well-shaped documents.
pub fn submit_request_document(doc: Value) -> (r: Result<PolicyEngineStatus, ValidationError>)
    ensures
        r is Ok <==> request_shape_ok(doc),
        r matches Ok(st) ==> st.status == PolicyEngineStatuses::Submitted
            && st.detail.entries@.len() == 0 && st.wf(),
        r matches Err(e) ==> (e matches ValidationError::CustomError(_)
            || e matches ValidationError::MissingField(_)),
{
    let req = match request_from_value(doc) {
        Ok(r) => r,
        Err(e) => return Err(e),
    };
    admit_request(&req)
}

} // verus!
