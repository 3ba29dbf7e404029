//! The validator: pure, independently callable checks consulted at every
//! state-construction boundary. Every failure is a returned
//! [`ValidationError`] value; no check ever panics.

use vstd::prelude::*;
use crate::error::{StringError, ValidationError};
use crate::status::PolicyEngineStatuses;
use crate::workflow::PolicyEngineWorkflow;

verus! {

/// Rejects the `Unknown` sentinel and nothing else. `Unknown` means "no
/// record found" and is never a status the engine may construct or accept.
pub fn validate_status(status: &PolicyEngineStatuses) -> (r: Result<(), ValidationError>)
    ensures
        r is Ok <==> *status != PolicyEngineStatuses::Unknown,
        r matches Err(e) ==> e matches ValidationError::CustomError(m)
            && m.0@ == "Unknown status is not allowed."@,
{
    match status {
        PolicyEngineStatuses::Unknown => Err(ValidationError::CustomError(
            StringError::new("Unknown status is not allowed.".to_owned()),
        )),
        _ => Ok(()),
    }
}

/// Fails exactly when the id is empty; any non-empty id passes. No other
/// constraint (length, charset) is imposed at this layer.
pub fn validate_id(id: &str) -> (r: Result<(), ValidationError>)
    ensures
        r is Ok <==> id@.len() != 0,
        r matches Err(e) ==> e matches ValidationError::MissingField(m)
            && m.0@ == "id is required and cannot be empty."@,
{
    if id.is_empty() {
        Err(ValidationError::MissingField(
            StringError::new("id is required and cannot be empty.".to_owned()),
        ))
    } else {
        Ok(())
    }
}

/// Structural acceptance hook for workflows. It currently accepts every
/// workflow unconditionally and is the designated extension point for
/// future semantic policy (required-field checks, job-name uniqueness,
/// step well-formedness): rules are added here without touching callers.
/// In particular, duplicate job names pass today (a known gap; the
/// condition is [`PolicyEngineWorkflow::wf`]).
pub fn validate_workflow(_workflow: &PolicyEngineWorkflow) -> (r: Result<(), ValidationError>)
    ensures
        r is Ok,
{
    Ok(())
}

/// The forward-only transition rule over the lifecycle: a submitted
/// request may begin evaluation, an evaluation underway may complete, and
/// nothing else; in particular there is no way back from `Complete`, and
/// no transition ever targets `Unknown`.
pub open spec fn spec_may_transition(
    from: PolicyEngineStatuses,
    to: PolicyEngineStatuses,
) -> bool {
    ||| (from == PolicyEngineStatuses::Submitted && to == PolicyEngineStatuses::InProgress)
    ||| (from == PolicyEngineStatuses::InProgress && to == PolicyEngineStatuses::Complete)
}

/// Gates a lifecycle transition: succeeds exactly on the forward steps
/// allowed by [`spec_may_transition`].
pub fn validate_transition(
    from: &PolicyEngineStatuses,
    to: &PolicyEngineStatuses,
) -> (r: Result<(), ValidationError>)
    ensures
        r is Ok <==> spec_may_transition(*from, *to),
        r matches Err(e) ==> e matches ValidationError::CustomError(m)
            && m.0@ == "Status transition is not allowed."@,
{
    let allowed = match (from, to) {
        (PolicyEngineStatuses::Submitted, PolicyEngineStatuses::InProgress) => true,
        (PolicyEngineStatuses::InProgress, PolicyEngineStatuses::Complete) => true,
        _ => false,
    };
    if allowed {
        Ok(())
    } else {
        Err(ValidationError::CustomError(
            StringError::new("Status transition is not allowed.".to_owned()),
        ))
    }
}

} // verus!
