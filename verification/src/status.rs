//! The status lifecycle of a policy engine request and its payload
//! variants, together with the constructor that gates every status
//! construction through validation.

use vstd::prelude::*;
use crate::error::ValidationError;
use crate::strmap::StrMap;
use crate::validate::{validate_id, validate_status, spec_may_transition};
use crate::value::Value;

verus! {

/// The engine lifecycle states. `Unknown` is a caller-facing sentinel for
/// "no record found" and is never a legitimate new status.
#[derive(Debug, PartialEq, Eq, Structural, Clone, Copy)]
pub enum PolicyEngineStatuses {
    Submitted,
    InProgress,
    Complete,
    Unknown,
    InputValidationError,
}

/// The terminal outcome of a completed evaluation.
#[derive(Debug, PartialEq, Eq, Structural, Clone, Copy)]
pub enum PolicyEngineCompleteExitStatuses {
    Success,
    Failure,
}

/// Payload of a request that was accepted but not yet started.
#[derive(Debug, PartialEq, Eq)]
pub struct PolicyEngineSubmitted {
    pub id: String,
}

/// Payload of a query about an id with no tracked record.
#[derive(Debug, PartialEq, Eq)]
pub struct PolicyEngineUnknown {
    pub id: String,
}

/// Payload of a request rejected before evaluation began: a message, the
/// path of the offending field, an error-kind tag, and optional
/// documentation link and offending-input echo.
#[derive(Debug, PartialEq, Eq)]
pub struct PolicyEngineInputValidationError {
    pub msg: String,
    pub loc: Vec<String>,
    pub error_type: String,
    pub url: Option<String>,
    pub input: Option<String>,
}

impl PolicyEngineInputValidationError {
    /// The wire-level form of a validation failure surfaced to callers
    /// during request admission: the failure's message, the path of the
    /// offending field, and its kind tag; no documentation link or input
    /// echo is attached here.
    pub fn from_validation_error(e: &ValidationError, loc: Vec<String>) -> (r:
        PolicyEngineInputValidationError)
        ensures
            r.msg == e.spec_source().0,
            r.loc == loc,
            e matches ValidationError::MissingField(_) ==> r.error_type@ == "missing_field"@,
            e matches ValidationError::CustomError(_) ==> r.error_type@ == "custom_error"@,
            r.url is None,
            r.input is None,
    {
        let msg = e.message().clone();
        let error_type = match e {
            ValidationError::MissingField(_) => "missing_field".to_owned(),
            ValidationError::CustomError(_) => "custom_error".to_owned(),
        };
        PolicyEngineInputValidationError { msg, loc, error_type, url: None, input: None }
    }
}

/// Progress report for one step of one job.
#[derive(Debug, PartialEq, Eq)]
pub struct PolicyEngineStatusUpdateJobStep {
    pub status: PolicyEngineStatuses,
    pub metadata: StrMap<String>,
    pub outputs: StrMap<Value>,
}

/// Progress reports for the steps of one job, keyed by step name.
#[derive(Debug, PartialEq, Eq)]
pub struct PolicyEngineStatusUpdateJob {
    pub steps: StrMap<PolicyEngineStatusUpdateJobStep>,
}

/// Payload of an evaluation that is underway, keyed by job name.
#[derive(Debug, PartialEq, Eq)]
pub struct PolicyEngineInProgress {
    pub id: String,
    pub status_updates: StrMap<PolicyEngineStatusUpdateJob>,
}

/// Payload of a finished evaluation.
#[derive(Debug, PartialEq, Eq)]
pub struct PolicyEngineComplete {
    pub id: String,
    pub exit_status: PolicyEngineCompleteExitStatuses,
    pub outputs: StrMap<Value>,
    pub annotations: StrMap<Value>,
}

impl PolicyEngineSubmitted {
    /// Well-formedness: the id is never empty.
    pub open spec fn wf(self) -> bool {
        self.id@.len() != 0
    }

    /// Validating constructor: consults the id check, so an accepted
    /// payload is well-formed.
    pub fn new(id: String) -> (r: Result<PolicyEngineSubmitted, ValidationError>)
        ensures
            r is Ok <==> id@.len() != 0,
            r matches Ok(p) ==> p.id == id && p.wf(),
            r matches Err(e) ==> e matches ValidationError::MissingField(_),
    {
        match validate_id(id.as_str()) {
            Ok(()) => Ok(PolicyEngineSubmitted { id }),
            Err(e) => Err(e),
        }
    }
}

impl PolicyEngineUnknown {
    /// Well-formedness: the id is never empty.
    pub open spec fn wf(self) -> bool {
        self.id@.len() != 0
    }

    /// Validating constructor: consults the id check, so an accepted
    /// payload is well-formed.
    pub fn new(id: String) -> (r: Result<PolicyEngineUnknown, ValidationError>)
        ensures
            r is Ok <==> id@.len() != 0,
            r matches Ok(p) ==> p.id == id && p.wf(),
            r matches Err(e) ==> e matches ValidationError::MissingField(_),
    {
        match validate_id(id.as_str()) {
            Ok(()) => Ok(PolicyEngineUnknown { id }),
            Err(e) => Err(e),
        }
    }
}

impl PolicyEngineStatusUpdateJobStep {
    /// Well-formedness: a step update never carries the `Unknown` sentinel.
    pub open spec fn wf(self) -> bool {
        self.status != PolicyEngineStatuses::Unknown
    }

    /// Validating constructor: consults the status check, so an accepted
    /// step update never carries the `Unknown` sentinel; the metadata and
    /// output mappings are kept unchanged.
    pub fn new(
        status: PolicyEngineStatuses,
        metadata: StrMap<String>,
        outputs: StrMap<Value>,
    ) -> (r: Result<PolicyEngineStatusUpdateJobStep, ValidationError>)
        ensures
            r is Ok <==> status != PolicyEngineStatuses::Unknown,
            r matches Ok(p) ==> p.status == status && p.metadata == metadata
                && p.outputs == outputs && p.wf(),
            r matches Err(e) ==> e matches ValidationError::CustomError(_),
    {
        match validate_status(&status) {
            Ok(()) => Ok(PolicyEngineStatusUpdateJobStep { status, metadata, outputs }),
            Err(e) => Err(e),
        }
    }
}

impl PolicyEngineStatusUpdateJob {
    /// Well-formedness: every step update it carries is well-formed.
    pub open spec fn wf(self) -> bool {
        forall|i: int| 0 <= i < self.steps.entries@.len()
            ==> (#[trigger] self.steps.entries@[i].1).wf()
    }
}

impl PolicyEngineInProgress {
    /// Well-formedness: the id is never empty.
    pub open spec fn wf(self) -> bool {
        self.id@.len() != 0
    }

    /// Every step update nested under every job is well-formed: no nested
    /// status is ever the `Unknown` sentinel.
    pub open spec fn updates_wf(self) -> bool {
        forall|i: int| 0 <= i < self.status_updates.entries@.len()
            ==> (#[trigger] self.status_updates.entries@[i].1).wf()
    }

    /// Validating constructor: consults the id check, so an accepted
    /// payload is well-formed; the updates are kept unchanged.
    pub fn new(id: String, status_updates: StrMap<PolicyEngineStatusUpdateJob>) -> (r: Result<
        PolicyEngineInProgress,
        ValidationError,
    >)
        ensures
            r is Ok <==> id@.len() != 0,
            r matches Ok(p) ==> p.id == id && p.status_updates == status_updates && p.wf(),
            r matches Err(e) ==> e matches ValidationError::MissingField(_),
    {
        match validate_id(id.as_str()) {
            Ok(()) => Ok(PolicyEngineInProgress { id, status_updates }),
            Err(e) => Err(e),
        }
    }
}

impl PolicyEngineComplete {
    /// Well-formedness: the id is never empty. The exit status is terminal
    /// by type: it is one of success and failure and nothing else.
    pub open spec fn wf(self) -> bool {
        self.id@.len() != 0
    }

    /// Validating constructor: consults the id check, so an accepted
    /// payload is well-formed; the outcome and both mappings are kept
    /// unchanged.
    pub fn new(
        id: String,
        exit_status: PolicyEngineCompleteExitStatuses,
        outputs: StrMap<Value>,
        annotations: StrMap<Value>,
    ) -> (r: Result<PolicyEngineComplete, ValidationError>)
        ensures
            r is Ok <==> id@.len() != 0,
            r matches Ok(p) ==> p.id == id && p.exit_status == exit_status
                && p.outputs == outputs && p.annotations == annotations && p.wf(),
            r matches Err(e) ==> e matches ValidationError::MissingField(_),
    {
        match validate_id(id.as_str()) {
            Ok(()) => Ok(PolicyEngineComplete { id, exit_status, outputs, annotations }),
            Err(e) => Err(e),
        }
    }
}

/// A lifecycle status together with an open mapping of auxiliary metadata.
#[derive(Debug, PartialEq, Eq)]
pub struct PolicyEngineStatus {
    pub status: PolicyEngineStatuses,
    pub detail: StrMap<Value>,
}

impl PolicyEngineStatus {
    /// Well-formedness: the `Unknown` sentinel is never held.
    pub open spec fn wf(self) -> bool {
        self.status != PolicyEngineStatuses::Unknown
    }

    /// The sole constructor. It consults the validator first, so no
    /// instance can ever hold the `Unknown` tag; any other tag is accepted
    /// and the detail mapping is kept unchanged.
    pub fn new(status: PolicyEngineStatuses, detail: StrMap<Value>) -> (r: Result<
        PolicyEngineStatus,
        ValidationError,
    >)
        ensures
            r is Ok <==> status != PolicyEngineStatuses::Unknown,
            r matches Ok(s) ==> s.status == status && s.detail == detail && s.wf(),
            r matches Err(e) ==> e matches ValidationError::CustomError(m)
                && m.0@ == "Unknown status is not allowed."@,
    {
        match validate_status(&status) {
            Ok(()) => Ok(PolicyEngineStatus { status, detail }),
            Err(e) => Err(e),
        }
    }

    /// Steps the lifecycle forward. The new status is accepted exactly when
    /// the transition rule allows it from the current state; the detail
    /// mapping of the successor is kept unchanged.
    pub fn advance(&self, next: PolicyEngineStatuses, detail: StrMap<Value>) -> (r: Result<
        PolicyEngineStatus,
        ValidationError,
    >)
        ensures
            r is Ok <==> spec_may_transition(self.status, next),
            r matches Ok(s) ==> s.status == next && s.detail == detail && s.wf(),
            r matches Err(e) ==> e matches ValidationError::CustomError(_),
    {
        match crate::validate::validate_transition(&self.status, &next) {
            Ok(()) => Ok(PolicyEngineStatus { status: next, detail }),
            Err(e) => Err(e),
        }
    }
}

} // verus!
