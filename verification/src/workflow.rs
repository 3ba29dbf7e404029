//! The request side of the data model: execution context, workflow
//! definition, and the request envelope that aggregates them.
//!
//! These are pure data holders. Construction never fails; failure is
//! surfaced only through the explicit validation calls in [`crate::validate`],
//! keeping parsing and validation as separate phases.

use vstd::prelude::*;
use crate::error::ValidationError;
use crate::strmap::StrMap;
use crate::validate::validate_workflow;
use crate::value::Value;

verus! {

/// Immutable bag of configuration and secrets visible during evaluation:
/// category name to key to value, and secret name to value. Secret values
/// are never echoed into status payloads.
#[derive(Debug, PartialEq, Eq)]
pub struct Context {
    pub config: StrMap<StrMap<String>>,
    pub secrets: StrMap<String>,
}

impl Context {
    /// Well-formedness: keys are unique within each mapping.
    pub open spec fn wf(self) -> bool {
        &&& self.config.wf()
        &&& forall|i: int| 0 <= i < self.config.entries@.len()
            ==> (#[trigger] self.config.entries@[i].1).wf()
        &&& self.secrets.wf()
    }
}

/// One step of a workflow job. Every field is optional or defaults to an
/// empty mapping; whether a step lacking both `uses` and `run` is invalid
/// is a policy decision left to [`validate_workflow`], which does not yet
/// enforce it.
#[derive(Debug, PartialEq, Eq)]
pub struct PolicyEngineWorkflowJobStep {
    pub if_condition: Option<String>,
    pub name: Option<String>,
    pub uses: Option<String>,
    pub shell: Option<String>,
    pub with_inputs: StrMap<String>,
    pub env: StrMap<String>,
    pub run: Option<String>,
}

/// One job of a workflow. `runs-on` may be a single label, a list, or a
/// matrix expression, so it stays an open value; the step sequence keeps
/// execution order.
#[derive(Debug, PartialEq, Eq)]
pub struct PolicyEngineWorkflowJob {
    pub runs_on: Value,
    pub steps: Option<Vec<PolicyEngineWorkflowJobStep>>,
}

/// A workflow definition: optional display name, open trigger
/// specification, and jobs keyed by name in document order.
#[derive(Debug, PartialEq, Eq)]
pub struct PolicyEngineWorkflow {
    pub name: Option<String>,
    pub on: Value,
    pub jobs: StrMap<PolicyEngineWorkflowJob>,
}

impl PolicyEngineWorkflow {
    /// Well-formedness: job names are unique. A workflow decoded from an
    /// untrusted document may break this; [`validate_workflow`] does not
    /// yet check it (a known gap, kept as the designated extension point).
    pub open spec fn wf(self) -> bool {
        self.jobs.wf()
    }

    /// Structural acceptance of this workflow, through the single
    /// composable validation entry point.
    pub fn validate(&self) -> (r: Result<(), ValidationError>)
        ensures
            r is Ok,
    {
        match validate_workflow(self) {
            Ok(()) => Ok(()),
            Err(e) => Err(e),
        }
    }
}

/// The request envelope: caller-supplied inputs, the workflow under
/// evaluation, ambient context, and the caller's invocation stack.
/// Construction does not fail; admissibility is checked by validation.
#[derive(Debug, PartialEq, Eq)]
pub struct PolicyEngineRequest {
    pub inputs: StrMap<Value>,
    pub workflow: PolicyEngineWorkflow,
    pub context: StrMap<Value>,
    pub stack: StrMap<Value>,
}

} // verus!
