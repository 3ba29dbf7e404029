//! Data model and validation layer for a policy engine that evaluates
//! workflow-execution requests and reports their processing status.
//!
//! The crate provides the typed request model (inputs, workflow definition,
//! execution context, secrets, stack), the status lifecycle with its payload
//! variants, and the validation rules that gate status construction.
//!
//! - [`value`]: open structured values for fields whose shape varies.
//! - [`strmap`]: string-keyed maps as ordered entry lists.
//! - [`error`]: the closed set of validation failure values.
//! - [`workflow`]: context, workflow and request data holders.
//! - [`status`]: the lifecycle states, their payloads, and the validating
//!   constructors.
//! - [`validate`]: the composable validation checks.
//! - [`decode`]: parsing request documents into the typed model.
//! - [`wire`]: the outbound wire forms and their round-trip laws.

pub mod decode;
pub mod error;
pub mod status;
pub mod strmap;
pub mod validate;
pub mod value;
pub mod wire;
pub mod workflow;
