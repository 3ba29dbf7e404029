//! Validation failures are returned as values, never raised as faults.
//! There are exactly two kinds: a required field was absent or empty, or a
//! semantic rule was violated. Each carries a human-readable message through
//! an underlying [`StringError`] cause.

use vstd::prelude::*;

verus! {

/// A plain error value carrying a human-readable message.
#[derive(Debug)]
pub struct StringError(pub String);

impl StringError {
    /// Wraps a message string as an error value, keeping it unchanged.
    pub fn new(msg: String) -> (r: StringError)
        ensures
            r.0 == msg,
    {
        StringError(msg)
    }

    /// The message carried by this error.
    pub fn message(&self) -> (r: &String)
        ensures
            r == self.0,
    {
        &self.0
    }
}

impl From<String> for StringError {
    fn from(err: String) -> (r: StringError) {
        StringError(err)
    }
}

impl vstd::std_specs::convert::FromSpecImpl<String> for StringError {
    open spec fn obeys_from_spec() -> bool {
        true
    }

    open spec fn from_spec(err: String) -> StringError {
        StringError(err)
    }
}

/// The closed set of validation failure kinds: a required field was
/// absent or empty, or a semantic rule was violated. Both chain to an
/// underlying [`StringError`] cause carrying the message.
#[derive(Debug)]
pub enum ValidationError {
    MissingField(StringError),
    CustomError(StringError),
}

impl ValidationError {
    /// The underlying cause this failure chains to.
    pub fn source(&self) -> (r: &StringError)
        ensures
            r == self.spec_source(),
    {
        match self {
            ValidationError::MissingField(err) => err,
            ValidationError::CustomError(err) => err,
        }
    }

    /// The underlying cause, as a mathematical value.
    pub open spec fn spec_source(&self) -> StringError {
        match self {
            ValidationError::MissingField(err) => *err,
            ValidationError::CustomError(err) => *err,
        }
    }

    /// The message of the underlying cause.
    pub fn message(&self) -> (r: &String)
        ensures
            r == self.spec_source().0,
    {
        self.source().message()
    }
}

} // verus!
