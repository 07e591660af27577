//! Error taxonomy shared by every operation of the library.

use vstd::prelude::*;

verus! {

/// Why a value failed validation before it reached any stateful operation.
#[derive(Debug)]
pub enum ValidateError {
    /// A required value was empty.
    ValueRequired(String),
    /// A numeric value fell outside its allowed range.
    OutOfRange(String),
    /// Two values that must agree did not.
    BadCombo(String),
    /// Any other validation failure.
    CustomError(String),
}

/// The result taxonomy every operation reports through.
///
/// Failures coming from collaborators (store, host commands, backup engine)
/// carry only a human-readable message; the library does not distinguish
/// their causes any further.
#[derive(Debug)]
pub enum NeptisError {
    /// A store query failed (typically: the row was not found).
    DbQuery(String),
    /// The store connection failed.
    DbConnection(String),
    /// A host file operation failed.
    IoError(String),
    /// A host command or engine invariant failed.
    InternalError(String),
    /// The caller's input violates a rule (quota, size floor, state).
    BadRequest(String),
    /// The caller does not own the entity it addressed.
    Unauthorized(String),
    /// The input failed validation.
    Validation(ValidateError),
    /// The backup engine reported a failure.
    RusticJob(String),
    /// The repository-view mount grace period elapsed.
    Timeout,
}

/// Holds when `e` is a `BadRequest` carrying exactly the message `msg`.
pub open spec fn is_bad_request(e: NeptisError, msg: Seq<char>) -> bool {
    e matches NeptisError::BadRequest(m) && m@ == msg
}

/// Holds when `e` is an `InternalError` carrying exactly the message `msg`.
pub open spec fn is_internal_error(e: NeptisError, msg: Seq<char>) -> bool {
    e matches NeptisError::InternalError(m) && m@ == msg
}

/// Holds when `e` is an `Unauthorized` carrying exactly the message `msg`.
pub open spec fn is_unauthorized(e: NeptisError, msg: Seq<char>) -> bool {
    e matches NeptisError::Unauthorized(m) && m@ == msg
}

impl NeptisError {
    /// Wraps a message about an unknown enum discriminant from the store.
    pub fn enum_not_found(msg: String) -> (r: Self)
        ensures
            r == NeptisError::InternalError(msg),
    {
        NeptisError::InternalError(msg)
    }
}

} // verus!
