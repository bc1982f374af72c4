//! The closed set of failures that the backend reports.

use vstd::prelude::*;

verus! {

/// Why an operation did not succeed. Store drivers' own errors never appear:
/// each is reported as `StoreError`.
#[derive(Clone, Copy, Debug, PartialEq, Eq, Structural)]
pub enum BackendError {
    /// The identifier names nothing, or content and metadata are not paired.
    NotFound,
    /// A malformed identifier, a table or column name that is not allowed,
    /// or an edit target that is not supported.
    InvalidInput,
    /// A permission rule said no, or the table may not be emptied.
    Forbidden,
    /// The password check before a destructive action failed.
    InvalidCredentials,
    /// A store reported a transaction, commit or storage failure.
    StoreError,
}

impl BackendError {
    /// A stable, user-facing description that names no physical store.
    pub fn describe(&self) -> (text: &'static str)
        ensures
            text@ == match *self {
                BackendError::NotFound => "not found"@,
                BackendError::InvalidInput => "invalid input"@,
                BackendError::Forbidden => "forbidden"@,
                BackendError::InvalidCredentials => "invalid credentials"@,
                BackendError::StoreError => "store error"@,
            },
    {
        match self {
            BackendError::NotFound => "not found",
            BackendError::InvalidInput => "invalid input",
            BackendError::Forbidden => "forbidden",
            BackendError::InvalidCredentials => "invalid credentials",
            BackendError::StoreError => "store error",
        }
    }
}

} // verus!
