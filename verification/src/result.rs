//! A success-or-error value that keeps the service's error details.

use crate::response::ErrorView;
use vstd::prelude::*;

verus! {

/// The outcome of one request: the payload, or what the service reported.
#[derive(Debug, Clone, PartialEq, Eq)]
pub enum SteamGridDbResult<T> {
    /// The request succeeded and produced a value.
    Success(T),
    /// The request failed.
    Error {
        /// The messages the service sent, if any.
        errors: Option<Vec<String>>,
        /// The status code the service sent, if any.
        status: Option<u32>,
    },
}

impl<T> SteamGridDbResult<T> {
    /// What this outcome holds: the payload, or the contents of the error.
    pub open spec fn outcome(self) -> Result<T, ErrorView> {
        match self {
            SteamGridDbResult::Success(value) => Ok(value),
            SteamGridDbResult::Error { errors, status } => Err(
                ErrorView { status, errors: errors.deep_view() },
            ),
        }
    }

    /// Tells whether this outcome is the `Error` variant.
    pub fn is_error(&self) -> (b: bool)
        ensures
            b == (*self is Error),
            b == self.outcome() is Err,
    {
        match self {
            SteamGridDbResult::Success(_) => false,
            SteamGridDbResult::Error { .. } => true,
        }
    }
}

} // verus!
