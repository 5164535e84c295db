//! The errors a request can end in, and the status each is answered with.
use vstd::prelude::*;

use crate::auth::AuthError;
use crate::persist::StorageFailure;
use crate::post::ValidationError;

verus! {

/// Why a request failed.
#[derive(Debug, Clone, Copy, PartialEq, Eq, Structural)]
pub enum EchoError {
    /// A missing, invalid or unverifiable token.
    AuthError(AuthError),
    /// An item whose numeric fields are not integers.
    ValidationError(ValidationError),
    /// A write or read of storage failed.
    StorageError(StorageFailure),
    /// The remote feed could not be fetched or decoded.
    RemoteFetchError,
}

impl EchoError {
    /// The HTTP status the error is answered with: unauthorized for
    /// authentication, a client error for validation, a server error for the
    /// rest.
    pub fn status_code(&self) -> (r: u16)
        ensures
            self is AuthError ==> r == 401,
            self is ValidationError ==> r == 400,
            self is StorageError || self is RemoteFetchError ==> r == 500,
    {
        match self {
            EchoError::AuthError(_) => 401,
            EchoError::ValidationError(_) => 400,
            EchoError::StorageError(_) => 500,
            EchoError::RemoteFetchError => 500,
        }
    }
}

} // verus!
