//! The outcomes by which a request can fail, and their transport status.

use vstd::prelude::*;

verus! {

/// Why a request was not carried out.
#[derive(Debug, Clone, Copy, PartialEq, Eq, Structural)]
pub enum RegistryError {
    /// The body failed the admission gate, did not parse, carried a stale
    /// timestamp or held a malformed key or signature encoding.
    BadRequest,
    /// The claimed owner is not registered, or the signature does not verify.
    /// The two are deliberately not told apart.
    Unauthorized,
    /// The record exists and belongs to another identity.
    Forbidden,
    /// The identity name is already registered.
    Conflict,
    /// No record exists under the name.
    NotFound,
    /// The record exists but has expired.
    Gone,
    /// The store, the clock or a stored encoding failed.
    Internal,
}

/// The HTTP status that stands for each failure.
pub open spec fn status_of(error: RegistryError) -> u16 {
    match error {
        RegistryError::BadRequest => 400,
        RegistryError::Unauthorized => 401,
        RegistryError::Forbidden => 403,
        RegistryError::NotFound => 404,
        RegistryError::Conflict => 409,
        RegistryError::Gone => 410,
        RegistryError::Internal => 500,
    }
}

impl RegistryError {
    /// The HTTP status code under which this failure is reported.
    pub fn status_code(&self) -> (code: u16)
        ensures
            code == status_of(*self),
    {
        match self {
            RegistryError::BadRequest => 400,
            RegistryError::Unauthorized => 401,
            RegistryError::Forbidden => 403,
            RegistryError::NotFound => 404,
            RegistryError::Conflict => 409,
            RegistryError::Gone => 410,
            RegistryError::Internal => 500,
        }
    }
}

} // verus!
