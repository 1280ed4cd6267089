//! The documents that the three operations take and give.

use vstd::prelude::*;

verus! {

/// A request to register an identity: a name and the public key bound to it.
#[derive(Debug, Clone, PartialEq, Eq)]
pub struct RegisterRequest {
    pub name: String,
    /// The public key as a PEM document.
    pub pubkey: String,
    /// Client time in seconds since the Unix epoch.
    pub timestamp: u64,
}

/// A request to create or update the record of a site.
#[derive(Debug, Clone, PartialEq, Eq)]
pub struct SetSiteRequest {
    pub site: String,
    pub address: String,
    /// Expiry in seconds since the Unix epoch; any value is accepted.
    pub expires: i64,
    /// The name of the identity that claims the site.
    pub owner: String,
    /// The owner's signature over the canonical message, as the hexadecimal
    /// text of its DER encoding.
    pub signature: String,
    /// Client time in seconds since the Unix epoch.
    pub timestamp: u64,
}

/// A request to resolve a site name.
#[derive(Debug, Clone, PartialEq, Eq)]
pub struct GetSiteRequest {
    pub name: String,
    /// Client time in seconds since the Unix epoch.
    pub timestamp: u64,
}

/// The answer to a resolved site name.
#[derive(Debug, Clone, PartialEq, Eq)]
pub struct GetSiteResponse {
    pub address: String,
}

/// What the record store holds of a site for resolution.
#[derive(Debug, Clone, PartialEq, Eq)]
pub struct Site {
    pub address: String,
    pub expires: i64,
}

} // verus!
