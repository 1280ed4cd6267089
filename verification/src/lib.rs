//! A self-sovereign name registry.
//!
//! Clients register a public-key identity and then use it to claim and update
//! a mutable "site name to network address" record. Ownership of a record is
//! decided by an ECDSA signature alone. This crate holds the rules that decide
//! whether a request is accepted: the proof-of-work admission gate, the
//! freshness window on client timestamps, signature-based authorization and
//! the ownership arbitration of the record store.

pub mod error;
pub mod encoding;
pub mod admission;
pub mod clock;
pub mod request;
pub mod signature;
pub mod table;
pub mod identity;
pub mod record;
pub mod protocol;
pub mod laws;
