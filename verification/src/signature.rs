//! The signature verifier: ECDSA over NIST P-256 on a canonical message.
//!
//! A mutation is signed by its owner over the owner's name, the site name and
//! the decimal timestamp, written one after the other without separators.
//! This binds a signature to one owner, one site and one moment.

use crate::encoding::{decimal, decimal_string, hex_decode, hex_value, text_of};
use crate::error::RegistryError;
use crate::request::SetSiteRequest;
use p256::ecdsa::signature::Verifier;
use p256::ecdsa::{Signature, VerifyingKey};
use std::str::FromStr;
use vstd::prelude::*;
use vstd::string::StringExecFns;
use vstd::utf8::encode_utf8;

verus! {

/// The SEC1 encoding, uncompressed, of the P-256 public key that the PEM
/// document `pem` holds, or `None` if `pem` is not such a document.
pub uninterp spec fn p256_key_from_pem(pem: Seq<char>) -> Option<Seq<u8>>;

/// The fixed-size encoding of the P-256 signature that is DER-encoded in
/// `der`, or `None` if `der` is not such an encoding.
pub uninterp spec fn p256_signature_from_der(der: Seq<u8>) -> Option<Seq<u8>>;

/// Whether `signature`, in its fixed-size encoding, is a valid ECDSA/P-256
/// signature with SHA-256 of `message` under the SEC1-encoded public `key`.
pub uninterp spec fn p256_verifies(key: Seq<u8>, message: Seq<u8>, signature: Seq<u8>) -> bool;

/// The text that the owner signs.
pub open spec fn canonical_message(owner: Seq<char>, site: Seq<char>, timestamp: u64) -> Seq<char> {
    owner + site + decimal(timestamp as nat)
}

/// What checking the signature of `req` under `key` gives: a malformed
/// signature encoding is a bad request, anything else is the verifier's word.
pub open spec fn signature_check(req: SetSiteRequest, key: Seq<u8>) -> Result<bool, RegistryError> {
    match hex_value(encode_utf8(req.signature@)) {
        None => Err(RegistryError::BadRequest),
        Some(der) => match p256_signature_from_der(der) {
            None => Err(RegistryError::BadRequest),
            Some(signature) => Ok(
                p256_verifies(
                    key,
                    encode_utf8(canonical_message(req.owner@, req.site@, req.timestamp)),
                    signature,
                ),
            ),
        },
    }
}

/// `VerifyingKey::from_str` of the p256 crate, which reads a public key
/// from a PEM document. The key is handed out as bytes, through
/// `VerifyingKey::to_encoded_point` without compression. The contract names
/// the result and claims nothing else of it.
#[verifier::external_body]
fn key_from_pem(pem: &str) -> (key: Option<Vec<u8>>)
    ensures
        match key {
            Some(k) => p256_key_from_pem(pem@) == Some(k@),
            None => p256_key_from_pem(pem@) is None,
        },
{
    match VerifyingKey::from_str(pem) {
        Ok(key) => Some(key.to_encoded_point(false).as_bytes().to_vec()),
        Err(_) => None,
    }
}

/// `Signature::from_der` of the p256 crate, which reads a signature from its
/// ASN.1 DER encoding. The signature is handed out as the bytes that it
/// holds, its two scalars side by side. The contract names the result and
/// claims nothing else of it.
#[verifier::external_body]
fn signature_from_der(der: &[u8]) -> (signature: Option<Vec<u8>>)
    ensures
        match signature {
            Some(s) => p256_signature_from_der(der@) == Some(s@),
            None => p256_signature_from_der(der@) is None,
        },
{
    match Signature::from_der(der) {
        Ok(signature) => Some(signature.as_ref().to_vec()),
        Err(_) => None,
    }
}

/// `Verifier::verify` of the p256 crate, which checks an ECDSA signature
/// over the SHA-256 digest of `message`. Key and signature come as bytes and
/// are read back with `VerifyingKey::from_sec1_bytes` and
/// `Signature::try_from`; bytes that neither accepts verify nothing. The
/// contract names the result and claims nothing else of it.
#[verifier::external_body]
fn verifies(key: &[u8], message: &[u8], signature: &[u8]) -> (ok: bool)
    ensures
        ok == p256_verifies(key@, message@, signature@),
{
    match (VerifyingKey::from_sec1_bytes(key), Signature::try_from(signature)) {
        (Ok(key), Ok(signature)) => key.verify(message, &signature).is_ok(),
        _ => false,
    }
}

/// A P-256 public key, held as its uncompressed SEC1 encoding.
#[derive(Debug, Clone, PartialEq, Eq)]
pub struct PublicKey {
    sec1: Vec<u8>,
}

impl View for PublicKey {
    type V = Seq<u8>;

    closed spec fn view(&self) -> Seq<u8> {
        self.sec1@
    }
}

impl PublicKey {
    /// Reads a public key from a PEM document.
    pub fn from_pem(pem: &str) -> (key: Option<PublicKey>)
        ensures
            match key {
                Some(k) => p256_key_from_pem(pem@) == Some(k@),
                None => p256_key_from_pem(pem@) is None,
            },
    {
        match key_from_pem(pem) {
            Some(sec1) => Some(PublicKey { sec1 }),
            None => None,
        }
    }

    /// The uncompressed SEC1 encoding of the key.
    pub fn as_bytes(&self) -> (bytes: &[u8])
        ensures
            bytes@ == self@,
    {
        self.sec1.as_slice()
    }
}

/// What offering `pem` as the key of a new identity gives: a key that is not
/// a P-256 public key in PEM is a bad request.
pub open spec fn key_check(pem: Seq<char>) -> Result<(), RegistryError> {
    if p256_key_from_pem(pem) is Some {
        Ok(())
    } else {
        Err(RegistryError::BadRequest)
    }
}

/// Checks that the key offered for a new identity is well-formed.
pub fn check_key(pem: &String) -> (checked: Result<(), RegistryError>)
    ensures
        checked == key_check(pem@),
{
    match PublicKey::from_pem(pem.as_str()) {
        Some(_) => Ok(()),
        None => Err(RegistryError::BadRequest),
    }
}

/// Builds the text that the owner signs.
pub fn build_message(owner: &String, site: &String, timestamp: u64) -> (message: String)
    ensures
        message@ == canonical_message(owner@, site@, timestamp),
{
    let digits = decimal_string(timestamp);
    owner.clone().concat(site.as_str()).concat(digits.as_str())
}

/// Checks the signature that `req` carries under the owner's `pubkey`.
///
/// Gives `Err(BadRequest)` if the signature is not the hexadecimal text of a
/// DER-encoded signature, and otherwise whether the signature verifies over
/// the canonical message of `req`.
pub fn check_signature(req: &SetSiteRequest, pubkey: &PublicKey) -> (checked: Result<
    bool,
    RegistryError,
>)
    ensures
        checked == signature_check(*req, pubkey@),
{
    let message = build_message(&req.owner, &req.site, req.timestamp);
    let der = match hex_decode(req.signature.as_str().as_bytes()) {
        Some(der) => der,
        None => { return Err(RegistryError::BadRequest); },
    };
    let signature = match signature_from_der(der.as_slice()) {
        Some(signature) => signature,
        None => { return Err(RegistryError::BadRequest); },
    };
    Ok(verifies(pubkey.as_bytes(), message.as_str().as_bytes(), signature.as_slice()))
}

/// What examining the credentials of a write request found.
#[derive(Debug, Clone, Copy, PartialEq, Eq, Structural)]
pub enum Credential {
    /// The claimed owner is not a registered identity.
    UnknownOwner,
    /// The key stored for the owner is not a P-256 public key in PEM.
    CorruptKey,
    /// The signature is not the hexadecimal text of a DER-encoded signature.
    MalformedSignature,
    /// The signature is well-formed but does not verify.
    Mismatch,
    /// The signature verifies under the owner's key.
    Valid,
}

/// What examining `req` finds, given the key stored for its owner, if any.
pub open spec fn credential_of(req: SetSiteRequest, stored_key: Option<Seq<char>>) -> Credential {
    match stored_key {
        None => Credential::UnknownOwner,
        Some(pem) => match p256_key_from_pem(pem) {
            None => Credential::CorruptKey,
            Some(key) => match signature_check(req, key) {
                Err(_) => Credential::MalformedSignature,
                Ok(false) => Credential::Mismatch,
                Ok(true) => Credential::Valid,
            },
        },
    }
}

/// The response category of each finding. An unknown owner and a signature
/// that does not verify are answered alike.
pub open spec fn credential_outcome(credential: Credential) -> Result<(), RegistryError> {
    match credential {
        Credential::UnknownOwner => Err(RegistryError::Unauthorized),
        Credential::CorruptKey => Err(RegistryError::Internal),
        Credential::MalformedSignature => Err(RegistryError::BadRequest),
        Credential::Mismatch => Err(RegistryError::Unauthorized),
        Credential::Valid => Ok(()),
    }
}

impl Credential {
    /// Whether the write may proceed, and if not, how it fails.
    pub fn outcome(self) -> (done: Result<(), RegistryError>)
        ensures
            done == credential_outcome(self),
    {
        match self {
            Credential::UnknownOwner => Err(RegistryError::Unauthorized),
            Credential::CorruptKey => Err(RegistryError::Internal),
            Credential::MalformedSignature => Err(RegistryError::BadRequest),
            Credential::Mismatch => Err(RegistryError::Unauthorized),
            Credential::Valid => Ok(()),
        }
    }
}

/// Examines the credentials of `req` against the key stored for its owner:
/// `stored_key` is what the identity store holds under `req.owner`.
pub fn examine(req: &SetSiteRequest, stored_key: Option<&String>) -> (credential: Credential)
    ensures
        credential == credential_of(*req, text_of(stored_key)),
{
    let pem = match stored_key {
        Some(pem) => pem,
        None => { return Credential::UnknownOwner; },
    };
    let key = match PublicKey::from_pem(pem.as_str()) {
        Some(key) => key,
        None => { return Credential::CorruptKey; },
    };
    match check_signature(req, &key) {
        Err(_) => Credential::MalformedSignature,
        Ok(false) => Credential::Mismatch,
        Ok(true) => Credential::Valid,
    }
}

} // verus!
