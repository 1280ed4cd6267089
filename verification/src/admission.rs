//! The admission gate: a proof-of-work check on the raw request bytes.
//!
//! A body is admitted only if the hexadecimal text of its SHA-256 digest
//! begins with a fixed run of zero digits. The client has to vary a field of
//! the body until this holds; the server keeps no state for it.

use crate::encoding::{hex_digits, hex_encode};
use sha2::{Digest, Sha256};
use vstd::prelude::*;
use vstd::string::StrSliceExecFns;

verus! {

/// The number of zero hexadecimal digits with which an admitted digest begins.
pub const DIFFICULTY: usize = 4;

/// The SHA-256 digest of `data`.
pub uninterp spec fn sha256(data: Seq<u8>) -> Seq<u8>;

/// Whether `text` begins with `count` zero digits.
pub open spec fn has_zero_prefix(text: Seq<char>, count: nat) -> bool {
    &&& count <= text.len()
    &&& forall|i: int| 0 <= i < count ==> text[i] == '0'
}

/// Whether a body with this digest passes the admission gate.
pub open spec fn admits(digest: Seq<u8>) -> bool {
    has_zero_prefix(hex_digits(digest), DIFFICULTY as nat)
}

/// `Sha256::digest` of the sha2 crate: the SHA-256 digest of `data`. The
/// contract names the result and claims nothing else of it.
#[verifier::external_body]
fn sha256_digest(data: &[u8]) -> (digest: Vec<u8>)
    ensures
        digest@ == sha256(data@),
{
    Sha256::digest(data).to_vec()
}

/// Decides from the digest of a body whether the body passes the admission gate.
pub fn digest_admits(digest: &[u8]) -> (ok: bool)
    ensures
        ok == admits(digest@),
{
    let text = hex_encode(digest);
    let len: usize = text.as_str().unicode_len();
    if len < DIFFICULTY {
        return false;
    }
    let mut i: usize = 0;
    while i < DIFFICULTY
        invariant
            i <= DIFFICULTY <= len,
            len == text@.len(),
            text@ == hex_digits(digest@),
            forall|j: int| 0 <= j < i ==> text@[j] == '0',
        decreases DIFFICULTY - i,
    {
        if text.as_str().get_char(i) != '0' {
            return false;
        }
        i += 1;
    }
    true
}

/// Whether the raw request `body` carries enough proof of work.
pub fn check_nonce(body: &[u8]) -> (ok: bool)
    ensures
        ok == admits(sha256(body@)),
{
    let digest = sha256_digest(body);
    digest_admits(digest.as_slice())
}

} // verus!
