//! The registration protocol: the three operations of the registry.
//!
//! Every request passes the admission gate on its raw body, has to parse as
//! the request of its operation, and has to carry a fresh timestamp, in this
//! order, before the stores are consulted. A write to a record further needs
//! a valid signature of its claimed owner before the record store is
//! touched.
//!
//! Parsing the body is left to the caller, which hands in the parsed request
//! or `None` where the body did not parse. Each operation comes in two
//! forms: one that takes the server's time as an argument and whose outcome
//! is fixed by its arguments, and one that reads the clock.

use crate::admission::{admits, check_nonce, sha256};
use crate::clock::{current_timestamp, fresh, is_fresh, signed, signed_seconds};
use crate::error::RegistryError;
use crate::identity::{registration_outcome, IdentityStore};
use crate::record::{
    resolution, resolve, response_view, upsert_outcome, RecordStore, RecordView,
};
use crate::request::{GetSiteRequest, GetSiteResponse, RegisterRequest, SetSiteRequest};
use crate::signature::{check_key, credential_of, credential_outcome, examine, key_check};
use vstd::prelude::*;
use vstd::utf8::encode_utf8;

verus! {

/// The state of a registry: its identities and its records.
pub struct Registry {
    pub identities: IdentityStore,
    pub records: RecordStore,
}

/// What a registry holds: the key of each identity and the record of each
/// site.
pub struct RegistryView {
    pub identities: Map<Seq<char>, Seq<char>>,
    pub records: Map<Seq<char>, RecordView>,
}

impl View for Registry {
    type V = RegistryView;

    open spec fn view(&self) -> RegistryView {
        RegistryView { identities: self.identities@, records: self.records@ }
    }
}

/// Whether a request with these raw bytes passes the admission gate.
pub open spec fn admitted(body: Seq<u8>) -> bool {
    admits(sha256(body))
}

/// What the identity store holds under `name`, if anything.
pub open spec fn stored_key(state: RegistryView, name: Seq<char>) -> Option<Seq<char>> {
    if state.identities.contains_key(name) {
        Some(state.identities[name])
    } else {
        None
    }
}

/// The address and expiry that the record store holds under `name`, if any.
pub open spec fn stored_site(state: RegistryView, name: Seq<char>) -> Option<(Seq<char>, i64)> {
    if state.records.contains_key(name) {
        Some((state.records[name].address, state.records[name].expires))
    } else {
        None
    }
}

/// Registration of an admitted and parsed request at server time `now`: the
/// state afterwards and the outcome.
pub open spec fn register_step(state: RegistryView, req: RegisterRequest, now: u64) -> (
    RegistryView,
    Result<(), RegistryError>,
) {
    if !fresh(now, req.timestamp) {
        (state, Err(RegistryError::BadRequest))
    } else {
        match key_check(req.pubkey@) {
            Err(e) => (state, Err(e)),
            Ok(_) => {
                let (identities, done) = registration_outcome(
                    state.identities,
                    req.name@,
                    req.pubkey@,
                );
                (RegistryView { identities, records: state.records }, done)
            },
        }
    }
}

/// Registration of an identity from the raw `body` and what it parsed to.
pub open spec fn register_outcome(
    state: RegistryView,
    body: Seq<u8>,
    request: Option<RegisterRequest>,
    now: u64,
) -> (RegistryView, Result<(), RegistryError>) {
    if !admitted(body) {
        (state, Err(RegistryError::BadRequest))
    } else {
        match request {
            None => (state, Err(RegistryError::BadRequest)),
            Some(req) => register_step(state, req, now),
        }
    }
}

/// A write to a record by an admitted and parsed request at server time
/// `now`: the state afterwards and the outcome.
pub open spec fn set_site_step(state: RegistryView, req: SetSiteRequest, now: u64) -> (
    RegistryView,
    Result<(), RegistryError>,
) {
    if !fresh(now, req.timestamp) {
        (state, Err(RegistryError::BadRequest))
    } else {
        match credential_outcome(credential_of(req, stored_key(state, req.owner@))) {
            Err(e) => (state, Err(e)),
            Ok(_) => {
                let (records, done) = upsert_outcome(
                    state.records,
                    req.site@,
                    req.owner@,
                    req.address@,
                    req.expires,
                );
                (RegistryView { identities: state.identities, records }, done)
            },
        }
    }
}

/// A write to a record from the raw `body` and what it parsed to.
pub open spec fn set_site_outcome(
    state: RegistryView,
    body: Seq<u8>,
    request: Option<SetSiteRequest>,
    now: u64,
) -> (RegistryView, Result<(), RegistryError>) {
    if !admitted(body) {
        (state, Err(RegistryError::BadRequest))
    } else {
        match request {
            None => (state, Err(RegistryError::BadRequest)),
            Some(req) => set_site_step(state, req, now),
        }
    }
}

/// Resolution of a site name by an admitted and parsed request at server
/// time `now`: the address, or why there is none.
pub open spec fn get_site_step(state: RegistryView, req: GetSiteRequest, now: u64) -> Result<
    Seq<char>,
    RegistryError,
> {
    if !fresh(now, req.timestamp) {
        Err(RegistryError::BadRequest)
    } else {
        resolution(stored_site(state, req.name@), signed(now))
    }
}

/// Resolution of a site name from the raw `body` and what it parsed to.
pub open spec fn get_site_outcome(
    state: RegistryView,
    body: Seq<u8>,
    request: Option<GetSiteRequest>,
    now: u64,
) -> Result<Seq<char>, RegistryError> {
    if !admitted(body) {
        Err(RegistryError::BadRequest)
    } else {
        match request {
            None => Err(RegistryError::BadRequest),
            Some(req) => get_site_step(state, req, now),
        }
    }
}

impl Registry {
    /// Both stores are well-formed.
    pub open spec fn wf(&self) -> bool {
        self.identities.wf() && self.records.wf()
    }

    /// A registry with no identity and no record.
    pub fn new() -> (registry: Registry)
        ensures
            registry.wf(),
            registry@.identities == Map::<Seq<char>, Seq<char>>::empty(),
            registry@.records == Map::<Seq<char>, RecordView>::empty(),
    {
        Registry { identities: IdentityStore::new(), records: RecordStore::new() }
    }
}

/// Registers the identity of an admitted and parsed request.
fn register_admitted(registry: &mut Registry, req: RegisterRequest, now: u64) -> (done: Result<
    (),
    RegistryError,
>)
    requires
        old(registry).wf(),
    ensures
        final(registry).wf(),
        (final(registry)@, done) == register_step(old(registry)@, req, now),
{
    if !is_fresh(now, req.timestamp) {
        return Err(RegistryError::BadRequest);
    }
    match check_key(&req.pubkey) {
        Err(e) => { return Err(e); },
        Ok(_) => {},
    }
    registry.identities.register(req.name, req.pubkey)
}

/// Registers an identity at server time `now`.
///
/// `body` is the raw request and `request` what it parsed to. The name is
/// bound to the key if the body is admitted, parsed, fresh and holds a
/// well-formed key, and the name is not taken. Nothing changes otherwise.
pub fn register_at(
    registry: &mut Registry,
    body: &str,
    request: Option<RegisterRequest>,
    now: u64,
) -> (done: Result<(), RegistryError>)
    requires
        old(registry).wf(),
    ensures
        final(registry).wf(),
        (final(registry)@, done) == register_outcome(
            old(registry)@,
            encode_utf8(body@),
            request,
            now,
        ),
{
    if !check_nonce(body.as_bytes()) {
        return Err(RegistryError::BadRequest);
    }
    match request {
        None => Err(RegistryError::BadRequest),
        Some(req) => register_admitted(registry, req, now),
    }
}

/// Registers an identity at the time of the call.
///
/// The clock is read only once the body is admitted and parsed. If it cannot
/// be read the request fails with `Internal` and nothing changes; otherwise
/// the outcome is that of `register_at` at the time that was read.
pub fn register(registry: &mut Registry, body: &str, request: Option<RegisterRequest>) -> (done:
    Result<(), RegistryError>)
    requires
        old(registry).wf(),
    ensures
        final(registry).wf(),
        ({
            &&& admitted(encode_utf8(body@))
            &&& request is Some
            &&& done == Err::<(), RegistryError>(RegistryError::Internal)
            &&& final(registry)@ == old(registry)@
        }) || (exists|now: u64|
            (final(registry)@, done) == #[trigger] register_outcome(
                old(registry)@,
                encode_utf8(body@),
                request,
                now,
            )),
{
    if !check_nonce(body.as_bytes()) {
        assert((registry@, Err::<(), RegistryError>(RegistryError::BadRequest))
            == register_outcome(old(registry)@, encode_utf8(body@), request, 0));
        return Err(RegistryError::BadRequest);
    }
    let req = match request {
        None => {
            assert((registry@, Err::<(), RegistryError>(RegistryError::BadRequest))
                == register_outcome(old(registry)@, encode_utf8(body@), request, 0));
            return Err(RegistryError::BadRequest);
        },
        Some(req) => req,
    };
    match current_timestamp() {
        Err(_) => Err(RegistryError::Internal),
        Ok(now) => {
            let done = register_admitted(registry, req, now);
            assert((registry@, done) == register_outcome(
                old(registry)@,
                encode_utf8(body@),
                request,
                now,
            ));
            done
        },
    }
}

/// Writes the record of an admitted and parsed request.
fn set_site_admitted(registry: &mut Registry, req: SetSiteRequest, now: u64) -> (done: Result<
    (),
    RegistryError,
>)
    requires
        old(registry).wf(),
    ensures
        final(registry).wf(),
        (final(registry)@, done) == set_site_step(old(registry)@, req, now),
{
    if !is_fresh(now, req.timestamp) {
        return Err(RegistryError::BadRequest);
    }
    let credential = examine(&req, registry.identities.lookup(&req.owner));
    match credential.outcome() {
        Err(e) => { return Err(e); },
        Ok(_) => {},
    }
    registry.records.upsert(req.site, req.owner, req.address, req.expires)
}

/// Creates or updates the record of a site at server time `now`.
///
/// `body` is the raw request and `request` what it parsed to. The record is
/// written if the body is admitted, parsed and fresh, the owner is
/// registered, the signature verifies under the owner's key, and the site is
/// new or belongs to the owner. Nothing changes otherwise.
pub fn set_site_at(
    registry: &mut Registry,
    body: &str,
    request: Option<SetSiteRequest>,
    now: u64,
) -> (done: Result<(), RegistryError>)
    requires
        old(registry).wf(),
    ensures
        final(registry).wf(),
        (final(registry)@, done) == set_site_outcome(
            old(registry)@,
            encode_utf8(body@),
            request,
            now,
        ),
{
    if !check_nonce(body.as_bytes()) {
        return Err(RegistryError::BadRequest);
    }
    match request {
        None => Err(RegistryError::BadRequest),
        Some(req) => set_site_admitted(registry, req, now),
    }
}

/// Creates or updates the record of a site at the time of the call.
///
/// The clock is read only once the body is admitted and parsed. If it cannot
/// be read the request fails with `Internal` and nothing changes; otherwise
/// the outcome is that of `set_site_at` at the time that was read.
pub fn set_site(registry: &mut Registry, body: &str, request: Option<SetSiteRequest>) -> (done:
    Result<(), RegistryError>)
    requires
        old(registry).wf(),
    ensures
        final(registry).wf(),
        ({
            &&& admitted(encode_utf8(body@))
            &&& request is Some
            &&& done == Err::<(), RegistryError>(RegistryError::Internal)
            &&& final(registry)@ == old(registry)@
        }) || (exists|now: u64|
            (final(registry)@, done) == #[trigger] set_site_outcome(
                old(registry)@,
                encode_utf8(body@),
                request,
                now,
            )),
{
    if !check_nonce(body.as_bytes()) {
        assert((registry@, Err::<(), RegistryError>(RegistryError::BadRequest))
            == set_site_outcome(old(registry)@, encode_utf8(body@), request, 0));
        return Err(RegistryError::BadRequest);
    }
    let req = match request {
        None => {
            assert((registry@, Err::<(), RegistryError>(RegistryError::BadRequest))
                == set_site_outcome(old(registry)@, encode_utf8(body@), request, 0));
            return Err(RegistryError::BadRequest);
        },
        Some(req) => req,
    };
    match current_timestamp() {
        Err(_) => Err(RegistryError::Internal),
        Ok(now) => {
            let done = set_site_admitted(registry, req, now);
            assert((registry@, done) == set_site_outcome(
                old(registry)@,
                encode_utf8(body@),
                request,
                now,
            ));
            done
        },
    }
}

/// Resolves the name of an admitted and parsed request.
fn get_site_admitted(registry: &Registry, req: GetSiteRequest, now: u64) -> (response: Result<
    GetSiteResponse,
    RegistryError,
>)
    requires
        registry.wf(),
    ensures
        response_view(response) == get_site_step(registry@, req, now),
{
    if !is_fresh(now, req.timestamp) {
        return Err(RegistryError::BadRequest);
    }
    resolve(registry.records.get_record(&req.name), signed_seconds(now))
}

/// Resolves a site name at server time `now`.
///
/// `body` is the raw request and `request` what it parsed to. Gives the
/// stored address if the body is admitted, parsed and fresh and the name has
/// a record that has not expired at `now`; `NotFound` where there is no
/// record and `Gone` where it has expired.
pub fn get_site_at(
    registry: &Registry,
    body: &str,
    request: Option<GetSiteRequest>,
    now: u64,
) -> (response: Result<GetSiteResponse, RegistryError>)
    requires
        registry.wf(),
    ensures
        response_view(response) == get_site_outcome(
            registry@,
            encode_utf8(body@),
            request,
            now,
        ),
{
    if !check_nonce(body.as_bytes()) {
        return Err(RegistryError::BadRequest);
    }
    match request {
        None => Err(RegistryError::BadRequest),
        Some(req) => get_site_admitted(registry, req, now),
    }
}

/// Resolves a site name at the time of the call.
///
/// The clock is read only once the body is admitted and parsed. If it cannot
/// be read the request fails with `Internal`; otherwise the outcome is that
/// of `get_site_at` at the time that was read.
pub fn get_site(registry: &Registry, body: &str, request: Option<GetSiteRequest>) -> (response:
    Result<GetSiteResponse, RegistryError>)
    requires
        registry.wf(),
    ensures
        ({
            &&& admitted(encode_utf8(body@))
            &&& request is Some
            &&& response_view(response) == Err::<Seq<char>, RegistryError>(RegistryError::Internal)
        }) || (exists|now: u64|
            response_view(response) == #[trigger] get_site_outcome(
                registry@,
                encode_utf8(body@),
                request,
                now,
            )),
{
    if !check_nonce(body.as_bytes()) {
        assert(get_site_outcome(registry@, encode_utf8(body@), request, 0) == Err::<
            Seq<char>,
            RegistryError,
        >(RegistryError::BadRequest));
        return Err(RegistryError::BadRequest);
    }
    let req = match request {
        None => {
            assert(get_site_outcome(registry@, encode_utf8(body@), request, 0) == Err::<
                Seq<char>,
                RegistryError,
            >(RegistryError::BadRequest));
            return Err(RegistryError::BadRequest);
        },
        Some(req) => req,
    };
    match current_timestamp() {
        Err(_) => Err(RegistryError::Internal),
        Ok(now) => {
            let response = get_site_admitted(registry, req, now);
            assert(response_view(response) == get_site_outcome(
                registry@,
                encode_utf8(body@),
                request,
                now,
            ));
            response
        },
    }
}

} // verus!
