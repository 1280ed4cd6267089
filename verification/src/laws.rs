//! What holds of the protocol for all states and all requests.
//!
//! Each law is stated over the outcome functions of the protocol, which are
//! what the operations are proved to compute.

use crate::admission::admits;
use crate::clock::{fresh, signed};
use crate::encoding::{hex_digit, hex_digits};
use crate::error::RegistryError;
use crate::protocol::{
    admitted, get_site_outcome, register_outcome, set_site_outcome, stored_key, RegistryView,
};
use crate::record::RecordView;
use crate::request::{GetSiteRequest, RegisterRequest, SetSiteRequest};
use crate::signature::{credential_of, p256_key_from_pem, signature_check, Credential};
use vstd::prelude::*;

verus! {

/// Whether a write request passes everything that comes before the record
/// store: the admission gate, the freshness window and the check of its
/// credentials.
pub open spec fn write_authorized(
    state: RegistryView,
    body: Seq<u8>,
    req: SetSiteRequest,
    now: u64,
) -> bool {
    &&& admitted(body)
    &&& fresh(now, req.timestamp)
    &&& credential_of(req, stored_key(state, req.owner@)) == Credential::Valid
}

/// Whether a registration passes everything that comes before the identity
/// store: the admission gate, the freshness window and the syntax of its key.
pub open spec fn registration_admissible(body: Seq<u8>, req: RegisterRequest, now: u64) -> bool {
    &&& admitted(body)
    &&& fresh(now, req.timestamp)
    &&& p256_key_from_pem(req.pubkey@) is Some
}

/// Only the nibble zero is written as the digit zero.
proof fn lemma_zero_digit(nibble: int)
    requires
        0 <= nibble < 16,
    ensures
        hex_digit(nibble) == '0' <==> nibble == 0,
{
}

/// A digest is admitted exactly when its first two bytes are zero: one in
/// 65536 of all digests is.
pub proof fn law_admitted_digest_has_two_zero_bytes(digest: Seq<u8>)
    ensures
        admits(digest) <==> digest.len() >= 2 && digest[0] == 0 && digest[1] == 0,
{
    let text = hex_digits(digest);
    if digest.len() >= 2 {
        assert(text[0] == hex_digit(digest[0] as int / 16));
        assert(text[1] == hex_digit(digest[0] as int % 16));
        assert(text[2] == hex_digit(digest[1] as int / 16));
        assert(text[3] == hex_digit(digest[1] as int % 16));
        lemma_zero_digit(digest[0] as int / 16);
        lemma_zero_digit(digest[0] as int % 16);
        lemma_zero_digit(digest[1] as int / 16);
        lemma_zero_digit(digest[1] as int % 16);
    }
}

/// A body that fails the admission gate fails every operation with
/// `BadRequest`, whatever the stores hold, and leaves them as they were.
pub proof fn law_unadmitted_body_is_rejected(
    state: RegistryView,
    body: Seq<u8>,
    registration: Option<RegisterRequest>,
    write: Option<SetSiteRequest>,
    query: Option<GetSiteRequest>,
    now: u64,
)
    requires
        !admitted(body),
    ensures
        register_outcome(state, body, registration, now) == (
            state,
            Err::<(), RegistryError>(RegistryError::BadRequest),
        ),
        set_site_outcome(state, body, write, now) == (
            state,
            Err::<(), RegistryError>(RegistryError::BadRequest),
        ),
        get_site_outcome(state, body, query, now) == Err::<Seq<char>, RegistryError>(
            RegistryError::BadRequest,
        ),
{
}

/// A request whose timestamp lies the freshness window or more away from
/// server time, before it or after it, fails with `BadRequest` and changes
/// nothing.
pub proof fn law_stale_timestamp_is_rejected(
    state: RegistryView,
    body: Seq<u8>,
    registration: RegisterRequest,
    write: SetSiteRequest,
    query: GetSiteRequest,
    now: u64,
)
    ensures
        !fresh(now, registration.timestamp) ==> register_outcome(
            state,
            body,
            Some(registration),
            now,
        ) == (state, Err::<(), RegistryError>(RegistryError::BadRequest)),
        !fresh(now, write.timestamp) ==> set_site_outcome(state, body, Some(write), now) == (
            state,
            Err::<(), RegistryError>(RegistryError::BadRequest),
        ),
        !fresh(now, query.timestamp) ==> get_site_outcome(state, body, Some(query), now) == Err::<
            Seq<char>,
            RegistryError,
        >(RegistryError::BadRequest),
{
}

/// The freshness window is symmetric and thirty seconds wide: a timestamp is
/// fresh exactly when it differs from server time by less than thirty
/// seconds, in either direction.
pub proof fn law_freshness_window(now: u64, timestamp: u64)
    ensures
        fresh(now, timestamp) <==> -30 < now - timestamp < 30,
{
}

/// Of two registrations of one name the first succeeds and the second
/// fails, with `Conflict` if it is otherwise admissible; the store holds the
/// first key afterwards.
pub proof fn law_first_registration_wins(
    state: RegistryView,
    body1: Seq<u8>,
    first: RegisterRequest,
    now1: u64,
    body2: Seq<u8>,
    second: RegisterRequest,
    now2: u64,
)
    requires
        registration_admissible(body1, first, now1),
        !state.identities.contains_key(first.name@),
        second.name@ == first.name@,
    ensures
        ({
            let (state1, done1) = register_outcome(state, body1, Some(first), now1);
            let (state2, done2) = register_outcome(state1, body2, Some(second), now2);
            &&& done1 == Ok::<(), RegistryError>(())
            &&& state1.identities == state.identities.insert(first.name@, first.pubkey@)
            &&& done2 is Err
            &&& registration_admissible(body2, second, now2) ==> done2 == Err::<(), RegistryError>(
                RegistryError::Conflict,
            )
            &&& state2 == state1
            &&& state2.identities[first.name@] == first.pubkey@
        }),
{
}

/// The identity store is append-only: no operation removes an identity or
/// changes the key that a name is bound to.
pub proof fn law_identities_are_permanent(
    state: RegistryView,
    body: Seq<u8>,
    registration: Option<RegisterRequest>,
    write: Option<SetSiteRequest>,
    now: u64,
    name: Seq<char>,
)
    requires
        state.identities.contains_key(name),
    ensures
        register_outcome(state, body, registration, now).0.identities.contains_key(name),
        register_outcome(state, body, registration, now).0.identities[name]
            == state.identities[name],
        register_outcome(state, body, registration, now).0.records == state.records,
        set_site_outcome(state, body, write, now).0.identities == state.identities,
{
}

/// A write to a new site by a registered owner with a valid signature
/// succeeds and creates the record with that owner. A later write to the
/// same site by another identity fails, with `Forbidden` if its own
/// credentials are valid, and leaves the record as the first write made it.
pub proof fn law_first_owner_keeps_site(
    state: RegistryView,
    body1: Seq<u8>,
    first: SetSiteRequest,
    now1: u64,
    body2: Seq<u8>,
    second: SetSiteRequest,
    now2: u64,
)
    requires
        write_authorized(state, body1, first, now1),
        !state.records.contains_key(first.site@),
        second.site@ == first.site@,
        second.owner@ != first.owner@,
    ensures
        ({
            let (state1, done1) = set_site_outcome(state, body1, Some(first), now1);
            let (state2, done2) = set_site_outcome(state1, body2, Some(second), now2);
            &&& done1 == Ok::<(), RegistryError>(())
            &&& state1.records == state.records.insert(
                first.site@,
                RecordView { owner: first.owner@, address: first.address@, expires: first.expires },
            )
            &&& done2 is Err
            &&& write_authorized(state1, body2, second, now2) ==> done2 == Err::<
                (),
                RegistryError,
            >(RegistryError::Forbidden)
            &&& state2 == state1
        }),
{
}

/// The owner of a site never changes and no record is ever removed: after
/// any write request a site that had a record has one with the same owner.
pub proof fn law_owner_is_permanent(
    state: RegistryView,
    body: Seq<u8>,
    write: Option<SetSiteRequest>,
    now: u64,
    site: Seq<char>,
)
    requires
        state.records.contains_key(site),
    ensures
        set_site_outcome(state, body, write, now).0.records.contains_key(site),
        set_site_outcome(state, body, write, now).0.records[site].owner
            == state.records[site].owner,
{
}

/// A write whose signature is well-formed but does not verify under the
/// owner's key fails with `Unauthorized` and writes nothing.
pub proof fn law_mismatched_signature_is_unauthorized(
    state: RegistryView,
    body: Seq<u8>,
    req: SetSiteRequest,
    now: u64,
    key: Seq<u8>,
)
    requires
        admitted(body),
        fresh(now, req.timestamp),
        state.identities.contains_key(req.owner@),
        p256_key_from_pem(state.identities[req.owner@]) == Some(key),
        signature_check(req, key) == Ok::<bool, RegistryError>(false),
    ensures
        set_site_outcome(state, body, Some(req), now) == (
            state,
            Err::<(), RegistryError>(RegistryError::Unauthorized),
        ),
{
}

/// A write by an owner that is not registered fails with `Unauthorized`,
/// as one with a mismatched signature does, and writes nothing.
pub proof fn law_unknown_owner_is_unauthorized(
    state: RegistryView,
    body: Seq<u8>,
    req: SetSiteRequest,
    now: u64,
)
    requires
        admitted(body),
        fresh(now, req.timestamp),
        !state.identities.contains_key(req.owner@),
    ensures
        set_site_outcome(state, body, Some(req), now) == (
            state,
            Err::<(), RegistryError>(RegistryError::Unauthorized),
        ),
{
}

/// Nothing is written without valid credentials: a write request whose
/// credentials are anything but valid leaves the state as it was and fails.
pub proof fn law_no_write_without_credentials(
    state: RegistryView,
    body: Seq<u8>,
    req: SetSiteRequest,
    now: u64,
)
    requires
        !write_authorized(state, body, req, now),
    ensures
        set_site_outcome(state, body, Some(req), now).0 == state,
        set_site_outcome(state, body, Some(req), now).1 is Err,
{
}

/// Resolving an admitted, fresh request gives `NotFound` for a name without
/// a record, `Gone` for a record that expired before server time, and
/// otherwise the stored address exactly.
pub proof fn law_resolution(state: RegistryView, body: Seq<u8>, req: GetSiteRequest, now: u64)
    requires
        admitted(body),
        fresh(now, req.timestamp),
    ensures
        !state.records.contains_key(req.name@) ==> get_site_outcome(state, body, Some(req), now)
            == Err::<Seq<char>, RegistryError>(RegistryError::NotFound),
        state.records.contains_key(req.name@) && state.records[req.name@].expires < signed(now)
            ==> get_site_outcome(state, body, Some(req), now) == Err::<Seq<char>, RegistryError>(
            RegistryError::Gone,
        ),
        state.records.contains_key(req.name@) && state.records[req.name@].expires >= signed(now)
            ==> get_site_outcome(state, body, Some(req), now) == Ok::<Seq<char>, RegistryError>(
            state.records[req.name@].address,
        ),
{
}

/// One write request as the protocol receives it: the raw body, what it
/// parsed to, and the server time at which it is handled.
pub struct WriteCall {
    pub body: Seq<u8>,
    pub request: SetSiteRequest,
    pub now: u64,
}

/// The state and the outcomes after the write requests `calls` have been
/// handled one after the other, each in a transaction of its own.
pub open spec fn run_writes(state: RegistryView, calls: Seq<WriteCall>) -> (
    RegistryView,
    Seq<Result<(), RegistryError>>,
)
    decreases calls.len(),
{
    if calls.len() == 0 {
        (state, Seq::empty())
    } else {
        let (next, done) = set_site_outcome(
            state,
            calls[0].body,
            Some(calls[0].request),
            calls[0].now,
        );
        let (last, rest) = run_writes(next, calls.drop_first());
        (last, seq![done] + rest)
    }
}

/// Writes to a site that belongs to `owner`, all of them authorized and
/// none of them by `owner`, all fail with `Forbidden` and change nothing.
proof fn lemma_late_writers_lose(
    state: RegistryView,
    calls: Seq<WriteCall>,
    site: Seq<char>,
    owner: Seq<char>,
)
    requires
        state.records.contains_key(site),
        state.records[site].owner == owner,
        forall|i: int| 0 <= i < calls.len() ==> (#[trigger] calls[i]).request.site@ == site,
        forall|i: int| 0 <= i < calls.len() ==> (#[trigger] calls[i]).request.owner@ != owner,
        forall|i: int|
            0 <= i < calls.len() ==> write_authorized(
                state,
                (#[trigger] calls[i]).body,
                calls[i].request,
                calls[i].now,
            ),
    ensures
        run_writes(state, calls).0 == state,
        run_writes(state, calls).1.len() == calls.len(),
        forall|i: int|
            0 <= i < calls.len() ==> #[trigger] run_writes(state, calls).1[i] == Err::<
                (),
                RegistryError,
            >(RegistryError::Forbidden),
    decreases calls.len(),
{
    if calls.len() > 0 {
        let rest = calls.drop_first();
        assert(calls[0].request.site@ == site);
        assert forall|i: int| 0 <= i < rest.len() implies (#[trigger] rest[i]).request.site@ == site
            && rest[i].request.owner@ != owner && write_authorized(
            state,
            rest[i].body,
            rest[i].request,
            rest[i].now,
        ) by {
            assert(rest[i] == calls[i + 1]);
        }
        lemma_late_writers_lose(state, rest, site, owner);
    }
}

/// Of several writes to one new site, handled one after the other in any
/// order, all with valid credentials and each by a different owner, exactly
/// the first succeeds. Every other one fails with `Forbidden`, and the record
/// is the one that the first write made.
pub proof fn law_one_writer_wins(state: RegistryView, calls: Seq<WriteCall>)
    requires
        calls.len() > 0,
        !state.records.contains_key(calls[0].request.site@),
        forall|i: int|
            0 <= i < calls.len() ==> (#[trigger] calls[i]).request.site@ == calls[0].request.site@,
        forall|i: int, j: int|
            0 <= i < j < calls.len() ==> (#[trigger] calls[i]).request.owner@ != (
            #[trigger] calls[j]).request.owner@,
        forall|i: int|
            0 <= i < calls.len() ==> write_authorized(
                state,
                (#[trigger] calls[i]).body,
                calls[i].request,
                calls[i].now,
            ),
    ensures
        run_writes(state, calls).1.len() == calls.len(),
        run_writes(state, calls).1[0] == Ok::<(), RegistryError>(()),
        forall|i: int|
            0 < i < calls.len() ==> #[trigger] run_writes(state, calls).1[i] == Err::<
                (),
                RegistryError,
            >(RegistryError::Forbidden),
        run_writes(state, calls).0.identities == state.identities,
        run_writes(state, calls).0.records == state.records.insert(
            calls[0].request.site@,
            RecordView {
                owner: calls[0].request.owner@,
                address: calls[0].request.address@,
                expires: calls[0].request.expires,
            },
        ),
{
    let first = calls[0];
    let site = first.request.site@;
    let (next, done) = set_site_outcome(state, first.body, Some(first.request), first.now);
    let rest = calls.drop_first();
    assert(write_authorized(state, first.body, first.request, first.now));
    assert forall|i: int| 0 <= i < rest.len() implies (#[trigger] rest[i]).request.site@ == site
        && rest[i].request.owner@ != first.request.owner@ && write_authorized(
        next,
        rest[i].body,
        rest[i].request,
        rest[i].now,
    ) by {
        assert(rest[i] == calls[i + 1]);
        assert(write_authorized(state, calls[i + 1].body, calls[i + 1].request, calls[i + 1].now));
    }
    lemma_late_writers_lose(next, rest, site, first.request.owner@);
    let outcomes = run_writes(state, calls).1;
    assert forall|i: int| 0 < i < calls.len() implies #[trigger] outcomes[i] == Err::<
        (),
        RegistryError,
    >(RegistryError::Forbidden) by {
        assert(outcomes[i] == run_writes(next, rest).1[i - 1]);
    }
}

} // verus!
