use p256::ecdsa::signature::Signer;
use p256::ecdsa::{Signature, SigningKey};
use p256::pkcs8::{EncodePublicKey, LineEnding};
use registry::clock::current_timestamp;
use registry::error::RegistryError;
use registry::protocol::{
    get_site, get_site_at, register, register_at, set_site, set_site_at, Registry,
};
use registry::request::{
    GetSiteRequest, GetSiteResponse, RegisterRequest, SetSiteRequest, Site,
};

/// Bodies whose SHA-256 digest begins with 0000.
const ADMITTED: &str = "{\"name\":\"alice\",\"nonce\":175114}";
const ADMITTED_TOO: &str = "{\"name\":\"bob\",\"nonce\":10824}";
/// A body whose digest does not.
const UNADMITTED: &str = "{\"name\":\"alice\",\"nonce\":0}";

const NOW: u64 = 1_700_000_000;

fn text(s: &str) -> String {
    s.to_string()
}

fn signing_key(seed: u8) -> SigningKey {
    SigningKey::from_bytes(&[seed; 32]).unwrap()
}

fn pem_of(key: &SigningKey) -> String {
    key.verifying_key().to_public_key_pem(LineEnding::LF).unwrap()
}

fn registration(name: &str, key: &SigningKey, timestamp: u64) -> RegisterRequest {
    RegisterRequest { name: text(name), pubkey: pem_of(key), timestamp }
}

fn write(
    key: &SigningKey,
    owner: &str,
    site: &str,
    address: &str,
    expires: i64,
    timestamp: u64,
) -> SetSiteRequest {
    let message = format!("{}{}{}", owner, site, timestamp);
    let signature: Signature = key.sign(message.as_bytes());
    SetSiteRequest {
        site: text(site),
        address: text(address),
        expires,
        owner: text(owner),
        signature: hex::encode(signature.to_der().as_bytes()),
        timestamp,
    }
}

fn query(name: &str, timestamp: u64) -> GetSiteRequest {
    GetSiteRequest { name: text(name), timestamp }
}

/// A registry in which `alice` holds key 1 and `bob` holds key 2.
fn registry_with_two_identities() -> Registry {
    let mut registry = Registry::new();
    let alice = registration("alice", &signing_key(1), NOW);
    let bob = registration("bob", &signing_key(2), NOW);
    assert_eq!(register_at(&mut registry, ADMITTED, Some(alice), NOW), Ok(()));
    assert_eq!(register_at(&mut registry, ADMITTED, Some(bob), NOW), Ok(()));
    registry
}

#[test]
fn unadmitted_registration_is_a_bad_request() {
    let mut registry = Registry::new();
    let req = registration("alice", &signing_key(1), NOW);
    assert_eq!(
        register_at(&mut registry, UNADMITTED, Some(req), NOW),
        Err(RegistryError::BadRequest)
    );
    assert_eq!(registry.identities.lookup(&text("alice")), None);
}

#[test]
fn unadmitted_write_is_a_bad_request() {
    let mut registry = registry_with_two_identities();
    let req = write(&signing_key(1), "alice", "example", "10.0.0.1", 2_000_000_000, NOW);
    assert_eq!(
        set_site_at(&mut registry, UNADMITTED, Some(req), NOW),
        Err(RegistryError::BadRequest)
    );
    assert_eq!(registry.records.get_owner(&text("example")), None);
}

#[test]
fn unadmitted_query_is_a_bad_request() {
    let mut registry = registry_with_two_identities();
    let req = write(&signing_key(1), "alice", "example", "10.0.0.1", 2_000_000_000, NOW);
    assert_eq!(set_site_at(&mut registry, ADMITTED, Some(req), NOW), Ok(()));
    assert_eq!(
        get_site_at(&registry, UNADMITTED, Some(query("example", NOW)), NOW),
        Err(RegistryError::BadRequest)
    );
}

#[test]
fn body_that_did_not_parse_is_a_bad_request() {
    let mut registry = registry_with_two_identities();
    assert_eq!(register_at(&mut registry, ADMITTED, None, NOW), Err(RegistryError::BadRequest));
    assert_eq!(set_site_at(&mut registry, ADMITTED, None, NOW), Err(RegistryError::BadRequest));
    assert_eq!(get_site_at(&registry, ADMITTED, None, NOW), Err(RegistryError::BadRequest));
}

#[test]
fn stale_registration_is_a_bad_request() {
    let mut registry = Registry::new();
    let past = registration("alice", &signing_key(1), NOW - 30);
    assert_eq!(
        register_at(&mut registry, ADMITTED, Some(past), NOW),
        Err(RegistryError::BadRequest)
    );
    let future = registration("alice", &signing_key(1), NOW + 30);
    assert_eq!(
        register_at(&mut registry, ADMITTED, Some(future), NOW),
        Err(RegistryError::BadRequest)
    );
    assert_eq!(registry.identities.lookup(&text("alice")), None);
}

#[test]
fn registration_at_the_edge_of_the_window_succeeds() {
    let mut registry = Registry::new();
    let past = registration("alice", &signing_key(1), NOW - 29);
    assert_eq!(register_at(&mut registry, ADMITTED, Some(past), NOW), Ok(()));
    let future = registration("bob", &signing_key(2), NOW + 29);
    assert_eq!(register_at(&mut registry, ADMITTED, Some(future), NOW), Ok(()));
}

#[test]
fn stale_write_is_a_bad_request() {
    let mut registry = registry_with_two_identities();
    let past = write(&signing_key(1), "alice", "example", "10.0.0.1", 2_000_000_000, NOW - 31);
    assert_eq!(
        set_site_at(&mut registry, ADMITTED, Some(past), NOW),
        Err(RegistryError::BadRequest)
    );
    let future = write(&signing_key(1), "alice", "example", "10.0.0.1", 2_000_000_000, NOW + 31);
    assert_eq!(
        set_site_at(&mut registry, ADMITTED, Some(future), NOW),
        Err(RegistryError::BadRequest)
    );
    assert_eq!(registry.records.get_owner(&text("example")), None);
}

#[test]
fn stale_query_is_a_bad_request() {
    let mut registry = registry_with_two_identities();
    let req = write(&signing_key(1), "alice", "example", "10.0.0.1", 2_000_000_000, NOW);
    assert_eq!(set_site_at(&mut registry, ADMITTED, Some(req), NOW), Ok(()));
    assert_eq!(
        get_site_at(&registry, ADMITTED, Some(query("example", NOW - 30)), NOW),
        Err(RegistryError::BadRequest)
    );
    assert_eq!(
        get_site_at(&registry, ADMITTED, Some(query("example", NOW + 30)), NOW),
        Err(RegistryError::BadRequest)
    );
}

#[test]
fn registration_with_a_malformed_key_is_a_bad_request() {
    let mut registry = Registry::new();
    let req = RegisterRequest { name: text("alice"), pubkey: text("no key"), timestamp: NOW };
    assert_eq!(
        register_at(&mut registry, ADMITTED, Some(req), NOW),
        Err(RegistryError::BadRequest)
    );
    assert_eq!(registry.identities.lookup(&text("alice")), None);
}

#[test]
fn second_registration_conflicts_and_first_key_stays() {
    let mut registry = Registry::new();
    let first = registration("alice", &signing_key(1), NOW);
    let second = registration("alice", &signing_key(2), NOW + 5);
    assert_eq!(register_at(&mut registry, ADMITTED, Some(first), NOW), Ok(()));
    assert_eq!(
        register_at(&mut registry, ADMITTED_TOO, Some(second), NOW + 5),
        Err(RegistryError::Conflict)
    );
    assert_eq!(registry.identities.lookup(&text("alice")), Some(&pem_of(&signing_key(1))));
}

#[test]
fn first_write_creates_record_for_its_owner() {
    let mut registry = registry_with_two_identities();
    let req = write(&signing_key(1), "alice", "example", "10.0.0.1", 2_000_000_000, NOW);
    assert_eq!(set_site_at(&mut registry, ADMITTED, Some(req), NOW), Ok(()));
    assert_eq!(registry.records.get_owner(&text("example")), Some(&text("alice")));
    assert_eq!(
        registry.records.get_record(&text("example")),
        Some(Site { address: text("10.0.0.1"), expires: 2_000_000_000 })
    );
}

#[test]
fn write_by_another_identity_is_forbidden() {
    let mut registry = registry_with_two_identities();
    let first = write(&signing_key(1), "alice", "example", "10.0.0.1", 2_000_000_000, NOW);
    assert_eq!(set_site_at(&mut registry, ADMITTED, Some(first), NOW), Ok(()));
    let second = write(&signing_key(2), "bob", "example", "6.6.6.6", 2_100_000_000, NOW);
    assert_eq!(
        set_site_at(&mut registry, ADMITTED_TOO, Some(second), NOW),
        Err(RegistryError::Forbidden)
    );
    assert_eq!(registry.records.get_owner(&text("example")), Some(&text("alice")));
    assert_eq!(
        registry.records.get_record(&text("example")),
        Some(Site { address: text("10.0.0.1"), expires: 2_000_000_000 })
    );
}

#[test]
fn owner_rewrites_the_record() {
    let mut registry = registry_with_two_identities();
    let first = write(&signing_key(1), "alice", "example", "10.0.0.1", 2_000_000_000, NOW);
    assert_eq!(set_site_at(&mut registry, ADMITTED, Some(first), NOW), Ok(()));
    let second = write(&signing_key(1), "alice", "example", "10.0.0.2", 5, NOW + 100);
    assert_eq!(set_site_at(&mut registry, ADMITTED, Some(second), NOW + 100), Ok(()));
    assert_eq!(registry.records.get_owner(&text("example")), Some(&text("alice")));
    assert_eq!(
        registry.records.get_record(&text("example")),
        Some(Site { address: text("10.0.0.2"), expires: 5 })
    );
}

#[test]
fn write_by_an_unknown_owner_is_unauthorized() {
    let mut registry = registry_with_two_identities();
    let req = write(&signing_key(3), "carol", "example", "10.0.0.1", 2_000_000_000, NOW);
    assert_eq!(
        set_site_at(&mut registry, ADMITTED, Some(req), NOW),
        Err(RegistryError::Unauthorized)
    );
    assert_eq!(registry.records.get_owner(&text("example")), None);
}

#[test]
fn write_signed_with_the_wrong_key_is_unauthorized() {
    let mut registry = registry_with_two_identities();
    let req = write(&signing_key(2), "alice", "example", "10.0.0.1", 2_000_000_000, NOW);
    assert_eq!(
        set_site_at(&mut registry, ADMITTED, Some(req), NOW),
        Err(RegistryError::Unauthorized)
    );
    assert_eq!(registry.records.get_owner(&text("example")), None);
}

#[test]
fn write_with_a_tampered_site_is_unauthorized() {
    let mut registry = registry_with_two_identities();
    let mut req = write(&signing_key(1), "alice", "example", "10.0.0.1", 2_000_000_000, NOW);
    req.site = text("other");
    assert_eq!(
        set_site_at(&mut registry, ADMITTED, Some(req), NOW),
        Err(RegistryError::Unauthorized)
    );
    assert_eq!(registry.records.get_owner(&text("other")), None);
    assert_eq!(registry.records.get_owner(&text("example")), None);
}

#[test]
fn write_with_a_tampered_timestamp_is_unauthorized() {
    let mut registry = registry_with_two_identities();
    let mut req = write(&signing_key(1), "alice", "example", "10.0.0.1", 2_000_000_000, NOW);
    req.timestamp = NOW + 1;
    assert_eq!(
        set_site_at(&mut registry, ADMITTED, Some(req), NOW),
        Err(RegistryError::Unauthorized)
    );
    assert_eq!(registry.records.get_owner(&text("example")), None);
}

#[test]
fn replayed_signature_does_not_update_a_record() {
    let mut registry = registry_with_two_identities();
    let first = write(&signing_key(1), "alice", "example", "10.0.0.1", 2_000_000_000, NOW);
    let mut replay = first.clone();
    assert_eq!(set_site_at(&mut registry, ADMITTED, Some(first), NOW), Ok(()));
    replay.address = text("6.6.6.6");
    assert_eq!(
        set_site_at(&mut registry, ADMITTED, Some(replay), NOW + 1000),
        Err(RegistryError::BadRequest)
    );
    assert_eq!(
        registry.records.get_record(&text("example")),
        Some(Site { address: text("10.0.0.1"), expires: 2_000_000_000 })
    );
}

#[test]
fn write_with_a_malformed_signature_is_a_bad_request() {
    let mut registry = registry_with_two_identities();
    let mut req = write(&signing_key(1), "alice", "example", "10.0.0.1", 2_000_000_000, NOW);
    req.signature = text("not hex");
    assert_eq!(
        set_site_at(&mut registry, ADMITTED, Some(req), NOW),
        Err(RegistryError::BadRequest)
    );
    assert_eq!(registry.records.get_owner(&text("example")), None);
}

#[test]
fn write_under_a_corrupt_stored_key_is_internal() {
    let mut registry = Registry::new();
    assert_eq!(registry.identities.register(text("alice"), text("corrupt")), Ok(()));
    let req = write(&signing_key(1), "alice", "example", "10.0.0.1", 2_000_000_000, NOW);
    assert_eq!(set_site_at(&mut registry, ADMITTED, Some(req), NOW), Err(RegistryError::Internal));
    assert_eq!(registry.records.get_owner(&text("example")), None);
}

#[test]
fn name_never_set_is_not_found() {
    let registry = registry_with_two_identities();
    assert_eq!(
        get_site_at(&registry, ADMITTED, Some(query("example", NOW)), NOW),
        Err(RegistryError::NotFound)
    );
}

#[test]
fn record_with_a_past_expiry_is_gone() {
    let mut registry = registry_with_two_identities();
    let expires = NOW as i64 - 1;
    let req = write(&signing_key(1), "alice", "example", "10.0.0.1", expires, NOW);
    assert_eq!(set_site_at(&mut registry, ADMITTED, Some(req), NOW), Ok(()));
    assert_eq!(
        get_site_at(&registry, ADMITTED, Some(query("example", NOW)), NOW),
        Err(RegistryError::Gone)
    );
    assert_eq!(
        registry.records.get_record(&text("example")),
        Some(Site { address: text("10.0.0.1"), expires })
    );
}

#[test]
fn record_with_a_future_expiry_resolves_to_its_address() {
    let mut registry = registry_with_two_identities();
    let req = write(&signing_key(1), "alice", "example", "10.0.0.1:8080", NOW as i64 + 1, NOW);
    assert_eq!(set_site_at(&mut registry, ADMITTED, Some(req), NOW), Ok(()));
    assert_eq!(
        get_site_at(&registry, ADMITTED, Some(query("example", NOW)), NOW),
        Ok(GetSiteResponse { address: text("10.0.0.1:8080") })
    );
}

#[test]
fn record_that_expires_at_server_time_resolves() {
    let mut registry = registry_with_two_identities();
    let req = write(&signing_key(1), "alice", "example", "10.0.0.1", NOW as i64, NOW);
    assert_eq!(set_site_at(&mut registry, ADMITTED, Some(req), NOW), Ok(()));
    assert_eq!(
        get_site_at(&registry, ADMITTED, Some(query("example", NOW)), NOW),
        Ok(GetSiteResponse { address: text("10.0.0.1") })
    );
}

#[test]
fn record_expires_as_time_passes() {
    let mut registry = registry_with_two_identities();
    let req = write(&signing_key(1), "alice", "example", "10.0.0.1", NOW as i64 + 50, NOW);
    assert_eq!(set_site_at(&mut registry, ADMITTED, Some(req), NOW), Ok(()));
    assert_eq!(
        get_site_at(&registry, ADMITTED, Some(query("example", NOW + 50)), NOW + 50),
        Ok(GetSiteResponse { address: text("10.0.0.1") })
    );
    assert_eq!(
        get_site_at(&registry, ADMITTED, Some(query("example", NOW + 51)), NOW + 51),
        Err(RegistryError::Gone)
    );
}

#[test]
fn one_of_many_writers_wins() {
    let mut registry = Registry::new();
    let owners = ["alice", "bob", "carol", "dave", "erin"];
    for (i, owner) in owners.iter().enumerate() {
        let req = registration(owner, &signing_key(i as u8 + 1), NOW);
        assert_eq!(register_at(&mut registry, ADMITTED, Some(req), NOW), Ok(()));
    }
    // The requests are handled in some order: here carol comes first.
    let order = [2usize, 0, 4, 1, 3];
    let mut outcomes = Vec::new();
    for &i in order.iter() {
        let address = format!("10.0.0.{}", i);
        let key = signing_key(i as u8 + 1);
        let req = write(&key, owners[i], "example", &address, 2_000_000_000, NOW);
        outcomes.push(set_site_at(&mut registry, ADMITTED, Some(req), NOW));
    }
    assert_eq!(outcomes[0], Ok(()));
    for outcome in &outcomes[1..] {
        assert_eq!(*outcome, Err(RegistryError::Forbidden));
    }
    assert_eq!(outcomes.iter().filter(|o| o.is_ok()).count(), 1);
    assert_eq!(registry.records.get_owner(&text("example")), Some(&text("carol")));
    assert_eq!(
        registry.records.get_record(&text("example")),
        Some(Site { address: text("10.0.0.2"), expires: 2_000_000_000 })
    );
}

#[test]
fn operations_read_the_clock() {
    let mut registry = Registry::new();
    let now = current_timestamp().unwrap();
    let alice = registration("alice", &signing_key(1), now);
    assert_eq!(register(&mut registry, ADMITTED, Some(alice)), Ok(()));
    let req = write(&signing_key(1), "alice", "example", "10.0.0.1", now as i64 + 3600, now);
    assert_eq!(set_site(&mut registry, ADMITTED, Some(req)), Ok(()));
    assert_eq!(
        get_site(&registry, ADMITTED, Some(query("example", now))),
        Ok(GetSiteResponse { address: text("10.0.0.1") })
    );
}

#[test]
fn operations_at_the_present_reject_old_timestamps() {
    let mut registry = Registry::new();
    let alice = registration("alice", &signing_key(1), NOW);
    assert_eq!(register(&mut registry, ADMITTED, Some(alice)), Err(RegistryError::BadRequest));
    let req = write(&signing_key(1), "alice", "example", "10.0.0.1", 2_000_000_000, NOW);
    assert_eq!(set_site(&mut registry, ADMITTED, Some(req)), Err(RegistryError::BadRequest));
    assert_eq!(
        get_site(&registry, ADMITTED, Some(query("example", NOW))),
        Err(RegistryError::BadRequest)
    );
}

#[test]
fn operations_at_the_present_check_the_gate_first() {
    let mut registry = Registry::new();
    let now = current_timestamp().unwrap();
    let alice = registration("alice", &signing_key(1), now);
    assert_eq!(register(&mut registry, UNADMITTED, Some(alice)), Err(RegistryError::BadRequest));
    assert_eq!(register(&mut registry, ADMITTED, None), Err(RegistryError::BadRequest));
    assert_eq!(set_site(&mut registry, UNADMITTED, None), Err(RegistryError::BadRequest));
    assert_eq!(get_site(&registry, UNADMITTED, None), Err(RegistryError::BadRequest));
    assert_eq!(registry.identities.lookup(&text("alice")), None);
}
