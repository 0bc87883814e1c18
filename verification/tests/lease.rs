//! Session leases and their table.

use vivid_protocol::auth::{self, Secret32};
use vivid_protocol::cbor::Value;
use vivido::contract::ResourceContract;
use vivido::identity::{PresenterInstanceId, SessionIdentity};
use vivido::lease::{
    profile_fingerprint, CleanupPolicy, Lease, LeaseKey, LeaseState, LeaseTable,
    SessionLeaseDefinition,
};

fn definition(lease_id: u64, secret: &[u8; 32]) -> SessionLeaseDefinition {
    SessionLeaseDefinition {
        context_id: 1,
        lease_id,
        activation_verifier: auth::activation_verifier(lease_id, &Secret32::new(*secret)),
        activation_timeout_us: 20_000_000,
        requested_disconnect_grace_us: 10_000_000,
        cleanup_policy: CleanupPolicy::SuspendOnUncleanLoss,
        permitted_profiles: vec!["vivid-core-control-v1".into()],
        requested_contract: ResourceContract::denied(),
    }
}

fn secret(byte: u8) -> [u8; 32] {
    [byte; 32]
}

fn session(id: u64) -> SessionIdentity {
    SessionIdentity::new(PresenterInstanceId([9; 16]), id).unwrap()
}

fn lease(lease_id: u64, secret: &[u8; 32]) -> Lease {
    Lease::new(definition(lease_id, secret), ResourceContract::denied(), 0, 0)
}

fn key(issuer: u64, context_id: u64, lease_id: u64) -> LeaseKey {
    LeaseKey { issuer: session(issuer), context_id, lease_id }
}

#[test]
fn a_lease_accepts_only_its_own_secret() {
    let entry = lease(4, &secret(0xa1));
    assert!(entry.accepts(4, &secret(0xa1)));
    assert!(!entry.accepts(4, &secret(0xa2)), "a different secret must not match");
    assert!(!entry.accepts(5, &secret(0xa1)), "the lease ID is bound into the verifier");
}

#[test]
fn two_sessions_reusing_lease_numbers_stay_separate() {
    // The complete identity is the key, and the secret disambiguates an activation that names
    // only (context, lease).
    let mut table = LeaseTable::new();
    let first = secret(0x11);
    let second = secret(0x22);
    table.insert(key(1, 1, 7), lease(7, &first));
    table.insert(key(2, 1, 7), lease(7, &second));

    assert_eq!(table.find_activation(1, 7, &first), Some(key(1, 1, 7)));
    assert_eq!(table.find_activation(1, 7, &second), Some(key(2, 1, 7)));
    assert_eq!(table.find_activation(1, 7, &secret(0x33)), None);
}

#[test]
fn parent_cleanup_selects_only_the_issuing_session() {
    let mut table = LeaseTable::new();
    table.insert(key(1, 1, 7), lease(7, &secret(0x11)));
    table.insert(key(1, 2, 8), lease(8, &secret(0x12)));
    table.insert(key(2, 1, 7), lease(7, &secret(0x22)));

    let mut issued = table.issued_by(session(1));
    issued.sort_by_key(|key| (key.context_id, key.lease_id));
    assert_eq!(issued, vec![key(1, 1, 7), key(1, 2, 8)]);
    assert_eq!(table.issued_by(session(3)), Vec::new());
}

#[test]
fn an_unactivated_lease_expires_at_its_activation_deadline() {
    let now = 7_000_000;
    let mut definition = definition(3, &secret(0x44));
    definition.activation_timeout_us = 1;
    let entry = Lease::new(definition, ResourceContract::denied(), 0, now);
    assert!(!entry.expired(now));
    assert!(entry.expired(now + 1_000));
}

#[test]
fn a_ready_payload_carries_no_secret() {
    let entry = lease(4, &secret(0xa1));
    let payload = entry.ready_payload(1, 4);
    for (_, value) in &payload {
        if let Value::Bytes(bytes) = value {
            panic!("SESSION_LEASE_READY carried {} bytes of opaque data", bytes.len());
        }
    }
    assert_eq!(payload[2].1.as_u64(), Some(LeaseState::Issued.code()));
}

#[test]
fn the_profile_fingerprint_distinguishes_a_changed_offer() {
    let accepted = vec!["a".to_owned(), "b".to_owned()];
    let baseline = profile_fingerprint("t", &accepted);
    assert_eq!(baseline, profile_fingerprint("t", &accepted));
    assert_ne!(baseline, profile_fingerprint("u", &accepted));
    assert_ne!(baseline, profile_fingerprint("t", &vec!["a".to_owned()]));
    // Length-prefixed, so concatenation cannot alias.
    assert_ne!(baseline, profile_fingerprint("t", &vec!["ab".to_owned()]));
}

#[test]
fn a_fingerprint_is_the_digest_of_the_framed_names() {
    // "t", then its list of one name "ab": each name behind its length.
    assert_ne!(
        profile_fingerprint("t", &vec!["ab".to_owned()]),
        profile_fingerprint("ta", &vec!["b".to_owned()])
    );
    assert_ne!(profile_fingerprint("", &Vec::new()), [0; 32]);
}

#[test]
fn a_suspended_lease_expires_with_its_grace() {
    let mut table = LeaseTable::new();
    table.insert(key(1, 1, 7), lease(7, &secret(0x11)));
    assert_eq!(table.next_deadline(session(1)), Some(20_000_000));
    assert_eq!(table.next_deadline(session(2)), None);
    assert!(table.expired(19_999_999).is_empty());
    assert_eq!(table.expired(20_000_000), vec![key(1, 1, 7)]);
}

#[test]
fn a_revoked_lease_never_activates_again() {
    let mut entry = lease(7, &secret(0x11));
    assert_eq!(entry.resume_generation(), 0);
    assert!(!entry.suspended());
    entry.revoke();
    let payload = entry.changed_payload(1, 7, 16, 5);
    let state = payload.iter().find(|entry| entry.0 == 2).and_then(|entry| entry.1.as_u64());
    assert_eq!(state, Some(LeaseState::Revoked.code()));
}

#[test]
fn a_removed_lease_leaves_the_others() {
    let mut table = LeaseTable::new();
    table.insert(key(1, 1, 7), lease(7, &secret(0x11)));
    table.insert(key(2, 1, 7), lease(7, &secret(0x22)));
    assert!(table.remove(&key(1, 1, 7)).is_some());
    assert!(table.remove(&key(1, 1, 7)).is_none());
    assert_eq!(table.len(), 1);
    assert!(table.contains(&key(2, 1, 7)));
}

#[test]
fn lease_states_carry_the_codes_of_the_protocol() {
    let own = [
        LeaseState::Issued,
        LeaseState::Reserved,
        LeaseState::Active,
        LeaseState::Suspended,
        LeaseState::Closed,
        LeaseState::Revoked,
        LeaseState::Expired,
    ];
    let wire = [
        vivid_protocol::lease::LeaseState::Issued,
        vivid_protocol::lease::LeaseState::Reserved,
        vivid_protocol::lease::LeaseState::Active,
        vivid_protocol::lease::LeaseState::Suspended,
        vivid_protocol::lease::LeaseState::Closed,
        vivid_protocol::lease::LeaseState::Revoked,
        vivid_protocol::lease::LeaseState::Expired,
    ];
    for (own, wire) in own.into_iter().zip(wire) {
        assert_eq!(own.code(), wire as u64);
    }
}
