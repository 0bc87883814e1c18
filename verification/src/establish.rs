//! Opening a session: who is greeting, what they get, and what they are told.
//!
//! A root session proves that it knows the window's secret. A leased session proves that it knows a
//! secret that a controller made up, and that the presenter only ever saw a verifier of. A resumed
//! session proves that it knows the resume key of the session that was lost.

use vstd::prelude::*;
use vivid_protocol::auth::HandshakePrk;
use vivid_protocol::cbor::Value;
use vivid_protocol::messages::Hello;

use crate::actor::Egress;
use crate::bucket::{bucket_view, full_markers, MarkerAdmission};
use crate::context::{context_view, fresh_context, Contexts};
use crate::contract::{
    clamp_contract_for_web, is_presenter_contract, presenter_contract, web_clamped, Resource,
    ResourceContract,
};
use crate::identity::{PresenterInstanceId, SessionIdentity};
use crate::input::{active_grant, new_grant};
use crate::lease::{
    activated, activates, committed, lease_used, profile_fingerprint, resume_answer, resumes,
    AttemptRequest, Decision, Lease, LeaseKey, REASON_RESUMED,
};
use crate::number::{sum, unsigned_64};
use crate::observe::{fresh_queue, new_queue, queue_view};
use crate::profile::{
    accepts_profile, all_supported, is_accepted, names, negotiate, profile_set_valid, supports_all,
    the_accepted_profiles_are_determined, SessionRefusal,
};
use crate::protocol::{
    ERROR_AUTH_FAILED, ERROR_LIMIT_EXCEEDED, SESSION_LEASE_CHANGED, WEB_CARRIER,
};
use crate::registry::{
    a_root_greeting_is_taken_once, admits_nonce, childless, nonces_after, numbers_after, told,
    Registry, MAX_SESSIONS, ROOT_NONCE_LIFETIME_US,
};
use crate::reply::copy_bytes;
use crate::text::{encode_hex, hex};
use crate::session::{has_profile, includes, Session};
use crate::value::{clone_payload, payload_view, ValueView};

verus! {

/// The largest body of a control record.
pub const CONTROL_MAX_RECORD_BODY: u32 = 1_048_576;

/// The largest body of a control record that a browser carries.
pub const WEB_MAX_CONTROL_RECORD_BODY: u32 = 262_144;

/// The session proved that it knows the window's secret.
pub const AUTHENTICATION_ROOT: u64 = 0;

/// The session proved that it knows a lease's secret.
pub const AUTHENTICATION_LEASE_ACTIVATION: u64 = 1;

/// The session proved that it knows a resume key.
pub const AUTHENTICATION_RESUME: u64 = 2;

/// The number of every session's first context.
pub const ROOT_CONTEXT_ID: u64 = 1;

/// How a greeting authenticates.
#[derive(Debug, Clone, Copy, PartialEq, Eq)]
pub enum HelloProof {
    Root { proof: [u8; 32] },
    LeaseActivation {
        context_id: u64,
        lease_id: u64,
        activation_secret: [u8; 32],
        attempt_id: [u8; 16],
    },
    Resume {
        context_id: u64,
        lease_id: u64,
        session_id: u64,
        resume_generation: u64,
        attempt_id: [u8; 16],
        proof: [u8; 32],
    },
}

/// A greeting, as far as a session is opened by it.
pub struct Greeting {
    pub request_id: u64,
    pub required_profiles: Vec<String>,
    pub optional_profiles: Vec<String>,
    pub maximum_control_body: u32,
    pub client_nonce: [u8; 32],
    pub authentication: HelloProof,
    pub target_profile: String,
    /// The bytes that the greeting's proof covers.
    pub authless: Vec<u8>,
}

/// A greeting, held by the protocol's own type.
#[verifier::external_type_specification]
#[verifier::external_body]
pub struct ExHello(vivid_protocol::messages::Hello);

/// What a greeting holds.
pub struct HelloView {
    pub required_profiles: Seq<Seq<char>>,
    pub optional_profiles: Seq<Seq<char>>,
    pub maximum_control_body: u32,
    pub client_nonce: Seq<u8>,
    pub authentication: HelloProof,
    pub target_profile: Seq<char>,
    pub authless: Option<Seq<u8>>,
}

/// What the protocol's greeting holds.
pub uninterp spec fn hello_view(hello: Hello) -> HelloView;

/// The greeting that a body is, with its request, if it is one.
pub uninterp spec fn hello_decoded(body: Seq<u8>) -> Option<(u64, HelloView)>;

/// `vivid_protocol::messages::Hello::decode`: the greeting depends on the body alone.
#[verifier::external_body]
fn decode_hello(body: &[u8]) -> (r: Option<(u64, Hello)>)
    ensures
        match r {
            Some((request_id, hello)) => hello_decoded(body@) == Some((request_id, hello_view(hello))),
            None => hello_decoded(body@) is None,
        },
{
    Hello::decode(body).ok()
}

/// `vivid_protocol::messages::Hello::authless_payload`: the bytes that the proof of a greeting
/// covers.
#[verifier::external_body]
fn authless_payload(hello: &Hello) -> (r: Option<Vec<u8>>)
    ensures
        match r {
            Some(bytes) => hello_view(*hello).authless == Some(bytes@),
            None => hello_view(*hello).authless is None,
        },
{
    hello.authless_payload().ok()
}

/// The public field `vivid_protocol::messages::Hello::authentication`, moved over.
#[verifier::external_body]
fn hello_proof(hello: &Hello) -> (r: HelloProof)
    ensures
        r == hello_view(*hello).authentication,
{
    match &hello.authentication {
        vivid_protocol::messages::HelloAuthentication::Root { proof } => HelloProof::Root { proof: *proof },
        vivid_protocol::messages::HelloAuthentication::LeaseActivation { context_id, lease_id, activation_secret, attempt_id, .. } => HelloProof::LeaseActivation {
            context_id: *context_id, lease_id: *lease_id, activation_secret: *activation_secret.expose(), attempt_id: *attempt_id,
        },
        vivid_protocol::messages::HelloAuthentication::Resume { context_id, lease_id, session_id, resume_generation, attempt_id, proof } => HelloProof::Resume {
            context_id: *context_id, lease_id: *lease_id, session_id: *session_id,
            resume_generation: *resume_generation, attempt_id: *attempt_id, proof: *proof,
        },
    }
}

/// The other public fields of `vivid_protocol::messages::Hello` that a session is opened by: the
/// profiles, the target, the largest body and the nonce.
#[verifier::external_body]
fn hello_wishes(hello: &Hello) -> (r: (Vec<String>, Vec<String>, String, u32, [u8; 32]))
    ensures
        names(r.0@) == hello_view(*hello).required_profiles,
        names(r.1@) == hello_view(*hello).optional_profiles,
        r.2@ == hello_view(*hello).target_profile,
        r.3 == hello_view(*hello).maximum_control_body,
        r.4@ == hello_view(*hello).client_nonce,
{
    let required = hello.required_profiles.clone();
    let optional = hello.optional_profiles.clone();
    (required, optional, hello.target_profile.clone(), hello.maximum_control_body, hello.client_nonce)
}

impl Greeting {
    /// What the greeting holds.
    pub open spec fn content(&self) -> HelloView {
        HelloView {
            required_profiles: names(self.required_profiles@),
            optional_profiles: names(self.optional_profiles@),
            maximum_control_body: self.maximum_control_body,
            client_nonce: self.client_nonce@,
            authentication: self.authentication,
            target_profile: self.target_profile@,
            authless: Some(self.authless@),
        }
    }

    /// Read a greeting.
    pub fn read(body: &[u8]) -> (r: Option<Self>)
        ensures
            match r {
                Some(greeting) => hello_decoded(body@) == Some(
                    (greeting.request_id, greeting.content()),
                ),
                None => hello_decoded(body@) matches Some((_, hello)) ==> hello.authless is None,
            },
    {
        let (request_id, hello) = match decode_hello(body) {
            Some(decoded) => decoded,
            None => {
                return None;
            },
        };
        let authless = match authless_payload(&hello) {
            Some(bytes) => bytes,
            None => {
                return None;
            },
        };
        let (required_profiles, optional_profiles, target_profile, maximum_control_body, client_nonce) =
            hello_wishes(&hello);
        Some(
            Greeting {
                request_id,
                required_profiles,
                optional_profiles,
                maximum_control_body,
                client_nonce,
                authentication: hello_proof(&hello),
                target_profile,
                authless,
            },
        )
    }
}

/// The proof of a root greeting.
pub uninterp spec fn root_proof_of(secret: Seq<u8>, preface: Seq<u8>, authless: Seq<u8>) -> Seq<u8>;

/// `vivid_protocol::auth::verify_root_hello_proof`: whether a proof is the one that the secret, the
/// connection's preface and the greeting give.
#[verifier::external_body]
fn verify_root(secret: &[u8; 32], preface: &[u8; 16], authless: &[u8], proof: &[u8; 32]) -> (r: bool)
    ensures
        r == (root_proof_of(secret@, preface@, authless@) == proof@),
{
    let secret = vivid_protocol::auth::Secret32::new(*secret);
    vivid_protocol::auth::verify_root_hello_proof(&secret, preface, authless, proof)
}

/// What the proof of a resume covers.
pub struct ResumeClaim {
    pub lease_id: u64,
    pub session_id: u64,
    pub resume_generation: u64,
    pub attempt_id: Seq<u8>,
}

/// The proof of a resume.
pub uninterp spec fn resume_proof_of(
    resume_key: Seq<u8>,
    preface: Seq<u8>,
    claim: ResumeClaim,
    authless: Seq<u8>,
) -> Seq<u8>;

/// `vivid_protocol::auth::resume_hello_proof`: the proof depends on the key, the connection's
/// preface, the lease, the session, the generation, the attempt and the greeting.
#[verifier::external_body]
fn expected_resume_proof(
    resume_key: &[u8; 32],
    preface: &[u8; 16],
    lease_id: u64,
    session_id: u64,
    resume_generation: u64,
    attempt_id: &[u8; 16],
    authless: &[u8],
) -> (r: [u8; 32])
    ensures
        r@ == resume_proof_of(
            resume_key@,
            preface@,
            ResumeClaim { lease_id, session_id, resume_generation, attempt_id: attempt_id@ },
            authless@,
        ),
{
    vivid_protocol::auth::resume_hello_proof(resume_key, preface, lease_id, session_id, resume_generation, attempt_id, authless)
}

/// `vivid_protocol::auth::verify_proof`: whether two proofs are equal.
#[verifier::external_body]
fn verify_proof(expected: &[u8; 32], supplied: &[u8; 32]) -> (r: bool)
    ensures
        r == (expected@ == supplied@),
{
    vivid_protocol::auth::verify_proof(expected, supplied)
}

/// Who a greeting turned out to be from.
#[derive(Debug, Clone, Copy, PartialEq, Eq)]
pub enum Principal {
    /// Somebody who knows the window's secret.
    Root,
    /// Somebody who knows a lease's secret.
    Lease { key: LeaseKey, secret: [u8; 32], attempt_id: [u8; 16] },
    /// Somebody who knows the resume key of the session that a lease lost.
    Resume {
        key: LeaseKey,
        prior_resume_key: [u8; 32],
        attempt_id: [u8; 16],
        session_id: u64,
        resume_generation: u64,
    },
}

/// Whether a lease may be resumed by this claim and proof.
pub open spec fn resume_proved(
    lease: Lease,
    preface: Seq<u8>,
    claim: ResumeClaim,
    authless: Seq<u8>,
    proof: Seq<u8>,
) -> bool {
    lease.resumable_generation() == claim.resume_generation && (lease.resume_key matches Some(prior)
        && resume_proof_of(prior@, preface, claim, authless) == proof)
}

/// What becomes of a greeting's proof. A root greeting that opened a session is not taken again while
/// it is remembered. Why a greeting fails is not told apart, beyond what it claimed to be.
pub open spec fn authenticated(
    registry: Registry,
    root_secret: Seq<u8>,
    preface: Seq<u8>,
    greeting: Greeting,
    now_us: u64,
    outcome: Result<Principal, SessionRefusal>,
) -> bool {
    match greeting.authentication {
        HelloProof::Root { proof } => {
            let proved = root_proof_of(root_secret, preface, greeting.authless@) == proof@;
            let fresh = admits_nonce(registry.root_nonces.entries@, greeting.client_nonce, now_us);
            match outcome {
                Ok(principal) => proved && fresh && principal is Root,
                Err(refusal) => !(proved && fresh) && refusal.code == Some(ERROR_AUTH_FAILED)
                    && refusal.message@ == "root authentication failed"@,
            }
        },
        HelloProof::LeaseActivation { context_id, lease_id, activation_secret, attempt_id } => {
            match outcome {
                Ok(principal) => exists|key: LeaseKey| #[trigger]
                    registry.leases@.contains_key(key) && activates(
                        key,
                        registry.leases@[key],
                        context_id,
                        lease_id,
                        activation_secret@,
                    ) && principal == (Principal::Lease {
                        key,
                        secret: activation_secret,
                        attempt_id,
                    }),
                Err(refusal) => refusal.code == Some(ERROR_AUTH_FAILED) && refusal.message@
                    == "lease activation failed"@ && forall|key: LeaseKey| #[trigger]
                    registry.leases@.contains_key(key) ==> !activates(
                        key,
                        registry.leases@[key],
                        context_id,
                        lease_id,
                        activation_secret@,
                    ),
            }
        },
        HelloProof::Resume {
            context_id,
            lease_id,
            session_id,
            resume_generation,
            attempt_id,
            proof,
        } => {
            let claim = ResumeClaim {
                lease_id,
                session_id,
                resume_generation,
                attempt_id: attempt_id@,
            };
            match outcome {
                Ok(principal) => exists|key: LeaseKey| #[trigger]
                    registry.leases@.contains_key(key) && resumes(
                        key,
                        registry.leases@[key],
                        context_id,
                        lease_id,
                        session_id,
                    ) && resume_proved(
                        registry.leases@[key],
                        preface,
                        claim,
                        greeting.authless@,
                        proof@,
                    ) && principal == (Principal::Resume {
                        key,
                        prior_resume_key: registry.leases@[key].resume_key.unwrap(),
                        attempt_id,
                        session_id,
                        resume_generation,
                    }),
                Err(refusal) => refusal.code == Some(ERROR_AUTH_FAILED) && refusal.message@
                    == "resume failed"@ && ((forall|key: LeaseKey| #[trigger]
                    registry.leases@.contains_key(key) ==> !resumes(
                        key,
                        registry.leases@[key],
                        context_id,
                        lease_id,
                        session_id,
                    )) || (exists|key: LeaseKey| #[trigger]
                    registry.leases@.contains_key(key) && resumes(
                        key,
                        registry.leases@[key],
                        context_id,
                        lease_id,
                        session_id,
                    ) && !resume_proved(
                        registry.leases@[key],
                        preface,
                        claim,
                        greeting.authless@,
                        proof@,
                    ))),
            }
        },
    }
}

fn failed(message: &'static str) -> (r: SessionRefusal)
    ensures
        r.code == Some(ERROR_AUTH_FAILED),
        r.message@ == message@,
{
    SessionRefusal { code: Some(ERROR_AUTH_FAILED), message }
}

/// Find out who a greeting is from.
pub fn authenticate(
    registry: &Registry,
    root_secret: &[u8; 32],
    preface: &[u8; 16],
    greeting: &Greeting,
    now_us: u64,
) -> (r: Result<Principal, SessionRefusal>)
    requires
        registry.wf(),
    ensures
        authenticated(*registry, root_secret@, preface@, *greeting, now_us, r),
{
    match &greeting.authentication {
        HelloProof::Root { proof } => {
            if !verify_root(root_secret, preface, greeting.authless.as_slice(), proof) {
                return Err(failed("root authentication failed"));
            }
            if !registry.root_nonces.admits(&greeting.client_nonce, now_us) {
                return Err(failed("root authentication failed"));
            }
            Ok(Principal::Root)
        },
        HelloProof::LeaseActivation { context_id, lease_id, activation_secret, attempt_id } => {
            match registry.leases.find_activation(*context_id, *lease_id, activation_secret) {
                Some(key) => Ok(
                    Principal::Lease { key, secret: *activation_secret, attempt_id: *attempt_id },
                ),
                None => Err(failed("lease activation failed")),
            }
        },
        HelloProof::Resume {
            context_id,
            lease_id,
            session_id,
            resume_generation,
            attempt_id,
            proof,
        } => {
            let key = match registry.leases.find_resume(*context_id, *lease_id, *session_id) {
                Some(key) => key,
                None => {
                    return Err(failed("resume failed"));
                },
            };
            let lease = match registry.leases.leases.get(&key) {
                Some(lease) => lease,
                None => {
                    return Err(failed("resume failed"));
                },
            };
            assert(registry.leases@.contains_key(key));
            if lease.resume_generation() != *resume_generation {
                return Err(failed("resume failed"));
            }
            let prior = match lease.resume_key {
                Some(prior) => prior,
                None => {
                    return Err(failed("resume failed"));
                },
            };
            let expected = expected_resume_proof(
                &prior,
                preface,
                *lease_id,
                *session_id,
                *resume_generation,
                attempt_id,
                greeting.authless.as_slice(),
            );
            if !verify_proof(&expected, proof) {
                return Err(failed("resume failed"));
            }
            Ok(
                Principal::Resume {
                    key,
                    prior_resume_key: prior,
                    attempt_id: *attempt_id,
                    session_id: *session_id,
                    resume_generation: *resume_generation,
                },
            )
        },
    }
}

/// What a window presents.
pub struct Target {
    pub profile: String,
    pub generation: u64,
    pub descriptor: Vec<(u64, Value)>,
    pub supported_profiles: Vec<String>,
    /// What a root session may do.
    pub root_operation_classes: u64,
}

/// On what terms a session runs.
pub struct Terms {
    /// The secret that the session's keys come from.
    pub secret: [u8; 32],
    pub contract: ResourceContract,
    pub classes: u64,
    /// How the session authenticated.
    pub kind: u64,
}

/// A contract for the carrier of a session.
pub open spec fn carried(values: Seq<u64>, web: bool) -> Seq<u64> {
    if web {
        web_clamped(values)
    } else {
        values
    }
}

/// Whether these are the terms of a root session, or of the lease that a session runs under.
pub open spec fn are_terms(
    terms: Terms,
    registry: Registry,
    root_secret: [u8; 32],
    target: Target,
    principal: Principal,
    web: bool,
) -> bool {
    match principal {
        Principal::Root => {
            &&& terms.secret == root_secret
            &&& exists|values: Seq<u64>| #[trigger]
                is_presenter_contract(values) && values.len() == 33 && terms.contract.values@
                    == carried(values, web)
            &&& terms.classes == target.root_operation_classes
            &&& terms.kind == AUTHENTICATION_ROOT
        },
        Principal::Lease { key, secret, .. } => {
            &&& registry.leases@.contains_key(key)
            &&& all_supported(
                registry.leases@[key].definition.permitted_profiles@,
                target.supported_profiles@,
            )
            &&& terms.secret == secret
            &&& terms.contract.values@ == carried(registry.leases@[key].contract.values@, web)
            &&& terms.classes == registry.leases@[key].classes
            &&& terms.kind == AUTHENTICATION_LEASE_ACTIVATION
        },
        Principal::Resume { key, prior_resume_key, .. } => {
            &&& registry.leases@.contains_key(key)
            &&& terms.secret == prior_resume_key
            &&& terms.contract.values@ == carried(registry.leases@[key].contract.values@, web)
            &&& terms.classes == registry.leases@[key].classes
            &&& terms.kind == AUTHENTICATION_RESUME
        },
    }
}

/// Why a session gets no terms, if it gets none.
pub open spec fn terms_refusal(
    registry: Registry,
    target: Target,
    principal: Principal,
    refusal: SessionRefusal,
) -> bool {
    match principal {
        Principal::Root => false,
        Principal::Lease { key, .. } => if registry.leases@.contains_key(key) {
            !all_supported(
                registry.leases@[key].definition.permitted_profiles@,
                target.supported_profiles@,
            ) && refusal.code == Some(ERROR_AUTH_FAILED) && refusal.message@
                == "lease permits a profile this target does not implement"@
        } else {
            refusal.code is None && refusal.message@ == "lease disappeared during activation"@
        },
        Principal::Resume { key, .. } => !registry.leases@.contains_key(key) && refusal.code is None
            && refusal.message@ == "lease disappeared during resume"@,
    }
}

/// The terms of a session.
pub fn terms_of(
    registry: &Registry,
    root_secret: &[u8; 32],
    target: &Target,
    principal: &Principal,
    web: bool,
) -> (r: Result<Terms, SessionRefusal>)
    requires
        registry.wf(),
    ensures
        match r {
            Ok(terms) => are_terms(terms, *registry, *root_secret, *target, *principal, web),
            Err(refusal) => terms_refusal(*registry, *target, *principal, refusal),
        },
{
    let mut terms = match principal {
        Principal::Root => Terms {
            secret: *root_secret,
            contract: presenter_contract(),
            classes: target.root_operation_classes,
            kind: AUTHENTICATION_ROOT,
        },
        Principal::Lease { key, secret, .. } => match registry.leases.leases.get(key) {
            Some(lease) => {
                if !supports_all(&lease.definition.permitted_profiles, &target.supported_profiles) {
                    return Err(failed("lease permits a profile this target does not implement"));
                }
                Terms {
                    secret: *secret,
                    contract: lease.contract,
                    classes: lease.classes,
                    kind: AUTHENTICATION_LEASE_ACTIVATION,
                }
            },
            None => {
                return Err(
                    SessionRefusal { code: None, message: "lease disappeared during activation" },
                );
            },
        },
        Principal::Resume { key, prior_resume_key, .. } => match registry.leases.leases.get(key) {
            Some(lease) => Terms {
                secret: *prior_resume_key,
                contract: lease.contract,
                classes: lease.classes,
                kind: AUTHENTICATION_RESUME,
            },
            None => {
                return Err(SessionRefusal { code: None, message: "lease disappeared during resume" });
            },
        },
    };
    let ghost values = terms.contract.values@;
    if web {
        clamp_contract_for_web(&mut terms.contract);
    }
    assert(principal is Root ==> is_presenter_contract(values) && terms.contract.values@ == carried(
        values,
        web,
    ));
    Ok(terms)
}

/// The key of a handshake, held by the protocol's own type.
#[verifier::external_type_specification]
#[verifier::external_body]
pub struct ExHandshakePrk(vivid_protocol::auth::HandshakePrk);

/// The bytes of the key of a handshake.
pub uninterp spec fn prk_bytes(prk: HandshakePrk) -> Seq<u8>;

/// The key of a handshake with these secrets.
pub uninterp spec fn handshake_key(
    secret: Seq<u8>,
    client_nonce: Seq<u8>,
    server_nonce: Seq<u8>,
    carrier_key: Seq<u8>,
) -> Seq<u8>;

/// `vivid_protocol::auth::extract_handshake_prk`: the key depends on the secret, the two nonces and
/// the carrier's key.
#[verifier::external_body]
fn extract_prk(
    secret: &[u8; 32],
    client_nonce: &[u8; 32],
    server_nonce: &[u8; 32],
    carrier_key: &[u8; 32],
) -> (r: HandshakePrk)
    ensures
        prk_bytes(r) == handshake_key(secret@, client_nonce@, server_nonce@, carrier_key@),
{
    let secret = vivid_protocol::auth::Secret32::new(*secret);
    vivid_protocol::auth::extract_handshake_prk(&secret, client_nonce, server_nonce, carrier_key)
}

/// The keys of a session.
#[derive(Clone, Copy)]
pub struct DerivedKeys {
    pub channel: [u8; 32],
    pub resume: [u8; 32],
    pub anchor: [u8; 32],
}

/// The bytes of the keys of a session.
pub struct KeysView {
    pub channel: Seq<u8>,
    pub resume: Seq<u8>,
    pub anchor: Seq<u8>,
}

/// The keys that a handshake gives a session.
pub uninterp spec fn derived_keys(
    prk: Seq<u8>,
    session_id: u64,
    resume_generation: u64,
    session_tag: Seq<u8>,
) -> KeysView;

/// `vivid_protocol::auth::derive_session_keys`: the keys depend on the handshake's key, the session,
/// the generation and the tag.
#[verifier::external_body]
fn derive_keys(prk: &HandshakePrk, session_id: u64, resume_generation: u64, session_tag: &[u8; 16]) -> (r:
    DerivedKeys)
    ensures
        (KeysView { channel: r.channel@, resume: r.resume@, anchor: r.anchor@ }) == derived_keys(
            prk_bytes(*prk),
            session_id,
            resume_generation,
            session_tag@,
        ),
{
    let (keys, anchor) = vivid_protocol::auth::derive_session_keys(prk, session_id, resume_generation, session_tag);
    DerivedKeys { channel: *keys.channel_key(), resume: *keys.resume_key(), anchor: *anchor.as_bytes() }
}

/// What a new session is told.
pub struct WelcomeOffer {
    pub session_id: u64,
    pub session_tag: [u8; 16],
    pub root_context_id: u64,
    pub target_generation: u64,
    pub target_profile: String,
    pub target_descriptor: Vec<(u64, Value)>,
    pub accepted_profiles: Vec<String>,
    pub maximum_control_body: u32,
    pub server_nonce: [u8; 32],
    pub kind: u64,
    pub lease_state: u64,
    pub attempt_status: u64,
    pub session_revision: u64,
    pub scene_revision: u64,
    pub contract: ResourceContract,
    pub establishment_state: u64,
    pub resume_generation: u64,
}

/// What a welcome holds.
pub struct WelcomeView {
    pub session_id: u64,
    pub session_tag: Seq<u8>,
    pub root_context_id: u64,
    pub target_generation: u64,
    pub target_profile: Seq<char>,
    pub target_descriptor: Seq<(u64, ValueView)>,
    pub accepted_profiles: Seq<Seq<char>>,
    pub maximum_control_body: u32,
    pub server_nonce: Seq<u8>,
    pub kind: u64,
    pub lease_state: u64,
    pub attempt_status: u64,
    pub session_revision: u64,
    pub scene_revision: u64,
    pub contract: Seq<u64>,
    pub establishment_state: u64,
    pub resume_generation: u64,
}

impl View for WelcomeOffer {
    type V = WelcomeView;

    open spec fn view(&self) -> WelcomeView {
        WelcomeView {
            session_id: self.session_id,
            session_tag: self.session_tag@,
            root_context_id: self.root_context_id,
            target_generation: self.target_generation,
            target_profile: self.target_profile@,
            target_descriptor: payload_view(self.target_descriptor@),
            accepted_profiles: names(self.accepted_profiles@),
            maximum_control_body: self.maximum_control_body,
            server_nonce: self.server_nonce@,
            kind: self.kind,
            lease_state: self.lease_state,
            attempt_status: self.attempt_status,
            session_revision: self.session_revision,
            scene_revision: self.scene_revision,
            contract: self.contract.values@,
            establishment_state: self.establishment_state,
            resume_generation: self.resume_generation,
        }
    }
}

/// The bytes of a welcome that is confirmed with the key of the handshake, where the codec accepts
/// them.
pub uninterp spec fn welcome_bytes(request_id: u64, welcome: WelcomeView, prk: Seq<u8>) -> Option<Seq<u8>>;

/// `vivid_protocol::messages::Welcome::confirm` and `encode`: the bytes depend on the request, the
/// fields and the key of the handshake.
#[verifier::external_body]
fn encode_welcome(request_id: u64, offer: &WelcomeOffer, prk: &HandshakePrk) -> (r: Option<Vec<u8>>)
    ensures
        match r {
            Some(body) => welcome_bytes(request_id, offer@, prk_bytes(*prk)) == Some(body@),
            None => welcome_bytes(request_id, offer@, prk_bytes(*prk)) is None,
        },
{
    let authentication = vivid_protocol::messages::WelcomeAuthentication {
        kind: offer.kind, confirmation: [0; 32], lease_state: offer.lease_state, activation_attempt_status: offer.attempt_status };
    let mut welcome = vivid_protocol::messages::Welcome {
        session_id: offer.session_id, session_tag: offer.session_tag, root_context_id: offer.root_context_id,
        target_generation: offer.target_generation, target_profile: offer.target_profile.clone(),
        target_descriptor: offer.target_descriptor.clone(), accepted_profiles: offer.accepted_profiles.clone(),
        maximum_control_body: offer.maximum_control_body, server_nonce: offer.server_nonce, authentication,
        session_revision: offer.session_revision, scene_revision: offer.scene_revision,
        resource_contract: vivid_protocol::resource::ResourceContract::new(offer.contract.values),
        establishment_state: offer.establishment_state, resume_generation: offer.resume_generation, extensions: Vec::new(),
    };
    welcome.confirm(prk).ok()?;
    welcome.encode(request_id).ok()
}

/// The tag in the bytes of a welcome, if they are one.
pub uninterp spec fn welcome_tag(body: Seq<u8>) -> Option<[u8; 16]>;

/// `vivid_protocol::messages::Welcome::decode`: the tag depends on the body alone.
#[verifier::external_body]
fn session_tag_of(body: &[u8]) -> (r: Option<[u8; 16]>)
    ensures
        r == welcome_tag(body@),
{
    let (_, welcome) = vivid_protocol::messages::Welcome::decode(body).ok()?;
    Some(welcome.session_tag)
}

/// The largest control body of a session.
pub open spec fn control_ceiling(wanted: u32, web: bool) -> u32 {
    let most = if web {
        WEB_MAX_CONTROL_RECORD_BODY
    } else {
        CONTROL_MAX_RECORD_BODY
    };
    if wanted <= most {
        wanted
    } else {
        most
    }
}

/// What a session is offered.
pub open spec fn offer_of(
    greeting: Greeting,
    target: Target,
    accepted: Seq<Seq<char>>,
    principal: Principal,
    terms: Terms,
    session_id: u64,
    server_nonce: Seq<u8>,
    session_tag: Seq<u8>,
    web: bool,
) -> WelcomeView {
    WelcomeView {
        session_id,
        session_tag,
        root_context_id: ROOT_CONTEXT_ID,
        target_generation: target.generation,
        target_profile: target.profile@,
        target_descriptor: payload_view(target.descriptor@),
        accepted_profiles: accepted,
        maximum_control_body: control_ceiling(greeting.maximum_control_body, web),
        server_nonce,
        kind: terms.kind,
        lease_state: match principal {
            Principal::Root => 0,
            _ => 3,
        },
        attempt_status: 0,
        session_revision: 1,
        scene_revision: 0,
        contract: terms.contract.values@,
        establishment_state: match principal {
            Principal::Resume { .. } => 1,
            _ => 0,
        },
        resume_generation: match principal {
            Principal::Resume { resume_generation, .. } => unsigned_64(resume_generation + 1),
            _ => 0,
        },
    }
}

fn clone_names(profiles: &Vec<String>) -> (r: Vec<String>)
    ensures
        names(r@) == names(profiles@),
{
    let mut copy: Vec<String> = Vec::new();
    let mut index: usize = 0;
    while index < profiles.len()
        invariant
            index <= profiles@.len(),
            copy@.len() == index,
            forall|i: int| 0 <= i < index ==> (#[trigger] copy@[i])@ == profiles@[i]@,
        decreases profiles@.len() - index,
    {
        copy.push(profiles[index].clone());
        index = index + 1;
    }
    assert(names(copy@) =~= names(profiles@));
    copy
}

/// The random values of one greeting.
#[derive(Clone, Copy)]
pub struct Entropy {
    pub server_nonce: [u8; 32],
    pub session_tag: [u8; 16],
}

/// `getrandom::fill`: bytes from the system, which may be anything, where it has any.
#[verifier::external_body]
fn random_bytes<const N: usize>() -> (r: Option<[u8; N]>) {
    let mut bytes = [0; N];
    getrandom::fill(&mut bytes).ok()?;
    Some(bytes)
}

/// What a presenter is known by, and the secret that its window's programs greet it with.
#[derive(Clone)]
pub struct PresenterRoot {
    pub presenter: PresenterInstanceId,
    pub secret: [u8; 32],
    /// The secret as programs are given it.
    pub secret_text: String,
}

impl PresenterRoot {
    /// The root that these bytes make. The secret is handed out as its hexadecimal text.
    pub fn of(presenter: [u8; 16], secret: [u8; 32]) -> (r: Self)
        ensures
            r.presenter == PresenterInstanceId(presenter),
            r.secret == secret,
            r.secret_text@ == hex(secret@),
    {
        let secret_text = encode_hex(&secret);
        PresenterRoot { presenter: PresenterInstanceId(presenter), secret, secret_text }
    }
}

/// Draw the root of a new presenter, where the system has random bytes. The secret is handed out as
/// its hexadecimal text.
pub fn draw_root() -> (r: Option<PresenterRoot>)
    ensures
        r matches Some(root) ==> root.secret_text@ == hex(root.secret@),
{
    let secret = match random_bytes::<32>() {
        Some(secret) => secret,
        None => {
            return None;
        },
    };
    let presenter = match random_bytes::<16>() {
        Some(presenter) => presenter,
        None => {
            return None;
        },
    };
    Some(PresenterRoot::of(presenter, secret))
}

/// The welcome that a session is offered.
pub open spec fn candidate(
    greeting: Greeting,
    target: Target,
    accepted: Seq<Seq<char>>,
    principal: Principal,
    terms: Terms,
    session_id: u64,
    entropy: Entropy,
    web: bool,
) -> Option<Seq<u8>> {
    welcome_bytes(
        greeting.request_id,
        offer_of(
            greeting,
            target,
            accepted,
            principal,
            terms,
            session_id,
            entropy.server_nonce@,
            entropy.session_tag@,
            web,
        ),
        handshake_key(
            terms.secret@,
            greeting.client_nonce@,
            entropy.server_nonce@,
            Seq::new(32, |i: int| 0u8),
        ),
    )
}

/// Whether a welcome is no larger than its reader takes.
pub open spec fn readable(welcome: Option<Seq<u8>>, greeting: Greeting) -> bool {
    welcome matches Some(body) && body.len() <= greeting.maximum_control_body
}

/// The welcome that a session is offered. One that is larger than its producer reads is not sent.
pub fn offer_welcome(
    greeting: &Greeting,
    target: &Target,
    accepted: &Vec<String>,
    principal: &Principal,
    terms: &Terms,
    session_id: u64,
    entropy: &Entropy,
    web: bool,
) -> (r: Option<Vec<u8>>)
    ensures
        ({
            let welcome = candidate(
                *greeting,
                *target,
                names(accepted@),
                *principal,
                *terms,
                session_id,
                *entropy,
                web,
            );
            match r {
                Some(body) => welcome == Some(body@) && readable(welcome, *greeting),
                None => !readable(welcome, *greeting),
            }
        }),
{
    let carrier_key = [0u8; 32];
    assert(carrier_key@ =~= Seq::new(32, |i: int| 0u8));
    let prk = extract_prk(
        &terms.secret,
        &greeting.client_nonce,
        &entropy.server_nonce,
        &carrier_key,
    );
    let most = if web {
        WEB_MAX_CONTROL_RECORD_BODY
    } else {
        CONTROL_MAX_RECORD_BODY
    };
    let maximum_control_body = if greeting.maximum_control_body <= most {
        greeting.maximum_control_body
    } else {
        most
    };
    let lease_state: u64 = match principal {
        Principal::Root => 0,
        _ => 3,
    };
    let (establishment_state, resume_generation): (u64, u64) = match principal {
        Principal::Resume { resume_generation, .. } => (1, sum(*resume_generation, 1)),
        _ => (0, 0),
    };
    let offer = WelcomeOffer {
        session_id,
        session_tag: entropy.session_tag,
        root_context_id: ROOT_CONTEXT_ID,
        target_generation: target.generation,
        target_profile: target.profile.clone(),
        target_descriptor: clone_payload(&target.descriptor),
        accepted_profiles: clone_names(accepted),
        maximum_control_body,
        server_nonce: entropy.server_nonce,
        kind: terms.kind,
        lease_state,
        attempt_status: 0,
        session_revision: 1,
        scene_revision: 0,
        contract: terms.contract,
        establishment_state,
        resume_generation,
    };
    match encode_welcome(greeting.request_id, &offer, &prk) {
        Some(body) => if body.len() as u64 <= greeting.maximum_control_body as u64 {
            Some(body)
        } else {
            None
        },
        None => None,
    }
}

/// What is decided on an attempt, and what it makes of the registry: a root session is what it was
/// offered, and the lease of any other session decides.
pub open spec fn decided(
    before: Registry,
    after: Registry,
    presenter: PresenterInstanceId,
    principal: Principal,
    request: AttemptRequest,
    outcome: Option<Decision>,
    generation: u64,
) -> bool {
    match principal {
        Principal::Root => after == before && generation == 0 && (outcome matches Some(decision)
            && decision@ == crate::lease::fresh_decision(request)),
        Principal::Lease { key, .. } => if before.leases@.contains_key(key) {
            let earlier = before.leases@[key];
            let (machine, decision) = activated(earlier.state(), request);
            &&& generation == 0
            &&& match outcome {
                Some(given) => decision == Some(given@),
                None => decision is None,
            }
            &&& lease_changed(before, after, key, |lease: Lease| {
                &&& lease.state() == (if decision is Some {
                    committed(machine)
                } else {
                    machine
                })
                &&& lease == (Lease {
                    machine: lease.machine,
                    child: match decision {
                        Some(given) => Some(
                            SessionIdentity { presenter, session_id: given.session_id },
                        ),
                        None => earlier.child,
                    },
                    ..earlier
                })
            })
        } else {
            outcome is None && after == before
        },
        Principal::Resume { key, resume_generation, .. } => if before.leases@.contains_key(key) {
            let earlier = before.leases@[key];
            let (machine, decision) = resume_answer(earlier.state(), resume_generation, request);
            &&& match outcome {
                Some(given) => decision == Some(given@) && generation == committed(
                    machine,
                ).resume_generation,
                None => decision is None,
            }
            &&& lease_changed(before, after, key, |lease: Lease| {
                &&& lease.state() == (if decision is Some {
                    committed(machine)
                } else {
                    machine
                })
                &&& lease == (Lease {
                    machine: lease.machine,
                    grace_deadline_us: if decision is Some {
                        None
                    } else {
                        earlier.grace_deadline_us
                    },
                    resuming: if decision is Some {
                        Some(resume_generation)
                    } else {
                        earlier.resuming
                    },
                    ..earlier
                })
            })
        } else {
            outcome is None && after == before
        },
    }
}

/// Whether only one lease changed, to one that satisfies a condition.
pub open spec fn lease_changed(
    before: Registry,
    after: Registry,
    key: LeaseKey,
    condition: spec_fn(Lease) -> bool,
) -> bool {
    &&& after == (Registry { leases: after.leases, ..before })
    &&& after.leases@.contains_key(key)
    &&& after.leases@ == before.leases@.insert(key, after.leases@[key])
    &&& condition(after.leases@[key])
}

/// Decide on an attempt.
fn decide(
    registry: &mut Registry,
    presenter: PresenterInstanceId,
    principal: &Principal,
    request: AttemptRequest,
) -> (r: (Option<Decision>, u64))
    requires
        old(registry).wf(),
        !old(registry).numbers.repeating@ && principal is Lease ==> childless(
            old(registry).leases@,
            request.session_id,
        ) && (old(registry).numbers.next == 0 || request.session_id < old(registry).numbers.next),
    ensures
        final(registry).wf(),
        decided(*old(registry), *final(registry), presenter, *principal, request, r.0, r.1),
{
    match principal {
        Principal::Root => (
            Some(
                Decision {
                    session_id: request.session_id,
                    server_nonce: request.server_nonce,
                    welcome: request.welcome,
                },
            ),
            0,
        ),
        Principal::Lease { key, .. } => match registry.leases.get_mut(key) {
            Some(lease) => {
                let decision = lease.activate(&request);
                if let Some(given) = &decision {
                    lease.child = Some(SessionIdentity { presenter, session_id: given.session_id });
                }
                (decision, 0)
            },
            None => (None, 0),
        },
        Principal::Resume { key, resume_generation, .. } => match registry.leases.get_mut(key) {
            Some(lease) => {
                let decision = lease.resume(*resume_generation, &request);
                (decision, lease.current_generation())
            },
            None => (None, 0),
        },
    }
}

/// The lease that a session runs under.
pub open spec fn lease_of(principal: Principal) -> Option<LeaseKey> {
    match principal {
        Principal::Root => None,
        Principal::Lease { key, .. } => Some(key),
        Principal::Resume { key, .. } => Some(key),
    }
}

/// The tag that a session's markers carry: the one in its welcome.
pub open spec fn tag_given(decision: Decision, entropy: Entropy) -> [u8; 16] {
    match welcome_tag(decision.welcome@) {
        Some(tag) => tag,
        None => entropy.session_tag,
    }
}

/// Whether a session is the one that was decided on. A repeated attempt gets the nonce and the tag
/// of the first one, and so the same keys.
pub open spec fn is_session(
    session: Session,
    presenter: PresenterInstanceId,
    principal: Principal,
    terms: Terms,
    accepted: Seq<String>,
    client_nonce: Seq<u8>,
    entropy: Entropy,
    decision: Decision,
    generation: u64,
    now_us: u64,
) -> bool {
    let keys = derived_keys(
        handshake_key(
            terms.secret@,
            client_nonce,
            decision.server_nonce@,
            Seq::new(32, |i: int| 0u8),
        ),
        decision.session_id,
        generation,
        tag_given(decision, entropy)@,
    );
    &&& session.wf()
    &&& session.identity == (SessionIdentity { presenter, session_id: decision.session_id })
    &&& session.root_context_id == ROOT_CONTEXT_ID
    &&& session.session_tag == tag_given(decision, entropy)
    &&& session.channel_key@ == keys.channel
    &&& session.resume_key@ == keys.resume
    &&& session.anchor_key@ == keys.anchor
    &&& session.accepted_profiles@ == accepted
    &&& session.lease == lease_of(principal)
    &&& session.contexts.table@.dom() == set![ROOT_CONTEXT_ID]
    &&& session.contexts.table@[ROOT_CONTEXT_ID].parent is None
    &&& context_view(session.contexts.table@[ROOT_CONTEXT_ID].state) == fresh_context(
        ROOT_CONTEXT_ID,
        terms.classes,
        terms.contract.values@,
    )
    &&& session.egress matches Some(queue) && queue.records@.len() == 0 && !queue.closed
        && !queue.overflowed && queue.shutdown is None && queue.stop is None
    &&& session.seen_anchors@.len() == 0
    &&& session.lane is None
    &&& session.lane_egress is None
    &&& active_grant(session.grant) is None
    &&& queue_view(session.observations) == fresh_queue(
        terms.contract.ceiling(Resource::ObservationQueueEntries),
    )
    &&& bucket_view(session.markers.bucket) == full_markers()
    &&& session.markers.replenished_us == now_us
    &&& session.markers.admitted == 0
}

/// The session that was decided on.
fn session_of(
    presenter: PresenterInstanceId,
    principal: &Principal,
    terms: &Terms,
    accepted: Vec<String>,
    client_nonce: &[u8; 32],
    entropy: &Entropy,
    decision: &Decision,
    generation: u64,
    now_us: u64,
) -> (r: Option<Session>)
    ensures
        r is Some <==> decision.session_id != 0 && terms.classes <= 127,
        r matches Some(session) ==> is_session(
            session,
            presenter,
            *principal,
            *terms,
            accepted@,
            client_nonce@,
            *entropy,
            *decision,
            generation,
            now_us,
        ),
{
    let carrier_key = [0u8; 32];
    assert(carrier_key@ =~= Seq::new(32, |i: int| 0u8));
    let prk = extract_prk(&terms.secret, client_nonce, &decision.server_nonce, &carrier_key);
    let session_tag = match session_tag_of(decision.welcome.as_slice()) {
        Some(tag) => tag,
        None => entropy.session_tag,
    };
    let keys = derive_keys(&prk, decision.session_id, generation, &session_tag);
    let identity = match SessionIdentity::new(presenter, decision.session_id) {
        Ok(identity) => identity,
        Err(_) => {
            return None;
        },
    };
    let contexts = match Contexts::root(identity, ROOT_CONTEXT_ID, terms.classes, &terms.contract) {
        Some(contexts) => contexts,
        None => {
            return None;
        },
    };
    let lease = match principal {
        Principal::Root => None,
        Principal::Lease { key, .. } => Some(*key),
        Principal::Resume { key, .. } => Some(*key),
    };
    Some(
        Session {
            identity,
            root_context_id: ROOT_CONTEXT_ID,
            session_tag,
            channel_key: keys.channel,
            anchor_key: keys.anchor,
            accepted_profiles: accepted,
            egress: Some(Egress::detached()),
            contexts,
            seen_anchors: Vec::new(),
            lease,
            resume_key: keys.resume,
            lane: None,
            lane_egress: None,
            grant: new_grant(),
            observations: new_queue(terms.contract.get(Resource::ObservationQueueEntries)),
            markers: MarkerAdmission::new(now_us),
        },
    )
}

/// A session that is about to be told that it is welcome.
pub struct Established {
    pub session: Session,
    pub welcome: Vec<u8>,
    /// The largest body that either side of the control connection sends from now on.
    pub maximum_control_body: u32,
}

/// Whether a request is the attempt that a greeting makes.
pub open spec fn is_attempt(
    request: AttemptRequest,
    greeting: Greeting,
    principal: Principal,
    target: Target,
    accepted: Seq<String>,
    session_id: u64,
    entropy: Entropy,
    welcome: Seq<u8>,
) -> bool {
    &&& request.attempt_id@ == (match principal {
        Principal::Root => Seq::new(16, |i: int| 0u8),
        Principal::Lease { attempt_id, .. } => attempt_id@,
        Principal::Resume { attempt_id, .. } => attempt_id@,
    })
    &&& request.client_nonce == greeting.client_nonce
    &&& request.hello@ == greeting.authless@
    &&& request.fingerprint@ == crate::digest::sha256_of(
        crate::lease::fingerprint_input(
            vstd::utf8::encode_utf8(target.profile@),
            crate::lease::texts_bytes(accepted),
        ),
    )
    &&& request.session_id == session_id
    &&& request.server_nonce == entropy.server_nonce
    &&& request.welcome@ == welcome
}

/// The number that a session asks for: its own where it resumes, else a new one.
pub open spec fn wanted_session(principal: Principal, fresh_id: u64) -> u64 {
    match principal {
        Principal::Resume { session_id, .. } => session_id,
        _ => fresh_id,
    }
}

/// Whether a request is the attempt that a greeting makes on these terms, with a welcome that its
/// producer can read.
pub open spec fn makes_attempt(
    request: AttemptRequest,
    greeting: Greeting,
    principal: Principal,
    target: Target,
    accepted: Seq<String>,
    terms: Terms,
    session_id: u64,
    entropy: Entropy,
    web: bool,
) -> bool {
    let welcome = candidate(
        greeting,
        target,
        names(accepted),
        principal,
        terms,
        session_id,
        entropy,
        web,
    );
    readable(welcome, greeting) && is_attempt(
        request,
        greeting,
        principal,
        target,
        accepted,
        session_id,
        entropy,
        welcome.unwrap(),
    )
}

/// A registry that has given out its next number.
pub open spec fn number_drawn(registry: Registry) -> Registry {
    Registry { numbers: numbers_after(registry.numbers), ..registry }
}

/// Whether the greeting of a session that was granted is remembered, where it was a root greeting.
pub open spec fn greeting_noted(
    before: Registry,
    after: Registry,
    principal: Principal,
    greeting: Greeting,
    now_us: u64,
) -> bool {
    match principal {
        Principal::Root => {
            &&& after == (Registry { root_nonces: after.root_nonces, ..before })
            &&& after.root_nonces.entries@ == nonces_after(
                before.root_nonces.entries@,
                greeting.client_nonce,
                now_us,
            )
        },
        _ => after == before,
    }
}

/// Why a session whose producer is known and whose profiles are agreed on is not opened, if it is
/// not: there are too many sessions, the numbers have run out, the lease gives no terms, the welcome
/// is too large, or the lease refuses the attempt.
pub open spec fn opening_refused(
    before: Registry,
    after: Registry,
    presenter: PresenterInstanceId,
    root_secret: [u8; 32],
    target: Target,
    greeting: Greeting,
    principal: Principal,
    accepted: Seq<String>,
    entropy: Entropy,
    refusal: SessionRefusal,
) -> bool {
    let web = has_profile(accepted, WEB_CARRIER@);
    let session_id = wanted_session(principal, before.numbers.next);
    let drawn = number_drawn(before);
    if before.sessions.entries@.len() >= MAX_SESSIONS {
        after == before && refusal.code == Some(ERROR_LIMIT_EXCEEDED) && refusal.message@
            == "session capacity is exhausted"@
    } else if before.numbers.next == 0 {
        after == drawn && refusal.code is None && refusal.message@ == "session ID exhausted"@
    } else {
        ||| after == drawn && terms_refusal(before, target, principal, refusal)
        ||| after == drawn && refusal.code is None && refusal.message@
            == "the producer cannot read its welcome"@ && exists|terms: Terms| #[trigger]
            are_terms(terms, before, root_secret, target, principal, web) && !readable(
                candidate(
                    greeting,
                    target,
                    names(accepted),
                    principal,
                    terms,
                    session_id,
                    entropy,
                    web,
                ),
                greeting,
            )
        ||| refusal.code is None && refusal.message@ == "the attempt was refused"@
            && exists|terms: Terms, request: AttemptRequest, generation: u64|
            #[trigger] are_terms(terms, before, root_secret, target, principal, web)
                && #[trigger] decided(
                drawn,
                after,
                presenter,
                principal,
                request,
                None,
                generation,
            ) && makes_attempt(
                request,
                greeting,
                principal,
                target,
                accepted,
                terms,
                session_id,
                entropy,
                web,
            )
        ||| refusal.code is None && refusal.message@ == "the session has no contexts"@
            && exists|terms: Terms, request: AttemptRequest, decision: Decision, generation: u64|
            #[trigger] are_terms(terms, before, root_secret, target, principal, web)
                && #[trigger] decided(
                drawn,
                after,
                presenter,
                principal,
                request,
                Some(decision),
                generation,
            ) && makes_attempt(
                request,
                greeting,
                principal,
                target,
                accepted,
                terms,
                session_id,
                entropy,
                web,
            ) && (decision.session_id == 0 || terms.classes > 127)
    }
}

/// Whether a session whose producer is known and whose profiles are agreed on is opened, and how.
pub open spec fn opening_granted(
    before: Registry,
    after: Registry,
    presenter: PresenterInstanceId,
    root_secret: [u8; 32],
    target: Target,
    greeting: Greeting,
    principal: Principal,
    accepted: Seq<String>,
    entropy: Entropy,
    now_us: u64,
    established: Established,
) -> bool {
    let web = has_profile(accepted, WEB_CARRIER@);
    let session_id = wanted_session(principal, before.numbers.next);
    &&& before.sessions.entries@.len() < MAX_SESSIONS
    &&& before.numbers.next != 0
    &&& established.maximum_control_body == control_ceiling(greeting.maximum_control_body, web)
    &&& exists|
        terms: Terms,
        request: AttemptRequest,
        decision: Decision,
        generation: u64,
        middle: Registry,
    |
        #[trigger] are_terms(terms, before, root_secret, target, principal, web)
            && #[trigger] decided(
            number_drawn(before),
            middle,
            presenter,
            principal,
            request,
            Some(decision),
            generation,
        ) && makes_attempt(
            request,
            greeting,
            principal,
            target,
            accepted,
            terms,
            session_id,
            entropy,
            web,
        ) && greeting_noted(middle, after, principal, greeting, now_us) && decision.session_id != 0 && terms.classes <= 127 && established.welcome@
            == decision.welcome@ && is_session(
            established.session,
            presenter,
            principal,
            terms,
            accepted,
            greeting.client_nonce@,
            entropy,
            decision,
            generation,
            now_us,
        )
}

/// Open a session whose producer is known and whose profiles are agreed on.
pub fn open_session(
    registry: &mut Registry,
    presenter: PresenterInstanceId,
    root_secret: &[u8; 32],
    target: &Target,
    greeting: &Greeting,
    principal: &Principal,
    accepted: Vec<String>,
    entropy: &Entropy,
    now_us: u64,
) -> (r: Result<Established, SessionRefusal>)
    requires
        old(registry).wf(),
    ensures
        final(registry).wf(),
        match r {
            Ok(established) => opening_granted(
                *old(registry),
                *final(registry),
                presenter,
                *root_secret,
                *target,
                *greeting,
                *principal,
                accepted@,
                *entropy,
                now_us,
                established,
            ),
            Err(refusal) => opening_refused(
                *old(registry),
                *final(registry),
                presenter,
                *root_secret,
                *target,
                *greeting,
                *principal,
                accepted@,
                *entropy,
                refusal,
            ),
        },
{
    if registry.sessions.len() >= MAX_SESSIONS {
        return Err(
            SessionRefusal {
                code: Some(ERROR_LIMIT_EXCEEDED),
                message: "session capacity is exhausted",
            },
        );
    }
    let ghost start = *registry;
    let fresh_id = registry.numbers.draw();
    if fresh_id == 0 {
        return Err(SessionRefusal { code: None, message: "session ID exhausted" });
    }
    let session_id = match principal {
        Principal::Resume { session_id, .. } => *session_id,
        _ => fresh_id,
    };
    let web = includes(&accepted, WEB_CARRIER);
    let terms = match terms_of(registry, root_secret, target, principal, web) {
        Ok(terms) => terms,
        Err(refusal) => {
            return Err(refusal);
        },
    };
    let ghost before = *registry;
    assert(before == number_drawn(start));
    assert(are_terms(terms, start, *root_secret, *target, *principal, web));
    let welcome = match offer_welcome(
        greeting,
        target,
        &accepted,
        principal,
        &terms,
        session_id,
        entropy,
        web,
    ) {
        Some(welcome) => welcome,
        None => {
            return Err(SessionRefusal { code: None, message: "the producer cannot read its welcome" });
        },
    };
    let ghost offered = welcome@;
    let attempt_id = match principal {
        Principal::Root => [0u8; 16],
        Principal::Lease { attempt_id, .. } => *attempt_id,
        Principal::Resume { attempt_id, .. } => *attempt_id,
    };
    let request = AttemptRequest {
        attempt_id,
        client_nonce: greeting.client_nonce,
        hello: copy_bytes(&greeting.authless),
        fingerprint: profile_fingerprint(target.profile.as_str(), &accepted),
        session_id,
        server_nonce: entropy.server_nonce,
        welcome,
    };
    proof {
        if principal is Root {
            assert(request.attempt_id@ =~= Seq::new(16, |i: int| 0u8));
        }
        assert(makes_attempt(
            request,
            *greeting,
            *principal,
            *target,
            accepted@,
            terms,
            session_id,
            *entropy,
            web,
        ));
    }
    let ghost asked = request;
    let (outcome, generation) = decide(registry, presenter, principal, request);
    assert(decided(before, *registry, presenter, *principal, asked, outcome, generation));
    let ghost middle = *registry;
    let decision = match outcome {
        Some(decision) => decision,
        None => {
            return Err(SessionRefusal { code: None, message: "the attempt was refused" });
        },
    };
    let most = if web {
        WEB_MAX_CONTROL_RECORD_BODY
    } else {
        CONTROL_MAX_RECORD_BODY
    };
    let maximum_control_body = if greeting.maximum_control_body <= most {
        greeting.maximum_control_body
    } else {
        most
    };
    match session_of(
        presenter,
        principal,
        &terms,
        accepted,
        &greeting.client_nonce,
        entropy,
        &decision,
        generation,
        now_us,
    ) {
        Some(session) => {
            if let Principal::Root = principal {
                registry.root_nonces.enter(greeting.client_nonce, now_us);
            }
            assert(greeting_noted(middle, *registry, *principal, *greeting, now_us));
            Ok(Established { session, welcome: decision.welcome, maximum_control_body })
        },
        None => Err(SessionRefusal { code: None, message: "the session has no contexts" }),
    }
}

/// Whether a greeting opened a session: its proof holds, its profiles are agreed on, and the session
/// is granted.
pub open spec fn greeted(
    before: Registry,
    after: Registry,
    presenter: PresenterInstanceId,
    root_secret: [u8; 32],
    preface: [u8; 16],
    target: Target,
    greeting: Greeting,
    entropy: Entropy,
    now_us: u64,
    established: Established,
) -> bool {
    exists|principal: Principal, accepted: Seq<String>| #[trigger]
        authenticated(before, root_secret@, preface@, greeting, now_us, Ok(principal)) && agreed(
            target,
            greeting,
            accepted,
        ) && #[trigger] opening_granted(
            before,
            after,
            presenter,
            root_secret,
            target,
            greeting,
            principal,
            accepted,
            entropy,
            now_us,
            established,
        )
}

/// Whether these are the profiles that a greeting and a window agree on.
pub open spec fn agreed(target: Target, greeting: Greeting, accepted: Seq<String>) -> bool {
    &&& greeting.target_profile@ == target.profile@
    &&& all_supported(greeting.required_profiles@, target.supported_profiles@)
    &&& is_accepted(
        accepted,
        greeting.required_profiles@,
        greeting.optional_profiles@,
        target.supported_profiles@,
    )
    &&& profile_set_valid(names(accepted))
}

/// Whether a greeting was turned away: its proof does not hold, its profiles are not agreed on, or
/// the session is not granted.
pub open spec fn turned_away(
    before: Registry,
    after: Registry,
    presenter: PresenterInstanceId,
    root_secret: [u8; 32],
    preface: [u8; 16],
    target: Target,
    greeting: Greeting,
    entropy: Entropy,
    now_us: u64,
    refusal: SessionRefusal,
) -> bool {
    ||| after == before && authenticated(
        before,
        root_secret@,
        preface@,
        greeting,
        now_us,
        Err(refusal),
    )
    ||| after == before && (exists|principal: Principal| #[trigger]
        authenticated(before, root_secret@, preface@, greeting, now_us, Ok(principal)))
        && crate::profile::negotiation_refused(
        target.profile@,
        target.supported_profiles@,
        greeting.target_profile@,
        greeting.required_profiles@,
        greeting.optional_profiles@,
        refusal,
    )
    ||| exists|principal: Principal, accepted: Seq<String>| #[trigger]
        authenticated(before, root_secret@, preface@, greeting, now_us, Ok(principal)) && agreed(
            target,
            greeting,
            accepted,
        ) && #[trigger] opening_refused(
            before,
            after,
            presenter,
            root_secret,
            target,
            greeting,
            principal,
            accepted,
            entropy,
            refusal,
        )
}

/// Whether a greeting is let in, before anything is drawn for its session: its proof holds, its
/// profiles are agreed on, and there is room and a number for another session.
pub open spec fn let_in(
    registry: Registry,
    root_secret: [u8; 32],
    preface: [u8; 16],
    target: Target,
    greeting: Greeting,
    now_us: u64,
    principal: Principal,
    accepted: Seq<String>,
) -> bool {
    &&& authenticated(registry, root_secret@, preface@, greeting, now_us, Ok(principal))
    &&& agreed(target, greeting, accepted)
    &&& registry.sessions.entries@.len() < MAX_SESSIONS
    &&& registry.numbers.next != 0
}

/// Whether a greeting is not let in, and why.
pub open spec fn barred(
    before: Registry,
    after: Registry,
    root_secret: [u8; 32],
    preface: [u8; 16],
    target: Target,
    greeting: Greeting,
    now_us: u64,
    refusal: SessionRefusal,
) -> bool {
    ||| after == before && authenticated(
        before,
        root_secret@,
        preface@,
        greeting,
        now_us,
        Err(refusal),
    )
    ||| after == before && (exists|principal: Principal| #[trigger]
        authenticated(before, root_secret@, preface@, greeting, now_us, Ok(principal)))
        && crate::profile::negotiation_refused(
        target.profile@,
        target.supported_profiles@,
        greeting.target_profile@,
        greeting.required_profiles@,
        greeting.optional_profiles@,
        refusal,
    )
    ||| (exists|principal: Principal, accepted: Seq<String>| #[trigger]
        authenticated(before, root_secret@, preface@, greeting, now_us, Ok(principal))
            && #[trigger] agreed(target, greeting, accepted)) && if before.sessions.entries@.len()
        >= MAX_SESSIONS {
        after == before && refusal.code == Some(ERROR_LIMIT_EXCEEDED) && refusal.message@
            == "session capacity is exhausted"@
    } else {
        before.numbers.next == 0 && after == number_drawn(before) && refusal.code is None
            && refusal.message@ == "session ID exhausted"@
    }
}

/// Decide whether a greeting is let in.
pub fn examine(
    registry: &mut Registry,
    root_secret: &[u8; 32],
    preface: &[u8; 16],
    target: &Target,
    greeting: &Greeting,
    now_us: u64,
) -> (r: Result<(Principal, Vec<String>), SessionRefusal>)
    requires
        old(registry).wf(),
    ensures
        final(registry).wf(),
        match r {
            Ok((principal, accepted)) => *final(registry) == *old(registry) && let_in(
                *old(registry),
                *root_secret,
                *preface,
                *target,
                *greeting,
                now_us,
                principal,
                accepted@,
            ),
            Err(refusal) => barred(
                *old(registry),
                *final(registry),
                *root_secret,
                *preface,
                *target,
                *greeting,
                now_us,
                refusal,
            ),
        },
{
    let ghost before = *registry;
    let principal = match authenticate(registry, root_secret, preface, greeting, now_us) {
        Ok(principal) => principal,
        Err(refusal) => {
            return Err(refusal);
        },
    };
    assert(authenticated(
        before,
        root_secret@,
        preface@,
        *greeting,
        now_us,
        Ok(principal),
    ));
    let accepted = match negotiate(
        target.profile.as_str(),
        &target.supported_profiles,
        greeting.target_profile.as_str(),
        &greeting.required_profiles,
        &greeting.optional_profiles,
    ) {
        Ok(accepted) => accepted,
        Err(refusal) => {
            return Err(refusal);
        },
    };
    assert(agreed(*target, *greeting, accepted@));
    if registry.sessions.len() >= MAX_SESSIONS {
        return Err(
            SessionRefusal {
                code: Some(ERROR_LIMIT_EXCEEDED),
                message: "session capacity is exhausted",
            },
        );
    }
    if registry.numbers.next == 0 {
        registry.numbers.draw();
        return Err(SessionRefusal { code: None, message: "session ID exhausted" });
    }
    Ok((principal, accepted))
}

/// A greeting that is not let in is turned away, whatever would have been drawn for it.
proof fn lemma_barred_is_turned_away(
    before: Registry,
    after: Registry,
    presenter: PresenterInstanceId,
    root_secret: [u8; 32],
    preface: [u8; 16],
    target: Target,
    greeting: Greeting,
    entropy: Entropy,
    now_us: u64,
    refusal: SessionRefusal,
)
    requires
        barred(
            before,
            after,
            root_secret,
            preface,
            target,
            greeting,
            now_us,
            refusal,
        ),
    ensures
        turned_away(
            before,
            after,
            presenter,
            root_secret,
            preface,
            target,
            greeting,
            entropy,
            now_us,
            refusal,
        ),
{
    if exists|principal: Principal, accepted: Seq<String>| #[trigger]
        authenticated(before, root_secret@, preface@, greeting, now_us, Ok(principal))
            && #[trigger] agreed(target, greeting, accepted) {
        let (principal, accepted) = choose|principal: Principal, accepted: Seq<String>| #[trigger]
            authenticated(before, root_secret@, preface@, greeting, now_us, Ok(principal))
                && #[trigger] agreed(target, greeting, accepted);
        if before.sessions.entries@.len() >= MAX_SESSIONS && after == before && refusal.code == Some(
            ERROR_LIMIT_EXCEEDED,
        ) && refusal.message@ == "session capacity is exhausted"@
            || before.sessions.entries@.len() < MAX_SESSIONS && before.numbers.next == 0 && after
            == number_drawn(before) && refusal.code is None && refusal.message@
            == "session ID exhausted"@ {
            assert(opening_refused(
                before,
                after,
                presenter,
                root_secret,
                target,
                greeting,
                principal,
                accepted,
                entropy,
                refusal,
            ));
        }
    }
}

/// Open a session by a greeting.
pub fn establish_root_session(
    registry: &mut Registry,
    presenter: PresenterInstanceId,
    root_secret: &[u8; 32],
    preface: &[u8; 16],
    target: &Target,
    greeting: &Greeting,
    entropy: &Entropy,
    now_us: u64,
) -> (r: Result<Established, SessionRefusal>)
    requires
        old(registry).wf(),
    ensures
        final(registry).wf(),
        match r {
            Ok(established) => greeted(
                *old(registry),
                *final(registry),
                presenter,
                *root_secret,
                *preface,
                *target,
                *greeting,
                *entropy,
                now_us,
                established,
            ),
            Err(refusal) => turned_away(
                *old(registry),
                *final(registry),
                presenter,
                *root_secret,
                *preface,
                *target,
                *greeting,
                *entropy,
                now_us,
                refusal,
            ),
        },
{
    let ghost before = *registry;
    let (principal, accepted) = match examine(
        registry,
        root_secret,
        preface,
        target,
        greeting,
        now_us,
    ) {
        Ok(admitted) => admitted,
        Err(refusal) => {
            proof {
                lemma_barred_is_turned_away(
                    before,
                    *registry,
                    presenter,
                    *root_secret,
                    *preface,
                    *target,
                    *greeting,
                    *entropy,
                    now_us,
                    refusal,
                );
            }
            return Err(refusal);
        },
    };
    assert(authenticated(
        before,
        root_secret@,
        preface@,
        *greeting,
        now_us,
        Ok(principal),
    ));
    open_session(
        registry,
        presenter,
        root_secret,
        target,
        greeting,
        &principal,
        accepted,
        entropy,
        now_us,
    )
}

/// Whether a session is published: both of its names lead to it, and the issuer of a lease that
/// resumed is told.
pub open spec fn published(before: Registry, after: Registry, session: Session, now_us: u64) -> bool {
    let id = session.identity.session_id;
    let sessions = before.sessions@.insert(id, session);
    &&& after.by_tag@ == before.by_tag@.insert(session.session_tag, id)
    &&& after.channel_opens == before.channel_opens
    &&& after.leases == before.leases
    &&& after.root_nonces == before.root_nonces
    &&& after.numbers == before.numbers
    &&& match session.lease {
        Some(key) => if before.leases@.contains_key(key) && before.leases@[key].resuming is Some {
            told(
                sessions,
                after.sessions@,
                key.issuer.session_id,
                SESSION_LEASE_CHANGED,
                key.lease_id,
                before.leases@[key].changed_view(
                    key.context_id,
                    key.lease_id,
                    REASON_RESUMED,
                    now_us,
                ),
            )
        } else {
            after.sessions@ == sessions
        },
        None => after.sessions@ == sessions,
    }
}

/// The welcome was sent: publish the session.
pub fn publish(registry: &mut Registry, session: Session, now_us: u64)
    requires
        old(registry).wf(),
        session.wf(),
    ensures
        final(registry).wf(),
        published(*old(registry), *final(registry), session, now_us),
{
    let lease = session.lease;
    registry.insert_session(session);
    if let Some(key) = lease {
        let payload = match registry.leases.leases.get(&key) {
            Some(lease) => if lease.resuming.is_some() {
                Some(lease.changed_payload(key.context_id, key.lease_id, REASON_RESUMED, now_us))
            } else {
                None
            },
            None => None,
        };
        if let Some(payload) = payload {
            registry.tell(key.issuer.session_id, SESSION_LEASE_CHANGED, key.lease_id, payload);
        }
    }
}

/// The welcome could not be sent: the lease of the session notes that its transport is gone, so that
/// exactly the same attempt may be made again.
pub fn welcome_failed(registry: &mut Registry, session: &Session, now_us: u64)
    requires
        old(registry).wf(),
    ensures
        final(registry).wf(),
        match session.lease {
            Some(key) => if old(registry).leases@.contains_key(key) {
                let earlier = old(registry).leases@[key];
                lease_changed(*old(registry), *final(registry), key, |lease: Lease|
                    crate::registry::lease_lost(earlier, lease, session.resume_key, now_us))
            } else {
                *final(registry) == *old(registry)
            },
            None => *final(registry) == *old(registry),
        },
{
    if let Some(key) = session.lease {
        if let Some(lease) = registry.leases.get_mut(&key) {
            lease.lost(session.resume_key, now_us);
        }
    }
}

/// Answer a greeting. One that is not let in is told why; for one that is, the system draws random
/// values, and there is no answer where it has none.
pub fn greet(
    registry: &mut Registry,
    root: &PresenterRoot,
    preface: &[u8; 16],
    target: &Target,
    greeting: &Greeting,
    now_us: u64,
) -> (r: Option<Result<Established, SessionRefusal>>)
    requires
        old(registry).wf(),
    ensures
        final(registry).wf(),
        match r {
            None => *final(registry) == number_drawn(*old(registry)) && exists|
                principal: Principal,
                accepted: Seq<String>,
            | #[trigger]
                let_in(
                    *old(registry),
                    root.secret,
                    *preface,
                    *target,
                    *greeting,
                    now_us,
                    principal,
                    accepted,
                ),
            Some(Ok(established)) => exists|entropy: Entropy| #[trigger]
                greeted(
                    *old(registry),
                    *final(registry),
                    root.presenter,
                    root.secret,
                    *preface,
                    *target,
                    *greeting,
                    entropy,
                    now_us,
                    established,
                ),
            Some(Err(refusal)) => exists|entropy: Entropy| #[trigger]
                turned_away(
                    *old(registry),
                    *final(registry),
                    root.presenter,
                    root.secret,
                    *preface,
                    *target,
                    *greeting,
                    entropy,
                    now_us,
                    refusal,
                ),
        },
{
    let ghost before = *registry;
    let (principal, accepted) = match examine(
        registry,
        &root.secret,
        preface,
        target,
        greeting,
        now_us,
    ) {
        Ok(admitted) => admitted,
        Err(refusal) => {
            proof {
                lemma_barred_is_turned_away(
                    before,
                    *registry,
                    root.presenter,
                    root.secret,
                    *preface,
                    *target,
                    *greeting,
                    arbitrary(),
                    now_us,
                    refusal,
                );
            }
            return Some(Err(refusal));
        },
    };
    assert(let_in(
        before,
        root.secret,
        *preface,
        *target,
        *greeting,
        now_us,
        principal,
        accepted@,
    ));
    let server_nonce = match random_bytes::<32>() {
        Some(server_nonce) => server_nonce,
        None => {
            registry.numbers.draw();
            return None;
        },
    };
    let session_tag = match random_bytes::<16>() {
        Some(session_tag) => session_tag,
        None => {
            registry.numbers.draw();
            return None;
        },
    };
    let entropy = Entropy { server_nonce, session_tag };
    let ghost agreed_on = accepted@;
    let outcome = open_session(
        registry,
        root.presenter,
        &root.secret,
        target,
        greeting,
        &principal,
        accepted,
        &entropy,
        now_us,
    );
    assert(authenticated(
        before,
        root.secret@,
        preface@,
        *greeting,
        now_us,
        Ok(principal),
    ) && agreed(*target, *greeting, agreed_on));
    let ghost answered = outcome;
    proof {
        match answered {
            Ok(established) => assert(greeted(
                before,
                *registry,
                root.presenter,
                root.secret,
                *preface,
                *target,
                *greeting,
                entropy,
                now_us,
                established,
            )),
            Err(refusal) => assert(turned_away(
                before,
                *registry,
                root.presenter,
                root.secret,
                *preface,
                *target,
                *greeting,
                entropy,
                now_us,
                refusal,
            )),
        }
    }
    Some(outcome)
}

/// Whether a greeting asks to resume the session of this lease.
pub open spec fn resumes_by(key: LeaseKey, lease: Lease, greeting: Greeting) -> bool {
    match greeting.authentication {
        HelloProof::Resume { context_id, lease_id, session_id, .. } => resumes(
            key,
            lease,
            context_id,
            lease_id,
            session_id,
        ),
        _ => false,
    }
}

/// Who a greeting that resumes a lease is from.
pub open spec fn resuming_principal(greeting: Greeting, key: LeaseKey, lease: Lease) -> Principal {
    match greeting.authentication {
        HelloProof::Resume { session_id, resume_generation, attempt_id, .. } => Principal::Resume {
            key,
            prior_resume_key: lease.resume_key.unwrap(),
            attempt_id,
            session_id,
            resume_generation,
        },
        _ => Principal::Root,
    }
}

/// Whether there is no room or no number for a session, or its producer cannot read the welcome that
/// is drawn for it.
pub open spec fn hindered(
    registry: Registry,
    root_secret: [u8; 32],
    target: Target,
    greeting: Greeting,
    principal: Principal,
    entropy: Entropy,
) -> bool {
    ||| registry.sessions.entries@.len() >= MAX_SESSIONS
    ||| registry.numbers.next == 0
    ||| exists|accepted: Seq<String>, terms: Terms| #[trigger]
        agreed(target, greeting, accepted) && #[trigger] are_terms(
            terms,
            registry,
            root_secret,
            target,
            principal,
            has_profile(accepted, WEB_CARRIER@),
        ) && !readable(
            candidate(
                greeting,
                target,
                names(accepted),
                principal,
                terms,
                wanted_session(principal, registry.numbers.next),
                entropy,
                has_profile(accepted, WEB_CARRIER@),
            ),
            greeting,
        )
}

/// Profiles that are agreed on twice are the same profiles.
proof fn lemma_agreed_once(target: Target, greeting: Greeting, left: Seq<String>, right: Seq<String>)
    requires
        agreed(target, greeting, left),
        is_accepted(
            right,
            greeting.required_profiles@,
            greeting.optional_profiles@,
            target.supported_profiles@,
        ),
    ensures
        names(left) == names(right),
        crate::lease::texts_bytes(left) == crate::lease::texts_bytes(right),
        has_profile(left, WEB_CARRIER@) == has_profile(right, WEB_CARRIER@),
{
    assert forall|name: Seq<char>| #[trigger] has_profile(left, name) <==> has_profile(
        right,
        name,
    ) by {
        assert(has_profile(left, name) <==> accepts_profile(
            greeting.required_profiles@,
            greeting.optional_profiles@,
            target.supported_profiles@,
            name,
        ));
    }
    the_accepted_profiles_are_determined(left, right);
    assert(left.len() == names(left).len() && right.len() == names(right).len());
    assert forall|i: int| 0 <= i < left.len() implies left[i]@ == right[i]@ by {
        assert(names(left)[i] == names(right)[i]);
    }
    assert(crate::lease::texts_bytes(left) =~= crate::lease::texts_bytes(right));
}

/// A resume whose connection is lost before any record may be made again, exactly as it was. The
/// same greeting then gets the same session: its number, its welcome and, where the welcome can be
/// read, its keys. It is turned away only where there is no room or no number for a session, or where
/// the welcome drawn this time cannot be read. This holds until the numbers of sessions come round.
pub proof fn a_lost_resume_is_welcomed_again(
    before: Registry,
    resumed: Registry,
    lost: Registry,
    after: Registry,
    presenter: PresenterInstanceId,
    root_secret: [u8; 32],
    preface: [u8; 16],
    target: Target,
    greeting: Greeting,
    key: LeaseKey,
    first_entropy: Entropy,
    first_us: u64,
    first: Established,
    lost_us: u64,
    second_entropy: Entropy,
    second_us: u64,
    outcome: Result<Established, SessionRefusal>,
)
    requires
        greeting.authentication is Resume,
        greeted(
            before,
            resumed,
            presenter,
            root_secret,
            preface,
            target,
            greeting,
            first_entropy,
            first_us,
            first,
        ),
        first.session.lease == Some(key),
        lost.leases@.contains_key(key),
        crate::registry::lease_lost(
            resumed.leases@[key],
            lost.leases@[key],
            first.session.resume_key,
            lost_us,
        ),
        lost.wf(),
        !lost.numbers.repeating@,
        match outcome {
            Ok(second) => greeted(
                lost,
                after,
                presenter,
                root_secret,
                preface,
                target,
                greeting,
                second_entropy,
                second_us,
                second,
            ),
            Err(refusal) => turned_away(
                lost,
                after,
                presenter,
                root_secret,
                preface,
                target,
                greeting,
                second_entropy,
                second_us,
                refusal,
            ),
        },
    ensures
        match outcome {
            Ok(second) => {
                &&& second.session.identity == first.session.identity
                &&& second.welcome@ == first.welcome@
                &&& welcome_tag(first.welcome@) is Some ==> {
                    &&& second.session.session_tag == first.session.session_tag
                    &&& second.session.channel_key@ == first.session.channel_key@
                    &&& second.session.resume_key@ == first.session.resume_key@
                    &&& second.session.anchor_key@ == first.session.anchor_key@
                }
            },
            Err(_) => hindered(
                lost,
                root_secret,
                target,
                greeting,
                resuming_principal(greeting, key, lost.leases@[key]),
                second_entropy,
            ),
        },
{
    let lease = lost.leases@[key];
    let principal = resuming_principal(greeting, key, lease);
    let (who, accepted) = choose|who: Principal, accepted: Seq<String>|
        #[trigger] authenticated(before, root_secret@, preface@, greeting, first_us, Ok(who))
            && agreed(target, greeting, accepted) && #[trigger] opening_granted(
            before,
            resumed,
            presenter,
            root_secret,
            target,
            greeting,
            who,
            accepted,
            first_entropy,
            first_us,
            first,
        );
    let web = has_profile(accepted, WEB_CARRIER@);
    let (terms, request, decision, generation, middle) = choose|
        terms: Terms,
        request: AttemptRequest,
        decision: Decision,
        generation: u64,
        middle: Registry,
    | #[trigger]
        are_terms(terms, before, root_secret, target, who, web) && #[trigger] decided(
            number_drawn(before),
            middle,
            presenter,
            who,
            request,
            Some(decision),
            generation,
        ) && makes_attempt(
            request,
            greeting,
            who,
            target,
            accepted,
            terms,
            wanted_session(who, before.numbers.next),
            first_entropy,
            web,
        ) && greeting_noted(middle, resumed, who, greeting, first_us) && decision.session_id != 0 && terms.classes <= 127 && first.welcome@
            == decision.welcome@ && is_session(
            first.session,
            presenter,
            who,
            terms,
            accepted,
            greeting.client_nonce@,
            first_entropy,
            decision,
            generation,
            first_us,
        );
    assert(who is Resume);
    assert(lease_of(who) == Some(key));
    assert(before.leases@.contains_key(key));
    assert(who == principal);
    assert(resumes_by(key, lease, greeting));
    assert forall|other: LeaseKey| #[trigger] lost.leases@.contains_key(other) && resumes_by(
        other,
        lost.leases@[other],
        greeting,
    ) implies other == key by {
        assert(lost.leases@.contains_key(key));
    }
    assert forall|refusal: SessionRefusal| !#[trigger] authenticated(
        lost,
        root_secret@,
        preface@,
        greeting,
        second_us,
        Err(refusal),
    ) by {
        if authenticated(lost, root_secret@, preface@, greeting, second_us, Err(refusal)) {
            assert(lost.leases@.contains_key(key));
        }
    }
    assert forall|again: Principal| #[trigger] authenticated(
        lost,
        root_secret@,
        preface@,
        greeting,
        second_us,
        Ok(again),
    ) implies again == principal by {
    }
    match outcome {
        Ok(second) => {
            let (again, chosen) = choose|again: Principal, chosen: Seq<String>|
                #[trigger] authenticated(
                    lost,
                    root_secret@,
                    preface@,
                    greeting,
                    second_us,
                    Ok(again),
                ) && agreed(target, greeting, chosen) && #[trigger] opening_granted(
                    lost,
                    after,
                    presenter,
                    root_secret,
                    target,
                    greeting,
                    again,
                    chosen,
                    second_entropy,
                    second_us,
                    second,
                );
            lemma_agreed_once(target, greeting, accepted, chosen);
        },
        Err(refusal) => {
            if crate::profile::negotiation_refused(
                target.profile@,
                target.supported_profiles@,
                greeting.target_profile@,
                greeting.required_profiles@,
                greeting.optional_profiles@,
                refusal,
            ) {
                let other = choose|other: Seq<String>| #[trigger]
                    is_accepted(
                        other,
                        greeting.required_profiles@,
                        greeting.optional_profiles@,
                        target.supported_profiles@,
                    ) && !profile_set_valid(names(other));
                lemma_agreed_once(target, greeting, accepted, other);
            }
            let (again, chosen) = choose|again: Principal, chosen: Seq<String>|
                #[trigger] authenticated(
                    lost,
                    root_secret@,
                    preface@,
                    greeting,
                    second_us,
                    Ok(again),
                ) && agreed(target, greeting, chosen) && #[trigger] opening_refused(
                    lost,
                    after,
                    presenter,
                    root_secret,
                    target,
                    greeting,
                    again,
                    chosen,
                    second_entropy,
                    refusal,
                );
            lemma_agreed_once(target, greeting, accepted, chosen);
        },
    }
}

/// Once a resumed session has sent a record, the proof that resumed it is spent: the same greeting is
/// turned away from then on, also where the session is lost again or its lease is gone, and changes
/// nothing. This holds until the numbers of sessions come round.
pub proof fn a_used_resume_is_turned_away(
    before: Registry,
    resumed: Registry,
    later: Registry,
    after: Registry,
    presenter: PresenterInstanceId,
    root_secret: [u8; 32],
    preface: [u8; 16],
    target: Target,
    greeting: Greeting,
    key: LeaseKey,
    first_entropy: Entropy,
    first_us: u64,
    first: Established,
    read: Lease,
    lost_us: u64,
    second_entropy: Entropy,
    second_us: u64,
    outcome: Result<Established, SessionRefusal>,
)
    requires
        greeting.authentication is Resume,
        greeted(
            before,
            resumed,
            presenter,
            root_secret,
            preface,
            target,
            greeting,
            first_entropy,
            first_us,
            first,
        ),
        first.session.lease == Some(key),
        before.leases@[key].state().state is Suspended,
        lease_used(resumed.leases@[key], read),
        if later.leases@.contains_key(key) {
            later.leases@[key] == read || crate::registry::lease_lost(
                read,
                later.leases@[key],
                first.session.resume_key,
                lost_us,
            )
        } else {
            childless(later.leases@, first.session.identity.session_id)
        },
        later.wf(),
        !later.numbers.repeating@,
        match outcome {
            Ok(second) => greeted(
                later,
                after,
                presenter,
                root_secret,
                preface,
                target,
                greeting,
                second_entropy,
                second_us,
                second,
            ),
            Err(refusal) => turned_away(
                later,
                after,
                presenter,
                root_secret,
                preface,
                target,
                greeting,
                second_entropy,
                second_us,
                refusal,
            ),
        },
    ensures
        outcome matches Err(refusal) && refusal.code == Some(ERROR_AUTH_FAILED) && refusal.message@
            == "resume failed"@,
        after == later,
{
    let (who, accepted) = choose|who: Principal, accepted: Seq<String>|
        #[trigger] authenticated(before, root_secret@, preface@, greeting, first_us, Ok(who))
            && agreed(target, greeting, accepted) && #[trigger] opening_granted(
            before,
            resumed,
            presenter,
            root_secret,
            target,
            greeting,
            who,
            accepted,
            first_entropy,
            first_us,
            first,
        );
    assert(who is Resume);
    assert(lease_of(who) == Some(key));
    assert(before.leases@.contains_key(key));
    assert(!(read.state().state is Suspended));
    assert(read.resuming is None);
    assert forall|other: LeaseKey| #[trigger] later.leases@.contains_key(other) && resumes_by(
        other,
        later.leases@[other],
        greeting,
    ) implies other == key && later.leases@.contains_key(key) by {
    }
    assert forall|again: Principal| !#[trigger] authenticated(
        later,
        root_secret@,
        preface@,
        greeting,
        second_us,
        Ok(again),
    ) by {
    }
}

/// A root greeting that opened a session is refused as long as it is remembered, whatever happened
/// since to anything but that memory.
pub proof fn a_root_greeting_opens_one_session(
    before: Registry,
    after: Registry,
    later: Registry,
    presenter: PresenterInstanceId,
    root_secret: [u8; 32],
    preface: [u8; 16],
    target: Target,
    greeting: Greeting,
    entropy: Entropy,
    first_us: u64,
    established: Established,
    second_us: u64,
    outcome: Result<Principal, SessionRefusal>,
)
    requires
        greeting.authentication is Root,
        greeted(
            before,
            after,
            presenter,
            root_secret,
            preface,
            target,
            greeting,
            entropy,
            first_us,
            established,
        ),
        later.root_nonces.entries@ == after.root_nonces.entries@,
        second_us < unsigned_64(first_us + ROOT_NONCE_LIFETIME_US),
        authenticated(later, root_secret@, preface@, greeting, second_us, outcome),
    ensures
        outcome matches Err(refusal) && refusal.code == Some(ERROR_AUTH_FAILED) && refusal.message@
            == "root authentication failed"@,
{
    a_root_greeting_is_taken_once(
        before.root_nonces.entries@,
        greeting.client_nonce,
        first_us,
        second_us,
    );
}

/// A greeting that is turned away is not remembered: it may be made again, and is then answered as if
/// for the first time.
pub proof fn a_greeting_that_is_turned_away_is_not_remembered(
    before: Registry,
    after: Registry,
    presenter: PresenterInstanceId,
    root_secret: [u8; 32],
    preface: [u8; 16],
    target: Target,
    greeting: Greeting,
    entropy: Entropy,
    now_us: u64,
    refusal: SessionRefusal,
)
    requires
        turned_away(
            before,
            after,
            presenter,
            root_secret,
            preface,
            target,
            greeting,
            entropy,
            now_us,
            refusal,
        ),
    ensures
        after.root_nonces == before.root_nonces,
{
}

/// A producer is sent no larger control records than it can read, and no larger ones than its carrier
/// carries.
pub proof fn a_producer_is_sent_what_it_can_read(wanted: u32, web: bool)
    ensures
        control_ceiling(wanted, web) <= wanted,
        control_ceiling(wanted, web) <= 1_048_576,
        web ==> control_ceiling(wanted, web) <= 262_144,
        !web && wanted <= 1_048_576 ==> control_ceiling(wanted, web) == wanted,
        web && wanted <= 262_144 ==> control_ceiling(wanted, web) == wanted,
        !web && wanted > 1_048_576 ==> control_ceiling(wanted, web) == 1_048_576,
        web && wanted > 262_144 ==> control_ceiling(wanted, web) == 262_144,
{
}

/// Whoever greets is let in as what it greets as, and under the numbers that it names.
pub proof fn a_producer_is_let_in_as_what_it_greets_as(
    registry: &Registry,
    root_secret: &[u8; 32],
    preface: &[u8; 16],
    greeting: &Greeting,
    now_us: u64,
    r: Result<Principal, SessionRefusal>,
)
    requires
        call_ensures(authenticate, (registry, root_secret, preface, greeting, now_us), r),
    ensures
        r matches Err(refusal) ==> refusal.code == Some(1u64),
        r matches Ok(principal) ==> {
            &&& principal is Root <==> greeting.authentication is Root
            &&& principal is Lease <==> greeting.authentication is LeaseActivation
            &&& principal is Resume <==> greeting.authentication is Resume
            &&& greeting.authentication matches HelloProof::LeaseActivation {
                context_id,
                lease_id,
                activation_secret,
                attempt_id,
            } ==> (principal matches Principal::Lease { key, secret, attempt_id: attempt }
                && key.context_id == context_id && key.lease_id == lease_id && secret
                == activation_secret && attempt == attempt_id && registry.leases@.contains_key(key))
            &&& greeting.authentication matches HelloProof::Resume {
                context_id,
                lease_id,
                session_id,
                resume_generation,
                attempt_id,
                proof,
            } ==> (principal matches Principal::Resume {
                key,
                prior_resume_key,
                attempt_id: attempt,
                session_id: session,
                resume_generation: generation,
            } && key.context_id == context_id && key.lease_id == lease_id && session == session_id
                && generation == resume_generation && attempt == attempt_id
                && registry.leases@.contains_key(key) && registry.leases@[key].resume_key == Some(
                prior_resume_key,
            ) && resume_proof_of(
                prior_resume_key@,
                preface@,
                (ResumeClaim { lease_id, session_id, resume_generation, attempt_id: attempt_id@ }),
                greeting.authless@,
            ) == proof@)
        },
{
}

/// The window's secret lets in whoever proves it, once, and nobody else.
pub proof fn the_secret_of_the_window_opens_it(
    registry: &Registry,
    root_secret: &[u8; 32],
    preface: &[u8; 16],
    greeting: &Greeting,
    now_us: u64,
    r: Result<Principal, SessionRefusal>,
)
    requires
        call_ensures(authenticate, (registry, root_secret, preface, greeting, now_us), r),
        greeting.authentication is Root,
        forall|i: int|
            0 <= i < registry.root_nonces.entries@.len() ==> (
            #[trigger] registry.root_nonces.entries@[i]).0 != greeting.client_nonce,
        registry.root_nonces.entries@.len() < 4096,
    ensures
        r is Ok <==> root_proof_of(root_secret@, preface@, greeting.authless@)
            == greeting.authentication->Root_proof@,
{
    let entries = registry.root_nonces.entries@;
    crate::registry::a_new_greeting_is_taken(entries, greeting.client_nonce, now_us);
}

/// A session works on the terms of whoever let it in: the window's own secret and classes for a root,
/// those of the lease for a leased or a resumed session.
pub proof fn a_session_works_on_the_terms_it_was_let_in_on(
    registry: &Registry,
    root_secret: &[u8; 32],
    target: &Target,
    principal: &Principal,
    web: bool,
    r: Result<Terms, SessionRefusal>,
)
    requires
        call_ensures(terms_of, (registry, root_secret, target, principal, web), r),
    ensures
        principal is Root ==> r is Ok,
        r matches Ok(terms) ==> {
            &&& principal is Root ==> terms.kind == 0 && terms.secret == *root_secret && terms.classes
                == target.root_operation_classes
            &&& *principal matches Principal::Lease { key, secret, .. } ==> terms.kind == 1
                && terms.secret == secret && terms.classes == registry.leases@[key].classes
            &&& *principal matches Principal::Resume { key, prior_resume_key, .. } ==> terms.kind == 2
                && terms.secret == prior_resume_key && terms.classes == registry.leases@[key].classes
            &&& !web && !(principal is Root) ==> (match *principal {
                Principal::Lease { key, .. } => terms.contract.values@
                    == registry.leases@[key].contract.values@,
                Principal::Resume { key, .. } => terms.contract.values@
                    == registry.leases@[key].contract.values@,
                Principal::Root => true,
            })
        },
        r matches Err(refusal) ==> (match *principal {
            Principal::Root => false,
            Principal::Lease { key, .. } => (refusal.code is Some
                <==> registry.leases@.contains_key(key)) && (refusal.code matches Some(code) ==> code
                == 1),
            Principal::Resume { key, .. } => refusal.code is None
                && !registry.leases@.contains_key(key),
        }),
{
}

/// A welcome tells a producer which session it got, what of the window it sees and how it was let in.
/// A resumed session is told that it was resumed, one generation on.
pub proof fn a_welcome_tells_what_was_opened(
    greeting: Greeting,
    target: Target,
    accepted: Seq<Seq<char>>,
    principal: Principal,
    terms: Terms,
    session_id: u64,
    server_nonce: Seq<u8>,
    session_tag: Seq<u8>,
    web: bool,
)
    ensures
        ({
            let told = offer_of(
                greeting,
                target,
                accepted,
                principal,
                terms,
                session_id,
                server_nonce,
                session_tag,
                web,
            );
            &&& told.session_id == session_id
            &&& told.session_tag == session_tag
            &&& told.server_nonce == server_nonce
            &&& told.root_context_id == 1
            &&& told.target_generation == target.generation
            &&& told.target_profile == target.profile@
            &&& told.target_descriptor == payload_view(target.descriptor@)
            &&& told.accepted_profiles == accepted
            &&& told.maximum_control_body <= greeting.maximum_control_body
            &&& told.kind == terms.kind
            &&& told.contract == terms.contract.values@
            &&& told.attempt_status == 0
            &&& told.session_revision == 1
            &&& told.scene_revision == 0
            &&& told.lease_state == 0 <==> principal is Root
            &&& !(principal is Root) ==> told.lease_state == 3
            &&& told.establishment_state == 1 <==> principal is Resume
            &&& !(principal is Resume) ==> told.establishment_state == 0 && told.resume_generation == 0
            &&& principal matches Principal::Resume { resume_generation, .. } ==> (resume_generation
                < u64::MAX ==> told.resume_generation == resume_generation + 1)
        }),
{
}

/// A resumed session keeps its number. Every other session gets a new one.
pub proof fn a_resumed_session_keeps_its_number(principal: Principal, fresh_id: u64)
    ensures
        principal matches Principal::Resume { session_id, .. } ==> wanted_session(principal, fresh_id)
            == session_id,
        !(principal is Resume) ==> wanted_session(principal, fresh_id) == fresh_id,
        lease_of(principal) is None <==> principal is Root,
        principal matches Principal::Lease { key, .. } ==> lease_of(principal) == Some(key),
        principal matches Principal::Resume { key, .. } ==> lease_of(principal) == Some(key),
{
}

/// A session that is opened is the one that was decided on: a root session has the next number, a
/// resumed one the number it had. It holds one context, has nothing to send and knows no anchor yet.
pub proof fn an_opened_session_is_fresh(
    registry: &mut Registry,
    presenter: PresenterInstanceId,
    root_secret: &[u8; 32],
    target: &Target,
    greeting: &Greeting,
    principal: &Principal,
    accepted: Vec<String>,
    entropy: &Entropy,
    now_us: u64,
    r: Result<Established, SessionRefusal>,
)
    requires
        call_ensures(
            open_session,
            (
                registry,
                presenter,
                root_secret,
                target,
                greeting,
                principal,
                accepted,
                entropy,
                now_us,
            ),
            r,
        ),
    ensures
        old(registry).sessions.entries@.len() >= 16 ==> (r matches Err(refusal) && refusal.code
            == Some(9u64)),
        r matches Ok(opened) ==> {
            &&& opened.session.identity.presenter == presenter
            &&& principal is Root ==> opened.session.identity.session_id == old(registry).numbers.next
            &&& opened.session.lease == lease_of(*principal)
            &&& opened.session.root_context_id == 1
            &&& opened.session.contexts.table@.dom() == set![1u64]
            &&& opened.session.accepted_profiles@ == accepted@
            &&& opened.session.egress is Some && opened.session.egress->0.records@.len() == 0
            &&& opened.session.seen_anchors@.len() == 0
            &&& opened.session.lane is None
            &&& opened.maximum_control_body <= greeting.maximum_control_body
            &&& final(registry).sessions == old(registry).sessions
            &&& final(registry).by_tag == old(registry).by_tag
        },
{
}

/// A session that is published is in the registry and is found by its tag.
pub proof fn a_published_session_is_found(
    registry: &mut Registry,
    session: Session,
    now_us: u64,
    found: Option<u64>,
)
    requires
        call_ensures(publish, (registry, session, now_us), ()),
        call_ensures(
            Registry::session_by_tag,
            (&*final(registry), &session.session_tag),
            found,
        ),
    ensures
        found == Some(session.identity.session_id),
        final(registry).sessions@.contains_key(session.identity.session_id),
        final(registry).leases == old(registry).leases,
{
    let id = session.identity.session_id;
    let sessions = old(registry).sessions@.insert(id, session);
    assert(sessions.dom().contains(id));
    if final(registry).sessions@ != sessions {
        assert(final(registry).sessions@.dom() == sessions.dom());
        assert(final(registry).sessions@.dom().contains(id));
    }
}

/// A welcome is handed out only where its producer can read it.
pub proof fn a_welcome_fits_its_producer(
    greeting: &Greeting,
    target: &Target,
    accepted: &Vec<String>,
    principal: &Principal,
    terms: &Terms,
    session_id: u64,
    entropy: &Entropy,
    web: bool,
    r: Option<Vec<u8>>,
)
    requires
        call_ensures(
            offer_welcome,
            (greeting, target, accepted, principal, terms, session_id, entropy, web),
            r,
        ),
    ensures
        r matches Some(body) ==> body@.len() <= greeting.maximum_control_body,
{
}

} // verus!
