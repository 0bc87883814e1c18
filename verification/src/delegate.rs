//! Control records that delegate: contexts and leases.

use vstd::prelude::*;
use vivid_protocol::cbor::Value;

use crate::actor::OutgoingRecord;
use crate::context::{
    context_created, context_decoded, context_revoked, decode_context, lease_reserved,
    ContextRefusal, OP_DELEGATE,
};
use crate::contract::{is_presenter_contract, presenter_contract, ResourceContract};
use crate::control::{
    find_malformed, is_reply, known_number, malformed, number, operation_refusal, reply, reply_of,
    ControlError,
};
use crate::identity::SessionIdentity;
use crate::lease::{
    CleanupPolicy, Lease, LeaseKey, SessionLeaseDefinition, REASON_EXPLICIT_REVOKE,
};
use crate::profile::{all_supported, names, supports_all};
use crate::protocol::{
    CONTEXT_READY, ERROR_BAD_MESSAGE, ERROR_BAD_STATE, ERROR_DUPLICATE_ID, ERROR_LIMIT_EXCEEDED,
    ERROR_NOT_FOUND, ERROR_UNSUPPORTED_CONFIG, SESSION_LEASE_READY,
};
use crate::registry::{lease_revoked, one_session_changed, Registry, MAX_LEASES};
use crate::session::Session;
use crate::value::{payload_view, unsigned, value_view, ValueView};

verus! {

/// Why a context was not made, as its producer is told.
pub open spec fn context_error(refusal: ContextRefusal) -> ControlError {
    match refusal {
        ContextRefusal::AlreadyLive => ControlError::coded(
            ERROR_BAD_STATE,
            "context ID is already live",
        ),
        ContextRefusal::ParentAbsent => ControlError::coded(
            ERROR_NOT_FOUND,
            "context parent is absent",
        ),
        ContextRefusal::CapacityExhausted => ControlError::coded(
            ERROR_LIMIT_EXCEEDED,
            "context capacity is exhausted",
        ),
        ContextRefusal::InvalidEffective => ControlError::coded(
            ERROR_BAD_MESSAGE,
            "invalid effective context",
        ),
    }
}

/// What a producer is told of a context that is ready.
pub open spec fn context_ready_fields(
    context_id: u64,
    classes: u64,
    contract: ResourceContract,
    lifetime_us: u64,
) -> Seq<(u64, ValueView)> {
    seq![
        (0u64, ValueView::Unsigned(context_id)),
        (1u64, ValueView::Unsigned(classes)),
        (2u64, ValueView::Entries(contract.encoded())),
        (3u64, ValueView::Unsigned(lifetime_us)),
        (4u64, ValueView::Unsigned(1)),
    ]
}

/// What becomes of a request for a context.
pub open spec fn context_answered(
    before: Session,
    after: Session,
    object_id: u64,
    request_id: u64,
    payload: ValueView,
    answer: Result<OutgoingRecord, ControlError>,
) -> bool {
    match context_decoded(object_id, payload) {
        Some(request) => {
            &&& after == (Session { contexts: after.contexts, ..before })
            &&& exists|policy: Seq<u64>, outcome: Result<(u64, ResourceContract), ContextRefusal>|
                is_presenter_contract(policy) && #[trigger] context_created(
                    before.contexts.table@,
                    after.contexts.table@,
                    before.identity,
                    request,
                    policy,
                    outcome,
                ) && match outcome {
                    Ok((classes, contract)) => is_reply(
                        answer,
                        reply_of(
                            CONTEXT_READY,
                            request.context_id,
                            request_id,
                            context_ready_fields(
                                request.context_id,
                                classes,
                                contract,
                                request.lifetime_us,
                            ),
                        ),
                    ),
                    Err(refusal) => answer == Err::<OutgoingRecord, ControlError>(
                        context_error(refusal),
                    ),
                }
        },
        None => after == before && answer == Err::<OutgoingRecord, ControlError>(
            ControlError::coded(ERROR_BAD_MESSAGE, "invalid context schema"),
        ),
    }
}

/// Make a context.
pub fn create_context(session: &mut Session, object_id: u64, request_id: u64, value: &Value) -> (r: Result<
    OutgoingRecord,
    ControlError,
>)
    requires
        old(session).wf(),
    ensures
        final(session).wf(),
        context_answered(
            *old(session),
            *final(session),
            object_id,
            request_id,
            value_view(*value),
            r,
        ),
{
    let ghost before = *session;
    let request = match decode_context(object_id, value) {
        Ok(request) => request,
        Err(_) => {
            return Err(ControlError::bad_message("invalid context schema"));
        },
    };
    let policy = presenter_contract();
    let outcome = session.contexts.create(session.identity, &request, &policy);
    assert(context_created(
        before.contexts.table@,
        session.contexts.table@,
        before.identity,
        request,
        policy.values@,
        outcome,
    ));
    match outcome {
        Ok((classes, contract)) => {
            let payload = vec![
                (0u64, unsigned(request.context_id)),
                (1u64, unsigned(classes)),
                (2u64, contract.to_value()),
                (3u64, unsigned(request.lifetime_us)),
                (4u64, unsigned(1)),
            ];
            assert(payload_view(payload@) =~= context_ready_fields(
                request.context_id,
                classes,
                contract,
                request.lifetime_us,
            ));
            reply(CONTEXT_READY, request.context_id, request_id, payload)
        },
        Err(refusal) => Err(
            match refusal {
                ContextRefusal::AlreadyLive => ControlError::bad_state("context ID is already live"),
                ContextRefusal::ParentAbsent => ControlError::not_found("context parent is absent"),
                ContextRefusal::CapacityExhausted => ControlError::limit(
                    "context capacity is exhausted",
                ),
                ContextRefusal::InvalidEffective => ControlError::bad_message(
                    "invalid effective context",
                ),
            },
        ),
    }
}

/// What a request to revoke a context is refused for, if it is.
pub open spec fn revoke_context_refusal(session: Session, payload: Seq<(u64, ValueView)>) -> Option<
    ControlError,
> {
    match malformed(
        payload,
        seq![0u64, 1],
        "invalid context revoke",
        seq![(0u64, "missing context ID")],
    ) {
        Some(message) => Some(ControlError::coded(ERROR_BAD_MESSAGE, message)),
        None => {
            let context_id = number(payload, 0);
            if context_id == session.root_context_id {
                Some(ControlError::coded(ERROR_BAD_STATE, "context cannot be revoked"))
            } else if !session.contexts.table@.contains_key(context_id) {
                Some(ControlError::coded(ERROR_NOT_FOUND, "context does not exist"))
            } else {
                None
            }
        },
    }
}

/// Revoke a context and everything under it. What was revoked, for the scene and the file drops.
pub fn revoke_context(session: &mut Session, payload: &Vec<(u64, Value)>) -> (r: Result<
    (u64, Vec<u64>),
    ControlError,
>)
    requires
        old(session).wf(),
    ensures
        final(session).wf(),
        match revoke_context_refusal(*old(session), payload_view(payload@)) {
            Some(error) => r == Err::<(u64, Vec<u64>), ControlError>(error) && *final(session)
                == *old(session),
            None => r matches Ok((context_id, removed)) && context_id == number(payload_view(payload@), 0) && *final(session) == (Session { contexts: final(session).contexts, ..*old(session) })
                && context_revoked(
                old(session).contexts.table@,
                final(session).contexts.table@,
                context_id,
                removed@,
            ),
        },
{
    let allowed: [u64; 2] = [0, 1];
    let wanted = vec![(0u64, "missing context ID")];
    assert(allowed@ =~= seq![0u64, 1]);
    assert(wanted@ =~= seq![(0u64, "missing context ID")]);
    if let Some(message) = find_malformed(payload, &allowed, "invalid context revoke", &wanted) {
        return Err(ControlError::bad_message(message));
    }
    let context_id = known_number(payload, 0);
    if context_id == session.root_context_id {
        return Err(ControlError::bad_state("context cannot be revoked"));
    }
    match session.contexts.revoke(context_id) {
        Some(removed) => Ok((context_id, removed)),
        None => Err(ControlError::not_found("context does not exist")),
    }
}

/// What a request for a lease holds.
pub struct LeaseRequestView {
    pub context_id: u64,
    pub lease_id: u64,
    pub activation_verifier: Seq<u8>,
    pub activation_timeout_us: u64,
    pub requested_disconnect_grace_us: u64,
    pub cleanup_policy: CleanupPolicy,
    pub permitted_profiles: Seq<Seq<char>>,
    pub requested_contract: Seq<u64>,
}

impl View for SessionLeaseDefinition {
    type V = LeaseRequestView;

    open spec fn view(&self) -> LeaseRequestView {
        LeaseRequestView {
            context_id: self.context_id,
            lease_id: self.lease_id,
            activation_verifier: self.activation_verifier@,
            activation_timeout_us: self.activation_timeout_us,
            requested_disconnect_grace_us: self.requested_disconnect_grace_us,
            cleanup_policy: self.cleanup_policy,
            permitted_profiles: names(self.permitted_profiles@),
            requested_contract: self.requested_contract.values@,
        }
    }
}

/// The request for a lease that a payload is, where it is valid.
pub uninterp spec fn lease_decoded(payload: ValueView) -> Option<LeaseRequestView>;

/// `vivid_protocol::lease::SessionLeaseDefinition::decode`: the request depends on the payload
/// alone, and is refused where it is not valid.
#[verifier::external_body]
fn decode_lease(payload: &Value) -> (r: Option<SessionLeaseDefinition>)
    ensures
        match r {
            Some(definition) => lease_decoded(value_view(*payload)) == Some(definition@),
            None => lease_decoded(value_view(*payload)) is None,
        },
{
    let definition = vivid_protocol::lease::SessionLeaseDefinition::decode(payload).ok()?;
    let ceilings = definition.requested_contract.to_value();
    let values = std::array::from_fn(|key| ceilings.map_value(key as u64).and_then(Value::as_u64).unwrap_or_default());
    let cleanup_policy = match definition.cleanup_policy {
        vivid_protocol::lease::CleanupPolicy::Immediate => CleanupPolicy::Immediate,
        vivid_protocol::lease::CleanupPolicy::SuspendOnUncleanLoss => CleanupPolicy::SuspendOnUncleanLoss,
    };
    Some(SessionLeaseDefinition {
        context_id: definition.context_id, lease_id: definition.lease_id, cleanup_policy,
        activation_verifier: definition.activation_verifier, activation_timeout_us: definition.activation_timeout_us,
        requested_disconnect_grace_us: definition.requested_disconnect_grace_us,
        permitted_profiles: definition.permitted_profiles.clone(), requested_contract: ResourceContract { values },
    })
}

/// Whether every one of these profiles is supported, by their names.
pub open spec fn names_supported(profiles: Seq<Seq<char>>, supported: Seq<String>) -> bool {
    forall|i: int|
        0 <= i < profiles.len() ==> crate::session::has_profile(supported, #[trigger] profiles[i])
}

/// What a request for a lease is refused for before any budget is asked for, if it is.
pub open spec fn lease_refusal(
    registry: Registry,
    session: Session,
    supported: Seq<String>,
    object_id: u64,
    payload: ValueView,
) -> Option<ControlError> {
    match lease_decoded(payload) {
        None => Some(ControlError::coded(ERROR_BAD_MESSAGE, "invalid session lease schema")),
        Some(request) => {
            let key = LeaseKey {
                issuer: session.identity,
                context_id: request.context_id,
                lease_id: request.lease_id,
            };
            if request.lease_id != object_id {
                Some(
                    ControlError::coded(
                        ERROR_BAD_MESSAGE,
                        "lease object ID does not match its payload",
                    ),
                )
            } else if operation_refusal(session, request.context_id, OP_DELEGATE) is Some {
                operation_refusal(session, request.context_id, OP_DELEGATE)
            } else if !names_supported(request.permitted_profiles, supported) {
                Some(
                    ControlError::coded(
                        ERROR_UNSUPPORTED_CONFIG,
                        "lease permits a profile this target does not implement",
                    ),
                )
            } else if registry.leases@.contains_key(key) {
                Some(ControlError::coded(ERROR_DUPLICATE_ID, "lease identity is already live"))
            } else if registry.leases.leases.entries@.len() >= MAX_LEASES {
                Some(ControlError::coded(ERROR_LIMIT_EXCEEDED, "lease capacity is exhausted"))
            } else {
                None
            }
        },
    }
}

/// What becomes of a lease whose budget is granted or not.
pub open spec fn lease_granted(
    before: Registry,
    after: Registry,
    session: Session,
    changed: Session,
    request: LeaseRequestView,
    request_id: u64,
    now_us: u64,
    policy: Seq<u64>,
    granted: Option<(u64, ResourceContract)>,
    answer: Result<OutgoingRecord, ControlError>,
) -> bool {
    let key = LeaseKey {
        issuer: session.identity,
        context_id: request.context_id,
        lease_id: request.lease_id,
    };
    &&& is_presenter_contract(policy)
    &&& lease_reserved(
        session.contexts.table@,
        changed.contexts.table@,
        request.context_id,
        request.requested_contract,
        policy,
        Some(granted),
    )
    &&& match granted {
        Some((classes, contract)) => {
            &&& after.leases@.contains_key(key)
            &&& after.leases@ == before.leases@.insert(key, after.leases@[key])
            &&& is_new_lease(after.leases@[key], request, contract, classes, now_us)
            &&& is_reply(
                answer,
                reply_of(
                    SESSION_LEASE_READY,
                    request.lease_id,
                    request_id,
                    after.leases@[key].ready_view(request.context_id, request.lease_id),
                ),
            )
        },
        None => after.leases == before.leases && answer == Err::<OutgoingRecord, ControlError>(
            ControlError::coded(ERROR_LIMIT_EXCEEDED, "context capacity is exhausted"),
        ),
    }
}

/// What becomes of a request for a lease: its budget is held back from the context that delegates
/// it, the lease is filed under its complete identity, and its issuer is told.
pub open spec fn lease_answered(
    before: Registry,
    after: Registry,
    session_id: u64,
    supported: Seq<String>,
    object_id: u64,
    request_id: u64,
    payload: ValueView,
    now_us: u64,
    answer: Result<OutgoingRecord, ControlError>,
) -> bool {
    let session = before.sessions@[session_id];
    match lease_refusal(before, session, supported, object_id, payload) {
        Some(error) => after == before && answer == Err::<OutgoingRecord, ControlError>(error),
        None => {
            let request = lease_decoded(payload).unwrap();
            let key = LeaseKey {
                issuer: session.identity,
                context_id: request.context_id,
                lease_id: request.lease_id,
            };
            let changed = after.sessions@[session_id];
            &&& after.by_tag == before.by_tag
            &&& after.channel_opens == before.channel_opens
            &&& after.root_nonces == before.root_nonces
            &&& after.numbers == before.numbers
            &&& one_session_changed(before.sessions@, after.sessions@, session_id)
            &&& changed == (Session { contexts: changed.contexts, ..session })
            &&& exists|policy: Seq<u64>, granted: Option<(u64, ResourceContract)>| #[trigger]
                lease_granted(
                    before,
                    after,
                    session,
                    changed,
                    request,
                    request_id,
                    now_us,
                    policy,
                    granted,
                    answer,
                )
        },
    }
}

/// Whether a lease is one that nobody has activated yet.
pub open spec fn is_new_lease(
    lease: Lease,
    request: LeaseRequestView,
    contract: ResourceContract,
    classes: u64,
    now_us: u64,
) -> bool {
    &&& lease.definition@ == request
    &&& lease.contract == contract
    &&& lease.classes == classes
    &&& lease.activation_deadline_us == crate::file_drop::after(now_us, request.activation_timeout_us)
    &&& lease.grace_deadline_us is None
    &&& lease.child is None
    &&& lease.resume_key is None
    &&& lease.resuming is None
    &&& lease.state() == (crate::lease::MachineView {
        state: crate::lease::LeaseState::Issued,
        revision: 1,
        resume_generation: 0,
        cleanup_policy: request.cleanup_policy,
        disconnect_grace_us: request.requested_disconnect_grace_us,
        session_id: None,
        fingerprint: None,
        attempt: None,
    })
}

/// Issue a lease.
pub fn create_session_lease(
    registry: &mut Registry,
    session_id: u64,
    supported: &Vec<String>,
    object_id: u64,
    request_id: u64,
    value: &Value,
    now_us: u64,
) -> (r: Result<OutgoingRecord, ControlError>)
    requires
        old(registry).wf(),
        old(registry).sessions@.contains_key(session_id),
    ensures
        final(registry).wf(),
        lease_answered(
            *old(registry),
            *final(registry),
            session_id,
            supported@,
            object_id,
            request_id,
            value_view(*value),
            now_us,
            r,
        ),
{
    let ghost before = *registry;
    let ghost issuer = before.sessions@[session_id];
    let definition = match decode_lease(value) {
        Some(definition) => definition,
        None => {
            return Err(ControlError::bad_message("invalid session lease schema"));
        },
    };
    if definition.lease_id != object_id {
        return Err(ControlError::bad_message("lease object ID does not match its payload"));
    }
    let identity = match registry.sessions.get(&session_id) {
        Some(session) => {
            if let Err(error) = session.require_context_operation(
                definition.context_id,
                OP_DELEGATE,
            ) {
                return Err(error);
            }
            session.identity
        },
        None => {
            return Err(ControlError::not_found("session does not exist"));
        },
    };
    proof {
        lemma_names_supported(definition.permitted_profiles@, supported@);
    }
    if !supports_all(&definition.permitted_profiles, supported) {
        return Err(
            ControlError::unsupported("lease permits a profile this target does not implement"),
        );
    }
    let key = LeaseKey {
        issuer: identity,
        context_id: definition.context_id,
        lease_id: definition.lease_id,
    };
    if registry.leases.contains(&key) {
        return Err(ControlError::duplicate("lease identity is already live"));
    }
    if registry.leases.len() >= MAX_LEASES {
        return Err(ControlError::limit("lease capacity is exhausted"));
    }
    let policy = presenter_contract();
    let granted = match registry.sessions.get_mut(&session_id) {
        Some(session) => session.contexts.reserve_lease(
            definition.context_id,
            definition.lease_id,
            &definition.requested_contract,
            &policy,
        ),
        None => None,
    };
    let ghost changed = registry.sessions@[session_id];
    proof {
        assert(registry.sessions@.dom() =~= before.sessions@.dom());
        assert(granted is Some);
        assert(lease_reserved(
            issuer.contexts.table@,
            changed.contexts.table@,
            definition.context_id,
            definition.requested_contract.values@,
            policy.values@,
            Some(granted.unwrap()),
        ));
    }
    let ghost wanted = definition@;
    let (classes, contract) = match granted {
        Some(Some(granted)) => granted,
        _ => {
            let error = ControlError::limit("context capacity is exhausted");
            assert(lease_granted(
                before,
                *registry,
                issuer,
                changed,
                wanted,
                request_id,
                now_us,
                policy.values@,
                None,
                Err(error),
            ));
            return Err(error);
        },
    };
    let context_id = definition.context_id;
    let lease_id = definition.lease_id;
    let lease = Lease::new(definition, contract, classes, now_us);
    let payload = lease.ready_payload(context_id, lease_id);
    registry.leases.insert(key, lease);
    let answer = reply(SESSION_LEASE_READY, lease_id, request_id, payload);
    assert(lease_granted(
        before,
        *registry,
        issuer,
        changed,
        wanted,
        request_id,
        now_us,
        policy.values@,
        Some((classes, contract)),
        answer,
    ));
    answer
}

proof fn lemma_names_supported(profiles: Seq<String>, supported: Seq<String>)
    ensures
        names_supported(names(profiles), supported) == all_supported(profiles, supported),
{
    if names_supported(names(profiles), supported) {
        assert forall|i: int| 0 <= i < profiles.len() implies crate::session::has_profile(
            supported,
            (#[trigger] profiles[i])@,
        ) by {
            assert(names(profiles)[i] == profiles[i]@);
        }
    }
    if all_supported(profiles, supported) {
        assert forall|i: int| 0 <= i < names(profiles).len() implies crate::session::has_profile(
            supported,
            #[trigger] names(profiles)[i],
        ) by {
            assert(names(profiles)[i] == profiles[i]@);
        }
    }
}

/// What a request to revoke a lease is refused for, if it is.
pub open spec fn revoke_lease_refusal(registry: Registry, session: Session, payload: Seq<(u64, ValueView)>) -> Option<
    ControlError,
> {
    match malformed(
        payload,
        seq![0u64, 1],
        "invalid lease revoke",
        seq![(0u64, "missing context ID"), (1u64, "missing lease ID")],
    ) {
        Some(message) => Some(ControlError::coded(ERROR_BAD_MESSAGE, message)),
        None => if operation_refusal(session, number(payload, 0), OP_DELEGATE) is Some {
            operation_refusal(session, number(payload, 0), OP_DELEGATE)
        } else if !registry.leases@.contains_key(named_lease(session, payload)) {
            Some(ControlError::coded(ERROR_NOT_FOUND, "lease does not exist"))
        } else {
            None
        },
    }
}

/// The lease that a request to revoke one names.
pub open spec fn named_lease(session: Session, payload: Seq<(u64, ValueView)>) -> LeaseKey {
    LeaseKey {
        issuer: session.identity,
        context_id: number(payload, 0),
        lease_id: number(payload, 1),
    }
}

/// Revoke a lease that this session issued. The child that ended with it.
pub fn revoke_session_lease(
    registry: &mut Registry,
    session_id: u64,
    payload: &Vec<(u64, Value)>,
    now_us: u64,
) -> (r: Result<Option<SessionIdentity>, ControlError>)
    requires
        old(registry).wf(),
        old(registry).sessions@.contains_key(session_id),
    ensures
        final(registry).wf(),
        ({
            let session = old(registry).sessions@[session_id];
            let fields = payload_view(payload@);
            match revoke_lease_refusal(*old(registry), session, fields) {
                Some(error) => r == Err::<Option<SessionIdentity>, ControlError>(
                    error,
                ) && *final(registry) == *old(registry),
                None => r == Ok::<Option<SessionIdentity>, ControlError>(
                    old(registry).leases@[named_lease(session, fields)].child,
                ) && lease_revoked(
                    *old(registry),
                    *final(registry),
                    session_id,
                    named_lease(session, fields),
                    REASON_EXPLICIT_REVOKE,
                ),
            }
        }),
{
    let allowed: [u64; 2] = [0, 1];
    let wanted = vec![(0u64, "missing context ID"), (1u64, "missing lease ID")];
    assert(allowed@ =~= seq![0u64, 1]);
    assert(wanted@ =~= seq![(0u64, "missing context ID"), (1u64, "missing lease ID")]);
    if let Some(message) = find_malformed(payload, &allowed, "invalid lease revoke", &wanted) {
        return Err(ControlError::bad_message(message));
    }
    let context_id = known_number(payload, 0);
    let lease_id = known_number(payload, 1);
    let identity = match registry.sessions.get(&session_id) {
        Some(session) => {
            if let Err(error) = session.require_context_operation(context_id, OP_DELEGATE) {
                return Err(error);
            }
            session.identity
        },
        None => {
            return Err(ControlError::not_found("session does not exist"));
        },
    };
    let key = LeaseKey { issuer: identity, context_id, lease_id };
    match registry.revoke_lease(session_id, key, REASON_EXPLICIT_REVOKE, now_us) {
        Some(child) => Ok(child),
        None => Err(ControlError::not_found("lease does not exist")),
    }
}

/// Each way in which a context is not made has a code of its own.
pub proof fn a_context_that_is_not_made_is_told_why(refusal: ContextRefusal)
    ensures
        refusal is AlreadyLive <==> context_error(refusal).code == 6,
        refusal is ParentAbsent <==> context_error(refusal).code == 8,
        refusal is CapacityExhausted <==> context_error(refusal).code == 9,
        refusal is InvalidEffective <==> context_error(refusal).code == 5,
        context_error(refusal).track is None,
{
}

/// A context that was made is told what it got: its number, its operations, its budget and how long
/// it lives.
pub proof fn a_context_is_told_what_it_got(
    context_id: u64,
    classes: u64,
    contract: ResourceContract,
    lifetime_us: u64,
)
    ensures
        ({
            let fields = context_ready_fields(context_id, classes, contract, lifetime_us);
            &&& fields.len() == 5
            &&& fields[0] == (0u64, ValueView::Unsigned(context_id))
            &&& fields[1] == (1u64, ValueView::Unsigned(classes))
            &&& fields[2] == (2u64, ValueView::Entries(contract.encoded()))
            &&& fields[3] == (3u64, ValueView::Unsigned(lifetime_us))
            &&& fields[4] == (4u64, ValueView::Unsigned(1))
        }),
{
}

/// A session may revoke every context of its own but the root.
pub proof fn every_context_but_the_root_may_be_revoked(
    session: &mut Session,
    payload: &Vec<(u64, Value)>,
    r: Result<(u64, Vec<u64>), ControlError>,
)
    requires
        old(session).wf(),
        call_ensures(revoke_context, (session, payload), r),
    ensures
        r matches Ok((context_id, removed)) ==> {
            &&& crate::value::number_at(payload_view(payload@), 0) == Some(context_id)
            &&& context_id != old(session).root_context_id
            &&& old(session).contexts.table@.contains_key(context_id)
            &&& removed@.contains(context_id)
            &&& !final(session).contexts.table@.contains_key(context_id)
        },
        crate::value::number_at(payload_view(payload@), 0) == Some(old(session).root_context_id) ==> r is Err,
        r is Err ==> *final(session) == *old(session),
{
    reveal_with_fuel(crate::control::missing, 2);
}

/// A lease is made only by a session that may delegate in the context, for profiles that the target
/// has, under a number of its own that is not in use, while there is room; each of these has its own
/// code.
pub proof fn a_lease_that_is_not_made_is_told_why(
    registry: Registry,
    session: Session,
    supported: Seq<String>,
    object_id: u64,
    payload: ValueView,
)
    ensures
        ({
            let refusal = lease_refusal(registry, session, supported, object_id, payload);
            &&& lease_decoded(payload) is None ==> (refusal matches Some(error) && error.code == 5)
            &&& lease_decoded(payload) matches Some(request) ==> {
                let key = LeaseKey {
                    issuer: session.identity,
                    context_id: request.context_id,
                    lease_id: request.lease_id,
                };
                &&& refusal is None ==> request.lease_id == object_id
                    && crate::context::operation_allowed(
                    session.contexts.table@,
                    request.context_id,
                    OP_DELEGATE,
                ) && !registry.leases@.contains_key(key) && names_supported(
                    request.permitted_profiles,
                    supported,
                )
                &&& request.lease_id != object_id ==> (refusal matches Some(error) && error.code
                    == 5)
            }
        }),
{
}

/// A context that was made and a lease that was made are each told under their own record type, by
/// their own number.
pub proof fn what_was_made_is_told_by_its_number(
    before: Session,
    after: Session,
    registry: Registry,
    changed: Registry,
    session_id: u64,
    supported: Seq<String>,
    object_id: u64,
    request_id: u64,
    payload: ValueView,
    now_us: u64,
    answer: OutgoingRecord,
)
    ensures
        context_answered(before, after, object_id, request_id, payload, Ok(answer)) ==> crate::actor::record_view(
            answer,
        ).0 == 0x0601 && context_decoded(object_id, payload) is Some && crate::actor::record_view(answer).1
            == context_decoded(object_id, payload)->0.context_id,
        lease_answered(
            registry,
            changed,
            session_id,
            supported,
            object_id,
            request_id,
            payload,
            now_us,
            Ok(answer),
        ) ==> crate::actor::record_view(answer).0 == 0x0611 && lease_decoded(payload) is Some && crate::actor::record_view(
            answer,
        ).1 == lease_decoded(payload)->0.lease_id,
{
}

/// A lease that was made waits to be activated as long as was asked, with nobody in it, and grants what
/// was set aside for it.
pub proof fn a_made_lease_waits_as_long_as_was_asked(
    lease: Lease,
    request: LeaseRequestView,
    contract: ResourceContract,
    classes: u64,
    now_us: u64,
)
    requires
        is_new_lease(lease, request, contract, classes, now_us),
    ensures
        lease.state().state is Issued,
        lease.state().revision == 1,
        lease.state().resume_generation == 0,
        lease.child is None && lease.resume_key is None && lease.grace_deadline_us is None,
        lease.contract == contract && lease.classes == classes,
        now_us + request.activation_timeout_us <= u64::MAX ==> lease.activation_deadline_us - now_us
            == request.activation_timeout_us,
        now_us < lease.activation_deadline_us ==> !lease.run_out(now_us),
        lease.state().disconnect_grace_us == request.requested_disconnect_grace_us,
{
}

} // verus!
