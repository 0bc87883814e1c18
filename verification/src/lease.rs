//! Session leases: delegated authority for one child logical session.
//!
//! A controller keeps the activation secret and gives the presenter only a verifier of it. The
//! state machine of a lease is the protocol's; this module is the presenter's storage and lookup
//! around it, keyed by complete identity, so that two sessions that reuse context and lease numbers
//! never reach each other's leases.

use vstd::prelude::*;
use vstd::utf8::encode_utf8;
use sha2::Sha256;
use vivid_protocol::cbor::Value;
use vivid_protocol::lease::LeaseMachine;

use crate::contract::ResourceContract;
use crate::digest::{digest, feed, hashed_bytes, new_hasher, sha256_of};
use crate::file_drop::{add_delay, after};
use crate::identity::SessionIdentity;
use crate::table::{Table, TableKey};
use crate::value::{array, array_view, payload_view, text, unsigned, value_view, ValueView};

verus! {

/// The session that issued a lease, its owning context, and its number there.
#[derive(Debug, Clone, Copy, PartialEq, Eq)]
pub struct LeaseKey {
    pub issuer: SessionIdentity,
    pub context_id: u64,
    pub lease_id: u64,
}

impl TableKey for LeaseKey {
    fn same(&self, other: &Self) -> (r: bool) {
        self.context_id == other.context_id && self.lease_id == other.lease_id && self.issuer.same(
            &other.issuer,
        )
    }
}

/// Why a lease changed: its session closed cleanly.
pub const REASON_CLEAN_CLOSE: u64 = 2;

/// Why a lease changed: its transport was lost.
pub const REASON_UNCLEAN_LOSS: u64 = 4;

/// Why a lease changed: its session resumed.
pub const REASON_RESUMED: u64 = 8;

/// Why a lease changed: its issuer revoked it.
pub const REASON_EXPLICIT_REVOKE: u64 = 16;

/// Why a lease changed: its parent was cleaned up.
pub const REASON_PARENT_CLEANUP: u64 = 32;

/// Why a lease changed: nobody activated it in time.
pub const REASON_ACTIVATION_EXPIRY: u64 = 64;

/// Why a lease changed: nobody resumed it in time.
pub const REASON_GRACE_EXPIRY: u64 = 128;

/// What an unclean loss does to a lease.
#[derive(Debug, Clone, Copy, PartialEq, Eq, Structural)]
pub enum CleanupPolicy {
    Immediate,
    SuspendOnUncleanLoss,
}

impl CleanupPolicy {
    /// The number of a policy on the wire.
    pub open spec fn code_spec(self) -> u64 {
        match self {
            CleanupPolicy::Immediate => 0,
            CleanupPolicy::SuspendOnUncleanLoss => 1,
        }
    }

    fn code(self) -> (r: u64)
        ensures
            r == self.code_spec(),
    {
        match self {
            CleanupPolicy::Immediate => 0,
            CleanupPolicy::SuspendOnUncleanLoss => 1,
        }
    }
}

/// Where a lease stands.
#[derive(Debug, Clone, Copy, PartialEq, Eq, Structural)]
pub enum LeaseState {
    Issued,
    Reserved,
    Active,
    Suspended,
    Closed,
    Revoked,
    Expired,
}

impl LeaseState {
    /// The number of a state on the wire.
    pub open spec fn code_spec(self) -> u64 {
        match self {
            LeaseState::Issued => 1,
            LeaseState::Reserved => 2,
            LeaseState::Active => 3,
            LeaseState::Suspended => 4,
            LeaseState::Closed => 5,
            LeaseState::Revoked => 6,
            LeaseState::Expired => 7,
        }
    }

    /// The number of a state on the wire.
    pub fn code(self) -> (r: u64)
        ensures
            r == self.code_spec(),
    {
        match self {
            LeaseState::Issued => 1,
            LeaseState::Reserved => 2,
            LeaseState::Active => 3,
            LeaseState::Suspended => 4,
            LeaseState::Closed => 5,
            LeaseState::Revoked => 6,
            LeaseState::Expired => 7,
        }
    }
}

/// What a controller asks for when it creates a lease.
pub struct SessionLeaseDefinition {
    pub context_id: u64,
    pub lease_id: u64,
    pub activation_verifier: [u8; 32],
    pub activation_timeout_us: u64,
    pub requested_disconnect_grace_us: u64,
    pub cleanup_policy: CleanupPolicy,
    pub permitted_profiles: Vec<String>,
    pub requested_contract: ResourceContract,
}

/// The protocol's state machine of one lease.
#[verifier::external_type_specification]
#[verifier::external_body]
pub struct ExLeaseMachine(vivid_protocol::lease::LeaseMachine);

/// One attempt to activate or resume a lease.
pub struct AttemptView {
    pub id: Seq<u8>,
    pub client_nonce: Seq<u8>,
    pub hello_hash: Seq<u8>,
    pub session_id: u64,
    pub server_nonce: Seq<u8>,
    pub welcome: Seq<u8>,
    pub transport_live: bool,
    pub post_hello_admitted: bool,
    pub resume_from: Option<u64>,
}

/// What a lease machine holds, as far as this library reads it.
pub struct MachineView {
    pub state: LeaseState,
    pub revision: u64,
    pub resume_generation: u64,
    pub cleanup_policy: CleanupPolicy,
    pub disconnect_grace_us: u64,
    pub session_id: Option<u64>,
    pub fingerprint: Option<Seq<u8>>,
    pub attempt: Option<AttemptView>,
}

/// What a lease machine holds.
pub uninterp spec fn machine_view(machine: LeaseMachine) -> MachineView;

/// `vivid_protocol::lease::LeaseMachine::new`: issued, at revision one, never resumed.
#[verifier::external_body]
fn new_machine(cleanup_policy: CleanupPolicy, disconnect_grace_us: u64) -> (r: LeaseMachine)
    ensures
        machine_view(r) == (MachineView {
            state: LeaseState::Issued,
            revision: 1,
            resume_generation: 0,
            cleanup_policy,
            disconnect_grace_us,
            session_id: None,
            fingerprint: None,
            attempt: None,
        }),
{
    let policy = match cleanup_policy {
        CleanupPolicy::Immediate => vivid_protocol::lease::CleanupPolicy::Immediate,
        CleanupPolicy::SuspendOnUncleanLoss => vivid_protocol::lease::CleanupPolicy::SuspendOnUncleanLoss,
    };
    LeaseMachine::new(policy, disconnect_grace_us)
}

/// `vivid_protocol::lease::LeaseMachine::state`: the state it holds.
#[verifier::external_body]
fn machine_state(machine: &LeaseMachine) -> (r: LeaseState)
    ensures
        r == machine_view(*machine).state,
{
    match machine.state() {
        vivid_protocol::lease::LeaseState::Issued => LeaseState::Issued,
        vivid_protocol::lease::LeaseState::Reserved => LeaseState::Reserved,
        vivid_protocol::lease::LeaseState::Active => LeaseState::Active,
        vivid_protocol::lease::LeaseState::Suspended => LeaseState::Suspended,
        vivid_protocol::lease::LeaseState::Closed => LeaseState::Closed,
        vivid_protocol::lease::LeaseState::Revoked => LeaseState::Revoked,
        vivid_protocol::lease::LeaseState::Expired => LeaseState::Expired,
    }
}

/// `vivid_protocol::lease::LeaseMachine::revision`: the revision it holds.
#[verifier::external_body]
fn machine_revision(machine: &LeaseMachine) -> (r: u64)
    ensures
        r == machine_view(*machine).revision,
{
    machine.revision()
}

/// `vivid_protocol::lease::LeaseMachine::resume_generation`: the generation it holds.
#[verifier::external_body]
fn machine_generation(machine: &LeaseMachine) -> (r: u64)
    ensures
        r == machine_view(*machine).resume_generation,
{
    machine.resume_generation().get()
}

/// The state the loss of its transport leaves a lease in.
pub open spec fn lost_state(machine: MachineView, clean: bool) -> LeaseState {
    if !clean && (machine.state is Reserved || (machine.attempt matches Some(attempt)
        && !attempt.post_hello_admitted)) {
        machine.state
    } else if clean || machine.cleanup_policy is Immediate || machine.disconnect_grace_us == 0 {
        LeaseState::Closed
    } else {
        LeaseState::Suspended
    }
}

/// Whether a lease has a transport to lose.
pub open spec fn has_transport(machine: MachineView) -> bool {
    machine.state is Reserved || machine.state is Active
}

/// Whether the loss of its transport moves a lease to another state.
pub open spec fn loss_moves(machine: MachineView, clean: bool) -> bool {
    has_transport(machine) && lost_state(machine, clean) != machine.state
}

/// Whether a lease takes note of the loss of its transport.
pub open spec fn loss_accepted(machine: MachineView, clean: bool) -> bool {
    has_transport(machine) && !(loss_moves(machine, clean) && machine.revision == u64::MAX)
}

/// What the loss of its transport makes of a lease.
pub open spec fn machine_after_loss(machine: MachineView, clean: bool) -> MachineView {
    if !has_transport(machine) {
        machine
    } else if loss_moves(machine, clean) {
        MachineView {
            state: lost_state(machine, clean),
            revision: if machine.revision < u64::MAX {
                (machine.revision + 1) as u64
            } else {
                machine.revision
            },
            session_id: if lost_state(machine, clean) is Closed {
                None
            } else {
                machine.session_id
            },
            fingerprint: if lost_state(machine, clean) is Closed {
                None
            } else {
                machine.fingerprint
            },
            attempt: None,
            ..machine
        }
    } else {
        MachineView {
            attempt: match machine.attempt {
                Some(attempt) => Some(AttemptView { transport_live: false, ..attempt }),
                None => None,
            },
            ..machine
        }
    }
}

/// `vivid_protocol::lease::LeaseMachine::confirm_transport_lost`: refused unless the lease is
/// reserved or active. An unclean loss before any record leaves the attempt open for a retry;
/// otherwise the lease suspends or closes, as its policy says, and its revision rises. An exhausted
/// revision is an error too, after the state has changed.
#[verifier::external_body]
fn machine_lost(machine: &mut LeaseMachine, clean: bool) -> (r: bool)
    ensures
        r == loss_accepted(machine_view(*old(machine)), clean),
        machine_view(*final(machine)) == machine_after_loss(machine_view(*old(machine)), clean),
{
    machine.confirm_transport_lost(clean).is_ok()
}

/// The verifier of an activation secret for a lease.
pub uninterp spec fn activation_verifier_of(lease_id: u64, secret: Seq<u8>) -> Seq<u8>;

/// `vivid_protocol::auth::verify_activation_secret`: whether the verifier is the one that the
/// lease number and the secret give.
#[verifier::external_body]
fn verify_activation_secret(lease_id: u64, secret: &[u8; 32], verifier: &[u8; 32]) -> (r: bool)
    ensures
        r == (activation_verifier_of(lease_id, secret@) == verifier@),
{
    let secret = vivid_protocol::auth::Secret32::new(*secret);
    vivid_protocol::auth::verify_activation_secret(lease_id, &secret, verifier)
}

/// One issued lease.
pub struct Lease {
    pub definition: SessionLeaseDefinition,
    pub machine: LeaseMachine,
    /// Capacity reserved from the owning context, released on final cleanup.
    pub contract: ResourceContract,
    /// Operation classes the child session inherits.
    pub classes: u64,
    /// When an unactivated lease stops being usable.
    pub activation_deadline_us: u64,
    /// When a suspended lease's grace runs out.
    pub grace_deadline_us: Option<u64>,
    /// The child logical session, once one exists.
    pub child: Option<SessionIdentity>,
    /// The lost session's resume key, held until a resumed session is known to have read its
    /// welcome.
    pub resume_key: Option<[u8; 32]>,
    /// The generation that a session is resuming from, until it is known to have read its welcome.
    pub resuming: Option<u64>,
}

/// A moment some time after another, where there is one.
pub open spec fn deadline(now_us: u64, delay_us: u64) -> Option<u64> {
    if now_us + delay_us <= u64::MAX {
        Some((now_us + delay_us) as u64)
    } else {
        None
    }
}

impl Lease {
    /// What the lease's state machine holds.
    pub open spec fn state(&self) -> MachineView {
        machine_view(self.machine)
    }

    /// The session that an activation was given is the one that the lease has.
    pub open spec fn linked(&self) -> bool {
        match self.state().attempt {
            Some(attempt) => attempt.resume_from is None ==> (self.child matches Some(child)
                && child.session_id == attempt.session_id),
            None => true,
        }
    }

    /// A lease nobody has activated yet.
    pub fn new(
        definition: SessionLeaseDefinition,
        contract: ResourceContract,
        classes: u64,
        now_us: u64,
    ) -> (r: Self)
        ensures
            r.definition == definition,
            r.contract == contract,
            r.classes == classes,
            r.activation_deadline_us == after(now_us, definition.activation_timeout_us),
            r.grace_deadline_us is None,
            r.child is None,
            r.resume_key is None,
            r.state() == (MachineView {
                state: LeaseState::Issued,
                revision: 1,
                resume_generation: 0,
                cleanup_policy: definition.cleanup_policy,
                disconnect_grace_us: definition.requested_disconnect_grace_us,
                session_id: None,
                fingerprint: None,
                attempt: None,
            }),
            r.resuming is None,
    {
        let machine = new_machine(
            definition.cleanup_policy,
            definition.requested_disconnect_grace_us,
        );
        let activation_deadline_us = add_delay(now_us, definition.activation_timeout_us);
        Lease {
            definition,
            machine,
            contract,
            classes,
            activation_deadline_us,
            grace_deadline_us: None,
            child: None,
            resume_key: None,
            resuming: None,
        }
    }

    /// Whether a secret activates this lease under a number.
    pub open spec fn matches_secret(&self, lease_id: u64, secret: Seq<u8>) -> bool {
        activation_verifier_of(lease_id, secret) == self.definition.activation_verifier@
    }

    /// Does this activation secret belong to this lease?
    pub fn accepts(&self, lease_id: u64, secret: &[u8; 32]) -> (r: bool)
        ensures
            r == self.matches_secret(lease_id, secret@),
    {
        verify_activation_secret(lease_id, secret, &self.definition.activation_verifier)
    }

    /// Does an unclean loss suspend this lease rather than close it?
    pub fn suspends_on_unclean_loss(&self) -> (r: bool)
        ensures
            r == (self.definition.cleanup_policy is SuspendOnUncleanLoss
                && self.definition.requested_disconnect_grace_us > 0),
    {
        self.definition.cleanup_policy == CleanupPolicy::SuspendOnUncleanLoss
            && self.definition.requested_disconnect_grace_us > 0
    }

    /// Note an unclean loss. Where that suspends the lease, its grace starts and the resume key is
    /// kept.
    pub fn suspend(&mut self, resume_key: [u8; 32], now_us: u64) -> (r: bool)
        ensures
            ({
                let before = old(self).state();
                &&& r == (has_transport(before) && lost_state(before, false) is Suspended
                    && before.revision < u64::MAX)
                &&& final(self).state() == machine_after_loss(before, false)
                &&& r ==> final(self).resume_key == Some(resume_key)
                    && final(self).grace_deadline_us == deadline(
                    now_us,
                    old(self).definition.requested_disconnect_grace_us,
                )
                &&& !r ==> final(self).resume_key == old(self).resume_key
                    && final(self).grace_deadline_us == old(self).grace_deadline_us
                &&& *final(self) == (Lease {
                    machine: final(self).machine,
                    resume_key: final(self).resume_key,
                    grace_deadline_us: final(self).grace_deadline_us,
                    ..*old(self)
                })
            }),
    {
        if !machine_lost(&mut self.machine, false) {
            return false;
        }
        if machine_state(&self.machine) != LeaseState::Suspended {
            return false;
        }
        self.resume_key = Some(resume_key);
        self.grace_deadline_us = now_us.checked_add(
            self.definition.requested_disconnect_grace_us,
        );
        true
    }

    /// Clear the grace and the kept key once the session is live again.
    pub fn resumed(&mut self)
        ensures
            *final(self) == (Lease {
                grace_deadline_us: None,
                resume_key: None,
                resuming: None,
                ..*old(self)
            }),
    {
        self.grace_deadline_us = None;
        self.resume_key = None;
        self.resuming = None;
    }

    /// Whether a lease has run out: nobody activated it, or nobody resumed it, in time.
    pub open spec fn run_out(&self, now_us: u64) -> bool {
        match self.state().state {
            LeaseState::Issued => now_us >= self.activation_deadline_us,
            LeaseState::Suspended => self.grace_deadline_us matches Some(end) && now_us >= end,
            _ => false,
        }
    }

    /// Whether a lease has run out.
    pub fn expired(&self, now_us: u64) -> (r: bool)
        ensures
            r == self.run_out(now_us),
    {
        match machine_state(&self.machine) {
            LeaseState::Issued => now_us >= self.activation_deadline_us,
            LeaseState::Suspended => match self.grace_deadline_us {
                Some(end) => now_us >= end,
                None => false,
            },
            _ => false,
        }
    }

    /// What an issuer is told of a lease that is ready. No secret is in it.
    pub open spec fn ready_view(&self, context_id: u64, lease_id: u64) -> Seq<(u64, ValueView)> {
        seq![
            (0u64, ValueView::Unsigned(context_id)),
            (1u64, ValueView::Unsigned(lease_id)),
            (2u64, ValueView::Unsigned(self.state().state.code_spec())),
            (3u64, ValueView::Unsigned(self.definition.activation_timeout_us)),
            (4u64, ValueView::Unsigned(self.definition.requested_disconnect_grace_us)),
            (5u64, ValueView::Unsigned(self.definition.cleanup_policy.code_spec())),
            (6u64, ValueView::Array(texts_view(self.definition.permitted_profiles@))),
            (7u64, ValueView::Entries(self.contract.encoded())),
            (8u64, ValueView::Unsigned(self.state().revision)),
        ]
    }

    /// The payload that tells an issuer that a lease is ready.
    pub fn ready_payload(&self, context_id: u64, lease_id: u64) -> (r: Vec<(u64, Value)>)
        ensures
            payload_view(r@) == self.ready_view(context_id, lease_id),
    {
        let payload = vec![
            (0u64, unsigned(context_id)),
            (1u64, unsigned(lease_id)),
            (2u64, unsigned(machine_state(&self.machine).code())),
            (3u64, unsigned(self.definition.activation_timeout_us)),
            (4u64, unsigned(self.definition.requested_disconnect_grace_us)),
            (5u64, unsigned(self.definition.cleanup_policy.code())),
            (6u64, texts(&self.definition.permitted_profiles)),
            (7u64, self.contract.to_value()),
            (8u64, unsigned(machine_revision(&self.machine))),
        ];
        assert(payload_view(payload@) =~= self.ready_view(context_id, lease_id));
        payload
    }

    /// How long a suspended lease may still be resumed.
    pub open spec fn remaining_grace(&self, now_us: u64) -> u64 {
        match self.grace_deadline_us {
            Some(end) if self.state().state is Suspended && end > now_us => (end - now_us) as u64,
            _ => 0,
        }
    }

    /// What an issuer is told of a lease that changed.
    pub open spec fn changed_view(
        &self,
        context_id: u64,
        lease_id: u64,
        reason: u64,
        now_us: u64,
    ) -> Seq<(u64, ValueView)> {
        change_fields(context_id, lease_id, self.state(), reason, self.remaining_grace(now_us))
    }

    /// The payload that tells an issuer that a lease changed.
    pub fn changed_payload(&self, context_id: u64, lease_id: u64, reason: u64, now_us: u64) -> (r:
        Vec<(u64, Value)>)
        ensures
            payload_view(r@) == self.changed_view(context_id, lease_id, reason, now_us),
    {
        let state = machine_state(&self.machine);
        let remaining: u64 = match self.grace_deadline_us {
            Some(end) => if state == LeaseState::Suspended && end > now_us {
                end - now_us
            } else {
                0
            },
            None => 0,
        };
        let payload = vec![
            (0u64, unsigned(context_id)),
            (1u64, unsigned(lease_id)),
            (2u64, unsigned(state.code())),
            (3u64, unsigned(machine_revision(&self.machine))),
            (4u64, unsigned(machine_generation(&self.machine))),
            (5u64, unsigned(reason)),
            (6u64, unsigned(remaining)),
        ];
        assert(payload_view(payload@) =~= self.changed_view(context_id, lease_id, reason, now_us));
        payload
    }
}

/// What is said of a change of a lease.
pub open spec fn change_fields(
    context_id: u64,
    lease_id: u64,
    machine: MachineView,
    reason: u64,
    remaining_grace_us: u64,
) -> Seq<(u64, ValueView)> {
    seq![
        (0u64, ValueView::Unsigned(context_id)),
        (1u64, ValueView::Unsigned(lease_id)),
        (2u64, ValueView::Unsigned(machine.state.code_spec())),
        (3u64, ValueView::Unsigned(machine.revision)),
        (4u64, ValueView::Unsigned(machine.resume_generation)),
        (5u64, ValueView::Unsigned(reason)),
        (6u64, ValueView::Unsigned(remaining_grace_us)),
    ]
}

/// What a list of texts holds.
pub open spec fn texts_view(values: Seq<String>) -> Seq<ValueView> {
    values.map_values(|value: String| ValueView::Text(value@))
}

/// A list of texts as one value.
pub(crate) fn texts(values: &Vec<String>) -> (r: Value)
    ensures
        value_view(r) == ValueView::Array(texts_view(values@)),
{
    let mut items: Vec<Value> = Vec::new();
    let mut index: usize = 0;
    while index < values.len()
        invariant
            index <= values@.len(),
            items@.len() == index,
            forall|i: int|
                0 <= i < index ==> value_view(#[trigger] items@[i]) == ValueView::Text(values@[i]@),
        decreases values@.len() - index,
    {
        items.push(text(values[index].as_str()));
        index = index + 1;
    }
    assert(array_view(items@) =~= texts_view(values@));
    array(items)
}

/// Every lease this presenter has issued, keyed by complete identity.
pub struct LeaseTable {
    pub leases: Table<LeaseKey, Lease>,
}

impl View for LeaseTable {
    type V = Map<LeaseKey, Lease>;

    open spec fn view(&self) -> Map<LeaseKey, Lease> {
        self.leases@
    }
}

/// Whether an activation that names a context and a lease, and brings a secret, is for this lease.
pub open spec fn activates(
    key: LeaseKey,
    lease: Lease,
    context_id: u64,
    lease_id: u64,
    secret: Seq<u8>,
) -> bool {
    key.context_id == context_id && key.lease_id == lease_id && lease.matches_secret(
        lease_id,
        secret,
    )
}

/// Whether a resume that names a context, a lease and a session is for this lease.
pub open spec fn resumes(
    key: LeaseKey,
    lease: Lease,
    context_id: u64,
    lease_id: u64,
    session_id: u64,
) -> bool {
    &&& key.context_id == context_id
    &&& key.lease_id == lease_id
    &&& lease.state().state is Suspended || lease.resuming is Some
    &&& lease.child matches Some(child) && child.session_id == session_id
}

impl LeaseTable {
    /// No key occurs twice.
    pub open spec fn wf(&self) -> bool {
        self.leases.wf()
    }

    /// No leases.
    pub fn new() -> (r: Self)
        ensures
            r.wf(),
            r@ == Map::<LeaseKey, Lease>::empty(),
    {
        LeaseTable { leases: Table::new() }
    }

    /// File a lease under its key.
    pub fn insert(&mut self, key: LeaseKey, lease: Lease)
        requires
            old(self).wf(),
        ensures
            final(self).wf(),
            final(self)@ == old(self)@.insert(key, lease),
    {
        self.leases.insert(key, lease);
    }

    /// Whether a lease is filed under this key.
    pub fn contains(&self, key: &LeaseKey) -> (r: bool)
        requires
            self.wf(),
        ensures
            r == self@.contains_key(*key),
    {
        self.leases.contains(key)
    }

    /// The lease under this key, to be changed in place.
    pub fn get_mut(&mut self, key: &LeaseKey) -> (r: Option<&mut Lease>)
        requires
            old(self).wf(),
        ensures
            final(self).wf(),
            match r {
                Some(lease) => old(self)@.contains_key(*key) && *lease == old(self)@[*key]
                    && final(self)@ == old(self)@.insert(*key, *final(lease)),
                None => !old(self)@.contains_key(*key) && *final(self) == *old(self),
            },
    {
        self.leases.get_mut(key)
    }

    /// Take the lease under this key out.
    pub fn remove(&mut self, key: &LeaseKey) -> (r: Option<Lease>)
        requires
            old(self).wf(),
        ensures
            final(self).wf(),
            final(self)@ == old(self)@.remove(*key),
            r == (if old(self)@.contains_key(*key) {
                Some(old(self)@[*key])
            } else {
                None::<Lease>
            }),
    {
        self.leases.remove(key)
    }

    /// How many leases there are.
    pub fn len(&self) -> (r: usize)
        ensures
            r == self.leases.entries@.len(),
    {
        self.leases.len()
    }

    /// Find a lease that an activation is for.
    ///
    /// A context and a lease number alone are ambiguous, because producers reuse both; the secret is
    /// what tells them apart.
    pub fn find_activation(&self, context_id: u64, lease_id: u64, secret: &[u8; 32]) -> (r: Option<
        LeaseKey,
    >)
        requires
            self.wf(),
        ensures
            match r {
                Some(key) => self@.contains_key(key) && activates(
                    key,
                    self@[key],
                    context_id,
                    lease_id,
                    secret@,
                ),
                None => forall|key: LeaseKey| #[trigger]
                    self@.contains_key(key) ==> !activates(
                        key,
                        self@[key],
                        context_id,
                        lease_id,
                        secret@,
                    ),
            },
    {
        let mut found: Option<LeaseKey> = None;
        let mut index: usize = 0;
        while index < self.leases.entries.len()
            invariant
                self.wf(),
                index <= self.leases.entries@.len(),
                match found {
                    Some(key) => self@.contains_key(key) && activates(
                        key,
                        self@[key],
                        context_id,
                        lease_id,
                        secret@,
                    ),
                    None => forall|i: int|
                        0 <= i < index ==> !activates(
                            (#[trigger] self.leases.entries@[i]).0,
                            self.leases.entries@[i].1,
                            context_id,
                            lease_id,
                            secret@,
                        ),
                },
            decreases self.leases.entries@.len() - index,
        {
            let key = self.leases.entries[index].0;
            proof {
                self.leases.lemma_entry(index as int);
            }
            if key.context_id == context_id && key.lease_id == lease_id {
                let accepted = self.leases.entries[index].1.accepts(lease_id, secret);
                if accepted && found.is_none() {
                    found = Some(key);
                }
            }
            index = index + 1;
        }
        proof {
            if found is None {
                assert forall|key: LeaseKey| #[trigger] self@.contains_key(key) implies !activates(
                    key,
                    self@[key],
                    context_id,
                    lease_id,
                    secret@,
                ) by {
                    let i = choose|i: int|
                        0 <= i < self.leases.entries@.len() && (
                        #[trigger] self.leases.entries@[i]).0 == key;
                    self.leases.lemma_entry(i);
                }
            }
        }
        found
    }

    /// Find a lease that a resume names: a suspended one, or one whose resumed session may not have
    /// read its welcome. Its proof is still to be verified against the
    /// lease's kept resume key.
    pub fn find_resume(&self, context_id: u64, lease_id: u64, session_id: u64) -> (r: Option<LeaseKey>)
        requires
            self.wf(),
        ensures
            match r {
                Some(key) => self@.contains_key(key) && resumes(
                    key,
                    self@[key],
                    context_id,
                    lease_id,
                    session_id,
                ),
                None => forall|key: LeaseKey| #[trigger]
                    self@.contains_key(key) ==> !resumes(
                        key,
                        self@[key],
                        context_id,
                        lease_id,
                        session_id,
                    ),
            },
    {
        let mut index: usize = 0;
        while index < self.leases.entries.len()
            invariant
                self.wf(),
                index <= self.leases.entries@.len(),
                forall|i: int|
                    0 <= i < index ==> !resumes(
                        (#[trigger] self.leases.entries@[i]).0,
                        self.leases.entries@[i].1,
                        context_id,
                        lease_id,
                        session_id,
                    ),
            decreases self.leases.entries@.len() - index,
        {
            let key = self.leases.entries[index].0;
            let lease = &self.leases.entries[index].1;
            proof {
                self.leases.lemma_entry(index as int);
            }
            let named = match lease.child {
                Some(child) => child.session_id == session_id,
                None => false,
            };
            if key.context_id == context_id && key.lease_id == lease_id && named && (machine_state(
                &lease.machine,
            ) == LeaseState::Suspended || lease.resuming.is_some()) {
                return Some(key);
            }
            index = index + 1;
        }
        proof {
            assert forall|key: LeaseKey| #[trigger] self@.contains_key(key) implies !resumes(
                key,
                self@[key],
                context_id,
                lease_id,
                session_id,
            ) by {
                let i = choose|i: int|
                    0 <= i < self.leases.entries@.len() && (#[trigger] self.leases.entries@[i]).0
                        == key;
                self.leases.lemma_entry(i);
            }
        }
        None
    }

    /// Every lease issued by one session, for the cleanup of that session.
    pub fn issued_by(&self, issuer: SessionIdentity) -> (r: Vec<LeaseKey>)
        requires
            self.wf(),
        ensures
            r@.no_duplicates(),
            forall|key: LeaseKey| #[trigger]
                r@.contains(key) <==> self@.contains_key(key) && key.issuer == issuer,
    {
        let mut issued: Vec<LeaseKey> = Vec::new();
        let mut index: usize = 0;
        while index < self.leases.entries.len()
            invariant
                self.wf(),
                index <= self.leases.entries@.len(),
                issued@.no_duplicates(),
                forall|key: LeaseKey| #[trigger]
                    issued@.contains(key) <==> (exists|i: int|
                        0 <= i < index && (#[trigger] self.leases.entries@[i]).0 == key)
                        && key.issuer == issuer,
            decreases self.leases.entries@.len() - index,
        {
            let key = self.leases.entries[index].0;
            let ghost earlier = issued@;
            if key.issuer.same(&issuer) {
                issued.push(key);
                proof {
                    lemma_push_key(earlier, key);
                    assert(!earlier.contains(key));
                }
            }
            proof {
                assert forall|other: LeaseKey| #[trigger] issued@.contains(other) <==> (exists|i: int|
                    0 <= i < index + 1 && (#[trigger] self.leases.entries@[i]).0 == other)
                    && other.issuer == issuer by {
                    if other == key {
                        assert(self.leases.entries@[index as int].0 == other);
                    }
                    if exists|i: int|
                        0 <= i < index && (#[trigger] self.leases.entries@[i]).0 == other {
                        let i = choose|i: int|
                            0 <= i < index && (#[trigger] self.leases.entries@[i]).0 == other;
                        assert(self.leases.entries@[i].0 == other);
                    }
                }
            }
            index = index + 1;
        }
        issued
    }

    /// The leases that have run out.
    pub fn expired(&self, now_us: u64) -> (r: Vec<LeaseKey>)
        requires
            self.wf(),
        ensures
            r@.no_duplicates(),
            forall|key: LeaseKey| #[trigger]
                r@.contains(key) <==> self@.contains_key(key) && self@[key].run_out(now_us),
    {
        let mut gone: Vec<LeaseKey> = Vec::new();
        let mut index: usize = 0;
        while index < self.leases.entries.len()
            invariant
                self.wf(),
                index <= self.leases.entries@.len(),
                gone@.no_duplicates(),
                forall|key: LeaseKey| #[trigger]
                    gone@.contains(key) <==> (exists|i: int|
                        0 <= i < index && (#[trigger] self.leases.entries@[i]).0 == key)
                        && self@[key].run_out(now_us),
            decreases self.leases.entries@.len() - index,
        {
            let key = self.leases.entries[index].0;
            let ghost earlier = gone@;
            proof {
                self.leases.lemma_entry(index as int);
            }
            if self.leases.entries[index].1.expired(now_us) {
                gone.push(key);
                proof {
                    lemma_push_key(earlier, key);
                    assert(!earlier.contains(key));
                }
            }
            proof {
                assert forall|other: LeaseKey| #[trigger] gone@.contains(other) <==> (exists|i: int|
                    0 <= i < index + 1 && (#[trigger] self.leases.entries@[i]).0 == other)
                    && self@[other].run_out(now_us) by {
                    if other == key {
                        assert(self.leases.entries@[index as int].0 == other);
                    }
                    if exists|i: int|
                        0 <= i < index && (#[trigger] self.leases.entries@[i]).0 == other {
                        let i = choose|i: int|
                            0 <= i < index && (#[trigger] self.leases.entries@[i]).0 == other;
                        assert(self.leases.entries@[i].0 == other);
                    }
                }
            }
            index = index + 1;
        }
        gone
    }
}

proof fn lemma_push_key(keys: Seq<LeaseKey>, key: LeaseKey)
    ensures
        forall|other: LeaseKey| #[trigger]
            keys.push(key).contains(other) <==> keys.contains(other) || other == key,
{
    assert forall|other: LeaseKey| #[trigger] keys.push(key).contains(other) <==> keys.contains(
        other,
    ) || other == key by {
        if keys.contains(other) {
            let i = choose|i: int| 0 <= i < keys.len() && keys[i] == other;
            assert(keys.push(key)[i] == other);
        }
        if other == key {
            assert(keys.push(key)[keys.len() as int] == other);
        }
        if keys.push(key).contains(other) {
            let i = choose|i: int| 0 <= i < keys.len() + 1 && keys.push(key)[i] == other;
            if i < keys.len() {
                assert(keys[i] == other);
            }
        }
    }
}


/// A number as eight bytes, the highest first.
#[verifier::opaque]
pub open spec fn be_bytes(number: u64) -> Seq<u8> {
    seq![
        (number / 0x100_0000_0000_0000) as u8,
        (number / 0x1_0000_0000_0000 % 256) as u8,
        (number / 0x100_0000_0000 % 256) as u8,
        (number / 0x1_0000_0000 % 256) as u8,
        (number / 0x100_0000 % 256) as u8,
        (number / 0x1_0000 % 256) as u8,
        (number / 0x100 % 256) as u8,
        (number % 256) as u8,
    ]
}

/// A text with its length in front.
pub open spec fn framed(content: Seq<u8>) -> Seq<u8> {
    be_bytes(content.len() as u64) + content
}

/// Texts with their lengths in front, one after the other.
pub open spec fn framed_all(contents: Seq<Seq<u8>>) -> Seq<u8>
    decreases contents.len(),
{
    if contents.len() == 0 {
        seq![]
    } else {
        framed(contents[0]) + framed_all(contents.drop_first())
    }
}

/// The bytes of a list of texts.
pub open spec fn texts_bytes(values: Seq<String>) -> Seq<Seq<u8>> {
    values.map_values(|value: String| encode_utf8(value@))
}

/// What is hashed for a negotiated profile set.
pub open spec fn fingerprint_input(target_profile: Seq<u8>, accepted: Seq<Seq<u8>>) -> Seq<u8> {
    encode_utf8("vivido-profile-fingerprint-1"@) + (framed(target_profile) + framed_all(accepted))
}

fn feed_number(hasher: &mut Sha256, number: u64)
    ensures
        hashed_bytes(*final(hasher)) == hashed_bytes(*old(hasher)) + be_bytes(number),
{
    let bytes: [u8; 8] = [
        (number / 0x100_0000_0000_0000) as u8,
        (number / 0x1_0000_0000_0000 % 256) as u8,
        (number / 0x100_0000_0000 % 256) as u8,
        (number / 0x1_0000_0000 % 256) as u8,
        (number / 0x100_0000 % 256) as u8,
        (number / 0x1_0000 % 256) as u8,
        (number / 0x100 % 256) as u8,
        (number % 256) as u8,
    ];
    proof {
        reveal(be_bytes);
        assert(bytes@ =~= be_bytes(number));
    }
    feed(hasher, bytes.as_slice());
}

fn feed_text(hasher: &mut Sha256, content: &str)
    ensures
        hashed_bytes(*final(hasher)) == hashed_bytes(*old(hasher)) + framed(encode_utf8(content@)),
{
    let bytes = content.as_bytes();
    let ghost before = hashed_bytes(*hasher);
    feed_number(hasher, bytes.len() as u64);
    feed(hasher, bytes);
    assert(hashed_bytes(*hasher) =~= before + framed(encode_utf8(content@)));
}

proof fn lemma_framed_push(contents: Seq<Seq<u8>>, content: Seq<u8>)
    ensures
        framed_all(contents.push(content)) == framed_all(contents) + framed(content),
    decreases contents.len(),
{
    let longer = contents.push(content);
    if contents.len() == 0 {
        assert(longer.drop_first() =~= Seq::<Seq<u8>>::empty());
        assert(framed_all(longer.drop_first()) == Seq::<u8>::empty());
        assert(framed_all(contents) == Seq::<u8>::empty());
        assert(longer[0] == content);
        assert(framed(content) + Seq::<u8>::empty() =~= Seq::<u8>::empty() + framed(content));
    } else {
        let front = framed(contents[0]);
        let middle = framed_all(contents.drop_first());
        let end = framed(content);
        lemma_framed_push(contents.drop_first(), content);
        assert(longer.drop_first() =~= contents.drop_first().push(content));
        assert(longer[0] == contents[0]);
        assert(front + (middle + end) =~= (front + middle) + end);
    }
}

/// A fingerprint of the negotiated profile set, so that a retried or resumed offer is compared in
/// one step.
pub fn profile_fingerprint(target_profile: &str, accepted: &Vec<String>) -> (r: [u8; 32])
    ensures
        r@ == sha256_of(
            fingerprint_input(encode_utf8(target_profile@), texts_bytes(accepted@)),
        ),
{
    let mut hasher = new_hasher();
    feed(&mut hasher, "vivido-profile-fingerprint-1".as_bytes());
    feed_text(&mut hasher, target_profile);
    let ghost head = encode_utf8("vivido-profile-fingerprint-1"@);
    let ghost target = framed(encode_utf8(target_profile@));
    let ghost all = texts_bytes(accepted@);
    assert(all.take(0) =~= Seq::<Seq<u8>>::empty());
    assert(hashed_bytes(hasher) =~= head + (target + framed_all(all.take(0))));
    let mut index: usize = 0;
    while index < accepted.len()
        invariant
            index <= accepted@.len(),
            all == texts_bytes(accepted@),
            hashed_bytes(hasher) == head + (target + framed_all(all.take(index as int))),
        decreases accepted@.len() - index,
    {
        feed_text(&mut hasher, accepted[index].as_str());
        proof {
            assert(all.take(index + 1) =~= all.take(index as int).push(all[index as int]));
            lemma_framed_push(all.take(index as int), all[index as int]);
            assert(hashed_bytes(hasher) =~= head + (target + framed_all(all.take(index + 1))));
        }
        index = index + 1;
    }
    assert(all.take(index as int) =~= all);
    digest(&hasher)
}

proof fn lemma_be_bytes_injective(left: u64, right: u64)
    requires
        be_bytes(left) == be_bytes(right),
    ensures
        left == right,
{
    reveal(be_bytes);
    let l = be_bytes(left);
    let r = be_bytes(right);
    assert(l[0] == r[0] && l[1] == r[1] && l[2] == r[2] && l[3] == r[3] && l[4] == r[4] && l[5]
        == r[5] && l[6] == r[6] && l[7] == r[7]);
    assert(left == right) by (bit_vector)
        requires
            left / 0x100_0000_0000_0000 == right / 0x100_0000_0000_0000,
            left / 0x1_0000_0000_0000 % 256 == right / 0x1_0000_0000_0000 % 256,
            left / 0x100_0000_0000 % 256 == right / 0x100_0000_0000 % 256,
            left / 0x1_0000_0000 % 256 == right / 0x1_0000_0000 % 256,
            left / 0x100_0000 % 256 == right / 0x100_0000 % 256,
            left / 0x1_0000 % 256 == right / 0x1_0000 % 256,
            left / 0x100 % 256 == right / 0x100 % 256,
            left % 256 == right % 256,
    ;
}

proof fn lemma_be_bytes_length(number: u64)
    ensures
        be_bytes(number).len() == 8,
{
    reveal(be_bytes);
}

proof fn lemma_framed_split(left: Seq<u8>, right: Seq<u8>, after_left: Seq<u8>, after_right: Seq<u8>)
    requires
        left.len() <= u64::MAX,
        right.len() <= u64::MAX,
        framed(left) + after_left == framed(right) + after_right,
    ensures
        left == right,
        after_left == after_right,
{
    let whole = framed(left) + after_left;
    lemma_be_bytes_length(left.len() as u64);
    lemma_be_bytes_length(right.len() as u64);
    assert(whole.take(8) =~= be_bytes(left.len() as u64));
    assert((framed(right) + after_right).take(8) =~= be_bytes(right.len() as u64));
    lemma_be_bytes_injective(left.len() as u64, right.len() as u64);
    let end = 8 + left.len() as int;
    assert(whole.subrange(8, end) =~= left);
    assert((framed(right) + after_right).subrange(8, end) =~= right);
    assert(whole.skip(end) =~= after_left);
    assert((framed(right) + after_right).skip(end) =~= after_right);
}

proof fn lemma_framed_all_injective(left: Seq<Seq<u8>>, right: Seq<Seq<u8>>)
    requires
        forall|i: int| 0 <= i < left.len() ==> (#[trigger] left[i]).len() <= u64::MAX,
        forall|i: int| 0 <= i < right.len() ==> (#[trigger] right[i]).len() <= u64::MAX,
        framed_all(left) == framed_all(right),
    ensures
        left == right,
    decreases left.len(),
{
    if left.len() == 0 {
        if right.len() > 0 {
            lemma_be_bytes_length(right[0].len() as u64);
            assert(framed_all(right).len() >= 8);
        }
        assert(left =~= right);
    } else if right.len() == 0 {
        lemma_be_bytes_length(left[0].len() as u64);
        assert(framed_all(left).len() >= 8);
    } else {
        lemma_framed_split(
            left[0],
            right[0],
            framed_all(left.drop_first()),
            framed_all(right.drop_first()),
        );
        assert forall|i: int| 0 <= i < left.drop_first().len() implies (
        #[trigger] left.drop_first()[i]).len() <= u64::MAX by {
            assert(left.drop_first()[i] == left[i + 1]);
        }
        assert forall|i: int| 0 <= i < right.drop_first().len() implies (
        #[trigger] right.drop_first()[i]).len() <= u64::MAX by {
            assert(right.drop_first()[i] == right[i + 1]);
        }
        lemma_framed_all_injective(left.drop_first(), right.drop_first());
        assert(left =~= seq![left[0]] + left.drop_first());
        assert(right =~= seq![right[0]] + right.drop_first());
    }
}

/// What is hashed for a profile set tells the target and every profile apart: lengths stand in
/// front, so no two different offers give the same input.
pub proof fn a_fingerprint_input_names_one_offer(
    left_target: Seq<u8>,
    left: Seq<Seq<u8>>,
    right_target: Seq<u8>,
    right: Seq<Seq<u8>>,
)
    requires
        left_target.len() <= u64::MAX,
        right_target.len() <= u64::MAX,
        forall|i: int| 0 <= i < left.len() ==> (#[trigger] left[i]).len() <= u64::MAX,
        forall|i: int| 0 <= i < right.len() ==> (#[trigger] right[i]).len() <= u64::MAX,
        fingerprint_input(left_target, left) == fingerprint_input(right_target, right),
    ensures
        left_target == right_target,
        left == right,
{
    let head = encode_utf8("vivido-profile-fingerprint-1"@);
    let n = head.len() as int;
    assert(fingerprint_input(left_target, left).skip(n) =~= framed(left_target) + framed_all(left));
    assert(fingerprint_input(right_target, right).skip(n) =~= framed(right_target) + framed_all(
        right,
    ));
    lemma_framed_split(left_target, right_target, framed_all(left), framed_all(right));
    lemma_framed_all_injective(left, right);
}

/// The reply that announces a lease carries no secret: no byte string is in it.
pub proof fn a_ready_lease_carries_no_bytes(lease: Lease, context_id: u64, lease_id: u64, i: int)
    requires
        0 <= i < lease.ready_view(context_id, lease_id).len(),
    ensures
        !(lease.ready_view(context_id, lease_id)[i].1 is Bytes),
        lease.ready_view(context_id, lease_id)[i].1 matches ValueView::Array(items) ==> forall|j: int|
            0 <= j < items.len() ==> !((#[trigger] items[j]) is Bytes),
        lease.ready_view(context_id, lease_id)[i].1 matches ValueView::Entries(entries) ==> forall|
            j: int,
        |
            0 <= j < entries.len() ==> !((#[trigger] entries[j]).1 is Bytes),
{
}

/// An unclean loss before any record leaves the lease as it was, so that the exact attempt can be
/// retried; after a record it suspends a lease that has a grace, and closes one that has none.
pub proof fn an_unclean_loss_suspends_only_what_was_used(machine: MachineView)
    requires
        machine.state is Active,
        machine.attempt is Some,
    ensures
        !machine.attempt.unwrap().post_hello_admitted ==> lost_state(machine, false)
            == machine.state,
        machine.attempt.unwrap().post_hello_admitted && machine.cleanup_policy is SuspendOnUncleanLoss
            && machine.disconnect_grace_us > 0 ==> lost_state(machine, false) is Suspended,
        machine.attempt.unwrap().post_hello_admitted && (machine.cleanup_policy is Immediate
            || machine.disconnect_grace_us == 0) ==> lost_state(machine, false) is Closed,
        lost_state(machine, true) is Closed,
{
}

/// What a session brings to activate or resume a lease.
pub struct AttemptRequest {
    pub attempt_id: [u8; 16],
    pub client_nonce: [u8; 32],
    pub hello: Vec<u8>,
    pub fingerprint: [u8; 32],
    pub session_id: u64,
    pub server_nonce: [u8; 32],
    pub welcome: Vec<u8>,
}

/// What was decided on an attempt: the session, the nonce and the welcome it gets.
pub struct Decision {
    pub session_id: u64,
    pub server_nonce: [u8; 32],
    pub welcome: Vec<u8>,
}

/// What a decision holds.
pub struct DecisionView {
    pub session_id: u64,
    pub server_nonce: Seq<u8>,
    pub welcome: Seq<u8>,
}

impl View for Decision {
    type V = DecisionView;

    open spec fn view(&self) -> DecisionView {
        DecisionView {
            session_id: self.session_id,
            server_nonce: self.server_nonce@,
            welcome: self.welcome@,
        }
    }
}

/// The attempt that a request starts.
pub open spec fn fresh_attempt(request: AttemptRequest, resume_from: Option<u64>) -> AttemptView {
    AttemptView {
        id: request.attempt_id@,
        client_nonce: request.client_nonce@,
        hello_hash: sha256_of(request.hello@),
        session_id: request.session_id,
        server_nonce: request.server_nonce@,
        welcome: request.welcome@,
        transport_live: true,
        post_hello_admitted: false,
        resume_from,
    }
}

/// What a fresh attempt is given.
pub open spec fn fresh_decision(request: AttemptRequest) -> DecisionView {
    DecisionView {
        session_id: request.session_id,
        server_nonce: request.server_nonce@,
        welcome: request.welcome@,
    }
}

/// Whether a request repeats an attempt exactly.
pub open spec fn repeats(attempt: AttemptView, request: AttemptRequest) -> bool {
    attempt.id == request.attempt_id@ && attempt.client_nonce == request.client_nonce@
        && attempt.hello_hash == sha256_of(request.hello@)
}

/// A lease whose attempt is repeated: the attempt has a transport again and is given what it was
/// given first.
pub open spec fn replayed(machine: MachineView, request: AttemptRequest) -> (
    MachineView,
    Option<DecisionView>,
) {
    match machine.attempt {
        Some(attempt) => if repeats(attempt, request) {
            (
                MachineView {
                    attempt: Some(AttemptView { transport_live: true, ..attempt }),
                    ..machine
                },
                Some(
                    DecisionView {
                        session_id: attempt.session_id,
                        server_nonce: attempt.server_nonce,
                        welcome: attempt.welcome,
                    },
                ),
            )
        } else {
            (machine, None)
        },
        None => (machine, None),
    }
}

/// What an activation makes of a lease, and what it is given.
pub open spec fn activated(machine: MachineView, request: AttemptRequest) -> (
    MachineView,
    Option<DecisionView>,
) {
    if request.session_id == 0 || (machine.attempt matches Some(attempt) && attempt.resume_from is Some) {
        (machine, None)
    } else {
        match machine.state {
            LeaseState::Issued => if machine.revision == u64::MAX {
                (MachineView { state: LeaseState::Reserved, ..machine }, None)
            } else {
                (
                    MachineView {
                        state: LeaseState::Reserved,
                        revision: (machine.revision + 1) as u64,
                        session_id: Some(request.session_id),
                        fingerprint: Some(request.fingerprint@),
                        attempt: Some(fresh_attempt(request, None)),
                        ..machine
                    },
                    Some(fresh_decision(request)),
                )
            },
            LeaseState::Reserved => if machine.fingerprint == Some(request.fingerprint@) {
                replayed(machine, request)
            } else {
                (machine, None)
            },
            LeaseState::Active => if machine.fingerprint == Some(request.fingerprint@)
                && (machine.attempt matches Some(attempt) && !attempt.transport_live
                && !attempt.post_hello_admitted) {
                replayed(machine, request)
            } else {
                (machine, None)
            },
            _ => (machine, None),
        }
    }
}

/// `vivid_protocol::lease::LeaseMachine::begin_activation`: an issued lease is reserved for the
/// attempt; a reserved one, or an active one whose transport was lost before any record, takes an
/// exact repetition of its attempt; everything else is refused.
#[verifier::external_body]
fn machine_activate(machine: &mut LeaseMachine, request: &AttemptRequest) -> (r: Option<Decision>)
    ensures
        machine_view(*final(machine)) == activated(machine_view(*old(machine)), *request).0,
        match r {
            Some(decision) => activated(machine_view(*old(machine)), *request).1 == Some(decision@),
            None => activated(machine_view(*old(machine)), *request).1 is None,
        },
{
    let decision = machine.begin_activation(request.attempt_id, request.client_nonce, &request.hello,
        request.fingerprint, request.session_id, request.server_nonce, request.welcome.clone()).ok()?;
    let (session_id, server_nonce, welcome) = match decision {
        vivid_protocol::lease::AttemptDecision::Fresh { session_id, server_nonce, welcome } => (session_id, server_nonce, welcome),
        vivid_protocol::lease::AttemptDecision::ExactReplay { session_id, server_nonce, welcome } => (session_id, server_nonce, welcome),
    };
    Some(Decision { session_id, server_nonce, welcome })
}

/// What a resume makes of a lease, and what it is given.
pub open spec fn resume_answer(machine: MachineView, generation: u64, request: AttemptRequest) -> (
    MachineView,
    Option<DecisionView>,
) {
    let named = machine.fingerprint == Some(request.fingerprint@) && machine.session_id == Some(
        request.session_id,
    );
    if machine.state is Reserved || machine.state is Active {
        if named && (machine.attempt matches Some(attempt) && attempt.resume_from == Some(generation)
            && !attempt.post_hello_admitted && (machine.state is Reserved
            || !attempt.transport_live)) {
            replayed(machine, request)
        } else {
            (machine, None)
        }
    } else if !(machine.state is Suspended) || generation != machine.resume_generation || !named
        || machine.revision == u64::MAX || machine.resume_generation == u64::MAX {
        (machine, None)
    } else {
        (
            MachineView {
                state: LeaseState::Reserved,
                revision: (machine.revision + 1) as u64,
                resume_generation: (machine.resume_generation + 1) as u64,
                attempt: Some(fresh_attempt(request, Some(generation))),
                ..machine
            },
            Some(fresh_decision(request)),
        )
    }
}

/// `vivid_protocol::lease::LeaseMachine::begin_resume`: a suspended lease of this generation, session
/// and profile is reserved for the attempt and moves to the next generation; one that is resuming
/// from this generation and has admitted no record takes an exact repetition of its attempt;
/// everything else is refused.
#[verifier::external_body]
fn machine_resume(machine: &mut LeaseMachine, generation: u64, request: &AttemptRequest) -> (r: Option<
    Decision,
>)
    ensures
        machine_view(*final(machine)) == resume_answer(
            machine_view(*old(machine)),
            generation,
            *request,
        ).0,
        match r {
            Some(decision) => resume_answer(machine_view(*old(machine)), generation, *request).1
                == Some(decision@),
            None => resume_answer(machine_view(*old(machine)), generation, *request).1 is None,
        },
{
    let decision = machine.begin_resume(vivid_protocol::revision::ResumeGeneration::new(generation),
        request.attempt_id, request.client_nonce, &request.hello, request.fingerprint,
        request.session_id, request.server_nonce, request.welcome.clone()).ok()?;
    let (session_id, server_nonce, welcome) = match decision {
        vivid_protocol::lease::AttemptDecision::Fresh { session_id, server_nonce, welcome } => (session_id, server_nonce, welcome),
        vivid_protocol::lease::AttemptDecision::ExactReplay { session_id, server_nonce, welcome } => (session_id, server_nonce, welcome),
    };
    Some(Decision { session_id, server_nonce, welcome })
}

/// What committing to a welcome makes of a lease.
pub open spec fn committed(machine: MachineView) -> MachineView {
    if machine.state is Reserved {
        MachineView {
            state: LeaseState::Active,
            revision: if machine.revision < u64::MAX {
                (machine.revision + 1) as u64
            } else {
                machine.revision
            },
            ..machine
        }
    } else {
        machine
    }
}

/// `vivid_protocol::lease::LeaseMachine::commit_welcome`: a reserved lease becomes active.
#[verifier::external_body]
fn machine_commit(machine: &mut LeaseMachine)
    ensures
        machine_view(*final(machine)) == committed(machine_view(*old(machine))),
{
    machine.commit_welcome().ok();
}

/// What a first record makes of a lease.
pub open spec fn used(machine: MachineView) -> MachineView {
    if machine.state is Active {
        MachineView {
            attempt: match machine.attempt {
                Some(attempt) => Some(AttemptView { post_hello_admitted: true, ..attempt }),
                None => None,
            },
            ..machine
        }
    } else {
        machine
    }
}

/// Whether a lease took note of a record of its session: the session has read its welcome, so its
/// attempt cannot be repeated and a kept key is no longer needed.
pub open spec fn lease_used(before: Lease, after: Lease) -> bool {
    &&& after.state() == used(before.state())
    &&& after == (Lease {
        machine: after.machine,
        grace_deadline_us: if before.resuming is Some {
            None
        } else {
            before.grace_deadline_us
        },
        resume_key: if before.resuming is Some {
            None
        } else {
            before.resume_key
        },
        resuming: None,
        ..before
    })
}

/// `vivid_protocol::lease::LeaseMachine::admit_post_hello`: the attempt of an active lease has
/// admitted a record.
#[verifier::external_body]
fn machine_used(machine: &mut LeaseMachine)
    ensures
        machine_view(*final(machine)) == used(machine_view(*old(machine))),
{
    machine.admit_post_hello().ok();
}

/// What revoking makes of a lease.
pub open spec fn machine_revoked(machine: MachineView) -> MachineView {
    match machine.state {
        LeaseState::Closed | LeaseState::Revoked | LeaseState::Expired => machine,
        _ => MachineView {
            state: LeaseState::Revoked,
            revision: if machine.revision < u64::MAX {
                (machine.revision + 1) as u64
            } else {
                machine.revision
            },
            session_id: None,
            fingerprint: None,
            attempt: None,
            ..machine
        },
    }
}

/// `vivid_protocol::lease::LeaseMachine::revoke`: a lease that has not ended is revoked.
#[verifier::external_body]
fn machine_revoke(machine: &mut LeaseMachine)
    ensures
        machine_view(*final(machine)) == machine_revoked(machine_view(*old(machine))),
{
    machine.revoke().ok();
}

impl Lease {
    /// Activate the lease for an attempt, or repeat what the attempt was given. The child session is
    /// the one that was decided on.
    pub fn activate(&mut self, request: &AttemptRequest) -> (r: Option<Decision>)
        ensures
            ({
                let (machine, decision) = activated(old(self).state(), *request);
                &&& match r {
                    Some(given) => decision == Some(given@),
                    None => decision is None,
                }
                &&& final(self).state() == (if decision is Some {
                    committed(machine)
                } else {
                    machine
                })
                &&& *final(self) == (Lease { machine: final(self).machine, ..*old(self) })
            }),
    {
        let decision = machine_activate(&mut self.machine, request);
        if decision.is_some() {
            machine_commit(&mut self.machine);
        }
        decision
    }

    /// Resume the lease for an attempt, or repeat what the attempt was given. The kept key stays
    /// until the session is known to have read its welcome.
    pub fn resume(&mut self, generation: u64, request: &AttemptRequest) -> (r: Option<Decision>)
        ensures
            ({
                let (machine, decision) = resume_answer(old(self).state(), generation, *request);
                &&& match r {
                    Some(given) => decision == Some(given@),
                    None => decision is None,
                }
                &&& final(self).state() == (if decision is Some {
                    committed(machine)
                } else {
                    machine
                })
                &&& *final(self) == (Lease {
                    machine: final(self).machine,
                    grace_deadline_us: if decision is Some {
                        None
                    } else {
                        old(self).grace_deadline_us
                    },
                    resuming: if decision is Some {
                        Some(generation)
                    } else {
                        old(self).resuming
                    },
                    ..*old(self)
                })
            }),
    {
        let decision = machine_resume(&mut self.machine, generation, request);
        if decision.is_some() {
            machine_commit(&mut self.machine);
            self.grace_deadline_us = None;
            self.resuming = Some(generation);
        }
        decision
    }

    /// The generation that a resume has to name.
    pub open spec fn resumable_generation(&self) -> u64 {
        match self.resuming {
            Some(generation) => generation,
            None => self.state().resume_generation,
        }
    }

    /// The generation that a resume has to name: the one that is being resumed from, else the
    /// current one.
    pub fn resume_generation(&self) -> (r: u64)
        ensures
            r == self.resumable_generation(),
    {
        match self.resuming {
            Some(generation) => generation,
            None => machine_generation(&self.machine),
        }
    }

    /// The generation of the session's keys.
    pub fn current_generation(&self) -> (r: u64)
        ensures
            r == self.state().resume_generation,
    {
        machine_generation(&self.machine)
    }

    /// The session sent a record: it has read its welcome, so the attempt cannot be repeated and a
    /// kept key is no longer needed.
    pub fn admit_post_hello(&mut self)
        ensures
            lease_used(*old(self), *final(self)),
    {
        machine_used(&mut self.machine);
        if self.resuming.is_some() {
            self.resumed();
        }
    }

    /// Revoke the lease.
    pub fn revoke(&mut self)
        ensures
            final(self).state() == machine_revoked(old(self).state()),
            *final(self) == (Lease { machine: final(self).machine, ..*old(self) }),
    {
        machine_revoke(&mut self.machine);
    }

    /// Note the loss of the session's transport. Whether the lease stays: its attempt may still be
    /// repeated, or the lease is suspended.
    pub fn lost(&mut self, resume_key: [u8; 32], now_us: u64) -> (r: bool)
        ensures
            ({
                let before = old(self).state();
                let moved = has_transport(before) && lost_state(before, false) is Suspended
                    && before.revision < u64::MAX;
                &&& final(self).state() == machine_after_loss(before, false)
                &&& r == (has_transport(before) && !(lost_state(before, false) is Closed)
                    && !(lost_state(before, false) is Suspended && before.revision == u64::MAX))
                &&& *final(self) == (Lease {
                    machine: final(self).machine,
                    resume_key: if moved {
                        Some(resume_key)
                    } else {
                        old(self).resume_key
                    },
                    grace_deadline_us: if moved {
                        deadline(now_us, old(self).definition.requested_disconnect_grace_us)
                    } else {
                        old(self).grace_deadline_us
                    },
                    ..*old(self)
                })
            }),
    {
        let ghost before = self.state();
        if !machine_lost(&mut self.machine, false) {
            return false;
        }
        match machine_state(&self.machine) {
            LeaseState::Closed => false,
            LeaseState::Suspended => {
                self.resume_key = Some(resume_key);
                self.grace_deadline_us = now_us.checked_add(
                    self.definition.requested_disconnect_grace_us,
                );
                true
            },
            _ => true,
        }
    }

    /// Whether the lease is suspended.
    pub fn suspended(&self) -> (r: bool)
        ensures
            r == (self.state().state is Suspended),
    {
        machine_state(&self.machine) == LeaseState::Suspended
    }
}

/// When a lease needs its issuer's attention next.
pub open spec fn lease_deadline(lease: Lease) -> Option<u64> {
    match lease.state().state {
        LeaseState::Issued => Some(lease.activation_deadline_us),
        LeaseState::Suspended => lease.grace_deadline_us,
        _ => None,
    }
}

impl LeaseTable {
    /// When the first of an issuer's leases runs out.
    pub fn next_deadline(&self, issuer: SessionIdentity) -> (r: Option<u64>)
        requires
            self.wf(),
        ensures
            match r {
                Some(end) => {
                    &&& exists|key: LeaseKey| #[trigger]
                        self@.contains_key(key) && key.issuer == issuer && lease_deadline(self@[key])
                            == Some(end)
                    &&& forall|key: LeaseKey| #[trigger]
                        self@.contains_key(key) && key.issuer == issuer ==> (lease_deadline(
                            self@[key],
                        ) matches Some(other) ==> end <= other)
                },
                None => forall|key: LeaseKey| #[trigger]
                    self@.contains_key(key) && key.issuer == issuer ==> lease_deadline(self@[key])
                        is None,
            },
    {
        let mut first: Option<u64> = None;
        let mut index: usize = 0;
        while index < self.leases.entries.len()
            invariant
                self.wf(),
                index <= self.leases.entries@.len(),
                first matches Some(end) ==> exists|key: LeaseKey| #[trigger]
                    self@.contains_key(key) && key.issuer == issuer && lease_deadline(self@[key])
                        == Some(end),
                forall|i: int|
                    0 <= i < index && (#[trigger] self.leases.entries@[i]).0.issuer == issuer ==> (
                    lease_deadline(self.leases.entries@[i].1) matches Some(other) ==> (
                    first matches Some(end) && end <= other)),
            decreases self.leases.entries@.len() - index,
        {
            let lease = &self.leases.entries[index].1;
            proof {
                self.leases.lemma_entry(index as int);
            }
            if self.leases.entries[index].0.issuer.same(&issuer) {
                let end = match machine_state(&lease.machine) {
                    LeaseState::Issued => Some(lease.activation_deadline_us),
                    LeaseState::Suspended => lease.grace_deadline_us,
                    _ => None,
                };
                let ghost key = self.leases.entries@[index as int].0;
                if let Some(end) = end {
                    assert(self@.contains_key(key) && lease_deadline(self@[key]) == Some(end));
                    first = match first {
                        Some(earlier) => if earlier <= end {
                            Some(earlier)
                        } else {
                            Some(end)
                        },
                        None => Some(end),
                    };
                }
            }
            index = index + 1;
        }
        proof {
            assert forall|key: LeaseKey| #[trigger]
                self@.contains_key(key) && key.issuer == issuer implies (lease_deadline(
                self@[key],
            ) matches Some(other) ==> (first matches Some(end) && end <= other)) by {
                let i = choose|i: int|
                    0 <= i < self.leases.entries@.len() && (#[trigger] self.leases.entries@[i]).0
                        == key;
                self.leases.lemma_entry(i);
            }
        }
        first
    }
}

/// An attempt that is repeated exactly before any record is given exactly what it was given first.
pub proof fn a_lost_welcome_is_repeated_exactly(machine: MachineView, request: AttemptRequest)
    requires
        activated(machine, request).1 is Some,
        machine.state is Issued,
    ensures
        ({
            let first = activated(machine, request);
            let lost = machine_after_loss(committed(first.0), false);
            activated(lost, request).1 == first.1
        }),
{
}

/// A session that sent a record cannot be activated again: recovery needs its resume key.
pub proof fn a_used_activation_cannot_be_repeated(machine: MachineView, request: AttemptRequest)
    requires
        machine.state is Active,
    ensures
        activated(used(machine), request).1 is None,
{
}

/// A resume whose welcome was lost is repeated exactly, from the same generation.
pub proof fn a_lost_resume_is_repeated_exactly(
    machine: MachineView,
    generation: u64,
    request: AttemptRequest,
)
    requires
        resume_answer(machine, generation, request).1 is Some,
        machine.state is Suspended,
    ensures
        ({
            let first = resume_answer(machine, generation, request);
            let lost = machine_after_loss(committed(first.0), false);
            resume_answer(lost, generation, request).1 == first.1
        }),
{
}

/// A resume that was used cannot be replayed.
pub proof fn a_consumed_resume_is_not_repeated(
    machine: MachineView,
    generation: u64,
    request: AttemptRequest,
)
    requires
        machine.state is Active,
    ensures
        resume_answer(used(machine), generation, request).1 is None,
{
}

/// States and policies go by the numbers of the protocol.
pub proof fn states_and_policies_go_by_their_numbers(state: LeaseState, policy: CleanupPolicy)
    ensures
        state is Issued <==> state.code_spec() == 1,
        state is Reserved <==> state.code_spec() == 2,
        state is Active <==> state.code_spec() == 3,
        state is Suspended <==> state.code_spec() == 4,
        state is Closed <==> state.code_spec() == 5,
        state is Revoked <==> state.code_spec() == 6,
        state is Expired <==> state.code_spec() == 7,
        policy is Immediate <==> policy.code_spec() == 0,
        policy is SuspendOnUncleanLoss <==> policy.code_spec() == 1,
{
}

/// A lease runs out when nobody activated it in time, or nobody resumed it in time; one that is in
/// use, and one that is over, does not. Once it has run out it stays so until something happens to
/// it.
pub proof fn a_lease_runs_out_while_nobody_uses_it(
    lease: &Lease,
    earlier_us: u64,
    later_us: u64,
    earlier: bool,
    later: bool,
)
    requires
        earlier_us <= later_us,
        call_ensures(Lease::expired, (lease, earlier_us), earlier),
        call_ensures(Lease::expired, (lease, later_us), later),
    ensures
        earlier ==> later,
        later ==> lease.state().state is Issued || lease.state().state is Suspended,
        lease.state().state is Issued ==> (later <==> lease.activation_deadline_us <= later_us),
        lease.state().state is Suspended ==> (later <==> (lease.grace_deadline_us matches Some(end)
            && end <= later_us)),
{
}

/// A fresh lease waits to be activated for as long as was asked for, and nobody holds it yet.
pub proof fn a_fresh_lease_waits_to_be_activated(
    definition: SessionLeaseDefinition,
    contract: ResourceContract,
    classes: u64,
    now_us: u64,
    r: Lease,
    expired: bool,
    later_us: u64,
)
    requires
        call_ensures(Lease::new, (definition, contract, classes, now_us), r),
        now_us + definition.activation_timeout_us <= u64::MAX,
        call_ensures(Lease::expired, (&r, later_us), expired),
    ensures
        expired <==> later_us >= now_us + definition.activation_timeout_us,
        r.child is None && r.resume_key is None && r.grace_deadline_us is None,
        r.contract == contract && r.classes == classes,
        r.state().state is Issued && r.state().revision == 1 && r.state().resume_generation == 0,
{
}

/// A lost transport suspends a lease that is meant to be resumed, for as long as was asked for and
/// under the key that was kept; otherwise it is over or goes on unchanged.
pub proof fn a_suspended_lease_can_be_resumed_in_time(
    lease: &mut Lease,
    resume_key: [u8; 32],
    now_us: u64,
    r: bool,
    suspended: bool,
    later_us: u64,
    expired: bool,
)
    requires
        call_ensures(Lease::suspend, (lease, resume_key, now_us), r),
        call_ensures(Lease::suspended, (&*final(lease),), suspended),
        call_ensures(Lease::expired, (&*final(lease), later_us), expired),
        now_us + old(lease).definition.requested_disconnect_grace_us <= u64::MAX,
    ensures
        r ==> suspended && final(lease).resume_key == Some(resume_key) && (expired <==> later_us
            >= now_us + old(lease).definition.requested_disconnect_grace_us),
        r ==> old(lease).state().cleanup_policy is SuspendOnUncleanLoss && old(lease).state().disconnect_grace_us > 0,
        r ==> old(lease).state().state is Active && final(lease).state().revision == old(lease).state().revision + 1,
        !r ==> final(lease).resume_key == old(lease).resume_key,
        final(lease).child == old(lease).child,
{
}

/// A lease suspends only where its policy says so and there is time to resume.
pub proof fn a_lease_suspends_as_its_policy_says(lease: &Lease, r: bool)
    requires
        call_ensures(Lease::suspends_on_unclean_loss, (lease,), r),
    ensures
        r ==> lease.definition.cleanup_policy is SuspendOnUncleanLoss,
        lease.definition.cleanup_policy is Immediate ==> !r,
        lease.definition.requested_disconnect_grace_us == 0 ==> !r,
        lease.definition.cleanup_policy is SuspendOnUncleanLoss
            && lease.definition.requested_disconnect_grace_us > 0 ==> r,
{
}

/// A lease that is ready is told with what it is for: its names, how long it may wait and be away,
/// what becomes of it, and what it may do.
pub proof fn a_ready_lease_is_told_in_its_place(
    lease: &Lease,
    context_id: u64,
    lease_id: u64,
    r: Vec<(u64, Value)>,
)
    requires
        call_ensures(Lease::ready_payload, (lease, context_id, lease_id), r),
    ensures
        ({
            let fields = payload_view(r@);
            &&& fields.len() == 9
            &&& forall|i: int| 0 <= i < 9 ==> (#[trigger] fields[i]).0 == i
            &&& fields[0].1 == ValueView::Unsigned(context_id)
            &&& fields[1].1 == ValueView::Unsigned(lease_id)
            &&& fields[2].1 == ValueView::Unsigned(lease.state().state.code_spec())
            &&& fields[3].1 == ValueView::Unsigned(lease.definition.activation_timeout_us)
            &&& fields[4].1 == ValueView::Unsigned(lease.definition.requested_disconnect_grace_us)
            &&& fields[5].1 == ValueView::Unsigned(lease.definition.cleanup_policy.code_spec())
            &&& fields[6].1 == ValueView::Array(texts_view(lease.definition.permitted_profiles@))
            &&& fields[7].1 == ValueView::Entries(lease.contract.encoded())
            &&& fields[8].1 == ValueView::Unsigned(lease.state().revision)
        }),
{
}

/// A change of a lease is told with its names, what it is now, why, and how long is left to resume
/// it.
pub proof fn a_changed_lease_is_told_in_its_place(
    lease: &Lease,
    context_id: u64,
    lease_id: u64,
    reason: u64,
    now_us: u64,
    r: Vec<(u64, Value)>,
)
    requires
        call_ensures(Lease::changed_payload, (lease, context_id, lease_id, reason, now_us), r),
    ensures
        ({
            let fields = payload_view(r@);
            &&& fields.len() == 7
            &&& forall|i: int| 0 <= i < 7 ==> (#[trigger] fields[i]).0 == i
            &&& fields[0].1 == ValueView::Unsigned(context_id)
            &&& fields[1].1 == ValueView::Unsigned(lease_id)
            &&& fields[2].1 == ValueView::Unsigned(lease.state().state.code_spec())
            &&& fields[3].1 == ValueView::Unsigned(lease.state().revision)
            &&& fields[4].1 == ValueView::Unsigned(lease.state().resume_generation)
            &&& fields[5].1 == ValueView::Unsigned(reason)
            &&& !(lease.state().state is Suspended) ==> fields[6].1 == ValueView::Unsigned(0)
            &&& lease.state().state is Suspended ==> (lease.grace_deadline_us matches Some(end) ==> (
            now_us <= end ==> fields[6].1 == ValueView::Unsigned((end - now_us) as u64)) && (now_us
                >= end ==> fields[6].1 == ValueView::Unsigned(0)))
        }),
{
}

/// A lease is activated only under its own numbers and with its own secret, and resumed only by the
/// session that held it, while it is suspended or being resumed.
pub proof fn a_lease_is_for_whoever_it_was_made_for(
    key: LeaseKey,
    lease: Lease,
    context_id: u64,
    lease_id: u64,
    secret: Seq<u8>,
    session_id: u64,
)
    ensures
        activates(key, lease, context_id, lease_id, secret) <==> key.context_id == context_id
            && key.lease_id == lease_id && activation_verifier_of(lease_id, secret)
            == lease.definition.activation_verifier@,
        resumes(key, lease, context_id, lease_id, session_id) ==> key.context_id == context_id
            && key.lease_id == lease_id && (lease.child matches Some(child) && child.session_id
            == session_id),
        resumes(key, lease, context_id, lease_id, session_id) && !(lease.state().state is Suspended)
            ==> lease.resuming is Some,
        key.context_id == context_id && key.lease_id == lease_id && lease.state().state is Suspended
            && (lease.child matches Some(child) && child.session_id == session_id) ==> resumes(
            key,
            lease,
            context_id,
            lease_id,
            session_id,
        ),
{
}

/// A resumed lease needs no key and no time any more.
pub proof fn a_resumed_lease_needs_no_key(lease: &mut Lease)
    requires
        call_ensures(Lease::resumed, (lease,), ()),
    ensures
        final(lease).resume_key is None,
        final(lease).grace_deadline_us is None,
        final(lease).resuming is None,
        final(lease).child == old(lease).child,
        final(lease).state() == old(lease).state(),
{
}

/// A revoked lease is over, whatever it was, and nobody holds it; one that was over stays what it
/// was.
pub proof fn a_revoked_lease_is_over(lease: &mut Lease)
    requires
        call_ensures(Lease::revoke, (lease,), ()),
    ensures
        final(lease).state().state is Revoked || final(lease).state().state is Closed || final(lease).state().state is Expired,
        old(lease).state().state is Active || old(lease).state().state is Suspended || old(lease).state().state is Issued || old(lease).state().state is Reserved ==> final(lease).state().state is Revoked && final(lease).state().session_id is None,
{
}

/// An issued lease is activated by whoever asks first, and the answer is the one that was asked with.
/// It is then active, two revisions on.
pub proof fn an_issued_lease_is_activated(machine: MachineView, request: AttemptRequest)
    requires
        machine.state is Issued,
        machine.attempt is None,
        machine.revision < u64::MAX - 1,
        request.session_id != 0,
    ensures
        ({
            let (reserved, decision) = activated(machine, request);
            let active = committed(reserved);
            &&& decision matches Some(given) && given.session_id == request.session_id
                && given.server_nonce == request.server_nonce@ && given.welcome == request.welcome@
            &&& active.state is Active
            &&& active.revision == machine.revision + 2
            &&& active.session_id == Some(request.session_id)
            &&& active.resume_generation == machine.resume_generation
            &&& active.cleanup_policy == machine.cleanup_policy
        }),
{
}

/// A suspended lease is resumed by its own session at its own generation only, and stands one
/// generation further on.
pub proof fn a_resume_moves_one_generation_on(
    machine: MachineView,
    generation: u64,
    request: AttemptRequest,
)
    requires
        machine.state is Suspended,
        machine.revision < u64::MAX - 1,
        machine.resume_generation < u64::MAX,
    ensures
        ({
            let (reserved, decision) = resume_answer(machine, generation, request);
            let active = committed(reserved);
            &&& decision is Some <==> generation == machine.resume_generation && machine.session_id
                == Some(request.session_id) && machine.fingerprint == Some(request.fingerprint@)
            &&& decision is None ==> reserved == machine
            &&& decision matches Some(given) ==> given.session_id == request.session_id
                && given.welcome == request.welcome@ && active.state is Active
                && active.resume_generation == machine.resume_generation + 1 && active.revision
                == machine.revision + 2 && active.session_id == machine.session_id
        }),
{
}

/// A lease that is over is neither activated nor resumed.
pub proof fn a_lease_that_is_over_takes_nobody(
    machine: MachineView,
    generation: u64,
    request: AttemptRequest,
)
    requires
        machine.state is Closed || machine.state is Revoked || machine.state is Expired,
    ensures
        activated(machine, request) == (machine, None::<DecisionView>),
        resume_answer(machine, generation, request) == (machine, None::<DecisionView>),
{
}

/// A lease is accepted by the secret that its verifier was made from.
pub proof fn a_lease_is_accepted_by_its_secret(lease: &Lease, lease_id: u64, secret: &[u8; 32], r: bool)
    requires
        call_ensures(Lease::accepts, (lease, lease_id, secret), r),
    ensures
        r <==> lease.definition.activation_verifier@ == activation_verifier_of(lease_id, secret@),
{
}

/// A lease that is being resumed is resumed from where it was, until the session has read its welcome.
pub proof fn a_lease_is_resumed_from_where_it_was(lease: &Lease, r: u64)
    requires
        call_ensures(Lease::resume_generation, (lease,), r),
    ensures
        lease.resuming is None ==> r == lease.state().resume_generation,
        lease.resuming matches Some(generation) ==> r == generation,
{
}

} // verus!
