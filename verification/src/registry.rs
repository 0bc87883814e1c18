//! Every session of a presenter, and what is shared between them.

use vstd::prelude::*;
use vivid_protocol::cbor::Value;
use vivid_protocol::track::ChannelOpenState;

use crate::actor::posted;
use crate::context::{context_view, released_child, same_but_reserved};
use crate::identity::{same_bytes32, SessionIdentity, TrackIdentity};
use crate::input::InputEvent;
use crate::lease::{
    change_fields, has_transport, lease_used, lost_state, machine_after_loss, machine_revoked, Lease,
    LeaseKey, LeaseTable, REASON_ACTIVATION_EXPIRY, REASON_CLEAN_CLOSE, REASON_GRACE_EXPIRY,
    REASON_PARENT_CLEANUP, REASON_UNCLEAN_LOSS,
};
use crate::number::{sum, unsigned_64};
use crate::protocol::SESSION_LEASE_CHANGED;
use crate::reply::{copy_bytes, envelope, envelope_bytes};
use crate::session::{input_offered, input_revoked, Session};
use crate::table::{without, Table, TableKey};
use crate::value::{payload_view, ValueView};

verus! {

/// Sessions that may exist at once.
pub const MAX_SESSIONS: usize = 16;

/// Connections that may exist at once.
pub const MAX_CONNECTIONS: usize = 64;

/// Connections that may be in their handshake at once. Until a peer has proved who it is, anything
/// that reaches the endpoint can hold a place, so these places are few and their own.
pub const MAX_PENDING_CONNECTIONS: usize = 16;

/// Leases that may exist at once.
pub const MAX_LEASES: usize = 32;

/// Root greetings that are remembered at once.
pub const MAX_ROOT_NONCES: usize = 4096;

/// How long a root greeting is remembered.
pub const ROOT_NONCE_LIFETIME_US: u64 = 300_000_000;

/// The connections that have not authenticated yet, the oldest first, by their number and the handle
/// that shuts them down.
pub struct PendingHandshakes {
    pub next_id: u64,
    pub open: Vec<(u64, u64)>,
}

/// Whether a connection has another number.
pub open spec fn is_other(id: u64) -> spec_fn((u64, u64)) -> bool {
    |entry: (u64, u64)| entry.0 != id
}

/// The connections with another number.
pub open spec fn other_connections(open: Seq<(u64, u64)>, id: u64) -> Seq<(u64, u64)> {
    open.filter(is_other(id))
}

impl PendingHandshakes {
    /// The connections are within their bound.
    pub open spec fn wf(&self) -> bool {
        self.open@.len() <= MAX_PENDING_CONNECTIONS
    }

    /// No connections.
    pub fn new() -> (r: Self)
        ensures
            r.wf(),
            r.next_id == 0,
            r.open@ == Seq::<(u64, u64)>::empty(),
    {
        PendingHandshakes { next_id: 0, open: Vec::new() }
    }

    /// Take a connection in. Where that is one too many the oldest goes, which is shut down: a
    /// producer authenticates within one record, so the oldest is a peer that has said nothing, and
    /// a flood only drives itself out.
    pub fn enter(&mut self, handle: u64) -> (r: (u64, Option<u64>))
        requires
            old(self).wf(),
        ensures
            final(self).wf(),
            r.0 == old(self).next_id,
            final(self).next_id == (if old(self).next_id == u64::MAX {
                0u64
            } else {
                (old(self).next_id + 1) as u64
            }),
            ({
                let all = old(self).open@.push((old(self).next_id, handle));
                if all.len() > MAX_PENDING_CONNECTIONS {
                    r.1 == Some(all[0].1) && final(self).open@ == all.drop_first()
                } else {
                    r.1 is None && final(self).open@ == all
                }
            }),
    {
        let id = self.next_id;
        self.next_id = if id == u64::MAX {
            0
        } else {
            id + 1
        };
        self.open.push((id, handle));
        if self.open.len() > MAX_PENDING_CONNECTIONS {
            let ghost all = self.open@;
            let (_, evicted) = self.open.remove(0);
            assert(self.open@ =~= all.drop_first());
            (id, Some(evicted))
        } else {
            (id, None)
        }
    }

    /// Let a connection go, because it authenticated or ended.
    pub fn release(&mut self, id: u64)
        requires
            old(self).wf(),
        ensures
            final(self).wf(),
            final(self).next_id == old(self).next_id,
            final(self).open@ == other_connections(old(self).open@, id),
    {
        let ghost keeps = is_other(id);
        let ghost before = self.open@;
        let mut rest: Vec<(u64, u64)> = Vec::new();
        let mut index: usize = 0;
        proof {
            reveal(Seq::filter);
            assert(before.take(0).filter(keeps) =~= Seq::<(u64, u64)>::empty());
        }
        while index < self.open.len()
            invariant
                index <= before.len(),
                before == self.open@,
                keeps == is_other(id),
                rest@ == before.take(index as int).filter(keeps),
                rest@.len() <= index,
            decreases before.len() - index,
        {
            let entry = self.open[index];
            proof {
                reveal(Seq::filter);
                assert(before.take(index + 1).drop_last() =~= before.take(index as int));
            }
            if entry.0 != id {
                rest.push(entry);
            }
            index = index + 1;
        }
        assert(before.take(index as int) =~= before);
        self.open = rest;
    }
}

/// The connections of a presenter.
pub struct ConnectionSlots {
    pub active: usize,
}

impl ConnectionSlots {
    /// Claim a place, where one is left.
    pub fn claim(&mut self) -> (r: bool)
        ensures
            r == (old(self).active < MAX_CONNECTIONS),
            final(self).active == (if r {
                old(self).active + 1
            } else {
                old(self).active as int
            }),
    {
        if self.active >= MAX_CONNECTIONS {
            return false;
        }
        self.active = self.active + 1;
        true
    }

    /// Give a place back.
    pub fn release(&mut self)
        ensures
            final(self).active == (if old(self).active == 0 {
                0
            } else {
                old(self).active - 1
            }),
    {
        if self.active > 0 {
            self.active = self.active - 1;
        }
    }
}

/// Whether the window was asked to draw and has not done so yet.
pub struct FrameWake {
    pub pending: bool,
    pub events: u64,
}

impl FrameWake {
    /// Ask the window to draw. Until it does, asking again sends nothing.
    pub fn request(&mut self) -> (r: bool)
        ensures
            r == !old(self).pending,
            final(self).pending,
            final(self).events == (if r {
                unsigned_64(old(self).events + 1)
            } else {
                old(self).events
            }),
    {
        if self.pending {
            return false;
        }
        self.pending = true;
        self.events = sum(self.events, 1);
        true
    }

    /// The window is about to draw what there is.
    pub fn acknowledge(&mut self)
        ensures
            !final(self).pending,
            final(self).events == old(self).events,
    {
        self.pending = false;
    }
}

/// Until the window draws, however often it is asked it is woken once.
pub proof fn requests_are_coalesced(events: u64, requests: nat)
    ensures
        coalesced(FrameWake { pending: false, events }, requests).1 == (if requests == 0 {
            0nat
        } else {
            1
        }),
    decreases requests,
{
    if requests > 0 {
        requests_are_coalesced(events, (requests - 1) as nat);
        lemma_pending(events, (requests - 1) as nat);
    }
}

/// A wake after some requests, and how many of them were sent.
pub open spec fn coalesced(wake: FrameWake, requests: nat) -> (FrameWake, nat)
    decreases requests,
{
    if requests == 0 {
        (wake, 0)
    } else {
        let (before, sent) = coalesced(wake, (requests - 1) as nat);
        if before.pending {
            (before, sent)
        } else {
            (FrameWake { pending: true, events: unsigned_64(before.events + 1) }, sent + 1)
        }
    }
}

proof fn lemma_pending(events: u64, requests: nat)
    ensures
        coalesced(FrameWake { pending: false, events }, requests).0.pending == (requests > 0),
    decreases requests,
{
    if requests > 0 {
        lemma_pending(events, (requests - 1) as nat);
    }
}

/// The root greetings of the last while, so that none is taken twice.
pub struct RootNonces {
    /// Each greeting's nonce, and until when it is remembered.
    pub entries: Vec<([u8; 32], u64)>,
}

/// The greetings that are still remembered.
pub open spec fn live_nonces(entries: Seq<([u8; 32], u64)>, now_us: u64) -> Seq<([u8; 32], u64)> {
    entries.filter(|entry: ([u8; 32], u64)| entry.1 > now_us)
}

/// Whether a nonce is among these.
pub open spec fn holds_nonce(entries: Seq<([u8; 32], u64)>, nonce: [u8; 32]) -> bool {
    exists|i: int| 0 <= i < entries.len() && (#[trigger] entries[i]).0 == nonce
}

/// What is remembered once a greeting was taken. What is still remembered is never forgotten to make
/// room.
pub open spec fn nonces_after(
    entries: Seq<([u8; 32], u64)>,
    nonce: [u8; 32],
    now_us: u64,
) -> Seq<([u8; 32], u64)> {
    let live = live_nonces(entries, now_us);
    if admits_nonce(entries, nonce, now_us) {
        live.push((nonce, unsigned_64(now_us + ROOT_NONCE_LIFETIME_US)))
    } else {
        live
    }
}

/// Whether a greeting was not seen before, and there is room to remember it.
pub open spec fn admits_nonce(entries: Seq<([u8; 32], u64)>, nonce: [u8; 32], now_us: u64) -> bool {
    let live = live_nonces(entries, now_us);
    !holds_nonce(live, nonce) && live.len() < MAX_ROOT_NONCES
}

impl RootNonces {
    /// The greetings that are still remembered, and whether one is among them.
    fn remembered(&self, nonce: &[u8; 32], now_us: u64) -> (r: (Vec<([u8; 32], u64)>, bool))
        ensures
            r.0@ == live_nonces(self.entries@, now_us),
            r.1 == holds_nonce(r.0@, *nonce),
    {
        let ghost keeps = |entry: ([u8; 32], u64)| entry.1 > now_us;
        let ghost before = self.entries@;
        let mut live: Vec<([u8; 32], u64)> = Vec::new();
        let mut known = false;
        let mut index: usize = 0;
        proof {
            reveal(Seq::filter);
            assert(before.take(0).filter(keeps) =~= Seq::<([u8; 32], u64)>::empty());
        }
        while index < self.entries.len()
            invariant
                index <= before.len(),
                before == self.entries@,
                keeps == (|entry: ([u8; 32], u64)| entry.1 > now_us),
                live@ == before.take(index as int).filter(keeps),
                known == holds_nonce(live@, *nonce),
            decreases before.len() - index,
        {
            let entry = self.entries[index];
            proof {
                reveal(Seq::filter);
                assert(before.take(index + 1).drop_last() =~= before.take(index as int));
            }
            if entry.1 > now_us {
                let same = same_bytes32(&entry.0, nonce);
                let ghost shorter = live@;
                live.push(entry);
                proof {
                    assert(live@[shorter.len() as int] == entry);
                    if holds_nonce(shorter, *nonce) {
                        let i = choose|i: int|
                            0 <= i < shorter.len() && (#[trigger] shorter[i]).0 == *nonce;
                        assert(live@[i].0 == *nonce);
                    }
                    if holds_nonce(live@, *nonce) && !same {
                        let i = choose|i: int|
                            0 <= i < live@.len() && (#[trigger] live@[i]).0 == *nonce;
                        assert(shorter[i].0 == *nonce);
                    }
                }
                known = known || same;
            }
            index = index + 1;
        }
        assert(before.take(index as int) =~= before);
        (live, known)
    }

    /// Whether a greeting was not seen before, and there is room to remember it.
    pub fn admits(&self, nonce: &[u8; 32], now_us: u64) -> (r: bool)
        ensures
            r == admits_nonce(self.entries@, *nonce, now_us),
    {
        let (live, known) = self.remembered(nonce, now_us);
        !known && live.len() < MAX_ROOT_NONCES
    }

    /// Remember a greeting that was taken. Returns whether it was not seen before and there was room.
    pub fn enter(&mut self, nonce: [u8; 32], now_us: u64) -> (r: bool)
        ensures
            r == admits_nonce(old(self).entries@, nonce, now_us),
            final(self).entries@ == nonces_after(old(self).entries@, nonce, now_us),
    {
        let (live, known) = self.remembered(&nonce, now_us);
        self.entries = live;
        if known || self.entries.len() >= MAX_ROOT_NONCES {
            return false;
        }
        self.entries.push((nonce, sum(now_us, ROOT_NONCE_LIFETIME_US)));
        true
    }
}

/// A greeting that was taken is refused as long as it is remembered.
pub proof fn a_root_greeting_is_taken_once(
    entries: Seq<([u8; 32], u64)>,
    nonce: [u8; 32],
    first_us: u64,
    second_us: u64,
)
    requires
        admits_nonce(entries, nonce, first_us),
        second_us < unsigned_64(first_us + ROOT_NONCE_LIFETIME_US),
    ensures
        !admits_nonce(nonces_after(entries, nonce, first_us), nonce, second_us),
{
    let entry = (nonce, unsigned_64(first_us + ROOT_NONCE_LIFETIME_US));
    let longer = live_nonces(entries, first_us).push(entry);
    let keeps = |entry: ([u8; 32], u64)| entry.1 > second_us;
    reveal(Seq::filter);
    assert(longer.drop_last() =~= live_nonces(entries, first_us));
    let kept = longer.filter(keeps);
    assert(kept == longer.drop_last().filter(keeps).push(entry));
    assert(kept[kept.len() - 1] == entry);
}

/// The numbers that sessions are given, one after the other. After the largest comes zero, which no
/// session can have, and then they come round.
pub struct SessionNumbers {
    pub next: u64,
    /// Whether a number may have been given out before.
    pub repeating: Ghost<bool>,
}

/// The numbers that are left after one was drawn.
pub open spec fn numbers_after(numbers: SessionNumbers) -> SessionNumbers {
    SessionNumbers {
        next: if numbers.next == u64::MAX {
            0
        } else {
            (numbers.next + 1) as u64
        },
        repeating: Ghost(numbers.repeating@ || numbers.next == 0),
    }
}

impl SessionNumbers {
    /// No number was given out yet.
    pub fn new() -> (r: Self)
        ensures
            r == (SessionNumbers { next: 1, repeating: Ghost(false) }),
    {
        SessionNumbers { next: 1, repeating: Ghost(false) }
    }

    /// Draw the next number.
    pub fn draw(&mut self) -> (r: u64)
        ensures
            r == old(self).next,
            *final(self) == numbers_after(*old(self)),
    {
        let number = self.next;
        self.next = if number == u64::MAX {
            0
        } else {
            number + 1
        };
        proof {
            self.repeating@ = self.repeating@ || number == 0;
        }
        number
    }
}

/// Whether no lease has this session.
pub open spec fn childless(leases: Map<LeaseKey, Lease>, session_id: u64) -> bool {
    forall|key: LeaseKey| #[trigger]
        leases.contains_key(key) ==> (leases[key].child matches Some(child) ==> child.session_id
            != session_id)
}

/// Whether the sessions of leases have numbers that were given out, each its own.
pub open spec fn children_numbered(leases: Map<LeaseKey, Lease>, numbers: SessionNumbers) -> bool {
    &&& forall|key: LeaseKey| #[trigger]
        leases.contains_key(key) ==> (leases[key].child matches Some(child) ==> numbers.next == 0
            || child.session_id < numbers.next)
    &&& forall|left: LeaseKey, right: LeaseKey|
        #![trigger leases.contains_key(left), leases.contains_key(right)]
        leases.contains_key(left) && leases.contains_key(right) && left != right ==> (
        leases[left].child matches Some(child) ==> (leases[right].child matches Some(other)
            ==> child.session_id != other.session_id))
}

/// Everything that the sessions of a presenter share.
pub struct Registry {
    pub sessions: Table<u64, Session>,
    /// Which session a tag names, so that a marker finds its session without a search.
    pub by_tag: Table<[u8; 16], u64>,
    pub channel_opens: Table<TrackIdentity, ChannelOpenState>,
    pub leases: LeaseTable,
    pub root_nonces: RootNonces,
    pub numbers: SessionNumbers,
}

/// The tags that are left once a session is gone: its own goes where it still names that session.
pub open spec fn tags_without(registry: Registry, session_id: u64) -> Map<[u8; 16], u64> {
    if registry.sessions@.contains_key(session_id) {
        let tag = registry.sessions@[session_id].session_tag;
        if registry.by_tag@.contains_key(tag) && registry.by_tag@[tag] == session_id {
            registry.by_tag@.remove(tag)
        } else {
            registry.by_tag@
        }
    } else {
        registry.by_tag@
    }
}

/// Whether at most one session changed.
pub open spec fn one_session_changed(before: Map<u64, Session>, after: Map<u64, Session>, id: u64) -> bool {
    &&& after.dom() == before.dom()
    &&& forall|other: u64| #[trigger]
        after.contains_key(other) && other != id ==> after[other] == before[other]
}

/// Whether a session was sent a record of its own accord, where there is such a session.
pub open spec fn told(
    before: Map<u64, Session>,
    after: Map<u64, Session>,
    id: u64,
    record_type: u16,
    object_id: u64,
    payload: Seq<(u64, ValueView)>,
) -> bool {
    &&& one_session_changed(before, after, id)
    &&& before.contains_key(id) ==> {
        &&& after[id] == (Session { egress: after[id].egress, ..before[id] })
        &&& match envelope_bytes(0, payload) {
            Some(body) => posted(before[id].egress, after[id].egress, (record_type, object_id, body)),
            None => after[id].egress == before[id].egress,
        }
    }
}

/// Whether a budget went back to a context of a session, where there is such a session.
pub open spec fn budget_returned(
    before: Map<u64, Session>,
    after: Map<u64, Session>,
    id: u64,
    context_id: u64,
    contract: Seq<u64>,
) -> bool {
    &&& one_session_changed(before, after, id)
    &&& before.contains_key(id) ==> {
        let contexts = before[id].contexts.table@;
        &&& after[id] == (Session { contexts: after[id].contexts, ..before[id] })
        &&& same_but_reserved(
            contexts,
            after[id].contexts.table@,
            context_id,
            released_child(context_view(contexts[context_id].state), contract),
        )
    }
}

/// The sessions that are left once the child of a lease is gone.
pub open spec fn sessions_without_child(registry: Registry, child: Option<SessionIdentity>) -> Map<
    u64,
    Session,
> {
    match child {
        Some(identity) => registry.sessions@.remove(identity.session_id),
        None => registry.sessions@,
    }
}

/// The tags that are left once the child of a lease is gone.
pub open spec fn tags_without_child(registry: Registry, child: Option<SessionIdentity>) -> Map<
    [u8; 16],
    u64,
> {
    match child {
        Some(identity) => tags_without(registry, identity.session_id),
        None => registry.by_tag@,
    }
}

/// Whether a lease was revoked: it and its child are gone, its budget is back with the context that
/// delegated it, and its issuer was told. Everything else is as it was.
pub open spec fn lease_revoked(
    before: Registry,
    after: Registry,
    issuer_id: u64,
    key: LeaseKey,
    reason: u64,
) -> bool {
    if !before.leases@.contains_key(key) {
        after == before
    } else {
        let lease = before.leases@[key];
        &&& after.leases@ == before.leases@.remove(key)
        &&& after.by_tag@ == tags_without_child(before, lease.child)
        &&& after.channel_opens == before.channel_opens
        &&& after.root_nonces == before.root_nonces
        &&& after.numbers == before.numbers
        &&& exists|middle: Map<u64, Session>|
            budget_returned(
                sessions_without_child(before, lease.child),
                middle,
                issuer_id,
                key.context_id,
                lease.contract.values@,
            ) && #[trigger] told(
                middle,
                after.sessions@,
                issuer_id,
                SESSION_LEASE_CHANGED,
                key.lease_id,
                change_fields(
                    key.context_id,
                    key.lease_id,
                    machine_revoked(lease.state()),
                    reason,
                    0,
                ),
            )
    }
}

/// Why a lease is revoked: for the given reason, else because it ran out.
pub open spec fn reason_for(lease: Lease, given: Option<u64>) -> u64 {
    match given {
        Some(reason) => reason,
        None => if lease.grace_deadline_us is Some {
            REASON_GRACE_EXPIRY
        } else {
            REASON_ACTIVATION_EXPIRY
        },
    }
}

/// Whether leases were revoked one after the other.
pub open spec fn leases_revoked(
    before: Registry,
    after: Registry,
    issuer_id: u64,
    keys: Seq<LeaseKey>,
    given: Option<u64>,
) -> bool
    decreases keys.len(),
{
    if keys.len() == 0 {
        after == before
    } else {
        exists|middle: Registry|
            leases_revoked(before, middle, issuer_id, keys.drop_last(), given)
                && #[trigger] lease_revoked(
                middle,
                after,
                issuer_id,
                keys.last(),
                reason_for(middle.leases@[keys.last()], given),
            )
    }
}

/// The child sessions of leases, in order.
pub open spec fn children_of(leases: Map<LeaseKey, Lease>, keys: Seq<LeaseKey>) -> Seq<SessionIdentity>
    decreases keys.len(),
{
    if keys.len() == 0 {
        seq![]
    } else {
        let earlier = children_of(leases, keys.drop_last());
        match leases[keys.last()].child {
            Some(child) => earlier.push(child),
            None => earlier,
        }
    }
}

/// Exactly the leases that satisfy a condition, each once.
pub open spec fn exactly_issued_by(leases: Map<LeaseKey, Lease>, keys: Seq<LeaseKey>, issuer: SessionIdentity) -> bool {
    &&& keys.no_duplicates()
    &&& forall|key: LeaseKey| #[trigger]
        keys.contains(key) <==> leases.contains_key(key) && key.issuer == issuer
}

/// Exactly the leases of an issuer that ran out, each once.
pub open spec fn exactly_run_out(
    leases: Map<LeaseKey, Lease>,
    keys: Seq<LeaseKey>,
    issuer: SessionIdentity,
    now_us: u64,
) -> bool {
    &&& keys.no_duplicates()
    &&& forall|key: LeaseKey| #[trigger]
        keys.contains(key) <==> leases.contains_key(key) && key.issuer == issuer
            && leases[key].run_out(now_us)
}

/// What is left of a session's objects once it ended.
#[derive(Debug, Clone, Copy, PartialEq, Eq, Structural)]
pub enum SessionEnd {
    /// The lease of the session is kept, so its objects are suspended.
    Suspended,
    /// The session said goodbye.
    Detached,
    /// The session is gone without a trace.
    Removed,
}

/// Whether a lease takes the loss of its session and stays.
pub open spec fn survives_loss(lease: Lease) -> bool {
    let machine = lease.state();
    has_transport(machine) && !(lost_state(machine, false) is Closed) && !(lost_state(
        machine,
        false,
    ) is Suspended && machine.revision == u64::MAX)
}

/// Whether the loss of its session suspends a lease.
pub open spec fn suspends(lease: Lease) -> bool {
    let machine = lease.state();
    has_transport(machine) && lost_state(machine, false) is Suspended && machine.revision < u64::MAX
}

/// A lease that took the loss of its session.
pub open spec fn lease_lost(before: Lease, after: Lease, resume_key: [u8; 32], now_us: u64) -> bool {
    &&& after.state() == machine_after_loss(before.state(), false)
    &&& after == (Lease {
        machine: after.machine,
        resume_key: if suspends(before) {
            Some(resume_key)
        } else {
            before.resume_key
        },
        grace_deadline_us: if suspends(before) {
            crate::lease::deadline(now_us, before.definition.requested_disconnect_grace_us)
        } else {
            before.grace_deadline_us
        },
        ..before
    })
}

/// Whether the lease of a lost session took the loss. Its issuer is told where that suspends it.
pub open spec fn loss_noted(
    before: Registry,
    after: Registry,
    key: LeaseKey,
    resume_key: [u8; 32],
    now_us: u64,
) -> bool {
    &&& before.leases@.contains_key(key)
    &&& after.leases@.contains_key(key)
    &&& after.leases@ == before.leases@.insert(key, after.leases@[key])
    &&& lease_lost(before.leases@[key], after.leases@[key], resume_key, now_us)
    &&& after.by_tag == before.by_tag
    &&& after.channel_opens == before.channel_opens
    &&& after.root_nonces == before.root_nonces
    &&& after.numbers == before.numbers
    &&& if suspends(before.leases@[key]) {
        told(
            before.sessions@,
            after.sessions@,
            key.issuer.session_id,
            SESSION_LEASE_CHANGED,
            key.lease_id,
            after.leases@[key].changed_view(
                key.context_id,
                key.lease_id,
                REASON_UNCLEAN_LOSS,
                now_us,
            ),
        )
    } else {
        after.sessions == before.sessions
    }
}

/// Whether a session was taken out, and its tag with it.
pub open spec fn session_removed(before: Registry, after: Registry, session_id: u64) -> bool {
    &&& after.sessions@ == before.sessions@.remove(session_id)
    &&& after.by_tag@ == tags_without(before, session_id)
    &&& after.channel_opens == before.channel_opens
    &&& after.leases == before.leases
    &&& after.root_nonces == before.root_nonces
    &&& after.numbers == before.numbers
}

/// What has to be known of a session to end it. It may be gone from the registry before its
/// connection ends, where the lease it came from was revoked.
#[derive(Debug, Clone, Copy)]
pub struct Departure {
    pub identity: SessionIdentity,
    pub lease: Option<LeaseKey>,
    pub resume_key: [u8; 32],
}

impl Departure {
    /// What has to be known of this session.
    pub fn of(session: &Session) -> (r: Self)
        ensures
            r.identity == session.identity,
            r.lease == session.lease,
            r.resume_key == session.resume_key,
    {
        Departure {
            identity: session.identity,
            lease: session.lease,
            resume_key: session.resume_key,
        }
    }
}

/// The lease that a session has to give back or keep, where its issuer is still there.
pub open spec fn lease_held(registry: Registry, session: Departure) -> Option<LeaseKey> {
    match session.lease {
        Some(key) => if registry.sessions@.contains_key(key.issuer.session_id) {
            Some(key)
        } else {
            None
        },
        None => None,
    }
}

/// Whether a lease outlives its session: the session was lost, and the lease takes that.
pub open spec fn lease_outlives(registry: Registry, session: Departure, clean: bool) -> bool {
    lease_held(registry, session) matches Some(key) && !clean && registry.leases@.contains_key(key)
        && survives_loss(registry.leases@[key])
}

/// Why the lease of a session that ended is revoked.
pub open spec fn closing_reason(clean: bool) -> u64 {
    if clean {
        REASON_CLEAN_CLOSE
    } else {
        REASON_UNCLEAN_LOSS
    }
}

/// What a session that ended leaves, once what it issued is gone.
pub open spec fn closed(
    before: Registry,
    after: Registry,
    session: Departure,
    clean: bool,
    now_us: u64,
    end: SessionEnd,
) -> bool {
    let id = session.identity.session_id;
    match lease_held(before, session) {
        Some(key) => if lease_outlives(before, session, clean) {
            &&& end is Suspended
            &&& exists|middle: Registry| #[trigger]
                loss_noted(before, middle, key, session.resume_key, now_us) && session_removed(
                    middle,
                    after,
                    id,
                )
        } else {
            &&& end == (if clean {
                SessionEnd::Detached
            } else {
                SessionEnd::Removed
            })
            &&& exists|noted: Registry, middle: Registry| #[trigger]
                loss_refused(before, noted, key, clean) && #[trigger] lease_revoked(
                    noted,
                    middle,
                    key.issuer.session_id,
                    key,
                    closing_reason(clean),
                ) && session_removed(middle, after, id)
        },
        None => {
            &&& end == (if clean {
                SessionEnd::Detached
            } else {
                SessionEnd::Removed
            })
            &&& session_removed(before, after, id)
        },
    }
}

/// Whether a lease that does not outlive its session was told of the loss, where there was one.
pub open spec fn loss_refused(before: Registry, after: Registry, key: LeaseKey, clean: bool) -> bool {
    if clean || !before.leases@.contains_key(key) {
        after == before
    } else {
        &&& after.leases@.contains_key(key)
        &&& after.leases@ == before.leases@.insert(key, after.leases@[key])
        &&& after.leases@[key].state() == machine_after_loss(before.leases@[key].state(), false)
        &&& after.leases@[key] == (Lease {
            machine: after.leases@[key].machine,
            ..before.leases@[key]
        })
        &&& after.sessions == before.sessions
        &&& after.by_tag == before.by_tag
        &&& after.channel_opens == before.channel_opens
        &&& after.root_nonces == before.root_nonces
        &&& after.numbers == before.numbers
    }
}

/// What follows from the end of a session.
pub struct Finished {
    /// What becomes of its own objects.
    pub end: SessionEnd,
    /// The child sessions that ended with it.
    pub children: Vec<SessionIdentity>,
}

/// Whether a session ended: everything it issued is revoked, then it is closed.
pub open spec fn session_finished(
    before: Registry,
    after: Registry,
    session: Departure,
    clean: bool,
    now_us: u64,
    finished: Finished,
) -> bool {
    exists|issued: Seq<LeaseKey>, middle: Registry|
        exactly_issued_by(before.leases@, issued, session.identity) && #[trigger] leases_revoked(
            before,
            middle,
            session.identity.session_id,
            issued,
            Some(REASON_PARENT_CLEANUP),
        ) && closed(middle, after, session, clean, now_us, finished.end) && finished.children@
            == children_of(before.leases@, issued)
}

impl Registry {
    /// Every table has each key once, every session is well formed, and until the numbers of sessions
    /// come round no two leases have the same session.
    pub open spec fn wf(&self) -> bool {
        &&& self.sessions.wf()
        &&& self.by_tag.wf()
        &&& self.channel_opens.wf()
        &&& self.leases.wf()
        &&& forall|id: u64| #[trigger] self.sessions@.contains_key(id) ==> self.sessions@[id].wf()
            && self.sessions@[id].identity.session_id == id
        &&& forall|key: LeaseKey| #[trigger]
            self.leases@.contains_key(key) ==> self.leases@[key].linked()
        &&& !self.numbers.repeating@ ==> children_numbered(self.leases@, self.numbers)
    }

    /// Nothing yet.
    pub fn new() -> (r: Self)
        ensures
            r.wf(),
            r.sessions@ == Map::<u64, Session>::empty(),
            r.by_tag@ == Map::<[u8; 16], u64>::empty(),
            r.channel_opens@ == Map::<TrackIdentity, ChannelOpenState>::empty(),
            r.leases@ == Map::<LeaseKey, Lease>::empty(),
            r.root_nonces.entries@ == Seq::<([u8; 32], u64)>::empty(),
            r.numbers == (SessionNumbers { next: 1, repeating: Ghost(false) }),
    {
        Registry {
            sessions: Table::new(),
            by_tag: Table::new(),
            channel_opens: Table::new(),
            leases: LeaseTable::new(),
            root_nonces: RootNonces { entries: Vec::new() },
            numbers: SessionNumbers::new(),
        }
    }

    /// Publish a session under the number its producer uses and the tag its markers carry.
    pub fn insert_session(&mut self, session: Session)
        requires
            old(self).wf(),
            session.wf(),
        ensures
            final(self).wf(),
            final(self).sessions@ == old(self).sessions@.insert(
                session.identity.session_id,
                session,
            ),
            final(self).by_tag@ == old(self).by_tag@.insert(
                session.session_tag,
                session.identity.session_id,
            ),
            final(self).channel_opens == old(self).channel_opens,
            final(self).leases == old(self).leases,
            final(self).root_nonces == old(self).root_nonces,
            final(self).numbers == old(self).numbers,
    {
        self.by_tag.insert(session.session_tag, session.identity.session_id);
        self.sessions.insert(session.identity.session_id, session);
    }

    /// Take a session out of both indexes. A session that resumed keeps its number with another tag,
    /// so a tag goes only where it still names the session that leaves.
    pub fn remove_session(&mut self, session_id: u64) -> (r: Option<Session>)
        requires
            old(self).wf(),
        ensures
            final(self).wf(),
            session_removed(*old(self), *final(self), session_id),
            r == (if old(self).sessions@.contains_key(session_id) {
                Some(old(self).sessions@[session_id])
            } else {
                None::<Session>
            }),
    {
        let session = match self.sessions.remove(&session_id) {
            Some(session) => session,
            None => {
                return None;
            },
        };
        let named = match self.by_tag.get(&session.session_tag) {
            Some(owner) => *owner == session_id,
            None => false,
        };
        if named {
            self.by_tag.remove(&session.session_tag);
        }
        Some(session)
    }

    /// The session that a tag names.
    pub open spec fn tagged(&self, tag: [u8; 16]) -> Option<u64> {
        if self.by_tag@.contains_key(tag) && self.sessions@.contains_key(self.by_tag@[tag]) {
            Some(self.by_tag@[tag])
        } else {
            None
        }
    }

    /// The session that a tag names.
    pub fn session_by_tag(&self, tag: &[u8; 16]) -> (r: Option<u64>)
        requires
            self.wf(),
        ensures
            r == self.tagged(*tag),
    {
        match self.by_tag.get(tag) {
            Some(id) => if self.sessions.contains(id) {
                Some(*id)
            } else {
                None
            },
            None => None,
        }
    }

    /// Send a session a record of its own accord, where there is such a session.
    pub fn tell(
        &mut self,
        id: u64,
        record_type: u16,
        object_id: u64,
        payload: Vec<(u64, Value)>,
    )
        requires
            old(self).wf(),
        ensures
            final(self).wf(),
            told(
                old(self).sessions@,
                final(self).sessions@,
                id,
                record_type,
                object_id,
                payload_view(payload@),
            ),
            *final(self) == (Registry { sessions: final(self).sessions, ..*old(self) }),
    {
        let ghost before = self.sessions@;
        if let Ok(body) = envelope(0, payload) {
            if let Some(session) = self.sessions.get_mut(&id) {
                session.post_control(record_type, object_id, body);
            }
        }
        assert(self.sessions@.dom() =~= before.dom());
    }

    /// The first record of a leased session arrived: its activation or resume cannot be repeated any
    /// more.
    pub fn admit_post_hello(&mut self, session_id: u64)
        requires
            old(self).wf(),
        ensures
            final(self).wf(),
            *final(self) == (Registry { leases: final(self).leases, ..*old(self) }),
            match old(self).leased(session_id) {
                Some(key) => {
                    let before = old(self).leases@[key];
                    let after = final(self).leases@[key];
                    &&& final(self).leases@ == old(self).leases@.insert(key, after)
                    &&& lease_used(before, after)
                },
                None => final(self).leases == old(self).leases,
            },
    {
        let lease = match self.sessions.get(&session_id) {
            Some(session) => session.lease,
            None => None,
        };
        if let Some(key) = lease {
            if let Some(lease) = self.leases.get_mut(&key) {
                lease.admit_post_hello();
            }
        }
    }

    /// The lease that a session was activated from, where it is still there.
    pub open spec fn leased(&self, session_id: u64) -> Option<LeaseKey> {
        if self.sessions@.contains_key(session_id) {
            match self.sessions@[session_id].lease {
                Some(key) => if self.leases@.contains_key(key) {
                    Some(key)
                } else {
                    None
                },
                None => None,
            }
        } else {
            None
        }
    }

    /// Revoke a lease and take down what it delegated. Nothing outside it is touched. The child that
    /// ended with it.
    pub fn revoke_lease(&mut self, issuer_id: u64, key: LeaseKey, reason: u64, now_us: u64) -> (r: Option<
        Option<SessionIdentity>,
    >)
        requires
            old(self).wf(),
        ensures
            final(self).wf(),
            lease_revoked(*old(self), *final(self), issuer_id, key, reason),
            r == (if old(self).leases@.contains_key(key) {
                Some(old(self).leases@[key].child)
            } else {
                None::<Option<SessionIdentity>>
            }),
    {
        if !self.leases.contains(&key) {
            return None;
        }
        let mut lease = match self.leases.remove(&key) {
            Some(lease) => lease,
            None => {
                return None;
            },
        };
        let child = lease.child;
        lease.revoke();
        let payload = lease.changed_payload(key.context_id, key.lease_id, reason, now_us);
        if let Some(identity) = child {
            self.remove_session(identity.session_id);
        }
        let ghost rest = self.sessions@;
        if let Some(session) = self.sessions.get_mut(&issuer_id) {
            session.contexts.release(key.context_id, &lease.contract);
        }
        let ghost middle = self.sessions@;
        assert(middle.dom() =~= rest.dom());
        assert(budget_returned(rest, middle, issuer_id, key.context_id, lease.contract.values@));
        self.tell(issuer_id, SESSION_LEASE_CHANGED, key.lease_id, payload);
        Some(child)
    }
}

impl Registry {
    /// Revoke leases one after the other. The children that ended with them.
    fn revoke_leases(
        &mut self,
        issuer_id: u64,
        keys: &Vec<LeaseKey>,
        given: Option<u64>,
        now_us: u64,
    ) -> (r: Vec<SessionIdentity>)
        requires
            old(self).wf(),
            keys@.no_duplicates(),
            forall|key: LeaseKey| keys@.contains(key) ==> #[trigger] old(self).leases@.contains_key(key),
        ensures
            final(self).wf(),
            leases_revoked(*old(self), *final(self), issuer_id, keys@, given),
            final(self).leases@ == without(old(self).leases@, keys@),
            r@ == children_of(old(self).leases@, keys@),
    {
        let ghost start = *self;
        let mut children: Vec<SessionIdentity> = Vec::new();
        let mut index: usize = 0;
        proof {
            assert(keys@.take(0) =~= Seq::<LeaseKey>::empty());
            assert(self.leases@ =~= without(start.leases@, keys@.take(0)));
        }
        while index < keys.len()
            invariant
                self.wf(),
                index <= keys@.len(),
                start == *old(self),
                keys@.no_duplicates(),
                forall|key: LeaseKey| keys@.contains(key) ==> #[trigger] start.leases@.contains_key(key),
                leases_revoked(start, *self, issuer_id, keys@.take(index as int), given),
                self.leases@ == without(start.leases@, keys@.take(index as int)),
                children@ == children_of(start.leases@, keys@.take(index as int)),
            decreases keys@.len() - index,
        {
            let key = keys[index];
            let ghost middle = *self;
            let ghost shorter = keys@.take(index as int);
            let ghost longer = keys@.take(index + 1);
            proof {
                assert(longer.drop_last() =~= shorter);
                assert(longer.last() == key);
                assert(keys@.contains(key));
                assert(!shorter.contains(key)) by {
                    if shorter.contains(key) {
                        let i = choose|i: int| 0 <= i < shorter.len() && shorter[i] == key;
                        assert(keys@[i] == keys@[index as int]);
                    }
                }
                assert(middle.leases@[key] == start.leases@[key]);
            }
            let reason = match given {
                Some(reason) => reason,
                None => match self.leases.leases.get(&key) {
                    Some(lease) => if lease.grace_deadline_us.is_some() {
                        REASON_GRACE_EXPIRY
                    } else {
                        REASON_ACTIVATION_EXPIRY
                    },
                    None => REASON_ACTIVATION_EXPIRY,
                },
            };
            if let Some(Some(child)) = self.revoke_lease(issuer_id, key, reason, now_us) {
                children.push(child);
            }
            proof {
                assert forall|k: LeaseKey| longer.contains(k) <==> shorter.contains(k) || k == key by {
                    if shorter.contains(k) {
                        let i = choose|i: int| 0 <= i < shorter.len() && shorter[i] == k;
                        assert(longer[i] == k);
                    }
                    if k == key {
                        assert(longer[index as int] == k);
                    }
                    if longer.contains(k) && k != key {
                        let i = choose|i: int| 0 <= i < longer.len() && longer[i] == k;
                        assert(shorter[i] == k);
                    }
                }
                assert(self.leases@ =~= without(start.leases@, longer));
                assert(lease_revoked(
                    middle,
                    *self,
                    issuer_id,
                    longer.last(),
                    reason_for(middle.leases@[longer.last()], given),
                ));
            }
            index = index + 1;
        }
        assert(keys@.take(index as int) =~= keys@);
        children
    }

    /// Revoke the leases of an issuer that ran out. The children that ended with them.
    pub fn expire_leases(&mut self, issuer: SessionIdentity, now_us: u64) -> (r: Vec<SessionIdentity>)
        requires
            old(self).wf(),
        ensures
            final(self).wf(),
            exists|keys: Seq<LeaseKey>|
                exactly_run_out(old(self).leases@, keys, issuer, now_us)
                    && #[trigger] leases_revoked(
                    *old(self),
                    *final(self),
                    issuer.session_id,
                    keys,
                    None,
                ) && final(self).leases@ == without(old(self).leases@, keys) && r@ == children_of(
                    old(self).leases@,
                    keys,
                ),
    {
        let gone = self.leases.expired(now_us);
        let mut keys: Vec<LeaseKey> = Vec::new();
        let mut index: usize = 0;
        while index < gone.len()
            invariant
                index <= gone@.len(),
                gone@.no_duplicates(),
                keys@.no_duplicates(),
                forall|key: LeaseKey| #[trigger]
                    keys@.contains(key) <==> gone@.take(index as int).contains(key) && key.issuer
                        == issuer,
            decreases gone@.len() - index,
        {
            let key = gone[index];
            let ghost shorter = gone@.take(index as int);
            let ghost longer = gone@.take(index + 1);
            let ghost earlier = keys@;
            proof {
                assert(longer =~= shorter.push(key));
                lemma_push_contains(shorter, key);
                lemma_push_contains(earlier, key);
                assert(!shorter.contains(key)) by {
                    if shorter.contains(key) {
                        let i = choose|i: int| 0 <= i < shorter.len() && shorter[i] == key;
                        assert(gone@[i] == gone@[index as int]);
                    }
                }
            }
            if key.issuer.same(&issuer) {
                assert(!earlier.contains(key));
                keys.push(key);
            }
            index = index + 1;
        }
        proof {
            assert(gone@.take(index as int) =~= gone@);
            assert(exactly_run_out(self.leases@, keys@, issuer, now_us));
        }
        self.revoke_leases(issuer.session_id, &keys, None, now_us)
    }

    /// Note the loss of a session on its lease. Whether the lease stays.
    fn lose_lease(&mut self, key: LeaseKey, resume_key: [u8; 32], now_us: u64) -> (r: bool)
        requires
            old(self).wf(),
        ensures
            final(self).wf(),
            r == (old(self).leases@.contains_key(key) && survives_loss(old(self).leases@[key])),
            r ==> loss_noted(*old(self), *final(self), key, resume_key, now_us),
            !r ==> loss_refused(*old(self), *final(self), key, false),
    {
        let lease = match self.leases.get_mut(&key) {
            Some(lease) => lease,
            None => {
                return false;
            },
        };
        let ghost before = *lease;
        if !lease.lost(resume_key, now_us) {
            return false;
        }
        if lease.suspended() {
            let payload = lease.changed_payload(
                key.context_id,
                key.lease_id,
                REASON_UNCLEAN_LOSS,
                now_us,
            );
            self.tell(key.issuer.session_id, SESSION_LEASE_CHANGED, key.lease_id, payload);
        }
        true
    }

    /// A session ended: what it issued is revoked, and its own lease is kept where the session was
    /// lost and the lease outlives that, and else given back.
    pub fn finish_session(&mut self, session: &Departure, clean: bool, now_us: u64) -> (r: Finished)
        requires
            old(self).wf(),
        ensures
            final(self).wf(),
            session_finished(*old(self), *final(self), *session, clean, now_us, r),
    {
        let ghost start = *self;
        let session_id = session.identity.session_id;
        let issued = self.leases.issued_by(session.identity);
        let children = self.revoke_leases(session_id, &issued, Some(REASON_PARENT_CLEANUP), now_us);
        let ghost cleared = *self;
        proof {
            assert(exactly_issued_by(start.leases@, issued@, session.identity));
        }
        let usual = if clean {
            SessionEnd::Detached
        } else {
            SessionEnd::Removed
        };
        let key = match session.lease {
            Some(key) => if self.sessions.contains(&key.issuer.session_id) {
                Some(key)
            } else {
                None
            },
            None => None,
        };
        let key = match key {
            Some(key) => key,
            None => {
                self.remove_session(session_id);
                return Finished { end: usual, children };
            },
        };
        if !clean {
            if self.lose_lease(key, session.resume_key, now_us) {
                self.remove_session(session_id);
                return Finished { end: SessionEnd::Suspended, children };
            }
        }
        let ghost noted = *self;
        assert(loss_refused(cleared, noted, key, clean));
        let reason = if clean {
            REASON_CLEAN_CLOSE
        } else {
            REASON_UNCLEAN_LOSS
        };
        self.revoke_lease(key.issuer.session_id, key, reason, now_us);
        assert(lease_revoked(noted, *self, key.issuer.session_id, key, closing_reason(clean)));
        self.remove_session(session_id);
        Finished { end: usual, children }
    }

    /// Send what the person at the window did to the first session that takes it.
    pub fn send_input(&mut self, event: InputEvent) -> (r: bool)
        requires
            old(self).wf(),
        ensures
            final(self).wf(),
            *final(self) == (Registry { sessions: final(self).sessions, ..*old(self) }),
            ({
                let before = old(self).sessions.entries@;
                let after = final(self).sessions.entries@;
                let taker = first_taker(before, event);
                &&& r == (taker < before.len())
                &&& after.len() == before.len()
                &&& forall|i: int|
                    0 <= i < after.len() ==> (#[trigger] after[i]).0 == before[i].0 && (if i <= taker {
                        input_offered(before[i].1, after[i].1, event, i == taker)
                    } else {
                        after[i].1 == before[i].1
                    })
            }),
    {
        let ghost start = self.sessions;
        let ghost before = self.sessions.entries@;
        let mut index: usize = 0;
        proof {
            lemma_taker_bounds(before, event);
        }
        while index < self.sessions.len()
            invariant
                self.wf(),
                *self == (Registry { sessions: self.sessions, ..*old(self) }),
                start == old(self).sessions,
                before == start.entries@,
                index <= before.len(),
                self.sessions.entries@.len() == before.len(),
                first_taker(before, event) >= index,
                first_taker(before, event) <= before.len(),
                forall|i: int|
                    0 <= i < before.len() ==> (#[trigger] self.sessions.entries@[i]).0 == before[i].0
                        && (if i < index {
                        input_offered(before[i].1, self.sessions.entries@[i].1, event, false)
                    } else {
                        self.sessions.entries@[i].1 == before[i].1
                    }),
            decreases before.len() - index,
        {
            let ghost current = *self;
            let ghost entries = self.sessions.entries@;
            proof {
                current.sessions.lemma_entry(index as int);
            }
            let session = self.sessions.value_at(index);
            let taken = session.offer_input(event);
            proof {
                lemma_sessions_kept(current, *self, index as int);
                lemma_first_taker(before, event, index as int);
            }
            if taken {
                return true;
            }
            index = index + 1;
        }
        false
    }

    /// Queue one record on the control connection of every session.
    pub fn announce(&mut self, record_type: u16, object_id: u64, body: &Vec<u8>)
        requires
            old(self).wf(),
        ensures
            final(self).wf(),
            *final(self) == (Registry { sessions: final(self).sessions, ..*old(self) }),
            final(self).sessions.entries@.len() == old(self).sessions.entries@.len(),
            forall|i: int|
                0 <= i < final(self).sessions.entries@.len() ==> (
                #[trigger] final(self).sessions.entries@[i]).0 == old(self).sessions.entries@[i].0
                    && announced(
                    old(self).sessions.entries@[i].1,
                    final(self).sessions.entries@[i].1,
                    (record_type, object_id, body@),
                ),
    {
        let ghost before = self.sessions.entries@;
        let mut index: usize = 0;
        while index < self.sessions.len()
            invariant
                self.wf(),
                *self == (Registry { sessions: self.sessions, ..*old(self) }),
                before == old(self).sessions.entries@,
                index <= before.len(),
                self.sessions.entries@.len() == before.len(),
                forall|i: int|
                    0 <= i < before.len() ==> (#[trigger] self.sessions.entries@[i]).0 == before[i].0
                        && (if i < index {
                        announced(
                            before[i].1,
                            self.sessions.entries@[i].1,
                            (record_type, object_id, body@),
                        )
                    } else {
                        self.sessions.entries@[i].1 == before[i].1
                    }),
            decreases before.len() - index,
        {
            let ghost current = *self;
            proof {
                current.sessions.lemma_entry(index as int);
            }
            let session = self.sessions.value_at(index);
            session.post_control(record_type, object_id, copy_bytes(body));
            proof {
                lemma_sessions_kept(current, *self, index as int);
            }
            index = index + 1;
        }
    }

    /// Revoke the input of every session.
    pub fn revoke_all_input(&mut self, reason: u64)
        requires
            old(self).wf(),
        ensures
            final(self).wf(),
            *final(self) == (Registry { sessions: final(self).sessions, ..*old(self) }),
            final(self).sessions.entries@.len() == old(self).sessions.entries@.len(),
            forall|i: int|
                0 <= i < final(self).sessions.entries@.len() ==> (
                #[trigger] final(self).sessions.entries@[i]).0 == old(self).sessions.entries@[i].0
                    && input_revoked(
                    old(self).sessions.entries@[i].1,
                    final(self).sessions.entries@[i].1,
                    reason,
                ),
    {
        let ghost before = self.sessions.entries@;
        let mut index: usize = 0;
        while index < self.sessions.len()
            invariant
                self.wf(),
                *self == (Registry { sessions: self.sessions, ..*old(self) }),
                before == old(self).sessions.entries@,
                index <= before.len(),
                self.sessions.entries@.len() == before.len(),
                forall|i: int|
                    0 <= i < before.len() ==> (#[trigger] self.sessions.entries@[i]).0 == before[i].0
                        && (if i < index {
                        input_revoked(before[i].1, self.sessions.entries@[i].1, reason)
                    } else {
                        self.sessions.entries@[i].1 == before[i].1
                    }),
            decreases before.len() - index,
        {
            let ghost current = *self;
            proof {
                current.sessions.lemma_entry(index as int);
            }
            let session = self.sessions.value_at(index);
            session.revoke_input(reason);
            proof {
                lemma_sessions_kept(current, *self, index as int);
            }
            index = index + 1;
        }
    }
}

/// Whether one record was offered to a session's control connection, and nothing else changed of it.
pub open spec fn announced(before: Session, after: Session, record: (u16, u64, Seq<u8>)) -> bool {
    &&& posted(before.egress, after.egress, record)
    &&& after == (Session { egress: after.egress, ..before })
}

/// Where the first session stands that takes an event: it holds a grant for it, and its lane has
/// room.
pub open spec fn first_taker(sessions: Seq<(u64, Session)>, event: InputEvent) -> int
    decreases sessions.len(),
{
    if sessions.len() == 0 {
        0
    } else if takes_input(sessions[0].1, event) {
        0
    } else {
        1 + first_taker(sessions.drop_first(), event)
    }
}

/// Whether a session takes an event.
pub open spec fn takes_input(session: Session, event: InputEvent) -> bool {
    crate::input::event_record(session.grant, event) is Some && crate::actor::has_room(
        session.lane_egress,
    )
}

proof fn lemma_first_taker(sessions: Seq<(u64, Session)>, event: InputEvent, index: int)
    requires
        0 <= index < sessions.len(),
        first_taker(sessions, event) >= index,
    ensures
        takes_input(sessions[index].1, event) <==> first_taker(sessions, event) == index,
        first_taker(sessions, event) <= sessions.len(),
    decreases sessions.len(),
{
    if takes_input(sessions[0].1, event) {
    } else if index == 0 {
        lemma_taker_bounds(sessions.drop_first(), event);
    } else {
        lemma_first_taker(sessions.drop_first(), event, index - 1);
    }
}

proof fn lemma_taker_bounds(sessions: Seq<(u64, Session)>, event: InputEvent)
    ensures
        0 <= first_taker(sessions, event) <= sessions.len(),
    decreases sessions.len(),
{
    if sessions.len() > 0 {
        lemma_taker_bounds(sessions.drop_first(), event);
    }
}

/// Changing one session in place keeps the registry well formed.
proof fn lemma_sessions_kept(before: Registry, after: Registry, index: int)
    requires
        before.wf(),
        0 <= index < before.sessions.entries@.len(),
        after == (Registry { sessions: after.sessions, ..before }),
        after.sessions.wf(),
        after.sessions.entries@.len() == before.sessions.entries@.len(),
        forall|i: int|
            0 <= i < before.sessions.entries@.len() && i != index ==> #[trigger] after.sessions.entries@[i]
                == before.sessions.entries@[i],
        after.sessions.entries@[index].0 == before.sessions.entries@[index].0,
        after.sessions.entries@[index].1.wf(),
        after.sessions.entries@[index].1.identity == before.sessions.entries@[index].1.identity,
    ensures
        after.wf(),
{
    assert forall|id: u64| #[trigger] after.sessions@.contains_key(id) implies after.sessions@[id].wf()
        && after.sessions@[id].identity.session_id == id by {
        let i = choose|i: int|
            0 <= i < after.sessions.entries@.len() && (#[trigger] after.sessions.entries@[i]).0 == id;
        after.sessions.lemma_entry(i);
        before.sessions.lemma_entry(i);
        assert(before.sessions@.contains_key(id));
    }
}

proof fn lemma_push_contains(keys: Seq<LeaseKey>, key: LeaseKey)
    ensures
        forall|other: LeaseKey| #[trigger]
            keys.push(key).contains(other) <==> keys.contains(other) || other == key,
{
    assert forall|other: LeaseKey| #[trigger] keys.push(key).contains(other) <==> keys.contains(
        other,
    ) || other == key by {
        if keys.contains(other) {
            let i = choose|i: int| 0 <= i < keys.len() && keys[i] == other;
            assert(keys.push(key)[i] == other);
        }
        if other == key {
            assert(keys.push(key)[keys.len() as int] == other);
        }
        if keys.push(key).contains(other) {
            let i = choose|i: int| 0 <= i < keys.len() + 1 && keys.push(key)[i] == other;
            if i < keys.len() {
                assert(keys[i] == other);
            }
        }
    }
}

/// A session that leaves takes no other session's tag along.
pub proof fn a_departing_session_unpublishes_only_its_own_tag(
    before: Registry,
    after: Registry,
    leaving: u64,
    tag: [u8; 16],
    owner: u64,
)
    requires
        session_removed(before, after, leaving),
        before.tagged(tag) == Some(owner),
        owner != leaving,
    ensures
        after.tagged(tag) == Some(owner),
{
}

/// Revoking a lease touches nothing outside of it: a session that is neither its child nor its
/// issuer is exactly as it was.
pub proof fn a_revocation_stays_within_its_lease(
    before: Registry,
    after: Registry,
    issuer_id: u64,
    key: LeaseKey,
    reason: u64,
    id: u64,
)
    requires
        lease_revoked(before, after, issuer_id, key, reason),
        id != issuer_id,
        before.leases@[key].child matches Some(child) ==> child.session_id != id,
    ensures
        after.sessions@.contains_key(id) == before.sessions@.contains_key(id),
        before.sessions@.contains_key(id) ==> after.sessions@[id] == before.sessions@[id],
{
    if before.leases@.contains_key(key) {
        let lease = before.leases@[key];
        let rest = sessions_without_child(before, lease.child);
        let middle = choose|middle: Map<u64, Session>|
            budget_returned(rest, middle, issuer_id, key.context_id, lease.contract.values@)
                && #[trigger] told(
                middle,
                after.sessions@,
                issuer_id,
                SESSION_LEASE_CHANGED,
                key.lease_id,
                change_fields(
                    key.context_id,
                    key.lease_id,
                    machine_revoked(lease.state()),
                    reason,
                    0,
                ),
            );
        assert(rest.contains_key(id) == before.sessions@.contains_key(id));
        assert(middle.contains_key(id) == rest.contains_key(id));
        assert(after.sessions@.contains_key(id) == middle.contains_key(id));
    }
}

proof fn lemma_revoked_are_gone(
    before: Registry,
    after: Registry,
    issuer_id: u64,
    keys: Seq<LeaseKey>,
    given: Option<u64>,
)
    requires
        leases_revoked(before, after, issuer_id, keys, given),
    ensures
        forall|key: LeaseKey| #[trigger]
            after.leases@.contains_key(key) ==> before.leases@.contains_key(key) && !keys.contains(key),
    decreases keys.len(),
{
    if keys.len() > 0 {
        let middle = choose|middle: Registry|
            leases_revoked(before, middle, issuer_id, keys.drop_last(), given)
                && #[trigger] lease_revoked(
                middle,
                after,
                issuer_id,
                keys.last(),
                reason_for(middle.leases@[keys.last()], given),
            );
        lemma_revoked_are_gone(before, middle, issuer_id, keys.drop_last(), given);
        assert forall|key: LeaseKey| #[trigger] after.leases@.contains_key(key) implies
            before.leases@.contains_key(key) && !keys.contains(key) by {
            assert(middle.leases@.contains_key(key));
            if keys.contains(key) {
                let i = choose|i: int| 0 <= i < keys.len() && keys[i] == key;
                if i < keys.len() - 1 {
                    assert(keys.drop_last()[i] == key);
                }
            }
        }
    }
}

/// A lease does not outlive the session that issued it.
pub proof fn no_lease_outlives_its_issuer(
    before: Registry,
    after: Registry,
    session: Departure,
    clean: bool,
    now_us: u64,
    finished: Finished,
    key: LeaseKey,
)
    requires
        session_finished(before, after, session, clean, now_us, finished),
        after.leases@.contains_key(key),
    ensures
        key.issuer != session.identity,
        before.leases@.contains_key(key),
{
    let (issued, middle) = choose|issued: Seq<LeaseKey>, middle: Registry|
        exactly_issued_by(before.leases@, issued, session.identity) && #[trigger] leases_revoked(
            before,
            middle,
            session.identity.session_id,
            issued,
            Some(REASON_PARENT_CLEANUP),
        ) && closed(middle, after, session, clean, now_us, finished.end) && finished.children@
            == children_of(before.leases@, issued);
    lemma_revoked_are_gone(
        before,
        middle,
        session.identity.session_id,
        issued,
        Some(REASON_PARENT_CLEANUP),
    );
    assert(middle.leases@.contains_key(key));
    assert(!issued.contains(key));
}

/// A session that was lost before it sent anything leaves its lease to be activated again, whatever
/// the lease's policy is.
pub proof fn an_unused_lease_outlives_its_session(
    registry: Registry,
    session: Departure,
    key: LeaseKey,
)
    requires
        session.lease == Some(key),
        registry.sessions@.contains_key(key.issuer.session_id),
        registry.leases@.contains_key(key),
        registry.leases@[key].state().state is Active,
        registry.leases@[key].state().attempt matches Some(attempt) && !attempt.post_hello_admitted,
    ensures
        lease_outlives(registry, session, false),
{
}

/// A greeting that is still remembered is refused. One that is not is taken while there is room, and
/// is then remembered for five minutes. What is remembered longer than now stays remembered, and
/// nothing else does.
pub proof fn a_greeting_is_remembered_for_five_minutes(
    nonces: &mut RootNonces,
    nonce: [u8; 32],
    now_us: u64,
    r: bool,
)
    requires
        call_ensures(RootNonces::enter, (nonces, nonce, now_us), r),
    ensures
        forall|i: int|
            0 <= i < old(nonces).entries@.len() && (#[trigger] old(nonces).entries@[i]).0 == nonce
                && old(nonces).entries@[i].1 > now_us ==> !r,
        (forall|i: int|
            0 <= i < old(nonces).entries@.len() ==> (#[trigger] old(nonces).entries@[i]).0 != nonce
                || old(nonces).entries@[i].1 <= now_us) && old(nonces).entries@.len() < 4096 ==> r,
        r ==> final(nonces).entries@.len() > 0 && final(nonces).entries@.last().0 == nonce,
        r && now_us + 300_000_000 <= u64::MAX ==> final(nonces).entries@.last().1 == now_us
            + 300_000_000,
        forall|i: int|
            0 <= i < old(nonces).entries@.len() && (#[trigger] old(nonces).entries@[i]).1 > now_us
                ==> final(nonces).entries@.contains(old(nonces).entries@[i]),
        forall|i: int|
            0 <= i < final(nonces).entries@.len() && !(r && i == final(nonces).entries@.len() - 1)
                ==> (#[trigger] final(nonces).entries@[i]).1 > now_us,
{
    let entries = old(nonces).entries@;
    let keeps = |entry: ([u8; 32], u64)| entry.1 > now_us;
    let live = live_nonces(entries, now_us);
    assert(live == entries.filter(keeps));
    broadcast use Seq::lemma_filter_len, Seq::lemma_filter_pred, Seq::lemma_filter_contains;
    lemma_filtered_came_from(entries, keeps);
    assert forall|i: int| 0 <= i < entries.len() && (#[trigger] entries[i]).1 > now_us implies final(nonces).entries@.contains(entries[i]) by {
        assert(keeps(entries[i]));
        assert(live.contains(entries[i]));
        let j = live.index_of(entries[i]);
        assert(final(nonces).entries@[j] == entries[i]);
    }
    assert forall|i: int|
        0 <= i < entries.len() && (#[trigger] entries[i]).0 == nonce && entries[i].1 > now_us implies
        !r by {
        assert(keeps(entries[i]));
        assert(live.contains(entries[i]));
        let j = live.index_of(entries[i]);
        assert(live[j].0 == nonce);
    }
    if holds_nonce(live, nonce) {
        let j = choose|j: int| 0 <= j < live.len() && (#[trigger] live[j]).0 == nonce;
        assert(keeps(live[j]));
        assert(live.contains(live[j]));
        let i = entries.index_of(live[j]);
        assert(entries[i].0 == nonce && entries[i].1 > now_us);
    }
}

/// What a filter keeps was there before.
proof fn lemma_filtered_came_from<A>(all: Seq<A>, keeps: spec_fn(A) -> bool)
    ensures
        forall|item: A| #[trigger] all.filter(keeps).contains(item) ==> all.contains(item) && keeps(item),
    decreases all.len(),
{
    reveal(Seq::filter);
    if all.len() > 0 {
        let rest = all.drop_last();
        lemma_filtered_came_from(rest, keeps);
        assert forall|item: A| #[trigger] all.filter(keeps).contains(item) implies all.contains(item)
            && keeps(item) by {
            let kept = rest.filter(keeps);
            let i = all.filter(keeps).index_of(item);
            if i < kept.len() {
                assert(kept[i] == item);
                assert(kept.contains(item));
                let j = rest.index_of(item);
                assert(all[j] == item);
            } else {
                assert(all[all.len() - 1] == item);
            }
        }
    }
}

/// A connection that leaves its handshake gives up its own place and no other.
pub proof fn a_handshake_gives_up_its_own_place(handshakes: &mut PendingHandshakes, id: u64)
    requires
        call_ensures(PendingHandshakes::release, (handshakes, id), ()),
    ensures
        forall|entry: (u64, u64)| #[trigger]
            final(handshakes).open@.contains(entry) <==> old(handshakes).open@.contains(entry)
                && entry.0 != id,
        final(handshakes).next_id == old(handshakes).next_id,
{
    let open = old(handshakes).open@;
    broadcast use Seq::lemma_filter_contains;
    lemma_filtered_came_from(open, is_other(id));
    assert forall|entry: (u64, u64)| open.contains(entry) && entry.0 != id implies #[trigger] final(handshakes).open@.contains(entry) by {
        let i = open.index_of(entry);
        assert(is_other(id)(open[i]));
    }
}

/// A place is given back as it was taken, and no more than sixty-four are ever out.
pub proof fn places_are_given_back(
    claimed: &mut ConnectionSlots,
    released: &mut ConnectionSlots,
    r: bool,
)
    requires
        call_ensures(ConnectionSlots::claim, (claimed,), r),
        *old(released) == *final(claimed),
        call_ensures(ConnectionSlots::release, (released,), ()),
        old(claimed).active <= 64,
    ensures
        r <==> old(claimed).active < 64,
        final(claimed).active <= 64,
        r ==> final(released).active == old(claimed).active,
{
}

/// A window that was asked to draw is not woken again until it has drawn.
pub proof fn a_window_is_woken_once(first: &mut FrameWake, second: &mut FrameWake, r: bool, again: bool)
    requires
        call_ensures(FrameWake::request, (first,), r),
        *old(second) == *final(first),
        call_ensures(FrameWake::request, (second,), again),
    ensures
        !again,
        final(second).events == final(first).events,
        r <==> !old(first).pending,
{
}

/// A window that has drawn is woken when it is asked again.
pub proof fn a_window_that_has_drawn_is_woken_again(
    drawn: &mut FrameWake,
    asked: &mut FrameWake,
    r: bool,
)
    requires
        call_ensures(FrameWake::acknowledge, (drawn,), ()),
        *old(asked) == *final(drawn),
        call_ensures(FrameWake::request, (asked,), r),
    ensures
        r,
        old(drawn).events < u64::MAX ==> final(asked).events == old(drawn).events + 1,
{
}

/// No two sessions get the same number, until the numbers come round.
pub proof fn numbers_are_drawn_once(
    first: &mut SessionNumbers,
    second: &mut SessionNumbers,
    r: u64,
    next: u64,
)
    requires
        call_ensures(SessionNumbers::draw, (first,), r),
        *old(second) == *final(first),
        call_ensures(SessionNumbers::draw, (second,), next),
    ensures
        r < u64::MAX ==> next == r + 1,
        r == u64::MAX ==> next == 0,
{
}

/// The first session that a registry numbers is number one.
pub proof fn the_first_session_is_number_one(fresh: Registry, numbers: &mut SessionNumbers, r: u64)
    requires
        call_ensures(Registry::new, (), fresh),
        *old(numbers) == fresh.numbers,
        call_ensures(SessionNumbers::draw, (numbers,), r),
    ensures
        r == 1,
{
}

/// A session is found by its tag once it is in, and by that tag no more once it has left.
pub proof fn a_session_is_found_by_its_tag(
    registry: &mut Registry,
    session: Session,
    left: &mut Registry,
    gone: Option<Session>,
    found: Option<u64>,
    lost: Option<u64>,
)
    requires
        call_ensures(Registry::insert_session, (registry, session), ()),
        call_ensures(
            Registry::session_by_tag,
            (&*final(registry), &session.session_tag),
            found,
        ),
        *old(left) == *final(registry),
        call_ensures(Registry::remove_session, (left, session.identity.session_id), gone),
        call_ensures(Registry::session_by_tag, (&*final(left), &session.session_tag), lost),
    ensures
        found == Some(session.identity.session_id),
        gone == Some(session),
        lost is None,
        !final(left).sessions@.contains_key(session.identity.session_id),
{
}

/// A revoked lease is gone, and so is the session that was activated from it. Its issuer is handed
/// that session.
pub proof fn a_revoked_lease_is_gone(
    registry: &mut Registry,
    issuer_id: u64,
    key: LeaseKey,
    reason: u64,
    now_us: u64,
    r: Option<Option<SessionIdentity>>,
)
    requires
        call_ensures(Registry::revoke_lease, (registry, issuer_id, key, reason, now_us), r),
    ensures
        !final(registry).leases@.contains_key(key),
        r is Some <==> old(registry).leases@.contains_key(key),
        r matches Some(Some(child)) ==> old(registry).leases@[key].child == Some(child)
            && !final(registry).sessions@.contains_key(child.session_id),
        forall|other: LeaseKey| #[trigger]
            old(registry).leases@.contains_key(other) && other != key ==> final(registry).leases@.contains_key(other) && final(registry).leases@[other] == old(registry).leases@[other],
{
    let before = *old(registry);
    let after = *final(registry);
    if before.leases@.contains_key(key) {
        let lease = before.leases@[key];
        let rest = sessions_without_child(before, lease.child);
        let middle = choose|middle: Map<u64, Session>|
            budget_returned(rest, middle, issuer_id, key.context_id, lease.contract.values@)
                && #[trigger] told(
                middle,
                after.sessions@,
                issuer_id,
                SESSION_LEASE_CHANGED,
                key.lease_id,
                change_fields(
                    key.context_id,
                    key.lease_id,
                    machine_revoked(lease.state()),
                    reason,
                    0,
                ),
            );
        if let Some(child) = lease.child {
            assert(!rest.contains_key(child.session_id));
            assert(!middle.contains_key(child.session_id));
            assert(!after.sessions@.contains_key(child.session_id));
        }
    }
}

/// A lease that ran out is told by what it was waiting for: a session to come back, or a session to
/// come at all. A given reason is told as it is.
pub proof fn a_lease_is_told_why_it_ended(lease: Lease, reason: u64)
    ensures
        reason_for(lease, Some(reason)) == reason,
        lease.grace_deadline_us is Some ==> reason_for(lease, None) == 128,
        lease.grace_deadline_us is None ==> reason_for(lease, None) == 64,
        closing_reason(true) == 2,
        closing_reason(false) == 4,
{
}

/// A session that is done is gone. One that said goodbye is detached. One that was lost is
/// suspended or removed, and only one that has a lease can be suspended.
pub proof fn a_finished_session_is_gone(
    registry: &mut Registry,
    session: &Departure,
    clean: bool,
    now_us: u64,
    r: Finished,
)
    requires
        call_ensures(Registry::finish_session, (registry, session, clean, now_us), r),
    ensures
        !final(registry).sessions@.contains_key(session.identity.session_id),
        clean <==> r.end is Detached,
        r.end is Suspended ==> session.lease is Some,
        forall|key: LeaseKey| #[trigger]
            final(registry).leases@.contains_key(key) ==> key.issuer != session.identity,
{
    assert forall|key: LeaseKey| #[trigger] final(registry).leases@.contains_key(key) implies key.issuer
        != session.identity by {
        no_lease_outlives_its_issuer(
            *old(registry),
            *final(registry),
            *session,
            clean,
            now_us,
            r,
            key,
        );
    }
}

/// An event goes to the first session that takes it. No session before that one takes it, and where
/// none takes it nobody gets it.
pub proof fn the_first_session_that_takes_an_event_gets_it(
    sessions: Seq<(u64, Session)>,
    event: InputEvent,
    i: int,
)
    requires
        0 <= i < sessions.len(),
    ensures
        0 <= first_taker(sessions, event) <= sessions.len(),
        takes_input(sessions[i].1, event) ==> first_taker(sessions, event) <= i,
        first_taker(sessions, event) == i ==> takes_input(sessions[i].1, event),
{
    lemma_taker_bounds(sessions, event);
    if first_taker(sessions, event) >= i {
        lemma_first_taker(sessions, event, i);
    }
}

/// A session that holds no lane with room takes no event.
pub proof fn a_full_lane_takes_no_event(session: Session, event: InputEvent)
    requires
        session.lane_egress matches Some(queue) ==> queue.closed || queue.records@.len() >= 256,
    ensures
        !takes_input(session, event),
{
}

/// The session of every revoked lease is named, and no other session is.
pub proof fn the_children_of_leases_are_named(leases: Map<LeaseKey, Lease>, keys: Seq<LeaseKey>)
    ensures
        forall|i: int|
            0 <= i < keys.len() && leases[#[trigger] keys[i]].child is Some ==> children_of(
                leases,
                keys,
            ).contains(leases[keys[i]].child->0),
        forall|child: SessionIdentity| #[trigger]
            children_of(leases, keys).contains(child) ==> exists|i: int|
                0 <= i < keys.len() && leases[#[trigger] keys[i]].child == Some(child),
    decreases keys.len(),
{
    if keys.len() > 0 {
        let earlier = keys.drop_last();
        let before = children_of(leases, earlier);
        let all = children_of(leases, keys);
        the_children_of_leases_are_named(leases, earlier);
        assert forall|i: int| 0 <= i < keys.len() && leases[#[trigger] keys[i]].child is Some implies
            all.contains(leases[keys[i]].child->0) by {
            let child = leases[keys[i]].child->0;
            if i < earlier.len() {
                assert(earlier[i] == keys[i]);
                assert(before.contains(child));
                let j = before.index_of(child);
                assert(all[j] == child);
            } else {
                assert(all[all.len() - 1] == child);
            }
        }
        assert forall|child: SessionIdentity| #[trigger] all.contains(child) implies exists|i: int|
            0 <= i < keys.len() && leases[#[trigger] keys[i]].child == Some(child) by {
            let j = all.index_of(child);
            if j < before.len() {
                assert(before[j] == child);
                assert(before.contains(child));
                let i = choose|i: int|
                    0 <= i < earlier.len() && leases[#[trigger] earlier[i]].child == Some(child);
                assert(keys[i] == earlier[i]);
            } else {
                assert(leases[keys[keys.len() - 1]].child == Some(child));
            }
        }
    }
}

/// A lease that is suspended keeps the lost session's key, and waits as long as it was asked to. One
/// that is not suspended keeps the key and the wait that it had.
pub proof fn a_suspended_lease_waits_for_its_session(
    before: Lease,
    after: Lease,
    resume_key: [u8; 32],
    now_us: u64,
)
    requires
        lease_lost(before, after, resume_key, now_us),
    ensures
        suspends(before) ==> after.resume_key == Some(resume_key) && after.state().state is Suspended,
        suspends(before) && now_us + before.definition.requested_disconnect_grace_us <= u64::MAX
            ==> after.grace_deadline_us == Some(
            (now_us + before.definition.requested_disconnect_grace_us) as u64,
        ),
        !suspends(before) ==> after.resume_key == before.resume_key && after.grace_deadline_us
            == before.grace_deadline_us,
        suspends(before) ==> survives_loss(before),
        after.child == before.child,
        after.contract == before.contract,
        after.classes == before.classes,
{
}

/// A lease is lost with its session where it is to be cleaned up at once and was used, and is kept
/// where nothing was sent yet.
pub proof fn only_an_unused_or_patient_lease_survives(lease: Lease)
    requires
        lease.state().state is Active,
        lease.state().attempt is Some,
    ensures
        !lease.state().attempt->0.post_hello_admitted ==> survives_loss(lease) && !suspends(lease),
        lease.state().attempt->0.post_hello_admitted ==> (survives_loss(lease) <==> suspends(lease)),
        lease.state().attempt->0.post_hello_admitted ==> (suspends(lease)
            <==> !(lease.state().cleanup_policy is Immediate) && lease.state().disconnect_grace_us
            != 0 && lease.state().revision < u64::MAX),
{
}

/// A greeting whose number nobody used is taken while there is room.
pub proof fn a_new_greeting_is_taken(entries: Seq<([u8; 32], u64)>, nonce: [u8; 32], now_us: u64)
    requires
        forall|i: int| 0 <= i < entries.len() ==> (#[trigger] entries[i]).0 != nonce,
        entries.len() < 4096,
    ensures
        admits_nonce(entries, nonce, now_us),
{
    let keeps = |entry: ([u8; 32], u64)| entry.1 > now_us;
    let live = live_nonces(entries, now_us);
    assert(live == entries.filter(keeps));
    broadcast use Seq::lemma_filter_len;
    lemma_filtered_came_from(entries, keeps);
    if holds_nonce(live, nonce) {
        let j = choose|j: int| 0 <= j < live.len() && (#[trigger] live[j]).0 == nonce;
        assert(live.contains(live[j]));
        let i = entries.index_of(live[j]);
        assert(entries[i].0 == nonce);
    }
}

/// What is announced goes to every session that has room for it.
pub proof fn an_announcement_goes_to_every_session(
    before: Session,
    after: Session,
    record: (u16, u64, Seq<u8>),
)
    requires
        announced(before, after, record),
    ensures
        before.egress matches Some(queue) ==> after.egress is Some && (!queue.closed
            && queue.records@.len() < 256 ==> crate::actor::records_view(after.egress->0.records@)
            == crate::actor::records_view(queue.records@).push(record)),
        after.identity == before.identity,
        after.contexts == before.contexts,
        after.grant == before.grant,
{
}

/// The first record of a leased session is noted in its lease alone. A session without a lease changes
/// nothing.
pub proof fn the_first_record_is_noted_in_its_lease(
    registry: &mut Registry,
    session_id: u64,
    other: LeaseKey,
)
    requires
        call_ensures(Registry::admit_post_hello, (registry, session_id), ()),
    ensures
        final(registry).sessions == old(registry).sessions,
        !old(registry).sessions@.contains_key(session_id) || old(registry).sessions@[session_id].lease is None ==> final(registry).leases == old(registry).leases,
        old(registry).leases@.contains_key(other) && old(registry).sessions@[session_id].lease != Some(
            other,
        ) ==> final(registry).leases@.contains_key(other) && final(registry).leases@[other] == old(registry).leases@[other],
        old(registry).sessions@.contains_key(session_id) && old(registry).sessions@[session_id].lease == Some(other) && old(registry).leases@.contains_key(other)
            ==> final(registry).leases@[other].resuming is None,
{
}

} // verus!
