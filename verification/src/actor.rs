//! Session egress and the bounded pending-operation set.
//!
//! A session is three parts: a reader that only parses and enqueues, an actor that owns mutable
//! state and applies mutations in receive order, and an egress that owns the socket. A long
//! operation becomes bounded pending state instead of blocking the reader, and a peer that stops
//! reading its replies loses its session instead of growing a queue without limit.

use std::collections::HashSet;
use std::collections::VecDeque;
use vstd::prelude::*;

use crate::identity::TrackIdentity;
use crate::protocol;
use crate::reply::{
    envelope_bytes, envelope_or_ok, error_body, error_body_bytes, error_body_owned, ok, ok_bytes,
    or_ok,
};
use crate::value::{payload_view, unsigned, ValueView};

verus! {

/// Records the egress holds for a peer that has stopped reading. Overflow ends the session.
pub const EGRESS_CAPACITY: usize = 256;

/// Parsed records the reader may run ahead by while the actor is busy.
pub const INGRESS_CAPACITY: usize = 64;

/// One queued record: its type, its object, its body.
pub type OutgoingRecord = (u16, u64, Vec<u8>);

/// What a queued record holds.
pub open spec fn record_view(record: OutgoingRecord) -> (u16, u64, Seq<u8>) {
    (record.0, record.1, record.2@)
}

/// What a list of records holds.
pub open spec fn records_view(records: Seq<OutgoingRecord>) -> Seq<(u16, u64, Seq<u8>)> {
    records.map_values(|record: OutgoingRecord| record_view(record))
}

/// What the worker that owns the socket does next.
pub enum NextRecord {
    /// Write this record.
    Write(u16, u64, Vec<u8>),
    /// Wait until the queue changes.
    Wait,
    /// The queue was closed and has drained.
    Finished,
}

/// The queue in front of a connection's writer.
///
/// Threads that may never block on a socket only ever queue here. The reader that shares the
/// connection is named by a handle: once the egress gives up on the peer, the handle moves to
/// `stop`, and whoever drives the egress stops that reader.
pub struct Egress {
    pub records: VecDeque<OutgoingRecord>,
    pub closed: bool,
    pub overflowed: bool,
    pub shutdown: Option<u64>,
    pub stop: Option<u64>,
}

impl Egress {
    /// The queue is within its bound, and an overflow has closed it.
    pub open spec fn wf(&self) -> bool {
        &&& self.records@.len() <= EGRESS_CAPACITY
        &&& self.overflowed ==> self.closed
    }

    /// An egress with nothing queued and no reader to stop.
    pub fn detached() -> (r: Self)
        ensures
            r.wf(),
            r.records@ == Seq::<OutgoingRecord>::empty(),
            !r.closed,
            !r.overflowed,
            r.shutdown is None,
            r.stop is None,
    {
        Egress {
            records: VecDeque::new(),
            closed: false,
            overflowed: false,
            shutdown: None,
            stop: None,
        }
    }

    /// Have this egress stop the reader `handle` once it gives up on the peer: on an overflow or a
    /// failed write, never on an orderly close. An egress that is closed already stops it at once.
    pub fn set_shutdown(&mut self, handle: u64)
        requires
            old(self).wf(),
        ensures
            final(self).wf(),
            final(self).records@ == old(self).records@,
            final(self).closed == old(self).closed,
            final(self).overflowed == old(self).overflowed,
            final(self).shutdown == (if old(self).closed {
                old(self).shutdown
            } else {
                Some(handle)
            }),
            final(self).stop == (if old(self).closed {
                Some(handle)
            } else {
                old(self).stop
            }),
    {
        if self.closed {
            self.stop = Some(handle);
            return;
        }
        self.shutdown = Some(handle);
    }

    /// The reader to stop after giving up on the peer.
    pub open spec fn stop_after_giving_up(&self) -> Option<u64> {
        if self.shutdown is Some {
            self.shutdown
        } else {
            self.stop
        }
    }

    /// Queue one record. `false` means that the session must close: the peer is not draining its
    /// replies, or the egress has already shut down.
    pub fn send(&mut self, record_type: u16, object_id: u64, body: Vec<u8>) -> (r: bool)
        requires
            old(self).wf(),
        ensures
            final(self).wf(),
            r == (!old(self).closed && old(self).records@.len() < EGRESS_CAPACITY),
            r ==> *final(self) == (Egress { records: final(self).records, ..*old(self) })
                && final(self).records@ == old(self).records@.push((record_type, object_id, body)),
            !r ==> final(self).records@ == old(self).records@ && final(self).closed,
            !r && old(self).closed ==> *final(self) == *old(self),
            !r && !old(self).closed ==> final(self).overflowed && final(self).shutdown is None
                && final(self).stop == old(self).stop_after_giving_up(),
    {
        if self.closed {
            return false;
        }
        if self.records.len() >= EGRESS_CAPACITY {
            self.closed = true;
            self.overflowed = true;
            self.stop_reader();
            return false;
        }
        self.records.push_back((record_type, object_id, body));
        true
    }

    /// Whether the session ended because the peer stopped reading.
    pub fn overflowed(&self) -> (r: bool)
        ensures
            r == self.overflowed,
    {
        self.overflowed
    }

    /// Stop accepting records and let the worker drain what is already queued.
    pub fn close(&mut self)
        requires
            old(self).wf(),
        ensures
            final(self).wf(),
            *final(self) == (Egress { closed: true, ..*old(self) }),
    {
        self.closed = true;
    }

    /// Hand the reader's handle over to be stopped.
    fn stop_reader(&mut self)
        ensures
            final(self).records@ == old(self).records@,
            final(self).closed == old(self).closed,
            final(self).overflowed == old(self).overflowed,
            final(self).shutdown is None,
            final(self).stop == old(self).stop_after_giving_up(),
    {
        if self.shutdown.is_some() {
            self.stop = self.shutdown;
            self.shutdown = None;
        }
    }

    /// Take the handle of the reader that must stop now.
    pub fn take_stop(&mut self) -> (r: Option<u64>)
        requires
            old(self).wf(),
        ensures
            final(self).wf(),
            r == old(self).stop,
            *final(self) == (Egress { stop: None, ..*old(self) }),
    {
        let stop = self.stop;
        self.stop = None;
        stop
    }

    /// The oldest queued record, or what the worker waits for when there is none.
    pub fn next(&mut self) -> (r: NextRecord)
        requires
            old(self).wf(),
        ensures
            final(self).wf(),
            match r {
                NextRecord::Write(record_type, object_id, body) => old(self).records@.len() > 0
                    && old(self).records@[0] == (record_type, object_id, body)
                    && final(self).records@ == old(self).records@.drop_first(),
                NextRecord::Wait => old(self).records@.len() == 0 && !old(self).closed
                    && final(self).records@ == old(self).records@,
                NextRecord::Finished => old(self).records@.len() == 0 && old(self).closed
                    && final(self).records@ == old(self).records@,
            },
            *final(self) == (Egress { records: final(self).records, ..*old(self) }),
    {
        match self.records.pop_front() {
            Some(record) => {
                let (record_type, object_id, body) = record;
                assert(self.records@ =~= old(self).records@.drop_first());
                NextRecord::Write(record_type, object_id, body)
            },
            None => if self.closed {
                NextRecord::Finished
            } else {
                NextRecord::Wait
            },
        }
    }

    /// Give up on the peer after a record could not be written.
    pub fn write_failed(&mut self)
        requires
            old(self).wf(),
        ensures
            final(self).wf(),
            final(self).records@ == old(self).records@,
            final(self).closed,
            final(self).overflowed == old(self).overflowed,
            final(self).shutdown is None,
            final(self).stop == old(self).stop_after_giving_up(),
    {
        self.close();
        self.stop_reader();
    }
}

/// Whether one record was offered to a connection's queue, where there is one: it was taken, or the
/// queue gave up on its peer.
pub open spec fn offered_one(
    before: Option<Egress>,
    after: Option<Egress>,
    record: (u16, u64, Seq<u8>),
    taken: bool,
) -> bool {
    match (before, after) {
        (None, None) => !taken,
        (Some(old_queue), Some(new_queue)) => {
            &&& new_queue.wf()
            &&& taken == (!old_queue.closed && old_queue.records@.len() < EGRESS_CAPACITY)
            &&& records_view(new_queue.records@) == (if taken {
                records_view(old_queue.records@).push(record)
            } else {
                records_view(old_queue.records@)
            })
            &&& new_queue.closed == (old_queue.closed || !taken)
            &&& new_queue.overflowed == (old_queue.overflowed || (!taken && !old_queue.closed))
            &&& new_queue.shutdown == (if taken || old_queue.closed {
                old_queue.shutdown
            } else {
                None
            })
            &&& new_queue.stop == (if taken || old_queue.closed {
                old_queue.stop
            } else {
                old_queue.stop_after_giving_up()
            })
        },
        _ => false,
    }
}

/// Whether a connection takes one more record.
pub open spec fn has_room(egress: Option<Egress>) -> bool {
    egress matches Some(queue) && !queue.closed && queue.records@.len() < EGRESS_CAPACITY
}

/// Whether one record was offered to a connection's queue, whatever became of it.
pub open spec fn posted(
    before: Option<Egress>,
    after: Option<Egress>,
    record: (u16, u64, Seq<u8>),
) -> bool {
    offered_one(before, after, record, has_room(before))
}

/// Whether a connection's queue is well formed, where there is one.
pub open spec fn queue_wf(egress: Option<Egress>) -> bool {
    egress matches Some(queue) ==> queue.wf()
}

/// Queue one record on a connection. `false` means that it was not taken: there is no connection, or
/// its peer stopped draining.
pub fn post(egress: &mut Option<Egress>, record_type: u16, object_id: u64, body: Vec<u8>) -> (r: bool)
    requires
        queue_wf(*old(egress)),
    ensures
        r == has_room(*old(egress)),
        posted(*old(egress), *final(egress), (record_type, object_id, body@)),
{
    match egress {
        Some(queue) => {
            let ghost before = *queue;
            let taken = queue.send(record_type, object_id, body);
            proof {
                if taken {
                    assert(records_view(queue.records@) =~= records_view(before.records@).push(
                        (record_type, object_id, body@),
                    ));
                }
            }
            taken
        },
        None => false,
    }
}

/// What a queue holds once a batch of records was offered to it in order: all of them where they
/// fit, else as many as fit and no more.
pub open spec fn offered(
    before: Seq<(u16, u64, Seq<u8>)>,
    closed: bool,
    batch: Seq<(u16, u64, Seq<u8>)>,
) -> Seq<(u16, u64, Seq<u8>)> {
    if closed {
        before
    } else if before.len() + batch.len() <= EGRESS_CAPACITY {
        before + batch
    } else {
        before + batch.take(EGRESS_CAPACITY - before.len())
    }
}

/// Whether all that is not a record of a queue follows from whether it overflowed: an overflow closes
/// it and has its reader stopped.
pub open spec fn carried_on(before: Egress, after: Egress, overflow: bool) -> bool {
    &&& after.closed == (before.closed || overflow)
    &&& after.overflowed == (before.overflowed || overflow)
    &&& after.shutdown == (if overflow {
        None
    } else {
        before.shutdown
    })
    &&& after.stop == (if overflow {
        before.stop_after_giving_up()
    } else {
        before.stop
    })
}

/// Whether a batch of records was offered to a queue in order. One that an open queue has no room
/// for ends it.
pub open spec fn batch_offered(
    before: Egress,
    after: Egress,
    batch: Seq<(u16, u64, Seq<u8>)>,
) -> bool {
    &&& after.wf()
    &&& records_view(after.records@) == offered(records_view(before.records@), before.closed, batch)
    &&& carried_on(
        before,
        after,
        !before.closed && before.records@.len() + batch.len() > EGRESS_CAPACITY,
    )
}

/// Queue replies in order, stopping at the first that is refused.
fn send_all(egress: &mut Egress, replies: VecDeque<OutgoingRecord>)
    requires
        old(egress).wf(),
    ensures
        batch_offered(*old(egress), *final(egress), records_view(replies@)),
{
    let ghost total = replies@;
    let ghost all = records_view(total);
    let ghost before = records_view(old(egress).records@);
    let ghost mut sent: int = 0;
    let mut rest = replies;
    proof {
        assert(all.take(0) =~= Seq::<(u16, u64, Seq<u8>)>::empty());
        assert(before + all.take(0) =~= before);
        assert(rest@ =~= total.skip(0));
    }
    while rest.len() > 0
        invariant
            egress.wf(),
            0 <= sent <= total.len(),
            rest@ == total.skip(sent),
            total == replies@,
            all == records_view(total),
            before == records_view(old(egress).records@),
            *egress == (Egress { records: egress.records, ..*old(egress) }),
            old(egress).closed ==> sent == 0,
            records_view(egress.records@) == before + all.take(sent),
            egress.records@.len() == old(egress).records@.len() + sent,
        decreases rest@.len(),
    {
        let ghost now = egress.records@;
        let (record_type, object_id, body) = match rest.pop_front() {
            Some(reply) => reply,
            None => {
                return;
            },
        };
        assert(total[sent] == (record_type, object_id, body));
        let accepted = egress.send(record_type, object_id, body);
        if !accepted {
            assert(all.take(0) =~= Seq::<(u16, u64, Seq<u8>)>::empty());
            assert(records_view(egress.records@) =~= offered(before, old(egress).closed, all));
            return;
        }
        proof {
            sent = sent + 1;
            assert(rest@ =~= total.skip(sent));
            assert(all.take(sent) =~= all.take(sent - 1).push(all[sent - 1]));
            assert(records_view(egress.records@) =~= records_view(now).push(all[sent - 1]));
            assert(records_view(egress.records@) =~= before + all.take(sent));
        }
    }
    assert(all.take(sent) =~= all);
}

/// What the scene says of a condition on a track.
#[derive(Clone, Copy, Debug, PartialEq, Eq, Structural)]
pub enum TrackWaitEvaluation {
    Satisfied(TrackWaitSatisfied),
    NotFound,
    Lost,
    StaleGeneration,
    NotVisible,
    Pending,
}

/// What satisfied a condition on a track.
#[derive(Clone, Copy, Debug, PartialEq, Eq, Structural)]
pub struct TrackWaitSatisfied {
    pub revision: u64,
    pub channel_generation: u64,
    pub observed_value: u64,
}

/// How far an audio output has drained.
pub enum DrainPoll {
    Draining,
    Drained,
    Failed(String),
}

/// What is known of one pending operation when it is serviced.
pub enum Observed {
    Wait(TrackWaitEvaluation),
    Drain(DrainPoll),
}

/// One operation the session owes a reply for.
#[derive(Clone, Copy, Debug, PartialEq, Eq)]
pub enum Pending {
    /// A bounded, one-shot condition on a track's current channel generation.
    TrackWait {
        request_id: u64,
        object_id: u64,
        identity: TrackIdentity,
        generation: u64,
        condition: u64,
        value: Option<u64>,
        deadline_us: u64,
    },
    /// A drain: audio completes only after its end of stream, decoder flush, and queued samples.
    AudioDrain { request_id: u64, object_id: u64, identity: TrackIdentity, generation: u64 },
}

impl Pending {
    pub open spec fn is_wait_spec(self) -> bool {
        self is TrackWait
    }

    /// The request this operation answers.
    pub open spec fn request(self) -> u64 {
        match self {
            Pending::TrackWait { request_id, .. } => request_id,
            Pending::AudioDrain { request_id, .. } => request_id,
        }
    }

    /// The object this operation is about.
    pub open spec fn object(self) -> u64 {
        match self {
            Pending::TrackWait { object_id, .. } => object_id,
            Pending::AudioDrain { object_id, .. } => object_id,
        }
    }

    fn is_wait(&self) -> (r: bool)
        ensures
            r == self.is_wait_spec(),
    {
        match self {
            Pending::TrackWait { .. } => true,
            Pending::AudioDrain { .. } => false,
        }
    }

    fn request_id(&self) -> (r: u64)
        ensures
            r == self.request(),
    {
        match self {
            Pending::TrackWait { request_id, .. } => *request_id,
            Pending::AudioDrain { request_id, .. } => *request_id,
        }
    }

    fn object_id(&self) -> (r: u64)
        ensures
            r == self.object(),
    {
        match self {
            Pending::TrackWait { object_id, .. } => *object_id,
            Pending::AudioDrain { object_id, .. } => *object_id,
        }
    }
}

/// Why a pending entry could not be registered.
#[derive(Debug, Clone, Copy, PartialEq, Eq, Structural)]
pub enum AdmissionError {
    /// The registered-wait contract is exhausted.
    Waits,
    /// The pending-request contract is exhausted.
    Requests,
}

/// How many of the entries are waits.
pub open spec fn wait_count(entries: Seq<Pending>) -> nat
    decreases entries.len(),
{
    if entries.len() == 0 {
        0
    } else {
        wait_count(entries.drop_last()) + (if entries.last().is_wait_spec() {
            1nat
        } else {
            0nat
        })
    }
}

proof fn lemma_wait_count_bound(entries: Seq<Pending>)
    ensures
        wait_count(entries) <= entries.len(),
    decreases entries.len(),
{
    if entries.len() > 0 {
        lemma_wait_count_bound(entries.drop_last());
    }
}

/// The payload that tells a waiter what satisfied its condition.
pub open spec fn wait_satisfied_view(
    identity: TrackIdentity,
    condition: u64,
    satisfied: TrackWaitSatisfied,
) -> Seq<(u64, ValueView)> {
    seq![
        (0u64, ValueView::Unsigned(identity.surface.context.context_id)),
        (1u64, ValueView::Unsigned(identity.surface.surface_id)),
        (2u64, ValueView::Unsigned(identity.track_id)),
        (3u64, ValueView::Unsigned(satisfied.revision)),
        (4u64, ValueView::Unsigned(satisfied.channel_generation)),
        (5u64, ValueView::Unsigned(condition)),
        (6u64, ValueView::Unsigned(satisfied.observed_value)),
    ]
}

/// The body that tells a waiter what satisfied its condition.
pub fn wait_satisfied_body(
    request_id: u64,
    identity: TrackIdentity,
    condition: u64,
    satisfied: TrackWaitSatisfied,
) -> (r: Vec<u8>)
    ensures
        r@ == or_ok(
            request_id,
            envelope_bytes(request_id, wait_satisfied_view(identity, condition, satisfied)),
        ),
{
    let payload = vec![
        (0u64, unsigned(identity.surface.context.context_id)),
        (1u64, unsigned(identity.surface.surface_id)),
        (2u64, unsigned(identity.track_id)),
        (3u64, unsigned(satisfied.revision)),
        (4u64, unsigned(satisfied.channel_generation)),
        (5u64, unsigned(condition)),
        (6u64, unsigned(satisfied.observed_value)),
    ];
    assert(payload_view(payload@) =~= wait_satisfied_view(identity, condition, satisfied));
    envelope_or_ok(request_id, payload)
}

/// The reply an operation gets now, or none while it stays pending.
pub open spec fn resolution(
    entry: Pending,
    observed: Observed,
    cancelled: bool,
    now_us: u64,
) -> Option<(u16, u64, Seq<u8>)> {
    if cancelled {
        Some(
            (
                protocol::ERROR,
                entry.object(),
                error_body_bytes(
                    entry.request(),
                    protocol::ERROR_CANCELLED,
                    "track wait was cancelled"@,
                ),
            ),
        )
    } else {
        match (entry, observed) {
            (
                Pending::TrackWait { request_id, object_id, identity, condition, deadline_us, .. },
                Observed::Wait(evaluation),
            ) => match evaluation {
                TrackWaitEvaluation::Satisfied(satisfied) => Some(
                    (
                        protocol::WAIT_SATISFIED,
                        object_id,
                        or_ok(
                            request_id,
                            envelope_bytes(
                                request_id,
                                wait_satisfied_view(identity, condition, satisfied),
                            ),
                        ),
                    ),
                ),
                TrackWaitEvaluation::NotFound => Some(
                    (
                        protocol::ERROR,
                        object_id,
                        error_body_bytes(
                            request_id,
                            protocol::ERROR_NOT_FOUND,
                            "track does not exist"@,
                        ),
                    ),
                ),
                TrackWaitEvaluation::Lost => Some(
                    (
                        protocol::ERROR,
                        object_id,
                        error_body_bytes(
                            request_id,
                            protocol::ERROR_BAD_STATE,
                            "track was lost while waiting"@,
                        ),
                    ),
                ),
                TrackWaitEvaluation::StaleGeneration => Some(
                    (
                        protocol::ERROR,
                        object_id,
                        error_body_bytes(
                            request_id,
                            protocol::ERROR_STALE_CHANNEL_GENERATION,
                            "track wait names a stale channel generation"@,
                        ),
                    ),
                ),
                TrackWaitEvaluation::NotVisible => Some(
                    (
                        protocol::ERROR,
                        object_id,
                        error_body_bytes(
                            request_id,
                            protocol::ERROR_NOT_VISIBLE,
                            "track has no eligible visible placement"@,
                        ),
                    ),
                ),
                TrackWaitEvaluation::Pending => if now_us < deadline_us {
                    None
                } else {
                    Some(
                        (
                            protocol::ERROR,
                            object_id,
                            error_body_bytes(
                                request_id,
                                protocol::ERROR_TIMEOUT,
                                "track wait timed out"@,
                            ),
                        ),
                    )
                },
            },
            (Pending::AudioDrain { request_id, object_id, .. }, Observed::Drain(poll)) => match poll {
                DrainPoll::Draining => None,
                DrainPoll::Drained => Some((protocol::OK, object_id, ok_bytes(request_id))),
                DrainPoll::Failed(diagnostic) => Some(
                    (
                        protocol::ERROR,
                        object_id,
                        error_body_bytes(request_id, protocol::ERROR_DEVICE_LOST, diagnostic@),
                    ),
                ),
            },
            _ => None,
        }
    }
}

/// The track whose buffered media ended, where an operation learns that now.
pub open spec fn drained(entry: Pending, observed: Observed, cancelled: bool) -> Option<
    (TrackIdentity, u64),
> {
    match (entry, observed) {
        (
            Pending::AudioDrain { identity, generation, .. },
            Observed::Drain(DrainPoll::Drained),
        ) if !cancelled => Some((identity, generation)),
        _ => None,
    }
}

/// What servicing does to the entries, the cancellations, and the replies.
pub struct Serviced {
    pub kept: Seq<Pending>,
    pub replies: Seq<(u16, u64, Seq<u8>)>,
    pub ended: Seq<(TrackIdentity, u64)>,
    pub cancelled: Set<u64>,
}

/// Servicing the entries one after the other. A cancellation is used up by the first entry whose
/// request it names.
pub open spec fn serviced(
    entries: Seq<Pending>,
    observed: Seq<Observed>,
    cancelled: Set<u64>,
    now_us: u64,
) -> Serviced
    decreases entries.len(),
{
    if entries.len() == 0 {
        Serviced { kept: seq![], replies: seq![], ended: seq![], cancelled }
    } else {
        let before = serviced(entries.drop_last(), observed.drop_last(), cancelled, now_us);
        let entry = entries.last();
        let named = before.cancelled.contains(entry.request());
        let reply = resolution(entry, observed.last(), named, now_us);
        Serviced {
            kept: if reply is None {
                before.kept.push(entry)
            } else {
                before.kept
            },
            replies: match reply {
                Some(record) => before.replies.push(record),
                None => before.replies,
            },
            ended: match drained(entry, observed.last(), named) {
                Some(track) => before.ended.push(track),
                None => before.ended,
            },
            cancelled: before.cancelled.remove(entry.request()),
        }
    }
}

/// Every observation is of the kind its entry asks for.
pub open spec fn observed_for(entries: Seq<Pending>, observed: Seq<Observed>) -> bool {
    &&& entries.len() == observed.len()
    &&& forall|i: int|
        0 <= i < entries.len() ==> ((#[trigger] entries[i]) is TrackWait <==> observed[i] is Wait)
}

/// The reply one operation gets now.
fn resolve(entry: &Pending, observed: &Observed, cancelled: bool, now_us: u64) -> (r: Option<
    OutgoingRecord,
>)
    requires
        entry is TrackWait <==> observed is Wait,
    ensures
        match r {
            Some(record) => resolution(*entry, *observed, cancelled, now_us) == Some(
                record_view(record),
            ),
            None => resolution(*entry, *observed, cancelled, now_us) is None,
        },
{
    if cancelled {
        let body = error_body(
            entry.request_id(),
            protocol::ERROR_CANCELLED,
            "track wait was cancelled",
        );
        return Some((protocol::ERROR, entry.object_id(), body));
    }
    match entry {
        Pending::TrackWait { request_id, object_id, identity, condition, deadline_us, .. } => {
            let evaluation = match observed {
                Observed::Wait(evaluation) => *evaluation,
                Observed::Drain(_) => {
                    return None;
                },
            };
            match evaluation {
                TrackWaitEvaluation::Satisfied(satisfied) => Some(
                    (
                        protocol::WAIT_SATISFIED,
                        *object_id,
                        wait_satisfied_body(*request_id, *identity, *condition, satisfied),
                    ),
                ),
                TrackWaitEvaluation::NotFound => Some(
                    (
                        protocol::ERROR,
                        *object_id,
                        error_body(*request_id, protocol::ERROR_NOT_FOUND, "track does not exist"),
                    ),
                ),
                TrackWaitEvaluation::Lost => Some(
                    (
                        protocol::ERROR,
                        *object_id,
                        error_body(
                            *request_id,
                            protocol::ERROR_BAD_STATE,
                            "track was lost while waiting",
                        ),
                    ),
                ),
                TrackWaitEvaluation::StaleGeneration => Some(
                    (
                        protocol::ERROR,
                        *object_id,
                        error_body(
                            *request_id,
                            protocol::ERROR_STALE_CHANNEL_GENERATION,
                            "track wait names a stale channel generation",
                        ),
                    ),
                ),
                TrackWaitEvaluation::NotVisible => Some(
                    (
                        protocol::ERROR,
                        *object_id,
                        error_body(
                            *request_id,
                            protocol::ERROR_NOT_VISIBLE,
                            "track has no eligible visible placement",
                        ),
                    ),
                ),
                TrackWaitEvaluation::Pending => if now_us < *deadline_us {
                    None
                } else {
                    Some(
                        (
                            protocol::ERROR,
                            *object_id,
                            error_body(
                                *request_id,
                                protocol::ERROR_TIMEOUT,
                                "track wait timed out",
                            ),
                        ),
                    )
                },
            }
        },
        Pending::AudioDrain { request_id, object_id, .. } => match observed {
            Observed::Drain(DrainPoll::Drained) => Some(
                (protocol::OK, *object_id, ok(*request_id)),
            ),
            Observed::Drain(DrainPoll::Failed(diagnostic)) => Some(
                (
                    protocol::ERROR,
                    *object_id,
                    error_body_owned(*request_id, protocol::ERROR_DEVICE_LOST, diagnostic.clone()),
                ),
            ),
            _ => None,
        },
    }
}

/// The session's outstanding operations, bounded by the effective resource contract.
pub struct PendingSet {
    pub entries: Vec<Pending>,
    pub maximum_waits: usize,
    pub maximum_requests: usize,
}

impl PendingSet {
    /// Neither bound of the contract is exceeded.
    pub open spec fn wf(&self) -> bool {
        &&& self.entries@.len() <= self.maximum_requests
        &&& wait_count(self.entries@) <= self.maximum_waits
    }

    /// An empty set with the bounds of a contract, each at most what the machine can count.
    pub fn new(maximum_waits: u64, maximum_requests: u64) -> (r: Self)
        ensures
            r.wf(),
            r.entries@ == Seq::<Pending>::empty(),
            r.maximum_waits == (if maximum_waits <= usize::MAX {
                maximum_waits as usize
            } else {
                usize::MAX
            }),
            r.maximum_requests == (if maximum_requests <= usize::MAX {
                maximum_requests as usize
            } else {
                usize::MAX
            }),
    {
        PendingSet {
            entries: Vec::new(),
            maximum_waits: saturating_usize(maximum_waits),
            maximum_requests: saturating_usize(maximum_requests),
        }
    }

    /// Register an operation, unless a bound of the contract is reached.
    pub fn register(&mut self, entry: Pending) -> (r: Result<(), AdmissionError>)
        requires
            old(self).wf(),
        ensures
            final(self).wf(),
            final(self).maximum_waits == old(self).maximum_waits,
            final(self).maximum_requests == old(self).maximum_requests,
            r == (if old(self).entries@.len() >= old(self).maximum_requests {
                Err::<(), AdmissionError>(AdmissionError::Requests)
            } else if entry is TrackWait && wait_count(old(self).entries@) >= old(
                self,
            ).maximum_waits {
                Err(AdmissionError::Waits)
            } else {
                Ok(())
            }),
            final(self).entries@ == (if r is Ok {
                old(self).entries@.push(entry)
            } else {
                old(self).entries@
            }),
    {
        if self.entries.len() >= self.maximum_requests {
            return Err(AdmissionError::Requests);
        }
        if entry.is_wait() && self.registered_waits() >= self.maximum_waits {
            return Err(AdmissionError::Waits);
        }
        self.entries.push(entry);
        assert(self.entries@.drop_last() =~= old(self).entries@);
        Ok(())
    }

    /// How many waits are registered.
    fn registered_waits(&self) -> (r: usize)
        ensures
            r == wait_count(self.entries@),
    {
        let mut count: usize = 0;
        let mut index: usize = 0;
        while index < self.entries.len()
            invariant
                index <= self.entries@.len(),
                count == wait_count(self.entries@.take(index as int)),
                count <= index,
            decreases self.entries@.len() - index,
        {
            assert(self.entries@.take(index + 1).drop_last() =~= self.entries@.take(index as int));
            if self.entries[index].is_wait() {
                count = count + 1;
            }
            index = index + 1;
        }
        assert(self.entries@.take(index as int) =~= self.entries@);
        count
    }

    /// Whether nothing is outstanding.
    pub fn is_empty(&self) -> (r: bool)
        ensures
            r == (self.entries@.len() == 0),
    {
        self.entries.len() == 0
    }

    /// Resolve whatever is ready, queueing replies on the egress, and return the tracks whose
    /// buffered media has ended.
    ///
    /// `cancelled` holds the request IDs that were cancelled. A cancellation that arrives after its
    /// wait completed names no entry and is kept.
    pub fn service(
        &mut self,
        observed: &Vec<Observed>,
        egress: &mut Egress,
        cancelled: &mut HashSet<u64>,
        now_us: u64,
    ) -> (ended: Vec<(TrackIdentity, u64)>)
        requires
            old(self).wf(),
            old(egress).wf(),
            observed_for(old(self).entries@, observed@),
        ensures
            final(self).wf(),
            final(egress).wf(),
            final(self).maximum_waits == old(self).maximum_waits,
            final(self).maximum_requests == old(self).maximum_requests,
            ({
                let outcome = serviced(old(self).entries@, observed@, old(cancelled)@, now_us);
                &&& final(self).entries@ == outcome.kept
                &&& ended@ == outcome.ended
                &&& final(cancelled)@ == outcome.cancelled
                &&& batch_offered(*old(egress), *final(egress), outcome.replies)
            }),
    {
        broadcast use vstd::std_specs::hash::group_hash_axioms;

        let mut kept: Vec<Pending> = Vec::new();
        let mut replies: VecDeque<OutgoingRecord> = VecDeque::new();
        let mut ended: Vec<(TrackIdentity, u64)> = Vec::new();
        let mut index: usize = 0;
        let ghost entries = self.entries@;
        proof {
            assert(entries.take(0) =~= Seq::<Pending>::empty());
        }
        while index < self.entries.len()
            invariant
                index <= entries.len(),
                self.entries@ == entries,
                old(self).entries@ == entries,
                self.maximum_waits == old(self).maximum_waits,
                self.maximum_requests == old(self).maximum_requests,
                *egress == *old(egress),
                observed_for(entries, observed@),
                kept@.len() <= index,
                wait_count(kept@) <= wait_count(entries.take(index as int)),
                ({
                    let outcome = serviced(
                        entries.take(index as int),
                        observed@.take(index as int),
                        old(cancelled)@,
                        now_us,
                    );
                    &&& kept@ == outcome.kept
                    &&& records_view(replies@) == outcome.replies
                    &&& ended@ == outcome.ended
                    &&& cancelled@ == outcome.cancelled
                }),
            decreases entries.len() - index,
        {
            let entry = self.entries[index];
            let ghost earlier = kept@;
            proof {
                assert(entries.take(index + 1).drop_last() =~= entries.take(index as int));
                assert(observed@.take(index + 1).drop_last() =~= observed@.take(index as int));
                assert(entries.take(index + 1).last() == entry);
                assert(observed@.take(index + 1).last() == observed@[index as int]);
                assert(entries[index as int] is TrackWait <==> observed@[index as int] is Wait);
            }
            let request = entry.request_id();
            let named = cancelled.remove(&request);
            if let Pending::AudioDrain { identity, generation, .. } = entry {
                if let Observed::Drain(DrainPoll::Drained) = &observed[index] {
                    if !named {
                        ended.push((identity, generation));
                    }
                }
            }
            match resolve(&entry, &observed[index], named, now_us) {
                Some(record) => {
                    let ghost earlier_replies = replies@;
                    replies.push_back(record);
                    assert(records_view(replies@) =~= records_view(earlier_replies).push(
                        record_view(record),
                    ));
                },
                None => {
                    kept.push(entry);
                    assert(kept@.drop_last() =~= earlier);
                },
            }
            index = index + 1;
        }
        proof {
            assert(entries.take(index as int) =~= entries);
            assert(observed@.take(index as int) =~= observed@);
        }
        self.entries = kept;
        send_all(egress, replies);
        ended
    }
}

/// The count a machine can hold for a number of the contract.
fn saturating_usize(value: u64) -> (r: usize)
    ensures
        r == (if value <= usize::MAX {
            value as usize
        } else {
            usize::MAX
        }),
{
    if value <= usize::MAX as u64 {
        value as usize
    } else {
        usize::MAX
    }
}

/// A reply that could not be queued, because the control egress is closed.
#[derive(Clone, Copy, Debug, PartialEq, Eq, Structural)]
pub struct ControlEgressClosed;

/// Queue a reply.
pub fn deliver(egress: &mut Egress, reply: OutgoingRecord) -> (r: Result<(), ControlEgressClosed>)
    requires
        old(egress).wf(),
    ensures
        final(egress).wf(),
        r is Ok <==> !old(egress).closed && old(egress).records@.len() < EGRESS_CAPACITY,
        final(egress).records@ == (if r is Ok {
            old(egress).records@.push(reply)
        } else {
            old(egress).records@
        }),
        carried_on(*old(egress), *final(egress), r is Err && !old(egress).closed),
{
    if egress.send(reply.0, reply.1, reply.2) {
        return Ok(());
    }
    Err(ControlEgressClosed)
}

proof fn lemma_serviced(
    entries: Seq<Pending>,
    observed: Seq<Observed>,
    cancelled: Set<u64>,
    now_us: u64,
)
    requires
        entries.len() == observed.len(),
    ensures
        ({
            let outcome = serviced(entries, observed, cancelled, now_us);
            &&& outcome.kept.len() + outcome.replies.len() == entries.len()
            &&& outcome.cancelled.subset_of(cancelled)
        }),
    decreases entries.len(),
{
    if entries.len() > 0 {
        lemma_serviced(entries.drop_last(), observed.drop_last(), cancelled, now_us);
    }
}

/// Every serviced operation either stays pending or is answered, exactly once: none is dropped in
/// silence and none is answered twice. Servicing invents no cancellation.
pub proof fn every_pending_operation_is_kept_or_answered(
    entries: Seq<Pending>,
    observed: Seq<Observed>,
    cancelled: Set<u64>,
    now_us: u64,
)
    requires
        entries.len() == observed.len(),
    ensures
        serviced(entries, observed, cancelled, now_us).kept.len() + serviced(
            entries,
            observed,
            cancelled,
            now_us,
        ).replies.len() == entries.len(),
        serviced(entries, observed, cancelled, now_us).cancelled.subset_of(cancelled),
{
    lemma_serviced(entries, observed, cancelled, now_us);
}

/// A cancellation that names no outstanding operation is harmless: it changes no reply, keeps every
/// operation that would have stayed, and survives.
pub proof fn a_cancellation_that_names_nothing_is_harmless(
    entries: Seq<Pending>,
    observed: Seq<Observed>,
    cancelled: Set<u64>,
    extra: u64,
    now_us: u64,
)
    requires
        entries.len() == observed.len(),
        !cancelled.contains(extra),
        forall|i: int| 0 <= i < entries.len() ==> (#[trigger] entries[i]).request() != extra,
    ensures
        ({
            let plain = serviced(entries, observed, cancelled, now_us);
            let more = serviced(entries, observed, cancelled.insert(extra), now_us);
            &&& more.kept == plain.kept
            &&& more.replies == plain.replies
            &&& more.ended == plain.ended
            &&& more.cancelled == plain.cancelled.insert(extra)
        }),
    decreases entries.len(),
{
    if entries.len() > 0 {
        assert forall|i: int| 0 <= i < entries.drop_last().len() implies (
        #[trigger] entries.drop_last()[i]).request() != extra by {
            assert(entries.drop_last()[i] == entries[i]);
        }
        a_cancellation_that_names_nothing_is_harmless(
            entries.drop_last(),
            observed.drop_last(),
            cancelled,
            extra,
            now_us,
        );
        let plain = serviced(entries, observed, cancelled, now_us);
        let more = serviced(entries, observed, cancelled.insert(extra), now_us);
        assert(entries.last() == entries[entries.len() - 1]);
        assert(more.cancelled =~= plain.cancelled.insert(extra));
    }
}

/// Once an egress has refused a record it never takes another, and it stays closed.
pub proof fn a_closed_egress_takes_nothing(
    before: Seq<(u16, u64, Seq<u8>)>,
    batch: Seq<(u16, u64, Seq<u8>)>,
)
    ensures
        offered(before, true, batch) == before,
{
}

/// However much is offered, the queue never grows past its capacity.
pub proof fn the_egress_never_outgrows_its_capacity(
    before: Seq<(u16, u64, Seq<u8>)>,
    closed: bool,
    batch: Seq<(u16, u64, Seq<u8>)>,
)
    requires
        before.len() <= EGRESS_CAPACITY,
    ensures
        offered(before, closed, batch).len() <= EGRESS_CAPACITY,
{
}

/// Records leave in the order in which they came: what is sent into an empty queue is what leaves
/// next, and what is sent behind others leaves after them.
pub proof fn records_leave_in_the_order_they_came(
    egress: &mut Egress,
    record_type: u16,
    object_id: u64,
    body: Vec<u8>,
    taken: bool,
    later: &mut Egress,
    r: NextRecord,
)
    requires
        old(egress).wf(),
        call_ensures(Egress::send, (egress, record_type, object_id, body), taken),
        *final(egress) == *old(later),
        call_ensures(Egress::next, (later,), r),
    ensures
        taken <==> !old(egress).closed && old(egress).records@.len() < 256,
        taken && old(egress).records@.len() == 0 ==> r == NextRecord::Write(
            record_type,
            object_id,
            body,
        ),
        old(egress).records@.len() > 0 ==> (r matches NextRecord::Write(first_type, first_object, first)
            && (first_type, first_object, first) == old(egress).records@[0]),
        taken ==> final(egress).records@.last() == (record_type, object_id, body),
        !taken && old(egress).records@.len() == 0 ==> r is Finished,
        !taken ==> final(egress).closed,
        !taken && !old(egress).closed ==> final(egress).overflowed,
{
}

/// A queue that could not take a record or could not be written stops whoever reads for it, and so
/// does one that is closed when the reader is made known; each of them once.
pub proof fn a_queue_that_gives_up_stops_its_reader(
    egress: &mut Egress,
    handle: u64,
    later: &mut Egress,
    last: &mut Egress,
    r: Option<u64>,
)
    requires
        old(egress).wf(),
        !old(egress).closed,
        old(egress).stop is None,
        call_ensures(Egress::set_shutdown, (egress, handle), ()),
        *final(egress) == *old(later),
        call_ensures(Egress::write_failed, (later,), ()),
        *final(later) == *old(last),
        call_ensures(Egress::take_stop, (last,), r),
    ensures
        old(later).stop is None,
        r == Some(handle),
        final(last).stop is None,
        final(last).shutdown is None,
        final(last).closed,
{
}

/// A wait is told that it is over as it is over: when it was satisfied with what satisfied it, when
/// it was cancelled or ran out of time with a code of its own, and not before; a reply is about the
/// object that was asked about and answers the request that asked.
pub proof fn a_wait_is_answered_as_it_ends(
    request_id: u64,
    object_id: u64,
    identity: TrackIdentity,
    generation: u64,
    condition: u64,
    value: Option<u64>,
    deadline_us: u64,
    evaluation: TrackWaitEvaluation,
    cancelled: bool,
    now_us: u64,
)
    ensures
        ({
            let entry = Pending::TrackWait {
                request_id,
                object_id,
                identity,
                generation,
                condition,
                value,
                deadline_us,
            };
            let reply = resolution(entry, Observed::Wait(evaluation), cancelled, now_us);
            &&& reply is None <==> !cancelled && evaluation is Pending && now_us < deadline_us
            &&& reply matches Some(record) ==> record.1 == object_id
            &&& cancelled ==> reply == Some(
                (
                    4u16,
                    object_id,
                    error_body_bytes(request_id, 24, "track wait was cancelled"@),
                ),
            )
            &&& !cancelled && evaluation is Pending && now_us >= deadline_us ==> reply == Some(
                (4u16, object_id, error_body_bytes(request_id, 20, "track wait timed out"@)),
            )
            &&& !cancelled ==> (evaluation matches TrackWaitEvaluation::Satisfied(satisfied)
                ==> reply == Some(
                (
                    0x12du16,
                    object_id,
                    or_ok(
                        request_id,
                        envelope_bytes(
                            request_id,
                            wait_satisfied_view(identity, condition, satisfied),
                        ),
                    ),
                ),
            ))
            &&& !cancelled && evaluation is NotFound ==> reply == Some(
                (4u16, object_id, error_body_bytes(request_id, 8, "track does not exist"@)),
            )
            &&& !cancelled && evaluation is Lost ==> reply == Some(
                (4u16, object_id, error_body_bytes(request_id, 6, "track was lost while waiting"@)),
            )
            &&& !cancelled && evaluation is StaleGeneration ==> reply == Some(
                (
                    4u16,
                    object_id,
                    error_body_bytes(
                        request_id,
                        27,
                        "track wait names a stale channel generation"@,
                    ),
                ),
            )
            &&& !cancelled && evaluation is NotVisible ==> reply == Some(
                (
                    4u16,
                    object_id,
                    error_body_bytes(request_id, 23, "track has no eligible visible placement"@),
                ),
            )
        }),
{
}

/// A drain is acknowledged once everything was heard, and told of the device that was lost; while
/// sound is still to be heard it stays. Only a drain that was heard out ends its track.
pub proof fn a_drain_is_answered_as_it_ends(
    request_id: u64,
    object_id: u64,
    identity: TrackIdentity,
    generation: u64,
    poll: DrainPoll,
    now_us: u64,
)
    ensures
        ({
            let entry = Pending::AudioDrain { request_id, object_id, identity, generation };
            let reply = resolution(entry, Observed::Drain(poll), false, now_us);
            &&& reply is None <==> poll is Draining
            &&& poll is Drained ==> reply == Some((3u16, object_id, ok_bytes(request_id)))
            &&& poll matches DrainPoll::Failed(diagnostic) ==> reply == Some(
                (4u16, object_id, error_body_bytes(request_id, 19, diagnostic@)),
            )
            &&& drained(entry, Observed::Drain(poll), false) == (if poll is Drained {
                Some((identity, generation))
            } else {
                None
            })
            &&& drained(entry, Observed::Drain(poll), true) is None
        }),
{
}

/// What satisfied a wait is told under its own number: the track, its revision and generation, the
/// condition, and what was seen.
pub proof fn what_satisfied_a_wait_is_told_in_its_place(
    identity: TrackIdentity,
    condition: u64,
    satisfied: TrackWaitSatisfied,
)
    ensures
        ({
            let fields = wait_satisfied_view(identity, condition, satisfied);
            &&& fields.len() == 7
            &&& forall|i: int| 0 <= i < 7 ==> (#[trigger] fields[i]).0 == i
            &&& fields[0].1 == ValueView::Unsigned(identity.surface.context.context_id)
            &&& fields[1].1 == ValueView::Unsigned(identity.surface.surface_id)
            &&& fields[2].1 == ValueView::Unsigned(identity.track_id)
            &&& fields[3].1 == ValueView::Unsigned(satisfied.revision)
            &&& fields[4].1 == ValueView::Unsigned(satisfied.channel_generation)
            &&& fields[5].1 == ValueView::Unsigned(condition)
            &&& fields[6].1 == ValueView::Unsigned(satisfied.observed_value)
        }),
{
}

/// An operation is kept while there is room for it: room for requests in any case, and room for
/// waits where it is one. One that is not kept changes nothing.
pub proof fn an_operation_is_kept_while_there_is_room(
    pending: &mut PendingSet,
    entry: Pending,
    r: Result<(), AdmissionError>,
)
    requires
        old(pending).wf(),
        call_ensures(PendingSet::register, (pending, entry), r),
    ensures
        r is Ok <==> old(pending).entries@.len() < old(pending).maximum_requests && (
        entry is AudioDrain || wait_count(old(pending).entries@) < old(pending).maximum_waits),
        r is Ok ==> final(pending).entries@.last() == entry && final(pending).entries@.drop_last()
            == old(pending).entries@,
        r is Err ==> final(pending).entries@ == old(pending).entries@,
        r == Err::<(), AdmissionError>(AdmissionError::Requests) <==> old(pending).entries@.len()
            >= old(pending).maximum_requests,
        wait_count(final(pending).entries@) <= final(pending).maximum_waits,
        final(pending).entries@.len() <= final(pending).maximum_requests,
{
    if r is Ok {
        assert(final(pending).entries@.drop_last() =~= old(pending).entries@);
    }
}

/// A wait counts among the waits, and nothing else does.
pub proof fn only_waits_are_counted(entries: Seq<Pending>, entry: Pending)
    ensures
        wait_count(Seq::empty()) == 0,
        entry is TrackWait ==> wait_count(entries.push(entry)) == wait_count(entries) + 1,
        entry is AudioDrain ==> wait_count(entries.push(entry)) == wait_count(entries),
{
    assert(entries.push(entry).drop_last() =~= entries);
}

/// Several answers are taken in order, as many as there is room for. Where one does not fit the queue
/// gives up, and it takes nothing once it is closed.
pub proof fn answers_are_taken_in_order(
    before: Egress,
    after: Egress,
    batch: Seq<(u16, u64, Seq<u8>)>,
)
    requires
        batch_offered(before, after, batch),
        before.records@.len() <= 256,
    ensures
        before.closed ==> records_view(after.records@) == records_view(before.records@)
            && after.closed,
        !before.closed && before.records@.len() + batch.len() <= 256 ==> records_view(after.records@)
            == records_view(before.records@) + batch && !after.closed && after.overflowed
            == before.overflowed,
        !before.closed && before.records@.len() + batch.len() > 256 ==> after.closed
            && after.overflowed && after.records@.len() == 256 && records_view(after.records@)
            == records_view(before.records@) + batch.take(256 - before.records@.len()),
{
    assert(records_view(before.records@).len() == before.records@.len());
    assert(records_view(after.records@).len() == after.records@.len());
}

/// An answer is delivered where there is room, and a queue that has none gives up.
pub proof fn an_answer_is_delivered_where_there_is_room(
    egress: &mut Egress,
    reply: OutgoingRecord,
    r: Result<(), ControlEgressClosed>,
)
    requires
        call_ensures(deliver, (egress, reply), r),
    ensures
        r is Ok <==> !old(egress).closed && old(egress).records@.len() < 256,
        r is Ok ==> final(egress).records@ == old(egress).records@.push(reply) && !final(egress).closed,
        r is Err ==> final(egress).records@ == old(egress).records@ && final(egress).closed,
        r is Err && !old(egress).closed ==> final(egress).overflowed,
{
}

} // verus!
