//! What a session is told of changes it subscribed to.
//!
//! Observations are not actionable: a later one about the same object takes the place of an earlier
//! one, and under pressure the oldest is dropped and the gap is reported.

use vstd::prelude::*;
use vivid_protocol::cbor::Value;
use vivid_protocol::messages::MessageError;
use vivid_protocol::observation::ObservationQueue;

use crate::actor::{carried_on, records_view, Egress, EGRESS_CAPACITY};
use crate::identity::{SurfaceIdentity, TrackIdentity};
use crate::number::unsigned_64;
use crate::protocol::{SCENE_CHANGED, SURFACE_CHANGED, TRACK_CHANGED};
use crate::reply::{envelope, envelope_bytes};
use crate::value::{payload_view, unsigned, ValueView};

verus! {

/// The class of changes to surfaces.
pub const CLASS_SURFACE: u64 = 1;

/// The class of changes to tracks.
pub const CLASS_TRACK: u64 = 2;

/// The class of changes to the scene.
pub const CLASS_SCENE: u64 = 4;

/// The record that reports lost observations.
pub const OBSERVATION_GAP: u16 = 0x000f;

/// A surface came or went.
pub const SURFACE_CHANGED_LIFECYCLE: u64 = 1;

/// A surface changed its size or its generation.
pub const SURFACE_CHANGED_GEOMETRY: u64 = 2;

/// A surface plays other tracks.
pub const SURFACE_CHANGED_SLOTS: u64 = 16;

/// A track came or went.
pub const TRACK_CHANGED_LIFECYCLE: u64 = 1;

/// A track moved to another channel.
pub const TRACK_CHANGED_CHANNEL: u64 = 2;

/// A track was activated.
pub const TRACK_CHANGED_ACTIVATION: u64 = 8;

/// The loudness of a track changed.
pub const TRACK_CHANGED_AUDIO_GAIN: u64 = 16;

/// A producer committed to the scene.
pub const SCENE_CHANGED_PRODUCER_COMMIT: u64 = 1;

/// A bounded queue of observations, held by the protocol's own type.
#[verifier::external_type_specification]
#[verifier::external_body]
pub struct ExObservationQueue(vivid_protocol::observation::ObservationQueue);

/// One queued observation: what it is about, its class, and what it says.
pub struct EntryView {
    pub record_type: u16,
    pub context_id: u64,
    pub object_id: u64,
    pub class: u64,
    pub payload: Seq<(u64, ValueView)>,
}

/// What an observation queue holds.
pub struct QueueView {
    pub mask: u64,
    pub capacity: int,
    pub sequence: u64,
    pub entries: Seq<EntryView>,
    /// The first sequence number that was lost since the last gap was reported, and the classes of
    /// what was lost.
    pub lost: Option<(u64, u64)>,
}

/// What the protocol's queue holds.
pub uninterp spec fn queue_view(queue: ObservationQueue) -> QueueView;

/// Whether two observations are about the same thing.
pub open spec fn same_subject(left: EntryView, right: EntryView) -> bool {
    left.record_type == right.record_type && left.context_id == right.context_id && left.object_id
        == right.object_id
}

/// Where the first queued observation about the same thing stands, or the length where there is
/// none.
pub open spec fn subject_at(entries: Seq<EntryView>, entry: EntryView) -> int
    decreases entries.len(),
{
    if entries.len() == 0 {
        0
    } else if same_subject(entries[0], entry) {
        0
    } else {
        1 + subject_at(entries.drop_first(), entry)
    }
}

/// A queue after an observation was offered to it.
pub open spec fn pushed(queue: QueueView, entry: EntryView) -> QueueView {
    let place = subject_at(queue.entries, entry);
    if queue.mask & entry.class == 0 {
        queue
    } else if place < queue.entries.len() {
        QueueView {
            entries: queue.entries.update(
                place,
                EntryView { payload: entry.payload, ..queue.entries[place] },
            ),
            ..queue
        }
    } else if queue.entries.len() >= queue.capacity {
        let classes = if queue.entries.len() == 0 {
            0
        } else {
            queue.entries[0].class
        };
        QueueView {
            entries: (if queue.entries.len() == 0 {
                queue.entries
            } else {
                queue.entries.drop_first()
            }).push(entry),
            lost: match queue.lost {
                Some((first, seen)) => Some((first, seen | classes)),
                None => Some((unsigned_64(queue.sequence + 1), classes)),
            },
            ..queue
        }
    } else {
        QueueView { entries: queue.entries.push(entry), ..queue }
    }
}

/// Those of some observations whose class is wanted.
pub open spec fn wanted(entries: Seq<EntryView>, mask: u64) -> Seq<EntryView> {
    entries.filter(|entry: EntryView| entry.class & mask != 0)
}

/// An observation as it is sent.
pub struct ObservationView {
    pub record_type: u16,
    pub object_id: u64,
    pub payload: Seq<(u64, ValueView)>,
}

/// What is sent next, and the queue after it. A gap is reported before what follows it.
pub open spec fn drained_next(queue: QueueView) -> (Option<ObservationView>, QueueView) {
    let sequence = unsigned_64(queue.sequence + 1);
    match queue.lost {
        Some((first, classes)) => (
            Some(
                ObservationView {
                    record_type: OBSERVATION_GAP,
                    object_id: 0,
                    payload: seq![
                        (0u64, ValueView::Unsigned(first)),
                        (1u64, ValueView::Unsigned(classes)),
                        (2u64, ValueView::Unsigned(sequence)),
                    ],
                },
            ),
            QueueView { sequence, lost: None, ..queue },
        ),
        None => if queue.entries.len() == 0 {
            (None, queue)
        } else {
            (
                Some(
                    ObservationView {
                        record_type: queue.entries[0].record_type,
                        object_id: queue.entries[0].object_id,
                        payload: queue.entries[0].payload.push(
                            (90u64, ValueView::Unsigned(sequence)),
                        ),
                    },
                ),
                QueueView { sequence, entries: queue.entries.drop_first(), ..queue },
            )
        },
    }
}

/// A queue to which nothing is subscribed and in which nothing is queued. It has room for at least
/// one observation.
pub open spec fn fresh_queue(capacity: u64) -> QueueView {
    QueueView {
        mask: 0,
        capacity: if capacity == 0 {
            1
        } else if capacity <= usize::MAX {
            capacity as int
        } else {
            usize::MAX as int
        },
        sequence: 0,
        entries: Seq::empty(),
        lost: None,
    }
}

/// `vivid_protocol::observation::ObservationQueue::new`: nothing is subscribed or queued; the
/// capacity is at least one.
#[verifier::external_body]
pub(crate) fn new_queue(capacity: u64) -> (r: ObservationQueue)
    ensures
        queue_view(r) == fresh_queue(capacity),
{
    ObservationQueue::new(capacity)
}

/// `vivid_protocol::observation::ObservationQueue::subscribe`: a mask of assigned classes replaces
/// the subscription, and what was queued of other classes is dropped; any other mask is refused.
#[verifier::external_body]
pub(crate) fn subscribe(queue: &mut ObservationQueue, mask: u64) -> (r: Result<(), MessageError>)
    ensures
        r is Ok <==> mask <= 31,
        queue_view(*final(queue)) == (if mask <= 31 {
            QueueView {
                mask,
                entries: wanted(queue_view(*old(queue)).entries, mask),
                ..queue_view(*old(queue))
            }
        } else {
            queue_view(*old(queue))
        }),
{
    queue.subscribe(mask)
}

/// `vivid_protocol::observation::ObservationQueue::push`: an observation of a class that is not
/// subscribed is dropped, one about a queued subject takes its place, and one that finds the queue
/// full pushes the oldest out, which is noted as lost. The three records that reach it here are no
/// actionable ones, which it does not take.
#[verifier::external_body]
fn push_observation(
    queue: &mut ObservationQueue,
    class: u64,
    record_type: u16,
    context_id: u64,
    object_id: u64,
    payload: Vec<(u64, Value)>,
)
    requires
        record_type == SURFACE_CHANGED || record_type == TRACK_CHANGED || record_type
            == SCENE_CHANGED,
    ensures
        queue_view(*final(queue)) == pushed(
            queue_view(*old(queue)),
            EntryView { record_type, context_id, object_id, class, payload: payload_view(payload@) },
        ),
{
    let key = vivid_protocol::observation::ObservationKey { record_type, context_id, object_id };
    queue.push(class, key, payload);
}

/// `vivid_protocol::observation::ObservationQueue::drain_next`: a gap where one is noted, else the
/// oldest observation with its sequence number, else nothing.
#[verifier::external_body]
fn drain_next(queue: &mut ObservationQueue) -> (r: Option<(u16, u64, Vec<(u64, Value)>)>)
    ensures
        queue_view(*final(queue)) == drained_next(queue_view(*old(queue))).1,
        match r {
            Some((record_type, object_id, payload)) => drained_next(queue_view(*old(queue))).0 == Some(
                ObservationView { record_type, object_id, payload: payload_view(payload@) },
            ),
            None => drained_next(queue_view(*old(queue))).0 is None,
        },
{
    queue.drain_next().map(|observation| (observation.record_type, observation.object_id, observation.payload))
}

/// What is said of a surface that changed.
pub open spec fn surface_entry(
    identity: SurfaceIdentity,
    revision: u64,
    generation: u64,
    changed: u64,
) -> EntryView {
    EntryView {
        record_type: SURFACE_CHANGED,
        context_id: identity.context.context_id,
        object_id: identity.surface_id,
        class: CLASS_SURFACE,
        payload: seq![
            (0u64, ValueView::Unsigned(identity.context.context_id)),
            (1u64, ValueView::Unsigned(identity.surface_id)),
            (2u64, ValueView::Unsigned(revision)),
            (3u64, ValueView::Unsigned(generation)),
            (4u64, ValueView::Unsigned(changed)),
        ],
    }
}

/// What is said of a track that changed.
pub open spec fn track_entry(
    identity: TrackIdentity,
    revision: u64,
    generation: u64,
    changed: u64,
) -> EntryView {
    EntryView {
        record_type: TRACK_CHANGED,
        context_id: identity.surface.context.context_id,
        object_id: identity.track_id,
        class: CLASS_TRACK,
        payload: seq![
            (0u64, ValueView::Unsigned(identity.surface.context.context_id)),
            (1u64, ValueView::Unsigned(identity.surface.surface_id)),
            (2u64, ValueView::Unsigned(identity.track_id)),
            (3u64, ValueView::Unsigned(revision)),
            (4u64, ValueView::Unsigned(generation)),
            (5u64, ValueView::Unsigned(changed)),
        ],
    }
}

/// What is said of a scene that changed.
pub open spec fn scene_entry(revision: u64, reason: u64) -> EntryView {
    EntryView {
        record_type: SCENE_CHANGED,
        context_id: 0,
        object_id: 0,
        class: CLASS_SCENE,
        payload: seq![
            (0u64, ValueView::Unsigned(revision)),
            (1u64, ValueView::Unsigned(reason)),
        ],
    }
}

/// Queue what changed of a surface.
pub fn observe_surface(
    queue: &mut ObservationQueue,
    identity: SurfaceIdentity,
    revision: u64,
    generation: u64,
    changed: u64,
)
    ensures
        queue_view(*final(queue)) == pushed(
            queue_view(*old(queue)),
            surface_entry(identity, revision, generation, changed),
        ),
{
    let payload = vec![
        (0u64, unsigned(identity.context.context_id)),
        (1u64, unsigned(identity.surface_id)),
        (2u64, unsigned(revision)),
        (3u64, unsigned(generation)),
        (4u64, unsigned(changed)),
    ];
    assert(payload_view(payload@) =~= surface_entry(identity, revision, generation, changed).payload);
    push_observation(
        queue,
        CLASS_SURFACE,
        SURFACE_CHANGED,
        identity.context.context_id,
        identity.surface_id,
        payload,
    );
}

/// Queue what changed of a track.
pub fn observe_track(
    queue: &mut ObservationQueue,
    identity: TrackIdentity,
    revision: u64,
    generation: u64,
    changed: u64,
)
    ensures
        queue_view(*final(queue)) == pushed(
            queue_view(*old(queue)),
            track_entry(identity, revision, generation, changed),
        ),
{
    let payload = vec![
        (0u64, unsigned(identity.surface.context.context_id)),
        (1u64, unsigned(identity.surface.surface_id)),
        (2u64, unsigned(identity.track_id)),
        (3u64, unsigned(revision)),
        (4u64, unsigned(generation)),
        (5u64, unsigned(changed)),
    ];
    assert(payload_view(payload@) =~= track_entry(identity, revision, generation, changed).payload);
    push_observation(
        queue,
        CLASS_TRACK,
        TRACK_CHANGED,
        identity.surface.context.context_id,
        identity.track_id,
        payload,
    );
}

/// Queue what changed of the scene.
pub fn observe_scene(queue: &mut ObservationQueue, revision: u64, reason: u64)
    ensures
        queue_view(*final(queue)) == pushed(queue_view(*old(queue)), scene_entry(revision, reason)),
{
    let payload = vec![(0u64, unsigned(revision)), (1u64, unsigned(reason))];
    assert(payload_view(payload@) =~= scene_entry(revision, reason).payload);
    push_observation(queue, CLASS_SCENE, SCENE_CHANGED, 0, 0, payload);
}

/// How much is left to send.
pub open spec fn backlog(queue: QueueView) -> nat {
    queue.entries.len() + (if queue.lost is Some {
        1nat
    } else {
        0
    })
}

/// What is queued for a connection that has room for some more records, whether it had room for all,
/// and the queue after that. What the codec refuses is passed over.
pub open spec fn drained(queue: QueueView, room: nat) -> (Seq<(u16, u64, Seq<u8>)>, bool, QueueView)
    decreases backlog(queue),
{
    let (next, rest) = drained_next(queue);
    match next {
        None => (Seq::empty(), true, rest),
        Some(observation) => match envelope_bytes(0, observation.payload) {
            None => drained(rest, room),
            Some(body) => if room == 0 {
                (Seq::empty(), false, rest)
            } else {
                let (records, fitted, last) = drained(rest, (room - 1) as nat);
                (
                    seq![(observation.record_type, observation.object_id, body)] + records,
                    fitted,
                    last,
                )
            },
        },
    }
}

/// How many more records an egress takes.
pub open spec fn room_in(egress: Egress) -> nat {
    if egress.closed {
        0
    } else {
        (EGRESS_CAPACITY - egress.records@.len()) as nat
    }
}

/// Queue whatever accumulated on a session's connection, the oldest first.
pub fn drain_observations(queue: &mut ObservationQueue, egress: &mut Egress)
    requires
        old(egress).wf(),
    ensures
        final(egress).wf(),
        ({
            let (records, fitted, rest) = drained(queue_view(*old(queue)), room_in(*old(egress)));
            &&& records_view(final(egress).records@) == records_view(old(egress).records@) + records
            &&& queue_view(*final(queue)) == rest
            &&& carried_on(*old(egress), *final(egress), !old(egress).closed && !fitted)
        }),
{
    let ghost start = queue_view(*queue);
    let ghost before = *egress;
    let ghost mut sent: Seq<(u16, u64, Seq<u8>)> = Seq::empty();
    assert(records_view(egress.records@) =~= records_view(before.records@) + sent);
    assert(sent + drained(start, room_in(before)).0 =~= drained(start, room_in(before)).0);
    loop
        invariant
            egress.wf(),
            before == *old(egress),
            start == queue_view(*old(queue)),
            *egress == (Egress { records: egress.records, ..before }),
            records_view(egress.records@) == records_view(before.records@) + sent,
            sent + drained(queue_view(*queue), room_in(*egress)).0 == drained(
                start,
                room_in(before),
            ).0,
            drained(queue_view(*queue), room_in(*egress)).1 == drained(start, room_in(before)).1,
            drained(queue_view(*queue), room_in(*egress)).2 == drained(start, room_in(before)).2,
        decreases backlog(queue_view(*queue)),
    {
        let ghost here = queue_view(*queue);
        let ghost now = *egress;
        let next = drain_next(queue);
        let (record_type, object_id, payload) = match next {
            Some(observation) => observation,
            None => {
                assert(sent + Seq::<(u16, u64, Seq<u8>)>::empty() =~= sent);
                return;
            },
        };
        match envelope(0, payload) {
            Err(_) => {},
            Ok(body) => {
                let ghost record = (record_type, object_id, body@);
                if !egress.send(record_type, object_id, body) {
                    assert(sent + Seq::<(u16, u64, Seq<u8>)>::empty() =~= sent);
                    return;
                }
                proof {
                    let rest = drained(queue_view(*queue), room_in(*egress)).0;
                    assert(sent + (seq![record] + rest) =~= sent.push(record) + rest);
                    assert(records_view(egress.records@) =~= records_view(now.records@).push(
                        record,
                    ));
                    assert(records_view(egress.records@) =~= records_view(before.records@)
                        + sent.push(record));
                    sent = sent.push(record);
                }
            },
        }
    }
}

/// A session that did not subscribe to a class is never told of it.
pub proof fn an_unsubscribed_class_is_not_queued(queue: QueueView, entry: EntryView)
    requires
        queue.mask & entry.class == 0,
    ensures
        pushed(queue, entry) == queue,
{
}

/// The queue never holds more than its capacity, and what is pushed out is noted as lost.
pub proof fn observations_are_bounded_and_losses_are_noted(queue: QueueView, entry: EntryView)
    requires
        queue.entries.len() <= queue.capacity,
        queue.capacity >= 1,
    ensures
        pushed(queue, entry).entries.len() <= queue.capacity,
        pushed(queue, entry).entries.len() < queue.entries.len() + 1 && queue.mask & entry.class != 0
            && subject_at(queue.entries, entry) >= queue.entries.len() ==> pushed(queue, entry).lost
            is Some,
{
    lemma_subject_at(queue.entries, entry);
}

proof fn lemma_subject_at(entries: Seq<EntryView>, entry: EntryView)
    ensures
        0 <= subject_at(entries, entry) <= entries.len(),
    decreases entries.len(),
{
    if entries.len() > 0 {
        lemma_subject_at(entries.drop_first(), entry);
    }
}

/// A change is told as the record of its own kind, under the class of its own kind, and names what
/// changed, its revision and how it changed, each in its place.
pub proof fn a_change_is_told_in_its_place(
    surface: SurfaceIdentity,
    track: TrackIdentity,
    revision: u64,
    generation: u64,
    changed: u64,
)
    ensures
        ({
            let of_surface = surface_entry(surface, revision, generation, changed);
            let of_track = track_entry(track, revision, generation, changed);
            let of_scene = scene_entry(revision, changed);
            &&& of_surface.record_type == 0x106 && of_track.record_type == 0x12f
                && of_scene.record_type == 0x209
            &&& of_surface.class == 1 && of_track.class == 2 && of_scene.class == 4
            &&& of_surface.context_id == surface.context.context_id && of_surface.object_id
                == surface.surface_id
            &&& of_track.context_id == track.surface.context.context_id && of_track.object_id
                == track.track_id
            &&& of_surface.payload.len() == 5 && of_track.payload.len() == 6
                && of_scene.payload.len() == 2
            &&& of_surface.payload[0] == (0u64, ValueView::Unsigned(surface.context.context_id))
            &&& of_surface.payload[1] == (1u64, ValueView::Unsigned(surface.surface_id))
            &&& of_surface.payload[2] == (2u64, ValueView::Unsigned(revision))
            &&& of_surface.payload[3] == (3u64, ValueView::Unsigned(generation))
            &&& of_surface.payload[4] == (4u64, ValueView::Unsigned(changed))
            &&& of_track.payload[0] == (0u64, ValueView::Unsigned(track.surface.context.context_id))
            &&& of_track.payload[1] == (1u64, ValueView::Unsigned(track.surface.surface_id))
            &&& of_track.payload[2] == (2u64, ValueView::Unsigned(track.track_id))
            &&& of_track.payload[3] == (3u64, ValueView::Unsigned(revision))
            &&& of_track.payload[4] == (4u64, ValueView::Unsigned(generation))
            &&& of_track.payload[5] == (5u64, ValueView::Unsigned(changed))
            &&& of_scene.payload[0] == (0u64, ValueView::Unsigned(revision))
            &&& of_scene.payload[1] == (1u64, ValueView::Unsigned(changed))
        }),
{
}

/// A queue of observations starts empty and deaf, and has room for one at least.
pub proof fn a_fresh_queue_is_empty_and_deaf(capacity: u64)
    ensures
        fresh_queue(capacity).entries.len() == 0,
        fresh_queue(capacity).mask == 0,
        fresh_queue(capacity).lost is None,
        fresh_queue(capacity).sequence == 0,
        fresh_queue(capacity).capacity >= 1,
        1 <= capacity <= u32::MAX ==> fresh_queue(capacity).capacity == capacity,
{
}

} // verus!
