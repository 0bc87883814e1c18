//! Control records that wait on tracks, play them, and subscribe to what changes.

use vstd::prelude::*;
use vivid_protocol::cbor::Value;

use crate::actor::{
    wait_count, wait_satisfied_view, AdmissionError, OutgoingRecord, Pending, PendingSet,
    TrackWaitEvaluation, TrackWaitSatisfied,
};
use crate::control::{
    acknowledge, acknowledgement, find_malformed, is_reply, keys_allowed, known_number, malformed,
    number, payload_number, payload_signed, payload_track, payload_value, reply, reply_of,
    ControlError,
};
use crate::identity::TrackIdentity;
use crate::observe::{queue_view, subscribe, wanted, QueueView};
use crate::outputs::AudioOutputs;
use crate::protocol::{
    ERROR_BAD_MESSAGE, ERROR_BAD_STATE, ERROR_LIMIT_EXCEEDED, ERROR_NOT_FOUND, ERROR_NOT_VISIBLE,
    ERROR_STALE_CHANNEL_GENERATION, PONG, WAIT_SATISFIED,
};
use crate::session::Session;
use crate::value::{
    lookup, number_at, only_keys, payload_view, signed_at, unsigned, ValueView,
};

verus! {

/// How long a producer waits on a track at most.
pub const MAX_TRACK_WAIT_TIMEOUT_US: u64 = 30_000_000;

/// The one rate at which media plays, in 32.32 fixed point.
pub const PLAY_RATE: i64 = 0x1_0000_0000;

/// The largest mask of observation classes.
pub const OBSERVATION_MASK: u64 = 31;

/// What a producer waits for.
#[derive(Debug, Clone, Copy, PartialEq, Eq)]
pub struct WaitRequest {
    pub track: TrackIdentity,
    pub condition: u64,
    pub value: Option<u64>,
    pub timeout_us: u64,
    pub generation: u64,
}

/// Whether a condition has a value where it needs one, and else none.
pub open spec fn condition_valid(condition: u64, value: Option<u64>) -> bool {
    if 1 <= condition <= 4 {
        value is Some
    } else {
        5 <= condition <= 9 && value is None
    }
}

/// What a producer waits for, or why it may not.
pub open spec fn wait_request(session: Session, payload: Seq<(u64, ValueView)>) -> Result<
    WaitRequest,
    ControlError,
> {
    if !only_keys(ValueView::Entries(payload), seq![0u64, 1, 2, 3, 4, 5, 6]) {
        Err(ControlError::coded(ERROR_BAD_MESSAGE, "invalid WAIT_TRACK schema"))
    } else {
        match payload_track(session, payload) {
            Err(error) => Err(error),
            Ok(track) => if number_at(payload, 3) is None {
                Err(ControlError::coded(ERROR_BAD_MESSAGE, "WAIT_TRACK condition"))
            } else if lookup(payload, 4) is Some && number_at(payload, 4) is None {
                Err(ControlError::coded(ERROR_BAD_MESSAGE, "WAIT_TRACK value"))
            } else if number_at(payload, 5) is None {
                Err(ControlError::coded(ERROR_BAD_MESSAGE, "WAIT_TRACK timeout"))
            } else if number_at(payload, 6) is None {
                Err(ControlError::coded(ERROR_BAD_MESSAGE, "WAIT_TRACK generation"))
            } else if !(0 < number(payload, 5) <= MAX_TRACK_WAIT_TIMEOUT_US) || number(payload, 6)
                == 0 || !condition_valid(number(payload, 3), number_at(payload, 4)) {
                Err(
                    ControlError::coded(
                        ERROR_BAD_MESSAGE,
                        "WAIT_TRACK has an invalid condition, value, generation, or timeout",
                    ),
                )
            } else {
                Ok(
                    WaitRequest {
                        track,
                        condition: number(payload, 3),
                        value: number_at(payload, 4),
                        timeout_us: number(payload, 5),
                        generation: number(payload, 6),
                    },
                )
            },
        }
    }
}

/// Read what a producer waits for.
pub fn read_wait(session: &Session, payload: &Vec<(u64, Value)>) -> (r: Result<
    WaitRequest,
    ControlError,
>)
    requires
        session.wf(),
    ensures
        r == wait_request(*session, payload_view(payload@)),
{
    let allowed: [u64; 7] = [0, 1, 2, 3, 4, 5, 6];
    assert(allowed@ =~= seq![0u64, 1, 2, 3, 4, 5, 6]);
    if !keys_allowed(payload, &allowed) {
        return Err(ControlError::bad_message("invalid WAIT_TRACK schema"));
    }
    let track = match session.payload_track_identity(payload) {
        Ok(track) => track,
        Err(error) => {
            return Err(error);
        },
    };
    let condition: u64 = match payload_number(payload, 3) {
        Some(condition) => condition,
        None => {
            return Err(ControlError::bad_message("WAIT_TRACK condition"));
        },
    };
    let value = payload_number(payload, 4);
    if payload_value(payload, 4).is_some() && value.is_none() {
        return Err(ControlError::bad_message("WAIT_TRACK value"));
    }
    let timeout_us: u64 = match payload_number(payload, 5) {
        Some(timeout_us) => timeout_us,
        None => {
            return Err(ControlError::bad_message("WAIT_TRACK timeout"));
        },
    };
    let generation: u64 = match payload_number(payload, 6) {
        Some(generation) => generation,
        None => {
            return Err(ControlError::bad_message("WAIT_TRACK generation"));
        },
    };
    let valid = if condition >= 1 && condition <= 4 {
        value.is_some()
    } else {
        condition >= 5 && condition <= 9 && value.is_none()
    };
    if timeout_us == 0 || timeout_us > MAX_TRACK_WAIT_TIMEOUT_US || generation == 0 || !valid {
        return Err(
            ControlError::bad_message(
                "WAIT_TRACK has an invalid condition, value, generation, or timeout",
            ),
        );
    }
    Ok(WaitRequest { track, condition, value, timeout_us, generation })
}

/// When a time limit is over. A limit that no clock reaches is over at once.
pub open spec fn deadline_after(now_us: u64, timeout_us: u64) -> u64 {
    if now_us + timeout_us <= u64::MAX {
        (now_us + timeout_us) as u64
    } else {
        now_us
    }
}

/// The wait that is kept until the scene satisfies it.
pub open spec fn pending_wait(
    request: WaitRequest,
    object_id: u64,
    request_id: u64,
    now_us: u64,
) -> Pending {
    Pending::TrackWait {
        request_id,
        object_id,
        identity: request.track,
        generation: request.generation,
        condition: request.condition,
        value: request.value,
        deadline_us: deadline_after(now_us, request.timeout_us),
    }
}

/// Why an operation cannot be kept, if it cannot.
pub open spec fn admission_refusal(pending: PendingSet, entry: Pending, track: TrackIdentity) -> Option<
    ControlError,
> {
    if pending.entries@.len() >= pending.maximum_requests {
        Some(
            ControlError::coded_about(
                ERROR_LIMIT_EXCEEDED,
                "pending request capacity is exhausted",
                track,
            ),
        )
    } else if entry is TrackWait && wait_count(pending.entries@) >= pending.maximum_waits {
        Some(
            ControlError::coded_about(
                ERROR_LIMIT_EXCEEDED,
                "registered wait capacity is exhausted",
                track,
            ),
        )
    } else {
        None
    }
}

/// Whether an operation was kept, or refused without a change.
pub open spec fn operation_kept(
    before: PendingSet,
    after: PendingSet,
    entry: Pending,
    refusal: Option<ControlError>,
) -> bool {
    &&& after.maximum_waits == before.maximum_waits
    &&& after.maximum_requests == before.maximum_requests
    &&& after.entries@ == (if refusal is None {
        before.entries@.push(entry)
    } else {
        before.entries@
    })
}

/// Keep an operation, unless a bound of the contract is reached.
fn keep_operation(pending: &mut PendingSet, entry: Pending, track: TrackIdentity) -> (r: Result<
    (),
    ControlError,
>)
    requires
        old(pending).wf(),
    ensures
        final(pending).wf(),
        operation_kept(
            *old(pending),
            *final(pending),
            entry,
            admission_refusal(*old(pending), entry, track),
        ),
        r == (match admission_refusal(*old(pending), entry, track) {
            Some(error) => Err::<(), ControlError>(error),
            None => Ok(()),
        }),
{
    match pending.register(entry) {
        Ok(_) => Ok(()),
        Err(AdmissionError::Waits) => Err(
            ControlError::limit("registered wait capacity is exhausted").with_track(track),
        ),
        Err(AdmissionError::Requests) => Err(
            ControlError::limit("pending request capacity is exhausted").with_track(track),
        ),
    }
}

/// Why the scene does not wait, if it does not.
pub open spec fn wait_refusal(evaluation: TrackWaitEvaluation, track: TrackIdentity) -> Option<
    ControlError,
> {
    match evaluation {
        TrackWaitEvaluation::NotFound => Some(
            ControlError::coded(ERROR_NOT_FOUND, "track does not exist"),
        ),
        TrackWaitEvaluation::Lost => Some(
            ControlError::coded(ERROR_BAD_STATE, "track was lost while waiting"),
        ),
        TrackWaitEvaluation::StaleGeneration => Some(
            ControlError::coded_about(
                ERROR_STALE_CHANNEL_GENERATION,
                "track wait names a stale channel generation",
                track,
            ),
        ),
        TrackWaitEvaluation::NotVisible => Some(
            ControlError::coded_about(
                ERROR_NOT_VISIBLE,
                "track has no eligible visible placement",
                track,
            ),
        ),
        _ => None,
    }
}

/// The answer to a wait that is satisfied.
pub fn wait_satisfied_payload(track: TrackIdentity, condition: u64, satisfied: TrackWaitSatisfied) -> (r:
    Vec<(u64, Value)>)
    ensures
        payload_view(r@) == wait_satisfied_view(track, condition, satisfied),
{
    let payload = vec![
        (0u64, unsigned(track.surface.context.context_id)),
        (1u64, unsigned(track.surface.surface_id)),
        (2u64, unsigned(track.track_id)),
        (3u64, unsigned(satisfied.revision)),
        (4u64, unsigned(satisfied.channel_generation)),
        (5u64, unsigned(condition)),
        (6u64, unsigned(satisfied.observed_value)),
    ];
    assert(payload_view(payload@) =~= wait_satisfied_view(track, condition, satisfied));
    payload
}

/// Answer a wait with what the scene says of it now. Nothing is answered yet where it is kept.
pub fn answer_wait(
    pending: &mut PendingSet,
    request: &WaitRequest,
    evaluation: TrackWaitEvaluation,
    object_id: u64,
    request_id: u64,
    now_us: u64,
) -> (r: Result<Option<OutgoingRecord>, ControlError>)
    requires
        old(pending).wf(),
    ensures
        final(pending).wf(),
        match evaluation {
            TrackWaitEvaluation::Satisfied(satisfied) => *final(pending) == *old(pending) && (match r {
                Ok(Some(record)) => is_reply(
                    Ok(record),
                    reply_of(
                        WAIT_SATISFIED,
                        object_id,
                        request_id,
                        wait_satisfied_view(request.track, request.condition, satisfied),
                    ),
                ),
                Ok(None) => false,
                Err(error) => is_reply(
                    Err(error),
                    reply_of(
                        WAIT_SATISFIED,
                        object_id,
                        request_id,
                        wait_satisfied_view(request.track, request.condition, satisfied),
                    ),
                ),
            }),
            TrackWaitEvaluation::Pending => {
                let entry = pending_wait(*request, object_id, request_id, now_us);
                let refusal = admission_refusal(*old(pending), entry, request.track);
                &&& operation_kept(*old(pending), *final(pending), entry, refusal)
                &&& r == (match refusal {
                    Some(error) => Err::<Option<OutgoingRecord>, ControlError>(error),
                    None => Ok(None),
                })
            },
            _ => *final(pending) == *old(pending) && r == Err::<Option<OutgoingRecord>, ControlError>(
                wait_refusal(evaluation, request.track)->0,
            ),
        },
{
    match evaluation {
        TrackWaitEvaluation::Satisfied(satisfied) => {
            let payload = wait_satisfied_payload(request.track, request.condition, satisfied);
            match reply(WAIT_SATISFIED, object_id, request_id, payload) {
                Ok(record) => Ok(Some(record)),
                Err(error) => Err(error),
            }
        },
        TrackWaitEvaluation::NotFound => Err(ControlError::not_found("track does not exist")),
        TrackWaitEvaluation::Lost => Err(ControlError::bad_state("track was lost while waiting")),
        TrackWaitEvaluation::StaleGeneration => Err(
            ControlError::with_code(
                ERROR_STALE_CHANNEL_GENERATION,
                "track wait names a stale channel generation",
            ).with_track(request.track),
        ),
        TrackWaitEvaluation::NotVisible => Err(
            ControlError::with_code(
                ERROR_NOT_VISIBLE,
                "track has no eligible visible placement",
            ).with_track(request.track),
        ),
        TrackWaitEvaluation::Pending => {
            let deadline_us: u64 = match now_us.checked_add(request.timeout_us) {
                Some(deadline_us) => deadline_us,
                None => now_us,
            };
            let entry = Pending::TrackWait {
                request_id,
                object_id,
                identity: request.track,
                generation: request.generation,
                condition: request.condition,
                value: request.value,
                deadline_us,
            };
            match keep_operation(pending, entry, request.track) {
                Ok(_) => Ok(None),
                Err(error) => Err(error),
            }
        },
    }
}

/// Read which wait is cancelled.
pub fn read_cancellation(payload: &Vec<(u64, Value)>) -> (r: Result<u64, ControlError>)
    ensures
        r == (match malformed(
            payload_view(payload@),
            seq![0u64],
            "invalid CANCEL_WAIT schema",
            seq![(0u64, "CANCEL_WAIT request ID")],
        ) {
            Some(message) => Err::<u64, ControlError>(
                ControlError::coded(ERROR_BAD_MESSAGE, message),
            ),
            None => Ok(number(payload_view(payload@), 0)),
        }),
{
    let allowed: [u64; 1] = [0];
    let wanted = vec![(0u64, "CANCEL_WAIT request ID")];
    assert(allowed@ =~= seq![0u64]);
    assert(wanted@ =~= seq![(0u64, "CANCEL_WAIT request ID")]);
    match find_malformed(payload, &allowed, "invalid CANCEL_WAIT schema", &wanted) {
        Some(message) => Err(ControlError::bad_message(message)),
        None => Ok(known_number(payload, 0)),
    }
}

/// Where media starts and how much is buffered first.
#[derive(Debug, Clone, Copy, PartialEq, Eq, Structural)]
pub struct PlayRequest {
    pub start_pts_us: i64,
    pub minimum_buffer_us: u64,
}

/// What is wrong with the form of a request to play, if anything is.
pub open spec fn play_malformed(payload: Seq<(u64, ValueView)>) -> Option<&'static str> {
    if !only_keys(ValueView::Entries(payload), seq![0u64, 1, 2, 3, 4, 5, 6, 7, 8, 9, 10]) {
        Some("invalid PLAY schema")
    } else if signed_at(payload, 3) is None {
        Some("PLAY start PTS")
    } else if number_at(payload, 4) is None {
        Some("PLAY minimum buffer")
    } else if number_at(payload, 5) is None {
        Some("PLAY maximum latency")
    } else if signed_at(payload, 6) is None {
        Some("PLAY rate")
    } else if number_at(payload, 10) is None {
        Some("PLAY generation")
    } else {
        None
    }
}

/// Whether the presenter plays media as is asked: at the one rate, with the one policy, of the
/// current channel.
pub open spec fn play_possible(payload: Seq<(u64, ValueView)>, generation: u64) -> bool {
    &&& number(payload, 4) <= number(payload, 5)
    &&& signed_at(payload, 6) == Some(PLAY_RATE)
    &&& number_at(payload, 7) == Some(1u64)
    &&& number_at(payload, 8) == Some(0u64)
    &&& number_at(payload, 9) == Some(1u64)
    &&& number(payload, 10) == generation
}

/// How a track is asked to play, or why it is not.
pub open spec fn play_request(
    track: TrackIdentity,
    generation: Option<u64>,
    payload: Seq<(u64, ValueView)>,
) -> Result<PlayRequest, ControlError> {
    match generation {
        None => Err(ControlError::coded_about(ERROR_NOT_FOUND, "track does not exist", track)),
        Some(generation) => match play_malformed(payload) {
            Some(message) => Err(ControlError::coded_about(ERROR_BAD_MESSAGE, message, track)),
            None => if !play_possible(payload, generation) {
                Err(
                    ControlError::coded_about(
                        ERROR_BAD_STATE,
                        "PLAY policy, latency, rate, or generation is invalid",
                        track,
                    ),
                )
            } else {
                Ok(
                    PlayRequest {
                        start_pts_us: signed_at(payload, 3)->0,
                        minimum_buffer_us: number(payload, 4),
                    },
                )
            },
        },
    }
}

/// Read how a track is asked to play. The scene tells the generation of its channel, where it has
/// the track.
pub fn read_play(track: TrackIdentity, generation: Option<u64>, payload: &Vec<(u64, Value)>) -> (r: Result<
    PlayRequest,
    ControlError,
>)
    ensures
        r == play_request(track, generation, payload_view(payload@)),
{
    let current: u64 = match generation {
        Some(generation) => generation,
        None => {
            return Err(ControlError::not_found("track does not exist").with_track(track));
        },
    };
    let allowed: [u64; 11] = [0, 1, 2, 3, 4, 5, 6, 7, 8, 9, 10];
    assert(allowed@ =~= seq![0u64, 1, 2, 3, 4, 5, 6, 7, 8, 9, 10]);
    if !keys_allowed(payload, &allowed) {
        return Err(ControlError::bad_message("invalid PLAY schema").with_track(track));
    }
    let start_pts_us: i64 = match payload_signed(payload, 3) {
        Some(start_pts_us) => start_pts_us,
        None => {
            return Err(ControlError::bad_message("PLAY start PTS").with_track(track));
        },
    };
    let minimum_buffer_us: u64 = match payload_number(payload, 4) {
        Some(minimum_buffer_us) => minimum_buffer_us,
        None => {
            return Err(ControlError::bad_message("PLAY minimum buffer").with_track(track));
        },
    };
    let maximum_latency_us: u64 = match payload_number(payload, 5) {
        Some(maximum_latency_us) => maximum_latency_us,
        None => {
            return Err(ControlError::bad_message("PLAY maximum latency").with_track(track));
        },
    };
    let rate: i64 = match payload_signed(payload, 6) {
        Some(rate) => rate,
        None => {
            return Err(ControlError::bad_message("PLAY rate").with_track(track));
        },
    };
    let named: u64 = match payload_number(payload, 10) {
        Some(named) => named,
        None => {
            return Err(ControlError::bad_message("PLAY generation").with_track(track));
        },
    };
    let policy = match (
        payload_number(payload, 7),
        payload_number(payload, 8),
        payload_number(payload, 9),
    ) {
        (Some(seventh), Some(eighth), Some(ninth)) => seventh == 1 && eighth == 0 && ninth == 1,
        _ => false,
    };
    if minimum_buffer_us > maximum_latency_us || rate != PLAY_RATE || !policy || named != current {
        return Err(
            ControlError::bad_state(
                "PLAY policy, latency, rate, or generation is invalid",
            ).with_track(track),
        );
    }
    Ok(PlayRequest { start_pts_us, minimum_buffer_us })
}

/// Whether the scene has the track that is to be paused.
pub fn check_pause(track: TrackIdentity, present: bool) -> (r: Result<(), ControlError>)
    ensures
        r == (if present {
            Ok::<(), ControlError>(())
        } else {
            Err(ControlError::coded_about(ERROR_NOT_FOUND, "track does not exist", track))
        }),
{
    if present {
        Ok(())
    } else {
        Err(ControlError::not_found("track does not exist").with_track(track))
    }
}

/// Which epoch a track is flushed to, or why it is not.
pub open spec fn flush_request(
    track: TrackIdentity,
    present: bool,
    payload: Seq<(u64, ValueView)>,
) -> Result<u32, ControlError> {
    if !present {
        Err(ControlError::coded_about(ERROR_NOT_FOUND, "track does not exist", track))
    } else if !only_keys(ValueView::Entries(payload), seq![0u64, 1, 2, 3]) {
        Err(ControlError::coded_about(ERROR_BAD_MESSAGE, "invalid FLUSH schema", track))
    } else if number_at(payload, 3) is None || number(payload, 3) > u32::MAX {
        Err(ControlError::coded_about(ERROR_BAD_MESSAGE, "FLUSH epoch", track))
    } else {
        Ok(number(payload, 3) as u32)
    }
}

/// Read which epoch a track is flushed to.
pub fn read_flush(track: TrackIdentity, present: bool, payload: &Vec<(u64, Value)>) -> (r: Result<
    u32,
    ControlError,
>)
    ensures
        r == flush_request(track, present, payload_view(payload@)),
{
    if !present {
        return Err(ControlError::not_found("track does not exist").with_track(track));
    }
    let allowed: [u64; 4] = [0, 1, 2, 3];
    assert(allowed@ =~= seq![0u64, 1, 2, 3]);
    if !keys_allowed(payload, &allowed) {
        return Err(ControlError::bad_message("invalid FLUSH schema").with_track(track));
    }
    match payload_number(payload, 3) {
        Some(epoch) => if epoch <= u32::MAX as u64 {
            Ok(epoch as u32)
        } else {
            Err(ControlError::bad_message("FLUSH epoch").with_track(track))
        },
        None => Err(ControlError::bad_message("FLUSH epoch").with_track(track)),
    }
}

/// Answer a change of how a track plays with what the scene made of it. The stream that is handed
/// back follows the change.
pub fn answer_playback(
    outputs: &AudioOutputs,
    track: TrackIdentity,
    outcome: Result<(), &'static str>,
    object_id: u64,
    request_id: u64,
) -> (r: (Result<OutgoingRecord, ControlError>, Option<u64>))
    requires
        outputs.wf(),
    ensures
        match outcome {
            Ok(_) => is_reply(r.0, acknowledgement(object_id, request_id)) && r.1 == outputs@.get(
                track,
            ),
            Err(message) => r.1 is None && r.0 == Err::<OutgoingRecord, ControlError>(
                ControlError::coded_about(ERROR_BAD_STATE, message, track),
            ),
        },
{
    match outcome {
        Ok(_) => (acknowledge(object_id, request_id), outputs.stream(&track)),
        Err(message) => (Err(ControlError::state(message).with_track(track)), None),
    }
}

/// What a drain does next.
#[derive(Debug, Clone, Copy, PartialEq, Eq, Structural)]
pub enum DrainStep {
    /// The stream is told that its media ends. It is answered once it played all.
    EndStream(u64),
    /// Nothing plays: the scene notes that the buffered media ended.
    MarkEnded,
}

/// Begin to drain a track. The scene tells the generation of its channel, where it has the track.
pub fn begin_drain(
    pending: &mut PendingSet,
    outputs: &AudioOutputs,
    track: TrackIdentity,
    generation: Option<u64>,
    object_id: u64,
    request_id: u64,
) -> (r: Result<DrainStep, ControlError>)
    requires
        old(pending).wf(),
        outputs.wf(),
    ensures
        final(pending).wf(),
        match (generation, outputs@.get(track)) {
            (None, _) => *final(pending) == *old(pending) && r == Err::<DrainStep, ControlError>(
                ControlError::coded_about(ERROR_NOT_FOUND, "track does not exist", track),
            ),
            (Some(_), None) => *final(pending) == *old(pending) && r == Ok::<DrainStep, ControlError>(
                DrainStep::MarkEnded,
            ),
            (Some(generation), Some(stream)) => {
                let entry = Pending::AudioDrain { request_id, object_id, identity: track, generation };
                let refusal = admission_refusal(*old(pending), entry, track);
                &&& operation_kept(*old(pending), *final(pending), entry, refusal)
                &&& r == (match refusal {
                    Some(error) => Err::<DrainStep, ControlError>(error),
                    None => Ok(DrainStep::EndStream(stream)),
                })
            },
        },
{
    let generation: u64 = match generation {
        Some(generation) => generation,
        None => {
            return Err(ControlError::not_found("track does not exist").with_track(track));
        },
    };
    match outputs.stream(&track) {
        None => Ok(DrainStep::MarkEnded),
        Some(stream) => {
            let entry = Pending::AudioDrain { request_id, object_id, identity: track, generation };
            match keep_operation(pending, entry, track) {
                Ok(_) => Ok(DrainStep::EndStream(stream)),
                Err(error) => Err(error),
            }
        },
    }
}

/// Whether a session subscribed to other classes of observations.
pub open spec fn resubscribed(before: Session, after: Session, mask: u64) -> bool {
    &&& after == (Session { observations: after.observations, ..before })
    &&& queue_view(after.observations) == (QueueView {
        mask,
        entries: wanted(queue_view(before.observations).entries, mask),
        ..queue_view(before.observations)
    })
}

/// Whether nothing changed of a session that can be seen.
pub open spec fn unsubscribed(before: Session, after: Session) -> bool {
    &&& after == (Session { observations: after.observations, ..before })
    &&& queue_view(after.observations) == queue_view(before.observations)
}

/// Why a subscription is refused, if it is.
pub open spec fn subscription_refusal(payload: Seq<(u64, ValueView)>) -> Option<ControlError> {
    match malformed(
        payload,
        seq![0u64],
        "invalid SET_OBSERVATION schema",
        seq![(0u64, "SET_OBSERVATION mask")],
    ) {
        Some(message) => Some(ControlError::coded(ERROR_BAD_MESSAGE, message)),
        None => if number(payload, 0) > OBSERVATION_MASK {
            Some(ControlError::coded(ERROR_BAD_MESSAGE, "unassigned observation class bits"))
        } else {
            None
        },
    }
}

/// Subscribe a session to classes of observations.
pub fn set_observation(
    session: &mut Session,
    payload: &Vec<(u64, Value)>,
    object_id: u64,
    request_id: u64,
) -> (r: Result<OutgoingRecord, ControlError>)
    requires
        old(session).wf(),
    ensures
        final(session).wf(),
        match subscription_refusal(payload_view(payload@)) {
            Some(error) => unsubscribed(*old(session), *final(session)) && r == Err::<
                OutgoingRecord,
                ControlError,
            >(error),
            None => resubscribed(
                *old(session),
                *final(session),
                number(payload_view(payload@), 0),
            ) && is_reply(r, acknowledgement(object_id, request_id)),
        },
{
    let allowed: [u64; 1] = [0];
    let wanted_numbers = vec![(0u64, "SET_OBSERVATION mask")];
    assert(allowed@ =~= seq![0u64]);
    assert(wanted_numbers@ =~= seq![(0u64, "SET_OBSERVATION mask")]);
    if let Some(message) = find_malformed(
        payload,
        &allowed,
        "invalid SET_OBSERVATION schema",
        &wanted_numbers,
    ) {
        return Err(ControlError::bad_message(message));
    }
    match subscribe(&mut session.observations, known_number(payload, 0)) {
        Ok(_) => acknowledge(object_id, request_id),
        Err(_) => Err(ControlError::bad_message("unassigned observation class bits")),
    }
}

/// Answer a ping with what it carried.
pub fn answer_ping(payload: Vec<(u64, Value)>, request_id: u64) -> (r: Result<
    OutgoingRecord,
    ControlError,
>)
    ensures
        is_reply(r, reply_of(PONG, 0, request_id, payload_view(payload@))),
{
    reply(PONG, 0, request_id, payload)
}

/// A wait is for what the request names, under its own numbers; it ends, and it is for a channel
/// that is there. Conditions that count need a value, and the others have none.
pub proof fn a_wait_is_for_what_was_asked(
    session: &Session,
    payload: &Vec<(u64, Value)>,
    r: Result<WaitRequest, ControlError>,
)
    requires
        session.wf(),
        call_ensures(read_wait, (session, payload), r),
    ensures
        r matches Ok(request) ==> {
            let fields = payload_view(payload@);
            &&& number_at(fields, 0) == Some(request.track.surface.context.context_id)
            &&& number_at(fields, 1) == Some(request.track.surface.surface_id)
            &&& number_at(fields, 2) == Some(request.track.track_id)
            &&& number_at(fields, 3) == Some(request.condition)
            &&& number_at(fields, 4) == request.value
            &&& number_at(fields, 5) == Some(request.timeout_us)
            &&& number_at(fields, 6) == Some(request.generation)
            &&& 1 <= request.timeout_us <= 30_000_000
            &&& request.generation >= 1
            &&& 1 <= request.condition <= 9
            &&& request.value is Some <==> request.condition <= 4
        },
{
}

/// A wait that is kept ends when the time that was asked for is over, and keeps all that was asked.
/// Nothing is kept where a wait is answered at once.
pub proof fn a_kept_wait_ends_in_time(
    pending: &mut PendingSet,
    request: &WaitRequest,
    evaluation: TrackWaitEvaluation,
    object_id: u64,
    request_id: u64,
    now_us: u64,
    r: Result<Option<OutgoingRecord>, ControlError>,
)
    requires
        old(pending).wf(),
        call_ensures(
            answer_wait,
            (pending, request, evaluation, object_id, request_id, now_us),
            r,
        ),
    ensures
        !(evaluation is Pending) ==> final(pending).entries@ == old(pending).entries@ && !(r matches Ok(
            answer,
        ) && answer is None),
        r == Ok::<Option<OutgoingRecord>, ControlError>(None) ==> evaluation is Pending && final(pending).entries@.len() == old(pending).entries@.len() + 1 && (final(pending).entries@.last() matches Pending::TrackWait {
            request_id: kept_request,
            object_id: kept_object,
            identity,
            generation,
            condition,
            value,
            deadline_us,
        } && kept_request == request_id && kept_object == object_id && identity == request.track
            && generation == request.generation && condition == request.condition && value
            == request.value && (now_us + request.timeout_us <= u64::MAX ==> deadline_us == now_us
            + request.timeout_us)),
        evaluation is NotFound ==> r is Err && r->Err_0.code == 8,
        evaluation is Lost ==> r is Err && r->Err_0.code == 6,
        evaluation is StaleGeneration ==> r is Err && r->Err_0.code == 27,
        evaluation is NotVisible ==> r is Err && r->Err_0.code == 23,
        evaluation is Pending && r is Err ==> r->Err_0.code == 9 && final(pending).entries@ == old(pending).entries@,
        evaluation is Satisfied ==> (r matches Ok(Some(record)) ==> crate::actor::record_view(record).0 == 0x12d
            && crate::actor::record_view(record).1 == object_id),
{
}

/// A play starts at the time that was asked for and buffers what was asked for, which is no more
/// than the latency allows; it plays at normal speed, and only on the channel that is current.
pub proof fn a_play_is_what_was_asked(
    track: TrackIdentity,
    generation: Option<u64>,
    payload: &Vec<(u64, Value)>,
    r: Result<PlayRequest, ControlError>,
)
    requires
        call_ensures(read_play, (track, generation, payload), r),
    ensures
        generation is None ==> r is Err && r->Err_0.code == 8,
        r matches Ok(play) ==> {
            let fields = payload_view(payload@);
            &&& signed_at(fields, 3) == Some(play.start_pts_us)
            &&& number_at(fields, 4) == Some(play.minimum_buffer_us)
            &&& number_at(fields, 5) matches Some(latency_us) && play.minimum_buffer_us <= latency_us
            &&& signed_at(fields, 6) == Some(0x1_0000_0000i64)
            &&& number_at(fields, 7) == Some(1u64)
            &&& number_at(fields, 8) == Some(0u64)
            &&& number_at(fields, 9) == Some(1u64)
            &&& number_at(fields, 10) == generation
        },
        r matches Err(error) ==> error.track == Some(track),
{
}

/// A flush goes to the epoch that was asked for, on a track that exists.
pub proof fn a_flush_is_to_the_epoch_that_was_asked(
    track: TrackIdentity,
    present: bool,
    payload: &Vec<(u64, Value)>,
    r: Result<u32, ControlError>,
)
    requires
        call_ensures(read_flush, (track, present, payload), r),
    ensures
        r matches Ok(epoch) ==> present && number_at(payload_view(payload@), 3) == Some(epoch as u64),
        !present ==> r is Err && r->Err_0.code == 8,
        present && r is Err ==> r->Err_0.code == 5,
{
}

/// A drain of a track that is heard ends its stream and is answered later; one of a track without
/// sound is over at once; one of a track that does not exist is refused.
pub proof fn a_drain_ends_the_stream_that_is_heard(
    pending: &mut PendingSet,
    outputs: &AudioOutputs,
    track: TrackIdentity,
    generation: Option<u64>,
    object_id: u64,
    request_id: u64,
    r: Result<DrainStep, ControlError>,
)
    requires
        old(pending).wf(),
        outputs.wf(),
        call_ensures(
            begin_drain,
            (pending, outputs, track, generation, object_id, request_id),
            r,
        ),
    ensures
        generation is None ==> r is Err && r->Err_0.code == 8,
        generation is Some && !outputs@.contains_key(track) ==> r == Ok::<DrainStep, ControlError>(
            DrainStep::MarkEnded,
        ) && *final(pending) == *old(pending),
        r matches Ok(DrainStep::EndStream(stream)) ==> {
            &&& outputs@.contains_key(track) && outputs@[track] == stream
            &&& final(pending).entries@.len() == old(pending).entries@.len() + 1
            &&& final(pending).entries@.last() matches Pending::AudioDrain {
                request_id: kept_request,
                object_id: kept_object,
                identity,
                generation: kept_generation,
            } && kept_request == request_id && kept_object == object_id && identity == track
                && Some(kept_generation) == generation
        },
        r is Err ==> final(pending).entries@ == old(pending).entries@,
{
}

/// A pause is for a track that exists.
pub proof fn a_pause_is_for_a_track_that_exists(
    track: TrackIdentity,
    present: bool,
    r: Result<(), ControlError>,
)
    requires
        call_ensures(check_pause, (track, present), r),
    ensures
        r is Ok <==> present,
        r matches Err(error) ==> error.code == 8 && error.track == Some(track),
{
}

/// A change of playing that the scene made is acknowledged and reaches the stream of that track; one
/// that it refused reaches no stream.
pub proof fn playing_reaches_the_stream_of_its_track(
    outputs: &AudioOutputs,
    track: TrackIdentity,
    outcome: Result<(), &'static str>,
    object_id: u64,
    request_id: u64,
    r: (Result<OutgoingRecord, ControlError>, Option<u64>),
)
    requires
        outputs.wf(),
        call_ensures(answer_playback, (outputs, track, outcome, object_id, request_id), r),
    ensures
        r.0 is Ok <==> outcome is Ok,
        outcome is Ok ==> (r.1 is Some <==> outputs@.contains_key(track)),
        r.1 matches Some(stream) ==> outputs@.contains_key(track) && outputs@[track] == stream,
        r.0 matches Ok(record) ==> crate::actor::record_view(record).0 == 3 && crate::actor::record_view(record).1 == object_id,
        outcome matches Err(message) ==> r.1 is None && r.0->Err_0.code == 6 && r.0->Err_0.message
            == message && r.0->Err_0.track == Some(track),
{
}

/// A subscription takes the mask that was asked for, and none with a bit that stands for nothing.
pub proof fn a_subscription_takes_the_mask(
    session: &mut Session,
    payload: &Vec<(u64, Value)>,
    object_id: u64,
    request_id: u64,
    r: Result<OutgoingRecord, ControlError>,
)
    requires
        old(session).wf(),
        call_ensures(set_observation, (session, payload, object_id, request_id), r),
    ensures
        r is Ok ==> {
            &&& number_at(payload_view(payload@), 0) == Some(
                queue_view(final(session).observations).mask,
            )
            &&& queue_view(final(session).observations).mask <= 31
        },
        r is Err ==> queue_view(final(session).observations) == queue_view(
            old(session).observations,
        ) && r->Err_0.code == 5,
        number_at(payload_view(payload@), 0) matches Some(mask) ==> (mask > 31 ==> r is Err),
{
    reveal_with_fuel(crate::control::missing, 2);
}

/// A probe is answered with what it brought.
pub proof fn a_ping_is_answered_in_kind(
    payload: Vec<(u64, Value)>,
    request_id: u64,
    r: Result<OutgoingRecord, ControlError>,
)
    requires
        call_ensures(answer_ping, (payload, request_id), r),
    ensures
        r matches Ok(record) ==> crate::actor::record_view(record).0 == 6 && crate::actor::record_view(record).1 == 0 && crate::reply::envelope_bytes(
            request_id,
            payload_view(payload@),
        ) == Some(crate::actor::record_view(record).2),
{
}

/// A wait ends when its time is up, and at once where that time cannot be told.
pub proof fn a_wait_ends_when_its_time_is_up(now_us: u64, timeout_us: u64)
    ensures
        deadline_after(now_us, timeout_us) >= now_us,
        now_us + timeout_us <= u64::MAX ==> deadline_after(now_us, timeout_us) - now_us == timeout_us,
        now_us + timeout_us > u64::MAX ==> deadline_after(now_us, timeout_us) == now_us,
{
}

/// Four conditions are about a number and have one, five are not and have none. There are no others.
pub proof fn a_condition_has_the_number_it_is_about(condition: u64, value: Option<u64>)
    requires
        condition_valid(condition, value),
    ensures
        1 <= condition <= 9,
        value is Some <==> condition <= 4,
{
}

} // verus!
