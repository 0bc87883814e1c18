//! Control records of tracks.
//!
//! The scene keeps the tracks. A record is read here, the scene is asked, and what the scene says is
//! answered here.

use vstd::prelude::*;
use vivid_protocol::cbor::Value;
use vivid_protocol::observation::ObservationQueue;
use vivid_protocol::track::TrackConfiguration;

use crate::actor::OutgoingRecord;
use crate::context::OP_SURFACE_TRACK_MEDIA;
use crate::control::{
    acknowledge, acknowledgement, find_malformed, first_missing, is_reply, known_number, malformed,
    missing, number, operation_refusal, payload_track, payload_value, reply, reply_of, surface_of,
    track_of, ControlError,
};
use crate::identity::{SurfaceIdentity, TrackIdentity};
use crate::observe::{
    observe_surface, observe_track, pushed, queue_view, surface_entry, track_entry, QueueView,
    SURFACE_CHANGED_SLOTS, TRACK_CHANGED_ACTIVATION, TRACK_CHANGED_AUDIO_GAIN,
    TRACK_CHANGED_CHANNEL, TRACK_CHANGED_LIFECYCLE,
};
use crate::outputs::AudioOutputs;
use crate::protocol::{
    AUDIO_GAIN, CHANNEL_ADVANCED, ERROR_BAD_MESSAGE, ERROR_BAD_STATE, ERROR_NOT_FOUND,
    ERROR_UNSUPPORTED_CONFIG, ERROR_UNSUPPORTED_PROFILE, TRACK_ACTIVATED, TRACK_READY, TRACK_STATUS,
    TRACK_SUPPORT,
};
use crate::session::{has_profile, Session};
use crate::surface_control::{slot_fields, slot_payload, SurfaceStatus};
use crate::track::{
    decode_track, read_track, supports_track, track_decoded, track_fields, track_payload,
    track_supported, track_view, KindConfiguration, MAXIMUM_AUDIO_GAIN,
};
use crate::value::{
    array_view, boolean, entries_value, lookup, payload_view, signed, signed_view, text, unsigned,
    value_entries, value_items, value_view, ValueView,
};

verus! {

/// How long a producer has to open the channel of a track.
pub const CHANNEL_OPEN_DEADLINE_US: u64 = 30_000_000;

/// The lifecycle of a track that was lost.
pub const LIFECYCLE_LOST: u64 = 6;

/// A channel was accepted.
pub const MILESTONE_CHANNEL_ACCEPTED: u64 = 0x1;

/// The channel went away.
pub const MILESTONE_CHANNEL_DETACHED: u64 = 0x200;

/// What the scene says of a track.
pub struct TrackStatus {
    pub identity: TrackIdentity,
    pub revision: u64,
    pub channel_generation: u64,
    pub configuration: TrackConfiguration,
    pub lifecycle: u64,
    pub milestones: u64,
    pub media_epoch: u32,
    pub last_media_id: u64,
    pub last_media_record_sequence: u64,
    pub last_decoded_pts_us: Option<i64>,
    pub last_presented_pts_us: Option<i64>,
    pub last_presentation_id: u64,
    pub sent_body_bytes: u64,
    pub sent_media_records: u64,
    pub maximum_channel_bytes: u64,
    pub maximum_channel_records: u64,
    /// The linear amplitude in 32.32 fixed point.
    pub audio_gain: u64,
}

/// The payload that a configuration is sent as, empty where the codec refuses it.
pub open spec fn configuration_fields(configuration: TrackConfiguration, probe: bool) -> Seq<
    (u64, ValueView),
> {
    match track_fields(configuration, probe) {
        Some(fields) => fields,
        None => Seq::empty(),
    }
}

/// The payload that a configuration is sent as, empty where the codec refuses it.
pub fn configuration_payload(configuration: &TrackConfiguration, probe: bool) -> (r: Vec<(u64, Value)>)
    ensures
        payload_view(r@) == configuration_fields(*configuration, probe),
{
    match track_payload(configuration, probe) {
        Ok(fields) => fields,
        Err(_) => {
            let empty: Vec<(u64, Value)> = Vec::new();
            assert(payload_view(empty@) =~= Seq::empty());
            empty
        },
    }
}

/// Read a probe of what can be played.
pub fn read_probe(value: &Value) -> (r: Result<TrackConfiguration, ControlError>)
    ensures
        match r {
            Ok(configuration) => track_decoded(0, value_view(*value), true) == Some(
                track_view(configuration),
            ),
            Err(error) => track_decoded(0, value_view(*value), true) is None && error
                == ControlError::coded(ERROR_BAD_MESSAGE, "invalid track probe"),
        },
{
    match decode_track(0, value, true) {
        Ok(configuration) => Ok(configuration),
        Err(_) => Err(ControlError::bad_message("invalid track probe")),
    }
}

/// What a producer is told of what can be played.
pub open spec fn support_fields(configuration: TrackConfiguration, decodable: bool) -> Seq<
    (u64, ValueView),
> {
    let supported = track_supported(track_view(configuration), decodable);
    seq![
        (0u64, ValueView::Bool(supported)),
        (
            1u64,
            ValueView::Text(
                if supported {
                    "vivido-native"@
                } else {
                    "unsupported"@
                },
            ),
        ),
        (2u64, ValueView::Unsigned(1)),
        (3u64, ValueView::Entries(configuration_fields(configuration, true))),
    ]
}

/// Answer a probe. The decoder tells whether it takes the configuration.
pub fn answer_probe(configuration: &TrackConfiguration, decodable: bool, request_id: u64) -> (r: Result<
    OutgoingRecord,
    ControlError,
>)
    ensures
        is_reply(
            r,
            reply_of(TRACK_SUPPORT, 0, request_id, support_fields(*configuration, decodable)),
        ),
{
    let supported = supports_track(&read_track(configuration), decodable);
    let by = if supported {
        "vivido-native"
    } else {
        "unsupported"
    };
    let payload = vec![
        (0u64, boolean(supported)),
        (1u64, text(by)),
        (2u64, unsigned(1)),
        (3u64, entries_value(configuration_payload(configuration, true))),
    ];
    assert(payload_view(payload@) =~= support_fields(*configuration, decodable));
    reply(TRACK_SUPPORT, 0, request_id, payload)
}

/// Why a track is not made before the scene is asked, if it is not, else which one is.
pub open spec fn track_request(
    session: Session,
    object_id: u64,
    payload: ValueView,
) -> Result<TrackIdentity, ControlError> {
    match track_decoded(object_id, payload, false) {
        None => Err(ControlError::coded(ERROR_BAD_MESSAGE, "invalid track configuration")),
        Some(settings) => match operation_refusal(
            session,
            settings.context_id,
            OP_SURFACE_TRACK_MEDIA,
        ) {
            Some(error) => Err(error),
            None => track_of(session, settings.context_id, settings.surface_id, settings.track_id),
        },
    }
}

/// Read a request for a track.
pub fn read_track_request(session: &Session, object_id: u64, value: &Value) -> (r: Result<
    (TrackIdentity, TrackConfiguration),
    ControlError,
>)
    requires
        session.wf(),
    ensures
        match r {
            Ok((track, configuration)) => track_request(*session, object_id, value_view(*value))
                == Ok::<TrackIdentity, ControlError>(track) && track_decoded(
                object_id,
                value_view(*value),
                false,
            ) == Some(track_view(configuration)),
            Err(error) => track_request(*session, object_id, value_view(*value)) == Err::<
                TrackIdentity,
                ControlError,
            >(error),
        },
{
    let configuration = match decode_track(object_id, value, false) {
        Ok(configuration) => configuration,
        Err(_) => {
            return Err(ControlError::bad_message("invalid track configuration"));
        },
    };
    let settings = read_track(&configuration);
    if let Err(error) = session.require_context_operation(
        settings.context_id,
        OP_SURFACE_TRACK_MEDIA,
    ) {
        return Err(error);
    }
    match session.track_identity(settings.context_id, settings.surface_id, settings.track_id) {
        Ok(track) => Ok((track, configuration)),
        Err(error) => Err(error),
    }
}

/// Whether a track that was asked for can be played. The decoder tells whether it takes the
/// configuration.
pub fn check_support(track: TrackIdentity, configuration: &TrackConfiguration, decodable: bool) -> (r: Result<
    (),
    ControlError,
>)
    ensures
        r == (if track_supported(track_view(*configuration), decodable) {
            Ok::<(), ControlError>(())
        } else {
            Err(
                ControlError::coded_about(
                    ERROR_UNSUPPORTED_CONFIG,
                    "track configuration is unsupported",
                    track,
                ),
            )
        }),
{
    if supports_track(&read_track(configuration), decodable) {
        Ok(())
    } else {
        Err(ControlError::unsupported("track configuration is unsupported").with_track(track))
    }
}

/// What a producer is told of a track that is ready. A raster that takes deltas says how many
/// operations one may hold.
pub open spec fn track_ready_fields(track: TrackIdentity, status: TrackStatus) -> Seq<(u64, ValueView)> {
    let settings = track_view(status.configuration);
    let fields = seq![
        (0u64, ValueView::Unsigned(track.surface.context.context_id)),
        (1u64, ValueView::Unsigned(track.surface.surface_id)),
        (2u64, ValueView::Unsigned(track.track_id)),
        (3u64, ValueView::Unsigned(status.revision)),
        (4u64, ValueView::Unsigned(status.channel_generation)),
        (5u64, ValueView::Unsigned(CHANNEL_OPEN_DEADLINE_US)),
        (6u64, ValueView::Unsigned(settings.maximum_record_body as u64)),
        (7u64, ValueView::Entries(configuration_fields(status.configuration, false))),
        (8u64, ValueView::Bool(true)),
    ];
    match settings.kind {
        KindConfiguration::Raster(raster) => if raster.delta_enabled {
            fields.push((9u64, ValueView::Unsigned(raster.maximum_delta_operations as u64)))
        } else {
            fields
        },
        _ => fields,
    }
}

/// What a producer is told of a track that is ready.
pub fn track_ready_payload(track: TrackIdentity, status: &TrackStatus) -> (r: Vec<(u64, Value)>)
    ensures
        payload_view(r@) == track_ready_fields(track, *status),
{
    let settings = read_track(&status.configuration);
    let mut payload = vec![
        (0u64, unsigned(track.surface.context.context_id)),
        (1u64, unsigned(track.surface.surface_id)),
        (2u64, unsigned(track.track_id)),
        (3u64, unsigned(status.revision)),
        (4u64, unsigned(status.channel_generation)),
        (5u64, unsigned(CHANNEL_OPEN_DEADLINE_US)),
        (6u64, unsigned(settings.maximum_record_body as u64)),
        (7u64, entries_value(configuration_payload(&status.configuration, false))),
        (8u64, boolean(true)),
    ];
    if let KindConfiguration::Raster(raster) = settings.kind {
        if raster.delta_enabled {
            payload.push((9u64, unsigned(raster.maximum_delta_operations as u64)));
        }
    }
    assert(payload_view(payload@) =~= track_ready_fields(track, *status));
    payload
}

/// Whether what changed of a track was noted for a session, and nothing else changed of it.
pub open spec fn track_noted(before: Session, after: Session, status: TrackStatus, changed: u64) -> bool {
    &&& after == (Session { observations: after.observations, ..before })
    &&& queue_view(after.observations) == pushed(
        queue_view(before.observations),
        track_entry(status.identity, status.revision, status.channel_generation, changed),
    )
}

/// Answer a request for a track with what the scene made of it.
pub fn answer_track(
    session: &mut Session,
    track: TrackIdentity,
    outcome: Result<TrackStatus, &'static str>,
    object_id: u64,
    request_id: u64,
) -> (r: Result<OutgoingRecord, ControlError>)
    requires
        old(session).wf(),
    ensures
        final(session).wf(),
        match outcome {
            Ok(status) => track_noted(
                *old(session),
                *final(session),
                status,
                TRACK_CHANGED_LIFECYCLE,
            ) && is_reply(
                r,
                reply_of(TRACK_READY, object_id, request_id, track_ready_fields(track, status)),
            ),
            Err(message) => *final(session) == *old(session) && r == Err::<
                OutgoingRecord,
                ControlError,
            >(ControlError::coded_about(ERROR_BAD_STATE, message, track)),
        },
{
    match outcome {
        Ok(status) => {
            observe_track(
                &mut session.observations,
                status.identity,
                status.revision,
                status.channel_generation,
                TRACK_CHANGED_LIFECYCLE,
            );
            reply(TRACK_READY, object_id, request_id, track_ready_payload(track, &status))
        },
        Err(message) => Err(ControlError::state(message).with_track(track)),
    }
}

/// Answer the destruction of a track. The scene tells nothing where it has no such track, and
/// otherwise whether it could be destroyed. The stream that is handed back is to be stopped.
pub fn answer_destroyed_track(
    outputs: &mut AudioOutputs,
    track: TrackIdentity,
    outcome: Option<Result<(), &'static str>>,
    object_id: u64,
    request_id: u64,
) -> (r: (Result<OutgoingRecord, ControlError>, Option<u64>))
    requires
        old(outputs).wf(),
    ensures
        final(outputs).wf(),
        match outcome {
            Some(Ok(_)) => is_reply(r.0, acknowledgement(object_id, request_id)) && r.1 == old(
                outputs,
            )@.get(track) && final(outputs)@ == old(outputs)@.remove(track),
            Some(Err(message)) => *final(outputs) == *old(outputs) && r.1 is None && r.0 == Err::<
                OutgoingRecord,
                ControlError,
            >(ControlError::coded_about(ERROR_BAD_STATE, message, track)),
            None => *final(outputs) == *old(outputs) && r.1 is None && r.0 == Err::<
                OutgoingRecord,
                ControlError,
            >(ControlError::coded_about(ERROR_NOT_FOUND, "track does not exist", track)),
        },
{
    match outcome {
        Some(Ok(_)) => {
            let stream = outputs.stop_failed_audio_output(&track);
            (acknowledge(object_id, request_id), stream)
        },
        Some(Err(message)) => (Err(ControlError::state(message).with_track(track)), None),
        None => (Err(ControlError::not_found("track does not exist").with_track(track)), None),
    }
}

/// How the channel of a track stands: not opened, attached, or gone.
pub open spec fn attachment(lifecycle: u64, milestones: u64) -> u64 {
    if lifecycle == LIFECYCLE_LOST || milestones & MILESTONE_CHANNEL_DETACHED != 0 {
        2
    } else if milestones & MILESTONE_CHANNEL_ACCEPTED != 0 {
        1
    } else {
        0
    }
}

/// A media time, zero where there is none.
pub open spec fn media_time(pts_us: Option<i64>) -> i64 {
    match pts_us {
        Some(pts_us) => pts_us,
        None => 0,
    }
}

/// A media time, zero where there is none.
fn media_time_or_zero(pts_us: Option<i64>) -> (r: i64)
    ensures
        r == media_time(pts_us),
{
    match pts_us {
        Some(pts_us) => pts_us,
        None => 0,
    }
}

/// What a producer is told of a track that it asks for. The gain of an audio track is told where it
/// can be set.
pub open spec fn track_status_fields(status: TrackStatus, include_audio_gain: bool) -> Seq<
    (u64, ValueView),
> {
    let settings = track_view(status.configuration);
    let fields = seq![
        (0u64, ValueView::Unsigned(status.identity.surface.context.context_id)),
        (1u64, ValueView::Unsigned(status.identity.surface.surface_id)),
        (2u64, ValueView::Unsigned(status.identity.track_id)),
        (3u64, ValueView::Unsigned(status.revision)),
        (4u64, ValueView::Unsigned(settings.kind.kind_spec().code_spec())),
        (5u64, ValueView::Unsigned(settings.mode.code_spec())),
        (6u64, ValueView::Unsigned(status.lifecycle)),
        (7u64, ValueView::Unsigned(status.channel_generation)),
        (8u64, ValueView::Unsigned(attachment(status.lifecycle, status.milestones))),
        (9u64, ValueView::Unsigned(status.milestones)),
        (10u64, ValueView::Unsigned(status.media_epoch as u64)),
        (11u64, ValueView::Unsigned(status.last_media_id)),
        (12u64, ValueView::Unsigned(status.last_media_record_sequence)),
        (13u64, signed_view(media_time(status.last_decoded_pts_us))),
        (14u64, signed_view(media_time(status.last_presented_pts_us))),
        (15u64, ValueView::Unsigned(status.last_presentation_id)),
        (16u64, ValueView::Unsigned(status.sent_body_bytes)),
        (17u64, ValueView::Unsigned(status.sent_media_records)),
        (18u64, ValueView::Unsigned(status.maximum_channel_bytes)),
        (19u64, ValueView::Unsigned(status.maximum_channel_records)),
        (20u64, ValueView::Unsigned(0)),
    ];
    if include_audio_gain && settings.kind is Audio {
        fields.push((23u64, ValueView::Unsigned(status.audio_gain)))
    } else {
        fields
    }
}

/// What a producer is told of a track that it asks for.
pub fn track_status_payload(status: &TrackStatus, include_audio_gain: bool) -> (r: Vec<(u64, Value)>)
    ensures
        payload_view(r@) == track_status_fields(*status, include_audio_gain),
{
    let settings = read_track(&status.configuration);
    let attached: u64 = if status.lifecycle == LIFECYCLE_LOST || status.milestones
        & MILESTONE_CHANNEL_DETACHED != 0 {
        2
    } else if status.milestones & MILESTONE_CHANNEL_ACCEPTED != 0 {
        1
    } else {
        0
    };
    let mut payload = vec![
        (0u64, unsigned(status.identity.surface.context.context_id)),
        (1u64, unsigned(status.identity.surface.surface_id)),
        (2u64, unsigned(status.identity.track_id)),
        (3u64, unsigned(status.revision)),
        (4u64, unsigned(settings.kind.kind().code())),
        (5u64, unsigned(settings.mode.code())),
        (6u64, unsigned(status.lifecycle)),
        (7u64, unsigned(status.channel_generation)),
        (8u64, unsigned(attached)),
        (9u64, unsigned(status.milestones)),
        (10u64, unsigned(status.media_epoch as u64)),
        (11u64, unsigned(status.last_media_id)),
        (12u64, unsigned(status.last_media_record_sequence)),
        (13u64, signed(media_time_or_zero(status.last_decoded_pts_us))),
        (14u64, signed(media_time_or_zero(status.last_presented_pts_us))),
        (15u64, unsigned(status.last_presentation_id)),
        (16u64, unsigned(status.sent_body_bytes)),
        (17u64, unsigned(status.sent_media_records)),
        (18u64, unsigned(status.maximum_channel_bytes)),
        (19u64, unsigned(status.maximum_channel_records)),
        (20u64, unsigned(0)),
    ];
    if include_audio_gain {
        if let KindConfiguration::Audio = settings.kind {
            payload.push((23u64, unsigned(status.audio_gain)));
        }
    }
    assert(payload_view(payload@) =~= track_status_fields(*status, include_audio_gain));
    payload
}

/// Answer a query for a track with what the scene says of it.
pub fn answer_track_query(
    session: &Session,
    status: Option<TrackStatus>,
    object_id: u64,
    request_id: u64,
) -> (r: Result<OutgoingRecord, ControlError>)
    ensures
        match status {
            Some(status) => is_reply(
                r,
                reply_of(
                    TRACK_STATUS,
                    object_id,
                    request_id,
                    track_status_fields(
                        status,
                        has_profile(session.accepted_profiles@, AUDIO_GAIN@),
                    ),
                ),
            ),
            None => r == Err::<OutgoingRecord, ControlError>(
                ControlError::coded(ERROR_NOT_FOUND, "track does not exist"),
            ),
        },
{
    match status {
        Some(status) => reply(
            TRACK_STATUS,
            object_id,
            request_id,
            track_status_payload(&status, session.supports(AUDIO_GAIN)),
        ),
        None => Err(ControlError::not_found("track does not exist")),
    }
}

/// A request for the next generation of a track's channel.
#[derive(Debug, Clone, Copy, PartialEq, Eq)]
pub struct ChannelAdvance {
    pub track: TrackIdentity,
    pub current: u64,
    pub next: u64,
}

/// What a request for the next generation of a channel asks for, or why it is refused.
pub open spec fn advance_request(session: Session, payload: Seq<(u64, ValueView)>) -> Result<
    ChannelAdvance,
    ControlError,
> {
    match payload_track(session, payload) {
        Err(error) => Err(error),
        Ok(track) => match malformed(
            payload,
            seq![0u64, 1, 2, 3, 4, 5],
            "invalid channel advance",
            seq![(3u64, "current generation"), (4u64, "next generation")],
        ) {
            Some(message) => Err(ControlError::coded_about(ERROR_BAD_MESSAGE, message, track)),
            None => Ok(
                ChannelAdvance { track, current: number(payload, 3), next: number(payload, 4) },
            ),
        },
    }
}

/// Read a request for the next generation of a channel.
pub fn read_advance(session: &Session, payload: &Vec<(u64, Value)>) -> (r: Result<
    ChannelAdvance,
    ControlError,
>)
    requires
        session.wf(),
    ensures
        r == advance_request(*session, payload_view(payload@)),
{
    let track = match session.payload_track_identity(payload) {
        Ok(track) => track,
        Err(error) => {
            return Err(error);
        },
    };
    let allowed: [u64; 6] = [0, 1, 2, 3, 4, 5];
    let wanted = vec![(3u64, "current generation"), (4u64, "next generation")];
    assert(allowed@ =~= seq![0u64, 1, 2, 3, 4, 5]);
    assert(wanted@ =~= seq![(3u64, "current generation"), (4u64, "next generation")]);
    if let Some(message) = find_malformed(payload, &allowed, "invalid channel advance", &wanted) {
        return Err(ControlError::bad_message(message).with_track(track));
    }
    Ok(
        ChannelAdvance {
            track,
            current: known_number(payload, 3),
            next: known_number(payload, 4),
        },
    )
}

/// Whether a channel may advance as was asked, given the generation that the scene has of it. Only
/// the next generation follows.
pub fn check_advance(advance: &ChannelAdvance, generation: Option<u64>) -> (r: Result<(), ControlError>)
    ensures
        r == (match generation {
            None => Err::<(), ControlError>(
                ControlError::coded_about(ERROR_NOT_FOUND, "track does not exist", advance.track),
            ),
            Some(generation) => if generation != advance.current || advance.current + 1
                != advance.next {
                Err(
                    ControlError::coded_about(
                        ERROR_BAD_STATE,
                        "channel advance is not exact",
                        advance.track,
                    ),
                )
            } else {
                Ok(())
            },
        }),
{
    match generation {
        None => Err(ControlError::not_found("track does not exist").with_track(advance.track)),
        Some(generation) => if generation != advance.current || advance.current == u64::MAX
            || advance.current + 1 != advance.next {
            Err(ControlError::state("channel advance is not exact").with_track(advance.track))
        } else {
            Ok(())
        },
    }
}

/// What a producer is told of a channel that advanced.
pub open spec fn advanced_fields(track: TrackIdentity, status: TrackStatus) -> Seq<(u64, ValueView)> {
    seq![
        (0u64, ValueView::Unsigned(track.surface.context.context_id)),
        (1u64, ValueView::Unsigned(track.surface.surface_id)),
        (2u64, ValueView::Unsigned(track.track_id)),
        (3u64, ValueView::Unsigned(status.channel_generation)),
        (4u64, ValueView::Unsigned(CHANNEL_OPEN_DEADLINE_US)),
        (5u64, ValueView::Unsigned(status.revision)),
    ]
}

/// Answer a request for the next generation of a channel with what the scene made of it. The stream
/// that is handed back is to be stopped.
pub fn answer_advance(
    session: &mut Session,
    outputs: &mut AudioOutputs,
    track: TrackIdentity,
    outcome: Result<TrackStatus, &'static str>,
    object_id: u64,
    request_id: u64,
) -> (r: (Result<OutgoingRecord, ControlError>, Option<u64>))
    requires
        old(session).wf(),
        old(outputs).wf(),
    ensures
        final(session).wf(),
        final(outputs).wf(),
        match outcome {
            Ok(status) => {
                &&& track_noted(*old(session), *final(session), status, TRACK_CHANGED_CHANNEL)
                &&& r.1 == old(outputs)@.get(track)
                &&& final(outputs)@ == old(outputs)@.remove(track)
                &&& is_reply(
                    r.0,
                    reply_of(
                        CHANNEL_ADVANCED,
                        object_id,
                        request_id,
                        advanced_fields(track, status),
                    ),
                )
            },
            Err(message) => *final(session) == *old(session) && *final(outputs) == *old(outputs)
                && r.1 is None && r.0 == Err::<OutgoingRecord, ControlError>(
                ControlError::coded_about(ERROR_BAD_STATE, message, track),
            ),
        },
{
    match outcome {
        Ok(status) => {
            let stream = outputs.stop_failed_audio_output(&track);
            observe_track(
                &mut session.observations,
                status.identity,
                status.revision,
                status.channel_generation,
                TRACK_CHANGED_CHANNEL,
            );
            let payload = vec![
                (0u64, unsigned(track.surface.context.context_id)),
                (1u64, unsigned(track.surface.surface_id)),
                (2u64, unsigned(track.track_id)),
                (3u64, unsigned(status.channel_generation)),
                (4u64, unsigned(CHANNEL_OPEN_DEADLINE_US)),
                (5u64, unsigned(status.revision)),
            ];
            assert(payload_view(payload@) =~= advanced_fields(track, status));
            (reply(CHANNEL_ADVANCED, object_id, request_id, payload), stream)
        },
        Err(message) => (Err(ControlError::state(message).with_track(track)), None),
    }
}

/// Which gain a track is given, or why it is not.
pub open spec fn gain_request(session: Session, payload: Seq<(u64, ValueView)>) -> Result<
    (TrackIdentity, u64),
    ControlError,
> {
    if !has_profile(session.accepted_profiles@, AUDIO_GAIN@) {
        Err(
            ControlError::coded(ERROR_UNSUPPORTED_PROFILE, "audio-gain-v1 was not negotiated"),
        )
    } else {
        match payload_track(session, payload) {
            Err(error) => Err(error),
            Ok(track) => match malformed(
                payload,
                seq![0u64, 1, 2, 3],
                "invalid audio gain",
                seq![(3u64, "audio gain")],
            ) {
                Some(message) => Err(
                    ControlError::coded_about(ERROR_BAD_MESSAGE, message, track),
                ),
                None => if number(payload, 3) > MAXIMUM_AUDIO_GAIN {
                    Err(
                        ControlError::coded_about(
                            ERROR_BAD_MESSAGE,
                            "audio gain exceeds 200 percent",
                            track,
                        ),
                    )
                } else {
                    Ok((track, number(payload, 3)))
                },
            },
        }
    }
}

/// Read a request for a gain.
pub fn read_gain(session: &Session, payload: &Vec<(u64, Value)>) -> (r: Result<
    (TrackIdentity, u64),
    ControlError,
>)
    requires
        session.wf(),
    ensures
        r == gain_request(*session, payload_view(payload@)),
{
    if !session.supports(AUDIO_GAIN) {
        return Err(ControlError::unsupported_profile("audio-gain-v1 was not negotiated"));
    }
    let track = match session.payload_track_identity(payload) {
        Ok(track) => track,
        Err(error) => {
            return Err(error);
        },
    };
    let allowed: [u64; 4] = [0, 1, 2, 3];
    let wanted = vec![(3u64, "audio gain")];
    assert(allowed@ =~= seq![0u64, 1, 2, 3]);
    assert(wanted@ =~= seq![(3u64, "audio gain")]);
    if let Some(message) = find_malformed(payload, &allowed, "invalid audio gain", &wanted) {
        return Err(ControlError::bad_message(message).with_track(track));
    }
    let gain = known_number(payload, 3);
    if gain > MAXIMUM_AUDIO_GAIN {
        return Err(ControlError::bad_message("audio gain exceeds 200 percent").with_track(track));
    }
    Ok((track, gain))
}

/// Answer a request for a gain. The scene tells nothing where it has no such track, and otherwise
/// what it made of the request. The stream that is handed back plays with the new gain.
pub fn answer_gain(
    session: &mut Session,
    outputs: &AudioOutputs,
    track: TrackIdentity,
    outcome: Option<Result<TrackStatus, &'static str>>,
    object_id: u64,
    request_id: u64,
) -> (r: (Result<OutgoingRecord, ControlError>, Option<u64>))
    requires
        old(session).wf(),
        outputs.wf(),
    ensures
        final(session).wf(),
        match outcome {
            Some(Ok(status)) => track_noted(
                *old(session),
                *final(session),
                status,
                TRACK_CHANGED_AUDIO_GAIN,
            ) && r.1 == outputs@.get(track) && is_reply(
                r.0,
                acknowledgement(object_id, request_id),
            ),
            Some(Err(message)) => *final(session) == *old(session) && r.1 is None && r.0 == Err::<
                OutgoingRecord,
                ControlError,
            >(ControlError::coded_about(ERROR_BAD_STATE, message, track)),
            None => *final(session) == *old(session) && r.1 is None && r.0 == Err::<
                OutgoingRecord,
                ControlError,
            >(ControlError::coded_about(ERROR_NOT_FOUND, "track does not exist", track)),
        },
{
    match outcome {
        Some(Ok(status)) => {
            observe_track(
                &mut session.observations,
                status.identity,
                status.revision,
                status.channel_generation,
                TRACK_CHANGED_AUDIO_GAIN,
            );
            (acknowledge(object_id, request_id), outputs.stream(&track))
        },
        Some(Err(message)) => (Err(ControlError::state(message).with_track(track)), None),
        None => (Err(ControlError::not_found("track does not exist").with_track(track)), None),
    }
}

/// Which track fills a slot.
#[derive(Debug, Clone, Copy, PartialEq, Eq, Structural)]
pub struct SlotBinding {
    pub slot: u64,
    pub track_id: u64,
    pub channel_generation: u64,
    pub required_milestone: u64,
}

/// What the four numbers of a binding are called.
pub open spec fn binding_names() -> Seq<(u64, &'static str)> {
    seq![
        (0u64, "slot"),
        (1u64, "track"),
        (2u64, "generation"),
        (3u64, "required milestone"),
    ]
}

/// The bindings that values are, or what is wrong with the first that is none.
pub open spec fn slot_bindings(items: Seq<ValueView>) -> Result<Seq<SlotBinding>, &'static str>
    decreases items.len(),
{
    if items.len() == 0 {
        Ok(Seq::empty())
    } else {
        match slot_bindings(items.drop_last()) {
            Err(message) => Err(message),
            Ok(bindings) => match items.last() {
                ValueView::Entries(entries) => match malformed(
                    entries,
                    seq![0u64, 1, 2, 3],
                    "invalid slot binding",
                    binding_names(),
                ) {
                    Some(message) => Err(message),
                    None => Ok(
                        bindings.push(
                            SlotBinding {
                                slot: number(entries, 0),
                                track_id: number(entries, 1),
                                channel_generation: number(entries, 2),
                                required_milestone: number(entries, 3),
                            },
                        ),
                    ),
                },
                _ => Err("invalid slot binding"),
            },
        }
    }
}

/// Once an item is no binding, no more items make a list of bindings.
proof fn lemma_slot_bindings_fail(items: Seq<ValueView>, count: int)
    requires
        0 <= count <= items.len(),
        slot_bindings(items.take(count)) is Err,
    ensures
        slot_bindings(items) == slot_bindings(items.take(count)),
    decreases items.len() - count,
{
    if count < items.len() {
        assert(items.take(count + 1).drop_last() =~= items.take(count));
        lemma_slot_bindings_fail(items, count + 1);
    } else {
        assert(items.take(count) =~= items);
    }
}

/// Read the bindings of slots.
pub fn read_bindings(items: &Vec<Value>) -> (r: Result<Vec<SlotBinding>, &'static str>)
    ensures
        match (r, slot_bindings(array_view(items@))) {
            (Ok(bindings), Ok(expected)) => bindings@ == expected,
            (Err(message), Err(expected)) => message == expected,
            _ => false,
        },
{
    let ghost views = array_view(items@);
    let mut bindings: Vec<SlotBinding> = Vec::new();
    let allowed: [u64; 4] = [0, 1, 2, 3];
    let wanted = vec![
        (0u64, "slot"),
        (1u64, "track"),
        (2u64, "generation"),
        (3u64, "required milestone"),
    ];
    assert(allowed@ =~= seq![0u64, 1, 2, 3]);
    assert(wanted@ =~= binding_names());
    let mut index: usize = 0;
    while index < items.len()
        invariant
            views == array_view(items@),
            index <= items@.len(),
            allowed@ == seq![0u64, 1, 2, 3],
            wanted@ == binding_names(),
            slot_bindings(views.take(index as int)) == Ok::<Seq<SlotBinding>, &'static str>(
                bindings@,
            ),
        decreases items@.len() - index,
    {
        let ghost taken = views.take(index + 1);
        assert(taken.drop_last() =~= views.take(index as int));
        assert(taken.last() == value_view(items@[index as int]));
        let entries = match value_entries(&items[index]) {
            Some(entries) => entries,
            None => {
                proof {
                    lemma_slot_bindings_fail(views, index + 1);
                }
                return Err("invalid slot binding");
            },
        };
        if let Some(message) = find_malformed(&entries, &allowed, "invalid slot binding", &wanted) {
            proof {
                lemma_slot_bindings_fail(views, index + 1);
            }
            return Err(message);
        }
        bindings.push(
            SlotBinding {
                slot: known_number(&entries, 0),
                track_id: known_number(&entries, 1),
                channel_generation: known_number(&entries, 2),
                required_milestone: known_number(&entries, 3),
            },
        );
        index = index + 1;
    }
    assert(views.take(index as int) =~= views);
    Ok(bindings)
}

/// A request to fill slots of a surface.
pub struct Activation {
    pub surface: SurfaceIdentity,
    /// The revision of the surface that the request is based on.
    pub revision: u64,
    pub bindings: Vec<SlotBinding>,
}

/// What a request to fill slots asks for, or why it is refused.
pub open spec fn activation_request(session: Session, payload: Seq<(u64, ValueView)>) -> Result<
    (SurfaceIdentity, u64, Seq<SlotBinding>),
    ControlError,
> {
    match malformed(
        payload,
        seq![0u64, 1, 2, 3],
        "invalid slot activation",
        seq![(0u64, "context"), (1u64, "surface")],
    ) {
        Some(message) => Err(ControlError::coded(ERROR_BAD_MESSAGE, message)),
        None => match lookup(payload, 2) {
            None => Err(ControlError::coded(ERROR_BAD_MESSAGE, "bindings")),
            Some(ValueView::Array(items)) => match slot_bindings(items) {
                Err(message) => Err(ControlError::coded(ERROR_BAD_MESSAGE, message)),
                Ok(bindings) => match surface_of(session, number(payload, 0), number(payload, 1)) {
                    Err(error) => Err(error),
                    Ok(surface) => if missing(payload, seq![(3u64, "revision")]) is Some {
                        Err(ControlError::coded(ERROR_BAD_MESSAGE, "revision"))
                    } else {
                        Ok((surface, number(payload, 3), bindings))
                    },
                },
            },
            Some(_) => Err(ControlError::coded(ERROR_BAD_MESSAGE, "bindings are not an array")),
        },
    }
}

/// Read a request to fill slots.
pub fn read_activation(session: &Session, payload: &Vec<(u64, Value)>) -> (r: Result<
    Activation,
    ControlError,
>)
    requires
        session.wf(),
    ensures
        match (r, activation_request(*session, payload_view(payload@))) {
            (Ok(activation), Ok(expected)) => activation.surface == expected.0
                && activation.revision == expected.1 && activation.bindings@ == expected.2,
            (Err(error), Err(expected)) => error == expected,
            _ => false,
        },
{
    let allowed: [u64; 4] = [0, 1, 2, 3];
    let wanted = vec![(0u64, "context"), (1u64, "surface")];
    assert(allowed@ =~= seq![0u64, 1, 2, 3]);
    assert(wanted@ =~= seq![(0u64, "context"), (1u64, "surface")]);
    if let Some(message) = find_malformed(payload, &allowed, "invalid slot activation", &wanted) {
        return Err(ControlError::bad_message(message));
    }
    let value = match payload_value(payload, 2) {
        Some(value) => value,
        None => {
            return Err(ControlError::bad_message("bindings"));
        },
    };
    let items = match value_items(value) {
        Some(items) => items,
        None => {
            return Err(ControlError::bad_message("bindings are not an array"));
        },
    };
    let bindings = match read_bindings(&items) {
        Ok(bindings) => bindings,
        Err(message) => {
            return Err(ControlError::bad_message(message));
        },
    };
    let surface = match session.surface_identity(known_number(payload, 0), known_number(payload, 1)) {
        Ok(surface) => surface,
        Err(error) => {
            return Err(error);
        },
    };
    let revision = vec![(3u64, "revision")];
    assert(revision@ =~= seq![(3u64, "revision")]);
    if first_missing(payload, &revision).is_some() {
        return Err(ControlError::bad_message("revision"));
    }
    Ok(Activation { surface, revision: known_number(payload, 3), bindings })
}

/// The tracks that bindings name.
pub open spec fn bound_tracks(surface: SurfaceIdentity, bindings: Seq<SlotBinding>) -> Seq<TrackIdentity>
    decreases bindings.len(),
{
    if bindings.len() == 0 {
        Seq::empty()
    } else {
        let tracks = bound_tracks(surface, bindings.drop_last());
        if bindings.last().track_id == 0 {
            tracks
        } else {
            tracks.push(TrackIdentity { surface, track_id: bindings.last().track_id })
        }
    }
}

/// The tracks that bindings name, of which the scene is asked once slots are filled.
pub fn activated_tracks(activation: &Activation) -> (r: Vec<TrackIdentity>)
    ensures
        r@ == bound_tracks(activation.surface, activation.bindings@),
{
    let ghost bindings = activation.bindings@;
    let mut tracks: Vec<TrackIdentity> = Vec::new();
    let mut index: usize = 0;
    while index < activation.bindings.len()
        invariant
            bindings == activation.bindings@,
            index <= bindings.len(),
            tracks@ == bound_tracks(activation.surface, bindings.take(index as int)),
        decreases bindings.len() - index,
    {
        assert(bindings.take(index + 1).drop_last() =~= bindings.take(index as int));
        let track_id: u64 = activation.bindings[index].track_id;
        if track_id != 0 {
            tracks.push(TrackIdentity { surface: activation.surface, track_id });
        }
        index = index + 1;
    }
    assert(bindings.take(index as int) =~= bindings);
    tracks
}

/// What is queued once tracks changed. What the scene does not have is passed over.
pub open spec fn tracks_pushed(
    queue: QueueView,
    statuses: Seq<Option<TrackStatus>>,
    changed: u64,
) -> QueueView
    decreases statuses.len(),
{
    if statuses.len() == 0 {
        queue
    } else {
        let earlier = tracks_pushed(queue, statuses.drop_last(), changed);
        match statuses.last() {
            Some(status) => pushed(
                earlier,
                track_entry(status.identity, status.revision, status.channel_generation, changed),
            ),
            None => earlier,
        }
    }
}

/// Queue what changed of tracks.
pub fn observe_tracks(queue: &mut ObservationQueue, statuses: &Vec<Option<TrackStatus>>, changed: u64)
    ensures
        queue_view(*final(queue)) == tracks_pushed(queue_view(*old(queue)), statuses@, changed),
{
    let mut index: usize = 0;
    while index < statuses.len()
        invariant
            index <= statuses@.len(),
            queue_view(*queue) == tracks_pushed(
                queue_view(*old(queue)),
                statuses@.take(index as int),
                changed,
            ),
        decreases statuses@.len() - index,
    {
        assert(statuses@.take(index + 1).drop_last() =~= statuses@.take(index as int));
        if let Some(status) = &statuses[index] {
            observe_track(
                queue,
                status.identity,
                status.revision,
                status.channel_generation,
                changed,
            );
        }
        index = index + 1;
    }
    assert(statuses@.take(index as int) =~= statuses@);
}

/// What a producer is told of slots that were filled.
pub open spec fn activated_fields(surface: SurfaceIdentity, status: SurfaceStatus) -> Seq<
    (u64, ValueView),
> {
    seq![
        (0u64, ValueView::Unsigned(surface.context.context_id)),
        (1u64, ValueView::Unsigned(surface.surface_id)),
        (2u64, ValueView::Entries(slot_fields(status.active_slots@))),
        (3u64, ValueView::Unsigned(status.revision)),
        (4u64, ValueView::Unsigned(status.revision)),
    ]
}

/// Answer a request to fill slots with what the scene made of it, and with what it says of each track
/// that was named.
pub fn answer_activation(
    session: &mut Session,
    surface: SurfaceIdentity,
    outcome: Result<SurfaceStatus, &'static str>,
    tracks: &Vec<Option<TrackStatus>>,
    request_id: u64,
) -> (r: Result<OutgoingRecord, ControlError>)
    requires
        old(session).wf(),
    ensures
        final(session).wf(),
        match outcome {
            Ok(status) => {
                &&& *final(session) == (Session {
                    observations: final(session).observations,
                    ..*old(session)
                })
                &&& queue_view(final(session).observations) == tracks_pushed(
                    pushed(
                        queue_view(old(session).observations),
                        surface_entry(
                            status.identity,
                            status.revision,
                            status.generation,
                            SURFACE_CHANGED_SLOTS,
                        ),
                    ),
                    tracks@,
                    TRACK_CHANGED_ACTIVATION,
                )
                &&& is_reply(
                    r,
                    reply_of(
                        TRACK_ACTIVATED,
                        surface.surface_id,
                        request_id,
                        activated_fields(surface, status),
                    ),
                )
            },
            Err(message) => *final(session) == *old(session) && r == Err::<
                OutgoingRecord,
                ControlError,
            >(ControlError::coded(ERROR_BAD_STATE, message)),
        },
{
    match outcome {
        Ok(status) => {
            observe_surface(
                &mut session.observations,
                status.identity,
                status.revision,
                status.generation,
                SURFACE_CHANGED_SLOTS,
            );
            observe_tracks(&mut session.observations, tracks, TRACK_CHANGED_ACTIVATION);
            let payload = vec![
                (0u64, unsigned(surface.context.context_id)),
                (1u64, unsigned(surface.surface_id)),
                (2u64, entries_value(slot_payload(&status.active_slots))),
                (3u64, unsigned(status.revision)),
                (4u64, unsigned(status.revision)),
            ];
            assert(payload_view(payload@) =~= activated_fields(surface, status));
            reply(TRACK_ACTIVATED, surface.surface_id, request_id, payload)
        },
        Err(message) => Err(ControlError::state(message)),
    }
}

/// A status tells everything of a track under its own number: where it stands, how far its channel
/// is, what was decoded and shown last, and what was sent and may be sent.
pub proof fn a_track_status_tells_everything_in_its_place(
    status: &TrackStatus,
    include_audio_gain: bool,
    r: Vec<(u64, Value)>,
)
    requires
        call_ensures(track_status_payload, (status, include_audio_gain), r),
    ensures
        ({
            let fields = payload_view(r@);
            let settings = track_view(status.configuration);
            let gain = include_audio_gain && settings.kind is Audio;
            &&& fields.len() == (if gain {
                22int
            } else {
                21int
            })
            &&& forall|i: int| 0 <= i <= 20 ==> (#[trigger] fields[i]).0 == i
            &&& fields[0].1 == ValueView::Unsigned(status.identity.surface.context.context_id)
            &&& fields[1].1 == ValueView::Unsigned(status.identity.surface.surface_id)
            &&& fields[2].1 == ValueView::Unsigned(status.identity.track_id)
            &&& fields[3].1 == ValueView::Unsigned(status.revision)
            &&& fields[6].1 == ValueView::Unsigned(status.lifecycle)
            &&& fields[7].1 == ValueView::Unsigned(status.channel_generation)
            &&& fields[9].1 == ValueView::Unsigned(status.milestones)
            &&& fields[10].1 == ValueView::Unsigned(status.media_epoch as u64)
            &&& fields[11].1 == ValueView::Unsigned(status.last_media_id)
            &&& fields[12].1 == ValueView::Unsigned(status.last_media_record_sequence)
            &&& status.last_decoded_pts_us matches Some(pts_us) ==> fields[13].1 == signed_view(
                pts_us,
            )
            &&& status.last_decoded_pts_us is None ==> fields[13].1 == ValueView::Unsigned(0)
            &&& status.last_presented_pts_us matches Some(pts_us) ==> fields[14].1 == signed_view(
                pts_us,
            )
            &&& status.last_presented_pts_us is None ==> fields[14].1 == ValueView::Unsigned(0)
            &&& fields[15].1 == ValueView::Unsigned(status.last_presentation_id)
            &&& fields[16].1 == ValueView::Unsigned(status.sent_body_bytes)
            &&& fields[17].1 == ValueView::Unsigned(status.sent_media_records)
            &&& fields[18].1 == ValueView::Unsigned(status.maximum_channel_bytes)
            &&& fields[19].1 == ValueView::Unsigned(status.maximum_channel_records)
            &&& fields[20].1 == ValueView::Unsigned(0)
            &&& gain ==> fields[21] == (23u64, ValueView::Unsigned(status.audio_gain))
            &&& fields[8].1 == ValueView::Unsigned(2) <==> (status.lifecycle == 6
                || status.milestones & 0x200 != 0)
            &&& status.lifecycle != 6 && status.milestones & 0x200 == 0 ==> fields[8].1
                == ValueView::Unsigned(
                if status.milestones & 1 != 0 {
                    1
                } else {
                    0
                },
            )
        }),
{
}

/// The status of a track tells its kind and its mode by the numbers of the protocol, and tells two
/// kinds, or two modes, by different numbers.
pub proof fn a_track_status_tells_kind_and_mode(
    left: &TrackStatus,
    right: &TrackStatus,
    left_fields: Vec<(u64, Value)>,
    right_fields: Vec<(u64, Value)>,
)
    requires
        call_ensures(track_status_payload, (left, false), left_fields),
        call_ensures(track_status_payload, (right, false), right_fields),
    ensures
        payload_view(left_fields@)[4].1 == payload_view(right_fields@)[4].1 <==> track_view(
            left.configuration,
        ).kind.kind_spec() == track_view(right.configuration).kind.kind_spec(),
        payload_view(left_fields@)[5].1 == payload_view(right_fields@)[5].1 <==> track_view(
            left.configuration,
        ).mode == track_view(right.configuration).mode,
{
}

/// A track that was made is answered with its own names, its revision, the generation its channel
/// starts at, and the largest body that it takes.
pub proof fn a_ready_track_is_named_in_its_place(
    track: TrackIdentity,
    status: &TrackStatus,
    r: Vec<(u64, Value)>,
)
    requires
        call_ensures(track_ready_payload, (track, status), r),
    ensures
        ({
            let fields = payload_view(r@);
            let settings = track_view(status.configuration);
            &&& fields.len() >= 9
            &&& forall|i: int| 0 <= i < fields.len() ==> (#[trigger] fields[i]).0 == i
            &&& fields[0].1 == ValueView::Unsigned(track.surface.context.context_id)
            &&& fields[1].1 == ValueView::Unsigned(track.surface.surface_id)
            &&& fields[2].1 == ValueView::Unsigned(track.track_id)
            &&& fields[3].1 == ValueView::Unsigned(status.revision)
            &&& fields[4].1 == ValueView::Unsigned(status.channel_generation)
            &&& fields[5].1 == ValueView::Unsigned(30_000_000)
            &&& fields[6].1 == ValueView::Unsigned(settings.maximum_record_body as u64)
            &&& fields[8].1 == ValueView::Bool(true)
            &&& fields.len() == 10 <==> (settings.kind matches KindConfiguration::Raster(raster)
                && raster.delta_enabled)
            &&& settings.kind matches KindConfiguration::Raster(raster) ==> (raster.delta_enabled
                ==> fields[9].1 == ValueView::Unsigned(raster.maximum_delta_operations as u64))
        }),
{
}

/// A probe is told whether the track is played, and named what would play it: the presenter itself
/// where it is, and that it is unsupported where it is not. A track is made under exactly the same
/// condition.
pub proof fn a_probe_is_told_what_a_request_would_be(
    track: TrackIdentity,
    configuration: &TrackConfiguration,
    decodable: bool,
    r: Result<(), ControlError>,
)
    requires
        call_ensures(check_support, (track, configuration, decodable), r),
    ensures
        support_fields(*configuration, decodable)[0] == (0u64, ValueView::Bool(r is Ok)),
        support_fields(*configuration, decodable)[1].1 == ValueView::Text("vivido-native"@) <==> r is Ok,
        r matches Err(error) ==> error.code == 4 && error.track == Some(track)
            && support_fields(*configuration, decodable)[1].1 == ValueView::Text("unsupported"@),
        track_view(*configuration).kind is Video && track_view(*configuration).slot == 1 ==> (r is Ok
            <==> decodable),
        track_view(*configuration).kind is Audio && track_view(*configuration).slot == 2 ==> (r is Ok
            <==> decodable),
{
    reveal_strlit("vivido-native");
    reveal_strlit("unsupported");
    assert("vivido-native"@.len() != "unsupported"@.len());
}

/// A channel goes on only from the generation it is at to the very next one.
pub proof fn a_channel_goes_on_by_one_generation(
    session: &Session,
    payload: &Vec<(u64, Value)>,
    advance: Result<ChannelAdvance, ControlError>,
    generation: Option<u64>,
    r: Result<(), ControlError>,
)
    requires
        session.wf(),
        call_ensures(read_advance, (session, payload), advance),
        advance is Ok,
        call_ensures(check_advance, (&advance->Ok_0, generation), r),
    ensures
        ({
            let read = advance->Ok_0;
            &&& crate::value::number_at(payload_view(payload@), 2) == Some(read.track.track_id)
            &&& crate::value::number_at(payload_view(payload@), 3) == Some(read.current)
            &&& crate::value::number_at(payload_view(payload@), 4) == Some(read.next)
            &&& r is Ok <==> (generation matches Some(current) && current == read.current
                && read.next == current + 1)
            &&& generation is None ==> r->Err_0.code == 8
            &&& generation is Some && r is Err ==> r->Err_0.code == 6
        }),
{
    reveal_with_fuel(missing, 3);
    let wanted = seq![(3u64, "current generation"), (4u64, "next generation")];
    assert(wanted.drop_first()[0] == wanted[1]);
}

/// What an advanced channel is answered names the track, the generation it is at, how long it may
/// take to open, and the revision.
pub proof fn an_advanced_channel_is_told_its_generation(track: TrackIdentity, status: TrackStatus)
    ensures
        ({
            let fields = advanced_fields(track, status);
            &&& fields.len() == 6
            &&& forall|i: int| 0 <= i < 6 ==> (#[trigger] fields[i]).0 == i
            &&& fields[0].1 == ValueView::Unsigned(track.surface.context.context_id)
            &&& fields[1].1 == ValueView::Unsigned(track.surface.surface_id)
            &&& fields[2].1 == ValueView::Unsigned(track.track_id)
            &&& fields[3].1 == ValueView::Unsigned(status.channel_generation)
            &&& fields[4].1 == ValueView::Unsigned(30_000_000)
            &&& fields[5].1 == ValueView::Unsigned(status.revision)
        }),
{
}

/// A gain is the number that the request has for it, for a track of the session, and never above
/// the largest.
pub proof fn a_gain_is_never_above_the_largest(
    session: &Session,
    payload: &Vec<(u64, Value)>,
    r: Result<(TrackIdentity, u64), ControlError>,
)
    requires
        session.wf(),
        call_ensures(read_gain, (session, payload), r),
    ensures
        r matches Ok((track, gain)) ==> {
            &&& gain <= 0x2_0000_0000
            &&& crate::value::number_at(payload_view(payload@), 3) == Some(gain)
            &&& crate::value::number_at(payload_view(payload@), 2) == Some(track.track_id)
            &&& has_profile(session.accepted_profiles@, AUDIO_GAIN@)
        },
        !has_profile(session.accepted_profiles@, AUDIO_GAIN@) ==> r is Err && r->Err_0.code == 3,
{
    reveal_with_fuel(missing, 2);
}

/// Every binding is read, in order, each with the slot, the track, the generation and the milestone
/// of its own entry.
pub proof fn every_binding_is_read_in_order(items: Seq<ValueView>, i: int)
    requires
        slot_bindings(items) is Ok,
        0 <= i < items.len(),
    ensures
        slot_bindings(items)->Ok_0.len() == items.len(),
        items[i] matches ValueView::Entries(entries) && ({
            let binding = slot_bindings(items)->Ok_0[i];
            &&& crate::value::number_at(entries, 0) == Some(binding.slot)
            &&& crate::value::number_at(entries, 1) == Some(binding.track_id)
            &&& crate::value::number_at(entries, 2) == Some(binding.channel_generation)
            &&& crate::value::number_at(entries, 3) == Some(binding.required_milestone)
        }),
    decreases items.len(),
{
    lemma_slot_bindings_count(items);
    lemma_slot_bindings_count(items.drop_last());
    if i < items.len() - 1 {
        every_binding_is_read_in_order(items.drop_last(), i);
    } else {
        reveal_with_fuel(missing, 5);
        let wanted = binding_names();
        assert(wanted.drop_first()[0] == wanted[1]);
        assert(wanted.drop_first().drop_first()[0] == wanted[2]);
        assert(wanted.drop_first().drop_first().drop_first()[0] == wanted[3]);
    }
}

proof fn lemma_slot_bindings_count(items: Seq<ValueView>)
    ensures
        slot_bindings(items) matches Ok(bindings) ==> bindings.len() == items.len(),
    decreases items.len(),
{
    if items.len() > 0 {
        lemma_slot_bindings_count(items.drop_last());
    }
}

/// The tracks of an activation are those that its bindings name, on its surface, in order; a binding
/// that names none clears its slot and adds no track.
pub proof fn an_activation_names_its_tracks(
    surface: SurfaceIdentity,
    bindings: Seq<SlotBinding>,
    more: SlotBinding,
)
    ensures
        more.track_id == 0 ==> bound_tracks(surface, bindings.push(more)) == bound_tracks(
            surface,
            bindings,
        ),
        more.track_id != 0 ==> bound_tracks(surface, bindings.push(more)) == bound_tracks(
            surface,
            bindings,
        ).push(TrackIdentity { surface, track_id: more.track_id }),
        bound_tracks(surface, Seq::empty()) == Seq::<TrackIdentity>::empty(),
{
    assert(bindings.push(more).drop_last() =~= bindings);
}

/// What an activation is answered names the surface, the slots that are now active, and the
/// revision.
pub proof fn an_activation_is_told_the_active_slots(surface: SurfaceIdentity, status: SurfaceStatus)
    ensures
        ({
            let fields = activated_fields(surface, status);
            &&& fields.len() == 5
            &&& forall|i: int| 0 <= i < 5 ==> (#[trigger] fields[i]).0 == i
            &&& fields[0].1 == ValueView::Unsigned(surface.context.context_id)
            &&& fields[1].1 == ValueView::Unsigned(surface.surface_id)
            &&& fields[2].1 == ValueView::Entries(slot_fields(status.active_slots@))
            &&& fields[3].1 == ValueView::Unsigned(status.revision)
            &&& fields[4].1 == ValueView::Unsigned(status.revision)
        }),
{
}

/// A track that is gone takes its sound with it, and leaves the sound of every other track alone. A
/// destruction that failed takes nothing.
pub proof fn a_destroyed_track_falls_silent(
    outputs: &mut AudioOutputs,
    track: TrackIdentity,
    outcome: Option<Result<(), &'static str>>,
    object_id: u64,
    request_id: u64,
    r: (Result<OutgoingRecord, ControlError>, Option<u64>),
    other: TrackIdentity,
)
    requires
        old(outputs).wf(),
        call_ensures(
            answer_destroyed_track,
            (outputs, track, outcome, object_id, request_id),
            r,
        ),
        other != track,
    ensures
        r.0 is Ok <==> outcome is Some && outcome->0 is Ok,
        r.0 is Ok ==> !final(outputs)@.contains_key(track) && crate::actor::record_view(r.0->Ok_0).0 == 3,
        r.0 is Ok && old(outputs)@.contains_key(track) ==> r.1 == Some(old(outputs)@[track]),
        r.0 is Err ==> *final(outputs) == *old(outputs) && r.1 is None,
        outcome is None ==> r.0->Err_0.code == 8,
        final(outputs)@.contains_key(other) == old(outputs)@.contains_key(other),
        old(outputs)@.contains_key(other) ==> final(outputs)@[other] == old(outputs)@[other],
{
}

/// A track that was made is answered for with its state, and the change is noted for whoever observes.
/// One that could not be made is refused with what the scene said.
pub proof fn a_made_track_is_answered_for(
    session: &mut Session,
    track: TrackIdentity,
    outcome: Result<TrackStatus, &'static str>,
    object_id: u64,
    request_id: u64,
    r: Result<OutgoingRecord, ControlError>,
)
    requires
        call_ensures(answer_track, (session, track, outcome, object_id, request_id), r),
    ensures
        outcome is Ok ==> queue_view(final(session).observations) == pushed(
            queue_view(old(session).observations),
            track_entry(
                outcome->Ok_0.identity,
                outcome->Ok_0.revision,
                outcome->Ok_0.channel_generation,
                1,
            ),
        ),
        outcome is Ok && r is Ok ==> crate::actor::record_view(r->Ok_0).0 == 0x0123 && crate::actor::record_view(r->Ok_0).1
            == object_id && crate::reply::envelope_bytes(request_id, track_ready_fields(track, outcome->Ok_0))
            == Some(crate::actor::record_view(r->Ok_0).2),
        outcome matches Err(message) ==> *final(session) == *old(session) && (r matches Err(error)
            && error.code == 6 && error.message == message && error.track == Some(track)),
{
}

/// A gain that was set is acknowledged and reaches the output that plays the track. One that was not
/// set reaches no output.
pub proof fn a_gain_reaches_the_output_of_its_track(
    session: &mut Session,
    outputs: &AudioOutputs,
    track: TrackIdentity,
    outcome: Option<Result<TrackStatus, &'static str>>,
    object_id: u64,
    request_id: u64,
    r: (Result<OutgoingRecord, ControlError>, Option<u64>),
)
    requires
        call_ensures(answer_gain, (session, outputs, track, outcome, object_id, request_id), r),
    ensures
        outcome is Some && outcome->0 is Ok ==> (r.0 matches Ok(record) && crate::actor::record_view(record) == (
            0x0003u16,
            object_id,
            crate::reply::ok_bytes(request_id),
        )) && r.1 == outputs@.get(track) && queue_view(final(session).observations) == pushed(
            queue_view(old(session).observations),
            track_entry(
                outcome->0->Ok_0.identity,
                outcome->0->Ok_0.revision,
                outcome->0->Ok_0.channel_generation,
                16,
            ),
        ),
        r.1 is Some ==> outcome is Some && outcome->0 is Ok && outputs@.contains_key(track),
        outcome is None ==> (r.0 matches Err(error) && error.code == 8 && error.track == Some(track)),
        outcome is Some && outcome->0 is Err ==> (r.0 matches Err(error) && error.code == 6
            && error.track == Some(track)),
{
}

/// A track is detached once its channel is, or once it is lost, and attached from when its channel was
/// accepted.
pub proof fn a_track_is_attached_by_its_channel(lifecycle: u64, milestones: u64)
    ensures
        lifecycle == 6 ==> attachment(lifecycle, milestones) == 2,
        milestones & 0x200 != 0 ==> attachment(lifecycle, milestones) == 2,
        lifecycle != 6 && milestones & 0x200 == 0 && milestones & 1 != 0 ==> attachment(
            lifecycle,
            milestones,
        ) == 1,
        lifecycle != 6 && milestones & 0x200 == 0 && milestones & 1 == 0 ==> attachment(
            lifecycle,
            milestones,
        ) == 0,
{
}

/// Every track that changed is noted, in order, and one that is not there is passed over.
pub proof fn every_changed_track_is_noted_in_order(
    queue: QueueView,
    statuses: Seq<Option<TrackStatus>>,
    changed: u64,
    last: Option<TrackStatus>,
)
    ensures
        tracks_pushed(queue, Seq::empty(), changed) == queue,
        last is None ==> tracks_pushed(queue, statuses.push(last), changed) == tracks_pushed(
            queue,
            statuses,
            changed,
        ),
        last matches Some(status) ==> tracks_pushed(queue, statuses.push(last), changed) == pushed(
            tracks_pushed(queue, statuses, changed),
            track_entry(status.identity, status.revision, status.channel_generation, changed),
        ),
{
    assert(statuses.push(last).drop_last() =~= statuses);
}

/// An activation is told under its own record type, about its surface, and notes the slots of the
/// surface and then the tracks.
pub proof fn an_activation_is_answered_for(
    session: &mut Session,
    surface: SurfaceIdentity,
    outcome: Result<SurfaceStatus, &'static str>,
    tracks: &Vec<Option<TrackStatus>>,
    request_id: u64,
    r: Result<OutgoingRecord, ControlError>,
)
    requires
        call_ensures(answer_activation, (session, surface, outcome, tracks, request_id), r),
    ensures
        outcome is Ok && r is Ok ==> crate::actor::record_view(r->Ok_0).0 == 0x0127 && crate::actor::record_view(r->Ok_0).1
            == surface.surface_id,
        outcome is Ok && tracks@.len() == 0 ==> queue_view(final(session).observations) == pushed(
            queue_view(old(session).observations),
            surface_entry(
                outcome->Ok_0.identity,
                outcome->Ok_0.revision,
                outcome->Ok_0.generation,
                16,
            ),
        ),
        outcome is Ok ==> queue_view(final(session).observations) == tracks_pushed(
            pushed(
                queue_view(old(session).observations),
                surface_entry(
                    outcome->Ok_0.identity,
                    outcome->Ok_0.revision,
                    outcome->Ok_0.generation,
                    16,
                ),
            ),
            tracks@,
            8,
        ),
        outcome matches Err(message) ==> *final(session) == *old(session) && (r matches Err(error)
            && error.code == 6 && error.message == message),
{
}

} // verus!
