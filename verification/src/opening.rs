//! Opening the connections that carry media.

use vstd::prelude::*;
use vivid_protocol::cbor::Value;
use vivid_protocol::messages::ChannelOpen;
use vivid_protocol::track::ChannelOpenState;

use crate::actor::{record_view, OutgoingRecord};
use crate::control::{decode_control, envelope_decoded, track_of};
use crate::digest::sha256_of;
use crate::identity::TrackIdentity;
use crate::number::{sum, unsigned_64};
use crate::protocol::{
    CHANNEL_ACCEPTED, ERROR, ERROR_AUTH_FAILED, ERROR_BAD_MESSAGE, ERROR_BAD_STATE,
    ERROR_CHANNEL_BUSY, ERROR_NOT_FOUND, ERROR_STALE_CHANNEL_GENERATION,
};
use crate::registry::Registry;
use crate::reply::{envelope, envelope_bytes, error_bytes, protocol_error};
use crate::track::{channel_flow, live_channel_flow, read_track, track_view};
use crate::track_control::TrackStatus;
use crate::value::{payload_view, unsigned, ValueView};

verus! {

/// Which open of a track's channel was accepted, held by the protocol's own type.
#[verifier::external_type_specification]
#[verifier::external_body]
pub struct ExChannelOpenState(vivid_protocol::track::ChannelOpenState);

/// An open that was accepted.
pub struct AcceptedView {
    pub generation: u64,
    pub nonce: Seq<u8>,
    pub open_hash: Seq<u8>,
    pub acceptance: Seq<(u64, ValueView)>,
    pub transport_live: bool,
    pub media_admitted: bool,
}

/// The open that was accepted, if one was.
pub uninterp spec fn accepted_open(state: ChannelOpenState) -> Option<AcceptedView>;

/// `vivid_protocol::track::ChannelOpenState::default`: nothing was accepted.
#[verifier::external_body]
fn unopened() -> (r: ChannelOpenState)
    ensures
        accepted_open(r) is None,
{
    ChannelOpenState::default()
}

/// What becomes of an open.
pub enum OpenDecision {
    Fresh(Vec<(u64, Value)>),
    ExactReplay(Vec<(u64, Value)>),
    Busy,
    DifferentBytes,
    StaleGeneration,
}

/// What an open holds that is decided on.
pub struct OpenView {
    pub generation: u64,
    pub nonce: Seq<u8>,
    pub open_hash: Seq<u8>,
}

/// How an open is decided.
pub enum OpenOutcome {
    Fresh,
    ExactReplay(Seq<(u64, ValueView)>),
    Busy,
    DifferentBytes,
    StaleGeneration,
}

/// The decision on an open of a channel whose generation is `current`.
pub open spec fn open_outcome(accepted: Option<AcceptedView>, current: u64, open: OpenView) -> OpenOutcome {
    if open.generation != current {
        OpenOutcome::StaleGeneration
    } else {
        match accepted {
            Some(earlier) => if earlier.generation != open.generation {
                OpenOutcome::Fresh
            } else if earlier.nonce != open.nonce || earlier.open_hash != open.open_hash {
                OpenOutcome::DifferentBytes
            } else if earlier.transport_live {
                OpenOutcome::Busy
            } else if earlier.media_admitted {
                OpenOutcome::StaleGeneration
            } else {
                OpenOutcome::ExactReplay(earlier.acceptance)
            },
            None => OpenOutcome::Fresh,
        }
    }
}

/// What is accepted once an open was decided.
pub open spec fn accepted_after(
    accepted: Option<AcceptedView>,
    current: u64,
    open: OpenView,
    acceptance: Seq<(u64, ValueView)>,
) -> Option<AcceptedView> {
    match open_outcome(accepted, current, open) {
        OpenOutcome::Fresh => Some(
            AcceptedView {
                generation: open.generation,
                nonce: open.nonce,
                open_hash: open.open_hash,
                acceptance,
                transport_live: true,
                media_admitted: false,
            },
        ),
        OpenOutcome::ExactReplay(_) => match accepted {
            Some(earlier) => Some(AcceptedView { transport_live: true, ..earlier }),
            None => None,
        },
        _ => accepted,
    }
}

/// `vivid_protocol::track::ChannelOpenState::open`: an open of the current generation that is not
/// accepted yet is accepted as it is; the accepted one is given the same answer again after its
/// transport was lost, as long as no media came through it; anything else is refused.
#[verifier::external_body]
fn open_channel(
    state: &mut ChannelOpenState,
    current: u64,
    generation: u64,
    nonce: [u8; 16],
    body: &[u8],
    acceptance: Vec<(u64, Value)>,
) -> (r: OpenDecision)
    ensures
        ({
            let open = OpenView { generation, nonce: nonce@, open_hash: sha256_of(body@) };
            let earlier = accepted_open(*old(state));
            &&& accepted_open(*final(state)) == accepted_after(
                earlier,
                current,
                open,
                payload_view(acceptance@),
            )
            &&& match r {
                OpenDecision::Fresh(given) => open_outcome(earlier, current, open) is Fresh && given
                    == acceptance,
                OpenDecision::ExactReplay(given) => open_outcome(earlier, current, open)
                    == OpenOutcome::ExactReplay(payload_view(given@)),
                OpenDecision::Busy => open_outcome(earlier, current, open) is Busy,
                OpenDecision::DifferentBytes => open_outcome(earlier, current, open) is DifferentBytes,
                OpenDecision::StaleGeneration => open_outcome(earlier, current, open) is StaleGeneration,
            }
        }),
{
    let current = vivid_protocol::revision::ChannelGeneration::new(current);
    let generation = vivid_protocol::revision::ChannelGeneration::new(generation);
    match state.open(current, generation, nonce, body, acceptance) {
        vivid_protocol::track::ChannelOpenDecision::Fresh(given) => OpenDecision::Fresh(given),
        vivid_protocol::track::ChannelOpenDecision::ExactReplay(given) => OpenDecision::ExactReplay(given),
        vivid_protocol::track::ChannelOpenDecision::Busy => OpenDecision::Busy,
        vivid_protocol::track::ChannelOpenDecision::DifferentBytes => OpenDecision::DifferentBytes,
        vivid_protocol::track::ChannelOpenDecision::StaleGeneration => OpenDecision::StaleGeneration,
    }
}

/// Whether media of a generation may come through the accepted channel.
pub open spec fn carries_media(accepted: Option<AcceptedView>, generation: u64) -> bool {
    accepted matches Some(earlier) && earlier.generation == generation && earlier.transport_live
}

/// What is said of media that may not come through.
pub open spec fn media_refusal(accepted: Option<AcceptedView>) -> Seq<char> {
    match accepted {
        None => "media record key 0 has no accepted channel"@,
        Some(_) => "media record key 0 does not use the accepted live channel"@,
    }
}

/// What is accepted once media of a generation came.
pub open spec fn accepted_after_media(accepted: Option<AcceptedView>, generation: u64) -> Option<
    AcceptedView,
> {
    if carries_media(accepted, generation) {
        Some(AcceptedView { media_admitted: true, ..accepted.unwrap() })
    } else {
        accepted
    }
}

/// `vivid_protocol::track::ChannelOpenState::admit_media`: media of the accepted generation is
/// admitted while its transport lives, which makes the open unrepeatable; any other is refused with
/// a text that says why.
#[verifier::external_body]
fn admit_media(state: &mut ChannelOpenState, generation: u64) -> (r: Result<(), String>)
    ensures
        r is Ok <==> carries_media(accepted_open(*old(state)), generation),
        r matches Err(text) ==> text@ == media_refusal(accepted_open(*old(state))),
        accepted_open(*final(state)) == accepted_after_media(
            accepted_open(*old(state)),
            generation,
        ),
{
    let generation = vivid_protocol::revision::ChannelGeneration::new(generation);
    state.admit_media(generation).map_err(|error| error.to_string())
}

/// What is accepted once the transport of a generation was lost.
pub open spec fn accepted_after_loss(accepted: Option<AcceptedView>, generation: u64) -> Option<AcceptedView> {
    match accepted {
        Some(earlier) => if earlier.generation == generation {
            Some(AcceptedView { transport_live: false, ..earlier })
        } else {
            accepted
        },
        None => None,
    }
}

/// `vivid_protocol::track::ChannelOpenState::transport_lost`: the accepted open of this generation
/// has no transport; another generation stays as it is.
#[verifier::external_body]
fn transport_lost(state: &mut ChannelOpenState, generation: u64)
    ensures
        accepted_open(*final(state)) == accepted_after_loss(accepted_open(*old(state)), generation),
{
    state.transport_lost(vivid_protocol::revision::ChannelGeneration::new(generation));
}

/// A request to open a track's channel, held by the protocol's own type.
#[verifier::external_type_specification]
#[verifier::external_body]
pub struct ExChannelOpen(vivid_protocol::messages::ChannelOpen);

/// What a request to open a channel holds.
pub struct ChannelOpenView {
    pub session_id: u64,
    pub context_id: u64,
    pub surface_id: u64,
    pub track_id: u64,
    pub channel_generation: u64,
    /// The code of the kind of track.
    pub track_kind: u64,
    /// The code of the lane.
    pub lane: u64,
    pub client_nonce: Seq<u8>,
    pub authentication_tag: Seq<u8>,
}

/// What the protocol's request holds.
pub uninterp spec fn channel_open_view(open: ChannelOpen) -> ChannelOpenView;

/// The request that a body is, where it is valid.
pub uninterp spec fn channel_open_decoded(object_id: u64, body: Seq<u8>) -> Option<ChannelOpenView>;

/// `vivid_protocol::messages::ChannelOpen::decode`: the request depends on the object ID and the
/// body, and is refused where it is not valid.
#[verifier::external_body]
fn decode_channel_open(object_id: u64, body: &[u8]) -> (r: Option<ChannelOpen>)
    ensures
        match r {
            Some(open) => channel_open_decoded(object_id, body@) == Some(channel_open_view(open)),
            None => channel_open_decoded(object_id, body@) is None,
        },
{
    ChannelOpen::decode(object_id, body).ok()
}

/// What is read of a request to open a channel.
pub struct OpenFields {
    pub session_id: u64,
    pub context_id: u64,
    pub surface_id: u64,
    pub track_id: u64,
    pub channel_generation: u64,
    pub track_kind: u64,
    pub lane: u64,
    pub client_nonce: [u8; 16],
}

/// Whether fields are those of a request.
pub open spec fn are_fields(fields: OpenFields, open: ChannelOpenView) -> bool {
    &&& fields.session_id == open.session_id
    &&& fields.context_id == open.context_id
    &&& fields.surface_id == open.surface_id
    &&& fields.track_id == open.track_id
    &&& fields.channel_generation == open.channel_generation
    &&& fields.track_kind == open.track_kind
    &&& fields.lane == open.lane
    &&& fields.client_nonce@ == open.client_nonce
}

/// The public fields of `vivid_protocol::messages::ChannelOpen`, moved over. The kind and the lane
/// are the numbers of their variants.
#[verifier::external_body]
fn open_fields(open: &ChannelOpen) -> (r: OpenFields)
    ensures
        are_fields(r, channel_open_view(*open)),
{
    OpenFields {
        session_id: open.session_id,
        context_id: open.context_id,
        surface_id: open.surface_id,
        track_id: open.track_id,
        channel_generation: open.channel_generation,
        track_kind: open.track_kind as u64,
        lane: open.lane as u64,
        client_nonce: open.client_nonce,
    }
}

/// Whether a request carries the tag that a key makes of it.
pub uninterp spec fn channel_tag_holds(open: ChannelOpenView, key: Seq<u8>) -> bool;

/// `vivid_protocol::messages::ChannelOpen::verify`: whether the tag is the one that the key makes of
/// the request depends on both alone.
#[verifier::external_body]
fn verify_channel_open(open: &ChannelOpen, key: &[u8; 32]) -> (r: bool)
    ensures
        r == channel_tag_holds(channel_open_view(*open), key@),
{
    open.verify(key)
}

/// Why a connection does not become a track's channel.
#[derive(Debug, Clone, Copy)]
pub struct ChannelRejection {
    pub request_id: u64,
    pub code: u64,
    /// What a trace calls the rejection.
    pub reason: &'static str,
    /// The object and the text of the error that the peer is told, where it is told one.
    pub told: Option<(u64, &'static str)>,
}

impl ChannelRejection {
    /// A rejection that the peer is not told.
    pub open spec fn silent(request_id: u64, code: u64, reason: &'static str) -> ChannelRejection {
        ChannelRejection { request_id, code, reason, told: None }
    }

    /// A rejection that the peer is told.
    pub open spec fn telling(
        request_id: u64,
        code: u64,
        reason: &'static str,
        object_id: u64,
        text: &'static str,
    ) -> ChannelRejection {
        ChannelRejection { request_id, code, reason, told: Some((object_id, text)) }
    }

    /// The error that the peer is told, where it is told one and the codec takes it.
    pub fn record(&self) -> (r: Option<OutgoingRecord>)
        ensures
            match self.told {
                None => r is None,
                Some((object_id, text)) => match error_bytes(
                    self.request_id,
                    self.code,
                    true,
                    text@,
                ) {
                    Some(body) => r matches Some(record) && record_view(record) == (
                        ERROR,
                        object_id,
                        body,
                    ),
                    None => r is None,
                },
            },
    {
        match self.told {
            None => None,
            Some((object_id, text)) => match protocol_error(
                self.request_id,
                self.code,
                true,
                text.to_string(),
            ) {
                Ok(body) => Some((ERROR, object_id, body)),
                Err(_) => None,
            },
        }
    }
}

/// A request to open a channel that names a track of a live session.
pub struct NamedChannel {
    pub request_id: u64,
    pub open: ChannelOpen,
    pub track: TrackIdentity,
    pub channel_key: [u8; 32],
}

/// Which track a request to open a channel names, or why it names none.
pub open spec fn channel_named(registry: Registry, object_id: u64, body: Seq<u8>) -> Result<
    (u64, ChannelOpenView, TrackIdentity),
    ChannelRejection,
> {
    match envelope_decoded(body) {
        None => Err(ChannelRejection::silent(0, ERROR_BAD_MESSAGE, "invalid_channel_open")),
        Some(opened) => match channel_open_decoded(object_id, body) {
            None => Err(
                ChannelRejection::silent(
                    opened.request_id,
                    ERROR_BAD_MESSAGE,
                    "invalid_channel_open",
                ),
            ),
            Some(open) => if !registry.sessions@.contains_key(open.session_id) {
                Err(
                    ChannelRejection::silent(
                        opened.request_id,
                        ERROR_NOT_FOUND,
                        "session_not_found",
                    ),
                )
            } else {
                match track_of(
                    registry.sessions@[open.session_id],
                    open.context_id,
                    open.surface_id,
                    open.track_id,
                ) {
                    Err(error) => Err(
                        ChannelRejection::silent(
                            opened.request_id,
                            error.code,
                            "track_identity_rejected",
                        ),
                    ),
                    Ok(track) => Ok((opened.request_id, open, track)),
                }
            },
        },
    }
}

/// Why a request to open a channel is refused for what the scene says of the track, if it is. What a
/// track is never changes, and the request must carry the tag of the session's channel key.
pub open spec fn channel_refusal(
    request_id: u64,
    open: ChannelOpenView,
    channel_key: Seq<u8>,
    status: Option<TrackStatus>,
) -> Option<ChannelRejection> {
    match status {
        None => Some(ChannelRejection::silent(request_id, ERROR_NOT_FOUND, "track_not_found")),
        Some(status) => {
            let settings = track_view(status.configuration);
            if status.channel_generation != open.channel_generation
                || settings.kind.kind_spec().code_spec() != open.track_kind
                || settings.lane.code_spec() != open.lane {
                Some(
                    ChannelRejection::telling(
                        request_id,
                        ERROR_STALE_CHANNEL_GENERATION,
                        "immutable_track_mismatch",
                        open.track_id,
                        "CHANNEL_OPEN does not match the immutable track generation",
                    ),
                )
            } else if !channel_tag_holds(open, channel_key) {
                Some(
                    ChannelRejection::telling(
                        request_id,
                        ERROR_AUTH_FAILED,
                        "authentication_failed",
                        open.track_id,
                        "channel authentication failed",
                    ),
                )
            } else {
                None
            }
        },
    }
}

/// Whether a request to open a channel is refused for what the scene says of the track.
pub fn check_channel(named: &NamedChannel, status: &Option<TrackStatus>) -> (r: Result<
    (),
    ChannelRejection,
>)
    ensures
        r == (match channel_refusal(
            named.request_id,
            channel_open_view(named.open),
            named.channel_key@,
            *status,
        ) {
            Some(rejection) => Err::<(), ChannelRejection>(rejection),
            None => Ok(()),
        }),
{
    let request_id = named.request_id;
    let status = match status {
        Some(status) => status,
        None => {
            return Err(
                ChannelRejection {
                    request_id,
                    code: ERROR_NOT_FOUND,
                    reason: "track_not_found",
                    told: None,
                },
            );
        },
    };
    let fields = open_fields(&named.open);
    let settings = read_track(&status.configuration);
    if status.channel_generation != fields.channel_generation || settings.kind.kind().code()
        != fields.track_kind || settings.lane.code() != fields.lane {
        return Err(
            ChannelRejection {
                request_id,
                code: ERROR_STALE_CHANNEL_GENERATION,
                reason: "immutable_track_mismatch",
                told: Some(
                    (
                        fields.track_id,
                        "CHANNEL_OPEN does not match the immutable track generation",
                    ),
                ),
            },
        );
    }
    if !verify_channel_open(&named.open, &named.channel_key) {
        return Err(
            ChannelRejection {
                request_id,
                code: ERROR_AUTH_FAILED,
                reason: "authentication_failed",
                told: Some((fields.track_id, "channel authentication failed")),
            },
        );
    }
    Ok(())
}

/// What a producer is told of a channel that is accepted.
pub open spec fn acceptance_fields(open: ChannelOpenView, status: TrackStatus) -> Seq<
    (u64, ValueView),
> {
    let settings = track_view(status.configuration);
    let (bytes, records) = channel_flow(settings);
    seq![
        (0u64, ValueView::Unsigned(open.context_id)),
        (1u64, ValueView::Unsigned(open.surface_id)),
        (2u64, ValueView::Unsigned(open.track_id)),
        (3u64, ValueView::Unsigned(open.channel_generation)),
        (4u64, ValueView::Unsigned(bytes as u64)),
        (5u64, ValueView::Unsigned(records as u64)),
        (6u64, ValueView::Unsigned(settings.maximum_record_body as u64)),
        (7u64, ValueView::Unsigned(unsigned_64(status.revision + 1))),
    ]
}

/// A channel that is accepted, once the scene agrees.
pub struct AcceptedChannel {
    pub request_id: u64,
    pub track: TrackIdentity,
    pub generation: u64,
    /// What the producer is told.
    pub acceptance: Vec<(u64, Value)>,
    /// Whether the same was told before: the scene already has the channel.
    pub replayed: bool,
    pub maximum_bytes: u64,
    pub maximum_records: u64,
}

/// What was accepted of a track before, if anything was.
pub open spec fn accepted_of(opens: Map<TrackIdentity, ChannelOpenState>, track: TrackIdentity) -> Option<
    AcceptedView,
> {
    if opens.contains_key(track) {
        accepted_open(opens[track])
    } else {
        None
    }
}

/// What is decided on in a request to open a channel.
pub open spec fn decided_open(open: ChannelOpenView, body: Seq<u8>) -> OpenView {
    OpenView {
        generation: open.channel_generation,
        nonce: open.client_nonce,
        open_hash: sha256_of(body),
    }
}

/// Whether a request to open a channel was decided: the first of its generation is accepted, the same
/// is accepted again after its transport was lost as long as no media came, and any other is refused.
pub open spec fn channel_decided(
    before: Registry,
    after: Registry,
    named: NamedChannel,
    status: TrackStatus,
    body: Seq<u8>,
    outcome: Result<AcceptedChannel, ChannelRejection>,
) -> bool {
    let open = channel_open_view(named.open);
    let earlier = accepted_of(before.channel_opens@, named.track);
    let decided = decided_open(open, body);
    let fields = acceptance_fields(open, status);
    let flow = channel_flow(track_view(status.configuration));
    &&& after == (Registry { channel_opens: after.channel_opens, ..before })
    &&& after.channel_opens@.contains_key(named.track)
    &&& after.channel_opens@ == before.channel_opens@.insert(
        named.track,
        after.channel_opens@[named.track],
    )
    &&& accepted_open(after.channel_opens@[named.track]) == accepted_after(
        earlier,
        status.channel_generation,
        decided,
        fields,
    )
    &&& match open_outcome(earlier, status.channel_generation, decided) {
        OpenOutcome::Fresh => outcome matches Ok(accepted) && !accepted.replayed && payload_view(
            accepted.acceptance@,
        ) == fields && is_accepted(accepted, named, open, flow),
        OpenOutcome::ExactReplay(given) => outcome matches Ok(accepted) && accepted.replayed
            && payload_view(accepted.acceptance@) == given && is_accepted(accepted, named, open, flow),
        OpenOutcome::Busy => outcome == Err::<AcceptedChannel, ChannelRejection>(
            ChannelRejection::telling(
                named.request_id,
                ERROR_CHANNEL_BUSY,
                "channel_busy",
                0,
                "track channel generation is already attached",
            ),
        ),
        _ => outcome == Err::<AcceptedChannel, ChannelRejection>(
            ChannelRejection::telling(
                named.request_id,
                ERROR_STALE_CHANNEL_GENERATION,
                "stale_or_different_open",
                0,
                "CHANNEL_OPEN retry is stale or differs from the accepted bytes",
            ),
        ),
    }
}

/// Whether a channel is the one that was asked for, with its flow.
pub open spec fn is_accepted(
    accepted: AcceptedChannel,
    named: NamedChannel,
    open: ChannelOpenView,
    flow: (int, int),
) -> bool {
    &&& accepted.request_id == named.request_id
    &&& accepted.track == named.track
    &&& accepted.generation == open.channel_generation
    &&& accepted.maximum_bytes == flow.0
    &&& accepted.maximum_records == flow.1
}

impl Registry {
    /// Which track a request to open a channel names.
    pub fn name_channel(&self, object_id: u64, body: &Vec<u8>) -> (r: Result<
        NamedChannel,
        ChannelRejection,
    >)
        requires
            self.wf(),
        ensures
            match (r, channel_named(*self, object_id, body@)) {
                (Ok(named), Ok((request_id, open, track))) => named.request_id == request_id
                    && channel_open_view(named.open) == open && named.track == track
                    && named.channel_key == self.sessions@[open.session_id].channel_key,
                (Err(rejection), Err(expected)) => rejection == expected,
                _ => false,
            },
    {
        let request_id: u64 = match decode_control(body.as_slice()) {
            Some(opened) => opened.request_id,
            None => {
                return Err(
                    ChannelRejection {
                        request_id: 0,
                        code: ERROR_BAD_MESSAGE,
                        reason: "invalid_channel_open",
                        told: None,
                    },
                );
            },
        };
        let open = match decode_channel_open(object_id, body.as_slice()) {
            Some(open) => open,
            None => {
                return Err(
                    ChannelRejection {
                        request_id,
                        code: ERROR_BAD_MESSAGE,
                        reason: "invalid_channel_open",
                        told: None,
                    },
                );
            },
        };
        let fields = open_fields(&open);
        let session = match self.sessions.get(&fields.session_id) {
            Some(session) => session,
            None => {
                return Err(
                    ChannelRejection {
                        request_id,
                        code: ERROR_NOT_FOUND,
                        reason: "session_not_found",
                        told: None,
                    },
                );
            },
        };
        match session.track_identity(fields.context_id, fields.surface_id, fields.track_id) {
            Err(error) => Err(
                ChannelRejection {
                    request_id,
                    code: error.code,
                    reason: "track_identity_rejected",
                    told: None,
                },
            ),
            Ok(track) => Ok(
                NamedChannel { request_id, open, track, channel_key: session.channel_key },
            ),
        }
    }

    /// Decide on a request to open a channel that is not refused for what the scene says.
    pub fn admit_channel(&mut self, named: &NamedChannel, status: &TrackStatus, body: &Vec<u8>) -> (r:
        Result<AcceptedChannel, ChannelRejection>)
        requires
            old(self).wf(),
        ensures
            final(self).wf(),
            channel_decided(*old(self), *final(self), *named, *status, body@, r),
    {
        let ghost before = self.channel_opens@;
        let fields = open_fields(&named.open);
        let settings = read_track(&status.configuration);
        let (maximum_bytes, maximum_records) = live_channel_flow(&settings);
        let acceptance = vec![
            (0u64, unsigned(fields.context_id)),
            (1u64, unsigned(fields.surface_id)),
            (2u64, unsigned(fields.track_id)),
            (3u64, unsigned(fields.channel_generation)),
            (4u64, unsigned(maximum_bytes)),
            (5u64, unsigned(maximum_records)),
            (6u64, unsigned(settings.maximum_record_body as u64)),
            (7u64, unsigned(sum(status.revision, 1))),
        ];
        assert(payload_view(acceptance@) =~= acceptance_fields(
            channel_open_view(named.open),
            *status,
        ));
        let mut state = match self.channel_opens.remove(&named.track) {
            Some(state) => state,
            None => unopened(),
        };
        let decision = open_channel(
            &mut state,
            status.channel_generation,
            fields.channel_generation,
            fields.client_nonce,
            body.as_slice(),
            acceptance,
        );
        self.channel_opens.insert(named.track, state);
        assert(self.channel_opens@ =~= before.insert(
            named.track,
            self.channel_opens@[named.track],
        ));
        let (acceptance, replayed) = match decision {
            OpenDecision::Fresh(acceptance) => (acceptance, false),
            OpenDecision::ExactReplay(acceptance) => (acceptance, true),
            OpenDecision::Busy => {
                return Err(
                    ChannelRejection {
                        request_id: named.request_id,
                        code: ERROR_CHANNEL_BUSY,
                        reason: "channel_busy",
                        told: Some((0, "track channel generation is already attached")),
                    },
                );
            },
            OpenDecision::DifferentBytes | OpenDecision::StaleGeneration => {
                return Err(
                    ChannelRejection {
                        request_id: named.request_id,
                        code: ERROR_STALE_CHANNEL_GENERATION,
                        reason: "stale_or_different_open",
                        told: Some(
                            (0, "CHANNEL_OPEN retry is stale or differs from the accepted bytes"),
                        ),
                    },
                );
            },
        };
        Ok(
            AcceptedChannel {
                request_id: named.request_id,
                track: named.track,
                generation: fields.channel_generation,
                acceptance,
                replayed,
                maximum_bytes,
                maximum_records,
            },
        )
    }

    /// Note that the transport of a track's channel is gone.
    pub fn detach_channel(&mut self, track: &TrackIdentity, generation: u64)
        requires
            old(self).wf(),
        ensures
            final(self).wf(),
            *final(self) == (Registry { channel_opens: final(self).channel_opens, ..*old(self) }),
            final(self).channel_opens@.dom() == old(self).channel_opens@.dom(),
            accepted_of(final(self).channel_opens@, *track) == accepted_after_loss(
                accepted_of(old(self).channel_opens@, *track),
                generation,
            ),
            forall|other: TrackIdentity|
                other != *track ==> #[trigger] accepted_of(final(self).channel_opens@, other)
                    == accepted_of(old(self).channel_opens@, other),
    {
        let ghost before = self.channel_opens@;
        if let Some(state) = self.channel_opens.get_mut(track) {
            transport_lost(state, generation);
        }
        assert(self.channel_opens@.dom() =~= before.dom());
    }

    /// Take media of a generation through a track's channel, or say why it may not come through.
    pub fn admit_media(&mut self, track: &TrackIdentity, generation: u64) -> (r: Result<(), String>)
        requires
            old(self).wf(),
        ensures
            final(self).wf(),
            *final(self) == (Registry { channel_opens: final(self).channel_opens, ..*old(self) }),
            final(self).channel_opens@.dom() == old(self).channel_opens@.dom(),
            r is Ok <==> carries_media(accepted_of(old(self).channel_opens@, *track), generation),
            r matches Err(text) ==> text@ == (if old(self).channel_opens@.contains_key(*track) {
                media_refusal(accepted_of(old(self).channel_opens@, *track))
            } else {
                "channel-open state disappeared"@
            }),
            accepted_of(final(self).channel_opens@, *track) == accepted_after_media(
                accepted_of(old(self).channel_opens@, *track),
                generation,
            ),
            forall|other: TrackIdentity|
                other != *track ==> #[trigger] accepted_of(final(self).channel_opens@, other)
                    == accepted_of(old(self).channel_opens@, other),
    {
        let ghost before = self.channel_opens@;
        let outcome = match self.channel_opens.get_mut(track) {
            Some(state) => self::admit_media(state, generation),
            None => Err("channel-open state disappeared".to_string()),
        };
        assert(self.channel_opens@.dom() =~= before.dom());
        outcome
    }
}

/// The answer to a request to open a channel, given whether the scene agrees: it takes a new channel,
/// or still has one that is told again.
pub fn confirm_channel(accepted: AcceptedChannel, agreed: bool) -> (r: Result<
    OutgoingRecord,
    ChannelRejection,
>)
    ensures
        if !agreed {
            r == Err::<OutgoingRecord, ChannelRejection>(
                if accepted.replayed {
                    ChannelRejection::silent(
                        accepted.request_id,
                        ERROR_NOT_FOUND,
                        "track_disappeared",
                    )
                } else {
                    ChannelRejection::silent(
                        accepted.request_id,
                        ERROR_BAD_STATE,
                        "channel_accept_failed",
                    )
                },
            )
        } else {
            match envelope_bytes(accepted.request_id, payload_view(accepted.acceptance@)) {
                Some(body) => r matches Ok(record) && record_view(record) == (
                    CHANNEL_ACCEPTED,
                    accepted.track.track_id,
                    body,
                ),
                None => r == Err::<OutgoingRecord, ChannelRejection>(
                    ChannelRejection::silent(
                        accepted.request_id,
                        ERROR_BAD_MESSAGE,
                        "channel_accept_reply_failed",
                    ),
                ),
            }
        },
{
    let request_id = accepted.request_id;
    if !agreed {
        return Err(
            if accepted.replayed {
                ChannelRejection {
                    request_id,
                    code: ERROR_NOT_FOUND,
                    reason: "track_disappeared",
                    told: None,
                }
            } else {
                ChannelRejection {
                    request_id,
                    code: ERROR_BAD_STATE,
                    reason: "channel_accept_failed",
                    told: None,
                }
            },
        );
    }
    match envelope(request_id, accepted.acceptance) {
        Ok(body) => Ok((CHANNEL_ACCEPTED, accepted.track.track_id, body)),
        Err(_) => Err(
            ChannelRejection {
                request_id,
                code: ERROR_BAD_MESSAGE,
                reason: "channel_accept_reply_failed",
                told: None,
            },
        ),
    }
}

/// An open that came through media can never be repeated: after its transport is lost the same open
/// is stale.
pub proof fn media_makes_an_open_unrepeatable(accepted: AcceptedView, open: OpenView)
    requires
        accepted.generation == open.generation,
        accepted.nonce == open.nonce,
        accepted.open_hash == open.open_hash,
        accepted.media_admitted,
    ensures
        open_outcome(accepted_after_loss(Some(accepted), open.generation), open.generation, open)
            is StaleGeneration,
{
}

/// An open whose acceptance was lost is given exactly the same acceptance again.
pub proof fn a_lost_acceptance_is_repeated(
    current: u64,
    open: OpenView,
    acceptance: Seq<(u64, ValueView)>,
    second: Seq<(u64, ValueView)>,
)
    requires
        open.generation == current,
    ensures
        ({
            let first = accepted_after(None, current, open, acceptance);
            let lost = accepted_after_loss(first, current);
            &&& open_outcome(lost, current, open) == OpenOutcome::ExactReplay(acceptance)
            &&& accepted_after(lost, current, open, second) == first
        }),
{
}

/// A channel is opened only for the generation that its track is at, for the kind and on the lane
/// that its track has, and by someone who knows the key.
pub proof fn a_channel_is_opened_as_its_track_is(
    named: &NamedChannel,
    status: &Option<TrackStatus>,
    r: Result<(), ChannelRejection>,
)
    requires
        call_ensures(check_channel, (named, status), r),
    ensures
        ({
            let open = channel_open_view(named.open);
            &&& status is None ==> r is Err && r->Err_0.code == 8
            &&& *status matches Some(found) ==> ({
                let settings = track_view(found.configuration);
                let fits = found.channel_generation == open.channel_generation
                    && settings.kind.kind_spec().code_spec() == open.track_kind
                    && settings.lane.code_spec() == open.lane;
                &&& r is Ok <==> fits && channel_tag_holds(open, named.channel_key@)
                &&& !fits ==> r->Err_0.code == 27
                &&& fits && r is Err ==> r->Err_0.code == 1
            })
            &&& r matches Err(rejection) ==> rejection.request_id == named.request_id
        }),
{
}

/// An acceptance names the channel that was opened, and says how much may be sent on it: as many
/// bytes and records as its track has room for, and no larger record than its track takes.
pub proof fn an_acceptance_says_how_much_may_be_sent(open: ChannelOpenView, status: TrackStatus)
    ensures
        ({
            let fields = acceptance_fields(open, status);
            let settings = track_view(status.configuration);
            &&& fields.len() == 8
            &&& forall|i: int| 0 <= i < 8 ==> (#[trigger] fields[i]).0 == i
            &&& fields[0].1 == ValueView::Unsigned(open.context_id)
            &&& fields[1].1 == ValueView::Unsigned(open.surface_id)
            &&& fields[2].1 == ValueView::Unsigned(open.track_id)
            &&& fields[3].1 == ValueView::Unsigned(open.channel_generation)
            &&& fields[4].1 == ValueView::Unsigned(channel_flow(settings).0 as u64)
            &&& fields[5].1 == ValueView::Unsigned(channel_flow(settings).1 as u64)
            &&& fields[6].1 == ValueView::Unsigned(settings.maximum_record_body as u64)
            &&& status.revision < u64::MAX ==> fields[7].1 == ValueView::Unsigned(
                (status.revision + 1) as u64,
            )
        }),
{
}

/// An open is taken only for the current generation. It is fresh where none was accepted for that
/// generation, and a retry of one that was accepted gets its answer again, but only byte for byte,
/// after its connection was lost, and before any media came through.
pub proof fn an_open_is_taken_once(accepted: Option<AcceptedView>, current: u64, open: OpenView)
    ensures
        ({
            let outcome = open_outcome(accepted, current, open);
            &&& open.generation != current ==> outcome is StaleGeneration
            &&& outcome is Fresh ==> open.generation == current && (accepted is None
                || accepted->0.generation != current)
            &&& open.generation == current && accepted is None ==> outcome is Fresh
            &&& outcome is ExactReplay ==> accepted is Some && accepted->0.generation
                == open.generation && accepted->0.nonce == open.nonce && accepted->0.open_hash
                == open.open_hash && !accepted->0.transport_live && !accepted->0.media_admitted
            &&& outcome matches OpenOutcome::ExactReplay(answer) ==> answer
                == accepted->0.acceptance
            &&& outcome is Busy ==> accepted is Some && accepted->0.transport_live
            &&& outcome is DifferentBytes ==> accepted is Some && (accepted->0.nonce != open.nonce
                || accepted->0.open_hash != open.open_hash)
        }),
{
}

/// Whoever opens a channel is told whether it is taken, with a code of its own for each way in which
/// it is not; an open that is taken is for the track that it named.
pub proof fn an_open_is_answered(
    registry: &mut Registry,
    named: &NamedChannel,
    status: &TrackStatus,
    body: &Vec<u8>,
    r: Result<AcceptedChannel, ChannelRejection>,
)
    requires
        old(registry).wf(),
        call_ensures(Registry::admit_channel, (registry, named, status, body), r),
    ensures
        r matches Ok(accepted) ==> {
            &&& accepted.track == named.track
            &&& accepted.request_id == named.request_id
            &&& accepted.generation == status.channel_generation
            &&& accepted.maximum_bytes == channel_flow(track_view(status.configuration)).0
            &&& accepted.maximum_records == channel_flow(track_view(status.configuration)).1
        },
        r matches Err(rejection) ==> rejection.code == 26 || rejection.code == 27,
        r matches Err(rejection) ==> rejection.request_id == named.request_id,
        channel_open_view(named.open).channel_generation != status.channel_generation ==> r is Err
            && r->Err_0.code == 27,
        final(registry).sessions@ == old(registry).sessions@,
{
}

/// Media comes through only on the connection that was accepted last for its track and is still up.
pub proof fn media_needs_an_accepted_connection(
    registry: &mut Registry,
    track: &TrackIdentity,
    generation: u64,
    r: Result<(), String>,
    other: TrackIdentity,
)
    requires
        old(registry).wf(),
        call_ensures(Registry::admit_media, (registry, track, generation), r),
        other != *track,
    ensures
        r is Ok <==> (accepted_of(old(registry).channel_opens@, *track) matches Some(accepted)
            && accepted.generation == generation && accepted.transport_live),
        r is Ok ==> (accepted_of(final(registry).channel_opens@, *track) matches Some(accepted)
            && accepted.media_admitted),
        accepted_of(final(registry).channel_opens@, other) == accepted_of(
            old(registry).channel_opens@,
            other,
        ),
{
}

/// A confirmed channel is answered for its own request and its own track.
pub proof fn a_confirmed_channel_is_answered(
    accepted: AcceptedChannel,
    agreed: bool,
    r: Result<OutgoingRecord, ChannelRejection>,
)
    requires
        call_ensures(confirm_channel, (accepted, agreed), r),
    ensures
        r is Ok ==> agreed && record_view(r->Ok_0).0 == 0x8008 && record_view(r->Ok_0).1
            == accepted.track.track_id && envelope_bytes(
            accepted.request_id,
            payload_view(accepted.acceptance@),
        ) == Some(record_view(r->Ok_0).2),
        !agreed ==> r is Err && r->Err_0.code == (if accepted.replayed {
            8u64
        } else {
            6u64
        }),
        r matches Err(rejection) ==> rejection.request_id == accepted.request_id,
{
}

/// A channel is opened with the key of the session that it names, for a track of that session.
pub proof fn a_channel_is_named_within_its_session(
    registry: &Registry,
    object_id: u64,
    body: &Vec<u8>,
    r: Result<NamedChannel, ChannelRejection>,
)
    requires
        call_ensures(Registry::name_channel, (registry, object_id, body), r),
    ensures
        r matches Ok(named) ==> ({
            let open = channel_open_view(named.open);
            &&& channel_open_decoded(object_id, body@) == Some(open)
            &&& registry.sessions@.contains_key(open.session_id)
            &&& named.channel_key == registry.sessions@[open.session_id].channel_key
            &&& named.track.track_id == open.track_id
            &&& named.track.surface.surface_id == open.surface_id
            &&& named.track.surface.context.context_id == open.context_id
            &&& named.track.surface.context.session == registry.sessions@[open.session_id].identity
        }),
        channel_open_decoded(object_id, body@) is None ==> (r matches Err(rejection) && rejection.code
            == 5),
        envelope_decoded(body@) is Some && channel_open_decoded(object_id, body@) is Some
            && !registry.sessions@.contains_key(channel_open_decoded(object_id, body@)->0.session_id)
            ==> (r matches Err(rejection) && rejection.code == 8 && rejection.request_id
            == envelope_decoded(body@)->0.request_id),
{
}

} // verus!
