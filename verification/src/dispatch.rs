//! Control records, one by one.
//!
//! What a record asks of the session alone is done at once. What it asks of the scene is read and
//! handed out as a question. The answer to the question goes through the module of its record.

use std::collections::HashSet;

use vstd::prelude::*;
use vivid_protocol::cbor::Value;
use vivid_protocol::surface::SurfaceDefinition;
use vivid_protocol::track::TrackConfiguration;

use crate::actor::{
    has_room, offered_one, record_view, records_view, Egress, OutgoingRecord,
};
use crate::context::context_revoked;
use crate::control::{
    acknowledge, acknowledgement, decode_control, envelope_decoded, is_reply, malformed, number,
    payload_surface, payload_track, reply_of, ControlEnvelope, ControlError, EnvelopeView,
    RECORD_OPTIONAL,
};
use crate::delegate::{
    context_answered, create_context, create_session_lease, lease_answered, named_lease,
    revoke_context, revoke_context_refusal, revoke_lease_refusal, revoke_session_lease,
};
use crate::drop_control::{
    accept_drop, acceptance_answered, advance_answered, advance_transfer, binding_request,
    cancel_drop, cancellation_answered, query_answered, query_drop, read_binding,
};
use crate::drop_manager::{drops_removed, FileDropManager};
use crate::file_drop::{FileDropBinding, Scope};
use crate::identity::{
    AnchorIdentity, ContextIdentity, SessionIdentity, SurfaceIdentity, TrackIdentity,
};
use crate::lease::REASON_EXPLICIT_REVOKE;
use crate::playback_control::{
    answer_ping, read_cancellation, read_wait, resubscribed, set_observation, subscription_refusal,
    unsubscribed, wait_request, WaitRequest,
};
use crate::protocol::{self, ERROR_BAD_MESSAGE, ERROR_UNSUPPORTED_CONFIG, PONG};
use crate::registry::{
    a_revocation_stays_within_its_lease, lease_revoked, one_session_changed, Registry,
};
use crate::reply::{error_bytes, protocol_error};
use crate::scene_control::{
    anchor_request, begin_request, commit_refusal, deletion_request, ended_transaction,
    node_request, node_view, read_anchor_query, read_begin, read_commit, read_deletion, read_node,
    NodeChange, NodeView,
};
use crate::session::Session;
use crate::surface_control::{
    read_surface, read_updated_surface, surface_decoded, surface_request, surface_view,
    updated_surface,
};
use crate::track::{track_decoded, track_view};
use crate::track_control::{
    activation_request, advance_request, gain_request, read_activation, read_advance, read_gain,
    read_probe, read_track_request, track_request, Activation, ChannelAdvance,
};
use crate::value::{clone_payload, entries_value, payload_view, ValueView};

verus! {

/// A record that came on a control connection.
pub struct ControlRecord {
    pub record_type: u16,
    pub flags: u16,
    pub object_id: u64,
    pub body: Vec<u8>,
}

/// What a record asks of the scene.
pub enum Question {
    Session,
    BindDrops(FileDropBinding, Option<SurfaceIdentity>),
    CreateSurface(SurfaceIdentity, SurfaceDefinition),
    UpdateSurface(SurfaceIdentity),
    DestroySurface(SurfaceIdentity),
    Surface(SurfaceIdentity),
    ProbeTrack(TrackConfiguration),
    CreateTrack(TrackIdentity, TrackConfiguration),
    DestroyTrack(TrackIdentity),
    Track(TrackIdentity),
    AdvanceChannel(ChannelAdvance),
    SetGain(TrackIdentity, u64),
    Activate(Activation),
    BeginTransaction(ContextIdentity, u64),
    CreateNode(NodeChange),
    UpdateNode(NodeChange),
    /// The node of a context, within a transaction.
    DeleteNode(ContextIdentity, u64, u64),
    AbortTransaction(u64),
    CommitTransaction(u64),
    Scene,
    Anchor(AnchorIdentity),
    Wait(WaitRequest),
    Play(TrackIdentity),
    Pause(TrackIdentity),
    Flush(TrackIdentity),
    Drain(TrackIdentity),
}

/// What a record comes to.
pub enum Step {
    /// The record is answered.
    Answer(OutgoingRecord),
    /// The record is passed over.
    Nothing,
    /// The record is refused.
    Refuse(ControlError),
    /// The scene is asked, for the request that the envelope names.
    Ask(Question, ControlEnvelope),
    /// These contexts are gone: the scene forgets them, then the record is answered.
    ForgetContexts(Vec<u64>, OutgoingRecord),
    /// This session ended with its lease: what it owns is released, then the record is answered.
    EndSession(SessionIdentity, OutgoingRecord),
}

/// The envelope of a record, or why it is refused. Every request has a number.
pub open spec fn opened(flags: u16, body: Seq<u8>) -> Result<EnvelopeView, ControlError> {
    if flags & !RECORD_OPTIONAL != 0 {
        Err(ControlError::coded(ERROR_BAD_MESSAGE, "unknown record flags"))
    } else {
        match envelope_decoded(body) {
            None => Err(ControlError::coded(ERROR_BAD_MESSAGE, "invalid strict control envelope")),
            Some(envelope) => if envelope.request_id == 0 {
                Err(ControlError::coded(ERROR_BAD_MESSAGE, "control request ID must be nonzero"))
            } else {
                Ok(envelope)
            },
        }
    }
}

/// Open the envelope of a record.
pub fn open_record(flags: u16, body: &Vec<u8>) -> (r: Result<ControlEnvelope, ControlError>)
    ensures
        match (r, opened(flags, body@)) {
            (Ok(envelope), Ok(expected)) => envelope@ == expected,
            (Err(error), Err(expected)) => error == expected,
            _ => false,
        },
{
    if flags & !RECORD_OPTIONAL != 0 {
        return Err(ControlError::bad_message("unknown record flags"));
    }
    match decode_control(body.as_slice()) {
        None => Err(ControlError::bad_message("invalid strict control envelope")),
        Some(envelope) => if envelope.request_id == 0 {
            Err(ControlError::bad_message("control request ID must be nonzero"))
        } else {
            Ok(envelope)
        },
    }
}

/// Whether a record asks something of the scene.
pub open spec fn asks_scene(record_type: u16) -> bool {
    ||| record_type == protocol::QUERY_SESSION
    ||| record_type == protocol::SET_FILE_DROP_BINDING
    ||| record_type == protocol::CREATE_SURFACE
    ||| record_type == protocol::UPDATE_SURFACE
    ||| record_type == protocol::DESTROY_SURFACE
    ||| record_type == protocol::QUERY_SURFACE
    ||| record_type == protocol::PROBE_TRACK_CONFIG
    ||| record_type == protocol::CREATE_TRACK
    ||| record_type == protocol::DESTROY_TRACK
    ||| record_type == protocol::QUERY_TRACK
    ||| record_type == protocol::ADVANCE_CHANNEL
    ||| record_type == protocol::SET_AUDIO_GAIN
    ||| record_type == protocol::ACTIVATE_TRACK
    ||| record_type == protocol::BEGIN_TXN
    ||| record_type == protocol::CREATE_NODE
    ||| record_type == protocol::UPDATE_NODE
    ||| record_type == protocol::DELETE_NODE
    ||| record_type == protocol::ABORT_TXN
    ||| record_type == protocol::COMMIT_TXN
    ||| record_type == protocol::QUERY_SCENE
    ||| record_type == protocol::QUERY_ANCHOR
    ||| record_type == protocol::WAIT_TRACK
    ||| record_type == protocol::PLAY
    ||| record_type == protocol::PAUSE
    ||| record_type == protocol::FLUSH
    ||| record_type == protocol::DRAIN
}

/// Why something was refused, if it was.
pub open spec fn refusal_in<T>(outcome: Result<T, ControlError>) -> Option<ControlError> {
    match outcome {
        Ok(_) => None,
        Err(error) => Some(error),
    }
}

/// Why a record that asks the scene is refused before it is asked, if it is.
pub open spec fn question_refusal(
    session: Session,
    record_type: u16,
    object_id: u64,
    envelope: EnvelopeView,
) -> Option<ControlError> {
    let payload = envelope.payload;
    let value = ValueView::Entries(payload);
    if record_type == protocol::SET_FILE_DROP_BINDING {
        refusal_in(binding_request(session, object_id, value))
    } else if record_type == protocol::CREATE_SURFACE {
        refusal_in(surface_request(session, object_id, value))
    } else if record_type == protocol::UPDATE_SURFACE {
        refusal_in(updated_surface(session, payload))
    } else if record_type == protocol::DESTROY_SURFACE || record_type == protocol::QUERY_SURFACE {
        refusal_in(payload_surface(session, payload))
    } else if record_type == protocol::PROBE_TRACK_CONFIG {
        if track_decoded(0, value, true) is None {
            Some(ControlError::coded(ERROR_BAD_MESSAGE, "invalid track probe"))
        } else {
            None
        }
    } else if record_type == protocol::CREATE_TRACK {
        refusal_in(track_request(session, object_id, value))
    } else if record_type == protocol::ADVANCE_CHANNEL {
        refusal_in(advance_request(session, payload))
    } else if record_type == protocol::SET_AUDIO_GAIN {
        refusal_in(gain_request(session, payload))
    } else if record_type == protocol::ACTIVATE_TRACK {
        refusal_in(activation_request(session, payload))
    } else if record_type == protocol::BEGIN_TXN {
        refusal_in(begin_request(session, payload))
    } else if record_type == protocol::CREATE_NODE || record_type == protocol::UPDATE_NODE {
        refusal_in(node_request(session, envelope.transaction_id, object_id, value))
    } else if record_type == protocol::DELETE_NODE {
        refusal_in(deletion_request(session, envelope.transaction_id, payload))
    } else if record_type == protocol::COMMIT_TXN {
        commit_refusal(payload)
    } else if record_type == protocol::QUERY_ANCHOR {
        refusal_in(anchor_request(session, payload))
    } else if record_type == protocol::WAIT_TRACK {
        refusal_in(wait_request(session, payload))
    } else if record_type == protocol::QUERY_SESSION || record_type == protocol::QUERY_SCENE
        || record_type == protocol::ABORT_TXN {
        None
    } else {
        refusal_in(payload_track(session, payload))
    }
}

/// The transaction that a record ends.
pub open spec fn transaction_of(envelope: EnvelopeView, object_id: u64) -> u64 {
    match envelope.transaction_id {
        Some(transaction) => transaction,
        None => object_id,
    }
}

/// Whether a question is the one that a record asks.
pub open spec fn is_question(
    question: Question,
    session: Session,
    record_type: u16,
    object_id: u64,
    envelope: EnvelopeView,
) -> bool {
    let payload = envelope.payload;
    let value = ValueView::Entries(payload);
    let track = payload_track(session, payload);
    let surface = payload_surface(session, payload);
    match question {
        Question::Session => record_type == protocol::QUERY_SESSION,
        Question::BindDrops(binding, on) => record_type == protocol::SET_FILE_DROP_BINDING
            && binding_request(session, object_id, value) == Ok::<
            (FileDropBinding, Option<SurfaceIdentity>),
            ControlError,
        >((binding, on)),
        Question::CreateSurface(named, definition) => record_type == protocol::CREATE_SURFACE
            && surface_request(session, object_id, value) == Ok::<SurfaceIdentity, ControlError>(named)
            && surface_decoded(object_id, value) == Some(surface_view(definition)),
        Question::UpdateSurface(named) => record_type == protocol::UPDATE_SURFACE
            && updated_surface(session, payload) == Ok::<SurfaceIdentity, ControlError>(named),
        Question::DestroySurface(named) => record_type == protocol::DESTROY_SURFACE && surface
            == Ok::<SurfaceIdentity, ControlError>(named),
        Question::Surface(named) => record_type == protocol::QUERY_SURFACE && surface == Ok::<
            SurfaceIdentity,
            ControlError,
        >(named),
        Question::ProbeTrack(configuration) => record_type == protocol::PROBE_TRACK_CONFIG
            && track_decoded(0, value, true) == Some(track_view(configuration)),
        Question::CreateTrack(named, configuration) => record_type == protocol::CREATE_TRACK
            && track_request(session, object_id, value) == Ok::<TrackIdentity, ControlError>(named)
            && track_decoded(object_id, value, false) == Some(track_view(configuration)),
        Question::DestroyTrack(named) => record_type == protocol::DESTROY_TRACK && track == Ok::<
            TrackIdentity,
            ControlError,
        >(named),
        Question::Track(named) => record_type == protocol::QUERY_TRACK && track == Ok::<
            TrackIdentity,
            ControlError,
        >(named),
        Question::AdvanceChannel(advance) => record_type == protocol::ADVANCE_CHANNEL
            && advance_request(session, payload) == Ok::<ChannelAdvance, ControlError>(advance),
        Question::SetGain(named, gain) => record_type == protocol::SET_AUDIO_GAIN && gain_request(
            session,
            payload,
        ) == Ok::<(TrackIdentity, u64), ControlError>((named, gain)),
        Question::Activate(activation) => record_type == protocol::ACTIVATE_TRACK
            && (activation_request(session, payload) matches Ok(expected) && activation.surface
            == expected.0 && activation.revision == expected.1 && activation.bindings@
            == expected.2),
        Question::BeginTransaction(context, transaction) => record_type == protocol::BEGIN_TXN
            && begin_request(session, payload) == Ok::<(ContextIdentity, u64), ControlError>(
            (context, transaction),
        ),
        Question::CreateNode(change) => record_type == protocol::CREATE_NODE && is_node_change(
            change,
            session,
            object_id,
            envelope,
        ),
        Question::UpdateNode(change) => record_type == protocol::UPDATE_NODE && is_node_change(
            change,
            session,
            object_id,
            envelope,
        ),
        Question::DeleteNode(context, transaction, node) => record_type == protocol::DELETE_NODE
            && deletion_request(session, envelope.transaction_id, payload) == Ok::<
            (ContextIdentity, u64, u64),
            ControlError,
        >((context, transaction, node)),
        Question::AbortTransaction(transaction) => record_type == protocol::ABORT_TXN && transaction
            == transaction_of(envelope, object_id),
        Question::CommitTransaction(transaction) => record_type == protocol::COMMIT_TXN
            && transaction == transaction_of(envelope, object_id),
        Question::Scene => record_type == protocol::QUERY_SCENE,
        Question::Anchor(anchor) => record_type == protocol::QUERY_ANCHOR && anchor_request(
            session,
            payload,
        ) == Ok::<AnchorIdentity, ControlError>(anchor),
        Question::Wait(request) => record_type == protocol::WAIT_TRACK && wait_request(
            session,
            payload,
        ) == Ok::<WaitRequest, ControlError>(request),
        Question::Play(named) => record_type == protocol::PLAY && track == Ok::<
            TrackIdentity,
            ControlError,
        >(named),
        Question::Pause(named) => record_type == protocol::PAUSE && track == Ok::<
            TrackIdentity,
            ControlError,
        >(named),
        Question::Flush(named) => record_type == protocol::FLUSH && track == Ok::<
            TrackIdentity,
            ControlError,
        >(named),
        Question::Drain(named) => record_type == protocol::DRAIN && track == Ok::<
            TrackIdentity,
            ControlError,
        >(named),
    }
}

/// Whether a change of a node is the one that a record asks for.
pub open spec fn is_node_change(
    change: NodeChange,
    session: Session,
    object_id: u64,
    envelope: EnvelopeView,
) -> bool {
    node_request(
        session,
        envelope.transaction_id,
        object_id,
        ValueView::Entries(envelope.payload),
    ) == Ok::<(ContextIdentity, u64, NodeView), ControlError>(
        (change.context, change.transaction, node_view(change.node)),
    )
}

/// Read what a record asks of surfaces and tracks.
fn read_media_question(
    session: &Session,
    record_type: u16,
    object_id: u64,
    envelope: &ControlEnvelope,
    value: &Value,
) -> (r: Option<Result<Question, ControlError>>)
    requires
        session.wf(),
        crate::value::value_view(*value) == ValueView::Entries(payload_view(envelope.payload@)),
    ensures
        match r {
            Some(Ok(question)) => asks_scene(record_type) && question_refusal(
                *session,
                record_type,
                object_id,
                envelope@,
            ) is None && is_question(question, *session, record_type, object_id, envelope@),
            Some(Err(error)) => asks_scene(record_type) && question_refusal(
                *session,
                record_type,
                object_id,
                envelope@,
            ) == Some(error),
            None => !(record_type == protocol::SET_FILE_DROP_BINDING || record_type
                == protocol::CREATE_SURFACE || record_type == protocol::UPDATE_SURFACE
                || record_type == protocol::DESTROY_SURFACE || record_type
                == protocol::QUERY_SURFACE || record_type == protocol::PROBE_TRACK_CONFIG
                || record_type == protocol::CREATE_TRACK || record_type == protocol::ADVANCE_CHANNEL
                || record_type == protocol::SET_AUDIO_GAIN || record_type
                == protocol::ACTIVATE_TRACK),
        },
{
    let payload = &envelope.payload;
    if record_type == protocol::SET_FILE_DROP_BINDING {
        return Some(
            match read_binding(session, object_id, value) {
                Ok((binding, on)) => Ok(Question::BindDrops(binding, on)),
                Err(error) => Err(error),
            },
        );
    }
    if record_type == protocol::CREATE_SURFACE {
        return Some(
            match read_surface(session, object_id, value) {
                Ok((surface, definition)) => Ok(Question::CreateSurface(surface, definition)),
                Err(error) => Err(error),
            },
        );
    }
    if record_type == protocol::UPDATE_SURFACE {
        return Some(
            match read_updated_surface(session, payload) {
                Ok(surface) => Ok(Question::UpdateSurface(surface)),
                Err(error) => Err(error),
            },
        );
    }
    if record_type == protocol::DESTROY_SURFACE || record_type == protocol::QUERY_SURFACE {
        return Some(
            match session.payload_surface_identity(payload) {
                Ok(surface) => Ok(
                    if record_type == protocol::DESTROY_SURFACE {
                        Question::DestroySurface(surface)
                    } else {
                        Question::Surface(surface)
                    },
                ),
                Err(error) => Err(error),
            },
        );
    }
    if record_type == protocol::PROBE_TRACK_CONFIG {
        return Some(
            match read_probe(value) {
                Ok(configuration) => Ok(Question::ProbeTrack(configuration)),
                Err(error) => Err(error),
            },
        );
    }
    if record_type == protocol::CREATE_TRACK {
        return Some(
            match read_track_request(session, object_id, value) {
                Ok((track, configuration)) => Ok(Question::CreateTrack(track, configuration)),
                Err(error) => Err(error),
            },
        );
    }
    if record_type == protocol::ADVANCE_CHANNEL {
        return Some(
            match read_advance(session, payload) {
                Ok(advance) => Ok(Question::AdvanceChannel(advance)),
                Err(error) => Err(error),
            },
        );
    }
    if record_type == protocol::SET_AUDIO_GAIN {
        return Some(
            match read_gain(session, payload) {
                Ok((track, gain)) => Ok(Question::SetGain(track, gain)),
                Err(error) => Err(error),
            },
        );
    }
    if record_type == protocol::ACTIVATE_TRACK {
        return Some(
            match read_activation(session, payload) {
                Ok(activation) => Ok(Question::Activate(activation)),
                Err(error) => Err(error),
            },
        );
    }
    None
}

/// Read what a record asks of scenes and anchors.
fn read_scene_question(
    session: &Session,
    record_type: u16,
    object_id: u64,
    envelope: &ControlEnvelope,
    value: &Value,
) -> (r: Option<Result<Question, ControlError>>)
    requires
        session.wf(),
        crate::value::value_view(*value) == ValueView::Entries(payload_view(envelope.payload@)),
    ensures
        match r {
            Some(Ok(question)) => asks_scene(record_type) && question_refusal(
                *session,
                record_type,
                object_id,
                envelope@,
            ) is None && is_question(question, *session, record_type, object_id, envelope@),
            Some(Err(error)) => asks_scene(record_type) && question_refusal(
                *session,
                record_type,
                object_id,
                envelope@,
            ) == Some(error),
            None => !(record_type == protocol::QUERY_SESSION || record_type == protocol::BEGIN_TXN
                || record_type == protocol::CREATE_NODE || record_type == protocol::UPDATE_NODE
                || record_type == protocol::DELETE_NODE || record_type == protocol::ABORT_TXN
                || record_type == protocol::COMMIT_TXN || record_type == protocol::QUERY_SCENE
                || record_type == protocol::QUERY_ANCHOR || record_type == protocol::WAIT_TRACK),
        },
{
    let payload = &envelope.payload;
    if record_type == protocol::QUERY_SESSION {
        return Some(Ok(Question::Session));
    }
    if record_type == protocol::QUERY_SCENE {
        return Some(Ok(Question::Scene));
    }
    if record_type == protocol::BEGIN_TXN {
        return Some(
            match read_begin(session, payload) {
                Ok((context, transaction)) => Ok(Question::BeginTransaction(context, transaction)),
                Err(error) => Err(error),
            },
        );
    }
    if record_type == protocol::CREATE_NODE || record_type == protocol::UPDATE_NODE {
        return Some(
            match read_node(session, envelope.transaction_id, object_id, value) {
                Ok(change) => Ok(
                    if record_type == protocol::CREATE_NODE {
                        Question::CreateNode(change)
                    } else {
                        Question::UpdateNode(change)
                    },
                ),
                Err(error) => Err(error),
            },
        );
    }
    if record_type == protocol::DELETE_NODE {
        return Some(
            match read_deletion(session, envelope.transaction_id, payload) {
                Ok((context, transaction, node)) => Ok(
                    Question::DeleteNode(context, transaction, node),
                ),
                Err(error) => Err(error),
            },
        );
    }
    if record_type == protocol::ABORT_TXN {
        return Some(
            Ok(Question::AbortTransaction(ended_transaction(envelope.transaction_id, object_id))),
        );
    }
    if record_type == protocol::COMMIT_TXN {
        return Some(
            match read_commit(payload) {
                Ok(_) => Ok(
                    Question::CommitTransaction(
                        ended_transaction(envelope.transaction_id, object_id),
                    ),
                ),
                Err(error) => Err(error),
            },
        );
    }
    if record_type == protocol::QUERY_ANCHOR {
        return Some(
            match read_anchor_query(session, payload) {
                Ok(anchor) => Ok(Question::Anchor(anchor)),
                Err(error) => Err(error),
            },
        );
    }
    if record_type == protocol::WAIT_TRACK {
        return Some(
            match read_wait(session, payload) {
                Ok(request) => Ok(Question::Wait(request)),
                Err(error) => Err(error),
            },
        );
    }
    None
}

/// Read what a record asks of the scene, where it asks anything of it.
pub fn read_question(session: &Session, record_type: u16, object_id: u64, envelope: &ControlEnvelope) -> (r:
    Option<Result<Question, ControlError>>)
    requires
        session.wf(),
    ensures
        match r {
            Some(Ok(question)) => asks_scene(record_type) && question_refusal(
                *session,
                record_type,
                object_id,
                envelope@,
            ) is None && is_question(question, *session, record_type, object_id, envelope@),
            Some(Err(error)) => asks_scene(record_type) && question_refusal(
                *session,
                record_type,
                object_id,
                envelope@,
            ) == Some(error),
            None => !asks_scene(record_type),
        },
{
    let value = entries_value(clone_payload(&envelope.payload));
    if let Some(outcome) = read_media_question(session, record_type, object_id, envelope, &value) {
        return Some(outcome);
    }
    if let Some(outcome) = read_scene_question(session, record_type, object_id, envelope, &value) {
        return Some(outcome);
    }
    if record_type == protocol::DESTROY_TRACK || record_type == protocol::QUERY_TRACK || record_type
        == protocol::PLAY || record_type == protocol::PAUSE || record_type == protocol::FLUSH
        || record_type == protocol::DRAIN {
        return Some(
            match session.payload_track_identity(&envelope.payload) {
                Ok(track) => Ok(
                    if record_type == protocol::DESTROY_TRACK {
                        Question::DestroyTrack(track)
                    } else if record_type == protocol::QUERY_TRACK {
                        Question::Track(track)
                    } else if record_type == protocol::PLAY {
                        Question::Play(track)
                    } else if record_type == protocol::PAUSE {
                        Question::Pause(track)
                    } else if record_type == protocol::FLUSH {
                        Question::Flush(track)
                    } else {
                        Question::Drain(track)
                    },
                ),
                Err(error) => Err(error),
            },
        );
    }
    None
}

/// Whether a step is an answer or a refusal, and this one.
pub open spec fn is_answered(step: Step, answer: Result<OutgoingRecord, ControlError>) -> bool {
    match answer {
        Ok(record) => step == Step::Answer(record),
        Err(error) => step == Step::Refuse(error),
    }
}

/// The step that answers or refuses.
fn answered(answer: Result<OutgoingRecord, ControlError>) -> (r: Step)
    ensures
        is_answered(r, answer),
{
    match answer {
        Ok(record) => Step::Answer(record),
        Err(error) => Step::Refuse(error),
    }
}

/// What a step answers.
pub open spec fn answer_in(step: Step) -> Result<OutgoingRecord, ControlError> {
    match step {
        Step::Answer(record) => Ok(record),
        Step::Refuse(error) => Err(error),
        _ => arbitrary(),
    }
}

/// Whether a step answers or refuses, and nothing else.
pub open spec fn answers(step: Step) -> bool {
    step is Answer || step is Refuse
}

/// Whether a record about drops was dealt with: what is known of drops changes, and nothing else.
pub open spec fn drop_step(
    before: FileDropManager,
    after: FileDropManager,
    session: Session,
    record_type: u16,
    object_id: u64,
    envelope: EnvelopeView,
    now_us: u64,
    step: Step,
) -> bool {
    let value = ValueView::Entries(envelope.payload);
    let request_id = envelope.request_id;
    &&& answers(step)
    &&& if record_type == protocol::ACCEPT_FILE_DROP {
        acceptance_answered(
            before,
            after,
            session,
            object_id,
            request_id,
            value,
            now_us,
            answer_in(step),
        )
    } else if record_type == protocol::CANCEL_FILE_DROP {
        cancellation_answered(
            before,
            after,
            session,
            object_id,
            request_id,
            value,
            now_us,
            answer_in(step),
        )
    } else if record_type == protocol::ADVANCE_FILE_TRANSFER {
        advance_answered(
            before,
            after,
            session,
            object_id,
            request_id,
            value,
            now_us,
            answer_in(step),
        )
    } else {
        query_answered(
            before,
            after,
            session,
            object_id,
            request_id,
            value,
            now_us,
            answer_in(step),
        )
    }
}

/// Whether a record is about drops and needs no scene.
pub open spec fn is_drop_record(record_type: u16) -> bool {
    record_type == protocol::ACCEPT_FILE_DROP || record_type == protocol::CANCEL_FILE_DROP
        || record_type == protocol::ADVANCE_FILE_TRANSFER || record_type
        == protocol::QUERY_FILE_DROP
}

/// Whether a record revoked a context: what is known of drops in it and below goes with it.
pub open spec fn revocation_step(
    before: Session,
    after: Session,
    drops_before: FileDropManager,
    drops_after: FileDropManager,
    envelope: EnvelopeView,
    step: Step,
) -> bool {
    match revoke_context_refusal(before, envelope.payload) {
        Some(error) => step == Step::Refuse(error) && after == before && drops_after == drops_before,
        None => step matches Step::ForgetContexts(removed, record) && {
            let context_id = number(envelope.payload, 0);
            &&& after == (Session { contexts: after.contexts, ..before })
            &&& context_revoked(
                before.contexts.table@,
                after.contexts.table@,
                context_id,
                removed@,
            )
            &&& drops_removed(
                drops_before,
                drops_after,
                before.identity,
                Scope::Contexts(&removed),
            )
            &&& drops_after.grant_generations == drops_before.grant_generations
            &&& is_reply(Ok(record), acknowledgement(context_id, envelope.request_id))
        },
    }
}

/// Whether a record revoked a lease.
pub open spec fn lease_step(
    before: Registry,
    after: Registry,
    session_id: u64,
    object_id: u64,
    envelope: EnvelopeView,
    step: Step,
) -> bool {
    let session = before.sessions@[session_id];
    match revoke_lease_refusal(before, session, envelope.payload) {
        Some(error) => step == Step::Refuse(error) && after == before,
        None => {
            let key = named_lease(session, envelope.payload);
            let acknowledged = acknowledgement(object_id, envelope.request_id);
            &&& lease_revoked(before, after, session_id, key, REASON_EXPLICIT_REVOKE)
            &&& match before.leases@[key].child {
                Some(child) => step matches Step::EndSession(ended, record) && ended == child
                    && is_reply(Ok(record), acknowledged),
                None => step matches Step::Answer(record) && is_reply(Ok(record), acknowledged),
            }
        },
    }
}

/// Whether a record was dealt with, and how: the envelope is opened, and what its type asks for is
/// done within the authority of the session that sent it. What the presenter does not know is passed
/// over where it may be, and refused where not.
pub open spec fn dispatched(
    before: Registry,
    after: Registry,
    drops_before: FileDropManager,
    drops_after: FileDropManager,
    cancelled_before: Set<u64>,
    cancelled_after: Set<u64>,
    session_id: u64,
    supported: Seq<String>,
    record: ControlRecord,
    now_us: u64,
    step: Step,
) -> bool {
    let session = before.sessions@[session_id];
    let changed = after.sessions@[session_id];
    let kind = record.record_type;
    let object_id = record.object_id;
    match opened(record.flags, record.body@) {
        Err(error) => after == before && drops_after == drops_before && cancelled_after
            == cancelled_before && step == Step::Refuse(error),
        Ok(envelope) => {
            &&& kind != protocol::CANCEL_WAIT ==> cancelled_after == cancelled_before
            &&& !is_drop_record(kind) && kind != protocol::REVOKE_CONTEXT ==> drops_after
                == drops_before
            &&& if kind == protocol::CREATE_SESSION_LEASE {
                answers(step) && lease_answered(
                    before,
                    after,
                    session_id,
                    supported,
                    object_id,
                    envelope.request_id,
                    ValueView::Entries(envelope.payload),
                    now_us,
                    answer_in(step),
                )
            } else if kind == protocol::REVOKE_SESSION_LEASE {
                lease_step(before, after, session_id, object_id, envelope, step)
            } else if kind == protocol::CREATE_CONTEXT || kind == protocol::REVOKE_CONTEXT || kind
                == protocol::SET_OBSERVATION {
                &&& after == (Registry { sessions: after.sessions, ..before })
                &&& one_session_changed(before.sessions@, after.sessions@, session_id)
                &&& if kind == protocol::CREATE_CONTEXT {
                    answers(step) && context_answered(
                        session,
                        changed,
                        object_id,
                        envelope.request_id,
                        ValueView::Entries(envelope.payload),
                        answer_in(step),
                    )
                } else if kind == protocol::REVOKE_CONTEXT {
                    revocation_step(session, changed, drops_before, drops_after, envelope, step)
                } else {
                    match subscription_refusal(envelope.payload) {
                        Some(error) => unsubscribed(session, changed) && step == Step::Refuse(
                            error,
                        ),
                        None => resubscribed(session, changed, number(envelope.payload, 0))
                            && answers(step) && is_reply(
                            answer_in(step),
                            acknowledgement(object_id, envelope.request_id),
                        ),
                    }
                }
            } else {
                &&& after == before
                &&& if asks_scene(kind) {
                    match question_refusal(session, kind, object_id, envelope) {
                        Some(error) => step == Step::Refuse(error),
                        None => step matches Step::Ask(question, opened_envelope) && is_question(
                            question,
                            session,
                            kind,
                            object_id,
                            envelope,
                        ) && opened_envelope@ == envelope,
                    }
                } else if is_drop_record(kind) {
                    drop_step(
                        drops_before,
                        drops_after,
                        session,
                        kind,
                        object_id,
                        envelope,
                        now_us,
                        step,
                    )
                } else if kind == protocol::CANCEL_WAIT {
                    match malformed(
                        envelope.payload,
                        seq![0u64],
                        "invalid CANCEL_WAIT schema",
                        seq![(0u64, "CANCEL_WAIT request ID")],
                    ) {
                        Some(message) => cancelled_after == cancelled_before && step == Step::Refuse(
                            ControlError::coded(ERROR_BAD_MESSAGE, message),
                        ),
                        None => cancelled_after == cancelled_before.insert(
                            number(envelope.payload, 0),
                        ) && answers(step) && is_reply(
                            answer_in(step),
                            acknowledgement(object_id, envelope.request_id),
                        ),
                    }
                } else if kind == protocol::PING {
                    answers(step) && is_reply(
                        answer_in(step),
                        reply_of(PONG, 0, envelope.request_id, envelope.payload),
                    )
                } else if kind == protocol::GOODBYE {
                    answers(step) && is_reply(
                        answer_in(step),
                        acknowledgement(0, envelope.request_id),
                    )
                } else if record.flags & RECORD_OPTIONAL != 0 {
                    step is Nothing
                } else {
                    step == Step::Refuse(
                        ControlError::coded(
                            ERROR_UNSUPPORTED_CONFIG,
                            "record is not implemented by the terminal presentation target",
                        ),
                    )
                }
            }
        },
    }
}

/// Deal with a record about drops that needs no scene.
fn dispatch_drop(
    manager: &mut FileDropManager,
    session: &Session,
    record_type: u16,
    object_id: u64,
    envelope: &ControlEnvelope,
    now_us: u64,
) -> (r: Step)
    requires
        old(manager).wf(),
        session.wf(),
        is_drop_record(record_type),
    ensures
        final(manager).wf(),
        drop_step(
            *old(manager),
            *final(manager),
            *session,
            record_type,
            object_id,
            envelope@,
            now_us,
            r,
        ),
{
    let value = entries_value(clone_payload(&envelope.payload));
    let request_id = envelope.request_id;
    let answer = if record_type == protocol::ACCEPT_FILE_DROP {
        accept_drop(manager, session, object_id, request_id, &value, now_us)
    } else if record_type == protocol::CANCEL_FILE_DROP {
        cancel_drop(manager, session, object_id, request_id, &value, now_us)
    } else if record_type == protocol::ADVANCE_FILE_TRANSFER {
        advance_transfer(manager, session, object_id, request_id, &value, now_us)
    } else {
        query_drop(manager, session, object_id, request_id, &value, now_us)
    };
    answered(answer)
}

/// Revoke a context of a session, and forget what is known of drops in it and below.
fn dispatch_revocation(
    session: &mut Session,
    manager: &mut FileDropManager,
    envelope: &ControlEnvelope,
) -> (r: Step)
    requires
        old(session).wf(),
        old(manager).wf(),
    ensures
        final(session).wf(),
        final(manager).wf(),
        revocation_step(
            *old(session),
            *final(session),
            *old(manager),
            *final(manager),
            envelope@,
            r,
        ),
{
    let identity = session.identity;
    match revoke_context(session, &envelope.payload) {
        Err(error) => Step::Refuse(error),
        Ok((context_id, removed)) => {
            manager.remove_contexts(identity, &removed);
            match acknowledge(context_id, envelope.request_id) {
                Ok(record) => Step::ForgetContexts(removed, record),
                Err(error) => Step::Refuse(error),
            }
        },
    }
}

/// Revoke a lease of a session.
fn dispatch_lease_revocation(
    registry: &mut Registry,
    session_id: u64,
    object_id: u64,
    envelope: &ControlEnvelope,
    now_us: u64,
) -> (r: Step)
    requires
        old(registry).wf(),
        old(registry).sessions@.contains_key(session_id),
    ensures
        final(registry).wf(),
        lease_step(*old(registry), *final(registry), session_id, object_id, envelope@, r),
{
    match revoke_session_lease(registry, session_id, &envelope.payload, now_us) {
        Err(error) => Step::Refuse(error),
        Ok(child) => match acknowledge(object_id, envelope.request_id) {
            Err(error) => Step::Refuse(error),
            Ok(record) => match child {
                Some(ended) => Step::EndSession(ended, record),
                None => Step::Answer(record),
            },
        },
    }
}

/// Deal with one control record of a session.
pub fn dispatch_control(
    registry: &mut Registry,
    manager: &mut FileDropManager,
    cancelled: &mut HashSet<u64>,
    session_id: u64,
    supported: &Vec<String>,
    record: &ControlRecord,
    now_us: u64,
) -> (r: Step)
    requires
        old(registry).wf(),
        old(manager).wf(),
        old(registry).sessions@.contains_key(session_id),
    ensures
        final(registry).wf(),
        final(manager).wf(),
        dispatched(
            *old(registry),
            *final(registry),
            *old(manager),
            *final(manager),
            old(cancelled)@,
            final(cancelled)@,
            session_id,
            supported@,
            *record,
            now_us,
            r,
        ),
{
    broadcast use vstd::std_specs::hash::group_hash_axioms;

    let ghost before = *registry;
    let kind: u16 = record.record_type;
    let object_id = record.object_id;
    let envelope = match open_record(record.flags, &record.body) {
        Ok(envelope) => envelope,
        Err(error) => {
            return Step::Refuse(error);
        },
    };
    let request_id = envelope.request_id;
    if kind == protocol::CREATE_SESSION_LEASE {
        let value = entries_value(clone_payload(&envelope.payload));
        return answered(
            create_session_lease(
                registry,
                session_id,
                supported,
                object_id,
                request_id,
                &value,
                now_us,
            ),
        );
    }
    if kind == protocol::REVOKE_SESSION_LEASE {
        return dispatch_lease_revocation(registry, session_id, object_id, &envelope, now_us);
    }
    if kind == protocol::CREATE_CONTEXT || kind == protocol::REVOKE_CONTEXT || kind
        == protocol::SET_OBSERVATION {
        let step = match registry.sessions.get_mut(&session_id) {
            Some(session) => if kind == protocol::CREATE_CONTEXT {
                let value = entries_value(clone_payload(&envelope.payload));
                answered(create_context(session, object_id, request_id, &value))
            } else if kind == protocol::REVOKE_CONTEXT {
                dispatch_revocation(session, manager, &envelope)
            } else {
                answered(set_observation(session, &envelope.payload, object_id, request_id))
            },
            None => Step::Nothing,
        };
        assert(registry.sessions@.dom() =~= before.sessions@.dom());
        return step;
    }
    let session = match registry.sessions.get(&session_id) {
        Some(session) => session,
        None => {
            return Step::Nothing;
        },
    };
    if let Some(outcome) = read_question(session, kind, object_id, &envelope) {
        return match outcome {
            Ok(question) => Step::Ask(question, envelope),
            Err(error) => Step::Refuse(error),
        };
    }
    if kind == protocol::ACCEPT_FILE_DROP || kind == protocol::CANCEL_FILE_DROP || kind
        == protocol::ADVANCE_FILE_TRANSFER || kind == protocol::QUERY_FILE_DROP {
        return dispatch_drop(manager, session, kind, object_id, &envelope, now_us);
    }
    if kind == protocol::CANCEL_WAIT {
        return match read_cancellation(&envelope.payload) {
            Ok(target) => {
                cancelled.insert(target);
                answered(acknowledge(object_id, request_id))
            },
            Err(error) => Step::Refuse(error),
        };
    }
    if kind == protocol::PING {
        return answered(answer_ping(envelope.payload, request_id));
    }
    if kind == protocol::GOODBYE {
        return answered(acknowledge(0, request_id));
    }
    if record.flags & RECORD_OPTIONAL != 0 {
        return Step::Nothing;
    }
    Step::Refuse(
        ControlError::unsupported("record is not implemented by the terminal presentation target"),
    )
}

/// The request that a record names, zero where it names none.
pub open spec fn named_request(body: Seq<u8>) -> u64 {
    match envelope_decoded(body) {
        Some(envelope) => envelope.request_id,
        None => 0,
    }
}

/// Whether a refusal was sent, and whether the session goes on. A refusal that names no request ends
/// the session.
pub open spec fn refusal_sent(
    before: Egress,
    after: Egress,
    record: ControlRecord,
    error: ControlError,
    goes_on: bool,
) -> bool {
    let request_id = named_request(record.body@);
    match error_bytes(request_id, error.code, request_id == 0, error.message@) {
        None => after == before && !goes_on,
        Some(body) => {
            let taken = has_room(Some(before));
            &&& offered_one(
                Some(before),
                Some(after),
                (protocol::ERROR, record.object_id, body),
                taken,
            )
            &&& goes_on == (taken && request_id != 0)
        },
    }
}

/// Send what a record came to. `false` means that the session ends.
pub fn dispatch_and_reply(
    egress: &mut Egress,
    record: &ControlRecord,
    outcome: Result<Option<OutgoingRecord>, ControlError>,
) -> (r: bool)
    requires
        old(egress).wf(),
    ensures
        final(egress).wf(),
        match outcome {
            Ok(Some(answer)) => r == has_room(Some(*old(egress))) && offered_one(
                Some(*old(egress)),
                Some(*final(egress)),
                record_view(answer),
                r,
            ),
            Ok(None) => r && *final(egress) == *old(egress),
            Err(error) => refusal_sent(*old(egress), *final(egress), *record, error, r),
        },
{
    let ghost before = *egress;
    match outcome {
        Ok(Some(answer)) => {
            let taken = egress.send(answer.0, answer.1, answer.2);
            proof {
                if taken {
                    assert(records_view(egress.records@) =~= records_view(before.records@).push(
                        record_view(answer),
                    ));
                }
            }
            taken
        },
        Ok(None) => true,
        Err(error) => {
            let request_id: u64 = match decode_control(record.body.as_slice()) {
                Some(envelope) => envelope.request_id,
                None => 0,
            };
            let fatal = request_id == 0;
            match protocol_error(request_id, error.code, fatal, error.message.to_string()) {
                Err(_) => false,
                Ok(body) => {
                    let ghost sent = body@;
                    let taken = egress.send(protocol::ERROR, record.object_id, body);
                    proof {
                        if taken {
                            assert(records_view(egress.records@) =~= records_view(
                                before.records@,
                            ).push((protocol::ERROR, record.object_id, sent)));
                        }
                    }
                    taken && !fatal
                },
            }
        },
    }
}

/// What a session does after a record.
#[derive(Debug, Clone, Copy, PartialEq, Eq, Structural)]
pub enum AfterRecord {
    Continue,
    /// The session ends. It is a clean end where the producer said goodbye.
    End { clean: bool },
}

/// What a session does after a record, given whether it goes on.
pub fn after_record(record_type: u16, goes_on: bool) -> (r: AfterRecord)
    ensures
        r == (if !goes_on {
            AfterRecord::End { clean: false }
        } else if record_type == protocol::GOODBYE {
            AfterRecord::End { clean: true }
        } else {
            AfterRecord::Continue
        }),
{
    if !goes_on {
        AfterRecord::End { clean: false }
    } else if record_type == protocol::GOODBYE {
        AfterRecord::End { clean: true }
    } else {
        AfterRecord::Continue
    }
}

/// What a trace calls a record about a track, and whether it is about playing.
#[derive(Debug, Clone, Copy, PartialEq, Eq, Structural)]
pub enum TraceCategory {
    Lifecycle,
    Playback,
}

/// What a trace calls a record about a track, where it traces one.
pub fn traced_track_control(record_type: u16) -> (r: Option<(&'static str, TraceCategory)>)
    ensures
        r is Some <==> (record_type == protocol::CREATE_TRACK || record_type
            == protocol::DESTROY_TRACK || record_type == protocol::ADVANCE_CHANNEL || record_type
            == protocol::SET_AUDIO_GAIN || record_type == protocol::PLAY || record_type
            == protocol::PAUSE || record_type == protocol::FLUSH || record_type
            == protocol::DRAIN),
        r matches Some((name, category)) ==> (category == TraceCategory::Lifecycle) == (record_type
            == protocol::CREATE_TRACK || record_type == protocol::DESTROY_TRACK || record_type
            == protocol::ADVANCE_CHANNEL) && name@ == (if record_type == protocol::CREATE_TRACK {
            "create_track"@
        } else if record_type == protocol::DESTROY_TRACK {
            "destroy_track"@
        } else if record_type == protocol::ADVANCE_CHANNEL {
            "advance_channel"@
        } else if record_type == protocol::SET_AUDIO_GAIN {
            "set_audio_gain"@
        } else if record_type == protocol::PLAY {
            "play"@
        } else if record_type == protocol::PAUSE {
            "pause"@
        } else if record_type == protocol::FLUSH {
            "flush"@
        } else {
            "drain"@
        }),
{
    if record_type == protocol::CREATE_TRACK {
        Some(("create_track", TraceCategory::Lifecycle))
    } else if record_type == protocol::DESTROY_TRACK {
        Some(("destroy_track", TraceCategory::Lifecycle))
    } else if record_type == protocol::ADVANCE_CHANNEL {
        Some(("advance_channel", TraceCategory::Lifecycle))
    } else if record_type == protocol::SET_AUDIO_GAIN {
        Some(("set_audio_gain", TraceCategory::Playback))
    } else if record_type == protocol::PLAY {
        Some(("play", TraceCategory::Playback))
    } else if record_type == protocol::PAUSE {
        Some(("pause", TraceCategory::Playback))
    } else if record_type == protocol::FLUSH {
        Some(("flush", TraceCategory::Playback))
    } else if record_type == protocol::DRAIN {
        Some(("drain", TraceCategory::Playback))
    } else {
        None
    }
}

/// No record reaches a foreign session: every session but the one that sent it is as it was, except
/// that a revoked lease ends the session that was activated from it.
pub proof fn a_record_reaches_no_foreign_session(
    before: Registry,
    after: Registry,
    drops_before: FileDropManager,
    drops_after: FileDropManager,
    cancelled_before: Set<u64>,
    cancelled_after: Set<u64>,
    session_id: u64,
    supported: Seq<String>,
    record: ControlRecord,
    now_us: u64,
    step: Step,
    other: u64,
)
    requires
        dispatched(
            before,
            after,
            drops_before,
            drops_after,
            cancelled_before,
            cancelled_after,
            session_id,
            supported,
            record,
            now_us,
            step,
        ),
        other != session_id,
        step matches Step::EndSession(ended, _) ==> ended.session_id != other,
    ensures
        after.sessions@.contains_key(other) == before.sessions@.contains_key(other),
        before.sessions@.contains_key(other) ==> after.sessions@[other] == before.sessions@[other],
{
    if let Ok(envelope) = opened(record.flags, record.body@) {
        let session = before.sessions@[session_id];
        if record.record_type == protocol::REVOKE_SESSION_LEASE && revoke_lease_refusal(
            before,
            session,
            envelope.payload,
        ) is None {
            a_revocation_stays_within_its_lease(
                before,
                after,
                session_id,
                named_lease(session, envelope.payload),
                REASON_EXPLICIT_REVOKE,
                other,
            );
        }
    }
}

/// A record that the presenter does not know and that may be passed over changes nothing and gets no
/// answer. One that may not be passed over is refused.
pub proof fn an_unknown_record_changes_nothing(
    before: Registry,
    after: Registry,
    drops_before: FileDropManager,
    drops_after: FileDropManager,
    cancelled_before: Set<u64>,
    cancelled_after: Set<u64>,
    session_id: u64,
    supported: Seq<String>,
    record: ControlRecord,
    now_us: u64,
    step: Step,
)
    requires
        dispatched(
            before,
            after,
            drops_before,
            drops_after,
            cancelled_before,
            cancelled_after,
            session_id,
            supported,
            record,
            now_us,
            step,
        ),
        !is_known_record(record.record_type),
    ensures
        after == before,
        drops_after == drops_before,
        cancelled_after == cancelled_before,
        opened(record.flags, record.body@) is Ok ==> (step is Nothing <==> record.flags
            & RECORD_OPTIONAL != 0),
        step is Nothing || step is Refuse,
{
}

/// Whether the presenter knows what a record asks for.
pub open spec fn is_known_record(record_type: u16) -> bool {
    ||| asks_scene(record_type)
    ||| is_drop_record(record_type)
    ||| record_type == protocol::PING
    ||| record_type == protocol::GOODBYE
    ||| record_type == protocol::CREATE_CONTEXT
    ||| record_type == protocol::REVOKE_CONTEXT
    ||| record_type == protocol::CREATE_SESSION_LEASE
    ||| record_type == protocol::REVOKE_SESSION_LEASE
    ||| record_type == protocol::CANCEL_WAIT
    ||| record_type == protocol::SET_OBSERVATION
}

/// A record asks what its number says, and no two numbers ask the same.
pub proof fn a_record_asks_what_its_number_says(
    session: &Session,
    record_type: u16,
    object_id: u64,
    envelope: &ControlEnvelope,
    r: Option<Result<Question, ControlError>>,
)
    requires
        call_ensures(read_question, (session, record_type, object_id, envelope), r),
    ensures
        r matches Some(Ok(question)) ==> {
            &&& question is Session <==> record_type == 0x0008
            &&& question is CreateSurface <==> record_type == 0x0100
            &&& question is UpdateSurface <==> record_type == 0x0102
            &&& question is DestroySurface <==> record_type == 0x0103
            &&& question is Surface <==> record_type == 0x0104
            &&& question is ProbeTrack <==> record_type == 0x0120
            &&& question is CreateTrack <==> record_type == 0x0122
            &&& question is DestroyTrack <==> record_type == 0x0124
            &&& question is Activate <==> record_type == 0x0126
            &&& question is AdvanceChannel <==> record_type == 0x0128
            &&& question is Track <==> record_type == 0x012a
            &&& question is Wait <==> record_type == 0x012c
            &&& question is BeginTransaction <==> record_type == 0x0200
            &&& question is CreateNode <==> record_type == 0x0201
            &&& question is UpdateNode <==> record_type == 0x0202
            &&& question is DeleteNode <==> record_type == 0x0203
            &&& question is CommitTransaction <==> record_type == 0x0204
            &&& question is AbortTransaction <==> record_type == 0x0205
            &&& question is Scene <==> record_type == 0x0207
            &&& question is Anchor <==> record_type == 0x020c
            &&& question is Play <==> record_type == 0x0300
            &&& question is Pause <==> record_type == 0x0301
            &&& question is Flush <==> record_type == 0x0303
            &&& question is Drain <==> record_type == 0x0304
            &&& question is SetGain <==> record_type == 0x0307
            &&& question is BindDrops <==> record_type == 0x7000
        },
        r is None ==> record_type < 0x0100 && record_type != 0x0008 || 0x0130 <= record_type < 0x0200
            || 0x020d <= record_type < 0x0300 || 0x0308 <= record_type < 0x7000 || record_type
            > 0x7000 || record_type == 0x0101 || 0x0105 <= record_type < 0x0120 || record_type
            == 0x0121 || record_type == 0x0123 || record_type == 0x0125 || record_type == 0x0127
            || record_type == 0x0129 || record_type == 0x012b || 0x012d <= record_type < 0x0130
            || record_type == 0x0206 || 0x0208 <= record_type < 0x020c || record_type == 0x0302
            || record_type == 0x0305 || record_type == 0x0306,
{
}

/// What is asked about a track is asked about the track that the record names, of this session.
pub proof fn a_question_is_about_what_the_record_names(
    session: &Session,
    record_type: u16,
    object_id: u64,
    envelope: &ControlEnvelope,
    r: Option<Result<Question, ControlError>>,
)
    requires
        call_ensures(read_question, (session, record_type, object_id, envelope), r),
    ensures
        r matches Some(Ok(question)) ==> {
            &&& question matches Question::Play(track) ==> payload_track(*session, envelope@.payload)
                == Ok::<TrackIdentity, ControlError>(track)
            &&& question matches Question::Pause(track) ==> payload_track(*session, envelope@.payload)
                == Ok::<TrackIdentity, ControlError>(track)
            &&& question matches Question::Flush(track) ==> payload_track(*session, envelope@.payload)
                == Ok::<TrackIdentity, ControlError>(track)
            &&& question matches Question::Drain(track) ==> payload_track(*session, envelope@.payload)
                == Ok::<TrackIdentity, ControlError>(track)
            &&& question matches Question::Track(track) ==> payload_track(*session, envelope@.payload)
                == Ok::<TrackIdentity, ControlError>(track)
            &&& question matches Question::DestroyTrack(track) ==> payload_track(
                *session,
                envelope@.payload,
            ) == Ok::<TrackIdentity, ControlError>(track)
            &&& question matches Question::Surface(surface) ==> payload_surface(
                *session,
                envelope@.payload,
            ) == Ok::<SurfaceIdentity, ControlError>(surface)
            &&& question matches Question::DestroySurface(surface) ==> payload_surface(
                *session,
                envelope@.payload,
            ) == Ok::<SurfaceIdentity, ControlError>(surface)
            &&& question matches Question::CommitTransaction(transaction) ==> (
            envelope@.transaction_id matches Some(named) ==> transaction == named) && (
            envelope@.transaction_id is None ==> transaction == object_id)
            &&& question matches Question::AbortTransaction(transaction) ==> (
            envelope@.transaction_id matches Some(named) ==> transaction == named) && (
            envelope@.transaction_id is None ==> transaction == object_id)
        },
{
}

/// A record is opened where its flags are none but the one that lets it be passed over, its body is an
/// envelope, and the envelope has a number. Whatever else comes is a bad message.
pub proof fn a_record_is_opened_where_it_is_sound(
    flags: u16,
    body: &Vec<u8>,
    r: Result<ControlEnvelope, ControlError>,
)
    requires
        call_ensures(open_record, (flags, body), r),
    ensures
        r is Ok <==> flags <= 1 && envelope_decoded(body@) is Some && envelope_decoded(
            body@,
        )->0.request_id != 0,
        r matches Ok(envelope) ==> envelope_decoded(body@) == Some(envelope@),
        r matches Err(error) ==> error.code == 5,
{
    assert(flags & !1u16 == 0 <==> flags <= 1) by (bit_vector);
}

/// A ping is answered with what it carried, a goodbye with an acknowledgement. Neither changes
/// anything.
pub proof fn a_ping_is_echoed(
    registry: &mut Registry,
    manager: &mut FileDropManager,
    cancelled: &mut HashSet<u64>,
    session_id: u64,
    supported: &Vec<String>,
    record: &ControlRecord,
    now_us: u64,
    r: Step,
)
    requires
        call_ensures(
            dispatch_control,
            (registry, manager, cancelled, session_id, supported, record, now_us),
            r,
        ),
        record.flags == 0,
        envelope_decoded(record.body@) is Some,
        envelope_decoded(record.body@)->0.request_id != 0,
        record.record_type == 0x0005 || record.record_type == 0x0007,
    ensures
        *final(registry) == *old(registry),
        *final(manager) == *old(manager),
        final(cancelled)@ == old(cancelled)@,
        ({
            let asked = envelope_decoded(record.body@)->0;
            &&& record.record_type == 0x0007 ==> (r matches Step::Answer(answer) && record_view(
                answer,
            ) == (0x0003u16, 0u64, crate::reply::ok_bytes(asked.request_id)))
            &&& record.record_type == 0x0005 ==> match crate::reply::envelope_bytes(
                asked.request_id,
                asked.payload,
            ) {
                Some(body) => r matches Step::Answer(answer) && record_view(answer) == (
                    0x0006u16,
                    0u64,
                    body,
                ),
                None => r is Refuse,
            }
        }),
{
    assert(0u16 & !1u16 == 0) by (bit_vector);
}

/// A cancelled wait is noted under the number it was asked with, beside those noted before.
pub proof fn a_cancelled_wait_is_noted(
    registry: &mut Registry,
    manager: &mut FileDropManager,
    cancelled: &mut HashSet<u64>,
    session_id: u64,
    supported: &Vec<String>,
    record: &ControlRecord,
    now_us: u64,
    r: Step,
)
    requires
        call_ensures(
            dispatch_control,
            (registry, manager, cancelled, session_id, supported, record, now_us),
            r,
        ),
    ensures
        record.record_type != 0x012e ==> final(cancelled)@ == old(cancelled)@,
        old(cancelled)@.subset_of(final(cancelled)@),
        record.record_type == 0x012e && r is Answer ==> ({
            let asked = envelope_decoded(record.body@)->0;
            let wait = number(asked.payload, 0);
            &&& final(cancelled)@.contains(wait)
            &&& forall|other: u64| #[trigger]
                final(cancelled)@.contains(other) ==> other == wait || old(cancelled)@.contains(other)
        }),
        record.record_type == 0x012e ==> *final(registry) == *old(registry) && *final(manager) == *old(manager),
{
}

/// What a record asks of a drop is asked of the drop manager by its number. Records about anything
/// else leave the drops alone, but for one that takes a context back.
pub proof fn a_drop_record_reaches_the_drops(
    registry: &mut Registry,
    manager: &mut FileDropManager,
    cancelled: &mut HashSet<u64>,
    session_id: u64,
    supported: &Vec<String>,
    record: &ControlRecord,
    now_us: u64,
    r: Step,
)
    requires
        call_ensures(
            dispatch_control,
            (registry, manager, cancelled, session_id, supported, record, now_us),
            r,
        ),
        opened(record.flags, record.body@) is Ok,
    ensures
        ({
            let asked = envelope_decoded(record.body@)->0;
            let session = old(registry).sessions@[session_id];
            let value = ValueView::Entries(asked.payload);
            let kind = record.record_type;
            &&& kind != 0x7003 && kind != 0x7005 && kind != 0x7007 && kind != 0x7009 && kind
                != 0x0602 ==> *final(manager) == *old(manager)
            &&& kind == 0x7003 ==> acceptance_answered(
                *old(manager),
                *final(manager),
                session,
                record.object_id,
                asked.request_id,
                value,
                now_us,
                answer_in(r),
            )
            &&& kind == 0x7005 ==> cancellation_answered(
                *old(manager),
                *final(manager),
                session,
                record.object_id,
                asked.request_id,
                value,
                now_us,
                answer_in(r),
            )
            &&& kind == 0x7007 ==> advance_answered(
                *old(manager),
                *final(manager),
                session,
                record.object_id,
                asked.request_id,
                value,
                now_us,
                answer_in(r),
            )
            &&& kind == 0x7009 ==> query_answered(
                *old(manager),
                *final(manager),
                session,
                record.object_id,
                asked.request_id,
                value,
                now_us,
                answer_in(r),
            )
        }),
{
}

/// A lease that is taken back is gone, and the session that was activated from it is ended.
pub proof fn a_lease_taken_back_ends_its_session(
    registry: &mut Registry,
    manager: &mut FileDropManager,
    cancelled: &mut HashSet<u64>,
    session_id: u64,
    supported: &Vec<String>,
    record: &ControlRecord,
    now_us: u64,
    r: Step,
)
    requires
        call_ensures(
            dispatch_control,
            (registry, manager, cancelled, session_id, supported, record, now_us),
            r,
        ),
    ensures
        r is EndSession ==> record.record_type == 0x0612,
        r is ForgetContexts ==> record.record_type == 0x0602,
        record.record_type == 0x0612 && !(r is Refuse) ==> ({
            let asked = envelope_decoded(record.body@)->0;
            let key = named_lease(old(registry).sessions@[session_id], asked.payload);
            &&& !final(registry).leases@.contains_key(key)
            &&& r matches Step::EndSession(ended, _) ==> old(registry).leases@[key].child == Some(
                ended,
            )
            &&& r is Answer ==> old(registry).leases@[key].child is None
        }),
{
}

/// A session goes on after a refusal that names its request, and ends after one that cannot. An
/// answer goes out under its own number, and nothing goes out where nothing is said.
pub proof fn a_session_goes_on_after_a_refusal(
    egress: &mut Egress,
    record: &ControlRecord,
    outcome: Result<Option<OutgoingRecord>, ControlError>,
    r: bool,
)
    requires
        call_ensures(dispatch_and_reply, (egress, record, outcome), r),
    ensures
        outcome is Err && envelope_decoded(record.body@) is None ==> !r,
        outcome matches Ok(None) ==> r && records_view(final(egress).records@) == records_view(
            old(egress).records@,
        ),
        outcome is Ok && outcome->Ok_0 is Some && !old(egress).closed && old(egress).records@.len()
            < 256 ==> r && records_view(final(egress).records@) == records_view(
            old(egress).records@,
        ).push(record_view(outcome->Ok_0->0)),
        outcome is Err && r ==> ({
            let error = outcome->Err_0;
            let asked = envelope_decoded(record.body@)->0.request_id;
            &&& asked != 0
            &&& records_view(final(egress).records@) == records_view(old(egress).records@).push(
                (
                    0x0004u16,
                    record.object_id,
                    error_bytes(asked, error.code, false, error.message@)->0,
                ),
            )
        }),
{
}

/// A session ends cleanly with a goodbye alone.
pub proof fn only_a_goodbye_ends_a_session_cleanly(record_type: u16, goes_on: bool, r: AfterRecord)
    requires
        call_ensures(after_record, (record_type, goes_on), r),
    ensures
        r == (AfterRecord::End { clean: true }) <==> goes_on && record_type == 0x0007,
        r == (AfterRecord::End { clean: false }) <==> !goes_on,
        r is Continue <==> goes_on && record_type != 0x0007,
{
}

/// Records that make, end or advance a track are traced as its life, those that play it as playback.
pub proof fn records_about_a_track_are_traced(
    record_type: u16,
    r: Option<(&'static str, TraceCategory)>,
)
    requires
        call_ensures(traced_track_control, (record_type,), r),
    ensures
        record_type == 0x0122 ==> r is Some && (r->0).0@ == "create_track"@ && (r->0).1 is Lifecycle,
        record_type == 0x0124 ==> r is Some && (r->0).0@ == "destroy_track"@ && (r->0).1 is Lifecycle,
        record_type == 0x0128 ==> r is Some && (r->0).0@ == "advance_channel"@ && (r->0).1 is Lifecycle,
        record_type == 0x0307 ==> r is Some && (r->0).0@ == "set_audio_gain"@ && (r->0).1 is Playback,
        record_type == 0x0300 ==> r is Some && (r->0).0@ == "play"@ && (r->0).1 is Playback,
        record_type == 0x0301 ==> r is Some && (r->0).0@ == "pause"@ && (r->0).1 is Playback,
        record_type == 0x0303 ==> r is Some && (r->0).0@ == "flush"@ && (r->0).1 is Playback,
        record_type == 0x0304 ==> r is Some && (r->0).0@ == "drain"@ && (r->0).1 is Playback,
        record_type < 0x0122 || record_type > 0x0307 ==> r is None,
{
}

/// Contexts and leases are made and taken back by the record that says so, and subscriptions are set
/// by theirs.
pub proof fn a_record_delegates_what_its_number_says(
    registry: &mut Registry,
    manager: &mut FileDropManager,
    cancelled: &mut HashSet<u64>,
    session_id: u64,
    supported: &Vec<String>,
    record: &ControlRecord,
    now_us: u64,
    r: Step,
)
    requires
        call_ensures(
            dispatch_control,
            (registry, manager, cancelled, session_id, supported, record, now_us),
            r,
        ),
        opened(record.flags, record.body@) is Ok,
    ensures
        ({
            let asked = envelope_decoded(record.body@)->0;
            let session = old(registry).sessions@[session_id];
            let changed = final(registry).sessions@[session_id];
            let value = ValueView::Entries(asked.payload);
            let kind = record.record_type;
            &&& kind == 0x0600 ==> answers(r) && context_answered(
                session,
                changed,
                record.object_id,
                asked.request_id,
                value,
                answer_in(r),
            ) && final(registry).leases == old(registry).leases
            &&& kind == 0x0610 ==> answers(r) && lease_answered(
                *old(registry),
                *final(registry),
                session_id,
                supported@,
                record.object_id,
                asked.request_id,
                value,
                now_us,
                answer_in(r),
            )
            &&& kind == 0x0602 ==> (r is ForgetContexts || r is Refuse)
            &&& kind == 0x000e ==> (r is Refuse ==> unsubscribed(session, changed)) && (!(
            r is Refuse) ==> resubscribed(session, changed, number(asked.payload, 0)))
            &&& kind != 0x0600 && kind != 0x0602 && kind != 0x0610 && kind != 0x0612 && kind
                != 0x000e ==> *final(registry) == *old(registry)
        }),
{
}

} // verus!
