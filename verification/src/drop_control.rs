//! Control records of file drops.

use vstd::prelude::*;
use vivid_protocol::cbor::Value;

use crate::actor::{batch_offered, has_room, offered, record_view, records_view, Egress, OutgoingRecord};
use crate::context::OP_RECEIVE_FILE_DROP;
use crate::control::{
    is_reply, operation_refusal, reply, reply_of, surface_of, ControlError,
};
use crate::drop_manager::{
    binding_set, drop_accepted, drop_cancelled, drop_told, transfer_advanced, FileDropManager,
};
use crate::file_drop::{
    AcceptFileDrop, AdvanceFileTransfer, CancelFileDrop, FileDropAccepted, FileDropBinding,
    FileDropBindingState, FileDropDestination, FileDropGrant, FileDropOffer, FileDropRefusal,
    FileDropState, FileDropStatus, FileDropTuple, FileResultCode, FileTransferAdvanced,
};
use crate::identity::{SessionIdentity, SurfaceIdentity};
use crate::protocol::{
    ERROR_BAD_MESSAGE, ERROR_BAD_STATE, ERROR_NOT_FOUND, ERROR_PRECONDITION_FAILED,
    ERROR_UNSUPPORTED_CONFIG, FILE_DROP, FILE_DROP_ACCEPTED, FILE_DROP_BOUND, FILE_DROP_CANCELLED,
    FILE_DROP_OFFER, FILE_DROP_STATUS, FILE_TRANSFER_ADVANCED,
};
use crate::registry::{announced, one_session_changed, Registry};
use crate::reply::{envelope, envelope_bytes};
use crate::session::{has_profile, Session};
use crate::value::{payload_view, text, unsigned, value_view, ValueView};

verus! {

/// The request to bind that a payload is, where it is valid.
pub uninterp spec fn binding_decoded(object_id: u64, payload: ValueView) -> Option<FileDropBinding>;

/// The acceptance that a payload is, where it is valid.
pub uninterp spec fn acceptance_decoded(object_id: u64, payload: ValueView) -> Option<AcceptFileDrop>;

/// The cancellation that a payload is, where it is valid.
pub uninterp spec fn cancellation_decoded(object_id: u64, payload: ValueView) -> Option<CancelFileDrop>;

/// The wish to continue a transfer that a payload is, where it is valid.
pub uninterp spec fn advance_decoded(object_id: u64, payload: ValueView) -> Option<AdvanceFileTransfer>;

/// The drop that a query names, where it is valid.
pub uninterp spec fn drop_query_decoded(object_id: u64, payload: ValueView) -> Option<u64>;

/// `vivid_protocol::file_drop::FileDropBinding::decode`: the request depends on the object ID and the
/// payload, and is refused where it is not valid.
#[verifier::external_body]
fn decode_binding(object_id: u64, payload: &Value) -> (r: Option<FileDropBinding>)
    ensures
        r == binding_decoded(object_id, value_view(*payload)),
{
    let binding = vivid_protocol::file_drop::FileDropBinding::decode(object_id, payload).ok()?;
    let destination = match binding.destination {
        Some(vivid_protocol::file_drop::FileDropDestination::ShellCwd) => Some(FileDropDestination::ShellCwd),
        Some(vivid_protocol::file_drop::FileDropDestination::DesktopFolder) => Some(FileDropDestination::DesktopFolder),
        None => None,
    };
    Some(FileDropBinding {
        producer_epoch: binding.producer_epoch.get(), context_id: binding.context_id, surface_id: binding.surface_id,
        surface_generation: binding.surface_generation.get(), destination, maximum_file_bytes: binding.maximum_file_bytes,
        maximum_pending_offers: binding.maximum_pending_offers, maximum_active_transfers: binding.maximum_active_transfers,
        maximum_record_body: binding.maximum_record_body, acceptance_timeout_us: binding.acceptance_timeout_us,
        idle_timeout_us: binding.idle_timeout_us,
    })
}

/// `vivid_protocol::file_drop::AcceptFileDrop::decode`: the acceptance depends on the object ID and
/// the payload, and is refused where it is not valid.
#[verifier::external_body]
fn decode_acceptance(object_id: u64, payload: &Value) -> (r: Option<AcceptFileDrop>)
    ensures
        r == acceptance_decoded(object_id, value_view(*payload)),
{
    let accept = vivid_protocol::file_drop::AcceptFileDrop::decode(object_id, payload).ok()?;
    let binding = FileDropTuple {
        producer_epoch: accept.binding.producer_epoch.get(), grant_generation: accept.binding.grant_generation.get(),
        context_id: accept.binding.context_id, surface_id: accept.binding.surface_id,
        surface_generation: accept.binding.surface_generation.get(), drop_id: accept.binding.drop_id,
    };
    Some(AcceptFileDrop {
        binding, transfer_id: accept.transfer_id, transfer_generation: accept.transfer_generation.get(),
        maximum_record_body: accept.maximum_record_body,
        initial_maximum_body_bytes: accept.initial_maximum_body_bytes,
        initial_maximum_records: accept.initial_maximum_records,
    })
}

/// `vivid_protocol::file_drop::CancelFileDrop::decode`: the cancellation depends on the object ID
/// and the payload, and is refused where it is not valid. A valid one has a reason of at most seven.
#[verifier::external_body]
fn decode_cancellation(object_id: u64, payload: &Value) -> (r: Option<CancelFileDrop>)
    ensures
        r == cancellation_decoded(object_id, value_view(*payload)),
        r matches Some(cancellation) ==> cancellation.reason <= 7,
{
    let cancel = vivid_protocol::file_drop::CancelFileDrop::decode("CANCEL_FILE_DROP", object_id, payload).ok()?;
    let binding = FileDropTuple {
        producer_epoch: cancel.binding.producer_epoch.get(), grant_generation: cancel.binding.grant_generation.get(),
        context_id: cancel.binding.context_id, surface_id: cancel.binding.surface_id,
        surface_generation: cancel.binding.surface_generation.get(), drop_id: cancel.binding.drop_id,
    };
    Some(CancelFileDrop { binding, reason: cancel.reason })
}

/// `vivid_protocol::file_drop::AdvanceFileTransfer::decode`: the wish depends on the object ID and
/// the payload, and is refused where it is not valid.
#[verifier::external_body]
fn decode_advance(object_id: u64, payload: &Value) -> (r: Option<AdvanceFileTransfer>)
    ensures
        r == advance_decoded(object_id, value_view(*payload)),
{
    let advance = vivid_protocol::file_drop::AdvanceFileTransfer::decode(object_id, payload).ok()?;
    Some(AdvanceFileTransfer {
        context_id: advance.context_id, surface_id: advance.surface_id, drop_id: advance.drop_id,
        transfer_id: advance.transfer_id, expected_generation: advance.expected_generation.get(),
        new_generation: advance.new_generation.get(), committed_offset: advance.committed_offset,
        maximum_body_bytes: advance.maximum_body_bytes, maximum_records: advance.maximum_records,
    })
}

/// `vivid_protocol::file_drop::QueryFileDrop::decode`: the drop depends on the object ID and the
/// payload, and is refused where it is not valid.
#[verifier::external_body]
fn decode_drop_query(object_id: u64, payload: &Value) -> (r: Option<u64>)
    ensures
        r == drop_query_decoded(object_id, value_view(*payload)),
{
    let query = vivid_protocol::file_drop::QueryFileDrop::decode(object_id, payload).ok()?;
    Some(query.drop_id)
}

impl FileDropDestination {
    /// The number of a destination on the wire.
    pub open spec fn code_spec(self) -> u64 {
        match self {
            FileDropDestination::ShellCwd => 1,
            FileDropDestination::DesktopFolder => 2,
        }
    }
}

/// The number of a destination on the wire, zero where there is none.
pub open spec fn destination_code(destination: Option<FileDropDestination>) -> u64 {
    match destination {
        Some(place) => place.code_spec(),
        None => 0,
    }
}

/// The number of a binding's state on the wire.
pub open spec fn binding_state_code(state: FileDropBindingState) -> u64 {
    match state {
        FileDropBindingState::Disabled => 0,
        FileDropBindingState::Enabled => 1,
        FileDropBindingState::Denied => 2,
    }
}

/// What a producer is told of its binding.
pub open spec fn grant_fields(grant: FileDropGrant) -> Seq<(u64, ValueView)> {
    seq![
        (0u64, ValueView::Unsigned(grant.producer_epoch)),
        (1u64, ValueView::Unsigned(grant.grant_generation)),
        (2u64, ValueView::Unsigned(grant.context_id)),
        (3u64, ValueView::Unsigned(grant.surface_id)),
        (4u64, ValueView::Unsigned(grant.surface_generation)),
        (5u64, ValueView::Unsigned(binding_state_code(grant.state))),
        (6u64, ValueView::Unsigned(destination_code(grant.destination))),
        (7u64, ValueView::Unsigned(grant.maximum_file_bytes)),
        (8u64, ValueView::Unsigned(grant.maximum_pending_offers)),
        (9u64, ValueView::Unsigned(grant.maximum_active_transfers)),
        (10u64, ValueView::Unsigned(grant.maximum_record_body as u64)),
        (11u64, ValueView::Unsigned(grant.acceptance_timeout_us)),
        (12u64, ValueView::Unsigned(grant.idle_timeout_us)),
        (13u64, ValueView::Unsigned(grant.reason)),
    ]
}

fn grant_payload(grant: &FileDropGrant) -> (r: Vec<(u64, Value)>)
    ensures
        payload_view(r@) == grant_fields(*grant),
{
    let state: u64 = match grant.state {
        FileDropBindingState::Disabled => 0,
        FileDropBindingState::Enabled => 1,
        FileDropBindingState::Denied => 2,
    };
    let destination: u64 = match grant.destination {
        Some(FileDropDestination::ShellCwd) => 1,
        Some(FileDropDestination::DesktopFolder) => 2,
        None => 0,
    };
    let payload = vec![
        (0u64, unsigned(grant.producer_epoch)),
        (1u64, unsigned(grant.grant_generation)),
        (2u64, unsigned(grant.context_id)),
        (3u64, unsigned(grant.surface_id)),
        (4u64, unsigned(grant.surface_generation)),
        (5u64, unsigned(state)),
        (6u64, unsigned(destination)),
        (7u64, unsigned(grant.maximum_file_bytes)),
        (8u64, unsigned(grant.maximum_pending_offers)),
        (9u64, unsigned(grant.maximum_active_transfers)),
        (10u64, unsigned(grant.maximum_record_body as u64)),
        (11u64, unsigned(grant.acceptance_timeout_us)),
        (12u64, unsigned(grant.idle_timeout_us)),
        (13u64, unsigned(grant.reason)),
    ];
    assert(payload_view(payload@) =~= grant_fields(*grant));
    payload
}

/// What every record about a drop starts with.
pub open spec fn tuple_fields(tuple: FileDropTuple) -> Seq<(u64, ValueView)> {
    seq![
        (0u64, ValueView::Unsigned(tuple.producer_epoch)),
        (1u64, ValueView::Unsigned(tuple.grant_generation)),
        (2u64, ValueView::Unsigned(tuple.context_id)),
        (3u64, ValueView::Unsigned(tuple.surface_id)),
        (4u64, ValueView::Unsigned(tuple.surface_generation)),
        (5u64, ValueView::Unsigned(tuple.drop_id)),
    ]
}

fn tuple_payload(tuple: &FileDropTuple) -> (r: Vec<(u64, Value)>)
    ensures
        payload_view(r@) == tuple_fields(*tuple),
{
    let payload = vec![
        (0u64, unsigned(tuple.producer_epoch)),
        (1u64, unsigned(tuple.grant_generation)),
        (2u64, unsigned(tuple.context_id)),
        (3u64, unsigned(tuple.surface_id)),
        (4u64, unsigned(tuple.surface_generation)),
        (5u64, unsigned(tuple.drop_id)),
    ];
    assert(payload_view(payload@) =~= tuple_fields(*tuple));
    payload
}

/// What a producer is told of a drop that was cancelled.
pub open spec fn cancellation_fields(cancellation: CancelFileDrop) -> Seq<(u64, ValueView)> {
    tuple_fields(cancellation.binding).push((6u64, ValueView::Unsigned(cancellation.reason)))
}

fn cancellation_payload(cancellation: &CancelFileDrop) -> (r: Vec<(u64, Value)>)
    ensures
        payload_view(r@) == cancellation_fields(*cancellation),
{
    let mut payload = tuple_payload(&cancellation.binding);
    let ghost tuple = payload@;
    payload.push((6u64, unsigned(cancellation.reason)));
    assert(payload_view(payload@) =~= payload_view(tuple).push(
        (6u64, ValueView::Unsigned(cancellation.reason)),
    ));
    payload
}

/// What a producer is told of a drop that it accepted.
pub open spec fn accepted_fields(accepted: FileDropAccepted) -> Seq<(u64, ValueView)> {
    seq![
        (0u64, ValueView::Unsigned(accepted.drop_id)),
        (1u64, ValueView::Unsigned(accepted.transfer_id)),
        (2u64, ValueView::Unsigned(accepted.transfer_generation)),
        (3u64, ValueView::Unsigned(accepted.open_timeout_us)),
    ]
}

/// What a producer is told of a transfer that it continues, where it is valid.
pub uninterp spec fn advanced_encoded(advanced: FileTransferAdvanced) -> Option<Seq<(u64, ValueView)>>;

/// `vivid_protocol::file_drop::FileTransferAdvanced::payload`: the payload depends on the fields,
/// and is refused where they are not valid.
#[verifier::external_body]
fn advanced_payload(advanced: &FileTransferAdvanced) -> (r: Option<Vec<(u64, Value)>>)
    ensures
        match r {
            Some(payload) => advanced_encoded(*advanced) == Some(payload_view(payload@)),
            None => advanced_encoded(*advanced) is None,
        },
{
    let advanced = vivid_protocol::file_drop::FileTransferAdvanced {
        transfer_id: advanced.transfer_id,
        generation: vivid_protocol::revision::FileTransferGeneration::new(advanced.generation),
        committed_offset: advanced.committed_offset,
        open_timeout_us: advanced.open_timeout_us,
    };
    advanced.payload().ok()
}

/// The number of a drop's state on the wire.
pub open spec fn state_code(state: FileDropState) -> u64 {
    match state {
        FileDropState::Offered => 1,
        FileDropState::Accepted => 2,
        FileDropState::Transferring => 3,
        FileDropState::Committed => 4,
        FileDropState::Cancelled => 5,
        FileDropState::Failed => 6,
    }
}

/// The number of a result on the wire.
pub open spec fn result_code(result: FileResultCode) -> u64 {
    match result {
        FileResultCode::Committed => 0,
        FileResultCode::Rejected => 1,
        FileResultCode::Cancelled => 2,
        FileResultCode::HashMismatch => 3,
        FileResultCode::IoError => 4,
        FileResultCode::AlreadyCommitted => 5,
    }
}

/// What a status holds, its state and its result by their numbers.
pub struct StatusView {
    pub drop_id: u64,
    pub state: u64,
    pub transfer_id: u64,
    pub generation: u64,
    pub committed_offset: u64,
    pub result: Option<u64>,
    pub final_name: Seq<char>,
}

/// What a status holds.
pub open spec fn status_view(status: FileDropStatus) -> StatusView {
    StatusView {
        drop_id: status.drop_id,
        state: state_code(status.state),
        transfer_id: status.transfer_id,
        generation: status.generation,
        committed_offset: status.committed_offset,
        result: match status.result {
            Some(result) => Some(result_code(result)),
            None => None,
        },
        final_name: status.final_name@,
    }
}

/// What a producer is told of a drop, where it is valid.
pub uninterp spec fn status_encoded(status: StatusView) -> Option<Seq<(u64, ValueView)>>;

/// `vivid_protocol::file_drop::FileDropStatus::payload`: the payload depends on the fields, and is
/// refused where they are not valid.
#[verifier::external_body]
fn encode_status(
    drop_id: u64,
    state: u64,
    transfer_id: u64,
    generation: u64,
    committed_offset: u64,
    result: Option<u64>,
    final_name: &str,
) -> (r: Option<Vec<(u64, Value)>>)
    ensures
        ({
            let status = StatusView {
                drop_id,
                state,
                transfer_id,
                generation,
                committed_offset,
                result,
                final_name: final_name@,
            };
            match r {
                Some(payload) => status_encoded(status) == Some(payload_view(payload@)),
                None => status_encoded(status) is None,
            }
        }),
{
    let state = vivid_protocol::file_drop::FileDropState::try_from(state).ok()?;
    let generation = vivid_protocol::revision::FileTransferGeneration::new(generation);
    let result = match result {
        Some(code) => Some(vivid_protocol::file_drop::FileResultCode::try_from(code).ok()?),
        None => None,
    };
    let final_name = final_name.to_owned();
    vivid_protocol::file_drop::FileDropStatus { drop_id, state, transfer_id, generation, committed_offset, result, final_name }.payload().ok()
}

fn status_payload(status: &FileDropStatus) -> (r: Option<Vec<(u64, Value)>>)
    ensures
        match r {
            Some(payload) => status_encoded(status_view(*status)) == Some(payload_view(payload@)),
            None => status_encoded(status_view(*status)) is None,
        },
{
    let state: u64 = match status.state {
        FileDropState::Offered => 1,
        FileDropState::Accepted => 2,
        FileDropState::Transferring => 3,
        FileDropState::Committed => 4,
        FileDropState::Cancelled => 5,
        FileDropState::Failed => 6,
    };
    let result: Option<u64> = match status.result {
        Some(FileResultCode::Committed) => Some(0),
        Some(FileResultCode::Rejected) => Some(1),
        Some(FileResultCode::Cancelled) => Some(2),
        Some(FileResultCode::HashMismatch) => Some(3),
        Some(FileResultCode::IoError) => Some(4),
        Some(FileResultCode::AlreadyCommitted) => Some(5),
        None => None,
    };
    encode_status(
        status.drop_id,
        state,
        status.transfer_id,
        status.generation,
        status.committed_offset,
        result,
        status.final_name.as_str(),
    )
}

/// Whether a name may be suggested for a dropped file.
pub uninterp spec fn suggestible(name: Seq<char>) -> bool;

/// `vivid_protocol::file_drop::validate_suggested_name`: whether a name is valid depends on the name
/// alone.
#[verifier::external_body]
fn validate_name(name: &str) -> (r: bool)
    ensures
        r == suggestible(name@),
{
    vivid_protocol::file_drop::validate_suggested_name(name).is_ok()
}

/// The name of a dropped file that has none to suggest.
pub const UNNAMED_FILE: &'static str = "dropped-file";

/// The name that is suggested for a dropped file: its own, where it may be.
pub fn suggest_name(name: Option<&str>) -> (r: String)
    ensures
        r@ == (match name {
            Some(own) if suggestible(own@) => own@,
            _ => UNNAMED_FILE@,
        }),
{
    match name {
        Some(own) => if validate_name(own) {
            own.to_string()
        } else {
            UNNAMED_FILE.to_string()
        },
        None => UNNAMED_FILE.to_string(),
    }
}

/// What a producer is told of a drop that it is offered.
pub open spec fn offer_fields(offer: FileDropOffer) -> Seq<(u64, ValueView)> {
    tuple_fields(offer.binding).push((6u64, ValueView::Text(offer.suggested_name@))).push(
        (7u64, ValueView::Unsigned(offer.declared_length)),
    )
}

/// The record that offers a drop, where its name is valid.
pub open spec fn offer_record(offer: FileDropOffer) -> Option<(u16, u64, Seq<u8>)> {
    if !suggestible(offer.suggested_name@) {
        None
    } else {
        match envelope_bytes(0, offer_fields(offer)) {
            Some(body) => Some((FILE_DROP_OFFER, offer.binding.drop_id, body)),
            None => None,
        }
    }
}

/// The record that offers a drop, or why there is none.
pub fn offer_drop(offer: &FileDropOffer) -> (r: Result<OutgoingRecord, &'static str>)
    ensures
        match r {
            Ok(record) => offer_record(*offer) == Some(record_view(record)),
            Err(message) => offer_record(*offer) is None && message == (if !suggestible(
                offer.suggested_name@,
            ) {
                "The dropped filename is invalid"
            } else {
                "The file-drop offer could not be encoded"
            }),
        },
{
    if !validate_name(offer.suggested_name.as_str()) {
        return Err("The dropped filename is invalid");
    }
    let mut payload = tuple_payload(&offer.binding);
    let ghost tuple = payload@;
    payload.push((6u64, text(offer.suggested_name.as_str())));
    payload.push((7u64, unsigned(offer.declared_length)));
    assert(payload_view(payload@) =~= offer_fields(*offer)) by {
        assert(payload_view(payload@) =~= payload_view(tuple).push(
            (6u64, ValueView::Text(offer.suggested_name@)),
        ).push((7u64, ValueView::Unsigned(offer.declared_length))));
    }
    match envelope(0, payload) {
        Ok(body) => Ok((FILE_DROP_OFFER, offer.binding.drop_id, body)),
        Err(_) => Err("The file-drop offer could not be encoded"),
    }
}

/// The refusal of a producer whose session did not negotiate file drops.
pub open spec fn drops_unsupported() -> ControlError {
    ControlError::coded(ERROR_UNSUPPORTED_CONFIG, "file-drop-v1 was not negotiated")
}

/// A request to bind that is well formed and within the session's authority, with the surface whose
/// generation it names.
pub open spec fn binding_request(session: Session, object_id: u64, payload: ValueView) -> Result<
    (FileDropBinding, Option<SurfaceIdentity>),
    ControlError,
> {
    if !has_profile(session.accepted_profiles@, FILE_DROP@) {
        Err(drops_unsupported())
    } else {
        match binding_decoded(object_id, payload) {
            None => Err(ControlError::coded(ERROR_BAD_MESSAGE, "invalid file-drop binding")),
            Some(binding) => match operation_refusal(
                session,
                binding.context_id,
                OP_RECEIVE_FILE_DROP,
            ) {
                Some(error) => Err(error),
                None => if binding.destination is Some && binding.surface_id != 0 {
                    match surface_of(session, binding.context_id, binding.surface_id) {
                        Ok(surface) => Ok((binding, Some(surface))),
                        Err(error) => Err(error),
                    }
                } else {
                    Ok((binding, None))
                },
            },
        }
    }
}

/// Read a request to bind.
pub fn read_binding(session: &Session, object_id: u64, value: &Value) -> (r: Result<
    (FileDropBinding, Option<SurfaceIdentity>),
    ControlError,
>)
    requires
        session.wf(),
    ensures
        r == binding_request(*session, object_id, value_view(*value)),
{
    if !session.supports(FILE_DROP) {
        return Err(ControlError::unsupported("file-drop-v1 was not negotiated"));
    }
    let binding = match decode_binding(object_id, value) {
        Some(binding) => binding,
        None => {
            return Err(ControlError::bad_message("invalid file-drop binding"));
        },
    };
    if let Err(error) = session.require_context_operation(binding.context_id, OP_RECEIVE_FILE_DROP) {
        return Err(error);
    }
    if binding.destination.is_some() && binding.surface_id != 0 {
        match session.surface_identity(binding.context_id, binding.surface_id) {
            Ok(surface) => Ok((binding, Some(surface))),
            Err(error) => Err(error),
        }
    } else {
        Ok((binding, None))
    }
}

/// Why a surface does not take a binding, if it does not. The scene tells the generation of the
/// surface, where it is there.
pub open spec fn surface_refusal(
    binding: FileDropBinding,
    surface: Option<SurfaceIdentity>,
    generation: Option<u64>,
) -> Option<ControlError> {
    match surface {
        Some(_) => match generation {
            None => Some(ControlError::coded(ERROR_NOT_FOUND, "file-drop surface is absent")),
            Some(current) => if current != binding.surface_generation {
                Some(
                    ControlError::coded(
                        ERROR_PRECONDITION_FAILED,
                        "file-drop surface generation is stale",
                    ),
                )
            } else {
                None
            },
        },
        None => None,
    }
}

/// What becomes of a request to bind.
pub open spec fn binding_answered(
    before: FileDropManager,
    after: FileDropManager,
    session: Session,
    binding: FileDropBinding,
    surface: Option<SurfaceIdentity>,
    generation: Option<u64>,
    object_id: u64,
    request_id: u64,
    answer: Result<OutgoingRecord, ControlError>,
) -> bool {
    match surface_refusal(binding, surface, generation) {
        Some(error) => after == before && answer == Err::<OutgoingRecord, ControlError>(error),
        None => exists|outcome: Result<FileDropGrant, FileDropRefusal>| #[trigger]
            binding_set(before, after, session.identity, binding, true, outcome) && match outcome {
                Ok(grant) => is_reply(
                    answer,
                    reply_of(FILE_DROP_BOUND, object_id, request_id, grant_fields(grant)),
                ),
                Err(refusal) => refused_with(answer, ERROR_BAD_STATE, refusal),
            },
    }
}

/// Whether an answer tells why the manager refused.
pub open spec fn refused_with(
    answer: Result<OutgoingRecord, ControlError>,
    code: u64,
    refusal: FileDropRefusal,
) -> bool {
    answer matches Err(error) && error.code == code && error.message@ == refusal.message_spec()
        && error.track is None && error.trace_rejection
}

/// Answer a request to bind, given the generation of the surface that it names.
pub fn bind_drops(
    manager: &mut FileDropManager,
    session: &Session,
    binding: FileDropBinding,
    surface: Option<SurfaceIdentity>,
    generation: Option<u64>,
    object_id: u64,
    request_id: u64,
) -> (r: Result<OutgoingRecord, ControlError>)
    requires
        old(manager).wf(),
    ensures
        final(manager).wf(),
        binding_answered(
            *old(manager),
            *final(manager),
            *session,
            binding,
            surface,
            generation,
            object_id,
            request_id,
            r,
        ),
{
    if surface.is_some() {
        match generation {
            None => {
                return Err(ControlError::not_found("file-drop surface is absent"));
            },
            Some(current) => if current != binding.surface_generation {
                return Err(ControlError::precondition("file-drop surface generation is stale"));
            },
        }
    }
    match manager.set_binding(session.identity, binding, true) {
        Ok(grant) => reply(FILE_DROP_BOUND, object_id, request_id, grant_payload(&grant)),
        Err(refusal) => Err(ControlError::state(refusal.message())),
    }
}

/// What becomes of an acceptance.
pub open spec fn acceptance_answered(
    before: FileDropManager,
    after: FileDropManager,
    session: Session,
    object_id: u64,
    request_id: u64,
    payload: ValueView,
    now_us: u64,
    answer: Result<OutgoingRecord, ControlError>,
) -> bool {
    if !has_profile(session.accepted_profiles@, FILE_DROP@) {
        after == before && answer == Err::<OutgoingRecord, ControlError>(drops_unsupported())
    } else {
        match acceptance_decoded(object_id, payload) {
            None => after == before && answer == Err::<OutgoingRecord, ControlError>(
                ControlError::coded(ERROR_BAD_MESSAGE, "invalid file-drop acceptance"),
            ),
            Some(acceptance) => match operation_refusal(
                session,
                acceptance.binding.context_id,
                OP_RECEIVE_FILE_DROP,
            ) {
                Some(error) => after == before && answer == Err::<OutgoingRecord, ControlError>(error),
                None => exists|outcome: Result<FileDropAccepted, FileDropRefusal>| #[trigger]
                    drop_accepted(before, after, session.identity, acceptance, now_us, outcome)
                        && match outcome {
                        Ok(accepted) => is_reply(
                            answer,
                            reply_of(
                                FILE_DROP_ACCEPTED,
                                object_id,
                                request_id,
                                accepted_fields(accepted),
                            ),
                        ),
                        Err(refusal) => refused_with(answer, ERROR_BAD_STATE, refusal),
                    },
            },
        }
    }
}

/// Answer an acceptance.
pub fn accept_drop(
    manager: &mut FileDropManager,
    session: &Session,
    object_id: u64,
    request_id: u64,
    value: &Value,
    now_us: u64,
) -> (r: Result<OutgoingRecord, ControlError>)
    requires
        old(manager).wf(),
        session.wf(),
    ensures
        final(manager).wf(),
        acceptance_answered(
            *old(manager),
            *final(manager),
            *session,
            object_id,
            request_id,
            value_view(*value),
            now_us,
            r,
        ),
{
    if !session.supports(FILE_DROP) {
        return Err(ControlError::unsupported("file-drop-v1 was not negotiated"));
    }
    let acceptance = match decode_acceptance(object_id, value) {
        Some(acceptance) => acceptance,
        None => {
            return Err(ControlError::bad_message("invalid file-drop acceptance"));
        },
    };
    if let Err(error) = session.require_context_operation(
        acceptance.binding.context_id,
        OP_RECEIVE_FILE_DROP,
    ) {
        return Err(error);
    }
    match manager.accept(session.identity, acceptance, now_us) {
        Ok(accepted) => {
            let payload = vec![
                (0u64, unsigned(accepted.drop_id)),
                (1u64, unsigned(accepted.transfer_id)),
                (2u64, unsigned(accepted.transfer_generation)),
                (3u64, unsigned(accepted.open_timeout_us)),
            ];
            assert(payload_view(payload@) =~= accepted_fields(accepted));
            reply(FILE_DROP_ACCEPTED, object_id, request_id, payload)
        },
        Err(refusal) => Err(ControlError::state(refusal.message())),
    }
}

/// What becomes of a cancellation.
pub open spec fn cancellation_answered(
    before: FileDropManager,
    after: FileDropManager,
    session: Session,
    object_id: u64,
    request_id: u64,
    payload: ValueView,
    now_us: u64,
    answer: Result<OutgoingRecord, ControlError>,
) -> bool {
    match cancellation_decoded(object_id, payload) {
        None => after == before && answer == Err::<OutgoingRecord, ControlError>(
            ControlError::coded(ERROR_BAD_MESSAGE, "invalid file-drop cancellation"),
        ),
        Some(cancellation) => match operation_refusal(
            session,
            cancellation.binding.context_id,
            OP_RECEIVE_FILE_DROP,
        ) {
            Some(error) => after == before && answer == Err::<OutgoingRecord, ControlError>(error),
            None => exists|outcome: Result<(), FileDropRefusal>| #[trigger]
                drop_cancelled(before, after, session.identity, cancellation, now_us, outcome)
                    && match outcome {
                    Ok(_) => is_reply(
                        answer,
                        reply_of(
                            FILE_DROP_CANCELLED,
                            object_id,
                            request_id,
                            cancellation_fields(cancellation),
                        ),
                    ),
                    Err(refusal) => refused_with(answer, ERROR_BAD_STATE, refusal),
                },
        },
    }
}

/// Answer a cancellation.
pub fn cancel_drop(
    manager: &mut FileDropManager,
    session: &Session,
    object_id: u64,
    request_id: u64,
    value: &Value,
    now_us: u64,
) -> (r: Result<OutgoingRecord, ControlError>)
    requires
        old(manager).wf(),
        session.wf(),
    ensures
        final(manager).wf(),
        cancellation_answered(
            *old(manager),
            *final(manager),
            *session,
            object_id,
            request_id,
            value_view(*value),
            now_us,
            r,
        ),
{
    let cancellation = match decode_cancellation(object_id, value) {
        Some(cancellation) => cancellation,
        None => {
            return Err(ControlError::bad_message("invalid file-drop cancellation"));
        },
    };
    if let Err(error) = session.require_context_operation(
        cancellation.binding.context_id,
        OP_RECEIVE_FILE_DROP,
    ) {
        return Err(error);
    }
    match manager.cancel(session.identity, cancellation, now_us) {
        Ok(_) => reply(
            FILE_DROP_CANCELLED,
            object_id,
            request_id,
            cancellation_payload(&cancellation),
        ),
        Err(refusal) => Err(ControlError::state(refusal.message())),
    }
}

/// What becomes of a wish to continue a transfer.
pub open spec fn advance_answered(
    before: FileDropManager,
    after: FileDropManager,
    session: Session,
    object_id: u64,
    request_id: u64,
    payload: ValueView,
    now_us: u64,
    answer: Result<OutgoingRecord, ControlError>,
) -> bool {
    match advance_decoded(object_id, payload) {
        None => after == before && answer == Err::<OutgoingRecord, ControlError>(
            ControlError::coded(ERROR_BAD_MESSAGE, "invalid file-transfer advance"),
        ),
        Some(advance) => match operation_refusal(
            session,
            advance.context_id,
            OP_RECEIVE_FILE_DROP,
        ) {
            Some(error) => after == before && answer == Err::<OutgoingRecord, ControlError>(error),
            None => exists|outcome: Result<FileTransferAdvanced, FileDropRefusal>| #[trigger]
                transfer_advanced(before, after, session.identity, advance, now_us, outcome)
                    && match outcome {
                    Ok(advanced) => match advanced_encoded(advanced) {
                        Some(fields) => is_reply(
                            answer,
                            reply_of(FILE_TRANSFER_ADVANCED, object_id, request_id, fields),
                        ),
                        None => answer == Err::<OutgoingRecord, ControlError>(
                            ControlError::coded(
                                ERROR_BAD_MESSAGE,
                                "invalid file-transfer advance reply",
                            ),
                        ),
                    },
                    Err(refusal) => refused_with(answer, ERROR_BAD_STATE, refusal),
                },
        },
    }
}

/// Answer a wish to continue a transfer.
pub fn advance_transfer(
    manager: &mut FileDropManager,
    session: &Session,
    object_id: u64,
    request_id: u64,
    value: &Value,
    now_us: u64,
) -> (r: Result<OutgoingRecord, ControlError>)
    requires
        old(manager).wf(),
        session.wf(),
    ensures
        final(manager).wf(),
        advance_answered(
            *old(manager),
            *final(manager),
            *session,
            object_id,
            request_id,
            value_view(*value),
            now_us,
            r,
        ),
{
    let advance = match decode_advance(object_id, value) {
        Some(advance) => advance,
        None => {
            return Err(ControlError::bad_message("invalid file-transfer advance"));
        },
    };
    if let Err(error) = session.require_context_operation(advance.context_id, OP_RECEIVE_FILE_DROP) {
        return Err(error);
    }
    match manager.advance(session.identity, advance, now_us) {
        Ok(advanced) => match advanced_payload(&advanced) {
            Some(payload) => reply(FILE_TRANSFER_ADVANCED, object_id, request_id, payload),
            None => Err(ControlError::bad_message("invalid file-transfer advance reply")),
        },
        Err(refusal) => Err(ControlError::state(refusal.message())),
    }
}

/// What becomes of a query.
pub open spec fn query_answered(
    before: FileDropManager,
    after: FileDropManager,
    session: Session,
    object_id: u64,
    request_id: u64,
    payload: ValueView,
    now_us: u64,
    answer: Result<OutgoingRecord, ControlError>,
) -> bool {
    match drop_query_decoded(object_id, payload) {
        None => after == before && answer == Err::<OutgoingRecord, ControlError>(
            ControlError::coded(ERROR_BAD_MESSAGE, "invalid file-drop query"),
        ),
        Some(drop_id) => exists|outcome: Result<FileDropStatus, FileDropRefusal>| #[trigger]
            drop_told(before, after, session.identity, drop_id, now_us, outcome) && match outcome {
                Ok(status) => match status_encoded(status_view(status)) {
                    Some(fields) => is_reply(
                        answer,
                        reply_of(FILE_DROP_STATUS, object_id, request_id, fields),
                    ),
                    None => answer == Err::<OutgoingRecord, ControlError>(
                        ControlError::coded(ERROR_BAD_MESSAGE, "invalid file-drop status reply"),
                    ),
                },
                Err(refusal) => refused_with(answer, ERROR_NOT_FOUND, refusal),
            },
    }
}

/// Answer a query.
pub fn query_drop(
    manager: &mut FileDropManager,
    session: &Session,
    object_id: u64,
    request_id: u64,
    value: &Value,
    now_us: u64,
) -> (r: Result<OutgoingRecord, ControlError>)
    requires
        old(manager).wf(),
    ensures
        final(manager).wf(),
        query_answered(
            *old(manager),
            *final(manager),
            *session,
            object_id,
            request_id,
            value_view(*value),
            now_us,
            r,
        ),
{
    let drop_id = match decode_drop_query(object_id, value) {
        Some(drop_id) => drop_id,
        None => {
            return Err(ControlError::bad_message("invalid file-drop query"));
        },
    };
    match manager.status(session.identity, drop_id, now_us) {
        Ok(status) => match status_payload(&status) {
            Some(payload) => reply(FILE_DROP_STATUS, object_id, request_id, payload),
            None => Err(ControlError::bad_message("invalid file-drop status reply")),
        },
        Err(refusal) => Err(ControlError::not_found(refusal.message())),
    }
}

/// The records that tell a producer of the drops that ran out.
pub open spec fn cancellation_records(cancellations: Seq<CancelFileDrop>) -> Seq<(u16, u64, Seq<u8>)>
    decreases cancellations.len(),
{
    if cancellations.len() == 0 {
        seq![]
    } else {
        let earlier = cancellation_records(cancellations.drop_last());
        let last = cancellations.last();
        match envelope_bytes(0, cancellation_fields(last)) {
            Some(body) => if last.reason <= 7 {
                earlier.push((FILE_DROP_CANCELLED, last.binding.drop_id, body))
            } else {
                earlier
            },
            None => earlier,
        }
    }
}

/// Queue the records that tell a producer of the drops that ran out, until one is not taken.
pub fn queue_cancellations(egress: &mut Egress, cancellations: &Vec<CancelFileDrop>)
    requires
        old(egress).wf(),
    ensures
        batch_offered(*old(egress), *final(egress), cancellation_records(cancellations@)),
{
    let ghost before = records_view(egress.records@);
    let ghost closed = egress.closed;
    let mut index: usize = 0;
    let mut open = true;
    proof {
        assert(cancellations@.take(0) =~= Seq::<CancelFileDrop>::empty());
        assert(before + cancellation_records(cancellations@.take(0)) =~= before);
        assert(egress.records@.len() == before.len());
    }
    while index < cancellations.len() && open
        invariant
            egress.wf(),
            before == records_view(old(egress).records@),
            closed == old(egress).closed,
            index <= cancellations@.len(),
            before.len() <= crate::actor::EGRESS_CAPACITY,
            open ==> *egress == (Egress { records: egress.records, ..*old(egress) }) && (if closed {
                cancellation_records(cancellations@.take(index as int)).len() == 0
                    && records_view(egress.records@) == before
            } else {
                records_view(egress.records@) == before + cancellation_records(
                    cancellations@.take(index as int),
                )
            }),
            !open ==> batch_offered(*old(egress), *egress, cancellation_records(cancellations@)),
        decreases cancellations@.len() - index,
    {
        let cancellation = cancellations[index];
        let ghost now = records_view(egress.records@);
        let ghost sent = cancellation_records(cancellations@.take(index as int));
        proof {
            assert(cancellations@.take(index + 1).drop_last() =~= cancellations@.take(
                index as int,
            ));
            lemma_records_prefix(cancellations@, index + 1);
        }
        if cancellation.reason <= 7 {
            if let Ok(body) = envelope(0, cancellation_payload(&cancellation)) {
                let ghost record = (FILE_DROP_CANCELLED, cancellation.binding.drop_id, body@);
                let ghost queued = egress.records@;
                open = egress.send(FILE_DROP_CANCELLED, cancellation.binding.drop_id, body);
                proof {
                    let all = cancellation_records(cancellations@);
                    let longer = cancellation_records(cancellations@.take(index + 1));
                    assert(longer == sent.push(record));
                    if open {
                        assert(records_view(egress.records@) =~= now.push(record));
                        assert(before + longer =~= now.push(record));
                    } else {
                        assert(queued.len() == now.len());
                        if closed {
                            assert(records_view(egress.records@) =~= offered(before, closed, all));
                        } else {
                            assert(all.len() >= longer.len());
                            assert(all.take(longer.len() as int) =~= longer);
                            assert(all.take(sent.len() as int) =~= sent);
                            assert(before.len() + sent.len() == crate::actor::EGRESS_CAPACITY);
                            assert(records_view(egress.records@) =~= offered(before, closed, all));
                        }
                    }
                }
            }
        }
        index = index + 1;
    }
    proof {
        if open {
            assert(cancellations@.take(index as int) =~= cancellations@);
            let all = cancellation_records(cancellations@);
            assert(records_view(egress.records@) =~= offered(before, closed, all));
        }
    }
}

proof fn lemma_records_prefix(cancellations: Seq<CancelFileDrop>, count: int)
    requires
        0 <= count <= cancellations.len(),
    ensures
        cancellation_records(cancellations.take(count)).len() <= cancellation_records(
            cancellations,
        ).len(),
        cancellation_records(cancellations).take(
            cancellation_records(cancellations.take(count)).len() as int,
        ) == cancellation_records(cancellations.take(count)),
    decreases cancellations.len(),
{
    if count == cancellations.len() {
        assert(cancellations.take(count) =~= cancellations);
        let all = cancellation_records(cancellations);
        assert(all.take(all.len() as int) =~= all);
    } else {
        let shorter = cancellations.drop_last();
        assert(shorter.take(count) =~= cancellations.take(count));
        lemma_records_prefix(shorter, count);
        let part = cancellation_records(cancellations.take(count));
        let all = cancellation_records(cancellations);
        assert(all.take(part.len() as int) =~= part) by {
            assert(cancellation_records(shorter).take(part.len() as int) == part);
            assert(forall|i: int| 0 <= i < cancellation_records(shorter).len() ==> all[i]
                == cancellation_records(shorter)[i]);
            assert(forall|i: int| 0 <= i < part.len() ==> part[i] == cancellation_records(
                shorter,
            ).take(part.len() as int)[i]);
        }
    }
}

/// Whether the offer of a drop was sent to its session, and what becomes of the drop.
pub open spec fn offer_delivered(
    before: Registry,
    after: Registry,
    owner: SessionIdentity,
    offer: FileDropOffer,
    outcome: Result<(), &'static str>,
) -> bool {
    if !before.sessions@.contains_key(owner.session_id) {
        after == before && outcome == Err::<(), &'static str>("The remote receiver disconnected")
    } else {
        match offer_record(offer) {
            None => after == before && outcome == Err::<(), &'static str>(
                if !suggestible(offer.suggested_name@) {
                    "The dropped filename is invalid"
                } else {
                    "The file-drop offer could not be encoded"
                },
            ),
            Some(record) => {
                let id = owner.session_id;
                &&& after == (Registry { sessions: after.sessions, ..before })
                &&& one_session_changed(before.sessions@, after.sessions@, id)
                &&& announced(before.sessions@[id], after.sessions@[id], record)
                &&& outcome == (if has_room(before.sessions@[id].egress) {
                    Ok::<(), &'static str>(())
                } else {
                    Err("The remote receiver stopped responding")
                })
            },
        }
    }
}

/// Send the offer of a drop to the session that it is for, or say why that failed.
pub fn deliver_offer(registry: &mut Registry, owner: SessionIdentity, offer: &FileDropOffer) -> (r: Result<
    (),
    &'static str,
>)
    requires
        old(registry).wf(),
    ensures
        final(registry).wf(),
        offer_delivered(*old(registry), *final(registry), owner, *offer, r),
{
    if !registry.sessions.contains(&owner.session_id) {
        return Err("The remote receiver disconnected");
    }
    let record = match offer_drop(offer) {
        Ok(record) => record,
        Err(message) => {
            return Err(message);
        },
    };
    let ghost before = registry.sessions@;
    let taken = match registry.sessions.get_mut(&owner.session_id) {
        Some(session) => session.post_control(record.0, record.1, record.2),
        None => false,
    };
    assert(registry.sessions@.dom() =~= before.dom());
    if taken {
        Ok(())
    } else {
        Err("The remote receiver stopped responding")
    }
}

/// Everything about a drop goes by the numbers of the protocol.
pub proof fn drops_go_by_their_numbers(
    destination: Option<FileDropDestination>,
    binding_state: FileDropBindingState,
    state: FileDropState,
    result: FileResultCode,
)
    ensures
        destination is None <==> destination_code(destination) == 0,
        destination == Some(FileDropDestination::ShellCwd) <==> destination_code(destination) == 1,
        destination == Some(FileDropDestination::DesktopFolder) <==> destination_code(destination)
            == 2,
        binding_state is Disabled <==> binding_state_code(binding_state) == 0,
        binding_state is Enabled <==> binding_state_code(binding_state) == 1,
        binding_state is Denied <==> binding_state_code(binding_state) == 2,
        state is Offered <==> state_code(state) == 1,
        state is Accepted <==> state_code(state) == 2,
        state is Transferring <==> state_code(state) == 3,
        state is Committed <==> state_code(state) == 4,
        state is Cancelled <==> state_code(state) == 5,
        state is Failed <==> state_code(state) == 6,
        result is Committed <==> result_code(result) == 0,
        result is Rejected <==> result_code(result) == 1,
        result is Cancelled <==> result_code(result) == 2,
        result is HashMismatch <==> result_code(result) == 3,
        result is IoError <==> result_code(result) == 4,
        result is AlreadyCommitted <==> result_code(result) == 5,
{
}

/// A grant is told with everything it grants, each under its own number.
pub proof fn a_grant_is_told_in_its_place(grant: FileDropGrant)
    ensures
        ({
            let fields = grant_fields(grant);
            &&& fields.len() == 14
            &&& forall|i: int| 0 <= i < 14 ==> (#[trigger] fields[i]).0 == i
            &&& fields[0].1 == ValueView::Unsigned(grant.producer_epoch)
            &&& fields[1].1 == ValueView::Unsigned(grant.grant_generation)
            &&& fields[2].1 == ValueView::Unsigned(grant.context_id)
            &&& fields[3].1 == ValueView::Unsigned(grant.surface_id)
            &&& fields[4].1 == ValueView::Unsigned(grant.surface_generation)
            &&& fields[5].1 == ValueView::Unsigned(binding_state_code(grant.state))
            &&& fields[6].1 == ValueView::Unsigned(destination_code(grant.destination))
            &&& fields[7].1 == ValueView::Unsigned(grant.maximum_file_bytes)
            &&& fields[8].1 == ValueView::Unsigned(grant.maximum_pending_offers)
            &&& fields[9].1 == ValueView::Unsigned(grant.maximum_active_transfers)
            &&& fields[10].1 == ValueView::Unsigned(grant.maximum_record_body as u64)
            &&& fields[11].1 == ValueView::Unsigned(grant.acceptance_timeout_us)
            &&& fields[12].1 == ValueView::Unsigned(grant.idle_timeout_us)
            &&& fields[13].1 == ValueView::Unsigned(grant.reason)
        }),
{
}

/// An offer and a cancellation name the drop in full, in the same places, and behind it what the
/// file is called and how long it is, or why the drop is cancelled; an acceptance names the drop and
/// its transfer.
pub proof fn a_drop_is_named_in_full(
    offer: FileDropOffer,
    cancellation: CancelFileDrop,
    accepted: FileDropAccepted,
)
    ensures
        ({
            let offered = offer_fields(offer);
            let cancelled = cancellation_fields(cancellation);
            let taken = accepted_fields(accepted);
            &&& offered.len() == 8 && cancelled.len() == 7 && taken.len() == 4
            &&& offered[0] == (0u64, ValueView::Unsigned(offer.binding.producer_epoch))
            &&& offered[1] == (1u64, ValueView::Unsigned(offer.binding.grant_generation))
            &&& offered[2] == (2u64, ValueView::Unsigned(offer.binding.context_id))
            &&& offered[3] == (3u64, ValueView::Unsigned(offer.binding.surface_id))
            &&& offered[4] == (4u64, ValueView::Unsigned(offer.binding.surface_generation))
            &&& offered[5] == (5u64, ValueView::Unsigned(offer.binding.drop_id))
            &&& offered[6] == (6u64, ValueView::Text(offer.suggested_name@))
            &&& offered[7] == (7u64, ValueView::Unsigned(offer.declared_length))
            &&& cancelled[5] == (5u64, ValueView::Unsigned(cancellation.binding.drop_id))
            &&& cancelled[6] == (6u64, ValueView::Unsigned(cancellation.reason))
            &&& cancellation.binding == offer.binding ==> cancelled.take(6) == offered.take(6)
            &&& taken[0] == (0u64, ValueView::Unsigned(accepted.drop_id))
            &&& taken[1] == (1u64, ValueView::Unsigned(accepted.transfer_id))
            &&& taken[2] == (2u64, ValueView::Unsigned(accepted.transfer_generation))
            &&& taken[3] == (3u64, ValueView::Unsigned(accepted.open_timeout_us))
        }),
{
    assert(cancellation_fields(cancellation).take(6) =~= tuple_fields(cancellation.binding));
    assert(offer_fields(offer).take(6) =~= tuple_fields(offer.binding));
}

/// What is told of a drop is what is known of it.
pub proof fn a_status_is_told_as_it_is(status: FileDropStatus)
    ensures
        ({
            let told = status_view(status);
            &&& told.drop_id == status.drop_id
            &&& told.transfer_id == status.transfer_id
            &&& told.generation == status.generation
            &&& told.committed_offset == status.committed_offset
            &&& told.final_name == status.final_name@
            &&& told.state == 4 <==> status.state is Committed
            &&& told.state == 6 <==> status.state is Failed
            &&& told.state == 5 <==> status.state is Cancelled
            &&& told.result is None <==> status.result is None
            &&& told.result == Some(0u64) <==> status.result == Some(FileResultCode::Committed)
        }),
{
}

/// A file is suggested under its own name where that may be, and under a name of no meaning
/// otherwise.
pub proof fn a_file_is_suggested_under_its_own_name(name: &str, own: String, none: String)
    requires
        call_ensures(suggest_name, (Some(name),), own),
        call_ensures(suggest_name, (None::<&str>,), none),
    ensures
        suggestible(name@) ==> own@ == name@,
        !suggestible(name@) ==> own@ == none@,
        none@ == "dropped-file"@,
{
}

/// A session binds drops for itself, where it may receive files, and for a surface only where that
/// is there.
pub proof fn drops_are_bound_where_files_may_be_received(
    session: &Session,
    object_id: u64,
    value: &Value,
    r: Result<(FileDropBinding, Option<SurfaceIdentity>), ControlError>,
    generation: Option<u64>,
)
    requires
        session.wf(),
        call_ensures(read_binding, (session, object_id, value), r),
    ensures
        r matches Ok((binding, surface)) ==> {
            &&& has_profile(session.accepted_profiles@, FILE_DROP@)
            &&& binding_decoded(object_id, value_view(*value)) == Some(binding)
            &&& crate::context::operation_allowed(
                session.contexts.table@,
                binding.context_id,
                OP_RECEIVE_FILE_DROP,
            )
            &&& surface matches Some(named) ==> named.surface_id == binding.surface_id
                && named.context.context_id == binding.context_id && named.context.session
                == session.identity
            &&& surface is Some <==> binding.destination is Some && binding.surface_id != 0
            &&& surface is Some && generation is None ==> surface_refusal(
                binding,
                surface,
                generation,
            ) is Some
            &&& surface is Some && generation is Some ==> (surface_refusal(
                binding,
                surface,
                generation,
            ) is None <==> generation == Some(binding.surface_generation))
        },
        !has_profile(session.accepted_profiles@, FILE_DROP@) ==> r is Err && r->Err_0.code == 4,
{
}

/// Every cancellation that can be told is told once, in order.
pub proof fn cancellations_are_told_in_order(
    cancellations: Seq<CancelFileDrop>,
    more: CancelFileDrop,
)
    ensures
        cancellation_records(Seq::empty()) == Seq::<(u16, u64, Seq<u8>)>::empty(),
        more.reason <= 7 ==> (envelope_bytes(0, cancellation_fields(more)) matches Some(body)
            ==> cancellation_records(cancellations.push(more)) == cancellation_records(
            cancellations,
        ).push((0x7006u16, more.binding.drop_id, body))),
{
    assert(cancellations.push(more).drop_last() =~= cancellations);
}

/// Drops are bound to a surface that is there, in the generation that the binding names. The answer to
/// a binding that was granted comes under the number of the request.
pub proof fn drops_are_bound_to_the_surface_as_it_stands(
    manager: &mut FileDropManager,
    session: &Session,
    binding: FileDropBinding,
    surface: Option<SurfaceIdentity>,
    generation: Option<u64>,
    object_id: u64,
    request_id: u64,
    r: Result<OutgoingRecord, ControlError>,
)
    requires
        call_ensures(
            bind_drops,
            (manager, session, binding, surface, generation, object_id, request_id),
            r,
        ),
    ensures
        surface is Some && generation is None ==> *final(manager) == *old(manager) && (r matches Err(
            error,
        ) && error.code == 8),
        surface is Some && generation is Some && generation->0 != binding.surface_generation
            ==> *final(manager) == *old(manager) && (r matches Err(error) && error.code == 21),
        r matches Ok(record) ==> record_view(record).0 == 0x7001 && record_view(record).1
            == object_id,
{
}

/// An offer goes to the session that is to receive it and to no other. It arrives under its own record
/// type, about the drop.
pub proof fn an_offer_goes_to_its_receiver(
    registry: &mut Registry,
    owner: SessionIdentity,
    offer: &FileDropOffer,
    r: Result<(), &'static str>,
    other: u64,
)
    requires
        call_ensures(deliver_offer, (registry, owner, offer), r),
    ensures
        !old(registry).sessions@.contains_key(owner.session_id) ==> r is Err && *final(registry) == *old(registry),
        !suggestible(offer.suggested_name@) ==> r is Err && *final(registry) == *old(registry),
        other != owner.session_id && old(registry).sessions@.contains_key(other) ==> final(registry).sessions@.contains_key(other) && final(registry).sessions@[other] == old(registry).sessions@[other],
        r is Ok ==> ({
            let before = old(registry).sessions@[owner.session_id].egress->0.records@;
            let after = final(registry).sessions@[owner.session_id].egress->0.records@;
            &&& records_view(after).len() == records_view(before).len() + 1
            &&& records_view(after).last().0 == 0x7002
            &&& records_view(after).last().1 == offer.binding.drop_id
        }),
{
    if old(registry).sessions@.contains_key(other) && other != owner.session_id {
        assert(old(registry).sessions@.dom().contains(other));
        assert(final(registry).sessions@.dom().contains(other));
        assert(final(registry).sessions@.contains_key(other));
    }
}

/// An offer names the drop, the file's name and its length.
pub proof fn an_offer_names_its_file(offer: FileDropOffer)
    ensures
        offer_fields(offer).len() == tuple_fields(offer.binding).len() + 2,
        offer_fields(offer).last() == (7u64, ValueView::Unsigned(offer.declared_length)),
        offer_fields(offer)[offer_fields(offer).len() - 2] == (
            6u64,
            ValueView::Text(offer.suggested_name@),
        ),
        offer_fields(offer).take(tuple_fields(offer.binding).len() as int) == tuple_fields(
            offer.binding,
        ),
{
    assert(offer_fields(offer).take(tuple_fields(offer.binding).len() as int) =~= tuple_fields(
        offer.binding,
    ));
}

/// What is asked about a drop is answered under the record type that answers it, about the same
/// object.
pub proof fn a_drop_request_is_answered_in_kind(
    before: FileDropManager,
    after: FileDropManager,
    session: Session,
    object_id: u64,
    request_id: u64,
    payload: ValueView,
    now_us: u64,
    answer: OutgoingRecord,
)
    ensures
        acceptance_answered(
            before,
            after,
            session,
            object_id,
            request_id,
            payload,
            now_us,
            Ok(answer),
        ) ==> record_view(answer).0 == 0x7004 && record_view(answer).1 == object_id,
        cancellation_answered(
            before,
            after,
            session,
            object_id,
            request_id,
            payload,
            now_us,
            Ok(answer),
        ) ==> record_view(answer).0 == 0x7006 && record_view(answer).1 == object_id,
        advance_answered(
            before,
            after,
            session,
            object_id,
            request_id,
            payload,
            now_us,
            Ok(answer),
        ) ==> record_view(answer).0 == 0x7008 && record_view(answer).1 == object_id,
        query_answered(
            before,
            after,
            session,
            object_id,
            request_id,
            payload,
            now_us,
            Ok(answer),
        ) ==> record_view(answer).0 == 0x700a && record_view(answer).1 == object_id,
{
}

/// Drops are taken, cancelled and moved on only within a context that may receive them, and taken only
/// by a session that asked for drops.
pub proof fn drops_are_asked_about_where_they_may_be_received(
    before: FileDropManager,
    after: FileDropManager,
    session: Session,
    object_id: u64,
    request_id: u64,
    payload: ValueView,
    now_us: u64,
    answer: Result<OutgoingRecord, ControlError>,
)
    requires
        acceptance_answered(before, after, session, object_id, request_id, payload, now_us, answer),
    ensures
        !has_profile(session.accepted_profiles@, FILE_DROP@) ==> answer is Err && after == before,
        acceptance_decoded(object_id, payload) is None ==> answer is Err && after == before,
        answer is Ok ==> crate::context::operation_allowed(
            session.contexts.table@,
            acceptance_decoded(object_id, payload)->0.binding.context_id,
            OP_RECEIVE_FILE_DROP,
        ),
{
}

} // verus!
