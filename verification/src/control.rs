//! Control records: what they ask for, and why they are refused.

use vstd::prelude::*;
use vivid_protocol::cbor::Value;

use crate::actor::{record_view, OutgoingRecord};
use crate::context::operation_allowed;
use crate::identity::{ContextIdentity, SurfaceIdentity, TrackIdentity};
use crate::protocol::{
    ERROR_BAD_MESSAGE, ERROR_BAD_STATE, ERROR_DUPLICATE_ID, ERROR_LIMIT_EXCEEDED, ERROR_NOT_FOUND,
    ERROR_PRECONDITION_FAILED, ERROR_STALE_TARGET_GENERATION, ERROR_UNSUPPORTED_CONFIG,
    ERROR_UNSUPPORTED_PROFILE, OK,
};
use crate::reply::{envelope, envelope_bytes, ok, ok_bytes};
use crate::session::Session;
use crate::value::{
    lookup, number_at, only_keys, payload_view, signed_at, signed_value, value_view, ValueView,
};

verus! {

/// The flag of a record that a reader may ignore where it does not know it.
pub const RECORD_OPTIONAL: u16 = 1;

/// Why a control record was refused.
#[derive(Debug, Clone, Copy)]
pub struct ControlError {
    pub code: u64,
    pub message: &'static str,
    /// The track that the record was about, where that is known.
    pub track: Option<TrackIdentity>,
    /// Whether the refusal is traced.
    pub trace_rejection: bool,
}

impl ControlError {
    /// A refusal with a code.
    pub open spec fn coded(code: u64, message: &'static str) -> ControlError {
        ControlError { code, message, track: None, trace_rejection: true }
    }

    /// A refusal with a code, about a track.
    pub open spec fn coded_about(code: u64, message: &'static str, track: TrackIdentity) -> ControlError {
        ControlError { code, message, track: Some(track), trace_rejection: true }
    }

    /// A refusal with a code.
    pub fn with_code(code: u64, message: &'static str) -> (r: Self)
        ensures
            r == ControlError::coded(code, message),
    {
        ControlError { code, message, track: None, trace_rejection: true }
    }

    /// The record is malformed.
    pub fn bad_message(message: &'static str) -> (r: Self)
        ensures
            r == ControlError::coded(ERROR_BAD_MESSAGE, message),
    {
        ControlError::with_code(ERROR_BAD_MESSAGE, message)
    }

    /// The record does not fit the state of what it is about.
    pub fn bad_state(message: &'static str) -> (r: Self)
        ensures
            r == ControlError::coded(ERROR_BAD_STATE, message),
    {
        ControlError::with_code(ERROR_BAD_STATE, message)
    }

    /// The scene refused what the record asks for.
    pub fn state(message: &'static str) -> (r: Self)
        ensures
            r == ControlError::coded(ERROR_BAD_STATE, message),
    {
        ControlError::bad_state(message)
    }

    /// What the record names is not there.
    pub fn not_found(message: &'static str) -> (r: Self)
        ensures
            r == ControlError::coded(ERROR_NOT_FOUND, message),
    {
        ControlError::with_code(ERROR_NOT_FOUND, message)
    }

    /// What the record relies on has changed.
    pub fn precondition(message: &'static str) -> (r: Self)
        ensures
            r == ControlError::coded(ERROR_PRECONDITION_FAILED, message),
    {
        ControlError::with_code(ERROR_PRECONDITION_FAILED, message)
    }

    /// The record was planned for an earlier target.
    pub fn stale_target() -> (r: Self)
        ensures
            r == ControlError::coded(ERROR_STALE_TARGET_GENERATION, "stale target generation"),
    {
        ControlError::with_code(ERROR_STALE_TARGET_GENERATION, "stale target generation")
    }

    /// The presenter does not do what the record asks for.
    pub fn unsupported(message: &'static str) -> (r: Self)
        ensures
            r == ControlError::coded(ERROR_UNSUPPORTED_CONFIG, message),
    {
        ControlError::with_code(ERROR_UNSUPPORTED_CONFIG, message)
    }

    /// The record belongs to a profile that was not negotiated.
    pub fn unsupported_profile(message: &'static str) -> (r: Self)
        ensures
            r == ControlError::coded(ERROR_UNSUPPORTED_PROFILE, message),
    {
        ControlError::with_code(ERROR_UNSUPPORTED_PROFILE, message)
    }

    /// What the record makes is there already.
    pub fn duplicate(message: &'static str) -> (r: Self)
        ensures
            r == ControlError::coded(ERROR_DUPLICATE_ID, message),
    {
        ControlError::with_code(ERROR_DUPLICATE_ID, message)
    }

    /// There is no room for what the record asks for.
    pub fn limit(message: &'static str) -> (r: Self)
        ensures
            r == ControlError::coded(ERROR_LIMIT_EXCEEDED, message),
    {
        ControlError::with_code(ERROR_LIMIT_EXCEEDED, message)
    }

    /// The same refusal, about a track.
    pub fn with_track(self, track: TrackIdentity) -> (r: Self)
        ensures
            r == (ControlError { track: Some(track), ..self }),
    {
        ControlError { track: Some(track), ..self }
    }

    /// The same refusal, not traced.
    pub fn without_rejection_trace(self) -> (r: Self)
        ensures
            r == (ControlError { trace_rejection: false, ..self }),
    {
        ControlError { trace_rejection: false, ..self }
    }
}

/// The envelope of a control record.
pub struct ControlEnvelope {
    pub request_id: u64,
    pub transaction_id: Option<u64>,
    pub expected_target_generation: Option<u64>,
    pub payload: Vec<(u64, Value)>,
    pub preconditions: Vec<(u64, Value)>,
}

/// What an envelope holds.
pub struct EnvelopeView {
    pub request_id: u64,
    pub transaction_id: Option<u64>,
    pub expected_target_generation: Option<u64>,
    pub payload: Seq<(u64, ValueView)>,
    pub preconditions: Seq<(u64, ValueView)>,
}

impl View for ControlEnvelope {
    type V = EnvelopeView;

    open spec fn view(&self) -> EnvelopeView {
        EnvelopeView {
            request_id: self.request_id,
            transaction_id: self.transaction_id,
            expected_target_generation: self.expected_target_generation,
            payload: payload_view(self.payload@),
            preconditions: payload_view(self.preconditions@),
        }
    }
}

/// The envelope that a body is, or what the codec says against it.
pub uninterp spec fn control_read(body: Seq<u8>) -> Result<EnvelopeView, Seq<char>>;

/// The envelope that a body is, if it is one.
pub open spec fn envelope_decoded(body: Seq<u8>) -> Option<EnvelopeView> {
    match control_read(body) {
        Ok(envelope) => Some(envelope),
        Err(_) => None,
    }
}

/// `vivid_protocol::messages::decode_control`: the envelope depends on the body alone, and a body
/// that is none is refused with a text that says why.
#[verifier::external_body]
pub(crate) fn read_control(body: &[u8]) -> (r: Result<ControlEnvelope, String>)
    ensures
        match r {
            Ok(envelope) => control_read(body@) == Ok::<EnvelopeView, Seq<char>>(envelope@),
            Err(text) => control_read(body@) == Err::<EnvelopeView, Seq<char>>(text@),
        },
{
    let envelope = vivid_protocol::messages::decode_control(body).map_err(|error| error.to_string())?;
    Ok(ControlEnvelope {
        request_id: envelope.request_id,
        transaction_id: envelope.transaction_id,
        expected_target_generation: envelope.expected_target_generation,
        payload: envelope.payload,
        preconditions: envelope.preconditions,
    })
}

/// The envelope that a body is, if it is one.
pub fn decode_control(body: &[u8]) -> (r: Option<ControlEnvelope>)
    ensures
        match r {
            Some(envelope) => envelope_decoded(body@) == Some(envelope@),
            None => envelope_decoded(body@) is None,
        },
{
    match read_control(body) {
        Ok(envelope) => Some(envelope),
        Err(_) => None,
    }
}

/// `vivid_protocol::cbor::Value::as_u64`: the number that a value is.
#[verifier::external_body]
pub(crate) fn value_number(value: &Value) -> (r: Option<u64>)
    ensures
        r == (match value_view(*value) {
            ValueView::Unsigned(number) => Some(number),
            _ => None,
        }),
{
    value.as_u64()
}

proof fn lemma_lookup_skip(entries: Seq<(u64, ValueView)>, key: u64, index: int)
    requires
        0 <= index < entries.len(),
    ensures
        lookup(entries.skip(index), key) == (if entries[index].0 == key {
            Some(entries[index].1)
        } else {
            lookup(entries.skip(index + 1), key)
        }),
{
    assert(entries.skip(index).drop_first() =~= entries.skip(index + 1));
}

/// The number that a payload holds under a key.
pub fn payload_number(payload: &Vec<(u64, Value)>, key: u64) -> (r: Option<u64>)
    ensures
        r == number_at(payload_view(payload@), key),
{
    let ghost entries = payload_view(payload@);
    let mut index: usize = 0;
    assert(entries.skip(0) =~= entries);
    while index < payload.len()
        invariant
            entries == payload_view(payload@),
            index <= entries.len(),
            lookup(entries, key) == lookup(entries.skip(index as int), key),
        decreases entries.len() - index,
    {
        proof {
            lemma_lookup_skip(entries, key, index as int);
        }
        if payload[index].0 == key {
            return value_number(&payload[index].1);
        }
        index = index + 1;
    }
    None
}

/// The value that a payload holds under a key.
pub fn payload_value(payload: &Vec<(u64, Value)>, key: u64) -> (r: Option<&Value>)
    ensures
        match r {
            Some(value) => lookup(payload_view(payload@), key) == Some(value_view(*value)),
            None => lookup(payload_view(payload@), key) is None,
        },
{
    let ghost entries = payload_view(payload@);
    let mut index: usize = 0;
    assert(entries.skip(0) =~= entries);
    while index < payload.len()
        invariant
            entries == payload_view(payload@),
            index <= entries.len(),
            lookup(entries, key) == lookup(entries.skip(index as int), key),
        decreases entries.len() - index,
    {
        proof {
            lemma_lookup_skip(entries, key, index as int);
        }
        if payload[index].0 == key {
            return Some(&payload[index].1);
        }
        index = index + 1;
    }
    None
}

/// `vivid_protocol::cbor::Value::as_i64`: the signed number that a value is, where it fits.
#[verifier::external_body]
fn value_signed(value: &Value) -> (r: Option<i64>)
    ensures
        r == signed_value(value_view(*value)),
{
    value.as_i64()
}

/// The signed number that a payload holds under a key.
pub fn payload_signed(payload: &Vec<(u64, Value)>, key: u64) -> (r: Option<i64>)
    ensures
        r == signed_at(payload_view(payload@), key),
{
    match payload_value(payload, key) {
        Some(value) => value_signed(value),
        None => None,
    }
}

/// The first of the wanted numbers that entries do not hold, by what it is called.
pub open spec fn missing(entries: Seq<(u64, ValueView)>, wanted: Seq<(u64, &'static str)>) -> Option<
    &'static str,
>
    decreases wanted.len(),
{
    if wanted.len() == 0 {
        None
    } else if number_at(entries, wanted[0].0) is None {
        Some(wanted[0].1)
    } else {
        missing(entries, wanted.drop_first())
    }
}

/// The first of the wanted numbers that a payload does not hold, by what it is called.
pub fn first_missing(payload: &Vec<(u64, Value)>, wanted: &Vec<(u64, &'static str)>) -> (r: Option<
    &'static str,
>)
    ensures
        r == missing(payload_view(payload@), wanted@),
{
    let ghost entries = payload_view(payload@);
    let mut index: usize = 0;
    assert(wanted@.skip(0) =~= wanted@);
    while index < wanted.len()
        invariant
            entries == payload_view(payload@),
            index <= wanted@.len(),
            missing(entries, wanted@) == missing(entries, wanted@.skip(index as int)),
        decreases wanted@.len() - index,
    {
        proof {
            assert(wanted@.skip(index as int).drop_first() =~= wanted@.skip(index + 1));
        }
        if payload_number(payload, wanted[index].0).is_none() {
            return Some(wanted[index].1);
        }
        index = index + 1;
    }
    None
}

/// Whether a payload holds no key but these.
pub fn keys_allowed(payload: &Vec<(u64, Value)>, allowed: &[u64]) -> (r: bool)
    ensures
        r == only_keys(ValueView::Entries(payload_view(payload@)), allowed@),
{
    let ghost entries = payload_view(payload@);
    let mut index: usize = 0;
    while index < payload.len()
        invariant
            entries == payload_view(payload@),
            index <= entries.len(),
            forall|i: int| 0 <= i < index ==> allowed@.contains((#[trigger] entries[i]).0),
        decreases entries.len() - index,
    {
        let key = payload[index].0;
        let mut known = false;
        let mut position: usize = 0;
        while position < allowed.len()
            invariant
                position <= allowed@.len(),
                known == (exists|j: int| 0 <= j < position && #[trigger] allowed@[j] == key),
            decreases allowed@.len() - position,
        {
            if allowed[position] == key {
                known = true;
                assert(allowed@[position as int] == key);
            }
            position = position + 1;
        }
        assert(entries[index as int].0 == key);
        if !known {
            proof {
                assert(!allowed@.contains(key));
                assert(!allowed@.contains(entries[index as int].0));
                let value = ValueView::Entries(entries);
                assert(value->Entries_0 == entries);
                assert(!only_keys(value, allowed@));
            }
            return false;
        }
        index = index + 1;
    }
    true
}

/// What is wrong with a payload of numbers.
pub fn find_malformed(
    payload: &Vec<(u64, Value)>,
    allowed: &[u64],
    invalid: &'static str,
    wanted: &Vec<(u64, &'static str)>,
) -> (r: Option<&'static str>)
    ensures
        r == malformed(payload_view(payload@), allowed@, invalid, wanted@),
{
    if !keys_allowed(payload, allowed) {
        Some(invalid)
    } else {
        first_missing(payload, wanted)
    }
}

/// The number that a payload holds under a key that it is known to hold.
pub fn known_number(payload: &Vec<(u64, Value)>, key: u64) -> (r: u64)
    ensures
        r == number(payload_view(payload@), key),
{
    match payload_number(payload, key) {
        Some(number) => number,
        None => 0,
    }
}

/// The number that entries hold under a key that they are known to hold.
pub open spec fn number(entries: Seq<(u64, ValueView)>, key: u64) -> u64 {
    match number_at(entries, key) {
        Some(number) => number,
        None => 0,
    }
}

/// What is wrong with a payload of numbers: it holds a key that it must not hold, or lacks a number.
pub open spec fn malformed(
    entries: Seq<(u64, ValueView)>,
    allowed: Seq<u64>,
    invalid: &'static str,
    wanted: Seq<(u64, &'static str)>,
) -> Option<&'static str> {
    if !only_keys(ValueView::Entries(entries), allowed) {
        Some(invalid)
    } else {
        missing(entries, wanted)
    }
}

/// The context that a number names, within a session's authority.
pub open spec fn context_of(session: Session, context_id: u64) -> Result<ContextIdentity, ControlError> {
    if context_id != 0 && session.contexts.table@.contains_key(context_id) {
        Ok(ContextIdentity { session: session.identity, context_id })
    } else {
        Err(
            ControlError::coded(
                ERROR_NOT_FOUND,
                "context is outside this session authority",
            ),
        )
    }
}

/// The surface that two numbers name, within a session's authority.
pub open spec fn surface_of(session: Session, context_id: u64, surface_id: u64) -> Result<
    SurfaceIdentity,
    ControlError,
> {
    match context_of(session, context_id) {
        Ok(context) => if surface_id == 0 {
            Err(ControlError::coded(ERROR_BAD_MESSAGE, "surface ID is zero"))
        } else {
            Ok(SurfaceIdentity { context, surface_id })
        },
        Err(error) => Err(error),
    }
}

/// The track that three numbers name, within a session's authority.
pub open spec fn track_of(session: Session, context_id: u64, surface_id: u64, track_id: u64) -> Result<
    TrackIdentity,
    ControlError,
> {
    match surface_of(session, context_id, surface_id) {
        Ok(surface) => if track_id == 0 {
            Err(ControlError::coded(ERROR_BAD_MESSAGE, "track ID is zero"))
        } else {
            Ok(TrackIdentity { surface, track_id })
        },
        Err(error) => Err(error),
    }
}

/// The surface that a payload of two numbers names.
pub open spec fn payload_surface(session: Session, payload: Seq<(u64, ValueView)>) -> Result<
    SurfaceIdentity,
    ControlError,
> {
    match malformed(
        payload,
        seq![0u64, 1],
        "invalid surface identity",
        seq![(0u64, "context ID"), (1u64, "surface ID")],
    ) {
        Some(message) => Err(ControlError::coded(ERROR_BAD_MESSAGE, message)),
        None => surface_of(session, number(payload, 0), number(payload, 1)),
    }
}

/// The track that a payload names with its first three keys.
pub open spec fn payload_track(session: Session, payload: Seq<(u64, ValueView)>) -> Result<
    TrackIdentity,
    ControlError,
> {
    if number_at(payload, 0) is None || number_at(payload, 1) is None || number_at(payload, 2) is None {
        Err(ControlError::coded(ERROR_BAD_MESSAGE, "invalid track identity"))
    } else {
        track_of(session, number(payload, 0), number(payload, 1), number(payload, 2))
    }
}

/// What a session may do in a context, or why not.
pub open spec fn operation_refusal(session: Session, context_id: u64, operation: u64) -> Option<
    ControlError,
> {
    if operation_allowed(session.contexts.table@, context_id, operation) {
        None
    } else {
        Some(
            ControlError::coded(
                ERROR_NOT_FOUND,
                "context is outside this session operation authority",
            ),
        )
    }
}

impl Session {
    /// The context that a number names, within the session's authority.
    pub fn context_identity(&self, context_id: u64) -> (r: Result<ContextIdentity, ControlError>)
        requires
            self.wf(),
        ensures
            r == context_of(*self, context_id),
    {
        if !self.contexts.contains(context_id) {
            return Err(ControlError::not_found("context is outside this session authority"));
        }
        match self.identity.context(context_id) {
            Ok(context) => Ok(context),
            Err(_) => Err(ControlError::bad_message("context ID is zero")),
        }
    }

    /// The surface that two numbers name, within the session's authority.
    pub fn surface_identity(&self, context_id: u64, surface_id: u64) -> (r: Result<
        SurfaceIdentity,
        ControlError,
    >)
        requires
            self.wf(),
        ensures
            r == surface_of(*self, context_id, surface_id),
    {
        match self.context_identity(context_id) {
            Ok(context) => match context.surface(surface_id) {
                Ok(surface) => Ok(surface),
                Err(_) => Err(ControlError::bad_message("surface ID is zero")),
            },
            Err(error) => Err(error),
        }
    }

    /// The track that three numbers name, within the session's authority.
    pub fn track_identity(&self, context_id: u64, surface_id: u64, track_id: u64) -> (r: Result<
        TrackIdentity,
        ControlError,
    >)
        requires
            self.wf(),
        ensures
            r == track_of(*self, context_id, surface_id, track_id),
    {
        match self.surface_identity(context_id, surface_id) {
            Ok(surface) => match surface.track(track_id) {
                Ok(track) => Ok(track),
                Err(_) => Err(ControlError::bad_message("track ID is zero")),
            },
            Err(error) => Err(error),
        }
    }

    /// The surface that a payload of two numbers names.
    pub fn payload_surface_identity(&self, payload: &Vec<(u64, Value)>) -> (r: Result<
        SurfaceIdentity,
        ControlError,
    >)
        requires
            self.wf(),
        ensures
            r == payload_surface(*self, payload_view(payload@)),
    {
        let allowed: [u64; 2] = [0, 1];
        let wanted = vec![(0u64, "context ID"), (1u64, "surface ID")];
        assert(allowed@ =~= seq![0u64, 1]);
        assert(wanted@ =~= seq![(0u64, "context ID"), (1u64, "surface ID")]);
        if let Some(message) = find_malformed(
            payload,
            &allowed,
            "invalid surface identity",
            &wanted,
        ) {
            return Err(ControlError::bad_message(message));
        }
        self.surface_identity(known_number(payload, 0), known_number(payload, 1))
    }

    /// The track that a payload names with its first three keys.
    pub fn payload_track_identity(&self, payload: &Vec<(u64, Value)>) -> (r: Result<
        TrackIdentity,
        ControlError,
    >)
        requires
            self.wf(),
        ensures
            r == payload_track(*self, payload_view(payload@)),
    {
        match (payload_number(payload, 0), payload_number(payload, 1), payload_number(payload, 2)) {
            (Some(context_id), Some(surface_id), Some(track_id)) => self.track_identity(
                context_id,
                surface_id,
                track_id,
            ),
            _ => Err(ControlError::bad_message("invalid track identity")),
        }
    }

    /// Whether the session may do an operation in a context.
    pub fn require_context_operation(&self, context_id: u64, operation: u64) -> (r: Result<
        (),
        ControlError,
    >)
        requires
            self.wf(),
        ensures
            r == (match operation_refusal(*self, context_id, operation) {
                Some(error) => Err(error),
                None => Ok(()),
            }),
    {
        if self.contexts.allows(context_id, operation) {
            Ok(())
        } else {
            Err(ControlError::not_found("context is outside this session operation authority"))
        }
    }
}

/// Whether an answer is the one that is expected.
pub open spec fn is_reply(
    answer: Result<OutgoingRecord, ControlError>,
    expected: Result<(u16, u64, Seq<u8>), ControlError>,
) -> bool {
    match (answer, expected) {
        (Ok(record), Ok(view)) => record_view(record) == view,
        (Err(error), Err(other)) => error == other,
        _ => false,
    }
}

/// The answer that carries a payload.
pub open spec fn reply_of(
    record_type: u16,
    object_id: u64,
    request_id: u64,
    payload: Seq<(u64, ValueView)>,
) -> Result<(u16, u64, Seq<u8>), ControlError> {
    match envelope_bytes(request_id, payload) {
        Some(body) => Ok((record_type, object_id, body)),
        None => Err(
            ControlError {
                code: ERROR_BAD_MESSAGE,
                message: "reply encoding failed",
                track: None,
                trace_rejection: false,
            },
        ),
    }
}

/// The answer that carries a payload.
pub fn reply(record_type: u16, object_id: u64, request_id: u64, payload: Vec<(u64, Value)>) -> (r: Result<
    OutgoingRecord,
    ControlError,
>)
    ensures
        is_reply(r, reply_of(record_type, object_id, request_id, payload_view(payload@))),
{
    match envelope(request_id, payload) {
        Ok(body) => Ok((record_type, object_id, body)),
        Err(_) => Err(ControlError::bad_message("reply encoding failed").without_rejection_trace()),
    }
}

/// The acknowledgement of a request.
pub open spec fn acknowledgement(object_id: u64, request_id: u64) -> Result<
    (u16, u64, Seq<u8>),
    ControlError,
> {
    Ok((OK, object_id, ok_bytes(request_id)))
}

/// The acknowledgement of a request.
pub fn acknowledge(object_id: u64, request_id: u64) -> (r: Result<OutgoingRecord, ControlError>)
    ensures
        is_reply(r, acknowledgement(object_id, request_id)),
{
    Ok((OK, object_id, ok(request_id)))
}

/// A session speaks of its own contexts only: an identity that a request names is one of the
/// session that asks, has the numbers that were named, and is found only where the session holds
/// the context and no number is zero.
pub proof fn a_request_names_what_the_session_holds(
    session: &Session,
    context_id: u64,
    surface_id: u64,
    track_id: u64,
    context: Result<ContextIdentity, ControlError>,
    surface: Result<SurfaceIdentity, ControlError>,
    track: Result<TrackIdentity, ControlError>,
)
    requires
        session.wf(),
        call_ensures(Session::context_identity, (session, context_id), context),
        call_ensures(Session::surface_identity, (session, context_id, surface_id), surface),
        call_ensures(Session::track_identity, (session, context_id, surface_id, track_id), track),
    ensures
        context is Ok <==> context_id != 0 && session.contexts.table@.contains_key(context_id),
        surface is Ok <==> context is Ok && surface_id != 0,
        track is Ok <==> surface is Ok && track_id != 0,
        context matches Ok(found) ==> found.session == session.identity && found.context_id
            == context_id,
        surface matches Ok(found) ==> found.context.session == session.identity
            && found.context.context_id == context_id && found.surface_id == surface_id,
        track matches Ok(found) ==> found.surface.context.session == session.identity
            && found.surface.context.context_id == context_id && found.surface.surface_id
            == surface_id && found.track_id == track_id,
        context matches Err(error) ==> error.code == 8,
        context is Err ==> surface == Err::<SurfaceIdentity, ControlError>(context->Err_0) && track
            == Err::<TrackIdentity, ControlError>(context->Err_0),
        context is Ok ==> (surface matches Err(error) ==> error.code == 5),
        surface is Ok ==> (track matches Err(error) ==> error.code == 5),
{
}

/// A payload names its context, its surface and its track in that order.
pub proof fn a_payload_names_its_track_in_order(
    session: &Session,
    payload: &Vec<(u64, Value)>,
    surface: Result<SurfaceIdentity, ControlError>,
    track: Result<TrackIdentity, ControlError>,
)
    requires
        session.wf(),
        call_ensures(Session::payload_surface_identity, (session, payload), surface),
        call_ensures(Session::payload_track_identity, (session, payload), track),
    ensures
        surface matches Ok(found) ==> {
            &&& number_at(payload_view(payload@), 0) == Some(found.context.context_id)
            &&& number_at(payload_view(payload@), 1) == Some(found.surface_id)
            &&& found.context.session == session.identity
        },
        track matches Ok(found) ==> {
            &&& number_at(payload_view(payload@), 0) == Some(found.surface.context.context_id)
            &&& number_at(payload_view(payload@), 1) == Some(found.surface.surface_id)
            &&& number_at(payload_view(payload@), 2) == Some(found.track_id)
            &&& found.surface.context.session == session.identity
        },
{
    reveal_with_fuel(missing, 3);
    let wanted = seq![(0u64, "context ID"), (1u64, "surface ID")];
    assert(wanted.drop_first()[0] == wanted[1]);
}

/// Every kind of refusal has its own code, carries the words it was given, and is about no track
/// until it is said to be.
pub proof fn refusals_have_their_own_codes(
    message: &'static str,
    bad_message: ControlError,
    bad_state: ControlError,
    not_found: ControlError,
    precondition: ControlError,
    unsupported: ControlError,
    profile: ControlError,
    duplicate: ControlError,
    limit: ControlError,
)
    requires
        call_ensures(ControlError::bad_message, (message,), bad_message),
        call_ensures(ControlError::bad_state, (message,), bad_state),
        call_ensures(ControlError::not_found, (message,), not_found),
        call_ensures(ControlError::precondition, (message,), precondition),
        call_ensures(ControlError::unsupported, (message,), unsupported),
        call_ensures(ControlError::unsupported_profile, (message,), profile),
        call_ensures(ControlError::duplicate, (message,), duplicate),
        call_ensures(ControlError::limit, (message,), limit),
    ensures
        bad_message.code == 5 && bad_state.code == 6 && duplicate.code == 7 && not_found.code == 8
            && limit.code == 9 && precondition.code == 21 && unsupported.code == 4 && profile.code
            == 3,
        bad_message.message == message && bad_state.message == message && not_found.message
            == message && precondition.message == message && unsupported.message == message
            && profile.message == message && duplicate.message == message && limit.message
            == message,
        bad_message.track is None && bad_state.track is None && not_found.track is None
            && limit.track is None,
        bad_message.trace_rejection && bad_state.trace_rejection && not_found.trace_rejection,
{
}

/// A refusal that is about a track keeps its code and its words.
pub proof fn a_refusal_about_a_track_keeps_its_code(
    error: ControlError,
    track: TrackIdentity,
    about: ControlError,
    quiet: ControlError,
)
    requires
        call_ensures(ControlError::with_track, (error, track), about),
        call_ensures(ControlError::without_rejection_trace, (error,), quiet),
    ensures
        about.code == error.code && about.message == error.message && about.track == Some(track)
            && about.trace_rejection == error.trace_rejection,
        quiet.code == error.code && quiet.message == error.message && quiet.track == error.track
            && !quiet.trace_rejection,
{
}

/// A wanted number is missing where none stands under its key, and the first one that is missing is
/// named; where every one is there, nothing is missing.
pub proof fn the_first_missing_number_is_named(
    entries: Seq<(u64, ValueView)>,
    wanted: Seq<(u64, &'static str)>,
)
    ensures
        missing(entries, wanted) is None <==> forall|i: int|
            0 <= i < wanted.len() ==> number_at(entries, (#[trigger] wanted[i]).0) is Some,
        missing(entries, wanted) matches Some(name) ==> exists|i: int|
            0 <= i < wanted.len() && (#[trigger] wanted[i]).1 == name && number_at(
                entries,
                wanted[i].0,
            ) is None && forall|j: int|
                0 <= j < i ==> number_at(entries, (#[trigger] wanted[j]).0) is Some,
    decreases wanted.len(),
{
    if wanted.len() > 0 {
        let rest = wanted.drop_first();
        the_first_missing_number_is_named(entries, rest);
        if number_at(entries, wanted[0].0) is Some {
            assert forall|j: int| 0 <= j < rest.len() implies #[trigger] rest[j] == wanted[j + 1] by {}
            if missing(entries, wanted) is None {
                assert forall|i: int| 0 <= i < wanted.len() implies number_at(
                    entries,
                    (#[trigger] wanted[i]).0,
                ) is Some by {
                    if i > 0 {
                        assert(rest[i - 1] == wanted[i]);
                    }
                }
            } else {
                let name = missing(entries, wanted)->0;
                let i = choose|i: int|
                    0 <= i < rest.len() && (#[trigger] rest[i]).1 == name && number_at(
                        entries,
                        rest[i].0,
                    ) is None && forall|j: int|
                        0 <= j < i ==> number_at(entries, (#[trigger] rest[j]).0) is Some;
                assert(wanted[i + 1] == rest[i]);
                assert forall|j: int| 0 <= j < i + 1 implies number_at(
                    entries,
                    (#[trigger] wanted[j]).0,
                ) is Some by {
                    if j > 0 {
                        assert(rest[j - 1] == wanted[j]);
                    }
                }
                assert(number_at(entries, wanted[i + 1].0) is None);
            }
        } else {
            assert(wanted[0].1 == missing(entries, wanted)->0);
        }
    }
}

/// A reply answers the request it is for, about the object it is for, as the record it is of.
pub proof fn a_reply_answers_its_request(
    record_type: u16,
    object_id: u64,
    request_id: u64,
    payload: Vec<(u64, Value)>,
    r: Result<OutgoingRecord, ControlError>,
    done: Result<OutgoingRecord, ControlError>,
)
    requires
        call_ensures(reply, (record_type, object_id, request_id, payload), r),
        call_ensures(acknowledge, (object_id, request_id), done),
    ensures
        r matches Ok(record) ==> record_view(record).0 == record_type && record_view(record).1 == object_id
            && envelope_bytes(request_id, payload_view(payload@)) == Some(record_view(record).2),
        r is Ok <==> envelope_bytes(request_id, payload_view(payload@)) is Some,
        done matches Ok(record) && record_view(record).0 == 3 && record_view(record).1 == object_id
            && record_view(record).2 == ok_bytes(request_id),
{
}

/// An operation is let through where the context is there and its class is granted, and is otherwise
/// answered as if the context were not there.
pub proof fn an_operation_is_let_through_by_its_class(
    session: &Session,
    context_id: u64,
    operation: u64,
    r: Result<(), ControlError>,
)
    requires
        call_ensures(Session::require_context_operation, (session, context_id, operation), r),
    ensures
        r is Ok <==> operation_allowed(session.contexts.table@, context_id, operation),
        !session.contexts.table@.contains_key(context_id) ==> r is Err,
        r matches Err(error) ==> error.code == 8,
{
}

/// A refusal that is made up keeps the code and the words it is made with.
pub proof fn a_made_up_refusal_keeps_its_code(
    code: u64,
    message: &'static str,
    made: ControlError,
    state: ControlError,
    stale: ControlError,
)
    requires
        call_ensures(ControlError::with_code, (code, message), made),
        call_ensures(ControlError::state, (message,), state),
        call_ensures(ControlError::stale_target, (), stale),
    ensures
        made.code == code && made.message == message && made.track is None && made.trace_rejection,
        state.code == 6 && state.message == message && state.track is None,
        stale.code == 15 && stale.track is None,
{
}

} // verus!
