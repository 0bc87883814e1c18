//! Control records of surfaces.
//!
//! The scene keeps the surfaces. A record is read here, the scene is asked, and what the scene says
//! is answered here.

use vstd::prelude::*;
use vivid_protocol::cbor::Value;
use vivid_protocol::surface::SurfaceDefinition;

use crate::actor::OutgoingRecord;
use crate::context::OP_SURFACE_TRACK_MEDIA;
use crate::control::{
    acknowledge, acknowledgement, find_malformed, first_missing, is_reply, known_number, malformed,
    missing, number, operation_refusal, payload_value, reply, reply_of, surface_of,
    ControlError,
};
use crate::decoder::same_text;
use crate::drop_manager::{drops_removed, FileDropManager};
use crate::file_drop::Scope;
use crate::identity::SurfaceIdentity;
use crate::observe::{
    observe_surface, pushed, queue_view, surface_entry, SURFACE_CHANGED_GEOMETRY,
    SURFACE_CHANGED_LIFECYCLE,
};
use crate::protocol::{
    DESKTOP_CONTENT, ERROR_BAD_MESSAGE, ERROR_BAD_STATE, ERROR_NOT_FOUND, ERROR_UNSUPPORTED_CONFIG,
    GENERIC_CONTENT, SURFACE_READY, SURFACE_STATUS, TERMINAL_CONTENT,
};
use crate::session::Session;
use crate::value::{
    clone_value, entries_value, lookup, payload_view, text, unsigned, value_entries, value_view,
    ValueView,
};

verus! {

/// What a surface is, held by the protocol's own type.
#[verifier::external_type_specification]
#[verifier::external_body]
pub struct ExSurfaceDefinition(vivid_protocol::surface::SurfaceDefinition);

/// What the definition of a surface holds.
pub struct SurfaceView {
    pub context_id: u64,
    pub surface_id: u64,
    pub semantic_profile: Seq<char>,
    pub coordinate_model: u64,
    pub logical_width: u64,
    pub logical_height: u64,
    pub scale_numerator: u64,
    pub scale_denominator: u64,
    pub rotation: u16,
    pub descriptor: ValueView,
    pub policy: u64,
    pub profile_parameters: Seq<(u64, ValueView)>,
}

/// What the protocol's definition holds.
pub uninterp spec fn surface_view(definition: SurfaceDefinition) -> SurfaceView;

/// The definition that a payload is, where it is valid.
pub uninterp spec fn surface_decoded(object_id: u64, payload: ValueView) -> Option<SurfaceView>;

/// `vivid_protocol::surface::SurfaceDefinition::decode_create`: the definition depends on the object
/// ID and the payload, and is refused where it is not valid.
#[verifier::external_body]
fn decode_surface(object_id: u64, payload: &Value) -> (r: Option<SurfaceDefinition>)
    ensures
        match r {
            Some(definition) => surface_decoded(object_id, value_view(*payload)) == Some(
                surface_view(definition),
            ),
            None => surface_decoded(object_id, value_view(*payload)) is None,
        },
{
    SurfaceDefinition::decode_create(object_id, payload).ok()
}

/// The definition of a surface, in plain values.
pub struct SurfaceFields {
    pub context_id: u64,
    pub surface_id: u64,
    pub semantic_profile: String,
    pub coordinate_model: u64,
    pub logical_width: u64,
    pub logical_height: u64,
    pub scale_numerator: u64,
    pub scale_denominator: u64,
    pub rotation: u16,
    pub descriptor: Value,
    pub policy: u64,
    pub profile_parameters: Vec<(u64, Value)>,
}

impl View for SurfaceFields {
    type V = SurfaceView;

    open spec fn view(&self) -> SurfaceView {
        SurfaceView {
            context_id: self.context_id,
            surface_id: self.surface_id,
            semantic_profile: self.semantic_profile@,
            coordinate_model: self.coordinate_model,
            logical_width: self.logical_width,
            logical_height: self.logical_height,
            scale_numerator: self.scale_numerator,
            scale_denominator: self.scale_denominator,
            rotation: self.rotation,
            descriptor: value_view(self.descriptor),
            policy: self.policy,
            profile_parameters: payload_view(self.profile_parameters@),
        }
    }
}

/// The public fields of `vivid_protocol::surface::SurfaceDefinition`, moved over. The descriptor is
/// what `vivid_protocol::surface::SurfaceDescriptor::to_value` makes of it, or an empty map where it
/// refuses.
#[verifier::external_body]
fn surface_fields(definition: &SurfaceDefinition) -> (r: SurfaceFields)
    ensures
        r@ == surface_view(*definition),
{
    let descriptor = definition.descriptor.to_value().unwrap_or(Value::Map(Vec::new()));
    SurfaceFields {
        context_id: definition.context_id, surface_id: definition.surface_id,
        semantic_profile: definition.semantic_profile.clone(), coordinate_model: definition.coordinate_model as u64,
        logical_width: definition.logical_width, logical_height: definition.logical_height,
        scale_numerator: definition.scale_numerator, scale_denominator: definition.scale_denominator,
        rotation: definition.rotation, descriptor, policy: definition.policy,
        profile_parameters: definition.profile_parameters.clone(),
    }
}

/// The classes of input that a desktop surface declares, where its parameters are valid.
pub uninterp spec fn desktop_capabilities(parameters: Seq<(u64, ValueView)>) -> Option<u64>;

/// `vivid_protocol::surface::DesktopSurfaceParameters::decode`: the classes of input that it holds
/// depend on the parameters alone.
#[verifier::external_body]
fn decode_desktop(parameters: &Vec<(u64, Value)>) -> (r: Option<u64>)
    ensures
        r == desktop_capabilities(payload_view(parameters@)),
{
    let decoded = vivid_protocol::surface::DesktopSurfaceParameters::decode(parameters).ok()?;
    Some(decoded.input_capabilities)
}

/// The classes of input that a surface takes: only a desktop surface takes any.
pub fn desktop_capability_mask(definition: &SurfaceDefinition) -> (r: Option<u64>)
    ensures
        r == (if surface_view(*definition).semantic_profile == DESKTOP_CONTENT@ {
            desktop_capabilities(surface_view(*definition).profile_parameters)
        } else {
            None
        }),
{
    let fields = surface_fields(definition);
    if !same_text(fields.semantic_profile.as_str(), DESKTOP_CONTENT) {
        return None;
    }
    decode_desktop(&fields.profile_parameters)
}

/// What the scene says of a surface.
pub struct SurfaceStatus {
    pub identity: SurfaceIdentity,
    pub revision: u64,
    pub generation: u64,
    pub definition: SurfaceDefinition,
    /// The active track of each slot.
    pub active_slots: Vec<(u64, u64)>,
    pub lifecycle: u64,
}

/// The active tracks, by their slots.
pub open spec fn slot_fields(slots: Seq<(u64, u64)>) -> Seq<(u64, ValueView)> {
    slots.map_values(|slot: (u64, u64)| (slot.0, ValueView::Unsigned(slot.1)))
}

/// The active tracks, by their slots.
pub fn slot_payload(slots: &Vec<(u64, u64)>) -> (r: Vec<(u64, Value)>)
    ensures
        payload_view(r@) == slot_fields(slots@),
{
    let mut payload: Vec<(u64, Value)> = Vec::new();
    let mut index: usize = 0;
    while index < slots.len()
        invariant
            index <= slots@.len(),
            payload@.len() == index,
            forall|i: int|
                0 <= i < index ==> (#[trigger] payload@[i]).0 == slots@[i].0 && value_view(
                    payload@[i].1,
                ) == ValueView::Unsigned(slots@[i].1),
        decreases slots@.len() - index,
    {
        payload.push((slots[index].0, unsigned(slots[index].1)));
        index = index + 1;
    }
    assert(payload_view(payload@) =~= slot_fields(slots@));
    payload
}

/// What a producer is told of a surface that is ready.
pub open spec fn surface_ready_fields(status: SurfaceStatus) -> Seq<(u64, ValueView)> {
    let definition = surface_view(status.definition);
    seq![
        (0u64, ValueView::Unsigned(status.identity.context.context_id)),
        (1u64, ValueView::Unsigned(status.identity.surface_id)),
        (2u64, ValueView::Unsigned(status.revision)),
        (3u64, ValueView::Unsigned(status.generation)),
        (4u64, ValueView::Unsigned(definition.policy)),
        (5u64, ValueView::Entries(definition.profile_parameters)),
    ]
}

/// What a producer is told of a surface that is ready.
pub fn surface_ready_payload(status: &SurfaceStatus) -> (r: Vec<(u64, Value)>)
    ensures
        payload_view(r@) == surface_ready_fields(*status),
{
    let fields = surface_fields(&status.definition);
    let payload = vec![
        (0u64, unsigned(status.identity.context.context_id)),
        (1u64, unsigned(status.identity.surface_id)),
        (2u64, unsigned(status.revision)),
        (3u64, unsigned(status.generation)),
        (4u64, unsigned(fields.policy)),
        (5u64, entries_value(fields.profile_parameters)),
    ];
    assert(payload_view(payload@) =~= surface_ready_fields(*status));
    payload
}

/// What a producer is told of a surface that it asks for.
pub open spec fn surface_status_fields(status: SurfaceStatus) -> Seq<(u64, ValueView)> {
    let definition = surface_view(status.definition);
    seq![
        (0u64, ValueView::Unsigned(status.identity.context.context_id)),
        (1u64, ValueView::Unsigned(status.identity.surface_id)),
        (2u64, ValueView::Unsigned(status.revision)),
        (3u64, ValueView::Unsigned(status.generation)),
        (4u64, ValueView::Text(definition.semantic_profile)),
        (5u64, ValueView::Unsigned(definition.coordinate_model)),
        (6u64, ValueView::Unsigned(definition.logical_width)),
        (7u64, ValueView::Unsigned(definition.logical_height)),
        (8u64, ValueView::Unsigned(definition.scale_numerator)),
        (9u64, ValueView::Unsigned(definition.scale_denominator)),
        (10u64, ValueView::Unsigned(definition.rotation as u64)),
        (11u64, definition.descriptor),
        (12u64, ValueView::Unsigned(definition.policy)),
        (13u64, ValueView::Entries(slot_fields(status.active_slots@))),
        (14u64, ValueView::Unsigned(status.lifecycle)),
        (15u64, ValueView::Entries(definition.profile_parameters)),
    ]
}

/// What a producer is told of a surface that it asks for.
pub fn surface_status_payload(status: &SurfaceStatus) -> (r: Vec<(u64, Value)>)
    ensures
        payload_view(r@) == surface_status_fields(*status),
{
    let fields = surface_fields(&status.definition);
    let payload = vec![
        (0u64, unsigned(status.identity.context.context_id)),
        (1u64, unsigned(status.identity.surface_id)),
        (2u64, unsigned(status.revision)),
        (3u64, unsigned(status.generation)),
        (4u64, text(fields.semantic_profile.as_str())),
        (5u64, unsigned(fields.coordinate_model)),
        (6u64, unsigned(fields.logical_width)),
        (7u64, unsigned(fields.logical_height)),
        (8u64, unsigned(fields.scale_numerator)),
        (9u64, unsigned(fields.scale_denominator)),
        (10u64, unsigned(fields.rotation as u64)),
        (11u64, fields.descriptor),
        (12u64, unsigned(fields.policy)),
        (13u64, entries_value(slot_payload(&status.active_slots))),
        (14u64, unsigned(status.lifecycle)),
        (15u64, entries_value(fields.profile_parameters)),
    ];
    assert(payload_view(payload@) =~= surface_status_fields(*status));
    payload
}

/// Whether the presenter shows this kind of content.
pub open spec fn presentable(semantic_profile: Seq<char>) -> bool {
    semantic_profile == GENERIC_CONTENT@ || semantic_profile == TERMINAL_CONTENT@
        || semantic_profile == DESKTOP_CONTENT@
}

/// Why a surface is not made before the scene is asked, if it is not, else which one is.
pub open spec fn surface_request(session: Session, object_id: u64, payload: ValueView) -> Result<
    SurfaceIdentity,
    ControlError,
> {
    match surface_decoded(object_id, payload) {
        None => Err(ControlError::coded(ERROR_BAD_MESSAGE, "invalid surface definition")),
        Some(definition) => match operation_refusal(
            session,
            definition.context_id,
            OP_SURFACE_TRACK_MEDIA,
        ) {
            Some(error) => Err(error),
            None => if !presentable(definition.semantic_profile) {
                Err(
                    ControlError::coded(
                        ERROR_UNSUPPORTED_CONFIG,
                        "Vivido presents generic, terminal, and desktop content surfaces",
                    ),
                )
            } else {
                surface_of(session, definition.context_id, definition.surface_id)
            },
        },
    }
}

/// Read a request for a surface.
pub fn read_surface(session: &Session, object_id: u64, value: &Value) -> (r: Result<
    (SurfaceIdentity, SurfaceDefinition),
    ControlError,
>)
    requires
        session.wf(),
    ensures
        match r {
            Ok((surface, definition)) => surface_request(*session, object_id, value_view(*value))
                == Ok::<SurfaceIdentity, ControlError>(surface) && surface_decoded(
                object_id,
                value_view(*value),
            ) == Some(surface_view(definition)),
            Err(error) => surface_request(*session, object_id, value_view(*value)) == Err::<
                SurfaceIdentity,
                ControlError,
            >(error),
        },
{
    let definition = match decode_surface(object_id, value) {
        Some(definition) => definition,
        None => {
            return Err(ControlError::bad_message("invalid surface definition"));
        },
    };
    let fields = surface_fields(&definition);
    if let Err(error) = session.require_context_operation(
        fields.context_id,
        OP_SURFACE_TRACK_MEDIA,
    ) {
        return Err(error);
    }
    let profile = fields.semantic_profile.as_str();
    if !same_text(profile, GENERIC_CONTENT) && !same_text(profile, TERMINAL_CONTENT) && !same_text(
        profile,
        DESKTOP_CONTENT,
    ) {
        return Err(
            ControlError::unsupported(
                "Vivido presents generic, terminal, and desktop content surfaces",
            ),
        );
    }
    match session.surface_identity(fields.context_id, fields.surface_id) {
        Ok(surface) => Ok((surface, definition)),
        Err(error) => Err(error),
    }
}

/// Whether what changed of a surface was noted for a session, and nothing else changed of it.
pub open spec fn surface_noted(before: Session, after: Session, status: SurfaceStatus, changed: u64) -> bool {
    &&& after == (Session { observations: after.observations, ..before })
    &&& queue_view(after.observations) == pushed(
        queue_view(before.observations),
        surface_entry(status.identity, status.revision, status.generation, changed),
    )
}

/// Answer a request for a surface with what the scene made of it.
pub fn answer_surface(
    session: &mut Session,
    outcome: Result<SurfaceStatus, &'static str>,
    object_id: u64,
    request_id: u64,
) -> (r: Result<OutgoingRecord, ControlError>)
    requires
        old(session).wf(),
    ensures
        final(session).wf(),
        match outcome {
            Ok(status) => surface_noted(
                *old(session),
                *final(session),
                status,
                SURFACE_CHANGED_LIFECYCLE,
            ) && is_reply(
                r,
                reply_of(SURFACE_READY, object_id, request_id, surface_ready_fields(status)),
            ),
            Err(message) => *final(session) == *old(session) && r == Err::<
                OutgoingRecord,
                ControlError,
            >(ControlError::coded(ERROR_BAD_STATE, message)),
        },
{
    match outcome {
        Ok(status) => {
            observe_surface(
                &mut session.observations,
                status.identity,
                status.revision,
                status.generation,
                SURFACE_CHANGED_LIFECYCLE,
            );
            reply(SURFACE_READY, object_id, request_id, surface_ready_payload(&status))
        },
        Err(message) => Err(ControlError::state(message)),
    }
}

/// What a surface is changed to. Its kind and its coordinates stay.
pub struct SurfaceUpdate {
    pub revision: u64,
    pub generation: u64,
    pub logical_width: u64,
    pub logical_height: u64,
    pub scale_numerator: u64,
    pub scale_denominator: u64,
    pub rotation: u16,
    pub descriptor: Value,
    pub policy: u64,
    pub profile_parameters: Vec<(u64, Value)>,
}

/// Whether a value describes a surface.
pub uninterp spec fn descriptor_valid(value: ValueView) -> bool;

/// `vivid_protocol::surface::SurfaceDescriptor::from_value`: whether a value is a descriptor depends
/// on the value alone.
#[verifier::external_body]
fn validate_descriptor(value: &Value) -> (r: bool)
    ensures
        r == descriptor_valid(value_view(*value)),
{
    vivid_protocol::surface::SurfaceDescriptor::from_value(value).is_ok()
}

/// The keys of a change of a surface.
pub open spec fn update_keys() -> Seq<u64> {
    seq![0u64, 1, 2, 3, 4, 5, 6, 7, 8, 9, 10, 11]
}

/// What is wrong with the geometry of a change, if anything is.
pub open spec fn geometry_error(payload: Seq<(u64, ValueView)>) -> Option<&'static str> {
    let lacking = missing(
        payload,
        seq![
            (4u64, "width"),
            (5u64, "height"),
            (6u64, "scale"),
            (7u64, "scale"),
            (8u64, "rotation"),
        ],
    );
    if lacking is Some {
        lacking
    } else if number(payload, 8) > u16::MAX {
        Some("rotation")
    } else {
        None
    }
}

/// What is wrong with the rest of a change, if anything is.
pub open spec fn content_error(payload: Seq<(u64, ValueView)>) -> Option<&'static str> {
    if !(lookup(payload, 9) matches Some(descriptor) && descriptor_valid(descriptor)) {
        Some("descriptor")
    } else if missing(payload, seq![(10u64, "policy")]) is Some {
        Some("policy")
    } else if !(lookup(payload, 11) matches Some(parameters) && parameters is Entries) {
        Some("profile parameters")
    } else {
        missing(payload, seq![(2u64, "revision"), (3u64, "generation")])
    }
}

/// Whether an update is the one that a payload asks for.
pub open spec fn is_update(update: SurfaceUpdate, payload: Seq<(u64, ValueView)>) -> bool {
    &&& update.revision == number(payload, 2)
    &&& update.generation == number(payload, 3)
    &&& update.logical_width == number(payload, 4)
    &&& update.logical_height == number(payload, 5)
    &&& update.scale_numerator == number(payload, 6)
    &&& update.scale_denominator == number(payload, 7)
    &&& update.rotation == number(payload, 8)
    &&& lookup(payload, 9) == Some(value_view(update.descriptor))
    &&& update.policy == number(payload, 10)
    &&& lookup(payload, 11) == Some(
        ValueView::Entries(payload_view(update.profile_parameters@)),
    )
}

/// Which surface a change is for.
pub open spec fn updated_surface(session: Session, payload: Seq<(u64, ValueView)>) -> Result<
    SurfaceIdentity,
    ControlError,
> {
    match malformed(
        payload,
        update_keys(),
        "invalid surface update",
        seq![(0u64, "context"), (1u64, "surface")],
    ) {
        Some(message) => Err(ControlError::coded(ERROR_BAD_MESSAGE, message)),
        None => surface_of(session, number(payload, 0), number(payload, 1)),
    }
}

/// Read which surface a change is for.
pub fn read_updated_surface(session: &Session, payload: &Vec<(u64, Value)>) -> (r: Result<
    SurfaceIdentity,
    ControlError,
>)
    requires
        session.wf(),
    ensures
        r == updated_surface(*session, payload_view(payload@)),
{
    let allowed: [u64; 12] = [0, 1, 2, 3, 4, 5, 6, 7, 8, 9, 10, 11];
    let wanted = vec![(0u64, "context"), (1u64, "surface")];
    assert(allowed@ =~= update_keys());
    assert(wanted@ =~= seq![(0u64, "context"), (1u64, "surface")]);
    if let Some(message) = find_malformed(payload, &allowed, "invalid surface update", &wanted) {
        return Err(ControlError::bad_message(message));
    }
    session.surface_identity(known_number(payload, 0), known_number(payload, 1))
}

/// Read what a surface that the scene has is changed to. The scene tells whether it has it.
pub fn read_update(present: bool, payload: &Vec<(u64, Value)>) -> (r: Result<SurfaceUpdate, ControlError>)
    ensures
        ({
            let fields = payload_view(payload@);
            if !present {
                r == Err::<SurfaceUpdate, ControlError>(
                    ControlError::coded(ERROR_NOT_FOUND, "surface does not exist"),
                )
            } else if geometry_error(fields) is Some {
                r == Err::<SurfaceUpdate, ControlError>(
                    ControlError::coded(ERROR_BAD_MESSAGE, geometry_error(fields)->0),
                )
            } else if content_error(fields) is Some {
                r == Err::<SurfaceUpdate, ControlError>(
                    ControlError::coded(ERROR_BAD_MESSAGE, content_error(fields)->0),
                )
            } else {
                r matches Ok(update) && is_update(update, fields)
            }
        }),
{
    if !present {
        return Err(ControlError::not_found("surface does not exist"));
    }
    let geometry = vec![
        (4u64, "width"),
        (5u64, "height"),
        (6u64, "scale"),
        (7u64, "scale"),
        (8u64, "rotation"),
    ];
    assert(geometry@ =~= seq![
        (4u64, "width"),
        (5u64, "height"),
        (6u64, "scale"),
        (7u64, "scale"),
        (8u64, "rotation"),
    ]);
    if let Some(message) = first_missing(payload, &geometry) {
        return Err(ControlError::bad_message(message));
    }
    let rotation = known_number(payload, 8);
    if rotation > u16::MAX as u64 {
        return Err(ControlError::bad_message("rotation"));
    }
    let descriptor = match payload_value(payload, 9) {
        Some(descriptor) => if validate_descriptor(descriptor) {
            clone_value(descriptor)
        } else {
            return Err(ControlError::bad_message("descriptor"));
        },
        None => {
            return Err(ControlError::bad_message("descriptor"));
        },
    };
    let policy = vec![(10u64, "policy")];
    assert(policy@ =~= seq![(10u64, "policy")]);
    if first_missing(payload, &policy).is_some() {
        return Err(ControlError::bad_message("policy"));
    }
    let profile_parameters = match payload_value(payload, 11) {
        Some(parameters) => match value_entries(parameters) {
            Some(entries) => entries,
            None => {
                return Err(ControlError::bad_message("profile parameters"));
            },
        },
        None => {
            return Err(ControlError::bad_message("profile parameters"));
        },
    };
    let expected = vec![(2u64, "revision"), (3u64, "generation")];
    assert(expected@ =~= seq![(2u64, "revision"), (3u64, "generation")]);
    if let Some(message) = first_missing(payload, &expected) {
        return Err(ControlError::bad_message(message));
    }
    Ok(
        SurfaceUpdate {
            revision: known_number(payload, 2),
            generation: known_number(payload, 3),
            logical_width: known_number(payload, 4),
            logical_height: known_number(payload, 5),
            scale_numerator: known_number(payload, 6),
            scale_denominator: known_number(payload, 7),
            rotation: rotation as u16,
            descriptor,
            policy: known_number(payload, 10),
            profile_parameters,
        },
    )
}

/// Whether what is known of drops on a surface was forgotten.
pub open spec fn surface_drops_removed(
    before: FileDropManager,
    after: FileDropManager,
    session: Session,
    surface: SurfaceIdentity,
) -> bool {
    drops_removed(
        before,
        after,
        session.identity,
        Scope::Surface(surface.context.context_id, surface.surface_id),
    ) && after.grant_generations == before.grant_generations
}

/// Answer a change of a surface with what the scene made of it. A surface that became another
/// generation takes its drops along.
pub fn answer_update(
    session: &mut Session,
    manager: &mut FileDropManager,
    surface: SurfaceIdentity,
    earlier_generation: u64,
    outcome: Result<SurfaceStatus, &'static str>,
    object_id: u64,
    request_id: u64,
) -> (r: Result<OutgoingRecord, ControlError>)
    requires
        old(session).wf(),
        old(manager).wf(),
    ensures
        final(session).wf(),
        final(manager).wf(),
        match outcome {
            Ok(status) => {
                &&& surface_noted(
                    *old(session),
                    *final(session),
                    status,
                    SURFACE_CHANGED_GEOMETRY,
                )
                &&& if status.generation != earlier_generation {
                    surface_drops_removed(*old(manager), *final(manager), *old(session), surface)
                } else {
                    *final(manager) == *old(manager)
                }
                &&& is_reply(r, acknowledgement(object_id, request_id))
            },
            Err(message) => *final(session) == *old(session) && *final(manager) == *old(manager)
                && r == Err::<OutgoingRecord, ControlError>(
                ControlError::coded(ERROR_BAD_STATE, message),
            ),
        },
{
    match outcome {
        Ok(status) => {
            if status.generation != earlier_generation {
                manager.remove_surface(
                    session.identity,
                    surface.context.context_id,
                    surface.surface_id,
                );
            }
            observe_surface(
                &mut session.observations,
                status.identity,
                status.revision,
                status.generation,
                SURFACE_CHANGED_GEOMETRY,
            );
            acknowledge(object_id, request_id)
        },
        Err(message) => Err(ControlError::state(message)),
    }
}

/// Answer the destruction of a surface. The scene tells what the surface was and whether it could be
/// destroyed.
pub fn answer_destroyed_surface(
    session: &mut Session,
    manager: &mut FileDropManager,
    surface: SurfaceIdentity,
    earlier: Option<SurfaceStatus>,
    outcome: Result<(), &'static str>,
    object_id: u64,
    request_id: u64,
) -> (r: Result<OutgoingRecord, ControlError>)
    requires
        old(session).wf(),
        old(manager).wf(),
    ensures
        final(session).wf(),
        final(manager).wf(),
        match earlier {
            Some(status) => surface_noted(
                *old(session),
                *final(session),
                status,
                SURFACE_CHANGED_LIFECYCLE,
            ),
            None => *final(session) == *old(session),
        },
        match outcome {
            Ok(_) => surface_drops_removed(*old(manager), *final(manager), *old(session), surface)
                && is_reply(r, acknowledgement(object_id, request_id)),
            Err(message) => *final(manager) == *old(manager) && r == Err::<
                OutgoingRecord,
                ControlError,
            >(ControlError::coded(ERROR_BAD_STATE, message)),
        },
{
    if let Some(status) = earlier {
        observe_surface(
            &mut session.observations,
            status.identity,
            status.revision,
            status.generation,
            SURFACE_CHANGED_LIFECYCLE,
        );
    }
    match outcome {
        Ok(_) => {
            manager.remove_surface(session.identity, surface.context.context_id, surface.surface_id);
            acknowledge(object_id, request_id)
        },
        Err(message) => Err(ControlError::state(message)),
    }
}

/// Answer a query for a surface with what the scene says of it.
pub fn answer_surface_query(status: Option<SurfaceStatus>, object_id: u64, request_id: u64) -> (r: Result<
    OutgoingRecord,
    ControlError,
>)
    ensures
        match status {
            Some(status) => is_reply(
                r,
                reply_of(SURFACE_STATUS, object_id, request_id, surface_status_fields(status)),
            ),
            None => r == Err::<OutgoingRecord, ControlError>(
                ControlError::coded(ERROR_NOT_FOUND, "surface does not exist"),
            ),
        },
{
    match status {
        Some(status) => reply(
            SURFACE_STATUS,
            object_id,
            request_id,
            surface_status_payload(&status),
        ),
        None => Err(ControlError::not_found("surface does not exist")),
    }
}

/// A status tells everything of a surface under its own number: whose it is, its revision and its
/// generation, its size, scale and rotation, and what it shows.
pub proof fn a_surface_status_tells_everything_in_its_place(
    status: &SurfaceStatus,
    r: Vec<(u64, Value)>,
)
    requires
        call_ensures(surface_status_payload, (status,), r),
    ensures
        ({
            let fields = payload_view(r@);
            let definition = surface_view(status.definition);
            &&& fields.len() == 16
            &&& forall|i: int| 0 <= i < 16 ==> (#[trigger] fields[i]).0 == i
            &&& fields[0].1 == ValueView::Unsigned(status.identity.context.context_id)
            &&& fields[1].1 == ValueView::Unsigned(status.identity.surface_id)
            &&& fields[2].1 == ValueView::Unsigned(status.revision)
            &&& fields[3].1 == ValueView::Unsigned(status.generation)
            &&& fields[4].1 == ValueView::Text(definition.semantic_profile)
            &&& fields[5].1 == ValueView::Unsigned(definition.coordinate_model)
            &&& fields[6].1 == ValueView::Unsigned(definition.logical_width)
            &&& fields[7].1 == ValueView::Unsigned(definition.logical_height)
            &&& fields[8].1 == ValueView::Unsigned(definition.scale_numerator)
            &&& fields[9].1 == ValueView::Unsigned(definition.scale_denominator)
            &&& fields[10].1 == ValueView::Unsigned(definition.rotation as u64)
            &&& fields[11].1 == definition.descriptor
            &&& fields[12].1 == ValueView::Unsigned(definition.policy)
            &&& fields[13].1 == ValueView::Entries(slot_fields(status.active_slots@))
            &&& fields[14].1 == ValueView::Unsigned(status.lifecycle)
            &&& fields[15].1 == ValueView::Entries(definition.profile_parameters)
        }),
{
}

/// A surface that was made is answered with its own names, its revision and its generation.
pub proof fn a_ready_surface_is_named_in_its_place(status: &SurfaceStatus, r: Vec<(u64, Value)>)
    requires
        call_ensures(surface_ready_payload, (status,), r),
    ensures
        ({
            let fields = payload_view(r@);
            let definition = surface_view(status.definition);
            &&& fields.len() == 6
            &&& forall|i: int| 0 <= i < 6 ==> (#[trigger] fields[i]).0 == i
            &&& fields[0].1 == ValueView::Unsigned(status.identity.context.context_id)
            &&& fields[1].1 == ValueView::Unsigned(status.identity.surface_id)
            &&& fields[2].1 == ValueView::Unsigned(status.revision)
            &&& fields[3].1 == ValueView::Unsigned(status.generation)
            &&& fields[4].1 == ValueView::Unsigned(definition.policy)
            &&& fields[5].1 == ValueView::Entries(definition.profile_parameters)
        }),
{
}

/// Each active slot is told with the track that is in it.
pub proof fn each_slot_is_told_with_its_track(slots: &Vec<(u64, u64)>, r: Vec<(u64, Value)>, i: int)
    requires
        call_ensures(slot_payload, (slots,), r),
        0 <= i < slots@.len(),
    ensures
        r@.len() == slots@.len(),
        payload_view(r@)[i] == (slots@[i].0, ValueView::Unsigned(slots@[i].1)),
{
    assert(payload_view(r@).len() == slot_fields(slots@).len());
}

/// An update changes a surface to what it names, each under its own number.
pub proof fn an_update_says_what_becomes_of_a_surface(
    present: bool,
    payload: &Vec<(u64, Value)>,
    r: Result<SurfaceUpdate, ControlError>,
)
    requires
        call_ensures(read_update, (present, payload), r),
    ensures
        !present ==> r is Err && r->Err_0.code == 8,
        present && r is Err ==> r->Err_0.code == 5,
        r matches Ok(update) ==> {
            let fields = payload_view(payload@);
            &&& crate::value::number_at(fields, 2) == Some(update.revision)
            &&& crate::value::number_at(fields, 3) == Some(update.generation)
            &&& crate::value::number_at(fields, 4) == Some(update.logical_width)
            &&& crate::value::number_at(fields, 5) == Some(update.logical_height)
            &&& crate::value::number_at(fields, 6) == Some(update.scale_numerator)
            &&& crate::value::number_at(fields, 7) == Some(update.scale_denominator)
            &&& crate::value::number_at(fields, 8) == Some(update.rotation as u64)
            &&& lookup(fields, 9) == Some(value_view(update.descriptor))
            &&& crate::value::number_at(fields, 10) == Some(update.policy)
        },
{
    reveal_with_fuel(missing, 6);
    let geometry = seq![
        (4u64, "width"),
        (5u64, "height"),
        (6u64, "scale"),
        (7u64, "scale"),
        (8u64, "rotation"),
    ];
    assert(geometry.drop_first()[0] == geometry[1]);
    assert(geometry.drop_first().drop_first()[0] == geometry[2]);
    assert(geometry.drop_first().drop_first().drop_first()[0] == geometry[3]);
    assert(geometry.drop_first().drop_first().drop_first().drop_first()[0] == geometry[4]);
    let counted = seq![(2u64, "revision"), (3u64, "generation")];
    assert(counted.drop_first()[0] == counted[1]);
}

/// A surface is presented for three kinds of content and no other.
pub proof fn three_kinds_of_content_are_presented(semantic_profile: Seq<char>)
    ensures
        presentable("generic-content-v1"@),
        presentable("terminal-content-v1"@),
        presentable("desktop-content-v1"@),
        presentable(semantic_profile) ==> semantic_profile == "generic-content-v1"@
            || semantic_profile == "terminal-content-v1"@ || semantic_profile
            == "desktop-content-v1"@,
{
}

/// What a surface can do with input is asked of desktop content only.
pub proof fn only_desktop_content_takes_input(definition: &SurfaceDefinition, r: Option<u64>)
    requires
        call_ensures(desktop_capability_mask, (definition,), r),
    ensures
        surface_view(*definition).semantic_profile != "desktop-content-v1"@ ==> r is None,
        surface_view(*definition).semantic_profile == "desktop-content-v1"@ ==> r
            == desktop_capabilities(surface_view(*definition).profile_parameters),
{
}

/// A surface that was made is answered for with its state, and the change is noted for whoever
/// observes. One that could not be made is refused with what the scene said, and nothing is noted.
pub proof fn a_made_surface_is_answered_for(
    session: &mut Session,
    outcome: Result<SurfaceStatus, &'static str>,
    object_id: u64,
    request_id: u64,
    r: Result<OutgoingRecord, ControlError>,
)
    requires
        call_ensures(answer_surface, (session, outcome, object_id, request_id), r),
    ensures
        outcome is Ok ==> queue_view(final(session).observations) == pushed(
            queue_view(old(session).observations),
            surface_entry(
                outcome->Ok_0.identity,
                outcome->Ok_0.revision,
                outcome->Ok_0.generation,
                1,
            ),
        ),
        outcome is Ok && r is Ok ==> crate::actor::record_view(r->Ok_0).0 == 0x0101 && crate::actor::record_view(r->Ok_0).1
            == object_id && crate::reply::envelope_bytes(request_id, surface_ready_fields(outcome->Ok_0)) == Some(
            crate::actor::record_view(r->Ok_0).2,
        ),
        outcome matches Err(message) ==> *final(session) == *old(session) && (r matches Err(error)
            && error.code == 6 && error.message == message),
{
}

/// A changed surface keeps its drops as long as it keeps its generation, and loses them with it.
pub proof fn a_surface_keeps_its_drops_with_its_generation(
    session: &mut Session,
    manager: &mut FileDropManager,
    surface: SurfaceIdentity,
    earlier_generation: u64,
    outcome: Result<SurfaceStatus, &'static str>,
    object_id: u64,
    request_id: u64,
    r: Result<OutgoingRecord, ControlError>,
    binding: crate::file_drop::BindingKey,
)
    requires
        call_ensures(
            answer_update,
            (session, manager, surface, earlier_generation, outcome, object_id, request_id),
            r,
        ),
    ensures
        outcome is Ok && outcome->Ok_0.generation == earlier_generation ==> *final(manager) == *old(manager),
        outcome is Ok && outcome->Ok_0.generation != earlier_generation && binding.session == old(session).identity && binding.context_id == surface.context.context_id && binding.surface_id
            == surface.surface_id ==> !final(manager).bindings@.contains_key(binding),
        outcome is Ok && !(binding.session == old(session).identity && binding.context_id
            == surface.context.context_id && binding.surface_id == surface.surface_id) ==> final(manager).bindings@.contains_key(binding) == old(manager).bindings@.contains_key(binding),
        outcome is Ok ==> (r matches Ok(record) && crate::actor::record_view(record) == (
            0x0003u16,
            object_id,
            crate::reply::ok_bytes(request_id),
        )),
        outcome is Ok ==> queue_view(final(session).observations) == pushed(
            queue_view(old(session).observations),
            surface_entry(
                outcome->Ok_0.identity,
                outcome->Ok_0.revision,
                outcome->Ok_0.generation,
                2,
            ),
        ),
        outcome matches Err(message) ==> *final(session) == *old(session) && *final(manager) == *old(manager) && (r matches Err(error) && error.code == 6 && error.message == message),
{
}

/// A surface that is gone takes its drops along and is acknowledged. One that could not go keeps them.
pub proof fn a_destroyed_surface_takes_its_drops_along(
    session: &mut Session,
    manager: &mut FileDropManager,
    surface: SurfaceIdentity,
    earlier: Option<SurfaceStatus>,
    outcome: Result<(), &'static str>,
    object_id: u64,
    request_id: u64,
    r: Result<OutgoingRecord, ControlError>,
    binding: crate::file_drop::BindingKey,
)
    requires
        call_ensures(
            answer_destroyed_surface,
            (session, manager, surface, earlier, outcome, object_id, request_id),
            r,
        ),
    ensures
        outcome is Ok ==> (r matches Ok(record) && crate::actor::record_view(record) == (
            0x0003u16,
            object_id,
            crate::reply::ok_bytes(request_id),
        )),
        outcome is Ok && binding.session == old(session).identity && binding.context_id
            == surface.context.context_id && binding.surface_id == surface.surface_id ==> !final(manager).bindings@.contains_key(binding),
        outcome matches Err(message) ==> *final(manager) == *old(manager) && (r matches Err(error)
            && error.code == 6 && error.message == message),
        earlier is None ==> *final(session) == *old(session),
        earlier matches Some(status) ==> queue_view(final(session).observations) == pushed(
            queue_view(old(session).observations),
            surface_entry(status.identity, status.revision, status.generation, 1),
        ),
{
}

/// The state of a surface is told under its own record type, and one that is not there is not found.
pub proof fn a_surface_query_is_answered(
    status: Option<SurfaceStatus>,
    object_id: u64,
    request_id: u64,
    r: Result<OutgoingRecord, ControlError>,
)
    requires
        call_ensures(answer_surface_query, (status, object_id, request_id), r),
    ensures
        status is None ==> (r matches Err(error) && error.code == 8),
        status is Some && r is Ok ==> crate::actor::record_view(r->Ok_0).0 == 0x0105 && crate::actor::record_view(r->Ok_0).1
            == object_id && crate::reply::envelope_bytes(request_id, surface_status_fields(status->0)) == Some(
            crate::actor::record_view(r->Ok_0).2,
        ),
{
}

} // verus!
