//! Desktop input: who may receive it, and what is sent of it.
//!
//! A producer asks for input, the presenter knows whether it may be granted, and the grant is what
//! both allow. The grant itself is kept by the protocol's own type.

use vstd::prelude::*;
use vivid_protocol::cbor::Value;
use vivid_protocol::grant::InputGrant;
use vivid_protocol::messages::MessageError;

use crate::protocol::{
    ERROR_BAD_STATE, INPUT_LEASE_RENEW, INPUT_REVOKED, KEY_INPUT, POINTER_AXIS,
    POINTER_BUTTON, POINTER_MOTION,
};
use crate::reply::{envelope, envelope_bytes, error_bytes, protocol_error, Unencodable};
use crate::value::{
    boolean, payload_view, signed, signed_view, unsigned, value_view, ValueView,
};

verus! {

/// The class of key events.
pub const INPUT_CLASS_KEYBOARD: u64 = 1;

/// The class of pointer motion.
pub const INPUT_CLASS_POINTER_MOTION: u64 = 2;

/// The class of pointer buttons.
pub const INPUT_CLASS_POINTER_BUTTON: u64 = 4;

/// The class of scrolling.
pub const INPUT_CLASS_POINTER_AXIS: u64 = 8;

/// Input was revoked because its lane was lost.
pub const REASON_LANE_LOSS: u64 = 6;

/// What a producer asks for.
#[derive(Debug, Clone, Copy, PartialEq, Eq, Structural)]
pub struct InputRequest {
    pub producer_epoch: u64,
    pub context_id: u64,
    pub surface_id: u64,
    pub surface_generation: u64,
    pub requested_classes: u64,
    pub reason: u64,
    pub requested_watchdog_us: u64,
}

impl InputRequest {
    /// Whether the producer wants no input.
    pub open spec fn disables(self) -> bool {
        self.context_id == 0 && self.surface_id == 0 && self.surface_generation == 0
            && self.requested_classes == 0
    }
}

/// What the presenter knows about whether it may grant input.
#[derive(Debug, Clone, Copy, PartialEq, Eq, Structural)]
pub struct Eligible {
    pub focused: bool,
    pub consented: bool,
    pub surface_present: bool,
    pub surface_generation: u64,
    pub capability_mask: u64,
    pub presented: bool,
    pub lane_live: bool,
    pub may_receive_input: bool,
}

/// Whether the presenter may not grant what is asked for.
pub open spec fn refused(request: InputRequest, eligible: Eligible) -> bool {
    !eligible.lane_live || !eligible.may_receive_input || !eligible.surface_present
        || request.surface_generation != eligible.surface_generation || !eligible.presented
        || !eligible.focused || !eligible.consented || request.requested_classes
        & eligible.capability_mask == 0
}

/// The input request that a payload holds, where it is valid.
pub uninterp spec fn input_decoded(object_id: u64, payload: ValueView) -> Option<InputRequest>;

/// `vivid_protocol::input::InputBinding::decode`: the request depends on the object ID and the
/// payload, and is refused where it is not valid.
#[verifier::external_body]
fn decode_input(object_id: u64, payload: &Value) -> (r: Result<InputRequest, MessageError>)
    ensures
        match r {
            Ok(request) => input_decoded(object_id, value_view(*payload)) == Some(request),
            Err(_) => input_decoded(object_id, value_view(*payload)) is None,
        },
{
    let binding = vivid_protocol::input::InputBinding::decode(object_id, payload)?;
    Ok(InputRequest {
        producer_epoch: binding.producer_epoch.get(),
        context_id: binding.context_id,
        surface_id: binding.surface_id,
        surface_generation: binding.surface_generation.get(),
        requested_classes: binding.requested_classes,
        reason: binding.reason,
        requested_watchdog_us: binding.requested_watchdog_us,
    })
}

/// The input request that a payload holds.
pub fn read_input(object_id: u64, payload: &Value) -> (r: Option<InputRequest>)
    ensures
        r == input_decoded(object_id, value_view(*payload)),
{
    match decode_input(object_id, payload) {
        Ok(request) => Some(request),
        Err(_) => None,
    }
}

/// A session's grant, held by the protocol's own type.
#[verifier::external_type_specification]
#[verifier::external_body]
pub struct ExInputGrant(vivid_protocol::grant::InputGrant);

/// A grant in force.
#[derive(Debug, Clone, Copy, PartialEq, Eq, Structural)]
pub struct ActiveGrant {
    pub producer_epoch: u64,
    pub grant_generation: u64,
    pub context_id: u64,
    pub surface_id: u64,
    pub surface_generation: u64,
    pub effective_classes: u64,
    pub watchdog_timeout_us: u64,
    pub watchdog_deadline_us: u64,
}

/// The grant in force, if there is one.
pub uninterp spec fn active_grant(grant: InputGrant) -> Option<ActiveGrant>;

/// A grant after a request that it takes.
pub uninterp spec fn grant_applied(
    grant: InputGrant,
    request: InputRequest,
    eligible: Eligible,
    now_us: u64,
) -> Option<InputGrant>;

/// What a producer is told of a grant.
pub uninterp spec fn bound_fields(grant: InputGrant, producer_epoch: u64) -> Seq<(u64, ValueView)>;

/// The renewal that is due, by its number and its length, and the grant after it.
pub uninterp spec fn grant_renewed(grant: InputGrant, now_us: u64) -> (InputGrant, Option<(u64, u64)>);

/// The generation that a grant gets when it is revoked, where it can be counted further.
pub uninterp spec fn revoked_generation(grant: InputGrant) -> Option<u64>;

/// A grant in force after it is revoked for a reason, where generations can be counted further.
pub uninterp spec fn grant_revoked(grant: InputGrant, reason: u64) -> InputGrant;

/// `vivid_protocol::grant::InputGrant::new`: nothing is granted.
#[verifier::external_body]
pub(crate) fn new_grant() -> (r: InputGrant)
    ensures
        active_grant(r) is None,
{
    InputGrant::new()
}

/// Whether the grant in force after a request is the one that was in force before it, or what the
/// producer asked for and the presenter may grant.
pub open spec fn granted_within(
    before: Option<ActiveGrant>,
    after: Option<ActiveGrant>,
    request: InputRequest,
    eligible: Eligible,
) -> bool {
    match after {
        Some(active) => before == after || (!request.disables() && !refused(request, eligible)
            && active.producer_epoch == request.producer_epoch && active.context_id
            == request.context_id && active.surface_id == request.surface_id
            && active.surface_generation == request.surface_generation && active.effective_classes
            == request.requested_classes & eligible.capability_mask),
        None => true,
    }
}

/// `vivid_protocol::grant::InputGrant::apply`: the grant afterwards depends on the grant, the
/// request, the eligibility and the time, and a stale or inconsistent request changes nothing. A
/// grant that comes into force is of the request's epoch, surface and generation, has the classes
/// that both the request and the eligibility name, and is never one that the eligibility refuses.
#[verifier::external_body]
fn apply_request(
    grant: &mut InputGrant,
    request: &InputRequest,
    eligible: &Eligible,
    now_us: u64,
) -> (r: Result<(), MessageError>)
    ensures
        match r {
            Ok(_) => grant_applied(*old(grant), *request, *eligible, now_us) == Some(*final(grant)),
            Err(_) => grant_applied(*old(grant), *request, *eligible, now_us) is None
                && *final(grant) == *old(grant),
        },
        granted_within(
            active_grant(*old(grant)),
            active_grant(*final(grant)),
            *request,
            *eligible,
        ),
{
    let binding = vivid_protocol::input::InputBinding {
        producer_epoch: vivid_protocol::revision::InputEpoch::new(request.producer_epoch),
        context_id: request.context_id, surface_id: request.surface_id,
        surface_generation: vivid_protocol::revision::SurfaceGeneration::new(request.surface_generation),
        requested_classes: request.requested_classes, reason: request.reason,
        requested_watchdog_us: request.requested_watchdog_us,
    };
    let eligibility = vivid_protocol::grant::Eligibility {
        focused: eligible.focused, consented: eligible.consented, surface_present: eligible.surface_present,
        surface_generation: vivid_protocol::revision::SurfaceGeneration::new(eligible.surface_generation),
        capability_mask: eligible.capability_mask, presented: eligible.presented,
        lane_live: eligible.lane_live, may_receive_input: eligible.may_receive_input,
    };
    grant.apply(&binding, &eligibility, vivid_protocol::time::Monotonic::from_micros(now_us)).map(|_| ())
}

/// Whether a producer is told that it has no input: no surface, no class and no watchdog.
pub open spec fn tells_of_nothing(fields: Seq<(u64, ValueView)>, producer_epoch: u64) -> bool {
    &&& fields.len() == 9
    &&& fields[0] == (0u64, ValueView::Unsigned(producer_epoch))
    &&& fields[2] == (2u64, ValueView::Unsigned(0))
    &&& fields[3] == (3u64, ValueView::Unsigned(0))
    &&& fields[4] == (4u64, ValueView::Unsigned(0))
    &&& fields[5] == (5u64, ValueView::Unsigned(0))
    &&& fields[8] == (8u64, ValueView::Unsigned(0))
}

/// `vivid_protocol::grant::InputGrant::bound_payload`: the payload depends on the grant and the
/// epoch, and names neither a surface nor a class where no grant is in force.
#[verifier::external_body]
fn bound_payload(grant: &InputGrant, producer_epoch: u64) -> (r: Vec<(u64, Value)>)
    ensures
        payload_view(r@) == bound_fields(*grant, producer_epoch),
        active_grant(*grant) is None ==> tells_of_nothing(payload_view(r@), producer_epoch),
{
    grant.bound_payload(producer_epoch)
}

/// What is said of a grant that is revoked.
pub open spec fn revoked_fields(active: ActiveGrant, generation: u64, reason: u64) -> Seq<
    (u64, ValueView),
> {
    seq![
        (0u64, ValueView::Unsigned(active.producer_epoch)),
        (1u64, ValueView::Unsigned(generation)),
        (2u64, ValueView::Unsigned(active.context_id)),
        (3u64, ValueView::Unsigned(active.surface_id)),
        (4u64, ValueView::Unsigned(active.surface_generation)),
        (5u64, ValueView::Unsigned(reason)),
    ]
}

/// `vivid_protocol::grant::InputGrant::revoke`: a grant in force ends and its producer is told which
/// one. What is left of it depends on the grant and the reason. Without a grant in force, or where
/// generations cannot be counted further, nothing changes.
#[verifier::external_body]
fn revoke_grant(grant: &mut InputGrant, reason: u64) -> (r: Option<Vec<(u64, Value)>>)
    ensures
        match (active_grant(*old(grant)), revoked_generation(*old(grant))) {
            (Some(active), Some(generation)) => r matches Some(payload) && payload_view(payload@)
                == revoked_fields(active, generation, reason) && *final(grant) == grant_revoked(
                *old(grant),
                reason,
            ) && active_grant(*final(grant)) is None,
            _ => r is None && *final(grant) == *old(grant),
        },
{
    grant.revoke(reason)
}

/// `vivid_protocol::grant::InputGrant::due_renewal`: the renewal depends on the grant and the time.
#[verifier::external_body]
fn due_renewal(grant: &mut InputGrant, now_us: u64) -> (r: Option<(u64, u64)>)
    ensures
        grant_renewed(*old(grant), now_us) == (*final(grant), r),
{
    let renewal = grant.due_renewal(vivid_protocol::time::Monotonic::from_micros(now_us))?;
    Some((renewal.sequence, renewal.watchdog_us))
}

/// What is said of a renewal.
pub open spec fn renewal_fields(active: ActiveGrant, sequence: u64, watchdog_us: u64) -> Seq<
    (u64, ValueView),
> {
    seq![
        (0u64, ValueView::Unsigned(active.producer_epoch)),
        (1u64, ValueView::Unsigned(active.grant_generation)),
        (2u64, ValueView::Unsigned(active.context_id)),
        (3u64, ValueView::Unsigned(active.surface_id)),
        (4u64, ValueView::Unsigned(active.surface_generation)),
        (5u64, ValueView::Unsigned(sequence)),
        (6u64, ValueView::Unsigned(watchdog_us)),
    ]
}

/// `vivid_protocol::grant::InputGrant::renewal_payload`: the grant in force with the renewal's
/// number and length, or nothing without one.
#[verifier::external_body]
fn renewal_payload(grant: &InputGrant, sequence: u64, watchdog_us: u64) -> (r: Option<Vec<(u64, Value)>>)
    ensures
        match active_grant(*grant) {
            Some(active) => r matches Some(payload) && payload_view(payload@) == renewal_fields(
                active,
                sequence,
                watchdog_us,
            ),
            None => r is None,
        },
{
    grant.renewal_payload(vivid_protocol::grant::Renewal { sequence, watchdog_us })
}

/// What every event of a grant starts with.
pub open spec fn tag_fields(active: ActiveGrant) -> Seq<(u64, ValueView)> {
    seq![
        (0u64, ValueView::Unsigned(active.producer_epoch)),
        (1u64, ValueView::Unsigned(active.grant_generation)),
        (2u64, ValueView::Unsigned(active.context_id)),
        (3u64, ValueView::Unsigned(active.surface_id)),
        (4u64, ValueView::Unsigned(active.surface_generation)),
    ]
}

/// `vivid_protocol::grant::InputGrant::tag`: an event of a class that the grant in force has is
/// tagged with that grant; any other event is not.
#[verifier::external_body]
fn tag_event(grant: &InputGrant, class: u64) -> (r: Option<Vec<(u64, Value)>>)
    ensures
        match active_grant(*grant) {
            Some(active) => if active.effective_classes & class != 0 {
                r matches Some(payload) && payload_view(payload@) == tag_fields(active)
            } else {
                r is None
            },
            None => r is None,
        },
{
    grant.tag(class)
}

/// `vivid_protocol::grant::InputGrant::active`: the grant in force, its fields moved over.
#[verifier::external_body]
fn active_of(grant: &InputGrant) -> (r: Option<ActiveGrant>)
    ensures
        r == active_grant(*grant),
{
    let active = grant.active()?;
    Some(ActiveGrant {
        producer_epoch: active.binding.producer_epoch.get(),
        grant_generation: active.binding.grant_generation.get(),
        context_id: active.binding.context_id,
        surface_id: active.binding.surface_id,
        surface_generation: active.binding.surface_generation.get(),
        effective_classes: active.effective_classes,
        watchdog_timeout_us: active.watchdog_timeout_us,
        watchdog_deadline_us: active.watchdog_deadline.as_micros(),
    })
}

/// The deadline and the length of the watchdog of the grant in force.
pub fn watchdog_of(grant: &InputGrant) -> (r: Option<(u64, u64)>)
    ensures
        r == (match active_grant(*grant) {
            Some(active) => Some((active.watchdog_deadline_us, active.watchdog_timeout_us)),
            None => None,
        }),
{
    match active_of(grant) {
        Some(active) => Some((active.watchdog_deadline_us, active.watchdog_timeout_us)),
        None => None,
    }
}

/// Something the person at the window did.
#[derive(Debug, Clone, Copy, PartialEq, Eq, Structural)]
pub enum InputEvent {
    Key { usage: u16, pressed: bool },
    PointerMotion { x: u64, y: u64 },
    PointerButton { button: u8, pressed: bool, x: u64, y: u64 },
    PointerAxis { horizontal: i64, vertical: i64, x: u64, y: u64 },
}

impl InputEvent {
    /// The record an event travels as.
    pub open spec fn record_type_spec(self) -> u16 {
        match self {
            InputEvent::Key { .. } => KEY_INPUT,
            InputEvent::PointerMotion { .. } => POINTER_MOTION,
            InputEvent::PointerButton { .. } => POINTER_BUTTON,
            InputEvent::PointerAxis { .. } => POINTER_AXIS,
        }
    }

    /// The record an event travels as.
    pub fn record_type(self) -> (r: u16)
        ensures
            r == self.record_type_spec(),
    {
        match self {
            InputEvent::Key { .. } => KEY_INPUT,
            InputEvent::PointerMotion { .. } => POINTER_MOTION,
            InputEvent::PointerButton { .. } => POINTER_BUTTON,
            InputEvent::PointerAxis { .. } => POINTER_AXIS,
        }
    }

    /// The class of an event.
    pub open spec fn class_spec(self) -> u64 {
        match self {
            InputEvent::Key { .. } => INPUT_CLASS_KEYBOARD,
            InputEvent::PointerMotion { .. } => INPUT_CLASS_POINTER_MOTION,
            InputEvent::PointerButton { .. } => INPUT_CLASS_POINTER_BUTTON,
            InputEvent::PointerAxis { .. } => INPUT_CLASS_POINTER_AXIS,
        }
    }

    /// The class of an event.
    pub fn class(self) -> (r: u64)
        ensures
            r == self.class_spec(),
    {
        match self {
            InputEvent::Key { .. } => INPUT_CLASS_KEYBOARD,
            InputEvent::PointerMotion { .. } => INPUT_CLASS_POINTER_MOTION,
            InputEvent::PointerButton { .. } => INPUT_CLASS_POINTER_BUTTON,
            InputEvent::PointerAxis { .. } => INPUT_CLASS_POINTER_AXIS,
        }
    }

    /// What an event says, behind its tag.
    pub open spec fn fields(self) -> Seq<(u64, ValueView)> {
        match self {
            InputEvent::Key { usage, pressed } => seq![
                (5u64, ValueView::Unsigned(usage as u64)),
                (6u64, ValueView::Bool(pressed)),
            ],
            InputEvent::PointerMotion { x, y } => seq![
                (5u64, ValueView::Unsigned(x)),
                (6u64, ValueView::Unsigned(y)),
            ],
            InputEvent::PointerButton { button, pressed, x, y } => seq![
                (5u64, ValueView::Unsigned(button as u64)),
                (6u64, ValueView::Bool(pressed)),
                (7u64, ValueView::Unsigned(x)),
                (8u64, ValueView::Unsigned(y)),
            ],
            InputEvent::PointerAxis { horizontal, vertical, x, y } => seq![
                (5u64, signed_view(horizontal)),
                (6u64, signed_view(vertical)),
                (7u64, ValueView::Unsigned(x)),
                (8u64, ValueView::Unsigned(y)),
            ],
        }
    }

    fn append_to(self, payload: &mut Vec<(u64, Value)>)
        ensures
            payload_view(final(payload)@) == payload_view(old(payload)@) + self.fields(),
    {
        match self {
            InputEvent::Key { usage, pressed } => {
                payload.push((5, unsigned(usage as u64)));
                payload.push((6, boolean(pressed)));
            },
            InputEvent::PointerMotion { x, y } => {
                payload.push((5, unsigned(x)));
                payload.push((6, unsigned(y)));
            },
            InputEvent::PointerButton { button, pressed, x, y } => {
                payload.push((5, unsigned(button as u64)));
                payload.push((6, boolean(pressed)));
                payload.push((7, unsigned(x)));
                payload.push((8, unsigned(y)));
            },
            InputEvent::PointerAxis { horizontal, vertical, x, y } => {
                payload.push((5, signed(horizontal)));
                payload.push((6, signed(vertical)));
                payload.push((7, unsigned(x)));
                payload.push((8, unsigned(y)));
            },
        }
        assert(payload_view(payload@) =~= payload_view(old(payload)@) + self.fields());
    }
}

/// The record that an event is sent as: its type, its surface, and its body. Nothing is sent where
/// no grant has the event's class.
pub open spec fn event_record(grant: InputGrant, event: InputEvent) -> Option<(u16, u64, Seq<u8>)> {
    match active_grant(grant) {
        Some(active) => if active.effective_classes & event.class_spec() == 0 {
            None
        } else {
            match envelope_bytes(0, tag_fields(active) + event.fields()) {
                Some(body) => Some((event.record_type_spec(), active.surface_id, body)),
                None => None,
            }
        },
        None => None,
    }
}

/// The record that an event is sent as.
pub fn tagged_event(grant: &InputGrant, event: InputEvent) -> (r: Option<(u16, u64, Vec<u8>)>)
    ensures
        match r {
            Some((record_type, surface_id, body)) => event_record(*grant, event) == Some(
                (record_type, surface_id, body@),
            ),
            None => event_record(*grant, event) is None,
        },
{
    let surface_id = match active_of(grant) {
        Some(active) => active.surface_id,
        None => {
            return None;
        },
    };
    let mut payload = match tag_event(grant, event.class()) {
        Some(payload) => payload,
        None => {
            return None;
        },
    };
    event.append_to(&mut payload);
    match envelope(0, payload) {
        Ok(body) => Some((event.record_type(), surface_id, body)),
        Err(_) => None,
    }
}

/// What becomes of a request: the grant after it, and the body of the answer.
pub open spec fn request_answer(
    grant: InputGrant,
    request: InputRequest,
    eligible: Eligible,
    now_us: u64,
) -> (InputGrant, Option<Seq<u8>>) {
    match grant_applied(grant, request, eligible, now_us) {
        Some(after) => (after, envelope_bytes(0, bound_fields(after, request.producer_epoch))),
        None => (
            grant,
            error_bytes(
                0,
                ERROR_BAD_STATE,
                false,
                "input binding epoch is stale or inconsistent"@,
            ),
        ),
    }
}

/// Answer a request under what the presenter knows.
pub fn apply_input_binding(
    grant: &mut InputGrant,
    request: &InputRequest,
    eligible: &Eligible,
    now_us: u64,
) -> (r: Result<Vec<u8>, Unencodable>)
    ensures
        *final(grant) == request_answer(*old(grant), *request, *eligible, now_us).0,
        match r {
            Ok(body) => request_answer(*old(grant), *request, *eligible, now_us).1 == Some(body@),
            Err(_) => request_answer(*old(grant), *request, *eligible, now_us).1 is None,
        },
        granted_within(
            active_grant(*old(grant)),
            active_grant(*final(grant)),
            *request,
            *eligible,
        ),
        grant_applied(*old(grant), *request, *eligible, now_us) is Some && active_grant(
            *final(grant),
        ) is None ==> tells_of_nothing(
            bound_fields(*final(grant), request.producer_epoch),
            request.producer_epoch,
        ),
{
    if apply_request(grant, request, eligible, now_us).is_err() {
        return protocol_error(
            0,
            ERROR_BAD_STATE,
            false,
            "input binding epoch is stale or inconsistent".to_owned(),
        );
    }
    envelope(0, bound_payload(grant, request.producer_epoch))
}

/// The record that tells a producer that its input was revoked, if it had any.
pub open spec fn revocation_record(grant: InputGrant, reason: u64) -> Option<(u16, u64, Seq<u8>)> {
    match (active_grant(grant), revoked_generation(grant)) {
        (Some(active), Some(generation)) => match envelope_bytes(
            0,
            revoked_fields(active, generation, reason),
        ) {
            Some(body) => Some((INPUT_REVOKED, active.surface_id, body)),
            None => None,
        },
        _ => None,
    }
}

/// What is left of a grant once its input is revoked: a grant that is not in force, and one whose
/// generations cannot be counted further, stay as they are.
pub open spec fn without_input(grant: InputGrant, reason: u64) -> InputGrant {
    if active_grant(grant) is Some && revoked_generation(grant) is Some {
        grant_revoked(grant, reason)
    } else {
        grant
    }
}

/// Revoke what was granted. The grant ends here whether or not its producer can be told.
pub fn revoke_input(grant: &mut InputGrant, reason: u64) -> (r: Option<(u16, u64, Vec<u8>)>)
    ensures
        match r {
            Some((record_type, surface_id, body)) => revocation_record(*old(grant), reason) == Some(
                (record_type, surface_id, body@),
            ),
            None => revocation_record(*old(grant), reason) is None,
        },
        *final(grant) == without_input(*old(grant), reason),
        active_grant(*old(grant)) is Some && revoked_generation(*old(grant)) is Some
            ==> active_grant(*final(grant)) is None,
{
    let surface_id = match active_of(grant) {
        Some(active) => active.surface_id,
        None => 0,
    };
    match revoke_grant(grant, reason) {
        Some(payload) => match envelope(0, payload) {
            Ok(body) => Some((INPUT_REVOKED, surface_id, body)),
            Err(_) => None,
        },
        None => None,
    }
}

/// The record that renews a grant, if a renewal is due.
pub open spec fn renewal_record(grant: InputGrant, now_us: u64) -> Option<(u16, u64, Seq<u8>)> {
    let (after, due) = grant_renewed(grant, now_us);
    match (due, active_grant(after)) {
        (Some((sequence, watchdog_us)), Some(active)) => match envelope_bytes(
            0,
            renewal_fields(active, sequence, watchdog_us),
        ) {
            Some(body) => Some((INPUT_LEASE_RENEW, active.surface_id, body)),
            None => None,
        },
        _ => None,
    }
}

/// Renew a grant where that is due.
pub fn service_input_renewal(grant: &mut InputGrant, now_us: u64) -> (r: Option<(u16, u64, Vec<u8>)>)
    ensures
        *final(grant) == grant_renewed(*old(grant), now_us).0,
        match r {
            Some((record_type, surface_id, body)) => renewal_record(*old(grant), now_us) == Some(
                (record_type, surface_id, body@),
            ),
            None => renewal_record(*old(grant), now_us) is None,
        },
{
    let (sequence, watchdog_us) = match due_renewal(grant, now_us) {
        Some(renewal) => renewal,
        None => {
            return None;
        },
    };
    let surface_id = match active_of(grant) {
        Some(active) => active.surface_id,
        None => {
            return None;
        },
    };
    match renewal_payload(grant, sequence, watchdog_us) {
        Some(payload) => match envelope(0, payload) {
            Ok(body) => Some((INPUT_LEASE_RENEW, surface_id, body)),
            Err(_) => None,
        },
        None => None,
    }
}

/// A request that the presenter may not grant gives no input to a session that had none.
pub proof fn refused_input_is_not_sent(
    before: InputGrant,
    after: InputGrant,
    request: InputRequest,
    eligible: Eligible,
    event: InputEvent,
)
    requires
        active_grant(before) is None,
        granted_within(active_grant(before), active_grant(after), request, eligible),
        refused(request, eligible) || request.disables(),
    ensures
        event_record(after, event) is None,
{
}

/// A grant never has a class that its producer did not ask for or that its surface cannot take.
pub proof fn a_grant_is_narrowed(
    before: InputGrant,
    after: InputGrant,
    request: InputRequest,
    eligible: Eligible,
    class: u64,
)
    requires
        active_grant(before) is None,
        granted_within(active_grant(before), active_grant(after), request, eligible),
        active_grant(after) matches Some(active) && active.effective_classes & class != 0,
    ensures
        request.requested_classes & class != 0,
        eligible.capability_mask & class != 0,
{
    let requested = request.requested_classes;
    let capable = eligible.capability_mask;
    assert((requested & capable) & class != 0 ==> requested & class != 0 && capable & class != 0)
        by (bit_vector);
}

/// Without a grant in force nothing the person at the window does is sent.
pub proof fn ungranted_input_is_not_sent(grant: InputGrant, event: InputEvent)
    requires
        active_grant(grant) is None,
    ensures
        event_record(grant, event) is None,
{
}

/// An event says what happened: which key or button, whether it went down, where the pointer is,
/// and how far it turned, each under its own number.
pub proof fn an_event_says_what_happened(event: InputEvent)
    ensures
        event matches InputEvent::Key { usage, pressed } ==> {
            &&& event.fields().len() == 2
            &&& event.fields()[0] == (5u64, ValueView::Unsigned(usage as u64))
            &&& event.fields()[1] == (6u64, ValueView::Bool(pressed))
        },
        event matches InputEvent::PointerMotion { x, y } ==> {
            &&& event.fields().len() == 2
            &&& event.fields()[0] == (5u64, ValueView::Unsigned(x))
            &&& event.fields()[1] == (6u64, ValueView::Unsigned(y))
        },
        event matches InputEvent::PointerButton { button, pressed, x, y } ==> {
            &&& event.fields().len() == 4
            &&& event.fields()[0] == (5u64, ValueView::Unsigned(button as u64))
            &&& event.fields()[1] == (6u64, ValueView::Bool(pressed))
            &&& event.fields()[2] == (7u64, ValueView::Unsigned(x))
            &&& event.fields()[3] == (8u64, ValueView::Unsigned(y))
        },
        event matches InputEvent::PointerAxis { horizontal, vertical, x, y } ==> {
            &&& event.fields().len() == 4
            &&& event.fields()[0] == (5u64, signed_view(horizontal))
            &&& event.fields()[1] == (6u64, signed_view(vertical))
            &&& event.fields()[2] == (7u64, ValueView::Unsigned(x))
            &&& event.fields()[3] == (8u64, ValueView::Unsigned(y))
        },
{
}

/// An event is sent as the record of its own kind and under the class of its own kind: two events
/// have the same record type, and the same class, only where they are of the same kind.
pub proof fn kinds_of_events_are_kept_apart(left: InputEvent, right: InputEvent)
    ensures
        left is Key <==> left.record_type_spec() == 0x0710,
        left is PointerMotion <==> left.record_type_spec() == 0x0711,
        left is PointerButton <==> left.record_type_spec() == 0x0712,
        left is PointerAxis <==> left.record_type_spec() == 0x0713,
        left.record_type_spec() == right.record_type_spec() <==> left.class_spec()
            == right.class_spec(),
        left.class_spec() != right.class_spec() ==> left.class_spec() & right.class_spec() == 0,
        left.class_spec() & left.class_spec() == left.class_spec(),
        left is Key ==> left.class_spec() == 1,
        left is PointerMotion ==> left.class_spec() == 2,
        left is PointerButton ==> left.class_spec() == 4,
        left is PointerAxis ==> left.class_spec() == 8,
{
    assert(1u64 & 2 == 0 && 1u64 & 4 == 0 && 1u64 & 8 == 0 && 2u64 & 1 == 0 && 2u64 & 4 == 0 && 2u64
        & 8 == 0 && 4u64 & 1 == 0 && 4u64 & 2 == 0 && 4u64 & 8 == 0 && 8u64 & 1 == 0 && 8u64 & 2 == 0
        && 8u64 & 4 == 0 && 1u64 & 1 == 1 && 2u64 & 2 == 2 && 4u64 & 4 == 4 && 8u64 & 8 == 8)
        by (bit_vector);
}

/// An event is sent to the surface that holds the grant, named in full in front of what happened,
/// and only if the grant covers its class.
pub proof fn an_event_goes_to_the_holder_of_the_grant(
    grant: &InputGrant,
    event: InputEvent,
    r: Option<(u16, u64, Vec<u8>)>,
)
    requires
        call_ensures(tagged_event, (grant, event), r),
    ensures
        active_grant(*grant) is None ==> r is None,
        active_grant(*grant) matches Some(active) ==> active.effective_classes & event.class_spec()
            == 0 ==> r is None,
        r matches Some((record_type, surface_id, body)) ==> {
            &&& active_grant(*grant) matches Some(active) && active.surface_id == surface_id
            &&& record_type == event.record_type_spec()
            &&& envelope_bytes(0, tag_fields(active_grant(*grant)->0) + event.fields()) == Some(
                body@,
            )
        },
{
}

/// Whatever is sent about a grant names the same five things first, in the same places: the epoch of
/// the producer, the generation, the context, the surface and the generation of the surface.
pub proof fn everything_about_a_grant_names_it(
    active: ActiveGrant,
    generation: u64,
    reason: u64,
    sequence: u64,
    watchdog_us: u64,
)
    ensures
        ({
            let tag = tag_fields(active);
            let renewal = renewal_fields(active, sequence, watchdog_us);
            let revoked = revoked_fields(active, generation, reason);
            &&& tag.len() == 5 && renewal.len() == 7 && revoked.len() == 6
            &&& tag[0] == (0u64, ValueView::Unsigned(active.producer_epoch))
            &&& tag[1] == (1u64, ValueView::Unsigned(active.grant_generation))
            &&& tag[2] == (2u64, ValueView::Unsigned(active.context_id))
            &&& tag[3] == (3u64, ValueView::Unsigned(active.surface_id))
            &&& tag[4] == (4u64, ValueView::Unsigned(active.surface_generation))
            &&& renewal.take(5) == tag
            &&& renewal[5] == (5u64, ValueView::Unsigned(sequence))
            &&& renewal[6] == (6u64, ValueView::Unsigned(watchdog_us))
            &&& revoked.take(5) == tag.update(1, (1u64, ValueView::Unsigned(generation)))
            &&& revoked[5] == (5u64, ValueView::Unsigned(reason))
        }),
{
    assert(renewal_fields(active, sequence, watchdog_us).take(5) =~= tag_fields(active));
    assert(revoked_fields(active, generation, reason).take(5) =~= tag_fields(active).update(
        1,
        (1u64, ValueView::Unsigned(generation)),
    ));
}

/// Input is granted only to a surface that stands in front of a user who is looking at it and has
/// agreed, over a live lane, for the generation that is shown, and for a class that both sides
/// have.
pub proof fn input_is_granted_only_to_what_the_user_sees(request: InputRequest, eligible: Eligible)
    ensures
        !refused(request, eligible) ==> eligible.focused && eligible.consented && eligible.presented
            && eligible.surface_present && eligible.lane_live && eligible.may_receive_input
            && request.surface_generation == eligible.surface_generation
            && request.requested_classes & eligible.capability_mask != 0,
        eligible.focused && eligible.consented && eligible.presented && eligible.surface_present
            && eligible.lane_live && eligible.may_receive_input && request.surface_generation
            == eligible.surface_generation && request.requested_classes & eligible.capability_mask
            != 0 ==> !refused(request, eligible),
{
}

/// A renewal is due by the watchdog of the grant in force: no watchdog runs without a grant.
pub proof fn a_watchdog_runs_only_with_a_grant(grant: &InputGrant, r: Option<(u64, u64)>)
    requires
        call_ensures(watchdog_of, (grant,), r),
    ensures
        r is Some <==> active_grant(*grant) is Some,
        r matches Some((deadline_us, timeout_us)) ==> active_grant(*grant)->0.watchdog_deadline_us
            == deadline_us && active_grant(*grant)->0.watchdog_timeout_us == timeout_us,
{
}

/// A renewal goes out for the surface that the grant is for, and only while there is a grant.
pub proof fn a_renewal_is_for_the_granted_surface(
    grant: &mut InputGrant,
    now_us: u64,
    r: Option<(u16, u64, Vec<u8>)>,
)
    requires
        call_ensures(service_input_renewal, (grant, now_us), r),
    ensures
        r matches Some((record_type, surface_id, body)) ==> {
            &&& record_type == 0x0703
            &&& active_grant(*final(grant)) matches Some(active) && active.surface_id == surface_id
        },
        active_grant(*final(grant)) is None ==> r is None,
{
}

/// A request for input that is refused changes no grant, and one that is taken leaves the grant that
/// it was answered with.
pub proof fn a_refused_request_changes_no_grant(
    grant: &mut InputGrant,
    request: &InputRequest,
    eligible: &Eligible,
    now_us: u64,
    r: Result<Vec<u8>, Unencodable>,
)
    requires
        call_ensures(apply_input_binding, (grant, request, eligible, now_us), r),
    ensures
        grant_applied(*old(grant), *request, *eligible, now_us) is None ==> *final(grant) == *old(grant)
            && (r matches Ok(body) ==> error_bytes(
            0,
            6,
            false,
            "input binding epoch is stale or inconsistent"@,
        ) == Some(body@)),
        grant_applied(*old(grant), *request, *eligible, now_us) matches Some(applied) ==> *final(grant)
            == applied && (r matches Ok(body) ==> envelope_bytes(
            0,
            bound_fields(applied, request.producer_epoch),
        ) == Some(body@)),
{
}

} // verus!
