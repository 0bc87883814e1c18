//! The authenticated interactive lane.
//!
//! Input has its own connection, so that a saturated bulk track cannot delay its revocation. This
//! module owns the rules for opening that connection: one transport per generation, an exact retry
//! only while no input was admitted, and never a generation lower than the current one.

use vstd::prelude::*;

use crate::identity::same_bytes16;
use crate::protocol;

verus! {

/// Whether the lane carries records of this type.
pub fn carries(record_type: u16) -> (r: bool)
    ensures
        r == carried(record_type),
{
    record_type == protocol::SET_INPUT_BINDING || record_type == protocol::KEY_INPUT || record_type
        == protocol::POINTER_MOTION || record_type == protocol::POINTER_BUTTON || record_type
        == protocol::POINTER_AXIS || record_type == protocol::PING || record_type == protocol::PONG
        || record_type == protocol::ERROR
}

/// The record types of the lane: input, liveness, and errors.
pub open spec fn carried(record_type: u16) -> bool {
    seq![
        protocol::SET_INPUT_BINDING,
        protocol::KEY_INPUT,
        protocol::POINTER_MOTION,
        protocol::POINTER_BUTTON,
        protocol::POINTER_AXIS,
        protocol::PING,
        protocol::PONG,
        protocol::ERROR,
    ].contains(record_type)
}

/// What to do with a lane that asks to open.
#[derive(Debug, Clone, Copy, PartialEq, Eq, Structural)]
pub enum Admission {
    /// A generation that has not been opened before.
    Accept,
    /// An exact retry after confirmed loss. No input was ever admitted on the transport it
    /// replaces, so it receives the same logical acceptance.
    Replay,
    /// Another transport is already live for this generation.
    Busy,
    /// A stale generation, another client's nonce, or a retry of a transport that already admitted
    /// input.
    Refused,
}

/// The one interactive transport a session may have.
#[derive(Debug, Clone, Copy, PartialEq, Eq)]
pub struct LaneState {
    pub generation: u64,
    pub nonce: [u8; 16],
    pub live: bool,
    /// Whether any ordinary input event was admitted on this generation's transport.
    pub admitted_input: bool,
}

impl LaneState {
    /// A transport that has just opened.
    pub open spec fn opened(generation: u64, nonce: [u8; 16]) -> LaneState {
        LaneState { generation, nonce, live: true, admitted_input: false }
    }

    /// Whether the transport is live.
    pub fn live(&self) -> (r: bool)
        ensures
            r == self.live,
    {
        self.live
    }

    /// The generation of the transport.
    pub fn generation(&self) -> (r: u64)
        ensures
            r == self.generation,
    {
        self.generation
    }

    /// Note that an ordinary input event was admitted, which makes this generation unrepeatable.
    pub fn note_input(&mut self)
        ensures
            *final(self) == (LaneState { admitted_input: true, ..*old(self) }),
    {
        self.admitted_input = true;
    }
}

/// The decision on a lane that asks to open as `generation` with `nonce`.
pub open spec fn admission(slot: Option<LaneState>, generation: u64, nonce: [u8; 16]) -> Admission {
    match slot {
        _ if generation == 0 => Admission::Refused,
        None => Admission::Accept,
        Some(current) => if generation > current.generation {
            Admission::Accept
        } else if generation < current.generation || nonce != current.nonce {
            Admission::Refused
        } else if current.live {
            Admission::Busy
        } else if current.admitted_input {
            Admission::Refused
        } else {
            Admission::Replay
        },
    }
}

/// The transport a session has after that decision.
pub open spec fn admitted_slot(
    slot: Option<LaneState>,
    generation: u64,
    nonce: [u8; 16],
) -> Option<LaneState> {
    match admission(slot, generation, nonce) {
        Admission::Accept => Some(LaneState::opened(generation, nonce)),
        Admission::Replay => Some(LaneState { live: true, ..slot.unwrap() }),
        _ => slot,
    }
}

/// The transport a session has once the one for `generation` is lost.
pub open spec fn lost_slot(slot: Option<LaneState>, generation: u64) -> Option<LaneState> {
    match slot {
        Some(current) if current.generation == generation => Some(
            LaneState { live: false, ..current },
        ),
        _ => slot,
    }
}

/// Decide a lane that asks to open against whatever transport the session already had.
///
/// On `Accept` or `Replay` the slot is updated to the admitted transport.
pub fn admit_lane(slot: &mut Option<LaneState>, generation: u64, nonce: [u8; 16]) -> (r: Admission)
    ensures
        r == admission(*old(slot), generation, nonce),
        *final(slot) == admitted_slot(*old(slot), generation, nonce),
{
    if generation == 0 {
        return Admission::Refused;
    }
    let current: LaneState = match *slot {
        None => {
            *slot = Some(LaneState { generation, nonce, live: true, admitted_input: false });
            return Admission::Accept;
        },
        Some(current) => current,
    };
    if generation == current.generation {
        if !same_bytes16(&current.nonce, &nonce) {
            return Admission::Refused;
        }
        if current.live {
            return Admission::Busy;
        }
        if current.admitted_input {
            return Admission::Refused;
        }
        *slot = Some(LaneState { live: true, ..current });
        return Admission::Replay;
    }
    if generation < current.generation {
        return Admission::Refused;
    }
    *slot = Some(LaneState { generation, nonce, live: true, admitted_input: false });
    Admission::Accept
}

/// Mark the transport for `generation` lost, leaving another generation untouched.
pub fn confirm_lost(slot: &mut Option<LaneState>, generation: u64)
    ensures
        *final(slot) == lost_slot(*old(slot), generation),
{
    if let Some(current) = *slot {
        if current.generation == generation {
            *slot = Some(LaneState { live: false, ..current });
        }
    }
}

/// The generation of a slot, zero where nothing was opened yet.
pub open spec fn slot_generation(slot: Option<LaneState>) -> u64 {
    match slot {
        Some(current) => current.generation,
        None => 0,
    }
}

/// The generation of a session's lane never goes back, and an accepted open raises it.
pub proof fn lane_generations_only_rise(slot: Option<LaneState>, generation: u64, nonce: [u8; 16])
    ensures
        slot_generation(admitted_slot(slot, generation, nonce)) >= slot_generation(slot),
        admission(slot, generation, nonce) is Accept ==> slot_generation(
            admitted_slot(slot, generation, nonce),
        ) > slot_generation(slot),
        slot_generation(lost_slot(slot, generation)) == slot_generation(slot),
{
}

/// A transport that admitted input can never be reopened: after its loss every open of its
/// generation is refused, whatever the nonce.
pub proof fn input_makes_a_generation_unrepeatable(current: LaneState, nonce: [u8; 16])
    ensures
        ({
            let used = LaneState { admitted_input: true, ..current };
            let lost = lost_slot(Some(used), used.generation);
            &&& admission(lost, used.generation, nonce) is Refused
            &&& admitted_slot(lost, used.generation, nonce) == lost
        }),
{
}

/// While a transport is live no second one opens for its generation.
pub proof fn one_live_transport_per_generation(current: LaneState, nonce: [u8; 16])
    requires
        current.live,
    ensures
        admitted_slot(Some(current), current.generation, nonce) == Some(current),
        admission(Some(current), current.generation, nonce) is Busy || admission(
            Some(current),
            current.generation,
            nonce,
        ) is Refused,
{
}

/// An exact retry after loss restores the transport exactly, while no input was admitted on it.
pub proof fn an_exact_retry_restores_the_lost_transport(generation: u64, nonce: [u8; 16])
    requires
        generation != 0,
    ensures
        ({
            let opened = Some(LaneState::opened(generation, nonce));
            let lost = lost_slot(opened, generation);
            &&& admission(lost, generation, nonce) is Replay
            &&& admitted_slot(lost, generation, nonce) == opened
        }),
{
}

/// Losing one generation leaves every other generation's transport as it was.
pub proof fn loss_is_scoped_to_its_generation(current: LaneState, generation: u64)
    requires
        generation != current.generation,
    ensures
        lost_slot(Some(current), generation) == Some(current),
{
}

/// The lane carries every kind of input event, what answers a probe, an error, and the request to
/// bind; it carries no record of a surface, a track, a file or a channel.
pub proof fn the_lane_carries_input_and_nothing_bulky(record_type: u16)
    ensures
        carried(protocol::KEY_INPUT) && carried(protocol::POINTER_MOTION) && carried(
            protocol::POINTER_BUTTON,
        ) && carried(protocol::POINTER_AXIS),
        carried(protocol::PING) && carried(protocol::PONG) && carried(protocol::ERROR) && carried(
            protocol::SET_INPUT_BINDING,
        ),
        carried(record_type) ==> record_type == protocol::ERROR || record_type == protocol::PING
            || record_type == protocol::PONG || record_type == protocol::SET_INPUT_BINDING || (
        protocol::KEY_INPUT <= record_type <= protocol::POINTER_AXIS),
{
    let all = seq![
        protocol::SET_INPUT_BINDING,
        protocol::KEY_INPUT,
        protocol::POINTER_MOTION,
        protocol::POINTER_BUTTON,
        protocol::POINTER_AXIS,
        protocol::PING,
        protocol::PONG,
        protocol::ERROR,
    ];
    assert(all[0] == protocol::SET_INPUT_BINDING && all[1] == protocol::KEY_INPUT && all[2]
        == protocol::POINTER_MOTION && all[3] == protocol::POINTER_BUTTON && all[4]
        == protocol::POINTER_AXIS && all[5] == protocol::PING && all[6] == protocol::PONG && all[7]
        == protocol::ERROR);
}

/// A transport is admitted only under a generation above the current one, or as an exact retry of
/// the current one once that was lost and before any input was admitted. No transport is admitted
/// under generation zero, and one that is not admitted leaves the lane as it was.
pub proof fn a_transport_is_admitted_in_order(
    slot: &mut Option<LaneState>,
    generation: u64,
    nonce: [u8; 16],
    r: Admission,
)
    requires
        call_ensures(admit_lane, (slot, generation, nonce), r),
    ensures
        generation == 0 ==> r is Refused,
        generation > 0 && *old(slot) is None ==> r is Accept,
        *old(slot) matches Some(current) ==> {
            &&& r is Accept <==> generation > current.generation
            &&& r is Replay <==> generation > 0 && generation == current.generation && nonce
                == current.nonce && !current.live && !current.admitted_input
            &&& r is Busy <==> generation > 0 && generation == current.generation && nonce
                == current.nonce && current.live
        },
        r is Accept || r is Replay ==> (*final(slot) matches Some(opened) && opened.live
            && opened.generation == generation && opened.nonce == nonce && !opened.admitted_input),
        r is Busy || r is Refused ==> *final(slot) == *old(slot),
{
}

} // verus!
