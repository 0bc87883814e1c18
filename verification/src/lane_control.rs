//! Opening and serving the interactive lane.

use vstd::prelude::*;
use vivid_protocol::cbor::Value;

use crate::actor::{posted, record_view, OutgoingRecord};
use crate::control::{decode_control, envelope_decoded};
use crate::input::{
    active_grant, granted_within, input_decoded, read_input, request_answer, InputRequest,
};
use crate::lane::{admission, admit_lane, admitted_slot, carried, carries, Admission};
use crate::protocol::{
    ERROR, ERROR_AUTH_FAILED, ERROR_BAD_MESSAGE, ERROR_BAD_STATE, ERROR_CHANNEL_BUSY, INPUT_BOUND,
    LANE_ACCEPTED, LANE_OPEN, PING, PONG, SET_INPUT_BINDING,
};
use crate::registry::{one_session_changed, Registry};
use crate::reply::{envelope, envelope_bytes, error_bytes, protocol_error};
use crate::session::{eligibility, Session, SurfaceInput};
use crate::value::{entries_value, payload_view, unsigned, ValueView};

verus! {

/// The largest body of a record on the lane.
pub const LANE_MAX_RECORD_BODY: u32 = 65_536;

/// The number of the interactive lane.
pub const LANE_INTERACTIVE: u32 = 1;

/// A request to open the lane.
#[derive(Debug, Clone, Copy)]
pub struct LaneOpen {
    pub session_id: u64,
    pub lane_generation: u64,
    pub client_nonce: [u8; 16],
    pub authentication_tag: [u8; 16],
}

/// The request that a body is, where it is valid.
pub uninterp spec fn lane_open_decoded(body: Seq<u8>) -> Option<LaneOpen>;

/// `vivid_protocol::messages::LaneOpen::decode`: the request depends on the body alone, and is refused
/// where it is not valid.
#[verifier::external_body]
fn decode_lane_open(body: &[u8]) -> (r: Option<LaneOpen>)
    ensures
        r == lane_open_decoded(body@),
{
    let open = vivid_protocol::messages::LaneOpen::decode(body).ok()?;
    Some(LaneOpen {
        session_id: open.session_id,
        lane_generation: open.lane_generation,
        client_nonce: open.client_nonce,
        authentication_tag: open.authentication_tag,
    })
}

/// The tag that a key makes of a request to open the lane.
pub uninterp spec fn lane_tag_of(
    key: Seq<u8>,
    session_id: u64,
    lane_class: u32,
    generation: u64,
    nonce: Seq<u8>,
) -> Seq<u8>;

/// `vivid_protocol::auth::lane_tag`: the tag depends on the five arguments alone.
#[verifier::external_body]
fn lane_tag(key: &[u8; 32], session_id: u64, lane_class: u32, generation: u64, nonce: &[u8; 16]) -> (r:
    [u8; 16])
    ensures
        r@ == lane_tag_of(key@, session_id, lane_class, generation, nonce@),
{
    vivid_protocol::auth::lane_tag(key, session_id, lane_class, generation, nonce)
}

/// `vivid_protocol::auth::verify_tag`: whether the tags are equal, compared in constant time.
#[verifier::external_body]
fn verify_tag(expected: &[u8; 16], supplied: &[u8; 16]) -> (r: bool)
    ensures
        r == (expected@ == supplied@),
{
    vivid_protocol::auth::verify_tag(expected, supplied)
}

/// Why a lane ends, with what its peer is told.
#[derive(Debug, Clone, Copy)]
pub struct LaneRefusal {
    pub request_id: u64,
    pub code: u64,
    pub text: &'static str,
}

impl LaneRefusal {
    /// What the peer is told, where the codec takes it.
    pub fn record(&self) -> (r: Option<OutgoingRecord>)
        ensures
            match error_bytes(self.request_id, self.code, true, self.text@) {
                Some(body) => r matches Some(record) && record_view(record) == (ERROR, 0u64, body),
                None => r is None,
            },
    {
        match protocol_error(self.request_id, self.code, true, self.text.to_string()) {
            Ok(body) => Some((ERROR, 0, body)),
            Err(_) => None,
        }
    }
}

/// The request that a record names, zero where it names none.
pub open spec fn request_of(body: Seq<u8>) -> u64 {
    match envelope_decoded(body) {
        Some(opened) => opened.request_id,
        None => 0,
    }
}

/// Whose lane a record opens, or why it opens none. A session that does not exist and a tag that does
/// not hold are refused alike.
pub open spec fn lane_request(registry: Registry, record_type: u16, body: Seq<u8>) -> Result<
    (u64, LaneOpen),
    LaneRefusal,
> {
    if record_type != LANE_OPEN {
        Err(
            LaneRefusal {
                request_id: 0,
                code: ERROR_BAD_MESSAGE,
                text: "an interactive lane opens with LANE_OPEN",
            },
        )
    } else {
        let request_id = request_of(body);
        match lane_open_decoded(body) {
            None => Err(
                LaneRefusal { request_id, code: ERROR_BAD_MESSAGE, text: "invalid LANE_OPEN" },
            ),
            Some(open) => if !registry.sessions@.contains_key(open.session_id) || lane_tag_of(
                registry.sessions@[open.session_id].channel_key@,
                open.session_id,
                LANE_INTERACTIVE,
                open.lane_generation,
                open.client_nonce@,
            ) != open.authentication_tag@ {
                Err(
                    LaneRefusal {
                        request_id,
                        code: ERROR_AUTH_FAILED,
                        text: "lane authentication failed",
                    },
                )
            } else {
                Ok((request_id, open))
            },
        }
    }
}

/// Why a lane that is authentic is refused, if it is.
pub open spec fn admission_refusal(decision: Admission, request_id: u64) -> Option<LaneRefusal> {
    match decision {
        Admission::Accept | Admission::Replay => None,
        Admission::Busy => Some(
            LaneRefusal {
                request_id,
                code: ERROR_CHANNEL_BUSY,
                text: "another interactive transport is live for this lane generation",
            },
        ),
        Admission::Refused => Some(
            LaneRefusal {
                request_id,
                code: ERROR_BAD_STATE,
                text: "this lane generation cannot be reopened",
            },
        ),
    }
}

/// What a producer is told of a lane that is accepted.
pub open spec fn lane_fields(open: LaneOpen) -> Seq<(u64, ValueView)> {
    seq![
        (0u64, ValueView::Unsigned(open.session_id)),
        (1u64, ValueView::Unsigned(LANE_INTERACTIVE as u64)),
        (2u64, ValueView::Unsigned(open.lane_generation)),
        (3u64, ValueView::Unsigned(LANE_MAX_RECORD_BODY as u64)),
    ]
}

/// What a producer is told of a lane that is accepted, where the codec takes it.
pub fn lane_accepted(open: &LaneOpen, request_id: u64) -> (r: Option<OutgoingRecord>)
    ensures
        match envelope_bytes(request_id, lane_fields(*open)) {
            Some(body) => r matches Some(record) && record_view(record) == (
                LANE_ACCEPTED,
                0u64,
                body,
            ),
            None => r is None,
        },
{
    let payload = vec![
        (0u64, unsigned(open.session_id)),
        (1u64, unsigned(LANE_INTERACTIVE as u64)),
        (2u64, unsigned(open.lane_generation)),
        (3u64, unsigned(LANE_MAX_RECORD_BODY as u64)),
    ];
    assert(payload_view(payload@) =~= lane_fields(*open));
    match envelope(request_id, payload) {
        Ok(body) => Some((LANE_ACCEPTED, 0, body)),
        Err(_) => None,
    }
}

impl Registry {
    /// Whose lane the first record of a connection opens.
    pub fn authenticate_lane(&self, record_type: u16, body: &Vec<u8>) -> (r: Result<
        (u64, LaneOpen),
        LaneRefusal,
    >)
        requires
            self.wf(),
        ensures
            r == lane_request(*self, record_type, body@),
    {
        if record_type != LANE_OPEN {
            return Err(
                LaneRefusal {
                    request_id: 0,
                    code: ERROR_BAD_MESSAGE,
                    text: "an interactive lane opens with LANE_OPEN",
                },
            );
        }
        let request_id: u64 = match decode_control(body.as_slice()) {
            Some(opened) => opened.request_id,
            None => 0,
        };
        let open = match decode_lane_open(body.as_slice()) {
            Some(open) => open,
            None => {
                return Err(
                    LaneRefusal { request_id, code: ERROR_BAD_MESSAGE, text: "invalid LANE_OPEN" },
                );
            },
        };
        let proved = match self.sessions.get(&open.session_id) {
            Some(session) => {
                let expected = lane_tag(
                    &session.channel_key,
                    open.session_id,
                    LANE_INTERACTIVE,
                    open.lane_generation,
                    &open.client_nonce,
                );
                verify_tag(&expected, &open.authentication_tag)
            },
            None => false,
        };
        if !proved {
            return Err(
                LaneRefusal {
                    request_id,
                    code: ERROR_AUTH_FAILED,
                    text: "lane authentication failed",
                },
            );
        }
        Ok((request_id, open))
    }

    /// Admit a lane that is authentic to its session.
    pub fn admit_lane(&mut self, open: &LaneOpen, request_id: u64) -> (r: Result<(), LaneRefusal>)
        requires
            old(self).wf(),
        ensures
            final(self).wf(),
            *final(self) == (Registry { sessions: final(self).sessions, ..*old(self) }),
            if old(self).sessions@.contains_key(open.session_id) {
                let before = old(self).sessions@[open.session_id];
                let after = final(self).sessions@[open.session_id];
                &&& one_session_changed(
                    old(self).sessions@,
                    final(self).sessions@,
                    open.session_id,
                )
                &&& after == (Session {
                    lane: admitted_slot(before.lane, open.lane_generation, open.client_nonce),
                    ..before
                })
                &&& r == (match admission_refusal(
                    admission(before.lane, open.lane_generation, open.client_nonce),
                    request_id,
                ) {
                    Some(refusal) => Err::<(), LaneRefusal>(refusal),
                    None => Ok(()),
                })
            } else {
                final(self).sessions@ == old(self).sessions@ && r == Err::<(), LaneRefusal>(
                    LaneRefusal {
                        request_id,
                        code: ERROR_AUTH_FAILED,
                        text: "lane authentication failed",
                    },
                )
            },
    {
        let ghost before = self.sessions@;
        let outcome = match self.sessions.get_mut(&open.session_id) {
            Some(session) => match admit_lane(
                &mut session.lane,
                open.lane_generation,
                open.client_nonce,
            ) {
                Admission::Accept | Admission::Replay => Ok(()),
                Admission::Busy => Err(
                    LaneRefusal {
                        request_id,
                        code: ERROR_CHANNEL_BUSY,
                        text: "another interactive transport is live for this lane generation",
                    },
                ),
                Admission::Refused => Err(
                    LaneRefusal {
                        request_id,
                        code: ERROR_BAD_STATE,
                        text: "this lane generation cannot be reopened",
                    },
                ),
            },
            None => Err(
                LaneRefusal {
                    request_id,
                    code: ERROR_AUTH_FAILED,
                    text: "lane authentication failed",
                },
            ),
        };
        assert(self.sessions@.dom() =~= before.dom());
        outcome
    }
}

/// What a record on the lane comes to.
pub enum LaneStep {
    /// The lane goes on.
    Continue,
    /// The scene is asked about the surface that input is wanted for.
    Ask(InputRequest),
    /// The peer is told why the lane ends.
    Refuse(LaneRefusal),
    /// The lane ends without a word.
    End,
}

/// Whether a record on the lane was dealt with, and how.
pub open spec fn lane_step(
    before: Session,
    after: Session,
    record_type: u16,
    object_id: u64,
    body: Seq<u8>,
    step: LaneStep,
) -> bool {
    if !carried(record_type) {
        after == before && step == LaneStep::Refuse(
            LaneRefusal {
                request_id: 0,
                code: ERROR_BAD_MESSAGE,
                text: "the interactive lane carries only input and liveness records",
            },
        )
    } else if record_type == PING {
        match envelope_decoded(body) {
            None => after == before && step is End,
            Some(opened) => match envelope_bytes(opened.request_id, opened.payload) {
                None => after == before && step is End,
                Some(answer) => {
                    &&& step is Continue
                    &&& after == (Session { lane_egress: after.lane_egress, ..before })
                    &&& posted(before.lane_egress, after.lane_egress, (PONG, 0u64, answer))
                },
            },
        }
    } else if record_type == PONG || record_type == ERROR {
        after == before && step is Continue
    } else if record_type == SET_INPUT_BINDING {
        &&& after == before
        &&& match envelope_decoded(body) {
            None => step is End,
            Some(opened) => match input_decoded(object_id, ValueView::Entries(opened.payload)) {
                None => step == LaneStep::Refuse(
                    LaneRefusal {
                        request_id: opened.request_id,
                        code: ERROR_BAD_MESSAGE,
                        text: "invalid SET_INPUT_BINDING",
                    },
                ),
                Some(request) => step == LaneStep::Ask(request),
            },
        }
    } else {
        after == before && step == LaneStep::Refuse(
            LaneRefusal {
                request_id: 0,
                code: ERROR_BAD_MESSAGE,
                text: "input events travel from the presenter",
            },
        )
    }
}

impl Session {
    /// Deal with a record that came on the lane.
    pub fn serve_lane(&mut self, record_type: u16, object_id: u64, body: &Vec<u8>) -> (r: LaneStep)
        requires
            old(self).wf(),
        ensures
            final(self).wf(),
            lane_step(*old(self), *final(self), record_type, object_id, body@, r),
    {
        if !carries(record_type) {
            return LaneStep::Refuse(
                LaneRefusal {
                    request_id: 0,
                    code: ERROR_BAD_MESSAGE,
                    text: "the interactive lane carries only input and liveness records",
                },
            );
        }
        if record_type == PING {
            let opened = match decode_control(body.as_slice()) {
                Some(opened) => opened,
                None => {
                    return LaneStep::End;
                },
            };
            return match envelope(opened.request_id, opened.payload) {
                Ok(answer) => {
                    self.post_lane(PONG, 0, answer);
                    LaneStep::Continue
                },
                Err(_) => LaneStep::End,
            };
        }
        if record_type == PONG || record_type == ERROR {
            return LaneStep::Continue;
        }
        if record_type == SET_INPUT_BINDING {
            let opened = match decode_control(body.as_slice()) {
                Some(opened) => opened,
                None => {
                    return LaneStep::End;
                },
            };
            let request_id = opened.request_id;
            let value: Value = entries_value(opened.payload);
            return match read_input(object_id, &value) {
                Some(request) => LaneStep::Ask(request),
                None => LaneStep::Refuse(
                    LaneRefusal {
                        request_id,
                        code: ERROR_BAD_MESSAGE,
                        text: "invalid SET_INPUT_BINDING",
                    },
                ),
            };
        }
        LaneStep::Refuse(
            LaneRefusal {
                request_id: 0,
                code: ERROR_BAD_MESSAGE,
                text: "input events travel from the presenter",
            },
        )
    }

    /// Answer a request for input with what the scene says of the surface. `false` means that the
    /// lane ends.
    pub fn answer_input(&mut self, request: &InputRequest, surface: Option<SurfaceInput>, now_us: u64) -> (r:
        bool)
        requires
            old(self).wf(),
        ensures
            final(self).wf(),
            ({
                let (grant, answer) = request_answer(
                    old(self).grant,
                    *request,
                    eligibility(*old(self), *request, surface),
                    now_us,
                );
                &&& *final(self) == (Session {
                    grant,
                    lane_egress: final(self).lane_egress,
                    ..*old(self)
                })
                &&& match answer {
                    Some(body) => r && posted(
                        old(self).lane_egress,
                        final(self).lane_egress,
                        (INPUT_BOUND, request.surface_id, body),
                    ),
                    None => !r && final(self).lane_egress == old(self).lane_egress,
                }
            }),
            granted_within(
                active_grant(old(self).grant),
                active_grant(final(self).grant),
                *request,
                eligibility(*old(self), *request, surface),
            ),
    {
        match self.bind_input(request, surface, now_us) {
            Ok(body) => {
                self.post_lane(INPUT_BOUND, request.surface_id, body);
                true
            },
            Err(_) => false,
        }
    }
}

/// A lane is opened only for a session, by someone who knows its key, for that session, for
/// interactive use and for the generation that it names.
pub proof fn a_lane_is_opened_by_whoever_knows_the_key(
    registry: &Registry,
    record_type: u16,
    body: &Vec<u8>,
    r: Result<(u64, LaneOpen), LaneRefusal>,
)
    requires
        registry.wf(),
        call_ensures(Registry::authenticate_lane, (registry, record_type, body), r),
    ensures
        r matches Ok((request_id, open)) ==> {
            &&& record_type == 0x000a
            &&& registry.sessions@.contains_key(open.session_id)
            &&& lane_open_decoded(body@) == Some(open)
            &&& lane_tag_of(
                registry.sessions@[open.session_id].channel_key@,
                open.session_id,
                1,
                open.lane_generation,
                open.client_nonce@,
            ) == open.authentication_tag@
        },
        record_type != 0x000a ==> r is Err && r->Err_0.code == 5,
        record_type == 0x000a && lane_open_decoded(body@) is None ==> r is Err && r->Err_0.code == 5,
        record_type == 0x000a && lane_open_decoded(body@) is Some && r is Err ==> r->Err_0.code == 1,
{
}

/// A lane that is not opened is told whether another is up or the generation is over.
pub proof fn a_lane_that_is_not_opened_is_told_why(decision: Admission, request_id: u64)
    ensures
        admission_refusal(decision, request_id) is None <==> decision is Accept || decision is Replay,
        decision is Busy ==> admission_refusal(decision, request_id)->0.code == 26,
        decision is Refused ==> admission_refusal(decision, request_id)->0.code == 6,
        admission_refusal(decision, request_id) matches Some(refusal) ==> refusal.request_id
            == request_id,
{
}

/// A lane that is opened is told its session, its class, its generation and the largest record.
pub proof fn an_opened_lane_is_told_in_its_place(open: LaneOpen)
    ensures
        lane_fields(open).len() == 4,
        lane_fields(open)[0] == (0u64, ValueView::Unsigned(open.session_id)),
        lane_fields(open)[1] == (1u64, ValueView::Unsigned(1)),
        lane_fields(open)[2] == (2u64, ValueView::Unsigned(open.lane_generation)),
        lane_fields(open)[3] == (3u64, ValueView::Unsigned(65_536)),
{
}

/// A lane answers a probe, takes a request for input, passes over what needs no answer, and refuses
/// everything else; only an answered probe changes anything.
pub proof fn a_lane_serves_what_it_carries(
    session: &mut Session,
    record_type: u16,
    object_id: u64,
    body: &Vec<u8>,
    r: LaneStep,
)
    requires
        old(session).wf(),
        call_ensures(Session::serve_lane, (session, record_type, object_id, body), r),
    ensures
        record_type != 5 ==> *final(session) == *old(session),
        r is Ask ==> record_type == 0x0700,
        record_type == 6 || record_type == 4 ==> r is Continue,
        0x0710 <= record_type <= 0x0713 ==> r is Refuse,
        r matches LaneStep::Refuse(refusal) ==> refusal.code == 5,
        final(session).egress == old(session).egress,
        final(session).grant == old(session).grant,
{
    crate::lane::the_lane_carries_input_and_nothing_bulky(record_type);
}

/// A request for input is answered on the lane under its own record type, about the surface that was
/// asked for. Nothing else of the session changes.
pub proof fn a_request_for_input_is_answered_on_the_lane(
    session: &mut Session,
    request: &InputRequest,
    surface: Option<SurfaceInput>,
    now_us: u64,
    r: bool,
)
    requires
        call_ensures(Session::answer_input, (session, request, surface, now_us), r),
    ensures
        !r ==> final(session).lane_egress == old(session).lane_egress,
        r && crate::actor::has_room(old(session).lane_egress) ==> ({
            let before = crate::actor::records_view(old(session).lane_egress->0.records@);
            let after = crate::actor::records_view(final(session).lane_egress->0.records@);
            &&& after.len() == before.len() + 1
            &&& after.last().0 == 0x0701
            &&& after.last().1 == request.surface_id
        }),
        final(session).egress == old(session).egress,
        final(session).contexts == old(session).contexts,
{
}

} // verus!
