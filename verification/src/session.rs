//! A session and what it owns.

use vstd::prelude::*;
use vivid_protocol::grant::InputGrant;
use vivid_protocol::observation::ObservationQueue;

use crate::actor::{has_room, post, posted, queue_wf, Egress};
use crate::bucket::MarkerAdmission;
use crate::context::{operation_allowed, Contexts, OP_DESKTOP_INPUT};
use crate::decoder::same_text;
use crate::identity::{SessionIdentity, SurfaceIdentity};
use crate::input::{
    active_grant, apply_input_binding, event_record, grant_renewed, granted_within, renewal_record,
    request_answer, revocation_record, revoke_input, revoked_generation, service_input_renewal,
    tagged_event, without_input, Eligible, InputEvent, InputRequest, REASON_LANE_LOSS,
};
use crate::lane::{confirm_lost, lost_slot, LaneState};
use crate::lease::LeaseKey;
use crate::reply::Unencodable;

verus! {

/// One session that a producer opened.
pub struct Session {
    pub identity: SessionIdentity,
    pub root_context_id: u64,
    /// What the session's anchor markers carry.
    pub session_tag: [u8; 16],
    pub channel_key: [u8; 32],
    pub anchor_key: [u8; 32],
    pub accepted_profiles: Vec<String>,
    /// The control connection's queue. Nothing else writes to that connection once the session
    /// serves records.
    pub egress: Option<Egress>,
    pub contexts: Contexts,
    /// The anchors whose markers were seen, by context and number.
    pub seen_anchors: Vec<(u64, u64)>,
    /// The lease this session was activated from, where it is not a root session.
    pub lease: Option<LeaseKey>,
    /// Handed to the lease where the transport is lost.
    pub resume_key: [u8; 32],
    /// The one interactive transport.
    pub lane: Option<LaneState>,
    /// The interactive transport's queue, so that a full control connection cannot hold back the
    /// revocation of input.
    pub lane_egress: Option<Egress>,
    pub grant: InputGrant,
    pub observations: ObservationQueue,
    pub markers: MarkerAdmission,
}

/// Whether a profile is one of these.
pub open spec fn has_profile(profiles: Seq<String>, name: Seq<char>) -> bool {
    exists|i: int| 0 <= i < profiles.len() && (#[trigger] profiles[i])@ == name
}

/// Whether a profile is one of these.
pub fn includes(profiles: &Vec<String>, name: &str) -> (r: bool)
    ensures
        r == has_profile(profiles@, name@),
{
    let mut index: usize = 0;
    while index < profiles.len()
        invariant
            index <= profiles@.len(),
            forall|i: int| 0 <= i < index ==> (#[trigger] profiles@[i])@ != name@,
        decreases profiles@.len() - index,
    {
        if same_text(profiles[index].as_str(), name) {
            return true;
        }
        index = index + 1;
    }
    false
}

/// What the scene says of a surface that input is asked for.
#[derive(Debug, Clone, Copy, PartialEq, Eq, Structural)]
pub struct SurfaceInput {
    /// The lifecycle of the surface, one where it is alive.
    pub lifecycle: u64,
    pub generation: u64,
    /// The classes of input that the surface declared, where its content takes any.
    pub capability_mask: Option<u64>,
    pub presented: bool,
}

/// What a session may be granted, given what the scene says of the surface.
pub open spec fn eligibility(
    session: Session,
    request: InputRequest,
    surface: Option<SurfaceInput>,
) -> Eligible {
    Eligible {
        focused: true,
        consented: true,
        surface_present: surface matches Some(status) && status.lifecycle == 1,
        surface_generation: match surface {
            Some(status) => status.generation,
            None => 0,
        },
        capability_mask: match surface {
            Some(status) => match status.capability_mask {
                Some(mask) => mask,
                None => 0,
            },
            None => 0,
        },
        presented: surface matches Some(status) && status.presented,
        lane_live: session.lane matches Some(state) && state.live,
        may_receive_input: operation_allowed(
            session.contexts.table@,
            request.context_id,
            OP_DESKTOP_INPUT,
        ),
    }
}

/// A lane on which an event was admitted.
pub open spec fn noted(lane: Option<LaneState>) -> Option<LaneState> {
    match lane {
        Some(state) => Some(LaneState { admitted_input: true, ..state }),
        None => None,
    }
}

/// Whether an event was offered to a session: it is sent on the lane, where a grant has its class,
/// and the lane's generation is then used up.
pub open spec fn input_offered(before: Session, after: Session, event: InputEvent, taken: bool) -> bool {
    match event_record(before.grant, event) {
        Some(record) => {
            &&& taken == has_room(before.lane_egress)
            &&& posted(before.lane_egress, after.lane_egress, record)
            &&& after == (Session {
                lane_egress: after.lane_egress,
                lane: if taken {
                    noted(before.lane)
                } else {
                    before.lane
                },
                ..before
            })
        },
        None => !taken && after == before,
    }
}

/// Whether a session's input was revoked, and its producer told where it had any.
pub open spec fn input_revoked(before: Session, after: Session, reason: u64) -> bool {
    &&& match revocation_record(before.grant, reason) {
        Some(record) => posted(before.lane_egress, after.lane_egress, record),
        None => after.lane_egress == before.lane_egress,
    }
    &&& active_grant(before.grant) is Some && revoked_generation(before.grant) is Some
        ==> active_grant(after.grant) is None
    &&& after == (Session {
        lane_egress: after.lane_egress,
        grant: without_input(before.grant, reason),
        ..before
    })
}

/// Whether a session lost the interactive transport of a generation: what is left of another
/// generation stays, and input ends with its own transport.
pub open spec fn lane_lost(before: Session, after: Session, generation: u64) -> bool {
    if before.lane matches Some(state) && state.generation == generation {
        exists|middle: Session| #[trigger]
            input_revoked(
                Session { lane: lost_slot(before.lane, generation), ..before },
                middle,
                REASON_LANE_LOSS,
            ) && after == (Session { lane_egress: None, ..middle })
    } else {
        after == before
    }
}

impl Session {
    /// The session's queues are within their bounds and its contexts occur once each.
    pub open spec fn wf(&self) -> bool {
        queue_wf(self.egress) && queue_wf(self.lane_egress) && self.contexts.wf()
    }

    /// Whether the session negotiated a profile.
    pub fn supports(&self, profile: &str) -> (r: bool)
        ensures
            r == has_profile(self.accepted_profiles@, profile@),
    {
        includes(&self.accepted_profiles, profile)
    }

    /// Queue one record on the session's control connection. `false` means that it was not taken.
    pub fn post_control(&mut self, record_type: u16, object_id: u64, body: Vec<u8>) -> (r: bool)
        requires
            old(self).wf(),
        ensures
            final(self).wf(),
            r == has_room(old(self).egress),
            posted(old(self).egress, final(self).egress, (record_type, object_id, body@)),
            *final(self) == (Session { egress: final(self).egress, ..*old(self) }),
    {
        post(&mut self.egress, record_type, object_id, body)
    }

    /// Queue one record on the session's interactive lane. `false` means that it was not taken.
    pub fn post_lane(&mut self, record_type: u16, object_id: u64, body: Vec<u8>) -> (r: bool)
        requires
            old(self).wf(),
        ensures
            final(self).wf(),
            r == has_room(old(self).lane_egress),
            posted(old(self).lane_egress, final(self).lane_egress, (record_type, object_id, body@)),
            *final(self) == (Session { lane_egress: final(self).lane_egress, ..*old(self) }),
    {
        post(&mut self.lane_egress, record_type, object_id, body)
    }

    /// What the session may be granted, given what the scene says of the surface.
    pub fn input_eligibility(&self, request: &InputRequest, surface: Option<SurfaceInput>) -> (r: Eligible)
        requires
            self.wf(),
        ensures
            r == eligibility(*self, *request, surface),
    {
        let lane_live = match &self.lane {
            Some(state) => state.live(),
            None => false,
        };
        let may_receive_input = self.contexts.allows(request.context_id, OP_DESKTOP_INPUT);
        match surface {
            Some(status) => Eligible {
                focused: true,
                consented: true,
                surface_present: status.lifecycle == 1,
                surface_generation: status.generation,
                capability_mask: match status.capability_mask {
                    Some(mask) => mask,
                    None => 0,
                },
                presented: status.presented,
                lane_live,
                may_receive_input,
            },
            None => Eligible {
                focused: true,
                consented: true,
                surface_present: false,
                surface_generation: 0,
                capability_mask: 0,
                presented: false,
                lane_live,
                may_receive_input,
            },
        }
    }

    /// The surface that a request for input names, where the numbers name one.
    pub fn input_surface(&self, request: &InputRequest) -> (r: Option<SurfaceIdentity>)
        ensures
            match r {
                Some(surface) => request.context_id != 0 && request.surface_id != 0
                    && surface.surface_id == request.surface_id && surface.context.context_id
                    == request.context_id && surface.context.session == self.identity,
                None => request.context_id == 0 || request.surface_id == 0,
            },
    {
        match self.identity.context(request.context_id) {
            Ok(context) => match context.surface(request.surface_id) {
                Ok(surface) => Some(surface),
                Err(_) => None,
            },
            Err(_) => None,
        }
    }

    /// Answer a request for input under what the presenter knows.
    pub fn bind_input(
        &mut self,
        request: &InputRequest,
        surface: Option<SurfaceInput>,
        now_us: u64,
    ) -> (r: Result<Vec<u8>, Unencodable>)
        requires
            old(self).wf(),
        ensures
            final(self).wf(),
            ({
                let answer = request_answer(
                    old(self).grant,
                    *request,
                    eligibility(*old(self), *request, surface),
                    now_us,
                );
                &&& *final(self) == (Session { grant: answer.0, ..*old(self) })
                &&& match r {
                    Ok(body) => answer.1 == Some(body@),
                    Err(_) => answer.1 is None,
                }
            }),
            granted_within(
                active_grant(old(self).grant),
                active_grant(final(self).grant),
                *request,
                eligibility(*old(self), *request, surface),
            ),
    {
        let eligible = self.input_eligibility(request, surface);
        apply_input_binding(&mut self.grant, request, &eligible, now_us)
    }

    /// Send what the person at the window did, where this session holds a grant for it.
    pub fn offer_input(&mut self, event: InputEvent) -> (r: bool)
        requires
            old(self).wf(),
        ensures
            final(self).wf(),
            input_offered(*old(self), *final(self), event, r),
    {
        match tagged_event(&self.grant, event) {
            Some((record_type, surface_id, body)) => {
                let taken = self.post_lane(record_type, surface_id, body);
                if taken {
                    if let Some(state) = &mut self.lane {
                        state.note_input();
                    }
                }
                taken
            },
            None => false,
        }
    }

    /// Revoke the session's input, and tell its producer where it had any.
    pub fn revoke_input(&mut self, reason: u64)
        requires
            old(self).wf(),
        ensures
            final(self).wf(),
            input_revoked(*old(self), *final(self), reason),
    {
        if let Some((record_type, surface_id, body)) = revoke_input(&mut self.grant, reason) {
            self.post_lane(record_type, surface_id, body);
        }
    }

    /// Send the renewal that has fallen due, where one has.
    pub fn renew_input(&mut self, now_us: u64)
        requires
            old(self).wf(),
        ensures
            final(self).wf(),
            match renewal_record(old(self).grant, now_us) {
                Some(record) => posted(
                    old(self).lane_egress,
                    final(self).lane_egress,
                    record,
                ),
                None => final(self).lane_egress == old(self).lane_egress,
            },
            *final(self) == (Session {
                grant: grant_renewed(old(self).grant, now_us).0,
                lane_egress: final(self).lane_egress,
                ..*old(self)
            }),
    {
        if let Some((record_type, surface_id, body)) = service_input_renewal(
            &mut self.grant,
            now_us,
        ) {
            self.post_lane(record_type, surface_id, body);
        }
    }

    /// Let go of the interactive transport of a generation. A later generation is left alone.
    pub fn lose_lane(&mut self, generation: u64)
        requires
            old(self).wf(),
        ensures
            final(self).wf(),
            lane_lost(*old(self), *final(self), generation),
    {
        let owned = match &self.lane {
            Some(state) => state.generation() == generation,
            None => false,
        };
        if owned {
            confirm_lost(&mut self.lane, generation);
            let ghost start = *self;
            self.revoke_input(REASON_LANE_LOSS);
            let ghost middle = *self;
            self.lane_egress = None;
            assert(input_revoked(start, middle, REASON_LANE_LOSS));
        }
    }
}

/// Input is not granted before something was shown on the surface: what the person at the window
/// does until then is not sent.
pub proof fn input_waits_for_the_first_picture(
    before: Session,
    after: Session,
    request: InputRequest,
    surface: Option<SurfaceInput>,
    event: InputEvent,
)
    requires
        active_grant(before.grant) is None,
        granted_within(
            active_grant(before.grant),
            active_grant(after.grant),
            request,
            eligibility(before, request, surface),
        ),
        surface matches Some(status) ==> !status.presented,
    ensures
        event_record(after.grant, event) is None,
{
}

/// Input ends with its transport: once the transport of the current generation is lost, nothing that
/// the person at the window does reaches the session.
pub proof fn a_lost_lane_ends_its_input(before: Session, after: Session, generation: u64, event: InputEvent)
    requires
        lane_lost(before, after, generation),
        before.lane matches Some(state) && state.generation == generation,
        active_grant(before.grant) is None || revoked_generation(before.grant) is Some,
    ensures
        event_record(after.grant, event) is None,
        after.lane matches Some(state) && !state.live,
        after.lane_egress is None,
{
}

/// What a surface may receive is what stands of it: that it is there, what generation it is at, what
/// it can do and whether it is shown; the lane has to be live, and the context has to be allowed
/// input.
pub proof fn eligibility_is_what_stands_of_the_surface(
    session: &Session,
    request: &InputRequest,
    surface: Option<SurfaceInput>,
    r: Eligible,
)
    requires
        session.wf(),
        call_ensures(Session::input_eligibility, (session, request, surface), r),
    ensures
        r.focused && r.consented,
        r.surface_present <==> (surface matches Some(status) && status.lifecycle == 1),
        surface matches Some(status) ==> r.surface_generation == status.generation && r.presented
            == status.presented && (status.capability_mask matches Some(mask) ==> r.capability_mask
            == mask),
        surface is None ==> !r.presented && r.capability_mask == 0 && r.surface_generation == 0,
        r.lane_live <==> (session.lane matches Some(state) && state.live),
        r.may_receive_input <==> operation_allowed(
            session.contexts.table@,
            request.context_id,
            OP_DESKTOP_INPUT,
        ),
{
}

/// The surface that a request names is one of the session that asks.
pub proof fn input_is_asked_for_a_surface_of_the_session(
    session: &Session,
    request: &InputRequest,
    r: Option<SurfaceIdentity>,
)
    requires
        call_ensures(Session::input_surface, (session, request), r),
    ensures
        r is Some <==> request.context_id != 0 && request.surface_id != 0,
        r matches Some(surface) ==> surface.context.session == session.identity
            && surface.context.context_id == request.context_id && surface.surface_id
            == request.surface_id,
{
}

/// Input goes out on the lane and nowhere else, and is noted there; input that nobody may have goes
/// nowhere.
pub proof fn input_goes_out_on_the_lane(session: &mut Session, event: InputEvent, r: bool)
    requires
        old(session).wf(),
        call_ensures(Session::offer_input, (session, event), r),
    ensures
        final(session).egress == old(session).egress,
        r ==> event_record(old(session).grant, event) is Some && has_room(old(session).lane_egress),
        r && old(session).lane is Some ==> final(session).lane->0.admitted_input,
        !r ==> final(session).lane == old(session).lane,
        active_grant(old(session).grant) is None ==> !r && final(session).lane_egress == old(session).lane_egress,
        final(session).grant == old(session).grant,
{
}

/// Control records go out on the control connection and lane records on the lane, each leaving the
/// other alone.
pub proof fn each_record_goes_out_on_its_own_connection(
    session: &mut Session,
    record_type: u16,
    object_id: u64,
    body: Vec<u8>,
    taken: bool,
    other: &mut Session,
    carried: bool,
)
    requires
        old(session).wf(),
        *old(other) == *old(session),
        call_ensures(Session::post_control, (session, record_type, object_id, body), taken),
        call_ensures(Session::post_lane, (other, record_type, object_id, body), carried),
    ensures
        final(session).lane_egress == old(session).lane_egress,
        final(other).egress == old(other).egress,
        taken ==> (final(session).egress matches Some(queue) && crate::actor::records_view(queue.records@).last()
            == (record_type, object_id, body@)),
        carried ==> (final(other).lane_egress matches Some(queue) && crate::actor::records_view(
            queue.records@,
        ).last() == (record_type, object_id, body@)),
        taken ==> old(session).egress is Some,
{
}

/// A profile is supported exactly where it was accepted.
pub proof fn a_profile_is_supported_where_it_was_accepted(session: &Session, profile: &str, r: bool)
    requires
        call_ensures(Session::supports, (session, profile), r),
    ensures
        r <==> exists|i: int|
            0 <= i < session.accepted_profiles@.len() && (#[trigger] session.accepted_profiles@[i])@
                == profile@,
{
}

/// Input that is revoked is over, and the revocation goes out on the lane, not among the answers.
pub proof fn revoked_input_is_over(session: &mut Session, reason: u64)
    requires
        call_ensures(Session::revoke_input, (session, reason), ()),
    ensures
        active_grant(old(session).grant) is None ==> final(session).lane_egress == old(session).lane_egress,
        active_grant(old(session).grant) is Some && revoked_generation(old(session).grant) is Some
            ==> active_grant(final(session).grant) is None,
        final(session).egress == old(session).egress,
        final(session).contexts == old(session).contexts,
{
}

/// A renewal goes out on the lane, not among the answers, and changes nothing but the grant.
pub proof fn a_renewal_goes_out_on_the_lane(session: &mut Session, now_us: u64)
    requires
        call_ensures(Session::renew_input, (session, now_us), ()),
    ensures
        final(session).egress == old(session).egress,
        final(session).contexts == old(session).contexts,
        final(session).identity == old(session).identity,
        active_grant(final(session).grant) is None ==> final(session).lane_egress == old(session).lane_egress,
{
}

} // verus!
