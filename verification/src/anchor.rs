//! Anchors that programs place in the terminal's text.
//!
//! A marker in the terminal's output names a session by its tag, and is authenticated with that
//! session's key. Whoever prints markers is not necessarily that session, so a forged one must cost
//! little and change nothing.

use vstd::prelude::*;

use crate::bucket::{
    bucket_view, marker_admitted, MarkerAdmission, MAX_ACTIVE_ANCHORS, MAX_SEEN_ANCHORS,
};
use crate::context::{operation_allowed, OP_TERMINAL_ANCHOR};
use crate::identity::{AnchorIdentity, ContextIdentity};
use crate::number::unsigned_64;
use crate::protocol::ANCHOR_READY;
use crate::registry::{one_session_changed, told, Registry};
use crate::session::Session;
use crate::value::{boolean, payload_view, unsigned, ValueView};

verus! {

/// A marker, as it is printed.
#[derive(Debug, Clone, Copy, PartialEq, Eq)]
pub struct AnchorMarker {
    pub session_tag: [u8; 16],
    pub context_id: u64,
    pub anchor_id: u64,
    pub authenticator: [u8; 16],
}

/// The marker that a text is, if it is one.
pub uninterp spec fn marker_of(content: Seq<char>) -> Option<AnchorMarker>;

/// The authenticator of a marker under a key.
pub uninterp spec fn anchor_authenticator(
    key: Seq<u8>,
    session_tag: Seq<u8>,
    context_id: u64,
    anchor_id: u64,
) -> Seq<u8>;

/// `vivid_protocol::anchor::parse_marker`: the marker depends on the text alone. Its context and its
/// anchor are never zero.
#[verifier::external_body]
fn parse_marker(content: &str) -> (r: Option<AnchorMarker>)
    ensures
        r == marker_of(content@),
        r matches Some(marker) ==> marker.context_id != 0 && marker.anchor_id != 0,
{
    let marker = vivid_protocol::anchor::parse_marker(content).ok()?;
    Some(AnchorMarker {
        session_tag: marker.session_tag,
        context_id: marker.context_id,
        anchor_id: marker.anchor_id,
        authenticator: marker.authenticator,
    })
}

/// `vivid_protocol::anchor::verify_marker`: whether a marker carries the authenticator that the key,
/// the tag and the two numbers give.
#[verifier::external_body]
fn verify_marker(key: &[u8; 32], marker: &AnchorMarker) -> (r: bool)
    ensures
        r == (anchor_authenticator(
            key@,
            marker.session_tag@,
            marker.context_id,
            marker.anchor_id,
        ) == marker.authenticator@),
{
    let key = vivid_protocol::anchor::AnchorKey::new(*key);
    let marker = vivid_protocol::anchor::AnchorMarker {
        session_tag: marker.session_tag,
        context_id: marker.context_id,
        anchor_id: marker.anchor_id,
        authenticator: marker.authenticator,
    };
    vivid_protocol::anchor::verify_marker(&key, &marker)
}

/// Whether a marker was printed with a session's key.
pub open spec fn authentic(session: Session, marker: AnchorMarker) -> bool {
    anchor_authenticator(
        session.anchor_key@,
        marker.session_tag@,
        marker.context_id,
        marker.anchor_id,
    ) == marker.authenticator@
}

/// Whether a session's budget lets one more marker through.
pub open spec fn affordable(markers: MarkerAdmission, now_us: u64) -> bool {
    marker_admitted(
        bucket_view(markers.bucket),
        unsigned_64(now_us - markers.replenished_us),
    ).1
}

/// A session's budget after one more marker.
pub open spec fn charged(before: MarkerAdmission, after: MarkerAdmission, now_us: u64) -> bool {
    &&& after.replenished_us == now_us
    &&& bucket_view(after.bucket) == marker_admitted(
        bucket_view(before.bucket),
        unsigned_64(now_us - before.replenished_us),
    ).0
    &&& after.admitted == (if affordable(before, now_us) {
        unsigned_64(before.admitted + 1)
    } else {
        before.admitted
    })
}

/// Whether a marker is the session's own, for a context that may anchor.
pub open spec fn trusted_marker(session: Session, marker: AnchorMarker, now_us: u64) -> bool {
    affordable(session.markers, now_us) && authentic(session, marker) && operation_allowed(
        session.contexts.table@,
        marker.context_id,
        OP_TERMINAL_ANCHOR,
    )
}

/// Whether a marker is remembered: it is trusted, not known, and there is room.
pub open spec fn remembered(session: Session, marker: AnchorMarker, now_us: u64) -> bool {
    trusted_marker(session, marker, now_us) && session.seen_anchors@.len() < MAX_SEEN_ANCHORS
        && !session.seen_anchors@.contains((marker.context_id, marker.anchor_id))
}

/// Whether a marker places an anchor: it is remembered, and one more may be active.
pub open spec fn places(session: Session, marker: AnchorMarker, now_us: u64) -> bool {
    remembered(session, marker, now_us) && session.seen_anchors@.len() < MAX_ACTIVE_ANCHORS
}

/// What a session looks like after a marker that names it.
pub open spec fn marker_taken(before: Session, after: Session, marker: AnchorMarker, now_us: u64) -> bool {
    &&& charged(before.markers, after.markers, now_us)
    &&& after.seen_anchors@ == (if remembered(before, marker, now_us) {
        before.seen_anchors@.push((marker.context_id, marker.anchor_id))
    } else {
        before.seen_anchors@
    })
    &&& after == (Session {
        markers: after.markers,
        seen_anchors: after.seen_anchors,
        ..before
    })
}

/// The anchor of a session that a marker names.
pub open spec fn named_anchor(session: Session, marker: AnchorMarker) -> AnchorIdentity {
    AnchorIdentity {
        context: ContextIdentity { session: session.identity, context_id: marker.context_id },
        anchor_id: marker.anchor_id,
    }
}

fn seen(known: &Vec<(u64, u64)>, context_id: u64, anchor_id: u64) -> (r: bool)
    ensures
        r == known@.contains((context_id, anchor_id)),
{
    let mut index: usize = 0;
    while index < known.len()
        invariant
            index <= known@.len(),
            forall|i: int| 0 <= i < index ==> known@[i] != (context_id, anchor_id),
        decreases known@.len() - index,
    {
        let entry = known[index];
        if entry.0 == context_id && entry.1 == anchor_id {
            assert(known@[index as int] == (context_id, anchor_id));
            return true;
        }
        index = index + 1;
    }
    false
}

impl Session {
    /// Decide on a marker that carries this session's tag. Whether it places an anchor.
    pub fn take_marker(&mut self, marker: &AnchorMarker, now_us: u64) -> (r: bool)
        requires
            old(self).wf(),
        ensures
            final(self).wf(),
            marker_taken(*old(self), *final(self), *marker, now_us),
            r == places(*old(self), *marker, now_us),
    {
        if !self.markers.admit_marker(now_us) {
            return false;
        }
        if !verify_marker(&self.anchor_key, marker) || !self.contexts.allows(
            marker.context_id,
            OP_TERMINAL_ANCHOR,
        ) {
            return false;
        }
        if self.seen_anchors.len() >= MAX_SEEN_ANCHORS || seen(
            &self.seen_anchors,
            marker.context_id,
            marker.anchor_id,
        ) {
            return false;
        }
        self.seen_anchors.push((marker.context_id, marker.anchor_id));
        self.seen_anchors.len() as u64 <= MAX_ACTIVE_ANCHORS
    }
}

impl Registry {
    /// Decide on a marker in the terminal's output. The anchor it places, if it places one. A tag
    /// that names no session is refused before anything is hashed.
    pub fn take_marker(&mut self, content: &str, now_us: u64) -> (r: Option<AnchorIdentity>)
        requires
            old(self).wf(),
        ensures
            final(self).wf(),
            *final(self) == (Registry { sessions: final(self).sessions, ..*old(self) }),
            match marker_of(content@) {
                Some(marker) => match old(self).tagged(marker.session_tag) {
                    Some(id) => {
                        let before = old(self).sessions@[id];
                        &&& one_session_changed(old(self).sessions@, final(self).sessions@, id)
                        &&& marker_taken(before, final(self).sessions@[id], marker, now_us)
                        &&& r == (if places(before, marker, now_us) {
                            Some(named_anchor(before, marker))
                        } else {
                            None
                        })
                    },
                    None => r is None && *final(self) == *old(self),
                },
                None => r is None && *final(self) == *old(self),
            },
    {
        let marker = match parse_marker(content) {
            Some(marker) => marker,
            None => {
                return None;
            },
        };
        let id = match self.session_by_tag(&marker.session_tag) {
            Some(id) => id,
            None => {
                return None;
            },
        };
        let ghost before = self.sessions@;
        let session = match self.sessions.get_mut(&id) {
            Some(session) => session,
            None => {
                return None;
            },
        };
        let identity = session.identity;
        let placed = session.take_marker(&marker, now_us);
        assert(self.sessions@.dom() =~= before.dom());
        if !placed {
            return None;
        }
        match identity.context(marker.context_id) {
            Ok(context) => match context.anchor(marker.anchor_id) {
                Ok(anchor) => Some(anchor),
                Err(_) => None,
            },
            Err(_) => None,
        }
    }
}

/// What a session is told of an anchor that is ready: where it is, and whether it is in view.
pub open spec fn anchor_ready_fields(
    anchor: AnchorIdentity,
    column: u64,
    line: i32,
    target_generation: u64,
) -> Seq<(u64, ValueView)> {
    seq![
        (0u64, ValueView::Unsigned(anchor.context.context_id)),
        (1u64, ValueView::Unsigned(anchor.anchor_id)),
        (2u64, ValueView::Unsigned(1)),
        (3u64, ValueView::Unsigned(column)),
        (4u64, ValueView::Unsigned(if line >= 0 {
            line as u64
        } else {
            0
        })),
        (5u64, ValueView::Bool(line >= 0)),
        (6u64, ValueView::Unsigned(target_generation)),
    ]
}

/// What a session is told of an anchor that is gone.
pub open spec fn anchor_gone_fields(anchor: AnchorIdentity) -> Seq<(u64, ValueView)> {
    seq![
        (0u64, ValueView::Unsigned(anchor.context.context_id)),
        (1u64, ValueView::Unsigned(anchor.anchor_id)),
        (2u64, ValueView::Unsigned(2)),
    ]
}

/// Whether the owners of anchors were told of them, one after the other.
pub open spec fn owners_told(
    before: Map<u64, Session>,
    after: Map<u64, Session>,
    record_type: u16,
    anchors: Seq<AnchorIdentity>,
) -> bool
    decreases anchors.len(),
{
    if anchors.len() == 0 {
        after == before
    } else {
        let anchor = anchors.last();
        exists|middle: Map<u64, Session>|
            owners_told(before, middle, record_type, anchors.drop_last()) && #[trigger] told(
                middle,
                after,
                anchor.context.session.session_id,
                record_type,
                anchor.anchor_id,
                anchor_gone_fields(anchor),
            )
    }
}

impl Registry {
    /// Tell the owner of an anchor that it is ready.
    pub fn announce_anchor(
        &mut self,
        anchor: AnchorIdentity,
        column: u64,
        line: i32,
        target_generation: u64,
    )
        requires
            old(self).wf(),
        ensures
            final(self).wf(),
            *final(self) == (Registry { sessions: final(self).sessions, ..*old(self) }),
            told(
                old(self).sessions@,
                final(self).sessions@,
                anchor.context.session.session_id,
                ANCHOR_READY,
                anchor.anchor_id,
                anchor_ready_fields(anchor, column, line, target_generation),
            ),
    {
        let shown_line: u64 = if line >= 0 {
            line as u64
        } else {
            0
        };
        let payload = vec![
            (0u64, unsigned(anchor.context.context_id)),
            (1u64, unsigned(anchor.anchor_id)),
            (2u64, unsigned(1)),
            (3u64, unsigned(column)),
            (4u64, unsigned(shown_line)),
            (5u64, boolean(line >= 0)),
            (6u64, unsigned(target_generation)),
        ];
        assert(payload_view(payload@) =~= anchor_ready_fields(
            anchor,
            column,
            line,
            target_generation,
        ));
        self.tell(anchor.context.session.session_id, ANCHOR_READY, anchor.anchor_id, payload);
    }

    /// Tell the owners of anchors that they are gone.
    pub fn notify_anchor_events(&mut self, record_type: u16, anchors: &Vec<AnchorIdentity>)
        requires
            old(self).wf(),
        ensures
            final(self).wf(),
            *final(self) == (Registry { sessions: final(self).sessions, ..*old(self) }),
            owners_told(old(self).sessions@, final(self).sessions@, record_type, anchors@),
    {
        let ghost before = self.sessions@;
        let mut index: usize = 0;
        assert(anchors@.take(0) =~= Seq::<AnchorIdentity>::empty());
        while index < anchors.len()
            invariant
                self.wf(),
                before == old(self).sessions@,
                index <= anchors@.len(),
                *self == (Registry { sessions: self.sessions, ..*old(self) }),
                owners_told(before, self.sessions@, record_type, anchors@.take(index as int)),
            decreases anchors@.len() - index,
        {
            let anchor = anchors[index];
            let ghost middle = self.sessions@;
            let payload = vec![
                (0u64, unsigned(anchor.context.context_id)),
                (1u64, unsigned(anchor.anchor_id)),
                (2u64, unsigned(2)),
            ];
            assert(payload_view(payload@) =~= anchor_gone_fields(anchor));
            self.tell(anchor.context.session.session_id, record_type, anchor.anchor_id, payload);
            proof {
                let longer = anchors@.take(index + 1);
                assert(longer.drop_last() =~= anchors@.take(index as int));
                assert(longer.last() == anchor);
                assert(told(
                    middle,
                    self.sessions@,
                    longer.last().context.session.session_id,
                    record_type,
                    longer.last().anchor_id,
                    anchor_gone_fields(longer.last()),
                ));
            }
            index = index + 1;
        }
        assert(anchors@.take(index as int) =~= anchors@);
    }
}

/// A marker with a wrong authenticator changes nothing but the budget it was verified on.
pub proof fn a_forged_marker_changes_only_the_budget(
    before: Session,
    after: Session,
    marker: AnchorMarker,
    now_us: u64,
)
    requires
        !authentic(before, marker),
        marker_taken(before, after, marker, now_us),
    ensures
        after == (Session { markers: after.markers, seen_anchors: after.seen_anchors, ..before }),
        after.seen_anchors@ == before.seen_anchors@,
        !places(before, marker, now_us),
{
}

/// An anchor is placed once: its marker is refused from then on.
pub proof fn an_anchor_is_placed_once(
    before: Session,
    after: Session,
    marker: AnchorMarker,
    first_us: u64,
    second_us: u64,
)
    requires
        places(before, marker, first_us),
        marker_taken(before, after, marker, first_us),
    ensures
        !places(after, marker, second_us),
{
    let entry = (marker.context_id, marker.anchor_id);
    assert(after.seen_anchors@[before.seen_anchors@.len() as int] == entry);
}

/// An anchor that is ready is told with its names, where it is, and for which target; a line above
/// the screen is told as not visible.
pub proof fn a_ready_anchor_is_told_where_it_is(
    anchor: AnchorIdentity,
    column: u64,
    line: i32,
    target_generation: u64,
)
    ensures
        ({
            let ready = anchor_ready_fields(anchor, column, line, target_generation);
            let gone = anchor_gone_fields(anchor);
            &&& ready.len() == 7 && gone.len() == 3
            &&& forall|i: int| 0 <= i < 7 ==> (#[trigger] ready[i]).0 == i
            &&& ready[0].1 == ValueView::Unsigned(anchor.context.context_id)
            &&& ready[1].1 == ValueView::Unsigned(anchor.anchor_id)
            &&& ready[2].1 == ValueView::Unsigned(1)
            &&& ready[3].1 == ValueView::Unsigned(column)
            &&& line >= 0 ==> ready[4].1 == ValueView::Unsigned(line as u64) && ready[5].1
                == ValueView::Bool(true)
            &&& line < 0 ==> ready[4].1 == ValueView::Unsigned(0) && ready[5].1 == ValueView::Bool(
                false,
            )
            &&& ready[6].1 == ValueView::Unsigned(target_generation)
            &&& gone[0] == ready[0] && gone[1] == ready[1]
            &&& gone[2] == (2u64, ValueView::Unsigned(2))
        }),
{
}

/// A marker places an anchor only where it was made with the key of the session, by a context that
/// may, for an anchor that was not seen, while the session can afford it and has room. The anchor is
/// the one it names, of that session.
pub proof fn a_marker_places_only_what_the_session_made(
    session: &mut Session,
    marker: &AnchorMarker,
    now_us: u64,
    r: bool,
)
    requires
        old(session).wf(),
        call_ensures(Session::take_marker, (session, marker, now_us), r),
    ensures
        r ==> anchor_authenticator(
            old(session).anchor_key@,
            marker.session_tag@,
            marker.context_id,
            marker.anchor_id,
        ) == marker.authenticator@,
        r ==> !old(session).seen_anchors@.contains((marker.context_id, marker.anchor_id)) && final(session).seen_anchors@.contains((marker.context_id, marker.anchor_id)),
        r ==> old(session).seen_anchors@.len() < 4096,
        r ==> operation_allowed(
            old(session).contexts.table@,
            marker.context_id,
            OP_TERMINAL_ANCHOR,
        ),
        named_anchor(*old(session), *marker).anchor_id == marker.anchor_id,
        named_anchor(*old(session), *marker).context.context_id == marker.context_id,
        named_anchor(*old(session), *marker).context.session == old(session).identity,
        final(session).seen_anchors@.len() <= old(session).seen_anchors@.len() + 1,
        final(session).contexts == old(session).contexts && final(session).identity == old(session).identity,
{
    if r {
        let known = final(session).seen_anchors@;
        assert(known[known.len() - 1] == (marker.context_id, marker.anchor_id));
    }
}

/// What becomes of anchors is told to the sessions that own them and to no other.
pub proof fn only_the_owners_of_anchors_are_told(
    before: Map<u64, Session>,
    after: Map<u64, Session>,
    record_type: u16,
    anchors: Seq<AnchorIdentity>,
    other: u64,
)
    requires
        owners_told(before, after, record_type, anchors),
        forall|i: int|
            0 <= i < anchors.len() ==> (#[trigger] anchors[i]).context.session.session_id != other,
    ensures
        after.dom() == before.dom(),
        before.contains_key(other) ==> after[other] == before[other],
    decreases anchors.len(),
{
    if anchors.len() > 0 {
        let anchor = anchors.last();
        let middle = choose|middle: Map<u64, Session>|
            owners_told(before, middle, record_type, anchors.drop_last()) && #[trigger] told(
                middle,
                after,
                anchor.context.session.session_id,
                record_type,
                anchor.anchor_id,
                anchor_gone_fields(anchor),
            );
        only_the_owners_of_anchors_are_told(before, middle, record_type, anchors.drop_last(), other);
        if before.contains_key(other) {
            assert(middle.dom().contains(other));
            assert(after.dom().contains(other));
            assert(after.contains_key(other));
        }
    }
}

/// An anchor that is gone is told by its context, its number and its state.
pub proof fn a_gone_anchor_is_named(anchor: AnchorIdentity)
    ensures
        anchor_gone_fields(anchor).len() == 3,
        anchor_gone_fields(anchor)[0] == (0u64, ValueView::Unsigned(anchor.context.context_id)),
        anchor_gone_fields(anchor)[1] == (1u64, ValueView::Unsigned(anchor.anchor_id)),
        anchor_gone_fields(anchor)[2] == (2u64, ValueView::Unsigned(2)),
{
}

} // verus!
