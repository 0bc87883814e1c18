//! Complete identities.
//!
//! Every number a producer picks is scoped by the identity that owns it, so two sessions that reuse
//! the same numbers never name the same object.

use vstd::prelude::*;

use crate::table::TableKey;

verus! {

/// Which kind of identity was given the reserved number zero.
#[derive(Clone, Copy, Debug, PartialEq, Eq, Structural)]
pub enum IdentityError {
    Session,
    Context,
    Surface,
    Track,
    Anchor,
}

/// One run of a presenter.
#[derive(Clone, Copy, Debug, PartialEq, Eq)]
pub struct PresenterInstanceId(pub [u8; 16]);

/// A logical session of one presenter run.
#[derive(Clone, Copy, Debug, PartialEq, Eq)]
pub struct SessionIdentity {
    pub presenter: PresenterInstanceId,
    pub session_id: u64,
}

/// A context owned by a session.
#[derive(Clone, Copy, Debug, PartialEq, Eq)]
pub struct ContextIdentity {
    pub session: SessionIdentity,
    pub context_id: u64,
}

/// A surface owned by a context.
#[derive(Clone, Copy, Debug, PartialEq, Eq)]
pub struct SurfaceIdentity {
    pub context: ContextIdentity,
    pub surface_id: u64,
}

/// A track owned by a surface.
#[derive(Clone, Copy, Debug, PartialEq, Eq)]
pub struct TrackIdentity {
    pub surface: SurfaceIdentity,
    pub track_id: u64,
}

/// A terminal anchor owned by a context.
#[derive(Clone, Copy, Debug, PartialEq, Eq)]
pub struct AnchorIdentity {
    pub context: ContextIdentity,
    pub anchor_id: u64,
}

/// Whether two sixteen-byte values are equal.
pub fn same_bytes16(left: &[u8; 16], right: &[u8; 16]) -> (r: bool)
    ensures
        r == (*left == *right),
{
    let mut index: usize = 0;
    while index < 16
        invariant
            index <= 16,
            left@.len() == 16,
            right@.len() == 16,
            forall|k: int| 0 <= k < index ==> left@[k] == right@[k],
        decreases 16 - index,
    {
        if left[index] != right[index] {
            return false;
        }
        index = index + 1;
    }
    assert(left@ =~= right@);
    assert(*left =~= *right);
    true
}

/// Whether two thirty-two-byte values are equal.
pub fn same_bytes32(left: &[u8; 32], right: &[u8; 32]) -> (r: bool)
    ensures
        r == (*left == *right),
{
    let mut index: usize = 0;
    while index < 32
        invariant
            index <= 32,
            left@.len() == 32,
            right@.len() == 32,
            forall|k: int| 0 <= k < index ==> left@[k] == right@[k],
        decreases 32 - index,
    {
        if left[index] != right[index] {
            return false;
        }
        index = index + 1;
    }
    assert(left@ =~= right@);
    assert(*left =~= *right);
    true
}

impl SessionIdentity {
    /// The session `session_id` of `presenter`. Zero names no session.
    pub fn new(presenter: PresenterInstanceId, session_id: u64) -> (r: Result<SessionIdentity, IdentityError>)
        ensures
            r == (if session_id == 0 {
                Err::<SessionIdentity, IdentityError>(IdentityError::Session)
            } else {
                Ok(SessionIdentity { presenter, session_id })
            }),
    {
        if session_id == 0 {
            return Err(IdentityError::Session);
        }
        Ok(SessionIdentity { presenter, session_id })
    }

    /// The context `context_id` of this session. Zero names no context.
    pub fn context(self, context_id: u64) -> (r: Result<ContextIdentity, IdentityError>)
        ensures
            r == (if context_id == 0 {
                Err::<ContextIdentity, IdentityError>(IdentityError::Context)
            } else {
                Ok(ContextIdentity { session: self, context_id })
            }),
    {
        if context_id == 0 {
            return Err(IdentityError::Context);
        }
        Ok(ContextIdentity { session: self, context_id })
    }
}

impl ContextIdentity {
    /// The surface `surface_id` of this context. Zero names no surface.
    pub fn surface(self, surface_id: u64) -> (r: Result<SurfaceIdentity, IdentityError>)
        ensures
            r == (if surface_id == 0 {
                Err::<SurfaceIdentity, IdentityError>(IdentityError::Surface)
            } else {
                Ok(SurfaceIdentity { context: self, surface_id })
            }),
    {
        if surface_id == 0 {
            return Err(IdentityError::Surface);
        }
        Ok(SurfaceIdentity { context: self, surface_id })
    }

    /// The anchor `anchor_id` of this context. Zero names no anchor.
    pub fn anchor(self, anchor_id: u64) -> (r: Result<AnchorIdentity, IdentityError>)
        ensures
            r == (if anchor_id == 0 {
                Err::<AnchorIdentity, IdentityError>(IdentityError::Anchor)
            } else {
                Ok(AnchorIdentity { context: self, anchor_id })
            }),
    {
        if anchor_id == 0 {
            return Err(IdentityError::Anchor);
        }
        Ok(AnchorIdentity { context: self, anchor_id })
    }
}

impl SurfaceIdentity {
    /// The track `track_id` of this surface. Zero names no track.
    pub fn track(self, track_id: u64) -> (r: Result<TrackIdentity, IdentityError>)
        ensures
            r == (if track_id == 0 {
                Err::<TrackIdentity, IdentityError>(IdentityError::Track)
            } else {
                Ok(TrackIdentity { surface: self, track_id })
            }),
    {
        if track_id == 0 {
            return Err(IdentityError::Track);
        }
        Ok(TrackIdentity { surface: self, track_id })
    }
}

impl TrackIdentity {
    /// The session that owns this track.
    pub open spec fn owner(self) -> SessionIdentity {
        self.surface.context.session
    }
}

impl TableKey for SessionIdentity {
    fn same(&self, other: &Self) -> (r: bool) {
        self.session_id == other.session_id && same_bytes16(&self.presenter.0, &other.presenter.0)
    }
}

impl TableKey for ContextIdentity {
    fn same(&self, other: &Self) -> (r: bool) {
        self.context_id == other.context_id && self.session.same(&other.session)
    }
}

impl TableKey for SurfaceIdentity {
    fn same(&self, other: &Self) -> (r: bool) {
        self.surface_id == other.surface_id && self.context.same(&other.context)
    }
}

impl TableKey for TrackIdentity {
    fn same(&self, other: &Self) -> (r: bool) {
        self.track_id == other.track_id && self.surface.same(&other.surface)
    }
}

impl TableKey for AnchorIdentity {
    fn same(&self, other: &Self) -> (r: bool) {
        self.anchor_id == other.anchor_id && self.context.same(&other.context)
    }
}

} // verus!
