//! The contexts of a session: which operations it may do where, and on what budget.
//!
//! A context delegates to children out of its own budget, so that two of them are never handed the
//! same capacity. Revoking a context takes everything under it along.

use vstd::prelude::*;
use vivid_protocol::cbor::Value;
use vivid_protocol::context::ContextState;
use vivid_protocol::messages::MessageError;

use crate::contract::{least, ResourceContract, RESOURCE_COUNT};
use crate::identity::SessionIdentity;
use crate::table::{without, Table};
use crate::value::{value_view, ValueView};

verus! {

/// May be told of changes.
pub const OP_OBSERVE: u64 = 1;

/// May have surfaces, tracks and media.
pub const OP_SURFACE_TRACK_MEDIA: u64 = 2;

/// May change the scene.
pub const OP_SCENE: u64 = 4;

/// May anchor to the terminal.
pub const OP_TERMINAL_ANCHOR: u64 = 8;

/// May receive desktop input.
pub const OP_DESKTOP_INPUT: u64 = 16;

/// May delegate.
pub const OP_DELEGATE: u64 = 32;

/// May receive dropped files.
pub const OP_RECEIVE_FILE_DROP: u64 = 64;

/// The state of a context, held by the protocol's own type.
#[verifier::external_type_specification]
#[verifier::external_body]
pub struct ExContextState(vivid_protocol::context::ContextState);

/// What the state of a context holds.
pub struct ContextView {
    pub context_id: u64,
    pub classes: u64,
    pub contract: Seq<u64>,
    pub reserved: Seq<u64>,
    pub active: bool,
    pub revision: u64,
}

/// What the protocol's state holds.
pub uninterp spec fn context_view(state: ContextState) -> ContextView;

/// A request for a context.
#[derive(Debug, Clone, Copy, PartialEq, Eq)]
pub struct ContextRequest {
    pub context_id: u64,
    pub parent_context_id: u64,
    pub operation_classes: u64,
    pub lifetime_us: u64,
    pub requested_contract: ResourceContract,
}

/// The request for a context that a payload holds, where it is valid.
pub uninterp spec fn context_decoded(object_id: u64, payload: ValueView) -> Option<ContextRequest>;

/// `vivid_protocol::context::ContextDefinition::decode`: the request depends on the object ID and
/// the payload, and is refused where it is not valid. A valid one names a context other than zero.
#[verifier::external_body]
pub(crate) fn decode_context(object_id: u64, payload: &Value) -> (r: Result<ContextRequest, MessageError>)
    ensures
        match r {
            Ok(request) => context_decoded(object_id, value_view(*payload)) == Some(request)
                && request.context_id != 0,
            Err(_) => context_decoded(object_id, value_view(*payload)) is None,
        },
{
    let definition = vivid_protocol::context::ContextDefinition::decode(object_id, payload)?;
    let ceilings = definition.requested_contract.to_value();
    let values = std::array::from_fn(|key| ceilings.map_value(key as u64).and_then(Value::as_u64).unwrap_or_default());
    Ok(ContextRequest {
        context_id: definition.context_id,
        parent_context_id: definition.parent_context_id,
        operation_classes: definition.operation_classes,
        lifetime_us: definition.lifetime_us,
        requested_contract: ResourceContract { values },
    })
}

/// A state that nothing is reserved of.
pub open spec fn fresh_context(context_id: u64, classes: u64, contract: Seq<u64>) -> ContextView {
    ContextView {
        context_id,
        classes,
        contract,
        reserved: Seq::new(RESOURCE_COUNT as nat, |i: int| 0u64),
        active: true,
        revision: 1,
    }
}

/// `vivid_protocol::context::ContextState::root`: a fresh state, refused for the number zero and
/// for unassigned operation classes. A session with the number zero has no contexts.
#[verifier::external_body]
pub(crate) fn new_context(
    session: SessionIdentity,
    context_id: u64,
    operation_classes: u64,
    contract: &ResourceContract,
) -> (r: Option<ContextState>)
    ensures
        r is Some == (session.session_id != 0 && context_id != 0 && operation_classes <= 127),
        r matches Some(state) ==> context_view(state) == fresh_context(
            context_id,
            operation_classes,
            contract.values@,
        ),
{
    let presenter = vivid_protocol::identity::PresenterInstanceId(session.presenter.0);
    let identity = vivid_protocol::identity::SessionIdentity::new(presenter, session.session_id).ok()?;
    let contract = vivid_protocol::resource::ResourceContract::new(contract.values);
    ContextState::root(identity, context_id, operation_classes, contract).ok()
}

/// What of a request a context can still grant under a policy.
pub open spec fn grantable(context: ContextView, requested: Seq<u64>, policy: Seq<u64>) -> Seq<u64> {
    Seq::new(
        RESOURCE_COUNT as nat,
        |i: int|
            least(least(requested[i], policy[i]), (context.contract[i] - context.reserved[i]) as u64),
    )
}

/// Whether a context may delegate to children of this parent.
pub open spec fn may_delegate(context: ContextView, parent_context_id: u64) -> bool {
    context.active && parent_context_id == context.context_id && context.classes & OP_DELEGATE != 0
}

/// A context after a child was asked for, and whether one was granted.
pub open spec fn reserved_child(
    context: ContextView,
    parent_context_id: u64,
    requested: Seq<u64>,
    policy: Seq<u64>,
) -> (ContextView, bool) {
    if !may_delegate(context, parent_context_id) {
        (context, false)
    } else {
        let granted = grantable(context, requested, policy);
        let after = ContextView {
            reserved: Seq::new(
                RESOURCE_COUNT as nat,
                |i: int| (context.reserved[i] + granted[i]) as u64,
            ),
            ..context
        };
        if context.revision == u64::MAX {
            (after, false)
        } else {
            (ContextView { revision: (context.revision + 1) as u64, ..after }, true)
        }
    }
}

/// `vivid_protocol::context::ContextState::reserve_child`: an active context that may delegate
/// grants its child the classes that both have, and what of the request the policy and the rest of
/// its own budget allow, and holds that back. It is refused outside that authority, and where the
/// revision cannot be counted further. What a context has reserved never exceeds its contract.
/// The child's label plays no part in it.
#[verifier::external_body]
pub(crate) fn reserve_child(
    state: &mut ContextState,
    request: &ContextRequest,
    policy: &ResourceContract,
) -> (r: Option<(u64, ResourceContract)>)
    ensures
        ({
            let before = context_view(*old(state));
            let after = reserved_child(
                before,
                request.parent_context_id,
                request.requested_contract.values@,
                policy.values@,
            );
            &&& context_view(*final(state)) == after.0
            &&& r is Some <==> after.1
        }),
        r matches Some((classes, contract)) ==> classes == request.operation_classes & context_view(
            *old(state),
        ).classes && contract.values@ == grantable(
            context_view(*old(state)),
            request.requested_contract.values@,
            policy.values@,
        ),
{
    let definition = vivid_protocol::context::ContextDefinition {
        context_id: request.context_id, parent_context_id: request.parent_context_id,
        operation_classes: request.operation_classes, label: String::new(),
        lifetime_us: request.lifetime_us,
        requested_contract: vivid_protocol::resource::ResourceContract::new(request.requested_contract.values),
    };
    let policy = vivid_protocol::resource::ResourceContract::new(policy.values);
    let (classes, contract) = state.reserve_child(&definition, &policy).ok()?;
    let ceilings = contract.to_value();
    let values = std::array::from_fn(|key| ceilings.map_value(key as u64).and_then(Value::as_u64).unwrap_or_default());
    Some((classes, ResourceContract { values }))
}

/// Whether a context has this much reserved.
pub open spec fn has_reserved(context: ContextView, contract: Seq<u64>) -> bool {
    forall|i: int| 0 <= i < RESOURCE_COUNT ==> contract[i] <= #[trigger] context.reserved[i]
}

/// A context after a child's budget came back.
pub open spec fn released_child(context: ContextView, contract: Seq<u64>) -> ContextView {
    if !has_reserved(context, contract) {
        context
    } else {
        ContextView {
            reserved: Seq::new(
                RESOURCE_COUNT as nat,
                |i: int| (context.reserved[i] - contract[i]) as u64,
            ),
            revision: if context.revision == u64::MAX {
                context.revision
            } else {
                (context.revision + 1) as u64
            },
            ..context
        }
    }
}

/// `vivid_protocol::context::ContextState::release_child`: what a child had is no longer held back,
/// and the revision moves on; what was not held back stays as it is.
#[verifier::external_body]
pub(crate) fn release_child(state: &mut ContextState, contract: &ResourceContract)
    ensures
        context_view(*final(state)) == released_child(
            context_view(*old(state)),
            contract.values@,
        ),
{
    let _ = state.release_child(&vivid_protocol::resource::ResourceContract::new(contract.values));
}

/// The public field `vivid_protocol::context::ContextState::operation_classes`.
#[verifier::external_body]
fn classes_of(state: &ContextState) -> (r: u64)
    ensures
        r == context_view(*state).classes,
{
    state.operation_classes
}

/// The public field `vivid_protocol::context::ContextState::contract`, moved over.
#[verifier::external_body]
fn contract_of(state: &ContextState) -> (r: ResourceContract)
    ensures
        r.values@ == context_view(*state).contract,
{
    let ceilings = state.contract.to_value();
    let values = std::array::from_fn(|key| ceilings.map_value(key as u64).and_then(Value::as_u64).unwrap_or_default());
    ResourceContract { values }
}

/// A context, and which one it is a child of.
pub struct Context {
    pub parent: Option<u64>,
    pub state: ContextState,
}

/// The contexts of a session.
pub struct Contexts {
    pub table: Table<u64, Context>,
}

/// Whether a context may do an operation.
pub open spec fn operation_allowed(contexts: Map<u64, Context>, context_id: u64, operation: u64) -> bool {
    context_id != 0 && contexts.contains_key(context_id) && context_view(
        contexts[context_id].state,
    ).classes & operation != 0
}

/// Whether some contexts are one context and everything under it.
pub open spec fn is_subtree(contexts: Map<u64, Context>, top: u64, members: Seq<u64>) -> bool {
    &&& members.contains(top)
    &&& forall|id: u64| #[trigger] members.contains(id) ==> contexts.contains_key(id)
    &&& forall|id: u64| #[trigger]
        contexts.contains_key(id) && id != top ==> (members.contains(id) <==> child_of(
            contexts[id],
            members,
        ))
}

/// Whether a context is a child of one of these.
pub open spec fn child_of(context: Context, members: Seq<u64>) -> bool {
    context.parent matches Some(parent) && members.contains(parent)
}

/// Why a context was not made.
#[derive(Debug, Clone, Copy, PartialEq, Eq, Structural)]
pub enum ContextRefusal {
    AlreadyLive,
    ParentAbsent,
    CapacityExhausted,
    InvalidEffective,
}

/// Why a context is not made, if it is not.
pub open spec fn creation_refusal(
    contexts: Map<u64, Context>,
    session: SessionIdentity,
    request: ContextRequest,
    policy: Seq<u64>,
) -> Option<ContextRefusal> {
    if contexts.contains_key(request.context_id) {
        Some(ContextRefusal::AlreadyLive)
    } else if !contexts.contains_key(request.parent_context_id) {
        Some(ContextRefusal::ParentAbsent)
    } else {
        let parent = context_view(contexts[request.parent_context_id].state);
        if !reserved_child(
            parent,
            request.parent_context_id,
            request.requested_contract.values@,
            policy,
        ).1 {
            Some(ContextRefusal::CapacityExhausted)
        } else if session.session_id == 0 || request.context_id == 0 || request.operation_classes
            & parent.classes > 127 {
            Some(ContextRefusal::InvalidEffective)
        } else {
            None
        }
    }
}

/// Whether two maps have the same contexts with the same contents, but for the reservations of one.
pub open spec fn same_but_reserved(
    before: Map<u64, Context>,
    after: Map<u64, Context>,
    changed: u64,
    view: ContextView,
) -> bool {
    &&& after.dom() == before.dom()
    &&& forall|id: u64| #[trigger]
        after.contains_key(id) && id != changed ==> after[id] == before[id]
    &&& after.contains_key(changed) ==> after[changed].parent == before[changed].parent
        && context_view(after[changed].state) == view
}

/// What becomes of a request for a context: the child is there, out of its parent's budget, or the
/// request is refused.
pub open spec fn context_created(
    before: Map<u64, Context>,
    after: Map<u64, Context>,
    session: SessionIdentity,
    request: ContextRequest,
    policy: Seq<u64>,
    outcome: Result<(u64, ResourceContract), ContextRefusal>,
) -> bool {
    let parent = context_view(before[request.parent_context_id].state);
    let reserved = reserved_child(
        parent,
        request.parent_context_id,
        request.requested_contract.values@,
        policy,
    ).0;
    match outcome {
        Ok((classes, contract)) => {
            &&& creation_refusal(before, session, request, policy) is None
            &&& classes == request.operation_classes & parent.classes
            &&& contract.values@ == grantable(parent, request.requested_contract.values@, policy)
            &&& after.contains_key(request.context_id)
            &&& after[request.context_id].parent == Some(request.parent_context_id)
            &&& context_view(after[request.context_id].state) == fresh_context(
                request.context_id,
                classes,
                contract.values@,
            )
            &&& same_but_reserved(
                before,
                after.remove(request.context_id),
                request.parent_context_id,
                reserved,
            )
        },
        Err(refusal) => {
            &&& creation_refusal(before, session, request, policy) == Some(refusal)
            &&& match refusal {
                ContextRefusal::AlreadyLive | ContextRefusal::ParentAbsent => after == before,
                _ => same_but_reserved(before, after, request.parent_context_id, reserved),
            }
        },
    }
}

/// What becomes of a request for a lease's budget: it is held back, or refused, or there is no such
/// context.
pub open spec fn lease_reserved(
    before: Map<u64, Context>,
    after: Map<u64, Context>,
    context_id: u64,
    requested: Seq<u64>,
    policy: Seq<u64>,
    outcome: Option<Option<(u64, ResourceContract)>>,
) -> bool {
    match outcome {
        Some(granted) => {
            let context = context_view(before[context_id].state);
            let reserved = reserved_child(context, context_id, requested, policy);
            &&& before.contains_key(context_id)
            &&& granted is Some <==> reserved.1
            &&& granted matches Some((classes, contract)) ==> classes == context.classes
                && contract.values@ == grantable(context, requested, policy)
            &&& same_but_reserved(before, after, context_id, reserved.0)
        },
        None => !before.contains_key(context_id) && after == before,
    }
}

/// Whether a context was revoked with everything under it, and its budget is back with its parent.
pub open spec fn context_revoked(
    before: Map<u64, Context>,
    after: Map<u64, Context>,
    context_id: u64,
    removed: Seq<u64>,
) -> bool {
    let rest = without(before, removed);
    let revoked = before[context_id];
    &&& before.contains_key(context_id)
    &&& is_subtree(before, context_id, removed)
    &&& match revoked.parent {
        Some(parent) => same_but_reserved(
            rest,
            after,
            parent,
            released_child(context_view(rest[parent].state), context_view(revoked.state).contract),
        ),
        None => after == rest,
    }
}

fn listed(ids: &Vec<u64>, wanted: u64) -> (r: bool)
    ensures
        r == ids@.contains(wanted),
{
    let mut index: usize = 0;
    while index < ids.len()
        invariant
            index <= ids@.len(),
            forall|i: int| 0 <= i < index ==> ids@[i] != wanted,
        decreases ids@.len() - index,
    {
        if ids[index] == wanted {
            return true;
        }
        index = index + 1;
    }
    false
}

/// How many entries are not members.
pub open spec fn outside(entries: Seq<(u64, Context)>, members: Seq<u64>) -> nat
    decreases entries.len(),
{
    if entries.len() == 0 {
        0
    } else {
        outside(entries.drop_last(), members) + (if members.contains(entries.last().0) {
            0nat
        } else {
            1
        })
    }
}

proof fn lemma_outside(entries: Seq<(u64, Context)>, members: Seq<u64>, added: u64)
    ensures
        outside(entries, members.push(added)) <= outside(entries, members),
        !members.contains(added) && (exists|i: int|
            0 <= i < entries.len() && (#[trigger] entries[i]).0 == added) ==> outside(
            entries,
            members.push(added),
        ) < outside(entries, members),
    decreases entries.len(),
{
    assert forall|id: u64| members.push(added).contains(id) <==> members.contains(id) || id
        == added by {
        lemma_contains_push(members, added, id);
    }
    if entries.len() > 0 {
        lemma_outside(entries.drop_last(), members, added);
        if !members.contains(added) && (exists|i: int|
            0 <= i < entries.len() && (#[trigger] entries[i]).0 == added) {
            let i = choose|i: int| 0 <= i < entries.len() && (#[trigger] entries[i]).0 == added;
            if i < entries.len() - 1 {
                assert(entries.drop_last()[i].0 == added);
            }
        }
    }
}

proof fn lemma_contains_push(members: Seq<u64>, added: u64, id: u64)
    ensures
        members.push(added).contains(id) <==> members.contains(id) || id == added,
{
    let longer = members.push(added);
    if members.contains(id) {
        let i = choose|i: int| 0 <= i < members.len() && members[i] == id;
        assert(longer[i] == id);
    }
    if id == added {
        assert(longer[members.len() as int] == id);
    }
}

impl Contexts {
    /// Each context occurs once.
    pub open spec fn wf(&self) -> bool {
        self.table.wf()
    }

    /// A session with its root context.
    pub fn root(
        session: SessionIdentity,
        context_id: u64,
        operation_classes: u64,
        contract: &ResourceContract,
    ) -> (r: Option<Self>)
        ensures
            r is Some <==> session.session_id != 0 && context_id != 0 && operation_classes <= 127,
            r matches Some(contexts) ==> {
                &&& contexts.wf()
                &&& contexts.table@.dom() == set![context_id]
                &&& contexts.table@[context_id].parent is None
                &&& context_view(contexts.table@[context_id].state) == fresh_context(
                    context_id,
                    operation_classes,
                    contract.values@,
                )
            },
    {
        match new_context(session, context_id, operation_classes, contract) {
            Some(state) => {
                let mut table = Table::new();
                table.insert(context_id, Context { parent: None, state });
                assert(table@.dom() =~= set![context_id]);
                Some(Contexts { table })
            },
            None => None,
        }
    }

    /// Whether a context is the session's.
    pub fn contains(&self, context_id: u64) -> (r: bool)
        requires
            self.wf(),
        ensures
            r == (context_id != 0 && self.table@.contains_key(context_id)),
    {
        context_id != 0 && self.table.contains(&context_id)
    }

    /// Whether a context may do an operation.
    pub fn allows(&self, context_id: u64, operation: u64) -> (r: bool)
        requires
            self.wf(),
        ensures
            r == operation_allowed(self.table@, context_id, operation),
    {
        if context_id == 0 {
            return false;
        }
        match self.table.get(&context_id) {
            Some(context) => classes_of(&context.state) & operation != 0,
            None => false,
        }
    }

    /// Make a child context out of its parent's budget.
    pub fn create(
        &mut self,
        session: SessionIdentity,
        request: &ContextRequest,
        policy: &ResourceContract,
    ) -> (r: Result<(u64, ResourceContract), ContextRefusal>)
        requires
            old(self).wf(),
        ensures
            final(self).wf(),
            context_created(
                old(self).table@,
                final(self).table@,
                session,
                *request,
                policy.values@,
                r,
            ),
    {
        if self.table.contains(&request.context_id) {
            return Err(ContextRefusal::AlreadyLive);
        }
        let ghost before = self.table@;
        let granted = match self.table.get_mut(&request.parent_context_id) {
            Some(parent) => reserve_child(&mut parent.state, request, policy),
            None => {
                return Err(ContextRefusal::ParentAbsent);
            },
        };
        assert(self.table@.dom() =~= before.dom());
        let (classes, contract) = match granted {
            Some(granted) => granted,
            None => {
                return Err(ContextRefusal::CapacityExhausted);
            },
        };
        let state = match new_context(session, request.context_id, classes, &contract) {
            Some(state) => state,
            None => {
                return Err(ContextRefusal::InvalidEffective);
            },
        };
        let ghost middle = self.table@;
        let parent = Some(request.parent_context_id);
        self.table.insert(request.context_id, Context { parent, state });
        proof {
            assert(self.table@.remove(request.context_id) =~= middle);
        }
        Ok((classes, contract))
    }

    /// Hold a lease's budget back from the context that delegates it.
    pub fn reserve_lease(
        &mut self,
        context_id: u64,
        lease_id: u64,
        requested: &ResourceContract,
        policy: &ResourceContract,
    ) -> (r: Option<Option<(u64, ResourceContract)>>)
        requires
            old(self).wf(),
        ensures
            final(self).wf(),
            lease_reserved(
                old(self).table@,
                final(self).table@,
                context_id,
                requested.values@,
                policy.values@,
                r,
            ),
    {
        let ghost before = self.table@;
        let granted = match self.table.get_mut(&context_id) {
            Some(context) => {
                let classes = classes_of(&context.state);
                let request = ContextRequest {
                    context_id: lease_id,
                    parent_context_id: context_id,
                    operation_classes: classes,
                    lifetime_us: 0,
                    requested_contract: *requested,
                };
                assert(classes & classes == classes) by (bit_vector);
                reserve_child(&mut context.state, &request, policy)
            },
            None => {
                return None;
            },
        };
        assert(self.table@.dom() =~= before.dom());
        Some(granted)
    }

    /// Give a budget back to the context that delegated it, where that is still there.
    pub fn release(&mut self, context_id: u64, contract: &ResourceContract)
        requires
            old(self).wf(),
        ensures
            final(self).wf(),
            same_but_reserved(
                old(self).table@,
                final(self).table@,
                context_id,
                released_child(context_view(old(self).table@[context_id].state), contract.values@),
            ),
    {
        let ghost before = self.table@;
        if let Some(context) = self.table.get_mut(&context_id) {
            release_child(&mut context.state, contract);
        }
        assert(self.table@.dom() =~= before.dom());
    }

    /// A context and everything under it.
    fn subtree(&self, top: u64) -> (r: Vec<u64>)
        requires
            self.wf(),
            self.table@.contains_key(top),
        ensures
            is_subtree(self.table@, top, r@),
    {
        let mut members: Vec<u64> = Vec::new();
        members.push(top);
        assert(members@[0] == top);
        let ghost entries = self.table.entries@;
        let mut grew = true;
        while grew
            invariant
                self.wf(),
                entries == self.table.entries@,
                members@.contains(top),
                self.table@.contains_key(top),
                forall|id: u64| #[trigger] members@.contains(id) ==> self.table@.contains_key(id),
                forall|id: u64| #[trigger]
                    members@.contains(id) && id != top ==> child_of(self.table@[id], members@),
                !grew ==> forall|i: int|
                    0 <= i < entries.len() && child_of((#[trigger] entries[i]).1, members@)
                        ==> members@.contains(entries[i].0),
            decreases outside(entries, members@), (if grew { 1int } else { 0 }),
        {
            grew = false;
            let ghost start = outside(entries, members@);
            let mut index: usize = 0;
            while index < self.table.entries.len()
                invariant
                    self.wf(),
                    entries == self.table.entries@,
                    index <= entries.len(),
                    members@.contains(top),
                    forall|id: u64| #[trigger] members@.contains(id) ==> self.table@.contains_key(id),
                    forall|id: u64| #[trigger]
                        members@.contains(id) && id != top ==> child_of(self.table@[id], members@),
                    outside(entries, members@) <= start,
                    grew ==> outside(entries, members@) < start,
                    !grew ==> forall|i: int|
                        0 <= i < index && child_of((#[trigger] entries[i]).1, members@)
                            ==> members@.contains(entries[i].0),
                decreases entries.len() - index,
            {
                let id = self.table.entries[index].0;
                let is_child = match self.table.entries[index].1.parent {
                    Some(parent) => listed(&members, parent),
                    None => false,
                };
                if is_child && !listed(&members, id) {
                    let ghost earlier = members@;
                    members.push(id);
                    proof {
                        self.table.lemma_entry(index as int);
                        assert forall|other: u64| #[trigger] members@.contains(other) <==> earlier.contains(
                            other,
                        ) || other == id by {
                            lemma_contains_push(earlier, id, other);
                        }
                        assert forall|other: u64| #[trigger]
                            members@.contains(other) && other != top implies child_of(
                            self.table@[other],
                            members@,
                        ) by {
                            if earlier.contains(other) {
                                assert(child_of(self.table@[other], earlier));
                            }
                        }
                        lemma_outside(entries, earlier, id);
                        assert(entries[index as int].0 == id);
                    }
                    grew = true;
                }
                index = index + 1;
            }
        }
        proof {
            assert forall|id: u64| #[trigger]
                self.table@.contains_key(id) && id != top implies (members@.contains(id)
                <==> child_of(self.table@[id], members@)) by {
                let i = choose|i: int| 0 <= i < entries.len() && (#[trigger] entries[i]).0 == id;
                self.table.lemma_entry(i);
                if child_of(self.table@[id], members@) {
                    assert(child_of(entries[i].1, members@));
                }
            }
        }
        members
    }

    /// Revoke a context and everything under it: its budget goes back to its parent. What was
    /// revoked.
    pub fn revoke(&mut self, context_id: u64) -> (r: Option<Vec<u64>>)
        requires
            old(self).wf(),
        ensures
            final(self).wf(),
            match r {
                Some(removed) => context_revoked(
                    old(self).table@,
                    final(self).table@,
                    context_id,
                    removed@,
                ),
                None => !old(self).table@.contains_key(context_id) && *final(self) == *old(self),
            },
    {
        let (parent, contract) = match self.table.get(&context_id) {
            Some(context) => (context.parent, contract_of(&context.state)),
            None => {
                return None;
            },
        };
        let removed = self.subtree(context_id);
        self.table.remove_all(&removed);
        if let Some(parent) = parent {
            self.release(parent, &contract);
        }
        Some(removed)
    }
}

/// Two children are never handed the same capacity: what a context has held back stays within its
/// contract.
pub proof fn reservations_stay_within_the_contract(
    context: ContextView,
    parent_context_id: u64,
    requested: Seq<u64>,
    policy: Seq<u64>,
    resource: int,
)
    requires
        context.contract.len() == RESOURCE_COUNT,
        context.reserved.len() == RESOURCE_COUNT,
        forall|i: int| 0 <= i < RESOURCE_COUNT ==> #[trigger] context.reserved[i] <= context.contract[i],
        0 <= resource < RESOURCE_COUNT,
    ensures
        reserved_child(context, parent_context_id, requested, policy).0.reserved[resource]
            <= context.contract[resource],
        grantable(context, requested, policy)[resource] <= requested[resource],
        grantable(context, requested, policy)[resource] <= policy[resource],
{
    assert(context.reserved[resource] <= context.contract[resource]);
}

/// A budget that was granted comes back whole: releasing it leaves what was held back before.
pub proof fn a_released_child_gives_its_budget_back(
    context: ContextView,
    parent_context_id: u64,
    requested: Seq<u64>,
    policy: Seq<u64>,
)
    requires
        context.contract.len() == RESOURCE_COUNT,
        context.reserved.len() == RESOURCE_COUNT,
        forall|i: int| 0 <= i < RESOURCE_COUNT ==> #[trigger] context.reserved[i] <= context.contract[i],
        reserved_child(context, parent_context_id, requested, policy).1,
    ensures
        released_child(
            reserved_child(context, parent_context_id, requested, policy).0,
            grantable(context, requested, policy),
        ).reserved == context.reserved,
{
    let granted = grantable(context, requested, policy);
    let after = reserved_child(context, parent_context_id, requested, policy).0;
    assert forall|i: int| 0 <= i < RESOURCE_COUNT implies granted[i] <= #[trigger] after.reserved[i] by {
        assert(context.reserved[i] <= context.contract[i]);
    }
    assert(released_child(after, granted).reserved =~= context.reserved) by {
        assert forall|i: int| 0 <= i < RESOURCE_COUNT implies released_child(
            after,
            granted,
        ).reserved[i] == context.reserved[i] by {
            assert(context.reserved[i] <= context.contract[i]);
        }
    }
}

/// Nothing that a revoked context had under it is left.
pub proof fn revocation_leaves_no_orphan(
    contexts: Map<u64, Context>,
    top: u64,
    removed: Seq<u64>,
    id: u64,
)
    requires
        is_subtree(contexts, top, removed),
        without(contexts, removed).contains_key(id),
        without(contexts, removed)[id].parent is Some,
        contexts.contains_key(without(contexts, removed)[id].parent.unwrap()),
    ensures
        without(contexts, removed).contains_key(without(contexts, removed)[id].parent.unwrap()),
{
    assert(contexts.contains_key(id));
    let parent = contexts[id].parent.unwrap();
    if removed.contains(parent) {
        assert(child_of(contexts[id], removed));
    }
}

/// An operation is allowed only in a context that is there and that was granted its class.
pub proof fn an_operation_needs_its_class(
    contexts: &Contexts,
    context_id: u64,
    operation: u64,
    allowed: bool,
    known: bool,
)
    requires
        contexts.wf(),
        call_ensures(Contexts::allows, (contexts, context_id, operation), allowed),
        call_ensures(Contexts::contains, (contexts, context_id), known),
    ensures
        allowed ==> known,
        allowed ==> context_view(contexts.table@[context_id].state).classes & operation != 0,
        known && context_view(contexts.table@[context_id].state).classes & operation != 0 ==> allowed,
        context_id == 0 ==> !known,
        known ==> contexts.table@.contains_key(context_id),
{
}

/// A child gets no operation that its parent does not have or that it did not ask for, and of no
/// resource more than it asked for, than the policy allows, or than its parent has left; and what it
/// gets is taken from its parent.
pub proof fn a_child_gets_no_more_than_its_parent_has(
    contexts: &mut Contexts,
    session: SessionIdentity,
    request: &ContextRequest,
    policy: &ResourceContract,
    r: Result<(u64, ResourceContract), ContextRefusal>,
    i: int,
)
    requires
        old(contexts).wf(),
        call_ensures(Contexts::create, (contexts, session, request, policy), r),
        0 <= i < RESOURCE_COUNT,
        request.context_id != request.parent_context_id,
    ensures
        r matches Ok((classes, contract)) ==> ({
            let parent = context_view(
                old(contexts).table@[request.parent_context_id].state,
            );
            let after = context_view(
                final(contexts).table@[request.parent_context_id].state,
            );
            &&& old(contexts).table@.contains_key(request.parent_context_id)
            &&& !old(contexts).table@.contains_key(request.context_id)
            &&& final(contexts).table@.contains_key(request.context_id)
            &&& final(contexts).table@[request.context_id].parent == Some(request.parent_context_id)
            &&& classes == request.operation_classes & parent.classes
            &&& parent.active && parent.classes & OP_DELEGATE != 0
            &&& parent.reserved[i] <= parent.contract[i] ==> {
                &&& contract.values@[i] <= request.requested_contract.values@[i]
                &&& contract.values@[i] <= policy.values@[i]
                &&& contract.values@[i] + parent.reserved[i] <= parent.contract[i]
                &&& after.reserved[i] == parent.reserved[i] + contract.values@[i]
            }
        }),
        old(contexts).table@.contains_key(request.context_id) ==> r == Err::<
            (u64, ResourceContract),
            ContextRefusal,
        >(ContextRefusal::AlreadyLive),
        !old(contexts).table@.contains_key(request.context_id) && !old(contexts).table@.contains_key(request.parent_context_id) ==> r == Err::<
            (u64, ResourceContract),
            ContextRefusal,
        >(ContextRefusal::ParentAbsent),
{
    if r is Ok {
        let rest = final(contexts).table@.remove(request.context_id);
        assert(rest.contains_key(request.parent_context_id));
        assert(rest[request.parent_context_id] == final(contexts).table@[request.parent_context_id]);
    }
}

/// Revoking a context takes it away with everything under it, and nothing else.
pub proof fn a_revoked_context_takes_its_children_along(
    contexts: &mut Contexts,
    context_id: u64,
    r: Option<Vec<u64>>,
    other: u64,
)
    requires
        old(contexts).wf(),
        call_ensures(Contexts::revoke, (contexts, context_id), r),
        old(contexts).table@.contains_key(other),
    ensures
        r is Some <==> old(contexts).table@.contains_key(context_id),
        r is None ==> final(contexts).table@ == old(contexts).table@,
        r matches Some(removed) ==> {
            &&& removed@.contains(context_id)
            &&& final(contexts).table@.contains_key(other) <==> !removed@.contains(other)
            &&& other != context_id ==> (removed@.contains(other) <==> (old(contexts).table@[other].parent matches Some(parent) && removed@.contains(parent)))
        },
{
}

/// A lease gets no more than was asked for, than the policy allows and than its context has left, and
/// what it gets is set aside there. It works in the classes of its context.
pub proof fn a_lease_gets_no_more_than_its_context_has(
    contexts: &mut Contexts,
    context_id: u64,
    lease_id: u64,
    requested: &ResourceContract,
    policy: &ResourceContract,
    r: Option<Option<(u64, ResourceContract)>>,
    i: int,
)
    requires
        call_ensures(
            Contexts::reserve_lease,
            (contexts, context_id, lease_id, requested, policy),
            r,
        ),
        0 <= i < RESOURCE_COUNT,
    ensures
        r is Some <==> old(contexts).table@.contains_key(context_id),
        r matches Some(Some((classes, contract))) ==> ({
            let context = context_view(old(contexts).table@[context_id].state);
            let after = context_view(final(contexts).table@[context_id].state);
            &&& classes == context.classes
            &&& context.active && context.classes & OP_DELEGATE != 0
            &&& context.reserved[i] <= context.contract[i] ==> {
                &&& contract.values@[i] <= requested.values@[i]
                &&& contract.values@[i] <= policy.values@[i]
                &&& contract.values@[i] + context.reserved[i] <= context.contract[i]
                &&& after.reserved[i] == context.reserved[i] + contract.values@[i]
            }
        }),
{
}

} // verus!
