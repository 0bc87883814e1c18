//! Control records of the scene and the presentation target.
//!
//! The scene keeps nodes, transactions and anchors. A record is read here, the scene is asked, and
//! what the scene says is answered here.

use vstd::prelude::*;
use vivid_protocol::cbor::Value;
use vivid_protocol::scene::SceneNode;

use crate::actor::{posted, OutgoingRecord};
use crate::control::{
    acknowledge, acknowledgement, context_of, find_malformed, first_missing, is_reply, known_number,
    malformed, missing, number, payload_number, reply, reply_of, ControlError,
};
use crate::identity::{AnchorIdentity, ContextIdentity};
use crate::observe::{observe_scene, pushed, queue_view, scene_entry, SCENE_CHANGED_PRODUCER_COMMIT};
use crate::protocol::{
    ANCHOR_STATUS, ERROR_BAD_MESSAGE, ERROR_BAD_STATE, ERROR_NOT_FOUND, ERROR_PRECONDITION_FAILED,
    ERROR_STALE_TARGET_GENERATION, ERROR_UNSUPPORTED_CONFIG, SCENE_PRESENTED, SCENE_STATUS,
    SESSION_STATUS, TARGET_CHANGED,
};
use crate::reply::{envelope, envelope_bytes, Unencodable};
use crate::session::Session;
use crate::value::{
    array, array_view, boolean, clone_payload, entries_value, number_at, payload_view, unsigned,
    value_view, ValueView,
};

verus! {

/// How many nodes of a scene are told at most.
pub const MAX_SCENE_NODES: usize = 256;

/// How many entries a session's status tells at most.
pub const MAX_STATUS_ENTRIES: usize = 64;

/// The state of a session that is established.
pub const SESSION_ACTIVE: u64 = 1;

/// A node of a scene, held by the protocol's own type.
#[verifier::external_type_specification]
#[verifier::external_body]
pub struct ExSceneNode(vivid_protocol::scene::SceneNode);

/// What is read of a node.
pub struct NodeView {
    pub owning_context_id: u64,
    /// The payload that the node is sent as, where its IDs are valid.
    pub payload: Option<Seq<(u64, ValueView)>>,
}

/// What is read of the protocol's node.
pub uninterp spec fn node_view(node: SceneNode) -> NodeView;

/// The node that a payload is, where it is valid.
pub uninterp spec fn node_decoded(object_id: u64, payload: ValueView) -> Option<NodeView>;

/// `vivid_protocol::scene::SceneNode::decode`: the node depends on the object ID and the payload,
/// and is refused where it is not valid.
#[verifier::external_body]
fn decode_node(object_id: u64, payload: &Value) -> (r: Option<SceneNode>)
    ensures
        match r {
            Some(node) => node_decoded(object_id, value_view(*payload)) == Some(node_view(node)),
            None => node_decoded(object_id, value_view(*payload)) is None,
        },
{
    SceneNode::decode(object_id, payload).ok()
}

/// The public field `vivid_protocol::scene::SceneNode::owning_context_id`.
#[verifier::external_body]
fn node_context(node: &SceneNode) -> (r: u64)
    ensures
        r == node_view(*node).owning_context_id,
{
    node.owning_context_id
}

/// `vivid_protocol::scene::SceneNode::payload`: the payload depends on the node alone, and is refused
/// where one of its IDs is zero.
#[verifier::external_body]
fn node_payload(node: &SceneNode) -> (r: Option<Vec<(u64, Value)>>)
    ensures
        match r {
            Some(payload) => node_view(*node).payload == Some(payload_view(payload@)),
            None => node_view(*node).payload is None,
        },
{
    node.payload().ok()
}

/// Answer a request that the scene carries out as it stands.
pub fn answer_scene_request(outcome: Result<(), &'static str>, object_id: u64, request_id: u64) -> (r: Result<
    OutgoingRecord,
    ControlError,
>)
    ensures
        match outcome {
            Ok(_) => is_reply(r, acknowledgement(object_id, request_id)),
            Err(message) => r == Err::<OutgoingRecord, ControlError>(
                ControlError::coded(ERROR_BAD_STATE, message),
            ),
        },
{
    match outcome {
        Ok(_) => acknowledge(object_id, request_id),
        Err(message) => Err(ControlError::state(message)),
    }
}

/// Which transaction a record begins, or why it does not.
pub open spec fn begin_request(session: Session, payload: Seq<(u64, ValueView)>) -> Result<
    (ContextIdentity, u64),
    ControlError,
> {
    match malformed(payload, seq![0u64, 1], "invalid transaction begin", seq![(0u64, "context")]) {
        Some(message) => Err(ControlError::coded(ERROR_BAD_MESSAGE, message)),
        None => match context_of(session, number(payload, 0)) {
            Err(error) => Err(error),
            Ok(context) => if missing(payload, seq![(1u64, "transaction")]) is Some {
                Err(ControlError::coded(ERROR_BAD_MESSAGE, "transaction"))
            } else {
                Ok((context, number(payload, 1)))
            },
        },
    }
}

/// Read which transaction a record begins.
pub fn read_begin(session: &Session, payload: &Vec<(u64, Value)>) -> (r: Result<
    (ContextIdentity, u64),
    ControlError,
>)
    requires
        session.wf(),
    ensures
        r == begin_request(*session, payload_view(payload@)),
{
    let allowed: [u64; 2] = [0, 1];
    let wanted = vec![(0u64, "context")];
    assert(allowed@ =~= seq![0u64, 1]);
    assert(wanted@ =~= seq![(0u64, "context")]);
    if let Some(message) = find_malformed(payload, &allowed, "invalid transaction begin", &wanted) {
        return Err(ControlError::bad_message(message));
    }
    let context = match session.context_identity(known_number(payload, 0)) {
        Ok(context) => context,
        Err(error) => {
            return Err(error);
        },
    };
    let transaction = vec![(1u64, "transaction")];
    assert(transaction@ =~= seq![(1u64, "transaction")]);
    if first_missing(payload, &transaction).is_some() {
        return Err(ControlError::bad_message("transaction"));
    }
    Ok((context, known_number(payload, 1)))
}

/// A change of one node that waits in a transaction.
pub struct NodeChange {
    pub context: ContextIdentity,
    pub transaction: u64,
    pub node: SceneNode,
}

/// Which transaction of which context a node goes into, or why it does not.
pub open spec fn node_request(
    session: Session,
    transaction: Option<u64>,
    object_id: u64,
    payload: ValueView,
) -> Result<(ContextIdentity, u64, NodeView), ControlError> {
    match transaction {
        None => Err(ControlError::coded(ERROR_BAD_MESSAGE, "node mutation omits transaction ID")),
        Some(transaction) => match node_decoded(object_id, payload) {
            None => Err(ControlError::coded(ERROR_BAD_MESSAGE, "invalid terminal scene node")),
            Some(node) => match context_of(session, node.owning_context_id) {
                Err(error) => Err(error),
                Ok(context) => Ok((context, transaction, node)),
            },
        },
    }
}

/// Read a node that is made or changed.
pub fn read_node(session: &Session, transaction: Option<u64>, object_id: u64, value: &Value) -> (r: Result<
    NodeChange,
    ControlError,
>)
    requires
        session.wf(),
    ensures
        match r {
            Ok(change) => node_request(*session, transaction, object_id, value_view(*value)) == Ok::<
                (ContextIdentity, u64, NodeView),
                ControlError,
            >((change.context, change.transaction, node_view(change.node))),
            Err(error) => node_request(*session, transaction, object_id, value_view(*value))
                == Err::<(ContextIdentity, u64, NodeView), ControlError>(error),
        },
{
    let transaction: u64 = match transaction {
        Some(transaction) => transaction,
        None => {
            return Err(ControlError::bad_message("node mutation omits transaction ID"));
        },
    };
    let node = match decode_node(object_id, value) {
        Some(node) => node,
        None => {
            return Err(ControlError::bad_message("invalid terminal scene node"));
        },
    };
    match session.context_identity(node_context(&node)) {
        Ok(context) => Ok(NodeChange { context, transaction, node }),
        Err(error) => Err(error),
    }
}

/// Which node is deleted in which transaction, or why it is not.
pub open spec fn deletion_request(
    session: Session,
    transaction: Option<u64>,
    payload: Seq<(u64, ValueView)>,
) -> Result<(ContextIdentity, u64, u64), ControlError> {
    match transaction {
        None => Err(ControlError::coded(ERROR_BAD_MESSAGE, "node mutation omits transaction ID")),
        Some(transaction) => match malformed(
            payload,
            seq![0u64, 1],
            "invalid node deletion",
            seq![(0u64, "context")],
        ) {
            Some(message) => Err(ControlError::coded(ERROR_BAD_MESSAGE, message)),
            None => match context_of(session, number(payload, 0)) {
                Err(error) => Err(error),
                Ok(context) => if missing(payload, seq![(1u64, "node")]) is Some {
                    Err(ControlError::coded(ERROR_BAD_MESSAGE, "node"))
                } else if number(payload, 1) == 0 {
                    Err(ControlError::coded(ERROR_BAD_MESSAGE, "node ID is zero"))
                } else {
                    Ok((context, transaction, number(payload, 1)))
                },
            },
        },
    }
}

/// Read which node is deleted: its context, the transaction and its number.
pub fn read_deletion(session: &Session, transaction: Option<u64>, payload: &Vec<(u64, Value)>) -> (r: Result<
    (ContextIdentity, u64, u64),
    ControlError,
>)
    requires
        session.wf(),
    ensures
        r == deletion_request(*session, transaction, payload_view(payload@)),
{
    let transaction: u64 = match transaction {
        Some(transaction) => transaction,
        None => {
            return Err(ControlError::bad_message("node mutation omits transaction ID"));
        },
    };
    let allowed: [u64; 2] = [0, 1];
    let wanted = vec![(0u64, "context")];
    assert(allowed@ =~= seq![0u64, 1]);
    assert(wanted@ =~= seq![(0u64, "context")]);
    if let Some(message) = find_malformed(payload, &allowed, "invalid node deletion", &wanted) {
        return Err(ControlError::bad_message(message));
    }
    let context = match session.context_identity(known_number(payload, 0)) {
        Ok(context) => context,
        Err(error) => {
            return Err(error);
        },
    };
    let node = vec![(1u64, "node")];
    assert(node@ =~= seq![(1u64, "node")]);
    if first_missing(payload, &node).is_some() {
        return Err(ControlError::bad_message("node"));
    }
    let node_id = known_number(payload, 1);
    if node_id == 0 {
        return Err(ControlError::bad_message("node ID is zero"));
    }
    Ok((context, transaction, node_id))
}

/// The transaction that a record ends: the one that its envelope names, else its object.
pub fn ended_transaction(transaction: Option<u64>, object_id: u64) -> (r: u64)
    ensures
        r == (match transaction {
            Some(transaction) => transaction,
            None => object_id,
        }),
{
    match transaction {
        Some(transaction) => transaction,
        None => object_id,
    }
}

/// Answer the end of a transaction without a change. The scene tells why it knows no context of the
/// transaction, or else whether there was one.
pub fn answer_abort(outcome: Result<bool, &'static str>, object_id: u64, request_id: u64) -> (r: Result<
    OutgoingRecord,
    ControlError,
>)
    ensures
        match outcome {
            Ok(true) => is_reply(r, acknowledgement(object_id, request_id)),
            Ok(false) => r == Err::<OutgoingRecord, ControlError>(
                ControlError::coded(ERROR_NOT_FOUND, "transaction does not exist"),
            ),
            Err(message) => r == Err::<OutgoingRecord, ControlError>(
                ControlError::coded(ERROR_BAD_STATE, message),
            ),
        },
{
    match outcome {
        Ok(true) => acknowledge(object_id, request_id),
        Ok(false) => Err(ControlError::not_found("transaction does not exist")),
        Err(message) => Err(ControlError::state(message)),
    }
}

/// Why a commit is refused for what it holds, if it is. A commit is presented at once.
pub open spec fn commit_refusal(payload: Seq<(u64, ValueView)>) -> Option<ControlError> {
    match malformed(
        payload,
        seq![0u64],
        "invalid transaction commit",
        seq![(0u64, "presentation mode")],
    ) {
        Some(message) => Some(ControlError::coded(ERROR_BAD_MESSAGE, message)),
        None => if number(payload, 0) != 0 {
            Some(ControlError::coded(ERROR_UNSUPPORTED_CONFIG, "unsupported presentation mode"))
        } else {
            None
        },
    }
}

/// Read how a commit is presented.
pub fn read_commit(payload: &Vec<(u64, Value)>) -> (r: Result<(), ControlError>)
    ensures
        r == (match commit_refusal(payload_view(payload@)) {
            Some(error) => Err::<(), ControlError>(error),
            None => Ok(()),
        }),
{
    let allowed: [u64; 1] = [0];
    let wanted = vec![(0u64, "presentation mode")];
    assert(allowed@ =~= seq![0u64]);
    assert(wanted@ =~= seq![(0u64, "presentation mode")]);
    if let Some(message) = find_malformed(payload, &allowed, "invalid transaction commit", &wanted) {
        return Err(ControlError::bad_message(message));
    }
    if known_number(payload, 0) != 0 {
        return Err(ControlError::unsupported("unsupported presentation mode"));
    }
    Ok(())
}

/// What a commit was planned against.
#[derive(Debug, Clone, Copy, PartialEq, Eq)]
pub struct CommitPlan {
    pub context: ContextIdentity,
    pub target_generation: u64,
    pub scene_revision: Option<u64>,
}

/// Read what a commit was planned against. The scene tells the context of the transaction. The
/// target must be named, the revision of the scene need not be.
pub fn read_commit_plan(
    context: Result<ContextIdentity, &'static str>,
    target_generation: Option<u64>,
    preconditions: &Vec<(u64, Value)>,
) -> (r: Result<CommitPlan, ControlError>)
    ensures
        match (context, target_generation) {
            (Err(message), _) => r == Err::<CommitPlan, ControlError>(
                ControlError::coded(ERROR_BAD_STATE, message),
            ),
            (Ok(_), None) => r == Err::<CommitPlan, ControlError>(
                ControlError::coded(ERROR_BAD_MESSAGE, "commit omits target generation"),
            ),
            (Ok(context), Some(target_generation)) => r == Ok::<CommitPlan, ControlError>(
                CommitPlan {
                    context,
                    target_generation,
                    scene_revision: number_at(payload_view(preconditions@), 0),
                },
            ),
        },
{
    match context {
        Err(message) => Err(ControlError::state(message)),
        Ok(context) => match target_generation {
            None => Err(ControlError::bad_message("commit omits target generation")),
            Some(target_generation) => Ok(
                CommitPlan {
                    context,
                    target_generation,
                    scene_revision: payload_number(preconditions, 0),
                },
            ),
        },
    }
}

/// Why the scene refused a commit.
pub enum CommitRejection {
    /// The target changed since the commit was planned. The announcement says what it is now.
    StaleTarget(Vec<u8>),
    StaleRevision,
    Failed(&'static str),
}

/// What a producer is told of a target: its descriptor, its generation and why it is told.
pub open spec fn target_fields(
    descriptor: Seq<(u64, ValueView)>,
    generation: u64,
    reason: u64,
) -> Seq<(u64, ValueView)> {
    descriptor.push((9u64, ValueView::Unsigned(generation))).push(
        (10u64, ValueView::Unsigned(reason)),
    )
}

/// The announcement of a target.
pub fn target_change_body(descriptor: &Vec<(u64, Value)>, generation: u64, reason: u64) -> (r: Result<
    Vec<u8>,
    Unencodable,
>)
    ensures
        match r {
            Ok(body) => envelope_bytes(
                0,
                target_fields(payload_view(descriptor@), generation, reason),
            ) == Some(body@),
            Err(_) => envelope_bytes(
                0,
                target_fields(payload_view(descriptor@), generation, reason),
            ) is None,
        },
{
    let mut payload = clone_payload(descriptor);
    payload.push((9u64, unsigned(generation)));
    payload.push((10u64, unsigned(reason)));
    assert(payload_view(payload@) =~= target_fields(payload_view(descriptor@), generation, reason));
    envelope(0, payload)
}

/// What a producer is told of a commit that is presented.
pub open spec fn presented_fields(revision: u64, target_generation: u64) -> Seq<(u64, ValueView)> {
    seq![
        (0u64, ValueView::Unsigned(revision)),
        (1u64, ValueView::Unsigned(target_generation)),
    ]
}

/// Answer a commit with what the scene made of it. A producer that planned against an earlier target
/// is told the target before it is refused, so that it can plan anew.
pub fn answer_commit(
    session: &mut Session,
    plan: &CommitPlan,
    outcome: Result<u64, CommitRejection>,
    object_id: u64,
    request_id: u64,
) -> (r: Result<OutgoingRecord, ControlError>)
    requires
        old(session).wf(),
    ensures
        final(session).wf(),
        match outcome {
            Ok(revision) => {
                &&& *final(session) == (Session {
                    observations: final(session).observations,
                    ..*old(session)
                })
                &&& queue_view(final(session).observations) == pushed(
                    queue_view(old(session).observations),
                    scene_entry(revision, SCENE_CHANGED_PRODUCER_COMMIT),
                )
                &&& is_reply(
                    r,
                    reply_of(
                        SCENE_PRESENTED,
                        object_id,
                        request_id,
                        presented_fields(revision, plan.target_generation),
                    ),
                )
            },
            Err(CommitRejection::StaleTarget(announcement)) => {
                &&& *final(session) == (Session { egress: final(session).egress, ..*old(session) })
                &&& posted(
                    old(session).egress,
                    final(session).egress,
                    (TARGET_CHANGED, 0, announcement@),
                )
                &&& r == Err::<OutgoingRecord, ControlError>(
                    ControlError::coded(
                        ERROR_STALE_TARGET_GENERATION,
                        "stale target generation",
                    ),
                )
            },
            Err(CommitRejection::StaleRevision) => *final(session) == *old(session) && r == Err::<
                OutgoingRecord,
                ControlError,
            >(ControlError::coded(ERROR_PRECONDITION_FAILED, "stale scene revision")),
            Err(CommitRejection::Failed(message)) => *final(session) == *old(session) && r == Err::<
                OutgoingRecord,
                ControlError,
            >(ControlError::coded(ERROR_BAD_STATE, message)),
        },
{
    match outcome {
        Ok(revision) => {
            observe_scene(&mut session.observations, revision, SCENE_CHANGED_PRODUCER_COMMIT);
            let payload = vec![
                (0u64, unsigned(revision)),
                (1u64, unsigned(plan.target_generation)),
            ];
            assert(payload_view(payload@) =~= presented_fields(revision, plan.target_generation));
            reply(SCENE_PRESENTED, object_id, request_id, payload)
        },
        Err(CommitRejection::StaleTarget(announcement)) => {
            session.post_control(TARGET_CHANGED, 0, announcement);
            Err(ControlError::stale_target())
        },
        Err(CommitRejection::StaleRevision) => Err(
            ControlError::precondition("stale scene revision"),
        ),
        Err(CommitRejection::Failed(message)) => Err(ControlError::state(message)),
    }
}

/// What the scene says of itself.
pub struct SceneStatus {
    pub revision: u64,
    pub target_generation: u64,
    pub nodes: Vec<SceneNode>,
}

/// The payloads of nodes. A node that cannot be sent is passed over.
pub open spec fn node_values(nodes: Seq<SceneNode>) -> Seq<ValueView>
    decreases nodes.len(),
{
    if nodes.len() == 0 {
        Seq::empty()
    } else {
        match node_view(nodes.last()).payload {
            Some(payload) => node_values(nodes.drop_last()).push(ValueView::Entries(payload)),
            None => node_values(nodes.drop_last()),
        }
    }
}

/// What a producer is told of the scene.
pub open spec fn scene_status_fields(status: SceneStatus) -> Seq<(u64, ValueView)> {
    seq![
        (0u64, ValueView::Unsigned(status.revision)),
        (1u64, ValueView::Unsigned(status.target_generation)),
        (2u64, ValueView::Array(node_values(status.nodes@))),
        (3u64, ValueView::Unsigned(status.nodes@.len() as u64)),
    ]
}

/// What a producer is told of the scene.
pub fn scene_status_payload(status: &SceneStatus) -> (r: Vec<(u64, Value)>)
    ensures
        payload_view(r@) == scene_status_fields(*status),
{
    let ghost nodes = status.nodes@;
    let mut values: Vec<Value> = Vec::new();
    let mut index: usize = 0;
    assert(array_view(values@) =~= Seq::empty());
    while index < status.nodes.len()
        invariant
            nodes == status.nodes@,
            index <= nodes.len(),
            array_view(values@) == node_values(nodes.take(index as int)),
        decreases nodes.len() - index,
    {
        assert(nodes.take(index + 1).drop_last() =~= nodes.take(index as int));
        if let Some(payload) = node_payload(&status.nodes[index]) {
            let ghost before = values@;
            let value = entries_value(payload);
            let ghost view = value_view(value);
            values.push(value);
            assert(array_view(values@) =~= array_view(before).push(view));
        }
        index = index + 1;
    }
    assert(nodes.take(index as int) =~= nodes);
    let payload = vec![
        (0u64, unsigned(status.revision)),
        (1u64, unsigned(status.target_generation)),
        (2u64, array(values)),
        (3u64, unsigned(status.nodes.len() as u64)),
    ];
    assert(payload_view(payload@) =~= scene_status_fields(*status));
    payload
}

/// Answer a query for the scene with what it says of itself.
pub fn answer_scene_query(status: &SceneStatus, request_id: u64) -> (r: Result<
    OutgoingRecord,
    ControlError,
>)
    ensures
        is_reply(r, reply_of(SCENE_STATUS, 0, request_id, scene_status_fields(*status))),
{
    reply(SCENE_STATUS, 0, request_id, scene_status_payload(status))
}

/// Which anchor is asked for, or why it cannot be.
pub open spec fn anchor_request(session: Session, payload: Seq<(u64, ValueView)>) -> Result<
    AnchorIdentity,
    ControlError,
> {
    match malformed(
        payload,
        seq![0u64, 1],
        "invalid anchor query",
        seq![(0u64, "anchor context"), (1u64, "anchor ID")],
    ) {
        Some(message) => Err(ControlError::coded(ERROR_BAD_MESSAGE, message)),
        None => match context_of(session, number(payload, 0)) {
            Err(error) => Err(error),
            Ok(context) => if number(payload, 1) == 0 {
                Err(ControlError::coded(ERROR_BAD_MESSAGE, "anchor ID is zero"))
            } else {
                Ok(AnchorIdentity { context, anchor_id: number(payload, 1) })
            },
        },
    }
}

/// Read which anchor is asked for.
pub fn read_anchor_query(session: &Session, payload: &Vec<(u64, Value)>) -> (r: Result<
    AnchorIdentity,
    ControlError,
>)
    requires
        session.wf(),
    ensures
        r == anchor_request(*session, payload_view(payload@)),
{
    let allowed: [u64; 2] = [0, 1];
    let wanted = vec![(0u64, "anchor context"), (1u64, "anchor ID")];
    assert(allowed@ =~= seq![0u64, 1]);
    assert(wanted@ =~= seq![(0u64, "anchor context"), (1u64, "anchor ID")]);
    if let Some(message) = find_malformed(payload, &allowed, "invalid anchor query", &wanted) {
        return Err(ControlError::bad_message(message));
    }
    let context = match session.context_identity(known_number(payload, 0)) {
        Ok(context) => context,
        Err(error) => {
            return Err(error);
        },
    };
    let anchor_id = known_number(payload, 1);
    match context.anchor(anchor_id) {
        Ok(anchor) => Ok(anchor),
        Err(_) => Err(ControlError::bad_message("anchor ID is zero")),
    }
}

/// What a producer is told of an anchor. A line above the screen is not told.
pub open spec fn anchor_status_fields(
    anchor: AnchorIdentity,
    state: u64,
    position: Option<(u64, i32)>,
    target_generation: u64,
) -> Seq<(u64, ValueView)> {
    let named = seq![
        (0u64, ValueView::Unsigned(anchor.context.context_id)),
        (1u64, ValueView::Unsigned(anchor.anchor_id)),
        (2u64, ValueView::Unsigned(state)),
    ];
    let placed = match position {
        Some((column, line)) => if line >= 0 {
            named + seq![
                (3u64, ValueView::Unsigned(column)),
                (4u64, ValueView::Unsigned(line as u64)),
                (5u64, ValueView::Bool(true)),
            ]
        } else {
            named + seq![(3u64, ValueView::Unsigned(column)), (5u64, ValueView::Bool(true))]
        },
        None => named,
    };
    placed.push((6u64, ValueView::Unsigned(target_generation)))
}

/// Answer a query for an anchor with its state and, where it has one, its column and line.
pub fn answer_anchor_query(
    anchor: AnchorIdentity,
    state: u64,
    position: Option<(u64, i32)>,
    target_generation: u64,
    request_id: u64,
) -> (r: Result<OutgoingRecord, ControlError>)
    ensures
        is_reply(
            r,
            reply_of(
                ANCHOR_STATUS,
                anchor.anchor_id,
                request_id,
                anchor_status_fields(anchor, state, position, target_generation),
            ),
        ),
{
    let mut payload = vec![
        (0u64, unsigned(anchor.context.context_id)),
        (1u64, unsigned(anchor.anchor_id)),
        (2u64, unsigned(state)),
    ];
    if let Some((column, line)) = position {
        payload.push((3u64, unsigned(column)));
        if line >= 0 {
            payload.push((4u64, unsigned(line as u64)));
        }
        payload.push((5u64, boolean(true)));
    }
    payload.push((6u64, unsigned(target_generation)));
    assert(payload_view(payload@) =~= anchor_status_fields(
        anchor,
        state,
        position,
        target_generation,
    ));
    reply(ANCHOR_STATUS, anchor.anchor_id, request_id, payload)
}

/// What a producer reconciles against after it resumed.
pub struct SessionStatus {
    pub session_revision: u64,
    pub scene_revision: u64,
    pub target_generation: u64,
    /// The revisions of what the session owns.
    pub entries: Vec<Value>,
    pub resource_usage: Value,
}

/// What a producer is told of its session.
pub open spec fn session_status_fields(status: SessionStatus) -> Seq<(u64, ValueView)> {
    seq![
        (0u64, ValueView::Unsigned(status.session_revision)),
        (1u64, ValueView::Unsigned(status.scene_revision)),
        (2u64, ValueView::Unsigned(status.target_generation)),
        (3u64, ValueView::Unsigned(SESSION_ACTIVE)),
        (4u64, ValueView::Unsigned(0)),
        (5u64, ValueView::Bool(true)),
        (6u64, ValueView::Array(array_view(status.entries@))),
        (8u64, value_view(status.resource_usage)),
    ]
}

/// Answer a query for the session.
pub fn answer_session_query(status: SessionStatus, request_id: u64) -> (r: Result<
    OutgoingRecord,
    ControlError,
>)
    ensures
        is_reply(r, reply_of(SESSION_STATUS, 0, request_id, session_status_fields(status))),
{
    let ghost expected = session_status_fields(status);
    let payload = vec![
        (0u64, unsigned(status.session_revision)),
        (1u64, unsigned(status.scene_revision)),
        (2u64, unsigned(status.target_generation)),
        (3u64, unsigned(SESSION_ACTIVE)),
        (4u64, unsigned(0)),
        (5u64, boolean(true)),
        (6u64, array(status.entries)),
        (8u64, status.resource_usage),
    ];
    assert(payload_view(payload@) =~= expected);
    reply(SESSION_STATUS, 0, request_id, payload)
}

/// A commit that was made is answered with the revision it made and the target it was made for.
pub proof fn a_commit_is_answered_with_its_revision(revision: u64, target_generation: u64)
    ensures
        presented_fields(revision, target_generation).len() == 2,
        presented_fields(revision, target_generation)[0] == (0u64, ValueView::Unsigned(revision)),
        presented_fields(revision, target_generation)[1] == (
            1u64,
            ValueView::Unsigned(target_generation),
        ),
{
}

/// A commit has three ways to be refused, each with its own code: the target it was made for is no
/// longer the one, the scene has changed since, or the scene says why. Only a commit that was made
/// is observed, and a stale one is told of the target that is.
pub proof fn a_refused_commit_is_told_why(
    session: &mut Session,
    plan: &CommitPlan,
    outcome: Result<u64, CommitRejection>,
    object_id: u64,
    request_id: u64,
    r: Result<OutgoingRecord, ControlError>,
)
    requires
        old(session).wf(),
        call_ensures(answer_commit, (session, plan, outcome, object_id, request_id), r),
    ensures
        outcome is Err ==> r is Err && queue_view(final(session).observations) == queue_view(
            old(session).observations,
        ),
        outcome matches Err(CommitRejection::StaleTarget(_)) ==> r->Err_0.code == 15,
        outcome matches Err(CommitRejection::StaleRevision) ==> r->Err_0.code == 21
            && *final(session) == *old(session),
        outcome matches Err(CommitRejection::Failed(message)) ==> r->Err_0.code == 6
            && r->Err_0.message == message && *final(session) == *old(session),
        outcome is Ok ==> (r matches Ok(record) ==> crate::actor::record_view(record).0 == 0x206 && crate::actor::record_view(record).1
            == object_id),
{
}

/// A commit is planned for the context, the target and the revision that it names.
pub proof fn a_commit_is_planned_as_it_names(
    context: Result<ContextIdentity, &'static str>,
    target_generation: Option<u64>,
    preconditions: &Vec<(u64, Value)>,
    r: Result<CommitPlan, ControlError>,
)
    requires
        call_ensures(read_commit_plan, (context, target_generation, preconditions), r),
    ensures
        r is Ok <==> context is Ok && target_generation is Some,
        r matches Ok(plan) ==> context == Ok::<ContextIdentity, &'static str>(plan.context)
            && target_generation == Some(plan.target_generation) && plan.scene_revision == number_at(
            payload_view(preconditions@),
            0,
        ),
        context is Err ==> r->Err_0.code == 6,
        context is Ok && target_generation is None ==> r->Err_0.code == 5,
{
}

/// A transaction, a deletion and a question for an anchor are of a context of the session, and name
/// what they name under its own number.
pub proof fn scene_requests_name_what_they_are_about(
    session: &Session,
    payload: &Vec<(u64, Value)>,
    transaction: Option<u64>,
    begun: Result<(ContextIdentity, u64), ControlError>,
    deleted: Result<(ContextIdentity, u64, u64), ControlError>,
    asked: Result<AnchorIdentity, ControlError>,
)
    requires
        session.wf(),
        call_ensures(read_begin, (session, payload), begun),
        call_ensures(read_deletion, (session, transaction, payload), deleted),
        call_ensures(read_anchor_query, (session, payload), asked),
    ensures
        begun matches Ok((context, id)) ==> context.session == session.identity && number_at(
            payload_view(payload@),
            0,
        ) == Some(context.context_id) && number_at(payload_view(payload@), 1) == Some(id),
        deleted matches Ok((context, within, node)) ==> context.session == session.identity
            && number_at(payload_view(payload@), 0) == Some(context.context_id) && transaction
            == Some(within) && number_at(payload_view(payload@), 1) == Some(node) && node != 0,
        asked matches Ok(anchor) ==> anchor.context.session == session.identity && number_at(
            payload_view(payload@),
            0,
        ) == Some(anchor.context.context_id) && number_at(payload_view(payload@), 1) == Some(
            anchor.anchor_id,
        ) && anchor.anchor_id != 0,
        transaction is None ==> deleted is Err,
{
    reveal_with_fuel(missing, 3);
    let wanted = seq![(0u64, "anchor context"), (1u64, "anchor ID")];
    assert(wanted.drop_first()[0] == wanted[1]);
}

/// A transaction that is ended is the one that the record names, or else the one it is about.
pub proof fn the_named_transaction_is_ended(transaction: Option<u64>, object_id: u64, r: u64)
    requires
        call_ensures(ended_transaction, (transaction, object_id), r),
    ensures
        transaction == Some(r) || (transaction is None && r == object_id),
{
}

/// The status of the scene tells its revision, its target, every node that can be told, and how many
/// there are.
pub proof fn a_scene_status_tells_everything_in_its_place(status: &SceneStatus, r: Vec<(u64, Value)>)
    requires
        call_ensures(scene_status_payload, (status,), r),
    ensures
        ({
            let fields = payload_view(r@);
            &&& fields.len() == 4
            &&& forall|i: int| 0 <= i < 4 ==> (#[trigger] fields[i]).0 == i
            &&& fields[0].1 == ValueView::Unsigned(status.revision)
            &&& fields[1].1 == ValueView::Unsigned(status.target_generation)
            &&& fields[2].1 == ValueView::Array(node_values(status.nodes@))
            &&& fields[3].1 == ValueView::Unsigned(status.nodes@.len() as u64)
        }),
{
}

/// Every node that can be told is told once, in order.
pub proof fn every_node_is_told_in_order(nodes: Seq<SceneNode>, node: SceneNode)
    ensures
        node_values(Seq::empty()) == Seq::<ValueView>::empty(),
        node_view(node).payload matches Some(payload) ==> node_values(nodes.push(node))
            == node_values(nodes).push(ValueView::Entries(payload)),
        node_view(node).payload is None ==> node_values(nodes.push(node)) == node_values(nodes),
{
    assert(nodes.push(node).drop_last() =~= nodes);
}

/// The status of an anchor names it, says its state, and tells where it is only where it is known;
/// a line above the screen is not told.
pub proof fn an_anchor_status_tells_where_it_is(
    anchor: AnchorIdentity,
    state: u64,
    position: Option<(u64, i32)>,
    target_generation: u64,
)
    ensures
        ({
            let fields = anchor_status_fields(anchor, state, position, target_generation);
            &&& fields[0] == (0u64, ValueView::Unsigned(anchor.context.context_id))
            &&& fields[1] == (1u64, ValueView::Unsigned(anchor.anchor_id))
            &&& fields[2] == (2u64, ValueView::Unsigned(state))
            &&& fields.last() == (6u64, ValueView::Unsigned(target_generation))
            &&& position is None ==> fields.len() == 4
            &&& position matches Some((column, line)) ==> {
                &&& fields[3] == (3u64, ValueView::Unsigned(column))
                &&& line >= 0 ==> fields.len() == 7 && fields[4] == (
                    4u64,
                    ValueView::Unsigned(line as u64),
                ) && fields[5] == (5u64, ValueView::Bool(true))
                &&& line < 0 ==> fields.len() == 6 && fields[4] == (5u64, ValueView::Bool(true))
            }
        }),
{
}

/// The status of a session tells its own revision, the revision of the scene and the generation of
/// the target, in that order.
pub proof fn a_session_status_tells_its_revisions(status: SessionStatus)
    ensures
        ({
            let fields = session_status_fields(status);
            &&& fields.len() == 8
            &&& fields[0] == (0u64, ValueView::Unsigned(status.session_revision))
            &&& fields[1] == (1u64, ValueView::Unsigned(status.scene_revision))
            &&& fields[2] == (2u64, ValueView::Unsigned(status.target_generation))
            &&& fields[3] == (3u64, ValueView::Unsigned(1))
            &&& fields[4] == (4u64, ValueView::Unsigned(0))
            &&& fields[5] == (5u64, ValueView::Bool(true))
            &&& fields[6] == (6u64, ValueView::Array(array_view(status.entries@)))
            &&& fields[7] == (8u64, value_view(status.resource_usage))
        }),
{
}

/// A change of the target is told with everything that describes the target, and behind it the
/// generation and the reason.
pub proof fn a_target_change_is_told_with_its_reason(
    descriptor: Seq<(u64, ValueView)>,
    generation: u64,
    reason: u64,
)
    ensures
        ({
            let fields = target_fields(descriptor, generation, reason);
            &&& fields.len() == descriptor.len() + 2
            &&& fields.take(descriptor.len() as int) == descriptor
            &&& fields[descriptor.len() as int] == (9u64, ValueView::Unsigned(generation))
            &&& fields.last() == (10u64, ValueView::Unsigned(reason))
        }),
{
    assert(target_fields(descriptor, generation, reason).take(descriptor.len() as int)
        =~= descriptor);
}

/// An abort of a transaction that does not exist is told so, and one that the scene refused is told
/// why.
pub proof fn an_abort_is_answered(
    outcome: Result<bool, &'static str>,
    object_id: u64,
    request_id: u64,
    r: Result<OutgoingRecord, ControlError>,
)
    requires
        call_ensures(answer_abort, (outcome, object_id, request_id), r),
    ensures
        r is Ok <==> outcome == Ok::<bool, &'static str>(true),
        outcome == Ok::<bool, &'static str>(false) ==> r->Err_0.code == 8,
        outcome matches Err(message) ==> r->Err_0.code == 6 && r->Err_0.message == message,
        r matches Ok(record) ==> crate::actor::record_view(record).0 == 3 && crate::actor::record_view(record).1 == object_id,
{
}

/// A commit may ask for one way to be presented, and every other is refused.
pub proof fn a_commit_is_presented_in_one_way(payload: &Vec<(u64, Value)>, r: Result<(), ControlError>)
    requires
        call_ensures(read_commit, (payload,), r),
    ensures
        r is Ok ==> number_at(payload_view(payload@), 0) == Some(0u64),
        number_at(payload_view(payload@), 0) matches Some(mode) ==> (mode != 0 ==> r is Err),
{
    reveal_with_fuel(missing, 2);
}

/// A request about the scene is acknowledged where the scene took it, and is otherwise refused with
/// what the scene said.
pub proof fn a_scene_request_is_acknowledged(
    outcome: Result<(), &'static str>,
    object_id: u64,
    request_id: u64,
    r: Result<OutgoingRecord, ControlError>,
)
    requires
        call_ensures(answer_scene_request, (outcome, object_id, request_id), r),
    ensures
        outcome is Ok ==> (r matches Ok(record) && crate::actor::record_view(record) == (
            0x0003u16,
            object_id,
            crate::reply::ok_bytes(request_id),
        )),
        outcome matches Err(message) ==> (r matches Err(error) && error.code == 6 && error.message
            == message),
{
}

/// The state of the scene is told under its own record type.
pub proof fn a_scene_status_is_told_as_one(
    status: &SceneStatus,
    request_id: u64,
    r: Result<OutgoingRecord, ControlError>,
)
    requires
        call_ensures(answer_scene_query, (status, request_id), r),
    ensures
        r matches Ok(record) ==> crate::actor::record_view(record).0 == 0x0208 && crate::actor::record_view(record).1 == 0
            && envelope_bytes(request_id, scene_status_fields(*status)) == Some(
            crate::actor::record_view(record).2,
        ),
{
}

} // verus!
