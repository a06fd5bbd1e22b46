//! Projections and read models for the identity domain.
//!
//! Three read-models follow the event stream: a summary of every identity,
//! the edges of the relationship graph, and the worklists of the workflows.
//! Each event is applied under the pair of the entity it is about and its own
//! identifier; an event that was applied before is passed over, so that a
//! replay changes nothing.

use crate::error::{ErrorView, IdentityError, IdentityResult};
use crate::components::{
    IdentityStatus, IdentityType, RelationshipGraph, RelationshipType, VerificationLevel,
    WorkflowStatus, WorkflowType,
};
use crate::events::{
    DomainEvent, EventEnvelope, IdentitiesMerged, IdentityArchived, IdentityCreated,
    IdentityUpdated, RelationshipEstablished, VerificationCompleted, WorkflowCompleted,
    WorkflowStarted, WorkflowStepCompleted, WorkflowTimedOut,
};
use crate::ids::{EventId, IdentityId, RelationshipId, WorkflowId};
use crate::time::Timestamp;
use vstd::prelude::*;

verus! {

/// What the summary index holds of an identity.
#[derive(Debug, Clone, Copy, PartialEq, Eq, Structural)]
pub struct IdentitySummary {
    pub identity_id: IdentityId,
    pub identity_type: IdentityType,
    pub status: IdentityStatus,
    pub verification_level: VerificationLevel,
    pub updated_at: Timestamp,
}

/// Identity status projection: the summary of every identity, in the order
/// in which the identities were created.
#[derive(Debug)]
pub struct IdentityStatusProjection {
    pub summaries: Vec<IdentitySummary>,
}

/// One edge of the relationship graph. It stands in the forward adjacency of
/// the identity it leaves and in the reverse adjacency of the identity it
/// arrives at.
#[derive(Debug)]
pub struct GraphEdge {
    pub relationship_id: RelationshipId,
    pub from_identity: IdentityId,
    pub to_identity: IdentityId,
    pub relationship_type: RelationshipType,
}

impl Clone for GraphEdge {
    fn clone(&self) -> (r: Self)
        ensures
            r == *self,
    {
        GraphEdge {
            relationship_id: self.relationship_id,
            from_identity: self.from_identity,
            to_identity: self.to_identity,
            relationship_type: self.relationship_type.clone(),
        }
    }
}

/// Relationship graph projection: the edges in the order in which their
/// relationships were established.
#[derive(Debug)]
pub struct RelationshipGraphProjection {
    pub edges: Vec<GraphEdge>,
}

/// What the worklist holds of a workflow that has not ended.
#[derive(Debug)]
pub struct WorkflowEntry {
    pub workflow_id: WorkflowId,
    pub identity_id: IdentityId,
    pub workflow_type: WorkflowType,
    pub status: WorkflowStatus,
}

impl Clone for WorkflowEntry {
    fn clone(&self) -> (r: Self)
        ensures
            r == *self,
    {
        WorkflowEntry {
            workflow_id: self.workflow_id,
            identity_id: self.identity_id,
            workflow_type: self.workflow_type.clone(),
            status: self.status.clone(),
        }
    }
}

/// Workflow status projection: the workflows that have not ended, and among
/// them those that wait for somebody outside the engine to act.
#[derive(Debug)]
pub struct WorkflowStatusProjection {
    pub active: Vec<WorkflowEntry>,
    pub requires_action: Vec<WorkflowId>,
}

/// The key under which an applied event is remembered: the entity that the
/// event is about, and the event's own identifier.
#[derive(Debug, Clone, Copy, PartialEq, Eq, Structural)]
pub struct AppliedEvent {
    pub entity: u128,
    pub event_id: EventId,
}

/// Identity projection system: the three read-models and the keys of the
/// events that were applied to them.
#[derive(Debug)]
pub struct IdentityProjectionSystem {
    pub identities: IdentityStatusProjection,
    pub graph: RelationshipGraphProjection,
    pub workflows: WorkflowStatusProjection,
    pub applied: Vec<AppliedEvent>,
}

/// The state of the read-models.
pub struct ReadModels {
    pub summaries: Seq<IdentitySummary>,
    pub edges: Seq<GraphEdge>,
    pub active: Seq<WorkflowEntry>,
    pub requires_action: Seq<WorkflowId>,
    pub applied: Seq<AppliedEvent>,
}

impl View for IdentityProjectionSystem {
    type V = ReadModels;

    open spec fn view(&self) -> ReadModels {
        ReadModels {
            summaries: self.identities.summaries@,
            edges: self.graph.edges@,
            active: self.workflows.active@,
            requires_action: self.workflows.requires_action@,
            applied: self.applied@,
        }
    }
}

/// The entity that an event is about.
pub open spec fn subject_of(event: DomainEvent) -> u128 {
    match event {
        DomainEvent::IdentityCreated(e) => e.identity_id.0,
        DomainEvent::IdentityUpdated(e) => e.identity_id.0,
        DomainEvent::IdentityArchived(e) => e.identity_id.0,
        DomainEvent::IdentitiesMerged(e) => e.source_identity.0,
        DomainEvent::VerificationCompleted(e) => e.identity_id.0,
        DomainEvent::RelationshipEstablished(e) => e.relationship_id.0,
        DomainEvent::RelationshipExpired(e) => e.relationship_id.0,
        DomainEvent::RelationshipRevoked(e) => e.relationship_id.0,
        DomainEvent::WorkflowStarted(e) => e.workflow_id.0,
        DomainEvent::WorkflowStepCompleted(e) => e.workflow_id.0,
        DomainEvent::WorkflowCompleted(e) => e.workflow_id.0,
        DomainEvent::WorkflowTimedOut(e) => e.workflow_id.0,
    }
}

/// The entity that an event is about.
pub fn subject(event: &DomainEvent) -> (r: u128)
    ensures
        r == subject_of(*event),
{
    match event {
        DomainEvent::IdentityCreated(e) => e.identity_id.0,
        DomainEvent::IdentityUpdated(e) => e.identity_id.0,
        DomainEvent::IdentityArchived(e) => e.identity_id.0,
        DomainEvent::IdentitiesMerged(e) => e.source_identity.0,
        DomainEvent::VerificationCompleted(e) => e.identity_id.0,
        DomainEvent::RelationshipEstablished(e) => e.relationship_id.0,
        DomainEvent::RelationshipExpired(e) => e.relationship_id.0,
        DomainEvent::RelationshipRevoked(e) => e.relationship_id.0,
        DomainEvent::WorkflowStarted(e) => e.workflow_id.0,
        DomainEvent::WorkflowStepCompleted(e) => e.workflow_id.0,
        DomainEvent::WorkflowCompleted(e) => e.workflow_id.0,
        DomainEvent::WorkflowTimedOut(e) => e.workflow_id.0,
    }
}

/// The key of an event in the stream.
pub open spec fn key_of(envelope: EventEnvelope) -> AppliedEvent {
    AppliedEvent { entity: subject_of(envelope.event), event_id: envelope.event_id }
}

/// The index holds a summary of the identity.
pub open spec fn summary_known(summaries: Seq<IdentitySummary>, id: IdentityId) -> bool {
    exists|k: int| 0 <= k < summaries.len() && (#[trigger] summaries[k]).identity_id == id
}

/// The summaries with the status of the identity set as of the given time.
pub open spec fn restated(
    summaries: Seq<IdentitySummary>,
    id: IdentityId,
    status: IdentityStatus,
    at: Timestamp,
) -> Seq<IdentitySummary> {
    Seq::new(
        summaries.len(),
        |k: int|
            if summaries[k].identity_id == id {
                IdentitySummary { status, updated_at: at, ..summaries[k] }
            } else {
                summaries[k]
            },
    )
}

/// The summaries after a successful verification of the identity at the
/// given level: the level is recorded, and a pending identity is active.
pub open spec fn relevelled(
    summaries: Seq<IdentitySummary>,
    id: IdentityId,
    level: VerificationLevel,
    at: Timestamp,
) -> Seq<IdentitySummary> {
    Seq::new(
        summaries.len(),
        |k: int|
            if summaries[k].identity_id == id {
                IdentitySummary {
                    verification_level: level,
                    status: if summaries[k].status is Pending {
                        IdentityStatus::Active
                    } else {
                        summaries[k].status
                    },
                    updated_at: at,
                    ..summaries[k]
                }
            } else {
                summaries[k]
            },
    )
}

/// The summary of an identity that was just created.
pub open spec fn summary_created(event: IdentityCreated) -> IdentitySummary {
    IdentitySummary {
        identity_id: event.identity_id,
        identity_type: event.identity_type,
        status: IdentityStatus::Pending,
        verification_level: VerificationLevel::Unverified,
        updated_at: event.created_at,
    }
}

/// The summary index after an event. A creation adds a summary unless the
/// identity has one; updates, archives, merges and verifications change the
/// summary of their identity; all other events leave the index alone.
pub open spec fn summaries_after(summaries: Seq<IdentitySummary>, event: DomainEvent) -> Seq<
    IdentitySummary,
> {
    match event {
        DomainEvent::IdentityCreated(e) => if summary_known(summaries, e.identity_id) {
            summaries
        } else {
            summaries.push(summary_created(e))
        },
        DomainEvent::IdentityUpdated(e) => restated(
            summaries,
            e.identity_id,
            e.new_status,
            e.updated_at,
        ),
        DomainEvent::IdentityArchived(e) => restated(
            summaries,
            e.identity_id,
            IdentityStatus::Archived,
            e.archived_at,
        ),
        DomainEvent::IdentitiesMerged(e) => restated(
            summaries,
            e.source_identity,
            IdentityStatus::Merged { merged_into: e.target_identity },
            e.merged_at,
        ),
        DomainEvent::VerificationCompleted(e) => if e.verification_successful {
            relevelled(summaries, e.identity_id, e.new_verification_level, e.completed_at)
        } else {
            summaries
        },
        _ => summaries,
    }
}

/// The graph holds an edge for the relationship.
pub open spec fn edge_known(edges: Seq<GraphEdge>, id: RelationshipId) -> bool {
    exists|k: int| 0 <= k < edges.len() && (#[trigger] edges[k]).relationship_id == id
}

/// The edges among the first `n` that do not belong to the relationship, in
/// their order.
pub open spec fn without_edge(edges: Seq<GraphEdge>, id: RelationshipId, n: int) -> Seq<GraphEdge>
    decreases n,
{
    if n <= 0 {
        Seq::empty()
    } else if edges[n - 1].relationship_id == id {
        without_edge(edges, id, n - 1)
    } else {
        without_edge(edges, id, n - 1).push(edges[n - 1])
    }
}

/// The edge of a relationship that was just established.
pub open spec fn edge_established(event: RelationshipEstablished) -> GraphEdge {
    GraphEdge {
        relationship_id: event.relationship_id,
        from_identity: event.from_identity,
        to_identity: event.to_identity,
        relationship_type: event.relationship_type,
    }
}

/// The edges with the given edge in the place of every edge that stands
/// under its relationship.
pub open spec fn replaced(edges: Seq<GraphEdge>, edge: GraphEdge) -> Seq<GraphEdge> {
    Seq::new(
        edges.len(),
        |k: int|
            if edges[k].relationship_id == edge.relationship_id {
                edge
            } else {
                edges[k]
            },
    )
}

/// The edges after an event. An established relationship puts its edge into
/// the graph: in the place of the edge that stands under the relationship,
/// where there is one, and at the back otherwise. An expired or revoked
/// relationship loses its edge; all other events leave the graph alone.
pub open spec fn edges_after(edges: Seq<GraphEdge>, event: DomainEvent) -> Seq<GraphEdge> {
    match event {
        DomainEvent::RelationshipEstablished(e) => if edge_known(edges, e.relationship_id) {
            replaced(edges, edge_established(e))
        } else {
            edges.push(edge_established(e))
        },
        DomainEvent::RelationshipExpired(e) => without_edge(
            edges,
            e.relationship_id,
            edges.len() as int,
        ),
        DomainEvent::RelationshipRevoked(e) => without_edge(
            edges,
            e.relationship_id,
            edges.len() as int,
        ),
        _ => edges,
    }
}

/// No two edges stand under the same relationship.
pub open spec fn edges_distinct(edges: Seq<GraphEdge>) -> bool {
    forall|a: int, b: int|
        0 <= a < b < edges.len() ==> (#[trigger] edges[a]).relationship_id != (
        #[trigger] edges[b]).relationship_id
}

/// The worklist holds the workflow.
pub open spec fn entry_known(active: Seq<WorkflowEntry>, id: WorkflowId) -> bool {
    exists|k: int| 0 <= k < active.len() && (#[trigger] active[k]).workflow_id == id
}

/// The entries among the first `n` that do not belong to the workflow, in
/// their order.
pub open spec fn without_entry(active: Seq<WorkflowEntry>, id: WorkflowId, n: int) -> Seq<
    WorkflowEntry,
>
    decreases n,
{
    if n <= 0 {
        Seq::empty()
    } else if active[n - 1].workflow_id == id {
        without_entry(active, id, n - 1)
    } else {
        without_entry(active, id, n - 1).push(active[n - 1])
    }
}

/// The entries with the status of the workflow set.
pub open spec fn restatused(active: Seq<WorkflowEntry>, id: WorkflowId, status: WorkflowStatus) -> Seq<
    WorkflowEntry,
> {
    Seq::new(
        active.len(),
        |k: int|
            if active[k].workflow_id == id {
                WorkflowEntry { status, ..active[k] }
            } else {
                active[k]
            },
    )
}

/// The entry of a workflow that was just started.
pub open spec fn entry_started(event: WorkflowStarted) -> WorkflowEntry {
    WorkflowEntry {
        workflow_id: event.workflow_id,
        identity_id: event.identity_id,
        workflow_type: event.workflow_type,
        status: event.status,
    }
}

/// The worklist of unfinished workflows after an event. A started workflow is
/// entered unless it is there or has ended; a completed step records the
/// status that the workflow has now, and takes the workflow off the list
/// where it has ended; a completed or timed-out workflow is taken off.
pub open spec fn active_after(active: Seq<WorkflowEntry>, event: DomainEvent) -> Seq<WorkflowEntry> {
    match event {
        DomainEvent::WorkflowStarted(e) => if entry_known(active, e.workflow_id)
            || e.status.terminal() {
            active
        } else {
            active.push(entry_started(e))
        },
        DomainEvent::WorkflowStepCompleted(e) => if e.workflow_status.terminal() {
            without_entry(active, e.workflow_id, active.len() as int)
        } else {
            restatused(active, e.workflow_id, e.workflow_status)
        },
        DomainEvent::WorkflowCompleted(e) => without_entry(
            active,
            e.workflow_id,
            active.len() as int,
        ),
        DomainEvent::WorkflowTimedOut(e) => without_entry(
            active,
            e.workflow_id,
            active.len() as int,
        ),
        _ => active,
    }
}

/// The identifiers among the first `n` other than the given one, in their
/// order.
pub open spec fn without_id(ids: Seq<WorkflowId>, id: WorkflowId, n: int) -> Seq<WorkflowId>
    decreases n,
{
    if n <= 0 {
        Seq::empty()
    } else if ids[n - 1] == id {
        without_id(ids, id, n - 1)
    } else {
        without_id(ids, id, n - 1).push(ids[n - 1])
    }
}

/// The list of workflows that wait for action, after a workflow took on a
/// status: a workflow that waits for input or approval is on the list, once;
/// with any other status it is not.
pub open spec fn awaiting_with(ids: Seq<WorkflowId>, id: WorkflowId, status: WorkflowStatus) -> Seq<
    WorkflowId,
> {
    if status.awaiting_action() {
        if ids.contains(id) {
            ids
        } else {
            ids.push(id)
        }
    } else {
        without_id(ids, id, ids.len() as int)
    }
}

/// The list of workflows that wait for action, after an event.
pub open spec fn awaiting_after(ids: Seq<WorkflowId>, event: DomainEvent) -> Seq<WorkflowId> {
    match event {
        DomainEvent::WorkflowStarted(e) => awaiting_with(ids, e.workflow_id, e.status),
        DomainEvent::WorkflowStepCompleted(e) => awaiting_with(
            ids,
            e.workflow_id,
            e.workflow_status,
        ),
        DomainEvent::WorkflowCompleted(e) => without_id(ids, e.workflow_id, ids.len() as int),
        DomainEvent::WorkflowTimedOut(e) => without_id(ids, e.workflow_id, ids.len() as int),
        _ => ids,
    }
}

/// The key was applied before.
pub open spec fn was_applied(applied: Seq<AppliedEvent>, key: AppliedEvent) -> bool {
    exists|k: int| 0 <= k < applied.len() && #[trigger] applied[k] == key
}

/// The identities that an event refers to are visible: the summary index
/// knows the identity that an update, archive, merge or verification is
/// about, both ends of an established relationship, and the owner of a
/// started workflow. Every other event refers to nothing that could be
/// missing.
pub open spec fn visible(summaries: Seq<IdentitySummary>, event: DomainEvent) -> bool {
    match event {
        DomainEvent::IdentityUpdated(e) => summary_known(summaries, e.identity_id),
        DomainEvent::IdentityArchived(e) => summary_known(summaries, e.identity_id),
        DomainEvent::IdentitiesMerged(e) => summary_known(summaries, e.source_identity),
        DomainEvent::VerificationCompleted(e) => summary_known(summaries, e.identity_id),
        DomainEvent::RelationshipEstablished(e) => summary_known(summaries, e.from_identity)
            && summary_known(summaries, e.to_identity),
        DomainEvent::WorkflowStarted(e) => summary_known(summaries, e.identity_id),
        _ => true,
    }
}

/// The read-models after an event of the stream. An event whose key was
/// applied before changes nothing. Neither does an event that refers to an
/// identity which is not visible yet: it is left for a later try. Any other
/// changes each read-model as the event asks, and its key is remembered.
pub open spec fn project(state: ReadModels, envelope: EventEnvelope) -> ReadModels {
    if was_applied(state.applied, key_of(envelope)) || !visible(state.summaries, envelope.event) {
        state
    } else {
        ReadModels {
            summaries: summaries_after(state.summaries, envelope.event),
            edges: edges_after(state.edges, envelope.event),
            active: active_after(state.active, envelope.event),
            requires_action: awaiting_after(state.requires_action, envelope.event),
            applied: state.applied.push(key_of(envelope)),
        }
    }
}

/// An event fails to be applied when it is new and refers to an identity
/// that is not visible yet.
pub open spec fn out_of_sync(state: ReadModels, envelope: EventEnvelope) -> bool {
    !was_applied(state.applied, key_of(envelope)) && !visible(state.summaries, envelope.event)
}

fn is_summary_known(summaries: &Vec<IdentitySummary>, id: IdentityId) -> (r: bool)
    ensures
        r == summary_known(summaries@, id),
{
    let mut k: usize = 0;
    while k < summaries.len()
        invariant
            k <= summaries@.len(),
            forall|j: int| 0 <= j < k ==> (#[trigger] summaries@[j]).identity_id != id,
        decreases summaries@.len() - k,
    {
        if summaries[k].identity_id == id {
            return true;
        }
        k += 1;
    }
    false
}

fn restate(summaries: &mut Vec<IdentitySummary>, id: IdentityId, status: IdentityStatus, at: Timestamp)
    ensures
        final(summaries)@ == restated(old(summaries)@, id, status, at),
{
    let mut k: usize = 0;
    while k < summaries.len()
        invariant
            k <= summaries@.len(),
            summaries@.len() == old(summaries)@.len(),
            forall|j: int|
                0 <= j < k ==> #[trigger] summaries@[j] == restated(old(summaries)@, id, status, at)[j],
            forall|j: int| k <= j < summaries@.len() ==> #[trigger] summaries@[j] == old(summaries)@[j],
        decreases summaries@.len() - k,
    {
        if summaries[k].identity_id == id {
            summaries[k].status = status;
            summaries[k].updated_at = at;
        }
        k += 1;
    }
    assert(summaries@ =~= restated(old(summaries)@, id, status, at));
}

fn relevel(summaries: &mut Vec<IdentitySummary>, id: IdentityId, level: VerificationLevel, at: Timestamp)
    ensures
        final(summaries)@ == relevelled(old(summaries)@, id, level, at),
{
    let mut k: usize = 0;
    while k < summaries.len()
        invariant
            k <= summaries@.len(),
            summaries@.len() == old(summaries)@.len(),
            forall|j: int|
                0 <= j < k ==> #[trigger] summaries@[j] == relevelled(old(summaries)@, id, level, at)[j],
            forall|j: int| k <= j < summaries@.len() ==> #[trigger] summaries@[j] == old(summaries)@[j],
        decreases summaries@.len() - k,
    {
        if summaries[k].identity_id == id {
            summaries[k].verification_level = level;
            match summaries[k].status {
                IdentityStatus::Pending => {
                    summaries[k].status = IdentityStatus::Active;
                },
                _ => {},
            }
            summaries[k].updated_at = at;
        }
        k += 1;
    }
    assert(summaries@ =~= relevelled(old(summaries)@, id, level, at));
}

/// Follows the creation of an identity in the summary index.
pub fn update_identity_projections(projection: &mut IdentityStatusProjection, event: &IdentityCreated)
    ensures
        final(projection).summaries@ == summaries_after(
            old(projection).summaries@,
            DomainEvent::IdentityCreated(*event),
        ),
{
    if !is_summary_known(&projection.summaries, event.identity_id) {
        projection.summaries.push(
            IdentitySummary {
                identity_id: event.identity_id,
                identity_type: event.identity_type,
                status: IdentityStatus::Pending,
                verification_level: VerificationLevel::Unverified,
                updated_at: event.created_at,
            },
        );
    }
}

/// An event that changes the status or the level of an identity.
pub open spec fn about_status(event: DomainEvent) -> bool {
    ||| event is IdentityUpdated
    ||| event is IdentityArchived
    ||| event is IdentitiesMerged
    ||| event is VerificationCompleted
}

/// Follows updates, archives, merges and verifications in the summary index.
/// Other events leave it alone.
pub fn update_identity_status_projection(projection: &mut IdentityStatusProjection, event: &DomainEvent)
    ensures
        about_status(*event) ==> final(projection).summaries@ == summaries_after(
            old(projection).summaries@,
            *event,
        ),
        !about_status(*event) ==> final(projection).summaries@ == old(projection).summaries@,
{
    match event {
        DomainEvent::IdentityUpdated(e) => {
            restate(&mut projection.summaries, e.identity_id, e.new_status, e.updated_at);
        },
        DomainEvent::IdentityArchived(e) => {
            restate(
                &mut projection.summaries,
                e.identity_id,
                IdentityStatus::Archived,
                e.archived_at,
            );
        },
        DomainEvent::IdentitiesMerged(e) => {
            restate(
                &mut projection.summaries,
                e.source_identity,
                IdentityStatus::Merged { merged_into: e.target_identity },
                e.merged_at,
            );
        },
        DomainEvent::VerificationCompleted(e) => {
            if e.verification_successful {
                relevel(
                    &mut projection.summaries,
                    e.identity_id,
                    e.new_verification_level,
                    e.completed_at,
                );
            }
        },
        _ => {},
    }
}

fn is_edge_known(edges: &Vec<GraphEdge>, id: RelationshipId) -> (r: bool)
    ensures
        r == edge_known(edges@, id),
{
    let mut k: usize = 0;
    while k < edges.len()
        invariant
            k <= edges@.len(),
            forall|j: int| 0 <= j < k ==> (#[trigger] edges@[j]).relationship_id != id,
        decreases edges@.len() - k,
    {
        if edges[k].relationship_id == id {
            return true;
        }
        k += 1;
    }
    false
}

fn drop_edge(edges: &mut Vec<GraphEdge>, id: RelationshipId)
    ensures
        final(edges)@ == without_edge(old(edges)@, id, old(edges)@.len() as int),
{
    let mut kept: Vec<GraphEdge> = Vec::new();
    let mut k: usize = 0;
    while k < edges.len()
        invariant
            k <= edges@.len(),
            edges@ == old(edges)@,
            kept@ == without_edge(edges@, id, k as int),
        decreases edges@.len() - k,
    {
        if edges[k].relationship_id != id {
            kept.push(edges[k].clone());
        }
        k += 1;
    }
    *edges = kept;
}

fn put_edge(edges: &mut Vec<GraphEdge>, edge: &GraphEdge)
    ensures
        final(edges)@ == replaced(old(edges)@, *edge),
{
    let mut k: usize = 0;
    while k < edges.len()
        invariant
            k <= edges@.len(),
            edges@.len() == old(edges)@.len(),
            forall|j: int| 0 <= j < k ==> #[trigger] edges@[j] == replaced(old(edges)@, *edge)[j],
            forall|j: int| k <= j < edges@.len() ==> #[trigger] edges@[j] == old(edges)@[j],
        decreases edges@.len() - k,
    {
        if edges[k].relationship_id == edge.relationship_id {
            edges[k] = edge.clone();
        }
        k += 1;
    }
    assert(edges@ =~= replaced(old(edges)@, *edge));
}

/// Follows established, expired and revoked relationships in the graph.
/// Other events leave it alone.
pub fn update_relationship_graph(projection: &mut RelationshipGraphProjection, event: &DomainEvent)
    ensures
        final(projection).edges@ == edges_after(old(projection).edges@, *event),
{
    match event {
        DomainEvent::RelationshipEstablished(e) => {
            let edge = GraphEdge {
                relationship_id: e.relationship_id,
                from_identity: e.from_identity,
                to_identity: e.to_identity,
                relationship_type: e.relationship_type.clone(),
            };
            if is_edge_known(&projection.edges, e.relationship_id) {
                put_edge(&mut projection.edges, &edge);
            } else {
                projection.edges.push(edge);
            }
        },
        DomainEvent::RelationshipExpired(e) => {
            drop_edge(&mut projection.edges, e.relationship_id);
        },
        DomainEvent::RelationshipRevoked(e) => {
            drop_edge(&mut projection.edges, e.relationship_id);
        },
        _ => {},
    }
}

fn is_entry_known(active: &Vec<WorkflowEntry>, id: WorkflowId) -> (r: bool)
    ensures
        r == entry_known(active@, id),
{
    let mut k: usize = 0;
    while k < active.len()
        invariant
            k <= active@.len(),
            forall|j: int| 0 <= j < k ==> (#[trigger] active@[j]).workflow_id != id,
        decreases active@.len() - k,
    {
        if active[k].workflow_id == id {
            return true;
        }
        k += 1;
    }
    false
}

fn drop_entry(active: &mut Vec<WorkflowEntry>, id: WorkflowId)
    ensures
        final(active)@ == without_entry(old(active)@, id, old(active)@.len() as int),
{
    let mut kept: Vec<WorkflowEntry> = Vec::new();
    let mut k: usize = 0;
    while k < active.len()
        invariant
            k <= active@.len(),
            active@ == old(active)@,
            kept@ == without_entry(active@, id, k as int),
        decreases active@.len() - k,
    {
        if active[k].workflow_id != id {
            kept.push(active[k].clone());
        }
        k += 1;
    }
    *active = kept;
}

fn restatus(active: &mut Vec<WorkflowEntry>, id: WorkflowId, status: &WorkflowStatus)
    ensures
        final(active)@ == restatused(old(active)@, id, *status),
{
    let mut k: usize = 0;
    while k < active.len()
        invariant
            k <= active@.len(),
            active@.len() == old(active)@.len(),
            forall|j: int|
                0 <= j < k ==> #[trigger] active@[j] == restatused(old(active)@, id, *status)[j],
            forall|j: int| k <= j < active@.len() ==> #[trigger] active@[j] == old(active)@[j],
        decreases active@.len() - k,
    {
        if active[k].workflow_id == id {
            active[k].status = status.clone();
        }
        k += 1;
    }
    assert(active@ =~= restatused(old(active)@, id, *status));
}

fn drop_id(ids: &mut Vec<WorkflowId>, id: WorkflowId)
    ensures
        final(ids)@ == without_id(old(ids)@, id, old(ids)@.len() as int),
{
    let mut kept: Vec<WorkflowId> = Vec::new();
    let mut k: usize = 0;
    while k < ids.len()
        invariant
            k <= ids@.len(),
            ids@ == old(ids)@,
            kept@ == without_id(ids@, id, k as int),
        decreases ids@.len() - k,
    {
        if ids[k] != id {
            kept.push(ids[k]);
        }
        k += 1;
    }
    *ids = kept;
}

fn note_status(ids: &mut Vec<WorkflowId>, id: WorkflowId, status: &WorkflowStatus)
    ensures
        final(ids)@ == awaiting_with(old(ids)@, id, *status),
{
    if status.is_awaiting_action() {
        let mut k: usize = 0;
        let mut found = false;
        while k < ids.len() && !found
            invariant
                k <= ids@.len(),
                ids@ == old(ids)@,
                !found ==> forall|j: int| 0 <= j < k ==> #[trigger] ids@[j] != id,
                found ==> ids@.contains(id),
            decreases ids@.len() - k + if found { 0int } else { 1int },
        {
            if ids[k] == id {
                found = true;
            } else {
                k += 1;
            }
        }
        if !found {
            ids.push(id);
        }
    } else {
        drop_id(ids, id);
    }
}

/// Follows started workflows, completed steps, and completed and timed-out
/// workflows in the worklists. Other events leave them alone.
pub fn update_workflow_status_projection(projection: &mut WorkflowStatusProjection, event: &DomainEvent)
    ensures
        final(projection).active@ == active_after(old(projection).active@, *event),
        final(projection).requires_action@ == awaiting_after(
            old(projection).requires_action@,
            *event,
        ),
{
    match event {
        DomainEvent::WorkflowStarted(e) => {
            if !is_entry_known(&projection.active, e.workflow_id) && !e.status.is_terminal() {
                projection.active.push(
                    WorkflowEntry {
                        workflow_id: e.workflow_id,
                        identity_id: e.identity_id,
                        workflow_type: e.workflow_type.clone(),
                        status: e.status.clone(),
                    },
                );
            }
            note_status(&mut projection.requires_action, e.workflow_id, &e.status);
        },
        DomainEvent::WorkflowStepCompleted(e) => {
            if e.workflow_status.is_terminal() {
                drop_entry(&mut projection.active, e.workflow_id);
            } else {
                restatus(&mut projection.active, e.workflow_id, &e.workflow_status);
            }
            note_status(&mut projection.requires_action, e.workflow_id, &e.workflow_status);
        },
        DomainEvent::WorkflowCompleted(e) => {
            drop_entry(&mut projection.active, e.workflow_id);
            drop_id(&mut projection.requires_action, e.workflow_id);
        },
        DomainEvent::WorkflowTimedOut(e) => {
            drop_entry(&mut projection.active, e.workflow_id);
            drop_id(&mut projection.requires_action, e.workflow_id);
        },
        _ => {},
    }
}

/// The place of the summary of an identity.
pub open spec fn summary_at(summaries: Seq<IdentitySummary>, id: IdentityId, k: int) -> bool {
    &&& 0 <= k < summaries.len()
    &&& summaries[k].identity_id == id
    &&& forall|j: int| 0 <= j < k ==> (#[trigger] summaries[j]).identity_id != id
}

/// The summaries among the first `n` of identities of the type, in their
/// order.
pub open spec fn summaries_of_type(summaries: Seq<IdentitySummary>, identity_type: IdentityType, n: int) -> Seq<
    IdentitySummary,
>
    decreases n,
{
    if n <= 0 {
        Seq::empty()
    } else if summaries[n - 1].identity_type == identity_type {
        summaries_of_type(summaries, identity_type, n - 1).push(summaries[n - 1])
    } else {
        summaries_of_type(summaries, identity_type, n - 1)
    }
}

impl IdentityStatusProjection {
    /// The summary of an identity, if the index holds one.
    pub fn by_id(&self, id: IdentityId) -> (r: Option<IdentitySummary>)
        ensures
            match r {
                Some(summary) => exists|k: int|
                    summary_at(self.summaries@, id, k) && summary == self.summaries@[k],
                None => !summary_known(self.summaries@, id),
            },
    {
        let mut k: usize = 0;
        while k < self.summaries.len()
            invariant
                k <= self.summaries@.len(),
                forall|j: int| 0 <= j < k ==> (#[trigger] self.summaries@[j]).identity_id != id,
            decreases self.summaries@.len() - k,
        {
            if self.summaries[k].identity_id == id {
                assert(summary_at(self.summaries@, id, k as int));
                return Some(self.summaries[k]);
            }
            k += 1;
        }
        None
    }

    /// The summaries of the identities of a type.
    pub fn by_type(&self, identity_type: IdentityType) -> (r: Vec<IdentitySummary>)
        ensures
            r@ == summaries_of_type(self.summaries@, identity_type, self.summaries@.len() as int),
    {
        let mut found: Vec<IdentitySummary> = Vec::new();
        let mut k: usize = 0;
        while k < self.summaries.len()
            invariant
                k <= self.summaries@.len(),
                found@ == summaries_of_type(self.summaries@, identity_type, k as int),
            decreases self.summaries@.len() - k,
        {
            if self.summaries[k].identity_type == identity_type {
                found.push(self.summaries[k]);
            }
            k += 1;
        }
        found
    }
}

/// The edges among the first `n` that leave the identity, in their order:
/// its forward adjacency.
pub open spec fn edges_from(edges: Seq<GraphEdge>, id: IdentityId, n: int) -> Seq<GraphEdge>
    decreases n,
{
    if n <= 0 {
        Seq::empty()
    } else if edges[n - 1].from_identity == id {
        edges_from(edges, id, n - 1).push(edges[n - 1])
    } else {
        edges_from(edges, id, n - 1)
    }
}

/// The edges among the first `n` that arrive at the identity, in their
/// order: its reverse adjacency.
pub open spec fn edges_to(edges: Seq<GraphEdge>, id: IdentityId, n: int) -> Seq<GraphEdge>
    decreases n,
{
    if n <= 0 {
        Seq::empty()
    } else if edges[n - 1].to_identity == id {
        edges_to(edges, id, n - 1).push(edges[n - 1])
    } else {
        edges_to(edges, id, n - 1)
    }
}

/// The relationships among the first `n` edges that leave the identity or
/// arrive at it, in their order.
pub open spec fn relationships_at(edges: Seq<GraphEdge>, id: IdentityId, n: int) -> Seq<
    RelationshipId,
>
    decreases n,
{
    if n <= 0 {
        Seq::empty()
    } else if edges[n - 1].from_identity == id || edges[n - 1].to_identity == id {
        relationships_at(edges, id, n - 1).push(edges[n - 1].relationship_id)
    } else {
        relationships_at(edges, id, n - 1)
    }
}

impl RelationshipGraphProjection {
    /// The edges that leave the identity.
    pub fn outgoing(&self, id: IdentityId) -> (r: Vec<GraphEdge>)
        ensures
            r@ == edges_from(self.edges@, id, self.edges@.len() as int),
    {
        let mut found: Vec<GraphEdge> = Vec::new();
        let mut k: usize = 0;
        while k < self.edges.len()
            invariant
                k <= self.edges@.len(),
                found@ == edges_from(self.edges@, id, k as int),
            decreases self.edges@.len() - k,
        {
            if self.edges[k].from_identity == id {
                found.push(self.edges[k].clone());
            }
            k += 1;
        }
        found
    }

    /// The edges that arrive at the identity.
    pub fn incoming(&self, id: IdentityId) -> (r: Vec<GraphEdge>)
        ensures
            r@ == edges_to(self.edges@, id, self.edges@.len() as int),
    {
        let mut found: Vec<GraphEdge> = Vec::new();
        let mut k: usize = 0;
        while k < self.edges.len()
            invariant
                k <= self.edges@.len(),
                found@ == edges_to(self.edges@, id, k as int),
            decreases self.edges@.len() - k,
        {
            if self.edges[k].to_identity == id {
                found.push(self.edges[k].clone());
            }
            k += 1;
        }
        found
    }

    /// The graph of one identity as the read-model holds it at `now`.
    pub fn graph_of(&self, id: IdentityId, now: Timestamp) -> (r: RelationshipGraph)
        ensures
            r.identity_id == id,
            r.direct_relationships@ == relationships_at(self.edges@, id, self.edges@.len() as int),
            r.relationship_count == r.direct_relationships@.len(),
            r.last_updated == now,
    {
        let mut found: Vec<RelationshipId> = Vec::new();
        let mut k: usize = 0;
        while k < self.edges.len()
            invariant
                k <= self.edges@.len(),
                found@ == relationships_at(self.edges@, id, k as int),
            decreases self.edges@.len() - k,
        {
            if self.edges[k].from_identity == id || self.edges[k].to_identity == id {
                found.push(self.edges[k].relationship_id);
            }
            k += 1;
        }
        let relationship_count = found.len();
        RelationshipGraph {
            identity_id: id,
            direct_relationships: found,
            relationship_count,
            last_updated: now,
        }
    }
}

/// The entries among the first `n` of workflows of the identity, in their
/// order.
pub open spec fn entries_of(active: Seq<WorkflowEntry>, id: IdentityId, n: int) -> Seq<WorkflowEntry>
    decreases n,
{
    if n <= 0 {
        Seq::empty()
    } else if active[n - 1].identity_id == id {
        entries_of(active, id, n - 1).push(active[n - 1])
    } else {
        entries_of(active, id, n - 1)
    }
}

impl WorkflowStatusProjection {
    /// The unfinished workflows of an identity.
    pub fn active_by_identity(&self, id: IdentityId) -> (r: Vec<WorkflowEntry>)
        ensures
            r@ == entries_of(self.active@, id, self.active@.len() as int),
    {
        let mut found: Vec<WorkflowEntry> = Vec::new();
        let mut k: usize = 0;
        while k < self.active.len()
            invariant
                k <= self.active@.len(),
                found@ == entries_of(self.active@, id, k as int),
            decreases self.active@.len() - k,
        {
            if self.active[k].identity_id == id {
                found.push(self.active[k].clone());
            }
            k += 1;
        }
        found
    }

    /// Whether the workflow waits for somebody outside the engine to act.
    pub fn is_awaiting_action(&self, id: WorkflowId) -> (r: bool)
        ensures
            r == self.requires_action@.contains(id),
    {
        let mut k: usize = 0;
        while k < self.requires_action.len()
            invariant
                k <= self.requires_action@.len(),
                forall|j: int| 0 <= j < k ==> self.requires_action@[j] != id,
            decreases self.requires_action@.len() - k,
        {
            if self.requires_action[k] == id {
                return true;
            }
            k += 1;
        }
        false
    }
}

impl IdentityProjectionSystem {
    /// Read-models that have seen no event.
    pub fn new() -> (r: Self)
        ensures
            r@ == (ReadModels {
                summaries: Seq::empty(),
                edges: Seq::empty(),
                active: Seq::empty(),
                requires_action: Seq::empty(),
                applied: Seq::empty(),
            }),
    {
        IdentityProjectionSystem {
            identities: IdentityStatusProjection { summaries: Vec::new() },
            graph: RelationshipGraphProjection { edges: Vec::new() },
            workflows: WorkflowStatusProjection { active: Vec::new(), requires_action: Vec::new() },
            applied: Vec::new(),
        }
    }

    /// Whether the event was applied before.
    pub fn has_applied(&self, envelope: &EventEnvelope) -> (r: bool)
        ensures
            r == was_applied(self@.applied, key_of(*envelope)),
    {
        let key = AppliedEvent { entity: subject(&envelope.event), event_id: envelope.event_id };
        let mut k: usize = 0;
        while k < self.applied.len()
            invariant
                k <= self.applied@.len(),
                key == key_of(*envelope),
                forall|j: int| 0 <= j < k ==> #[trigger] self.applied@[j] != key,
            decreases self.applied@.len() - k,
        {
            if self.applied[k] == key {
                return true;
            }
            k += 1;
        }
        false
    }

    /// Whether the identities that an event refers to are visible.
    pub fn is_visible(&self, event: &DomainEvent) -> (r: bool)
        ensures
            r == visible(self@.summaries, *event),
    {
        match event {
            DomainEvent::IdentityUpdated(e) => is_summary_known(
                &self.identities.summaries,
                e.identity_id,
            ),
            DomainEvent::IdentityArchived(e) => is_summary_known(
                &self.identities.summaries,
                e.identity_id,
            ),
            DomainEvent::IdentitiesMerged(e) => is_summary_known(
                &self.identities.summaries,
                e.source_identity,
            ),
            DomainEvent::VerificationCompleted(e) => is_summary_known(
                &self.identities.summaries,
                e.identity_id,
            ),
            DomainEvent::RelationshipEstablished(e) => is_summary_known(
                &self.identities.summaries,
                e.from_identity,
            ) && is_summary_known(&self.identities.summaries, e.to_identity),
            DomainEvent::WorkflowStarted(e) => is_summary_known(
                &self.identities.summaries,
                e.identity_id,
            ),
            _ => true,
        }
    }

    /// Applies an event of the stream to the read-models. An event that
    /// refers to an identity which is not visible yet is refused and can be
    /// tried again later.
    pub fn apply(&mut self, envelope: &EventEnvelope) -> (r: IdentityResult<()>)
        ensures
            final(self)@ == project(old(self)@, *envelope),
            out_of_sync(old(self)@, *envelope) ==> (r matches Err(e) && e@
                == ErrorView::ProjectionSyncFailed("Identity not yet visible"@)),
            !out_of_sync(old(self)@, *envelope) ==> r is Ok,
    {
        if self.has_applied(envelope) {
            return Ok(());
        }
        if !self.is_visible(&envelope.event) {
            return Err(IdentityError::ProjectionSyncFailed("Identity not yet visible".to_string()));
        }
        match &envelope.event {
            DomainEvent::IdentityCreated(e) => {
                update_identity_projections(&mut self.identities, e);
            },
            _ => {
                update_identity_status_projection(&mut self.identities, &envelope.event);
            },
        }
        update_relationship_graph(&mut self.graph, &envelope.event);
        update_workflow_status_projection(&mut self.workflows, &envelope.event);
        self.applied.push(
            AppliedEvent { entity: subject(&envelope.event), event_id: envelope.event_id },
        );
        Ok(())
    }
}

} // verus!
