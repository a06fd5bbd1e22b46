//! What holds of the domain over any course of operations.
//!
//! Every operation that changes a world promises that the world it leaves
//! follows the world it found; the laws here say what that means over a
//! whole history of worlds.

use crate::commands::{EstablishRelationshipCommand, StartWorkflowCommand};
use crate::components::{IdentityRelationship, RelationshipType};
use crate::error::{ErrorView, IdentityError, IdentityResult};
use crate::events::{EventEnvelope, RelationshipEstablished, WorkflowStarted};
use crate::ids::{IdentityId, RelationshipId, WorkflowId};
use crate::systems::relationship::establishment;
use crate::systems::workflow::start_outcome;
use crate::projections::{
    edge_established, edges_after, edges_distinct, key_of, project, visible, was_applied,
    without_edge, GraphEdge, ReadModels,
};
use crate::events::DomainEvent;
use crate::time::Timestamp;
use crate::systems::relationship::unexpired;
use crate::traversal::{
    backward_hop, breadth_first, forward_hop, hops_of, lemma_breadth_first_sound,
    lemma_closed_hops_make_no_difference, lemma_open_hops_agree, open_hops, walk_sound,
    TraversalRules,
};
use crate::components::workflow::WorkflowStep;
use crate::world::{
    edge_recorded, identity_at, lemma_first_identity, workflow_pending, IdentityWorld,
};
use vstd::prelude::*;

verus! {

/// A history: a sequence of worlds in which each follows the one before, as
/// the worlds do that a sequence of operations leaves behind.
pub open spec fn history(worlds: Seq<IdentityWorld>) -> bool {
    forall|k: int| 0 <= k < worlds.len() - 1 ==> (#[trigger] worlds[k + 1]).follows(worlds[k])
}

/// Over a history no identity is lost or moved: one that stands at a place in
/// an earlier world stands at the same place, under the same identifier and
/// with the same type, in every later world.
pub proof fn lemma_identities_stay(worlds: Seq<IdentityWorld>, a: int, b: int, i: int)
    requires
        history(worlds),
        0 <= a <= b < worlds.len(),
        0 <= i < worlds[a].identities@.len(),
    ensures
        i < worlds[b].identities@.len(),
        worlds[b].identities@[i].entity.identity_id == worlds[a].identities@[i].entity.identity_id,
        worlds[b].identities@[i].entity.identity_type
            == worlds[a].identities@[i].entity.identity_type,
    decreases b - a,
{
    if a < b {
        lemma_identities_stay(worlds, a, b - 1, i);
        assert(worlds[b - 1 + 1].follows(worlds[b - 1]));
    }
}

/// From one world of a history to the next, the status of an identity stays
/// as it is, moves between pending and active or between active and
/// suspended, or comes to its end as archived or merged.
pub proof fn lemma_status_moves_within_lattice(worlds: Seq<IdentityWorld>, k: int, i: int)
    requires
        history(worlds),
        0 <= k < worlds.len() - 1,
        0 <= i < worlds[k].identities@.len(),
    ensures
        i < worlds[k + 1].identities@.len(),
        worlds[k].identities@[i].entity.status.step_allowed(
            worlds[k + 1].identities@[i].entity.status,
        ),
{
    assert(worlds[k + 1].follows(worlds[k]));
}

/// An identity that is archived or merged in some world of a history has the
/// very same status in every later world: archived and merged are never
/// left, and neither is reached from the other.
pub proof fn lemma_terminal_status_is_final(worlds: Seq<IdentityWorld>, a: int, b: int, i: int)
    requires
        history(worlds),
        0 <= a <= b < worlds.len(),
        0 <= i < worlds[a].identities@.len(),
        worlds[a].identities@[i].entity.status.terminal(),
    ensures
        i < worlds[b].identities@.len(),
        worlds[b].identities@[i].entity.status == worlds[a].identities@[i].entity.status,
    decreases b - a,
{
    if a < b {
        lemma_terminal_status_is_final(worlds, a, b - 1, i);
        assert(worlds[b - 1 + 1].follows(worlds[b - 1]));
    }
}

/// Over a history the verification level of an identity never falls, and
/// from one world to the next it rises by one level at most.
pub proof fn lemma_verification_level_climbs(worlds: Seq<IdentityWorld>, a: int, b: int, i: int)
    requires
        history(worlds),
        0 <= a <= b < worlds.len(),
        0 <= i < worlds[a].identities@.len(),
    ensures
        i < worlds[b].identities@.len(),
        worlds[a].identities@[i].verification.verification_level.rank()
            <= worlds[b].identities@[i].verification.verification_level.rank(),
        worlds[b].identities@[i].verification.verification_level.rank()
            <= worlds[a].identities@[i].verification.verification_level.rank() + (b - a),
    decreases b - a,
{
    if a < b {
        lemma_verification_level_climbs(worlds, a, b - 1, i);
        assert(worlds[b - 1 + 1].follows(worlds[b - 1]));
    }
}

/// A traversal from a root with a greatest depth `d` finds no path with more
/// than `d` relationships, no path that passes an identity twice, and no two
/// paths that end at the same identity.
pub proof fn lemma_traversal_bounded_and_simple(
    rels: Seq<IdentityRelationship>,
    root: IdentityId,
    d: u32,
    rules: TraversalRules,
    now: Timestamp,
)
    ensures
        forall|k: int|
            0 <= k < breadth_first(rels, root, Some(d), rules, now).len() ==> {
                let walk = #[trigger] breadth_first(rels, root, Some(d), rules, now)[k];
                &&& walk.depth() <= d
                &&& walk.identities.len() == walk.depth() + 1
                &&& walk.identities.no_duplicates()
            },
        forall|a: int, b: int|
            0 <= a < b < breadth_first(rels, root, Some(d), rules, now).len() ==> (
            #[trigger] breadth_first(rels, root, Some(d), rules, now)[a]).end() != (
            #[trigger] breadth_first(rels, root, Some(d), rules, now)[b]).end(),
{
    lemma_breadth_first_sound(hops_of(rels, rules, now), root, Some(d));
    let walks = breadth_first(rels, root, Some(d), rules, now);
    assert forall|k: int| 0 <= k < walks.len() implies {
        let walk = #[trigger] walks[k];
        &&& walk.depth() <= d
        &&& walk.identities.len() == walk.depth() + 1
        &&& walk.identities.no_duplicates()
    } by {
        assert(walk_sound(walks[k], hops_of(rels, rules, now), root, Some(d)));
    }
}

/// A traversal without a greatest depth finds no path that passes an identity
/// twice either, and no two paths that end at the same identity.
pub proof fn lemma_traversal_simple(
    rels: Seq<IdentityRelationship>,
    root: IdentityId,
    max_depth: Option<u32>,
    rules: TraversalRules,
    now: Timestamp,
)
    ensures
        forall|k: int|
            0 <= k < breadth_first(rels, root, max_depth, rules, now).len() ==> (
            #[trigger] breadth_first(rels, root, max_depth, rules, now)[k]).identities.no_duplicates(),
        forall|a: int, b: int|
            0 <= a < b < breadth_first(rels, root, max_depth, rules, now).len() ==> (
            #[trigger] breadth_first(rels, root, max_depth, rules, now)[a]).end() != (
            #[trigger] breadth_first(rels, root, max_depth, rules, now)[b]).end(),
{
    lemma_breadth_first_sound(hops_of(rels, rules, now), root, max_depth);
    let walks = breadth_first(rels, root, max_depth, rules, now);
    assert forall|k: int| 0 <= k < walks.len() implies (#[trigger] walks[k]).identities.no_duplicates() by {
        assert(walk_sound(walks[k], hops_of(rels, rules, now), root, max_depth));
    }
}

/// Replaying an event against the read-models, at once or after any other
/// events, yields the state that its first application left: once an event's
/// key is remembered, the event changes nothing.
pub proof fn lemma_replay_is_idempotent(state: ReadModels, envelope: EventEnvelope)
    ensures
        project(project(state, envelope), envelope) == project(state, envelope),
{
    let once = project(state, envelope);
    if !was_applied(state.applied, key_of(envelope)) && visible(state.summaries, envelope.event) {
        assert(once.applied[state.applied.len() as int] == key_of(envelope));
    }
}

/// An event that was applied stays applied whatever follows, so that a late
/// replay changes nothing either.
pub proof fn lemma_applied_events_stay(state: ReadModels, first: EventEnvelope, later: EventEnvelope)
    requires
        was_applied(state.applied, key_of(first)),
    ensures
        was_applied(project(state, later).applied, key_of(first)),
        project(project(state, later), first) == project(state, later),
{
    let k = choose|k: int| 0 <= k < state.applied.len() && #[trigger] state.applied[k] == key_of(first);
    assert(project(state, later).applied[k] == key_of(first));
}

/// Establishing a relationship a second time changes nothing: once a command
/// has been carried out, the same command, under whatever identifier and at
/// whatever time, leaves the world as it is and gives no event.
pub proof fn lemma_establishing_again_changes_nothing(
    before: IdentityWorld,
    command: EstablishRelationshipCommand,
    first_id: RelationshipId,
    first_time: Timestamp,
    between: IdentityWorld,
    first: IdentityResult<Option<RelationshipEstablished>>,
    second_id: RelationshipId,
    second_time: Timestamp,
    after: IdentityWorld,
    second: IdentityResult<Option<RelationshipEstablished>>,
)
    requires
        establishment(before, command, first_id, first_time, between, first),
        first is Ok,
        establishment(between, command, second_id, second_time, after, second),
    ensures
        second == Ok::<Option<RelationshipEstablished>, IdentityError>(None),
        after == between,
        edge_recorded(
            between.relationships@,
            command.from_identity,
            command.to_identity,
            command.relationship_type,
        ),
{
    assert(command.relationship_type.same_as(command.relationship_type));
    if !edge_recorded(
        before.relationships@,
        command.from_identity,
        command.to_identity,
        command.relationship_type,
    ) {
        let f = lemma_first_identity(before.identities@, command.from_identity, 0);
        let t = lemma_first_identity(before.identities@, command.to_identity, 0);
        let last = before.relationships@.len() as int;
        assert(between.relationships@[last].source_identity == command.from_identity);
        assert(between.relationships@[last].relationship_type.same_as(command.relationship_type));
    }
}

/// While a workflow that was started has not ended, a second workflow of the
/// same type for the same identity is rejected as being in progress, and
/// nothing changes.
pub proof fn lemma_second_workflow_is_rejected(
    before: IdentityWorld,
    command: StartWorkflowCommand,
    first_id: WorkflowId,
    first_time: Timestamp,
    between: IdentityWorld,
    first: IdentityResult<WorkflowStarted>,
    again: StartWorkflowCommand,
    second_id: WorkflowId,
    second_time: Timestamp,
    after: IdentityWorld,
    second: IdentityResult<WorkflowStarted>,
)
    requires
        start_outcome(before, command, first_id, first_time, between, first),
        first is Ok,
        again.identity_id == command.identity_id,
        command.workflow_type.same_as(again.workflow_type),
        start_outcome(between, again, second_id, second_time, after, second),
    ensures
        second matches Err(e) && e@ == ErrorView::WorkflowInProgress,
        after == between,
{
    let i = lemma_first_identity(before.identities@, command.identity_id, 0);
    assert(identity_at(between.identities@, again.identity_id, i));
    let last = before.workflows@.len() as int;
    let started = between.workflows@[last];
    assert(started == between.workflows@.last());
    assert(!started.status.terminal());
    assert(started.identity_id == again.identity_id);
    assert(started.workflow_type.same_as(again.workflow_type));
    assert(workflow_pending(between.workflows@, again.identity_id, again.workflow_type));
}

/// The step at `k` is active, and no other step is.
pub open spec fn active_alone(steps: Seq<WorkflowStep>, k: int) -> bool {
    &&& 0 <= k < steps.len()
    &&& steps[k].status is Active
    &&& forall|m: int| 0 <= m < steps.len() && (#[trigger] steps[m]).status is Active ==> m == k
}

/// In a well-formed world a workflow that is under way has exactly one step
/// that is active.
pub proof fn lemma_one_step_is_active(world: IdentityWorld, w: int)
    requires
        world.wf(),
        0 <= w < world.workflows@.len(),
        world.workflows@[w].status.running(),
    ensures
        exists|k: int| active_alone(world.workflows@[w].steps@, k),
{
    let workflow = world.workflows@[w];
    assert(workflow.consistent());
    let steps = workflow.steps@;
    let k = choose|k: int|
        0 <= k < steps.len() && (#[trigger] steps[k]).step_id@ == workflow.current_step->0@
            && steps[k].status is Active;
    assert(steps[k].status is Active);
    assert(active_alone(steps, k));
}

/// In a well-formed world no two unfinished workflows of one type belong to
/// the same identity.
pub proof fn lemma_one_unfinished_workflow_per_type(world: IdentityWorld, a: int, b: int)
    requires
        world.wf(),
        0 <= a < world.workflows@.len(),
        0 <= b < world.workflows@.len(),
        a != b,
        world.workflows@[a].identity_id == world.workflows@[b].identity_id,
        world.workflows@[a].workflow_type.same_as(world.workflows@[b].workflow_type),
        !world.workflows@[a].status.terminal(),
    ensures
        world.workflows@[b].status.terminal(),
{
    if a < b {
        assert(world.workflows@[a].workflow_id != world.workflows@[b].workflow_id);
    } else {
        assert(world.workflows@[b].workflow_id != world.workflows@[a].workflow_id);
        assert(world.workflows@[b].workflow_type.same_as(world.workflows@[a].workflow_type));
    }
}

/// Once a relationship is established in a graph whose edges stand under
/// different relationships, exactly one edge stands under it, the one that
/// the event tells of; every edge of another relationship stays in its
/// place, and the edges still stand under different relationships.
pub proof fn lemma_established_edge_stands_once(edges: Seq<GraphEdge>, event: RelationshipEstablished)
    requires
        edges_distinct(edges),
    ensures
        edges_distinct(edges_after(edges, DomainEvent::RelationshipEstablished(event))),
        exists|k: int|
            0 <= k < edges_after(edges, DomainEvent::RelationshipEstablished(event)).len()
                && #[trigger] edges_after(edges, DomainEvent::RelationshipEstablished(event))[k]
                == edge_established(event) && forall|m: int|
                0 <= m < edges_after(edges, DomainEvent::RelationshipEstablished(event)).len() && (
                #[trigger] edges_after(
                    edges,
                    DomainEvent::RelationshipEstablished(event),
                )[m]).relationship_id == event.relationship_id ==> m == k,
        forall|m: int|
            0 <= m < edges.len() && (#[trigger] edges[m]).relationship_id != event.relationship_id
                ==> edges_after(edges, DomainEvent::RelationshipEstablished(event))[m] == edges[m],
{
    let after = edges_after(edges, DomainEvent::RelationshipEstablished(event));
    if exists|k: int| 0 <= k < edges.len() && (#[trigger] edges[k]).relationship_id == event.relationship_id {
        let k = choose|k: int|
            0 <= k < edges.len() && (#[trigger] edges[k]).relationship_id == event.relationship_id;
        assert(after[k] == edge_established(event));
        assert forall|m: int|
            0 <= m < after.len() && (#[trigger] after[m]).relationship_id
                == event.relationship_id implies m == k by {
            if m < k {
                assert(edges[m].relationship_id != edges[k].relationship_id);
            } else if k < m {
                assert(edges[k].relationship_id != edges[m].relationship_id);
            }
        }
        assert forall|a: int, b: int| 0 <= a < b < after.len() implies (
        #[trigger] after[a]).relationship_id != (#[trigger] after[b]).relationship_id by {
            assert(edges[a].relationship_id != edges[b].relationship_id);
        }
    } else {
        let k = edges.len() as int;
        assert(after[k] == edge_established(event));
        assert forall|a: int, b: int| 0 <= a < b < after.len() implies (
        #[trigger] after[a]).relationship_id != (#[trigger] after[b]).relationship_id by {
            if b < edges.len() {
                assert(edges[a].relationship_id != edges[b].relationship_id);
            }
        }
    }
}

/// Establishing a relationship in the graph a second time changes nothing,
/// whatever the graph held before and under whatever event identifier the
/// event comes again.
pub proof fn lemma_establishing_in_graph_is_idempotent(edges: Seq<GraphEdge>, event: RelationshipEstablished)
    ensures
        edges_after(
            edges_after(edges, DomainEvent::RelationshipEstablished(event)),
            DomainEvent::RelationshipEstablished(event),
        ) == edges_after(edges, DomainEvent::RelationshipEstablished(event)),
{
    let once = edges_after(edges, DomainEvent::RelationshipEstablished(event));
    let twice = edges_after(once, DomainEvent::RelationshipEstablished(event));
    if exists|k: int| 0 <= k < edges.len() && (#[trigger] edges[k]).relationship_id == event.relationship_id {
        let k = choose|k: int|
            0 <= k < edges.len() && (#[trigger] edges[k]).relationship_id == event.relationship_id;
        assert(once[k].relationship_id == event.relationship_id);
    } else {
        assert(once[edges.len() as int].relationship_id == event.relationship_id);
    }
    assert(twice =~= once);
}

proof fn lemma_without_edge_distinct(edges: Seq<GraphEdge>, id: RelationshipId, n: int)
    requires
        edges_distinct(edges),
        0 <= n <= edges.len(),
    ensures
        edges_distinct(without_edge(edges, id, n)),
        forall|k: int|
            0 <= k < without_edge(edges, id, n).len() ==> exists|j: int|
                0 <= j < n && edges[j] == #[trigger] without_edge(edges, id, n)[k],
    decreases n,
{
    if n > 0 {
        lemma_without_edge_distinct(edges, id, n - 1);
        let before = without_edge(edges, id, n - 1);
        let after = without_edge(edges, id, n);
        assert forall|k: int| 0 <= k < after.len() implies exists|j: int|
            0 <= j < n && edges[j] == #[trigger] after[k] by {
            if k < before.len() {
                let j = choose|j: int| 0 <= j < n - 1 && edges[j] == before[k];
                assert(edges[j] == after[k]);
            } else {
                assert(edges[n - 1] == after[k]);
            }
        }
        assert forall|a: int, b: int| 0 <= a < b < after.len() implies (
        #[trigger] after[a]).relationship_id != (#[trigger] after[b]).relationship_id by {
            if b < before.len() {
                assert(before[a].relationship_id != before[b].relationship_id);
            } else {
                let j = choose|j: int| 0 <= j < n - 1 && edges[j] == before[a];
                assert(edges[j].relationship_id != edges[n - 1].relationship_id);
            }
        }
    }
}

/// A graph whose edges stand under different relationships stays so under
/// every event. The graph of read-models that have seen no event is empty,
/// so the graph of read-models that only events have changed never holds two
/// edges under one relationship.
pub proof fn lemma_graph_stays_distinct(edges: Seq<GraphEdge>, event: DomainEvent)
    requires
        edges_distinct(edges),
    ensures
        edges_distinct(edges_after(edges, event)),
{
    match event {
        DomainEvent::RelationshipEstablished(e) => {
            lemma_established_edge_stands_once(edges, e);
        },
        DomainEvent::RelationshipExpired(e) => {
            lemma_without_edge_distinct(edges, e.relationship_id, edges.len() as int);
        },
        DomainEvent::RelationshipRevoked(e) => {
            lemma_without_edge_distinct(edges, e.relationship_id, edges.len() as int);
        },
        _ => {},
    }
}

proof fn lemma_open_hops_of_unexpired(
    rels: Seq<IdentityRelationship>,
    rules: TraversalRules,
    now: Timestamp,
    n: int,
)
    requires
        0 <= n <= rels.len(),
    ensures
        unexpired(rels, now, n).len() <= n,
        open_hops(hops_of(rels, rules, now), 2 * n) == open_hops(
            hops_of(unexpired(rels, now, n), rules, now),
            2 * (unexpired(rels, now, n).len() as int),
        ),
    decreases n,
{
    if n > 0 {
        lemma_open_hops_of_unexpired(rels, rules, now, n - 1);
        let rel = rels[n - 1];
        let all = hops_of(rels, rules, now);
        let earlier = unexpired(rels, now, n - 1);
        let m = earlier.len() as int;
        assert(all[2 * n - 2] == forward_hop(rel, rules, now));
        assert(all[2 * n - 1] == backward_hop(rel, rules, now));
        assert(open_hops(all, 2 * n) == if all[2 * n - 1].open {
            open_hops(all, 2 * n - 1).push(all[2 * n - 1])
        } else {
            open_hops(all, 2 * n - 1)
        });
        assert(open_hops(all, 2 * n - 1) == if all[2 * n - 2].open {
            open_hops(all, 2 * n - 2).push(all[2 * n - 2])
        } else {
            open_hops(all, 2 * n - 2)
        });
        if !rel.expired(now) {
            let kept = unexpired(rels, now, n);
            assert(kept == earlier.push(rel));
            let left = hops_of(kept, rules, now);
            let before = hops_of(earlier, rules, now);
            assert forall|i: int| 0 <= i < 2 * m implies #[trigger] left[i] == before[i] by {
                assert(kept[i / 2] == earlier[i / 2]);
            }
            lemma_open_hops_agree(left, before, 2 * m);
            assert(left[2 * m] == forward_hop(rel, rules, now));
            assert(left[2 * m + 1] == backward_hop(rel, rules, now));
            assert(open_hops(left, 2 * m + 2) == if left[2 * m + 1].open {
                open_hops(left, 2 * m + 1).push(left[2 * m + 1])
            } else {
                open_hops(left, 2 * m + 1)
            });
            assert(open_hops(left, 2 * m + 1) == if left[2 * m].open {
                open_hops(left, 2 * m).push(left[2 * m])
            } else {
                open_hops(left, 2 * m)
            });
        }
    }
}

/// Expired relationships make no difference to a traversal: over all the
/// relationships it finds, walk for walk, what it finds over those that have
/// not expired.
pub proof fn lemma_expired_relationships_make_no_difference(
    rels: Seq<IdentityRelationship>,
    root: IdentityId,
    max_depth: Option<u32>,
    rules: TraversalRules,
    now: Timestamp,
)
    ensures
        breadth_first(rels, root, max_depth, rules, now) == breadth_first(
            unexpired(rels, now, rels.len() as int),
            root,
            max_depth,
            rules,
            now,
        ),
{
    let kept = unexpired(rels, now, rels.len() as int);
    lemma_open_hops_of_unexpired(rels, rules, now, rels.len() as int);
    lemma_closed_hops_make_no_difference(hops_of(rels, rules, now), root, max_depth);
    lemma_closed_hops_make_no_difference(hops_of(kept, rules, now), root, max_depth);
}

} // verus!
