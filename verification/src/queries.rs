//! Query operations for the identity domain. They read the world and never
//! change it.

use crate::aggregate::{running_count, AggregateState};
use crate::components::{
    ClaimType, IdentityClaim, IdentityEntity, IdentityRelationship, IdentityStatus, IdentityType,
    IdentityVerification, IdentityWorkflow, ProjectionType, RelationshipType, VerificationLevel,
    WorkflowStatus, WorkflowType,
};
use crate::events::TraversalPath;
use crate::ids::{IdentityId, RelationshipId};
use crate::time::Timestamp;
use crate::traversal::{
    breadth_first, hops_of, joins, lemma_walks_follow_relationships, step_follows, traverse,
    usable, walk_sound, walks_of, TraversalRules,
};
use crate::world::{identity_absent, identity_at, touching_count, IdentityRecord, IdentityWorld};
use vstd::prelude::*;

verus! {

/// Query to find an identity by ID.
#[derive(Debug, Clone, Copy, PartialEq, Eq, Structural)]
pub struct FindIdentityByIdQuery {
    pub identity_id: IdentityId,
}

/// Query to find identities by type.
#[derive(Debug, Clone, Copy, PartialEq, Eq, Structural)]
pub struct FindIdentitiesByTypeQuery {
    pub identity_type: IdentityType,
}

/// Query to find relationships by identity.
#[derive(Debug, Clone, Copy, PartialEq, Eq, Structural)]
pub struct FindRelationshipsByIdentityQuery {
    pub identity_id: IdentityId,
    pub include_incoming: bool,
    pub include_outgoing: bool,
}

/// Query to find active workflows.
#[derive(Debug)]
pub struct FindActiveWorkflowsQuery {
    pub identity_id: Option<IdentityId>,
    pub workflow_type: Option<WorkflowType>,
}

/// Query to get identity verification status.
#[derive(Debug, Clone, Copy, PartialEq, Eq, Structural)]
pub struct GetIdentityVerificationStatusQuery {
    pub identity_id: IdentityId,
}

/// Query to get identity projections.
#[derive(Debug, Clone, Copy, PartialEq, Eq, Structural)]
pub struct GetIdentityProjectionsQuery {
    pub identity_id: IdentityId,
    pub projection_type: Option<ProjectionType>,
}

/// Query to find workflows for an identity.
#[derive(Debug)]
pub struct FindWorkflowsQuery {
    pub identity_id: IdentityId,
    pub workflow_type: Option<WorkflowType>,
    pub status_filter: Option<WorkflowStatus>,
}

/// Read-only view of an identity.
#[derive(Debug, Clone, Copy, PartialEq, Eq, Structural)]
pub struct IdentityView {
    pub identity_id: IdentityId,
    pub identity_type: IdentityType,
    pub status: IdentityStatus,
    pub verification_level: VerificationLevel,
    pub created_at: Timestamp,
    pub updated_at: Timestamp,
}

/// View model for relationship queries.
#[derive(Debug)]
pub struct RelationshipView {
    pub relationship_id: RelationshipId,
    pub from_identity: IdentityId,
    pub to_identity: IdentityId,
    pub relationship_type: RelationshipType,
    pub established_at: Timestamp,
}

/// Detailed identity information.
#[derive(Debug)]
pub struct IdentityDetails {
    pub identity: IdentityEntity,
    pub verification: IdentityVerification,
    pub relationships: Vec<IdentityRelationship>,
    pub active_workflows: Vec<IdentityWorkflow>,
}

/// Result of relationship graph traversal.
#[derive(Debug)]
pub struct RelationshipGraphResult {
    pub root: IdentityId,
    pub paths: Vec<Vec<IdentityId>>,
    pub visited_count: usize,
}

/// What a view shows of an identity.
pub open spec fn view_of(record: IdentityRecord) -> IdentityView {
    IdentityView {
        identity_id: record.entity.identity_id,
        identity_type: record.entity.identity_type,
        status: record.entity.status,
        verification_level: record.verification.verification_level,
        created_at: record.metadata.created_at,
        updated_at: record.metadata.updated_at,
    }
}

fn make_view(record: &IdentityRecord) -> (r: IdentityView)
    ensures
        r == view_of(*record),
{
    IdentityView {
        identity_id: record.entity.identity_id,
        identity_type: record.entity.identity_type,
        status: record.entity.status,
        verification_level: record.verification.verification_level,
        created_at: record.metadata.created_at,
        updated_at: record.metadata.updated_at,
    }
}

/// By what identities are picked.
#[derive(Debug, Clone, Copy, PartialEq, Eq, Structural)]
pub enum IdentitySelector {
    OfType(IdentityType),
    WithStatus(IdentityStatus),
    VerifiedAtLeast(VerificationLevel),
}

impl IdentitySelector {
    /// The selector picks the identity.
    pub open spec fn picks(self, record: IdentityRecord) -> bool {
        match self {
            IdentitySelector::OfType(identity_type) => record.entity.identity_type == identity_type,
            IdentitySelector::WithStatus(status) => record.entity.status == status,
            IdentitySelector::VerifiedAtLeast(level) => record.verification.verification_level.rank()
                >= level.rank(),
        }
    }

    pub fn is_picking(&self, record: &IdentityRecord) -> (r: bool)
        ensures
            r == self.picks(*record),
    {
        match self {
            IdentitySelector::OfType(identity_type) => record.entity.identity_type == *identity_type,
            IdentitySelector::WithStatus(status) => record.entity.status == *status,
            IdentitySelector::VerifiedAtLeast(level) => record.verification.verification_level.ordinal()
                >= level.ordinal(),
        }
    }
}

/// The views of the identities among the first `n` that the selector picks,
/// in their order.
pub open spec fn identity_views(identities: Seq<IdentityRecord>, selector: IdentitySelector, n: int) -> Seq<
    IdentityView,
>
    decreases n,
{
    if n <= 0 {
        Seq::empty()
    } else if selector.picks(identities[n - 1]) {
        identity_views(identities, selector, n - 1).push(view_of(identities[n - 1]))
    } else {
        identity_views(identities, selector, n - 1)
    }
}

/// The views of all identities that the selector picks.
pub fn select_identities(world: &IdentityWorld, selector: IdentitySelector) -> (r: Vec<IdentityView>)
    ensures
        r@ == identity_views(world.identities@, selector, world.identities@.len() as int),
{
    let mut views: Vec<IdentityView> = Vec::new();
    let mut i: usize = 0;
    while i < world.identities.len()
        invariant
            i <= world.identities@.len(),
            views@ == identity_views(world.identities@, selector, i as int),
        decreases world.identities@.len() - i,
    {
        if selector.is_picking(&world.identities[i]) {
            views.push(make_view(&world.identities[i]));
        }
        i += 1;
    }
    views
}

/// Finds an identity by its identifier.
pub fn find_identity_by_id(world: &IdentityWorld, query: &FindIdentityByIdQuery) -> (r: Option<
    IdentityView,
>)
    ensures
        match r {
            Some(view) => exists|i: int|
                identity_at(world.identities@, query.identity_id, i) && view == view_of(
                    world.identities@[i],
                ),
            None => identity_absent(world.identities@, query.identity_id),
        },
{
    match world.find_identity(query.identity_id) {
        Some(i) => Some(make_view(&world.identities[i])),
        None => None,
    }
}

/// Finds the identities of a type.
pub fn find_identities_by_type(world: &IdentityWorld, query: &FindIdentitiesByTypeQuery) -> (r: Vec<
    IdentityView,
>)
    ensures
        r@ == identity_views(
            world.identities@,
            IdentitySelector::OfType(query.identity_type),
            world.identities@.len() as int,
        ),
{
    select_identities(world, IdentitySelector::OfType(query.identity_type))
}

/// Finds the identities with a status.
pub fn find_by_status(world: &IdentityWorld, status: IdentityStatus) -> (r: Vec<IdentityView>)
    ensures
        r@ == identity_views(
            world.identities@,
            IdentitySelector::WithStatus(status),
            world.identities@.len() as int,
        ),
{
    select_identities(world, IdentitySelector::WithStatus(status))
}

/// Finds the identities that are verified at the given level or above.
pub fn find_by_verification_level(world: &IdentityWorld, min_level: VerificationLevel) -> (r: Vec<
    IdentityView,
>)
    ensures
        r@ == identity_views(
            world.identities@,
            IdentitySelector::VerifiedAtLeast(min_level),
            world.identities@.len() as int,
        ),
{
    select_identities(world, IdentitySelector::VerifiedAtLeast(min_level))
}

/// Finds the identities that are verified at the given level or above.
pub fn find_identities_by_verification_level(world: &IdentityWorld, min_level: VerificationLevel) -> (r:
    Vec<IdentityView>)
    ensures
        r@ == identity_views(
            world.identities@,
            IdentitySelector::VerifiedAtLeast(min_level),
            world.identities@.len() as int,
        ),
{
    select_identities(world, IdentitySelector::VerifiedAtLeast(min_level))
}

/// The verification of an identity, if the identity is known.
pub fn get_verification_status(world: &IdentityWorld, query: &GetIdentityVerificationStatusQuery) -> (r:
    Option<IdentityVerification>)
    ensures
        match r {
            Some(verification) => exists|i: int|
                identity_at(world.identities@, query.identity_id, i) && verification
                    == world.identities@[i].verification,
            None => identity_absent(world.identities@, query.identity_id),
        },
{
    match world.find_identity(query.identity_id) {
        Some(i) => Some(world.identities[i].verification.clone()),
        None => None,
    }
}

/// Some claim of the list is of the type and has the value.
pub open spec fn claims_hold(claims: Seq<IdentityClaim>, claim_type: ClaimType, value: Seq<char>) -> bool {
    exists|j: int|
        0 <= j < claims.len() && (#[trigger] claims[j]).claim_type.same_as(claim_type)
            && claims[j].value@ == value
}

fn has_claim(claims: &Vec<IdentityClaim>, claim_type: &ClaimType, value: &str) -> (r: bool)
    ensures
        r == claims_hold(claims@, *claim_type, value@),
{
    let wanted: String = value.to_string();
    let mut j: usize = 0;
    while j < claims.len()
        invariant
            j <= claims@.len(),
            wanted@ == value@,
            forall|k: int|
                0 <= k < j ==> !((#[trigger] claims@[k]).claim_type.same_as(*claim_type)
                    && claims@[k].value@ == value@),
        decreases claims@.len() - j,
    {
        if claims[j].claim_type.is_same_as(claim_type) && claims[j].value == wanted {
            return true;
        }
        j += 1;
    }
    false
}

/// The identifiers of the identities among the first `n` that hold the claim,
/// in their order.
pub open spec fn claimants(
    identities: Seq<IdentityRecord>,
    claim_type: ClaimType,
    value: Seq<char>,
    n: int,
) -> Seq<IdentityId>
    decreases n,
{
    if n <= 0 {
        Seq::empty()
    } else if claims_hold(identities[n - 1].claims@, claim_type, value) {
        claimants(identities, claim_type, value, n - 1).push(identities[n - 1].entity.identity_id)
    } else {
        claimants(identities, claim_type, value, n - 1)
    }
}

/// Finds the identities that hold a claim of the type with the value.
pub fn find_identities_by_claim(world: &IdentityWorld, claim_type: ClaimType, value: &str) -> (r: Vec<
    IdentityId,
>)
    ensures
        r@ == claimants(world.identities@, claim_type, value@, world.identities@.len() as int),
{
    let mut found: Vec<IdentityId> = Vec::new();
    let mut i: usize = 0;
    while i < world.identities.len()
        invariant
            i <= world.identities@.len(),
            found@ == claimants(world.identities@, claim_type, value@, i as int),
        decreases world.identities@.len() - i,
    {
        if has_claim(&world.identities[i].claims, &claim_type, value) {
            found.push(world.identities[i].entity.identity_id);
        }
        i += 1;
    }
    found
}

/// What a view shows of a relationship.
pub open spec fn relationship_view_of(rel: IdentityRelationship) -> RelationshipView {
    RelationshipView {
        relationship_id: rel.relationship_id,
        from_identity: rel.source_identity,
        to_identity: rel.target_identity,
        relationship_type: rel.relationship_type,
        established_at: rel.established_at,
    }
}

/// The query asks for the relationship: it leaves the identity and outgoing
/// ones are asked for, or it arrives there and incoming ones are asked for.
pub open spec fn relationship_wanted(query: FindRelationshipsByIdentityQuery, rel: IdentityRelationship) -> bool {
    ||| (query.include_outgoing && rel.source_identity == query.identity_id)
    ||| (query.include_incoming && rel.target_identity == query.identity_id)
}

/// The views of the relationships among the first `n` that the query asks
/// for, in their order.
pub open spec fn relationship_views(
    rels: Seq<IdentityRelationship>,
    query: FindRelationshipsByIdentityQuery,
    n: int,
) -> Seq<RelationshipView>
    decreases n,
{
    if n <= 0 {
        Seq::empty()
    } else if relationship_wanted(query, rels[n - 1]) {
        relationship_views(rels, query, n - 1).push(relationship_view_of(rels[n - 1]))
    } else {
        relationship_views(rels, query, n - 1)
    }
}

/// Finds the relationships that leave an identity, arrive at it, or both.
pub fn find_relationships_by_identity(world: &IdentityWorld, query: &FindRelationshipsByIdentityQuery) -> (r:
    Vec<RelationshipView>)
    ensures
        r@ == relationship_views(world.relationships@, *query, world.relationships@.len() as int),
{
    let mut views: Vec<RelationshipView> = Vec::new();
    let mut i: usize = 0;
    while i < world.relationships.len()
        invariant
            i <= world.relationships@.len(),
            views@ == relationship_views(world.relationships@, *query, i as int),
        decreases world.relationships@.len() - i,
    {
        let rel = &world.relationships[i];
        if (query.include_outgoing && rel.source_identity == query.identity_id) || (
        query.include_incoming && rel.target_identity == query.identity_id) {
            views.push(
                RelationshipView {
                    relationship_id: rel.relationship_id,
                    from_identity: rel.source_identity,
                    to_identity: rel.target_identity,
                    relationship_type: rel.relationship_type.clone(),
                    established_at: rel.established_at,
                },
            );
        }
        i += 1;
    }
    views
}

/// Finds the relationships that leave an identity or arrive at it.
pub fn find_relationships_for_identity(world: &IdentityWorld, identity_id: IdentityId) -> (r: Vec<
    RelationshipView,
>)
    ensures
        r@ == relationship_views(
            world.relationships@,
            FindRelationshipsByIdentityQuery {
                identity_id,
                include_incoming: true,
                include_outgoing: true,
            },
            world.relationships@.len() as int,
        ),
{
    let query = FindRelationshipsByIdentityQuery {
        identity_id,
        include_incoming: true,
        include_outgoing: true,
    };
    find_relationships_by_identity(world, &query)
}

/// The query asks for the workflow: it is under way, and it belongs to the
/// identity and is of the type where the query names one.
pub open spec fn workflow_wanted(query: FindActiveWorkflowsQuery, workflow: IdentityWorkflow) -> bool {
    &&& workflow.status.running()
    &&& query.identity_id matches Some(id) ==> workflow.identity_id == id
    &&& query.workflow_type matches Some(wanted) ==> workflow.workflow_type.same_as(wanted)
}

/// The workflows among the first `n` that the query asks for, in their
/// order.
pub open spec fn active_workflows(
    workflows: Seq<IdentityWorkflow>,
    query: FindActiveWorkflowsQuery,
    n: int,
) -> Seq<IdentityWorkflow>
    decreases n,
{
    if n <= 0 {
        Seq::empty()
    } else if workflow_wanted(query, workflows[n - 1]) {
        active_workflows(workflows, query, n - 1).push(workflows[n - 1])
    } else {
        active_workflows(workflows, query, n - 1)
    }
}

/// Each workflow of the first list holds the same as the one at its place in
/// the second.
pub open spec fn same_workflows(copies: Seq<IdentityWorkflow>, sources: Seq<IdentityWorkflow>) -> bool {
    &&& copies.len() == sources.len()
    &&& forall|k: int| 0 <= k < copies.len() ==> (#[trigger] copies[k]).same_as(sources[k])
}

/// Finds the workflows that are under way.
pub fn find_active_workflows(world: &IdentityWorld, query: &FindActiveWorkflowsQuery) -> (r: Vec<
    IdentityWorkflow,
>)
    ensures
        same_workflows(r@, active_workflows(world.workflows@, *query, world.workflows@.len() as int)),
{
    let mut found: Vec<IdentityWorkflow> = Vec::new();
    let mut i: usize = 0;
    while i < world.workflows.len()
        invariant
            i <= world.workflows@.len(),
            same_workflows(found@, active_workflows(world.workflows@, *query, i as int)),
        decreases world.workflows@.len() - i,
    {
        let workflow = &world.workflows[i];
        let of_identity = match query.identity_id {
            Some(id) => workflow.identity_id == id,
            None => true,
        };
        let of_type = match &query.workflow_type {
            Some(wanted) => workflow.workflow_type.is_same_as(wanted),
            None => true,
        };
        if workflow.status.is_running() && of_identity && of_type {
            found.push(workflow.clone());
        }
        i += 1;
    }
    found
}

/// Finds the workflows of an identity that are under way.
pub fn find_active_workflows_for_identity(world: &IdentityWorld, identity_id: IdentityId) -> (r: Vec<
    IdentityWorkflow,
>)
    ensures
        same_workflows(
            r@,
            active_workflows(
                world.workflows@,
                FindActiveWorkflowsQuery { identity_id: Some(identity_id), workflow_type: None },
                world.workflows@.len() as int,
            ),
        ),
{
    let query = FindActiveWorkflowsQuery { identity_id: Some(identity_id), workflow_type: None };
    find_active_workflows(world, &query)
}

/// The relationships among the first `n` that start or end at the identity,
/// in their order.
pub open spec fn relationships_of(rels: Seq<IdentityRelationship>, id: IdentityId, n: int) -> Seq<
    IdentityRelationship,
>
    decreases n,
{
    if n <= 0 {
        Seq::empty()
    } else if rels[n - 1].touches(id) {
        relationships_of(rels, id, n - 1).push(rels[n - 1])
    } else {
        relationships_of(rels, id, n - 1)
    }
}

/// The workflows among the first `n` that belong to the identity, in their
/// order.
pub open spec fn workflows_of(workflows: Seq<IdentityWorkflow>, id: IdentityId, n: int) -> Seq<
    IdentityWorkflow,
>
    decreases n,
{
    if n <= 0 {
        Seq::empty()
    } else if workflows[n - 1].identity_id == id {
        workflows_of(workflows, id, n - 1).push(workflows[n - 1])
    } else {
        workflows_of(workflows, id, n - 1)
    }
}

fn collect_relationships(world: &IdentityWorld, id: IdentityId) -> (r: Vec<IdentityRelationship>)
    ensures
        r@ == relationships_of(world.relationships@, id, world.relationships@.len() as int),
{
    let mut found: Vec<IdentityRelationship> = Vec::new();
    let mut i: usize = 0;
    while i < world.relationships.len()
        invariant
            i <= world.relationships@.len(),
            found@ == relationships_of(world.relationships@, id, i as int),
        decreases world.relationships@.len() - i,
    {
        if world.relationships[i].is_touching(id) {
            found.push(world.relationships[i].clone());
        }
        i += 1;
    }
    found
}

fn collect_workflows(world: &IdentityWorld, id: IdentityId) -> (r: Vec<IdentityWorkflow>)
    ensures
        same_workflows(r@, workflows_of(world.workflows@, id, world.workflows@.len() as int)),
{
    let mut found: Vec<IdentityWorkflow> = Vec::new();
    let mut i: usize = 0;
    while i < world.workflows.len()
        invariant
            i <= world.workflows@.len(),
            same_workflows(found@, workflows_of(world.workflows@, id, i as int)),
        decreases world.workflows@.len() - i,
    {
        if world.workflows[i].identity_id == id {
            found.push(world.workflows[i].clone());
        }
        i += 1;
    }
    found
}

/// Query for identity details including relationships and workflows: the
/// identity with its verification, every relationship that starts or ends at
/// it and every workflow that belongs to it.
pub fn find_identity_details(world: &IdentityWorld, identity_id: IdentityId) -> (r: Option<
    IdentityDetails,
>)
    ensures
        match r {
            Some(details) => {
                &&& exists|i: int|
                    identity_at(world.identities@, identity_id, i) && details.identity
                        == world.identities@[i].entity && details.verification
                        == world.identities@[i].verification
                &&& details.relationships@ == relationships_of(
                    world.relationships@,
                    identity_id,
                    world.relationships@.len() as int,
                )
                &&& same_workflows(
                    details.active_workflows@,
                    workflows_of(world.workflows@, identity_id, world.workflows@.len() as int),
                )
            },
            None => identity_absent(world.identities@, identity_id),
        },
{
    let i = match world.find_identity(identity_id) {
        Some(i) => i,
        None => {
            return None;
        },
    };
    Some(
        IdentityDetails {
            identity: world.identities[i].entity,
            verification: world.identities[i].verification.clone(),
            relationships: collect_relationships(world, identity_id),
            active_workflows: collect_workflows(world, identity_id),
        },
    )
}

/// The workflows among the first `n` that belong to the identity and are
/// under way.
pub open spec fn running_owned_count(workflows: Seq<IdentityWorkflow>, id: IdentityId, n: int) -> int
    decreases n,
{
    if n <= 0 {
        0
    } else {
        running_owned_count(workflows, id, n - 1) + if workflows[n - 1].identity_id == id
            && workflows[n - 1].status.running() {
            1int
        } else {
            0int
        }
    }
}

/// Query to get aggregate state for an identity: its status and level, the
/// number of relationships that start or end at it, and the number of its
/// workflows that are under way.
pub fn get_aggregate_state(world: &IdentityWorld, identity_id: IdentityId) -> (r: Option<
    AggregateState,
>)
    ensures
        match r {
            Some(state) => exists|i: int|
                identity_at(world.identities@, identity_id, i) && state == (AggregateState {
                    identity_id: world.identities@[i].entity.identity_id,
                    status: world.identities@[i].entity.status,
                    verification_level: world.identities@[i].verification.verification_level,
                    active_relationships: touching_count(
                        world.relationships@,
                        identity_id,
                        world.relationships@.len() as int,
                    ) as usize,
                    active_workflows: running_owned_count(
                        world.workflows@,
                        identity_id,
                        world.workflows@.len() as int,
                    ) as usize,
                }),
            None => identity_absent(world.identities@, identity_id),
        },
{
    let i = match world.find_identity(identity_id) {
        Some(i) => i,
        None => {
            return None;
        },
    };
    let active_relationships = world.count_relationships_of(identity_id);
    let mut active_workflows: usize = 0;
    let mut k: usize = 0;
    while k < world.workflows.len()
        invariant
            k <= world.workflows@.len(),
            active_workflows <= k,
            active_workflows == running_owned_count(world.workflows@, identity_id, k as int),
        decreases world.workflows@.len() - k,
    {
        if world.workflows[k].identity_id == identity_id && world.workflows[k].status.is_running() {
            active_workflows += 1;
        }
        k += 1;
    }
    Some(
        AggregateState {
            identity_id: world.identities[i].entity.identity_id,
            status: world.identities[i].entity.status,
            verification_level: world.identities[i].verification.verification_level,
            active_relationships,
            active_workflows,
        },
    )
}

/// Two identities next to each other on a path of a query are joined by a
/// recorded relationship, from either end, that has not expired and whose
/// very type the allow-list holds, where there is a list.
pub open spec fn neighbours(
    world: IdentityWorld,
    filter: Option<Vec<RelationshipType>>,
    now: Timestamp,
    path: Seq<IdentityId>,
    m: int,
) -> bool {
    exists|j: int|
        0 <= j < world.relationships@.len() && joins(
            #[trigger] world.relationships@[j],
            path[m],
            path[m + 1],
            TraversalRules::of_query(filter),
        ) && usable(world.relationships@[j], TraversalRules::of_query(filter), now)
}

/// What a traversal of the graph at a given time finds: one path to every
/// identity that a breadth-first search from the root reaches, in the order
/// in which they are reached, and the number of identities visited, the root
/// among them. The search goes by the rules of a query: a relationship is
/// followed from either end, and where there is an allow-list only a
/// relationship whose very type the list holds, with what it carries, is
/// followed. Expired relationships are passed over, so that the result is that
/// of the graph without them. No path is longer than the greatest depth asked for, none
/// passes an identity twice, and no two end at the same identity.
pub open spec fn graph_traversal(
    world: IdentityWorld,
    root: IdentityId,
    max_depth: Option<u32>,
    filter: Option<Vec<RelationshipType>>,
    now: Timestamp,
    r: RelationshipGraphResult,
) -> bool {
    let walks = breadth_first(
        world.relationships@,
        root,
        max_depth,
        TraversalRules::of_query(filter),
        now,
    );
    &&& r.root == root
    &&& r.visited_count == walks.len()
    &&& r.paths@.len() == walks.len() - 1
    &&& forall|k: int| 0 <= k < r.paths@.len() ==> (#[trigger] r.paths@[k])@ == walks[k + 1].identities
    &&& forall|k: int|
        0 <= k < r.paths@.len() ==> {
            let path = (#[trigger] r.paths@[k])@;
            &&& path.len() >= 1
            &&& path[0] == root
            &&& path.no_duplicates()
            &&& max_depth matches Some(d) ==> path.len() <= d + 1
        }
    &&& forall|a: int, b: int|
        0 <= a < b < r.paths@.len() ==> (#[trigger] r.paths@[a])@.last() != (
        #[trigger] r.paths@[b])@.last()
    &&& forall|k: int, m: int|
        0 <= k < r.paths@.len() && 0 <= m < r.paths@[k]@.len() - 1 ==> #[trigger] neighbours(
            world,
            filter,
            now,
            r.paths@[k]@,
            m,
        )
}

/// Traverses the relationship graph at the given time.
pub fn traverse_relationship_graph_at(
    world: &IdentityWorld,
    root: IdentityId,
    max_depth: Option<u32>,
    relationship_filter: Option<Vec<RelationshipType>>,
    now: Timestamp,
) -> (r: RelationshipGraphResult)
    ensures
        graph_traversal(*world, root, max_depth, relationship_filter, now, r),
{
    let rules = TraversalRules::for_query(relationship_filter);
    let walks = traverse(&world.relationships, root, max_depth, &rules, now);
    let ghost found = walks_of(walks@);
    let visited_count = walks.len();
    let mut paths: Vec<Vec<IdentityId>> = Vec::new();
    let mut i: usize = 1;
    while i < walks.len()
        invariant
            1 <= i <= walks@.len(),
            found == walks_of(walks@),
            paths@.len() == i - 1,
            forall|k: int| 0 <= k < paths@.len() ==> (#[trigger] paths@[k])@ == found[k + 1].identities,
        decreases walks@.len() - i,
    {
        let mut identities: Vec<IdentityId> = Vec::new();
        let mut j: usize = 0;
        while j < walks[i].identities.len()
            invariant
                1 <= i < walks@.len(),
                j <= walks@[i as int].identities@.len(),
                identities@ == walks@[i as int].identities@.subrange(0, j as int),
            decreases walks@[i as int].identities@.len() - j,
        {
            identities.push(walks[i].identities[j]);
            j += 1;
        }
        assert(identities@ == walks@[i as int].identities@);
        assert(found[i as int].identities == walks@[i as int].identities@);
        paths.push(identities);
        i += 1;
    }
    proof {
        assert forall|k: int| 0 <= k < paths@.len() implies {
            let path = (#[trigger] paths@[k])@;
            &&& path.len() >= 1
            &&& path[0] == root
            &&& path.no_duplicates()
            &&& max_depth matches Some(d) ==> path.len() <= d + 1
        } by {
            assert(walk_sound(
                found[k + 1],
                hops_of(world.relationships@, rules, now),
                root,
                max_depth,
            ));
        }
        assert forall|a: int, b: int| 0 <= a < b < paths@.len() implies (#[trigger] paths@[a])@.last() != (
        #[trigger] paths@[b])@.last() by {
            assert(found[a + 1].end() != found[b + 1].end());
        }
        lemma_walks_follow_relationships(world.relationships@, root, max_depth, rules, now);
        assert forall|k: int, m: int|
            0 <= k < paths@.len() && 0 <= m < paths@[k]@.len() - 1 implies #[trigger] neighbours(
            *world,
            relationship_filter,
            now,
            paths@[k]@,
            m,
        ) by {
            assert(walk_sound(
                found[k + 1],
                hops_of(world.relationships@, rules, now),
                root,
                max_depth,
            ));
            assert(step_follows(world.relationships@, rules, now, found[k + 1], m));
        }
    }
    RelationshipGraphResult { root, paths, visited_count }
}

/// Query to traverse relationship graph, as of now.
pub fn traverse_relationship_graph(
    world: &IdentityWorld,
    root: IdentityId,
    max_depth: Option<u32>,
    relationship_filter: Option<Vec<RelationshipType>>,
) -> (r: RelationshipGraphResult)
    ensures
        exists|now: Timestamp| graph_traversal(*world, root, max_depth, relationship_filter, now, r),
{
    let now = Timestamp::now();
    traverse_relationship_graph_at(world, root, max_depth, relationship_filter, now)
}

} // verus!
