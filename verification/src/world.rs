//! The authoritative state: the identities, the relationships between them,
//! their workflows and their projections into other domains.

use crate::components::{
    IdentityClaim, IdentityEntity, IdentityMetadata, IdentityProjection, IdentityRelationship,
    IdentityVerification, IdentityWorkflow, RelationshipType, WorkflowType,
};
use crate::ids::{IdentityId, RelationshipId, WorkflowId};
use vstd::prelude::*;

verus! {

/// Everything held about one identity.
#[derive(Debug)]
pub struct IdentityRecord {
    pub entity: IdentityEntity,
    pub metadata: IdentityMetadata,
    pub verification: IdentityVerification,
    pub claims: Vec<IdentityClaim>,
}

/// The tables of the domain. Rows are appended in the order in which they were
/// recorded; identities and workflows are never taken out again.
#[derive(Debug)]
pub struct IdentityWorld {
    pub identities: Vec<IdentityRecord>,
    pub relationships: Vec<IdentityRelationship>,
    pub workflows: Vec<IdentityWorkflow>,
    pub projections: Vec<IdentityProjection>,
}

/// The place of the first identity with the given identifier.
pub open spec fn identity_at(identities: Seq<IdentityRecord>, id: IdentityId, i: int) -> bool {
    &&& 0 <= i < identities.len()
    &&& identities[i].entity.identity_id == id
    &&& forall|j: int| 0 <= j < i ==> (#[trigger] identities[j]).entity.identity_id != id
}

/// No identity has the given identifier.
pub open spec fn identity_absent(identities: Seq<IdentityRecord>, id: IdentityId) -> bool {
    forall|j: int| 0 <= j < identities.len() ==> (#[trigger] identities[j]).entity.identity_id != id
}

/// The place of the first relationship with the given identifier.
pub open spec fn relationship_at(
    relationships: Seq<IdentityRelationship>,
    id: RelationshipId,
    i: int,
) -> bool {
    &&& 0 <= i < relationships.len()
    &&& relationships[i].relationship_id == id
    &&& forall|j: int| 0 <= j < i ==> (#[trigger] relationships[j]).relationship_id != id
}

/// No relationship has the given identifier.
pub open spec fn relationship_absent(
    relationships: Seq<IdentityRelationship>,
    id: RelationshipId,
) -> bool {
    forall|j: int|
        0 <= j < relationships.len() ==> (#[trigger] relationships[j]).relationship_id != id
}

/// The place of the first workflow with the given identifier.
pub open spec fn workflow_at(workflows: Seq<IdentityWorkflow>, id: WorkflowId, i: int) -> bool {
    &&& 0 <= i < workflows.len()
    &&& workflows[i].workflow_id == id
    &&& forall|j: int| 0 <= j < i ==> (#[trigger] workflows[j]).workflow_id != id
}

/// No workflow has the given identifier.
pub open spec fn workflow_absent(workflows: Seq<IdentityWorkflow>, id: WorkflowId) -> bool {
    forall|j: int| 0 <= j < workflows.len() ==> (#[trigger] workflows[j]).workflow_id != id
}

/// Some relationship already leads from `from` to `to` with the same type.
pub open spec fn edge_recorded(
    relationships: Seq<IdentityRelationship>,
    from: IdentityId,
    to: IdentityId,
    relationship_type: RelationshipType,
) -> bool {
    exists|j: int|
        0 <= j < relationships.len() && (#[trigger] relationships[j]).source_identity == from
            && relationships[j].target_identity == to
            && relationships[j].relationship_type.same_as(relationship_type)
}

/// The relationships among the first `n` that start or end at the identity.
pub open spec fn touching_count(
    relationships: Seq<IdentityRelationship>,
    id: IdentityId,
    n: int,
) -> int
    decreases n,
{
    if n <= 0 {
        0
    } else {
        touching_count(relationships, id, n - 1) + if relationships[n - 1].touches(id) {
            1int
        } else {
            0int
        }
    }
}

/// The workflows among the first `n` that belong to the identity.
pub open spec fn owned_workflow_count(workflows: Seq<IdentityWorkflow>, id: IdentityId, n: int) -> int
    decreases n,
{
    if n <= 0 {
        0
    } else {
        owned_workflow_count(workflows, id, n - 1) + if workflows[n - 1].identity_id == id {
            1int
        } else {
            0int
        }
    }
}

/// Some workflow of the identity and of the same type has not reached its end.
pub open spec fn workflow_pending(
    workflows: Seq<IdentityWorkflow>,
    id: IdentityId,
    workflow_type: WorkflowType,
) -> bool {
    exists|j: int|
        0 <= j < workflows.len() && (#[trigger] workflows[j]).identity_id == id
            && workflows[j].workflow_type.same_as(workflow_type) && !workflows[j].status.terminal()
}

/// No two identities share an identifier.
pub open spec fn identities_sound(identities: Seq<IdentityRecord>) -> bool {
    forall|i: int, j: int|
        0 <= i < j < identities.len() ==> (#[trigger] identities[i]).entity.identity_id != (
        #[trigger] identities[j]).entity.identity_id
}

/// No two relationships share an identifier, none leads from an identity to
/// itself, and no two lead from the same identity to the same identity with
/// the same type.
pub open spec fn relationships_sound(relationships: Seq<IdentityRelationship>) -> bool {
    &&& forall|i: int, j: int|
        0 <= i < j < relationships.len() ==> (#[trigger] relationships[i]).relationship_id != (
        #[trigger] relationships[j]).relationship_id
    &&& forall|i: int|
        0 <= i < relationships.len() ==> (#[trigger] relationships[i]).source_identity
            != relationships[i].target_identity
    &&& forall|i: int, j: int|
        0 <= i < j < relationships.len() ==> !({
            &&& (#[trigger] relationships[i]).source_identity == (
            #[trigger] relationships[j]).source_identity
            &&& relationships[i].target_identity == relationships[j].target_identity
            &&& relationships[i].relationship_type.same_as(relationships[j].relationship_type)
        })
}

/// No two workflows share an identifier, an identity has at most one
/// unfinished workflow of a type, and every workflow is consistent.
pub open spec fn workflows_sound(workflows: Seq<IdentityWorkflow>) -> bool {
    &&& forall|i: int, j: int|
        0 <= i < j < workflows.len() ==> (#[trigger] workflows[i]).workflow_id != (
        #[trigger] workflows[j]).workflow_id
    &&& forall|i: int, j: int|
        0 <= i < j < workflows.len() ==> !({
            &&& (#[trigger] workflows[i]).identity_id == (#[trigger] workflows[j]).identity_id
            &&& workflows[i].workflow_type.same_as(workflows[j].workflow_type)
            &&& !workflows[i].status.terminal()
            &&& !workflows[j].status.terminal()
        })
    &&& forall|i: int| 0 <= i < workflows.len() ==> (#[trigger] workflows[i]).consistent()
}

/// The identity is there and active.
pub open spec fn identity_active(identities: Seq<IdentityRecord>, id: IdentityId) -> bool {
    exists|i: int| identity_at(identities, id, i) && identities[i].entity.status is Active
}

/// An identity that is not absent stands at a first place: the place from `n`
/// on where its identifier is found first.
pub proof fn lemma_first_identity(identities: Seq<IdentityRecord>, id: IdentityId, n: int) -> (i: int)
    requires
        0 <= n <= identities.len(),
        forall|j: int| 0 <= j < n ==> (#[trigger] identities[j]).entity.identity_id != id,
        !identity_absent(identities, id),
    ensures
        identity_at(identities, id, i),
    decreases identities.len() - n,
{
    if n == identities.len() {
        n
    } else if identities[n].entity.identity_id == id {
        n
    } else {
        lemma_first_identity(identities, id, n + 1)
    }
}

/// A relationship that is not absent stands at a first place.
pub proof fn lemma_first_relationship(
    relationships: Seq<IdentityRelationship>,
    id: RelationshipId,
    n: int,
) -> (i: int)
    requires
        0 <= n <= relationships.len(),
        forall|j: int| 0 <= j < n ==> (#[trigger] relationships[j]).relationship_id != id,
        !relationship_absent(relationships, id),
    ensures
        relationship_at(relationships, id, i),
    decreases relationships.len() - n,
{
    if n == relationships.len() {
        n
    } else if relationships[n].relationship_id == id {
        n
    } else {
        lemma_first_relationship(relationships, id, n + 1)
    }
}

/// A workflow that is not absent stands at a first place.
pub proof fn lemma_first_workflow(workflows: Seq<IdentityWorkflow>, id: WorkflowId, n: int) -> (i: int)
    requires
        0 <= n <= workflows.len(),
        forall|j: int| 0 <= j < n ==> (#[trigger] workflows[j]).workflow_id != id,
        !workflow_absent(workflows, id),
    ensures
        workflow_at(workflows, id, i),
    decreases workflows.len() - n,
{
    if n == workflows.len() {
        n
    } else if workflows[n].workflow_id == id {
        n
    } else {
        lemma_first_workflow(workflows, id, n + 1)
    }
}

impl IdentityWorld {
    /// An empty world.
    pub fn new() -> (r: Self)
        ensures
            r.identities@.len() == 0,
            r.relationships@.len() == 0,
            r.workflows@.len() == 0,
            r.projections@.len() == 0,
            r.wf(),
    {
        IdentityWorld {
            identities: Vec::new(),
            relationships: Vec::new(),
            workflows: Vec::new(),
            projections: Vec::new(),
        }
    }

    /// What always holds of a world that only the domain's operations have
    /// changed: identifiers are unique in each table, no relationship leads
    /// from an identity to itself or exists twice, an identity has at most one
    /// unfinished workflow of a type, and every workflow is consistent.
    pub open spec fn wf(self) -> bool {
        &&& identities_sound(self.identities@)
        &&& relationships_sound(self.relationships@)
        &&& workflows_sound(self.workflows@)
    }

    /// How a world relates to an earlier one, whatever operations lie between
    /// them: every identity is still there, in its place and of its type, its
    /// status and its verification level have each taken an allowed step or
    /// none.
    pub open spec fn follows(self, before: IdentityWorld) -> bool {
        &&& before.identities@.len() <= self.identities@.len()
        &&& forall|i: int|
            0 <= i < before.identities@.len() ==> {
                let was = #[trigger] before.identities@[i];
                let is = self.identities@[i];
                &&& is.entity.identity_id == was.entity.identity_id
                &&& is.entity.identity_type == was.entity.identity_type
                &&& was.entity.status.step_allowed(is.entity.status)
                &&& was.verification.verification_level.step_allowed(
                    is.verification.verification_level,
                )
            }
    }

    /// Where the identity stands in the table, or `None` if it is not there.
    pub fn find_identity(&self, id: IdentityId) -> (r: Option<usize>)
        ensures
            match r {
                Some(i) => identity_at(self.identities@, id, i as int),
                None => identity_absent(self.identities@, id),
            },
    {
        let mut i: usize = 0;
        while i < self.identities.len()
            invariant
                i <= self.identities@.len(),
                forall|j: int| 0 <= j < i ==> (#[trigger] self.identities@[j]).entity.identity_id != id,
            decreases self.identities@.len() - i,
        {
            if self.identities[i].entity.identity_id == id {
                return Some(i);
            }
            i += 1;
        }
        None
    }

    /// Whether the identity is there and active.
    pub fn is_identity_active(&self, id: IdentityId) -> (r: bool)
        ensures
            r == identity_active(self.identities@, id),
    {
        match self.find_identity(id) {
            Some(i) => self.identities[i].entity.status.is_active(),
            None => false,
        }
    }

    /// Where the relationship stands in the table, or `None` if it is not
    /// there.
    pub fn find_relationship(&self, id: RelationshipId) -> (r: Option<usize>)
        ensures
            match r {
                Some(i) => relationship_at(self.relationships@, id, i as int),
                None => relationship_absent(self.relationships@, id),
            },
    {
        let mut i: usize = 0;
        while i < self.relationships.len()
            invariant
                i <= self.relationships@.len(),
                forall|j: int|
                    0 <= j < i ==> (#[trigger] self.relationships@[j]).relationship_id != id,
            decreases self.relationships@.len() - i,
        {
            if self.relationships[i].relationship_id == id {
                return Some(i);
            }
            i += 1;
        }
        None
    }

    /// Where the workflow stands in the table, or `None` if it is not there.
    pub fn find_workflow(&self, id: WorkflowId) -> (r: Option<usize>)
        ensures
            match r {
                Some(i) => workflow_at(self.workflows@, id, i as int),
                None => workflow_absent(self.workflows@, id),
            },
    {
        let mut i: usize = 0;
        while i < self.workflows.len()
            invariant
                i <= self.workflows@.len(),
                forall|j: int| 0 <= j < i ==> (#[trigger] self.workflows@[j]).workflow_id != id,
            decreases self.workflows@.len() - i,
        {
            if self.workflows[i].workflow_id == id {
                return Some(i);
            }
            i += 1;
        }
        None
    }

    /// Whether a relationship of the same type already leads from `from` to
    /// `to`.
    pub fn has_edge(&self, from: IdentityId, to: IdentityId, relationship_type: &RelationshipType) -> (r:
        bool)
        ensures
            r == edge_recorded(self.relationships@, from, to, *relationship_type),
    {
        let mut i: usize = 0;
        while i < self.relationships.len()
            invariant
                i <= self.relationships@.len(),
                forall|j: int|
                    0 <= j < i ==> !((#[trigger] self.relationships@[j]).source_identity == from
                        && self.relationships@[j].target_identity == to
                        && self.relationships@[j].relationship_type.same_as(*relationship_type)),
            decreases self.relationships@.len() - i,
        {
            let rel = &self.relationships[i];
            if rel.source_identity == from && rel.target_identity == to
                && rel.relationship_type.is_same_as(relationship_type) {
                return true;
            }
            i += 1;
        }
        false
    }

    /// How many relationships start or end at the identity.
    pub fn count_relationships_of(&self, id: IdentityId) -> (r: usize)
        ensures
            r == touching_count(self.relationships@, id, self.relationships@.len() as int),
    {
        let mut count: usize = 0;
        let mut i: usize = 0;
        while i < self.relationships.len()
            invariant
                i <= self.relationships@.len(),
                count <= i,
                count == touching_count(self.relationships@, id, i as int),
            decreases self.relationships@.len() - i,
        {
            if self.relationships[i].is_touching(id) {
                count += 1;
            }
            i += 1;
        }
        count
    }

    /// How many workflows belong to the identity.
    pub fn count_workflows_of(&self, id: IdentityId) -> (r: usize)
        ensures
            r == owned_workflow_count(self.workflows@, id, self.workflows@.len() as int),
    {
        let mut count: usize = 0;
        let mut i: usize = 0;
        while i < self.workflows.len()
            invariant
                i <= self.workflows@.len(),
                count <= i,
                count == owned_workflow_count(self.workflows@, id, i as int),
            decreases self.workflows@.len() - i,
        {
            if self.workflows[i].identity_id == id {
                count += 1;
            }
            i += 1;
        }
        count
    }

    /// Whether the identity has an unfinished workflow of the type.
    pub fn has_pending_workflow(&self, id: IdentityId, workflow_type: &WorkflowType) -> (r: bool)
        ensures
            r == workflow_pending(self.workflows@, id, *workflow_type),
    {
        pending_workflow_exists(&self.workflows, id, workflow_type)
    }
}

/// Whether some workflow of the identity and of the type has not reached its
/// end.
pub fn pending_workflow_exists(
    workflows: &Vec<IdentityWorkflow>,
    id: IdentityId,
    workflow_type: &WorkflowType,
) -> (r: bool)
    ensures
        r == workflow_pending(workflows@, id, *workflow_type),
{
    let mut i: usize = 0;
    while i < workflows.len()
        invariant
            i <= workflows@.len(),
            forall|j: int|
                0 <= j < i ==> !((#[trigger] workflows@[j]).identity_id == id
                    && workflows@[j].workflow_type.same_as(*workflow_type)
                    && !workflows@[j].status.terminal()),
        decreases workflows@.len() - i,
    {
        let w = &workflows[i];
        if w.identity_id == id && w.workflow_type.is_same_as(workflow_type)
            && !w.status.is_terminal() {
            return true;
        }
        i += 1;
    }
    false
}

} // verus!
