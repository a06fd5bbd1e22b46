//! The rules that every change to an identity, a relationship or a workflow
//! has to pass before it is made. The checks read state and never change it.

use crate::commands::{CreateIdentityCommand, UpdateIdentityCommand};
use crate::components::{
    IdentityEntity, IdentityRelationship, IdentityStatus, IdentityType, IdentityVerification,
    IdentityWorkflow, RelationshipType, VerificationLevel, WorkflowType,
};
use crate::error::{ErrorView, IdentityError, IdentityResult};
use crate::ids::IdentityId;
use crate::world::{pending_workflow_exists, workflow_pending, IdentityRecord};
use vstd::prelude::*;

verus! {

/// Identity aggregate that enforces the business rules.
pub struct IdentityAggregate;

/// Aggregate state calculated from components.
#[derive(Debug, Clone, Copy, PartialEq, Eq, Structural)]
pub struct AggregateState {
    pub identity_id: IdentityId,
    pub status: IdentityStatus,
    pub verification_level: VerificationLevel,
    pub active_relationships: usize,
    pub active_workflows: usize,
}

/// The workflows among the first `n` that are under way.
pub open spec fn running_count(workflows: Seq<IdentityWorkflow>, n: int) -> int
    decreases n,
{
    if n <= 0 {
        0
    } else {
        running_count(workflows, n - 1) + if workflows[n - 1].status.running() {
            1int
        } else {
            0int
        }
    }
}

/// A result tells the verdict of a rule: `Ok` where the rule has no objection,
/// and otherwise the error that the rule names.
pub open spec fn tells(r: IdentityResult<()>, verdict: Option<ErrorView>) -> bool {
    match r {
        Ok(_) => verdict is None,
        Err(e) => verdict == Some(e@),
    }
}

impl IdentityAggregate {
    /// Nothing about an update can be objected to unless the identity is
    /// archived or merged. Whether the status asked for is one step away is
    /// for the update itself to decide.
    pub open spec fn update_verdict(identity: IdentityEntity, command: UpdateIdentityCommand) -> Option<
        ErrorView,
    > {
        if identity.status is Archived {
            Some(ErrorView::IdentityArchived)
        } else if identity.status is Merged {
            Some(ErrorView::IdentityMerged)
        } else {
            None
        }
    }

    /// A merge needs identities of one type, a target that is at least as
    /// verified as the source, neither side archived, and a target that is no
    /// longer pending.
    pub open spec fn merge_verdict(
        source: IdentityEntity,
        target: IdentityEntity,
        source_level: VerificationLevel,
        target_level: VerificationLevel,
    ) -> Option<ErrorView> {
        if source.identity_type != target.identity_type {
            Some(ErrorView::IncompatibleIdentityTypes)
        } else if source_level.rank() > target_level.rank() {
            Some(ErrorView::TargetLessVerified)
        } else if source.status is Archived || target.status is Archived {
            Some(ErrorView::IdentityArchived)
        } else if target.status is Pending {
            Some(ErrorView::InvariantViolation("Cannot merge into a pending identity"@))
        } else {
            None
        }
    }

    /// An archive needs an identity without relationships, unless it is
    /// forced, and one that is neither archived nor merged yet.
    pub open spec fn archive_verdict(
        identity: IdentityEntity,
        active_relationships: usize,
        force: bool,
    ) -> Option<ErrorView> {
        if active_relationships > 0 && !force {
            Some(ErrorView::HasActiveRelationships(active_relationships))
        } else if identity.status is Archived {
            Some(ErrorView::AlreadyArchived)
        } else if identity.status is Merged {
            Some(ErrorView::IdentityMerged)
        } else {
            None
        }
    }

    /// The pairs of identity types that a relationship type may connect:
    /// only a person can be member of something, and only of an organization.
    pub open spec fn pair_allowed(
        relationship_type: RelationshipType,
        from: IdentityType,
        to: IdentityType,
    ) -> bool {
        relationship_type is MemberOf ==> from is Person && to is Organization
    }

    /// A relationship needs two different identities, both active, of types
    /// that the relationship type may connect, and a share within range.
    pub open spec fn relationship_verdict(
        from: IdentityEntity,
        to: IdentityEntity,
        relationship_type: RelationshipType,
    ) -> Option<ErrorView> {
        if from.identity_id == to.identity_id {
            Some(ErrorView::SelfRelationship)
        } else if !(from.status is Active) || !(to.status is Active) {
            Some(ErrorView::IdentityNotActive)
        } else if !Self::pair_allowed(relationship_type, from.identity_type, to.identity_type) {
            Some(ErrorView::InvalidIdentityType)
        } else if !relationship_type.share_valid() {
            Some(ErrorView::InvalidOwnershipPercentage)
        } else {
            None
        }
    }

    /// A workflow never starts beside an unfinished workflow of the same type
    /// for the same identity; it starts on a pending or active identity only,
    /// and a recovery on an active one only.
    pub open spec fn workflow_start_verdict(
        identity: IdentityEntity,
        workflow_type: WorkflowType,
        workflows: Seq<IdentityWorkflow>,
    ) -> Option<ErrorView> {
        if workflow_pending(workflows, identity.identity_id, workflow_type) {
            Some(ErrorView::WorkflowInProgress)
        } else if !(identity.status is Active || identity.status is Pending) {
            Some(ErrorView::InvalidOperation("Cannot start workflow on inactive identity"@))
        } else if workflow_type is Recovery && !(identity.status is Active) {
            Some(ErrorView::InvariantViolation("Recovery workflow requires active identity"@))
        } else {
            None
        }
    }

    /// A verification level never falls and rises by one level at most.
    pub open spec fn verification_verdict(
        current_level: VerificationLevel,
        new_level: VerificationLevel,
    ) -> Option<ErrorView> {
        if new_level.rank() < current_level.rank() {
            Some(ErrorView::InvariantViolation("Cannot downgrade verification level"@))
        } else if new_level.rank() - current_level.rank() > 1 {
            Some(ErrorView::InvariantViolation("Cannot skip verification levels"@))
        } else {
            None
        }
    }

    /// Validate identity creation. Whether the claims collide with those of
    /// another identity is for the caller to decide; nothing else can be
    /// wrong with a creation.
    pub fn validate_create(
        _command: &CreateIdentityCommand,
        _existing_identities: &Vec<IdentityRecord>,
    ) -> (r: IdentityResult<()>)
        ensures
            r is Ok,
    {
        Ok(())
    }

    /// Validate identity update.
    pub fn validate_update(identity: &IdentityEntity, _command: &UpdateIdentityCommand) -> (r:
        IdentityResult<()>)
        ensures
            tells(r, Self::update_verdict(*identity, *_command)),
    {
        match identity.status {
            IdentityStatus::Archived => {
                return Err(IdentityError::IdentityArchived);
            },
            IdentityStatus::Merged { .. } => {
                return Err(IdentityError::IdentityMerged);
            },
            _ => {},
        }
        Ok(())
    }

    /// Validate identity merge.
    pub fn validate_merge(
        source: &IdentityEntity,
        target: &IdentityEntity,
        source_verification: &IdentityVerification,
        target_verification: &IdentityVerification,
    ) -> (r: IdentityResult<()>)
        ensures
            tells(
                r,
                Self::merge_verdict(
                    *source,
                    *target,
                    source_verification.verification_level,
                    target_verification.verification_level,
                ),
            ),
    {
        if source.identity_type != target.identity_type {
            return Err(IdentityError::IncompatibleIdentityTypes);
        }
        if source_verification.verification_level.ordinal()
            > target_verification.verification_level.ordinal() {
            return Err(IdentityError::TargetLessVerified);
        }
        match (source.status, target.status) {
            (IdentityStatus::Archived, _) => {
                return Err(IdentityError::IdentityArchived);
            },
            (_, IdentityStatus::Archived) => {
                return Err(IdentityError::IdentityArchived);
            },
            (_, IdentityStatus::Pending) => {
                return Err(
                    IdentityError::InvariantViolation(
                        "Cannot merge into a pending identity".to_string(),
                    ),
                );
            },
            _ => {},
        }
        Ok(())
    }

    /// Validate identity archive.
    pub fn validate_archive(identity: &IdentityEntity, active_relationships: usize, force: bool) -> (r:
        IdentityResult<()>)
        ensures
            tells(r, Self::archive_verdict(*identity, active_relationships, force)),
    {
        if active_relationships > 0 && !force {
            return Err(IdentityError::HasActiveRelationships(active_relationships));
        }
        match identity.status {
            IdentityStatus::Archived => Err(IdentityError::AlreadyArchived),
            IdentityStatus::Merged { .. } => Err(IdentityError::IdentityMerged),
            _ => Ok(()),
        }
    }

    /// Validate relationship establishment.
    pub fn validate_relationship(
        from_identity: &IdentityEntity,
        to_identity: &IdentityEntity,
        relationship_type: &RelationshipType,
    ) -> (r: IdentityResult<()>)
        ensures
            tells(r, Self::relationship_verdict(*from_identity, *to_identity, *relationship_type)),
    {
        if from_identity.identity_id == to_identity.identity_id {
            return Err(IdentityError::SelfRelationship);
        }
        if !from_identity.status.is_active() || !to_identity.status.is_active() {
            return Err(IdentityError::IdentityNotActive);
        }
        match relationship_type {
            RelationshipType::MemberOf { .. } => {
                if from_identity.identity_type != IdentityType::Person || to_identity.identity_type
                    != IdentityType::Organization {
                    return Err(IdentityError::InvalidIdentityType);
                }
            },
            _ => {},
        }
        if !relationship_type.has_valid_share() {
            return Err(IdentityError::InvalidOwnershipPercentage);
        }
        Ok(())
    }

    /// Validate workflow start.
    pub fn validate_workflow_start(
        identity: &IdentityEntity,
        workflow_type: &WorkflowType,
        workflows: &Vec<IdentityWorkflow>,
    ) -> (r: IdentityResult<()>)
        ensures
            tells(r, Self::workflow_start_verdict(*identity, *workflow_type, workflows@)),
    {
        if pending_workflow_exists(workflows, identity.identity_id, workflow_type) {
            return Err(IdentityError::WorkflowInProgress);
        }
        match identity.status {
            IdentityStatus::Active => {},
            IdentityStatus::Pending => {
                match workflow_type {
                    WorkflowType::Recovery => {
                        return Err(
                            IdentityError::InvariantViolation(
                                "Recovery workflow requires active identity".to_string(),
                            ),
                        );
                    },
                    _ => {},
                }
            },
            _ => {
                return Err(
                    IdentityError::InvalidOperation(
                        "Cannot start workflow on inactive identity".to_string(),
                    ),
                );
            },
        }
        Ok(())
    }

    /// Validate verification level transition.
    pub fn validate_verification_transition(
        current_level: VerificationLevel,
        new_level: VerificationLevel,
    ) -> (r: IdentityResult<()>)
        ensures
            tells(r, Self::verification_verdict(current_level, new_level)),
    {
        let current: u8 = current_level.ordinal();
        let new: u8 = new_level.ordinal();
        if new < current {
            return Err(
                IdentityError::InvariantViolation(
                    "Cannot downgrade verification level".to_string(),
                ),
            );
        }
        if new - current > 1 {
            return Err(
                IdentityError::InvariantViolation("Cannot skip verification levels".to_string()),
            );
        }
        Ok(())
    }

    /// Calculate aggregate state from components: the identity with its
    /// level, the number of its relationships and the number of its workflows
    /// that are under way.
    pub fn calculate_state(
        identity: &IdentityEntity,
        relationships: &Vec<IdentityRelationship>,
        workflows: &Vec<IdentityWorkflow>,
        verification: &IdentityVerification,
    ) -> (r: AggregateState)
        ensures
            r == (AggregateState {
                identity_id: identity.identity_id,
                status: identity.status,
                verification_level: verification.verification_level,
                active_relationships: relationships@.len() as usize,
                active_workflows: running_count(workflows@, workflows@.len() as int) as usize,
            }),
    {
        let mut count: usize = 0;
        let mut i: usize = 0;
        while i < workflows.len()
            invariant
                i <= workflows@.len(),
                count <= i,
                count == running_count(workflows@, i as int),
            decreases workflows@.len() - i,
        {
            if workflows[i].status.is_running() {
                count += 1;
            }
            i += 1;
        }
        AggregateState {
            identity_id: identity.identity_id,
            status: identity.status,
            verification_level: verification.verification_level,
            active_relationships: relationships.len(),
            active_workflows: count,
        }
    }
}

} // verus!
