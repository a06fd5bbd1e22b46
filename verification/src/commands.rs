//! Commands for the identity domain.

use crate::components::{
    ClaimType, CrossDomainReference, IdentityStatus, IdentityType, ProjectionContext,
    ProjectionType, RelationshipRules, RelationshipType, StepData, VerificationLevel,
    VerificationMethod, WorkflowStep, WorkflowTransition, WorkflowType,
};
use crate::events::WorkflowOutcome;
use crate::ids::{IdentityId, RelationshipId, WorkflowId};
use vstd::prelude::*;

verus! {

/// A claim made when an identity is created.
#[derive(Debug)]
pub struct InitialClaim {
    pub claim_type: ClaimType,
    pub value: String,
}

// Identity lifecycle commands
#[derive(Debug)]
pub struct CreateIdentityCommand {
    pub identity_type: IdentityType,
    /// The claims that the identity starts with, in the order in which they
    /// are recorded. A claim type may occur more than once; each entry is a
    /// claim of its own.
    pub initial_claims: Option<Vec<InitialClaim>>,
    pub created_by: IdentityId,
    pub tags: Vec<String>,
    pub external_reference: Option<CrossDomainReference>,
}

#[derive(Debug, Clone, Copy, PartialEq, Eq, Structural)]
pub struct UpdateIdentityCommand {
    pub identity_id: IdentityId,
    pub new_status: Option<IdentityStatus>,
    pub updated_by: IdentityId,
}

#[derive(Debug)]
pub struct MergeIdentitiesCommand {
    pub source_identity: IdentityId,
    pub target_identity: IdentityId,
    pub merged_by: IdentityId,
    pub merge_reason: String,
}

#[derive(Debug)]
pub struct ArchiveIdentityCommand {
    pub identity_id: IdentityId,
    pub archived_by: IdentityId,
    pub reason: Option<String>,
    pub force: bool,
}

// Relationship commands
#[derive(Debug)]
pub struct EstablishRelationshipCommand {
    pub from_identity: IdentityId,
    pub to_identity: IdentityId,
    pub relationship_type: RelationshipType,
    pub rules: RelationshipRules,
    pub established_by: IdentityId,
    /// What else is to be kept with the relationship, as JSON text.
    pub metadata: Option<String>,
}

#[derive(Debug, Clone, Copy, PartialEq, Eq, Structural)]
pub struct ValidateRelationshipCommand {
    pub relationship_id: RelationshipId,
    pub validated_by: IdentityId,
}

#[derive(Debug)]
pub struct RevokeRelationshipCommand {
    pub relationship_id: RelationshipId,
    pub revoked_by: IdentityId,
    pub reason: String,
}

#[derive(Debug)]
pub struct TraverseRelationshipsCommand {
    pub from_identity: IdentityId,
    pub to_identity: Option<IdentityId>,
    pub max_depth: Option<u32>,
    pub relationship_filter: Option<Vec<RelationshipType>>,
}

// Workflow commands
/// Starts a workflow. The command brings the workflow's definition: its steps
/// and the transitions between them, each in declaration order.
#[derive(Debug)]
pub struct StartWorkflowCommand {
    pub identity_id: IdentityId,
    pub workflow_type: WorkflowType,
    pub started_by: IdentityId,
    pub context: String,
    pub steps: Vec<WorkflowStep>,
    pub transitions: Vec<WorkflowTransition>,
}

#[derive(Debug)]
pub struct ProcessWorkflowStepCommand {
    pub workflow_id: WorkflowId,
    pub step_name: String,
    pub step_data: StepData,
    pub processed_by: IdentityId,
}

#[derive(Debug, Clone, Copy, PartialEq, Eq, Structural)]
pub struct CompleteWorkflowCommand {
    pub workflow_id: WorkflowId,
    pub outcome: WorkflowOutcome,
    pub completed_by: IdentityId,
}

#[derive(Debug, Clone, Copy, PartialEq, Eq, Structural)]
pub struct TimeoutWorkflowCommand {
    pub workflow_id: WorkflowId,
}

// Verification commands
#[derive(Debug)]
pub struct StartVerificationCommand {
    pub identity_id: IdentityId,
    pub verification_method: VerificationMethod,
    pub initiated_by: IdentityId,
}

#[derive(Debug)]
pub struct ProcessVerificationCommand {
    pub identity_id: IdentityId,
    pub verification_data: String,
    pub processed_by: IdentityId,
}

#[derive(Debug)]
pub struct CompleteVerificationCommand {
    pub identity_id: IdentityId,
    pub verification_result: bool,
    pub verification_level: VerificationLevel,
    pub verification_method: VerificationMethod,
    pub verified_by: IdentityId,
}

// Projection commands
#[derive(Debug)]
pub struct CreateProjectionCommand {
    pub identity_id: IdentityId,
    pub projection_type: ProjectionType,
    pub target_domain: String,
    pub context: ProjectionContext,
}

#[derive(Debug, Clone, Copy, PartialEq, Eq, Structural)]
pub struct SyncProjectionsCommand {
    pub identity_id: Option<IdentityId>,
    pub projection_type: Option<ProjectionType>,
    pub force: bool,
}

} // verus!
