//! Events for the identity domain.

use crate::components::{
    CrossDomainReference, IdentityStatus, IdentityType, ProjectionType, RelationshipType,
    VerificationLevel, VerificationMethod, WorkflowStatus, WorkflowType,
};
use crate::ids::{EventId, IdentityId, RelationshipId, WorkflowId};
use crate::time::Timestamp;
use vstd::prelude::*;

verus! {

/// Event fired when an identity is created.
#[derive(Debug)]
pub struct IdentityCreated {
    pub identity_id: IdentityId,
    pub identity_type: IdentityType,
    pub created_by: Option<IdentityId>,
    pub created_at: Timestamp,
    pub external_reference: Option<CrossDomainReference>,
}

/// Event fired when an identity is updated.
#[derive(Debug, Clone, Copy, PartialEq, Eq, Structural)]
pub struct IdentityUpdated {
    pub identity_id: IdentityId,
    pub old_status: IdentityStatus,
    pub new_status: IdentityStatus,
    pub updated_by: IdentityId,
    pub updated_at: Timestamp,
}

/// Event fired when identities are merged.
#[derive(Debug, Clone, Copy, PartialEq, Eq, Structural)]
pub struct IdentitiesMerged {
    pub source_identity: IdentityId,
    pub target_identity: IdentityId,
    pub merged_by: IdentityId,
    pub merged_at: Timestamp,
    pub migrated_relationships: usize,
    pub migrated_workflows: usize,
    pub retained_verification_level: VerificationLevel,
}

/// Event fired when an identity is archived.
#[derive(Debug)]
pub struct IdentityArchived {
    pub identity_id: IdentityId,
    pub previous_status: IdentityStatus,
    pub archived_by: IdentityId,
    pub archived_at: Timestamp,
    pub reason: Option<String>,
}

/// Event fired when a relationship is established.
#[derive(Debug)]
pub struct RelationshipEstablished {
    pub relationship_id: RelationshipId,
    pub from_identity: IdentityId,
    pub to_identity: IdentityId,
    pub relationship_type: RelationshipType,
    pub established_by: IdentityId,
    pub established_at: Timestamp,
}

/// Event fired when a relationship is validated.
#[derive(Debug)]
pub struct RelationshipValidated {
    pub relationship_id: RelationshipId,
    pub is_valid: bool,
    pub reason: String,
    pub validated_at: Timestamp,
}

/// Event fired when a relationship expires.
#[derive(Debug)]
pub struct RelationshipExpired {
    pub relationship_id: RelationshipId,
    pub from_identity: IdentityId,
    pub to_identity: IdentityId,
    pub relationship_type: RelationshipType,
    pub expired_at: Timestamp,
}

/// One path found by a traversal: the identities along it, the first being
/// the start, and the relationships that lead from each to the next.
#[derive(Debug)]
pub struct TraversalPath {
    pub identities: Vec<IdentityId>,
    pub relationships: Vec<RelationshipId>,
}

/// Event fired when relationships are traversed.
#[derive(Debug)]
pub struct RelationshipsTraversed {
    pub from_identity: IdentityId,
    pub to_identity: Option<IdentityId>,
    pub paths: Vec<TraversalPath>,
    pub total_identities_visited: usize,
    pub traversed_at: Timestamp,
}

/// Event fired when a relationship is revoked.
#[derive(Debug)]
pub struct RelationshipRevoked {
    pub relationship_id: RelationshipId,
    pub revoked_by: IdentityId,
    pub revoked_at: Timestamp,
    pub reason: Option<String>,
}

/// Event fired when a workflow is started.
#[derive(Debug)]
pub struct WorkflowStarted {
    pub workflow_id: WorkflowId,
    pub identity_id: IdentityId,
    pub workflow_type: WorkflowType,
    pub started_by: IdentityId,
    pub started_at: Timestamp,
    pub status: WorkflowStatus,
    pub context: String,
}

/// Event fired when a workflow step is completed. It tells the status the
/// workflow has after the step and the step that is active next, if any.
#[derive(Debug)]
pub struct WorkflowStepCompleted {
    pub workflow_id: WorkflowId,
    pub identity_id: IdentityId,
    pub workflow_type: WorkflowType,
    pub step_id: String,
    pub next_step: Option<String>,
    pub workflow_status: WorkflowStatus,
    pub completed_at: Timestamp,
}

/// Event fired when a workflow is completed.
#[derive(Debug)]
pub struct WorkflowCompleted {
    pub workflow_id: WorkflowId,
    pub identity_id: IdentityId,
    pub workflow_type: WorkflowType,
    pub final_status: WorkflowStatus,
    pub completed_at: Timestamp,
}

/// Event fired when a workflow times out.
#[derive(Debug)]
pub struct WorkflowTimedOut {
    pub workflow_id: WorkflowId,
    pub identity_id: IdentityId,
    pub workflow_type: WorkflowType,
    pub step_id: String,
    pub timed_out_at: Timestamp,
}

/// Event fired when verification is started.
#[derive(Debug)]
pub struct VerificationStarted {
    pub identity_id: IdentityId,
    pub verification_method: VerificationMethod,
    pub initiated_by: IdentityId,
    pub started_at: Timestamp,
}

/// Event fired when verification is completed.
#[derive(Debug, Clone, Copy, PartialEq, Eq, Structural)]
pub struct VerificationCompleted {
    pub identity_id: IdentityId,
    pub verification_successful: bool,
    pub new_verification_level: VerificationLevel,
    pub verified_by: IdentityId,
    pub completed_at: Timestamp,
}

/// Event fired when a projection is created.
#[derive(Debug)]
pub struct ProjectionCreated {
    pub projection_id: u128,
    pub identity_id: IdentityId,
    pub projection_type: ProjectionType,
    pub target_domain: String,
    pub target_id: u128,
    pub created_at: Timestamp,
}

/// Event fired when projections are synced.
#[derive(Debug, Clone, Copy, PartialEq, Eq, Structural)]
pub struct ProjectionsSynced {
    pub identity_id: Option<IdentityId>,
    pub projections_synced: usize,
    pub sync_errors: usize,
    pub synced_at: Timestamp,
}

/// Cross-domain event: identity linked to person.
#[derive(Debug, Clone, Copy, PartialEq, Eq, Structural)]
pub struct IdentityLinkedToPerson {
    pub identity_id: IdentityId,
    pub person_id: u128,
    pub linked_at: Timestamp,
}

/// Cross-domain event: identity linked to organization.
#[derive(Debug)]
pub struct IdentityLinkedToOrganization {
    pub identity_id: IdentityId,
    pub organization_id: u128,
    pub role: Option<String>,
    pub linked_at: Timestamp,
}

/// Cross-domain event: authentication requested.
#[derive(Debug)]
pub struct IdentityAuthenticationRequested {
    pub identity_id: IdentityId,
    pub authentication_method: String,
    pub context: String,
    pub requested_at: Timestamp,
}

/// How a workflow was brought to its end.
#[derive(Debug, Clone, Copy, PartialEq, Eq, Structural)]
pub enum WorkflowOutcome {
    Approved,
    Rejected,
    Cancelled,
    Completed,
}

/// The events that the read-models follow.
#[derive(Debug)]
pub enum DomainEvent {
    IdentityCreated(IdentityCreated),
    IdentityUpdated(IdentityUpdated),
    IdentityArchived(IdentityArchived),
    IdentitiesMerged(IdentitiesMerged),
    VerificationCompleted(VerificationCompleted),
    RelationshipEstablished(RelationshipEstablished),
    RelationshipExpired(RelationshipExpired),
    RelationshipRevoked(RelationshipRevoked),
    WorkflowStarted(WorkflowStarted),
    WorkflowStepCompleted(WorkflowStepCompleted),
    WorkflowCompleted(WorkflowCompleted),
    WorkflowTimedOut(WorkflowTimedOut),
}

/// An event as it travels in the stream: under its own identifier.
#[derive(Debug)]
pub struct EventEnvelope {
    pub event_id: EventId,
    pub event: DomainEvent,
}

} // verus!
