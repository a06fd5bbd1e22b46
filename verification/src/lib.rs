//! Identity domain: identities, the relationships between them, the workflows
//! that act on them, and the read-models derived from their events.

pub mod aggregate;
pub mod commands;
pub mod components;
pub mod domain;
pub mod error;
pub mod events;
pub mod ids;
pub mod laws;
pub mod projections;
pub mod queries;
pub mod systems;
pub mod text;
pub mod time;
pub mod traversal;
pub mod value_objects;
pub mod world;

pub use aggregate::{AggregateState, IdentityAggregate};
pub use commands::{
    ArchiveIdentityCommand, CompleteVerificationCommand, CompleteWorkflowCommand,
    CreateIdentityCommand, CreateProjectionCommand, EstablishRelationshipCommand, InitialClaim,
    MergeIdentitiesCommand, ProcessVerificationCommand, ProcessWorkflowStepCommand,
    RevokeRelationshipCommand, StartVerificationCommand, StartWorkflowCommand,
    SyncProjectionsCommand, TimeoutWorkflowCommand, TraverseRelationshipsCommand,
    UpdateIdentityCommand, ValidateRelationshipCommand,
};
pub use components::{
    ClaimType, CrossDomainReference, ExternalIdentity, IdentityClaim, IdentityEntity,
    IdentityMetadata, IdentityProjection, IdentityRelationship, IdentityStatus, IdentityType,
    IdentityVerification, IdentityWorkflow, ProjectionContext, ProjectionSyncStatus,
    ProjectionType, ReferenceType, RelationshipConstraint, RelationshipGraph, RelationshipRules,
    RelationshipType, StepData, StepField,
    StepStatus, StepType, TransitionCondition, VerificationLevel, VerificationMethod,
    WorkflowStatus, WorkflowStep, WorkflowTransition, WorkflowType,
};
pub use domain::{
    Organization, OrganizationCommand, OrganizationEvent, OrganizationId, OrganizationType,
    Person, PersonCommand, PersonEvent, PersonId,
};
pub use error::{ErrorView, IdentityError, IdentityResult};
pub use events::{
    DomainEvent, EventEnvelope, IdentitiesMerged, IdentityArchived,
    IdentityAuthenticationRequested, IdentityCreated, IdentityLinkedToOrganization,
    IdentityLinkedToPerson, IdentityUpdated, ProjectionCreated, ProjectionsSynced,
    RelationshipEstablished, RelationshipExpired, RelationshipRevoked, RelationshipValidated,
    RelationshipsTraversed, TraversalPath, VerificationCompleted, VerificationStarted,
    WorkflowCompleted, WorkflowOutcome, WorkflowStarted, WorkflowStepCompleted, WorkflowTimedOut,
};
pub use ids::{EventId, IdentityId, RelationshipId, WorkflowId};
pub use projections::{
    IdentityProjectionSystem, IdentityStatusProjection, RelationshipGraphProjection,
    WorkflowStatusProjection,
};
pub use queries::{
    FindActiveWorkflowsQuery, FindIdentitiesByTypeQuery, FindIdentityByIdQuery,
    FindRelationshipsByIdentityQuery, GetIdentityProjectionsQuery,
    GetIdentityVerificationStatusQuery,
};
pub use systems::{
    archive_identity_system, complete_verification_system, complete_workflow_system,
    create_identity_system, create_projection_system, establish_relationship_system,
    expire_relationships_system, merge_identities_system, process_verification_system,
    process_workflow_step_system, release_relationships_system, revoke_relationship_system,
    start_verification_system,
    start_workflow_system, sync_projections_system, synchronize_projections_system,
    timeout_workflows_system,
    traverse_relationships_system, update_identity_system, validate_projection_system,
    validate_relationships_system,
};
pub use time::Timestamp;
pub use world::{IdentityRecord, IdentityWorld};
