//! The data held for identities, relationships, workflows and projections.

pub mod identity;
pub mod projection;
pub mod relationship;
pub mod workflow;

pub use identity::{
    ClaimType, ExternalIdentity, IdentityClaim, IdentityEntity, IdentityMetadata, IdentityStatus,
    IdentityType, IdentityVerification, VerificationLevel, VerificationMethod,
};
pub use projection::{
    AttributeTransformation, CrossDomainReference, IdentityProjection, ProjectionContext,
    ProjectionSyncStatus, ProjectionType, ReferenceType, SyncError, SyncStrategy, ViewType,
};
pub use relationship::{
    IdentityRelationship, RelationshipConstraint, RelationshipGraph, RelationshipRules,
    RelationshipType,
};
pub use workflow::{
    IdentityWorkflow, StepData, StepField, StepStatus, StepTransition, StepType,
    TransitionCondition, WorkflowHistory, WorkflowStatus, WorkflowStep, WorkflowTransition,
    WorkflowType,
};
