//! The errors of the identity domain.

use crate::ids::{IdentityId, RelationshipId, WorkflowId};
use vstd::prelude::*;

verus! {

/// Result type for identity operations.
pub type IdentityResult<T> = Result<T, IdentityError>;

/// Error types for the identity domain.
#[derive(Debug)]
pub enum IdentityError {
    IdentityNotFound(IdentityId),
    IdentityAlreadyExists(String),
    IdentityArchived,
    IdentityNotActive,
    IdentityMerged,
    AlreadyArchived,
    IncompatibleIdentityTypes,
    TargetLessVerified,
    HasActiveRelationships(usize),
    SelfRelationship,
    InvalidOwnershipPercentage,
    InvalidOperation(String),
    InvalidIdentityType,
    InvalidStatusTransition,
    InvalidEmail(String),
    VerificationFailed(String),
    RelationshipNotFound(RelationshipId),
    RelationshipConflict(String),
    WorkflowNotFound(WorkflowId),
    WorkflowError(String),
    WorkflowInProgress,
    InvariantViolation(String),
    ProjectionSyncFailed(String),
    NotFound,
    InvalidTransition,
}

/// What an [`IdentityError`] says, with every text as a sequence of characters.
pub enum ErrorView {
    IdentityNotFound(IdentityId),
    IdentityAlreadyExists(Seq<char>),
    IdentityArchived,
    IdentityNotActive,
    IdentityMerged,
    AlreadyArchived,
    IncompatibleIdentityTypes,
    TargetLessVerified,
    HasActiveRelationships(usize),
    SelfRelationship,
    InvalidOwnershipPercentage,
    InvalidOperation(Seq<char>),
    InvalidIdentityType,
    InvalidStatusTransition,
    InvalidEmail(Seq<char>),
    VerificationFailed(Seq<char>),
    RelationshipNotFound(RelationshipId),
    RelationshipConflict(Seq<char>),
    WorkflowNotFound(WorkflowId),
    WorkflowError(Seq<char>),
    WorkflowInProgress,
    InvariantViolation(Seq<char>),
    ProjectionSyncFailed(Seq<char>),
    NotFound,
    InvalidTransition,
}

impl View for IdentityError {
    type V = ErrorView;

    open spec fn view(&self) -> ErrorView {
        match *self {
            IdentityError::IdentityNotFound(id) => ErrorView::IdentityNotFound(id),
            IdentityError::IdentityAlreadyExists(s) => ErrorView::IdentityAlreadyExists(s@),
            IdentityError::IdentityArchived => ErrorView::IdentityArchived,
            IdentityError::IdentityNotActive => ErrorView::IdentityNotActive,
            IdentityError::IdentityMerged => ErrorView::IdentityMerged,
            IdentityError::AlreadyArchived => ErrorView::AlreadyArchived,
            IdentityError::IncompatibleIdentityTypes => ErrorView::IncompatibleIdentityTypes,
            IdentityError::TargetLessVerified => ErrorView::TargetLessVerified,
            IdentityError::HasActiveRelationships(n) => ErrorView::HasActiveRelationships(n),
            IdentityError::SelfRelationship => ErrorView::SelfRelationship,
            IdentityError::InvalidOwnershipPercentage => ErrorView::InvalidOwnershipPercentage,
            IdentityError::InvalidOperation(s) => ErrorView::InvalidOperation(s@),
            IdentityError::InvalidIdentityType => ErrorView::InvalidIdentityType,
            IdentityError::InvalidStatusTransition => ErrorView::InvalidStatusTransition,
            IdentityError::InvalidEmail(s) => ErrorView::InvalidEmail(s@),
            IdentityError::VerificationFailed(s) => ErrorView::VerificationFailed(s@),
            IdentityError::RelationshipNotFound(id) => ErrorView::RelationshipNotFound(id),
            IdentityError::RelationshipConflict(s) => ErrorView::RelationshipConflict(s@),
            IdentityError::WorkflowNotFound(id) => ErrorView::WorkflowNotFound(id),
            IdentityError::WorkflowError(s) => ErrorView::WorkflowError(s@),
            IdentityError::WorkflowInProgress => ErrorView::WorkflowInProgress,
            IdentityError::InvariantViolation(s) => ErrorView::InvariantViolation(s@),
            IdentityError::ProjectionSyncFailed(s) => ErrorView::ProjectionSyncFailed(s@),
            IdentityError::NotFound => ErrorView::NotFound,
            IdentityError::InvalidTransition => ErrorView::InvalidTransition,
        }
    }
}

impl Clone for IdentityError {
    fn clone(&self) -> (r: Self)
        ensures
            r == *self,
    {
        match self {
            IdentityError::IdentityNotFound(id) => IdentityError::IdentityNotFound(*id),
            IdentityError::IdentityAlreadyExists(s) => IdentityError::IdentityAlreadyExists(s.clone()),
            IdentityError::IdentityArchived => IdentityError::IdentityArchived,
            IdentityError::IdentityNotActive => IdentityError::IdentityNotActive,
            IdentityError::IdentityMerged => IdentityError::IdentityMerged,
            IdentityError::AlreadyArchived => IdentityError::AlreadyArchived,
            IdentityError::IncompatibleIdentityTypes => IdentityError::IncompatibleIdentityTypes,
            IdentityError::TargetLessVerified => IdentityError::TargetLessVerified,
            IdentityError::HasActiveRelationships(n) => IdentityError::HasActiveRelationships(*n),
            IdentityError::SelfRelationship => IdentityError::SelfRelationship,
            IdentityError::InvalidOwnershipPercentage => IdentityError::InvalidOwnershipPercentage,
            IdentityError::InvalidOperation(s) => IdentityError::InvalidOperation(s.clone()),
            IdentityError::InvalidIdentityType => IdentityError::InvalidIdentityType,
            IdentityError::InvalidStatusTransition => IdentityError::InvalidStatusTransition,
            IdentityError::InvalidEmail(s) => IdentityError::InvalidEmail(s.clone()),
            IdentityError::VerificationFailed(s) => IdentityError::VerificationFailed(s.clone()),
            IdentityError::RelationshipNotFound(id) => IdentityError::RelationshipNotFound(*id),
            IdentityError::RelationshipConflict(s) => IdentityError::RelationshipConflict(s.clone()),
            IdentityError::WorkflowNotFound(id) => IdentityError::WorkflowNotFound(*id),
            IdentityError::WorkflowError(s) => IdentityError::WorkflowError(s.clone()),
            IdentityError::WorkflowInProgress => IdentityError::WorkflowInProgress,
            IdentityError::InvariantViolation(s) => IdentityError::InvariantViolation(s.clone()),
            IdentityError::ProjectionSyncFailed(s) => IdentityError::ProjectionSyncFailed(s.clone()),
            IdentityError::NotFound => IdentityError::NotFound,
            IdentityError::InvalidTransition => IdentityError::InvalidTransition,
        }
    }
}

} // verus!
