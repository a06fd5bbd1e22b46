//! The operations of the domain. Each takes one command, checks it against
//! the rules, changes the world if the rules allow it and tells what happened
//! as an event; a rejected command changes nothing.

pub mod lifecycle;
pub mod markers;
pub mod projection;
pub mod relationship;
pub mod verification;
pub mod workflow;

pub use lifecycle::{
    archive_identity, archive_identity_system, create_identity, create_identity_system,
    merge_identities, merge_identities_system, update_identity, update_identity_system,
};
pub use relationship::{
    establish_relationship, establish_relationship_system, expire_relationships,
    expire_relationships_system, release_relationships, release_relationships_system,
    revoke_relationship, revoke_relationship_system,
    traverse_relationships, traverse_relationships_system, validate_relationship_at,
    validate_relationships_system, TraversalOutcome,
};
pub use workflow::{
    complete_workflow, complete_workflow_system, process_workflow_step,
    process_workflow_step_system, select_next, start_workflow, start_workflow_system,
    timeout_workflows, timeout_workflows_system,
};
pub use markers::{
    add_identity_markers_system, marker_for, AgentMarker, IdentityMarker, OrganizationMarker,
    PersonMarker,
};
pub use verification::{
    complete_verification, complete_verification_system, process_verification,
    process_verification_system, start_verification, start_verification_system,
    update_verification_claims_system,
};
pub use projection::{
    create_projection, create_projection_system, link_for, sync_projections,
    sync_projections_system, synchronize_projections, synchronize_projections_system,
    validate_projection_system, ProjectionLink,
};
