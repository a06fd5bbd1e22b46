//! Identity projection components.

use crate::ids::IdentityId;
use crate::time::Timestamp;
use vstd::prelude::*;

verus! {

/// Identity projection to other domains.
#[derive(Debug)]
pub struct IdentityProjection {
    pub identity_id: IdentityId,
    pub projection_type: ProjectionType,
    pub target_domain: String,
    pub sync_status: ProjectionSyncStatus,
    pub last_sync: Timestamp,
    pub last_synced: Timestamp,
}

/// Status of projection synchronization.
#[derive(Debug, PartialEq, Eq, Hash)]
pub enum ProjectionSyncStatus {
    Synced,
    Pending,
    OutOfSync,
    Failed(String),
}

/// Type of projection to another domain.
#[derive(Debug, Clone, Copy, PartialEq, Eq, Hash, Structural)]
pub enum ProjectionType {
    Primary,
    Secondary,
    Master,
    Replica,
    Cached,
}

/// Cross-domain reference to external entity.
#[derive(Debug)]
pub struct CrossDomainReference {
    pub domain: String,
    pub entity_type: String,
    pub entity_id: String,
    pub reference_type: ReferenceType,
}

impl Clone for CrossDomainReference {
    fn clone(&self) -> (r: Self)
        ensures
            r == *self,
    {
        CrossDomainReference {
            domain: self.domain.clone(),
            entity_type: self.entity_type.clone(),
            entity_id: self.entity_id.clone(),
            reference_type: self.reference_type,
        }
    }
}

/// Type of cross-domain reference.
#[derive(Debug, Clone, Copy, PartialEq, Eq, Structural)]
pub enum ReferenceType {
    Primary,
    Secondary,
    Linked,
    Derived,
}

/// Context for projection operations. The interval is counted in
/// milliseconds.
#[derive(Debug)]
pub struct ProjectionContext {
    pub source_domain: String,
    pub target_domain: String,
    pub sync_interval_millis: i64,
    pub last_sync: Option<Timestamp>,
    pub sync_errors: u32,
}

/// Strategy for synchronizing projections.
#[derive(Debug, Clone, Copy, PartialEq, Eq, Structural)]
pub enum SyncStrategy {
    /// Real-time synchronization via events
    RealTime,
    /// Periodic batch synchronization
    Batch { interval_seconds: u64 },
    /// On-demand synchronization
    OnDemand,
    /// One-time projection (no sync)
    OneTime,
}

/// Type of identity view.
#[derive(Debug, PartialEq, Eq)]
pub enum ViewType {
    /// Public view (minimal information)
    Public,
    /// Internal view (for same organization)
    Internal,
    /// Administrative view (full access)
    Admin,
    /// Self view (identity viewing themselves)
    Self_,
    /// Custom view
    Custom(String),
}

/// Transformation to apply to attributes in a view.
#[derive(Debug)]
pub enum AttributeTransformation {
    /// Mask part of the value
    Mask { attribute: String, mask_pattern: String },
    /// Hash the value
    Hash { attribute: String },
    /// Truncate the value
    Truncate { attribute: String, max_length: usize },
    /// Replace with placeholder
    Placeholder { attribute: String, placeholder: String },
    /// Custom transformation
    Custom { attribute: String, transform: String },
}

/// Synchronization error.
#[derive(Debug)]
pub struct SyncError {
    pub occurred_at: Timestamp,
    pub error_type: String,
    pub message: String,
    pub retry_count: u32,
}

} // verus!
