//! Relationship components.

use crate::components::identity::VerificationLevel;
use crate::ids::{IdentityId, RelationshipId};
use crate::text::clone_optional_text;
use crate::time::{deadline_passed, is_deadline_passed, Timestamp};
use vstd::prelude::*;

verus! {

/// Two optional texts read the same.
pub open spec fn same_optional_text(a: Option<String>, b: Option<String>) -> bool {
    match (a, b) {
        (Some(x), Some(y)) => x@ == y@,
        (None, None) => true,
        _ => false,
    }
}

pub fn is_same_optional_text(a: &Option<String>, b: &Option<String>) -> (r: bool)
    ensures
        r == same_optional_text(*a, *b),
{
    match (a, b) {
        (Some(x), Some(y)) => *x == *y,
        (None, None) => true,
        _ => false,
    }
}

/// Type of relationship between identities, with what the type carries.
#[derive(Debug, PartialEq, Eq, Hash)]
pub enum RelationshipType {
    /// Identity owns another identity, to a share in percent
    Owns { percentage: u8 },
    /// Identity manages another identity
    Manages,
    /// Identity is a member of another identity
    MemberOf { role: String, department: Option<String> },
    /// Identity delegates to another identity, within a scope
    Delegates { scope: String },
    /// Identity trusts another identity
    Trusts,
    /// Custom relationship
    Custom(String),
}

impl RelationshipType {
    /// Both are of the same variant, whatever they carry.
    pub open spec fn same_kind(self, other: RelationshipType) -> bool {
        match (self, other) {
            (RelationshipType::Owns { .. }, RelationshipType::Owns { .. }) => true,
            (RelationshipType::Manages, RelationshipType::Manages) => true,
            (RelationshipType::MemberOf { .. }, RelationshipType::MemberOf { .. }) => true,
            (RelationshipType::Delegates { .. }, RelationshipType::Delegates { .. }) => true,
            (RelationshipType::Trusts, RelationshipType::Trusts) => true,
            (RelationshipType::Custom(_), RelationshipType::Custom(_)) => true,
            _ => false,
        }
    }

    pub fn is_same_kind(&self, other: &RelationshipType) -> (r: bool)
        ensures
            r == self.same_kind(*other),
    {
        match (self, other) {
            (RelationshipType::Owns { .. }, RelationshipType::Owns { .. }) => true,
            (RelationshipType::Manages, RelationshipType::Manages) => true,
            (RelationshipType::MemberOf { .. }, RelationshipType::MemberOf { .. }) => true,
            (RelationshipType::Delegates { .. }, RelationshipType::Delegates { .. }) => true,
            (RelationshipType::Trusts, RelationshipType::Trusts) => true,
            (RelationshipType::Custom(_), RelationshipType::Custom(_)) => true,
            _ => false,
        }
    }

    /// Both are of the same variant and carry the same values.
    pub open spec fn same_as(self, other: RelationshipType) -> bool {
        match (self, other) {
            (
                RelationshipType::Owns { percentage: a },
                RelationshipType::Owns { percentage: b },
            ) => a == b,
            (RelationshipType::Manages, RelationshipType::Manages) => true,
            (
                RelationshipType::MemberOf { role: r1, department: d1 },
                RelationshipType::MemberOf { role: r2, department: d2 },
            ) => r1@ == r2@ && same_optional_text(d1, d2),
            (
                RelationshipType::Delegates { scope: a },
                RelationshipType::Delegates { scope: b },
            ) => a@ == b@,
            (RelationshipType::Trusts, RelationshipType::Trusts) => true,
            (RelationshipType::Custom(a), RelationshipType::Custom(b)) => a@ == b@,
            _ => false,
        }
    }

    pub fn is_same_as(&self, other: &RelationshipType) -> (r: bool)
        ensures
            r == self.same_as(*other),
    {
        match (self, other) {
            (
                RelationshipType::Owns { percentage: a },
                RelationshipType::Owns { percentage: b },
            ) => *a == *b,
            (RelationshipType::Manages, RelationshipType::Manages) => true,
            (
                RelationshipType::MemberOf { role: r1, department: d1 },
                RelationshipType::MemberOf { role: r2, department: d2 },
            ) => *r1 == *r2 && is_same_optional_text(d1, d2),
            (
                RelationshipType::Delegates { scope: a },
                RelationshipType::Delegates { scope: b },
            ) => *a == *b,
            (RelationshipType::Trusts, RelationshipType::Trusts) => true,
            (RelationshipType::Custom(a), RelationshipType::Custom(b)) => *a == *b,
            _ => false,
        }
    }

    /// An ownership share lies between 0 and 100 percent; the other types
    /// carry nothing that could be out of range.
    pub open spec fn share_valid(self) -> bool {
        self matches RelationshipType::Owns { percentage } ==> percentage <= 100
    }

    pub fn has_valid_share(&self) -> (r: bool)
        ensures
            r == self.share_valid(),
    {
        match self {
            RelationshipType::Owns { percentage } => *percentage <= 100,
            _ => true,
        }
    }
}

impl Clone for RelationshipType {
    fn clone(&self) -> (r: Self)
        ensures
            r == *self,
    {
        match self {
            RelationshipType::Owns { percentage } => RelationshipType::Owns {
                percentage: *percentage,
            },
            RelationshipType::Manages => RelationshipType::Manages,
            RelationshipType::MemberOf { role, department } => RelationshipType::MemberOf {
                role: role.clone(),
                department: clone_optional_text(department),
            },
            RelationshipType::Delegates { scope } => RelationshipType::Delegates {
                scope: scope.clone(),
            },
            RelationshipType::Trusts => RelationshipType::Trusts,
            RelationshipType::Custom(text) => RelationshipType::Custom(text.clone()),
        }
    }
}

/// Rules governing a relationship.
#[derive(Debug, Clone, Copy, PartialEq, Eq, Structural)]
pub struct RelationshipRules {
    pub can_delegate: bool,
    pub can_revoke: bool,
    pub expires_at: Option<Timestamp>,
    pub max_depth: Option<u32>,
}

/// A relationship from one identity to another.
#[derive(Debug)]
pub struct IdentityRelationship {
    pub relationship_id: RelationshipId,
    pub source_identity: IdentityId,
    pub target_identity: IdentityId,
    pub relationship_type: RelationshipType,
    pub rules: RelationshipRules,
    pub established_at: Timestamp,
    pub established_by: Option<IdentityId>,
    /// What else is kept with the relationship, as JSON text.
    pub metadata: Option<String>,
}

impl IdentityRelationship {
    /// The relationship starts or ends at the identity.
    pub open spec fn touches(self, identity_id: IdentityId) -> bool {
        self.source_identity == identity_id || self.target_identity == identity_id
    }

    pub fn is_touching(&self, identity_id: IdentityId) -> (r: bool)
        ensures
            r == self.touches(identity_id),
    {
        self.source_identity == identity_id || self.target_identity == identity_id
    }

    /// The relationship's expiry lies before `now`.
    pub open spec fn expired(self, now: Timestamp) -> bool {
        deadline_passed(self.rules.expires_at, now)
    }

    pub fn is_expired(&self, now: &Timestamp) -> (r: bool)
        ensures
            r == self.expired(*now),
    {
        is_deadline_passed(&self.rules.expires_at, now)
    }
}

impl Clone for IdentityRelationship {
    fn clone(&self) -> (r: Self)
        ensures
            r == *self,
    {
        IdentityRelationship {
            relationship_id: self.relationship_id,
            source_identity: self.source_identity,
            target_identity: self.target_identity,
            relationship_type: self.relationship_type.clone(),
            rules: self.rules,
            established_at: self.established_at,
            established_by: self.established_by,
            metadata: clone_optional_text(&self.metadata),
        }
    }
}

/// Graph of the relationships of one identity: those that start or end at
/// it, as of the time it was read.
#[derive(Debug)]
pub struct RelationshipGraph {
    pub identity_id: IdentityId,
    pub direct_relationships: Vec<RelationshipId>,
    pub relationship_count: usize,
    pub last_updated: Timestamp,
}

/// Constraints on a relationship. A span of time is counted in milliseconds.
#[derive(Debug, PartialEq, Eq, Hash)]
pub enum RelationshipConstraint {
    MaxCount(usize),
    MinCount(usize),
    RequiredVerificationLevel(VerificationLevel),
    MutuallyExclusive(Vec<RelationshipType>),
    RequiresApproval,
    TimeBasedExpiry(i64),
}

} // verus!
