//! Identity components.

use crate::ids::IdentityId;
use crate::time::Timestamp;
use vstd::prelude::*;

verus! {

/// Core identity component.
#[derive(Debug, Clone, Copy, PartialEq, Eq, Structural)]
pub struct IdentityEntity {
    pub identity_id: IdentityId,
    pub identity_type: IdentityType,
    pub status: IdentityStatus,
}

/// Type of identity.
#[derive(Debug, Clone, Copy, PartialEq, Eq, Hash, Structural)]
pub enum IdentityType {
    /// A natural person
    Person,
    /// An organization or company
    Organization,
    /// A system or service account
    System,
    /// An external identity from another system
    External,
}

/// Status of an identity.
#[derive(Debug, Clone, Copy, PartialEq, Eq, Structural)]
pub enum IdentityStatus {
    /// Identity is being created/verified
    Pending,
    /// Identity is active and verified
    Active,
    /// Identity is temporarily suspended
    Suspended,
    /// Identity has been archived
    Archived,
    /// Identity has been merged with another
    Merged { merged_into: IdentityId },
}

impl IdentityStatus {
    /// Archived and merged identities never change again.
    pub open spec fn terminal(self) -> bool {
        self is Archived || self is Merged
    }

    pub fn is_terminal(&self) -> (r: bool)
        ensures
            r == self.terminal(),
    {
        match self {
            IdentityStatus::Archived => true,
            IdentityStatus::Merged { .. } => true,
            _ => false,
        }
    }

    pub fn is_active(&self) -> (r: bool)
        ensures
            r == (*self is Active),
    {
        match self {
            IdentityStatus::Active => true,
            _ => false,
        }
    }

    /// The changes an update may ask for: between pending and active, and
    /// between active and suspended, in either direction.
    pub open spec fn update_allowed(self, next: IdentityStatus) -> bool {
        ||| (self is Pending && next is Active)
        ||| (self is Active && next is Pending)
        ||| (self is Active && next is Suspended)
        ||| (self is Suspended && next is Active)
    }

    pub fn can_update_to(&self, next: &IdentityStatus) -> (r: bool)
        ensures
            r == self.update_allowed(*next),
    {
        match (self, next) {
            (IdentityStatus::Pending, IdentityStatus::Active) => true,
            (IdentityStatus::Active, IdentityStatus::Pending) => true,
            (IdentityStatus::Active, IdentityStatus::Suspended) => true,
            (IdentityStatus::Suspended, IdentityStatus::Active) => true,
            _ => false,
        }
    }

    /// Every change of status that any operation makes: none at all, an
    /// allowed update, or the end of a living identity by archive or merge.
    pub open spec fn step_allowed(self, next: IdentityStatus) -> bool {
        ||| next == self
        ||| self.update_allowed(next)
        ||| (!self.terminal() && next.terminal())
    }
}

/// Metadata for an identity.
#[derive(Debug)]
pub struct IdentityMetadata {
    pub created_at: Timestamp,
    pub updated_at: Timestamp,
    pub created_by: Option<IdentityId>,
    pub version: u64,
    pub tags: Vec<String>,
}

impl IdentityMetadata {
    /// The version after one more change; it stays at the largest number once
    /// it has reached it.
    pub open spec fn next_version(version: u64) -> u64 {
        if version < u64::MAX {
            (version + 1) as u64
        } else {
            version
        }
    }

    /// Records a change made at `now`.
    pub fn touch(&mut self, now: Timestamp)
        ensures
            *final(self) == (IdentityMetadata {
                updated_at: now,
                version: Self::next_version(old(self).version),
                ..*old(self)
            }),
    {
        self.updated_at = now;
        if self.version < u64::MAX {
            self.version = self.version + 1;
        }
    }
}

/// Identity verification component.
#[derive(Debug)]
pub struct IdentityVerification {
    pub verification_level: VerificationLevel,
    pub verified_at: Option<Timestamp>,
    pub verified_by: Option<IdentityId>,
    pub verification_method: Option<VerificationMethod>,
}

impl Clone for IdentityVerification {
    fn clone(&self) -> (r: Self)
        ensures
            r == *self,
    {
        IdentityVerification {
            verification_level: self.verification_level,
            verified_at: self.verified_at,
            verified_by: self.verified_by,
            verification_method: match &self.verification_method {
                Some(method) => Some(method.clone()),
                None => None,
            },
        }
    }
}

impl IdentityVerification {
    /// Nothing has been verified yet.
    pub fn unverified() -> (r: Self)
        ensures
            r == (IdentityVerification {
                verification_level: VerificationLevel::Unverified,
                verified_at: None,
                verified_by: None,
                verification_method: None,
            }),
    {
        IdentityVerification {
            verification_level: VerificationLevel::Unverified,
            verified_at: None,
            verified_by: None,
            verification_method: None,
        }
    }
}

/// Verification levels, lowest first.
#[derive(Debug, Clone, Copy, PartialEq, Eq, PartialOrd, Ord, Hash, Structural)]
pub enum VerificationLevel {
    /// No verification performed
    Unverified,
    /// Basic verification
    Basic,
    /// Enhanced verification
    Enhanced,
    /// Full verification
    Full,
    /// Verification backed by biometric evidence
    Biometric,
    /// Verification carried out in person
    InPerson,
}

impl VerificationLevel {
    /// Ordinal of the level, from 0 to 5.
    pub open spec fn rank(self) -> int {
        match self {
            VerificationLevel::Unverified => 0,
            VerificationLevel::Basic => 1,
            VerificationLevel::Enhanced => 2,
            VerificationLevel::Full => 3,
            VerificationLevel::Biometric => 4,
            VerificationLevel::InPerson => 5,
        }
    }

    pub fn ordinal(&self) -> (r: u8)
        ensures
            r == self.rank(),
    {
        match self {
            VerificationLevel::Unverified => 0,
            VerificationLevel::Basic => 1,
            VerificationLevel::Enhanced => 2,
            VerificationLevel::Full => 3,
            VerificationLevel::Biometric => 4,
            VerificationLevel::InPerson => 5,
        }
    }

    /// The level of a given ordinal, if there is one.
    pub fn from_ordinal(ordinal: u8) -> (r: Option<Self>)
        ensures
            ordinal <= 5 ==> (r matches Some(level) && level.rank() == ordinal),
            ordinal > 5 ==> r is None,
    {
        match ordinal {
            0 => Some(VerificationLevel::Unverified),
            1 => Some(VerificationLevel::Basic),
            2 => Some(VerificationLevel::Enhanced),
            3 => Some(VerificationLevel::Full),
            4 => Some(VerificationLevel::Biometric),
            5 => Some(VerificationLevel::InPerson),
            _ => None,
        }
    }

    /// The higher of two levels.
    pub open spec fn higher(self, other: VerificationLevel) -> VerificationLevel {
        if self.rank() >= other.rank() {
            self
        } else {
            other
        }
    }

    pub fn max_with(&self, other: &VerificationLevel) -> (r: VerificationLevel)
        ensures
            r == self.higher(*other),
    {
        if self.ordinal() >= other.ordinal() {
            *self
        } else {
            *other
        }
    }

    /// A level may stay, or rise by exactly one.
    pub open spec fn step_allowed(self, next: VerificationLevel) -> bool {
        self.rank() <= next.rank() <= self.rank() + 1
    }
}

/// Verification methods.
#[derive(Debug, PartialEq, Eq)]
pub enum VerificationMethod {
    Email,
    Phone,
    Document,
    Biometric,
    InPerson,
    ThirdParty { provider: String },
}

impl Clone for VerificationMethod {
    fn clone(&self) -> (r: Self)
        ensures
            r == *self,
    {
        match self {
            VerificationMethod::Email => VerificationMethod::Email,
            VerificationMethod::Phone => VerificationMethod::Phone,
            VerificationMethod::Document => VerificationMethod::Document,
            VerificationMethod::Biometric => VerificationMethod::Biometric,
            VerificationMethod::InPerson => VerificationMethod::InPerson,
            VerificationMethod::ThirdParty { provider } => VerificationMethod::ThirdParty {
                provider: provider.clone(),
            },
        }
    }
}

/// Claims about an identity.
#[derive(Debug)]
pub struct IdentityClaim {
    pub claim_type: ClaimType,
    pub value: String,
    pub verified: bool,
    pub issuer: Option<IdentityId>,
    pub issued_at: Timestamp,
    pub expires_at: Option<Timestamp>,
}

impl IdentityClaim {
    /// Whether a claim of this type counts as verified once its identity has
    /// reached the given level: e-mail from Basic on, phone from Enhanced on,
    /// everything from Full on.
    pub open spec fn covered_by(self, level: VerificationLevel) -> bool {
        ||| level.rank() >= 3
        ||| (level.rank() == 2 && (self.claim_type is Email || self.claim_type is Phone))
        ||| (level.rank() == 1 && self.claim_type is Email)
    }

    pub fn is_covered_by(&self, level: &VerificationLevel) -> (r: bool)
        ensures
            r == self.covered_by(*level),
    {
        let rank: u8 = level.ordinal();
        if rank >= 3 {
            true
        } else if rank == 2 {
            match self.claim_type {
                ClaimType::Email => true,
                ClaimType::Phone => true,
                _ => false,
            }
        } else if rank == 1 {
            match self.claim_type {
                ClaimType::Email => true,
                _ => false,
            }
        } else {
            false
        }
    }
}

/// Types of claims.
#[derive(Debug, PartialEq, Eq, Hash)]
pub enum ClaimType {
    Email,
    Phone,
    Name,
    DateOfBirth,
    Address,
    NationalId,
    TaxId,
    Custom(String),
}

impl ClaimType {
    /// Two claim types are the same type; custom types are told apart by
    /// their text.
    pub open spec fn same_as(self, other: ClaimType) -> bool {
        match (self, other) {
            (ClaimType::Email, ClaimType::Email) => true,
            (ClaimType::Phone, ClaimType::Phone) => true,
            (ClaimType::Name, ClaimType::Name) => true,
            (ClaimType::DateOfBirth, ClaimType::DateOfBirth) => true,
            (ClaimType::Address, ClaimType::Address) => true,
            (ClaimType::NationalId, ClaimType::NationalId) => true,
            (ClaimType::TaxId, ClaimType::TaxId) => true,
            (ClaimType::Custom(a), ClaimType::Custom(b)) => a@ == b@,
            _ => false,
        }
    }

    pub fn is_same_as(&self, other: &ClaimType) -> (r: bool)
        ensures
            r == self.same_as(*other),
    {
        match (self, other) {
            (ClaimType::Email, ClaimType::Email) => true,
            (ClaimType::Phone, ClaimType::Phone) => true,
            (ClaimType::Name, ClaimType::Name) => true,
            (ClaimType::DateOfBirth, ClaimType::DateOfBirth) => true,
            (ClaimType::Address, ClaimType::Address) => true,
            (ClaimType::NationalId, ClaimType::NationalId) => true,
            (ClaimType::TaxId, ClaimType::TaxId) => true,
            (ClaimType::Custom(a), ClaimType::Custom(b)) => *a == *b,
            _ => false,
        }
    }
}

impl Clone for ClaimType {
    fn clone(&self) -> (r: Self)
        ensures
            r == *self,
    {
        match self {
            ClaimType::Email => ClaimType::Email,
            ClaimType::Phone => ClaimType::Phone,
            ClaimType::Name => ClaimType::Name,
            ClaimType::DateOfBirth => ClaimType::DateOfBirth,
            ClaimType::Address => ClaimType::Address,
            ClaimType::NationalId => ClaimType::NationalId,
            ClaimType::TaxId => ClaimType::TaxId,
            ClaimType::Custom(text) => ClaimType::Custom(text.clone()),
        }
    }
}

/// External identity reference component.
#[derive(Debug)]
pub struct ExternalIdentity {
    pub provider: String,
    pub external_id: String,
    pub linked_at: Timestamp,
}

} // verus!
