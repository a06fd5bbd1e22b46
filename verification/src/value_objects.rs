//! Value objects shared across the identity domain, each with the text under
//! which it is shown.

use vstd::prelude::*;

verus! {

/// Verification method for identity verification.
#[derive(Debug, Clone, Copy, PartialEq, Eq, Hash, Structural)]
pub enum VerificationMethod {
    Email,
    Phone,
    Document,
    Biometric,
    Social,
    Reference,
}

impl VerificationMethod {
    /// The text under which the method is shown.
    pub open spec fn text(self) -> Seq<char> {
        match self {
            VerificationMethod::Email => "Email"@,
            VerificationMethod::Phone => "Phone"@,
            VerificationMethod::Document => "Document"@,
            VerificationMethod::Biometric => "Biometric"@,
            VerificationMethod::Social => "Social"@,
            VerificationMethod::Reference => "Reference"@,
        }
    }

    pub fn to_text(&self) -> (r: String)
        ensures
            r@ == self.text(),
    {
        match self {
            VerificationMethod::Email => "Email".to_string(),
            VerificationMethod::Phone => "Phone".to_string(),
            VerificationMethod::Document => "Document".to_string(),
            VerificationMethod::Biometric => "Biometric".to_string(),
            VerificationMethod::Social => "Social".to_string(),
            VerificationMethod::Reference => "Reference".to_string(),
        }
    }
}

/// Level of identity verification.
#[derive(Debug, Clone, Copy, PartialEq, Eq, PartialOrd, Ord, Hash, Structural)]
pub enum VerificationLevel {
    Unverified,
    Basic,
    Enhanced,
    Full,
}

impl VerificationLevel {
    /// The text under which the level is shown.
    pub open spec fn text(self) -> Seq<char> {
        match self {
            VerificationLevel::Unverified => "None"@,
            VerificationLevel::Basic => "Basic"@,
            VerificationLevel::Enhanced => "Enhanced"@,
            VerificationLevel::Full => "Full"@,
        }
    }

    pub fn to_text(&self) -> (r: String)
        ensures
            r@ == self.text(),
    {
        match self {
            VerificationLevel::Unverified => "None".to_string(),
            VerificationLevel::Basic => "Basic".to_string(),
            VerificationLevel::Enhanced => "Enhanced".to_string(),
            VerificationLevel::Full => "Full".to_string(),
        }
    }
}

/// Type of relationship between identities.
#[derive(Debug, PartialEq, Eq, Hash)]
pub enum RelationshipType {
    EmployeeOf,
    MemberOf,
    PartnerOf,
    CustomerOf,
    SupplierOf,
    ParentOf,
    ChildOf,
    Custom(String),
}

impl RelationshipType {
    /// The text under which the type is shown; a custom type is shown by its
    /// own text.
    pub open spec fn text(self) -> Seq<char> {
        match self {
            RelationshipType::EmployeeOf => "Employee of"@,
            RelationshipType::MemberOf => "Member of"@,
            RelationshipType::PartnerOf => "Partner of"@,
            RelationshipType::CustomerOf => "Customer of"@,
            RelationshipType::SupplierOf => "Supplier of"@,
            RelationshipType::ParentOf => "Parent of"@,
            RelationshipType::ChildOf => "Child of"@,
            RelationshipType::Custom(s) => s@,
        }
    }

    pub fn to_text(&self) -> (r: String)
        ensures
            r@ == self.text(),
    {
        match self {
            RelationshipType::EmployeeOf => "Employee of".to_string(),
            RelationshipType::MemberOf => "Member of".to_string(),
            RelationshipType::PartnerOf => "Partner of".to_string(),
            RelationshipType::CustomerOf => "Customer of".to_string(),
            RelationshipType::SupplierOf => "Supplier of".to_string(),
            RelationshipType::ParentOf => "Parent of".to_string(),
            RelationshipType::ChildOf => "Child of".to_string(),
            RelationshipType::Custom(s) => s.clone(),
        }
    }
}

/// Claim about an identity.
#[derive(Debug, PartialEq, Eq)]
pub struct IdentityClaim {
    pub claim_type: String,
    pub value: String,
    pub verified: bool,
    pub issuer: Option<String>,
}

} // verus!
