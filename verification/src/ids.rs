//! Identifiers of the identity domain.
//!
//! Every identifier is a 128-bit number. Fresh ones are drawn from the `uuid`
//! crate's random generator; the textual form is read by the same crate.

use vstd::prelude::*;

verus! {

/// Draws a fresh identifier from `uuid::Uuid::new_v4` and hands back its 128
/// bits. The bits are random, so nothing is stated about them.
#[verifier::external_body]
pub(crate) fn random_id_bits() -> u128 {
    uuid::Uuid::new_v4().as_u128()
}

/// The 128-bit value that `uuid::Uuid::parse_str` reads out of a text, or `None`
/// where it rejects the text.
pub uninterp spec fn uuid_text_value(text: Seq<char>) -> Option<u128>;

/// Reads an identifier with `uuid::Uuid::parse_str`. The result is the value the
/// crate's parser assigns to the text; it depends on the text alone.
#[verifier::external_body]
pub(crate) fn parse_uuid_text(text: &str) -> (r: Option<u128>)
    ensures
        r == uuid_text_value(text@),
{
    match uuid::Uuid::parse_str(text) {
        Ok(id) => Some(id.as_u128()),
        Err(_) => None,
    }
}

/// Identifier of an identity.
#[derive(Clone, Copy, Debug, PartialEq, Eq, Hash, Structural)]
pub struct IdentityId(pub u128);

impl IdentityId {
    /// A fresh random identifier.
    pub fn new() -> Self {
        IdentityId(random_id_bits())
    }

    pub fn from_u128(value: u128) -> (r: Self)
        ensures
            r == IdentityId(value),
    {
        IdentityId(value)
    }

    pub fn as_u128(&self) -> (r: u128)
        ensures
            r == self.0,
    {
        self.0
    }
}

/// Identifier of a relationship.
#[derive(Clone, Copy, Debug, PartialEq, Eq, Hash, Structural)]
pub struct RelationshipId(pub u128);

impl RelationshipId {
    /// A fresh random identifier.
    pub fn new() -> Self {
        RelationshipId(random_id_bits())
    }

    pub fn from_u128(value: u128) -> (r: Self)
        ensures
            r == RelationshipId(value),
    {
        RelationshipId(value)
    }

    pub fn as_u128(&self) -> (r: u128)
        ensures
            r == self.0,
    {
        self.0
    }
}

/// Identifier of a workflow instance.
#[derive(Clone, Copy, Debug, PartialEq, Eq, Hash, Structural)]
pub struct WorkflowId(pub u128);

impl WorkflowId {
    /// A fresh random identifier.
    pub fn new() -> Self {
        WorkflowId(random_id_bits())
    }

    pub fn from_u128(value: u128) -> (r: Self)
        ensures
            r == WorkflowId(value),
    {
        WorkflowId(value)
    }

    pub fn as_u128(&self) -> (r: u128)
        ensures
            r == self.0,
    {
        self.0
    }
}

/// Identifier of an emitted event, the key under which read-models remember
/// what they have already applied.
#[derive(Clone, Copy, Debug, PartialEq, Eq, Hash, Structural)]
pub struct EventId(pub u128);

impl EventId {
    /// A fresh random identifier.
    pub fn new() -> Self {
        EventId(random_id_bits())
    }

    pub fn from_u128(value: u128) -> (r: Self)
        ensures
            r == EventId(value),
    {
        EventId(value)
    }

    pub fn as_u128(&self) -> (r: u128)
        ensures
            r == self.0,
    {
        self.0
    }
}

} // verus!
