//! Type markers for identities, by which entities of one kind can be told
//! from those of another.

use crate::components::IdentityType;
use crate::world::IdentityRecord;
use vstd::prelude::*;

verus! {

/// Marks a natural person.
#[derive(Debug, Clone, Copy, PartialEq, Eq, Structural)]
pub struct PersonMarker;

/// Marks an organization.
#[derive(Debug, Clone, Copy, PartialEq, Eq, Structural)]
pub struct OrganizationMarker;

/// Marks an automated agent.
#[derive(Debug, Clone, Copy, PartialEq, Eq, Structural)]
pub struct AgentMarker;

/// The marker that an identity carries.
#[derive(Debug, Clone, Copy, PartialEq, Eq, Structural)]
pub enum IdentityMarker {
    Person(PersonMarker),
    Organization(OrganizationMarker),
    Agent(AgentMarker),
}

/// The marker for an identity type: persons and organizations have their
/// own, systems are agents, and external identities carry none.
pub open spec fn marker_of(identity_type: IdentityType) -> Option<IdentityMarker> {
    match identity_type {
        IdentityType::Person => Some(IdentityMarker::Person(PersonMarker)),
        IdentityType::Organization => Some(IdentityMarker::Organization(OrganizationMarker)),
        IdentityType::System => Some(IdentityMarker::Agent(AgentMarker)),
        IdentityType::External => None,
    }
}

/// The marker for an identity type.
pub fn marker_for(identity_type: IdentityType) -> (r: Option<IdentityMarker>)
    ensures
        r == marker_of(identity_type),
{
    match identity_type {
        IdentityType::Person => Some(IdentityMarker::Person(PersonMarker)),
        IdentityType::Organization => Some(IdentityMarker::Organization(OrganizationMarker)),
        IdentityType::System => Some(IdentityMarker::Agent(AgentMarker)),
        IdentityType::External => None,
    }
}

/// The markers of the given identities, one for each, in their order.
pub fn add_identity_markers_system(identities: &Vec<IdentityRecord>) -> (r: Vec<Option<IdentityMarker>>)
    ensures
        r@.len() == identities@.len(),
        forall|i: int|
            0 <= i < identities@.len() ==> #[trigger] r@[i] == marker_of(
                identities@[i].entity.identity_type,
            ),
{
    let mut markers: Vec<Option<IdentityMarker>> = Vec::new();
    let mut i: usize = 0;
    while i < identities.len()
        invariant
            i <= identities@.len(),
            markers@.len() == i,
            forall|k: int|
                0 <= k < i ==> #[trigger] markers@[k] == marker_of(
                    identities@[k].entity.identity_type,
                ),
        decreases identities@.len() - i,
    {
        markers.push(marker_for(identities[i].entity.identity_type));
        i += 1;
    }
    markers
}

} // verus!
