//! Relationships between identities: establishing, validating, revoking,
//! expiring and traversing them.

use crate::aggregate::IdentityAggregate;
use crate::commands::{
    EstablishRelationshipCommand, RevokeRelationshipCommand, TraverseRelationshipsCommand,
    ValidateRelationshipCommand,
};
use crate::components::{IdentityRelationship, RelationshipType};
use crate::error::{ErrorView, IdentityError, IdentityResult};
use crate::events::{
    RelationshipEstablished, RelationshipExpired, RelationshipRevoked, RelationshipValidated,
    RelationshipsTraversed, TraversalPath,
};
use crate::ids::{IdentityId, RelationshipId};
use crate::time::Timestamp;
use crate::traversal::{
    all_started, breadth_first, traverse, walks_of, TraversalRules, Walk,
};
use crate::world::{
    edge_recorded, identity_absent, identity_active, identity_at, relationship_absent,
    relationship_at, relationships_sound, IdentityWorld,
};
use vstd::prelude::*;

verus! {

/// The relationship that a command establishes under the given identifier at
/// the given time.
pub open spec fn established(
    command: EstablishRelationshipCommand,
    relationship_id: RelationshipId,
    now: Timestamp,
) -> IdentityRelationship {
    IdentityRelationship {
        relationship_id,
        source_identity: command.from_identity,
        target_identity: command.to_identity,
        relationship_type: command.relationship_type,
        rules: command.rules,
        established_at: now,
        established_by: Some(command.established_by),
        metadata: command.metadata,
    }
}

/// What establishing a relationship under a given identifier at a given time
/// does. Unknown identities are refused. A relationship that is already
/// recorded, from the same identity to the same identity with the same type,
/// is left alone: nothing changes and no event is given. Otherwise the rules
/// decide, then the identifier must be free, and the relationship is appended.
pub open spec fn establishment(
    before: IdentityWorld,
    command: EstablishRelationshipCommand,
    relationship_id: RelationshipId,
    now: Timestamp,
    after: IdentityWorld,
    r: IdentityResult<Option<RelationshipEstablished>>,
) -> bool {
    if identity_absent(before.identities@, command.from_identity) {
        &&& r matches Err(e)
        &&& e@ == ErrorView::IdentityNotFound(command.from_identity)
        &&& after == before
    } else if identity_absent(before.identities@, command.to_identity) {
        &&& r matches Err(e)
        &&& e@ == ErrorView::IdentityNotFound(command.to_identity)
        &&& after == before
    } else if edge_recorded(
        before.relationships@,
        command.from_identity,
        command.to_identity,
        command.relationship_type,
    ) {
        &&& r == Ok::<Option<RelationshipEstablished>, IdentityError>(None)
        &&& after == before
    } else {
        forall|f: int, t: int|
            identity_at(before.identities@, command.from_identity, f) && identity_at(
                before.identities@,
                command.to_identity,
                t,
            ) ==> match IdentityAggregate::relationship_verdict(
                before.identities@[f].entity,
                before.identities@[t].entity,
                command.relationship_type,
            ) {
                Some(verdict) => {
                    &&& r matches Err(e)
                    &&& e@ == verdict
                    &&& after == before
                },
                None => if !relationship_absent(before.relationships@, relationship_id) {
                    &&& r matches Err(e)
                    &&& e@ == ErrorView::RelationshipConflict("identifier already in use"@)
                    &&& after == before
                } else {
                    &&& r == Ok::<Option<RelationshipEstablished>, IdentityError>(
                        Some(
                            RelationshipEstablished {
                                relationship_id,
                                from_identity: command.from_identity,
                                to_identity: command.to_identity,
                                relationship_type: command.relationship_type,
                                established_by: command.established_by,
                                established_at: now,
                            },
                        ),
                    )
                    &&& after.relationships@ == before.relationships@.push(
                        established(command, relationship_id, now),
                    )
                    &&& after.identities == before.identities
                    &&& after.workflows == before.workflows
                    &&& after.projections == before.projections
                },
            }
    }
}

/// Establishes a relationship under the given identifier at the given time.
pub fn establish_relationship(
    world: &mut IdentityWorld,
    command: EstablishRelationshipCommand,
    relationship_id: RelationshipId,
    now: Timestamp,
) -> (r: IdentityResult<Option<RelationshipEstablished>>)
    ensures
        establishment(*old(world), command, relationship_id, now, *final(world), r),
        final(world).follows(*old(world)),
        old(world).wf() ==> final(world).wf(),
{
    let f = match world.find_identity(command.from_identity) {
        Some(f) => f,
        None => {
            return Err(IdentityError::IdentityNotFound(command.from_identity));
        },
    };
    let t = match world.find_identity(command.to_identity) {
        Some(t) => t,
        None => {
            return Err(IdentityError::IdentityNotFound(command.to_identity));
        },
    };
    if world.has_edge(command.from_identity, command.to_identity, &command.relationship_type) {
        return Ok(None);
    }
    match IdentityAggregate::validate_relationship(
        &world.identities[f].entity,
        &world.identities[t].entity,
        &command.relationship_type,
    ) {
        Err(e) => {
            return Err(e);
        },
        Ok(_) => {},
    }
    if world.find_relationship(relationship_id).is_some() {
        return Err(IdentityError::RelationshipConflict("identifier already in use".to_string()));
    }
    let event = RelationshipEstablished {
        relationship_id,
        from_identity: command.from_identity,
        to_identity: command.to_identity,
        relationship_type: command.relationship_type.clone(),
        established_by: command.established_by,
        established_at: now,
    };
    world.relationships.push(
        IdentityRelationship {
            relationship_id,
            source_identity: command.from_identity,
            target_identity: command.to_identity,
            relationship_type: command.relationship_type,
            rules: command.rules,
            established_at: now,
            established_by: Some(command.established_by),
            metadata: command.metadata,
        },
    );
    Ok(Some(event))
}

/// Establishes a relationship under a fresh identifier, now.
pub fn establish_relationship_system(
    world: &mut IdentityWorld,
    command: EstablishRelationshipCommand,
) -> (r: IdentityResult<Option<RelationshipEstablished>>)
    ensures
        exists|relationship_id: RelationshipId, now: Timestamp|
            establishment(*old(world), command, relationship_id, now, *final(world), r),
        final(world).follows(*old(world)),
        old(world).wf() ==> final(world).wf(),
{
    let relationship_id = RelationshipId::new();
    let now = Timestamp::now();
    establish_relationship(world, command, relationship_id, now)
}

/// A relationship holds at `now` when both of its identities are there and
/// active and it has not expired.
pub open spec fn relationship_holds(
    world: IdentityWorld,
    rel: IdentityRelationship,
    now: Timestamp,
) -> bool {
    &&& identity_active(world.identities@, rel.source_identity)
    &&& identity_active(world.identities@, rel.target_identity)
    &&& !rel.expired(now)
}

/// What validating a relationship at a given time does. An unknown
/// relationship is refused. One that holds stays and is reported as valid.
/// One that does not hold is taken out and reported as invalid, with the
/// reason: identities that are not active come before an expiry.
pub open spec fn validation(
    before: IdentityWorld,
    command: ValidateRelationshipCommand,
    now: Timestamp,
    after: IdentityWorld,
    r: IdentityResult<RelationshipValidated>,
) -> bool {
    if relationship_absent(before.relationships@, command.relationship_id) {
        &&& r matches Err(e)
        &&& e@ == ErrorView::RelationshipNotFound(command.relationship_id)
        &&& after == before
    } else {
        forall|i: int|
            relationship_at(before.relationships@, command.relationship_id, i) ==> {
                let rel = before.relationships@[i];
                let endpoints_active = identity_active(before.identities@, rel.source_identity)
                    && identity_active(before.identities@, rel.target_identity);
                &&& r matches Ok(event)
                &&& event.relationship_id == command.relationship_id
                &&& event.validated_at == now
                &&& event.is_valid == relationship_holds(before, rel, now)
                &&& event.reason@ == (if !endpoints_active {
                    "One or both identities are not active"@
                } else if rel.expired(now) {
                    "Relationship has expired"@
                } else {
                    "Relationship is valid"@
                })
                &&& after.relationships@ == (if relationship_holds(before, rel, now) {
                    before.relationships@
                } else {
                    before.relationships@.remove(i)
                })
                &&& after.identities == before.identities
                &&& after.workflows == before.workflows
                &&& after.projections == before.projections
            }
    }
}

/// Validates a relationship at the given time.
pub fn validate_relationship_at(
    world: &mut IdentityWorld,
    command: ValidateRelationshipCommand,
    now: Timestamp,
) -> (r: IdentityResult<RelationshipValidated>)
    ensures
        validation(*old(world), command, now, *final(world), r),
        final(world).follows(*old(world)),
        old(world).wf() ==> final(world).wf(),
{
    let i = match world.find_relationship(command.relationship_id) {
        Some(i) => i,
        None => {
            return Err(IdentityError::RelationshipNotFound(command.relationship_id));
        },
    };
    let endpoints_active = world.is_identity_active(world.relationships[i].source_identity)
        && world.is_identity_active(world.relationships[i].target_identity);
    let expired = world.relationships[i].is_expired(&now);
    if !endpoints_active || expired {
        let _ = world.relationships.remove(i);
        let reason = if !endpoints_active {
            "One or both identities are not active".to_string()
        } else {
            "Relationship has expired".to_string()
        };
        Ok(
            RelationshipValidated {
                relationship_id: command.relationship_id,
                is_valid: false,
                reason,
                validated_at: now,
            },
        )
    } else {
        Ok(
            RelationshipValidated {
                relationship_id: command.relationship_id,
                is_valid: true,
                reason: "Relationship is valid".to_string(),
                validated_at: now,
            },
        )
    }
}

/// Validates a relationship, now.
pub fn validate_relationships_system(
    world: &mut IdentityWorld,
    command: ValidateRelationshipCommand,
) -> (r: IdentityResult<RelationshipValidated>)
    ensures
        exists|now: Timestamp| validation(*old(world), command, now, *final(world), r),
        final(world).follows(*old(world)),
        old(world).wf() ==> final(world).wf(),
{
    let now = Timestamp::now();
    validate_relationship_at(world, command, now)
}

/// What revoking a relationship at a given time does. An unknown relationship
/// is refused, and so is one whose rules do not allow revoking; otherwise the
/// relationship is taken out.
pub open spec fn revocation(
    before: IdentityWorld,
    command: RevokeRelationshipCommand,
    now: Timestamp,
    after: IdentityWorld,
    r: IdentityResult<RelationshipRevoked>,
) -> bool {
    if relationship_absent(before.relationships@, command.relationship_id) {
        &&& r matches Err(e)
        &&& e@ == ErrorView::RelationshipNotFound(command.relationship_id)
        &&& after == before
    } else {
        forall|i: int|
            relationship_at(before.relationships@, command.relationship_id, i) ==> if !before.relationships@[i].rules.can_revoke {
                &&& r matches Err(e)
                &&& e@ == ErrorView::InvalidOperation("Relationship cannot be revoked"@)
                &&& after == before
            } else {
                &&& r == Ok::<RelationshipRevoked, IdentityError>(
                    RelationshipRevoked {
                        relationship_id: command.relationship_id,
                        revoked_by: command.revoked_by,
                        revoked_at: now,
                        reason: Some(command.reason),
                    },
                )
                &&& after.relationships@ == before.relationships@.remove(i)
                &&& after.identities == before.identities
                &&& after.workflows == before.workflows
                &&& after.projections == before.projections
            }
    }
}

/// Revokes a relationship at the given time.
pub fn revoke_relationship(
    world: &mut IdentityWorld,
    command: RevokeRelationshipCommand,
    now: Timestamp,
) -> (r: IdentityResult<RelationshipRevoked>)
    ensures
        revocation(*old(world), command, now, *final(world), r),
        final(world).follows(*old(world)),
        old(world).wf() ==> final(world).wf(),
{
    let i = match world.find_relationship(command.relationship_id) {
        Some(i) => i,
        None => {
            return Err(IdentityError::RelationshipNotFound(command.relationship_id));
        },
    };
    if !world.relationships[i].rules.can_revoke {
        return Err(IdentityError::InvalidOperation("Relationship cannot be revoked".to_string()));
    }
    let _ = world.relationships.remove(i);
    Ok(
        RelationshipRevoked {
            relationship_id: command.relationship_id,
            revoked_by: command.revoked_by,
            revoked_at: now,
            reason: Some(command.reason),
        },
    )
}

/// Revokes a relationship, now.
pub fn revoke_relationship_system(world: &mut IdentityWorld, command: RevokeRelationshipCommand) -> (r:
    IdentityResult<RelationshipRevoked>)
    ensures
        exists|now: Timestamp| revocation(*old(world), command, now, *final(world), r),
        final(world).follows(*old(world)),
        old(world).wf() ==> final(world).wf(),
{
    let now = Timestamp::now();
    revoke_relationship(world, command, now)
}

/// The event that tells of a relationship's expiry.
pub open spec fn expiry_of(rel: IdentityRelationship, expired_at: Timestamp) -> RelationshipExpired {
    RelationshipExpired {
        relationship_id: rel.relationship_id,
        from_identity: rel.source_identity,
        to_identity: rel.target_identity,
        relationship_type: rel.relationship_type,
        expired_at,
    }
}

/// The relationships among the first `n` that have not expired at `now`, in
/// their order.
pub open spec fn unexpired(rels: Seq<IdentityRelationship>, now: Timestamp, n: int) -> Seq<
    IdentityRelationship,
>
    decreases n,
{
    if n <= 0 {
        Seq::empty()
    } else if rels[n - 1].expired(now) {
        unexpired(rels, now, n - 1)
    } else {
        unexpired(rels, now, n - 1).push(rels[n - 1])
    }
}

/// The expiry events for the relationships among the first `n` that have
/// expired at `now`, in their order. Each gives the moment at which its
/// relationship was due to expire.
pub open spec fn expiries(rels: Seq<IdentityRelationship>, now: Timestamp, n: int) -> Seq<
    RelationshipExpired,
>
    decreases n,
{
    if n <= 0 {
        Seq::empty()
    } else if rels[n - 1].expired(now) {
        expiries(rels, now, n - 1).push(expiry_of(rels[n - 1], rels[n - 1].rules.expires_at->0))
    } else {
        expiries(rels, now, n - 1)
    }
}

/// The relationships among the first `n` that the test keeps, in their order.
pub open spec fn kept(
    rels: Seq<IdentityRelationship>,
    keep: spec_fn(IdentityRelationship) -> bool,
    n: int,
) -> Seq<IdentityRelationship>
    decreases n,
{
    if n <= 0 {
        Seq::empty()
    } else if keep(rels[n - 1]) {
        kept(rels, keep, n - 1).push(rels[n - 1])
    } else {
        kept(rels, keep, n - 1)
    }
}

/// The test that a relationship has not expired at `now`.
pub open spec fn not_expired(now: Timestamp) -> spec_fn(IdentityRelationship) -> bool {
    |rel: IdentityRelationship| !rel.expired(now)
}

/// The test that a relationship holds in the world at `now`.
pub open spec fn holds_in(world: IdentityWorld, now: Timestamp) -> spec_fn(IdentityRelationship) -> bool {
    |rel: IdentityRelationship| relationship_holds(world, rel, now)
}

proof fn lemma_kept_sound(
    rels: Seq<IdentityRelationship>,
    keep: spec_fn(IdentityRelationship) -> bool,
    n: int,
)
    requires
        relationships_sound(rels),
        0 <= n <= rels.len(),
    ensures
        relationships_sound(kept(rels, keep, n)),
        forall|k: int|
            0 <= k < kept(rels, keep, n).len() ==> exists|j: int|
                0 <= j < n && rels[j] == #[trigger] kept(rels, keep, n)[k],
    decreases n,
{
    if n > 0 {
        lemma_kept_sound(rels, keep, n - 1);
        let before = kept(rels, keep, n - 1);
        let after = kept(rels, keep, n);
        if keep(rels[n - 1]) {
            assert forall|k: int| 0 <= k < after.len() implies exists|j: int|
                0 <= j < n && rels[j] == #[trigger] after[k] by {
                if k < before.len() {
                    let j = choose|j: int| 0 <= j < n - 1 && rels[j] == before[k];
                    assert(rels[j] == after[k]);
                } else {
                    assert(rels[n - 1] == after[k]);
                }
            }
            assert forall|i: int, j: int| 0 <= i < j < after.len() implies (
            #[trigger] after[i]).relationship_id != (#[trigger] after[j]).relationship_id && !({
                &&& after[i].source_identity == after[j].source_identity
                &&& after[i].target_identity == after[j].target_identity
                &&& after[i].relationship_type.same_as(after[j].relationship_type)
            }) by {
                if j < before.len() {
                    assert(before[i].relationship_id != before[j].relationship_id);
                } else {
                    let a = choose|a: int| 0 <= a < n - 1 && rels[a] == before[i];
                    assert(rels[a].relationship_id != rels[n - 1].relationship_id);
                }
            }
            assert forall|i: int| 0 <= i < after.len() implies (#[trigger] after[i]).source_identity
                != after[i].target_identity by {
                let a = choose|a: int| 0 <= a < n && rels[a] == after[i];
                assert(rels[a].source_identity != rels[a].target_identity);
            }
        } else {
            assert forall|k: int| 0 <= k < after.len() implies exists|j: int|
                0 <= j < n && rels[j] == #[trigger] after[k] by {
                let j = choose|j: int| 0 <= j < n - 1 && rels[j] == before[k];
                assert(rels[j] == after[k]);
            }
        }
    }
}

proof fn lemma_unexpired_is_kept(rels: Seq<IdentityRelationship>, now: Timestamp, n: int)
    requires
        0 <= n <= rels.len(),
    ensures
        unexpired(rels, now, n) == kept(rels, not_expired(now), n),
    decreases n,
{
    if n > 0 {
        lemma_unexpired_is_kept(rels, now, n - 1);
    }
}

/// Takes every relationship that has expired at `now` out of the world and
/// tells of each by an event.
pub fn expire_relationships(world: &mut IdentityWorld, now: Timestamp) -> (r: Vec<RelationshipExpired>)
    ensures
        final(world).relationships@ == unexpired(
            old(world).relationships@,
            now,
            old(world).relationships@.len() as int,
        ),
        r@ == expiries(old(world).relationships@, now, old(world).relationships@.len() as int),
        final(world).identities == old(world).identities,
        final(world).workflows == old(world).workflows,
        final(world).projections == old(world).projections,
        final(world).follows(*old(world)),
        old(world).wf() ==> final(world).wf(),
{
    let mut kept: Vec<IdentityRelationship> = Vec::new();
    let mut events: Vec<RelationshipExpired> = Vec::new();
    let mut i: usize = 0;
    while i < world.relationships.len()
        invariant
            i <= world.relationships@.len(),
            *world == *old(world),
            kept@ == unexpired(world.relationships@, now, i as int),
            events@ == expiries(world.relationships@, now, i as int),
        decreases world.relationships@.len() - i,
    {
        let rel = &world.relationships[i];
        match rel.rules.expires_at {
            Some(at) => {
                if at.is_before(&now) {
                    events.push(
                        RelationshipExpired {
                            relationship_id: rel.relationship_id,
                            from_identity: rel.source_identity,
                            to_identity: rel.target_identity,
                            relationship_type: rel.relationship_type.clone(),
                            expired_at: at,
                        },
                    );
                } else {
                    kept.push(rel.clone());
                }
            },
            None => {
                kept.push(rel.clone());
            },
        }
        i += 1;
    }
    proof {
        if old(world).wf() {
            let n = old(world).relationships@.len() as int;
            lemma_unexpired_is_kept(old(world).relationships@, now, n);
            lemma_kept_sound(old(world).relationships@, not_expired(now), n);
        }
    }
    world.relationships = kept;
    events
}

/// Takes every relationship that has expired out of the world, now.
pub fn expire_relationships_system(world: &mut IdentityWorld) -> (r: Vec<RelationshipExpired>)
    ensures
        exists|now: Timestamp|
            {
                &&& final(world).relationships@ == unexpired(
                    old(world).relationships@,
                    now,
                    old(world).relationships@.len() as int,
                )
                &&& r@ == #[trigger] expiries(
                    old(world).relationships@,
                    now,
                    old(world).relationships@.len() as int,
                )
            },
        final(world).identities == old(world).identities,
        final(world).workflows == old(world).workflows,
        final(world).projections == old(world).projections,
        final(world).follows(*old(world)),
        old(world).wf() ==> final(world).wf(),
{
    let now = Timestamp::now();
    expire_relationships(world, now)
}

/// The relationships among the first `n` that hold in the world at `now`,
/// in their order.
pub open spec fn holding(world: IdentityWorld, now: Timestamp, n: int) -> Seq<IdentityRelationship>
    decreases n,
{
    if n <= 0 {
        Seq::empty()
    } else if relationship_holds(world, world.relationships@[n - 1], now) {
        holding(world, now, n - 1).push(world.relationships@[n - 1])
    } else {
        holding(world, now, n - 1)
    }
}

/// The relationships among the first `n` that do not hold in the world at
/// `now`, in their order.
pub open spec fn failing(world: IdentityWorld, now: Timestamp, n: int) -> Seq<IdentityRelationship>
    decreases n,
{
    if n <= 0 {
        Seq::empty()
    } else if relationship_holds(world, world.relationships@[n - 1], now) {
        failing(world, now, n - 1)
    } else {
        failing(world, now, n - 1).push(world.relationships@[n - 1])
    }
}

/// The event tells that the relationship does not hold at `now`, and why:
/// identities that are not active come before an expiry.
pub open spec fn invalidation(
    world: IdentityWorld,
    rel: IdentityRelationship,
    now: Timestamp,
    event: RelationshipValidated,
) -> bool {
    &&& event.relationship_id == rel.relationship_id
    &&& !event.is_valid
    &&& event.validated_at == now
    &&& event.reason@ == (if identity_active(world.identities@, rel.source_identity)
        && identity_active(world.identities@, rel.target_identity) {
        "Relationship has expired"@
    } else {
        "One or both identities are not active"@
    })
}

/// What releasing at a given time does: every relationship that no longer
/// holds, because one of its identities has left the active status or
/// because it has expired, is taken out and reported as invalid; those that
/// hold stay, and nothing else changes.
pub open spec fn release(
    before: IdentityWorld,
    now: Timestamp,
    after: IdentityWorld,
    events: Seq<RelationshipValidated>,
) -> bool {
    let n = before.relationships@.len() as int;
    &&& after.relationships@ == holding(before, now, n)
    &&& events.len() == failing(before, now, n).len()
    &&& forall|k: int|
        0 <= k < events.len() ==> invalidation(
            before,
            failing(before, now, n)[k],
            now,
            #[trigger] events[k],
        )
    &&& after.identities == before.identities
    &&& after.workflows == before.workflows
    &&& after.projections == before.projections
}

proof fn lemma_holding_is_kept(world: IdentityWorld, now: Timestamp, n: int)
    requires
        0 <= n <= world.relationships@.len(),
    ensures
        holding(world, now, n) == kept(world.relationships@, holds_in(world, now), n),
    decreases n,
{
    if n > 0 {
        lemma_holding_is_kept(world, now, n - 1);
    }
}

/// Takes every relationship that no longer holds at `now` out of the world
/// and reports each as invalid.
pub fn release_relationships(world: &mut IdentityWorld, now: Timestamp) -> (r: Vec<RelationshipValidated>)
    ensures
        release(*old(world), now, *final(world), r@),
        final(world).follows(*old(world)),
        old(world).wf() ==> final(world).wf(),
{
    let mut staying: Vec<IdentityRelationship> = Vec::new();
    let mut events: Vec<RelationshipValidated> = Vec::new();
    let mut i: usize = 0;
    while i < world.relationships.len()
        invariant
            i <= world.relationships@.len(),
            *world == *old(world),
            staying@ == holding(*world, now, i as int),
            events@.len() == failing(*world, now, i as int).len(),
            forall|k: int|
                0 <= k < events@.len() ==> invalidation(
                    *world,
                    failing(*world, now, i as int)[k],
                    now,
                    #[trigger] events@[k],
                ),
        decreases world.relationships@.len() - i,
    {
        let endpoints_active = world.is_identity_active(world.relationships[i].source_identity)
            && world.is_identity_active(world.relationships[i].target_identity);
        let expired = world.relationships[i].is_expired(&now);
        if endpoints_active && !expired {
            staying.push(world.relationships[i].clone());
        } else {
            let reason = if !endpoints_active {
                "One or both identities are not active".to_string()
            } else {
                "Relationship has expired".to_string()
            };
            events.push(
                RelationshipValidated {
                    relationship_id: world.relationships[i].relationship_id,
                    is_valid: false,
                    reason,
                    validated_at: now,
                },
            );
        }
        i += 1;
    }
    proof {
        if old(world).wf() {
            let n = old(world).relationships@.len() as int;
            lemma_holding_is_kept(*old(world), now, n);
            lemma_kept_sound(old(world).relationships@, holds_in(*old(world), now), n);
        }
    }
    world.relationships = staying;
    events
}

/// Takes every relationship that no longer holds out of the world, now.
pub fn release_relationships_system(world: &mut IdentityWorld) -> (r: Vec<RelationshipValidated>)
    ensures
        exists|now: Timestamp| release(*old(world), now, *final(world), r@),
        final(world).follows(*old(world)),
        old(world).wf() ==> final(world).wf(),
{
    let now = Timestamp::now();
    release_relationships(world, now)
}

/// The walks among the first `n` after the start that end at the identity
/// asked for. Without such an identity there are none.
pub open spec fn walks_to(walks: Seq<Walk>, to: Option<IdentityId>, n: int) -> Seq<Walk>
    decreases n,
{
    if n <= 1 {
        Seq::empty()
    } else if to == Some(walks[n - 1].end()) {
        walks_to(walks, to, n - 1).push(walks[n - 1])
    } else {
        walks_to(walks, to, n - 1)
    }
}

/// What a traversal at a given time does. Expired relationships are swept out
/// first, each with its event. Then the graph that is left is searched
/// breadth-first from the start, by the rules of a command: relationships are
/// followed from source to target, and a type passes the allow-list when the
/// list names a type of the same variant. The event holds the walks that end
/// at the identity asked for and counts every identity that was visited, the
/// start among them.
pub open spec fn traversal(
    before: IdentityWorld,
    command: TraverseRelationshipsCommand,
    now: Timestamp,
    after: IdentityWorld,
    expired: Seq<RelationshipExpired>,
    event: RelationshipsTraversed,
) -> bool {
    let walks = breadth_first(
        after.relationships@,
        command.from_identity,
        command.max_depth,
        TraversalRules::of_command(command.relationship_filter),
        now,
    );
    &&& after.relationships@ == unexpired(
        before.relationships@,
        now,
        before.relationships@.len() as int,
    )
    &&& expired == expiries(before.relationships@, now, before.relationships@.len() as int)
    &&& after.identities == before.identities
    &&& after.workflows == before.workflows
    &&& after.projections == before.projections
    &&& event.from_identity == command.from_identity
    &&& event.to_identity == command.to_identity
    &&& event.traversed_at == now
    &&& event.total_identities_visited == walks.len()
    &&& walks_of(event.paths@) == walks_to(walks, command.to_identity, walks.len() as int)
}

/// What a traversal gives back: the expiry events of the sweep that came
/// first, and the event that holds what was found.
#[derive(Debug)]
pub struct TraversalOutcome {
    pub expired: Vec<RelationshipExpired>,
    pub traversed: RelationshipsTraversed,
}

fn paths_to(walks: &Vec<TraversalPath>, to: Option<IdentityId>) -> (r: Vec<TraversalPath>)
    requires
        all_started(walks@),
    ensures
        walks_of(r@) == walks_to(walks_of(walks@), to, walks@.len() as int),
{
    let mut out: Vec<TraversalPath> = Vec::new();
    if walks.len() < 2 {
        return out;
    }
    let mut i: usize = 1;
    while i < walks.len()
        invariant
            1 <= i <= walks@.len(),
            all_started(walks@),
            walks_of(out@) == walks_to(walks_of(walks@), to, i as int),
        decreases walks@.len() - i,
    {
        let last: usize = walks[i].identities.len() - 1;
        let end = walks[i].identities[last];
        let hit = match to {
            Some(target) => target == end,
            None => false,
        };
        assert(hit == (to == Some(walks_of(walks@)[i as int].end())));
        if hit {
            let ghost so_far = walks_of(out@);
            out.push(walks[i].clone());
            assert(walks_of(out@) =~= so_far.push(walks_of(walks@)[i as int]));
        }
        i += 1;
    }
    out
}

/// Traverses the relationship graph at the given time.
pub fn traverse_relationships(
    world: &mut IdentityWorld,
    command: TraverseRelationshipsCommand,
    now: Timestamp,
) -> (r: TraversalOutcome)
    ensures
        traversal(*old(world), command, now, *final(world), r.expired@, r.traversed),
        forall|k: int|
            0 <= k < r.traversed.paths@.len() ==> {
                let walk = #[trigger] r.traversed.paths@[k]@;
                &&& walk.identities.no_duplicates()
                &&& walk.identities[0] == command.from_identity
                &&& command.to_identity == Some(walk.end())
                &&& command.max_depth matches Some(d) ==> walk.depth() <= d
            },
        final(world).follows(*old(world)),
        old(world).wf() ==> final(world).wf(),
{
    let expired = expire_relationships(world, now);
    let rules = TraversalRules::for_command(command.relationship_filter);
    let walks = traverse(
        &world.relationships,
        command.from_identity,
        command.max_depth,
        &rules,
        now,
    );
    let paths = paths_to(&walks, command.to_identity);
    proof {
        lemma_walks_to_members(walks_of(walks@), command.to_identity, walks@.len() as int);
        assert forall|k: int| 0 <= k < paths@.len() implies {
            let walk = #[trigger] paths@[k]@;
            &&& walk.identities.no_duplicates()
            &&& walk.identities[0] == command.from_identity
            &&& command.to_identity == Some(walk.end())
            &&& command.max_depth matches Some(d) ==> walk.depth() <= d
        } by {
            assert(walks_of(paths@)[k] == paths@[k]@);
            let found = walks_to(walks_of(walks@), command.to_identity, walks@.len() as int);
            let j = choose|j: int| 1 <= j < walks@.len() && walks_of(walks@)[j] == found[k];
            assert(walks_of(walks@)[j] == paths@[k]@);
        }
    }
    let total_identities_visited = walks.len();
    TraversalOutcome {
        expired,
        traversed: RelationshipsTraversed {
            from_identity: command.from_identity,
            to_identity: command.to_identity,
            paths,
            total_identities_visited,
            traversed_at: now,
        },
    }
}

proof fn lemma_walks_to_members(walks: Seq<Walk>, to: Option<IdentityId>, n: int)
    requires
        0 <= n <= walks.len(),
    ensures
        forall|k: int|
            0 <= k < walks_to(walks, to, n).len() ==> exists|j: int|
                1 <= j < n && walks[j] == #[trigger] walks_to(walks, to, n)[k] && to == Some(
                    walks[j].end(),
                ),
    decreases n,
{
    if n > 1 {
        lemma_walks_to_members(walks, to, n - 1);
        let before = walks_to(walks, to, n - 1);
        let found = walks_to(walks, to, n);
        assert forall|k: int| 0 <= k < found.len() implies exists|j: int|
            1 <= j < n && walks[j] == #[trigger] found[k] && to == Some(walks[j].end()) by {
            if k < before.len() {
                let j = choose|j: int|
                    1 <= j < n - 1 && walks[j] == before[k] && to == Some(walks[j].end());
                assert(walks[j] == found[k]);
            } else {
                assert(walks[n - 1] == found[k]);
            }
        }
    }
}

/// Traverses the relationship graph, now.
pub fn traverse_relationships_system(
    world: &mut IdentityWorld,
    command: TraverseRelationshipsCommand,
) -> (r: TraversalOutcome)
    ensures
        exists|now: Timestamp|
            traversal(*old(world), command, now, *final(world), r.expired@, r.traversed),
        forall|k: int|
            0 <= k < r.traversed.paths@.len() ==> {
                let walk = #[trigger] r.traversed.paths@[k]@;
                &&& walk.identities.no_duplicates()
                &&& walk.identities[0] == command.from_identity
                &&& command.to_identity == Some(walk.end())
                &&& command.max_depth matches Some(d) ==> walk.depth() <= d
            },
        final(world).follows(*old(world)),
        old(world).wf() ==> final(world).wf(),
{
    let now = Timestamp::now();
    traverse_relationships(world, command, now)
}

} // verus!
