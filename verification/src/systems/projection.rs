//! Projections of identities into other domains.

use crate::commands::{CreateProjectionCommand, SyncProjectionsCommand};
use crate::components::{
    CrossDomainReference, IdentityProjection, ProjectionSyncStatus, ProjectionType,
};
use crate::events::{
    IdentityCreated, IdentityLinkedToOrganization, IdentityLinkedToPerson, ProjectionCreated,
    ProjectionsSynced,
};
use crate::ids::{parse_uuid_text, random_id_bits, uuid_text_value, IdentityId};
use crate::text::text_is;
use crate::time::Timestamp;
use crate::world::{identity_absent, IdentityWorld};
use vstd::prelude::*;

verus! {

/// What creating a projection under given identifiers at a given time does:
/// the projection is appended, waiting for its first synchronization.
pub open spec fn projection_creation(
    before: IdentityWorld,
    command: CreateProjectionCommand,
    projection_id: u128,
    target_id: u128,
    now: Timestamp,
    after: IdentityWorld,
    event: ProjectionCreated,
) -> bool {
    &&& after.projections@ == before.projections@.push(
        IdentityProjection {
            identity_id: command.identity_id,
            projection_type: command.projection_type,
            target_domain: command.target_domain,
            sync_status: ProjectionSyncStatus::Pending,
            last_sync: now,
            last_synced: now,
        },
    )
    &&& event == (ProjectionCreated {
        projection_id,
        identity_id: command.identity_id,
        projection_type: command.projection_type,
        target_domain: command.target_domain,
        target_id,
        created_at: now,
    })
    &&& after.identities == before.identities
    &&& after.relationships == before.relationships
    &&& after.workflows == before.workflows
}

/// Creates a projection under the given identifiers at the given time.
pub fn create_projection(
    world: &mut IdentityWorld,
    command: CreateProjectionCommand,
    projection_id: u128,
    target_id: u128,
    now: Timestamp,
) -> (r: ProjectionCreated)
    ensures
        projection_creation(*old(world), command, projection_id, target_id, now, *final(world), r),
        final(world).follows(*old(world)),
        old(world).wf() ==> final(world).wf(),
{
    let event = ProjectionCreated {
        projection_id,
        identity_id: command.identity_id,
        projection_type: command.projection_type,
        target_domain: command.target_domain.clone(),
        target_id,
        created_at: now,
    };
    world.projections.push(
        IdentityProjection {
            identity_id: command.identity_id,
            projection_type: command.projection_type,
            target_domain: command.target_domain,
            sync_status: ProjectionSyncStatus::Pending,
            last_sync: now,
            last_synced: now,
        },
    );
    event
}

/// Creates a projection under fresh identifiers, now.
pub fn create_projection_system(world: &mut IdentityWorld, command: CreateProjectionCommand) -> (r:
    ProjectionCreated)
    ensures
        exists|projection_id: u128, target_id: u128, now: Timestamp|
            projection_creation(
                *old(world),
                command,
                projection_id,
                target_id,
                now,
                *final(world),
                r,
            ),
        final(world).follows(*old(world)),
        old(world).wf() ==> final(world).wf(),
{
    let projection_id: u128 = random_id_bits();
    let target_id: u128 = random_id_bits();
    let now = Timestamp::now();
    create_projection(world, command, projection_id, target_id, now)
}

/// The link into another domain that a newly created identity gives rise to.
#[derive(Debug)]
pub enum ProjectionLink {
    Unlinked,
    Person(IdentityLinkedToPerson),
    Organization(IdentityLinkedToOrganization),
}

/// The link for a reference whose entity identifier was read as `parsed`. A
/// reference into the person domain links to a person, one into the
/// organization domain to an organization; without a reference, with another
/// domain, or with an identifier that cannot be read there is no link.
pub open spec fn link_of(
    identity_id: IdentityId,
    reference: Option<CrossDomainReference>,
    parsed: Option<u128>,
    now: Timestamp,
    link: ProjectionLink,
) -> bool {
    match (reference, parsed) {
        (Some(found), Some(value)) => if found.domain@ == "person"@ {
            link == ProjectionLink::Person(
                IdentityLinkedToPerson { identity_id, person_id: value, linked_at: now },
            )
        } else if found.domain@ == "organization"@ {
            link == ProjectionLink::Organization(
                IdentityLinkedToOrganization {
                    identity_id,
                    organization_id: value,
                    role: None,
                    linked_at: now,
                },
            )
        } else {
            link is Unlinked
        },
        _ => link is Unlinked,
    }
}

/// The link for a reference whose entity identifier was read as `parsed`.
pub fn link_for(
    identity_id: IdentityId,
    reference: &Option<CrossDomainReference>,
    parsed: Option<u128>,
    now: Timestamp,
) -> (r: ProjectionLink)
    ensures
        link_of(identity_id, *reference, parsed, now, r),
{
    match (reference, parsed) {
        (Some(found), Some(value)) => {
            if text_is(&found.domain, "person") {
                ProjectionLink::Person(
                    IdentityLinkedToPerson { identity_id, person_id: value, linked_at: now },
                )
            } else if text_is(&found.domain, "organization") {
                ProjectionLink::Organization(
                    IdentityLinkedToOrganization {
                        identity_id,
                        organization_id: value,
                        role: None,
                        linked_at: now,
                    },
                )
            } else {
                ProjectionLink::Unlinked
            }
        },
        _ => ProjectionLink::Unlinked,
    }
}

/// The projection is the primary one of the identity within this domain.
pub open spec fn is_home_projection(projection: IdentityProjection, identity_id: IdentityId) -> bool {
    &&& projection.identity_id == identity_id
    &&& projection.projection_type is Primary
    &&& projection.target_domain@ == "identity"@
}

/// The place of the first primary projection of the identity within this
/// domain.
pub open spec fn home_projection_at(
    projections: Seq<IdentityProjection>,
    identity_id: IdentityId,
    k: int,
) -> bool {
    &&& 0 <= k < projections.len()
    &&& is_home_projection(projections[k], identity_id)
    &&& forall|j: int| 0 <= j < k ==> !is_home_projection(#[trigger] projections[j], identity_id)
}

/// The identity has no primary projection within this domain.
pub open spec fn home_projection_absent(
    projections: Seq<IdentityProjection>,
    identity_id: IdentityId,
) -> bool {
    forall|j: int|
        0 <= j < projections.len() ==> !is_home_projection(#[trigger] projections[j], identity_id)
}

/// What following the creation of an identity at a given time does to the
/// projections. The identity's primary projection within this domain is
/// synchronized as of `now`: it is added where there is none, and brought up
/// to date where there is one, so that there is never a second.
pub open spec fn projection_synced(
    before: IdentityWorld,
    identity_id: IdentityId,
    now: Timestamp,
    after: IdentityWorld,
) -> bool {
    &&& after.identities == before.identities
    &&& after.relationships == before.relationships
    &&& after.workflows == before.workflows
    &&& if home_projection_absent(before.projections@, identity_id) {
        &&& after.projections@.len() == before.projections@.len() + 1
        &&& after.projections@.drop_last() == before.projections@
        &&& is_home_projection(after.projections@.last(), identity_id)
        &&& after.projections@.last().sync_status is Synced
        &&& after.projections@.last().last_sync == now
        &&& after.projections@.last().last_synced == now
    } else {
        forall|k: int|
            home_projection_at(before.projections@, identity_id, k) ==> after.projections@
                == before.projections@.update(
                k,
                IdentityProjection {
                    sync_status: ProjectionSyncStatus::Synced,
                    last_sync: now,
                    last_synced: now,
                    ..before.projections@[k]
                },
            )
    }
}

fn find_home_projection(world: &IdentityWorld, identity_id: IdentityId) -> (r: Option<usize>)
    ensures
        match r {
            Some(k) => home_projection_at(world.projections@, identity_id, k as int),
            None => home_projection_absent(world.projections@, identity_id),
        },
{
    let mut k: usize = 0;
    while k < world.projections.len()
        invariant
            k <= world.projections@.len(),
            forall|j: int|
                0 <= j < k ==> !is_home_projection(#[trigger] world.projections@[j], identity_id),
        decreases world.projections@.len() - k,
    {
        let projection = &world.projections[k];
        let primary = match projection.projection_type {
            ProjectionType::Primary => true,
            _ => false,
        };
        if projection.identity_id == identity_id && primary && text_is(
            &projection.target_domain,
            "identity",
        ) {
            return Some(k);
        }
        k += 1;
    }
    None
}

/// Follows the creation of an identity at the given time, with the entity
/// identifier of its reference read as `parsed`.
pub fn sync_projections(
    world: &mut IdentityWorld,
    event: &IdentityCreated,
    parsed: Option<u128>,
    now: Timestamp,
) -> (r: ProjectionLink)
    ensures
        projection_synced(*old(world), event.identity_id, now, *final(world)),
        link_of(event.identity_id, event.external_reference, parsed, now, r),
        final(world).follows(*old(world)),
        old(world).wf() ==> final(world).wf(),
{
    match find_home_projection(world, event.identity_id) {
        Some(k) => {
            world.projections[k].sync_status = ProjectionSyncStatus::Synced;
            world.projections[k].last_sync = now;
            world.projections[k].last_synced = now;
            assert(world.projections@ == old(world).projections@.update(
                k as int,
                IdentityProjection {
                    sync_status: ProjectionSyncStatus::Synced,
                    last_sync: now,
                    last_synced: now,
                    ..old(world).projections@[k as int]
                },
            ));
        },
        None => {
            world.projections.push(
                IdentityProjection {
                    identity_id: event.identity_id,
                    projection_type: ProjectionType::Primary,
                    target_domain: "identity".to_string(),
                    sync_status: ProjectionSyncStatus::Synced,
                    last_sync: now,
                    last_synced: now,
                },
            );
            assert(world.projections@.drop_last() == old(world).projections@);
        },
    }
    link_for(event.identity_id, &event.external_reference, parsed, now)
}

/// What the entity identifier of an optional reference reads as.
pub open spec fn reference_value(reference: Option<CrossDomainReference>) -> Option<u128> {
    match reference {
        Some(found) => uuid_text_value(found.entity_id@),
        None => None,
    }
}

/// Follows the creation of an identity, now.
pub fn sync_projections_system(world: &mut IdentityWorld, event: &IdentityCreated) -> (r:
    ProjectionLink)
    ensures
        exists|now: Timestamp|
            {
                &&& #[trigger] projection_synced(
                    *old(world),
                    event.identity_id,
                    now,
                    *final(world),
                )
                &&& link_of(
                    event.identity_id,
                    event.external_reference,
                    reference_value(event.external_reference),
                    now,
                    r,
                )
            },
        final(world).follows(*old(world)),
        old(world).wf() ==> final(world).wf(),
{
    let parsed = match &event.external_reference {
        Some(found) => parse_uuid_text(found.entity_id.as_str()),
        None => None,
    };
    let now = Timestamp::now();
    sync_projections(world, event, parsed, now)
}

/// The projections among the first `n` whose identity is not known.
pub open spec fn orphaned_count(world: IdentityWorld, n: int) -> int
    decreases n,
{
    if n <= 0 {
        0
    } else {
        orphaned_count(world, n - 1) + if identity_absent(
            world.identities@,
            world.projections@[n - 1].identity_id,
        ) {
            1int
        } else {
            0int
        }
    }
}

/// Counts the projections whose identity is not known.
pub fn validate_projection_system(world: &IdentityWorld) -> (r: usize)
    ensures
        r == orphaned_count(*world, world.projections@.len() as int),
{
    let mut count: usize = 0;
    let mut i: usize = 0;
    while i < world.projections.len()
        invariant
            i <= world.projections@.len(),
            count <= i,
            count == orphaned_count(*world, i as int),
        decreases world.projections@.len() - i,
    {
        if world.find_identity(world.projections[i].identity_id).is_none() {
            count += 1;
        }
        i += 1;
    }
    count
}

/// A synchronization concerns a projection when the projection belongs to
/// the identity and is of the type that the command names, where it names
/// any, and is out of date or the command forces it.
pub open spec fn sync_wanted(command: SyncProjectionsCommand, projection: IdentityProjection) -> bool {
    &&& command.identity_id matches Some(id) ==> projection.identity_id == id
    &&& command.projection_type matches Some(wanted) ==> projection.projection_type == wanted
    &&& command.force || !(projection.sync_status is Synced)
}

/// A projection that a synchronization concerns cannot be brought up to date
/// when its identity is not known.
pub open spec fn sync_fails(
    world: IdentityWorld,
    command: SyncProjectionsCommand,
    projection: IdentityProjection,
) -> bool {
    sync_wanted(command, projection) && identity_absent(world.identities@, projection.identity_id)
}

/// How a projection comes out of a synchronization at `now`. One that the
/// synchronization does not concern stays as it is. One whose identity is
/// known is synchronized as of `now`; one whose identity is not known has
/// failed.
pub open spec fn resynced(
    world: IdentityWorld,
    command: SyncProjectionsCommand,
    now: Timestamp,
    before: IdentityProjection,
    after: IdentityProjection,
) -> bool {
    if !sync_wanted(command, before) {
        after == before
    } else if sync_fails(world, command, before) {
        &&& after.sync_status matches ProjectionSyncStatus::Failed(reason) && reason@
            == "Identity not found"@
        &&& after.identity_id == before.identity_id
        &&& after.projection_type == before.projection_type
        &&& after.target_domain == before.target_domain
        &&& after.last_sync == before.last_sync
        &&& after.last_synced == before.last_synced
    } else {
        after == (IdentityProjection {
            sync_status: ProjectionSyncStatus::Synced,
            last_sync: now,
            last_synced: now,
            ..before
        })
    }
}

/// The projections among the first `n` that a synchronization brings up to
/// date.
pub open spec fn synced_count(world: IdentityWorld, command: SyncProjectionsCommand, n: int) -> int
    decreases n,
{
    if n <= 0 {
        0
    } else {
        synced_count(world, command, n - 1) + if sync_wanted(command, world.projections@[n - 1])
            && !sync_fails(world, command, world.projections@[n - 1]) {
            1int
        } else {
            0int
        }
    }
}

/// The projections among the first `n` for which a synchronization fails.
pub open spec fn failed_count(world: IdentityWorld, command: SyncProjectionsCommand, n: int) -> int
    decreases n,
{
    if n <= 0 {
        0
    } else {
        failed_count(world, command, n - 1) + if sync_fails(world, command, world.projections@[n - 1]) {
            1int
        } else {
            0int
        }
    }
}

/// What a synchronization at a given time does: every projection comes out
/// of it as `resynced` tells, the event counts the successes and the
/// failures, and nothing else changes.
pub open spec fn synchronization(
    before: IdentityWorld,
    command: SyncProjectionsCommand,
    now: Timestamp,
    after: IdentityWorld,
    event: ProjectionsSynced,
) -> bool {
    &&& after.projections@.len() == before.projections@.len()
    &&& forall|i: int|
        0 <= i < before.projections@.len() ==> resynced(
            before,
            command,
            now,
            #[trigger] before.projections@[i],
            after.projections@[i],
        )
    &&& event == (ProjectionsSynced {
        identity_id: command.identity_id,
        projections_synced: synced_count(before, command, before.projections@.len() as int) as usize,
        sync_errors: failed_count(before, command, before.projections@.len() as int) as usize,
        synced_at: now,
    })
    &&& after.identities == before.identities
    &&& after.relationships == before.relationships
    &&& after.workflows == before.workflows
}

fn is_sync_wanted(command: &SyncProjectionsCommand, projection: &IdentityProjection) -> (r: bool)
    ensures
        r == sync_wanted(*command, *projection),
{
    let of_identity = match command.identity_id {
        Some(id) => projection.identity_id == id,
        None => true,
    };
    let of_type = match command.projection_type {
        Some(wanted) => projection.projection_type == wanted,
        None => true,
    };
    let synced = match projection.sync_status {
        ProjectionSyncStatus::Synced => true,
        _ => false,
    };
    of_identity && of_type && (command.force || !synced)
}

/// Synchronizes projections at the given time.
pub fn synchronize_projections(
    world: &mut IdentityWorld,
    command: SyncProjectionsCommand,
    now: Timestamp,
) -> (r: ProjectionsSynced)
    ensures
        synchronization(*old(world), command, now, *final(world), r),
        final(world).follows(*old(world)),
        old(world).wf() ==> final(world).wf(),
{
    let mut projections_synced: usize = 0;
    let mut sync_errors: usize = 0;
    let mut i: usize = 0;
    while i < world.projections.len()
        invariant
            i <= world.projections@.len(),
            world.projections@.len() == old(world).projections@.len(),
            world.identities == old(world).identities,
            world.relationships == old(world).relationships,
            world.workflows == old(world).workflows,
            projections_synced <= i,
            sync_errors <= i,
            projections_synced == synced_count(*old(world), command, i as int),
            sync_errors == failed_count(*old(world), command, i as int),
            forall|k: int|
                0 <= k < i ==> resynced(
                    *old(world),
                    command,
                    now,
                    #[trigger] old(world).projections@[k],
                    world.projections@[k],
                ),
            forall|k: int|
                i <= k < world.projections@.len() ==> #[trigger] world.projections@[k] == old(
                    world,
                ).projections@[k],
        decreases world.projections@.len() - i,
    {
        if is_sync_wanted(&command, &world.projections[i]) {
            if world.find_identity(world.projections[i].identity_id).is_some() {
                world.projections[i].sync_status = ProjectionSyncStatus::Synced;
                world.projections[i].last_sync = now;
                world.projections[i].last_synced = now;
                projections_synced += 1;
            } else {
                world.projections[i].sync_status = ProjectionSyncStatus::Failed(
                    "Identity not found".to_string(),
                );
                sync_errors += 1;
            }
        }
        i += 1;
    }
    ProjectionsSynced {
        identity_id: command.identity_id,
        projections_synced,
        sync_errors,
        synced_at: now,
    }
}

/// Synchronizes projections, now.
pub fn synchronize_projections_system(world: &mut IdentityWorld, command: SyncProjectionsCommand) -> (r:
    ProjectionsSynced)
    ensures
        exists|now: Timestamp| synchronization(*old(world), command, now, *final(world), r),
        final(world).follows(*old(world)),
        old(world).wf() ==> final(world).wf(),
{
    let now = Timestamp::now();
    synchronize_projections(world, command, now)
}

} // verus!
