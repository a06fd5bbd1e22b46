//! Identity lifecycle: creation, change of status, merge and archive.

use crate::aggregate::IdentityAggregate;
use crate::commands::{
    ArchiveIdentityCommand, CreateIdentityCommand, InitialClaim, MergeIdentitiesCommand,
    UpdateIdentityCommand,
};
use crate::components::{
    IdentityClaim, IdentityEntity, IdentityMetadata, IdentityStatus, IdentityVerification,
    VerificationLevel,
};
use crate::error::{ErrorView, IdentityError, IdentityResult};
use crate::events::{IdentitiesMerged, IdentityArchived, IdentityCreated, IdentityUpdated};
use crate::ids::IdentityId;
use crate::time::Timestamp;
use crate::world::{
    identity_absent, identity_at, owned_workflow_count, touching_count, IdentityRecord,
    IdentityWorld,
};
use vstd::prelude::*;

verus! {

/// The claim that an identity holds for a claim made at its creation: not yet
/// verified, issued by the creator at the time of creation, without expiry.
pub open spec fn claim_from(initial: InitialClaim, issuer: IdentityId, now: Timestamp) -> IdentityClaim {
    IdentityClaim {
        claim_type: initial.claim_type,
        value: initial.value,
        verified: false,
        issuer: Some(issuer),
        issued_at: now,
        expires_at: None,
    }
}

/// The claims of a new identity are those that the command brought, one for
/// each entry of its list and in the order of the list. A claim type may
/// occur more than once in the list: every entry is recorded, none replaces
/// another, so that an identity can start with several claims of one type.
pub open spec fn claims_recorded(
    claims: Seq<IdentityClaim>,
    initial: Option<Vec<InitialClaim>>,
    issuer: IdentityId,
    now: Timestamp,
) -> bool {
    match initial {
        Some(list) => {
            &&& claims.len() == list@.len()
            &&& forall|i: int|
                0 <= i < list@.len() ==> #[trigger] claims[i] == claim_from(list@[i], issuer, now)
        },
        None => claims.len() == 0,
    }
}

/// The record of an identity that the command creates under the identifier
/// at the given time: pending, unverified, in its first version.
pub open spec fn record_created(
    record: IdentityRecord,
    command: CreateIdentityCommand,
    identity_id: IdentityId,
    now: Timestamp,
) -> bool {
    &&& record.entity == (IdentityEntity {
        identity_id,
        identity_type: command.identity_type,
        status: IdentityStatus::Pending,
    })
    &&& record.metadata == (IdentityMetadata {
        created_at: now,
        updated_at: now,
        created_by: Some(command.created_by),
        version: 0,
        tags: command.tags,
    })
    &&& record.verification == (IdentityVerification {
        verification_level: VerificationLevel::Unverified,
        verified_at: None,
        verified_by: None,
        verification_method: None,
    })
    &&& claims_recorded(record.claims@, command.initial_claims, command.created_by, now)
}

/// What creating an identity under a given identifier at a given time does.
/// An identifier that is in use is refused and the world stays as it was;
/// otherwise the new record is appended and the event tells of it.
pub open spec fn creation(
    before: IdentityWorld,
    command: CreateIdentityCommand,
    identity_id: IdentityId,
    now: Timestamp,
    after: IdentityWorld,
    r: IdentityResult<IdentityCreated>,
) -> bool {
    if !identity_absent(before.identities@, identity_id) {
        &&& r matches Err(e)
        &&& e@ == ErrorView::IdentityAlreadyExists("identifier already in use"@)
        &&& after == before
    } else {
        &&& r == Ok::<IdentityCreated, IdentityError>(
            IdentityCreated {
                identity_id,
                identity_type: command.identity_type,
                created_by: Some(command.created_by),
                created_at: now,
                external_reference: command.external_reference,
            },
        )
        &&& after.identities@.len() == before.identities@.len() + 1
        &&& after.identities@.drop_last() == before.identities@
        &&& record_created(after.identities@.last(), command, identity_id, now)
        &&& after.relationships == before.relationships
        &&& after.workflows == before.workflows
        &&& after.projections == before.projections
    }
}

fn claims_of(initial: &Option<Vec<InitialClaim>>, issuer: IdentityId, now: Timestamp) -> (r: Vec<
    IdentityClaim,
>)
    ensures
        claims_recorded(r@, *initial, issuer, now),
{
    let mut claims: Vec<IdentityClaim> = Vec::new();
    match initial {
        Some(list) => {
            let mut i: usize = 0;
            while i < list.len()
                invariant
                    i <= list@.len(),
                    claims@.len() == i,
                    forall|j: int|
                        0 <= j < i ==> #[trigger] claims@[j] == claim_from(list@[j], issuer, now),
                decreases list@.len() - i,
            {
                claims.push(
                    IdentityClaim {
                        claim_type: list[i].claim_type.clone(),
                        value: list[i].value.clone(),
                        verified: false,
                        issuer: Some(issuer),
                        issued_at: now,
                        expires_at: None,
                    },
                );
                i += 1;
            }
        },
        None => {},
    }
    claims
}

/// Creates an identity under the given identifier at the given time.
pub fn create_identity(
    world: &mut IdentityWorld,
    command: CreateIdentityCommand,
    identity_id: IdentityId,
    now: Timestamp,
) -> (r: IdentityResult<IdentityCreated>)
    ensures
        creation(*old(world), command, identity_id, now, *final(world), r),
        final(world).follows(*old(world)),
        old(world).wf() ==> final(world).wf(),
{
    let _ = IdentityAggregate::validate_create(&command, &world.identities);
    if world.find_identity(identity_id).is_some() {
        return Err(IdentityError::IdentityAlreadyExists("identifier already in use".to_string()));
    }
    let claims = claims_of(&command.initial_claims, command.created_by, now);
    let record = IdentityRecord {
        entity: IdentityEntity {
            identity_id,
            identity_type: command.identity_type,
            status: IdentityStatus::Pending,
        },
        metadata: IdentityMetadata {
            created_at: now,
            updated_at: now,
            created_by: Some(command.created_by),
            version: 0,
            tags: command.tags,
        },
        verification: IdentityVerification::unverified(),
        claims,
    };
    world.identities.push(record);
    assert(world.identities@.drop_last() == old(world).identities@);
    Ok(
        IdentityCreated {
            identity_id,
            identity_type: command.identity_type,
            created_by: Some(command.created_by),
            created_at: now,
            external_reference: command.external_reference,
        },
    )
}

/// Creates an identity under a fresh identifier, now. Whatever identifier and
/// time were drawn, the outcome is that of [`create_identity`] for them.
pub fn create_identity_system(world: &mut IdentityWorld, command: CreateIdentityCommand) -> (r:
    IdentityResult<IdentityCreated>)
    ensures
        exists|identity_id: IdentityId, now: Timestamp|
            creation(*old(world), command, identity_id, now, *final(world), r),
        final(world).follows(*old(world)),
        old(world).wf() ==> final(world).wf(),
{
    let identity_id = IdentityId::new();
    let now = Timestamp::now();
    create_identity(world, command, identity_id, now)
}

/// The record of an identity after its status was set at the given time.
pub open spec fn with_status(record: IdentityRecord, status: IdentityStatus, now: Timestamp) -> IdentityRecord {
    IdentityRecord {
        entity: IdentityEntity { status, ..record.entity },
        metadata: IdentityMetadata {
            updated_at: now,
            version: IdentityMetadata::next_version(record.metadata.version),
            ..record.metadata
        },
        ..record
    }
}

/// What an update does. An unknown identity and an update that the rules
/// object to are refused and change nothing; an update that asks for no new
/// status changes nothing either. A status that is not one step away from the
/// one the identity has, between pending and active or between active and
/// suspended, is refused as an invalid transition; any other is set, and the
/// metadata is stamped.
pub open spec fn update_outcome(
    before: IdentityWorld,
    command: UpdateIdentityCommand,
    now: Timestamp,
    after: IdentityWorld,
    r: IdentityResult<Option<IdentityUpdated>>,
) -> bool {
    if identity_absent(before.identities@, command.identity_id) {
        &&& r matches Err(e)
        &&& e@ == ErrorView::IdentityNotFound(command.identity_id)
        &&& after == before
    } else {
        forall|i: int|
            identity_at(before.identities@, command.identity_id, i) ==> {
                let record = before.identities@[i];
                match IdentityAggregate::update_verdict(record.entity, command) {
                    Some(verdict) => {
                        &&& r matches Err(e)
                        &&& e@ == verdict
                        &&& after == before
                    },
                    None => match command.new_status {
                        None => {
                            &&& r == Ok::<Option<IdentityUpdated>, IdentityError>(None)
                            &&& after == before
                        },
                        Some(new_status) => if !record.entity.status.update_allowed(new_status) {
                            &&& r matches Err(e)
                            &&& e@ == ErrorView::InvalidStatusTransition
                            &&& after == before
                        } else {
                            &&& r == Ok::<Option<IdentityUpdated>, IdentityError>(
                                Some(
                                    IdentityUpdated {
                                        identity_id: command.identity_id,
                                        old_status: record.entity.status,
                                        new_status,
                                        updated_by: command.updated_by,
                                        updated_at: now,
                                    },
                                ),
                            )
                            &&& after.identities@ == before.identities@.update(
                                i,
                                with_status(record, new_status, now),
                            )
                            &&& after.relationships == before.relationships
                            &&& after.workflows == before.workflows
                            &&& after.projections == before.projections
                        },
                    },
                }
            }
    }
}

/// Updates the status of an identity at the given time.
pub fn update_identity(world: &mut IdentityWorld, command: UpdateIdentityCommand, now: Timestamp) -> (r:
    IdentityResult<Option<IdentityUpdated>>)
    ensures
        update_outcome(*old(world), command, now, *final(world), r),
        final(world).follows(*old(world)),
        old(world).wf() ==> final(world).wf(),
{
    let i = match world.find_identity(command.identity_id) {
        Some(i) => i,
        None => {
            return Err(IdentityError::IdentityNotFound(command.identity_id));
        },
    };
    match IdentityAggregate::validate_update(&world.identities[i].entity, &command) {
        Err(e) => {
            return Err(e);
        },
        Ok(_) => {},
    }
    match command.new_status {
        None => Ok(None),
        Some(new_status) => {
            let old_status = world.identities[i].entity.status;
            if !old_status.can_update_to(&new_status) {
                return Err(IdentityError::InvalidStatusTransition);
            }
            world.identities[i].entity.status = new_status;
            world.identities[i].metadata.touch(now);
            assert(world.identities@ == old(world).identities@.update(
                i as int,
                with_status(old(world).identities@[i as int], new_status, now),
            ));
            Ok(
                Some(
                    IdentityUpdated {
                        identity_id: command.identity_id,
                        old_status,
                        new_status,
                        updated_by: command.updated_by,
                        updated_at: now,
                    },
                ),
            )
        },
    }
}

/// Updates the status of an identity, now.
pub fn update_identity_system(world: &mut IdentityWorld, command: UpdateIdentityCommand) -> (r:
    IdentityResult<Option<IdentityUpdated>>)
    ensures
        exists|now: Timestamp| update_outcome(*old(world), command, now, *final(world), r),
        final(world).follows(*old(world)),
        old(world).wf() ==> final(world).wf(),
{
    let now = Timestamp::now();
    update_identity(world, command, now)
}

/// The record of an identity after it was merged into another.
pub open spec fn merged_into(record: IdentityRecord, target: IdentityId) -> IdentityRecord {
    IdentityRecord {
        entity: IdentityEntity {
            status: IdentityStatus::Merged { merged_into: target },
            ..record.entity
        },
        ..record
    }
}

/// What stands against a merge beyond the rules: an identity cannot be merged
/// into itself, and an identity that has been merged takes no further part in
/// a merge, on either side.
pub open spec fn merge_objection(source: IdentityEntity, target: IdentityEntity) -> Option<ErrorView> {
    if source.identity_id == target.identity_id {
        Some(ErrorView::InvariantViolation("Cannot merge an identity into itself"@))
    } else if source.status is Merged || target.status is Merged {
        Some(ErrorView::IdentityMerged)
    } else {
        None
    }
}

/// What a merge does. Unknown identities are refused, then a merge that the
/// rules object to, then one that `merge_objection` stands against; a refused
/// merge changes nothing. Otherwise the source becomes merged
/// into the target and nothing else changes: the event counts the
/// relationships that start or end at the source and the workflows that it
/// owns, and names the higher of the two verification levels.
pub open spec fn merge_outcome(
    before: IdentityWorld,
    command: MergeIdentitiesCommand,
    now: Timestamp,
    after: IdentityWorld,
    r: IdentityResult<IdentitiesMerged>,
) -> bool {
    if identity_absent(before.identities@, command.source_identity) {
        &&& r matches Err(e)
        &&& e@ == ErrorView::IdentityNotFound(command.source_identity)
        &&& after == before
    } else if identity_absent(before.identities@, command.target_identity) {
        &&& r matches Err(e)
        &&& e@ == ErrorView::IdentityNotFound(command.target_identity)
        &&& after == before
    } else {
        forall|s: int, t: int|
            identity_at(before.identities@, command.source_identity, s) && identity_at(
                before.identities@,
                command.target_identity,
                t,
            ) ==> {
                let source = before.identities@[s];
                let target = before.identities@[t];
                match IdentityAggregate::merge_verdict(
                    source.entity,
                    target.entity,
                    source.verification.verification_level,
                    target.verification.verification_level,
                ) {
                    Some(verdict) => {
                        &&& r matches Err(e)
                        &&& e@ == verdict
                        &&& after == before
                    },
                    None => if merge_objection(source.entity, target.entity) is Some {
                        &&& r matches Err(e)
                        &&& Some(e@) == merge_objection(source.entity, target.entity)
                        &&& after == before
                    } else {
                        &&& r == Ok::<IdentitiesMerged, IdentityError>(
                            IdentitiesMerged {
                                source_identity: command.source_identity,
                                target_identity: command.target_identity,
                                merged_by: command.merged_by,
                                merged_at: now,
                                migrated_relationships: touching_count(
                                    before.relationships@,
                                    command.source_identity,
                                    before.relationships@.len() as int,
                                ) as usize,
                                migrated_workflows: owned_workflow_count(
                                    before.workflows@,
                                    command.source_identity,
                                    before.workflows@.len() as int,
                                ) as usize,
                                retained_verification_level: source.verification.verification_level.higher(
                                    target.verification.verification_level,
                                ),
                            },
                        )
                        &&& after.identities@ == before.identities@.update(
                            s,
                            merged_into(source, command.target_identity),
                        )
                        &&& after.relationships == before.relationships
                        &&& after.workflows == before.workflows
                        &&& after.projections == before.projections
                    },
                }
            }
    }
}

/// Merges one identity into another at the given time.
pub fn merge_identities(world: &mut IdentityWorld, command: MergeIdentitiesCommand, now: Timestamp) -> (r:
    IdentityResult<IdentitiesMerged>)
    ensures
        merge_outcome(*old(world), command, now, *final(world), r),
        final(world).follows(*old(world)),
        old(world).wf() ==> final(world).wf(),
{
    let s = match world.find_identity(command.source_identity) {
        Some(s) => s,
        None => {
            return Err(IdentityError::IdentityNotFound(command.source_identity));
        },
    };
    let t = match world.find_identity(command.target_identity) {
        Some(t) => t,
        None => {
            return Err(IdentityError::IdentityNotFound(command.target_identity));
        },
    };
    match IdentityAggregate::validate_merge(
        &world.identities[s].entity,
        &world.identities[t].entity,
        &world.identities[s].verification,
        &world.identities[t].verification,
    ) {
        Err(e) => {
            return Err(e);
        },
        Ok(_) => {},
    }
    if command.source_identity == command.target_identity {
        return Err(
            IdentityError::InvariantViolation("Cannot merge an identity into itself".to_string()),
        );
    }
    match (world.identities[s].entity.status, world.identities[t].entity.status) {
        (IdentityStatus::Merged { .. }, _) => {
            return Err(IdentityError::IdentityMerged);
        },
        (_, IdentityStatus::Merged { .. }) => {
            return Err(IdentityError::IdentityMerged);
        },
        _ => {},
    }
    let migrated_relationships = world.count_relationships_of(command.source_identity);
    let migrated_workflows = world.count_workflows_of(command.source_identity);
    let retained_verification_level = world.identities[s].verification.verification_level.max_with(
        &world.identities[t].verification.verification_level,
    );
    world.identities[s].entity.status = IdentityStatus::Merged {
        merged_into: command.target_identity,
    };
    assert(world.identities@ == old(world).identities@.update(
        s as int,
        merged_into(old(world).identities@[s as int], command.target_identity),
    ));
    Ok(
        IdentitiesMerged {
            source_identity: command.source_identity,
            target_identity: command.target_identity,
            merged_by: command.merged_by,
            merged_at: now,
            migrated_relationships,
            migrated_workflows,
            retained_verification_level,
        },
    )
}

/// Merges one identity into another, now.
pub fn merge_identities_system(world: &mut IdentityWorld, command: MergeIdentitiesCommand) -> (r:
    IdentityResult<IdentitiesMerged>)
    ensures
        exists|now: Timestamp| merge_outcome(*old(world), command, now, *final(world), r),
        final(world).follows(*old(world)),
        old(world).wf() ==> final(world).wf(),
{
    let now = Timestamp::now();
    merge_identities(world, command, now)
}

/// What an archive does. An unknown identity and an archive that the rules
/// object to are refused and change nothing; the rules are asked with the
/// number of relationships that start or end at the identity. Otherwise the
/// identity becomes archived and its metadata is stamped.
pub open spec fn archive_outcome(
    before: IdentityWorld,
    command: ArchiveIdentityCommand,
    now: Timestamp,
    after: IdentityWorld,
    r: IdentityResult<IdentityArchived>,
) -> bool {
    if identity_absent(before.identities@, command.identity_id) {
        &&& r matches Err(e)
        &&& e@ == ErrorView::IdentityNotFound(command.identity_id)
        &&& after == before
    } else {
        forall|i: int|
            identity_at(before.identities@, command.identity_id, i) ==> {
                let record = before.identities@[i];
                let active_relationships = touching_count(
                    before.relationships@,
                    command.identity_id,
                    before.relationships@.len() as int,
                ) as usize;
                match IdentityAggregate::archive_verdict(
                    record.entity,
                    active_relationships,
                    command.force,
                ) {
                    Some(verdict) => {
                        &&& r matches Err(e)
                        &&& e@ == verdict
                        &&& after == before
                    },
                    None => {
                        &&& r == Ok::<IdentityArchived, IdentityError>(
                            IdentityArchived {
                                identity_id: command.identity_id,
                                previous_status: record.entity.status,
                                archived_by: command.archived_by,
                                archived_at: now,
                                reason: command.reason,
                            },
                        )
                        &&& after.identities@ == before.identities@.update(
                            i,
                            with_status(record, IdentityStatus::Archived, now),
                        )
                        &&& after.relationships == before.relationships
                        &&& after.workflows == before.workflows
                        &&& after.projections == before.projections
                    },
                }
            }
    }
}

/// Archives an identity at the given time.
pub fn archive_identity(world: &mut IdentityWorld, command: ArchiveIdentityCommand, now: Timestamp) -> (r:
    IdentityResult<IdentityArchived>)
    ensures
        archive_outcome(*old(world), command, now, *final(world), r),
        final(world).follows(*old(world)),
        old(world).wf() ==> final(world).wf(),
{
    let i = match world.find_identity(command.identity_id) {
        Some(i) => i,
        None => {
            return Err(IdentityError::IdentityNotFound(command.identity_id));
        },
    };
    let active_relationships = world.count_relationships_of(command.identity_id);
    match IdentityAggregate::validate_archive(
        &world.identities[i].entity,
        active_relationships,
        command.force,
    ) {
        Err(e) => {
            return Err(e);
        },
        Ok(_) => {},
    }
    let previous_status = world.identities[i].entity.status;
    world.identities[i].entity.status = IdentityStatus::Archived;
    world.identities[i].metadata.touch(now);
    assert(world.identities@ == old(world).identities@.update(
        i as int,
        with_status(old(world).identities@[i as int], IdentityStatus::Archived, now),
    ));
    Ok(
        IdentityArchived {
            identity_id: command.identity_id,
            previous_status,
            archived_by: command.archived_by,
            archived_at: now,
            reason: command.reason,
        },
    )
}

/// Archives an identity, now.
pub fn archive_identity_system(world: &mut IdentityWorld, command: ArchiveIdentityCommand) -> (r:
    IdentityResult<IdentityArchived>)
    ensures
        exists|now: Timestamp| archive_outcome(*old(world), command, now, *final(world), r),
        final(world).follows(*old(world)),
        old(world).wf() ==> final(world).wf(),
{
    let now = Timestamp::now();
    archive_identity(world, command, now)
}

} // verus!
