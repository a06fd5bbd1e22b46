//! Identity lifecycle: creation, status changes, merge, archive, verification.

use cim_domain_identity::commands::InitialClaim;
use cim_domain_identity::systems::{
    archive_identity, create_identity, establish_relationship, merge_identities,
    process_verification, start_verification, update_identity, update_verification_claims_system,
};
use cim_domain_identity::{
    ArchiveIdentityCommand, ClaimType, CompleteVerificationCommand, CreateIdentityCommand,
    EstablishRelationshipCommand, IdentityError, IdentityId, IdentityStatus, IdentityType,
    IdentityWorld, MergeIdentitiesCommand, RelationshipId, RelationshipRules, RelationshipType,
    StartVerificationCommand, Timestamp, UpdateIdentityCommand, VerificationLevel,
    VerificationMethod,
};

fn at(millis: i64) -> Timestamp {
    Timestamp::from_millis(millis)
}

fn admin() -> IdentityId {
    IdentityId::from_u128(999)
}

fn add(world: &mut IdentityWorld, id: u128, identity_type: IdentityType) -> IdentityId {
    let identity_id = IdentityId::from_u128(id);
    let command = CreateIdentityCommand {
        identity_type,
        initial_claims: None,
        created_by: admin(),
        tags: Vec::new(),
        external_reference: None,
    };
    create_identity(world, command, identity_id, at(1_000)).unwrap();
    identity_id
}

fn verify_to(world: &mut IdentityWorld, identity_id: IdentityId, level: VerificationLevel) {
    let command = CompleteVerificationCommand {
        identity_id,
        verification_result: true,
        verification_level: level,
        verification_method: VerificationMethod::Email,
        verified_by: admin(),
    };
    process_verification(world, command, at(2_000)).unwrap();
}

fn raise_to(world: &mut IdentityWorld, identity_id: IdentityId, ordinal: u8) {
    let mut next: u8 = 1;
    while next <= ordinal {
        verify_to(world, identity_id, VerificationLevel::from_ordinal(next).unwrap());
        next += 1;
    }
}

fn set_status(world: &mut IdentityWorld, identity_id: IdentityId, status: IdentityStatus) {
    let command =
        UpdateIdentityCommand { identity_id, new_status: Some(status), updated_by: admin() };
    update_identity(world, command, at(3_000)).unwrap();
}

fn link(world: &mut IdentityWorld, id: u128, from: IdentityId, to: IdentityId) {
    let command = EstablishRelationshipCommand {
        from_identity: from,
        to_identity: to,
        relationship_type: RelationshipType::Trusts,
        rules: RelationshipRules {
            can_delegate: false,
            can_revoke: true,
            expires_at: None,
            max_depth: None,
        },
        established_by: admin(),
        metadata: None,
    };
    let event =
        establish_relationship(world, command, RelationshipId::from_u128(id), at(4_000)).unwrap();
    assert!(event.is_some());
}

fn merge(world: &mut IdentityWorld, source: IdentityId, target: IdentityId) -> Result<
    cim_domain_identity::IdentitiesMerged,
    IdentityError,
> {
    let command = MergeIdentitiesCommand {
        source_identity: source,
        target_identity: target,
        merged_by: admin(),
        merge_reason: "duplicate".to_string(),
    };
    merge_identities(world, command, at(5_000))
}

fn archive(world: &mut IdentityWorld, identity_id: IdentityId, force: bool) -> Result<
    cim_domain_identity::IdentityArchived,
    IdentityError,
> {
    let command = ArchiveIdentityCommand {
        identity_id,
        archived_by: admin(),
        reason: Some("closed".to_string()),
        force,
    };
    archive_identity(world, command, at(6_000))
}

#[test]
fn created_identity_is_pending_and_unverified() {
    let mut world = IdentityWorld::new();
    let identity_id = IdentityId::from_u128(1);
    let command = CreateIdentityCommand {
        identity_type: IdentityType::Organization,
        initial_claims: Some(vec![
            InitialClaim { claim_type: ClaimType::Email, value: "a@b.example".to_string() },
            InitialClaim { claim_type: ClaimType::Phone, value: "555".to_string() },
        ]),
        created_by: admin(),
        tags: vec!["vip".to_string()],
        external_reference: None,
    };
    let event = create_identity(&mut world, command, identity_id, at(42)).unwrap();
    assert_eq!(event.identity_id, identity_id);
    assert_eq!(event.identity_type, IdentityType::Organization);
    assert_eq!(event.created_by, Some(admin()));
    assert_eq!(event.created_at, at(42));

    assert_eq!(world.identities.len(), 1);
    let record = &world.identities[0];
    assert_eq!(record.entity.identity_id, identity_id);
    assert_eq!(record.entity.status, IdentityStatus::Pending);
    assert_eq!(record.verification.verification_level, VerificationLevel::Unverified);
    assert_eq!(record.metadata.version, 0);
    assert_eq!(record.metadata.created_at, at(42));
    assert_eq!(record.metadata.tags, vec!["vip".to_string()]);
    assert_eq!(record.claims.len(), 2);
    assert_eq!(record.claims[0].claim_type, ClaimType::Email);
    assert_eq!(record.claims[0].value, "a@b.example");
    assert!(!record.claims[0].verified);
    assert_eq!(record.claims[0].issuer, Some(admin()));
    assert_eq!(record.claims[1].claim_type, ClaimType::Phone);
}

#[test]
fn create_with_used_identifier_is_refused() {
    let mut world = IdentityWorld::new();
    add(&mut world, 1, IdentityType::Person);
    let command = CreateIdentityCommand {
        identity_type: IdentityType::Person,
        initial_claims: None,
        created_by: admin(),
        tags: Vec::new(),
        external_reference: None,
    };
    let result = create_identity(&mut world, command, IdentityId::from_u128(1), at(7));
    assert!(matches!(result, Err(IdentityError::IdentityAlreadyExists(_))));
    assert_eq!(world.identities.len(), 1);
}

#[test]
fn update_of_unknown_identity_is_not_found() {
    let mut world = IdentityWorld::new();
    let missing = IdentityId::from_u128(77);
    let command = UpdateIdentityCommand {
        identity_id: missing,
        new_status: Some(IdentityStatus::Active),
        updated_by: admin(),
    };
    let result = update_identity(&mut world, command, at(1));
    assert!(matches!(result, Err(IdentityError::IdentityNotFound(id)) if id == missing));
}

#[test]
fn update_moves_only_within_the_lattice() {
    let mut world = IdentityWorld::new();
    let id = add(&mut world, 1, IdentityType::Person);

    // Pending -> Suspended is not one step
    let command = UpdateIdentityCommand {
        identity_id: id,
        new_status: Some(IdentityStatus::Suspended),
        updated_by: admin(),
    };
    let result = update_identity(&mut world, command, at(10));
    assert!(matches!(result, Err(IdentityError::InvalidStatusTransition)));
    assert_eq!(world.identities[0].entity.status, IdentityStatus::Pending);
    assert_eq!(world.identities[0].metadata.version, 0);

    // Pending -> Active -> Suspended -> Active -> Pending
    for status in [
        IdentityStatus::Active,
        IdentityStatus::Suspended,
        IdentityStatus::Active,
        IdentityStatus::Pending,
    ] {
        set_status(&mut world, id, status);
        assert_eq!(world.identities[0].entity.status, status);
    }
    assert_eq!(world.identities[0].metadata.version, 4);
    assert_eq!(world.identities[0].metadata.updated_at, at(3_000));

    // an update cannot archive or merge
    let command = UpdateIdentityCommand {
        identity_id: id,
        new_status: Some(IdentityStatus::Archived),
        updated_by: admin(),
    };
    assert!(matches!(
        update_identity(&mut world, command, at(11)),
        Err(IdentityError::InvalidStatusTransition)
    ));
    let command = UpdateIdentityCommand {
        identity_id: id,
        new_status: Some(IdentityStatus::Merged { merged_into: admin() }),
        updated_by: admin(),
    };
    assert!(matches!(
        update_identity(&mut world, command, at(12)),
        Err(IdentityError::InvalidStatusTransition)
    ));
}

#[test]
fn update_event_tells_old_and_new_status() {
    let mut world = IdentityWorld::new();
    let id = add(&mut world, 1, IdentityType::Person);
    let command = UpdateIdentityCommand {
        identity_id: id,
        new_status: Some(IdentityStatus::Active),
        updated_by: admin(),
    };
    let event = update_identity(&mut world, command, at(50)).unwrap().unwrap();
    assert_eq!(event.old_status, IdentityStatus::Pending);
    assert_eq!(event.new_status, IdentityStatus::Active);
    assert_eq!(event.updated_at, at(50));
    assert_eq!(event.updated_by, admin());
}

#[test]
fn update_without_status_changes_nothing() {
    let mut world = IdentityWorld::new();
    let id = add(&mut world, 1, IdentityType::Person);
    let command = UpdateIdentityCommand { identity_id: id, new_status: None, updated_by: admin() };
    let result = update_identity(&mut world, command, at(10)).unwrap();
    assert!(result.is_none());
    assert_eq!(world.identities[0].metadata.version, 0);
}

#[test]
fn archived_and_merged_are_never_left() {
    let mut world = IdentityWorld::new();
    let a = add(&mut world, 1, IdentityType::Person);
    let b = add(&mut world, 2, IdentityType::Person);
    let c = add(&mut world, 3, IdentityType::Person);
    set_status(&mut world, b, IdentityStatus::Active);
    archive(&mut world, a, false).unwrap();
    merge(&mut world, c, b).unwrap();

    let command = UpdateIdentityCommand {
        identity_id: a,
        new_status: Some(IdentityStatus::Active),
        updated_by: admin(),
    };
    assert!(matches!(
        update_identity(&mut world, command, at(10)),
        Err(IdentityError::IdentityArchived)
    ));
    let command = UpdateIdentityCommand {
        identity_id: c,
        new_status: Some(IdentityStatus::Active),
        updated_by: admin(),
    };
    assert!(matches!(
        update_identity(&mut world, command, at(10)),
        Err(IdentityError::IdentityMerged)
    ));
    assert!(matches!(archive(&mut world, a, true), Err(IdentityError::AlreadyArchived)));
    assert!(matches!(archive(&mut world, c, true), Err(IdentityError::IdentityMerged)));
    assert!(matches!(merge(&mut world, a, b), Err(IdentityError::IdentityArchived)));
    assert!(matches!(merge(&mut world, c, b), Err(IdentityError::IdentityMerged)));

    assert_eq!(world.identities[0].entity.status, IdentityStatus::Archived);
    assert_eq!(world.identities[2].entity.status, IdentityStatus::Merged { merged_into: b });
}

#[test]
fn merge_keeps_the_higher_level_and_leaves_the_target_alone() {
    let mut world = IdentityWorld::new();
    let source = add(&mut world, 1, IdentityType::Person);
    let target = add(&mut world, 2, IdentityType::Person);
    let other = add(&mut world, 3, IdentityType::Person);
    raise_to(&mut world, source, 2);
    raise_to(&mut world, target, 4);
    raise_to(&mut world, other, 1);
    link(&mut world, 10, source, other);
    link(&mut world, 11, other, source);
    link(&mut world, 12, other, target);
    let target_before = format!("{:?}", world.identities[1]);

    let event = merge(&mut world, source, target).unwrap();

    assert_eq!(event.source_identity, source);
    assert_eq!(event.target_identity, target);
    assert_eq!(event.retained_verification_level, VerificationLevel::Biometric);
    assert_eq!(event.retained_verification_level.ordinal(), 4);
    assert_eq!(event.migrated_relationships, 2);
    assert_eq!(event.migrated_workflows, 0);
    assert_eq!(event.merged_at, at(5_000));
    assert_eq!(world.identities[0].entity.status, IdentityStatus::Merged { merged_into: target });
    assert_eq!(format!("{:?}", world.identities[1]), target_before);
    assert_eq!(world.identities[1].verification.verification_level.ordinal(), 4);
    assert_eq!(world.relationships.len(), 3);
}

#[test]
fn merge_is_refused_by_each_rule() {
    let mut world = IdentityWorld::new();
    let person = add(&mut world, 1, IdentityType::Person);
    let org = add(&mut world, 2, IdentityType::Organization);
    let pending = add(&mut world, 3, IdentityType::Person);
    let low = add(&mut world, 4, IdentityType::Person);
    raise_to(&mut world, person, 2);
    raise_to(&mut world, org, 2);
    raise_to(&mut world, low, 1);

    match merge(&mut world, person, person) {
        Err(IdentityError::InvariantViolation(text)) => {
            assert_eq!(text, "Cannot merge an identity into itself")
        }
        other => panic!("unexpected {:?}", other),
    }
    assert!(matches!(merge(&mut world, person, org), Err(IdentityError::IncompatibleIdentityTypes)));
    assert!(matches!(merge(&mut world, person, low), Err(IdentityError::TargetLessVerified)));
    match merge(&mut world, pending, pending) {
        Err(IdentityError::InvariantViolation(_)) => {}
        other => panic!("unexpected {:?}", other),
    }
    // a pending target is refused even though the levels allow the merge
    let fresh = add(&mut world, 5, IdentityType::Person);
    match merge(&mut world, pending, fresh) {
        Err(IdentityError::InvariantViolation(text)) => {
            assert_eq!(text, "Cannot merge into a pending identity")
        }
        other => panic!("unexpected {:?}", other),
    }
    let missing = IdentityId::from_u128(404);
    assert!(matches!(
        merge(&mut world, missing, person),
        Err(IdentityError::IdentityNotFound(id)) if id == missing
    ));
    assert!(matches!(
        merge(&mut world, person, missing),
        Err(IdentityError::IdentityNotFound(id)) if id == missing
    ));
    // nothing was merged
    for record in world.identities.iter() {
        assert!(!matches!(record.entity.status, IdentityStatus::Merged { .. }));
    }
}

#[test]
fn archive_counts_relationships_unless_forced() {
    let mut world = IdentityWorld::new();
    let a = add(&mut world, 1, IdentityType::Person);
    let b = add(&mut world, 2, IdentityType::Person);
    let c = add(&mut world, 3, IdentityType::Person);
    raise_to(&mut world, a, 1);
    raise_to(&mut world, b, 1);
    raise_to(&mut world, c, 1);
    link(&mut world, 10, a, b);
    link(&mut world, 11, c, a);
    link(&mut world, 12, b, c);

    let result = archive(&mut world, a, false);
    assert!(matches!(result, Err(IdentityError::HasActiveRelationships(2))));
    assert_eq!(world.identities[0].entity.status, IdentityStatus::Active);
    assert_eq!(world.identities[0].metadata.version, 0);

    let event = archive(&mut world, a, true).unwrap();
    assert_eq!(event.identity_id, a);
    assert_eq!(event.previous_status, IdentityStatus::Active);
    assert_eq!(event.archived_at, at(6_000));
    assert_eq!(event.reason, Some("closed".to_string()));
    assert_eq!(world.identities[0].entity.status, IdentityStatus::Archived);
    assert_eq!(world.identities[0].metadata.version, 1);
    assert_eq!(world.identities[0].metadata.updated_at, at(6_000));

    let missing = IdentityId::from_u128(404);
    assert!(matches!(
        archive(&mut world, missing, true),
        Err(IdentityError::IdentityNotFound(id)) if id == missing
    ));
}

#[test]
fn verification_level_rises_one_step_at_a_time() {
    let mut world = IdentityWorld::new();
    let id = add(&mut world, 1, IdentityType::Person);

    let skip = CompleteVerificationCommand {
        identity_id: id,
        verification_result: true,
        verification_level: VerificationLevel::Enhanced,
        verification_method: VerificationMethod::Document,
        verified_by: admin(),
    };
    match process_verification(&mut world, skip, at(1)) {
        Err(IdentityError::InvariantViolation(text)) => {
            assert_eq!(text, "Cannot skip verification levels")
        }
        other => panic!("unexpected {:?}", other),
    }
    assert_eq!(world.identities[0].verification.verification_level, VerificationLevel::Unverified);
    assert_eq!(world.identities[0].entity.status, IdentityStatus::Pending);

    let step = CompleteVerificationCommand {
        identity_id: id,
        verification_result: true,
        verification_level: VerificationLevel::Basic,
        verification_method: VerificationMethod::ThirdParty { provider: "acme".to_string() },
        verified_by: admin(),
    };
    let event = process_verification(&mut world, step, at(2)).unwrap();
    assert!(event.verification_successful);
    assert_eq!(event.new_verification_level, VerificationLevel::Basic);
    assert_eq!(event.completed_at, at(2));
    let record = &world.identities[0];
    assert_eq!(record.verification.verification_level, VerificationLevel::Basic);
    assert_eq!(record.verification.verified_at, Some(at(2)));
    assert_eq!(record.verification.verified_by, Some(admin()));
    assert_eq!(
        record.verification.verification_method,
        Some(VerificationMethod::ThirdParty { provider: "acme".to_string() })
    );
    // a pending identity becomes active once verified
    assert_eq!(record.entity.status, IdentityStatus::Active);

    raise_to(&mut world, id, 3);
    let down = CompleteVerificationCommand {
        identity_id: id,
        verification_result: true,
        verification_level: VerificationLevel::Basic,
        verification_method: VerificationMethod::Email,
        verified_by: admin(),
    };
    match process_verification(&mut world, down, at(3)) {
        Err(IdentityError::InvariantViolation(text)) => {
            assert_eq!(text, "Cannot downgrade verification level")
        }
        other => panic!("unexpected {:?}", other),
    }
    assert_eq!(world.identities[0].verification.verification_level, VerificationLevel::Full);
}

#[test]
fn failed_verification_changes_nothing() {
    let mut world = IdentityWorld::new();
    let id = add(&mut world, 1, IdentityType::Person);
    let command = CompleteVerificationCommand {
        identity_id: id,
        verification_result: false,
        verification_level: VerificationLevel::Full,
        verification_method: VerificationMethod::Email,
        verified_by: admin(),
    };
    let event = process_verification(&mut world, command, at(9)).unwrap();
    assert!(!event.verification_successful);
    assert_eq!(event.new_verification_level, VerificationLevel::Unverified);
    assert_eq!(world.identities[0].verification.verification_level, VerificationLevel::Unverified);
    assert_eq!(world.identities[0].entity.status, IdentityStatus::Pending);
}

#[test]
fn verification_is_recorded_whatever_the_status() {
    let mut world = IdentityWorld::new();
    let archived = add(&mut world, 1, IdentityType::Person);
    let source = add(&mut world, 2, IdentityType::Person);
    let target = add(&mut world, 3, IdentityType::Person);
    set_status(&mut world, target, IdentityStatus::Active);
    archive(&mut world, archived, false).unwrap();
    merge(&mut world, source, target).unwrap();

    let verify = |identity_id: IdentityId, level: VerificationLevel| CompleteVerificationCommand {
        identity_id,
        verification_result: true,
        verification_level: level,
        verification_method: VerificationMethod::Email,
        verified_by: admin(),
    };
    // the level of an archived identity rises by one step, and its status stays
    let event =
        process_verification(&mut world, verify(archived, VerificationLevel::Basic), at(9)).unwrap();
    assert!(event.verification_successful);
    assert_eq!(event.new_verification_level, VerificationLevel::Basic);
    assert_eq!(world.identities[0].verification.verification_level, VerificationLevel::Basic);
    assert_eq!(world.identities[0].verification.verified_at, Some(at(9)));
    assert_eq!(world.identities[0].entity.status, IdentityStatus::Archived);
    // so does the level of a merged identity
    process_verification(&mut world, verify(source, VerificationLevel::Basic), at(9)).unwrap();
    assert_eq!(world.identities[1].verification.verification_level, VerificationLevel::Basic);
    assert_eq!(world.identities[1].entity.status, IdentityStatus::Merged { merged_into: target });
    // the two checks hold for them as for any other
    assert!(matches!(
        process_verification(&mut world, verify(archived, VerificationLevel::Full), at(9)),
        Err(IdentityError::InvariantViolation(_))
    ));
    assert!(matches!(
        process_verification(&mut world, verify(archived, VerificationLevel::Unverified), at(9)),
        Err(IdentityError::InvariantViolation(_))
    ));
    assert_eq!(world.identities[0].verification.verification_level, VerificationLevel::Basic);

    let missing = verify(IdentityId::from_u128(404), VerificationLevel::Basic);
    assert!(matches!(
        process_verification(&mut world, missing, at(9)),
        Err(IdentityError::IdentityNotFound(_))
    ));
}

#[test]
fn every_initial_claim_is_recorded_even_of_a_repeated_type() {
    let mut world = IdentityWorld::new();
    let command = CreateIdentityCommand {
        identity_type: IdentityType::Person,
        initial_claims: Some(vec![
            InitialClaim { claim_type: ClaimType::Email, value: "first@example.com".to_string() },
            InitialClaim { claim_type: ClaimType::Phone, value: "555".to_string() },
            InitialClaim { claim_type: ClaimType::Email, value: "second@example.com".to_string() },
        ]),
        created_by: admin(),
        tags: Vec::new(),
        external_reference: None,
    };
    create_identity(&mut world, command, IdentityId::from_u128(1), at(1)).unwrap();
    let values: Vec<&str> = world.identities[0].claims.iter().map(|c| c.value.as_str()).collect();
    assert_eq!(values, vec!["first@example.com", "555", "second@example.com"]);
    assert_eq!(world.identities[0].claims[2].claim_type, ClaimType::Email);
}

#[test]
fn verification_starts_unless_fully_verified() {
    let mut world = IdentityWorld::new();
    let id = add(&mut world, 1, IdentityType::Person);
    let command = StartVerificationCommand {
        identity_id: id,
        verification_method: VerificationMethod::Phone,
        initiated_by: admin(),
    };
    let event = start_verification(&world, command, at(5)).unwrap().unwrap();
    assert_eq!(event.identity_id, id);
    assert_eq!(event.verification_method, VerificationMethod::Phone);
    assert_eq!(event.started_at, at(5));

    raise_to(&mut world, id, 5);
    assert_eq!(world.identities[0].verification.verification_level, VerificationLevel::InPerson);
    let command = StartVerificationCommand {
        identity_id: id,
        verification_method: VerificationMethod::Phone,
        initiated_by: admin(),
    };
    assert!(start_verification(&world, command, at(6)).unwrap().is_none());

    let command = StartVerificationCommand {
        identity_id: IdentityId::from_u128(404),
        verification_method: VerificationMethod::Phone,
        initiated_by: admin(),
    };
    assert!(matches!(
        start_verification(&world, command, at(6)),
        Err(IdentityError::IdentityNotFound(_))
    ));
}

#[test]
fn claims_are_verified_as_far_as_the_level_covers() {
    let mut world = IdentityWorld::new();
    for (id, level) in [(1u128, 0u8), (2, 1), (3, 2), (4, 3), (5, 5)] {
        let identity_id = IdentityId::from_u128(id);
        let command = CreateIdentityCommand {
            identity_type: IdentityType::Person,
            initial_claims: Some(vec![
                InitialClaim { claim_type: ClaimType::Email, value: "e".to_string() },
                InitialClaim { claim_type: ClaimType::Phone, value: "p".to_string() },
                InitialClaim { claim_type: ClaimType::TaxId, value: "t".to_string() },
            ]),
            created_by: admin(),
            tags: Vec::new(),
            external_reference: None,
        };
        create_identity(&mut world, command, identity_id, at(1)).unwrap();
        raise_to(&mut world, identity_id, level);
    }
    update_verification_claims_system(&mut world);
    let verified: Vec<Vec<bool>> = world
        .identities
        .iter()
        .map(|record| record.claims.iter().map(|claim| claim.verified).collect())
        .collect();
    assert_eq!(
        verified,
        vec![
            vec![false, false, false],
            vec![true, false, false],
            vec![true, true, false],
            vec![true, true, true],
            vec![true, true, true],
        ]
    );
}
