//! Integration tests for the identity domain: commands run against a world.

use cim_domain_identity::queries::{find_identity_by_id, find_relationships_for_identity};
use cim_domain_identity::{
    create_identity_system, establish_relationship_system, merge_identities_system,
    update_identity_system, CreateIdentityCommand, EstablishRelationshipCommand,
    FindIdentityByIdQuery, IdentityEntity, IdentityId, IdentityMetadata, IdentityRecord,
    IdentityStatus, IdentityType, IdentityVerification, IdentityWorld, MergeIdentitiesCommand,
    RelationshipRules, RelationshipType, Timestamp, UpdateIdentityCommand, VerificationLevel,
};

fn spawn(
    world: &mut IdentityWorld,
    identity_id: IdentityId,
    identity_type: IdentityType,
    status: IdentityStatus,
    verification: IdentityVerification,
) {
    let now = Timestamp::now();
    world.identities.push(IdentityRecord {
        entity: IdentityEntity { identity_id, identity_type, status },
        metadata: IdentityMetadata {
            created_at: now,
            updated_at: now,
            created_by: None,
            version: 0,
            tags: Vec::new(),
        },
        verification,
        claims: Vec::new(),
    });
}

#[test]
fn test_identity_lifecycle() {
    // Create a world
    let mut world = IdentityWorld::new();

    // Create identity command
    let create_cmd = CreateIdentityCommand {
        identity_type: IdentityType::Person,
        initial_claims: None,
        created_by: IdentityId::new(),
        tags: Vec::new(),
        external_reference: None,
    };

    // Send command
    let mut events = Vec::new();
    events.push(create_identity_system(&mut world, create_cmd).unwrap());

    // Verify identity was created
    let identities: Vec<_> = world.identities.iter().map(|r| &r.entity).collect();

    assert_eq!(identities.len(), 1);
    assert_eq!(identities[0].identity_type, IdentityType::Person);
    assert!(matches!(identities[0].status, IdentityStatus::Pending));

    // Verify event was emitted
    assert_eq!(events.len(), 1);
}

#[test]
fn test_identity_update() {
    let mut world = IdentityWorld::new();

    // Create an identity first
    let identity_id = IdentityId::new();
    spawn(
        &mut world,
        identity_id,
        IdentityType::Person,
        IdentityStatus::Pending,
        IdentityVerification::unverified(),
    );

    // Update command
    let update_cmd = UpdateIdentityCommand {
        identity_id,
        new_status: Some(IdentityStatus::Active),
        updated_by: IdentityId::new(),
    };

    update_identity_system(&mut world, update_cmd).unwrap();

    // Verify update
    let identity =
        world.identities.iter().map(|r| &r.entity).find(|e| e.identity_id == identity_id).unwrap();

    assert!(matches!(identity.status, IdentityStatus::Active));
}

#[test]
fn test_relationship_establishment() {
    let mut world = IdentityWorld::new();

    // Create two identities
    let person_id = IdentityId::new();
    let org_id = IdentityId::new();

    spawn(
        &mut world,
        person_id,
        IdentityType::Person,
        IdentityStatus::Active,
        IdentityVerification::unverified(),
    );
    spawn(
        &mut world,
        org_id,
        IdentityType::Organization,
        IdentityStatus::Active,
        IdentityVerification::unverified(),
    );

    // Establish relationship
    let establish_cmd = EstablishRelationshipCommand {
        from_identity: person_id,
        to_identity: org_id,
        relationship_type: RelationshipType::MemberOf {
            role: "Employee".to_string(),
            department: Some("Engineering".to_string()),
        },
        established_by: IdentityId::new(),
        rules: RelationshipRules {
            can_delegate: false,
            can_revoke: true,
            expires_at: None,
            max_depth: None,
        },
        metadata: None,
    };

    establish_relationship_system(&mut world, establish_cmd).unwrap();

    // Verify relationship
    let relationships: Vec<_> = world.relationships.iter().collect();

    assert_eq!(relationships.len(), 1);
    assert_eq!(relationships[0].source_identity, person_id);
    assert_eq!(relationships[0].target_identity, org_id);
}

#[test]
fn test_identity_merge() {
    let mut world = IdentityWorld::new();

    // Create two person identities with different verification levels
    let source_id = IdentityId::new();
    let target_id = IdentityId::new();

    spawn(
        &mut world,
        source_id,
        IdentityType::Person,
        IdentityStatus::Active,
        IdentityVerification {
            verification_level: VerificationLevel::Basic,
            verified_at: Some(Timestamp::now()),
            verified_by: Some(IdentityId::new()),
            verification_method: None,
        },
    );
    spawn(
        &mut world,
        target_id,
        IdentityType::Person,
        IdentityStatus::Active,
        IdentityVerification {
            verification_level: VerificationLevel::Enhanced,
            verified_at: Some(Timestamp::now()),
            verified_by: Some(IdentityId::new()),
            verification_method: None,
        },
    );

    // Merge command
    let merge_cmd = MergeIdentitiesCommand {
        source_identity: source_id,
        target_identity: target_id,
        merged_by: IdentityId::new(),
        merge_reason: String::new(),
    };

    merge_identities_system(&mut world, merge_cmd).unwrap();

    // Verify source is merged
    let source =
        world.identities.iter().map(|r| &r.entity).find(|e| e.identity_id == source_id).unwrap();

    assert!(
        matches!(source.status, IdentityStatus::Merged { merged_into } if merged_into == target_id)
    );
}

#[test]
fn test_query_operations() {
    let mut world = IdentityWorld::new();

    // Create test data
    let identity_id = IdentityId::new();
    spawn(
        &mut world,
        identity_id,
        IdentityType::Person,
        IdentityStatus::Active,
        IdentityVerification {
            verification_level: VerificationLevel::Enhanced,
            verified_at: Some(Timestamp::now()),
            verified_by: Some(IdentityId::new()),
            verification_method: None,
        },
    );

    // Test find by ID
    let result = find_identity_by_id(&world, &FindIdentityByIdQuery { identity_id });
    assert!(result.is_some());
    assert_eq!(result.unwrap().identity_id, identity_id);

    // Test find relationships (should be empty)
    let relationships = find_relationships_for_identity(&world, identity_id);
    assert_eq!(relationships.len(), 0);
}
