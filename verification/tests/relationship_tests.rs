//! Relationships: establishing, validating, revoking, expiring, traversing.

use cim_domain_identity::queries::{
    find_relationships_by_identity, traverse_relationship_graph, traverse_relationship_graph_at,
};
use cim_domain_identity::systems::{
    create_identity, establish_relationship, expire_relationships, process_verification,
    release_relationships, revoke_relationship, traverse_relationships, update_identity, validate_relationship_at,
};
use cim_domain_identity::traversal::{traverse, TraversalRules};
use cim_domain_identity::{
    CompleteVerificationCommand, CreateIdentityCommand, EstablishRelationshipCommand,
    FindRelationshipsByIdentityQuery, IdentityError, IdentityId, IdentityStatus, IdentityType,
    IdentityWorld, RelationshipId, RelationshipRules, RelationshipType, RevokeRelationshipCommand,
    Timestamp, TraverseRelationshipsCommand, UpdateIdentityCommand, ValidateRelationshipCommand,
    VerificationLevel, VerificationMethod,
};

fn moment(millis: i64) -> Timestamp {
    Timestamp::from_millis(millis)
}

fn operator() -> IdentityId {
    IdentityId::from_u128(999)
}

fn open_rules() -> RelationshipRules {
    RelationshipRules { can_delegate: false, can_revoke: true, expires_at: None, max_depth: None }
}

fn pending(world: &mut IdentityWorld, id: u128, identity_type: IdentityType) -> IdentityId {
    let identity_id = IdentityId::from_u128(id);
    let command = CreateIdentityCommand {
        identity_type,
        initial_claims: None,
        created_by: operator(),
        tags: Vec::new(),
        external_reference: None,
    };
    create_identity(world, command, identity_id, moment(1)).unwrap();
    identity_id
}

fn activate(world: &mut IdentityWorld, identity_id: IdentityId) {
    let command = CompleteVerificationCommand {
        identity_id,
        verification_result: true,
        verification_level: VerificationLevel::Basic,
        verification_method: VerificationMethod::Email,
        verified_by: operator(),
    };
    process_verification(world, command, moment(2)).unwrap();
}

fn active(world: &mut IdentityWorld, id: u128, identity_type: IdentityType) -> IdentityId {
    let identity_id = pending(world, id, identity_type);
    activate(world, identity_id);
    identity_id
}

fn establish(
    world: &mut IdentityWorld,
    id: u128,
    from: IdentityId,
    to: IdentityId,
    relationship_type: RelationshipType,
    rules: RelationshipRules,
) -> Result<Option<cim_domain_identity::RelationshipEstablished>, IdentityError> {
    let command = EstablishRelationshipCommand {
        from_identity: from,
        to_identity: to,
        relationship_type,
        rules,
        established_by: operator(),
        metadata: None,
    };
    establish_relationship(world, command, RelationshipId::from_u128(id), moment(10))
}

fn trusts(world: &mut IdentityWorld, id: u128, from: IdentityId, to: IdentityId) {
    let event = establish(world, id, from, to, RelationshipType::Trusts, open_rules()).unwrap();
    assert!(event.is_some());
}

fn member_of() -> RelationshipType {
    RelationshipType::MemberOf { role: "Employee".to_string(), department: None }
}

#[test]
fn establishing_twice_appends_one_edge() {
    // create Person A and Organization B, both pending
    let mut world = IdentityWorld::new();
    let a = pending(&mut world, 1, IdentityType::Person);
    let b = pending(&mut world, 2, IdentityType::Organization);
    assert_eq!(world.identities[0].entity.status, IdentityStatus::Pending);
    assert_eq!(world.identities[1].entity.status, IdentityStatus::Pending);

    // a relationship needs both ends to be active
    let early = establish(&mut world, 10, a, b, member_of(), open_rules());
    assert!(matches!(early, Err(IdentityError::IdentityNotActive)));
    assert_eq!(world.relationships.len(), 0);

    // verify both to active
    activate(&mut world, a);
    activate(&mut world, b);
    assert_eq!(world.identities[0].entity.status, IdentityStatus::Active);
    assert_eq!(world.identities[1].entity.status, IdentityStatus::Active);

    // the relationship succeeds and appends one edge
    let event = establish(&mut world, 10, a, b, member_of(), open_rules()).unwrap().unwrap();
    assert_eq!(event.relationship_id, RelationshipId::from_u128(10));
    assert_eq!(event.from_identity, a);
    assert_eq!(event.to_identity, b);
    assert_eq!(event.relationship_type, member_of());
    assert_eq!(event.established_at, moment(10));
    assert_eq!(world.relationships.len(), 1);
    assert_eq!(world.relationships[0].source_identity, a);
    assert_eq!(world.relationships[0].target_identity, b);
    assert_eq!(world.relationships[0].established_by, Some(operator()));

    // the identical command again is a no-op: no second edge, no second event
    let again = establish(&mut world, 11, a, b, member_of(), open_rules()).unwrap();
    assert!(again.is_none());
    assert_eq!(world.relationships.len(), 1);

    // another role is another relationship
    let other = RelationshipType::MemberOf { role: "Advisor".to_string(), department: None };
    assert!(establish(&mut world, 12, a, b, other, open_rules()).unwrap().is_some());
    assert_eq!(world.relationships.len(), 2);
}

#[test]
fn relationship_is_refused_by_each_rule() {
    let mut world = IdentityWorld::new();
    let person = active(&mut world, 1, IdentityType::Person);
    let other = active(&mut world, 2, IdentityType::Person);
    let org = active(&mut world, 3, IdentityType::Organization);
    let missing = IdentityId::from_u128(404);

    assert!(matches!(
        establish(&mut world, 10, person, person, RelationshipType::Trusts, open_rules()),
        Err(IdentityError::SelfRelationship)
    ));
    assert!(matches!(
        establish(&mut world, 10, person, other, member_of(), open_rules()),
        Err(IdentityError::InvalidIdentityType)
    ));
    assert!(matches!(
        establish(&mut world, 10, org, person, member_of(), open_rules()),
        Err(IdentityError::InvalidIdentityType)
    ));
    assert!(matches!(
        establish(&mut world, 10, person, org, RelationshipType::Owns { percentage: 101 }, open_rules()),
        Err(IdentityError::InvalidOwnershipPercentage)
    ));
    assert!(matches!(
        establish(&mut world, 10, missing, org, RelationshipType::Trusts, open_rules()),
        Err(IdentityError::IdentityNotFound(id)) if id == missing
    ));
    assert!(matches!(
        establish(&mut world, 10, person, missing, RelationshipType::Trusts, open_rules()),
        Err(IdentityError::IdentityNotFound(id)) if id == missing
    ));
    assert_eq!(world.relationships.len(), 0);

    assert!(establish(&mut world, 10, person, org, RelationshipType::Owns { percentage: 100 }, open_rules())
        .unwrap()
        .is_some());
    // an identifier that is in use is refused
    assert!(matches!(
        establish(&mut world, 10, person, other, RelationshipType::Trusts, open_rules()),
        Err(IdentityError::RelationshipConflict(_))
    ));
    assert_eq!(world.relationships.len(), 1);
}

#[test]
fn validation_removes_what_no_longer_holds() {
    let mut world = IdentityWorld::new();
    let a = active(&mut world, 1, IdentityType::Person);
    let b = active(&mut world, 2, IdentityType::Person);
    trusts(&mut world, 10, a, b);
    let expiring = RelationshipRules { expires_at: Some(moment(500)), ..open_rules() };
    establish(&mut world, 11, b, a, RelationshipType::Manages, expiring).unwrap().unwrap();

    let check = |id: u128| ValidateRelationshipCommand {
        relationship_id: RelationshipId::from_u128(id),
        validated_by: operator(),
    };

    let event = validate_relationship_at(&mut world, check(10), moment(100)).unwrap();
    assert!(event.is_valid);
    assert_eq!(event.reason, "Relationship is valid");
    assert_eq!(event.validated_at, moment(100));
    assert_eq!(world.relationships.len(), 2);

    // not yet expired exactly at the deadline
    let event = validate_relationship_at(&mut world, check(11), moment(500)).unwrap();
    assert!(event.is_valid);
    let event = validate_relationship_at(&mut world, check(11), moment(501)).unwrap();
    assert!(!event.is_valid);
    assert_eq!(event.reason, "Relationship has expired");
    assert_eq!(world.relationships.len(), 1);

    // an end that leaves Active invalidates the relationship
    let suspend = UpdateIdentityCommand {
        identity_id: b,
        new_status: Some(IdentityStatus::Suspended),
        updated_by: operator(),
    };
    update_identity(&mut world, suspend, moment(600)).unwrap();
    let event = validate_relationship_at(&mut world, check(10), moment(700)).unwrap();
    assert!(!event.is_valid);
    assert_eq!(event.reason, "One or both identities are not active");
    assert_eq!(world.relationships.len(), 0);

    let missing = validate_relationship_at(&mut world, check(10), moment(800));
    assert!(matches!(missing, Err(IdentityError::RelationshipNotFound(_))));
}

#[test]
fn revoking_follows_the_rules_of_the_relationship() {
    let mut world = IdentityWorld::new();
    let a = active(&mut world, 1, IdentityType::Person);
    let b = active(&mut world, 2, IdentityType::Person);
    trusts(&mut world, 10, a, b);
    let fixed = RelationshipRules { can_revoke: false, ..open_rules() };
    establish(&mut world, 11, b, a, RelationshipType::Trusts, fixed).unwrap().unwrap();

    let revoke = |id: u128| RevokeRelationshipCommand {
        relationship_id: RelationshipId::from_u128(id),
        revoked_by: operator(),
        reason: "ended".to_string(),
    };
    match revoke_relationship(&mut world, revoke(11), moment(20)) {
        Err(IdentityError::InvalidOperation(text)) => {
            assert_eq!(text, "Relationship cannot be revoked")
        }
        other => panic!("unexpected {:?}", other),
    }
    assert_eq!(world.relationships.len(), 2);

    let event = revoke_relationship(&mut world, revoke(10), moment(21)).unwrap();
    assert_eq!(event.relationship_id, RelationshipId::from_u128(10));
    assert_eq!(event.revoked_at, moment(21));
    assert_eq!(event.reason, Some("ended".to_string()));
    assert_eq!(world.relationships.len(), 1);
    assert_eq!(world.relationships[0].relationship_id, RelationshipId::from_u128(11));

    assert!(matches!(
        revoke_relationship(&mut world, revoke(10), moment(22)),
        Err(IdentityError::RelationshipNotFound(_))
    ));
}

#[test]
fn expiry_sweep_removes_expired_relationships_in_order() {
    let mut world = IdentityWorld::new();
    let a = active(&mut world, 1, IdentityType::Person);
    let b = active(&mut world, 2, IdentityType::Person);
    let c = active(&mut world, 3, IdentityType::Person);
    let until = |millis: i64| RelationshipRules { expires_at: Some(moment(millis)), ..open_rules() };
    establish(&mut world, 10, a, b, RelationshipType::Trusts, until(100)).unwrap().unwrap();
    establish(&mut world, 11, b, c, RelationshipType::Trusts, open_rules()).unwrap().unwrap();
    establish(&mut world, 12, c, a, RelationshipType::Trusts, until(300)).unwrap().unwrap();
    establish(&mut world, 13, a, c, RelationshipType::Trusts, until(50)).unwrap().unwrap();

    let events = expire_relationships(&mut world, moment(200));
    let expired: Vec<u128> = events.iter().map(|e| e.relationship_id.as_u128()).collect();
    assert_eq!(expired, vec![10, 13]);
    assert_eq!(events[0].expired_at, moment(100));
    assert_eq!(events[0].from_identity, a);
    assert_eq!(events[0].to_identity, b);
    assert_eq!(events[1].expired_at, moment(50));
    let kept: Vec<u128> = world.relationships.iter().map(|r| r.relationship_id.as_u128()).collect();
    assert_eq!(kept, vec![11, 12]);

    assert!(expire_relationships(&mut world, moment(200)).is_empty());
}

fn ring(world: &mut IdentityWorld) -> Vec<IdentityId> {
    // 1 -> 2 -> 3 -> 4 -> 1, and the chord 1 -> 3
    let ids: Vec<IdentityId> =
        (1..=4u128).map(|n| active(world, n, IdentityType::Person)).collect();
    trusts(world, 10, ids[0], ids[1]);
    trusts(world, 11, ids[1], ids[2]);
    trusts(world, 12, ids[2], ids[3]);
    trusts(world, 13, ids[3], ids[0]);
    establish(world, 14, ids[0], ids[2], RelationshipType::Manages, open_rules()).unwrap().unwrap();
    ids
}

fn numbers(path: &[IdentityId]) -> Vec<u128> {
    path.iter().map(|id| id.as_u128()).collect()
}

#[test]
fn traversal_is_bounded_by_depth_and_never_revisits() {
    let mut world = IdentityWorld::new();
    let ids = ring(&mut world);

    for depth in 0..5u32 {
        let result =
            traverse_relationship_graph_at(&world, ids[0], Some(depth), None, moment(100));
        let mut ends = Vec::new();
        for path in result.paths.iter() {
            // no path is longer than `depth` edges
            assert!(path.len() as u32 <= depth + 1);
            assert_eq!(path[0], ids[0]);
            // no identity twice on one path
            let mut seen = numbers(path);
            seen.sort();
            seen.dedup();
            assert_eq!(seen.len(), path.len());
            ends.push(path[path.len() - 1]);
        }
        // no identity is reached twice
        let mut unique = numbers(&ends);
        unique.sort();
        unique.dedup();
        assert_eq!(unique.len(), ends.len());
        assert_eq!(result.visited_count, result.paths.len() + 1);
        assert_eq!(result.root, ids[0]);
    }
}

#[test]
fn traversal_finds_paths_in_recorded_order() {
    let mut world = IdentityWorld::new();
    let ids = ring(&mut world);

    let none = traverse_relationship_graph_at(&world, ids[0], Some(0), None, moment(100));
    assert!(none.paths.is_empty());
    assert_eq!(none.visited_count, 1);

    // a query follows a relationship from either end: 13 leads from 4 to 1
    let one = traverse_relationship_graph_at(&world, ids[0], Some(1), None, moment(100));
    let paths: Vec<Vec<u128>> = one.paths.iter().map(|p| numbers(p)).collect();
    assert_eq!(paths, vec![vec![1, 2], vec![1, 4], vec![1, 3]]);
    assert_eq!(one.visited_count, 4);

    let all = traverse_relationship_graph_at(&world, ids[0], None, None, moment(100));
    let paths: Vec<Vec<u128>> = all.paths.iter().map(|p| numbers(p)).collect();
    assert_eq!(paths, vec![vec![1, 2], vec![1, 4], vec![1, 3]]);
    assert_eq!(all.visited_count, 4);

    // the same graph gives the same result
    let again = traverse_relationship_graph_at(&world, ids[0], None, None, moment(100));
    assert_eq!(format!("{:?}", again), format!("{:?}", all));

    // only relationships of a listed type are followed
    let filter = Some(vec![RelationshipType::Trusts]);
    let trusted = traverse_relationship_graph_at(&world, ids[0], None, filter, moment(100));
    let paths: Vec<Vec<u128>> = trusted.paths.iter().map(|p| numbers(p)).collect();
    assert_eq!(paths, vec![vec![1, 2], vec![1, 4], vec![1, 2, 3]]);

    let filter = Some(vec![RelationshipType::Custom("x".to_string())]);
    let custom = traverse_relationship_graph_at(&world, ids[0], None, filter, moment(100));
    assert!(custom.paths.is_empty());
    // an empty list admits nothing
    let nothing = traverse_relationship_graph_at(&world, ids[0], None, Some(Vec::new()), moment(100));
    assert!(nothing.paths.is_empty());
    assert_eq!(nothing.visited_count, 1);

    let live = traverse_relationship_graph(&world, ids[1], Some(2), None);
    let paths: Vec<Vec<u128>> = live.paths.iter().map(|p| numbers(p)).collect();
    assert_eq!(paths, vec![vec![2, 1], vec![2, 3], vec![2, 1, 4]]);
}

#[test]
fn a_query_admits_only_the_very_type_and_a_command_the_variant() {
    let mut world = IdentityWorld::new();
    let a = active(&mut world, 1, IdentityType::Person);
    let b = active(&mut world, 2, IdentityType::Person);
    let c = active(&mut world, 3, IdentityType::Organization);
    establish(&mut world, 10, a, b, RelationshipType::Custom("mentor".to_string()), open_rules())
        .unwrap()
        .unwrap();
    establish(&mut world, 11, a, c, RelationshipType::Owns { percentage: 50 }, open_rules())
        .unwrap()
        .unwrap();

    let ask = |world: &IdentityWorld, listed: RelationshipType| -> Vec<Vec<u128>> {
        traverse_relationship_graph_at(world, a, None, Some(vec![listed]), moment(100))
            .paths
            .iter()
            .map(|p| numbers(p))
            .collect()
    };
    assert_eq!(ask(&world, RelationshipType::Custom("mentor".to_string())), vec![vec![1, 2]]);
    assert!(ask(&world, RelationshipType::Custom("friend".to_string())).is_empty());
    assert_eq!(ask(&world, RelationshipType::Owns { percentage: 50 }), vec![vec![1, 3]]);
    assert!(ask(&world, RelationshipType::Owns { percentage: 10 }).is_empty());

    // a command follows every relationship of a listed variant
    let command = |listed: RelationshipType, to: IdentityId| TraverseRelationshipsCommand {
        from_identity: a,
        to_identity: Some(to),
        max_depth: None,
        relationship_filter: Some(vec![listed]),
    };
    let found = traverse_relationships(
        &mut world,
        command(RelationshipType::Custom("friend".to_string()), b),
        moment(100),
    );
    assert_eq!(found.traversed.paths.len(), 1);
    assert_eq!(numbers(&found.traversed.paths[0].identities), vec![1, 2]);
    let found = traverse_relationships(
        &mut world,
        command(RelationshipType::Owns { percentage: 10 }, c),
        moment(100),
    );
    assert_eq!(found.traversed.paths.len(), 1);
    let found = traverse_relationships(&mut world, command(RelationshipType::Trusts, b), moment(100));
    assert!(found.traversed.paths.is_empty());

    // a command follows a relationship from its source only
    let back = TraverseRelationshipsCommand {
        from_identity: b,
        to_identity: Some(a),
        max_depth: None,
        relationship_filter: None,
    };
    let found = traverse_relationships(&mut world, back, moment(100));
    assert!(found.traversed.paths.is_empty());
    assert_eq!(found.traversed.total_identities_visited, 1);
    let there = traverse_relationship_graph_at(&world, b, None, None, moment(100));
    let paths: Vec<Vec<u128>> = there.paths.iter().map(|p| numbers(p)).collect();
    assert_eq!(paths, vec![vec![2, 1], vec![2, 1, 3]]);
}

#[test]
fn a_relationship_keeps_its_metadata() {
    let mut world = IdentityWorld::new();
    let a = active(&mut world, 1, IdentityType::Person);
    let b = active(&mut world, 2, IdentityType::Person);
    let command = EstablishRelationshipCommand {
        from_identity: a,
        to_identity: b,
        relationship_type: RelationshipType::Trusts,
        rules: open_rules(),
        established_by: operator(),
        metadata: Some("{\"source\":\"import\"}".to_string()),
    };
    establish_relationship(&mut world, command, RelationshipId::from_u128(10), moment(10))
        .unwrap()
        .unwrap();
    assert_eq!(world.relationships[0].metadata, Some("{\"source\":\"import\"}".to_string()));
    assert_eq!(world.relationships[0].clone().metadata, world.relationships[0].metadata);
}

#[test]
fn traversal_command_sweeps_and_reports_the_path_to_the_target() {
    let mut world = IdentityWorld::new();
    let ids = ring(&mut world);
    // a shortcut 1 -> 4 that has expired by the time of the traversal
    let short = RelationshipRules { expires_at: Some(moment(50)), ..open_rules() };
    establish(&mut world, 15, ids[0], ids[3], RelationshipType::Delegates { scope: "all".to_string() }, short)
        .unwrap()
        .unwrap();

    let command = TraverseRelationshipsCommand {
        from_identity: ids[0],
        to_identity: Some(ids[3]),
        max_depth: Some(3),
        relationship_filter: None,
    };
    let outcome = traverse_relationships(&mut world, command, moment(100));
    assert_eq!(outcome.expired.len(), 1);
    assert_eq!(outcome.expired[0].relationship_id, RelationshipId::from_u128(15));
    assert_eq!(world.relationships.len(), 5);

    let event = outcome.traversed;
    assert_eq!(event.from_identity, ids[0]);
    assert_eq!(event.to_identity, Some(ids[3]));
    assert_eq!(event.traversed_at, moment(100));
    assert_eq!(event.total_identities_visited, 4);
    assert_eq!(event.paths.len(), 1);
    assert_eq!(numbers(&event.paths[0].identities), vec![1, 3, 4]);
    let rels: Vec<u128> = event.paths[0].relationships.iter().map(|r| r.as_u128()).collect();
    assert_eq!(rels, vec![14, 12]);

    // out of reach within one step
    let command = TraverseRelationshipsCommand {
        from_identity: ids[0],
        to_identity: Some(ids[3]),
        max_depth: Some(1),
        relationship_filter: None,
    };
    let outcome = traverse_relationships(&mut world, command, moment(100));
    assert!(outcome.traversed.paths.is_empty());
    assert_eq!(outcome.traversed.total_identities_visited, 3);

    // without a target no path is reported
    let command = TraverseRelationshipsCommand {
        from_identity: ids[0],
        to_identity: None,
        max_depth: None,
        relationship_filter: None,
    };
    let outcome = traverse_relationships(&mut world, command, moment(100));
    assert!(outcome.traversed.paths.is_empty());
    assert_eq!(outcome.traversed.total_identities_visited, 4);
}

#[test]
fn search_skips_expired_relationships() {
    let mut world = IdentityWorld::new();
    let a = active(&mut world, 1, IdentityType::Person);
    let b = active(&mut world, 2, IdentityType::Person);
    let rules = RelationshipRules { expires_at: Some(moment(100)), ..open_rules() };
    establish(&mut world, 10, a, b, RelationshipType::Trusts, rules).unwrap().unwrap();

    let rules = TraversalRules::for_command(None);
    let before = traverse(&world.relationships, a, None, &rules, moment(100));
    assert_eq!(before.len(), 2);
    assert_eq!(numbers(&before[0].identities), vec![1]);
    assert!(before[0].relationships.is_empty());
    assert_eq!(numbers(&before[1].identities), vec![1, 2]);

    let after = traverse(&world.relationships, a, None, &rules, moment(101));
    // followed from the target as well where the rules say so
    let both = TraversalRules::for_query(None);
    let back = traverse(&world.relationships, b, None, &both, moment(100));
    assert_eq!(back.len(), 2);
    assert_eq!(numbers(&back[1].identities), vec![2, 1]);
    assert_eq!(traverse(&world.relationships, b, None, &rules, moment(100)).len(), 1);
    assert_eq!(after.len(), 1);
}

#[test]
fn relationships_are_found_by_direction() {
    let mut world = IdentityWorld::new();
    let ids = ring(&mut world);
    let ask = |incoming: bool, outgoing: bool| FindRelationshipsByIdentityQuery {
        identity_id: ids[0],
        include_incoming: incoming,
        include_outgoing: outgoing,
    };
    let found = |world: &IdentityWorld, incoming: bool, outgoing: bool| -> Vec<u128> {
        find_relationships_by_identity(world, &ask(incoming, outgoing))
            .iter()
            .map(|view| view.relationship_id.as_u128())
            .collect()
    };
    assert_eq!(found(&world, false, true), vec![10, 14]);
    assert_eq!(found(&world, true, false), vec![13]);
    assert_eq!(found(&world, true, true), vec![10, 13, 14]);
    assert!(found(&world, false, false).is_empty());
    let view = &find_relationships_by_identity(&world, &ask(true, false))[0];
    assert_eq!(view.from_identity, ids[3]);
    assert_eq!(view.to_identity, ids[0]);
    assert_eq!(view.relationship_type, RelationshipType::Trusts);
}

#[test]
fn relationships_are_released_when_an_end_leaves_the_active_status() {
    let mut world = IdentityWorld::new();
    let ids = ring(&mut world);
    let until = RelationshipRules { expires_at: Some(moment(500)), ..open_rules() };
    establish(&mut world, 15, ids[1], ids[3], RelationshipType::Trusts, until).unwrap().unwrap();

    // everything holds
    assert!(release_relationships(&mut world, moment(100)).is_empty());
    assert_eq!(world.relationships.len(), 6);

    let suspend = UpdateIdentityCommand {
        identity_id: ids[2],
        new_status: Some(IdentityStatus::Suspended),
        updated_by: operator(),
    };
    update_identity(&mut world, suspend, moment(200)).unwrap();
    let events = release_relationships(&mut world, moment(600));
    // 11: 2 -> 3, 12: 3 -> 4 and 14: 1 -> 3 touch the suspended identity; 15 has expired
    let released: Vec<u128> = events.iter().map(|e| e.relationship_id.as_u128()).collect();
    assert_eq!(released, vec![11, 12, 14, 15]);
    for event in events.iter() {
        assert!(!event.is_valid);
        assert_eq!(event.validated_at, moment(600));
    }
    assert_eq!(events[0].reason, "One or both identities are not active");
    assert_eq!(events[3].reason, "Relationship has expired");
    let kept: Vec<u128> = world.relationships.iter().map(|r| r.relationship_id.as_u128()).collect();
    assert_eq!(kept, vec![10, 13]);
    assert!(release_relationships(&mut world, moment(600)).is_empty());
}
