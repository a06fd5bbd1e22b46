//! The read-models and the projections into other domains.

use cim_domain_identity::projections::{AppliedEvent, IdentitySummary};
use cim_domain_identity::systems::{
    create_identity, create_projection, sync_projections_system, synchronize_projections,
    ProjectionLink,
};
use cim_domain_identity::{
    CreateIdentityCommand, CreateProjectionCommand, CrossDomainReference, DomainEvent, EventEnvelope,
    EventId, IdentitiesMerged, IdentityArchived, IdentityCreated, IdentityError, IdentityId,
    IdentityProjectionSystem, IdentityStatus, IdentityType, IdentityUpdated, IdentityWorld,
    ProjectionContext, ProjectionSyncStatus, ProjectionType, ReferenceType,
    RelationshipEstablished, RelationshipExpired, RelationshipId, RelationshipRevoked,
    RelationshipType, SyncProjectionsCommand, Timestamp, VerificationCompleted, VerificationLevel, WorkflowCompleted,
    WorkflowId, WorkflowStarted, WorkflowStatus, WorkflowStepCompleted, WorkflowTimedOut,
    WorkflowType,
};

fn time(millis: i64) -> Timestamp {
    Timestamp::from_millis(millis)
}

fn who(n: u128) -> IdentityId {
    IdentityId::from_u128(n)
}

fn envelope(n: u128, event: DomainEvent) -> EventEnvelope {
    EventEnvelope { event_id: EventId::from_u128(n), event }
}

fn created(n: u128, identity_type: IdentityType) -> DomainEvent {
    DomainEvent::IdentityCreated(IdentityCreated {
        identity_id: who(n),
        identity_type,
        created_by: None,
        created_at: time(10),
        external_reference: None,
    })
}

fn started(workflow: u128, owner: u128, status: WorkflowStatus) -> DomainEvent {
    DomainEvent::WorkflowStarted(WorkflowStarted {
        workflow_id: WorkflowId::from_u128(workflow),
        identity_id: who(owner),
        workflow_type: WorkflowType::Onboarding,
        started_by: who(9),
        started_at: time(20),
        status,
        context: String::new(),
    })
}

fn stepped(workflow: u128, owner: u128, status: WorkflowStatus) -> DomainEvent {
    DomainEvent::WorkflowStepCompleted(WorkflowStepCompleted {
        workflow_id: WorkflowId::from_u128(workflow),
        identity_id: who(owner),
        workflow_type: WorkflowType::Onboarding,
        step_id: "s".to_string(),
        next_step: None,
        workflow_status: status,
        completed_at: time(30),
    })
}

fn edge(relationship: u128, from: u128, to: u128) -> DomainEvent {
    DomainEvent::RelationshipEstablished(RelationshipEstablished {
        relationship_id: RelationshipId::from_u128(relationship),
        from_identity: who(from),
        to_identity: who(to),
        relationship_type: RelationshipType::Trusts,
        established_by: who(9),
        established_at: time(15),
    })
}

fn snapshot(models: &IdentityProjectionSystem) -> String {
    format!("{:?}", models)
}

fn stream() -> Vec<EventEnvelope> {
    vec![
        envelope(1, created(1, IdentityType::Person)),
        envelope(2, created(2, IdentityType::Organization)),
        envelope(
            3,
            DomainEvent::IdentityUpdated(IdentityUpdated {
                identity_id: who(1),
                old_status: IdentityStatus::Pending,
                new_status: IdentityStatus::Active,
                updated_by: who(9),
                updated_at: time(11),
            }),
        ),
        envelope(
            4,
            DomainEvent::VerificationCompleted(VerificationCompleted {
                identity_id: who(2),
                verification_successful: true,
                new_verification_level: VerificationLevel::Basic,
                verified_by: who(9),
                completed_at: time(12),
            }),
        ),
        envelope(5, edge(50, 1, 2)),
        envelope(6, edge(51, 2, 1)),
        envelope(7, started(70, 1, WorkflowStatus::WaitingForInput)),
        envelope(8, started(71, 2, WorkflowStatus::InProgress)),
        envelope(9, stepped(70, 1, WorkflowStatus::InProgress)),
        envelope(10, stepped(71, 2, WorkflowStatus::WaitingForApproval)),
    ]
}

#[test]
fn replaying_an_event_leaves_the_state_as_it_was() {
    let events = stream();
    let mut models = IdentityProjectionSystem::new();
    for event in events.iter() {
        models.apply(event).unwrap();
        let once = snapshot(&models);
        // the same event again, at once
        models.apply(event).unwrap();
        assert_eq!(snapshot(&models), once);
    }
    let end = snapshot(&models);
    // and the whole stream again, late
    for event in events.iter() {
        models.apply(event).unwrap();
    }
    assert_eq!(snapshot(&models), end);
    assert_eq!(models.identities.summaries.len(), 2);
    assert_eq!(models.graph.edges.len(), 2);
    assert_eq!(models.workflows.active.len(), 2);
    assert_eq!(models.workflows.requires_action, vec![WorkflowId::from_u128(71)]);
    assert_eq!(models.applied.len(), 10);
    assert_eq!(models.applied[4], AppliedEvent { entity: 50, event_id: EventId::from_u128(5) });
}

#[test]
fn summaries_follow_the_identities() {
    let mut models = IdentityProjectionSystem::new();
    for event in stream().iter() {
        models.apply(event).unwrap();
    }
    assert_eq!(
        models.identities.summaries,
        vec![
            IdentitySummary {
                identity_id: who(1),
                identity_type: IdentityType::Person,
                status: IdentityStatus::Active,
                verification_level: VerificationLevel::Unverified,
                updated_at: time(11),
            },
            IdentitySummary {
                identity_id: who(2),
                identity_type: IdentityType::Organization,
                // a pending identity is active once verified
                status: IdentityStatus::Active,
                verification_level: VerificationLevel::Basic,
                updated_at: time(12),
            },
        ]
    );

    models
        .apply(&envelope(
            20,
            DomainEvent::IdentitiesMerged(IdentitiesMerged {
                source_identity: who(1),
                target_identity: who(2),
                merged_by: who(9),
                merged_at: time(40),
                migrated_relationships: 2,
                migrated_workflows: 1,
                retained_verification_level: VerificationLevel::Basic,
            }),
        ))
        .unwrap();
    models
        .apply(&envelope(
            21,
            DomainEvent::IdentityArchived(IdentityArchived {
                identity_id: who(2),
                previous_status: IdentityStatus::Active,
                archived_by: who(9),
                archived_at: time(41),
                reason: None,
            }),
        ))
        .unwrap();
    assert_eq!(models.identities.summaries[0].status, IdentityStatus::Merged { merged_into: who(2) });
    assert_eq!(models.identities.summaries[0].updated_at, time(40));
    assert_eq!(models.identities.summaries[1].status, IdentityStatus::Archived);
    assert_eq!(models.identities.summaries[1].verification_level, VerificationLevel::Basic);
}

#[test]
fn graph_follows_the_relationships() {
    let mut models = IdentityProjectionSystem::new();
    for event in stream().iter() {
        models.apply(event).unwrap();
    }
    let edges =
        |m: &IdentityProjectionSystem| -> Vec<u128> { m.graph.edges.iter().map(|e| e.relationship_id.as_u128()).collect() };
    assert_eq!(edges(&models), vec![50, 51]);
    assert_eq!(models.graph.edges[0].from_identity, who(1));
    assert_eq!(models.graph.edges[0].to_identity, who(2));

    // a second event for the same relationship adds no second edge
    models.apply(&envelope(30, edge(50, 1, 2))).unwrap();
    assert_eq!(edges(&models), vec![50, 51]);
    assert_eq!(models.graph.outgoing(who(1)).len(), 1);
    assert_eq!(models.graph.incoming(who(2)).len(), 1);
    // an event that tells otherwise of the relationship replaces its edge, in place
    models.apply(&envelope(33, edge(50, 2, 1))).unwrap();
    assert_eq!(edges(&models), vec![50, 51]);
    assert_eq!(models.graph.edges[0].from_identity, who(2));
    assert_eq!(models.graph.edges[0].to_identity, who(1));
    assert!(models.graph.outgoing(who(1)).is_empty());
    models.apply(&envelope(34, edge(50, 1, 2))).unwrap();
    assert_eq!(models.graph.edges[0].from_identity, who(1));

    models
        .apply(&envelope(
            31,
            DomainEvent::RelationshipExpired(RelationshipExpired {
                relationship_id: RelationshipId::from_u128(50),
                from_identity: who(1),
                to_identity: who(2),
                relationship_type: RelationshipType::Trusts,
                expired_at: time(50),
            }),
        ))
        .unwrap();
    assert_eq!(edges(&models), vec![51]);
    models
        .apply(&envelope(
            32,
            DomainEvent::RelationshipRevoked(RelationshipRevoked {
                relationship_id: RelationshipId::from_u128(51),
                revoked_by: who(9),
                revoked_at: time(51),
                reason: None,
            }),
        ))
        .unwrap();
    assert!(edges(&models).is_empty());
}

#[test]
fn worklists_follow_the_new_status_of_a_workflow() {
    let mut models = IdentityProjectionSystem::new();
    models.apply(&envelope(1, created(1, IdentityType::Person))).unwrap();
    let waiting = |m: &IdentityProjectionSystem| -> Vec<u128> {
        m.workflows.requires_action.iter().map(|id| id.as_u128()).collect()
    };
    let active = |m: &IdentityProjectionSystem| -> Vec<u128> {
        m.workflows.active.iter().map(|e| e.workflow_id.as_u128()).collect()
    };

    models.apply(&envelope(2, started(70, 1, WorkflowStatus::WaitingForInput))).unwrap();
    models.apply(&envelope(3, started(71, 1, WorkflowStatus::InProgress))).unwrap();
    assert_eq!(active(&models), vec![70, 71]);
    assert_eq!(waiting(&models), vec![70]);

    models.apply(&envelope(4, stepped(71, 1, WorkflowStatus::WaitingForApproval))).unwrap();
    assert_eq!(waiting(&models), vec![70, 71]);
    assert_eq!(models.workflows.active[1].status, WorkflowStatus::WaitingForApproval);
    models.apply(&envelope(5, stepped(70, 1, WorkflowStatus::InProgress))).unwrap();
    assert_eq!(waiting(&models), vec![71]);
    assert_eq!(active(&models), vec![70, 71]);

    // a step that completes the workflow takes it off both lists
    models.apply(&envelope(6, stepped(71, 1, WorkflowStatus::Completed))).unwrap();
    assert_eq!(active(&models), vec![70]);
    assert!(waiting(&models).is_empty());

    // a completed workflow is not entered again by a replayed start
    models.apply(&envelope(3, started(71, 1, WorkflowStatus::InProgress))).unwrap();
    assert_eq!(active(&models), vec![70]);

    models
        .apply(&envelope(
            7,
            DomainEvent::WorkflowTimedOut(WorkflowTimedOut {
                workflow_id: WorkflowId::from_u128(70),
                identity_id: who(1),
                workflow_type: WorkflowType::Onboarding,
                step_id: "s".to_string(),
                timed_out_at: time(60),
            }),
        ))
        .unwrap();
    assert!(active(&models).is_empty());

    models.apply(&envelope(8, started(72, 1, WorkflowStatus::WaitingForInput))).unwrap();
    models
        .apply(&envelope(
            9,
            DomainEvent::WorkflowCompleted(WorkflowCompleted {
                workflow_id: WorkflowId::from_u128(72),
                identity_id: who(1),
                workflow_type: WorkflowType::Onboarding,
                final_status: WorkflowStatus::Cancelled,
                completed_at: time(61),
            }),
        ))
        .unwrap();
    assert!(active(&models).is_empty());
    assert!(waiting(&models).is_empty());
}

#[test]
fn an_event_about_an_unseen_identity_is_left_for_later() {
    let mut models = IdentityProjectionSystem::new();
    let before = snapshot(&models);
    let early = envelope(5, edge(50, 1, 2));
    match models.apply(&early) {
        Err(IdentityError::ProjectionSyncFailed(text)) => {
            assert_eq!(text, "Identity not yet visible")
        }
        other => panic!("unexpected {:?}", other),
    }
    assert_eq!(snapshot(&models), before);
    assert!(!models.has_applied(&early));

    models.apply(&envelope(1, created(1, IdentityType::Person))).unwrap();
    assert!(models.apply(&early).is_err());
    models.apply(&envelope(2, created(2, IdentityType::Person))).unwrap();
    // now the retry goes through
    models.apply(&early).unwrap();
    assert_eq!(models.graph.edges.len(), 1);
    assert!(models.has_applied(&early));
}

fn reference(domain: &str, entity_id: &str) -> CrossDomainReference {
    CrossDomainReference {
        domain: domain.to_string(),
        entity_type: "Entity".to_string(),
        entity_id: entity_id.to_string(),
        reference_type: ReferenceType::Linked,
    }
}

fn creation(n: u128, external_reference: Option<CrossDomainReference>) -> IdentityCreated {
    IdentityCreated {
        identity_id: who(n),
        identity_type: IdentityType::Person,
        created_by: None,
        created_at: time(10),
        external_reference,
    }
}

#[test]
fn new_identity_is_linked_by_its_reference() {
    let text = "67e55044-10b1-426f-9247-bb680e5fe0c8";
    let value = uuid::Uuid::parse_str(text).unwrap().as_u128();
    assert_eq!(value, 0x67e5504410b1426f9247bb680e5fe0c8);
    let mut world = IdentityWorld::new();

    match sync_projections_system(&mut world, &creation(1, Some(reference("person", text)))) {
        ProjectionLink::Person(link) => {
            assert_eq!(link.identity_id, who(1));
            assert_eq!(link.person_id, value);
        }
        other => panic!("unexpected {:?}", other),
    }
    match sync_projections_system(&mut world, &creation(2, Some(reference("organization", text)))) {
        ProjectionLink::Organization(link) => {
            assert_eq!(link.identity_id, who(2));
            assert_eq!(link.organization_id, value);
            assert_eq!(link.role, None);
        }
        other => panic!("unexpected {:?}", other),
    }
    let unlinked = [
        creation(3, Some(reference("person", "not an identifier"))),
        creation(4, Some(reference("location", text))),
        creation(5, None),
    ];
    for event in unlinked.iter() {
        assert!(matches!(sync_projections_system(&mut world, event), ProjectionLink::Unlinked));
    }

    assert_eq!(world.projections.len(), 5);
    let home = &world.projections[0];
    assert_eq!(home.identity_id, who(1));
    assert_eq!(home.projection_type, ProjectionType::Primary);
    assert_eq!(home.target_domain, "identity");
    assert_eq!(home.sync_status, ProjectionSyncStatus::Synced);

    // following the same creation again adds no second projection
    sync_projections_system(&mut world, &creation(1, None));
    assert_eq!(world.projections.len(), 5);
}

#[test]
fn projections_are_created_pending_and_checked_against_the_identities() {
    let mut world = IdentityWorld::new();
    let command = CreateIdentityCommand {
        identity_type: IdentityType::Person,
        initial_claims: None,
        created_by: who(9),
        tags: Vec::new(),
        external_reference: None,
    };
    create_identity(&mut world, command, who(1), time(1)).unwrap();
    let project = |identity: u128, domain: &str| CreateProjectionCommand {
        identity_id: who(identity),
        projection_type: ProjectionType::Replica,
        target_domain: domain.to_string(),
        context: ProjectionContext {
            source_domain: "identity".to_string(),
            target_domain: domain.to_string(),
            sync_interval_millis: 60_000,
            last_sync: None,
            sync_errors: 0,
        },
    };
    let event = create_projection(&mut world, project(1, "billing"), 100, 200, time(5));
    assert_eq!(event.projection_id, 100);
    assert_eq!(event.target_id, 200);
    assert_eq!(event.identity_id, who(1));
    assert_eq!(event.target_domain, "billing");
    assert_eq!(event.created_at, time(5));
    create_projection(&mut world, project(2, "billing"), 101, 201, time(6));
    create_projection(&mut world, project(3, "crm"), 102, 202, time(7));

    assert_eq!(world.projections.len(), 3);
    assert_eq!(world.projections[0].sync_status, ProjectionSyncStatus::Pending);
    assert_eq!(world.projections[0].last_sync, time(5));
    // two of the three belong to identities that are not known
    assert_eq!(cim_domain_identity::validate_projection_system(&world), 2);
}

#[test]
fn synchronization_brings_projections_up_to_date() {
    let mut world = IdentityWorld::new();
    let command = CreateIdentityCommand {
        identity_type: IdentityType::Person,
        initial_claims: None,
        created_by: who(9),
        tags: Vec::new(),
        external_reference: None,
    };
    create_identity(&mut world, command, who(1), time(1)).unwrap();
    let project = |identity: u128, projection_type: ProjectionType| CreateProjectionCommand {
        identity_id: who(identity),
        projection_type,
        target_domain: "billing".to_string(),
        context: ProjectionContext {
            source_domain: "identity".to_string(),
            target_domain: "billing".to_string(),
            sync_interval_millis: 1_000,
            last_sync: None,
            sync_errors: 0,
        },
    };
    create_projection(&mut world, project(1, ProjectionType::Replica), 100, 200, time(5));
    create_projection(&mut world, project(1, ProjectionType::Cached), 101, 201, time(5));
    create_projection(&mut world, project(2, ProjectionType::Replica), 102, 202, time(5));

    // only the replicas, and only what is out of date
    let replicas = SyncProjectionsCommand {
        identity_id: None,
        projection_type: Some(ProjectionType::Replica),
        force: false,
    };
    let event = synchronize_projections(&mut world, replicas, time(50));
    assert_eq!(event.projections_synced, 1);
    assert_eq!(event.sync_errors, 1);
    assert_eq!(event.synced_at, time(50));
    assert_eq!(event.identity_id, None);
    assert_eq!(world.projections[0].sync_status, ProjectionSyncStatus::Synced);
    assert_eq!(world.projections[0].last_sync, time(50));
    assert_eq!(world.projections[1].sync_status, ProjectionSyncStatus::Pending);
    assert_eq!(world.projections[1].last_sync, time(5));
    assert_eq!(
        world.projections[2].sync_status,
        ProjectionSyncStatus::Failed("Identity not found".to_string())
    );
    assert_eq!(world.projections[2].last_sync, time(5));

    // what is synchronized is left alone unless forced
    let one = SyncProjectionsCommand { identity_id: Some(who(1)), projection_type: None, force: false };
    let event = synchronize_projections(&mut world, one, time(60));
    assert_eq!((event.projections_synced, event.sync_errors), (1, 0));
    assert_eq!(world.projections[0].last_sync, time(50));
    assert_eq!(world.projections[1].last_sync, time(60));
    let forced = SyncProjectionsCommand { identity_id: Some(who(1)), projection_type: None, force: true };
    let event = synchronize_projections(&mut world, forced, time(70));
    assert_eq!((event.projections_synced, event.sync_errors), (2, 0));
    assert_eq!(event.identity_id, Some(who(1)));
    assert_eq!(world.projections[0].last_sync, time(70));
    assert_eq!(world.projections[0].last_synced, time(70));
}

#[test]
fn read_models_answer_by_identity() {
    let mut models = IdentityProjectionSystem::new();
    for event in stream().iter() {
        models.apply(event).unwrap();
    }
    models.apply(&envelope(11, created(3, IdentityType::Person))).unwrap();
    models.apply(&envelope(12, edge(52, 1, 3))).unwrap();

    let summary = models.identities.by_id(who(2)).unwrap();
    assert_eq!(summary.identity_type, IdentityType::Organization);
    assert_eq!(summary.verification_level, VerificationLevel::Basic);
    assert!(models.identities.by_id(who(404)).is_none());
    let persons: Vec<u128> =
        models.identities.by_type(IdentityType::Person).iter().map(|s| s.identity_id.as_u128()).collect();
    assert_eq!(persons, vec![1, 3]);

    let ids = |edges: Vec<cim_domain_identity::projections::GraphEdge>| -> Vec<u128> {
        edges.iter().map(|e| e.relationship_id.as_u128()).collect()
    };
    assert_eq!(ids(models.graph.outgoing(who(1))), vec![50, 52]);
    assert_eq!(ids(models.graph.incoming(who(1))), vec![51]);
    assert!(models.graph.outgoing(who(3)).is_empty());
    assert_eq!(models.graph.outgoing(who(1))[1].to_identity, who(3));
    let graph = models.graph.graph_of(who(1), time(99));
    assert_eq!(graph.identity_id, who(1));
    let direct: Vec<u128> = graph.direct_relationships.iter().map(|r| r.as_u128()).collect();
    assert_eq!(direct, vec![50, 51, 52]);
    assert_eq!(graph.relationship_count, 3);
    assert_eq!(graph.last_updated, time(99));

    let owned: Vec<u128> =
        models.workflows.active_by_identity(who(2)).iter().map(|e| e.workflow_id.as_u128()).collect();
    assert_eq!(owned, vec![71]);
    assert!(models.workflows.is_awaiting_action(WorkflowId::from_u128(71)));
    assert!(!models.workflows.is_awaiting_action(WorkflowId::from_u128(70)));
}
