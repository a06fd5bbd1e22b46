//! Identity verification: starting it, recording its outcome, reporting the
//! verification workflows that have ended, and marking claims as verified.

use crate::aggregate::IdentityAggregate;
use crate::commands::{CompleteVerificationCommand, StartVerificationCommand};
use crate::components::{
    IdentityClaim, IdentityEntity, IdentityStatus, IdentityVerification, IdentityWorkflow,
    VerificationLevel, WorkflowType,
};
use crate::error::{ErrorView, IdentityError, IdentityResult};
use crate::events::{VerificationCompleted, VerificationStarted, WorkflowCompleted};
use crate::time::Timestamp;
use crate::world::{identity_absent, identity_at, IdentityRecord, IdentityWorld};
use vstd::prelude::*;

verus! {

/// What starting a verification at a given time gives. An unknown identity is
/// refused. An identity at the highest level has nothing left to verify, and
/// no event is given; any other gets the event. The world is only read.
pub open spec fn verification_start(
    world: IdentityWorld,
    command: StartVerificationCommand,
    now: Timestamp,
    r: IdentityResult<Option<VerificationStarted>>,
) -> bool {
    if identity_absent(world.identities@, command.identity_id) {
        r matches Err(e) && e@ == ErrorView::IdentityNotFound(command.identity_id)
    } else {
        forall|i: int|
            identity_at(world.identities@, command.identity_id, i) ==> if world.identities@[i].verification.verification_level
                is InPerson {
                r == Ok::<Option<VerificationStarted>, IdentityError>(None)
            } else {
                r == Ok::<Option<VerificationStarted>, IdentityError>(
                    Some(
                        VerificationStarted {
                            identity_id: command.identity_id,
                            verification_method: command.verification_method,
                            initiated_by: command.initiated_by,
                            started_at: now,
                        },
                    ),
                )
            }
    }
}

/// Starts the verification of an identity at the given time.
pub fn start_verification(world: &IdentityWorld, command: StartVerificationCommand, now: Timestamp) -> (r:
    IdentityResult<Option<VerificationStarted>>)
    ensures
        verification_start(*world, command, now, r),
{
    let i = match world.find_identity(command.identity_id) {
        Some(i) => i,
        None => {
            return Err(IdentityError::IdentityNotFound(command.identity_id));
        },
    };
    match world.identities[i].verification.verification_level {
        VerificationLevel::InPerson => Ok(None),
        _ => Ok(
            Some(
                VerificationStarted {
                    identity_id: command.identity_id,
                    verification_method: command.verification_method,
                    initiated_by: command.initiated_by,
                    started_at: now,
                },
            ),
        ),
    }
}

/// Starts the verification of an identity, now.
pub fn start_verification_system(world: &IdentityWorld, command: StartVerificationCommand) -> (r:
    IdentityResult<Option<VerificationStarted>>)
    ensures
        exists|now: Timestamp| verification_start(*world, command, now, r),
{
    let now = Timestamp::now();
    start_verification(world, command, now)
}

/// The record of an identity after a successful verification: the level and
/// who verified it when and how are recorded, and a pending identity becomes
/// active. Any other status stays as it is, that of an archived or merged
/// identity too.
pub open spec fn verified_record(
    record: IdentityRecord,
    command: CompleteVerificationCommand,
    now: Timestamp,
) -> IdentityRecord {
    IdentityRecord {
        entity: IdentityEntity {
            status: if record.entity.status is Pending {
                IdentityStatus::Active
            } else {
                record.entity.status
            },
            ..record.entity
        },
        verification: IdentityVerification {
            verification_level: command.verification_level,
            verified_at: Some(now),
            verified_by: Some(command.verified_by),
            verification_method: Some(command.verification_method),
        },
        ..record
    }
}

/// What recording the outcome of a verification at a given time does. An
/// unknown identity is refused. A failed verification changes nothing and
/// is reported with the level that the identity has. A successful one is
/// refused where the rules object and recorded otherwise.
pub open spec fn verification_outcome(
    before: IdentityWorld,
    command: CompleteVerificationCommand,
    now: Timestamp,
    after: IdentityWorld,
    r: IdentityResult<VerificationCompleted>,
) -> bool {
    if identity_absent(before.identities@, command.identity_id) {
        &&& r matches Err(e)
        &&& e@ == ErrorView::IdentityNotFound(command.identity_id)
        &&& after == before
    } else {
        forall|i: int|
            identity_at(before.identities@, command.identity_id, i) ==> {
                let record = before.identities@[i];
                if !command.verification_result {
                    &&& r == Ok::<VerificationCompleted, IdentityError>(
                        VerificationCompleted {
                            identity_id: command.identity_id,
                            verification_successful: false,
                            new_verification_level: record.verification.verification_level,
                            verified_by: command.verified_by,
                            completed_at: now,
                        },
                    )
                    &&& after == before
                } else {
                    match IdentityAggregate::verification_verdict(
                        record.verification.verification_level,
                        command.verification_level,
                    ) {
                        Some(verdict) => {
                            &&& r matches Err(e)
                            &&& e@ == verdict
                            &&& after == before
                        },
                        None => {
                            &&& r == Ok::<VerificationCompleted, IdentityError>(
                                VerificationCompleted {
                                    identity_id: command.identity_id,
                                    verification_successful: true,
                                    new_verification_level: command.verification_level,
                                    verified_by: command.verified_by,
                                    completed_at: now,
                                },
                            )
                            &&& after.identities@ == before.identities@.update(
                                i,
                                verified_record(record, command, now),
                            )
                            &&& after.relationships == before.relationships
                            &&& after.workflows == before.workflows
                            &&& after.projections == before.projections
                        },
                    }
                }
            }
    }
}

/// Records the outcome of a verification at the given time.
pub fn process_verification(
    world: &mut IdentityWorld,
    command: CompleteVerificationCommand,
    now: Timestamp,
) -> (r: IdentityResult<VerificationCompleted>)
    ensures
        verification_outcome(*old(world), command, now, *final(world), r),
        final(world).follows(*old(world)),
        old(world).wf() ==> final(world).wf(),
{
    let i = match world.find_identity(command.identity_id) {
        Some(i) => i,
        None => {
            return Err(IdentityError::IdentityNotFound(command.identity_id));
        },
    };
    if !command.verification_result {
        return Ok(
            VerificationCompleted {
                identity_id: command.identity_id,
                verification_successful: false,
                new_verification_level: world.identities[i].verification.verification_level,
                verified_by: command.verified_by,
                completed_at: now,
            },
        );
    }
    match IdentityAggregate::validate_verification_transition(
        world.identities[i].verification.verification_level,
        command.verification_level,
    ) {
        Err(e) => {
            return Err(e);
        },
        Ok(_) => {},
    }
    match world.identities[i].entity.status {
        IdentityStatus::Pending => {
            world.identities[i].entity.status = IdentityStatus::Active;
        },
        _ => {},
    }
    world.identities[i].verification = IdentityVerification {
        verification_level: command.verification_level,
        verified_at: Some(now),
        verified_by: Some(command.verified_by),
        verification_method: Some(command.verification_method),
    };
    assert(world.identities@ == old(world).identities@.update(
        i as int,
        verified_record(old(world).identities@[i as int], command, now),
    ));
    Ok(
        VerificationCompleted {
            identity_id: command.identity_id,
            verification_successful: true,
            new_verification_level: command.verification_level,
            verified_by: command.verified_by,
            completed_at: now,
        },
    )
}

/// Records the outcome of a verification, now.
pub fn process_verification_system(world: &mut IdentityWorld, command: CompleteVerificationCommand) -> (r:
    IdentityResult<VerificationCompleted>)
    ensures
        exists|now: Timestamp| verification_outcome(*old(world), command, now, *final(world), r),
        final(world).follows(*old(world)),
        old(world).wf() ==> final(world).wf(),
{
    let now = Timestamp::now();
    process_verification(world, command, now)
}

/// A verification workflow of a known identity has ended.
pub open spec fn verification_ended(world: IdentityWorld, workflow: IdentityWorkflow) -> bool {
    &&& workflow.workflow_type is Verification
    &&& workflow.status.terminal()
    &&& !identity_absent(world.identities@, workflow.identity_id)
}

/// The completion events for the verification workflows among the first `n`
/// that have ended, in their order.
pub open spec fn verification_reports(world: IdentityWorld, now: Timestamp, n: int) -> Seq<
    WorkflowCompleted,
>
    decreases n,
{
    if n <= 0 {
        Seq::empty()
    } else if verification_ended(world, world.workflows@[n - 1]) {
        verification_reports(world, now, n - 1).push(
            WorkflowCompleted {
                workflow_id: world.workflows@[n - 1].workflow_id,
                identity_id: world.workflows@[n - 1].identity_id,
                workflow_type: world.workflows@[n - 1].workflow_type,
                final_status: world.workflows@[n - 1].status,
                completed_at: now,
            },
        )
    } else {
        verification_reports(world, now, n - 1)
    }
}

/// Reports every verification workflow of a known identity that has ended,
/// as of the given time.
pub fn complete_verification(world: &IdentityWorld, now: Timestamp) -> (r: Vec<WorkflowCompleted>)
    ensures
        r@ == verification_reports(*world, now, world.workflows@.len() as int),
{
    let mut events: Vec<WorkflowCompleted> = Vec::new();
    let mut i: usize = 0;
    while i < world.workflows.len()
        invariant
            i <= world.workflows@.len(),
            events@ == verification_reports(*world, now, i as int),
        decreases world.workflows@.len() - i,
    {
        let workflow = &world.workflows[i];
        let is_verification = match workflow.workflow_type {
            WorkflowType::Verification => true,
            _ => false,
        };
        if is_verification && workflow.status.is_terminal() && world.find_identity(
            workflow.identity_id,
        ).is_some() {
            events.push(
                WorkflowCompleted {
                    workflow_id: workflow.workflow_id,
                    identity_id: workflow.identity_id,
                    workflow_type: workflow.workflow_type.clone(),
                    final_status: workflow.status.clone(),
                    completed_at: now,
                },
            );
        }
        i += 1;
    }
    events
}

/// Reports every verification workflow of a known identity that has ended,
/// as of now.
pub fn complete_verification_system(world: &IdentityWorld) -> (r: Vec<WorkflowCompleted>)
    ensures
        exists|now: Timestamp|
            r@ == #[trigger] verification_reports(*world, now, world.workflows@.len() as int),
{
    let now = Timestamp::now();
    complete_verification(world, now)
}

/// A claim after the verification level of its identity was taken into
/// account: it is verified if it was, or if the level covers it.
pub open spec fn claim_refreshed(claim: IdentityClaim, level: VerificationLevel) -> IdentityClaim {
    IdentityClaim { verified: claim.verified || claim.covered_by(level), ..claim }
}

/// The record of an identity after its claims were refreshed.
pub open spec fn claims_refreshed(before: IdentityRecord, after: IdentityRecord) -> bool {
    &&& after.entity == before.entity
    &&& after.metadata == before.metadata
    &&& after.verification == before.verification
    &&& after.claims@.len() == before.claims@.len()
    &&& forall|j: int|
        0 <= j < before.claims@.len() ==> #[trigger] after.claims@[j] == claim_refreshed(
            before.claims@[j],
            before.verification.verification_level,
        )
}

impl IdentityRecord {
    /// Marks every claim that the verification level covers as verified.
    pub fn refresh_claims(&mut self)
        ensures
            claims_refreshed(*old(self), *final(self)),
    {
        let level = self.verification.verification_level;
        let mut j: usize = 0;
        while j < self.claims.len()
            invariant
                j <= self.claims@.len(),
                level == old(self).verification.verification_level,
                self.entity == old(self).entity,
                self.metadata == old(self).metadata,
                self.verification == old(self).verification,
                self.claims@.len() == old(self).claims@.len(),
                forall|k: int|
                    0 <= k < j ==> #[trigger] self.claims@[k] == claim_refreshed(
                        old(self).claims@[k],
                        level,
                    ),
                forall|k: int|
                    j <= k < self.claims@.len() ==> #[trigger] self.claims@[k] == old(
                        self,
                    ).claims@[k],
            decreases self.claims@.len() - j,
        {
            if self.claims[j].is_covered_by(&level) {
                self.claims[j].verified = true;
            }
            j += 1;
        }
    }
}

/// Marks, for every identity, the claims that its verification level covers
/// as verified. Nothing else changes.
pub fn update_verification_claims_system(world: &mut IdentityWorld)
    ensures
        final(world).identities@.len() == old(world).identities@.len(),
        forall|i: int|
            0 <= i < old(world).identities@.len() ==> claims_refreshed(
                #[trigger] old(world).identities@[i],
                final(world).identities@[i],
            ),
        final(world).relationships == old(world).relationships,
        final(world).workflows == old(world).workflows,
        final(world).projections == old(world).projections,
        final(world).follows(*old(world)),
        old(world).wf() ==> final(world).wf(),
{
    let mut i: usize = 0;
    while i < world.identities.len()
        invariant
            i <= world.identities@.len(),
            world.identities@.len() == old(world).identities@.len(),
            forall|k: int|
                0 <= k < i ==> claims_refreshed(
                    #[trigger] old(world).identities@[k],
                    world.identities@[k],
                ),
            forall|k: int|
                i <= k < world.identities@.len() ==> #[trigger] world.identities@[k] == old(
                    world,
                ).identities@[k],
            world.relationships == old(world).relationships,
            world.workflows == old(world).workflows,
            world.projections == old(world).projections,
        decreases world.identities@.len() - i,
    {
        world.identities[i].refresh_claims();
        i += 1;
    }
    assert(final(world).follows(*old(world))) by {
        assert forall|k: int| 0 <= k < old(world).identities@.len() implies {
            let was = #[trigger] old(world).identities@[k];
            let is = world.identities@[k];
            &&& is.entity.identity_id == was.entity.identity_id
            &&& is.entity.identity_type == was.entity.identity_type
            &&& was.entity.status.step_allowed(is.entity.status)
            &&& was.verification.verification_level.step_allowed(
                is.verification.verification_level,
            )
        } by {
            assert(claims_refreshed(old(world).identities@[k], world.identities@[k]));
        }
    }
    assert(old(world).wf() ==> world.wf()) by {
        if old(world).wf() {
            assert forall|a: int, b: int| 0 <= a < b < world.identities@.len() implies (
            #[trigger] world.identities@[a]).entity.identity_id != (
            #[trigger] world.identities@[b]).entity.identity_id by {
                assert(claims_refreshed(old(world).identities@[a], world.identities@[a]));
                assert(claims_refreshed(old(world).identities@[b], world.identities@[b]));
            }
        }
    }
}

} // verus!
