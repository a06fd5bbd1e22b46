//! The workflow engine: starting workflows, completing their steps, bringing
//! them to an end and failing those whose active step has run out of time.

use crate::aggregate::IdentityAggregate;
use crate::commands::{CompleteWorkflowCommand, ProcessWorkflowStepCommand, StartWorkflowCommand};
use crate::components::workflow::{
    at_most_one_active, find_step, step_absent, step_at, step_names_distinct,
};
use crate::components::{
    IdentityWorkflow, StepData, StepStatus, WorkflowStatus, WorkflowStep, WorkflowTransition,
};
use crate::error::{ErrorView, IdentityError, IdentityResult};
use crate::events::{
    WorkflowCompleted, WorkflowOutcome, WorkflowStarted, WorkflowStepCompleted, WorkflowTimedOut,
};
use crate::ids::WorkflowId;
use crate::text::clone_optional_text;
use crate::time::Timestamp;
use crate::world::{
    identity_absent, identity_at, workflow_absent, workflow_at, workflows_sound, IdentityWorld,
};
use vstd::prelude::*;

verus! {

/// A step as a definition has to declare it: pending and never entered.
pub open spec fn step_fresh(step: WorkflowStep) -> bool {
    step.status is Pending && step.started_at is None && step.completed_at is None
}

/// A workflow definition is valid when its steps have distinct names and are
/// all fresh, and every transition leads from one of its steps to one of its
/// steps.
pub open spec fn definition_valid(
    steps: Seq<WorkflowStep>,
    transitions: Seq<WorkflowTransition>,
) -> bool {
    &&& step_names_distinct(steps)
    &&& forall|i: int| 0 <= i < steps.len() ==> step_fresh(#[trigger] steps[i])
    &&& forall|t: int|
        0 <= t < transitions.len() ==> !step_absent(steps, (#[trigger] transitions[t]).from_step@)
            && !step_absent(steps, transitions[t].to_step@)
}

/// Whether a workflow definition is valid.
pub fn is_definition_valid(steps: &Vec<WorkflowStep>, transitions: &Vec<WorkflowTransition>) -> (r:
    bool)
    ensures
        r == definition_valid(steps@, transitions@),
{
    let mut i: usize = 0;
    while i < steps.len()
        invariant
            i <= steps@.len(),
            forall|a: int, b: int|
                0 <= a < b < i ==> (#[trigger] steps@[a]).step_id@ != (#[trigger] steps@[b]).step_id@,
            forall|a: int| 0 <= a < i ==> step_fresh(#[trigger] steps@[a]),
        decreases steps@.len() - i,
    {
        let step = &steps[i];
        let fresh = match (step.status, step.started_at, step.completed_at) {
            (StepStatus::Pending, None, None) => true,
            _ => false,
        };
        if !fresh {
            return false;
        }
        match find_step(steps, &step.step_id) {
            Some(first) => {
                if first != i {
                    return false;
                }
            },
            None => {
                return false;
            },
        }
        i += 1;
    }
    let mut t: usize = 0;
    while t < transitions.len()
        invariant
            t <= transitions@.len(),
            forall|u: int|
                0 <= u < t ==> !step_absent(steps@, (#[trigger] transitions@[u]).from_step@)
                    && !step_absent(steps@, transitions@[u].to_step@),
        decreases transitions@.len() - t,
    {
        if find_step(steps, &transitions[t].from_step).is_none() || find_step(
            steps,
            &transitions[t].to_step,
        ).is_none() {
            return false;
        }
        t += 1;
    }
    true
}

/// The steps of a workflow at its start: the first step is active and was
/// entered at `now`, all others wait.
pub open spec fn steps_started(steps: Seq<WorkflowStep>, now: Timestamp) -> Seq<WorkflowStep> {
    if steps.len() == 0 {
        steps
    } else {
        steps.update(
            0,
            WorkflowStep { status: StepStatus::Active, started_at: Some(now), ..steps[0] },
        )
    }
}

/// The workflow that a command starts under the given identifier at the given
/// time. Without steps it has not started; with steps it works on the first.
pub open spec fn workflow_started(
    workflow: IdentityWorkflow,
    command: StartWorkflowCommand,
    workflow_id: WorkflowId,
    now: Timestamp,
) -> bool {
    &&& workflow.workflow_id == workflow_id
    &&& workflow.identity_id == command.identity_id
    &&& workflow.workflow_type == command.workflow_type
    &&& workflow.transitions == command.transitions
    &&& workflow.started_at == Some(now)
    &&& workflow.completed_at is None
    &&& workflow.steps@ == steps_started(command.steps@, now)
    &&& if command.steps@.len() == 0 {
        workflow.status is NotStarted && workflow.current_step is None
    } else {
        workflow.status == WorkflowStatus::while_working_on(command.steps@[0].step_type)
            && workflow.current_step == Some(command.steps@[0].step_id)
    }
}

/// What starting a workflow under a given identifier at a given time does. An
/// unknown identity is refused, then the rules decide, then the definition
/// must be valid and the identifier free; the workflow is appended.
pub open spec fn start_outcome(
    before: IdentityWorld,
    command: StartWorkflowCommand,
    workflow_id: WorkflowId,
    now: Timestamp,
    after: IdentityWorld,
    r: IdentityResult<WorkflowStarted>,
) -> bool {
    if identity_absent(before.identities@, command.identity_id) {
        &&& r matches Err(e)
        &&& e@ == ErrorView::IdentityNotFound(command.identity_id)
        &&& after == before
    } else {
        forall|i: int|
            identity_at(before.identities@, command.identity_id, i)
                ==> match IdentityAggregate::workflow_start_verdict(
                before.identities@[i].entity,
                command.workflow_type,
                before.workflows@,
            ) {
                Some(verdict) => {
                    &&& r matches Err(e)
                    &&& e@ == verdict
                    &&& after == before
                },
                None => if !definition_valid(command.steps@, command.transitions@) {
                    &&& r matches Err(e)
                    &&& e@ == ErrorView::WorkflowError("Invalid workflow definition"@)
                    &&& after == before
                } else if !workflow_absent(before.workflows@, workflow_id) {
                    &&& r matches Err(e)
                    &&& e@ == ErrorView::WorkflowError("identifier already in use"@)
                    &&& after == before
                } else {
                    &&& r matches Ok(event)
                    &&& event == (WorkflowStarted {
                        workflow_id,
                        identity_id: command.identity_id,
                        workflow_type: command.workflow_type,
                        started_by: command.started_by,
                        started_at: now,
                        status: after.workflows@.last().status,
                        context: command.context,
                    })
                    &&& after.workflows@.len() == before.workflows@.len() + 1
                    &&& after.workflows@.drop_last() == before.workflows@
                    &&& workflow_started(after.workflows@.last(), command, workflow_id, now)
                    &&& after.identities == before.identities
                    &&& after.relationships == before.relationships
                    &&& after.projections == before.projections
                },
            }
    }
}

/// Starts a workflow under the given identifier at the given time.
pub fn start_workflow(
    world: &mut IdentityWorld,
    command: StartWorkflowCommand,
    workflow_id: WorkflowId,
    now: Timestamp,
) -> (r: IdentityResult<WorkflowStarted>)
    ensures
        start_outcome(*old(world), command, workflow_id, now, *final(world), r),
        final(world).follows(*old(world)),
        old(world).wf() ==> final(world).wf(),
{
    let i = match world.find_identity(command.identity_id) {
        Some(i) => i,
        None => {
            return Err(IdentityError::IdentityNotFound(command.identity_id));
        },
    };
    match IdentityAggregate::validate_workflow_start(
        &world.identities[i].entity,
        &command.workflow_type,
        &world.workflows,
    ) {
        Err(e) => {
            return Err(e);
        },
        Ok(_) => {},
    }
    if !is_definition_valid(&command.steps, &command.transitions) {
        return Err(IdentityError::WorkflowError("Invalid workflow definition".to_string()));
    }
    if world.find_workflow(workflow_id).is_some() {
        return Err(IdentityError::WorkflowError("identifier already in use".to_string()));
    }
    let mut steps = command.steps;
    let mut status = WorkflowStatus::NotStarted;
    let mut current_step: Option<String> = None;
    if steps.len() > 0 {
        steps[0].status = StepStatus::Active;
        steps[0].started_at = Some(now);
        status = WorkflowStatus::for_active_step(steps[0].step_type);
        current_step = Some(steps[0].step_id.clone());
    }
    assert(steps@ == steps_started(command.steps@, now));
    let event = WorkflowStarted {
        workflow_id,
        identity_id: command.identity_id,
        workflow_type: command.workflow_type.clone(),
        started_by: command.started_by,
        started_at: now,
        status: status.clone(),
        context: command.context,
    };
    let workflow = IdentityWorkflow {
        workflow_id,
        identity_id: command.identity_id,
        workflow_type: command.workflow_type,
        status,
        current_step,
        steps,
        transitions: command.transitions,
        started_at: Some(now),
        completed_at: None,
    };
    assert(workflow.consistent()) by {
        if workflow.steps@.len() > 0 {
            assert(workflow.steps@[0].status is Active);
            assert forall|a: int, b: int|
                0 <= a < workflow.steps@.len() && 0 <= b < workflow.steps@.len() && (
                #[trigger] workflow.steps@[a]).status is Active && (
                #[trigger] workflow.steps@[b]).status is Active implies a == b by {
                if a != 0 {
                    assert(step_fresh(command.steps@[a]));
                }
                if b != 0 {
                    assert(step_fresh(command.steps@[b]));
                }
            }
        }
    }
    world.workflows.push(workflow);
    assert(world.workflows@.drop_last() == old(world).workflows@);
    Ok(event)
}

/// Starts a workflow under a fresh identifier, now.
pub fn start_workflow_system(world: &mut IdentityWorld, command: StartWorkflowCommand) -> (r:
    IdentityResult<WorkflowStarted>)
    ensures
        exists|workflow_id: WorkflowId, now: Timestamp|
            start_outcome(*old(world), command, workflow_id, now, *final(world), r),
        final(world).follows(*old(world)),
        old(world).wf() ==> final(world).wf(),
{
    let workflow_id = WorkflowId::new();
    let now = Timestamp::now();
    start_workflow(world, command, workflow_id, now)
}

/// A transition can be taken after the step `name` when it leaves that step,
/// its condition holds for what the step reported, and the step it leads to
/// is still pending.
pub open spec fn eligible(
    steps: Seq<WorkflowStep>,
    transitions: Seq<WorkflowTransition>,
    name: Seq<char>,
    data: StepData,
    t: int,
) -> bool {
    &&& transitions[t].from_step@ == name
    &&& transitions[t].condition.holds(data, transitions[t].to_step@)
    &&& exists|k: int|
        step_at(steps, transitions[t].to_step@, k) && (#[trigger] steps[k]).status is Pending
}

/// The transition at `t` is the first in declaration order that can be taken.
pub open spec fn first_eligible(
    steps: Seq<WorkflowStep>,
    transitions: Seq<WorkflowTransition>,
    name: Seq<char>,
    data: StepData,
    t: int,
) -> bool {
    &&& 0 <= t < transitions.len()
    &&& eligible(steps, transitions, name, data, t)
    &&& forall|u: int| 0 <= u < t ==> !eligible(steps, transitions, name, data, u)
}

/// No transition can be taken.
pub open spec fn none_eligible(
    steps: Seq<WorkflowStep>,
    transitions: Seq<WorkflowTransition>,
    name: Seq<char>,
    data: StepData,
) -> bool {
    forall|u: int| 0 <= u < transitions.len() ==> !eligible(steps, transitions, name, data, u)
}

/// The step at `k` is the first in declaration order that is pending.
pub open spec fn first_pending(steps: Seq<WorkflowStep>, k: int) -> bool {
    &&& 0 <= k < steps.len()
    &&& steps[k].status is Pending
    &&& forall|j: int| 0 <= j < k ==> !((#[trigger] steps[j]).status is Pending)
}

/// No step is pending.
pub open spec fn none_pending(steps: Seq<WorkflowStep>) -> bool {
    forall|j: int| 0 <= j < steps.len() ==> !((#[trigger] steps[j]).status is Pending)
}

/// Which step comes after the completed step `name`: the target of the first
/// transition that can be taken; without such a transition, the first step
/// that is still pending; and none where no step is pending.
pub open spec fn selects(
    steps: Seq<WorkflowStep>,
    transitions: Seq<WorkflowTransition>,
    name: Seq<char>,
    data: StepData,
    next: Option<int>,
) -> bool {
    match next {
        Some(k) => {
            ||| exists|t: int| #[trigger]
                first_eligible(steps, transitions, name, data, t) && step_at(
                    steps,
                    transitions[t].to_step@,
                    k,
                )
            ||| (none_eligible(steps, transitions, name, data) && first_pending(steps, k))
        },
        None => none_eligible(steps, transitions, name, data) && none_pending(steps),
    }
}

fn is_eligible(
    steps: &Vec<WorkflowStep>,
    transitions: &Vec<WorkflowTransition>,
    name: &String,
    data: &StepData,
    t: usize,
) -> (r: Option<usize>)
    requires
        t < transitions@.len(),
    ensures
        match r {
            Some(k) => eligible(steps@, transitions@, name@, *data, t as int) && step_at(
                steps@,
                transitions@[t as int].to_step@,
                k as int,
            ),
            None => !eligible(steps@, transitions@, name@, *data, t as int),
        },
{
    let transition = &transitions[t];
    if transition.from_step == *name && transition.condition.evaluate(data, &transition.to_step) {
        match find_step(steps, &transition.to_step) {
            Some(k) => {
                match steps[k].status {
                    StepStatus::Pending => {
                        return Some(k);
                    },
                    _ => {},
                }
            },
            None => {},
        }
    }
    None
}

/// Selects the step that comes after the completed step `name`.
pub fn select_next(
    steps: &Vec<WorkflowStep>,
    transitions: &Vec<WorkflowTransition>,
    name: &String,
    data: &StepData,
) -> (r: Option<usize>)
    ensures
        selects(
            steps@,
            transitions@,
            name@,
            *data,
            match r {
                Some(k) => Some(k as int),
                None => None,
            },
        ),
        r matches Some(k) ==> k < steps@.len() && steps@[k as int].status is Pending,
{
    let mut t: usize = 0;
    while t < transitions.len()
        invariant
            t <= transitions@.len(),
            forall|u: int| 0 <= u < t ==> !eligible(steps@, transitions@, name@, *data, u),
        decreases transitions@.len() - t,
    {
        match is_eligible(steps, transitions, name, data, t) {
            Some(k) => {
                assert(first_eligible(steps@, transitions@, name@, *data, t as int));
                return Some(k);
            },
            None => {},
        }
        t += 1;
    }
    let mut k: usize = 0;
    while k < steps.len()
        invariant
            k <= steps@.len(),
            none_eligible(steps@, transitions@, name@, *data),
            forall|j: int| 0 <= j < k ==> !((#[trigger] steps@[j]).status is Pending),
        decreases steps@.len() - k,
    {
        match steps[k].status {
            StepStatus::Pending => {
                return Some(k);
            },
            _ => {},
        }
        k += 1;
    }
    None
}

impl IdentityWorkflow {
    /// The workflow is under way and works on the step `name`.
    pub open spec fn working_on(self, name: Seq<char>, c: int) -> bool {
        &&& self.status.running()
        &&& self.current_step matches Some(current) && current@ == name
        &&& step_at(self.steps@, name, c)
        &&& self.steps@[c].status is Active
    }

    /// The workflow is not working on the step `name`.
    pub open spec fn idle_on(self, name: Seq<char>) -> bool {
        forall|c: int| !self.working_on(name, c)
    }

    /// The steps after the step at `c` was completed at `now`.
    pub open spec fn steps_after_completion(self, c: int, now: Timestamp) -> Seq<WorkflowStep> {
        self.steps@.update(
            c,
            WorkflowStep {
                status: StepStatus::Completed,
                completed_at: Some(now),
                ..self.steps@[c]
            },
        )
    }

    /// How `after` comes from `self` when the active step, at `c`, was
    /// completed at `now` and the step at `next` comes after it. The completed
    /// step is marked so. The step that follows becomes active, entered at
    /// `now`, and the workflow works on it; where none follows, the workflow
    /// is completed.
    pub open spec fn advanced(
        self,
        c: int,
        next: Option<int>,
        now: Timestamp,
        after: IdentityWorkflow,
    ) -> bool {
        let done = self.steps_after_completion(c, now);
        &&& after.workflow_id == self.workflow_id
        &&& after.identity_id == self.identity_id
        &&& after.workflow_type == self.workflow_type
        &&& after.transitions == self.transitions
        &&& after.started_at == self.started_at
        &&& match next {
            Some(k) => {
                &&& after.steps@ == done.update(
                    k,
                    WorkflowStep { status: StepStatus::Active, started_at: Some(now), ..done[k] },
                )
                &&& after.status == WorkflowStatus::while_working_on(done[k].step_type)
                &&& after.current_step == Some(done[k].step_id)
                &&& after.completed_at == self.completed_at
            },
            None => {
                &&& after.steps@ == done
                &&& after.status is Completed
                &&& after.current_step is None
                &&& after.completed_at == Some(now)
            },
        }
    }

    /// What completing the step `name` at `now` does to a workflow. It is
    /// refused unless the workflow is under way and works on that step.
    /// Otherwise the step is completed, the step that the transitions select
    /// follows, and the event tells of both.
    pub open spec fn step_completion(
        self,
        name: String,
        data: StepData,
        now: Timestamp,
        after: IdentityWorkflow,
        r: IdentityResult<WorkflowStepCompleted>,
    ) -> bool {
        if self.idle_on(name@) {
            &&& r matches Err(e)
            &&& e@ == ErrorView::InvalidTransition
            &&& after == self
        } else {
            &&& r matches Ok(event)
            &&& exists|c: int, next: Option<int>|
                {
                    &&& self.working_on(name@, c)
                    &&& selects(
                        self.steps_after_completion(c, now),
                        self.transitions@,
                        name@,
                        data,
                        next,
                    )
                    &&& #[trigger] self.advanced(c, next, now, after)
                }
            &&& event == (WorkflowStepCompleted {
                workflow_id: self.workflow_id,
                identity_id: self.identity_id,
                workflow_type: self.workflow_type,
                step_id: name,
                next_step: after.current_step,
                workflow_status: after.status,
                completed_at: now,
            })
        }
    }

    /// Completes the step `name` at `now`.
    pub fn complete_step(&mut self, name: String, data: &StepData, now: Timestamp) -> (r: IdentityResult<
        WorkflowStepCompleted,
    >)
        ensures
            old(self).step_completion(name, *data, now, *final(self), r),
            old(self).consistent() ==> final(self).consistent(),
            final(self).workflow_id == old(self).workflow_id,
            final(self).identity_id == old(self).identity_id,
            final(self).workflow_type == old(self).workflow_type,
            !final(self).status.terminal() ==> !old(self).status.terminal(),
    {
        if !self.status.is_running() {
            return Err(IdentityError::InvalidTransition);
        }
        let named = match &self.current_step {
            Some(current) => *current == name,
            None => false,
        };
        if !named {
            return Err(IdentityError::InvalidTransition);
        }
        let c = match find_step(&self.steps, &name) {
            Some(c) => c,
            None => {
                return Err(IdentityError::InvalidTransition);
            },
        };
        match self.steps[c].status {
            StepStatus::Active => {},
            _ => {
                return Err(IdentityError::InvalidTransition);
            },
        }
        assert(old(self).working_on(name@, c as int));
        self.steps[c].status = StepStatus::Completed;
        self.steps[c].completed_at = Some(now);
        let ghost done = self.steps@;
        assert(done == old(self).steps_after_completion(c as int, now));
        let next = select_next(&self.steps, &self.transitions, &name, data);
        let ghost chosen: Option<int> = match next {
            Some(k) => Some(k as int),
            None => None,
        };
        match next {
            Some(k) => {
                self.steps[k].status = StepStatus::Active;
                self.steps[k].started_at = Some(now);
                self.status = WorkflowStatus::for_active_step(self.steps[k].step_type);
                self.current_step = Some(self.steps[k].step_id.clone());
                assert(self.steps@ == done.update(
                    k as int,
                    WorkflowStep {
                        status: StepStatus::Active,
                        started_at: Some(now),
                        ..done[k as int]
                    },
                ));
            },
            None => {
                self.status = WorkflowStatus::Completed;
                self.current_step = None;
                self.completed_at = Some(now);
            },
        }
        assert(old(self).advanced(c as int, chosen, now, *self));
        proof {
            if old(self).consistent() {
                assert forall|a: int| 0 <= a < done.len() implies !((#[trigger] done[a]).status is Active) by {
                    if a != c {
                        assert(old(self).steps@[a].status is Active ==> a == c as int);
                    }
                }
                assert(step_names_distinct(self.steps@)) by {
                    assert forall|a: int, b: int| 0 <= a < b < self.steps@.len() implies (
                    #[trigger] self.steps@[a]).step_id@ != (#[trigger] self.steps@[b]).step_id@ by {
                        assert(old(self).steps@[a].step_id@ != old(self).steps@[b].step_id@);
                    }
                }
                assert(at_most_one_active(self.steps@)) by {
                    assert forall|a: int, b: int|
                        0 <= a < self.steps@.len() && 0 <= b < self.steps@.len() && (
                        #[trigger] self.steps@[a]).status is Active && (
                        #[trigger] self.steps@[b]).status is Active implies a == b by {
                        match next {
                            Some(k) => {
                                if a != k {
                                    assert(self.steps@[a] == done[a]);
                                }
                                if b != k {
                                    assert(self.steps@[b] == done[b]);
                                }
                            },
                            None => {
                                assert(self.steps@[a] == done[a]);
                            },
                        }
                    }
                }
                match next {
                    Some(k) => {
                        assert(self.steps@[k as int].step_id@ == self.current_step->0@);
                        assert(self.steps@[k as int].status is Active);
                    },
                    None => {},
                }
            }
        }
        Ok(
            WorkflowStepCompleted {
                workflow_id: self.workflow_id,
                identity_id: self.identity_id,
                workflow_type: self.workflow_type.clone(),
                step_id: name,
                next_step: clone_optional_text(&self.current_step),
                workflow_status: self.status.clone(),
                completed_at: now,
            },
        )
    }

    /// The status in which a workflow ends for a given outcome: approved and
    /// completed workflows are completed, rejected ones have failed, cancelled
    /// ones are cancelled.
    pub open spec fn ended_as(status: WorkflowStatus, outcome: WorkflowOutcome) -> bool {
        match outcome {
            WorkflowOutcome::Approved => status is Completed,
            WorkflowOutcome::Completed => status is Completed,
            WorkflowOutcome::Rejected => status matches WorkflowStatus::Failed(reason) && reason@
                == "Rejected"@,
            WorkflowOutcome::Cancelled => status is Cancelled,
        }
    }

    /// What bringing a workflow to its end at `now` does. A workflow that has
    /// ended already is refused. Any other ends at once with the status that
    /// the outcome asks for, whatever step it was working on; its steps stay
    /// as they are.
    pub open spec fn conclusion(
        self,
        outcome: WorkflowOutcome,
        now: Timestamp,
        after: IdentityWorkflow,
        r: IdentityResult<WorkflowCompleted>,
    ) -> bool {
        if self.status.terminal() {
            &&& r matches Err(e)
            &&& e@ == ErrorView::InvalidTransition
            &&& after == self
        } else {
            &&& r matches Ok(event)
            &&& Self::ended_as(after.status, outcome)
            &&& after.completed_at == Some(now)
            &&& after.workflow_id == self.workflow_id
            &&& after.identity_id == self.identity_id
            &&& after.workflow_type == self.workflow_type
            &&& after.current_step == self.current_step
            &&& after.steps == self.steps
            &&& after.transitions == self.transitions
            &&& after.started_at == self.started_at
            &&& event == (WorkflowCompleted {
                workflow_id: self.workflow_id,
                identity_id: self.identity_id,
                workflow_type: self.workflow_type,
                final_status: after.status,
                completed_at: now,
            })
        }
    }

    /// Brings the workflow to its end at `now`.
    pub fn conclude(&mut self, outcome: WorkflowOutcome, now: Timestamp) -> (r: IdentityResult<
        WorkflowCompleted,
    >)
        ensures
            old(self).conclusion(outcome, now, *final(self), r),
            old(self).consistent() ==> final(self).consistent(),
            final(self).workflow_id == old(self).workflow_id,
            final(self).identity_id == old(self).identity_id,
            final(self).workflow_type == old(self).workflow_type,
            !final(self).status.terminal() ==> !old(self).status.terminal(),
    {
        if self.status.is_terminal() {
            return Err(IdentityError::InvalidTransition);
        }
        self.status = match outcome {
            WorkflowOutcome::Approved => WorkflowStatus::Completed,
            WorkflowOutcome::Completed => WorkflowStatus::Completed,
            WorkflowOutcome::Rejected => WorkflowStatus::Failed("Rejected".to_string()),
            WorkflowOutcome::Cancelled => WorkflowStatus::Cancelled,
        };
        self.completed_at = Some(now);
        Ok(
            WorkflowCompleted {
                workflow_id: self.workflow_id,
                identity_id: self.identity_id,
                workflow_type: self.workflow_type.clone(),
                final_status: self.status.clone(),
                completed_at: now,
            },
        )
    }

    /// The workflow is under way and its active step, at `c`, has run out of
    /// time at `now`.
    pub open spec fn breached(self, now: Timestamp, c: int) -> bool {
        &&& self.status.running()
        &&& self.current_step matches Some(current) && step_at(self.steps@, current@, c)
        &&& self.steps@[c].timed_out(now)
    }

    /// No step of the workflow has run out of time at `now`.
    pub open spec fn in_time(self, now: Timestamp) -> bool {
        forall|c: int| !self.breached(now, c)
    }

    /// What the timeout sweep at `now` does to a workflow. One whose active
    /// step has run out of time fails with that step; any other stays as it
    /// is.
    pub open spec fn swept(self, now: Timestamp, after: IdentityWorkflow) -> bool {
        if self.in_time(now) {
            after == self
        } else {
            &&& exists|c: int|
                #![trigger self.breached(now, c)]
                self.breached(now, c) && after.steps@ == self.steps@.update(
                    c,
                    WorkflowStep { status: StepStatus::Failed, ..self.steps@[c] },
                )
            &&& after.status matches WorkflowStatus::Failed(reason) && reason@ == "Step timeout"@
            &&& after.completed_at == Some(now)
            &&& after.workflow_id == self.workflow_id
            &&& after.identity_id == self.identity_id
            &&& after.workflow_type == self.workflow_type
            &&& after.current_step == self.current_step
            &&& after.transitions == self.transitions
            &&& after.started_at == self.started_at
        }
    }

    /// The event that tells of a workflow's timeout at `now`.
    pub open spec fn timeout_event(self, now: Timestamp) -> WorkflowTimedOut {
        WorkflowTimedOut {
            workflow_id: self.workflow_id,
            identity_id: self.identity_id,
            workflow_type: self.workflow_type,
            step_id: self.current_step->0,
            timed_out_at: now,
        }
    }

    /// Fails the workflow if its active step has run out of time at `now`,
    /// and tells of it.
    pub fn sweep(&mut self, now: Timestamp) -> (r: Option<WorkflowTimedOut>)
        ensures
            old(self).swept(now, *final(self)),
            match r {
                Some(event) => !old(self).in_time(now) && event == old(self).timeout_event(now),
                None => old(self).in_time(now),
            },
            old(self).consistent() ==> final(self).consistent(),
            final(self).workflow_id == old(self).workflow_id,
            final(self).identity_id == old(self).identity_id,
            final(self).workflow_type == old(self).workflow_type,
            !final(self).status.terminal() ==> !old(self).status.terminal(),
    {
        if !self.status.is_running() {
            return None;
        }
        let c = match &self.current_step {
            Some(current) => match find_step(&self.steps, current) {
                Some(c) => c,
                None => {
                    return None;
                },
            },
            None => {
                return None;
            },
        };
        if !self.steps[c].is_timed_out(&now) {
            return None;
        }
        assert(old(self).breached(now, c as int));
        let step_id = match &self.current_step {
            Some(current) => current.clone(),
            None => {
                return None;
            },
        };
        let event = WorkflowTimedOut {
            workflow_id: self.workflow_id,
            identity_id: self.identity_id,
            workflow_type: self.workflow_type.clone(),
            step_id,
            timed_out_at: now,
        };
        self.steps[c].status = StepStatus::Failed;
        self.status = WorkflowStatus::Failed("Step timeout".to_string());
        self.completed_at = Some(now);
        proof {
            if old(self).consistent() {
                assert forall|a: int, b: int| 0 <= a < b < self.steps@.len() implies (
                #[trigger] self.steps@[a]).step_id@ != (#[trigger] self.steps@[b]).step_id@ by {
                    assert(old(self).steps@[a].step_id@ != old(self).steps@[b].step_id@);
                }
                assert forall|a: int, b: int|
                    0 <= a < self.steps@.len() && 0 <= b < self.steps@.len() && (
                    #[trigger] self.steps@[a]).status is Active && (
                    #[trigger] self.steps@[b]).status is Active implies a == b by {
                    assert(old(self).steps@[a].status is Active);
                    assert(old(self).steps@[b].status is Active);
                }
            }
        }
        Some(event)
    }
}

/// Nothing but the workflow at `i` differs between the two worlds.
pub open spec fn only_workflow_changed(before: IdentityWorld, after: IdentityWorld, i: int) -> bool {
    &&& after.workflows@.len() == before.workflows@.len()
    &&& forall|j: int|
        0 <= j < before.workflows@.len() && j != i ==> #[trigger] after.workflows@[j]
            == before.workflows@[j]
    &&& after.identities == before.identities
    &&& after.relationships == before.relationships
    &&& after.projections == before.projections
}

proof fn lemma_workflow_change_sound(before: Seq<IdentityWorkflow>, after: Seq<IdentityWorkflow>, i: int)
    requires
        workflows_sound(before),
        0 <= i < before.len(),
        after.len() == before.len(),
        forall|j: int| 0 <= j < before.len() && j != i ==> #[trigger] after[j] == before[j],
        after[i].consistent(),
        after[i].workflow_id == before[i].workflow_id,
        after[i].identity_id == before[i].identity_id,
        after[i].workflow_type == before[i].workflow_type,
        !after[i].status.terminal() ==> !before[i].status.terminal(),
    ensures
        workflows_sound(after),
{
    assert forall|a: int, b: int| 0 <= a < b < after.len() implies (#[trigger] after[a]).workflow_id != (
    #[trigger] after[b]).workflow_id && !({
        &&& after[a].identity_id == after[b].identity_id
        &&& after[a].workflow_type.same_as(after[b].workflow_type)
        &&& !after[a].status.terminal()
        &&& !after[b].status.terminal()
    }) by {
        assert(before[a].workflow_id != before[b].workflow_id);
    }
    assert forall|a: int| 0 <= a < after.len() implies (#[trigger] after[a]).consistent() by {
        if a != i {
            assert(before[a].consistent());
        }
    }
}

/// What a "step completed" command does at a given time. An unknown workflow
/// is refused; otherwise the workflow completes the step, and nothing else
/// changes.
pub open spec fn step_processing(
    before: IdentityWorld,
    command: ProcessWorkflowStepCommand,
    now: Timestamp,
    after: IdentityWorld,
    r: IdentityResult<WorkflowStepCompleted>,
) -> bool {
    if workflow_absent(before.workflows@, command.workflow_id) {
        &&& r matches Err(e)
        &&& e@ == ErrorView::WorkflowNotFound(command.workflow_id)
        &&& after == before
    } else {
        forall|i: int|
            workflow_at(before.workflows@, command.workflow_id, i) ==> {
                &&& before.workflows@[i].step_completion(
                    command.step_name,
                    command.step_data,
                    now,
                    after.workflows@[i],
                    r,
                )
                &&& only_workflow_changed(before, after, i)
            }
    }
}

/// Completes the active step of a workflow at the given time.
pub fn process_workflow_step(
    world: &mut IdentityWorld,
    command: ProcessWorkflowStepCommand,
    now: Timestamp,
) -> (r: IdentityResult<WorkflowStepCompleted>)
    ensures
        step_processing(*old(world), command, now, *final(world), r),
        final(world).follows(*old(world)),
        old(world).wf() ==> final(world).wf(),
{
    let i = match world.find_workflow(command.workflow_id) {
        Some(i) => i,
        None => {
            return Err(IdentityError::WorkflowNotFound(command.workflow_id));
        },
    };
    let r = world.workflows[i].complete_step(command.step_name, &command.step_data, now);
    proof {
        if old(world).wf() {
            lemma_workflow_change_sound(old(world).workflows@, world.workflows@, i as int);
        }
    }
    r
}

/// Completes the active step of a workflow, now.
pub fn process_workflow_step_system(world: &mut IdentityWorld, command: ProcessWorkflowStepCommand) -> (r:
    IdentityResult<WorkflowStepCompleted>)
    ensures
        exists|now: Timestamp| step_processing(*old(world), command, now, *final(world), r),
        final(world).follows(*old(world)),
        old(world).wf() ==> final(world).wf(),
{
    let now = Timestamp::now();
    process_workflow_step(world, command, now)
}

/// What a "complete workflow" command does at a given time. An unknown
/// workflow is refused; otherwise the workflow is brought to its end, and
/// nothing else changes.
pub open spec fn completion(
    before: IdentityWorld,
    command: CompleteWorkflowCommand,
    now: Timestamp,
    after: IdentityWorld,
    r: IdentityResult<WorkflowCompleted>,
) -> bool {
    if workflow_absent(before.workflows@, command.workflow_id) {
        &&& r matches Err(e)
        &&& e@ == ErrorView::WorkflowNotFound(command.workflow_id)
        &&& after == before
    } else {
        forall|i: int|
            workflow_at(before.workflows@, command.workflow_id, i) ==> {
                &&& before.workflows@[i].conclusion(command.outcome, now, after.workflows@[i], r)
                &&& only_workflow_changed(before, after, i)
            }
    }
}

/// Brings a workflow to its end at the given time.
pub fn complete_workflow(world: &mut IdentityWorld, command: CompleteWorkflowCommand, now: Timestamp) -> (r:
    IdentityResult<WorkflowCompleted>)
    ensures
        completion(*old(world), command, now, *final(world), r),
        final(world).follows(*old(world)),
        old(world).wf() ==> final(world).wf(),
{
    let i = match world.find_workflow(command.workflow_id) {
        Some(i) => i,
        None => {
            return Err(IdentityError::WorkflowNotFound(command.workflow_id));
        },
    };
    let r = world.workflows[i].conclude(command.outcome, now);
    proof {
        if old(world).wf() {
            lemma_workflow_change_sound(old(world).workflows@, world.workflows@, i as int);
        }
    }
    r
}

/// Brings a workflow to its end, now.
pub fn complete_workflow_system(world: &mut IdentityWorld, command: CompleteWorkflowCommand) -> (r:
    IdentityResult<WorkflowCompleted>)
    ensures
        exists|now: Timestamp| completion(*old(world), command, now, *final(world), r),
        final(world).follows(*old(world)),
        old(world).wf() ==> final(world).wf(),
{
    let now = Timestamp::now();
    complete_workflow(world, command, now)
}

/// The timeout events for the workflows among the first `n` whose active step
/// has run out of time at `now`, in their order.
pub open spec fn timeouts(workflows: Seq<IdentityWorkflow>, now: Timestamp, n: int) -> Seq<
    WorkflowTimedOut,
>
    decreases n,
{
    if n <= 0 {
        Seq::empty()
    } else if workflows[n - 1].in_time(now) {
        timeouts(workflows, now, n - 1)
    } else {
        timeouts(workflows, now, n - 1).push(workflows[n - 1].timeout_event(now))
    }
}

/// What the timeout sweep at a given time does: every workflow is swept, and
/// nothing else changes.
pub open spec fn timeout_sweep(
    before: IdentityWorld,
    now: Timestamp,
    after: IdentityWorld,
    events: Seq<WorkflowTimedOut>,
) -> bool {
    &&& after.workflows@.len() == before.workflows@.len()
    &&& forall|j: int|
        0 <= j < before.workflows@.len() ==> (#[trigger] before.workflows@[j]).swept(
            now,
            after.workflows@[j],
        )
    &&& events == timeouts(before.workflows@, now, before.workflows@.len() as int)
    &&& after.identities == before.identities
    &&& after.relationships == before.relationships
    &&& after.projections == before.projections
}

/// Fails every workflow whose active step has run out of time at `now`.
pub fn timeout_workflows(world: &mut IdentityWorld, now: Timestamp) -> (r: Vec<WorkflowTimedOut>)
    ensures
        timeout_sweep(*old(world), now, *final(world), r@),
        final(world).follows(*old(world)),
        old(world).wf() ==> final(world).wf(),
{
    let mut events: Vec<WorkflowTimedOut> = Vec::new();
    let mut i: usize = 0;
    while i < world.workflows.len()
        invariant
            i <= world.workflows@.len(),
            world.workflows@.len() == old(world).workflows@.len(),
            forall|j: int|
                0 <= j < i ==> (#[trigger] old(world).workflows@[j]).swept(now, world.workflows@[j]),
            forall|j: int|
                i <= j < world.workflows@.len() ==> #[trigger] world.workflows@[j] == old(
                    world,
                ).workflows@[j],
            events@ == timeouts(old(world).workflows@, now, i as int),
            world.identities == old(world).identities,
            world.relationships == old(world).relationships,
            world.projections == old(world).projections,
            old(world).wf() ==> workflows_sound(world.workflows@),
        decreases world.workflows@.len() - i,
    {
        let ghost before = world.workflows@;
        let swept = world.workflows[i].sweep(now);
        proof {
            if old(world).wf() {
                lemma_workflow_change_sound(before, world.workflows@, i as int);
            }
        }
        match swept {
            Some(event) => {
                events.push(event);
            },
            None => {},
        }
        i += 1;
    }
    events
}

/// Fails every workflow whose active step has run out of time, now.
pub fn timeout_workflows_system(world: &mut IdentityWorld) -> (r: Vec<WorkflowTimedOut>)
    ensures
        exists|now: Timestamp| timeout_sweep(*old(world), now, *final(world), r@),
        final(world).follows(*old(world)),
        old(world).wf() ==> final(world).wf(),
{
    let now = Timestamp::now();
    timeout_workflows(world, now)
}

} // verus!
