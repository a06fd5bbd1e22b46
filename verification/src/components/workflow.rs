//! Identity workflow components.

use crate::ids::{IdentityId, WorkflowId};
use crate::text::clone_optional_text;
use crate::time::Timestamp;
use vstd::prelude::*;

verus! {

/// Type of identity workflow.
#[derive(Debug, PartialEq, Eq, Hash)]
pub enum WorkflowType {
    Verification,
    Onboarding,
    Recovery,
    Migration,
    Custom(String),
}

impl WorkflowType {
    /// Both are the same type; custom types are told apart by their text.
    pub open spec fn same_as(self, other: WorkflowType) -> bool {
        match (self, other) {
            (WorkflowType::Verification, WorkflowType::Verification) => true,
            (WorkflowType::Onboarding, WorkflowType::Onboarding) => true,
            (WorkflowType::Recovery, WorkflowType::Recovery) => true,
            (WorkflowType::Migration, WorkflowType::Migration) => true,
            (WorkflowType::Custom(a), WorkflowType::Custom(b)) => a@ == b@,
            _ => false,
        }
    }

    pub fn is_same_as(&self, other: &WorkflowType) -> (r: bool)
        ensures
            r == self.same_as(*other),
    {
        match (self, other) {
            (WorkflowType::Verification, WorkflowType::Verification) => true,
            (WorkflowType::Onboarding, WorkflowType::Onboarding) => true,
            (WorkflowType::Recovery, WorkflowType::Recovery) => true,
            (WorkflowType::Migration, WorkflowType::Migration) => true,
            (WorkflowType::Custom(a), WorkflowType::Custom(b)) => *a == *b,
            _ => false,
        }
    }
}

impl Clone for WorkflowType {
    fn clone(&self) -> (r: Self)
        ensures
            r == *self,
    {
        match self {
            WorkflowType::Verification => WorkflowType::Verification,
            WorkflowType::Onboarding => WorkflowType::Onboarding,
            WorkflowType::Recovery => WorkflowType::Recovery,
            WorkflowType::Migration => WorkflowType::Migration,
            WorkflowType::Custom(text) => WorkflowType::Custom(text.clone()),
        }
    }
}

/// Status of a workflow.
#[derive(Debug, PartialEq, Eq, Hash)]
pub enum WorkflowStatus {
    NotStarted,
    InProgress,
    Paused,
    Completed,
    Failed(String),
    Cancelled,
    WaitingForInput,
    WaitingForApproval,
}

impl WorkflowStatus {
    /// Completed, failed and cancelled workflows never change again.
    pub open spec fn terminal(self) -> bool {
        self is Completed || self is Failed || self is Cancelled
    }

    pub fn is_terminal(&self) -> (r: bool)
        ensures
            r == self.terminal(),
    {
        match self {
            WorkflowStatus::Completed => true,
            WorkflowStatus::Failed(_) => true,
            WorkflowStatus::Cancelled => true,
            _ => false,
        }
    }

    /// The workflow is under way: one of its steps is being worked on.
    pub open spec fn running(self) -> bool {
        self is InProgress || self is WaitingForInput || self is WaitingForApproval
    }

    pub fn is_running(&self) -> (r: bool)
        ensures
            r == self.running(),
    {
        match self {
            WorkflowStatus::InProgress => true,
            WorkflowStatus::WaitingForInput => true,
            WorkflowStatus::WaitingForApproval => true,
            _ => false,
        }
    }

    /// The workflow waits for somebody outside the engine to act.
    pub open spec fn awaiting_action(self) -> bool {
        self is WaitingForInput || self is WaitingForApproval
    }

    pub fn is_awaiting_action(&self) -> (r: bool)
        ensures
            r == self.awaiting_action(),
    {
        match self {
            WorkflowStatus::WaitingForInput => true,
            WorkflowStatus::WaitingForApproval => true,
            _ => false,
        }
    }

    /// The status of a workflow whose active step is of the given type:
    /// manual steps wait for input, approvals for approval, all others run.
    pub open spec fn while_working_on(step_type: StepType) -> WorkflowStatus {
        match step_type {
            StepType::Manual => WorkflowStatus::WaitingForInput,
            StepType::Approval => WorkflowStatus::WaitingForApproval,
            _ => WorkflowStatus::InProgress,
        }
    }

    pub fn for_active_step(step_type: StepType) -> (r: WorkflowStatus)
        ensures
            r == Self::while_working_on(step_type),
            r.running(),
    {
        match step_type {
            StepType::Manual => WorkflowStatus::WaitingForInput,
            StepType::Approval => WorkflowStatus::WaitingForApproval,
            _ => WorkflowStatus::InProgress,
        }
    }
}

impl Clone for WorkflowStatus {
    fn clone(&self) -> (r: Self)
        ensures
            r == *self,
    {
        match self {
            WorkflowStatus::NotStarted => WorkflowStatus::NotStarted,
            WorkflowStatus::InProgress => WorkflowStatus::InProgress,
            WorkflowStatus::Paused => WorkflowStatus::Paused,
            WorkflowStatus::Completed => WorkflowStatus::Completed,
            WorkflowStatus::Failed(reason) => WorkflowStatus::Failed(reason.clone()),
            WorkflowStatus::Cancelled => WorkflowStatus::Cancelled,
            WorkflowStatus::WaitingForInput => WorkflowStatus::WaitingForInput,
            WorkflowStatus::WaitingForApproval => WorkflowStatus::WaitingForApproval,
        }
    }
}

/// Type of workflow step.
#[derive(Debug, Clone, Copy, PartialEq, Eq, Hash, Structural)]
pub enum StepType {
    Manual,
    Automated,
    Approval,
    Verification,
    Notification,
}

/// Status of a workflow step.
#[derive(Debug, Clone, Copy, PartialEq, Eq, Hash, Structural)]
pub enum StepStatus {
    Pending,
    Active,
    Completed,
    Failed,
    Skipped,
}

/// A named step of a workflow.
#[derive(Debug)]
pub struct WorkflowStep {
    pub step_id: String,
    pub step_type: StepType,
    pub status: StepStatus,
    pub name: String,
    pub description: Option<String>,
    pub required: bool,
    pub timeout_seconds: Option<u64>,
    pub started_at: Option<Timestamp>,
    pub completed_at: Option<Timestamp>,
}

impl WorkflowStep {
    /// A step as a workflow definition declares it: pending, never entered.
    pub fn new(step_id: String, step_type: StepType, name: String) -> (r: Self)
        ensures
            r == (WorkflowStep {
                step_id,
                step_type,
                status: StepStatus::Pending,
                name,
                description: None,
                required: true,
                timeout_seconds: None,
                started_at: None,
                completed_at: None,
            }),
    {
        WorkflowStep {
            step_id,
            step_type,
            status: StepStatus::Pending,
            name,
            description: None,
            required: true,
            timeout_seconds: None,
            started_at: None,
            completed_at: None,
        }
    }

    /// The step is active, has a timeout and was entered more than that many
    /// whole seconds before `now`.
    pub open spec fn timed_out(self, now: Timestamp) -> bool {
        &&& self.status is Active
        &&& self.timeout_seconds matches Some(limit)
        &&& self.started_at matches Some(entered)
        &&& entered.exceeded(now, limit)
    }

    pub fn is_timed_out(&self, now: &Timestamp) -> (r: bool)
        ensures
            r == self.timed_out(*now),
    {
        match (self.status, self.timeout_seconds, self.started_at) {
            (StepStatus::Active, Some(limit), Some(entered)) => entered.has_exceeded(now, limit),
            _ => false,
        }
    }
}

impl Clone for WorkflowStep {
    fn clone(&self) -> (r: Self)
        ensures
            r == *self,
    {
        WorkflowStep {
            step_id: self.step_id.clone(),
            step_type: self.step_type,
            status: self.status,
            name: self.name.clone(),
            description: clone_optional_text(&self.description),
            required: self.required,
            timeout_seconds: self.timeout_seconds,
            started_at: self.started_at,
            completed_at: self.completed_at,
        }
    }
}

/// One named value that a completed step reports.
#[derive(Debug)]
pub struct StepField {
    pub name: String,
    pub value: String,
}

/// What the completion of a step reports: whether it succeeded, the values it
/// produced, the expressions that an evaluator found to hold, and the step a
/// person chose to go to next, if any.
#[derive(Debug)]
pub struct StepData {
    pub success: bool,
    pub fields: Vec<StepField>,
    pub satisfied_expressions: Vec<String>,
    pub chosen_step: Option<String>,
}

impl StepData {
    /// The report holds a field of that name with that value.
    pub open spec fn has_field(self, name: Seq<char>, value: Seq<char>) -> bool {
        exists|i: int|
            0 <= i < self.fields@.len() && #[trigger] self.fields@[i].name@ == name
                && self.fields@[i].value@ == value
    }

    pub fn is_field(&self, name: &String, value: &String) -> (r: bool)
        ensures
            r == self.has_field(name@, value@),
    {
        let mut i: usize = 0;
        while i < self.fields.len()
            invariant
                i <= self.fields@.len(),
                forall|j: int|
                    0 <= j < i ==> !(#[trigger] self.fields@[j].name@ == name@
                        && self.fields@[j].value@ == value@),
            decreases self.fields@.len() - i,
        {
            if self.fields[i].name == *name && self.fields[i].value == *value {
                return true;
            }
            i += 1;
        }
        false
    }

    /// The evaluator found the expression to hold.
    pub open spec fn satisfies(self, expr: Seq<char>) -> bool {
        exists|i: int|
            0 <= i < self.satisfied_expressions@.len()
                && #[trigger] self.satisfied_expressions@[i]@ == expr
    }

    pub fn is_satisfied(&self, expr: &String) -> (r: bool)
        ensures
            r == self.satisfies(expr@),
    {
        let mut i: usize = 0;
        while i < self.satisfied_expressions.len()
            invariant
                i <= self.satisfied_expressions@.len(),
                forall|j: int| 0 <= j < i ==> #[trigger] self.satisfied_expressions@[j]@ != expr@,
            decreases self.satisfied_expressions@.len() - i,
        {
            if self.satisfied_expressions[i] == *expr {
                return true;
            }
            i += 1;
        }
        false
    }

    /// A person chose the named step.
    pub open spec fn chose(self, step_id: Seq<char>) -> bool {
        self.chosen_step matches Some(chosen) && chosen@ == step_id
    }

    pub fn has_chosen(&self, step_id: &String) -> (r: bool)
        ensures
            r == self.chose(step_id@),
    {
        match &self.chosen_step {
            Some(chosen) => *chosen == *step_id,
            None => false,
        }
    }
}

/// Condition for workflow transition.
#[derive(Debug)]
pub enum TransitionCondition {
    /// Always transition
    Always,
    /// Transition on success
    OnSuccess,
    /// Transition on failure
    OnFailure,
    /// Transition when the step reported the field with the value
    FieldEquals { field: String, value: String },
    /// Transition when the expression was found to hold
    Expression { expr: String },
    /// Transition when a person chose the target step
    Manual,
}

impl TransitionCondition {
    /// Whether the condition of a transition to `to_step` holds for what the
    /// completed step reported.
    pub open spec fn holds(self, data: StepData, to_step: Seq<char>) -> bool {
        match self {
            TransitionCondition::Always => true,
            TransitionCondition::OnSuccess => data.success,
            TransitionCondition::OnFailure => !data.success,
            TransitionCondition::FieldEquals { field, value } => data.has_field(field@, value@),
            TransitionCondition::Expression { expr } => data.satisfies(expr@),
            TransitionCondition::Manual => data.chose(to_step),
        }
    }

    pub fn evaluate(&self, data: &StepData, to_step: &String) -> (r: bool)
        ensures
            r == self.holds(*data, to_step@),
    {
        match self {
            TransitionCondition::Always => true,
            TransitionCondition::OnSuccess => data.success,
            TransitionCondition::OnFailure => !data.success,
            TransitionCondition::FieldEquals { field, value } => data.is_field(field, value),
            TransitionCondition::Expression { expr } => data.is_satisfied(expr),
            TransitionCondition::Manual => data.has_chosen(to_step),
        }
    }
}

impl Clone for TransitionCondition {
    fn clone(&self) -> (r: Self)
        ensures
            r == *self,
    {
        match self {
            TransitionCondition::Always => TransitionCondition::Always,
            TransitionCondition::OnSuccess => TransitionCondition::OnSuccess,
            TransitionCondition::OnFailure => TransitionCondition::OnFailure,
            TransitionCondition::FieldEquals { field, value } => TransitionCondition::FieldEquals {
                field: field.clone(),
                value: value.clone(),
            },
            TransitionCondition::Expression { expr } => TransitionCondition::Expression {
                expr: expr.clone(),
            },
            TransitionCondition::Manual => TransitionCondition::Manual,
        }
    }
}

/// Workflow transition between steps.
#[derive(Debug)]
pub struct WorkflowTransition {
    pub from_step: String,
    pub to_step: String,
    pub condition: TransitionCondition,
}

impl Clone for WorkflowTransition {
    fn clone(&self) -> (r: Self)
        ensures
            r == *self,
    {
        WorkflowTransition {
            from_step: self.from_step.clone(),
            to_step: self.to_step.clone(),
            condition: self.condition.clone(),
        }
    }
}

/// Identity workflow instance: its steps in declaration order, the
/// transitions between them in declaration order, and where it stands.
#[derive(Debug)]
pub struct IdentityWorkflow {
    pub workflow_id: WorkflowId,
    pub identity_id: IdentityId,
    pub workflow_type: WorkflowType,
    pub status: WorkflowStatus,
    pub current_step: Option<String>,
    pub steps: Vec<WorkflowStep>,
    pub transitions: Vec<WorkflowTransition>,
    pub started_at: Option<Timestamp>,
    pub completed_at: Option<Timestamp>,
}

/// The place of the step with the given name.
pub open spec fn step_at(steps: Seq<WorkflowStep>, step_id: Seq<char>, i: int) -> bool {
    &&& 0 <= i < steps.len()
    &&& steps[i].step_id@ == step_id
    &&& forall|j: int| 0 <= j < i ==> (#[trigger] steps[j]).step_id@ != step_id
}

/// No step has the given name.
pub open spec fn step_absent(steps: Seq<WorkflowStep>, step_id: Seq<char>) -> bool {
    forall|j: int| 0 <= j < steps.len() ==> (#[trigger] steps[j]).step_id@ != step_id
}

/// Where the step of the given name stands, or `None` if there is none.
pub fn find_step(steps: &Vec<WorkflowStep>, step_id: &String) -> (r: Option<usize>)
    ensures
        match r {
            Some(i) => step_at(steps@, step_id@, i as int),
            None => step_absent(steps@, step_id@),
        },
{
    let mut i: usize = 0;
    while i < steps.len()
        invariant
            i <= steps@.len(),
            forall|j: int| 0 <= j < i ==> (#[trigger] steps@[j]).step_id@ != step_id@,
        decreases steps@.len() - i,
    {
        if steps[i].step_id == *step_id {
            return Some(i);
        }
        i += 1;
    }
    None
}

/// The names of the steps differ from one another.
pub open spec fn step_names_distinct(steps: Seq<WorkflowStep>) -> bool {
    forall|i: int, j: int|
        0 <= i < j < steps.len() ==> (#[trigger] steps[i]).step_id@ != (#[trigger] steps[j]).step_id@
}

/// At most one of the steps is active.
pub open spec fn at_most_one_active(steps: Seq<WorkflowStep>) -> bool {
    forall|i: int, j: int|
        0 <= i < steps.len() && 0 <= j < steps.len() && (#[trigger] steps[i]).status is Active && (
        #[trigger] steps[j]).status is Active ==> i == j
}

impl IdentityWorkflow {
    /// What holds of every workflow at any time: its steps have distinct
    /// names, no two of them are active, and while the workflow is under way
    /// exactly one step is active, the one that `current_step` names.
    pub open spec fn consistent(self) -> bool {
        &&& step_names_distinct(self.steps@)
        &&& at_most_one_active(self.steps@)
        &&& self.status.running() ==> (self.current_step matches Some(current) && exists|i: int|
            0 <= i < self.steps@.len() && (#[trigger] self.steps@[i]).step_id@ == current@
                && self.steps@[i].status is Active)
    }
}

impl IdentityWorkflow {
    /// Both workflows hold the same, field by field.
    pub open spec fn same_as(self, other: IdentityWorkflow) -> bool {
        &&& self.workflow_id == other.workflow_id
        &&& self.identity_id == other.identity_id
        &&& self.workflow_type == other.workflow_type
        &&& self.status == other.status
        &&& self.current_step == other.current_step
        &&& self.steps@ == other.steps@
        &&& self.transitions@ == other.transitions@
        &&& self.started_at == other.started_at
        &&& self.completed_at == other.completed_at
    }
}

impl Clone for IdentityWorkflow {
    fn clone(&self) -> (r: Self)
        ensures
            r.same_as(*self),
    {
        let mut steps: Vec<WorkflowStep> = Vec::new();
        let mut i: usize = 0;
        while i < self.steps.len()
            invariant
                i <= self.steps@.len(),
                steps@ == self.steps@.subrange(0, i as int),
            decreases self.steps@.len() - i,
        {
            steps.push(self.steps[i].clone());
            i += 1;
        }
        assert(self.steps@.subrange(0, self.steps@.len() as int) == self.steps@);
        let mut transitions: Vec<WorkflowTransition> = Vec::new();
        let mut t: usize = 0;
        while t < self.transitions.len()
            invariant
                t <= self.transitions@.len(),
                transitions@ == self.transitions@.subrange(0, t as int),
            decreases self.transitions@.len() - t,
        {
            transitions.push(self.transitions[t].clone());
            t += 1;
        }
        assert(self.transitions@.subrange(0, self.transitions@.len() as int) == self.transitions@);
        IdentityWorkflow {
            workflow_id: self.workflow_id,
            identity_id: self.identity_id,
            workflow_type: self.workflow_type.clone(),
            status: self.status.clone(),
            current_step: clone_optional_text(&self.current_step),
            steps,
            transitions,
            started_at: self.started_at,
            completed_at: self.completed_at,
        }
    }
}

/// Record of a step transition. The data is held as JSON text.
#[derive(Debug)]
pub struct StepTransition {
    pub from_step: String,
    pub to_step: String,
    pub transitioned_at: Timestamp,
    pub transitioned_by: Option<IdentityId>,
    pub reason: String,
    pub data: String,
}

/// Workflow history record. The duration is counted in milliseconds and the
/// completion data is held as JSON text.
#[derive(Debug)]
pub struct WorkflowHistory {
    pub workflow_id: WorkflowId,
    pub step_transitions: Vec<StepTransition>,
    pub total_duration_millis: Option<i64>,
    pub completion_data: Option<String>,
}

} // verus!
