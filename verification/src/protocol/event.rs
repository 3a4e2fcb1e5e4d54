//! Events that a worker sends to its frontend.

use vstd::prelude::*;

use crate::protocol::ids::{StepId, TaskId, WorkerId};

verus! {

/// Something that happened to a task.
#[derive(Debug, PartialEq, Eq)]
pub enum AgentEvent {
    /// A plan is ready.
    PlanProposed { task_id: TaskId, worker_instance_id: Option<WorkerId>, steps: Vec<StepId> },
    /// A step was worked on.
    Progress { task_id: TaskId, worker_instance_id: Option<WorkerId>, step_id: StepId, message: String },
    /// A step waits for the user's consent.
    ApprovalRequested { task_id: TaskId, worker_instance_id: Option<WorkerId>, step_id: StepId, reason: String },
    /// The task cannot go on.
    Blocked { task_id: TaskId, worker_instance_id: Option<WorkerId>, step_id: Option<StepId>, reason: String },
    /// The task is finished.
    Done { task_id: TaskId, worker_instance_id: Option<WorkerId>, summary: String },
}

/// What an [`AgentEvent`] holds.
#[verifier::ext_equal]
pub enum EventV {
    PlanProposed { task_id: TaskId, worker: Option<WorkerId>, steps: Seq<StepId> },
    Progress { task_id: TaskId, worker: Option<WorkerId>, step_id: StepId, message: Seq<char> },
    ApprovalRequested { task_id: TaskId, worker: Option<WorkerId>, step_id: StepId, reason: Seq<char> },
    Blocked { task_id: TaskId, worker: Option<WorkerId>, step_id: Option<StepId>, reason: Seq<char> },
    Done { task_id: TaskId, worker: Option<WorkerId>, summary: Seq<char> },
}

impl View for AgentEvent {
    type V = EventV;

    open spec fn view(&self) -> EventV {
        match *self {
            AgentEvent::PlanProposed { task_id, worker_instance_id, steps } => EventV::PlanProposed {
                task_id,
                worker: worker_instance_id,
                steps: steps@,
            },
            AgentEvent::Progress { task_id, worker_instance_id, step_id, message } => EventV::Progress {
                task_id,
                worker: worker_instance_id,
                step_id,
                message: message@,
            },
            AgentEvent::ApprovalRequested { task_id, worker_instance_id, step_id, reason } => EventV::ApprovalRequested {
                task_id,
                worker: worker_instance_id,
                step_id,
                reason: reason@,
            },
            AgentEvent::Blocked { task_id, worker_instance_id, step_id, reason } => EventV::Blocked {
                task_id,
                worker: worker_instance_id,
                step_id,
                reason: reason@,
            },
            AgentEvent::Done { task_id, worker_instance_id, summary } => EventV::Done {
                task_id,
                worker: worker_instance_id,
                summary: summary@,
            },
        }
    }
}

/// A copy of a list of steps.
pub fn dup_steps(steps: &Vec<StepId>) -> (r: Vec<StepId>)
    ensures
        r@ == steps@,
{
    let mut out: Vec<StepId> = Vec::new();
    let mut i: usize = 0;
    while i < steps.len()
        invariant
            i <= steps@.len(),
            out@ == steps@.subrange(0, i as int),
        decreases steps@.len() - i,
    {
        out.push(steps[i]);
        i = i + 1;
    }
    assert(out@ =~= steps@);
    out
}

impl AgentEvent {
    /// A copy of the event.
    pub fn dup(&self) -> (r: AgentEvent)
        ensures
            r@ == self@,
    {
        match self {
            AgentEvent::PlanProposed { task_id, worker_instance_id, steps } => AgentEvent::PlanProposed {
                task_id: *task_id,
                worker_instance_id: *worker_instance_id,
                steps: dup_steps(steps),
            },
            AgentEvent::Progress { task_id, worker_instance_id, step_id, message } => AgentEvent::Progress {
                task_id: *task_id,
                worker_instance_id: *worker_instance_id,
                step_id: *step_id,
                message: message.clone(),
            },
            AgentEvent::ApprovalRequested { task_id, worker_instance_id, step_id, reason } => AgentEvent::ApprovalRequested {
                task_id: *task_id,
                worker_instance_id: *worker_instance_id,
                step_id: *step_id,
                reason: reason.clone(),
            },
            AgentEvent::Blocked { task_id, worker_instance_id, step_id, reason } => AgentEvent::Blocked {
                task_id: *task_id,
                worker_instance_id: *worker_instance_id,
                step_id: *step_id,
                reason: reason.clone(),
            },
            AgentEvent::Done { task_id, worker_instance_id, summary } => AgentEvent::Done {
                task_id: *task_id,
                worker_instance_id: *worker_instance_id,
                summary: summary.clone(),
            },
        }
    }
}

} // verus!
