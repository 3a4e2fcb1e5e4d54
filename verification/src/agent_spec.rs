//! The contract of role-specific semantic controllers: the state of an agent, the
//! patches that change it, and what a controller says about both.

use vstd::prelude::*;

use crate::json::{Json, JsonV};
use crate::llm_output::{OutputV, ValidatedLlmOutput};
use crate::protocol::event::{dup_steps, AgentEvent, EventV};
use crate::protocol::ids::{SessionId, StepId, TaskId, WorkerId};
use crate::protocol::task::TaskContract;
use crate::text::{clone_opt, opt_view, views};

verus! {

/// The role of an agent.
#[derive(Clone, Copy, Debug, PartialEq, Eq, Hash, Structural)]
pub enum AgentRole {
    Frontend,
    Worker,
}

/// What the scheduler sees of a run.
#[derive(Clone, Copy, Debug, PartialEq, Eq, Structural)]
pub enum RunStatus {
    Runnable,
    Waiting,
    Done,
    Cancelled,
}

/// The phases of a frontend.
#[derive(Clone, Copy, Debug, PartialEq, Eq, Structural)]
pub enum FrontendPhase {
    Intake,
    Clarify,
    Delegate,
    Watch,
    AskApproval,
    Report,
    Done,
}

/// The phases of a worker.
#[derive(Clone, Copy, Debug, PartialEq, Eq, Structural)]
pub enum WorkerPhase {
    Plan,
    Act,
    Verify,
    Paused,
    Blocked,
    Done,
}

/// The phase of an agent of either role.
#[derive(Clone, Copy, Debug, PartialEq, Eq, Structural)]
pub enum SemanticPhase {
    Frontend(FrontendPhase),
    Worker(WorkerPhase),
}

impl AgentRole {
    /// The name of the role.
    pub open spec fn name(self) -> Seq<char> {
        match self {
            AgentRole::Frontend => "Frontend"@,
            AgentRole::Worker => "Worker"@,
        }
    }

    /// The name of the role.
    pub fn debug(&self) -> (r: &'static str)
        ensures
            r@ == self.name(),
    {
        match self {
            AgentRole::Frontend => "Frontend",
            AgentRole::Worker => "Worker",
        }
    }
}

impl FrontendPhase {
    /// The name of the phase.
    pub open spec fn name(self) -> Seq<char> {
        match self {
            FrontendPhase::Intake => "Intake"@,
            FrontendPhase::Clarify => "Clarify"@,
            FrontendPhase::Delegate => "Delegate"@,
            FrontendPhase::Watch => "Watch"@,
            FrontendPhase::AskApproval => "AskApproval"@,
            FrontendPhase::Report => "Report"@,
            FrontendPhase::Done => "Done"@,
        }
    }

    /// The name of the phase.
    pub fn debug(&self) -> (r: &'static str)
        ensures
            r@ == self.name(),
    {
        match self {
            FrontendPhase::Intake => "Intake",
            FrontendPhase::Clarify => "Clarify",
            FrontendPhase::Delegate => "Delegate",
            FrontendPhase::Watch => "Watch",
            FrontendPhase::AskApproval => "AskApproval",
            FrontendPhase::Report => "Report",
            FrontendPhase::Done => "Done",
        }
    }
}

impl WorkerPhase {
    /// The name of the phase.
    pub open spec fn name(self) -> Seq<char> {
        match self {
            WorkerPhase::Plan => "Plan"@,
            WorkerPhase::Act => "Act"@,
            WorkerPhase::Verify => "Verify"@,
            WorkerPhase::Paused => "Paused"@,
            WorkerPhase::Blocked => "Blocked"@,
            WorkerPhase::Done => "Done"@,
        }
    }

    /// The name of the phase.
    pub fn debug(&self) -> (r: &'static str)
        ensures
            r@ == self.name(),
    {
        match self {
            WorkerPhase::Plan => "Plan",
            WorkerPhase::Act => "Act",
            WorkerPhase::Verify => "Verify",
            WorkerPhase::Paused => "Paused",
            WorkerPhase::Blocked => "Blocked",
            WorkerPhase::Done => "Done",
        }
    }
}

impl SemanticPhase {
    /// The role and, in brackets, the phase.
    pub open spec fn name(self) -> Seq<char> {
        match self {
            SemanticPhase::Frontend(p) => "Frontend("@ + p.name() + ")"@,
            SemanticPhase::Worker(p) => "Worker("@ + p.name() + ")"@,
        }
    }

    /// The role and, in brackets, the phase.
    pub fn debug(&self) -> (r: String)
        ensures
            r@ == self.name(),
    {
        match self {
            SemanticPhase::Frontend(p) => "Frontend(".to_owned().concat(p.debug()).concat(")"),
            SemanticPhase::Worker(p) => "Worker(".to_owned().concat(p.debug()).concat(")"),
        }
    }
}

/// What a frontend knows.
#[derive(Debug, PartialEq, Eq)]
pub struct FrontendState {
    pub phase: FrontendPhase,
    pub session_id: SessionId,
    pub pending_user_text: Vec<String>,
    pub task_id: Option<TaskId>,
    pub worker_instance_id: Option<WorkerId>,
    /// The text to report to the user.
    pub report_draft: Option<String>,
}

/// What a [`FrontendState`] holds.
#[verifier::ext_equal]
pub struct FrontendV {
    pub phase: FrontendPhase,
    pub session_id: SessionId,
    pub pending: Seq<Seq<char>>,
    pub task_id: Option<TaskId>,
    pub worker: Option<WorkerId>,
    pub report: Option<Seq<char>>,
}

impl View for FrontendState {
    type V = FrontendV;

    open spec fn view(&self) -> FrontendV {
        FrontendV {
            phase: self.phase,
            session_id: self.session_id,
            pending: views(self.pending_user_text@),
            task_id: self.task_id,
            worker: self.worker_instance_id,
            report: opt_view(self.report_draft),
        }
    }
}

impl FrontendState {
    /// The state of a frontend that has heard nothing yet.
    pub open spec fn fresh(session_id: SessionId) -> FrontendV {
        FrontendV {
            phase: FrontendPhase::Intake,
            session_id,
            pending: Seq::empty(),
            task_id: None,
            worker: None,
            report: None,
        }
    }

    /// The state of a frontend that has heard nothing yet.
    pub fn new(session_id: SessionId) -> (r: FrontendState)
        ensures
            r@ == FrontendState::fresh(session_id),
    {
        let r = FrontendState {
            phase: FrontendPhase::Intake,
            session_id,
            pending_user_text: Vec::new(),
            task_id: None,
            worker_instance_id: None,
            report_draft: None,
        };
        assert(r@ =~= FrontendState::fresh(session_id));
        r
    }
}

/// What a worker knows.
#[derive(Debug, PartialEq)]
pub struct WorkerState {
    pub phase: WorkerPhase,
    pub task_id: TaskId,
    pub current_step: Option<StepId>,
    pub plan_steps: Vec<StepId>,
    pub blocked_reason: Option<String>,
    pub paused_step: Option<StepId>,
    pub revision_note: Option<String>,
    pub awaiting_plan_approval: bool,
    pub message_tail: Json,
}

/// What a [`WorkerState`] holds.
#[verifier::ext_equal]
pub struct WorkerV {
    pub phase: WorkerPhase,
    pub task_id: TaskId,
    pub current_step: Option<StepId>,
    pub plan: Seq<StepId>,
    pub blocked_reason: Option<Seq<char>>,
    pub paused_step: Option<StepId>,
    pub revision_note: Option<Seq<char>>,
    pub awaiting_plan_approval: bool,
    pub message_tail: JsonV,
}

impl View for WorkerState {
    type V = WorkerV;

    open spec fn view(&self) -> WorkerV {
        WorkerV {
            phase: self.phase,
            task_id: self.task_id,
            current_step: self.current_step,
            plan: self.plan_steps@,
            blocked_reason: opt_view(self.blocked_reason),
            paused_step: self.paused_step,
            revision_note: opt_view(self.revision_note),
            awaiting_plan_approval: self.awaiting_plan_approval,
            message_tail: self.message_tail@,
        }
    }
}

impl WorkerV {
    /// Whether the current step stands in the plan at `i`, and not before.
    pub open spec fn at_step(self, i: int) -> bool {
        &&& 0 <= i < self.plan.len()
        &&& self.current_step == Some(self.plan[i])
        &&& forall|j: int| 0 <= j < i ==> self.plan[j] != self.plan[i]
    }

    /// The step after the current one.
    pub open spec fn following(self) -> Option<StepId> {
        if exists|i: int| self.at_step(i) && i + 1 < self.plan.len() {
            Some(self.plan[(choose|i: int| self.at_step(i) && i + 1 < self.plan.len()) + 1])
        } else {
            None
        }
    }
}

/// The current step stands at one place of the plan at most.
pub proof fn lemma_one_place(w: WorkerV, i: int, j: int)
    requires
        w.at_step(i),
        w.at_step(j),
    ensures
        i == j,
{
    if i < j {
        assert(w.plan[i] != w.plan[j]);
    } else if j < i {
        assert(w.plan[j] != w.plan[i]);
    }
}

impl WorkerState {
    /// The state of a worker that has no plan yet.
    pub open spec fn fresh(task_id: TaskId) -> WorkerV {
        WorkerV {
            phase: WorkerPhase::Plan,
            task_id,
            current_step: None,
            plan: Seq::empty(),
            blocked_reason: None,
            paused_step: None,
            revision_note: None,
            awaiting_plan_approval: false,
            message_tail: JsonV::Arr(Seq::empty()),
        }
    }

    /// The state of a worker that has no plan yet.
    pub fn new(task_id: TaskId) -> (r: WorkerState)
        ensures
            r@ == WorkerState::fresh(task_id),
    {
        let r = WorkerState {
            phase: WorkerPhase::Plan,
            task_id,
            current_step: None,
            plan_steps: Vec::new(),
            blocked_reason: None,
            paused_step: None,
            revision_note: None,
            awaiting_plan_approval: false,
            message_tail: Json::array(Vec::new()),
        };
        assert(r@.message_tail->Arr_0 =~= Seq::<JsonV>::empty());
        assert(r@ =~= WorkerState::fresh(task_id));
        r
    }

    /// The current step.
    pub fn current_step_id(&self) -> (r: Option<StepId>)
        ensures
            r == self.current_step,
    {
        self.current_step
    }

    /// Where the current step stands in the plan.
    pub fn current_step_position(&self) -> (r: Option<usize>)
        ensures
            match r {
                Some(i) => self@.at_step(i as int),
                None => self.current_step is None || !self.plan_steps@.contains(self.current_step.unwrap()),
            },
    {
        let current = match self.current_step {
            Some(s) => s,
            None => {
                return None;
            },
        };
        let mut i: usize = 0;
        while i < self.plan_steps.len()
            invariant
                i <= self.plan_steps@.len(),
                self.current_step == Some(current),
                forall|j: int| 0 <= j < i ==> self.plan_steps@[j] != current,
            decreases self.plan_steps@.len() - i,
        {
            if self.plan_steps[i] == current {
                return Some(i);
            }
            i = i + 1;
        }
        None
    }

    /// The step after the current one.
    pub fn next_step(&self) -> (r: Option<StepId>)
        ensures
            r == self@.following(),
    {
        let pos: usize = match self.current_step_position() {
            Some(i) => i,
            None => {
                assert forall|i: int| !self@.at_step(i) by {
                    if self@.at_step(i) {
                        assert(self.plan_steps@[i] == self.current_step.unwrap());
                    }
                }
                return None;
            },
        };
        proof {
            assert forall|i: int| self@.at_step(i) implies i == pos by {
                lemma_one_place(self@, i, pos as int);
            }
        }
        if pos < self.plan_steps.len() - 1 {
            assert(self@.at_step(pos as int) && pos + 1 < self@.plan.len());
            Some(self.plan_steps[pos + 1])
        } else {
            None
        }
    }
}

/// The state of an agent that depends on its role.
#[derive(Debug, PartialEq)]
pub enum RoleState {
    Frontend(FrontendState),
    Worker(WorkerState),
}

/// What a [`RoleState`] holds.
#[verifier::ext_equal]
pub enum RoleV {
    Frontend(FrontendV),
    Worker(WorkerV),
}

impl View for RoleState {
    type V = RoleV;

    open spec fn view(&self) -> RoleV {
        match *self {
            RoleState::Frontend(s) => RoleV::Frontend(s@),
            RoleState::Worker(s) => RoleV::Worker(s@),
        }
    }
}

impl RoleV {
    /// The role that the state belongs to.
    pub open spec fn role(self) -> AgentRole {
        match self {
            RoleV::Frontend(_) => AgentRole::Frontend,
            RoleV::Worker(_) => AgentRole::Worker,
        }
    }

    /// The phase of the state.
    pub open spec fn phase(self) -> SemanticPhase {
        match self {
            RoleV::Frontend(s) => SemanticPhase::Frontend(s.phase),
            RoleV::Worker(s) => SemanticPhase::Worker(s.phase),
        }
    }
}

impl RoleState {
    /// A new frontend's state.
    pub fn frontend(session_id: SessionId) -> (r: RoleState)
        ensures
            r@ == RoleV::Frontend(FrontendState::fresh(session_id)),
    {
        RoleState::Frontend(FrontendState::new(session_id))
    }

    /// A new worker's state.
    pub fn worker(task_id: TaskId) -> (r: RoleState)
        ensures
            r@ == RoleV::Worker(WorkerState::fresh(task_id)),
    {
        RoleState::Worker(WorkerState::new(task_id))
    }

    /// The role that the state belongs to.
    pub fn role(&self) -> (r: AgentRole)
        ensures
            r == self@.role(),
    {
        match self {
            RoleState::Frontend(_) => AgentRole::Frontend,
            RoleState::Worker(_) => AgentRole::Worker,
        }
    }

    /// The phase of the state.
    pub fn semantic_phase(&self) -> (r: SemanticPhase)
        ensures
            r == self@.phase(),
    {
        match self {
            RoleState::Frontend(s) => SemanticPhase::Frontend(s.phase),
            RoleState::Worker(s) => SemanticPhase::Worker(s.phase),
        }
    }

    /// The frontend's state, where it is one.
    pub fn as_frontend(&self) -> (r: Option<&FrontendState>)
        ensures
            match r {
                Some(s) => *self == RoleState::Frontend(*s),
                None => self is Worker,
            },
    {
        match self {
            RoleState::Frontend(s) => Some(s),
            RoleState::Worker(_) => None,
        }
    }

    /// The worker's state, where it is one.
    pub fn as_worker(&self) -> (r: Option<&WorkerState>)
        ensures
            match r {
                Some(s) => *self == RoleState::Worker(*s),
                None => self is Frontend,
            },
    {
        match self {
            RoleState::Frontend(_) => None,
            RoleState::Worker(s) => Some(s),
        }
    }
}

/// The whole state of an agent.
#[derive(Debug, PartialEq)]
pub struct AgentState {
    pub instance_id: String,
    pub role: AgentRole,
    pub run_id: String,
    pub run_status: RunStatus,
    pub iteration_id: u32,
    pub role_state: RoleState,
}

/// What an [`AgentState`] holds.
#[verifier::ext_equal]
pub struct StateV {
    pub instance_id: Seq<char>,
    pub role: AgentRole,
    pub run_id: Seq<char>,
    pub run_status: RunStatus,
    pub iteration_id: nat,
    pub role_state: RoleV,
}

impl View for AgentState {
    type V = StateV;

    open spec fn view(&self) -> StateV {
        StateV {
            instance_id: self.instance_id@,
            role: self.role,
            run_id: self.run_id@,
            run_status: self.run_status,
            iteration_id: self.iteration_id as nat,
            role_state: self.role_state@,
        }
    }
}

impl StateV {
    /// Whether the role is the one that the role's state belongs to.
    pub open spec fn wf(self) -> bool {
        self.role == self.role_state.role()
    }

    /// The state of a run that has not begun.
    pub open spec fn fresh(instance_id: Seq<char>, run_id: Seq<char>, role_state: RoleV) -> StateV {
        StateV {
            instance_id,
            role: role_state.role(),
            run_id,
            run_status: RunStatus::Runnable,
            iteration_id: 0,
            role_state,
        }
    }
}

impl AgentState {
    /// The state of a run that has not begun.
    pub fn new(instance_id: String, run_id: String, role_state: RoleState) -> (r: AgentState)
        ensures
            r@ == StateV::fresh(instance_id@, run_id@, role_state@),
            r@.wf(),
    {
        let role = role_state.role();
        AgentState { instance_id, role, run_id, run_status: RunStatus::Runnable, iteration_id: 0, role_state }
    }

    /// The state of a new frontend.
    pub fn frontend(instance_id: String, run_id: String, session_id: SessionId) -> (r: AgentState)
        ensures
            r@ == StateV::fresh(
                instance_id@,
                run_id@,
                RoleV::Frontend(FrontendState::fresh(session_id)),
            ),
            r@.wf(),
    {
        AgentState::new(instance_id, run_id, RoleState::frontend(session_id))
    }

    /// The state of a new worker.
    pub fn worker(instance_id: String, run_id: String, task_id: TaskId) -> (r: AgentState)
        ensures
            r@ == StateV::fresh(instance_id@, run_id@, RoleV::Worker(WorkerState::fresh(task_id))),
            r@.wf(),
    {
        AgentState::new(instance_id, run_id, RoleState::worker(task_id))
    }

    /// The phase that the agent is in.
    pub fn semantic_phase(&self) -> (r: SemanticPhase)
        ensures
            r == self@.role_state.phase(),
    {
        self.role_state.semantic_phase()
    }
}

/// The schema that a model output should follow.
#[derive(Debug, PartialEq, Eq)]
pub struct OutputSchema {
    pub name: String,
    pub description: String,
}

/// The tools that the model sees in one iteration.
#[derive(Debug, PartialEq, Eq)]
pub struct ToolVisibility {
    pub tools_json: Option<String>,
}

impl Default for ToolVisibility {
    fn default() -> (r: ToolVisibility)
        ensures
            r.tools_json is None,
    {
        ToolVisibility { tools_json: None }
    }
}

/// What a prompt is made from.
pub struct ContextBuildInput<'a> {
    pub state: &'a AgentState,
    pub task: Option<&'a TaskContract>,
    pub env_manifest: &'a str,
    pub global_policy: &'a str,
    pub memory_snapshot: &'a str,
}

/// What one iteration gives to the model.
#[derive(Debug, PartialEq)]
pub struct ContextBundle {
    pub system_prompt: String,
    pub messages: Json,
    pub tools_json: Option<String>,
}

/// A change of an agent's state.
#[derive(Debug, PartialEq, Eq)]
pub enum StatePatch {
    SetRunStatus(RunStatus),
    SetFrontendPhase(FrontendPhase),
    SetWorkerPhase(WorkerPhase),
    SetTaskId(TaskId),
    SetWorkerInstanceId(WorkerId),
    SetPlanSteps(Vec<StepId>),
    SetCurrentStep(Option<StepId>),
    SetBlockedReason(Option<String>),
    SetPausedStep(Option<StepId>),
    PushUserText(String),
    SetReportDraft(String),
    SetRevisionNote(Option<String>),
    SetAwaitingPlanApproval(bool),
    BumpIterationId,
}

/// What a [`StatePatch`] holds.
#[verifier::ext_equal]
pub enum PatchV {
    SetRunStatus(RunStatus),
    SetFrontendPhase(FrontendPhase),
    SetWorkerPhase(WorkerPhase),
    SetTaskId(TaskId),
    SetWorkerInstanceId(WorkerId),
    SetPlanSteps(Seq<StepId>),
    SetCurrentStep(Option<StepId>),
    SetBlockedReason(Option<Seq<char>>),
    SetPausedStep(Option<StepId>),
    PushUserText(Seq<char>),
    SetReportDraft(Seq<char>),
    SetRevisionNote(Option<Seq<char>>),
    SetAwaitingPlanApproval(bool),
    BumpIterationId,
}

impl View for StatePatch {
    type V = PatchV;

    open spec fn view(&self) -> PatchV {
        match *self {
            StatePatch::SetRunStatus(s) => PatchV::SetRunStatus(s),
            StatePatch::SetFrontendPhase(p) => PatchV::SetFrontendPhase(p),
            StatePatch::SetWorkerPhase(p) => PatchV::SetWorkerPhase(p),
            StatePatch::SetTaskId(id) => PatchV::SetTaskId(id),
            StatePatch::SetWorkerInstanceId(id) => PatchV::SetWorkerInstanceId(id),
            StatePatch::SetPlanSteps(steps) => PatchV::SetPlanSteps(steps@),
            StatePatch::SetCurrentStep(s) => PatchV::SetCurrentStep(s),
            StatePatch::SetBlockedReason(r) => PatchV::SetBlockedReason(opt_view(r)),
            StatePatch::SetPausedStep(s) => PatchV::SetPausedStep(s),
            StatePatch::PushUserText(t) => PatchV::PushUserText(t@),
            StatePatch::SetReportDraft(t) => PatchV::SetReportDraft(t@),
            StatePatch::SetRevisionNote(n) => PatchV::SetRevisionNote(opt_view(n)),
            StatePatch::SetAwaitingPlanApproval(b) => PatchV::SetAwaitingPlanApproval(b),
            StatePatch::BumpIterationId => PatchV::BumpIterationId,
        }
    }
}

impl StatePatch {
    /// A copy of the patch.
    pub fn dup(&self) -> (r: StatePatch)
        ensures
            r@ == self@,
    {
        match self {
            StatePatch::SetRunStatus(s) => StatePatch::SetRunStatus(*s),
            StatePatch::SetFrontendPhase(p) => StatePatch::SetFrontendPhase(*p),
            StatePatch::SetWorkerPhase(p) => StatePatch::SetWorkerPhase(*p),
            StatePatch::SetTaskId(id) => StatePatch::SetTaskId(*id),
            StatePatch::SetWorkerInstanceId(id) => StatePatch::SetWorkerInstanceId(*id),
            StatePatch::SetPlanSteps(steps) => StatePatch::SetPlanSteps(dup_steps(steps)),
            StatePatch::SetCurrentStep(s) => StatePatch::SetCurrentStep(*s),
            StatePatch::SetBlockedReason(r) => StatePatch::SetBlockedReason(clone_opt(r)),
            StatePatch::SetPausedStep(s) => StatePatch::SetPausedStep(*s),
            StatePatch::PushUserText(t) => StatePatch::PushUserText(t.clone()),
            StatePatch::SetReportDraft(t) => StatePatch::SetReportDraft(t.clone()),
            StatePatch::SetRevisionNote(n) => StatePatch::SetRevisionNote(clone_opt(n)),
            StatePatch::SetAwaitingPlanApproval(b) => StatePatch::SetAwaitingPlanApproval(*b),
            StatePatch::BumpIterationId => StatePatch::BumpIterationId,
        }
    }
}

/// A frontend's state after a patch.
pub open spec fn frontend_patched(s: FrontendV, p: PatchV) -> FrontendV {
    match p {
        PatchV::SetTaskId(id) => FrontendV { task_id: Some(id), ..s },
        PatchV::SetWorkerInstanceId(id) => FrontendV { worker: Some(id), ..s },
        PatchV::SetFrontendPhase(phase) => FrontendV { phase, ..s },
        PatchV::PushUserText(t) => FrontendV { pending: s.pending.push(t), ..s },
        PatchV::SetReportDraft(t) => FrontendV { report: Some(t), ..s },
        _ => s,
    }
}

/// A worker's state after a patch.
pub open spec fn worker_patched(s: WorkerV, p: PatchV) -> WorkerV {
    match p {
        PatchV::SetWorkerPhase(phase) => WorkerV { phase, ..s },
        PatchV::SetPlanSteps(plan) => WorkerV {
            plan,
            current_step: if plan.len() > 0 {
                Some(plan[0])
            } else {
                None
            },
            ..s
        },
        PatchV::SetCurrentStep(step) => WorkerV { current_step: step, ..s },
        PatchV::SetBlockedReason(reason) => WorkerV { blocked_reason: reason, ..s },
        PatchV::SetPausedStep(step) => WorkerV { paused_step: step, ..s },
        PatchV::SetRevisionNote(note) => WorkerV { revision_note: note, ..s },
        PatchV::SetAwaitingPlanApproval(b) => WorkerV { awaiting_plan_approval: b, ..s },
        _ => s,
    }
}

/// A state after a patch. A patch for the other role changes nothing.
pub open spec fn patched(s: StateV, p: PatchV) -> StateV {
    match p {
        PatchV::SetRunStatus(status) => StateV { run_status: status, ..s },
        PatchV::BumpIterationId => StateV { iteration_id: s.iteration_id + 1, ..s },
        _ => StateV {
            role_state: match s.role_state {
                RoleV::Frontend(f) => RoleV::Frontend(frontend_patched(f, p)),
                RoleV::Worker(w) => RoleV::Worker(worker_patched(w, p)),
            },
            ..s
        },
    }
}

/// A state after patches, one after the other.
pub open spec fn patched_all(s: StateV, patches: Seq<PatchV>) -> StateV
    decreases patches.len(),
{
    if patches.len() == 0 {
        s
    } else {
        patched(patched_all(s, patches.drop_last()), patches.last())
    }
}

/// How many of the patches count an iteration.
pub open spec fn bumps(patches: Seq<PatchV>) -> nat
    decreases patches.len(),
{
    if patches.len() == 0 {
        0
    } else {
        bumps(patches.drop_last()) + if patches.last() is BumpIterationId {
            1nat
        } else {
            0nat
        }
    }
}

/// What the patches hold.
pub open spec fn patch_views(p: Seq<StatePatch>) -> Seq<PatchV> {
    p.map_values(|p: StatePatch| p@)
}

/// What the events hold.
pub open spec fn event_views(e: Seq<AgentEvent>) -> Seq<EventV> {
    e.map_values(|e: AgentEvent| e@)
}

fn patch_frontend(frontend: &mut FrontendState, patch: &StatePatch)
    ensures
        final(frontend)@ == frontend_patched(old(frontend)@, patch@),
{
    match patch {
        StatePatch::SetTaskId(task_id) => {
            frontend.task_id = Some(*task_id);
        },
        StatePatch::SetWorkerInstanceId(worker_id) => {
            frontend.worker_instance_id = Some(*worker_id);
        },
        StatePatch::SetFrontendPhase(phase) => {
            frontend.phase = *phase;
        },
        StatePatch::PushUserText(text) => {
            frontend.pending_user_text.push(text.clone());
            assert(views(frontend.pending_user_text@) =~= views(old(frontend).pending_user_text@).push(text@));
        },
        StatePatch::SetReportDraft(report) => {
            frontend.report_draft = Some(report.clone());
        },
        _ => {},
    }
}

fn patch_worker(worker: &mut WorkerState, patch: &StatePatch)
    ensures
        final(worker)@ == worker_patched(old(worker)@, patch@),
{
    match patch {
        StatePatch::SetWorkerPhase(phase) => {
            worker.phase = *phase;
        },
        StatePatch::SetPlanSteps(steps) => {
            worker.plan_steps = dup_steps(steps);
            worker.current_step = if steps.len() > 0 {
                Some(steps[0])
            } else {
                None
            };
        },
        StatePatch::SetCurrentStep(step) => {
            worker.current_step = *step;
        },
        StatePatch::SetBlockedReason(reason) => {
            worker.blocked_reason = clone_opt(reason);
        },
        StatePatch::SetPausedStep(step) => {
            worker.paused_step = *step;
        },
        StatePatch::SetRevisionNote(note) => {
            worker.revision_note = clone_opt(note);
        },
        StatePatch::SetAwaitingPlanApproval(waiting) => {
            worker.awaiting_plan_approval = *waiting;
        },
        _ => {},
    }
}

fn apply_patch(state: &mut AgentState, patch: &StatePatch)
    requires
        patch is BumpIterationId ==> old(state).iteration_id < u32::MAX,
    ensures
        final(state)@ == patched(old(state)@, patch@),
{
    match patch {
        StatePatch::SetRunStatus(status) => {
            state.run_status = *status;
        },
        StatePatch::BumpIterationId => {
            state.iteration_id = state.iteration_id + 1;
        },
        _ => match &mut state.role_state {
            RoleState::Frontend(frontend) => {
                patch_frontend(frontend, patch);
            },
            RoleState::Worker(worker) => {
                patch_worker(worker, patch);
            },
        },
    }
}

/// Applies the patches to the state, one after the other. The count of iterations
/// must not outgrow its type.
pub fn apply_patches(state: &mut AgentState, patches: &Vec<StatePatch>)
    requires
        old(state).iteration_id + bumps(patch_views(patches@)) <= u32::MAX,
    ensures
        final(state)@ == patched_all(old(state)@, patch_views(patches@)),
{
    let ghost all = patch_views(patches@);
    let mut i: usize = 0;
    while i < patches.len()
        invariant
            i <= patches@.len(),
            all == patch_views(patches@),
            state@ == patched_all(old(state)@, all.take(i as int)),
            state.iteration_id == old(state).iteration_id + bumps(all.take(i as int)),
            old(state).iteration_id + bumps(all) <= u32::MAX,
        decreases patches@.len() - i,
    {
        proof {
            let t = all.take(i + 1);
            assert(t.drop_last() =~= all.take(i as int));
            assert(t.last() == patches@[i as int]@);
            lemma_bumps_grow(all, i + 1);
        }
        apply_patch(state, &patches[i]);
        i = i + 1;
    }
    assert(all.take(patches@.len() as int) =~= all);
}

proof fn lemma_bumps_grow(p: Seq<PatchV>, k: int)
    requires
        0 <= k <= p.len(),
    ensures
        bumps(p.take(k)) <= bumps(p),
    decreases p.len() - k,
{
    if k == p.len() {
        assert(p.take(k) =~= p);
    } else {
        lemma_bumps_grow(p, k + 1);
        assert(p.take(k + 1).drop_last() =~= p.take(k));
    }
}

/// Patches keep an agent what it is: its id, its run, its role, and that the
/// role's state is of that role.
pub proof fn law_patches_keep_the_agent(s: StateV, patches: Seq<PatchV>)
    ensures
        patched_all(s, patches).instance_id == s.instance_id,
        patched_all(s, patches).run_id == s.run_id,
        patched_all(s, patches).role == s.role,
        patched_all(s, patches).role_state.role() == s.role_state.role(),
        s.wf() ==> patched_all(s, patches).wf(),
        patched_all(s, patches).iteration_id == s.iteration_id + bumps(patches),
    decreases patches.len(),
{
    if patches.len() > 0 {
        law_patches_keep_the_agent(s, patches.drop_last());
    }
}

/// Applying two lists of patches one after the other is applying both at once.
pub proof fn law_patches_compose(s: StateV, a: Seq<PatchV>, b: Seq<PatchV>)
    ensures
        patched_all(patched_all(s, a), b) == patched_all(s, a + b),
    decreases b.len(),
{
    if b.len() == 0 {
        assert(a + b =~= a);
    } else {
        law_patches_compose(s, a, b.drop_last());
        assert((a + b).drop_last() =~= a + b.drop_last());
        assert((a + b).last() == b.last());
    }
}

/// What one iteration did.
#[derive(Debug, PartialEq, Eq)]
pub enum ActionSummary {
    /// The model called tools.
    ToolCalls { names: Vec<String> },
    /// The model answered in plain text.
    PlainText { text: String },
    /// The iteration was cut short.
    Preempted,
}

/// What an [`ActionSummary`] holds.
#[verifier::ext_equal]
pub enum ActionV {
    ToolCalls { names: Seq<Seq<char>> },
    PlainText { text: Seq<char> },
    Preempted,
}

impl View for ActionSummary {
    type V = ActionV;

    open spec fn view(&self) -> ActionV {
        match *self {
            ActionSummary::ToolCalls { names } => ActionV::ToolCalls { names: views(names@) },
            ActionSummary::PlainText { text } => ActionV::PlainText { text: text@ },
            ActionSummary::Preempted => ActionV::Preempted,
        }
    }
}

/// What one iteration brought.
#[derive(Debug, PartialEq, Eq)]
pub struct HarnessIterationOutput {
    pub action: ActionSummary,
    pub observation: Option<String>,
    /// The model's output, where it follows its schema.
    pub validated: Option<ValidatedLlmOutput>,
}

/// What a [`HarnessIterationOutput`] holds.
#[verifier::ext_equal]
pub struct IterationV {
    pub action: ActionV,
    pub observation: Option<Seq<char>>,
    pub validated: Option<OutputV>,
}

impl View for HarnessIterationOutput {
    type V = IterationV;

    open spec fn view(&self) -> IterationV {
        IterationV {
            action: self.action@,
            observation: opt_view(self.observation),
            validated: match self.validated {
                Some(o) => Some(o@),
                None => None,
            },
        }
    }
}

/// An event that moves an agent on.
#[derive(Debug, PartialEq, Eq)]
pub enum TransitionSignal {
    TaskUnderstood,
    NeedClarification,
    TaskCreated { task_id: TaskId, worker_id: WorkerId },
    PlanReady { steps: Vec<StepId> },
    StepExecuted,
    VerifyPassed,
    VerifyFailed,
    NeedsApproval,
    MissingCapability { reason: String },
    UserApproved,
    WorkerDone { summary: String },
    ReportSent,
}

/// What a [`TransitionSignal`] holds.
#[verifier::ext_equal]
pub enum SignalV {
    TaskUnderstood,
    NeedClarification,
    TaskCreated { task_id: TaskId, worker_id: WorkerId },
    PlanReady { steps: Seq<StepId> },
    StepExecuted,
    VerifyPassed,
    VerifyFailed,
    NeedsApproval,
    MissingCapability { reason: Seq<char> },
    UserApproved,
    WorkerDone { summary: Seq<char> },
    ReportSent,
}

impl View for TransitionSignal {
    type V = SignalV;

    open spec fn view(&self) -> SignalV {
        match *self {
            TransitionSignal::TaskUnderstood => SignalV::TaskUnderstood,
            TransitionSignal::NeedClarification => SignalV::NeedClarification,
            TransitionSignal::TaskCreated { task_id, worker_id } => SignalV::TaskCreated { task_id, worker_id },
            TransitionSignal::PlanReady { steps } => SignalV::PlanReady { steps: steps@ },
            TransitionSignal::StepExecuted => SignalV::StepExecuted,
            TransitionSignal::VerifyPassed => SignalV::VerifyPassed,
            TransitionSignal::VerifyFailed => SignalV::VerifyFailed,
            TransitionSignal::NeedsApproval => SignalV::NeedsApproval,
            TransitionSignal::MissingCapability { reason } => SignalV::MissingCapability { reason: reason@ },
            TransitionSignal::UserApproved => SignalV::UserApproved,
            TransitionSignal::WorkerDone { summary } => SignalV::WorkerDone { summary: summary@ },
            TransitionSignal::ReportSent => SignalV::ReportSent,
        }
    }
}

/// What a transition looks at.
#[derive(Debug, PartialEq, Eq)]
pub struct TransitionInput {
    pub iteration: Option<HarnessIterationOutput>,
    pub signal: Option<TransitionSignal>,
    pub requires_plan_approval: bool,
}

/// What a [`TransitionInput`] holds.
#[verifier::ext_equal]
pub struct InputV {
    pub iteration: Option<IterationV>,
    pub signal: Option<SignalV>,
    pub requires_plan_approval: bool,
}

impl View for TransitionInput {
    type V = InputV;

    open spec fn view(&self) -> InputV {
        InputV {
            iteration: match self.iteration {
                Some(i) => Some(i@),
                None => None,
            },
            signal: match self.signal {
                Some(s) => Some(s@),
                None => None,
            },
            requires_plan_approval: self.requires_plan_approval,
        }
    }
}

impl Default for TransitionInput {
    fn default() -> (r: TransitionInput)
        ensures
            r@ == (InputV { iteration: None, signal: None, requires_plan_approval: false }),
    {
        TransitionInput { iteration: None, signal: None, requires_plan_approval: false }
    }
}

/// What a transition asks for.
#[derive(Debug, PartialEq, Eq)]
pub struct TransitionOutput {
    pub patches: Vec<StatePatch>,
    pub events: Vec<AgentEvent>,
}

/// What a [`TransitionOutput`] holds.
#[verifier::ext_equal]
pub struct MoveV {
    pub patches: Seq<PatchV>,
    pub events: Seq<EventV>,
}

impl View for TransitionOutput {
    type V = MoveV;

    open spec fn view(&self) -> MoveV {
        MoveV { patches: patch_views(self.patches@), events: event_views(self.events@) }
    }
}

/// Nothing to change and nothing to tell.
pub open spec fn no_move() -> MoveV {
    MoveV { patches: Seq::empty(), events: Seq::empty() }
}

impl TransitionOutput {
    /// Adds a patch.
    pub fn patch(&mut self, p: StatePatch)
        ensures
            final(self)@ == (MoveV { patches: old(self)@.patches.push(p@), events: old(self)@.events }),
    {
        self.patches.push(p);
        assert(patch_views(self.patches@) =~= patch_views(old(self).patches@).push(p@));
    }

    /// Adds an event.
    pub fn tell(&mut self, e: AgentEvent)
        ensures
            final(self)@ == (MoveV { patches: old(self)@.patches, events: old(self)@.events.push(e@) }),
    {
        self.events.push(e);
        assert(event_views(self.events@) =~= event_views(old(self).events@).push(e@));
    }
}

impl Default for TransitionOutput {
    fn default() -> (r: TransitionOutput)
        ensures
            r@ == no_move(),
    {
        let r = TransitionOutput { patches: Vec::new(), events: Vec::new() };
        assert(r@ =~= no_move());
        r
    }
}

/// The semantic controller of one role.
pub trait AgentSpec {
    /// The role that the controller serves.
    spec fn for_role(&self) -> AgentRole;

    /// The tools that the model sees in a state.
    spec fn tools_in(&self, state: StateV) -> Option<Seq<char>>;

    /// The name and the description of the schema that the model's output should follow.
    spec fn schema_in(&self, state: StateV) -> (Seq<char>, Seq<char>);

    /// Whether the model is to be called in a state.
    spec fn calls_in(&self, state: StateV) -> bool;

    /// How a state moves on an input.
    spec fn moves(&self, state: StateV, input: InputV) -> MoveV;

    /// How a state moves on an event.
    spec fn reacts(&self, state: StateV, event: EventV) -> MoveV;

    fn role(&self) -> (r: AgentRole)
        ensures
            r == self.for_role(),
    ;

    fn phase(&self, state: &AgentState) -> (r: SemanticPhase)
        ensures
            r == state@.role_state.phase(),
    ;

    fn visible_tools(&self, input: &ContextBuildInput<'_>) -> (r: ToolVisibility)
        ensures
            opt_view(r.tools_json) == self.tools_in(input.state@),
    ;

    fn expected_schema(&self, input: &ContextBuildInput<'_>) -> (r: OutputSchema)
        ensures
            (r.name@, r.description@) == self.schema_in(input.state@),
    ;

    fn should_call_llm(&self, state: &AgentState) -> (r: bool)
        ensures
            r == self.calls_in(state@),
    ;

    fn transition(&self, state: &AgentState, input: &TransitionInput) -> (r: TransitionOutput)
        ensures
            r@ == self.moves(state@, input@),
    ;

    fn handle_event(&self, state: &AgentState, event: &AgentEvent) -> (r: TransitionOutput)
        ensures
            r@ == self.reacts(state@, event@),
    ;
}

/// The parts of a system prompt that depend on the role.
pub trait PromptBlocks {
    /// The text of the state section.
    spec fn state_text(&self, state: StateV) -> Seq<char>;

    /// The text of the plan section.
    spec fn plan_text(&self, task: Option<&TaskContract>) -> Seq<char>;

    /// The messages of the conversation.
    spec fn conversation(&self, state: StateV) -> JsonV;

    fn state_block(&self, input: &ContextBuildInput<'_>) -> (r: String)
        ensures
            r@ == self.state_text(input.state@),
    ;

    fn plan_block(&self, input: &ContextBuildInput<'_>) -> (r: String)
        ensures
            r@ == self.plan_text(input.task),
    ;

    fn conversation_messages(&self, input: &ContextBuildInput<'_>) -> (r: Json)
        ensures
            r@ == self.conversation(input.state@),
    ;
}

/// A patch sets what it names to what it brings and leaves all else alone; one that is
/// meant for the other role changes nothing.
pub proof fn law_patch_sets_what_it_names(s: StateV, f: FrontendV, p: PatchV)
    requires
        s.role_state == RoleV::Frontend(f),
    ensures
        ({
            let t = patched(s, p);
            &&& t.instance_id == s.instance_id && t.run_id == s.run_id && t.role == s.role
            &&& p matches PatchV::SetRunStatus(status) ==> t == (StateV { run_status: status, ..s })
            &&& p is BumpIterationId ==> t.iteration_id == s.iteration_id + 1 && t.role_state == s.role_state
                && t.run_status == s.run_status
            &&& p matches PatchV::SetFrontendPhase(phase) ==> t.role_state == RoleV::Frontend(FrontendV { phase, ..f })
            &&& p matches PatchV::SetTaskId(id) ==> t.role_state == RoleV::Frontend(
                FrontendV { task_id: Some(id), ..f },
            )
            &&& p matches PatchV::SetWorkerInstanceId(id) ==> t.role_state == RoleV::Frontend(
                FrontendV { worker: Some(id), ..f },
            )
            &&& p matches PatchV::SetReportDraft(text) ==> t.role_state == RoleV::Frontend(
                FrontendV { report: Some(text), ..f },
            )
            &&& p matches PatchV::PushUserText(text) ==> (t.role_state matches RoleV::Frontend(g) && g.pending.len()
                == f.pending.len() + 1 && g.pending.last() == text && f.pending.is_prefix_of(g.pending) && g == (
            FrontendV { pending: g.pending, ..f }))
            &&& p is SetWorkerPhase || p is SetPlanSteps || p is SetCurrentStep || p is SetBlockedReason
                || p is SetPausedStep || p is SetRevisionNote || p is SetAwaitingPlanApproval ==> t == s
        }),
{
}

/// Likewise for a worker; a plan brings its first step with it.
pub proof fn law_patch_sets_what_it_names_of_a_worker(s: StateV, w: WorkerV, p: PatchV)
    requires
        s.role_state == RoleV::Worker(w),
    ensures
        ({
            let t = patched(s, p);
            &&& t.instance_id == s.instance_id && t.run_id == s.run_id && t.role == s.role
            &&& p matches PatchV::SetRunStatus(status) ==> t == (StateV { run_status: status, ..s })
            &&& p matches PatchV::SetWorkerPhase(phase) ==> t.role_state == RoleV::Worker(WorkerV { phase, ..w })
            &&& p matches PatchV::SetPlanSteps(plan) ==> (t.role_state matches RoleV::Worker(v) && v.plan == plan && (
            plan.len() > 0 ==> v.current_step == Some(plan[0])) && (plan.len() == 0 ==> v.current_step is None) && v
                == (WorkerV { plan, current_step: v.current_step, ..w }))
            &&& p matches PatchV::SetCurrentStep(step) ==> t.role_state == RoleV::Worker(
                WorkerV { current_step: step, ..w },
            )
            &&& p matches PatchV::SetBlockedReason(reason) ==> t.role_state == RoleV::Worker(
                WorkerV { blocked_reason: reason, ..w },
            )
            &&& p matches PatchV::SetPausedStep(step) ==> t.role_state == RoleV::Worker(
                WorkerV { paused_step: step, ..w },
            )
            &&& p matches PatchV::SetRevisionNote(note) ==> t.role_state == RoleV::Worker(
                WorkerV { revision_note: note, ..w },
            )
            &&& p matches PatchV::SetAwaitingPlanApproval(b) ==> t.role_state == RoleV::Worker(
                WorkerV { awaiting_plan_approval: b, ..w },
            )
            &&& p is SetFrontendPhase || p is SetTaskId || p is SetWorkerInstanceId || p is PushUserText
                || p is SetReportDraft ==> t == s
        }),
{
}

/// A step is followed by the one that stands behind it in the plan, and the last step by
/// none.
pub proof fn law_step_is_followed_by_the_next(w: WorkerV, i: int)
    requires
        w.at_step(i),
    ensures
        i + 1 < w.plan.len() ==> w.following() == Some(w.plan[i + 1]),
        i + 1 == w.plan.len() ==> w.following() is None,
        w.current_step == Some(w.plan[i]),
{
    assert forall|j: int| w.at_step(j) implies j == i by {
        lemma_one_place(w, i, j);
    }
    if i + 1 < w.plan.len() {
        assert(w.at_step(i) && i + 1 < w.plan.len());
    }
}

/// A new agent begins where its role begins, with nothing done: a frontend takes its task
/// in, and a worker plans the task that it was made for.
pub proof fn law_new_agent_begins_at_the_beginning(instance: Seq<char>, run: Seq<char>, session: SessionId, task: TaskId)
    ensures
        ({
            let f = StateV::fresh(instance, run, RoleV::Frontend(FrontendState::fresh(session)));
            let w = StateV::fresh(instance, run, RoleV::Worker(WorkerState::fresh(task)));
            &&& f.wf() && w.wf()
            &&& f.instance_id == instance && w.instance_id == instance
            &&& f.run_id == run && w.run_id == run
            &&& f.iteration_id == 0 && w.iteration_id == 0
            &&& f.run_status == RunStatus::Runnable && w.run_status == RunStatus::Runnable
            &&& f.role == AgentRole::Frontend && w.role == AgentRole::Worker
            &&& f.role_state->Frontend_0.phase is Intake
            &&& f.role_state->Frontend_0.session_id == session
            &&& f.role_state->Frontend_0.pending.len() == 0
            &&& f.role_state->Frontend_0.task_id is None
            &&& f.role_state->Frontend_0.report is None
            &&& w.role_state->Worker_0.phase is Plan
            &&& w.role_state->Worker_0.task_id == task
            &&& w.role_state->Worker_0.plan.len() == 0
            &&& w.role_state->Worker_0.current_step is None
            &&& !w.role_state->Worker_0.awaiting_plan_approval
            &&& w.role_state->Worker_0.message_tail == JsonV::Arr(Seq::empty())
        }),
{
}

/// An agent is in the phase that its role's state says.
pub proof fn law_phase_is_the_roles_own(f: FrontendV, w: WorkerV)
    ensures
        RoleV::Frontend(f).phase() == SemanticPhase::Frontend(f.phase),
        RoleV::Worker(w).phase() == SemanticPhase::Worker(w.phase),
        RoleV::Frontend(f).role() == AgentRole::Frontend,
        RoleV::Worker(w).role() == AgentRole::Worker,
{
}

/// Roles and phases go by their own names.
pub proof fn law_phases_have_their_names(f: FrontendPhase, w: WorkerPhase)
    ensures
        SemanticPhase::Frontend(f).name() == "Frontend("@ + f.name() + ")"@,
        SemanticPhase::Worker(w).name() == "Worker("@ + w.name() + ")"@,
        AgentRole::Frontend.name() == "Frontend"@,
        AgentRole::Worker.name() == "Worker"@,
        f is Intake ==> f.name() == "Intake"@,
        f is Clarify ==> f.name() == "Clarify"@,
        f is Delegate ==> f.name() == "Delegate"@,
        f is Watch ==> f.name() == "Watch"@,
        f is AskApproval ==> f.name() == "AskApproval"@,
        f is Report ==> f.name() == "Report"@,
        f is Done ==> f.name() == "Done"@,
        w is Plan ==> w.name() == "Plan"@,
        w is Act ==> w.name() == "Act"@,
        w is Verify ==> w.name() == "Verify"@,
        w is Paused ==> w.name() == "Paused"@,
        w is Blocked ==> w.name() == "Blocked"@,
        w is Done ==> w.name() == "Done"@,
{
}

} // verus!
