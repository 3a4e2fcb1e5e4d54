//! The worker's controller: it plans a task, carries out the steps one by one and
//! verifies each of them.

use vstd::prelude::*;

use crate::agent_registry::AgentRegistry;
use crate::agent_spec::{
    lemma_one_place, no_move, patched_all, ActionSummary, AgentRole, AgentSpec, AgentState, ContextBuildInput,
    HarnessIterationOutput, InputV, IterationV, MoveV, OutputSchema, PatchV, RoleState, RoleV, RunStatus, SemanticPhase,
    SignalV, StatePatch, StateV, ToolVisibility, TransitionInput, TransitionOutput, TransitionSignal, WorkerPhase,
    WorkerState, WorkerV,
};
use crate::agents::builtin::BuiltinSpec;
use crate::agents::frontend::{lemma_unroll, patches_only};
use crate::llm_output::{OutputV, ValidatedLlmOutput};
use crate::protocol::event::{dup_steps, AgentEvent, EventV};
use crate::protocol::ids::StepId;

verus! {

/// The tools that a working worker has.
pub open spec fn worker_tools() -> Seq<char> {
    "[{\"type\":\"function\",\"function\":{\"name\":\"files\",\"description\":\"file ops\"}}]"@
}

/// The move when a plan is there: it is proposed, and carried out at once unless it
/// needs consent.
pub open spec fn plan_ready(w: WorkerV, steps: Seq<StepId>, needs_consent: bool) -> MoveV {
    MoveV {
        patches: if needs_consent {
            seq![
                PatchV::SetPlanSteps(steps),
                PatchV::SetAwaitingPlanApproval(true),
                PatchV::SetWorkerPhase(WorkerPhase::Paused),
                PatchV::SetRunStatus(RunStatus::Waiting),
            ]
        } else {
            seq![PatchV::SetPlanSteps(steps), PatchV::SetWorkerPhase(WorkerPhase::Act)]
        },
        events: seq![EventV::PlanProposed { task_id: w.task_id, worker: None, steps }],
    }
}

/// The move when a step is verified: on to the next one, or done.
pub open spec fn step_verified(w: WorkerV, summary: Seq<char>) -> MoveV {
    match w.following() {
        Some(next) => patches_only(
            seq![PatchV::SetCurrentStep(Some(next)), PatchV::SetWorkerPhase(WorkerPhase::Act)],
        ),
        None => MoveV {
            patches: seq![PatchV::SetWorkerPhase(WorkerPhase::Done), PatchV::SetRunStatus(RunStatus::Done)],
            events: seq![EventV::Done { task_id: w.task_id, worker: None, summary }],
        },
    }
}

/// How a signal moves a worker.
pub open spec fn worker_on_signal(w: WorkerV, signal: SignalV, needs_consent: bool) -> MoveV {
    match (w.phase, signal) {
        (WorkerPhase::Plan, SignalV::PlanReady { steps }) => plan_ready(w, steps, needs_consent),
        (WorkerPhase::Act, SignalV::StepExecuted) => patches_only(
            seq![PatchV::SetWorkerPhase(WorkerPhase::Verify)],
        ),
        (WorkerPhase::Verify, SignalV::VerifyFailed) => patches_only(
            seq![PatchV::SetWorkerPhase(WorkerPhase::Act)],
        ),
        (WorkerPhase::Verify, SignalV::VerifyPassed) => step_verified(w, "all steps verified"@),
        (_, SignalV::NeedsApproval) => MoveV {
            patches: seq![PatchV::SetWorkerPhase(WorkerPhase::Paused), PatchV::SetPausedStep(w.current_step)],
            events: seq![
                EventV::ApprovalRequested {
                    task_id: w.task_id,
                    worker: None,
                    step_id: match w.current_step {
                        Some(s) => s,
                        None => StepId(0),
                    },
                    reason: "approval required"@,
                },
            ],
        },
        (_, SignalV::MissingCapability { reason }) => MoveV {
            patches: seq![
                PatchV::SetWorkerPhase(WorkerPhase::Blocked),
                PatchV::SetBlockedReason(Some(reason)),
                PatchV::SetRunStatus(RunStatus::Waiting),
            ],
            events: seq![
                EventV::Blocked { task_id: w.task_id, worker: None, step_id: w.current_step, reason },
            ],
        },
        _ => no_move(),
    }
}

/// How an iteration moves a worker.
pub open spec fn worker_on_iteration(w: WorkerV, it: IterationV, needs_consent: bool) -> MoveV {
    match w.phase {
        WorkerPhase::Plan => match it.validated {
            Some(OutputV::WorkerPlan { steps }) => plan_ready(w, steps, needs_consent),
            _ => no_move(),
        },
        WorkerPhase::Act => if it.action is ToolCalls || it.action is PlainText {
            MoveV {
                patches: seq![PatchV::SetWorkerPhase(WorkerPhase::Verify)],
                events: match w.current_step {
                    Some(step_id) => seq![
                        EventV::Progress {
                            task_id: w.task_id,
                            worker: None,
                            step_id,
                            message: match it.observation {
                                Some(o) => o,
                                None => Seq::empty(),
                            },
                        },
                    ],
                    None => Seq::empty(),
                },
            }
        } else {
            no_move()
        },
        WorkerPhase::Verify => match it.validated {
            Some(OutputV::WorkerVerify { passed, summary }) => if passed {
                step_verified(
                    w,
                    match summary {
                        Some(s) => s,
                        None => "verify pass"@,
                    },
                )
            } else {
                patches_only(seq![PatchV::SetWorkerPhase(WorkerPhase::Act)])
            },
            _ => no_move(),
        },
        _ => no_move(),
    }
}

/// How a worker moves. A signal goes before an iteration.
pub open spec fn worker_moves(w: WorkerV, input: InputV) -> MoveV {
    match (input.signal, input.iteration) {
        (Some(signal), _) => worker_on_signal(w, signal, input.requires_plan_approval),
        (None, Some(it)) => worker_on_iteration(w, it, input.requires_plan_approval),
        (None, None) => no_move(),
    }
}

/// How an event moves a worker: a request for consent pauses it and is passed on.
pub open spec fn worker_reacts(event: EventV) -> MoveV {
    match event {
        EventV::ApprovalRequested { step_id, .. } => MoveV {
            patches: seq![PatchV::SetWorkerPhase(WorkerPhase::Paused), PatchV::SetPausedStep(Some(step_id))],
            events: seq![event],
        },
        _ => no_move(),
    }
}

/// The controller of a worker.
#[derive(Clone, Copy, Debug, PartialEq, Eq, Structural)]
pub struct WorkerAgentSpec;

impl WorkerAgentSpec {
    /// The controller.
    pub fn new() -> (r: WorkerAgentSpec)
        ensures
            r.for_role() == AgentRole::Worker,
    {
        WorkerAgentSpec
    }

    fn apply_plan_ready(
        &self,
        worker: &WorkerState,
        steps: &Vec<StepId>,
        requires_plan_approval: bool,
        out: &mut TransitionOutput,
    )
        requires
            old(out)@ == no_move(),
        ensures
            final(out)@ == plan_ready(worker@, steps@, requires_plan_approval),
    {
        out.patch(StatePatch::SetPlanSteps(dup_steps(steps)));
        out.tell(
            AgentEvent::PlanProposed {
                task_id: worker.task_id,
                worker_instance_id: None,
                steps: dup_steps(steps),
            },
        );
        if requires_plan_approval {
            out.patch(StatePatch::SetAwaitingPlanApproval(true));
            out.patch(StatePatch::SetWorkerPhase(WorkerPhase::Paused));
            out.patch(StatePatch::SetRunStatus(RunStatus::Waiting));
        } else {
            out.patch(StatePatch::SetWorkerPhase(WorkerPhase::Act));
        }
        assert(out@ =~= plan_ready(worker@, steps@, requires_plan_approval));
    }

    fn advance_or_finish(&self, worker: &WorkerState, out: &mut TransitionOutput, summary: String)
        requires
            old(out)@ == no_move(),
        ensures
            final(out)@ == step_verified(worker@, summary@),
    {
        match worker.next_step() {
            Some(next) => {
                out.patch(StatePatch::SetCurrentStep(Some(next)));
                out.patch(StatePatch::SetWorkerPhase(WorkerPhase::Act));
            },
            None => {
                out.patch(StatePatch::SetWorkerPhase(WorkerPhase::Done));
                out.patch(StatePatch::SetRunStatus(RunStatus::Done));
                out.tell(AgentEvent::Done { task_id: worker.task_id, worker_instance_id: None, summary });
            },
        }
        assert(out@ =~= step_verified(worker@, summary@));
    }

    fn transition_signal(
        &self,
        worker: &WorkerState,
        signal: &TransitionSignal,
        requires_plan_approval: bool,
    ) -> (r: TransitionOutput)
        ensures
            r@ == worker_on_signal(worker@, signal@, requires_plan_approval),
    {
        let mut out = TransitionOutput::default();
        match (worker.phase, signal) {
            (WorkerPhase::Plan, TransitionSignal::PlanReady { steps }) => {
                self.apply_plan_ready(worker, steps, requires_plan_approval, &mut out);
            },
            (WorkerPhase::Act, TransitionSignal::StepExecuted) => {
                out.patch(StatePatch::SetWorkerPhase(WorkerPhase::Verify));
            },
            (WorkerPhase::Verify, TransitionSignal::VerifyFailed) => {
                out.patch(StatePatch::SetWorkerPhase(WorkerPhase::Act));
            },
            (WorkerPhase::Verify, TransitionSignal::VerifyPassed) => {
                self.advance_or_finish(worker, &mut out, "all steps verified".to_owned());
            },
            (_, TransitionSignal::NeedsApproval) => {
                out.patch(StatePatch::SetWorkerPhase(WorkerPhase::Paused));
                out.patch(StatePatch::SetPausedStep(worker.current_step_id()));
                out.tell(
                    AgentEvent::ApprovalRequested {
                        task_id: worker.task_id,
                        worker_instance_id: None,
                        step_id: match worker.current_step_id() {
                            Some(s) => s,
                            None => StepId(0),
                        },
                        reason: "approval required".to_owned(),
                    },
                );
            },
            (_, TransitionSignal::MissingCapability { reason }) => {
                out.patch(StatePatch::SetWorkerPhase(WorkerPhase::Blocked));
                out.patch(StatePatch::SetBlockedReason(Some(reason.clone())));
                out.patch(StatePatch::SetRunStatus(RunStatus::Waiting));
                out.tell(
                    AgentEvent::Blocked {
                        task_id: worker.task_id,
                        worker_instance_id: None,
                        step_id: worker.current_step_id(),
                        reason: reason.clone(),
                    },
                );
            },
            _ => {},
        }
        assert(out@ =~= worker_on_signal(worker@, signal@, requires_plan_approval));
        out
    }

    fn transition_iteration(
        &self,
        worker: &WorkerState,
        iter: &HarnessIterationOutput,
        requires_plan_approval: bool,
    ) -> (r: TransitionOutput)
        ensures
            r@ == worker_on_iteration(worker@, iter@, requires_plan_approval),
    {
        let mut out = TransitionOutput::default();
        match worker.phase {
            WorkerPhase::Plan => {
                match &iter.validated {
                    Some(ValidatedLlmOutput::WorkerPlan { steps }) => {
                        self.apply_plan_ready(worker, steps, requires_plan_approval, &mut out);
                    },
                    _ => {},
                }
            },
            WorkerPhase::Act => {
                let acted = match &iter.action {
                    ActionSummary::ToolCalls { .. } => true,
                    ActionSummary::PlainText { .. } => true,
                    ActionSummary::Preempted => false,
                };
                if acted {
                    out.patch(StatePatch::SetWorkerPhase(WorkerPhase::Verify));
                    match worker.current_step_id() {
                        Some(step_id) => {
                            let message = match &iter.observation {
                                Some(o) => o.clone(),
                                None => String::new(),
                            };
                            assert(iter.observation is None ==> message@ =~= Seq::<char>::empty());
                            out.tell(
                                AgentEvent::Progress {
                                    task_id: worker.task_id,
                                    worker_instance_id: None,
                                    step_id,
                                    message,
                                },
                            );
                        },
                        None => {},
                    }
                }
            },
            WorkerPhase::Verify => {
                match &iter.validated {
                    Some(ValidatedLlmOutput::WorkerVerify { passed, summary }) => {
                        if *passed {
                            let summary = match summary {
                                Some(s) => s.clone(),
                                None => "verify pass".to_owned(),
                            };
                            self.advance_or_finish(worker, &mut out, summary);
                        } else {
                            out.patch(StatePatch::SetWorkerPhase(WorkerPhase::Act));
                        }
                    },
                    _ => {},
                }
            },
            _ => {},
        }
        assert(out@ =~= worker_on_iteration(worker@, iter@, requires_plan_approval));
        out
    }
}

impl Default for WorkerAgentSpec {
    fn default() -> (r: WorkerAgentSpec)
        ensures
            r.for_role() == AgentRole::Worker,
    {
        WorkerAgentSpec::new()
    }
}

impl AgentSpec for WorkerAgentSpec {
    open spec fn for_role(&self) -> AgentRole {
        AgentRole::Worker
    }

    open spec fn tools_in(&self, state: StateV) -> Option<Seq<char>> {
        match state.role_state {
            RoleV::Worker(w) => if w.phase == WorkerPhase::Act || w.phase == WorkerPhase::Verify {
                Some(worker_tools())
            } else {
                None
            },
            _ => None,
        }
    }

    open spec fn schema_in(&self, state: StateV) -> (Seq<char>, Seq<char>) {
        (
            match state.role_state {
                RoleV::Worker(w) => match w.phase {
                    WorkerPhase::Plan => "worker_plan"@,
                    WorkerPhase::Act => "worker_act"@,
                    WorkerPhase::Verify => "worker_verify"@,
                    _ => "worker_idle"@,
                },
                _ => "worker_idle"@,
            },
            "Structured worker phase output"@,
        )
    }

    open spec fn calls_in(&self, state: StateV) -> bool {
        match state.role_state {
            RoleV::Worker(w) => (w.phase == WorkerPhase::Plan || w.phase == WorkerPhase::Act || w.phase
                == WorkerPhase::Verify) && !w.awaiting_plan_approval,
            _ => false,
        }
    }

    open spec fn moves(&self, state: StateV, input: InputV) -> MoveV {
        match state.role_state {
            RoleV::Worker(w) => worker_moves(w, input),
            _ => no_move(),
        }
    }

    open spec fn reacts(&self, state: StateV, event: EventV) -> MoveV {
        worker_reacts(event)
    }

    fn role(&self) -> (r: AgentRole) {
        AgentRole::Worker
    }

    fn phase(&self, state: &AgentState) -> (r: SemanticPhase) {
        state.semantic_phase()
    }

    fn visible_tools(&self, input: &ContextBuildInput<'_>) -> (r: ToolVisibility) {
        let tools_json = match &input.state.role_state {
            RoleState::Worker(worker) => match worker.phase {
                WorkerPhase::Act | WorkerPhase::Verify => Some(
                    "[{\"type\":\"function\",\"function\":{\"name\":\"files\",\"description\":\"file ops\"}}]".to_owned(),
                ),
                _ => None,
            },
            _ => None,
        };
        ToolVisibility { tools_json }
    }

    fn expected_schema(&self, input: &ContextBuildInput<'_>) -> (r: OutputSchema) {
        let name = match &input.state.role_state {
            RoleState::Worker(worker) => match worker.phase {
                WorkerPhase::Plan => "worker_plan",
                WorkerPhase::Act => "worker_act",
                WorkerPhase::Verify => "worker_verify",
                _ => "worker_idle",
            },
            _ => "worker_idle",
        };
        OutputSchema { name: name.to_owned(), description: "Structured worker phase output".to_owned() }
    }

    fn should_call_llm(&self, state: &AgentState) -> (r: bool) {
        match &state.role_state {
            RoleState::Worker(worker) => match worker.phase {
                WorkerPhase::Plan | WorkerPhase::Act | WorkerPhase::Verify => !worker.awaiting_plan_approval,
                _ => false,
            },
            _ => false,
        }
    }

    fn transition(&self, state: &AgentState, input: &TransitionInput) -> (r: TransitionOutput) {
        let worker = match state.role_state.as_worker() {
            Some(w) => w,
            None => {
                return TransitionOutput::default();
            },
        };
        match &input.signal {
            Some(signal) => {
                return self.transition_signal(worker, signal, input.requires_plan_approval);
            },
            None => {},
        }
        match &input.iteration {
            Some(iter) => self.transition_iteration(worker, iter, input.requires_plan_approval),
            None => TransitionOutput::default(),
        }
    }

    fn handle_event(&self, _state: &AgentState, event: &AgentEvent) -> (r: TransitionOutput) {
        let mut out = TransitionOutput::default();
        match event {
            AgentEvent::ApprovalRequested { step_id, .. } => {
                out.patch(StatePatch::SetWorkerPhase(WorkerPhase::Paused));
                out.patch(StatePatch::SetPausedStep(Some(*step_id)));
                out.tell(event.dup());
            },
            _ => {},
        }
        assert(out@ =~= worker_reacts(event@));
        out
    }
}

/// Registers the worker's controller.
pub struct Registrar;

impl Registrar {
    /// Puts the controller into the registry.
    pub fn register(&self, registry: &mut AgentRegistry<BuiltinSpec>)
        ensures
            final(registry)@ == old(registry)@.insert(AgentRole::Worker, BuiltinSpec::Worker(WorkerAgentSpec)),
    {
        registry.register(BuiltinSpec::Worker(WorkerAgentSpec::new()));
    }
}

/// The input that is a signal alone.
pub open spec fn signalled(signal: SignalV, needs_consent: bool) -> InputV {
    InputV { iteration: None, signal: Some(signal), requires_plan_approval: needs_consent }
}

/// A plan that needs consent pauses the worker before it does anything, and the
/// model is not called until the consent is there.
pub proof fn law_plan_waits_for_consent(f: WorkerAgentSpec, s: StateV, steps: Seq<StepId>)
    requires
        s.role_state is Worker,
        s.role_state->Worker_0.phase == WorkerPhase::Plan,
    ensures
        ({
            let t = patched_all(s, f.moves(s, signalled(SignalV::PlanReady { steps }, true)).patches);
            &&& t.role_state->Worker_0.phase == WorkerPhase::Paused
            &&& t.role_state->Worker_0.awaiting_plan_approval
            &&& t.run_status == RunStatus::Waiting
            &&& forall|later: Seq<PatchV>|
                (forall|i: int| 0 <= i < later.len() ==> !((#[trigger] later[i]) is SetAwaitingPlanApproval))
                    ==> !f.calls_in(#[trigger] patched_all(t, later))
        }),
{
    let m = f.moves(s, signalled(SignalV::PlanReady { steps }, true));
    lemma_unroll(s, m.patches);
    let t = patched_all(s, m.patches);
    assert forall|later: Seq<PatchV>|
        (forall|i: int| 0 <= i < later.len() ==> !((#[trigger] later[i]) is SetAwaitingPlanApproval))
            implies !f.calls_in(#[trigger] patched_all(t, later)) by {
        lemma_consent_stays(t, later);
    }
}

proof fn lemma_consent_stays(s: StateV, later: Seq<PatchV>)
    requires
        s.role_state is Worker,
        s.role_state->Worker_0.awaiting_plan_approval,
        forall|i: int| 0 <= i < later.len() ==> !((#[trigger] later[i]) is SetAwaitingPlanApproval),
    ensures
        patched_all(s, later).role_state is Worker,
        patched_all(s, later).role_state->Worker_0.awaiting_plan_approval,
    decreases later.len(),
{
    if later.len() > 0 {
        let d = later.drop_last();
        assert forall|i: int| 0 <= i < d.len() implies !((#[trigger] d[i]) is SetAwaitingPlanApproval) by {
            assert(d[i] == later[i]);
        }
        lemma_consent_stays(s, d);
        assert(!(later[later.len() - 1] is SetAwaitingPlanApproval));
    }
}

/// A plan that needs no consent is carried out from its first step.
pub proof fn law_plan_starts_at_its_first_step(f: WorkerAgentSpec, s: StateV, steps: Seq<StepId>)
    requires
        s.role_state is Worker,
        s.role_state->Worker_0.phase == WorkerPhase::Plan,
        steps.len() > 0,
    ensures
        ({
            let t = patched_all(s, f.moves(s, signalled(SignalV::PlanReady { steps }, false)).patches);
            &&& t.role_state->Worker_0.phase == WorkerPhase::Act
            &&& t.role_state->Worker_0.plan == steps
            &&& t.role_state->Worker_0.at_step(0)
        }),
{
    let m = f.moves(s, signalled(SignalV::PlanReady { steps }, false));
    lemma_unroll(s, m.patches);
}

/// One step carried out and verified.
pub open spec fn one_step(f: WorkerAgentSpec, s: StateV) -> StateV {
    let acted = patched_all(s, f.moves(s, signalled(SignalV::StepExecuted, false)).patches);
    patched_all(acted, f.moves(acted, signalled(SignalV::VerifyPassed, false)).patches)
}

/// `n` steps carried out and verified.
pub open spec fn many_steps(f: WorkerAgentSpec, s: StateV, n: nat) -> StateV
    decreases n,
{
    if n == 0 {
        s
    } else {
        one_step(f, many_steps(f, s, (n - 1) as nat))
    }
}

proof fn lemma_one_step(f: WorkerAgentSpec, s: StateV, i: int)
    requires
        s.role_state is Worker,
        s.role_state->Worker_0.phase == WorkerPhase::Act,
        s.role_state->Worker_0.at_step(i),
        s.role_state->Worker_0.plan.no_duplicates(),
    ensures
        one_step(f, s).role_state is Worker,
        one_step(f, s).role_state->Worker_0.plan == s.role_state->Worker_0.plan,
        i + 1 < s.role_state->Worker_0.plan.len() ==> {
            &&& one_step(f, s).role_state->Worker_0.phase == WorkerPhase::Act
            &&& one_step(f, s).role_state->Worker_0.at_step(i + 1)
            &&& one_step(f, s).run_status == s.run_status
        },
        i + 1 == s.role_state->Worker_0.plan.len() ==> {
            &&& one_step(f, s).role_state->Worker_0.phase == WorkerPhase::Done
            &&& one_step(f, s).run_status == RunStatus::Done
        },
{
    let m = f.moves(s, signalled(SignalV::StepExecuted, false));
    lemma_unroll(s, m.patches);
    let acted = patched_all(s, m.patches);
    let w = acted.role_state->Worker_0;
    assert(w.plan == s.role_state->Worker_0.plan);
    assert(w.at_step(i));
    assert forall|j: int| w.at_step(j) implies j == i by {
        lemma_one_place(w, i, j);
    }
    if i + 1 < w.plan.len() {
        assert(w.at_step(i) && i + 1 < w.plan.len());
        assert(w.following() == Some(w.plan[i + 1]));
    } else {
        assert(w.following() is None);
    }
    let n = f.moves(acted, signalled(SignalV::VerifyPassed, false));
    lemma_unroll(acted, n.patches);
    let t = patched_all(acted, n.patches);
    if i + 1 < w.plan.len() {
        let v = t.role_state->Worker_0;
        let next = v.plan[i + 1];
        assert forall|j: int| 0 <= j < i + 1 implies v.plan[j] != next by {}
        assert(v.at_step(i + 1));
    }
}

/// A worker that starts at the first step of a plan whose steps differ carries out
/// every step in order, and is done after the last one and not before.
pub proof fn law_every_step_is_done_in_order(f: WorkerAgentSpec, s: StateV, n: nat)
    requires
        s.role_state is Worker,
        s.role_state->Worker_0.phase == WorkerPhase::Act,
        s.role_state->Worker_0.at_step(0),
        s.role_state->Worker_0.plan.no_duplicates(),
        n <= s.role_state->Worker_0.plan.len(),
    ensures
        many_steps(f, s, n).role_state is Worker,
        many_steps(f, s, n).role_state->Worker_0.plan == s.role_state->Worker_0.plan,
        n < s.role_state->Worker_0.plan.len() ==> {
            &&& many_steps(f, s, n).role_state->Worker_0.phase == WorkerPhase::Act
            &&& many_steps(f, s, n).role_state->Worker_0.at_step(n as int)
            &&& many_steps(f, s, n).run_status == s.run_status
        },
        n == s.role_state->Worker_0.plan.len() ==> {
            &&& many_steps(f, s, n).role_state->Worker_0.phase == WorkerPhase::Done
            &&& many_steps(f, s, n).run_status == RunStatus::Done
        },
    decreases n,
{
    if n > 0 {
        law_every_step_is_done_in_order(f, s, (n - 1) as nat);
        lemma_one_step(f, many_steps(f, s, (n - 1) as nat), n - 1);
    }
}

/// A step that fails its check is carried out again: the worker goes back to it, and
/// the plan and the current step stay.
pub proof fn law_failed_step_is_repeated(f: WorkerAgentSpec, s: StateV)
    requires
        s.role_state is Worker,
        s.role_state->Worker_0.phase == WorkerPhase::Verify,
    ensures
        patched_all(s, f.moves(s, signalled(SignalV::VerifyFailed, false)).patches) == (StateV {
            role_state: RoleV::Worker(WorkerV { phase: WorkerPhase::Act, ..s.role_state->Worker_0 }),
            ..s
        }),
{
    lemma_unroll(s, f.moves(s, signalled(SignalV::VerifyFailed, false)).patches);
}

/// A plan that needs consent pauses the worker before its first step, and one that needs
/// none sets it to work on that step; either way the plan is proposed as it is. That holds
/// however the plan came, as a signal or from the model.
pub proof fn law_plan_is_proposed_as_it_is(f: WorkerAgentSpec, s: StateV, input: InputV, steps: Seq<StepId>)
    requires
        s.role_state is Worker,
        s.role_state->Worker_0.phase is Plan,
        input.signal == Some(SignalV::PlanReady { steps }) || (input.signal is None && (input.iteration matches Some(it)
            && it.validated == Some(OutputV::WorkerPlan { steps }))),
    ensures
        ({
            let t = patched_all(s, f.moves(s, input).patches);
            let after = t.role_state->Worker_0;
            &&& after.plan == steps
            &&& steps.len() > 0 ==> after.current_step == Some(steps[0])
            &&& input.requires_plan_approval ==> after.phase is Paused && after.awaiting_plan_approval && t.run_status
                == RunStatus::Waiting
            &&& !input.requires_plan_approval ==> after.phase is Act && after.awaiting_plan_approval
                == s.role_state->Worker_0.awaiting_plan_approval && t.run_status == s.run_status
            &&& f.moves(s, input).events == seq![
                EventV::PlanProposed { task_id: s.role_state->Worker_0.task_id, worker: None, steps },
            ]
        }),
{
    lemma_unroll(s, f.moves(s, input).patches);
}

/// A step that was carried out is verified next; where the model carried it out, that is
/// told with what came of it. A round that was cut short carries out nothing.
pub proof fn law_step_is_verified_next(f: WorkerAgentSpec, s: StateV, it: IterationV, consent: bool)
    requires
        s.role_state is Worker,
        s.role_state->Worker_0.phase is Act,
    ensures
        ({
            let w = s.role_state->Worker_0;
            let input = InputV { iteration: Some(it), signal: None, requires_plan_approval: consent };
            let m = f.moves(s, input);
            let t = patched_all(s, m.patches);
            let told = patched_all(s, f.moves(s, signalled(SignalV::StepExecuted, consent)).patches);
            &&& told.role_state == RoleV::Worker(WorkerV { phase: WorkerPhase::Verify, ..w })
            &&& it.action is Preempted ==> t == s && m.events.len() == 0
            &&& !(it.action is Preempted) ==> t.role_state == RoleV::Worker(
                WorkerV { phase: WorkerPhase::Verify, ..w },
            ) && t.run_status == s.run_status
            &&& !(it.action is Preempted) && w.current_step is None ==> m.events.len() == 0
            &&& !(it.action is Preempted) && w.current_step is Some ==> m.events == seq![
                EventV::Progress {
                    task_id: w.task_id,
                    worker: None,
                    step_id: w.current_step->Some_0,
                    message: if it.observation is Some {
                        it.observation->Some_0
                    } else {
                        Seq::empty()
                    },
                },
            ]
        }),
{
    let input = InputV { iteration: Some(it), signal: None, requires_plan_approval: consent };
    lemma_unroll(s, f.moves(s, input).patches);
    lemma_unroll(s, f.moves(s, signalled(SignalV::StepExecuted, consent)).patches);
}

/// A step that the model finds done leads to the next one, and after the last step the
/// worker is done and says so with the model's summary; one that it finds not done is
/// carried out again.
pub proof fn law_verdict_of_the_model_counts(f: WorkerAgentSpec, s: StateV, it: IterationV, passed: bool, summary: Option<Seq<char>>, i: int)
    requires
        s.role_state is Worker,
        s.role_state->Worker_0.phase is Verify,
        s.role_state->Worker_0.plan.no_duplicates(),
        s.role_state->Worker_0.at_step(i),
        it.validated == Some(OutputV::WorkerVerify { passed, summary }),
    ensures
        ({
            let w = s.role_state->Worker_0;
            let m = f.moves(s, InputV { iteration: Some(it), signal: None, requires_plan_approval: false });
            let t = patched_all(s, m.patches);
            &&& !passed ==> t.role_state == RoleV::Worker(WorkerV { phase: WorkerPhase::Act, ..w }) && m.events.len()
                == 0
            &&& passed && i + 1 < w.plan.len() ==> t.role_state == RoleV::Worker(
                WorkerV { phase: WorkerPhase::Act, current_step: Some(w.plan[i + 1]), ..w },
            ) && m.events.len() == 0 && t.run_status == s.run_status
            &&& passed && i + 1 == w.plan.len() ==> t.role_state == RoleV::Worker(
                WorkerV { phase: WorkerPhase::Done, ..w },
            ) && t.run_status == RunStatus::Done && m.events == seq![
                EventV::Done {
                    task_id: w.task_id,
                    worker: None,
                    summary: if summary is Some {
                        summary->Some_0
                    } else {
                        "verify pass"@
                    },
                },
            ]
        }),
{
    let w = s.role_state->Worker_0;
    let m = f.moves(s, InputV { iteration: Some(it), signal: None, requires_plan_approval: false });
    lemma_unroll(s, m.patches);
    assert forall|j: int| w.at_step(j) implies j == i by {
        lemma_one_place(w, i, j);
    }
    if i + 1 < w.plan.len() {
        assert(w.at_step(i) && i + 1 < w.plan.len());
        assert(w.following() == Some(w.plan[i + 1]));
    } else {
        assert(w.following() is None);
    }
}

/// After the last step is verified by signal the worker says that all steps are.
pub proof fn law_end_is_told_once_all_is_verified(f: WorkerAgentSpec, s: StateV, consent: bool)
    requires
        s.role_state is Worker,
        s.role_state->Worker_0.phase is Verify,
        s.role_state->Worker_0.following() is None,
    ensures
        f.moves(s, signalled(SignalV::VerifyPassed, consent)).events == seq![
            EventV::Done { task_id: s.role_state->Worker_0.task_id, worker: None, summary: "all steps verified"@ },
        ],
        patched_all(s, f.moves(s, signalled(SignalV::VerifyPassed, consent)).patches).run_status == RunStatus::Done,
        patched_all(s, f.moves(s, signalled(SignalV::VerifyPassed, consent)).patches).role_state->Worker_0.phase is Done,
{
    lemma_unroll(s, f.moves(s, signalled(SignalV::VerifyPassed, consent)).patches);
}

/// A worker that needs consent pauses at its step and asks for it; one that lacks what it
/// needs is blocked, waits, and says why. That holds in every phase.
pub proof fn law_worker_stops_and_says_why(f: WorkerAgentSpec, s: StateV, reason: Seq<char>, consent: bool)
    requires
        s.role_state is Worker,
    ensures
        ({
            let w = s.role_state->Worker_0;
            let asks = f.moves(s, signalled(SignalV::NeedsApproval, consent));
            let lacks = f.moves(s, signalled(SignalV::MissingCapability { reason }, consent));
            &&& patched_all(s, asks.patches).role_state == RoleV::Worker(
                WorkerV { phase: WorkerPhase::Paused, paused_step: w.current_step, ..w },
            )
            &&& asks.events.len() == 1
            &&& asks.events[0] matches EventV::ApprovalRequested { task_id, step_id, reason: why, .. } && task_id
                == w.task_id && why == "approval required"@ && (w.current_step matches Some(step) ==> step_id == step)
            &&& patched_all(s, lacks.patches).role_state == RoleV::Worker(
                WorkerV { phase: WorkerPhase::Blocked, blocked_reason: Some(reason), ..w },
            )
            &&& patched_all(s, lacks.patches).run_status == RunStatus::Waiting
            &&& lacks.events == seq![
                EventV::Blocked { task_id: w.task_id, worker: None, step_id: w.current_step, reason },
            ]
        }),
{
    lemma_unroll(s, f.moves(s, signalled(SignalV::NeedsApproval, consent)).patches);
    lemma_unroll(s, f.moves(s, signalled(SignalV::MissingCapability { reason }, consent)).patches);
}

/// An event that asks for consent pauses the worker at the step that it names, and is
/// passed on as it is; no other event moves a worker.
pub proof fn law_request_for_consent_pauses_the_worker(f: WorkerAgentSpec, s: StateV, event: EventV)
    requires
        s.role_state is Worker,
    ensures
        event matches EventV::ApprovalRequested { step_id, .. } ==> {
            &&& patched_all(s, f.reacts(s, event).patches).role_state == RoleV::Worker(
                WorkerV { phase: WorkerPhase::Paused, paused_step: Some(step_id), ..s.role_state->Worker_0 },
            )
            &&& f.reacts(s, event).events == seq![event]
        },
        !(event is ApprovalRequested) ==> patched_all(s, f.reacts(s, event).patches) == s && f.reacts(
            s,
            event,
        ).events.len() == 0,
{
    lemma_unroll(s, f.reacts(s, event).patches);
}

/// A worker asks the model while it plans, acts or verifies, unless its plan waits for
/// consent, for an answer of the kind that fits; it has tools while it acts and verifies.
pub proof fn law_worker_asks_for_what_fits(f: WorkerAgentSpec, s: StateV)
    requires
        s.role_state is Worker,
    ensures
        ({
            let w = s.role_state->Worker_0;
            &&& f.calls_in(s) <==> !w.awaiting_plan_approval && !(w.phase is Paused) && !(w.phase is Blocked) && !(
            w.phase is Done)
            &&& f.tools_in(s) is Some <==> w.phase is Act || w.phase is Verify
            &&& w.phase is Plan ==> f.schema_in(s).0 == "worker_plan"@
            &&& w.phase is Act ==> f.schema_in(s).0 == "worker_act"@
            &&& w.phase is Verify ==> f.schema_in(s).0 == "worker_verify"@
            &&& w.phase is Paused || w.phase is Blocked || w.phase is Done ==> f.schema_in(s).0 == "worker_idle"@
            &&& f.schema_in(s).1 == "Structured worker phase output"@
            &&& f.for_role() == AgentRole::Worker
        }),
{
}

/// A signal that does not fit the phase, and an answer of the wrong kind, change nothing.
pub proof fn law_misplaced_input_changes_nothing(f: WorkerAgentSpec, s: StateV, input: InputV)
    requires
        s.role_state is Worker,
        s.role_state->Worker_0.phase is Paused || s.role_state->Worker_0.phase is Blocked
            || s.role_state->Worker_0.phase is Done,
        input.signal matches Some(signal) ==> !(signal is NeedsApproval) && !(signal is MissingCapability),
    ensures
        patched_all(s, f.moves(s, input).patches) == s,
        f.moves(s, input).events.len() == 0,
{
    lemma_unroll(s, f.moves(s, input).patches);
}

/// A worker has one tool, for files; what is no worker has none and asks nothing.
pub proof fn law_worker_has_the_files_tool(f: WorkerAgentSpec, s: StateV)
    ensures
        s.role_state is Worker && (s.role_state->Worker_0.phase is Act || s.role_state->Worker_0.phase is Verify)
            ==> f.tools_in(s) == Some(
            "[{\"type\":\"function\",\"function\":{\"name\":\"files\",\"description\":\"file ops\"}}]"@,
        ),
        !(s.role_state is Worker) ==> !f.calls_in(s) && f.tools_in(s) is None && f.schema_in(s).0 == "worker_idle"@,
        !(s.role_state is Worker) ==> forall|input: InputV| (#[trigger] f.moves(s, input)).patches.len() == 0,
{
}

} // verus!
