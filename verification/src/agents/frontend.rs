//! The frontend's controller: it understands a request, delegates it to a worker,
//! watches the worker and reports.

use vstd::prelude::*;

use crate::agent_registry::AgentRegistry;
use crate::agent_spec::{
    no_move, patched_all, AgentRole, AgentSpec, AgentState, ContextBuildInput, FrontendPhase, FrontendState, FrontendV,
    HarnessIterationOutput, InputV, IterationV, MoveV, OutputSchema, PatchV, PromptBlocks, RoleState, RoleV, RunStatus,
    SemanticPhase, SignalV, StatePatch, StateV, ToolVisibility, TransitionInput, TransitionOutput, TransitionSignal,
};
use crate::agents::builtin::BuiltinSpec;
use crate::json::{
    items_view, law_message_has_role_and_content, make_text_message, member, text_message, Json, JsonV,
};
use crate::llm_output::{FrontendIntakeAction, OutputV, ValidatedLlmOutput};
use crate::protocol::event::{AgentEvent, EventV};
use crate::protocol::ids::{StepId, TaskId, WorkerId};
use crate::protocol::task::TaskContract;
use crate::text::{concat2, decimal, decimal_text, decimal_u64, views};

verus! {

/// The name of the schema for a phase.
pub open spec fn frontend_schema(phase: FrontendPhase) -> Seq<char> {
    match phase {
        FrontendPhase::Intake | FrontendPhase::Clarify => "frontend_intake"@,
        FrontendPhase::Delegate => "frontend_delegate"@,
        FrontendPhase::Watch | FrontendPhase::AskApproval => "frontend_watch"@,
        FrontendPhase::Report | FrontendPhase::Done => "frontend_report"@,
    }
}

/// The move that makes these patches.
pub open spec fn patches_only(patches: Seq<PatchV>) -> MoveV {
    MoveV { patches, events: Seq::empty() }
}

/// How a signal moves a phase.
pub open spec fn frontend_on_signal(phase: FrontendPhase, signal: SignalV) -> MoveV {
    match (phase, signal) {
        (FrontendPhase::Intake, SignalV::TaskUnderstood) => patches_only(
            seq![PatchV::SetFrontendPhase(FrontendPhase::Delegate)],
        ),
        (FrontendPhase::Intake, SignalV::NeedClarification) => patches_only(
            seq![PatchV::SetFrontendPhase(FrontendPhase::Clarify)],
        ),
        (FrontendPhase::Clarify, SignalV::TaskUnderstood) => patches_only(
            seq![PatchV::SetFrontendPhase(FrontendPhase::Delegate)],
        ),
        (FrontendPhase::Delegate, SignalV::TaskCreated { task_id, worker_id }) => patches_only(
            seq![
                PatchV::SetTaskId(task_id),
                PatchV::SetWorkerInstanceId(worker_id),
                PatchV::SetFrontendPhase(FrontendPhase::Watch),
            ],
        ),
        (FrontendPhase::AskApproval, SignalV::UserApproved) => patches_only(
            seq![PatchV::SetFrontendPhase(FrontendPhase::Watch)],
        ),
        (FrontendPhase::Report, SignalV::ReportSent) => patches_only(
            seq![PatchV::SetFrontendPhase(FrontendPhase::Done), PatchV::SetRunStatus(RunStatus::Done)],
        ),
        _ => no_move(),
    }
}

/// How an iteration moves a frontend.
pub open spec fn frontend_on_iteration(f: FrontendV, it: IterationV) -> MoveV {
    match f.phase {
        FrontendPhase::Intake | FrontendPhase::Clarify => match it.validated {
            Some(OutputV::FrontendIntake { action: FrontendIntakeAction::TaskUnderstood, .. }) => patches_only(
                seq![PatchV::SetFrontendPhase(FrontendPhase::Delegate)],
            ),
            Some(OutputV::FrontendIntake { action: FrontendIntakeAction::NeedClarification, .. }) => patches_only(
                seq![PatchV::SetFrontendPhase(FrontendPhase::Clarify)],
            ),
            _ => if f.pending.len() > 0 {
                patches_only(seq![PatchV::SetFrontendPhase(FrontendPhase::Delegate)])
            } else {
                no_move()
            },
        },
        FrontendPhase::Report => match it.validated {
            Some(OutputV::FrontendReport { summary }) => patches_only(
                seq![
                    PatchV::SetReportDraft(summary),
                    PatchV::SetFrontendPhase(FrontendPhase::Done),
                    PatchV::SetRunStatus(RunStatus::Done),
                ],
            ),
            _ => patches_only(
                seq![PatchV::SetFrontendPhase(FrontendPhase::Done), PatchV::SetRunStatus(RunStatus::Done)],
            ),
        },
        _ => no_move(),
    }
}

/// How a frontend moves. A signal goes before an iteration.
pub open spec fn frontend_moves(f: FrontendV, input: InputV) -> MoveV {
    match (input.signal, input.iteration) {
        (Some(signal), _) => frontend_on_signal(f.phase, signal),
        (None, Some(it)) => frontend_on_iteration(f, it),
        (None, None) => no_move(),
    }
}

/// The `{:?}` form of a step id.
pub open spec fn step_debug(s: StepId) -> Seq<char> {
    "StepId("@ + decimal(s.0 as nat) + ")"@
}

/// The first `n` steps with commas between them.
pub open spec fn steps_listed(steps: Seq<StepId>, n: nat) -> Seq<char>
    decreases n,
{
    if n == 0 || n > steps.len() {
        Seq::empty()
    } else if n == 1 {
        step_debug(steps[0])
    } else {
        steps_listed(steps, (n - 1) as nat) + ", "@ + step_debug(steps[n - 1])
    }
}

/// The `{:?}` form of a list of step ids.
pub open spec fn steps_debug(steps: Seq<StepId>) -> Seq<char> {
    "["@ + steps_listed(steps, steps.len()) + "]"@
}

/// How an event moves a phase. Only a watching frontend listens.
pub open spec fn frontend_reacts(phase: FrontendPhase, event: EventV) -> MoveV {
    match (phase, event) {
        (FrontendPhase::Watch, EventV::PlanProposed { steps, .. }) => patches_only(
            seq![PatchV::SetReportDraft("proposed plan: "@ + steps_debug(steps))],
        ),
        (FrontendPhase::Watch, EventV::ApprovalRequested { .. }) => patches_only(
            seq![PatchV::SetFrontendPhase(FrontendPhase::AskApproval)],
        ),
        (FrontendPhase::Watch, EventV::Blocked { reason, .. }) => patches_only(
            seq![PatchV::SetReportDraft("worker blocked: "@ + reason)],
        ),
        (FrontendPhase::Watch, EventV::Done { summary, .. }) => patches_only(
            seq![PatchV::SetFrontendPhase(FrontendPhase::Report), PatchV::SetReportDraft(summary)],
        ),
        _ => no_move(),
    }
}

/// The `{:?}` form of an optional task id.
pub open spec fn task_debug(id: Option<TaskId>) -> Seq<char> {
    match id {
        Some(id) => "Some(TaskId("@ + decimal(id.0 as nat) + "))"@,
        None => "None"@,
    }
}

/// The `{:?}` form of an optional worker id.
pub open spec fn worker_debug(id: Option<WorkerId>) -> Seq<char> {
    match id {
        Some(id) => "Some(WorkerId("@ + decimal(id.0 as nat) + "))"@,
        None => "None"@,
    }
}

fn debug_task(id: Option<TaskId>) -> (r: String)
    ensures
        r@ == task_debug(id),
{
    match id {
        Some(id) => "Some(TaskId(".to_owned().concat(decimal_text(id.0).as_str()).concat("))"),
        None => "None".to_owned(),
    }
}

fn debug_worker(id: Option<WorkerId>) -> (r: String)
    ensures
        r@ == worker_debug(id),
{
    match id {
        Some(id) => "Some(WorkerId(".to_owned().concat(decimal_text(id.0).as_str()).concat("))"),
        None => "None".to_owned(),
    }
}

fn debug_steps(steps: &Vec<StepId>) -> (r: String)
    ensures
        r@ == steps_debug(steps@),
{
    let mut list = String::new();
    assert(list@ =~= Seq::<char>::empty());
    let mut i: usize = 0;
    while i < steps.len()
        invariant
            i <= steps@.len(),
            list@ == steps_listed(steps@, i as nat),
        decreases steps@.len() - i,
    {
        let one = "StepId(".to_owned().concat(decimal_text(steps[i].0).as_str()).concat(")");
        if i > 0 {
            list.append(", ");
        }
        let ghost before = list@;
        list.append(one.as_str());
        proof {
            if i == 0 {
                assert(before + one@ =~= one@);
            }
        }
        i = i + 1;
    }
    "[".to_owned().concat(list.as_str()).concat("]")
}

/// The state section of a frontend's prompt.
pub open spec fn frontend_state_text(state: StateV) -> Seq<char> {
    match state.role_state {
        RoleV::Frontend(f) => "# STATE\ninstance="@ + state.instance_id + "\nrun="@ + state.run_id
            + "\niteration="@ + decimal(state.iteration_id) + "\nphase="@ + f.phase.name() + "\ntask_id="@
            + task_debug(f.task_id) + "\nworker="@ + worker_debug(f.worker),
        _ => "# STATE\n(invalid role)"@,
    }
}

/// The plan section of a frontend's prompt.
pub open spec fn frontend_plan_text(task: Option<&TaskContract>) -> Seq<char> {
    match task {
        Some(t) => "# PLAN\n"@ + "task="@ + t.task_id.wire() + "\ngoal="@ + t.goal@ + "\nstatus="@ + t.status@,
        None => "# PLAN\n"@ + "(no active task)"@,
    }
}

/// The controller of a frontend.
#[derive(Clone, Copy, Debug, PartialEq, Eq, Structural)]
pub struct FrontendAgentSpec;

impl FrontendAgentSpec {
    /// The controller.
    pub fn new() -> (r: FrontendAgentSpec)
        ensures
            r.for_role() == AgentRole::Frontend,
    {
        FrontendAgentSpec
    }

    fn transition_signal(&self, frontend: &FrontendState, signal: &TransitionSignal) -> (r: TransitionOutput)
        ensures
            r@ == frontend_on_signal(frontend@.phase, signal@),
    {
        let mut out = TransitionOutput::default();
        match (frontend.phase, signal) {
            (FrontendPhase::Intake, TransitionSignal::TaskUnderstood) => {
                out.patch(StatePatch::SetFrontendPhase(FrontendPhase::Delegate));
            },
            (FrontendPhase::Intake, TransitionSignal::NeedClarification) => {
                out.patch(StatePatch::SetFrontendPhase(FrontendPhase::Clarify));
            },
            (FrontendPhase::Clarify, TransitionSignal::TaskUnderstood) => {
                out.patch(StatePatch::SetFrontendPhase(FrontendPhase::Delegate));
            },
            (FrontendPhase::Delegate, TransitionSignal::TaskCreated { task_id, worker_id }) => {
                out.patch(StatePatch::SetTaskId(*task_id));
                out.patch(StatePatch::SetWorkerInstanceId(*worker_id));
                out.patch(StatePatch::SetFrontendPhase(FrontendPhase::Watch));
            },
            (FrontendPhase::AskApproval, TransitionSignal::UserApproved) => {
                out.patch(StatePatch::SetFrontendPhase(FrontendPhase::Watch));
            },
            (FrontendPhase::Report, TransitionSignal::ReportSent) => {
                out.patch(StatePatch::SetFrontendPhase(FrontendPhase::Done));
                out.patch(StatePatch::SetRunStatus(RunStatus::Done));
            },
            _ => {},
        }
        assert(out@ =~= frontend_on_signal(frontend@.phase, signal@));
        out
    }

    fn transition_iteration(&self, frontend: &FrontendState, iter: &HarnessIterationOutput) -> (r: TransitionOutput)
        ensures
            r@ == frontend_on_iteration(frontend@, iter@),
    {
        let mut out = TransitionOutput::default();
        match frontend.phase {
            FrontendPhase::Intake | FrontendPhase::Clarify => {
                match &iter.validated {
                    Some(ValidatedLlmOutput::FrontendIntake { action, .. }) => match action {
                        FrontendIntakeAction::TaskUnderstood => {
                            out.patch(StatePatch::SetFrontendPhase(FrontendPhase::Delegate));
                        },
                        FrontendIntakeAction::NeedClarification => {
                            out.patch(StatePatch::SetFrontendPhase(FrontendPhase::Clarify));
                        },
                    },
                    _ => {
                        if frontend.pending_user_text.len() > 0 {
                            out.patch(StatePatch::SetFrontendPhase(FrontendPhase::Delegate));
                        }
                    },
                }
            },
            FrontendPhase::Report => {
                match &iter.validated {
                    Some(ValidatedLlmOutput::FrontendReport { summary }) => {
                        out.patch(StatePatch::SetReportDraft(summary.clone()));
                    },
                    _ => {},
                }
                out.patch(StatePatch::SetFrontendPhase(FrontendPhase::Done));
                out.patch(StatePatch::SetRunStatus(RunStatus::Done));
            },
            _ => {},
        }
        assert(out@ =~= frontend_on_iteration(frontend@, iter@));
        out
    }
}

impl Default for FrontendAgentSpec {
    fn default() -> (r: FrontendAgentSpec)
        ensures
            r.for_role() == AgentRole::Frontend,
    {
        FrontendAgentSpec::new()
    }
}

impl AgentSpec for FrontendAgentSpec {
    open spec fn for_role(&self) -> AgentRole {
        AgentRole::Frontend
    }

    open spec fn tools_in(&self, state: StateV) -> Option<Seq<char>> {
        None
    }

    open spec fn schema_in(&self, state: StateV) -> (Seq<char>, Seq<char>) {
        (
            match state.role_state {
                RoleV::Frontend(f) => frontend_schema(f.phase),
                _ => "frontend_idle"@,
            },
            "Frontend phase output"@,
        )
    }

    open spec fn calls_in(&self, state: StateV) -> bool {
        match state.role_state {
            RoleV::Frontend(f) => f.phase == FrontendPhase::Intake || f.phase == FrontendPhase::Clarify || f.phase
                == FrontendPhase::Delegate || f.phase == FrontendPhase::Report,
            _ => false,
        }
    }

    open spec fn moves(&self, state: StateV, input: InputV) -> MoveV {
        match state.role_state {
            RoleV::Frontend(f) => frontend_moves(f, input),
            _ => no_move(),
        }
    }

    open spec fn reacts(&self, state: StateV, event: EventV) -> MoveV {
        match state.role_state {
            RoleV::Frontend(f) => frontend_reacts(f.phase, event),
            _ => no_move(),
        }
    }

    fn role(&self) -> (r: AgentRole) {
        AgentRole::Frontend
    }

    fn phase(&self, state: &AgentState) -> (r: SemanticPhase) {
        state.semantic_phase()
    }

    fn visible_tools(&self, _input: &ContextBuildInput<'_>) -> (r: ToolVisibility) {
        ToolVisibility::default()
    }

    fn expected_schema(&self, input: &ContextBuildInput<'_>) -> (r: OutputSchema) {
        let name = match &input.state.role_state {
            RoleState::Frontend(frontend) => match frontend.phase {
                FrontendPhase::Intake | FrontendPhase::Clarify => "frontend_intake",
                FrontendPhase::Delegate => "frontend_delegate",
                FrontendPhase::Watch | FrontendPhase::AskApproval => "frontend_watch",
                FrontendPhase::Report | FrontendPhase::Done => "frontend_report",
            },
            _ => "frontend_idle",
        };
        OutputSchema { name: name.to_owned(), description: "Frontend phase output".to_owned() }
    }

    fn should_call_llm(&self, state: &AgentState) -> (r: bool) {
        match &state.role_state {
            RoleState::Frontend(frontend) => match frontend.phase {
                FrontendPhase::Intake | FrontendPhase::Clarify | FrontendPhase::Delegate | FrontendPhase::Report => true,
                _ => false,
            },
            _ => false,
        }
    }

    fn transition(&self, state: &AgentState, input: &TransitionInput) -> (r: TransitionOutput) {
        let frontend = match state.role_state.as_frontend() {
            Some(f) => f,
            None => {
                return TransitionOutput::default();
            },
        };
        match &input.signal {
            Some(signal) => {
                return self.transition_signal(frontend, signal);
            },
            None => {},
        }
        match &input.iteration {
            Some(iter) => self.transition_iteration(frontend, iter),
            None => TransitionOutput::default(),
        }
    }

    fn handle_event(&self, state: &AgentState, event: &AgentEvent) -> (r: TransitionOutput) {
        let frontend = match state.role_state.as_frontend() {
            Some(f) => f,
            None => {
                return TransitionOutput::default();
            },
        };
        let mut out = TransitionOutput::default();
        match (frontend.phase, event) {
            (FrontendPhase::Watch, AgentEvent::PlanProposed { steps, .. }) => {
                out.patch(
                    StatePatch::SetReportDraft(concat2("proposed plan: ", debug_steps(steps).as_str())),
                );
            },
            (FrontendPhase::Watch, AgentEvent::ApprovalRequested { .. }) => {
                out.patch(StatePatch::SetFrontendPhase(FrontendPhase::AskApproval));
            },
            (FrontendPhase::Watch, AgentEvent::Blocked { reason, .. }) => {
                out.patch(StatePatch::SetReportDraft(concat2("worker blocked: ", reason.as_str())));
            },
            (FrontendPhase::Watch, AgentEvent::Done { summary, .. }) => {
                out.patch(StatePatch::SetFrontendPhase(FrontendPhase::Report));
                out.patch(StatePatch::SetReportDraft(summary.clone()));
            },
            _ => {},
        }
        assert(out@ =~= frontend_reacts(frontend@.phase, event@));
        out
    }
}

/// The first `n` texts as messages of the user.
pub open spec fn user_messages(texts: Seq<Seq<char>>) -> Seq<JsonV> {
    texts.map_values(|t: Seq<char>| text_message("user"@, t))
}

impl PromptBlocks for FrontendAgentSpec {
    open spec fn state_text(&self, state: StateV) -> Seq<char> {
        frontend_state_text(state)
    }

    open spec fn plan_text(&self, task: Option<&TaskContract>) -> Seq<char> {
        frontend_plan_text(task)
    }

    open spec fn conversation(&self, state: StateV) -> JsonV {
        match state.role_state {
            RoleV::Frontend(f) => JsonV::Arr(user_messages(f.pending)),
            _ => JsonV::Arr(Seq::empty()),
        }
    }

    fn state_block(&self, input: &ContextBuildInput<'_>) -> (r: String) {
        match &input.state.role_state {
            RoleState::Frontend(frontend) => {
                let mut r = "# STATE\ninstance=".to_owned();
                r.append(input.state.instance_id.as_str());
                r.append("\nrun=");
                r.append(input.state.run_id.as_str());
                r.append("\niteration=");
                r.append(decimal_u64(input.state.iteration_id as u64).as_str());
                r.append("\nphase=");
                r.append(frontend.phase.debug());
                r.append("\ntask_id=");
                r.append(debug_task(frontend.task_id).as_str());
                r.append("\nworker=");
                r.append(debug_worker(frontend.worker_instance_id).as_str());
                r
            },
            _ => "# STATE\n(invalid role)".to_owned(),
        }
    }

    fn plan_block(&self, input: &ContextBuildInput<'_>) -> (r: String) {
        let mut r = "# PLAN\n".to_owned();
        match input.task {
            Some(task) => {
                r.append("task=");
                r.append(task.task_id.to_wire().as_str());
                r.append("\ngoal=");
                r.append(task.goal.as_str());
                r.append("\nstatus=");
                r.append(task.status.as_str());
            },
            None => {
                r.append("(no active task)");
            },
        }
        r
    }

    fn conversation_messages(&self, input: &ContextBuildInput<'_>) -> (r: Json) {
        let mut messages: Vec<Json> = Vec::new();
        assert(items_view(messages@) =~= Seq::<JsonV>::empty());
        match &input.state.role_state {
            RoleState::Frontend(frontend) => {
                let texts = &frontend.pending_user_text;
                let ghost all = views(texts@);
                let mut i: usize = 0;
                while i < texts.len()
                    invariant
                        i <= texts@.len(),
                        all == views(texts@),
                        items_view(messages@) == user_messages(all.take(i as int)),
                    decreases texts@.len() - i,
                {
                    let ghost before = messages@;
                    messages.push(make_text_message("user", texts[i].as_str()));
                    proof {
                        assert(all.take(i + 1) =~= all.take(i as int).push(texts@[i as int]@));
                        assert(items_view(messages@) =~= items_view(before).push(messages@.last()@));
                        assert(user_messages(all.take(i + 1)) =~= user_messages(all.take(i as int)).push(
                            text_message("user"@, texts@[i as int]@),
                        ));
                    }
                    i = i + 1;
                }
                assert(all.take(texts@.len() as int) =~= all);
            },
            _ => {},
        }
        Json::array(messages)
    }
}

/// Registers the frontend's controller.
pub struct Registrar;

impl Registrar {
    /// Puts the controller into the registry.
    pub fn register(&self, registry: &mut AgentRegistry<BuiltinSpec>)
        ensures
            final(registry)@ == old(registry)@.insert(
                AgentRole::Frontend,
                BuiltinSpec::Frontend(FrontendAgentSpec),
            ),
    {
        registry.register(BuiltinSpec::Frontend(FrontendAgentSpec::new()));
    }
}

/// Whether a frontend may go from one phase to the other in one move.
pub open spec fn frontend_edge(from: FrontendPhase, to: FrontendPhase) -> bool {
    match (from, to) {
        (FrontendPhase::Intake, FrontendPhase::Clarify) => true,
        (FrontendPhase::Intake, FrontendPhase::Delegate) => true,
        (FrontendPhase::Clarify, FrontendPhase::Delegate) => true,
        (FrontendPhase::Delegate, FrontendPhase::Watch) => true,
        (FrontendPhase::Watch, FrontendPhase::AskApproval) => true,
        (FrontendPhase::AskApproval, FrontendPhase::Watch) => true,
        (FrontendPhase::Watch, FrontendPhase::Report) => true,
        (FrontendPhase::Report, FrontendPhase::Done) => true,
        _ => from == to,
    }
}

/// A frontend's phase follows one path: it understands the task, perhaps after a
/// question, delegates it, watches and asks for consent as often as needed, reports
/// and is done. A frontend that is done stays so, and the run is done exactly when
/// a move of the frontend ended it.
pub proof fn law_frontend_follows_its_path(f: FrontendAgentSpec, s: StateV, input: InputV)
    requires
        s.role_state is Frontend,
    ensures
        patched_all(s, f.moves(s, input).patches).role_state is Frontend,
        frontend_edge(
            s.role_state->Frontend_0.phase,
            patched_all(s, f.moves(s, input).patches).role_state->Frontend_0.phase,
        ),
        patched_all(s, f.moves(s, input).patches).run_status == (if s.role_state->Frontend_0.phase
            == FrontendPhase::Report && patched_all(
            s,
            f.moves(s, input).patches,
        ).role_state->Frontend_0.phase == FrontendPhase::Done {
            RunStatus::Done
        } else {
            s.run_status
        }),
{
    lemma_unroll(s, f.moves(s, input).patches);
}

/// An event never moves a frontend off its path, and never ends its run.
pub proof fn law_frontend_events_keep_the_path(f: FrontendAgentSpec, s: StateV, event: EventV)
    requires
        s.role_state is Frontend,
    ensures
        patched_all(s, f.reacts(s, event).patches).role_state is Frontend,
        frontend_edge(
            s.role_state->Frontend_0.phase,
            patched_all(s, f.reacts(s, event).patches).role_state->Frontend_0.phase,
        ),
        patched_all(s, f.reacts(s, event).patches).run_status == s.run_status,
{
    lemma_unroll(s, f.reacts(s, event).patches);
}

/// The summary that a worker ends with is what the frontend reports, unless the
/// model words the report anew.
pub proof fn law_summary_is_reported(f: FrontendAgentSpec, s: StateV, task: TaskId, worker: Option<WorkerId>, summary: Seq<char>)
    requires
        s.role_state is Frontend,
        s.role_state->Frontend_0.phase == FrontendPhase::Watch,
    ensures
        ({
            let reporting = patched_all(
                s,
                f.reacts(s, EventV::Done { task_id: task, worker, summary }).patches,
            );
            let sent = patched_all(
                reporting,
                f.moves(
                    reporting,
                    InputV { iteration: None, signal: Some(SignalV::ReportSent), requires_plan_approval: false },
                ).patches,
            );
            &&& reporting.role_state->Frontend_0.phase == FrontendPhase::Report
            &&& sent.role_state->Frontend_0.phase == FrontendPhase::Done
            &&& sent.role_state->Frontend_0.report == Some(summary)
            &&& sent.run_status == RunStatus::Done
        }),
{
    let m = f.reacts(s, EventV::Done { task_id: task, worker, summary });
    lemma_unroll(s, m.patches);
    let reporting = patched_all(s, m.patches);
    let n = f.moves(
        reporting,
        InputV { iteration: None, signal: Some(SignalV::ReportSent), requires_plan_approval: false },
    );
    lemma_unroll(reporting, n.patches);
}

/// What up to four patches do, written out.
pub proof fn lemma_unroll(s: StateV, p: Seq<PatchV>)
    ensures
        p.len() == 0 ==> patched_all(s, p) == s,
        p.len() == 1 ==> patched_all(s, p) == crate::agent_spec::patched(s, p[0]),
        p.len() == 2 ==> patched_all(s, p) == crate::agent_spec::patched(
            crate::agent_spec::patched(s, p[0]),
            p[1],
        ),
        p.len() == 3 ==> patched_all(s, p) == crate::agent_spec::patched(
            crate::agent_spec::patched(crate::agent_spec::patched(s, p[0]), p[1]),
            p[2],
        ),
        p.len() == 4 ==> patched_all(s, p) == crate::agent_spec::patched(
            crate::agent_spec::patched(
                crate::agent_spec::patched(crate::agent_spec::patched(s, p[0]), p[1]),
                p[2],
            ),
            p[3],
        ),
{
    reveal_with_fuel(patched_all, 5);
}

/// Where a signal leads a frontend: on understanding from taking the task in, or from
/// asking back, to handing it over; on a question to asking back; on the task's creation
/// to watching the worker that has it; on consent back to watching; and once the report
/// is sent to the end. Any other signal changes nothing, and no signal raises an event.
pub proof fn law_signal_leads_the_frontend(f: FrontendAgentSpec, s: StateV, signal: SignalV, iteration: Option<IterationV>, consent: bool)
    requires
        s.role_state is Frontend,
    ensures
        ({
            let input = InputV { iteration, signal: Some(signal), requires_plan_approval: consent };
            let t = patched_all(s, f.moves(s, input).patches);
            let before = s.role_state->Frontend_0;
            let after = t.role_state->Frontend_0;
            &&& t.role_state is Frontend
            &&& f.moves(s, input).events.len() == 0
            &&& before.phase is Intake && signal is TaskUnderstood ==> after == (FrontendV {
                phase: FrontendPhase::Delegate,
                ..before
            })
            &&& before.phase is Clarify && signal is TaskUnderstood ==> after == (FrontendV {
                phase: FrontendPhase::Delegate,
                ..before
            })
            &&& before.phase is Intake && signal is NeedClarification ==> after == (FrontendV {
                phase: FrontendPhase::Clarify,
                ..before
            })
            &&& before.phase is Delegate ==> (signal matches SignalV::TaskCreated { task_id, worker_id } ==> after == (
            FrontendV {
                phase: FrontendPhase::Watch,
                task_id: Some(task_id),
                worker: Some(worker_id),
                ..before
            }))
            &&& before.phase is AskApproval && signal is UserApproved ==> after == (FrontendV {
                phase: FrontendPhase::Watch,
                ..before
            })
            &&& before.phase is Report && signal is ReportSent ==> after == (FrontendV {
                phase: FrontendPhase::Done,
                ..before
            }) && t.run_status == RunStatus::Done
            &&& after.phase == before.phase ==> t == s
            &&& after.phase != before.phase ==> {
                ||| signal is TaskUnderstood
                ||| signal is NeedClarification
                ||| signal is TaskCreated
                ||| signal is UserApproved
                ||| signal is ReportSent
            }
        }),
{
    let input = InputV { iteration, signal: Some(signal), requires_plan_approval: consent };
    lemma_unroll(s, f.moves(s, input).patches);
}

/// What the model says leads a frontend likewise. Where it says neither, the task is
/// handed over as soon as the user said something; a report is what the model worded,
/// and ends the run even where it worded none.
pub proof fn law_output_leads_the_frontend(f: FrontendAgentSpec, s: StateV, it: IterationV, consent: bool)
    requires
        s.role_state is Frontend,
    ensures
        ({
            let input = InputV { iteration: Some(it), signal: None, requires_plan_approval: consent };
            let t = patched_all(s, f.moves(s, input).patches);
            let before = s.role_state->Frontend_0;
            let after = t.role_state->Frontend_0;
            let taking_in = before.phase is Intake || before.phase is Clarify;
            let understood = it.validated matches Some(OutputV::FrontendIntake { action, .. })
                && action is TaskUnderstood;
            let asks = it.validated matches Some(OutputV::FrontendIntake { action, .. })
                && action is NeedClarification;
            &&& t.role_state is Frontend
            &&& f.moves(s, input).events.len() == 0
            &&& taking_in && understood ==> after == (FrontendV { phase: FrontendPhase::Delegate, ..before })
            &&& taking_in && asks ==> after == (FrontendV { phase: FrontendPhase::Clarify, ..before })
            &&& taking_in && !understood && !asks && before.pending.len() > 0 ==> after == (FrontendV {
                phase: FrontendPhase::Delegate,
                ..before
            })
            &&& taking_in && !understood && !asks && before.pending.len() == 0 ==> t == s
            &&& before.phase is Report ==> after.phase is Done && t.run_status == RunStatus::Done
            &&& before.phase is Report ==> (it.validated matches Some(OutputV::FrontendReport { summary })
                ==> after.report == Some(summary))
            &&& before.phase is Report && !(it.validated matches Some(OutputV::FrontendReport { .. }))
                ==> after.report == before.report
            &&& !taking_in && !(before.phase is Report) ==> t == s
        }),
{
    let input = InputV { iteration: Some(it), signal: None, requires_plan_approval: consent };
    lemma_unroll(s, f.moves(s, input).patches);
}

/// A frontend that neither hears nor asks anything stays as it is.
pub proof fn law_frontend_rests_without_input(f: FrontendAgentSpec, s: StateV, consent: bool)
    ensures
        f.moves(s, InputV { iteration: None, signal: None, requires_plan_approval: consent }).patches.len() == 0,
        f.moves(s, InputV { iteration: None, signal: None, requires_plan_approval: consent }).events.len() == 0,
{
}

/// A watching frontend takes down what its worker plans, what blocks it, and what it came
/// to, and asks for consent where the worker wants it; one that does not watch takes no
/// notice. It raises no events of its own.
pub proof fn law_frontend_hears_its_worker(f: FrontendAgentSpec, s: StateV, event: EventV)
    requires
        s.role_state is Frontend,
    ensures
        ({
            let t = patched_all(s, f.reacts(s, event).patches);
            let before = s.role_state->Frontend_0;
            let after = t.role_state->Frontend_0;
            &&& t.role_state is Frontend
            &&& f.reacts(s, event).events.len() == 0
            &&& !(before.phase is Watch) ==> t == s
            &&& before.phase is Watch && event is ApprovalRequested ==> after == (FrontendV {
                phase: FrontendPhase::AskApproval,
                ..before
            })
            &&& before.phase is Watch ==> (event matches EventV::Blocked { reason, .. } ==> after == (FrontendV {
                report: Some("worker blocked: "@ + reason),
                ..before
            }))
            &&& before.phase is Watch ==> (event matches EventV::Done { summary, .. } ==> after == (FrontendV {
                phase: FrontendPhase::Report,
                report: Some(summary),
                ..before
            }))
            &&& before.phase is Watch ==> (event matches EventV::PlanProposed { steps, .. } ==> after == (FrontendV {
                report: Some("proposed plan: "@ + steps_debug(steps)),
                ..before
            }))
            &&& event is Progress ==> t == s
        }),
{
    lemma_unroll(s, f.reacts(s, event).patches);
}

/// A frontend asks the model while it takes a task in, asks back, hands over or reports,
/// for an answer of the kind that fits; it never offers tools.
pub proof fn law_frontend_asks_for_what_fits(f: FrontendAgentSpec, s: StateV)
    requires
        s.role_state is Frontend,
    ensures
        ({
            let phase = s.role_state->Frontend_0.phase;
            &&& f.calls_in(s) <==> !(phase is Watch) && !(phase is AskApproval) && !(phase is Done)
            &&& f.tools_in(s) is None
            &&& phase is Intake || phase is Clarify ==> f.schema_in(s).0 == "frontend_intake"@
            &&& phase is Delegate ==> f.schema_in(s).0 == "frontend_delegate"@
            &&& phase is Watch || phase is AskApproval ==> f.schema_in(s).0 == "frontend_watch"@
            &&& phase is Report || phase is Done ==> f.schema_in(s).0 == "frontend_report"@
            &&& f.schema_in(s).1 == "Frontend phase output"@
            &&& f.for_role() == AgentRole::Frontend
        }),
{
}

/// What the user said to a frontend is shown to the model in order, as the user's words.
pub proof fn law_frontend_shows_the_users_words(f: FrontendAgentSpec, s: StateV, i: int)
    requires
        s.role_state is Frontend,
        0 <= i < s.role_state->Frontend_0.pending.len(),
    ensures
        f.conversation(s) matches JsonV::Arr(said) && {
            &&& said.len() == s.role_state->Frontend_0.pending.len()
            &&& member(said[i], "role"@) == Some(JsonV::Str("user"@))
            &&& member(said[i], "content"@) == Some(JsonV::Str(s.role_state->Frontend_0.pending[i]))
        },
{
    law_message_has_role_and_content("user"@, s.role_state->Frontend_0.pending[i], "role"@);
}

/// The steps of a plan are listed in order.
pub proof fn law_steps_are_listed_in_order(steps: Seq<StepId>, n: nat)
    requires
        0 < n <= steps.len(),
    ensures
        n == 1 ==> steps_listed(steps, n) == "StepId("@ + decimal(steps[0].0 as nat) + ")"@,
        n > 1 ==> steps_listed(steps, n) == steps_listed(steps, (n - 1) as nat) + ", "@ + ("StepId("@ + decimal(
            steps[n - 1].0 as nat,
        ) + ")"@),
        steps_debug(steps) == "["@ + steps_listed(steps, steps.len()) + "]"@,
{
}

/// What a frontend shows of its state are its own names, the round it is in, its phase,
/// its task and its worker.
pub proof fn law_frontend_shows_its_state(f: FrontendAgentSpec, s: StateV)
    requires
        s.role_state is Frontend,
    ensures
        ({
            let fv = s.role_state->Frontend_0;
            let task = match fv.task_id {
                Some(id) => "Some(TaskId("@ + decimal(id.0 as nat) + "))"@,
                None => "None"@,
            };
            let worker = match fv.worker {
                Some(id) => "Some(WorkerId("@ + decimal(id.0 as nat) + "))"@,
                None => "None"@,
            };
            f.state_text(s) == "# STATE\ninstance="@ + s.instance_id + "\nrun="@ + s.run_id + "\niteration="@ + decimal(
                s.iteration_id,
            ) + "\nphase="@ + fv.phase.name() + "\ntask_id="@ + task + "\nworker="@ + worker
        }),
{
}

/// The plan that a frontend shows is its task's name, goal and state, or that it has none.
pub proof fn law_frontend_shows_its_task(f: FrontendAgentSpec, task: TaskContract)
    ensures
        f.plan_text(Some(&task)) == "# PLAN\n"@ + "task="@ + task.task_id.wire() + "\ngoal="@ + task.goal@
            + "\nstatus="@ + task.status@,
        f.plan_text(None) == "# PLAN\n"@ + "(no active task)"@,
{
}

/// What is no frontend asks nothing, has no tools and does not move.
pub proof fn law_only_frontends_ask(f: FrontendAgentSpec, s: StateV, input: InputV, event: EventV)
    requires
        !(s.role_state is Frontend),
    ensures
        !f.calls_in(s),
        f.tools_in(s) is None,
        f.schema_in(s).0 == "frontend_idle"@,
        f.moves(s, input).patches.len() == 0 && f.moves(s, input).events.len() == 0,
        f.reacts(s, event).patches.len() == 0 && f.reacts(s, event).events.len() == 0,
        f.conversation(s) == JsonV::Arr(Seq::empty()),
        f.state_text(s) == "# STATE\n(invalid role)"@,
{
}

} // verus!
