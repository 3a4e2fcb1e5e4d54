use claw_core::agent_registry::AgentRegistry;
use claw_core::agent_spec::{
    apply_patches, ActionSummary, AgentRole, AgentSpec, AgentState, ContextBuildInput, FrontendPhase,
    HarnessIterationOutput, PromptBlocks, RoleState, RunStatus, SemanticPhase, StatePatch, TransitionInput,
    TransitionOutput, TransitionSignal, WorkerPhase,
};
use claw_core::agents::builtin::{builtin_registrars, register_builtins, BuiltinSpec};
use claw_core::agents::frontend::FrontendAgentSpec;
use claw_core::agents::worker::WorkerAgentSpec;
use claw_core::context::{build_context, NEGATIVE_CAPABILITIES};
use claw_core::llm_output::{FrontendIntakeAction, ValidatedLlmOutput};
use claw_core::protocol::event::AgentEvent;
use claw_core::protocol::ids::{SessionId, StepId, TaskId, WorkerId};
use claw_core::protocol::task::TaskContract;

fn signal(signal: TransitionSignal) -> TransitionInput {
    TransitionInput { signal: Some(signal), ..Default::default() }
}

fn iteration(action: ActionSummary, validated: Option<ValidatedLlmOutput>) -> TransitionInput {
    let output = HarnessIterationOutput { action, observation: Some("seen".into()), validated };
    TransitionInput { iteration: Some(output), ..Default::default() }
}

fn said(validated: ValidatedLlmOutput) -> TransitionInput {
    iteration(ActionSummary::PlainText { text: "t".into() }, Some(validated))
}

/// Moves an agent, and tells what it told.
fn step<S: AgentSpec>(spec: &S, state: &mut AgentState, input: TransitionInput) -> Vec<AgentEvent> {
    let TransitionOutput { patches, events } = spec.transition(state, &input);
    apply_patches(state, &patches);
    events
}

/// Tells an agent of an event.
fn hear<S: AgentSpec>(spec: &S, state: &mut AgentState, event: &AgentEvent) {
    let patches = spec.handle_event(state, event).patches;
    apply_patches(state, &patches);
}

fn frontend() -> AgentState {
    AgentState::frontend("f".into(), "run".into(), SessionId(1))
}

fn worker() -> AgentState {
    AgentState::worker("w".into(), "run".into(), TaskId(7))
}

fn worker_phase(state: &AgentState) -> WorkerPhase {
    state.role_state.as_worker().unwrap().phase
}

fn plan() -> TransitionSignal {
    TransitionSignal::PlanReady { steps: vec![StepId(1), StepId(2)] }
}

#[test]
fn a_frontend_follows_its_path() {
    let spec = FrontendAgentSpec::new();
    let mut state = frontend();
    let path = [
        (TransitionSignal::NeedClarification, FrontendPhase::Clarify),
        (TransitionSignal::TaskUnderstood, FrontendPhase::Delegate),
        (TransitionSignal::ReportSent, FrontendPhase::Delegate),
        (TransitionSignal::TaskCreated { task_id: TaskId(3), worker_id: WorkerId(4) }, FrontendPhase::Watch),
    ];
    for (s, phase) in path {
        assert!(step(&spec, &mut state, signal(s)).is_empty());
        assert_eq!(state.semantic_phase(), SemanticPhase::Frontend(phase));
    }
    let f = state.role_state.as_frontend().unwrap();
    assert_eq!((f.task_id, f.worker_instance_id), (Some(TaskId(3)), Some(WorkerId(4))));
    assert!(!spec.should_call_llm(&state));
}

#[test]
fn a_summary_is_reported() {
    let spec = FrontendAgentSpec::new();
    let mut state = frontend();
    apply_patches(&mut state, &vec![StatePatch::SetFrontendPhase(FrontendPhase::Watch)]);
    let asked = AgentEvent::ApprovalRequested {
        task_id: TaskId(1),
        worker_instance_id: None,
        step_id: StepId(1),
        reason: "r".into(),
    };
    hear(&spec, &mut state, &asked);
    assert_eq!(state.semantic_phase(), SemanticPhase::Frontend(FrontendPhase::AskApproval));
    step(&spec, &mut state, signal(TransitionSignal::UserApproved));
    let proposed =
        AgentEvent::PlanProposed { task_id: TaskId(1), worker_instance_id: None, steps: vec![StepId(1), StepId(2)] };
    hear(&spec, &mut state, &proposed);
    assert_eq!(
        state.role_state.as_frontend().unwrap().report_draft.as_deref(),
        Some("proposed plan: [StepId(1), StepId(2)]")
    );
    let done = AgentEvent::Done { task_id: TaskId(1), worker_instance_id: None, summary: "it works".into() };
    hear(&spec, &mut state, &done);
    assert_eq!(state.role_state.as_frontend().unwrap().report_draft.as_deref(), Some("it works"));
    step(&spec, &mut state, said(ValidatedLlmOutput::FrontendReport { summary: "told".into() }));
    assert_eq!(state.role_state.as_frontend().unwrap().report_draft.as_deref(), Some("told"));
    assert_eq!(state.run_status, RunStatus::Done);
    assert!(spec.handle_event(&state, &done).patches.is_empty());
}

#[test]
fn a_frontend_understands_from_an_iteration() {
    let spec = FrontendAgentSpec::new();
    let mut state = frontend();
    let unclear =
        ValidatedLlmOutput::FrontendIntake { action: FrontendIntakeAction::NeedClarification, message: None };
    step(&spec, &mut state, said(unclear));
    assert_eq!(state.semantic_phase(), SemanticPhase::Frontend(FrontendPhase::Clarify));
    step(&spec, &mut state, iteration(ActionSummary::Preempted, None));
    assert_eq!(state.semantic_phase(), SemanticPhase::Frontend(FrontendPhase::Clarify));
    apply_patches(&mut state, &vec![StatePatch::PushUserText("hi".into())]);
    step(&spec, &mut state, iteration(ActionSummary::Preempted, None));
    assert_eq!(state.semantic_phase(), SemanticPhase::Frontend(FrontendPhase::Delegate));
}

#[test]
fn every_step_is_done_in_order() {
    let spec = WorkerAgentSpec::new();
    let mut state = worker();
    let told = step(&spec, &mut state, signal(plan()));
    assert!(matches!(&told[0], AgentEvent::PlanProposed { steps, .. } if steps.len() == 2));
    assert_eq!(worker_phase(&state), WorkerPhase::Act);
    assert_eq!(state.role_state.as_worker().unwrap().current_step_id(), Some(StepId(1)));

    let told = step(&spec, &mut state, iteration(ActionSummary::ToolCalls { names: vec!["files".into()] }, None));
    assert!(matches!(&told[0], AgentEvent::Progress { step_id: StepId(1), message, .. } if message == "seen"));
    assert_eq!(worker_phase(&state), WorkerPhase::Verify);
    step(&spec, &mut state, said(ValidatedLlmOutput::WorkerVerify { passed: false, summary: None }));
    assert_eq!(worker_phase(&state), WorkerPhase::Act);
    assert_eq!(state.role_state.as_worker().unwrap().current_step_id(), Some(StepId(1)));

    step(&spec, &mut state, signal(TransitionSignal::StepExecuted));
    step(&spec, &mut state, signal(TransitionSignal::VerifyPassed));
    assert_eq!(state.role_state.as_worker().unwrap().current_step_id(), Some(StepId(2)));
    assert_eq!(worker_phase(&state), WorkerPhase::Act);

    step(&spec, &mut state, signal(TransitionSignal::StepExecuted));
    let told = step(&spec, &mut state, said(ValidatedLlmOutput::WorkerVerify { passed: true, summary: None }));
    assert!(matches!(&told[0], AgentEvent::Done { task_id: TaskId(7), summary, .. } if summary == "verify pass"));
    assert_eq!((worker_phase(&state), state.run_status), (WorkerPhase::Done, RunStatus::Done));
}

#[test]
fn a_plan_waits_for_consent() {
    let spec = WorkerAgentSpec::new();
    let mut state = worker();
    step(&spec, &mut state, TransitionInput { requires_plan_approval: true, ..signal(plan()) });
    assert_eq!((worker_phase(&state), state.run_status), (WorkerPhase::Paused, RunStatus::Waiting));
    assert!(!spec.should_call_llm(&state));
}

#[test]
fn a_worker_pauses_or_is_blocked() {
    let spec = WorkerAgentSpec::new();
    let mut state = worker();
    let told = step(&spec, &mut state, signal(TransitionSignal::NeedsApproval));
    assert!(matches!(&told[0], AgentEvent::ApprovalRequested { step_id: StepId(0), .. }));
    assert_eq!(worker_phase(&state), WorkerPhase::Paused);
    let told = step(&spec, &mut state, signal(TransitionSignal::MissingCapability { reason: "no usb".into() }));
    assert!(matches!(&told[0], AgentEvent::Blocked { step_id: None, reason, .. } if reason == "no usb"));
    assert_eq!(worker_phase(&state), WorkerPhase::Blocked);
    assert_eq!(state.role_state.as_worker().unwrap().blocked_reason.as_deref(), Some("no usb"));
}

#[test]
fn patches_keep_the_agent_and_count_iterations() {
    let mut state = worker();
    apply_patches(&mut state, &vec![StatePatch::BumpIterationId, StatePatch::BumpIterationId]);
    assert_eq!(state.iteration_id, 2);
    apply_patches(&mut state, &vec![StatePatch::SetFrontendPhase(FrontendPhase::Done)]);
    assert_eq!(state.role_state, RoleState::worker(TaskId(7)));
    assert_eq!((state.instance_id.as_str(), state.run_id.as_str(), state.role), ("w", "run", AgentRole::Worker));
}

#[test]
fn builtins_are_registered_under_their_roles() {
    let mut registry: AgentRegistry<BuiltinSpec> = AgentRegistry::new();
    assert!(registry.get(AgentRole::Frontend).is_none());
    register_builtins(&mut registry);
    assert_eq!(registry.get(AgentRole::Frontend).unwrap().role(), AgentRole::Frontend);
    assert_eq!(registry.get(AgentRole::Worker).unwrap().role(), AgentRole::Worker);
    assert_eq!(builtin_registrars().len(), 2);
}

#[test]
fn prompts_hold_their_sections_in_order() {
    let mut state = frontend();
    apply_patches(&mut state, &vec![StatePatch::PushUserText("hello".into()), StatePatch::SetTaskId(TaskId(3))]);
    let task = TaskContract { task_id: TaskId(3), goal: "tea".into(), status: "Active".into() };
    let input = ContextBuildInput {
        state: &state,
        task: Some(&task),
        env_manifest: "linux",
        global_policy: "be kind",
        memory_snapshot: "[GlobalPolicy] p=q",
    };
    let spec = FrontendAgentSpec::new();
    let bundle = build_context(&spec, &spec, &input);
    let prompt = bundle.system_prompt;
    assert!(prompt.starts_with("# Protocol\nrole=Frontend\nphase=Frontend(Intake)\noutput_schema=frontend_intake: Frontend phase output\njson_schema="));
    let rest = format!(
        "\nRespond with a single JSON object matching json_schema.\n\n# ENV\nlinux\n\n# Global policy\nbe kind\n\n# Negative capabilities\n{NEGATIVE_CAPABILITIES}\n\n# STATE\ninstance=f\nrun=run\niteration=0\nphase=Intake\ntask_id=Some(TaskId(3))\nworker=None\n\n# PLAN\ntask=task-3\ngoal=tea\nstatus=Active\n\n# Visible tools\n(none)\n\n# Memory snapshot\n[GlobalPolicy] p=q"
    );
    assert!(prompt.ends_with(&rest), "{prompt}");
    assert_eq!(bundle.messages.as_array().unwrap()[0].get_str("content"), Some("hello"));
    assert!(bundle.tools_json.is_none());
    let idle = ContextBuildInput { task: None, ..input };
    assert_eq!(spec.plan_block(&idle), "# PLAN\n(no active task)");

    let mut busy = worker();
    apply_patches(&mut busy, &vec![StatePatch::SetWorkerPhase(WorkerPhase::Act)]);
    let input = ContextBuildInput { state: &busy, ..idle };
    let bundle = build_context(&WorkerAgentSpec::new(), &spec, &input);
    assert!(bundle.tools_json.unwrap().contains("\"files\""));
    assert!(bundle.system_prompt.contains("output_schema=worker_act: Structured worker phase output"));
}
