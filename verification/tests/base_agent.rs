use claw_core::agent::base_agent::{
    AgentCommand, AgentCommandError, AgentRunError, AgentState, ApprovalDecision, BaseAgent, BaseAgentBuildError,
    tries_again, CancelReason, RetryPolicy, SkillError, TickOutcome, TickStep,
};
use claw_core::agent::internal_tools::ControlSignal;
use claw_core::error::{ChatError, ChatErrorKind};
use claw_core::iteration_loop::{
    CompletedKind, CompletedOutcome, IterationCheckpoint, IterationLoopError, IterationOutcome, IterationResult,
    PlainTextOutcome, PreemptedOutcome, ToolRun,
};
use claw_core::protocol::ids::{ApprovalId, IterationId};
use claw_core::tools::{ToolSet, ToolSpec};

fn append() -> AgentCommand {
    AgentCommand::AppendMessage("hi".into())
}

fn cancel() -> AgentCommand {
    AgentCommand::Cancel { reason: CancelReason::UserRequested }
}

fn approval(id: usize) -> AgentCommand {
    AgentCommand::ApprovalResult { id: ApprovalId(id), decision: ApprovalDecision::Approved }
}

fn classify(state: AgentState, command: &AgentCommand) -> Result<AgentState, AgentCommandError> {
    BaseAgent::classify(state, command, None)
}

#[test]
fn append_is_accepted_in_every_state() {
    assert_eq!(classify(AgentState::Idle, &append()), Ok(AgentState::Running));
    assert_eq!(classify(AgentState::Running, &append()), Ok(AgentState::Running));
    assert_eq!(classify(AgentState::Paused, &append()), Ok(AgentState::Paused));
    assert_eq!(classify(AgentState::AwaitingApproval, &append()), Ok(AgentState::AwaitingApproval));
}

#[test]
fn cancel_ends_a_task_but_not_when_idle() {
    assert_eq!(classify(AgentState::Running, &cancel()), Ok(AgentState::Idle));
    assert_eq!(classify(AgentState::Paused, &cancel()), Ok(AgentState::Idle));
    assert_eq!(classify(AgentState::AwaitingApproval, &cancel()), Ok(AgentState::Idle));
    assert_eq!(classify(AgentState::Idle, &cancel()), Err(AgentCommandError::NothingToCancel));
}

#[test]
fn pause_only_from_running() {
    assert_eq!(classify(AgentState::Running, &AgentCommand::Pause), Ok(AgentState::Paused));
    for state in [AgentState::Idle, AgentState::Paused, AgentState::AwaitingApproval] {
        assert_eq!(classify(state, &AgentCommand::Pause), Err(AgentCommandError::CannotPause { state }));
    }
}

#[test]
fn resume_only_from_paused() {
    assert_eq!(classify(AgentState::Paused, &AgentCommand::Resume), Ok(AgentState::Running));
    for state in [AgentState::Idle, AgentState::Running, AgentState::AwaitingApproval] {
        assert_eq!(classify(state, &AgentCommand::Resume), Err(AgentCommandError::CannotResume { state }));
    }
}

#[test]
fn cancel_then_resume_is_rejected() {
    let after_cancel = classify(AgentState::Running, &cancel()).expect("cancel from running");
    assert_eq!(after_cancel, AgentState::Idle);
    assert_eq!(
        classify(after_cancel, &AgentCommand::Resume),
        Err(AgentCommandError::CannotResume { state: AgentState::Idle })
    );
}

#[test]
fn approval_requires_awaiting_and_matching_id() {
    for state in [AgentState::Idle, AgentState::Running, AgentState::Paused] {
        assert_eq!(
            BaseAgent::classify(state, &approval(1), None),
            Err(AgentCommandError::NotAwaitingApproval { state })
        );
    }
    assert_eq!(
        BaseAgent::classify(AgentState::AwaitingApproval, &approval(7), Some(ApprovalId(7))),
        Ok(AgentState::Running)
    );
    assert_eq!(
        BaseAgent::classify(AgentState::AwaitingApproval, &approval(7), Some(ApprovalId(9))),
        Err(AgentCommandError::ApprovalMismatch { expected: ApprovalId(9), got: ApprovalId(7) })
    );
}

fn agent() -> BaseAgent {
    BaseAgent::builder(true).with_system_prompt("help".into()).build().expect("build")
}

fn said(text: &str) -> IterationResult {
    Ok(IterationOutcome::Completed(CompletedOutcome {
        iteration_id: IterationId(0),
        kind: CompletedKind::PlainText(PlainTextOutcome { text: text.into(), raw_message_json: None }),
    }))
}

/// Begins a tick of an agent without skills; the agent must ask for a round.
fn begin(agent: &mut BaseAgent) {
    match agent.begin_tick() {
        TickStep::Iterate(_) => {}
        TickStep::NeedSkills => {
            assert!(matches!(agent.on_skills(Ok(String::new())), TickStep::Iterate(_)));
        }
        TickStep::Done(outcome) => panic!("nothing to do: {outcome:?}"),
    }
}

#[test]
fn an_idle_agent_has_nothing_to_do() {
    let mut agent = agent();
    assert_eq!(agent.begin_tick(), TickStep::Done(TickOutcome::Idle));
    assert!(!agent.is_running());
}

#[test]
fn a_text_ends_the_task_and_is_kept() {
    let mut agent = agent();
    agent.run("hello".into());
    assert!(!agent.is_running());
    begin(&mut agent);
    assert!(agent.is_running());
    let request = agent.iteration_request();
    assert_eq!(request.system_prompt, "help");
    assert_eq!(request.messages.len(), 1);
    assert_eq!(agent.finish_tick(said("hi"), Vec::new()), TickOutcome::Yielded { text: "hi".into() });
    assert!(!agent.is_running());
    let messages = agent.transcript.messages();
    assert_eq!(messages.len(), 2);
    assert_eq!(messages[0].get_str("content"), Some("hello"));
    assert_eq!(messages[1].get_str("content"), Some("hi"));
}

#[test]
fn an_approval_parks_the_agent_until_it_is_resolved() {
    let mut agent = agent();
    agent.run("go".into());
    begin(&mut agent);
    let interrupted = Ok(IterationOutcome::Preempted(PreemptedOutcome {
        iteration_id: IterationId(0),
        checkpoint: IterationCheckpoint::BeforeTool,
        produced: None,
    }));
    let signals = vec![ControlSignal::ApprovalRequested { summary: "delete?".into() }];
    let outcome = agent.finish_tick(interrupted, signals);
    let id = match outcome {
        TickOutcome::AwaitingApproval { id, summary } => {
            assert_eq!(summary, "delete?");
            id
        }
        other => panic!("unexpected outcome: {other:?}"),
    };
    let other = ApprovalId(id.0 + 1);
    assert_eq!(
        agent.resolve_approval(other, ApprovalDecision::Approved),
        Err(AgentCommandError::ApprovalMismatch { expected: id, got: other })
    );
    assert_eq!(agent.resolve_approval(id, ApprovalDecision::Rejected("no".into())), Ok(()));
    begin(&mut agent);
    assert_eq!(agent.finish_tick(said("fine"), Vec::new()), TickOutcome::Yielded { text: "fine".into() });
}

#[test]
fn a_failed_round_fails_the_task() {
    let mut agent = agent();
    agent.run("go".into());
    begin(&mut agent);
    let down = ChatError { kind: ChatErrorKind::Api, message: "down".into() };
    match agent.finish_tick(Err(IterationLoopError::Chat(down)), Vec::new()) {
        TickOutcome::Failed(error) => {
            assert_eq!(error.debug(), "Iteration(Chat(Api(\"down\")))");
        }
        other => panic!("unexpected outcome: {other:?}"),
    }
    assert!(!agent.is_running());
}

#[test]
fn skills_join_the_prompt_and_their_failure_fails_the_task() {
    let mut agent = BaseAgent::builder(true).with_system_prompt("help".into()).with_skills().build().unwrap();
    agent.load_skill("notes", Ok(())).unwrap();
    agent.run("go".into());
    assert_eq!(agent.begin_tick(), TickStep::NeedSkills);
    assert!(matches!(agent.on_skills(Ok("# Notes".into())), TickStep::Iterate(_)));
    assert!(agent.iteration_request().system_prompt.contains("# Notes"));
    assert!(agent.iteration_request().system_prompt.starts_with("help"));
    let _ = agent.finish_tick(said("ok"), Vec::new());

    agent.load_skill_group(Ok(())).unwrap();
    agent.run("again".into());
    assert_eq!(agent.begin_tick(), TickStep::NeedSkills);
    match agent.on_skills(Err(SkillError::NotFound("notes".into()))) {
        TickStep::Done(TickOutcome::Failed(AgentRunError::Skill(_))) => {}
        other => panic!("unexpected step: {other:?}"),
    }
}

#[test]
fn a_paused_agent_waits() {
    let mut agent = agent();
    agent.run("go".into());
    agent.pause().unwrap();
    assert_eq!(agent.begin_tick(), TickStep::Done(TickOutcome::Idle));
    agent.append_message("more".into());
    assert_eq!(agent.pause(), Err(AgentCommandError::CannotPause { state: AgentState::Paused }));
    agent.resume().unwrap();
    begin(&mut agent);
    assert_eq!(agent.iteration_request().messages.len(), 2);
    let _ = agent.finish_tick(said("ok"), Vec::new());
    assert_eq!(agent.cancel(CancelReason::Shutdown), Err(AgentCommandError::NothingToCancel));
}

#[test]
fn tools_need_a_model_that_calls_them() {
    let spec = |name: &str| ToolSpec { name: name.into(), schema: "{}".into() };
    let tools = ToolSet::new(vec![spec("a")]).unwrap();
    assert_eq!(
        BaseAgent::builder(false).with_tools(tools).build().err(),
        Some(BaseAgentBuildError::ToolsUnsupported)
    );
    let taken = ToolSet::new(vec![spec("end_conversation")]).unwrap();
    assert!(matches!(
        BaseAgent::builder(true).with_tools(taken).build().err(),
        Some(BaseAgentBuildError::Tools(_))
    ));
    assert!(ToolSet::new(vec![spec("a"), spec("a")]).is_err());
    assert!(BaseAgent::builder(false).build().unwrap().tools.is_none());
    assert_eq!(RetryPolicy::default().retries, 2);
    assert_eq!(RetryPolicy::none().retries, 0);
}

#[test]
fn refused_commands_say_why() {
    assert_eq!(
        AgentCommandError::CannotPause { state: AgentState::Idle }.message(),
        "cannot pause: the agent is Idle, not running"
    );
    assert_eq!(CancelReason::UserRequested.as_str(), "UserRequested");
}

#[test]
fn only_a_model_that_was_not_reached_is_tried_again() {
    let policy = RetryPolicy::new(2);
    assert!(tries_again(policy, 0, ChatErrorKind::Transport, false));
    assert!(tries_again(policy, 1, ChatErrorKind::Transport, false));
    assert!(!tries_again(policy, 2, ChatErrorKind::Transport, false));
    assert!(!tries_again(policy, 0, ChatErrorKind::Transport, true));
    assert!(!tries_again(policy, 0, ChatErrorKind::Api, false));
    assert!(!tries_again(RetryPolicy::none(), 0, ChatErrorKind::Transport, false));
}

#[test]
fn refused_tools_are_counted_round_by_round() {
    let run = |name: &str, blocked: bool| ToolRun { name: name.into(), ok: !blocked, blocked };
    let mut agent = BaseAgent::builder(true).with_tool_block_retries(1).build().unwrap();
    agent.run("go".into());
    begin(&mut agent);
    agent.apply_tool_block_policy(&vec![run("echo", false), run("writer", true), run("other", true)]);
    assert_eq!((agent.consecutive_tool_blocks, agent.lifecycle), (1, AgentState::Running));
    agent.apply_tool_block_policy(&vec![run("echo", false)]);
    assert_eq!(agent.consecutive_tool_blocks, 0);
    agent.apply_tool_block_policy(&vec![run("a", true)]);
    agent.apply_tool_block_policy(&vec![run("echo", false), run("writer", true), run("other", true)]);
    assert_eq!(agent.lifecycle, AgentState::Idle);
    assert_eq!(
        agent.outcome,
        Some(TickOutcome::Failed(AgentRunError::ToolNotPermitted { name: "writer".into() }))
    );
}
