use std::collections::VecDeque;

use claw_core::agent::agent::{respond_to_approval_tool_group, AgentKind};
use claw_core::agent::conversation_agent::spawn_tool_group;
use claw_core::agent::internal_tools::{
    end_conversation, ensure_valid_arguments_json, internal_tool_group, request_approval, respond_to_approval,
    spawn_subagent, ApprovalResponder, ApprovalVerdict, ControlSignal, SpawnPolicy, Spawner,
};
use claw_core::protocol::ids::AgentId;
use claw_core::tools::ToolError;

/// Records every kind it is asked to spawn; returns a fixed child id.
struct RecordingSpawner(Vec<AgentKind>);

impl Spawner for RecordingSpawner {
    fn spawn(&mut self, _parent: AgentId, kind: AgentKind, _goal: String) -> AgentId {
        self.0.push(kind);
        AgentId(99)
    }
}

#[test]
fn end_conversation_pushes_signal_with_message() {
    assert!(internal_tool_group().iter().any(|tool| tool.name == "end_conversation"));
    let mut sink: VecDeque<ControlSignal> = VecDeque::new();
    let output = end_conversation(&mut sink, r#"{"final_message":"all done"}"#).unwrap();
    assert!(output.ok);
    assert_eq!(output.output, "Conversation ended.");

    let signal = sink.pop_front().unwrap();
    assert_eq!(
        signal,
        ControlSignal::EndConversation {
            final_message: "all done".to_string()
        }
    );
}

#[test]
fn request_approval_pushes_summary() {
    assert!(internal_tool_group().iter().any(|tool| tool.name == "request_approval"));
    let mut sink: VecDeque<ControlSignal> = VecDeque::new();
    request_approval(&mut sink, r#"{"summary":"delete prod"}"#).unwrap();

    let signal = sink.pop_front().unwrap();
    assert_eq!(
        signal,
        ControlSignal::ApprovalRequested {
            summary: "delete prod".to_string()
        }
    );
}

#[test]
fn spawn_rejects_disallowed_kind_without_spawning() {
    assert!(spawn_tool_group().iter().any(|tool| tool.name == "spawn_subagent"));
    let mut spawner = RecordingSpawner(Vec::new());
    let policy = SpawnPolicy::Only(vec![AgentKind::new("worker")]);

    let output =
        spawn_subagent(&mut spawner, AgentId(1), &policy, r#"{"kind":"researcher","goal":"x"}"#).unwrap();

    // Refused as a matched tool error (not Err), and no spawn was queued.
    assert!(!output.ok);
    assert!(output.output.contains("not permitted"));
    assert!(output.output.contains("worker"));
    assert!(spawner.0.is_empty());
}

#[test]
fn spawn_allows_permitted_kind() {
    let mut spawner = RecordingSpawner(Vec::new());
    let policy = SpawnPolicy::Only(vec![AgentKind::new("worker")]);

    let output = spawn_subagent(&mut spawner, AgentId(1), &policy, r#"{"kind":"worker","goal":"x"}"#).unwrap();

    assert!(output.ok);
    assert_eq!(spawner.0.as_slice(), &[AgentKind::new("worker")]);
}

#[test]
fn spawn_policy_any_allows_every_kind() {
    let mut spawner = RecordingSpawner(Vec::new());

    let output =
        spawn_subagent(&mut spawner, AgentId(1), &SpawnPolicy::Any, r#"{"kind":"anything","goal":"x"}"#).unwrap();

    assert!(output.ok);
    assert_eq!(spawner.0.as_slice(), &[AgentKind::new("anything")]);
}

#[test]
fn spawn_policy_resolves_wildcard_to_any() {
    assert_eq!(
        SpawnPolicy::from_allowed_kinds(&vec![AgentKind::new("*")]),
        SpawnPolicy::Any
    );
    assert_eq!(
        SpawnPolicy::from_allowed_kinds(&vec![AgentKind::new("worker")]),
        SpawnPolicy::Only(vec![AgentKind::new("worker")])
    );
}

/// Records every verdict it is told of.
struct FakeResponder(Vec<(AgentId, ApprovalVerdict, Option<String>)>);

impl ApprovalResponder for FakeResponder {
    fn respond(&mut self, target: AgentId, verdict: ApprovalVerdict, note: Option<String>) {
        self.0.push((target, verdict, note));
    }
}

#[test]
fn respond_to_approval_parses_target_and_verdict() {
    assert!(respond_to_approval_tool_group().iter().any(|tool| tool.name == "respond_to_approval"));
    let mut recorded = FakeResponder(Vec::new());

    respond_to_approval(&mut recorded, r#"{"agent":"agent-7","verdict":"no","note":"not allowed"}"#).unwrap();

    assert_eq!(
        recorded.0.as_slice(),
        &[(
            AgentId(7),
            ApprovalVerdict::No,
            Some("not allowed".to_string())
        )]
    );
}

#[test]
fn respond_to_approval_rejects_unknown_verdict() {
    let mut recorded = FakeResponder(Vec::new());
    let error = respond_to_approval(&mut recorded, r#"{"agent":"agent-1","verdict":"maybe"}"#).unwrap_err();
    assert!(matches!(error, ToolError::InvokeFailed(_)));
    assert!(recorded.0.is_empty());
}

#[test]
fn malformed_arguments_error_not_swallowed() {
    let mut sink: VecDeque<ControlSignal> = VecDeque::new();
    let error = end_conversation(&mut sink, "{not json").unwrap_err();
    assert!(matches!(error, ToolError::InvokeFailed(_)));
    assert!(sink.is_empty());
}

#[test]
fn blank_kind_is_refused() {
    let mut spawner = RecordingSpawner(Vec::new());
    for arguments in [r#"{"goal":"x"}"#, r#"{"kind":"  ","goal":"x"}"#, ""] {
        let error = spawn_subagent(&mut spawner, AgentId(1), &SpawnPolicy::Any, arguments).unwrap_err();
        assert_eq!(
            error,
            ToolError::InvokeFailed("spawn_subagent requires a non-empty 'kind'".to_string())
        );
    }
    assert!(spawner.0.is_empty());
}

#[test]
fn a_spawned_subagent_is_announced() {
    let mut spawner = RecordingSpawner(Vec::new());
    let output = spawn_subagent(&mut spawner, AgentId(1), &SpawnPolicy::Any, r#"{"kind":"worker","goal":"x"}"#).unwrap();
    assert_eq!(
        output.output,
        "Subagent agent-99 requested; its result will be reported back when it finishes."
    );
}

#[test]
fn verdicts_are_confirmed_and_blank_notes_dropped() {
    let mut recorded = FakeResponder(Vec::new());
    let output = respond_to_approval(&mut recorded, r#"{"agent":" agent-3 ","verdict":"yes","note":"  "}"#).unwrap();
    assert_eq!(output.output, "Recorded 'yes' for agent-3.");
    assert_eq!(recorded.0, vec![(AgentId(3), ApprovalVerdict::Yes, None)]);
    respond_to_approval(&mut recorded, r#"{"agent":"agent-3","verdict":"other","note":"later"}"#).unwrap();
    assert_eq!(recorded.0[1], (AgentId(3), ApprovalVerdict::Other, Some("later".to_string())));
    let error = respond_to_approval(&mut recorded, r#"{"agent":"worker-3","verdict":"yes"}"#).unwrap_err();
    assert_eq!(
        error,
        ToolError::InvokeFailed("invalid agent id 'worker-3': invalid agent id: worker-3".to_string())
    );
}

#[test]
fn arguments_must_be_json_or_blank() {
    assert!(ensure_valid_arguments_json(" ").is_ok());
    assert!(ensure_valid_arguments_json("[1, 2]").is_ok());
    let error = ensure_valid_arguments_json("{").unwrap_err();
    assert!(matches!(error, ToolError::InvokeFailed(text) if text.starts_with("invalid tool arguments JSON: ")));
}

#[test]
fn policies_describe_themselves() {
    assert_eq!(SpawnPolicy::Any.describe(), "any kind");
    assert_eq!(SpawnPolicy::Only(Vec::new()).describe(), "(none)");
    let two = SpawnPolicy::Only(vec![AgentKind::new("a"), AgentKind::new("b")]);
    assert_eq!(two.describe(), "a, b");
    assert!(two.allows(&AgentKind::new("b")));
    assert!(!two.allows(&AgentKind::new("c")));
}
