use std::collections::hash_map::DefaultHasher;
use std::hash::{Hash, Hasher};

use claw_core::agent_spec::{
    ActionSummary, AgentRole, FrontendPhase, HarnessIterationOutput, RunStatus, SemanticPhase, StatePatch,
};
use claw_core::consts::{ResponseStatus, REQUEST_FLAG_PUBLISH_OUT_MESSAGE, REQUEST_FLAG_PUBLISH_STAGE_MESSAGE};
use claw_core::errname::{esp_err_to_name, ESP_ERR_INVALID_ARG, ESP_ERR_TIMEOUT};
use claw_core::events::{
    build_response_payload_json, out_message_if_requested, stage_note_text, stage_text_event, stage_tool_calls_text,
};
use claw_core::llm::types::ToolCall;
use claw_core::memory::{
    role_may_read, snapshot_for_role, InMemoryScopedStore, MemoryScope, RuntimeRole, ScopedMemoryStore,
};
use claw_core::observability::{hash_context, trace_from_iteration, InMemoryTraceSink, SpanName, TraceSink};
use claw_core::protocol::command::Command;
use claw_core::protocol::event::AgentEvent;
use claw_core::protocol::ids::{SessionId, TaskId};
use claw_core::protocol::queues::{AgentEventQueue, CommandQueue, UserInput, UserInputQueue};
use claw_core::request::{RequestItem, ResponseItem};
use claw_core::text::{decimal_i64, decimal_u64, find, parse_usize, quote, trim};

#[test]
fn a_snapshot_respects_the_scopes() {
    let mut store = InMemoryScopedStore::new();
    store.write(MemoryScope::GlobalPolicy, "global.policy", "be kind".into());
    store.write(MemoryScope::TaskShared, "task-4.shared", "tea".into());
    store.write(MemoryScope::FrontendPrivate, "frontend.notes", "secret".into());
    store.write(MemoryScope::WorkerPrivate, "worker.notes", "draft".into());
    store.write(MemoryScope::WorkerPrivate, "worker.notes", "final".into());
    assert_eq!(store.read(MemoryScope::WorkerPrivate, "worker.notes").as_deref(), Some("final"));
    assert_eq!(store.read(MemoryScope::TaskShared, "worker.notes"), None);
    assert_eq!(
        snapshot_for_role(&store, RuntimeRole::Frontend, Some(TaskId(4))),
        "[GlobalPolicy] global.policy=be kind\n[TaskShared] task-4.shared=tea\n[FrontendPrivate] frontend.notes=secret"
    );
    assert_eq!(
        snapshot_for_role(&store, RuntimeRole::Worker, None),
        "[GlobalPolicy] global.policy=be kind\n[WorkerPrivate] worker.notes=final"
    );
    assert!(!role_may_read(RuntimeRole::Worker, MemoryScope::FrontendPrivate));
    assert!(role_may_read(RuntimeRole::Worker, MemoryScope::ProjectShared));
    let nothing = snapshot_for_role(&InMemoryScopedStore::new(), RuntimeRole::Worker, None);
    assert_eq!(nothing, "(empty)");
}

#[test]
fn traces_are_kept_per_run() {
    let mut sink = InMemoryTraceSink::new();
    let output = HarnessIterationOutput {
        action: ActionSummary::ToolCalls { names: vec!["files".into()] },
        observation: Some("ok".into()),
        validated: None,
    };
    for (run, id) in [("a", 1), ("b", 2), ("a", 3)] {
        sink.record_iteration(trace_from_iteration(
            run,
            "agent",
            AgentRole::Frontend,
            id,
            SemanticPhase::Frontend(FrontendPhase::Intake),
            None,
            hash_context("p", "[]"),
            vec!["files".into()],
            Some(&output),
            &vec![StatePatch::SetRunStatus(RunStatus::Waiting)],
            vec![SpanName::LlmHttp],
        ));
    }
    let trace = sink.run_trace("a").unwrap();
    assert_eq!(trace.iterations.iter().map(|t| t.iteration_id).collect::<Vec<_>>(), vec![1, 3]);
    assert_eq!(trace.iterations[0].observation.as_deref(), Some("ok"));
    assert_eq!(trace.iterations[0].state_patches, vec![StatePatch::SetRunStatus(RunStatus::Waiting)]);
    assert_eq!(sink.all_iterations("b").len(), 1);
    assert!(sink.run_trace("c").is_none());
    assert!(sink.all_iterations("c").is_empty());
}

#[test]
fn contexts_are_hashed_like_two_texts() {
    let mut hasher = DefaultHasher::new();
    "prompt".hash(&mut hasher);
    "[1]".hash(&mut hasher);
    assert_eq!(hash_context("prompt", "[1]"), format!("{:016x}", hasher.finish()));
    assert_ne!(hash_context("prompt", "[1]"), hash_context("prompt[", "1]"));
}

#[test]
fn queues_are_drained_in_order() {
    let mut inputs = UserInputQueue::new();
    for text in ["a", "b"] {
        inputs.push(UserInput { session_id: SessionId(1), text: text.into() });
    }
    let drained = inputs.drain();
    assert_eq!(drained.iter().map(|i| i.text.as_str()).collect::<Vec<_>>(), vec!["a", "b"]);
    assert!(inputs.drain().is_empty());

    let mut commands = CommandQueue::default();
    commands.push(Command::CreateTask {
        task_id: TaskId(1),
        goal: "g".into(),
        frontend_instance_id: "f".into(),
        requires_plan_approval: true,
    });
    assert_eq!(commands.drain().len(), 1);

    let mut events = AgentEventQueue::new();
    let done = AgentEvent::Done { task_id: TaskId(1), worker_instance_id: None, summary: "s".into() };
    events.push(done.dup());
    assert_eq!(events.drain(), vec![done]);
}

fn request(flags: u32) -> RequestItem {
    RequestItem {
        request_id: 7,
        flags,
        source_channel: Some("cli".into()),
        source_chat_id: Some("c1".into()),
        ..Default::default()
    }
}

#[test]
fn out_messages_are_published_on_request() {
    let response = ResponseItem { request_id: 7, text: Some("hi".into()), ..Default::default() };
    assert!(out_message_if_requested(&request(0), &response, 5).is_none());
    let asked = request(REQUEST_FLAG_PUBLISH_OUT_MESSAGE);
    let event = out_message_if_requested(&asked, &response, -5).unwrap();
    assert_eq!((event.event_id.as_str(), event.message_id.as_str()), ("agent-7--5", "agent-7"));
    assert_eq!((event.event_type.as_str(), event.correlation_id.as_str()), ("out_message", "7"));
    assert_eq!((event.source_channel.as_str(), event.chat_id.as_str()), ("cli", "c1"));
    assert_eq!(event.payload_json.as_deref(), Some(r#"{"request_id":7,"status":"ok"}"#));

    let failed = ResponseItem {
        status: ResponseStatus::Error,
        error_message: Some("bad".into()),
        target_channel: Some("qq".into()),
        ..response
    };
    let event = out_message_if_requested(&asked, &failed, 5).unwrap();
    assert_eq!((event.text.as_deref(), event.source_channel.as_str()), (Some("bad"), "qq"));
    assert_eq!(
        build_response_payload_json(&asked, &failed).as_deref(),
        Some(r#"{"error_message":"bad","request_id":7,"status":"error"}"#)
    );
    let silent = ResponseItem { error_message: None, ..failed };
    assert!(out_message_if_requested(&asked, &silent, 5).is_none());
    let nowhere = RequestItem { source_chat_id: None, ..asked };
    let said = ResponseItem { request_id: 7, text: Some("hi".into()), ..Default::default() };
    assert!(out_message_if_requested(&nowhere, &said, 5).is_none());
}

#[test]
fn stage_texts_are_published_on_request() {
    assert_eq!(stage_text_event(&request(0), "", 1).err(), Some(ESP_ERR_INVALID_ARG));
    assert_eq!(stage_text_event(&request(0), "x", 1), Ok(None));
    let asked = request(REQUEST_FLAG_PUBLISH_STAGE_MESSAGE);
    let event = stage_text_event(&asked, "working", 9).unwrap().unwrap();
    assert_eq!((event.event_id.as_str(), event.event_type.as_str()), ("stage-7-9", "agent_stage"));
    let nowhere = RequestItem { source_channel: None, ..asked };
    assert_eq!(stage_text_event(&nowhere, "working", 9), Err(ESP_ERR_INVALID_ARG));
}

#[test]
fn rounds_are_shown_from_one_on() {
    assert_eq!(stage_note_text(0, "thinking"), "\u{1F99E} [Round 1] thinking");
    assert_eq!(stage_note_text(u32::MAX, ""), "\u{1F99E} [Round 4294967296] ");
    let call = |name: &str, arguments: String| ToolCall {
        id: "t".into(),
        name: name.into(),
        arguments_json: arguments,
    };
    let calls =
        vec![call("files", "{}".into()), call("", String::new()), call("long", "x".repeat(41)), call("e", "\u{e9}".repeat(21))];
    assert_eq!(
        stage_tool_calls_text(1, &calls),
        format!(
            "\u{1F99E} [Round 2] Snap: files({{}}), ?, long({}...), e({}...)",
            "x".repeat(40),
            "\u{e9}".repeat(21)
        )
    );
}

#[test]
fn texts_are_read_and_written_like_std_does() {
    assert_eq!(quote("a\"b\n\u{1f99e}\u{7f}"), format!("{:?}", "a\"b\n\u{1f99e}\u{7f}"));
    assert_eq!(trim(" \u{2003}a b\t"), "a b");
    assert_eq!((decimal_u64(u64::MAX), decimal_i64(i64::MIN)), (u64::MAX.to_string(), i64::MIN.to_string()));
    assert_eq!((find("abcabc", "ca"), find("abc", "x")), (Some(2), None));
    assert_eq!((parse_usize("+12"), parse_usize("007"), parse_usize("-1")), (Some(12), Some(7), None));
    assert_eq!(parse_usize("18446744073709551616"), None);
    assert_eq!(esp_err_to_name(ESP_ERR_TIMEOUT), "ESP_ERR_TIMEOUT");
    assert_eq!(esp_err_to_name(12345), "UNKNOWN ERROR");
}
