use claw_core::error::{ChatError, ChatErrorKind};
use claw_core::iteration_loop::{
    append_assistant_tool_calls, blocked_tool_message, check_preempt_at_checkpoint, has_dangling_tool_calls,
    llm_http_preempted, take_interrupt, tool_call_names, AppendedMessages, CompletedKind, IterationAction,
    IterationCheckpoint, IterationLoop, IterationLoopError, IterationOutcome, IterationStep, ToolsOutcome,
};
use claw_core::json::{parse_json, Json};
use claw_core::llm::types::{LlmResponse, ToolCall};
use claw_core::protocol::ids::IterationId;
use claw_core::tools::{AllowedTools, ToolError, ToolOutput};

fn call(id: &str, name: &str) -> ToolCall {
    ToolCall { id: id.into(), name: name.into(), arguments_json: "{}".into() }
}

fn response(raw: Option<&str>, tool_calls: Vec<ToolCall>) -> LlmResponse {
    LlmResponse { text: None, reasoning_content: None, raw_message_json: raw.map(String::from), tool_calls }
}

fn step(allowed: Option<&str>) -> IterationStep {
    IterationStep {
        iteration_id: IterationId(1),
        has_tools: true,
        allowed_tools: allowed.map(|name| AllowedTools::new(vec![name.to_string()])),
    }
}

/// Runs the tools of one answer, each with `output`.
fn run_tools(step: IterationStep, response: LlmResponse, output: Result<ToolOutput, ToolError>) -> ToolsOutcome {
    let mut interrupt = false;
    let (mut round, first) = IterationLoop::run(step, &mut interrupt);
    assert_eq!(first, IterationAction::Chat);
    let mut action = round.on_chat(Ok(response), &mut interrupt);
    let mut output = Some(output);
    loop {
        action = match action {
            IterationAction::Checkpoint => round.next_tool(&mut interrupt),
            IterationAction::Invoke(_) => round.on_tool(output.take().expect("one tool runs")),
            IterationAction::Done(Ok(IterationOutcome::Completed(done))) => match done.kind {
                CompletedKind::Tools(outcome) => return outcome,
                CompletedKind::PlainText(text) => panic!("unexpected text: {text:?}"),
            },
            other => panic!("unexpected action: {other:?}"),
        };
    }
}

#[test]
fn check_preempt_at_checkpoint_consumes_interrupt_flag() {
    let mut interrupt = true;
    let outcome =
        check_preempt_at_checkpoint(&mut interrupt, IterationId(1), IterationCheckpoint::AfterLlmBeforeTool, None)
            .expect("preempt");
    assert_eq!(outcome.checkpoint, IterationCheckpoint::AfterLlmBeforeTool);
    assert!(outcome.produced.is_none());
    assert!(!interrupt);
}

#[test]
fn check_preempt_at_checkpoint_returns_produced_snapshot() {
    let mut interrupt = true;
    let produced =
        AppendedMessages(parse_json(r#"[{"role":"assistant"},{"role":"tool","content":"partial"}]"#).unwrap());
    let outcome = check_preempt_at_checkpoint(
        &mut interrupt,
        IterationId(1),
        IterationCheckpoint::BeforeTool,
        produced.as_produced_snapshot(),
    )
    .expect("preempt");
    let produced = outcome.produced.expect("produced");
    let items = produced.0.as_array().expect("array");
    assert_eq!(items.len(), 2);
}

#[test]
fn llm_http_preempted_accepts_transport_abort_without_flag() {
    let mut interrupt = false;
    let err = ChatError {
        kind: ChatErrorKind::Transport,
        message: "HTTP transport error: HTTP request aborted by caller".into(),
    };
    assert!(llm_http_preempted(&mut interrupt, &err));
}

#[test]
fn append_assistant_tool_calls_error_paths() {
    let mut messages = Json::array(Vec::new());
    let missing_raw = response(None, vec![call("t1", "files")]);
    assert!(matches!(
        append_assistant_tool_calls(&mut messages, &missing_raw).unwrap_err(),
        IterationLoopError::MissingAssistantMessage
    ));

    let malformed = response(Some("{not-json"), vec![call("t1", "files")]);
    assert!(matches!(
        append_assistant_tool_calls(&mut messages, &malformed).unwrap_err(),
        IterationLoopError::MalformedAssistantMessage
    ));

    let valid = response(Some(r#"{"role":"assistant"}"#), vec![]);
    let mut not_array = Json::object();
    assert!(matches!(
        append_assistant_tool_calls(&mut not_array, &valid).unwrap_err(),
        IterationLoopError::MessagesNotArray
    ));
}

#[test]
fn run_tool_calls_error_and_empty_name() {
    let outcome = run_tools(
        step(None),
        response(Some(r#"{"role":"assistant"}"#), vec![call("t1", "")]),
        Ok(ToolOutput { output: "done".into(), ok: false }),
    );
    assert_eq!(outcome.runs.len(), 1);
    assert_eq!(outcome.runs[0].name, "(null)");
    assert!(!outcome.runs[0].ok);
    assert!(!outcome.runs[0].blocked);
    let items = outcome.appended.0.as_array().unwrap();
    assert_eq!(items[1].get("is_error").unwrap().as_bool(), Some(true));
}

#[test]
fn run_tool_calls_blocks_tool_not_in_allowed_set() {
    let outcome = run_tools(
        step(Some("reader")),
        response(Some(r#"{"role":"assistant"}"#), vec![call("t1", "writer")]),
        Ok(ToolOutput { output: "wrote".into(), ok: true }),
    );
    assert_eq!(outcome.runs.len(), 1);
    assert_eq!(outcome.runs[0].name, "writer");
    assert!(!outcome.runs[0].ok);
    assert!(outcome.runs[0].blocked);
    let items = outcome.appended.0.as_array().unwrap();
    assert_eq!(items[1].get_str("tool_call_id"), Some("t1"));
    assert_eq!(items[1].get("is_error").unwrap().as_bool(), Some(true));
    assert_eq!(items[1].get_str("content"), Some(blocked_tool_message("writer").as_str()));
}

#[test]
fn log_tool_call_names_handles_empty_and_null_names() {
    assert!(tool_call_names(&response(None, vec![])).is_empty());
    let names = tool_call_names(&response(None, vec![call("t1", ""), call("t2", "files")]));
    assert_eq!(names, vec!["(null)".to_string(), "files".to_string()]);
}

#[test]
fn append_assistant_tool_calls_accepts_valid_message() {
    let mut messages = Json::array(Vec::new());
    let valid = response(Some(r#"{"role":"assistant","tool_calls":[]}"#), vec![]);
    append_assistant_tool_calls(&mut messages, &valid).expect("append assistant");
    assert_eq!(messages.as_array().unwrap()[0].get_str("role"), Some("assistant"));
}

#[test]
fn an_interrupt_ends_a_round_at_its_checkpoint() {
    let mut interrupt = true;
    assert!(take_interrupt(&mut interrupt));
    assert!(!take_interrupt(&mut interrupt));

    interrupt = true;
    let (_, action) = IterationLoop::run(step(None), &mut interrupt);
    match action {
        IterationAction::Done(Ok(IterationOutcome::Preempted(p))) => {
            assert_eq!(p.checkpoint, IterationCheckpoint::BeforeLlmHttp);
            assert!(p.produced.is_none());
        }
        other => panic!("unexpected action: {other:?}"),
    }

    let (mut round, _) = IterationLoop::run(step(None), &mut interrupt);
    let aborted = ChatError { kind: ChatErrorKind::Transport, message: "request aborted".into() };
    match round.on_chat(Err(aborted), &mut interrupt) {
        IterationAction::Done(Ok(IterationOutcome::Preempted(p))) => {
            assert_eq!(p.checkpoint, IterationCheckpoint::InLlmHttpAbort);
        }
        other => panic!("unexpected action: {other:?}"),
    }

    let (mut round, _) = IterationLoop::run(step(None), &mut interrupt);
    let calls = vec![call("t1", "a"), call("t2", "b")];
    let _ = round.on_chat(Ok(response(Some(r#"{"role":"assistant"}"#), calls)), &mut interrupt);
    let _ = round.next_tool(&mut interrupt);
    let _ = round.on_tool(Ok(ToolOutput { output: "one".into(), ok: true }));
    interrupt = true;
    match round.next_tool(&mut interrupt) {
        IterationAction::Done(Ok(IterationOutcome::Preempted(p))) => {
            assert_eq!(p.checkpoint, IterationCheckpoint::BeforeTool);
            assert_eq!(p.produced.unwrap().0.as_array().unwrap().len(), 2);
        }
        other => panic!("unexpected action: {other:?}"),
    }
}

#[test]
fn failures_end_a_round() {
    let mut interrupt = false;
    let (mut round, _) = IterationLoop::run(step(None), &mut interrupt);
    let down = ChatError { kind: ChatErrorKind::Api, message: "down".into() };
    match round.on_chat(Err(down), &mut interrupt) {
        IterationAction::Done(Err(e)) => {
            assert_eq!(e.message(), "down");
            assert_eq!(e.debug(), "Chat(Api(\"down\"))");
        }
        other => panic!("unexpected action: {other:?}"),
    }

    let no_tools = IterationStep { has_tools: false, ..step(None) };
    let (mut round, _) = IterationLoop::run(no_tools, &mut interrupt);
    let asked = response(Some(r#"{"role":"assistant"}"#), vec![call("t1", "a")]);
    match round.on_chat(Ok(asked), &mut interrupt) {
        IterationAction::Done(Err(IterationLoopError::MissingTools)) => {}
        other => panic!("unexpected action: {other:?}"),
    }

    let (mut round, _) = IterationLoop::run(step(None), &mut interrupt);
    let asked = response(Some(r#"{"role":"assistant"}"#), vec![call("t1", "a")]);
    let _ = round.on_chat(Ok(asked), &mut interrupt);
    let _ = round.next_tool(&mut interrupt);
    match round.on_tool(Err(ToolError::InvokeFailed("no".into()))) {
        IterationAction::Done(Err(IterationLoopError::Tool(e))) => {
            assert_eq!(e.debug(), "InvokeFailed(\"no\")");
        }
        other => panic!("unexpected action: {other:?}"),
    }
}

#[test]
fn a_complete_round_answers_every_call() {
    let raw = r#"{"role":"assistant","tool_calls":[{"id":"t1"},{"id":"t2"}]}"#;
    let mut interrupt = false;
    let (mut round, _) = IterationLoop::run(step(None), &mut interrupt);
    let mut action =
        round.on_chat(Ok(response(Some(raw), vec![call("t1", "a"), call("t2", "b")])), &mut interrupt);
    let mut asked = Vec::new();
    let outcome = loop {
        action = match action {
            IterationAction::Checkpoint => round.next_tool(&mut interrupt),
            IterationAction::Invoke(c) => {
                asked.push(c.id.clone());
                round.on_tool(Ok(ToolOutput { output: format!("{} ran", c.name), ok: true }))
            }
            IterationAction::Done(Ok(IterationOutcome::Completed(done))) => match done.kind {
                CompletedKind::Tools(outcome) => break outcome,
                other => panic!("unexpected outcome: {other:?}"),
            },
            other => panic!("unexpected action: {other:?}"),
        };
    };
    assert_eq!(asked, vec!["t1".to_string(), "t2".to_string()]);
    assert!(!has_dangling_tool_calls(&outcome.appended.0));
    let items = outcome.appended.0.as_array().unwrap();
    assert_eq!(items.len(), 3);
    assert_eq!(items[2].get_str("content"), Some("b ran"));
    let cut = Json::array(vec![items[0].dup(), items[1].dup()]);
    assert!(has_dangling_tool_calls(&cut));
}

#[test]
fn appended_messages_grow_only_as_arrays() {
    let mut all = AppendedMessages::empty();
    assert!(all.as_produced_snapshot().is_none());
    all.extend(&AppendedMessages(parse_json("[1,2]").unwrap()));
    all.extend(&AppendedMessages(parse_json("{}").unwrap()));
    assert_eq!(all.0.as_array().unwrap().len(), 2);
}

#[test]
fn refusals_name_the_tool() {
    assert_eq!(
        blocked_tool_message("writer"),
        "Tool \"writer\" is not available in the current phase and was not executed. This is a policy \
         restriction, not a transient error: do not retry it. Use one of the tools listed as available in the \
         latest instructions instead."
    );
}
