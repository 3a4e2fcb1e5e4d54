use std::collections::VecDeque;

use claw_core::agent_loop::{Core, CoreConfig, LoopControl, ToolRound, Turn, TurnAction, TurnHooks};
use claw_core::callbacks::GateOutcome;
use claw_core::consts::{ContextKind, ResponseStatus, REQUEST_FLAG_USER_INTERRUPT};
use claw_core::errname::{ESP_ERR_NO_MEM, ESP_FAIL, ESP_OK};
use claw_core::error::{ChatError, ChatErrorKind, CoreError};
use claw_core::json::{make_text_message, parse_json, Json};
use claw_core::llm::runtime::LlmRuntime;
use claw_core::llm::types::{ChatRequest, LlmResponse, RuntimeConfig};
use claw_core::request::{RequestItem, ResponseItem};

const TOOL_CALL_BODY: &str = r#"{"choices":[{"message":{"role":"assistant","tool_calls":[{"id":"t1","function":{"name":"files","arguments":"{}"}}]}}]}"#;
const FINAL_BODY: &str = r#"{"choices":[{"message":{"role":"assistant","content":"all done"}}]}"#;

struct StaticProvider {
    kind: ContextKind,
    content: String,
}

fn config() -> CoreConfig {
    CoreConfig {
        instance_id: 1,
        system_prompt: "You are a test agent.".into(),
        max_tool_iterations: 5,
        request_queue_len: 4,
        response_queue_len: 4,
        max_context_providers: 4,
        task_stack_size: 0,
        task_priority: 0,
        task_core: 0,
    }
}

fn user_request(id: u32, text: &str) -> RequestItem {
    RequestItem {
        request_id: id,
        user_text: text.into(),
        session_id: Some("s1".into()),
        source_channel: Some("cli".into()),
        source_chat_id: Some("c1".into()),
        ..Default::default()
    }
}

fn addressed_request(id: u32, text: &str) -> RequestItem {
    RequestItem {
        target_channel: Some("out".into()),
        target_chat_id: Some("c9".into()),
        ..user_request(id, text)
    }
}

/// A running loop with scripted answers of the model.
struct Loop {
    core: Core<StaticProvider, ()>,
    model: LlmRuntime,
    bodies: VecDeque<String>,
    sent: Vec<String>,
    gate: Option<GateOutcome>,
    call_cap: bool,
}

impl Loop {
    fn started(config: CoreConfig, bodies: Vec<&str>) -> Loop {
        let runtime = RuntimeConfig {
            api_key: Some("sk-test".into()),
            backend_type: "openai_compatible".into(),
            model: Some("gpt-test".into()),
            base_url: Some("https://example.invalid".into()),
            supports_tools: true,
            ..Default::default()
        };
        let mut core = Core::create(config);
        assert_eq!(core.start(), LoopControl::Spawn);
        Loop {
            core,
            model: LlmRuntime::init(&runtime).unwrap(),
            bodies: bodies.into_iter().map(String::from).collect(),
            sent: Vec::new(),
            gate: None,
            call_cap: true,
        }
    }

    fn prompt(&self) -> String {
        let mut prompt = self.core.system_prompt.clone();
        for provider in &self.core.providers {
            if provider.kind == ContextKind::SystemPrompt {
                prompt.push_str(&provider.content);
            }
        }
        prompt
    }

    fn chat(&mut self, messages: &Json) -> Result<LlmResponse, ChatError> {
        let prompt = self.prompt();
        let request = ChatRequest { system_prompt: &prompt, messages, tools_json: None };
        self.sent.push(self.model.chat_request(&request).unwrap().body);
        let body = self.bodies.pop_front().unwrap_or_else(|| {
            r#"{"choices":[{"message":{"role":"assistant","content":"fallback"}}]}"#.to_string()
        });
        self.model.chat_reply(&body).map_err(|e| ChatError { kind: ChatErrorKind::Api, message: e.message })
    }

    /// Serves one request; `between` runs before each tool.
    fn serve(&mut self, between: fn(&mut Core<StaticProvider, ()>)) {
        let request = self.core.state.request_queue.recv_timeout(Some(0)).expect("a request waits");
        let hooks = TurnHooks {
            gate: self.gate.is_some(),
            start: false,
            persist: false,
            stage_note: false,
            call_cap: self.call_cap,
        };
        let mut turn = Turn::new(request, hooks, self.core.state.max_tool_iterations);
        let mut asked: Option<LlmResponse> = None;
        let mut action = turn.begin(&mut self.core.state);
        loop {
            action = match action {
                TurnAction::AskGate => turn.on_gate(self.gate.take().expect("a gate")),
                TurnAction::NotifyStart => turn.on_started(ESP_OK),
                TurnAction::CollectStartContexts => turn.on_start_contexts(&mut self.core.state, Ok(false)),
                TurnAction::BuildContext { .. } => turn.on_context(&mut self.core.state, Ok(())),
                TurnAction::Chat => {
                    let mut messages = vec![make_text_message("user", &turn.request.user_text)];
                    messages.extend(turn.messages.iter().map(Json::dup));
                    let reply = self.chat(&Json::array(messages));
                    asked = reply.as_ref().ok().map(|r| LlmResponse {
                        text: r.text.clone(),
                        reasoning_content: None,
                        raw_message_json: r.raw_message_json.clone(),
                        tool_calls: r.tool_calls.clone(),
                    });
                    turn.on_chat(&mut self.core.state, reply)
                }
                TurnAction::CollectStageNote { .. } => turn.on_stage_note(),
                TurnAction::MakeAssistantMessage => {
                    let raw = asked.as_ref().unwrap().raw_message_json.clone().unwrap();
                    turn.on_assistant_message(Ok(parse_json(&raw).unwrap()))
                }
                TurnAction::RunTools => {
                    between(&mut self.core);
                    let mut messages = Vec::new();
                    for call in &asked.as_ref().unwrap().tool_calls {
                        messages.push(make_text_message("tool", &format!("{} done", call.name)));
                    }
                    turn.on_tools(&mut self.core.state, Ok(ToolRound { messages, results_json: "[]".into() }))
                }
                TurnAction::Finish => break,
                other => panic!("nothing persists: {other:?}"),
            };
        }
        let _ = turn.conclude();
        let finish = turn.finish(&mut self.core.state, 0, false);
        assert!(finish.push_response);
        self.core.state.response_push(turn.response);
    }
}

fn nothing(_core: &mut Core<StaticProvider, ()>) {}

#[test]
fn single_turn_plain_text() {
    let mut l = Loop::started(config(), vec![FINAL_BODY]);
    assert_eq!(l.core.submit(user_request(1, "hi"), 1000), Ok(()));
    l.serve(nothing);
    let resp = l.core.receive_for(1, 2000).unwrap();
    assert_eq!(resp.status, ResponseStatus::Success);
    assert_eq!(resp.text.as_deref(), Some("all done"));
    assert_eq!(l.core.stop(), LoopControl::Join);
}

#[test]
fn tool_loop_then_final() {
    let mut l = Loop::started(config(), vec![TOOL_CALL_BODY, FINAL_BODY]);
    assert_eq!(l.core.submit(user_request(7, "do work"), 1000), Ok(()));
    l.serve(nothing);
    let resp = l.core.receive_for(7, 2000).unwrap();
    assert_eq!(resp.status, ResponseStatus::Success);
    assert_eq!(resp.text.as_deref(), Some("all done"));
    assert!(l.sent[1].contains("files done"));
    assert_eq!(l.core.stop(), LoopControl::Join);
}

#[test]
fn iteration_limit_reached() {
    let limited = CoreConfig { max_tool_iterations: 2, ..config() };
    let mut l = Loop::started(limited, vec![TOOL_CALL_BODY, TOOL_CALL_BODY]);
    assert_eq!(l.core.submit(user_request(9, "loop"), 1000), Ok(()));
    l.serve(nothing);
    let resp = l.core.receive_for(9, 2000).unwrap();
    assert_eq!(resp.status, ResponseStatus::Error);
    assert_eq!(resp.error_message.as_deref(), Some("cap tool iteration limit reached"));
    assert_eq!(l.core.stop(), LoopControl::Join);
}

#[test]
fn provider_injects_system_prompt() {
    let mut core: Core<StaticProvider, ()> = Core::create(config());
    let provider =
        StaticProvider { kind: ContextKind::SystemPrompt, content: "extra instructions".into() };
    assert_eq!(core.add_context_provider(provider), ESP_OK);
    let mut l = Loop::started(config(), vec![FINAL_BODY]);
    l.core.providers = core.providers;
    assert_eq!(l.core.submit(user_request(3, "hi"), 1000), Ok(()));
    l.serve(nothing);
    let resp = l.core.receive_for(3, 2000).unwrap();
    assert_eq!(resp.text.as_deref(), Some("all done"));
    assert!(l.sent[0].contains("extra instructions"));
    assert_eq!(l.core.stop(), LoopControl::Join);
}

#[test]
fn user_interrupt_inserts_message() {
    let mut l = Loop::started(config(), vec![TOOL_CALL_BODY, FINAL_BODY]);
    assert_eq!(l.core.submit(user_request(11, "first"), 1000), Ok(()));
    l.serve(|core| {
        let mut interrupt = user_request(12, "second");
        interrupt.flags = REQUEST_FLAG_USER_INTERRUPT;
        assert_eq!(core.submit(interrupt, 100), Ok(()));
    });
    let resp = l.core.receive_for(11, 2000).unwrap();
    assert_eq!(resp.status, ResponseStatus::Success);
    assert!(l.sent[1].contains("second"));
    assert_eq!(l.core.stop(), LoopControl::Join);
}

#[test]
fn a_rejected_request_is_answered_with_the_message() {
    let mut l = Loop::started(config(), vec![]);
    l.gate = Some(GateOutcome::Reject("session is full".into()));
    assert_eq!(l.core.submit(user_request(1, "hi"), 1000), Ok(()));
    l.serve(nothing);
    let resp = l.core.receive_for(1, 2000).unwrap();
    assert_eq!(resp.error_message.as_deref().or(resp.text.as_deref()), Some("session is full"));
    assert!(l.sent.is_empty());
}

#[test]
fn a_failed_chat_is_answered_with_an_error() {
    let mut l = Loop::started(config(), vec!["no json"]);
    assert_eq!(l.core.submit(user_request(1, "hi"), 1000), Ok(()));
    l.serve(nothing);
    let resp = l.core.receive_for(1, 2000).unwrap();
    assert_eq!(resp.status, ResponseStatus::Error);
    assert_eq!(resp.error_message.as_deref(), Some("Failed to parse LLM JSON response"));
}

#[test]
fn the_loop_starts_once_and_stops() {
    let mut core: Core<StaticProvider, ()> = Core::create(config());
    assert!(!core.is_started());
    assert_eq!(core.start(), LoopControl::Spawn);
    assert!(core.is_started());
    assert_eq!(core.start(), LoopControl::Done(ESP_OK));
    assert_eq!(core.stop(), LoopControl::Join);
    assert!(!core.keeps_running());

    let mut core: Core<StaticProvider, ()> = Core::create(config());
    assert_eq!(core.start(), LoopControl::Spawn);
    assert_eq!(core.start_failed(), ESP_FAIL);
    assert!(!core.is_started());
}

#[test]
fn only_so_many_providers_fit() {
    let mut core: Core<StaticProvider, ()> = Core::create(CoreConfig { max_context_providers: 1, ..config() });
    let provider = || StaticProvider { kind: ContextKind::Messages, content: String::new() };
    assert_eq!(core.add_context_provider(provider()), ESP_OK);
    assert_eq!(core.add_context_provider(provider()), ESP_ERR_NO_MEM);
    assert_eq!(core.add_completion_observer(()), ESP_OK);
}

fn assert_addressed(response: &ResponseItem, id: u32) {
    assert_eq!(response.request_id, id);
    assert_eq!(response.target_channel.as_deref(), Some("out"));
    assert_eq!(response.target_chat_id.as_deref(), Some("c9"));
}

#[test]
fn every_failure_is_addressed_to_its_request() {
    let limited = CoreConfig { max_tool_iterations: 1, ..config() };
    let mut l = Loop::started(limited, vec![TOOL_CALL_BODY]);
    assert_eq!(l.core.submit(addressed_request(21, "loop"), 1000), Ok(()));
    l.serve(nothing);
    let resp = l.core.receive_for(21, 2000).unwrap();
    assert_addressed(&resp, 21);
    assert_eq!((resp.status, resp.text), (ResponseStatus::Error, None));
    assert_eq!(resp.error_message.as_deref(), Some("cap tool iteration limit reached"));

    let mut l = Loop::started(config(), vec![TOOL_CALL_BODY]);
    l.call_cap = false;
    assert_eq!(l.core.submit(addressed_request(22, "call"), 1000), Ok(()));
    l.serve(nothing);
    let resp = l.core.receive_for(22, 2000).unwrap();
    assert_addressed(&resp, 22);
    assert_eq!((resp.status, resp.text), (ResponseStatus::Error, None));
    assert_eq!(resp.error_message.as_deref(), Some("ESP_ERR_INVALID_STATE"));

    let mut l = Loop::started(config(), vec!["no json"]);
    assert_eq!(l.core.submit(addressed_request(23, "hi"), 1000), Ok(()));
    l.serve(nothing);
    let resp = l.core.receive_for(23, 2000).unwrap();
    assert_addressed(&resp, 23);
    assert_eq!((resp.status, resp.text), (ResponseStatus::Error, None));
}

#[test]
fn completions_and_rejections_are_addressed_to_their_request() {
    let mut l = Loop::started(config(), vec![FINAL_BODY]);
    assert_eq!(l.core.submit(addressed_request(31, "hi"), 1000), Ok(()));
    l.serve(nothing);
    let resp = l.core.receive_for(31, 2000).unwrap();
    assert_addressed(&resp, 31);
    assert_eq!(resp.text.as_deref(), Some("all done"));

    l.gate = Some(GateOutcome::Reject("session is full".into()));
    assert_eq!(l.core.submit(addressed_request(32, "hi"), 1000), Ok(()));
    l.serve(nothing);
    assert_addressed(&l.core.receive_for(32, 2000).unwrap(), 32);
}

#[test]
fn a_loop_that_has_not_started_refuses_at_once() {
    let mut core: Core<StaticProvider, ()> = Core::create(CoreConfig { request_queue_len: 1, ..config() });
    assert_eq!(core.submit(user_request(1, "hi"), u32::MAX), Err(CoreError::InvalidState));
}
