use std::collections::VecDeque;

use claw_core::agent::agent::{
    builtin_kinds, builtin_manifest, AgentConfig, AgentConfigError, AgentManifest, AgentResolver, GenericAgent,
};
use claw_core::agent::append_child_result;
use claw_core::agent::base_agent::{
    AgentCommand, AgentRunError, AgentState, BaseAgent, CancelReason, SkillError, TickOutcome, TickStep,
    ToolGatingError,
};
use claw_core::agent::conversation_agent::{
    invoke_signal_tool, ConversationAgent, ConversationPhase, ConversationSignal,
};
use claw_core::agent::internal_tools::{
    end_conversation, request_approval, respond_to_approval, spawn_subagent, ApprovalVerdict, ControlSignal,
    SpawnPolicy,
};
use claw_core::agent::registry::{ApprovalResponse, TurnBook};
use claw_core::agent::worker_agent::{invoke_advance_stage, WorkerAgent, WorkerPhase};
use claw_core::error::{ChatError, ChatErrorKind};
use claw_core::iteration_loop::{IterationAction, IterationLoop, IterationStep};
use claw_core::json::{parse_json, Json};
use claw_core::llm::runtime::LlmRuntime;
use claw_core::llm::types::{ChatRequest, RuntimeConfig, ToolCall};
use claw_core::protocol::ids::AgentId;
use claw_core::tools::{AllowedTools, ToolError, ToolOutput, ToolSet, ToolSpec};

/// Runs the ticks of an agent against scripted answers of the model.
struct Driver {
    model: LlmRuntime,
    bodies: VecDeque<String>,
    sent: Vec<String>,
    signals: VecDeque<ControlSignal>,
    stages: VecDeque<ConversationSignal>,
    advances: u32,
    book: TurnBook,
}

impl Driver {
    fn new(bodies: Vec<String>) -> Driver {
        let config = RuntimeConfig {
            api_key: Some("sk-test".into()),
            backend_type: "openai_compatible".into(),
            model: Some("gpt-test".into()),
            base_url: Some("https://example.invalid".into()),
            supports_tools: true,
            ..Default::default()
        };
        Driver {
            model: LlmRuntime::init(&config).expect("init llm"),
            bodies: bodies.into_iter().collect(),
            sent: Vec::new(),
            signals: VecDeque::new(),
            stages: VecDeque::new(),
            advances: 0,
            book: TurnBook::new(AgentId(100)),
        }
    }

    fn invoke(&mut self, call: &ToolCall) -> Result<ToolOutput, ToolError> {
        let arguments = call.arguments_json.as_str();
        let fine = |output: String| Ok(ToolOutput { output, ok: true });
        match call.name.as_str() {
            "echo" => fine(format!("echo:{arguments}")),
            "writer" => fine("wrote".into()),
            "read_thing" => fine("read".into()),
            "end_conversation" => end_conversation(&mut self.signals, arguments),
            "request_approval" => request_approval(&mut self.signals, arguments),
            "understood" => invoke_signal_tool(&mut self.stages, ConversationSignal::Understood, arguments),
            "begin_execution" => invoke_signal_tool(&mut self.stages, ConversationSignal::BeginExecution, arguments),
            "compile_results" => invoke_signal_tool(&mut self.stages, ConversationSignal::CompileResults, arguments),
            "advance_stage" => Ok(invoke_advance_stage(&mut self.advances)),
            "spawn_subagent" => spawn_subagent(&mut self.book, AgentId(1), &SpawnPolicy::Any, arguments),
            "respond_to_approval" => respond_to_approval(&mut self.book, arguments),
            other => panic!("no such tool: {other}"),
        }
    }

    fn tick(&mut self, base: &mut BaseAgent) -> TickOutcome {
        let mut step = base.begin_tick();
        if step == TickStep::NeedSkills {
            step = base.on_skills(Ok(String::new()));
        }
        let iteration_id = match step {
            TickStep::Iterate(id) => id,
            TickStep::Done(outcome) => return outcome,
            TickStep::NeedSkills => panic!("the skills are there"),
        };
        let request = base.iteration_request();
        let messages = Json::array(request.messages);
        let round = IterationStep {
            iteration_id,
            has_tools: request.has_tools,
            allowed_tools: request.allowed_tools,
        };
        let mut interrupt = false;
        let (mut round, mut action) = IterationLoop::run(round, &mut interrupt);
        loop {
            action = match action {
                IterationAction::Chat => {
                    let chat = ChatRequest {
                        system_prompt: &request.system_prompt,
                        messages: &messages,
                        tools_json: request.tools_json.as_deref(),
                    };
                    self.sent.push(self.model.chat_request(&chat).expect("a request").body);
                    let body = self.bodies.pop_front().expect("the model was called too often");
                    let reply = self
                        .model
                        .chat_reply(&body)
                        .map_err(|e| ChatError { kind: ChatErrorKind::Api, message: e.message });
                    round.on_chat(reply, &mut interrupt)
                }
                IterationAction::Checkpoint => round.next_tool(&mut interrupt),
                IterationAction::Invoke(call) => {
                    let output = self.invoke(&call);
                    round.on_tool(output)
                }
                IterationAction::Done(result) => {
                    return base.finish_tick(result, self.signals.drain(..).collect());
                }
            };
        }
    }

    fn tick_conversation(&mut self, agent: &mut ConversationAgent) -> TickOutcome {
        let outcome = self.tick(&mut agent.base);
        let stages = self.stages.drain(..).collect();
        let spawned = !self.book.spawns.is_empty();
        self.book = TurnBook::new(AgentId(100));
        agent.settle(&outcome, &stages, spawned);
        outcome
    }

    fn tick_worker(&mut self, agent: &mut WorkerAgent) -> TickOutcome {
        let outcome = self.tick(&mut agent.base);
        let advances = self.advances;
        self.advances = 0;
        agent.settle(&outcome, advances);
        outcome
    }

    fn drive(&mut self, base: &mut BaseAgent) -> TickOutcome {
        loop {
            match self.tick(base) {
                TickOutcome::Working => continue,
                other => return other,
            }
        }
    }

    fn drive_conversation(&mut self, agent: &mut ConversationAgent) -> TickOutcome {
        loop {
            match self.tick_conversation(agent) {
                TickOutcome::Working => continue,
                other => return other,
            }
        }
    }

    fn drive_worker(&mut self, agent: &mut WorkerAgent) -> TickOutcome {
        loop {
            match self.tick_worker(agent) {
                TickOutcome::Working => continue,
                other => return other,
            }
        }
    }

    /// The text that the task ends with.
    fn run_to_completion(&mut self, base: &mut BaseAgent) -> String {
        match self.drive(base) {
            TickOutcome::Yielded { text } => text,
            TickOutcome::Ended { final_message } => final_message,
            other => panic!("unexpected outcome: {other:?}"),
        }
    }

    fn sent_messages(&self) -> Vec<Json> {
        let mut all = Vec::new();
        for body in &self.sent {
            all.push(parse_json(body).unwrap().get("messages").unwrap().dup());
        }
        all
    }
}

fn body_plain_text(text: &str) -> String {
    format!(r#"{{"choices":[{{"message":{{"role":"assistant","content":"{text}"}}}}]}}"#)
}

fn body_tool_call(id: &str, name: &str, arguments: &str) -> String {
    let arguments = arguments.replace('"', "\\\"");
    format!(
        r#"{{"choices":[{{"message":{{"role":"assistant","tool_calls":[{{"id":"{id}","function":{{"name":"{name}","arguments":"{arguments}"}}}}]}}}}]}}"#
    )
}

fn body_end_conversation(message: &str) -> String {
    body_tool_call("e1", "end_conversation", &format!(r#"{{"final_message":"{message}"}}"#))
}

fn caller_tools() -> ToolSet {
    let spec = |name: &str, schema: &str| ToolSpec { name: name.into(), schema: schema.into() };
    ToolSet::new(vec![
        spec("echo", r#"{"type":"function","function":{"name":"echo","description":"Echo"}}"#),
        spec("writer", r#"{"type":"function","function":{"name":"writer","description":"Write"}}"#),
    ])
    .expect("tool set")
}

fn allowed(names: &[&str]) -> AllowedTools {
    AllowedTools::new(names.iter().map(|n| n.to_string()).collect())
}

fn contents(base: &BaseAgent) -> Vec<String> {
    base.transcript.messages().iter().filter_map(|m| m.get_str("content")).map(str::to_string).collect()
}

fn no_dangling_tool_calls(base: &BaseAgent) -> bool {
    let mut expected: Vec<String> = Vec::new();
    let mut satisfied: Vec<String> = Vec::new();
    for message in base.transcript.messages() {
        if let Some(calls) = message.get_array("tool_calls") {
            expected.extend(calls.iter().filter_map(|c| c.get_str("id")).map(str::to_string));
        }
        if let Some(id) = message.get_str("tool_call_id") {
            satisfied.push(id.to_string());
        }
    }
    expected.iter().all(|id| satisfied.contains(id))
}

// Which tools may run.

fn gated_agent(names: &[&str]) -> BaseAgent {
    let mut agent = BaseAgent::builder(true).with_tools(caller_tools()).build().expect("build");
    agent.set_active_tools(allowed(names)).expect("gating while idle");
    agent
}

#[test]
fn disallowed_tool_is_refused_with_matched_error() {
    let mut driver = Driver::new(vec![body_tool_call("t1", "writer", "{}"), body_end_conversation("done")]);
    let mut agent = gated_agent(&["end_conversation"]);
    agent.run("go".into());
    assert_eq!(driver.run_to_completion(&mut agent), "done");

    assert!(no_dangling_tool_calls(&agent), "blocked call left dangling");
    let messages = agent.transcript.messages();
    let tool_message =
        messages.iter().find(|m| m.get_str("role") == Some("tool")).expect("a tool message was committed");
    assert_eq!(tool_message.get_str("tool_call_id"), Some("t1"));
    assert_eq!(tool_message.get("is_error").unwrap().as_bool(), Some(true));
    assert!(tool_message.get_str("content").unwrap().contains("not available in the current phase"));
}

#[test]
fn two_consecutive_blocks_fail_the_task() {
    let mut driver =
        Driver::new(vec![body_tool_call("t1", "writer", "{}"), body_tool_call("t2", "writer", "{}")]);
    let mut agent = gated_agent(&["end_conversation"]);
    agent.run("go".into());
    assert!(matches!(driver.tick(&mut agent), TickOutcome::Working));
    match driver.tick(&mut agent) {
        TickOutcome::Failed(AgentRunError::ToolNotPermitted { name }) => assert_eq!(name, "writer"),
        other => panic!("expected ToolNotPermitted, got {other:?}"),
    }
    assert!(!agent.is_running());
}

#[test]
fn clean_round_resets_block_counter() {
    let mut driver = Driver::new(vec![
        body_tool_call("t1", "writer", "{}"),
        body_tool_call("t2", "echo", "{}"),
        body_tool_call("t3", "writer", "{}"),
        body_end_conversation("done"),
    ]);
    let mut agent = gated_agent(&["echo", "end_conversation"]);
    agent.run("go".into());
    assert_eq!(driver.run_to_completion(&mut agent), "done");
}

#[test]
fn zero_retries_fails_on_first_block() {
    let mut driver = Driver::new(vec![body_tool_call("t1", "writer", "{}")]);
    let mut agent =
        BaseAgent::builder(true).with_tools(caller_tools()).with_tool_block_retries(0).build().expect("build");
    agent.set_active_tools(allowed(&["end_conversation"])).expect("gating while idle");
    agent.run("go".into());
    match driver.tick(&mut agent) {
        TickOutcome::Failed(AgentRunError::ToolNotPermitted { name }) => assert_eq!(name, "writer"),
        other => panic!("expected ToolNotPermitted, got {other:?}"),
    }
}

#[test]
fn blocked_rounds_in_a_row_fail_the_task_once_the_retries_are_used_up() {
    let retries = 3;
    let mut bodies = vec![body_tool_call("t0", "writer", "{}"), body_tool_call("t1", "echo", "{}")];
    bodies.extend((0..=retries).map(|n| body_tool_call(&format!("b{n}"), "writer", "{}")));
    let mut driver = Driver::new(bodies);
    let mut agent = BaseAgent::builder(true)
        .with_tools(caller_tools())
        .with_tool_block_retries(retries)
        .build()
        .expect("build");
    agent.set_active_tools(allowed(&["echo", "end_conversation"])).expect("gating while idle");
    agent.run("go".into());
    for blocks in [1, 0, 1, 2, 3] {
        assert_eq!(driver.tick(&mut agent), TickOutcome::Working);
        assert_eq!(agent.consecutive_tool_blocks, blocks);
    }
    assert_eq!(
        driver.tick(&mut agent),
        TickOutcome::Failed(AgentRunError::ToolNotPermitted { name: "writer".into() })
    );
    assert_eq!(agent.lifecycle, AgentState::Idle);
}

#[test]
fn built_agents_know_their_own_tools_once() {
    let names = |base: &BaseAgent| -> Vec<String> {
        let json = base.tools.as_ref().unwrap().schemas_json().expect("schemas");
        parse_json(&json)
            .unwrap()
            .as_array()
            .unwrap()
            .iter()
            .map(|t| t.get("function").unwrap().get_str("name").unwrap().to_string())
            .collect()
    };
    for base in [
        BaseAgent::builder(true).with_tools(caller_tools()).build().expect("build"),
        conversation().base,
        worker().base,
    ] {
        let known = names(&base);
        assert!(known.iter().any(|n| n == "end_conversation"));
        for (i, name) in known.iter().enumerate() {
            assert!(base.tools.as_ref().unwrap().contains(name));
            assert!(!known[..i].contains(name), "{name} twice");
        }
    }
}

#[test]
fn ungated_when_no_allow_set() {
    let mut driver = Driver::new(vec![body_tool_call("t1", "writer", "{}"), body_end_conversation("done")]);
    let mut agent = BaseAgent::builder(true).with_tools(caller_tools()).build().expect("build");
    agent.run("go".into());
    assert_eq!(driver.run_to_completion(&mut agent), "done");
    assert!(contents(&agent).iter().any(|c| c == "wrote"));
}

#[test]
fn gating_hides_no_schema_from_the_model() {
    let mut driver = Driver::new(vec![body_end_conversation("done")]);
    let mut agent = gated_agent(&["end_conversation"]);
    let before = agent.iteration_request();
    agent.set_tail_note("PHASE: intake.".into());
    let noted = agent.iteration_request();
    assert_eq!(noted.tools_json, before.tools_json);
    assert_eq!(noted.system_prompt, before.system_prompt);
    assert_eq!(noted.messages.len(), before.messages.len() + 1);

    agent.run("go".into());
    assert_eq!(driver.run_to_completion(&mut agent), "done");
    let tools = parse_json(&driver.sent[0]).unwrap().get("tools").expect("tools are sent").dup();
    let names: Vec<String> = tools
        .as_array()
        .unwrap()
        .iter()
        .map(|t| t.get("function").unwrap().get_str("name").unwrap().to_string())
        .collect();
    assert_eq!(names.len(), agent.tools.as_ref().unwrap().len());
    assert!(names.iter().any(|n| n == "writer"));
    assert!(names.iter().any(|n| n == "end_conversation"));
}

#[test]
fn clearing_gating_restores_ungated_and_no_note() {
    let mut driver = Driver::new(vec![body_tool_call("t1", "writer", "{}"), body_end_conversation("done")]);
    let mut agent = gated_agent(&["end_conversation"]);
    agent.clear_active_tools().expect("clear gating while idle");
    agent.set_tail_note("PHASE: should not appear".into());
    agent.clear_tail_note();

    agent.run("go".into());
    assert_eq!(driver.run_to_completion(&mut agent), "done");
    assert!(contents(&agent).iter().any(|c| c == "wrote"));
    for messages in driver.sent_messages() {
        assert!(messages
            .as_array()
            .unwrap()
            .iter()
            .all(|m| m.get_str("content") != Some("PHASE: should not appear")));
    }
}

#[test]
fn gating_change_rejected_once_task_is_queued() {
    let mut driver = Driver::new(vec![body_tool_call("t1", "writer", "{}"), body_end_conversation("done")]);
    let mut agent = gated_agent(&["end_conversation"]);
    agent.run("go".into());

    let rejected = agent.set_active_tools(allowed(&["writer"]));
    assert!(matches!(rejected, Err(ToolGatingError { state: AgentState::Running })));
    assert!(matches!(agent.clear_active_tools(), Err(ToolGatingError { .. })));

    assert_eq!(driver.run_to_completion(&mut agent), "done");
    assert!(!contents(&agent).iter().any(|c| c == "wrote"), "writer ran despite being gated out");
}

#[test]
fn tail_note_reaches_model_but_not_memory() {
    let note = "PHASE: intake. Available tools: echo.";
    let mut driver = Driver::new(vec![body_plain_text("hi there")]);
    let mut agent = BaseAgent::builder(true).build().expect("build");
    agent.set_tail_note(note.into());

    agent.run("hello".into());
    assert_eq!(driver.run_to_completion(&mut agent), "hi there");

    let sent = driver.sent_messages().pop().expect("one captured request");
    let last = sent.as_array().expect("messages array").last().expect("at least one message").dup();
    assert_eq!(last.get_str("role"), Some("user"));
    assert_eq!(last.get_str("content"), Some(note));

    let committed = contents(&agent);
    assert!(committed.iter().any(|c| c == "hello"));
    assert!(committed.iter().any(|c| c == "hi there"));
    assert!(!committed.iter().any(|c| c == note), "tail note leaked into memory");
}

// Agents built from a configuration.

/// Knows no tools and no skills.
struct StaticResolver;

impl AgentResolver for StaticResolver {
    fn resolve_tool(&self, _name: &str) -> Option<ToolSpec> {
        None
    }

    fn build_skills(&self, _skill_ids: &Vec<String>) -> Result<bool, SkillError> {
        Ok(false)
    }
}

#[test]
fn flat_agent_answers_directly() {
    let mut driver = Driver::new(vec![body_plain_text("hi")]);
    let config = AgentConfig::builder("conversation").with_system_prompt("be helpful".into()).build();
    let mut agent = GenericAgent::new(AgentId(1), true, config).unwrap();
    agent.base.send_command(AgentCommand::AppendMessage("hello".into())).unwrap();
    match driver.drive(&mut agent.base) {
        TickOutcome::Yielded { text } => assert_eq!(text, "hi"),
        other => panic!("unexpected: {other:?}"),
    }
    assert_eq!(agent.kind().as_str(), "conversation");
}

#[test]
fn end_conversation_ends_the_task() {
    let mut driver = Driver::new(vec![body_end_conversation("bye")]);
    let config = AgentConfig::builder("worker").build();
    let mut agent = GenericAgent::new(AgentId(1), true, config).unwrap();
    agent.base.send_command(AgentCommand::AppendMessage("go".into())).unwrap();
    match driver.drive(&mut agent.base) {
        TickOutcome::Ended { final_message } => assert_eq!(final_message, "bye"),
        other => panic!("unexpected: {other:?}"),
    }
}

#[test]
fn agent_child_result_is_appended_as_message() {
    let mut driver = Driver::new(vec![body_plain_text("ack")]);
    let config = AgentConfig::builder("conversation").build();
    let mut agent = GenericAgent::new(AgentId(1), true, config).unwrap();
    append_child_result(&mut agent.base, AgentId(7), "subtask output", true);
    let _ = driver.drive(&mut agent.base);
    assert!(contents(&agent.base).iter().any(|c| c.contains("[subagent agent-7 ok] subtask output")));
    assert_eq!(agent.memory().messages().len(), 2);
}

#[test]
fn respond_to_approval_tool_is_wired_when_a_responder_is_configured() {
    let mut driver = Driver::new(vec![
        body_tool_call(
            "a1",
            "respond_to_approval",
            r#"{"agent":"agent-7","verdict":"no","note":"too risky"}"#,
        ),
        body_plain_text("handled"),
    ]);
    let config = AgentConfig::builder("conversation").with_approval_responder().build();
    let mut agent = GenericAgent::new(AgentId(1), true, config).unwrap();
    assert!(agent.base.tools.as_ref().unwrap().contains("respond_to_approval"));
    agent.base.send_command(AgentCommand::AppendMessage("the user said no".into())).unwrap();
    let _ = driver.drive(&mut agent.base);
    assert_eq!(
        driver.book.responses,
        vec![ApprovalResponse {
            target: AgentId(7),
            verdict: ApprovalVerdict::No,
            note: Some("too risky".to_string()),
        }]
    );

    let plain = GenericAgent::new(AgentId(1), true, AgentConfig::builder("conversation").build()).unwrap();
    assert!(!plain.base.tools.as_ref().unwrap().contains("respond_to_approval"));
}

#[test]
fn builtin_manifests_resolve_with_a_resolver() {
    for kind in builtin_kinds() {
        let manifest = builtin_manifest(&kind).expect("manifest exists");
        let config = match AgentConfig::from_manifest(&kind, &manifest, &StaticResolver, false, false) {
            Ok(config) => config,
            Err(error) => panic!("kind {kind} failed: {}", error.message()),
        };
        assert_eq!(config.kind().as_str(), kind);
        assert!(!config.system_prompt.is_empty(), "kind {kind} has no prompt");
    }
}

#[test]
fn unknown_kind_has_no_manifest() {
    assert!(builtin_manifest("nope").is_none());
}

#[test]
fn kind_mismatch_is_rejected() {
    let manifest = builtin_manifest("worker").expect("worker manifest");
    let result = AgentConfig::from_manifest("conversation", &manifest, &StaticResolver, false, false);
    assert!(matches!(result, Err(AgentConfigError::KindMismatch { .. })));
}

#[test]
fn manifests_that_cannot_be_read_are_refused() {
    let good = AgentManifest {
        instructions: "Do it.",
        capabilities_json: r#"{"schema_version":1,"capabilities":[]}"#,
        skills_json: r#"{"schema_version":1,"skills":[]}"#,
        agent_json: r#"{"schema_version":1,"kind":"k","description":"d","spawn":{"enabled":true,"allowed_kinds":["*"]},"runtime":{"retries":4}}"#,
    };
    let config = match AgentConfig::from_manifest("k", &good, &StaticResolver, true, true) {
        Ok(config) => config,
        Err(e) => panic!("refused: {}", e.message()),
    };
    assert_eq!(config.system_prompt, "Do it.");
    assert!(matches!(config.spawn, Some(SpawnPolicy::Any)));
    assert!(config.responds_to_approvals);
    assert_eq!(config.retry_policy.retries, 4);
    let refused = |manifest: AgentManifest| match AgentConfig::from_manifest("k", &manifest, &StaticResolver, true, true)
    {
        Ok(_) => panic!("accepted"),
        Err(e) => e,
    };
    assert!(matches!(refused(AgentManifest { agent_json: "{", ..good }), AgentConfigError::Metadata(_)));
    assert!(matches!(refused(AgentManifest { capabilities_json: "[]", ..good }), AgentConfigError::Capabilities(_)));
    assert!(matches!(refused(AgentManifest { skills_json: "1", ..good }), AgentConfigError::Skills(_)));
    let unknown = AgentManifest { capabilities_json: r#"{"schema_version":1,"capabilities":["fly"]}"#, ..good };
    assert_eq!(refused(unknown), AgentConfigError::UnknownCapability("fly".into()));
}

// The conversation agent.

fn conversation() -> ConversationAgent {
    ConversationAgent::builder(AgentId(1), true).build().unwrap()
}

#[test]
fn starts_in_intake() {
    assert_eq!(conversation().phase, ConversationPhase::Intake);
}

#[test]
fn intake_can_answer_directly_and_stays_intake() {
    let mut driver = Driver::new(vec![body_plain_text("here you go")]);
    let mut agent = conversation();
    agent.base.send_command(AgentCommand::AppendMessage("question".into())).unwrap();
    match driver.drive_conversation(&mut agent) {
        TickOutcome::Yielded { text } => assert_eq!(text, "here you go"),
        other => panic!("unexpected: {other:?}"),
    }
    assert_eq!(agent.phase, ConversationPhase::Intake);
}

#[test]
fn understood_then_begin_execution_walks_intake_verify_delegate() {
    let mut driver = Driver::new(vec![
        body_tool_call("u1", "understood", r#"{"summary":"user wants X"}"#),
        body_tool_call("b1", "begin_execution", r#"{"plan":"plan"}"#),
    ]);
    let mut agent = ConversationAgent::builder(AgentId(1), true).with_spawning().build().unwrap();
    agent.base.send_command(AgentCommand::AppendMessage("go".into())).unwrap();
    assert!(matches!(driver.tick_conversation(&mut agent), TickOutcome::Working));
    assert_eq!(agent.phase, ConversationPhase::Verify);
    assert!(matches!(driver.tick_conversation(&mut agent), TickOutcome::Working));
    assert_eq!(agent.phase, ConversationPhase::Delegate);
}

#[test]
fn spawn_is_blocked_in_intake() {
    let mut driver = Driver::new(vec![
        body_tool_call("s1", "spawn_subagent", r#"{"goal":"sub task"}"#),
        body_end_conversation("stopping"),
    ]);
    let read = ToolSpec {
        name: "read_thing".into(),
        schema: r#"{"type":"function","function":{"name":"read_thing","description":"Read"}}"#.into(),
    };
    let mut agent =
        ConversationAgent::builder(AgentId(1), true).with_tools(vec![read]).with_spawning().build().unwrap();
    agent.base.send_command(AgentCommand::AppendMessage("go".into())).unwrap();
    match driver.drive_conversation(&mut agent) {
        TickOutcome::Ended { final_message } => assert_eq!(final_message, "stopping"),
        other => panic!("unexpected: {other:?}"),
    }
    assert_eq!(agent.phase, ConversationPhase::Intake);
    assert!(contents(&agent.base).iter().any(|c| c.contains("not available in the current phase")));
}

#[test]
fn end_conversation_ends() {
    let mut driver = Driver::new(vec![body_end_conversation("goodbye")]);
    let mut agent = conversation();
    agent.base.send_command(AgentCommand::AppendMessage("go".into())).unwrap();
    match driver.drive_conversation(&mut agent) {
        TickOutcome::Ended { final_message } => assert_eq!(final_message, "goodbye"),
        other => panic!("unexpected: {other:?}"),
    }
}

#[test]
fn conversation_agent_child_result_is_appended_as_message() {
    let mut driver = Driver::new(vec![body_plain_text("ack")]);
    let mut agent = conversation();
    append_child_result(&mut agent.base, AgentId(7), "subtask output", true);
    let _ = driver.drive_conversation(&mut agent);
    assert!(contents(&agent.base).iter().any(|c| c.contains("[subagent agent-7 ok] subtask output")));
}

#[test]
fn a_delegated_task_is_watched_and_then_reported() {
    let mut driver = Driver::new(vec![
        body_tool_call("u1", "understood", "{}"),
        body_tool_call("b1", "begin_execution", "{}"),
        body_tool_call("s1", "spawn_subagent", r#"{"kind":"worker","goal":"sub task"}"#),
        body_tool_call("c1", "compile_results", "{}"),
        body_plain_text("all done"),
    ]);
    let mut agent = ConversationAgent::builder(AgentId(1), true).with_spawning().build().unwrap();
    agent.base.send_command(AgentCommand::AppendMessage("go".into())).unwrap();
    let mut phases = Vec::new();
    for _ in 0..5 {
        let _ = driver.tick_conversation(&mut agent);
        phases.push(agent.phase());
    }
    assert_eq!(
        phases,
        vec![
            ConversationPhase::Verify,
            ConversationPhase::Delegate,
            ConversationPhase::Watch,
            ConversationPhase::Report,
            ConversationPhase::Intake,
        ]
    );
}

// The worker agent.

fn worker() -> WorkerAgent {
    WorkerAgent::builder(AgentId(1), true).build().unwrap()
}

#[test]
fn starts_in_plan() {
    assert_eq!(worker().phase, WorkerPhase::Plan);
}

#[test]
fn advance_stage_steps_plan_act_verify() {
    let mut driver = Driver::new(vec![
        body_tool_call("a1", "advance_stage", "{}"),
        body_tool_call("a2", "advance_stage", "{}"),
        body_plain_text("result"),
    ]);
    let mut agent = worker();
    agent.base.send_command(AgentCommand::AppendMessage("do it".into())).unwrap();
    assert!(matches!(driver.tick_worker(&mut agent), TickOutcome::Working));
    assert_eq!(agent.phase, WorkerPhase::Act);
    assert!(matches!(driver.tick_worker(&mut agent), TickOutcome::Working));
    assert_eq!(agent.phase, WorkerPhase::Verify);
    match driver.tick_worker(&mut agent) {
        TickOutcome::Yielded { text } => assert_eq!(text, "result"),
        other => panic!("unexpected: {other:?}"),
    }
    assert_eq!(agent.phase, WorkerPhase::Plan);
}

#[test]
fn append_runs_and_yields() {
    let mut driver = Driver::new(vec![body_plain_text("hi")]);
    let mut agent = worker();
    agent.base.send_command(AgentCommand::AppendMessage("go".into())).unwrap();
    match driver.drive_worker(&mut agent) {
        TickOutcome::Yielded { text } => assert_eq!(text, "hi"),
        other => panic!("unexpected: {other:?}"),
    }
}

#[test]
fn cancel_yields_cancelled() {
    let mut driver = Driver::new(Vec::new());
    let mut agent = worker();
    agent.base.send_command(AgentCommand::AppendMessage("go".into())).unwrap();
    agent.base.send_command(AgentCommand::Cancel { reason: CancelReason::UserRequested }).unwrap();
    match driver.tick_worker(&mut agent) {
        TickOutcome::Cancelled { reason } => assert_eq!(reason, CancelReason::UserRequested),
        other => panic!("unexpected: {other:?}"),
    }
}

#[test]
fn worker_agent_child_result_is_appended_as_message() {
    let mut driver = Driver::new(vec![body_plain_text("ack")]);
    let mut agent = worker();
    append_child_result(&mut agent.base, AgentId(2), "done", true);
    let _ = driver.drive_worker(&mut agent);
    assert!(contents(&agent.base).iter().any(|c| c.contains("[subagent agent-2 ok] done")));
}

#[test]
fn a_requested_approval_parks_the_worker() {
    let mut driver = Driver::new(vec![body_tool_call("r1", "request_approval", r#"{"summary":"delete?"}"#)]);
    let mut agent = worker();
    agent.base.send_command(AgentCommand::AppendMessage("go".into())).unwrap();
    match driver.drive_worker(&mut agent) {
        TickOutcome::AwaitingApproval { summary, .. } => assert_eq!(summary, "delete?"),
        other => panic!("unexpected: {other:?}"),
    }
}
