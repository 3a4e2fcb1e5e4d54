use std::cell::RefCell;
use std::collections::VecDeque;
use std::rc::Rc;

use claw_core::agent::agent::AgentKind;
use claw_core::agent::base_agent::{AgentCommand, AgentCommandError, ApprovalDecision, TickOutcome};
use claw_core::agent::internal_tools::ApprovalVerdict;
use claw_core::agent::registry::{
    Agent, AgentFactory, AgentRegistry, AgentTick, ApprovalRequest, ApprovalResponse, DriveOutput,
    ResolveApprovalError, RootReply, SpawnOrder,
};
use claw_core::json::Json;
use claw_core::orchestrator::{ApprovalError, ChannelsEgressOnly, Orchestrator, OutboundMessage};
use claw_core::orchestrator_instance::OrchestratorInstance;
use claw_core::protocol::ids::{AgentId, ApprovalId, SessionId};
use claw_core::session::{DeliverError, InboundMessage, SessionError};

const TEST_KIND: &str = "worker";
const MAX_STEPS: u64 = 1000;

type CommandLog = Rc<RefCell<Vec<(AgentId, AgentCommand)>>>;
type DeliveredLog = Rc<RefCell<Vec<(AgentId, String, bool)>>>;

/// What a scripted agent does on a turn.
enum Step {
    Work,
    Spawn(String),
    AwaitApproval(String),
    Respond(AgentId, ApprovalVerdict, Option<String>),
    Yield(String),
}

struct FakeAgent {
    id: AgentId,
    steps: VecDeque<Step>,
    delivered: DeliveredLog,
    received: CommandLog,
}

impl FakeAgent {
    fn scripted(id: AgentId, steps: Vec<Step>) -> FakeAgent {
        FakeAgent {
            id,
            steps: steps.into_iter().collect(),
            delivered: Rc::new(RefCell::new(Vec::new())),
            received: Rc::new(RefCell::new(Vec::new())),
        }
    }
}

fn just(outcome: TickOutcome) -> AgentTick {
    AgentTick { outcome, spawns: Vec::new(), responses: Vec::new() }
}

impl Agent for FakeAgent {
    fn id(&self) -> AgentId {
        self.id
    }

    fn send_command(&mut self, command: AgentCommand) -> Result<(), AgentCommandError> {
        self.received.borrow_mut().push((self.id, command));
        Ok(())
    }

    fn deliver_child_result(&mut self, child: AgentId, text: String, ok: bool) {
        self.delivered.borrow_mut().push((child, text, ok));
    }

    fn tick(&mut self, _first_child: AgentId) -> AgentTick {
        match self.steps.pop_front() {
            Some(Step::Work) => just(TickOutcome::Working),
            Some(Step::Spawn(goal)) => AgentTick {
                spawns: vec![SpawnOrder { kind: AgentKind::new(TEST_KIND), goal }],
                ..just(TickOutcome::Working)
            },
            Some(Step::AwaitApproval(summary)) => {
                just(TickOutcome::AwaitingApproval { id: ApprovalId(1), summary })
            }
            Some(Step::Respond(target, verdict, note)) => AgentTick {
                responses: vec![ApprovalResponse { target, verdict, note }],
                ..just(TickOutcome::Working)
            },
            Some(Step::Yield(text)) => just(TickOutcome::Yielded { text }),
            None => just(TickOutcome::Idle),
        }
    }

    fn transcript(&self) -> Option<Json> {
        None
    }
}

/// Makes children that yield `done:<goal>`: after a grandchild where the goal begins
/// with `deep:`, after an approval where it begins with `approve:`.
struct FakeFactory {
    delivered: DeliveredLog,
    received: CommandLog,
}

impl AgentFactory<FakeAgent> for FakeFactory {
    fn create_agent(&self, id: AgentId, _kind: &AgentKind, goal: String, _is_root: bool) -> Result<FakeAgent, String> {
        let mut steps = VecDeque::new();
        if let Some(rest) = goal.strip_prefix("deep:") {
            steps.push_back(Step::Spawn(rest.to_string()));
        }
        if let Some(rest) = goal.strip_prefix("approve:") {
            steps.push_back(Step::AwaitApproval(rest.to_string()));
        }
        steps.push_back(Step::Yield(format!("done:{goal}")));
        Ok(FakeAgent { id, steps, delivered: Rc::clone(&self.delivered), received: Rc::clone(&self.received) })
    }
}

fn registry_with_factory() -> (AgentRegistry<FakeAgent>, FakeFactory) {
    let factory =
        FakeFactory { delivered: Rc::new(RefCell::new(Vec::new())), received: Rc::new(RefCell::new(Vec::new())) };
    (AgentRegistry::new(), factory)
}

#[test]
fn root_spawns_child_and_receives_its_result() {
    let (mut registry, factory) = registry_with_factory();
    let root_id = registry.alloc_id();
    let root = FakeAgent::scripted(
        root_id,
        vec![Step::Spawn("subtask".into()), Step::Work, Step::Yield("final answer".into())],
    );
    let root_delivered = Rc::clone(&root.delivered);
    registry.add_root(root, AgentKind::new("conversation"), SessionId(1));

    let output = registry.run_until_idle(&factory, MAX_STEPS);

    assert_eq!(
        output.replies,
        vec![RootReply { session: SessionId(1), text: "final answer".into(), ended: false }]
    );
    assert!(output.approvals.is_empty());
    let delivered = root_delivered.borrow();
    assert_eq!(delivered.len(), 1);
    assert_eq!(delivered[0].1, "done:subtask");
    assert!(delivered[0].2);
    assert_eq!(registry.agent_count(), 1);
}

#[test]
fn subagent_can_itself_spawn_a_grandchild() {
    let (mut registry, factory) = registry_with_factory();
    let root_id = registry.alloc_id();
    let root = FakeAgent::scripted(root_id, vec![Step::Spawn("deep:leaf".into()), Step::Yield("ok".into())]);
    let root_delivered = Rc::clone(&root.delivered);
    registry.add_root(root, AgentKind::new("conversation"), SessionId(2));

    let output = registry.run_until_idle(&factory, MAX_STEPS);

    assert_eq!(output.replies.len(), 1);
    assert_eq!(output.replies[0].session, SessionId(2));
    assert!(factory.delivered.borrow().iter().any(|(_, text, _)| text == "done:leaf"));
    assert!(root_delivered.borrow().iter().any(|(_, text, _)| text == "done:deep:leaf"));
    assert_eq!(registry.agent_count(), 1);
}

#[test]
fn root_approval_is_surfaced_then_resolved_resumes_the_agent() {
    let (mut registry, factory) = registry_with_factory();
    let root_id = registry.alloc_id();
    let root = FakeAgent::scripted(
        root_id,
        vec![Step::AwaitApproval("delete prod?".into()), Step::Yield("done".into())],
    );
    registry.add_root(root, AgentKind::new("conversation"), SessionId(3));

    let output = registry.run_until_idle(&factory, MAX_STEPS);
    assert!(output.replies.is_empty());
    assert_eq!(
        output.approvals,
        vec![ApprovalRequest {
            session: SessionId(3),
            agent: root_id,
            approval: ApprovalId(1),
            summary: "delete prod?".into(),
        }]
    );

    registry.resolve_approval(root_id, ApprovalId(1), ApprovalDecision::Approved).expect("resolve approval");
    let output = registry.run_until_idle(&factory, MAX_STEPS);
    assert_eq!(output.replies.len(), 1);
    assert_eq!(output.replies[0].text, "done");
}

#[test]
fn resolve_approval_for_unknown_agent_errors() {
    let (mut registry, _factory) = registry_with_factory();
    let result = registry.resolve_approval(AgentId(999), ApprovalId(1), ApprovalDecision::Approved);
    assert!(matches!(result, Err(ResolveApprovalError::UnknownAgent(_))));
}

#[test]
fn spawner_allocates_unique_ascending_ids() {
    let (mut registry, _factory) = registry_with_factory();
    let a = registry.order(AgentId(1), AgentKind::new(TEST_KIND), "x".into()).unwrap();
    let b = registry.order(AgentId(1), AgentKind::new(TEST_KIND), "y".into()).unwrap();
    let c = registry.alloc_id();
    assert_ne!(a, b);
    assert_ne!(b, c);
    assert!(a.0 < b.0 && b.0 < c.0);
}

/// A root that lets its child park on an approval, and then answers it.
fn drive_subagent_approval(verdict: ApprovalVerdict, note: Option<String>) -> (CommandLog, DriveOutput) {
    let (mut registry, factory) = registry_with_factory();
    let root_id = registry.alloc_id();
    let root = FakeAgent {
        received: Rc::clone(&factory.received),
        ..FakeAgent::scripted(
            root_id,
            vec![Step::Work, Step::Respond(AgentId(2), verdict, note), Step::Yield("root-done".into())],
        )
    };
    registry.add_root(root, AgentKind::new("conversation"), SessionId(5));
    let child_id = registry.order(root_id, AgentKind::new(TEST_KIND), "approve:delete prod".into()).unwrap();
    assert_eq!(child_id, AgentId(2));
    let output = registry.run_until_idle(&factory, MAX_STEPS);
    (factory.received, output)
}

#[test]
fn subagent_approval_bubbles_to_root_not_to_the_orchestrator() {
    let (received, output) = drive_subagent_approval(ApprovalVerdict::Yes, None);
    assert!(output.approvals.is_empty());
    let asked = AgentCommand::AppendMessage("[approval request from agent-2] delete prod".into());
    assert!(received.borrow().iter().any(|(agent, command)| *agent == AgentId(1) && *command == asked));
    assert_eq!(output.replies.len(), 1);
    assert_eq!(output.replies[0].text, "root-done");
}

#[test]
fn root_yes_verdict_approves_the_waiting_subagent() {
    let (received, _output) = drive_subagent_approval(ApprovalVerdict::Yes, None);
    let approved = AgentCommand::ApprovalResult { id: ApprovalId(1), decision: ApprovalDecision::Approved };
    assert!(received.borrow().iter().any(|(agent, command)| *agent == AgentId(2) && *command == approved));
}

#[test]
fn root_no_and_other_verdicts_reject_with_the_user_note() {
    for verdict in [ApprovalVerdict::No, ApprovalVerdict::Other] {
        let (received, _output) = drive_subagent_approval(verdict, Some("not allowed".into()));
        let rejected = AgentCommand::ApprovalResult {
            id: ApprovalId(1),
            decision: ApprovalDecision::Rejected("not allowed".into()),
        };
        assert!(received.borrow().iter().any(|(agent, command)| *agent == AgentId(2) && *command == rejected));
    }
}

#[test]
fn a_subagent_that_cannot_be_made_is_dropped() {
    struct NoFactory;
    impl AgentFactory<FakeAgent> for NoFactory {
        fn create_agent(&self, _: AgentId, _: &AgentKind, _: String, _: bool) -> Result<FakeAgent, String> {
            Err("no".into())
        }
    }
    let (mut registry, _) = registry_with_factory();
    let root_id = registry.alloc_id();
    let root = FakeAgent::scripted(root_id, vec![Step::Spawn("x".into()), Step::Yield("end".into())]);
    let delivered = Rc::clone(&root.delivered);
    registry.add_root(root, AgentKind::new("conversation"), SessionId(1));
    let output = registry.run_until_idle(&NoFactory, MAX_STEPS);
    assert_eq!(output.replies.len(), 1);
    assert!(delivered.borrow().is_empty());
    assert_eq!(registry.agent_count(), 1);
}

#[test]
fn the_step_budget_is_kept() {
    let (mut registry, factory) = registry_with_factory();
    let root_id = registry.alloc_id();
    let root = FakeAgent::scripted(root_id, vec![Step::Work, Step::Work, Step::Yield("end".into())]);
    registry.add_root(root, AgentKind::new("conversation"), SessionId(1));
    assert!(registry.run_until_idle(&factory, 2).replies.is_empty());
    assert!(registry.has_ready());
    assert_eq!(registry.tick_once(&factory).replies[0].text, "end");
    assert!(!registry.has_ready());
}

// Sessions.

/// Answers each message with its echo.
struct EchoAgent {
    id: AgentId,
    pending: VecDeque<String>,
}

impl Agent for EchoAgent {
    fn id(&self) -> AgentId {
        self.id
    }

    fn send_command(&mut self, command: AgentCommand) -> Result<(), AgentCommandError> {
        if let AgentCommand::AppendMessage(message) = command {
            self.pending.push_back(message);
        }
        Ok(())
    }

    fn deliver_child_result(&mut self, _child: AgentId, _text: String, _ok: bool) {}

    fn tick(&mut self, _first_child: AgentId) -> AgentTick {
        match self.pending.pop_front() {
            Some(message) => just(TickOutcome::Yielded { text: format!("echo:{message}") }),
            None => just(TickOutcome::Idle),
        }
    }

    fn transcript(&self) -> Option<Json> {
        Some(Json::text("echo"))
    }
}

struct EchoFactory;

impl AgentFactory<EchoAgent> for EchoFactory {
    fn create_agent(&self, id: AgentId, _kind: &AgentKind, goal: String, _is_root: bool) -> Result<EchoAgent, String> {
        Ok(EchoAgent { id, pending: VecDeque::from([goal]) })
    }
}

struct FailFactory;

impl AgentFactory<EchoAgent> for FailFactory {
    fn create_agent(&self, _: AgentId, _: &AgentKind, _: String, _: bool) -> Result<EchoAgent, String> {
        Err("factory refused".into())
    }
}

/// Parks on an approval first, and yields once the decision is there.
struct ApprovalAgent {
    id: AgentId,
    asked: bool,
    approved: bool,
    done: bool,
    answer: &'static str,
}

impl Agent for ApprovalAgent {
    fn id(&self) -> AgentId {
        self.id
    }

    fn send_command(&mut self, command: AgentCommand) -> Result<(), AgentCommandError> {
        if matches!(command, AgentCommand::ApprovalResult { .. }) {
            self.approved = true;
        }
        Ok(())
    }

    fn deliver_child_result(&mut self, _child: AgentId, _text: String, _ok: bool) {}

    fn tick(&mut self, _first_child: AgentId) -> AgentTick {
        if !self.asked {
            self.asked = true;
            return just(TickOutcome::AwaitingApproval { id: ApprovalId(1), summary: "ok?".into() });
        }
        if self.approved && !self.done {
            self.done = true;
            return just(TickOutcome::Yielded { text: self.answer.into() });
        }
        just(TickOutcome::Idle)
    }

    fn transcript(&self) -> Option<Json> {
        None
    }
}

struct ApprovalFactory(&'static str);

impl AgentFactory<ApprovalAgent> for ApprovalFactory {
    fn create_agent(&self, id: AgentId, _: &AgentKind, _: String, _: bool) -> Result<ApprovalAgent, String> {
        Ok(ApprovalAgent { id, asked: false, approved: false, done: false, answer: self.0 })
    }
}

#[test]
fn first_message_builds_root_and_echoes_the_goal() {
    let mut instance = OrchestratorInstance::new(SessionId(1), 1);
    assert_eq!(instance.root, None);
    instance.deliver(&EchoFactory, "hi".into()).unwrap();
    assert!(instance.root.is_some());
    let output = instance.drive(&EchoFactory, MAX_STEPS);
    assert_eq!(output.replies.len(), 1);
    assert_eq!(output.replies[0].text, "echo:hi");
    assert_eq!(output.replies[0].session, SessionId(1));
}

#[test]
fn the_same_root_is_reused_across_messages() {
    let mut instance = OrchestratorInstance::new(SessionId(1), 1);
    instance.deliver(&EchoFactory, "first".into()).unwrap();
    let root = instance.root;
    let _ = instance.drive(&EchoFactory, MAX_STEPS);
    instance.deliver(&EchoFactory, "second".into()).unwrap();
    assert_eq!(instance.root, root, "root must be reused, not rebuilt");
    let output = instance.drive(&EchoFactory, MAX_STEPS);
    assert_eq!(output.replies[0].text, "echo:second");
    assert_eq!(instance.root_transcript(), Some(Json::text("echo")));
}

#[test]
fn a_failed_root_build_propagates_and_leaves_no_root() {
    let mut instance: OrchestratorInstance<EchoAgent> = OrchestratorInstance::new(SessionId(1), 1);
    let result = instance.deliver(&FailFactory, "hi".into());
    assert_eq!(result, Err("factory refused".to_string()));
    assert_eq!(instance.root, None, "a failed build must not set a root");
}

#[test]
fn an_approval_is_surfaced_then_resolved_resumes_the_root() {
    let factory = ApprovalFactory("approved");
    let mut instance = OrchestratorInstance::new(SessionId(7), 1);
    instance.deliver(&factory, "do it".into()).unwrap();
    let output = instance.drive(&factory, MAX_STEPS);
    assert!(output.replies.is_empty());
    assert_eq!(output.approvals.len(), 1);
    let approval = &output.approvals[0];
    assert_eq!(Some(approval.agent), instance.root);
    assert_eq!(approval.session, SessionId(7));
    instance.resolve_approval(approval.agent, approval.approval, ApprovalDecision::Approved).unwrap();
    let resumed = instance.drive(&factory, MAX_STEPS);
    assert_eq!(resumed.replies.len(), 1);
    assert_eq!(resumed.replies[0].text, "approved");
}

#[test]
fn instances_sharing_a_counter_allocate_distinct_root_ids() {
    let mut a: OrchestratorInstance<EchoAgent> = OrchestratorInstance::new(SessionId(1), 1);
    let mut b: OrchestratorInstance<EchoAgent> = OrchestratorInstance::new(SessionId(2), 1);
    a.deliver(&EchoFactory, "a".into()).unwrap();
    b.sync_ids(a.registry.next_id);
    b.deliver(&EchoFactory, "b".into()).unwrap();
    assert_ne!(a.root, b.root);
}

// The orchestrator.

fn user_msg(session_id: SessionId, text: &str) -> InboundMessage {
    InboundMessage {
        message_id: "m1".into(),
        channel: "qq".into(),
        chat_id: "chat-a".into(),
        sender_id: None,
        session_id: session_id.to_wire(),
        text: text.into(),
    }
}

fn orchestrator<A: Agent, F: AgentFactory<A>>(factory: F) -> Orchestrator<A, F, ChannelsEgressOnly<()>> {
    Orchestrator::builder().config_egress(()).with_agent_factory(factory).build(MAX_STEPS)
}

fn texts(sent: &[OutboundMessage]) -> Vec<String> {
    sent.iter().map(|m| m.text.clone()).collect()
}

#[test]
fn user_message_drives_root_and_replies() {
    let mut orch = orchestrator(EchoFactory);
    let session = orch.session_create();
    let sent = orch.push_user_message(user_msg(session, "hi"));
    assert_eq!(sent.len(), 1);
    assert_eq!(sent[0].text, "echo:hi");
    assert_eq!((sent[0].route.channel.as_str(), sent[0].route.chat_id.as_str()), ("qq", "chat-a"));
}

#[test]
fn second_message_reuses_the_same_session_root() {
    let mut orch = orchestrator(EchoFactory);
    let session = orch.session_create();
    let mut sent = orch.push_user_message(user_msg(session, "first"));
    sent.extend(orch.push_user_message(user_msg(session, "second")));
    assert_eq!(texts(&sent), vec!["echo:first".to_string(), "echo:second".to_string()]);
    assert_eq!(orch.instances.len(), 1);
    assert_eq!(orch.root_transcript(session), Some(Json::text("echo")));
}

#[test]
fn approval_is_surfaced_then_resolved_resumes_the_session() {
    let mut orch = orchestrator(ApprovalFactory("approved-done"));
    let session = orch.session_create();
    let surfaced = orch.push_user_message(user_msg(session, "do it"));
    assert_eq!(surfaced.len(), 1);
    assert!(surfaced[0].text.contains("[approval needed"));
    let resumed = orch
        .resolve_approval(session, AgentId(1), ApprovalId(1), ApprovalDecision::Approved)
        .expect("resolve approval");
    assert_eq!(resumed.len(), 1);
    assert_eq!(resumed[0].text, "approved-done");
}

#[test]
fn resolve_approval_for_unknown_session_errors() {
    let mut orch = orchestrator(ApprovalFactory("approved-done"));
    let result = orch.resolve_approval(SessionId(42), AgentId(1), ApprovalId(1), ApprovalDecision::Approved);
    assert!(matches!(result, Err(ApprovalError::UnknownSession(_))));
}

#[test]
fn two_sessions_have_independent_graphs() {
    let mut orch = orchestrator(EchoFactory);
    let s1 = orch.session_create();
    let s2 = orch.session_create();
    let mut sent = orch.push_user_message(user_msg(s1, "one"));
    sent.extend(orch.push_user_message(user_msg(s2, "two")));
    assert_eq!(orch.instances.len(), 2);
    let texts = texts(&sent);
    assert!(texts.contains(&"echo:one".to_string()));
    assert!(texts.contains(&"echo:two".to_string()));
    let roots: Vec<Option<AgentId>> = vec![orch.instances[&s1.0].root, orch.instances[&s2.0].root];
    assert_ne!(roots[0], roots[1]);
}

#[test]
fn builds_with_builtin_channels_and_factory() {
    let orch = Orchestrator::builder().with_builtin_channels().with_agent_factory(EchoFactory).build::<EchoAgent>(1);
    assert!(orch.instances.is_empty());
}

#[test]
fn messages_without_a_live_session_are_refused() {
    let mut orch = orchestrator(EchoFactory);
    let unnamed = InboundMessage { session_id: String::new(), ..user_msg(SessionId(1), "hi") };
    assert_eq!(orch.deliver_user_message(unnamed), Err(DeliverError::MissingSessionId));
    let broken = InboundMessage { session_id: "room-1".into(), ..user_msg(SessionId(1), "hi") };
    assert!(matches!(orch.deliver_user_message(broken), Err(DeliverError::InvalidSessionId(_))));
    assert_eq!(
        orch.deliver_user_message(user_msg(SessionId(1), "hi")),
        Err(DeliverError::SessionNotFound(SessionId(1)))
    );
    assert!(orch.push_user_message(user_msg(SessionId(1), "hi")).is_empty());
    let session = orch.session_create();
    assert_eq!(orch.deliver_command(session), Err(DeliverError::NoReplyRoute(session)));
    orch.push_user_message(user_msg(session, "hi"));
    assert_eq!(orch.deliver_command(session), Ok(()));
    assert_eq!(orch.session_count(), 1);
    assert_eq!(orch.session_delete(session), Ok(()));
    assert_eq!(orch.session_delete(session), Err(SessionError::NotFound(session)));
    assert!(orch.instances.is_empty());
    assert_ne!(orch.session_create(), session);
}

#[test]
fn a_session_whose_root_cannot_be_made_stays_silent() {
    let mut orch = orchestrator::<EchoAgent, FailFactory>(FailFactory);
    let session = orch.session_create();
    assert_eq!(orch.deliver_user_message(user_msg(session, "hi")), Ok(Vec::new()));
    assert_eq!(orch.root_transcript(session), None);
}

#[test]
fn a_route_leads_back_to_its_session() {
    let mut orch = orchestrator(EchoFactory);
    assert_eq!(orch.session_for_route("qq", "chat-a"), None);
    let first = orch.session_create();
    let second = orch.session_create();
    assert_eq!(orch.session_for_route("qq", "chat-a"), None);
    orch.push_user_message(user_msg(second, "hi"));
    assert_eq!(orch.session_for_route("qq", "chat-a"), Some(second));
    assert_eq!(orch.session_for_route("qq", "chat-b"), None);
    orch.push_user_message(user_msg(first, "hi"));
    assert_eq!(orch.session_for_route("qq", "chat-a"), Some(first));
    assert_eq!(orch.session_delete(first), Ok(()));
    assert_eq!(orch.session_for_route("qq", "chat-a"), Some(second));
}

#[test]
fn a_route_without_a_session_gets_one() {
    let mut orch = orchestrator(EchoFactory);
    let session = orch.session_of_route("qq", "chat-a");
    assert_eq!(orch.session_count(), 1);
    orch.push_user_message(user_msg(session, "hi"));
    assert_eq!(orch.session_of_route("qq", "chat-a"), session);
    assert_eq!(orch.session_count(), 1);
    assert_ne!(orch.session_of_route("qq", "chat-b"), session);
    assert_eq!(orch.session_count(), 2);
}

#[test]
fn a_message_leaves_the_other_sessions_alone() {
    let mut orch = orchestrator(EchoFactory);
    let first = orch.session_create();
    let second = orch.session_create();
    orch.push_user_message(user_msg(first, "one"));
    let next = orch.sessions.next;
    assert_eq!(texts(&orch.push_user_message(user_msg(second, "two"))), vec!["echo:two"]);
    assert_eq!((orch.sessions.next, orch.max_steps), (next, MAX_STEPS));
    assert_eq!(orch.session_delete(second), Ok(()));
    assert_eq!(orch.sessions.next, next);
    assert_eq!(texts(&orch.push_user_message(user_msg(first, "three"))), vec!["echo:three"]);
}
