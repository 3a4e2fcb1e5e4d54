//! The agents of a session and how they depend on each other.
//!
//! Every agent but a root was asked for by another one, its parent. Agents are
//! kept side by side, each with the id of its parent. An agent that is ready gets
//! its turn in the order in which it became ready. While an agent runs, the
//! subagents that it asks for and the verdicts that it reports only wait; they are
//! made and passed on once the agent's turn is over.

use std::collections::{HashMap, VecDeque};

use vstd::prelude::*;

use super::agent::AgentKind;
use super::base_agent::{AgentCommand, AgentCommandError, ApprovalDecision, TickOutcome};
use super::internal_tools::{ApprovalResponder, ApprovalVerdict, Spawner};
use crate::json::Json;
use crate::protocol::ids::{AgentId, ApprovalId, SessionId};
use crate::text::{concat3, opt_view};

verus! {

broadcast use vstd::std_specs::hash::group_hash_axioms;

/// A subagent that was asked for.
#[derive(Debug, PartialEq, Eq)]
pub struct SpawnRequest {
    pub id: AgentId,
    pub parent: AgentId,
    pub kind: AgentKind,
    pub goal: String,
}

/// A verdict that was reported.
#[derive(Debug, PartialEq, Eq)]
pub struct ApprovalResponse {
    pub target: AgentId,
    pub verdict: ApprovalVerdict,
    pub note: Option<String>,
}

/// A subagent that an agent asks for within its turn.
#[derive(Debug, PartialEq, Eq)]
pub struct SpawnOrder {
    pub kind: AgentKind,
    pub goal: String,
}

/// What an agent did in its turn.
#[derive(Debug, PartialEq, Eq)]
pub struct AgentTick {
    pub outcome: TickOutcome,
    /// The subagents that it asks for. The first one gets the id that the agent was
    /// given for its turn, the others the ids that follow.
    pub spawns: Vec<SpawnOrder>,
    /// The verdicts that it reports.
    pub responses: Vec<ApprovalResponse>,
}

/// What the registry drives an agent through. Each kind of agent implements it.
pub trait Agent: Sized {
    /// Whether the agent may give this as the id that it goes by.
    open spec fn goes_by(&self, id: AgentId) -> bool {
        true
    }

    /// Whether an agent may answer a command with `reply` and be `after` then.
    open spec fn takes(&self, command: AgentCommand, reply: Result<(), AgentCommandError>, after: Self) -> bool {
        true
    }

    /// Whether an agent may be `after` once it was handed the result of a subagent.
    open spec fn hears(&self, child: AgentId, text: String, ok: bool, after: Self) -> bool {
        true
    }

    /// Whether an agent may make this of its turn and be `after` then.
    open spec fn acts(&self, first_child: AgentId, tick: AgentTick, after: Self) -> bool {
        true
    }

    /// Whether the agent may show this conversation.
    open spec fn shows(&self, conversation: Option<Json>) -> bool {
        true
    }

    fn id(&self) -> (r: AgentId)
        ensures
            self.goes_by(r),
    ;

    fn send_command(&mut self, command: AgentCommand) -> (r: Result<(), AgentCommandError>)
        ensures
            old(self).takes(command, r, *final(self)),
    ;

    /// Hands the agent the result of one of its subagents.
    fn deliver_child_result(&mut self, child: AgentId, text: String, ok: bool)
        ensures
            old(self).hears(child, text, ok, *final(self)),
    ;

    /// The agent's turn. `first_child` is the id of the first subagent that it asks for.
    fn tick(&mut self, first_child: AgentId) -> (r: AgentTick)
        ensures
            old(self).acts(first_child, r, *final(self)),
    ;

    /// The agent's conversation, where it keeps one.
    fn transcript(&self) -> (r: Option<Json>)
        ensures
            self.shows(r),
    ;
}

/// Makes agents. The host implements it.
pub trait AgentFactory<A> {
    /// Whether the factory may give this for an agent that it is asked for.
    open spec fn makes(&self, id: AgentId, kind: AgentKind, goal: String, is_root: bool, made: Result<A, String>) -> bool {
        true
    }

    /// Makes an agent of a kind for a goal. A root is the one that talks to the user
    /// and reports verdicts.
    fn create_agent(&self, id: AgentId, kind: &AgentKind, goal: String, is_root: bool) -> (r: Result<A, String>)
        ensures
            self.makes(id, *kind, goal, is_root, r),
    ;
}

/// Notes the subagents and verdicts of an agent's turn.
#[derive(Debug)]
pub struct TurnBook {
    pub first_child: AgentId,
    pub spawns: Vec<SpawnOrder>,
    pub responses: Vec<ApprovalResponse>,
}

impl TurnBook {
    pub fn new(first_child: AgentId) -> (r: TurnBook)
        ensures
            r.first_child == first_child,
            r.spawns@.len() == 0,
            r.responses@.len() == 0,
    {
        TurnBook { first_child, spawns: Vec::new(), responses: Vec::new() }
    }
}

impl Spawner for TurnBook {
    open spec fn spawns(&self, parent: AgentId, kind: AgentKind, goal: String, child: AgentId, after: TurnBook) -> bool {
        &&& child == child_id(self.first_child, self.spawns@.len())
        &&& after.first_child == self.first_child
        &&& after.spawns@ == self.spawns@.push(SpawnOrder { kind, goal })
        &&& after.responses == self.responses
    }

    fn spawn(&mut self, parent: AgentId, kind: AgentKind, goal: String) -> (r: AgentId) {
        let id = AgentId(self.first_child.0.saturating_add(self.spawns.len()));
        self.spawns.push(SpawnOrder { kind, goal });
        id
    }
}

impl ApprovalResponder for TurnBook {
    open spec fn notes(&self, target: AgentId, verdict: ApprovalVerdict, note: Option<String>, after: TurnBook) -> bool {
        &&& after.first_child == self.first_child
        &&& after.spawns == self.spawns
        &&& after.responses@ == self.responses@.push(ApprovalResponse { target, verdict, note })
    }

    fn respond(&mut self, target: AgentId, verdict: ApprovalVerdict, note: Option<String>) {
        self.responses.push(ApprovalResponse { target, verdict, note });
    }
}

/// The id of the `n`th subagent after `first`.
pub open spec fn child_id(first: AgentId, n: nat) -> AgentId {
    AgentId(
        if first.0 + n <= usize::MAX {
            (first.0 + n) as usize
        } else {
            usize::MAX
        },
    )
}

/// An agent and its place.
pub struct Node<A> {
    pub agent: A,
    pub kind: AgentKind,
    pub parent: Option<AgentId>,
    pub session: SessionId,
    pub depth: u16,
}

/// The place of an agent.
#[verifier::ext_equal]
pub struct Edge {
    pub kind: Seq<char>,
    pub parent: Option<AgentId>,
    pub session: SessionId,
    pub depth: u16,
}

/// The place of a node.
pub open spec fn edge_of<A>(n: Node<A>) -> Edge {
    Edge { kind: n.kind@, parent: n.parent, session: n.session, depth: n.depth }
}

/// What a root says to the user.
#[derive(Clone, Debug, PartialEq, Eq)]
pub struct RootReply {
    pub session: SessionId,
    pub text: String,
    /// Whether the root's task is over.
    pub ended: bool,
}

/// A decision that a root waits for.
#[derive(Clone, Debug, PartialEq, Eq)]
pub struct ApprovalRequest {
    pub session: SessionId,
    pub agent: AgentId,
    pub approval: ApprovalId,
    pub summary: String,
}

/// What the turns of agents give to the user.
#[derive(Debug, PartialEq, Eq)]
pub struct DriveOutput {
    pub replies: Vec<RootReply>,
    pub approvals: Vec<ApprovalRequest>,
}

impl Default for DriveOutput {
    fn default() -> (r: DriveOutput)
        ensures
            r.replies@.len() == 0,
            r.approvals@.len() == 0,
    {
        DriveOutput { replies: Vec::new(), approvals: Vec::new() }
    }
}

impl DriveOutput {
    /// Nothing.
    pub open spec fn empty(self) -> bool {
        self.replies@.len() == 0 && self.approvals@.len() == 0
    }

    /// Adds what another step gave.
    pub fn absorb(&mut self, other: DriveOutput)
        ensures
            final(self).replies@ == old(self).replies@ + other.replies@,
            final(self).approvals@ == old(self).approvals@ + other.approvals@,
    {
        let mut replies = other.replies;
        let mut approvals = other.approvals;
        self.replies.append(&mut replies);
        self.approvals.append(&mut approvals);
    }
}

/// Why a decision did not reach an agent.
#[derive(Clone, Copy, Debug, PartialEq, Eq, Structural)]
pub enum ResolveApprovalError {
    UnknownAgent(AgentId),
    Command(AgentCommandError),
}

impl ResolveApprovalError {
    /// The text of the error.
    pub open spec fn text(self) -> Seq<char> {
        match self {
            ResolveApprovalError::UnknownAgent(id) => "no agent "@ + id.wire() + " to resolve approval for"@,
            ResolveApprovalError::Command(e) => e.text(),
        }
    }

    pub fn message(&self) -> (r: String)
        ensures
            r@ == self.text(),
    {
        match self {
            ResolveApprovalError::UnknownAgent(id) => concat3(
                "no agent ",
                id.to_wire().as_str(),
                " to resolve approval for",
            ),
            ResolveApprovalError::Command(e) => e.message(),
        }
    }
}

/// The agents of a session.
pub struct AgentRegistry<A> {
    pub nodes: HashMap<usize, Node<A>>,
    pub ready: VecDeque<AgentId>,
    pub next_id: usize,
    pub pending: VecDeque<SpawnRequest>,
    /// The root of each session.
    pub roots: HashMap<usize, AgentId>,
    /// The approval that each waiting agent asked for.
    pub parked_approvals: HashMap<usize, ApprovalId>,
    pub approval_pending: VecDeque<ApprovalResponse>,
}

/// What an [`AgentRegistry`] holds.
#[verifier::ext_equal]
pub struct RegistryV<A> {
    pub nodes: Map<usize, Node<A>>,
    pub ready: Seq<AgentId>,
    pub next_id: usize,
    pub pending: Seq<SpawnRequest>,
    pub roots: Map<usize, AgentId>,
    pub parked: Map<usize, ApprovalId>,
    pub verdicts: Seq<ApprovalResponse>,
}

impl<A> View for AgentRegistry<A> {
    type V = RegistryV<A>;

    open spec fn view(&self) -> RegistryV<A> {
        RegistryV {
            nodes: self.nodes@,
            ready: self.ready@,
            next_id: self.next_id,
            pending: self.pending@,
            roots: self.roots@,
            parked: self.parked_approvals@,
            verdicts: self.approval_pending@,
        }
    }
}

impl<A> RegistryV<A> {
    /// No agents; the first one gets the id `next_id`.
    pub open spec fn fresh(next_id: usize) -> RegistryV<A> {
        RegistryV {
            nodes: Map::empty(),
            ready: Seq::empty(),
            next_id,
            pending: Seq::empty(),
            roots: Map::empty(),
            parked: Map::empty(),
            verdicts: Seq::empty(),
        }
    }

    /// With an agent in the place of the one that goes by `id`.
    pub open spec fn with_agent(self, id: AgentId, agent: A) -> RegistryV<A> {
        RegistryV { nodes: self.nodes.insert(id.0, Node { agent, ..self.nodes[id.0] }), ..self }
    }

    /// With an agent at a place.
    pub open spec fn with_node(self, id: AgentId, node: Node<A>) -> RegistryV<A> {
        RegistryV { nodes: self.nodes.insert(id.0, node), ..self }
    }

    /// With no verdicts that wait.
    pub open spec fn without_verdicts(self) -> RegistryV<A> {
        RegistryV { verdicts: Seq::empty(), ..self }
    }

    /// With no subagents that are asked for.
    pub open spec fn without_pending(self) -> RegistryV<A> {
        RegistryV { pending: Seq::empty(), ..self }
    }

    /// With one more agent ready.
    pub open spec fn with_ready(self, id: AgentId) -> RegistryV<A> {
        RegistryV { ready: queued(self.ready, id), ..self }
    }

    /// With a root for a session, which is ready.
    pub open spec fn with_root(self, id: AgentId, agent: A, kind: AgentKind, session: SessionId) -> RegistryV<A> {
        RegistryV { roots: self.roots.insert(session.0, id), ..self }.with_node(
            id,
            Node { agent, kind, parent: None, session, depth: 0 },
        ).with_ready(id)
    }
}

impl<A: Agent> RegistryV<A> {
    /// Whether the factory was asked for the root of a session under the next id, and
    /// what it made is the root and ready.
    pub open spec fn rooted<F: AgentFactory<A>>(
        self,
        factory: F,
        new: RegistryV<A>,
        kind: AgentKind,
        session: SessionId,
        goal: String,
        r: Result<AgentId, String>,
    ) -> bool {
        let id = AgentId(self.next_id);
        let taken = RegistryV { next_id: (self.next_id + 1) as usize, ..self };
        exists|made: Result<A, String>|
            {
                &&& #[trigger] factory.makes(id, kind, goal, true, made)
                &&& match made {
                    Ok(agent) => r == Ok::<AgentId, String>(id) && new == taken.with_root(id, agent, kind, session),
                    Err(e) => r == Err::<AgentId, String>(e) && new == taken,
                }
            }
    }

    /// Whether an agent was given a command, answered with `reply`, and nothing else
    /// happened.
    pub open spec fn told(
        self,
        new: RegistryV<A>,
        id: AgentId,
        command: AgentCommand,
        reply: Result<(), AgentCommandError>,
    ) -> bool {
        &&& self.nodes.contains_key(id.0)
        &&& exists|after: A| #[trigger]
            self.nodes[id.0].agent.takes(command, reply, after) && new == self.with_agent(id, after)
    }

    /// Whether an agent was handed a user message and is ready; nothing happens where
    /// there is no such agent.
    pub open spec fn delivered(self, new: RegistryV<A>, id: AgentId, text: Seq<char>) -> bool {
        if self.nodes.contains_key(id.0) {
            exists|mid: RegistryV<A>, message: String, reply: Result<(), AgentCommandError>|
                {
                    &&& message@ == text
                    &&& #[trigger] self.told(mid, id, AgentCommand::AppendMessage(message), reply)
                    &&& new == mid.with_ready(id)
                }
        } else {
            new == self
        }
    }

    /// Whether a decision was handed to an agent: it is ready where it took it.
    pub open spec fn resolved(
        self,
        new: RegistryV<A>,
        id: AgentId,
        approval: ApprovalId,
        decision: ApprovalDecision,
        r: Result<(), ResolveApprovalError>,
    ) -> bool {
        let command = AgentCommand::ApprovalResult { id: approval, decision };
        match r {
            Err(ResolveApprovalError::UnknownAgent(unknown)) => unknown == id && !self.nodes.contains_key(id.0) && new
                == self,
            Err(ResolveApprovalError::Command(e)) => self.told(new, id, command, Err(e)),
            Ok(u) => exists|mid: RegistryV<A>| #[trigger] self.told(mid, id, command, Ok(u)) && new == mid.with_ready(id),
        }
    }

    /// Whether a decision was handed to an agent, which took it.
    pub open spec fn taken_up(self, new: RegistryV<A>, id: AgentId, approval: ApprovalId, decision: ApprovalDecision) -> bool {
        exists|r: Result<(), ResolveApprovalError>|
            r is Ok && #[trigger] self.resolved(new, id, approval, decision, r)
    }

    /// Whether a verdict was passed on: to an agent that waits for it, as the decision
    /// that it stands for. The agent waits no more.
    pub open spec fn responded(self, new: RegistryV<A>, response: ApprovalResponse) -> bool {
        let target = response.target;
        let unparked = RegistryV { parked: self.parked.remove(target.0), ..self };
        if self.parked.contains_key(target.0) {
            exists|decision: ApprovalDecision, r: Result<(), ResolveApprovalError>|
                {
                    &&& decision_of(response.verdict, opt_view(response.note), decision)
                    &&& #[trigger] unparked.resolved(new, target, self.parked[target.0], decision, r)
                }
        } else {
            new == unparked
        }
    }

    /// Whether the verdicts were passed on, one after the other.
    pub open spec fn responded_all(self, new: RegistryV<A>, responses: Seq<ApprovalResponse>) -> bool
        decreases responses.len(),
    {
        if responses.len() == 0 {
            new == self
        } else {
            exists|mid: RegistryV<A>|
                self.responded_all(mid, responses.drop_last()) && #[trigger] mid.responded(new, responses.last())
        }
    }

    /// Whether the verdicts that wait were passed on.
    pub open spec fn all_responded(self, new: RegistryV<A>) -> bool {
        self.without_verdicts().responded_all(new, self.verdicts)
    }

    /// The place of a subagent: in the session of the agent that asked for it, one
    /// step further from the root.
    pub open spec fn subagent(self, agent: A, request: SpawnRequest) -> Node<A> {
        let parent = self.nodes[request.parent.0];
        Node {
            agent,
            kind: request.kind,
            parent: Some(request.parent),
            session: parent.session,
            depth: if parent.depth < u16::MAX {
                (parent.depth + 1) as u16
            } else {
                parent.depth
            },
        }
    }

    /// Whether a request for a subagent was carried out: dropped where the agent that
    /// asked is gone; else the factory was asked, and what it made is ready.
    pub open spec fn carried_out<F: AgentFactory<A>>(self, factory: F, new: RegistryV<A>, request: SpawnRequest) -> bool {
        if self.nodes.contains_key(request.parent.0) {
            exists|made: Result<A, String>|
                {
                    &&& #[trigger] factory.makes(request.id, request.kind, request.goal, false, made)
                    &&& match made {
                        Ok(agent) => new == self.with_node(
                            request.id,
                            self.subagent(agent, request),
                        ).with_ready(request.id),
                        Err(_) => new == self,
                    }
                }
        } else {
            new == self
        }
    }

    /// Whether the requests were carried out, one after the other.
    pub open spec fn carried_out_all<F: AgentFactory<A>>(
        self,
        factory: F,
        new: RegistryV<A>,
        requests: Seq<SpawnRequest>,
    ) -> bool
        decreases requests.len(),
    {
        if requests.len() == 0 {
            new == self
        } else {
            exists|mid: RegistryV<A>|
                self.carried_out_all(factory, mid, requests.drop_last()) && #[trigger] mid.carried_out(
                    factory,
                    new,
                    requests.last(),
                )
        }
    }

    /// Whether the requests that wait were carried out.
    pub open spec fn all_carried_out<F: AgentFactory<A>>(self, factory: F, new: RegistryV<A>) -> bool {
        self.without_pending().carried_out_all(factory, new, self.pending)
    }

    /// Whether a result was handed on: to the parent of a subagent, which is then gone,
    /// or to the user where a root gave it.
    pub open spec fn handed_on(
        self,
        new: RegistryV<A>,
        id: AgentId,
        text: Seq<char>,
        ok: bool,
        ended: bool,
        replies: Seq<RootReply>,
    ) -> bool {
        if !self.nodes.contains_key(id.0) {
            new == self && replies.len() == 0
        } else {
            match self.nodes[id.0].parent {
                Some(parent) => {
                    &&& replies.len() == 0
                    &&& if self.nodes.contains_key(parent.0) {
                        exists|message: String, after: A|
                            {
                                &&& message@ == text
                                &&& #[trigger] self.nodes[parent.0].agent.hears(id, message, ok, after)
                                &&& new == self.with_agent(parent, after).with_ready(parent).without(id)
                            }
                    } else {
                        new == self.without(id)
                    }
                },
                None => {
                    &&& new == self
                    &&& replies.len() == 1
                    &&& replies[0].session == self.nodes[id.0].session
                    &&& replies[0].text@ == text
                    &&& replies[0].ended == ended
                },
            }
        }
    }

    /// Without an agent.
    pub open spec fn without(self, id: AgentId) -> RegistryV<A> {
        RegistryV { nodes: self.nodes.remove(id.0), ..self }
    }

    /// Whether an agent's wait for a decision was noted: a root's request goes to the
    /// user, a subagent's to the root of its session.
    pub open spec fn parked_for(
        self,
        new: RegistryV<A>,
        id: AgentId,
        approval: ApprovalId,
        summary: Seq<char>,
        approvals: Seq<ApprovalRequest>,
    ) -> bool {
        if !self.nodes.contains_key(id.0) {
            new == self && approvals.len() == 0
        } else {
            let node = self.nodes[id.0];
            let waiting = RegistryV { parked: self.parked.insert(id.0, approval), ..self };
            if node.parent is None {
                &&& new == waiting
                &&& approvals.len() == 1
                &&& approvals[0].session == node.session
                &&& approvals[0].agent == id
                &&& approvals[0].approval == approval
                &&& approvals[0].summary@ == summary
            } else {
                &&& approvals.len() == 0
                &&& if self.roots.contains_key(node.session.0) {
                    waiting.delivered(new, self.roots[node.session.0], bubbled(id, summary))
                } else {
                    new == waiting
                }
            }
        }
    }

    /// Whether the consequences of an outcome were drawn.
    pub open spec fn routed(
        self,
        new: RegistryV<A>,
        id: AgentId,
        outcome: TickOutcome,
        replies: Seq<RootReply>,
        approvals: Seq<ApprovalRequest>,
    ) -> bool {
        match result_of(outcome) {
            Some((text, ok, ended)) => self.handed_on(new, id, text, ok, ended, replies) && approvals.len() == 0,
            None => {
                &&& replies.len() == 0
                &&& match outcome {
                    TickOutcome::Working => new == self.with_ready(id) && approvals.len() == 0,
                    TickOutcome::AwaitingApproval { id: approval, summary } => self.parked_for(
                        new,
                        id,
                        approval,
                        summary@,
                        approvals,
                    ),
                    _ => new == self && approvals.len() == 0,
                }
            },
        }
    }

    /// The registry after an agent's orders and verdicts were noted.
    pub open spec fn noted(self, id: AgentId, tick: AgentTick) -> RegistryV<A> {
        let requests = requests_of(self.next_id, id, tick.spawns@);
        RegistryV {
            pending: self.pending + requests,
            next_id: (self.next_id + requests.len()) as usize,
            verdicts: self.verdicts + tick.responses@,
            ..self
        }
    }

    /// Whether the first ready agent had its turn: it acted, its orders were carried
    /// out, its verdicts were passed on, and its outcome had its consequences.
    pub open spec fn turn<F: AgentFactory<A>>(
        self,
        factory: F,
        new: RegistryV<A>,
        replies: Seq<RootReply>,
        approvals: Seq<ApprovalRequest>,
    ) -> bool {
        if self.ready.len() == 0 {
            new == self && replies.len() == 0 && approvals.len() == 0
        } else {
            let id = self.ready[0];
            let begun = RegistryV { ready: self.ready.drop_first(), ..self };
            if !self.nodes.contains_key(id.0) {
                new == begun && replies.len() == 0 && approvals.len() == 0
            } else {
                exists|tick: AgentTick, after: A, made: RegistryV<A>, answered: RegistryV<A>|
                    {
                        &&& #[trigger] self.nodes[id.0].agent.acts(AgentId(self.next_id), tick, after)
                        &&& #[trigger] begun.with_agent(id, after).noted(id, tick).all_carried_out(factory, made)
                        &&& #[trigger] made.all_responded(answered)
                        &&& answered.routed(new, id, tick.outcome, replies, approvals)
                    }
            }
        }
    }

    /// Whether `n` turns were had: before each the verdicts that wait were passed on.
    pub open spec fn turns<F: AgentFactory<A>>(
        self,
        factory: F,
        new: RegistryV<A>,
        replies: Seq<RootReply>,
        approvals: Seq<ApprovalRequest>,
        n: nat,
    ) -> bool
        decreases n,
    {
        if n == 0 {
            new == self && replies.len() == 0 && approvals.len() == 0
        } else {
            exists|mid: RegistryV<A>, answered: RegistryV<A>, said: Seq<RootReply>, asked: Seq<ApprovalRequest>|
                {
                    &&& #[trigger] mid.all_responded(answered)
                    &&& answered.ready.len() > 0
                    &&& #[trigger] answered.turn(factory, new, said, asked)
                    &&& said.is_suffix_of(replies)
                    &&& asked.is_suffix_of(approvals)
                    &&& self.turns(
                        factory,
                        mid,
                        replies.take(replies.len() - said.len()),
                        approvals.take(approvals.len() - asked.len()),
                        (n - 1) as nat,
                    )
                }
        }
    }

    /// Whether agents had turns until none was ready, or `max_steps` turns.
    pub open spec fn driven<F: AgentFactory<A>>(
        self,
        factory: F,
        new: RegistryV<A>,
        replies: Seq<RootReply>,
        approvals: Seq<ApprovalRequest>,
        max_steps: nat,
    ) -> bool {
        exists|mid: RegistryV<A>, n: nat|
            {
                &&& n <= max_steps
                &&& #[trigger] self.turns(factory, mid, replies, approvals, n)
                &&& if n == max_steps {
                    new == mid
                } else {
                    mid.all_responded(new) && new.ready.len() == 0
                }
            }
    }
}

/// The ready agents once one more is ready.
pub open spec fn queued(ready: Seq<AgentId>, id: AgentId) -> Seq<AgentId> {
    if ready.contains(id) {
        ready
    } else {
        ready.push(id)
    }
}

/// What the root is told of a subagent's request.
pub open spec fn bubbled(agent: AgentId, summary: Seq<char>) -> Seq<char> {
    "[approval request from "@ + agent.wire() + "] "@ + summary
}

/// The decision that a verdict stands for.
pub open spec fn decision_of(verdict: ApprovalVerdict, note: Option<Seq<char>>, d: ApprovalDecision) -> bool {
    match verdict {
        ApprovalVerdict::Yes => d == ApprovalDecision::Approved,
        _ => d matches ApprovalDecision::Rejected(reason) && reason@ == (match note {
            Some(n) => n,
            None => "rejected"@,
        }),
    }
}

/// Turns a verdict into a decision: a yes approves, all else rejects with the note.
pub fn decide(verdict: ApprovalVerdict, note: Option<String>) -> (r: ApprovalDecision)
    ensures
        decision_of(verdict, opt_view(note), r),
{
    match verdict {
        ApprovalVerdict::Yes => ApprovalDecision::Approved,
        ApprovalVerdict::No | ApprovalVerdict::Other => ApprovalDecision::Rejected(
            match note {
                Some(n) => n,
                None => "rejected".to_owned(),
            },
        ),
    }
}

/// The result that an outcome hands on, whether it is a success, and whether it
/// ends the task; nothing where the agent goes on or waits.
pub open spec fn result_of(outcome: TickOutcome) -> Option<(Seq<char>, bool, bool)> {
    match outcome {
        TickOutcome::Working | TickOutcome::Idle | TickOutcome::AwaitingApproval { .. } => None,
        TickOutcome::Yielded { text } => Some((text@, true, false)),
        TickOutcome::Ended { final_message } => Some((final_message@, true, true)),
        TickOutcome::Cancelled { reason } => Some(("[cancelled: "@ + reason.name() + "]"@, false, true)),
        TickOutcome::Failed(e) => Some(("[failed: "@ + e.debug_text() + "]"@, false, true)),
    }
}

impl<A> AgentRegistry<A> {
    /// The places of the agents.
    pub open spec fn edges(self) -> Map<usize, Edge> {
        self.nodes@.map_values(|n: Node<A>| edge_of(n))
    }

    /// No agent is ready twice.
    pub open spec fn wf(self) -> bool {
        self.ready@.no_duplicates()
    }

    /// Ids are given out in order and never again, and every agent is younger than
    /// the one that asked for it. So no agent depends on itself.
    pub open spec fn ordered(self) -> bool {
        &&& forall|id: usize| #[trigger] self.edges().contains_key(id) ==> {
            &&& id < self.next_id
            &&& self.edges()[id].parent matches Some(p) ==> p.0 < id
        }
        &&& forall|i: int| 0 <= i < self.pending@.len() ==> {
            &&& (#[trigger] self.pending@[i]).parent.0 < self.pending@[i].id.0
            &&& self.pending@[i].id.0 < self.next_id
            &&& !self.edges().contains_key(self.pending@[i].id.0)
        }
        &&& forall|i: int, j: int|
            0 <= i < j < self.pending@.len() ==> (#[trigger] self.pending@[i]).id.0 < (
            #[trigger] self.pending@[j]).id.0
    }

    /// Whether agents and what they wait for are the same.
    pub open spec fn same_graph(self, other: AgentRegistry<A>) -> bool {
        &&& self.edges() == other.edges()
        &&& self.next_id == other.next_id
        &&& self.pending == other.pending
        &&& self.roots == other.roots
    }

    /// No agents; the first one gets the id 1.
    pub fn new() -> (r: AgentRegistry<A>)
        ensures
            r.wf(),
            r.ordered(),
            r.next_id == 1,
            r.edges() == Map::<usize, Edge>::empty(),
            r.ready@.len() == 0,
            r.pending@.len() == 0,
            r.roots@ == Map::<usize, AgentId>::empty(),
            r.parked_approvals@ == Map::<usize, ApprovalId>::empty(),
            r.approval_pending@.len() == 0,
            r@ == RegistryV::<A>::fresh(1),
    {
        AgentRegistry::with_id_allocator(1)
    }

    /// No agents; the first one gets the id `next_id`.
    pub fn with_id_allocator(next_id: usize) -> (r: AgentRegistry<A>)
        ensures
            r.wf(),
            r.ordered(),
            r.next_id == next_id,
            r.edges() == Map::<usize, Edge>::empty(),
            r.ready@.len() == 0,
            r.pending@.len() == 0,
            r.roots@ == Map::<usize, AgentId>::empty(),
            r.parked_approvals@ == Map::<usize, ApprovalId>::empty(),
            r.approval_pending@.len() == 0,
            r@ == RegistryV::<A>::fresh(next_id),
    {
        let r = AgentRegistry {
            nodes: HashMap::new(),
            ready: VecDeque::new(),
            next_id,
            pending: VecDeque::new(),
            roots: HashMap::new(),
            parked_approvals: HashMap::new(),
            approval_pending: VecDeque::new(),
        };
        assert(r.edges() =~= Map::<usize, Edge>::empty());
        assert(r@ =~= RegistryV::<A>::fresh(next_id));
        r
    }

    /// A new id.
    pub fn alloc_id(&mut self) -> (r: AgentId)
        requires
            old(self).next_id < usize::MAX,
        ensures
            r.0 == old(self).next_id,
            final(self).next_id == old(self).next_id + 1,
            final(self).nodes == old(self).nodes,
            final(self).ready == old(self).ready,
            final(self).pending == old(self).pending,
            final(self).roots == old(self).roots,
            final(self).parked_approvals == old(self).parked_approvals,
            final(self).approval_pending == old(self).approval_pending,
            old(self).wf() ==> final(self).wf(),
            old(self).ordered() ==> final(self).ordered(),
            final(self)@ == (RegistryV { next_id: (old(self).next_id + 1) as usize, ..old(self)@ }),
    {
        let id = AgentId(self.next_id);
        self.next_id = self.next_id + 1;
        id
    }

    pub fn agent_count(&self) -> (r: usize)
        ensures
            r == self.edges().len(),
    {
        proof {
            assert(self.edges().dom() =~= self.nodes@.dom());
        }
        self.nodes.len()
    }

    /// Whether an agent is ready.
    pub fn has_ready(&self) -> (r: bool)
        ensures
            r == (self.ready@.len() > 0),
    {
        self.ready.len() > 0
    }

    /// Makes an agent ready.
    fn enqueue(&mut self, id: AgentId)
        requires
            old(self).wf(),
        ensures
            final(self).wf(),
            final(self).ready@ == queued(old(self).ready@, id),
            final(self).nodes == old(self).nodes,
            final(self).next_id == old(self).next_id,
            final(self).pending == old(self).pending,
            final(self).roots == old(self).roots,
            final(self).parked_approvals == old(self).parked_approvals,
            final(self).approval_pending == old(self).approval_pending,
            final(self)@ == old(self)@.with_ready(id),
    {
        let mut i: usize = 0;
        while i < self.ready.len()
            invariant
                *self == *old(self),
                old(self).wf(),
                i <= self.ready@.len(),
                forall|k: int| 0 <= k < i ==> (#[trigger] self.ready@[k]) != id,
            decreases self.ready@.len() - i,
        {
            if self.ready[i] == id {
                assert(self.ready@[i as int] == id);
                return ;
            }
            i = i + 1;
        }
        self.ready.push_back(id);
        proof {
            assert(!old(self).ready@.contains(id));
            assert(self.ready@ =~= old(self).ready@.push(id));
            assert forall|a: int, b: int| 0 <= a < self.ready@.len() && 0 <= b < self.ready@.len() && a != b implies self.ready@[a]
                != self.ready@[b] by {
                if a < old(self).ready@.len() {
                    assert(self.ready@[a] == old(self).ready@[a]);
                }
                if b < old(self).ready@.len() {
                    assert(self.ready@[b] == old(self).ready@[b]);
                }
            }
        }
    }

    /// Puts a node at its place.
    fn put_node(&mut self, id: AgentId, node: Node<A>)
        ensures
            final(self).edges() == old(self).edges().insert(id.0, edge_of(node)),
            final(self).nodes@ == old(self).nodes@.insert(id.0, node),
            final(self).ready == old(self).ready,
            final(self).next_id == old(self).next_id,
            final(self).pending == old(self).pending,
            final(self).roots == old(self).roots,
            final(self).parked_approvals == old(self).parked_approvals,
            final(self).approval_pending == old(self).approval_pending,
    {
        self.nodes.insert(id.0, node);
        assert(self.edges() =~= old(self).edges().insert(id.0, edge_of(node)));
    }

    /// Takes a node from its place.
    fn take_node(&mut self, id: AgentId) -> (r: Option<Node<A>>)
        ensures
            final(self).edges() == old(self).edges().remove(id.0),
            final(self).nodes@ == old(self).nodes@.remove(id.0),
            final(self).ready == old(self).ready,
            final(self).next_id == old(self).next_id,
            final(self).pending == old(self).pending,
            final(self).roots == old(self).roots,
            final(self).parked_approvals == old(self).parked_approvals,
            final(self).approval_pending == old(self).approval_pending,
            match r {
                Some(node) => old(self).edges().contains_key(id.0) && edge_of(node) == old(self).edges()[id.0]
                    && old(self).nodes@.contains_key(id.0) && node == old(self).nodes@[id.0],
                None => !old(self).edges().contains_key(id.0) && final(self).edges() == old(self).edges()
                    && !old(self).nodes@.contains_key(id.0) && final(self)@ == old(self)@,
            },
    {
        let r = self.nodes.remove(&id.0);
        assert(self.edges() =~= old(self).edges().remove(id.0));
        proof {
            if r is None {
                assert(self.edges() =~= old(self).edges());
                assert(self.nodes@ =~= old(self).nodes@);
            }
        }
        r
    }

    /// Adds a subagent to those that are asked for, under the next id. `None` where
    /// no id is left.
    pub fn order(&mut self, parent: AgentId, kind: AgentKind, goal: String) -> (r: Option<AgentId>)
        ensures
            final(self).nodes == old(self).nodes,
            final(self).ready == old(self).ready,
            final(self).roots == old(self).roots,
            final(self).parked_approvals == old(self).parked_approvals,
            final(self).approval_pending == old(self).approval_pending,
            old(self).wf() ==> final(self).wf(),
            old(self).ordered() && parent.0 < old(self).next_id ==> final(self).ordered(),
            if old(self).next_id < usize::MAX {
                &&& r == Some(AgentId(old(self).next_id))
                &&& final(self).next_id == old(self).next_id + 1
                &&& final(self).pending@ == old(self).pending@.push(
                    SpawnRequest { id: AgentId(old(self).next_id), parent, kind, goal },
                )
            } else {
                r is None && *final(self) == *old(self)
            },
    {
        if self.next_id == usize::MAX {
            return None;
        }
        let id = AgentId(self.next_id);
        self.next_id = self.next_id + 1;
        self.pending.push_back(SpawnRequest { id, parent, kind, goal });
        proof {
            if old(self).ordered() && parent.0 < old(self).next_id {
                let p = self.pending@;
                assert forall|i: int| 0 <= i < p.len() implies {
                    &&& (#[trigger] p[i]).parent.0 < p[i].id.0
                    &&& p[i].id.0 < self.next_id
                    &&& !self.edges().contains_key(p[i].id.0)
                } by {
                    if i < old(self).pending@.len() {
                        assert(p[i] == old(self).pending@[i]);
                    }
                }
                assert forall|i: int, j: int| 0 <= i < j < p.len() implies (#[trigger] p[i]).id.0 < (
                #[trigger] p[j]).id.0 by {
                    assert(p[i] == old(self).pending@[i]);
                    if j < old(self).pending@.len() {
                        assert(p[j] == old(self).pending@[j]);
                    }
                }
            }
        }
        Some(id)
    }

    /// Adds a verdict to those that wait.
    pub fn report(&mut self, target: AgentId, verdict: ApprovalVerdict, note: Option<String>)
        ensures
            final(self).nodes == old(self).nodes,
            final(self).ready == old(self).ready,
            final(self).next_id == old(self).next_id,
            final(self).pending == old(self).pending,
            final(self).roots == old(self).roots,
            final(self).parked_approvals == old(self).parked_approvals,
            final(self).approval_pending@ == old(self).approval_pending@.push(
                ApprovalResponse { target, verdict, note },
            ),
            old(self).wf() ==> final(self).wf(),
            old(self).ordered() ==> final(self).ordered(),
    {
        self.approval_pending.push_back(ApprovalResponse { target, verdict, note });
    }

    /// The root of a session, with `root` in its place.
    fn insert_root(&mut self, id: AgentId, root: A, kind: AgentKind, session: SessionId)
        requires
            old(self).wf(),
        ensures
            final(self).wf(),
            final(self).edges() == old(self).edges().insert(
                id.0,
                Edge { kind: kind@, parent: None, session, depth: 0 },
            ),
            final(self).roots@ == old(self).roots@.insert(session.0, id),
            final(self).ready@ == queued(old(self).ready@, id),
            final(self).next_id == old(self).next_id,
            final(self).pending == old(self).pending,
            final(self).parked_approvals == old(self).parked_approvals,
            final(self).approval_pending == old(self).approval_pending,
            old(self).ordered() && id.0 < old(self).next_id && (forall|i: int|
                0 <= i < old(self).pending@.len() ==> (#[trigger] old(self).pending@[i]).id != id)
                ==> final(self).ordered(),
            final(self)@ == old(self)@.with_root(id, root, kind, session),
    {
        self.put_node(id, Node { agent: root, kind, parent: None, session, depth: 0 });
        self.roots.insert(session.0, id);
        self.enqueue(id);
    }
}

impl<A: Agent> AgentRegistry<A> {
    /// The conversation of an agent.
    pub fn agent_transcript(&self, id: AgentId) -> (r: Option<Json>)
        ensures
            if self@.nodes.contains_key(id.0) {
                self@.nodes[id.0].agent.shows(r)
            } else {
                r is None
            },
    {
        match self.nodes.get(&id.0) {
            Some(node) => node.agent.transcript(),
            None => None,
        }
    }

    /// Registers the root of a session, under its own id, and makes it ready.
    pub fn add_root(&mut self, root: A, kind: AgentKind, session: SessionId) -> (r: AgentId)
        requires
            old(self).wf(),
        ensures
            final(self).wf(),
            final(self).edges() == old(self).edges().insert(
                r.0,
                Edge { kind: kind@, parent: None, session, depth: 0 },
            ),
            final(self).roots@ == old(self).roots@.insert(session.0, r),
            final(self).ready@ == queued(old(self).ready@, r),
            final(self).next_id == old(self).next_id,
            final(self).pending == old(self).pending,
            final(self).parked_approvals == old(self).parked_approvals,
            final(self).approval_pending == old(self).approval_pending,
            old(self).ordered() && r.0 < old(self).next_id && (forall|i: int|
                0 <= i < old(self).pending@.len() ==> (#[trigger] old(self).pending@[i]).id != r)
                ==> final(self).ordered(),
            root.goes_by(r),
            final(self)@ == old(self)@.with_root(r, root, kind, session),
    {
        let id = root.id();
        self.insert_root(id, root, kind, session);
        id
    }

    /// Has the root of a session made for a goal, and makes it ready.
    pub fn add_root_of_kind<F: AgentFactory<A>>(
        &mut self,
        factory: &F,
        kind: AgentKind,
        session: SessionId,
        goal: String,
    ) -> (r: Result<AgentId, String>)
        requires
            old(self).wf(),
            old(self).next_id < usize::MAX,
        ensures
            final(self).wf(),
            old(self).ordered() ==> final(self).ordered(),
            final(self).next_id == old(self).next_id + 1,
            final(self).pending == old(self).pending,
            final(self).parked_approvals == old(self).parked_approvals,
            final(self).approval_pending == old(self).approval_pending,
            match r {
                Ok(id) => {
                    &&& id.0 == old(self).next_id
                    &&& final(self).edges() == old(self).edges().insert(
                        id.0,
                        Edge { kind: kind@, parent: None, session, depth: 0 },
                    )
                    &&& final(self).roots@ == old(self).roots@.insert(session.0, id)
                    &&& final(self).ready@ == queued(old(self).ready@, id)
                },
                Err(_) => {
                    &&& final(self).edges() == old(self).edges()
                    &&& final(self).roots == old(self).roots
                    &&& final(self).ready == old(self).ready
                },
            },
            old(self)@.rooted(*factory, final(self)@, kind, session, goal, r),
    {
        let id = self.alloc_id();
        match factory.create_agent(id, &kind, goal, true) {
            Ok(agent) => {
                self.insert_root(id, agent, kind, session);
                Ok(id)
            },
            Err(e) => Err(e),
        }
    }

    /// Hands an agent a user message and makes it ready; tells whether there is such
    /// an agent.
    pub fn deliver_to(&mut self, id: AgentId, message: String) -> (r: bool)
        requires
            old(self).wf(),
        ensures
            final(self).wf(),
            r == old(self).edges().contains_key(id.0),
            final(self).same_graph(*old(self)),
            final(self).parked_approvals == old(self).parked_approvals,
            final(self).approval_pending == old(self).approval_pending,
            final(self).ready@ == (if r {
                queued(old(self).ready@, id)
            } else {
                old(self).ready@
            }),
            old(self)@.delivered(final(self)@, id, message@),
    {
        match self.take_node(id) {
            None => false,
            Some(mut node) => {
                let reply = node.agent.send_command(AgentCommand::AppendMessage(message));
                self.put_node(id, node);
                assert(self.edges() =~= old(self).edges());
                let ghost mid = self@;
                proof {
                    assert(mid =~= old(self)@.with_agent(id, node.agent));
                    assert(old(self)@.told(mid, id, AgentCommand::AppendMessage(message), reply));
                }
                self.enqueue(id);
                true
            },
        }
    }

    /// Hands a decision to the agent that waits for it, and makes it ready.
    pub fn resolve_approval(&mut self, agent: AgentId, approval: ApprovalId, decision: ApprovalDecision) -> (r: Result<
        (),
        ResolveApprovalError,
    >)
        requires
            old(self).wf(),
        ensures
            final(self).wf(),
            final(self).same_graph(*old(self)),
            final(self).parked_approvals == old(self).parked_approvals,
            final(self).approval_pending == old(self).approval_pending,
            match r {
                Ok(_) => old(self).edges().contains_key(agent.0) && final(self).ready@ == queued(
                    old(self).ready@,
                    agent,
                ),
                Err(ResolveApprovalError::UnknownAgent(id)) => id == agent && !old(self).edges().contains_key(agent.0)
                    && final(self).ready@ == old(self).ready@,
                Err(ResolveApprovalError::Command(_)) => old(self).edges().contains_key(agent.0) && final(self).ready@
                    == old(self).ready@,
            },
            old(self)@.resolved(final(self)@, agent, approval, decision, r),
    {
        match self.take_node(agent) {
            None => Err(ResolveApprovalError::UnknownAgent(agent)),
            Some(mut node) => {
                let sent = node.agent.send_command(AgentCommand::ApprovalResult { id: approval, decision });
                self.put_node(agent, node);
                assert(self.edges() =~= old(self).edges());
                let ghost mid = self@;
                proof {
                    assert(mid =~= old(self)@.with_agent(agent, node.agent));
                    assert(old(self)@.told(mid, agent, AgentCommand::ApprovalResult { id: approval, decision }, sent));
                }
                match sent {
                    Ok(u) => {
                        self.enqueue(agent);
                        Ok(u)
                    },
                    Err(e) => Err(ResolveApprovalError::Command(e)),
                }
            },
        }
    }

    /// An agent waits for a decision. A root's request goes to the user; a
    /// subagent's goes to the root of its session, which talks to the user.
    fn park_approval(&mut self, agent: AgentId, approval: ApprovalId, summary: String) -> (r: DriveOutput)
        requires
            old(self).wf(),
        ensures
            final(self).wf(),
            final(self).same_graph(*old(self)),
            final(self).approval_pending == old(self).approval_pending,
            r.replies@.len() == 0,
            if !old(self).edges().contains_key(agent.0) {
                &&& r.empty()
                &&& final(self).parked_approvals == old(self).parked_approvals
                &&& final(self).ready@ == old(self).ready@
            } else {
                let place = old(self).edges()[agent.0];
                &&& final(self).parked_approvals@ == old(self).parked_approvals@.insert(agent.0, approval)
                &&& if place.parent is None {
                    &&& r.approvals@ == seq![ApprovalRequest { session: place.session, agent, approval, summary }]
                    &&& final(self).ready@ == old(self).ready@
                } else {
                    &&& r.empty()
                    &&& if old(self).roots@.contains_key(place.session.0) && old(self).edges().contains_key(
                        old(self).roots@[place.session.0].0,
                    ) {
                        final(self).ready@ == queued(old(self).ready@, old(self).roots@[place.session.0])
                    } else {
                        final(self).ready@ == old(self).ready@
                    }
                }
            },
            old(self)@.parked_for(final(self)@, agent, approval, summary@, r.approvals@),
    {
        let (session, is_root) = match self.nodes.get(&agent.0) {
            Some(node) => (node.session, node.parent.is_none()),
            None => {
                return DriveOutput::default();
            },
        };
        self.parked_approvals.insert(agent.0, approval);
        if is_root {
            let mut approvals: Vec<ApprovalRequest> = Vec::new();
            approvals.push(ApprovalRequest { session, agent, approval, summary });
            return DriveOutput { replies: Vec::new(), approvals };
        }
        let root = match self.roots.get(&session.0) {
            Some(root) => Some(*root),
            None => None,
        };
        if let Some(root) = root {
            let mut text = concat3("[approval request from ", agent.to_wire().as_str(), "] ");
            text.append(summary.as_str());
            let _ = self.deliver_to(root, text);
        }
        DriveOutput::default()
    }

    /// Passes one verdict on.
    fn apply_response(&mut self, response: ApprovalResponse)
        requires
            old(self).wf(),
        ensures
            final(self).wf(),
            final(self).same_graph(*old(self)),
            final(self).approval_pending == old(self).approval_pending,
            final(self).parked_approvals@ == old(self).parked_approvals@.remove(response.target.0),
            final(self).ready@ == old(self).ready@ || (old(self).parked_approvals@.contains_key(response.target.0)
                && old(self).edges().contains_key(response.target.0) && final(self).ready@ == queued(
                old(self).ready@,
                response.target,
            )),
            old(self)@.responded(final(self)@, response),
    {
        match self.parked_approvals.remove(&response.target.0) {
            None => {
                assert(self.parked_approvals@ =~= old(self).parked_approvals@.remove(response.target.0));
            },
            Some(approval) => {
                let decision = decide(response.verdict, response.note);
                let ghost unparked = self@;
                assert(unparked == RegistryV { parked: old(self)@.parked.remove(response.target.0), ..old(self)@ });
                let r = self.resolve_approval(response.target, approval, decision);
                assert(unparked.resolved(self@, response.target, approval, decision, r));
            },
        }
    }

    /// Passes the verdicts that wait on to the agents that wait for them.
    pub fn apply_approval_responses(&mut self)
        requires
            old(self).wf(),
        ensures
            final(self).wf(),
            final(self).same_graph(*old(self)),
            old(self).ordered() ==> final(self).ordered(),
            final(self).approval_pending@.len() == 0,
            final(self).parked_approvals@ == unparked(old(self).parked_approvals@, old(self).approval_pending@),
            old(self).ready@.is_prefix_of(final(self).ready@),
            final(self).ready@.len() <= old(self).ready@.len() + old(self).approval_pending@.len(),
            forall|i: int|
                old(self).ready@.len() <= i < final(self).ready@.len() ==> {
                    &&& old(self).edges().contains_key((#[trigger] final(self).ready@[i]).0)
                    &&& old(self).parked_approvals@.contains_key(final(self).ready@[i].0)
                },
            old(self)@.all_responded(final(self)@),
    {
        let ghost start = self@.without_verdicts();
        let ghost responses = self.approval_pending@;
        let ghost parked = self.parked_approvals@;
        let ghost mut done: int = 0;
        assert(responses.take(0) =~= Seq::<ApprovalResponse>::empty());
        assert(responses.skip(0) =~= responses);
        loop
            invariant
                0 <= done <= responses.len(),
                responses == old(self).approval_pending@,
                parked == old(self).parked_approvals@,
                self.wf(),
                self.same_graph(*old(self)),
                self.approval_pending@ == responses.skip(done),
                self.parked_approvals@ == unparked(parked, responses.take(done)),
                forall|k: usize| #[trigger] self.parked_approvals@.contains_key(k) ==> parked.contains_key(k),
                self.ready@.len() <= old(self).ready@.len() + done,
                old(self).ready@.is_prefix_of(self.ready@),
                forall|i: int|
                    old(self).ready@.len() <= i < self.ready@.len() ==> {
                        &&& old(self).edges().contains_key((#[trigger] self.ready@[i]).0)
                        &&& parked.contains_key(self.ready@[i].0)
                    },
                start == old(self)@.without_verdicts(),
                start.responded_all(
                    self@.without_verdicts(),
                    responses.take(done),
                ),
            ensures
                done == responses.len(),
                self.approval_pending@.len() == 0,
            decreases responses.len() - done,
        {
            let ghost before = self.ready@;
            let ghost at = self@.without_verdicts();
            match self.approval_pending.pop_front() {
                Some(response) => {
                    let ghost popped = self@;
                    proof {
                        assert(response == responses[done]);
                        assert(self.approval_pending@ =~= responses.skip(done + 1));
                        assert(responses.take(done + 1).drop_last() =~= responses.take(done));
                        assert(responses.take(done + 1).last() == response);
                    }
                    self.apply_response(response);
                    proof {
                        assert forall|i: int| old(self).ready@.len() <= i < self.ready@.len() implies {
                            &&& old(self).edges().contains_key((#[trigger] self.ready@[i]).0)
                            &&& parked.contains_key(self.ready@[i].0)
                        } by {
                            if i < before.len() {
                                assert(self.ready@[i] == before[i]);
                            }
                        }
                        lemma_verdicts_do_not_matter(popped, self@, response);
                        let now = self@.without_verdicts();
                        assert(at.responded(now, responses.take(done + 1).last()));
                        assert(start.responded_all(now, responses.take(done + 1)));
                        done = done + 1;
                    }
                },
                None => {
                    break ;
                },
            }
        }
        proof {
            assert(responses.take(responses.len() as int) =~= responses);
            assert(self.edges() == old(self).edges());
            assert(self@.without_verdicts() =~= self@);
        }
    }

    /// Makes one subagent that was asked for, unless the agent that asked is gone or
    /// the factory refuses.
    fn materialize<F: AgentFactory<A>>(&mut self, factory: &F, request: SpawnRequest)
        requires
            old(self).wf(),
        ensures
            final(self).wf(),
            final(self).next_id == old(self).next_id,
            final(self).pending == old(self).pending,
            final(self).roots == old(self).roots,
            final(self).parked_approvals == old(self).parked_approvals,
            final(self).approval_pending == old(self).approval_pending,
            old(self).unmade(*final(self)) || old(self).made(*final(self), request),
            old(self)@.carried_out(*factory, final(self)@, request),
    {
        let (session, depth) = match self.nodes.get(&request.parent.0) {
            Some(parent) => (parent.session, parent.depth.saturating_add(1)),
            None => {
                return ;
            },
        };
        let made = factory.create_agent(request.id, &request.kind, request.goal, false);
        assert(factory.makes(request.id, request.kind, request.goal, false, made));
        match made {
            Ok(agent) => {
                self.put_node(
                    request.id,
                    Node { agent, kind: request.kind, parent: Some(request.parent), session, depth },
                );
                self.enqueue(request.id);
            },
            Err(_) => {},
        }
    }

    /// No subagent was made.
    pub open spec fn unmade(self, new: AgentRegistry<A>) -> bool {
        new.edges() == self.edges() && new.ready@ == self.ready@
    }

    /// A subagent was made: it belongs to the session of the agent that asked for it,
    /// one step further from the root, and is ready.
    pub open spec fn made(self, new: AgentRegistry<A>, request: SpawnRequest) -> bool {
        let parent = self.edges()[request.parent.0];
        &&& self.edges().contains_key(request.parent.0)
        &&& new.edges() == self.edges().insert(
            request.id.0,
            Edge {
                kind: request.kind@,
                parent: Some(request.parent),
                session: parent.session,
                depth: if parent.depth < u16::MAX {
                    (parent.depth + 1) as u16
                } else {
                    parent.depth
                },
            },
        )
        &&& new.ready@ == queued(self.ready@, request.id)
    }

    /// Whether agents stay at their places, and every other one was asked for by
    /// `requests` and belongs to the session of its parent.
    pub open spec fn grown(self, new: AgentRegistry<A>, requests: Seq<SpawnRequest>) -> bool {
        forall|id: usize| #[trigger]
            new.edges().contains_key(id) ==> (self.edges().contains_key(id) && new.edges()[id] == self.edges()[id])
                || exists|i: int|
                {
                    &&& 0 <= i < requests.len()
                    &&& (#[trigger] requests[i]).id.0 == id
                    &&& new.edges()[id].parent == Some(requests[i].parent)
                    &&& new.edges()[id].kind == requests[i].kind@
                }
    }

    /// Makes the subagents that were asked for, in order.
    pub fn materialize_pending<F: AgentFactory<A>>(&mut self, factory: &F)
        requires
            old(self).wf(),
        ensures
            final(self).wf(),
            old(self).ordered() ==> final(self).ordered(),
            final(self).next_id == old(self).next_id,
            final(self).pending@.len() == 0,
            final(self).roots == old(self).roots,
            final(self).parked_approvals == old(self).parked_approvals,
            final(self).approval_pending == old(self).approval_pending,
            old(self).grown(*final(self), old(self).pending@),
            forall|id: usize| #[trigger] old(self).edges().contains_key(id) ==> final(self).edges().contains_key(id),
            old(self).ordered() ==> forall|id: usize| #[trigger]
                old(self).edges().contains_key(id) ==> final(self).edges()[id] == old(self).edges()[id],
            old(self).ready@.is_prefix_of(final(self).ready@),
            old(self)@.all_carried_out(*factory, final(self)@),
    {
        let ghost start = self@.without_pending();
        let ghost requests = self.pending@;
        assert(requests.take(0) =~= Seq::<SpawnRequest>::empty());
        let ghost mut done: int = 0;
        assert(requests.skip(0) =~= requests);
        loop
            invariant
                0 <= done <= requests.len(),
                requests == old(self).pending@,
                self.wf(),
                old(self).ordered() ==> self.ordered(),
                self.next_id == old(self).next_id,
                self.pending@ == requests.skip(done),
                self.roots == old(self).roots,
                self.parked_approvals == old(self).parked_approvals,
                self.approval_pending == old(self).approval_pending,
                old(self).grown(*self, requests),
                forall|id: usize| #[trigger] old(self).edges().contains_key(id) ==> self.edges().contains_key(id),
                old(self).ordered() ==> forall|id: usize| #[trigger]
                    old(self).edges().contains_key(id) ==> self.edges()[id] == old(self).edges()[id],
                old(self).ready@.is_prefix_of(self.ready@),
                start == old(self)@.without_pending(),
                start.carried_out_all(
                    *factory,
                    self@.without_pending(),
                    requests.take(done),
                ),
            ensures
                done == requests.len(),
                self.pending@.len() == 0,
            decreases requests.len() - done,
        {
            let ghost before = *self;
            match self.pending.pop_front() {
                Some(request) => {
                    let ghost popped = *self;
                    proof {
                        assert(request == requests[done]);
                        assert(self.pending@ =~= requests.skip(done + 1));
                        assert(self.edges() == before.edges());
                        if before.ordered() {
                            lemma_pop_keeps_order(before, *self);
                        }
                    }
                    self.materialize(factory, request);
                    proof {
                        if popped.made(*self, request) {
                            if before.ordered() {
                                assert(before.pending@[0] == request);
                                lemma_make_keeps_order(before, popped, *self, request);
                                assert(!before.edges().contains_key(request.id.0));
                            }
                            assert forall|id: usize| #[trigger] self.edges().contains_key(id) implies (old(
                                self,
                            ).edges().contains_key(id) && self.edges()[id] == old(self).edges()[id]) || exists|i: int|
                                {
                                    &&& 0 <= i < requests.len()
                                    &&& (#[trigger] requests[i]).id.0 == id
                                    &&& self.edges()[id].parent == Some(requests[i].parent)
                                    &&& self.edges()[id].kind == requests[i].kind@
                                } by {
                                if id == request.id.0 {
                                    assert(requests[done].id.0 == id);
                                } else {
                                    assert(before.edges().contains_key(id));
                                    assert(self.edges()[id] == before.edges()[id]);
                                }
                            }
                        } else {
                            assert(self.edges() == before.edges());
                        }
                        let at = before@.without_pending();
                        let now = self@.without_pending();
                        lemma_pending_does_not_matter(*factory, popped@, self@, request);
                        assert(requests.take(done + 1).drop_last() =~= requests.take(done));
                        assert(at.carried_out(*factory, now, requests.take(done + 1).last()));
                        assert(start.carried_out_all(*factory, now, requests.take(done + 1)));
                        done = done + 1;
                    }
                },
                None => {
                    break ;
                },
            }
        }
        proof {
            assert(requests.take(requests.len() as int) =~= requests);
            assert(self@.without_pending() =~= self@);
        }
    }

    /// Hands a result on: to the parent of a subagent, which is then gone, or to the
    /// user where a root gave it.
    fn route_result(&mut self, id: AgentId, text: String, ok: bool, ended: bool) -> (r: Vec<RootReply>)
        requires
            old(self).wf(),
        ensures
            final(self).wf(),
            old(self).ordered() ==> final(self).ordered(),
            old(self).result_routed(*final(self), id),
            r@ == (if old(self).edges().contains_key(id.0) && old(self).edges()[id.0].parent is None {
                seq![RootReply { session: old(self).edges()[id.0].session, text, ended }]
            } else {
                Seq::empty()
            }),
            old(self)@.handed_on(final(self)@, id, text@, ok, ended, r@),
    {
        let (parent, session) = match self.nodes.get(&id.0) {
            Some(node) => (node.parent, node.session),
            None => {
                return Vec::new();
            },
        };
        match parent {
            Some(parent_id) => {
                match self.take_node(parent_id) {
                    Some(mut node) => {
                        node.agent.deliver_child_result(id, text, ok);
                        self.put_node(parent_id, node);
                        assert(self.edges() =~= old(self).edges());
                        assert(self@ =~= old(self)@.with_agent(parent_id, node.agent));
                        self.enqueue(parent_id);
                    },
                    None => {},
                }
                assert(self.edges() =~= old(self).edges());
                let _ = self.take_node(id);
                Vec::new()
            },
            None => {
                let mut replies: Vec<RootReply> = Vec::new();
                replies.push(RootReply { session, text, ended });
                replies
            },
        }
    }

    /// What handing a result on does to the agents: a subagent is gone and its parent
    /// is ready, and a root stays as it is.
    pub open spec fn result_routed(self, new: AgentRegistry<A>, id: AgentId) -> bool {
        &&& new.next_id == self.next_id
        &&& new.pending == self.pending
        &&& new.roots == self.roots
        &&& new.parked_approvals == self.parked_approvals
        &&& new.approval_pending == self.approval_pending
        &&& if self.edges().contains_key(id.0) && self.edges()[id.0].parent is Some {
            let parent = self.edges()[id.0].parent->Some_0;
            &&& new.edges() == self.edges().remove(id.0)
            &&& new.ready@ == (if self.edges().contains_key(parent.0) {
                queued(self.ready@, parent)
            } else {
                self.ready@
            })
        } else {
            new.edges() == self.edges() && new.ready@ == self.ready@
        }
    }

    /// Draws the consequences of an outcome.
    pub fn route_outcome(&mut self, id: AgentId, outcome: TickOutcome) -> (r: DriveOutput)
        requires
            old(self).wf(),
        ensures
            final(self).wf(),
            old(self).ordered() ==> final(self).ordered(),
            final(self).next_id == old(self).next_id,
            final(self).pending == old(self).pending,
            final(self).roots == old(self).roots,
            final(self).approval_pending == old(self).approval_pending,
            match result_of(outcome) {
                Some((text, ok, ended)) => {
                    &&& r.approvals@.len() == 0
                    &&& old(self).result_routed(*final(self), id)
                    &&& if old(self).edges().contains_key(id.0) && old(self).edges()[id.0].parent is None {
                        &&& r.replies@.len() == 1
                        &&& r.replies@[0].session == old(self).edges()[id.0].session
                        &&& r.replies@[0].text@ == text
                        &&& r.replies@[0].ended == ended
                    } else {
                        r.replies@.len() == 0
                    }
                },
                None => {
                    &&& final(self).edges() == old(self).edges()
                    &&& r.replies@.len() == 0
                    &&& match outcome {
                        TickOutcome::Working => r.empty() && final(self).ready@ == queued(old(self).ready@, id)
                            && final(self).parked_approvals == old(self).parked_approvals,
                        TickOutcome::AwaitingApproval { id: approval, summary } => if old(
                            self,
                        ).edges().contains_key(id.0) {
                            &&& final(self).parked_approvals@ == old(self).parked_approvals@.insert(id.0, approval)
                            &&& r.approvals@ == (if old(self).edges()[id.0].parent is None {
                                seq![
                                    ApprovalRequest {
                                        session: old(self).edges()[id.0].session,
                                        agent: id,
                                        approval,
                                        summary,
                                    },
                                ]
                            } else {
                                Seq::empty()
                            })
                        } else {
                            r.empty() && final(self).parked_approvals == old(self).parked_approvals
                                && final(self).ready@ == old(self).ready@
                        },
                        _ => r.empty() && *final(self) == *old(self),
                    }
                },
            },
            old(self)@.routed(final(self)@, id, outcome, r.replies@, r.approvals@),
    {
        match outcome {
            TickOutcome::Working => {
                self.enqueue(id);
                DriveOutput::default()
            },
            TickOutcome::Idle => DriveOutput::default(),
            TickOutcome::AwaitingApproval { id: approval, summary } => self.park_approval(id, approval, summary),
            TickOutcome::Yielded { text } => {
                let replies = self.route_result(id, text, true, false);
                DriveOutput { replies, approvals: Vec::new() }
            },
            TickOutcome::Ended { final_message } => {
                let replies = self.route_result(id, final_message, true, true);
                DriveOutput { replies, approvals: Vec::new() }
            },
            TickOutcome::Cancelled { reason } => {
                let text = concat3("[cancelled: ", reason.as_str(), "]");
                let replies = self.route_result(id, text, false, true);
                DriveOutput { replies, approvals: Vec::new() }
            },
            TickOutcome::Failed(error) => {
                let text = concat3("[failed: ", error.debug().as_str(), "]");
                let replies = self.route_result(id, text, false, true);
                DriveOutput { replies, approvals: Vec::new() }
            },
        }
    }
}

impl<A> AgentRegistry<A> {
    /// Whether every agent that was not there before has a new id.
    pub open spec fn only_new_ids(self, new: AgentRegistry<A>) -> bool {
        forall|id: usize| #[trigger]
            new.edges().contains_key(id) ==> self.edges().contains_key(id) || id >= self.next_id
    }
}

impl<A: Agent> AgentRegistry<A> {
    /// What a step may give to the user, and keeps: the agent that had its turn is
    /// the only one that can say something or be gone, and only where it is a root
    /// does it reach the user.
    pub open spec fn stepped(self, new: AgentRegistry<A>, r: DriveOutput) -> bool {
        if self.ready@.len() == 0 {
            r.empty() && new == self
        } else {
            let id = self.ready@[0];
            if !self.edges().contains_key(id.0) {
                &&& r.empty()
                &&& new.same_graph(self)
                &&& new.ready@ == self.ready@.drop_first()
                &&& new.parked_approvals == self.parked_approvals
                &&& new.approval_pending == self.approval_pending
            } else {
                let place = self.edges()[id.0];
                &&& new.pending@.len() == 0
                &&& new.approval_pending@.len() == 0
                &&& new.roots == self.roots
                &&& new.next_id >= self.next_id
                &&& self.pending@.len() == 0 ==> self.only_new_ids(new)
                &&& self.ordered() ==> forall|other: usize| #[trigger]
                    self.edges().contains_key(other) && (other != id.0 || place.parent is None)
                        ==> new.edges().contains_key(other)
                &&& r.replies@.len() + r.approvals@.len() <= 1
                &&& self.ordered() && place.parent is Some ==> r.empty()
                &&& self.ordered() ==> forall|i: int|
                    0 <= i < r.replies@.len() ==> (#[trigger] r.replies@[i]).session == place.session
                &&& self.ordered() ==> forall|i: int|
                    0 <= i < r.approvals@.len() ==> (#[trigger] r.approvals@[i]).session == place.session
                        && r.approvals@[i].agent == id
            }
        }
    }

    /// Notes the subagents that an agent asked for in its turn, under the ids that
    /// come next and as far as ids are left, and the verdicts that it reported.
    pub fn note_turn(&mut self, id: AgentId, spawns: Vec<SpawnOrder>, responses: Vec<ApprovalResponse>)
        requires
            old(self).wf(),
        ensures
            final(self).wf(),
            old(self).ordered() && id.0 < old(self).next_id ==> final(self).ordered(),
            final(self).nodes == old(self).nodes,
            final(self).ready == old(self).ready,
            final(self).roots == old(self).roots,
            final(self).parked_approvals == old(self).parked_approvals,
            final(self).pending@ == old(self).pending@ + requests_of(old(self).next_id, id, spawns@),
            final(self).next_id == old(self).next_id + requests_of(old(self).next_id, id, spawns@).len(),
            final(self).approval_pending@ == old(self).approval_pending@ + responses@,
            forall|outcome: TickOutcome|
                final(self)@ == #[trigger] old(self)@.noted(id, AgentTick { outcome, spawns, responses }),
    {
        let ghost first = self.next_id;
        let ghost orders = spawns@;
        let ghost all = requests_of(first, id, orders);
        assert(self.pending@ + all.take(0) =~= self.pending@);
        for order in it: spawns
            invariant
                it.seq() == orders,
                all == requests_of(first, id, orders),
                first == old(self).next_id,
                self.wf(),
                old(self).ordered() && id.0 < first ==> self.ordered() && id.0 < self.next_id,
                self.nodes == old(self).nodes,
                self.ready == old(self).ready,
                self.roots == old(self).roots,
                self.parked_approvals == old(self).parked_approvals,
                self.approval_pending == old(self).approval_pending,
                it.index() <= all.len() ==> self.next_id == first + it.index() && self.pending@ == old(self).pending@
                    + all.take(it.index() as int),
                it.index() >= all.len() ==> self.next_id == first + all.len() && self.pending@ == old(self).pending@
                    + all,
        {
            let ghost i = it.index() as int;
            let ghost before = self.pending@;
            proof {
                if i < all.len() {
                    assert(order == orders[i]);
                    assert(all[i] == SpawnRequest { id: AgentId(self.next_id), parent: id, kind: order.kind, goal: order.goal });
                }
            }
            let ghost next = self.next_id;
            let ghost wanted = SpawnRequest { id: AgentId(next), parent: id, kind: order.kind, goal: order.goal };
            let _ = self.order(id, order.kind, order.goal);
            proof {
                if i < all.len() {
                    assert(self.pending@ =~= before.push(wanted));
                    assert(old(self).pending@ + all.take(i + 1) =~= (old(self).pending@ + all.take(i)).push(all[i]));
                    if i + 1 == all.len() {
                        assert(all.take(i + 1) =~= all);
                    }
                }
            }
        }
        assert(all.take(all.len() as int) =~= all);
        let ghost told = responses@;
        assert(self.approval_pending@ + told.take(0) =~= self.approval_pending@);
        for response in it: responses
            invariant
                it.seq() == told,
                self.wf(),
                old(self).ordered() && id.0 < old(self).next_id ==> self.ordered(),
                self.nodes == old(self).nodes,
                self.ready == old(self).ready,
                self.roots == old(self).roots,
                self.parked_approvals == old(self).parked_approvals,
                self.next_id == old(self).next_id + all.len(),
                self.pending@ == old(self).pending@ + all,
                self.approval_pending@ == old(self).approval_pending@ + told.take(it.index() as int),
        {
            let ghost i = it.index() as int;
            let ghost before = self.approval_pending@;
            assert(response == told[i]);
            self.report(response.target, response.verdict, response.note);
            assert(self.approval_pending@ =~= before.push(response));
            assert(old(self).approval_pending@ + told.take(i + 1) =~= (old(self).approval_pending@ + told.take(
                i,
            )).push(told[i]));
        }
        assert(told.take(told.len() as int) =~= told);
    }

    /// Gives the first ready agent its turn, makes the subagents that it asks for,
    /// passes its verdicts on and draws the consequences of its outcome.
    pub fn tick_once<F: AgentFactory<A>>(&mut self, factory: &F) -> (r: DriveOutput)
        requires
            old(self).wf(),
        ensures
            final(self).wf(),
            old(self).ordered() ==> final(self).ordered(),
            old(self).stepped(*final(self), r),
            old(self)@.turn(*factory, final(self)@, r.replies@, r.approvals@),
    {
        if self.ready.len() == 0 {
            return DriveOutput::default();
        }
        let id = match self.ready.pop_front() {
            Some(id) => id,
            None => {
                return DriveOutput::default();
            },
        };
        proof {
            assert(self.ready@ =~= old(self).ready@.drop_first());
            lemma_drop_first_distinct(old(self).ready@);
            assert(self.edges() == old(self).edges());
        }
        let mut node = match self.take_node(id) {
            Some(node) => node,
            None => {
                return DriveOutput::default();
            },
        };
        let ghost begun = RegistryV { ready: old(self)@.ready.drop_first(), ..old(self)@ };
        let tick = node.agent.tick(AgentId(self.next_id));
        let ghost acted = tick;
        self.put_node(id, node);
        assert(self.edges() =~= old(self).edges());
        assert(self@ =~= begun.with_agent(id, node.agent));
        let ghost start = *self;
        let AgentTick { outcome, spawns, responses } = tick;
        let ghost orders = spawns@;
        self.note_turn(id, spawns, responses);
        assert(self.edges() == old(self).edges());
        let ghost noted = *self;
        assert(noted@ == begun.with_agent(id, node.agent).noted(id, acted));
        self.materialize_pending(factory);
        let ghost made = *self;
        self.apply_approval_responses();
        let ghost answered = *self;
        proof {
            assert(noted.edges().contains_key(id.0));
            assert(self.edges().contains_key(id.0));
            if old(self).ordered() {
                assert(self.edges()[id.0] == old(self).edges()[id.0]);
                assert forall|other: usize| #[trigger] old(self).edges().contains_key(other) implies self.edges().contains_key(
                    other,
                ) by {
                    assert(noted.edges().contains_key(other));
                }
            }
            if old(self).pending@.len() == 0 {
                assert(noted.pending@ =~= requests_of(start.next_id, id, orders));
                assert(old(self).only_new_ids(*self));
            }
        }
        let r = self.route_outcome(id, outcome);
        proof {
            assert(old(self)@.nodes[id.0].agent.acts(AgentId(old(self)@.next_id), acted, node.agent));
            assert(begun.with_agent(id, node.agent).noted(id, acted).all_carried_out(*factory, made@));
            assert(made@.all_responded(answered@));
            assert(answered@.routed(self@, id, acted.outcome, r.replies@, r.approvals@));
        }
        r
    }

    /// Gives ready agents their turns until none is ready, or `max_steps` turns were
    /// had, and collects what they give.
    pub fn run_until_idle<F: AgentFactory<A>>(&mut self, factory: &F, max_steps: u64) -> (r: DriveOutput)
        requires
            old(self).wf(),
        ensures
            final(self).wf(),
            old(self).ordered() ==> final(self).ordered(),
            final(self).roots == old(self).roots,
            final(self).next_id >= old(self).next_id,
            r.replies@.len() + r.approvals@.len() <= max_steps,
            old(self).pending@.len() == 0 ==> final(self).pending@.len() == 0 && old(self).only_new_ids(*final(self)),
            max_steps > 0 && old(self).ready@.len() == 0 && old(self).approval_pending@.len() == 0 ==> r.empty()
                && final(self).same_graph(*old(self)),
            old(self)@.driven(*factory, final(self)@, r.replies@, r.approvals@, max_steps as nat),
    {
        let mut output = DriveOutput::default();
        let mut steps: u64 = 0;
        while steps < max_steps
            invariant
                steps <= max_steps,
                self.wf(),
                old(self).ordered() ==> self.ordered(),
                self.roots == old(self).roots,
                self.next_id >= old(self).next_id,
                output.replies@.len() + output.approvals@.len() <= steps,
                old(self).pending@.len() == 0 ==> self.pending@.len() == 0 && old(self).only_new_ids(*self),
                old(self).ready@.len() == 0 && old(self).approval_pending@.len() == 0 ==> steps == 0 && self.same_graph(
                    *old(self),
                ) && self.ready@.len() == 0 && self.approval_pending@.len() == 0,
                old(self)@.turns(*factory, self@, output.replies@, output.approvals@, steps as nat),
            decreases max_steps - steps,
        {
            let ghost before = *self;
            let ghost said = (output.replies@, output.approvals@);
            self.apply_approval_responses();
            if !self.has_ready() {
                assert(old(self)@.turns(*factory, before@, output.replies@, output.approvals@, steps as nat));
                return output;
            }
            let ghost answered = *self;
            let step = self.tick_once(factory);
            let ghost gave = (step.replies@, step.approvals@);
            output.absorb(step);
            proof {
                assert(old(self)@.turns(*factory, before@, said.0, said.1, steps as nat));
                assert(before@.all_responded(answered@));
                assert(answered@.turn(*factory, self@, gave.0, gave.1));
                let all = (said.0 + gave.0, said.1 + gave.1);
                assert(all.0.take(all.0.len() - gave.0.len()) =~= said.0);
                assert(all.1.take(all.1.len() - gave.1.len()) =~= said.1);
                assert(gave.0.is_suffix_of(all.0));
                assert(gave.1.is_suffix_of(all.1));
                assert(old(self)@.turns(*factory, self@, all.0, all.1, (steps + 1) as nat));
            }
            steps = steps + 1;
        }
        output
    }
}

/// The requests that the orders of an agent come to, from the id `first` on and as
/// far as ids are left.
pub open spec fn requests_of(first: usize, parent: AgentId, orders: Seq<SpawnOrder>) -> Seq<SpawnRequest> {
    let room = usize::MAX - first;
    let n = if orders.len() <= room {
        orders.len()
    } else {
        room as nat
    };
    Seq::new(
        n,
        |i: int|
            SpawnRequest { id: AgentId((first + i) as usize), parent, kind: orders[i].kind, goal: orders[i].goal },
    )
}

proof fn lemma_told_verdicts<A: Agent>(
    s: RegistryV<A>,
    t: RegistryV<A>,
    id: AgentId,
    command: AgentCommand,
    reply: Result<(), AgentCommandError>,
)
    requires
        s.told(t, id, command, reply),
    ensures
        s.without_verdicts().told(
            t.without_verdicts(),
            id,
            command,
            reply,
        ),
{
    let s0 = s.without_verdicts();
    let t0 = t.without_verdicts();
    let after = choose|after: A| #[trigger]
        s.nodes[id.0].agent.takes(command, reply, after) && t == s.with_agent(id, after);
    assert(s0.nodes[id.0].agent.takes(command, reply, after));
    assert(t0 == s0.with_agent(id, after));
}

proof fn lemma_verdicts_do_not_matter<A: Agent>(s: RegistryV<A>, t: RegistryV<A>, response: ApprovalResponse)
    requires
        s.responded(t, response),
    ensures
        s.without_verdicts().responded(t.without_verdicts(), response),
{
    let s0 = s.without_verdicts();
    let t0 = t.without_verdicts();
    let target = response.target;
    if s.parked.contains_key(target.0) {
        let u = RegistryV { parked: s.parked.remove(target.0), ..s };
        let u0 = RegistryV { parked: s0.parked.remove(target.0), ..s0 };
        assert(u0 == u.without_verdicts());
        let approval = s.parked[target.0];
        let (decision, r) = choose|decision: ApprovalDecision, r: Result<(), ResolveApprovalError>|
            {
                &&& decision_of(response.verdict, opt_view(response.note), decision)
                &&& #[trigger] u.resolved(t, target, approval, decision, r)
            };
        let command = AgentCommand::ApprovalResult { id: approval, decision };
        match r {
            Err(ResolveApprovalError::UnknownAgent(_)) => {},
            Err(ResolveApprovalError::Command(e)) => {
                lemma_told_verdicts(u, t, target, command, Err(e));
            },
            Ok(done) => {
                let mid = choose|mid: RegistryV<A>| #[trigger]
                    u.told(mid, target, command, Ok(done)) && t == mid.with_ready(target);
                lemma_told_verdicts(u, mid, target, command, Ok(done));
                let mid0 = mid.without_verdicts();
                assert(u0.told(mid0, target, command, Ok(done)));
                assert(t0 == mid0.with_ready(target));
            },
        }
        assert(u0.resolved(t0, target, approval, decision, r));
    }
}

proof fn lemma_pending_does_not_matter<A: Agent, F: AgentFactory<A>>(
    factory: F,
    s: RegistryV<A>,
    t: RegistryV<A>,
    request: SpawnRequest,
)
    requires
        s.carried_out(factory, t, request),
    ensures
        s.without_pending().carried_out(
            factory,
            t.without_pending(),
            request,
        ),
{
    let s0 = s.without_pending();
    let t0 = t.without_pending();
    if s.nodes.contains_key(request.parent.0) {
        let made = choose|made: Result<A, String>|
            {
                &&& #[trigger] factory.makes(request.id, request.kind, request.goal, false, made)
                &&& match made {
                    Ok(agent) => t == s.with_node(request.id, s.subagent(agent, request)).with_ready(request.id),
                    Err(_) => t == s,
                }
            };
        assert(factory.makes(request.id, request.kind, request.goal, false, made));
        match made {
            Ok(agent) => {
                assert(t0 == s0.with_node(request.id, s0.subagent(agent, request)).with_ready(request.id));
            },
            Err(_) => {},
        }
    }
}

proof fn lemma_drop_first_distinct(s: Seq<AgentId>)
    requires
        s.len() > 0,
        s.no_duplicates(),
    ensures
        s.drop_first().no_duplicates(),
{
    let t = s.drop_first();
    assert forall|i: int, j: int| 0 <= i < t.len() && 0 <= j < t.len() && i != j implies t[i] != t[j] by {
        assert(t[i] == s[i + 1]);
        assert(t[j] == s[j + 1]);
    }
}

/// The agent that is `steps` places up from an agent.
pub open spec fn ancestor(edges: Map<usize, Edge>, id: usize, steps: nat) -> Option<usize>
    decreases steps,
{
    if steps == 0 {
        Some(id)
    } else {
        match ancestor(edges, id, (steps - 1) as nat) {
            Some(a) => if edges.contains_key(a) {
                match edges[a].parent {
                    Some(p) => Some(p.0),
                    None => None,
                }
            } else {
                None
            },
            None => None,
        }
    }
}

/// No agent comes from itself: going up from agent to agent never leads back.
pub proof fn law_no_agent_comes_from_itself<A>(registry: AgentRegistry<A>, id: usize, steps: nat)
    requires
        registry.ordered(),
        steps > 0,
    ensures
        ancestor(registry.edges(), id, steps) matches Some(a) ==> a < id,
    decreases steps,
{
    reveal_with_fuel(ancestor, 2);
    if steps > 1 {
        law_no_agent_comes_from_itself(registry, id, (steps - 1) as nat);
    }
    let below = ancestor(registry.edges(), id, (steps - 1) as nat);
    if below is Some {
        let b = below->Some_0;
        if registry.edges().contains_key(b) {
            assert(registry.edges().contains_key(b));
        }
    }
}

/// What a subagent says, or asks a human, never reaches the user directly.
pub proof fn law_subagent_does_not_reach_the_user<A: Agent>(
    before: AgentRegistry<A>,
    after: AgentRegistry<A>,
    output: DriveOutput,
)
    requires
        before.ordered(),
        before.stepped(after, output),
        before.ready@.len() > 0,
        before.edges().contains_key(before.ready@[0].0),
        before.edges()[before.ready@[0].0].parent is Some,
    ensures
        output.replies@.len() == 0,
        output.approvals@.len() == 0,
{
}

/// A root stays when its task ends: the session goes on.
pub proof fn law_root_outlives_its_task<A: Agent>(
    before: AgentRegistry<A>,
    after: AgentRegistry<A>,
    output: DriveOutput,
    root: usize,
)
    requires
        before.ordered(),
        before.stepped(after, output),
        before.edges().contains_key(root),
        before.edges()[root].parent is None,
    ensures
        after.edges().contains_key(root),
{
}

/// The subagents that an agent asks for get ids of their own, in order, that no
/// agent has or had.
pub proof fn law_subagents_get_new_ids<A>(registry: AgentRegistry<A>, parent: AgentId, orders: Seq<SpawnOrder>, i: int, j: int)
    requires
        registry.ordered(),
        0 <= i < j < requests_of(registry.next_id, parent, orders).len(),
    ensures
        ({
            let r = requests_of(registry.next_id, parent, orders);
            &&& r[i].id.0 < r[j].id.0
            &&& !registry.edges().contains_key(r[i].id.0)
            &&& !registry.edges().contains_key(r[j].id.0)
            &&& registry.next_id <= r[i].id.0
        }),
{
}

/// What a subagent comes to is handed to the agent that asked for it, which is ready
/// for it; the subagent is gone.
pub proof fn law_result_reaches_the_parent<A: Agent>(
    before: RegistryV<A>,
    after: RegistryV<A>,
    child: AgentId,
    parent: AgentId,
    outcome: TickOutcome,
    replies: Seq<RootReply>,
    approvals: Seq<ApprovalRequest>,
)
    requires
        before.routed(after, child, outcome, replies, approvals),
        result_of(outcome) is Some,
        before.nodes.contains_key(child.0),
        before.nodes[child.0].parent == Some(parent),
        before.nodes.contains_key(parent.0),
        parent != child,
    ensures
        ({
            let (text, ok, _) = result_of(outcome).unwrap();
            &&& exists|message: String| message@ == text && #[trigger] before.nodes[parent.0].agent.hears(
                child,
                message,
                ok,
                after.nodes[parent.0].agent,
            )
            &&& after.nodes.contains_key(parent.0)
            &&& after.ready.contains(parent)
            &&& !after.nodes.contains_key(child.0)
            &&& replies.len() == 0
        }),
{
    let (text, ok, _) = result_of(outcome).unwrap();
    let (message, heard) = choose|message: String, heard: A|
        {
            &&& message@ == text
            &&& #[trigger] before.nodes[parent.0].agent.hears(child, message, ok, heard)
            &&& after == before.with_agent(parent, heard).with_ready(parent).without(child)
        };
    lemma_queued_has(before.ready, parent);
    assert(after.nodes[parent.0].agent == heard);
}

/// A subagent that needs a decision asks the root of its session, which is ready to
/// hear of it; the user is not asked.
pub proof fn law_subagent_asks_the_root<A: Agent>(
    before: RegistryV<A>,
    after: RegistryV<A>,
    child: AgentId,
    approval: ApprovalId,
    summary: String,
    replies: Seq<RootReply>,
    approvals: Seq<ApprovalRequest>,
)
    requires
        before.routed(after, child, TickOutcome::AwaitingApproval { id: approval, summary }, replies, approvals),
        before.nodes.contains_key(child.0),
        before.nodes[child.0].parent is Some,
        before.roots.contains_key(before.nodes[child.0].session.0),
        before.nodes.contains_key(before.roots[before.nodes[child.0].session.0].0),
    ensures
        ({
            let root = before.roots[before.nodes[child.0].session.0];
            &&& approvals.len() == 0
            &&& after.parked.contains_key(child.0)
            &&& after.parked[child.0] == approval
            &&& after.ready.contains(root)
            &&& exists|message: String, reply: Result<(), AgentCommandError>|
                {
                    &&& message@ == bubbled(child, summary@)
                    &&& #[trigger] before.nodes[root.0].agent.takes(
                        AgentCommand::AppendMessage(message),
                        reply,
                        after.nodes[root.0].agent,
                    )
                }
        }),
{
    let root = before.roots[before.nodes[child.0].session.0];
    let waiting = RegistryV { parked: before.parked.insert(child.0, approval), ..before };
    let (mid, message, reply) = choose|mid: RegistryV<A>, message: String, reply: Result<(), AgentCommandError>|
        {
            &&& message@ == bubbled(child, summary@)
            &&& #[trigger] waiting.told(mid, root, AgentCommand::AppendMessage(message), reply)
            &&& after == mid.with_ready(root)
        };
    lemma_queued_has(mid.ready, root);
    let grown = choose|grown: A| #[trigger]
        waiting.nodes[root.0].agent.takes(AgentCommand::AppendMessage(message), reply, grown) && mid == waiting.with_agent(
            root,
            grown,
        );
    assert(after.nodes[root.0].agent == grown);
}

/// A verdict reaches the agent that waits for it as the decision on what it asked
/// for: an approval for a yes, a rejection for any other. The agent waits no more.
pub proof fn law_verdict_reaches_the_waiting_agent<A: Agent>(
    before: RegistryV<A>,
    after: RegistryV<A>,
    response: ApprovalResponse,
)
    requires
        before.responded(after, response),
        before.parked.contains_key(response.target.0),
        before.nodes.contains_key(response.target.0),
    ensures
        !after.parked.contains_key(response.target.0),
        exists|decision: ApprovalDecision, reply: Result<(), AgentCommandError>|
            {
                &&& response.verdict == ApprovalVerdict::Yes <==> decision == ApprovalDecision::Approved
                &&& #[trigger] before.nodes[response.target.0].agent.takes(
                    AgentCommand::ApprovalResult { id: before.parked[response.target.0], decision },
                    reply,
                    after.nodes[response.target.0].agent,
                )
                &&& reply is Ok ==> after.ready.contains(response.target)
            },
{
    let target = response.target;
    let approval = before.parked[target.0];
    let unparked = RegistryV { parked: before.parked.remove(target.0), ..before };
    let (decision, r) = choose|decision: ApprovalDecision, r: Result<(), ResolveApprovalError>|
        {
            &&& decision_of(response.verdict, opt_view(response.note), decision)
            &&& #[trigger] unparked.resolved(after, target, approval, decision, r)
        };
    let command = AgentCommand::ApprovalResult { id: approval, decision };
    match r {
        Ok(u) => {
            let mid = choose|mid: RegistryV<A>| #[trigger]
                unparked.told(mid, target, command, Ok(u)) && after == mid.with_ready(target);
            lemma_queued_has(mid.ready, target);
            let grown = choose|grown: A| #[trigger]
                unparked.nodes[target.0].agent.takes(command, Ok(u), grown) && mid == unparked.with_agent(target, grown);
            assert(after.nodes[target.0].agent == grown);
        },
        Err(ResolveApprovalError::Command(e)) => {
            let reply = Err::<(), AgentCommandError>(e);
            let grown = choose|grown: A| #[trigger]
                unparked.nodes[target.0].agent.takes(command, reply, grown) && after == unparked.with_agent(target, grown);
            assert(after.nodes[target.0].agent == grown);
        },
        Err(ResolveApprovalError::UnknownAgent(_)) => {},
    }
}

/// What a subagent comes to is a success for the agent that asked for it exactly where
/// the subagent yielded or ended; one that failed or was cancelled did not succeed. It is
/// told in the subagent's own words where there are any, else by what stopped it.
/// Nothing else changes but that the subagent is gone.
pub proof fn law_parent_hears_how_it_went<A: Agent>(
    before: RegistryV<A>,
    after: RegistryV<A>,
    child: AgentId,
    parent: AgentId,
    outcome: TickOutcome,
    replies: Seq<RootReply>,
    approvals: Seq<ApprovalRequest>,
)
    requires
        before.routed(after, child, outcome, replies, approvals),
        outcome is Yielded || outcome is Ended || outcome is Failed || outcome is Cancelled,
        before.nodes.contains_key(child.0),
        before.nodes[child.0].parent == Some(parent),
        before.nodes.contains_key(parent.0),
        parent != child,
    ensures
        outcome matches TickOutcome::Yielded { text } ==> exists|message: String| message@ == text@
            && #[trigger] before.nodes[parent.0].agent.hears(child, message, true, after.nodes[parent.0].agent),
        outcome matches TickOutcome::Ended { final_message } ==> exists|message: String| message@ == final_message@
            && #[trigger] before.nodes[parent.0].agent.hears(child, message, true, after.nodes[parent.0].agent),
        outcome matches TickOutcome::Failed(e) ==> exists|message: String| message@ == "[failed: "@ + e.debug_text()
            + "]"@ && #[trigger] before.nodes[parent.0].agent.hears(
            child,
            message,
            false,
            after.nodes[parent.0].agent,
        ),
        outcome matches TickOutcome::Cancelled { reason } ==> exists|message: String| message@ == "[cancelled: "@
            + reason.name() + "]"@ && #[trigger] before.nodes[parent.0].agent.hears(
            child,
            message,
            false,
            after.nodes[parent.0].agent,
        ),
        after.nodes[parent.0] == (Node { agent: after.nodes[parent.0].agent, ..before.nodes[parent.0] }),
        after.ready.contains(parent),
        after.nodes.dom() == before.nodes.dom().remove(child.0),
        forall|other: usize|
            other != parent.0 && other != child.0 && before.nodes.contains_key(other) ==> #[trigger] after.nodes[other]
                == before.nodes[other],
        after.next_id == before.next_id,
        after.roots == before.roots,
        after.parked == before.parked,
        after.pending == before.pending,
        after.verdicts == before.verdicts,
        replies.len() == 0,
        approvals.len() == 0,
{
    let (text, ok, _) = result_of(outcome).unwrap();
    let (message, heard) = choose|message: String, heard: A|
        {
            &&& message@ == text
            &&& #[trigger] before.nodes[parent.0].agent.hears(child, message, ok, heard)
            &&& after == before.with_agent(parent, heard).with_ready(parent).without(child)
        };
    lemma_queued_has(before.ready, parent);
    assert(after.nodes[parent.0].agent == heard);
    assert(after.nodes.dom() =~= before.nodes.dom().remove(child.0));
}

/// What a root comes to is one reply to the user of its own session, in the root's own
/// words where there are any, else by what stopped it. The task is over unless the root
/// only yielded. The registry stays as it was.
pub proof fn law_root_replies_to_its_session<A: Agent>(
    before: RegistryV<A>,
    after: RegistryV<A>,
    root: AgentId,
    outcome: TickOutcome,
    replies: Seq<RootReply>,
    approvals: Seq<ApprovalRequest>,
)
    requires
        before.routed(after, root, outcome, replies, approvals),
        outcome is Yielded || outcome is Ended || outcome is Failed || outcome is Cancelled,
        before.nodes.contains_key(root.0),
        before.nodes[root.0].parent is None,
    ensures
        replies.len() == 1,
        replies[0].session == before.nodes[root.0].session,
        replies[0].ended <==> outcome !is Yielded,
        outcome matches TickOutcome::Yielded { text } ==> replies[0].text@ == text@,
        outcome matches TickOutcome::Ended { final_message } ==> replies[0].text@ == final_message@,
        outcome matches TickOutcome::Failed(e) ==> replies[0].text@ == "[failed: "@ + e.debug_text() + "]"@,
        outcome matches TickOutcome::Cancelled { reason } ==> replies[0].text@ == "[cancelled: "@ + reason.name()
            + "]"@,
        after == before,
        approvals.len() == 0,
{
}

/// An agent that works on is ready again, behind those that were ready before it; one
/// that is idle is not. Neither says anything, and nothing else changes.
pub proof fn law_working_agent_is_ready_again<A: Agent>(
    before: RegistryV<A>,
    after: RegistryV<A>,
    id: AgentId,
    outcome: TickOutcome,
    replies: Seq<RootReply>,
    approvals: Seq<ApprovalRequest>,
)
    requires
        before.routed(after, id, outcome, replies, approvals),
        outcome is Working || outcome is Idle,
    ensures
        replies.len() == 0,
        approvals.len() == 0,
        outcome is Working && !before.ready.contains(id) ==> after.ready.len() == before.ready.len() + 1
            && after.ready.last() == id,
        outcome is Working && before.ready.contains(id) ==> after.ready == before.ready,
        before.ready.is_prefix_of(after.ready),
        outcome is Idle ==> after == before,
        after == (RegistryV { ready: after.ready, ..before }),
{
}

/// A root that needs a decision asks the user of its own session, once and for what it
/// was asked; until then the registry remembers what the root waits for.
pub proof fn law_root_asks_the_user<A: Agent>(
    before: RegistryV<A>,
    after: RegistryV<A>,
    root: AgentId,
    approval: ApprovalId,
    summary: String,
    replies: Seq<RootReply>,
    approvals: Seq<ApprovalRequest>,
)
    requires
        before.routed(after, root, TickOutcome::AwaitingApproval { id: approval, summary }, replies, approvals),
        before.nodes.contains_key(root.0),
        before.nodes[root.0].parent is None,
    ensures
        replies.len() == 0,
        approvals.len() == 1,
        approvals[0].session == before.nodes[root.0].session,
        approvals[0].agent == root,
        approvals[0].approval == approval,
        approvals[0].summary@ == summary@,
        after.parked.contains_key(root.0),
        after.parked[root.0] == approval,
        after == (RegistryV { parked: after.parked, ..before }),
        forall|other: usize|
            other != root.0 ==> after.parked.contains_key(other) == before.parked.contains_key(other)
                && #[trigger] after.parked[other] == before.parked[other],
{
}

/// What a subagent asks of the root of its session names the subagent and says what it
/// wants decided, in the subagent's own words.
pub proof fn law_root_hears_who_asks<A: Agent>(
    before: RegistryV<A>,
    after: RegistryV<A>,
    child: AgentId,
    approval: ApprovalId,
    summary: String,
    replies: Seq<RootReply>,
    approvals: Seq<ApprovalRequest>,
)
    requires
        before.routed(after, child, TickOutcome::AwaitingApproval { id: approval, summary }, replies, approvals),
        before.nodes.contains_key(child.0),
        before.nodes[child.0].parent is Some,
        before.roots.contains_key(before.nodes[child.0].session.0),
        before.nodes.contains_key(before.roots[before.nodes[child.0].session.0].0),
    ensures
        ({
            let root = before.roots[before.nodes[child.0].session.0];
            exists|message: String, reply: Result<(), AgentCommandError>|
                {
                    &&& message@ == "[approval request from "@ + child.wire() + "] "@ + summary@
                    &&& #[trigger] before.nodes[root.0].agent.takes(
                        AgentCommand::AppendMessage(message),
                        reply,
                        after.nodes[root.0].agent,
                    )
                }
        }),
        replies.len() == 0,
        approvals.len() == 0,
{
    law_subagent_asks_the_root(before, after, child, approval, summary, replies, approvals);
}

/// A yes approves. Any other verdict rejects, with the note that came with it as the
/// reason, and without one with the reason "rejected". It decides what the agent waited
/// for, and the agent that took it is ready.
pub proof fn law_verdict_is_the_decision<A: Agent>(before: RegistryV<A>, after: RegistryV<A>, response: ApprovalResponse)
    requires
        before.responded(after, response),
        before.parked.contains_key(response.target.0),
        before.nodes.contains_key(response.target.0),
    ensures
        response.verdict is Yes ==> exists|reply: Result<(), AgentCommandError>| #[trigger]
            before.nodes[response.target.0].agent.takes(
                AgentCommand::ApprovalResult {
                    id: before.parked[response.target.0],
                    decision: ApprovalDecision::Approved,
                },
                reply,
                after.nodes[response.target.0].agent,
            ) && (reply is Ok ==> after.ready.contains(response.target)),
        response.verdict !is Yes ==> exists|reason: String, reply: Result<(), AgentCommandError>|
            {
                &&& response.note matches Some(note) ==> reason@ == note@
                &&& response.note is None ==> reason@ == "rejected"@
                &&& #[trigger] before.nodes[response.target.0].agent.takes(
                    AgentCommand::ApprovalResult {
                        id: before.parked[response.target.0],
                        decision: ApprovalDecision::Rejected(reason),
                    },
                    reply,
                    after.nodes[response.target.0].agent,
                )
                &&& reply is Ok ==> after.ready.contains(response.target)
            },
{
    let target = response.target;
    let approval = before.parked[target.0];
    let unparked = RegistryV { parked: before.parked.remove(target.0), ..before };
    let (decision, r) = choose|decision: ApprovalDecision, r: Result<(), ResolveApprovalError>|
        {
            &&& decision_of(response.verdict, opt_view(response.note), decision)
            &&& #[trigger] unparked.resolved(after, target, approval, decision, r)
        };
    law_decision_is_handed_over(unparked, after, target, approval, decision, r);
}

/// A decision is handed to the agent that it is meant for, as the answer to what it was
/// asked for. The agent is ready where it took the decision. Where it refused it, what it
/// said is the error; an agent that is not there is the other error, and nothing changes.
pub proof fn law_decision_is_handed_over<A: Agent>(
    before: RegistryV<A>,
    after: RegistryV<A>,
    id: AgentId,
    approval: ApprovalId,
    decision: ApprovalDecision,
    r: Result<(), ResolveApprovalError>,
)
    requires
        before.resolved(after, id, approval, decision, r),
    ensures
        r matches Err(ResolveApprovalError::UnknownAgent(unknown)) ==> unknown == id && after == before,
        !before.nodes.contains_key(id.0) <==> r matches Err(ResolveApprovalError::UnknownAgent(_)),
        r matches Err(ResolveApprovalError::Command(e)) ==> after.ready == before.ready
            && before.nodes[id.0].agent.takes(
            AgentCommand::ApprovalResult { id: approval, decision },
            Err(e),
            after.nodes[id.0].agent,
        ),
        r matches Ok(done) ==> after.ready.contains(id) && before.nodes[id.0].agent.takes(
            AgentCommand::ApprovalResult { id: approval, decision },
            Ok(done),
            after.nodes[id.0].agent,
        ),
        after.parked == before.parked,
        forall|other: usize| other != id.0 ==> after.nodes.contains_key(other) == before.nodes.contains_key(other)
            && #[trigger] after.nodes[other] == before.nodes[other],
{
    let command = AgentCommand::ApprovalResult { id: approval, decision };
    match r {
        Ok(u) => {
            let mid = choose|mid: RegistryV<A>| #[trigger]
                before.told(mid, id, command, Ok(u)) && after == mid.with_ready(id);
            lemma_queued_has(mid.ready, id);
            let grown = choose|grown: A| #[trigger]
                before.nodes[id.0].agent.takes(command, Ok(u), grown) && mid == before.with_agent(id, grown);
            assert(after.nodes[id.0].agent == grown);
        },
        Err(ResolveApprovalError::Command(e)) => {
            let reply = Err::<(), AgentCommandError>(e);
            let grown = choose|grown: A| #[trigger]
                before.nodes[id.0].agent.takes(command, reply, grown) && after == before.with_agent(id, grown);
            assert(after.nodes[id.0].agent == grown);
        },
        Err(ResolveApprovalError::UnknownAgent(_)) => {},
    }
}

/// A verdict for an agent that waits for none changes nothing but that.
pub proof fn law_verdict_nobody_waits_for_is_dropped<A: Agent>(
    before: RegistryV<A>,
    after: RegistryV<A>,
    response: ApprovalResponse,
)
    requires
        before.responded(after, response),
        !before.parked.contains_key(response.target.0),
    ensures
        after.nodes == before.nodes,
        after.ready == before.ready,
        after.parked == before.parked,
        after.pending == before.pending,
        after.roots == before.roots,
{
    assert(before.parked.remove(response.target.0) =~= before.parked);
}

/// A message for an agent reaches it with the words that it came with, and the agent is
/// ready for it; one for an agent that is not there changes nothing.
pub proof fn law_message_makes_ready<A: Agent>(before: RegistryV<A>, after: RegistryV<A>, id: AgentId, text: Seq<char>)
    requires
        before.delivered(after, id, text),
    ensures
        before.nodes.contains_key(id.0) ==> after.ready.contains(id) && exists|
            message: String,
            reply: Result<(), AgentCommandError>,
        |
            message@ == text && #[trigger] before.nodes[id.0].agent.takes(
                AgentCommand::AppendMessage(message),
                reply,
                after.nodes[id.0].agent,
            ),
        !before.nodes.contains_key(id.0) ==> after == before,
        before.ready.is_prefix_of(after.ready),
{
    if before.nodes.contains_key(id.0) {
        let (mid, message, reply) = choose|mid: RegistryV<A>, message: String, reply: Result<(), AgentCommandError>|
            {
                &&& message@ == text
                &&& #[trigger] before.told(mid, id, AgentCommand::AppendMessage(message), reply)
                &&& after == mid.with_ready(id)
            };
        lemma_queued_has(mid.ready, id);
        let grown = choose|grown: A| #[trigger]
            before.nodes[id.0].agent.takes(AgentCommand::AppendMessage(message), reply, grown) && mid
                == before.with_agent(id, grown);
        assert(after.nodes[id.0].agent == grown);
    }
}

/// A subagent is made of the kind and for the goal that were asked for, and not as a
/// root. It belongs to the agent that asked, to that agent's session, one step deeper,
/// and is ready. Where none was made, or who asked is gone, nothing changes.
pub proof fn law_subagent_takes_its_place<A: Agent, F: AgentFactory<A>>(
    factory: F,
    before: RegistryV<A>,
    after: RegistryV<A>,
    request: SpawnRequest,
)
    requires
        before.carried_out(factory, after, request),
    ensures
        !before.nodes.contains_key(request.parent.0) ==> after == before,
        before.nodes.contains_key(request.parent.0) ==> exists|made: Result<A, String>|
            {
                &&& #[trigger] factory.makes(request.id, request.kind, request.goal, false, made)
                &&& made is Err ==> after == before
                &&& made matches Ok(agent) ==> {
                    let node = after.nodes[request.id.0];
                    &&& after.nodes.contains_key(request.id.0)
                    &&& node.agent == agent
                    &&& node.kind == request.kind
                    &&& node.parent == Some(request.parent)
                    &&& node.session == before.nodes[request.parent.0].session
                    &&& before.nodes[request.parent.0].depth < u16::MAX ==> node.depth
                        == before.nodes[request.parent.0].depth + 1
                    &&& after.ready.contains(request.id)
                    &&& after.roots == before.roots
                }
            },
        forall|other: usize|
            other != request.id.0 ==> after.nodes.contains_key(other) == before.nodes.contains_key(other)
                && #[trigger] after.nodes[other] == before.nodes[other],
{
    lemma_queued_has(before.ready, request.id);
}

/// A root is made of the kind and for the goal that were asked for, and as a root. It has
/// no parent, stands at the top of its session, which it is the root of, and is ready.
pub proof fn law_root_takes_its_place<A: Agent, F: AgentFactory<A>>(
    factory: F,
    before: RegistryV<A>,
    after: RegistryV<A>,
    kind: AgentKind,
    session: SessionId,
    goal: String,
    r: Result<AgentId, String>,
)
    requires
        before.rooted(factory, after, kind, session, goal, r),
        before.next_id < usize::MAX,
    ensures
        after.next_id == before.next_id + 1,
        exists|made: Result<A, String>|
            {
                &&& #[trigger] factory.makes(AgentId(before.next_id), kind, goal, true, made)
                &&& made matches Err(e) ==> r == Err::<AgentId, String>(e)
                &&& made matches Ok(agent) ==> {
                    let node = after.nodes[before.next_id];
                    &&& r == Ok::<AgentId, String>(AgentId(before.next_id))
                    &&& after.nodes.contains_key(before.next_id)
                    &&& node.agent == agent
                    &&& node.kind == kind
                    &&& node.parent is None
                    &&& node.session == session
                    &&& node.depth == 0
                }
            },
        r is Err ==> after.nodes == before.nodes && after.ready == before.ready && after.roots == before.roots,
        r matches Ok(id) ==> after.roots.contains_key(session.0) && after.roots[session.0] == id
            && after.ready.contains(id),
        forall|other: usize|
            other != session.0 ==> after.roots.contains_key(other) == before.roots.contains_key(other)
                && #[trigger] after.roots[other] == before.roots[other],
{
    lemma_queued_has(before.ready, AgentId(before.next_id));
}

/// The orders of an agent become requests in order, each of its kind and for its goal,
/// from the agent that gave it, under the next free ids; none is left out while there
/// are ids.
pub proof fn law_orders_become_requests<A: Agent>(before: RegistryV<A>, id: AgentId, tick: AgentTick, i: int)
    requires
        before.next_id + tick.spawns@.len() <= usize::MAX,
        0 <= i < tick.spawns@.len(),
    ensures
        ({
            let after = before.noted(id, tick);
            let at = before.pending.len() + i;
            &&& after.pending.len() == before.pending.len() + tick.spawns@.len()
            &&& before.pending.is_prefix_of(after.pending)
            &&& after.pending[at].id.0 == before.next_id + i
            &&& after.pending[at].parent == id
            &&& after.pending[at].kind == tick.spawns@[i].kind
            &&& after.pending[at].goal == tick.spawns@[i].goal
            &&& after.next_id == before.next_id + tick.spawns@.len()
            &&& after.nodes == before.nodes
            &&& after.ready == before.ready
        }),
{
}

/// The verdicts of an agent wait behind those that waited before, in order.
pub proof fn law_verdicts_wait_in_order<A: Agent>(before: RegistryV<A>, id: AgentId, tick: AgentTick, i: int)
    requires
        0 <= i < tick.responses@.len(),
    ensures
        before.noted(id, tick).verdicts.len() == before.verdicts.len() + tick.responses@.len(),
        before.verdicts.is_prefix_of(before.noted(id, tick).verdicts),
        before.noted(id, tick).verdicts[before.verdicts.len() + i] == tick.responses@[i],
{
}

/// The agent that was ready first has its turn, and the ids that it can give are the
/// next free ones; what was ready for an agent that is gone is dropped.
pub proof fn law_first_ready_agent_acts<A: Agent, F: AgentFactory<A>>(
    factory: F,
    before: RegistryV<A>,
    after: RegistryV<A>,
    replies: Seq<RootReply>,
    approvals: Seq<ApprovalRequest>,
)
    requires
        before.turn(factory, after, replies, approvals),
    ensures
        before.ready.len() == 0 ==> after == before && replies.len() == 0 && approvals.len() == 0,
        before.ready.len() > 0 && !before.nodes.contains_key(before.ready[0].0) ==> {
            &&& after.nodes == before.nodes
            &&& after.ready == before.ready.drop_first()
            &&& replies.len() == 0
            &&& approvals.len() == 0
        },
        before.ready.len() > 0 && before.nodes.contains_key(before.ready[0].0) ==> exists|tick: AgentTick, acted: A|
            #[trigger] before.nodes[before.ready[0].0].agent.acts(AgentId(before.next_id), tick, acted),
{
}

/// Whoever is made ready is ready once, behind those that were ready before.
pub proof fn law_ready_once_and_in_order(ready: Seq<AgentId>, id: AgentId)
    requires
        ready.no_duplicates(),
    ensures
        queued(ready, id).no_duplicates(),
        queued(ready, id).contains(id),
        ready.is_prefix_of(queued(ready, id)),
        queued(ready, id).len() <= ready.len() + 1,
        !ready.contains(id) ==> queued(ready, id).last() == id,
{
    lemma_queued_has(ready, id);
    if !ready.contains(id) {
        let after = ready.push(id);
        assert forall|i: int, j: int| 0 <= i < after.len() && 0 <= j < after.len() && i != j implies after[i]
            != after[j] by {
            if i == ready.len() {
                assert(ready.contains(ready[j]));
            } else if j == ready.len() {
                assert(ready.contains(ready[i]));
            }
        }
    }
}

/// Each subagent that an agent asks for is given the next free id, and the order is
/// written down behind those before it, with its kind and goal.
pub proof fn law_order_is_written_down(book: TurnBook, parent: AgentId, kind: AgentKind, goal: String, child: AgentId, after: TurnBook)
    requires
        book.spawns(parent, kind, goal, child, after),
        book.first_child.0 + book.spawns@.len() <= usize::MAX,
    ensures
        child.0 == book.first_child.0 + book.spawns@.len(),
        after.spawns@.len() == book.spawns@.len() + 1,
        after.spawns@.last().kind == kind,
        after.spawns@.last().goal == goal,
        book.spawns@.is_prefix_of(after.spawns@),
        after.first_child == book.first_child,
        after.responses == book.responses,
{
}

/// Each verdict that an agent gives is written down behind those before it, for whom it
/// is meant, as it was given and with its note.
pub proof fn law_verdict_is_written_down(
    book: TurnBook,
    target: AgentId,
    verdict: ApprovalVerdict,
    note: Option<String>,
    after: TurnBook,
)
    requires
        book.notes(target, verdict, note, after),
    ensures
        after.responses@.len() == book.responses@.len() + 1,
        after.responses@.last().target == target,
        after.responses@.last().verdict == verdict,
        after.responses@.last().note == note,
        book.responses@.is_prefix_of(after.responses@),
        after.first_child == book.first_child,
        after.spawns == book.spawns,
{
}

/// The id that an agent gives its n-th subagent is the id under which that subagent
/// is asked for.
pub proof fn law_child_ids_agree(first: usize, parent: AgentId, orders: Seq<SpawnOrder>, i: int)
    requires
        0 <= i < orders.len(),
        first + orders.len() <= usize::MAX,
    ensures
        requests_of(first, parent, orders)[i].id == child_id(AgentId(first), i as nat),
        requests_of(first, parent, orders).len() == orders.len(),
{
}

proof fn lemma_queued_has(ready: Seq<AgentId>, id: AgentId)
    ensures
        queued(ready, id).contains(id),
{
    if !ready.contains(id) {
        assert(ready.push(id)[ready.len() as int] == id);
    }
}

/// The approvals that are waited for once verdicts are passed on.
pub open spec fn unparked(parked: Map<usize, ApprovalId>, responses: Seq<ApprovalResponse>) -> Map<usize, ApprovalId>
    decreases responses.len(),
{
    if responses.len() == 0 {
        parked
    } else {
        unparked(parked, responses.drop_last()).remove(responses.last().target.0)
    }
}

proof fn lemma_pop_keeps_order<A>(before: AgentRegistry<A>, after: AgentRegistry<A>)
    requires
        before.ordered(),
        before.pending@.len() > 0,
        after.pending@ == before.pending@.drop_first(),
        after.nodes == before.nodes,
        after.next_id == before.next_id,
    ensures
        after.ordered(),
{
    assert forall|i: int| 0 <= i < after.pending@.len() implies {
        &&& (#[trigger] after.pending@[i]).parent.0 < after.pending@[i].id.0
        &&& after.pending@[i].id.0 < after.next_id
        &&& !after.edges().contains_key(after.pending@[i].id.0)
    } by {
        assert(after.pending@[i] == before.pending@[i + 1]);
    }
    assert forall|i: int, j: int| 0 <= i < j < after.pending@.len() implies (#[trigger] after.pending@[i]).id.0 < (
    #[trigger] after.pending@[j]).id.0 by {
        assert(after.pending@[i] == before.pending@[i + 1]);
        assert(after.pending@[j] == before.pending@[j + 1]);
    }
}

proof fn lemma_make_keeps_order<A: Agent>(
    before: AgentRegistry<A>,
    popped: AgentRegistry<A>,
    after: AgentRegistry<A>,
    request: SpawnRequest,
)
    requires
        before.ordered(),
        popped.ordered(),
        before.pending@.len() > 0,
        before.pending@[0] == request,
        popped.pending@ == before.pending@.drop_first(),
        popped.next_id == before.next_id,
        popped.made(after, request),
        after.pending == popped.pending,
        after.next_id == popped.next_id,
    ensures
        after.ordered(),
{
    assert forall|id: usize| #[trigger] after.edges().contains_key(id) implies {
        &&& id < after.next_id
        &&& after.edges()[id].parent matches Some(p) ==> p.0 < id
    } by {
        if id != request.id.0 {
            assert(popped.edges().contains_key(id));
            assert(after.edges()[id] == popped.edges()[id]);
        }
    }
    assert forall|i: int| 0 <= i < after.pending@.len() implies {
        &&& (#[trigger] after.pending@[i]).parent.0 < after.pending@[i].id.0
        &&& after.pending@[i].id.0 < after.next_id
        &&& !after.edges().contains_key(after.pending@[i].id.0)
    } by {
        assert(after.pending@[i] == before.pending@[i + 1]);
        assert(before.pending@[0].id.0 < before.pending@[i + 1].id.0);
        assert(!popped.edges().contains_key(popped.pending@[i].id.0));
    }
    assert forall|i: int, j: int| 0 <= i < j < after.pending@.len() implies (#[trigger] after.pending@[i]).id.0 < (
    #[trigger] after.pending@[j]).id.0 by {
        assert(after.pending@[i] == popped.pending@[i]);
        assert(after.pending@[j] == popped.pending@[j]);
    }
}

/// Verdicts are passed on one by one, in the order in which they were given.
pub proof fn law_verdicts_are_passed_on_in_order<A: Agent>(
    before: RegistryV<A>,
    after: RegistryV<A>,
    responses: Seq<ApprovalResponse>,
    last: ApprovalResponse,
)
    requires
        before.responded_all(after, responses.push(last)),
    ensures
        exists|mid: RegistryV<A>| before.responded_all(mid, responses) && #[trigger] mid.responded(after, last),
{
    assert(responses.push(last).drop_last() =~= responses);
    assert(responses.push(last).last() == last);
}

/// Orders are carried out one by one, in the order in which they were given.
pub proof fn law_orders_are_carried_out_in_order<A: Agent, F: AgentFactory<A>>(
    factory: F,
    before: RegistryV<A>,
    after: RegistryV<A>,
    requests: Seq<SpawnRequest>,
    last: SpawnRequest,
)
    requires
        before.carried_out_all(factory, after, requests.push(last)),
    ensures
        exists|mid: RegistryV<A>|
            before.carried_out_all(factory, mid, requests) && #[trigger] mid.carried_out(factory, after, last),
{
    assert(requests.push(last).drop_last() =~= requests);
    assert(requests.push(last).last() == last);
}

/// All that waits is passed on and carried out, and then waits no more.
pub proof fn law_nothing_waits_once_it_is_dealt_with<A: Agent, F: AgentFactory<A>>(
    factory: F,
    before: RegistryV<A>,
    made: RegistryV<A>,
    answered: RegistryV<A>,
)
    requires
        before.all_carried_out(factory, made),
        before.all_responded(answered),
    ensures
        made.pending.len() == 0,
        answered.verdicts.len() == 0,
        made.verdicts == before.verdicts,
        answered.pending == before.pending,
        answered.next_id == before.next_id,
        made.next_id == before.next_id,
{
    lemma_carried_out_keeps(factory, before.without_pending(), made, before.pending);
    lemma_responded_keeps(before.without_verdicts(), answered, before.verdicts);
}

proof fn lemma_carried_out_keeps<A: Agent, F: AgentFactory<A>>(
    factory: F,
    before: RegistryV<A>,
    after: RegistryV<A>,
    requests: Seq<SpawnRequest>,
)
    requires
        before.carried_out_all(factory, after, requests),
    ensures
        after.pending == before.pending,
        after.verdicts == before.verdicts,
        after.next_id == before.next_id,
        after.parked == before.parked,
        after.roots == before.roots,
    decreases requests.len(),
{
    if requests.len() > 0 {
        let mid = choose|mid: RegistryV<A>|
            before.carried_out_all(factory, mid, requests.drop_last()) && #[trigger] mid.carried_out(
                factory,
                after,
                requests.last(),
            );
        lemma_carried_out_keeps(factory, before, mid, requests.drop_last());
    }
}

proof fn lemma_responded_keeps<A: Agent>(before: RegistryV<A>, after: RegistryV<A>, responses: Seq<ApprovalResponse>)
    requires
        before.responded_all(after, responses),
    ensures
        after.pending == before.pending,
        after.verdicts == before.verdicts,
        after.next_id == before.next_id,
        after.roots == before.roots,
    decreases responses.len(),
{
    if responses.len() > 0 {
        let mid = choose|mid: RegistryV<A>|
            before.responded_all(mid, responses.drop_last()) && #[trigger] mid.responded(after, responses.last());
        lemma_responded_keeps(before, mid, responses.drop_last());
        if mid.parked.contains_key(responses.last().target.0) {
            let target = responses.last().target;
            let cleared = RegistryV { parked: mid.parked.remove(target.0), ..mid };
            let (decision, r) = choose|decision: ApprovalDecision, r: Result<(), ResolveApprovalError>|
                {
                    &&& decision_of(responses.last().verdict, opt_view(responses.last().note), decision)
                    &&& #[trigger] cleared.resolved(after, target, mid.parked[target.0], decision, r)
                };
            lemma_resolved_keeps(cleared, after, target, mid.parked[target.0], decision, r);
        }
    }
}

proof fn lemma_resolved_keeps<A: Agent>(
    before: RegistryV<A>,
    after: RegistryV<A>,
    id: AgentId,
    approval: ApprovalId,
    decision: ApprovalDecision,
    r: Result<(), ResolveApprovalError>,
)
    requires
        before.resolved(after, id, approval, decision, r),
    ensures
        after.pending == before.pending,
        after.verdicts == before.verdicts,
        after.next_id == before.next_id,
        after.roots == before.roots,
{
    let command = AgentCommand::ApprovalResult { id: approval, decision };
    if let Ok(u) = r {
        let mid = choose|mid: RegistryV<A>| #[trigger]
            before.told(mid, id, command, Ok(u)) && after == mid.with_ready(id);
        assert(before.told(mid, id, command, Ok(u)));
    }
}

/// What a turn brings is told behind what the turns before it brought; before each turn
/// the verdicts that wait are passed on, and there is somebody to have it.
pub proof fn law_turns_are_told_in_order<A: Agent, F: AgentFactory<A>>(
    factory: F,
    before: RegistryV<A>,
    after: RegistryV<A>,
    replies: Seq<RootReply>,
    approvals: Seq<ApprovalRequest>,
    n: nat,
)
    requires
        before.turns(factory, after, replies, approvals, n),
    ensures
        n == 0 ==> after == before && replies.len() == 0 && approvals.len() == 0,
        n > 0 ==> exists|
            mid: RegistryV<A>,
            answered: RegistryV<A>,
            earlier: Seq<RootReply>,
            said: Seq<RootReply>,
            asked_earlier: Seq<ApprovalRequest>,
            asked: Seq<ApprovalRequest>,
        |
            {
                &&& replies == earlier + said
                &&& approvals == asked_earlier + asked
                &&& answered.ready.len() > 0
                &&& mid.all_responded(answered)
                &&& #[trigger] before.turns(factory, mid, earlier, asked_earlier, (n - 1) as nat)
                &&& #[trigger] answered.turn(factory, after, said, asked)
            },
{
    if n > 0 {
        let (mid, answered, said, asked) = choose|
            mid: RegistryV<A>,
            answered: RegistryV<A>,
            said: Seq<RootReply>,
            asked: Seq<ApprovalRequest>,
        |
            {
                &&& #[trigger] mid.all_responded(answered)
                &&& answered.ready.len() > 0
                &&& #[trigger] answered.turn(factory, after, said, asked)
                &&& said.is_suffix_of(replies)
                &&& asked.is_suffix_of(approvals)
                &&& before.turns(
                    factory,
                    mid,
                    replies.take(replies.len() - said.len()),
                    approvals.take(approvals.len() - asked.len()),
                    (n - 1) as nat,
                )
            };
        let earlier = replies.take(replies.len() - said.len());
        let asked_earlier = approvals.take(approvals.len() - asked.len());
        assert(replies =~= earlier + said);
        assert(approvals =~= asked_earlier + asked);
        assert(before.turns(factory, mid, earlier, asked_earlier, (n - 1) as nat));
    }
}

/// A drive goes on until nobody is ready or as many turns were had as may be.
pub proof fn law_drive_goes_on_while_anybody_is_ready<A: Agent, F: AgentFactory<A>>(
    factory: F,
    before: RegistryV<A>,
    after: RegistryV<A>,
    replies: Seq<RootReply>,
    approvals: Seq<ApprovalRequest>,
    max_steps: nat,
)
    requires
        before.driven(factory, after, replies, approvals, max_steps),
    ensures
        after.ready.len() > 0 ==> before.turns(factory, after, replies, approvals, max_steps),
        max_steps == 0 ==> after == before && replies.len() == 0 && approvals.len() == 0,
{
}

/// A decision that an agent took is the answer to what it was asked for, and the agent is
/// ready.
pub proof fn law_taken_decision_makes_ready<A: Agent>(
    before: RegistryV<A>,
    after: RegistryV<A>,
    id: AgentId,
    approval: ApprovalId,
    decision: ApprovalDecision,
)
    requires
        before.taken_up(after, id, approval, decision),
    ensures
        before.nodes.contains_key(id.0),
        after.ready.contains(id),
        exists|done: ()| #[trigger] before.nodes[id.0].agent.takes(
            AgentCommand::ApprovalResult { id: approval, decision },
            Ok(done),
            after.nodes[id.0].agent,
        ),
{
    let r = choose|r: Result<(), ResolveApprovalError>|
        r is Ok && #[trigger] before.resolved(after, id, approval, decision, r);
    law_decision_is_handed_over(before, after, id, approval, decision, r);
}

/// Agents whose verdicts came wait no more, and all others wait as they did.
pub proof fn law_answered_agents_wait_no_more(parked: Map<usize, ApprovalId>, responses: Seq<ApprovalResponse>, id: usize)
    ensures
        (exists|i: int| 0 <= i < responses.len() && (#[trigger] responses[i]).target.0 == id) ==> !unparked(
            parked,
            responses,
        ).contains_key(id),
        (forall|i: int| 0 <= i < responses.len() ==> (#[trigger] responses[i]).target.0 != id) ==> (unparked(
            parked,
            responses,
        ).contains_key(id) <==> parked.contains_key(id)) && unparked(parked, responses)[id] == parked[id],
    decreases responses.len(),
{
    if responses.len() > 0 {
        let front = responses.drop_last();
        law_answered_agents_wait_no_more(parked, front, id);
        if exists|i: int| 0 <= i < responses.len() && (#[trigger] responses[i]).target.0 == id {
            let i = choose|i: int| 0 <= i < responses.len() && (#[trigger] responses[i]).target.0 == id;
            if i < front.len() {
                assert(front[i] == responses[i]);
            }
        }
        if forall|i: int| 0 <= i < responses.len() ==> (#[trigger] responses[i]).target.0 != id {
            assert forall|i: int| 0 <= i < front.len() implies (#[trigger] front[i]).target.0 != id by {
                assert(front[i] == responses[i]);
            }
            assert(responses[responses.len() - 1].target.0 != id);
        }
    }
}

/// An agent that has its turn leaves the queue and acts; then its orders wait behind those
/// that waited and are carried out, its verdicts likewise and are passed on, and last its
/// own outcome has its consequences, and no other's.
pub proof fn law_turn_runs_its_course<A: Agent, F: AgentFactory<A>>(
    factory: F,
    before: RegistryV<A>,
    after: RegistryV<A>,
    replies: Seq<RootReply>,
    approvals: Seq<ApprovalRequest>,
)
    requires
        before.turn(factory, after, replies, approvals),
        before.ready.len() > 0,
        before.nodes.contains_key(before.ready[0].0),
    ensures
        exists|tick: AgentTick, acted: A, noted: RegistryV<A>, made: RegistryV<A>, answered: RegistryV<A>|
            {
                &&& #[trigger] before.nodes[before.ready[0].0].agent.acts(AgentId(before.next_id), tick, acted)
                &&& noted.ready == before.ready.drop_first()
                &&& noted.nodes == before.nodes.insert(
                    before.ready[0].0,
                    Node { agent: acted, ..before.nodes[before.ready[0].0] },
                )
                &&& noted.roots == before.roots
                &&& noted.parked == before.parked
                &&& noted.verdicts == before.verdicts + tick.responses@
                &&& before.next_id + tick.spawns@.len() <= usize::MAX ==> noted.pending.len() == before.pending.len()
                    + tick.spawns@.len()
                &&& #[trigger] noted.all_carried_out(factory, made)
                &&& #[trigger] made.all_responded(answered)
                &&& answered.routed(after, before.ready[0], tick.outcome, replies, approvals)
            },
{
    let id = before.ready[0];
    let begun = RegistryV { ready: before.ready.drop_first(), ..before };
    let (tick, acted, made, answered) = choose|tick: AgentTick, acted: A, made: RegistryV<A>, answered: RegistryV<A>|
        {
            &&& #[trigger] before.nodes[id.0].agent.acts(AgentId(before.next_id), tick, acted)
            &&& #[trigger] begun.with_agent(id, acted).noted(id, tick).all_carried_out(factory, made)
            &&& #[trigger] made.all_responded(answered)
            &&& answered.routed(after, id, tick.outcome, replies, approvals)
        };
    let noted = begun.with_agent(id, acted).noted(id, tick);
    assert(noted.all_carried_out(factory, made));
}

/// An error of a decision names the agent that is not there, or is the agent's own.
pub proof fn law_unresolved_decision_says_why(e: ResolveApprovalError)
    ensures
        e matches ResolveApprovalError::UnknownAgent(id) ==> e.text() == "no agent "@ + id.wire()
            + " to resolve approval for"@,
        e matches ResolveApprovalError::Command(c) ==> e.text() == c.text(),
{
}

/// A new registry has no agents, nobody is ready, and nothing waits.
pub proof fn law_new_registry_is_empty<A>(next_id: usize, id: usize)
    ensures
        !RegistryV::<A>::fresh(next_id).nodes.contains_key(id),
        RegistryV::<A>::fresh(next_id).ready.len() == 0,
        RegistryV::<A>::fresh(next_id).pending.len() == 0,
        RegistryV::<A>::fresh(next_id).verdicts.len() == 0,
        !RegistryV::<A>::fresh(next_id).roots.contains_key(id),
        !RegistryV::<A>::fresh(next_id).parked.contains_key(id),
        RegistryV::<A>::fresh(next_id).next_id == next_id,
{
}

} // verus!
