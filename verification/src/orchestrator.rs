//! The sessions with their agents: messages come in, replies go out.
//!
//! Each session has agents of its own. Replies are handed back to the host with
//! the place where they go; the host sends them.

use std::collections::HashMap;

use vstd::prelude::*;

use crate::agent::base_agent::{AgentCommand, ApprovalDecision};
use crate::agent::registry::{
    law_taken_decision_makes_ready, Agent, AgentFactory, ApprovalRequest, DriveOutput, RegistryV, ResolveApprovalError,
    RootReply,
};
use crate::json::Json;
use crate::orchestrator_instance::OrchestratorInstance;
use crate::protocol::ids::{wire_id, AgentId, ApprovalId, SessionId};
use crate::session::{DeliverError, InboundMessage, ReplyRoute, SessionError, SessionStore};
use crate::text::{blank, concat3, is_blank, string_is};

verus! {

broadcast use vstd::std_specs::hash::group_hash_axioms;

/// The id of the first agent.
pub const FIRST_AGENT_ID: usize = 1;

/// Why a decision did not reach a session.
#[derive(Clone, Copy, Debug, PartialEq, Eq, Structural)]
pub enum ApprovalError {
    /// The session has no agents.
    UnknownSession(SessionId),
    Resolve(ResolveApprovalError),
}

impl ApprovalError {
    /// The text of the error.
    pub open spec fn text(self) -> Seq<char> {
        match self {
            ApprovalError::UnknownSession(id) => "session "@ + id.wire() + " has no live agent graph"@,
            ApprovalError::Resolve(e) => e.text(),
        }
    }

    pub fn message(&self) -> (r: String)
        ensures
            r@ == self.text(),
    {
        match self {
            ApprovalError::UnknownSession(id) => concat3(
                "session ",
                id.to_wire().as_str(),
                " has no live agent graph",
            ),
            ApprovalError::Resolve(e) => e.message(),
        }
    }
}

/// A message to send.
#[derive(Clone, Debug, PartialEq, Eq)]
pub struct OutboundMessage {
    pub session: SessionId,
    pub route: ReplyRoute,
    pub text: String,
}

/// What an [`OutboundMessage`] holds.
#[verifier::ext_equal]
pub struct OutboundV {
    pub session: SessionId,
    pub route: ReplyRoute,
    pub text: Seq<char>,
}

/// What messages hold.
pub open spec fn outbound_view(messages: Seq<OutboundMessage>) -> Seq<OutboundV> {
    messages.map_values(|m: OutboundMessage| OutboundV { session: m.session, route: m.route, text: m.text@ })
}

/// How an approval request is put to the user.
pub open spec fn approval_text(a: ApprovalRequest) -> Seq<char> {
    "[approval needed · "@ + a.agent.wire() + " · "@ + a.approval.wire() + "] "@ + a.summary@
}

/// A text to a session: one message where its replies have a place to go.
pub open spec fn routed(routes: Map<usize, ReplyRoute>, session: SessionId, text: Seq<char>) -> Seq<OutboundV> {
    if routes.contains_key(session.0) {
        seq![OutboundV { session, route: routes[session.0], text }]
    } else {
        Seq::empty()
    }
}

/// The messages of the first `n` replies.
pub open spec fn reply_messages(routes: Map<usize, ReplyRoute>, replies: Seq<RootReply>, n: nat) -> Seq<OutboundV>
    decreases n,
{
    if n == 0 || n > replies.len() {
        Seq::empty()
    } else {
        reply_messages(routes, replies, (n - 1) as nat) + routed(
            routes,
            replies[n - 1].session,
            replies[n - 1].text@,
        )
    }
}

/// The messages of the first `n` approval requests.
pub open spec fn approval_messages(routes: Map<usize, ReplyRoute>, approvals: Seq<ApprovalRequest>, n: nat) -> Seq<
    OutboundV,
>
    decreases n,
{
    if n == 0 || n > approvals.len() {
        Seq::empty()
    } else {
        approval_messages(routes, approvals, (n - 1) as nat) + routed(
            routes,
            approvals[n - 1].session,
            approval_text(approvals[n - 1]),
        )
    }
}

/// The messages of what agents gave: the replies, and then the approval requests.
pub open spec fn surfaced(routes: Map<usize, ReplyRoute>, output: DriveOutput) -> Seq<OutboundV> {
    reply_messages(routes, output.replies@, output.replies@.len()) + approval_messages(
        routes,
        output.approvals@,
        output.approvals@.len(),
    )
}

/// The sessions with their agents.
pub struct Orchestrator<A, F, C> {
    pub channels: C,
    pub factory: F,
    pub next_agent_id: usize,
    pub instances: HashMap<usize, OrchestratorInstance<A>>,
    pub sessions: SessionStore,
    pub routes: HashMap<usize, ReplyRoute>,
    /// How many turns agents may have in one go.
    pub max_steps: u64,
}

impl<A: Agent, F: AgentFactory<A>, C> Orchestrator<A, F, C> {
    /// Every session's agents are its own: they are kept under its id, and no agent id
    /// occurs in two sessions.
    pub open spec fn valid(self) -> bool {
        &&& self.sessions.valid()
        &&& forall|s: usize| #[trigger] self.instances@.contains_key(s) ==> {
            &&& self.instances@[s].valid()
            &&& self.instances@[s].session.0 == s
            &&& self.instances@[s].registry.next_id <= self.next_agent_id
        }
        &&& forall|s: usize, t: usize, id: usize| #[trigger] self.lives(s, id) && #[trigger] self.lives(t, id) ==> s == t
    }

    /// Whether an agent of this id lives in a session.
    pub open spec fn lives(self, session: usize, id: usize) -> bool {
        self.instances@.contains_key(session) && self.instances@[session].registry.edges().contains_key(id)
    }

    /// Whether all but the agents is the same.
    pub open spec fn same_but_agents(self, other: Orchestrator<A, F, C>) -> bool {
        &&& self.channels == other.channels
        &&& self.factory == other.factory
        &&& self.sessions == other.sessions
        &&& self.routes == other.routes
        &&& self.max_steps == other.max_steps
    }

    /// Whether these are a session's agents before a message: those that it has, with
    /// the ids that come next, or none.
    pub open spec fn starts_from(self, instance: OrchestratorInstance<A>, session: SessionId) -> bool {
        &&& instance.session == session
        &&& if self.instances@.contains_key(session.0) {
            let was = self.instances@[session.0];
            instance.root == was.root && instance.registry@ == (RegistryV {
                next_id: self.next_agent_id,
                ..was.registry@
            })
        } else {
            instance.root is None && instance.registry@ == RegistryV::<A>::fresh(self.next_agent_id)
        }
    }

    /// Whether only the agents of a session may have changed; the ids that come next
    /// are those after its own.
    pub open spec fn only_ran(self, new: Orchestrator<A, F, C>, session: SessionId) -> bool {
        &&& new.same_but_agents(self)
        &&& new.instances@.dom() == self.instances@.dom().insert(session.0)
        &&& forall|s: usize|
            s != session.0 && #[trigger] self.instances@.contains_key(s) ==> new.instances@[s] == self.instances@[s]
        &&& new.instances@[session.0].session == session
        &&& new.next_agent_id == new.instances@[session.0].registry.next_id
    }

    /// Whether agents had their turns, and what they gave is sent.
    pub open spec fn driven(
        self,
        new: Orchestrator<A, F, C>,
        session: SessionId,
        instance: OrchestratorInstance<A>,
        sent: Seq<OutboundV>,
    ) -> bool {
        exists|output: DriveOutput|
            {
                &&& instance.registry@.driven(
                    self.factory,
                    new.instances@[session.0].registry@,
                    output.replies@,
                    output.approvals@,
                    self.max_steps as nat,
                )
                &&& sent == #[trigger] surfaced(new.routes@, output)
            }
    }

    /// Whether a session was handed a message: its root got it, its agents had their
    /// turns, and what they gave is sent. Where the root could not be made, nothing is.
    pub open spec fn served(
        self,
        new: Orchestrator<A, F, C>,
        session: SessionId,
        text: String,
        sent: Seq<OutboundV>,
    ) -> bool {
        &&& self.only_ran(new, session)
        &&& exists|start: OrchestratorInstance<A>, handed: OrchestratorInstance<A>, r: Result<(), String>|
            {
                &&& self.starts_from(start, session)
                &&& #[trigger] start.handed(self.factory, handed, text, r)
                &&& new.instances@[session.0].root == handed.root
                &&& match r {
                    Err(_) => new.instances@[session.0].registry@ == handed.registry@ && sent.len() == 0,
                    Ok(_) => self.driven(new, session, handed, sent),
                }
            }
    }

    /// Whether all but the places of replies is the same.
    pub open spec fn same_but_routes(self, other: Orchestrator<A, F, C>) -> bool {
        &&& self.channels == other.channels
        &&& self.factory == other.factory
        &&& self.sessions == other.sessions
        &&& self.instances == other.instances
        &&& self.next_agent_id == other.next_agent_id
        &&& self.max_steps == other.max_steps
    }

    /// Whether a session was handed a message once its replies had a place to go.
    pub open spec fn answered(
        self,
        new: Orchestrator<A, F, C>,
        session: SessionId,
        text: String,
        sent: Seq<OutboundV>,
    ) -> bool {
        exists|told: Orchestrator<A, F, C>|
            {
                &&& told.same_but_routes(self)
                &&& told.routes@ == new.routes@
                &&& #[trigger] told.served(new, session, text, sent)
            }
    }

    /// Whether a decision was taken by the agent that waits for it, the session's
    /// agents had their turns, and what they gave is sent.
    pub open spec fn decided(
        self,
        new: Orchestrator<A, F, C>,
        session: SessionId,
        agent: AgentId,
        approval: ApprovalId,
        decision: ApprovalDecision,
        sent: Seq<OutboundV>,
    ) -> bool {
        &&& self.only_ran(new, session)
        &&& new.instances@[session.0].root == self.instances@[session.0].root
        &&& exists|start: OrchestratorInstance<A>, told: OrchestratorInstance<A>|
            {
                &&& #[trigger] self.starts_from(start, session)
                &&& start.registry@.taken_up(told.registry@, agent, approval, decision)
                &&& #[trigger] self.driven(new, session, told, sent)
            }
    }

    /// Takes the agents of a session out, or makes a place for them, with the ids that
    /// come next.
    fn take_instance(&mut self, session: SessionId) -> (r: OrchestratorInstance<A>)
        requires
            old(self).valid(),
        ensures
            final(self).valid(),
            final(self).same_but_agents(*old(self)),
            final(self).next_agent_id == old(self).next_agent_id,
            final(self).instances@ == old(self).instances@.remove(session.0),
            r.valid(),
            r.session == session,
            r.registry.next_id == old(self).next_agent_id,
            forall|s: usize, id: usize| #[trigger]
                final(self).lives(s, id) ==> !r.registry.edges().contains_key(id) && id < old(self).next_agent_id,
            if old(self).instances@.contains_key(session.0) {
                let was = old(self).instances@[session.0];
                r.root == was.root && r.registry.edges() == was.registry.edges() && r.registry.ready
                    == was.registry.ready
            } else {
                r.root is None && r.registry.ready@.len() == 0
            },
            old(self).starts_from(r, session),
    {
        match self.instances.remove(&session.0) {
            Some(mut instance) => {
                instance.sync_ids(self.next_agent_id);
                proof {
                    assert forall|s: usize, id: usize| #[trigger] self.lives(s, id) implies !instance.registry.edges().contains_key(
                        id,
                    ) && id < self.next_agent_id by {
                        assert(old(self).lives(s, id));
                        if instance.registry.edges().contains_key(id) {
                            assert(old(self).lives(session.0, id));
                        }
                    }
                    assert forall|s: usize, t: usize, id: usize| #[trigger] self.lives(s, id) && #[trigger] self.lives(
                        t,
                        id,
                    ) implies s == t by {
                        assert(old(self).lives(s, id));
                        assert(old(self).lives(t, id));
                    }
                }
                instance
            },
            None => {
                let instance = OrchestratorInstance::new(session, self.next_agent_id);
                proof {
                    assert(self.instances@ =~= old(self).instances@);
                    assert forall|s: usize, t: usize, id: usize| #[trigger] self.lives(s, id) && #[trigger] self.lives(
                        t,
                        id,
                    ) implies s == t by {
                        assert(old(self).lives(s, id));
                        assert(old(self).lives(t, id));
                    }
                    assert forall|s: usize, id: usize| #[trigger] self.lives(s, id) implies id < self.next_agent_id by {
                        assert(self.instances@[s].registry.edges().contains_key(id));
                    }
                }
                instance
            },
        }
    }

    /// Puts the agents of a session back.
    fn put_instance(&mut self, instance: OrchestratorInstance<A>)
        requires
            old(self).valid(),
            instance.valid(),
            !old(self).instances@.contains_key(instance.session.0),
            instance.registry.next_id >= old(self).next_agent_id,
            forall|s: usize, id: usize| #[trigger]
                old(self).lives(s, id) ==> !instance.registry.edges().contains_key(id),
        ensures
            final(self).valid(),
            final(self).same_but_agents(*old(self)),
            final(self).next_agent_id == instance.registry.next_id,
            final(self).instances@ == old(self).instances@.insert(instance.session.0, instance),
    {
        let ghost session = instance.session.0;
        self.next_agent_id = instance.registry.next_id;
        self.instances.insert(instance.session.0, instance);
        proof {
            assert forall|s: usize, t: usize, id: usize| #[trigger] self.lives(s, id) && #[trigger] self.lives(t, id) implies s
                == t by {
                if s != session {
                    assert(old(self).lives(s, id));
                }
                if t != session {
                    assert(old(self).lives(t, id));
                }
            }
        }
    }

    /// Hands a session a message and gives its agents their turns. Where its root
    /// cannot be made, nothing is sent.
    fn on_user_message(&mut self, session: SessionId, text: String) -> (r: Vec<OutboundMessage>)
        requires
            old(self).valid(),
            old(self).next_agent_id < usize::MAX,
        ensures
            final(self).valid(),
            final(self).next_agent_id >= old(self).next_agent_id,
            old(self).instances@.contains_key(session.0) && old(self).instances@[session.0].root is Some
                ==> final(self).instances@[session.0].root == old(self).instances@[session.0].root,
            old(self).served(*final(self), session, text, outbound_view(r@)),
    {
        let mut instance = self.take_instance(session);
        let ghost taken = instance;
        let ghost rest = *self;
        let delivered = instance.deliver(&self.factory, text);
        let ghost handed = instance;
        assert(taken.handed(old(self).factory, handed, text, delivered));
        match delivered {
            Err(_) => {
                self.put_instance(instance);
                assert(self.instances@.dom() =~= old(self).instances@.dom().insert(session.0));
                Vec::new()
            },
            Ok(_) => {
                let output = instance.drive(&self.factory, self.max_steps);
                proof {
                    assert forall|s: usize, id: usize| #[trigger] rest.lives(s, id) implies !instance.registry.edges().contains_key(
                        id,
                    ) by {
                        if instance.registry.edges().contains_key(id) {
                            assert(handed.registry.edges().contains_key(id) || id >= handed.registry.next_id);
                        }
                    }
                }
                self.put_instance(instance);
                assert(self.instances@.dom() =~= old(self).instances@.dom().insert(session.0));
                self.surface_output(output)
            },
        }
    }

    /// Takes a user message in: its session must exist, and its replies go where the
    /// message came from. Gives the messages to send.
    pub fn deliver_user_message(&mut self, msg: InboundMessage) -> (r: Result<Vec<OutboundMessage>, DeliverError>)
        requires
            old(self).valid(),
            old(self).next_agent_id < usize::MAX,
        ensures
            final(self).valid(),
            match r {
                Err(e) => {
                    &&& *final(self) == *old(self)
                    &&& match e {
                        DeliverError::MissingSessionId => is_blank(msg.session_id@),
                        DeliverError::InvalidSessionId(v) => !is_blank(msg.session_id@) && v@ == msg.session_id@
                            && wire_id(msg.session_id@, "session-"@) is None,
                        DeliverError::SessionNotFound(id) => !is_blank(msg.session_id@) && wire_id(
                            msg.session_id@,
                            "session-"@,
                        ) == Some(id.0) && !old(self).sessions.has(id),
                        _ => false,
                    }
                },
                Ok(sent) => {
                    &&& !is_blank(msg.session_id@)
                    &&& wire_id(msg.session_id@, "session-"@) matches Some(n)
                    &&& old(self).sessions.has(SessionId(n))
                    &&& final(self).routes@ == old(self).routes@.insert(
                        n,
                        ReplyRoute { channel: msg.channel, chat_id: msg.chat_id },
                    )
                    &&& old(self).answered(*final(self), SessionId(n), msg.text, outbound_view(sent@))
                },
            },
    {
        if blank(msg.session_id.as_str()) {
            return Err(DeliverError::MissingSessionId);
        }
        let session = match SessionId::from_wire(msg.session_id.as_str()) {
            Ok(id) => id,
            Err(_) => {
                return Err(DeliverError::InvalidSessionId(msg.session_id));
            },
        };
        if !self.sessions.contains(session) {
            return Err(DeliverError::SessionNotFound(session));
        }
        self.routes.insert(session.0, ReplyRoute { channel: msg.channel, chat_id: msg.chat_id });
        proof {
            assert forall|s: usize, t: usize, id: usize| #[trigger] self.lives(s, id) && #[trigger] self.lives(t, id) implies s
                == t by {
                assert(old(self).lives(s, id));
                assert(old(self).lives(t, id));
            }
        }
        let ghost told = *self;
        let sent = self.on_user_message(session, msg.text);
        proof {
            assert(told.served(*self, SessionId(session.0), msg.text, outbound_view(sent@)));
            assert(old(self).answered(*self, SessionId(session.0), msg.text, outbound_view(sent@)));
        }
        Ok(sent)
    }

    /// Takes a user message in and gives the messages to send, none where it does not
    /// reach a session.
    pub fn push_user_message(&mut self, msg: InboundMessage) -> (r: Vec<OutboundMessage>)
        requires
            old(self).valid(),
            old(self).next_agent_id < usize::MAX,
        ensures
            final(self).valid(),
            match wire_id(msg.session_id@, "session-"@) {
                Some(n) => if is_blank(msg.session_id@) || !old(self).sessions.has(SessionId(n)) {
                    r@.len() == 0 && *final(self) == *old(self)
                } else {
                    &&& final(self).routes@ == old(self).routes@.insert(
                        n,
                        ReplyRoute { channel: msg.channel, chat_id: msg.chat_id },
                    )
                    &&& old(self).answered(*final(self), SessionId(n), msg.text, outbound_view(r@))
                },
                None => r@.len() == 0 && *final(self) == *old(self),
            },
    {
        match self.deliver_user_message(msg) {
            Ok(sent) => sent,
            Err(_) => Vec::new(),
        }
    }

    /// Whether a session exists whose replies go to a chat of a channel.
    pub open spec fn replies_to(self, session: usize, channel: Seq<char>, chat_id: Seq<char>) -> bool {
        &&& self.sessions.live@.contains_key(session)
        &&& self.routes@.contains_key(session)
        &&& self.routes@[session].channel@ == channel
        &&& self.routes@[session].chat_id@ == chat_id
    }

    /// The first session whose replies go to a chat of a channel.
    pub fn session_for_route(&self, channel: &str, chat_id: &str) -> (r: Option<SessionId>)
        requires
            self.valid(),
        ensures
            match r {
                Some(id) => {
                    &&& self.replies_to(id.0, channel@, chat_id@)
                    &&& forall|s: usize| s < id.0 ==> !#[trigger] self.replies_to(s, channel@, chat_id@)
                },
                None => forall|s: usize| !#[trigger] self.replies_to(s, channel@, chat_id@),
            },
    {
        let mut s: usize = 0;
        while s < self.sessions.next
            invariant
                s <= self.sessions.next,
                forall|t: usize| t < s ==> !#[trigger] self.replies_to(t, channel@, chat_id@),
            decreases self.sessions.next - s,
        {
            if self.sessions.contains(SessionId(s)) {
                if let Some(route) = self.routes.get(&s) {
                    if string_is(&route.channel, channel) && string_is(&route.chat_id, chat_id) {
                        return Some(SessionId(s));
                    }
                }
            }
            s = s + 1;
        }
        None
    }

    /// The first session whose replies go to a chat of a channel, or a new one where
    /// there is none.
    pub fn session_of_route(&mut self, channel: &str, chat_id: &str) -> (r: SessionId)
        requires
            old(self).valid(),
            (forall|s: usize| !#[trigger] old(self).replies_to(s, channel@, chat_id@)) ==> old(self).sessions.next
                < usize::MAX,
        ensures
            final(self).valid(),
            final(self).sessions.has(r),
            if exists|s: usize| #[trigger] old(self).replies_to(s, channel@, chat_id@) {
                &&& old(self).replies_to(r.0, channel@, chat_id@)
                &&& forall|s: usize| s < r.0 ==> !#[trigger] old(self).replies_to(s, channel@, chat_id@)
                &&& *final(self) == *old(self)
            } else {
                &&& r.0 == old(self).sessions.next
                &&& !old(self).sessions.has(r)
                &&& final(self).sessions.next == old(self).sessions.next + 1
                &&& final(self).sessions.live@ == old(self).sessions.live@.insert(r.0, ())
                &&& *final(self) == (Orchestrator { sessions: final(self).sessions, ..*old(self) })
            },
    {
        match self.session_for_route(channel, chat_id) {
            Some(session) => session,
            None => self.session_create(),
        }
    }

    /// Takes a command for a session in. Commands do nothing yet, but their session
    /// must exist and have a place for replies.
    pub fn deliver_command(&self, session: SessionId) -> (r: Result<(), DeliverError>)
        ensures
            match r {
                Ok(_) => self.sessions.has(session) && self.routes@.contains_key(session.0),
                Err(e) => if !self.sessions.has(session) {
                    e == DeliverError::SessionNotFound(session)
                } else {
                    e == DeliverError::NoReplyRoute(session) && !self.routes@.contains_key(session.0)
                },
            },
    {
        if !self.sessions.contains(session) {
            return Err(DeliverError::SessionNotFound(session));
        }
        if !self.routes.contains_key(&session.0) {
            return Err(DeliverError::NoReplyRoute(session));
        }
        Ok(())
    }

    /// Hands a decision to the agent that waits for it, and gives the session's agents
    /// their turns.
    pub fn resolve_approval(
        &mut self,
        session: SessionId,
        agent: AgentId,
        approval: ApprovalId,
        decision: ApprovalDecision,
    ) -> (r: Result<Vec<OutboundMessage>, ApprovalError>)
        requires
            old(self).valid(),
        ensures
            final(self).valid(),
            match r {
                Err(ApprovalError::UnknownSession(id)) => id == session && !old(self).instances@.contains_key(session.0)
                    && *final(self) == *old(self),
                Err(ApprovalError::Resolve(ResolveApprovalError::UnknownAgent(id))) => id == agent
                    && old(self).instances@.contains_key(session.0) && !old(self).lives(session.0, agent.0),
                Err(ApprovalError::Resolve(ResolveApprovalError::Command(_))) => old(self).lives(session.0, agent.0),
                Ok(_) => old(self).lives(session.0, agent.0),
            },
            r matches Err(ApprovalError::Resolve(_)) ==> {
                &&& old(self).only_ran(*final(self), session)
                &&& final(self).instances@[session.0].root == old(self).instances@[session.0].root
            },
            r matches Err(ApprovalError::Resolve(e)) ==> exists|start: OrchestratorInstance<A>|
                {
                    &&& #[trigger] old(self).starts_from(start, session)
                    &&& start.registry@.resolved(
                        final(self).instances@[session.0].registry@,
                        agent,
                        approval,
                        decision,
                        Err(e),
                    )
                },
            r matches Ok(sent) ==> old(self).decided(
                *final(self),
                session,
                agent,
                approval,
                decision,
                outbound_view(sent@),
            ),
    {
        if !self.instances.contains_key(&session.0) {
            return Err(ApprovalError::UnknownSession(session));
        }
        let mut instance = self.take_instance(session);
        let ghost taken = instance;
        let ghost rest = *self;
        assert(old(self).starts_from(taken, session));
        let resolved = instance.resolve_approval(agent, approval, decision);
        let ghost told = instance;
        match resolved {
            Err(e) => {
                self.put_instance(instance);
                assert(self.instances@.dom() =~= old(self).instances@.dom().insert(session.0));
                Err(ApprovalError::Resolve(e))
            },
            Ok(_) => {
                let ghost handed = instance;
                let output = instance.drive(&self.factory, self.max_steps);
                proof {
                    assert forall|s: usize, id: usize| #[trigger] rest.lives(s, id) implies !instance.registry.edges().contains_key(
                        id,
                    ) by {
                        if instance.registry.edges().contains_key(id) {
                            assert(handed.registry.edges().contains_key(id) || id >= handed.registry.next_id);
                        }
                    }
                }
                self.put_instance(instance);
                assert(self.instances@.dom() =~= old(self).instances@.dom().insert(session.0));
                let sent = self.surface_output(output);
                proof {
                    assert(taken.registry@.taken_up(told.registry@, agent, approval, decision));
                    assert(outbound_view(sent@) == surfaced(self.routes@, output));
                    assert(old(self).driven(*self, session, told, outbound_view(sent@)));
                    assert(old(self).decided(*self, session, agent, approval, decision, outbound_view(sent@)));
                }
                Ok(sent)
            },
        }
    }

    /// The conversation of a session's root.
    pub fn root_transcript(&self, session: SessionId) -> (r: Option<Json>)
        ensures
            if self.instances@.contains_key(session.0) {
                let instance = self.instances@[session.0];
                match instance.root {
                    Some(root) => if instance.registry@.nodes.contains_key(root.0) {
                        instance.registry@.nodes[root.0].agent.shows(r)
                    } else {
                        r is None
                    },
                    None => r is None,
                }
            } else {
                r is None
            },
    {
        match self.instances.get(&session.0) {
            Some(instance) => instance.root_transcript(),
            None => None,
        }
    }

    pub fn session_create(&mut self) -> (r: SessionId)
        requires
            old(self).valid(),
            old(self).sessions.next < usize::MAX,
        ensures
            final(self).valid(),
            !old(self).sessions.has(r),
            final(self).sessions.has(r),
            r.0 == old(self).sessions.next,
            final(self).sessions.next == old(self).sessions.next + 1,
            final(self).sessions.live@ == old(self).sessions.live@.insert(r.0, ()),
            *final(self) == (Orchestrator { sessions: final(self).sessions, ..*old(self) }),
    {
        let id = self.sessions.create();
        proof {
            assert forall|s: usize, t: usize, id: usize| #[trigger] self.lives(s, id) && #[trigger] self.lives(t, id) implies s
                == t by {
                assert(old(self).lives(s, id));
                assert(old(self).lives(t, id));
            }
        }
        id
    }

    /// How many sessions exist.
    pub fn session_count(&self) -> (r: usize)
        ensures
            r == self.sessions.live@.len(),
    {
        self.sessions.count()
    }

    /// Takes a session out, with its agents and the place of its replies.
    pub fn session_delete(&mut self, session: SessionId) -> (r: Result<(), SessionError>)
        requires
            old(self).valid(),
        ensures
            final(self).valid(),
            final(self).next_agent_id == old(self).next_agent_id,
            final(self).channels == old(self).channels,
            final(self).factory == old(self).factory,
            final(self).max_steps == old(self).max_steps,
            final(self).sessions.next == old(self).sessions.next,
            if old(self).sessions.has(session) {
                &&& r is Ok
                &&& final(self).sessions.live@ == old(self).sessions.live@.remove(session.0)
                &&& final(self).routes@ == old(self).routes@.remove(session.0)
                &&& final(self).instances@ == old(self).instances@.remove(session.0)
            } else {
                &&& r == Err::<(), SessionError>(SessionError::NotFound(session))
                &&& final(self).routes@ == old(self).routes@
                &&& final(self).instances@ == old(self).instances@
                &&& final(self).sessions.live@ == old(self).sessions.live@
            },
    {
        match self.sessions.delete(session) {
            Err(e) => {
                assert(self.sessions.live@ =~= old(self).sessions.live@);
                proof {
                    assert forall|s: usize, t: usize, id: usize| #[trigger] self.lives(s, id) && #[trigger] self.lives(t, id) implies s
                        == t by {
                        assert(old(self).lives(s, id));
                        assert(old(self).lives(t, id));
                    }
                }
                Err(e)
            },
            Ok(_) => {
                self.routes.remove(&session.0);
                self.instances.remove(&session.0);
                proof {
                    assert forall|s: usize, t: usize, id: usize| #[trigger] self.lives(s, id) && #[trigger] self.lives(t, id) implies s
                        == t by {
                        assert(old(self).lives(s, id));
                        assert(old(self).lives(t, id));
                    }
                }
                Ok(())
            },
        }
    }

    /// The messages of what agents gave.
    fn surface_output(&self, output: DriveOutput) -> (r: Vec<OutboundMessage>)
        ensures
            outbound_view(r@) == surfaced(self.routes@, output),
    {
        let ghost routes = self.routes@;
        let mut out: Vec<OutboundMessage> = Vec::new();
        let mut i: usize = 0;
        assert(outbound_view(out@) =~= Seq::<OutboundV>::empty());
        while i < output.replies.len()
            invariant
                routes == self.routes@,
                i <= output.replies@.len(),
                outbound_view(out@) == reply_messages(routes, output.replies@, i as nat),
            decreases output.replies@.len() - i,
        {
            let session = output.replies[i].session;
            let text = output.replies[i].text.clone();
            self.send_message(&mut out, session, text);
            i = i + 1;
        }
        let ghost replied = outbound_view(out@);
        let mut j: usize = 0;
        assert(replied + approval_messages(routes, output.approvals@, 0) =~= replied);
        while j < output.approvals.len()
            invariant
                routes == self.routes@,
                j <= output.approvals@.len(),
                outbound_view(out@) == replied + approval_messages(routes, output.approvals@, j as nat),
            decreases output.approvals@.len() - j,
        {
            let approval = &output.approvals[j];
            let mut text = concat3("[approval needed · ", approval.agent.to_wire().as_str(), " · ");
            text.append(approval.approval.to_wire().as_str());
            text.append("] ");
            text.append(approval.summary.as_str());
            assert(text@ =~= approval_text(output.approvals@[j as int]));
            self.send_message(&mut out, approval.session, text);
            assert(outbound_view(out@) =~= replied + approval_messages(routes, output.approvals@, (j + 1) as nat));
            j = j + 1;
        }
        out
    }

    /// Adds a message to those to send, where the session's replies have a place to go.
    fn send_message(&self, out: &mut Vec<OutboundMessage>, session: SessionId, text: String)
        ensures
            outbound_view(final(out)@) == outbound_view(old(out)@) + routed(self.routes@, session, text@),
    {
        let ghost before = out@;
        match self.routes.get(&session.0) {
            Some(route) => {
                out.push(OutboundMessage { session, route: route.dup(), text });
                assert(outbound_view(out@) =~= outbound_view(before) + routed(self.routes@, session, text@));
            },
            None => {
                assert(outbound_view(out@) =~= outbound_view(before) + routed(self.routes@, session, text@));
            },
        }
    }
}

/// An agent lives in one session alone.
pub proof fn law_sessions_share_no_agent<A: Agent, F: AgentFactory<A>, C>(
    orchestrator: Orchestrator<A, F, C>,
    s: usize,
    t: usize,
    id: usize,
)
    requires
        orchestrator.valid(),
        orchestrator.lives(s, id),
        orchestrator.lives(t, id),
    ensures
        s == t,
{
}

/// Channels are to be chosen.
#[derive(Debug)]
pub struct ChannelsUnset;

/// The built-in channels.
#[derive(Debug)]
pub struct ChannelsBuiltin;

/// Channels of the host.
#[derive(Debug)]
pub struct ChannelsEgressOnly<E> {
    pub egress: E,
}

/// The factory is to be chosen.
#[derive(Debug)]
pub struct FactoryUnset;

/// The factory.
#[derive(Debug)]
pub struct FactorySet<F> {
    pub factory: F,
}

/// Channels that were chosen.
pub trait SealedChannelsReady {

}

impl SealedChannelsReady for ChannelsBuiltin {

}

impl<E> SealedChannelsReady for ChannelsEgressOnly<E> {

}

/// Collects what an orchestrator is made from: channels and a factory, each once.
#[must_use]
#[derive(Debug)]
pub struct OrchestratorBuilder<C, F> {
    pub channels: C,
    pub factory: F,
}

impl Orchestrator<(), FactoryUnset, ChannelsUnset> {
    /// Starts building an orchestrator.
    pub fn builder() -> (r: OrchestratorBuilder<ChannelsUnset, FactoryUnset>)
        ensures
            r.channels == ChannelsUnset,
            r.factory == FactoryUnset,
    {
        OrchestratorBuilder { channels: ChannelsUnset, factory: FactoryUnset }
    }
}

impl<C> OrchestratorBuilder<C, FactoryUnset> {
    pub fn with_agent_factory<F>(self, factory: F) -> (r: OrchestratorBuilder<C, FactorySet<F>>)
        ensures
            r.channels == self.channels,
            r.factory.factory == factory,
    {
        OrchestratorBuilder { channels: self.channels, factory: FactorySet { factory } }
    }
}

impl<F> OrchestratorBuilder<ChannelsUnset, F> {
    pub fn with_builtin_channels(self) -> (r: OrchestratorBuilder<ChannelsBuiltin, F>)
        ensures
            r.factory == self.factory,
    {
        OrchestratorBuilder { channels: ChannelsBuiltin, factory: self.factory }
    }

    pub fn config_egress<E>(self, egress: E) -> (r: OrchestratorBuilder<ChannelsEgressOnly<E>, F>)
        ensures
            r.channels.egress == egress,
            r.factory == self.factory,
    {
        OrchestratorBuilder { channels: ChannelsEgressOnly { egress }, factory: self.factory }
    }
}

impl<C: SealedChannelsReady, F> OrchestratorBuilder<C, FactorySet<F>> {
    /// An orchestrator without sessions, whose agents may have `max_steps` turns in
    /// one go.
    pub fn build<A: Agent>(self, max_steps: u64) -> (r: Orchestrator<A, F, C>) where F: AgentFactory<A>
        ensures
            r.valid(),
            r.channels == self.channels,
            r.factory == self.factory.factory,
            r.next_agent_id == FIRST_AGENT_ID,
            r.instances@ == Map::<usize, OrchestratorInstance<A>>::empty(),
            r.routes@ == Map::<usize, ReplyRoute>::empty(),
            r.sessions.live@ == Map::<usize, ()>::empty(),
            r.sessions.next == 1,
            r.max_steps == max_steps,
    {
        Orchestrator {
            channels: self.channels,
            factory: self.factory.factory,
            next_agent_id: FIRST_AGENT_ID,
            instances: HashMap::new(),
            sessions: SessionStore::new(),
            routes: HashMap::new(),
            max_steps,
        }
    }
}

/// Every reply for a session that has a route goes out along it with its own words, behind
/// those for the replies before it; one for a session without a route does not go out.
pub proof fn law_replies_go_out_in_order(routes: Map<usize, ReplyRoute>, replies: Seq<RootReply>, n: nat, i: int)
    requires
        0 <= i < n <= replies.len(),
    ensures
        ({
            let before = reply_messages(routes, replies, i as nat);
            let out = reply_messages(routes, replies, n);
            &&& before.is_prefix_of(out)
            &&& routes.contains_key(replies[i].session.0) ==> {
                &&& before.len() < out.len()
                &&& out[before.len() as int].session == replies[i].session
                &&& out[before.len() as int].route == routes[replies[i].session.0]
                &&& out[before.len() as int].text == replies[i].text@
            }
            &&& out.len() <= n
            &&& !routes.contains_key(replies[i].session.0) ==> reply_messages(routes, replies, (i + 1) as nat) == before
        }),
    decreases n,
{
    if i < n - 1 {
        law_replies_go_out_in_order(routes, replies, (n - 1) as nat, i);
    } else if n > 1 {
        law_replies_go_out_in_order(routes, replies, (n - 1) as nat, 0);
    }
    let last = routed(routes, replies[n - 1].session, replies[n - 1].text@);
    if !routes.contains_key(replies[i].session.0) {
        assert(reply_messages(routes, replies, i as nat) + Seq::<OutboundV>::empty() =~= reply_messages(
            routes,
            replies,
            i as nat,
        ));
    }
}

/// Every question for consent from a session that has a route goes out along it, behind
/// those before it; it names the agent that asks and the question, and ends with what is
/// to be decided.
pub proof fn law_questions_go_out_in_order(
    routes: Map<usize, ReplyRoute>,
    approvals: Seq<ApprovalRequest>,
    n: nat,
    i: int,
)
    requires
        0 <= i < n <= approvals.len(),
    ensures
        ({
            let before = approval_messages(routes, approvals, i as nat);
            let out = approval_messages(routes, approvals, n);
            &&& before.is_prefix_of(out)
            &&& routes.contains_key(approvals[i].session.0) ==> {
                &&& before.len() < out.len()
                &&& out[before.len() as int].session == approvals[i].session
                &&& out[before.len() as int].route == routes[approvals[i].session.0]
                &&& out[before.len() as int].text == "[approval needed · "@ + approvals[i].agent.wire() + " · "@
                    + approvals[i].approval.wire() + "] "@ + approvals[i].summary@
            }
            &&& out.len() <= n
        }),
    decreases n,
{
    if i < n - 1 {
        law_questions_go_out_in_order(routes, approvals, (n - 1) as nat, i);
    } else if n > 1 {
        law_questions_go_out_in_order(routes, approvals, (n - 1) as nat, 0);
    }
}

/// What a drive brought goes out replies first and then questions, and nothing else does.
pub proof fn law_replies_go_out_before_questions(routes: Map<usize, ReplyRoute>, output: DriveOutput)
    ensures
        ({
            let replies = reply_messages(routes, output.replies@, output.replies@.len());
            let asked = approval_messages(routes, output.approvals@, output.approvals@.len());
            &&& surfaced(routes, output).take(replies.len() as int) == replies
            &&& surfaced(routes, output).skip(replies.len() as int) == asked
            &&& output.replies@.len() == 0 && output.approvals@.len() == 0 ==> surfaced(routes, output).len() == 0
        }),
{
    let replies = reply_messages(routes, output.replies@, output.replies@.len());
    let asked = approval_messages(routes, output.approvals@, output.approvals@.len());
    assert(surfaced(routes, output).take(replies.len() as int) =~= replies);
    assert(surfaced(routes, output).skip(replies.len() as int) =~= asked);
}

/// A message for a session changes no other session, and no route, channel or setting; the
/// next agent of any session gets an id that none has.
pub proof fn law_sessions_do_not_touch_each_other<A: Agent, F: AgentFactory<A>, C>(
    before: Orchestrator<A, F, C>,
    after: Orchestrator<A, F, C>,
    session: SessionId,
    text: String,
    sent: Seq<OutboundV>,
    other: usize,
)
    requires
        before.served(after, session, text, sent),
        other != session.0,
        before.instances@.contains_key(other),
    ensures
        after.instances@.contains_key(other),
        after.instances@[other] == before.instances@[other],
        after.routes == before.routes,
        after.channels == before.channels,
        after.sessions == before.sessions,
        after.max_steps == before.max_steps,
        after.instances@.contains_key(session.0),
        after.next_agent_id == after.instances@[session.0].registry.next_id,
{
}

/// A human's decision is handed to the agent of the session that it is meant for, as the
/// answer to what the agent asked; no other session changes.
pub proof fn law_decision_reaches_its_agent<A: Agent, F: AgentFactory<A>, C>(
    before: Orchestrator<A, F, C>,
    after: Orchestrator<A, F, C>,
    session: SessionId,
    agent: AgentId,
    approval: ApprovalId,
    decision: ApprovalDecision,
    sent: Seq<OutboundV>,
    other: usize,
)
    requires
        before.decided(after, session, agent, approval, decision, sent),
        before.instances@.contains_key(session.0),
    ensures
        before.instances@[session.0].registry@.nodes.contains_key(agent.0),
        exists|done: (), taken: A| #[trigger] before.instances@[session.0].registry@.nodes[agent.0].agent.takes(
            AgentCommand::ApprovalResult { id: approval, decision },
            Ok(done),
            taken,
        ),
        after.instances@[session.0].root == before.instances@[session.0].root,
        other != session.0 && before.instances@.contains_key(other) ==> after.instances@[other]
            == before.instances@[other],
        after.routes == before.routes,
{
    let (start, told) = choose|start: OrchestratorInstance<A>, told: OrchestratorInstance<A>|
        {
            &&& #[trigger] before.starts_from(start, session)
            &&& start.registry@.taken_up(told.registry@, agent, approval, decision)
            &&& #[trigger] before.driven(after, session, told, sent)
        };
    law_taken_decision_makes_ready(start.registry@, told.registry@, agent, approval, decision);
}

/// A session goes on with the agents that it has, and a new one begins with none; the next
/// agent's id is one that no session gave.
pub proof fn law_session_goes_on_with_its_agents<A: Agent, F: AgentFactory<A>, C>(
    before: Orchestrator<A, F, C>,
    start: OrchestratorInstance<A>,
    session: SessionId,
)
    requires
        before.starts_from(start, session),
    ensures
        start.session == session,
        start.registry@.next_id == before.next_agent_id,
        before.instances@.contains_key(session.0) ==> start.root == before.instances@[session.0].root
            && start.registry@.nodes == before.instances@[session.0].registry@.nodes && start.registry@.parked
            == before.instances@[session.0].registry@.parked && start.registry@.ready
            == before.instances@[session.0].registry@.ready,
        !before.instances@.contains_key(session.0) ==> start.root is None && start.registry@.nodes.dom()
            == Set::<usize>::empty() && start.registry@.ready.len() == 0,
{
}

/// A chat's session is one that exists and whose replies go to that chat of that channel.
pub proof fn law_session_of_a_chat_replies_there<A: Agent, F: AgentFactory<A>, C>(
    orchestrator: Orchestrator<A, F, C>,
    session: usize,
    channel: Seq<char>,
    chat_id: Seq<char>,
)
    requires
        orchestrator.replies_to(session, channel, chat_id),
    ensures
        orchestrator.sessions.live@.contains_key(session),
        orchestrator.routes@.contains_key(session),
        orchestrator.routes@[session].channel@ == channel,
        orchestrator.routes@[session].chat_id@ == chat_id,
{
}

/// A message for a session is handed to the session's root, and then the session's agents
/// have their turns, as many as they may; what they reply and ask goes out along the
/// routes. Where no root could be made nothing goes out.
pub proof fn law_message_is_served<A: Agent, F: AgentFactory<A>, C>(
    before: Orchestrator<A, F, C>,
    after: Orchestrator<A, F, C>,
    session: SessionId,
    text: String,
    sent: Seq<OutboundV>,
)
    requires
        before.served(after, session, text, sent),
    ensures
        exists|start: OrchestratorInstance<A>, handed: OrchestratorInstance<A>, r: Result<(), String>|
            {
                &&& before.starts_from(start, session)
                &&& #[trigger] start.handed(before.factory, handed, text, r)
                &&& after.instances@[session.0].root == handed.root
                &&& r is Err ==> sent.len() == 0 && after.instances@[session.0].registry@ == handed.registry@
                &&& r is Ok ==> exists|output: DriveOutput|
                    {
                        &&& handed.registry@.driven(
                            before.factory,
                            after.instances@[session.0].registry@,
                            output.replies@,
                            output.approvals@,
                            before.max_steps as nat,
                        )
                        &&& sent == #[trigger] surfaced(before.routes@, output)
                    }
            },
{
    let (start, handed, r) = choose|
        start: OrchestratorInstance<A>,
        handed: OrchestratorInstance<A>,
        r: Result<(), String>,
    |
        {
            &&& before.starts_from(start, session)
            &&& #[trigger] start.handed(before.factory, handed, text, r)
            &&& after.instances@[session.0].root == handed.root
            &&& match r {
                Err(_) => after.instances@[session.0].registry@ == handed.registry@ && sent.len() == 0,
                Ok(_) => before.driven(after, session, handed, sent),
            }
        };
    assert(start.handed(before.factory, handed, text, r));
    if r is Ok {
        let output = choose|output: DriveOutput|
            {
                &&& handed.registry@.driven(
                    before.factory,
                    after.instances@[session.0].registry@,
                    output.replies@,
                    output.approvals@,
                    before.max_steps as nat,
                )
                &&& sent == #[trigger] surfaced(after.routes@, output)
            };
        assert(sent == surfaced(before.routes@, output));
    }
}

/// What keeps a decision from reaching a session is said.
pub proof fn law_lost_decision_says_why(e: ApprovalError)
    ensures
        e matches ApprovalError::UnknownSession(id) ==> e.text() == "session "@ + id.wire() + " has no live agent graph"@,
        e matches ApprovalError::Resolve(r) ==> e.text() == r.text(),
{
}

/// A message that is answered changes the agents of its own session and nothing of any
/// other, nor the sessions, the channels or the settings; it is handed to the session's
/// own agents, and new ones get ids that none has.
pub proof fn law_answer_stays_in_its_session<A: Agent, F: AgentFactory<A>, C>(
    before: Orchestrator<A, F, C>,
    after: Orchestrator<A, F, C>,
    session: SessionId,
    text: String,
    sent: Seq<OutboundV>,
    other: usize,
)
    requires
        before.answered(after, session, text, sent),
    ensures
        other != session.0 && before.instances@.contains_key(other) ==> after.instances@.contains_key(other)
            && after.instances@[other] == before.instances@[other],
        after.sessions == before.sessions,
        after.channels == before.channels,
        after.factory == before.factory,
        after.max_steps == before.max_steps,
        exists|start: OrchestratorInstance<A>, handed: OrchestratorInstance<A>, r: Result<(), String>|
            {
                &&& start.session == session
                &&& start.registry@.next_id == before.next_agent_id
                &&& before.instances@.contains_key(session.0) ==> start.root == before.instances@[session.0].root
                    && start.registry@.nodes == before.instances@[session.0].registry@.nodes
                &&& #[trigger] start.handed(before.factory, handed, text, r)
                &&& r is Err ==> sent.len() == 0
            },
{
    let told = choose|told: Orchestrator<A, F, C>|
        {
            &&& told.same_but_routes(before)
            &&& told.routes@ == after.routes@
            &&& #[trigger] told.served(after, session, text, sent)
        };
    let (start, handed, r) = choose|
        start: OrchestratorInstance<A>,
        handed: OrchestratorInstance<A>,
        r: Result<(), String>,
    |
        {
            &&& told.starts_from(start, session)
            &&& #[trigger] start.handed(told.factory, handed, text, r)
            &&& after.instances@[session.0].root == handed.root
            &&& match r {
                Err(_) => after.instances@[session.0].registry@ == handed.registry@ && sent.len() == 0,
                Ok(_) => told.driven(after, session, handed, sent),
            }
        };
    assert(start.handed(before.factory, handed, text, r));
}

/// What goes out is each message's own session, route and words, in order.
pub proof fn law_outbound_view_shows_the_messages(messages: Seq<OutboundMessage>, i: int)
    requires
        0 <= i < messages.len(),
    ensures
        outbound_view(messages).len() == messages.len(),
        outbound_view(messages)[i].session == messages[i].session,
        outbound_view(messages)[i].route == messages[i].route,
        outbound_view(messages)[i].text == messages[i].text@,
{
}

} // verus!
