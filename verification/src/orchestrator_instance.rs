//! The agents of one session, with its root.
//!
//! The root is made when the first message comes: that message is its goal. Later
//! messages are handed to the same root.

use vstd::prelude::*;

use crate::agent::agent::AgentKind;
use crate::agent::base_agent::ApprovalDecision;
use crate::agent::registry::{
    queued, Agent, AgentFactory, AgentRegistry, DriveOutput, Edge, RegistryV, ResolveApprovalError,
};
use crate::json::Json;
use crate::protocol::ids::{AgentId, ApprovalId, SessionId};

verus! {

/// The kind of the agent that talks to the user.
pub const ROOT_AGENT_KIND: &'static str = "conversation";

/// A session's agents.
pub struct OrchestratorInstance<A> {
    pub session: SessionId,
    pub registry: AgentRegistry<A>,
    pub root: Option<AgentId>,
}

impl<A: Agent> OrchestratorInstance<A> {
    /// The root is registered as the root of the session.
    pub open spec fn valid(self) -> bool {
        &&& self.registry.wf()
        &&& self.registry.ordered()
        &&& self.registry.pending@.len() == 0
        &&& self.root matches Some(id) ==> self.registry.roots@.contains_key(self.session.0)
            && self.registry.roots@[self.session.0] == id
    }

    /// Whether the root was handed a user message. The first one has the root made;
    /// where that fails there is still no root.
    pub open spec fn handed<F: AgentFactory<A>>(
        self,
        factory: F,
        new: OrchestratorInstance<A>,
        text: String,
        r: Result<(), String>,
    ) -> bool {
        &&& new.session == self.session
        &&& match self.root {
            Some(root) => r is Ok && new.root == self.root && self.registry@.delivered(new.registry@, root, text@),
            None => exists|kind: AgentKind, made: Result<AgentId, String>|
                {
                    &&& kind@ == ROOT_AGENT_KIND@
                    &&& #[trigger] self.registry@.rooted(factory, new.registry@, kind, self.session, text, made)
                    &&& match made {
                        Ok(id) => r is Ok && new.root == Some(id),
                        Err(e) => r == Err::<(), String>(e) && new.root is None,
                    }
                },
        }
    }

    /// No agents; the first one gets the id `next_id`.
    pub fn new(session: SessionId, next_id: usize) -> (r: OrchestratorInstance<A>)
        ensures
            r.valid(),
            r.session == session,
            r.root is None,
            r.registry.next_id == next_id,
            r.registry.edges() == Map::<usize, Edge>::empty(),
            r.registry.ready@.len() == 0,
            r.registry@ == RegistryV::<A>::fresh(next_id),
    {
        OrchestratorInstance { session, registry: AgentRegistry::with_id_allocator(next_id), root: None }
    }

    /// Goes on with ids from `next_id`, where other sessions have taken the ones before.
    pub fn sync_ids(&mut self, next_id: usize)
        requires
            old(self).valid(),
            old(self).registry.next_id <= next_id,
        ensures
            final(self).valid(),
            final(self).registry.next_id == next_id,
            final(self).session == old(self).session,
            final(self).root == old(self).root,
            final(self).registry.edges() == old(self).registry.edges(),
            final(self).registry.ready == old(self).registry.ready,
            final(self).registry.roots == old(self).registry.roots,
            final(self).registry.pending == old(self).registry.pending,
            final(self).registry.parked_approvals == old(self).registry.parked_approvals,
            final(self).registry@ == (RegistryV { next_id, ..old(self).registry@ }),
    {
        self.registry.next_id = next_id;
        assert(self.registry.edges() == old(self).registry.edges());
    }

    /// Hands the root a user message. The first one has the root made; where that
    /// fails there is still no root.
    pub fn deliver<F: AgentFactory<A>>(&mut self, factory: &F, text: String) -> (r: Result<(), String>)
        requires
            old(self).valid(),
            old(self).root is None ==> old(self).registry.next_id < usize::MAX,
        ensures
            final(self).valid(),
            final(self).session == old(self).session,
            match old(self).root {
                Some(root) => {
                    &&& r is Ok
                    &&& final(self).root == old(self).root
                    &&& final(self).registry.same_graph(old(self).registry)
                    &&& final(self).registry.ready@ == (if old(self).registry.edges().contains_key(root.0) {
                        queued(old(self).registry.ready@, root)
                    } else {
                        old(self).registry.ready@
                    })
                },
                None => {
                    &&& final(self).registry.next_id == old(self).registry.next_id + 1
                    &&& match r {
                        Ok(_) => {
                            let id = AgentId(old(self).registry.next_id);
                            &&& final(self).root == Some(id)
                            &&& final(self).registry.edges() == old(self).registry.edges().insert(
                                id.0,
                                Edge { kind: ROOT_AGENT_KIND@, parent: None, session: old(self).session, depth: 0 },
                            )
                            &&& final(self).registry.ready@ == queued(old(self).registry.ready@, id)
                        },
                        Err(_) => {
                            &&& final(self).root is None
                            &&& final(self).registry.edges() == old(self).registry.edges()
                            &&& final(self).registry.ready == old(self).registry.ready
                        },
                    }
                },
            },
            old(self).handed(*factory, *final(self), text, r),
    {
        match self.root {
            Some(root) => {
                let _ = self.registry.deliver_to(root, text);
                Ok(())
            },
            None => {
                let kind = AgentKind::new(ROOT_AGENT_KIND);
                let made = self.registry.add_root_of_kind(factory, kind, self.session, text);
                assert(old(self).registry@.rooted(*factory, self.registry@, kind, old(self).session, text, made));
                match made {
                    Ok(root) => {
                        self.root = Some(root);
                        Ok(())
                    },
                    Err(e) => Err(e),
                }
            },
        }
    }

    /// Gives the agents their turns until none is ready, or `max_steps` turns were had.
    pub fn drive<F: AgentFactory<A>>(&mut self, factory: &F, max_steps: u64) -> (r: DriveOutput)
        requires
            old(self).valid(),
        ensures
            final(self).valid(),
            final(self).session == old(self).session,
            final(self).root == old(self).root,
            final(self).registry.next_id >= old(self).registry.next_id,
            r.replies@.len() + r.approvals@.len() <= max_steps,
            old(self).registry.only_new_ids(final(self).registry),
            max_steps > 0 && old(self).registry.ready@.len() == 0 && old(self).registry.approval_pending@.len() == 0
                ==> r.empty(),
            old(self).registry@.driven(
                *factory,
                final(self).registry@,
                r.replies@,
                r.approvals@,
                max_steps as nat,
            ),
    {
        self.registry.run_until_idle(factory, max_steps)
    }

    /// The root's conversation.
    pub fn root_transcript(&self) -> (r: Option<Json>)
        ensures
            match self.root {
                Some(root) => if self.registry@.nodes.contains_key(root.0) {
                    self.registry@.nodes[root.0].agent.shows(r)
                } else {
                    r is None
                },
                None => r is None,
            },
    {
        match self.root {
            Some(root) => self.registry.agent_transcript(root),
            None => None,
        }
    }

    /// Hands a decision to the agent that waits for it.
    pub fn resolve_approval(&mut self, agent: AgentId, approval: ApprovalId, decision: ApprovalDecision) -> (r: Result<
        (),
        ResolveApprovalError,
    >)
        requires
            old(self).valid(),
        ensures
            final(self).valid(),
            final(self).session == old(self).session,
            final(self).root == old(self).root,
            final(self).registry.same_graph(old(self).registry),
            match r {
                Ok(_) => old(self).registry.edges().contains_key(agent.0) && final(self).registry.ready@ == queued(
                    old(self).registry.ready@,
                    agent,
                ),
                Err(ResolveApprovalError::UnknownAgent(id)) => id == agent
                    && !old(self).registry.edges().contains_key(agent.0) && final(self).registry.ready@ == old(self).registry.ready@,
                Err(ResolveApprovalError::Command(_)) => old(self).registry.edges().contains_key(agent.0)
                    && final(self).registry.ready@ == old(self).registry.ready@,
            },
            old(self).registry@.resolved(final(self).registry@, agent, approval, decision, r),
    {
        let r = self.registry.resolve_approval(agent, approval, decision);
        assert(self.registry.edges() == old(self).registry.edges());
        r
    }
}

/// The first message of a session is the goal of its root, an agent for conversations;
/// every later one is handed to that root with its own words.
pub proof fn law_message_reaches_the_root<A: Agent, F: AgentFactory<A>>(
    factory: F,
    before: OrchestratorInstance<A>,
    after: OrchestratorInstance<A>,
    text: String,
    r: Result<(), String>,
)
    requires
        before.handed(factory, after, text, r),
    ensures
        after.session == before.session,
        before.root matches Some(root) ==> r is Ok && after.root == Some(root) && before.registry@.delivered(
            after.registry@,
            root,
            text@,
        ),
        before.root is None ==> exists|kind: AgentKind, made: Result<A, String>|
            {
                &&& kind@ == "conversation"@
                &&& #[trigger] factory.makes(AgentId(before.registry@.next_id), kind, text, true, made)
                &&& made is Ok <==> r is Ok
                &&& made is Ok ==> after.root == Some(AgentId(before.registry@.next_id))
                &&& made matches Err(e) ==> r == Err::<(), String>(e) && after.root is None
            },
{
    if before.root is None {
        let (kind, id) = choose|kind: AgentKind, made: Result<AgentId, String>|
            {
                &&& kind@ == ROOT_AGENT_KIND@
                &&& #[trigger] before.registry@.rooted(factory, after.registry@, kind, before.session, text, made)
                &&& match made {
                    Ok(id) => r is Ok && after.root == Some(id),
                    Err(e) => r == Err::<(), String>(e) && after.root is None,
                }
            };
        assert(before.registry@.rooted(factory, after.registry@, kind, before.session, text, id));
    }
}

} // verus!
