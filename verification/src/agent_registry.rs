//! The controllers, found by role.

use vstd::prelude::*;

use crate::agent_spec::{AgentRole, AgentSpec};

verus! {

/// The controller of each role.
pub struct AgentRegistry<S> {
    frontend: Option<S>,
    worker: Option<S>,
}

impl<S> View for AgentRegistry<S> {
    type V = Map<AgentRole, S>;

    closed spec fn view(&self) -> Map<AgentRole, S> {
        let m = match self.frontend {
            Some(s) => Map::empty().insert(AgentRole::Frontend, s),
            None => Map::empty(),
        };
        match self.worker {
            Some(s) => m.insert(AgentRole::Worker, s),
            None => m,
        }
    }
}

impl<S: AgentSpec> AgentRegistry<S> {
    /// The registry without controllers.
    pub fn new() -> (r: AgentRegistry<S>)
        ensures
            r@ == Map::<AgentRole, S>::empty(),
    {
        AgentRegistry { frontend: None, worker: None }
    }

    /// Puts a controller in under its role, in place of an earlier one.
    pub fn register(&mut self, spec: S)
        ensures
            final(self)@ == old(self)@.insert(spec.for_role(), spec),
    {
        match spec.role() {
            AgentRole::Frontend => {
                self.frontend = Some(spec);
            },
            AgentRole::Worker => {
                self.worker = Some(spec);
            },
        }
        assert(self@ =~= old(self)@.insert(spec.for_role(), spec));
    }

    /// The controller of a role.
    pub fn get(&self, role: AgentRole) -> (r: Option<&S>)
        ensures
            match r {
                Some(s) => self@.dom().contains(role) && self@[role] == *s,
                None => !self@.dom().contains(role),
            },
    {
        match role {
            AgentRole::Frontend => match &self.frontend {
                Some(s) => Some(s),
                None => None,
            },
            AgentRole::Worker => match &self.worker {
                Some(s) => Some(s),
                None => None,
            },
        }
    }
}

} // verus!
