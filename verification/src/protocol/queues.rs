//! Queues between the outside and the orchestrator: what is pushed comes out once,
//! in the order of the pushes.

use vstd::prelude::*;

use crate::protocol::command::Command;
use crate::protocol::event::AgentEvent;
use crate::protocol::ids::SessionId;

verus! {

/// A message of a user.
#[derive(Debug, PartialEq, Eq)]
pub struct UserInput {
    pub session_id: SessionId,
    pub text: String,
}

/// The messages of users that nobody has taken yet.
pub struct UserInputQueue {
    inner: Vec<UserInput>,
}

impl View for UserInputQueue {
    type V = Seq<UserInput>;

    closed spec fn view(&self) -> Seq<UserInput> {
        self.inner@
    }
}

impl UserInputQueue {
    /// The empty queue.
    pub fn new() -> (r: UserInputQueue)
        ensures
            r@.len() == 0,
    {
        UserInputQueue { inner: Vec::new() }
    }

    /// Adds a message at the end.
    pub fn push(&mut self, input: UserInput)
        ensures
            final(self)@ == old(self)@.push(input),
    {
        self.inner.push(input);
    }

    /// Takes every message out.
    pub fn drain(&mut self) -> (r: Vec<UserInput>)
        ensures
            r@ == old(self)@,
            final(self)@.len() == 0,
    {
        let mut out: Vec<UserInput> = Vec::new();
        std::mem::swap(&mut out, &mut self.inner);
        out
    }
}

impl Default for UserInputQueue {
    fn default() -> (r: UserInputQueue)
        ensures
            r@.len() == 0,
    {
        UserInputQueue::new()
    }
}

/// The commands that nobody has taken yet.
pub struct CommandQueue {
    inner: Vec<Command>,
}

impl View for CommandQueue {
    type V = Seq<Command>;

    closed spec fn view(&self) -> Seq<Command> {
        self.inner@
    }
}

impl CommandQueue {
    /// The empty queue.
    pub fn new() -> (r: CommandQueue)
        ensures
            r@.len() == 0,
    {
        CommandQueue { inner: Vec::new() }
    }

    /// Adds a command at the end.
    pub fn push(&mut self, command: Command)
        ensures
            final(self)@ == old(self)@.push(command),
    {
        self.inner.push(command);
    }

    /// Takes every command out.
    pub fn drain(&mut self) -> (r: Vec<Command>)
        ensures
            r@ == old(self)@,
            final(self)@.len() == 0,
    {
        let mut out: Vec<Command> = Vec::new();
        std::mem::swap(&mut out, &mut self.inner);
        out
    }
}

impl Default for CommandQueue {
    fn default() -> (r: CommandQueue)
        ensures
            r@.len() == 0,
    {
        CommandQueue::new()
    }
}

/// The events of agents that nobody has taken yet.
pub struct AgentEventQueue {
    inner: Vec<AgentEvent>,
}

impl View for AgentEventQueue {
    type V = Seq<AgentEvent>;

    closed spec fn view(&self) -> Seq<AgentEvent> {
        self.inner@
    }
}

impl AgentEventQueue {
    /// The empty queue.
    pub fn new() -> (r: AgentEventQueue)
        ensures
            r@.len() == 0,
    {
        AgentEventQueue { inner: Vec::new() }
    }

    /// Adds an event at the end.
    pub fn push(&mut self, event: AgentEvent)
        ensures
            final(self)@ == old(self)@.push(event),
    {
        self.inner.push(event);
    }

    /// Takes every event out.
    pub fn drain(&mut self) -> (r: Vec<AgentEvent>)
        ensures
            r@ == old(self)@,
            final(self)@.len() == 0,
    {
        let mut out: Vec<AgentEvent> = Vec::new();
        std::mem::swap(&mut out, &mut self.inner);
        out
    }
}

impl Default for AgentEventQueue {
    fn default() -> (r: AgentEventQueue)
        ensures
            r@.len() == 0,
    {
        AgentEventQueue::new()
    }
}

} // verus!
