//! Sessions, and where their replies go.

use std::collections::HashMap;

use vstd::prelude::*;

use crate::protocol::ids::SessionId;
use crate::text::{concat2, concat3};

verus! {

broadcast use vstd::std_specs::hash::group_hash_axioms;

/// A user message as it comes in.
#[derive(Clone, Debug, PartialEq, Eq)]
pub struct InboundMessage {
    pub message_id: String,
    pub channel: String,
    pub chat_id: String,
    pub sender_id: Option<String>,
    pub session_id: String,
    pub text: String,
}

/// Where the replies of a session go.
#[derive(Clone, Debug, PartialEq, Eq)]
pub struct ReplyRoute {
    pub channel: String,
    pub chat_id: String,
}

impl ReplyRoute {
    /// A copy.
    pub fn dup(&self) -> (r: ReplyRoute)
        ensures
            r == *self,
    {
        ReplyRoute { channel: self.channel.clone(), chat_id: self.chat_id.clone() }
    }
}

/// The session does not exist.
#[derive(Clone, Copy, Debug, PartialEq, Eq, Structural)]
pub enum SessionError {
    NotFound(SessionId),
    AlreadyExists(SessionId),
}

/// Why something did not reach a session.
#[derive(Clone, Debug, PartialEq, Eq)]
pub enum DeliverError {
    MissingSessionId,
    InvalidSessionId(String),
    SessionNotFound(SessionId),
    NoReplyRoute(SessionId),
    /// The sessions refused it.
    Session(SessionError),
    /// The channel failed, and this is what it said.
    Channel(String),
}

impl DeliverError {
    /// The text of the error.
    pub open spec fn text(self) -> Seq<char> {
        match self {
            DeliverError::MissingSessionId => "missing session id"@,
            DeliverError::InvalidSessionId(s) => "invalid session id: "@ + s@,
            DeliverError::SessionNotFound(id) => "session "@ + id.wire() + " not found"@,
            DeliverError::NoReplyRoute(id) => "session "@ + id.wire() + " has no reply route"@,
            DeliverError::Session(SessionError::NotFound(id)) => "session "@ + id.wire() + " not found"@,
            DeliverError::Session(SessionError::AlreadyExists(id)) => "session "@ + id.wire() + " already exists"@,
            DeliverError::Channel(s) => s@,
        }
    }

    pub fn message(&self) -> (r: String)
        ensures
            r@ == self.text(),
    {
        match self {
            DeliverError::MissingSessionId => "missing session id".to_owned(),
            DeliverError::InvalidSessionId(s) => concat2("invalid session id: ", s.as_str()),
            DeliverError::SessionNotFound(id) => concat3("session ", id.to_wire().as_str(), " not found"),
            DeliverError::NoReplyRoute(id) => concat3("session ", id.to_wire().as_str(), " has no reply route"),
            DeliverError::Session(SessionError::NotFound(id)) => concat3(
                "session ",
                id.to_wire().as_str(),
                " not found",
            ),
            DeliverError::Session(SessionError::AlreadyExists(id)) => concat3(
                "session ",
                id.to_wire().as_str(),
                " already exists",
            ),
            DeliverError::Channel(s) => s.clone(),
        }
    }
}

/// The sessions that exist.
pub struct SessionStore {
    pub live: HashMap<usize, ()>,
    pub next: usize,
}

impl SessionStore {
    /// Ids are given out in order.
    pub open spec fn valid(self) -> bool {
        forall|id: usize| #[trigger] self.live@.contains_key(id) ==> id < self.next
    }

    /// Whether a session exists.
    pub open spec fn has(self, id: SessionId) -> bool {
        self.live@.contains_key(id.0)
    }

    pub fn new() -> (r: SessionStore)
        ensures
            r.valid(),
            r.live@ == Map::<usize, ()>::empty(),
            r.next == 1,
    {
        SessionStore { live: HashMap::new(), next: 1 }
    }

    /// A new session.
    pub fn create(&mut self) -> (r: SessionId)
        requires
            old(self).valid(),
            old(self).next < usize::MAX,
        ensures
            final(self).valid(),
            r.0 == old(self).next,
            !old(self).has(r),
            final(self).next == old(self).next + 1,
            final(self).live@ == old(self).live@.insert(r.0, ()),
    {
        let id = SessionId(self.next);
        self.next = self.next + 1;
        self.live.insert(id.0, ());
        id
    }

    pub fn contains(&self, id: SessionId) -> (r: bool)
        ensures
            r == self.has(id),
    {
        self.live.contains_key(&id.0)
    }

    /// How many sessions exist.
    pub fn count(&self) -> (r: usize)
        ensures
            r == self.live@.len(),
    {
        self.live.len()
    }

    /// Takes a session out.
    pub fn delete(&mut self, id: SessionId) -> (r: Result<(), SessionError>)
        requires
            old(self).valid(),
        ensures
            final(self).valid(),
            final(self).next == old(self).next,
            final(self).live@ == old(self).live@.remove(id.0),
            if old(self).has(id) {
                r is Ok
            } else {
                r == Err::<(), SessionError>(SessionError::NotFound(id))
            },
    {
        match self.live.remove(&id.0) {
            Some(_) => Ok(()),
            None => Err(SessionError::NotFound(id)),
        }
    }
}

/// What keeps a message from being delivered is said, with the session or the text that it
/// is about.
pub proof fn law_undelivered_message_says_why(e: DeliverError)
    ensures
        e is MissingSessionId ==> e.text() == "missing session id"@,
        e matches DeliverError::InvalidSessionId(s) ==> e.text() == "invalid session id: "@ + s@,
        e matches DeliverError::SessionNotFound(id) ==> e.text() == "session "@ + id.wire() + " not found"@,
        e matches DeliverError::NoReplyRoute(id) ==> e.text() == "session "@ + id.wire() + " has no reply route"@,
        e matches DeliverError::Session(SessionError::NotFound(id)) ==> e.text() == "session "@ + id.wire()
            + " not found"@,
        e matches DeliverError::Session(SessionError::AlreadyExists(id)) ==> e.text() == "session "@ + id.wire()
            + " already exists"@,
        e matches DeliverError::Channel(s) ==> e.text() == s@,
{
}

} // verus!
