//! Requests to the agent loop and its responses.

use vstd::prelude::*;

use crate::consts::{CompletionType, ResponseStatus};
use crate::text::clone_opt;

verus! {

/// A request.
#[derive(Debug, PartialEq, Eq)]
pub struct RequestItem {
    pub request_id: u32,
    pub flags: u32,
    pub session_id: Option<String>,
    pub user_text: String,
    pub source_channel: Option<String>,
    pub source_chat_id: Option<String>,
    pub source_sender_id: Option<String>,
    pub source_message_id: Option<String>,
    pub source_cap: Option<String>,
    pub target_channel: Option<String>,
    pub target_chat_id: Option<String>,
}

impl Default for RequestItem {
    fn default() -> (r: RequestItem)
        ensures
            r.request_id == 0,
            r.flags == 0,
            r.session_id is None,
            r.user_text@ == Seq::<char>::empty(),
            r.source_channel is None,
            r.source_chat_id is None,
            r.source_sender_id is None,
            r.source_message_id is None,
            r.source_cap is None,
            r.target_channel is None,
            r.target_chat_id is None,
    {
        RequestItem {
            request_id: 0,
            flags: 0,
            session_id: None,
            user_text: String::new(),
            source_channel: None,
            source_chat_id: None,
            source_sender_id: None,
            source_message_id: None,
            source_cap: None,
            target_channel: None,
            target_chat_id: None,
        }
    }
}

impl RequestItem {
    /// The session id, empty where there is none.
    pub open spec fn session(self) -> Seq<char> {
        match self.session_id {
            Some(s) => s@,
            None => Seq::empty(),
        }
    }

    /// The session id, empty where there is none.
    pub fn session_id_str(&self) -> (r: &str)
        ensures
            r@ == self.session(),
    {
        proof {
            reveal_strlit("");
            assert(""@ =~= Seq::<char>::empty());
        }
        match &self.session_id {
            Some(s) => s.as_str(),
            None => "",
        }
    }
}

/// A response.
#[derive(Debug, PartialEq, Eq)]
pub struct ResponseItem {
    pub request_id: u32,
    pub status: ResponseStatus,
    pub completion_type: CompletionType,
    pub target_channel: Option<String>,
    pub target_chat_id: Option<String>,
    pub text: Option<String>,
    pub error_message: Option<String>,
}

impl Default for ResponseItem {
    fn default() -> (r: ResponseItem)
        ensures
            r.request_id == 0,
            r.status == ResponseStatus::Success,
            r.completion_type == CompletionType::Done,
            r.target_channel is None,
            r.target_chat_id is None,
            r.text is None,
            r.error_message is None,
    {
        ResponseItem {
            request_id: 0,
            status: ResponseStatus::Success,
            completion_type: CompletionType::Done,
            target_channel: None,
            target_chat_id: None,
            text: None,
            error_message: None,
        }
    }
}

impl ResponseItem {
    /// A copy.
    pub fn dup(&self) -> (r: ResponseItem)
        ensures
            r == *self,
    {
        ResponseItem {
            request_id: self.request_id,
            status: self.status,
            completion_type: self.completion_type,
            target_channel: clone_opt(&self.target_channel),
            target_chat_id: clone_opt(&self.target_chat_id),
            text: clone_opt(&self.text),
            error_message: clone_opt(&self.error_message),
        }
    }

    /// The response that a turn starts from: an error without a message.
    pub fn pending(request: &RequestItem) -> (r: ResponseItem)
        ensures
            r.request_id == request.request_id,
            r.status == ResponseStatus::Error,
            r.completion_type == CompletionType::Done,
            r.target_channel == request.target_channel,
            r.target_chat_id == request.target_chat_id,
            r.text is None,
            r.error_message is None,
    {
        ResponseItem {
            request_id: request.request_id,
            status: ResponseStatus::Error,
            completion_type: CompletionType::Done,
            target_channel: clone_opt(&request.target_channel),
            target_chat_id: clone_opt(&request.target_chat_id),
            text: None,
            error_message: None,
        }
    }
}

} // verus!
