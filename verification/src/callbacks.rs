//! What the agent loop asks of its surroundings.

use vstd::prelude::*;

use crate::consts::{ContextKind, ContextRecordType};
use crate::errname::EspErr;
use crate::request::RequestItem;

verus! {

/// Runs a capability for the loop: the code it ends with and its output.
pub trait CapCaller {
    fn call_cap(&self, cap_name: &str, input_json: &str, request: &RequestItem) -> (EspErr, Option<String>);
}

/// What a context provider has for a request.
#[derive(Debug, PartialEq, Eq)]
pub enum ProviderOutcome {
    /// Nothing.
    Skip,
    /// It failed with this code.
    Error(EspErr),
    /// This content.
    Provided { kind: ContextKind, content: String },
}

/// Gives context for a request.
pub trait ContextProvider {
    fn name(&self) -> &str;

    fn flags(&self) -> u32;

    fn collect(&self, request: &RequestItem) -> ProviderOutcome;
}

/// One record to persist.
#[derive(Debug, PartialEq, Eq)]
pub struct PersistRecord {
    pub record_type: ContextRecordType,
    pub message_json: Option<String>,
    pub text: Option<String>,
}

/// Persists records of a session.
pub trait PersistContext {
    fn persist(
        &self,
        session_id: &str,
        request: &RequestItem,
        records: &Vec<PersistRecord>,
        turn_completed: bool,
    ) -> EspErr;
}

/// What the request gate says to a request.
#[derive(Debug, PartialEq, Eq)]
pub enum GateOutcome {
    /// Proceed.
    Allow,
    /// Answer with this text and do nothing else.
    Reject(String),
    /// Fail with this code.
    Error(EspErr),
}

/// Lets requests pass or not.
pub trait RequestGate {
    fn gate(&self, request: &RequestItem) -> GateOutcome;
}

/// Is told when a request starts.
pub trait RequestStart {
    fn on_start(&self, request: &RequestItem) -> EspErr;
}

/// Gives a note to publish at the end of a round, if there is one.
pub trait StageNote {
    fn collect(&self, request: &RequestItem) -> Result<Option<String>, EspErr>;
}

/// What is reported of a completed turn.
#[derive(Debug, PartialEq, Eq)]
pub struct CompletionSummary {
    pub request_id: u32,
    pub session_id: Option<String>,
    pub final_text: Option<String>,
    pub context_providers_csv: String,
    pub tool_calls_csv: String,
}

/// Is told of completed turns.
pub trait CompletionObserver {
    fn on_complete(&self, summary: &CompletionSummary);
}

/// What a provider's answer means: the code for nothing found is no failure.
pub fn provider_outcome(err: EspErr, kind: i32, content: Option<String>) -> (r: ProviderOutcome)
    ensures
        match r {
            ProviderOutcome::Skip => err == crate::errname::ESP_ERR_NOT_FOUND,
            ProviderOutcome::Error(e) => e == err && err != crate::errname::ESP_ERR_NOT_FOUND && err
                != crate::errname::ESP_OK,
            ProviderOutcome::Provided { kind: k, content: c } => {
                &&& err == crate::errname::ESP_OK
                &&& k == (if kind == 1 {
                    ContextKind::Messages
                } else if kind == 2 {
                    ContextKind::Tools
                } else {
                    ContextKind::SystemPrompt
                })
                &&& c@ == (match content {
                    Some(s) => s@,
                    None => Seq::empty(),
                })
            },
        },
{
    if err == crate::errname::ESP_ERR_NOT_FOUND {
        return ProviderOutcome::Skip;
    }
    if err != crate::errname::ESP_OK {
        return ProviderOutcome::Error(err);
    }
    let text = match content {
        Some(s) => s,
        None => String::new(),
    };
    ProviderOutcome::Provided { kind: ContextKind::from_c(kind), content: text }
}

/// What a gate's answer means: a failure with a message is a rejection that is
/// answered with it.
pub fn gate_outcome(err: EspErr, message: String) -> (r: GateOutcome)
    ensures
        match r {
            GateOutcome::Allow => err == crate::errname::ESP_OK,
            GateOutcome::Reject(m) => err != crate::errname::ESP_OK && m@ == message@ && message@.len() > 0,
            GateOutcome::Error(e) => err != crate::errname::ESP_OK && e == err && message@.len() == 0,
        },
{
    if err == crate::errname::ESP_OK {
        return GateOutcome::Allow;
    }
    if message.as_str().is_empty() {
        GateOutcome::Error(err)
    } else {
        GateOutcome::Reject(message)
    }
}

} // verus!
