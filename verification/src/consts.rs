//! Limits, flags and small enums of the agent loop.

use vstd::prelude::*;

verus! {

// Request flags.
pub const REQUEST_FLAG_PUBLISH_OUT_MESSAGE: u32 = 1;

pub const REQUEST_FLAG_SKIP_RESPONSE_QUEUE: u32 = 2;

pub const REQUEST_FLAG_USER_INTERRUPT: u32 = 4;

pub const REQUEST_FLAG_PUBLISH_STAGE_MESSAGE: u32 = 8;

/// A context provider that is asked once, at the start of a request.
pub const CONTEXT_PROVIDER_FLAG_REQUEST_START_ONLY: u32 = 1;

// Defaults and limits.
pub const DEFAULT_STACK_SIZE: u32 = 8192;

pub const DEFAULT_PRIORITY: u32 = 5;

pub const DEFAULT_REQUEST_Q: u32 = 4;

pub const DEFAULT_RESPONSE_Q: u32 = 4;

pub const DEFAULT_TOOL_ITERATIONS: u32 = 10;

pub const INSERT_QUEUE_LEN: usize = 4;

pub const INFLIGHT_SESSION_ID_SIZE: usize = 128;

pub const LOG_SNIPPET_LEN: usize = 96;

pub const TOOL_SUMMARY_MAX_LEN: usize = 768;

pub const OBS_CSV_MAX: usize = 384;

pub const MAX_COMPLETION_OBSERVERS: usize = 4;

/// Whether a request was answered.
#[derive(Clone, Copy, Debug, PartialEq, Eq, Structural)]
pub enum ResponseStatus {
    Success,
    Error,
}

impl ResponseStatus {
    /// The number under which callers know the status.
    pub fn as_c(self) -> (r: i32)
        ensures
            r == (match self {
                ResponseStatus::Success => 0i32,
                ResponseStatus::Error => 1i32,
            }),
    {
        match self {
            ResponseStatus::Success => 0,
            ResponseStatus::Error => 1,
        }
    }
}

/// How a request was completed.
#[derive(Clone, Copy, Debug, PartialEq, Eq, Structural)]
pub enum CompletionType {
    Done,
}

/// Where the agent loop is.
#[derive(Clone, Copy, Debug, PartialEq, Eq, Structural)]
pub enum AgentLoopPhase {
    Idle,
    BeforeBuildIterationContext,
    BuildingIterationContext,
    BeforeLlmHttp,
    InLlmHttp,
    AfterLlmBeforeTool,
    RunningTool,
    Finalizing,
}

impl AgentLoopPhase {
    /// The number under which callers know the phase: its place in the loop.
    pub open spec fn number(self) -> int {
        match self {
            AgentLoopPhase::Idle => 0,
            AgentLoopPhase::BeforeBuildIterationContext => 1,
            AgentLoopPhase::BuildingIterationContext => 2,
            AgentLoopPhase::BeforeLlmHttp => 3,
            AgentLoopPhase::InLlmHttp => 4,
            AgentLoopPhase::AfterLlmBeforeTool => 5,
            AgentLoopPhase::RunningTool => 6,
            AgentLoopPhase::Finalizing => 7,
        }
    }

    /// The number under which callers know the phase.
    pub fn as_c(self) -> (r: i32)
        ensures
            r == self.number(),
    {
        match self {
            AgentLoopPhase::Idle => 0,
            AgentLoopPhase::BeforeBuildIterationContext => 1,
            AgentLoopPhase::BuildingIterationContext => 2,
            AgentLoopPhase::BeforeLlmHttp => 3,
            AgentLoopPhase::InLlmHttp => 4,
            AgentLoopPhase::AfterLlmBeforeTool => 5,
            AgentLoopPhase::RunningTool => 6,
            AgentLoopPhase::Finalizing => 7,
        }
    }

    /// Whether a user input can join the turn in this phase.
    pub open spec fn insertable(self) -> bool {
        self != AgentLoopPhase::Idle && self != AgentLoopPhase::Finalizing
    }

    /// Whether a user input can join the turn in this phase: any phase but idle and finalizing.
    pub fn is_insertable(self) -> (r: bool)
        ensures
            r == self.insertable(),
    {
        match self {
            AgentLoopPhase::Idle | AgentLoopPhase::Finalizing => false,
            _ => true,
        }
    }
}

/// What a persisted record holds.
#[derive(Clone, Copy, Debug, PartialEq, Eq, Structural)]
pub enum ContextRecordType {
    User,
    AssistantFinal,
    AssistantTool,
    ToolResult,
}

impl ContextRecordType {
    /// The number under which callers know the type.
    pub fn as_c(self) -> (r: i32)
        ensures
            r == (match self {
                ContextRecordType::User => 1i32,
                ContextRecordType::AssistantFinal => 2i32,
                ContextRecordType::AssistantTool => 3i32,
                ContextRecordType::ToolResult => 4i32,
            }),
    {
        match self {
            ContextRecordType::User => 1,
            ContextRecordType::AssistantFinal => 2,
            ContextRecordType::AssistantTool => 3,
            ContextRecordType::ToolResult => 4,
        }
    }
}

/// What kind of context a provider gives.
#[derive(Clone, Copy, Debug, PartialEq, Eq, Structural)]
pub enum ContextKind {
    SystemPrompt,
    Messages,
    Tools,
}

impl ContextKind {
    /// The name of the kind.
    pub fn as_str(self) -> (r: &'static str)
        ensures
            r@ == (match self {
                ContextKind::SystemPrompt => "system_prompt"@,
                ContextKind::Messages => "messages"@,
                ContextKind::Tools => "tools"@,
            }),
    {
        match self {
            ContextKind::SystemPrompt => "system_prompt",
            ContextKind::Messages => "messages",
            ContextKind::Tools => "tools",
        }
    }

    /// The kind that callers mean by a number; unknown numbers mean the system prompt.
    pub fn from_c(kind: i32) -> (r: ContextKind)
        ensures
            r == (if kind == 1 {
                ContextKind::Messages
            } else if kind == 2 {
                ContextKind::Tools
            } else {
                ContextKind::SystemPrompt
            }),
    {
        if kind == 1 {
            ContextKind::Messages
        } else if kind == 2 {
            ContextKind::Tools
        } else {
            ContextKind::SystemPrompt
        }
    }
}

/// Why a turn is being aborted.
#[derive(Clone, Copy, Debug, PartialEq, Eq, Structural)]
pub enum AbortReason {
    NotAborted,
    Cancel,
    UserInterrupt,
}

/// The phases are numbered in the order in which a turn goes through them; inputs can join
/// a turn in every phase but before it begins and while it is finished.
pub proof fn law_phases_are_numbered_in_order(phase: AgentLoopPhase)
    ensures
        phase is Idle <==> phase.number() == 0,
        phase is BeforeBuildIterationContext <==> phase.number() == 1,
        phase is BuildingIterationContext <==> phase.number() == 2,
        phase is BeforeLlmHttp <==> phase.number() == 3,
        phase is InLlmHttp <==> phase.number() == 4,
        phase is AfterLlmBeforeTool <==> phase.number() == 5,
        phase is RunningTool <==> phase.number() == 6,
        phase is Finalizing <==> phase.number() == 7,
        phase.insertable() <==> 0 < phase.number() < 7,
{
}

/// Each flag of a request is a bit of its own, so that any of them can be asked for
/// without the others.
pub proof fn law_flags_are_bits_of_their_own()
    ensures
        REQUEST_FLAG_PUBLISH_OUT_MESSAGE == 1,
        REQUEST_FLAG_SKIP_RESPONSE_QUEUE == 2,
        REQUEST_FLAG_USER_INTERRUPT == 4,
        REQUEST_FLAG_PUBLISH_STAGE_MESSAGE == 8,
        REQUEST_FLAG_PUBLISH_OUT_MESSAGE & REQUEST_FLAG_SKIP_RESPONSE_QUEUE == 0,
        REQUEST_FLAG_PUBLISH_OUT_MESSAGE & REQUEST_FLAG_USER_INTERRUPT == 0,
        REQUEST_FLAG_SKIP_RESPONSE_QUEUE & REQUEST_FLAG_USER_INTERRUPT == 0,
        REQUEST_FLAG_PUBLISH_STAGE_MESSAGE & (REQUEST_FLAG_PUBLISH_OUT_MESSAGE | REQUEST_FLAG_SKIP_RESPONSE_QUEUE
            | REQUEST_FLAG_USER_INTERRUPT) == 0,
        CONTEXT_PROVIDER_FLAG_REQUEST_START_ONLY == 1,
{
    assert(1u32 & 2u32 == 0 && 1u32 & 4u32 == 0 && 2u32 & 4u32 == 0) by (bit_vector);
    assert(8u32 & (1u32 | 2u32 | 4u32) == 0) by (bit_vector);
}

/// What holds where the settings say nothing: ten tool rounds for a turn, four places in
/// each queue, and four observers; at most four inputs join a turn, and a session's name
/// is kept in 128 bytes with its end.
pub proof fn law_limits_where_nothing_is_said()
    ensures
        DEFAULT_TOOL_ITERATIONS == 10,
        DEFAULT_REQUEST_Q == 4,
        DEFAULT_RESPONSE_Q == 4,
        DEFAULT_STACK_SIZE == 8192,
        DEFAULT_PRIORITY == 5,
        INSERT_QUEUE_LEN == 4,
        INFLIGHT_SESSION_ID_SIZE == 128,
        MAX_COMPLETION_OBSERVERS == 4,
        LOG_SNIPPET_LEN == 96,
        TOOL_SUMMARY_MAX_LEN == 768,
        OBS_CSV_MAX == 384,
{
}

} // verus!
