//! The base agent: commands go in, and each tick gives one outcome.
//!
//! Commands wait in an inbox and are reduced one by one when the next tick
//! begins. A tick runs at most one round with the model: the agent hands the round
//! to the driver and takes its result back. A text answer gives control back and
//! leaves the agent idle; a task ends when the agent ends it, when it is cancelled
//! or when it fails. In each case the agent can take the next task.

use std::collections::VecDeque;

use vstd::prelude::*;

use super::internal_tools::{
    internal_tool_group, ControlSignal, END_CONVERSATION_SCHEMA, REQUEST_APPROVAL_SCHEMA,
};
use super::transcript::{patch_items, Transcript, TranscriptV};
use crate::iteration_loop::{
    dangling, has_dangling_tool_calls, CompletedKind, CompletedOutcome, IterationLoopError, IterationOutcome,
    IterationResult, PlainTextOutcome, PreemptedOutcome, ToolRun, ToolsOutcome,
};
use crate::error::ChatErrorKind;
use crate::json::{
    items_view, json_parse, law_message_has_role_and_content, make_text_message, member, parse_json, text_message, Json,
    JsonV,
};
use crate::protocol::ids::{ApprovalId, IterationId};
use crate::text::{concat2, concat3, opt_view, quote, quoted};
use crate::tools::{first_repeat, tool_names, tool_schemas, AllowedTools, ToolSet, ToolSetError};

verus! {

/// How many rounds with a refused tool are put up with, unless told otherwise.
pub const DEFAULT_TOOL_BLOCK_RETRIES: u32 = 1;

/// What is asked of an agent.
#[derive(Clone, Debug, PartialEq, Eq)]
pub enum AgentCommand {
    /// A user message: it starts a task, or joins the one that runs.
    AppendMessage(String),
    /// Abandon the task.
    Cancel { reason: CancelReason },
    Pause,
    Resume,
    /// A human's decision on an approval request.
    ApprovalResult { id: ApprovalId, decision: ApprovalDecision },
}

/// Where an agent stands.
#[derive(Clone, Copy, Debug, PartialEq, Eq, Structural)]
pub enum AgentState {
    Idle,
    Running,
    Paused,
    AwaitingApproval,
}

impl AgentState {
    /// The name of the state.
    pub open spec fn name(self) -> Seq<char> {
        match self {
            AgentState::Idle => "Idle"@,
            AgentState::Running => "Running"@,
            AgentState::Paused => "Paused"@,
            AgentState::AwaitingApproval => "AwaitingApproval"@,
        }
    }

    pub fn as_str(self) -> (r: &'static str)
        ensures
            r@ == self.name(),
    {
        match self {
            AgentState::Idle => "Idle",
            AgentState::Running => "Running",
            AgentState::Paused => "Paused",
            AgentState::AwaitingApproval => "AwaitingApproval",
        }
    }
}

/// Why a command is not taken.
#[derive(Clone, Copy, Debug, PartialEq, Eq, Structural)]
pub enum AgentCommandError {
    CannotPause { state: AgentState },
    CannotResume { state: AgentState },
    NothingToCancel,
    NotAwaitingApproval { state: AgentState },
    ApprovalMismatch { expected: ApprovalId, got: ApprovalId },
}

impl AgentCommandError {
    /// The text of the error.
    pub open spec fn text(self) -> Seq<char> {
        match self {
            AgentCommandError::CannotPause { state } => "cannot pause: the agent is "@ + state.name()
                + ", not running"@,
            AgentCommandError::CannotResume { state } => "cannot resume: the agent is "@ + state.name()
                + ", not paused"@,
            AgentCommandError::NothingToCancel => "cannot cancel: the agent is idle with no active task"@,
            AgentCommandError::NotAwaitingApproval { state } => "cannot resolve approval: the agent is "@
                + state.name() + ", not awaiting approval"@,
            AgentCommandError::ApprovalMismatch { expected, got } => "approval "@ + got.wire()
                + " does not match the pending approval "@ + expected.wire(),
        }
    }

    pub fn message(&self) -> (r: String)
        ensures
            r@ == self.text(),
    {
        match self {
            AgentCommandError::CannotPause { state } => concat3(
                "cannot pause: the agent is ",
                state.as_str(),
                ", not running",
            ),
            AgentCommandError::CannotResume { state } => concat3(
                "cannot resume: the agent is ",
                state.as_str(),
                ", not paused",
            ),
            AgentCommandError::NothingToCancel => "cannot cancel: the agent is idle with no active task".to_owned(),
            AgentCommandError::NotAwaitingApproval { state } => concat3(
                "cannot resolve approval: the agent is ",
                state.as_str(),
                ", not awaiting approval",
            ),
            AgentCommandError::ApprovalMismatch { expected, got } => {
                let mut r = concat2("approval ", got.to_wire().as_str());
                r.append(" does not match the pending approval ");
                r.append(expected.to_wire().as_str());
                r
            },
        }
    }
}

/// The tools that may run can be changed while no task is there or waits.
#[derive(Clone, Copy, Debug, PartialEq, Eq, Structural)]
pub struct ToolGatingError {
    pub state: AgentState,
}

impl ToolGatingError {
    pub fn message(&self) -> (r: String)
        ensures
            r@ == "cannot change tool gating: the agent is "@ + self.state.name() + ", not idle"@,
    {
        concat3("cannot change tool gating: the agent is ", self.state.as_str(), ", not idle")
    }
}

/// Why a task was cancelled.
#[derive(Clone, Copy, Debug, PartialEq, Eq, Structural)]
pub enum CancelReason {
    UserRequested,
    Superseded,
    Shutdown,
}

impl CancelReason {
    /// What the conversation says of the cancelled task.
    pub open spec fn note(self) -> Seq<char> {
        match self {
            CancelReason::UserRequested => "[conversation interrupted: cancelled by the user]"@,
            CancelReason::Superseded => "[conversation interrupted: superseded by a new task]"@,
            CancelReason::Shutdown => "[conversation interrupted: the agent is shutting down]"@,
        }
    }

    /// The name of the reason.
    pub open spec fn name(self) -> Seq<char> {
        match self {
            CancelReason::UserRequested => "UserRequested"@,
            CancelReason::Superseded => "Superseded"@,
            CancelReason::Shutdown => "Shutdown"@,
        }
    }

    pub fn as_str(self) -> (r: &'static str)
        ensures
            r@ == self.name(),
    {
        match self {
            CancelReason::UserRequested => "UserRequested",
            CancelReason::Superseded => "Superseded",
            CancelReason::Shutdown => "Shutdown",
        }
    }
}

/// A human's decision.
#[derive(Clone, Debug, PartialEq, Eq)]
pub enum ApprovalDecision {
    Approved,
    /// With a reason that the agent reads.
    Rejected(String),
}

/// What the conversation says of a decision.
pub open spec fn decision_note(id: ApprovalId, decision: ApprovalDecision) -> Seq<char> {
    match decision {
        ApprovalDecision::Approved => "[approval "@ + id.wire() + "] approved by the human."@,
        ApprovalDecision::Rejected(reason) => "[approval "@ + id.wire() + "] rejected by the human: "@ + reason@,
    }
}

/// Why a skill could not be used.
#[derive(Clone, Debug, PartialEq, Eq)]
pub enum SkillError {
    /// There is no skill of this id.
    NotFound(String),
    /// The text of the skill could not be read.
    Unreadable(String),
}

impl SkillError {
    /// The text of the failure.
    pub open spec fn text(self) -> Seq<char> {
        match self {
            SkillError::NotFound(id) => "skill not found: "@ + id@,
            SkillError::Unreadable(m) => "skill unreadable: "@ + m@,
        }
    }

    pub fn message(&self) -> (r: String)
        ensures
            r@ == self.text(),
    {
        match self {
            SkillError::NotFound(id) => concat2("skill not found: ", id.as_str()),
            SkillError::Unreadable(m) => concat2("skill unreadable: ", m.as_str()),
        }
    }
}

impl SkillError {
    /// The error as it is written for developers.
    pub open spec fn debug_text(self) -> Seq<char> {
        match self {
            SkillError::NotFound(id) => "NotFound("@ + quoted(id@) + ")"@,
            SkillError::Unreadable(m) => "Unreadable("@ + quoted(m@) + ")"@,
        }
    }

    pub fn debug(&self) -> (r: String)
        ensures
            r@ == self.debug_text(),
    {
        match self {
            SkillError::NotFound(id) => concat3("NotFound(", quote(id.as_str()).as_str(), ")"),
            SkillError::Unreadable(m) => concat3("Unreadable(", quote(m.as_str()).as_str(), ")"),
        }
    }
}

/// Why a task failed.
#[derive(Debug, PartialEq, Eq)]
pub enum AgentRunError {
    Iteration(IterationLoopError),
    Skill(SkillError),
    /// The model kept asking for a tool that may not run.
    ToolNotPermitted { name: String },
}

/// What an [`AgentRunError`] holds.
pub enum RunErrorV {
    Iteration(IterationLoopError),
    Skill(SkillError),
    ToolNotPermitted(Seq<char>),
}

impl View for AgentRunError {
    type V = RunErrorV;

    open spec fn view(&self) -> RunErrorV {
        match *self {
            AgentRunError::Iteration(e) => RunErrorV::Iteration(e),
            AgentRunError::Skill(e) => RunErrorV::Skill(e),
            AgentRunError::ToolNotPermitted { name } => RunErrorV::ToolNotPermitted(name@),
        }
    }
}

impl AgentRunError {
    /// The text of the failure.
    pub open spec fn text(self) -> Seq<char> {
        match self {
            AgentRunError::Iteration(e) => e.text(),
            AgentRunError::Skill(e) => e.text(),
            AgentRunError::ToolNotPermitted { name } => "tool not permitted in the current phase: "@ + name@,
        }
    }

    pub fn message(&self) -> (r: String)
        ensures
            r@ == self.text(),
    {
        match self {
            AgentRunError::Iteration(e) => e.message(),
            AgentRunError::Skill(e) => e.message(),
            AgentRunError::ToolNotPermitted { name } => concat2(
                "tool not permitted in the current phase: ",
                name.as_str(),
            ),
        }
    }
}

impl AgentRunError {
    /// The error as it is written for developers.
    pub open spec fn debug_text(self) -> Seq<char> {
        match self {
            AgentRunError::Iteration(e) => "Iteration("@ + e.debug_text() + ")"@,
            AgentRunError::Skill(e) => "Skill("@ + e.debug_text() + ")"@,
            AgentRunError::ToolNotPermitted { name } => "ToolNotPermitted { name: "@ + quoted(name@) + " }"@,
        }
    }

    pub fn debug(&self) -> (r: String)
        ensures
            r@ == self.debug_text(),
    {
        match self {
            AgentRunError::Iteration(e) => concat3("Iteration(", e.debug().as_str(), ")"),
            AgentRunError::Skill(e) => concat3("Skill(", e.debug().as_str(), ")"),
            AgentRunError::ToolNotPermitted { name } => concat3(
                "ToolNotPermitted { name: ",
                quote(name.as_str()).as_str(),
                " }",
            ),
        }
    }
}

/// What a tick did.
#[must_use]
#[derive(Debug, PartialEq, Eq)]
pub enum TickOutcome {
    /// There is more to do at once.
    Working,
    /// There is nothing to do.
    Idle,
    /// The model answered; the agent waits for the next message.
    Yielded { text: String },
    /// The agent waits for a human decision.
    AwaitingApproval { id: ApprovalId, summary: String },
    /// The agent ended the task.
    Ended { final_message: String },
    Cancelled { reason: CancelReason },
    Failed(AgentRunError),
}

/// What a [`TickOutcome`] holds.
pub enum OutcomeV {
    Working,
    Idle,
    Yielded(Seq<char>),
    AwaitingApproval(ApprovalId, Seq<char>),
    Ended(Seq<char>),
    Cancelled(CancelReason),
    Failed(RunErrorV),
}

impl View for TickOutcome {
    type V = OutcomeV;

    open spec fn view(&self) -> OutcomeV {
        match *self {
            TickOutcome::Working => OutcomeV::Working,
            TickOutcome::Idle => OutcomeV::Idle,
            TickOutcome::Yielded { text } => OutcomeV::Yielded(text@),
            TickOutcome::AwaitingApproval { id, summary } => OutcomeV::AwaitingApproval(id, summary@),
            TickOutcome::Ended { final_message } => OutcomeV::Ended(final_message@),
            TickOutcome::Cancelled { reason } => OutcomeV::Cancelled(reason),
            TickOutcome::Failed(e) => OutcomeV::Failed(e@),
        }
    }
}

impl OutcomeV {
    /// Whether the task is over.
    pub open spec fn terminal(self) -> bool {
        self is Ended || self is Cancelled || self is Failed
    }
}

impl TickOutcome {
    /// Whether the task is over.
    pub fn is_terminal(&self) -> (r: bool)
        ensures
            r == self@.terminal(),
    {
        match self {
            TickOutcome::Ended { .. } | TickOutcome::Cancelled { .. } | TickOutcome::Failed(_) => true,
            _ => false,
        }
    }
}

/// Why an agent could not be built.
#[derive(Clone, Debug, PartialEq, Eq)]
pub enum BaseAgentBuildError {
    /// A tool has the name of a built-in one.
    Tools(ToolSetError),
    /// There are tools, but the model cannot call any.
    ToolsUnsupported,
}

/// How often a failed call of the model is tried again.
#[derive(Clone, Copy, Debug, PartialEq, Eq, Structural)]
pub struct RetryPolicy {
    pub retries: u32,
}

impl RetryPolicy {
    pub fn new(retries: u32) -> (r: RetryPolicy)
        ensures
            r.retries == retries,
    {
        RetryPolicy { retries }
    }

    /// No second try.
    pub fn none() -> (r: RetryPolicy)
        ensures
            r.retries == 0,
    {
        RetryPolicy { retries: 0 }
    }
}

impl Default for RetryPolicy {
    fn default() -> (r: RetryPolicy)
        ensures
            r.retries == 2,
    {
        RetryPolicy { retries: 2 }
    }
}

/// Whether a failed call of the model is tried once more, `tried` times after the first:
/// where the model was not reached, unless the round was interrupted.
pub fn tries_again(policy: RetryPolicy, tried: u32, kind: ChatErrorKind, aborted: bool) -> (r: bool)
    ensures
        r == (kind == ChatErrorKind::Transport && !aborted && tried < policy.retries),
{
    kind == ChatErrorKind::Transport && !aborted && tried < policy.retries
}

/// What waits in the inbox.
#[derive(Clone, Debug, PartialEq, Eq)]
pub enum Inbound {
    Command(AgentCommand),
    Control(ControlSignal),
}

/// What an agent is, as far as commands and rounds change it.
#[verifier::ext_equal]
pub struct AgentV {
    pub lifecycle: AgentState,
    pub pending_approval: Option<ApprovalId>,
    pub next_approval: usize,
    pub next_iteration: IterationId,
    pub transcript: TranscriptV,
    pub tool_blocks: u32,
    pub outcome: Option<OutcomeV>,
}

/// One more, as far as that goes.
pub open spec fn succ(n: usize) -> usize {
    if n < usize::MAX {
        (n + 1) as usize
    } else {
        n
    }
}

impl AgentV {
    /// With messages in the open group.
    pub open spec fn put(self, items: Seq<JsonV>) -> AgentV {
        AgentV { transcript: self.transcript.put(items), ..self }
    }

    /// With the open group committed.
    pub open spec fn close(self) -> AgentV {
        AgentV { transcript: self.transcript.close(), ..self }
    }

    /// After one command or signal.
    pub open spec fn apply(self, inbound: Inbound) -> AgentV {
        match inbound {
            Inbound::Command(AgentCommand::AppendMessage(text)) => {
                let ready = if self.lifecycle == AgentState::Idle {
                    AgentV { next_iteration: IterationId(0), lifecycle: AgentState::Running, ..self.close() }
                } else {
                    self
                };
                ready.put(seq![text_message("user"@, text@)])
            },
            Inbound::Command(AgentCommand::Cancel { reason }) => AgentV {
                pending_approval: None,
                lifecycle: AgentState::Idle,
                outcome: Some(OutcomeV::Cancelled(reason)),
                ..self.put(seq![text_message("user"@, reason.note())]).close()
            },
            Inbound::Command(AgentCommand::Pause) => AgentV { lifecycle: AgentState::Paused, ..self },
            Inbound::Command(AgentCommand::Resume) => AgentV { lifecycle: AgentState::Running, ..self },
            Inbound::Command(AgentCommand::ApprovalResult { id, decision }) => AgentV {
                pending_approval: None,
                lifecycle: AgentState::Running,
                ..self.put(seq![text_message("user"@, decision_note(id, decision))])
            },
            Inbound::Control(ControlSignal::EndConversation { final_message }) => AgentV {
                lifecycle: AgentState::Idle,
                outcome: Some(OutcomeV::Ended(final_message@)),
                ..self.put(seq![text_message("assistant"@, final_message@)]).close()
            },
            Inbound::Control(ControlSignal::ApprovalRequested { summary }) => AgentV {
                next_approval: succ(self.next_approval),
                pending_approval: Some(ApprovalId(self.next_approval)),
                lifecycle: AgentState::AwaitingApproval,
                outcome: Some(OutcomeV::AwaitingApproval(ApprovalId(self.next_approval), summary@)),
                ..self
            },
        }
    }

    /// After commands and signals, in order.
    pub open spec fn apply_all(self, inbox: Seq<Inbound>) -> AgentV
        decreases inbox.len(),
    {
        if inbox.len() == 0 {
            self
        } else {
            self.apply(inbox[0]).apply_all(inbox.drop_first())
        }
    }

    /// After a failure of the task.
    pub open spec fn fail(self, e: RunErrorV) -> AgentV {
        AgentV { lifecycle: AgentState::Idle, outcome: Some(OutcomeV::Failed(e)), ..self }
    }

    /// After a round of tools: rounds with a refused tool are counted, and too many
    /// in a row fail the task.
    pub open spec fn judge_runs(self, runs: Seq<ToolRun>, retries: u32) -> AgentV {
        match first_blocked(runs) {
            None => AgentV { tool_blocks: 0, ..self },
            Some(name) => {
                let blocks = if self.tool_blocks < u32::MAX {
                    (self.tool_blocks + 1) as u32
                } else {
                    self.tool_blocks
                };
                let counted = AgentV { tool_blocks: blocks, ..self };
                if blocks > retries {
                    counted.fail(RunErrorV::ToolNotPermitted(name))
                } else {
                    counted
                }
            },
        }
    }

    /// After a round.
    pub open spec fn reduce(self, result: IterationResult, retries: u32) -> AgentV {
        match result {
            Ok(IterationOutcome::Completed(c)) => match c.kind {
                CompletedKind::PlainText(answer) => AgentV {
                    lifecycle: AgentState::Idle,
                    outcome: Some(OutcomeV::Yielded(answer.text@)),
                    ..self.put(seq![answer_message(answer)]).close()
                },
                CompletedKind::Tools(t) => self.put(patch_items(t.appended.0@)).close().judge_runs(t.runs@, retries),
            },
            Ok(IterationOutcome::Preempted(p)) => match p.produced {
                Some(m) => if dangling(patch_items(m.0@)) {
                    self
                } else {
                    self.put(patch_items(m.0@)).close()
                },
                None => self,
            },
            Err(e) => self.fail(RunErrorV::Iteration(e)),
        }
    }

    /// What the tick tells.
    pub open spec fn told(self) -> OutcomeV {
        match self.outcome {
            Some(o) => o,
            None => if self.lifecycle == AgentState::Running {
                OutcomeV::Working
            } else {
                OutcomeV::Idle
            },
        }
    }
}

/// The name of the first refused tool.
pub open spec fn first_blocked(runs: Seq<ToolRun>) -> Option<Seq<char>>
    decreases runs.len(),
{
    if runs.len() == 0 {
        None
    } else if runs[0].blocked {
        Some(runs[0].name@)
    } else {
        first_blocked(runs.drop_first())
    }
}

/// The message that a text answer leaves in the conversation: the model's own
/// message where it can be read, else one with the text.
pub open spec fn answer_message(answer: PlainTextOutcome) -> JsonV {
    match answer.raw_message_json {
        Some(raw) => match json_parse(raw@) {
            Ok(v) => v,
            Err(_) => text_message("assistant"@, answer.text@),
        },
        None => text_message("assistant"@, answer.text@),
    }
}

/// The state that a command leads to, where it is taken.
pub open spec fn after_command(state: AgentState, command: AgentCommand) -> AgentState {
    match command {
        AgentCommand::AppendMessage(_) => if state == AgentState::Idle {
            AgentState::Running
        } else {
            state
        },
        AgentCommand::Cancel { .. } => AgentState::Idle,
        AgentCommand::Pause => AgentState::Paused,
        AgentCommand::Resume => AgentState::Running,
        AgentCommand::ApprovalResult { .. } => AgentState::Running,
    }
}

/// Why a command is not taken in a state, if it is not.
pub open spec fn command_error(state: AgentState, command: AgentCommand, pending: Option<ApprovalId>) -> Option<
    AgentCommandError,
> {
    match command {
        AgentCommand::AppendMessage(_) => None,
        AgentCommand::Cancel { .. } => if state == AgentState::Idle {
            Some(AgentCommandError::NothingToCancel)
        } else {
            None
        },
        AgentCommand::Pause => if state == AgentState::Running {
            None
        } else {
            Some(AgentCommandError::CannotPause { state })
        },
        AgentCommand::Resume => if state == AgentState::Paused {
            None
        } else {
            Some(AgentCommandError::CannotResume { state })
        },
        AgentCommand::ApprovalResult { id, .. } => match pending {
            Some(expected) if state == AgentState::AwaitingApproval => if expected == id {
                None
            } else {
                Some(AgentCommandError::ApprovalMismatch { expected, got: id })
            },
            _ => Some(AgentCommandError::NotAwaitingApproval { state }),
        },
    }
}

/// The state that waiting commands lead to.
pub open spec fn after_inbox(state: AgentState, inbox: Seq<Inbound>) -> AgentState
    decreases inbox.len(),
{
    if inbox.len() == 0 {
        state
    } else {
        let before = after_inbox(state, inbox.drop_last());
        match inbox.last() {
            Inbound::Command(c) => after_command(before, c),
            Inbound::Control(ControlSignal::EndConversation { .. }) => AgentState::Idle,
            Inbound::Control(ControlSignal::ApprovalRequested { .. }) => AgentState::AwaitingApproval,
        }
    }
}

/// What a tick needs next.
#[derive(Debug, PartialEq, Eq)]
pub enum TickStep {
    /// The text of the loaded skills; then [`BaseAgent::on_skills`].
    NeedSkills,
    /// A round; then [`BaseAgent::finish_tick`].
    Iterate(IterationId),
    /// Nothing; the tick is over.
    Done(TickOutcome),
}

/// Where a tick stands.
#[derive(Clone, Copy, Debug, PartialEq, Eq, Structural)]
pub enum TickPoint {
    Between,
    Skills,
    Iterating,
}

/// What a round starts from.
pub struct IterationRequest {
    pub system_prompt: String,
    pub messages: Vec<Json>,
    pub has_tools: bool,
    pub tools_json: Option<String>,
    pub allowed_tools: Option<AllowedTools>,
    pub retry: RetryPolicy,
}

/// An agent that runs one task at a time.
pub struct BaseAgent {
    pub tools: Option<ToolSet>,
    pub has_skills: bool,
    pub retry_policy: RetryPolicy,
    /// The tools that may run; without it, all may.
    pub allowed_tools: Option<AllowedTools>,
    /// A note that each round sees last, and the conversation never holds.
    pub tail_note: Option<String>,
    /// How many rounds in a row had a refused tool.
    pub consecutive_tool_blocks: u32,
    pub tool_block_retries: u32,
    pub system_prompt: String,
    /// The system prompt with the skills; empty where they add nothing.
    pub effective_prompt: String,
    pub effective_prompt_dirty: bool,
    pub transcript: Transcript,
    pub next_iteration: IterationId,
    pub next_approval: usize,
    pub pending_approval: Option<ApprovalId>,
    pub lifecycle: AgentState,
    /// The state once the commands that wait are reduced.
    pub projected_lifecycle: AgentState,
    pub outcome: Option<TickOutcome>,
    pub inbox: VecDeque<Inbound>,
    pub point: TickPoint,
    pub current_iteration: IterationId,
}

impl View for BaseAgent {
    type V = AgentV;

    open spec fn view(&self) -> AgentV {
        AgentV {
            lifecycle: self.lifecycle,
            pending_approval: self.pending_approval,
            next_approval: self.next_approval,
            next_iteration: self.next_iteration,
            transcript: self.transcript@,
            tool_blocks: self.consecutive_tool_blocks,
            outcome: match self.outcome {
                Some(o) => Some(o@),
                None => None,
            },
        }
    }
}

impl BaseAgent {
    /// Between ticks: nothing is told twice, only commands wait, the projected state
    /// is the one that they lead to, and an agent that waits for an approval knows
    /// for which.
    pub open spec fn valid(self) -> bool {
        &&& self.point == TickPoint::Between
        &&& self.outcome is None
        &&& forall|i: int| 0 <= i < self.inbox@.len() ==> (#[trigger] self.inbox@[i]) is Command
        &&& self.projected_lifecycle == after_inbox(self.lifecycle, self.inbox@)
        &&& self.lifecycle == AgentState::AwaitingApproval ==> self.pending_approval is Some
    }

    /// Within a tick: the inbox is empty.
    pub open spec fn ticking(self) -> bool {
        &&& self.inbox@.len() == 0
        &&& self.lifecycle == AgentState::Running
    }

    /// Whether all that commands and rounds do not change is the same.
    pub open spec fn same_config(self, other: BaseAgent) -> bool {
        &&& self.tools == other.tools
        &&& self.has_skills == other.has_skills
        &&& self.retry_policy == other.retry_policy
        &&& self.allowed_tools == other.allowed_tools
        &&& self.tail_note == other.tail_note
        &&& self.tool_block_retries == other.tool_block_retries
        &&& self.system_prompt == other.system_prompt
    }

    /// Whether the prompt is the same.
    pub open spec fn same_prompt(self, other: BaseAgent) -> bool {
        self.effective_prompt == other.effective_prompt && self.effective_prompt_dirty
            == other.effective_prompt_dirty
    }

    /// Whether the agent has done nothing yet.
    pub open spec fn fresh(self) -> bool {
        &&& self@ == (AgentV {
            lifecycle: AgentState::Idle,
            pending_approval: None,
            next_approval: 0,
            next_iteration: IterationId(0),
            transcript: self.transcript@,
            tool_blocks: 0,
            outcome: None,
        })
        &&& self.transcript@.messages().len() == 0
        &&& self.transcript@.open is None
        &&& self.tail_note is None
        &&& self.effective_prompt@.len() == 0
        &&& self.effective_prompt_dirty
    }

    /// An agent for a model that can, or cannot, call tools.
    pub fn builder(supports_tools: bool) -> (r: BaseAgentBuilder)
        ensures
            r.supports_tools == supports_tools,
            r.tools is None,
            !r.has_skills,
            r.system_prompt@.len() == 0,
            r.retry_policy.retries == 2,
            r.tool_block_retries == DEFAULT_TOOL_BLOCK_RETRIES,
    {
        BaseAgentBuilder {
            supports_tools,
            tools: None,
            has_skills: false,
            system_prompt: String::new(),
            retry_policy: RetryPolicy::default(),
            tool_block_retries: DEFAULT_TOOL_BLOCK_RETRIES,
        }
    }

    /// Decides on a command: the state that it leads to, or why it is not taken.
    pub fn classify(state: AgentState, command: &AgentCommand, pending_approval: Option<ApprovalId>) -> (r: Result<
        AgentState,
        AgentCommandError,
    >)
        ensures
            r == (match command_error(state, *command, pending_approval) {
                Some(e) => Err::<AgentState, AgentCommandError>(e),
                None => Ok::<AgentState, AgentCommandError>(after_command(state, *command)),
            }),
    {
        match (state, command) {
            (AgentState::Idle, AgentCommand::AppendMessage(_)) => Ok(AgentState::Running),
            (AgentState::Running, AgentCommand::AppendMessage(_)) => Ok(AgentState::Running),
            (AgentState::Paused, AgentCommand::AppendMessage(_)) => Ok(AgentState::Paused),
            (AgentState::AwaitingApproval, AgentCommand::AppendMessage(_)) => Ok(AgentState::AwaitingApproval),
            (AgentState::Idle, AgentCommand::Cancel { .. }) => Err(AgentCommandError::NothingToCancel),
            (_, AgentCommand::Cancel { .. }) => Ok(AgentState::Idle),
            (AgentState::Running, AgentCommand::Pause) => Ok(AgentState::Paused),
            (state, AgentCommand::Pause) => Err(AgentCommandError::CannotPause { state }),
            (AgentState::Paused, AgentCommand::Resume) => Ok(AgentState::Running),
            (state, AgentCommand::Resume) => Err(AgentCommandError::CannotResume { state }),
            (AgentState::AwaitingApproval, AgentCommand::ApprovalResult { id, .. }) => match pending_approval {
                Some(pending) => if pending == *id {
                    Ok(AgentState::Running)
                } else {
                    Err(AgentCommandError::ApprovalMismatch { expected: pending, got: *id })
                },
                None => Err(AgentCommandError::NotAwaitingApproval { state }),
            },
            (state, AgentCommand::ApprovalResult { .. }) => Err(AgentCommandError::NotAwaitingApproval { state }),
        }
    }

    /// Whether the agent takes a command, and what becomes of it then: the command
    /// waits in the inbox. One that is not taken changes nothing.
    pub open spec fn sent(self, new: BaseAgent, command: AgentCommand, r: Result<(), AgentCommandError>) -> bool {
        match command_error(self.projected_lifecycle, command, self.pending_approval) {
            Some(e) => r == Err::<(), AgentCommandError>(e) && new == self,
            None => {
                &&& r is Ok
                &&& new == (BaseAgent {
                    projected_lifecycle: after_command(self.projected_lifecycle, command),
                    inbox: new.inbox,
                    ..self
                })
                &&& new.inbox@ == self.inbox@.push(Inbound::Command(command))
            },
        }
    }

    /// Hands the agent a command. It is judged by the state that the agent will be
    /// in once the commands that wait are reduced.
    pub fn send_command(&mut self, command: AgentCommand) -> (r: Result<(), AgentCommandError>)
        requires
            old(self).valid(),
        ensures
            final(self).valid(),
            old(self).sent(*final(self), command, r),
    {
        match Self::classify(self.projected_lifecycle, &command, self.pending_approval) {
            Err(e) => Err(e),
            Ok(next) => {
                let ghost inbound = Inbound::Command(command);
                self.projected_lifecycle = next;
                self.inbox.push_back(Inbound::Command(command));
                proof {
                    assert(self.inbox@ =~= old(self).inbox@.push(inbound));
                    assert(self.inbox@.drop_last() =~= old(self).inbox@);
                    assert forall|i: int| 0 <= i < self.inbox@.len() implies (#[trigger] self.inbox@[i]) is Command by {
                        if i < old(self).inbox@.len() {
                            assert(self.inbox@[i] == old(self).inbox@[i]);
                        }
                    }
                }
                Ok(())
            },
        }
    }

    /// Starts a task, or joins the one that runs.
    pub fn run(&mut self, goal: String)
        requires
            old(self).valid(),
        ensures
            final(self).valid(),
            old(self).sent(*final(self), AgentCommand::AppendMessage(goal), Ok(())),
    {
        let _ = self.send_command(AgentCommand::AppendMessage(goal));
    }

    /// Adds a user message.
    pub fn append_message(&mut self, message: String)
        requires
            old(self).valid(),
        ensures
            final(self).valid(),
            old(self).sent(*final(self), AgentCommand::AppendMessage(message), Ok(())),
    {
        let _ = self.send_command(AgentCommand::AppendMessage(message));
    }

    pub fn cancel(&mut self, reason: CancelReason) -> (r: Result<(), AgentCommandError>)
        requires
            old(self).valid(),
        ensures
            final(self).valid(),
            old(self).sent(*final(self), AgentCommand::Cancel { reason }, r),
    {
        self.send_command(AgentCommand::Cancel { reason })
    }

    pub fn pause(&mut self) -> (r: Result<(), AgentCommandError>)
        requires
            old(self).valid(),
        ensures
            final(self).valid(),
            old(self).sent(*final(self), AgentCommand::Pause, r),
    {
        self.send_command(AgentCommand::Pause)
    }

    pub fn resume(&mut self) -> (r: Result<(), AgentCommandError>)
        requires
            old(self).valid(),
        ensures
            final(self).valid(),
            old(self).sent(*final(self), AgentCommand::Resume, r),
    {
        self.send_command(AgentCommand::Resume)
    }

    pub fn resolve_approval(&mut self, id: ApprovalId, decision: ApprovalDecision) -> (r: Result<
        (),
        AgentCommandError,
    >)
        requires
            old(self).valid(),
        ensures
            final(self).valid(),
            old(self).sent(*final(self), AgentCommand::ApprovalResult { id, decision }, r),
    {
        self.send_command(AgentCommand::ApprovalResult { id, decision })
    }

    /// A skill was to be loaded; `loaded` is what the skill set said. The prompt is
    /// made anew where it was. Without a skill set there is no such skill.
    pub fn load_skill(&mut self, id: &str, loaded: Result<(), SkillError>) -> (r: Result<(), SkillError>)
        ensures
            *final(self) == (BaseAgent {
                effective_prompt_dirty: old(self).effective_prompt_dirty || r is Ok,
                ..*old(self)
            }),
            if old(self).has_skills {
                r == loaded
            } else {
                r matches Err(SkillError::NotFound(n)) && n@ == id@
            },
    {
        if !self.has_skills {
            return Err(SkillError::NotFound(id.to_owned()));
        }
        if loaded.is_ok() {
            self.effective_prompt_dirty = true;
        }
        loaded
    }

    /// A group of skills was to be loaded. Without a skill set that is nothing.
    pub fn load_skill_group(&mut self, loaded: Result<(), SkillError>) -> (r: Result<(), SkillError>)
        ensures
            *final(self) == (BaseAgent {
                effective_prompt_dirty: old(self).effective_prompt_dirty || (old(self).has_skills && loaded is Ok),
                ..*old(self)
            }),
            r == (if old(self).has_skills {
                loaded
            } else {
                Ok::<(), SkillError>(())
            }),
    {
        if !self.has_skills {
            return Ok(());
        }
        if loaded.is_ok() {
            self.effective_prompt_dirty = true;
        }
        loaded
    }

    /// A skill was taken out.
    pub fn unload_skill(&mut self)
        ensures
            *final(self) == (BaseAgent {
                effective_prompt_dirty: old(self).effective_prompt_dirty || old(self).has_skills,
                ..*old(self)
            }),
    {
        if self.has_skills {
            self.effective_prompt_dirty = true;
        }
    }

    /// Whether a task runs.
    pub fn is_running(&self) -> (r: bool)
        ensures
            r == (self.lifecycle == AgentState::Running),
    {
        self.lifecycle == AgentState::Running
    }

    /// Whether all that has happened is that commands were put behind those that wait.
    pub open spec fn only_told(self, new: BaseAgent) -> bool {
        &&& new == (BaseAgent { projected_lifecycle: new.projected_lifecycle, inbox: new.inbox, ..self })
        &&& new.inbox@.len() >= self.inbox@.len()
        &&& forall|i: int| 0 <= i < self.inbox@.len() ==> #[trigger] new.inbox@[i] == self.inbox@[i]
    }

    /// Whether only the tools that may run and the note can differ.
    pub open spec fn same_work(self, other: BaseAgent) -> bool {
        self == (BaseAgent { allowed_tools: self.allowed_tools, tail_note: self.tail_note, ..other })
    }

    /// Restricts the tools that may run in the next task.
    pub fn set_active_tools(&mut self, allowed: AllowedTools) -> (r: Result<(), ToolGatingError>)
        ensures
            if old(self).projected_lifecycle == AgentState::Idle {
                r is Ok && *final(self) == (BaseAgent { allowed_tools: Some(allowed), ..*old(self) })
            } else {
                &&& r == Err::<(), ToolGatingError>(ToolGatingError { state: old(self).projected_lifecycle })
                &&& *final(self) == *old(self)
            },
    {
        if self.projected_lifecycle != AgentState::Idle {
            return Err(ToolGatingError { state: self.projected_lifecycle });
        }
        self.allowed_tools = Some(allowed);
        Ok(())
    }

    /// Lets every tool run in the next task.
    pub fn clear_active_tools(&mut self) -> (r: Result<(), ToolGatingError>)
        ensures
            if old(self).projected_lifecycle == AgentState::Idle {
                r is Ok && *final(self) == (BaseAgent { allowed_tools: None, ..*old(self) })
            } else {
                &&& r == Err::<(), ToolGatingError>(ToolGatingError { state: old(self).projected_lifecycle })
                &&& *final(self) == *old(self)
            },
    {
        if self.projected_lifecycle != AgentState::Idle {
            return Err(ToolGatingError { state: self.projected_lifecycle });
        }
        self.allowed_tools = None;
        Ok(())
    }

    /// Restricts the tools that may run from the next round on, for a layer that
    /// moves through stages within a task.
    pub fn gate_tools(&mut self, allowed: AllowedTools)
        ensures
            *final(self) == (BaseAgent { allowed_tools: Some(allowed), ..*old(self) }),
    {
        self.allowed_tools = Some(allowed);
    }

    /// Sets the note that each round sees last.
    pub fn set_tail_note(&mut self, note: String)
        ensures
            *final(self) == (BaseAgent { tail_note: Some(note), ..*old(self) }),
    {
        self.tail_note = Some(note);
    }

    pub fn clear_tail_note(&mut self)
        ensures
            *final(self) == (BaseAgent { tail_note: None, ..*old(self) }),
    {
        self.tail_note = None;
    }

    fn allocate_approval_id(&mut self) -> (r: ApprovalId)
        ensures
            r.0 == old(self).next_approval,
            final(self)@ == (AgentV { next_approval: succ(old(self).next_approval), ..old(self)@ }),
            final(self).same_config(*old(self)),
            final(self).same_prompt(*old(self)),
            final(self).inbox == old(self).inbox,
            final(self).projected_lifecycle == old(self).projected_lifecycle,
            final(self).point == old(self).point,
            final(self).current_iteration == old(self).current_iteration,
    {
        let id = ApprovalId(self.next_approval);
        self.next_approval = self.next_approval.saturating_add(1);
        id
    }

    /// Reduces one command or signal.
    fn apply_inbound(&mut self, inbound: Inbound)
        ensures
            final(self)@ == old(self)@.apply(inbound),
            final(self).same_config(*old(self)),
            final(self).same_prompt(*old(self)),
            final(self).inbox == old(self).inbox,
            final(self).projected_lifecycle == old(self).projected_lifecycle,
            final(self).point == old(self).point,
            final(self).current_iteration == old(self).current_iteration,
    {
        match inbound {
            Inbound::Command(AgentCommand::AppendMessage(text)) => {
                if self.lifecycle == AgentState::Idle {
                    self.next_iteration = IterationId(0);
                    self.transcript.close();
                    self.lifecycle = AgentState::Running;
                }
                self.transcript.put_text("user", text.as_str());
            },
            Inbound::Command(AgentCommand::Cancel { reason }) => {
                let note = match reason {
                    CancelReason::UserRequested => "[conversation interrupted: cancelled by the user]",
                    CancelReason::Superseded => "[conversation interrupted: superseded by a new task]",
                    CancelReason::Shutdown => "[conversation interrupted: the agent is shutting down]",
                };
                self.transcript.put_text("user", note);
                self.transcript.close();
                self.pending_approval = None;
                self.lifecycle = AgentState::Idle;
                self.outcome = Some(TickOutcome::Cancelled { reason });
            },
            Inbound::Command(AgentCommand::Pause) => {
                self.lifecycle = AgentState::Paused;
            },
            Inbound::Command(AgentCommand::Resume) => {
                self.lifecycle = AgentState::Running;
            },
            Inbound::Command(AgentCommand::ApprovalResult { id, decision }) => {
                let mut text = concat2("[approval ", id.to_wire().as_str());
                match &decision {
                    ApprovalDecision::Approved => {
                        text.append("] approved by the human.");
                    },
                    ApprovalDecision::Rejected(reason) => {
                        text.append("] rejected by the human: ");
                        text.append(reason.as_str());
                    },
                }
                self.transcript.put_text("user", text.as_str());
                self.pending_approval = None;
                self.lifecycle = AgentState::Running;
            },
            Inbound::Control(ControlSignal::EndConversation { final_message }) => {
                self.transcript.put_text("assistant", final_message.as_str());
                self.transcript.close();
                self.lifecycle = AgentState::Idle;
                self.outcome = Some(TickOutcome::Ended { final_message });
            },
            Inbound::Control(ControlSignal::ApprovalRequested { summary }) => {
                let id = self.allocate_approval_id();
                self.pending_approval = Some(id);
                self.lifecycle = AgentState::AwaitingApproval;
                self.outcome = Some(TickOutcome::AwaitingApproval { id, summary });
            },
        }
    }

    /// Reduces all that waits.
    fn drain_inbox(&mut self)
        ensures
            final(self)@ == old(self)@.apply_all(old(self).inbox@),
            final(self).same_config(*old(self)),
            final(self).same_prompt(*old(self)),
            final(self).inbox@.len() == 0,
            final(self).projected_lifecycle == old(self).projected_lifecycle,
            final(self).point == old(self).point,
            final(self).current_iteration == old(self).current_iteration,
    {
        let ghost whole = self@.apply_all(self.inbox@);
        loop
            invariant
                self@.apply_all(self.inbox@) == whole,
                self.same_config(*old(self)),
                self.same_prompt(*old(self)),
                self.projected_lifecycle == old(self).projected_lifecycle,
                self.point == old(self).point,
                self.current_iteration == old(self).current_iteration,
            ensures
                self.inbox@.len() == 0,
                self@ == whole,
            decreases self.inbox@.len(),
        {
            let ghost before = self.inbox@;
            match self.inbox.pop_front() {
                Some(inbound) => {
                    assert(self.inbox@ =~= before.drop_first());
                    self.apply_inbound(inbound);
                },
                None => {
                    break ;
                },
            }
        }
    }

    fn fail_with(&mut self, error: AgentRunError)
        ensures
            final(self)@ == old(self)@.fail(error@),
            final(self).same_config(*old(self)),
            final(self).same_prompt(*old(self)),
            final(self).inbox == old(self).inbox,
            final(self).projected_lifecycle == old(self).projected_lifecycle,
            final(self).point == old(self).point,
    {
        self.lifecycle = AgentState::Idle;
        self.outcome = Some(TickOutcome::Failed(error));
    }

    /// Ends the tick: the outcome is told once, and the projected state is the state.
    fn tell(&mut self) -> (r: TickOutcome)
        requires
            old(self).inbox@.len() == 0,
            old(self).lifecycle == AgentState::AwaitingApproval ==> old(self).pending_approval is Some,
        ensures
            r@ == old(self)@.told(),
            final(self).valid(),
            final(self)@ == (AgentV { outcome: None, ..old(self)@ }),
            final(self).same_config(*old(self)),
            final(self).same_prompt(*old(self)),
            final(self).inbox@.len() == 0,
            final(self).projected_lifecycle == final(self).lifecycle,
    {
        self.projected_lifecycle = self.lifecycle;
        self.point = TickPoint::Between;
        let mut taken: Option<TickOutcome> = None;
        std::mem::swap(&mut taken, &mut self.outcome);
        match taken {
            Some(outcome) => outcome,
            None => if self.lifecycle == AgentState::Running {
                TickOutcome::Working
            } else {
                TickOutcome::Idle
            },
        }
    }

    /// The agent once the commands that wait are reduced.
    pub open spec fn drained(self) -> AgentV {
        self@.apply_all(self.inbox@)
    }

    /// Begins a tick: the commands that wait are reduced, and a running agent asks
    /// for a round.
    pub fn begin_tick(&mut self) -> (r: TickStep)
        requires
            old(self).valid(),
        ensures
            final(self).same_config(*old(self)),
            final(self).same_prompt(*old(self)),
            final(self).inbox@.len() == 0,
            if old(self).drained().lifecycle == AgentState::Running {
                let v = old(self).drained();
                &&& final(self)@ == (AgentV { next_iteration: IterationId(succ(v.next_iteration.0)), ..v })
                &&& final(self).current_iteration == v.next_iteration
                &&& final(self).ticking()
                &&& if old(self).effective_prompt_dirty {
                    r == TickStep::NeedSkills && final(self).point == TickPoint::Skills
                } else {
                    r == TickStep::Iterate(v.next_iteration) && final(self).point == TickPoint::Iterating
                }
            } else {
                &&& r matches TickStep::Done(o) && o@ == old(self).drained().told()
                &&& final(self).valid()
                &&& final(self)@ == (AgentV { outcome: None, ..old(self).drained() })
            },
    {
        proof {
            lemma_awaiting_knows(self@, self.inbox@);
        }
        self.drain_inbox();
        if self.lifecycle != AgentState::Running {
            let outcome = self.tell();
            return TickStep::Done(outcome);
        }
        let id = self.next_iteration;
        self.current_iteration = id;
        self.next_iteration = IterationId(id.0.saturating_add(1));
        if self.effective_prompt_dirty {
            self.point = TickPoint::Skills;
            return TickStep::NeedSkills;
        }
        self.point = TickPoint::Iterating;
        TickStep::Iterate(id)
    }

    /// The text of the loaded skills is there, empty where there is none.
    pub fn on_skills(&mut self, context: Result<String, SkillError>) -> (r: TickStep)
        requires
            old(self).point == TickPoint::Skills,
            old(self).ticking(),
        ensures
            final(self).same_config(*old(self)),
            match context {
                Ok(text) => {
                    &&& r == TickStep::Iterate(old(self).current_iteration)
                    &&& final(self).ticking()
                    &&& *final(self) == (BaseAgent {
                        effective_prompt: final(self).effective_prompt,
                        effective_prompt_dirty: false,
                        point: TickPoint::Iterating,
                        ..*old(self)
                    })
                    &&& final(self).effective_prompt@ == (if text@.len() == 0 {
                        Seq::empty()
                    } else {
                        old(self).system_prompt@ + "\n\n"@ + text@
                    })
                },
                Err(e) => {
                    &&& r matches TickStep::Done(o) && o@ == OutcomeV::Failed(RunErrorV::Skill(e))
                    &&& final(self).valid()
                    &&& final(self).inbox@.len() == 0
                    &&& final(self)@ == (AgentV {
                        outcome: None,
                        ..old(self)@.fail(RunErrorV::Skill(e))
                    })
                    &&& final(self).same_prompt(*old(self))
                },
            },
    {
        match context {
            Ok(text) => {
                if text.as_str().is_empty() {
                    self.effective_prompt = String::new();
                } else {
                    self.effective_prompt = concat3(self.system_prompt.as_str(), "\n\n", text.as_str());
                }
                self.effective_prompt_dirty = false;
                self.point = TickPoint::Iterating;
                TickStep::Iterate(self.current_iteration)
            },
            Err(e) => {
                self.fail_with(AgentRunError::Skill(e));
                let outcome = self.tell();
                TickStep::Done(outcome)
            },
        }
    }

    /// The prompt of a round: the one with the skills, where they add something.
    pub open spec fn prompt(self) -> Seq<char> {
        if self.effective_prompt@.len() == 0 {
            self.system_prompt@
        } else {
            self.effective_prompt@
        }
    }

    /// The messages of a round: the conversation, and the note last.
    pub open spec fn round_messages(self) -> Seq<JsonV> {
        match self.tail_note {
            Some(note) => self.transcript@.messages().push(text_message("user"@, note@)),
            None => self.transcript@.messages(),
        }
    }

    /// The schemas that the model gets: those of all tools, whichever may run.
    pub open spec fn tools_text(self) -> Option<Seq<char>> {
        match self.tools {
            Some(tools) => tools.schemas_text(),
            None => None,
        }
    }

    /// What a round starts from.
    pub fn iteration_request(&self) -> (r: IterationRequest)
        ensures
            r.system_prompt@ == self.prompt(),
            items_view(r.messages@) == self.round_messages(),
            r.has_tools == (self.tools is Some),
            opt_view(r.tools_json) == self.tools_text(),
            r.retry == self.retry_policy,
            match self.allowed_tools {
                Some(a) => r.allowed_tools matches Some(b) && b@ == a@,
                None => r.allowed_tools is None,
            },
    {
        let system_prompt = if self.effective_prompt.as_str().is_empty() {
            self.system_prompt.clone()
        } else {
            self.effective_prompt.clone()
        };
        let mut messages = self.transcript.messages();
        if let Some(note) = &self.tail_note {
            let ghost before = messages@;
            let message = make_text_message("user", note.as_str());
            messages.push(message);
            assert(items_view(messages@) =~= items_view(before).push(message@));
        }
        let allowed_tools = match &self.allowed_tools {
            Some(a) => Some(a.dup()),
            None => None,
        };
        let tools_json = match &self.tools {
            Some(tools) => tools.schemas_json(),
            None => None,
        };
        IterationRequest {
            system_prompt,
            messages,
            has_tools: self.tools.is_some(),
            tools_json,
            allowed_tools,
            retry: self.retry_policy,
        }
    }

    /// Counts rounds with a refused tool: one too many in a row fails the task, and a
    /// round without one starts the count again.
    pub fn apply_tool_block_policy(&mut self, runs: &Vec<ToolRun>)
        ensures
            final(self)@ == old(self)@.judge_runs(runs@, old(self).tool_block_retries),
            final(self).same_config(*old(self)),
            final(self).same_prompt(*old(self)),
            final(self).inbox == old(self).inbox,
            final(self).projected_lifecycle == old(self).projected_lifecycle,
            final(self).point == old(self).point,
    {
        let mut i: usize = 0;
        assert(runs@.skip(0) =~= runs@);
        while i < runs.len() && !runs[i].blocked
            invariant
                *self == *old(self),
                i <= runs@.len(),
                first_blocked(runs@) == first_blocked(runs@.skip(i as int)),
            decreases runs@.len() - i,
        {
            assert(runs@.skip(i as int).drop_first() =~= runs@.skip(i + 1));
            i = i + 1;
        }
        if i >= runs.len() {
            assert(runs@.skip(i as int).len() == 0);
            self.consecutive_tool_blocks = 0;
            return ;
        }
        self.consecutive_tool_blocks = self.consecutive_tool_blocks.saturating_add(1);
        if self.consecutive_tool_blocks > self.tool_block_retries {
            self.fail_with(AgentRunError::ToolNotPermitted { name: runs[i].name.clone() });
        }
    }

    /// Takes the messages of an interrupted round in, unless a tool call among them
    /// has no answer.
    fn merge_preempt_patch(&mut self, outcome: PreemptedOutcome)
        ensures
            final(self)@ == (match outcome.produced {
                Some(m) => if dangling(patch_items(m.0@)) {
                    old(self)@
                } else {
                    old(self)@.put(patch_items(m.0@)).close()
                },
                None => old(self)@,
            }),
            final(self).same_config(*old(self)),
            final(self).same_prompt(*old(self)),
            final(self).inbox == old(self).inbox,
            final(self).projected_lifecycle == old(self).projected_lifecycle,
            final(self).point == old(self).point,
    {
        let produced = match outcome.produced {
            Some(m) => m,
            None => {
                return ;
            },
        };
        if has_dangling_tool_calls(&produced.0) {
            return ;
        }
        self.transcript.put_patch(&produced.0);
        self.transcript.close();
    }

    /// Reduces the result of a round.
    fn reduce_outcome(&mut self, result: IterationResult)
        ensures
            final(self)@ == old(self)@.reduce(result, old(self).tool_block_retries),
            final(self).same_config(*old(self)),
            final(self).same_prompt(*old(self)),
            final(self).inbox == old(self).inbox,
            final(self).projected_lifecycle == old(self).projected_lifecycle,
            final(self).point == old(self).point,
    {
        match result {
            Ok(IterationOutcome::Completed(c)) => match c.kind {
                CompletedKind::PlainText(answer) => {
                    let message = match &answer.raw_message_json {
                        Some(raw) => match parse_json(raw.as_str()) {
                            Ok(v) => v,
                            Err(_) => make_text_message("assistant", answer.text.as_str()),
                        },
                        None => make_text_message("assistant", answer.text.as_str()),
                    };
                    self.transcript.put_message(message);
                    self.transcript.close();
                    self.lifecycle = AgentState::Idle;
                    self.outcome = Some(TickOutcome::Yielded { text: answer.text });
                },
                CompletedKind::Tools(t) => {
                    self.transcript.put_patch(&t.appended.0);
                    self.transcript.close();
                    self.apply_tool_block_policy(&t.runs);
                },
            },
            Ok(IterationOutcome::Preempted(p)) => {
                self.merge_preempt_patch(p);
            },
            Err(e) => {
                self.fail_with(AgentRunError::Iteration(e));
            },
        }
    }

    /// The agent once a round and the signals of its tools are reduced.
    pub open spec fn after_round(self, result: IterationResult, signals: Seq<ControlSignal>) -> AgentV {
        self@.reduce(result, self.tool_block_retries).apply_all(as_inbox(signals))
    }

    /// Ends a tick with the result of its round and the signals that the tools of
    /// the round raised, in order.
    pub fn finish_tick(&mut self, result: IterationResult, signals: Vec<ControlSignal>) -> (r: TickOutcome)
        requires
            old(self).point == TickPoint::Iterating,
            old(self).ticking(),
        ensures
            r@ == old(self).after_round(result, signals@).told(),
            final(self).valid(),
            final(self)@ == (AgentV { outcome: None, ..old(self).after_round(result, signals@) }),
            final(self).inbox@.len() == 0,
            final(self).same_config(*old(self)),
            final(self).same_prompt(*old(self)),
    {
        let ghost all = signals@;
        self.reduce_outcome(result);
        let ghost reduced = *self;
        let mut i: usize = 0;
        assert(as_inbox(all.take(0)) =~= Seq::<Inbound>::empty());
        while i < signals.len()
            invariant
                all == signals@,
                i <= all.len(),
                self.inbox@ == as_inbox(all.take(i as int)),
                self@ == reduced@,
                self.same_config(reduced),
                self.same_prompt(reduced),
                self.lifecycle == reduced.lifecycle,
                self.pending_approval == reduced.pending_approval,
            decreases all.len() - i,
        {
            let ghost before = self.inbox@;
            let signal = match &signals[i] {
                ControlSignal::EndConversation { final_message } => ControlSignal::EndConversation {
                    final_message: final_message.clone(),
                },
                ControlSignal::ApprovalRequested { summary } => ControlSignal::ApprovalRequested {
                    summary: summary.clone(),
                },
            };
            self.inbox.push_back(Inbound::Control(signal));
            proof {
                assert(signal == all[i as int]);
                assert(self.inbox@ =~= before.push(Inbound::Control(all[i as int])));
                assert(as_inbox(all.take(i + 1)) =~= as_inbox(all.take(i as int)).push(
                    Inbound::Control(all[i as int]),
                ));
            }
            i = i + 1;
        }
        proof {
            assert(all.take(all.len() as int) =~= all);
            lemma_awaiting_knows(self@, self.inbox@);
        }
        self.drain_inbox();
        self.tell()
    }
}

/// Signals as they wait in an inbox.
pub open spec fn as_inbox(signals: Seq<ControlSignal>) -> Seq<Inbound> {
    signals.map_values(|s: ControlSignal| Inbound::Control(s))
}

/// An agent that waits for an approval knows for which.
proof fn lemma_awaiting_knows(v: AgentV, inbox: Seq<Inbound>)
    requires
        v.lifecycle == AgentState::AwaitingApproval ==> v.pending_approval is Some,
    ensures
        v.apply_all(inbox).lifecycle == AgentState::AwaitingApproval ==> v.apply_all(inbox).pending_approval is Some,
    decreases inbox.len(),
{
    if inbox.len() > 0 {
        lemma_awaiting_knows(v.apply(inbox[0]), inbox.drop_first());
    }
}

proof fn lemma_apply_last(v: AgentV, inbox: Seq<Inbound>)
    requires
        inbox.len() > 0,
    ensures
        v.apply_all(inbox) == v.apply_all(inbox.drop_last()).apply(inbox.last()),
    decreases inbox.len(),
{
    if inbox.len() == 1 {
        assert(inbox.drop_first() =~= Seq::<Inbound>::empty());
        assert(inbox.drop_last() =~= Seq::<Inbound>::empty());
        assert(v.apply(inbox[0]).apply_all(inbox.drop_first()) == v.apply(inbox[0]));
    } else {
        lemma_apply_last(v.apply(inbox[0]), inbox.drop_first());
        assert(inbox.drop_first().drop_last() =~= inbox.drop_last().drop_first());
        assert(inbox.drop_last()[0] == inbox[0]);
        assert(inbox.drop_first().last() == inbox.last());
    }
}

/// Commands are judged by the state that the agent will be in: reducing what waits
/// leads to exactly the state that was projected.
pub proof fn law_projection_is_exact(v: AgentV, inbox: Seq<Inbound>)
    ensures
        v.apply_all(inbox).lifecycle == after_inbox(v.lifecycle, inbox),
    decreases inbox.len(),
{
    if inbox.len() > 0 {
        law_projection_is_exact(v, inbox.drop_last());
        lemma_apply_last(v, inbox);
    }
}

/// How many of the rounds up to the `n`th had a refused tool in a row, that one among them.
pub open spec fn blocked_in_row(rounds: Seq<Seq<ToolRun>>, n: nat) -> nat
    decreases n,
{
    if n == 0 || n > rounds.len() || first_blocked(rounds[n - 1]) is None {
        0
    } else {
        blocked_in_row(rounds, (n - 1) as nat) + 1
    }
}

/// Whether the agent kept its count from the `i`th round to the next.
pub open spec fn count_kept(before: Seq<AgentV>, rounds: Seq<Seq<ToolRun>>, retries: u32, i: int) -> bool {
    before[i + 1].tool_blocks == before[i].judge_runs(rounds[i], retries).tool_blocks
}

/// A task fails over refused tools exactly when more rounds in a row had one than are
/// put up with: the agent is idle, and its failure names the first tool that the last
/// of them refused. A round without one starts the count again. `before` is the agent
/// as it was judged after each round; what it did between rounds kept its count.
pub proof fn law_blocked_rounds_fail_the_task(
    before: Seq<AgentV>,
    rounds: Seq<Seq<ToolRun>>,
    retries: u32,
    n: nat,
)
    requires
        n < rounds.len(),
        before.len() == rounds.len(),
        before[0].tool_blocks == 0,
        forall|i: int| 0 <= i < rounds.len() - 1 ==> #[trigger] count_kept(before, rounds, retries, i),
        blocked_in_row(rounds, n + 1) < u32::MAX,
    ensures
        ({
            let row = blocked_in_row(rounds, n + 1);
            let after = before[n as int].judge_runs(rounds[n as int], retries);
            let counted = AgentV { tool_blocks: row as u32, ..before[n as int] };
            &&& after.tool_blocks == row
            &&& match first_blocked(rounds[n as int]) {
                None => row == 0 && after == counted,
                Some(name) => if row > retries {
                    &&& after == counted.fail(RunErrorV::ToolNotPermitted(name))
                    &&& after.lifecycle == AgentState::Idle
                    &&& after.outcome == Some(OutcomeV::Failed(RunErrorV::ToolNotPermitted(name)))
                } else {
                    after == counted
                },
            }
        }),
    decreases n,
{
    let k = n as int;
    if n > 0 {
        assert(count_kept(before, rounds, retries, k - 1));
        if first_blocked(rounds[k]) is Some {
            law_blocked_rounds_fail_the_task(before, rounds, retries, (n - 1) as nat);
        }
    } else {
        assert(blocked_in_row(rounds, 0) == 0);
    }
}

/// Restricting the tools and noting the phase move nothing that a round starts with:
/// the prompt, the schemas and the conversation stay, and a note only follows them.
pub proof fn law_gating_keeps_the_prefix(before: BaseAgent, after: BaseAgent)
    requires
        after.same_work(before),
    ensures
        after.prompt() == before.prompt(),
        after.tools_text() == before.tools_text(),
        after.transcript@ == before.transcript@,
        ({
            let n = before.transcript@.messages().len();
            &&& after.round_messages().take(n as int) == before.transcript@.messages()
            &&& after.round_messages().len() == n + (if after.tail_note is Some {
                1nat
            } else {
                0
            })
        }),
{
    let own = before.transcript@.messages();
    assert(before@.transcript == after@.transcript);
    assert(after.round_messages().take(own.len() as int) =~= own);
}

/// A message is taken in every state.
pub proof fn law_message_is_always_taken(state: AgentState, text: String, pending: Option<ApprovalId>)
    ensures
        command_error(state, AgentCommand::AppendMessage(text), pending) is None,
        after_command(state, AgentCommand::AppendMessage(text)) != AgentState::Idle,
{
}

/// A cancelled task is gone: it can be neither resumed, paused nor cancelled again.
pub proof fn law_cancelled_task_is_gone(state: AgentState, reason: CancelReason, pending: Option<ApprovalId>)
    ensures
        ({
            let after = after_command(state, AgentCommand::Cancel { reason });
            &&& command_error(after, AgentCommand::Resume, pending) is Some
            &&& command_error(after, AgentCommand::Pause, pending) is Some
            &&& command_error(after, AgentCommand::Cancel { reason }, pending) is Some
        }),
{
}

/// Whether an outcome that ends the task goes with an idle agent.
pub open spec fn ends_idle(v: AgentV) -> bool {
    v.outcome matches Some(o) && o.terminal() ==> v.lifecycle == AgentState::Idle
}

proof fn lemma_signals_end_idle(v: AgentV, signals: Seq<ControlSignal>)
    requires
        ends_idle(v),
    ensures
        ends_idle(v.apply_all(as_inbox(signals))),
    decreases signals.len(),
{
    if signals.len() > 0 {
        let first = as_inbox(signals)[0];
        assert(first == Inbound::Control(signals[0]));
        assert(as_inbox(signals).drop_first() =~= as_inbox(signals.drop_first()));
        lemma_signals_end_idle(v.apply(first), signals.drop_first());
    } else {
        assert(as_inbox(signals) =~= Seq::<Inbound>::empty());
    }
}

/// An outcome that ends the task leaves the agent idle, ready for the next one,
/// unless a cancelled task was followed by a new one within the tick.
pub proof fn law_ended_task_leaves_the_agent_idle(
    v: AgentV,
    result: IterationResult,
    retries: u32,
    signals: Seq<ControlSignal>,
)
    requires
        v.outcome is None,
    ensures
        v.reduce(result, retries).apply_all(as_inbox(signals)).told().terminal() ==> v.reduce(
            result,
            retries,
        ).apply_all(as_inbox(signals)).lifecycle == AgentState::Idle,
{
    lemma_signals_end_idle(v.reduce(result, retries), signals);
}

/// A cancel leaves the agent idle and tells so, where no command follows it.
pub proof fn law_cancel_ends_the_task(v: AgentV, inbox: Seq<Inbound>, reason: CancelReason)
    requires
        inbox.len() > 0,
        inbox.last() == Inbound::Command(AgentCommand::Cancel { reason }),
    ensures
        v.apply_all(inbox).lifecycle == AgentState::Idle,
        v.apply_all(inbox).told() == OutcomeV::Cancelled(reason),
        v.apply_all(inbox).pending_approval is None,
        v.apply_all(inbox).transcript.open is None,
        v.apply_all(inbox).transcript.committed.len() > 0,
        v.apply_all(inbox).transcript.committed.last() == text_message("user"@, reason.note()),
{
    lemma_apply_last(v, inbox);
}

/// Whether one conversation goes on from another.
pub open spec fn continues(before: TranscriptV, after: TranscriptV) -> bool {
    before.messages().is_prefix_of(after.messages())
}

proof fn lemma_put_continues(t: TranscriptV, items: Seq<JsonV>)
    ensures
        continues(t, t.put(items)),
        continues(t, t.put(items).close()),
        continues(t, t.close()),
        t.close().messages() == t.messages(),
        t.put(items).close().messages() == t.messages() + items,
{
    assert(t.put(items).messages() =~= t.messages() + items);
}

proof fn lemma_apply_continues(v: AgentV, x: Inbound)
    ensures
        continues(v.transcript, v.apply(x).transcript),
{
    match x {
        Inbound::Command(AgentCommand::AppendMessage(text)) => {
            lemma_put_continues(v.transcript, seq![text_message("user"@, text@)]);
            lemma_put_continues(v.transcript.close(), seq![text_message("user"@, text@)]);
        },
        Inbound::Command(AgentCommand::Cancel { reason }) => {
            lemma_put_continues(v.transcript, seq![text_message("user"@, reason.note())]);
        },
        Inbound::Command(AgentCommand::ApprovalResult { id, decision }) => {
            lemma_put_continues(v.transcript, seq![text_message("user"@, decision_note(id, decision))]);
        },
        Inbound::Control(ControlSignal::EndConversation { final_message }) => {
            lemma_put_continues(v.transcript, seq![text_message("assistant"@, final_message@)]);
        },
        _ => {},
    }
}

/// The conversation only grows: commands, rounds and signals never take a message
/// out or change one.
pub proof fn law_conversation_only_grows(
    v: AgentV,
    inbox: Seq<Inbound>,
    result: IterationResult,
    retries: u32,
)
    ensures
        continues(v.transcript, v.apply_all(inbox).transcript),
        continues(v.transcript, v.reduce(result, retries).transcript),
    decreases inbox.len(),
{
    match result {
        Ok(IterationOutcome::Completed(c)) => match c.kind {
            CompletedKind::PlainText(answer) => {
                lemma_put_continues(v.transcript, seq![answer_message(answer)]);
            },
            CompletedKind::Tools(t) => {
                lemma_put_continues(v.transcript, patch_items(t.appended.0@));
            },
        },
        Ok(IterationOutcome::Preempted(p)) => {
            if p.produced is Some {
                lemma_put_continues(v.transcript, patch_items(p.produced->Some_0.0@));
            }
        },
        Err(_) => {},
    }
    if inbox.len() > 0 {
        lemma_apply_continues(v, inbox[0]);
        law_conversation_only_grows(v.apply(inbox[0]), inbox.drop_first(), result, retries);
    }
}

/// Where no tool call of the conversation waits for an answer, an interrupted round
/// leaves none waiting: what it made is taken in whole or not at all.
pub proof fn law_interrupted_round_leaves_no_call_open(v: AgentV, outcome: PreemptedOutcome, retries: u32)
    ensures
        ({
            let after = v.reduce(Ok(IterationOutcome::Preempted(outcome)), retries);
            after == v || (outcome.produced matches Some(m) && !dangling(patch_items(m.0@))
                && after.transcript.messages() == v.transcript.messages() + patch_items(m.0@))
        }),
{
    if outcome.produced is Some {
        lemma_put_continues(v.transcript, patch_items(outcome.produced->Some_0.0@));
    }
}

/// A decision leaves one message of the user in the conversation, behind all others. A
/// rejection says which approval was rejected and ends with the reason; an approval says
/// which was approved. The agent waits no more and goes on.
pub proof fn law_decision_is_told_in_words(v: AgentV, id: ApprovalId, decision: ApprovalDecision)
    ensures
        ({
            let after = v.apply(Inbound::Command(AgentCommand::ApprovalResult { id, decision }));
            let said = after.transcript.messages();
            &&& said.len() == v.transcript.messages().len() + 1
            &&& v.transcript.messages().is_prefix_of(said)
            &&& member(said.last(), "role"@) == Some(JsonV::Str("user"@))
            &&& decision is Approved ==> member(said.last(), "content"@) == Some(
                JsonV::Str("[approval "@ + id.wire() + "] approved by the human."@),
            )
            &&& decision matches ApprovalDecision::Rejected(reason) ==> {
                let text = "[approval "@ + id.wire() + "] rejected by the human: "@ + reason@;
                &&& member(said.last(), "content"@) == Some(JsonV::Str(text))
                &&& reason@.is_suffix_of(text)
            }
            &&& after.pending_approval is None
            &&& after.lifecycle == AgentState::Running
            &&& after.outcome == v.outcome
        }),
{
    let text = decision_note(id, decision);
    lemma_put_last(v.transcript, text_message("user"@, text));
    law_message_has_role_and_content("user"@, text, "role"@);
    if let ApprovalDecision::Rejected(reason) = decision {
        let lead = "[approval "@ + id.wire() + "] rejected by the human: "@;
        let whole = lead + reason@;
        assert(whole.subrange(whole.len() - reason@.len(), whole.len() as int) =~= reason@);
    }
}

/// No rejection reads like an approval: what the conversation says of the two is never
/// the same, whatever the reason.
pub proof fn law_rejection_never_reads_as_approval(v: AgentV, id: ApprovalId, reason: String)
    ensures
        v.apply(
            Inbound::Command(AgentCommand::ApprovalResult { id, decision: ApprovalDecision::Rejected(reason) }),
        ).transcript.messages().last() != v.apply(
            Inbound::Command(AgentCommand::ApprovalResult { id, decision: ApprovalDecision::Approved }),
        ).transcript.messages().last(),
{
    let rejected = "[approval "@ + id.wire() + "] rejected by the human: "@ + reason@;
    let approved = "[approval "@ + id.wire() + "] approved by the human."@;
    reveal_strlit("] rejected by the human: ");
    reveal_strlit("] approved by the human.");
    law_decision_is_told_in_words(v, id, ApprovalDecision::Rejected(reason));
    law_decision_is_told_in_words(v, id, ApprovalDecision::Approved);
    let at = ("[approval "@.len() + id.wire().len() + 2) as int;
    assert(rejected[at] == 'r');
    assert(approved[at] == 'a');
}

/// A message of the user is put behind all others with its own words. An idle agent
/// starts a new task with it, which counts its rounds anew; any other stays as it was.
pub proof fn law_message_is_put_last(v: AgentV, text: String)
    ensures
        ({
            let after = v.apply(Inbound::Command(AgentCommand::AppendMessage(text)));
            let said = after.transcript.messages();
            &&& said.len() == v.transcript.messages().len() + 1
            &&& v.transcript.messages().is_prefix_of(said)
            &&& member(said.last(), "role"@) == Some(JsonV::Str("user"@))
            &&& member(said.last(), "content"@) == Some(JsonV::Str(text@))
            &&& v.lifecycle == AgentState::Idle ==> after.lifecycle == AgentState::Running
                && after.next_iteration.0 == 0
            &&& v.lifecycle != AgentState::Idle ==> after.lifecycle == v.lifecycle && after.next_iteration
                == v.next_iteration
            &&& after.pending_approval == v.pending_approval
            &&& after.next_approval == v.next_approval
            &&& after.tool_blocks == v.tool_blocks
            &&& after.outcome == v.outcome
        }),
{
    let m = text_message("user"@, text@);
    lemma_put_last(v.transcript, m);
    lemma_put_last(v.transcript.close(), m);
    law_message_has_role_and_content("user"@, text@, "role"@);
}

/// A cancelled task leaves, behind all other messages, one of the user that says why it
/// was interrupted. The agent is idle and waits for nothing.
pub proof fn law_interruption_is_told_in_words(v: AgentV, reason: CancelReason)
    ensures
        ({
            let after = v.apply(Inbound::Command(AgentCommand::Cancel { reason }));
            let said = after.transcript.messages();
            &&& said.len() == v.transcript.messages().len() + 1
            &&& v.transcript.messages().is_prefix_of(said)
            &&& member(said.last(), "role"@) == Some(JsonV::Str("user"@))
            &&& reason is UserRequested ==> member(said.last(), "content"@) == Some(
                JsonV::Str("[conversation interrupted: cancelled by the user]"@),
            )
            &&& reason is Superseded ==> member(said.last(), "content"@) == Some(
                JsonV::Str("[conversation interrupted: superseded by a new task]"@),
            )
            &&& reason is Shutdown ==> member(said.last(), "content"@) == Some(
                JsonV::Str("[conversation interrupted: the agent is shutting down]"@),
            )
            &&& after.lifecycle == AgentState::Idle
            &&& after.pending_approval is None
            &&& after.outcome == Some(OutcomeV::Cancelled(reason))
            &&& after.transcript.open is None
        }),
{
    lemma_put_last(v.transcript, text_message("user"@, reason.note()));
    law_message_has_role_and_content("user"@, reason.note(), "role"@);
}

/// The last words of a conversation are the assistant's, are kept in it, and are what the
/// task ended with.
pub proof fn law_last_words_are_kept(v: AgentV, final_message: String)
    ensures
        ({
            let after = v.apply(Inbound::Control(ControlSignal::EndConversation { final_message }));
            let said = after.transcript.messages();
            &&& said.len() == v.transcript.messages().len() + 1
            &&& v.transcript.messages().is_prefix_of(said)
            &&& member(said.last(), "role"@) == Some(JsonV::Str("assistant"@))
            &&& member(said.last(), "content"@) == Some(JsonV::Str(final_message@))
            &&& after.lifecycle == AgentState::Idle
            &&& after.outcome == Some(OutcomeV::Ended(final_message@))
            &&& after.told() == OutcomeV::Ended(final_message@)
            &&& after.transcript.open is None
        }),
{
    lemma_put_last(v.transcript, text_message("assistant"@, final_message@));
    law_message_has_role_and_content("assistant"@, final_message@, "role"@);
}

/// An agent that needs a decision waits for it under an id of its own, says what is to
/// be decided, and keeps its conversation as it is.
pub proof fn law_approval_is_waited_for(v: AgentV, summary: String)
    requires
        v.next_approval < usize::MAX,
    ensures
        ({
            let after = v.apply(Inbound::Control(ControlSignal::ApprovalRequested { summary }));
            &&& after.lifecycle == AgentState::AwaitingApproval
            &&& after.pending_approval == Some(ApprovalId(v.next_approval))
            &&& after.told() == OutcomeV::AwaitingApproval(ApprovalId(v.next_approval), summary@)
            &&& after.next_approval == v.next_approval + 1
            &&& after.transcript == v.transcript
        }),
{
}

/// A paused agent does nothing and a resumed one goes on; neither changes what was said
/// or is waited for.
pub proof fn law_pause_and_resume_keep_the_task(v: AgentV)
    ensures
        ({
            let paused = v.apply(Inbound::Command(AgentCommand::Pause));
            let resumed = paused.apply(Inbound::Command(AgentCommand::Resume));
            &&& paused.lifecycle == AgentState::Paused
            &&& v.outcome is None ==> paused.told() == OutcomeV::Idle && resumed.told() == OutcomeV::Working
            &&& resumed.lifecycle == AgentState::Running
            &&& v.lifecycle == AgentState::Running ==> resumed == v
        }),
{
}

/// A round that answers ends the task for now: the agent is idle, tells the answer, and
/// keeps it as the last message. That message is the one that the model gave where it
/// can be read, else the answer's text in the assistant's name.
pub proof fn law_answer_is_yielded_and_kept(v: AgentV, c: CompletedOutcome, answer: PlainTextOutcome, retries: u32)
    requires
        c.kind == CompletedKind::PlainText(answer),
    ensures
        ({
            let after = v.reduce(Ok(IterationOutcome::Completed(c)), retries);
            let said = after.transcript.messages();
            &&& after.lifecycle == AgentState::Idle
            &&& after.told() == OutcomeV::Yielded(answer.text@)
            &&& said.len() == v.transcript.messages().len() + 1
            &&& v.transcript.messages().is_prefix_of(said)
            &&& answer.raw_message_json matches Some(raw) ==> (json_parse(raw@) matches Ok(m) ==> said.last() == m)
            &&& answer.raw_message_json is None || json_parse(answer.raw_message_json->Some_0@) is Err ==> {
                &&& member(said.last(), "role"@) == Some(JsonV::Str("assistant"@))
                &&& member(said.last(), "content"@) == Some(JsonV::Str(answer.text@))
            }
            &&& after.tool_blocks == v.tool_blocks
        }),
{
    lemma_put_last(v.transcript, answer_message(answer));
    law_message_has_role_and_content("assistant"@, answer.text@, "role"@);
}

/// A round of tools keeps the task going where none of them was refused, and its
/// messages are put behind all others, in order.
pub proof fn law_tool_round_goes_on(v: AgentV, c: CompletedOutcome, t: ToolsOutcome, items: Seq<JsonV>, retries: u32)
    requires
        c.kind == CompletedKind::Tools(t),
        t.appended.0@ == JsonV::Arr(items),
        forall|i: int| 0 <= i < t.runs@.len() ==> !(#[trigger] t.runs@[i]).blocked,
    ensures
        ({
            let after = v.reduce(Ok(IterationOutcome::Completed(c)), retries);
            &&& after.transcript.messages() == v.transcript.messages() + items
            &&& after.lifecycle == v.lifecycle
            &&& after.outcome == v.outcome
            &&& after.tool_blocks == 0
        }),
{
    law_first_refusal_counts(t.runs@);
    lemma_put_messages(v.transcript, items);
}

/// A round that went wrong fails the task with what went wrong, and leaves the
/// conversation as it was.
pub proof fn law_failed_round_fails_the_task(v: AgentV, e: IterationLoopError, retries: u32)
    ensures
        v.reduce(Err(e), retries).lifecycle == AgentState::Idle,
        v.reduce(Err(e), retries).told() == OutcomeV::Failed(RunErrorV::Iteration(e)),
        v.reduce(Err(e), retries).transcript == v.transcript,
        v.reduce(Err(e), retries).tool_blocks == v.tool_blocks,
{
}

/// What a round that was interrupted brought is kept where no call in it is left open,
/// and dropped else; either way the task goes on.
pub proof fn law_interrupted_round_keeps_what_it_can(v: AgentV, p: PreemptedOutcome, items: Seq<JsonV>, retries: u32)
    requires
        p.produced matches Some(m) ==> m.0@ == JsonV::Arr(items),
    ensures
        ({
            let after = v.reduce(Ok(IterationOutcome::Preempted(p)), retries);
            &&& p.produced is Some && !dangling(items) ==> after.transcript.messages() == v.transcript.messages()
                + items
            &&& p.produced is None || dangling(items) ==> after.transcript == v.transcript
            &&& after.lifecycle == v.lifecycle
            &&& after.outcome == v.outcome
            &&& after.tool_blocks == v.tool_blocks
        }),
{
    lemma_put_messages(v.transcript, items);
}

/// The refused tool that counts is the first that was refused, if any was.
pub proof fn law_first_refusal_counts(runs: Seq<ToolRun>)
    ensures
        first_blocked(runs) is None <==> forall|i: int| 0 <= i < runs.len() ==> !(#[trigger] runs[i]).blocked,
        first_blocked(runs) matches Some(name) ==> exists|i: int|
            {
                &&& 0 <= i < runs.len()
                &&& (#[trigger] runs[i]).blocked
                &&& runs[i].name@ == name
                &&& forall|j: int| 0 <= j < i ==> !(#[trigger] runs[j]).blocked
            },
    decreases runs.len(),
{
    if runs.len() > 0 {
        let rest = runs.drop_first();
        law_first_refusal_counts(rest);
        if runs[0].blocked {
            assert(runs[0].name@ == first_blocked(runs)->Some_0);
        } else if first_blocked(rest) is None {
            assert forall|i: int| 0 <= i < runs.len() implies !(#[trigger] runs[i]).blocked by {
                if i > 0 {
                    assert(rest[i - 1] == runs[i]);
                }
            }
        } else {
            let k = choose|i: int|
                {
                    &&& 0 <= i < rest.len()
                    &&& (#[trigger] rest[i]).blocked
                    &&& rest[i].name@ == first_blocked(rest)->Some_0
                    &&& forall|j: int| 0 <= j < i ==> !(#[trigger] rest[j]).blocked
                };
            assert(runs[k + 1] == rest[k]);
            assert forall|j: int| 0 <= j < k + 1 implies !(#[trigger] runs[j]).blocked by {
                if j > 0 {
                    assert(rest[j - 1] == runs[j]);
                }
            }
        }
    }
}

/// A refused tool fails the task once more rounds in a row than may be had one: the
/// failure names the tool that was refused first.
pub proof fn law_refused_tool_fails_in_the_end(v: AgentV, runs: Seq<ToolRun>, retries: u32, i: int)
    requires
        0 <= i < runs.len(),
        runs[i].blocked,
        forall|j: int| 0 <= j < i ==> !(#[trigger] runs[j]).blocked,
        v.tool_blocks < u32::MAX,
    ensures
        v.judge_runs(runs, retries).tool_blocks == v.tool_blocks + 1,
        v.tool_blocks >= retries ==> v.judge_runs(runs, retries).told() == OutcomeV::Failed(
            RunErrorV::ToolNotPermitted(runs[i].name@),
        ) && v.judge_runs(runs, retries).lifecycle == AgentState::Idle,
        v.tool_blocks < retries ==> v.judge_runs(runs, retries).outcome == v.outcome && v.judge_runs(
            runs,
            retries,
        ).lifecycle == v.lifecycle,
        v.judge_runs(runs, retries).transcript == v.transcript,
{
    law_first_refusal_counts(runs);
    let k = choose|k: int|
        {
            &&& 0 <= k < runs.len()
            &&& (#[trigger] runs[k]).blocked
            &&& runs[k].name@ == first_blocked(runs)->Some_0
            &&& forall|j: int| 0 <= j < k ==> !(#[trigger] runs[j]).blocked
        };
    assert(k == i) by {
        if k < i {
            assert(!runs[k].blocked);
        }
        if i < k {
            assert(!runs[i].blocked);
        }
    }
}

/// Which command an agent takes depends on the state that it will be in: a message
/// always; a cancellation unless it is idle; a pause where it runs; a resumption where it
/// is paused; and a decision where it waits for that very one.
pub proof fn law_commands_fit_the_state(before: BaseAgent, after: BaseAgent, command: AgentCommand, r: Result<(), AgentCommandError>)
    requires
        before.sent(after, command, r),
    ensures
        command is AppendMessage ==> r is Ok,
        command is Cancel ==> (r is Ok <==> before.projected_lifecycle != AgentState::Idle),
        command is Pause ==> (r is Ok <==> before.projected_lifecycle == AgentState::Running),
        command is Resume ==> (r is Ok <==> before.projected_lifecycle == AgentState::Paused),
        command matches AgentCommand::ApprovalResult { id, .. } ==> (r is Ok <==> before.projected_lifecycle
            == AgentState::AwaitingApproval && before.pending_approval == Some(id)),
        r is Err ==> after == before,
        r is Ok ==> {
            &&& after.inbox@.len() == before.inbox@.len() + 1
            &&& after.inbox@.last() == Inbound::Command(command)
            &&& before.inbox@.is_prefix_of(after.inbox@)
            &&& after.lifecycle == before.lifecycle
            &&& command is Cancel ==> after.projected_lifecycle == AgentState::Idle
            &&& command is Pause ==> after.projected_lifecycle == AgentState::Paused
            &&& command is Resume || command is ApprovalResult ==> after.projected_lifecycle == AgentState::Running
            &&& command is AppendMessage && before.projected_lifecycle == AgentState::Idle
                ==> after.projected_lifecycle == AgentState::Running
            &&& command is AppendMessage && before.projected_lifecycle != AgentState::Idle
                ==> after.projected_lifecycle == before.projected_lifecycle
        },
{
}

/// What a refused command is answered says why: there is nothing to cancel, the state
/// that the agent is in, or which decision it waits for and which came.
pub proof fn law_refused_command_says_why(before: BaseAgent, after: BaseAgent, command: AgentCommand, r: Result<(), AgentCommandError>)
    requires
        before.sent(after, command, r),
        r is Err,
    ensures
        command is Cancel ==> r == Err::<(), AgentCommandError>(AgentCommandError::NothingToCancel),
        command is Pause ==> r == Err::<(), AgentCommandError>(
            AgentCommandError::CannotPause { state: before.projected_lifecycle },
        ),
        command is Resume ==> r == Err::<(), AgentCommandError>(
            AgentCommandError::CannotResume { state: before.projected_lifecycle },
        ),
        command matches AgentCommand::ApprovalResult { id, .. } ==> {
            if before.projected_lifecycle == AgentState::AwaitingApproval && before.pending_approval is Some {
                r == Err::<(), AgentCommandError>(
                    AgentCommandError::ApprovalMismatch { expected: before.pending_approval->Some_0, got: id },
                )
            } else {
                r == Err::<(), AgentCommandError>(
                    AgentCommandError::NotAwaitingApproval { state: before.projected_lifecycle },
                )
            }
        },
{
}

/// What a tick tells of an agent with no news is whether it works on.
pub proof fn law_no_news_is_working_or_idle(v: AgentV)
    ensures
        v.outcome is None ==> (v.told() == OutcomeV::Working <==> v.lifecycle == AgentState::Running),
        v.outcome is None ==> (v.told() == OutcomeV::Idle <==> v.lifecycle != AgentState::Running),
        v.outcome matches Some(o) ==> v.told() == o,
{
}

/// What waits for an agent is reduced in the order in which it came.
pub proof fn law_inbox_is_reduced_in_order(v: AgentV, first: Seq<Inbound>, last: Inbound)
    ensures
        v.apply_all(first.push(last)) == v.apply_all(first).apply(last),
        v.apply_all(Seq::empty()) == v,
{
    lemma_apply_last(v, first.push(last));
    assert(first.push(last).drop_last() =~= first);
}

/// A round sees the whole conversation, in order; a note for the round comes last, as the
/// user's words.
pub proof fn law_round_sees_the_conversation(agent: BaseAgent)
    ensures
        agent.transcript@.messages().is_prefix_of(agent.round_messages()),
        agent.tail_note is None ==> agent.round_messages() == agent.transcript@.messages(),
        agent.tail_note matches Some(note) ==> {
            &&& agent.round_messages().len() == agent.transcript@.messages().len() + 1
            &&& member(agent.round_messages().last(), "role"@) == Some(JsonV::Str("user"@))
            &&& member(agent.round_messages().last(), "content"@) == Some(JsonV::Str(note@))
        },
{
    if let Some(note) = agent.tail_note {
        law_message_has_role_and_content("user"@, note@, "role"@);
    }
}

/// A round is asked with the prompt that the skills made, and where they made none with
/// the agent's own.
pub proof fn law_round_has_a_prompt(agent: BaseAgent)
    ensures
        agent.effective_prompt@.len() > 0 ==> agent.prompt() == agent.effective_prompt@,
        agent.effective_prompt@.len() == 0 ==> agent.prompt() == agent.system_prompt@,
{
}

proof fn lemma_put_messages(t: TranscriptV, items: Seq<JsonV>)
    ensures
        t.put(items).messages() == t.messages() + items,
        t.put(items).close().messages() == t.messages() + items,
        t.close().messages() == t.messages(),
{
    assert(t.put(items).messages() =~= t.messages() + items);
}

proof fn lemma_put_last(t: TranscriptV, item: JsonV)
    ensures
        t.put(seq![item]).messages() == t.messages().push(item),
        t.put(seq![item]).close().messages() == t.messages().push(item),
        t.close().messages() == t.messages(),
{
    lemma_put_messages(t, seq![item]);
    assert(t.messages() + seq![item] =~= t.messages().push(item));
}

/// Collects the settings of an agent.
#[must_use]
pub struct BaseAgentBuilder {
    pub supports_tools: bool,
    pub tools: Option<ToolSet>,
    pub has_skills: bool,
    pub system_prompt: String,
    pub retry_policy: RetryPolicy,
    pub tool_block_retries: u32,
}

/// The names of the tools that every agent has.
pub open spec fn internal_names() -> Seq<Seq<char>> {
    seq!["end_conversation"@, "request_approval"@]
}

/// The schemas of the tools that every agent has.
pub open spec fn internal_schemas() -> Seq<Seq<char>> {
    seq![END_CONVERSATION_SCHEMA@, REQUEST_APPROVAL_SCHEMA@]
}

/// The tools that an agent is built with.
pub open spec fn given_tools(tools: Option<ToolSet>) -> Seq<crate::tools::ToolSpec> {
    match tools {
        Some(t) => t@,
        None => Seq::empty(),
    }
}

impl BaseAgentBuilder {
    pub fn with_tools(self, tools: ToolSet) -> (r: BaseAgentBuilder)
        ensures
            r == (BaseAgentBuilder { tools: Some(tools), ..self }),
    {
        BaseAgentBuilder { tools: Some(tools), ..self }
    }

    pub fn with_skills(self) -> (r: BaseAgentBuilder)
        ensures
            r == (BaseAgentBuilder { has_skills: true, ..self }),
    {
        BaseAgentBuilder { has_skills: true, ..self }
    }

    pub fn with_system_prompt(self, system_prompt: String) -> (r: BaseAgentBuilder)
        ensures
            r == (BaseAgentBuilder { system_prompt, ..self }),
    {
        BaseAgentBuilder { system_prompt, ..self }
    }

    pub fn with_retry_policy(self, retry_policy: RetryPolicy) -> (r: BaseAgentBuilder)
        ensures
            r == (BaseAgentBuilder { retry_policy, ..self }),
    {
        BaseAgentBuilder { retry_policy, ..self }
    }

    pub fn with_tool_block_retries(self, retries: u32) -> (r: BaseAgentBuilder)
        ensures
            r == (BaseAgentBuilder { tool_block_retries: retries, ..self }),
    {
        BaseAgentBuilder { tool_block_retries: retries, ..self }
    }

    /// Builds the agent. Where the model can call tools, the built-in ones are added.
    pub fn build(self) -> (r: Result<BaseAgent, BaseAgentBuildError>)
        requires
            self.tools matches Some(t) ==> t.distinct(),
        ensures
            match r {
                Ok(agent) => {
                    &&& agent.valid()
                    &&& agent.fresh()
                    &&& agent.inbox@.len() == 0
                    &&& agent.allowed_tools is None
                    &&& agent.has_skills == self.has_skills
                    &&& agent.system_prompt == self.system_prompt
                    &&& agent.retry_policy == self.retry_policy
                    &&& agent.tool_block_retries == self.tool_block_retries
                    &&& if self.supports_tools {
                        &&& agent.tools matches Some(t)
                        &&& t.distinct()
                        &&& tool_names(t@) == tool_names(given_tools(self.tools)) + internal_names()
                        &&& tool_schemas(t@) == tool_schemas(given_tools(self.tools)) + internal_schemas()
                        &&& t@.take(given_tools(self.tools).len() as int) == given_tools(self.tools)
                    } else {
                        agent.tools is None && self.tools is None
                    }
                },
                Err(BaseAgentBuildError::ToolsUnsupported) => !self.supports_tools && self.tools is Some,
                Err(BaseAgentBuildError::Tools(ToolSetError::DuplicateName(n))) => self.supports_tools
                    && first_repeat(tool_names(given_tools(self.tools)) + internal_names()) == Some(n@),
            },
    {
        let ghost given = given_tools(self.tools);
        let tools = if self.supports_tools {
            let mut tools = match self.tools {
                Some(tools) => tools,
                None => ToolSet::empty(),
            };
            let group = internal_tool_group();
            proof {
                assert(tools@ =~= given);
                assert(tool_names(given + group@) =~= tool_names(given) + tool_names(group@));
                assert(tool_schemas(given + group@) =~= tool_schemas(given) + tool_schemas(group@));
                assert((given + group@).take(given.len() as int) =~= given);
            }
            match tools.extend_with_group(group) {
                Ok(_) => Some(tools),
                Err(e) => {
                    return Err(BaseAgentBuildError::Tools(e));
                },
            }
        } else {
            if self.tools.is_some() {
                return Err(BaseAgentBuildError::ToolsUnsupported);
            }
            None
        };
        Ok(
            BaseAgent {
                tools,
                has_skills: self.has_skills,
                retry_policy: self.retry_policy,
                allowed_tools: None,
                tail_note: None,
                consecutive_tool_blocks: 0,
                tool_block_retries: self.tool_block_retries,
                system_prompt: self.system_prompt,
                effective_prompt: String::new(),
                effective_prompt_dirty: true,
                transcript: Transcript::new(),
                next_iteration: IterationId(0),
                next_approval: 0,
                pending_approval: None,
                lifecycle: AgentState::Idle,
                projected_lifecycle: AgentState::Idle,
                outcome: None,
                inbox: VecDeque::new(),
                point: TickPoint::Between,
                current_iteration: IterationId(0),
            },
        )
    }
}

/// A round counts before what was signalled in it: signals are reduced after the round's
/// outcome, in the order in which they came.
pub proof fn law_signals_count_after_the_round(agent: BaseAgent, result: IterationResult, signals: Seq<ControlSignal>, last: ControlSignal)
    ensures
        agent.after_round(result, Seq::empty()) == agent@.reduce(result, agent.tool_block_retries),
        agent.after_round(result, signals.push(last)) == agent.after_round(result, signals).apply(
            Inbound::Control(last),
        ),
{
    let v = agent@.reduce(result, agent.tool_block_retries);
    assert(as_inbox(Seq::<ControlSignal>::empty()) =~= Seq::<Inbound>::empty());
    assert(as_inbox(signals.push(last)) =~= as_inbox(signals).push(Inbound::Control(last)));
    law_inbox_is_reduced_in_order(v, as_inbox(signals), Inbound::Control(last));
    law_inbox_is_reduced_in_order(v, Seq::empty(), Inbound::Control(last));
}

/// An agent that is only told something keeps what it is, what it said and what it was
/// told before.
pub proof fn law_telling_keeps_all_else(before: BaseAgent, after: BaseAgent)
    requires
        before.only_told(after),
    ensures
        after@ == before@,
        after.same_config(before),
        after.same_prompt(before),
        before.inbox@.is_prefix_of(after.inbox@),
        after.point == before.point,
{
}

/// The tools that every agent has end a conversation and ask for consent, in this order,
/// and each is described by its own schema.
pub proof fn law_every_agent_can_end_and_ask()
    ensures
        internal_names().len() == 2,
        internal_names()[0] == "end_conversation"@,
        internal_names()[1] == "request_approval"@,
        internal_schemas().len() == 2,
        internal_schemas()[0] == END_CONVERSATION_SCHEMA@,
        internal_schemas()[1] == REQUEST_APPROVAL_SCHEMA@,
{
}

/// An agent that cannot find its skill, or read it, says which; what went wrong in a round
/// is said in its own words, and a tool that was refused is named.
pub proof fn law_failures_are_told_in_words(s: SkillError, e: AgentRunError)
    ensures
        s matches SkillError::NotFound(id) ==> s.text() == "skill not found: "@ + id@,
        s matches SkillError::Unreadable(m) ==> s.text() == "skill unreadable: "@ + m@,
        e matches AgentRunError::Iteration(i) ==> e.text() == i.text(),
        e matches AgentRunError::Skill(i) ==> e.text() == i.text(),
        e matches AgentRunError::ToolNotPermitted { name } ==> e.text() == "tool not permitted in the current phase: "@
            + name@,
        e matches AgentRunError::Iteration(i) ==> e.debug_text() == "Iteration("@ + i.debug_text() + ")"@,
        e matches AgentRunError::Skill(i) ==> e.debug_text() == "Skill("@ + i.debug_text() + ")"@,
        e matches AgentRunError::ToolNotPermitted { name } ==> e.debug_text() == "ToolNotPermitted { name: "@ + quoted(
            name@,
        ) + " }"@,
        s matches SkillError::NotFound(id) ==> s.debug_text() == "NotFound("@ + quoted(id@) + ")"@,
        s matches SkillError::Unreadable(m) ==> s.debug_text() == "Unreadable("@ + quoted(m@) + ")"@,
{
}

/// Each reason for a cancellation goes by its own name.
pub proof fn law_reasons_have_their_names(reason: CancelReason)
    ensures
        reason is UserRequested ==> reason.name() == "UserRequested"@,
        reason is Superseded ==> reason.name() == "Superseded"@,
        reason is Shutdown ==> reason.name() == "Shutdown"@,
{
}

/// A task is over where it ended, failed or was cancelled, and not before.
pub proof fn law_task_is_over_at_its_end(outcome: OutcomeV)
    ensures
        outcome.terminal() <==> outcome is Ended || outcome is Failed || outcome is Cancelled,
{
}

/// One round with a refused tool is put up with unless an agent is told otherwise: the
/// second in a row fails the task.
pub proof fn law_second_refusal_in_a_row_fails(v: AgentV, first: Seq<ToolRun>, second: Seq<ToolRun>, i: int, j: int)
    requires
        v.tool_blocks == 0,
        v.outcome is None,
        0 <= i < first.len(),
        first[i].blocked,
        forall|k: int| 0 <= k < i ==> !(#[trigger] first[k]).blocked,
        0 <= j < second.len(),
        second[j].blocked,
        forall|k: int| 0 <= k < j ==> !(#[trigger] second[k]).blocked,
    ensures
        v.judge_runs(first, DEFAULT_TOOL_BLOCK_RETRIES).outcome is None,
        v.judge_runs(first, DEFAULT_TOOL_BLOCK_RETRIES).judge_runs(second, DEFAULT_TOOL_BLOCK_RETRIES).told()
            == OutcomeV::Failed(RunErrorV::ToolNotPermitted(second[j].name@)),
{
    law_refused_tool_fails_in_the_end(v, first, DEFAULT_TOOL_BLOCK_RETRIES, i);
    law_refused_tool_fails_in_the_end(
        v.judge_runs(first, DEFAULT_TOOL_BLOCK_RETRIES),
        second,
        DEFAULT_TOOL_BLOCK_RETRIES,
        j,
    );
}

/// An agent of the same configuration has the same tools, skills, limits, notes and
/// prompts.
pub proof fn law_same_configuration_keeps_the_settings(a: BaseAgent, b: BaseAgent)
    ensures
        a.same_config(b) <==> {
            &&& a.tools == b.tools
            &&& a.has_skills == b.has_skills
            &&& a.retry_policy == b.retry_policy
            &&& a.allowed_tools == b.allowed_tools
            &&& a.tail_note == b.tail_note
            &&& a.tool_block_retries == b.tool_block_retries
            &&& a.system_prompt == b.system_prompt
        },
        a.same_prompt(b) <==> a.effective_prompt == b.effective_prompt && a.effective_prompt_dirty
            == b.effective_prompt_dirty,
{
}

/// A new agent is idle, waits for nothing, said nothing and has no prompt of its skills
/// yet.
pub proof fn law_new_agent_has_said_nothing(agent: BaseAgent)
    requires
        agent.fresh(),
    ensures
        agent@.lifecycle == AgentState::Idle,
        agent@.pending_approval is None,
        agent@.next_approval == 0,
        agent@.next_iteration.0 == 0,
        agent@.tool_blocks == 0,
        agent@.outcome is None,
        agent.transcript@.messages().len() == 0,
        agent.tail_note is None,
        agent.effective_prompt_dirty,
{
}

/// What waits for an agent is reduced before its tick, and an agent for which nothing waits
/// is as it was; without tools of its own it is given none.
pub proof fn law_nothing_waiting_changes_nothing(agent: BaseAgent, tools: ToolSet)
    ensures
        agent.inbox@.len() == 0 ==> agent.drained() == agent@,
        given_tools(Some(tools)) == tools@,
        given_tools(None).len() == 0,
{
}

} // verus!
