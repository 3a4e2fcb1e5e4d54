//! One round with the model: a chat, and the tools that it asks for.
//!
//! An [`IterationLoop`] decides what happens next; the driver asks the model,
//! runs the tools and reports back. At each checkpoint the interrupt flag is
//! looked at, and a flag that is set ends the round: the upper layer reads what
//! interrupted it.

use vstd::prelude::*;

use crate::error::{ChatError, ChatErrorKind};
use crate::json::{arr_member, items_view, json_parse, member, parse_json, str_member, Json, JsonV};
use crate::llm::types::{calls_view, LlmResponse, ToolCall, ToolCallV};
use crate::protocol::ids::IterationId;
use crate::text::{concat3, contains, has_substring, opt_view};
use crate::tools::{is_blocked, AllowedTools, ToolError, ToolOutput};

verus! {

/// Why a round failed.
#[derive(Debug, PartialEq, Eq)]
pub enum IterationLoopError {
    MessagesNotArray,
    MissingAssistantMessage,
    MalformedAssistantMessage,
    MissingTools,
    Chat(ChatError),
    Tool(ToolError),
}

impl IterationLoopError {
    /// The text of the failure.
    pub open spec fn text(self) -> Seq<char> {
        match self {
            IterationLoopError::MessagesNotArray => "messages must be a JSON array"@,
            IterationLoopError::MissingAssistantMessage =>
                "LLM tool-call response missing raw assistant message JSON"@,
            IterationLoopError::MalformedAssistantMessage => "LLM raw assistant message JSON is not valid JSON"@,
            IterationLoopError::MissingTools => "LLM issued tool calls but no tools port was supplied"@,
            IterationLoopError::Chat(e) => e.message@,
            IterationLoopError::Tool(e) => e.text(),
        }
    }

    pub fn message(&self) -> (r: String)
        ensures
            r@ == self.text(),
    {
        match self {
            IterationLoopError::MessagesNotArray => "messages must be a JSON array".to_owned(),
            IterationLoopError::MissingAssistantMessage =>
                "LLM tool-call response missing raw assistant message JSON".to_owned(),
            IterationLoopError::MalformedAssistantMessage =>
                "LLM raw assistant message JSON is not valid JSON".to_owned(),
            IterationLoopError::MissingTools => "LLM issued tool calls but no tools port was supplied".to_owned(),
            IterationLoopError::Chat(e) => e.message.clone(),
            IterationLoopError::Tool(e) => e.message(),
        }
    }
}

impl IterationLoopError {
    /// The error as it is written for developers.
    pub open spec fn debug_text(self) -> Seq<char> {
        match self {
            IterationLoopError::MessagesNotArray => "MessagesNotArray"@,
            IterationLoopError::MissingAssistantMessage => "MissingAssistantMessage"@,
            IterationLoopError::MalformedAssistantMessage => "MalformedAssistantMessage"@,
            IterationLoopError::MissingTools => "MissingTools"@,
            IterationLoopError::Chat(e) => "Chat("@ + e.debug_text() + ")"@,
            IterationLoopError::Tool(e) => "Tool("@ + e.debug_text() + ")"@,
        }
    }

    pub fn debug(&self) -> (r: String)
        ensures
            r@ == self.debug_text(),
    {
        match self {
            IterationLoopError::MessagesNotArray => "MessagesNotArray".to_owned(),
            IterationLoopError::MissingAssistantMessage => "MissingAssistantMessage".to_owned(),
            IterationLoopError::MalformedAssistantMessage => "MalformedAssistantMessage".to_owned(),
            IterationLoopError::MissingTools => "MissingTools".to_owned(),
            IterationLoopError::Chat(e) => concat3("Chat(", e.debug().as_str(), ")"),
            IterationLoopError::Tool(e) => concat3("Tool(", e.debug().as_str(), ")"),
        }
    }
}

/// Where a round was interrupted.
#[derive(Clone, Copy, Debug, PartialEq, Eq, Structural)]
pub enum IterationCheckpoint {
    BeforeLlmHttp,
    InLlmHttpAbort,
    AfterLlmBeforeTool,
    BeforeTool,
}

/// The system prompt of one chat.
#[derive(Clone, Copy, Debug)]
pub struct SystemPrompt<'a>(pub &'a str);

/// The messages of one chat.
#[derive(Clone, Copy, Debug)]
pub struct ChatMessages<'a>(pub &'a Json);

/// Messages that a round adds to the conversation.
#[derive(Debug, PartialEq)]
pub struct AppendedMessages(pub Json);

impl AppendedMessages {
    /// No messages.
    pub fn empty() -> (r: AppendedMessages)
        ensures
            r.0@ == JsonV::Arr(Seq::empty()),
    {
        let items: Vec<Json> = Vec::new();
        assert(items_view(items@) =~= Seq::<JsonV>::empty());
        AppendedMessages(Json::array(items))
    }

    /// Adds the messages of `other`, where both are arrays.
    pub fn extend(&mut self, other: &AppendedMessages)
        ensures
            final(self).0@ == (match (old(self).0@, other.0@) {
                (JsonV::Arr(a), JsonV::Arr(b)) => JsonV::Arr(a + b),
                _ => old(self).0@,
            }),
    {
        let other_items = match other.0.as_array() {
            Some(items) => items,
            None => {
                return ;
            },
        };
        let mut taken = Json::Null;
        std::mem::swap(&mut taken, &mut self.0);
        match taken {
            Json::Arr(mut items) => {
                let ghost before = items@;
                assert(old(self).0@->Arr_0 =~= items_view(before));
                let mut more = crate::json::dup_items(other_items);
                let ghost added = more@;
                items.append(&mut more);
                assert(items_view(items@) =~= items_view(before) + items_view(added));
                self.0 = Json::array(items);
            },
            kept => {
                self.0 = kept;
            },
        }
    }

    /// A copy, where there are messages.
    pub fn as_produced_snapshot(&self) -> (r: Option<AppendedMessages>)
        ensures
            match self.0@ {
                JsonV::Arr(items) if items.len() > 0 => r matches Some(a) && a.0@ == self.0@,
                _ => r is None,
            },
    {
        match self.0.as_array() {
            Some(items) => {
                assert(items_view(items@).len() == items@.len());
                if items.len() > 0 {
                    Some(AppendedMessages(self.0.dup()))
                } else {
                    None
                }
            },
            None => None,
        }
    }
}

/// The settings of one round.
pub struct IterationStep {
    pub iteration_id: IterationId,
    /// Whether there are tools to run.
    pub has_tools: bool,
    /// The tools that may run; without it, all may.
    pub allowed_tools: Option<AllowedTools>,
}

/// How a round ended.
#[derive(Debug, PartialEq)]
pub enum IterationOutcome {
    Completed(CompletedOutcome),
    Preempted(PreemptedOutcome),
}

pub type IterationResult = Result<IterationOutcome, IterationLoopError>;

/// A round that came to its end.
#[derive(Debug, PartialEq)]
pub struct CompletedOutcome {
    pub iteration_id: IterationId,
    pub kind: CompletedKind,
}

#[derive(Debug, PartialEq)]
pub enum CompletedKind {
    PlainText(PlainTextOutcome),
    Tools(ToolsOutcome),
}

/// One tool call of a round. A call that was refused is not `ok`.
#[derive(Clone, Debug, PartialEq, Eq)]
pub struct ToolRun {
    pub name: String,
    pub ok: bool,
    pub blocked: bool,
}

/// The model asked for tools, and they ran.
#[derive(Debug, PartialEq)]
pub struct ToolsOutcome {
    pub appended: AppendedMessages,
    pub runs: Vec<ToolRun>,
}

/// The model answered with a text.
#[derive(Clone, Debug, PartialEq, Eq)]
pub struct PlainTextOutcome {
    pub text: String,
    pub raw_message_json: Option<String>,
}

/// A round that was interrupted, with the messages that it had made.
#[derive(Debug, PartialEq)]
pub struct PreemptedOutcome {
    pub iteration_id: IterationId,
    pub checkpoint: IterationCheckpoint,
    pub produced: Option<AppendedMessages>,
}

/// Takes the interrupt: the flag is down afterwards.
pub fn take_interrupt(interrupt: &mut bool) -> (r: bool)
    ensures
        r == *old(interrupt),
        !*final(interrupt),
{
    let r = *interrupt;
    *interrupt = false;
    r
}

/// Ends the round at a checkpoint where the flag is up.
pub fn check_preempt_at_checkpoint(
    interrupt: &mut bool,
    iteration_id: IterationId,
    checkpoint: IterationCheckpoint,
    produced: Option<AppendedMessages>,
) -> (r: Option<PreemptedOutcome>)
    ensures
        !*final(interrupt),
        r == (if *old(interrupt) {
            Some(PreemptedOutcome { iteration_id, checkpoint, produced })
        } else {
            None
        }),
{
    if !take_interrupt(interrupt) {
        return None;
    }
    Some(PreemptedOutcome { iteration_id, checkpoint, produced })
}

/// Whether a failed chat was interrupted: the flag is up, or the transport says so.
pub open spec fn chat_preempted(interrupt: bool, e: ChatError) -> bool {
    interrupt || (e.kind == ChatErrorKind::Transport && has_substring(e.message@, "aborted"@))
}

pub fn llm_http_preempted(interrupt: &mut bool, err: &ChatError) -> (r: bool)
    ensures
        !*final(interrupt),
        r == chat_preempted(*old(interrupt), *err),
{
    if take_interrupt(interrupt) {
        return true;
    }
    err.kind == ChatErrorKind::Transport && contains(err.message.as_str(), "aborted")
}

/// What the raw assistant message of an answer is.
pub open spec fn assistant_message(raw: Option<Seq<char>>) -> Result<JsonV, IterationLoopError> {
    match raw {
        Some(t) if t.len() > 0 => match json_parse(t) {
            Ok(v) => Ok(v),
            Err(_) => Err(IterationLoopError::MalformedAssistantMessage),
        },
        _ => Err(IterationLoopError::MissingAssistantMessage),
    }
}

/// Adds the assistant message of an answer to a list of messages.
pub fn append_assistant_tool_calls(messages: &mut Json, response: &LlmResponse) -> (r: Result<(), IterationLoopError>)
    ensures
        match assistant_message(opt_view(response.raw_message_json)) {
            Err(e) => r == Err::<(), IterationLoopError>(e) && final(messages)@ == old(messages)@,
            Ok(v) => match old(messages)@ {
                JsonV::Arr(items) => r is Ok && final(messages)@ == JsonV::Arr(items.push(v)),
                _ => r == Err::<(), IterationLoopError>(IterationLoopError::MessagesNotArray) && final(messages)@
                    == old(messages)@,
            },
        },
{
    let raw = match &response.raw_message_json {
        Some(raw) => raw,
        None => {
            return Err(IterationLoopError::MissingAssistantMessage);
        },
    };
    if raw.as_str().is_empty() {
        return Err(IterationLoopError::MissingAssistantMessage);
    }
    let assistant = match parse_json(raw.as_str()) {
        Ok(v) => v,
        Err(_) => {
            return Err(IterationLoopError::MalformedAssistantMessage);
        },
    };
    push_message(messages, assistant)
}

/// Adds a message to a list of messages.
fn push_message(messages: &mut Json, message: Json) -> (r: Result<(), IterationLoopError>)
    ensures
        match old(messages)@ {
            JsonV::Arr(items) => r is Ok && final(messages)@ == JsonV::Arr(items.push(message@)),
            _ => r == Err::<(), IterationLoopError>(IterationLoopError::MessagesNotArray) && final(messages)@ == old(
                messages,
            )@,
        },
{
    let mut taken = Json::Null;
    std::mem::swap(&mut taken, messages);
    match taken {
        Json::Arr(mut items) => {
            let ghost before = items@;
            assert(old(messages)@->Arr_0 =~= items_view(before));
            items.push(message);
            assert(items_view(items@) =~= items_view(before).push(message@));
            *messages = Json::array(items);
            Ok(())
        },
        kept => {
            *messages = kept;
            Err(IterationLoopError::MessagesNotArray)
        },
    }
}

/// The name of a tool as it is shown.
pub open spec fn shown_name(name: Seq<char>) -> Seq<char> {
    if name.len() == 0 {
        "(null)"@
    } else {
        name
    }
}

fn show_name(name: &str) -> (r: String)
    ensures
        r@ == shown_name(name@),
{
    if name.is_empty() {
        "(null)".to_owned()
    } else {
        name.to_owned()
    }
}

/// What the model is told of a call that was refused.
pub open spec fn refusal(name: Seq<char>) -> Seq<char> {
    "Tool \""@ + shown_name(name)
        + "\" is not available in the current phase and was not executed. This is a policy restriction, not a transient error: do not retry it. Use one of the tools listed as available in the latest instructions instead."@
}

pub fn blocked_tool_message(name: &str) -> (r: String)
    ensures
        r@ == refusal(name@),
{
    let shown = show_name(name);
    concat3(
        "Tool \"",
        shown.as_str(),
        "\" is not available in the current phase and was not executed. This is a policy restriction, not a transient error: do not retry it. Use one of the tools listed as available in the latest instructions instead.",
    )
}

/// The message that answers a tool call.
pub open spec fn tool_message(id: Seq<char>, content: Seq<char>, ok: bool) -> JsonV {
    JsonV::Obj(
        Map::empty().insert("role"@, JsonV::Str("tool"@)).insert("tool_call_id"@, JsonV::Str(id)).insert(
            "content"@,
            JsonV::Str(content),
        ).insert("is_error"@, JsonV::Bool(!ok)),
    )
}

fn make_tool_message(id: &str, content: &str, ok: bool) -> (r: Json)
    ensures
        r@ == tool_message(id@, content@, ok),
{
    Json::object().with("role", Json::text("tool")).with("tool_call_id", Json::text(id)).with(
        "content",
        Json::text(content),
    ).with("is_error", Json::Bool(!ok))
}

/// What a round waits for.
#[derive(Clone, Copy, Debug, PartialEq, Eq, Structural)]
pub enum IterationPoint {
    Chat,
    Checkpoint,
    Tool,
    Over,
}

/// What the driver is to do next.
#[derive(Debug, PartialEq)]
pub enum IterationAction {
    /// Ask the model; then [`IterationLoop::on_chat`].
    Chat,
    /// Look at the interrupt flag; then [`IterationLoop::next_tool`].
    Checkpoint,
    /// Run a tool; then [`IterationLoop::on_tool`].
    Invoke(ToolCall),
    /// The round is over.
    Done(IterationResult),
}

/// A round on its way.
pub struct IterationLoop {
    pub step: IterationStep,
    pub point: IterationPoint,
    pub calls: Vec<ToolCall>,
    pub appended: AppendedMessages,
    pub runs: Vec<ToolRun>,
}

/// Whether `items` is an assistant message and the answers to the first calls, in
/// order, each under its id, and `runs` tells the same of them.
pub open spec fn answers_calls(
    items: Seq<JsonV>,
    runs: Seq<ToolRun>,
    calls: Seq<ToolCall>,
    allowed: Option<AllowedTools>,
) -> bool {
    &&& runs.len() <= calls.len()
    &&& items.len() == 1 + runs.len()
    &&& forall|i: int|
        0 <= i < runs.len() ==> {
            &&& (#[trigger] runs[i]).name@ == shown_name(calls[i].name@)
            &&& runs[i].blocked == is_blocked(allowed, calls[i].name@)
            &&& runs[i].blocked ==> items[1 + i] == tool_message(calls[i].id@, refusal(calls[i].name@), false)
                && !runs[i].ok
            &&& exists|content: Seq<char>| items[1 + i] == #[trigger] tool_message(calls[i].id@, content, runs[i].ok)
        }
}

impl IterationLoop {
    /// The calls that were made so far are answered.
    pub open spec fn valid(self) -> bool {
        self.point == IterationPoint::Checkpoint || self.point == IterationPoint::Tool ==> {
            &&& self.appended.0@ is Arr
            &&& answers_calls(self.appended.0@->Arr_0, self.runs@, self.calls@, self.step.allowed_tools)
            &&& self.point == IterationPoint::Tool ==> self.runs@.len() < self.calls@.len() && !is_blocked(
                self.step.allowed_tools,
                self.calls@[self.runs@.len() as int].name@,
            )
        }
    }

    /// Starts a round.
    pub fn run(step: IterationStep, interrupt: &mut bool) -> (r: (IterationLoop, IterationAction))
        ensures
            r.0.valid(),
            r.0.step == step,
            r.0.calls@.len() == 0,
            r.0.runs@.len() == 0,
            r.0.appended.0@ == JsonV::Arr(Seq::empty()),
            !*final(interrupt),
            if *old(interrupt) {
                &&& r.0.point == IterationPoint::Over
                &&& r.1 == IterationAction::Done(
                    Ok(
                        IterationOutcome::Preempted(
                            PreemptedOutcome {
                                iteration_id: step.iteration_id,
                                checkpoint: IterationCheckpoint::BeforeLlmHttp,
                                produced: None,
                            },
                        ),
                    ),
                )
            } else {
                r.0.point == IterationPoint::Chat && r.1 == IterationAction::Chat
            },
    {
        let id = step.iteration_id;
        let mut round = IterationLoop {
            step,
            point: IterationPoint::Chat,
            calls: Vec::new(),
            appended: AppendedMessages::empty(),
            runs: Vec::new(),
        };
        match check_preempt_at_checkpoint(interrupt, id, IterationCheckpoint::BeforeLlmHttp, None) {
            Some(outcome) => {
                round.point = IterationPoint::Over;
                (round, IterationAction::Done(Ok(IterationOutcome::Preempted(outcome))))
            },
            None => (round, IterationAction::Chat),
        }
    }

    /// What an interrupted round gives.
    pub open spec fn preempted(self, checkpoint: IterationCheckpoint) -> IterationAction {
        IterationAction::Done(
            Ok(
                IterationOutcome::Preempted(
                    PreemptedOutcome { iteration_id: self.step.iteration_id, checkpoint, produced: None },
                ),
            ),
        )
    }

    /// The model was asked.
    pub fn on_chat(&mut self, reply: Result<LlmResponse, ChatError>, interrupt: &mut bool) -> (a: IterationAction)
        requires
            old(self).point == IterationPoint::Chat,
        ensures
            final(self).valid(),
            final(self).step == old(self).step,
            !*final(interrupt),
            final(self).point == IterationPoint::Over ==> *final(self) == (IterationLoop {
                point: IterationPoint::Over,
                ..*old(self)
            }),
            match reply {
                Err(e) => final(self).point == IterationPoint::Over && a == (if chat_preempted(*old(interrupt), e) {
                    old(self).preempted(IterationCheckpoint::InLlmHttpAbort)
                } else {
                    IterationAction::Done(Err(IterationLoopError::Chat(e)))
                }),
                Ok(resp) => if *old(interrupt) {
                    final(self).point == IterationPoint::Over && a == old(self).preempted(
                        IterationCheckpoint::AfterLlmBeforeTool,
                    )
                } else if resp.tool_calls@.len() == 0 {
                    &&& final(self).point == IterationPoint::Over
                    &&& a matches IterationAction::Done(Ok(IterationOutcome::Completed(c)))
                    &&& c.iteration_id == old(self).step.iteration_id
                    &&& c.kind matches CompletedKind::PlainText(p)
                    &&& p.text@ == (match resp.text {
                        Some(t) => t@,
                        None => Seq::empty(),
                    })
                    &&& p.raw_message_json == resp.raw_message_json
                } else if !old(self).step.has_tools {
                    final(self).point == IterationPoint::Over && a == IterationAction::Done(
                        Err(IterationLoopError::MissingTools),
                    )
                } else {
                    match assistant_message(opt_view(resp.raw_message_json)) {
                        Err(e) => final(self).point == IterationPoint::Over && a == IterationAction::Done(Err(e)),
                        Ok(v) => {
                            &&& final(self).point == IterationPoint::Checkpoint
                            &&& a == IterationAction::Checkpoint
                            &&& final(self).calls@ == resp.tool_calls@
                            &&& final(self).runs@.len() == 0
                            &&& final(self).appended.0@ == JsonV::Arr(seq![v])
                        },
                    }
                },
            },
    {
        let id = self.step.iteration_id;
        self.point = IterationPoint::Over;
        let resp = match reply {
            Ok(resp) => resp,
            Err(e) => {
                if llm_http_preempted(interrupt, &e) {
                    return IterationAction::Done(
                        Ok(
                            IterationOutcome::Preempted(
                                PreemptedOutcome {
                                    iteration_id: id,
                                    checkpoint: IterationCheckpoint::InLlmHttpAbort,
                                    produced: None,
                                },
                            ),
                        ),
                    );
                }
                return IterationAction::Done(Err(IterationLoopError::Chat(e)));
            },
        };
        match check_preempt_at_checkpoint(interrupt, id, IterationCheckpoint::AfterLlmBeforeTool, None) {
            Some(outcome) => {
                return IterationAction::Done(Ok(IterationOutcome::Preempted(outcome)));
            },
            None => {},
        }
        if resp.tool_calls.len() == 0 {
            let text = match resp.text {
                Some(t) => t,
                None => String::new(),
            };
            return IterationAction::Done(
                Ok(
                    IterationOutcome::Completed(
                        CompletedOutcome {
                            iteration_id: id,
                            kind: CompletedKind::PlainText(
                                PlainTextOutcome { text, raw_message_json: resp.raw_message_json },
                            ),
                        },
                    ),
                ),
            );
        }
        if !self.step.has_tools {
            return IterationAction::Done(Err(IterationLoopError::MissingTools));
        }
        let mut appended = AppendedMessages::empty();
        match append_assistant_tool_calls(&mut appended.0, &resp) {
            Err(e) => {
                return IterationAction::Done(Err(e));
            },
            Ok(_) => {},
        }
        assert(appended.0@->Arr_0 =~= seq![assistant_message(opt_view(resp.raw_message_json))->Ok_0]);
        self.appended = appended;
        self.calls = resp.tool_calls;
        self.runs = Vec::new();
        self.point = IterationPoint::Checkpoint;
        IterationAction::Checkpoint
    }

    /// A step of the tools: `new` answers one call more than `self`.
    pub open spec fn answered(self, new: IterationLoop, content: Seq<char>, ok: bool, blocked: bool) -> bool {
        let call = self.calls@[self.runs@.len() as int];
        &&& new.step == self.step
        &&& new.calls == self.calls
        &&& new.point == IterationPoint::Checkpoint
        &&& new.appended.0@ == JsonV::Arr(self.appended.0@->Arr_0.push(tool_message(call.id@, content, ok)))
        &&& new.runs@.len() == self.runs@.len() + 1
        &&& new.runs@.drop_last() == self.runs@
        &&& new.runs@.last().name@ == shown_name(call.name@)
        &&& new.runs@.last().ok == ok
        &&& new.runs@.last().blocked == blocked
    }

    fn record(&mut self, content: &str, ok: bool, blocked: bool)
        requires
            old(self).valid(),
            old(self).point == IterationPoint::Checkpoint || old(self).point == IterationPoint::Tool,
            old(self).runs@.len() < old(self).calls@.len(),
            ({
                let name = old(self).calls@[old(self).runs@.len() as int].name@;
                &&& blocked == is_blocked(old(self).step.allowed_tools, name)
                &&& blocked ==> content@ == refusal(name) && !ok
            }),
        ensures
            final(self).valid(),
            old(self).answered(*final(self), content@, ok, blocked),
    {
        let at: usize = self.runs.len();
        let message = make_tool_message(self.calls[at].id.as_str(), content, ok);
        let _ = push_message(&mut self.appended.0, message);
        let name = show_name(self.calls[at].name.as_str());
        let ghost before = self.runs@;
        self.runs.push(ToolRun { name, ok, blocked });
        self.point = IterationPoint::Checkpoint;
        proof {
            assert(self.runs@.drop_last() =~= before);
            let items = self.appended.0@->Arr_0;
            assert forall|i: int| 0 <= i < self.runs@.len() implies {
                &&& (#[trigger] self.runs@[i]).name@ == shown_name(self.calls@[i].name@)
                &&& self.runs@[i].blocked == is_blocked(self.step.allowed_tools, self.calls@[i].name@)
                &&& self.runs@[i].blocked ==> items[1 + i] == tool_message(
                    self.calls@[i].id@,
                    refusal(self.calls@[i].name@),
                    false,
                ) && !self.runs@[i].ok
                &&& exists|c: Seq<char>| items[1 + i] == #[trigger] tool_message(self.calls@[i].id@, c, self.runs@[i].ok)
            } by {
                if i < before.len() {
                    let old_items = old(self).appended.0@->Arr_0;
                    assert(self.runs@[i] == old(self).runs@[i]);
                    assert(items[1 + i] == old_items[1 + i]);
                    let c = choose|c: Seq<char>|
                        old_items[1 + i] == #[trigger] tool_message(self.calls@[i].id@, c, self.runs@[i].ok);
                    assert(items[1 + i] == tool_message(self.calls@[i].id@, c, self.runs@[i].ok));
                } else {
                    assert(items[1 + i] == tool_message(self.calls@[i].id@, content@, ok));
                }
            }
        }
    }

    /// Goes on with the next tool call: interrupted, refused or run. After the last
    /// one the round is complete.
    pub fn next_tool(&mut self, interrupt: &mut bool) -> (a: IterationAction)
        requires
            old(self).valid(),
            old(self).point == IterationPoint::Checkpoint,
        ensures
            final(self).valid(),
            final(self).step == old(self).step,
            final(self).calls == old(self).calls,
            ({
                let at = old(self).runs@.len() as int;
                let call = old(self).calls@[at];
                if at >= old(self).calls@.len() {
                    &&& *final(interrupt) == *old(interrupt)
                    &&& final(self).point == IterationPoint::Over
                    &&& a matches IterationAction::Done(Ok(IterationOutcome::Completed(c)))
                    &&& c.iteration_id == old(self).step.iteration_id
                    &&& c.kind matches CompletedKind::Tools(t)
                    &&& t.appended.0@ == old(self).appended.0@
                    &&& t.runs@ == old(self).runs@
                    &&& t.runs@.len() == old(self).calls@.len()
                    &&& answers_calls(
                        t.appended.0@->Arr_0,
                        t.runs@,
                        old(self).calls@,
                        old(self).step.allowed_tools,
                    )
                } else if *old(interrupt) {
                    &&& !*final(interrupt)
                    &&& final(self).point == IterationPoint::Over
                    &&& a matches IterationAction::Done(Ok(IterationOutcome::Preempted(p)))
                    &&& p.iteration_id == old(self).step.iteration_id
                    &&& p.checkpoint == IterationCheckpoint::BeforeTool
                    &&& p.produced matches Some(m) && m.0@ == old(self).appended.0@
                } else if is_blocked(old(self).step.allowed_tools, call.name@) {
                    &&& !*final(interrupt)
                    &&& old(self).answered(*final(self), refusal(call.name@), false, true)
                    &&& a == IterationAction::Checkpoint
                } else {
                    &&& !*final(interrupt)
                    &&& final(self).point == IterationPoint::Tool
                    &&& final(self).appended == old(self).appended
                    &&& final(self).runs == old(self).runs
                    &&& a matches IterationAction::Invoke(c) && c@ == call@
                }
            }),
    {
        let at: usize = self.runs.len();
        if at >= self.calls.len() {
            let mut appended = AppendedMessages::empty();
            std::mem::swap(&mut appended, &mut self.appended);
            let mut runs: Vec<ToolRun> = Vec::new();
            std::mem::swap(&mut runs, &mut self.runs);
            self.point = IterationPoint::Over;
            return IterationAction::Done(
                Ok(
                    IterationOutcome::Completed(
                        CompletedOutcome {
                            iteration_id: self.step.iteration_id,
                            kind: CompletedKind::Tools(ToolsOutcome { appended, runs }),
                        },
                    ),
                ),
            );
        }
        let produced = self.appended.as_produced_snapshot();
        match check_preempt_at_checkpoint(
            interrupt,
            self.step.iteration_id,
            IterationCheckpoint::BeforeTool,
            produced,
        ) {
            Some(outcome) => {
                self.point = IterationPoint::Over;
                return IterationAction::Done(Ok(IterationOutcome::Preempted(outcome)));
            },
            None => {},
        }
        let blocked = match &self.step.allowed_tools {
            Some(allowed) => !allowed.contains(self.calls[at].name.as_str()),
            None => false,
        };
        if blocked {
            let content = blocked_tool_message(self.calls[at].name.as_str());
            self.record(content.as_str(), false, true);
            return IterationAction::Checkpoint;
        }
        self.point = IterationPoint::Tool;
        let call = &self.calls[at];
        IterationAction::Invoke(
            ToolCall { id: call.id.clone(), name: call.name.clone(), arguments_json: call.arguments_json.clone() },
        )
    }

    /// A tool has run. What it gave answers the call; a call that could not be
    /// carried out fails the round.
    pub fn on_tool(&mut self, result: Result<ToolOutput, ToolError>) -> (a: IterationAction)
        requires
            old(self).valid(),
            old(self).point == IterationPoint::Tool,
        ensures
            final(self).valid(),
            final(self).step == old(self).step,
            final(self).calls == old(self).calls,
            match result {
                Ok(output) => {
                    &&& old(self).answered(*final(self), output.output@, output.ok, false)
                    &&& a == IterationAction::Checkpoint
                },
                Err(e) => {
                    &&& *final(self) == (IterationLoop { point: IterationPoint::Over, ..*old(self) })
                    &&& a == IterationAction::Done(Err(IterationLoopError::Tool(e)))
                },
            },
    {
        match result {
            Ok(output) => {
                self.record(output.output.as_str(), output.ok, false);
                IterationAction::Checkpoint
            },
            Err(e) => {
                self.point = IterationPoint::Over;
                IterationAction::Done(Err(IterationLoopError::Tool(e)))
            },
        }
    }
}

/// The names of tool calls as they are shown.
pub open spec fn shown_names(calls: Seq<ToolCallV>) -> Seq<Seq<char>> {
    calls.map_values(|c: ToolCallV| shown_name(c.name))
}

/// The names of tool calls for the log.
pub fn tool_call_names(response: &LlmResponse) -> (r: Vec<String>)
    ensures
        crate::text::views(r@) == shown_names(calls_view(response.tool_calls@)),
{
    let mut names: Vec<String> = Vec::new();
    let mut i: usize = 0;
    while i < response.tool_calls.len()
        invariant
            i <= response.tool_calls@.len(),
            names@.len() == i,
            forall|k: int| 0 <= k < i ==> (#[trigger] names@[k])@ == shown_name(response.tool_calls@[k].name@),
        decreases response.tool_calls@.len() - i,
    {
        names.push(show_name(response.tool_calls[i].name.as_str()));
        i = i + 1;
    }
    assert(crate::text::views(names@) =~= shown_names(calls_view(response.tool_calls@)));
    names
}

/// Whether some message of `items` answers the tool call `id`.
pub open spec fn is_answered(items: Seq<JsonV>, id: Seq<char>) -> bool {
    exists|k: int| 0 <= k < items.len() && str_member(#[trigger] items[k], "tool_call_id"@) == Some(id)
}

/// Whether `id` is the id of a tool call in the message `m`.
pub open spec fn calls_tool(m: JsonV, id: Seq<char>) -> bool {
    arr_member(m, "tool_calls"@) matches Some(calls) && exists|j: int|
        0 <= j < calls.len() && str_member(#[trigger] calls[j], "id"@) == Some(id)
}

/// Whether some tool call in the messages has no answer among them.
pub open spec fn dangling(items: Seq<JsonV>) -> bool {
    exists|i: int, id: Seq<char>|
        0 <= i < items.len() && #[trigger] calls_tool(items[i], id) && !is_answered(items, id)
}

/// Tells whether some tool call in a list of messages has no answer in it.
pub fn has_dangling_tool_calls(patch: &Json) -> (r: bool)
    ensures
        r == (match patch@ {
            JsonV::Arr(items) => dangling(items),
            _ => false,
        }),
{
    let items = match patch.as_array() {
        Some(items) => items,
        None => {
            return false;
        },
    };
    let ghost all = items_view(items@);
    let mut i: usize = 0;
    while i < items.len()
        invariant
            all == items_view(items@),
            patch@ == JsonV::Arr(all),
            i <= items@.len(),
            forall|k: int, id: Seq<char>|
                0 <= k < i && #[trigger] calls_tool(all[k], id) ==> is_answered(all, id),
        decreases items@.len() - i,
    {
        assert(all[i as int] == items@[i as int]@);
        if let Some(calls) = items[i].get_array("tool_calls") {
            let mut j: usize = 0;
            while j < calls.len()
                invariant
                    all == items_view(items@),
                    patch@ == JsonV::Arr(all),
                    i < items@.len(),
                    arr_member(all[i as int], "tool_calls"@) == Some(items_view(calls@)),
                    j <= calls@.len(),
                    forall|k: int|
                        0 <= k < j ==> (str_member(#[trigger] items_view(calls@)[k], "id"@) matches Some(id) ==> is_answered(
                            all,
                            id,
                        )),
                decreases calls@.len() - j,
            {
                if let Some(id) = calls[j].get_str("id") {
                    assert(items_view(calls@)[j as int] == calls@[j as int]@);
                    if !answers_id(items, id) {
                        assert(calls_tool(all[i as int], id@));
                        return true;
                    }
                }
                j = j + 1;
            }
            assert forall|id: Seq<char>| #[trigger] calls_tool(all[i as int], id) implies is_answered(all, id) by {
                let j = choose|j: int|
                    0 <= j < items_view(calls@).len() && str_member(#[trigger] items_view(calls@)[j], "id"@)
                        == Some(id);
                assert(str_member(items_view(calls@)[j], "id"@) == Some(id));
            }
        }
        i = i + 1;
    }
    false
}

fn answers_id(items: &Vec<Json>, id: &str) -> (r: bool)
    ensures
        r == is_answered(items_view(items@), id@),
{
    let ghost all = items_view(items@);
    let mut i: usize = 0;
    while i < items.len()
        invariant
            all == items_view(items@),
            i <= items@.len(),
            forall|k: int| 0 <= k < i ==> str_member(#[trigger] all[k], "tool_call_id"@) != Some(id@),
        decreases items@.len() - i,
    {
        assert(all[i as int] == items@[i as int]@);
        if let Some(other) = items[i].get_str("tool_call_id") {
            if crate::text::str_eq(other, id) {
                assert(str_member(all[i as int], "tool_call_id"@) == Some(id@));
                return true;
            }
        }
        i = i + 1;
    }
    false
}

/// The messages of a complete round leave no tool call unanswered: where every id
/// in the assistant message is one of the calls, none dangles.
pub proof fn law_complete_round_answers_every_call(
    items: Seq<JsonV>,
    runs: Seq<ToolRun>,
    calls: Seq<ToolCall>,
    allowed: Option<AllowedTools>,
)
    requires
        answers_calls(items, runs, calls, allowed),
        runs.len() == calls.len(),
        forall|id: Seq<char>|
            #[trigger] calls_tool(items[0], id) ==> exists|j: int| 0 <= j < calls.len() && (#[trigger] calls[j]).id@ == id,
    ensures
        !dangling(items),
{
    reveal_strlit("role");
    reveal_strlit("tool_call_id");
    reveal_strlit("content");
    reveal_strlit("is_error");
    reveal_strlit("tool_calls");
    assert forall|i: int, id: Seq<char>|
        0 <= i < items.len() && #[trigger] calls_tool(items[i], id) implies is_answered(items, id) by {
        if i == 0 {
            let j = choose|j: int| 0 <= j < calls.len() && (#[trigger] calls[j]).id@ == id;
            assert(runs[j].name@ == shown_name(calls[j].name@));
            let content = choose|c: Seq<char>| items[1 + j] == #[trigger] tool_message(calls[j].id@, c, runs[j].ok);
            assert("tool_call_id"@ != "content"@ && "tool_call_id"@ != "is_error"@) by {
                assert("tool_call_id"@.len() == 12);
                assert("content"@.len() == 7);
                assert("is_error"@.len() == 8);
            }
            assert(str_member(items[1 + j], "tool_call_id"@) == Some(id));
        } else {
            let k = i - 1;
            assert(runs[k].name@ == shown_name(calls[k].name@));
            let content = choose|c: Seq<char>| items[1 + k] == #[trigger] tool_message(calls[k].id@, c, runs[k].ok);
            assert("tool_calls"@.len() == 10);
            assert("role"@.len() == 4);
            assert("tool_call_id"@.len() == 12);
            assert("content"@.len() == 7);
            assert("is_error"@.len() == 8);
            assert(arr_member(items[i], "tool_calls"@) is None);
        }
    }
}

/// The message that answers a call is a tool's, names the call, and is marked as an error
/// exactly where the call did not succeed.
pub proof fn law_tool_message_answers_its_call(id: Seq<char>, content: Seq<char>, ok: bool)
    ensures
        member(tool_message(id, content, ok), "role"@) == Some(JsonV::Str("tool"@)),
        member(tool_message(id, content, ok), "tool_call_id"@) == Some(JsonV::Str(id)),
        member(tool_message(id, content, ok), "content"@) == Some(JsonV::Str(content)),
        ok ==> member(tool_message(id, content, ok), "is_error"@) == Some(JsonV::Bool(false)),
        !ok ==> member(tool_message(id, content, ok), "is_error"@) == Some(JsonV::Bool(true)),
{
    reveal_strlit("role");
    reveal_strlit("tool_call_id");
    reveal_strlit("content");
    reveal_strlit("is_error");
    assert("role"@.len() == 4 && "tool_call_id"@.len() == 12 && "content"@.len() == 7 && "is_error"@.len() == 8);
}

/// An answered call is noted behind those before it: its message answers it with what
/// the tool said, and the record says which tool it was and how it went.
pub proof fn law_answer_is_noted_last(before: IterationLoop, after: IterationLoop, content: Seq<char>, ok: bool, blocked: bool)
    requires
        before.answered(after, content, ok, blocked),
        before.runs@.len() < before.calls@.len(),
        before.appended.0@ is Arr,
        before.appended.0@->Arr_0.len() == 1 + before.runs@.len(),
    ensures
        ({
            let call = before.calls@[before.runs@.len() as int];
            let said = after.appended.0@->Arr_0;
            &&& after.appended.0@ is Arr
            &&& said.len() == 2 + before.runs@.len()
            &&& before.appended.0@->Arr_0.is_prefix_of(said)
            &&& member(said.last(), "role"@) == Some(JsonV::Str("tool"@))
            &&& member(said.last(), "tool_call_id"@) == Some(JsonV::Str(call.id@))
            &&& member(said.last(), "content"@) == Some(JsonV::Str(content))
            &&& member(said.last(), "is_error"@) == Some(JsonV::Bool(!ok))
            &&& after.runs@.len() == before.runs@.len() + 1
            &&& after.runs@.last().ok == ok
            &&& after.runs@.last().blocked == blocked
            &&& call.name@.len() > 0 ==> after.runs@.last().name@ == call.name@
            &&& call.name@.len() == 0 ==> after.runs@.last().name@ == "(null)"@
            &&& after.calls == before.calls
        }),
{
    law_tool_message_answers_its_call(before.calls@[before.runs@.len() as int].id@, content, ok);
}

/// A tool is refused exactly where tools are limited and it is not among those allowed.
/// Its call is answered as one that failed: the answer names the tool and says that it
/// was not executed.
pub proof fn law_refused_call_is_answered(
    items: Seq<JsonV>,
    runs: Seq<ToolRun>,
    calls: Seq<ToolCall>,
    allowed: Option<AllowedTools>,
    i: int,
)
    requires
        answers_calls(items, runs, calls, allowed),
        0 <= i < runs.len(),
    ensures
        runs[i].blocked <==> (allowed matches Some(names) && !names@.contains(calls[i].name@)),
        member(items[1 + i], "role"@) == Some(JsonV::Str("tool"@)),
        member(items[1 + i], "tool_call_id"@) == Some(JsonV::Str(calls[i].id@)),
        member(items[1 + i], "is_error"@) == Some(JsonV::Bool(!runs[i].ok)),
        runs[i].blocked ==> !runs[i].ok,
        runs[i].blocked && calls[i].name@.len() > 0 ==> member(items[1 + i], "content"@) == Some(
            JsonV::Str(
                "Tool \""@ + calls[i].name@
                    + "\" is not available in the current phase and was not executed. This is a policy restriction, not a transient error: do not retry it. Use one of the tools listed as available in the latest instructions instead."@,
            ),
        ),
        calls[i].name@.len() > 0 ==> runs[i].name@ == calls[i].name@,
{
    let content = choose|content: Seq<char>| items[1 + i] == #[trigger] tool_message(calls[i].id@, content, runs[i].ok);
    assert(runs[i].name@ == shown_name(calls[i].name@));
    law_tool_message_answers_its_call(calls[i].id@, content, runs[i].ok);
    law_tool_message_answers_its_call(calls[i].id@, refusal(calls[i].name@), false);
}

/// A round that is interrupted before it brought anything says where, under its own id,
/// and brings nothing.
pub proof fn law_interrupted_round_says_where(round: IterationLoop, checkpoint: IterationCheckpoint)
    ensures
        round.preempted(checkpoint) matches IterationAction::Done(Ok(IterationOutcome::Preempted(p))) && {
            &&& p.iteration_id == round.step.iteration_id
            &&& p.checkpoint == checkpoint
            &&& p.produced is None
        },
{
}

/// A failed chat counts as an interruption where one was asked for, or where the
/// transport says that it was aborted; any other failure is a failure.
pub proof fn law_aborted_chat_is_an_interruption(interrupt: bool, e: ChatError)
    ensures
        interrupt ==> chat_preempted(interrupt, e),
        e.kind == ChatErrorKind::Transport && has_substring(e.message@, "aborted"@) ==> chat_preempted(interrupt, e),
        !interrupt && e.kind != ChatErrorKind::Transport ==> !chat_preempted(interrupt, e),
        !interrupt && !has_substring(e.message@, "aborted"@) ==> !chat_preempted(interrupt, e),
{
}

/// The assistant's message of a round with calls is the one that the model gave; it is an
/// error where it gave none, and another where it cannot be read.
pub proof fn law_assistant_message_is_as_given(raw: Option<Seq<char>>)
    ensures
        raw is None || raw->Some_0.len() == 0 ==> assistant_message(raw) == Err::<JsonV, IterationLoopError>(
            IterationLoopError::MissingAssistantMessage,
        ),
        raw is Some && raw->Some_0.len() > 0 && json_parse(raw->Some_0) is Err ==> assistant_message(raw) == Err::<
            JsonV,
            IterationLoopError,
        >(IterationLoopError::MalformedAssistantMessage),
        raw is Some && raw->Some_0.len() > 0 ==> (json_parse(raw->Some_0) matches Ok(m) ==> assistant_message(raw)
            == Ok::<JsonV, IterationLoopError>(m)),
{
}

/// A call is left open exactly where a message of the list makes it and none answers it.
pub proof fn law_open_call_has_no_answer(items: Seq<JsonV>, i: int, calls: Seq<JsonV>, j: int, id: Seq<char>)
    requires
        0 <= i < items.len(),
        arr_member(items[i], "tool_calls"@) == Some(calls),
        0 <= j < calls.len(),
        member(calls[j], "id"@) == Some(JsonV::Str(id)),
        forall|k: int| 0 <= k < items.len() ==> member(#[trigger] items[k], "tool_call_id"@) != Some(JsonV::Str(id)),
    ensures
        dangling(items),
{
    assert(str_member(calls[j], "id"@) == Some(id));
    assert(calls_tool(items[i], id));
    assert(!is_answered(items, id)) by {
        if is_answered(items, id) {
            let k = choose|k: int| 0 <= k < items.len() && str_member(#[trigger] items[k], "tool_call_id"@) == Some(id);
            assert(member(items[k], "tool_call_id"@) == Some(JsonV::Str(id)));
        }
    }
}

/// Messages none of which makes a call leave none open.
pub proof fn law_no_call_is_open_where_none_is_made(items: Seq<JsonV>)
    requires
        forall|i: int| 0 <= i < items.len() ==> arr_member(#[trigger] items[i], "tool_calls"@) is None,
    ensures
        !dangling(items),
{
    if dangling(items) {
        let (i, id) = choose|i: int, id: Seq<char>|
            0 <= i < items.len() && #[trigger] calls_tool(items[i], id) && !is_answered(items, id);
        assert(arr_member(items[i], "tool_calls"@) is None);
    }
}

/// The tools of a round are shown by name in the order of its calls, and one without a
/// name as none.
pub proof fn law_calls_are_shown_by_name(calls: Seq<ToolCallV>, i: int)
    requires
        0 <= i < calls.len(),
    ensures
        shown_names(calls).len() == calls.len(),
        calls[i].name.len() > 0 ==> shown_names(calls)[i] == calls[i].name,
        calls[i].name.len() == 0 ==> shown_names(calls)[i] == "(null)"@,
{
}

/// What goes wrong in a round is said in words, and what a chat or a tool says in its own.
pub proof fn law_broken_round_says_why(e: IterationLoopError)
    ensures
        e is MessagesNotArray ==> e.text() == "messages must be a JSON array"@,
        e is MissingAssistantMessage ==> e.text() == "LLM tool-call response missing raw assistant message JSON"@,
        e is MalformedAssistantMessage ==> e.text() == "LLM raw assistant message JSON is not valid JSON"@,
        e is MissingTools ==> e.text() == "LLM issued tool calls but no tools port was supplied"@,
        e matches IterationLoopError::Chat(c) ==> e.text() == c.message@,
        e matches IterationLoopError::Tool(t) ==> e.text() == t.text(),
        e is MessagesNotArray ==> e.debug_text() == "MessagesNotArray"@,
        e is MissingAssistantMessage ==> e.debug_text() == "MissingAssistantMessage"@,
        e is MalformedAssistantMessage ==> e.debug_text() == "MalformedAssistantMessage"@,
        e is MissingTools ==> e.debug_text() == "MissingTools"@,
        e matches IterationLoopError::Chat(c) ==> e.debug_text() == "Chat("@ + c.debug_text() + ")"@,
        e matches IterationLoopError::Tool(t) ==> e.debug_text() == "Tool("@ + t.debug_text() + ")"@,
{
}

} // verus!
