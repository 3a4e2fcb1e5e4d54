//! The tools that every agent has, and what they set off.
//!
//! These tools do not act on the world: they end the conversation, ask a human
//! for a decision, have a subagent made, or pass a human's decision on.

use std::collections::VecDeque;

use vstd::prelude::*;

use super::agent::{dup_kinds, holds_kind, kind_names, kinds_view, AgentKind};
use crate::json::{json_parse, member, parse_json, str_member, Json, JsonV};
use crate::protocol::ids::{id_parse_result, wire_id, AgentId, IdParseError};
use crate::text::{
    blank, concat2, concat3, is_blank, join, joined, law_joining_keeps_order, law_trimming_cuts_white_space_only,
    opt_view, str_eq, trim, trimmed,
};
use crate::tools::{ToolError, ToolOutput, ToolSpec};

verus! {

pub const END_CONVERSATION: &'static str = "end_conversation";

pub const REQUEST_APPROVAL: &'static str = "request_approval";

pub const SPAWN_SUBAGENT: &'static str = "spawn_subagent";

pub const RESPOND_TO_APPROVAL: &'static str = "respond_to_approval";

/// What a tool tells the agent that runs it.
#[derive(Clone, Debug, PartialEq, Eq)]
pub enum ControlSignal {
    /// The agent is done; its last message.
    EndConversation { final_message: String },
    /// The agent wants a human decision; what it is about.
    ApprovalRequested { summary: String },
}

/// The text of the argument `key` of a call, empty where it is missing; or why
/// the arguments cannot be read. Blank arguments have no members.
pub open spec fn argument(arguments: Seq<char>, key: Seq<char>) -> Result<Seq<char>, Seq<char>> {
    if is_blank(arguments) {
        Ok(Seq::empty())
    } else {
        match json_parse(arguments) {
            Ok(v) => Ok(member_text(v, key)),
            Err(e) => Err("invalid tool arguments JSON: "@ + e),
        }
    }
}

/// The text of the member `key`, empty where it is missing or no text.
pub open spec fn member_text(v: JsonV, key: Seq<char>) -> Seq<char> {
    match str_member(v, key) {
        Some(s) => s,
        None => Seq::empty(),
    }
}

/// The text of the member `key` of parsed arguments.
pub fn member_or_empty(arguments: &Json, key: &str) -> (r: String)
    ensures
        r@ == member_text(arguments@, key@),
{
    match arguments.get_str(key) {
        Some(s) => s.to_owned(),
        None => String::new(),
    }
}

/// Reads a text argument of a call.
pub fn string_argument(arguments_json: &str, key: &str) -> (r: Result<String, ToolError>)
    ensures
        match r {
            Ok(s) => argument(arguments_json@, key@) == Ok::<Seq<char>, Seq<char>>(s@),
            Err(ToolError::InvokeFailed(m)) => argument(arguments_json@, key@) == Err::<Seq<char>, Seq<char>>(m@),
        },
{
    if blank(arguments_json) {
        return Ok(String::new());
    }
    match parse_json(arguments_json) {
        Ok(v) => Ok(member_or_empty(&v, key)),
        Err(e) => Err(ToolError::InvokeFailed(concat2("invalid tool arguments JSON: ", e.as_str()))),
    }
}

/// Whether arguments can be read at all.
pub fn ensure_valid_arguments_json(arguments_json: &str) -> (r: Result<(), ToolError>)
    ensures
        match r {
            Ok(_) => is_blank(arguments_json@) || json_parse(arguments_json@) is Ok,
            Err(ToolError::InvokeFailed(m)) => !is_blank(arguments_json@) && (json_parse(arguments_json@) matches Err(e)
                && m@ == "invalid tool arguments JSON: "@ + e),
        },
{
    if blank(arguments_json) {
        return Ok(());
    }
    match parse_json(arguments_json) {
        Ok(_) => Ok(()),
        Err(e) => Err(ToolError::InvokeFailed(concat2("invalid tool arguments JSON: ", e.as_str()))),
    }
}

/// The schema of the tool.
pub const END_CONVERSATION_SCHEMA: &'static str =
    "{\"type\":\"function\",\"function\":{\"name\":\"end_conversation\",\"description\":\"End the conversation.\",\"parameters\":{\"type\":\"object\",\"properties\":{\"final_message\":{\"type\":\"string\"}},\"required\":[\"final_message\"]}}}";

/// The schema of the tool.
pub const REQUEST_APPROVAL_SCHEMA: &'static str =
    "{\"type\":\"function\",\"function\":{\"name\":\"request_approval\",\"description\":\"Ask a human for a decision.\",\"parameters\":{\"type\":\"object\",\"properties\":{\"summary\":{\"type\":\"string\"}},\"required\":[\"summary\"]}}}";

/// The tools that every agent has.
pub fn internal_tool_group() -> (r: Vec<ToolSpec>)
    ensures
        crate::tools::tool_names(r@) == seq!["end_conversation"@, "request_approval"@],
        crate::tools::tool_schemas(r@) == seq![END_CONVERSATION_SCHEMA@, REQUEST_APPROVAL_SCHEMA@],
{
    let mut tools: Vec<ToolSpec> = Vec::new();
    tools.push(
        ToolSpec {
            name: END_CONVERSATION.to_owned(),
            schema: END_CONVERSATION_SCHEMA.to_owned(),
        },
    );
    tools.push(
        ToolSpec {
            name: REQUEST_APPROVAL.to_owned(),
            schema: REQUEST_APPROVAL_SCHEMA.to_owned(),
        },
    );
    assert(crate::tools::tool_names(tools@) =~= seq!["end_conversation"@, "request_approval"@]);
    assert(crate::tools::tool_schemas(tools@) =~= seq![END_CONVERSATION_SCHEMA@, REQUEST_APPROVAL_SCHEMA@]);
    tools
}

/// `end_conversation`: the agent ends the task on its own terms.
pub fn end_conversation(sink: &mut VecDeque<ControlSignal>, arguments_json: &str) -> (r: Result<ToolOutput, ToolError>)
    ensures
        match argument(arguments_json@, "final_message"@) {
            Ok(text) => {
                &&& r matches Ok(o) && o.ok && o.output@ == "Conversation ended."@
                &&& final(sink)@.len() == old(sink)@.len() + 1
                &&& final(sink)@.drop_last() == old(sink)@
                &&& final(sink)@.last() matches ControlSignal::EndConversation { final_message } && final_message@
                    == text
            },
            Err(e) => {
                &&& r matches Err(ToolError::InvokeFailed(m)) && m@ == e
                &&& final(sink)@ == old(sink)@
            },
        },
{
    match string_argument(arguments_json, "final_message") {
        Ok(final_message) => {
            sink.push_back(ControlSignal::EndConversation { final_message });
            assert(sink@.drop_last() =~= old(sink)@);
            Ok(ToolOutput { output: "Conversation ended.".to_owned(), ok: true })
        },
        Err(e) => Err(e),
    }
}

/// `request_approval`: the agent pauses for a human decision.
pub fn request_approval(sink: &mut VecDeque<ControlSignal>, arguments_json: &str) -> (r: Result<ToolOutput, ToolError>)
    ensures
        match argument(arguments_json@, "summary"@) {
            Ok(text) => {
                &&& r matches Ok(o) && o.ok && o.output@ == "Approval requested; awaiting a human decision."@
                &&& final(sink)@.len() == old(sink)@.len() + 1
                &&& final(sink)@.drop_last() == old(sink)@
                &&& final(sink)@.last() matches ControlSignal::ApprovalRequested { summary } && summary@ == text
            },
            Err(e) => {
                &&& r matches Err(ToolError::InvokeFailed(m)) && m@ == e
                &&& final(sink)@ == old(sink)@
            },
        },
{
    match string_argument(arguments_json, "summary") {
        Ok(summary) => {
            sink.push_back(ControlSignal::ApprovalRequested { summary });
            assert(sink@.drop_last() =~= old(sink)@);
            Ok(ToolOutput { output: "Approval requested; awaiting a human decision.".to_owned(), ok: true })
        },
        Err(e) => Err(e),
    }
}

/// Makes subagents. The owner of the agents implements it: it gives the child's
/// id at once, and makes the child when no agent runs.
pub trait Spawner: Sized {
    /// Whether the owner may note a request under the id `child` and be `after` then.
    open spec fn spawns(&self, parent: AgentId, kind: AgentKind, goal: String, child: AgentId, after: Self) -> bool {
        true
    }

    fn spawn(&mut self, parent: AgentId, kind: AgentKind, goal: String) -> (r: AgentId)
        ensures
            old(self).spawns(parent, kind, goal, r, *final(self)),
    ;
}

/// Which kinds an agent may have made.
#[derive(Debug, PartialEq, Eq)]
pub enum SpawnPolicy {
    Any,
    Only(Vec<AgentKind>),
}

impl SpawnPolicy {
    /// Whether a kind may be made.
    pub open spec fn permits(self, kind: Seq<char>) -> bool {
        match self {
            SpawnPolicy::Any => true,
            SpawnPolicy::Only(kinds) => kinds_view(kinds@).contains(kind),
        }
    }

    /// What may be made, in words.
    pub open spec fn words(self) -> Seq<char> {
        match self {
            SpawnPolicy::Any => "any kind"@,
            SpawnPolicy::Only(kinds) => if kinds@.len() == 0 {
                "(none)"@
            } else {
                joined(kinds_view(kinds@), ", "@)
            },
        }
    }

    /// The policy that a list of kinds stands for: a star among them permits any.
    pub fn from_allowed_kinds(allowed_kinds: &Vec<AgentKind>) -> (r: SpawnPolicy)
        ensures
            if kinds_view(allowed_kinds@).contains("*"@) {
                r == SpawnPolicy::Any
            } else {
                r matches SpawnPolicy::Only(kinds) && kinds_view(kinds@) == kinds_view(allowed_kinds@)
            },
    {
        if holds_kind(allowed_kinds, "*") {
            SpawnPolicy::Any
        } else {
            SpawnPolicy::Only(dup_kinds(allowed_kinds))
        }
    }

    pub fn allows(&self, kind: &AgentKind) -> (r: bool)
        ensures
            r == self.permits(kind@),
    {
        match self {
            SpawnPolicy::Any => true,
            SpawnPolicy::Only(kinds) => holds_kind(kinds, kind.as_str()),
        }
    }

    pub fn describe(&self) -> (r: String)
        ensures
            r@ == self.words(),
    {
        match self {
            SpawnPolicy::Any => "any kind".to_owned(),
            SpawnPolicy::Only(kinds) => {
                if kinds.len() == 0 {
                    return "(none)".to_owned();
                }
                let names = kind_names(kinds);
                join(&names, ", ")
            },
        }
    }
}

/// A star in the list permits every kind; without one, exactly the kinds listed.
pub proof fn law_policy_follows_the_list(allowed: Seq<AgentKind>, policy: SpawnPolicy, kind: Seq<char>)
    requires
        if kinds_view(allowed).contains("*"@) {
            policy == SpawnPolicy::Any
        } else {
            policy matches SpawnPolicy::Only(kinds) && kinds_view(kinds@) == kinds_view(allowed)
        },
    ensures
        policy.permits(kind) == (kinds_view(allowed).contains("*"@) || kinds_view(allowed).contains(kind)),
{
}

/// What a request for a subagent comes to.
#[derive(Debug, PartialEq, Eq)]
pub enum SpawnDecision {
    /// The kind is not permitted; what the model is told.
    Refused(String),
    /// A subagent of this kind is to be made for this goal.
    Spawn { kind: AgentKind, goal: String },
}

/// What the model is told of a kind that is not permitted.
pub open spec fn spawn_refusal(kind: Seq<char>, policy: SpawnPolicy) -> Seq<char> {
    "spawn_subagent: kind '"@ + kind + "' is not permitted for this agent. Allowed: "@ + policy.words()
        + ". This is a policy restriction, not a transient error: pick a permitted kind or handle the work yourself."@
}

/// Decides on a request for a subagent: the kind must be there and permitted.
pub fn spawn_decision(policy: &SpawnPolicy, arguments_json: &str) -> (r: Result<SpawnDecision, ToolError>)
    ensures
        match argument(arguments_json@, "kind"@) {
            Err(e) => r matches Err(ToolError::InvokeFailed(m)) && m@ == e,
            Ok(kind) => if is_blank(kind) {
                r matches Err(ToolError::InvokeFailed(m)) && m@ == "spawn_subagent requires a non-empty 'kind'"@
            } else if !policy.permits(kind) {
                r matches Ok(SpawnDecision::Refused(text)) && text@ == spawn_refusal(kind, *policy)
            } else {
                r matches Ok(SpawnDecision::Spawn { kind: k, goal }) && k@ == kind && argument(
                    arguments_json@,
                    "goal"@,
                ) == Ok::<Seq<char>, Seq<char>>(goal@)
            },
        },
{
    let kind = match string_argument(arguments_json, "kind") {
        Ok(kind) => kind,
        Err(e) => {
            return Err(e);
        },
    };
    if blank(kind.as_str()) {
        return Err(ToolError::InvokeFailed("spawn_subagent requires a non-empty 'kind'".to_owned()));
    }
    let kind = AgentKind::new(kind.as_str());
    if !policy.allows(&kind) {
        let mut text = "spawn_subagent: kind '".to_owned();
        text.append(kind.as_str());
        text.append("' is not permitted for this agent. Allowed: ");
        text.append(policy.describe().as_str());
        text.append(
            ". This is a policy restriction, not a transient error: pick a permitted kind or handle the work yourself.",
        );
        return Ok(SpawnDecision::Refused(text));
    }
    match string_argument(arguments_json, "goal") {
        Ok(goal) => Ok(SpawnDecision::Spawn { kind, goal }),
        Err(e) => Err(e),
    }
}

/// What the model is told of a subagent that will be made.
pub open spec fn spawned_text(child: AgentId) -> Seq<char> {
    "Subagent "@ + child.wire() + " requested; its result will be reported back when it finishes."@
}

pub fn spawned_output(child: AgentId) -> (r: ToolOutput)
    ensures
        r.ok,
        r.output@ == spawned_text(child),
{
    let wire = child.to_wire();
    ToolOutput {
        output: concat3(
            "Subagent ",
            wire.as_str(),
            " requested; its result will be reported back when it finishes.",
        ),
        ok: true,
    }
}

/// `spawn_subagent`: asks for a subagent. One that is refused is an answer that is
/// not `ok`, and the spawner is not asked.
pub fn spawn_subagent<S: Spawner>(spawner: &mut S, parent: AgentId, policy: &SpawnPolicy, arguments_json: &str) -> (r:
    Result<ToolOutput, ToolError>)
    ensures
        match argument(arguments_json@, "kind"@) {
            Err(e) => *final(spawner) == *old(spawner) && (r matches Err(ToolError::InvokeFailed(m)) && m@ == e),
            Ok(kind) => if is_blank(kind) {
                *final(spawner) == *old(spawner) && (r matches Err(ToolError::InvokeFailed(m)) && m@
                    == "spawn_subagent requires a non-empty 'kind'"@)
            } else if !policy.permits(kind) {
                *final(spawner) == *old(spawner) && (r matches Ok(o) && !o.ok && o.output@ == spawn_refusal(
                    kind,
                    *policy,
                ))
            } else {
                r matches Ok(o) && o.ok && exists|wanted: AgentKind, goal: String, child: AgentId|
                    {
                        &&& wanted@ == kind
                        &&& argument(arguments_json@, "goal"@) == Ok::<Seq<char>, Seq<char>>(goal@)
                        &&& #[trigger] old(spawner).spawns(parent, wanted, goal, child, *final(spawner))
                        &&& o.output@ == spawned_text(child)
                    }
            },
        },
{
    match spawn_decision(policy, arguments_json) {
        Err(e) => Err(e),
        Ok(SpawnDecision::Refused(text)) => Ok(ToolOutput { output: text, ok: false }),
        Ok(SpawnDecision::Spawn { kind, goal }) => {
            let child = spawner.spawn(parent, kind, goal);
            assert(old(spawner).spawns(parent, kind, goal, child, *spawner));
            Ok(spawned_output(child))
        },
    }
}

/// How a human's reply to an approval request was understood.
#[derive(Clone, Copy, Debug, PartialEq, Eq, Structural)]
pub enum ApprovalVerdict {
    Yes,
    No,
    /// Neither a clear yes nor a clear no: a rejection with the human's words.
    Other,
}

/// Passes verdicts on to the agents that wait for them. The owner of the agents implements it.
pub trait ApprovalResponder: Sized {
    /// Whether the owner may be `after` once it noted a verdict.
    open spec fn notes(&self, target: AgentId, verdict: ApprovalVerdict, note: Option<String>, after: Self) -> bool {
        true
    }

    fn respond(&mut self, target: AgentId, verdict: ApprovalVerdict, note: Option<String>)
        ensures
            old(self).notes(target, verdict, note, *final(self)),
    ;
}

/// The verdict that a word stands for.
pub open spec fn verdict_of(word: Seq<char>) -> Option<ApprovalVerdict> {
    if word == "yes"@ {
        Some(ApprovalVerdict::Yes)
    } else if word == "no"@ {
        Some(ApprovalVerdict::No)
    } else if word == "other"@ {
        Some(ApprovalVerdict::Other)
    } else {
        None
    }
}

/// A verdict to pass on, and what the model is told.
#[derive(Debug, PartialEq, Eq)]
pub struct ApprovalReply {
    pub target: AgentId,
    pub verdict: ApprovalVerdict,
    pub note: Option<String>,
    pub output: String,
}

/// What a report of a verdict comes to: the agent and the verdict must be there,
/// and a note counts where it is not blank.
pub open spec fn verdict_report(arguments: Seq<char>, r: Result<ApprovalReply, ToolError>) -> bool {
    match argument(arguments, "agent"@) {
        Err(e) => r matches Err(ToolError::InvokeFailed(m)) && m@ == e,
        Ok(agent) => if is_blank(trimmed(agent)) || wire_id(trimmed(agent), "agent-"@) is None {
            r matches Err(ToolError::InvokeFailed(m)) && exists|e: IdParseError|
                id_parse_result(Err(e), trimmed(agent), "agent-"@, "agent"@) && m@ == "invalid agent id '"@ + agent
                    + "': "@ + #[trigger] e.text()
        } else {
            match argument(arguments, "verdict"@) {
                Err(e) => r matches Err(ToolError::InvokeFailed(m)) && m@ == e,
                Ok(word) => match verdict_of(trimmed(word)) {
                    None => r matches Err(ToolError::InvokeFailed(m)) && m@
                        == "respond_to_approval 'verdict' must be one of yes|no|other, got '"@ + trimmed(word) + "'"@,
                    Some(verdict) => match argument(arguments, "note"@) {
                        Err(e) => r matches Err(ToolError::InvokeFailed(m)) && m@ == e,
                        Ok(note) => {
                            &&& r matches Ok(reply)
                            &&& wire_id(trimmed(agent), "agent-"@) == Some(reply.target.0)
                            &&& reply.verdict == verdict
                            &&& opt_view(reply.note) == (if is_blank(note) {
                                None
                            } else {
                                Some(note)
                            })
                            &&& reply.output@ == "Recorded '"@ + word + "' for "@ + reply.target.wire() + "."@
                        },
                    },
                },
            }
        },
    }
}

/// Reads a report of a verdict.
pub fn read_verdict(arguments_json: &str) -> (r: Result<ApprovalReply, ToolError>)
    ensures
        verdict_report(arguments_json@, r),
{
    let agent = match string_argument(arguments_json, "agent") {
        Ok(agent) => agent,
        Err(e) => {
            return Err(e);
        },
    };
    let target = match AgentId::from_wire(trim(agent.as_str())) {
        Ok(target) => target,
        Err(e) => {
            let mut text = "invalid agent id '".to_owned();
            text.append(agent.as_str());
            text.append("': ");
            text.append(e.message().as_str());
            assert(id_parse_result(Err(e), trimmed(agent@), "agent-"@, "agent"@));
            assert(text@ =~= "invalid agent id '"@ + agent@ + "': "@ + e.text());
            return Err(ToolError::InvokeFailed(text));
        },
    };
    let word = match string_argument(arguments_json, "verdict") {
        Ok(word) => word,
        Err(e) => {
            return Err(e);
        },
    };
    let trimmed_word = trim(word.as_str());
    let verdict = if str_eq(trimmed_word, "yes") {
        ApprovalVerdict::Yes
    } else if str_eq(trimmed_word, "no") {
        ApprovalVerdict::No
    } else if str_eq(trimmed_word, "other") {
        ApprovalVerdict::Other
    } else {
        return Err(
            ToolError::InvokeFailed(
                concat3(
                    "respond_to_approval 'verdict' must be one of yes|no|other, got '",
                    trimmed_word,
                    "'",
                ),
            ),
        );
    };
    let note_raw = match string_argument(arguments_json, "note") {
        Ok(note) => note,
        Err(e) => {
            return Err(e);
        },
    };
    let note = if blank(note_raw.as_str()) {
        None
    } else {
        Some(note_raw)
    };
    let mut output = "Recorded '".to_owned();
    output.append(word.as_str());
    output.append("' for ");
    output.append(target.to_wire().as_str());
    output.append(".");
    Ok(ApprovalReply { target, verdict, note, output })
}

/// `respond_to_approval`: reports how a human's reply was understood. A report
/// that cannot be read reaches nobody.
pub fn respond_to_approval<R: ApprovalResponder>(responder: &mut R, arguments_json: &str) -> (r: Result<
    ToolOutput,
    ToolError,
>)
    ensures
        exists|reply: Result<ApprovalReply, ToolError>|
            {
                &&& #[trigger] verdict_report(arguments_json@, reply)
                &&& match reply {
                    Ok(x) => (r matches Ok(o) && o.ok && o.output@ == x.output@) && old(responder).notes(
                        x.target,
                        x.verdict,
                        x.note,
                        *final(responder),
                    ),
                    Err(e) => r == Err::<ToolOutput, ToolError>(e) && *final(responder) == *old(responder),
                }
            },
{
    let reply = read_verdict(arguments_json);
    let ghost given = reply;
    assert(verdict_report(arguments_json@, given));
    match reply {
        Ok(x) => {
            responder.respond(x.target, x.verdict, x.note);
            Ok(ToolOutput { output: x.output, ok: true })
        },
        Err(e) => Err(e),
    }
}

/// The argument of a tool call is the text under its name, and is empty where the name is
/// missing or nothing was given; arguments that cannot be read are an error that says so.
pub proof fn law_argument_is_the_named_text(arguments: Seq<char>, key: Seq<char>)
    ensures
        is_blank(arguments) ==> argument(arguments, key) == Ok::<Seq<char>, Seq<char>>(Seq::empty()),
        !is_blank(arguments) ==> (json_parse(arguments) matches Err(e) ==> argument(arguments, key) == Err::<
            Seq<char>,
            Seq<char>,
        >("invalid tool arguments JSON: "@ + e)),
        !is_blank(arguments) ==> (json_parse(arguments) matches Ok(v) ==> argument(arguments, key) == Ok::<
            Seq<char>,
            Seq<char>,
        >(
            match member(v, key) {
                Some(JsonV::Str(text)) => text,
                _ => Seq::empty(),
            },
        )),
{
}

/// A verdict is read from its own word: yes, no, or other.
pub proof fn law_verdict_is_its_word(word: Seq<char>)
    ensures
        verdict_of(word) == Some(ApprovalVerdict::Yes) <==> word == "yes"@,
        verdict_of(word) == Some(ApprovalVerdict::No) <==> word == "no"@,
        verdict_of(word) == Some(ApprovalVerdict::Other) <==> word == "other"@,
        verdict_of(word) is None <==> word != "yes"@ && word != "no"@ && word != "other"@,
{
    reveal_strlit("yes");
    reveal_strlit("no");
    reveal_strlit("other");
    assert("yes"@.len() == 3 && "no"@.len() == 2 && "other"@.len() == 5);
}

/// A reply to an approval that can be read is passed on as it is: to the agent that it
/// names, with the verdict that it gives, and with its note where there is one.
pub proof fn law_reply_is_passed_on_as_it_is(arguments: Seq<char>, v: JsonV, agent: Seq<char>, word: Seq<char>, r: Result<ApprovalReply, ToolError>)
    requires
        verdict_report(arguments, r),
        !is_blank(arguments),
        json_parse(arguments) == Ok::<JsonV, Seq<char>>(v),
        member(v, "agent"@) == Some(JsonV::Str(agent)),
        member(v, "verdict"@) == Some(JsonV::Str(word)),
        wire_id(trimmed(agent), "agent-"@) is Some,
        !is_blank(trimmed(agent)),
    ensures
        r is Ok <==> trimmed(word) == "yes"@ || trimmed(word) == "no"@ || trimmed(word) == "other"@,
        r matches Ok(reply) ==> {
            &&& wire_id(trimmed(agent), "agent-"@) == Some(reply.target.0)
            &&& trimmed(word) == "yes"@ <==> reply.verdict is Yes
            &&& trimmed(word) == "no"@ <==> reply.verdict is No
            &&& trimmed(word) == "other"@ <==> reply.verdict is Other
            &&& member(v, "note"@) matches Some(JsonV::Str(note)) ==> {
                &&& is_blank(note) ==> reply.note is None
                &&& !is_blank(note) ==> (reply.note matches Some(kept) && kept@ == note)
            }
            &&& member(v, "note"@) is None ==> reply.note is None
            &&& reply.output@ == "Recorded '"@ + word + "' for "@ + reply.target.wire() + "."@
        },
        r matches Err(ToolError::InvokeFailed(m)) ==> m@
            == "respond_to_approval 'verdict' must be one of yes|no|other, got '"@ + trimmed(word) + "'"@,
{
    law_verdict_is_its_word(trimmed(word));
    law_argument_is_the_named_text(arguments, "agent"@);
    law_argument_is_the_named_text(arguments, "verdict"@);
    law_argument_is_the_named_text(arguments, "note"@);
    law_trimming_cuts_white_space_only(Seq::empty());
}

/// A subagent may be of any kind where every kind is allowed, and else of those that are
/// listed; what the model hears of another kind names it and the kinds that it may have.
pub proof fn law_refused_kind_is_named(policy: SpawnPolicy, kind: Seq<char>)
    ensures
        policy is Any ==> policy.permits(kind),
        policy matches SpawnPolicy::Only(kinds) ==> (policy.permits(kind) <==> exists|i: int|
            0 <= i < kinds@.len() && (#[trigger] kinds@[i])@ == kind),
        policy matches SpawnPolicy::Only(kinds) ==> kinds@.len() == 0 ==> spawn_refusal(kind, policy)
            == "spawn_subagent: kind '"@ + kind + "' is not permitted for this agent. Allowed: "@ + "(none)"@
            + ". This is a policy restriction, not a transient error: pick a permitted kind or handle the work yourself."@,
        policy matches SpawnPolicy::Only(kinds) ==> kinds@.len() == 1 ==> policy.words() == kinds@[0]@,
{
    if let SpawnPolicy::Only(kinds) = policy {
        let names = kinds_view(kinds@);
        if policy.permits(kind) {
            let i = choose|i: int| 0 <= i < names.len() && names[i] == kind;
            assert(kinds@[i]@ == kind);
        }
        if exists|i: int| 0 <= i < kinds@.len() && (#[trigger] kinds@[i])@ == kind {
            let i = choose|i: int| 0 <= i < kinds@.len() && (#[trigger] kinds@[i])@ == kind;
            assert(names[i] == kind);
        }
        if kinds@.len() == 1 {
            law_joining_keeps_order(names, names, ", "@);
        }
    }
}

/// What the model hears of a subagent that will be made names it.
pub proof fn law_new_subagent_is_named(child: AgentId)
    ensures
        spawned_text(child) == "Subagent "@ + child.wire()
            + " requested; its result will be reported back when it finishes."@,
{
}

} // verus!
