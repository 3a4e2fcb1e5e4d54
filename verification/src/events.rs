//! Outbound and stage events.
//!
//! Events are made here as data; publishing them is up to the caller, who also
//! says what time it is.

use vstd::prelude::*;

use crate::consts::{
    ResponseStatus, REQUEST_FLAG_PUBLISH_OUT_MESSAGE, REQUEST_FLAG_PUBLISH_STAGE_MESSAGE,
};
use crate::errname::{EspErr, ESP_ERR_INVALID_ARG};
use crate::json::{json_text, member, render_json, Json, JsonV, Num};
use crate::llm::types::{calls_view, ToolCall, ToolCallV};
use crate::request::{RequestItem, ResponseItem};
use crate::text::{decimal, decimal_i64, decimal_u64, opt_view, signed_decimal};

verus! {

/// How events relate to sessions.
#[derive(Clone, Copy, Debug, PartialEq, Eq, Structural)]
pub enum SessionPolicy {
    Chat,
    Trigger,
    Global,
    Ephemeral,
    NoSave,
}

/// An event.
#[derive(Debug, PartialEq, Eq)]
pub struct ClawEvent {
    pub event_id: String,
    pub source_cap: String,
    pub event_type: String,
    pub source_channel: String,
    pub chat_id: String,
    pub message_id: String,
    pub correlation_id: String,
    pub content_type: String,
    pub timestamp_ms: i64,
    pub session_policy: SessionPolicy,
    pub text: Option<String>,
    pub payload_json: Option<String>,
}

/// What an event holds.
#[verifier::ext_equal]
pub struct EventV {
    pub event_id: Seq<char>,
    pub source_cap: Seq<char>,
    pub event_type: Seq<char>,
    pub source_channel: Seq<char>,
    pub chat_id: Seq<char>,
    pub message_id: Seq<char>,
    pub correlation_id: Seq<char>,
    pub content_type: Seq<char>,
    pub timestamp_ms: int,
    pub session_policy: SessionPolicy,
    pub text: Option<Seq<char>>,
    pub payload_json: Option<Seq<char>>,
}

impl View for ClawEvent {
    type V = EventV;

    open spec fn view(&self) -> EventV {
        EventV {
            event_id: self.event_id@,
            source_cap: self.source_cap@,
            event_type: self.event_type@,
            source_channel: self.source_channel@,
            chat_id: self.chat_id@,
            message_id: self.message_id@,
            correlation_id: self.correlation_id@,
            content_type: self.content_type@,
            timestamp_ms: self.timestamp_ms as int,
            session_policy: self.session_policy,
            text: opt_view(self.text),
            payload_json: opt_view(self.payload_json),
        }
    }
}

/// A text, where there is one that is not empty.
pub open spec fn nonempty_opt(o: Option<String>) -> Option<Seq<char>> {
    match o {
        Some(s) => if s@.len() > 0 {
            Some(s@)
        } else {
            None
        },
        None => None,
    }
}

/// A text, where there is one that is not empty.
pub fn non_empty(o: &Option<String>) -> (r: Option<&str>)
    ensures
        match r {
            Some(s) => nonempty_opt(*o) == Some(s@),
            None => nonempty_opt(*o) is None,
        },
{
    match o {
        Some(s) => if s.as_str().is_empty() {
            None
        } else {
            Some(s.as_str())
        },
        None => None,
    }
}

/// The first choice where it is not empty, else the second, else nothing.
pub open spec fn routed(first: Option<String>, second: Option<String>) -> Seq<char> {
    match nonempty_opt(first) {
        Some(s) => s,
        None => match second {
            Some(t) => t@,
            None => Seq::empty(),
        },
    }
}

fn route<'a>(first: &'a Option<String>, second: &'a Option<String>) -> (r: &'a str)
    ensures
        r@ == routed(*first, *second),
{
    proof {
        reveal_strlit("");
        assert(""@ =~= Seq::<char>::empty());
    }
    match non_empty(first) {
        Some(s) => s,
        None => match second {
            Some(t) => t.as_str(),
            None => "",
        },
    }
}

/// The event that every message shares, where nothing that it needs is empty.
pub open spec fn common_event(
    prefix: Seq<char>,
    event_type: Seq<char>,
    request_id: u32,
    now: int,
    channel: Seq<char>,
    chat_id: Seq<char>,
    text: Seq<char>,
) -> Option<EventV> {
    if prefix.len() == 0 || event_type.len() == 0 || channel.len() == 0 || chat_id.len() == 0 || text.len() == 0 {
        None
    } else {
        Some(
            EventV {
                event_id: prefix + "-"@ + decimal(request_id as nat) + "-"@ + signed_decimal(now),
                source_cap: "claw_core"@,
                event_type,
                source_channel: channel,
                chat_id,
                message_id: Seq::empty(),
                correlation_id: Seq::empty(),
                content_type: "text"@,
                timestamp_ms: now,
                session_policy: SessionPolicy::Chat,
                text: Some(text),
                payload_json: None,
            },
        )
    }
}

fn build_common(
    prefix: &str,
    event_type: &str,
    request_id: u32,
    now: i64,
    channel: &str,
    chat_id: &str,
    text: &str,
) -> (r: Option<ClawEvent>)
    ensures
        match r {
            Some(e) => common_event(prefix@, event_type@, request_id, now as int, channel@, chat_id@, text@)
                == Some(e@),
            None => common_event(prefix@, event_type@, request_id, now as int, channel@, chat_id@, text@) is None,
        },
{
    if prefix.is_empty() || event_type.is_empty() || channel.is_empty() || chat_id.is_empty() || text.is_empty() {
        return None;
    }
    let mut event_id = prefix.to_owned();
    event_id.append("-");
    event_id.append(decimal_u64(request_id as u64).as_str());
    event_id.append("-");
    event_id.append(decimal_i64(now).as_str());
    Some(
        ClawEvent {
            event_id,
            source_cap: "claw_core".to_owned(),
            event_type: event_type.to_owned(),
            source_channel: channel.to_owned(),
            chat_id: chat_id.to_owned(),
            message_id: String::new(),
            correlation_id: String::new(),
            content_type: "text".to_owned(),
            timestamp_ms: now,
            session_policy: SessionPolicy::Chat,
            text: Some(text.to_owned()),
            payload_json: None,
        },
    )
}

/// The payload of an outbound message.
pub open spec fn response_payload(request_id: u32, status: ResponseStatus, error: Option<Seq<char>>) -> JsonV {
    let base = Map::empty().insert("request_id"@, JsonV::Num(Num::Unsigned(request_id as u64))).insert(
        "status"@,
        JsonV::Str(
            match status {
                ResponseStatus::Success => "ok"@,
                ResponseStatus::Error => "error"@,
            },
        ),
    );
    JsonV::Obj(
        match error {
            Some(e) => base.insert("error_message"@, JsonV::Str(e)),
            None => base,
        },
    )
}

/// The payload of an outbound message, printed.
pub fn build_response_payload_json(request: &RequestItem, response: &ResponseItem) -> (r: Option<String>)
    ensures
        opt_view(r) == json_text(
            response_payload(request.request_id, response.status, nonempty_opt(response.error_message)),
        ),
{
    let status = match response.status {
        ResponseStatus::Success => "ok",
        ResponseStatus::Error => "error",
    };
    let mut payload = Json::object().with("request_id", Json::unsigned(request.request_id as u64)).with(
        "status",
        Json::text(status),
    );
    if let Some(err) = non_empty(&response.error_message) {
        payload = payload.with("error_message", Json::text(err));
    }
    render_json(&payload)
}

/// What an outbound message says: the text of a success, the error of a failure.
pub open spec fn out_text(response: ResponseItem) -> Option<Seq<char>> {
    match response.status {
        ResponseStatus::Success => nonempty_opt(response.text),
        ResponseStatus::Error => nonempty_opt(response.error_message),
    }
}

/// The outbound message of a response, where the request asks for one and there
/// is something to say and somewhere to say it.
pub open spec fn out_message(request: RequestItem, response: ResponseItem, now: int) -> Option<EventV> {
    if request.flags & REQUEST_FLAG_PUBLISH_OUT_MESSAGE == 0 {
        None
    } else {
        match out_text(response) {
            None => None,
            Some(text) => match common_event(
                "agent"@,
                "out_message"@,
                request.request_id,
                now,
                routed(response.target_channel, request.source_channel),
                routed(response.target_chat_id, request.source_chat_id),
                text,
            ) {
                None => None,
                Some(e) => Some(
                    EventV {
                        message_id: "agent-"@ + decimal(request.request_id as nat),
                        correlation_id: match nonempty_opt(request.source_message_id) {
                            Some(id) => id,
                            None => decimal(request.request_id as nat),
                        },
                        payload_json: json_text(
                            response_payload(
                                request.request_id,
                                response.status,
                                nonempty_opt(response.error_message),
                            ),
                        ),
                        ..e
                    },
                ),
            },
        }
    }
}

/// The outbound message of a response, if it is to be published.
pub fn out_message_if_requested(request: &RequestItem, response: &ResponseItem, now: i64) -> (r: Option<ClawEvent>)
    ensures
        match r {
            Some(e) => out_message(*request, *response, now as int) == Some(e@),
            None => out_message(*request, *response, now as int) is None,
        },
{
    if request.flags & REQUEST_FLAG_PUBLISH_OUT_MESSAGE == 0 {
        return None;
    }
    let text = match response.status {
        ResponseStatus::Success => non_empty(&response.text),
        ResponseStatus::Error => non_empty(&response.error_message),
    };
    let text = match text {
        Some(t) => t,
        None => {
            return None;
        },
    };
    let channel = route(&response.target_channel, &request.source_channel);
    let chat_id = route(&response.target_chat_id, &request.source_chat_id);
    let mut event = match build_common("agent", "out_message", request.request_id, now, channel, chat_id, text) {
        Some(e) => e,
        None => {
            return None;
        },
    };
    let number = decimal_u64(request.request_id as u64);
    let mut message_id = "agent-".to_owned();
    message_id.append(number.as_str());
    event.message_id = message_id;
    event.correlation_id = match non_empty(&request.source_message_id) {
        Some(id) => id.to_owned(),
        None => number,
    };
    event.payload_json = build_response_payload_json(request, response);
    Some(event)
}

/// What is published for a stage text: an error code, nothing, or an event.
pub open spec fn stage_event(request: RequestItem, text: Seq<char>, now: int) -> Result<Option<EventV>, int> {
    if text.len() == 0 {
        Err(ESP_ERR_INVALID_ARG as int)
    } else if request.flags & REQUEST_FLAG_PUBLISH_STAGE_MESSAGE == 0 {
        Ok(None)
    } else {
        match common_event(
            "stage"@,
            "agent_stage"@,
            request.request_id,
            now,
            routed(request.target_channel, request.source_channel),
            routed(request.target_chat_id, request.source_chat_id),
            text,
        ) {
            Some(e) => Ok(Some(e)),
            None => Err(ESP_ERR_INVALID_ARG as int),
        }
    }
}

/// The event of a stage text. Nothing is published for a request that does not
/// ask for stage messages.
pub fn stage_text_event(request: &RequestItem, text: &str, now: i64) -> (r: Result<Option<ClawEvent>, EspErr>)
    ensures
        match r {
            Ok(Some(e)) => stage_event(*request, text@, now as int) == Ok::<Option<EventV>, int>(Some(e@)),
            Ok(None) => stage_event(*request, text@, now as int) == Ok::<Option<EventV>, int>(None),
            Err(code) => stage_event(*request, text@, now as int) == Err::<Option<EventV>, int>(code as int),
        },
{
    if text.is_empty() {
        return Err(ESP_ERR_INVALID_ARG);
    }
    if request.flags & REQUEST_FLAG_PUBLISH_STAGE_MESSAGE == 0 {
        return Ok(None);
    }
    let channel = route(&request.target_channel, &request.source_channel);
    let chat_id = route(&request.target_chat_id, &request.source_chat_id);
    match build_common("stage", "agent_stage", request.request_id, now, channel, chat_id, text) {
        Some(e) => Ok(Some(e)),
        None => Err(ESP_ERR_INVALID_ARG),
    }
}

/// The stage text that shows a note of a round.
pub open spec fn round_note(round: nat, note: Seq<char>) -> Seq<char> {
    "\u{1F99E} [Round "@ + decimal(round + 1) + "] "@ + note
}

/// The stage text that shows a note of a round; rounds are shown from one on.
pub fn stage_note_text(round_index: u32, note: &str) -> (r: String)
    ensures
        r@ == round_note(round_index as nat, note@),
{
    let mut r = "\u{1F99E} [Round ".to_owned();
    r.append(decimal_u64(round_index as u64 + 1).as_str());
    r.append("] ");
    r.append(note);
    r
}

/// How one tool call is shown: its name, and its arguments up to forty
/// characters, with dots where they take more than forty bytes.
pub open spec fn shown_call(c: ToolCallV) -> Seq<char> {
    let name = if c.name.len() == 0 {
        "?"@
    } else {
        c.name
    };
    if c.arguments_json.len() == 0 {
        name
    } else {
        let shown = if c.arguments_json.len() > 40 {
            c.arguments_json.take(40)
        } else {
            c.arguments_json
        };
        let dots = if vstd::utf8::encode_utf8(c.arguments_json).len() > 40 {
            "..."@
        } else {
            Seq::empty()
        };
        name + "("@ + shown + dots + ")"@
    }
}

/// The first `n` tool calls with commas between them.
pub open spec fn shown_calls(calls: Seq<ToolCallV>, n: nat) -> Seq<char>
    decreases n,
{
    if n == 0 || n > calls.len() {
        Seq::empty()
    } else if n == 1 {
        shown_call(calls[0])
    } else {
        shown_calls(calls, (n - 1) as nat) + ", "@ + shown_call(calls[n - 1])
    }
}

fn show_call(c: &ToolCall) -> (r: String)
    ensures
        r@ == shown_call(c@),
{
    let mut r = if c.name.as_str().is_empty() {
        "?".to_owned()
    } else {
        c.name.clone()
    };
    let args = c.arguments_json.as_str();
    if args.is_empty() {
        return r;
    }
    r.append("(");
    let n: usize = args.unicode_len();
    if n > 40 {
        r.append(args.substring_char(0, 40));
        assert(c.arguments_json@.subrange(0, 40) =~= c.arguments_json@.take(40));
    } else {
        r.append(args);
    }
    if args.as_bytes().len() > 40 {
        r.append("...");
    } else {
        assert(r@ + Seq::<char>::empty() =~= r@);
    }
    r.append(")");
    r
}

/// The stage text that shows the tool calls of a round.
pub fn stage_tool_calls_text(iteration: u32, calls: &Vec<ToolCall>) -> (r: String)
    ensures
        r@ == "\u{1F99E} [Round "@ + decimal(iteration as nat + 1) + "] Snap: "@ + shown_calls(
            calls_view(calls@),
            calls@.len(),
        ),
{
    let mut r = "\u{1F99E} [Round ".to_owned();
    r.append(decimal_u64(iteration as u64 + 1).as_str());
    r.append("] Snap: ");
    let ghost head = r@;
    let ghost all = calls_view(calls@);
    let mut i: usize = 0;
    assert(head + shown_calls(all, 0) =~= head);
    while i < calls.len()
        invariant
            i <= calls@.len(),
            all == calls_view(calls@),
            r@ == head + shown_calls(all, i as nat),
        decreases calls@.len() - i,
    {
        let ghost before = r@;
        if i > 0 {
            r.append(", ");
        }
        let shown = show_call(&calls[i]);
        r.append(shown.as_str());
        proof {
            assert(all[i as int] == calls@[i as int]@);
            if i == 0 {
                assert(r@ =~= head + shown_calls(all, 1));
            } else {
                assert(r@ =~= head + shown_calls(all, (i + 1) as nat));
            }
        }
        i = i + 1;
    }
    r
}

/// An answer is published with its own words: those of the answer where it succeeded, and
/// what went wrong where it did not. It goes where the response is meant to go, and where
/// nothing is said of that, back where the request came from. It names the request, and
/// answers the message that the request came with.
pub proof fn law_out_message_carries_the_answer(request: RequestItem, response: ResponseItem, now: int, e: EventV)
    requires
        out_message(request, response, now) == Some(e),
    ensures
        request.flags & REQUEST_FLAG_PUBLISH_OUT_MESSAGE != 0,
        response.status is Success ==> response.text is Some && e.text == Some(response.text->Some_0@),
        response.status is Error ==> response.error_message is Some && e.text == Some(
            response.error_message->Some_0@,
        ),
        e.text->Some_0.len() > 0,
        response.target_channel is Some && response.target_channel->Some_0@.len() > 0 ==> e.source_channel
            == response.target_channel->Some_0@,
        response.target_channel is None || response.target_channel->Some_0@.len() == 0
            ==> request.source_channel is Some && e.source_channel == request.source_channel->Some_0@,
        response.target_chat_id is Some && response.target_chat_id->Some_0@.len() > 0 ==> e.chat_id
            == response.target_chat_id->Some_0@,
        response.target_chat_id is None || response.target_chat_id->Some_0@.len() == 0
            ==> request.source_chat_id is Some && e.chat_id == request.source_chat_id->Some_0@,
        e.source_channel.len() > 0,
        e.chat_id.len() > 0,
        e.event_type == "out_message"@,
        e.source_cap == "claw_core"@,
        e.content_type == "text"@,
        e.session_policy == SessionPolicy::Chat,
        e.timestamp_ms == now,
        e.event_id == "agent"@ + "-"@ + decimal(request.request_id as nat) + "-"@ + signed_decimal(now),
        e.message_id == "agent-"@ + decimal(request.request_id as nat),
        request.source_message_id is Some && request.source_message_id->Some_0@.len() > 0 ==> e.correlation_id
            == request.source_message_id->Some_0@,
        request.source_message_id is None || request.source_message_id->Some_0@.len() == 0 ==> e.correlation_id
            == decimal(request.request_id as nat),
{
}

/// An answer is published exactly where the request asks for it, there are words to say,
/// and there is somewhere to say them.
pub proof fn law_out_message_is_published_where_asked(request: RequestItem, response: ResponseItem, now: int)
    requires
        request.source_channel is Some,
        request.source_channel->Some_0@.len() > 0,
        request.source_chat_id is Some,
        request.source_chat_id->Some_0@.len() > 0,
    ensures
        out_message(request, response, now) is Some <==> {
            &&& request.flags & REQUEST_FLAG_PUBLISH_OUT_MESSAGE != 0
            &&& response.status is Success ==> response.text is Some && response.text->Some_0@.len() > 0
            &&& response.status is Error ==> response.error_message is Some && response.error_message->Some_0@.len()
                > 0
        },
{
    reveal_strlit("agent");
    reveal_strlit("out_message");
}

/// What goes with a published answer names the request, says whether it succeeded, and
/// what went wrong where that is known.
pub proof fn law_payload_says_how_it_went(request_id: u32, status: ResponseStatus, error: Option<Seq<char>>)
    ensures
        ({
            let payload = response_payload(request_id, status, error);
            &&& member(payload, "request_id"@) == Some(JsonV::Num(Num::Unsigned(request_id as u64)))
            &&& status is Success ==> member(payload, "status"@) == Some(JsonV::Str("ok"@))
            &&& status is Error ==> member(payload, "status"@) == Some(JsonV::Str("error"@))
            &&& error is None ==> member(payload, "error_message"@) is None
            &&& error matches Some(m) ==> member(payload, "error_message"@) == Some(JsonV::Str(m))
        }),
{
    reveal_strlit("request_id");
    reveal_strlit("status");
    reveal_strlit("error_message");
    assert("request_id"@.len() == 10 && "status"@.len() == 6 && "error_message"@.len() == 13);
}

/// A note of a stage is published with its own words, exactly where the request asks for
/// it; it goes where the request wants its answers, and else back where it came from. One
/// without words, or with nowhere to go, is an error.
pub proof fn law_stage_note_is_published_where_asked(request: RequestItem, text: Seq<char>, now: int)
    ensures
        text.len() == 0 ==> stage_event(request, text, now) == Err::<Option<EventV>, int>(ESP_ERR_INVALID_ARG as int),
        text.len() > 0 && request.flags & REQUEST_FLAG_PUBLISH_STAGE_MESSAGE == 0 ==> stage_event(request, text, now)
            == Ok::<Option<EventV>, int>(None),
        text.len() > 0 && request.flags & REQUEST_FLAG_PUBLISH_STAGE_MESSAGE != 0 ==> {
            match stage_event(request, text, now) {
                Ok(Some(e)) => {
                    &&& e.text == Some(text)
                    &&& e.event_type == "agent_stage"@
                    &&& e.event_id == "stage"@ + "-"@ + decimal(request.request_id as nat) + "-"@ + signed_decimal(
                        now,
                    )
                    &&& e.timestamp_ms == now
                    &&& e.source_cap == "claw_core"@
                    &&& e.content_type == "text"@
                    &&& request.target_channel is Some && request.target_channel->Some_0@.len() > 0
                        ==> e.source_channel == request.target_channel->Some_0@
                    &&& request.target_channel is None || request.target_channel->Some_0@.len() == 0
                        ==> request.source_channel is Some && e.source_channel == request.source_channel->Some_0@
                    &&& request.target_chat_id is Some && request.target_chat_id->Some_0@.len() > 0 ==> e.chat_id
                        == request.target_chat_id->Some_0@
                    &&& request.target_chat_id is None || request.target_chat_id->Some_0@.len() == 0
                        ==> request.source_chat_id is Some && e.chat_id == request.source_chat_id->Some_0@
                    &&& e.payload_json is None
                },
                Ok(None) => false,
                Err(code) => {
                    &&& code == ESP_ERR_INVALID_ARG
                    &&& ({
                        ||| !(request.target_channel is Some && request.target_channel->Some_0@.len() > 0) && !(
                        request.source_channel is Some && request.source_channel->Some_0@.len() > 0)
                        ||| !(request.target_chat_id is Some && request.target_chat_id->Some_0@.len() > 0) && !(
                        request.source_chat_id is Some && request.source_chat_id->Some_0@.len() > 0)
                    })
                },
            }
        },
{
    reveal_strlit("stage");
    reveal_strlit("agent_stage");
}

/// The note of a round counts rounds from one and ends with what the round noted.
pub proof fn law_round_note_counts_from_one(round: nat, note: Seq<char>)
    ensures
        round_note(round, note) == "\u{1F99E} [Round "@ + decimal(round + 1) + "] "@ + note,
        note.is_suffix_of(round_note(round, note)),
{
    let whole = round_note(round, note);
    assert(whole.subrange(whole.len() - note.len(), whole.len() as int) =~= note);
}

/// A call is shown by its tool's name and its arguments, as far as they are short; a call
/// without arguments by the name alone, and one without a name as unknown.
pub proof fn law_call_is_shown_by_name_and_arguments(c: ToolCallV)
    requires
        c.name.len() > 0,
    ensures
        c.name.is_prefix_of(shown_call(c)),
        c.arguments_json.len() == 0 ==> shown_call(c) == c.name,
        c.arguments_json.len() > 0 && vstd::utf8::encode_utf8(c.arguments_json).len() <= 40
            && c.arguments_json.len() <= 40 ==> shown_call(c) == c.name + "("@ + c.arguments_json + ")"@,
        c.arguments_json.len() > 40 && vstd::utf8::encode_utf8(c.arguments_json).len() > 40 ==> shown_call(c) == c.name
            + "("@ + c.arguments_json.take(40) + "..."@ + ")"@,
{
    if c.arguments_json.len() > 0 && vstd::utf8::encode_utf8(c.arguments_json).len() <= 40
        && c.arguments_json.len() <= 40 {
        assert(c.name + "("@ + c.arguments_json + Seq::<char>::empty() + ")"@ =~= c.name + "("@ + c.arguments_json
            + ")"@);
    }
}

/// Calls are shown in order, with a comma between.
pub proof fn law_calls_are_shown_in_order(calls: Seq<ToolCallV>, n: nat)
    requires
        0 < n <= calls.len(),
    ensures
        n == 1 ==> shown_calls(calls, n) == shown_call(calls[0]),
        n > 1 ==> shown_calls(calls, n) == shown_calls(calls, (n - 1) as nat) + ", "@ + shown_call(calls[n - 1]),
        shown_call(calls[0]).is_prefix_of(shown_calls(calls, n)),
    decreases n,
{
    if n > 1 {
        law_calls_are_shown_in_order(calls, (n - 1) as nat);
    }
}

/// What goes with a published answer is its payload: the request, how it went, and what
/// went wrong where that is known.
pub proof fn law_out_message_brings_its_payload(request: RequestItem, response: ResponseItem, now: int, e: EventV)
    requires
        out_message(request, response, now) == Some(e),
    ensures
        exists|payload: JsonV|
            {
                &&& #[trigger] json_text(payload) == e.payload_json
                &&& member(payload, "request_id"@) == Some(JsonV::Num(Num::Unsigned(request.request_id as u64)))
                &&& response.status is Success ==> member(payload, "status"@) == Some(JsonV::Str("ok"@))
                &&& response.status is Error ==> member(payload, "status"@) == Some(JsonV::Str("error"@))
                &&& response.error_message is Some && response.error_message->Some_0@.len() > 0 ==> member(
                    payload,
                    "error_message"@,
                ) == Some(JsonV::Str(response.error_message->Some_0@))
                &&& response.error_message is None || response.error_message->Some_0@.len() == 0 ==> member(
                    payload,
                    "error_message"@,
                ) is None
            },
{
    let payload = response_payload(request.request_id, response.status, nonempty_opt(response.error_message));
    law_payload_says_how_it_went(request.request_id, response.status, nonempty_opt(response.error_message));
    assert(json_text(payload) == e.payload_json);
}

} // verus!
