//! What the backends share.

use vstd::prelude::*;

use super::types::{
    calls_view, llm_error, reply_view, LlmError, LlmErrorV, LlmResponse, LlmResponseV, ToolCall, ToolCallV,
};
use crate::errname::ESP_FAIL;
use crate::json::{
    arr_member, items_view, json_parse, json_text, member, parse_json, render_json, str_member, Json, JsonV,
};
use crate::text::{opt_view, str_eq};

verus! {

/// Whether `s` ends with a slash.
pub open spec fn ends_with_slash(s: Seq<char>) -> bool {
    s.len() > 0 && s.last() == '/'
}

/// Whether `s` starts with a slash.
pub open spec fn starts_with_slash(s: Seq<char>) -> bool {
    s.len() > 0 && s[0] == '/'
}

/// `base` and `path` with exactly one slash at the seam where both or none have one.
pub open spec fn url_join(base: Seq<char>, path: Seq<char>) -> Seq<char> {
    if ends_with_slash(base) && starts_with_slash(path) {
        base + path.drop_first()
    } else if !ends_with_slash(base) && !starts_with_slash(path) {
        base + "/"@ + path
    } else {
        base + path
    }
}

/// Whether `s` starts with a slash.
pub fn has_leading_slash(s: &str) -> (r: bool)
    ensures
        r == starts_with_slash(s@),
{
    s.unicode_len() > 0 && s.get_char(0) == '/'
}

/// Joins a base URL and a path.
pub fn join_url(base_url: &str, path: &str) -> (r: String)
    ensures
        r@ == url_join(base_url@, path@),
{
    let n: usize = base_url.unicode_len();
    let base_has_slash = n > 0 && base_url.get_char(n - 1) == '/';
    let path_has_slash = has_leading_slash(path);
    let mut r = base_url.to_owned();
    if base_has_slash && path_has_slash {
        let k: usize = path.unicode_len();
        r.append(path.substring_char(1, k));
    } else if !base_has_slash && !path_has_slash {
        r.append("/");
        r.append(path);
    } else {
        r.append(path);
    }
    r
}

/// At the seam of a joined URL stands one slash, never two and never none.
pub proof fn law_one_slash_at_the_seam(base: Seq<char>, path: Seq<char>)
    ensures
        exists|k: int|
            0 <= k < url_join(base, path).len() && url_join(base, path)[k] == '/' && url_join(base, path).subrange(
                0,
                k,
            ) == (if ends_with_slash(base) {
                base.drop_last()
            } else {
                base
            }) && url_join(base, path).subrange(k + 1, url_join(base, path).len() as int) == (if starts_with_slash(
                path,
            ) {
                path.drop_first()
            } else {
                path
            }),
{
    reveal_strlit("/");
    let w = url_join(base, path);
    let k = if ends_with_slash(base) {
        base.len() - 1
    } else {
        base.len() as int
    };
    let front = if ends_with_slash(base) {
        base.drop_last()
    } else {
        base
    };
    let back = if starts_with_slash(path) {
        path.drop_first()
    } else {
        path
    };
    assert(w[k] == '/');
    assert(w.subrange(0, k) =~= front);
    assert(w.subrange(k + 1, w.len() as int) =~= back);
}

/// The first choice's message of a chat-completions answer.
pub open spec fn first_message(root: JsonV) -> Option<JsonV> {
    match arr_member(root, "choices"@) {
        Some(a) => if a.len() > 0 {
            member(a[0], "message"@)
        } else {
            None
        },
        None => None,
    }
}

/// A tool call in the form of a chat-completions answer.
pub open spec fn openai_call(tc: JsonV) -> Option<ToolCallV> {
    match (str_member(tc, "id"@), member(tc, "function"@)) {
        (Some(id), Some(f)) => match (str_member(f, "name"@), str_member(f, "arguments"@)) {
            (Some(name), Some(args)) => Some(ToolCallV { id, name, arguments_json: args }),
            _ => None,
        },
        _ => None,
    }
}

/// The first `n` tool calls, where each of them is well formed.
pub open spec fn openai_calls(a: Seq<JsonV>, n: nat) -> Option<Seq<ToolCallV>>
    decreases n,
{
    if n == 0 || n > a.len() {
        Some(Seq::empty())
    } else {
        match (openai_calls(a, (n - 1) as nat), openai_call(a[n - 1])) {
            (Some(s), Some(c)) => Some(s.push(c)),
            _ => None,
        }
    }
}

/// The text of the string member `key`, where it is not empty.
pub open spec fn nonempty_str_member(v: JsonV, key: Seq<char>) -> Option<Seq<char>> {
    match str_member(v, key) {
        Some(s) => if s.len() > 0 {
            Some(s)
        } else {
            None
        },
        None => None,
    }
}

/// The tool calls of a message; a message without them has none.
pub open spec fn message_calls(m: JsonV) -> Option<Seq<ToolCallV>> {
    match arr_member(m, "tool_calls"@) {
        Some(a) => openai_calls(a, a.len()),
        None => Some(Seq::empty()),
    }
}

/// What a chat-completions answer says.
pub open spec fn openai_reply(root: JsonV) -> Result<LlmResponseV, LlmErrorV> {
    let fail = ESP_FAIL as int;
    match first_message(root) {
        Some(m) => if !(m is Obj) {
            Err(llm_error(fail, "LLM response missing message"@))
        } else if str_member(m, "role"@) != Some("assistant"@) {
            Err(llm_error(fail, "LLM response message is not assistant"@))
        } else {
            match json_text(m) {
                None => Err(llm_error(fail, "Out of memory copying LLM raw message"@)),
                Some(raw) => match message_calls(m) {
                    None => Err(llm_error(fail, "Malformed tool call in LLM response"@)),
                    Some(calls) => if nonempty_str_member(m, "content"@) is None && calls.len() == 0 {
                        Err(llm_error(fail, "LLM returned empty text response"@))
                    } else {
                        Ok(
                            LlmResponseV {
                                text: nonempty_str_member(m, "content"@),
                                reasoning_content: str_member(m, "reasoning_content"@),
                                raw_message_json: Some(raw),
                                tool_calls: calls,
                            },
                        )
                    },
                },
            }
        },
        None => Err(llm_error(fail, "LLM response missing message"@)),
    }
}

/// The first choice's message.
fn get_first_message(root: &Json) -> (r: Option<&Json>)
    ensures
        match r {
            Some(m) => first_message(root@) == Some(m@),
            None => first_message(root@) is None,
        },
{
    match root.get_array("choices") {
        Some(a) => {
            if a.len() > 0 {
                a[0].get("message")
            } else {
                None
            }
        },
        None => None,
    }
}

fn read_openai_call(tc: &Json) -> (r: Option<ToolCall>)
    ensures
        match r {
            Some(c) => openai_call(tc@) == Some(c@),
            None => openai_call(tc@) is None,
        },
{
    let id = match tc.get_str("id") {
        Some(id) => id,
        None => {
            return None;
        },
    };
    let function = match tc.get("function") {
        Some(f) => f,
        None => {
            return None;
        },
    };
    match (function.get_str("name"), function.get_str("arguments")) {
        (Some(name), Some(args)) => Some(
            ToolCall { id: id.to_owned(), name: name.to_owned(), arguments_json: args.to_owned() },
        ),
        _ => None,
    }
}

proof fn lemma_calls_fail(a: Seq<JsonV>, n: nat, k: nat)
    requires
        n <= k <= a.len(),
        openai_calls(a, n) is None,
    ensures
        openai_calls(a, k) is None,
    decreases k - n,
{
    if n < k {
        lemma_calls_fail(a, n, (k - 1) as nat);
    }
}

fn read_openai_calls(a: &Vec<Json>) -> (r: Option<Vec<ToolCall>>)
    ensures
        match r {
            Some(c) => openai_calls(items_view(a@), a@.len()) == Some(calls_view(c@)),
            None => openai_calls(items_view(a@), a@.len()) is None,
        },
{
    let mut out: Vec<ToolCall> = Vec::new();
    let mut i: usize = 0;
    assert(calls_view(out@) =~= Seq::<ToolCallV>::empty());
    while i < a.len()
        invariant
            i <= a@.len(),
            openai_calls(items_view(a@), i as nat) == Some(calls_view(out@)),
        decreases a@.len() - i,
    {
        match read_openai_call(&a[i]) {
            Some(c) => {
                let ghost before = out@;
                out.push(c);
                assert(calls_view(out@) =~= calls_view(before).push(c@));
            },
            None => {
                proof {
                    lemma_calls_fail(items_view(a@), (i + 1) as nat, a@.len());
                }
                return None;
            },
        }
        i = i + 1;
    }
    Some(out)
}

/// The text of the string member `key`, where it is not empty.
pub fn nonempty_text(m: &Json, key: &str) -> (r: Option<String>)
    ensures
        opt_view(r) == nonempty_str_member(m@, key@),
{
    match m.get_str(key) {
        Some(s) => if s.is_empty() {
            None
        } else {
            Some(s.to_owned())
        },
        None => None,
    }
}

/// Reads a parsed chat-completions answer.
pub fn read_openai_reply(root: &Json) -> (r: Result<LlmResponse, LlmError>)
    ensures
        reply_view(r) == openai_reply(root@),
{
    let message = match get_first_message(root) {
        Some(m) => m,
        None => {
            return Err(LlmError::fail("LLM response missing message"));
        },
    };
    if !message.is_object() {
        return Err(LlmError::fail("LLM response missing message"));
    }
    let is_assistant = match message.get_str("role") {
        Some(role) => str_eq(role, "assistant"),
        None => false,
    };
    if !is_assistant {
        return Err(LlmError::fail("LLM response message is not assistant"));
    }
    let raw = match render_json(message) {
        Some(raw) => raw,
        None => {
            return Err(LlmError::fail("Out of memory copying LLM raw message"));
        },
    };
    let text = nonempty_text(message, "content");
    let reasoning_content = match message.get_str("reasoning_content") {
        Some(s) => Some(s.to_owned()),
        None => None,
    };
    let calls: Option<Vec<ToolCall>> = match message.get_array("tool_calls") {
        Some(a) => read_openai_calls(a),
        None => {
            let none: Vec<ToolCall> = Vec::new();
            assert(calls_view(none@) =~= Seq::<ToolCallV>::empty());
            Some(none)
        },
    };
    let tool_calls = match calls {
        Some(c) => c,
        None => {
            return Err(LlmError::fail("Malformed tool call in LLM response"));
        },
    };
    if text.is_none() && tool_calls.len() == 0 {
        return Err(LlmError::new(ESP_FAIL, "LLM returned empty text response"));
    }
    Ok(LlmResponse { text, reasoning_content, raw_message_json: Some(raw), tool_calls })
}

/// What the body of a chat-completions answer says.
pub open spec fn openai_body_reply(body: Seq<char>) -> Result<LlmResponseV, LlmErrorV> {
    match json_parse(body) {
        Ok(root) => openai_reply(root),
        Err(_) => Err(llm_error(ESP_FAIL as int, "Failed to parse LLM JSON response"@)),
    }
}

/// Parses the body of a chat-completions answer.
pub fn parse_openai_chat_response(body: &str) -> (r: Result<LlmResponse, LlmError>)
    ensures
        reply_view(r) == openai_body_reply(body@),
{
    match parse_json(body) {
        Ok(root) => read_openai_reply(&root),
        Err(_) => Err(LlmError::fail("Failed to parse LLM JSON response")),
    }
}

/// An accepted answer has a text or at least one tool call, and its text is never empty.
pub proof fn law_openai_reply_is_not_empty(root: JsonV)
    ensures
        openai_reply(root) matches Ok(r) ==> (r.text is Some || r.tool_calls.len() > 0) && (r.text matches Some(
            t,
        ) ==> t.len() > 0) && r.raw_message_json is Some,
{
}

proof fn lemma_openai_calls_len(a: Seq<JsonV>, n: nat)
    requires
        n <= a.len(),
    ensures
        openai_calls(a, n) matches Some(calls) ==> calls.len() == n,
    decreases n,
{
    if n > 0 {
        lemma_openai_calls_len(a, (n - 1) as nat);
    }
}

proof fn lemma_openai_calls_at(a: Seq<JsonV>, n: nat, i: int)
    requires
        0 <= i < n <= a.len(),
    ensures
        openai_calls(a, n) matches Some(calls) ==> {
            &&& calls.len() == n
            &&& str_member(a[i], "id"@) == Some(calls[i].id)
            &&& member(a[i], "function"@) is Some
            &&& str_member(member(a[i], "function"@)->Some_0, "name"@) == Some(calls[i].name)
            &&& str_member(member(a[i], "function"@)->Some_0, "arguments"@) == Some(calls[i].arguments_json)
        },
    decreases n,
{
    lemma_openai_calls_len(a, n);
    lemma_openai_calls_len(a, (n - 1) as nat);
    if i < n - 1 {
        lemma_openai_calls_at(a, (n - 1) as nat, i);
    }
}

/// An accepted answer has as many calls as its message lists, in order: each with the id,
/// the function's name and the arguments of its own item.
pub proof fn law_openai_calls_are_the_listed_ones(
    root: JsonV,
    choices: Seq<JsonV>,
    message: JsonV,
    listed: Seq<JsonV>,
    reply: LlmResponseV,
    i: int,
)
    requires
        openai_reply(root) == Ok::<LlmResponseV, LlmErrorV>(reply),
        arr_member(root, "choices"@) == Some(choices),
        choices.len() > 0,
        member(choices[0], "message"@) == Some(message),
        arr_member(message, "tool_calls"@) == Some(listed),
    ensures
        reply.tool_calls.len() == listed.len(),
        0 <= i < listed.len() ==> {
            &&& member(listed[i], "id"@) == Some(JsonV::Str(reply.tool_calls[i].id))
            &&& member(listed[i], "function"@) matches Some(function) && {
                &&& member(function, "name"@) == Some(JsonV::Str(reply.tool_calls[i].name))
                &&& member(function, "arguments"@) == Some(JsonV::Str(reply.tool_calls[i].arguments_json))
            }
        },
{
    lemma_openai_calls_len(listed, listed.len());
    if 0 <= i < listed.len() {
        lemma_openai_calls_at(listed, listed.len(), i);
    }
}

/// An accepted answer is what the assistant said in the first choice: its text where
/// there is any, its thoughts, its calls, none where none are listed, and the whole
/// message as it came.
pub proof fn law_openai_reply_says_what_the_message_says(
    root: JsonV,
    choices: Seq<JsonV>,
    message: JsonV,
    reply: LlmResponseV,
)
    requires
        openai_reply(root) == Ok::<LlmResponseV, LlmErrorV>(reply),
        arr_member(root, "choices"@) == Some(choices),
        choices.len() > 0,
        member(choices[0], "message"@) == Some(message),
    ensures
        member(message, "role"@) == Some(JsonV::Str("assistant"@)),
        reply.raw_message_json is Some,
        reply.raw_message_json == json_text(message),
        reply.text matches Some(text) ==> member(message, "content"@) == Some(JsonV::Str(text)) && text.len() > 0,
        reply.text is None ==> !(member(message, "content"@) matches Some(JsonV::Str(text)) && text.len() > 0),
        reply.reasoning_content matches Some(thought) ==> member(message, "reasoning_content"@) == Some(
            JsonV::Str(thought),
        ),
        reply.reasoning_content is None ==> !(member(message, "reasoning_content"@) matches Some(JsonV::Str(_))),
        arr_member(message, "tool_calls"@) is None ==> reply.tool_calls.len() == 0,
{
}

/// An answer with no message, one that is not the assistant's, one with a call that lacks
/// an id, a name or arguments, and one that says nothing are refused, each with what is
/// wrong; every other whose message can be printed is accepted.
pub proof fn law_openai_reply_is_refused(root: JsonV, choices: Seq<JsonV>, message: JsonV)
    requires
        arr_member(root, "choices"@) == Some(choices),
        choices.len() > 0,
        member(choices[0], "message"@) == Some(message),
        json_text(message) is Some,
    ensures
        !(message is Obj) ==> openai_reply(root) == Err::<LlmResponseV, LlmErrorV>(
            LlmErrorV { err: ESP_FAIL as int, message: "LLM response missing message"@ },
        ),
        message is Obj && member(message, "role"@) != Some(JsonV::Str("assistant"@)) ==> openai_reply(root) == Err::<
            LlmResponseV,
            LlmErrorV,
        >(LlmErrorV { err: ESP_FAIL as int, message: "LLM response message is not assistant"@ }),
        member(message, "role"@) == Some(JsonV::Str("assistant"@)) && message_calls(message) is None ==> openai_reply(
            root,
        ) == Err::<LlmResponseV, LlmErrorV>(
            LlmErrorV { err: ESP_FAIL as int, message: "Malformed tool call in LLM response"@ },
        ),
        member(message, "role"@) == Some(JsonV::Str("assistant"@)) && message_calls(message) is Some ==> {
            let says = member(message, "content"@) matches Some(JsonV::Str(text)) && text.len() > 0;
            let calls = arr_member(message, "tool_calls"@) matches Some(listed) && listed.len() > 0;
            &&& openai_reply(root) is Ok <==> says || calls
            &&& !(says || calls) ==> openai_reply(root) == Err::<LlmResponseV, LlmErrorV>(
                LlmErrorV { err: ESP_FAIL as int, message: "LLM returned empty text response"@ },
            )
        },
{
    if let Some(listed) = arr_member(message, "tool_calls"@) {
        lemma_openai_calls_len(listed, listed.len());
    }
}

/// A listed call is malformed exactly where it lacks an id, a function, or the function's
/// name or arguments.
pub proof fn law_malformed_call_is_refused(message: JsonV, listed: Seq<JsonV>)
    requires
        arr_member(message, "tool_calls"@) == Some(listed),
    ensures
        message_calls(message) is Some <==> forall|i: int|
            0 <= i < listed.len() ==> {
                &&& str_member(#[trigger] listed[i], "id"@) is Some
                &&& member(listed[i], "function"@) matches Some(function) && str_member(function, "name"@) is Some
                    && str_member(function, "arguments"@) is Some
            },
{
    if message_calls(message) is Some {
        assert forall|i: int| 0 <= i < listed.len() implies {
            &&& str_member(#[trigger] listed[i], "id"@) is Some
            &&& member(listed[i], "function"@) matches Some(function) && str_member(function, "name"@) is Some
                && str_member(function, "arguments"@) is Some
        } by {
            lemma_openai_calls_at(listed, listed.len(), i);
        }
    } else {
        lemma_openai_calls_broken(listed, listed.len());
    }
}

proof fn lemma_openai_calls_broken(a: Seq<JsonV>, n: nat)
    requires
        n <= a.len(),
        openai_calls(a, n) is None,
    ensures
        exists|i: int|
            0 <= i < n && !(str_member(#[trigger] a[i], "id"@) is Some && (member(a[i], "function"@) matches Some(
                function,
            ) && str_member(function, "name"@) is Some && str_member(function, "arguments"@) is Some)),
    decreases n,
{
    if openai_calls(a, (n - 1) as nat) is None {
        lemma_openai_calls_broken(a, (n - 1) as nat);
    } else {
        assert(openai_call(a[n - 1]) is None);
    }
}

} // verus!
