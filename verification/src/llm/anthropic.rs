//! The backend for the Anthropic Messages API.
//!
//! Converts chat-completions messages and tools to content blocks, and reads the
//! content-block answer back.

use vstd::prelude::*;

use super::backend::{BackendDefaults, BackendRegistration};
use super::common::{join_url, nonempty_str_member, nonempty_text, url_join};
use super::config::{check_config, config_error, str_or_empty, text_or_empty};
use super::media::{can_be_encoded, prepare_asset, prepared_asset, MediaFile};
use super::types::{
    calls_view, headers_view, llm_error, reply_view, ChatRequest, HttpJsonRequest, LlmError, LlmErrorV, LlmResponse,
    LlmResponseV, MediaRequest, ModelProfile, Prepared, PreparedKind, PreparedV, RuntimeConfig, ToolCall, ToolCallV,
};
use crate::errname::{ESP_ERR_INVALID_ARG, ESP_ERR_NOT_SUPPORTED, ESP_ERR_NO_MEM, ESP_FAIL};
use crate::json::{
    arr_member, items_view, json_parse, json_text, make_obj2, member, obj2, parse_json, render_json, str_member, Json,
    JsonV, Num,
};
use crate::text::{find, has_prefix, has_substring, occurs_at, opt_str_view, opt_view, str_eq, strip_prefix};

verus! {

pub const ID: &'static str = "anthropic_compatible";

pub const AUTH_TYPE: &'static str = "none";

pub const CHAT_PATH: &'static str = "/messages";

pub const DEFAULT_MAX_TOKENS_FIELD: &'static str = "max_tokens";

/// The name of this backend and its defaults.
pub fn registration() -> (r: BackendRegistration)
    ensures
        r.id@ == "anthropic_compatible"@,
        r.defaults.auth_type@ == "none"@,
        r.defaults.chat_path@ == "/messages"@,
        r.defaults.max_tokens_field@ == "max_tokens"@,
{
    BackendRegistration {
        id: ID,
        defaults: BackendDefaults {
            auth_type: AUTH_TYPE,
            chat_path: CHAT_PATH,
            max_tokens_field: DEFAULT_MAX_TOKENS_FIELD,
        },
    }
}

/// The backend: how it reaches the service.
pub struct Anthropic {
    pub api_key: String,
    pub model: String,
    pub base_url: String,
    pub timeout_ms: u32,
    pub max_tokens: u32,
    pub image_max_bytes: usize,
}

/// A text block.
pub open spec fn text_block(text: Seq<char>) -> JsonV {
    obj2("type"@, JsonV::Str("text"@), "text"@, JsonV::Str(text))
}

/// A thinking block.
pub open spec fn thinking_block(text: Seq<char>) -> JsonV {
    obj2("type"@, JsonV::Str("thinking"@), "thinking"@, JsonV::Str(text))
}

/// A message of one role with some blocks.
pub open spec fn block_message(role: Seq<char>, blocks: Seq<JsonV>) -> JsonV {
    obj2("role"@, JsonV::Str(role), "content"@, JsonV::Arr(blocks))
}

/// A block that asks for the tool `name`.
pub open spec fn tool_use(id: Seq<char>, name: Seq<char>, input: JsonV) -> JsonV {
    JsonV::Obj(
        Map::empty().insert("type"@, JsonV::Str("tool_use"@)).insert("id"@, JsonV::Str(id)).insert(
            "name"@,
            JsonV::Str(name),
        ).insert("input"@, input),
    )
}

/// The input of a tool block: the parsed arguments, or no members where they
/// are missing, empty or not JSON.
pub open spec fn tool_input(args: Option<Seq<char>>) -> JsonV {
    match args {
        Some(a) => if a.len() > 0 {
            match json_parse(a) {
                Ok(v) => v,
                Err(_) => JsonV::Obj(Map::empty()),
            }
        } else {
            JsonV::Obj(Map::empty())
        },
        None => JsonV::Obj(Map::empty()),
    }
}

/// The block for a tool call of a message; nothing where it lacks an id or a name.
pub open spec fn tool_use_of(tc: JsonV) -> Option<JsonV> {
    match (str_member(tc, "id"@), member(tc, "function"@)) {
        (Some(id), Some(f)) => match str_member(f, "name"@) {
            Some(name) => Some(tool_use(id, name, tool_input(str_member(f, "arguments"@)))),
            None => None,
        },
        _ => None,
    }
}

/// Whether a block is of a type that is passed on.
pub open spec fn supported_block(b: JsonV) -> bool {
    match str_member(b, "type"@) {
        Some(t) => t == "text"@ || t == "tool_use"@ || t == "tool_result"@ || t == "thinking"@ || t
            == "redacted_thinking"@,
        None => false,
    }
}

/// Of the first `n` blocks those that are passed on.
pub open spec fn supported_blocks(a: Seq<JsonV>, n: nat) -> Seq<JsonV>
    decreases n,
{
    if n == 0 || n > a.len() {
        Seq::empty()
    } else if supported_block(a[n - 1]) {
        supported_blocks(a, (n - 1) as nat).push(a[n - 1])
    } else {
        supported_blocks(a, (n - 1) as nat)
    }
}

/// The blocks that the content of a message gives.
pub open spec fn content_blocks(msg: JsonV) -> Seq<JsonV> {
    match member(msg, "content"@) {
        Some(JsonV::Str(s)) => if s.len() > 0 {
            seq![text_block(s)]
        } else {
            Seq::empty()
        },
        Some(JsonV::Arr(a)) => supported_blocks(a, a.len()),
        _ => Seq::empty(),
    }
}

/// The blocks for the first `n` tool calls, where each of them gives one.
pub open spec fn call_blocks(a: Seq<JsonV>, n: nat) -> Option<Seq<JsonV>>
    decreases n,
{
    if n == 0 || n > a.len() {
        Some(Seq::empty())
    } else {
        match (call_blocks(a, (n - 1) as nat), tool_use_of(a[n - 1])) {
            (Some(s), Some(b)) => Some(s.push(b)),
            _ => None,
        }
    }
}

/// The blocks of a user or assistant message; nothing where a tool call is malformed.
pub open spec fn message_blocks(role: Seq<char>, msg: JsonV) -> Option<Seq<JsonV>> {
    let content = content_blocks(msg);
    if role != "assistant"@ {
        Some(content)
    } else {
        let front = match nonempty_str_member(msg, "reasoning_content"@) {
            Some(r) => seq![thinking_block(r)] + content,
            None => content,
        };
        match arr_member(msg, "tool_calls"@) {
            Some(a) => match call_blocks(a, a.len()) {
                Some(c) => Some(front + c),
                None => None,
            },
            None => Some(front),
        }
    }
}

/// The block for the result of a tool.
pub open spec fn tool_result(msg: JsonV) -> JsonV {
    let id = match str_member(msg, "tool_call_id"@) {
        Some(s) => s,
        None => Seq::empty(),
    };
    let content = match str_member(msg, "content"@) {
        Some(s) => s,
        None => Seq::empty(),
    };
    let is_error = member(msg, "is_error"@) == Some(JsonV::Bool(true));
    JsonV::Obj(
        Map::empty().insert("type"@, JsonV::Str("tool_result"@)).insert("tool_use_id"@, JsonV::Str(id)).insert(
            "content"@,
            JsonV::Str(content),
        ).insert("is_error"@, JsonV::Bool(is_error)),
    )
}

/// Whether a message carries the result of a tool.
pub open spec fn is_tool_message(msg: JsonV) -> bool {
    str_member(msg, "role"@) == Some("tool"@)
}

/// Where the run of tool messages that begins at `i` ends.
pub open spec fn tool_run_end(msgs: Seq<JsonV>, i: int) -> int
    decreases msgs.len() - i,
{
    if 0 <= i < msgs.len() && is_tool_message(msgs[i]) {
        tool_run_end(msgs, i + 1)
    } else {
        i
    }
}

/// The results of the tool messages from `i` to before `j`.
pub open spec fn tool_results(msgs: Seq<JsonV>, i: int, j: int) -> Seq<JsonV> {
    Seq::new((j - i) as nat, |k: int| tool_result(msgs[i + k]))
}

/// A run of tool messages ends within the list, after its first message.
pub proof fn lemma_tool_run_end(msgs: Seq<JsonV>, i: int)
    requires
        0 <= i <= msgs.len(),
    ensures
        i <= tool_run_end(msgs, i) <= msgs.len(),
        i < msgs.len() && is_tool_message(msgs[i]) ==> i < tool_run_end(msgs, i),
    decreases msgs.len() - i,
{
    if i < msgs.len() && is_tool_message(msgs[i]) {
        lemma_tool_run_end(msgs, i + 1);
    }
}

/// The messages from `i` on in the form of the Messages API; nothing where a
/// tool call is malformed. Neighbouring tool messages become one user message;
/// messages of other roles, and those without blocks, are left out.
pub open spec fn converted(msgs: Seq<JsonV>, i: int) -> Option<Seq<JsonV>>
    decreases msgs.len() - i,
{
    if i < 0 || i >= msgs.len() {
        Some(Seq::empty())
    } else {
        let msg = msgs[i];
        match str_member(msg, "role"@) {
            None => converted(msgs, i + 1),
            Some(role) => if role.len() == 0 {
                converted(msgs, i + 1)
            } else if role == "tool"@ {
                proof {
                    lemma_tool_run_end(msgs, i);
                }
                let j = tool_run_end(msgs, i);
                prepend(block_message("user"@, tool_results(msgs, i, j)), converted(msgs, j))
            } else if role != "assistant"@ && role != "user"@ {
                converted(msgs, i + 1)
            } else {
                match message_blocks(role, msg) {
                    None => None,
                    Some(blocks) => if blocks.len() == 0 {
                        converted(msgs, i + 1)
                    } else {
                        prepend(block_message(role, blocks), converted(msgs, i + 1))
                    },
                }
            },
        }
    }
}

/// `x` in front of a list, where there is one.
pub open spec fn prepend(x: JsonV, rest: Option<Seq<JsonV>>) -> Option<Seq<JsonV>> {
    match rest {
        Some(r) => Some(seq![x] + r),
        None => None,
    }
}

/// `front` in front of a list, where there is one.
pub open spec fn prefixed(front: Seq<JsonV>, rest: Option<Seq<JsonV>>) -> Option<Seq<JsonV>> {
    match rest {
        Some(r) => Some(front + r),
        None => None,
    }
}

proof fn lemma_prefixed_push(front: Seq<JsonV>, x: JsonV, rest: Option<Seq<JsonV>>)
    ensures
        prefixed(front, prepend(x, rest)) == prefixed(front.push(x), rest),
{
    if rest is Some {
        assert(front + (seq![x] + rest.unwrap()) =~= front.push(x) + rest.unwrap());
    }
}

/// The messages of a request in the form of the Messages API.
pub open spec fn converted_messages(messages: JsonV) -> Result<Seq<JsonV>, LlmErrorV> {
    let c = match messages {
        JsonV::Arr(msgs) => converted(msgs, 0),
        _ => Some(Seq::empty()),
    };
    match c {
        Some(s) => Ok(s),
        None => Err(llm_error(ESP_ERR_NO_MEM as int, "Out of memory converting messages"@)),
    }
}

/// The block that asks for a tool with an input.
pub fn tool_use_block(id: &str, name: &str, input: Json) -> (r: Json)
    ensures
        r@ == tool_use(id@, name@, input@),
{
    Json::object().with("type", Json::text("tool_use")).with("id", Json::text(id)).with("name", Json::text(name)).with(
        "input",
        input,
    )
}

fn make_tool_input(args: Option<&str>) -> (r: Json)
    ensures
        r@ == tool_input(opt_str_view(args)),
{
    match args {
        Some(a) => {
            if a.is_empty() {
                Json::object()
            } else {
                match parse_json(a) {
                    Ok(v) => v,
                    Err(_) => Json::object(),
                }
            }
        },
        None => Json::object(),
    }
}

fn make_tool_use_block(tc: &Json) -> (r: Option<Json>)
    ensures
        match r {
            Some(b) => tool_use_of(tc@) == Some(b@),
            None => tool_use_of(tc@) is None,
        },
{
    let id = match tc.get_str("id") {
        Some(id) => id,
        None => {
            return None;
        },
    };
    let function = match tc.get("function") {
        Some(f) => f,
        None => {
            return None;
        },
    };
    match function.get_str("name") {
        Some(name) => {
            let input = make_tool_input(function.get_str("arguments"));
            Some(tool_use_block(id, name, input))
        },
        None => None,
    }
}

fn is_supported_block(b: &Json) -> (r: bool)
    ensures
        r == supported_block(b@),
{
    match b.get_str("type") {
        Some(t) => str_eq(t, "text") || str_eq(t, "tool_use") || str_eq(t, "tool_result") || str_eq(t, "thinking")
            || str_eq(t, "redacted_thinking"),
        None => false,
    }
}

fn make_content_blocks(msg: &Json) -> (r: Vec<Json>)
    ensures
        items_view(r@) == content_blocks(msg@),
{
    let mut blocks: Vec<Json> = Vec::new();
    assert(items_view(blocks@) =~= Seq::<JsonV>::empty());
    match msg.get("content") {
        Some(content) => {
            if let Some(s) = content.as_str() {
                if !s.is_empty() {
                    blocks.push(make_obj2("type", Json::text("text"), "text", Json::text(s)));
                    assert(items_view(blocks@) =~= seq![text_block(s@)]);
                }
            } else if let Some(items) = content.as_array() {
                let mut i: usize = 0;
                while i < items.len()
                    invariant
                        i <= items@.len(),
                        items_view(blocks@) == supported_blocks(items_view(items@), i as nat),
                    decreases items@.len() - i,
                {
                    if is_supported_block(&items[i]) {
                        let ghost before = blocks@;
                        let copy = items[i].dup();
                        blocks.push(copy);
                        assert(items_view(blocks@) =~= items_view(before).push(copy@));
                    }
                    i = i + 1;
                }
            }
        },
        None => {},
    }
    blocks
}

proof fn lemma_call_blocks_fail(a: Seq<JsonV>, n: nat, k: nat)
    requires
        n <= k <= a.len(),
        call_blocks(a, n) is None,
    ensures
        call_blocks(a, k) is None,
    decreases k - n,
{
    if n < k {
        lemma_call_blocks_fail(a, n, (k - 1) as nat);
    }
}

fn make_message_blocks(role: &str, msg: &Json) -> (r: Option<Vec<Json>>)
    ensures
        match r {
            Some(b) => message_blocks(role@, msg@) == Some(items_view(b@)),
            None => message_blocks(role@, msg@) is None,
        },
{
    let mut blocks = make_content_blocks(msg);
    if !str_eq(role, "assistant") {
        return Some(blocks);
    }
    if let Some(reasoning) = nonempty_text(msg, "reasoning_content") {
        let ghost before = blocks@;
        let block = make_obj2("type", Json::text("thinking"), "thinking", Json::text(reasoning.as_str()));
        blocks.insert(0, block);
        assert(items_view(blocks@) =~= seq![thinking_block(reasoning@)] + items_view(before));
    }
    let ghost front = items_view(blocks@);
    match msg.get_array("tool_calls") {
        Some(calls) => {
            let mut i: usize = 0;
            assert(front + Seq::<JsonV>::empty() =~= front);
            while i < calls.len()
                invariant
                    i <= calls@.len(),
                    role@ == "assistant"@,
                    arr_member(msg@, "tool_calls"@) == Some(items_view(calls@)),
                    call_blocks(items_view(calls@), i as nat) is Some,
                    items_view(blocks@) == front + call_blocks(items_view(calls@), i as nat).unwrap(),
                decreases calls@.len() - i,
            {
                match make_tool_use_block(&calls[i]) {
                    Some(b) => {
                        let ghost before = blocks@;
                        blocks.push(b);
                        proof {
                            let c = call_blocks(items_view(calls@), i as nat).unwrap();
                            assert(items_view(blocks@) =~= items_view(before).push(b@));
                            assert((front + c).push(b@) =~= front + c.push(b@));
                        }
                    },
                    None => {
                        proof {
                            lemma_call_blocks_fail(items_view(calls@), (i + 1) as nat, calls@.len());
                        }
                        return None;
                    },
                }
                i = i + 1;
            }
            Some(blocks)
        },
        None => Some(blocks),
    }
}

fn make_tool_result(msg: &Json) -> (r: Json)
    ensures
        r@ == tool_result(msg@),
{
    proof {
        reveal_strlit("");
        assert(""@ =~= Seq::<char>::empty());
    }
    let id = match msg.get_str("tool_call_id") {
        Some(s) => s,
        None => "",
    };
    let content = match msg.get_str("content") {
        Some(s) => s,
        None => "",
    };
    let is_error = match msg.get("is_error") {
        Some(e) => match e.as_bool() {
            Some(b) => b,
            None => false,
        },
        None => false,
    };
    Json::object().with("type", Json::text("tool_result")).with("tool_use_id", Json::text(id)).with(
        "content",
        Json::text(content),
    ).with("is_error", Json::Bool(is_error))
}

fn message_is_tool(msg: &Json) -> (r: bool)
    ensures
        r == is_tool_message(msg@),
{
    match msg.get_str("role") {
        Some(role) => str_eq(role, "tool"),
        None => false,
    }
}

/// Converts the messages of a request.
pub fn convert_messages_to_anthropic(messages: &Json) -> (r: Result<Json, LlmError>)
    ensures
        match r {
            Ok(j) => converted_messages(messages@) matches Ok(s) && j@ == JsonV::Arr(s),
            Err(e) => converted_messages(messages@) == Err::<Seq<JsonV>, LlmErrorV>(e@),
        },
{
    let mut out: Vec<Json> = Vec::new();
    assert(items_view(out@) =~= Seq::<JsonV>::empty());
    let arr = match messages.as_array() {
        Some(a) => a,
        None => {
            return Ok(Json::array(out));
        },
    };
    let ghost msgs = items_view(arr@);
    let mut idx: usize = 0;
    proof {
        if converted(msgs, 0) is Some {
            assert(Seq::<JsonV>::empty() + converted(msgs, 0).unwrap() =~= converted(msgs, 0).unwrap());
        }
    }
    while idx < arr.len()
        invariant
            idx <= arr@.len(),
            msgs == items_view(arr@),
            messages@ == JsonV::Arr(msgs),
            converted(msgs, 0) == prefixed(items_view(out@), converted(msgs, idx as int)),
        decreases arr@.len() - idx,
    {
        let msg = &arr[idx];
        assert(msgs[idx as int] == msg@);
        let role = match msg.get_str("role") {
            Some(role) => role,
            None => {
                idx = idx + 1;
                continue ;
            },
        };
        if role.is_empty() {
            idx = idx + 1;
            continue ;
        }
        if str_eq(role, "tool") {
            let ghost start = idx as int;
            let ghost rest = converted(msgs, tool_run_end(msgs, start));
            let mut tool_blocks: Vec<Json> = Vec::new();
            proof {
                lemma_tool_run_end(msgs, start);
            }
            assert(items_view(tool_blocks@) =~= tool_results(msgs, start, start));
            while idx < arr.len() && message_is_tool(&arr[idx])
                invariant
                    start <= idx <= arr@.len(),
                    msgs == items_view(arr@),
                    items_view(tool_blocks@) == tool_results(msgs, start, idx as int),
                    tool_run_end(msgs, start) == tool_run_end(msgs, idx as int),
                decreases arr@.len() - idx,
            {
                let ghost before = tool_blocks@;
                let block = make_tool_result(&arr[idx]);
                tool_blocks.push(block);
                proof {
                    assert(items_view(tool_blocks@) =~= items_view(before).push(block@));
                    assert(tool_results(msgs, start, idx + 1) =~= tool_results(msgs, start, idx as int).push(
                        block@,
                    ));
                }
                idx = idx + 1;
            }
            assert(tool_run_end(msgs, start) == idx);
            let message = make_obj2("role", Json::text("user"), "content", Json::array(tool_blocks));
            let ghost before = items_view(out@);
            out.push(message);
            proof {
                assert(items_view(out@) =~= before.push(message@));
                lemma_prefixed_push(before, message@, rest);
            }
            continue ;
        }
        if !str_eq(role, "assistant") && !str_eq(role, "user") {
            idx = idx + 1;
            continue ;
        }
        let blocks = match make_message_blocks(role, msg) {
            Some(b) => b,
            None => {
                return Err(LlmError::new(ESP_ERR_NO_MEM, "Out of memory converting messages"));
            },
        };
        if blocks.len() == 0 {
            idx = idx + 1;
            continue ;
        }
        let message = make_obj2("role", Json::text(role), "content", Json::array(blocks));
        let ghost before = items_view(out@);
        out.push(message);
        proof {
            assert(items_view(out@) =~= before.push(message@));
            lemma_prefixed_push(before, message@, converted(msgs, idx + 1));
        }
        idx = idx + 1;
    }
    assert(items_view(out@) + Seq::<JsonV>::empty() =~= items_view(out@));
    Ok(Json::array(out))
}

/// The description of one tool in the form of the Messages API.
pub open spec fn converted_tool(item: JsonV) -> Option<JsonV> {
    let is_function = item is Obj && str_member(item, "type"@) == Some("function"@);
    let owner = if is_function {
        member(item, "function"@)
    } else if item is Obj {
        Some(item)
    } else {
        None
    };
    match owner {
        None => None,
        Some(o) => match nonempty_str_member(o, "name"@) {
            None => None,
            Some(name) => {
                let schema = match member(
                    o,
                    if is_function {
                        "parameters"@
                    } else {
                        "input_schema"@
                    },
                ) {
                    Some(s) => s,
                    None => JsonV::Obj(Map::empty()),
                };
                let named = Map::empty().insert("name"@, JsonV::Str(name));
                let described = match str_member(o, "description"@) {
                    Some(d) => named.insert("description"@, JsonV::Str(d)),
                    None => named,
                };
                Some(JsonV::Obj(described.insert("input_schema"@, schema)))
            },
        },
    }
}

/// The descriptions of the first `n` tools; what has no name is left out.
pub open spec fn converted_tools(a: Seq<JsonV>, n: nat) -> Seq<JsonV>
    decreases n,
{
    if n == 0 || n > a.len() {
        Seq::empty()
    } else {
        match converted_tool(a[n - 1]) {
            Some(t) => converted_tools(a, (n - 1) as nat).push(t),
            None => converted_tools(a, (n - 1) as nat),
        }
    }
}

fn convert_tool(item: &Json) -> (r: Option<Json>)
    ensures
        match r {
            Some(t) => converted_tool(item@) == Some(t@),
            None => converted_tool(item@) is None,
        },
{
    if !item.is_object() {
        return None;
    }
    let is_function = match item.get_str("type") {
        Some(t) => str_eq(t, "function"),
        None => false,
    };
    let owner: &Json = if is_function {
        match item.get("function") {
            Some(f) => f,
            None => {
                return None;
            },
        }
    } else {
        item
    };
    let name = match owner.get_str("name") {
        Some(n) => n,
        None => {
            return None;
        },
    };
    if name.is_empty() {
        return None;
    }
    let schema_key = if is_function {
        "parameters"
    } else {
        "input_schema"
    };
    let schema = match owner.get(schema_key) {
        Some(s) => s.dup(),
        None => Json::object(),
    };
    let mut tool = Json::object().with("name", Json::text(name));
    if let Some(d) = owner.get_str("description") {
        tool = tool.with("description", Json::text(d));
    }
    Some(tool.with("input_schema", schema))
}

/// Converts a parsed list of tools; nothing where it is not a list.
pub fn convert_parsed_tools(parsed: &Json) -> (r: Option<Vec<Json>>)
    ensures
        match r {
            Some(v) => parsed@ matches JsonV::Arr(a) && items_view(v@) == converted_tools(a, a.len()),
            None => !(parsed@ is Arr),
        },
{
    let arr = match parsed.as_array() {
        Some(a) => a,
        None => {
            return None;
        },
    };
    let mut out: Vec<Json> = Vec::new();
    assert(items_view(out@) =~= Seq::<JsonV>::empty());
    let mut i: usize = 0;
    while i < arr.len()
        invariant
            i <= arr@.len(),
            items_view(out@) == converted_tools(items_view(arr@), i as nat),
        decreases arr@.len() - i,
    {
        match convert_tool(&arr[i]) {
            Some(t) => {
                let ghost before = out@;
                out.push(t);
                assert(items_view(out@) =~= items_view(before).push(t@));
            },
            None => {},
        }
        i = i + 1;
    }
    Some(out)
}

/// The tools of a request: none on offer, a list, or a text that is no list.
pub open spec fn request_tools(tools_json: Option<Seq<char>>) -> Option<Option<Seq<JsonV>>> {
    match tools_json {
        None => None,
        Some(t) => if t.len() == 0 {
            None
        } else {
            match json_parse(t) {
                Ok(JsonV::Arr(a)) => Some(Some(converted_tools(a, a.len()))),
                _ => Some(None),
            }
        },
    }
}

/// Converts the tools text of a request: nothing where there is none, else the
/// list or the fact that the text is no list.
pub fn convert_tools_to_anthropic(tools_json: Option<&str>) -> (r: Option<Option<Vec<Json>>>)
    ensures
        match r {
            None => request_tools(opt_str_view(tools_json)) is None,
            Some(None) => request_tools(opt_str_view(tools_json)) == Some(None::<Seq<JsonV>>),
            Some(Some(v)) => request_tools(opt_str_view(tools_json)) == Some(Some(items_view(v@))),
        },
{
    let text = match tools_json {
        Some(t) => t,
        None => {
            return None;
        },
    };
    if text.is_empty() {
        return None;
    }
    match parse_json(text) {
        Ok(parsed) => Some(convert_parsed_tools(&parsed)),
        Err(_) => Some(None),
    }
}

/// The body of a chat request.
pub open spec fn chat_body(
    model: Seq<char>,
    max_tokens: u32,
    system: Seq<char>,
    messages: Seq<JsonV>,
    tools: Option<Seq<JsonV>>,
) -> JsonV {
    let base = Map::empty().insert("model"@, JsonV::Str(model)).insert(
        "max_tokens"@,
        JsonV::Num(Num::Unsigned(max_tokens as u64)),
    ).insert("system"@, JsonV::Str(system)).insert("messages"@, JsonV::Arr(messages));
    match tools {
        Some(t) => if t.len() > 0 {
            JsonV::Obj(
                base.insert("tools"@, JsonV::Arr(t)).insert(
                    "tool_choice"@,
                    JsonV::Obj(Map::empty().insert("type"@, JsonV::Str("auto"@))),
                ),
            )
        } else {
            JsonV::Obj(base)
        },
        None => JsonV::Obj(base),
    }
}

/// What the body of a chat request is, or why there is none.
pub open spec fn chat_body_result(
    model: Seq<char>,
    max_tokens: u32,
    system: Seq<char>,
    messages: JsonV,
    tools_json: Option<Seq<char>>,
) -> Result<JsonV, LlmErrorV> {
    match converted_messages(messages) {
        Err(e) => Err(e),
        Ok(ms) => match request_tools(tools_json) {
            None => Ok(chat_body(model, max_tokens, system, ms, None)),
            Some(None) => Err(llm_error(ESP_ERR_INVALID_ARG as int, "Invalid tools JSON"@)),
            Some(Some(t)) => Ok(chat_body(model, max_tokens, system, ms, Some(t))),
        },
    }
}

/// The text of a body, or the failure to print it.
pub open spec fn body_text(b: Result<JsonV, LlmErrorV>, failure: Seq<char>) -> Result<Seq<char>, LlmErrorV> {
    match b {
        Ok(v) => match json_text(v) {
            Some(t) => Ok(t),
            None => Err(llm_error(ESP_FAIL as int, failure)),
        },
        Err(e) => Err(e),
    }
}

/// What a step that makes a text gives.
pub open spec fn text_result(r: Result<String, LlmError>) -> Result<Seq<char>, LlmErrorV> {
    match r {
        Ok(s) => Ok(s@),
        Err(e) => Err(e@),
    }
}

/// Splits `data:<type>;base64,<data>` at its first marker.
pub open spec fn data_url_split(url: Seq<char>) -> Option<(Seq<char>, Seq<char>)> {
    if has_prefix(url, "data:"@) && has_substring(url, ";base64,"@) {
        let at = first_marker(url, 0);
        let data = url.subrange(at + ";base64,"@.len(), url.len() as int);
        if data.len() > 0 {
            Some((url.subrange("data:"@.len() as int, at), data))
        } else {
            None
        }
    } else {
        None
    }
}

/// The first position from `i` on at which the marker of a data URL stands.
pub open spec fn first_marker(url: Seq<char>, i: int) -> int
    decreases url.len() - i,
{
    if i < 0 || i >= url.len() || occurs_at(url, ";base64,"@, i) {
        i
    } else {
        first_marker(url, i + 1)
    }
}

proof fn lemma_first_marker(url: Seq<char>, i: int, at: int)
    requires
        0 <= i <= at < url.len(),
        occurs_at(url, ";base64,"@, at),
        forall|j: int| i <= j < at ==> !occurs_at(url, ";base64,"@, j),
    ensures
        first_marker(url, i) == at,
    decreases at - i,
{
    if i < at {
        assert(!occurs_at(url, ";base64,"@, i));
        lemma_first_marker(url, i + 1, at);
    }
}

/// Splits a data URL into its type and its data.
pub fn parse_data_url(data_url: &str) -> (r: Option<(String, String)>)
    ensures
        match r {
            Some((mime, data)) => data_url_split(data_url@) == Some((mime@, data@)),
            None => data_url_split(data_url@) is None,
        },
{
    proof {
        reveal_strlit("data:");
        reveal_strlit(";base64,");
    }
    match strip_prefix(data_url, "data:") {
        Some(_) => {},
        None => {
            return None;
        },
    }
    let at: usize = match find(data_url, ";base64,") {
        Some(at) => at,
        None => {
            return None;
        },
    };
    let n: usize = data_url.unicode_len();
    proof {
        lemma_first_marker(data_url@, 0, at as int);
        let u = data_url@;
        assert(u.subrange(at as int, at + 8)[0] == ';');
        assert(u[at as int] == ';');
        assert(u.subrange(0, 5)[0] == 'd');
        assert(u.subrange(0, 5)[1] == 'a');
        assert(u.subrange(0, 5)[2] == 't');
        assert(u.subrange(0, 5)[3] == 'a');
        assert(u.subrange(0, 5)[4] == ':');
    }
    let data = data_url.substring_char(at + 8, n);
    if data.is_empty() {
        return None;
    }
    let mime = data_url.substring_char(5, at);
    Some((mime.to_owned(), data.to_owned()))
}

/// Taking a data URL apart gives back its type and its data, for a type in
/// which no character is a semicolon and data that is not empty.
pub proof fn law_data_url_round_trip(mime: Seq<char>, data: Seq<char>)
    requires
        forall|i: int| 0 <= i < mime.len() ==> mime[i] != ';',
        data.len() > 0,
    ensures
        data_url_split("data:"@ + mime + ";base64,"@ + data) == Some((mime, data)),
{
    reveal_strlit("data:");
    reveal_strlit(";base64,");
    let url = "data:"@ + mime + ";base64,"@ + data;
    let at = (5 + mime.len()) as int;
    assert(url.subrange(0, 5) =~= "data:"@);
    assert(url.subrange(at, at + 8) =~= ";base64,"@);
    assert(occurs_at(url, ";base64,"@, at));
    assert forall|j: int| 0 <= j < at implies !occurs_at(url, ";base64,"@, j) by {
        if occurs_at(url, ";base64,"@, j) {
            assert(url.subrange(j, j + 8)[0] == ';');
            assert(url[j] == ';');
            if j < 5 {
                assert(url[j] == "data:"@[j]);
            } else {
                assert(url[j] == mime[j - 5]);
            }
        }
    }
    lemma_first_marker(url, 0, at);
    assert(url.subrange(5, at) =~= mime);
    assert(url.subrange(at + 8, url.len() as int) =~= data);
}

/// The texts of the first `n` blocks of one type, one after the other.
pub open spec fn joined_blocks(a: Seq<JsonV>, n: nat, kind: Seq<char>) -> Seq<char>
    decreases n,
{
    if n == 0 || n > a.len() {
        Seq::empty()
    } else {
        let front = joined_blocks(a, (n - 1) as nat, kind);
        if str_member(a[n - 1], "type"@) == Some(kind) {
            match str_member(a[n - 1], kind) {
                Some(t) => front + t,
                None => front,
            }
        } else {
            front
        }
    }
}

/// The tool call of a tool block; nothing where it lacks an id or a name, or its
/// input cannot be printed.
pub open spec fn block_call(b: JsonV) -> Option<ToolCallV> {
    match (str_member(b, "id"@), str_member(b, "name"@)) {
        (Some(id), Some(name)) => match member(b, "input"@) {
            Some(input) => match json_text(input) {
                Some(t) => Some(ToolCallV { id, name, arguments_json: t }),
                None => None,
            },
            None => Some(ToolCallV { id, name, arguments_json: "{}"@ }),
        },
        _ => None,
    }
}

/// The tool calls of the first `n` blocks, where each tool block gives one.
pub open spec fn block_calls(a: Seq<JsonV>, n: nat) -> Option<Seq<ToolCallV>>
    decreases n,
{
    if n == 0 || n > a.len() {
        Some(Seq::empty())
    } else if str_member(a[n - 1], "type"@) == Some("tool_use"@) {
        match (block_calls(a, (n - 1) as nat), block_call(a[n - 1])) {
            (Some(s), Some(c)) => Some(s.push(c)),
            _ => None,
        }
    } else {
        block_calls(a, (n - 1) as nat)
    }
}

/// A text, where it is not empty.
pub open spec fn nonempty(s: Seq<char>) -> Option<Seq<char>> {
    if s.len() > 0 {
        Some(s)
    } else {
        None
    }
}

/// What a content-block answer says.
pub open spec fn anthropic_reply(root: JsonV) -> Result<LlmResponseV, LlmErrorV> {
    let fail = ESP_FAIL as int;
    match arr_member(root, "content"@) {
        None => Err(llm_error(fail, "LLM response missing content"@)),
        Some(a) => match json_text(block_message("assistant"@, a)) {
            None => Err(llm_error(fail, "Out of memory copying LLM raw message"@)),
            Some(raw) => match block_calls(a, a.len()) {
                None => Err(llm_error(fail, "Out of memory copying tool call"@)),
                Some(calls) => {
                    let text = nonempty(joined_blocks(a, a.len(), "text"@));
                    let reasoning = nonempty(joined_blocks(a, a.len(), "thinking"@));
                    if text is None && calls.len() == 0 && reasoning is None {
                        Err(llm_error(fail, "LLM returned empty response"@))
                    } else {
                        Ok(
                            LlmResponseV {
                                text,
                                reasoning_content: reasoning,
                                raw_message_json: Some(raw),
                                tool_calls: calls,
                            },
                        )
                    }
                },
            },
        },
    }
}

proof fn lemma_block_calls_fail(a: Seq<JsonV>, n: nat, k: nat)
    requires
        n <= k <= a.len(),
        block_calls(a, n) is None,
    ensures
        block_calls(a, k) is None,
    decreases k - n,
{
    if n < k {
        lemma_block_calls_fail(a, n, (k - 1) as nat);
    }
}

fn read_block_call(b: &Json) -> (r: Option<ToolCall>)
    ensures
        match r {
            Some(c) => block_call(b@) == Some(c@),
            None => block_call(b@) is None,
        },
{
    let id = match b.get_str("id") {
        Some(id) => id,
        None => {
            return None;
        },
    };
    let name = match b.get_str("name") {
        Some(name) => name,
        None => {
            return None;
        },
    };
    let arguments_json = match b.get("input") {
        Some(input) => match render_json(input) {
            Some(t) => t,
            None => {
                return None;
            },
        },
        None => "{}".to_owned(),
    };
    Some(ToolCall { id: id.to_owned(), name: name.to_owned(), arguments_json })
}

fn take_nonempty(s: String) -> (r: Option<String>)
    ensures
        opt_view(r) == nonempty(s@),
{
    if s.as_str().is_empty() {
        None
    } else {
        Some(s)
    }
}

/// Reads a parsed content-block answer.
pub fn read_anthropic_reply(root: &Json) -> (r: Result<LlmResponse, LlmError>)
    ensures
        reply_view(r) == anthropic_reply(root@),
{
    let content = match root.get_array("content") {
        Some(a) => a,
        None => {
            return Err(LlmError::fail("LLM response missing content"));
        },
    };
    let ghost a = items_view(content@);
    let message = make_obj2(
        "role",
        Json::text("assistant"),
        "content",
        Json::array(crate::json::dup_items(content)),
    );
    let raw = match render_json(&message) {
        Some(raw) => raw,
        None => {
            return Err(LlmError::fail("Out of memory copying LLM raw message"));
        },
    };
    let mut text = String::new();
    let mut reasoning = String::new();
    let mut tool_calls: Vec<ToolCall> = Vec::new();
    assert(calls_view(tool_calls@) =~= Seq::<ToolCallV>::empty());
    proof {
        reveal_strlit("text");
        reveal_strlit("thinking");
        reveal_strlit("tool_use");
        assert("text"@.len() != "thinking"@.len());
        assert("text"@.len() != "tool_use"@.len());
        assert("thinking"@[1] != "tool_use"@[1]);
    }
    let mut i: usize = 0;
    while i < content.len()
        invariant
            i <= content@.len(),
            a == items_view(content@),
            arr_member(root@, "content"@) == Some(a),
            json_text(block_message("assistant"@, a)) == Some(raw@),
            "text"@ != "thinking"@,
            "text"@ != "tool_use"@,
            "thinking"@ != "tool_use"@,
            text@ == joined_blocks(a, i as nat, "text"@),
            reasoning@ == joined_blocks(a, i as nat, "thinking"@),
            block_calls(a, i as nat) == Some(calls_view(tool_calls@)),
        decreases content@.len() - i,
    {
        let block = &content[i];
        assert(a[i as int] == block@);
        match block.get_str("type") {
            Some(kind) => {
                if str_eq(kind, "text") {
                    if let Some(t) = block.get_str("text") {
                        text.append(t);
                    }
                } else if str_eq(kind, "thinking") {
                    if let Some(t) = block.get_str("thinking") {
                        reasoning.append(t);
                    }
                } else if str_eq(kind, "tool_use") {
                    match read_block_call(block) {
                        Some(c) => {
                            let ghost before = tool_calls@;
                            tool_calls.push(c);
                            assert(calls_view(tool_calls@) =~= calls_view(before).push(c@));
                        },
                        None => {
                            proof {
                                lemma_block_calls_fail(a, (i + 1) as nat, content@.len());
                            }
                            return Err(LlmError::fail("Out of memory copying tool call"));
                        },
                    }
                }
            },
            None => {},
        }
        i = i + 1;
    }
    let text_opt = take_nonempty(text);
    let reasoning_opt = take_nonempty(reasoning);
    if text_opt.is_none() && tool_calls.len() == 0 && reasoning_opt.is_none() {
        return Err(LlmError::new(ESP_FAIL, "LLM returned empty response"));
    }
    Ok(
        LlmResponse {
            text: text_opt,
            reasoning_content: reasoning_opt,
            raw_message_json: Some(raw),
            tool_calls,
        },
    )
}

/// What the body of a content-block answer says.
pub open spec fn anthropic_body_reply(body: Seq<char>) -> Result<LlmResponseV, LlmErrorV> {
    match json_parse(body) {
        Ok(root) => anthropic_reply(root),
        Err(_) => Err(llm_error(ESP_FAIL as int, "Failed to parse LLM JSON response"@)),
    }
}

/// Parses the body of a content-block answer.
pub fn parse_chat_response(body: &str) -> (r: Result<LlmResponse, LlmError>)
    ensures
        reply_view(r) == anthropic_body_reply(body@),
{
    match parse_json(body) {
        Ok(root) => read_anthropic_reply(&root),
        Err(_) => Err(LlmError::fail("Failed to parse LLM JSON response")),
    }
}

/// The text of a media answer, or why there is none.
pub open spec fn media_reply(r: Result<LlmResponseV, LlmErrorV>) -> Result<Seq<char>, LlmErrorV> {
    match r {
        Ok(x) => match x.text {
            Some(t) => if t.len() > 0 {
                Ok(t)
            } else {
                Err(llm_error(ESP_FAIL as int, "LLM returned empty media response"@))
            },
            None => Err(llm_error(ESP_FAIL as int, "LLM returned empty media response"@)),
        },
        Err(e) => Err(e),
    }
}

/// Takes the text of a media answer.
pub fn finish_media(reply: Result<LlmResponse, LlmError>) -> (r: Result<String, LlmError>)
    ensures
        text_result(r) == media_reply(reply_view(reply)),
{
    match reply {
        Ok(parsed) => match parsed.text {
            Some(t) => if t.as_str().is_empty() {
                Err(LlmError::new(ESP_FAIL, "LLM returned empty media response"))
            } else {
                Ok(t)
            },
            None => Err(LlmError::new(ESP_FAIL, "LLM returned empty media response")),
        },
        Err(e) => Err(e),
    }
}

/// Why a media request is refused before anything is prepared.
pub open spec fn media_request_error(
    supports_vision: bool,
    user_prompt: Option<Seq<char>>,
    media_count: nat,
) -> Option<LlmErrorV> {
    if !supports_vision {
        Some(llm_error(ESP_ERR_NOT_SUPPORTED as int, "Selected profile does not support media inference"@))
    } else if user_prompt is None || user_prompt.unwrap().len() == 0 || media_count == 0 {
        Some(llm_error(ESP_ERR_INVALID_ARG as int, "media request is incomplete"@))
    } else {
        None
    }
}

/// Checks that the model sees images and that there is a prompt and an asset.
pub fn check_media_request(profile: &ModelProfile, request: &MediaRequest) -> (r: Result<(), LlmError>)
    ensures
        match r {
            Ok(_) => media_request_error(
                profile.supports_vision,
                opt_str_view(request.user_prompt),
                request.media@.len(),
            ) is None,
            Err(e) => media_request_error(
                profile.supports_vision,
                opt_str_view(request.user_prompt),
                request.media@.len(),
            ) == Some(e@),
        },
{
    if !profile.supports_vision {
        return Err(LlmError::new(ESP_ERR_NOT_SUPPORTED, "Selected profile does not support media inference"));
    }
    let has_prompt = match request.user_prompt {
        Some(p) => !p.is_empty(),
        None => false,
    };
    if !has_prompt || request.media.len() == 0 {
        return Err(LlmError::new(ESP_ERR_INVALID_ARG, "media request is incomplete"));
    }
    Ok(())
}

/// The text of an optional string slice, empty where there is none.
pub open spec fn slice_or_empty(o: Option<&str>) -> Seq<char> {
    match o {
        Some(s) => s@,
        None => Seq::empty(),
    }
}

pub fn get_slice_or_empty<'a>(o: Option<&'a str>) -> (r: &'a str)
    ensures
        r@ == slice_or_empty(o),
{
    proof {
        reveal_strlit("");
        assert(""@ =~= Seq::<char>::empty());
    }
    match o {
        Some(s) => s,
        None => "",
    }
}

/// The body of a media request.
pub open spec fn media_body(
    model: Seq<char>,
    max_tokens: u32,
    system: Seq<char>,
    prompt: Seq<char>,
    mime: Seq<char>,
    data: Seq<char>,
) -> JsonV {
    let source = JsonV::Obj(
        Map::empty().insert("type"@, JsonV::Str("base64"@)).insert("media_type"@, JsonV::Str(mime)).insert(
            "data"@,
            JsonV::Str(data),
        ),
    );
    let image = obj2("type"@, JsonV::Str("image"@), "source"@, source);
    JsonV::Obj(
        Map::empty().insert("model"@, JsonV::Str(model)).insert(
            "max_tokens"@,
            JsonV::Num(Num::Unsigned(max_tokens as u64)),
        ).insert("system"@, JsonV::Str(system)).insert(
            "messages"@,
            JsonV::Arr(seq![block_message("user"@, seq![text_block(prompt), image])]),
        ),
    )
}

/// What the body of a media request is, or why there is none.
pub open spec fn media_body_result(
    model: Seq<char>,
    max_tokens: u32,
    system: Seq<char>,
    prompt: Seq<char>,
    prepared: Result<PreparedV, LlmErrorV>,
) -> Result<JsonV, LlmErrorV> {
    match prepared {
        Err(e) => Err(e),
        Ok(p) => if p.kind != PreparedKind::DataUrl {
            Err(llm_error(ESP_ERR_NOT_SUPPORTED as int, "Anthropic backend requires local image data"@))
        } else {
            match data_url_split(p.payload) {
                None => Err(llm_error(ESP_FAIL as int, "Failed to prepare Anthropic image payload"@)),
                Some((mime, data)) => Ok(media_body(model, max_tokens, system, prompt, mime, data)),
            }
        },
    }
}

/// What a request of this backend holds besides its body.
pub open spec fn is_anthropic_request(q: HttpJsonRequest, b: Anthropic, chat_path: Seq<char>) -> bool {
    &&& q.url@ == url_join(b.base_url@, chat_path)
    &&& q.api_key is None
    &&& opt_view(q.auth_type) == Some("none"@)
    &&& q.timeout_ms == b.timeout_ms
    &&& headers_view(q.headers@) == seq![("x-api-key"@, b.api_key@), ("anthropic-version"@, "2023-06-01"@)]
}

impl Anthropic {
    /// Makes the backend of a configuration.
    pub fn make(config: &RuntimeConfig) -> (r: Result<Anthropic, LlmError>)
        ensures
            match r {
                Ok(b) => {
                    &&& config_error(*config) is None
                    &&& b.api_key@ == text_or_empty(config.api_key)
                    &&& b.model@ == text_or_empty(config.model)
                    &&& b.base_url@ == text_or_empty(config.base_url)
                    &&& b.timeout_ms == config.timeout_ms
                    &&& b.max_tokens == config.max_tokens
                    &&& b.image_max_bytes == config.image_max_bytes
                },
                Err(e) => config_error(*config) == Some(e@),
            },
    {
        match check_config(config) {
            Ok(_) => {},
            Err(e) => {
                return Err(e);
            },
        }
        Ok(
            Anthropic {
                api_key: str_or_empty(&config.api_key).to_owned(),
                model: str_or_empty(&config.model).to_owned(),
                base_url: str_or_empty(&config.base_url).to_owned(),
                timeout_ms: config.timeout_ms,
                max_tokens: config.max_tokens,
                image_max_bytes: config.image_max_bytes,
            },
        )
    }

    /// Builds the body of a chat request.
    pub fn build_chat_body(&self, request: &ChatRequest) -> (r: Result<String, LlmError>)
        ensures
            text_result(r) == body_text(
                chat_body_result(
                    self.model@,
                    self.max_tokens,
                    request.system_prompt@,
                    request.messages@,
                    opt_str_view(request.tools_json),
                ),
                "Out of memory serializing request"@,
            ),
    {
        let messages = match convert_messages_to_anthropic(request.messages) {
            Ok(m) => m,
            Err(e) => {
                return Err(e);
            },
        };
        let mut body = Json::object().with("model", Json::text(self.model.as_str())).with(
            "max_tokens",
            Json::unsigned(self.max_tokens as u64),
        ).with("system", Json::text(request.system_prompt)).with("messages", messages);
        match convert_tools_to_anthropic(request.tools_json) {
            None => {},
            Some(None) => {
                return Err(LlmError::new(ESP_ERR_INVALID_ARG, "Invalid tools JSON"));
            },
            Some(Some(tools)) => {
                if tools.len() > 0 {
                    body = body.with("tools", Json::array(tools)).with(
                        "tool_choice",
                        Json::object().with("type", Json::text("auto")),
                    );
                }
            },
        }
        match render_json(&body) {
            Some(t) => Ok(t),
            None => Err(LlmError::fail("Out of memory serializing request")),
        }
    }

    fn request(&self, profile: &ModelProfile, body: String) -> (r: HttpJsonRequest)
        ensures
            r.body@ == body@,
            is_anthropic_request(r, *self, profile.chat_path@),
    {
        let mut headers: Vec<(String, String)> = Vec::new();
        headers.push(("x-api-key".to_owned(), self.api_key.clone()));
        headers.push(("anthropic-version".to_owned(), "2023-06-01".to_owned()));
        assert(headers_view(headers@) =~= seq![
            ("x-api-key"@, self.api_key@),
            ("anthropic-version"@, "2023-06-01"@),
        ]);
        HttpJsonRequest {
            url: join_url(self.base_url.as_str(), profile.chat_path.as_str()),
            body,
            api_key: None,
            auth_type: Some("none".to_owned()),
            timeout_ms: self.timeout_ms,
            headers,
        }
    }

    /// The HTTP request of a chat; [`parse_chat_response`] reads its answer.
    pub fn chat_request(&self, profile: &ModelProfile, request: &ChatRequest) -> (r: Result<
        HttpJsonRequest,
        LlmError,
    >)
        ensures
            ({
                let body = body_text(
                    chat_body_result(
                        self.model@,
                        self.max_tokens,
                        request.system_prompt@,
                        request.messages@,
                        opt_str_view(request.tools_json),
                    ),
                    "Out of memory serializing request"@,
                );
                match r {
                    Ok(q) => body == Ok::<Seq<char>, LlmErrorV>(q.body@) && is_anthropic_request(
                        q,
                        *self,
                        profile.chat_path@,
                    ),
                    Err(e) => body == Err::<Seq<char>, LlmErrorV>(e@),
                }
            }),
    {
        match self.build_chat_body(request) {
            Ok(body) => Ok(self.request(profile, body)),
            Err(e) => Err(e),
        }
    }

    /// Builds the body that asks about a prepared image.
    pub fn build_media_body(&self, system: &str, prompt: &str, prepared: Result<Prepared, LlmError>) -> (r: Result<
        String,
        LlmError,
    >)
        ensures
            text_result(r) == body_text(
                media_body_result(
                    self.model@,
                    self.max_tokens,
                    system@,
                    prompt@,
                    super::media::prepared_view(prepared),
                ),
                "Out of memory serializing media request"@,
            ),
    {
        let prepared = match prepared {
            Ok(p) => p,
            Err(e) => {
                return Err(e);
            },
        };
        if prepared.kind != PreparedKind::DataUrl {
            return Err(LlmError::new(ESP_ERR_NOT_SUPPORTED, "Anthropic backend requires local image data"));
        }
        let (mime, data) = match parse_data_url(prepared.payload.as_str()) {
            Some(parts) => parts,
            None => {
                return Err(LlmError::fail("Failed to prepare Anthropic image payload"));
            },
        };
        let source = Json::object().with("type", Json::text("base64")).with("media_type", Json::Str(mime)).with(
            "data",
            Json::Str(data),
        );
        let image = make_obj2("type", Json::text("image"), "source", source);
        let mut blocks: Vec<Json> = Vec::new();
        blocks.push(make_obj2("type", Json::text("text"), "text", Json::text(prompt)));
        blocks.push(image);
        assert(items_view(blocks@) =~= seq![text_block(prompt@), image@]);
        let message = make_obj2("role", Json::text("user"), "content", Json::array(blocks));
        let mut messages: Vec<Json> = Vec::new();
        messages.push(message);
        assert(items_view(messages@) =~= seq![message@]);
        let body = Json::object().with("model", Json::text(self.model.as_str())).with(
            "max_tokens",
            Json::unsigned(self.max_tokens as u64),
        ).with("system", Json::text(system)).with("messages", Json::array(messages));
        match render_json(&body) {
            Some(t) => Ok(t),
            None => Err(LlmError::fail("Out of memory serializing media request")),
        }
    }

    /// The HTTP request that asks about the first asset of a media request;
    /// [`parse_chat_response`] and [`finish_media`] read its answer.
    pub fn media_request(&self, profile: &ModelProfile, request: &MediaRequest, file: &Option<MediaFile>) -> (r: Result<
        HttpJsonRequest,
        LlmError,
    >)
        requires
            can_be_encoded(*file),
        ensures
            ({
                let refused = media_request_error(
                    profile.supports_vision,
                    opt_str_view(request.user_prompt),
                    request.media@.len(),
                );
                let body = body_text(
                    media_body_result(
                        self.model@,
                        self.max_tokens,
                        slice_or_empty(request.system_prompt),
                        slice_or_empty(request.user_prompt),
                        prepared_asset(
                            request.media@[0],
                            profile.image_remote_url_only,
                            self.image_max_bytes as nat,
                            *file,
                        ),
                    ),
                    "Out of memory serializing media request"@,
                );
                match r {
                    Ok(q) => refused is None && body == Ok::<Seq<char>, LlmErrorV>(q.body@) && is_anthropic_request(
                        q,
                        *self,
                        profile.chat_path@,
                    ),
                    Err(e) => if refused is Some {
                        refused == Some(e@)
                    } else {
                        body == Err::<Seq<char>, LlmErrorV>(e@)
                    },
                }
            }),
    {
        match check_media_request(profile, request) {
            Ok(_) => {},
            Err(e) => {
                return Err(e);
            },
        }
        let prepared = prepare_asset(&request.media[0], profile, self.image_max_bytes, file);
        match self.build_media_body(
            get_slice_or_empty(request.system_prompt),
            get_slice_or_empty(request.user_prompt),
            prepared,
        ) {
            Ok(body) => Ok(self.request(profile, body)),
            Err(e) => Err(e),
        }
    }
}

/// A converted conversation never has a message without content, and only user
/// and assistant messages.
pub proof fn law_converted_roles(msgs: Seq<JsonV>, i: int)
    requires
        0 <= i <= msgs.len(),
    ensures
        converted(msgs, i) matches Some(out) ==> forall|k: int|
            0 <= k < out.len() ==> {
                &&& str_member(#[trigger] out[k], "role"@) == Some("user"@) || str_member(out[k], "role"@) == Some(
                    "assistant"@,
                )
                &&& arr_member(out[k], "content"@) matches Some(blocks) && blocks.len() > 0
            },
    decreases msgs.len() - i,
{
    reveal_strlit("role");
    reveal_strlit("content");
    assert("role"@.len() != "content"@.len());
    if i < msgs.len() {
        law_converted_roles(msgs, i + 1);
        let msg = msgs[i];
        match str_member(msg, "role"@) {
            Some(role) => {
                if role.len() > 0 && role == "tool"@ {
                    lemma_tool_run_end(msgs, i);
                    let j = tool_run_end(msgs, i);
                    law_converted_roles(msgs, j);
                    let head = block_message("user"@, tool_results(msgs, i, j));
                    assert(str_member(head, "role"@) == Some("user"@));
                    assert(arr_member(head, "content"@) == Some(tool_results(msgs, i, j)));
                } else if role.len() > 0 && (role == "assistant"@ || role == "user"@) {
                    if let Some(blocks) = message_blocks(role, msg) {
                        let head = block_message(role, blocks);
                        assert(str_member(head, "role"@) == Some(role));
                        assert(arr_member(head, "content"@) == Some(blocks));
                    }
                }
            },
            None => {},
        }
    }
}

proof fn lemma_block_message(role: Seq<char>, blocks: Seq<JsonV>)
    ensures
        member(block_message(role, blocks), "role"@) == Some(JsonV::Str(role)),
        arr_member(block_message(role, blocks), "content"@) == Some(blocks),
{
    reveal_strlit("role");
    reveal_strlit("content");
    assert("role"@.len() != "content"@.len());
}

proof fn lemma_tool_result_members(msg: JsonV)
    ensures
        member(tool_result(msg), "type"@) == Some(JsonV::Str("tool_result"@)),
        str_member(msg, "tool_call_id"@) is None ==> member(tool_result(msg), "tool_use_id"@) == Some(
            JsonV::Str(Seq::empty()),
        ),
        str_member(msg, "content"@) is None ==> member(tool_result(msg), "content"@) == Some(JsonV::Str(Seq::empty())),
        str_member(msg, "tool_call_id"@) matches Some(id) ==> member(tool_result(msg), "tool_use_id"@) == Some(
            JsonV::Str(id),
        ),
        str_member(msg, "content"@) matches Some(text) ==> member(tool_result(msg), "content"@) == Some(
            JsonV::Str(text),
        ),
        member(tool_result(msg), "is_error"@) == Some(
            JsonV::Bool(member(msg, "is_error"@) == Some(JsonV::Bool(true))),
        ),
{
    reveal_strlit("type");
    reveal_strlit("tool_use_id");
    reveal_strlit("content");
    reveal_strlit("is_error");
    assert("type"@.len() == 4 && "tool_use_id"@.len() == 11 && "content"@.len() == 7 && "is_error"@.len() == 8);
}

/// Tool messages that follow one another become one user message with one block for each,
/// in order. A block answers the call that its message answers, with the message's text,
/// both empty where the message has none, and is marked as an error exactly where the
/// message is; what follows is converted behind it.
pub proof fn law_tool_run_becomes_one_message(msgs: Seq<JsonV>, i: int, j: int, out: Seq<JsonV>)
    requires
        0 <= i < j <= msgs.len(),
        forall|k: int| i <= k < j ==> member(#[trigger] msgs[k], "role"@) == Some(JsonV::Str("tool"@)),
        j < msgs.len() ==> member(msgs[j], "role"@) != Some(JsonV::Str("tool"@)),
        converted(msgs, i) == Some(out),
    ensures
        out.len() > 0,
        converted(msgs, j) == Some(out.drop_first()),
        member(out[0], "role"@) == Some(JsonV::Str("user"@)),
        arr_member(out[0], "content"@) matches Some(blocks) && {
            &&& blocks.len() == j - i
            &&& forall|k: int|
                0 <= k < blocks.len() ==> {
                    let msg = msgs[i + k];
                    &&& member(#[trigger] blocks[k], "type"@) == Some(JsonV::Str("tool_result"@))
                    &&& str_member(msg, "tool_call_id"@) is None ==> str_member(blocks[k], "tool_use_id"@) == Some(
                        Seq::<char>::empty(),
                    )
                    &&& str_member(msg, "content"@) is None ==> str_member(blocks[k], "content"@) == Some(
                        Seq::<char>::empty(),
                    )
                    &&& str_member(msg, "tool_call_id"@) is Some ==> str_member(blocks[k], "tool_use_id"@)
                        == str_member(msg, "tool_call_id"@)
                    &&& str_member(msg, "content"@) is Some ==> str_member(blocks[k], "content"@) == str_member(
                        msg,
                        "content"@,
                    )
                    &&& member(blocks[k], "is_error"@) == Some(
                        JsonV::Bool(member(msg, "is_error"@) == Some(JsonV::Bool(true))),
                    )
                }
        },
{
    reveal_strlit("tool");
    lemma_tool_run_is(msgs, i, j);
    let blocks = tool_results(msgs, i, j);
    lemma_block_message("user"@, blocks);
    let rest = converted(msgs, j)->Some_0;
    assert(out == seq![block_message("user"@, blocks)] + rest);
    assert(out.drop_first() =~= rest);
    assert forall|k: int| 0 <= k < blocks.len() implies #[trigger] blocks[k] == tool_result(msgs[i + k]) by {}
    assert forall|k: int| 0 <= k < blocks.len() implies {
        let msg = msgs[i + k];
        &&& member(#[trigger] blocks[k], "type"@) == Some(JsonV::Str("tool_result"@))
        &&& str_member(msg, "tool_call_id"@) is None ==> str_member(blocks[k], "tool_use_id"@) == Some(
            Seq::<char>::empty(),
        )
        &&& str_member(msg, "content"@) is None ==> str_member(blocks[k], "content"@) == Some(Seq::<char>::empty())
        &&& str_member(msg, "tool_call_id"@) is Some ==> str_member(blocks[k], "tool_use_id"@) == str_member(
            msg,
            "tool_call_id"@,
        )
        &&& str_member(msg, "content"@) is Some ==> str_member(blocks[k], "content"@) == str_member(msg, "content"@)
        &&& member(blocks[k], "is_error"@) == Some(
            JsonV::Bool(member(msg, "is_error"@) == Some(JsonV::Bool(true))),
        )
    } by {
        lemma_tool_result_members(msgs[i + k]);
    }
}

proof fn lemma_tool_run_is(msgs: Seq<JsonV>, i: int, j: int)
    requires
        0 <= i <= j <= msgs.len(),
        forall|k: int| i <= k < j ==> member(#[trigger] msgs[k], "role"@) == Some(JsonV::Str("tool"@)),
        j < msgs.len() ==> member(msgs[j], "role"@) != Some(JsonV::Str("tool"@)),
    ensures
        tool_run_end(msgs, i) == j,
    decreases j - i,
{
    if i < j {
        assert(is_tool_message(msgs[i]));
        lemma_tool_run_is(msgs, i + 1, j);
    }
}

proof fn lemma_tool_run_runs(msgs: Seq<JsonV>, i: int, k: int)
    requires
        0 <= i <= k < tool_run_end(msgs, i),
        i <= msgs.len(),
    ensures
        is_tool_message(msgs[k]),
    decreases msgs.len() - i,
{
    if i < k {
        lemma_tool_run_runs(msgs, i + 1, k);
    }
}

/// Every tool message of a conversation that can be converted is in it as a block of a
/// user message: the block answers the same call with the same text, and is marked as an
/// error exactly where the message is.
pub proof fn law_every_tool_result_is_carried_over(msgs: Seq<JsonV>, i: int, at: int, out: Seq<JsonV>)
    requires
        0 <= i <= at < msgs.len(),
        member(msgs[at], "role"@) == Some(JsonV::Str("tool"@)),
        converted(msgs, i) == Some(out),
    ensures
        exists|m: int, b: int|
            {
                &&& 0 <= m < out.len()
                &&& member(out[m], "role"@) == Some(JsonV::Str("user"@))
                &&& arr_member(out[m], "content"@) is Some
                &&& 0 <= b < arr_member(out[m], "content"@)->Some_0.len()
                &&& ({
                    let block = #[trigger] arr_member(out[m], "content"@)->Some_0[b];
                    &&& member(block, "type"@) == Some(JsonV::Str("tool_result"@))
                    &&& str_member(msgs[at], "tool_call_id"@) is Some ==> str_member(block, "tool_use_id"@)
                        == str_member(msgs[at], "tool_call_id"@)
                    &&& str_member(msgs[at], "content"@) is Some ==> str_member(block, "content"@) == str_member(
                        msgs[at],
                        "content"@,
                    )
                    &&& member(block, "is_error"@) == Some(
                        JsonV::Bool(member(msgs[at], "is_error"@) == Some(JsonV::Bool(true))),
                    )
                })
            },
    decreases msgs.len() - i,
{
    reveal_strlit("tool");
    let msg = msgs[i];
    if is_tool_message(msg) {
        lemma_tool_run_end(msgs, i);
        let j = tool_run_end(msgs, i);
        let blocks = tool_results(msgs, i, j);
        let rest = converted(msgs, j)->Some_0;
        assert(out == seq![block_message("user"@, blocks)] + rest);
        if at < j {
            lemma_block_message("user"@, blocks);
            lemma_tool_result_members(msgs[at]);
            assert(blocks[at - i] == tool_result(msgs[at]));
            assert(arr_member(out[0], "content"@)->Some_0[at - i] == tool_result(msgs[at]));
        } else {
            law_every_tool_result_is_carried_over(msgs, j, at, rest);
            let (m, b) = choose|m: int, b: int|
                {
                    &&& 0 <= m < rest.len()
                    &&& member(rest[m], "role"@) == Some(JsonV::Str("user"@))
                    &&& arr_member(rest[m], "content"@) is Some
                    &&& 0 <= b < arr_member(rest[m], "content"@)->Some_0.len()
                    &&& ({
                        let block = #[trigger] arr_member(rest[m], "content"@)->Some_0[b];
                        &&& member(block, "type"@) == Some(JsonV::Str("tool_result"@))
                        &&& str_member(msgs[at], "tool_call_id"@) is Some ==> str_member(block, "tool_use_id"@)
                            == str_member(msgs[at], "tool_call_id"@)
                        &&& str_member(msgs[at], "content"@) is Some ==> str_member(block, "content"@)
                            == str_member(msgs[at], "content"@)
                        &&& member(block, "is_error"@) == Some(
                            JsonV::Bool(member(msgs[at], "is_error"@) == Some(JsonV::Bool(true))),
                        )
                    })
                };
            assert(out[m + 1] == rest[m]);
            assert(arr_member(out[m + 1], "content"@)->Some_0[b] == arr_member(rest[m], "content"@)->Some_0[b]);
        }
    } else {
        let rest = converted(msgs, i + 1)->Some_0;
        assert(converted(msgs, i + 1) is Some);
        law_every_tool_result_is_carried_over(msgs, i + 1, at, rest);
        let (m, b) = choose|m: int, b: int|
            {
                &&& 0 <= m < rest.len()
                &&& member(rest[m], "role"@) == Some(JsonV::Str("user"@))
                &&& arr_member(rest[m], "content"@) is Some
                &&& 0 <= b < arr_member(rest[m], "content"@)->Some_0.len()
                &&& ({
                    let block = #[trigger] arr_member(rest[m], "content"@)->Some_0[b];
                    &&& member(block, "type"@) == Some(JsonV::Str("tool_result"@))
                    &&& str_member(msgs[at], "tool_call_id"@) is Some ==> str_member(block, "tool_use_id"@)
                        == str_member(msgs[at], "tool_call_id"@)
                    &&& str_member(msgs[at], "content"@) is Some ==> str_member(block, "content"@) == str_member(
                        msgs[at],
                        "content"@,
                    )
                    &&& member(block, "is_error"@) == Some(
                        JsonV::Bool(member(msgs[at], "is_error"@) == Some(JsonV::Bool(true))),
                    )
                })
            };
        let shift: int = out.len() - rest.len();
        assert(out =~= rest || out.drop_first() =~= rest);
        assert(out[m + shift] == rest[m]);
        assert(arr_member(out[m + shift], "content"@)->Some_0[b] == arr_member(rest[m], "content"@)->Some_0[b]);
    }
}

/// A user message with a text becomes a user message whose one block is that text, and
/// what follows is converted behind it.
pub proof fn law_user_words_are_carried_over(msgs: Seq<JsonV>, i: int, text: Seq<char>, out: Seq<JsonV>)
    requires
        0 <= i < msgs.len(),
        member(msgs[i], "role"@) == Some(JsonV::Str("user"@)),
        member(msgs[i], "content"@) == Some(JsonV::Str(text)),
        text.len() > 0,
        converted(msgs, i) == Some(out),
    ensures
        out.len() > 0,
        converted(msgs, i + 1) == Some(out.drop_first()),
        member(out[0], "role"@) == Some(JsonV::Str("user"@)),
        arr_member(out[0], "content"@) matches Some(blocks) && {
            &&& blocks.len() == 1
            &&& member(blocks[0], "type"@) == Some(JsonV::Str("text"@))
            &&& member(blocks[0], "text"@) == Some(JsonV::Str(text))
        },
{
    reveal_strlit("user");
    reveal_strlit("tool");
    reveal_strlit("assistant");
    assert("user"@[0] == 'u' && "tool"@[0] == 't' && "assistant"@[0] == 'a');
    lemma_text_block(text);
    let blocks = seq![text_block(text)];
    lemma_block_message("user"@, blocks);
    let rest = converted(msgs, i + 1)->Some_0;
    assert(out == seq![block_message("user"@, blocks)] + rest);
    assert(out.drop_first() =~= rest);
}

proof fn lemma_text_block(text: Seq<char>)
    ensures
        member(text_block(text), "type"@) == Some(JsonV::Str("text"@)),
        member(text_block(text), "text"@) == Some(JsonV::Str(text)),
        member(thinking_block(text), "type"@) == Some(JsonV::Str("thinking"@)),
        member(thinking_block(text), "thinking"@) == Some(JsonV::Str(text)),
{
    reveal_strlit("type");
    reveal_strlit("text");
    reveal_strlit("thinking");
    assert("type"@[1] == 'y' && "text"@[1] == 'e' && "thinking"@.len() == 8);
}

/// A message that is neither the user's, the assistant's nor a tool's is left out.
pub proof fn law_other_roles_are_left_out(msgs: Seq<JsonV>, i: int)
    requires
        0 <= i < msgs.len(),
        member(msgs[i], "role"@) != Some(JsonV::Str("user"@)),
        member(msgs[i], "role"@) != Some(JsonV::Str("assistant"@)),
        member(msgs[i], "role"@) != Some(JsonV::Str("tool"@)),
    ensures
        converted(msgs, i) == converted(msgs, i + 1),
{
    if let Some(role) = str_member(msgs[i], "role"@) {
        assert(member(msgs[i], "role"@) == Some(JsonV::Str(role)));
    }
}

/// The calls of an assistant message become one block each, in order: with the call's id,
/// its function's name, and its arguments where they can be read, else no input. One call
/// without an id or a name leaves nothing to send.
pub proof fn law_calls_become_blocks(a: Seq<JsonV>, n: nat, i: int)
    requires
        0 <= i < n <= a.len(),
    ensures
        call_blocks(a, n) matches Some(blocks) ==> {
            let f = member(a[i], "function"@)->Some_0;
            let args = str_member(f, "arguments"@);
            &&& blocks.len() == n
            &&& member(blocks[i], "type"@) == Some(JsonV::Str("tool_use"@))
            &&& member(blocks[i], "id"@) is Some
            &&& member(blocks[i], "id"@) == member(a[i], "id"@)
            &&& member(a[i], "function"@) is Some
            &&& member(blocks[i], "name"@) == member(f, "name"@)
            &&& args is Some && args->Some_0.len() > 0 && json_parse(args->Some_0) is Ok ==> member(
                blocks[i],
                "input"@,
            ) == Some(json_parse(args->Some_0)->Ok_0)
            &&& args is None || args->Some_0.len() == 0 || json_parse(args->Some_0) is Err ==> member(
                blocks[i],
                "input"@,
            ) == Some(JsonV::Obj(Map::empty()))
        },
        str_member(a[i], "id"@) is None || member(a[i], "function"@) is None || str_member(
            member(a[i], "function"@)->Some_0,
            "name"@,
        ) is None ==> call_blocks(a, n) is None,
    decreases n,
{
    reveal_strlit("type");
    reveal_strlit("id");
    reveal_strlit("name");
    reveal_strlit("input");
    assert("id"@.len() == 2 && "input"@.len() == 5 && "type"@[0] == 't' && "name"@[0] == 'n');
    lemma_call_blocks_len(a, n);
    if i < n - 1 {
        law_calls_become_blocks(a, (n - 1) as nat, i);
        lemma_call_blocks_len(a, (n - 1) as nat);
    } else {
        lemma_call_blocks_len(a, (n - 1) as nat);
    }
}

proof fn lemma_call_blocks_len(a: Seq<JsonV>, n: nat)
    requires
        n <= a.len(),
    ensures
        call_blocks(a, n) matches Some(blocks) ==> blocks.len() == n,
    decreases n,
{
    if n > 0 {
        lemma_call_blocks_len(a, (n - 1) as nat);
    }
}

/// An assistant message comes with its thoughts first, where it has any, then its text,
/// and then its calls.
pub proof fn law_assistant_blocks_are_in_order(msg: JsonV, text: Seq<char>, thought: Seq<char>, calls: Seq<JsonV>)
    requires
        member(msg, "content"@) == Some(JsonV::Str(text)),
        member(msg, "reasoning_content"@) == Some(JsonV::Str(thought)),
        member(msg, "tool_calls"@) == Some(JsonV::Arr(calls)),
    ensures
        message_blocks("assistant"@, msg) is Some <==> call_blocks(calls, calls.len()) is Some,
        message_blocks("assistant"@, msg) matches Some(blocks) ==> {
            let thoughts: int = if thought.len() > 0 {
                1
            } else {
                0
            };
            let words: int = if text.len() > 0 {
                1
            } else {
                0
            };
            &&& blocks.len() == thoughts + words + calls.len()
            &&& thought.len() > 0 ==> member(blocks[0], "type"@) == Some(JsonV::Str("thinking"@)) && member(
                blocks[0],
                "thinking"@,
            ) == Some(JsonV::Str(thought))
            &&& text.len() > 0 ==> member(blocks[thoughts], "type"@) == Some(JsonV::Str("text"@)) && member(
                blocks[thoughts],
                "text"@,
            ) == Some(JsonV::Str(text))
            &&& blocks.skip(thoughts + words) == call_blocks(calls, calls.len())->Some_0
        },
{
    lemma_text_block(text);
    lemma_text_block(thought);
    lemma_call_blocks_len(calls, calls.len());
    if let Some(blocks) = message_blocks("assistant"@, msg) {
        let made = call_blocks(calls, calls.len())->Some_0;
        assert(blocks.skip(blocks.len() - made.len()) =~= made);
    }
}

/// An assistant message without calls and thoughts becomes just its text; one without
/// any of these is left out, and a call that cannot be read leaves nothing to send.
pub proof fn law_assistant_words_are_carried_over(msgs: Seq<JsonV>, i: int, blocks: Seq<JsonV>)
    requires
        0 <= i < msgs.len(),
        member(msgs[i], "role"@) == Some(JsonV::Str("assistant"@)),
    ensures
        message_blocks("assistant"@, msgs[i]) is None ==> converted(msgs, i) is None,
        message_blocks("assistant"@, msgs[i]) == Some(blocks) && blocks.len() == 0 ==> converted(msgs, i)
            == converted(msgs, i + 1),
        message_blocks("assistant"@, msgs[i]) == Some(blocks) && blocks.len() > 0 ==> {
            &&& converted(msgs, i) is Some <==> converted(msgs, i + 1) is Some
            &&& converted(msgs, i) matches Some(out) ==> {
                &&& out.len() > 0
                &&& converted(msgs, i + 1) == Some(out.drop_first())
                &&& member(out[0], "role"@) == Some(JsonV::Str("assistant"@))
                &&& arr_member(out[0], "content"@) == Some(blocks)
            }
        },
        member(msgs[i], "tool_calls"@) is None && member(msgs[i], "reasoning_content"@) is None ==> (member(
            msgs[i],
            "content"@,
        ) matches Some(JsonV::Str(text)) ==> message_blocks("assistant"@, msgs[i]) == Some(
            if text.len() > 0 {
                seq![text_block(text)]
            } else {
                Seq::empty()
            },
        )),
{
    reveal_strlit("assistant");
    reveal_strlit("tool");
    assert("tool"@[0] == 't' && "assistant"@[0] == 'a');
    lemma_block_message("assistant"@, blocks);
    if message_blocks("assistant"@, msgs[i]) == Some(blocks) && blocks.len() > 0 {
        if converted(msgs, i + 1) is Some {
            let rest = converted(msgs, i + 1)->Some_0;
            assert((seq![block_message("assistant"@, blocks)] + rest).drop_first() =~= rest);
        }
    }
}

/// Of a list of blocks those of a known type are kept, in order, as they are.
pub proof fn law_known_blocks_are_kept(a: Seq<JsonV>, n: nat, i: int)
    requires
        0 <= i < n <= a.len(),
    ensures
        str_member(a[i], "type"@) == Some("text"@) || str_member(a[i], "type"@) == Some("tool_use"@) || str_member(
            a[i],
            "type"@,
        ) == Some("tool_result"@) || str_member(a[i], "type"@) == Some("thinking"@) || str_member(a[i], "type"@)
            == Some("redacted_thinking"@) ==> {
            let at = supported_blocks(a, i as nat).len();
            &&& at < supported_blocks(a, n).len()
            &&& supported_blocks(a, n)[at as int] == a[i]
        },
        supported_blocks(a, i as nat).is_prefix_of(supported_blocks(a, n)),
        supported_blocks(a, n).len() <= n,
        forall|k: int|
            0 <= k < supported_blocks(a, n).len() ==> {
                let kind = str_member(#[trigger] supported_blocks(a, n)[k], "type"@);
                kind == Some("text"@) || kind == Some("tool_use"@) || kind == Some("tool_result"@) || kind == Some(
                    "thinking"@,
                ) || kind == Some("redacted_thinking"@)
            },
    decreases n,
{
    if i < n - 1 {
        law_known_blocks_are_kept(a, (n - 1) as nat, i);
    } else if n > 1 {
        law_known_blocks_are_kept(a, (n - 1) as nat, 0);
    }
}

/// A chat request names the model, how long the answer may be, what the system says and
/// what was said; it offers tools, to be used as the model sees fit, exactly where there
/// are any.
pub proof fn law_chat_body_says_what_is_asked(
    model: Seq<char>,
    max_tokens: u32,
    system: Seq<char>,
    messages: Seq<JsonV>,
    tools: Option<Seq<JsonV>>,
)
    ensures
        ({
            let body = chat_body(model, max_tokens, system, messages, tools);
            &&& member(body, "model"@) == Some(JsonV::Str(model))
            &&& member(body, "max_tokens"@) == Some(JsonV::Num(Num::Unsigned(max_tokens as u64)))
            &&& member(body, "system"@) == Some(JsonV::Str(system))
            &&& member(body, "messages"@) == Some(JsonV::Arr(messages))
            &&& tools is None || tools->Some_0.len() == 0 ==> member(body, "tools"@) is None && member(
                body,
                "tool_choice"@,
            ) is None
            &&& tools is Some && tools->Some_0.len() > 0 ==> member(body, "tools"@) == Some(
                JsonV::Arr(tools->Some_0),
            ) && member(body, "tool_choice"@) is Some && member(member(body, "tool_choice"@)->Some_0, "type"@)
                == Some(JsonV::Str("auto"@))
        }),
{
    reveal_strlit("model");
    reveal_strlit("max_tokens");
    reveal_strlit("system");
    reveal_strlit("messages");
    reveal_strlit("tools");
    reveal_strlit("tool_choice");
    assert("model"@.len() == 5 && "tools"@.len() == 5 && "model"@[0] == 'm' && "tools"@[0] == 't');
    assert("max_tokens"@.len() == 10 && "system"@.len() == 6 && "messages"@.len() == 8 && "tool_choice"@.len() == 11);
}

/// A tool is offered under its own name, with its description where it has one, and with
/// the schema of its input; without a name it is not offered at all.
pub proof fn law_tool_is_offered_as_described(item: JsonV)
    requires
        item is Obj,
    ensures
        ({
            let wrapped = str_member(item, "type"@) == Some("function"@);
            let owner = if wrapped {
                member(item, "function"@)
            } else {
                Some(item)
            };
            match converted_tool(item) {
                None => owner is None || str_member(owner->Some_0, "name"@) is None || str_member(
                    owner->Some_0,
                    "name"@,
                )->Some_0.len() == 0,
                Some(tool) => {
                    let schema = if wrapped {
                        member(owner->Some_0, "parameters"@)
                    } else {
                        member(owner->Some_0, "input_schema"@)
                    };
                    &&& owner is Some
                    &&& str_member(tool, "name"@) is Some
                    &&& str_member(tool, "name"@)->Some_0.len() > 0
                    &&& str_member(tool, "name"@) == str_member(owner->Some_0, "name"@)
                    &&& str_member(tool, "description"@) == str_member(owner->Some_0, "description"@)
                    &&& member(tool, "input_schema"@) == (if schema is Some {
                        schema
                    } else {
                        Some(JsonV::Obj(Map::empty()))
                    })
                },
            }
        }),
{
    reveal_strlit("name");
    reveal_strlit("description");
    reveal_strlit("input_schema");
    assert("name"@.len() == 4 && "description"@.len() == 11 && "input_schema"@.len() == 12);
}

/// The tools that are offered are those that have a name, in order.
pub proof fn law_tools_are_offered_in_order(a: Seq<JsonV>, n: nat, i: int)
    requires
        0 <= i < n <= a.len(),
    ensures
        converted_tool(a[i]) matches Some(tool) ==> {
            let at = converted_tools(a, i as nat).len();
            &&& at < converted_tools(a, n).len()
            &&& converted_tools(a, n)[at as int] == tool
        },
        converted_tools(a, i as nat).is_prefix_of(converted_tools(a, n)),
        (forall|k: int| 0 <= k < n ==> converted_tool(#[trigger] a[k]) is Some) ==> converted_tools(a, n).len() == n,
        converted_tools(a, n).len() <= n,
    decreases n,
{
    if i < n - 1 {
        law_tools_are_offered_in_order(a, (n - 1) as nat, i);
    } else if n > 1 {
        law_tools_are_offered_in_order(a, (n - 1) as nat, 0);
    }
}

/// What cannot be read as a list of tools is refused; where none is given, none is
/// offered.
pub proof fn law_unreadable_tools_are_refused(
    model: Seq<char>,
    max_tokens: u32,
    system: Seq<char>,
    messages: JsonV,
    tools: Seq<char>,
)
    requires
        converted_messages(messages) is Ok,
    ensures
        tools.len() > 0 && !(json_parse(tools) matches Ok(JsonV::Arr(_))) ==> chat_body_result(
            model,
            max_tokens,
            system,
            messages,
            Some(tools),
        ) == Err::<JsonV, LlmErrorV>(llm_error(ESP_ERR_INVALID_ARG as int, "Invalid tools JSON"@)),
        tools.len() == 0 ==> chat_body_result(model, max_tokens, system, messages, Some(tools)) == chat_body_result(
            model,
            max_tokens,
            system,
            messages,
            None,
        ),
        chat_body_result(model, max_tokens, system, messages, None) matches Ok(body) && member(body, "messages"@)
            == Some(JsonV::Arr(converted_messages(messages)->Ok_0)) && member(body, "tools"@) is None,
{
    law_chat_body_says_what_is_asked(model, max_tokens, system, converted_messages(messages)->Ok_0, None);
}

/// A media request shows the model what is asked and then the picture, as the user's
/// words, with the picture's own type and data.
pub proof fn law_media_body_shows_the_picture(
    model: Seq<char>,
    max_tokens: u32,
    system: Seq<char>,
    prompt: Seq<char>,
    mime: Seq<char>,
    data: Seq<char>,
)
    ensures
        ({
            let body = media_body(model, max_tokens, system, prompt, mime, data);
            &&& member(body, "model"@) == Some(JsonV::Str(model))
            &&& member(body, "max_tokens"@) == Some(JsonV::Num(Num::Unsigned(max_tokens as u64)))
            &&& member(body, "system"@) == Some(JsonV::Str(system))
            &&& arr_member(body, "messages"@) matches Some(said) && {
                &&& said.len() == 1
                &&& member(said[0], "role"@) == Some(JsonV::Str("user"@))
                &&& arr_member(said[0], "content"@) matches Some(blocks) && {
                    &&& blocks.len() == 2
                    &&& member(blocks[0], "type"@) == Some(JsonV::Str("text"@))
                    &&& member(blocks[0], "text"@) == Some(JsonV::Str(prompt))
                    &&& member(blocks[1], "type"@) == Some(JsonV::Str("image"@))
                    &&& member(blocks[1], "source"@) matches Some(source) && {
                        &&& member(source, "type"@) == Some(JsonV::Str("base64"@))
                        &&& member(source, "media_type"@) == Some(JsonV::Str(mime))
                        &&& member(source, "data"@) == Some(JsonV::Str(data))
                    }
                }
            }
        }),
{
    reveal_strlit("model");
    reveal_strlit("max_tokens");
    reveal_strlit("system");
    reveal_strlit("messages");
    reveal_strlit("type");
    reveal_strlit("source");
    reveal_strlit("media_type");
    reveal_strlit("data");
    assert("model"@.len() == 5 && "max_tokens"@.len() == 10 && "system"@.len() == 6 && "messages"@.len() == 8);
    assert("type"@.len() == 4 && "source"@.len() == 6 && "media_type"@.len() == 10 && "data"@.len() == 4
        && "type"@[0] == 't' && "data"@[0] == 'd');
    lemma_text_block(prompt);
    let body = media_body(model, max_tokens, system, prompt, mime, data);
    let said = arr_member(body, "messages"@)->Some_0;
    let blocks = arr_member(said[0], "content"@)->Some_0;
    lemma_block_message("user"@, seq![text_block(prompt), blocks[1]]);
    reveal_strlit("role");
    reveal_strlit("content");
    assert("role"@.len() == 4 && "content"@.len() == 7);
}

/// The texts of blocks of one type are put together in order, and blocks of other types
/// add nothing.
pub proof fn law_block_texts_are_joined_in_order(a: Seq<JsonV>, b: Seq<JsonV>, kind: Seq<char>)
    ensures
        joined_blocks(a + b, (a + b).len(), kind) == joined_blocks(a, a.len(), kind) + joined_blocks(b, b.len(), kind),
        a.len() == 1 ==> joined_blocks(a, 1, kind) == (if str_member(a[0], "type"@) == Some(kind) && str_member(
            a[0],
            kind,
        ) is Some {
            str_member(a[0], kind)->Some_0
        } else {
            Seq::empty()
        }),
    decreases b.len(),
{
    reveal_with_fuel(joined_blocks, 2);
    if a.len() == 1 {
        assert(joined_blocks(a, 0, kind) == Seq::<char>::empty());
        assert(forall|t: Seq<char>| #[trigger] (Seq::<char>::empty() + t) =~= t);
    }
    if b.len() == 0 {
        assert(a + b =~= a);
        assert(joined_blocks(a, a.len(), kind) + Seq::<char>::empty() =~= joined_blocks(a, a.len(), kind));
    } else {
        let short = b.drop_last();
        let whole = a + b;
        let n = (whole.len() - 1) as nat;
        law_block_texts_are_joined_in_order(a, short, kind);
        lemma_joined_prefix(whole, a + short, n, kind);
        lemma_joined_prefix(b, short, (b.len() - 1) as nat, kind);
        let front = joined_blocks(a, a.len(), kind);
        let back = joined_blocks(short, short.len(), kind);
        assert(whole[n as int] == b.last());
        if str_member(b.last(), "type"@) == Some(kind) && str_member(b.last(), kind) is Some {
            let t = str_member(b.last(), kind)->Some_0;
            assert((front + back) + t =~= front + (back + t));
        }
    }
}

proof fn lemma_joined_prefix(a: Seq<JsonV>, b: Seq<JsonV>, n: nat, kind: Seq<char>)
    requires
        n <= a.len(),
        n <= b.len(),
        forall|i: int| 0 <= i < n ==> a[i] == b[i],
    ensures
        joined_blocks(a, n, kind) == joined_blocks(b, n, kind),
    decreases n,
{
    if n > 0 {
        lemma_joined_prefix(a, b, (n - 1) as nat, kind);
    }
}

/// Each tool block of an accepted answer is a call, in order, with the block's id, name
/// and input; no other block is one. A block without an input has an empty one.
pub proof fn law_tool_blocks_are_the_calls(a: Seq<JsonV>, n: nat, i: int, calls: Seq<ToolCallV>)
    requires
        0 <= i < n <= a.len(),
        block_calls(a, n) == Some(calls),
    ensures
        block_calls(a, i as nat) matches Some(before) && {
            &&& before.is_prefix_of(calls)
            &&& block_calls(a, (i + 1) as nat) matches Some(so_far) && so_far.len() == (if str_member(a[i], "type"@)
                == Some("tool_use"@) {
                before.len() + 1
            } else {
                before.len()
            })
            &&& str_member(a[i], "type"@) == Some("tool_use"@) ==> {
                let call = calls[before.len() as int];
                &&& before.len() < calls.len()
                &&& str_member(a[i], "id"@) == Some(call.id)
                &&& str_member(a[i], "name"@) == Some(call.name)
                &&& member(a[i], "input"@) is None ==> call.arguments_json == "{}"@
                &&& member(a[i], "input"@) matches Some(input) ==> json_text(input) == Some(call.arguments_json)
            }
        },
    decreases n,
{
    if i < n - 1 {
        assert(block_calls(a, (n - 1) as nat) is Some);
        law_tool_blocks_are_the_calls(a, (n - 1) as nat, i, block_calls(a, (n - 1) as nat)->Some_0);
    } else {
        assert(block_calls(a, (n - 1) as nat) is Some);
    }
}

/// An accepted answer says what its blocks say: its text is theirs put together, its
/// thoughts likewise, its calls are theirs, and what is kept of it is an assistant message
/// with the same blocks. It never says nothing.
pub proof fn law_anthropic_reply_says_what_the_blocks_say(root: JsonV, reply: LlmResponseV)
    requires
        anthropic_reply(root) == Ok::<LlmResponseV, LlmErrorV>(reply),
    ensures
        arr_member(root, "content"@) matches Some(blocks) && {
            let words = joined_blocks(blocks, blocks.len(), "text"@);
            let thoughts = joined_blocks(blocks, blocks.len(), "thinking"@);
            &&& reply.text == (if words.len() > 0 {
                Some(words)
            } else {
                None
            })
            &&& reply.reasoning_content == (if thoughts.len() > 0 {
                Some(thoughts)
            } else {
                None
            })
            &&& block_calls(blocks, blocks.len()) == Some(reply.tool_calls)
            &&& exists|message: JsonV|
                {
                    &&& member(message, "role"@) == Some(JsonV::Str("assistant"@))
                    &&& arr_member(message, "content"@) == Some(blocks)
                    &&& #[trigger] json_text(message) == reply.raw_message_json
                }
            &&& reply.text is Some || reply.reasoning_content is Some || reply.tool_calls.len() > 0
        },
{
    let blocks = arr_member(root, "content"@)->Some_0;
    let message = block_message("assistant"@, blocks);
    lemma_block_message("assistant"@, blocks);
    assert(json_text(message) == reply.raw_message_json);
}

/// An answer without blocks, one with a tool block that names no call, and one that says
/// nothing are refused, each with what is wrong.
pub proof fn law_anthropic_reply_is_refused(root: JsonV, e: LlmErrorV)
    requires
        anthropic_reply(root) == Err::<LlmResponseV, LlmErrorV>(e),
    ensures
        e.err == ESP_FAIL,
        arr_member(root, "content"@) is None ==> e.message == "LLM response missing content"@,
        arr_member(root, "content"@) matches Some(blocks) ==> {
            ||| e.message == "Out of memory copying LLM raw message"@
            ||| e.message == "Out of memory copying tool call"@ && block_calls(blocks, blocks.len()) is None
            ||| e.message == "LLM returned empty response"@ && block_calls(blocks, blocks.len()) == Some(
                Seq::<ToolCallV>::empty(),
            ) && joined_blocks(blocks, blocks.len(), "text"@).len() == 0 && joined_blocks(
                blocks,
                blocks.len(),
                "thinking"@,
            ).len() == 0
        },
{
    if let Some(blocks) = arr_member(root, "content"@) {
        if let Some(calls) = block_calls(blocks, blocks.len()) {
            if calls.len() == 0 {
                assert(calls =~= Seq::<ToolCallV>::empty());
            }
        }
    }
}

/// A request is sent as its body is written, and one that cannot be made or written is
/// not; what is wrong is said.
pub proof fn law_body_is_sent_as_written(b: Result<JsonV, LlmErrorV>, failure: Seq<char>)
    ensures
        b matches Err(e) ==> body_text(b, failure) == Err::<Seq<char>, LlmErrorV>(e),
        b matches Ok(v) ==> (json_text(v) matches Some(t) ==> body_text(b, failure) == Ok::<Seq<char>, LlmErrorV>(t)),
        b matches Ok(v) ==> json_text(v) is None ==> body_text(b, failure) == Err::<Seq<char>, LlmErrorV>(
            LlmErrorV { err: ESP_FAIL as int, message: failure },
        ),
{
}

/// What a picture is said to show is the text of the answer, and an answer without a text
/// says nothing of it.
pub proof fn law_picture_is_described_by_the_text(r: Result<LlmResponseV, LlmErrorV>)
    ensures
        r matches Err(e) ==> media_reply(r) == Err::<Seq<char>, LlmErrorV>(e),
        r matches Ok(x) ==> x.text is Some && x.text->Some_0.len() > 0 ==> media_reply(r) == Ok::<Seq<char>, LlmErrorV>(
            x.text->Some_0,
        ),
        r matches Ok(x) ==> (x.text is None || x.text->Some_0.len() == 0) ==> media_reply(r) == Err::<
            Seq<char>,
            LlmErrorV,
        >(LlmErrorV { err: ESP_FAIL as int, message: "LLM returned empty media response"@ }),
{
}

/// A picture can be asked about where the model sees pictures, something is asked, and
/// there is a picture; what is missing is said.
pub proof fn law_picture_is_asked_about_where_seen(supports_vision: bool, prompt: Option<Seq<char>>, count: nat)
    ensures
        media_request_error(supports_vision, prompt, count) is None <==> supports_vision && prompt is Some
            && prompt->Some_0.len() > 0 && count > 0,
        !supports_vision ==> media_request_error(supports_vision, prompt, count) == Some(
            LlmErrorV {
                err: ESP_ERR_NOT_SUPPORTED as int,
                message: "Selected profile does not support media inference"@,
            },
        ),
        supports_vision ==> (media_request_error(supports_vision, prompt, count) matches Some(e) ==> e == (LlmErrorV {
            err: ESP_ERR_INVALID_ARG as int,
            message: "media request is incomplete"@,
        })),
{
}

/// A request goes to the backend's address with the path of the model, under the
/// backend's key and the version of the protocol, and waits as long as the backend may.
pub proof fn law_anthropic_request_is_addressed(q: HttpJsonRequest, b: Anthropic, chat_path: Seq<char>)
    requires
        is_anthropic_request(q, b, chat_path),
    ensures
        q.url@ == url_join(b.base_url@, chat_path),
        q.timeout_ms == b.timeout_ms,
        q.headers@.len() == 2,
        q.headers@[0].0@ == "x-api-key"@,
        q.headers@[0].1@ == b.api_key@,
        q.headers@[1].0@ == "anthropic-version"@,
        q.headers@[1].1@ == "2023-06-01"@,
        q.api_key is None,
        q.auth_type is Some && q.auth_type->Some_0@ == "none"@,
{
    let shown = headers_view(q.headers@);
    assert(shown.len() == q.headers@.len());
    assert(shown[0] == (q.headers@[0].0@, q.headers@[0].1@));
    assert(shown[1] == (q.headers@[1].0@, q.headers@[1].1@));
}

/// A picture is shown by its own type and data; one that is at a URL cannot be shown, and
/// what went wrong in preparing it goes wrong with the request.
pub proof fn law_prepared_picture_is_shown(
    model: Seq<char>,
    max_tokens: u32,
    system: Seq<char>,
    prompt: Seq<char>,
    prepared: Result<PreparedV, LlmErrorV>,
)
    ensures
        prepared matches Err(e) ==> media_body_result(model, max_tokens, system, prompt, prepared) == Err::<
            JsonV,
            LlmErrorV,
        >(e),
        prepared matches Ok(p) ==> p.kind != PreparedKind::DataUrl ==> media_body_result(
            model,
            max_tokens,
            system,
            prompt,
            prepared,
        ) == Err::<JsonV, LlmErrorV>(
            LlmErrorV {
                err: ESP_ERR_NOT_SUPPORTED as int,
                message: "Anthropic backend requires local image data"@,
            },
        ),
        prepared matches Ok(p) ==> p.kind == PreparedKind::DataUrl ==> (data_url_split(p.payload) matches Some(parts)
            ==> media_body_result(model, max_tokens, system, prompt, prepared) == Ok::<JsonV, LlmErrorV>(
            media_body(model, max_tokens, system, prompt, parts.0, parts.1),
        )),
        prepared matches Ok(p) ==> p.kind == PreparedKind::DataUrl && data_url_split(p.payload) is None
            ==> media_body_result(model, max_tokens, system, prompt, prepared) == Err::<JsonV, LlmErrorV>(
            LlmErrorV { err: ESP_FAIL as int, message: "Failed to prepare Anthropic image payload"@ },
        ),
{
}

/// A message whose content is a list of blocks is sent with the blocks of known types, and
/// one without content with none.
pub proof fn law_listed_blocks_are_sent(msg: JsonV, a: Seq<JsonV>)
    ensures
        member(msg, "content"@) == Some(JsonV::Arr(a)) ==> message_blocks("user"@, msg) == Some(
            supported_blocks(a, a.len()),
        ),
        member(msg, "content"@) is None || member(msg, "content"@) == Some(JsonV::Null) ==> message_blocks(
            "user"@,
            msg,
        ) == Some(Seq::<JsonV>::empty()),
{
    reveal_strlit("user");
    reveal_strlit("assistant");
    assert("user"@.len() != "assistant"@.len());
}

/// A conversation with a call that cannot be read is refused; one that is no list is sent
/// empty.
pub proof fn law_unreadable_call_is_refused(messages: JsonV)
    ensures
        messages matches JsonV::Arr(msgs) ==> (converted(msgs, 0) matches Some(out) ==> converted_messages(messages)
            == Ok::<Seq<JsonV>, LlmErrorV>(out)),
        messages matches JsonV::Arr(msgs) ==> converted(msgs, 0) is None ==> converted_messages(messages) == Err::<
            Seq<JsonV>,
            LlmErrorV,
        >(LlmErrorV { err: ESP_ERR_NO_MEM as int, message: "Out of memory converting messages"@ }),
        !(messages is Arr) ==> converted_messages(messages) == Ok::<Seq<JsonV>, LlmErrorV>(Seq::empty()),
{
}

} // verus!
