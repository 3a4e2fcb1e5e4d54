//! Requests, responses and settings of the agent loop in C's layout.

#![allow(non_camel_case_types)]

use vstd::prelude::*;
use vstd::utf8::{encode_utf8, encode_utf8_decode_utf8, encode_utf8_valid_utf8};

use crate::agent_loop::CoreConfig;
use crate::callbacks::{CompletionSummary, PersistRecord};
use crate::capi::strings::{
    bytes_opt, c_bytes, c_bytes_opt, c_opt, c_owned, c_str, cstr_opt, cstr_str, cstring, holds_text,
    law_text_reads_as_written, lossy, opt_cstr, opt_into_raw,
};
use crate::consts::{CompletionType, ContextRecordType, ResponseStatus};
use crate::errname::{EspErr, ESP_ERR_INVALID_ARG, ESP_ERR_INVALID_STATE, ESP_OK};
use crate::llm::types::RuntimeConfig;
use crate::request::{RequestItem, ResponseItem};
use crate::text::opt_view;

verus! {

/// A request in C's layout.
#[derive(Debug, PartialEq, Eq)]
pub struct claw_core_request_t {
    pub request_id: u32,
    pub flags: u32,
    pub session_id: Option<Vec<u8>>,
    pub user_text: Option<Vec<u8>>,
    pub source_channel: Option<Vec<u8>>,
    pub source_chat_id: Option<Vec<u8>>,
    pub source_sender_id: Option<Vec<u8>>,
    pub source_message_id: Option<Vec<u8>>,
    pub source_cap: Option<Vec<u8>>,
    pub target_channel: Option<Vec<u8>>,
    pub target_chat_id: Option<Vec<u8>>,
}

/// Whether a request is the one that C handed over.
pub open spec fn received_from(item: RequestItem, c: claw_core_request_t) -> bool {
    &&& item.request_id == c.request_id
    &&& item.flags == c.flags
    &&& opt_view(item.session_id) == c_opt(c.session_id)
    &&& item.user_text@ == c_str(c.user_text)
    &&& opt_view(item.source_channel) == c_opt(c.source_channel)
    &&& opt_view(item.source_chat_id) == c_opt(c.source_chat_id)
    &&& opt_view(item.source_sender_id) == c_opt(c.source_sender_id)
    &&& opt_view(item.source_message_id) == c_opt(c.source_message_id)
    &&& opt_view(item.source_cap) == c_opt(c.source_cap)
    &&& opt_view(item.target_channel) == c_opt(c.target_channel)
    &&& opt_view(item.target_chat_id) == c_opt(c.target_chat_id)
}

/// Whether C gets a request as it is.
pub open spec fn handed_over(c: claw_core_request_t, item: RequestItem) -> bool {
    &&& c.request_id == item.request_id
    &&& c.flags == item.flags
    &&& bytes_opt(c.session_id) == c_bytes_opt(item.session_id)
    &&& bytes_opt(c.user_text) == Some(c_bytes(item.user_text@))
    &&& bytes_opt(c.source_channel) == c_bytes_opt(item.source_channel)
    &&& bytes_opt(c.source_chat_id) == c_bytes_opt(item.source_chat_id)
    &&& bytes_opt(c.source_sender_id) == c_bytes_opt(item.source_sender_id)
    &&& bytes_opt(c.source_message_id) == c_bytes_opt(item.source_message_id)
    &&& bytes_opt(c.source_cap) == c_bytes_opt(item.source_cap)
    &&& bytes_opt(c.target_channel) == c_bytes_opt(item.target_channel)
    &&& bytes_opt(c.target_chat_id) == c_bytes_opt(item.target_chat_id)
}

/// The request that C hands over.
pub fn request_from_c(r: &claw_core_request_t) -> (item: RequestItem)
    ensures
        received_from(item, *r),
{
    RequestItem {
        request_id: r.request_id,
        flags: r.flags,
        session_id: cstr_opt(&r.session_id),
        user_text: cstr_str(&r.user_text),
        source_channel: cstr_opt(&r.source_channel),
        source_chat_id: cstr_opt(&r.source_chat_id),
        source_sender_id: cstr_opt(&r.source_sender_id),
        source_message_id: cstr_opt(&r.source_message_id),
        source_cap: cstr_opt(&r.source_cap),
        target_channel: cstr_opt(&r.target_channel),
        target_chat_id: cstr_opt(&r.target_chat_id),
    }
}

/// The request as C gets it.
pub fn request_to_c(req: &RequestItem) -> (r: claw_core_request_t)
    ensures
        handed_over(r, *req),
{
    claw_core_request_t {
        request_id: req.request_id,
        flags: req.flags,
        session_id: opt_cstr(&req.session_id),
        user_text: Some(cstring(req.user_text.as_str())),
        source_channel: opt_cstr(&req.source_channel),
        source_chat_id: opt_cstr(&req.source_chat_id),
        source_sender_id: opt_cstr(&req.source_sender_id),
        source_message_id: opt_cstr(&req.source_message_id),
        source_cap: opt_cstr(&req.source_cap),
        target_channel: opt_cstr(&req.target_channel),
        target_chat_id: opt_cstr(&req.target_chat_id),
    }
}

/// Whether an optional text holds no zero.
pub open spec fn zero_free(o: Option<String>) -> bool {
    o matches Some(s) ==> !encode_utf8(s@).contains(0)
}

/// Whether no text of a request holds a zero.
pub open spec fn request_zero_free(item: RequestItem) -> bool {
    &&& zero_free(item.session_id)
    &&& !encode_utf8(item.user_text@).contains(0)
    &&& zero_free(item.source_channel)
    &&& zero_free(item.source_chat_id)
    &&& zero_free(item.source_sender_id)
    &&& zero_free(item.source_message_id)
    &&& zero_free(item.source_cap)
    &&& zero_free(item.target_channel)
    &&& zero_free(item.target_chat_id)
}

proof fn lemma_text_returns(s: Seq<char>)
    requires
        !encode_utf8(s).contains(0),
    ensures
        lossy(c_bytes(s)) == s,
{
    encode_utf8_valid_utf8(s);
    encode_utf8_decode_utf8(s);
}

proof fn lemma_opt_returns(o: Option<String>, p: Option<Vec<u8>>)
    requires
        zero_free(o),
        bytes_opt(p) == c_bytes_opt(o),
    ensures
        c_opt(p) == opt_view(o),
{
    match o {
        Some(s) => {
            lemma_text_returns(s@);
        },
        None => {},
    }
}

/// A request that C hands back is the request that C was given, where no text of
/// it holds a zero.
pub proof fn law_request_round_trip(item: RequestItem, c: claw_core_request_t, back: RequestItem)
    requires
        request_zero_free(item),
        handed_over(c, item),
        received_from(back, c),
    ensures
        back.request_id == item.request_id,
        back.flags == item.flags,
        opt_view(back.session_id) == opt_view(item.session_id),
        back.user_text@ == item.user_text@,
        opt_view(back.source_channel) == opt_view(item.source_channel),
        opt_view(back.source_chat_id) == opt_view(item.source_chat_id),
        opt_view(back.source_sender_id) == opt_view(item.source_sender_id),
        opt_view(back.source_message_id) == opt_view(item.source_message_id),
        opt_view(back.source_cap) == opt_view(item.source_cap),
        opt_view(back.target_channel) == opt_view(item.target_channel),
        opt_view(back.target_chat_id) == opt_view(item.target_chat_id),
{
    lemma_opt_returns(item.session_id, c.session_id);
    lemma_text_returns(item.user_text@);
    lemma_opt_returns(item.source_channel, c.source_channel);
    lemma_opt_returns(item.source_chat_id, c.source_chat_id);
    lemma_opt_returns(item.source_sender_id, c.source_sender_id);
    lemma_opt_returns(item.source_message_id, c.source_message_id);
    lemma_opt_returns(item.source_cap, c.source_cap);
    lemma_opt_returns(item.target_channel, c.target_channel);
    lemma_opt_returns(item.target_chat_id, c.target_chat_id);
}

/// A response in C's layout.
#[derive(Debug, PartialEq, Eq)]
pub struct claw_core_response_t {
    pub request_id: u32,
    pub status: i32,
    pub completion_type: i32,
    pub target_channel: Option<Vec<u8>>,
    pub target_chat_id: Option<Vec<u8>>,
    pub text: Option<Vec<u8>>,
    pub error_message: Option<Vec<u8>>,
}

/// Whether C gets a response as it is.
pub open spec fn response_laid_out(r: claw_core_response_t, item: ResponseItem) -> bool {
    &&& r.request_id == item.request_id
    &&& r.status == (match item.status {
        ResponseStatus::Success => 0i32,
        ResponseStatus::Error => 1i32,
    })
    &&& r.completion_type == 0
    &&& bytes_opt(r.target_channel) == c_owned(item.target_channel)
    &&& bytes_opt(r.target_chat_id) == c_owned(item.target_chat_id)
    &&& bytes_opt(r.text) == c_owned(item.text)
    &&& bytes_opt(r.error_message) == c_owned(item.error_message)
}

/// The response as C gets it.
pub fn write_response_to_c(item: &ResponseItem) -> (r: claw_core_response_t)
    ensures
        response_laid_out(r, *item),
{
    claw_core_response_t {
        request_id: item.request_id,
        status: item.status.as_c(),
        completion_type: match item.completion_type {
            CompletionType::Done => 0,
        },
        target_channel: opt_into_raw(&item.target_channel),
        target_chat_id: opt_into_raw(&item.target_chat_id),
        text: opt_into_raw(&item.text),
        error_message: opt_into_raw(&item.error_message),
    }
}

/// The report of a completed turn in C's layout.
#[derive(Debug, PartialEq, Eq)]
pub struct claw_core_completion_summary_t {
    pub request_id: u32,
    pub session_id: Option<Vec<u8>>,
    pub final_text: Option<Vec<u8>>,
    pub context_providers_csv: Vec<u8>,
    pub tool_calls_csv: Vec<u8>,
}

/// The report of a completed turn as C gets it.
pub fn summary_to_c(summary: &CompletionSummary) -> (r: claw_core_completion_summary_t)
    ensures
        r.request_id == summary.request_id,
        bytes_opt(r.session_id) == c_bytes_opt(summary.session_id),
        bytes_opt(r.final_text) == c_bytes_opt(summary.final_text),
        r.context_providers_csv@ == c_bytes(summary.context_providers_csv@),
        r.tool_calls_csv@ == c_bytes(summary.tool_calls_csv@),
{
    claw_core_completion_summary_t {
        request_id: summary.request_id,
        session_id: opt_cstr(&summary.session_id),
        final_text: opt_cstr(&summary.final_text),
        context_providers_csv: cstring(summary.context_providers_csv.as_str()),
        tool_calls_csv: cstring(summary.tool_calls_csv.as_str()),
    }
}

/// A record to persist in C's layout.
#[derive(Debug, PartialEq, Eq)]
pub struct claw_core_context_record_t {
    pub record_type: i32,
    pub message_json: Option<Vec<u8>>,
    pub text: Option<Vec<u8>>,
}

/// The records of a session to persist, in C's layout.
#[derive(Debug, PartialEq, Eq)]
pub struct claw_core_context_persist_batch_t {
    pub session_id: Option<Vec<u8>>,
    /// The request that the records belong to, nothing for a null pointer.
    pub request: Option<claw_core_request_t>,
    /// The records, none for a null pointer.
    pub records: Vec<claw_core_context_record_t>,
    pub turn_completed: bool,
}

/// The number of a record's type.
pub open spec fn record_code(t: ContextRecordType) -> i32 {
    match t {
        ContextRecordType::User => 1,
        ContextRecordType::AssistantFinal => 2,
        ContextRecordType::AssistantTool => 3,
        ContextRecordType::ToolResult => 4,
    }
}

/// Whether C gets a record as it is.
pub open spec fn record_handed_over(c: claw_core_context_record_t, r: PersistRecord) -> bool {
    &&& c.record_type == record_code(r.record_type)
    &&& bytes_opt(c.message_json) == c_bytes_opt(r.message_json)
    &&& bytes_opt(c.text) == c_bytes_opt(r.text)
}

/// The records of a session to persist, as C gets them.
pub fn persist_batch(session_id: &str, request: &RequestItem, records: &Vec<PersistRecord>, turn_completed: bool) -> (r:
    claw_core_context_persist_batch_t)
    ensures
        bytes_opt(r.session_id) == Some(c_bytes(session_id@)),
        r.request matches Some(c) && handed_over(c, *request),
        r.records@.len() == records@.len(),
        forall|i: int| 0 <= i < records@.len() ==> record_handed_over(#[trigger] r.records@[i], records@[i]),
        r.turn_completed == turn_completed,
{
    let mut out: Vec<claw_core_context_record_t> = Vec::new();
    let mut i: usize = 0;
    while i < records.len()
        invariant
            i <= records@.len(),
            out@.len() == i,
            forall|j: int| 0 <= j < i ==> record_handed_over(#[trigger] out@[j], records@[j]),
        decreases records@.len() - i,
    {
        out.push(
            claw_core_context_record_t {
                record_type: records[i].record_type.as_c(),
                message_json: opt_cstr(&records[i].message_json),
                text: opt_cstr(&records[i].text),
            },
        );
        i = i + 1;
    }
    claw_core_context_persist_batch_t {
        session_id: Some(cstring(session_id)),
        request: Some(request_to_c(request)),
        records: out,
        turn_completed,
    }
}

/// The settings of a loop in C's layout, but for its callbacks.
#[derive(Debug, PartialEq, Eq)]
pub struct claw_core_config_t {
    pub instance_id: u32,
    pub api_key: Option<Vec<u8>>,
    pub backend_type: Option<Vec<u8>>,
    pub model: Option<Vec<u8>>,
    pub base_url: Option<Vec<u8>>,
    pub auth_type: Option<Vec<u8>>,
    pub max_tokens_field: Option<Vec<u8>>,
    pub timeout_ms: u32,
    pub max_tokens: u32,
    pub image_max_bytes: usize,
    pub supports_tools: bool,
    pub supports_vision: bool,
    pub image_remote_url_only: bool,
    pub system_prompt: Option<Vec<u8>>,
    pub task_stack_size: u32,
    pub task_priority: u32,
    pub task_core: i32,
    pub max_tool_iterations: u32,
    pub request_queue_len: u32,
    pub response_queue_len: u32,
    pub max_context_providers: usize,
}

/// Whether the settings name what a loop cannot do without.
pub open spec fn config_is_complete(c: claw_core_config_t) -> bool {
    c.system_prompt is Some && c.api_key is Some && c.model is Some && c_str(c.backend_type).len() > 0
}

/// Whether these are the model settings that C means.
pub open spec fn runtime_from_c(r: RuntimeConfig, c: claw_core_config_t) -> bool {
    &&& opt_view(r.api_key) == c_opt(c.api_key)
    &&& r.backend_type@ == c_str(c.backend_type)
    &&& opt_view(r.model) == c_opt(c.model)
    &&& opt_view(r.base_url) == c_opt(c.base_url)
    &&& opt_view(r.auth_type) == c_opt(c.auth_type)
    &&& opt_view(r.max_tokens_field) == c_opt(c.max_tokens_field)
    &&& r.timeout_ms == c.timeout_ms
    &&& r.max_tokens == c.max_tokens
    &&& r.image_max_bytes == c.image_max_bytes
    &&& r.supports_tools == c.supports_tools
    &&& r.supports_vision == c.supports_vision
    &&& r.image_remote_url_only == c.image_remote_url_only
}

/// Whether these are the loop settings that C means.
pub open spec fn core_from_c(r: CoreConfig, c: claw_core_config_t) -> bool {
    &&& r.instance_id == c.instance_id
    &&& r.system_prompt@ == c_str(c.system_prompt)
    &&& r.max_tool_iterations == c.max_tool_iterations
    &&& r.request_queue_len == c.request_queue_len
    &&& r.response_queue_len == c.response_queue_len
    &&& r.max_context_providers == c.max_context_providers
    &&& r.task_stack_size == c.task_stack_size
    &&& r.task_priority == c.task_priority
    &&& r.task_core == c.task_core
}

/// The settings that C means. Settings without a prompt, a key, a model or a backend
/// are refused, and so are settings without a place for the loop.
pub fn claw_core_create(config: Option<&claw_core_config_t>, has_out: bool) -> (r: Result<
    (RuntimeConfig, CoreConfig),
    EspErr,
>)
    ensures
        match r {
            Ok(cfg) => has_out && (config matches Some(c) && config_is_complete(*c) && runtime_from_c(cfg.0, *c)
                && core_from_c(cfg.1, *c)),
            Err(e) => e == ESP_ERR_INVALID_ARG && (!has_out || config is None || !config_is_complete(
                *config.unwrap(),
            )),
        },
{
    if !has_out {
        return Err(ESP_ERR_INVALID_ARG);
    }
    let c = match config {
        Some(c) => c,
        None => {
            return Err(ESP_ERR_INVALID_ARG);
        },
    };
    let backend_type = cstr_str(&c.backend_type);
    if c.system_prompt.is_none() || c.api_key.is_none() || c.model.is_none() || c.backend_type.is_none()
        || backend_type.as_str().is_empty() {
        return Err(ESP_ERR_INVALID_ARG);
    }
    let runtime_config = RuntimeConfig {
        api_key: cstr_opt(&c.api_key),
        backend_type,
        model: cstr_opt(&c.model),
        base_url: cstr_opt(&c.base_url),
        auth_type: cstr_opt(&c.auth_type),
        max_tokens_field: cstr_opt(&c.max_tokens_field),
        timeout_ms: c.timeout_ms,
        max_tokens: c.max_tokens,
        image_max_bytes: c.image_max_bytes,
        supports_tools: c.supports_tools,
        supports_vision: c.supports_vision,
        image_remote_url_only: c.image_remote_url_only,
    };
    let core_config = CoreConfig {
        instance_id: c.instance_id,
        system_prompt: cstr_str(&c.system_prompt),
        max_tool_iterations: c.max_tool_iterations,
        request_queue_len: c.request_queue_len,
        response_queue_len: c.response_queue_len,
        max_context_providers: c.max_context_providers,
        task_stack_size: c.task_stack_size,
        task_priority: c.task_priority,
        task_core: c.task_core,
    };
    Ok((runtime_config, core_config))
}

/// The request and the text that a stage message is published with; a message needs both.
pub fn claw_core_publish_stage_text(request: Option<&claw_core_request_t>, text: &Option<Vec<u8>>) -> (r: Result<
    (RequestItem, String),
    EspErr,
>)
    ensures
        match r {
            Ok(m) => request matches Some(c) && received_from(m.0, *c) && m.1@ == c_str(*text) && c_str(*text).len() > 0,
            Err(e) => e == ESP_ERR_INVALID_ARG && (request is None || c_str(*text).len() == 0),
        },
{
    let request = match request {
        Some(c) => c,
        None => {
            return Err(ESP_ERR_INVALID_ARG);
        },
    };
    let text = cstr_str(text);
    if text.as_str().is_empty() {
        return Err(ESP_ERR_INVALID_ARG);
    }
    Ok((request_from_c(request), text))
}

/// The name of a context provider that C registers with a loop; it must have one, and
/// a function.
pub fn claw_core_add_context_provider(has_core: bool, name: &Option<Vec<u8>>, has_collect: bool) -> (r: Result<
    String,
    EspErr,
>)
    ensures
        match r {
            Ok(s) => has_core && has_collect && name is Some && s@ == c_str(*name),
            Err(e) => if !has_core {
                e == ESP_ERR_INVALID_STATE
            } else {
                e == ESP_ERR_INVALID_ARG && (!has_collect || name is None)
            },
        },
{
    if !has_core {
        return Err(ESP_ERR_INVALID_STATE);
    }
    if !has_collect || name.is_none() {
        return Err(ESP_ERR_INVALID_ARG);
    }
    Ok(cstr_str(name))
}

/// The code with which a loop's entry point refuses: it needs a loop first, and then
/// its argument.
pub fn entry_refusal(has_core: bool, has_argument: bool) -> (r: Option<EspErr>)
    ensures
        r == (if !has_core {
            Some(ESP_ERR_INVALID_STATE)
        } else if !has_argument {
            Some(ESP_ERR_INVALID_ARG)
        } else {
            None::<EspErr>
        }),
{
    if !has_core {
        return Some(ESP_ERR_INVALID_STATE);
    }
    if !has_argument {
        return Some(ESP_ERR_INVALID_ARG);
    }
    None
}

/// The request that is submitted to a loop.
pub fn claw_core_submit(has_core: bool, request: Option<&claw_core_request_t>) -> (r: Result<RequestItem, EspErr>)
    ensures
        match r {
            Ok(item) => has_core && (request matches Some(c) && received_from(item, *c)),
            Err(e) => if !has_core {
                e == ESP_ERR_INVALID_STATE
            } else {
                e == ESP_ERR_INVALID_ARG && request is None
            },
        },
{
    if !has_core {
        return Err(ESP_ERR_INVALID_STATE);
    }
    match request {
        Some(c) => Ok(request_from_c(c)),
        None => Err(ESP_ERR_INVALID_ARG),
    }
}

/// What a receiver is answered: a code, and the response where there is one.
pub fn claw_core_receive_for(received: &Result<ResponseItem, EspErr>) -> (r: (EspErr, Option<claw_core_response_t>))
    ensures
        match *received {
            Ok(item) => r.0 == ESP_OK && (r.1 matches Some(c) && response_laid_out(c, item)),
            Err(e) => r.0 == e && r.1 is None,
        },
{
    match received {
        Ok(item) => (ESP_OK, Some(write_response_to_c(item))),
        Err(e) => (*e, None),
    }
}

/// Takes the texts out of a response that was handed over, so that they are given
/// back once.
pub fn claw_core_response_free(response: &mut claw_core_response_t)
    ensures
        final(response).target_channel is None,
        final(response).target_chat_id is None,
        final(response).text is None,
        final(response).error_message is None,
        final(response).request_id == old(response).request_id,
        final(response).status == old(response).status,
        final(response).completion_type == old(response).completion_type,
{
    response.target_channel = None;
    response.target_chat_id = None;
    response.text = None;
    response.error_message = None;
}

/// What is next when a loop is destroyed.
#[derive(Clone, Copy, Debug, PartialEq, Eq, Structural)]
pub enum DestroyStep {
    /// Answer with the code, and keep the loop.
    Keep(EspErr),
    /// Stop the loop; then [`destroy_stopped`].
    Stop,
    /// Let the loop go.
    Release,
}

/// Begins to destroy a loop: one that runs is stopped first.
pub fn claw_core_destroy(has_core: bool, started: bool) -> (r: DestroyStep)
    ensures
        r == (if !has_core {
            DestroyStep::Keep(ESP_ERR_INVALID_STATE)
        } else if started {
            DestroyStep::Stop
        } else {
            DestroyStep::Release
        }),
{
    if !has_core {
        return DestroyStep::Keep(ESP_ERR_INVALID_STATE);
    }
    if started {
        DestroyStep::Stop
    } else {
        DestroyStep::Release
    }
}

/// Goes on with destroying a loop once it was told to stop: one that does not stop is
/// kept.
pub fn destroy_stopped(stopped: EspErr) -> (r: DestroyStep)
    ensures
        r == (if stopped == ESP_OK {
            DestroyStep::Release
        } else {
            DestroyStep::Keep(stopped)
        }),
{
    if stopped == ESP_OK {
        DestroyStep::Release
    } else {
        DestroyStep::Keep(stopped)
    }
}

/// What C asks for is taken over as it is: every text under its own name, and every number
/// and flag as given.
pub proof fn law_request_is_taken_over_as_it_is(item: RequestItem, c: claw_core_request_t, text: Seq<char>)
    requires
        received_from(item, c),
    ensures
        item.request_id == c.request_id,
        item.flags == c.flags,
        holds_text(c.user_text, text) ==> item.user_text@ == text,
        holds_text(c.session_id, text) ==> opt_view(item.session_id) == Some(text),
        holds_text(c.source_channel, text) ==> opt_view(item.source_channel) == Some(text),
        holds_text(c.source_chat_id, text) ==> opt_view(item.source_chat_id) == Some(text),
        holds_text(c.source_sender_id, text) ==> opt_view(item.source_sender_id) == Some(text),
        holds_text(c.source_message_id, text) ==> opt_view(item.source_message_id) == Some(text),
        holds_text(c.source_cap, text) ==> opt_view(item.source_cap) == Some(text),
        holds_text(c.target_channel, text) ==> opt_view(item.target_channel) == Some(text),
        holds_text(c.target_chat_id, text) ==> opt_view(item.target_chat_id) == Some(text),
        c.session_id is None ==> item.session_id is None,
        c.target_channel is None ==> item.target_channel is None,
        c.target_chat_id is None ==> item.target_chat_id is None,
        c.source_message_id is None ==> item.source_message_id is None,
{
    law_text_reads_as_written(c.user_text, text);
    law_text_reads_as_written(c.session_id, text);
    law_text_reads_as_written(c.source_channel, text);
    law_text_reads_as_written(c.source_chat_id, text);
    law_text_reads_as_written(c.source_sender_id, text);
    law_text_reads_as_written(c.source_message_id, text);
    law_text_reads_as_written(c.source_cap, text);
    law_text_reads_as_written(c.target_channel, text);
    law_text_reads_as_written(c.target_chat_id, text);
}

/// What C is answered is the response as it is: success is zero and an error is not, and
/// every text without zeros is there under its own name.
pub proof fn law_response_is_handed_over_as_it_is(r: claw_core_response_t, item: ResponseItem)
    requires
        response_laid_out(r, item),
    ensures
        r.request_id == item.request_id,
        item.status is Success <==> r.status == 0,
        item.status is Error <==> r.status == 1,
        item.text is None ==> r.text is None,
        item.error_message is None ==> r.error_message is None,
        item.text is Some && !encode_utf8(item.text->Some_0@).contains(0) ==> holds_text(r.text, item.text->Some_0@),
        item.error_message is Some && !encode_utf8(item.error_message->Some_0@).contains(0) ==> holds_text(
            r.error_message,
            item.error_message->Some_0@,
        ),
        item.target_channel is Some && !encode_utf8(item.target_channel->Some_0@).contains(0) ==> holds_text(
            r.target_channel,
            item.target_channel->Some_0@,
        ),
        item.target_chat_id is Some && !encode_utf8(item.target_chat_id->Some_0@).contains(0) ==> holds_text(
            r.target_chat_id,
            item.target_chat_id->Some_0@,
        ),
{
}

/// What is to be kept of a turn is handed to C as what it is, with its text or its message.
pub proof fn law_record_is_handed_over_as_it_is(c: claw_core_context_record_t, r: PersistRecord)
    requires
        record_handed_over(c, r),
    ensures
        r.record_type is User <==> c.record_type == 1,
        r.record_type is AssistantFinal <==> c.record_type == 2,
        r.record_type is AssistantTool <==> c.record_type == 3,
        r.record_type is ToolResult <==> c.record_type == 4,
        r.text is Some && !encode_utf8(r.text->Some_0@).contains(0) ==> holds_text(c.text, r.text->Some_0@),
        r.message_json is Some && !encode_utf8(r.message_json->Some_0@).contains(0) ==> holds_text(
            c.message_json,
            r.message_json->Some_0@,
        ),
        r.text is None <==> c.text is None,
        r.message_json is None <==> c.message_json is None,
{
}

/// The settings that C gives for the model are taken over as they are, each under its own
/// name.
pub proof fn law_model_settings_are_taken_over(r: RuntimeConfig, c: claw_core_config_t, text: Seq<char>)
    requires
        runtime_from_c(r, c),
    ensures
        holds_text(c.api_key, text) ==> opt_view(r.api_key) == Some(text),
        holds_text(c.backend_type, text) ==> r.backend_type@ == text,
        holds_text(c.model, text) ==> opt_view(r.model) == Some(text),
        holds_text(c.base_url, text) ==> opt_view(r.base_url) == Some(text),
        holds_text(c.auth_type, text) ==> opt_view(r.auth_type) == Some(text),
        holds_text(c.max_tokens_field, text) ==> opt_view(r.max_tokens_field) == Some(text),
        r.timeout_ms == c.timeout_ms,
        r.max_tokens == c.max_tokens,
        r.image_max_bytes == c.image_max_bytes,
        r.supports_tools == c.supports_tools,
        r.supports_vision == c.supports_vision,
        r.image_remote_url_only == c.image_remote_url_only,
{
    law_text_reads_as_written(c.api_key, text);
    law_text_reads_as_written(c.backend_type, text);
    law_text_reads_as_written(c.model, text);
    law_text_reads_as_written(c.base_url, text);
    law_text_reads_as_written(c.auth_type, text);
    law_text_reads_as_written(c.max_tokens_field, text);
}

/// The settings that C gives for the loop are taken over as they are.
pub proof fn law_loop_settings_are_taken_over(r: CoreConfig, c: claw_core_config_t, text: Seq<char>)
    requires
        core_from_c(r, c),
    ensures
        holds_text(c.system_prompt, text) ==> r.system_prompt@ == text,
        r.instance_id == c.instance_id,
        r.max_tool_iterations == c.max_tool_iterations,
        r.request_queue_len == c.request_queue_len,
        r.response_queue_len == c.response_queue_len,
        r.max_context_providers == c.max_context_providers,
        r.task_stack_size == c.task_stack_size,
        r.task_priority == c.task_priority,
        r.task_core == c.task_core,
{
    law_text_reads_as_written(c.system_prompt, text);
}

/// Settings without a prompt, a key, a model or a backend are not complete.
pub proof fn law_incomplete_settings_lack_something(c: claw_core_config_t, text: Seq<char>)
    ensures
        c.system_prompt is None || c.api_key is None || c.model is None || c.backend_type is None
            ==> !config_is_complete(c),
        c.system_prompt is Some && c.api_key is Some && c.model is Some && holds_text(c.backend_type, text) ==> (
        config_is_complete(c) <==> text.len() > 0),
{
    law_text_reads_as_written(c.backend_type, text);
}

} // verus!
