//! Data of the LLM layer.

use vstd::prelude::*;

use crate::errname::{EspErr, ESP_FAIL};
use crate::json::Json;
use crate::text::opt_view;

verus! {

/// A failure of the LLM layer: a platform code and a message.
#[derive(Clone, Debug, PartialEq, Eq)]
pub struct LlmError {
    pub err: EspErr,
    pub message: String,
}

/// What an [`LlmError`] holds.
#[verifier::ext_equal]
pub struct LlmErrorV {
    pub err: int,
    pub message: Seq<char>,
}

impl View for LlmError {
    type V = LlmErrorV;

    open spec fn view(&self) -> LlmErrorV {
        LlmErrorV { err: self.err as int, message: self.message@ }
    }
}

/// The failure with the code `err` and the text `message`.
pub open spec fn llm_error(err: int, message: Seq<char>) -> LlmErrorV {
    LlmErrorV { err, message }
}

impl LlmError {
    pub fn new(err: EspErr, message: &str) -> (r: LlmError)
        ensures
            r@ == llm_error(err as int, message@),
    {
        LlmError { err, message: message.to_owned() }
    }

    /// A failure with the general code.
    pub fn fail(message: &str) -> (r: LlmError)
        ensures
            r@ == llm_error(ESP_FAIL as int, message@),
    {
        LlmError { err: ESP_FAIL, message: message.to_owned() }
    }
}

/// A tool call that the model asks for.
#[derive(Clone, Debug, PartialEq, Eq)]
pub struct ToolCall {
    pub id: String,
    pub name: String,
    pub arguments_json: String,
}

/// What a [`ToolCall`] holds.
#[verifier::ext_equal]
pub struct ToolCallV {
    pub id: Seq<char>,
    pub name: Seq<char>,
    pub arguments_json: Seq<char>,
}

impl View for ToolCall {
    type V = ToolCallV;

    open spec fn view(&self) -> ToolCallV {
        ToolCallV { id: self.id@, name: self.name@, arguments_json: self.arguments_json@ }
    }
}

/// What the calls of a list hold.
pub open spec fn calls_view(v: Seq<ToolCall>) -> Seq<ToolCallV> {
    v.map_values(|c: ToolCall| c@)
}

/// A parsed answer of the model.
#[derive(Clone, Debug, PartialEq, Eq)]
pub struct LlmResponse {
    pub text: Option<String>,
    pub reasoning_content: Option<String>,
    pub raw_message_json: Option<String>,
    pub tool_calls: Vec<ToolCall>,
}

/// What an [`LlmResponse`] holds.
#[verifier::ext_equal]
pub struct LlmResponseV {
    pub text: Option<Seq<char>>,
    pub reasoning_content: Option<Seq<char>>,
    pub raw_message_json: Option<Seq<char>>,
    pub tool_calls: Seq<ToolCallV>,
}

impl View for LlmResponse {
    type V = LlmResponseV;

    open spec fn view(&self) -> LlmResponseV {
        LlmResponseV {
            text: opt_view(self.text),
            reasoning_content: opt_view(self.reasoning_content),
            raw_message_json: opt_view(self.raw_message_json),
            tool_calls: calls_view(self.tool_calls@),
        }
    }
}

/// What a parse of an answer gives.
pub open spec fn reply_view(r: Result<LlmResponse, LlmError>) -> Result<LlmResponseV, LlmErrorV> {
    match r {
        Ok(x) => Ok(x@),
        Err(e) => Err(e@),
    }
}

/// How a model is reached and what it can do.
#[derive(Clone, Debug, PartialEq, Eq)]
pub struct RuntimeConfig {
    pub api_key: Option<String>,
    pub backend_type: String,
    pub model: Option<String>,
    pub base_url: Option<String>,
    pub auth_type: Option<String>,
    pub max_tokens_field: Option<String>,
    pub timeout_ms: u32,
    pub max_tokens: u32,
    pub image_max_bytes: usize,
    pub supports_tools: bool,
    pub supports_vision: bool,
    pub image_remote_url_only: bool,
}

impl Default for RuntimeConfig {
    fn default() -> (r: RuntimeConfig)
        ensures
            r.api_key is None,
            r.backend_type@ == Seq::<char>::empty(),
            r.model is None,
            r.base_url is None,
            r.auth_type is None,
            r.max_tokens_field is None,
            r.timeout_ms == 0,
            r.max_tokens == 0,
            r.image_max_bytes == 0,
            !r.supports_tools,
            !r.supports_vision,
            !r.image_remote_url_only,
    {
        RuntimeConfig {
            api_key: None,
            backend_type: String::new(),
            model: None,
            base_url: None,
            auth_type: None,
            max_tokens_field: None,
            timeout_ms: 0,
            max_tokens: 0,
            image_max_bytes: 0,
            supports_tools: false,
            supports_vision: false,
            image_remote_url_only: false,
        }
    }
}

/// What a backend needs to know of the model it talks to.
#[derive(Clone, Debug, PartialEq, Eq)]
pub struct ModelProfile {
    pub chat_path: String,
    pub max_tokens_field: String,
    pub supports_tools: bool,
    pub supports_vision: bool,
    pub image_remote_url_only: bool,
}

impl Default for ModelProfile {
    fn default() -> (r: ModelProfile)
        ensures
            r.chat_path@ == Seq::<char>::empty(),
            r.max_tokens_field@ == Seq::<char>::empty(),
            !r.supports_tools,
            !r.supports_vision,
            !r.image_remote_url_only,
    {
        ModelProfile {
            chat_path: String::new(),
            max_tokens_field: String::new(),
            supports_tools: false,
            supports_vision: false,
            image_remote_url_only: false,
        }
    }
}

/// A chat request: the system prompt, the messages so far and the tools on offer.
pub struct ChatRequest<'a> {
    pub system_prompt: &'a str,
    pub messages: &'a Json,
    pub tools_json: Option<&'a str>,
}

/// Where a media asset comes from.
#[derive(Clone, Copy, Debug, PartialEq, Eq, Structural)]
pub enum AssetKind {
    LocalPath,
    RemoteUrl,
    InlineBytes,
}

/// A media asset to look at.
#[derive(Clone, Debug, PartialEq, Eq)]
pub struct MediaAsset {
    pub kind: AssetKind,
    pub path: Option<String>,
    pub url: Option<String>,
    pub bytes: Option<Vec<u8>>,
    pub mime_type: Option<String>,
}

/// A media request: prompts and the assets they are about.
pub struct MediaRequest<'a> {
    pub system_prompt: Option<&'a str>,
    pub user_prompt: Option<&'a str>,
    pub media: &'a Vec<MediaAsset>,
}

/// The form in which a prepared asset is sent.
#[derive(Clone, Copy, Debug, PartialEq, Eq, Structural)]
pub enum PreparedKind {
    DataUrl,
    RemoteUrl,
}

/// An asset ready to be sent.
#[derive(Clone, Debug, PartialEq, Eq)]
pub struct Prepared {
    pub kind: PreparedKind,
    pub payload: String,
    pub mime_type: String,
    pub original_size: usize,
}

/// What a [`Prepared`] holds.
#[verifier::ext_equal]
pub struct PreparedV {
    pub kind: PreparedKind,
    pub payload: Seq<char>,
    pub mime_type: Seq<char>,
    pub original_size: nat,
}

impl View for Prepared {
    type V = PreparedV;

    open spec fn view(&self) -> PreparedV {
        PreparedV {
            kind: self.kind,
            payload: self.payload@,
            mime_type: self.mime_type@,
            original_size: self.original_size as nat,
        }
    }
}

/// An HTTP request with a JSON body.
#[derive(Clone, Debug, PartialEq, Eq)]
pub struct HttpJsonRequest {
    pub url: String,
    pub body: String,
    pub api_key: Option<String>,
    pub auth_type: Option<String>,
    pub timeout_ms: u32,
    pub headers: Vec<(String, String)>,
}

/// What the headers of a request hold.
pub open spec fn headers_view(h: Seq<(String, String)>) -> Seq<(Seq<char>, Seq<char>)> {
    h.map_values(|x: (String, String)| (x.0@, x.1@))
}

/// A failure of the HTTP transport.
#[derive(Clone, Debug, PartialEq, Eq)]
pub struct TransportError {
    pub err: EspErr,
    pub message: String,
}

/// A call, an answer and an error are what their parts are, each under its own name.
pub proof fn law_views_show_the_parts(call: ToolCall, reply: LlmResponse, e: LlmError, i: int)
    ensures
        call@.id == call.id@,
        call@.name == call.name@,
        call@.arguments_json == call.arguments_json@,
        reply@.text == opt_view(reply.text),
        reply@.reasoning_content == opt_view(reply.reasoning_content),
        reply@.raw_message_json == opt_view(reply.raw_message_json),
        reply@.tool_calls.len() == reply.tool_calls@.len(),
        0 <= i < reply.tool_calls@.len() ==> reply@.tool_calls[i] == reply.tool_calls@[i]@,
        e@.err == e.err,
        e@.message == e.message@,
        reply_view(Ok(reply)) == Ok::<LlmResponseV, LlmErrorV>(reply@),
        reply_view(Err(e)) == Err::<LlmResponseV, LlmErrorV>(e@),
{
}

} // verus!
