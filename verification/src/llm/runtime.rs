//! Choice of a backend and its profile, and the requests made through it.

use vstd::prelude::*;

use super::anthropic::{self, anthropic_body_reply, anthropic_reply, finish_media, parse_chat_response, Anthropic};
use super::backend::BackendDefaults;
use super::common::{openai_body_reply, openai_reply, parse_openai_chat_response};
use super::config::{config_error, str_or_empty, text_or_empty};
use super::media::{can_be_encoded, MediaFile};
use super::openai_compatible::{self, auth_or_bearer, OpenAiCompatible};
use super::types::{
    llm_error, reply_view, ChatRequest, HttpJsonRequest, LlmError, LlmErrorV, LlmResponse, LlmResponseV, MediaRequest,
    ModelProfile, RuntimeConfig,
};
use crate::errname::{ESP_ERR_INVALID_ARG, ESP_ERR_NOT_SUPPORTED, ESP_FAIL};
use crate::json::json_parse;
use crate::text::string_is;

verus! {

/// A chosen backend.
pub enum Backend {
    OpenAi(OpenAiCompatible),
    Anthropic(Anthropic),
}

/// A backend with the profile of its model.
pub struct LlmRuntime {
    pub backend: Backend,
    pub profile: ModelProfile,
}

/// The profile of a configuration under a backend's path and its default name for the token limit.
pub open spec fn profile_of(p: ModelProfile, c: RuntimeConfig, chat_path: Seq<char>, tokens: Seq<char>) -> bool {
    &&& p.chat_path@ == chat_path
    &&& p.max_tokens_field@ == (if text_or_empty(c.max_tokens_field).len() > 0 {
        text_or_empty(c.max_tokens_field)
    } else {
        tokens
    })
    &&& p.supports_tools == c.supports_tools
    &&& p.supports_vision == c.supports_vision
    &&& p.image_remote_url_only == c.image_remote_url_only
}

fn make_profile(c: &RuntimeConfig, d: BackendDefaults) -> (p: ModelProfile)
    ensures
        profile_of(p, *c, d.chat_path@, d.max_tokens_field@),
{
    let field = str_or_empty(&c.max_tokens_field);
    let tokens = if field.is_empty() {
        d.max_tokens_field
    } else {
        field
    };
    ModelProfile {
        chat_path: d.chat_path.to_owned(),
        max_tokens_field: tokens.to_owned(),
        supports_tools: c.supports_tools,
        supports_vision: c.supports_vision,
        image_remote_url_only: c.image_remote_url_only,
    }
}

/// Why a configuration gives no runtime: a backend of another name, or something missing.
pub open spec fn init_error(c: RuntimeConfig) -> Option<LlmErrorV> {
    if c.backend_type@ == "openai_compatible"@ || c.backend_type@ == "anthropic_compatible"@ {
        config_error(c)
    } else {
        Some(llm_error(ESP_ERR_NOT_SUPPORTED as int, "Unsupported LLM backend"@))
    }
}

impl LlmRuntime {
    /// Chooses the backend that a configuration names.
    pub fn init(config: &RuntimeConfig) -> (r: Result<LlmRuntime, LlmError>)
        ensures
            match r {
                Ok(rt) => {
                    &&& init_error(*config) is None
                    &&& match rt.backend {
                        Backend::OpenAi(b) => {
                            &&& config.backend_type@ == "openai_compatible"@
                            &&& profile_of(rt.profile, *config, "/chat/completions"@, "max_tokens"@)
                            &&& b.api_key@ == text_or_empty(config.api_key)
                            &&& b.model@ == text_or_empty(config.model)
                            &&& b.base_url@ == text_or_empty(config.base_url)
                            &&& b.auth_type@ == auth_or_bearer(config.auth_type)
                            &&& b.timeout_ms == config.timeout_ms
                            &&& b.max_tokens == config.max_tokens
                            &&& b.image_max_bytes == config.image_max_bytes
                        },
                        Backend::Anthropic(b) => {
                            &&& config.backend_type@ == "anthropic_compatible"@
                            &&& profile_of(rt.profile, *config, "/messages"@, "max_tokens"@)
                            &&& b.api_key@ == text_or_empty(config.api_key)
                            &&& b.model@ == text_or_empty(config.model)
                            &&& b.base_url@ == text_or_empty(config.base_url)
                            &&& b.timeout_ms == config.timeout_ms
                            &&& b.max_tokens == config.max_tokens
                            &&& b.image_max_bytes == config.image_max_bytes
                        },
                    }
                },
                Err(e) => init_error(*config) == Some(e@),
            },
    {
        if string_is(&config.backend_type, "openai_compatible") {
            match OpenAiCompatible::make(config) {
                Ok(b) => {
                    let profile = make_profile(config, openai_compatible::registration().defaults);
                    Ok(LlmRuntime { backend: Backend::OpenAi(b), profile })
                },
                Err(e) => Err(e),
            }
        } else if string_is(&config.backend_type, "anthropic_compatible") {
            match Anthropic::make(config) {
                Ok(b) => {
                    let profile = make_profile(config, anthropic::registration().defaults);
                    Ok(LlmRuntime { backend: Backend::Anthropic(b), profile })
                },
                Err(e) => Err(e),
            }
        } else {
            Err(LlmError::new(ESP_ERR_NOT_SUPPORTED, "Unsupported LLM backend"))
        }
    }

    /// What the body of an answer says to this runtime.
    pub open spec fn reply_of(self, body: Seq<char>) -> Result<LlmResponseV, LlmErrorV> {
        match self.backend {
            Backend::OpenAi(_) => openai_body_reply(body),
            Backend::Anthropic(_) => anthropic_body_reply(body),
        }
    }

    /// The HTTP request of a chat.
    pub fn chat_request(&self, request: &ChatRequest) -> (r: Result<HttpJsonRequest, LlmError>)
        ensures
            match self.backend {
                Backend::OpenAi(b) => call_ensures(OpenAiCompatible::chat_request, (&b, &self.profile, request), r),
                Backend::Anthropic(b) => call_ensures(Anthropic::chat_request, (&b, &self.profile, request), r),
            },
    {
        match &self.backend {
            Backend::OpenAi(b) => b.chat_request(&self.profile, request),
            Backend::Anthropic(b) => b.chat_request(&self.profile, request),
        }
    }

    /// The HTTP request of a question about media. `file` is what the file of a local
    /// asset is.
    pub fn media_request(&self, request: &MediaRequest, file: &Option<MediaFile>) -> (r: Result<
        HttpJsonRequest,
        LlmError,
    >)
        requires
            can_be_encoded(*file),
        ensures
            match self.backend {
                Backend::OpenAi(b) => call_ensures(
                    OpenAiCompatible::media_request,
                    (&b, &self.profile, request, file),
                    r,
                ),
                Backend::Anthropic(b) => call_ensures(Anthropic::media_request, (&b, &self.profile, request, file), r),
            },
    {
        match &self.backend {
            Backend::OpenAi(b) => b.media_request(&self.profile, request, file),
            Backend::Anthropic(b) => b.media_request(&self.profile, request, file),
        }
    }

    /// Reads the body of an answer to a chat.
    pub fn chat_reply(&self, body: &str) -> (r: Result<LlmResponse, LlmError>)
        ensures
            reply_view(r) == self.reply_of(body@),
    {
        match &self.backend {
            Backend::OpenAi(_) => parse_openai_chat_response(body),
            Backend::Anthropic(_) => parse_chat_response(body),
        }
    }

    /// The text of the answer to a media request.
    pub fn media_reply(&self, body: &str) -> (r: Result<String, LlmError>)
        ensures
            anthropic::text_result(r) == anthropic::media_reply(self.reply_of(body@)),
    {
        finish_media(self.chat_reply(body))
    }
}

/// A backend is chosen by its name, and any other name is refused; what is missing from
/// the settings of a known one is said, the key first, then the model, then the address.
pub proof fn law_backend_goes_by_its_name(c: RuntimeConfig)
    ensures
        c.backend_type@ != "openai_compatible"@ && c.backend_type@ != "anthropic_compatible"@ ==> init_error(c) == Some(
            LlmErrorV { err: ESP_ERR_NOT_SUPPORTED as int, message: "Unsupported LLM backend"@ },
        ),
        c.backend_type@ == "openai_compatible"@ || c.backend_type@ == "anthropic_compatible"@ ==> {
            let no_key = c.api_key is None || c.api_key->Some_0@.len() == 0;
            let no_model = c.model is None || c.model->Some_0@.len() == 0;
            let no_url = c.base_url is None || c.base_url->Some_0@.len() == 0;
            &&& init_error(c) is None <==> !no_key && !no_model && !no_url
            &&& no_key ==> (init_error(c) matches Some(e) && e.message == "LLM API key is empty"@)
            &&& !no_key && no_model ==> (init_error(c) matches Some(e) && e.message == "LLM model is empty"@)
            &&& !no_key && !no_model && no_url ==> (init_error(c) matches Some(e) && e.message
                == "LLM base_url is empty"@)
            &&& init_error(c) matches Some(e) ==> e.err == ESP_ERR_INVALID_ARG
        },
{
}

/// An answer is read as the backend that gave it writes it.
pub proof fn law_answer_is_read_as_written(runtime: LlmRuntime, body: Seq<char>)
    ensures
        json_parse(body) is Err ==> (runtime.reply_of(body) matches Err(e) && e.err == ESP_FAIL && e.message
            == "Failed to parse LLM JSON response"@),
        runtime.backend is OpenAi ==> (json_parse(body) matches Ok(root) ==> runtime.reply_of(body) == openai_reply(
            root,
        )),
        runtime.backend is Anthropic ==> (json_parse(body) matches Ok(root) ==> runtime.reply_of(body)
            == anthropic_reply(root)),
{
}

/// The model is used as the settings say: under its own field for the length of answers
/// where they name one, and else under the backend's.
pub proof fn law_profile_follows_the_settings(p: ModelProfile, c: RuntimeConfig, chat_path: Seq<char>, tokens: Seq<char>)
    requires
        profile_of(p, c, chat_path, tokens),
    ensures
        p.chat_path@ == chat_path,
        c.max_tokens_field is Some && c.max_tokens_field->Some_0@.len() > 0 ==> p.max_tokens_field@
            == c.max_tokens_field->Some_0@,
        c.max_tokens_field is None || c.max_tokens_field->Some_0@.len() == 0 ==> p.max_tokens_field@ == tokens,
        p.supports_tools == c.supports_tools,
        p.supports_vision == c.supports_vision,
        p.image_remote_url_only == c.image_remote_url_only,
{
}

} // verus!
