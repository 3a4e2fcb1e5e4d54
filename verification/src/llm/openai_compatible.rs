//! The backend for services with the chat-completions interface.

use vstd::prelude::*;

use super::anthropic::{
    body_text, check_media_request, get_slice_or_empty, media_request_error, slice_or_empty, text_block,
    text_result,
};
use super::backend::{BackendDefaults, BackendRegistration};
use super::common::{join_url, url_join};
use super::config::{check_config, config_error, str_or_empty, text_or_empty};
use super::media::{can_be_encoded, prepare_asset, prepared_asset, prepared_view, MediaFile};
use super::types::{
    llm_error, ChatRequest, HttpJsonRequest, LlmError, LlmErrorV, MediaRequest, ModelProfile, Prepared, PreparedV,
    RuntimeConfig,
};
use crate::errname::{ESP_ERR_INVALID_ARG, ESP_ERR_NOT_SUPPORTED};
use crate::json::{obj2, dup_items, items_view, json_parse, member, parse_json, render_json, Json, JsonV, Num};
use crate::text::{opt_str_view, opt_view};

verus! {

pub const ID: &'static str = "openai_compatible";

pub const CHAT_PATH: &'static str = "/chat/completions";

pub const AUTH_TYPE: &'static str = "bearer";

pub const DEFAULT_MAX_TOKENS_FIELD: &'static str = "max_tokens";

/// The name of this backend and its defaults.
pub fn registration() -> (r: BackendRegistration)
    ensures
        r.id@ == "openai_compatible"@,
        r.defaults.auth_type@ == "bearer"@,
        r.defaults.chat_path@ == "/chat/completions"@,
        r.defaults.max_tokens_field@ == "max_tokens"@,
{
    BackendRegistration {
        id: ID,
        defaults: BackendDefaults {
            auth_type: AUTH_TYPE,
            chat_path: CHAT_PATH,
            max_tokens_field: DEFAULT_MAX_TOKENS_FIELD,
        },
    }
}

/// The backend: how it reaches the service.
pub struct OpenAiCompatible {
    pub api_key: String,
    pub model: String,
    pub base_url: String,
    pub auth_type: String,
    pub timeout_ms: u32,
    pub max_tokens: u32,
    pub image_max_bytes: usize,
}

/// The kind of authorisation: that of the configuration, else a bearer token.
pub open spec fn auth_or_bearer(o: Option<String>) -> Seq<char> {
    if text_or_empty(o).len() > 0 {
        text_or_empty(o)
    } else {
        "bearer"@
    }
}

/// The system message followed by the messages of a request.
pub open spec fn chat_messages(system: Seq<char>, messages: JsonV) -> Seq<JsonV> {
    let first = seq![obj2("role"@, JsonV::Str("system"@), "content"@, JsonV::Str(system))];
    match messages {
        JsonV::Arr(m) => first + m,
        _ => first,
    }
}

/// The members of a body that every chat request has. The name of the member for
/// the token limit is the profile's; a later member of the same name wins.
pub open spec fn base_body(
    model: Seq<char>,
    tokens_field: Seq<char>,
    max_tokens: u32,
    messages: Seq<JsonV>,
) -> Map<Seq<char>, JsonV> {
    Map::empty().insert("model"@, JsonV::Str(model)).insert(
        tokens_field,
        JsonV::Num(Num::Unsigned(max_tokens as u64)),
    ).insert("messages"@, JsonV::Arr(messages))
}

/// What the body of a chat request is, given the parsed tools, or why there is none.
pub open spec fn chat_body_result(
    base: Map<Seq<char>, JsonV>,
    tools_json: Option<Seq<char>>,
    supports_tools: bool,
) -> Result<JsonV, LlmErrorV> {
    match tools_json {
        None => Ok(JsonV::Obj(base)),
        Some(t) => if t.len() == 0 {
            Ok(JsonV::Obj(base))
        } else if !supports_tools {
            Err(llm_error(ESP_ERR_NOT_SUPPORTED as int, "Selected backend does not support tool calls"@))
        } else {
            match json_parse(t) {
                Ok(v) => with_tools(base, v),
                Err(_) => Err(llm_error(ESP_ERR_INVALID_ARG as int, "Invalid tools JSON"@)),
            }
        },
    }
}

/// A body with the tools, which must be a list.
pub open spec fn with_tools(base: Map<Seq<char>, JsonV>, tools: JsonV) -> Result<JsonV, LlmErrorV> {
    if tools is Arr {
        Ok(JsonV::Obj(base.insert("tools"@, tools)))
    } else {
        Err(llm_error(ESP_ERR_INVALID_ARG as int, "Invalid tools JSON"@))
    }
}

/// Adds parsed tools to a body.
pub fn add_tools(body: Json, tools: Json) -> (r: Result<Json, LlmError>)
    requires
        body@ is Obj,
    ensures
        match r {
            Ok(j) => with_tools(body@->Obj_0, tools@) == Ok::<JsonV, LlmErrorV>(j@),
            Err(e) => with_tools(body@->Obj_0, tools@) == Err::<JsonV, LlmErrorV>(e@),
        },
{
    if !tools.is_array() {
        return Err(LlmError::new(ESP_ERR_INVALID_ARG, "Invalid tools JSON"));
    }
    Ok(body.with("tools", tools))
}

/// The messages of a media request.
pub open spec fn media_messages(system: Seq<char>, prompt: Seq<char>, payload: Seq<char>) -> Seq<JsonV> {
    let image = obj2(
        "type"@,
        JsonV::Str("image_url"@),
        "image_url"@,
        JsonV::Obj(Map::empty().insert("url"@, JsonV::Str(payload))),
    );
    seq![
        obj2("role"@, JsonV::Str("system"@), "content"@, JsonV::Str(system)),
        obj2("role"@, JsonV::Str("user"@), "content"@, JsonV::Arr(seq![text_block(prompt), image])),
    ]
}

/// What the body of a media request is, or why there is none.
pub open spec fn media_body_result(
    model: Seq<char>,
    tokens_field: Seq<char>,
    max_tokens: u32,
    system: Seq<char>,
    prompt: Seq<char>,
    prepared: Result<PreparedV, LlmErrorV>,
) -> Result<JsonV, LlmErrorV> {
    match prepared {
        Ok(p) => Ok(
            JsonV::Obj(base_body(model, tokens_field, max_tokens, media_messages(system, prompt, p.payload))),
        ),
        Err(e) => Err(e),
    }
}

/// What a request of this backend holds besides its body.
pub open spec fn is_openai_request(q: HttpJsonRequest, b: OpenAiCompatible, chat_path: Seq<char>) -> bool {
    &&& q.url@ == url_join(b.base_url@, chat_path)
    &&& opt_view(q.api_key) == Some(b.api_key@)
    &&& opt_view(q.auth_type) == Some(b.auth_type@)
    &&& q.timeout_ms == b.timeout_ms
    &&& q.headers@.len() == 0
}

fn make_message(role: &str, content: Json) -> (r: Json)
    ensures
        r@ == obj2("role"@, JsonV::Str(role@), "content"@, content@),
{
    Json::object().with("role", Json::text(role)).with("content", content)
}

impl OpenAiCompatible {
    /// Makes the backend of a configuration.
    pub fn make(config: &RuntimeConfig) -> (r: Result<OpenAiCompatible, LlmError>)
        ensures
            match r {
                Ok(b) => {
                    &&& config_error(*config) is None
                    &&& b.api_key@ == text_or_empty(config.api_key)
                    &&& b.model@ == text_or_empty(config.model)
                    &&& b.base_url@ == text_or_empty(config.base_url)
                    &&& b.auth_type@ == auth_or_bearer(config.auth_type)
                    &&& b.timeout_ms == config.timeout_ms
                    &&& b.max_tokens == config.max_tokens
                    &&& b.image_max_bytes == config.image_max_bytes
                },
                Err(e) => config_error(*config) == Some(e@),
            },
    {
        match check_config(config) {
            Ok(_) => {},
            Err(e) => {
                return Err(e);
            },
        }
        let auth = str_or_empty(&config.auth_type);
        let auth_type = if auth.is_empty() {
            "bearer"
        } else {
            auth
        };
        Ok(
            OpenAiCompatible {
                api_key: str_or_empty(&config.api_key).to_owned(),
                model: str_or_empty(&config.model).to_owned(),
                base_url: str_or_empty(&config.base_url).to_owned(),
                auth_type: auth_type.to_owned(),
                timeout_ms: config.timeout_ms,
                max_tokens: config.max_tokens,
                image_max_bytes: config.image_max_bytes,
            },
        )
    }

    fn base(&self, profile: &ModelProfile, messages: Vec<Json>) -> (r: Json)
        ensures
            r@ == JsonV::Obj(
                base_body(self.model@, profile.max_tokens_field@, self.max_tokens, items_view(messages@)),
            ),
    {
        Json::object().with("model", Json::text(self.model.as_str())).with(
            profile.max_tokens_field.as_str(),
            Json::unsigned(self.max_tokens as u64),
        ).with("messages", Json::array(messages))
    }

    /// Builds the body of a chat request.
    pub fn build_chat_body(&self, profile: &ModelProfile, request: &ChatRequest) -> (r: Result<String, LlmError>)
        ensures
            text_result(r) == body_text(
                chat_body_result(
                    base_body(
                        self.model@,
                        profile.max_tokens_field@,
                        self.max_tokens,
                        chat_messages(request.system_prompt@, request.messages@),
                    ),
                    opt_str_view(request.tools_json),
                    profile.supports_tools,
                ),
                "Out of memory serializing request"@,
            ),
    {
        let mut messages: Vec<Json> = Vec::new();
        let system = make_message("system", Json::text(request.system_prompt));
        messages.push(system);
        assert(items_view(messages@) =~= seq![system@]);
        if let Some(arr) = request.messages.as_array() {
            let mut copies = dup_items(arr);
            let ghost first = messages@;
            let ghost rest = copies@;
            messages.append(&mut copies);
            assert(items_view(messages@) =~= items_view(first) + items_view(rest));
        }
        let body = self.base(profile, messages);
        let with_tools_body = match request.tools_json {
            Some(text) => {
                if text.is_empty() {
                    body
                } else if !profile.supports_tools {
                    return Err(
                        LlmError::new(ESP_ERR_NOT_SUPPORTED, "Selected backend does not support tool calls"),
                    );
                } else {
                    match parse_json(text) {
                        Ok(tools) => match add_tools(body, tools) {
                            Ok(b) => b,
                            Err(e) => {
                                return Err(e);
                            },
                        },
                        Err(_) => {
                            return Err(LlmError::new(ESP_ERR_INVALID_ARG, "Invalid tools JSON"));
                        },
                    }
                }
            },
            None => body,
        };
        match render_json(&with_tools_body) {
            Some(t) => Ok(t),
            None => Err(LlmError::fail("Out of memory serializing request")),
        }
    }

    fn request(&self, profile: &ModelProfile, body: String) -> (r: HttpJsonRequest)
        ensures
            r.body@ == body@,
            is_openai_request(r, *self, profile.chat_path@),
    {
        HttpJsonRequest {
            url: join_url(self.base_url.as_str(), profile.chat_path.as_str()),
            body,
            api_key: Some(self.api_key.clone()),
            auth_type: Some(self.auth_type.clone()),
            timeout_ms: self.timeout_ms,
            headers: Vec::new(),
        }
    }

    /// The HTTP request of a chat; its answer is a chat-completions body.
    pub fn chat_request(&self, profile: &ModelProfile, request: &ChatRequest) -> (r: Result<
        HttpJsonRequest,
        LlmError,
    >)
        ensures
            ({
                let body = body_text(
                    chat_body_result(
                        base_body(
                            self.model@,
                            profile.max_tokens_field@,
                            self.max_tokens,
                            chat_messages(request.system_prompt@, request.messages@),
                        ),
                        opt_str_view(request.tools_json),
                        profile.supports_tools,
                    ),
                    "Out of memory serializing request"@,
                );
                match r {
                    Ok(q) => body == Ok::<Seq<char>, LlmErrorV>(q.body@) && is_openai_request(
                        q,
                        *self,
                        profile.chat_path@,
                    ),
                    Err(e) => body == Err::<Seq<char>, LlmErrorV>(e@),
                }
            }),
    {
        match self.build_chat_body(profile, request) {
            Ok(body) => Ok(self.request(profile, body)),
            Err(e) => Err(e),
        }
    }

    /// Builds the body that asks about a prepared asset.
    pub fn build_media_body(
        &self,
        profile: &ModelProfile,
        system: &str,
        prompt: &str,
        prepared: Result<Prepared, LlmError>,
    ) -> (r: Result<String, LlmError>)
        ensures
            text_result(r) == body_text(
                media_body_result(
                    self.model@,
                    profile.max_tokens_field@,
                    self.max_tokens,
                    system@,
                    prompt@,
                    prepared_view(prepared),
                ),
                "Out of memory serializing media request"@,
            ),
    {
        let prepared = match prepared {
            Ok(p) => p,
            Err(e) => {
                return Err(e);
            },
        };
        let text = Json::object().with("type", Json::text("text")).with("text", Json::text(prompt));
        let image = Json::object().with("type", Json::text("image_url")).with(
            "image_url",
            Json::object().with("url", Json::Str(prepared.payload)),
        );
        let mut blocks: Vec<Json> = Vec::new();
        blocks.push(text);
        blocks.push(image);
        assert(items_view(blocks@) =~= seq![text_block(prompt@), image@]);
        let mut messages: Vec<Json> = Vec::new();
        messages.push(make_message("system", Json::text(system)));
        messages.push(make_message("user", Json::array(blocks)));
        assert(items_view(messages@) =~= media_messages(system@, prompt@, prepared.payload@));
        let body = self.base(profile, messages);
        match render_json(&body) {
            Some(t) => Ok(t),
            None => Err(LlmError::fail("Out of memory serializing media request")),
        }
    }

    /// The HTTP request that asks about the first asset of a media request.
    pub fn media_request(&self, profile: &ModelProfile, request: &MediaRequest, file: &Option<MediaFile>) -> (r: Result<
        HttpJsonRequest,
        LlmError,
    >)
        requires
            can_be_encoded(*file),
        ensures
            ({
                let refused = media_request_error(
                    profile.supports_vision,
                    opt_str_view(request.user_prompt),
                    request.media@.len(),
                );
                let body = body_text(
                    media_body_result(
                        self.model@,
                        profile.max_tokens_field@,
                        self.max_tokens,
                        slice_or_empty(request.system_prompt),
                        slice_or_empty(request.user_prompt),
                        prepared_asset(
                            request.media@[0],
                            profile.image_remote_url_only,
                            self.image_max_bytes as nat,
                            *file,
                        ),
                    ),
                    "Out of memory serializing media request"@,
                );
                match r {
                    Ok(q) => refused is None && body == Ok::<Seq<char>, LlmErrorV>(q.body@) && is_openai_request(
                        q,
                        *self,
                        profile.chat_path@,
                    ),
                    Err(e) => if refused is Some {
                        refused == Some(e@)
                    } else {
                        body == Err::<Seq<char>, LlmErrorV>(e@)
                    },
                }
            }),
    {
        match check_media_request(profile, request) {
            Ok(_) => {},
            Err(e) => {
                return Err(e);
            },
        }
        let prepared = prepare_asset(&request.media[0], profile, self.image_max_bytes, file);
        match self.build_media_body(
            profile,
            get_slice_or_empty(request.system_prompt),
            get_slice_or_empty(request.user_prompt),
            prepared,
        ) {
            Ok(body) => Ok(self.request(profile, body)),
            Err(e) => Err(e),
        }
    }
}

/// A chat request begins with what the system says; then comes what was said, in order
/// and as it is.
pub proof fn law_chat_begins_with_the_system(system: Seq<char>, messages: Seq<JsonV>)
    ensures
        ({
            let said = chat_messages(system, JsonV::Arr(messages));
            &&& said.len() == 1 + messages.len()
            &&& member(said[0], "role"@) == Some(JsonV::Str("system"@))
            &&& member(said[0], "content"@) == Some(JsonV::Str(system))
            &&& said.skip(1) == messages
        }),
{
    reveal_strlit("role");
    reveal_strlit("content");
    assert("role"@.len() != "content"@.len());
    assert(chat_messages(system, JsonV::Arr(messages)).skip(1) =~= messages);
}

/// A request names the model, how long the answer may be under the field that the model
/// goes by, and what was said; it offers tools exactly where some are given.
pub proof fn law_request_says_what_is_asked(
    model: Seq<char>,
    tokens_field: Seq<char>,
    max_tokens: u32,
    messages: Seq<JsonV>,
    tools_json: Option<Seq<char>>,
    supports_tools: bool,
    body: JsonV,
)
    requires
        chat_body_result(base_body(model, tokens_field, max_tokens, messages), tools_json, supports_tools) == Ok::<
            JsonV,
            LlmErrorV,
        >(body),
        tokens_field != "model"@,
        tokens_field != "messages"@,
        tokens_field != "tools"@,
    ensures
        member(body, "model"@) == Some(JsonV::Str(model)),
        member(body, tokens_field) == Some(JsonV::Num(Num::Unsigned(max_tokens as u64))),
        member(body, "messages"@) == Some(JsonV::Arr(messages)),
        tools_json is None || tools_json->Some_0.len() == 0 ==> member(body, "tools"@) is None,
        tools_json is Some && tools_json->Some_0.len() > 0 ==> {
            &&& supports_tools
            &&& json_parse(tools_json->Some_0) matches Ok(tools) && tools is Arr && member(body, "tools"@) == Some(tools)
        },
{
    reveal_strlit("model");
    reveal_strlit("messages");
    reveal_strlit("tools");
    assert("model"@.len() == 5 && "messages"@.len() == 8 && "tools"@.len() == 5 && "model"@[0] == 'm' && "tools"@[0]
        == 't');
}

/// A request is refused exactly where it brings tools that the model cannot use, or that
/// cannot be read as a list.
pub proof fn law_unusable_tools_are_refused(base: Map<Seq<char>, JsonV>, tools_json: Option<Seq<char>>, supports_tools: bool)
    ensures
        tools_json is None || tools_json->Some_0.len() == 0 ==> chat_body_result(base, tools_json, supports_tools) is Ok,
        tools_json is Some && tools_json->Some_0.len() > 0 && !supports_tools ==> chat_body_result(
            base,
            tools_json,
            supports_tools,
        ) == Err::<JsonV, LlmErrorV>(
            LlmErrorV {
                err: ESP_ERR_NOT_SUPPORTED as int,
                message: "Selected backend does not support tool calls"@,
            },
        ),
        tools_json is Some && tools_json->Some_0.len() > 0 && supports_tools ==> {
            &&& chat_body_result(base, tools_json, supports_tools) is Ok <==> (json_parse(tools_json->Some_0) matches Ok(
                JsonV::Arr(_),
            ))
            &&& chat_body_result(base, tools_json, supports_tools) matches Err(e) ==> e == (LlmErrorV {
                err: ESP_ERR_INVALID_ARG as int,
                message: "Invalid tools JSON"@,
            })
        },
{
}

/// A media request says what the system says, and then, as the user's words, what is asked
/// and where the picture is.
pub proof fn law_media_messages_show_the_picture(system: Seq<char>, prompt: Seq<char>, payload: Seq<char>)
    ensures
        ({
            let said = media_messages(system, prompt, payload);
            &&& said.len() == 2
            &&& member(said[0], "role"@) == Some(JsonV::Str("system"@))
            &&& member(said[0], "content"@) == Some(JsonV::Str(system))
            &&& member(said[1], "role"@) == Some(JsonV::Str("user"@))
            &&& member(said[1], "content"@) matches Some(JsonV::Arr(blocks)) && {
                &&& blocks.len() == 2
                &&& member(blocks[0], "type"@) == Some(JsonV::Str("text"@))
                &&& member(blocks[0], "text"@) == Some(JsonV::Str(prompt))
                &&& member(blocks[1], "type"@) == Some(JsonV::Str("image_url"@))
                &&& member(blocks[1], "image_url"@) matches Some(image) && member(image, "url"@) == Some(
                    JsonV::Str(payload),
                )
            }
        }),
{
    reveal_strlit("role");
    reveal_strlit("content");
    reveal_strlit("type");
    reveal_strlit("text");
    reveal_strlit("image_url");
    assert("role"@.len() == 4 && "content"@.len() == 7);
    assert("type"@[1] == 'y' && "text"@[1] == 'e' && "image_url"@.len() == 9 && "type"@.len() == 4);
}

/// A media request is made for the picture that was prepared, and what went wrong in
/// preparing it is what goes wrong with the request.
pub proof fn law_media_request_shows_what_was_prepared(
    model: Seq<char>,
    tokens_field: Seq<char>,
    max_tokens: u32,
    system: Seq<char>,
    prompt: Seq<char>,
    prepared: Result<PreparedV, LlmErrorV>,
)
    ensures
        prepared matches Err(e) ==> media_body_result(model, tokens_field, max_tokens, system, prompt, prepared)
            == Err::<JsonV, LlmErrorV>(e),
        prepared matches Ok(p) ==> (media_body_result(model, tokens_field, max_tokens, system, prompt, prepared)
            matches Ok(body) && member(body, "messages"@) == Some(
            JsonV::Arr(media_messages(system, prompt, p.payload)),
        ) && (tokens_field != "messages"@ ==> member(body, tokens_field) == Some(
            JsonV::Num(Num::Unsigned(max_tokens as u64)),
        )) && (tokens_field != "model"@ ==> member(body, "model"@) == Some(JsonV::Str(model)))),
{
    reveal_strlit("model");
    reveal_strlit("messages");
    assert("model"@.len() != "messages"@.len());
}

/// A request is authorised as the settings say, and by bearer where they say nothing.
pub proof fn law_bearer_unless_told_otherwise(auth: Option<String>)
    ensures
        auth is None || auth->Some_0@.len() == 0 ==> auth_or_bearer(auth) == "bearer"@,
        auth is Some && auth->Some_0@.len() > 0 ==> auth_or_bearer(auth) == auth->Some_0@,
{
}

/// A request goes to the backend's address with the path of the model, under the
/// backend's key, and waits as long as the backend may.
pub proof fn law_openai_request_is_addressed(q: HttpJsonRequest, b: OpenAiCompatible, chat_path: Seq<char>)
    requires
        is_openai_request(q, b, chat_path),
    ensures
        q.url@ == url_join(b.base_url@, chat_path),
        q.api_key is Some && q.api_key->Some_0@ == b.api_key@,
        q.auth_type is Some && q.auth_type->Some_0@ == b.auth_type@,
        q.timeout_ms == b.timeout_ms,
        q.headers@.len() == 0,
{
}

} // verus!
