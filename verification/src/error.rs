//! Errors of the agent core.

use vstd::prelude::*;

use crate::errname::{
    esp_err_to_name, esp_name_of, EspErr, ESP_ERR_INVALID_ARG, ESP_ERR_INVALID_STATE, ESP_ERR_NOT_SUPPORTED,
    ESP_ERR_NO_MEM, ESP_FAIL,
};
use crate::text::{concat3, quote, quoted};

verus! {

/// Why the LLM client could not be set up.
#[derive(Clone, Copy, Debug, PartialEq, Eq, Structural)]
pub enum InitError {
    MissingApiKey,
    MissingModel,
    MissingBaseUrl,
    MissingBackendType,
    UnknownBackend,
}

/// The kind of a failed chat.
#[derive(Clone, Copy, Debug, PartialEq, Eq, Structural)]
pub enum ChatErrorKind {
    ToolsUnsupported,
    InvalidToolsJson,
    /// The service answered with an error, or with something that is no answer.
    Api,
    /// The service could not be reached, or the call was aborted.
    Transport,
}

/// A failed chat: its kind and its message.
#[derive(Debug, PartialEq, Eq)]
pub struct ChatError {
    pub kind: ChatErrorKind,
    pub message: String,
}

impl ChatError {
    /// The error as it is written for developers.
    pub open spec fn debug_text(self) -> Seq<char> {
        match self.kind {
            ChatErrorKind::ToolsUnsupported => "ToolsUnsupported"@,
            ChatErrorKind::InvalidToolsJson => "InvalidToolsJson"@,
            ChatErrorKind::Api => "Api("@ + quoted(self.message@) + ")"@,
            ChatErrorKind::Transport => "Api(Transport("@ + quoted(self.message@) + "))"@,
        }
    }

    pub fn debug(&self) -> (r: String)
        ensures
            r@ == self.debug_text(),
    {
        match self.kind {
            ChatErrorKind::ToolsUnsupported => "ToolsUnsupported".to_owned(),
            ChatErrorKind::InvalidToolsJson => "InvalidToolsJson".to_owned(),
            ChatErrorKind::Api => concat3("Api(", quote(self.message.as_str()).as_str(), ")"),
            ChatErrorKind::Transport => concat3("Api(Transport(", quote(self.message.as_str()).as_str(), "))"),
        }
    }
}

/// A failure of the agent core.
#[derive(Debug, PartialEq, Eq)]
pub enum CoreError {
    InvalidArg,
    InvalidState,
    NoMem,
    Fail,
    NotSupported,
    /// The tool loop hit its iteration limit.
    IterationLimit,
    Init(InitError),
    Chat(ChatError),
    /// A platform code from a callback, passed on as it is.
    Esp(EspErr),
}

/// The code of a setup failure.
pub open spec fn init_code(e: InitError) -> int {
    match e {
        InitError::UnknownBackend => ESP_ERR_NOT_SUPPORTED as int,
        _ => ESP_ERR_INVALID_ARG as int,
    }
}

/// The code of a failed chat.
pub open spec fn chat_code(k: ChatErrorKind) -> int {
    match k {
        ChatErrorKind::ToolsUnsupported => ESP_ERR_NOT_SUPPORTED as int,
        ChatErrorKind::InvalidToolsJson => ESP_ERR_INVALID_ARG as int,
        ChatErrorKind::Api | ChatErrorKind::Transport => ESP_FAIL as int,
    }
}

/// The code of a core failure.
pub open spec fn core_code(e: CoreError) -> int {
    match e {
        CoreError::InvalidArg => ESP_ERR_INVALID_ARG as int,
        CoreError::InvalidState => ESP_ERR_INVALID_STATE as int,
        CoreError::NoMem => ESP_ERR_NO_MEM as int,
        CoreError::Fail => ESP_FAIL as int,
        CoreError::NotSupported => ESP_ERR_NOT_SUPPORTED as int,
        CoreError::IterationLimit => ESP_ERR_INVALID_STATE as int,
        CoreError::Init(i) => init_code(i),
        CoreError::Chat(c) => chat_code(c.kind),
        CoreError::Esp(code) => code as int,
    }
}

/// The code of a setup failure.
pub fn init_error_code(err: InitError) -> (r: EspErr)
    ensures
        r == init_code(err),
{
    match err {
        InitError::MissingApiKey
        | InitError::MissingModel
        | InitError::MissingBaseUrl
        | InitError::MissingBackendType => ESP_ERR_INVALID_ARG,
        InitError::UnknownBackend => ESP_ERR_NOT_SUPPORTED,
    }
}

/// The code of a failed chat.
pub fn chat_error_code(kind: ChatErrorKind) -> (r: EspErr)
    ensures
        r == chat_code(kind),
{
    match kind {
        ChatErrorKind::ToolsUnsupported => ESP_ERR_NOT_SUPPORTED,
        ChatErrorKind::InvalidToolsJson => ESP_ERR_INVALID_ARG,
        ChatErrorKind::Api | ChatErrorKind::Transport => ESP_FAIL,
    }
}

impl CoreError {
    /// What a failed turn reports: the message of a failed chat, the fixed text of
    /// the iteration limit, else the name of the code.
    pub open spec fn response_text(self) -> Seq<char> {
        match self {
            CoreError::Chat(c) => c.message@,
            CoreError::IterationLimit => "cap tool iteration limit reached"@,
            _ => esp_name_of(core_code(self)),
        }
    }

    /// What a failed turn reports.
    pub fn response_message(&self) -> (r: String)
        ensures
            r@ == self.response_text(),
    {
        match self {
            CoreError::Chat(c) => c.message.clone(),
            CoreError::IterationLimit => "cap tool iteration limit reached".to_owned(),
            _ => self.esp_name().to_owned(),
        }
    }

    /// The name of the code.
    pub fn esp_name(&self) -> (r: &'static str)
        ensures
            r@ == esp_name_of(core_code(*self)),
    {
        match self {
            CoreError::InvalidArg => "ESP_ERR_INVALID_ARG",
            CoreError::InvalidState | CoreError::IterationLimit => "ESP_ERR_INVALID_STATE",
            CoreError::NoMem => "ESP_ERR_NO_MEM",
            CoreError::Fail => "ESP_FAIL",
            CoreError::NotSupported => "ESP_ERR_NOT_SUPPORTED",
            CoreError::Init(err) => esp_err_to_name(init_error_code(*err)),
            CoreError::Chat(err) => esp_err_to_name(chat_error_code(err.kind)),
            CoreError::Esp(code) => esp_err_to_name(*code),
        }
    }
}

/// Each error goes by the code that it stands for, and one that is a code by itself.
pub proof fn law_errors_go_by_their_codes(e: CoreError)
    ensures
        e is InvalidArg ==> core_code(e) == ESP_ERR_INVALID_ARG,
        e is InvalidState ==> core_code(e) == ESP_ERR_INVALID_STATE,
        e is NoMem ==> core_code(e) == ESP_ERR_NO_MEM,
        e is Fail ==> core_code(e) == ESP_FAIL,
        e is NotSupported ==> core_code(e) == ESP_ERR_NOT_SUPPORTED,
        e is IterationLimit ==> core_code(e) == ESP_ERR_INVALID_STATE,
        e matches CoreError::Init(i) ==> core_code(e) == (if i is UnknownBackend {
            ESP_ERR_NOT_SUPPORTED
        } else {
            ESP_ERR_INVALID_ARG
        }),
        e matches CoreError::Chat(c) ==> {
            &&& c.kind is ToolsUnsupported ==> core_code(e) == ESP_ERR_NOT_SUPPORTED
            &&& c.kind is InvalidToolsJson ==> core_code(e) == ESP_ERR_INVALID_ARG
            &&& c.kind is Api || c.kind is Transport ==> core_code(e) == ESP_FAIL
        },
        e matches CoreError::Esp(code) ==> core_code(e) == code,
{
}

/// What a user hears of an error is what the model said, that the rounds are used up, or
/// the name of the error's code.
pub proof fn law_error_is_told_in_words(e: CoreError)
    ensures
        e matches CoreError::Chat(c) ==> e.response_text() == c.message@,
        e is IterationLimit ==> e.response_text() == "cap tool iteration limit reached"@,
        !(e is Chat) && !(e is IterationLimit) ==> e.response_text() == esp_name_of(core_code(e)),
{
}

/// An error of a chat is written down by what it is, with what was said.
pub proof fn law_chat_error_is_written_down(e: ChatError)
    ensures
        e.kind is ToolsUnsupported ==> e.debug_text() == "ToolsUnsupported"@,
        e.kind is InvalidToolsJson ==> e.debug_text() == "InvalidToolsJson"@,
        e.kind is Api ==> e.debug_text() == "Api("@ + quoted(e.message@) + ")"@,
        e.kind is Transport ==> e.debug_text() == "Api(Transport("@ + quoted(e.message@) + "))"@,
{
}

} // verus!
