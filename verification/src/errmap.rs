//! Platform codes for the errors of the memory, HTTP and media layers.

use vstd::prelude::*;

use crate::errname::{
    EspErr, ESP_ERR_INVALID_ARG, ESP_ERR_INVALID_SIZE, ESP_ERR_INVALID_STATE, ESP_ERR_NOT_FOUND,
    ESP_ERR_NOT_SUPPORTED, ESP_ERR_NO_MEM, ESP_ERR_TIMEOUT, ESP_FAIL, ESP_OK,
};
use crate::error::{chat_error_code, core_code, init_error_code, CoreError};

verus! {

/// A failure of the memory layer.
#[derive(Clone, Copy, Debug, PartialEq, Eq, Structural)]
pub enum MemoryError {
    Fail,
    NoMem,
    InvalidArg,
    InvalidState,
    InvalidSize,
    NotFound,
    NotSupported,
    Timeout,
}

/// A failure of the HTTP transport.
#[derive(Debug, PartialEq, Eq)]
pub enum HttpError {
    Aborted,
    InvalidUrl,
    InvalidBody,
    ClientInitFailed,
    RequestFailed(String),
    UnexpectedStatus(u16),
}

/// The outcome of a memory capability.
#[derive(Clone, Copy, Debug, PartialEq, Eq, Structural)]
pub enum CapStatus {
    Success,
    InvalidArg,
    Failed(MemoryError),
}

/// A failure of a media inference.
#[derive(Clone, Copy, Debug, PartialEq, Eq, Structural)]
pub enum InferMediaError {
    VisionUnsupported,
    UnsupportedMediaType,
    UnsupportedMediaKind,
    RemoteOnlyProfile,
    RequiresLocalImage,
    IncompleteRequest,
    MediaPathEmpty,
    MediaPathNotAbsolute,
    MediaUrlEmpty,
    MediaNotFound,
    MediaFileEmpty,
    MediaTooLarge,
    MediaReadFailed,
    PayloadPrepFailed,
    Api,
}

/// The code of a memory failure.
pub open spec fn memory_code(err: MemoryError) -> int {
    match err {
        MemoryError::Fail => ESP_FAIL as int,
        MemoryError::NoMem => ESP_ERR_NO_MEM as int,
        MemoryError::InvalidArg => ESP_ERR_INVALID_ARG as int,
        MemoryError::InvalidState => ESP_ERR_INVALID_STATE as int,
        MemoryError::InvalidSize => ESP_ERR_INVALID_SIZE as int,
        MemoryError::NotFound => ESP_ERR_NOT_FOUND as int,
        MemoryError::NotSupported => ESP_ERR_NOT_SUPPORTED as int,
        MemoryError::Timeout => ESP_ERR_TIMEOUT as int,
    }
}

/// The code of a memory failure.
pub fn memory_esp_err(err: MemoryError) -> (r: EspErr)
    ensures
        r == memory_code(err),
{
    match err {
        MemoryError::Fail => ESP_FAIL,
        MemoryError::NoMem => ESP_ERR_NO_MEM,
        MemoryError::InvalidArg => ESP_ERR_INVALID_ARG,
        MemoryError::InvalidState => ESP_ERR_INVALID_STATE,
        MemoryError::InvalidSize => ESP_ERR_INVALID_SIZE,
        MemoryError::NotFound => ESP_ERR_NOT_FOUND,
        MemoryError::NotSupported => ESP_ERR_NOT_SUPPORTED,
        MemoryError::Timeout => ESP_ERR_TIMEOUT,
    }
}

/// The code of an HTTP failure.
pub fn http_esp_err(err: &HttpError) -> (r: EspErr)
    ensures
        r == (match *err {
            HttpError::Aborted => ESP_ERR_INVALID_STATE,
            HttpError::InvalidUrl | HttpError::InvalidBody => ESP_ERR_INVALID_ARG,
            _ => ESP_FAIL,
        }),
{
    match err {
        HttpError::Aborted => ESP_ERR_INVALID_STATE,
        HttpError::InvalidUrl | HttpError::InvalidBody => ESP_ERR_INVALID_ARG,
        HttpError::ClientInitFailed
        | HttpError::RequestFailed(_)
        | HttpError::UnexpectedStatus(_) => ESP_FAIL,
    }
}

/// The code of a memory capability's outcome.
pub fn cap_status_esp_err(status: CapStatus) -> (r: EspErr)
    ensures
        r == (match status {
            CapStatus::Success => ESP_OK as int,
            CapStatus::InvalidArg => ESP_ERR_INVALID_ARG as int,
            CapStatus::Failed(e) => memory_code(e),
        }),
{
    match status {
        CapStatus::Success => ESP_OK,
        CapStatus::InvalidArg => ESP_ERR_INVALID_ARG,
        CapStatus::Failed(err) => memory_esp_err(err),
    }
}

/// The code of a media failure.
pub fn infer_media_error_code(err: InferMediaError) -> (r: EspErr)
    ensures
        r == (match err {
            InferMediaError::VisionUnsupported
            | InferMediaError::UnsupportedMediaType
            | InferMediaError::UnsupportedMediaKind
            | InferMediaError::RemoteOnlyProfile
            | InferMediaError::RequiresLocalImage => ESP_ERR_NOT_SUPPORTED,
            InferMediaError::IncompleteRequest
            | InferMediaError::MediaPathEmpty
            | InferMediaError::MediaPathNotAbsolute
            | InferMediaError::MediaUrlEmpty => ESP_ERR_INVALID_ARG,
            InferMediaError::MediaNotFound => ESP_ERR_NOT_FOUND,
            InferMediaError::MediaFileEmpty | InferMediaError::MediaTooLarge => ESP_ERR_INVALID_SIZE,
            InferMediaError::MediaReadFailed | InferMediaError::PayloadPrepFailed | InferMediaError::Api => ESP_FAIL,
        }),
{
    match err {
        InferMediaError::VisionUnsupported
        | InferMediaError::UnsupportedMediaType
        | InferMediaError::UnsupportedMediaKind
        | InferMediaError::RemoteOnlyProfile
        | InferMediaError::RequiresLocalImage => ESP_ERR_NOT_SUPPORTED,
        InferMediaError::IncompleteRequest
        | InferMediaError::MediaPathEmpty
        | InferMediaError::MediaPathNotAbsolute
        | InferMediaError::MediaUrlEmpty => ESP_ERR_INVALID_ARG,
        InferMediaError::MediaNotFound => ESP_ERR_NOT_FOUND,
        InferMediaError::MediaFileEmpty | InferMediaError::MediaTooLarge => ESP_ERR_INVALID_SIZE,
        InferMediaError::MediaReadFailed | InferMediaError::PayloadPrepFailed | InferMediaError::Api => ESP_FAIL,
    }
}

/// The code of a core failure.
pub fn core_esp_err(err: &CoreError) -> (r: EspErr)
    ensures
        r == core_code(*err),
{
    match err {
        CoreError::InvalidArg => ESP_ERR_INVALID_ARG,
        CoreError::InvalidState | CoreError::IterationLimit => ESP_ERR_INVALID_STATE,
        CoreError::NoMem => ESP_ERR_NO_MEM,
        CoreError::Fail => ESP_FAIL,
        CoreError::NotSupported => ESP_ERR_NOT_SUPPORTED,
        CoreError::Init(e) => init_error_code(*e),
        CoreError::Chat(e) => chat_error_code(e.kind),
        CoreError::Esp(code) => *code,
    }
}

/// Every memory failure has a code of its own, none of which means success.
pub proof fn law_memory_codes_distinct(a: MemoryError, b: MemoryError)
    ensures
        memory_code(a) != ESP_OK,
        a != b ==> memory_code(a) != memory_code(b),
{
}

/// Each error of the memory goes by the code that it stands for.
pub proof fn law_memory_errors_go_by_their_codes(e: MemoryError)
    ensures
        e is Fail <==> memory_code(e) == ESP_FAIL,
        e is NoMem <==> memory_code(e) == ESP_ERR_NO_MEM,
        e is InvalidArg <==> memory_code(e) == ESP_ERR_INVALID_ARG,
        e is InvalidState <==> memory_code(e) == ESP_ERR_INVALID_STATE,
        e is InvalidSize <==> memory_code(e) == ESP_ERR_INVALID_SIZE,
        e is NotFound <==> memory_code(e) == ESP_ERR_NOT_FOUND,
        e is NotSupported <==> memory_code(e) == ESP_ERR_NOT_SUPPORTED,
        e is Timeout <==> memory_code(e) == ESP_ERR_TIMEOUT,
{
}

} // verus!
