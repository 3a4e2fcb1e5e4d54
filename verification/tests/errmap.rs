use claw_core::errmap::{
    cap_status_esp_err, core_esp_err, http_esp_err, infer_media_error_code, memory_esp_err, CapStatus, HttpError,
    InferMediaError, MemoryError,
};
use claw_core::errname::{
    ESP_ERR_INVALID_ARG, ESP_ERR_INVALID_SIZE, ESP_ERR_INVALID_STATE, ESP_ERR_NOT_FOUND, ESP_ERR_NOT_SUPPORTED,
    ESP_ERR_NO_MEM, ESP_ERR_TIMEOUT, ESP_FAIL, ESP_OK,
};
use claw_core::error::{ChatError, ChatErrorKind, CoreError, InitError};

#[test]
fn http_esp_err_matches_c_transport() {
    assert_eq!(http_esp_err(&HttpError::Aborted), ESP_ERR_INVALID_STATE);
    assert_eq!(http_esp_err(&HttpError::InvalidUrl), ESP_ERR_INVALID_ARG);
    assert_eq!(http_esp_err(&HttpError::RequestFailed("timeout".into())), ESP_FAIL);
}

#[test]
fn memory_errors_have_their_codes() {
    let expected = [
        (MemoryError::Fail, ESP_FAIL),
        (MemoryError::NoMem, ESP_ERR_NO_MEM),
        (MemoryError::InvalidArg, ESP_ERR_INVALID_ARG),
        (MemoryError::InvalidState, ESP_ERR_INVALID_STATE),
        (MemoryError::InvalidSize, ESP_ERR_INVALID_SIZE),
        (MemoryError::NotFound, ESP_ERR_NOT_FOUND),
        (MemoryError::NotSupported, ESP_ERR_NOT_SUPPORTED),
        (MemoryError::Timeout, ESP_ERR_TIMEOUT),
    ];
    for (error, code) in expected {
        assert_eq!(memory_esp_err(error), code);
        assert_eq!(cap_status_esp_err(CapStatus::Failed(error)), code);
    }
    assert_eq!(cap_status_esp_err(CapStatus::Success), ESP_OK);
    assert_eq!(cap_status_esp_err(CapStatus::InvalidArg), ESP_ERR_INVALID_ARG);
}

#[test]
fn core_errors_have_their_codes() {
    let chat = |kind| CoreError::Chat(ChatError { kind, message: "m".into() });
    assert_eq!(core_esp_err(&CoreError::IterationLimit), ESP_ERR_INVALID_STATE);
    assert_eq!(core_esp_err(&CoreError::Init(InitError::UnknownBackend)), ESP_ERR_NOT_SUPPORTED);
    assert_eq!(core_esp_err(&chat(ChatErrorKind::ToolsUnsupported)), ESP_ERR_NOT_SUPPORTED);
    assert_eq!(core_esp_err(&chat(ChatErrorKind::InvalidToolsJson)), ESP_ERR_INVALID_ARG);
    assert_eq!(core_esp_err(&chat(ChatErrorKind::Api)), ESP_FAIL);
    assert_eq!(core_esp_err(&CoreError::Esp(77)), 77);
}

#[test]
fn media_errors_have_their_codes() {
    assert_eq!(infer_media_error_code(InferMediaError::VisionUnsupported), ESP_ERR_NOT_SUPPORTED);
    assert_eq!(infer_media_error_code(InferMediaError::MediaUrlEmpty), ESP_ERR_INVALID_ARG);
    assert_eq!(infer_media_error_code(InferMediaError::Api), ESP_FAIL);
}
