use claw_core::agent::base_agent::ApprovalDecision;
use claw_core::agent::internal_tools::ApprovalVerdict;
use claw_core::agent::registry::decide;
use claw_core::callbacks::{gate_outcome, provider_outcome, GateOutcome, ProviderOutcome};
use claw_core::consts::{AgentLoopPhase, ContextKind};
use claw_core::core_state::floor_char_boundary;
use claw_core::errname::{
    ESP_ERR_INVALID_ARG, ESP_ERR_NOT_FOUND, ESP_ERR_NOT_SUPPORTED, ESP_ERR_NO_MEM, ESP_FAIL, ESP_OK,
};
use claw_core::error::{chat_error_code, init_error_code, ChatError, ChatErrorKind, CoreError, InitError};
use claw_core::json::{parse_json, render_json, Json, Num};
use claw_core::llm::anthropic::{convert_tools_to_anthropic, parse_data_url};
use claw_core::llm::media::MediaFile;
use claw_core::llm::runtime::LlmRuntime;
use claw_core::llm::types::{AssetKind, MediaAsset, MediaRequest, RuntimeConfig};

fn runtime(backend: &str) -> LlmRuntime {
    let config = RuntimeConfig {
        api_key: Some("key".into()),
        backend_type: backend.into(),
        model: Some("model-x".into()),
        base_url: Some("https://api.example.com/v1".into()),
        supports_vision: true,
        image_max_bytes: 16,
        ..Default::default()
    };
    match LlmRuntime::init(&config) {
        Ok(runtime) => runtime,
        Err(e) => panic!("no runtime: {}", e.message),
    }
}

#[test]
fn codes_of_setup_and_chat_failures() {
    assert_eq!(init_error_code(InitError::MissingModel), ESP_ERR_INVALID_ARG);
    assert_eq!(init_error_code(InitError::UnknownBackend), ESP_ERR_NOT_SUPPORTED);
    assert_eq!(chat_error_code(ChatErrorKind::ToolsUnsupported), ESP_ERR_NOT_SUPPORTED);
    assert_eq!(chat_error_code(ChatErrorKind::InvalidToolsJson), ESP_ERR_INVALID_ARG);
    assert_eq!(chat_error_code(ChatErrorKind::Api), ESP_FAIL);
    assert_eq!(chat_error_code(ChatErrorKind::Transport), ESP_FAIL);
}

#[test]
fn what_a_failed_turn_reports() {
    let chat = ChatError { kind: ChatErrorKind::Api, message: "no quota".into() };
    assert_eq!(CoreError::Chat(chat).response_message(), "no quota");
    assert_eq!(CoreError::IterationLimit.response_message(), "cap tool iteration limit reached");
    assert_eq!(CoreError::Esp(ESP_ERR_NO_MEM).response_message(), "ESP_ERR_NO_MEM");
    assert_eq!(CoreError::InvalidArg.esp_name(), "ESP_ERR_INVALID_ARG");
    assert_eq!(CoreError::Init(InitError::UnknownBackend).esp_name(), "ESP_ERR_NOT_SUPPORTED");
}

#[test]
fn what_a_provider_answers() {
    assert_eq!(provider_outcome(ESP_ERR_NOT_FOUND, 1, None), ProviderOutcome::Skip);
    assert_eq!(provider_outcome(ESP_FAIL, 1, Some("x".into())), ProviderOutcome::Error(ESP_FAIL));
    assert_eq!(
        provider_outcome(ESP_OK, 2, Some("[]".into())),
        ProviderOutcome::Provided { kind: ContextKind::Tools, content: "[]".into() },
    );
    assert_eq!(
        provider_outcome(ESP_OK, 9, None),
        ProviderOutcome::Provided { kind: ContextKind::SystemPrompt, content: String::new() },
    );
}

#[test]
fn what_the_gate_answers() {
    assert_eq!(gate_outcome(ESP_OK, "ignored".into()), GateOutcome::Allow);
    assert_eq!(gate_outcome(ESP_FAIL, "busy".into()), GateOutcome::Reject("busy".into()));
    assert_eq!(gate_outcome(ESP_FAIL, String::new()), GateOutcome::Error(ESP_FAIL));
}

#[test]
fn only_a_yes_approves() {
    assert_eq!(decide(ApprovalVerdict::Yes, Some("go".into())), ApprovalDecision::Approved);
    assert_eq!(decide(ApprovalVerdict::No, Some("late".into())), ApprovalDecision::Rejected("late".into()));
    assert_eq!(decide(ApprovalVerdict::Other, None), ApprovalDecision::Rejected("rejected".into()));
}

#[test]
fn idle_and_finalizing_take_no_input() {
    assert!(!AgentLoopPhase::Idle.is_insertable());
    assert!(!AgentLoopPhase::Finalizing.is_insertable());
    assert!(AgentLoopPhase::InLlmHttp.is_insertable());
}

#[test]
fn a_cut_falls_between_characters() {
    assert_eq!(floor_char_boundary("aé", 2), 1);
    assert_eq!(floor_char_boundary("aé", 3), 3);
    assert_eq!(floor_char_boundary("aé", 9), 3);
    assert_eq!(floor_char_boundary("", 4), 0);
}

#[test]
fn a_data_url_is_taken_apart() {
    assert_eq!(parse_data_url("data:image/png;base64,AAEC"), Some(("image/png".into(), "AAEC".into())));
    assert_eq!(parse_data_url("https://example.com/a.png"), None);
}

#[test]
fn tools_that_are_no_json_are_told_apart_from_none() {
    assert!(matches!(convert_tools_to_anthropic(Some("{")), Some(None)));
    assert!(convert_tools_to_anthropic(None).is_none());
    assert!(convert_tools_to_anthropic(Some("")).is_none());
}

#[test]
fn media_is_sent_encoded() {
    let media = vec![MediaAsset {
        kind: AssetKind::LocalPath,
        path: Some("/pictures/a.jpg".into()),
        url: None,
        bytes: None,
        mime_type: None,
    }];
    let request = MediaRequest { system_prompt: None, user_prompt: Some("what is this?"), media: &media };
    let file = Some(MediaFile { size: 3, content: Some(vec![0, 1, 2]) });

    let openai = runtime("openai_compatible").media_request(&request, &file).unwrap_or_else(|e| panic!("{}", e.message));
    assert_eq!(openai.url, "https://api.example.com/v1/chat/completions");
    assert!(openai.body.contains("data:image/jpeg;base64,AAEC"));
    assert!(openai.body.contains("what is this?"));

    let anthropic =
        runtime("anthropic_compatible").media_request(&request, &file).unwrap_or_else(|e| panic!("{}", e.message));
    assert_eq!(anthropic.url, "https://api.example.com/v1/messages");
    assert!(anthropic.body.contains(r#""data":"AAEC""#));
    assert!(anthropic.body.contains(r#""media_type":"image/jpeg""#));
}

#[test]
fn a_number_is_the_same_however_it_is_held() {
    let five = Json::Num(Num::Other(serde_json::Number::from(5u64)));
    assert_eq!(five.as_u64(), Some(5));
    assert_eq!(Json::unsigned(5).as_u64(), Some(5));
    assert_eq!(render_json(&five), render_json(&Json::unsigned(5)));
    let minus = parse_json("-1").unwrap();
    assert_eq!(minus.as_u64(), None);
    assert_eq!(render_json(&minus).as_deref(), Some("-1"));
    assert_eq!(Json::text("5").as_u64(), None);
}
