use claw_core::errname::{ESP_ERR_INVALID_ARG, ESP_ERR_NOT_SUPPORTED, ESP_FAIL};
use claw_core::json::{parse_json, render_json, Json};
use claw_core::llm::common::join_url;
use claw_core::llm::runtime::LlmRuntime;
use claw_core::llm::types::{ChatRequest, RuntimeConfig};

fn cfg(backend: &str, base_url: &str) -> RuntimeConfig {
    RuntimeConfig {
        api_key: Some("key".into()),
        backend_type: backend.into(),
        model: Some("model-x".into()),
        base_url: Some(base_url.into()),
        supports_tools: true,
        supports_vision: true,
        ..Default::default()
    }
}

fn json(text: &str) -> Json {
    parse_json(text).unwrap()
}

#[test]
fn openai_chat_text() {
    let rt = LlmRuntime::init(&cfg("openai_compatible", "https://api.example.com/v1")).unwrap();
    let messages = json(r#"[{"role": "user", "content": "hello"}]"#);
    let request =
        rt.chat_request(&ChatRequest { system_prompt: "sys", messages: &messages, tools_json: None }).unwrap();
    let resp =
        rt.chat_reply(r#"{"choices":[{"message":{"role":"assistant","content":"hi there"}}]}"#).unwrap();
    assert_eq!(resp.text.as_deref(), Some("hi there"));

    assert_eq!(request.url, "https://api.example.com/v1/chat/completions");
    let body = json(&request.body);
    let msgs = body.get_array("messages").unwrap();
    assert_eq!(msgs[0].get_str("role"), Some("system"));
    assert_eq!(msgs[0].get_str("content"), Some("sys"));
    assert_eq!(msgs[1].get_str("role"), Some("user"));
    assert_eq!(body.get_str("model"), Some("model-x"));
}

#[test]
fn openai_tool_calls_parsed() {
    let reply = r#"{"choices":[{"message":{"role":"assistant","content":null,"tool_calls":[
        {"id":"call_1","function":{"name":"files","arguments":"{\"p\":\"/x\"}"}}]}}]}"#;
    let rt = LlmRuntime::init(&cfg("openai_compatible", "https://api.example.com")).unwrap();
    let messages = json(r#"[{"role": "user", "content": "list"}]"#);
    rt.chat_request(&ChatRequest { system_prompt: "s", messages: &messages, tools_json: None }).unwrap();
    let resp = rt.chat_reply(reply).unwrap();
    assert_eq!(resp.tool_calls.len(), 1);
    assert_eq!(resp.tool_calls[0].id, "call_1");
    assert_eq!(resp.tool_calls[0].name, "files");
    assert_eq!(resp.tool_calls[0].arguments_json, r#"{"p":"/x"}"#);
}

#[test]
fn anthropic_converts_tool_role_to_user_and_parses() {
    let reply = r#"{"content":[{"type":"thinking","thinking":"hmm"},{"type":"text","text":"done"},
        {"type":"tool_use","id":"tu1","name":"foo","input":{"a":1}}]}"#;
    let rt = LlmRuntime::init(&cfg("anthropic_compatible", "https://api.anthropic.com/v1")).unwrap();
    let messages = json(
        r#"[
            {"role": "user", "content": "hi"},
            {"role": "assistant", "content": "", "tool_calls": [
                {"id": "tu1", "function": {"name": "foo", "arguments": "{\"a\":1}"}}
            ]},
            {"role": "tool", "tool_call_id": "tu1", "content": "result-text"}
        ]"#,
    );
    let request =
        rt.chat_request(&ChatRequest { system_prompt: "sys", messages: &messages, tools_json: None }).unwrap();
    let resp = rt.chat_reply(reply).unwrap();
    assert_eq!(resp.text.as_deref(), Some("done"));
    assert_eq!(resp.reasoning_content.as_deref(), Some("hmm"));
    assert_eq!(resp.tool_calls.len(), 1);
    assert_eq!(resp.tool_calls[0].name, "foo");

    let body = json(&request.body);
    assert_eq!(body.get_str("system"), Some("sys"));
    let msgs = body.get_array("messages").unwrap();
    assert_eq!(msgs[0].get_str("role"), Some("user"));
    let assistant = &msgs[1];
    assert_eq!(assistant.get_str("role"), Some("assistant"));
    let a_blocks = assistant.get_array("content").unwrap();
    assert!(a_blocks.iter().any(|b| b.get_str("type") == Some("tool_use") && b.get_str("name") == Some("foo")));
    let tool_user = &msgs[2];
    assert_eq!(tool_user.get_str("role"), Some("user"));
    let t_blocks = tool_user.get_array("content").unwrap();
    assert_eq!(t_blocks[0].get_str("type"), Some("tool_result"));
    assert_eq!(t_blocks[0].get_str("tool_use_id"), Some("tu1"));
    assert_eq!(t_blocks[0].get_str("content"), Some("result-text"));
}

#[test]
fn anthropic_converts_tools() {
    let rt = LlmRuntime::init(&cfg("anthropic_compatible", "https://api.anthropic.com")).unwrap();
    let messages = json(r#"[{"role": "user", "content": "hi"}]"#);
    let tools = r#"[{"type":"function","function":{"name":"foo","description":"d","parameters":{"type":"object"}}}]"#;
    let request = rt
        .chat_request(&ChatRequest { system_prompt: "s", messages: &messages, tools_json: Some(tools) })
        .unwrap();
    assert_eq!(rt.chat_reply(r#"{"content":[{"type":"text","text":"ok"}]}"#).unwrap().text.as_deref(), Some("ok"));
    let body = json(&request.body);
    let tools_out = body.get_array("tools").unwrap();
    assert_eq!(tools_out[0].get_str("name"), Some("foo"));
    assert_eq!(tools_out[0].get_str("description"), Some("d"));
    assert_eq!(tools_out[0].get("input_schema").unwrap().get_str("type"), Some("object"));
    assert_eq!(body.get("tool_choice").unwrap().get_str("type"), Some("auto"));
}

#[test]
fn unknown_backend_rejected() {
    let err = match LlmRuntime::init(&cfg("nope", "https://x")) {
        Ok(_) => panic!("expected error"),
        Err(e) => e,
    };
    assert_eq!(err.err, ESP_ERR_NOT_SUPPORTED);
}

#[test]
fn incomplete_settings_are_rejected() {
    for backend in ["openai_compatible", "anthropic_compatible"] {
        for broken in [
            RuntimeConfig { api_key: None, ..cfg(backend, "https://x") },
            RuntimeConfig { model: Some(String::new()), ..cfg(backend, "https://x") },
            RuntimeConfig { base_url: None, ..cfg(backend, "https://x") },
        ] {
            match LlmRuntime::init(&broken) {
                Ok(_) => panic!("expected error"),
                Err(e) => assert_eq!(e.err, ESP_ERR_INVALID_ARG),
            }
        }
    }
}

#[test]
fn replies_that_say_nothing_are_refused() {
    let rt = LlmRuntime::init(&cfg("openai_compatible", "https://x")).unwrap();
    for body in ["no json", "{}", r#"{"choices":[]}"#, r#"{"choices":[{"message":{"role":"assistant"}}]}"#] {
        assert_eq!(rt.chat_reply(body).unwrap_err().err, ESP_FAIL);
    }
    assert_eq!(
        rt.media_reply(r#"{"choices":[{"message":{"role":"assistant","content":"a cat"}}]}"#).unwrap(),
        "a cat"
    );
}

#[test]
fn tools_need_to_be_an_array() {
    let rt = LlmRuntime::init(&cfg("openai_compatible", "https://x")).unwrap();
    let messages = json("[]");
    let request = ChatRequest { system_prompt: "", messages: &messages, tools_json: Some("{}") };
    let e = rt.chat_request(&request).err().unwrap();
    assert_eq!((e.err, e.message.as_str()), (ESP_ERR_INVALID_ARG, "Invalid tools JSON"));
    let request = ChatRequest { tools_json: Some("[{\"a\":1}]"), ..request };
    let body = json(&rt.chat_request(&request).unwrap().body);
    assert_eq!(body.get_array("tools").unwrap().len(), 1);
}

#[test]
fn urls_are_joined_with_one_slash() {
    assert_eq!(join_url("https://x/v1/", "/chat"), "https://x/v1/chat");
    assert_eq!(join_url("https://x/v1", "/chat"), "https://x/v1/chat");
    assert_eq!(join_url("https://x/v1/", "chat"), "https://x/v1/chat");
    assert_eq!(join_url("https://x/v1", "chat"), "https://x/v1/chat");
}

#[test]
fn json_is_parsed_and_rendered() {
    let text = r#"{"a":[1,-2,2.5,null,true,"x\n"],"b":{}}"#;
    assert_eq!(render_json(&json(text)).as_deref(), Some(text));
    assert!(parse_json("{").is_err());
    assert_eq!(render_json(&json(r#"{ "k" : 1, "k" : 2 }"#)).as_deref(), Some(r#"{"k":2}"#));
}
