use claw_core::callbacks::{CompletionSummary, PersistRecord};
use claw_core::capi::capability::{
    caller_to_c, invoke_result_from_c, CLegacyRegistryBackend, CLegacySkills, CLegacyToolCatalog, CallUser,
    CapabilityCaller, CapabilityContext, CapabilityError, CLAW_CAP_CORE_CALL_USER_CTX_MAGIC,
};
use claw_core::capi::events::CEventPublisher;
use claw_core::capi::llm::{
    build_assets, claw_core_llm_infer_media, claw_llm_media_request_t, claw_media_asset_t, request_prompts,
};
use claw_core::capi::memory::{
    claw_memory_delete_session_history, claw_memory_init, claw_memory_item_primary_summary_label, claw_memory_item_t,
    claw_memory_note_session_summary, claw_memory_persist_context_callback, claw_memory_query_t, claw_memory_recall,
    claw_memory_request_start_callback, claw_memory_stage_note_callback, done_code, finish_context, forget_answer,
    forget_request, gate_answer, gate_check, item_answer, item_request, mem_from_c, mem_to_c, recall_labels,
    session_history_collect, text_answer, GateCheck, MemItem,
};
use claw_core::capi::memory_cap::{
    claw_cap_call_context_t, claw_memory_register_group, execution, execution_answer, MemoryCap,
};
use claw_core::capi::orchestrator::{
    claw_orchestrator_push_user_message, claw_orchestrator_user_message_t, copy_session_id, deliver_err_to_esp,
    session_delete_code, session_to_delete, Destination,
};
use claw_core::capi::requests::{
    claw_core_add_context_provider, claw_core_config_t, claw_core_create, claw_core_destroy,
    claw_core_publish_stage_text, claw_core_receive_for, claw_core_response_free, claw_core_submit, destroy_stopped,
    entry_refusal, persist_batch, request_from_c, request_to_c, summary_to_c, write_response_to_c, DestroyStep,
};
use claw_core::capi::strings::{
    cstr_input, cstr_nonempty, cstr_opt, cstr_str, cstring, opt_cstr, opt_into_raw, read_carr, until_zero, write_c_buf,
    write_carr, write_output,
};
use claw_core::capi::task::{claw_task_config_t, claw_task_create, StackMemory};
use claw_core::consts::{CompletionType, ContextRecordType, ResponseStatus};
use claw_core::errmap::{CapStatus, MemoryError};
use claw_core::errname::{
    ESP_ERR_INVALID_ARG, ESP_ERR_INVALID_STATE, ESP_ERR_NOT_FOUND, ESP_ERR_NO_MEM, ESP_FAIL, ESP_OK,
};
use claw_core::events::{ClawEvent, SessionPolicy};
use claw_core::llm::types::AssetKind;
use claw_core::protocol::ids::SessionId;
use claw_core::request::{RequestItem, ResponseItem};
use claw_core::session::{DeliverError, SessionError};

fn c(s: &str) -> Option<Vec<u8>> {
    Some(s.as_bytes().to_vec())
}

#[test]
fn c_strings_are_read() {
    let broken = Some(vec![b'a', 0xff, b'b']);
    assert_eq!(cstr_opt(&broken), Some("a\u{fffd}b".to_string()));
    assert_eq!(cstr_opt(&c("caf\u{e9}")), Some("caf\u{e9}".to_string()));
    assert_eq!(cstr_opt(&None), None);
    assert_eq!(cstr_str(&None), "");
    assert_eq!(cstr_input(&broken), None);
    assert_eq!(cstr_input(&c("")), Some(String::new()));
    assert_eq!(cstr_input(&c("\u{1f99e}")), Some("\u{1f99e}".to_string()));
    assert_eq!(cstr_nonempty(&c("")), None);
    assert_eq!(cstr_nonempty(&c("x")), Some("x".to_string()));
    assert_eq!(until_zero(&b"ab\0cd".to_vec()), b"ab".to_vec());
    assert_eq!(read_carr(&b"ab\0cd".to_vec()), "ab");
}

#[test]
fn texts_with_a_zero_are_not_handed_over() {
    assert_eq!(cstring("a\0b"), Vec::<u8>::new());
    assert_eq!(cstring("ab"), b"ab".to_vec());
    assert_eq!(opt_cstr(&Some("a\0".into())), Some(Vec::new()));
    assert_eq!(opt_into_raw(&Some("a\0".into())), None);
    assert_eq!(opt_into_raw(&Some("a".into())), Some(b"a".to_vec()));
    assert_eq!(opt_into_raw(&None), None);
}

#[test]
fn buffers_get_whole_characters() {
    let mut bytes = vec![9u8; 4];
    write_output(&mut bytes, "ab\u{e9}");
    assert_eq!(bytes, vec![b'a', b'b', 0xc3, 0]);
    let mut text = vec![9u8; 4];
    write_c_buf(&mut text, "ab\u{e9}");
    assert_eq!(text, vec![b'a', b'b', 0, 9]);
    assert_eq!(write_carr("hi", 5), vec![b'h', b'i', 0, 0, 0]);
    assert_eq!(read_carr(&write_carr("hello", 5)), "hell");
    assert_eq!(read_carr(&write_carr("hello", 6)), "hello");
    let mut empty: Vec<u8> = Vec::new();
    write_output(&mut empty, "x");
    write_c_buf(&mut empty, "x");
    assert_eq!(empty, Vec::<u8>::new());
}

#[test]
fn requests_come_back_from_c() {
    let item = RequestItem {
        request_id: 7,
        flags: 3,
        session_id: Some("s".into()),
        user_text: "hello".into(),
        source_channel: Some("cli".into()),
        source_chat_id: None,
        source_sender_id: Some("me".into()),
        source_message_id: Some("m1".into()),
        source_cap: Some("cap".into()),
        target_channel: Some("t".into()),
        target_chat_id: Some("u".into()),
    };
    assert_eq!(request_from_c(&request_to_c(&item)), item);
}

#[test]
fn responses_and_summaries_are_laid_out() {
    let out = write_response_to_c(&ResponseItem {
        request_id: 4,
        status: ResponseStatus::Error,
        completion_type: CompletionType::Done,
        target_channel: Some("cli".into()),
        target_chat_id: None,
        text: None,
        error_message: Some("bad".into()),
    });
    assert_eq!(out.request_id, 4);
    assert_eq!(out.status, ResponseStatus::Error.as_c());
    assert_eq!(out.target_channel, c("cli"));
    assert_eq!(out.text, None);
    assert_eq!(out.error_message, c("bad"));

    let summary = summary_to_c(&CompletionSummary {
        request_id: 4,
        session_id: Some("s".into()),
        final_text: Some("done".into()),
        context_providers_csv: "a,b".into(),
        tool_calls_csv: String::new(),
    });
    assert_eq!(summary.final_text, c("done"));
    assert_eq!(summary.context_providers_csv, b"a,b".to_vec());
    assert_eq!(summary.tool_calls_csv, Vec::<u8>::new());
}

#[test]
fn records_are_persisted_as_they_are() {
    let request = RequestItem { request_id: 5, user_text: "q".into(), ..Default::default() };
    let records = vec![
        PersistRecord { record_type: ContextRecordType::User, message_json: None, text: Some("q".into()) },
        PersistRecord { record_type: ContextRecordType::ToolResult, message_json: Some("[]".into()), text: None },
    ];
    let batch = persist_batch("s1", &request, &records, true);
    let call = claw_memory_persist_context_callback(Some(&batch));
    assert_eq!(call.session_id.as_deref(), Some("s1"));
    assert!(call.turn_completed);
    assert_eq!(call.records.len(), 2);
    assert_eq!(call.records[0].record_type, 1);
    assert_eq!(call.records[0].text.as_deref(), Some("q"));
    assert_eq!(call.records[1].record_type, 4);
    assert_eq!(call.records[1].message_json.as_deref(), Some("[]"));
    assert_eq!(call.publish_for, Some(request));

    let nothing = claw_memory_persist_context_callback(None);
    assert!(nothing.records.is_empty() && nothing.session_id.is_none() && !nothing.turn_completed);
}

fn config() -> claw_core_config_t {
    claw_core_config_t {
        instance_id: 2,
        api_key: c("SECRET-REDACTED"),
        backend_type: c("openai_compatible"),
        model: c("m"),
        base_url: None,
        auth_type: None,
        max_tokens_field: None,
        timeout_ms: 30,
        max_tokens: 40,
        image_max_bytes: 50,
        supports_tools: true,
        supports_vision: false,
        image_remote_url_only: true,
        system_prompt: c("You help."),
        task_stack_size: 1,
        task_priority: 2,
        task_core: -1,
        max_tool_iterations: 3,
        request_queue_len: 4,
        response_queue_len: 5,
        max_context_providers: 6,
    }
}

#[test]
fn settings_need_a_prompt_a_key_a_model_and_a_backend() {
    let (runtime, core) = claw_core_create(Some(&config()), true).unwrap();
    assert_eq!(runtime.backend_type, "openai_compatible");
    assert_eq!(runtime.model.as_deref(), Some("m"));
    assert_eq!((runtime.timeout_ms, runtime.max_tokens, runtime.image_max_bytes), (30, 40, 50));
    assert_eq!(core.system_prompt, "You help.");
    assert_eq!(core.max_context_providers, 6);
    assert_eq!(claw_core_create(None, true).err(), Some(ESP_ERR_INVALID_ARG));
    assert_eq!(claw_core_create(Some(&config()), false).err(), Some(ESP_ERR_INVALID_ARG));
    for broken in [
        claw_core_config_t { api_key: None, ..config() },
        claw_core_config_t { model: None, ..config() },
        claw_core_config_t { system_prompt: None, ..config() },
        claw_core_config_t { backend_type: None, ..config() },
        claw_core_config_t { backend_type: c(""), ..config() },
    ] {
        assert_eq!(claw_core_create(Some(&broken), true).err(), Some(ESP_ERR_INVALID_ARG));
    }
}

#[test]
fn stage_texts_and_providers_need_their_parts() {
    let request = request_to_c(&RequestItem { request_id: 9, ..Default::default() });
    let (item, text) = claw_core_publish_stage_text(Some(&request), &c("working")).unwrap();
    assert_eq!((item.request_id, text.as_str()), (9, "working"));
    assert_eq!(claw_core_publish_stage_text(None, &c("x")).err(), Some(ESP_ERR_INVALID_ARG));
    assert_eq!(claw_core_publish_stage_text(Some(&request), &None).err(), Some(ESP_ERR_INVALID_ARG));
    assert_eq!(claw_core_add_context_provider(true, &c("skills"), true), Ok("skills".to_string()));
    assert_eq!(claw_core_add_context_provider(true, &c("skills"), false), Err(ESP_ERR_INVALID_ARG));
    assert_eq!(claw_core_add_context_provider(true, &None, true), Err(ESP_ERR_INVALID_ARG));
    assert_eq!(claw_core_add_context_provider(false, &c("skills"), true), Err(ESP_ERR_INVALID_STATE));
}

fn item() -> MemItem {
    MemItem {
        id: "id-1".into(),
        source: "chat".into(),
        content: "likes tea".into(),
        summary_ids: vec![4, 9],
        tags: "a,b".into(),
        keywords: "tea".into(),
        created_at: 1,
        updated_at: 2,
        access_count: 3,
        deleted: true,
    }
}

#[test]
fn memory_items_come_back_from_c() {
    let laid_out = mem_to_c(&item());
    assert_eq!(laid_out.id.len(), 40);
    assert_eq!(laid_out.summary_ids, [4, 9, 0]);
    assert_eq!(laid_out.summary_id_count, 2);
    assert_eq!(mem_from_c(&laid_out), item());
    let many = mem_to_c(&MemItem { summary_ids: vec![1, 2, 3, 4], ..item() });
    assert_eq!((many.summary_ids, many.summary_id_count), ([1, 2, 3], 3));
    let blank = mem_from_c(&claw_memory_item_t::default());
    assert_eq!(blank.id, "");
    assert!(blank.summary_ids.is_empty() && !blank.deleted);
}

#[test]
fn stores_and_forgets_answer_with_codes() {
    assert_eq!(item_request(None).err(), Some(ESP_ERR_INVALID_STATE));
    assert_eq!(item_request(Some(&mem_to_c(&item()))).unwrap(), item());
    let stored = item_answer(&Ok(true), &item());
    assert_eq!((stored.code, stored.changed), (ESP_OK, true));
    assert_eq!(mem_from_c(&stored.item.unwrap()), item());
    let failed = item_answer(&Err(MemoryError::NotFound), &item());
    assert_eq!((failed.code, failed.changed), (ESP_ERR_NOT_FOUND, false));
    assert!(failed.item.is_none());

    assert_eq!(forget_request(&c("id-1")), Ok("id-1".to_string()));
    assert_eq!(forget_request(&None), Err(ESP_ERR_INVALID_ARG));
    let (code, written, changed) = forget_answer(&Ok((Some(item()), true)), true);
    assert_eq!((code, changed), (ESP_OK, Some(true)));
    assert_eq!(mem_from_c(&written.unwrap()), item());
    assert!(forget_answer(&Ok((Some(item()), true)), false).1.is_none());
    assert_eq!(forget_answer(&Err(MemoryError::Fail), true).0, ESP_FAIL);
}

#[test]
fn labels_and_sessions_are_checked() {
    let labels = vec![c("a"), None, c("b"), c("c")];
    assert_eq!(recall_labels(&labels), vec!["a".to_string(), "b".to_string()]);

    let mut buf = vec![9u8; 4];
    assert_eq!(claw_memory_item_primary_summary_label(true, Some("food"), &mut buf), ESP_OK);
    assert_eq!(buf, b"foo\0".to_vec());
    assert_eq!(claw_memory_item_primary_summary_label(true, None, &mut buf), ESP_ERR_NOT_FOUND);
    assert_eq!(buf[0], 0);
    assert_eq!(claw_memory_item_primary_summary_label(false, Some("x"), &mut buf), ESP_ERR_INVALID_ARG);

    assert_eq!(claw_memory_delete_session_history(&c("s"), true), Ok("s".to_string()));
    assert_eq!(claw_memory_delete_session_history(&c(""), true), Err(ESP_ERR_INVALID_ARG));
    assert_eq!(claw_memory_delete_session_history(&c("s"), false), Err(ESP_ERR_INVALID_ARG));
    assert_eq!(claw_memory_init(None).err(), Some(ESP_ERR_INVALID_ARG));
}

#[test]
fn full_sessions_are_refused_with_a_warning() {
    let mut buf = vec![9u8; 5];
    assert!(matches!(gate_check(None, &mut buf), GateCheck::Answer(ESP_OK)));
    let unnamed = request_to_c(&RequestItem::default());
    assert!(matches!(gate_check(Some(&unnamed), &mut buf), GateCheck::Answer(ESP_OK)));
    let named = request_to_c(&RequestItem { session_id: Some("s".into()), ..Default::default() });
    let mut none: Vec<u8> = Vec::new();
    assert!(matches!(gate_check(Some(&named), &mut none), GateCheck::Answer(ESP_ERR_INVALID_ARG)));
    match gate_check(Some(&named), &mut buf) {
        GateCheck::Ask(session) => assert_eq!(session, "s"),
        GateCheck::Answer(_) => panic!("the memory must be asked"),
    }
    assert_eq!(buf[0], 0);
    assert_eq!(gate_answer(false, "full", &mut buf), ESP_OK);
    assert_eq!(gate_answer(true, "full!", &mut buf), ESP_ERR_INVALID_STATE);
    assert_eq!(buf, b"full\0".to_vec());
}

#[test]
fn contexts_are_finished_or_fail() {
    assert_eq!(finish_context(true, 2, &Ok("text".into())), (ESP_OK, Some((2, "text".to_string()))));
    assert_eq!(finish_context(true, 2, &Err(MemoryError::NotFound)), (ESP_ERR_NOT_FOUND, None));
    assert_eq!(finish_context(false, 2, &Ok("text".into())), (ESP_ERR_INVALID_ARG, None));
}

fn message() -> claw_orchestrator_user_message_t {
    claw_orchestrator_user_message_t {
        message_id: None,
        channel: c("cli"),
        chat_id: c("42"),
        sender_id: None,
        session_id: None,
        text: c("hi"),
    }
}

#[test]
fn user_messages_go_to_a_session_or_a_route() {
    match claw_orchestrator_push_user_message(Some(&message())) {
        Ok(Destination::Route(m)) => {
            assert_eq!((m.message_id.as_str(), m.session_id.as_str()), ("msg", ""));
            assert_eq!((m.channel.as_str(), m.chat_id.as_str(), m.text.as_str()), ("cli", "42", "hi"));
        }
        other => panic!("unexpected destination: {other:?}"),
    }
    let named = claw_orchestrator_user_message_t { session_id: c("session-3"), message_id: c("m9"), ..message() };
    match claw_orchestrator_push_user_message(Some(&named)) {
        Ok(Destination::Session(m)) => {
            assert_eq!((m.message_id.as_str(), m.session_id.as_str()), ("m9", "session-3"));
        }
        other => panic!("unexpected destination: {other:?}"),
    }
    for broken in [
        claw_orchestrator_user_message_t { channel: None, ..message() },
        claw_orchestrator_user_message_t { chat_id: Some(vec![0xff]), ..message() },
        claw_orchestrator_user_message_t { text: None, ..message() },
    ] {
        assert_eq!(claw_orchestrator_push_user_message(Some(&broken)), Err(ESP_ERR_INVALID_ARG));
    }
    assert_eq!(claw_orchestrator_push_user_message(None), Err(ESP_ERR_INVALID_ARG));
}

#[test]
fn session_ids_are_copied_whole_or_not_at_all() {
    let mut buf = vec![9u8; 11];
    assert_eq!(copy_session_id(&mut buf, SessionId(12)), ESP_OK);
    assert_eq!(buf, b"session-12\0".to_vec());
    let mut small = vec![9u8; 10];
    assert_eq!(copy_session_id(&mut small, SessionId(12)), ESP_ERR_INVALID_ARG);
    assert_eq!(small, vec![9u8; 10]);
    assert_eq!(session_to_delete(&c("session-12")), Ok(SessionId(12)));
    assert_eq!(session_to_delete(&c("12")), Err(ESP_ERR_INVALID_ARG));
    assert_eq!(session_to_delete(&None), Err(ESP_ERR_INVALID_ARG));
    assert_eq!(session_delete_code(&Ok(())), ESP_OK);
    assert_eq!(session_delete_code(&Err(SessionError::NotFound(SessionId(1)))), ESP_ERR_NOT_FOUND);
    assert_eq!(deliver_err_to_esp(&DeliverError::MissingSessionId), ESP_ERR_NOT_FOUND);
    assert_eq!(deliver_err_to_esp(&DeliverError::NoReplyRoute(SessionId(1))), ESP_ERR_INVALID_STATE);
    assert_eq!(deliver_err_to_esp(&DeliverError::Channel("closed".into())), ESP_ERR_INVALID_STATE);
    let twice = SessionError::AlreadyExists(SessionId(1));
    assert_eq!(session_delete_code(&Err(twice.clone())), ESP_ERR_INVALID_ARG);
    assert_eq!(deliver_err_to_esp(&DeliverError::Session(twice)), ESP_ERR_NOT_FOUND);
}

#[test]
fn assets_are_taken_by_their_kind() {
    let asset = |kind| claw_media_asset_t {
        kind,
        path: c("/a.png"),
        url: c("https://e.com/a.png"),
        bytes: vec![1, 2],
        mime_type: c("image/png"),
    };
    let request = claw_llm_media_request_t {
        system_prompt: c(""),
        user_prompt: c("what is this?"),
        media: vec![asset(0), asset(1), asset(2), asset(77)],
    };
    let assets = build_assets(&request);
    assert_eq!(assets.len(), 4);
    assert_eq!(assets[0].kind, AssetKind::LocalPath);
    assert_eq!(assets[0].path.as_deref(), Some("/a.png"));
    assert_eq!(assets[1].kind, AssetKind::RemoteUrl);
    assert_eq!(assets[1].url.as_deref(), Some("https://e.com/a.png"));
    assert_eq!(assets[2].kind, AssetKind::InlineBytes);
    assert_eq!(assets[2].bytes, Some(vec![1, 2]));
    assert_eq!(assets[3].kind, AssetKind::LocalPath);
    assert_eq!(request_prompts(&request), (None, Some("what is this?".to_string())));
    let call = claw_core_llm_infer_media(true, Some(&request)).unwrap();
    assert_eq!((call.system_prompt, call.assets), (None, assets));
    assert_eq!(claw_core_llm_infer_media(false, Some(&request)).err(), Some(ESP_ERR_INVALID_ARG));
    assert_eq!(claw_core_llm_infer_media(true, None).err(), Some(ESP_ERR_INVALID_ARG));
}

#[test]
fn events_are_cut_to_their_fields() {
    let event = ClawEvent {
        event_id: "e".into(),
        source_cap: "claw_core".into(),
        event_type: "out_message".into(),
        source_channel: "a-channel-with-a-long-name".into(),
        chat_id: "c1".into(),
        message_id: "m1".into(),
        correlation_id: "7".into(),
        content_type: "text/plain".into(),
        timestamp_ms: 99,
        session_policy: SessionPolicy::Ephemeral,
        text: Some("hi".into()),
        payload_json: None,
    };
    let laid_out = CEventPublisher.layout(&event);
    assert_eq!(read_carr(&laid_out.source_channel), "a-channel-with-");
    assert_eq!(laid_out.source_channel.len(), 16);
    assert_eq!(read_carr(&laid_out.event_type), "out_message");
    assert_eq!(laid_out.target_endpoint, vec![0u8; 96]);
    assert_eq!((laid_out.timestamp_ms, laid_out.session_policy), (99, 3));
    assert_eq!((laid_out.text, laid_out.payload_json), (c("hi"), None));
}

fn context() -> CapabilityContext {
    CapabilityContext {
        request_id: 8,
        session_id: Some("s".into()),
        source_channel: Some("cli".into()),
        source_chat_id: None,
        target_channel: None,
        target_chat_id: None,
        source_capability: Some("cap".into()),
        caller: CapabilityCaller::Console,
    }
}

#[test]
fn capability_calls_say_for_whom_they_are_made() {
    let plain = CLegacyRegistryBackend::new(None).call("files", "", &context());
    assert_eq!((plain.name, plain.input), (b"files".to_vec(), b"{}".to_vec()));
    assert_eq!((plain.context.core, plain.context.caller, plain.output_size), (0, 1, 32768));
    assert_eq!(plain.context.session_id, b"s".to_vec());
    assert_eq!(plain.context.chat_id, Vec::<u8>::new());

    let marked = CallUser { magic: CLAW_CAP_CORE_CALL_USER_CTX_MAGIC, core: Some(55), caller: 3, handle: 66 };
    let call = CLegacyRegistryBackend::new(Some(marked)).call("files", "{\"a\":1}", &context());
    assert_eq!((call.context.core, call.context.caller), (55, 3));
    assert_eq!(call.input, b"{\"a\":1}".to_vec());

    let other = CallUser { magic: 1, ..marked };
    let call = CLegacyRegistryBackend::new(Some(other)).call("files", "", &context());
    assert_eq!((call.context.core, call.context.caller), (66, 1));
    assert_eq!(CLegacyToolCatalog.request(&context()).caller, 2);
    assert_eq!(caller_to_c(CapabilityCaller::System), 0);
}

#[test]
fn capability_answers_are_read() {
    let backend = CLegacyRegistryBackend::new(None);
    let done = backend.answer(ESP_OK, &b"fine\0rest".to_vec()).unwrap();
    assert_eq!((done.output.as_str(), done.ok), ("fine", true));
    let failed = backend.answer(ESP_FAIL, &b"broken\0".to_vec()).unwrap();
    assert_eq!((failed.output.as_str(), failed.ok), ("broken", false));
    assert_eq!(invoke_result_from_c(ESP_ERR_NO_MEM, String::new()).err(), Some(CapabilityError::NoMem));
    assert_eq!(invoke_result_from_c(ESP_ERR_NO_MEM, "x".into()).unwrap().ok, false);

    assert_eq!(CLegacyToolCatalog.catalog(&c("[]")).llm_json.as_deref(), Some("[]"));
    assert_eq!(CLegacyToolCatalog.catalog(&c("")).llm_json, None);
    assert_eq!(CLegacyToolCatalog.catalog(&None).llm_json, None);
    assert_eq!(CLegacySkills.prompt(0, &b"skills\0".to_vec()).catalog_text, "skills");
    assert_eq!(CLegacySkills.prompt(-1, &b"skills\0".to_vec()).catalog_text, "");
}

#[test]
fn tasks_need_a_name_a_function_a_stack_and_their_memory() {
    let memory = StackMemory { psram_only: 2, spiram: 1024 };
    let config = |stack_policy| claw_task_config_t {
        name: c("worker"),
        stack_size: 4096,
        priority: 5,
        core_id: 0,
        stack_policy,
    };
    assert_eq!(claw_task_create(Some(&config(0)), true, 0, memory), Ok(()));
    assert_eq!(claw_task_create(Some(&config(2)), true, 1024, memory), Ok(()));
    assert_eq!(claw_task_create(Some(&config(2)), true, 0, memory), Err(-1));
    assert_eq!(claw_task_create(Some(&config(0)), false, 0, memory), Err(-1));
    assert_eq!(claw_task_create(None, true, 0, memory), Err(-1));
    let unnamed = claw_task_config_t { name: c(""), ..config(0) };
    assert_eq!(claw_task_create(Some(&unnamed), true, 0, memory), Err(-1));
    let stackless = claw_task_config_t { stack_size: 0, ..config(0) };
    assert_eq!(claw_task_create(Some(&stackless), true, 0, memory), Err(-1));
}

#[test]
fn memory_questions_need_a_place_for_the_answer() {
    let query = claw_memory_query_t { summary_labels: vec![c("a"), None], limit: 4 };
    let call = claw_memory_recall(Some(&query), true).unwrap();
    assert_eq!((call.labels, call.limit), (vec!["a".to_string()], 4));
    assert_eq!(claw_memory_recall(Some(&query), false).err(), Some(ESP_ERR_INVALID_ARG));
    assert_eq!(claw_memory_recall(None, true).err(), Some(ESP_ERR_INVALID_ARG));
    assert_eq!(text_answer(&Ok("[]".into())), (ESP_OK, Some("[]".to_string())));
    assert_eq!(text_answer(&Err(MemoryError::NoMem)), (ESP_ERR_NO_MEM, None));
    assert_eq!((done_code(&Ok(())), done_code(&Err(MemoryError::Fail))), (ESP_OK, ESP_FAIL));
    assert_eq!(claw_memory_note_session_summary(&None, &c("x")), None);
    assert_eq!(claw_memory_note_session_summary(&c("s"), &None), Some(("s".to_string(), String::new())));
}

#[test]
fn memory_hears_of_requests() {
    let request =
        request_to_c(&RequestItem { request_id: 3, session_id: Some("s".into()), user_text: "q".into(), ..Default::default() });
    let start = claw_memory_request_start_callback(Some(&request)).unwrap();
    assert_eq!((start.request_id, start.session_id.as_deref(), start.user_text.as_deref()), (3, Some("s"), Some("q")));
    assert_eq!(claw_memory_request_start_callback(None), None);
    assert_eq!(claw_memory_stage_note_callback(Some(&request), true), Ok(Some((3, Some("s".to_string())))));
    assert_eq!(claw_memory_stage_note_callback(None, true), Ok(None));
    assert_eq!(claw_memory_stage_note_callback(Some(&request), false), Err(ESP_ERR_INVALID_ARG));
    assert_eq!(session_history_collect(Some(&request), true), Ok(Some("s".to_string())));
    assert_eq!(session_history_collect(None, true), Ok(None));
    assert_eq!(session_history_collect(None, false), Err(ESP_ERR_NOT_FOUND));
}

#[test]
fn memory_capabilities_are_registered_once() {
    assert!(claw_memory_register_group(true).is_none());
    let group = claw_memory_register_group(false).unwrap();
    let ids: Vec<&str> = group.iter().map(|d| d.id).collect();
    assert_eq!(ids, vec!["memory_store", "memory_recall", "memory_list", "memory_update", "memory_forget"]);
    assert!(group.iter().all(|d| d.family == "memory" && d.cap_flags == 1 && d.kind == 0));

    let context = claw_cap_call_context_t { request_id: 5, session_id: c("s") };
    let store = execution(MemoryCap::Store, &c("{}"), Some(&context));
    assert_eq!(store.input_json.as_deref(), Some("{}"));
    assert_eq!(store.context.unwrap().session_id.as_deref(), Some("s"));
    assert!(execution(MemoryCap::Recall, &c("{}"), Some(&context)).context.is_none());
    assert!(execution(MemoryCap::List, &c("{}"), None).input_json.is_none());
    let mut out = vec![9u8; 4];
    assert_eq!(execution_answer(CapStatus::Failed(MemoryError::NotFound), "gone!", &mut out), ESP_ERR_NOT_FOUND);
    assert_eq!(out, b"gon\0".to_vec());
}

#[test]
fn loop_entry_points_need_a_loop() {
    assert_eq!(entry_refusal(false, false), Some(ESP_ERR_INVALID_STATE));
    assert_eq!(entry_refusal(true, false), Some(ESP_ERR_INVALID_ARG));
    assert_eq!(entry_refusal(true, true), None);
    let request = request_to_c(&RequestItem { request_id: 8, ..Default::default() });
    assert_eq!(claw_core_submit(true, Some(&request)).unwrap().request_id, 8);
    assert_eq!(claw_core_submit(true, None).err(), Some(ESP_ERR_INVALID_ARG));
    assert_eq!(claw_core_submit(false, Some(&request)).err(), Some(ESP_ERR_INVALID_STATE));

    assert_eq!(claw_core_receive_for(&Err(ESP_FAIL)), (ESP_FAIL, None));
    let (code, response) = claw_core_receive_for(&Ok(ResponseItem { text: Some("hi".into()), ..Default::default() }));
    let mut response = response.unwrap();
    assert_eq!((code, response.text.clone()), (ESP_OK, c("hi")));
    claw_core_response_free(&mut response);
    assert_eq!(response.text, None);

    assert_eq!(claw_core_destroy(false, true), DestroyStep::Keep(ESP_ERR_INVALID_STATE));
    assert_eq!(claw_core_destroy(true, true), DestroyStep::Stop);
    assert_eq!(claw_core_destroy(true, false), DestroyStep::Release);
    assert_eq!(destroy_stopped(ESP_OK), DestroyStep::Release);
    assert_eq!(destroy_stopped(ESP_FAIL), DestroyStep::Keep(ESP_FAIL));
}
