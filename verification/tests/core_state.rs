use claw_core::consts::{AgentLoopPhase, REQUEST_FLAG_USER_INTERRUPT};
use claw_core::core_state::CoreState;
use claw_core::errname::{ESP_ERR_NOT_FOUND, ESP_ERR_TIMEOUT};
use claw_core::error::CoreError;
use claw_core::request::{RequestItem, ResponseItem};

fn req(id: u32, session: &str, text: &str, flags: u32) -> RequestItem {
    RequestItem {
        request_id: id,
        flags,
        session_id: Some(session.to_string()),
        user_text: text.to_string(),
        ..Default::default()
    }
}

fn started() -> CoreState {
    let mut c = CoreState::new(1, 4, 4, 10);
    c.started = true;
    c
}

#[test]
fn submit_rejects_when_not_started() {
    let mut c = CoreState::new(1, 4, 4, 10);
    assert!(matches!(
        c.ingress_submit(req(1, "s", "hi", 0), 0).unwrap_err(),
        CoreError::InvalidState
    ));
}

#[test]
fn submit_rejects_empty_text() {
    let mut c = started();
    assert!(matches!(
        c.ingress_submit(req(1, "s", "", 0), 0).unwrap_err(),
        CoreError::InvalidArg
    ));
}

#[test]
fn submit_and_receive_roundtrip() {
    let mut c = started();
    c.ingress_submit(req(7, "s", "hi", 0), 1000).unwrap();
    // simulate the agent consuming the request and pushing a response
    let got = c.request_queue.recv_timeout(Some(50)).unwrap();
    assert_eq!(got.request_id, 7);
    c.response_push(ResponseItem { request_id: 7, text: Some("ok".into()), ..Default::default() });
    let resp = c.response_receive_for(7, 1000).unwrap();
    assert_eq!(resp.request_id, 7);
    assert_eq!(resp.text.as_deref(), Some("ok"));
}

#[test]
fn receive_out_of_order_uses_pending() {
    let mut c = started();
    c.response_push(ResponseItem { request_id: 1, text: Some("a".into()), ..Default::default() });
    c.response_push(ResponseItem { request_id: 2, text: Some("b".into()), ..Default::default() });
    // ask for id 2 first; id 1 should be parked in pending and returned next
    let r2 = c.response_receive_for(2, 1000).unwrap();
    assert_eq!(r2.request_id, 2);
    let r1 = c.response_receive_for(1, 1000).unwrap();
    assert_eq!(r1.request_id, 1);
}

#[test]
fn receive_timeout() {
    let mut c = started();
    assert_eq!(c.response_receive_for(0, 10).err(), Some(ESP_ERR_TIMEOUT));
}

#[test]
fn cancel_and_phase() {
    let mut c = started();
    assert!(matches!(
        c.cancel_request(0).unwrap_err(),
        CoreError::Esp(ESP_ERR_NOT_FOUND)
    ));
    c.begin_turn(5, "s");
    c.cancel_request(5).unwrap();
    assert!(c.abort_flag);
    assert!(matches!(
        c.cancel_request(6).unwrap_err(),
        CoreError::Esp(ESP_ERR_NOT_FOUND)
    ));
    c.set_phase(AgentLoopPhase::InLlmHttp);
    assert_eq!(c.get_phase(), AgentLoopPhase::InLlmHttp);
}

#[test]
fn user_interrupt_insert_during_llm_http() {
    let mut c = started();
    c.begin_turn(5, "sess");
    c.set_phase(AgentLoopPhase::InLlmHttp);
    // interrupt for the same session is inserted and arms abort
    c.ingress_submit(req(6, "sess", "more", REQUEST_FLAG_USER_INTERRUPT), 0)
        .unwrap();
    assert!(c.abort_flag);
    let inserted = c.dequeue_inserted_user_inputs("sess", 4);
    assert_eq!(inserted, vec!["more".to_string()]);
}

#[test]
fn user_interrupt_falls_through_when_no_match() {
    let mut c = started();
    // no in-flight turn -> falls through to the normal request queue
    c.ingress_submit(req(6, "sess", "more", REQUEST_FLAG_USER_INTERRUPT), 1000)
        .unwrap();
    let got = c.request_queue.recv_timeout(Some(50)).unwrap();
    assert_eq!(got.request_id, 6);
}

#[test]
fn an_interrupt_is_consumed_once() {
    let mut c = started();
    c.begin_turn(5, "sess");
    c.set_phase(AgentLoopPhase::InLlmHttp);
    c.ingress_submit(req(6, "sess", "more", REQUEST_FLAG_USER_INTERRUPT), 0).unwrap();
    assert!(!c.take_user_interrupt_http_abort(4));
    assert!(c.take_user_interrupt_http_abort(5));
    assert!(!c.abort_flag);
    assert!(!c.take_user_interrupt_http_abort(5));
}

#[test]
fn a_cancelled_turn_reports_it_at_its_end() {
    let mut c = started();
    c.begin_turn(5, "s");
    c.cancel_request(5).unwrap();
    assert!(c.end_turn());
    assert!(!c.abort_flag);
    c.begin_turn(6, "s");
    assert!(!c.end_turn());
}

#[test]
fn responses_come_in_the_order_they_were_made() {
    let mut c = CoreState::new(1, 4, 3, 10);
    c.started = true;
    for id in 1..4 {
        c.response_push(ResponseItem { request_id: id, ..Default::default() });
    }
    assert_eq!(c.response_receive_for(2, 10).unwrap().request_id, 2);
    assert_eq!(c.response_receive_for(0, 0).unwrap().request_id, 1);
    assert_eq!(c.response_receive_for(3, 0).err(), Some(ESP_ERR_TIMEOUT));
    assert_eq!(c.response_receive_for(0, 10).unwrap().request_id, 3);
    assert_eq!(c.response_receive_for(0, 10).err(), Some(ESP_ERR_TIMEOUT));
}

#[test]
fn a_request_that_needs_no_slot_is_answered_at_once() {
    let mut c = CoreState::new(1, 1, 4, 10);
    assert_eq!(c.ingress_submit(req(1, "s", "hi", 0), u32::MAX), Err(CoreError::InvalidState));
    c.started = true;
    c.ingress_submit(req(1, "s", "hi", 0), 0).unwrap();
    assert!(c.request_queue.is_full());
    assert_eq!(c.ingress_submit(req(2, "s", "", 0), u32::MAX), Err(CoreError::InvalidArg));
    assert_eq!(c.ingress_submit(req(2, "s", "hi", 0), 0), Err(CoreError::Esp(ESP_ERR_TIMEOUT)));
    c.begin_turn(5, "sess");
    c.set_phase(AgentLoopPhase::InLlmHttp);
    assert_eq!(c.ingress_submit(req(6, "sess", "more", REQUEST_FLAG_USER_INTERRUPT), u32::MAX), Ok(()));
    assert_eq!(c.dequeue_inserted_user_inputs("sess", 4), vec!["more".to_string()]);
}
