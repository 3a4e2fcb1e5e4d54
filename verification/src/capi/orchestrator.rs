//! The orchestrator's entry points: what comes in as bytes and goes out as codes.

#![allow(non_camel_case_types)]

use vstd::prelude::*;
use vstd::utf8::encode_utf8;

use crate::capi::strings::{c_input, cstr_input, filled, holds_text, law_text_reads_as_written};
use crate::errname::{EspErr, ESP_ERR_INVALID_ARG, ESP_ERR_INVALID_STATE, ESP_ERR_NOT_FOUND, ESP_OK};
use crate::protocol::ids::{wire_id, SessionId};
use crate::session::{DeliverError, InboundMessage, SessionError};
use crate::text::{is_blank, opt_view};

verus! {

/// A user message as C hands it over.
#[derive(Debug, PartialEq, Eq)]
pub struct claw_orchestrator_user_message_t {
    pub message_id: Option<Vec<u8>>,
    pub channel: Option<Vec<u8>>,
    pub chat_id: Option<Vec<u8>>,
    pub sender_id: Option<Vec<u8>>,
    pub session_id: Option<Vec<u8>>,
    pub text: Option<Vec<u8>>,
}

/// Where a user message is to go.
#[derive(Debug, PartialEq, Eq)]
pub enum Destination {
    /// To the session that the message names.
    Session(InboundMessage),
    /// To the session of the message's channel and chat.
    Route(InboundMessage),
}

/// Whether a message can be taken in: its channel, chat and text are there.
pub open spec fn is_complete(msg: claw_orchestrator_user_message_t) -> bool {
    c_input(msg.channel) is Some && c_input(msg.chat_id) is Some && c_input(msg.text) is Some
}

/// Whether the message taken in is the message that C handed over.
pub open spec fn taken_in(m: InboundMessage, msg: claw_orchestrator_user_message_t) -> bool {
    &&& m.message_id@ == (match c_input(msg.message_id) {
        Some(s) => s,
        None => "msg"@,
    })
    &&& m.channel@ == c_input(msg.channel).unwrap()
    &&& m.chat_id@ == c_input(msg.chat_id).unwrap()
    &&& opt_view(m.sender_id) == c_input(msg.sender_id)
    &&& m.session_id@ == (match c_input(msg.session_id) {
        Some(s) => s,
        None => Seq::empty(),
    })
    &&& m.text@ == c_input(msg.text).unwrap()
}

/// Takes a user message in. A message without a channel, a chat or a text is refused;
/// one that names a session goes there, another one to the session of its route.
pub fn claw_orchestrator_push_user_message(msg: Option<&claw_orchestrator_user_message_t>) -> (r: Result<
    Destination,
    EspErr,
>)
    ensures
        match r {
            Err(e) => e == ESP_ERR_INVALID_ARG && (msg is None || !is_complete(*msg.unwrap())),
            Ok(Destination::Session(m)) => msg is Some && is_complete(*msg.unwrap()) && taken_in(
                m,
                *msg.unwrap(),
            ) && c_input(msg.unwrap().session_id) is Some,
            Ok(Destination::Route(m)) => msg is Some && is_complete(*msg.unwrap()) && taken_in(
                m,
                *msg.unwrap(),
            ) && c_input(msg.unwrap().session_id) is None,
        },
{
    let msg = match msg {
        Some(m) => m,
        None => {
            return Err(ESP_ERR_INVALID_ARG);
        },
    };
    let channel = match cstr_input(&msg.channel) {
        Some(s) => s,
        None => {
            return Err(ESP_ERR_INVALID_ARG);
        },
    };
    let chat_id = match cstr_input(&msg.chat_id) {
        Some(s) => s,
        None => {
            return Err(ESP_ERR_INVALID_ARG);
        },
    };
    let text = match cstr_input(&msg.text) {
        Some(s) => s,
        None => {
            return Err(ESP_ERR_INVALID_ARG);
        },
    };
    let message_id = match cstr_input(&msg.message_id) {
        Some(s) => s,
        None => "msg".to_owned(),
    };
    let sender_id = cstr_input(&msg.sender_id);
    match cstr_input(&msg.session_id) {
        Some(wire) => Ok(
            Destination::Session(
                InboundMessage { message_id, channel, chat_id, sender_id, session_id: wire, text },
            ),
        ),
        None => {
            let none = String::new();
            assert(none@ =~= Seq::<char>::empty());
            Ok(
                Destination::Route(
                    InboundMessage { message_id, channel, chat_id, sender_id, session_id: none, text },
                ),
            )
        },
    }
}

/// Writes the wire form of a session id into a buffer, whole and with its terminator,
/// or not at all.
pub fn copy_session_id(dst: &mut Vec<u8>, id: SessionId) -> (r: EspErr)
    ensures
        r == (if encode_utf8(id.wire()).len() < old(dst)@.len() {
            ESP_OK
        } else {
            ESP_ERR_INVALID_ARG
        }),
        r != ESP_OK ==> final(dst)@ == old(dst)@,
        r == ESP_OK ==> final(dst)@ == filled(old(dst)@, encode_utf8(id.wire())),
{
    if dst.len() == 0 {
        return ESP_ERR_INVALID_ARG;
    }
    let wire = id.to_wire();
    let bytes = wire.as_str().as_bytes();
    if bytes.len() >= dst.len() {
        return ESP_ERR_INVALID_ARG;
    }
    crate::capi::strings::copy_field(dst, wire.as_str());
    ESP_OK
}

/// The code for a message that did not reach a session.
pub fn deliver_err_to_esp(err: &DeliverError) -> (r: EspErr)
    ensures
        r == (match *err {
            DeliverError::NoReplyRoute(_) | DeliverError::Channel(_) => ESP_ERR_INVALID_STATE,
            _ => ESP_ERR_NOT_FOUND,
        }),
{
    match err {
        DeliverError::SessionNotFound(_) | DeliverError::InvalidSessionId(_) | DeliverError::MissingSessionId => ESP_ERR_NOT_FOUND,
        DeliverError::Session(_) => ESP_ERR_NOT_FOUND,
        DeliverError::NoReplyRoute(_) | DeliverError::Channel(_) => ESP_ERR_INVALID_STATE,
    }
}

/// The session that a deletion names.
pub fn session_to_delete(session_id: &Option<Vec<u8>>) -> (r: Result<SessionId, EspErr>)
    ensures
        match r {
            Ok(id) => c_input(*session_id) is Some && !is_blank(c_input(*session_id).unwrap()) && wire_id(
                c_input(*session_id).unwrap(),
                "session-"@,
            ) == Some(id.0),
            Err(e) => e == ESP_ERR_INVALID_ARG && (c_input(*session_id) is None || is_blank(
                c_input(*session_id).unwrap(),
            ) || wire_id(c_input(*session_id).unwrap(), "session-"@) is None),
        },
{
    match cstr_input(session_id) {
        Some(wire) => match SessionId::from_wire(wire.as_str()) {
            Ok(id) => Ok(id),
            Err(_) => Err(ESP_ERR_INVALID_ARG),
        },
        None => Err(ESP_ERR_INVALID_ARG),
    }
}

/// The code for a deletion.
pub fn session_delete_code(r: &Result<(), SessionError>) -> (code: EspErr)
    ensures
        code == (match *r {
            Ok(_) => ESP_OK,
            Err(SessionError::NotFound(_)) => ESP_ERR_NOT_FOUND,
            Err(SessionError::AlreadyExists(_)) => ESP_ERR_INVALID_ARG,
        }),
{
    match r {
        Ok(_) => ESP_OK,
        Err(SessionError::NotFound(_)) => ESP_ERR_NOT_FOUND,
        Err(SessionError::AlreadyExists(_)) => ESP_ERR_INVALID_ARG,
    }
}

/// A user message from C is taken in as it is, every text under its own name. It must say
/// where it comes from and what it says; a message without an id is called "msg", and one
/// without a session has none.
pub proof fn law_user_message_is_taken_in_as_it_is(m: InboundMessage, msg: claw_orchestrator_user_message_t, text: Seq<char>)
    requires
        is_complete(msg),
        taken_in(m, msg),
    ensures
        msg.channel is Some && msg.chat_id is Some && msg.text is Some,
        holds_text(msg.channel, text) ==> m.channel@ == text,
        holds_text(msg.chat_id, text) ==> m.chat_id@ == text,
        holds_text(msg.text, text) ==> m.text@ == text,
        holds_text(msg.sender_id, text) ==> opt_view(m.sender_id) == Some(text),
        holds_text(msg.session_id, text) ==> m.session_id@ == text,
        holds_text(msg.message_id, text) ==> m.message_id@ == text,
        msg.message_id is None ==> m.message_id@ == "msg"@,
        msg.session_id is None ==> m.session_id@.len() == 0,
        msg.sender_id is None ==> m.sender_id is None,
{
    law_text_reads_as_written(msg.channel, text);
    law_text_reads_as_written(msg.chat_id, text);
    law_text_reads_as_written(msg.text, text);
    law_text_reads_as_written(msg.sender_id, text);
    law_text_reads_as_written(msg.session_id, text);
    law_text_reads_as_written(msg.message_id, text);
}

/// A user message is complete where its channel, its chat and its words are texts.
pub proof fn law_complete_message_has_its_parts(msg: claw_orchestrator_user_message_t, channel: Seq<char>, chat: Seq<char>, text: Seq<char>)
    ensures
        msg.channel is None || msg.chat_id is None || msg.text is None ==> !is_complete(msg),
        holds_text(msg.channel, channel) && holds_text(msg.chat_id, chat) && holds_text(msg.text, text)
            ==> is_complete(msg),
{
    law_text_reads_as_written(msg.channel, channel);
    law_text_reads_as_written(msg.chat_id, chat);
    law_text_reads_as_written(msg.text, text);
}

} // verus!
