//! Events as C's event router gets them.

#![allow(non_camel_case_types)]

use vstd::prelude::*;
use vstd::utf8::encode_utf8;

use crate::capi::strings::{bytes_opt, c_bytes_opt, copy_field, filled, fitting_bytes, opt_cstr};
use crate::events::{ClawEvent, SessionPolicy};

verus! {

/// An event in C's layout. A field is as long as its buffer.
#[derive(Debug, PartialEq, Eq)]
pub struct claw_event_t {
    pub event_id: Vec<u8>,
    pub source_cap: Vec<u8>,
    pub event_type: Vec<u8>,
    pub source_channel: Vec<u8>,
    pub target_channel: Vec<u8>,
    pub source_endpoint: Vec<u8>,
    pub target_endpoint: Vec<u8>,
    pub chat_id: Vec<u8>,
    pub sender_id: Vec<u8>,
    pub message_id: Vec<u8>,
    pub correlation_id: Vec<u8>,
    pub content_type: Vec<u8>,
    pub timestamp_ms: i64,
    pub session_policy: i32,
    pub text: Option<Vec<u8>>,
    pub payload_json: Option<Vec<u8>>,
}

/// A field of zeros.
pub open spec fn zeros(len: nat) -> Seq<u8> {
    Seq::new(len, |i: int| 0u8)
}

/// A field with the bytes of a text that fit.
pub open spec fn field(s: Seq<char>, len: nat) -> Seq<u8> {
    filled(zeros(len), fitting_bytes(s, len))
}

/// The number of a session policy.
pub open spec fn policy_code(p: SessionPolicy) -> i32 {
    match p {
        SessionPolicy::Chat => 0,
        SessionPolicy::Trigger => 1,
        SessionPolicy::Global => 2,
        SessionPolicy::Ephemeral => 3,
        SessionPolicy::NoSave => 4,
    }
}

fn zero_field(len: usize) -> (r: Vec<u8>)
    ensures
        r@ == zeros(len as nat),
{
    let mut r: Vec<u8> = Vec::new();
    let mut i: usize = 0;
    while i < len
        invariant
            i <= len,
            r@ == zeros(i as nat),
        decreases len - i,
    {
        r.push(0);
        i = i + 1;
        assert(r@ =~= zeros(i as nat));
    }
    r
}

fn text_field(s: &str, len: usize) -> (r: Vec<u8>)
    requires
        len > 0,
    ensures
        r@ == field(s@, len as nat),
{
    let mut r = zero_field(len);
    copy_field(&mut r, s);
    r
}

/// Publishes events to C's event router.
pub struct CEventPublisher;

impl CEventPublisher {
    /// The event in C's layout: texts cut to the size of their fields, what the loop
    /// does not fill left zero.
    pub fn layout(&self, e: &ClawEvent) -> (r: claw_event_t)
        ensures
            r.event_id@ == field(e.event_id@, 48),
            r.source_cap@ == field(e.source_cap@, 32),
            r.event_type@ == field(e.event_type@, 32),
            r.source_channel@ == field(e.source_channel@, 16),
            r.target_channel@ == zeros(16),
            r.source_endpoint@ == zeros(64),
            r.target_endpoint@ == zeros(96),
            r.chat_id@ == field(e.chat_id@, 96),
            r.sender_id@ == zeros(96),
            r.message_id@ == field(e.message_id@, 96),
            r.correlation_id@ == field(e.correlation_id@, 96),
            r.content_type@ == field(e.content_type@, 24),
            r.timestamp_ms == e.timestamp_ms,
            r.session_policy == policy_code(e.session_policy),
            bytes_opt(r.text) == c_bytes_opt(e.text),
            bytes_opt(r.payload_json) == c_bytes_opt(e.payload_json),
    {
        claw_event_t {
            event_id: text_field(e.event_id.as_str(), 48),
            source_cap: text_field(e.source_cap.as_str(), 32),
            event_type: text_field(e.event_type.as_str(), 32),
            source_channel: text_field(e.source_channel.as_str(), 16),
            target_channel: zero_field(16),
            source_endpoint: zero_field(64),
            target_endpoint: zero_field(96),
            chat_id: text_field(e.chat_id.as_str(), 96),
            sender_id: zero_field(96),
            message_id: text_field(e.message_id.as_str(), 96),
            correlation_id: text_field(e.correlation_id.as_str(), 96),
            content_type: text_field(e.content_type.as_str(), 24),
            timestamp_ms: e.timestamp_ms,
            session_policy: match e.session_policy {
                SessionPolicy::Chat => 0,
                SessionPolicy::Trigger => 1,
                SessionPolicy::Global => 2,
                SessionPolicy::Ephemeral => 3,
                SessionPolicy::NoSave => 4,
            },
            text: opt_cstr(&e.text),
            payload_json: opt_cstr(&e.payload_json),
        }
    }
}

/// A field of an event holds its text from the start, cut to fit, and zeros behind it.
pub proof fn law_event_field_holds_its_text(s: Seq<char>, len: nat, i: int)
    requires
        len > 0,
        0 <= i < len,
    ensures
        field(s, len).len() == len,
        i < encode_utf8(s).len() && i < len - 1 ==> field(s, len)[i] == encode_utf8(s)[i],
        i >= encode_utf8(s).len() || i == len - 1 ==> field(s, len)[i] == 0,
{
}

/// Each policy has a code of its own.
pub proof fn law_policies_have_their_codes(p: SessionPolicy)
    ensures
        p is Chat <==> policy_code(p) == 0,
        p is Trigger <==> policy_code(p) == 1,
        p is Global <==> policy_code(p) == 2,
        p is Ephemeral <==> policy_code(p) == 3,
        p is NoSave <==> policy_code(p) == 4,
{
}

} // verus!
