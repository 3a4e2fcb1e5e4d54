//! The long-term memory's entry points: items in C's layout, and what the entry
//! points hand to the memory and answer.

#![allow(non_camel_case_types)]

use vstd::prelude::*;
use vstd::utf8::encode_utf8;

use crate::capi::requests::{claw_core_context_persist_batch_t, claw_core_request_t, received_from, request_from_c};
use crate::capi::strings::{
    before_zero, c_opt, c_str, cstr_opt, cstr_str, field_of, filled, fitting_text, holds_text, law_field_reads_back,
    law_text_reads_as_written, lossy, read_carr, write_c_buf, write_carr,
};
use crate::errmap::{memory_code, memory_esp_err, MemoryError};
use crate::errname::{
    EspErr, ESP_ERR_INVALID_ARG, ESP_ERR_INVALID_STATE, ESP_ERR_NOT_FOUND, ESP_OK,
};
use crate::request::RequestItem;
use crate::text::opt_view;

verus! {

/// How many summaries an item may have.
pub const MAX_SUMMARIES: usize = 3;

/// A memory item in C's layout. A field is as long as its buffer.
#[derive(Debug, PartialEq, Eq)]
pub struct claw_memory_item_t {
    pub id: Vec<u8>,
    pub source: Vec<u8>,
    pub content: Vec<u8>,
    pub summary_ids: [u16; 3],
    pub summary_id_count: u8,
    pub tags: Vec<u8>,
    pub keywords: Vec<u8>,
    pub created_at: u32,
    pub updated_at: u32,
    pub access_count: u16,
    pub deleted: u8,
}

impl claw_memory_item_t {
    /// Whether each field has its size.
    pub open spec fn wf(self) -> bool {
        self.id@.len() == 40 && self.source@.len() == 16 && self.content@.len() == 256 && self.tags@.len() == 96
            && self.keywords@.len() == 128
    }
}

impl Default for claw_memory_item_t {
    fn default() -> (r: claw_memory_item_t)
        ensures
            r.wf(),
            r.id@ == field_of(Seq::empty(), 40),
            r.source@ == field_of(Seq::empty(), 16),
            r.content@ == field_of(Seq::empty(), 256),
            r.tags@ == field_of(Seq::empty(), 96),
            r.keywords@ == field_of(Seq::empty(), 128),
            r.summary_ids@ == seq![0u16, 0u16, 0u16],
            r.summary_id_count == 0,
            r.created_at == 0,
            r.updated_at == 0,
            r.access_count == 0,
            r.deleted == 0,
    {
        proof {
            reveal_strlit("");
            assert(""@ =~= Seq::<char>::empty());
        }
        claw_memory_item_t {
            id: write_carr("", 40),
            source: write_carr("", 16),
            content: write_carr("", 256),
            summary_ids: [0, 0, 0],
            summary_id_count: 0,
            tags: write_carr("", 96),
            keywords: write_carr("", 128),
            created_at: 0,
            updated_at: 0,
            access_count: 0,
            deleted: 0,
        }
    }
}

/// A memory item.
#[derive(Debug, PartialEq, Eq)]
pub struct MemItem {
    pub id: String,
    pub source: String,
    pub content: String,
    pub summary_ids: Vec<u16>,
    pub tags: String,
    pub keywords: String,
    pub created_at: u32,
    pub updated_at: u32,
    pub access_count: u16,
    pub deleted: bool,
}

/// What a [`MemItem`] holds.
#[verifier::ext_equal]
pub struct ItemV {
    pub id: Seq<char>,
    pub source: Seq<char>,
    pub content: Seq<char>,
    pub summary_ids: Seq<u16>,
    pub tags: Seq<char>,
    pub keywords: Seq<char>,
    pub created_at: u32,
    pub updated_at: u32,
    pub access_count: u16,
    pub deleted: bool,
}

impl View for MemItem {
    type V = ItemV;

    open spec fn view(&self) -> ItemV {
        ItemV {
            id: self.id@,
            source: self.source@,
            content: self.content@,
            summary_ids: self.summary_ids@,
            tags: self.tags@,
            keywords: self.keywords@,
            created_at: self.created_at,
            updated_at: self.updated_at,
            access_count: self.access_count,
            deleted: self.deleted,
        }
    }
}

/// How many of the summaries count.
pub open spec fn summary_count(n: nat) -> nat {
    if n < MAX_SUMMARIES {
        n
    } else {
        MAX_SUMMARIES as nat
    }
}

/// The item that C means.
pub open spec fn item_from_c(c: claw_memory_item_t) -> ItemV {
    ItemV {
        id: lossy(before_zero(c.id@)),
        source: lossy(before_zero(c.source@)),
        content: lossy(before_zero(c.content@)),
        summary_ids: c.summary_ids@.take(summary_count(c.summary_id_count as nat) as int),
        tags: lossy(before_zero(c.tags@)),
        keywords: lossy(before_zero(c.keywords@)),
        created_at: c.created_at,
        updated_at: c.updated_at,
        access_count: c.access_count,
        deleted: c.deleted != 0,
    }
}

/// Whether C gets an item, its texts cut to the size of their fields.
pub open spec fn item_to_c(c: claw_memory_item_t, m: ItemV) -> bool {
    &&& c.wf()
    &&& c.id@ == field_of(m.id, 40)
    &&& c.source@ == field_of(m.source, 16)
    &&& c.content@ == field_of(m.content, 256)
    &&& c.tags@ == field_of(m.tags, 96)
    &&& c.keywords@ == field_of(m.keywords, 128)
    &&& c.summary_id_count == summary_count(m.summary_ids.len())
    &&& c.summary_ids@ == Seq::new(
        3,
        |i: int|
            if i < m.summary_ids.len() {
                m.summary_ids[i]
            } else {
                0u16
            },
    )
    &&& c.created_at == m.created_at
    &&& c.updated_at == m.updated_at
    &&& c.access_count == m.access_count
    &&& c.deleted == (if m.deleted {
        1u8
    } else {
        0u8
    })
}

/// The item that C means.
pub fn mem_from_c(c: &claw_memory_item_t) -> (r: MemItem)
    ensures
        r@ == item_from_c(*c),
{
    let count: usize = if (c.summary_id_count as usize) < MAX_SUMMARIES {
        c.summary_id_count as usize
    } else {
        MAX_SUMMARIES
    };
    let mut summary_ids: Vec<u16> = Vec::new();
    let mut i: usize = 0;
    while i < count
        invariant
            i <= count,
            count <= 3,
            summary_ids@ == c.summary_ids@.take(i as int),
        decreases count - i,
    {
        summary_ids.push(c.summary_ids[i]);
        i = i + 1;
        assert(summary_ids@ =~= c.summary_ids@.take(i as int));
    }
    MemItem {
        id: read_carr(&c.id),
        source: read_carr(&c.source),
        content: read_carr(&c.content),
        summary_ids,
        tags: read_carr(&c.tags),
        keywords: read_carr(&c.keywords),
        created_at: c.created_at,
        updated_at: c.updated_at,
        access_count: c.access_count,
        deleted: c.deleted != 0,
    }
}

fn summary_at(ids: &Vec<u16>, i: usize) -> (r: u16)
    ensures
        r == (if i < ids@.len() {
            ids@[i as int]
        } else {
            0u16
        }),
{
    if i < ids.len() {
        ids[i]
    } else {
        0
    }
}

/// The item as C gets it.
pub fn mem_to_c(m: &MemItem) -> (r: claw_memory_item_t)
    ensures
        item_to_c(r, m@),
{
    let count: u8 = if m.summary_ids.len() < MAX_SUMMARIES {
        m.summary_ids.len() as u8
    } else {
        3
    };
    let summary_ids: [u16; 3] = [
        summary_at(&m.summary_ids, 0),
        summary_at(&m.summary_ids, 1),
        summary_at(&m.summary_ids, 2),
    ];
    assert(summary_ids@ =~= Seq::new(
        3,
        |i: int|
            if i < m@.summary_ids.len() {
                m@.summary_ids[i]
            } else {
                0u16
            },
    ));
    claw_memory_item_t {
        id: write_carr(m.id.as_str(), 40),
        source: write_carr(m.source.as_str(), 16),
        content: write_carr(m.content.as_str(), 256),
        summary_ids,
        summary_id_count: count,
        tags: write_carr(m.tags.as_str(), 96),
        keywords: write_carr(m.keywords.as_str(), 128),
        created_at: m.created_at,
        updated_at: m.updated_at,
        access_count: m.access_count,
        deleted: if m.deleted {
            1
        } else {
            0
        },
    }
}

/// Whether a text fits into a field and holds no zero.
pub open spec fn fits(s: Seq<char>, len: nat) -> bool {
    encode_utf8(s).len() < len && !encode_utf8(s).contains(0)
}

/// An item that fits into C's layout comes back from it unchanged.
pub proof fn law_item_round_trip(m: ItemV, c: claw_memory_item_t)
    requires
        fits(m.id, 40),
        fits(m.source, 16),
        fits(m.content, 256),
        fits(m.tags, 96),
        fits(m.keywords, 128),
        m.summary_ids.len() <= MAX_SUMMARIES,
        item_to_c(c, m),
    ensures
        item_from_c(c) == m,
{
    law_field_reads_back(m.id, 40);
    law_field_reads_back(m.source, 16);
    law_field_reads_back(m.content, 256);
    law_field_reads_back(m.tags, 96);
    law_field_reads_back(m.keywords, 128);
    assert(item_from_c(c).summary_ids =~= m.summary_ids);
}

/// The item that a store or an update is asked for.
pub fn item_request(item: Option<&claw_memory_item_t>) -> (r: Result<MemItem, EspErr>)
    ensures
        match r {
            Ok(m) => item matches Some(c) && m@ == item_from_c(*c),
            Err(e) => e == ESP_ERR_INVALID_STATE && item is None,
        },
{
    match item {
        Some(c) => Ok(mem_from_c(c)),
        None => Err(ESP_ERR_INVALID_STATE),
    }
}

/// What a store or an update answers: its code, the item to write back, and whether
/// anything changed.
pub struct ItemAnswer {
    pub code: EspErr,
    pub item: Option<claw_memory_item_t>,
    pub changed: bool,
}

/// What a store or an update answers, given what became of it. A failure writes no
/// item back and reports no change.
pub fn item_answer(result: &Result<bool, MemoryError>, mem: &MemItem) -> (r: ItemAnswer)
    ensures
        match *result {
            Ok(changed) => r.code == ESP_OK && r.changed == changed && (r.item matches Some(c) && item_to_c(c, mem@)),
            Err(e) => r.code == memory_code(e) && !r.changed && r.item is None,
        },
{
    match result {
        Ok(changed) => ItemAnswer { code: ESP_OK, item: Some(mem_to_c(mem)), changed: *changed },
        Err(e) => ItemAnswer { code: memory_esp_err(*e), item: None, changed: false },
    }
}

/// The item that is to be forgotten.
pub fn forget_request(memory_id: &Option<Vec<u8>>) -> (r: Result<String, EspErr>)
    ensures
        match r {
            Ok(id) => memory_id is Some && id@ == c_str(*memory_id),
            Err(e) => e == ESP_ERR_INVALID_ARG && memory_id is None,
        },
{
    match cstr_opt(memory_id) {
        Some(id) => Ok(id),
        None => Err(ESP_ERR_INVALID_ARG),
    }
}

/// What forgetting answers, given what became of it: on success the forgotten item,
/// where the caller has a place for it, and whether anything changed.
pub fn forget_answer(result: &Result<(Option<MemItem>, bool), MemoryError>, wants_item: bool) -> (r: (
    EspErr,
    Option<claw_memory_item_t>,
    Option<bool>,
))
    ensures
        match *result {
            Ok((item, changed)) => {
                &&& r.0 == ESP_OK
                &&& r.2 == Some(changed)
                &&& match r.1 {
                    Some(c) => wants_item && item is Some && item_to_c(c, item.unwrap()@),
                    None => !wants_item || item is None,
                }
            },
            Err(e) => r.0 == memory_code(e) && r.1 is None && r.2 is None,
        },
{
    match result {
        Ok((item, changed)) => {
            let written = match item {
                Some(m) => if wants_item {
                    Some(mem_to_c(m))
                } else {
                    None
                },
                None => None,
            };
            (ESP_OK, written, Some(*changed))
        },
        Err(e) => (memory_esp_err(*e), None, None),
    }
}

/// The labels among the first `n` that are there.
pub open spec fn given_labels(labels: Seq<Option<Vec<u8>>>, n: nat) -> Seq<Seq<char>>
    decreases n,
{
    if n == 0 || n > labels.len() {
        Seq::empty()
    } else {
        let before = given_labels(labels, (n - 1) as nat);
        match c_opt(labels[n - 1]) {
            Some(s) => before.push(s),
            None => before,
        }
    }
}

/// The labels that a recall looks for: the first few, without those that are null.
pub fn recall_labels(labels: &Vec<Option<Vec<u8>>>) -> (r: Vec<String>)
    ensures
        crate::text::views(r@) == given_labels(labels@, summary_count(labels@.len())),
{
    let count: usize = if labels.len() < MAX_SUMMARIES {
        labels.len()
    } else {
        MAX_SUMMARIES
    };
    let mut out: Vec<String> = Vec::new();
    assert(crate::text::views(out@) =~= Seq::<Seq<char>>::empty());
    let mut i: usize = 0;
    while i < count
        invariant
            i <= count,
            count <= labels@.len(),
            crate::text::views(out@) == given_labels(labels@, i as nat),
        decreases count - i,
    {
        match cstr_opt(&labels[i]) {
            Some(s) => {
                let ghost before = out@;
                out.push(s);
                assert(crate::text::views(out@) =~= crate::text::views(before).push(s@));
            },
            None => {},
        }
        i = i + 1;
    }
    out
}

/// Writes an item's first summary label, whole characters of it, into a buffer that
/// is emptied before.
pub fn claw_memory_item_primary_summary_label(has_item: bool, label: Option<&str>, buf: &mut Vec<u8>) -> (r: EspErr)
    ensures
        !has_item || old(buf)@.len() == 0 ==> r == ESP_ERR_INVALID_ARG && final(buf)@ == old(buf)@,
        has_item && old(buf)@.len() > 0 ==> match label {
            Some(s) => r == ESP_OK && final(buf)@ == filled(
                old(buf)@.update(0, 0),
                fitting_text(s@, old(buf)@.len()),
            ),
            None => r == ESP_ERR_NOT_FOUND && final(buf)@ == old(buf)@.update(0, 0),
        },
{
    if !has_item || buf.len() == 0 {
        return ESP_ERR_INVALID_ARG;
    }
    buf.set(0, 0);
    match label {
        Some(s) => {
            write_c_buf(buf, s);
            ESP_OK
        },
        None => ESP_ERR_NOT_FOUND,
    }
}

/// The session whose history is to be deleted; it must be named.
pub fn claw_memory_delete_session_history(session_id: &Option<Vec<u8>>, has_out: bool) -> (r: Result<String, EspErr>)
    ensures
        match r {
            Ok(s) => has_out && s@ == c_str(*session_id) && s@.len() > 0,
            Err(e) => e == ESP_ERR_INVALID_ARG && (!has_out || c_str(*session_id).len() == 0),
        },
{
    if !has_out {
        return Err(ESP_ERR_INVALID_ARG);
    }
    let session = cstr_str(session_id);
    if session.as_str().is_empty() {
        return Err(ESP_ERR_INVALID_ARG);
    }
    Ok(session)
}

/// A record to persist, as the memory takes it.
#[derive(Debug, PartialEq, Eq)]
pub struct PersistRecordIn {
    pub record_type: i32,
    pub message_json: Option<String>,
    pub text: Option<String>,
}

/// What the memory is asked to persist.
#[derive(Debug, PartialEq, Eq)]
pub struct PersistCall {
    pub session_id: Option<String>,
    pub records: Vec<PersistRecordIn>,
    pub turn_completed: bool,
    /// The request whose user is told of a full session, where there is one.
    pub publish_for: Option<RequestItem>,
}

/// What the memory is asked to persist: the batch as it is, nothing for a null batch.
pub fn claw_memory_persist_context_callback(batch: Option<&claw_core_context_persist_batch_t>) -> (r: PersistCall)
    ensures
        match batch {
            None => r.session_id is None && r.records@.len() == 0 && !r.turn_completed && r.publish_for is None,
            Some(b) => {
                &&& opt_view(r.session_id) == c_opt(b.session_id)
                &&& r.turn_completed == b.turn_completed
                &&& r.records@.len() == b.records@.len()
                &&& forall|i: int|
                    0 <= i < r.records@.len() ==> {
                        let record = #[trigger] r.records@[i];
                        &&& record.record_type == b.records@[i].record_type
                        &&& opt_view(record.message_json) == c_opt(b.records@[i].message_json)
                        &&& opt_view(record.text) == c_opt(b.records@[i].text)
                    }
                &&& match r.publish_for {
                    Some(item) => b.request is Some && received_from(item, b.request.unwrap()),
                    None => b.request is None,
                }
            },
        },
{
    let b = match batch {
        Some(b) => b,
        None => {
            return PersistCall {
                session_id: None,
                records: Vec::new(),
                turn_completed: false,
                publish_for: None,
            };
        },
    };
    let mut records: Vec<PersistRecordIn> = Vec::new();
    let mut i: usize = 0;
    while i < b.records.len()
        invariant
            i <= b.records@.len(),
            records@.len() == i,
            forall|j: int|
                0 <= j < i ==> {
                    let record = #[trigger] records@[j];
                    &&& record.record_type == b.records@[j].record_type
                    &&& opt_view(record.message_json) == c_opt(b.records@[j].message_json)
                    &&& opt_view(record.text) == c_opt(b.records@[j].text)
                },
        decreases b.records@.len() - i,
    {
        records.push(
            PersistRecordIn {
                record_type: b.records[i].record_type,
                message_json: cstr_opt(&b.records[i].message_json),
                text: cstr_opt(&b.records[i].text),
            },
        );
        i = i + 1;
    }
    PersistCall {
        session_id: cstr_opt(&b.session_id),
        records,
        turn_completed: b.turn_completed,
        publish_for: match &b.request {
            Some(c) => Some(request_from_c(c)),
            None => None,
        },
    }
}

/// Whether the memory must be asked if a request's session is full.
pub enum GateCheck {
    /// No: this is the answer.
    Answer(EspErr),
    /// Yes, for this session.
    Ask(String),
}

/// Whether the memory must be asked if a request's session is full. A request without
/// a session passes; one with a session needs a buffer for the refusal, which is emptied.
pub fn gate_check(request: Option<&claw_core_request_t>, reject_message: &mut Vec<u8>) -> (r: GateCheck)
    ensures
        match r {
            GateCheck::Answer(e) => {
                &&& final(reject_message)@ == old(reject_message)@
                &&& e == ESP_OK <==> (request is None || c_str(request.unwrap().session_id).len() == 0)
                &&& e != ESP_OK ==> e == ESP_ERR_INVALID_ARG && old(reject_message)@.len() == 0
            },
            GateCheck::Ask(s) => {
                &&& request matches Some(c) && s@ == c_str(c.session_id)
                &&& s@.len() > 0
                &&& old(reject_message)@.len() > 0
                &&& final(reject_message)@ == old(reject_message)@.update(0, 0)
            },
        },
{
    let request = match request {
        Some(c) => c,
        None => {
            return GateCheck::Answer(ESP_OK);
        },
    };
    let session = cstr_str(&request.session_id);
    if session.as_str().is_empty() {
        return GateCheck::Answer(ESP_OK);
    }
    if reject_message.len() == 0 {
        return GateCheck::Answer(ESP_ERR_INVALID_ARG);
    }
    reject_message.set(0, 0);
    GateCheck::Ask(session)
}

/// What the request gate answers for a session: a full one is refused with a warning.
pub fn gate_answer(blocked: bool, warning: &str, reject_message: &mut Vec<u8>) -> (r: EspErr)
    requires
        old(reject_message)@.len() > 0,
    ensures
        r == (if blocked {
            ESP_ERR_INVALID_STATE
        } else {
            ESP_OK
        }),
        final(reject_message)@ == (if blocked {
            filled(old(reject_message)@, fitting_text(warning@, old(reject_message)@.len()))
        } else {
            old(reject_message)@
        }),
{
    if !blocked {
        return ESP_OK;
    }
    write_c_buf(reject_message, warning);
    ESP_ERR_INVALID_STATE
}

/// What a context provider answers: its content under its kind, or the failure's
/// code with nothing.
pub fn finish_context(has_out: bool, kind: i32, content: &Result<String, MemoryError>) -> (r: (
    EspErr,
    Option<(i32, String)>,
))
    ensures
        !has_out ==> r.0 == ESP_ERR_INVALID_ARG && r.1 is None,
        has_out ==> match *content {
            Ok(s) => r.0 == ESP_OK && (r.1 matches Some(c) && c.0 == kind && c.1@ == s@),
            Err(e) => r.0 == memory_code(e) && r.1 is None,
        },
{
    if !has_out {
        return (ESP_ERR_INVALID_ARG, None);
    }
    match content {
        Ok(s) => (ESP_OK, Some((kind, s.clone()))),
        Err(e) => (memory_esp_err(*e), None),
    }
}

/// What the memory is started with, in C's layout.
#[derive(Debug, PartialEq, Eq)]
pub struct claw_memory_llm_config_t {
    pub api_key: Option<Vec<u8>>,
    pub backend_type: Option<Vec<u8>>,
    pub model: Option<Vec<u8>>,
    pub base_url: Option<Vec<u8>>,
    pub auth_type: Option<Vec<u8>>,
    pub max_tokens_field: Option<Vec<u8>>,
    pub timeout_ms: u32,
    pub max_tokens: u32,
    pub image_max_bytes: usize,
    pub supports_tools: bool,
    pub supports_vision: bool,
    pub image_remote_url_only: bool,
}

/// What the memory is started with, in C's layout.
#[derive(Debug, PartialEq, Eq)]
pub struct claw_memory_config_t {
    pub session_root_dir: Option<Vec<u8>>,
    pub memory_root_dir: Option<Vec<u8>>,
    pub max_message_chars: usize,
    pub max_tool_iterations: u32,
    pub llm: claw_memory_llm_config_t,
    pub enable_async_extract_stage_note: bool,
}

/// The model that the memory talks to.
#[derive(Debug, PartialEq, Eq)]
pub struct LlmConfig {
    pub api_key: Option<String>,
    pub backend_type: Option<String>,
    pub model: Option<String>,
    pub base_url: Option<String>,
    pub auth_type: Option<String>,
    pub max_tokens_field: Option<String>,
    pub timeout_ms: u32,
    pub max_tokens: u32,
    pub image_max_bytes: usize,
    pub supports_tools: bool,
    pub supports_vision: bool,
    pub image_remote_url_only: bool,
}

/// What the memory is started with.
#[derive(Debug, PartialEq, Eq)]
pub struct MemoryConfig {
    pub session_root_dir: Option<String>,
    pub memory_root_dir: Option<String>,
    pub max_message_chars: usize,
    pub max_tool_iterations: u32,
    pub llm: LlmConfig,
    pub enable_async_extract_stage_note: bool,
}

/// Whether these are the model settings that C means.
pub open spec fn memory_llm_from_c(r: LlmConfig, c: claw_memory_llm_config_t) -> bool {
    &&& opt_view(r.api_key) == c_opt(c.api_key)
    &&& opt_view(r.backend_type) == c_opt(c.backend_type)
    &&& opt_view(r.model) == c_opt(c.model)
    &&& opt_view(r.base_url) == c_opt(c.base_url)
    &&& opt_view(r.auth_type) == c_opt(c.auth_type)
    &&& opt_view(r.max_tokens_field) == c_opt(c.max_tokens_field)
    &&& r.timeout_ms == c.timeout_ms
    &&& r.max_tokens == c.max_tokens
    &&& r.image_max_bytes == c.image_max_bytes
    &&& r.supports_tools == c.supports_tools
    &&& r.supports_vision == c.supports_vision
    &&& r.image_remote_url_only == c.image_remote_url_only
}

/// What the memory is started with; it must be there.
pub fn claw_memory_init(config: Option<&claw_memory_config_t>) -> (r: Result<MemoryConfig, EspErr>)
    ensures
        match r {
            Ok(m) => {
                &&& config is Some
                &&& opt_view(m.session_root_dir) == c_opt(config.unwrap().session_root_dir)
                &&& opt_view(m.memory_root_dir) == c_opt(config.unwrap().memory_root_dir)
                &&& m.max_message_chars == config.unwrap().max_message_chars
                &&& m.max_tool_iterations == config.unwrap().max_tool_iterations
                &&& memory_llm_from_c(m.llm, config.unwrap().llm)
                &&& m.enable_async_extract_stage_note == config.unwrap().enable_async_extract_stage_note
            },
            Err(e) => e == ESP_ERR_INVALID_ARG && config is None,
        },
{
    let c = match config {
        Some(c) => c,
        None => {
            return Err(ESP_ERR_INVALID_ARG);
        },
    };
    Ok(
        MemoryConfig {
            session_root_dir: cstr_opt(&c.session_root_dir),
            memory_root_dir: cstr_opt(&c.memory_root_dir),
            max_message_chars: c.max_message_chars,
            max_tool_iterations: c.max_tool_iterations,
            llm: LlmConfig {
                api_key: cstr_opt(&c.llm.api_key),
                backend_type: cstr_opt(&c.llm.backend_type),
                model: cstr_opt(&c.llm.model),
                base_url: cstr_opt(&c.llm.base_url),
                auth_type: cstr_opt(&c.llm.auth_type),
                max_tokens_field: cstr_opt(&c.llm.max_tokens_field),
                timeout_ms: c.llm.timeout_ms,
                max_tokens: c.llm.max_tokens,
                image_max_bytes: c.llm.image_max_bytes,
                supports_tools: c.llm.supports_tools,
                supports_vision: c.llm.supports_vision,
                image_remote_url_only: c.llm.image_remote_url_only,
            },
            enable_async_extract_stage_note: c.enable_async_extract_stage_note,
        },
    )
}

/// What a recall looks for, in C's layout.
#[derive(Debug, PartialEq, Eq)]
pub struct claw_memory_query_t {
    /// The labels, none for a null pointer.
    pub summary_labels: Vec<Option<Vec<u8>>>,
    pub limit: usize,
}

/// What the memory is asked to recall.
#[derive(Debug, PartialEq, Eq)]
pub struct RecallCall {
    pub labels: Vec<String>,
    pub limit: usize,
}

/// What the memory is asked to recall; it takes a query, and a place for the answer.
pub fn claw_memory_recall(query: Option<&claw_memory_query_t>, has_out: bool) -> (r: Result<RecallCall, EspErr>)
    ensures
        match r {
            Ok(call) => {
                &&& has_out
                &&& query is Some
                &&& crate::text::views(call.labels@) == given_labels(
                    query.unwrap().summary_labels@,
                    summary_count(query.unwrap().summary_labels@.len()),
                )
                &&& call.limit == query.unwrap().limit
            },
            Err(e) => e == ESP_ERR_INVALID_ARG && (!has_out || query is None),
        },
{
    if !has_out {
        return Err(ESP_ERR_INVALID_ARG);
    }
    match query {
        Some(q) => Ok(RecallCall { labels: recall_labels(&q.summary_labels), limit: q.limit }),
        None => Err(ESP_ERR_INVALID_ARG),
    }
}

/// What a question to the memory answers: its text, or the failure's code with nothing.
pub fn text_answer(result: &Result<String, MemoryError>) -> (r: (EspErr, Option<String>))
    ensures
        match *result {
            Ok(s) => r.0 == ESP_OK && opt_view(r.1) == Some(s@),
            Err(e) => r.0 == memory_code(e) && r.1 is None,
        },
{
    match result {
        Ok(s) => (ESP_OK, Some(s.clone())),
        Err(e) => (memory_esp_err(*e), None),
    }
}

/// The code for what became of an order to the memory.
pub fn done_code(result: &Result<(), MemoryError>) -> (r: EspErr)
    ensures
        r == (match *result {
            Ok(_) => ESP_OK as int,
            Err(e) => memory_code(e),
        }),
{
    match result {
        Ok(_) => ESP_OK,
        Err(e) => memory_esp_err(*e),
    }
}

/// The session and the summaries to note for it; without a session there is nothing
/// to note.
pub fn claw_memory_note_session_summary(session_id: &Option<Vec<u8>>, summary_list: &Option<Vec<u8>>) -> (r: Option<
    (String, String),
>)
    ensures
        match r {
            Some(n) => session_id is Some && n.0@ == c_str(*session_id) && n.1@ == c_str(*summary_list),
            None => session_id is None,
        },
{
    match cstr_opt(session_id) {
        Some(session) => Some((session, cstr_str(summary_list))),
        None => None,
    }
}

/// What the memory is told when a request starts.
#[derive(Debug, PartialEq, Eq)]
pub struct StartCall {
    pub request_id: u32,
    pub session_id: Option<String>,
    pub user_text: Option<String>,
}

/// What the memory is told when a request starts, nothing for a null request.
pub fn claw_memory_request_start_callback(request: Option<&claw_core_request_t>) -> (r: Option<StartCall>)
    ensures
        match r {
            Some(s) => {
                &&& request is Some
                &&& s.request_id == request.unwrap().request_id
                &&& opt_view(s.session_id) == c_opt(request.unwrap().session_id)
                &&& opt_view(s.user_text) == c_opt(request.unwrap().user_text)
            },
            None => request is None,
        },
{
    match request {
        Some(c) => Some(
            StartCall {
                request_id: c.request_id,
                session_id: cstr_opt(&c.session_id),
                user_text: cstr_opt(&c.user_text),
            },
        ),
        None => None,
    }
}

/// The request and the session that a stage note is asked for. Without a place for
/// the note that is an error; without a request there is no note.
pub fn claw_memory_stage_note_callback(request: Option<&claw_core_request_t>, has_out: bool) -> (r: Result<
    Option<(u32, Option<String>)>,
    EspErr,
>)
    ensures
        match r {
            Err(e) => e == ESP_ERR_INVALID_ARG && !has_out,
            Ok(None) => has_out && request is None,
            Ok(Some(q)) => {
                &&& has_out
                &&& request is Some
                &&& q.0 == request.unwrap().request_id
                &&& opt_view(q.1) == c_opt(request.unwrap().session_id)
            },
        },
{
    if !has_out {
        return Err(ESP_ERR_INVALID_ARG);
    }
    match request {
        Some(c) => Ok(Some((c.request_id, cstr_opt(&c.session_id)))),
        None => Ok(None),
    }
}

/// The session whose history is collected, where the request names one. Without a
/// place for the history there is none.
pub fn session_history_collect(request: Option<&claw_core_request_t>, has_out: bool) -> (r: Result<
    Option<String>,
    EspErr,
>)
    ensures
        match r {
            Err(e) => e == ESP_ERR_NOT_FOUND && !has_out,
            Ok(s) => has_out && opt_view(s) == (match request {
                Some(c) => c_opt(c.session_id),
                None => None,
            }),
        },
{
    if !has_out {
        return Err(ESP_ERR_NOT_FOUND);
    }
    match request {
        Some(c) => Ok(cstr_opt(&c.session_id)),
        None => Ok(None),
    }
}

/// The settings that C gives for the memory's model are taken over as they are, each under
/// its own name.
pub proof fn law_memory_settings_are_taken_over(r: LlmConfig, c: claw_memory_llm_config_t, text: Seq<char>)
    requires
        memory_llm_from_c(r, c),
    ensures
        holds_text(c.api_key, text) ==> opt_view(r.api_key) == Some(text),
        holds_text(c.backend_type, text) ==> opt_view(r.backend_type) == Some(text),
        holds_text(c.model, text) ==> opt_view(r.model) == Some(text),
        holds_text(c.base_url, text) ==> opt_view(r.base_url) == Some(text),
        holds_text(c.auth_type, text) ==> opt_view(r.auth_type) == Some(text),
        holds_text(c.max_tokens_field, text) ==> opt_view(r.max_tokens_field) == Some(text),
        r.timeout_ms == c.timeout_ms,
        r.max_tokens == c.max_tokens,
        r.image_max_bytes == c.image_max_bytes,
        r.supports_tools == c.supports_tools,
        r.supports_vision == c.supports_vision,
        r.image_remote_url_only == c.image_remote_url_only,
{
    law_text_reads_as_written(c.api_key, text);
    law_text_reads_as_written(c.backend_type, text);
    law_text_reads_as_written(c.model, text);
    law_text_reads_as_written(c.base_url, text);
    law_text_reads_as_written(c.auth_type, text);
    law_text_reads_as_written(c.max_tokens_field, text);
}

/// The labels that are given are taken in order, each as its text, and a place without a
/// label adds none.
pub proof fn law_labels_are_taken_in_order(labels: Seq<Option<Vec<u8>>>, n: nat, i: int, text: Seq<char>)
    requires
        0 <= i < n <= labels.len(),
    ensures
        ({
            let before = given_labels(labels, i as nat);
            let all = given_labels(labels, n);
            &&& before.is_prefix_of(all)
            &&& holds_text(labels[i], text) ==> before.len() < all.len() && all[before.len() as int] == text
            &&& labels[i] is None ==> given_labels(labels, (i + 1) as nat) == before
            &&& all.len() <= n
        }),
    decreases n,
{
    law_text_reads_as_written(labels[i], text);
    if i < n - 1 {
        law_labels_are_taken_in_order(labels, (n - 1) as nat, i, text);
    } else if n > 1 {
        law_labels_are_taken_in_order(labels, (n - 1) as nat, 0, text);
    }
}

/// An item in C's layout has its numbers as they are, is marked as deleted exactly where
/// it is, and keeps as many summaries as there is room for.
pub proof fn law_item_keeps_its_numbers(m: ItemV, c: claw_memory_item_t, i: int)
    requires
        item_to_c(c, m),
    ensures
        c.created_at == m.created_at,
        c.updated_at == m.updated_at,
        c.access_count == m.access_count,
        c.deleted != 0 <==> m.deleted,
        c.summary_id_count == (if m.summary_ids.len() <= 3 {
            m.summary_ids.len()
        } else {
            3
        }),
        0 <= i < c.summary_id_count ==> c.summary_ids@[i] == m.summary_ids[i],
{
}

} // verus!
