//! The long-term memory's capabilities: what C's registry is told of them, and what
//! an execution is handed and answers.

#![allow(non_camel_case_types)]

use vstd::prelude::*;

use crate::capi::strings::{c_input, cstr_input, filled, fitting_bytes, write_output};
use crate::errmap::{cap_status_esp_err, memory_code, CapStatus};
use crate::errname::{EspErr, ESP_ERR_INVALID_ARG, ESP_OK};
use crate::text::opt_view;

verus! {

/// The id of the memory's group of capabilities.
pub const GROUP_ID: &'static str = "claw_memory";

/// The family that the memory's capabilities belong to.
pub const MEMORY_FAMILY: &'static str = "memory";

/// The kind of a capability that is called.
pub const CLAW_CAP_KIND_CALLABLE: i32 = 0;

/// Whether the model may call the capability.
pub const CLAW_CAP_FLAG_CALLABLE_BY_LLM: u32 = 1;

pub const STORE_ID: &'static str = "memory_store";

pub const STORE_DESC: &'static str =
    "Store one on-device long-term memory item. Prefer normalized content plus precise LLM-generated tags and keywords.";

pub const STORE_SCHEMA: &'static str =
    "{\"type\":\"object\",\"properties\":{\"memory_id\":{\"type\":\"string\"},\"content\":{\"type\":\"string\"},\"tags\":{\"type\":\"string\"},\"keywords\":{\"type\":\"string\"}},\"required\":[\"content\"]}";

pub const RECALL_ID: &'static str = "memory_recall";

pub const RECALL_DESC: &'static str =
    "Recall detailed long-term memories by exact summary_labels from the current catalog.";

pub const RECALL_SCHEMA: &'static str =
    "{\"type\":\"object\",\"properties\":{\"summary_labels\":{\"type\":\"array\",\"items\":{\"type\":\"string\"}},\"limit\":{\"type\":\"integer\"}}}";

pub const LIST_ID: &'static str = "memory_list";

pub const LIST_DESC: &'static str =
    "List active long-term memories.";

pub const LIST_SCHEMA: &'static str =
    "{\"type\":\"object\",\"properties\":{}}";

pub const UPDATE_ID: &'static str = "memory_update";

pub const UPDATE_DESC: &'static str =
    "Update one long-term memory item. Prefer normalized content plus precise LLM-generated tags and keywords.";

pub const UPDATE_SCHEMA: &'static str =
    "{\"type\":\"object\",\"properties\":{\"memory_id\":{\"type\":\"string\"},\"content\":{\"type\":\"string\"},\"tags\":{\"type\":\"string\"},\"keywords\":{\"type\":\"string\"}},\"required\":[\"memory_id\"]}";

pub const FORGET_ID: &'static str = "memory_forget";

pub const FORGET_DESC: &'static str =
    "Forget one long-term memory item by exact memory_id.";

pub const FORGET_SCHEMA: &'static str =
    "{\"type\":\"object\",\"properties\":{\"memory_id\":{\"type\":\"string\"}},\"required\":[\"memory_id\"]}";

/// What the memory is asked to do.
#[derive(Clone, Copy, Debug, PartialEq, Eq, Structural)]
pub enum MemoryCap {
    Store,
    Recall,
    List,
    Update,
    Forget,
}

/// What C's registry is told of a capability.
#[derive(Clone, Copy, Debug, PartialEq, Eq)]
pub struct CapDescriptor {
    /// The id, which is the name too.
    pub id: &'static str,
    pub family: &'static str,
    pub description: &'static str,
    pub kind: i32,
    pub cap_flags: u32,
    pub input_schema_json: &'static str,
    pub execute: MemoryCap,
}

impl MemoryCap {
    /// The id of the capability.
    pub open spec fn id(self) -> Seq<char> {
        match self {
            MemoryCap::Store => STORE_ID@,
            MemoryCap::Recall => RECALL_ID@,
            MemoryCap::List => LIST_ID@,
            MemoryCap::Update => UPDATE_ID@,
            MemoryCap::Forget => FORGET_ID@,
        }
    }

    /// What the model is told of the capability.
    pub open spec fn description(self) -> Seq<char> {
        match self {
            MemoryCap::Store => STORE_DESC@,
            MemoryCap::Recall => RECALL_DESC@,
            MemoryCap::List => LIST_DESC@,
            MemoryCap::Update => UPDATE_DESC@,
            MemoryCap::Forget => FORGET_DESC@,
        }
    }

    /// The schema of the capability's input.
    pub open spec fn schema(self) -> Seq<char> {
        match self {
            MemoryCap::Store => STORE_SCHEMA@,
            MemoryCap::Recall => RECALL_SCHEMA@,
            MemoryCap::List => LIST_SCHEMA@,
            MemoryCap::Update => UPDATE_SCHEMA@,
            MemoryCap::Forget => FORGET_SCHEMA@,
        }
    }

    /// Whether this is what C's registry is told of the capability.
    pub open spec fn described_by(self, d: CapDescriptor) -> bool {
        &&& d.id@ == self.id()
        &&& d.family@ == MEMORY_FAMILY@
        &&& d.description@ == self.description()
        &&& d.kind == CLAW_CAP_KIND_CALLABLE
        &&& d.cap_flags == CLAW_CAP_FLAG_CALLABLE_BY_LLM
        &&& d.input_schema_json@ == self.schema()
        &&& d.execute == self
    }

    /// Whether an execution is told for which request and session it runs.
    pub open spec fn knows_its_caller(self) -> bool {
        self != MemoryCap::Recall && self != MemoryCap::List
    }

    /// What C's registry is told of the capability.
    pub fn descriptor(self) -> (r: CapDescriptor)
        ensures
            self.described_by(r),
    {
        let (id, description, input_schema_json) = match self {
            MemoryCap::Store => (STORE_ID, STORE_DESC, STORE_SCHEMA),
            MemoryCap::Recall => (RECALL_ID, RECALL_DESC, RECALL_SCHEMA),
            MemoryCap::List => (LIST_ID, LIST_DESC, LIST_SCHEMA),
            MemoryCap::Update => (UPDATE_ID, UPDATE_DESC, UPDATE_SCHEMA),
            MemoryCap::Forget => (FORGET_ID, FORGET_DESC, FORGET_SCHEMA),
        };
        CapDescriptor {
            id,
            family: MEMORY_FAMILY,
            description,
            kind: CLAW_CAP_KIND_CALLABLE,
            cap_flags: CLAW_CAP_FLAG_CALLABLE_BY_LLM,
            input_schema_json,
            execute: self,
        }
    }
}

/// The memory's capabilities in the order in which they are registered.
pub open spec fn memory_caps() -> Seq<MemoryCap> {
    seq![MemoryCap::Store, MemoryCap::Recall, MemoryCap::List, MemoryCap::Update, MemoryCap::Forget]
}

/// The group to register with C, nothing where C has one of that id already.
pub fn claw_memory_register_group(group_exists: bool) -> (r: Option<Vec<CapDescriptor>>)
    ensures
        match r {
            Some(d) => {
                &&& !group_exists
                &&& d@.len() == memory_caps().len()
                &&& forall|i: int|
                    0 <= i < d@.len() ==> memory_caps()[i].described_by(#[trigger] d@[i])
            },
            None => group_exists,
        },
{
    if group_exists {
        return None;
    }
    Some(
        vec![
            MemoryCap::Store.descriptor(),
            MemoryCap::Recall.descriptor(),
            MemoryCap::List.descriptor(),
            MemoryCap::Update.descriptor(),
            MemoryCap::Forget.descriptor(),
        ],
    )
}

/// The context of a call in C's layout, as far as the memory reads it.
#[derive(Debug, PartialEq, Eq)]
pub struct claw_cap_call_context_t {
    pub request_id: u32,
    pub session_id: Option<Vec<u8>>,
}

/// For which request and session an execution runs.
#[derive(Debug, PartialEq, Eq)]
pub struct CapCtx {
    pub request_id: u32,
    pub session_id: Option<String>,
}

/// What an execution is handed.
#[derive(Debug, PartialEq, Eq)]
pub struct CapExecution {
    pub cap: MemoryCap,
    /// The input, nothing where it is not there or not UTF-8.
    pub input_json: Option<String>,
    pub context: Option<CapCtx>,
}

/// What an execution is handed: the input, but for a list, and the caller where the
/// capability asks for it.
pub fn execution(cap: MemoryCap, input_json: &Option<Vec<u8>>, context: Option<&claw_cap_call_context_t>) -> (r:
    CapExecution)
    ensures
        r.cap == cap,
        opt_view(r.input_json) == (if cap == MemoryCap::List {
            None
        } else {
            c_input(*input_json)
        }),
        match r.context {
            Some(c) => cap.knows_its_caller() && context is Some && c.request_id == context.unwrap().request_id
                && opt_view(c.session_id) == c_input(context.unwrap().session_id),
            None => !cap.knows_its_caller() || context is None,
        },
{
    let (reads_input, knows_its_caller) = match cap {
        MemoryCap::Store => (true, true),
        MemoryCap::Recall => (true, false),
        MemoryCap::List => (false, false),
        MemoryCap::Update => (true, true),
        MemoryCap::Forget => (true, true),
    };
    CapExecution {
        cap,
        input_json: if reads_input {
            cstr_input(input_json)
        } else {
            None
        },
        context: match context {
            Some(c) => if knows_its_caller {
                Some(CapCtx { request_id: c.request_id, session_id: cstr_input(&c.session_id) })
            } else {
                None
            },
            None => None,
        },
    }
}

/// Answers C for an execution: its text goes into the buffer, and its status is a code.
pub fn execution_answer(status: CapStatus, out: &str, output: &mut Vec<u8>) -> (r: EspErr)
    ensures
        r == (match status {
            CapStatus::Success => ESP_OK as int,
            CapStatus::InvalidArg => ESP_ERR_INVALID_ARG as int,
            CapStatus::Failed(e) => memory_code(e),
        }),
        old(output)@.len() == 0 ==> final(output)@ == old(output)@,
        old(output)@.len() > 0 ==> final(output)@ == filled(old(output)@, fitting_bytes(out@, old(output)@.len())),
{
    write_output(output, out);
    cap_status_esp_err(status)
}

/// The capabilities of the memory are described each by what it is, and each is carried
/// out as itself.
pub proof fn law_capability_is_carried_out_as_itself(cap: MemoryCap, d: CapDescriptor, i: int, j: int)
    requires
        cap.described_by(d),
    ensures
        d.execute == cap,
        cap is Store ==> d.id@ == STORE_ID@ && d.input_schema_json@ == STORE_SCHEMA@ && d.description@ == STORE_DESC@,
        cap is Recall ==> d.id@ == RECALL_ID@ && d.input_schema_json@ == RECALL_SCHEMA@ && d.description@
            == RECALL_DESC@,
        cap is List ==> d.id@ == LIST_ID@ && d.input_schema_json@ == LIST_SCHEMA@ && d.description@ == LIST_DESC@,
        cap is Update ==> d.id@ == UPDATE_ID@ && d.input_schema_json@ == UPDATE_SCHEMA@ && d.description@
            == UPDATE_DESC@,
        cap is Forget ==> d.id@ == FORGET_ID@ && d.input_schema_json@ == FORGET_SCHEMA@ && d.description@
            == FORGET_DESC@,
        cap.knows_its_caller() <==> cap is Store || cap is Update || cap is Forget,
        memory_caps().len() == 5,
        memory_caps().contains(cap),
        0 <= i < j < 5 ==> memory_caps()[i] != memory_caps()[j],
{
    let caps = memory_caps();
    assert(caps[0] is Store && caps[1] is Recall && caps[2] is List && caps[3] is Update && caps[4] is Forget);
}

/// The capabilities of the memory go by their own names, in one family, and a model may
/// call each.
pub proof fn law_capabilities_have_their_names(cap: MemoryCap, d: CapDescriptor)
    requires
        cap.described_by(d),
    ensures
        cap is Store ==> d.id@ == "memory_store"@,
        cap is Recall ==> d.id@ == "memory_recall"@,
        cap is List ==> d.id@ == "memory_list"@,
        cap is Update ==> d.id@ == "memory_update"@,
        cap is Forget ==> d.id@ == "memory_forget"@,
        d.family@ == "memory"@,
        d.kind == 0,
        d.cap_flags == 1,
{
}

} // verus!
