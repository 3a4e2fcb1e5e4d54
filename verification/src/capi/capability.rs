//! Calls of capabilities that C provides: what they are given and what their
//! answers mean.

use vstd::prelude::*;

use crate::capi::strings::{before_zero, c_bytes, cstring, lossy, lossy_string, read_carr};
use crate::errname::{EspErr, ESP_ERR_NO_MEM, ESP_OK};
use crate::text::opt_view;

verus! {

/// Who calls a capability.
#[derive(Clone, Copy, Debug, PartialEq, Eq, Structural)]
pub enum CapabilityCaller {
    System,
    Agent,
    Console,
    SubAgent,
}

/// What a call of a capability is about.
#[derive(Debug, PartialEq, Eq)]
pub struct CapabilityContext {
    pub request_id: u32,
    pub session_id: Option<String>,
    pub source_channel: Option<String>,
    pub source_chat_id: Option<String>,
    pub target_channel: Option<String>,
    pub target_chat_id: Option<String>,
    pub source_capability: Option<String>,
    pub caller: CapabilityCaller,
}

/// Why a capability gave no answer.
#[derive(Clone, Copy, Debug, PartialEq, Eq, Structural)]
pub enum CapabilityError {
    NoMem,
    NotFound,
}

/// What a capability answered.
#[derive(Debug, PartialEq, Eq)]
pub struct CapabilityInvokeResult {
    pub output: String,
    pub ok: bool,
}

/// The context of a call as C gets it. A handle is a number, zero for none.
#[derive(Debug, PartialEq, Eq)]
pub struct ClawCapCallContext {
    pub request_id: u32,
    pub session_id: Vec<u8>,
    pub channel: Vec<u8>,
    pub chat_id: Vec<u8>,
    pub target_channel: Vec<u8>,
    pub target_chat_id: Vec<u8>,
    pub source_cap: Vec<u8>,
    pub core: usize,
    pub caller: u32,
}

/// What lies behind the pointer that a registry was given for its calls.
#[derive(Clone, Copy, Debug, PartialEq, Eq, Structural)]
pub struct CallUser {
    /// The number that marks a context of a core.
    pub magic: u32,
    /// The core's handle, where the context points to one.
    pub core: Option<usize>,
    /// The caller that the context names.
    pub caller: u32,
    /// The memory read as a core's handle.
    pub handle: usize,
}

/// The mark of a context of a core.
pub const CLAW_CAP_CORE_CALL_USER_CTX_MAGIC: u32 = 0x4341_5043;

/// The size of the buffer for a capability's output.
pub const CLAW_CAP_CORE_OUTPUT_SIZE: usize = 32768;

/// The number that C knows a caller by.
pub open spec fn caller_code(caller: CapabilityCaller) -> u32 {
    match caller {
        CapabilityCaller::System => 0,
        CapabilityCaller::Agent => 1,
        CapabilityCaller::Console => 2,
        CapabilityCaller::SubAgent => 3,
    }
}

/// The number that C knows a caller by.
pub fn caller_to_c(caller: CapabilityCaller) -> (r: u32)
    ensures
        r == caller_code(caller),
{
    match caller {
        CapabilityCaller::System => 0,
        CapabilityCaller::Agent => 1,
        CapabilityCaller::Console => 2,
        CapabilityCaller::SubAgent => 3,
    }
}

/// What a capability's answer means: it failed for want of memory and said nothing,
/// or it answered, well or badly.
pub fn invoke_result_from_c(error: EspErr, output: String) -> (r: Result<CapabilityInvokeResult, CapabilityError>)
    ensures
        match r {
            Err(e) => e == CapabilityError::NoMem && error == ESP_ERR_NO_MEM && output@.len() == 0,
            Ok(a) => !(error == ESP_ERR_NO_MEM && output@.len() == 0) && a.output@ == output@ && a.ok == (error
                == ESP_OK),
        },
{
    if error == ESP_ERR_NO_MEM && output.as_str().is_empty() {
        return Err(CapabilityError::NoMem);
    }
    Ok(CapabilityInvokeResult { output, ok: error == ESP_OK })
}

/// The bytes of an optional text, none where there is no text.
pub open spec fn text_bytes(o: Option<String>) -> Seq<u8> {
    match o {
        Some(s) => c_bytes(s@),
        None => Seq::empty(),
    }
}

fn bytes_of(o: &Option<String>) -> (r: Vec<u8>)
    ensures
        r@ == text_bytes(*o),
{
    match o {
        Some(s) => cstring(s.as_str()),
        None => Vec::new(),
    }
}

/// Whether C gets what the context says, but for the core and the caller.
pub open spec fn carries(c: ClawCapCallContext, context: CapabilityContext) -> bool {
    &&& c.request_id == context.request_id
    &&& c.session_id@ == text_bytes(context.session_id)
    &&& c.channel@ == text_bytes(context.source_channel)
    &&& c.chat_id@ == text_bytes(context.source_chat_id)
    &&& c.target_channel@ == text_bytes(context.target_channel)
    &&& c.target_chat_id@ == text_bytes(context.target_chat_id)
    &&& c.source_cap@ == text_bytes(context.source_capability)
}

/// The context of a call as C gets it, without a core.
pub fn call_context(context: &CapabilityContext) -> (r: ClawCapCallContext)
    ensures
        carries(r, *context),
        r.core == 0,
        r.caller == caller_code(context.caller),
{
    ClawCapCallContext {
        request_id: context.request_id,
        session_id: bytes_of(&context.session_id),
        channel: bytes_of(&context.source_channel),
        chat_id: bytes_of(&context.source_chat_id),
        target_channel: bytes_of(&context.target_channel),
        target_chat_id: bytes_of(&context.target_chat_id),
        source_cap: bytes_of(&context.source_capability),
        core: 0,
        caller: caller_to_c(context.caller),
    }
}

/// The core and the caller that a registry's calls are made for, given the core
/// that the call had. Without a context the caller is the agent; a marked context
/// says both; any other pointer is a core's handle, and the caller is the agent.
pub open spec fn call_owner(user: Option<CallUser>, core: usize) -> (usize, u32) {
    match user {
        None => (core, 1),
        Some(u) => if u.magic == CLAW_CAP_CORE_CALL_USER_CTX_MAGIC {
            (
                match u.core {
                    Some(c) => c,
                    None => core,
                },
                u.caller,
            )
        } else {
            (u.handle, 1)
        },
    }
}

/// A call to hand to C.
#[derive(Debug, PartialEq, Eq)]
pub struct CapabilityCall {
    pub name: Vec<u8>,
    pub input: Vec<u8>,
    pub context: ClawCapCallContext,
    pub output_size: usize,
}

/// The capabilities that C has registered.
#[derive(Debug, PartialEq, Eq)]
pub struct CLegacyRegistryBackend {
    pub cap_user_ctx: Option<CallUser>,
}

impl CLegacyRegistryBackend {
    /// The registry whose calls are made for `cap_user_ctx`.
    pub fn new(cap_user_ctx: Option<CallUser>) -> (r: CLegacyRegistryBackend)
        ensures
            r.cap_user_ctx == cap_user_ctx,
    {
        CLegacyRegistryBackend { cap_user_ctx }
    }

    /// Says for whom a call is made.
    pub fn fill_call_user_context(&self, call_context: &mut ClawCapCallContext)
        ensures
            (final(call_context).core, final(call_context).caller) == call_owner(
                self.cap_user_ctx,
                old(call_context).core,
            ),
            final(call_context).request_id == old(call_context).request_id,
            final(call_context).session_id == old(call_context).session_id,
            final(call_context).channel == old(call_context).channel,
            final(call_context).chat_id == old(call_context).chat_id,
            final(call_context).target_channel == old(call_context).target_channel,
            final(call_context).target_chat_id == old(call_context).target_chat_id,
            final(call_context).source_cap == old(call_context).source_cap,
    {
        match self.cap_user_ctx {
            None => {
                call_context.caller = caller_to_c(CapabilityCaller::Agent);
            },
            Some(user) => {
                if user.magic == CLAW_CAP_CORE_CALL_USER_CTX_MAGIC {
                    match user.core {
                        Some(core) => {
                            call_context.core = core;
                        },
                        None => {},
                    }
                    call_context.caller = user.caller;
                } else {
                    call_context.core = user.handle;
                    call_context.caller = caller_to_c(CapabilityCaller::Agent);
                }
            },
        }
    }

    /// The call to make of a capability. An empty input is an empty object.
    pub fn call(&self, capability_name: &str, input_json: &str, context: &CapabilityContext) -> (r: CapabilityCall)
        ensures
            r.name@ == c_bytes(capability_name@),
            r.input@ == c_bytes(
                if input_json@.len() == 0 {
                    "{}"@
                } else {
                    input_json@
                },
            ),
            carries(r.context, *context),
            (r.context.core, r.context.caller) == call_owner(self.cap_user_ctx, 0),
            r.output_size == CLAW_CAP_CORE_OUTPUT_SIZE,
    {
        let mut c = call_context(context);
        self.fill_call_user_context(&mut c);
        CapabilityCall {
            name: cstring(capability_name),
            input: cstring(
                if input_json.is_empty() {
                    "{}"
                } else {
                    input_json
                },
            ),
            context: c,
            output_size: CLAW_CAP_CORE_OUTPUT_SIZE,
        }
    }

    /// What the call's answer means: the code, and the text in the output buffer.
    pub fn answer(&self, error: EspErr, buffer: &Vec<u8>) -> (r: Result<CapabilityInvokeResult, CapabilityError>)
        ensures
            match r {
                Err(e) => e == CapabilityError::NoMem && error == ESP_ERR_NO_MEM && lossy(
                    before_zero(buffer@),
                ).len() == 0,
                Ok(a) => !(error == ESP_ERR_NO_MEM && lossy(before_zero(buffer@)).len() == 0) && a.output@ == lossy(
                    before_zero(buffer@),
                ) && a.ok == (error == ESP_OK),
            },
    {
        invoke_result_from_c(error, read_carr(buffer))
    }
}

/// The tools that the model is told of.
#[derive(Debug, PartialEq, Eq)]
pub struct ToolCatalog {
    pub llm_json: Option<String>,
}

/// The tools that C has registered.
pub struct CLegacyToolCatalog;

impl CLegacyToolCatalog {
    /// The context to ask C for the tools with.
    pub fn request(&self, context: &CapabilityContext) -> (r: ClawCapCallContext)
        ensures
            carries(r, *context),
            r.core == 0,
            r.caller == caller_code(context.caller),
    {
        call_context(context)
    }

    /// The catalog that C's answer stands for: nothing said is no catalog.
    pub fn catalog(&self, json: &Option<Vec<u8>>) -> (r: ToolCatalog)
        ensures
            opt_view(r.llm_json) == (match *json {
                Some(b) => if lossy(b@).len() == 0 {
                    None
                } else {
                    Some(lossy(b@))
                },
                None => None,
            }),
    {
        match json {
            Some(b) => {
                let text = lossy_string(b);
                ToolCatalog {
                    llm_json: if text.as_str().is_empty() {
                        None
                    } else {
                        Some(text)
                    },
                }
            },
            None => ToolCatalog { llm_json: None },
        }
    }
}

/// What a prompt says of skills.
#[derive(Debug, PartialEq, Eq)]
pub struct SkillPrompt {
    pub catalog_text: String,
    pub catalog: Vec<String>,
    pub active: Vec<String>,
}

/// The size of the buffer for the list of skills.
pub const SKILLS_LIST_BUF: usize = 8192;

/// The skills that C has registered.
pub struct CLegacySkills;

impl CLegacySkills {
    /// The prompt that C's answer stands for: the list in the buffer, or nothing
    /// where the list could not be read.
    pub fn prompt(&self, err: i32, buffer: &Vec<u8>) -> (r: SkillPrompt)
        ensures
            r.catalog_text@ == (if err == 0 {
                lossy(before_zero(buffer@))
            } else {
                Seq::empty()
            }),
            r.catalog@.len() == 0,
            r.active@.len() == 0,
    {
        let catalog_text = if err == 0 {
            read_carr(buffer)
        } else {
            String::new()
        };
        assert(err != 0 ==> catalog_text@ =~= Seq::<char>::empty());
        SkillPrompt { catalog_text, catalog: Vec::new(), active: Vec::new() }
    }
}

/// A call tells C for whom it is made, every text under its own name.
pub proof fn law_call_tells_for_whom_it_is_made(c: ClawCapCallContext, context: CapabilityContext)
    requires
        carries(c, context),
    ensures
        c.request_id == context.request_id,
        context.session_id is Some ==> c.session_id@ == c_bytes(context.session_id->Some_0@),
        context.source_channel is Some ==> c.channel@ == c_bytes(context.source_channel->Some_0@),
        context.source_chat_id is Some ==> c.chat_id@ == c_bytes(context.source_chat_id->Some_0@),
        context.target_channel is Some ==> c.target_channel@ == c_bytes(context.target_channel->Some_0@),
        context.target_chat_id is Some ==> c.target_chat_id@ == c_bytes(context.target_chat_id->Some_0@),
        context.source_capability is Some ==> c.source_cap@ == c_bytes(context.source_capability->Some_0@),
        context.session_id is None ==> c.session_id@.len() == 0,
        context.source_channel is None ==> c.channel@.len() == 0,
        context.target_channel is None ==> c.target_channel@.len() == 0,
{
}

/// A call belongs to the loop itself where nobody else is named, and is made by an agent
/// then; a mark that is not the loop's own names the owner by its handle.
pub proof fn law_call_belongs_to_its_owner(user: Option<CallUser>, core: usize)
    ensures
        user is None ==> call_owner(user, core) == (core, 1u32),
        user matches Some(u) ==> u.magic != CLAW_CAP_CORE_CALL_USER_CTX_MAGIC ==> call_owner(user, core) == (
            u.handle,
            1u32,
        ),
        user matches Some(u) ==> u.magic == CLAW_CAP_CORE_CALL_USER_CTX_MAGIC ==> {
            &&& call_owner(user, core).1 == u.caller
            &&& u.core is None ==> call_owner(user, core).0 == core
            &&& u.core is Some ==> call_owner(user, core).0 == u.core->Some_0
        },
{
}

/// Each caller has a code of its own.
pub proof fn law_callers_have_their_codes(caller: CapabilityCaller)
    ensures
        caller is System <==> caller_code(caller) == 0,
        caller is Agent <==> caller_code(caller) == 1,
        caller is Console <==> caller_code(caller) == 2,
        caller is SubAgent <==> caller_code(caller) == 3,
{
}

} // verus!
