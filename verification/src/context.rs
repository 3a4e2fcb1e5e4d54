//! The system prompt of an iteration, put together from shared and role-specific
//! sections.

use vstd::prelude::*;

use crate::agent_spec::{
    AgentRole, AgentSpec, ContextBuildInput, ContextBundle, OutputSchema, PromptBlocks, SemanticPhase,
};
use crate::llm_output::{schema_json, schema_json_for_name};
use crate::text::{opt_str_view, opt_view};

verus! {

/// What an agent cannot do, told to the model in every round.
pub const NEGATIVE_CAPABILITIES: &'static str = "- No USB access\n- No physical hardware access\n- No unprovided credentials\n- Search is not a substitute for a missing capability\n";

/// The protocol section.
pub open spec fn protocol_text(role: AgentRole, phase: SemanticPhase, name: Seq<char>, description: Seq<char>) -> Seq<
    char,
> {
    "# Protocol\nrole="@ + role.name() + "\nphase="@ + phase.name() + "\noutput_schema="@ + name + ": "@
        + description + (match schema_json(name) {
        Some(s) => "\njson_schema="@ + s,
        None => Seq::empty(),
    }) + "\nRespond with a single JSON object matching json_schema."@
}

/// The section on the surroundings.
pub open spec fn env_text(env: Seq<char>, policy: Seq<char>) -> Seq<char> {
    "# ENV\n"@ + env + "\n\n# Global policy\n"@ + policy + "\n\n# Negative capabilities\n"@
        + NEGATIVE_CAPABILITIES@
}

/// The section on tools.
pub open spec fn tool_policy_text(tools: Option<Seq<char>>) -> Seq<char> {
    match tools {
        Some(t) => "# Visible tools\n"@ + t,
        None => "# Visible tools\n(none)"@,
    }
}

/// The whole system prompt.
pub open spec fn system_text(
    protocol: Seq<char>,
    env: Seq<char>,
    state: Seq<char>,
    plan: Seq<char>,
    tools: Seq<char>,
    memory: Seq<char>,
) -> Seq<char> {
    protocol + "\n\n"@ + env + "\n\n"@ + state + "\n\n"@ + plan + "\n\n"@ + tools + "\n\n"@
        + "# Memory snapshot\n"@ + memory
}

/// What the prompt of an iteration is, given its schema and its tools.
pub open spec fn assembled<P: PromptBlocks>(
    b: ContextBundle,
    blocks: P,
    input: ContextBuildInput<'_>,
    name: Seq<char>,
    description: Seq<char>,
    tools: Option<Seq<char>>,
) -> bool {
    &&& b.system_prompt@ == system_text(
        protocol_text(input.state@.role, input.state@.role_state.phase(), name, description),
        env_text(input.env_manifest@, input.global_policy@),
        blocks.state_text(input.state@),
        blocks.plan_text(input.task),
        tool_policy_text(tools),
        input.memory_snapshot@,
    )
    &&& b.messages@ == blocks.conversation(input.state@)
    &&& opt_view(b.tools_json) == tools
}

/// Assembles prompts.
pub struct ContextAssembler;

impl ContextAssembler {
    /// The prompt of an iteration: the protocol, the surroundings, the state, the
    /// plan, the tools and the memory, in this order.
    pub fn assemble<P: PromptBlocks>(
        blocks: &P,
        input: &ContextBuildInput<'_>,
        schema: &OutputSchema,
        tools_json: Option<&str>,
    ) -> (r: ContextBundle)
        ensures
            assembled(r, *blocks, *input, schema.name@, schema.description@, opt_str_view(tools_json)),
    {
        let phase = input.state.semantic_phase();
        let mut prompt = ContextAssembler::protocol_block(input.state.role, phase, schema);
        prompt.append("\n\n");
        prompt.append(ContextAssembler::env_block(input).as_str());
        prompt.append("\n\n");
        prompt.append(blocks.state_block(input).as_str());
        prompt.append("\n\n");
        prompt.append(blocks.plan_block(input).as_str());
        prompt.append("\n\n");
        prompt.append(ContextAssembler::tool_policy_block(tools_json).as_str());
        prompt.append("\n\n");
        prompt.append("# Memory snapshot\n");
        prompt.append(input.memory_snapshot);
        ContextBundle {
            system_prompt: prompt,
            messages: blocks.conversation_messages(input),
            tools_json: match tools_json {
                Some(t) => Some(t.to_owned()),
                None => None,
            },
        }
    }

    fn protocol_block(role: AgentRole, phase: SemanticPhase, schema: &OutputSchema) -> (r: String)
        ensures
            r@ == protocol_text(role, phase, schema.name@, schema.description@),
    {
        let mut json_schema = String::new();
        assert(json_schema@ =~= Seq::<char>::empty());
        match schema_json_for_name(schema.name.as_str()) {
            Some(s) => {
                json_schema = "\njson_schema=".to_owned().concat(s);
            },
            None => {},
        }
        let mut r = "# Protocol\nrole=".to_owned();
        r.append(role.debug());
        r.append("\nphase=");
        r.append(phase.debug().as_str());
        r.append("\noutput_schema=");
        r.append(schema.name.as_str());
        r.append(": ");
        r.append(schema.description.as_str());
        r.append(json_schema.as_str());
        r.append("\nRespond with a single JSON object matching json_schema.");
        r
    }

    fn env_block(input: &ContextBuildInput<'_>) -> (r: String)
        ensures
            r@ == env_text(input.env_manifest@, input.global_policy@),
    {
        let mut r = "# ENV\n".to_owned();
        r.append(input.env_manifest);
        r.append("\n\n# Global policy\n");
        r.append(input.global_policy);
        r.append("\n\n# Negative capabilities\n");
        r.append(NEGATIVE_CAPABILITIES);
        r
    }

    fn tool_policy_block(tools_json: Option<&str>) -> (r: String)
        ensures
            r@ == tool_policy_text(opt_str_view(tools_json)),
    {
        match tools_json {
            Some(tools) => "# Visible tools\n".to_owned().concat(tools),
            None => "# Visible tools\n(none)".to_owned(),
        }
    }
}

/// The prompt that a controller asks for: its schema, its tools, and the role's sections.
pub fn build_context<S: AgentSpec, P: PromptBlocks>(spec: &S, blocks: &P, input: &ContextBuildInput<'_>) -> (r:
    ContextBundle)
    ensures
        assembled(
            r,
            *blocks,
            *input,
            spec.schema_in(input.state@).0,
            spec.schema_in(input.state@).1,
            spec.tools_in(input.state@),
        ),
{
    let schema = spec.expected_schema(input);
    let tools = spec.visible_tools(input);
    let tools_json = match &tools.tools_json {
        Some(t) => Some(t.as_str()),
        None => None,
    };
    ContextAssembler::assemble(blocks, input, &schema, tools_json)
}

/// The prompt of a phase holds its parts in order, each in full: what is expected of the
/// answer, the surroundings and their rules, the agent's state, its plan, its tools, and
/// what is remembered.
pub proof fn law_prompt_holds_its_parts_in_order(
    protocol: Seq<char>,
    env: Seq<char>,
    state: Seq<char>,
    plan: Seq<char>,
    tools: Seq<char>,
    memory: Seq<char>,
)
    ensures
        system_text(protocol, env, state, plan, tools, memory) == protocol + "\n\n"@ + env + "\n\n"@ + state + "\n\n"@
            + plan + "\n\n"@ + tools + "\n\n"@ + "# Memory snapshot\n"@ + memory,
        protocol.is_prefix_of(system_text(protocol, env, state, plan, tools, memory)),
        memory.is_suffix_of(system_text(protocol, env, state, plan, tools, memory)),
{
    let whole = system_text(protocol, env, state, plan, tools, memory);
    assert(whole.subrange(whole.len() - memory.len(), whole.len() as int) =~= memory);
    assert(whole.subrange(0, protocol.len() as int) =~= protocol);
}

/// What is expected of an answer names the role, the phase and the kind of answer, and
/// shows its shape where there is one.
pub proof fn law_protocol_says_what_is_expected(role: AgentRole, phase: SemanticPhase, name: Seq<char>, description: Seq<char>)
    ensures
        schema_json(name) is None ==> protocol_text(role, phase, name, description) == "# Protocol\nrole="@
            + role.name() + "\nphase="@ + phase.name() + "\noutput_schema="@ + name + ": "@ + description
            + "\nRespond with a single JSON object matching json_schema."@,
        schema_json(name) matches Some(shape) ==> protocol_text(role, phase, name, description)
            == "# Protocol\nrole="@ + role.name() + "\nphase="@ + phase.name() + "\noutput_schema="@ + name + ": "@
            + description + ("\njson_schema="@ + shape) + "\nRespond with a single JSON object matching json_schema."@,
{
    if schema_json(name) is None {
        let front = "# Protocol\nrole="@ + role.name() + "\nphase="@ + phase.name() + "\noutput_schema="@ + name
            + ": "@ + description;
        assert(front + Seq::<char>::empty() =~= front);
    }
}

/// The surroundings and the rules are shown as they are, with what an agent may not do;
/// the tools as they are, or that there are none.
pub proof fn law_surroundings_are_shown_as_they_are(env: Seq<char>, policy: Seq<char>, tools: Seq<char>)
    ensures
        env_text(env, policy) == "# ENV\n"@ + env + "\n\n# Global policy\n"@ + policy
            + "\n\n# Negative capabilities\n"@ + NEGATIVE_CAPABILITIES@,
        tool_policy_text(Some(tools)) == "# Visible tools\n"@ + tools,
        tool_policy_text(None) == "# Visible tools\n(none)"@,
{
}

/// A context shows the agent's own role and phase, what is expected of its answer, its
/// surroundings, its state and plan, its tools, and what it may remember; it comes with
/// the agent's conversation and its tools.
pub proof fn law_context_shows_its_agent<P: PromptBlocks>(
    b: ContextBundle,
    blocks: P,
    input: ContextBuildInput<'_>,
    name: Seq<char>,
    description: Seq<char>,
    tools: Option<Seq<char>>,
)
    requires
        assembled(b, blocks, input, name, description, tools),
    ensures
        b.system_prompt@ == protocol_text(input.state@.role, input.state@.role_state.phase(), name, description)
            + "\n\n"@ + env_text(input.env_manifest@, input.global_policy@) + "\n\n"@ + blocks.state_text(input.state@)
            + "\n\n"@ + blocks.plan_text(input.task) + "\n\n"@ + tool_policy_text(tools) + "\n\n"@
            + "# Memory snapshot\n"@ + input.memory_snapshot@,
        b.messages@ == blocks.conversation(input.state@),
        tools is None ==> b.tools_json is None,
        tools matches Some(t) ==> (b.tools_json matches Some(given) && given@ == t),
{
}

} // verus!
