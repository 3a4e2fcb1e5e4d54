//! The agent that talks to the user.
//!
//! It goes through stages: it takes the request in, verifies it, delegates the
//! work, watches the subagents and reports. The model moves it on by calling
//! control tools. The stage decides which tools may run; the model sees all of
//! them in every stage.

use std::collections::VecDeque;

use vstd::prelude::*;

use super::base_agent::{BaseAgent, BaseAgentBuildError, OutcomeV, RetryPolicy, TickOutcome};
use super::internal_tools::{ensure_valid_arguments_json, END_CONVERSATION, REQUEST_APPROVAL, SPAWN_SUBAGENT};
use crate::json::json_parse;
use crate::protocol::ids::AgentId;
use crate::text::{blank, clone_list, concat3, is_blank, views};
use crate::tools::{
    first_repeat, tool_names, tool_schemas, AllowedTools, ToolError, ToolOutput, ToolSet, ToolSetError, ToolSpec,
};

verus! {

pub const UNDERSTOOD: &'static str = "understood";

pub const BEGIN_EXECUTION: &'static str = "begin_execution";

pub const COMPILE_RESULTS: &'static str = "compile_results";

pub const CONVERSATION_PREAMBLE: &'static str =
    "You handle each user request in stages, and the tools available to you reflect your current stage. Intake: understand the request (ask clarifying questions if needed), then call understood. Verify: confirm what you will do and that it is feasible (if it is not, explain why), then call begin_execution. Delegate: break the work into subtasks and delegate each one with spawn_subagent. Watch: integrate the subagents' results as they arrive (spawn more if needed), then call compile_results. Report: write the final answer for the user. Use end_conversation only as a safety or ethics circuit-breaker, never for ordinary completion.";

/// What a control tool asks for.
#[derive(Clone, Copy, Debug, PartialEq, Eq, Structural)]
pub enum ConversationSignal {
    /// The request is understood.
    Understood,
    /// The request is confirmed; the work begins.
    BeginExecution,
    /// The results are in; the answer is written.
    CompileResults,
}

impl ConversationSignal {
    /// What the model is told.
    pub open spec fn ack_text(self) -> Seq<char> {
        match self {
            ConversationSignal::Understood => "Understanding confirmed; proceed to verify the request."@,
            ConversationSignal::BeginExecution => "Execution unlocked; delegate subtasks with spawn_subagent."@,
            ConversationSignal::CompileResults => "Synthesizing the final answer; spawning is now closed."@,
        }
    }

    pub fn ack(self) -> (r: &'static str)
        ensures
            r@ == self.ack_text(),
    {
        match self {
            ConversationSignal::Understood => "Understanding confirmed; proceed to verify the request.",
            ConversationSignal::BeginExecution => "Execution unlocked; delegate subtasks with spawn_subagent.",
            ConversationSignal::CompileResults => "Synthesizing the final answer; spawning is now closed.",
        }
    }
}

/// Runs a control tool: the signal is raised, unless the arguments cannot be read.
pub fn invoke_signal_tool(sink: &mut VecDeque<ConversationSignal>, signal: ConversationSignal, arguments_json: &str) -> (r:
    Result<ToolOutput, ToolError>)
    ensures
        if is_blank(arguments_json@) || json_parse(arguments_json@) is Ok {
            &&& r matches Ok(o) && o.ok && o.output@ == signal.ack_text()
            &&& final(sink)@ == old(sink)@.push(signal)
        } else {
            &&& r matches Err(ToolError::InvokeFailed(m)) && (json_parse(arguments_json@) matches Err(e) && m@
                == "invalid tool arguments JSON: "@ + e)
            &&& final(sink)@ == old(sink)@
        },
{
    match ensure_valid_arguments_json(arguments_json) {
        Ok(_) => {
            sink.push_back(signal);
            Ok(ToolOutput { output: signal.ack().to_owned(), ok: true })
        },
        Err(e) => Err(e),
    }
}

/// The stages of the agent.
#[derive(Clone, Copy, Debug, PartialEq, Eq, Structural)]
pub enum ConversationPhase {
    Intake,
    Verify,
    Delegate,
    Watch,
    Report,
}

impl ConversationPhase {
    /// The name of the stage.
    pub open spec fn name(self) -> Seq<char> {
        match self {
            ConversationPhase::Intake => "Intake"@,
            ConversationPhase::Verify => "Verify"@,
            ConversationPhase::Delegate => "Delegate"@,
            ConversationPhase::Watch => "Watch"@,
            ConversationPhase::Report => "Report"@,
        }
    }

    pub fn as_str(self) -> (r: &'static str)
        ensures
            r@ == self.name(),
    {
        match self {
            ConversationPhase::Intake => "Intake",
            ConversationPhase::Verify => "Verify",
            ConversationPhase::Delegate => "Delegate",
            ConversationPhase::Watch => "Watch",
            ConversationPhase::Report => "Report",
        }
    }

    /// The stage after a signal; one that does not belong to the stage does nothing.
    pub open spec fn after(self, signal: ConversationSignal) -> ConversationPhase {
        match (self, signal) {
            (ConversationPhase::Intake, ConversationSignal::Understood) => ConversationPhase::Verify,
            (ConversationPhase::Verify, ConversationSignal::BeginExecution) => ConversationPhase::Delegate,
            (ConversationPhase::Watch, ConversationSignal::CompileResults) => ConversationPhase::Report,
            _ => self,
        }
    }

    /// The stage after signals, in order.
    pub open spec fn after_all(self, signals: Seq<ConversationSignal>) -> ConversationPhase
        decreases signals.len(),
    {
        if signals.len() == 0 {
            self
        } else {
            self.after_all(signals.drop_last()).after(signals.last())
        }
    }

    /// The stage after a tick: the signals move it, a spawn moves from delegating
    /// to watching, and an answer or the end of the task closes it.
    pub open spec fn after_tick(self, signals: Seq<ConversationSignal>, spawned: bool, outcome: OutcomeV) -> ConversationPhase {
        let signalled = self.after_all(signals);
        let watched = if spawned && signalled == ConversationPhase::Delegate {
            ConversationPhase::Watch
        } else {
            signalled
        };
        if closes(watched, outcome) {
            ConversationPhase::Intake
        } else {
            watched
        }
    }

    /// The names of the control tools that may run in the stage.
    pub open spec fn control_tools(self, spawning: bool) -> Seq<Seq<char>> {
        let spawn = if spawning {
            seq!["spawn_subagent"@]
        } else {
            Seq::<Seq<char>>::empty()
        };
        match self {
            ConversationPhase::Intake => seq!["understood"@, "end_conversation"@, "request_approval"@],
            ConversationPhase::Verify => seq!["begin_execution"@, "end_conversation"@, "request_approval"@],
            ConversationPhase::Delegate => seq!["end_conversation"@, "request_approval"@] + spawn,
            ConversationPhase::Watch => seq!["compile_results"@, "end_conversation"@, "request_approval"@] + spawn,
            ConversationPhase::Report => seq!["end_conversation"@, "request_approval"@],
        }
    }
}

/// Whether an outcome in a stage closes what the stages are about.
pub open spec fn closes(phase: ConversationPhase, outcome: OutcomeV) -> bool {
    outcome.terminal() || (outcome is Yielded && phase != ConversationPhase::Delegate && phase
        != ConversationPhase::Watch)
}

/// The tools that may run in a stage: the caller's, and the control tools of the stage.
pub fn phase_allows(caller: &Vec<String>, spawning: bool, phase: ConversationPhase) -> (r: AllowedTools)
    ensures
        r@ == views(caller@) + phase.control_tools(spawning),
{
    let mut names = clone_list(caller);
    let ghost before = views(names@);
    match phase {
        ConversationPhase::Intake => {
            names.push(UNDERSTOOD.to_owned());
        },
        ConversationPhase::Verify => {
            names.push(BEGIN_EXECUTION.to_owned());
        },
        ConversationPhase::Watch => {
            names.push(COMPILE_RESULTS.to_owned());
        },
        _ => {},
    }
    names.push(END_CONVERSATION.to_owned());
    names.push(REQUEST_APPROVAL.to_owned());
    if spawning && (phase == ConversationPhase::Delegate || phase == ConversationPhase::Watch) {
        names.push(SPAWN_SUBAGENT.to_owned());
    }
    assert(views(names@) =~= before + phase.control_tools(spawning));
    AllowedTools::new(names)
}

/// The schema of the tool.
pub const UNDERSTOOD_SCHEMA: &'static str =
    "{\"type\":\"function\",\"function\":{\"name\":\"understood\",\"description\":\"The request is understood.\",\"parameters\":{\"type\":\"object\",\"properties\":{\"summary\":{\"type\":\"string\"}}}}}";

/// The schema of the tool.
pub const BEGIN_EXECUTION_SCHEMA: &'static str =
    "{\"type\":\"function\",\"function\":{\"name\":\"begin_execution\",\"description\":\"The request is confirmed and feasible; begin.\",\"parameters\":{\"type\":\"object\",\"properties\":{\"plan\":{\"type\":\"string\"}}}}}";

/// The schema of the tool.
pub const COMPILE_RESULTS_SCHEMA: &'static str =
    "{\"type\":\"function\",\"function\":{\"name\":\"compile_results\",\"description\":\"The results are in; write the answer.\",\"parameters\":{\"type\":\"object\",\"properties\":{}}}}";

/// The control tools of the agent.
pub fn conversation_tool_group() -> (r: Vec<ToolSpec>)
    ensures
        tool_names(r@) == seq!["understood"@, "begin_execution"@, "compile_results"@],
        tool_schemas(r@) == seq![UNDERSTOOD_SCHEMA@, BEGIN_EXECUTION_SCHEMA@, COMPILE_RESULTS_SCHEMA@],
{
    let mut tools: Vec<ToolSpec> = Vec::new();
    tools.push(
        ToolSpec {
            name: UNDERSTOOD.to_owned(),
            schema: UNDERSTOOD_SCHEMA.to_owned(),
        },
    );
    tools.push(
        ToolSpec {
            name: BEGIN_EXECUTION.to_owned(),
            schema: BEGIN_EXECUTION_SCHEMA.to_owned(),
        },
    );
    tools.push(
        ToolSpec {
            name: COMPILE_RESULTS.to_owned(),
            schema: COMPILE_RESULTS_SCHEMA.to_owned(),
        },
    );
    assert(tool_names(tools@) =~= seq!["understood"@, "begin_execution"@, "compile_results"@]);
    assert(tool_schemas(tools@) =~= seq![UNDERSTOOD_SCHEMA@, BEGIN_EXECUTION_SCHEMA@, COMPILE_RESULTS_SCHEMA@]);
    tools
}

/// The schema of the tool.
pub const SPAWN_SUBAGENT_SCHEMA: &'static str =
    "{\"type\":\"function\",\"function\":{\"name\":\"spawn_subagent\",\"description\":\"Delegate a goal to a subagent.\",\"parameters\":{\"type\":\"object\",\"properties\":{\"kind\":{\"type\":\"string\"},\"goal\":{\"type\":\"string\"}},\"required\":[\"kind\",\"goal\"]}}}";

/// The tool that asks for subagents.
pub fn spawn_tool_group() -> (r: Vec<ToolSpec>)
    ensures
        tool_names(r@) == seq!["spawn_subagent"@],
        tool_schemas(r@) == seq![SPAWN_SUBAGENT_SCHEMA@],
{
    let mut tools: Vec<ToolSpec> = Vec::new();
    tools.push(
        ToolSpec {
            name: SPAWN_SUBAGENT.to_owned(),
            schema: SPAWN_SUBAGENT_SCHEMA.to_owned(),
        },
    );
    assert(tool_names(tools@) =~= seq!["spawn_subagent"@]);
    assert(tool_schemas(tools@) =~= seq![SPAWN_SUBAGENT_SCHEMA@]);
    tools
}

/// A prompt behind a preamble.
pub open spec fn composed(preamble: Seq<char>, caller: Seq<char>) -> Seq<char> {
    if is_blank(caller) {
        preamble
    } else {
        preamble + "\n\n"@ + caller
    }
}

/// Puts the preamble before the caller's prompt.
pub fn compose_prompt(preamble: &str, caller: &str) -> (r: String)
    ensures
        r@ == composed(preamble@, caller@),
{
    if blank(caller) {
        preamble.to_owned()
    } else {
        concat3(preamble, "\n\n", caller)
    }
}

/// An agent that goes through the stages.
pub struct ConversationAgent {
    pub id: AgentId,
    pub base: BaseAgent,
    pub phase: ConversationPhase,
    pub spawning: bool,
    /// The names of the caller's tools, which may run in every stage.
    pub caller_tools: Vec<String>,
}

impl ConversationAgent {
    /// The tools that may run are those of the stage.
    pub open spec fn gated(self) -> bool {
        self.base.allowed_tools matches Some(a) && a@ == views(self.caller_tools@) + self.phase.control_tools(
            self.spawning,
        )
    }

    pub fn builder(id: AgentId, supports_tools: bool) -> (r: ConversationAgentBuilder)
        ensures
            r.id == id,
            r.supports_tools == supports_tools,
            r.system_prompt@.len() == 0,
            r.tools@.len() == 0,
            !r.has_skills,
            r.retry_policy.retries == 2,
            r.tool_block_retries is None,
            !r.spawning,
    {
        ConversationAgentBuilder {
            id,
            supports_tools,
            system_prompt: String::new(),
            tools: Vec::new(),
            has_skills: false,
            retry_policy: RetryPolicy::default(),
            tool_block_retries: None,
            spawning: false,
        }
    }

    pub fn phase(&self) -> (r: ConversationPhase)
        ensures
            r == self.phase,
    {
        self.phase
    }

    /// Whether only the stage and the tools that may run can differ.
    pub open spec fn same_agent(self, other: ConversationAgent) -> bool {
        &&& self.id == other.id
        &&& self.spawning == other.spawning
        &&& self.caller_tools == other.caller_tools
        &&& self.base.same_work(other.base)
        &&& self.base.tail_note == other.base.tail_note
    }

    /// Moves to a stage.
    fn set_phase(&mut self, phase: ConversationPhase)
        ensures
            final(self).phase == phase,
            final(self).gated(),
            final(self).same_agent(*old(self)),
    {
        self.phase = phase;
        let allowed = phase_allows(&self.caller_tools, self.spawning, phase);
        self.base.gate_tools(allowed);
    }

    /// Applies a signal.
    fn apply_signal(&mut self, signal: ConversationSignal)
        requires
            old(self).gated(),
        ensures
            final(self).phase == old(self).phase.after(signal),
            final(self).gated(),
            final(self).same_agent(*old(self)),
    {
        match (self.phase, signal) {
            (ConversationPhase::Intake, ConversationSignal::Understood) => {
                self.set_phase(ConversationPhase::Verify);
            },
            (ConversationPhase::Verify, ConversationSignal::BeginExecution) => {
                self.set_phase(ConversationPhase::Delegate);
            },
            (ConversationPhase::Watch, ConversationSignal::CompileResults) => {
                self.set_phase(ConversationPhase::Report);
            },
            _ => {},
        }
    }

    /// Moves through the stages after a tick of the base agent. `signals` are those
    /// that the control tools raised within the tick, and `spawned` tells whether a
    /// subagent was asked for.
    pub fn settle(&mut self, outcome: &TickOutcome, signals: &Vec<ConversationSignal>, spawned: bool)
        requires
            old(self).gated(),
        ensures
            final(self).phase == old(self).phase.after_tick(signals@, spawned, outcome@),
            final(self).gated(),
            final(self).same_agent(*old(self)),
    {
        let mut i: usize = 0;
        assert(signals@.take(0) =~= Seq::<ConversationSignal>::empty());
        while i < signals.len()
            invariant
                i <= signals@.len(),
                self.phase == old(self).phase.after_all(signals@.take(i as int)),
                self.gated(),
                self.same_agent(*old(self)),
            decreases signals@.len() - i,
        {
            self.apply_signal(signals[i]);
            proof {
                assert(signals@.take(i + 1).drop_last() =~= signals@.take(i as int));
                assert(signals@.take(i + 1).last() == signals@[i as int]);
            }
            i = i + 1;
        }
        assert(signals@.take(signals@.len() as int) =~= signals@);
        if spawned && self.phase == ConversationPhase::Delegate {
            self.set_phase(ConversationPhase::Watch);
        }
        let reset = match outcome {
            TickOutcome::Ended { .. } | TickOutcome::Cancelled { .. } | TickOutcome::Failed(_) => true,
            TickOutcome::Yielded { .. } => match self.phase {
                ConversationPhase::Intake | ConversationPhase::Verify | ConversationPhase::Report => true,
                _ => false,
            },
            _ => false,
        };
        if reset && self.phase != ConversationPhase::Intake {
            self.set_phase(ConversationPhase::Intake);
        }
    }
}

/// Subagents can be asked for only while the work is delegated or watched.
pub proof fn law_spawning_is_gated(caller: Seq<Seq<char>>, phase: ConversationPhase, spawning: bool)
    requires
        !caller.contains("spawn_subagent"@),
    ensures
        (caller + phase.control_tools(spawning)).contains("spawn_subagent"@) == (spawning && (phase
            == ConversationPhase::Delegate || phase == ConversationPhase::Watch)),
{
    reveal_strlit("spawn_subagent");
    reveal_strlit("understood");
    reveal_strlit("begin_execution");
    reveal_strlit("compile_results");
    reveal_strlit("end_conversation");
    reveal_strlit("request_approval");
    let name = "spawn_subagent"@;
    let all = caller + phase.control_tools(spawning);
    assert(name.len() == 14);
    assert("understood"@.len() == 10);
    assert("begin_execution"@.len() == 15);
    assert("compile_results"@.len() == 15);
    assert("end_conversation"@.len() == 16);
    assert("request_approval"@.len() == 16);
    if spawning && (phase == ConversationPhase::Delegate || phase == ConversationPhase::Watch) {
        assert(all[all.len() - 1] == name);
    } else {
        assert forall|i: int| 0 <= i < all.len() implies all[i] != name by {
            if i < caller.len() {
                assert(all[i] == caller[i]);
                assert(caller.contains(caller[i]));
            } else {
                assert(all[i] == phase.control_tools(spawning)[i - caller.len()]);
            }
        }
    }
}

/// Whatever happens within a tick, the end of the task brings the agent back to
/// taking requests in.
pub proof fn law_ended_task_returns_to_intake(
    phase: ConversationPhase,
    signals: Seq<ConversationSignal>,
    spawned: bool,
    outcome: OutcomeV,
)
    requires
        outcome.terminal(),
    ensures
        phase.after_tick(signals, spawned, outcome) == ConversationPhase::Intake,
{
}

/// A progress note while the work is delegated or watched keeps the stage.
pub proof fn law_progress_note_keeps_the_stage(phase: ConversationPhase, outcome: OutcomeV)
    requires
        outcome is Yielded,
        phase == ConversationPhase::Delegate || phase == ConversationPhase::Watch,
    ensures
        phase.after_tick(Seq::empty(), false, outcome) == phase,
{
}

/// Why an agent could not be built.
#[derive(Clone, Debug, PartialEq, Eq)]
pub enum ConversationAgentBuildError {
    Tools(ToolSetError),
    Base(BaseAgentBuildError),
}

/// Collects the settings of an agent.
#[must_use]
pub struct ConversationAgentBuilder {
    pub id: AgentId,
    pub supports_tools: bool,
    pub system_prompt: String,
    pub tools: Vec<ToolSpec>,
    pub has_skills: bool,
    pub retry_policy: RetryPolicy,
    pub tool_block_retries: Option<u32>,
    pub spawning: bool,
}

/// The names of the tools that an agent adds to the caller's.
pub open spec fn added_names(control: Seq<Seq<char>>, spawning: bool) -> Seq<Seq<char>> {
    if spawning {
        control + seq!["spawn_subagent"@]
    } else {
        control
    }
}

/// The schemas of the tools that an agent adds to the caller's.
pub open spec fn added_schemas(control: Seq<Seq<char>>, spawning: bool) -> Seq<Seq<char>> {
    if spawning {
        control + seq![SPAWN_SUBAGENT_SCHEMA@]
    } else {
        control
    }
}

impl ConversationAgentBuilder {
    pub fn with_system_prompt(self, system_prompt: String) -> (r: ConversationAgentBuilder)
        ensures
            r == (ConversationAgentBuilder { system_prompt, ..self }),
    {
        ConversationAgentBuilder { system_prompt, ..self }
    }

    pub fn with_tools(self, tools: Vec<ToolSpec>) -> (r: ConversationAgentBuilder)
        ensures
            r == (ConversationAgentBuilder { tools, ..self }),
    {
        ConversationAgentBuilder { tools, ..self }
    }

    pub fn with_skills(self) -> (r: ConversationAgentBuilder)
        ensures
            r == (ConversationAgentBuilder { has_skills: true, ..self }),
    {
        ConversationAgentBuilder { has_skills: true, ..self }
    }

    pub fn with_retry_policy(self, retry_policy: RetryPolicy) -> (r: ConversationAgentBuilder)
        ensures
            r == (ConversationAgentBuilder { retry_policy, ..self }),
    {
        ConversationAgentBuilder { retry_policy, ..self }
    }

    pub fn with_tool_block_retries(self, retries: u32) -> (r: ConversationAgentBuilder)
        ensures
            r == (ConversationAgentBuilder { tool_block_retries: Some(retries), ..self }),
    {
        ConversationAgentBuilder { tool_block_retries: Some(retries), ..self }
    }

    /// Lets the agent ask for subagents.
    pub fn with_spawning(self) -> (r: ConversationAgentBuilder)
        ensures
            r == (ConversationAgentBuilder { spawning: true, ..self }),
    {
        ConversationAgentBuilder { spawning: true, ..self }
    }

    /// All tool names of the agent but the built-in ones.
    pub open spec fn all_names(self) -> Seq<Seq<char>> {
        tool_names(self.tools@) + added_names(
            seq!["understood"@, "begin_execution"@, "compile_results"@],
            self.spawning,
        )
    }

    /// All tool schemas of the agent but the built-in ones.
    pub open spec fn all_schemas(self) -> Seq<Seq<char>> {
        tool_schemas(self.tools@) + added_schemas(
            seq![UNDERSTOOD_SCHEMA@, BEGIN_EXECUTION_SCHEMA@, COMPILE_RESULTS_SCHEMA@],
            self.spawning,
        )
    }

    /// Builds the agent, in its first stage.
    pub fn build(self) -> (r: Result<ConversationAgent, ConversationAgentBuildError>)
        ensures
            match r {
                Ok(agent) => {
                    &&& agent.base.valid()
                    &&& agent.gated()
                    &&& agent.phase == ConversationPhase::Intake
                    &&& agent.id == self.id
                    &&& agent.spawning == self.spawning
                    &&& views(agent.caller_tools@) == tool_names(self.tools@)
                    &&& agent.base.system_prompt@ == composed(CONVERSATION_PREAMBLE@, self.system_prompt@)
                    &&& agent.base.retry_policy == self.retry_policy
                    &&& agent.base.has_skills == self.has_skills
                    &&& agent.base.tool_block_retries == (match self.tool_block_retries {
                        Some(n) => n,
                        None => super::base_agent::DEFAULT_TOOL_BLOCK_RETRIES,
                    })
                    &&& agent.base.inbox@.len() == 0
                    &&& agent.base.fresh()
                    &&& self.supports_tools
                    &&& agent.base.tools matches Some(t)
                    &&& t.distinct()
                    &&& tool_names(t@) == self.all_names() + super::base_agent::internal_names()
                    &&& tool_schemas(t@) == self.all_schemas() + super::base_agent::internal_schemas()
                    &&& t@.take(self.tools@.len() as int) == self.tools@
                },
                Err(ConversationAgentBuildError::Tools(ToolSetError::DuplicateName(n))) => first_repeat(
                    self.all_names(),
                ) == Some(n@),
                Err(ConversationAgentBuildError::Base(BaseAgentBuildError::ToolsUnsupported)) => !self.supports_tools
                    && first_repeat(self.all_names()) is None,
                Err(ConversationAgentBuildError::Base(BaseAgentBuildError::Tools(ToolSetError::DuplicateName(n)))) =>
                    self.supports_tools && first_repeat(self.all_names()) is None && first_repeat(
                    self.all_names() + super::base_agent::internal_names(),
                ) == Some(n@),
            },
    {
        let ghost given = self.tools@;
        let caller_tools = names_of(&self.tools);
        let group = conversation_tool_group();
        let (tool_set, spawning) = match assemble_tools(self.tools, group, self.spawning) {
            Ok(set) => (set, self.spawning),
            Err(e) => {
                return Err(ConversationAgentBuildError::Tools(e));
            },
        };
        let prompt = compose_prompt(CONVERSATION_PREAMBLE, self.system_prompt.as_str());
        let mut builder = BaseAgent::builder(self.supports_tools).with_system_prompt(prompt).with_tools(
            tool_set,
        ).with_retry_policy(self.retry_policy);
        if let Some(retries) = self.tool_block_retries {
            builder = builder.with_tool_block_retries(retries);
        }
        if self.has_skills {
            builder = builder.with_skills();
        }
        let ghost all = tool_set@;
        let base = match builder.build() {
            Ok(base) => base,
            Err(e) => {
                return Err(ConversationAgentBuildError::Base(e));
            },
        };
        let mut agent = ConversationAgent {
            id: self.id,
            base,
            phase: ConversationPhase::Intake,
            spawning,
            caller_tools,
        };
        agent.set_phase(ConversationPhase::Intake);
        assert(agent.base.tools.unwrap()@.take(given.len() as int) =~= all.take(given.len() as int));
        Ok(agent)
    }
}

/// The names of tools.
pub fn names_of(tools: &Vec<ToolSpec>) -> (r: Vec<String>)
    ensures
        views(r@) == tool_names(tools@),
{
    let mut names: Vec<String> = Vec::new();
    let mut i: usize = 0;
    while i < tools.len()
        invariant
            i <= tools@.len(),
            names@.len() == i,
            forall|k: int| 0 <= k < i ==> (#[trigger] names@[k])@ == tools@[k].name@,
        decreases tools@.len() - i,
    {
        names.push(tools[i].name.clone());
        i = i + 1;
    }
    assert(views(names@) =~= tool_names(tools@));
    names
}

/// The caller's tools with the control tools of an agent, and with the one that
/// asks for subagents where it may.
pub fn assemble_tools(tools: Vec<ToolSpec>, group: Vec<ToolSpec>, spawning: bool) -> (r: Result<ToolSet, ToolSetError>)
    ensures
        ({
            let all = tool_names(tools@) + added_names(tool_names(group@), spawning);
            match r {
                Ok(set) => {
                    &&& set.distinct()
                    &&& tool_names(set@) == all
                    &&& tool_schemas(set@) == tool_schemas(tools@) + added_schemas(tool_schemas(group@), spawning)
                    &&& set@.take(tools@.len() as int) == tools@
                },
                Err(ToolSetError::DuplicateName(n)) => first_repeat(all) == Some(n@),
            }
        }),
{
    let ghost given = tools@;
    let ghost control = group@;
    let ghost all = tool_names(given) + added_names(tool_names(control), spawning);
    let mut set = match ToolSet::new(tools) {
        Ok(set) => set,
        Err(e) => {
            proof {
                assert(all.take(given.len() as int) =~= tool_names(given));
                crate::tools::lemma_repeat_stays(all, given.len() as int);
            }
            return Err(e);
        },
    };
    proof {
        assert(tool_names(given + control) =~= tool_names(given) + tool_names(control));
        assert(all.take((given.len() + control.len()) as int) =~= tool_names(given + control));
    }
    match set.extend_with_group(group) {
        Ok(_) => {},
        Err(e) => {
            proof {
                crate::tools::lemma_repeat_stays(all, (given.len() + control.len()) as int);
            }
            return Err(e);
        },
    }
    if spawning {
        let more = spawn_tool_group();
        proof {
            assert(tool_names(given + control + more@) =~= all);
        }
        match set.extend_with_group(more) {
            Ok(_) => {},
            Err(e) => {
                return Err(e);
            },
        }
    }
    assert(set@.take(given.len() as int) =~= given);
    assert(tool_schemas(set@) =~= tool_schemas(given) + added_schemas(tool_schemas(control), spawning));
    Ok(set)
}

/// A conversation goes on from stage to stage as the model says, and only so: from taking
/// a request in to verifying it once it is understood, from there to delegating once it
/// is begun, and from watching to reporting once results are compiled.
pub proof fn law_stages_follow_the_signals(phase: ConversationPhase, signal: ConversationSignal)
    ensures
        phase is Intake && signal is Understood ==> phase.after(signal) is Verify,
        phase is Verify && signal is BeginExecution ==> phase.after(signal) is Delegate,
        phase is Watch && signal is CompileResults ==> phase.after(signal) is Report,
        phase.after(signal) != phase ==> {
            ||| phase is Intake && signal is Understood
            ||| phase is Verify && signal is BeginExecution
            ||| phase is Watch && signal is CompileResults
        },
{
}

/// Signals count in the order in which they came.
pub proof fn law_signals_count_in_order(phase: ConversationPhase, signals: Seq<ConversationSignal>, last: ConversationSignal)
    ensures
        phase.after_all(signals.push(last)) == phase.after_all(signals).after(last),
        phase.after_all(Seq::empty()) == phase,
{
    assert(signals.push(last).drop_last() =~= signals);
}

/// Work that was delegated is watched. A reply outside delegation and watching closes the
/// request, and so does every end of the task; work that goes on keeps the stage.
pub proof fn law_tick_leads_to_the_stage(phase: ConversationPhase, spawned: bool, outcome: OutcomeV)
    ensures
        ({
            let after = phase.after_tick(Seq::empty(), spawned, outcome);
            let goes_on = outcome is Working || outcome is Idle || outcome is AwaitingApproval;
            &&& goes_on && spawned && phase is Delegate ==> after is Watch
            &&& goes_on && !spawned ==> after == phase
            &&& goes_on && !(phase is Delegate) ==> after == phase
            &&& outcome is Yielded && (phase is Intake || phase is Verify || phase is Report) ==> after is Intake
            &&& outcome is Yielded && phase is Watch ==> after is Watch
            &&& outcome is Yielded && phase is Delegate ==> (after is Watch <==> spawned) && (after is Delegate
                <==> !spawned)
            &&& outcome is Ended || outcome is Cancelled || outcome is Failed ==> after is Intake
        }),
{
}

/// Each stage has the tool that leads on from it and no other stage has it; ending the
/// conversation and asking for consent are possible in every stage.
pub proof fn law_stage_has_its_own_tool(phase: ConversationPhase, spawning: bool)
    ensures
        phase.control_tools(spawning).contains("understood"@) <==> phase is Intake,
        phase.control_tools(spawning).contains("begin_execution"@) <==> phase is Verify,
        phase.control_tools(spawning).contains("compile_results"@) <==> phase is Watch,
        phase.control_tools(spawning).contains("end_conversation"@),
        phase.control_tools(spawning).contains("request_approval"@),
{
    reveal_strlit("spawn_subagent");
    reveal_strlit("understood");
    reveal_strlit("begin_execution");
    reveal_strlit("compile_results");
    reveal_strlit("end_conversation");
    reveal_strlit("request_approval");
    let tools = phase.control_tools(spawning);
    assert("spawn_subagent"@.len() == 14 && "understood"@.len() == 10);
    assert("begin_execution"@[0] == 'b' && "compile_results"@[0] == 'c' && "end_conversation"@[0] == 'e'
        && "request_approval"@[0] == 'r');
    assert("begin_execution"@.len() == 15 && "compile_results"@.len() == 15 && "end_conversation"@.len() == 16
        && "request_approval"@.len() == 16);
    match phase {
        ConversationPhase::Intake => {
            assert(tools[0] == "understood"@ && tools[1] == "end_conversation"@ && tools[2] == "request_approval"@);
        },
        ConversationPhase::Verify => {
            assert(tools[0] == "begin_execution"@ && tools[1] == "end_conversation"@ && tools[2]
                == "request_approval"@);
        },
        ConversationPhase::Watch => {
            assert(tools[0] == "compile_results"@ && tools[1] == "end_conversation"@ && tools[2]
                == "request_approval"@);
        },
        _ => {
            assert(tools[0] == "end_conversation"@ && tools[1] == "request_approval"@);
        },
    }
}

/// A caller's prompt stands behind the preamble, and one without words adds nothing.
pub proof fn law_callers_prompt_stands_behind(preamble: Seq<char>, caller: Seq<char>)
    ensures
        is_blank(caller) ==> composed(preamble, caller) == preamble,
        !is_blank(caller) ==> composed(preamble, caller) == preamble + "\n\n"@ + caller,
        preamble.is_prefix_of(composed(preamble, caller)),
{
}

/// What the model hears on a signal says what follows from it.
pub proof fn law_signal_is_acknowledged(signal: ConversationSignal)
    ensures
        signal is Understood ==> signal.ack_text() == "Understanding confirmed; proceed to verify the request."@,
        signal is BeginExecution ==> signal.ack_text()
            == "Execution unlocked; delegate subtasks with spawn_subagent."@,
        signal is CompileResults ==> signal.ack_text() == "Synthesizing the final answer; spawning is now closed."@,
{
}

/// What an agent may run in a stage are its caller's tools and those of the stage, and
/// nothing else.
pub proof fn law_only_the_stages_tools_run(agent: ConversationAgent, name: Seq<char>)
    requires
        agent.gated(),
    ensures
        agent.base.allowed_tools matches Some(allowed) && (allowed@.contains(name) <==> views(
            agent.caller_tools@,
        ).contains(name) || agent.phase.control_tools(agent.spawning).contains(name)),
{
    let mine = views(agent.caller_tools@);
    let stage = agent.phase.control_tools(agent.spawning);
    let allowed = agent.base.allowed_tools->Some_0;
    if mine.contains(name) {
        let i = choose|i: int| 0 <= i < mine.len() && mine[i] == name;
        assert(allowed@[i] == name);
    }
    if stage.contains(name) {
        let i = choose|i: int| 0 <= i < stage.len() && stage[i] == name;
        assert(allowed@[mine.len() + i] == name);
    }
}

/// An agent has the tools that it was given, in order, then those of its stages, and last
/// the one for subagents where it may have them.
pub proof fn law_conversation_has_its_own_tools_first(b: ConversationAgentBuilder)
    ensures
        ({
            let n = b.tools@.len() as int;
            let names = b.all_names();
            let schemas = b.all_schemas();
            &&& tool_names(b.tools@).is_prefix_of(names)
            &&& names.len() == n + (if b.spawning {
                4int
            } else {
                3int
            })
            &&& names[n] == "understood"@ && names[n + 1] == "begin_execution"@ && names[n + 2] == "compile_results"@
            &&& b.spawning ==> names[n + 3] == "spawn_subagent"@
            &&& schemas.len() == names.len()
            &&& schemas[n] == UNDERSTOOD_SCHEMA@ && schemas[n + 1] == BEGIN_EXECUTION_SCHEMA@ && schemas[n + 2]
                == COMPILE_RESULTS_SCHEMA@
            &&& b.spawning ==> schemas[n + 3] == SPAWN_SUBAGENT_SCHEMA@
        }),
{
}

} // verus!
