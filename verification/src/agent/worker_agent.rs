//! The agent that does a task.
//!
//! It plans, acts and verifies. Its tools are the same in every stage, so the
//! stage is told in the conversation. The model moves it on by calling a tool.

use vstd::prelude::*;

use super::base_agent::{
    AgentCommand, BaseAgent, BaseAgentBuildError, Inbound, OutcomeV, RetryPolicy, TickOutcome,
};
use super::conversation_agent::{added_names, added_schemas, assemble_tools, compose_prompt, composed};
use crate::protocol::ids::AgentId;
use crate::text::has_prefix;
use crate::tools::{first_repeat, tool_names, tool_schemas, ToolOutput, ToolSetError, ToolSpec};

verus! {

pub const ADVANCE_STAGE: &'static str = "advance_stage";

pub const WORKER_PREAMBLE: &'static str =
    "You complete your assigned goal in three stages. Plan: analyze the goal and outline your approach. Act: carry out the plan using your tools. Verify: check your work against the goal and fix any issues. Call advance_stage when the current stage is complete; a system note states the current stage before each step. When the goal is done, reply with your result. Use end_conversation only as a safety or ethics circuit-breaker, never for ordinary completion.";

/// Runs the tool that moves on: one more stage is asked for.
pub fn invoke_advance_stage(advances: &mut u32) -> (r: ToolOutput)
    ensures
        *final(advances) == (if *old(advances) < u32::MAX {
            (*old(advances) + 1) as u32
        } else {
            u32::MAX
        }),
        r.ok,
        r.output@ == "Advanced to the next stage."@,
{
    *advances = (*advances).saturating_add(1);
    ToolOutput { output: "Advanced to the next stage.".to_owned(), ok: true }
}

/// The schema of the tool.
pub const ADVANCE_STAGE_SCHEMA: &'static str =
    "{\"type\":\"function\",\"function\":{\"name\":\"advance_stage\",\"description\":\"Advance to the next stage of your work (Plan -> Act -> Verify). Call it when the current stage is complete.\",\"parameters\":{\"type\":\"object\",\"properties\":{},\"required\":[]}}}";

/// The control tool of the agent.
pub fn worker_tool_group() -> (r: Vec<ToolSpec>)
    ensures
        tool_names(r@) == seq!["advance_stage"@],
        tool_schemas(r@) == seq![ADVANCE_STAGE_SCHEMA@],
{
    let mut tools: Vec<ToolSpec> = Vec::new();
    tools.push(
        ToolSpec {
            name: ADVANCE_STAGE.to_owned(),
            schema: ADVANCE_STAGE_SCHEMA.to_owned(),
        },
    );
    assert(tool_names(tools@) =~= seq!["advance_stage"@]);
    assert(tool_schemas(tools@) =~= seq![ADVANCE_STAGE_SCHEMA@]);
    tools
}

/// The stages of the agent.
#[derive(Clone, Copy, Debug, PartialEq, Eq, Structural)]
pub enum WorkerPhase {
    Plan,
    Act,
    Verify,
}

impl WorkerPhase {
    /// The stage that follows; the last one stays.
    pub open spec fn following(self) -> WorkerPhase {
        match self {
            WorkerPhase::Plan => WorkerPhase::Act,
            WorkerPhase::Act => WorkerPhase::Verify,
            WorkerPhase::Verify => WorkerPhase::Verify,
        }
    }

    /// The stage after some steps.
    pub open spec fn advanced(self, steps: nat) -> WorkerPhase
        decreases steps,
    {
        if steps == 0 {
            self
        } else {
            self.advanced((steps - 1) as nat).following()
        }
    }

    /// What the model is told of the stage.
    pub open spec fn note(self) -> Seq<char> {
        match self {
            WorkerPhase::Plan =>
                "[system] Stage 1/3 — Plan: analyze the goal and outline your approach, then call advance_stage."@,
            WorkerPhase::Act =>
                "[system] Stage 2/3 — Act: carry out your plan using your tools, then call advance_stage to verify."@,
            WorkerPhase::Verify =>
                "[system] Stage 3/3 — Verify: check your work against the goal and fix any issues, then reply with your result."@,
        }
    }

    pub fn next(self) -> (r: WorkerPhase)
        ensures
            r == self.following(),
    {
        match self {
            WorkerPhase::Plan => WorkerPhase::Act,
            WorkerPhase::Act => WorkerPhase::Verify,
            WorkerPhase::Verify => WorkerPhase::Verify,
        }
    }

    pub fn guidance(self) -> (r: &'static str)
        ensures
            r@ == self.note(),
    {
        match self {
            WorkerPhase::Plan =>
                "[system] Stage 1/3 — Plan: analyze the goal and outline your approach, then call advance_stage.",
            WorkerPhase::Act =>
                "[system] Stage 2/3 — Act: carry out your plan using your tools, then call advance_stage to verify.",
            WorkerPhase::Verify =>
                "[system] Stage 3/3 — Verify: check your work against the goal and fix any issues, then reply with your result.",
        }
    }
}

/// Two steps bring a plan to its verification, and no step leads beyond it.
pub proof fn law_stages_end_in_verify(phase: WorkerPhase, steps: nat)
    requires
        steps >= 2,
    ensures
        phase.advanced(steps) == WorkerPhase::Verify,
    decreases steps,
{
    reveal_with_fuel(WorkerPhase::advanced, 3);
    if steps > 2 {
        law_stages_end_in_verify(phase, (steps - 1) as nat);
    }
}

/// Whether an outcome closes the task.
pub open spec fn closes_task(outcome: OutcomeV) -> bool {
    outcome is Yielded || outcome.terminal()
}

/// The text of a waiting message.
pub open spec fn message_text(x: Inbound) -> Option<Seq<char>> {
    match x {
        Inbound::Command(AgentCommand::AppendMessage(t)) => Some(t@),
        _ => None,
    }
}

/// The texts of waiting messages.
pub open spec fn message_texts(inbox: Seq<Inbound>) -> Seq<Option<Seq<char>>> {
    inbox.map_values(|x: Inbound| message_text(x))
}

/// The notes of the stages that some steps lead through.
pub open spec fn stage_notes(phase: WorkerPhase, steps: nat) -> Seq<Option<Seq<char>>>
    decreases steps,
{
    if steps == 0 {
        Seq::empty()
    } else {
        stage_notes(phase, (steps - 1) as nat).push(Some(phase.advanced(steps).note()))
    }
}

/// An agent that goes through the stages.
pub struct WorkerAgent {
    pub id: AgentId,
    pub base: BaseAgent,
    pub phase: WorkerPhase,
    pub spawning: bool,
}

impl WorkerAgent {
    pub fn builder(id: AgentId, supports_tools: bool) -> (r: WorkerAgentBuilder)
        ensures
            r.id == id,
            r.supports_tools == supports_tools,
            r.system_prompt@.len() == 0,
            r.tools@.len() == 0,
            !r.has_skills,
            r.retry_policy.retries == 2,
            r.tool_block_retries is None,
            !r.spawning,
    {
        WorkerAgentBuilder {
            id,
            supports_tools,
            system_prompt: String::new(),
            tools: Vec::new(),
            has_skills: false,
            retry_policy: RetryPolicy::default(),
            tool_block_retries: None,
            spawning: false,
        }
    }

    /// Moves to a stage and tells so in the conversation.
    fn set_phase(&mut self, phase: WorkerPhase)
        requires
            old(self).base.valid(),
        ensures
            final(self).base.valid(),
            final(self).id == old(self).id,
            final(self).spawning == old(self).spawning,
            final(self).phase == phase,
            old(self).base.only_told(final(self).base),
            final(self).base.inbox@.len() == old(self).base.inbox@.len() + 1,
            message_texts(final(self).base.inbox@) == message_texts(old(self).base.inbox@).push(Some(phase.note())),
    {
        let ghost before = self.base.inbox@;
        self.phase = phase;
        let note = phase.guidance().to_owned();
        let ghost told = note;
        self.base.append_message(note);
        proof {
            assert(self.base.inbox@ =~= before.push(Inbound::Command(AgentCommand::AppendMessage(told))));
            assert(message_texts(self.base.inbox@) =~= message_texts(before).push(Some(phase.note())));
        }
    }

    /// Moves through the stages after a tick of the base agent: one stage for each
    /// step that was asked for, and back to the first where the task is closed.
    pub fn settle(&mut self, outcome: &TickOutcome, advances: u32)
        requires
            old(self).base.valid(),
        ensures
            final(self).base.valid(),
            final(self).id == old(self).id,
            final(self).spawning == old(self).spawning,
            old(self).base.only_told(final(self).base),
            ({
                let moved = old(self).phase.advanced(advances as nat);
                let told = message_texts(old(self).base.inbox@) + stage_notes(old(self).phase, advances as nat);
                if closes_task(outcome@) && moved != WorkerPhase::Plan {
                    &&& final(self).phase == WorkerPhase::Plan
                    &&& message_texts(final(self).base.inbox@) == told.push(Some(WorkerPhase::Plan.note()))
                } else {
                    &&& final(self).phase == moved
                    &&& message_texts(final(self).base.inbox@) == told
                }
            }),
    {
        let ghost start = message_texts(self.base.inbox@);
        let mut i: u32 = 0;
        assert(start + stage_notes(self.phase, 0) =~= start);
        while i < advances
            invariant
                i <= advances,
                self.base.valid(),
                self.id == old(self).id,
                self.spawning == old(self).spawning,
                old(self).base.only_told(self.base),
                start == message_texts(old(self).base.inbox@),
                self.phase == old(self).phase.advanced(i as nat),
                message_texts(self.base.inbox@) == start + stage_notes(old(self).phase, i as nat),
            decreases advances - i,
        {
            let next = self.phase.next();
            self.set_phase(next);
            proof {
                let p = old(self).phase;
                assert(p.advanced((i + 1) as nat) == next);
                assert(stage_notes(p, (i + 1) as nat) == stage_notes(p, i as nat).push(Some(next.note())));
                assert((start + stage_notes(p, i as nat)).push(Some(next.note())) =~= start + stage_notes(
                    p,
                    (i + 1) as nat,
                ));
            }
            i = i + 1;
        }
        let closed = match outcome {
            TickOutcome::Yielded { .. }
            | TickOutcome::Ended { .. }
            | TickOutcome::Cancelled { .. }
            | TickOutcome::Failed(_) => true,
            _ => false,
        };
        if closed && self.phase != WorkerPhase::Plan {
            self.set_phase(WorkerPhase::Plan);
        }
    }
}

/// Why an agent could not be built.
#[derive(Clone, Debug, PartialEq, Eq)]
pub enum WorkerAgentBuildError {
    Tools(ToolSetError),
    Base(BaseAgentBuildError),
}

/// Collects the settings of an agent.
#[must_use]
pub struct WorkerAgentBuilder {
    pub id: AgentId,
    pub supports_tools: bool,
    pub system_prompt: String,
    pub tools: Vec<ToolSpec>,
    pub has_skills: bool,
    pub retry_policy: RetryPolicy,
    pub tool_block_retries: Option<u32>,
    pub spawning: bool,
}

impl WorkerAgentBuilder {
    pub fn with_system_prompt(self, system_prompt: String) -> (r: WorkerAgentBuilder)
        ensures
            r == (WorkerAgentBuilder { system_prompt, ..self }),
    {
        WorkerAgentBuilder { system_prompt, ..self }
    }

    pub fn with_tools(self, tools: Vec<ToolSpec>) -> (r: WorkerAgentBuilder)
        ensures
            r == (WorkerAgentBuilder { tools, ..self }),
    {
        WorkerAgentBuilder { tools, ..self }
    }

    pub fn with_skills(self) -> (r: WorkerAgentBuilder)
        ensures
            r == (WorkerAgentBuilder { has_skills: true, ..self }),
    {
        WorkerAgentBuilder { has_skills: true, ..self }
    }

    pub fn with_retry_policy(self, retry_policy: RetryPolicy) -> (r: WorkerAgentBuilder)
        ensures
            r == (WorkerAgentBuilder { retry_policy, ..self }),
    {
        WorkerAgentBuilder { retry_policy, ..self }
    }

    pub fn with_tool_block_retries(self, retries: u32) -> (r: WorkerAgentBuilder)
        ensures
            r == (WorkerAgentBuilder { tool_block_retries: Some(retries), ..self }),
    {
        WorkerAgentBuilder { tool_block_retries: Some(retries), ..self }
    }

    /// Lets the agent ask for subagents.
    pub fn with_spawning(self) -> (r: WorkerAgentBuilder)
        ensures
            r == (WorkerAgentBuilder { spawning: true, ..self }),
    {
        WorkerAgentBuilder { spawning: true, ..self }
    }

    /// All tool names of the agent but the built-in ones.
    pub open spec fn all_names(self) -> Seq<Seq<char>> {
        tool_names(self.tools@) + added_names(seq!["advance_stage"@], self.spawning)
    }

    /// All tool schemas of the agent but the built-in ones.
    pub open spec fn all_schemas(self) -> Seq<Seq<char>> {
        tool_schemas(self.tools@) + added_schemas(seq![ADVANCE_STAGE_SCHEMA@], self.spawning)
    }

    /// Builds the agent, in its first stage, which is told in the conversation.
    pub fn build(self) -> (r: Result<WorkerAgent, WorkerAgentBuildError>)
        ensures
            match r {
                Ok(agent) => {
                    &&& agent.base.valid()
                    &&& agent.phase == WorkerPhase::Plan
                    &&& agent.id == self.id
                    &&& agent.spawning == self.spawning
                    &&& agent.base.system_prompt@ == composed(WORKER_PREAMBLE@, self.system_prompt@)
                    &&& agent.base.retry_policy == self.retry_policy
                    &&& agent.base.has_skills == self.has_skills
                    &&& agent.base.allowed_tools is None
                    &&& agent.base.tool_block_retries == (match self.tool_block_retries {
                        Some(n) => n,
                        None => super::base_agent::DEFAULT_TOOL_BLOCK_RETRIES,
                    })
                    &&& agent.base.fresh()
                    &&& message_texts(agent.base.inbox@) == seq![Some(WorkerPhase::Plan.note())]
                    &&& self.supports_tools
                    &&& agent.base.tools matches Some(t)
                    &&& t.distinct()
                    &&& tool_names(t@) == self.all_names() + super::base_agent::internal_names()
                    &&& tool_schemas(t@) == self.all_schemas() + super::base_agent::internal_schemas()
                    &&& t@.take(self.tools@.len() as int) == self.tools@
                },
                Err(WorkerAgentBuildError::Tools(ToolSetError::DuplicateName(n))) => first_repeat(self.all_names())
                    == Some(n@),
                Err(WorkerAgentBuildError::Base(BaseAgentBuildError::ToolsUnsupported)) => !self.supports_tools
                    && first_repeat(self.all_names()) is None,
                Err(WorkerAgentBuildError::Base(BaseAgentBuildError::Tools(ToolSetError::DuplicateName(n)))) =>
                    self.supports_tools && first_repeat(self.all_names()) is None && first_repeat(
                    self.all_names() + super::base_agent::internal_names(),
                ) == Some(n@),
            },
    {
        let ghost given = self.tools@;
        let group = worker_tool_group();
        let tool_set = match assemble_tools(self.tools, group, self.spawning) {
            Ok(set) => set,
            Err(e) => {
                return Err(WorkerAgentBuildError::Tools(e));
            },
        };
        let prompt = compose_prompt(WORKER_PREAMBLE, self.system_prompt.as_str());
        let mut builder = BaseAgent::builder(self.supports_tools).with_system_prompt(prompt).with_tools(
            tool_set,
        ).with_retry_policy(self.retry_policy);
        if let Some(retries) = self.tool_block_retries {
            builder = builder.with_tool_block_retries(retries);
        }
        if self.has_skills {
            builder = builder.with_skills();
        }
        let ghost all = tool_set@;
        let base = match builder.build() {
            Ok(base) => base,
            Err(e) => {
                return Err(WorkerAgentBuildError::Base(e));
            },
        };
        let mut agent = WorkerAgent { id: self.id, base, phase: WorkerPhase::Plan, spawning: self.spawning };
        agent.set_phase(WorkerPhase::Plan);
        assert(agent.base.tools.unwrap()@.take(given.len() as int) =~= all.take(given.len() as int));
        assert(message_texts(agent.base.inbox@) =~= seq![Some(WorkerPhase::Plan.note())]);
        Ok(agent)
    }
}

/// A worker plans, then acts, then verifies, one stage at a time, and stays at verifying.
pub proof fn law_stages_come_in_order(phase: WorkerPhase, steps: nat)
    ensures
        phase.advanced(0) == phase,
        phase.advanced(steps + 1) == phase.advanced(steps).following(),
        phase is Plan ==> phase.following() is Act,
        phase is Act ==> phase.following() is Verify,
        phase is Verify ==> phase.following() is Verify,
{
}

/// The note of a stage names the stage that the worker is in.
pub proof fn law_note_names_the_stage(phase: WorkerPhase)
    ensures
        phase is Plan ==> has_prefix(phase.note(), "[system] Stage 1/3"@),
        phase is Act ==> has_prefix(phase.note(), "[system] Stage 2/3"@),
        phase is Verify ==> has_prefix(phase.note(), "[system] Stage 3/3"@),
{
    reveal_strlit("[system] Stage 1/3");
    reveal_strlit("[system] Stage 2/3");
    reveal_strlit("[system] Stage 3/3");
    reveal_strlit("[system] Stage 1/3 — Plan: analyze the goal and outline your approach, then call advance_stage.");
    reveal_strlit(
        "[system] Stage 2/3 — Act: carry out your plan using your tools, then call advance_stage to verify.",
    );
    reveal_strlit(
        "[system] Stage 3/3 — Verify: check your work against the goal and fix any issues, then reply with your result.",
    );
    let note = phase.note();
    match phase {
        WorkerPhase::Plan => {
            assert(note.subrange(0, 18) =~= "[system] Stage 1/3"@);
        },
        WorkerPhase::Act => {
            assert(note.subrange(0, 18) =~= "[system] Stage 2/3"@);
        },
        WorkerPhase::Verify => {
            assert(note.subrange(0, 18) =~= "[system] Stage 3/3"@);
        },
    }
}

/// Each stage that a worker comes to is noted, in order.
pub proof fn law_each_stage_is_noted(phase: WorkerPhase, steps: nat, i: int)
    requires
        0 <= i < steps,
    ensures
        stage_notes(phase, steps).len() == steps,
        stage_notes(phase, steps)[i] == Some(phase.advanced((i + 1) as nat).note()),
    decreases steps,
{
    lemma_stage_notes_len(phase, steps);
    lemma_stage_notes_len(phase, (steps - 1) as nat);
    if i < steps - 1 {
        law_each_stage_is_noted(phase, (steps - 1) as nat, i);
    }
}

proof fn lemma_stage_notes_len(phase: WorkerPhase, steps: nat)
    ensures
        stage_notes(phase, steps).len() == steps,
    decreases steps,
{
    if steps > 0 {
        lemma_stage_notes_len(phase, (steps - 1) as nat);
    }
}

/// A task is closed by an answer and by every end, and by nothing else.
pub proof fn law_answer_or_end_closes_the_task(outcome: OutcomeV)
    ensures
        closes_task(outcome) <==> outcome is Yielded || outcome is Ended || outcome is Cancelled || outcome is Failed,
{
}

/// An agent has the tools that it was given, in order, then the one that leads on, and last
/// the one for subagents where it may have them.
pub proof fn law_worker_has_its_own_tools_first(b: WorkerAgentBuilder)
    ensures
        ({
            let n = b.tools@.len() as int;
            let names = b.all_names();
            let schemas = b.all_schemas();
            &&& tool_names(b.tools@).is_prefix_of(names)
            &&& names.len() == n + (if b.spawning {
                2int
            } else {
                1int
            })
            &&& names[n] == "advance_stage"@
            &&& b.spawning ==> names[n + 1] == "spawn_subagent"@
            &&& schemas.len() == names.len()
            &&& schemas[n] == ADVANCE_STAGE_SCHEMA@
        }),
{
}

/// What an agent was told to say is the text of a message, and of nothing else.
pub proof fn law_only_messages_have_words(x: Inbound)
    ensures
        x matches Inbound::Command(AgentCommand::AppendMessage(t)) ==> message_text(x) == Some(t@),
        !(x matches Inbound::Command(AgentCommand::AppendMessage(_))) ==> message_text(x) is None,
{
}

} // verus!
