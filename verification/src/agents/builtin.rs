//! The built-in controllers as one type, and their registration.

use vstd::prelude::*;

use crate::agent_registry::AgentRegistry;
use crate::agent_spec::{
    AgentRole, AgentSpec, AgentState, ContextBuildInput, InputV, MoveV, OutputSchema, SemanticPhase, StateV,
    ToolVisibility, TransitionInput, TransitionOutput,
};
use crate::agents::frontend::FrontendAgentSpec;
use crate::agents::worker::WorkerAgentSpec;
use crate::protocol::event::{AgentEvent, EventV};

verus! {

/// A built-in controller.
#[derive(Clone, Copy, Debug, PartialEq, Eq, Structural)]
pub enum BuiltinSpec {
    Frontend(FrontendAgentSpec),
    Worker(WorkerAgentSpec),
}

impl AgentSpec for BuiltinSpec {
    open spec fn for_role(&self) -> AgentRole {
        match *self {
            BuiltinSpec::Frontend(s) => s.for_role(),
            BuiltinSpec::Worker(s) => s.for_role(),
        }
    }

    open spec fn tools_in(&self, state: StateV) -> Option<Seq<char>> {
        match *self {
            BuiltinSpec::Frontend(s) => s.tools_in(state),
            BuiltinSpec::Worker(s) => s.tools_in(state),
        }
    }

    open spec fn schema_in(&self, state: StateV) -> (Seq<char>, Seq<char>) {
        match *self {
            BuiltinSpec::Frontend(s) => s.schema_in(state),
            BuiltinSpec::Worker(s) => s.schema_in(state),
        }
    }

    open spec fn calls_in(&self, state: StateV) -> bool {
        match *self {
            BuiltinSpec::Frontend(s) => s.calls_in(state),
            BuiltinSpec::Worker(s) => s.calls_in(state),
        }
    }

    open spec fn moves(&self, state: StateV, input: InputV) -> MoveV {
        match *self {
            BuiltinSpec::Frontend(s) => s.moves(state, input),
            BuiltinSpec::Worker(s) => s.moves(state, input),
        }
    }

    open spec fn reacts(&self, state: StateV, event: EventV) -> MoveV {
        match *self {
            BuiltinSpec::Frontend(s) => s.reacts(state, event),
            BuiltinSpec::Worker(s) => s.reacts(state, event),
        }
    }

    fn role(&self) -> (r: AgentRole) {
        match self {
            BuiltinSpec::Frontend(s) => s.role(),
            BuiltinSpec::Worker(s) => s.role(),
        }
    }

    fn phase(&self, state: &AgentState) -> (r: SemanticPhase) {
        state.semantic_phase()
    }

    fn visible_tools(&self, input: &ContextBuildInput<'_>) -> (r: ToolVisibility) {
        match self {
            BuiltinSpec::Frontend(s) => s.visible_tools(input),
            BuiltinSpec::Worker(s) => s.visible_tools(input),
        }
    }

    fn expected_schema(&self, input: &ContextBuildInput<'_>) -> (r: OutputSchema) {
        match self {
            BuiltinSpec::Frontend(s) => s.expected_schema(input),
            BuiltinSpec::Worker(s) => s.expected_schema(input),
        }
    }

    fn should_call_llm(&self, state: &AgentState) -> (r: bool) {
        match self {
            BuiltinSpec::Frontend(s) => s.should_call_llm(state),
            BuiltinSpec::Worker(s) => s.should_call_llm(state),
        }
    }

    fn transition(&self, state: &AgentState, input: &TransitionInput) -> (r: TransitionOutput) {
        match self {
            BuiltinSpec::Frontend(s) => s.transition(state, input),
            BuiltinSpec::Worker(s) => s.transition(state, input),
        }
    }

    fn handle_event(&self, state: &AgentState, event: &AgentEvent) -> (r: TransitionOutput) {
        match self {
            BuiltinSpec::Frontend(s) => s.handle_event(state, event),
            BuiltinSpec::Worker(s) => s.handle_event(state, event),
        }
    }
}

/// One of the built-in registrars.
pub enum BuiltinRegistrar {
    Frontend(crate::agents::frontend::Registrar),
    Worker(crate::agents::worker::Registrar),
}

impl BuiltinRegistrar {
    /// The controller that the registrar puts into a registry.
    pub open spec fn spec_of(self) -> BuiltinSpec {
        match self {
            BuiltinRegistrar::Frontend(_) => BuiltinSpec::Frontend(FrontendAgentSpec),
            BuiltinRegistrar::Worker(_) => BuiltinSpec::Worker(WorkerAgentSpec),
        }
    }

    /// Puts the registrar's controller into the registry.
    pub fn register(&self, registry: &mut AgentRegistry<BuiltinSpec>)
        ensures
            final(registry)@ == old(registry)@.insert(self.spec_of().for_role(), self.spec_of()),
    {
        match self {
            BuiltinRegistrar::Frontend(r) => r.register(registry),
            BuiltinRegistrar::Worker(r) => r.register(registry),
        }
    }
}

/// The registrars of the built-in controllers.
pub fn builtin_registrars() -> (r: Vec<BuiltinRegistrar>)
    ensures
        r@.len() == 2,
        r@[0] is Frontend,
        r@[1] is Worker,
{
    vec![
        BuiltinRegistrar::Frontend(crate::agents::frontend::Registrar),
        BuiltinRegistrar::Worker(crate::agents::worker::Registrar),
    ]
}

/// Registers the built-in controllers, each under its role.
pub fn register_builtins(registry: &mut AgentRegistry<BuiltinSpec>)
    ensures
        final(registry)@ == old(registry)@.insert(
            AgentRole::Frontend,
            BuiltinSpec::Frontend(FrontendAgentSpec),
        ).insert(AgentRole::Worker, BuiltinSpec::Worker(WorkerAgentSpec)),
{
    let registrars = builtin_registrars();
    registrars[0].register(registry);
    registrars[1].register(registry);
}

/// A built-in agent behaves as its role does: as a frontend, or as a worker.
pub proof fn law_builtin_agent_behaves_as_its_role(
    f: FrontendAgentSpec,
    w: WorkerAgentSpec,
    state: StateV,
    input: InputV,
    event: EventV,
)
    ensures
        BuiltinSpec::Frontend(f).moves(state, input) == f.moves(state, input),
        BuiltinSpec::Frontend(f).reacts(state, event) == f.reacts(state, event),
        BuiltinSpec::Frontend(f).calls_in(state) == f.calls_in(state),
        BuiltinSpec::Frontend(f).tools_in(state) == f.tools_in(state),
        BuiltinSpec::Frontend(f).schema_in(state) == f.schema_in(state),
        BuiltinSpec::Frontend(f).for_role() == AgentRole::Frontend,
        BuiltinSpec::Worker(w).moves(state, input) == w.moves(state, input),
        BuiltinSpec::Worker(w).reacts(state, event) == w.reacts(state, event),
        BuiltinSpec::Worker(w).calls_in(state) == w.calls_in(state),
        BuiltinSpec::Worker(w).tools_in(state) == w.tools_in(state),
        BuiltinSpec::Worker(w).schema_in(state) == w.schema_in(state),
        BuiltinSpec::Worker(w).for_role() == AgentRole::Worker,
{
}

/// A registrar brings the agent of its own role.
pub proof fn law_registrar_brings_its_own_agent(r: BuiltinRegistrar)
    ensures
        r is Frontend ==> r.spec_of() is Frontend,
        r is Worker ==> r.spec_of() is Worker,
{
}

} // verus!
