//! Agent kinds, what they are configured with, and the plain agent.
//!
//! A kind is described by a manifest, which is data: a prompt, and the names of
//! capabilities and skills. A resolver turns the names into tools and skills. The
//! plain agent has no stages: the model drives its own flow.

use vstd::prelude::*;

use super::base_agent::{
    internal_names, internal_schemas, BaseAgent, BaseAgentBuildError, RetryPolicy, SkillError,
    DEFAULT_TOOL_BLOCK_RETRIES,
};
use super::conversation_agent::{spawn_tool_group, SPAWN_SUBAGENT_SCHEMA};
use super::internal_tools::{SpawnPolicy, RESPOND_TO_APPROVAL};
use super::manifest::{meta_text, names_text, parse_meta, parse_names, MetaV};
use super::transcript::Transcript;
use crate::protocol::ids::AgentId;
use crate::text::{concat2, concat3, str_eq, string_is, trim, trimmed, views};
use crate::tools::{first_repeat, lemma_repeat_stays, tool_names, tool_schemas, ToolSet, ToolSetError, ToolSpec};

verus! {

/// Which template an agent is made from. Many agents can share one kind.
#[derive(Clone, Debug, PartialEq, Eq)]
pub struct AgentKind {
    name: String,
}

impl View for AgentKind {
    type V = Seq<char>;

    closed spec fn view(&self) -> Seq<char> {
        self.name@
    }
}

/// What the kinds of a list are.
pub open spec fn kinds_view(kinds: Seq<AgentKind>) -> Seq<Seq<char>> {
    kinds.map_values(|k: AgentKind| k@)
}

impl AgentKind {
    pub fn new(kind: &str) -> (r: AgentKind)
        ensures
            r@ == kind@,
    {
        AgentKind { name: kind.to_owned() }
    }

    pub fn as_str(&self) -> (r: &str)
        ensures
            r@ == self@,
    {
        self.name.as_str()
    }

    /// A copy.
    pub fn dup(&self) -> (r: AgentKind)
        ensures
            r@ == self@,
    {
        AgentKind { name: self.name.clone() }
    }

    /// Whether this is the kind of that name.
    pub fn is(&self, name: &str) -> (r: bool)
        ensures
            r == (self@ == name@),
    {
        str_eq(self.name.as_str(), name)
    }
}

/// Copies of kinds.
pub fn dup_kinds(kinds: &Vec<AgentKind>) -> (r: Vec<AgentKind>)
    ensures
        kinds_view(r@) == kinds_view(kinds@),
{
    let mut out: Vec<AgentKind> = Vec::new();
    let mut i: usize = 0;
    while i < kinds.len()
        invariant
            i <= kinds@.len(),
            out@.len() == i,
            forall|k: int| 0 <= k < i ==> (#[trigger] out@[k])@ == kinds@[k]@,
        decreases kinds@.len() - i,
    {
        out.push(kinds[i].dup());
        i = i + 1;
    }
    assert(kinds_view(out@) =~= kinds_view(kinds@));
    out
}

/// Whether a list holds the kind of that name.
pub fn holds_kind(kinds: &Vec<AgentKind>, name: &str) -> (r: bool)
    ensures
        r == kinds_view(kinds@).contains(name@),
{
    let mut i: usize = 0;
    while i < kinds.len()
        invariant
            i <= kinds@.len(),
            forall|k: int| 0 <= k < i ==> (#[trigger] kinds@[k])@ != name@,
        decreases kinds@.len() - i,
    {
        if kinds[i].is(name) {
            assert(kinds_view(kinds@)[i as int] == name@);
            return true;
        }
        i = i + 1;
    }
    assert forall|k: int| 0 <= k < kinds_view(kinds@).len() implies kinds_view(kinds@)[k] != name@ by {
        assert(kinds@[k]@ != name@);
    }
    false
}

/// The names of kinds.
pub fn kind_names(kinds: &Vec<AgentKind>) -> (r: Vec<String>)
    ensures
        views(r@) == kinds_view(kinds@),
{
    let mut out: Vec<String> = Vec::new();
    let mut i: usize = 0;
    while i < kinds.len()
        invariant
            i <= kinds@.len(),
            out@.len() == i,
            forall|k: int| 0 <= k < i ==> (#[trigger] out@[k])@ == kinds@[k]@,
        decreases kinds@.len() - i,
    {
        out.push(kinds[i].as_str().to_owned());
        i = i + 1;
    }
    assert(views(out@) =~= kinds_view(kinds@));
    out
}

/// A kind as it is written down: its prompt, and its three JSON documents.
#[derive(Clone, Copy, Debug)]
pub struct AgentManifest {
    pub instructions: &'static str,
    pub capabilities_json: &'static str,
    pub skills_json: &'static str,
    pub agent_json: &'static str,
}

pub const CONVERSATION_INSTRUCTIONS: &'static str =
    "You talk to the user. Answer directly where you can, and delegate larger work to subagents with spawn_subagent. When a subagent asks for an approval, put the question to the user and report the reply with respond_to_approval.";

pub const CONVERSATION_AGENT_JSON: &'static str =
    "{\"schema_version\":1,\"kind\":\"conversation\",\"description\":\"Talks to the user and delegates work.\",\"spawn\":{\"enabled\":true,\"allowed_kinds\":[\"worker\"]},\"runtime\":{\"retries\":2}}";

pub const WORKER_INSTRUCTIONS: &'static str =
    "You complete the goal that you are given, using your tools, and reply with the result.";

pub const WORKER_AGENT_JSON: &'static str =
    "{\"schema_version\":1,\"kind\":\"worker\",\"description\":\"Completes one goal.\",\"spawn\":{\"enabled\":false,\"allowed_kinds\":[]},\"runtime\":{\"retries\":2}}";

pub const NO_CAPABILITIES_JSON: &'static str = "{\"schema_version\":1,\"capabilities\":[]}";

pub const NO_SKILLS_JSON: &'static str = "{\"schema_version\":1,\"skills\":[]}";

/// The manifest of a kind that is built in.
pub fn builtin_manifest(kind: &str) -> (r: Option<AgentManifest>)
    ensures
        if kind@ == "conversation"@ {
            r == Some(
                AgentManifest {
                    instructions: CONVERSATION_INSTRUCTIONS,
                    capabilities_json: NO_CAPABILITIES_JSON,
                    skills_json: NO_SKILLS_JSON,
                    agent_json: CONVERSATION_AGENT_JSON,
                },
            )
        } else if kind@ == "worker"@ {
            r == Some(
                AgentManifest {
                    instructions: WORKER_INSTRUCTIONS,
                    capabilities_json: NO_CAPABILITIES_JSON,
                    skills_json: NO_SKILLS_JSON,
                    agent_json: WORKER_AGENT_JSON,
                },
            )
        } else {
            r is None
        },
{
    if str_eq(kind, "conversation") {
        return Some(
            AgentManifest {
                instructions: CONVERSATION_INSTRUCTIONS,
                capabilities_json: NO_CAPABILITIES_JSON,
                skills_json: NO_SKILLS_JSON,
                agent_json: CONVERSATION_AGENT_JSON,
            },
        );
    }
    if str_eq(kind, "worker") {
        return Some(
            AgentManifest {
                instructions: WORKER_INSTRUCTIONS,
                capabilities_json: NO_CAPABILITIES_JSON,
                skills_json: NO_SKILLS_JSON,
                agent_json: WORKER_AGENT_JSON,
            },
        );
    }
    None
}

/// The kinds that are built in.
pub fn builtin_kinds() -> (r: Vec<String>)
    ensures
        views(r@) == seq!["conversation"@, "worker"@],
{
    let mut kinds: Vec<String> = Vec::new();
    kinds.push("conversation".to_owned());
    kinds.push("worker".to_owned());
    assert(views(kinds@) =~= seq!["conversation"@, "worker"@]);
    kinds
}

/// Turns the names of a manifest into tools and skills. The host implements it.
pub trait AgentResolver {
    /// Whether the host may give this as the tool of a capability.
    open spec fn resolves(&self, name: Seq<char>, tool: Option<ToolSpec>) -> bool {
        true
    }

    /// Whether this may come of loading skills.
    open spec fn loads(&self, skill_ids: Seq<Seq<char>>, loaded: Result<bool, SkillError>) -> bool {
        true
    }

    /// The tool of a capability, if there is one.
    fn resolve_tool(&self, name: &str) -> (r: Option<ToolSpec>)
        ensures
            self.resolves(name@, r),
    ;

    /// Whether there are skills once these are loaded.
    fn build_skills(&self, skill_ids: &Vec<String>) -> (r: Result<bool, SkillError>)
        ensures
            self.loads(views(skill_ids@), r),
    ;
}

/// Whether the host gave a tool for a capability.
pub open spec fn found<R: AgentResolver>(resolver: R, name: Seq<char>) -> bool {
    exists|tool: ToolSpec| #[trigger] resolver.resolves(name, Some(tool))
}

/// Whether the host gave a tool for each of the first `n` capabilities.
pub open spec fn all_found<R: AgentResolver>(resolver: R, names: Seq<Seq<char>>, n: int) -> bool {
    forall|i: int| 0 <= i < n ==> found(resolver, #[trigger] names[i])
}

/// Why a manifest is no configuration.
#[derive(Clone, Debug, PartialEq, Eq)]
pub enum AgentConfigError {
    /// The header cannot be read.
    Metadata(String),
    /// The list of capabilities cannot be read.
    Capabilities(String),
    /// The list of skills cannot be read.
    Skills(String),
    KindMismatch { requested: String, declared: String },
    UnknownCapability(String),
    Skill(SkillError),
}

impl AgentConfigError {
    /// The text of the error.
    pub open spec fn text(self) -> Seq<char> {
        match self {
            AgentConfigError::Metadata(e) => "invalid agent.json: "@ + e@,
            AgentConfigError::Capabilities(e) => "invalid capabilities.json: "@ + e@,
            AgentConfigError::Skills(e) => "invalid skills.json: "@ + e@,
            AgentConfigError::KindMismatch { requested, declared } => "kind mismatch: requested '"@ + requested@
                + "', manifest declares '"@ + declared@ + "'"@,
            AgentConfigError::UnknownCapability(name) => "unknown capability: "@ + name@,
            AgentConfigError::Skill(e) => e.text(),
        }
    }

    pub fn message(&self) -> (r: String)
        ensures
            r@ == self.text(),
    {
        match self {
            AgentConfigError::Metadata(e) => concat2("invalid agent.json: ", e.as_str()),
            AgentConfigError::Capabilities(e) => concat2("invalid capabilities.json: ", e.as_str()),
            AgentConfigError::Skills(e) => concat2("invalid skills.json: ", e.as_str()),
            AgentConfigError::KindMismatch { requested, declared } => {
                let mut r = concat3("kind mismatch: requested '", requested.as_str(), "', manifest declares '");
                r.append(declared.as_str());
                r.append("'");
                r
            },
            AgentConfigError::UnknownCapability(name) => concat2("unknown capability: ", name.as_str()),
            AgentConfigError::Skill(e) => e.message(),
        }
    }
}

/// All that an agent is made from.
pub struct AgentConfig {
    pub kind: AgentKind,
    pub system_prompt: String,
    pub tools: Vec<ToolSpec>,
    pub has_skills: bool,
    /// Which subagents the agent may ask for, if any.
    pub spawn: Option<SpawnPolicy>,
    /// Whether the agent reports the user's verdicts on approval requests.
    pub responds_to_approvals: bool,
    pub retry_policy: RetryPolicy,
    pub tool_block_retries: Option<u32>,
}

/// The kinds of some names.
fn kinds_of(names: &Vec<String>) -> (r: Vec<AgentKind>)
    ensures
        kinds_view(r@) == views(names@),
{
    let mut out: Vec<AgentKind> = Vec::new();
    let mut i: usize = 0;
    while i < names.len()
        invariant
            i <= names@.len(),
            out@.len() == i,
            forall|k: int| 0 <= k < i ==> (#[trigger] out@[k])@ == names@[k]@,
        decreases names@.len() - i,
    {
        out.push(AgentKind::new(names[i].as_str()));
        i = i + 1;
    }
    assert(kinds_view(out@) =~= views(names@));
    out
}

/// Whether a policy is the one that a header asks for: none where subagents are
/// off or nobody makes them, else the one of its list.
pub open spec fn spawn_of(meta: MetaV, can_spawn: bool, spawn: Option<SpawnPolicy>) -> bool {
    if !meta.spawn_enabled || !can_spawn {
        spawn is None
    } else if meta.allowed_kinds.contains("*"@) {
        spawn == Some(SpawnPolicy::Any)
    } else {
        spawn matches Some(SpawnPolicy::Only(kinds)) && kinds_view(kinds@) == meta.allowed_kinds
    }
}

/// The policy that a header asks for.
pub fn spawn_policy(enabled: bool, allowed_kinds: &Vec<String>, can_spawn: bool) -> (r: Option<SpawnPolicy>)
    ensures
        forall|meta: MetaV|
            meta.spawn_enabled == enabled && meta.allowed_kinds == views(allowed_kinds@) ==> #[trigger] spawn_of(
                meta,
                can_spawn,
                r,
            ),
{
    if !enabled || !can_spawn {
        return None;
    }
    let kinds = kinds_of(allowed_kinds);
    Some(SpawnPolicy::from_allowed_kinds(&kinds))
}

impl AgentConfig {
    pub fn builder(kind: &str) -> (r: AgentConfigBuilder)
        ensures
            r.kind@ == kind@,
            r.system_prompt@.len() == 0,
            r.tools@.len() == 0,
            !r.has_skills,
            r.spawn is None,
            !r.responds_to_approvals,
            r.retry_policy.retries == 2,
            r.tool_block_retries is None,
    {
        AgentConfigBuilder {
            kind: AgentKind::new(kind),
            system_prompt: String::new(),
            tools: Vec::new(),
            has_skills: false,
            spawn: None,
            responds_to_approvals: false,
            retry_policy: RetryPolicy::default(),
            tool_block_retries: None,
        }
    }

    /// Makes a configuration of a manifest. `can_spawn` tells whether somebody makes
    /// subagents, and `responds_to_approvals` whether the agent is the one that talks
    /// to the user. The resolver is asked for the tools in order, and for the skills
    /// once all tools are there.
    pub fn from_manifest<R: AgentResolver>(
        kind: &str,
        manifest: &AgentManifest,
        resolver: &R,
        can_spawn: bool,
        responds_to_approvals: bool,
    ) -> (r: Result<AgentConfig, AgentConfigError>)
        ensures
            match meta_text(manifest.agent_json@) {
                Err(e) => r matches Err(AgentConfigError::Metadata(m)) && m@ == e,
                Ok(meta) => if meta.kind != kind@ {
                    r matches Err(AgentConfigError::KindMismatch { requested, declared }) && requested@ == kind@
                        && declared@ == meta.kind
                } else {
                    match names_text(manifest.capabilities_json@, "capabilities"@) {
                        Err(e) => r matches Err(AgentConfigError::Capabilities(m)) && m@ == e,
                        Ok(caps) => match r {
                            Err(AgentConfigError::UnknownCapability(name)) => exists|i: int|
                                {
                                    &&& 0 <= i < caps.len()
                                    &&& #[trigger] caps[i] == name@
                                    &&& all_found(*resolver, caps, i)
                                    &&& resolver.resolves(caps[i], None)
                                },
                            Err(AgentConfigError::Skills(m)) => all_found(*resolver, caps, caps.len() as int)
                                && names_text(manifest.skills_json@, "skills"@) == Err::<Seq<Seq<char>>, Seq<char>>(m@),
                            Err(AgentConfigError::Skill(e)) => all_found(*resolver, caps, caps.len() as int)
                                && names_text(manifest.skills_json@, "skills"@) is Ok && resolver.loads(
                                names_text(manifest.skills_json@, "skills"@)->Ok_0,
                                Err(e),
                            ),
                            Err(_) => false,
                            Ok(config) => {
                                &&& names_text(manifest.skills_json@, "skills"@) is Ok
                                &&& resolver.loads(
                                    names_text(manifest.skills_json@, "skills"@)->Ok_0,
                                    Ok(config.has_skills),
                                )
                                &&& forall|i: int|
                                    0 <= i < caps.len() ==> resolver.resolves(caps[i], Some(#[trigger] config.tools@[i]))
                                &&& config.kind@ == kind@
                                &&& config.system_prompt@ == trimmed(manifest.instructions@)
                                &&& config.tools@.len() == caps.len()
                                &&& spawn_of(meta, can_spawn, config.spawn)
                                &&& config.responds_to_approvals == responds_to_approvals
                                &&& config.retry_policy.retries == meta.retries
                                &&& config.tool_block_retries == meta.tool_block_retries
                            },
                        },
                    }
                },
            },
    {
        let meta = match parse_meta(manifest.agent_json) {
            Ok(meta) => meta,
            Err(e) => {
                return Err(AgentConfigError::Metadata(e));
            },
        };
        if !string_is(&meta.kind, kind) {
            return Err(AgentConfigError::KindMismatch { requested: kind.to_owned(), declared: meta.kind });
        }
        let capabilities = match parse_names(manifest.capabilities_json, "capabilities") {
            Ok(names) => names,
            Err(e) => {
                return Err(AgentConfigError::Capabilities(e));
            },
        };
        let ghost caps = views(capabilities@);
        let mut tools: Vec<ToolSpec> = Vec::new();
        let mut i: usize = 0;
        while i < capabilities.len()
            invariant
                i <= capabilities@.len(),
                tools@.len() == i,
                caps == views(capabilities@),
                forall|j: int| 0 <= j < i ==> resolver.resolves(caps[j], Some(#[trigger] tools@[j])),
                meta_text(manifest.agent_json@) == Ok::<MetaV, Seq<char>>(meta@),
                meta@.kind == kind@,
                names_text(manifest.capabilities_json@, "capabilities"@) == Ok::<Seq<Seq<char>>, Seq<char>>(
                    views(capabilities@),
                ),
            decreases capabilities@.len() - i,
        {
            let resolved = resolver.resolve_tool(capabilities[i].as_str());
            assert(caps[i as int] == capabilities@[i as int]@);
            match resolved {
                Some(tool) => {
                    tools.push(tool);
                },
                None => {
                    assert forall|j: int| 0 <= j < i implies found(*resolver, #[trigger] caps[j]) by {
                        assert(resolver.resolves(caps[j], Some(tools@[j])));
                    }
                    return Err(AgentConfigError::UnknownCapability(capabilities[i].clone()));
                },
            }
            i = i + 1;
        }
        assert forall|j: int| 0 <= j < caps.len() implies found(*resolver, #[trigger] caps[j]) by {
            assert(resolver.resolves(caps[j], Some(tools@[j])));
        }
        let skill_ids = match parse_names(manifest.skills_json, "skills") {
            Ok(names) => names,
            Err(e) => {
                return Err(AgentConfigError::Skills(e));
            },
        };
        let has_skills = match resolver.build_skills(&skill_ids) {
            Ok(b) => b,
            Err(e) => {
                return Err(AgentConfigError::Skill(e));
            },
        };
        let spawn = spawn_policy(meta.spawn_enabled, &meta.allowed_kinds, can_spawn);
        assert(spawn_of(meta@, can_spawn, spawn));
        Ok(
            AgentConfig {
                kind: AgentKind::new(meta.kind.as_str()),
                system_prompt: trim(manifest.instructions).to_owned(),
                tools,
                has_skills,
                spawn,
                responds_to_approvals,
                retry_policy: RetryPolicy::new(meta.retries),
                tool_block_retries: meta.tool_block_retries,
            },
        )
    }

    pub fn kind(&self) -> (r: &AgentKind)
        ensures
            *r == self.kind,
    {
        &self.kind
    }
}

/// Collects a configuration by hand.
#[must_use]
pub struct AgentConfigBuilder {
    pub kind: AgentKind,
    pub system_prompt: String,
    pub tools: Vec<ToolSpec>,
    pub has_skills: bool,
    pub spawn: Option<SpawnPolicy>,
    pub responds_to_approvals: bool,
    pub retry_policy: RetryPolicy,
    pub tool_block_retries: Option<u32>,
}

impl AgentConfigBuilder {
    pub fn with_system_prompt(self, system_prompt: String) -> (r: AgentConfigBuilder)
        ensures
            r == (AgentConfigBuilder { system_prompt, ..self }),
    {
        AgentConfigBuilder { system_prompt, ..self }
    }

    pub fn with_tools(self, tools: Vec<ToolSpec>) -> (r: AgentConfigBuilder)
        ensures
            r == (AgentConfigBuilder { tools, ..self }),
    {
        AgentConfigBuilder { tools, ..self }
    }

    pub fn with_skills(self) -> (r: AgentConfigBuilder)
        ensures
            r == (AgentConfigBuilder { has_skills: true, ..self }),
    {
        AgentConfigBuilder { has_skills: true, ..self }
    }

    /// Lets the agent ask for subagents.
    pub fn with_spawner(self, policy: SpawnPolicy) -> (r: AgentConfigBuilder)
        ensures
            r == (AgentConfigBuilder { spawn: Some(policy), ..self }),
    {
        AgentConfigBuilder { spawn: Some(policy), ..self }
    }

    /// Lets the agent report the user's verdicts on approval requests.
    pub fn with_approval_responder(self) -> (r: AgentConfigBuilder)
        ensures
            r == (AgentConfigBuilder { responds_to_approvals: true, ..self }),
    {
        AgentConfigBuilder { responds_to_approvals: true, ..self }
    }

    pub fn with_retry_policy(self, retry_policy: RetryPolicy) -> (r: AgentConfigBuilder)
        ensures
            r == (AgentConfigBuilder { retry_policy, ..self }),
    {
        AgentConfigBuilder { retry_policy, ..self }
    }

    pub fn with_tool_block_retries(self, retries: u32) -> (r: AgentConfigBuilder)
        ensures
            r == (AgentConfigBuilder { tool_block_retries: Some(retries), ..self }),
    {
        AgentConfigBuilder { tool_block_retries: Some(retries), ..self }
    }

    pub fn build(self) -> (r: AgentConfig)
        ensures
            r.kind == self.kind,
            r.system_prompt == self.system_prompt,
            r.tools == self.tools,
            r.has_skills == self.has_skills,
            r.spawn == self.spawn,
            r.responds_to_approvals == self.responds_to_approvals,
            r.retry_policy == self.retry_policy,
            r.tool_block_retries == self.tool_block_retries,
    {
        AgentConfig {
            kind: self.kind,
            system_prompt: self.system_prompt,
            tools: self.tools,
            has_skills: self.has_skills,
            spawn: self.spawn,
            responds_to_approvals: self.responds_to_approvals,
            retry_policy: self.retry_policy,
            tool_block_retries: self.tool_block_retries,
        }
    }
}

/// The schema of the tool.
pub const RESPOND_TO_APPROVAL_SCHEMA: &'static str =
    "{\"type\":\"function\",\"function\":{\"name\":\"respond_to_approval\",\"description\":\"Report the user's verdict on an approval request.\",\"parameters\":{\"type\":\"object\",\"properties\":{\"agent\":{\"type\":\"string\"},\"verdict\":{\"type\":\"string\",\"enum\":[\"yes\",\"no\",\"other\"]},\"note\":{\"type\":\"string\"}},\"required\":[\"agent\",\"verdict\"]}}}";

/// The tool that reports verdicts.
pub fn respond_to_approval_tool_group() -> (r: Vec<ToolSpec>)
    ensures
        tool_names(r@) == seq!["respond_to_approval"@],
        tool_schemas(r@) == seq![RESPOND_TO_APPROVAL_SCHEMA@],
{
    let mut tools: Vec<ToolSpec> = Vec::new();
    tools.push(
        ToolSpec {
            name: RESPOND_TO_APPROVAL.to_owned(),
            schema: RESPOND_TO_APPROVAL_SCHEMA.to_owned(),
        },
    );
    assert(tool_names(tools@) =~= seq!["respond_to_approval"@]);
    assert(tool_schemas(tools@) =~= seq![RESPOND_TO_APPROVAL_SCHEMA@]);
    tools
}

/// Why an agent could not be built.
#[derive(Clone, Debug, PartialEq, Eq)]
pub enum GenericAgentBuildError {
    Tools(ToolSetError),
    Base(BaseAgentBuildError),
}

/// The plain agent.
pub struct GenericAgent {
    pub id: AgentId,
    pub kind: AgentKind,
    pub spawn: Option<SpawnPolicy>,
    pub base: BaseAgent,
}

impl AgentConfig {
    /// The names of the tools that the configuration adds to its own.
    pub open spec fn extra_names(self) -> Seq<Seq<char>> {
        (if self.spawn is Some {
            seq!["spawn_subagent"@]
        } else {
            Seq::<Seq<char>>::empty()
        }) + (if self.responds_to_approvals {
            seq!["respond_to_approval"@]
        } else {
            Seq::<Seq<char>>::empty()
        })
    }

    /// All tool names of the configuration.
    pub open spec fn all_names(self) -> Seq<Seq<char>> {
        tool_names(self.tools@) + self.extra_names()
    }

    /// All tool schemas of the configuration.
    pub open spec fn all_schemas(self) -> Seq<Seq<char>> {
        tool_schemas(self.tools@) + (if self.spawn is Some {
            seq![SPAWN_SUBAGENT_SCHEMA@]
        } else {
            Seq::<Seq<char>>::empty()
        }) + (if self.responds_to_approvals {
            seq![RESPOND_TO_APPROVAL_SCHEMA@]
        } else {
            Seq::<Seq<char>>::empty()
        })
    }
}

impl GenericAgent {
    /// Builds an agent of a configuration, for a model that can, or cannot, call tools.
    pub fn new(id: AgentId, supports_tools: bool, config: AgentConfig) -> (r: Result<
        GenericAgent,
        GenericAgentBuildError,
    >)
        ensures
            match r {
                Ok(agent) => {
                    &&& agent.id == id
                    &&& agent.kind == config.kind
                    &&& agent.spawn == config.spawn
                    &&& agent.base.valid()
                    &&& agent.base.fresh()
                    &&& agent.base.inbox@.len() == 0
                    &&& agent.base.system_prompt == config.system_prompt
                    &&& agent.base.has_skills == config.has_skills
                    &&& agent.base.allowed_tools is None
                    &&& agent.base.retry_policy == config.retry_policy
                    &&& agent.base.tool_block_retries == (match config.tool_block_retries {
                        Some(n) => n,
                        None => DEFAULT_TOOL_BLOCK_RETRIES,
                    })
                    &&& supports_tools
                    &&& agent.base.tools matches Some(t)
                    &&& t.distinct()
                    &&& tool_names(t@) == config.all_names() + internal_names()
                    &&& tool_schemas(t@) == config.all_schemas() + internal_schemas()
                    &&& t@.take(config.tools@.len() as int) == config.tools@
                },
                Err(GenericAgentBuildError::Tools(ToolSetError::DuplicateName(n))) => first_repeat(
                    config.all_names(),
                ) == Some(n@),
                Err(GenericAgentBuildError::Base(BaseAgentBuildError::ToolsUnsupported)) => !supports_tools
                    && first_repeat(config.all_names()) is None,
                Err(GenericAgentBuildError::Base(BaseAgentBuildError::Tools(ToolSetError::DuplicateName(n)))) =>
                    supports_tools && first_repeat(config.all_names()) is None && first_repeat(
                    config.all_names() + internal_names(),
                ) == Some(n@),
            },
    {
        let ghost given = config.tools@;
        let ghost all = config.all_names();
        let ghost schemas = config.all_schemas();
        proof {
            assert(all.take(given.len() as int) =~= tool_names(given));
        }
        let mut tool_set = match ToolSet::new(config.tools) {
            Ok(set) => set,
            Err(e) => {
                proof {
                    lemma_repeat_stays(all, given.len() as int);
                }
                return Err(GenericAgentBuildError::Tools(e));
            },
        };
        if config.spawn.is_some() {
            let group = spawn_tool_group();
            let ghost n = (given.len() + 1) as int;
            proof {
                assert(tool_names(given + group@) =~= tool_names(given) + tool_names(group@));
                assert(all.take(n) =~= tool_names(given + group@));
            }
            match tool_set.extend_with_group(group) {
                Ok(_) => {},
                Err(e) => {
                    proof {
                        lemma_repeat_stays(all, n);
                    }
                    return Err(GenericAgentBuildError::Tools(e));
                },
            }
        }
        if config.responds_to_approvals {
            let group = respond_to_approval_tool_group();
            proof {
                assert(tool_names(tool_set@ + group@) =~= tool_names(tool_set@) + tool_names(group@));
                assert(tool_names(tool_set@ + group@) =~= all);
            }
            match tool_set.extend_with_group(group) {
                Ok(_) => {},
                Err(e) => {
                    return Err(GenericAgentBuildError::Tools(e));
                },
            }
        }
        assert(tool_names(tool_set@) =~= all);
        assert(tool_schemas(tool_set@) =~= schemas);
        let mut builder = BaseAgent::builder(supports_tools).with_system_prompt(config.system_prompt).with_tools(
            tool_set,
        ).with_retry_policy(config.retry_policy);
        if let Some(retries) = config.tool_block_retries {
            builder = builder.with_tool_block_retries(retries);
        }
        if config.has_skills {
            builder = builder.with_skills();
        }
        let ghost tools = tool_set@;
        assert(tools.take(given.len() as int) =~= given);
        match builder.build() {
            Ok(base) => {
                assert(base.tools.unwrap()@.take(given.len() as int) =~= tools.take(given.len() as int));
                Ok(GenericAgent { id, kind: config.kind, spawn: config.spawn, base })
            },
            Err(e) => Err(GenericAgentBuildError::Base(e)),
        }
    }

    pub fn kind(&self) -> (r: &AgentKind)
        ensures
            *r == self.kind,
    {
        &self.kind
    }

    /// The agent's conversation.
    pub fn memory(&self) -> (r: &Transcript)
        ensures
            *r == self.base.transcript,
    {
        &self.base.transcript
    }
}

/// An agent may have subagents only where its header allows it and somebody makes them; of
/// every kind where the header lists all, and else of those that it lists.
pub proof fn law_header_decides_on_subagents(meta: MetaV, can_spawn: bool, spawn: Option<SpawnPolicy>, kind: Seq<char>)
    requires
        spawn_of(meta, can_spawn, spawn),
    ensures
        spawn is Some <==> meta.spawn_enabled && can_spawn,
        spawn matches Some(policy) ==> (policy.permits(kind) <==> meta.allowed_kinds.contains("*"@)
            || meta.allowed_kinds.contains(kind)),
{
}

/// An agent has the tools that it was given, in order, then the one for subagents where it
/// may have them, and then the one for consent where it talks to the user.
pub proof fn law_agent_has_its_own_tools_first(b: AgentConfig)
    ensures
        ({
            let given = tool_names(b.tools@);
            let names = b.all_names();
            let extra: int = (if b.spawn is Some {
                1int
            } else {
                0int
            }) + (if b.responds_to_approvals {
                1int
            } else {
                0int
            });
            &&& names.len() == b.tools@.len() + extra
            &&& given.is_prefix_of(names)
            &&& b.spawn is Some ==> names[b.tools@.len() as int] == "spawn_subagent"@
            &&& b.responds_to_approvals ==> names.last() == "respond_to_approval"@
            &&& b.all_schemas().len() == names.len()
            &&& b.spawn is Some ==> b.all_schemas()[b.tools@.len() as int] == SPAWN_SUBAGENT_SCHEMA@
            &&& b.responds_to_approvals ==> b.all_schemas().last() == RESPOND_TO_APPROVAL_SCHEMA@
        }),
{
}

/// What keeps a manifest from being a configuration is said, with the file or the name
/// that it is about.
pub proof fn law_unusable_manifest_says_why(e: AgentConfigError)
    ensures
        e matches AgentConfigError::Metadata(m) ==> e.text() == "invalid agent.json: "@ + m@,
        e matches AgentConfigError::Capabilities(m) ==> e.text() == "invalid capabilities.json: "@ + m@,
        e matches AgentConfigError::Skills(m) ==> e.text() == "invalid skills.json: "@ + m@,
        e matches AgentConfigError::KindMismatch { requested, declared } ==> e.text() == "kind mismatch: requested '"@
            + requested@ + "', manifest declares '"@ + declared@ + "'"@,
        e matches AgentConfigError::UnknownCapability(name) ==> e.text() == "unknown capability: "@ + name@,
        e matches AgentConfigError::Skill(m) ==> e.text() == m.text(),
{
}

} // verus!
