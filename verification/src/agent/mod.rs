//! Agents: the base agent, the agents built on it, and the graph that they form.

use vstd::prelude::*;

use self::base_agent::{AgentCommand, BaseAgent, Inbound};
use self::worker_agent::message_texts;
use crate::protocol::ids::AgentId;

pub mod agent;
pub mod base_agent;
pub mod conversation_agent;
pub mod internal_tools;
pub mod manifest;
pub mod registry;
pub mod transcript;
pub mod worker_agent;

verus! {

/// How the result of a subagent is told to the agent that asked for it.
pub open spec fn child_result(child: AgentId, text: Seq<char>, ok: bool) -> Seq<char> {
    "[subagent "@ + child.wire() + (if ok {
        " ok] "@
    } else {
        " failed] "@
    }) + text
}

/// Hands an agent the result of a subagent, as a message.
pub fn append_child_result(base: &mut BaseAgent, child: AgentId, text: &str, ok: bool)
    requires
        old(base).valid(),
    ensures
        final(base).valid(),
        old(base).only_told(*final(base)),
        message_texts(final(base).inbox@) == message_texts(old(base).inbox@).push(
            Some(child_result(child, text@, ok)),
        ),
{
    let mut message = "[subagent ".to_owned();
    message.append(child.to_wire().as_str());
    if ok {
        message.append(" ok] ");
    } else {
        message.append(" failed] ");
    }
    message.append(text);
    let ghost before = base.inbox@;
    let ghost told = message;
    base.append_message(message);
    proof {
        assert(base.inbox@ =~= before.push(Inbound::Command(AgentCommand::AppendMessage(told))));
        assert(message_texts(base.inbox@) =~= message_texts(before).push(Some(child_result(child, text@, ok))));
    }
}

/// What an agent reads of a subagent's result names the subagent, says whether it
/// succeeded, and ends with what the subagent said; success never reads like failure.
pub proof fn law_child_result_says_how_it_went(child: AgentId, text: Seq<char>, other: Seq<char>)
    ensures
        child_result(child, text, true) == "[subagent "@ + child.wire() + " ok] "@ + text,
        child_result(child, text, false) == "[subagent "@ + child.wire() + " failed] "@ + text,
        child_result(child, text, true) != child_result(child, other, false),
{
    reveal_strlit(" ok] ");
    reveal_strlit(" failed] ");
    let at = ("[subagent "@.len() + child.wire().len() + 1) as int;
    assert(child_result(child, text, true)[at] == 'o');
    assert(child_result(child, other, false)[at] == 'f');
}

} // verus!
