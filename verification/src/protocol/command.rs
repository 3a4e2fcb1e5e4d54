//! Commands that a frontend gives to the runtime.

use vstd::prelude::*;

use crate::json::{member, str_member, Json, JsonV};
use crate::protocol::ids::{wire_id, TaskId};
use crate::text::is_blank;

verus! {

/// A command of a frontend.
#[derive(Debug, PartialEq, Eq)]
pub enum Command {
    /// Start a worker on a new task.
    CreateTask { task_id: TaskId, goal: String, frontend_instance_id: String, requires_plan_approval: bool },
}

/// What a [`Command`] holds.
pub enum CommandV {
    CreateTask { task_id: TaskId, goal: Seq<char>, frontend: Seq<char>, requires_plan_approval: bool },
}

impl View for Command {
    type V = CommandV;

    open spec fn view(&self) -> CommandV {
        match *self {
            Command::CreateTask { task_id, goal, frontend_instance_id, requires_plan_approval } => CommandV::CreateTask {
                task_id,
                goal: goal@,
                frontend: frontend_instance_id@,
                requires_plan_approval,
            },
        }
    }
}

/// The JSON form of a command: an object with the command's name as its one member.
pub open spec fn command_json(c: CommandV) -> JsonV {
    match c {
        CommandV::CreateTask { task_id, goal, frontend, requires_plan_approval } => JsonV::Obj(
            Map::empty().insert(
                "CreateTask"@,
                JsonV::Obj(
                    Map::empty().insert("task_id"@, JsonV::Str(task_id.wire())).insert(
                        "goal"@,
                        JsonV::Str(goal),
                    ).insert("frontend_instance_id"@, JsonV::Str(frontend)).insert(
                        "requires_plan_approval"@,
                        JsonV::Bool(requires_plan_approval),
                    ),
                ),
            ),
        ),
    }
}

/// The command that a JSON value stands for.
pub open spec fn command_of(v: JsonV) -> Option<CommandV> {
    match v {
        JsonV::Obj(m) => if m.dom() == set!["CreateTask"@] {
            let body = m["CreateTask"@];
            match (
                str_member(body, "task_id"@),
                str_member(body, "goal"@),
                str_member(body, "frontend_instance_id"@),
                member(body, "requires_plan_approval"@),
            ) {
                (Some(id), Some(goal), Some(frontend), Some(JsonV::Bool(b))) => match wire_id(id, "task-"@) {
                    Some(n) => if is_blank(id) {
                        None
                    } else {
                        Some(
                            CommandV::CreateTask {
                                task_id: TaskId(n),
                                goal,
                                frontend,
                                requires_plan_approval: b,
                            },
                        )
                    },
                    None => None,
                },
                _ => None,
            }
        } else {
            None
        },
        _ => None,
    }
}

impl Command {
    /// The JSON form.
    pub fn to_json(&self) -> (r: Json)
        ensures
            r@ == command_json(self@),
    {
        match self {
            Command::CreateTask { task_id, goal, frontend_instance_id, requires_plan_approval } => Json::object().with(
                "CreateTask",
                Json::object().with("task_id", task_id.to_json()).with("goal", Json::text(goal.as_str())).with(
                    "frontend_instance_id",
                    Json::text(frontend_instance_id.as_str()),
                ).with("requires_plan_approval", Json::Bool(*requires_plan_approval)),
            ),
        }
    }

    /// Reads a JSON form.
    pub fn from_json(j: &Json) -> (r: Option<Command>)
        ensures
            match r {
                Some(c) => command_of(j@) == Some(c@),
                None => command_of(j@) is None,
            },
    {
        let body = match j.only_member("CreateTask") {
            Some(b) => b,
            None => {
                return None;
            },
        };
        let id = match body.get_str("task_id") {
            Some(s) => match TaskId::from_wire(s) {
                Ok(id) => id,
                Err(_) => {
                    return None;
                },
            },
            None => {
                return None;
            },
        };
        let goal = match body.get_str("goal") {
            Some(s) => s.to_owned(),
            None => {
                return None;
            },
        };
        let frontend = match body.get_str("frontend_instance_id") {
            Some(s) => s.to_owned(),
            None => {
                return None;
            },
        };
        let approval = match body.get("requires_plan_approval") {
            Some(b) => match b.as_bool() {
                Some(b) => b,
                None => {
                    return None;
                },
            },
            None => {
                return None;
            },
        };
        Some(
            Command::CreateTask {
                task_id: id,
                goal,
                frontend_instance_id: frontend,
                requires_plan_approval: approval,
            },
        )
    }
}

/// The JSON form of a command reads back as that command.
pub proof fn law_command_round_trip(c: CommandV)
    ensures
        command_of(command_json(c)) == Some(c),
{
    match c {
        CommandV::CreateTask { task_id, .. } => {
            task_id.law_round_trip();
            reveal_strlit("task_id");
            reveal_strlit("goal");
            reveal_strlit("frontend_instance_id");
            reveal_strlit("requires_plan_approval");
            assert("task_id"@.len() == 7 && "goal"@.len() == 4 && "frontend_instance_id"@.len() == 20
                && "requires_plan_approval"@.len() == 22);
            assert(command_json(c)->Obj_0.dom() =~= set!["CreateTask"@]);
        },
    }
}

} // verus!
