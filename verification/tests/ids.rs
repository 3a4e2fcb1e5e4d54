use claw_core::json::{Json, Num};
use claw_core::protocol::command::Command;
use claw_core::protocol::ids::{
    AgentId, ApprovalId, IdJsonError, IdParseError, IterationId, SessionId, StepId, TaskId, TurnId, WorkerId,
};

fn number(n: u64) -> Json {
    Json::Num(Num::Unsigned(n))
}

#[test]
fn session_id_serializes_to_prefixed_string() {
    assert_eq!(SessionId(1).to_json(), Json::Str("session-1".to_string()));
}

#[test]
fn task_id_serializes_to_prefixed_string() {
    assert_eq!(TaskId(42).to_json(), Json::Str("task-42".to_string()));
}

#[test]
fn step_id_serializes_to_prefixed_string() {
    assert_eq!(StepId(3).to_json(), Json::Str("step-3".to_string()));
}

#[test]
fn turn_id_serializes_to_prefixed_string() {
    assert_eq!(TurnId(5).to_json(), Json::Str("turn-5".to_string()));
}

#[test]
fn worker_id_serializes_to_prefixed_string() {
    assert_eq!(WorkerId(5).to_json(), Json::Str("worker-5".to_string()));
}

#[test]
fn iteration_id_serializes_to_prefixed_string() {
    assert_eq!(IterationId(12).to_json(), Json::Str("iteration-12".to_string()));
}

#[test]
fn iteration_id_deserializes_from_prefixed_string() {
    assert_eq!(IterationId::from_json(&Json::text("iteration-7")).unwrap(), IterationId(7));
}

#[test]
fn ids_deserialize_from_prefixed_string() {
    let session = SessionId::from_json(&Json::text("session-7")).unwrap();
    let task = TaskId::from_json(&Json::text("task-3")).unwrap();
    let step = StepId::from_json(&Json::text("step-2")).unwrap();
    let turn = TurnId::from_json(&Json::text("turn-4")).unwrap();
    let worker = WorkerId::from_json(&Json::text("worker-9")).unwrap();
    assert_eq!(session, SessionId(7));
    assert_eq!(turn, TurnId(4));
    assert_eq!(task, TaskId(3));
    assert_eq!(step, StepId(2));
    assert_eq!(worker, WorkerId(9));
    assert_eq!(WorkerId::for_task(TaskId(3)), WorkerId(3));
}

#[test]
fn ids_reject_non_prefixed_wire_values() {
    assert!(SessionId::from_json(&Json::text("sess-7")).is_err());
    assert!(SessionId::from_json(&number(7)).is_err());
    assert!(TaskId::from_json(&number(3)).is_err());
    assert!(StepId::from_json(&Json::text("S1")).is_err());
    assert!(SessionId::from_wire("7").is_err());
    assert!(StepId::from_wire("step-").is_err());
}

#[test]
fn command_roundtrip_uses_wire_ids() {
    let command = Command::CreateTask {
        task_id: TaskId(1),
        goal: "build".into(),
        frontend_instance_id: "fe-1".into(),
        requires_plan_approval: false,
    };
    let value = command.to_json();
    let task_id = value.get("CreateTask").unwrap().get("task_id").unwrap();
    assert_eq!(*task_id, Json::text("task-1"));

    let restored = Command::from_json(&value).unwrap();
    assert_eq!(
        restored,
        Command::CreateTask {
            task_id: TaskId(1),
            goal: "build".into(),
            frontend_instance_id: "fe-1".into(),
            requires_plan_approval: false,
        }
    );
}

#[test]
fn display_matches_wire_format() {
    assert_eq!(SessionId(1).to_wire(), "session-1");
    assert_eq!(TaskId(1).to_wire(), "task-1");
    assert_eq!(StepId(1).to_wire(), "step-1");
    assert_eq!(TurnId(1).to_wire(), "turn-1");
    assert_eq!(WorkerId(1).to_wire(), "worker-1");
    assert_eq!(TurnId(42).as_request_id(), 42);
}

#[test]
fn agent_and_approval_ids_have_prefixes() {
    assert_eq!(AgentId(7).to_wire(), "agent-7");
    assert_eq!(AgentId::from_wire(" agent-7 "), Ok(AgentId(7)));
    assert_eq!(ApprovalId(2).to_wire(), "approval-2");
    assert_eq!(ApprovalId::from_wire("approval-2"), Ok(ApprovalId(2)));
}

#[test]
fn id_errors_say_what_is_wrong() {
    assert_eq!(SessionId::from_wire("  "), Err(IdParseError::Empty));
    assert_eq!(SessionId::from_wire("  ").unwrap_err().message(), "empty id string");
    let error = TaskId::from_wire("job-1").unwrap_err();
    assert_eq!(error, IdParseError::Invalid { kind: "task", value: "job-1".to_string() });
    assert_eq!(error.message(), "invalid task id: job-1");
    assert_eq!(SessionId::from_json(&Json::Null), Err(IdJsonError::NotAString));
    assert_eq!(
        SessionId::from_json(&Json::text("")),
        Err(IdJsonError::Id(IdParseError::Empty))
    );
}

#[test]
fn id_numbers_are_read_like_rust_reads_them() {
    assert_eq!(SessionId::from_wire("session-+5"), Ok(SessionId(5)));
    assert_eq!(SessionId::from_wire("session-007"), Ok(SessionId(7)));
    assert!(SessionId::from_wire("session--1").is_err());
    assert!(SessionId::from_wire("session-1 2").is_err());
    assert!(SessionId::from_wire("session-99999999999999999999999999").is_err());
    let last = format!("session-{}", usize::MAX);
    assert_eq!(SessionId::from_wire(&last), Ok(SessionId(usize::MAX)));
    assert_eq!(SessionId(usize::MAX).to_wire(), last);
}

#[test]
fn commands_with_other_shapes_are_refused() {
    assert!(Command::from_json(&Json::text("CreateTask")).is_none());
    assert!(Command::from_json(&Json::object()).is_none());
    let body = Json::object()
        .with("task_id", Json::text("task-1"))
        .with("goal", Json::text("build"))
        .with("frontend_instance_id", Json::text("fe-1"))
        .with("requires_plan_approval", Json::Bool(true));
    let good = Json::object().with("CreateTask", body.dup());
    assert!(Command::from_json(&good).is_some());
    let two = Json::object().with("CreateTask", body.dup()).with("More", Json::Null);
    assert!(Command::from_json(&two).is_none());
    let bad_id = Json::object().with("CreateTask", body.with("task_id", Json::text("1")));
    assert!(Command::from_json(&bad_id).is_none());
}
