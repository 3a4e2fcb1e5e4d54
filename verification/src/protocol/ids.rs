//! Strongly typed identifiers.
//!
//! In memory these are numbers. On the wire, in JSON and in messages they are
//! prefixed strings: `session-1`, `task-1`, `step-1`, `turn-1`, `worker-1`.

use vstd::prelude::*;

use crate::json::{str_of, Json, JsonV};
use crate::text::{
    decimal, decimal_text, has_prefix, is_blank, is_digit, is_white, lemma_decimal_digits, lemma_parse_decimal,
    parse_usize, parsed_usize, strip_prefix, trim, trim_back, trim_front, trimmed,
};

verus! {

/// Why a string is not an id.
#[derive(Clone, Debug, PartialEq, Eq)]
pub enum IdParseError {
    /// The string is empty or blank.
    Empty,
    /// The string is not the prefix followed by a number.
    Invalid { kind: &'static str, value: String },
}

/// Why a JSON value is not an id.
#[derive(Clone, Debug, PartialEq, Eq)]
pub enum IdJsonError {
    /// The value is not a string.
    NotAString,
    /// The string is not an id.
    Id(IdParseError),
}

/// The wire form of the number `n` under `prefix`.
pub open spec fn id_wire(prefix: Seq<char>, n: usize) -> Seq<char> {
    prefix + decimal(n as nat)
}

/// The number that the wire form `value` carries under `prefix`.
pub open spec fn wire_id(value: Seq<char>, prefix: Seq<char>) -> Option<usize> {
    let t = trimmed(value);
    if has_prefix(t, prefix) {
        parsed_usize(t.subrange(prefix.len() as int, t.len() as int))
    } else {
        None
    }
}

/// What parsing `value` under `prefix` as an id of kind `kind` gives.
pub open spec fn id_parse_result(
    r: Result<usize, IdParseError>,
    value: Seq<char>,
    prefix: Seq<char>,
    kind: Seq<char>,
) -> bool {
    match r {
        Ok(n) => !is_blank(value) && wire_id(value, prefix) == Some(n),
        Err(IdParseError::Empty) => is_blank(value),
        Err(IdParseError::Invalid { kind: k, value: v }) => !is_blank(value) && wire_id(value, prefix) is None
            && k@ == kind && v@ == value,
    }
}

impl IdParseError {
    /// The text of the error.
    pub open spec fn text(self) -> Seq<char> {
        match self {
            IdParseError::Empty => "empty id string"@,
            IdParseError::Invalid { kind, value } => "invalid "@ + kind@ + " id: "@ + value@,
        }
    }

    /// The message of the error.
    pub fn message(&self) -> (r: String)
        ensures
            r@ == self.text(),
    {
        match self {
            IdParseError::Empty => "empty id string".to_owned(),
            IdParseError::Invalid { kind, value } => {
                let mut r = "invalid ".to_owned();
                r.append(kind);
                r.append(" id: ");
                r.append(value.as_str());
                r
            },
        }
    }
}

/// Reads an id: the prefix and a number, with white space around them allowed.
pub fn parse_prefixed_id(value: &str, prefix: &str, kind: &'static str) -> (r: Result<usize, IdParseError>)
    ensures
        id_parse_result(r, value@, prefix@, kind@),
{
    let t = trim(value);
    if t.is_empty() {
        return Err(IdParseError::Empty);
    }
    let rest = match strip_prefix(t, prefix) {
        Some(rest) => rest,
        None => {
            return Err(IdParseError::Invalid { kind, value: value.to_owned() });
        },
    };
    match parse_usize(rest) {
        Some(n) => Ok(n),
        None => Err(IdParseError::Invalid { kind, value: value.to_owned() }),
    }
}

/// Reading the wire form of a number gives the number back, for every prefix
/// that starts with a character other than white space.
pub proof fn law_wire_round_trip(prefix: Seq<char>, n: usize)
    requires
        prefix.len() > 0,
        !is_white(prefix[0]),
    ensures
        !is_blank(id_wire(prefix, n)),
        wire_id(id_wire(prefix, n), prefix) == Some(n),
{
    let w = id_wire(prefix, n);
    let d = decimal(n as nat);
    lemma_decimal_digits(n as nat);
    assert(w[0] == prefix[0]);
    assert(is_digit(d[d.len() - 1]));
    assert(w.last() == d.last());
    assert(!is_white(w.last()));
    assert(trim_front(w) == w);
    assert(trim_back(w) == w);
    assert(w.subrange(0, prefix.len() as int) =~= prefix);
    assert(w.subrange(prefix.len() as int, w.len() as int) =~= d);
    lemma_parse_decimal(n);
}

/// A session.
#[derive(Clone, Copy, Debug, PartialEq, Eq, Hash, Structural)]
pub struct SessionId(pub usize);

impl SessionId {
    /// The prefix of the wire form.
    pub open spec fn prefix() -> Seq<char> {
        "session-"@
    }

    /// The wire form.
    pub open spec fn wire(self) -> Seq<char> {
        id_wire("session-"@, self.0)
    }

    /// The id with the number `id`.
    pub fn new(id: usize) -> (r: SessionId)
        ensures
            r.0 == id,
    {
        SessionId(id)
    }

    /// The wire form, `session-` and the number.
    pub fn to_wire(&self) -> (r: String)
        ensures
            r@ == self.wire(),
    {
        let mut r = "session-".to_owned();
        r.append(decimal_text(self.0).as_str());
        r
    }

    /// Reads a wire form.
    pub fn from_wire(value: &str) -> (r: Result<SessionId, IdParseError>)
        ensures
            match r {
                Ok(id) => !is_blank(value@) && wire_id(value@, "session-"@) == Some(id.0),
                Err(e) => id_parse_result(Err(e), value@, "session-"@, "session"@),
            },
    {
        match parse_prefixed_id(value, "session-", "session") {
            Ok(n) => Ok(SessionId(n)),
            Err(e) => Err(e),
        }
    }

    /// The JSON form: the wire form as a string.
    pub fn to_json(&self) -> (r: Json)
        ensures
            r@ == JsonV::Str(self.wire()),
    {
        Json::Str(self.to_wire())
    }

    /// Reads a JSON form.
    pub fn from_json(j: &Json) -> (r: Result<SessionId, IdJsonError>)
        ensures
            match r {
                Ok(id) => str_of(j@) is Some && !is_blank(str_of(j@).unwrap()) && wire_id(
                    str_of(j@).unwrap(),
                    "session-"@,
                ) == Some(id.0),
                Err(IdJsonError::NotAString) => str_of(j@) is None,
                Err(IdJsonError::Id(e)) => str_of(j@) is Some && id_parse_result(
                    Err(e),
                    str_of(j@).unwrap(),
                    "session-"@,
                    "session"@,
                ),
            },
    {
        match j.as_str() {
            Some(s) => match SessionId::from_wire(s) {
                Ok(id) => Ok(id),
                Err(e) => Err(IdJsonError::Id(e)),
            },
            None => Err(IdJsonError::NotAString),
        }
    }

    /// The wire form of an id reads back as that id.
    pub proof fn law_round_trip(self)
        ensures
            !is_blank(self.wire()),
            wire_id(self.wire(), "session-"@) == Some(self.0),
    {
        reveal_strlit("session-");
        law_wire_round_trip("session-"@, self.0);
    }
}

/// A task.
#[derive(Clone, Copy, Debug, PartialEq, Eq, Hash, Structural)]
pub struct TaskId(pub usize);

impl TaskId {
    /// The prefix of the wire form.
    pub open spec fn prefix() -> Seq<char> {
        "task-"@
    }

    /// The wire form.
    pub open spec fn wire(self) -> Seq<char> {
        id_wire("task-"@, self.0)
    }

    /// The id with the number `id`.
    pub fn new(id: usize) -> (r: TaskId)
        ensures
            r.0 == id,
    {
        TaskId(id)
    }

    /// The wire form, `task-` and the number.
    pub fn to_wire(&self) -> (r: String)
        ensures
            r@ == self.wire(),
    {
        let mut r = "task-".to_owned();
        r.append(decimal_text(self.0).as_str());
        r
    }

    /// Reads a wire form.
    pub fn from_wire(value: &str) -> (r: Result<TaskId, IdParseError>)
        ensures
            match r {
                Ok(id) => !is_blank(value@) && wire_id(value@, "task-"@) == Some(id.0),
                Err(e) => id_parse_result(Err(e), value@, "task-"@, "task"@),
            },
    {
        match parse_prefixed_id(value, "task-", "task") {
            Ok(n) => Ok(TaskId(n)),
            Err(e) => Err(e),
        }
    }

    /// The JSON form: the wire form as a string.
    pub fn to_json(&self) -> (r: Json)
        ensures
            r@ == JsonV::Str(self.wire()),
    {
        Json::Str(self.to_wire())
    }

    /// Reads a JSON form.
    pub fn from_json(j: &Json) -> (r: Result<TaskId, IdJsonError>)
        ensures
            match r {
                Ok(id) => str_of(j@) is Some && !is_blank(str_of(j@).unwrap()) && wire_id(
                    str_of(j@).unwrap(),
                    "task-"@,
                ) == Some(id.0),
                Err(IdJsonError::NotAString) => str_of(j@) is None,
                Err(IdJsonError::Id(e)) => str_of(j@) is Some && id_parse_result(
                    Err(e),
                    str_of(j@).unwrap(),
                    "task-"@,
                    "task"@,
                ),
            },
    {
        match j.as_str() {
            Some(s) => match TaskId::from_wire(s) {
                Ok(id) => Ok(id),
                Err(e) => Err(IdJsonError::Id(e)),
            },
            None => Err(IdJsonError::NotAString),
        }
    }

    /// The wire form of an id reads back as that id.
    pub proof fn law_round_trip(self)
        ensures
            !is_blank(self.wire()),
            wire_id(self.wire(), "task-"@) == Some(self.0),
    {
        reveal_strlit("task-");
        law_wire_round_trip("task-"@, self.0);
    }
}

/// A step of a plan.
#[derive(Clone, Copy, Debug, PartialEq, Eq, Hash, Structural)]
pub struct StepId(pub usize);

impl StepId {
    /// The prefix of the wire form.
    pub open spec fn prefix() -> Seq<char> {
        "step-"@
    }

    /// The wire form.
    pub open spec fn wire(self) -> Seq<char> {
        id_wire("step-"@, self.0)
    }

    /// The id with the number `id`.
    pub fn new(id: usize) -> (r: StepId)
        ensures
            r.0 == id,
    {
        StepId(id)
    }

    /// The wire form, `step-` and the number.
    pub fn to_wire(&self) -> (r: String)
        ensures
            r@ == self.wire(),
    {
        let mut r = "step-".to_owned();
        r.append(decimal_text(self.0).as_str());
        r
    }

    /// Reads a wire form.
    pub fn from_wire(value: &str) -> (r: Result<StepId, IdParseError>)
        ensures
            match r {
                Ok(id) => !is_blank(value@) && wire_id(value@, "step-"@) == Some(id.0),
                Err(e) => id_parse_result(Err(e), value@, "step-"@, "step"@),
            },
    {
        match parse_prefixed_id(value, "step-", "step") {
            Ok(n) => Ok(StepId(n)),
            Err(e) => Err(e),
        }
    }

    /// The JSON form: the wire form as a string.
    pub fn to_json(&self) -> (r: Json)
        ensures
            r@ == JsonV::Str(self.wire()),
    {
        Json::Str(self.to_wire())
    }

    /// Reads a JSON form.
    pub fn from_json(j: &Json) -> (r: Result<StepId, IdJsonError>)
        ensures
            match r {
                Ok(id) => str_of(j@) is Some && !is_blank(str_of(j@).unwrap()) && wire_id(
                    str_of(j@).unwrap(),
                    "step-"@,
                ) == Some(id.0),
                Err(IdJsonError::NotAString) => str_of(j@) is None,
                Err(IdJsonError::Id(e)) => str_of(j@) is Some && id_parse_result(
                    Err(e),
                    str_of(j@).unwrap(),
                    "step-"@,
                    "step"@,
                ),
            },
    {
        match j.as_str() {
            Some(s) => match StepId::from_wire(s) {
                Ok(id) => Ok(id),
                Err(e) => Err(IdJsonError::Id(e)),
            },
            None => Err(IdJsonError::NotAString),
        }
    }

    /// The wire form of an id reads back as that id.
    pub proof fn law_round_trip(self)
        ensures
            !is_blank(self.wire()),
            wire_id(self.wire(), "step-"@) == Some(self.0),
    {
        reveal_strlit("step-");
        law_wire_round_trip("step-"@, self.0);
    }
}

/// A turn.
#[derive(Clone, Copy, Debug, PartialEq, Eq, Hash, Structural)]
pub struct TurnId(pub usize);

impl TurnId {
    /// The prefix of the wire form.
    pub open spec fn prefix() -> Seq<char> {
        "turn-"@
    }

    /// The wire form.
    pub open spec fn wire(self) -> Seq<char> {
        id_wire("turn-"@, self.0)
    }

    /// The id with the number `id`.
    pub fn new(id: usize) -> (r: TurnId)
        ensures
            r.0 == id,
    {
        TurnId(id)
    }

    /// The wire form, `turn-` and the number.
    pub fn to_wire(&self) -> (r: String)
        ensures
            r@ == self.wire(),
    {
        let mut r = "turn-".to_owned();
        r.append(decimal_text(self.0).as_str());
        r
    }

    /// Reads a wire form.
    pub fn from_wire(value: &str) -> (r: Result<TurnId, IdParseError>)
        ensures
            match r {
                Ok(id) => !is_blank(value@) && wire_id(value@, "turn-"@) == Some(id.0),
                Err(e) => id_parse_result(Err(e), value@, "turn-"@, "turn"@),
            },
    {
        match parse_prefixed_id(value, "turn-", "turn") {
            Ok(n) => Ok(TurnId(n)),
            Err(e) => Err(e),
        }
    }

    /// The JSON form: the wire form as a string.
    pub fn to_json(&self) -> (r: Json)
        ensures
            r@ == JsonV::Str(self.wire()),
    {
        Json::Str(self.to_wire())
    }

    /// Reads a JSON form.
    pub fn from_json(j: &Json) -> (r: Result<TurnId, IdJsonError>)
        ensures
            match r {
                Ok(id) => str_of(j@) is Some && !is_blank(str_of(j@).unwrap()) && wire_id(
                    str_of(j@).unwrap(),
                    "turn-"@,
                ) == Some(id.0),
                Err(IdJsonError::NotAString) => str_of(j@) is None,
                Err(IdJsonError::Id(e)) => str_of(j@) is Some && id_parse_result(
                    Err(e),
                    str_of(j@).unwrap(),
                    "turn-"@,
                    "turn"@,
                ),
            },
    {
        match j.as_str() {
            Some(s) => match TurnId::from_wire(s) {
                Ok(id) => Ok(id),
                Err(e) => Err(IdJsonError::Id(e)),
            },
            None => Err(IdJsonError::NotAString),
        }
    }

    /// The wire form of an id reads back as that id.
    pub proof fn law_round_trip(self)
        ensures
            !is_blank(self.wire()),
            wire_id(self.wire(), "turn-"@) == Some(self.0),
    {
        reveal_strlit("turn-");
        law_wire_round_trip("turn-"@, self.0);
    }
}

/// A worker instance.
#[derive(Clone, Copy, Debug, PartialEq, Eq, Hash, Structural)]
pub struct WorkerId(pub usize);

impl WorkerId {
    /// The prefix of the wire form.
    pub open spec fn prefix() -> Seq<char> {
        "worker-"@
    }

    /// The wire form.
    pub open spec fn wire(self) -> Seq<char> {
        id_wire("worker-"@, self.0)
    }

    /// The id with the number `id`.
    pub fn new(id: usize) -> (r: WorkerId)
        ensures
            r.0 == id,
    {
        WorkerId(id)
    }

    /// The wire form, `worker-` and the number.
    pub fn to_wire(&self) -> (r: String)
        ensures
            r@ == self.wire(),
    {
        let mut r = "worker-".to_owned();
        r.append(decimal_text(self.0).as_str());
        r
    }

    /// Reads a wire form.
    pub fn from_wire(value: &str) -> (r: Result<WorkerId, IdParseError>)
        ensures
            match r {
                Ok(id) => !is_blank(value@) && wire_id(value@, "worker-"@) == Some(id.0),
                Err(e) => id_parse_result(Err(e), value@, "worker-"@, "worker"@),
            },
    {
        match parse_prefixed_id(value, "worker-", "worker") {
            Ok(n) => Ok(WorkerId(n)),
            Err(e) => Err(e),
        }
    }

    /// The JSON form: the wire form as a string.
    pub fn to_json(&self) -> (r: Json)
        ensures
            r@ == JsonV::Str(self.wire()),
    {
        Json::Str(self.to_wire())
    }

    /// Reads a JSON form.
    pub fn from_json(j: &Json) -> (r: Result<WorkerId, IdJsonError>)
        ensures
            match r {
                Ok(id) => str_of(j@) is Some && !is_blank(str_of(j@).unwrap()) && wire_id(
                    str_of(j@).unwrap(),
                    "worker-"@,
                ) == Some(id.0),
                Err(IdJsonError::NotAString) => str_of(j@) is None,
                Err(IdJsonError::Id(e)) => str_of(j@) is Some && id_parse_result(
                    Err(e),
                    str_of(j@).unwrap(),
                    "worker-"@,
                    "worker"@,
                ),
            },
    {
        match j.as_str() {
            Some(s) => match WorkerId::from_wire(s) {
                Ok(id) => Ok(id),
                Err(e) => Err(IdJsonError::Id(e)),
            },
            None => Err(IdJsonError::NotAString),
        }
    }

    /// The wire form of an id reads back as that id.
    pub proof fn law_round_trip(self)
        ensures
            !is_blank(self.wire()),
            wire_id(self.wire(), "worker-"@) == Some(self.0),
    {
        reveal_strlit("worker-");
        law_wire_round_trip("worker-"@, self.0);
    }
}

/// An agent of an agent graph.
#[derive(Clone, Copy, Debug, PartialEq, Eq, Hash, Structural)]
pub struct AgentId(pub usize);

impl AgentId {
    /// The prefix of the wire form.
    pub open spec fn prefix() -> Seq<char> {
        "agent-"@
    }

    /// The wire form.
    pub open spec fn wire(self) -> Seq<char> {
        id_wire("agent-"@, self.0)
    }

    /// The id with the number `id`.
    pub fn new(id: usize) -> (r: AgentId)
        ensures
            r.0 == id,
    {
        AgentId(id)
    }

    /// The wire form, `agent-` and the number.
    pub fn to_wire(&self) -> (r: String)
        ensures
            r@ == self.wire(),
    {
        let mut r = "agent-".to_owned();
        r.append(decimal_text(self.0).as_str());
        r
    }

    /// Reads a wire form.
    pub fn from_wire(value: &str) -> (r: Result<AgentId, IdParseError>)
        ensures
            match r {
                Ok(id) => !is_blank(value@) && wire_id(value@, "agent-"@) == Some(id.0),
                Err(e) => id_parse_result(Err(e), value@, "agent-"@, "agent"@),
            },
    {
        match parse_prefixed_id(value, "agent-", "agent") {
            Ok(n) => Ok(AgentId(n)),
            Err(e) => Err(e),
        }
    }

    /// The JSON form: the wire form as a string.
    pub fn to_json(&self) -> (r: Json)
        ensures
            r@ == JsonV::Str(self.wire()),
    {
        Json::Str(self.to_wire())
    }

    /// Reads a JSON form.
    pub fn from_json(j: &Json) -> (r: Result<AgentId, IdJsonError>)
        ensures
            match r {
                Ok(id) => str_of(j@) is Some && !is_blank(str_of(j@).unwrap()) && wire_id(
                    str_of(j@).unwrap(),
                    "agent-"@,
                ) == Some(id.0),
                Err(IdJsonError::NotAString) => str_of(j@) is None,
                Err(IdJsonError::Id(e)) => str_of(j@) is Some && id_parse_result(
                    Err(e),
                    str_of(j@).unwrap(),
                    "agent-"@,
                    "agent"@,
                ),
            },
    {
        match j.as_str() {
            Some(s) => match AgentId::from_wire(s) {
                Ok(id) => Ok(id),
                Err(e) => Err(IdJsonError::Id(e)),
            },
            None => Err(IdJsonError::NotAString),
        }
    }

    /// The wire form of an id reads back as that id.
    pub proof fn law_round_trip(self)
        ensures
            !is_blank(self.wire()),
            wire_id(self.wire(), "agent-"@) == Some(self.0),
    {
        reveal_strlit("agent-");
        law_wire_round_trip("agent-"@, self.0);
    }
}

/// An approval request of one agent.
#[derive(Clone, Copy, Debug, PartialEq, Eq, Hash, Structural)]
pub struct ApprovalId(pub usize);

impl ApprovalId {
    /// The prefix of the wire form.
    pub open spec fn prefix() -> Seq<char> {
        "approval-"@
    }

    /// The wire form.
    pub open spec fn wire(self) -> Seq<char> {
        id_wire("approval-"@, self.0)
    }

    /// The id with the number `id`.
    pub fn new(id: usize) -> (r: ApprovalId)
        ensures
            r.0 == id,
    {
        ApprovalId(id)
    }

    /// The wire form, `approval-` and the number.
    pub fn to_wire(&self) -> (r: String)
        ensures
            r@ == self.wire(),
    {
        let mut r = "approval-".to_owned();
        r.append(decimal_text(self.0).as_str());
        r
    }

    /// Reads a wire form.
    pub fn from_wire(value: &str) -> (r: Result<ApprovalId, IdParseError>)
        ensures
            match r {
                Ok(id) => !is_blank(value@) && wire_id(value@, "approval-"@) == Some(id.0),
                Err(e) => id_parse_result(Err(e), value@, "approval-"@, "approval"@),
            },
    {
        match parse_prefixed_id(value, "approval-", "approval") {
            Ok(n) => Ok(ApprovalId(n)),
            Err(e) => Err(e),
        }
    }

    /// The JSON form: the wire form as a string.
    pub fn to_json(&self) -> (r: Json)
        ensures
            r@ == JsonV::Str(self.wire()),
    {
        Json::Str(self.to_wire())
    }

    /// Reads a JSON form.
    pub fn from_json(j: &Json) -> (r: Result<ApprovalId, IdJsonError>)
        ensures
            match r {
                Ok(id) => str_of(j@) is Some && !is_blank(str_of(j@).unwrap()) && wire_id(
                    str_of(j@).unwrap(),
                    "approval-"@,
                ) == Some(id.0),
                Err(IdJsonError::NotAString) => str_of(j@) is None,
                Err(IdJsonError::Id(e)) => str_of(j@) is Some && id_parse_result(
                    Err(e),
                    str_of(j@).unwrap(),
                    "approval-"@,
                    "approval"@,
                ),
            },
    {
        match j.as_str() {
            Some(s) => match ApprovalId::from_wire(s) {
                Ok(id) => Ok(id),
                Err(e) => Err(IdJsonError::Id(e)),
            },
            None => Err(IdJsonError::NotAString),
        }
    }

    /// The wire form of an id reads back as that id.
    pub proof fn law_round_trip(self)
        ensures
            !is_blank(self.wire()),
            wire_id(self.wire(), "approval-"@) == Some(self.0),
    {
        reveal_strlit("approval-");
        law_wire_round_trip("approval-"@, self.0);
    }
}

/// An iteration within one task.
#[derive(Clone, Copy, Debug, PartialEq, Eq, Hash, Structural)]
pub struct IterationId(pub usize);

impl IterationId {
    /// The prefix of the wire form.
    pub open spec fn prefix() -> Seq<char> {
        "iteration-"@
    }

    /// The wire form.
    pub open spec fn wire(self) -> Seq<char> {
        id_wire("iteration-"@, self.0)
    }

    /// The id with the number `id`.
    pub fn new(id: usize) -> (r: IterationId)
        ensures
            r.0 == id,
    {
        IterationId(id)
    }

    /// The wire form, `iteration-` and the number.
    pub fn to_wire(&self) -> (r: String)
        ensures
            r@ == self.wire(),
    {
        let mut r = "iteration-".to_owned();
        r.append(decimal_text(self.0).as_str());
        r
    }

    /// Reads a wire form.
    pub fn from_wire(value: &str) -> (r: Result<IterationId, IdParseError>)
        ensures
            match r {
                Ok(id) => !is_blank(value@) && wire_id(value@, "iteration-"@) == Some(id.0),
                Err(e) => id_parse_result(Err(e), value@, "iteration-"@, "iteration"@),
            },
    {
        match parse_prefixed_id(value, "iteration-", "iteration") {
            Ok(n) => Ok(IterationId(n)),
            Err(e) => Err(e),
        }
    }

    /// The JSON form: the wire form as a string.
    pub fn to_json(&self) -> (r: Json)
        ensures
            r@ == JsonV::Str(self.wire()),
    {
        Json::Str(self.to_wire())
    }

    /// Reads a JSON form.
    pub fn from_json(j: &Json) -> (r: Result<IterationId, IdJsonError>)
        ensures
            match r {
                Ok(id) => str_of(j@) is Some && !is_blank(str_of(j@).unwrap()) && wire_id(
                    str_of(j@).unwrap(),
                    "iteration-"@,
                ) == Some(id.0),
                Err(IdJsonError::NotAString) => str_of(j@) is None,
                Err(IdJsonError::Id(e)) => str_of(j@) is Some && id_parse_result(
                    Err(e),
                    str_of(j@).unwrap(),
                    "iteration-"@,
                    "iteration"@,
                ),
            },
    {
        match j.as_str() {
            Some(s) => match IterationId::from_wire(s) {
                Ok(id) => Ok(id),
                Err(e) => Err(IdJsonError::Id(e)),
            },
            None => Err(IdJsonError::NotAString),
        }
    }

    /// The wire form of an id reads back as that id.
    pub proof fn law_round_trip(self)
        ensures
            !is_blank(self.wire()),
            wire_id(self.wire(), "iteration-"@) == Some(self.0),
    {
        reveal_strlit("iteration-");
        law_wire_round_trip("iteration-"@, self.0);
    }
}

impl TurnId {
    /// The number as a 32-bit request id; the higher bits are dropped.
    pub fn as_request_id(self) -> (r: u32)
        ensures
            r == self.0 as u32,
    {
        #[verifier::truncate]
        (self.0 as u32)
    }
}

impl WorkerId {
    /// The worker of a task: one worker instance per task, with the same number.
    pub fn for_task(task_id: TaskId) -> (r: WorkerId)
        ensures
            r.0 == task_id.0,
    {
        WorkerId(task_id.0)
    }
}

/// An id is read from its own notation, with white space around it; what is blank is
/// empty, and anything else is invalid and is named as it was given.
pub proof fn law_id_is_read_from_its_own_notation(
    r: Result<usize, IdParseError>,
    value: Seq<char>,
    prefix: Seq<char>,
    kind: Seq<char>,
)
    requires
        id_parse_result(r, value, prefix, kind),
    ensures
        is_blank(value) <==> r matches Err(IdParseError::Empty),
        r matches Ok(n) ==> has_prefix(trimmed(value), prefix) && parsed_usize(trimmed(value).skip(prefix.len() as int))
            == Some(n),
        !is_blank(value) && !has_prefix(trimmed(value), prefix) ==> r is Err,
        r matches Err(IdParseError::Invalid { kind: k, value: v }) ==> k@ == kind && v@ == value,
        !is_blank(value) && has_prefix(trimmed(value), prefix) && parsed_usize(
            trimmed(value).skip(prefix.len() as int),
        ) is Some ==> r is Ok,
{
    let t = trimmed(value);
    if has_prefix(t, prefix) {
        assert(t.skip(prefix.len() as int) =~= t.subrange(prefix.len() as int, t.len() as int));
    }
}

/// An id that cannot be read says why.
pub proof fn law_unreadable_id_says_why(e: IdParseError)
    ensures
        e is Empty ==> e.text() == "empty id string"@,
        e matches IdParseError::Invalid { kind, value } ==> e.text() == "invalid "@ + kind@ + " id: "@ + value@,
{
}

/// Two ids of one kind with one notation are the same, whatever they name.
pub proof fn law_notation_tells_ids_apart(prefix: Seq<char>, a: usize, b: usize)
    requires
        id_wire(prefix, a) == id_wire(prefix, b),
    ensures
        a == b,
{
    let n = prefix.len() as int;
    assert(id_wire(prefix, a).skip(n) =~= decimal(a as nat));
    assert(id_wire(prefix, b).skip(n) =~= decimal(b as nat));
    lemma_decimal_digits(a as nat);
    lemma_decimal_digits(b as nat);
}

/// Ids are written as the prefix of their kind and their number.
pub proof fn law_ids_are_written_with_their_prefix(n: usize)
    ensures
        SessionId(n).wire() == SessionId::prefix() + decimal(n as nat) && SessionId::prefix() == "session-"@,
        TaskId(n).wire() == TaskId::prefix() + decimal(n as nat) && TaskId::prefix() == "task-"@,
        StepId(n).wire() == StepId::prefix() + decimal(n as nat) && StepId::prefix() == "step-"@,
        TurnId(n).wire() == TurnId::prefix() + decimal(n as nat) && TurnId::prefix() == "turn-"@,
        WorkerId(n).wire() == WorkerId::prefix() + decimal(n as nat) && WorkerId::prefix() == "worker-"@,
        AgentId(n).wire() == AgentId::prefix() + decimal(n as nat) && AgentId::prefix() == "agent-"@,
        ApprovalId(n).wire() == ApprovalId::prefix() + decimal(n as nat) && ApprovalId::prefix() == "approval-"@,
        IterationId(n).wire() == IterationId::prefix() + decimal(n as nat) && IterationId::prefix() == "iteration-"@,
{
}

} // verus!
