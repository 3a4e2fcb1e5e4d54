//! Validated structured outputs of the model, one schema per phase.

use vstd::prelude::*;

use crate::document::{
    complaint, doc_of, field, fits, json_complaint, open_doc, optional_text, refusal, refuse, text_found, texts_found,
    DocV, Found, FoundV,
};
use crate::json::{dup_items, items_view, Json, JsonV};
use crate::protocol::ids::{wire_id, StepId};
use crate::text::{is_blank, opt_view, str_eq, string_is, trim, trimmed, views};

verus! {

/// Parsed and schema-validated model output for one semantic phase.
#[derive(Debug, PartialEq, Eq)]
pub enum ValidatedLlmOutput {
    FrontendIntake { action: FrontendIntakeAction, message: Option<String> },
    FrontendReport { summary: String },
    WorkerPlan { steps: Vec<StepId> },
    WorkerVerify { passed: bool, summary: Option<String> },
}

/// What the frontend makes of a request.
#[derive(Clone, Copy, Debug, PartialEq, Eq, Structural)]
pub enum FrontendIntakeAction {
    TaskUnderstood,
    NeedClarification,
}

/// Why a model output is refused.
#[derive(Debug, PartialEq, Eq)]
pub enum LlmOutputError {
    /// The text is empty or blank.
    Empty,
    /// The text is not JSON, or not of the shape of an output.
    InvalidJson(String),
    /// The action is none of the schema's.
    ActionMismatch { expected: &'static str, action: String },
    /// A field that the schema needs is missing or empty.
    MissingField(&'static str),
    /// A field has a value that the schema does not allow.
    InvalidField(&'static str),
    /// There is no such schema.
    UnknownSchema(String),
}

/// What a [`ValidatedLlmOutput`] holds.
pub enum OutputV {
    FrontendIntake { action: FrontendIntakeAction, message: Option<Seq<char>> },
    FrontendReport { summary: Seq<char> },
    WorkerPlan { steps: Seq<StepId> },
    WorkerVerify { passed: bool, summary: Option<Seq<char>> },
}

/// What an [`LlmOutputError`] holds.
pub enum OutputErrorV {
    Empty,
    InvalidJson(Seq<char>),
    ActionMismatch { expected: Seq<char>, action: Seq<char> },
    MissingField(Seq<char>),
    InvalidField(Seq<char>),
    UnknownSchema(Seq<char>),
}

impl View for ValidatedLlmOutput {
    type V = OutputV;

    open spec fn view(&self) -> OutputV {
        match *self {
            ValidatedLlmOutput::FrontendIntake { action, message } => OutputV::FrontendIntake {
                action,
                message: opt_view(message),
            },
            ValidatedLlmOutput::FrontendReport { summary } => OutputV::FrontendReport { summary: summary@ },
            ValidatedLlmOutput::WorkerPlan { steps } => OutputV::WorkerPlan { steps: steps@ },
            ValidatedLlmOutput::WorkerVerify { passed, summary } => OutputV::WorkerVerify {
                passed,
                summary: opt_view(summary),
            },
        }
    }
}

impl View for LlmOutputError {
    type V = OutputErrorV;

    open spec fn view(&self) -> OutputErrorV {
        match *self {
            LlmOutputError::Empty => OutputErrorV::Empty,
            LlmOutputError::InvalidJson(s) => OutputErrorV::InvalidJson(s@),
            LlmOutputError::ActionMismatch { expected, action } => OutputErrorV::ActionMismatch {
                expected: expected@,
                action: action@,
            },
            LlmOutputError::MissingField(f) => OutputErrorV::MissingField(f@),
            LlmOutputError::InvalidField(f) => OutputErrorV::InvalidField(f@),
            LlmOutputError::UnknownSchema(s) => OutputErrorV::UnknownSchema(s@),
        }
    }
}

/// What a validation gives.
pub open spec fn output_view(r: Result<ValidatedLlmOutput, LlmOutputError>) -> Result<OutputV, OutputErrorV> {
    match r {
        Ok(o) => Ok(o@),
        Err(e) => Err(e@),
    }
}

impl LlmOutputError {
    /// The text of the error.
    pub open spec fn text(self) -> Seq<char> {
        match self {
            LlmOutputError::Empty => "empty model text"@,
            LlmOutputError::InvalidJson(s) => "invalid json: "@ + s@,
            LlmOutputError::ActionMismatch { expected, action } => "schema mismatch: expected "@ + expected@
                + ", got "@ + action@,
            LlmOutputError::MissingField(f) => "missing field: "@ + f@,
            LlmOutputError::InvalidField(f) => "invalid field: "@ + f@,
            LlmOutputError::UnknownSchema(s) => "unknown schema: "@ + s@,
        }
    }

    /// The message of the error.
    pub fn message(&self) -> (r: String)
        ensures
            r@ == self.text(),
    {
        match self {
            LlmOutputError::Empty => "empty model text".to_owned(),
            LlmOutputError::InvalidJson(s) => "invalid json: ".to_owned().concat(s.as_str()),
            LlmOutputError::ActionMismatch { expected, action } => "schema mismatch: expected ".to_owned().concat(
                expected,
            ).concat(", got ").concat(action.as_str()),
            LlmOutputError::MissingField(f) => "missing field: ".to_owned().concat(f),
            LlmOutputError::InvalidField(f) => "invalid field: ".to_owned().concat(f),
            LlmOutputError::UnknownSchema(s) => "unknown schema: ".to_owned().concat(s.as_str()),
        }
    }
}

/// The schema text for a phase.
pub open spec fn schema_json(name: Seq<char>) -> Option<Seq<char>> {
    if name == "frontend_intake"@ {
        Some("{\"action\":\"task_understood|need_clarification\",\"message\":\"optional string\"}"@)
    } else if name == "frontend_delegate"@ {
        Some("{\"action\":\"delegate_ack\"}"@)
    } else if name == "frontend_watch"@ {
        Some("{\"action\":\"watch_ack\"}"@)
    } else if name == "frontend_report"@ {
        Some("{\"action\":\"report_ready\",\"summary\":\"string\"}"@)
    } else if name == "worker_plan"@ {
        Some("{\"action\":\"plan_ready\",\"steps\":[\"step-1\",\"step-2\"]}"@)
    } else if name == "worker_act"@ {
        Some("{\"action\":\"step_executed\",\"observation\":\"optional string\"}"@)
    } else if name == "worker_verify"@ {
        Some("{\"action\":\"verify_passed|verify_failed\",\"summary\":\"optional string\"}"@)
    } else {
        None
    }
}

/// The JSON schema text that the system prompt of a phase carries.
pub fn schema_json_for_name(name: &str) -> (r: Option<&'static str>)
    ensures
        match r {
            Some(s) => schema_json(name@) == Some(s@),
            None => schema_json(name@) is None,
        },
{
    if str_eq(name, "frontend_intake") {
        Some("{\"action\":\"task_understood|need_clarification\",\"message\":\"optional string\"}")
    } else if str_eq(name, "frontend_delegate") {
        Some("{\"action\":\"delegate_ack\"}")
    } else if str_eq(name, "frontend_watch") {
        Some("{\"action\":\"watch_ack\"}")
    } else if str_eq(name, "frontend_report") {
        Some("{\"action\":\"report_ready\",\"summary\":\"string\"}")
    } else if str_eq(name, "worker_plan") {
        Some("{\"action\":\"plan_ready\",\"steps\":[\"step-1\",\"step-2\"]}")
    } else if str_eq(name, "worker_act") {
        Some("{\"action\":\"step_executed\",\"observation\":\"optional string\"}")
    } else if str_eq(name, "worker_verify") {
        Some("{\"action\":\"verify_passed|verify_failed\",\"summary\":\"optional string\"}")
    } else {
        None
    }
}

/// A model output before its schema is looked at.
#[derive(Debug, PartialEq, Eq)]
pub struct RawOutput {
    pub action: String,
    pub message: Option<String>,
    pub summary: Option<String>,
    pub steps: Vec<String>,
    pub observation: Option<String>,
}

/// What a [`RawOutput`] holds.
#[verifier::ext_equal]
pub struct RawV {
    pub action: Seq<char>,
    pub message: Option<Seq<char>>,
    pub summary: Option<Seq<char>>,
    pub steps: Seq<Seq<char>>,
    pub observation: Option<Seq<char>>,
}

impl View for RawOutput {
    type V = RawV;

    open spec fn view(&self) -> RawV {
        RawV {
            action: self.action@,
            message: opt_view(self.message),
            summary: opt_view(self.summary),
            steps: views(self.steps@),
            observation: opt_view(self.observation),
        }
    }
}

/// The fields of an output as a document gives them.
#[derive(Debug, PartialEq)]
pub struct OutputFields {
    pub action: Found,
    pub message: Found,
    pub summary: Found,
    pub steps: Found,
    pub observation: Found,
}

/// What [`OutputFields`] hold.
pub struct OutputFieldsV {
    pub action: FoundV,
    pub message: FoundV,
    pub summary: FoundV,
    pub steps: FoundV,
    pub observation: FoundV,
}

impl View for OutputFields {
    type V = OutputFieldsV;

    open spec fn view(&self) -> OutputFieldsV {
        OutputFieldsV {
            action: self.action@,
            message: self.message@,
            summary: self.summary@,
            steps: self.steps@,
            observation: self.observation@,
        }
    }
}

/// The fields of the output that a text is: an object, or a list of at most five.
pub open spec fn output_fields(text: Seq<char>) -> Option<OutputFieldsV> {
    match doc_of(text) {
        Some(d) => if fits(d, 5) {
            Some(
                OutputFieldsV {
                    action: field(d, "action"@, 0),
                    message: field(d, "message"@, 1),
                    summary: field(d, "summary"@, 2),
                    steps: field(d, "steps"@, 3),
                    observation: field(d, "observation"@, 4),
                },
            )
        } else {
            None
        },
        None => None,
    }
}

fn open_output(text: &str) -> (r: Option<OutputFields>)
    ensures
        match r {
            Some(f) => output_fields(text@) == Some(f@),
            None => output_fields(text@) is None,
        },
{
    match open_doc(text) {
        Some(d) => if d.fits(5) {
            Some(
                OutputFields {
                    action: d.field("action", 0),
                    message: d.field("message", 1),
                    summary: d.field("summary", 2),
                    steps: d.field("steps", 3),
                    observation: d.field("observation", 4),
                },
            )
        } else {
            None
        },
        None => None,
    }
}

/// The steps of an output: none where the field is missing.
pub open spec fn steps_found(f: FoundV) -> Option<Seq<Seq<char>>> {
    match f {
        FoundV::Missing => Some(Seq::empty()),
        _ => texts_found(f),
    }
}

/// The output that fields make. The action must be there, and each of the others is
/// what it should be where it is there.
pub open spec fn raw_output(f: OutputFieldsV) -> Option<RawV> {
    match (
        text_found(f.action),
        optional_text(f.message),
        optional_text(f.summary),
        steps_found(f.steps),
        optional_text(f.observation),
    ) {
        (Some(action), Some(message), Some(summary), Some(steps), Some(observation)) => Some(
            RawV { action, message, summary, steps, observation },
        ),
        _ => None,
    }
}

/// Reads the output that fields make.
pub fn read_raw_output(f: &OutputFields) -> (r: Option<RawOutput>)
    ensures
        match r {
            Some(o) => raw_output(f@) == Some(o@),
            None => raw_output(f@) is None,
        },
{
    let steps = match &f.steps {
        Found::Missing => {
            let none: Vec<String> = Vec::new();
            assert(views(none@) =~= Seq::<Seq<char>>::empty());
            Some(none)
        },
        found => found.texts(),
    };
    match (
        f.action.text(),
        f.message.optional_text(),
        f.summary.optional_text(),
        steps,
        f.observation.optional_text(),
    ) {
        (Some(action), Some(message), Some(summary), Some(steps), Some(observation)) => Some(
            RawOutput { action, message, summary, steps, observation },
        ),
        _ => None,
    }
}

/// The ids of the first `n` steps, where each of them is one.
pub open spec fn step_ids(steps: Seq<Seq<char>>, n: nat) -> Option<Seq<StepId>>
    decreases n,
{
    if n == 0 || n > steps.len() {
        Some(Seq::empty())
    } else {
        let s = steps[n - 1];
        match (step_ids(steps, (n - 1) as nat), wire_id(s, "step-"@)) {
            (Some(ids), Some(id)) => if is_blank(s) {
                None
            } else {
                Some(ids.push(StepId(id)))
            },
            _ => None,
        }
    }
}

/// What an output says under a schema.
pub open spec fn validated(schema: Seq<char>, raw: RawV) -> Result<OutputV, OutputErrorV> {
    if schema == "frontend_intake"@ {
        if raw.action == "task_understood"@ {
            Ok(
                OutputV::FrontendIntake {
                    action: FrontendIntakeAction::TaskUnderstood,
                    message: raw.message,
                },
            )
        } else if raw.action == "need_clarification"@ {
            Ok(
                OutputV::FrontendIntake {
                    action: FrontendIntakeAction::NeedClarification,
                    message: raw.message,
                },
            )
        } else {
            Err(
                OutputErrorV::ActionMismatch {
                    expected: "task_understood|need_clarification"@,
                    action: raw.action,
                },
            )
        }
    } else if schema == "frontend_report"@ {
        if raw.action != "report_ready"@ {
            Err(OutputErrorV::ActionMismatch { expected: "report_ready"@, action: raw.action })
        } else {
            match raw.summary {
                Some(s) => if s.len() > 0 {
                    Ok(OutputV::FrontendReport { summary: s })
                } else {
                    Err(OutputErrorV::MissingField("summary"@))
                },
                None => Err(OutputErrorV::MissingField("summary"@)),
            }
        }
    } else if schema == "worker_plan"@ {
        if raw.action != "plan_ready"@ {
            Err(OutputErrorV::ActionMismatch { expected: "plan_ready"@, action: raw.action })
        } else if raw.steps.len() == 0 {
            Err(OutputErrorV::MissingField("steps"@))
        } else {
            match step_ids(raw.steps, raw.steps.len()) {
                Some(ids) => Ok(OutputV::WorkerPlan { steps: ids }),
                None => Err(OutputErrorV::InvalidField("steps"@)),
            }
        }
    } else if schema == "worker_verify"@ {
        if raw.action == "verify_passed"@ {
            Ok(OutputV::WorkerVerify { passed: true, summary: raw.summary })
        } else if raw.action == "verify_failed"@ {
            Ok(OutputV::WorkerVerify { passed: false, summary: raw.summary })
        } else {
            Err(OutputErrorV::ActionMismatch { expected: "verify_passed|verify_failed"@, action: raw.action })
        }
    } else {
        Err(OutputErrorV::UnknownSchema(schema))
    }
}

proof fn lemma_step_ids_fail(s: Seq<Seq<char>>, n: nat, k: nat)
    requires
        n <= k <= s.len(),
        step_ids(s, n) is None,
    ensures
        step_ids(s, k) is None,
    decreases k - n,
{
    if n < k {
        lemma_step_ids_fail(s, n, (k - 1) as nat);
    }
}

fn read_step_ids(steps: &Vec<String>) -> (r: Option<Vec<StepId>>)
    ensures
        match r {
            Some(ids) => step_ids(views(steps@), steps@.len()) == Some(ids@),
            None => step_ids(views(steps@), steps@.len()) is None,
        },
{
    let mut out: Vec<StepId> = Vec::new();
    let mut i: usize = 0;
    while i < steps.len()
        invariant
            i <= steps@.len(),
            step_ids(views(steps@), i as nat) == Some(out@),
        decreases steps@.len() - i,
    {
        assert(views(steps@)[i as int] == steps@[i as int]@);
        match StepId::from_wire(steps[i].as_str()) {
            Ok(id) => {
                let ghost before = out@;
                out.push(id);
            },
            Err(_) => {
                proof {
                    lemma_step_ids_fail(views(steps@), (i + 1) as nat, steps@.len());
                }
                return None;
            },
        }
        i = i + 1;
    }
    Some(out)
}

/// Validates an output against a schema.
pub fn validate_output(schema_name: &str, raw: RawOutput) -> (r: Result<ValidatedLlmOutput, LlmOutputError>)
    ensures
        output_view(r) == validated(schema_name@, raw@),
{
    if str_eq(schema_name, "frontend_intake") {
        if string_is(&raw.action, "task_understood") {
            Ok(
                ValidatedLlmOutput::FrontendIntake {
                    action: FrontendIntakeAction::TaskUnderstood,
                    message: raw.message,
                },
            )
        } else if string_is(&raw.action, "need_clarification") {
            Ok(
                ValidatedLlmOutput::FrontendIntake {
                    action: FrontendIntakeAction::NeedClarification,
                    message: raw.message,
                },
            )
        } else {
            Err(
                LlmOutputError::ActionMismatch {
                    expected: "task_understood|need_clarification",
                    action: raw.action,
                },
            )
        }
    } else if str_eq(schema_name, "frontend_report") {
        if !string_is(&raw.action, "report_ready") {
            return Err(LlmOutputError::ActionMismatch { expected: "report_ready", action: raw.action });
        }
        match raw.summary {
            Some(summary) => if summary.as_str().is_empty() {
                Err(LlmOutputError::MissingField("summary"))
            } else {
                Ok(ValidatedLlmOutput::FrontendReport { summary })
            },
            None => Err(LlmOutputError::MissingField("summary")),
        }
    } else if str_eq(schema_name, "worker_plan") {
        if !string_is(&raw.action, "plan_ready") {
            return Err(LlmOutputError::ActionMismatch { expected: "plan_ready", action: raw.action });
        }
        if raw.steps.len() == 0 {
            return Err(LlmOutputError::MissingField("steps"));
        }
        match read_step_ids(&raw.steps) {
            Some(steps) => Ok(ValidatedLlmOutput::WorkerPlan { steps }),
            None => Err(LlmOutputError::InvalidField("steps")),
        }
    } else if str_eq(schema_name, "worker_verify") {
        if string_is(&raw.action, "verify_passed") {
            Ok(ValidatedLlmOutput::WorkerVerify { passed: true, summary: raw.summary })
        } else if string_is(&raw.action, "verify_failed") {
            Ok(ValidatedLlmOutput::WorkerVerify { passed: false, summary: raw.summary })
        } else {
            Err(
                LlmOutputError::ActionMismatch { expected: "verify_passed|verify_failed", action: raw.action },
            )
        }
    } else {
        Err(LlmOutputError::UnknownSchema(schema_name.to_owned()))
    }
}

/// What a JSON text says under a schema. A text that is no output is refused like one
/// that is no JSON.
pub open spec fn validated_document(schema: Seq<char>, text: Seq<char>) -> Result<OutputV, OutputErrorV> {
    let raw = match output_fields(text) {
        Some(f) => raw_output(f),
        None => None,
    };
    match raw {
        Some(raw) => validated(schema, raw),
        None => Err(OutputErrorV::InvalidJson(refusal(text, "not an output"@))),
    }
}

/// What a text says under a schema.
pub open spec fn validated_text(schema: Seq<char>, text: Seq<char>) -> Result<OutputV, OutputErrorV> {
    if is_blank(text) {
        Err(OutputErrorV::Empty)
    } else {
        match json_complaint(trimmed(text)) {
            Some(e) => Err(OutputErrorV::InvalidJson(refusal(trimmed(text), e))),
            None => validated_document(schema, trimmed(text)),
        }
    }
}

/// Parses a plain-text model output against the expected schema. Of a text that is
/// JSON but no output the message is this library's own; it names no place in the text.
pub fn parse_and_validate(schema_name: &str, text: &str) -> (r: Result<ValidatedLlmOutput, LlmOutputError>)
    ensures
        output_view(r) == validated_text(schema_name@, text@),
{
    let t = trim(text);
    if t.is_empty() {
        return Err(LlmOutputError::Empty);
    }
    if let Some(e) = complaint(t) {
        return Err(LlmOutputError::InvalidJson(refuse(t, e)));
    }
    let raw = match open_output(t) {
        Some(f) => read_raw_output(&f),
        None => None,
    };
    match raw {
        Some(raw) => validate_output(schema_name, raw),
        None => Err(LlmOutputError::InvalidJson(refuse(t, "not an output".to_owned()))),
    }
}

/// The validated output of a plain text, where it is one.
pub fn validated_from_plain_text(schema_name: &str, text: &str) -> (r: Option<ValidatedLlmOutput>)
    ensures
        match r {
            Some(o) => validated_text(schema_name@, text@) == Ok::<OutputV, OutputErrorV>(o@),
            None => validated_text(schema_name@, text@) is Err,
        },
{
    match parse_and_validate(schema_name, text) {
        Ok(o) => Some(o),
        Err(_) => None,
    }
}

/// A list of messages with another list at its end. What is not a list has no
/// messages to add; a tail that is not a list is replaced.
pub open spec fn appended_messages(tail: JsonV, appended: JsonV) -> JsonV {
    match appended {
        JsonV::Arr(m) => if m.len() == 0 {
            tail
        } else {
            match tail {
                JsonV::Arr(t) => JsonV::Arr(t + m),
                _ => JsonV::Arr(m),
            }
        },
        _ => tail,
    }
}

/// Appends messages to a message tail.
pub fn append_messages(tail: &mut Json, appended: &Json)
    ensures
        final(tail)@ == appended_messages(old(tail)@, appended@),
{
    let messages = match appended.as_array() {
        Some(m) => m,
        None => {
            return ;
        },
    };
    if messages.len() == 0 {
        return ;
    }
    let mut copies = dup_items(messages);
    let ghost added = copies@;
    let mut all: Vec<Json> = match tail.as_array() {
        Some(t) => dup_items(t),
        None => Vec::new(),
    };
    let ghost before = all@;
    all.append(&mut copies);
    assert(items_view(all@) =~= items_view(before) + items_view(added));
    *tail = Json::array(all);
}

/// A validated output is of the kind that its schema asks for, with a plan of at
/// least one step and a report that is not empty.
pub proof fn law_output_fits_schema(schema: Seq<char>, raw: RawV)
    ensures
        validated(schema, raw) matches Ok(o) ==> match o {
            OutputV::FrontendIntake { .. } => schema == "frontend_intake"@,
            OutputV::FrontendReport { summary } => schema == "frontend_report"@ && summary.len() > 0,
            OutputV::WorkerPlan { steps } => schema == "worker_plan"@ && steps.len() == raw.steps.len() && steps.len()
                > 0,
            OutputV::WorkerVerify { .. } => schema == "worker_verify"@,
        },
{
    lemma_step_ids_len(raw.steps, raw.steps.len());
}

proof fn lemma_step_ids_len(s: Seq<Seq<char>>, n: nat)
    requires
        n <= s.len(),
    ensures
        step_ids(s, n) matches Some(ids) ==> ids.len() == n,
    decreases n,
{
    if n > 0 {
        lemma_step_ids_len(s, (n - 1) as nat);
    }
}

/// What a model says on taking a task in is understood, or asked back, as it says; its
/// message is kept.
pub proof fn law_intake_says_what_the_model_says(raw: RawV)
    ensures
        raw.action == "task_understood"@ ==> validated("frontend_intake"@, raw) == Ok::<OutputV, OutputErrorV>(
            OutputV::FrontendIntake { action: FrontendIntakeAction::TaskUnderstood, message: raw.message },
        ),
        raw.action == "need_clarification"@ ==> validated("frontend_intake"@, raw) == Ok::<OutputV, OutputErrorV>(
            OutputV::FrontendIntake { action: FrontendIntakeAction::NeedClarification, message: raw.message },
        ),
        raw.action != "task_understood"@ && raw.action != "need_clarification"@ ==> validated("frontend_intake"@, raw)
            == Err::<OutputV, OutputErrorV>(
            OutputErrorV::ActionMismatch {
                expected: "task_understood|need_clarification"@,
                action: raw.action,
            },
        ),
{
    lemma_schema_names();
    reveal_strlit("task_understood");
    reveal_strlit("need_clarification");
    assert("task_understood"@.len() != "need_clarification"@.len());
}

proof fn lemma_schema_names()
    ensures
        "frontend_intake"@ != "frontend_report"@,
        "frontend_intake"@ != "worker_plan"@,
        "frontend_intake"@ != "worker_verify"@,
        "frontend_report"@ != "worker_plan"@,
        "frontend_report"@ != "worker_verify"@,
        "worker_plan"@ != "worker_verify"@,
{
    reveal_strlit("frontend_intake");
    reveal_strlit("frontend_report");
    reveal_strlit("worker_plan");
    reveal_strlit("worker_verify");
    assert("frontend_intake"@[9] == 'i' && "frontend_report"@[9] == 'r');
    assert("frontend_intake"@.len() == 15 && "worker_plan"@.len() == 11 && "worker_verify"@.len() == 13
        && "frontend_report"@.len() == 15);
}

/// A report is taken with its own words, and only with some.
pub proof fn law_report_is_taken_with_its_words(raw: RawV)
    ensures
        raw.action != "report_ready"@ ==> validated("frontend_report"@, raw) == Err::<OutputV, OutputErrorV>(
            OutputErrorV::ActionMismatch { expected: "report_ready"@, action: raw.action },
        ),
        raw.action == "report_ready"@ && raw.summary is Some && raw.summary->Some_0.len() > 0 ==> validated(
            "frontend_report"@,
            raw,
        ) == Ok::<OutputV, OutputErrorV>(OutputV::FrontendReport { summary: raw.summary->Some_0 }),
        raw.action == "report_ready"@ && (raw.summary is None || raw.summary->Some_0.len() == 0) ==> validated(
            "frontend_report"@,
            raw,
        ) == Err::<OutputV, OutputErrorV>(OutputErrorV::MissingField("summary"@)),
{
    lemma_schema_names();
}

/// A verdict passes exactly where the model says that it does; its summary is kept.
pub proof fn law_verdict_passes_where_said(raw: RawV)
    ensures
        raw.action == "verify_passed"@ ==> validated("worker_verify"@, raw) == Ok::<OutputV, OutputErrorV>(
            OutputV::WorkerVerify { passed: true, summary: raw.summary },
        ),
        raw.action == "verify_failed"@ ==> validated("worker_verify"@, raw) == Ok::<OutputV, OutputErrorV>(
            OutputV::WorkerVerify { passed: false, summary: raw.summary },
        ),
        raw.action != "verify_passed"@ && raw.action != "verify_failed"@ ==> validated("worker_verify"@, raw)
            == Err::<OutputV, OutputErrorV>(
            OutputErrorV::ActionMismatch { expected: "verify_passed|verify_failed"@, action: raw.action },
        ),
{
    lemma_schema_names();
    reveal_strlit("verify_passed");
    reveal_strlit("verify_failed");
    assert("verify_passed"@[7] == 'p' && "verify_failed"@[7] == 'f');
}

proof fn lemma_step_ids_at(s: Seq<Seq<char>>, n: nat, i: int)
    requires
        0 <= i < n <= s.len(),
    ensures
        step_ids(s, n) matches Some(ids) ==> ids.len() == n && wire_id(s[i], "step-"@) == Some(ids[i].0) && !is_blank(
            s[i],
        ),
        is_blank(s[i]) || wire_id(s[i], "step-"@) is None ==> step_ids(s, n) is None,
    decreases n,
{
    lemma_step_ids_len(s, n);
    lemma_step_ids_len(s, (n - 1) as nat);
    if i < n - 1 {
        lemma_step_ids_at(s, (n - 1) as nat, i);
    }
}

/// A plan has as many steps as the model lists, in order, each the one that it names; a
/// plan without steps, or with one that names none, is refused.
pub proof fn law_plan_has_the_listed_steps(raw: RawV, i: int)
    requires
        raw.action == "plan_ready"@,
    ensures
        raw.steps.len() == 0 ==> validated("worker_plan"@, raw) == Err::<OutputV, OutputErrorV>(
            OutputErrorV::MissingField("steps"@),
        ),
        0 <= i < raw.steps.len() ==> match validated("worker_plan"@, raw) {
            Ok(OutputV::WorkerPlan { steps }) => {
                &&& steps.len() == raw.steps.len()
                &&& wire_id(raw.steps[i], "step-"@) == Some(steps[i].0)
                &&& !is_blank(raw.steps[i])
            },
            Ok(_) => false,
            Err(e) => e == OutputErrorV::InvalidField("steps"@),
        },
        0 <= i < raw.steps.len() && (is_blank(raw.steps[i]) || wire_id(raw.steps[i], "step-"@) is None) ==> validated(
            "worker_plan"@,
            raw,
        ) == Err::<OutputV, OutputErrorV>(OutputErrorV::InvalidField("steps"@)),
{
    lemma_schema_names();
    if 0 <= i < raw.steps.len() {
        lemma_step_ids_at(raw.steps, raw.steps.len(), i);
    }
}

/// A plan that is not said to be ready is refused, and so is an answer for which there is
/// no check.
pub proof fn law_answers_of_the_wrong_kind_are_refused(schema: Seq<char>, raw: RawV)
    ensures
        raw.action != "plan_ready"@ ==> validated("worker_plan"@, raw) == Err::<OutputV, OutputErrorV>(
            OutputErrorV::ActionMismatch { expected: "plan_ready"@, action: raw.action },
        ),
        schema != "frontend_intake"@ && schema != "frontend_report"@ && schema != "worker_plan"@ && schema
            != "worker_verify"@ ==> validated(schema, raw) == Err::<OutputV, OutputErrorV>(
            OutputErrorV::UnknownSchema(schema),
        ),
{
    lemma_schema_names();
}

/// An answer without words is empty, whatever is asked for.
pub proof fn law_blank_answer_is_empty(schema: Seq<char>, text: Seq<char>)
    ensures
        is_blank(text) <==> validated_text(schema, text) == Err::<OutputV, OutputErrorV>(OutputErrorV::Empty),
{
    lemma_schema_names();
}

/// Messages that a round adds to a conversation stand behind it, in order.
pub proof fn law_added_messages_stand_behind(tail: Seq<JsonV>, added: Seq<JsonV>)
    ensures
        appended_messages(JsonV::Arr(tail), JsonV::Arr(added)) == JsonV::Arr(tail + added),
{
    if added.len() == 0 {
        assert(tail + added =~= tail);
    }
}

/// An answer's parts are found under their own names, or at their own places in a list.
pub proof fn law_answer_parts_have_their_names(text: Seq<char>, d: DocV, f: OutputFieldsV)
    requires
        output_fields(text) == Some(f),
        doc_of(text) == Some(d),
    ensures
        f.action == field(d, "action"@, 0),
        f.message == field(d, "message"@, 1),
        f.summary == field(d, "summary"@, 2),
        f.steps == field(d, "steps"@, 3),
        f.observation == field(d, "observation"@, 4),
{
}

/// An answer must say what it does; its message, its summary and what was observed may be
/// left out, and so may its steps, which are then none.
pub proof fn law_answer_must_say_what_it_does(f: OutputFieldsV, raw: RawV)
    requires
        raw_output(f) == Some(raw),
    ensures
        text_found(f.action) == Some(raw.action),
        optional_text(f.message) == Some(raw.message),
        optional_text(f.summary) == Some(raw.summary),
        optional_text(f.observation) == Some(raw.observation),
        f.steps == FoundV::Missing ==> raw.steps.len() == 0,
        f.steps != FoundV::Missing ==> texts_found(f.steps) == Some(raw.steps),
{
}

/// An answer that is JSON and has its parts is checked for what is asked; any other is no
/// answer, and what is wrong is said.
pub proof fn law_whole_answer_is_checked(schema: Seq<char>, text: Seq<char>)
    requires
        !is_blank(text),
    ensures
        json_complaint(trimmed(text)) matches Some(e) ==> validated_text(schema, text) == Err::<OutputV, OutputErrorV>(
            OutputErrorV::InvalidJson(refusal(trimmed(text), e)),
        ),
        json_complaint(trimmed(text)) is None ==> (output_fields(trimmed(text)) matches Some(f) ==> (raw_output(f)
            matches Some(raw) ==> validated_text(schema, text) == validated(schema, raw))),
        json_complaint(trimmed(text)) is None ==> (output_fields(trimmed(text)) is None || raw_output(
            output_fields(trimmed(text))->Some_0,
        ) is None) ==> validated_text(schema, text) == Err::<OutputV, OutputErrorV>(
            OutputErrorV::InvalidJson(refusal(trimmed(text), "not an output"@)),
        ),
{
}

/// What is wrong with an answer is said, with the part that it is about.
pub proof fn law_refused_answer_says_why(e: LlmOutputError)
    ensures
        e is Empty ==> e.text() == "empty model text"@,
        e matches LlmOutputError::InvalidJson(s) ==> e.text() == "invalid json: "@ + s@,
        e matches LlmOutputError::ActionMismatch { expected, action } ==> e.text() == "schema mismatch: expected "@
            + expected@ + ", got "@ + action@,
        e matches LlmOutputError::MissingField(f) ==> e.text() == "missing field: "@ + f@,
        e matches LlmOutputError::InvalidField(f) ==> e.text() == "invalid field: "@ + f@,
        e matches LlmOutputError::UnknownSchema(s) ==> e.text() == "unknown schema: "@ + s@,
{
}

} // verus!
