use claw_core::document::Found;
use claw_core::json::{parse_json, Json};
use claw_core::llm_output::{
    append_messages, parse_and_validate, read_raw_output, schema_json_for_name, validate_output,
    validated_from_plain_text, FrontendIntakeAction, LlmOutputError, OutputFields, RawOutput, ValidatedLlmOutput,
};
use claw_core::protocol::ids::StepId;

#[test]
fn parses_worker_plan() {
    let out = parse_and_validate(
        "worker_plan",
        r#"{"action":"plan_ready","steps":["step-1","step-2"]}"#,
    )
    .unwrap();
    assert_eq!(
        out,
        ValidatedLlmOutput::WorkerPlan {
            steps: vec![StepId(1), StepId(2)]
        }
    );
}

#[test]
fn rejects_invalid_verify_action() {
    let err = parse_and_validate("worker_verify", r#"{"action":"maybe"}"#).unwrap_err();
    assert!(matches!(err, LlmOutputError::ActionMismatch { .. }));
    assert_eq!(
        err.message(),
        "schema mismatch: expected verify_passed|verify_failed, got maybe"
    );
}

#[test]
fn each_schema_has_its_output() {
    assert_eq!(
        parse_and_validate("frontend_intake", r#" {"action":"need_clarification","message":"which?"} "#).unwrap(),
        ValidatedLlmOutput::FrontendIntake {
            action: FrontendIntakeAction::NeedClarification,
            message: Some("which?".to_string()),
        }
    );
    assert_eq!(
        parse_and_validate("frontend_intake", r#"{"action":"task_understood"}"#).unwrap(),
        ValidatedLlmOutput::FrontendIntake { action: FrontendIntakeAction::TaskUnderstood, message: None }
    );
    assert_eq!(
        parse_and_validate("frontend_report", r#"{"action":"report_ready","summary":"done"}"#).unwrap(),
        ValidatedLlmOutput::FrontendReport { summary: "done".to_string() }
    );
    assert_eq!(
        parse_and_validate("worker_verify", r#"{"action":"verify_failed","summary":null}"#).unwrap(),
        ValidatedLlmOutput::WorkerVerify { passed: false, summary: None }
    );
}

#[test]
fn each_error_has_its_input() {
    assert_eq!(parse_and_validate("worker_plan", "  "), Err(LlmOutputError::Empty));
    assert!(matches!(parse_and_validate("worker_plan", "plan"), Err(LlmOutputError::InvalidJson(_))));
    assert!(matches!(parse_and_validate("worker_plan", "7"), Err(LlmOutputError::InvalidJson(_))));
    assert_eq!(
        parse_and_validate("frontend_report", r#"{"action":"report_ready"}"#),
        Err(LlmOutputError::MissingField("summary"))
    );
    assert_eq!(
        parse_and_validate("frontend_report", r#"{"action":"report_ready","summary":""}"#),
        Err(LlmOutputError::MissingField("summary"))
    );
    assert_eq!(
        parse_and_validate("worker_plan", r#"{"action":"plan_ready"}"#),
        Err(LlmOutputError::MissingField("steps"))
    );
    assert_eq!(
        parse_and_validate("worker_plan", r#"{"action":"plan_ready","steps":["one"]}"#),
        Err(LlmOutputError::InvalidField("steps"))
    );
    assert_eq!(
        parse_and_validate("worker_act", r#"{"action":"step_executed"}"#),
        Err(LlmOutputError::UnknownSchema("worker_act".to_string()))
    );
    assert!(validated_from_plain_text("worker_plan", "no").is_none());
    assert!(validated_from_plain_text("worker_verify", r#"{"action":"verify_passed"}"#).is_some());
}

#[test]
fn raw_outputs_are_validated_without_text() {
    let raw = RawOutput {
        action: "plan_ready".to_string(),
        message: None,
        summary: None,
        steps: vec!["step-9".to_string()],
        observation: None,
    };
    assert_eq!(
        validate_output("worker_plan", raw),
        Ok(ValidatedLlmOutput::WorkerPlan { steps: vec![StepId(9)] })
    );
}

#[test]
fn schemas_have_texts() {
    assert_eq!(schema_json_for_name("frontend_watch"), Some("{\"action\":\"watch_ack\"}"));
    assert_eq!(schema_json_for_name("worker_idle"), None);
}

#[test]
fn messages_are_appended_to_a_list() {
    let mut tail = parse_json(r#"[{"role":"user"}]"#).unwrap();
    append_messages(&mut tail, &parse_json(r#"[1,2]"#).unwrap());
    assert_eq!(tail, parse_json(r#"[{"role":"user"},1,2]"#).unwrap());
    append_messages(&mut tail, &parse_json("{}").unwrap());
    append_messages(&mut tail, &parse_json("[]").unwrap());
    assert_eq!(tail, parse_json(r#"[{"role":"user"},1,2]"#).unwrap());
    let mut none = Json::Null;
    append_messages(&mut none, &parse_json("[3]").unwrap());
    assert_eq!(none, parse_json("[3]").unwrap());
}

fn invalid(schema: &str, text: &str) -> String {
    match parse_and_validate(schema, text) {
        Err(LlmOutputError::InvalidJson(e)) => e,
        other => panic!("{text}: {other:?}"),
    }
}

#[test]
fn a_known_member_is_given_once() {
    for text in [
        r#"{"action":"verify_passed","action":"verify_failed"}"#,
        r#"{"action":"verify_passed","summary":null,"summary":"x"}"#,
        r#"{"action":"verify_passed","\u0061ction":"verify_passed"}"#,
        r#"{"steps":[],"action":"verify_passed","steps":[]}"#,
    ] {
        assert_eq!(invalid("worker_verify", text), "not an output");
    }
    let unknown = r#"{"x":1,"action":"verify_passed","x":2,"y":{"action":1,"action":2}}"#;
    assert!(parse_and_validate("worker_verify", unknown).is_ok());
}

#[test]
fn a_member_that_is_not_known_is_passed_over_whatever_it_holds() {
    for value in [r#"1e999"#, r#""\ud800""#, r#"{"\udc00":[1e999,"{,:]"]}"#, r#"["a\"],{",[[]],"\\"]"#] {
        let text = format!(r#" {{ "x" : {value} , "action" : "verify_passed" , "summary" : "a,b:{{c" }} "#);
        assert_eq!(
            parse_and_validate("worker_verify", &text),
            Ok(ValidatedLlmOutput::WorkerVerify { passed: true, summary: Some("a,b:{c".into()) }),
            "{text}"
        );
    }
    let deep = format!(r#"{{"action":"verify_passed","x":{}{}}}"#, "[".repeat(5000), "]".repeat(5000));
    assert!(parse_and_validate("worker_verify", &deep).is_ok());
    // What is known, and every name, must be readable.
    assert!(invalid("worker_verify", r#"{"action":"\ud800"}"#).contains("line 1 column"));
    assert!(invalid("worker_verify", r#"{"action":"verify_passed","\ud800":1}"#).contains("line 1 column"));
    assert!(invalid("worker_verify", r#"{"action":"verify_passed","x":01}"#).contains("line 1 column"));
    assert_eq!(
        invalid("worker_verify", r#"{"action":"verify_passed"} x"#),
        "trailing characters at line 1 column 28"
    );
    assert_eq!(invalid("worker_verify", r#"{"action":"verify_passed",}"#), "trailing comma at line 1 column 27");
}

#[test]
fn an_output_may_be_a_list_of_its_fields() {
    assert_eq!(
        parse_and_validate("worker_plan", r#"[ "plan_ready" , null, "s", ["step-3"] ]"#),
        Ok(ValidatedLlmOutput::WorkerPlan { steps: vec![StepId(3)] })
    );
    assert_eq!(
        parse_and_validate("frontend_intake", r#"["task_understood"]"#),
        Ok(ValidatedLlmOutput::FrontendIntake { action: FrontendIntakeAction::TaskUnderstood, message: None })
    );
    assert_eq!(invalid("worker_plan", "[]"), "not an output");
    assert_eq!(invalid("worker_plan", r#"["plan_ready",null,null,["step-1"],null,null]"#), "not an output");
    assert_eq!(invalid("worker_plan", r#"["plan_ready",null,null,null]"#), "not an output");
    assert_eq!(invalid("worker_plan", r#""plan_ready""#), "not an output");
}

#[test]
fn fields_are_read_without_text() {
    let text = |s: &str| Found::Value(Ok(Json::Str(s.into())));
    let mut fields = OutputFields {
        action: text("plan_ready"),
        message: Found::Value(Ok(Json::Null)),
        summary: Found::Missing,
        steps: Found::Missing,
        observation: text("seen"),
    };
    let raw = read_raw_output(&fields).expect("an output");
    assert_eq!((raw.action.as_str(), raw.message, raw.steps.len()), ("plan_ready", None, 0));
    assert_eq!(raw.observation.as_deref(), Some("seen"));
    fields.observation = Found::Value(Err("unreadable".into()));
    assert_eq!(read_raw_output(&fields), None);
    fields.observation = Found::Repeated;
    assert_eq!(read_raw_output(&fields), None);
}
