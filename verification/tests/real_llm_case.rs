use marlin_gerbil_scheme::loop_case_driver::{
    GerbilLoopCaseDriverRealLlmCaseReceiptError, TraceJson, TraceJsonNumber,
    parse_gerbil_loop_case_driver_real_llm_case_receipt, real_llm_case_receipt_from_decoded,
    trace_object_text,
};

fn object(members: Vec<(&str, TraceJson)>) -> TraceJson {
    TraceJson::Object(members.into_iter().map(|(k, v)| (k.to_owned(), v)).collect())
}

fn text(value: &str) -> TraceJson {
    TraceJson::String(value.to_owned())
}

fn governed_trace() -> TraceJson {
    object(vec![
        ("terminal_status", text("completed")),
        ("iteration_count", TraceJson::Number(TraceJsonNumber::PosInt(4))),
        (
            "governance_receipt",
            object(vec![
                ("sandbox", object(vec![("backend", text("nono"))])),
                ("verifier", object(vec![("decision", text("human-audit"))])),
            ]),
        ),
        (
            "rounds",
            TraceJson::Array(vec![object(vec![("failure_classification_receipt", TraceJson::Null)])]),
        ),
    ])
}

const STDOUT: &str = "marlin-real-llm-case.case_id=case-a\nmarlin-real-llm-case.result=passed\nmarlin-real-llm-case.rounds_used=2\nprocess-command.exit_status:-1\ncontinuation_planner=scheme-planner\n{\"terminal_status\":\"completed\"}\n";

#[test]
fn runner_output_projects_into_a_receipt() {
    let receipt =
        real_llm_case_receipt_from_decoded(STDOUT, Some(Ok(governed_trace()))).unwrap();
    assert_eq!(receipt.case_id(), "case-a");
    assert_eq!(receipt.result(), "passed");
    assert_eq!(receipt.rounds_used(), 2);
    assert_eq!(receipt.terminal_status(), "completed");
    assert_eq!(receipt.iteration_count(), 4);
    assert_eq!(receipt.process_exit_status(), -1);
    assert_eq!(receipt.continuation_planner(), Some("scheme-planner"));
    assert!(receipt.failure_classification_receipt_present());
    assert!(receipt.governance_receipt_present());
    assert!(receipt.nono_sandbox_materialized());
    assert!(receipt.human_audit_decision());
}

#[test]
fn top_level_backend_and_decision_count_too() {
    let trace = object(vec![
        ("terminal_status", text("stopped")),
        ("iteration_count", TraceJson::Number(TraceJsonNumber::PosInt(0))),
        ("backend", text("nono")),
        ("decision", text("approve")),
    ]);
    let receipt = real_llm_case_receipt_from_decoded(STDOUT, Some(Ok(trace))).unwrap();
    assert!(receipt.nono_sandbox_materialized());
    assert!(!receipt.human_audit_decision());
    assert!(!receipt.governance_receipt_present());
    assert!(!receipt.failure_classification_receipt_present());
}

#[test]
fn marker_value_stops_at_a_quote_or_backslash() {
    let stdout = "log \"marlin-real-llm-case.case_id=case-q\" marlin-real-llm-case.result=ok\\n marlin-real-llm-case.rounds_used=1\nprocess-command.exit_status:0\n{}";
    let receipt = real_llm_case_receipt_from_decoded(stdout, Some(Ok(governed_trace()))).unwrap();
    assert_eq!(receipt.case_id(), "case-q");
    assert_eq!(receipt.result(), "ok");
    assert_eq!(receipt.continuation_planner(), None);
}

#[test]
fn output_without_trace_object_is_refused() {
    let error = real_llm_case_receipt_from_decoded("no json", Some(Ok(governed_trace())))
        .unwrap_err();
    assert_eq!(
        error,
        GerbilLoopCaseDriverRealLlmCaseReceiptError::InvalidTraceJson {
            message: "missing trace object".to_owned()
        }
    );
    let error = real_llm_case_receipt_from_decoded(STDOUT, None).unwrap_err();
    assert_eq!(error.message(), "invalid real LLM trace JSON: missing trace object");
}

#[test]
fn decoder_errors_and_non_objects_are_refused() {
    let error = real_llm_case_receipt_from_decoded(STDOUT, Some(Err("EOF while parsing".to_owned())))
        .unwrap_err();
    assert_eq!(error.message(), "invalid real LLM trace JSON: EOF while parsing");
    let error = real_llm_case_receipt_from_decoded(STDOUT, Some(Ok(TraceJson::Array(vec![]))))
        .unwrap_err();
    assert_eq!(error.message(), "invalid real LLM trace JSON: trace root is not an object");
}

#[test]
fn missing_marker_and_field_are_reported() {
    let stdout = "marlin-real-llm-case.result=passed\n{}";
    let error = real_llm_case_receipt_from_decoded(stdout, Some(Ok(governed_trace()))).unwrap_err();
    assert_eq!(
        error,
        GerbilLoopCaseDriverRealLlmCaseReceiptError::MissingMarker {
            marker: "marlin-real-llm-case.case_id="
        }
    );
    assert_eq!(error.message(), "missing marker marlin-real-llm-case.case_id=");
    let trace = object(vec![("iteration_count", TraceJson::Number(TraceJsonNumber::PosInt(1)))]);
    let error = real_llm_case_receipt_from_decoded(STDOUT, Some(Ok(trace))).unwrap_err();
    assert_eq!(error.message(), "missing field terminal_status");
    let trace = object(vec![
        ("terminal_status", text("done")),
        ("iteration_count", TraceJson::Number(TraceJsonNumber::NegInt(-1))),
    ]);
    let error = real_llm_case_receipt_from_decoded(STDOUT, Some(Ok(trace))).unwrap_err();
    assert_eq!(error.message(), "missing field iteration_count");
}

#[test]
fn invalid_number_is_reported_with_the_parse_error() {
    let stdout = "marlin-real-llm-case.case_id=c\nmarlin-real-llm-case.result=r\nmarlin-real-llm-case.rounds_used=x2\n{}";
    let error = real_llm_case_receipt_from_decoded(stdout, Some(Ok(governed_trace()))).unwrap_err();
    assert_eq!(
        error,
        GerbilLoopCaseDriverRealLlmCaseReceiptError::InvalidNumber {
            field: "marlin-real-llm-case.rounds_used=",
            value: "x2".to_owned(),
            message: "invalid digit found in string".to_owned(),
        }
    );
    assert_eq!(
        error.message(),
        "invalid numeric field marlin-real-llm-case.rounds_used= value \"x2\": invalid digit found in string"
    );
}

#[test]
fn trace_object_text_starts_at_the_first_brace() {
    assert_eq!(trace_object_text("log {\"a\":{}}"), Some("{\"a\":{}}".to_owned()));
    assert_eq!(trace_object_text("no brace"), None);
}

const RAW_STDOUT: &str = "marlin-real-llm-case.case_id=case-r\nmarlin-real-llm-case.result=passed\nmarlin-real-llm-case.rounds_used=3\nprocess-command.exit_status:0\ntrace {\"terminal_status\":\"completed\",\"iteration_count\":7,\"backend\":\"nono\",\"governance_receipt\":{\"verifier\":{\"decision\":\"human-audit\"}}} trailing {\"ignored\":true}\n";

#[test]
fn raw_runner_output_is_decoded_and_projected() {
    let receipt = parse_gerbil_loop_case_driver_real_llm_case_receipt(RAW_STDOUT).unwrap();
    assert_eq!(receipt.case_id(), "case-r");
    assert_eq!(receipt.rounds_used(), 3);
    assert_eq!(receipt.terminal_status(), "completed");
    assert_eq!(receipt.iteration_count(), 7);
    assert_eq!(receipt.process_exit_status(), 0);
    assert!(receipt.nono_sandbox_materialized());
    assert!(receipt.human_audit_decision());
    assert!(receipt.governance_receipt_present());
    assert!(!receipt.failure_classification_receipt_present());
}

#[test]
fn raw_runner_output_with_bad_json_is_refused() {
    let missing = parse_gerbil_loop_case_driver_real_llm_case_receipt("marlin-real-llm-case.case_id=x\n").unwrap_err();
    assert_eq!(missing.message(), "invalid real LLM trace JSON: missing trace object");
    let broken = parse_gerbil_loop_case_driver_real_llm_case_receipt("x {\"terminal_status\": ").unwrap_err();
    assert!(matches!(broken, GerbilLoopCaseDriverRealLlmCaseReceiptError::InvalidTraceJson { .. }));
    assert!(broken.message().starts_with("invalid real LLM trace JSON: EOF while parsing"));
    let negative = parse_gerbil_loop_case_driver_real_llm_case_receipt(
        "marlin-real-llm-case.case_id=c\nmarlin-real-llm-case.result=r\nmarlin-real-llm-case.rounds_used=1\nprocess-command.exit_status:0\n{\"terminal_status\":\"done\",\"iteration_count\":-2}",
    )
    .unwrap_err();
    assert_eq!(negative.message(), "missing field iteration_count");
}
