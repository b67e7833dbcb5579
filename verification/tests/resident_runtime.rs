use marlin_gerbil_scheme::resident_runtime::{
    GerbilProcessExit, GerbilResidentRuntimeHealthStatus, GerbilResidentRuntimePlan,
    GerbilResidentRuntimeProcessStatus, GerbilResidentRuntimeSessionMode,
    GerbilResidentRuntimeShutdownStatus, GerbilResidentStrategyEventKind,
    GerbilResidentStrategyGxiSmokeBridge, GerbilResidentStrategyLaneStatus,
    GerbilResidentStrategyRequest, GerbilResidentStrategyRequestStatus,
};

fn shared_plan() -> GerbilResidentRuntimePlan {
    GerbilResidentRuntimePlan::shared_context("/srv/gerbil", "session-1", "gxi")
}

#[test]
fn resident_plans_are_ready_to_spawn_and_disabled_ones_are_not() {
    let handle = shared_plan().prepared(vec!["asset.ss".to_owned()]);
    let process = handle.process_plan();
    assert_eq!(process.status, GerbilResidentRuntimeProcessStatus::ReadyToSpawn);
    assert!(process.process_reuse_required);
    let profile = process.command_profile.as_ref().unwrap();
    assert_eq!(profile.program, "gxi");
    assert_eq!(profile.args, vec![":marlin/adapter".to_owned()]);
    assert!(profile.env.contains(&("GERBIL_LOADPATH".to_owned(), "/srv/gerbil/src".to_owned())));
    assert_eq!(handle.process_receipt().written_asset_count, 1);

    let disabled = GerbilResidentRuntimePlan::disabled("/srv/gerbil", "gxi").prepared(vec![]).process_plan();
    assert_eq!(disabled.status, GerbilResidentRuntimeProcessStatus::Disabled);
    assert!(disabled.command_profile.is_none());
    assert_eq!(disabled.spawn_profile(), Err("resident Gerbil runtime process is disabled"));
    assert!(process.spawn_profile().is_ok());
}

#[test]
fn isolated_sessions_isolate_state() {
    let plan = GerbilResidentRuntimePlan::isolated_session("/srv/gerbil", "s", "gxi");
    assert_eq!(plan.session_mode, GerbilResidentRuntimeSessionMode::IsolatedSession);
    assert!(plan.isolates_state());
    assert!(plan.requires_process_reuse());
    assert!(!shared_plan().isolates_state());
}

#[test]
fn service_receipt_counts_lanes() {
    let receipt = shared_plan().prepared(vec![]).strategy_service_receipt();
    assert_eq!(receipt.lane_count, 2);
    assert_eq!(receipt.ready_lane_count, 2);
    assert_eq!(receipt.disabled_lane_count, 0);
    assert_eq!(receipt.dynamic_replan_lane_count, 1);
    assert_eq!(receipt.policy_change_lane_count, 1);
    let disabled = GerbilResidentRuntimePlan::disabled("/srv", "gxi").prepared(vec![]).strategy_service_receipt();
    assert_eq!(disabled.ready_lane_count, 0);
    assert_eq!(disabled.disabled_lane_count, 2);
    assert_eq!(disabled.lanes[0].status, GerbilResidentStrategyLaneStatus::Disabled);
}

#[test]
fn requests_are_admitted_on_their_own_lane_only() {
    let service = shared_plan().prepared(vec![]).strategy_service_plan();
    let request = GerbilResidentStrategyRequest::new("r1", GerbilResidentStrategyEventKind::PolicyChange)
        .with_policy_epoch(4);
    let receipt = service.request_receipt(request.clone());
    assert_eq!(receipt.status, GerbilResidentStrategyRequestStatus::Accepted);
    assert_eq!(receipt.policy_epoch, Some(4));
    assert_eq!(receipt.session_id.as_ref().map(|id| id.as_str()), Some("session-1"));

    let mismatch = request.clone().with_lane_id("dynamic-replan");
    assert_eq!(service.request_receipt(mismatch).status, GerbilResidentStrategyRequestStatus::EventLaneMismatch);
    let unknown = request.clone().with_lane_id("batch");
    assert_eq!(service.request_receipt(unknown).status, GerbilResidentStrategyRequestStatus::LaneUnavailable);

    let disabled = GerbilResidentRuntimePlan::disabled("/srv", "gxi").prepared(vec![]).strategy_service_plan();
    assert_eq!(disabled.request_receipt(request).status, GerbilResidentStrategyRequestStatus::RuntimeDisabled);
}

#[test]
fn exited_process_admits_nothing() {
    let process = shared_plan().prepared(vec![]).process_plan();
    let running = process.health_receipt(42, None);
    assert_eq!(running.status, GerbilResidentRuntimeHealthStatus::Running);
    let request = GerbilResidentStrategyRequest::new("r1", GerbilResidentStrategyEventKind::DynamicReplan);
    let receipt = process.process_request_receipt(&running, request.clone());
    assert_eq!(receipt.status, GerbilResidentStrategyRequestStatus::Accepted);
    assert_eq!(receipt.child_id, Some(42));

    let exited = process.health_receipt(42, Some(GerbilProcessExit { code: Some(3), success: false }));
    assert_eq!(exited.status, GerbilResidentRuntimeHealthStatus::Exited);
    assert_eq!(exited.exit_code, Some(3));
    assert_eq!(exited.exit_success, Some(false));
    let receipt = process.process_request_receipt(&exited, request);
    assert_eq!(receipt.status, GerbilResidentStrategyRequestStatus::ProcessNotRunning);
    assert_eq!(receipt.process_health, Some(GerbilResidentRuntimeHealthStatus::Exited));

    let shutdown = process.shutdown_receipt(
        42,
        GerbilResidentRuntimeShutdownStatus::Terminated,
        GerbilProcessExit { code: None, success: false },
    );
    assert_eq!(shutdown.status, GerbilResidentRuntimeShutdownStatus::Terminated);
    assert_eq!(shutdown.exit_code, None);
}

#[test]
fn deck_runtime_bridge_names_the_strategy_procedure() {
    let profile = shared_plan().prepared(vec![]).process_plan().command_profile.unwrap();
    let bridge = GerbilResidentStrategyGxiSmokeBridge::marlin_deck_runtime(profile);
    assert_eq!(bridge.procedure_module, ":marlin/deck-runtime-strategy");
    assert_eq!(bridge.procedure_name, "marlin-deck-runtime-resident-strategy-execute");
}

use marlin_gerbil_scheme::resident_runtime::bridge::{
    from_scheme_bridge_value, optional_bridge_value, resident_strategy_request_value,
    strategy_event_kind_text, strategy_status_from_bridge_text,
};
use marlin_gerbil_scheme::resident_runtime::execution::{
    GerbilResidentStrategyExecutionReceipt, GerbilResidentStrategyExecutionRequest,
    GerbilResidentStrategyExecutionResponse,
};
use marlin_gerbil_scheme::resident_runtime::GerbilResidentStrategyExecutionStatus;
use marlin_gerbil_scheme::scheme_types::GerbilSchemeValue;

fn payload() -> GerbilSchemeValue {
    GerbilSchemeValue::record(vec![
        ("step".to_owned(), GerbilSchemeValue::integer(2)),
        ("action".to_owned(), GerbilSchemeValue::text("replan")),
    ])
}

#[test]
fn strategy_request_is_sent_as_a_sorted_record() {
    let request = GerbilResidentStrategyExecutionRequest::new(
        "req-7",
        GerbilResidentStrategyEventKind::PolicyChange,
        payload(),
    )
    .with_session_id("session-1")
    .with_policy_epoch(9);
    let value = resident_strategy_request_value(&request);
    let members = value.as_record().unwrap();
    let keys: Vec<&str> = members.iter().map(|(k, _)| k.as_str()).collect();
    assert_eq!(keys, vec!["event_kind", "lane_id", "payload", "policy_epoch", "request_id", "session_id"]);
    assert_eq!(value.get("request_id").and_then(|v| v.as_text()), Some("req-7"));
    assert_eq!(value.get("lane_id").and_then(|v| v.as_text()), Some("policy-change"));
    assert_eq!(value.get("event_kind").and_then(|v| v.as_text()), Some("policy-change"));
    assert_eq!(value.get("session_id").and_then(|v| v.as_text()), Some("session-1"));
    assert_eq!(value.get("policy_epoch").and_then(|v| v.as_integer()), Some(9));
    assert_eq!(value.get("payload"), Some(&payload()));

    let bare = GerbilResidentStrategyExecutionRequest::new(
        "req-8",
        GerbilResidentStrategyEventKind::DynamicReplan,
        GerbilSchemeValue::null(),
    );
    let value = resident_strategy_request_value(&bare);
    assert_eq!(value.get("session_id"), Some(&GerbilSchemeValue::null()));
    assert_eq!(value.get("policy_epoch"), Some(&GerbilSchemeValue::null()));
    assert_eq!(value.get("lane_id").and_then(|v| v.as_text()), Some("dynamic-replan"));
    assert_eq!(value.get("other"), None);
}

#[test]
fn bridge_texts_name_statuses_and_event_kinds() {
    assert_eq!(strategy_event_kind_text(GerbilResidentStrategyEventKind::DynamicReplan), "dynamic-replan");
    assert_eq!(strategy_event_kind_text(GerbilResidentStrategyEventKind::PolicyChange), "policy-change");
    assert_eq!(strategy_status_from_bridge_text("executed"), Ok(GerbilResidentStrategyExecutionStatus::Executed));
    assert_eq!(strategy_status_from_bridge_text("denied"), Ok(GerbilResidentStrategyExecutionStatus::Denied));
    assert_eq!(strategy_status_from_bridge_text("deferred"), Ok(GerbilResidentStrategyExecutionStatus::Deferred));
    assert_eq!(
        strategy_status_from_bridge_text("rejected-by-contract"),
        Ok(GerbilResidentStrategyExecutionStatus::RejectedByContract)
    );
    assert_eq!(
        strategy_status_from_bridge_text("runtime-error"),
        Ok(GerbilResidentStrategyExecutionStatus::RuntimeError)
    );
    assert_eq!(
        strategy_status_from_bridge_text("admission-rejected"),
        Ok(GerbilResidentStrategyExecutionStatus::AdmissionRejected)
    );
    assert_eq!(
        strategy_status_from_bridge_text("done"),
        Err("unknown resident strategy response status: done".to_owned())
    );
    assert_eq!(optional_bridge_value(Some(GerbilSchemeValue::null())), None);
    assert_eq!(optional_bridge_value(None), None);
    assert_eq!(
        optional_bridge_value(Some(GerbilSchemeValue::boolean(true))),
        Some(GerbilSchemeValue::boolean(true))
    );
}

#[test]
fn bridge_response_records_are_read() {
    let value = GerbilSchemeValue::record(vec![
        ("status".to_owned(), GerbilSchemeValue::text("executed")),
        ("payload".to_owned(), payload()),
        ("reason".to_owned(), GerbilSchemeValue::text("ok")),
        ("derived_session_id".to_owned(), GerbilSchemeValue::text("session-2")),
    ]);
    let response = from_scheme_bridge_value(value).unwrap();
    assert_eq!(response.status, GerbilResidentStrategyExecutionStatus::Executed);
    assert_eq!(response.payload, Some(payload()));
    assert_eq!(response.reason.as_deref(), Some("ok"));
    assert_eq!(response.derived_session_id.as_ref().map(|id| id.as_str()), Some("session-2"));

    let value = GerbilSchemeValue::record(vec![
        ("status".to_owned(), GerbilSchemeValue::text("denied")),
        ("payload".to_owned(), GerbilSchemeValue::null()),
        ("derived_session_id".to_owned(), GerbilSchemeValue::text("")),
    ]);
    let response = from_scheme_bridge_value(value).unwrap();
    assert_eq!(response.status, GerbilResidentStrategyExecutionStatus::Denied);
    assert_eq!(response.payload, None);
    assert_eq!(response.reason, None);
    assert_eq!(response.derived_session_id, None);

    let missing = GerbilSchemeValue::record(vec![("status".to_owned(), GerbilSchemeValue::integer(1))]);
    assert_eq!(
        from_scheme_bridge_value(missing),
        Err("resident strategy response is missing text status".to_owned())
    );
    let unknown = GerbilSchemeValue::record(vec![("status".to_owned(), GerbilSchemeValue::text("lost"))]);
    assert_eq!(
        from_scheme_bridge_value(unknown),
        Err("unknown resident strategy response status: lost".to_owned())
    );
    assert!(from_scheme_bridge_value(GerbilSchemeValue::null()).is_err());
}

#[test]
fn execution_responses_and_receipts_carry_their_fields() {
    let executed = GerbilResidentStrategyExecutionResponse::executed(payload());
    assert_eq!(executed.status, GerbilResidentStrategyExecutionStatus::Executed);
    assert_eq!(executed.payload, Some(payload()));
    assert_eq!(executed.reason, None);
    let denied = GerbilResidentStrategyExecutionResponse::denied("no budget").with_derived_session_id("s-9");
    assert_eq!(denied.status, GerbilResidentStrategyExecutionStatus::Denied);
    assert_eq!(denied.reason.as_deref(), Some("no budget"));
    assert_eq!(denied.derived_session_id.as_ref().map(|id| id.as_str()), Some("s-9"));
    assert_eq!(
        GerbilResidentStrategyExecutionResponse::runtime_error("boom").status,
        GerbilResidentStrategyExecutionStatus::RuntimeError
    );
    assert_eq!(
        GerbilResidentStrategyExecutionResponse::deferred("later").status,
        GerbilResidentStrategyExecutionStatus::Deferred
    );
    assert_eq!(
        GerbilResidentStrategyExecutionResponse::rejected_by_contract("shape").status,
        GerbilResidentStrategyExecutionStatus::RejectedByContract
    );

    let service = shared_plan().prepared(vec![]).strategy_service_plan();
    let request = GerbilResidentStrategyRequest::new("r1", GerbilResidentStrategyEventKind::DynamicReplan);
    let rejected = service.request_receipt(request.clone().with_lane_id("batch"));
    let receipt = GerbilResidentStrategyExecutionReceipt::admission_rejected(rejected, payload(), 17);
    assert_eq!(receipt.status, GerbilResidentStrategyExecutionStatus::AdmissionRejected);
    assert_eq!(receipt.request_payload, payload());
    assert_eq!(receipt.response_payload, None);
    assert!(!receipt.performance.executor_invoked);
    assert_eq!(receipt.performance.elapsed_micros, 17);
}

use marlin_gerbil_scheme::resident_runtime::datum::{
    parse_scheme_value_datum, scheme_string, scheme_value_to_datum,
};

fn float_text(bits: u64) -> String {
    f64::from_bits(bits).to_string()
}

fn float_bits(atom: &str) -> Option<u64> {
    atom.parse::<f64>().ok().map(f64::to_bits)
}

#[test]
fn scheme_strings_escape_quotes_and_controls() {
    assert_eq!(scheme_string("plain"), "\"plain\"");
    assert_eq!(scheme_string("a\"b\\c\nd\re\tf"), "\"a\\\"b\\\\c\\nd\\re\\tf\"");
    assert_eq!(scheme_string(""), "\"\"");
}

#[test]
fn values_are_written_as_datums() {
    let value = GerbilSchemeValue::record(vec![
        ("n".to_owned(), GerbilSchemeValue::integer(-12)),
        ("flag".to_owned(), GerbilSchemeValue::boolean(true)),
        (
            "items".to_owned(),
            GerbilSchemeValue::vector(vec![
                GerbilSchemeValue::null(),
                GerbilSchemeValue::text("x y"),
                GerbilSchemeValue::float_bits(1.5f64.to_bits()),
            ]),
        ),
    ]);
    assert_eq!(
        scheme_value_to_datum(&value, &float_text),
        "(record (\"flag\" #t) (\"items\" (vector null \"x y\" 1.5)) (\"n\" -12))"
    );
    assert_eq!(scheme_value_to_datum(&GerbilSchemeValue::vector(vec![]), &float_text), "(vector )");
    assert_eq!(scheme_value_to_datum(&GerbilSchemeValue::boolean(false), &float_text), "#f");
    assert_eq!(scheme_value_to_datum(&GerbilSchemeValue::empty_record(), &float_text), "(record )");
}

#[test]
fn datums_are_read_back_as_values() {
    let value = parse_scheme_value_datum(
        "(record (\"status\" executed) (\"payload\" (vector 1 2.5 #f null \"q\\\"\")) (\"status\" \"denied\"))",
        &float_bits,
    )
    .unwrap();
    assert_eq!(value.get("status").and_then(|v| v.as_text()), Some("denied"));
    let payload = value.get("payload").unwrap();
    assert_eq!(payload.get_index(0), Some(&GerbilSchemeValue::integer(1)));
    assert_eq!(payload.get_index(1), Some(&GerbilSchemeValue::float_bits(2.5f64.to_bits())));
    assert_eq!(payload.get_index(2), Some(&GerbilSchemeValue::boolean(false)));
    assert_eq!(payload.get_index(3), Some(&GerbilSchemeValue::null()));
    assert_eq!(payload.get_index(4), Some(&GerbilSchemeValue::text("q\"")));

    assert_eq!(
        parse_scheme_value_datum("(a b)", &float_bits),
        Ok(GerbilSchemeValue::vector(vec![GerbilSchemeValue::text("a"), GerbilSchemeValue::text("b")]))
    );
    assert_eq!(parse_scheme_value_datum("  42  ", &float_bits), Ok(GerbilSchemeValue::integer(42)));
    assert_eq!(parse_scheme_value_datum("(vector)", &float_bits), Ok(GerbilSchemeValue::vector(vec![])));

    let written = GerbilSchemeValue::record(vec![
        ("k".to_owned(), GerbilSchemeValue::text("tab\there")),
        ("z".to_owned(), GerbilSchemeValue::vector(vec![GerbilSchemeValue::integer(i64::MIN)])),
    ]);
    let text = scheme_value_to_datum(&written, &float_text);
    assert_eq!(parse_scheme_value_datum(&text, &float_bits), Ok(written));
}

#[test]
fn bad_datums_are_refused_with_their_reason() {
    let errors = [
        ("", "resident strategy response ended before a datum"),
        ("(1 2", "resident strategy response ended before a datum"),
        ("\"open", "resident strategy response has unterminated string"),
        ("\"dangling\\", "resident strategy response has dangling string escape"),
        ("#x", "resident strategy response has invalid boolean datum"),
        (")", "resident strategy response has empty atom"),
        ("1 2", "resident strategy response has trailing datum content"),
        ("(record 5)", "resident strategy record entry is not a field pair"),
        ("(record (\"k\"))", "resident strategy record field must contain key and value"),
        ("(record (7 1))", "resident strategy record field key is not text"),
    ];
    for (input, message) in errors {
        assert_eq!(parse_scheme_value_datum(input, &float_bits), Err(message.to_owned()), "{input}");
    }
}

use marlin_gerbil_scheme::resident_runtime::bridge::{
    bridge_command_failure_reason, bridge_response_from_output, last_output_line,
    response_from_bridge_reply,
};

#[test]
fn bridge_expression_quotes_the_request_record() {
    let profile = shared_plan().prepared(vec![]).process_plan().command_profile.unwrap();
    let bridge = GerbilResidentStrategyGxiSmokeBridge::new(profile, ":m/strategy", "run");
    let value = GerbilSchemeValue::record(vec![("k".to_owned(), GerbilSchemeValue::integer(1))]);
    assert_eq!(
        bridge.bridge_expression(&value, &float_text),
        "(begin (import :m/strategy) (write (run (quote (record (\"k\" 1))))) (newline))"
    );
}

#[test]
fn bridge_output_becomes_a_response() {
    let failed = bridge_response_from_output(false, Some(2), " out \n", "boom\n", &float_bits);
    assert_eq!(failed.status, GerbilResidentStrategyExecutionStatus::RuntimeError);
    assert_eq!(
        failed.reason.as_deref(),
        Some("resident Gerbil strategy procedure failed status=Some(2) stdout=out stderr=boom")
    );
    assert_eq!(
        bridge_command_failure_reason(None, "", ""),
        "resident Gerbil strategy procedure failed status=None stdout= stderr="
    );
    assert_eq!(
        bridge_command_failure_reason(Some(-1), "a", "b"),
        "resident Gerbil strategy procedure failed status=Some(-1) stdout=a stderr=b"
    );

    let silent = bridge_response_from_output(true, Some(0), "\n  \n", "", &float_bits);
    assert_eq!(silent.reason.as_deref(), Some("resident Gerbil strategy procedure returned no output"));

    let stdout = "loading\n  (record (\"status\" \"deferred\") (\"reason\" \"busy\"))  \n\n";
    assert_eq!(
        last_output_line(stdout).as_deref(),
        Some("  (record (\"status\" \"deferred\") (\"reason\" \"busy\"))  ")
    );
    let deferred = bridge_response_from_output(true, Some(0), stdout, "", &float_bits);
    assert_eq!(deferred.status, GerbilResidentStrategyExecutionStatus::Deferred);
    assert_eq!(deferred.reason.as_deref(), Some("busy"));

    let garbled = bridge_response_from_output(true, Some(0), "(record", "", &float_bits);
    assert_eq!(garbled.status, GerbilResidentStrategyExecutionStatus::RuntimeError);
    assert_eq!(garbled.reason.as_deref(), Some("resident strategy response ended before a datum"));

    let unknown = response_from_bridge_reply(Ok(GerbilSchemeValue::record(vec![(
        "status".to_owned(),
        GerbilSchemeValue::text("gone"),
    )])));
    assert_eq!(unknown.reason.as_deref(), Some("unknown resident strategy response status: gone"));
    let failed_parse = response_from_bridge_reply(Err("bad".to_owned()));
    assert_eq!(failed_parse.status, GerbilResidentStrategyExecutionStatus::RuntimeError);
    assert_eq!(failed_parse.reason.as_deref(), Some("bad"));
}

use marlin_gerbil_scheme::resident_runtime::execution::{
    GerbilResidentStrategyAdmission, admit_strategy_execution,
};

#[test]
fn only_accepted_requests_reach_the_executor() {
    let service = shared_plan().prepared(vec![]).strategy_service_plan();
    let request = GerbilResidentStrategyRequest::new("r1", GerbilResidentStrategyEventKind::DynamicReplan);
    let accepted = service.request_receipt(request.clone());
    match admit_strategy_execution(accepted.clone(), payload(), 5) {
        GerbilResidentStrategyAdmission::Execute { request_receipt, payload: p } => {
            assert_eq!(request_receipt, accepted);
            assert_eq!(p, payload());
        }
        GerbilResidentStrategyAdmission::Rejected(_) => panic!("accepted request was rejected"),
    }
    let refused = service.request_receipt(request.with_lane_id("batch"));
    match admit_strategy_execution(refused, payload(), 5) {
        GerbilResidentStrategyAdmission::Rejected(receipt) => {
            assert_eq!(receipt.status, GerbilResidentStrategyExecutionStatus::AdmissionRejected);
            assert!(!receipt.performance.executor_invoked);
            assert_eq!(receipt.performance.elapsed_micros, 5);
        }
        GerbilResidentStrategyAdmission::Execute { .. } => panic!("refused request was executed"),
    }
}
