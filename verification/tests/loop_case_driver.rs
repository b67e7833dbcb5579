use marlin_gerbil_scheme::loop_case_driver::{
    GerbilLoopCaseDriverProjectedLoopProgramRequest, GerbilLoopCaseDriverSchemeReceipt,
    GerbilLoopCaseRuntimeHandoffStatus, IntentCaseArtifactKind,
    gerbil_config_interface_loadpath_with_src, intent_case_manifest_diagnostics,
    parse_gerbil_loop_case_driver_vertical_trace, plan_gerbil_loop_case_driver_intent_case_artifact_manifest,
    project_gerbil_loop_case_driver_case_from_trace, project_gerbil_loop_case_driver_loop_program,
    project_gerbil_loop_case_driver_rust_loop_receipt, verify_gerbil_loop_case_driver_vertical_trace,
};

fn base_fields() -> Vec<(&'static str, String)> {
    let octets: Vec<String> = (0..32).map(|n: u32| n.to_string()).collect();
    vec![
        ("case-id", "demo-case".to_owned()),
        ("profile-ref", "custom/profiles/demo.ss".to_owned()),
        ("compiler-owner", "gerbil-poo-flow".to_owned()),
        ("compiler-profile-id", "custom/profiles/demo.ss".to_owned()),
        ("loop-program-id", "demo-program".to_owned()),
        ("capability-tags", "(+dag +typed-receipts)".to_owned()),
        ("live-gate-env", "none".to_owned()),
        ("live-llm-required?", "#f".to_owned()),
        ("live-llm-allowed?", "#f".to_owned()),
        ("live-llm-denial-receipt", "not-required".to_owned()),
        ("llm-repair-intent", "none".to_owned()),
        ("session-transform", "loop-policy-profile->loop-program".to_owned()),
        ("tool-intent-count", "1".to_owned()),
        ("memory-intent-count", "0".to_owned()),
        ("placement-intent-count", "1".to_owned()),
        ("runtime-handoff-kind", "loop-program-runtime-handoff".to_owned()),
        ("runtime-receipt-kind", "loop-program-runtime-receipt".to_owned()),
        ("derived-session-kind", "derived-session/from-loop-receipt".to_owned()),
        (
            "module-kind",
            "marlin.config-interface.loop-policy-profile-projection.v1".to_owned(),
        ),
        ("module-user-module", "funflow".to_owned()),
        ("module-selection-tags", "(+dag +typed-receipts)".to_owned()),
        ("module-source-ref", "custom/profiles/demo.ss".to_owned()),
        ("module-entrypoint", "marlinLoopPolicyProfileCompilerReceipts".to_owned()),
        ("module-enabled?", "#t".to_owned()),
        ("resolved-policy-pack-policy-epoch", "7".to_owned()),
        ("loop-program-policy-epoch", "7".to_owned()),
        ("transition-count", "3".to_owned()),
        ("transition-actions", "invoke_model|dispatch_tools|stop".to_owned()),
        ("transition-events", "start|model_event|tool_receipt".to_owned()),
        ("mechanism-policy-count", "1".to_owned()),
        ("mechanism-policy-ids", "mech.default".to_owned()),
        ("policy-digest-length", "32".to_owned()),
        ("policy-digest-octets", octets.join(",")),
        ("capability-mask", "3".to_owned()),
        ("budget-max-attempts", "3".to_owned()),
        ("budget-max-cost-units", "100".to_owned()),
        ("budget-max-wall-time-ms", "1000".to_owned()),
        ("policy-forced-slot-count", "1".to_owned()),
        ("policy-merge-receipt-count", "2".to_owned()),
        ("policy-conflict-merge-receipt-count", "1".to_owned()),
        ("policy-merge-kinds", "union|min".to_owned()),
        ("policy-merge-statuses", "applied|conflict".to_owned()),
        ("scheme-boundary", "scheme-types->rust-types".to_owned()),
        ("serialization-boundary", "rust-owned-cli-trace-cross-process".to_owned()),
    ]
}

fn row_text(index: usize, fields: &[(&'static str, String)]) -> String {
    fields
        .iter()
        .map(|(field, value)| format!("vertical-case.{index}.{field}={value}\n"))
        .collect()
}

fn with_field(field: &'static str, value: &str) -> Vec<(&'static str, String)> {
    base_fields()
        .into_iter()
        .map(|(f, v)| if f == field { (f, value.to_owned()) } else { (f, v) })
        .collect()
}

fn demo_trace() -> String {
    format!("smoke output\n{}done\n", row_text(0, &base_fields()))
}

#[test]
fn verified_trace_yields_one_trusted_receipt() {
    let receipts = verify_gerbil_loop_case_driver_vertical_trace(&demo_trace(), 1).unwrap();
    assert_eq!(receipts.len(), 1);
    let receipt = &receipts[0];
    assert_eq!(receipt.case_id().as_str(), "demo-case");
    assert_eq!(receipt.transition_count(), 3);
    assert_eq!(receipt.policy_epoch(), 7);
    assert_eq!(receipt.policy_digest_octets().len(), 32);
    assert_eq!(receipt.transition_actions(), &vec!["invoke_model".to_owned(), "dispatch_tools".to_owned(), "stop".to_owned()]);
}

#[test]
fn parse_and_verify_agree_on_a_trusted_trace() {
    let parsed = parse_gerbil_loop_case_driver_vertical_trace(&demo_trace()).unwrap();
    let verified = verify_gerbil_loop_case_driver_vertical_trace(&demo_trace(), 1).unwrap();
    assert_eq!(parsed, verified);
}

#[test]
fn verify_rejects_a_count_mismatch() {
    let error = verify_gerbil_loop_case_driver_vertical_trace(&demo_trace(), 2).unwrap_err();
    assert_eq!(error.message(), "vertical trace receipt count 1 does not match expected 2");
}

#[test]
fn trace_without_rows_is_refused() {
    let error = parse_gerbil_loop_case_driver_vertical_trace("no rows here\n").unwrap_err();
    assert_eq!(error.message(), "vertical trace did not contain any vertical-case rows");
}

#[test]
fn trace_line_without_equals_is_refused() {
    let error = parse_gerbil_loop_case_driver_vertical_trace("vertical-case.0.case-id\n").unwrap_err();
    assert_eq!(error.message(), "vertical trace line missing '=': vertical-case.0.case-id");
}

#[test]
fn trace_indices_must_be_contiguous() {
    let text = format!("{}{}", row_text(0, &base_fields()), row_text(2, &base_fields()));
    let error = parse_gerbil_loop_case_driver_vertical_trace(&text).unwrap_err();
    assert_eq!(error.message(), "vertical trace index 2 is not contiguous at 1");
}

#[test]
fn missing_field_is_refused() {
    let fields: Vec<_> = base_fields().into_iter().filter(|(f, _)| *f != "profile-ref").collect();
    let error = parse_gerbil_loop_case_driver_vertical_trace(&row_text(0, &fields)).unwrap_err();
    assert_eq!(error.message(), "vertical trace 0 is missing profile-ref");
}

#[test]
fn untrusted_compiler_owner_fails_verification() {
    let text = row_text(0, &with_field("compiler-owner", "other"));
    assert!(parse_gerbil_loop_case_driver_vertical_trace(&text).is_ok());
    let error = verify_gerbil_loop_case_driver_vertical_trace(&text, 1).unwrap_err();
    assert_eq!(error.message(), "vertical trace 0 compiler owner other is not gerbil-poo-flow");
}

#[test]
fn verified_receipt_projects_into_a_loop_program() {
    let receipts = verify_gerbil_loop_case_driver_vertical_trace(&demo_trace(), 1).unwrap();
    let program = project_gerbil_loop_case_driver_loop_program(&receipts[0]).unwrap();
    assert_eq!(program.program_id, "demo-program");
    assert_eq!(program.policy_epoch, 7);
    assert_eq!(program.initial_state, "scheme-state-0");
    assert_eq!(program.transitions.len(), 3);
    assert_eq!(program.transitions[1].transition_id, "scheme-projected-transition-1");
    assert_eq!(program.transitions[1].from, "scheme-state-1");
    assert_eq!(program.transitions[1].to, "scheme-state-2");
}

#[test]
fn unknown_action_does_not_project() {
    let text = row_text(0, &with_field("transition-actions", "invoke_model|dance|stop"));
    let receipts = parse_gerbil_loop_case_driver_vertical_trace(&text).unwrap();
    let error = project_gerbil_loop_case_driver_loop_program(&receipts[0]).unwrap_err();
    assert_eq!(error.message(), "unsupported Scheme-projected loop action dance");
}

#[test]
fn requested_case_is_selected_and_projected() {
    let request = GerbilLoopCaseDriverProjectedLoopProgramRequest::new("demo-case", "demo-program")
        .with_expected_vertical_trace_count(1)
        .with_profile_ref("custom/profiles/demo.ss")
        .with_live_llm_required(false)
        .with_required_capability("+dag");
    let projected = project_gerbil_loop_case_driver_case_from_trace(&request, &demo_trace()).unwrap();
    assert_eq!(projected.receipt().case_id().as_str(), "demo-case");
    assert_eq!(projected.loop_program().transitions.len(), 3);
}

#[test]
fn profile_mismatch_is_reported() {
    let request = GerbilLoopCaseDriverProjectedLoopProgramRequest::new("demo-case", "demo-program")
        .with_expected_vertical_trace_count(1)
        .with_profile_ref("other.ss");
    let error = project_gerbil_loop_case_driver_case_from_trace(&request, &demo_trace()).unwrap_err();
    assert_eq!(
        error.message(),
        "Scheme vertical trace case=demo-case expected profile_ref=other.ss but got custom/profiles/demo.ss"
    );
}

#[test]
fn missing_case_is_reported() {
    let request = GerbilLoopCaseDriverProjectedLoopProgramRequest::new("other-case", "demo-program")
        .with_expected_vertical_trace_count(1);
    let error = project_gerbil_loop_case_driver_case_from_trace(&request, &demo_trace()).unwrap_err();
    assert_eq!(
        error.message(),
        "Scheme vertical trace should include case=other-case loop_program=demo-program"
    );
}

#[test]
fn config_interface_loadpath_puts_package_sources_first() {
    assert_eq!(
        gerbil_config_interface_loadpath_with_src("/opt/gerbil", None),
        "/opt/gerbil/src:/opt/gerbil/.gerbil/lib"
    );
    assert_eq!(
        gerbil_config_interface_loadpath_with_src("/opt/gerbil/", Some("/a:/b")),
        "/opt/gerbil/src:/opt/gerbil/.gerbil/lib:/a:/b"
    );
}

#[test]
fn no_live_llm_fixture_defers_its_runtime_handoff() {
    let receipt = GerbilLoopCaseDriverSchemeReceipt::runtime_handoff_no_live_llm_fixture("case-1", "in.json");
    let projected = project_gerbil_loop_case_driver_rust_loop_receipt(&receipt);
    assert_eq!(projected.runtime_handoff_status, GerbilLoopCaseRuntimeHandoffStatus::DeferredNoLiveLlm);
    assert!(!projected.live_llm_required);
    assert!(!projected.live_llm_allowed);
    assert_eq!(projected.input_path, "in.json");
    assert_eq!(
        projected.schema_id,
        "marlin-gerbil-scheme.config-interface.loop-case-rust-loop-receipt.v1"
    );
}

#[test]
fn intent_case_plan_of_a_verified_receipt() {
    let receipts = verify_gerbil_loop_case_driver_vertical_trace(&demo_trace(), 1).unwrap();
    let plan = plan_gerbil_loop_case_driver_intent_case_artifact_manifest(&receipts[0], "run/1");
    assert_eq!(plan.artifact_prefix, "artifacts/intent-cases/demo-case/run_1");
    assert_eq!(
        plan.policy_digest,
        "000102030405060708090a0b0c0d0e0f101112131415161718191a1b1c1d1e1f"
    );
    let kinds: Vec<IntentCaseArtifactKind> = plan.artifacts.iter().map(|a| a.kind).collect();
    assert_eq!(
        kinds,
        vec![
            IntentCaseArtifactKind::Intent,
            IntentCaseArtifactKind::PolicyPack,
            IntentCaseArtifactKind::LoopProgram,
            IntentCaseArtifactKind::VerticalTrace,
            IntentCaseArtifactKind::ExecutionTrace,
            IntentCaseArtifactKind::PolicyExplanation,
            IntentCaseArtifactKind::ReplayScript,
            IntentCaseArtifactKind::ModelEvents,
            IntentCaseArtifactKind::ToolCalls,
        ]
    );
    assert_eq!(plan.artifacts[1].path, "artifacts/intent-cases/demo-case/run_1/10-policy-pack.receipt");
    assert_eq!(plan.artifacts[1].content_digest.as_deref(), Some(plan.policy_digest.as_str()));
    assert_eq!(plan.artifacts[0].content_digest, None);
    assert_eq!(plan.trace_entries.len(), 3);
    let first = &plan.trace_entries[0];
    assert_eq!(first.trace_id, "demo-case:trace-step-1");
    assert_eq!(first.transition_id, "demo-program:transition-1");
    assert_eq!(
        first.artifact_refs,
        vec![
            "demo-case:vertical-trace".to_owned(),
            "demo-case:execution-trace".to_owned(),
            "demo-case:model-events".to_owned(),
        ]
    );
    assert_eq!(first.model_invocation_id.as_deref(), Some("demo-case:demo-program:model-invocation-1"));
    let second = &plan.trace_entries[1];
    assert_eq!(second.tool_call_id.as_deref(), Some("demo-case:demo-program:tool-call-2"));
    assert_eq!(second.resource_key.as_deref(), Some("agent-flow.tool-intent"));
    assert_eq!(second.sandbox_profile.as_deref(), Some("scripted-tool"));
    assert!(intent_case_manifest_diagnostics(&receipts[0], &plan, true).is_empty());
    assert_eq!(
        intent_case_manifest_diagnostics(&receipts[0], &plan, false),
        vec!["intent-case manifest is missing a core artifact lane".to_owned()]
    );
}

#[test]
fn lines_outside_the_trace_change_nothing() {
    let plain = row_text(0, &base_fields());
    let noisy: String = plain
        .lines()
        .map(|line| format!("gxi: compiling\n{line}\nvertical-cases are logged\n"))
        .collect();
    let a = parse_gerbil_loop_case_driver_vertical_trace(&plain).unwrap();
    let b = parse_gerbil_loop_case_driver_vertical_trace(&noisy).unwrap();
    assert_eq!(a, b);
    assert_eq!(
        verify_gerbil_loop_case_driver_vertical_trace(&noisy, 1).unwrap(),
        verify_gerbil_loop_case_driver_vertical_trace(&plain, 1).unwrap()
    );
}
