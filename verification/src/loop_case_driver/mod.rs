//! Typed Rust projection for config-interface loop case driver receipts.

pub mod ids;
pub mod intent_case;
pub mod loop_program_projection;
pub mod projected_case;
pub mod real_llm_case;
pub mod receipt;
pub mod vertical_trace;

pub use ids::{
    GerbilLoopCaseDriverCapability, GerbilLoopCaseDriverCaseId, GerbilLoopCaseDriverLoopProgramId,
    GerbilLoopCaseDriverProfileRef,
};
pub use intent_case::{
    GERBIL_LOOP_CASE_DRIVER_INTENT_CASE_RUNTIME_OWNER, IntentCaseArtifactKind,
    IntentCaseArtifactRefPlan, IntentCaseManifestPlan, IntentCaseTraceEntryPlan,
    intent_case_manifest_diagnostics,
    plan_gerbil_loop_case_driver_intent_case_artifact_manifest,
};
pub use loop_program_projection::{
    GerbilLoopCaseDriverLoopProgramProjectionError,
    project_gerbil_loop_case_driver_loop_action_kind,
    project_gerbil_loop_case_driver_loop_event_kind, project_gerbil_loop_case_driver_loop_program,
};
pub use projected_case::{
    GerbilLoopCaseDriverProjectedLoopProgram, GerbilLoopCaseDriverProjectedLoopProgramError,
    GerbilLoopCaseDriverProjectedLoopProgramRequest, gerbil_config_interface_loadpath_with_src,
    project_gerbil_loop_case_driver_case_from_trace,
};
pub use real_llm_case::{
    GerbilLoopCaseDriverRealLlmCaseReceipt, GerbilLoopCaseDriverRealLlmCaseReceiptError,
    TraceJson, TraceJsonNumber, parse_gerbil_loop_case_driver_real_llm_case_receipt, real_llm_case_receipt_from_decoded,
    trace_object_text,
};
pub use receipt::{
    GERBIL_LOOP_CASE_DRIVER_RUST_LOOP_RECEIPT_SCHEMA_ID, GERBIL_LOOP_CASE_DRIVER_SCHEME_RECEIPT_KIND,
    GerbilLoopCaseCommandKind, GerbilLoopCaseDriverRustLoopReceipt,
    GerbilLoopCaseDriverSchemeReceipt, GerbilLoopCaseDriverSchemeReceiptKind,
    GerbilLoopCaseModuleKind, GerbilLoopCaseModuleName, GerbilLoopCaseModuleSelectionTag,
    GerbilLoopCaseRuntimeHandoffStatus, GerbilLoopCaseRuntimeMode, GerbilLoopCaseSchemeBoundary,
    GerbilLoopCaseSerializationBoundary, GerbilLoopCaseSmokeStatus,
    project_gerbil_loop_case_driver_rust_loop_receipt,
};
pub use vertical_trace::{
    GerbilLoopCaseDriverVerticalTraceError, GerbilLoopCaseDriverVerticalTraceReceipt,
    parse_gerbil_loop_case_driver_vertical_trace, verify_gerbil_loop_case_driver_vertical_trace,
};
