//! Typed receipt projection for config-interface loop case driver receipts.

use vstd::prelude::*;
use vstd::std_specs::cmp::PartialEqSpecImpl;

use super::ids::{GerbilLoopCaseDriverCaseId, GerbilLoopCaseDriverProfileRef};
use crate::text::seq_views;

verus! {

/// Scheme receipt kind emitted by the config-interface loop case driver.
pub const GERBIL_LOOP_CASE_DRIVER_SCHEME_RECEIPT_KIND: &'static str =
    "marline-kernel.loop-case-driver.receipt.v1";

/// Rust loop receipt schema projected from a Scheme loop policy case.
pub const GERBIL_LOOP_CASE_DRIVER_RUST_LOOP_RECEIPT_SCHEMA_ID: &'static str =
    "marlin-gerbil-scheme.config-interface.loop-case-rust-loop-receipt.v1";

/// Command lane selected by the Scheme case driver.
#[derive(Clone, Copy, Debug, PartialEq, Eq, Structural)]
pub enum GerbilLoopCaseCommandKind {
    LoopProgramRun,
    LoopRun,
}

/// Typed receipt kind emitted by the config-interface loop case driver.
#[derive(Clone, Copy, Debug, PartialEq, Eq, Structural)]
pub enum GerbilLoopCaseDriverSchemeReceiptKind {
    MarlineKernelLoopCaseDriverReceipt,
}

impl GerbilLoopCaseDriverSchemeReceiptKind {
    /// The wire label of this kind.
    pub open spec fn label(self) -> Seq<char> {
        "marline-kernel.loop-case-driver.receipt.v1"@
    }

    #[must_use]
    pub fn as_str(self) -> (text: &'static str)
        ensures
            text@ == self.label(),
    {
        match self {
            GerbilLoopCaseDriverSchemeReceiptKind::MarlineKernelLoopCaseDriverReceipt => {
                "marline-kernel.loop-case-driver.receipt.v1"
            },
        }
    }
}

/// Runtime mode selected by the Scheme config-interface case driver.
#[derive(Clone, Copy, Debug, PartialEq, Eq, Structural)]
pub enum GerbilLoopCaseRuntimeMode {
    LoopRuntime,
    RealLlmOptIn,
    TypedLoopProjection,
}

impl GerbilLoopCaseRuntimeMode {
    /// The wire label of this mode.
    pub open spec fn label(self) -> Seq<char> {
        match self {
            GerbilLoopCaseRuntimeMode::LoopRuntime => "loop-runtime"@,
            GerbilLoopCaseRuntimeMode::RealLlmOptIn => "real-llm-opt-in"@,
            GerbilLoopCaseRuntimeMode::TypedLoopProjection => "typed-loop-projection"@,
        }
    }

    #[must_use]
    pub fn as_str(self) -> (text: &'static str)
        ensures
            text@ == self.label(),
    {
        match self {
            GerbilLoopCaseRuntimeMode::LoopRuntime => "loop-runtime",
            GerbilLoopCaseRuntimeMode::RealLlmOptIn => "real-llm-opt-in",
            GerbilLoopCaseRuntimeMode::TypedLoopProjection => "typed-loop-projection",
        }
    }
}

/// Smoke status reported by the Scheme case driver.
#[derive(Clone, Copy, Debug, PartialEq, Eq, Structural)]
pub enum GerbilLoopCaseSmokeStatus {
    LiveEnabled,
    NoLiveLlmDenied,
    TypedLoopProjectionReady,
}

/// Runtime handoff status after Rust receives the typed Scheme case.
#[derive(Clone, Copy, Debug, PartialEq, Eq, Structural)]
pub enum GerbilLoopCaseRuntimeHandoffStatus {
    Ready,
    DeferredNoLiveLlm,
}

/// Internal boundary for Scheme-to-Rust case projection.
#[derive(Clone, Copy, Debug, PartialEq, Eq, Structural)]
pub enum GerbilLoopCaseSchemeBoundary {
    SchemeTypesToRustTypes,
}

impl GerbilLoopCaseSchemeBoundary {
    /// The wire label of this boundary.
    pub open spec fn label(self) -> Seq<char> {
        "scheme-types->rust-types"@
    }

    #[must_use]
    pub fn as_str(self) -> (text: &'static str)
        ensures
            text@ == self.label(),
    {
        match self {
            GerbilLoopCaseSchemeBoundary::SchemeTypesToRustTypes => "scheme-types->rust-types",
        }
    }
}

/// External serialization boundary owned by Rust.
#[derive(Clone, Copy, Debug, PartialEq, Eq, Structural)]
pub enum GerbilLoopCaseSerializationBoundary {
    RustOwnedCliTraceCrossProcess,
}

impl GerbilLoopCaseSerializationBoundary {
    /// The wire label of this boundary.
    pub open spec fn label(self) -> Seq<char> {
        "rust-owned-cli-trace-cross-process"@
    }

    #[must_use]
    pub fn as_str(self) -> (text: &'static str)
        ensures
            text@ == self.label(),
    {
        match self {
            GerbilLoopCaseSerializationBoundary::RustOwnedCliTraceCrossProcess => {
                "rust-owned-cli-trace-cross-process"
            },
        }
    }
}

/// POO Flow module projection kind carried by a Scheme case-driver receipt.
#[derive(Debug, Hash, PartialOrd, Ord)]
pub struct GerbilLoopCaseModuleKind(String);

impl View for GerbilLoopCaseModuleKind {
    type V = Seq<char>;

    closed spec fn view(&self) -> Seq<char> {
        self.0@
    }
}

impl GerbilLoopCaseModuleKind {
    #[must_use]
    pub fn new(value: &str) -> (id: Self)
        ensures
            id@ == value@,
    {
        GerbilLoopCaseModuleKind(value.to_owned())
    }

    #[must_use]
    pub fn as_str(&self) -> (text: &str)
        ensures
            text@ == self@,
    {
        self.0.as_str()
    }
}

impl Clone for GerbilLoopCaseModuleKind {
    fn clone(&self) -> (copy: Self)
        ensures
            copy == *self,
    {
        GerbilLoopCaseModuleKind(self.0.clone())
    }
}

impl PartialEq for GerbilLoopCaseModuleKind {
    fn eq(&self, other: &Self) -> (same: bool) {
        self.0 == other.0
    }
}

impl Eq for GerbilLoopCaseModuleKind {}

impl PartialEqSpecImpl for GerbilLoopCaseModuleKind {
    open spec fn obeys_eq_spec() -> bool {
        true
    }

    open spec fn eq_spec(&self, other: &Self) -> bool {
        self@ == other@
    }
}

/// POO Flow user module name that owns the projected case semantics.
#[derive(Debug, Hash, PartialOrd, Ord)]
pub struct GerbilLoopCaseModuleName(String);

impl View for GerbilLoopCaseModuleName {
    type V = Seq<char>;

    closed spec fn view(&self) -> Seq<char> {
        self.0@
    }
}

impl GerbilLoopCaseModuleName {
    #[must_use]
    pub fn new(value: &str) -> (id: Self)
        ensures
            id@ == value@,
    {
        GerbilLoopCaseModuleName(value.to_owned())
    }

    #[must_use]
    pub fn as_str(&self) -> (text: &str)
        ensures
            text@ == self@,
    {
        self.0.as_str()
    }
}

impl Clone for GerbilLoopCaseModuleName {
    fn clone(&self) -> (copy: Self)
        ensures
            copy == *self,
    {
        GerbilLoopCaseModuleName(self.0.clone())
    }
}

impl PartialEq for GerbilLoopCaseModuleName {
    fn eq(&self, other: &Self) -> (same: bool) {
        self.0 == other.0
    }
}

impl Eq for GerbilLoopCaseModuleName {}

impl PartialEqSpecImpl for GerbilLoopCaseModuleName {
    open spec fn obeys_eq_spec() -> bool {
        true
    }

    open spec fn eq_spec(&self, other: &Self) -> bool {
        self@ == other@
    }
}

/// POO Flow module selection capability tag projected into the Rust receipt.
#[derive(Debug, Hash, PartialOrd, Ord)]
pub struct GerbilLoopCaseModuleSelectionTag(String);

impl View for GerbilLoopCaseModuleSelectionTag {
    type V = Seq<char>;

    closed spec fn view(&self) -> Seq<char> {
        self.0@
    }
}

impl GerbilLoopCaseModuleSelectionTag {
    #[must_use]
    pub fn new(value: &str) -> (id: Self)
        ensures
            id@ == value@,
    {
        GerbilLoopCaseModuleSelectionTag(value.to_owned())
    }

    #[must_use]
    pub fn as_str(&self) -> (text: &str)
        ensures
            text@ == self@,
    {
        self.0.as_str()
    }
}

impl Clone for GerbilLoopCaseModuleSelectionTag {
    fn clone(&self) -> (copy: Self)
        ensures
            copy == *self,
    {
        GerbilLoopCaseModuleSelectionTag(self.0.clone())
    }
}

impl PartialEq for GerbilLoopCaseModuleSelectionTag {
    fn eq(&self, other: &Self) -> (same: bool) {
        self.0 == other.0
    }
}

impl Eq for GerbilLoopCaseModuleSelectionTag {}

impl PartialEqSpecImpl for GerbilLoopCaseModuleSelectionTag {
    open spec fn obeys_eq_spec() -> bool {
        true
    }

    open spec fn eq_spec(&self, other: &Self) -> bool {
        self@ == other@
    }
}

/// Typed Scheme case-driver receipt consumed by Rust.
#[derive(Clone, Debug, PartialEq, Eq)]
pub struct GerbilLoopCaseDriverSchemeReceipt {
    pub kind: GerbilLoopCaseDriverSchemeReceiptKind,
    pub case_id: GerbilLoopCaseDriverCaseId,
    pub profile_ref: GerbilLoopCaseDriverProfileRef,
    pub runtime_mode: GerbilLoopCaseRuntimeMode,
    pub live_gate_env: String,
    pub live_enabled: bool,
    pub smoke_status: GerbilLoopCaseSmokeStatus,
    pub command_kind: GerbilLoopCaseCommandKind,
    pub command_vector: Vec<String>,
    pub input_path: String,
    pub stable_fixture: bool,
    pub result_protocol: String,
    pub policy_owner: String,
    pub control_plane_owner: String,
    pub runtime_execution_owner: String,
    pub module_kind: GerbilLoopCaseModuleKind,
    pub module_user_module: GerbilLoopCaseModuleName,
    pub module_selection_tags: Vec<GerbilLoopCaseModuleSelectionTag>,
    pub module_source_ref: String,
    pub module_entrypoint: String,
    pub module_enabled: bool,
    pub scheme_boundary: GerbilLoopCaseSchemeBoundary,
    pub serialization_boundary: GerbilLoopCaseSerializationBoundary,
}

/// Rust loop receipt derived from one typed Scheme policy case.
#[derive(Clone, Debug, PartialEq, Eq)]
pub struct GerbilLoopCaseDriverRustLoopReceipt {
    pub schema_id: String,
    pub case_id: GerbilLoopCaseDriverCaseId,
    pub profile_ref: GerbilLoopCaseDriverProfileRef,
    pub command_kind: GerbilLoopCaseCommandKind,
    pub command_vector: Vec<String>,
    pub input_path: String,
    pub runtime_handoff_status: GerbilLoopCaseRuntimeHandoffStatus,
    pub runtime_execution_owner: String,
    pub module_kind: GerbilLoopCaseModuleKind,
    pub module_user_module: GerbilLoopCaseModuleName,
    pub module_selection_tags: Vec<GerbilLoopCaseModuleSelectionTag>,
    pub module_source_ref: String,
    pub module_entrypoint: String,
    pub module_enabled: bool,
    pub live_llm_required: bool,
    pub live_llm_allowed: bool,
    pub stable_fixture: bool,
    pub scheme_boundary: GerbilLoopCaseSchemeBoundary,
    pub serialization_boundary: GerbilLoopCaseSerializationBoundary,
}

/// The selection tags of `tags`, as character sequences.
pub open spec fn tag_views(tags: Seq<&str>) -> Seq<Seq<char>> {
    tags.map_values(|t: &str| t@)
}

impl GerbilLoopCaseDriverSchemeReceipt {
    /// Fixture for a default loop-runtime case whose live LLM lane is denied.
    pub fn runtime_handoff_no_live_llm_fixture(case_id: &str, input_path: &str) -> (receipt: Self)
        ensures
            receipt.kind == GerbilLoopCaseDriverSchemeReceiptKind::MarlineKernelLoopCaseDriverReceipt,
            receipt.case_id@ == case_id@,
            receipt.profile_ref@ == "custom/marline-kernel/profiles/default-loop-runtime.ss"@,
            receipt.runtime_mode == GerbilLoopCaseRuntimeMode::LoopRuntime,
            receipt.live_gate_env@ == "MARLIN_LIVE_LLM"@,
            !receipt.live_enabled,
            receipt.smoke_status == GerbilLoopCaseSmokeStatus::NoLiveLlmDenied,
            receipt.command_kind == GerbilLoopCaseCommandKind::LoopProgramRun,
            seq_views(receipt.command_vector@) == seq!["loop-program"@, "run"@],
            receipt.input_path@ == input_path@,
            receipt.stable_fixture,
            receipt.result_protocol@ == "rust-loop-receipt"@,
            receipt.policy_owner@ == "gerbil-config-interface"@,
            receipt.control_plane_owner@ == "gerbil-config-interface"@,
            receipt.runtime_execution_owner@ == "rust-loop-runtime"@,
            receipt.module_kind@ == "poo-flow.modules.user-selection.v1"@,
            receipt.module_user_module@ == "funflow"@,
            seq_views(receipt.module_selection_tags@) == seq![
                "+functional"@,
                "+dag"@,
                "+typed-receipts"@,
                "+runtime-manifest"@,
            ],
            receipt.module_source_ref@ == "none"@,
            receipt.module_entrypoint@ == "none"@,
            receipt.module_enabled,
            receipt.scheme_boundary == GerbilLoopCaseSchemeBoundary::SchemeTypesToRustTypes,
            receipt.serialization_boundary
                == GerbilLoopCaseSerializationBoundary::RustOwnedCliTraceCrossProcess,
    {
        let command_vector = vec!["loop-program".to_owned(), "run".to_owned()];
        let module_selection_tags = vec![
            GerbilLoopCaseModuleSelectionTag::new("+functional"),
            GerbilLoopCaseModuleSelectionTag::new("+dag"),
            GerbilLoopCaseModuleSelectionTag::new("+typed-receipts"),
            GerbilLoopCaseModuleSelectionTag::new("+runtime-manifest"),
        ];
        assert(seq_views(command_vector@) =~= seq!["loop-program"@, "run"@]);
        assert(seq_views(module_selection_tags@) =~= seq![
            "+functional"@,
            "+dag"@,
            "+typed-receipts"@,
            "+runtime-manifest"@,
        ]);
        GerbilLoopCaseDriverSchemeReceipt {
            kind: GerbilLoopCaseDriverSchemeReceiptKind::MarlineKernelLoopCaseDriverReceipt,
            case_id: GerbilLoopCaseDriverCaseId::new(case_id),
            profile_ref: GerbilLoopCaseDriverProfileRef::new(
                "custom/marline-kernel/profiles/default-loop-runtime.ss",
            ),
            runtime_mode: GerbilLoopCaseRuntimeMode::LoopRuntime,
            live_gate_env: "MARLIN_LIVE_LLM".to_owned(),
            live_enabled: false,
            smoke_status: GerbilLoopCaseSmokeStatus::NoLiveLlmDenied,
            command_kind: GerbilLoopCaseCommandKind::LoopProgramRun,
            command_vector,
            input_path: input_path.to_owned(),
            stable_fixture: true,
            result_protocol: "rust-loop-receipt".to_owned(),
            policy_owner: "gerbil-config-interface".to_owned(),
            control_plane_owner: "gerbil-config-interface".to_owned(),
            runtime_execution_owner: "rust-loop-runtime".to_owned(),
            module_kind: GerbilLoopCaseModuleKind::new("poo-flow.modules.user-selection.v1"),
            module_user_module: GerbilLoopCaseModuleName::new("funflow"),
            module_selection_tags,
            module_source_ref: "none".to_owned(),
            module_entrypoint: "none".to_owned(),
            module_enabled: true,
            scheme_boundary: GerbilLoopCaseSchemeBoundary::SchemeTypesToRustTypes,
            serialization_boundary: GerbilLoopCaseSerializationBoundary::RustOwnedCliTraceCrossProcess,
        }
    }

    /// Fixture for a typed loop-projection case compiled from a policy profile.
    pub fn typed_loop_projection_fixture(
        case_id: &str,
        profile_ref: &str,
        module_selection_tags: &[&str],
    ) -> (receipt: Self)
        ensures
            receipt.kind == GerbilLoopCaseDriverSchemeReceiptKind::MarlineKernelLoopCaseDriverReceipt,
            receipt.case_id@ == case_id@,
            receipt.profile_ref@ == profile_ref@,
            receipt.runtime_mode == GerbilLoopCaseRuntimeMode::TypedLoopProjection,
            receipt.live_gate_env@ == "none"@,
            !receipt.live_enabled,
            receipt.smoke_status == GerbilLoopCaseSmokeStatus::TypedLoopProjectionReady,
            receipt.command_kind == GerbilLoopCaseCommandKind::LoopProgramRun,
            seq_views(receipt.command_vector@) == seq![
                "marlin"@,
                "loop"@,
                "program"@,
                "run"@,
                "--profile"@,
                profile_ref@,
            ],
            receipt.input_path@ == "none"@,
            !receipt.stable_fixture,
            receipt.result_protocol@ == "marlin.config-interface.poo-loop-program-compiler.v1"@,
            receipt.policy_owner@ == "marlin"@,
            receipt.control_plane_owner@ == "poo-flow"@,
            receipt.runtime_execution_owner@ == "marlin-agent-core"@,
            receipt.module_kind@ == "marlin.config-interface.loop-policy-profile-projection.v1"@,
            receipt.module_user_module@ == "funflow"@,
            seq_views(receipt.module_selection_tags@) == tag_views(module_selection_tags@),
            receipt.module_source_ref@ == profile_ref@,
            receipt.module_entrypoint@ == "marlinLoopPolicyProfileCompilerReceipts"@,
            receipt.module_enabled,
            receipt.scheme_boundary == GerbilLoopCaseSchemeBoundary::SchemeTypesToRustTypes,
            receipt.serialization_boundary
                == GerbilLoopCaseSerializationBoundary::RustOwnedCliTraceCrossProcess,
    {
        let command_vector = vec![
            "marlin".to_owned(),
            "loop".to_owned(),
            "program".to_owned(),
            "run".to_owned(),
            "--profile".to_owned(),
            profile_ref.to_owned(),
        ];
        assert(seq_views(command_vector@) =~= seq![
            "marlin"@,
            "loop"@,
            "program"@,
            "run"@,
            "--profile"@,
            profile_ref@,
        ]);
        let mut tags: Vec<GerbilLoopCaseModuleSelectionTag> = Vec::new();
        let mut i: usize = 0;
        while i < module_selection_tags.len()
            invariant
                i <= module_selection_tags@.len(),
                seq_views(tags@) == tag_views(module_selection_tags@).take(i as int),
            decreases module_selection_tags@.len() - i,
        {
            let item: &str = module_selection_tags[i];
            let tag = GerbilLoopCaseModuleSelectionTag::new(item);
            let ghost before = seq_views(tags@);
            tags.push(tag);
            assert(tag_views(module_selection_tags@)[i as int] == item@);
            assert(seq_views(tags@) =~= before.push(item@));
            assert(seq_views(tags@) =~= tag_views(module_selection_tags@).take(i + 1));
            i += 1;
        }
        assert(tag_views(module_selection_tags@).take(i as int) =~= tag_views(module_selection_tags@));
        GerbilLoopCaseDriverSchemeReceipt {
            kind: GerbilLoopCaseDriverSchemeReceiptKind::MarlineKernelLoopCaseDriverReceipt,
            case_id: GerbilLoopCaseDriverCaseId::new(case_id),
            profile_ref: GerbilLoopCaseDriverProfileRef::new(profile_ref),
            runtime_mode: GerbilLoopCaseRuntimeMode::TypedLoopProjection,
            live_gate_env: "none".to_owned(),
            live_enabled: false,
            smoke_status: GerbilLoopCaseSmokeStatus::TypedLoopProjectionReady,
            command_kind: GerbilLoopCaseCommandKind::LoopProgramRun,
            command_vector,
            input_path: "none".to_owned(),
            stable_fixture: false,
            result_protocol: "marlin.config-interface.poo-loop-program-compiler.v1".to_owned(),
            policy_owner: "marlin".to_owned(),
            control_plane_owner: "poo-flow".to_owned(),
            runtime_execution_owner: "marlin-agent-core".to_owned(),
            module_kind: GerbilLoopCaseModuleKind::new(
                "marlin.config-interface.loop-policy-profile-projection.v1",
            ),
            module_user_module: GerbilLoopCaseModuleName::new("funflow"),
            module_selection_tags: tags,
            module_source_ref: profile_ref.to_owned(),
            module_entrypoint: "marlinLoopPolicyProfileCompilerReceipts".to_owned(),
            module_enabled: true,
            scheme_boundary: GerbilLoopCaseSchemeBoundary::SchemeTypesToRustTypes,
            serialization_boundary: GerbilLoopCaseSerializationBoundary::RustOwnedCliTraceCrossProcess,
        }
    }
}

/// Runtime handoff of a case: deferred exactly when the driver denied the live
/// LLM lane and the live gate is off; ready otherwise.
pub open spec fn runtime_handoff_status_for(
    smoke_status: GerbilLoopCaseSmokeStatus,
    live_enabled: bool,
) -> GerbilLoopCaseRuntimeHandoffStatus {
    if smoke_status == GerbilLoopCaseSmokeStatus::NoLiveLlmDenied && !live_enabled {
        GerbilLoopCaseRuntimeHandoffStatus::DeferredNoLiveLlm
    } else {
        GerbilLoopCaseRuntimeHandoffStatus::Ready
    }
}

/// Project a typed Scheme policy case into a Rust loop runtime receipt.
pub fn project_gerbil_loop_case_driver_rust_loop_receipt(
    receipt: &GerbilLoopCaseDriverSchemeReceipt,
) -> (projected: GerbilLoopCaseDriverRustLoopReceipt)
    ensures
        projected.schema_id@
            == "marlin-gerbil-scheme.config-interface.loop-case-rust-loop-receipt.v1"@,
        projected.case_id == receipt.case_id,
        projected.profile_ref == receipt.profile_ref,
        projected.command_kind == receipt.command_kind,
        projected.command_vector@ == receipt.command_vector@,
        projected.input_path@ == receipt.input_path@,
        projected.runtime_handoff_status == runtime_handoff_status_for(
            receipt.smoke_status,
            receipt.live_enabled,
        ),
        projected.runtime_execution_owner@ == receipt.runtime_execution_owner@,
        projected.module_kind == receipt.module_kind,
        projected.module_user_module == receipt.module_user_module,
        projected.module_selection_tags@ == receipt.module_selection_tags@,
        projected.module_source_ref@ == receipt.module_source_ref@,
        projected.module_entrypoint@ == receipt.module_entrypoint@,
        projected.module_enabled == receipt.module_enabled,
        projected.live_llm_required == (receipt.smoke_status
            == GerbilLoopCaseSmokeStatus::LiveEnabled),
        projected.live_llm_allowed == receipt.live_enabled,
        projected.stable_fixture == receipt.stable_fixture,
        projected.scheme_boundary == receipt.scheme_boundary,
        projected.serialization_boundary == receipt.serialization_boundary,
{
    let live_llm_required = match receipt.smoke_status {
        GerbilLoopCaseSmokeStatus::LiveEnabled => true,
        _ => false,
    };
    let runtime_handoff_status = match receipt.smoke_status {
        GerbilLoopCaseSmokeStatus::NoLiveLlmDenied => if !receipt.live_enabled {
            GerbilLoopCaseRuntimeHandoffStatus::DeferredNoLiveLlm
        } else {
            GerbilLoopCaseRuntimeHandoffStatus::Ready
        },
        GerbilLoopCaseSmokeStatus::LiveEnabled
        | GerbilLoopCaseSmokeStatus::TypedLoopProjectionReady => {
            GerbilLoopCaseRuntimeHandoffStatus::Ready
        },
    };
    let command_vector = receipt.command_vector.clone();
    assert(command_vector@ =~= receipt.command_vector@);
    let module_selection_tags = receipt.module_selection_tags.clone();
    assert(module_selection_tags@ =~= receipt.module_selection_tags@);
    GerbilLoopCaseDriverRustLoopReceipt {
        schema_id: GERBIL_LOOP_CASE_DRIVER_RUST_LOOP_RECEIPT_SCHEMA_ID.to_owned(),
        case_id: receipt.case_id.clone(),
        profile_ref: receipt.profile_ref.clone(),
        command_kind: receipt.command_kind,
        command_vector,
        input_path: receipt.input_path.clone(),
        runtime_handoff_status,
        runtime_execution_owner: receipt.runtime_execution_owner.clone(),
        module_kind: receipt.module_kind.clone(),
        module_user_module: receipt.module_user_module.clone(),
        module_selection_tags,
        module_source_ref: receipt.module_source_ref.clone(),
        module_entrypoint: receipt.module_entrypoint.clone(),
        module_enabled: receipt.module_enabled,
        live_llm_required,
        live_llm_allowed: receipt.live_enabled,
        stable_fixture: receipt.stable_fixture,
        scheme_boundary: receipt.scheme_boundary,
        serialization_boundary: receipt.serialization_boundary,
    }
}

} // verus!
