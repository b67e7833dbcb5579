use marlin_gerbil_scheme::policy_pack_projection::{
    GERBIL_LOOP_POLICY_PROJECTION_MODULE_SCHEMA_ID, GERBIL_POLICY_MIXIN_DEFINITION_SCHEMA_ID,
    GERBIL_POLICY_MIXIN_STACK_COMPILER_SCHEMA_ID, GERBIL_POLICY_PACK_PROJECTION_CHAIN_SCHEMA_ID,
    GERBIL_POLICY_SLOT_MERGE_RECEIPT_SCHEMA_ID, GERBIL_POO_LOOP_PROGRAM_COMPILER_SCHEMA_ID,
    GerbilLoopPolicyProjectionModule, GerbilLoopProgramFacts, GerbilPolicyMixinDefinition,
    GerbilPolicyMixinStackCompilerReceipt, GerbilPolicyPackProjectionChainReceipt,
    GerbilPolicyPackReceiptKind, GerbilPolicyPackReceiptSummary, GerbilPolicyProtocolVersions,
    GerbilPolicySlotMergeReceipt, GerbilPooLoopProgramCompilerBoundary,
    GerbilPooLoopProgramCompilerOwner, GerbilPooLoopProgramCompilerReceipt,
    GerbilPooLoopProgramCompilerSerializationBoundary, GerbilPooLoopProgramProfileId,
    GerbilResolvedLoopPolicyPackFacts, SlotMergeAlgebra,
};
use marlin_gerbil_scheme::scheme_types::GerbilSchemeTypeDecodeError;

const VERSIONS: GerbilPolicyProtocolVersions =
    GerbilPolicyProtocolVersions { loop_program: 1, resolved_loop_policy_pack: 1 };

fn pack() -> GerbilResolvedLoopPolicyPackFacts {
    GerbilResolvedLoopPolicyPackFacts {
        schema_version: 1,
        policy_epoch: 9,
        policy_digest: vec![1, 2, 3],
        hot_graph_node_count: 2,
        provenance_count: 1,
        linearization_count: 1,
        forced_slot_count: 1,
        merge_receipt_count: 1,
    }
}

fn program() -> GerbilLoopProgramFacts {
    GerbilLoopProgramFacts {
        schema_version: 1,
        policy_epoch: 9,
        policy_digest: vec![1, 2, 3],
        mechanism_policy_count: 1,
        transition_count: 2,
    }
}

fn compiler() -> GerbilPooLoopProgramCompilerReceipt {
    GerbilPooLoopProgramCompilerReceipt {
        kind: GerbilPolicyPackReceiptKind::new(GERBIL_POO_LOOP_PROGRAM_COMPILER_SCHEMA_ID),
        profile_id: GerbilPooLoopProgramProfileId::new("default"),
        compiler_owner: GerbilPooLoopProgramCompilerOwner::GerbilPooFlow,
        resolved_policy_pack: pack(),
        loop_program: program(),
        scheme_boundary: GerbilPooLoopProgramCompilerBoundary::SchemeTypesToRustTypes,
        serialization_boundary:
            GerbilPooLoopProgramCompilerSerializationBoundary::RustOwnedCliTraceCrossProcess,
    }
}

fn message(error: GerbilSchemeTypeDecodeError) -> String {
    match error {
        GerbilSchemeTypeDecodeError::RustProjection { message } => message,
        other => panic!("unexpected error {other:?}"),
    }
}

#[test]
fn compiler_receipt_with_current_schema_passes() {
    assert!(compiler().has_current_schema());
    assert_eq!(compiler().ensure_current_schema(VERSIONS), Ok(()));
}

#[test]
fn compiler_receipt_errors_come_in_check_order() {
    let mut receipt = compiler();
    receipt.resolved_policy_pack.schema_version = 3;
    assert_eq!(
        message(receipt.ensure_current_schema(VERSIONS).unwrap_err()),
        "POO compiler resolved policy pack schema version 3 does not match 1"
    );
    let mut receipt = compiler();
    receipt.loop_program.policy_epoch = 10;
    assert_eq!(
        message(receipt.ensure_current_schema(VERSIONS).unwrap_err()),
        "POO compiler loop program epoch 10 does not match resolved policy pack epoch 9"
    );
    let mut receipt = compiler();
    receipt.loop_program.policy_digest = vec![9];
    assert_eq!(
        message(receipt.ensure_current_schema(VERSIONS).unwrap_err()),
        "POO compiler loop program policy digest does not match resolved policy pack digest"
    );
    let mut receipt = compiler();
    receipt.resolved_policy_pack.forced_slot_count = 0;
    receipt.resolved_policy_pack.merge_receipt_count = 0;
    assert_eq!(
        message(receipt.ensure_current_schema(VERSIONS).unwrap_err()),
        "POO compiler resolved policy pack must carry forced slots"
    );
    let mut receipt = compiler();
    receipt.kind = GerbilPolicyPackReceiptKind::new("old.v0");
    assert_eq!(
        message(receipt.ensure_current_schema(VERSIONS).unwrap_err()),
        format!("POO loop-program compiler kind old.v0 does not match {GERBIL_POO_LOOP_PROGRAM_COMPILER_SCHEMA_ID}")
    );
}

fn module() -> GerbilLoopPolicyProjectionModule {
    GerbilLoopPolicyProjectionModule {
        kind: GerbilPolicyPackReceiptKind::new(GERBIL_LOOP_POLICY_PROJECTION_MODULE_SCHEMA_ID),
        module_id: "module-a".to_owned(),
        profile_id: GerbilPooLoopProgramProfileId::new("default"),
        owner: GerbilPooLoopProgramCompilerOwner::GerbilPooFlow,
        source_module: "src/a.ss".to_owned(),
        poo_flow_module: "funflow".to_owned(),
        poo_flow_capability_lanes: vec!["+dag".to_owned()],
        vertical_case_id: Some("case-a".to_owned()),
        vertical_capability_tags: vec!["+dag".to_owned()],
        vertical_mainline: true,
        rust_type: GerbilPolicyPackReceiptKind::new(GERBIL_POO_LOOP_PROGRAM_COMPILER_SCHEMA_ID),
        scheme_boundary: GerbilPooLoopProgramCompilerBoundary::SchemeTypesToRustTypes,
        serialization_boundary:
            GerbilPooLoopProgramCompilerSerializationBoundary::RustOwnedCliTraceCrossProcess,
        compiler_receipt: compiler(),
    }
}

#[test]
fn mainline_module_checks_its_vertical_descriptor() {
    assert_eq!(module().ensure_current_schema(VERSIONS), Ok(()));
    let mut m = module();
    m.vertical_case_id = Some("  ".to_owned());
    assert_eq!(
        message(m.ensure_current_schema(VERSIONS).unwrap_err()),
        "loop policy projection module vertical case id must be non-empty"
    );
    let mut m = module();
    m.vertical_mainline = false;
    assert_eq!(
        message(m.ensure_current_schema(VERSIONS).unwrap_err()),
        "loop policy projection module non-mainline cannot carry vertical descriptor"
    );
    let mut m = module();
    m.vertical_capability_tags = vec!["+dag".to_owned(), " ".to_owned()];
    assert_eq!(
        message(m.ensure_current_schema(VERSIONS).unwrap_err()),
        "loop policy projection module vertical capability tags must be non-empty"
    );
    let mut m = module();
    m.profile_id = GerbilPooLoopProgramProfileId::new("other");
    assert_eq!(
        message(m.ensure_current_schema(VERSIONS).unwrap_err()),
        "loop policy projection module profile other does not match compiler receipt profile default"
    );
}

#[test]
fn module_checks_its_compiler_receipt_last() {
    let mut m = module();
    m.compiler_receipt.loop_program.transition_count = 0;
    assert_eq!(
        message(m.ensure_current_schema(VERSIONS).unwrap_err()),
        "POO compiler loop program must carry at least one transition"
    );
}

fn definition(mixin: &str) -> GerbilPolicyMixinDefinition {
    GerbilPolicyMixinDefinition {
        kind: GerbilPolicyPackReceiptKind::new(GERBIL_POLICY_MIXIN_DEFINITION_SCHEMA_ID),
        mixin_id: mixin.to_owned(),
        role: "role".to_owned(),
        slot_ids: vec!["budget".to_owned()],
        owner: "poo-flow".to_owned(),
        scheme_boundary: GerbilPooLoopProgramCompilerBoundary::SchemeTypesToRustTypes,
        serialization_boundary:
            GerbilPooLoopProgramCompilerSerializationBoundary::RustOwnedCliTraceCrossProcess,
        rust_handler_manufactured: false,
    }
}

fn slot_merge(slot: &str, merge: SlotMergeAlgebra) -> GerbilPolicySlotMergeReceipt {
    GerbilPolicySlotMergeReceipt {
        kind: GerbilPolicyPackReceiptKind::new(GERBIL_POLICY_SLOT_MERGE_RECEIPT_SCHEMA_ID),
        slot_id: slot.to_owned(),
        slot: slot.to_owned(),
        merge,
        owner: "poo-flow".to_owned(),
        scheme_boundary: GerbilPooLoopProgramCompilerBoundary::SchemeTypesToRustTypes,
        serialization_boundary:
            GerbilPooLoopProgramCompilerSerializationBoundary::RustOwnedCliTraceCrossProcess,
        rust_handler_manufactured: false,
    }
}

fn stack() -> GerbilPolicyMixinStackCompilerReceipt {
    GerbilPolicyMixinStackCompilerReceipt {
        kind: GerbilPolicyPackReceiptKind::new(GERBIL_POLICY_MIXIN_STACK_COMPILER_SCHEMA_ID),
        owner: "poo-flow".to_owned(),
        compiler_owner: GerbilPooLoopProgramCompilerOwner::GerbilPooFlow,
        profile_id: GerbilPooLoopProgramProfileId::new("default"),
        policy_epoch: 9,
        policy_mixins: vec!["base".to_owned(), "budget".to_owned()],
        mixin_definitions: vec![definition("budget"), definition("base")],
        mixin_count: 2,
        linearization: vec!["role".to_owned()],
        linearization_owner: "poo-flow.c3-c4".to_owned(),
        slot_merge_receipts: vec![slot_merge("budget", SlotMergeAlgebra::Min)],
        slot_merge_audit_count: 1,
        slot_merge_laws: vec!["budget=min".to_owned()],
        slot_merge_owner: "poo-flow.slot-merge-algebra".to_owned(),
        resolved_policy_pack: pack(),
        loop_program: program(),
        compiler_receipt: compiler(),
        scheme_boundary: GerbilPooLoopProgramCompilerBoundary::SchemeTypesToRustTypes,
        serialization_boundary:
            GerbilPooLoopProgramCompilerSerializationBoundary::RustOwnedCliTraceCrossProcess,
        rust_handler_manufactured: false,
    }
}

#[test]
fn mixin_stack_receipt_passes_and_states_its_laws() {
    assert_eq!(stack().ensure_current_schema(VERSIONS, true, true), Ok(()));
    assert_eq!(slot_merge("tools", SlotMergeAlgebra::OrderedAppend).law(), "tools=ordered_append");
}

#[test]
fn mixin_stack_errors_name_the_failed_check() {
    assert_eq!(
        message(stack().ensure_current_schema(VERSIONS, false, true).unwrap_err()),
        "POO mixin-stack resolved policy pack does not match compiler receipt"
    );
    let mut s = stack();
    s.slot_merge_laws = vec!["budget=union".to_owned()];
    assert_eq!(
        message(s.ensure_current_schema(VERSIONS, true, true).unwrap_err()),
        "POO mixin-stack slot merge law budget=union does not match budget=min"
    );
    let mut s = stack();
    s.mixin_definitions = vec![definition("budget"), definition("extra")];
    assert_eq!(
        message(s.ensure_current_schema(VERSIONS, true, true).unwrap_err()),
        "POO mixin-stack definition extra is not present in policy mixins"
    );
    let mut s = stack();
    s.mixin_count = 3;
    assert_eq!(
        message(s.ensure_current_schema(VERSIONS, true, true).unwrap_err()),
        "POO mixin-stack mixin count 3 does not match definition count 2"
    );
    let mut s = stack();
    s.rust_handler_manufactured = true;
    assert_eq!(
        message(s.ensure_current_schema(VERSIONS, true, true).unwrap_err()),
        "POO mixin-stack compiler must not manufacture Rust handlers"
    );
    let mut s = stack();
    s.mixin_definitions[0].role = " ".to_owned();
    assert_eq!(
        message(s.ensure_current_schema(VERSIONS, true, true).unwrap_err()),
        "POO mixin definition id and role must be non-empty"
    );
}

fn summary(owner: &str) -> GerbilPolicyPackReceiptSummary {
    GerbilPolicyPackReceiptSummary {
        kind: GerbilPolicyPackReceiptKind::new("nested.v1"),
        pack_id: "pack".to_owned(),
        owner: owner.to_owned(),
        replayable: true,
    }
}

fn chain() -> GerbilPolicyPackProjectionChainReceipt {
    GerbilPolicyPackProjectionChainReceipt {
        kind: GerbilPolicyPackReceiptKind::new(GERBIL_POLICY_PACK_PROJECTION_CHAIN_SCHEMA_ID),
        pack_id: "pack".to_owned(),
        receipt_family_count: 5,
        receipt_family_ids: vec![
            "module_evaluation_receipt".to_owned(),
            "policy_projection_receipt".to_owned(),
            "native_projection_payload".to_owned(),
            "budget_receipt".to_owned(),
            "catalog_resolution_receipt".to_owned(),
        ],
        module_evaluation_receipt: summary("a"),
        policy_projection_receipt: summary("b"),
        native_projection_payload: summary("c"),
        budget_receipt: summary("d"),
        catalog_resolution_receipt: summary("e"),
        module_evaluation_receipt_owner: "a".to_owned(),
        policy_projection_receipt_owner: "b".to_owned(),
        native_projection_payload_owner: "c".to_owned(),
        budget_receipt_owner: "d".to_owned(),
        catalog_resolution_receipt_owner: "e".to_owned(),
        catalog_resolution_allowed_hook_count: 0,
        replayable: true,
    }
}

#[test]
fn projection_chain_checks_nested_owners() {
    assert_eq!(chain().ensure_current_schema(), Ok(()));
    let mut c = chain();
    c.budget_receipt_owner = "z".to_owned();
    assert_eq!(
        message(c.ensure_current_schema().unwrap_err()),
        "policy-pack projection-chain budget-receipt-owner z does not match nested owner d"
    );
    let mut c = chain();
    c.receipt_family_count = 4;
    assert_eq!(
        message(c.ensure_current_schema().unwrap_err()),
        "policy-pack projection-chain family count 4 does not match 5"
    );
}

#[test]
fn resolved_pack_schema_version_must_be_current() {
    assert_eq!(pack().ensure_current_schema(VERSIONS), Ok(()));
    let mut old = pack();
    old.schema_version = 0;
    assert_eq!(
        old.ensure_current_schema(VERSIONS),
        Err(GerbilSchemeTypeDecodeError::RustProjection {
            message: "resolved loop policy pack schema version 0 does not match 1".to_owned(),
        })
    );
}
