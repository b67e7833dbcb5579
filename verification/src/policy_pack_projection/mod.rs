//! Public boundary for Gerbil policy-pack projection types.
//!
//! This module exposes Rust-owned typed projection contracts while the concrete
//! Gerbil config-interface cases stay in Scheme modules.

pub mod compiler;
pub mod manifests;
pub mod mixin_stack;
pub mod surface;

pub use compiler::{
    GerbilLoopPolicyProjectionModule, GerbilLoopProgramFacts, GerbilPolicyProtocolVersions,
    GerbilPooLoopProgramCompilerReceipt, GerbilResolvedLoopPolicyPackFacts,
};
pub use mixin_stack::{
    GERBIL_POLICY_MIXIN_DEFINITION_SCHEMA_ID, GERBIL_POLICY_MIXIN_STACK_COMPILER_PACKAGE_ID,
    GERBIL_POLICY_MIXIN_STACK_COMPILER_SCHEMA_ID, GERBIL_POLICY_MIXIN_STACK_COMPILER_TYPE_ID,
    GERBIL_POLICY_SLOT_MERGE_RECEIPT_SCHEMA_ID, GerbilPolicyMixinDefinition,
    GerbilPolicyMixinStackCompilerReceipt, GerbilPolicySlotMergeReceipt, SlotMergeAlgebra,
    gerbil_policy_mixin_stack_compiler_contract,
    gerbil_policy_mixin_stack_compiler_package_manifest,
    gerbil_policy_mixin_stack_compiler_type_manifest,
};
pub use surface::{
    GERBIL_LOOP_POLICY_PROJECTION_MODULE_PACKAGE_ID,
    GERBIL_LOOP_POLICY_PROJECTION_MODULE_SCHEMA_ID, GERBIL_LOOP_POLICY_PROJECTION_MODULE_TYPE_ID,
    GERBIL_POLICY_PACK_PROJECTION_CHAIN_PACKAGE_ID, GERBIL_POLICY_PACK_PROJECTION_CHAIN_SCHEMA_ID,
    GERBIL_POLICY_PACK_PROJECTION_CHAIN_TYPE_ID, GERBIL_POO_LOOP_PROGRAM_COMPILER_PACKAGE_ID,
    GERBIL_POO_LOOP_PROGRAM_COMPILER_SCHEMA_ID, GERBIL_POO_LOOP_PROGRAM_COMPILER_TYPE_ID,
    GERBIL_RESOLVED_LOOP_POLICY_PACK_PACKAGE_ID, GERBIL_RESOLVED_LOOP_POLICY_PACK_SCHEMA_ID,
    GERBIL_RESOLVED_LOOP_POLICY_PACK_TYPE_ID, GerbilPolicyPackProjectionChainReceipt,
    GerbilPolicyPackReceiptKind, GerbilPolicyPackReceiptSummary,
    GerbilPooLoopProgramCompilerBoundary, GerbilPooLoopProgramCompilerOwner,
    GerbilPooLoopProgramCompilerSerializationBoundary, GerbilPooLoopProgramProfileId,
    gerbil_loop_policy_projection_module_contract,
    gerbil_loop_policy_projection_module_package_manifest,
    gerbil_loop_policy_projection_module_type_manifest,
    gerbil_policy_pack_projection_chain_contract,
    gerbil_policy_pack_projection_chain_package_manifest,
    gerbil_policy_pack_projection_chain_type_manifest, gerbil_poo_loop_program_compiler_contract,
    gerbil_poo_loop_program_compiler_package_manifest,
    gerbil_poo_loop_program_compiler_type_manifest, gerbil_resolved_loop_policy_pack_contract,
    gerbil_resolved_loop_policy_pack_package_manifest,
    gerbil_resolved_loop_policy_pack_type_manifest,
};
