//! Typed Rust projection contracts for Gerbil/POO mixin-stack compiler receipts.

use vstd::prelude::*;

use super::manifests::{
    field_shapes, is_contract_for, is_single_contract_package, is_single_type_manifest,
    required_field, single_contract_package, single_type_manifest, typed_contract,
};
use super::compiler::{
    GerbilLoopProgramFacts, GerbilPolicyProtocolVersions, GerbilPooLoopProgramCompilerReceipt,
    GerbilResolvedLoopPolicyPackFacts, compiler_schema_error,
};
use super::surface::{
    GerbilPolicyPackReceiptKind, GerbilPooLoopProgramCompilerBoundary,
    GerbilPooLoopProgramCompilerOwner, GerbilPooLoopProgramCompilerSerializationBoundary,
    GerbilPooLoopProgramProfileId,
};
use crate::scheme_types::error::GerbilSchemeTypeDecodeError;
use crate::scheme_types::manifest::GerbilSchemeTypeManifest;
use crate::scheme_types::package::GerbilSchemePackageManifest;
use crate::scheme_types::projection::{GerbilSchemeProjectionContract, GerbilSchemeTypedProjection};
use crate::text::{decimal_text, is_blank, seq_views, text_eq, text_is_blank, u64_to_text};

verus! {

/// Package id for POO mixin-stack compiler receipts.
pub const GERBIL_POLICY_MIXIN_STACK_COMPILER_PACKAGE_ID: &'static str =
    "marlin.config-interface.policy-pack.mixin-stack-compiler";

/// Type id for POO mixin-stack compiler receipts.
pub const GERBIL_POLICY_MIXIN_STACK_COMPILER_TYPE_ID: &'static str =
    "marlin.config-interface.policy-pack.mixin-stack-compiler-receipt";

/// Schema id carried by POO mixin-stack compiler receipts.
pub const GERBIL_POLICY_MIXIN_STACK_COMPILER_SCHEMA_ID: &'static str =
    "marlin.config-interface.policy-pack.mixin-stack-compiler-receipt.v1";

/// Schema id carried by POO mixin definition receipts.
pub const GERBIL_POLICY_MIXIN_DEFINITION_SCHEMA_ID: &'static str =
    "marlin.config-interface.policy-pack.mixin-definition.v1";

/// Schema id carried by POO slot-merge receipts.
pub const GERBIL_POLICY_SLOT_MERGE_RECEIPT_SCHEMA_ID: &'static str =
    "marlin.config-interface.policy-pack.slot-merge-receipt.v1";

/// Fields of the POO mixin-stack compiler receipt type: name, type id and element type id.
pub open spec fn mixin_stack_compiler_fields() -> Seq<(Seq<char>, Seq<char>, Option<Seq<char>>)> {
    seq![
        ("kind"@, "string"@, None),
        ("owner"@, "string"@, None),
        ("compiler-owner"@, "string"@, None),
        ("profile-id"@, "string"@, None),
        ("policy-epoch"@, "integer"@, None),
        ("policy-mixins"@, "array"@, Some("string"@)),
        ("mixin-definitions"@, "array"@, Some("object"@)),
        ("mixin-count"@, "integer"@, None),
        ("linearization"@, "array"@, Some("string"@)),
        ("linearization-owner"@, "string"@, None),
        ("slot-merge-receipts"@, "array"@, Some("object"@)),
        ("slot-merge-audit"@, "array"@, Some("object"@)),
        ("slot-merge-laws"@, "array"@, Some("string"@)),
        ("slot-merge-owner"@, "string"@, None),
        ("profile-spec"@, "object"@, None),
        ("resolved-policy-pack"@, "object"@, None),
        ("loop-program"@, "object"@, None),
        ("compiler-receipt"@, "object"@, None),
        ("scheme-boundary"@, "string"@, None),
        ("serialization-boundary"@, "string"@, None),
        ("rust-handler-manufactured"@, "boolean"@, None),
    ]
}

/// Contract expected for the POO mixin-stack compiler receipt.
pub fn gerbil_policy_mixin_stack_compiler_contract() -> (contract: GerbilSchemeProjectionContract)
    ensures
        is_contract_for(contract, GERBIL_POLICY_MIXIN_STACK_COMPILER_TYPE_ID@, GERBIL_POLICY_MIXIN_STACK_COMPILER_SCHEMA_ID@),
{
    typed_contract(GERBIL_POLICY_MIXIN_STACK_COMPILER_TYPE_ID, GERBIL_POLICY_MIXIN_STACK_COMPILER_SCHEMA_ID)
}

/// Scheme type manifest for the POO mixin-stack compiler receipt.
pub fn gerbil_policy_mixin_stack_compiler_type_manifest() -> (manifest: GerbilSchemeTypeManifest)
    ensures
        is_single_type_manifest(manifest, GERBIL_POLICY_MIXIN_STACK_COMPILER_TYPE_ID@, GERBIL_POLICY_MIXIN_STACK_COMPILER_SCHEMA_ID@, mixin_stack_compiler_fields()),
{
    let fields = vec![
        required_field("kind", "string", None),
        required_field("owner", "string", None),
        required_field("compiler-owner", "string", None),
        required_field("profile-id", "string", None),
        required_field("policy-epoch", "integer", None),
        required_field("policy-mixins", "array", Some("string")),
        required_field("mixin-definitions", "array", Some("object")),
        required_field("mixin-count", "integer", None),
        required_field("linearization", "array", Some("string")),
        required_field("linearization-owner", "string", None),
        required_field("slot-merge-receipts", "array", Some("object")),
        required_field("slot-merge-audit", "array", Some("object")),
        required_field("slot-merge-laws", "array", Some("string")),
        required_field("slot-merge-owner", "string", None),
        required_field("profile-spec", "object", None),
        required_field("resolved-policy-pack", "object", None),
        required_field("loop-program", "object", None),
        required_field("compiler-receipt", "object", None),
        required_field("scheme-boundary", "string", None),
        required_field("serialization-boundary", "string", None),
        required_field("rust-handler-manufactured", "boolean", None),
    ];
    assert(field_shapes(fields@) =~= mixin_stack_compiler_fields());
    single_type_manifest(GERBIL_POLICY_MIXIN_STACK_COMPILER_TYPE_ID, GERBIL_POLICY_MIXIN_STACK_COMPILER_SCHEMA_ID, fields)
}

/// Package manifest for the POO mixin-stack compiler receipt.
pub fn gerbil_policy_mixin_stack_compiler_package_manifest() -> (manifest: GerbilSchemePackageManifest)
    ensures
        is_single_contract_package(manifest, GERBIL_POLICY_MIXIN_STACK_COMPILER_PACKAGE_ID@, GERBIL_POLICY_MIXIN_STACK_COMPILER_TYPE_ID@, GERBIL_POLICY_MIXIN_STACK_COMPILER_SCHEMA_ID@, mixin_stack_compiler_fields()),
{
    single_contract_package(GERBIL_POLICY_MIXIN_STACK_COMPILER_PACKAGE_ID, gerbil_policy_mixin_stack_compiler_type_manifest(), gerbil_policy_mixin_stack_compiler_contract())
}



/// How a slot merges the values its mixins give it.
#[derive(Clone, Copy, Debug, PartialEq, Eq, Structural)]
pub enum SlotMergeAlgebra {
    Intersection,
    Union,
    Min,
    OrderedAppend,
    ConflictError,
    Override,
}

impl SlotMergeAlgebra {
    /// The id of this algebra in slot-merge laws.
    pub open spec fn label(self) -> Seq<char> {
        match self {
            SlotMergeAlgebra::Intersection => "intersection"@,
            SlotMergeAlgebra::Union => "union"@,
            SlotMergeAlgebra::Min => "min"@,
            SlotMergeAlgebra::OrderedAppend => "ordered_append"@,
            SlotMergeAlgebra::ConflictError => "conflict_error"@,
            SlotMergeAlgebra::Override => "override"@,
        }
    }

    /// The id of this algebra in slot-merge laws.
    pub fn as_str(self) -> (text: &'static str)
        ensures
            text@ == self.label(),
    {
        match self {
            SlotMergeAlgebra::Intersection => "intersection",
            SlotMergeAlgebra::Union => "union",
            SlotMergeAlgebra::Min => "min",
            SlotMergeAlgebra::OrderedAppend => "ordered_append",
            SlotMergeAlgebra::ConflictError => "conflict_error",
            SlotMergeAlgebra::Override => "override",
        }
    }
}

/// One POO mixin definition emitted by the Scheme policy plane.
#[derive(Clone, Debug, PartialEq, Eq)]
pub struct GerbilPolicyMixinDefinition {
    pub kind: GerbilPolicyPackReceiptKind,
    pub mixin_id: String,
    pub role: String,
    pub slot_ids: Vec<String>,
    pub owner: String,
    pub scheme_boundary: GerbilPooLoopProgramCompilerBoundary,
    pub serialization_boundary: GerbilPooLoopProgramCompilerSerializationBoundary,
    pub rust_handler_manufactured: bool,
}

/// Slot-merge receipt emitted by Scheme before Rust projection freezes the policy pack.
#[derive(Clone, Debug, PartialEq, Eq)]
pub struct GerbilPolicySlotMergeReceipt {
    pub kind: GerbilPolicyPackReceiptKind,
    pub slot_id: String,
    pub slot: String,
    pub merge: SlotMergeAlgebra,
    pub owner: String,
    pub scheme_boundary: GerbilPooLoopProgramCompilerBoundary,
    pub serialization_boundary: GerbilPooLoopProgramCompilerSerializationBoundary,
    pub rust_handler_manufactured: bool,
}

/// POO mixin-stack compiler receipt that proves profile/mixins/merge laws produced the program.
///
/// `slot_merge_audit_count` is the number of slot-merge audit entries the
/// receipt carries.
#[derive(Clone, Debug, PartialEq, Eq)]
pub struct GerbilPolicyMixinStackCompilerReceipt {
    pub kind: GerbilPolicyPackReceiptKind,
    pub owner: String,
    pub compiler_owner: GerbilPooLoopProgramCompilerOwner,
    pub profile_id: GerbilPooLoopProgramProfileId,
    pub policy_epoch: u64,
    pub policy_mixins: Vec<String>,
    pub mixin_definitions: Vec<GerbilPolicyMixinDefinition>,
    pub mixin_count: usize,
    pub linearization: Vec<String>,
    pub linearization_owner: String,
    pub slot_merge_receipts: Vec<GerbilPolicySlotMergeReceipt>,
    pub slot_merge_audit_count: usize,
    pub slot_merge_laws: Vec<String>,
    pub slot_merge_owner: String,
    pub resolved_policy_pack: GerbilResolvedLoopPolicyPackFacts,
    pub loop_program: GerbilLoopProgramFacts,
    pub compiler_receipt: GerbilPooLoopProgramCompilerReceipt,
    pub scheme_boundary: GerbilPooLoopProgramCompilerBoundary,
    pub serialization_boundary: GerbilPooLoopProgramCompilerSerializationBoundary,
    pub rust_handler_manufactured: bool,
}

/// First failed boundary check of a receipt part named `owner`.
pub open spec fn native_boundaries_error(
    scheme_boundary: GerbilPooLoopProgramCompilerBoundary,
    serialization_boundary: GerbilPooLoopProgramCompilerSerializationBoundary,
    rust_handler_manufactured: bool,
    owner: Seq<char>,
) -> Option<Seq<char>> {
    if scheme_boundary != GerbilPooLoopProgramCompilerBoundary::SchemeTypesToRustTypes {
        Some(owner + " must use scheme-types-to-rust-types boundary"@)
    } else if serialization_boundary
        != GerbilPooLoopProgramCompilerSerializationBoundary::RustOwnedCliTraceCrossProcess {
        Some(owner + " serialization boundary must be Rust-owned outside native"@)
    } else if rust_handler_manufactured {
        Some(owner + " must not manufacture Rust handlers"@)
    } else {
        None
    }
}

/// First failed check of a mixin definition.
pub open spec fn mixin_definition_error(d: GerbilPolicyMixinDefinition) -> Option<Seq<char>> {
    if d.kind@ != GERBIL_POLICY_MIXIN_DEFINITION_SCHEMA_ID@ {
        Some(
            "POO mixin definition kind "@ + d.kind@ + " does not match "@
                + GERBIL_POLICY_MIXIN_DEFINITION_SCHEMA_ID@,
        )
    } else if is_blank(d.mixin_id@) || is_blank(d.role@) {
        Some("POO mixin definition id and role must be non-empty"@)
    } else if d.slot_ids@.len() == 0 {
        Some("POO mixin definition must carry slot ids"@)
    } else {
        native_boundaries_error(
            d.scheme_boundary,
            d.serialization_boundary,
            d.rust_handler_manufactured,
            "POO mixin definition"@,
        )
    }
}

/// First failed check of a slot-merge receipt.
pub open spec fn slot_merge_receipt_error(r: GerbilPolicySlotMergeReceipt) -> Option<Seq<char>> {
    if r.kind@ != GERBIL_POLICY_SLOT_MERGE_RECEIPT_SCHEMA_ID@ {
        Some(
            "POO slot-merge receipt kind "@ + r.kind@ + " does not match "@
                + GERBIL_POLICY_SLOT_MERGE_RECEIPT_SCHEMA_ID@,
        )
    } else if is_blank(r.slot@) {
        Some("POO slot-merge receipt slot must be non-empty"@)
    } else {
        native_boundaries_error(
            r.scheme_boundary,
            r.serialization_boundary,
            r.rust_handler_manufactured,
            "POO slot-merge receipt"@,
        )
    }
}

/// The law a slot-merge receipt states: `slot=algebra`.
pub open spec fn slot_merge_law(r: GerbilPolicySlotMergeReceipt) -> Seq<char> {
    r.slot@ + "="@ + r.merge.label()
}

/// First failed check among the first `n` mixin definitions, in order.
pub open spec fn definitions_error(
    definitions: Seq<GerbilPolicyMixinDefinition>,
    mixins: Seq<Seq<char>>,
    n: nat,
) -> Option<Seq<char>>
    decreases n,
{
    if n == 0 {
        None
    } else {
        match definitions_error(definitions, mixins, (n - 1) as nat) {
            Some(e) => Some(e),
            None => {
                let d = definitions[n - 1];
                if mixin_definition_error(d) is Some {
                    mixin_definition_error(d)
                } else if !mixins.contains(d.mixin_id@) {
                    Some(
                        "POO mixin-stack definition "@ + d.mixin_id@
                            + " is not present in policy mixins"@,
                    )
                } else {
                    None
                }
            },
        }
    }
}

/// First failed check among the first `n` slot-merge receipts and their laws, in order.
pub open spec fn merge_laws_error(
    receipts: Seq<GerbilPolicySlotMergeReceipt>,
    laws: Seq<String>,
    n: nat,
) -> Option<Seq<char>>
    decreases n,
{
    if n == 0 {
        None
    } else {
        match merge_laws_error(receipts, laws, (n - 1) as nat) {
            Some(e) => Some(e),
            None => {
                let r = receipts[n - 1];
                if slot_merge_receipt_error(r) is Some {
                    slot_merge_receipt_error(r)
                } else if laws[n - 1]@ != slot_merge_law(r) {
                    Some(
                        "POO mixin-stack slot merge law "@ + laws[n - 1]@ + " does not match "@
                            + slot_merge_law(r),
                    )
                } else {
                    None
                }
            },
        }
    }
}

/// First failed check that the stack repeats its compiler receipt's payload.
pub open spec fn payload_error(
    r: GerbilPolicyMixinStackCompilerReceipt,
    resolved_policy_pack_matches: bool,
    loop_program_matches: bool,
) -> Option<Seq<char>> {
    if r.profile_id@ != r.compiler_receipt.profile_id@ {
        Some(
            "POO mixin-stack profile "@ + r.profile_id@ + " does not match compiler receipt profile "@
                + r.compiler_receipt.profile_id@,
        )
    } else if r.policy_epoch != r.compiler_receipt.loop_program.policy_epoch {
        Some(
            "POO mixin-stack epoch "@ + decimal_text(r.policy_epoch as nat)
                + " does not match loop program epoch "@ + decimal_text(
                r.compiler_receipt.loop_program.policy_epoch as nat,
            ),
        )
    } else if !resolved_policy_pack_matches {
        Some("POO mixin-stack resolved policy pack does not match compiler receipt"@)
    } else if !loop_program_matches {
        Some("POO mixin-stack loop program does not match compiler receipt"@)
    } else {
        None
    }
}

/// First failed check of the mixin stack's shape.
pub open spec fn stack_shape_error(r: GerbilPolicyMixinStackCompilerReceipt) -> Option<Seq<char>> {
    let definitions = r.mixin_definitions@;
    if r.mixin_count != definitions.len() {
        Some(
            "POO mixin-stack mixin count "@ + decimal_text(r.mixin_count as nat)
                + " does not match definition count "@ + decimal_text(definitions.len()),
        )
    } else if r.policy_mixins@.len() != definitions.len() {
        Some(
            "POO mixin-stack policy mixins "@ + decimal_text(r.policy_mixins@.len())
                + " do not match definition count "@ + decimal_text(definitions.len()),
        )
    } else if r.linearization@.len() == 0 {
        Some("POO mixin-stack compiler must carry C3/C4 linearization"@)
    } else if r.linearization_owner@ != "poo-flow.c3-c4"@ {
        Some(
            "POO mixin-stack linearization owner "@ + r.linearization_owner@
                + " does not match poo-flow.c3-c4"@,
        )
    } else {
        definitions_error(definitions, seq_views(r.policy_mixins@), definitions.len())
    }
}

/// First failed check of the stack's slot merges.
pub open spec fn slot_merge_shape_error(r: GerbilPolicyMixinStackCompilerReceipt) -> Option<Seq<char>> {
    let receipts = r.slot_merge_receipts@;
    if r.slot_merge_owner@ != "poo-flow.slot-merge-algebra"@ {
        Some(
            "POO mixin-stack slot merge owner "@ + r.slot_merge_owner@
                + " does not match poo-flow.slot-merge-algebra"@,
        )
    } else if receipts.len() == 0 {
        Some("POO mixin-stack compiler must carry slot merge receipts"@)
    } else if r.slot_merge_laws@.len() != receipts.len() {
        Some(
            "POO mixin-stack slot merge laws "@ + decimal_text(r.slot_merge_laws@.len())
                + " do not match receipts "@ + decimal_text(receipts.len()),
        )
    } else if r.slot_merge_audit_count != receipts.len() {
        Some(
            "POO mixin-stack slot merge audit "@ + decimal_text(r.slot_merge_audit_count as nat)
                + " does not match receipts "@ + decimal_text(receipts.len()),
        )
    } else if r.resolved_policy_pack.merge_receipt_count != receipts.len() {
        Some(
            "POO mixin-stack resolved pack merge receipts "@ + decimal_text(
                r.resolved_policy_pack.merge_receipt_count as nat,
            ) + " do not match stack receipts "@ + decimal_text(receipts.len()),
        )
    } else {
        merge_laws_error(receipts, r.slot_merge_laws@, receipts.len())
    }
}

/// First failed check of a mixin-stack compiler receipt, as the message of the
/// projection error it raises.
pub open spec fn mixin_stack_error(
    r: GerbilPolicyMixinStackCompilerReceipt,
    versions: GerbilPolicyProtocolVersions,
    resolved_policy_pack_matches: bool,
    loop_program_matches: bool,
) -> Option<Seq<char>> {
    if r.kind@ != GERBIL_POLICY_MIXIN_STACK_COMPILER_SCHEMA_ID@ {
        Some(
            "POO mixin-stack compiler kind "@ + r.kind@ + " does not match "@
                + GERBIL_POLICY_MIXIN_STACK_COMPILER_SCHEMA_ID@,
        )
    } else if r.compiler_owner != GerbilPooLoopProgramCompilerOwner::GerbilPooFlow {
        Some("POO mixin-stack compiler owner must be gerbil-poo-flow"@)
    } else if native_boundaries_error(
        r.scheme_boundary,
        r.serialization_boundary,
        r.rust_handler_manufactured,
        "POO mixin-stack compiler"@,
    ) is Some {
        native_boundaries_error(
            r.scheme_boundary,
            r.serialization_boundary,
            r.rust_handler_manufactured,
            "POO mixin-stack compiler"@,
        )
    } else if compiler_schema_error(r.compiler_receipt, versions) is Some {
        compiler_schema_error(r.compiler_receipt, versions)
    } else if payload_error(r, resolved_policy_pack_matches, loop_program_matches) is Some {
        payload_error(r, resolved_policy_pack_matches, loop_program_matches)
    } else if stack_shape_error(r) is Some {
        stack_shape_error(r)
    } else {
        slot_merge_shape_error(r)
    }
}

/// A projection error with the given message.
fn rust_projection(message: String) -> (error: GerbilSchemeTypeDecodeError)
    ensures
        error == (GerbilSchemeTypeDecodeError::RustProjection { message }),
{
    GerbilSchemeTypeDecodeError::RustProjection { message }
}

/// `owner` followed by `text`.
fn owned_message(owner: &str, text: &str) -> (message: String)
    ensures
        message@ == owner@ + text@,
{
    let mut message = owner.to_owned();
    message.append(text);
    message
}

/// `"{prefix}{a}{middle}{b}"` with two decimal numbers.
fn count_message(prefix: &str, a: u64, middle: &str, b: u64) -> (message: String)
    ensures
        message@ == prefix@ + decimal_text(a as nat) + middle@ + decimal_text(b as nat),
{
    let mut message = prefix.to_owned();
    let a_text = u64_to_text(a);
    message.append(a_text.as_str());
    message.append(middle);
    let b_text = u64_to_text(b);
    message.append(b_text.as_str());
    message
}

/// Checks the boundaries of a receipt part named `owner`.
fn ensure_native_boundaries(
    scheme_boundary: GerbilPooLoopProgramCompilerBoundary,
    serialization_boundary: GerbilPooLoopProgramCompilerSerializationBoundary,
    rust_handler_manufactured: bool,
    owner: &str,
) -> (result: Result<(), GerbilSchemeTypeDecodeError>)
    ensures
        match result {
            Ok(()) => native_boundaries_error(
                scheme_boundary,
                serialization_boundary,
                rust_handler_manufactured,
                owner@,
            ) is None,
            Err(e) => e is RustProjection && native_boundaries_error(
                scheme_boundary,
                serialization_boundary,
                rust_handler_manufactured,
                owner@,
            ) == Some(e->RustProjection_message@),
        },
{
    if scheme_boundary != GerbilPooLoopProgramCompilerBoundary::SchemeTypesToRustTypes {
        return Err(
            rust_projection(owned_message(owner, " must use scheme-types-to-rust-types boundary")),
        );
    }
    if serialization_boundary
        != GerbilPooLoopProgramCompilerSerializationBoundary::RustOwnedCliTraceCrossProcess {
        return Err(
            rust_projection(
                owned_message(owner, " serialization boundary must be Rust-owned outside native"),
            ),
        );
    }
    if rust_handler_manufactured {
        return Err(rust_projection(owned_message(owner, " must not manufacture Rust handlers")));
    }
    Ok(())
}

impl GerbilPolicyMixinDefinition {
    /// Checks the kind, the id, role and slots, and the boundaries.
    pub fn ensure_current_schema(&self) -> (result: Result<(), GerbilSchemeTypeDecodeError>)
        ensures
            match result {
                Ok(()) => mixin_definition_error(*self) is None,
                Err(e) => e is RustProjection && mixin_definition_error(*self) == Some(
                    e->RustProjection_message@,
                ),
            },
    {
        if !text_eq(self.kind.as_str(), GERBIL_POLICY_MIXIN_DEFINITION_SCHEMA_ID) {
            let mut message = "POO mixin definition kind ".to_owned();
            message.append(self.kind.as_str());
            message.append(" does not match ");
            message.append(GERBIL_POLICY_MIXIN_DEFINITION_SCHEMA_ID);
            return Err(rust_projection(message));
        }
        if text_is_blank(self.mixin_id.as_str()) || text_is_blank(self.role.as_str()) {
            return Err(
                rust_projection("POO mixin definition id and role must be non-empty".to_owned()),
            );
        }
        if self.slot_ids.len() == 0 {
            return Err(rust_projection("POO mixin definition must carry slot ids".to_owned()));
        }
        ensure_native_boundaries(
            self.scheme_boundary,
            self.serialization_boundary,
            self.rust_handler_manufactured,
            "POO mixin definition",
        )
    }
}

impl GerbilPolicySlotMergeReceipt {
    /// Checks the kind, the slot and the boundaries.
    pub fn ensure_current_schema(&self) -> (result: Result<(), GerbilSchemeTypeDecodeError>)
        ensures
            match result {
                Ok(()) => slot_merge_receipt_error(*self) is None,
                Err(e) => e is RustProjection && slot_merge_receipt_error(*self) == Some(
                    e->RustProjection_message@,
                ),
            },
    {
        if !text_eq(self.kind.as_str(), GERBIL_POLICY_SLOT_MERGE_RECEIPT_SCHEMA_ID) {
            let mut message = "POO slot-merge receipt kind ".to_owned();
            message.append(self.kind.as_str());
            message.append(" does not match ");
            message.append(GERBIL_POLICY_SLOT_MERGE_RECEIPT_SCHEMA_ID);
            return Err(rust_projection(message));
        }
        if text_is_blank(self.slot.as_str()) {
            return Err(
                rust_projection("POO slot-merge receipt slot must be non-empty".to_owned()),
            );
        }
        ensure_native_boundaries(
            self.scheme_boundary,
            self.serialization_boundary,
            self.rust_handler_manufactured,
            "POO slot-merge receipt",
        )
    }

    /// The law this receipt states: `slot=algebra`.
    pub fn law(&self) -> (law: String)
        ensures
            law@ == slot_merge_law(*self),
    {
        let mut law = self.slot.clone();
        law.append("=");
        law.append(self.merge.as_str());
        law
    }
}


proof fn lemma_definitions_error_sticks(
    definitions: Seq<GerbilPolicyMixinDefinition>,
    mixins: Seq<Seq<char>>,
    k: nat,
    n: nat,
)
    requires
        k <= n,
        definitions_error(definitions, mixins, k) is Some,
    ensures
        definitions_error(definitions, mixins, n) == definitions_error(definitions, mixins, k),
    decreases n - k,
{
    if k < n {
        lemma_definitions_error_sticks(definitions, mixins, k, (n - 1) as nat);
    }
}

proof fn lemma_merge_laws_error_sticks(
    receipts: Seq<GerbilPolicySlotMergeReceipt>,
    laws: Seq<String>,
    k: nat,
    n: nat,
)
    requires
        k <= n,
        merge_laws_error(receipts, laws, k) is Some,
    ensures
        merge_laws_error(receipts, laws, n) == merge_laws_error(receipts, laws, k),
    decreases n - k,
{
    if k < n {
        lemma_merge_laws_error_sticks(receipts, laws, k, (n - 1) as nat);
    }
}

/// Whether `mixins` holds `mixin_id`.
fn holds_mixin(mixins: &Vec<String>, mixin_id: &str) -> (found: bool)
    ensures
        found == seq_views(mixins@).contains(mixin_id@),
{
    let ghost views = seq_views(mixins@);
    let mut i: usize = 0;
    while i < mixins.len()
        invariant
            i <= mixins.len(),
            views == seq_views(mixins@),
            forall|j: int| 0 <= j < i ==> views[j] != mixin_id@,
        decreases mixins.len() - i,
    {
        if text_eq(mixins[i].as_str(), mixin_id) {
            assert(views[i as int] == mixin_id@);
            return true;
        }
        i += 1;
    }
    assert forall|j: int| 0 <= j < views.len() implies views[j] != mixin_id@ by {}
    false
}

impl GerbilPolicyMixinStackCompilerReceipt {
    /// Returns whether the receipt kind matches the current Rust projection.
    pub fn has_current_schema(&self) -> (current: bool)
        ensures
            current == (self.kind@ == GERBIL_POLICY_MIXIN_STACK_COMPILER_SCHEMA_ID@),
    {
        text_eq(self.kind.as_str(), GERBIL_POLICY_MIXIN_STACK_COMPILER_SCHEMA_ID)
    }

    /// Checks the kind, owner and boundaries, the compiler receipt, that the
    /// stack repeats the compiler receipt's payload, the mixin stack and the
    /// slot merges; the error is the first failed check.
    ///
    /// Whether the stack's resolved policy pack and loop program equal those
    /// of its compiler receipt is decided by the agent protocol's values and
    /// handed in.
    pub fn ensure_current_schema(
        &self,
        versions: GerbilPolicyProtocolVersions,
        resolved_policy_pack_matches: bool,
        loop_program_matches: bool,
    ) -> (result: Result<(), GerbilSchemeTypeDecodeError>)
        ensures
            match result {
                Ok(()) => mixin_stack_error(
                    *self,
                    versions,
                    resolved_policy_pack_matches,
                    loop_program_matches,
                ) is None,
                Err(e) => e is RustProjection && mixin_stack_error(
                    *self,
                    versions,
                    resolved_policy_pack_matches,
                    loop_program_matches,
                ) == Some(e->RustProjection_message@),
            },
    {
        if !self.has_current_schema() {
            let mut message = "POO mixin-stack compiler kind ".to_owned();
            message.append(self.kind.as_str());
            message.append(" does not match ");
            message.append(GERBIL_POLICY_MIXIN_STACK_COMPILER_SCHEMA_ID);
            return Err(rust_projection(message));
        }
        if self.compiler_owner != GerbilPooLoopProgramCompilerOwner::GerbilPooFlow {
            return Err(
                rust_projection("POO mixin-stack compiler owner must be gerbil-poo-flow".to_owned()),
            );
        }
        ensure_native_boundaries(
            self.scheme_boundary,
            self.serialization_boundary,
            self.rust_handler_manufactured,
            "POO mixin-stack compiler",
        )?;
        self.compiler_receipt.ensure_current_schema(versions)?;
        self.ensure_compiler_payload_matches(resolved_policy_pack_matches, loop_program_matches)?;
        self.ensure_mixin_stack_shape()?;
        self.ensure_slot_merge_shape()
    }

    /// Checks that the stack repeats its compiler receipt's profile, epoch,
    /// resolved policy pack and loop program.
    pub fn ensure_compiler_payload_matches(
        &self,
        resolved_policy_pack_matches: bool,
        loop_program_matches: bool,
    ) -> (result: Result<(), GerbilSchemeTypeDecodeError>)
        ensures
            match result {
                Ok(()) => payload_error(
                    *self,
                    resolved_policy_pack_matches,
                    loop_program_matches,
                ) is None,
                Err(e) => e is RustProjection && payload_error(
                    *self,
                    resolved_policy_pack_matches,
                    loop_program_matches,
                ) == Some(e->RustProjection_message@),
            },
    {
        if !text_eq(self.profile_id.as_str(), self.compiler_receipt.profile_id.as_str()) {
            let mut message = "POO mixin-stack profile ".to_owned();
            message.append(self.profile_id.as_str());
            message.append(" does not match compiler receipt profile ");
            message.append(self.compiler_receipt.profile_id.as_str());
            return Err(rust_projection(message));
        }
        if self.policy_epoch != self.compiler_receipt.loop_program.policy_epoch {
            return Err(
                rust_projection(
                    count_message(
                        "POO mixin-stack epoch ",
                        self.policy_epoch,
                        " does not match loop program epoch ",
                        self.compiler_receipt.loop_program.policy_epoch,
                    ),
                ),
            );
        }
        if !resolved_policy_pack_matches {
            return Err(
                rust_projection(
                    "POO mixin-stack resolved policy pack does not match compiler receipt".to_owned(),
                ),
            );
        }
        if !loop_program_matches {
            return Err(
                rust_projection(
                    "POO mixin-stack loop program does not match compiler receipt".to_owned(),
                ),
            );
        }
        Ok(())
    }

    /// Checks the mixin counts, the linearization and each mixin definition,
    /// which must be one of the policy mixins.
    pub fn ensure_mixin_stack_shape(&self) -> (result: Result<(), GerbilSchemeTypeDecodeError>)
        ensures
            match result {
                Ok(()) => stack_shape_error(*self) is None,
                Err(e) => e is RustProjection && stack_shape_error(*self) == Some(
                    e->RustProjection_message@,
                ),
            },
    {
        let definitions = &self.mixin_definitions;
        if self.mixin_count != definitions.len() {
            return Err(
                rust_projection(
                    count_message(
                        "POO mixin-stack mixin count ",
                        self.mixin_count as u64,
                        " does not match definition count ",
                        definitions.len() as u64,
                    ),
                ),
            );
        }
        if self.policy_mixins.len() != definitions.len() {
            return Err(
                rust_projection(
                    count_message(
                        "POO mixin-stack policy mixins ",
                        self.policy_mixins.len() as u64,
                        " do not match definition count ",
                        definitions.len() as u64,
                    ),
                ),
            );
        }
        if self.linearization.len() == 0 {
            return Err(
                rust_projection("POO mixin-stack compiler must carry C3/C4 linearization".to_owned()),
            );
        }
        if !text_eq(self.linearization_owner.as_str(), "poo-flow.c3-c4") {
            let mut message = "POO mixin-stack linearization owner ".to_owned();
            message.append(self.linearization_owner.as_str());
            message.append(" does not match poo-flow.c3-c4");
            return Err(rust_projection(message));
        }
        let ghost mixins = seq_views(self.policy_mixins@);
        let mut i: usize = 0;
        while i < definitions.len()
            invariant
                i <= definitions.len(),
                definitions == &self.mixin_definitions,
                mixins == seq_views(self.policy_mixins@),
                definitions_error(definitions@, mixins, i as nat) is None,
                stack_shape_error(*self) == definitions_error(
                    definitions@,
                    mixins,
                    definitions.len() as nat,
                ),
            decreases definitions.len() - i,
        {
            let definition = &definitions[i];
            if let Err(e) = definition.ensure_current_schema() {
                proof {
                    lemma_definitions_error_sticks(
                        definitions@,
                        mixins,
                        (i + 1) as nat,
                        definitions.len() as nat,
                    );
                }
                return Err(e);
            }
            if !holds_mixin(&self.policy_mixins, definition.mixin_id.as_str()) {
                let mut message = "POO mixin-stack definition ".to_owned();
                message.append(definition.mixin_id.as_str());
                message.append(" is not present in policy mixins");
                proof {
                    lemma_definitions_error_sticks(
                        definitions@,
                        mixins,
                        (i + 1) as nat,
                        definitions.len() as nat,
                    );
                }
                return Err(rust_projection(message));
            }
            i += 1;
        }
        Ok(())
    }

    /// Checks the slot-merge owner and counts, each slot-merge receipt, and
    /// that each law is the law its receipt states.
    pub fn ensure_slot_merge_shape(&self) -> (result: Result<(), GerbilSchemeTypeDecodeError>)
        ensures
            match result {
                Ok(()) => slot_merge_shape_error(*self) is None,
                Err(e) => e is RustProjection && slot_merge_shape_error(*self) == Some(
                    e->RustProjection_message@,
                ),
            },
    {
        let receipts = &self.slot_merge_receipts;
        if !text_eq(self.slot_merge_owner.as_str(), "poo-flow.slot-merge-algebra") {
            let mut message = "POO mixin-stack slot merge owner ".to_owned();
            message.append(self.slot_merge_owner.as_str());
            message.append(" does not match poo-flow.slot-merge-algebra");
            return Err(rust_projection(message));
        }
        if receipts.len() == 0 {
            return Err(
                rust_projection("POO mixin-stack compiler must carry slot merge receipts".to_owned()),
            );
        }
        if self.slot_merge_laws.len() != receipts.len() {
            return Err(
                rust_projection(
                    count_message(
                        "POO mixin-stack slot merge laws ",
                        self.slot_merge_laws.len() as u64,
                        " do not match receipts ",
                        receipts.len() as u64,
                    ),
                ),
            );
        }
        if self.slot_merge_audit_count != receipts.len() {
            return Err(
                rust_projection(
                    count_message(
                        "POO mixin-stack slot merge audit ",
                        self.slot_merge_audit_count as u64,
                        " does not match receipts ",
                        receipts.len() as u64,
                    ),
                ),
            );
        }
        if self.resolved_policy_pack.merge_receipt_count != receipts.len() {
            return Err(
                rust_projection(
                    count_message(
                        "POO mixin-stack resolved pack merge receipts ",
                        self.resolved_policy_pack.merge_receipt_count as u64,
                        " do not match stack receipts ",
                        receipts.len() as u64,
                    ),
                ),
            );
        }
        let laws = &self.slot_merge_laws;
        let mut i: usize = 0;
        while i < receipts.len()
            invariant
                i <= receipts.len(),
                receipts == &self.slot_merge_receipts,
                laws == &self.slot_merge_laws,
                laws.len() == receipts.len(),
                merge_laws_error(receipts@, laws@, i as nat) is None,
                slot_merge_shape_error(*self) == merge_laws_error(
                    receipts@,
                    laws@,
                    receipts.len() as nat,
                ),
            decreases receipts.len() - i,
        {
            let receipt = &receipts[i];
            if let Err(e) = receipt.ensure_current_schema() {
                proof {
                    lemma_merge_laws_error_sticks(
                        receipts@,
                        laws@,
                        (i + 1) as nat,
                        receipts.len() as nat,
                    );
                }
                return Err(e);
            }
            let expected = receipt.law();
            if !text_eq(laws[i].as_str(), expected.as_str()) {
                let mut message = "POO mixin-stack slot merge law ".to_owned();
                message.append(laws[i].as_str());
                message.append(" does not match ");
                message.append(expected.as_str());
                proof {
                    lemma_merge_laws_error_sticks(
                        receipts@,
                        laws@,
                        (i + 1) as nat,
                        receipts.len() as nat,
                    );
                }
                return Err(rust_projection(message));
            }
            i += 1;
        }
        Ok(())
    }
}

impl GerbilSchemeTypedProjection for GerbilPolicyMixinStackCompilerReceipt {
    fn scheme_projection_contract() -> (contract: GerbilSchemeProjectionContract)
        ensures
            is_contract_for(contract, GERBIL_POLICY_MIXIN_STACK_COMPILER_TYPE_ID@, GERBIL_POLICY_MIXIN_STACK_COMPILER_SCHEMA_ID@),
    {
        gerbil_policy_mixin_stack_compiler_contract()
    }
}

} // verus!
