//! Typed Rust projection for Gerbil policy-pack receipt chains.

use vstd::prelude::*;
use vstd::std_specs::cmp::PartialEqSpecImpl;

use super::manifests::{
    field_shapes, is_contract_for, is_single_contract_package, is_single_type_manifest,
    required_field, single_contract_package, single_type_manifest, typed_contract,
};
use crate::scheme_types::error::GerbilSchemeTypeDecodeError;
use crate::scheme_types::manifest::GerbilSchemeTypeManifest;
use crate::scheme_types::package::GerbilSchemePackageManifest;
use crate::scheme_types::projection::{GerbilSchemeProjectionContract, GerbilSchemeTypedProjection};
use crate::text::{debug_str, debug_str_text, decimal_text, text_eq, u64_to_text};

verus! {

/// Package id for the policy-pack typed projection manifest.
pub const GERBIL_POLICY_PACK_PROJECTION_CHAIN_PACKAGE_ID: &'static str =
    "marlin.config-interface.policy-pack.projection-chain";

/// Type id for Gerbil policy-pack projection-chain receipts.
pub const GERBIL_POLICY_PACK_PROJECTION_CHAIN_TYPE_ID: &'static str =
    "marlin.config-interface.policy-projection-chain-receipt";

/// Schema id carried by Gerbil policy-pack projection-chain receipts.
pub const GERBIL_POLICY_PACK_PROJECTION_CHAIN_SCHEMA_ID: &'static str =
    "marlin.config-interface.policy-projection-chain-receipt.v1";

/// Package id for the resolved loop policy pack typed projection manifest.
pub const GERBIL_RESOLVED_LOOP_POLICY_PACK_PACKAGE_ID: &'static str =
    "marlin.config-interface.policy-pack.resolved-loop-policy-pack";

/// Type id for Gerbil-resolved loop policy packs.
pub const GERBIL_RESOLVED_LOOP_POLICY_PACK_TYPE_ID: &'static str = "marlin.loop-policy.resolved-pack";

/// Schema id carried by Gerbil-resolved loop policy packs.
pub const GERBIL_RESOLVED_LOOP_POLICY_PACK_SCHEMA_ID: &'static str =
    "marlin.loop-policy.resolved-pack.v1";

/// Package id for POO compiler receipts that carry a provider-neutral loop program.
pub const GERBIL_POO_LOOP_PROGRAM_COMPILER_PACKAGE_ID: &'static str =
    "marlin.config-interface.poo.loop-program-compiler";

/// Type id for POO compiler receipts that bind a resolved policy pack to a loop program.
pub const GERBIL_POO_LOOP_PROGRAM_COMPILER_TYPE_ID: &'static str =
    "marlin.config-interface.poo.loop-program-compiler-receipt";

/// Schema id carried by POO compiler receipts.
pub const GERBIL_POO_LOOP_PROGRAM_COMPILER_SCHEMA_ID: &'static str =
    "marlin.config-interface.poo.loop-program-compiler-receipt.v1";

/// Package id for loop policy projection modules exported by config-interface.
pub const GERBIL_LOOP_POLICY_PROJECTION_MODULE_PACKAGE_ID: &'static str =
    "marlin.config-interface.loop-policy.profile-projection-module";

/// Type id for loop policy projection modules exported by config-interface.
pub const GERBIL_LOOP_POLICY_PROJECTION_MODULE_TYPE_ID: &'static str =
    "marlin.config-interface.loop-policy.profile-projection-module";

/// Schema id carried by loop policy projection modules.
pub const GERBIL_LOOP_POLICY_PROJECTION_MODULE_SCHEMA_ID: &'static str =
    "marlin.config-interface.loop-policy.profile-projection-module.v1";

/// Typed kind identifier for policy-pack receipt projections.
#[derive(Debug, Hash, PartialOrd, Ord)]
pub struct GerbilPolicyPackReceiptKind(String);

impl View for GerbilPolicyPackReceiptKind {
    type V = Seq<char>;

    closed spec fn view(&self) -> Seq<char> {
        self.0@
    }
}

impl GerbilPolicyPackReceiptKind {
    pub fn new(value: &str) -> (id: Self)
        ensures
            id@ == value@,
    {
        GerbilPolicyPackReceiptKind(value.to_owned())
    }

    pub fn as_str(&self) -> (text: &str)
        ensures
            text@ == self@,
    {
        self.0.as_str()
    }
}

impl Clone for GerbilPolicyPackReceiptKind {
    fn clone(&self) -> (copy: Self)
        ensures
            copy == *self,
    {
        GerbilPolicyPackReceiptKind(self.0.clone())
    }
}

impl PartialEq for GerbilPolicyPackReceiptKind {
    fn eq(&self, other: &Self) -> (same: bool) {
        self.0 == other.0
    }
}

impl Eq for GerbilPolicyPackReceiptKind {}

impl PartialEqSpecImpl for GerbilPolicyPackReceiptKind {
    open spec fn obeys_eq_spec() -> bool {
        true
    }

    open spec fn eq_spec(&self, other: &Self) -> bool {
        self@ == other@
    }
}

/// POO profile id that produced a concrete loop program.
#[derive(Debug, Hash, PartialOrd, Ord)]
pub struct GerbilPooLoopProgramProfileId(String);

impl View for GerbilPooLoopProgramProfileId {
    type V = Seq<char>;

    closed spec fn view(&self) -> Seq<char> {
        self.0@
    }
}

impl GerbilPooLoopProgramProfileId {
    pub fn new(value: &str) -> (id: Self)
        ensures
            id@ == value@,
    {
        GerbilPooLoopProgramProfileId(value.to_owned())
    }

    pub fn as_str(&self) -> (text: &str)
        ensures
            text@ == self@,
    {
        self.0.as_str()
    }
}

impl Clone for GerbilPooLoopProgramProfileId {
    fn clone(&self) -> (copy: Self)
        ensures
            copy == *self,
    {
        GerbilPooLoopProgramProfileId(self.0.clone())
    }
}

impl PartialEq for GerbilPooLoopProgramProfileId {
    fn eq(&self, other: &Self) -> (same: bool) {
        self.0 == other.0
    }
}

impl Eq for GerbilPooLoopProgramProfileId {}

impl PartialEqSpecImpl for GerbilPooLoopProgramProfileId {
    open spec fn obeys_eq_spec() -> bool {
        true
    }

    open spec fn eq_spec(&self, other: &Self) -> bool {
        self@ == other@
    }
}

/// Fixed owner lane for the Scheme-side POO compiler.
#[derive(Clone, Copy, Debug, PartialEq, Eq, Structural)]
pub enum GerbilPooLoopProgramCompilerOwner {
    GerbilPooFlow,
}

/// Native internal boundary for POO compiler receipts.
#[derive(Clone, Copy, Debug, PartialEq, Eq, Structural)]
pub enum GerbilPooLoopProgramCompilerBoundary {
    SchemeTypesToRustTypes,
}

/// Serialization boundary retained outside native runtime internals.
#[derive(Clone, Copy, Debug, PartialEq, Eq, Structural)]
pub enum GerbilPooLoopProgramCompilerSerializationBoundary {
    RustOwnedCliTraceCrossProcess,
}

/// Minimal typed view of a nested policy-pack receipt.
#[derive(Clone, Debug, PartialEq, Eq)]
pub struct GerbilPolicyPackReceiptSummary {
    pub kind: GerbilPolicyPackReceiptKind,
    pub pack_id: String,
    pub owner: String,
    pub replayable: bool,
}

/// Rust projection of the Gerbil policy-pack projection-chain receipt.
#[derive(Clone, Debug, PartialEq, Eq)]
pub struct GerbilPolicyPackProjectionChainReceipt {
    pub kind: GerbilPolicyPackReceiptKind,
    pub pack_id: String,
    pub receipt_family_count: usize,
    pub receipt_family_ids: Vec<String>,
    pub module_evaluation_receipt: GerbilPolicyPackReceiptSummary,
    pub policy_projection_receipt: GerbilPolicyPackReceiptSummary,
    pub native_projection_payload: GerbilPolicyPackReceiptSummary,
    pub budget_receipt: GerbilPolicyPackReceiptSummary,
    pub catalog_resolution_receipt: GerbilPolicyPackReceiptSummary,
    pub module_evaluation_receipt_owner: String,
    pub policy_projection_receipt_owner: String,
    pub native_projection_payload_owner: String,
    pub budget_receipt_owner: String,
    pub catalog_resolution_receipt_owner: String,
    pub catalog_resolution_allowed_hook_count: usize,
    pub replayable: bool,
}

/// The receipt families a projection chain carries, in order.
pub open spec fn receipt_family_ids() -> Seq<Seq<char>> {
    seq![
        "module_evaluation_receipt"@,
        "policy_projection_receipt"@,
        "native_projection_payload"@,
        "budget_receipt"@,
        "catalog_resolution_receipt"@,
    ]
}

/// `{:?}` of the items of a list, separated by `, `.
pub open spec fn debug_items(items: Seq<Seq<char>>) -> Seq<char>
    decreases items.len(),
{
    if items.len() == 0 {
        Seq::empty()
    } else if items.len() == 1 {
        debug_str_text(items[0])
    } else {
        debug_items(items.drop_last()) + ", "@ + debug_str_text(items.last())
    }
}

/// `{:?}` of a list of strings.
pub open spec fn debug_list(items: Seq<Seq<char>>) -> Seq<char> {
    "["@ + debug_items(items) + "]"@
}

/// `{:?}` of a list of strings.
fn debug_list_text(items: &Vec<String>) -> (text: String)
    ensures
        text@ == debug_list(items@.map_values(|s: String| s@)),
{
    let ghost views = items@.map_values(|s: String| s@);
    let mut inner = String::new();
    let mut i: usize = 0;
    assert(views.take(0) =~= Seq::<Seq<char>>::empty());
    while i < items.len()
        invariant
            i <= items.len(),
            views == items@.map_values(|s: String| s@),
            inner@ == debug_items(views.take(i as int)),
        decreases items.len() - i,
    {
        let quoted = debug_str(items[i].as_str());
        assert(views.take(i + 1).drop_last() =~= views.take(i as int));
        assert(views.take(i + 1).last() == items@[i as int]@);
        if i > 0 {
            inner.append(", ");
        }
        inner.append(quoted.as_str());
        i += 1;
    }
    assert(views.take(i as int) =~= views);
    let mut text = "[".to_owned();
    text.append(inner.as_str());
    text.append("]");
    text
}

/// The receipt family ids a projection chain must carry.
fn expected_family_ids() -> (ids: Vec<String>)
    ensures
        ids@.map_values(|s: String| s@) == receipt_family_ids(),
{
    let ids = vec![
        "module_evaluation_receipt".to_owned(),
        "policy_projection_receipt".to_owned(),
        "native_projection_payload".to_owned(),
        "budget_receipt".to_owned(),
        "catalog_resolution_receipt".to_owned(),
    ];
    assert(ids@.map_values(|s: String| s@) =~= receipt_family_ids());
    ids
}

/// Whether two string lists hold the same texts in the same order.
fn same_texts(a: &Vec<String>, b: &Vec<String>) -> (same: bool)
    ensures
        same == (a@.map_values(|s: String| s@) == b@.map_values(|s: String| s@)),
{
    if a.len() != b.len() {
        assert(a@.map_values(|s: String| s@).len() != b@.map_values(|s: String| s@).len());
        return false;
    }
    let mut i: usize = 0;
    while i < a.len()
        invariant
            i <= a.len(),
            a.len() == b.len(),
            forall|j: int| 0 <= j < i ==> a@[j]@ == b@[j]@,
        decreases a.len() - i,
    {
        if !text_eq(a[i].as_str(), b[i].as_str()) {
            assert(a@.map_values(|s: String| s@)[i as int] != b@.map_values(|s: String| s@)[i as int]);
            return false;
        }
        i += 1;
    }
    assert(a@.map_values(|s: String| s@) =~= b@.map_values(|s: String| s@));
    true
}

/// Message for an owner field that disagrees with its nested receipt.
pub open spec fn owner_mismatch_text(field_name: Seq<char>, owner: Seq<char>, nested: Seq<char>) -> Seq<
    char,
> {
    "policy-pack projection-chain "@ + field_name + " "@ + owner + " does not match nested owner "@
        + nested
}

/// First failed check of a projection-chain receipt, as the projection error it raises.
pub open spec fn chain_schema_error(r: GerbilPolicyPackProjectionChainReceipt) -> Option<Seq<char>> {
    if r.kind@ != GERBIL_POLICY_PACK_PROJECTION_CHAIN_SCHEMA_ID@ {
        Some(
            "policy-pack projection-chain kind "@ + r.kind@ + " does not match "@
                + GERBIL_POLICY_PACK_PROJECTION_CHAIN_SCHEMA_ID@,
        )
    } else if r.receipt_family_count != 5 {
        Some(
            "policy-pack projection-chain family count "@ + decimal_text(
                r.receipt_family_count as nat,
            ) + " does not match 5"@,
        )
    } else if r.receipt_family_ids@.map_values(|s: String| s@) != receipt_family_ids() {
        Some(
            "policy-pack projection-chain family ids "@ + debug_list(
                r.receipt_family_ids@.map_values(|s: String| s@),
            ) + " do not match "@ + debug_list(receipt_family_ids()),
        )
    } else if r.module_evaluation_receipt_owner@ != r.module_evaluation_receipt.owner@ {
        Some(
            owner_mismatch_text(
                "module-evaluation-receipt-owner"@,
                r.module_evaluation_receipt_owner@,
                r.module_evaluation_receipt.owner@,
            ),
        )
    } else if r.policy_projection_receipt_owner@ != r.policy_projection_receipt.owner@ {
        Some(
            owner_mismatch_text(
                "policy-projection-receipt-owner"@,
                r.policy_projection_receipt_owner@,
                r.policy_projection_receipt.owner@,
            ),
        )
    } else if r.native_projection_payload_owner@ != r.native_projection_payload.owner@ {
        Some(
            owner_mismatch_text(
                "native-projection-payload-owner"@,
                r.native_projection_payload_owner@,
                r.native_projection_payload.owner@,
            ),
        )
    } else if r.budget_receipt_owner@ != r.budget_receipt.owner@ {
        Some(
            owner_mismatch_text(
                "budget-receipt-owner"@,
                r.budget_receipt_owner@,
                r.budget_receipt.owner@,
            ),
        )
    } else if r.catalog_resolution_receipt_owner@ != r.catalog_resolution_receipt.owner@ {
        Some(
            owner_mismatch_text(
                "catalog-resolution-receipt-owner"@,
                r.catalog_resolution_receipt_owner@,
                r.catalog_resolution_receipt.owner@,
            ),
        )
    } else {
        None
    }
}

/// Checks that an owner field matches the owner of its nested receipt.
fn ensure_owner_matches(
    field_name: &str,
    owner: &String,
    nested_receipt: &GerbilPolicyPackReceiptSummary,
) -> (result: Result<(), GerbilSchemeTypeDecodeError>)
    ensures
        match result {
            Ok(()) => owner@ == nested_receipt.owner@,
            Err(e) => owner@ != nested_receipt.owner@ && e
                == GerbilSchemeTypeDecodeError::RustProjection {
                message: e->RustProjection_message,
            } && e->RustProjection_message@ == owner_mismatch_text(
                field_name@,
                owner@,
                nested_receipt.owner@,
            ),
        },
{
    if text_eq(owner.as_str(), nested_receipt.owner.as_str()) {
        Ok(())
    } else {
        let mut message = "policy-pack projection-chain ".to_owned();
        message.append(field_name);
        message.append(" ");
        message.append(owner.as_str());
        message.append(" does not match nested owner ");
        message.append(nested_receipt.owner.as_str());
        Err(GerbilSchemeTypeDecodeError::RustProjection { message })
    }
}

impl GerbilPolicyPackProjectionChainReceipt {
    /// Returns whether the receipt kind matches the current Rust projection.
    pub fn has_current_schema(&self) -> (current: bool)
        ensures
            current == (self.kind@ == GERBIL_POLICY_PACK_PROJECTION_CHAIN_SCHEMA_ID@),
    {
        text_eq(self.kind.as_str(), GERBIL_POLICY_PACK_PROJECTION_CHAIN_SCHEMA_ID)
    }

    /// Checks the kind, the receipt families and that each owner field names
    /// the owner of its nested receipt; the error is the first failed check.
    pub fn ensure_current_schema(&self) -> (result: Result<(), GerbilSchemeTypeDecodeError>)
        ensures
            match result {
                Ok(()) => chain_schema_error(*self) is None,
                Err(e) => e is RustProjection && chain_schema_error(*self) == Some(
                    e->RustProjection_message@,
                ),
            },
    {
        if !self.has_current_schema() {
            let mut message = "policy-pack projection-chain kind ".to_owned();
            message.append(self.kind.as_str());
            message.append(" does not match ");
            message.append(GERBIL_POLICY_PACK_PROJECTION_CHAIN_SCHEMA_ID);
            return Err(GerbilSchemeTypeDecodeError::RustProjection { message });
        }
        if self.receipt_family_count != 5 {
            let mut message = "policy-pack projection-chain family count ".to_owned();
            let count = u64_to_text(self.receipt_family_count as u64);
            message.append(count.as_str());
            message.append(" does not match 5");
            return Err(GerbilSchemeTypeDecodeError::RustProjection { message });
        }
        let expected = expected_family_ids();
        if !same_texts(&self.receipt_family_ids, &expected) {
            let mut message = "policy-pack projection-chain family ids ".to_owned();
            let actual_text = debug_list_text(&self.receipt_family_ids);
            message.append(actual_text.as_str());
            message.append(" do not match ");
            let expected_text = debug_list_text(&expected);
            message.append(expected_text.as_str());
            return Err(GerbilSchemeTypeDecodeError::RustProjection { message });
        }
        if let Err(e) = ensure_owner_matches(
            "module-evaluation-receipt-owner",
            &self.module_evaluation_receipt_owner,
            &self.module_evaluation_receipt,
        ) {
            return Err(e);
        }
        if let Err(e) = ensure_owner_matches(
            "policy-projection-receipt-owner",
            &self.policy_projection_receipt_owner,
            &self.policy_projection_receipt,
        ) {
            return Err(e);
        }
        if let Err(e) = ensure_owner_matches(
            "native-projection-payload-owner",
            &self.native_projection_payload_owner,
            &self.native_projection_payload,
        ) {
            return Err(e);
        }
        if let Err(e) = ensure_owner_matches(
            "budget-receipt-owner",
            &self.budget_receipt_owner,
            &self.budget_receipt,
        ) {
            return Err(e);
        }
        if let Err(e) = ensure_owner_matches(
            "catalog-resolution-receipt-owner",
            &self.catalog_resolution_receipt_owner,
            &self.catalog_resolution_receipt,
        ) {
            return Err(e);
        }
        Ok(())
    }
}

impl GerbilSchemeTypedProjection for GerbilPolicyPackProjectionChainReceipt {
    fn scheme_projection_contract() -> (contract: GerbilSchemeProjectionContract)
        ensures
            is_contract_for(contract, GERBIL_POLICY_PACK_PROJECTION_CHAIN_TYPE_ID@, GERBIL_POLICY_PACK_PROJECTION_CHAIN_SCHEMA_ID@),
    {
        gerbil_policy_pack_projection_chain_contract()
    }
}

/// Fields of the policy-pack projection-chain receipt type: name, type id and element type id.
pub open spec fn projection_chain_fields() -> Seq<(Seq<char>, Seq<char>, Option<Seq<char>>)> {
    seq![
        ("kind"@, "string"@, None),
        ("pack-id"@, "string"@, None),
        ("receipt-family-count"@, "integer"@, None),
        ("receipt-family-ids"@, "array"@, Some("string"@)),
        ("module-evaluation-receipt"@, "object"@, None),
        ("policy-projection-receipt"@, "object"@, None),
        ("native-projection-payload"@, "object"@, None),
        ("budget-receipt"@, "object"@, None),
        ("catalog-resolution-receipt"@, "object"@, None),
        ("module-evaluation-receipt-owner"@, "string"@, None),
        ("policy-projection-receipt-owner"@, "string"@, None),
        ("native-projection-payload-owner"@, "string"@, None),
        ("budget-receipt-owner"@, "string"@, None),
        ("catalog-resolution-receipt-owner"@, "string"@, None),
        ("catalog-resolution-allowed-hook-count"@, "integer"@, None),
        ("replayable"@, "boolean"@, None),
    ]
}

/// Contract expected for the policy-pack projection-chain receipt.
pub fn gerbil_policy_pack_projection_chain_contract() -> (contract: GerbilSchemeProjectionContract)
    ensures
        is_contract_for(contract, GERBIL_POLICY_PACK_PROJECTION_CHAIN_TYPE_ID@, GERBIL_POLICY_PACK_PROJECTION_CHAIN_SCHEMA_ID@),
{
    typed_contract(GERBIL_POLICY_PACK_PROJECTION_CHAIN_TYPE_ID, GERBIL_POLICY_PACK_PROJECTION_CHAIN_SCHEMA_ID)
}

/// Scheme type manifest for the policy-pack projection-chain receipt.
pub fn gerbil_policy_pack_projection_chain_type_manifest() -> (manifest: GerbilSchemeTypeManifest)
    ensures
        is_single_type_manifest(manifest, GERBIL_POLICY_PACK_PROJECTION_CHAIN_TYPE_ID@, GERBIL_POLICY_PACK_PROJECTION_CHAIN_SCHEMA_ID@, projection_chain_fields()),
{
    let fields = vec![
        required_field("kind", "string", None),
        required_field("pack-id", "string", None),
        required_field("receipt-family-count", "integer", None),
        required_field("receipt-family-ids", "array", Some("string")),
        required_field("module-evaluation-receipt", "object", None),
        required_field("policy-projection-receipt", "object", None),
        required_field("native-projection-payload", "object", None),
        required_field("budget-receipt", "object", None),
        required_field("catalog-resolution-receipt", "object", None),
        required_field("module-evaluation-receipt-owner", "string", None),
        required_field("policy-projection-receipt-owner", "string", None),
        required_field("native-projection-payload-owner", "string", None),
        required_field("budget-receipt-owner", "string", None),
        required_field("catalog-resolution-receipt-owner", "string", None),
        required_field("catalog-resolution-allowed-hook-count", "integer", None),
        required_field("replayable", "boolean", None),
    ];
    assert(field_shapes(fields@) =~= projection_chain_fields());
    single_type_manifest(GERBIL_POLICY_PACK_PROJECTION_CHAIN_TYPE_ID, GERBIL_POLICY_PACK_PROJECTION_CHAIN_SCHEMA_ID, fields)
}

/// Package manifest for the policy-pack projection-chain receipt.
pub fn gerbil_policy_pack_projection_chain_package_manifest() -> (manifest: GerbilSchemePackageManifest)
    ensures
        is_single_contract_package(manifest, GERBIL_POLICY_PACK_PROJECTION_CHAIN_PACKAGE_ID@, GERBIL_POLICY_PACK_PROJECTION_CHAIN_TYPE_ID@, GERBIL_POLICY_PACK_PROJECTION_CHAIN_SCHEMA_ID@, projection_chain_fields()),
{
    single_contract_package(GERBIL_POLICY_PACK_PROJECTION_CHAIN_PACKAGE_ID, gerbil_policy_pack_projection_chain_type_manifest(), gerbil_policy_pack_projection_chain_contract())
}


/// Fields of the Gerbil-resolved loop policy pack type: name, type id and element type id.
pub open spec fn resolved_loop_policy_pack_fields() -> Seq<(Seq<char>, Seq<char>, Option<Seq<char>>)> {
    seq![
        ("schema_version"@, "integer"@, None),
        ("policy_epoch"@, "integer"@, None),
        ("policy_digest"@, "array"@, Some("integer"@)),
        ("hot"@, "object"@, None),
        ("audit"@, "object"@, None),
    ]
}

/// Contract expected for the Gerbil-resolved loop policy pack.
pub fn gerbil_resolved_loop_policy_pack_contract() -> (contract: GerbilSchemeProjectionContract)
    ensures
        is_contract_for(contract, GERBIL_RESOLVED_LOOP_POLICY_PACK_TYPE_ID@, GERBIL_RESOLVED_LOOP_POLICY_PACK_SCHEMA_ID@),
{
    typed_contract(GERBIL_RESOLVED_LOOP_POLICY_PACK_TYPE_ID, GERBIL_RESOLVED_LOOP_POLICY_PACK_SCHEMA_ID)
}

/// Scheme type manifest for the Gerbil-resolved loop policy pack.
pub fn gerbil_resolved_loop_policy_pack_type_manifest() -> (manifest: GerbilSchemeTypeManifest)
    ensures
        is_single_type_manifest(manifest, GERBIL_RESOLVED_LOOP_POLICY_PACK_TYPE_ID@, GERBIL_RESOLVED_LOOP_POLICY_PACK_SCHEMA_ID@, resolved_loop_policy_pack_fields()),
{
    let fields = vec![
        required_field("schema_version", "integer", None),
        required_field("policy_epoch", "integer", None),
        required_field("policy_digest", "array", Some("integer")),
        required_field("hot", "object", None),
        required_field("audit", "object", None),
    ];
    assert(field_shapes(fields@) =~= resolved_loop_policy_pack_fields());
    single_type_manifest(GERBIL_RESOLVED_LOOP_POLICY_PACK_TYPE_ID, GERBIL_RESOLVED_LOOP_POLICY_PACK_SCHEMA_ID, fields)
}

/// Package manifest for the Gerbil-resolved loop policy pack.
pub fn gerbil_resolved_loop_policy_pack_package_manifest() -> (manifest: GerbilSchemePackageManifest)
    ensures
        is_single_contract_package(manifest, GERBIL_RESOLVED_LOOP_POLICY_PACK_PACKAGE_ID@, GERBIL_RESOLVED_LOOP_POLICY_PACK_TYPE_ID@, GERBIL_RESOLVED_LOOP_POLICY_PACK_SCHEMA_ID@, resolved_loop_policy_pack_fields()),
{
    single_contract_package(GERBIL_RESOLVED_LOOP_POLICY_PACK_PACKAGE_ID, gerbil_resolved_loop_policy_pack_type_manifest(), gerbil_resolved_loop_policy_pack_contract())
}


/// Fields of the POO loop-program compiler receipt type: name, type id and element type id.
pub open spec fn poo_loop_program_compiler_fields() -> Seq<(Seq<char>, Seq<char>, Option<Seq<char>>)> {
    seq![
        ("kind"@, "string"@, None),
        ("profile-id"@, "string"@, None),
        ("compiler-owner"@, "string"@, None),
        ("resolved-policy-pack"@, "object"@, None),
        ("loop-program"@, "object"@, None),
        ("scheme-boundary"@, "string"@, None),
        ("serialization-boundary"@, "string"@, None),
    ]
}

/// Contract expected for the POO loop-program compiler receipt.
pub fn gerbil_poo_loop_program_compiler_contract() -> (contract: GerbilSchemeProjectionContract)
    ensures
        is_contract_for(contract, GERBIL_POO_LOOP_PROGRAM_COMPILER_TYPE_ID@, GERBIL_POO_LOOP_PROGRAM_COMPILER_SCHEMA_ID@),
{
    typed_contract(GERBIL_POO_LOOP_PROGRAM_COMPILER_TYPE_ID, GERBIL_POO_LOOP_PROGRAM_COMPILER_SCHEMA_ID)
}

/// Scheme type manifest for the POO loop-program compiler receipt.
pub fn gerbil_poo_loop_program_compiler_type_manifest() -> (manifest: GerbilSchemeTypeManifest)
    ensures
        is_single_type_manifest(manifest, GERBIL_POO_LOOP_PROGRAM_COMPILER_TYPE_ID@, GERBIL_POO_LOOP_PROGRAM_COMPILER_SCHEMA_ID@, poo_loop_program_compiler_fields()),
{
    let fields = vec![
        required_field("kind", "string", None),
        required_field("profile-id", "string", None),
        required_field("compiler-owner", "string", None),
        required_field("resolved-policy-pack", "object", None),
        required_field("loop-program", "object", None),
        required_field("scheme-boundary", "string", None),
        required_field("serialization-boundary", "string", None),
    ];
    assert(field_shapes(fields@) =~= poo_loop_program_compiler_fields());
    single_type_manifest(GERBIL_POO_LOOP_PROGRAM_COMPILER_TYPE_ID, GERBIL_POO_LOOP_PROGRAM_COMPILER_SCHEMA_ID, fields)
}

/// Package manifest for the POO loop-program compiler receipt.
pub fn gerbil_poo_loop_program_compiler_package_manifest() -> (manifest: GerbilSchemePackageManifest)
    ensures
        is_single_contract_package(manifest, GERBIL_POO_LOOP_PROGRAM_COMPILER_PACKAGE_ID@, GERBIL_POO_LOOP_PROGRAM_COMPILER_TYPE_ID@, GERBIL_POO_LOOP_PROGRAM_COMPILER_SCHEMA_ID@, poo_loop_program_compiler_fields()),
{
    single_contract_package(GERBIL_POO_LOOP_PROGRAM_COMPILER_PACKAGE_ID, gerbil_poo_loop_program_compiler_type_manifest(), gerbil_poo_loop_program_compiler_contract())
}


/// Fields of the loop policy projection module type: name, type id and element type id.
pub open spec fn loop_policy_projection_module_fields() -> Seq<(Seq<char>, Seq<char>, Option<Seq<char>>)> {
    seq![
        ("kind"@, "string"@, None),
        ("module-id"@, "string"@, None),
        ("profile-id"@, "string"@, None),
        ("owner"@, "string"@, None),
        ("source-module"@, "string"@, None),
        ("poo-flow-module"@, "string"@, None),
        ("poo-flow-capability-lanes"@, "array"@, Some("string"@)),
        ("vertical-case-id"@, "any"@, None),
        ("vertical-capability-tags"@, "array"@, Some("string"@)),
        ("vertical-mainline?"@, "boolean"@, None),
        ("rust-type"@, "string"@, None),
        ("scheme-boundary"@, "string"@, None),
        ("serialization-boundary"@, "string"@, None),
        ("compiler-receipt"@, "object"@, None),
    ]
}

/// Contract expected for the loop policy projection module.
pub fn gerbil_loop_policy_projection_module_contract() -> (contract: GerbilSchemeProjectionContract)
    ensures
        is_contract_for(contract, GERBIL_LOOP_POLICY_PROJECTION_MODULE_TYPE_ID@, GERBIL_LOOP_POLICY_PROJECTION_MODULE_SCHEMA_ID@),
{
    typed_contract(GERBIL_LOOP_POLICY_PROJECTION_MODULE_TYPE_ID, GERBIL_LOOP_POLICY_PROJECTION_MODULE_SCHEMA_ID)
}

/// Scheme type manifest for the loop policy projection module.
pub fn gerbil_loop_policy_projection_module_type_manifest() -> (manifest: GerbilSchemeTypeManifest)
    ensures
        is_single_type_manifest(manifest, GERBIL_LOOP_POLICY_PROJECTION_MODULE_TYPE_ID@, GERBIL_LOOP_POLICY_PROJECTION_MODULE_SCHEMA_ID@, loop_policy_projection_module_fields()),
{
    let fields = vec![
        required_field("kind", "string", None),
        required_field("module-id", "string", None),
        required_field("profile-id", "string", None),
        required_field("owner", "string", None),
        required_field("source-module", "string", None),
        required_field("poo-flow-module", "string", None),
        required_field("poo-flow-capability-lanes", "array", Some("string")),
        required_field("vertical-case-id", "any", None),
        required_field("vertical-capability-tags", "array", Some("string")),
        required_field("vertical-mainline?", "boolean", None),
        required_field("rust-type", "string", None),
        required_field("scheme-boundary", "string", None),
        required_field("serialization-boundary", "string", None),
        required_field("compiler-receipt", "object", None),
    ];
    assert(field_shapes(fields@) =~= loop_policy_projection_module_fields());
    single_type_manifest(GERBIL_LOOP_POLICY_PROJECTION_MODULE_TYPE_ID, GERBIL_LOOP_POLICY_PROJECTION_MODULE_SCHEMA_ID, fields)
}

/// Package manifest for the loop policy projection module.
pub fn gerbil_loop_policy_projection_module_package_manifest() -> (manifest: GerbilSchemePackageManifest)
    ensures
        is_single_contract_package(manifest, GERBIL_LOOP_POLICY_PROJECTION_MODULE_PACKAGE_ID@, GERBIL_LOOP_POLICY_PROJECTION_MODULE_TYPE_ID@, GERBIL_LOOP_POLICY_PROJECTION_MODULE_SCHEMA_ID@, loop_policy_projection_module_fields()),
{
    single_contract_package(GERBIL_LOOP_POLICY_PROJECTION_MODULE_PACKAGE_ID, gerbil_loop_policy_projection_module_type_manifest(), gerbil_loop_policy_projection_module_contract())
}


} // verus!
