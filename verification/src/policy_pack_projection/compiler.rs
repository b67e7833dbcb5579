//! Checks of POO loop-program compiler receipts and of the config-interface
//! modules that carry them.
//!
//! The resolved policy pack and the loop program of a receipt are agent
//! protocol values; a receipt here holds what the checks read of them, and the
//! schema versions that the protocol in use supports are handed in.

use vstd::prelude::*;

use super::surface::{
    gerbil_loop_policy_projection_module_contract, gerbil_poo_loop_program_compiler_contract,
    GERBIL_LOOP_POLICY_PROJECTION_MODULE_SCHEMA_ID,
    GERBIL_LOOP_POLICY_PROJECTION_MODULE_TYPE_ID, GERBIL_POO_LOOP_PROGRAM_COMPILER_SCHEMA_ID,
    GERBIL_POO_LOOP_PROGRAM_COMPILER_TYPE_ID,
    GerbilPolicyPackReceiptKind, GerbilPooLoopProgramCompilerBoundary,
    GerbilPooLoopProgramCompilerOwner, GerbilPooLoopProgramCompilerSerializationBoundary,
    GerbilPooLoopProgramProfileId,
};
use super::manifests::is_contract_for;
use crate::scheme_types::error::GerbilSchemeTypeDecodeError;
use crate::scheme_types::projection::{GerbilSchemeProjectionContract, GerbilSchemeTypedProjection};
use crate::text::{decimal_text, is_blank, text_eq, text_is_blank, u64_to_text};

verus! {

/// What the checks read of a resolved loop policy pack.
#[derive(Clone, Debug, PartialEq, Eq)]
pub struct GerbilResolvedLoopPolicyPackFacts {
    pub schema_version: u32,
    pub policy_epoch: u64,
    pub policy_digest: Vec<u8>,
    pub hot_graph_node_count: usize,
    pub provenance_count: usize,
    pub linearization_count: usize,
    pub forced_slot_count: usize,
    pub merge_receipt_count: usize,
}

/// What the checks read of a loop program.
#[derive(Clone, Debug, PartialEq, Eq)]
pub struct GerbilLoopProgramFacts {
    pub schema_version: u32,
    pub policy_epoch: u64,
    pub policy_digest: Vec<u8>,
    pub mechanism_policy_count: usize,
    pub transition_count: usize,
}

/// Schema versions that the agent protocol in use supports.
#[derive(Clone, Copy, Debug, PartialEq, Eq, Structural)]
pub struct GerbilPolicyProtocolVersions {
    pub loop_program: u32,
    pub resolved_loop_policy_pack: u32,
}

impl GerbilResolvedLoopPolicyPackFacts {
    /// Checks a decoded resolved loop policy pack against the schema version
    /// of resolved packs that the protocol in use supports.
    pub fn ensure_current_schema(&self, versions: GerbilPolicyProtocolVersions) -> (result: Result<
        (),
        GerbilSchemeTypeDecodeError,
    >)
        ensures
            self.schema_version == versions.resolved_loop_policy_pack ==> result is Ok,
            self.schema_version != versions.resolved_loop_policy_pack ==> (result matches Err(
                GerbilSchemeTypeDecodeError::RustProjection { message },
            ) && message@ == "resolved loop policy pack schema version "@ + decimal_text(
                self.schema_version as nat,
            ) + " does not match "@ + decimal_text(versions.resolved_loop_policy_pack as nat)),
    {
        if self.schema_version == versions.resolved_loop_policy_pack {
            Ok(())
        } else {
            Err(
                projection_error(
                    numbers_message(
                        "resolved loop policy pack schema version ",
                        self.schema_version as u64,
                        " does not match ",
                        versions.resolved_loop_policy_pack as u64,
                    ),
                ),
            )
        }
    }
}

/// POO compiler receipt that binds the resolved hot/audit policy pack to a runtime program.
#[derive(Clone, Debug, PartialEq, Eq)]
pub struct GerbilPooLoopProgramCompilerReceipt {
    pub kind: GerbilPolicyPackReceiptKind,
    pub profile_id: GerbilPooLoopProgramProfileId,
    pub compiler_owner: GerbilPooLoopProgramCompilerOwner,
    pub resolved_policy_pack: GerbilResolvedLoopPolicyPackFacts,
    pub loop_program: GerbilLoopProgramFacts,
    pub scheme_boundary: GerbilPooLoopProgramCompilerBoundary,
    pub serialization_boundary: GerbilPooLoopProgramCompilerSerializationBoundary,
}

/// Config-interface module projection that carries a typed POO compiler receipt.
#[derive(Clone, Debug, PartialEq, Eq)]
pub struct GerbilLoopPolicyProjectionModule {
    pub kind: GerbilPolicyPackReceiptKind,
    pub module_id: String,
    pub profile_id: GerbilPooLoopProgramProfileId,
    pub owner: GerbilPooLoopProgramCompilerOwner,
    pub source_module: String,
    pub poo_flow_module: String,
    pub poo_flow_capability_lanes: Vec<String>,
    pub vertical_case_id: Option<String>,
    pub vertical_capability_tags: Vec<String>,
    pub vertical_mainline: bool,
    pub rust_type: GerbilPolicyPackReceiptKind,
    pub scheme_boundary: GerbilPooLoopProgramCompilerBoundary,
    pub serialization_boundary: GerbilPooLoopProgramCompilerSerializationBoundary,
    pub compiler_receipt: GerbilPooLoopProgramCompilerReceipt,
}

/// First failed check of a compiler receipt, as the message of the projection error it raises.
pub open spec fn compiler_schema_error(
    r: GerbilPooLoopProgramCompilerReceipt,
    versions: GerbilPolicyProtocolVersions,
) -> Option<Seq<char>> {
    let pack = r.resolved_policy_pack;
    let program = r.loop_program;
    if r.kind@ != GERBIL_POO_LOOP_PROGRAM_COMPILER_SCHEMA_ID@ {
        Some(
            "POO loop-program compiler kind "@ + r.kind@ + " does not match "@
                + GERBIL_POO_LOOP_PROGRAM_COMPILER_SCHEMA_ID@,
        )
    } else if pack.schema_version != versions.resolved_loop_policy_pack {
        Some(
            "POO compiler resolved policy pack schema version "@ + decimal_text(
                pack.schema_version as nat,
            ) + " does not match "@ + decimal_text(versions.resolved_loop_policy_pack as nat),
        )
    } else if program.schema_version != versions.loop_program {
        Some(
            "POO compiler loop program schema version "@ + decimal_text(
                program.schema_version as nat,
            ) + " does not match "@ + decimal_text(versions.loop_program as nat),
        )
    } else if program.policy_epoch != pack.policy_epoch {
        Some(
            "POO compiler loop program epoch "@ + decimal_text(program.policy_epoch as nat)
                + " does not match resolved policy pack epoch "@ + decimal_text(
                pack.policy_epoch as nat,
            ),
        )
    } else if program.policy_digest@ != pack.policy_digest@ {
        Some(
            "POO compiler loop program policy digest does not match resolved policy pack digest"@,
        )
    } else if program.mechanism_policy_count == 0 {
        Some("POO compiler loop program must carry at least one mechanism policy"@)
    } else if program.transition_count == 0 {
        Some("POO compiler loop program must carry at least one transition"@)
    } else if pack.hot_graph_node_count == 0 {
        Some("POO compiler resolved policy pack must carry hot graph nodes"@)
    } else if pack.provenance_count == 0 {
        Some("POO compiler resolved policy pack must carry policy provenance"@)
    } else if pack.linearization_count == 0 {
        Some("POO compiler resolved policy pack must carry POO linearization"@)
    } else if pack.forced_slot_count == 0 {
        Some("POO compiler resolved policy pack must carry forced slots"@)
    } else if pack.merge_receipt_count == 0 {
        Some("POO compiler resolved policy pack must carry merge receipts"@)
    } else {
        None
    }
}

/// Some tag is blank.
pub open spec fn has_blank_tag(tags: Seq<String>) -> bool {
    exists|i: int| 0 <= i < tags.len() && is_blank(#[trigger] tags[i]@)
}

/// First failed check of a module's vertical descriptor.
pub open spec fn vertical_descriptor_error(m: GerbilLoopPolicyProjectionModule) -> Option<Seq<char>> {
    if m.vertical_mainline {
        match m.vertical_case_id {
            None => Some("loop policy projection module mainline requires vertical case id"@),
            Some(case_id) => if is_blank(case_id@) {
                Some("loop policy projection module vertical case id must be non-empty"@)
            } else if m.vertical_capability_tags@.len() == 0 {
                Some("loop policy projection module mainline requires vertical capability tags"@)
            } else {
                None
            },
        }
    } else if m.vertical_case_id is Some || m.vertical_capability_tags@.len() > 0 {
        Some("loop policy projection module non-mainline cannot carry vertical descriptor"@)
    } else {
        None
    }
}

/// First failed check of a projection module, as the message of the projection error it raises.
pub open spec fn module_schema_error(
    m: GerbilLoopPolicyProjectionModule,
    versions: GerbilPolicyProtocolVersions,
) -> Option<Seq<char>> {
    if m.kind@ != GERBIL_LOOP_POLICY_PROJECTION_MODULE_SCHEMA_ID@ {
        Some(
            "loop policy projection module kind "@ + m.kind@ + " does not match "@
                + GERBIL_LOOP_POLICY_PROJECTION_MODULE_SCHEMA_ID@,
        )
    } else if m.owner != GerbilPooLoopProgramCompilerOwner::GerbilPooFlow {
        Some("loop policy projection module owner must be gerbil-poo-flow"@)
    } else if m.rust_type@ != GERBIL_POO_LOOP_PROGRAM_COMPILER_SCHEMA_ID@ {
        Some(
            "loop policy projection module rust type "@ + m.rust_type@ + " does not match "@
                + GERBIL_POO_LOOP_PROGRAM_COMPILER_SCHEMA_ID@,
        )
    } else if m.profile_id@ != m.compiler_receipt.profile_id@ {
        Some(
            "loop policy projection module profile "@ + m.profile_id@
                + " does not match compiler receipt profile "@ + m.compiler_receipt.profile_id@,
        )
    } else if m.poo_flow_module@.len() == 0 || m.poo_flow_capability_lanes@.len() == 0 {
        Some("loop policy projection module must carry a POO Flow module lane"@)
    } else if has_blank_tag(m.vertical_capability_tags@) {
        Some("loop policy projection module vertical capability tags must be non-empty"@)
    } else if vertical_descriptor_error(m) is Some {
        vertical_descriptor_error(m)
    } else {
        compiler_schema_error(m.compiler_receipt, versions)
    }
}

/// Whether two octet strings are equal.
pub fn same_octets(a: &Vec<u8>, b: &Vec<u8>) -> (same: bool)
    ensures
        same == (a@ == b@),
{
    if a.len() != b.len() {
        return false;
    }
    let mut i: usize = 0;
    while i < a.len()
        invariant
            i <= a.len(),
            a.len() == b.len(),
            forall|j: int| 0 <= j < i ==> a@[j] == b@[j],
        decreases a.len() - i,
    {
        if a[i] != b[i] {
            return false;
        }
        i += 1;
    }
    assert(a@ =~= b@);
    true
}

/// A projection error with the given message.
fn projection_error(message: String) -> (error: GerbilSchemeTypeDecodeError)
    ensures
        error == (GerbilSchemeTypeDecodeError::RustProjection { message }),
{
    GerbilSchemeTypeDecodeError::RustProjection { message }
}

/// `"{prefix}{a}{middle}{b}"` with two decimal numbers.
fn numbers_message(prefix: &str, a: u64, middle: &str, b: u64) -> (message: String)
    ensures
        message@ == prefix@ + decimal_text(a as nat) + middle@ + decimal_text(b as nat),
{
    let mut message = prefix.to_owned();
    let a_text = u64_to_text(a);
    message.append(a_text.as_str());
    message.append(middle);
    let b_text = u64_to_text(b);
    message.append(b_text.as_str());
    message
}

impl GerbilPooLoopProgramCompilerReceipt {
    /// Returns whether the receipt kind matches the current Rust projection.
    pub fn has_current_schema(&self) -> (current: bool)
        ensures
            current == (self.kind@ == GERBIL_POO_LOOP_PROGRAM_COMPILER_SCHEMA_ID@),
    {
        text_eq(self.kind.as_str(), GERBIL_POO_LOOP_PROGRAM_COMPILER_SCHEMA_ID)
    }

    /// Checks the kind, the protocol schema versions, that the loop program
    /// carries the resolved pack's epoch and digest, and that neither is
    /// empty; the error is the first failed check.
    pub fn ensure_current_schema(&self, versions: GerbilPolicyProtocolVersions) -> (result: Result<
        (),
        GerbilSchemeTypeDecodeError,
    >)
        ensures
            match result {
                Ok(()) => compiler_schema_error(*self, versions) is None,
                Err(e) => e is RustProjection && compiler_schema_error(*self, versions) == Some(
                    e->RustProjection_message@,
                ),
            },
    {
        let pack = &self.resolved_policy_pack;
        let program = &self.loop_program;
        if !self.has_current_schema() {
            let mut message = "POO loop-program compiler kind ".to_owned();
            message.append(self.kind.as_str());
            message.append(" does not match ");
            message.append(GERBIL_POO_LOOP_PROGRAM_COMPILER_SCHEMA_ID);
            return Err(projection_error(message));
        }
        if pack.schema_version != versions.resolved_loop_policy_pack {
            return Err(
                projection_error(
                    numbers_message(
                        "POO compiler resolved policy pack schema version ",
                        pack.schema_version as u64,
                        " does not match ",
                        versions.resolved_loop_policy_pack as u64,
                    ),
                ),
            );
        }
        if program.schema_version != versions.loop_program {
            return Err(
                projection_error(
                    numbers_message(
                        "POO compiler loop program schema version ",
                        program.schema_version as u64,
                        " does not match ",
                        versions.loop_program as u64,
                    ),
                ),
            );
        }
        if program.policy_epoch != pack.policy_epoch {
            return Err(
                projection_error(
                    numbers_message(
                        "POO compiler loop program epoch ",
                        program.policy_epoch,
                        " does not match resolved policy pack epoch ",
                        pack.policy_epoch,
                    ),
                ),
            );
        }
        if !same_octets(&program.policy_digest, &pack.policy_digest) {
            return Err(
                projection_error(
                    "POO compiler loop program policy digest does not match resolved policy pack digest".to_owned(),
                ),
            );
        }
        if program.mechanism_policy_count == 0 {
            return Err(
                projection_error(
                    "POO compiler loop program must carry at least one mechanism policy".to_owned(),
                ),
            );
        }
        if program.transition_count == 0 {
            return Err(
                projection_error(
                    "POO compiler loop program must carry at least one transition".to_owned(),
                ),
            );
        }
        if pack.hot_graph_node_count == 0 {
            return Err(
                projection_error(
                    "POO compiler resolved policy pack must carry hot graph nodes".to_owned(),
                ),
            );
        }
        if pack.provenance_count == 0 {
            return Err(
                projection_error(
                    "POO compiler resolved policy pack must carry policy provenance".to_owned(),
                ),
            );
        }
        if pack.linearization_count == 0 {
            return Err(
                projection_error(
                    "POO compiler resolved policy pack must carry POO linearization".to_owned(),
                ),
            );
        }
        if pack.forced_slot_count == 0 {
            return Err(
                projection_error(
                    "POO compiler resolved policy pack must carry forced slots".to_owned(),
                ),
            );
        }
        if pack.merge_receipt_count == 0 {
            return Err(
                projection_error(
                    "POO compiler resolved policy pack must carry merge receipts".to_owned(),
                ),
            );
        }
        Ok(())
    }
}

/// Whether some tag is blank.
fn any_blank_tag(tags: &Vec<String>) -> (found: bool)
    ensures
        found == has_blank_tag(tags@),
{
    let mut i: usize = 0;
    while i < tags.len()
        invariant
            i <= tags.len(),
            forall|j: int| 0 <= j < i ==> !is_blank(#[trigger] tags@[j]@),
        decreases tags.len() - i,
    {
        if text_is_blank(tags[i].as_str()) {
            return true;
        }
        i += 1;
    }
    false
}

impl GerbilLoopPolicyProjectionModule {
    /// Returns whether the module kind matches the current Rust projection.
    pub fn has_current_schema(&self) -> (current: bool)
        ensures
            current == (self.kind@ == GERBIL_LOOP_POLICY_PROJECTION_MODULE_SCHEMA_ID@),
    {
        text_eq(self.kind.as_str(), GERBIL_LOOP_POLICY_PROJECTION_MODULE_SCHEMA_ID)
    }

    /// Checks the kind, owner and Rust type, that the module's profile is its
    /// compiler receipt's, the POO Flow lane and the vertical descriptor, then
    /// the compiler receipt; the error is the first failed check.
    pub fn ensure_current_schema(&self, versions: GerbilPolicyProtocolVersions) -> (result: Result<
        (),
        GerbilSchemeTypeDecodeError,
    >)
        ensures
            match result {
                Ok(()) => module_schema_error(*self, versions) is None,
                Err(e) => e is RustProjection && module_schema_error(*self, versions) == Some(
                    e->RustProjection_message@,
                ),
            },
    {
        if !self.has_current_schema() {
            let mut message = "loop policy projection module kind ".to_owned();
            message.append(self.kind.as_str());
            message.append(" does not match ");
            message.append(GERBIL_LOOP_POLICY_PROJECTION_MODULE_SCHEMA_ID);
            return Err(projection_error(message));
        }
        if self.owner != GerbilPooLoopProgramCompilerOwner::GerbilPooFlow {
            return Err(
                projection_error(
                    "loop policy projection module owner must be gerbil-poo-flow".to_owned(),
                ),
            );
        }
        if !text_eq(self.rust_type.as_str(), GERBIL_POO_LOOP_PROGRAM_COMPILER_SCHEMA_ID) {
            let mut message = "loop policy projection module rust type ".to_owned();
            message.append(self.rust_type.as_str());
            message.append(" does not match ");
            message.append(GERBIL_POO_LOOP_PROGRAM_COMPILER_SCHEMA_ID);
            return Err(projection_error(message));
        }
        if !text_eq(self.profile_id.as_str(), self.compiler_receipt.profile_id.as_str()) {
            let mut message = "loop policy projection module profile ".to_owned();
            message.append(self.profile_id.as_str());
            message.append(" does not match compiler receipt profile ");
            message.append(self.compiler_receipt.profile_id.as_str());
            return Err(projection_error(message));
        }
        if self.poo_flow_module.as_str().is_empty() || self.poo_flow_capability_lanes.len() == 0 {
            return Err(
                projection_error(
                    "loop policy projection module must carry a POO Flow module lane".to_owned(),
                ),
            );
        }
        if any_blank_tag(&self.vertical_capability_tags) {
            return Err(
                projection_error(
                    "loop policy projection module vertical capability tags must be non-empty".to_owned(),
                ),
            );
        }
        if self.vertical_mainline {
            match &self.vertical_case_id {
                None => {
                    return Err(
                        projection_error(
                            "loop policy projection module mainline requires vertical case id".to_owned(),
                        ),
                    );
                },
                Some(case_id) => {
                    if text_is_blank(case_id.as_str()) {
                        return Err(
                            projection_error(
                                "loop policy projection module vertical case id must be non-empty".to_owned(),
                            ),
                        );
                    }
                    if self.vertical_capability_tags.len() == 0 {
                        return Err(
                            projection_error(
                                "loop policy projection module mainline requires vertical capability tags".to_owned(),
                            ),
                        );
                    }
                },
            }
        } else if self.vertical_case_id.is_some() || self.vertical_capability_tags.len() > 0 {
            return Err(
                projection_error(
                    "loop policy projection module non-mainline cannot carry vertical descriptor".to_owned(),
                ),
            );
        }
        self.compiler_receipt.ensure_current_schema(versions)
    }
}

impl GerbilSchemeTypedProjection for GerbilPooLoopProgramCompilerReceipt {
    fn scheme_projection_contract() -> (contract: GerbilSchemeProjectionContract)
        ensures
            is_contract_for(contract, GERBIL_POO_LOOP_PROGRAM_COMPILER_TYPE_ID@, GERBIL_POO_LOOP_PROGRAM_COMPILER_SCHEMA_ID@),
    {
        gerbil_poo_loop_program_compiler_contract()
    }
}

impl GerbilSchemeTypedProjection for GerbilLoopPolicyProjectionModule {
    fn scheme_projection_contract() -> (contract: GerbilSchemeProjectionContract)
        ensures
            is_contract_for(contract, GERBIL_LOOP_POLICY_PROJECTION_MODULE_TYPE_ID@, GERBIL_LOOP_POLICY_PROJECTION_MODULE_SCHEMA_ID@),
    {
        gerbil_loop_policy_projection_module_contract()
    }
}

} // verus!
