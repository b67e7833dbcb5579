//! Decodes one vertical-trace row into typed receipt data.

use vstd::prelude::*;

use super::fields::{
    TraceEntry, bool_field, capability_list_field, decode_bool, decode_capabilities, decode_list,
    decode_octets, decode_optional_bool, decode_optional_list, decode_optional_text,
    decode_optional_usize, decode_scheme_boundary, decode_serialization_boundary, decode_text,
    decode_u64, decode_usize, list_field, octet_list_field, optional_bool_field,
    optional_list_field, optional_text_field, optional_usize_field, scheme_boundary_field,
    serialization_boundary_field, text_field, u64_field, usize_field,
};
use super::types::GerbilLoopCaseDriverVerticalTraceReceipt;
use crate::loop_case_driver::ids::{
    GerbilLoopCaseDriverCapability, GerbilLoopCaseDriverCaseId, GerbilLoopCaseDriverLoopProgramId,
    GerbilLoopCaseDriverProfileRef,
};
use crate::loop_case_driver::receipt::{
    GerbilLoopCaseSchemeBoundary, GerbilLoopCaseSerializationBoundary,
};
use crate::text::seq_views;

verus! {

/// The error of a decoded field, if it has one.
pub open spec fn error_of<T>(result: Result<T, Seq<char>>) -> Option<Seq<char>> {
    match result {
        Ok(_) => None,
        Err(e) => Some(e),
    }
}

/// Decoded mixin-stack presence and slot-merge laws of a row.
pub struct RowPrelude {
    pub policy_mixin_stack_present: bool,
    pub policy_mixin_stack_slot_merge_laws: Vec<String>,
}

/// `part` holds the decoded mixin-stack presence and slot-merge laws of `row`.
pub open spec fn prelude_decodes(part: RowPrelude, index: nat, row: Seq<(nat, Seq<char>, Seq<char>)>) -> bool {
    &&& optional_bool_field(row, "policy-mixin-stack-present?"@, false) == Ok::<bool, Seq<char>>(part.policy_mixin_stack_present)
    &&& optional_list_field(index, row, "policy-mixin-stack-slot-merge-laws"@, '|', part.policy_mixin_stack_present) == Ok::<Seq<Seq<char>>, Seq<char>>(seq_views(part.policy_mixin_stack_slot_merge_laws@))
}

/// First error among the mixin-stack presence and slot-merge laws fields of `row`, in decoding order.
pub open spec fn prelude_error(index: nat, row: Seq<(nat, Seq<char>, Seq<char>)>) -> Option<Seq<char>> {
    if optional_bool_field(row, "policy-mixin-stack-present?"@, false) is Err {
        error_of(optional_bool_field(row, "policy-mixin-stack-present?"@, false))
    }
    else if optional_list_field(index, row, "policy-mixin-stack-slot-merge-laws"@, '|', optional_bool_field(row, "policy-mixin-stack-present?"@, false)->Ok_0) is Err {
        error_of(optional_list_field(index, row, "policy-mixin-stack-slot-merge-laws"@, '|', optional_bool_field(row, "policy-mixin-stack-present?"@, false)->Ok_0))
    }
    else {
        None
    }
}

/// Decodes the mixin-stack presence and slot-merge laws of a row.
fn decode_prelude(index: usize, row: &Vec<TraceEntry>) -> (part: Result<RowPrelude, String>)
    ensures
        match part {
            Ok(p) => prelude_decodes(p, index as nat, seq_views(row@)),
            Err(e) => prelude_error(index as nat, seq_views(row@)) == Some(e@),
        },
{
    let ghost row_view = seq_views(row@);
    let policy_mixin_stack_present = match decode_optional_bool(row, "policy-mixin-stack-present?", false) {
        Ok(v) => v,
        Err(e) => return Err(e),
    };
    let policy_mixin_stack_slot_merge_laws = match decode_optional_list(index, row, "policy-mixin-stack-slot-merge-laws", '|', policy_mixin_stack_present) {
        Ok(v) => v,
        Err(e) => return Err(e),
    };
    Ok(RowPrelude {
        policy_mixin_stack_present,
        policy_mixin_stack_slot_merge_laws,
    })
}

/// Decoded case identity, compiler and live-LLM lane of a row.
pub struct RowIdentity {
    pub case_id: GerbilLoopCaseDriverCaseId,
    pub profile_ref: GerbilLoopCaseDriverProfileRef,
    pub compiler_owner: String,
    pub compiler_profile_id: String,
    pub loop_program_id: GerbilLoopCaseDriverLoopProgramId,
    pub capability_tags: Vec<GerbilLoopCaseDriverCapability>,
    pub live_gate_env: String,
    pub live_llm_required: bool,
    pub live_llm_allowed: bool,
    pub live_llm_denial_receipt: String,
    pub llm_repair_intent: String,
    pub session_transform: String,
}

/// `part` holds the decoded case identity, compiler and live-LLM lane of `row`.
pub open spec fn identity_decodes(part: RowIdentity, index: nat, row: Seq<(nat, Seq<char>, Seq<char>)>) -> bool {
    &&& text_field(index, row, "case-id"@) == Ok::<Seq<char>, Seq<char>>(part.case_id@)
    &&& text_field(index, row, "profile-ref"@) == Ok::<Seq<char>, Seq<char>>(part.profile_ref@)
    &&& text_field(index, row, "compiler-owner"@) == Ok::<Seq<char>, Seq<char>>(part.compiler_owner@)
    &&& text_field(index, row, "compiler-profile-id"@) == Ok::<Seq<char>, Seq<char>>(part.compiler_profile_id@)
    &&& text_field(index, row, "loop-program-id"@) == Ok::<Seq<char>, Seq<char>>(part.loop_program_id@)
    &&& capability_list_field(index, row, "capability-tags"@) == Ok::<Seq<Seq<char>>, Seq<char>>(seq_views(part.capability_tags@))
    &&& text_field(index, row, "live-gate-env"@) == Ok::<Seq<char>, Seq<char>>(part.live_gate_env@)
    &&& bool_field(index, row, "live-llm-required?"@) == Ok::<bool, Seq<char>>(part.live_llm_required)
    &&& bool_field(index, row, "live-llm-allowed?"@) == Ok::<bool, Seq<char>>(part.live_llm_allowed)
    &&& text_field(index, row, "live-llm-denial-receipt"@) == Ok::<Seq<char>, Seq<char>>(part.live_llm_denial_receipt@)
    &&& text_field(index, row, "llm-repair-intent"@) == Ok::<Seq<char>, Seq<char>>(part.llm_repair_intent@)
    &&& text_field(index, row, "session-transform"@) == Ok::<Seq<char>, Seq<char>>(part.session_transform@)
}

/// First error among the case identity, compiler and live-LLM lane fields of `row`, in decoding order.
pub open spec fn identity_error(index: nat, row: Seq<(nat, Seq<char>, Seq<char>)>) -> Option<Seq<char>> {
    if text_field(index, row, "case-id"@) is Err {
        error_of(text_field(index, row, "case-id"@))
    }
    else if text_field(index, row, "profile-ref"@) is Err {
        error_of(text_field(index, row, "profile-ref"@))
    }
    else if text_field(index, row, "compiler-owner"@) is Err {
        error_of(text_field(index, row, "compiler-owner"@))
    }
    else if text_field(index, row, "compiler-profile-id"@) is Err {
        error_of(text_field(index, row, "compiler-profile-id"@))
    }
    else if text_field(index, row, "loop-program-id"@) is Err {
        error_of(text_field(index, row, "loop-program-id"@))
    }
    else if capability_list_field(index, row, "capability-tags"@) is Err {
        error_of(capability_list_field(index, row, "capability-tags"@))
    }
    else if text_field(index, row, "live-gate-env"@) is Err {
        error_of(text_field(index, row, "live-gate-env"@))
    }
    else if bool_field(index, row, "live-llm-required?"@) is Err {
        error_of(bool_field(index, row, "live-llm-required?"@))
    }
    else if bool_field(index, row, "live-llm-allowed?"@) is Err {
        error_of(bool_field(index, row, "live-llm-allowed?"@))
    }
    else if text_field(index, row, "live-llm-denial-receipt"@) is Err {
        error_of(text_field(index, row, "live-llm-denial-receipt"@))
    }
    else if text_field(index, row, "llm-repair-intent"@) is Err {
        error_of(text_field(index, row, "llm-repair-intent"@))
    }
    else if text_field(index, row, "session-transform"@) is Err {
        error_of(text_field(index, row, "session-transform"@))
    }
    else {
        None
    }
}

/// Decodes the case identity, compiler and live-LLM lane of a row.
fn decode_identity(index: usize, row: &Vec<TraceEntry>) -> (part: Result<RowIdentity, String>)
    ensures
        match part {
            Ok(p) => identity_decodes(p, index as nat, seq_views(row@)),
            Err(e) => identity_error(index as nat, seq_views(row@)) == Some(e@),
        },
{
    let ghost row_view = seq_views(row@);
    let case_id = match decode_text(index, row, "case-id") {
        Ok(v) => GerbilLoopCaseDriverCaseId::new(v.as_str()),
        Err(e) => return Err(e),
    };
    let profile_ref = match decode_text(index, row, "profile-ref") {
        Ok(v) => GerbilLoopCaseDriverProfileRef::new(v.as_str()),
        Err(e) => return Err(e),
    };
    let compiler_owner = match decode_text(index, row, "compiler-owner") {
        Ok(v) => v,
        Err(e) => return Err(e),
    };
    let compiler_profile_id = match decode_text(index, row, "compiler-profile-id") {
        Ok(v) => v,
        Err(e) => return Err(e),
    };
    let loop_program_id = match decode_text(index, row, "loop-program-id") {
        Ok(v) => GerbilLoopCaseDriverLoopProgramId::new(v.as_str()),
        Err(e) => return Err(e),
    };
    let capability_tags = match decode_capabilities(index, row, "capability-tags") {
        Ok(v) => v,
        Err(e) => return Err(e),
    };
    let live_gate_env = match decode_text(index, row, "live-gate-env") {
        Ok(v) => v,
        Err(e) => return Err(e),
    };
    let live_llm_required = match decode_bool(index, row, "live-llm-required?") {
        Ok(v) => v,
        Err(e) => return Err(e),
    };
    let live_llm_allowed = match decode_bool(index, row, "live-llm-allowed?") {
        Ok(v) => v,
        Err(e) => return Err(e),
    };
    let live_llm_denial_receipt = match decode_text(index, row, "live-llm-denial-receipt") {
        Ok(v) => v,
        Err(e) => return Err(e),
    };
    let llm_repair_intent = match decode_text(index, row, "llm-repair-intent") {
        Ok(v) => v,
        Err(e) => return Err(e),
    };
    let session_transform = match decode_text(index, row, "session-transform") {
        Ok(v) => v,
        Err(e) => return Err(e),
    };
    Ok(RowIdentity {
        case_id,
        profile_ref,
        compiler_owner,
        compiler_profile_id,
        loop_program_id,
        capability_tags,
        live_gate_env,
        live_llm_required,
        live_llm_allowed,
        live_llm_denial_receipt,
        llm_repair_intent,
        session_transform,
    })
}

/// Decoded runtime intents and module projection of a row.
pub struct RowModule {
    pub tool_intent_count: usize,
    pub memory_intent_count: usize,
    pub placement_intent_count: usize,
    pub runtime_handoff_kind: String,
    pub runtime_receipt_kind: String,
    pub derived_session_kind: String,
    pub module_kind: String,
    pub module_user_module: String,
    pub module_selection_tags: Vec<GerbilLoopCaseDriverCapability>,
    pub module_source_ref: String,
    pub module_entrypoint: String,
    pub module_enabled: bool,
}

/// `part` holds the decoded runtime intents and module projection of `row`.
pub open spec fn module_decodes(part: RowModule, index: nat, row: Seq<(nat, Seq<char>, Seq<char>)>) -> bool {
    &&& usize_field(index, row, "tool-intent-count"@) == Ok::<usize, Seq<char>>(part.tool_intent_count)
    &&& usize_field(index, row, "memory-intent-count"@) == Ok::<usize, Seq<char>>(part.memory_intent_count)
    &&& usize_field(index, row, "placement-intent-count"@) == Ok::<usize, Seq<char>>(part.placement_intent_count)
    &&& text_field(index, row, "runtime-handoff-kind"@) == Ok::<Seq<char>, Seq<char>>(part.runtime_handoff_kind@)
    &&& text_field(index, row, "runtime-receipt-kind"@) == Ok::<Seq<char>, Seq<char>>(part.runtime_receipt_kind@)
    &&& text_field(index, row, "derived-session-kind"@) == Ok::<Seq<char>, Seq<char>>(part.derived_session_kind@)
    &&& text_field(index, row, "module-kind"@) == Ok::<Seq<char>, Seq<char>>(part.module_kind@)
    &&& text_field(index, row, "module-user-module"@) == Ok::<Seq<char>, Seq<char>>(part.module_user_module@)
    &&& capability_list_field(index, row, "module-selection-tags"@) == Ok::<Seq<Seq<char>>, Seq<char>>(seq_views(part.module_selection_tags@))
    &&& text_field(index, row, "module-source-ref"@) == Ok::<Seq<char>, Seq<char>>(part.module_source_ref@)
    &&& text_field(index, row, "module-entrypoint"@) == Ok::<Seq<char>, Seq<char>>(part.module_entrypoint@)
    &&& bool_field(index, row, "module-enabled?"@) == Ok::<bool, Seq<char>>(part.module_enabled)
}

/// First error among the runtime intents and module projection fields of `row`, in decoding order.
pub open spec fn module_error(index: nat, row: Seq<(nat, Seq<char>, Seq<char>)>) -> Option<Seq<char>> {
    if usize_field(index, row, "tool-intent-count"@) is Err {
        error_of(usize_field(index, row, "tool-intent-count"@))
    }
    else if usize_field(index, row, "memory-intent-count"@) is Err {
        error_of(usize_field(index, row, "memory-intent-count"@))
    }
    else if usize_field(index, row, "placement-intent-count"@) is Err {
        error_of(usize_field(index, row, "placement-intent-count"@))
    }
    else if text_field(index, row, "runtime-handoff-kind"@) is Err {
        error_of(text_field(index, row, "runtime-handoff-kind"@))
    }
    else if text_field(index, row, "runtime-receipt-kind"@) is Err {
        error_of(text_field(index, row, "runtime-receipt-kind"@))
    }
    else if text_field(index, row, "derived-session-kind"@) is Err {
        error_of(text_field(index, row, "derived-session-kind"@))
    }
    else if text_field(index, row, "module-kind"@) is Err {
        error_of(text_field(index, row, "module-kind"@))
    }
    else if text_field(index, row, "module-user-module"@) is Err {
        error_of(text_field(index, row, "module-user-module"@))
    }
    else if capability_list_field(index, row, "module-selection-tags"@) is Err {
        error_of(capability_list_field(index, row, "module-selection-tags"@))
    }
    else if text_field(index, row, "module-source-ref"@) is Err {
        error_of(text_field(index, row, "module-source-ref"@))
    }
    else if text_field(index, row, "module-entrypoint"@) is Err {
        error_of(text_field(index, row, "module-entrypoint"@))
    }
    else if bool_field(index, row, "module-enabled?"@) is Err {
        error_of(bool_field(index, row, "module-enabled?"@))
    }
    else {
        None
    }
}

/// Decodes the runtime intents and module projection of a row.
fn decode_module(index: usize, row: &Vec<TraceEntry>) -> (part: Result<RowModule, String>)
    ensures
        match part {
            Ok(p) => module_decodes(p, index as nat, seq_views(row@)),
            Err(e) => module_error(index as nat, seq_views(row@)) == Some(e@),
        },
{
    let ghost row_view = seq_views(row@);
    let tool_intent_count = match decode_usize(index, row, "tool-intent-count") {
        Ok(v) => v,
        Err(e) => return Err(e),
    };
    let memory_intent_count = match decode_usize(index, row, "memory-intent-count") {
        Ok(v) => v,
        Err(e) => return Err(e),
    };
    let placement_intent_count = match decode_usize(index, row, "placement-intent-count") {
        Ok(v) => v,
        Err(e) => return Err(e),
    };
    let runtime_handoff_kind = match decode_text(index, row, "runtime-handoff-kind") {
        Ok(v) => v,
        Err(e) => return Err(e),
    };
    let runtime_receipt_kind = match decode_text(index, row, "runtime-receipt-kind") {
        Ok(v) => v,
        Err(e) => return Err(e),
    };
    let derived_session_kind = match decode_text(index, row, "derived-session-kind") {
        Ok(v) => v,
        Err(e) => return Err(e),
    };
    let module_kind = match decode_text(index, row, "module-kind") {
        Ok(v) => v,
        Err(e) => return Err(e),
    };
    let module_user_module = match decode_text(index, row, "module-user-module") {
        Ok(v) => v,
        Err(e) => return Err(e),
    };
    let module_selection_tags = match decode_capabilities(index, row, "module-selection-tags") {
        Ok(v) => v,
        Err(e) => return Err(e),
    };
    let module_source_ref = match decode_text(index, row, "module-source-ref") {
        Ok(v) => v,
        Err(e) => return Err(e),
    };
    let module_entrypoint = match decode_text(index, row, "module-entrypoint") {
        Ok(v) => v,
        Err(e) => return Err(e),
    };
    let module_enabled = match decode_bool(index, row, "module-enabled?") {
        Ok(v) => v,
        Err(e) => return Err(e),
    };
    Ok(RowModule {
        tool_intent_count,
        memory_intent_count,
        placement_intent_count,
        runtime_handoff_kind,
        runtime_receipt_kind,
        derived_session_kind,
        module_kind,
        module_user_module,
        module_selection_tags,
        module_source_ref,
        module_entrypoint,
        module_enabled,
    })
}

/// Decoded loop program, digest and budget of a row.
pub struct RowProgram {
    pub resolved_policy_pack_policy_epoch: u64,
    pub loop_program_policy_epoch: u64,
    pub transition_count: usize,
    pub transition_actions: Vec<String>,
    pub transition_events: Vec<String>,
    pub mechanism_policy_count: usize,
    pub mechanism_policy_ids: Vec<String>,
    pub policy_digest_length: usize,
    pub policy_digest_octets: Vec<u8>,
    pub capability_mask: u64,
    pub budget_max_attempts: u64,
    pub budget_max_cost_units: u64,
    pub budget_max_wall_time_ms: u64,
}

/// `part` holds the decoded loop program, digest and budget of `row`.
pub open spec fn program_decodes(part: RowProgram, index: nat, row: Seq<(nat, Seq<char>, Seq<char>)>) -> bool {
    &&& u64_field(index, row, "resolved-policy-pack-policy-epoch"@) == Ok::<u64, Seq<char>>(part.resolved_policy_pack_policy_epoch)
    &&& u64_field(index, row, "loop-program-policy-epoch"@) == Ok::<u64, Seq<char>>(part.loop_program_policy_epoch)
    &&& usize_field(index, row, "transition-count"@) == Ok::<usize, Seq<char>>(part.transition_count)
    &&& list_field(index, row, "transition-actions"@, '|') == Ok::<Seq<Seq<char>>, Seq<char>>(seq_views(part.transition_actions@))
    &&& list_field(index, row, "transition-events"@, '|') == Ok::<Seq<Seq<char>>, Seq<char>>(seq_views(part.transition_events@))
    &&& usize_field(index, row, "mechanism-policy-count"@) == Ok::<usize, Seq<char>>(part.mechanism_policy_count)
    &&& list_field(index, row, "mechanism-policy-ids"@, '|') == Ok::<Seq<Seq<char>>, Seq<char>>(seq_views(part.mechanism_policy_ids@))
    &&& usize_field(index, row, "policy-digest-length"@) == Ok::<usize, Seq<char>>(part.policy_digest_length)
    &&& octet_list_field(index, row, "policy-digest-octets"@, ',') == Ok::<Seq<u8>, Seq<char>>(part.policy_digest_octets@)
    &&& u64_field(index, row, "capability-mask"@) == Ok::<u64, Seq<char>>(part.capability_mask)
    &&& u64_field(index, row, "budget-max-attempts"@) == Ok::<u64, Seq<char>>(part.budget_max_attempts)
    &&& u64_field(index, row, "budget-max-cost-units"@) == Ok::<u64, Seq<char>>(part.budget_max_cost_units)
    &&& u64_field(index, row, "budget-max-wall-time-ms"@) == Ok::<u64, Seq<char>>(part.budget_max_wall_time_ms)
}

/// First error among the loop program, digest and budget fields of `row`, in decoding order.
pub open spec fn program_error(index: nat, row: Seq<(nat, Seq<char>, Seq<char>)>) -> Option<Seq<char>> {
    if u64_field(index, row, "resolved-policy-pack-policy-epoch"@) is Err {
        error_of(u64_field(index, row, "resolved-policy-pack-policy-epoch"@))
    }
    else if u64_field(index, row, "loop-program-policy-epoch"@) is Err {
        error_of(u64_field(index, row, "loop-program-policy-epoch"@))
    }
    else if usize_field(index, row, "transition-count"@) is Err {
        error_of(usize_field(index, row, "transition-count"@))
    }
    else if list_field(index, row, "transition-actions"@, '|') is Err {
        error_of(list_field(index, row, "transition-actions"@, '|'))
    }
    else if list_field(index, row, "transition-events"@, '|') is Err {
        error_of(list_field(index, row, "transition-events"@, '|'))
    }
    else if usize_field(index, row, "mechanism-policy-count"@) is Err {
        error_of(usize_field(index, row, "mechanism-policy-count"@))
    }
    else if list_field(index, row, "mechanism-policy-ids"@, '|') is Err {
        error_of(list_field(index, row, "mechanism-policy-ids"@, '|'))
    }
    else if usize_field(index, row, "policy-digest-length"@) is Err {
        error_of(usize_field(index, row, "policy-digest-length"@))
    }
    else if octet_list_field(index, row, "policy-digest-octets"@, ',') is Err {
        error_of(octet_list_field(index, row, "policy-digest-octets"@, ','))
    }
    else if u64_field(index, row, "capability-mask"@) is Err {
        error_of(u64_field(index, row, "capability-mask"@))
    }
    else if u64_field(index, row, "budget-max-attempts"@) is Err {
        error_of(u64_field(index, row, "budget-max-attempts"@))
    }
    else if u64_field(index, row, "budget-max-cost-units"@) is Err {
        error_of(u64_field(index, row, "budget-max-cost-units"@))
    }
    else if u64_field(index, row, "budget-max-wall-time-ms"@) is Err {
        error_of(u64_field(index, row, "budget-max-wall-time-ms"@))
    }
    else {
        None
    }
}

/// Decodes the loop program, digest and budget of a row.
fn decode_program(index: usize, row: &Vec<TraceEntry>) -> (part: Result<RowProgram, String>)
    ensures
        match part {
            Ok(p) => program_decodes(p, index as nat, seq_views(row@)),
            Err(e) => program_error(index as nat, seq_views(row@)) == Some(e@),
        },
{
    let ghost row_view = seq_views(row@);
    let resolved_policy_pack_policy_epoch = match decode_u64(index, row, "resolved-policy-pack-policy-epoch") {
        Ok(v) => v,
        Err(e) => return Err(e),
    };
    let loop_program_policy_epoch = match decode_u64(index, row, "loop-program-policy-epoch") {
        Ok(v) => v,
        Err(e) => return Err(e),
    };
    let transition_count = match decode_usize(index, row, "transition-count") {
        Ok(v) => v,
        Err(e) => return Err(e),
    };
    let transition_actions = match decode_list(index, row, "transition-actions", '|') {
        Ok(v) => v,
        Err(e) => return Err(e),
    };
    let transition_events = match decode_list(index, row, "transition-events", '|') {
        Ok(v) => v,
        Err(e) => return Err(e),
    };
    let mechanism_policy_count = match decode_usize(index, row, "mechanism-policy-count") {
        Ok(v) => v,
        Err(e) => return Err(e),
    };
    let mechanism_policy_ids = match decode_list(index, row, "mechanism-policy-ids", '|') {
        Ok(v) => v,
        Err(e) => return Err(e),
    };
    let policy_digest_length = match decode_usize(index, row, "policy-digest-length") {
        Ok(v) => v,
        Err(e) => return Err(e),
    };
    let policy_digest_octets = match decode_octets(index, row, "policy-digest-octets", ',') {
        Ok(v) => v,
        Err(e) => return Err(e),
    };
    let capability_mask = match decode_u64(index, row, "capability-mask") {
        Ok(v) => v,
        Err(e) => return Err(e),
    };
    let budget_max_attempts = match decode_u64(index, row, "budget-max-attempts") {
        Ok(v) => v,
        Err(e) => return Err(e),
    };
    let budget_max_cost_units = match decode_u64(index, row, "budget-max-cost-units") {
        Ok(v) => v,
        Err(e) => return Err(e),
    };
    let budget_max_wall_time_ms = match decode_u64(index, row, "budget-max-wall-time-ms") {
        Ok(v) => v,
        Err(e) => return Err(e),
    };
    Ok(RowProgram {
        resolved_policy_pack_policy_epoch,
        loop_program_policy_epoch,
        transition_count,
        transition_actions,
        transition_events,
        mechanism_policy_count,
        mechanism_policy_ids,
        policy_digest_length,
        policy_digest_octets,
        capability_mask,
        budget_max_attempts,
        budget_max_cost_units,
        budget_max_wall_time_ms,
    })
}

/// Decoded policy merge, mixin stack and boundaries of a row.
pub struct RowPolicy {
    pub policy_forced_slot_count: usize,
    pub policy_merge_receipt_count: usize,
    pub policy_conflict_merge_receipt_count: usize,
    pub policy_merge_kinds: Vec<String>,
    pub policy_merge_statuses: Vec<String>,
    pub policy_mixin_stack_receipt_kind: String,
    pub policy_mixin_stack_profile_id: String,
    pub policy_mixin_stack_mixin_count: usize,
    pub policy_mixin_stack_slot_merge_law_count: usize,
    pub policy_mixin_stack_linearization_owner: String,
    pub policy_mixin_stack_slot_merge_owner: String,
    pub scheme_boundary: GerbilLoopCaseSchemeBoundary,
    pub serialization_boundary: GerbilLoopCaseSerializationBoundary,
}

/// `part` holds the decoded policy merge, mixin stack and boundaries of `row`.
pub open spec fn policy_decodes(part: RowPolicy, index: nat, row: Seq<(nat, Seq<char>, Seq<char>)>) -> bool {
    &&& usize_field(index, row, "policy-forced-slot-count"@) == Ok::<usize, Seq<char>>(part.policy_forced_slot_count)
    &&& usize_field(index, row, "policy-merge-receipt-count"@) == Ok::<usize, Seq<char>>(part.policy_merge_receipt_count)
    &&& usize_field(index, row, "policy-conflict-merge-receipt-count"@) == Ok::<usize, Seq<char>>(part.policy_conflict_merge_receipt_count)
    &&& list_field(index, row, "policy-merge-kinds"@, '|') == Ok::<Seq<Seq<char>>, Seq<char>>(seq_views(part.policy_merge_kinds@))
    &&& list_field(index, row, "policy-merge-statuses"@, '|') == Ok::<Seq<Seq<char>>, Seq<char>>(seq_views(part.policy_merge_statuses@))
    &&& part.policy_mixin_stack_receipt_kind@ == optional_text_field(row, "policy-mixin-stack-receipt-kind"@, "none"@)
    &&& part.policy_mixin_stack_profile_id@ == optional_text_field(row, "policy-mixin-stack-profile-id"@, "none"@)
    &&& optional_usize_field(index, row, "policy-mixin-stack-mixin-count"@, 0) == Ok::<usize, Seq<char>>(part.policy_mixin_stack_mixin_count)
    &&& optional_usize_field(index, row, "policy-mixin-stack-slot-merge-law-count"@, 0) == Ok::<usize, Seq<char>>(part.policy_mixin_stack_slot_merge_law_count)
    &&& part.policy_mixin_stack_linearization_owner@ == optional_text_field(row, "policy-mixin-stack-linearization-owner"@, "none"@)
    &&& part.policy_mixin_stack_slot_merge_owner@ == optional_text_field(row, "policy-mixin-stack-slot-merge-owner"@, "none"@)
    &&& scheme_boundary_field(index, row, "scheme-boundary"@) == Ok::<GerbilLoopCaseSchemeBoundary, Seq<char>>(part.scheme_boundary)
    &&& serialization_boundary_field(index, row, "serialization-boundary"@) == Ok::<GerbilLoopCaseSerializationBoundary, Seq<char>>(part.serialization_boundary)
}

/// First error among the policy merge, mixin stack and boundaries fields of `row`, in decoding order.
pub open spec fn policy_error(index: nat, row: Seq<(nat, Seq<char>, Seq<char>)>) -> Option<Seq<char>> {
    if usize_field(index, row, "policy-forced-slot-count"@) is Err {
        error_of(usize_field(index, row, "policy-forced-slot-count"@))
    }
    else if usize_field(index, row, "policy-merge-receipt-count"@) is Err {
        error_of(usize_field(index, row, "policy-merge-receipt-count"@))
    }
    else if usize_field(index, row, "policy-conflict-merge-receipt-count"@) is Err {
        error_of(usize_field(index, row, "policy-conflict-merge-receipt-count"@))
    }
    else if list_field(index, row, "policy-merge-kinds"@, '|') is Err {
        error_of(list_field(index, row, "policy-merge-kinds"@, '|'))
    }
    else if list_field(index, row, "policy-merge-statuses"@, '|') is Err {
        error_of(list_field(index, row, "policy-merge-statuses"@, '|'))
    }
    else if optional_usize_field(index, row, "policy-mixin-stack-mixin-count"@, 0) is Err {
        error_of(optional_usize_field(index, row, "policy-mixin-stack-mixin-count"@, 0))
    }
    else if optional_usize_field(index, row, "policy-mixin-stack-slot-merge-law-count"@, 0) is Err {
        error_of(optional_usize_field(index, row, "policy-mixin-stack-slot-merge-law-count"@, 0))
    }
    else if scheme_boundary_field(index, row, "scheme-boundary"@) is Err {
        error_of(scheme_boundary_field(index, row, "scheme-boundary"@))
    }
    else if serialization_boundary_field(index, row, "serialization-boundary"@) is Err {
        error_of(serialization_boundary_field(index, row, "serialization-boundary"@))
    }
    else {
        None
    }
}

/// Decodes the policy merge, mixin stack and boundaries of a row.
fn decode_policy(index: usize, row: &Vec<TraceEntry>) -> (part: Result<RowPolicy, String>)
    ensures
        match part {
            Ok(p) => policy_decodes(p, index as nat, seq_views(row@)),
            Err(e) => policy_error(index as nat, seq_views(row@)) == Some(e@),
        },
{
    let ghost row_view = seq_views(row@);
    let policy_forced_slot_count = match decode_usize(index, row, "policy-forced-slot-count") {
        Ok(v) => v,
        Err(e) => return Err(e),
    };
    let policy_merge_receipt_count = match decode_usize(index, row, "policy-merge-receipt-count") {
        Ok(v) => v,
        Err(e) => return Err(e),
    };
    let policy_conflict_merge_receipt_count = match decode_usize(index, row, "policy-conflict-merge-receipt-count") {
        Ok(v) => v,
        Err(e) => return Err(e),
    };
    let policy_merge_kinds = match decode_list(index, row, "policy-merge-kinds", '|') {
        Ok(v) => v,
        Err(e) => return Err(e),
    };
    let policy_merge_statuses = match decode_list(index, row, "policy-merge-statuses", '|') {
        Ok(v) => v,
        Err(e) => return Err(e),
    };
    let policy_mixin_stack_receipt_kind = decode_optional_text(row, "policy-mixin-stack-receipt-kind", "none");
    let policy_mixin_stack_profile_id = decode_optional_text(row, "policy-mixin-stack-profile-id", "none");
    let policy_mixin_stack_mixin_count = match decode_optional_usize(index, row, "policy-mixin-stack-mixin-count", 0) {
        Ok(v) => v,
        Err(e) => return Err(e),
    };
    let policy_mixin_stack_slot_merge_law_count = match decode_optional_usize(index, row, "policy-mixin-stack-slot-merge-law-count", 0) {
        Ok(v) => v,
        Err(e) => return Err(e),
    };
    let policy_mixin_stack_linearization_owner = decode_optional_text(row, "policy-mixin-stack-linearization-owner", "none");
    let policy_mixin_stack_slot_merge_owner = decode_optional_text(row, "policy-mixin-stack-slot-merge-owner", "none");
    let scheme_boundary = match decode_scheme_boundary(index, row, "scheme-boundary") {
        Ok(v) => v,
        Err(e) => return Err(e),
    };
    let serialization_boundary = match decode_serialization_boundary(index, row, "serialization-boundary") {
        Ok(v) => v,
        Err(e) => return Err(e),
    };
    Ok(RowPolicy {
        policy_forced_slot_count,
        policy_merge_receipt_count,
        policy_conflict_merge_receipt_count,
        policy_merge_kinds,
        policy_merge_statuses,
        policy_mixin_stack_receipt_kind,
        policy_mixin_stack_profile_id,
        policy_mixin_stack_mixin_count,
        policy_mixin_stack_slot_merge_law_count,
        policy_mixin_stack_linearization_owner,
        policy_mixin_stack_slot_merge_owner,
        scheme_boundary,
        serialization_boundary,
    })
}

/// `receipt` holds the decoded fields of `row`, the row of trace index `index`.
#[verifier::opaque]
pub open spec fn receipt_decodes_row(receipt: GerbilLoopCaseDriverVerticalTraceReceipt, index: nat, row: Seq<(nat, Seq<char>, Seq<char>)>) -> bool {
    &&& optional_bool_field(row, "policy-mixin-stack-present?"@, false) == Ok::<bool, Seq<char>>(receipt.policy_mixin_stack_present)
    &&& optional_list_field(index, row, "policy-mixin-stack-slot-merge-laws"@, '|', receipt.policy_mixin_stack_present) == Ok::<Seq<Seq<char>>, Seq<char>>(seq_views(receipt.policy_mixin_stack_slot_merge_laws@))
    &&& text_field(index, row, "case-id"@) == Ok::<Seq<char>, Seq<char>>(receipt.case_id@)
    &&& text_field(index, row, "profile-ref"@) == Ok::<Seq<char>, Seq<char>>(receipt.profile_ref@)
    &&& text_field(index, row, "compiler-owner"@) == Ok::<Seq<char>, Seq<char>>(receipt.compiler_owner@)
    &&& text_field(index, row, "compiler-profile-id"@) == Ok::<Seq<char>, Seq<char>>(receipt.compiler_profile_id@)
    &&& text_field(index, row, "loop-program-id"@) == Ok::<Seq<char>, Seq<char>>(receipt.loop_program_id@)
    &&& capability_list_field(index, row, "capability-tags"@) == Ok::<Seq<Seq<char>>, Seq<char>>(seq_views(receipt.capability_tags@))
    &&& text_field(index, row, "live-gate-env"@) == Ok::<Seq<char>, Seq<char>>(receipt.live_gate_env@)
    &&& bool_field(index, row, "live-llm-required?"@) == Ok::<bool, Seq<char>>(receipt.live_llm_required)
    &&& bool_field(index, row, "live-llm-allowed?"@) == Ok::<bool, Seq<char>>(receipt.live_llm_allowed)
    &&& text_field(index, row, "live-llm-denial-receipt"@) == Ok::<Seq<char>, Seq<char>>(receipt.live_llm_denial_receipt@)
    &&& text_field(index, row, "llm-repair-intent"@) == Ok::<Seq<char>, Seq<char>>(receipt.llm_repair_intent@)
    &&& text_field(index, row, "session-transform"@) == Ok::<Seq<char>, Seq<char>>(receipt.session_transform@)
    &&& usize_field(index, row, "tool-intent-count"@) == Ok::<usize, Seq<char>>(receipt.tool_intent_count)
    &&& usize_field(index, row, "memory-intent-count"@) == Ok::<usize, Seq<char>>(receipt.memory_intent_count)
    &&& usize_field(index, row, "placement-intent-count"@) == Ok::<usize, Seq<char>>(receipt.placement_intent_count)
    &&& text_field(index, row, "runtime-handoff-kind"@) == Ok::<Seq<char>, Seq<char>>(receipt.runtime_handoff_kind@)
    &&& text_field(index, row, "runtime-receipt-kind"@) == Ok::<Seq<char>, Seq<char>>(receipt.runtime_receipt_kind@)
    &&& text_field(index, row, "derived-session-kind"@) == Ok::<Seq<char>, Seq<char>>(receipt.derived_session_kind@)
    &&& text_field(index, row, "module-kind"@) == Ok::<Seq<char>, Seq<char>>(receipt.module_kind@)
    &&& text_field(index, row, "module-user-module"@) == Ok::<Seq<char>, Seq<char>>(receipt.module_user_module@)
    &&& capability_list_field(index, row, "module-selection-tags"@) == Ok::<Seq<Seq<char>>, Seq<char>>(seq_views(receipt.module_selection_tags@))
    &&& text_field(index, row, "module-source-ref"@) == Ok::<Seq<char>, Seq<char>>(receipt.module_source_ref@)
    &&& text_field(index, row, "module-entrypoint"@) == Ok::<Seq<char>, Seq<char>>(receipt.module_entrypoint@)
    &&& bool_field(index, row, "module-enabled?"@) == Ok::<bool, Seq<char>>(receipt.module_enabled)
    &&& u64_field(index, row, "resolved-policy-pack-policy-epoch"@) == Ok::<u64, Seq<char>>(receipt.resolved_policy_pack_policy_epoch)
    &&& u64_field(index, row, "loop-program-policy-epoch"@) == Ok::<u64, Seq<char>>(receipt.loop_program_policy_epoch)
    &&& usize_field(index, row, "transition-count"@) == Ok::<usize, Seq<char>>(receipt.transition_count)
    &&& list_field(index, row, "transition-actions"@, '|') == Ok::<Seq<Seq<char>>, Seq<char>>(seq_views(receipt.transition_actions@))
    &&& list_field(index, row, "transition-events"@, '|') == Ok::<Seq<Seq<char>>, Seq<char>>(seq_views(receipt.transition_events@))
    &&& usize_field(index, row, "mechanism-policy-count"@) == Ok::<usize, Seq<char>>(receipt.mechanism_policy_count)
    &&& list_field(index, row, "mechanism-policy-ids"@, '|') == Ok::<Seq<Seq<char>>, Seq<char>>(seq_views(receipt.mechanism_policy_ids@))
    &&& usize_field(index, row, "policy-digest-length"@) == Ok::<usize, Seq<char>>(receipt.policy_digest_length)
    &&& octet_list_field(index, row, "policy-digest-octets"@, ',') == Ok::<Seq<u8>, Seq<char>>(receipt.policy_digest_octets@)
    &&& u64_field(index, row, "capability-mask"@) == Ok::<u64, Seq<char>>(receipt.capability_mask)
    &&& u64_field(index, row, "budget-max-attempts"@) == Ok::<u64, Seq<char>>(receipt.budget_max_attempts)
    &&& u64_field(index, row, "budget-max-cost-units"@) == Ok::<u64, Seq<char>>(receipt.budget_max_cost_units)
    &&& u64_field(index, row, "budget-max-wall-time-ms"@) == Ok::<u64, Seq<char>>(receipt.budget_max_wall_time_ms)
    &&& usize_field(index, row, "policy-forced-slot-count"@) == Ok::<usize, Seq<char>>(receipt.policy_forced_slot_count)
    &&& usize_field(index, row, "policy-merge-receipt-count"@) == Ok::<usize, Seq<char>>(receipt.policy_merge_receipt_count)
    &&& usize_field(index, row, "policy-conflict-merge-receipt-count"@) == Ok::<usize, Seq<char>>(receipt.policy_conflict_merge_receipt_count)
    &&& list_field(index, row, "policy-merge-kinds"@, '|') == Ok::<Seq<Seq<char>>, Seq<char>>(seq_views(receipt.policy_merge_kinds@))
    &&& list_field(index, row, "policy-merge-statuses"@, '|') == Ok::<Seq<Seq<char>>, Seq<char>>(seq_views(receipt.policy_merge_statuses@))
    &&& receipt.policy_mixin_stack_receipt_kind@ == optional_text_field(row, "policy-mixin-stack-receipt-kind"@, "none"@)
    &&& receipt.policy_mixin_stack_profile_id@ == optional_text_field(row, "policy-mixin-stack-profile-id"@, "none"@)
    &&& optional_usize_field(index, row, "policy-mixin-stack-mixin-count"@, 0) == Ok::<usize, Seq<char>>(receipt.policy_mixin_stack_mixin_count)
    &&& optional_usize_field(index, row, "policy-mixin-stack-slot-merge-law-count"@, 0) == Ok::<usize, Seq<char>>(receipt.policy_mixin_stack_slot_merge_law_count)
    &&& receipt.policy_mixin_stack_linearization_owner@ == optional_text_field(row, "policy-mixin-stack-linearization-owner"@, "none"@)
    &&& receipt.policy_mixin_stack_slot_merge_owner@ == optional_text_field(row, "policy-mixin-stack-slot-merge-owner"@, "none"@)
    &&& scheme_boundary_field(index, row, "scheme-boundary"@) == Ok::<GerbilLoopCaseSchemeBoundary, Seq<char>>(receipt.scheme_boundary)
    &&& serialization_boundary_field(index, row, "serialization-boundary"@) == Ok::<GerbilLoopCaseSerializationBoundary, Seq<char>>(receipt.serialization_boundary)
}

/// First error met while decoding `row`, in the order in which its fields are decoded.
#[verifier::opaque]
pub open spec fn row_error(index: nat, row: Seq<(nat, Seq<char>, Seq<char>)>) -> Option<Seq<char>> {
    if prelude_error(index, row) is Some {
        prelude_error(index, row)
    } else if identity_error(index, row) is Some {
        identity_error(index, row)
    } else if module_error(index, row) is Some {
        module_error(index, row)
    } else if program_error(index, row) is Some {
        program_error(index, row)
    } else {
        policy_error(index, row)
    }
}

/// Decodes the row of trace index `index` into a receipt.
pub fn vertical_trace_receipt_from_row(index: usize, row: &Vec<TraceEntry>) -> (receipt: Result<
    GerbilLoopCaseDriverVerticalTraceReceipt,
    String,
>)
    ensures
        match receipt {
            Ok(r) => receipt_decodes_row(r, index as nat, seq_views(row@)) && row_error(
                index as nat,
                seq_views(row@),
            ) is None,
            Err(e) => row_error(index as nat, seq_views(row@)) == Some(e@),
        },
{
    proof {
        reveal(row_error);
        reveal(receipt_decodes_row);
    }
    let prelude = match decode_prelude(index, row) {
        Ok(p) => p,
        Err(e) => return Err(e),
    };
    let identity = match decode_identity(index, row) {
        Ok(p) => p,
        Err(e) => return Err(e),
    };
    let module = match decode_module(index, row) {
        Ok(p) => p,
        Err(e) => return Err(e),
    };
    let program = match decode_program(index, row) {
        Ok(p) => p,
        Err(e) => return Err(e),
    };
    let policy = match decode_policy(index, row) {
        Ok(p) => p,
        Err(e) => return Err(e),
    };
    Ok(GerbilLoopCaseDriverVerticalTraceReceipt {
        policy_mixin_stack_present: prelude.policy_mixin_stack_present,
        policy_mixin_stack_slot_merge_laws: prelude.policy_mixin_stack_slot_merge_laws,
        case_id: identity.case_id,
        profile_ref: identity.profile_ref,
        compiler_owner: identity.compiler_owner,
        compiler_profile_id: identity.compiler_profile_id,
        loop_program_id: identity.loop_program_id,
        capability_tags: identity.capability_tags,
        live_gate_env: identity.live_gate_env,
        live_llm_required: identity.live_llm_required,
        live_llm_allowed: identity.live_llm_allowed,
        live_llm_denial_receipt: identity.live_llm_denial_receipt,
        llm_repair_intent: identity.llm_repair_intent,
        session_transform: identity.session_transform,
        tool_intent_count: module.tool_intent_count,
        memory_intent_count: module.memory_intent_count,
        placement_intent_count: module.placement_intent_count,
        runtime_handoff_kind: module.runtime_handoff_kind,
        runtime_receipt_kind: module.runtime_receipt_kind,
        derived_session_kind: module.derived_session_kind,
        module_kind: module.module_kind,
        module_user_module: module.module_user_module,
        module_selection_tags: module.module_selection_tags,
        module_source_ref: module.module_source_ref,
        module_entrypoint: module.module_entrypoint,
        module_enabled: module.module_enabled,
        resolved_policy_pack_policy_epoch: program.resolved_policy_pack_policy_epoch,
        loop_program_policy_epoch: program.loop_program_policy_epoch,
        transition_count: program.transition_count,
        transition_actions: program.transition_actions,
        transition_events: program.transition_events,
        mechanism_policy_count: program.mechanism_policy_count,
        mechanism_policy_ids: program.mechanism_policy_ids,
        policy_digest_length: program.policy_digest_length,
        policy_digest_octets: program.policy_digest_octets,
        capability_mask: program.capability_mask,
        budget_max_attempts: program.budget_max_attempts,
        budget_max_cost_units: program.budget_max_cost_units,
        budget_max_wall_time_ms: program.budget_max_wall_time_ms,
        policy_forced_slot_count: policy.policy_forced_slot_count,
        policy_merge_receipt_count: policy.policy_merge_receipt_count,
        policy_conflict_merge_receipt_count: policy.policy_conflict_merge_receipt_count,
        policy_merge_kinds: policy.policy_merge_kinds,
        policy_merge_statuses: policy.policy_merge_statuses,
        policy_mixin_stack_receipt_kind: policy.policy_mixin_stack_receipt_kind,
        policy_mixin_stack_profile_id: policy.policy_mixin_stack_profile_id,
        policy_mixin_stack_mixin_count: policy.policy_mixin_stack_mixin_count,
        policy_mixin_stack_slot_merge_law_count: policy.policy_mixin_stack_slot_merge_law_count,
        policy_mixin_stack_linearization_owner: policy.policy_mixin_stack_linearization_owner,
        policy_mixin_stack_slot_merge_owner: policy.policy_mixin_stack_slot_merge_owner,
        scheme_boundary: policy.scheme_boundary,
        serialization_boundary: policy.serialization_boundary,
    })
}

} // verus!
