//! Rust-owned view of a Scheme-emitted vertical mainline trace.

use vstd::prelude::*;

use crate::loop_case_driver::ids::{
    GerbilLoopCaseDriverCapability, GerbilLoopCaseDriverCaseId, GerbilLoopCaseDriverLoopProgramId,
    GerbilLoopCaseDriverProfileRef,
};
use crate::loop_case_driver::receipt::{
    GerbilLoopCaseSchemeBoundary, GerbilLoopCaseSerializationBoundary,
};
use crate::text::seq_views;

verus! {

/// Rust-owned view of a Scheme-emitted vertical mainline trace.
#[derive(Clone, Debug, PartialEq, Eq)]
pub struct GerbilLoopCaseDriverVerticalTraceReceipt {
    pub case_id: GerbilLoopCaseDriverCaseId,
    pub profile_ref: GerbilLoopCaseDriverProfileRef,
    pub compiler_owner: String,
    pub compiler_profile_id: String,
    pub loop_program_id: GerbilLoopCaseDriverLoopProgramId,
    pub capability_tags: Vec<GerbilLoopCaseDriverCapability>,
    pub live_gate_env: String,
    pub live_llm_required: bool,
    pub live_llm_allowed: bool,
    pub live_llm_denial_receipt: String,
    pub llm_repair_intent: String,
    pub session_transform: String,
    pub tool_intent_count: usize,
    pub memory_intent_count: usize,
    pub placement_intent_count: usize,
    pub runtime_handoff_kind: String,
    pub runtime_receipt_kind: String,
    pub derived_session_kind: String,
    pub module_kind: String,
    pub module_user_module: String,
    pub module_selection_tags: Vec<GerbilLoopCaseDriverCapability>,
    pub module_source_ref: String,
    pub module_entrypoint: String,
    pub module_enabled: bool,
    pub resolved_policy_pack_policy_epoch: u64,
    pub loop_program_policy_epoch: u64,
    pub transition_count: usize,
    pub transition_actions: Vec<String>,
    pub transition_events: Vec<String>,
    pub mechanism_policy_count: usize,
    pub mechanism_policy_ids: Vec<String>,
    pub policy_digest_length: usize,
    pub policy_digest_octets: Vec<u8>,
    pub capability_mask: u64,
    pub budget_max_attempts: u64,
    pub budget_max_cost_units: u64,
    pub budget_max_wall_time_ms: u64,
    pub policy_forced_slot_count: usize,
    pub policy_merge_receipt_count: usize,
    pub policy_conflict_merge_receipt_count: usize,
    pub policy_merge_kinds: Vec<String>,
    pub policy_merge_statuses: Vec<String>,
    pub policy_mixin_stack_present: bool,
    pub policy_mixin_stack_receipt_kind: String,
    pub policy_mixin_stack_profile_id: String,
    pub policy_mixin_stack_mixin_count: usize,
    pub policy_mixin_stack_slot_merge_law_count: usize,
    pub policy_mixin_stack_slot_merge_laws: Vec<String>,
    pub policy_mixin_stack_linearization_owner: String,
    pub policy_mixin_stack_slot_merge_owner: String,
    pub scheme_boundary: GerbilLoopCaseSchemeBoundary,
    pub serialization_boundary: GerbilLoopCaseSerializationBoundary,
}

/// Error returned when a Scheme vertical mainline trace cannot be trusted.
#[derive(Clone, Debug, PartialEq, Eq)]
pub struct GerbilLoopCaseDriverVerticalTraceError {
    message: String,
}

impl View for GerbilLoopCaseDriverVerticalTraceError {
    type V = Seq<char>;

    closed spec fn view(&self) -> Seq<char> {
        self.message@
    }
}

impl GerbilLoopCaseDriverVerticalTraceError {
    pub(crate) fn new(message: String) -> (error: Self)
        ensures
            error@ == message@,
    {
        GerbilLoopCaseDriverVerticalTraceError { message }
    }

    #[must_use]
    pub fn message(&self) -> (text: &str)
        ensures
            text@ == self@,
    {
        self.message.as_str()
    }
}

impl GerbilLoopCaseDriverVerticalTraceReceipt {
    #[must_use]
    pub fn case_id(&self) -> (value: &GerbilLoopCaseDriverCaseId)
        ensures
            *value == self.case_id,
    {
        &self.case_id
    }

    #[must_use]
    pub fn transition_count(&self) -> (value: usize)
        ensures
            value == self.transition_count,
    {
        self.transition_count
    }

    #[must_use]
    pub fn transition_actions(&self) -> (value: &Vec<String>)
        ensures
            value@ == self.transition_actions@,
    {
        &self.transition_actions
    }

    #[must_use]
    pub fn transition_events(&self) -> (value: &Vec<String>)
        ensures
            value@ == self.transition_events@,
    {
        &self.transition_events
    }

    #[must_use]
    pub fn mechanism_policy_count(&self) -> (value: usize)
        ensures
            value == self.mechanism_policy_count,
    {
        self.mechanism_policy_count
    }

    #[must_use]
    pub fn mechanism_policy_ids(&self) -> (value: &Vec<String>)
        ensures
            value@ == self.mechanism_policy_ids@,
    {
        &self.mechanism_policy_ids
    }

    #[must_use]
    pub fn compiler_owner(&self) -> (value: &str)
        ensures
            value@ == self.compiler_owner@,
    {
        self.compiler_owner.as_str()
    }

    #[must_use]
    pub fn profile_ref(&self) -> (value: &GerbilLoopCaseDriverProfileRef)
        ensures
            *value == self.profile_ref,
    {
        &self.profile_ref
    }

    #[must_use]
    pub fn capability_mask(&self) -> (value: u64)
        ensures
            value == self.capability_mask,
    {
        self.capability_mask
    }

    #[must_use]
    pub fn policy_epoch(&self) -> (value: u64)
        ensures
            value == self.loop_program_policy_epoch,
    {
        self.loop_program_policy_epoch
    }

    #[must_use]
    pub fn policy_digest_octets(&self) -> (value: &Vec<u8>)
        ensures
            value@ == self.policy_digest_octets@,
    {
        &self.policy_digest_octets
    }

    #[must_use]
    pub fn capability_tags(&self) -> (value: &Vec<GerbilLoopCaseDriverCapability>)
        ensures
            value@ == self.capability_tags@,
    {
        &self.capability_tags
    }

    #[must_use]
    pub fn live_gate_env(&self) -> (value: &str)
        ensures
            value@ == self.live_gate_env@,
    {
        self.live_gate_env.as_str()
    }

    #[must_use]
    pub fn live_llm_required(&self) -> (value: bool)
        ensures
            value == self.live_llm_required,
    {
        self.live_llm_required
    }

    #[must_use]
    pub fn live_llm_allowed(&self) -> (value: bool)
        ensures
            value == self.live_llm_allowed,
    {
        self.live_llm_allowed
    }

    #[must_use]
    pub fn live_llm_denial_receipt(&self) -> (value: &str)
        ensures
            value@ == self.live_llm_denial_receipt@,
    {
        self.live_llm_denial_receipt.as_str()
    }

    #[must_use]
    pub fn llm_repair_intent(&self) -> (value: &str)
        ensures
            value@ == self.llm_repair_intent@,
    {
        self.llm_repair_intent.as_str()
    }

    #[must_use]
    pub fn session_transform(&self) -> (value: &str)
        ensures
            value@ == self.session_transform@,
    {
        self.session_transform.as_str()
    }

    #[must_use]
    pub fn tool_intent_count(&self) -> (value: usize)
        ensures
            value == self.tool_intent_count,
    {
        self.tool_intent_count
    }

    #[must_use]
    pub fn memory_intent_count(&self) -> (value: usize)
        ensures
            value == self.memory_intent_count,
    {
        self.memory_intent_count
    }

    #[must_use]
    pub fn placement_intent_count(&self) -> (value: usize)
        ensures
            value == self.placement_intent_count,
    {
        self.placement_intent_count
    }

    #[must_use]
    pub fn runtime_handoff_kind(&self) -> (value: &str)
        ensures
            value@ == self.runtime_handoff_kind@,
    {
        self.runtime_handoff_kind.as_str()
    }

    #[must_use]
    pub fn runtime_receipt_kind(&self) -> (value: &str)
        ensures
            value@ == self.runtime_receipt_kind@,
    {
        self.runtime_receipt_kind.as_str()
    }

    #[must_use]
    pub fn derived_session_kind(&self) -> (value: &str)
        ensures
            value@ == self.derived_session_kind@,
    {
        self.derived_session_kind.as_str()
    }

    #[must_use]
    pub fn module_kind(&self) -> (value: &str)
        ensures
            value@ == self.module_kind@,
    {
        self.module_kind.as_str()
    }

    #[must_use]
    pub fn module_user_module(&self) -> (value: &str)
        ensures
            value@ == self.module_user_module@,
    {
        self.module_user_module.as_str()
    }

    #[must_use]
    pub fn module_selection_tags(&self) -> (value: &Vec<GerbilLoopCaseDriverCapability>)
        ensures
            value@ == self.module_selection_tags@,
    {
        &self.module_selection_tags
    }

    #[must_use]
    pub fn module_source_ref(&self) -> (value: &str)
        ensures
            value@ == self.module_source_ref@,
    {
        self.module_source_ref.as_str()
    }

    #[must_use]
    pub fn module_entrypoint(&self) -> (value: &str)
        ensures
            value@ == self.module_entrypoint@,
    {
        self.module_entrypoint.as_str()
    }

    #[must_use]
    pub fn module_enabled(&self) -> (value: bool)
        ensures
            value == self.module_enabled,
    {
        self.module_enabled
    }

    #[must_use]
    pub fn loop_program_id(&self) -> (value: &GerbilLoopCaseDriverLoopProgramId)
        ensures
            *value == self.loop_program_id,
    {
        &self.loop_program_id
    }

    #[must_use]
    pub fn policy_forced_slot_count(&self) -> (value: usize)
        ensures
            value == self.policy_forced_slot_count,
    {
        self.policy_forced_slot_count
    }

    #[must_use]
    pub fn policy_merge_receipt_count(&self) -> (value: usize)
        ensures
            value == self.policy_merge_receipt_count,
    {
        self.policy_merge_receipt_count
    }

    #[must_use]
    pub fn policy_conflict_merge_receipt_count(&self) -> (value: usize)
        ensures
            value == self.policy_conflict_merge_receipt_count,
    {
        self.policy_conflict_merge_receipt_count
    }

    #[must_use]
    pub fn policy_merge_kinds(&self) -> (value: &Vec<String>)
        ensures
            value@ == self.policy_merge_kinds@,
    {
        &self.policy_merge_kinds
    }

    #[must_use]
    pub fn policy_merge_statuses(&self) -> (value: &Vec<String>)
        ensures
            value@ == self.policy_merge_statuses@,
    {
        &self.policy_merge_statuses
    }

    #[must_use]
    pub fn policy_mixin_stack_present(&self) -> (value: bool)
        ensures
            value == self.policy_mixin_stack_present,
    {
        self.policy_mixin_stack_present
    }

    #[must_use]
    pub fn policy_mixin_stack_receipt_kind(&self) -> (value: &str)
        ensures
            value@ == self.policy_mixin_stack_receipt_kind@,
    {
        self.policy_mixin_stack_receipt_kind.as_str()
    }

    #[must_use]
    pub fn policy_mixin_stack_profile_id(&self) -> (value: &str)
        ensures
            value@ == self.policy_mixin_stack_profile_id@,
    {
        self.policy_mixin_stack_profile_id.as_str()
    }

    #[must_use]
    pub fn policy_mixin_stack_mixin_count(&self) -> (value: usize)
        ensures
            value == self.policy_mixin_stack_mixin_count,
    {
        self.policy_mixin_stack_mixin_count
    }

    #[must_use]
    pub fn policy_mixin_stack_slot_merge_law_count(&self) -> (value: usize)
        ensures
            value == self.policy_mixin_stack_slot_merge_law_count,
    {
        self.policy_mixin_stack_slot_merge_law_count
    }

    #[must_use]
    pub fn policy_mixin_stack_slot_merge_laws(&self) -> (value: &Vec<String>)
        ensures
            value@ == self.policy_mixin_stack_slot_merge_laws@,
    {
        &self.policy_mixin_stack_slot_merge_laws
    }

    #[must_use]
    pub fn policy_mixin_stack_linearization_owner(&self) -> (value: &str)
        ensures
            value@ == self.policy_mixin_stack_linearization_owner@,
    {
        self.policy_mixin_stack_linearization_owner.as_str()
    }

    #[must_use]
    pub fn policy_mixin_stack_slot_merge_owner(&self) -> (value: &str)
        ensures
            value@ == self.policy_mixin_stack_slot_merge_owner@,
    {
        self.policy_mixin_stack_slot_merge_owner.as_str()
    }

    /// Whether `tag` is one of the capability tags.
    #[must_use]
    pub fn has_capability(&self, tag: &GerbilLoopCaseDriverCapability) -> (found: bool)
        ensures
            found == seq_views(self.capability_tags@).contains(tag@),
    {
        let mut i: usize = 0;
        while i < self.capability_tags.len()
            invariant
                i <= self.capability_tags.len(),
                forall|j: int| 0 <= j < i ==> self.capability_tags@[j]@ != tag@,
            decreases self.capability_tags.len() - i,
        {
            if self.capability_tags[i] == *tag {
                assert(seq_views(self.capability_tags@)[i as int] == tag@);
                return true;
            }
            i += 1;
        }
        assert forall|j: int| 0 <= j < seq_views(self.capability_tags@).len() implies seq_views(
            self.capability_tags@,
        )[j] != tag@ by {
            assert(seq_views(self.capability_tags@)[j] == self.capability_tags@[j]@);
        }
        false
    }
}

} // verus!
