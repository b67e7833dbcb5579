//! Trust checks that every decoded vertical-trace receipt must pass.

use vstd::prelude::*;

use super::fields::{trace_prefix, trace_prefix_text};
use super::types::GerbilLoopCaseDriverVerticalTraceReceipt;
use crate::loop_case_driver::ids::GerbilLoopCaseDriverCapability;
use crate::loop_case_driver::receipt::{
    GerbilLoopCaseSchemeBoundary, GerbilLoopCaseSerializationBoundary,
};
use crate::text::{
    chars_of, contains_char, debug_str, debug_str_text, decimal_text, has_char, is_blank,
    seq_views, text_eq, text_is_blank, u64_to_text,
};

verus! {

/// Schema id of the mixin-stack compiler receipt that a present mixin stack must name.
pub open spec fn mixin_stack_schema_text() -> Seq<char> {
    "marlin.config-interface.policy-pack.mixin-stack-compiler-receipt.v1"@
}

/// First item of `items` that fails `ok`.
pub open spec fn first_failing(items: Seq<Seq<char>>, ok: spec_fn(Seq<char>) -> bool) -> Option<
    Seq<char>,
>
    decreases items.len(),
{
    if items.len() == 0 {
        None
    } else if !ok(items[0]) {
        Some(items[0])
    } else {
        first_failing(items.drop_first(), ok)
    }
}

/// Number of items of `items` equal to `text`.
pub open spec fn count_equal(items: Seq<Seq<char>>, text: Seq<char>) -> nat
    decreases items.len(),
{
    if items.len() == 0 {
        0
    } else {
        count_equal(items.drop_last(), text) + if items.last() == text {
            1nat
        } else {
            0nat
        }
    }
}

/// A capability lane of POO Flow starts with `+`.
pub open spec fn is_poo_lane(tag: Seq<char>) -> bool {
    tag.len() > 0 && tag[0] == '+'
}

/// A mechanism policy id must hold more than whitespace.
pub open spec fn is_filled(text: Seq<char>) -> bool {
    !is_blank(text)
}

/// A policy merge status is `applied` or `conflict`.
pub open spec fn is_merge_status(text: Seq<char>) -> bool {
    text == "applied"@ || text == "conflict"@
}

/// A slot merge law has the shape `slot=merge`.
pub open spec fn is_merge_law(text: Seq<char>) -> bool {
    contains_char(text, '=')
}

/// `"vertical trace <index>"` followed by `tail`.
pub open spec fn trace_message(index: nat, tail: Seq<char>) -> Seq<char> {
    trace_prefix(index) + tail
}

/// Whether the receipt declares one of the memory capabilities.
pub open spec fn declares_memory(r: GerbilLoopCaseDriverVerticalTraceReceipt) -> bool {
    seq_views(r.capability_tags@).contains("+memory"@) || seq_views(r.capability_tags@).contains(
        "+memory-recall"@,
    )
}

/// First failed identity check: case id, profile, compiler and capability lanes.
pub open spec fn identity_trust_error(r: GerbilLoopCaseDriverVerticalTraceReceipt, index: nat) -> Option<
    Seq<char>,
> {
    if is_blank(r.case_id@) {
        Some(trace_message(index, " has an empty case id"@))
    } else if is_blank(r.profile_ref@) {
        Some(trace_message(index, " has an empty profile ref"@))
    } else if r.compiler_owner@ != "gerbil-poo-flow"@ {
        Some(
            trace_message(index, " compiler owner "@) + r.compiler_owner@
                + " is not gerbil-poo-flow"@,
        )
    } else if r.profile_ref@ != r.compiler_profile_id@ {
        Some(
            trace_message(index, " profile "@) + r.profile_ref@
                + " does not match compiler profile "@ + r.compiler_profile_id@,
        )
    } else if is_blank(r.loop_program_id@) {
        Some(trace_message(index, " has an empty loop program id"@))
    } else if r.capability_tags@.len() == 0 {
        Some(trace_message(index, " has no capability tags"@))
    } else if first_failing(seq_views(r.capability_tags@), |t: Seq<char>| is_poo_lane(t)) is Some {
        Some(
            trace_message(index, " capability tag "@) + first_failing(
                seq_views(r.capability_tags@),
                |t: Seq<char>| is_poo_lane(t),
            )->Some_0 + " is not a POO capability lane"@,
        )
    } else {
        None
    }
}

/// First failed check of the live-LLM lane.
pub open spec fn live_lane_trust_error(r: GerbilLoopCaseDriverVerticalTraceReceipt, index: nat) -> Option<
    Seq<char>,
> {
    if r.live_llm_required {
        if r.live_gate_env@ != "MARLIN_LIVE_LLM"@ {
            Some(
                trace_message(index, " live LLM repair must use MARLIN_LIVE_LLM gate, got "@)
                    + r.live_gate_env@,
            )
        } else if r.live_llm_allowed {
            Some(trace_message(index, " live LLM repair should be denied in smoke trace"@))
        } else if r.live_llm_denial_receipt@ != "deferred-no-live-llm"@ {
            Some(
                trace_message(index, " live LLM repair denial receipt "@)
                    + r.live_llm_denial_receipt@ + " is not deferred-no-live-llm"@,
            )
        } else if r.llm_repair_intent@ == "none"@ || is_blank(r.llm_repair_intent@) {
            Some(trace_message(index, " live LLM repair has no typed repair intent"@))
        } else if !seq_views(r.capability_tags@).contains("+tool-repair"@) {
            Some(trace_message(index, " live LLM repair lacks +tool-repair capability"@))
        } else if !seq_views(r.transition_actions@).contains("invoke_model"@) {
            Some(trace_message(index, " live LLM repair lacks model invocation"@))
        } else if r.tool_intent_count == 0 {
            Some(trace_message(index, " live LLM repair has no tool intent"@))
        } else {
            None
        }
    } else {
        if r.live_gate_env@ != "none"@ {
            Some(
                trace_message(
                    index,
                    " non-LLM case should not declare live gate MARLIN_LIVE_LLM, got "@,
                ) + r.live_gate_env@,
            )
        } else if r.live_llm_allowed {
            Some(trace_message(index, " non-LLM case should not allow live LLM"@))
        } else if r.live_llm_denial_receipt@ != "not-required"@ {
            Some(
                trace_message(index, " non-LLM denial receipt "@) + r.live_llm_denial_receipt@
                    + " is not not-required"@,
            )
        } else if r.llm_repair_intent@ != "none"@ {
            Some(
                trace_message(index, " non-LLM repair intent "@) + r.llm_repair_intent@
                    + " should be none"@,
            )
        } else {
            None
        }
    }
}

/// First failed check of the runtime handoff and module projection.
pub open spec fn runtime_trust_error(r: GerbilLoopCaseDriverVerticalTraceReceipt, index: nat) -> Option<
    Seq<char>,
> {
    if r.session_transform@ != "loop-policy-profile->loop-program"@ {
        Some(
            trace_message(index, " session transform "@) + r.session_transform@
                + " is not loop-policy-profile->loop-program"@,
        )
    } else if r.placement_intent_count == 0 {
        Some(trace_message(index, " has no runtime placement intent"@))
    } else if declares_memory(r) && r.memory_intent_count == 0 {
        Some(trace_message(index, " declares memory capability without memory intent"@))
    } else if r.memory_intent_count > 0 && !declares_memory(r) {
        Some(trace_message(index, " declares memory intent without memory capability"@))
    } else if r.runtime_handoff_kind@ != "loop-program-runtime-handoff"@ {
        Some(
            trace_message(index, " runtime handoff kind "@) + r.runtime_handoff_kind@
                + " is not loop-program-runtime-handoff"@,
        )
    } else if r.runtime_receipt_kind@ != "loop-program-runtime-receipt"@ {
        Some(
            trace_message(index, " runtime receipt kind "@) + r.runtime_receipt_kind@
                + " is not loop-program-runtime-receipt"@,
        )
    } else if r.derived_session_kind@ != "derived-session/from-loop-receipt"@ {
        Some(
            trace_message(index, " derived session kind "@) + r.derived_session_kind@
                + " is not derived-session/from-loop-receipt"@,
        )
    } else if r.module_kind@ != "marlin.config-interface.loop-policy-profile-projection.v1"@ {
        Some(
            trace_message(index, " module kind "@) + r.module_kind@
                + " is not the loop policy profile projection module"@,
        )
    } else if r.module_user_module@ != "funflow"@ {
        Some(
            trace_message(index, " module user module "@) + r.module_user_module@
                + " is not funflow"@,
        )
    } else if seq_views(r.module_selection_tags@) != seq_views(r.capability_tags@) {
        Some(trace_message(index, " module selection tags do not match capability tags"@))
    } else if r.module_source_ref@ != r.profile_ref@ {
        Some(
            trace_message(index, " module source ref "@) + r.module_source_ref@
                + " does not match profile ref "@ + r.profile_ref@,
        )
    } else if r.module_entrypoint@ != "marlinLoopPolicyProfileCompilerReceipts"@ {
        Some(
            trace_message(index, " module entrypoint "@) + r.module_entrypoint@
                + " is not the Scheme compiler receipt entrypoint"@,
        )
    } else if !r.module_enabled {
        Some(trace_message(index, " module projection is disabled"@))
    } else {
        None
    }
}

/// First failed check of the loop program: epochs, transitions, policies, digest, budget.
pub open spec fn program_trust_error(r: GerbilLoopCaseDriverVerticalTraceReceipt, index: nat) -> Option<
    Seq<char>,
> {
    if r.resolved_policy_pack_policy_epoch != r.loop_program_policy_epoch {
        Some(
            trace_message(index, " resolved policy epoch "@) + decimal_text(
                r.resolved_policy_pack_policy_epoch as nat,
            ) + " does not match loop program epoch "@ + decimal_text(
                r.loop_program_policy_epoch as nat,
            ),
        )
    } else if r.transition_count == 0 {
        Some(trace_message(index, " has no loop transitions"@))
    } else if r.transition_actions@.len() != r.transition_count {
        Some(
            trace_message(index, " action count "@) + decimal_text(r.transition_actions@.len())
                + " does not match transition count "@ + decimal_text(r.transition_count as nat),
        )
    } else if r.transition_events@.len() != r.transition_count {
        Some(
            trace_message(index, " event count "@) + decimal_text(r.transition_events@.len())
                + " does not match transition count "@ + decimal_text(r.transition_count as nat),
        )
    } else if !(r.transition_events@.len() > 0 && r.transition_events@[0]@ == "start"@) {
        Some(trace_message(index, " first transition event must be start"@))
    } else if !(r.transition_actions@.len() > 0 && r.transition_actions@.last()@ == "stop"@) {
        Some(trace_message(index, " final transition action must be stop"@))
    } else if r.mechanism_policy_count == 0 {
        Some(trace_message(index, " has no mechanism policies"@))
    } else if r.mechanism_policy_ids@.len() != r.mechanism_policy_count {
        Some(
            trace_message(index, " mechanism id count "@) + decimal_text(
                r.mechanism_policy_ids@.len(),
            ) + " does not match mechanism policy count "@ + decimal_text(
                r.mechanism_policy_count as nat,
            ),
        )
    } else if first_failing(seq_views(r.mechanism_policy_ids@), |t: Seq<char>| is_filled(t)) is Some {
        Some(
            trace_message(index, " has an empty mechanism policy id "@) + debug_str_text(
                first_failing(seq_views(r.mechanism_policy_ids@), |t: Seq<char>| is_filled(t))->Some_0,
            ),
        )
    } else if r.policy_digest_length != 32 {
        Some(
            trace_message(index, " policy digest length "@) + decimal_text(
                r.policy_digest_length as nat,
            ) + " does not equal 32"@,
        )
    } else if r.policy_digest_octets@.len() != r.policy_digest_length {
        Some(
            trace_message(index, " policy digest octet count "@) + decimal_text(
                r.policy_digest_octets@.len(),
            ) + " does not match length "@ + decimal_text(r.policy_digest_length as nat),
        )
    } else if r.capability_mask == 0 {
        Some(trace_message(index, " has an empty capability mask"@))
    } else if r.budget_max_attempts == 0 || r.budget_max_cost_units == 0
        || r.budget_max_wall_time_ms == 0 {
        Some(trace_message(index, " has an empty runtime budget"@))
    } else {
        None
    }
}

/// First failed check of the policy merge receipts.
pub open spec fn merge_trust_error(r: GerbilLoopCaseDriverVerticalTraceReceipt, index: nat) -> Option<
    Seq<char>,
> {
    if r.policy_forced_slot_count == 0 {
        Some(trace_message(index, " has no forced policy slots"@))
    } else if r.policy_merge_receipt_count == 0 {
        Some(trace_message(index, " has no policy merge receipts"@))
    } else if r.policy_merge_kinds@.len() != r.policy_merge_receipt_count {
        Some(
            trace_message(index, " policy merge kind count "@) + decimal_text(
                r.policy_merge_kinds@.len(),
            ) + " does not match merge receipt count "@ + decimal_text(
                r.policy_merge_receipt_count as nat,
            ),
        )
    } else if r.policy_merge_statuses@.len() != r.policy_merge_receipt_count {
        Some(
            trace_message(index, " policy merge status count "@) + decimal_text(
                r.policy_merge_statuses@.len(),
            ) + " does not match merge receipt count "@ + decimal_text(
                r.policy_merge_receipt_count as nat,
            ),
        )
    } else if r.policy_conflict_merge_receipt_count != count_equal(
        seq_views(r.policy_merge_statuses@),
        "conflict"@,
    ) {
        Some(
            trace_message(index, " policy conflict merge receipt count "@) + decimal_text(
                r.policy_conflict_merge_receipt_count as nat,
            ) + " does not match status count "@ + decimal_text(
                count_equal(seq_views(r.policy_merge_statuses@), "conflict"@),
            ),
        )
    } else if first_failing(seq_views(r.policy_merge_statuses@), |t: Seq<char>| is_merge_status(t))
        is Some {
        Some(
            trace_message(index, " policy merge status "@) + first_failing(
                seq_views(r.policy_merge_statuses@),
                |t: Seq<char>| is_merge_status(t),
            )->Some_0 + " is not applied or conflict"@,
        )
    } else {
        None
    }
}

/// First failed check of the mixin-stack receipt, present or absent.
pub open spec fn mixin_stack_trust_error(r: GerbilLoopCaseDriverVerticalTraceReceipt, index: nat) -> Option<
    Seq<char>,
> {
    if r.policy_mixin_stack_present {
        if r.policy_mixin_stack_receipt_kind@ != mixin_stack_schema_text() {
            Some(
                trace_message(index, " mixin-stack receipt kind "@)
                    + r.policy_mixin_stack_receipt_kind@ + " is not "@
                    + mixin_stack_schema_text(),
            )
        } else if r.policy_mixin_stack_profile_id@ != r.profile_ref@ {
            Some(
                trace_message(index, " mixin-stack profile "@) + r.policy_mixin_stack_profile_id@
                    + " does not match profile ref "@ + r.profile_ref@,
            )
        } else if r.policy_mixin_stack_mixin_count == 0 {
            Some(trace_message(index, " mixin-stack has no policy mixins"@))
        } else if r.policy_mixin_stack_slot_merge_law_count == 0 {
            Some(trace_message(index, " mixin-stack has no slot merge laws"@))
        } else if r.policy_mixin_stack_slot_merge_laws@.len()
            != r.policy_mixin_stack_slot_merge_law_count {
            Some(
                trace_message(index, " mixin-stack law count "@) + decimal_text(
                    r.policy_mixin_stack_slot_merge_law_count as nat,
                ) + " does not match law vector "@ + decimal_text(
                    r.policy_mixin_stack_slot_merge_laws@.len(),
                ),
            )
        } else if r.policy_mixin_stack_slot_merge_law_count != r.policy_merge_receipt_count {
            Some(
                trace_message(index, " mixin-stack law count "@) + decimal_text(
                    r.policy_mixin_stack_slot_merge_law_count as nat,
                ) + " does not match policy merge receipt count "@ + decimal_text(
                    r.policy_merge_receipt_count as nat,
                ),
            )
        } else if first_failing(
            seq_views(r.policy_mixin_stack_slot_merge_laws@),
            |t: Seq<char>| is_merge_law(t),
        ) is Some {
            Some(
                trace_message(index, " mixin-stack law "@) + first_failing(
                    seq_views(r.policy_mixin_stack_slot_merge_laws@),
                    |t: Seq<char>| is_merge_law(t),
                )->Some_0 + " is not slot=merge"@,
            )
        } else if r.policy_mixin_stack_linearization_owner@ != "poo-flow.c3-c4"@ {
            Some(
                trace_message(index, " mixin-stack linearization owner "@)
                    + r.policy_mixin_stack_linearization_owner@ + " is not poo-flow.c3-c4"@,
            )
        } else if r.policy_mixin_stack_slot_merge_owner@ != "poo-flow.slot-merge-algebra"@ {
            Some(
                trace_message(index, " mixin-stack slot merge owner "@)
                    + r.policy_mixin_stack_slot_merge_owner@
                    + " is not poo-flow.slot-merge-algebra"@,
            )
        } else {
            None
        }
    } else if r.policy_mixin_stack_receipt_kind@ != "none"@ || r.policy_mixin_stack_profile_id@
        != "none"@ || r.policy_mixin_stack_mixin_count != 0
        || r.policy_mixin_stack_slot_merge_law_count != 0
        || r.policy_mixin_stack_slot_merge_laws@.len() != 0
        || r.policy_mixin_stack_linearization_owner@ != "none"@
        || r.policy_mixin_stack_slot_merge_owner@ != "none"@ {
        Some(trace_message(index, " absent mixin-stack receipt still carries payload"@))
    } else {
        None
    }
}

/// First failed check of the receipt at trace position `index`, in the order
/// in which the checks run; `None` when the receipt can be trusted.
#[verifier::opaque]
pub open spec fn trusted_error(r: GerbilLoopCaseDriverVerticalTraceReceipt, index: nat) -> Option<
    Seq<char>,
> {
    if identity_trust_error(r, index) is Some {
        identity_trust_error(r, index)
    } else if live_lane_trust_error(r, index) is Some {
        live_lane_trust_error(r, index)
    } else if runtime_trust_error(r, index) is Some {
        runtime_trust_error(r, index)
    } else if program_trust_error(r, index) is Some {
        program_trust_error(r, index)
    } else if merge_trust_error(r, index) is Some {
        merge_trust_error(r, index)
    } else if mixin_stack_trust_error(r, index) is Some {
        mixin_stack_trust_error(r, index)
    } else if r.scheme_boundary != GerbilLoopCaseSchemeBoundary::SchemeTypesToRustTypes {
        Some(
            trace_message(index, " scheme boundary "@) + r.scheme_boundary.label()
                + " is not native Scheme-to-Rust"@,
        )
    } else if r.serialization_boundary
        != GerbilLoopCaseSerializationBoundary::RustOwnedCliTraceCrossProcess {
        Some(
            trace_message(index, " serialization boundary "@) + r.serialization_boundary.label()
                + " is not Rust-owned CLI trace"@,
        )
    } else {
        None
    }
}

// ---------------------------------------------------------------------------
// Executable checks
// ---------------------------------------------------------------------------

/// `"vertical trace <index>"` followed by `tail`.
fn message(index: usize, tail: &str) -> (text: String)
    ensures
        text@ == trace_message(index as nat, tail@),
{
    let mut text = trace_prefix_text(index);
    text.append(tail);
    text
}

/// `"vertical trace <index>"`, `head`, then `value`.
fn message_value(index: usize, head: &str, value: &str) -> (text: String)
    ensures
        text@ == trace_message(index as nat, head@) + value@,
{
    let mut text = trace_prefix_text(index);
    text.append(head);
    text.append(value);
    text
}

/// `"vertical trace <index>"`, `head`, `value`, then `tail`.
fn message_with(index: usize, head: &str, value: &str, tail: &str) -> (text: String)
    ensures
        text@ == trace_message(index as nat, head@) + value@ + tail@,
{
    let mut text = trace_prefix_text(index);
    text.append(head);
    text.append(value);
    text.append(tail);
    text
}

/// `"vertical trace <index>"`, `head`, `first`, `middle`, then `second`.
fn message_with_two(index: usize, head: &str, first: &str, middle: &str, second: &str) -> (text:
    String)
    ensures
        text@ == trace_message(index as nat, head@) + first@ + middle@ + second@,
{
    let mut text = trace_prefix_text(index);
    text.append(head);
    text.append(first);
    text.append(middle);
    text.append(second);
    text
}

/// Two counts in a message: `head`, `first`, `middle`, `second`.
fn count_message(index: usize, head: &str, first: u64, middle: &str, second: u64) -> (text: String)
    ensures
        text@ == trace_message(index as nat, head@) + decimal_text(first as nat) + middle@
            + decimal_text(second as nat),
{
    let a = u64_to_text(first);
    let b = u64_to_text(second);
    message_with_two(index, head, a.as_str(), middle, b.as_str())
}

/// Whether a text is a POO capability lane.
fn poo_lane(text: &str) -> (b: bool)
    ensures
        b == is_poo_lane(text@),
{
    let chars = chars_of(text);
    chars.len() > 0 && chars[0] == '+'
}

/// Whether a text is `applied` or `conflict`.
fn merge_status(text: &str) -> (b: bool)
    ensures
        b == is_merge_status(text@),
{
    text_eq(text, "applied") || text_eq(text, "conflict")
}

/// Whether a text has the shape `slot=merge`.
fn merge_law(text: &str) -> (b: bool)
    ensures
        b == is_merge_law(text@),
{
    let chars = chars_of(text);
    has_char(&chars, '=')
}

/// Position of the first capability tag that is not a POO lane.
fn first_non_lane(tags: &Vec<GerbilLoopCaseDriverCapability>) -> (found: Option<usize>)
    ensures
        match found {
            Some(i) => i < tags.len() && first_failing(seq_views(tags@), |t: Seq<char>| is_poo_lane(t))
                == Some(tags@[i as int]@),
            None => first_failing(seq_views(tags@), |t: Seq<char>| is_poo_lane(t)) is None,
        },
{
    let ghost views = seq_views(tags@);
    let ghost ok = |t: Seq<char>| is_poo_lane(t);
    let mut i: usize = 0;
    assert(views.skip(0) =~= views);
    while i < tags.len()
        invariant
            i <= tags.len(),
            views == seq_views(tags@),
            ok == (|t: Seq<char>| is_poo_lane(t)),
            first_failing(views, ok) == first_failing(views.skip(i as int), ok),
        decreases tags.len() - i,
    {
        assert(views.skip(i as int)[0] == tags@[i as int]@);
        assert(views.skip(i as int).drop_first() =~= views.skip(i + 1));
        if !poo_lane(tags[i].as_str()) {
            return Some(i);
        }
        i += 1;
    }
    assert(views.skip(i as int) =~= Seq::<Seq<char>>::empty());
    None
}

/// Position of the first text of `items` that fails the given check.
fn first_failing_text(items: &Vec<String>, check: u8) -> (found: Option<usize>)
    requires
        check < 3,
    ensures
        match found {
            Some(i) => i < items.len() && first_failing(seq_views(items@), text_check(check))
                == Some(items@[i as int]@),
            None => first_failing(seq_views(items@), text_check(check)) is None,
        },
{
    let ghost views = seq_views(items@);
    let ghost ok = text_check(check);
    let mut i: usize = 0;
    assert(views.skip(0) =~= views);
    while i < items.len()
        invariant
            i <= items.len(),
            check < 3,
            views == seq_views(items@),
            ok == text_check(check),
            first_failing(views, ok) == first_failing(views.skip(i as int), ok),
        decreases items.len() - i,
    {
        assert(views.skip(i as int)[0] == items@[i as int]@);
        assert(views.skip(i as int).drop_first() =~= views.skip(i + 1));
        let passes = if check == 0 {
            !text_is_blank(items[i].as_str())
        } else if check == 1 {
            merge_status(items[i].as_str())
        } else {
            merge_law(items[i].as_str())
        };
        if !passes {
            return Some(i);
        }
        i += 1;
    }
    assert(views.skip(i as int) =~= Seq::<Seq<char>>::empty());
    None
}

/// The item checks used by [`first_failing_text`]: filled ids, merge statuses, merge laws.
pub open spec fn text_check(check: u8) -> spec_fn(Seq<char>) -> bool {
    if check == 0 {
        |t: Seq<char>| is_filled(t)
    } else if check == 1 {
        |t: Seq<char>| is_merge_status(t)
    } else {
        |t: Seq<char>| is_merge_law(t)
    }
}

/// Number of texts of `items` equal to `text`.
fn count_texts(items: &Vec<String>, text: &str) -> (count: usize)
    ensures
        count == count_equal(seq_views(items@), text@),
{
    let ghost views = seq_views(items@);
    let mut count: usize = 0;
    let mut i: usize = 0;
    assert(views.take(0) =~= Seq::<Seq<char>>::empty());
    while i < items.len()
        invariant
            i <= items.len(),
            views == seq_views(items@),
            count == count_equal(views.take(i as int), text@),
            count <= i,
        decreases items.len() - i,
    {
        assert(views.take(i + 1).drop_last() =~= views.take(i as int));
        assert(views.take(i + 1).last() == items@[i as int]@);
        if text_eq(items[i].as_str(), text) {
            count += 1;
        }
        i += 1;
    }
    assert(views.take(i as int) =~= views);
    count
}

/// Whether `items` holds `text`.
fn contains_text(items: &Vec<String>, text: &str) -> (found: bool)
    ensures
        found == seq_views(items@).contains(text@),
{
    let mut i: usize = 0;
    while i < items.len()
        invariant
            i <= items.len(),
            forall|j: int| 0 <= j < i ==> items@[j]@ != text@,
        decreases items.len() - i,
    {
        if text_eq(items[i].as_str(), text) {
            assert(seq_views(items@)[i as int] == text@);
            return true;
        }
        i += 1;
    }
    assert forall|j: int| 0 <= j < seq_views(items@).len() implies seq_views(items@)[j]
        != text@ by {
        assert(seq_views(items@)[j] == items@[j]@);
    }
    false
}

/// Whether two tag lists hold the same tags in the same order.
fn same_tags(a: &Vec<GerbilLoopCaseDriverCapability>, b: &Vec<GerbilLoopCaseDriverCapability>) -> (same:
    bool)
    ensures
        same == (seq_views(a@) == seq_views(b@)),
{
    if a.len() != b.len() {
        assert(seq_views(a@).len() != seq_views(b@).len());
        return false;
    }
    let mut i: usize = 0;
    while i < a.len()
        invariant
            i <= a.len(),
            a.len() == b.len(),
            forall|j: int| 0 <= j < i ==> a@[j]@ == b@[j]@,
        decreases a.len() - i,
    {
        if !(a[i] == b[i]) {
            assert(seq_views(a@)[i as int] != seq_views(b@)[i as int]);
            return false;
        }
        i += 1;
    }
    assert(seq_views(a@) =~= seq_views(b@));
    true
}

impl GerbilLoopCaseDriverVerticalTraceReceipt {
    fn check_identity(&self, index: usize) -> (result: Result<(), String>)
        ensures
            match result {
                Ok(()) => identity_trust_error(*self, index as nat) is None,
                Err(e) => identity_trust_error(*self, index as nat) == Some(e@),
            },
    {
        if text_is_blank(self.case_id.as_str()) {
            return Err(message(index, " has an empty case id"));
        }
        if text_is_blank(self.profile_ref.as_str()) {
            return Err(message(index, " has an empty profile ref"));
        }
        if !text_eq(self.compiler_owner.as_str(), "gerbil-poo-flow") {
            return Err(
                message_with(
                    index,
                    " compiler owner ",
                    self.compiler_owner.as_str(),
                    " is not gerbil-poo-flow",
                ),
            );
        }
        if !text_eq(self.profile_ref.as_str(), self.compiler_profile_id.as_str()) {
            return Err(
                message_with_two(
                    index,
                    " profile ",
                    self.profile_ref.as_str(),
                    " does not match compiler profile ",
                    self.compiler_profile_id.as_str(),
                ),
            );
        }
        if text_is_blank(self.loop_program_id.as_str()) {
            return Err(message(index, " has an empty loop program id"));
        }
        if self.capability_tags.len() == 0 {
            return Err(message(index, " has no capability tags"));
        }
        match first_non_lane(&self.capability_tags) {
            Some(i) => Err(
                message_with(
                    index,
                    " capability tag ",
                    self.capability_tags[i].as_str(),
                    " is not a POO capability lane",
                ),
            ),
            None => Ok(()),
        }
    }

    fn check_live_lane(&self, index: usize) -> (result: Result<(), String>)
        ensures
            match result {
                Ok(()) => live_lane_trust_error(*self, index as nat) is None,
                Err(e) => live_lane_trust_error(*self, index as nat) == Some(e@),
            },
    {
        if self.live_llm_required {
            if !text_eq(self.live_gate_env.as_str(), "MARLIN_LIVE_LLM") {
                return Err(
                    message_value(index, " live LLM repair must use MARLIN_LIVE_LLM gate, got ", self.live_gate_env.as_str()),
                );
            }
            if self.live_llm_allowed {
                return Err(message(index, " live LLM repair should be denied in smoke trace"));
            }
            if !text_eq(self.live_llm_denial_receipt.as_str(), "deferred-no-live-llm") {
                return Err(
                    message_with(
                        index,
                        " live LLM repair denial receipt ",
                        self.live_llm_denial_receipt.as_str(),
                        " is not deferred-no-live-llm",
                    ),
                );
            }
            if text_eq(self.llm_repair_intent.as_str(), "none") || text_is_blank(
                self.llm_repair_intent.as_str(),
            ) {
                return Err(message(index, " live LLM repair has no typed repair intent"));
            }
            if !self.has_capability(&GerbilLoopCaseDriverCapability::new("+tool-repair")) {
                return Err(message(index, " live LLM repair lacks +tool-repair capability"));
            }
            if !contains_text(&self.transition_actions, "invoke_model") {
                return Err(message(index, " live LLM repair lacks model invocation"));
            }
            if self.tool_intent_count == 0 {
                return Err(message(index, " live LLM repair has no tool intent"));
            }
            Ok(())
        } else {
            if !text_eq(self.live_gate_env.as_str(), "none") {
                return Err(
                    message_value(index, " non-LLM case should not declare live gate MARLIN_LIVE_LLM, got ", self.live_gate_env.as_str()),
                );
            }
            if self.live_llm_allowed {
                return Err(message(index, " non-LLM case should not allow live LLM"));
            }
            if !text_eq(self.live_llm_denial_receipt.as_str(), "not-required") {
                return Err(
                    message_with(
                        index,
                        " non-LLM denial receipt ",
                        self.live_llm_denial_receipt.as_str(),
                        " is not not-required",
                    ),
                );
            }
            if !text_eq(self.llm_repair_intent.as_str(), "none") {
                return Err(
                    message_with(
                        index,
                        " non-LLM repair intent ",
                        self.llm_repair_intent.as_str(),
                        " should be none",
                    ),
                );
            }
            Ok(())
        }
    }

    fn check_runtime(&self, index: usize) -> (result: Result<(), String>)
        ensures
            match result {
                Ok(()) => runtime_trust_error(*self, index as nat) is None,
                Err(e) => runtime_trust_error(*self, index as nat) == Some(e@),
            },
    {
        if !text_eq(self.session_transform.as_str(), "loop-policy-profile->loop-program") {
            return Err(
                message_with(
                    index,
                    " session transform ",
                    self.session_transform.as_str(),
                    " is not loop-policy-profile->loop-program",
                ),
            );
        }
        if self.placement_intent_count == 0 {
            return Err(message(index, " has no runtime placement intent"));
        }
        let declares_memory_capability = self.has_capability(
            &GerbilLoopCaseDriverCapability::new("+memory"),
        ) || self.has_capability(&GerbilLoopCaseDriverCapability::new("+memory-recall"));
        if declares_memory_capability && self.memory_intent_count == 0 {
            return Err(message(index, " declares memory capability without memory intent"));
        }
        if self.memory_intent_count > 0 && !declares_memory_capability {
            return Err(message(index, " declares memory intent without memory capability"));
        }
        if !text_eq(self.runtime_handoff_kind.as_str(), "loop-program-runtime-handoff") {
            return Err(
                message_with(
                    index,
                    " runtime handoff kind ",
                    self.runtime_handoff_kind.as_str(),
                    " is not loop-program-runtime-handoff",
                ),
            );
        }
        if !text_eq(self.runtime_receipt_kind.as_str(), "loop-program-runtime-receipt") {
            return Err(
                message_with(
                    index,
                    " runtime receipt kind ",
                    self.runtime_receipt_kind.as_str(),
                    " is not loop-program-runtime-receipt",
                ),
            );
        }
        if !text_eq(self.derived_session_kind.as_str(), "derived-session/from-loop-receipt") {
            return Err(
                message_with(
                    index,
                    " derived session kind ",
                    self.derived_session_kind.as_str(),
                    " is not derived-session/from-loop-receipt",
                ),
            );
        }
        if !text_eq(
            self.module_kind.as_str(),
            "marlin.config-interface.loop-policy-profile-projection.v1",
        ) {
            return Err(
                message_with(
                    index,
                    " module kind ",
                    self.module_kind.as_str(),
                    " is not the loop policy profile projection module",
                ),
            );
        }
        if !text_eq(self.module_user_module.as_str(), "funflow") {
            return Err(
                message_with(
                    index,
                    " module user module ",
                    self.module_user_module.as_str(),
                    " is not funflow",
                ),
            );
        }
        if !same_tags(&self.module_selection_tags, &self.capability_tags) {
            return Err(message(index, " module selection tags do not match capability tags"));
        }
        if !text_eq(self.module_source_ref.as_str(), self.profile_ref.as_str()) {
            return Err(
                message_with_two(
                    index,
                    " module source ref ",
                    self.module_source_ref.as_str(),
                    " does not match profile ref ",
                    self.profile_ref.as_str(),
                ),
            );
        }
        if !text_eq(self.module_entrypoint.as_str(), "marlinLoopPolicyProfileCompilerReceipts") {
            return Err(
                message_with(
                    index,
                    " module entrypoint ",
                    self.module_entrypoint.as_str(),
                    " is not the Scheme compiler receipt entrypoint",
                ),
            );
        }
        if !self.module_enabled {
            return Err(message(index, " module projection is disabled"));
        }
        Ok(())
    }

    fn check_program(&self, index: usize) -> (result: Result<(), String>)
        ensures
            match result {
                Ok(()) => program_trust_error(*self, index as nat) is None,
                Err(e) => program_trust_error(*self, index as nat) == Some(e@),
            },
    {
        if self.resolved_policy_pack_policy_epoch != self.loop_program_policy_epoch {
            return Err(
                count_message(
                    index,
                    " resolved policy epoch ",
                    self.resolved_policy_pack_policy_epoch,
                    " does not match loop program epoch ",
                    self.loop_program_policy_epoch,
                ),
            );
        }
        if self.transition_count == 0 {
            return Err(message(index, " has no loop transitions"));
        }
        if self.transition_actions.len() != self.transition_count {
            return Err(
                count_message(
                    index,
                    " action count ",
                    self.transition_actions.len() as u64,
                    " does not match transition count ",
                    self.transition_count as u64,
                ),
            );
        }
        if self.transition_events.len() != self.transition_count {
            return Err(
                count_message(
                    index,
                    " event count ",
                    self.transition_events.len() as u64,
                    " does not match transition count ",
                    self.transition_count as u64,
                ),
            );
        }
        if !(self.transition_events.len() > 0 && text_eq(
            self.transition_events[0].as_str(),
            "start",
        )) {
            return Err(message(index, " first transition event must be start"));
        }
        let last = self.transition_actions.len() - 1;
        if !(self.transition_actions.len() > 0 && text_eq(
            self.transition_actions[last].as_str(),
            "stop",
        )) {
            return Err(message(index, " final transition action must be stop"));
        }
        if self.mechanism_policy_count == 0 {
            return Err(message(index, " has no mechanism policies"));
        }
        if self.mechanism_policy_ids.len() != self.mechanism_policy_count {
            return Err(
                count_message(
                    index,
                    " mechanism id count ",
                    self.mechanism_policy_ids.len() as u64,
                    " does not match mechanism policy count ",
                    self.mechanism_policy_count as u64,
                ),
            );
        }
        if let Some(i) = first_failing_text(&self.mechanism_policy_ids, 0) {
            let quoted = debug_str(self.mechanism_policy_ids[i].as_str());
            return Err(
                message_value(index, " has an empty mechanism policy id ", quoted.as_str()),
            );
        }
        if self.policy_digest_length != 32 {
            let length = u64_to_text(self.policy_digest_length as u64);
            return Err(
                message_with(
                    index,
                    " policy digest length ",
                    length.as_str(),
                    " does not equal 32",
                ),
            );
        }
        if self.policy_digest_octets.len() != self.policy_digest_length {
            return Err(
                count_message(
                    index,
                    " policy digest octet count ",
                    self.policy_digest_octets.len() as u64,
                    " does not match length ",
                    self.policy_digest_length as u64,
                ),
            );
        }
        if self.capability_mask == 0 {
            return Err(message(index, " has an empty capability mask"));
        }
        if self.budget_max_attempts == 0 || self.budget_max_cost_units == 0
            || self.budget_max_wall_time_ms == 0 {
            return Err(message(index, " has an empty runtime budget"));
        }
        Ok(())
    }

    fn check_merges(&self, index: usize) -> (result: Result<(), String>)
        ensures
            match result {
                Ok(()) => merge_trust_error(*self, index as nat) is None,
                Err(e) => merge_trust_error(*self, index as nat) == Some(e@),
            },
    {
        if self.policy_forced_slot_count == 0 {
            return Err(message(index, " has no forced policy slots"));
        }
        if self.policy_merge_receipt_count == 0 {
            return Err(message(index, " has no policy merge receipts"));
        }
        if self.policy_merge_kinds.len() != self.policy_merge_receipt_count {
            return Err(
                count_message(
                    index,
                    " policy merge kind count ",
                    self.policy_merge_kinds.len() as u64,
                    " does not match merge receipt count ",
                    self.policy_merge_receipt_count as u64,
                ),
            );
        }
        if self.policy_merge_statuses.len() != self.policy_merge_receipt_count {
            return Err(
                count_message(
                    index,
                    " policy merge status count ",
                    self.policy_merge_statuses.len() as u64,
                    " does not match merge receipt count ",
                    self.policy_merge_receipt_count as u64,
                ),
            );
        }
        let conflict_status_count = count_texts(&self.policy_merge_statuses, "conflict");
        if self.policy_conflict_merge_receipt_count != conflict_status_count {
            return Err(
                count_message(
                    index,
                    " policy conflict merge receipt count ",
                    self.policy_conflict_merge_receipt_count as u64,
                    " does not match status count ",
                    conflict_status_count as u64,
                ),
            );
        }
        if let Some(i) = first_failing_text(&self.policy_merge_statuses, 1) {
            return Err(
                message_with(
                    index,
                    " policy merge status ",
                    self.policy_merge_statuses[i].as_str(),
                    " is not applied or conflict",
                ),
            );
        }
        Ok(())
    }

    fn check_mixin_stack(&self, index: usize) -> (result: Result<(), String>)
        ensures
            match result {
                Ok(()) => mixin_stack_trust_error(*self, index as nat) is None,
                Err(e) => mixin_stack_trust_error(*self, index as nat) == Some(e@),
            },
    {
        let schema = "marlin.config-interface.policy-pack.mixin-stack-compiler-receipt.v1";
        if self.policy_mixin_stack_present {
            if !text_eq(self.policy_mixin_stack_receipt_kind.as_str(), schema) {
                return Err(
                    message_with_two(
                        index,
                        " mixin-stack receipt kind ",
                        self.policy_mixin_stack_receipt_kind.as_str(),
                        " is not ",
                        schema,
                    ),
                );
            }
            if !text_eq(self.policy_mixin_stack_profile_id.as_str(), self.profile_ref.as_str()) {
                return Err(
                    message_with_two(
                        index,
                        " mixin-stack profile ",
                        self.policy_mixin_stack_profile_id.as_str(),
                        " does not match profile ref ",
                        self.profile_ref.as_str(),
                    ),
                );
            }
            if self.policy_mixin_stack_mixin_count == 0 {
                return Err(message(index, " mixin-stack has no policy mixins"));
            }
            if self.policy_mixin_stack_slot_merge_law_count == 0 {
                return Err(message(index, " mixin-stack has no slot merge laws"));
            }
            if self.policy_mixin_stack_slot_merge_laws.len()
                != self.policy_mixin_stack_slot_merge_law_count {
                return Err(
                    count_message(
                        index,
                        " mixin-stack law count ",
                        self.policy_mixin_stack_slot_merge_law_count as u64,
                        " does not match law vector ",
                        self.policy_mixin_stack_slot_merge_laws.len() as u64,
                    ),
                );
            }
            if self.policy_mixin_stack_slot_merge_law_count != self.policy_merge_receipt_count {
                return Err(
                    count_message(
                        index,
                        " mixin-stack law count ",
                        self.policy_mixin_stack_slot_merge_law_count as u64,
                        " does not match policy merge receipt count ",
                        self.policy_merge_receipt_count as u64,
                    ),
                );
            }
            if let Some(i) = first_failing_text(&self.policy_mixin_stack_slot_merge_laws, 2) {
                return Err(
                    message_with(
                        index,
                        " mixin-stack law ",
                        self.policy_mixin_stack_slot_merge_laws[i].as_str(),
                        " is not slot=merge",
                    ),
                );
            }
            if !text_eq(self.policy_mixin_stack_linearization_owner.as_str(), "poo-flow.c3-c4") {
                return Err(
                    message_with(
                        index,
                        " mixin-stack linearization owner ",
                        self.policy_mixin_stack_linearization_owner.as_str(),
                        " is not poo-flow.c3-c4",
                    ),
                );
            }
            if !text_eq(
                self.policy_mixin_stack_slot_merge_owner.as_str(),
                "poo-flow.slot-merge-algebra",
            ) {
                return Err(
                    message_with(
                        index,
                        " mixin-stack slot merge owner ",
                        self.policy_mixin_stack_slot_merge_owner.as_str(),
                        " is not poo-flow.slot-merge-algebra",
                    ),
                );
            }
            Ok(())
        } else if !text_eq(self.policy_mixin_stack_receipt_kind.as_str(), "none") || !text_eq(
            self.policy_mixin_stack_profile_id.as_str(),
            "none",
        ) || self.policy_mixin_stack_mixin_count != 0
            || self.policy_mixin_stack_slot_merge_law_count != 0
            || self.policy_mixin_stack_slot_merge_laws.len() != 0 || !text_eq(
            self.policy_mixin_stack_linearization_owner.as_str(),
            "none",
        ) || !text_eq(self.policy_mixin_stack_slot_merge_owner.as_str(), "none") {
            Err(message(index, " absent mixin-stack receipt still carries payload"))
        } else {
            Ok(())
        }
    }

    /// Checks that the receipt at trace position `index` can be trusted; the
    /// error is the first failed check.
    pub fn ensure_trusted(&self, index: usize) -> (result: Result<(), String>)
        ensures
            match result {
                Ok(()) => trusted_error(*self, index as nat) is None,
                Err(e) => trusted_error(*self, index as nat) == Some(e@),
            },
    {
        proof {
            reveal(trusted_error);
        }
        if let Err(e) = self.check_identity(index) {
            return Err(e);
        }
        if let Err(e) = self.check_live_lane(index) {
            return Err(e);
        }
        if let Err(e) = self.check_runtime(index) {
            return Err(e);
        }
        if let Err(e) = self.check_program(index) {
            return Err(e);
        }
        if let Err(e) = self.check_merges(index) {
            return Err(e);
        }
        if let Err(e) = self.check_mixin_stack(index) {
            return Err(e);
        }
        match self.scheme_boundary {
            GerbilLoopCaseSchemeBoundary::SchemeTypesToRustTypes => {},
        }
        match self.serialization_boundary {
            GerbilLoopCaseSerializationBoundary::RustOwnedCliTraceCrossProcess => {},
        }
        Ok(())
    }
}

/// Law: a receipt the trust checks accept has memory intent exactly when it
/// declares a memory capability, `+memory` and `+memory-recall` alike.
pub proof fn law_trusted_memory_agrees(r: GerbilLoopCaseDriverVerticalTraceReceipt, index: nat)
    requires
        trusted_error(r, index) is None,
    ensures
        r.memory_intent_count > 0 <==> (seq_views(r.capability_tags@).contains("+memory"@)
            || seq_views(r.capability_tags@).contains("+memory-recall"@)),
{
    reveal(trusted_error);
}

/// Law: the runtime checks accept a receipt whose runtime handoff and module
/// projection are right and whose memory intent is backed by either memory
/// capability, `+memory` or `+memory-recall`.
pub proof fn law_runtime_checks_accept_memory_capabilities(
    r: GerbilLoopCaseDriverVerticalTraceReceipt,
    index: nat,
)
    requires
        r.session_transform@ == "loop-policy-profile->loop-program"@,
        r.placement_intent_count > 0,
        r.memory_intent_count > 0,
        seq_views(r.capability_tags@).contains("+memory"@) || seq_views(
            r.capability_tags@,
        ).contains("+memory-recall"@),
        r.runtime_handoff_kind@ == "loop-program-runtime-handoff"@,
        r.runtime_receipt_kind@ == "loop-program-runtime-receipt"@,
        r.derived_session_kind@ == "derived-session/from-loop-receipt"@,
        r.module_kind@ == "marlin.config-interface.loop-policy-profile-projection.v1"@,
        r.module_user_module@ == "funflow"@,
        seq_views(r.module_selection_tags@) == seq_views(r.capability_tags@),
        r.module_source_ref@ == r.profile_ref@,
        r.module_entrypoint@ == "marlinLoopPolicyProfileCompilerReceipts"@,
        r.module_enabled,
    ensures
        runtime_trust_error(r, index) is None,
{
}

} // verus!

