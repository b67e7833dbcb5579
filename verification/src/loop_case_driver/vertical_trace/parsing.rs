//! Parses and verifies Rust-owned vertical-trace rows.
//!
//! A trace is text whose lines `vertical-case.<index>.<field>=<value>` carry
//! the fields of one receipt per index; other lines are ignored. The indices
//! must run from `0` without a gap, and each row must decode into a receipt.

use vstd::prelude::*;
use vstd::set_lib::{lemma_int_range, lemma_len_subset, set_int_range};

use super::fields::TraceEntry;
use super::row::{receipt_decodes_row, row_error, vertical_trace_receipt_from_row};
use super::trusted::trusted_error;
use super::types::{GerbilLoopCaseDriverVerticalTraceError, GerbilLoopCaseDriverVerticalTraceReceipt};
use crate::text::{
    char_views, chars_of, debug_str, debug_str_text, decimal_text, int_error_message,
    int_error_text, parse_unsigned, seq_views, split_lines, split_once, split_once_spec,
    string_from_chars, strip_prefix, strip_prefix_spec, text_lines, u64_to_text,
    unsigned_parse_spec,
};

verus! {

/// The entry of one trace line: `None` for a line that is not a trace row,
/// an error for a malformed trace row.
pub open spec fn line_entry(line: Seq<char>) -> Option<Result<(nat, Seq<char>, Seq<char>), Seq<char>>> {
    match strip_prefix_spec(line, "vertical-case."@) {
        None => None,
        Some(rest) => match split_once_spec(rest, '=') {
            None => Some(Err("vertical trace line missing '=': "@ + line)),
            Some(kv) => match split_once_spec(kv.0, '.') {
                None => Some(Err("vertical trace key missing field: "@ + kv.0)),
                Some(parts) => match unsigned_parse_spec(parts.0, usize::MAX as nat) {
                    Err(k) => Some(
                        Err(
                            "vertical trace index "@ + debug_str_text(parts.0) + " is invalid: "@
                                + int_error_text(k),
                        ),
                    ),
                    Ok(i) => Some(Ok((i, parts.1, kv.1))),
                },
            },
        },
    }
}

/// The entries of the given lines, in order; the first malformed line decides the error.
pub open spec fn entries_of(lines: Seq<Seq<char>>) -> Result<Seq<(nat, Seq<char>, Seq<char>)>, Seq<char>>
    decreases lines.len(),
{
    if lines.len() == 0 {
        Ok(Seq::empty())
    } else {
        match entries_of(lines.drop_last()) {
            Err(e) => Err(e),
            Ok(entries) => match line_entry(lines.last()) {
                None => Ok(entries),
                Some(Err(e)) => Err(e),
                Some(Ok(entry)) => Ok(entries.push(entry)),
            },
        }
    }
}

/// The entries of a trace text.
pub open spec fn trace_entries(stdout: Seq<char>) -> Result<Seq<(nat, Seq<char>, Seq<char>)>, Seq<char>> {
    entries_of(text_lines(stdout))
}

/// Some entry carries trace index `k`.
pub open spec fn has_index(entries: Seq<(nat, Seq<char>, Seq<char>)>, k: nat) -> bool {
    exists|j: int| 0 <= j < entries.len() && #[trigger] entries[j].0 == k
}

/// The entries of trace index `k`, in trace order.
pub open spec fn row_of(entries: Seq<(nat, Seq<char>, Seq<char>)>, k: nat) -> Seq<(nat, Seq<char>, Seq<char>)>
    decreases entries.len(),
{
    if entries.len() == 0 {
        Seq::empty()
    } else if entries.last().0 == k {
        row_of(entries.drop_last(), k).push(entries.last())
    } else {
        row_of(entries.drop_last(), k)
    }
}

/// `m` is the first index that no entry carries: every index below it occurs.
pub open spec fn is_row_count(entries: Seq<(nat, Seq<char>, Seq<char>)>, m: nat) -> bool {
    &&& forall|j: nat| j < m ==> has_index(entries, j)
    &&& !has_index(entries, m)
}

/// Number of receipts in a trace: the length of the gap-free run of indices from `0`.
pub open spec fn row_count(entries: Seq<(nat, Seq<char>, Seq<char>)>) -> nat {
    choose|m: nat| is_row_count(entries, m)
}

/// First decoding error among the rows `0..n`, in index order.
pub open spec fn first_row_error(entries: Seq<(nat, Seq<char>, Seq<char>)>, n: nat) -> Option<Seq<char>>
    decreases n,
{
    if n == 0 {
        None
    } else {
        match first_row_error(entries, (n - 1) as nat) {
            Some(e) => Some(e),
            None => row_error((n - 1) as nat, row_of(entries, (n - 1) as nat)),
        }
    }
}

/// The smallest index above `m` that some entry carries.
pub open spec fn next_index_after(entries: Seq<(nat, Seq<char>, Seq<char>)>, m: nat) -> nat {
    choose|i: nat|
        has_index(entries, i) && i > m && forall|j: nat| has_index(entries, j) && j > m ==> i <= j
}

/// Error of parsing a trace text, `None` when it parses.
pub open spec fn parse_error(stdout: Seq<char>) -> Option<Seq<char>> {
    match trace_entries(stdout) {
        Err(e) => Some(e),
        Ok(entries) => if entries.len() == 0 {
            Some("vertical trace did not contain any vertical-case rows"@)
        } else if first_row_error(entries, row_count(entries)) is Some {
            first_row_error(entries, row_count(entries))
        } else if exists|i: nat| has_index(entries, i) && i > row_count(entries) {
            Some(
                "vertical trace index "@ + decimal_text(next_index_after(entries, row_count(entries)))
                    + " is not contiguous at "@ + decimal_text(row_count(entries)),
            )
        } else {
            None
        }
    }
}

/// `receipts` are the receipts of the rows `0..` of a trace that parses.
pub open spec fn receipts_of_trace(receipts: Seq<GerbilLoopCaseDriverVerticalTraceReceipt>, stdout: Seq<char>) -> bool {
    &&& trace_entries(stdout) is Ok
    &&& receipts.len() == row_count(trace_entries(stdout)->Ok_0)
    &&& forall|k: int|
        0 <= k < receipts.len() ==> receipt_decodes_row(
            #[trigger] receipts[k],
            k as nat,
            row_of(trace_entries(stdout)->Ok_0, k as nat),
        )
}

/// Trust error of the receipt that a row decodes to.
pub open spec fn row_trust_error(k: nat, row: Seq<(nat, Seq<char>, Seq<char>)>) -> Option<Seq<char>> {
    trusted_error(choose|r: GerbilLoopCaseDriverVerticalTraceReceipt| receipt_decodes_row(r, k, row), k)
}

/// First trust error among the rows `0..n`, in index order.
pub open spec fn first_trust_error(entries: Seq<(nat, Seq<char>, Seq<char>)>, n: nat) -> Option<Seq<char>>
    decreases n,
{
    if n == 0 {
        None
    } else {
        match first_trust_error(entries, (n - 1) as nat) {
            Some(e) => Some(e),
            None => row_trust_error((n - 1) as nat, row_of(entries, (n - 1) as nat)),
        }
    }
}

/// Error of verifying a trace text against an expected receipt count.
pub open spec fn verify_error(stdout: Seq<char>, expected_count: nat) -> Option<Seq<char>> {
    if parse_error(stdout) is Some {
        parse_error(stdout)
    } else if row_count(trace_entries(stdout)->Ok_0) != expected_count {
        Some(
            "vertical trace receipt count "@ + decimal_text(row_count(trace_entries(stdout)->Ok_0))
                + " does not match expected "@ + decimal_text(expected_count),
        )
    } else {
        first_trust_error(trace_entries(stdout)->Ok_0, expected_count)
    }
}

// ---------------------------------------------------------------------------
// Lemmas
// ---------------------------------------------------------------------------

proof fn lemma_entries_error_sticks(lines: Seq<Seq<char>>, k: int)
    requires
        0 <= k <= lines.len(),
        entries_of(lines.take(k)) is Err,
    ensures
        entries_of(lines) == entries_of(lines.take(k)),
    decreases lines.len() - k,
{
    if k < lines.len() {
        assert(lines.take(k + 1).drop_last() =~= lines.take(k));
        lemma_entries_error_sticks(lines, k + 1);
    } else {
        assert(lines.take(k) =~= lines);
    }
}

proof fn lemma_row_error_sticks(entries: Seq<(nat, Seq<char>, Seq<char>)>, k: nat, n: nat)
    requires
        k <= n,
        first_row_error(entries, k) is Some,
    ensures
        first_row_error(entries, n) == first_row_error(entries, k),
    decreases n - k,
{
    if k < n {
        lemma_row_error_sticks(entries, k, (n - 1) as nat);
    }
}

proof fn lemma_trust_error_sticks(entries: Seq<(nat, Seq<char>, Seq<char>)>, k: nat, n: nat)
    requires
        k <= n,
        first_trust_error(entries, k) is Some,
    ensures
        first_trust_error(entries, n) == first_trust_error(entries, k),
    decreases n - k,
{
    if k < n {
        lemma_trust_error_sticks(entries, k, (n - 1) as nat);
    }
}

/// Every index below `n` occurs only if the entries number at least `n`.
proof fn lemma_index_run_fits(entries: Seq<(nat, Seq<char>, Seq<char>)>, n: nat)
    requires
        forall|j: nat| j < n ==> has_index(entries, j),
    ensures
        n <= entries.len(),
{
    let indices = entries.map_values(|e: (nat, Seq<char>, Seq<char>)| e.0 as int);
    let run = set_int_range(0, n as int);
    assert(run.subset_of(indices.to_set())) by {
        assert forall|i: int| run.contains(i) implies indices.to_set().contains(i) by {
            assert(has_index(entries, i as nat));
            let j = choose|j: int| 0 <= j < entries.len() && #[trigger] entries[j].0 == i as nat;
            assert(indices[j] == i);
            assert(indices.contains(i));
        }
    }
    lemma_int_range(0, n as int);
    indices.lemma_cardinality_of_set();
    vstd::seq_lib::seq_to_set_is_finite(indices);
    lemma_len_subset(run, indices.to_set());
}

/// The row count is the `m` that the run of indices stops at.
proof fn lemma_row_count_is(entries: Seq<(nat, Seq<char>, Seq<char>)>, m: nat)
    requires
        is_row_count(entries, m),
    ensures
        row_count(entries) == m,
{
    let c = row_count(entries);
    assert(is_row_count(entries, c));
    if c < m {
        assert(has_index(entries, c));
    } else if c > m {
        assert(has_index(entries, m));
    }
}

/// The trust error of a receipt depends only on the row it decodes.
proof fn lemma_trust_error_of_row(r: GerbilLoopCaseDriverVerticalTraceReceipt, k: nat, row: Seq<(nat, Seq<char>, Seq<char>)>)
    requires
        receipt_decodes_row(r, k, row),
    ensures
        row_trust_error(k, row) == trusted_error(r, k),
{
    let c = choose|c: GerbilLoopCaseDriverVerticalTraceReceipt| receipt_decodes_row(c, k, row);
    assert(receipt_decodes_row(c, k, row));
    reveal(receipt_decodes_row);
    assert(same_views(r, c));
    lemma_same_views_same_trust(r, c, k);
}

/// Two receipts whose fields have the same views pass or fail the trust checks alike.
proof fn lemma_same_views_same_trust(
    a: GerbilLoopCaseDriverVerticalTraceReceipt,
    b: GerbilLoopCaseDriverVerticalTraceReceipt,
    k: nat,
)
    requires
        same_views(a, b),
    ensures
        trusted_error(a, k) == trusted_error(b, k),
{
    reveal(trusted_error);
    assert(a.transition_actions@.len() == seq_views(a.transition_actions@).len());
    assert(b.transition_actions@.len() == seq_views(b.transition_actions@).len());
    assert(a.transition_events@.len() == seq_views(a.transition_events@).len());
    assert(b.transition_events@.len() == seq_views(b.transition_events@).len());
    assert(a.mechanism_policy_ids@.len() == seq_views(a.mechanism_policy_ids@).len());
    assert(b.mechanism_policy_ids@.len() == seq_views(b.mechanism_policy_ids@).len());
    assert(a.policy_merge_kinds@.len() == seq_views(a.policy_merge_kinds@).len());
    assert(b.policy_merge_kinds@.len() == seq_views(b.policy_merge_kinds@).len());
    assert(a.policy_merge_statuses@.len() == seq_views(a.policy_merge_statuses@).len());
    assert(b.policy_merge_statuses@.len() == seq_views(b.policy_merge_statuses@).len());
    assert(a.capability_tags@.len() == seq_views(a.capability_tags@).len());
    assert(b.capability_tags@.len() == seq_views(b.capability_tags@).len());
    assert(a.policy_mixin_stack_slot_merge_laws@.len() == seq_views(
        a.policy_mixin_stack_slot_merge_laws@,
    ).len());
    assert(b.policy_mixin_stack_slot_merge_laws@.len() == seq_views(
        b.policy_mixin_stack_slot_merge_laws@,
    ).len());
    if a.transition_events@.len() > 0 {
        assert(a.transition_events@[0]@ == seq_views(a.transition_events@)[0]);
        assert(b.transition_events@[0]@ == seq_views(b.transition_events@)[0]);
    }
    if a.transition_actions@.len() > 0 {
        let n = a.transition_actions@.len() - 1;
        assert(a.transition_actions@.last()@ == seq_views(a.transition_actions@)[n]);
        assert(b.transition_actions@.last()@ == seq_views(b.transition_actions@)[n]);
    }
}

/// Every field of `a` has the view of the same field of `b`.
pub open spec fn same_views(a: GerbilLoopCaseDriverVerticalTraceReceipt, b: GerbilLoopCaseDriverVerticalTraceReceipt) -> bool {
    &&& a.case_id@ == b.case_id@
    &&& a.profile_ref@ == b.profile_ref@
    &&& a.compiler_owner@ == b.compiler_owner@
    &&& a.compiler_profile_id@ == b.compiler_profile_id@
    &&& a.loop_program_id@ == b.loop_program_id@
    &&& seq_views(a.capability_tags@) == seq_views(b.capability_tags@)
    &&& a.live_gate_env@ == b.live_gate_env@
    &&& a.live_llm_required == b.live_llm_required
    &&& a.live_llm_allowed == b.live_llm_allowed
    &&& a.live_llm_denial_receipt@ == b.live_llm_denial_receipt@
    &&& a.llm_repair_intent@ == b.llm_repair_intent@
    &&& a.session_transform@ == b.session_transform@
    &&& a.tool_intent_count == b.tool_intent_count
    &&& a.memory_intent_count == b.memory_intent_count
    &&& a.placement_intent_count == b.placement_intent_count
    &&& a.runtime_handoff_kind@ == b.runtime_handoff_kind@
    &&& a.runtime_receipt_kind@ == b.runtime_receipt_kind@
    &&& a.derived_session_kind@ == b.derived_session_kind@
    &&& a.module_kind@ == b.module_kind@
    &&& a.module_user_module@ == b.module_user_module@
    &&& seq_views(a.module_selection_tags@) == seq_views(b.module_selection_tags@)
    &&& a.module_source_ref@ == b.module_source_ref@
    &&& a.module_entrypoint@ == b.module_entrypoint@
    &&& a.module_enabled == b.module_enabled
    &&& a.resolved_policy_pack_policy_epoch == b.resolved_policy_pack_policy_epoch
    &&& a.loop_program_policy_epoch == b.loop_program_policy_epoch
    &&& a.transition_count == b.transition_count
    &&& seq_views(a.transition_actions@) == seq_views(b.transition_actions@)
    &&& seq_views(a.transition_events@) == seq_views(b.transition_events@)
    &&& a.mechanism_policy_count == b.mechanism_policy_count
    &&& seq_views(a.mechanism_policy_ids@) == seq_views(b.mechanism_policy_ids@)
    &&& a.policy_digest_length == b.policy_digest_length
    &&& a.policy_digest_octets@ == b.policy_digest_octets@
    &&& a.capability_mask == b.capability_mask
    &&& a.budget_max_attempts == b.budget_max_attempts
    &&& a.budget_max_cost_units == b.budget_max_cost_units
    &&& a.budget_max_wall_time_ms == b.budget_max_wall_time_ms
    &&& a.policy_forced_slot_count == b.policy_forced_slot_count
    &&& a.policy_merge_receipt_count == b.policy_merge_receipt_count
    &&& a.policy_conflict_merge_receipt_count == b.policy_conflict_merge_receipt_count
    &&& seq_views(a.policy_merge_kinds@) == seq_views(b.policy_merge_kinds@)
    &&& seq_views(a.policy_merge_statuses@) == seq_views(b.policy_merge_statuses@)
    &&& a.policy_mixin_stack_present == b.policy_mixin_stack_present
    &&& a.policy_mixin_stack_receipt_kind@ == b.policy_mixin_stack_receipt_kind@
    &&& a.policy_mixin_stack_profile_id@ == b.policy_mixin_stack_profile_id@
    &&& a.policy_mixin_stack_mixin_count == b.policy_mixin_stack_mixin_count
    &&& a.policy_mixin_stack_slot_merge_law_count == b.policy_mixin_stack_slot_merge_law_count
    &&& seq_views(a.policy_mixin_stack_slot_merge_laws@) == seq_views(
        b.policy_mixin_stack_slot_merge_laws@,
    )
    &&& a.policy_mixin_stack_linearization_owner@ == b.policy_mixin_stack_linearization_owner@
    &&& a.policy_mixin_stack_slot_merge_owner@ == b.policy_mixin_stack_slot_merge_owner@
    &&& a.scheme_boundary == b.scheme_boundary
    &&& a.serialization_boundary == b.serialization_boundary
}

/// Some index is absent and the smallest absent one is the row count.
proof fn lemma_row_count_exists(entries: Seq<(nat, Seq<char>, Seq<char>)>, j: nat)
    requires
        j <= entries.len(),
        forall|i: nat| i < j ==> has_index(entries, i),
    ensures
        exists|m: nat| is_row_count(entries, m),
    decreases entries.len() - j,
{
    if !has_index(entries, j) {
        assert(is_row_count(entries, j));
    } else if j == entries.len() {
        assert forall|i: nat| i < j + 1 implies has_index(entries, i) by {
            if i < j {
            } else {
                assert(i == j);
            }
        }
        lemma_index_run_fits(entries, j + 1);
    } else {
        assert forall|i: nat| i < j + 1 implies has_index(entries, i) by {
            if i < j {
            } else {
                assert(i == j);
            }
        }
        lemma_row_count_exists(entries, j + 1);
    }
}

// ---------------------------------------------------------------------------
// Executable parsing
// ---------------------------------------------------------------------------

/// The entry of one trace line.
fn parse_line(line: &Vec<char>) -> (entry: Option<Result<TraceEntry, String>>)
    ensures
        match entry {
            None => line_entry(line@) is None,
            Some(Ok(e)) => line_entry(line@) == Some(Ok::<(nat, Seq<char>, Seq<char>), Seq<char>>(e@)),
            Some(Err(m)) => line_entry(line@) == Some(Err::<(nat, Seq<char>, Seq<char>), Seq<char>>(m@)),
        },
{
    let prefix = chars_of("vertical-case.");
    let rest = match strip_prefix(line, &prefix) {
        Some(r) => r,
        None => return None,
    };
    let (key, value) = match split_once(&rest, '=') {
        Some(parts) => parts,
        None => {
            let mut message = "vertical trace line missing '=': ".to_owned();
            let text = string_from_chars(line);
            message.append(text.as_str());
            return Some(Err(message));
        },
    };
    let (index_text, field) = match split_once(&key, '.') {
        Some(parts) => parts,
        None => {
            let mut message = "vertical trace key missing field: ".to_owned();
            let text = string_from_chars(&key);
            message.append(text.as_str());
            return Some(Err(message));
        },
    };
    match parse_unsigned(&index_text, usize::MAX as u64) {
        Err(k) => {
            let text = string_from_chars(&index_text);
            let quoted = debug_str(text.as_str());
            let mut message = "vertical trace index ".to_owned();
            message.append(quoted.as_str());
            message.append(" is invalid: ");
            message.append(int_error_message(k));
            Some(Err(message))
        },
        Ok(i) => Some(
            Ok(
                TraceEntry {
                    index: i as usize,
                    field: string_from_chars(&field),
                    value: string_from_chars(&value),
                },
            ),
        ),
    }
}

/// The entries of a trace text.
fn entries_of_text(stdout: &str) -> (entries: Result<Vec<TraceEntry>, String>)
    ensures
        match entries {
            Ok(es) => trace_entries(stdout@) == Ok::<Seq<(nat, Seq<char>, Seq<char>)>, Seq<char>>(
                seq_views(es@),
            ),
            Err(e) => trace_entries(stdout@) == Err::<Seq<(nat, Seq<char>, Seq<char>)>, Seq<char>>(
                e@,
            ),
        },
{
    let chars = chars_of(stdout);
    let lines = split_lines(&chars);
    let ghost all = char_views(lines@);
    let mut entries: Vec<TraceEntry> = Vec::new();
    let mut i: usize = 0;
    assert(all.take(0) =~= Seq::<Seq<char>>::empty());
    assert(seq_views(entries@) =~= Seq::<(nat, Seq<char>, Seq<char>)>::empty());
    while i < lines.len()
        invariant
            i <= lines.len(),
            all == char_views(lines@),
            all == text_lines(stdout@),
            entries_of(all.take(i as int)) == Ok::<Seq<(nat, Seq<char>, Seq<char>)>, Seq<char>>(
                seq_views(entries@),
            ),
        decreases lines.len() - i,
    {
        assert(all.take(i + 1).drop_last() =~= all.take(i as int));
        assert(all.take(i + 1).last() == lines@[i as int]@);
        match parse_line(&lines[i]) {
            None => {},
            Some(Ok(e)) => {
                let ghost before = seq_views(entries@);
                let ghost ev = e@;
                entries.push(e);
                assert(seq_views(entries@) =~= before.push(ev));
            },
            Some(Err(m)) => {
                proof {
                    lemma_entries_error_sticks(all, i + 1);
                }
                return Err(m);
            },
        }
        i += 1;
    }
    assert(all.take(i as int) =~= all);
    Ok(entries)
}

/// Whether some entry carries index `k`.
fn entries_have_index(entries: &Vec<TraceEntry>, k: usize) -> (found: bool)
    ensures
        found == has_index(seq_views(entries@), k as nat),
{
    let ghost views = seq_views(entries@);
    let mut i: usize = 0;
    while i < entries.len()
        invariant
            i <= entries.len(),
            views == seq_views(entries@),
            forall|j: int| 0 <= j < i ==> views[j].0 != k as nat,
        decreases entries.len() - i,
    {
        assert(views[i as int] == entries@[i as int]@);
        if entries[i].index == k {
            assert(views[i as int].0 == k as nat);
            return true;
        }
        i += 1;
    }
    false
}

/// The entries of index `k`, in trace order.
fn row_for(entries: &Vec<TraceEntry>, k: usize) -> (row: Vec<TraceEntry>)
    ensures
        seq_views(row@) == row_of(seq_views(entries@), k as nat),
{
    let ghost views = seq_views(entries@);
    let mut row: Vec<TraceEntry> = Vec::new();
    let mut i: usize = 0;
    assert(views.take(0) =~= Seq::<(nat, Seq<char>, Seq<char>)>::empty());
    assert(seq_views(row@) =~= Seq::<(nat, Seq<char>, Seq<char>)>::empty());
    while i < entries.len()
        invariant
            i <= entries.len(),
            views == seq_views(entries@),
            seq_views(row@) == row_of(views.take(i as int), k as nat),
        decreases entries.len() - i,
    {
        assert(views.take(i + 1).drop_last() =~= views.take(i as int));
        assert(views.take(i + 1).last() == entries@[i as int]@);
        if entries[i].index == k {
            let copy = TraceEntry {
                index: entries[i].index,
                field: entries[i].field.clone(),
                value: entries[i].value.clone(),
            };
            let ghost before = seq_views(row@);
            row.push(copy);
            assert(seq_views(row@) =~= before.push(entries@[i as int]@));
        }
        i += 1;
    }
    assert(views.take(i as int) =~= views);
    row
}

/// The smallest index above `m` that some entry carries.
fn next_index(entries: &Vec<TraceEntry>, m: usize) -> (next: Option<usize>)
    ensures
        match next {
            Some(i) => has_index(seq_views(entries@), i as nat) && i > m && forall|j: nat|
                has_index(seq_views(entries@), j) && j > m ==> i <= j,
            None => forall|j: nat| has_index(seq_views(entries@), j) ==> j <= m,
        },
{
    let ghost views = seq_views(entries@);
    let mut best: Option<usize> = None;
    let mut i: usize = 0;
    while i < entries.len()
        invariant
            i <= entries.len(),
            views == seq_views(entries@),
            match best {
                Some(b) => b > m && (exists|j: int| 0 <= j < i && views[j].0 == b as nat) && forall|
                    j: int,
                | 0 <= j < i && views[j].0 > m ==> b <= views[j].0,
                None => forall|j: int| 0 <= j < i ==> views[j].0 <= m,
            },
        decreases entries.len() - i,
    {
        assert(views[i as int] == entries@[i as int]@);
        let idx = entries[i].index;
        if idx > m {
            match best {
                Some(b) => {
                    if idx < b {
                        best = Some(idx);
                    }
                },
                None => {
                    best = Some(idx);
                },
            }
        }
        i += 1;
    }
    match best {
        Some(b) => {
            proof {
                assert forall|j: nat| has_index(views, j) && j > m implies b <= j by {
                    let w = choose|w: int| 0 <= w < views.len() && #[trigger] views[w].0 == j;
                }
            }
        },
        None => {
            proof {
                assert forall|j: nat| has_index(views, j) implies j <= m by {
                    let w = choose|w: int| 0 <= w < views.len() && #[trigger] views[w].0 == j;
                }
            }
        },
    }
    best
}

/// Parse a Rust-owned CLI trace emitted by the Scheme case-driver smoke.
pub fn parse_gerbil_loop_case_driver_vertical_trace(stdout: &str) -> (receipts: Result<
    Vec<GerbilLoopCaseDriverVerticalTraceReceipt>,
    GerbilLoopCaseDriverVerticalTraceError,
>)
    ensures
        match receipts {
            Ok(rs) => parse_error(stdout@) is None && receipts_of_trace(rs@, stdout@),
            Err(e) => parse_error(stdout@) == Some(e@),
        },
{
    let entries = match entries_of_text(stdout) {
        Ok(es) => es,
        Err(e) => return Err(GerbilLoopCaseDriverVerticalTraceError::new(e)),
    };
    let ghost views = seq_views(entries@);
    if entries.len() == 0 {
        return Err(
            GerbilLoopCaseDriverVerticalTraceError::new(
                "vertical trace did not contain any vertical-case rows".to_owned(),
            ),
        );
    }
    let mut receipts: Vec<GerbilLoopCaseDriverVerticalTraceReceipt> = Vec::new();
    let mut k: usize = 0;
    while k < entries.len() && entries_have_index(&entries, k)
        invariant
            k <= entries.len(),
            entries.len() > 0,
            views == seq_views(entries@),
            trace_entries(stdout@) == Ok::<Seq<(nat, Seq<char>, Seq<char>)>, Seq<char>>(views),
            forall|j: nat| j < k ==> has_index(views, j),
            first_row_error(views, k as nat) is None,
            receipts.len() == k,
            forall|j: int|
                0 <= j < k ==> receipt_decodes_row(
                    #[trigger] receipts@[j],
                    j as nat,
                    row_of(views, j as nat),
                ),
        decreases entries.len() - k,
    {
        let row = row_for(&entries, k);
        match vertical_trace_receipt_from_row(k, &row) {
            Ok(r) => {
                receipts.push(r);
            },
            Err(e) => {
                proof {
                    assert forall|i: nat| i < k + 1 implies has_index(views, i) by {
                        if i < k {
                        } else {
                            assert(i == k);
                        }
                    }
                    lemma_row_count_exists(views, 0);
                    let m = row_count(views);
                    assert(is_row_count(views, m));
                    if m <= k {
                        assert(has_index(views, m));
                    }
                    assert(first_row_error(views, (k + 1) as nat) == Some(e@));
                    lemma_row_error_sticks(views, (k + 1) as nat, m);
                }
                return Err(GerbilLoopCaseDriverVerticalTraceError::new(e));
            },
        }
        k += 1;
    }
    proof {
        if k == entries.len() && has_index(views, k as nat) {
            assert forall|i: nat| i < k + 1 implies has_index(views, i) by {
                if i < k {
                } else {
                    assert(i == k);
                }
            }
            lemma_index_run_fits(views, (k + 1) as nat);
        }
        assert(is_row_count(views, k as nat));
        lemma_row_count_is(views, k as nat);
    }
    match next_index(&entries, k) {
        Some(i) => {
            proof {
                let c = next_index_after(views, k as nat);
                assert(has_index(views, i as nat) && i > k);
                assert(has_index(views, c) && c > k && forall|j: nat|
                    has_index(views, j) && j > k ==> c <= j);
                assert(c == i);
            }
            let mut message = "vertical trace index ".to_owned();
            let found = u64_to_text(i as u64);
            message.append(found.as_str());
            message.append(" is not contiguous at ");
            let at = u64_to_text(k as u64);
            message.append(at.as_str());
            Err(GerbilLoopCaseDriverVerticalTraceError::new(message))
        },
        None => {
            proof {
                assert(!exists|i: nat| has_index(views, i) && i > k);
            }
            Ok(receipts)
        },
    }
}

/// Parse and validate a complete Scheme vertical mainline trace.
pub fn verify_gerbil_loop_case_driver_vertical_trace(stdout: &str, expected_count: usize) -> (receipts:
    Result<Vec<GerbilLoopCaseDriverVerticalTraceReceipt>, GerbilLoopCaseDriverVerticalTraceError>)
    ensures
        match receipts {
            Ok(rs) => verify_error(stdout@, expected_count as nat) is None && receipts_of_trace(
                rs@,
                stdout@,
            ),
            Err(e) => verify_error(stdout@, expected_count as nat) == Some(e@),
        },
{
    let receipts = match parse_gerbil_loop_case_driver_vertical_trace(stdout) {
        Ok(rs) => rs,
        Err(e) => return Err(e),
    };
    let ghost entries = trace_entries(stdout@)->Ok_0;
    if receipts.len() != expected_count {
        let mut message = "vertical trace receipt count ".to_owned();
        let count = u64_to_text(receipts.len() as u64);
        message.append(count.as_str());
        message.append(" does not match expected ");
        let expected = u64_to_text(expected_count as u64);
        message.append(expected.as_str());
        return Err(GerbilLoopCaseDriverVerticalTraceError::new(message));
    }
    let mut i: usize = 0;
    while i < receipts.len()
        invariant
            i <= receipts.len(),
            receipts.len() == expected_count,
            parse_error(stdout@) is None,
            receipts_of_trace(receipts@, stdout@),
            entries == trace_entries(stdout@)->Ok_0,
            first_trust_error(entries, i as nat) is None,
        decreases receipts.len() - i,
    {
        proof {
            lemma_trust_error_of_row(receipts@[i as int], i as nat, row_of(entries, i as nat));
        }
        match receipts[i].ensure_trusted(i) {
            Ok(()) => {},
            Err(e) => {
                proof {
                    lemma_trust_error_sticks(entries, (i + 1) as nat, expected_count as nat);
                }
                return Err(GerbilLoopCaseDriverVerticalTraceError::new(e));
            },
        }
        i += 1;
    }
    Ok(receipts)
}


/// No trust error among the rows `0..n` means no row below `n` has one.
proof fn lemma_no_trust_error_below(entries: Seq<(nat, Seq<char>, Seq<char>)>, n: nat, k: nat)
    requires
        first_trust_error(entries, n) is None,
        k < n,
    ensures
        row_trust_error(k, row_of(entries, k)) is None,
    decreases n,
{
    if k + 1 < n {
        lemma_no_trust_error_below(entries, (n - 1) as nat, k);
    }
}

/// A trace that verifies against `expected_count` also parses, to exactly
/// `expected_count` receipts, and every one of them passes the trust checks
/// under its own trace index.
pub proof fn law_verified_trace_is_parsed_and_trusted(
    stdout: Seq<char>,
    expected_count: nat,
    receipts: Seq<GerbilLoopCaseDriverVerticalTraceReceipt>,
)
    requires
        verify_error(stdout, expected_count) is None,
        receipts_of_trace(receipts, stdout),
    ensures
        parse_error(stdout) is None,
        receipts.len() == expected_count,
        forall|k: int| 0 <= k < receipts.len() ==> trusted_error(#[trigger] receipts[k], k as nat) is None,
{
    let entries = trace_entries(stdout)->Ok_0;
    assert forall|k: int| 0 <= k < receipts.len() implies trusted_error(
        #[trigger] receipts[k],
        k as nat,
    ) is None by {
        assert(receipt_decodes_row(receipts[k], k as nat, row_of(entries, k as nat)));
        lemma_trust_error_of_row(receipts[k], k as nat, row_of(entries, k as nat));
        lemma_no_trust_error_below(entries, expected_count, k as nat);
    }
}

/// A trace with a parse error fails verification with that same error, whatever
/// count is expected.
pub proof fn law_parse_error_fails_verification(stdout: Seq<char>, expected_count: nat)
    requires
        parse_error(stdout) is Some,
    ensures
        verify_error(stdout, expected_count) == parse_error(stdout),
{
}

/// No trust error among the first `n` rows when each of their receipts passes.
proof fn lemma_trusted_rows(
    stdout: Seq<char>,
    receipts: Seq<GerbilLoopCaseDriverVerticalTraceReceipt>,
    n: nat,
)
    requires
        receipts_of_trace(receipts, stdout),
        n <= receipts.len(),
        forall|k: int| 0 <= k < receipts.len() ==> trusted_error(#[trigger] receipts[k], k as nat) is None,
    ensures
        first_trust_error(trace_entries(stdout)->Ok_0, n) is None,
    decreases n,
{
    if n > 0 {
        let entries = trace_entries(stdout)->Ok_0;
        let k = (n - 1) as nat;
        lemma_trusted_rows(stdout, receipts, k);
        assert(receipt_decodes_row(receipts[k as int], k, row_of(entries, k)));
        lemma_trust_error_of_row(receipts[k as int], k, row_of(entries, k));
    }
}

/// A trace verifies against `expected_count` exactly when it parses to
/// `expected_count` receipts that each pass the trust checks under their own
/// index; verification then gives those receipts, unchanged and in order.
pub proof fn law_verify_is_parse_and_trust(
    stdout: Seq<char>,
    expected_count: nat,
    receipts: Seq<GerbilLoopCaseDriverVerticalTraceReceipt>,
)
    requires
        parse_error(stdout) is None,
        receipts_of_trace(receipts, stdout),
    ensures
        verify_error(stdout, expected_count) is None <==> (receipts.len() == expected_count
            && forall|k: int|
            0 <= k < receipts.len() ==> trusted_error(#[trigger] receipts[k], k as nat) is None),
{
    if verify_error(stdout, expected_count) is None {
        law_verified_trace_is_parsed_and_trusted(stdout, expected_count, receipts);
    }
    if receipts.len() == expected_count && forall|k: int|
        0 <= k < receipts.len() ==> trusted_error(#[trigger] receipts[k], k as nat) is None {
        lemma_trusted_rows(stdout, receipts, expected_count);
    }
}

/// A line that does not start with `vertical-case.` changes nothing: the
/// trace entries of lines are those of the lines without it, wherever it
/// stands. Parsing and verifying read a trace only through its entries.
pub proof fn law_other_lines_are_ignored(a: Seq<Seq<char>>, line: Seq<char>, b: Seq<Seq<char>>)
    requires
        strip_prefix_spec(line, "vertical-case."@) is None,
    ensures
        entries_of(a + seq![line] + b) == entries_of(a + b),
    decreases b.len(),
{
    if b.len() == 0 {
        assert((a + seq![line] + b).drop_last() =~= a);
        assert(a + b =~= a);
    } else {
        law_other_lines_are_ignored(a, line, b.drop_last());
        assert((a + seq![line] + b).drop_last() =~= a + seq![line] + b.drop_last());
        assert((a + b).drop_last() =~= a + b.drop_last());
        assert((a + seq![line] + b).last() == b.last());
        assert((a + b).last() == b.last());
    }
}

} // verus!
