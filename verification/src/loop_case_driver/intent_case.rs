//! Intent-case artifact bundle planning for Scheme-owned loop cases.
//!
//! A verified vertical trace receipt is planned into the artifact references,
//! trace entries and manifest request of an intent-case lab run, as plain
//! values; building the harness's manifest from the plan is the caller's part.

use vstd::prelude::*;

use super::ids::GerbilLoopCaseDriverCapability;
use super::real_llm_case::{find_from, find_text};
use super::vertical_trace::types::GerbilLoopCaseDriverVerticalTraceReceipt;
use crate::text::{chars_of, decimal_text, seq_views, string_from_chars, text_eq, u64_to_text};

verus! {

/// Runtime owner recorded for Rust-driven execution of Scheme-projected cases.
pub const GERBIL_LOOP_CASE_DRIVER_INTENT_CASE_RUNTIME_OWNER: &'static str = "marlin-agent-core";

/// Directory under which intent-case artifacts are laid out.
pub const INTENT_CASE_ARTIFACT_ROOT: &'static str = "artifacts/intent-cases";

/// Kind of an intent-case artifact.
#[derive(Clone, Copy, Debug, PartialEq, Eq, Structural)]
pub enum IntentCaseArtifactKind {
    Intent,
    PolicyPack,
    LoopProgram,
    VerticalTrace,
    ExecutionTrace,
    ModelEvents,
    ToolCalls,
    SandboxReceipts,
    MemoryReceipts,
    DiffPatch,
    TestBefore,
    TestAfter,
    VerifierReceipt,
    ReplayScript,
    PolicyExplanation,
}

impl IntentCaseArtifactKind {
    /// The lane an artifact of this kind is filed under in artifact ids.
    pub open spec fn lane(self) -> Seq<char> {
        match self {
            IntentCaseArtifactKind::Intent => "intent"@,
            IntentCaseArtifactKind::PolicyPack => "policy-pack"@,
            IntentCaseArtifactKind::LoopProgram => "loop-program"@,
            IntentCaseArtifactKind::VerticalTrace => "vertical-trace"@,
            IntentCaseArtifactKind::ExecutionTrace => "execution-trace"@,
            IntentCaseArtifactKind::ModelEvents => "model-events"@,
            IntentCaseArtifactKind::ToolCalls => "tool-calls"@,
            IntentCaseArtifactKind::SandboxReceipts => "sandbox-receipts"@,
            IntentCaseArtifactKind::MemoryReceipts => "memory-receipts"@,
            IntentCaseArtifactKind::DiffPatch => "diff-patch"@,
            IntentCaseArtifactKind::TestBefore => "test-before"@,
            IntentCaseArtifactKind::TestAfter => "test-after"@,
            IntentCaseArtifactKind::VerifierReceipt => "verifier-receipt"@,
            IntentCaseArtifactKind::ReplayScript => "replay-script"@,
            IntentCaseArtifactKind::PolicyExplanation => "policy-explanation"@,
        }
    }

    /// The file an artifact of this kind is written to under the run's prefix.
    pub open spec fn file_name(self) -> Seq<char> {
        match self {
            IntentCaseArtifactKind::Intent => "00-intent.org"@,
            IntentCaseArtifactKind::PolicyPack => "10-policy-pack.receipt"@,
            IntentCaseArtifactKind::LoopProgram => "20-loop-program.receipt"@,
            IntentCaseArtifactKind::VerticalTrace => "30-vertical-trace.receipt"@,
            IntentCaseArtifactKind::ExecutionTrace => "40-execution-trace.receipt"@,
            IntentCaseArtifactKind::ModelEvents => "50-model-events.receipt"@,
            IntentCaseArtifactKind::ToolCalls => "51-tool-calls.receipt"@,
            IntentCaseArtifactKind::MemoryReceipts => "52-memory-receipts.receipt"@,
            IntentCaseArtifactKind::SandboxReceipts => "53-sandbox-receipts.receipt"@,
            IntentCaseArtifactKind::DiffPatch => "60-diff.patch"@,
            IntentCaseArtifactKind::TestBefore => "61-test-before.receipt"@,
            IntentCaseArtifactKind::VerifierReceipt => "62-verifier-receipt.receipt"@,
            IntentCaseArtifactKind::TestAfter => "63-test-after.receipt"@,
            IntentCaseArtifactKind::PolicyExplanation => "80-policy-explanation.org"@,
            IntentCaseArtifactKind::ReplayScript => "90-replay-script.ss"@,
        }
    }

    /// Artifacts of this kind carry the policy digest as their content digest.
    pub open spec fn carries_policy_digest(self) -> bool {
        self == IntentCaseArtifactKind::PolicyPack || self == IntentCaseArtifactKind::LoopProgram
    }

    /// The lane an artifact of this kind is filed under in artifact ids.
    pub fn lane_str(self) -> (text: &'static str)
        ensures
            text@ == self.lane(),
    {
        match self {
            IntentCaseArtifactKind::Intent => "intent",
            IntentCaseArtifactKind::PolicyPack => "policy-pack",
            IntentCaseArtifactKind::LoopProgram => "loop-program",
            IntentCaseArtifactKind::VerticalTrace => "vertical-trace",
            IntentCaseArtifactKind::ExecutionTrace => "execution-trace",
            IntentCaseArtifactKind::ModelEvents => "model-events",
            IntentCaseArtifactKind::ToolCalls => "tool-calls",
            IntentCaseArtifactKind::SandboxReceipts => "sandbox-receipts",
            IntentCaseArtifactKind::MemoryReceipts => "memory-receipts",
            IntentCaseArtifactKind::DiffPatch => "diff-patch",
            IntentCaseArtifactKind::TestBefore => "test-before",
            IntentCaseArtifactKind::TestAfter => "test-after",
            IntentCaseArtifactKind::VerifierReceipt => "verifier-receipt",
            IntentCaseArtifactKind::ReplayScript => "replay-script",
            IntentCaseArtifactKind::PolicyExplanation => "policy-explanation",
        }
    }

    /// The file an artifact of this kind is written to under the run's prefix.
    pub fn file_name_str(self) -> (text: &'static str)
        ensures
            text@ == self.file_name(),
    {
        match self {
            IntentCaseArtifactKind::Intent => "00-intent.org",
            IntentCaseArtifactKind::PolicyPack => "10-policy-pack.receipt",
            IntentCaseArtifactKind::LoopProgram => "20-loop-program.receipt",
            IntentCaseArtifactKind::VerticalTrace => "30-vertical-trace.receipt",
            IntentCaseArtifactKind::ExecutionTrace => "40-execution-trace.receipt",
            IntentCaseArtifactKind::ModelEvents => "50-model-events.receipt",
            IntentCaseArtifactKind::ToolCalls => "51-tool-calls.receipt",
            IntentCaseArtifactKind::MemoryReceipts => "52-memory-receipts.receipt",
            IntentCaseArtifactKind::SandboxReceipts => "53-sandbox-receipts.receipt",
            IntentCaseArtifactKind::DiffPatch => "60-diff.patch",
            IntentCaseArtifactKind::TestBefore => "61-test-before.receipt",
            IntentCaseArtifactKind::VerifierReceipt => "62-verifier-receipt.receipt",
            IntentCaseArtifactKind::TestAfter => "63-test-after.receipt",
            IntentCaseArtifactKind::PolicyExplanation => "80-policy-explanation.org",
            IntentCaseArtifactKind::ReplayScript => "90-replay-script.ss",
        }
    }
}

// ---------------------------------------------------------------------------
// Texts
// ---------------------------------------------------------------------------

/// A character kept as is in an artifact path segment.
pub open spec fn is_safe_path_char(c: char) -> bool {
    ||| (48 <= (c as u32) && (c as u32) <= 57)
    ||| (65 <= (c as u32) && (c as u32) <= 90)
    ||| (97 <= (c as u32) && (c as u32) <= 122)
    ||| c == '-'
    ||| c == '_'
    ||| c == '.'
}

/// `value` with every character that is not ASCII alphanumeric, `-`, `_` or
/// `.` replaced by `_`; `unnamed` for an empty value.
pub open spec fn safe_path_segment(value: Seq<char>) -> Seq<char> {
    if value.len() == 0 {
        "unnamed"@
    } else {
        value.map_values(|c: char| if is_safe_path_char(c) { c } else { '_' })
    }
}

/// The directory of a run's artifacts.
pub open spec fn artifact_prefix(case_id: Seq<char>, run_id: Seq<char>) -> Seq<char> {
    INTENT_CASE_ARTIFACT_ROOT@ + "/"@ + safe_path_segment(case_id) + "/"@ + safe_path_segment(
        run_id,
    )
}

/// The lowercase hexadecimal digit of `d`.
pub open spec fn hex_digit(d: nat) -> char {
    if d < 10 {
        ((d + 48) as u32) as char
    } else {
        ((d + 87) as u32) as char
    }
}

/// Two lowercase hexadecimal digits per octet.
pub open spec fn hex_text(octets: Seq<u8>) -> Seq<char>
    decreases octets.len(),
{
    if octets.len() == 0 {
        Seq::empty()
    } else {
        hex_text(octets.drop_last()) + seq![
            hex_digit((octets.last() / 16) as nat),
            hex_digit((octets.last() % 16) as nat),
        ]
    }
}

fn hex_digit_char(d: u8) -> (c: char)
    requires
        d < 16,
    ensures
        c == hex_digit(d as nat),
{
    match d {
        0 => '0',
        1 => '1',
        2 => '2',
        3 => '3',
        4 => '4',
        5 => '5',
        6 => '6',
        7 => '7',
        8 => '8',
        9 => '9',
        10 => 'a',
        11 => 'b',
        12 => 'c',
        13 => 'd',
        14 => 'e',
        _ => 'f',
    }
}

/// The policy digest in lowercase hexadecimal.
pub fn policy_digest_hex(octets: &Vec<u8>) -> (digest: String)
    ensures
        digest@ == hex_text(octets@),
{
    let mut chars: Vec<char> = Vec::new();
    let mut i: usize = 0;
    while i < octets.len()
        invariant
            i <= octets.len(),
            chars@ == hex_text(octets@.take(i as int)),
        decreases octets.len() - i,
    {
        assert(octets@.take(i + 1).drop_last() =~= octets@.take(i as int));
        let octet = octets[i];
        chars.push(hex_digit_char(octet / 16));
        chars.push(hex_digit_char(octet % 16));
        i += 1;
    }
    assert(octets@.take(i as int) =~= octets@);
    string_from_chars(&chars)
}

/// A path segment from `value`; see [`safe_path_segment`].
pub fn safe_artifact_path_segment(value: &str) -> (segment: String)
    ensures
        segment@ == safe_path_segment(value@),
{
    let chars = chars_of(value);
    if chars.len() == 0 {
        return "unnamed".to_owned();
    }
    let mut out: Vec<char> = Vec::new();
    let mut i: usize = 0;
    while i < chars.len()
        invariant
            i <= chars.len(),
            out@ == chars@.take(i as int).map_values(
                |c: char| if is_safe_path_char(c) { c } else { '_' },
            ),
        decreases chars.len() - i,
    {
        let c = chars[i];
        let n = c as u32;
        let safe = (48 <= n && n <= 57) || (65 <= n && n <= 90) || (97 <= n && n <= 122) || c
            == '-' || c == '_' || c == '.';
        let ghost before = out@;
        if safe {
            out.push(c);
        } else {
            out.push('_');
        }
        assert(chars@.take(i + 1) =~= chars@.take(i as int).push(c));
        assert(out@ =~= chars@.take(i + 1).map_values(
            |c: char| if is_safe_path_char(c) { c } else { '_' },
        ));
        i += 1;
    }
    assert(chars@.take(i as int) =~= chars@);
    string_from_chars(&out)
}


// ---------------------------------------------------------------------------
// What a receipt asks for
// ---------------------------------------------------------------------------

/// The receipt carries the capability tag.
pub open spec fn has_tag(r: GerbilLoopCaseDriverVerticalTraceReceipt, tag: Seq<char>) -> bool {
    seq_views(r.capability_tags@).contains(tag)
}

/// Some transition of the receipt takes the action.
pub open spec fn has_action(r: GerbilLoopCaseDriverVerticalTraceReceipt, action: Seq<char>) -> bool {
    seq_views(r.transition_actions@).contains(action)
}

/// The case runs tools in a sandbox or under a denylist.
pub open spec fn is_sandboxed(r: GerbilLoopCaseDriverVerticalTraceReceipt) -> bool {
    has_tag(r, "+sandbox"@) || has_tag(r, "+denylist"@)
}

/// The case repairs a workspace: it needs a live LLM or is tagged `+repair`.
pub open spec fn needs_repair(r: GerbilLoopCaseDriverVerticalTraceReceipt) -> bool {
    r.live_llm_required || has_tag(r, "+repair"@)
}

/// `kinds` where `condition` holds, nothing otherwise.
pub open spec fn kinds_when(condition: bool, kinds: Seq<IntentCaseArtifactKind>) -> Seq<
    IntentCaseArtifactKind,
> {
    if condition {
        kinds
    } else {
        Seq::empty()
    }
}

/// The artifacts every run carries.
pub open spec fn core_artifact_kinds() -> Seq<IntentCaseArtifactKind> {
    seq![
        IntentCaseArtifactKind::Intent,
        IntentCaseArtifactKind::PolicyPack,
        IntentCaseArtifactKind::LoopProgram,
        IntentCaseArtifactKind::VerticalTrace,
        IntentCaseArtifactKind::ExecutionTrace,
        IntentCaseArtifactKind::PolicyExplanation,
        IntentCaseArtifactKind::ReplayScript,
    ]
}

/// The artifacts a run carries when the receipt asks for them.
pub open spec fn optional_artifact_kinds(r: GerbilLoopCaseDriverVerticalTraceReceipt) -> Seq<
    IntentCaseArtifactKind,
> {
    kinds_when(has_action(r, "invoke_model"@), seq![IntentCaseArtifactKind::ModelEvents])
        + kinds_when(r.tool_intent_count > 0, seq![IntentCaseArtifactKind::ToolCalls])
        + kinds_when(r.memory_intent_count > 0, seq![IntentCaseArtifactKind::MemoryReceipts])
        + kinds_when(is_sandboxed(r), seq![IntentCaseArtifactKind::SandboxReceipts])
        + kinds_when(
        needs_repair(r),
        seq![
            IntentCaseArtifactKind::DiffPatch,
            IntentCaseArtifactKind::TestBefore,
            IntentCaseArtifactKind::TestAfter,
        ],
    ) + kinds_when(has_action(r, "verify"@), seq![IntentCaseArtifactKind::VerifierReceipt])
}

/// The artifacts a trace step refers to, beyond the vertical and execution traces.
pub open spec fn action_artifact_kinds(
    action: Seq<char>,
    r: GerbilLoopCaseDriverVerticalTraceReceipt,
) -> Seq<IntentCaseArtifactKind> {
    if action == "invoke_model"@ {
        seq![IntentCaseArtifactKind::ModelEvents]
    } else if action == "dispatch_tools"@ {
        kinds_when(r.tool_intent_count > 0, seq![IntentCaseArtifactKind::ToolCalls]) + kinds_when(
            is_sandboxed(r),
            seq![IntentCaseArtifactKind::SandboxReceipts],
        ) + kinds_when(
            needs_repair(r),
            seq![IntentCaseArtifactKind::DiffPatch, IntentCaseArtifactKind::TestBefore],
        )
    } else if action == "rewrite_graph"@ && needs_repair(r) {
        seq![IntentCaseArtifactKind::DiffPatch]
    } else if action == "verify"@ {
        seq![IntentCaseArtifactKind::VerifierReceipt] + kinds_when(
            needs_repair(r),
            seq![IntentCaseArtifactKind::TestAfter],
        )
    } else if find_from(action, "memory"@, 0) is Some && r.memory_intent_count > 0 {
        seq![IntentCaseArtifactKind::MemoryReceipts]
    } else {
        Seq::empty()
    }
}

/// The tool resource key of a case's tool steps.
pub open spec fn tool_resource_key(r: GerbilLoopCaseDriverVerticalTraceReceipt) -> Seq<char> {
    if has_tag(r, "+policy-combination"@) {
        "agent-flow.policy-combination-tool"@
    } else if has_tag(r, "+memory-recall"@) || has_tag(r, "+tool-selection"@) {
        "agent-flow.memory-selected-tool"@
    } else if has_tag(r, "+tool-repair"@) || has_tag(r, "+repair"@) {
        "agent-flow.repair-tool"@
    } else if is_sandboxed(r) {
        "agent-flow.sandboxed-tool"@
    } else {
        "agent-flow.tool-intent"@
    }
}

/// The sandbox profile of a case's tool steps.
pub open spec fn tool_sandbox_profile(r: GerbilLoopCaseDriverVerticalTraceReceipt) -> Seq<char> {
    if has_tag(r, "+policy-combination"@) {
        "policy-combination-tool"@
    } else if has_tag(r, "+denylist"@) {
        "sandbox-denylist"@
    } else if has_tag(r, "+sandbox"@) {
        "tool-sandbox"@
    } else if has_tag(r, "+tool-repair"@) || has_tag(r, "+repair"@) {
        "workspace-file-repair"@
    } else {
        "scripted-tool"@
    }
}

/// The id of a case's artifact of a kind: `case:lane`.
pub open spec fn artifact_id_text(case_id: Seq<char>, kind: IntentCaseArtifactKind) -> Seq<char> {
    case_id + ":"@ + kind.lane()
}

// ---------------------------------------------------------------------------
// Plans
// ---------------------------------------------------------------------------

/// A planned artifact reference.
#[derive(Clone, Debug, PartialEq, Eq)]
pub struct IntentCaseArtifactRefPlan {
    pub artifact_id: String,
    pub kind: IntentCaseArtifactKind,
    pub path: String,
    pub content_digest: Option<String>,
}

/// The text of an optional string.
pub open spec fn opt_view(value: Option<String>) -> Option<Seq<char>> {
    match value {
        Some(s) => Some(s@),
        None => None,
    }
}

/// The artifact reference plans as texts.
pub open spec fn artifact_views(artifacts: Seq<IntentCaseArtifactRefPlan>) -> Seq<
    (Seq<char>, IntentCaseArtifactKind, Seq<char>, Option<Seq<char>>),
> {
    artifacts.map_values(
        |a: IntentCaseArtifactRefPlan| (a.artifact_id@, a.kind, a.path@, opt_view(a.content_digest)),
    )
}

/// The planned reference to a case's artifact of a kind.
pub open spec fn planned_artifact(
    case_id: Seq<char>,
    prefix: Seq<char>,
    digest: Seq<char>,
    kind: IntentCaseArtifactKind,
) -> (Seq<char>, IntentCaseArtifactKind, Seq<char>, Option<Seq<char>>) {
    (
        artifact_id_text(case_id, kind),
        kind,
        prefix + "/"@ + kind.file_name(),
        if kind.carries_policy_digest() {
            Some(digest)
        } else {
            None
        },
    )
}

/// The artifacts of a run, in order.
pub open spec fn planned_artifacts(
    r: GerbilLoopCaseDriverVerticalTraceReceipt,
    prefix: Seq<char>,
    digest: Seq<char>,
) -> Seq<(Seq<char>, IntentCaseArtifactKind, Seq<char>, Option<Seq<char>>)> {
    (core_artifact_kinds() + optional_artifact_kinds(r)).map_values(
        |kind: IntentCaseArtifactKind| planned_artifact(r.case_id@, prefix, digest, kind),
    )
}

/// A planned trace step.
#[derive(Clone, Debug, PartialEq, Eq)]
pub struct IntentCaseTraceEntryPlan {
    pub trace_id: String,
    pub step_index: u64,
    pub transition_id: String,
    pub action: String,
    pub event: String,
    pub runtime_owner: String,
    pub artifact_refs: Vec<String>,
    pub model_invocation_id: Option<String>,
    pub tool_call_id: Option<String>,
    pub resource_key: Option<String>,
    pub sandbox_profile: Option<String>,
}

/// A planned trace step, as texts.
pub struct IntentCaseTraceEntryView {
    pub trace_id: Seq<char>,
    pub step_index: u64,
    pub transition_id: Seq<char>,
    pub action: Seq<char>,
    pub event: Seq<char>,
    pub runtime_owner: Seq<char>,
    pub artifact_refs: Seq<Seq<char>>,
    pub model_invocation_id: Option<Seq<char>>,
    pub tool_call_id: Option<Seq<char>>,
    pub resource_key: Option<Seq<char>>,
    pub sandbox_profile: Option<Seq<char>>,
}

impl View for IntentCaseTraceEntryPlan {
    type V = IntentCaseTraceEntryView;

    open spec fn view(&self) -> IntentCaseTraceEntryView {
        IntentCaseTraceEntryView {
            trace_id: self.trace_id@,
            step_index: self.step_index,
            transition_id: self.transition_id@,
            action: self.action@,
            event: self.event@,
            runtime_owner: self.runtime_owner@,
            artifact_refs: seq_views(self.artifact_refs@),
            model_invocation_id: opt_view(self.model_invocation_id),
            tool_call_id: opt_view(self.tool_call_id),
            resource_key: opt_view(self.resource_key),
            sandbox_profile: opt_view(self.sandbox_profile),
        }
    }
}

/// The trace step `step` (counting from one) of a transition.
pub open spec fn planned_entry(
    r: GerbilLoopCaseDriverVerticalTraceReceipt,
    step: u64,
    action: Seq<char>,
    event: Seq<char>,
) -> IntentCaseTraceEntryView {
    let case_id = r.case_id@;
    let program = r.loop_program_id@;
    let dispatch = action == "dispatch_tools"@;
    IntentCaseTraceEntryView {
        trace_id: case_id + ":trace-step-"@ + decimal_text(step as nat),
        step_index: step,
        transition_id: program + ":transition-"@ + decimal_text(step as nat),
        action,
        event,
        runtime_owner: GERBIL_LOOP_CASE_DRIVER_INTENT_CASE_RUNTIME_OWNER@,
        artifact_refs: (seq![IntentCaseArtifactKind::VerticalTrace, IntentCaseArtifactKind::ExecutionTrace]
            + action_artifact_kinds(action, r)).map_values(
            |kind: IntentCaseArtifactKind| artifact_id_text(case_id, kind),
        ),
        model_invocation_id: if action == "invoke_model"@ {
            Some(case_id + ":"@ + program + ":model-invocation-"@ + decimal_text(step as nat))
        } else {
            None
        },
        tool_call_id: if dispatch {
            Some(case_id + ":"@ + program + ":tool-call-"@ + decimal_text(step as nat))
        } else {
            None
        },
        resource_key: if dispatch {
            Some(tool_resource_key(r))
        } else {
            None
        },
        sandbox_profile: if dispatch {
            Some(tool_sandbox_profile(r))
        } else {
            None
        },
    }
}

/// Number of trace steps: one per transition that has both an action and an event.
pub open spec fn step_count(r: GerbilLoopCaseDriverVerticalTraceReceipt) -> nat {
    if r.transition_actions@.len() <= r.transition_events@.len() {
        r.transition_actions@.len()
    } else {
        r.transition_events@.len()
    }
}

/// Planned intent-case artifact manifest of a run.
#[derive(Clone, Debug, PartialEq, Eq)]
pub struct IntentCaseManifestPlan {
    pub case_id: String,
    pub run_id: String,
    pub policy_epoch: u64,
    pub policy_digest: String,
    pub loop_program_id: String,
    pub artifact_prefix: String,
    pub trace_entries: Vec<IntentCaseTraceEntryPlan>,
    pub artifacts: Vec<IntentCaseArtifactRefPlan>,
}

/// `plan` is the manifest plan of receipt `r` for run `run_id`.
pub open spec fn is_manifest_plan(
    plan: IntentCaseManifestPlan,
    r: GerbilLoopCaseDriverVerticalTraceReceipt,
    run_id: Seq<char>,
) -> bool {
    let prefix = artifact_prefix(r.case_id@, run_id);
    let digest = hex_text(r.policy_digest_octets@);
    &&& plan.case_id@ == r.case_id@
    &&& plan.run_id@ == run_id
    &&& plan.policy_epoch == r.loop_program_policy_epoch
    &&& plan.policy_digest@ == digest
    &&& plan.loop_program_id@ == r.loop_program_id@
    &&& plan.artifact_prefix@ == prefix
    &&& plan.trace_entries@.len() == step_count(r)
    &&& forall|i: int|
        0 <= i < plan.trace_entries@.len() ==> (#[trigger] plan.trace_entries@[i])@ == planned_entry(
            r,
            (i + 1) as u64,
            r.transition_actions@[i]@,
            r.transition_events@[i]@,
        )
    &&& artifact_views(plan.artifacts@) == planned_artifacts(r, prefix, digest)
}


// ---------------------------------------------------------------------------
// Planning
// ---------------------------------------------------------------------------

/// Whether the receipt carries the capability tag.
fn receipt_has_tag(r: &GerbilLoopCaseDriverVerticalTraceReceipt, tag: &str) -> (found: bool)
    ensures
        found == has_tag(*r, tag@),
{
    r.has_capability(&GerbilLoopCaseDriverCapability::new(tag))
}

/// Whether some transition of the receipt takes the action.
fn receipt_has_action(r: &GerbilLoopCaseDriverVerticalTraceReceipt, action: &str) -> (found: bool)
    ensures
        found == has_action(*r, action@),
{
    let ghost views = seq_views(r.transition_actions@);
    let mut i: usize = 0;
    while i < r.transition_actions.len()
        invariant
            i <= r.transition_actions.len(),
            views == seq_views(r.transition_actions@),
            forall|j: int| 0 <= j < i ==> views[j] != action@,
        decreases r.transition_actions.len() - i,
    {
        if text_eq(r.transition_actions[i].as_str(), action) {
            assert(views[i as int] == action@);
            return true;
        }
        i += 1;
    }
    false
}

/// Whether the case runs tools in a sandbox or under a denylist.
fn receipt_is_sandboxed(r: &GerbilLoopCaseDriverVerticalTraceReceipt) -> (sandboxed: bool)
    ensures
        sandboxed == is_sandboxed(*r),
{
    receipt_has_tag(r, "+sandbox") || receipt_has_tag(r, "+denylist")
}

/// Whether the case repairs a workspace.
fn receipt_needs_repair(r: &GerbilLoopCaseDriverVerticalTraceReceipt) -> (repair: bool)
    ensures
        repair == needs_repair(*r),
{
    r.live_llm_required || receipt_has_tag(r, "+repair")
}

/// The artifacts a run carries when the receipt asks for them, in order.
pub fn optional_intent_case_artifact_kinds(r: &GerbilLoopCaseDriverVerticalTraceReceipt) -> (kinds:
    Vec<IntentCaseArtifactKind>)
    ensures
        kinds@ == optional_artifact_kinds(*r),
{
    let mut kinds: Vec<IntentCaseArtifactKind> = Vec::new();
    let ghost k0 = kinds_when(has_action(*r, "invoke_model"@), seq![IntentCaseArtifactKind::ModelEvents]);
    if receipt_has_action(r, "invoke_model") {
        kinds.push(IntentCaseArtifactKind::ModelEvents);
    }
    assert(kinds@ =~= k0);
    let ghost k1 = k0 + kinds_when(r.tool_intent_count > 0, seq![IntentCaseArtifactKind::ToolCalls]);
    if r.tool_intent_count > 0 {
        kinds.push(IntentCaseArtifactKind::ToolCalls);
    }
    assert(kinds@ =~= k1);
    let ghost k2 = k1 + kinds_when(
        r.memory_intent_count > 0,
        seq![IntentCaseArtifactKind::MemoryReceipts],
    );
    if r.memory_intent_count > 0 {
        kinds.push(IntentCaseArtifactKind::MemoryReceipts);
    }
    assert(kinds@ =~= k2);
    let ghost k3 = k2 + kinds_when(is_sandboxed(*r), seq![IntentCaseArtifactKind::SandboxReceipts]);
    if receipt_is_sandboxed(r) {
        kinds.push(IntentCaseArtifactKind::SandboxReceipts);
    }
    assert(kinds@ =~= k3);
    let ghost k4 = k3 + kinds_when(
        needs_repair(*r),
        seq![
            IntentCaseArtifactKind::DiffPatch,
            IntentCaseArtifactKind::TestBefore,
            IntentCaseArtifactKind::TestAfter,
        ],
    );
    if receipt_needs_repair(r) {
        kinds.push(IntentCaseArtifactKind::DiffPatch);
        kinds.push(IntentCaseArtifactKind::TestBefore);
        kinds.push(IntentCaseArtifactKind::TestAfter);
    }
    assert(kinds@ =~= k4);
    let ghost k5 = k4 + kinds_when(
        has_action(*r, "verify"@),
        seq![IntentCaseArtifactKind::VerifierReceipt],
    );
    if receipt_has_action(r, "verify") {
        kinds.push(IntentCaseArtifactKind::VerifierReceipt);
    }
    assert(kinds@ =~= k5);
    kinds
}

/// Whether `action` mentions memory.
fn mentions_memory(action: &str) -> (found: bool)
    ensures
        found == (find_from(action@, "memory"@, 0) is Some),
{
    let text = chars_of(action);
    let pattern = chars_of("memory");
    find_text(&text, &pattern).is_some()
}

/// The artifacts a trace step refers to, beyond the vertical and execution traces.
pub fn trace_entry_action_artifact_kinds(
    action: &str,
    r: &GerbilLoopCaseDriverVerticalTraceReceipt,
) -> (kinds: Vec<IntentCaseArtifactKind>)
    ensures
        kinds@ == action_artifact_kinds(action@, *r),
{
    let mut kinds: Vec<IntentCaseArtifactKind> = Vec::new();
    if text_eq(action, "invoke_model") {
        kinds.push(IntentCaseArtifactKind::ModelEvents);
        assert(kinds@ =~= seq![IntentCaseArtifactKind::ModelEvents]);
    } else if text_eq(action, "dispatch_tools") {
        let ghost k0 = kinds_when(r.tool_intent_count > 0, seq![IntentCaseArtifactKind::ToolCalls]);
        if r.tool_intent_count > 0 {
            kinds.push(IntentCaseArtifactKind::ToolCalls);
        }
        assert(kinds@ =~= k0);
        let ghost k1 = k0 + kinds_when(
            is_sandboxed(*r),
            seq![IntentCaseArtifactKind::SandboxReceipts],
        );
        if receipt_is_sandboxed(r) {
            kinds.push(IntentCaseArtifactKind::SandboxReceipts);
        }
        assert(kinds@ =~= k1);
        let ghost k2 = k1 + kinds_when(
            needs_repair(*r),
            seq![IntentCaseArtifactKind::DiffPatch, IntentCaseArtifactKind::TestBefore],
        );
        if receipt_needs_repair(r) {
            kinds.push(IntentCaseArtifactKind::DiffPatch);
            kinds.push(IntentCaseArtifactKind::TestBefore);
        }
        assert(kinds@ =~= k2);
    } else if text_eq(action, "rewrite_graph") && receipt_needs_repair(r) {
        kinds.push(IntentCaseArtifactKind::DiffPatch);
        assert(kinds@ =~= seq![IntentCaseArtifactKind::DiffPatch]);
    } else if text_eq(action, "verify") {
        kinds.push(IntentCaseArtifactKind::VerifierReceipt);
        let ghost k0 = seq![IntentCaseArtifactKind::VerifierReceipt];
        assert(kinds@ =~= k0);
        if receipt_needs_repair(r) {
            kinds.push(IntentCaseArtifactKind::TestAfter);
        }
        assert(kinds@ =~= k0 + kinds_when(
            needs_repair(*r),
            seq![IntentCaseArtifactKind::TestAfter],
        ));
    } else if mentions_memory(action) && r.memory_intent_count > 0 {
        kinds.push(IntentCaseArtifactKind::MemoryReceipts);
        assert(kinds@ =~= seq![IntentCaseArtifactKind::MemoryReceipts]);
    } else {
        assert(kinds@ =~= Seq::<IntentCaseArtifactKind>::empty());
    }
    kinds
}

/// The id of a case's artifact of a kind.
fn artifact_id(case_id: &str, kind: IntentCaseArtifactKind) -> (id: String)
    ensures
        id@ == artifact_id_text(case_id@, kind),
{
    let mut id = case_id.to_owned();
    id.append(":");
    id.append(kind.lane_str());
    id
}

/// The planned reference to a case's artifact of a kind.
fn artifact_ref(case_id: &str, prefix: &str, digest: &str, kind: IntentCaseArtifactKind) -> (plan:
    IntentCaseArtifactRefPlan)
    ensures
        (plan.artifact_id@, plan.kind, plan.path@, opt_view(plan.content_digest)) == planned_artifact(
            case_id@,
            prefix@,
            digest@,
            kind,
        ),
{
    let mut path = prefix.to_owned();
    path.append("/");
    path.append(kind.file_name_str());
    let carries = match kind {
        IntentCaseArtifactKind::PolicyPack | IntentCaseArtifactKind::LoopProgram => true,
        _ => false,
    };
    let content_digest = if carries {
        Some(digest.to_owned())
    } else {
        None
    };
    IntentCaseArtifactRefPlan { artifact_id: artifact_id(case_id, kind), kind, path, content_digest }
}

/// The artifacts of a run, in order: the core bundle, then those the receipt asks for.
pub fn intent_case_artifact_refs(
    r: &GerbilLoopCaseDriverVerticalTraceReceipt,
    prefix: &str,
    digest: &str,
) -> (artifacts: Vec<IntentCaseArtifactRefPlan>)
    ensures
        artifact_views(artifacts@) == planned_artifacts(*r, prefix@, digest@),
{
    let mut kinds = vec![
        IntentCaseArtifactKind::Intent,
        IntentCaseArtifactKind::PolicyPack,
        IntentCaseArtifactKind::LoopProgram,
        IntentCaseArtifactKind::VerticalTrace,
        IntentCaseArtifactKind::ExecutionTrace,
        IntentCaseArtifactKind::PolicyExplanation,
        IntentCaseArtifactKind::ReplayScript,
    ];
    let mut optional = optional_intent_case_artifact_kinds(r);
    let ghost core = kinds@;
    kinds.append(&mut optional);
    assert(kinds@ =~= core_artifact_kinds() + optional_artifact_kinds(*r));
    let case_id = r.case_id.as_str();
    let mut artifacts: Vec<IntentCaseArtifactRefPlan> = Vec::new();
    let mut i: usize = 0;
    while i < kinds.len()
        invariant
            i <= kinds.len(),
            kinds@ == core_artifact_kinds() + optional_artifact_kinds(*r),
            case_id@ == r.case_id@,
            artifacts@.len() == i,
            artifact_views(artifacts@) == kinds@.take(i as int).map_values(
                |kind: IntentCaseArtifactKind| planned_artifact(r.case_id@, prefix@, digest@, kind),
            ),
        decreases kinds.len() - i,
    {
        let ghost before = artifacts@;
        let plan = artifact_ref(case_id, prefix, digest, kinds[i]);
        artifacts.push(plan);
        assert(artifacts@ =~= before.push(plan));
        assert(artifact_views(artifacts@) =~= artifact_views(before).push(
            planned_artifact(r.case_id@, prefix@, digest@, kinds@[i as int]),
        ));
        assert(kinds@.take(i + 1) =~= kinds@.take(i as int).push(kinds@[i as int]));
        assert(kinds@.take(i + 1).map_values(
            |kind: IntentCaseArtifactKind| planned_artifact(r.case_id@, prefix@, digest@, kind),
        ) =~= kinds@.take(i as int).map_values(
            |kind: IntentCaseArtifactKind| planned_artifact(r.case_id@, prefix@, digest@, kind),
        ).push(planned_artifact(r.case_id@, prefix@, digest@, kinds@[i as int])));
        assert(artifact_views(artifacts@) =~= kinds@.take(i + 1).map_values(
            |kind: IntentCaseArtifactKind| planned_artifact(r.case_id@, prefix@, digest@, kind),
        ));
        i += 1;
    }
    assert(kinds@.take(i as int) =~= kinds@);
    artifacts
}

/// `prefix` followed by the decimal `step`.
fn numbered(prefix: &str, step: u64) -> (text: String)
    ensures
        text@ == prefix@ + decimal_text(step as nat),
{
    let mut text = prefix.to_owned();
    let digits = u64_to_text(step);
    text.append(digits.as_str());
    text
}

/// The trace step `step` (counting from one) of a transition.
pub fn intent_case_trace_entry(
    r: &GerbilLoopCaseDriverVerticalTraceReceipt,
    step: u64,
    action: &str,
    event: &str,
) -> (entry: IntentCaseTraceEntryPlan)
    ensures
        entry@ == planned_entry(*r, step, action@, event@),
{
    let case_id = r.case_id.as_str();
    let program = r.loop_program_id.as_str();
    let mut kinds = vec![IntentCaseArtifactKind::VerticalTrace, IntentCaseArtifactKind::ExecutionTrace];
    let mut action_kinds = trace_entry_action_artifact_kinds(action, r);
    let ghost head = kinds@;
    kinds.append(&mut action_kinds);
    let ghost all = kinds@;
    assert(all =~= seq![IntentCaseArtifactKind::VerticalTrace, IntentCaseArtifactKind::ExecutionTrace]
        + action_artifact_kinds(action@, *r));
    let mut refs: Vec<String> = Vec::new();
    let mut i: usize = 0;
    while i < kinds.len()
        invariant
            i <= kinds.len(),
            case_id@ == r.case_id@,
            refs@.len() == i,
            seq_views(refs@) == kinds@.take(i as int).map_values(
                |kind: IntentCaseArtifactKind| artifact_id_text(r.case_id@, kind),
            ),
        decreases kinds.len() - i,
    {
        let ghost before = refs@;
        let id = artifact_id(case_id, kinds[i]);
        refs.push(id);
        assert(refs@ =~= before.push(id));
        assert(seq_views(refs@) =~= seq_views(before).push(artifact_id_text(r.case_id@, kinds@[i as int])));
        assert(kinds@.take(i + 1) =~= kinds@.take(i as int).push(kinds@[i as int]));
        assert(kinds@.take(i + 1).map_values(
            |kind: IntentCaseArtifactKind| artifact_id_text(r.case_id@, kind),
        ) =~= kinds@.take(i as int).map_values(
            |kind: IntentCaseArtifactKind| artifact_id_text(r.case_id@, kind),
        ).push(artifact_id_text(r.case_id@, kinds@[i as int])));
        assert(seq_views(refs@) =~= kinds@.take(i + 1).map_values(
            |kind: IntentCaseArtifactKind| artifact_id_text(r.case_id@, kind),
        ));
        i += 1;
    }
    assert(kinds@.take(i as int) =~= kinds@);
    let model_invocation_id = if text_eq(action, "invoke_model") {
        let mut prefix = case_id.to_owned();
        prefix.append(":");
        prefix.append(program);
        prefix.append(":model-invocation-");
        Some(numbered(prefix.as_str(), step))
    } else {
        None
    };
    let dispatch = text_eq(action, "dispatch_tools");
    let (tool_call_id, resource_key, sandbox_profile) = if dispatch {
        let mut prefix = case_id.to_owned();
        prefix.append(":");
        prefix.append(program);
        prefix.append(":tool-call-");
        (
            Some(numbered(prefix.as_str(), step)),
            Some(intent_case_tool_resource_key(r).to_owned()),
            Some(intent_case_tool_sandbox_profile(r).to_owned()),
        )
    } else {
        (None, None, None)
    };
    let mut trace_prefix = case_id.to_owned();
    trace_prefix.append(":trace-step-");
    let mut transition_prefix = program.to_owned();
    transition_prefix.append(":transition-");
    IntentCaseTraceEntryPlan {
        trace_id: numbered(trace_prefix.as_str(), step),
        step_index: step,
        transition_id: numbered(transition_prefix.as_str(), step),
        action: action.to_owned(),
        event: event.to_owned(),
        runtime_owner: GERBIL_LOOP_CASE_DRIVER_INTENT_CASE_RUNTIME_OWNER.to_owned(),
        artifact_refs: refs,
        model_invocation_id,
        tool_call_id,
        resource_key,
        sandbox_profile,
    }
}

/// The tool resource key of a case's tool steps.
pub fn intent_case_tool_resource_key(r: &GerbilLoopCaseDriverVerticalTraceReceipt) -> (key:
    &'static str)
    ensures
        key@ == tool_resource_key(*r),
{
    if receipt_has_tag(r, "+policy-combination") {
        "agent-flow.policy-combination-tool"
    } else if receipt_has_tag(r, "+memory-recall") || receipt_has_tag(r, "+tool-selection") {
        "agent-flow.memory-selected-tool"
    } else if receipt_has_tag(r, "+tool-repair") || receipt_has_tag(r, "+repair") {
        "agent-flow.repair-tool"
    } else if receipt_is_sandboxed(r) {
        "agent-flow.sandboxed-tool"
    } else {
        "agent-flow.tool-intent"
    }
}

/// The sandbox profile of a case's tool steps.
pub fn intent_case_tool_sandbox_profile(r: &GerbilLoopCaseDriverVerticalTraceReceipt) -> (profile:
    &'static str)
    ensures
        profile@ == tool_sandbox_profile(*r),
{
    if receipt_has_tag(r, "+policy-combination") {
        "policy-combination-tool"
    } else if receipt_has_tag(r, "+denylist") {
        "sandbox-denylist"
    } else if receipt_has_tag(r, "+sandbox") {
        "tool-sandbox"
    } else if receipt_has_tag(r, "+tool-repair") || receipt_has_tag(r, "+repair") {
        "workspace-file-repair"
    } else {
        "scripted-tool"
    }
}

/// Plan the intent-case artifact manifest of a verified Scheme vertical trace
/// receipt for run `run_id`: its request, one trace step per transition, and
/// its artifacts.
pub fn plan_gerbil_loop_case_driver_intent_case_artifact_manifest(
    r: &GerbilLoopCaseDriverVerticalTraceReceipt,
    run_id: &str,
) -> (plan: IntentCaseManifestPlan)
    requires
        step_count(*r) < u64::MAX,
    ensures
        is_manifest_plan(plan, *r, run_id@),
{
    let case_id = r.case_id.as_str();
    let case_segment = safe_artifact_path_segment(case_id);
    let run_segment = safe_artifact_path_segment(run_id);
    let mut prefix = INTENT_CASE_ARTIFACT_ROOT.to_owned();
    prefix.append("/");
    prefix.append(case_segment.as_str());
    prefix.append("/");
    prefix.append(run_segment.as_str());
    let digest = policy_digest_hex(&r.policy_digest_octets);
    let count = if r.transition_actions.len() <= r.transition_events.len() {
        r.transition_actions.len()
    } else {
        r.transition_events.len()
    };
    let mut entries: Vec<IntentCaseTraceEntryPlan> = Vec::new();
    let mut i: usize = 0;
    while i < count
        invariant
            i <= count,
            count == step_count(*r),
            count < u64::MAX,
            entries@.len() == i,
            forall|j: int|
                0 <= j < i ==> (#[trigger] entries@[j])@ == planned_entry(
                    *r,
                    (j + 1) as u64,
                    r.transition_actions@[j]@,
                    r.transition_events@[j]@,
                ),
        decreases count - i,
    {
        let entry = intent_case_trace_entry(
            r,
            (i + 1) as u64,
            r.transition_actions[i].as_str(),
            r.transition_events[i].as_str(),
        );
        entries.push(entry);
        i += 1;
    }
    let artifacts = intent_case_artifact_refs(r, prefix.as_str(), digest.as_str());
    IntentCaseManifestPlan {
        case_id: case_id.to_owned(),
        run_id: run_id.to_owned(),
        policy_epoch: r.loop_program_policy_epoch,
        policy_digest: digest,
        loop_program_id: r.loop_program_id.as_str().to_owned(),
        artifact_prefix: prefix,
        trace_entries: entries,
        artifacts,
    }
}

/// Diagnostics of a planned manifest: a missing core artifact lane (as the
/// harness judged the built manifest), then a trace index whose size is not
/// the receipt's transition count.
pub open spec fn manifest_diagnostics(
    plan: IntentCaseManifestPlan,
    r: GerbilLoopCaseDriverVerticalTraceReceipt,
    has_core_artifact_bundle: bool,
) -> Seq<Seq<char>> {
    (if has_core_artifact_bundle {
        Seq::empty()
    } else {
        seq!["intent-case manifest is missing a core artifact lane"@]
    }) + (if plan.trace_entries@.len() != r.transition_count {
        seq![
            "intent-case trace index has "@ + decimal_text(plan.trace_entries@.len())
                + " entries but vertical trace declares "@ + decimal_text(
                r.transition_count as nat,
            ) + " transitions"@,
        ]
    } else {
        Seq::empty()
    })
}

/// Diagnostics of a planned manifest; an intent-case run passes without any.
pub fn intent_case_manifest_diagnostics(
    r: &GerbilLoopCaseDriverVerticalTraceReceipt,
    plan: &IntentCaseManifestPlan,
    has_core_artifact_bundle: bool,
) -> (diagnostics: Vec<String>)
    ensures
        seq_views(diagnostics@) == manifest_diagnostics(*plan, *r, has_core_artifact_bundle),
{
    let mut diagnostics: Vec<String> = Vec::new();
    if !has_core_artifact_bundle {
        diagnostics.push("intent-case manifest is missing a core artifact lane".to_owned());
    }
    let ghost first = seq_views(diagnostics@);
    if plan.trace_entries.len() != r.transition_count {
        let mut message = numbered("intent-case trace index has ", plan.trace_entries.len() as u64);
        message.append(" entries but vertical trace declares ");
        let declared = u64_to_text(r.transition_count as u64);
        message.append(declared.as_str());
        message.append(" transitions");
        diagnostics.push(message);
    }
    assert(seq_views(diagnostics@) =~= manifest_diagnostics(*plan, *r, has_core_artifact_bundle));
    diagnostics
}

/// Law: in a planned manifest only `dispatch_tools` steps carry a tool sandbox
/// profile, and the profile follows the receipt's sandbox lane: policy
/// combination first, then the denylist sandbox, then the plain sandbox, then
/// workspace repair, else a scripted tool. Each lane has a profile of its own.
pub proof fn law_tool_sandbox_profiles(
    plan: IntentCaseManifestPlan,
    r: GerbilLoopCaseDriverVerticalTraceReceipt,
    run_id: Seq<char>,
    i: int,
)
    requires
        is_manifest_plan(plan, r, run_id),
        0 <= i < plan.trace_entries@.len(),
    ensures
        ({
            let tags = seq_views(r.capability_tags@);
            let profile = plan.trace_entries@[i]@.sandbox_profile;
            let dispatch = r.transition_actions@[i]@ == "dispatch_tools"@;
            &&& !dispatch ==> profile is None
            &&& dispatch && tags.contains("+policy-combination"@) ==> profile == Some(
                "policy-combination-tool"@,
            )
            &&& dispatch && !tags.contains("+policy-combination"@) && tags.contains("+denylist"@)
                ==> profile == Some("sandbox-denylist"@)
            &&& dispatch && !tags.contains("+policy-combination"@) && !tags.contains("+denylist"@)
                && tags.contains("+sandbox"@) ==> profile == Some("tool-sandbox"@)
            &&& dispatch && !tags.contains("+policy-combination"@) && !tags.contains("+denylist"@)
                && !tags.contains("+sandbox"@) && (tags.contains("+tool-repair"@) || tags.contains(
                "+repair"@,
            )) ==> profile == Some("workspace-file-repair"@)
            &&& dispatch && !tags.contains("+policy-combination"@) && !tags.contains("+denylist"@)
                && !tags.contains("+sandbox"@) && !tags.contains("+tool-repair"@) && !tags.contains(
                "+repair"@,
            ) ==> profile == Some("scripted-tool"@)
        }),
        "policy-combination-tool"@ != "sandbox-denylist"@ && "sandbox-denylist"@ != "tool-sandbox"@
            && "tool-sandbox"@ != "workspace-file-repair"@ && "workspace-file-repair"@
            != "scripted-tool"@ && "sandbox-denylist"@ != "scripted-tool"@ && "tool-sandbox"@
            != "scripted-tool"@ && "policy-combination-tool"@ != "tool-sandbox"@,
{
    assert(plan.trace_entries@[i]@ == planned_entry(
        r,
        (i + 1) as u64,
        r.transition_actions@[i]@,
        r.transition_events@[i]@,
    ));
    reveal_strlit("policy-combination-tool");
    reveal_strlit("sandbox-denylist");
    reveal_strlit("tool-sandbox");
    reveal_strlit("workspace-file-repair");
    reveal_strlit("scripted-tool");
    assert("policy-combination-tool"@.len() == 23 && "sandbox-denylist"@.len() == 16
        && "tool-sandbox"@.len() == 12 && "workspace-file-repair"@.len() == 21
        && "scripted-tool"@.len() == 13);
}

/// Law: in a planned manifest only `dispatch_tools` steps carry a tool
/// resource key, and the key follows the receipt's tool lane: policy
/// combination first, then memory-selected tools, then repair tools, then
/// sandboxed tools, else a plain tool intent.
pub proof fn law_tool_resource_keys(
    plan: IntentCaseManifestPlan,
    r: GerbilLoopCaseDriverVerticalTraceReceipt,
    run_id: Seq<char>,
    i: int,
)
    requires
        is_manifest_plan(plan, r, run_id),
        0 <= i < plan.trace_entries@.len(),
    ensures
        ({
            let tags = seq_views(r.capability_tags@);
            let key = plan.trace_entries@[i]@.resource_key;
            let dispatch = r.transition_actions@[i]@ == "dispatch_tools"@;
            let memory = tags.contains("+memory-recall"@) || tags.contains("+tool-selection"@);
            let repair = tags.contains("+tool-repair"@) || tags.contains("+repair"@);
            let sandboxed = tags.contains("+sandbox"@) || tags.contains("+denylist"@);
            &&& !dispatch ==> key is None
            &&& dispatch && tags.contains("+policy-combination"@) ==> key == Some(
                "agent-flow.policy-combination-tool"@,
            )
            &&& dispatch && !tags.contains("+policy-combination"@) && memory ==> key == Some(
                "agent-flow.memory-selected-tool"@,
            )
            &&& dispatch && !tags.contains("+policy-combination"@) && !memory && repair ==> key
                == Some("agent-flow.repair-tool"@)
            &&& dispatch && !tags.contains("+policy-combination"@) && !memory && !repair
                && sandboxed ==> key == Some("agent-flow.sandboxed-tool"@)
            &&& dispatch && !tags.contains("+policy-combination"@) && !memory && !repair
                && !sandboxed ==> key == Some("agent-flow.tool-intent"@)
        }),
{
    assert(plan.trace_entries@[i]@ == planned_entry(
        r,
        (i + 1) as u64,
        r.transition_actions@[i]@,
        r.transition_events@[i]@,
    ));
}

} // verus!

