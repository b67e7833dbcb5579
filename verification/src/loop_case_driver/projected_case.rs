//! Selection of one Scheme-owned loop case from a verified vertical trace.
//!
//! Running the Scheme case driver is the caller's part; given its output,
//! [`project_gerbil_loop_case_driver_case_from_trace`] verifies the trace,
//! selects the requested case, checks it against the request and projects it
//! into a loop program.

use vstd::prelude::*;

use super::ids::{
    GerbilLoopCaseDriverCapability, GerbilLoopCaseDriverCaseId, GerbilLoopCaseDriverLoopProgramId,
    GerbilLoopCaseDriverProfileRef,
};
use super::loop_program_projection::{
    GerbilLoopCaseDriverLoopProgram, is_projected_program, loop_program_error,
    project_gerbil_loop_case_driver_loop_program,
};
use super::vertical_trace::parsing::{
    receipts_of_trace, row_of, same_views, trace_entries, verify_error,
    verify_gerbil_loop_case_driver_vertical_trace,
};
use super::vertical_trace::row::receipt_decodes_row;
use super::vertical_trace::types::GerbilLoopCaseDriverVerticalTraceReceipt;
use crate::scheme_types::package::first_missing;
use crate::runtime::{join_path, path_join};
use crate::text::{concat, contains_char, first_position, lemma_first_position, seq_views};

verus! {

/// Request for a Scheme config-interface loop case projected into Rust types.
#[derive(Clone, Debug, PartialEq, Eq)]
pub struct GerbilLoopCaseDriverProjectedLoopProgramRequest {
    /// Gerbil package root to run the case driver in; `None` stands for the
    /// config-interface package shipped with this crate.
    pub gerbil_root: Option<String>,
    pub expected_vertical_trace_count: usize,
    pub case_id: GerbilLoopCaseDriverCaseId,
    pub loop_program_id: GerbilLoopCaseDriverLoopProgramId,
    pub profile_ref: Option<GerbilLoopCaseDriverProfileRef>,
    pub live_llm_required: Option<bool>,
    pub required_capabilities: Vec<GerbilLoopCaseDriverCapability>,
}

impl GerbilLoopCaseDriverProjectedLoopProgramRequest {
    /// A request for one case of the shipped package, expecting its seven-case trace.
    #[must_use]
    pub fn new(case_id: &str, loop_program_id: &str) -> (request: Self)
        ensures
            request.gerbil_root is None,
            request.expected_vertical_trace_count == 7,
            request.case_id@ == case_id@,
            request.loop_program_id@ == loop_program_id@,
            request.profile_ref is None,
            request.live_llm_required is None,
            request.required_capabilities@.len() == 0,
    {
        GerbilLoopCaseDriverProjectedLoopProgramRequest {
            gerbil_root: None,
            expected_vertical_trace_count: 7,
            case_id: GerbilLoopCaseDriverCaseId::new(case_id),
            loop_program_id: GerbilLoopCaseDriverLoopProgramId::new(loop_program_id),
            profile_ref: None,
            live_llm_required: None,
            required_capabilities: Vec::new(),
        }
    }

    #[must_use]
    pub fn with_gerbil_root(self, gerbil_root: &str) -> (request: Self)
        ensures
            request.gerbil_root is Some && request.gerbil_root->Some_0@ == gerbil_root@,
            request.expected_vertical_trace_count == self.expected_vertical_trace_count,
            request.case_id == self.case_id,
            request.loop_program_id == self.loop_program_id,
            request.profile_ref == self.profile_ref,
            request.live_llm_required == self.live_llm_required,
            request.required_capabilities == self.required_capabilities,
    {
        GerbilLoopCaseDriverProjectedLoopProgramRequest {
            gerbil_root: Some(gerbil_root.to_owned()),
            ..self
        }
    }

    #[must_use]
    pub fn with_expected_vertical_trace_count(self, count: usize) -> (request: Self)
        ensures
            request.gerbil_root == self.gerbil_root,
            request.expected_vertical_trace_count == count,
            request.case_id == self.case_id,
            request.loop_program_id == self.loop_program_id,
            request.profile_ref == self.profile_ref,
            request.live_llm_required == self.live_llm_required,
            request.required_capabilities == self.required_capabilities,
    {
        GerbilLoopCaseDriverProjectedLoopProgramRequest {
            expected_vertical_trace_count: count,
            ..self
        }
    }

    #[must_use]
    pub fn with_profile_ref(self, profile_ref: &str) -> (request: Self)
        ensures
            request.gerbil_root == self.gerbil_root,
            request.expected_vertical_trace_count == self.expected_vertical_trace_count,
            request.case_id == self.case_id,
            request.loop_program_id == self.loop_program_id,
            request.profile_ref is Some && request.profile_ref->Some_0@ == profile_ref@,
            request.live_llm_required == self.live_llm_required,
            request.required_capabilities == self.required_capabilities,
    {
        GerbilLoopCaseDriverProjectedLoopProgramRequest {
            profile_ref: Some(GerbilLoopCaseDriverProfileRef::new(profile_ref)),
            ..self
        }
    }

    #[must_use]
    pub fn with_live_llm_required(self, required: bool) -> (request: Self)
        ensures
            request.gerbil_root == self.gerbil_root,
            request.expected_vertical_trace_count == self.expected_vertical_trace_count,
            request.case_id == self.case_id,
            request.loop_program_id == self.loop_program_id,
            request.profile_ref == self.profile_ref,
            request.live_llm_required == Some(required),
            request.required_capabilities == self.required_capabilities,
    {
        GerbilLoopCaseDriverProjectedLoopProgramRequest {
            live_llm_required: Some(required),
            ..self
        }
    }

    #[must_use]
    pub fn with_required_capability(self, capability: &str) -> (request: Self)
        ensures
            request.gerbil_root == self.gerbil_root,
            request.expected_vertical_trace_count == self.expected_vertical_trace_count,
            request.case_id == self.case_id,
            request.loop_program_id == self.loop_program_id,
            request.profile_ref == self.profile_ref,
            request.live_llm_required == self.live_llm_required,
            seq_views(request.required_capabilities@) == seq_views(
                self.required_capabilities@,
            ).push(capability@),
    {
        let mut request = self;
        let ghost before = seq_views(request.required_capabilities@);
        request.required_capabilities.push(GerbilLoopCaseDriverCapability::new(capability));
        assert(seq_views(request.required_capabilities@) =~= before.push(capability@));
        request
    }

    #[must_use]
    pub fn case_id(&self) -> (case_id: &GerbilLoopCaseDriverCaseId)
        ensures
            *case_id == self.case_id,
    {
        &self.case_id
    }

    #[must_use]
    pub fn loop_program_id(&self) -> (loop_program_id: &GerbilLoopCaseDriverLoopProgramId)
        ensures
            *loop_program_id == self.loop_program_id,
    {
        &self.loop_program_id
    }
}

/// A verified Scheme loop case and its loop-program projection.
#[derive(Clone, Debug, PartialEq, Eq)]
pub struct GerbilLoopCaseDriverProjectedLoopProgram {
    pub receipt: GerbilLoopCaseDriverVerticalTraceReceipt,
    pub loop_program: GerbilLoopCaseDriverLoopProgram,
}

impl GerbilLoopCaseDriverProjectedLoopProgram {
    #[must_use]
    pub fn receipt(&self) -> (receipt: &GerbilLoopCaseDriverVerticalTraceReceipt)
        ensures
            *receipt == self.receipt,
    {
        &self.receipt
    }

    #[must_use]
    pub fn loop_program(&self) -> (program: &GerbilLoopCaseDriverLoopProgram)
        ensures
            *program == self.loop_program,
    {
        &self.loop_program
    }

    #[must_use]
    pub fn into_parts(self) -> (parts: (GerbilLoopCaseDriverVerticalTraceReceipt, GerbilLoopCaseDriverLoopProgram))
        ensures
            parts.0 == self.receipt,
            parts.1 == self.loop_program,
    {
        (self.receipt, self.loop_program)
    }
}

/// Error returned by the Scheme loop case projection facade.
#[derive(Clone, Debug, PartialEq, Eq)]
pub struct GerbilLoopCaseDriverProjectedLoopProgramError {
    message: String,
}

impl View for GerbilLoopCaseDriverProjectedLoopProgramError {
    type V = Seq<char>;

    closed spec fn view(&self) -> Seq<char> {
        self.message@
    }
}

impl GerbilLoopCaseDriverProjectedLoopProgramError {
    /// An error with the given message.
    pub fn new(message: String) -> (error: Self)
        ensures
            error@ == message@,
    {
        GerbilLoopCaseDriverProjectedLoopProgramError { message }
    }

    #[must_use]
    pub fn message(&self) -> (text: &str)
        ensures
            text@ == self@,
    {
        self.message.as_str()
    }
}

/// `"true"` or `"false"`.
pub open spec fn bool_text(b: bool) -> Seq<char> {
    if b {
        "true"@
    } else {
        "false"@
    }
}

/// The (case id, loop program id) key of each receipt.
pub open spec fn case_keys(receipts: Seq<GerbilLoopCaseDriverVerticalTraceReceipt>) -> Seq<
    (Seq<char>, Seq<char>),
> {
    receipts.map_values(
        |r: GerbilLoopCaseDriverVerticalTraceReceipt| (r.case_id@, r.loop_program_id@),
    )
}

/// `"Scheme vertical trace case=<case>"`.
pub open spec fn case_prefix(request: GerbilLoopCaseDriverProjectedLoopProgramRequest) -> Seq<char> {
    "Scheme vertical trace case="@ + request.case_id@
}

/// First mismatch between the selected receipt and what the request expects.
pub open spec fn receipt_mismatch(
    request: GerbilLoopCaseDriverProjectedLoopProgramRequest,
    r: GerbilLoopCaseDriverVerticalTraceReceipt,
) -> Option<Seq<char>> {
    if request.profile_ref is Some && r.profile_ref@ != request.profile_ref->Some_0@ {
        Some(
            case_prefix(request) + " expected profile_ref="@ + request.profile_ref->Some_0@
                + " but got "@ + r.profile_ref@,
        )
    } else if request.live_llm_required is Some && r.live_llm_required
        != request.live_llm_required->Some_0 {
        Some(
            case_prefix(request) + " expected live_llm_required="@ + bool_text(
                request.live_llm_required->Some_0,
            ) + " but got "@ + bool_text(r.live_llm_required),
        )
    } else if first_missing(
        seq_views(request.required_capabilities@),
        seq_views(r.capability_tags@),
    ) is Some {
        Some(
            case_prefix(request) + " is missing required capability "@ + seq_views(
                request.required_capabilities@,
            )[first_missing(
                seq_views(request.required_capabilities@),
                seq_views(r.capability_tags@),
            )->Some_0],
        )
    } else if loop_program_error(r) is Some {
        Some(
            "Scheme vertical trace should project into a LoopProgram: "@ + loop_program_error(
                r,
            )->Some_0,
        )
    } else {
        None
    }
}

/// Error of selecting the requested case among verified receipts.
pub open spec fn selection_error(
    request: GerbilLoopCaseDriverProjectedLoopProgramRequest,
    receipts: Seq<GerbilLoopCaseDriverVerticalTraceReceipt>,
) -> Option<Seq<char>> {
    match first_position(case_keys(receipts), (request.case_id@, request.loop_program_id@)) {
        None => Some(
            "Scheme vertical trace should include case="@ + request.case_id@ + " loop_program="@
                + request.loop_program_id@,
        ),
        Some(i) => receipt_mismatch(request, receipts[i]),
    }
}

/// Error of loading the requested case from a case-driver output, `None` when it loads.
pub open spec fn case_load_error(
    request: GerbilLoopCaseDriverProjectedLoopProgramRequest,
    stdout: Seq<char>,
) -> Option<Seq<char>> {
    if verify_error(stdout, request.expected_vertical_trace_count as nat) is Some {
        Some(
            "config-interface vertical trace should verify: "@ + verify_error(
                stdout,
                request.expected_vertical_trace_count as nat,
            )->Some_0,
        )
    } else {
        selection_error(
            request,
            choose|rs: Seq<GerbilLoopCaseDriverVerticalTraceReceipt>| receipts_of_trace(rs, stdout),
        )
    }
}

/// Receipts of one trace agree field by field on their views.
proof fn lemma_trace_receipts_agree(
    a: Seq<GerbilLoopCaseDriverVerticalTraceReceipt>,
    b: Seq<GerbilLoopCaseDriverVerticalTraceReceipt>,
    stdout: Seq<char>,
)
    requires
        receipts_of_trace(a, stdout),
        receipts_of_trace(b, stdout),
    ensures
        a.len() == b.len(),
        forall|k: int| 0 <= k < a.len() ==> same_views(#[trigger] a[k], b[k]),
{
    reveal(receipt_decodes_row);
    assert forall|k: int| 0 <= k < a.len() implies same_views(#[trigger] a[k], b[k]) by {
        let row = row_of(trace_entries(stdout)->Ok_0, k as nat);
        assert(receipt_decodes_row(a[k], k as nat, row));
        assert(receipt_decodes_row(b[k], k as nat, row));
    }
}

/// Selection depends on the views of the receipts alone.
proof fn lemma_selection_by_views(
    request: GerbilLoopCaseDriverProjectedLoopProgramRequest,
    a: Seq<GerbilLoopCaseDriverVerticalTraceReceipt>,
    b: Seq<GerbilLoopCaseDriverVerticalTraceReceipt>,
)
    requires
        a.len() == b.len(),
        forall|k: int| 0 <= k < a.len() ==> same_views(#[trigger] a[k], b[k]),
    ensures
        selection_error(request, a) == selection_error(request, b),
        first_position(case_keys(a), (request.case_id@, request.loop_program_id@)) == first_position(
            case_keys(b),
            (request.case_id@, request.loop_program_id@),
        ),
{
    assert forall|k: int| 0 <= k < a.len() implies case_keys(a)[k] == case_keys(b)[k] by {
        assert(same_views(a[k], b[k]));
    }
    assert(case_keys(a) =~= case_keys(b));
    let key = (request.case_id@, request.loop_program_id@);
    if let Some(i) = first_position(case_keys(a), key) {
        lemma_first_position_in_range(case_keys(a), key);
        assert(same_views(a[i], b[i]));
        let (x, y) = (a[i], b[i]);
        assert(seq_views(x.transition_actions@) == seq_views(y.transition_actions@));
        assert(x.policy_digest_octets@.len() == y.policy_digest_octets@.len());
    }
}

proof fn lemma_first_position_in_range<A>(items: Seq<A>, item: A)
    ensures
        first_position(items, item) matches Some(i) ==> 0 <= i < items.len(),
{
    crate::text::lemma_first_position_found(items, item);
}

/// Verify a case-driver output, select the requested case, check it against
/// the request and project it into a loop program.
pub fn project_gerbil_loop_case_driver_case_from_trace(
    request: &GerbilLoopCaseDriverProjectedLoopProgramRequest,
    stdout: &str,
) -> (projected: Result<
    GerbilLoopCaseDriverProjectedLoopProgram,
    GerbilLoopCaseDriverProjectedLoopProgramError,
>)
    ensures
        match projected {
            Ok(p) => {
                &&& case_load_error(*request, stdout@) is None
                &&& exists|rs: Seq<GerbilLoopCaseDriverVerticalTraceReceipt>|
                    #[trigger] receipts_of_trace(rs, stdout@) && match first_position(
                        case_keys(rs),
                        (request.case_id@, request.loop_program_id@),
                    ) {
                        Some(i) => same_views(p.receipt, rs[i]),
                        None => false,
                    }
                &&& receipt_mismatch(*request, p.receipt) is None
                &&& p.receipt.case_id@ == request.case_id@
                &&& p.receipt.loop_program_id@ == request.loop_program_id@
                &&& is_projected_program(p.loop_program, p.receipt)
            },
            Err(e) => case_load_error(*request, stdout@) == Some(e@),
        },
{
    let mut receipts = match verify_gerbil_loop_case_driver_vertical_trace(
        stdout,
        request.expected_vertical_trace_count,
    ) {
        Ok(rs) => rs,
        Err(e) => {
            let mut message = "config-interface vertical trace should verify: ".to_owned();
            message.append(e.message());
            return Err(GerbilLoopCaseDriverProjectedLoopProgramError::new(message));
        },
    };
    let ghost chosen = choose|rs: Seq<GerbilLoopCaseDriverVerticalTraceReceipt>|
        receipts_of_trace(rs, stdout@);
    proof {
        assert(receipts_of_trace(receipts@, stdout@));
        lemma_trace_receipts_agree(receipts@, chosen, stdout@);
        lemma_selection_by_views(*request, receipts@, chosen);
    }
    let ghost keys = case_keys(receipts@);
    let ghost key = (request.case_id@, request.loop_program_id@);
    let mut i: usize = 0;
    while i < receipts.len() && !(receipts[i].case_id == request.case_id
        && receipts[i].loop_program_id == request.loop_program_id)
        invariant
            i <= receipts.len(),
            keys == case_keys(receipts@),
            key == (request.case_id@, request.loop_program_id@),
            forall|j: int| 0 <= j < i ==> keys[j] != key,
        decreases receipts.len() - i,
    {
        i += 1;
    }
    proof {
        lemma_first_position(keys, key, i as int);
    }
    if i == receipts.len() {
        let mut message = "Scheme vertical trace should include case=".to_owned();
        message.append(request.case_id.as_str());
        message.append(" loop_program=");
        message.append(request.loop_program_id.as_str());
        return Err(GerbilLoopCaseDriverProjectedLoopProgramError::new(message));
    }
    let ghost all = receipts@;
    let receipt = receipts.remove(i);
    assert(receipt == all[i as int]);
    assert(case_load_error(*request, stdout@) == receipt_mismatch(*request, receipt));
    if let Some(expected) = &request.profile_ref {
        if !(receipt.profile_ref == *expected) {
            let mut message = "Scheme vertical trace case=".to_owned();
            message.append(request.case_id.as_str());
            message.append(" expected profile_ref=");
            message.append(expected.as_str());
            message.append(" but got ");
            message.append(receipt.profile_ref.as_str());
            return Err(GerbilLoopCaseDriverProjectedLoopProgramError::new(message));
        }
    }
    if let Some(expected) = request.live_llm_required {
        if receipt.live_llm_required != expected {
            let mut message = "Scheme vertical trace case=".to_owned();
            message.append(request.case_id.as_str());
            message.append(" expected live_llm_required=");
            message.append(if expected { "true" } else { "false" });
            message.append(" but got ");
            message.append(if receipt.live_llm_required { "true" } else { "false" });
            proof {
                reveal_strlit("true");
                reveal_strlit("false");
            }
            return Err(GerbilLoopCaseDriverProjectedLoopProgramError::new(message));
        }
    }
    let ghost required = seq_views(request.required_capabilities@);
    let ghost available = seq_views(receipt.capability_tags@);
    let mut k: usize = 0;
    assert(required.take(0) =~= Seq::<Seq<char>>::empty());
    while k < request.required_capabilities.len()
        invariant
            k <= request.required_capabilities.len(),
            required == seq_views(request.required_capabilities@),
            available == seq_views(receipt.capability_tags@),
            first_missing(required.take(k as int), available) is None,
            case_load_error(*request, stdout@) == receipt_mismatch(*request, receipt),
            !(request.profile_ref is Some && receipt.profile_ref@
                != request.profile_ref->Some_0@),
            !(request.live_llm_required is Some && receipt.live_llm_required
                != request.live_llm_required->Some_0),
        decreases request.required_capabilities.len() - k,
    {
        assert(required.take(k + 1).drop_last() =~= required.take(k as int));
        assert(required.take(k + 1).last() == request.required_capabilities@[k as int]@);
        if !receipt.has_capability(&request.required_capabilities[k]) {
            proof {
                lemma_first_missing_prefix(required, available, k + 1);
            }
            let mut message = "Scheme vertical trace case=".to_owned();
            message.append(request.case_id.as_str());
            message.append(" is missing required capability ");
            message.append(request.required_capabilities[k].as_str());
            return Err(GerbilLoopCaseDriverProjectedLoopProgramError::new(message));
        }
        k += 1;
    }
    assert(required.take(k as int) =~= required);
    let loop_program = match project_gerbil_loop_case_driver_loop_program(&receipt) {
        Ok(p) => p,
        Err(e) => {
            let mut message = "Scheme vertical trace should project into a LoopProgram: ".to_owned();
            message.append(e.message());
            return Err(GerbilLoopCaseDriverProjectedLoopProgramError::new(message));
        },
    };
    assert(same_views(receipt, all[i as int]));
    assert(receipts_of_trace(all, stdout@));
    Ok(GerbilLoopCaseDriverProjectedLoopProgram { receipt, loop_program })
}

/// A missing symbol found in a prefix is the first missing one of the whole list.
proof fn lemma_first_missing_prefix(required: Seq<Seq<char>>, available: Seq<Seq<char>>, k: int)
    requires
        0 <= k <= required.len(),
        first_missing(required.take(k), available) is Some,
    ensures
        first_missing(required, available) == first_missing(required.take(k), available),
    decreases required.len() - k,
{
    if k < required.len() {
        assert(required.take(k + 1).drop_last() =~= required.take(k));
        lemma_first_missing_prefix(required, available, k + 1);
    } else {
        assert(required.take(k) =~= required);
    }
}


/// `GERBIL_LOADPATH` for the config-interface cases: the package sources and the
/// local `gxpkg` dependencies of `gerbil_root` first, then the loadpath that was
/// set before, if any, each separated by `:`.
pub open spec fn config_interface_loadpath(gerbil_root: Seq<char>, existing: Option<Seq<char>>) -> Seq<
    char,
> {
    let first = path_join(gerbil_root, "src"@) + ":"@ + path_join(
        path_join(gerbil_root, ".gerbil"@),
        "lib"@,
    );
    match existing {
        Some(rest) => first + ":"@ + rest,
        None => first,
    }
}

/// `GERBIL_LOADPATH` with package sources and local `gxpkg` dependencies first.
///
/// `existing` is the loadpath set before. A root that holds `:` cannot be
/// joined into a loadpath.
pub fn gerbil_config_interface_loadpath_with_src(gerbil_root: &str, existing: Option<&str>) -> (loadpath:
    String)
    requires
        !contains_char(gerbil_root@, ':'),
    ensures
        loadpath@ == config_interface_loadpath(
            gerbil_root@,
            match existing {
                Some(e) => Some(e@),
                None => None,
            },
        ),
{
    let src = join_path(gerbil_root, "src");
    let gerbil = join_path(gerbil_root, ".gerbil");
    let lib = join_path(gerbil.as_str(), "lib");
    let with_sep = concat(src.as_str(), ":");
    let first = concat(with_sep.as_str(), lib.as_str());
    match existing {
        Some(rest) => {
            let more = concat(first.as_str(), ":");
            concat(more.as_str(), rest)
        },
        None => first,
    }
}

} // verus!
