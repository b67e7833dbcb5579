//! Typed loop-program projection for Scheme vertical case-driver receipts.
//!
//! The projected program is held in this crate's own plain types: its id,
//! policy epoch and digest, mechanism policies, initial state and one
//! transition per action/event pair of the receipt.

use vstd::prelude::*;

use super::vertical_trace::types::GerbilLoopCaseDriverVerticalTraceReceipt;
use crate::text::{seq_views, text_eq, u64_to_text, decimal_text};

verus! {

/// Error returned when a Scheme vertical receipt cannot become a loop program.
#[derive(Clone, Debug, PartialEq, Eq)]
pub struct GerbilLoopCaseDriverLoopProgramProjectionError {
    message: String,
}

impl View for GerbilLoopCaseDriverLoopProgramProjectionError {
    type V = Seq<char>;

    closed spec fn view(&self) -> Seq<char> {
        self.message@
    }
}

impl GerbilLoopCaseDriverLoopProgramProjectionError {
    fn new(message: String) -> (error: Self)
        ensures
            error@ == message@,
    {
        GerbilLoopCaseDriverLoopProgramProjectionError { message }
    }

    #[must_use]
    pub fn message(&self) -> (text: &str)
        ensures
            text@ == self@,
    {
        self.message.as_str()
    }
}

/// Action a loop-program transition takes.
#[derive(Clone, Copy, Debug, PartialEq, Eq, Structural)]
pub enum LoopProgramActionKind {
    Continue,
    DispatchTools,
    InvokeModel,
    ReadMemory,
    RewriteGraph,
    RuntimeHandoff,
    Stop,
    Verify,
}

/// Event that triggers a loop-program transition.
#[derive(Clone, Copy, Debug, PartialEq, Eq, Structural)]
pub enum LoopProgramEventKind {
    Error,
    ModelEvent,
    RuntimeReceipt,
    Start,
    ToolReceipt,
    ToolRequest,
    VerificationReceipt,
}

/// One transition of a projected loop program.
#[derive(Clone, Debug, PartialEq, Eq)]
pub struct GerbilLoopCaseDriverLoopTransition {
    pub transition_id: String,
    pub from: String,
    pub event: LoopProgramEventKind,
    pub action: LoopProgramActionKind,
    pub to: String,
}

/// Loop program projected from a verified Scheme vertical receipt.
#[derive(Clone, Debug, PartialEq, Eq)]
pub struct GerbilLoopCaseDriverLoopProgram {
    pub program_id: String,
    pub policy_epoch: u64,
    pub policy_digest: Vec<u8>,
    pub mechanism_policies: Vec<String>,
    pub initial_state: String,
    pub transitions: Vec<GerbilLoopCaseDriverLoopTransition>,
}

/// The action a Scheme token names.
pub open spec fn action_kind_of(token: Seq<char>) -> Option<LoopProgramActionKind> {
    if token == "continue"@ {
        Some(LoopProgramActionKind::Continue)
    } else if token == "dispatch_tools"@ {
        Some(LoopProgramActionKind::DispatchTools)
    } else if token == "invoke_model"@ {
        Some(LoopProgramActionKind::InvokeModel)
    } else if token == "read_memory"@ {
        Some(LoopProgramActionKind::ReadMemory)
    } else if token == "rewrite_graph"@ {
        Some(LoopProgramActionKind::RewriteGraph)
    } else if token == "runtime_handoff"@ {
        Some(LoopProgramActionKind::RuntimeHandoff)
    } else if token == "stop"@ {
        Some(LoopProgramActionKind::Stop)
    } else if token == "verify"@ {
        Some(LoopProgramActionKind::Verify)
    } else {
        None
    }
}

/// The event a Scheme token names.
pub open spec fn event_kind_of(token: Seq<char>) -> Option<LoopProgramEventKind> {
    if token == "error"@ {
        Some(LoopProgramEventKind::Error)
    } else if token == "model_event"@ {
        Some(LoopProgramEventKind::ModelEvent)
    } else if token == "runtime_receipt"@ {
        Some(LoopProgramEventKind::RuntimeReceipt)
    } else if token == "start"@ {
        Some(LoopProgramEventKind::Start)
    } else if token == "tool_receipt"@ {
        Some(LoopProgramEventKind::ToolReceipt)
    } else if token == "tool_request"@ {
        Some(LoopProgramEventKind::ToolRequest)
    } else if token == "verification_receipt"@ {
        Some(LoopProgramEventKind::VerificationReceipt)
    } else {
        None
    }
}

/// Project a Scheme transition action token into a loop-program action.
pub fn project_gerbil_loop_case_driver_loop_action_kind(action: &str) -> (kind: Result<
    LoopProgramActionKind,
    GerbilLoopCaseDriverLoopProgramProjectionError,
>)
    ensures
        match kind {
            Ok(k) => action_kind_of(action@) == Some(k),
            Err(e) => action_kind_of(action@) is None && e@
                == "unsupported Scheme-projected loop action "@ + action@,
        },
{
    if text_eq(action, "continue") {
        Ok(LoopProgramActionKind::Continue)
    } else if text_eq(action, "dispatch_tools") {
        Ok(LoopProgramActionKind::DispatchTools)
    } else if text_eq(action, "invoke_model") {
        Ok(LoopProgramActionKind::InvokeModel)
    } else if text_eq(action, "read_memory") {
        Ok(LoopProgramActionKind::ReadMemory)
    } else if text_eq(action, "rewrite_graph") {
        Ok(LoopProgramActionKind::RewriteGraph)
    } else if text_eq(action, "runtime_handoff") {
        Ok(LoopProgramActionKind::RuntimeHandoff)
    } else if text_eq(action, "stop") {
        Ok(LoopProgramActionKind::Stop)
    } else if text_eq(action, "verify") {
        Ok(LoopProgramActionKind::Verify)
    } else {
        let mut message = "unsupported Scheme-projected loop action ".to_owned();
        message.append(action);
        Err(GerbilLoopCaseDriverLoopProgramProjectionError::new(message))
    }
}

/// Project a Scheme transition event token into a loop-program event.
pub fn project_gerbil_loop_case_driver_loop_event_kind(event: &str) -> (kind: Result<
    LoopProgramEventKind,
    GerbilLoopCaseDriverLoopProgramProjectionError,
>)
    ensures
        match kind {
            Ok(k) => event_kind_of(event@) == Some(k),
            Err(e) => event_kind_of(event@) is None && e@
                == "unsupported Scheme-projected loop event "@ + event@,
        },
{
    if text_eq(event, "error") {
        Ok(LoopProgramEventKind::Error)
    } else if text_eq(event, "model_event") {
        Ok(LoopProgramEventKind::ModelEvent)
    } else if text_eq(event, "runtime_receipt") {
        Ok(LoopProgramEventKind::RuntimeReceipt)
    } else if text_eq(event, "start") {
        Ok(LoopProgramEventKind::Start)
    } else if text_eq(event, "tool_receipt") {
        Ok(LoopProgramEventKind::ToolReceipt)
    } else if text_eq(event, "tool_request") {
        Ok(LoopProgramEventKind::ToolRequest)
    } else if text_eq(event, "verification_receipt") {
        Ok(LoopProgramEventKind::VerificationReceipt)
    } else {
        let mut text = "unsupported Scheme-projected loop event ".to_owned();
        text.append(event);
        Err(GerbilLoopCaseDriverLoopProgramProjectionError::new(text))
    }
}

/// First token of `tokens` that names no action.
pub open spec fn first_unknown_action(tokens: Seq<Seq<char>>) -> Option<Seq<char>>
    decreases tokens.len(),
{
    if tokens.len() == 0 {
        None
    } else if action_kind_of(tokens[0]) is None {
        Some(tokens[0])
    } else {
        first_unknown_action(tokens.drop_first())
    }
}

/// First token of `tokens` that names no event.
pub open spec fn first_unknown_event(tokens: Seq<Seq<char>>) -> Option<Seq<char>>
    decreases tokens.len(),
{
    if tokens.len() == 0 {
        None
    } else if event_kind_of(tokens[0]) is None {
        Some(tokens[0])
    } else {
        first_unknown_event(tokens.drop_first())
    }
}

/// Error of projecting a receipt into a loop program: an unknown action, then
/// an unknown event, then a digest that is not exactly 32 octets.
pub open spec fn loop_program_error(r: GerbilLoopCaseDriverVerticalTraceReceipt) -> Option<Seq<char>> {
    if first_unknown_action(seq_views(r.transition_actions@)) is Some {
        Some(
            "unsupported Scheme-projected loop action "@ + first_unknown_action(
                seq_views(r.transition_actions@),
            )->Some_0,
        )
    } else if first_unknown_event(seq_views(r.transition_events@)) is Some {
        Some(
            "unsupported Scheme-projected loop event "@ + first_unknown_event(
                seq_views(r.transition_events@),
            )->Some_0,
        )
    } else if r.policy_digest_octets@.len() != 32 {
        Some(
            "Scheme-projected policy digest for "@ + r.loop_program_id@
                + " must be exactly 32 octets"@,
        )
    } else {
        None
    }
}

/// `"scheme-state-<i>"`.
pub open spec fn state_name(i: nat) -> Seq<char> {
    "scheme-state-"@ + decimal_text(i)
}

/// `t` is transition `i` of a program projected from `r`.
pub open spec fn is_projected_transition(
    t: GerbilLoopCaseDriverLoopTransition,
    i: int,
    r: GerbilLoopCaseDriverVerticalTraceReceipt,
) -> bool {
    &&& t.transition_id@ == "scheme-projected-transition-"@ + decimal_text(i as nat)
    &&& t.from@ == state_name(i as nat)
    &&& Some(t.event) == event_kind_of(r.transition_events@[i]@)
    &&& Some(t.action) == action_kind_of(r.transition_actions@[i]@)
    &&& t.to@ == state_name((i + 1) as nat)
}

/// `p` is the loop program projected from `r`.
pub open spec fn is_projected_program(
    p: GerbilLoopCaseDriverLoopProgram,
    r: GerbilLoopCaseDriverVerticalTraceReceipt,
) -> bool {
    &&& p.program_id@ == r.loop_program_id@
    &&& p.policy_epoch == r.loop_program_policy_epoch
    &&& p.policy_digest@ == r.policy_digest_octets@
    &&& seq_views(p.mechanism_policies@) == seq_views(r.mechanism_policy_ids@)
    &&& p.initial_state@ == state_name(0)
    &&& p.transitions@.len() == if r.transition_actions@.len() <= r.transition_events@.len() {
        r.transition_actions@.len()
    } else {
        r.transition_events@.len()
    }
    &&& forall|i: int|
        0 <= i < p.transitions@.len() ==> is_projected_transition(#[trigger] p.transitions@[i], i, r)
}

/// Projects every token of `tokens` into an action, stopping at the first unknown one.
fn project_actions(tokens: &Vec<String>) -> (kinds: Result<
    Vec<LoopProgramActionKind>,
    GerbilLoopCaseDriverLoopProgramProjectionError,
>)
    ensures
        match kinds {
            Ok(ks) => first_unknown_action(seq_views(tokens@)) is None && ks@.len() == tokens@.len()
                && forall|i: int| 0 <= i < ks@.len() ==> Some(#[trigger] ks@[i]) == action_kind_of(
                    tokens@[i]@,
                ),
            Err(e) => first_unknown_action(seq_views(tokens@)) is Some && e@
                == "unsupported Scheme-projected loop action "@ + first_unknown_action(
                seq_views(tokens@),
            )->Some_0,
        },
{
    let ghost views = seq_views(tokens@);
    let mut kinds: Vec<LoopProgramActionKind> = Vec::new();
    let mut i: usize = 0;
    assert(views.skip(0) =~= views);
    while i < tokens.len()
        invariant
            i <= tokens.len(),
            views == seq_views(tokens@),
            first_unknown_action(views) == first_unknown_action(views.skip(i as int)),
            kinds@.len() == i,
            forall|j: int| 0 <= j < i ==> Some(#[trigger] kinds@[j]) == action_kind_of(
                tokens@[j]@,
            ),
        decreases tokens.len() - i,
    {
        assert(views.skip(i as int)[0] == tokens@[i as int]@);
        assert(views.skip(i as int).drop_first() =~= views.skip(i + 1));
        match project_gerbil_loop_case_driver_loop_action_kind(tokens[i].as_str()) {
            Ok(k) => {
                kinds.push(k);
            },
            Err(e) => {
                return Err(e);
            },
        }
        i += 1;
    }
    assert(views.skip(i as int) =~= Seq::<Seq<char>>::empty());
    Ok(kinds)
}

/// Projects every token of `tokens` into an event, stopping at the first unknown one.
fn project_events(tokens: &Vec<String>) -> (kinds: Result<
    Vec<LoopProgramEventKind>,
    GerbilLoopCaseDriverLoopProgramProjectionError,
>)
    ensures
        match kinds {
            Ok(ks) => first_unknown_event(seq_views(tokens@)) is None && ks@.len() == tokens@.len()
                && forall|i: int| 0 <= i < ks@.len() ==> Some(#[trigger] ks@[i]) == event_kind_of(
                    tokens@[i]@,
                ),
            Err(e) => first_unknown_event(seq_views(tokens@)) is Some && e@
                == "unsupported Scheme-projected loop event "@ + first_unknown_event(
                seq_views(tokens@),
            )->Some_0,
        },
{
    let ghost views = seq_views(tokens@);
    let mut kinds: Vec<LoopProgramEventKind> = Vec::new();
    let mut i: usize = 0;
    assert(views.skip(0) =~= views);
    while i < tokens.len()
        invariant
            i <= tokens.len(),
            views == seq_views(tokens@),
            first_unknown_event(views) == first_unknown_event(views.skip(i as int)),
            kinds@.len() == i,
            forall|j: int| 0 <= j < i ==> Some(#[trigger] kinds@[j]) == event_kind_of(
                tokens@[j]@,
            ),
        decreases tokens.len() - i,
    {
        assert(views.skip(i as int)[0] == tokens@[i as int]@);
        assert(views.skip(i as int).drop_first() =~= views.skip(i + 1));
        match project_gerbil_loop_case_driver_loop_event_kind(tokens[i].as_str()) {
            Ok(k) => {
                kinds.push(k);
            },
            Err(e) => {
                return Err(e);
            },
        }
        i += 1;
    }
    assert(views.skip(i as int) =~= Seq::<Seq<char>>::empty());
    Ok(kinds)
}

/// `prefix` followed by the decimal text of `n`.
fn numbered(prefix: &str, n: u64) -> (text: String)
    ensures
        text@ == prefix@ + decimal_text(n as nat),
{
    let mut text = prefix.to_owned();
    let number = u64_to_text(n);
    text.append(number.as_str());
    text
}

/// Project a verified Scheme vertical trace receipt into a loop program.
pub fn project_gerbil_loop_case_driver_loop_program(
    receipt: &GerbilLoopCaseDriverVerticalTraceReceipt,
) -> (program: Result<GerbilLoopCaseDriverLoopProgram, GerbilLoopCaseDriverLoopProgramProjectionError>)
    ensures
        match program {
            Ok(p) => loop_program_error(*receipt) is None && is_projected_program(p, *receipt),
            Err(e) => loop_program_error(*receipt) == Some(e@),
        },
{
    let actions = match project_actions(&receipt.transition_actions) {
        Ok(a) => a,
        Err(e) => return Err(e),
    };
    let events = match project_events(&receipt.transition_events) {
        Ok(e) => e,
        Err(e) => return Err(e),
    };
    if receipt.policy_digest_octets.len() != 32 {
        let mut message = "Scheme-projected policy digest for ".to_owned();
        message.append(receipt.loop_program_id.as_str());
        message.append(" must be exactly 32 octets");
        return Err(GerbilLoopCaseDriverLoopProgramProjectionError::new(message));
    }
    let count = if actions.len() <= events.len() {
        actions.len()
    } else {
        events.len()
    };
    let mut transitions: Vec<GerbilLoopCaseDriverLoopTransition> = Vec::new();
    let mut i: usize = 0;
    while i < count
        invariant
            i <= count,
            count <= actions@.len(),
            count <= events@.len(),
            actions@.len() == receipt.transition_actions@.len(),
            events@.len() == receipt.transition_events@.len(),
            forall|j: int| 0 <= j < actions@.len() ==> Some(#[trigger] actions@[j]) == action_kind_of(
                receipt.transition_actions@[j]@,
            ),
            forall|j: int| 0 <= j < events@.len() ==> Some(#[trigger] events@[j]) == event_kind_of(
                receipt.transition_events@[j]@,
            ),
            transitions@.len() == i,
            forall|j: int|
                0 <= j < i ==> is_projected_transition(#[trigger] transitions@[j], j, *receipt),
        decreases count - i,
    {
        let transition = GerbilLoopCaseDriverLoopTransition {
            transition_id: numbered("scheme-projected-transition-", i as u64),
            from: numbered("scheme-state-", i as u64),
            event: events[i],
            action: actions[i],
            to: numbered("scheme-state-", (i + 1) as u64),
        };
        transitions.push(transition);
        i += 1;
    }
    let mechanism_policies = receipt.mechanism_policy_ids.clone();
    assert(mechanism_policies@ =~= receipt.mechanism_policy_ids@);
    let policy_digest = receipt.policy_digest_octets.clone();
    assert(policy_digest@ =~= receipt.policy_digest_octets@);
    Ok(
        GerbilLoopCaseDriverLoopProgram {
            program_id: receipt.loop_program_id.as_str().to_owned(),
            policy_epoch: receipt.loop_program_policy_epoch,
            policy_digest,
            mechanism_policies,
            initial_state: numbered("scheme-state-", 0),
            transitions,
        },
    )
}

/// The Scheme token of each loop action: its name in snake case.
pub open spec fn action_token(kind: LoopProgramActionKind) -> Seq<char> {
    match kind {
        LoopProgramActionKind::Continue => "continue"@,
        LoopProgramActionKind::DispatchTools => "dispatch_tools"@,
        LoopProgramActionKind::InvokeModel => "invoke_model"@,
        LoopProgramActionKind::ReadMemory => "read_memory"@,
        LoopProgramActionKind::RewriteGraph => "rewrite_graph"@,
        LoopProgramActionKind::RuntimeHandoff => "runtime_handoff"@,
        LoopProgramActionKind::Stop => "stop"@,
        LoopProgramActionKind::Verify => "verify"@,
    }
}

/// The Scheme token of each loop event: its name in snake case.
pub open spec fn event_token(kind: LoopProgramEventKind) -> Seq<char> {
    match kind {
        LoopProgramEventKind::Error => "error"@,
        LoopProgramEventKind::ModelEvent => "model_event"@,
        LoopProgramEventKind::RuntimeReceipt => "runtime_receipt"@,
        LoopProgramEventKind::Start => "start"@,
        LoopProgramEventKind::ToolReceipt => "tool_receipt"@,
        LoopProgramEventKind::ToolRequest => "tool_request"@,
        LoopProgramEventKind::VerificationReceipt => "verification_receipt"@,
    }
}

/// Law: a token projects to an action exactly when it is that action's own
/// name, so each action is reached from its name and no two tokens share an
/// action.
pub proof fn law_action_tokens(token: Seq<char>, kind: LoopProgramActionKind)
    ensures
        action_kind_of(token) == Some(kind) <==> token == action_token(kind),
        action_kind_of("continue"@) == Some(LoopProgramActionKind::Continue),
        action_kind_of("dispatch_tools"@) == Some(LoopProgramActionKind::DispatchTools),
        action_kind_of("invoke_model"@) == Some(LoopProgramActionKind::InvokeModel),
        action_kind_of("read_memory"@) == Some(LoopProgramActionKind::ReadMemory),
        action_kind_of("rewrite_graph"@) == Some(LoopProgramActionKind::RewriteGraph),
        action_kind_of("runtime_handoff"@) == Some(LoopProgramActionKind::RuntimeHandoff),
        action_kind_of("stop"@) == Some(LoopProgramActionKind::Stop),
        action_kind_of("verify"@) == Some(LoopProgramActionKind::Verify),
{
    reveal_strlit("continue");
    reveal_strlit("dispatch_tools");
    reveal_strlit("invoke_model");
    reveal_strlit("read_memory");
    reveal_strlit("rewrite_graph");
    reveal_strlit("runtime_handoff");
    reveal_strlit("stop");
    reveal_strlit("verify");
    let names = seq![
        "continue"@,
        "dispatch_tools"@,
        "invoke_model"@,
        "read_memory"@,
        "rewrite_graph"@,
        "runtime_handoff"@,
        "stop"@,
        "verify"@,
    ];
    assert forall|a: int, b: int| 0 <= a < b < 8 implies #[trigger] names[a] != #[trigger] names[b] by {
        assert(names[a].len() != names[b].len());
    }
    assert(names[0] == "continue"@ && names[1] == "dispatch_tools"@ && names[2] == "invoke_model"@
        && names[3] == "read_memory"@ && names[4] == "rewrite_graph"@ && names[5]
        == "runtime_handoff"@ && names[6] == "stop"@ && names[7] == "verify"@);
}

/// Law: a token projects to an event exactly when it is that event's own name.
pub proof fn law_event_tokens(token: Seq<char>, kind: LoopProgramEventKind)
    ensures
        event_kind_of(token) == Some(kind) <==> token == event_token(kind),
        event_kind_of("error"@) == Some(LoopProgramEventKind::Error),
        event_kind_of("model_event"@) == Some(LoopProgramEventKind::ModelEvent),
        event_kind_of("runtime_receipt"@) == Some(LoopProgramEventKind::RuntimeReceipt),
        event_kind_of("start"@) == Some(LoopProgramEventKind::Start),
        event_kind_of("tool_receipt"@) == Some(LoopProgramEventKind::ToolReceipt),
        event_kind_of("tool_request"@) == Some(LoopProgramEventKind::ToolRequest),
        event_kind_of("verification_receipt"@) == Some(LoopProgramEventKind::VerificationReceipt),
{
    reveal_strlit("error");
    reveal_strlit("model_event");
    reveal_strlit("runtime_receipt");
    reveal_strlit("start");
    reveal_strlit("tool_receipt");
    reveal_strlit("tool_request");
    reveal_strlit("verification_receipt");
    let names = seq![
        "error"@,
        "model_event"@,
        "runtime_receipt"@,
        "start"@,
        "tool_receipt"@,
        "tool_request"@,
        "verification_receipt"@,
    ];
    assert forall|a: int, b: int| 0 <= a < b < 7 implies #[trigger] names[a] != #[trigger] names[b] by {
        assert(names[a].len() != names[b].len() || names[a][0] != names[b][0] || names[a][7]
            != names[b][7]);
    }
    assert(names[0] == "error"@ && names[1] == "model_event"@ && names[2] == "runtime_receipt"@
        && names[3] == "start"@ && names[4] == "tool_receipt"@ && names[5] == "tool_request"@
        && names[6] == "verification_receipt"@);
}

} // verus!

