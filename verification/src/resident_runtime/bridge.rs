//! Procedure bridge description for resident `Gerbil Scheme` strategy execution.

use vstd::prelude::*;

use super::execution::{
    GerbilResidentStrategyExecutionRequest, GerbilResidentStrategyExecutionResponse,
    GerbilResidentStrategyExecutionStatus,
};
use super::request::{GerbilResidentStrategyEventKind, lane_label};
use super::session::GerbilResidentRuntimeSessionId;
use crate::runtime::GerbilCommandProfile;
use super::datum::{
    datum_result_matches, datum_text, parse_scheme_value_datum, read_datum, reads_floats,
    scheme_value_to_datum, writes_floats,
};
use crate::text::{
    char_views, chars_of, i64_to_text, is_blank, signed_decimal_text, split_lines, string_from_chars,
    text_is_blank, text_lines, trim_spec, trim_text,
};
use crate::scheme_types::value::{
    GerbilSchemeValue, copy_value, lemma_last_given_distinct, record_lookup, same_value,
};

verus! {

/// Slow `gxi` backed smoke bridge for the real `Gerbil Scheme` strategy procedure.
///
/// It validates the typed procedure contract and receipt projection against a
/// real Gerbil runtime; it is not a runtime policy executor.
#[derive(Clone, Debug, PartialEq, Eq)]
pub struct GerbilResidentStrategyGxiSmokeBridge {
    pub command_profile: GerbilCommandProfile,
    pub procedure_module: String,
    pub procedure_name: String,
}

impl GerbilResidentStrategyGxiSmokeBridge {
    pub fn new(command_profile: GerbilCommandProfile, procedure_module: &str, procedure_name: &str) -> (bridge:
        Self)
        ensures
            bridge.command_profile == command_profile,
            bridge.procedure_module@ == procedure_module@,
            bridge.procedure_name@ == procedure_name@,
    {
        GerbilResidentStrategyGxiSmokeBridge {
            command_profile,
            procedure_module: procedure_module.to_owned(),
            procedure_name: procedure_name.to_owned(),
        }
    }

    /// The expression `gxi` evaluates to run the procedure on a request
    /// record: import the module, call the procedure on the quoted record and
    /// write its answer on a line.
    pub fn bridge_expression<F: Fn(u64) -> String>(&self, request_value: &GerbilSchemeValue, float_text: &F) -> (expression: String)
        requires
            forall|bits: u64| #[trigger] float_text.requires((bits,)),
        ensures
            forall|ft: spec_fn(u64) -> Seq<char>|
                #[trigger] writes_floats(*float_text, ft) ==> expression@ == "(begin (import "@
                    + self.procedure_module@ + ") (write ("@ + self.procedure_name@ + " (quote "@
                    + datum_text(*request_value, ft) + "))) (newline))"@,
    {
        let datum = scheme_value_to_datum(request_value, float_text);
        let mut expression = "(begin (import ".to_owned();
        expression.append(self.procedure_module.as_str());
        expression.append(") (write (");
        expression.append(self.procedure_name.as_str());
        expression.append(" (quote ");
        expression.append(datum.as_str());
        expression.append("))) (newline))");
        expression
    }

    /// The bridge to the Marlin deck runtime strategy procedure.
    pub fn marlin_deck_runtime(command_profile: GerbilCommandProfile) -> (bridge: Self)
        ensures
            bridge.command_profile == command_profile,
            bridge.procedure_module@ == ":marlin/deck-runtime-strategy"@,
            bridge.procedure_name@ == "marlin-deck-runtime-resident-strategy-execute"@,
    {
        Self::new(
            command_profile,
            ":marlin/deck-runtime-strategy",
            "marlin-deck-runtime-resident-strategy-execute",
        )
    }
}


/// The text a strategy event kind is sent as: its lane label.
pub fn strategy_event_kind_text(event_kind: GerbilResidentStrategyEventKind) -> (text: &'static str)
    ensures
        text@ == lane_label(event_kind),
{
    match event_kind {
        GerbilResidentStrategyEventKind::DynamicReplan => "dynamic-replan",
        GerbilResidentStrategyEventKind::PolicyChange => "policy-change",
    }
}

/// The execution status a bridge response text names.
pub open spec fn bridge_status(text: Seq<char>) -> Option<GerbilResidentStrategyExecutionStatus> {
    if text == "executed"@ {
        Some(GerbilResidentStrategyExecutionStatus::Executed)
    } else if text == "denied"@ {
        Some(GerbilResidentStrategyExecutionStatus::Denied)
    } else if text == "deferred"@ {
        Some(GerbilResidentStrategyExecutionStatus::Deferred)
    } else if text == "rejected-by-contract"@ {
        Some(GerbilResidentStrategyExecutionStatus::RejectedByContract)
    } else if text == "runtime-error"@ {
        Some(GerbilResidentStrategyExecutionStatus::RuntimeError)
    } else if text == "admission-rejected"@ {
        Some(GerbilResidentStrategyExecutionStatus::AdmissionRejected)
    } else {
        None
    }
}

/// The execution status a bridge response text names.
pub fn strategy_status_from_bridge_text(status: &str) -> (result: Result<
    GerbilResidentStrategyExecutionStatus,
    String,
>)
    ensures
        match result {
            Ok(s) => bridge_status(status@) == Some(s),
            Err(message) => bridge_status(status@) is None && message@
                == "unknown resident strategy response status: "@ + status@,
        },
{
    if crate::text::text_eq(status, "executed") {
        Ok(GerbilResidentStrategyExecutionStatus::Executed)
    } else if crate::text::text_eq(status, "denied") {
        Ok(GerbilResidentStrategyExecutionStatus::Denied)
    } else if crate::text::text_eq(status, "deferred") {
        Ok(GerbilResidentStrategyExecutionStatus::Deferred)
    } else if crate::text::text_eq(status, "rejected-by-contract") {
        Ok(GerbilResidentStrategyExecutionStatus::RejectedByContract)
    } else if crate::text::text_eq(status, "runtime-error") {
        Ok(GerbilResidentStrategyExecutionStatus::RuntimeError)
    } else if crate::text::text_eq(status, "admission-rejected") {
        Ok(GerbilResidentStrategyExecutionStatus::AdmissionRejected)
    } else {
        let mut message = "unknown resident strategy response status: ".to_owned();
        message.append(status);
        Err(message)
    }
}

/// A payload that is not null.
pub fn optional_bridge_value(value: Option<GerbilSchemeValue>) -> (payload: Option<GerbilSchemeValue>)
    ensures
        payload == match value {
            Some(GerbilSchemeValue::Null) => None,
            other => other,
        },
{
    match value {
        Some(GerbilSchemeValue::Null) => None,
        other => other,
    }
}

/// The member `key` of a record value.
pub open spec fn member_of(value: GerbilSchemeValue, key: Seq<char>) -> Option<GerbilSchemeValue> {
    match value {
        GerbilSchemeValue::Record(members) => record_lookup(members@, key),
        _ => None,
    }
}

/// The text of the member `key` of a record value, when it is text.
pub open spec fn member_text(value: GerbilSchemeValue, key: Seq<char>) -> Option<Seq<char>> {
    match member_of(value, key) {
        Some(GerbilSchemeValue::Text(t)) => Some(t@),
        _ => None,
    }
}

/// The Scheme record a strategy execution request is sent as: its request
/// id, lane, event kind, session id and policy epoch (null when absent), and
/// its payload.
pub fn resident_strategy_request_value(request: &GerbilResidentStrategyExecutionRequest) -> (value:
    GerbilSchemeValue)
    ensures
        member_text(value, "request_id"@) == Some(request.strategy_request.request_id@),
        member_text(value, "lane_id"@) == Some(request.strategy_request.lane_id@),
        member_text(value, "event_kind"@) == Some(lane_label(request.strategy_request.event_kind)),
        match request.strategy_request.session_id {
            Some(id) => member_text(value, "session_id"@) == Some(id@),
            None => member_of(value, "session_id"@) == Some(GerbilSchemeValue::Null),
        },
        member_of(value, "policy_epoch"@) == Some(
            match request.strategy_request.policy_epoch {
                Some(epoch) => GerbilSchemeValue::Integer(epoch as i64),
                None => GerbilSchemeValue::Null,
            },
        ),
        member_of(value, "payload"@) matches Some(p) && same_value(request.payload, p),
        forall|key: Seq<char>|
            key != "request_id"@ && key != "lane_id"@ && key != "event_kind"@ && key
                != "session_id"@ && key != "policy_epoch"@ && key != "payload"@ ==> #[trigger] member_of(
                value,
                key,
            ) is None,
{
    let strategy = &request.strategy_request;
    let session = match &strategy.session_id {
        Some(id) => GerbilSchemeValue::text(id.as_str()),
        None => GerbilSchemeValue::Null,
    };
    let epoch = match strategy.policy_epoch {
        Some(epoch) => GerbilSchemeValue::Integer(epoch as i64),
        None => GerbilSchemeValue::Null,
    };
    let fields = vec![
        ("request_id".to_owned(), GerbilSchemeValue::text(strategy.request_id.as_str())),
        ("lane_id".to_owned(), GerbilSchemeValue::text(strategy.lane_id.as_str())),
        (
            "event_kind".to_owned(),
            GerbilSchemeValue::text(strategy_event_kind_text(strategy.event_kind)),
        ),
        ("session_id".to_owned(), session),
        ("policy_epoch".to_owned(), epoch),
        ("payload".to_owned(), copy_value(&request.payload)),
    ];
    let ghost given = fields@;
    let value = GerbilSchemeValue::record(fields);
    proof {
        reveal_strlit("request_id");
        reveal_strlit("lane_id");
        reveal_strlit("event_kind");
        reveal_strlit("session_id");
        reveal_strlit("policy_epoch");
        reveal_strlit("payload");
        assert(given.len() == 6);
        assert(given[0].0@ == "request_id"@);
        assert(given[1].0@ == "lane_id"@);
        assert(given[2].0@ == "event_kind"@);
        assert(given[3].0@ == "session_id"@);
        assert(given[4].0@ == "policy_epoch"@);
        assert(given[5].0@ == "payload"@);
        assert forall|i: int, j: int| 0 <= i < j < given.len() implies #[trigger] given[i].0@
            != #[trigger] given[j].0@ by {
            assert(given[i].0@[0] != given[j].0@[0] || given[i].0@.len() != given[j].0@.len()
                || given[i].0@[1] != given[j].0@[1]);
        }
        lemma_last_given_distinct(given, "request_id"@);
        lemma_last_given_distinct(given, "lane_id"@);
        lemma_last_given_distinct(given, "event_kind"@);
        lemma_last_given_distinct(given, "session_id"@);
        lemma_last_given_distinct(given, "policy_epoch"@);
        lemma_last_given_distinct(given, "payload"@);
        assert forall|key: Seq<char>|
            key != "request_id"@ && key != "lane_id"@ && key != "event_kind"@ && key
                != "session_id"@ && key != "policy_epoch"@ && key != "payload"@ implies #[trigger] member_of(
                value,
                key,
            ) is None by {
            lemma_last_given_distinct(given, key);
        }
    }
    value
}

/// Why a bridge reply value is no response, if it is not one.
pub open spec fn reply_value_error(value: GerbilSchemeValue) -> Option<Seq<char>> {
    match member_text(value, "status"@) {
        None => Some("resident strategy response is missing text status"@),
        Some(text) => match bridge_status(text) {
            None => Some("unknown resident strategy response status: "@ + text),
            Some(_) => None,
        },
    }
}

/// `response` is what a bridge reply value with a known status reads as: the
/// status, the payload unless it is null, the text reason, and the text
/// derived session id unless it is empty.
pub open spec fn reply_value_response(
    value: GerbilSchemeValue,
    response: GerbilResidentStrategyExecutionResponse,
) -> bool {
    &&& member_text(value, "status"@) matches Some(text) && bridge_status(text) == Some(
        response.status,
    )
    &&& match member_of(value, "payload"@) {
        Some(GerbilSchemeValue::Null) | None => response.payload is None,
        Some(p) => response.payload matches Some(q) && same_value(p, q),
    }
    &&& match member_text(value, "reason"@) {
        Some(reason) => response.reason matches Some(s) && s@ == reason,
        None => response.reason is None,
    }
    &&& match member_text(value, "derived_session_id"@) {
        Some(id) => if id.len() > 0 {
            response.derived_session_id matches Some(s) && s@ == id
        } else {
            response.derived_session_id is None
        },
        None => response.derived_session_id is None,
    }
}

/// `response` is a runtime error with `reason` and nothing else.
pub open spec fn is_runtime_error(response: GerbilResidentStrategyExecutionResponse, reason: Seq<
    char,
>) -> bool {
    &&& response.status == GerbilResidentStrategyExecutionStatus::RuntimeError
    &&& response.payload is None
    &&& response.reason matches Some(r) && r@ == reason
    &&& response.derived_session_id is None
}

/// Reads a strategy execution response from the record a bridge procedure returned.
pub fn from_scheme_bridge_value(value: GerbilSchemeValue) -> (response: Result<
    GerbilResidentStrategyExecutionResponse,
    String,
>)
    ensures
        match reply_value_error(value) {
            Some(m) => response matches Err(e) && e@ == m,
            None => response matches Ok(r) && reply_value_response(value, r),
        },
{
    let status = match value.get("status") {
        Some(GerbilSchemeValue::Text(t)) => t.as_str(),
        _ => {
            return Err("resident strategy response is missing text status".to_owned());
        },
    };
    let status = strategy_status_from_bridge_text(status)?;
    let payload = match value.get("payload") {
        Some(p) => optional_bridge_value(Some(copy_value(p))),
        None => None,
    };
    let reason = match value.get("reason") {
        Some(GerbilSchemeValue::Text(t)) => Some(t.clone()),
        _ => None,
    };
    let derived_session_id = match value.get("derived_session_id") {
        Some(GerbilSchemeValue::Text(t)) => if t.as_str().is_empty() {
            None
        } else {
            Some(GerbilResidentRuntimeSessionId::new(t.as_str()))
        },
        _ => None,
    };
    Ok(GerbilResidentStrategyExecutionResponse { status, payload, reason, derived_session_id })
}

} // verus!

verus! {

/// The response a parsed bridge reply answers with: a reply that did not
/// parse, or that reads as no response, is a runtime error with its reason.
pub open spec fn reply_response(
    reply: Result<GerbilSchemeValue, String>,
    response: GerbilResidentStrategyExecutionResponse,
) -> bool {
    match reply {
        Err(e) => is_runtime_error(response, e@),
        Ok(v) => match reply_value_error(v) {
            Some(m) => is_runtime_error(response, m),
            None => reply_value_response(v, response),
        },
    }
}

/// The response a parsed bridge reply answers with.
pub fn response_from_bridge_reply(reply: Result<GerbilSchemeValue, String>) -> (response:
    GerbilResidentStrategyExecutionResponse)
    ensures
        reply_response(reply, response),
{
    let read = match reply {
        Ok(value) => from_scheme_bridge_value(value),
        Err(e) => Err(e),
    };
    match read {
        Ok(response) => response,
        Err(e) => GerbilResidentStrategyExecutionResponse::runtime_error(e.as_str()),
    }
}

/// How an exit code is shown: `Some(code)` or `None`.
pub open spec fn exit_code_text(code: Option<i32>) -> Seq<char> {
    match code {
        Some(n) => "Some("@ + signed_decimal_text(n as int) + ")"@,
        None => "None"@,
    }
}

/// The reason a failed bridge command gives: its exit code and its trimmed
/// standard output and error.
pub open spec fn command_failure_reason(code: Option<i32>, stdout: Seq<char>, stderr: Seq<char>) -> Seq<
    char,
> {
    "resident Gerbil strategy procedure failed status="@ + exit_code_text(code) + " stdout="@
        + trim_spec(stdout) + " stderr="@ + trim_spec(stderr)
}

/// The reason a failed bridge command gives.
pub fn bridge_command_failure_reason(status_code: Option<i32>, stdout: &str, stderr: &str) -> (reason:
    String)
    ensures
        reason@ == command_failure_reason(status_code, stdout@, stderr@),
{
    let mut reason = "resident Gerbil strategy procedure failed status=".to_owned();
    match status_code {
        Some(n) => {
            reason.append("Some(");
            let digits = i64_to_text(n as i64);
            reason.append(digits.as_str());
            reason.append(")");
        },
        None => reason.append("None"),
    }
    reason.append(" stdout=");
    let out = trim_text(stdout);
    reason.append(out.as_str());
    reason.append(" stderr=");
    let err = trim_text(stderr);
    reason.append(err.as_str());
    reason
}

/// The last line of `lines` that is not blank.
pub open spec fn last_non_blank(lines: Seq<Seq<char>>) -> Option<Seq<char>>
    decreases lines.len(),
{
    if lines.len() == 0 {
        None
    } else if !is_blank(lines.last()) {
        Some(lines.last())
    } else {
        last_non_blank(lines.drop_last())
    }
}

/// The last line of a command's output that is not blank.
pub fn last_output_line(stdout: &str) -> (line: Option<String>)
    ensures
        match (line, last_non_blank(text_lines(stdout@))) {
            (Some(l), Some(m)) => l@ == m,
            (None, None) => true,
            _ => false,
        },
{
    let chars = chars_of(stdout);
    let lines = split_lines(&chars);
    let ghost all = char_views(lines@);
    let mut n = lines.len();
    assert(all.len() == lines@.len());
    assert(all.take(n as int) =~= all);
    while n > 0
        invariant
            n <= lines.len(),
            all == char_views(lines@),
            all == text_lines(stdout@),
            last_non_blank(all) == last_non_blank(all.take(n as int)),
        decreases n,
    {
        let text = string_from_chars(&lines[n - 1]);
        assert(all.take(n as int).last() == lines@[n - 1]@);
        assert(all.take(n as int).drop_last() =~= all.take(n - 1));
        if !text_is_blank(text.as_str()) {
            return Some(text);
        }
        n -= 1;
    }
    None
}

/// The response a bridge command answers with, from whether it succeeded,
/// its exit code and what it wrote: a failure is a runtime error with the
/// command's reason; otherwise the last line that is not blank, trimmed, is
/// read as a datum (`float_bits` reads float atoms) and then as a response.
pub fn bridge_response_from_output<G: Fn(&str) -> Option<u64>>(
    success: bool,
    status_code: Option<i32>,
    stdout: &str,
    stderr: &str,
    float_bits: &G,
) -> (response: GerbilResidentStrategyExecutionResponse)
    requires
        forall|atom: &str| #[trigger] float_bits.requires((atom,)),
    ensures
        !success ==> is_runtime_error(response, command_failure_reason(status_code, stdout@, stderr@)),
        success && last_non_blank(text_lines(stdout@)) is None ==> is_runtime_error(
            response,
            "resident Gerbil strategy procedure returned no output"@,
        ),
        success && last_non_blank(text_lines(stdout@)) is Some ==> exists|
            reply: Result<GerbilSchemeValue, String>,
        |
            reply_response(reply, response) && forall|fl: spec_fn(Seq<char>) -> Option<u64>|
                #[trigger] reads_floats(*float_bits, fl) ==> datum_result_matches(
                    reply,
                    read_datum(trim_spec(last_non_blank(text_lines(stdout@))->Some_0), fl),
                ),
{
    if !success {
        let reason = bridge_command_failure_reason(status_code, stdout, stderr);
        return GerbilResidentStrategyExecutionResponse::runtime_error(reason.as_str());
    }
    let line = match last_output_line(stdout) {
        Some(line) => line,
        None => {
            return GerbilResidentStrategyExecutionResponse::runtime_error(
                "resident Gerbil strategy procedure returned no output",
            );
        },
    };
    let trimmed = trim_text(line.as_str());
    let reply = parse_scheme_value_datum(trimmed.as_str(), float_bits);
    let ghost kept = reply;
    let response = response_from_bridge_reply(reply);
    assert(reply_response(kept, response));
    response
}

/// The text a bridge procedure answers each execution status with.
pub open spec fn status_text(status: GerbilResidentStrategyExecutionStatus) -> Seq<char> {
    match status {
        GerbilResidentStrategyExecutionStatus::Executed => "executed"@,
        GerbilResidentStrategyExecutionStatus::Denied => "denied"@,
        GerbilResidentStrategyExecutionStatus::Deferred => "deferred"@,
        GerbilResidentStrategyExecutionStatus::RejectedByContract => "rejected-by-contract"@,
        GerbilResidentStrategyExecutionStatus::RuntimeError => "runtime-error"@,
        GerbilResidentStrategyExecutionStatus::AdmissionRejected => "admission-rejected"@,
    }
}

/// Law: a reply text names a status exactly when it is that status's own
/// kebab-case name, so every status can be answered and no two texts share
/// one.
pub proof fn law_bridge_status_texts(text: Seq<char>, status: GerbilResidentStrategyExecutionStatus)
    ensures
        bridge_status(text) == Some(status) <==> text == status_text(status),
        bridge_status("executed"@) == Some(GerbilResidentStrategyExecutionStatus::Executed),
        bridge_status("denied"@) == Some(GerbilResidentStrategyExecutionStatus::Denied),
        bridge_status("deferred"@) == Some(GerbilResidentStrategyExecutionStatus::Deferred),
        bridge_status("rejected-by-contract"@) == Some(
            GerbilResidentStrategyExecutionStatus::RejectedByContract,
        ),
        bridge_status("runtime-error"@) == Some(GerbilResidentStrategyExecutionStatus::RuntimeError),
        bridge_status("admission-rejected"@) == Some(
            GerbilResidentStrategyExecutionStatus::AdmissionRejected,
        ),
{
    reveal_strlit("executed");
    reveal_strlit("denied");
    reveal_strlit("deferred");
    reveal_strlit("rejected-by-contract");
    reveal_strlit("runtime-error");
    reveal_strlit("admission-rejected");
    let names = seq![
        "executed"@,
        "denied"@,
        "deferred"@,
        "rejected-by-contract"@,
        "runtime-error"@,
        "admission-rejected"@,
    ];
    assert forall|a: int, b: int| 0 <= a < b < 6 implies #[trigger] names[a] != #[trigger] names[b] by {
        assert(names[a].len() != names[b].len() || names[a][0] != names[b][0]);
    }
    assert(names[0] == "executed"@ && names[1] == "denied"@ && names[2] == "deferred"@ && names[3]
        == "rejected-by-contract"@ && names[4] == "runtime-error"@ && names[5]
        == "admission-rejected"@);
}

} // verus!

