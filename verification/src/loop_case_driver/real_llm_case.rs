//! Typed receipt projection for real LLM loop case runner diagnostics.
//!
//! The runner's output carries marker lines (`marlin-real-llm-case.case_id=...`)
//! and a JSON trace object. The JSON text is decoded with `serde_json` into
//! [`TraceJson`]; this module reads the markers and the decoded trace.

use vstd::prelude::*;

use crate::text::{
    chars_of, copy_range, debug_str, debug_str_text, find_char, first_index_of, i32_parse_spec,
    int_error_message, int_error_text, parse_i32_text, parse_u64_text, string_from_chars, text_eq,
    unsigned_parse_spec, IntParseErrorKind,
};

verus! {

/// A JSON number as the trace decoder classifies it.
#[derive(Clone, Copy, Debug, PartialEq, Eq, Structural)]
pub enum TraceJsonNumber {
    PosInt(u64),
    NegInt(i64),
    Float,
}

/// A decoded JSON value of a runner trace; object members keep their order
/// and have distinct keys.
#[derive(Debug, PartialEq, Eq)]
pub enum TraceJson {
    Null,
    Bool(bool),
    Number(TraceJsonNumber),
    String(String),
    Array(Vec<TraceJson>),
    Object(Vec<(String, TraceJson)>),
}

/// Rust-owned receipt projected from the real LLM loop case CLI boundary.
#[derive(Clone, Debug, PartialEq, Eq)]
pub struct GerbilLoopCaseDriverRealLlmCaseReceipt {
    pub case_id: String,
    pub result: String,
    pub rounds_used: u64,
    pub terminal_status: String,
    pub iteration_count: u64,
    pub process_exit_status: i32,
    pub continuation_planner: Option<String>,
    pub failure_classification_receipt_present: bool,
    pub governance_receipt_present: bool,
    pub nono_sandbox_materialized: bool,
    pub human_audit_decision: bool,
}

impl GerbilLoopCaseDriverRealLlmCaseReceipt {
    #[must_use]
    pub fn case_id(&self) -> (value: &str)
        ensures
            value@ == self.case_id@,
    {
        self.case_id.as_str()
    }

    #[must_use]
    pub fn result(&self) -> (value: &str)
        ensures
            value@ == self.result@,
    {
        self.result.as_str()
    }

    #[must_use]
    pub fn rounds_used(&self) -> (value: u64)
        ensures
            value == self.rounds_used,
    {
        self.rounds_used
    }

    #[must_use]
    pub fn terminal_status(&self) -> (value: &str)
        ensures
            value@ == self.terminal_status@,
    {
        self.terminal_status.as_str()
    }

    #[must_use]
    pub fn iteration_count(&self) -> (value: u64)
        ensures
            value == self.iteration_count,
    {
        self.iteration_count
    }

    #[must_use]
    pub fn process_exit_status(&self) -> (value: i32)
        ensures
            value == self.process_exit_status,
    {
        self.process_exit_status
    }

    #[must_use]
    pub fn continuation_planner(&self) -> (value: Option<&str>)
        ensures
            match self.continuation_planner {
                Some(p) => value is Some && value->Some_0@ == p@,
                None => value is None,
            },
    {
        match &self.continuation_planner {
            Some(p) => Some(p.as_str()),
            None => None,
        }
    }

    #[must_use]
    pub fn failure_classification_receipt_present(&self) -> (value: bool)
        ensures
            value == self.failure_classification_receipt_present,
    {
        self.failure_classification_receipt_present
    }

    #[must_use]
    pub fn governance_receipt_present(&self) -> (value: bool)
        ensures
            value == self.governance_receipt_present,
    {
        self.governance_receipt_present
    }

    #[must_use]
    pub fn nono_sandbox_materialized(&self) -> (value: bool)
        ensures
            value == self.nono_sandbox_materialized,
    {
        self.nono_sandbox_materialized
    }

    #[must_use]
    pub fn human_audit_decision(&self) -> (value: bool)
        ensures
            value == self.human_audit_decision,
    {
        self.human_audit_decision
    }
}

/// Parse error for real LLM loop case runner receipts.
#[derive(Clone, Debug, PartialEq, Eq)]
pub enum GerbilLoopCaseDriverRealLlmCaseReceiptError {
    MissingMarker { marker: &'static str },
    MissingField { field: &'static str },
    InvalidNumber { field: &'static str, value: String, message: String },
    InvalidTraceJson { message: String },
}

/// The content of a receipt error, as texts.
pub enum RealLlmCaseErrorView {
    MissingMarker(Seq<char>),
    MissingField(Seq<char>),
    InvalidNumber(Seq<char>, Seq<char>, Seq<char>),
    InvalidTraceJson(Seq<char>),
}

impl View for GerbilLoopCaseDriverRealLlmCaseReceiptError {
    type V = RealLlmCaseErrorView;

    open spec fn view(&self) -> RealLlmCaseErrorView {
        match self {
            GerbilLoopCaseDriverRealLlmCaseReceiptError::MissingMarker { marker } =>
                RealLlmCaseErrorView::MissingMarker(marker@),
            GerbilLoopCaseDriverRealLlmCaseReceiptError::MissingField { field } =>
                RealLlmCaseErrorView::MissingField(field@),
            GerbilLoopCaseDriverRealLlmCaseReceiptError::InvalidNumber { field, value, message } =>
                RealLlmCaseErrorView::InvalidNumber(field@, value@, message@),
            GerbilLoopCaseDriverRealLlmCaseReceiptError::InvalidTraceJson { message } =>
                RealLlmCaseErrorView::InvalidTraceJson(message@),
        }
    }
}

impl GerbilLoopCaseDriverRealLlmCaseReceiptError {
    /// The text that this error displays.
    pub open spec fn display_text(self) -> Seq<char> {
        match self@ {
            RealLlmCaseErrorView::MissingMarker(marker) => "missing marker "@ + marker,
            RealLlmCaseErrorView::MissingField(field) => "missing field "@ + field,
            RealLlmCaseErrorView::InvalidNumber(field, value, message) => "invalid numeric field "@
                + field + " value "@ + debug_str_text(value) + ": "@ + message,
            RealLlmCaseErrorView::InvalidTraceJson(message) => "invalid real LLM trace JSON: "@
                + message,
        }
    }

    /// The text that this error displays.
    pub fn message(&self) -> (text: String)
        ensures
            text@ == self.display_text(),
    {
        match self {
            GerbilLoopCaseDriverRealLlmCaseReceiptError::MissingMarker { marker } => {
                let mut text = "missing marker ".to_owned();
                text.append(marker);
                text
            },
            GerbilLoopCaseDriverRealLlmCaseReceiptError::MissingField { field } => {
                let mut text = "missing field ".to_owned();
                text.append(field);
                text
            },
            GerbilLoopCaseDriverRealLlmCaseReceiptError::InvalidNumber { field, value, message } => {
                let mut text = "invalid numeric field ".to_owned();
                text.append(field);
                text.append(" value ");
                let quoted = debug_str(value.as_str());
                text.append(quoted.as_str());
                text.append(": ");
                text.append(message.as_str());
                text
            },
            GerbilLoopCaseDriverRealLlmCaseReceiptError::InvalidTraceJson { message } => {
                let mut text = "invalid real LLM trace JSON: ".to_owned();
                text.append(message.as_str());
                text
            },
        }
    }
}

// ---------------------------------------------------------------------------
// Markers
// ---------------------------------------------------------------------------

/// `pattern` occurs in `text` at position `i`.
pub open spec fn occurs_at(text: Seq<char>, pattern: Seq<char>, i: int) -> bool {
    0 <= i && i + pattern.len() <= text.len() && text.subrange(i, i + pattern.len()) == pattern
}

/// First position at or after `from` where `pattern` occurs (`str::find`).
pub open spec fn find_from(text: Seq<char>, pattern: Seq<char>, from: nat) -> Option<int>
    decreases text.len() + 1 - from,
{
    if from > text.len() || from + pattern.len() > text.len() {
        None
    } else if occurs_at(text, pattern, from as int) {
        Some(from as int)
    } else {
        find_from(text, pattern, from + 1)
    }
}

/// A character that ends a marker value: `\`, `"`, a line feed or a carriage return.
pub open spec fn ends_marker(c: char) -> bool {
    c == '\\' || c == '"' || c == '\n' || c == '\r'
}

/// Length of the marker value at the start of `rest`.
pub open spec fn marker_value_len(rest: Seq<char>) -> nat
    decreases rest.len(),
{
    if rest.len() == 0 || ends_marker(rest[0]) {
        0
    } else {
        1 + marker_value_len(rest.drop_first())
    }
}

/// Value after the first occurrence of `marker`, up to the next character that ends it.
pub open spec fn marker_value(text: Seq<char>, marker: Seq<char>) -> Option<Seq<char>> {
    match find_from(text, marker, 0) {
        None => None,
        Some(i) => {
            let rest = text.subrange(i + marker.len(), text.len() as int);
            Some(rest.take(marker_value_len(rest) as int))
        },
    }
}

/// Whether `pattern` occurs in `text` at `i`.
fn occurs_at_exec(text: &Vec<char>, pattern: &Vec<char>, i: usize) -> (found: bool)
    requires
        i + pattern.len() <= text.len(),
    ensures
        found == occurs_at(text@, pattern@, i as int),
{
    let mut j: usize = 0;
    while j < pattern.len()
        invariant
            j <= pattern.len(),
            i + pattern.len() <= text.len(),
            forall|k: int| 0 <= k < j ==> text@[i + k] == pattern@[k],
        decreases pattern.len() - j,
    {
        if text[i + j] != pattern[j] {
            assert(text@.subrange(i as int, i + pattern.len())[j as int] != pattern@[j as int]);
            return false;
        }
        j += 1;
    }
    assert(text@.subrange(i as int, i + pattern.len()) =~= pattern@);
    true
}

/// First position where `pattern` occurs in `text`.
pub(crate) fn find_text(text: &Vec<char>, pattern: &Vec<char>) -> (found: Option<usize>)
    ensures
        match found {
            Some(i) => find_from(text@, pattern@, 0) == Some(i as int) && i + pattern.len()
                <= text.len(),
            None => find_from(text@, pattern@, 0) is None,
        },
{
    if pattern.len() == 0 {
        assert(text@.subrange(0, 0) =~= pattern@);
        return Some(0);
    }
    if pattern.len() > text.len() {
        return None;
    }
    let mut i: usize = 0;
    while i <= text.len() - pattern.len()
        invariant
            0 < pattern.len() <= text.len(),
            i <= text.len(),
            find_from(text@, pattern@, 0) == find_from(text@, pattern@, i as nat),
        decreases text.len() - i,
    {
        if occurs_at_exec(text, pattern, i) {
            return Some(i);
        }
        i += 1;
    }
    None
}

/// Value of a marker of `stdout`, if the marker occurs.
pub fn optional_marker(stdout: &str, marker: &str) -> (value: Option<String>)
    ensures
        match value {
            Some(v) => marker_value(stdout@, marker@) == Some(v@),
            None => marker_value(stdout@, marker@) is None,
        },
{
    let text = chars_of(stdout);
    let pattern = chars_of(marker);
    let start = match find_text(&text, &pattern) {
        Some(i) => i + pattern.len(),
        None => return None,
    };
    let rest = copy_range(&text, start, text.len());
    let mut end: usize = 0;
    assert(rest@.skip(0) =~= rest@);
    while end < rest.len() && !(rest[end] == '\\' || rest[end] == '"' || rest[end] == '\n'
        || rest[end] == '\r')
        invariant
            end <= rest.len(),
            marker_value_len(rest@) == end + marker_value_len(rest@.skip(end as int)),
        decreases rest.len() - end,
    {
        assert(rest@.skip(end as int).drop_first() =~= rest@.skip(end + 1));
        end += 1;
    }
    assert(marker_value_len(rest@.skip(end as int)) == 0);
    let value = copy_range(&rest, 0, end);
    assert(value@ =~= rest@.take(end as int));
    Some(string_from_chars(&value))
}

/// Value of a marker of `stdout`; a missing marker is an error.
pub fn required_marker(stdout: &str, marker: &'static str) -> (value: Result<
    String,
    GerbilLoopCaseDriverRealLlmCaseReceiptError,
>)
    ensures
        match value {
            Ok(v) => marker_value(stdout@, marker@) == Some(v@),
            Err(e) => marker_value(stdout@, marker@) is None && e@
                == RealLlmCaseErrorView::MissingMarker(marker@),
        },
{
    match optional_marker(stdout, marker) {
        Some(v) => Ok(v),
        None => Err(GerbilLoopCaseDriverRealLlmCaseReceiptError::MissingMarker { marker }),
    }
}

/// Error of a marker whose value must parse as a number.
pub open spec fn number_marker_error(
    stdout: Seq<char>,
    marker: Seq<char>,
    parsed: spec_fn(Seq<char>) -> Option<Seq<char>>,
) -> Option<RealLlmCaseErrorView> {
    match marker_value(stdout, marker) {
        None => Some(RealLlmCaseErrorView::MissingMarker(marker)),
        Some(v) => match parsed(v) {
            Some(message) => Some(RealLlmCaseErrorView::InvalidNumber(marker, v, message)),
            None => None,
        },
    }
}

/// The parse error text of a `u64`, if the text is no `u64`.
pub open spec fn u64_error_text(v: Seq<char>) -> Option<Seq<char>> {
    match unsigned_parse_spec(v, u64::MAX as nat) {
        Ok(_) => None,
        Err(k) => Some(int_error_text(k)),
    }
}

/// The parse error text of an `i32`, if the text is no `i32`.
pub open spec fn i32_error_text(v: Seq<char>) -> Option<Seq<char>> {
    match i32_parse_spec(v) {
        Ok(_) => None,
        Err(k) => Some(int_error_text(k)),
    }
}

/// Parses a `u64` marker.
pub fn parse_u64_marker(stdout: &str, marker: &'static str) -> (value: Result<
    u64,
    GerbilLoopCaseDriverRealLlmCaseReceiptError,
>)
    ensures
        match value {
            Ok(n) => number_marker_error(stdout@, marker@, |v: Seq<char>| u64_error_text(v))
                is None && unsigned_parse_spec(marker_value(stdout@, marker@)->Some_0, u64::MAX as nat)
                == Ok::<nat, crate::text::IntParseErrorKind>(n as nat),
            Err(e) => number_marker_error(stdout@, marker@, |v: Seq<char>| u64_error_text(v))
                == Some(e@),
        },
{
    let value = match required_marker(stdout, marker) {
        Ok(v) => v,
        Err(e) => return Err(e),
    };
    match parse_u64_text(value.as_str()) {
        Ok(n) => Ok(n),
        Err(k) => Err(
            GerbilLoopCaseDriverRealLlmCaseReceiptError::InvalidNumber {
                field: marker,
                value,
                message: int_error_message(k).to_owned(),
            },
        ),
    }
}

/// Parses an `i32` marker.
pub fn parse_i32_marker(stdout: &str, marker: &'static str) -> (value: Result<
    i32,
    GerbilLoopCaseDriverRealLlmCaseReceiptError,
>)
    ensures
        match value {
            Ok(n) => number_marker_error(stdout@, marker@, |v: Seq<char>| i32_error_text(v))
                is None && i32_parse_spec(marker_value(stdout@, marker@)->Some_0) == Ok::<
                int,
                crate::text::IntParseErrorKind,
            >(n as int),
            Err(e) => number_marker_error(stdout@, marker@, |v: Seq<char>| i32_error_text(v))
                == Some(e@),
        },
{
    let value = match required_marker(stdout, marker) {
        Ok(v) => v,
        Err(e) => return Err(e),
    };
    match parse_i32_text(value.as_str()) {
        Ok(n) => Ok(n),
        Err(k) => Err(
            GerbilLoopCaseDriverRealLlmCaseReceiptError::InvalidNumber {
                field: marker,
                value,
                message: int_error_message(k).to_owned(),
            },
        ),
    }
}

// ---------------------------------------------------------------------------
// Trace JSON
// ---------------------------------------------------------------------------

/// Some object within `value`, `value` included, has a member named `key`.
pub open spec fn json_contains_key(value: TraceJson, key: Seq<char>) -> bool
    decreases value,
{
    match value {
        TraceJson::Object(members) => members_contain_key(members@, key),
        TraceJson::Array(items) => items_contain_key(items@, key),
        _ => false,
    }
}

/// Some member is named `key`, or its value contains the key.
pub open spec fn members_contain_key(members: Seq<(String, TraceJson)>, key: Seq<char>) -> bool
    decreases members,
{
    if members.len() == 0 {
        false
    } else {
        members[0].0@ == key || json_contains_key(members[0].1, key) || members_contain_key(
            members.drop_first(),
            key,
        )
    }
}

/// Some item contains the key.
pub open spec fn items_contain_key(items: Seq<TraceJson>, key: Seq<char>) -> bool
    decreases items,
{
    if items.len() == 0 {
        false
    } else {
        json_contains_key(items[0], key) || items_contain_key(items.drop_first(), key)
    }
}

/// Whether some object within `value` has a member named `key`.
pub fn trace_contains_key(value: &TraceJson, key: &str) -> (found: bool)
    ensures
        found == json_contains_key(*value, key@),
    decreases value,
{
    match value {
        TraceJson::Object(members) => {
            let ghost all = members@;
            let mut i: usize = 0;
            assert(all.skip(0) =~= all);
            while i < members.len()
                invariant
                    i <= members.len(),
                    all == members@,
                    *value == TraceJson::Object(*members),
                    members_contain_key(all, key@) == members_contain_key(all.skip(i as int), key@),
                decreases members.len() - i,
            {
                assert(all.skip(i as int)[0] == members@[i as int]);
                assert(all.skip(i as int).drop_first() =~= all.skip(i + 1));
                if text_eq(members[i].0.as_str(), key) {
                    return true;
                }
                proof {
                    assert(decreases_to!(*value => value->Object_0));
                    assert(decreases_to!(value->Object_0 => members@));
                    assert(decreases_to!(members@ => members@[i as int]));
                    assert(decreases_to!(members@[i as int] => members@[i as int].1));
                    assert(decreases_to!(*value => members@[i as int].1));
                }
                if trace_contains_key(&members[i].1, key) {
                    return true;
                }
                i += 1;
            }
            assert(all.skip(i as int) =~= Seq::<(String, TraceJson)>::empty());
            false
        },
        TraceJson::Array(items) => {
            let ghost all = items@;
            let mut i: usize = 0;
            assert(all.skip(0) =~= all);
            while i < items.len()
                invariant
                    i <= items.len(),
                    all == items@,
                    *value == TraceJson::Array(*items),
                    items_contain_key(all, key@) == items_contain_key(all.skip(i as int), key@),
                decreases items.len() - i,
            {
                assert(all.skip(i as int)[0] == items@[i as int]);
                assert(all.skip(i as int).drop_first() =~= all.skip(i + 1));
                proof {
                    assert(decreases_to!(*value => value->Array_0));
                    assert(decreases_to!(value->Array_0 => items@));
                    assert(decreases_to!(items@ => items@[i as int]));
                    assert(decreases_to!(*value => items@[i as int]));
                }
                if trace_contains_key(&items[i], key) {
                    return true;
                }
                i += 1;
            }
            assert(all.skip(i as int) =~= Seq::<TraceJson>::empty());
            false
        },
        _ => false,
    }
}


/// Value of the first member named `key`.
pub open spec fn member_value(members: Seq<(String, TraceJson)>, key: Seq<char>) -> Option<TraceJson>
    decreases members.len(),
{
    if members.len() == 0 {
        None
    } else if members[0].0@ == key {
        Some(members[0].1)
    } else {
        member_value(members.drop_first(), key)
    }
}

/// Following `path` through objects from `value` reaches the string `expected`.
pub open spec fn path_string_eq(value: TraceJson, path: Seq<Seq<char>>, expected: Seq<char>) -> bool
    decreases path.len(),
{
    if path.len() == 0 {
        match value {
            TraceJson::String(s) => s@ == expected,
            _ => false,
        }
    } else {
        match value {
            TraceJson::Object(members) => match member_value(members@, path[0]) {
                Some(next) => path_string_eq(next, path.drop_first(), expected),
                None => false,
            },
            _ => false,
        }
    }
}

/// The member named `key`, if there is one.
fn member_lookup<'a>(members: &'a Vec<(String, TraceJson)>, key: &str) -> (found: Option<
    &'a TraceJson,
>)
    ensures
        match found {
            Some(v) => member_value(members@, key@) == Some(*v),
            None => member_value(members@, key@) is None,
        },
{
    let mut i: usize = 0;
    assert(members@.skip(0) =~= members@);
    while i < members.len()
        invariant
            i <= members.len(),
            member_value(members@, key@) == member_value(members@.skip(i as int), key@),
        decreases members.len() - i,
    {
        assert(members@.skip(i as int)[0] == members@[i as int]);
        assert(members@.skip(i as int).drop_first() =~= members@.skip(i + 1));
        if text_eq(members[i].0.as_str(), key) {
            return Some(&members[i].1);
        }
        i += 1;
    }
    None
}

/// Whether following `path` through objects from `value` reaches the string `expected`.
pub fn trace_path_string_eq(value: &TraceJson, path: &[&str], expected: &str) -> (eq: bool)
    ensures
        eq == path_string_eq(*value, path@.map_values(|s: &str| s@), expected@),
{
    let ghost full = path@.map_values(|s: &str| s@);
    let mut current = value;
    let mut i: usize = 0;
    assert(full.skip(0) =~= full);
    while i < path.len()
        invariant
            i <= path.len(),
            full == path@.map_values(|s: &str| s@),
            path_string_eq(*value, full, expected@) == path_string_eq(
                *current,
                full.skip(i as int),
                expected@,
            ),
        decreases path.len() - i,
    {
        assert(full.skip(i as int)[0] == path@[i as int]@);
        assert(full.skip(i as int).drop_first() =~= full.skip(i + 1));
        match current {
            TraceJson::Object(members) => match member_lookup(members, path[i]) {
                Some(next) => {
                    current = next;
                },
                None => {
                    return false;
                },
            },
            _ => {
                return false;
            },
        }
        i += 1;
    }
    assert(full.skip(i as int).len() == 0);
    match current {
        TraceJson::String(s) => text_eq(s.as_str(), expected),
        _ => false,
    }
}

/// The string member `field` of the trace root.
pub open spec fn trace_string_field(members: Seq<(String, TraceJson)>, field: Seq<char>) -> Option<
    Seq<char>,
> {
    match member_value(members, field) {
        Some(TraceJson::String(s)) => Some(s@),
        _ => None,
    }
}

/// The unsigned integer member `field` of the trace root.
pub open spec fn trace_u64_field(members: Seq<(String, TraceJson)>, field: Seq<char>) -> Option<u64> {
    match member_value(members, field) {
        Some(TraceJson::Number(TraceJsonNumber::PosInt(n))) => Some(n),
        _ => None,
    }
}

/// A string member of the trace root; a missing one is an error.
fn required_trace_string_field(members: &Vec<(String, TraceJson)>, field: &'static str) -> (value:
    Result<String, GerbilLoopCaseDriverRealLlmCaseReceiptError>)
    ensures
        match value {
            Ok(s) => trace_string_field(members@, field@) == Some(s@),
            Err(e) => trace_string_field(members@, field@) is None && e@
                == RealLlmCaseErrorView::MissingField(field@),
        },
{
    match member_lookup(members, field) {
        Some(TraceJson::String(s)) => Ok(s.clone()),
        _ => Err(GerbilLoopCaseDriverRealLlmCaseReceiptError::MissingField { field }),
    }
}

/// An unsigned integer member of the trace root; a missing one is an error.
fn required_trace_u64_field(members: &Vec<(String, TraceJson)>, field: &'static str) -> (value:
    Result<u64, GerbilLoopCaseDriverRealLlmCaseReceiptError>)
    ensures
        match value {
            Ok(n) => trace_u64_field(members@, field@) == Some(n),
            Err(e) => trace_u64_field(members@, field@) is None && e@
                == RealLlmCaseErrorView::MissingField(field@),
        },
{
    match member_lookup(members, field) {
        Some(TraceJson::Number(TraceJsonNumber::PosInt(n))) => Ok(*n),
        _ => Err(GerbilLoopCaseDriverRealLlmCaseReceiptError::MissingField { field }),
    }
}

// ---------------------------------------------------------------------------
// Receipt
// ---------------------------------------------------------------------------

/// The text from the first `{` of `stdout` on, where the trace object starts.
pub fn trace_object_text(stdout: &str) -> (text: Option<String>)
    ensures
        match text {
            Some(t) => first_index_of(stdout@, '{') matches Some(i) && t@ == stdout@.skip(i),
            None => first_index_of(stdout@, '{') is None,
        },
{
    let chars = chars_of(stdout);
    match find_char(&chars, '{') {
        Some(i) => {
            let rest = copy_range(&chars, i, chars.len());
            assert(rest@ =~= stdout@.skip(i as int));
            Some(string_from_chars(&rest))
        },
        None => None,
    }
}

/// Error of the trace object, given what the text from the first `{` on decodes to.
pub open spec fn trace_object_error(
    stdout: Seq<char>,
    decoded: Option<Result<TraceJson, Seq<char>>>,
) -> Option<Seq<char>> {
    if first_index_of(stdout, '{') is None {
        Some("missing trace object"@)
    } else {
        match decoded {
            None => Some("missing trace object"@),
            Some(Err(message)) => Some(message),
            Some(Ok(TraceJson::Object(_))) => None,
            Some(Ok(_)) => Some("trace root is not an object"@),
        }
    }
}

/// The members of a trace root object.
pub open spec fn root_members(root: TraceJson) -> Seq<(String, TraceJson)> {
    match root {
        TraceJson::Object(members) => members@,
        _ => Seq::empty(),
    }
}

/// The first error of a runner output, in the order the fields are read.
pub open spec fn real_llm_case_error(
    stdout: Seq<char>,
    decoded: Option<Result<TraceJson, Seq<char>>>,
) -> Option<RealLlmCaseErrorView> {
    let members = root_members(decoded->Some_0->Ok_0);
    if let Some(message) = trace_object_error(stdout, decoded) {
        Some(RealLlmCaseErrorView::InvalidTraceJson(message))
    } else if marker_value(stdout, CASE_ID_MARKER@) is None {
        Some(RealLlmCaseErrorView::MissingMarker(CASE_ID_MARKER@))
    } else if marker_value(stdout, RESULT_MARKER@) is None {
        Some(RealLlmCaseErrorView::MissingMarker(RESULT_MARKER@))
    } else if number_marker_error(stdout, ROUNDS_USED_MARKER@, |v: Seq<char>| u64_error_text(v))
        is Some {
        number_marker_error(stdout, ROUNDS_USED_MARKER@, |v: Seq<char>| u64_error_text(v))
    } else if trace_string_field(members, "terminal_status"@) is None {
        Some(RealLlmCaseErrorView::MissingField("terminal_status"@))
    } else if trace_u64_field(members, "iteration_count"@) is None {
        Some(RealLlmCaseErrorView::MissingField("iteration_count"@))
    } else {
        number_marker_error(stdout, EXIT_STATUS_MARKER@, |v: Seq<char>| i32_error_text(v))
    }
}

/// Every field of `r` is what the runner output states.
pub open spec fn real_llm_case_fields(
    r: GerbilLoopCaseDriverRealLlmCaseReceipt,
    stdout: Seq<char>,
    root: TraceJson,
) -> bool {
    let members = root_members(root);
    &&& marker_value(stdout, CASE_ID_MARKER@) == Some(r.case_id@)
    &&& marker_value(stdout, RESULT_MARKER@) == Some(r.result@)
    &&& unsigned_parse_spec(marker_value(stdout, ROUNDS_USED_MARKER@)->Some_0, u64::MAX as nat)
        == Ok::<nat, IntParseErrorKind>(r.rounds_used as nat)
    &&& trace_string_field(members, "terminal_status"@) == Some(r.terminal_status@)
    &&& trace_u64_field(members, "iteration_count"@) == Some(r.iteration_count)
    &&& i32_parse_spec(marker_value(stdout, EXIT_STATUS_MARKER@)->Some_0) == Ok::<
        int,
        IntParseErrorKind,
    >(r.process_exit_status as int)
    &&& match r.continuation_planner {
        Some(p) => marker_value(stdout, CONTINUATION_PLANNER_MARKER@) == Some(p@),
        None => marker_value(stdout, CONTINUATION_PLANNER_MARKER@) is None,
    }
    &&& r.failure_classification_receipt_present == json_contains_key(
        root,
        "failure_classification_receipt"@,
    )
    &&& r.governance_receipt_present == json_contains_key(root, "governance_receipt"@)
    &&& r.nono_sandbox_materialized == (path_string_eq(root, seq!["backend"@], "nono"@)
        || path_string_eq(root, seq!["governance_receipt"@, "sandbox"@, "backend"@], "nono"@))
    &&& r.human_audit_decision == (path_string_eq(root, seq!["decision"@], "human-audit"@)
        || path_string_eq(
        root,
        seq!["governance_receipt"@, "verifier"@, "decision"@],
        "human-audit"@,
    ))
}

/// Marker of the case id line.
pub const CASE_ID_MARKER: &'static str = "marlin-real-llm-case.case_id=";

/// Marker of the result line.
pub const RESULT_MARKER: &'static str = "marlin-real-llm-case.result=";

/// Marker of the rounds-used line.
pub const ROUNDS_USED_MARKER: &'static str = "marlin-real-llm-case.rounds_used=";

/// Marker of the process exit status.
pub const EXIT_STATUS_MARKER: &'static str = "process-command.exit_status:";

/// Marker of the continuation planner.
pub const CONTINUATION_PLANNER_MARKER: &'static str = "continuation_planner=";

/// A decoder's answer with its message taken as text.
pub open spec fn decoded_view(decoded: Option<Result<TraceJson, String>>) -> Option<
    Result<TraceJson, Seq<char>>,
> {
    match decoded {
        None => None,
        Some(Ok(v)) => Some(Ok(v)),
        Some(Err(m)) => Some(Err(m@)),
    }
}

/// What `serde_json` decodes as the first JSON value of a text: `None` where
/// the text holds no value, `Err` with the decoder's message where it is no
/// JSON.
pub uninterp spec fn first_json_value(text: Seq<char>) -> Option<Result<TraceJson, Seq<char>>>;

/// What the trace object of a runner output decodes to: the first JSON value
/// of the text from its first `{` on, and nothing where it has no `{`.
pub open spec fn trace_decoding(stdout: Seq<char>) -> Option<Result<TraceJson, Seq<char>>> {
    match first_index_of(stdout, '{') {
        Some(i) => first_json_value(stdout.skip(i)),
        None => None,
    }
}

/// `serde_json::Value`, carried from the decoder to its conversion.
#[verifier::external_type_specification]
#[verifier::external_body]
pub struct ExJsonValue(serde_json::Value);

/// Converts a `serde_json::Value` into a trace value, variant for variant: a
/// number is a non-negative integer, a negative integer, or else a float.
#[verifier::external_body]
fn trace_json_of(value: serde_json::Value) -> TraceJson {
    match value {
        serde_json::Value::Null => TraceJson::Null,
        serde_json::Value::Bool(flag) => TraceJson::Bool(flag),
        serde_json::Value::Number(n) => TraceJson::Number(match (n.as_u64(), n.as_i64()) {
            (Some(u), _) => TraceJsonNumber::PosInt(u),
            (None, Some(i)) => TraceJsonNumber::NegInt(i),
            (None, None) => TraceJsonNumber::Float,
        }),
        serde_json::Value::String(text) => TraceJson::String(text),
        serde_json::Value::Array(items) => TraceJson::Array(items.into_iter().map(trace_json_of).collect()),
        serde_json::Value::Object(map) => TraceJson::Object(map.into_iter().map(|(k, v)| (k, trace_json_of(v))).collect()),
    }
}

/// Decodes the first JSON value of `text` with `serde_json`'s stream
/// deserializer: `None` where no value starts, else the value converted into
/// a [`TraceJson`] or the decoder's error message. The contract names the
/// answer [`first_json_value`] and says nothing more of it.
#[verifier::external_body]
fn decode_first_json_value(text: &str) -> (decoded: Option<Result<TraceJson, String>>)
    ensures
        decoded_view(decoded) == first_json_value(text@),
{
    let mut values = serde_json::Deserializer::from_str(text).into_iter::<serde_json::Value>();
    values.next().map(|item| item.map(trace_json_of).map_err(|error| error.to_string()))
}

/// Parse the real LLM loop case runner output into a Rust-owned receipt: the
/// trace object is the first JSON value from the first `{` of `stdout` on.
pub fn parse_gerbil_loop_case_driver_real_llm_case_receipt(stdout: &str) -> (receipt: Result<
    GerbilLoopCaseDriverRealLlmCaseReceipt,
    GerbilLoopCaseDriverRealLlmCaseReceiptError,
>)
    ensures
        match receipt {
            Ok(r) => real_llm_case_error(stdout@, trace_decoding(stdout@)) is None
                && real_llm_case_fields(r, stdout@, trace_decoding(stdout@)->Some_0->Ok_0),
            Err(e) => real_llm_case_error(stdout@, trace_decoding(stdout@)) == Some(e@),
        },
{
    let decoded = match trace_object_text(stdout) {
        Some(text) => decode_first_json_value(text.as_str()),
        None => None,
    };
    real_llm_case_receipt_from_decoded(stdout, decoded)
}

/// The receipt of a runner output given what its trace object decoded to.
///
/// `decoded` is what the text from the first `{` of `stdout` on (see
/// [`trace_object_text`]) decodes to as one JSON value: `None` where no value
/// starts there, `Err` with the decoder's message where the text is no JSON.
pub fn real_llm_case_receipt_from_decoded(
    stdout: &str,
    decoded: Option<Result<TraceJson, String>>,
) -> (receipt: Result<GerbilLoopCaseDriverRealLlmCaseReceipt, GerbilLoopCaseDriverRealLlmCaseReceiptError>)
    ensures
        match receipt {
            Ok(r) => real_llm_case_error(stdout@, decoded_view(decoded)) is None
                && real_llm_case_fields(r, stdout@, decoded->Some_0->Ok_0),
            Err(e) => real_llm_case_error(stdout@, decoded_view(decoded)) == Some(e@),
        },
{
    let ghost input = decoded;
    let chars = chars_of(stdout);
    let root = match find_char(&chars, '{') {
        None => {
            return Err(
                GerbilLoopCaseDriverRealLlmCaseReceiptError::InvalidTraceJson {
                    message: "missing trace object".to_owned(),
                },
            );
        },
        Some(_) => match decoded {
            None => {
                return Err(
                    GerbilLoopCaseDriverRealLlmCaseReceiptError::InvalidTraceJson {
                        message: "missing trace object".to_owned(),
                    },
                );
            },
            Some(Err(message)) => {
                return Err(GerbilLoopCaseDriverRealLlmCaseReceiptError::InvalidTraceJson { message });
            },
            Some(Ok(root)) => root,
        },
    };
    let members = match &root {
        TraceJson::Object(members) => members,
        _ => {
            return Err(
                GerbilLoopCaseDriverRealLlmCaseReceiptError::InvalidTraceJson {
                    message: "trace root is not an object".to_owned(),
                },
            );
        },
    };
    assert(root_members(input->Some_0->Ok_0) == members@);
    let case_id = required_marker(stdout, CASE_ID_MARKER)?;
    let result = required_marker(stdout, RESULT_MARKER)?;
    let rounds_used = parse_u64_marker(stdout, ROUNDS_USED_MARKER)?;
    let terminal_status = required_trace_string_field(members, "terminal_status")?;
    let iteration_count = required_trace_u64_field(members, "iteration_count")?;
    let process_exit_status = parse_i32_marker(stdout, EXIT_STATUS_MARKER)?;
    let continuation_planner = optional_marker(stdout, CONTINUATION_PLANNER_MARKER);
    let failure_classification_receipt_present = trace_contains_key(
        &root,
        "failure_classification_receipt",
    );
    let governance_receipt_present = trace_contains_key(&root, "governance_receipt");
    let backend = vec!["backend"];
    let sandbox_backend = vec!["governance_receipt", "sandbox", "backend"];
    let decision = vec!["decision"];
    let verifier_decision = vec!["governance_receipt", "verifier", "decision"];
    let nono_sandbox_materialized = trace_path_string_eq(&root, backend.as_slice(), "nono")
        || trace_path_string_eq(&root, sandbox_backend.as_slice(), "nono");
    let human_audit_decision = trace_path_string_eq(&root, decision.as_slice(), "human-audit")
        || trace_path_string_eq(&root, verifier_decision.as_slice(), "human-audit");
    assert(backend@.map_values(|s: &str| s@) =~= seq!["backend"@]);
    assert(sandbox_backend@.map_values(|s: &str| s@) =~= seq![
        "governance_receipt"@,
        "sandbox"@,
        "backend"@,
    ]);
    assert(decision@.map_values(|s: &str| s@) =~= seq!["decision"@]);
    assert(verifier_decision@.map_values(|s: &str| s@) =~= seq![
        "governance_receipt"@,
        "verifier"@,
        "decision"@,
    ]);
    Ok(
        GerbilLoopCaseDriverRealLlmCaseReceipt {
            case_id,
            result,
            rounds_used,
            terminal_status,
            iteration_count,
            process_exit_status,
            continuation_planner,
            failure_classification_receipt_present,
            governance_receipt_present,
            nono_sandbox_materialized,
            human_audit_decision,
        },
    )
}

} // verus!
