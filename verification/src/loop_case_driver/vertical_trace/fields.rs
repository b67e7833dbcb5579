//! Typed field decoders for one vertical-trace row.
//!
//! A row is the sequence of `(index, field, value)` entries that share one
//! trace index, in the order in which they appear in the trace. A field that
//! occurs more than once takes its last value.

use vstd::prelude::*;

use crate::loop_case_driver::ids::GerbilLoopCaseDriverCapability;
use crate::loop_case_driver::receipt::{
    GerbilLoopCaseSchemeBoundary, GerbilLoopCaseSerializationBoundary,
};
use crate::text::{
    char_views, chars_of, debug_str, debug_str_text, decimal_text, delimited_fields,
    int_error_message, int_error_text, parse_u64_text, parse_u8_text, parse_usize_text,
    seq_views, split_delimited, split_whitespace, string_from_chars, text_eq, trim,
    trim_spec, u64_to_text, unsigned_parse_spec, whitespace_words,
};

verus! {

/// One `vertical-case.<index>.<field>=<value>` line of a trace.
pub struct TraceEntry {
    pub index: usize,
    pub field: String,
    pub value: String,
}

impl View for TraceEntry {
    type V = (nat, Seq<char>, Seq<char>);

    open spec fn view(&self) -> (nat, Seq<char>, Seq<char>) {
        (self.index as nat, self.field@, self.value@)
    }
}

/// Value of the last entry of `row` named `field`.
pub open spec fn row_lookup(row: Seq<(nat, Seq<char>, Seq<char>)>, field: Seq<char>) -> Option<
    Seq<char>,
>
    decreases row.len(),
{
    if row.len() == 0 {
        None
    } else if row.last().1 == field {
        Some(row.last().2)
    } else {
        row_lookup(row.drop_last(), field)
    }
}

/// `"vertical trace <index>"`.
pub open spec fn trace_prefix(index: nat) -> Seq<char> {
    "vertical trace "@ + decimal_text(index)
}

/// Error for a field that a row lacks.
pub open spec fn missing_field_message(index: nat, field: Seq<char>) -> Seq<char> {
    trace_prefix(index) + " is missing "@ + field
}

/// Error about the value of a field.
pub open spec fn field_message(index: nat, field: Seq<char>, tail: Seq<char>) -> Seq<char> {
    trace_prefix(index) + " field "@ + field + tail
}

/// Boolean spelled by a trace value.
pub open spec fn bool_value(text: Seq<char>) -> Option<bool> {
    if text == "#t"@ || text == "true"@ {
        Some(true)
    } else if text == "#f"@ || text == "false"@ {
        Some(false)
    } else {
        None
    }
}

/// A required text field.
pub open spec fn text_field(index: nat, row: Seq<(nat, Seq<char>, Seq<char>)>, field: Seq<char>) -> Result<
    Seq<char>,
    Seq<char>,
> {
    match row_lookup(row, field) {
        Some(v) => Ok(v),
        None => Err(missing_field_message(index, field)),
    }
}

/// A required `usize` field.
pub open spec fn usize_field(index: nat, row: Seq<(nat, Seq<char>, Seq<char>)>, field: Seq<char>) -> Result<
    usize,
    Seq<char>,
> {
    match text_field(index, row, field) {
        Err(e) => Err(e),
        Ok(v) => match unsigned_parse_spec(v, usize::MAX as nat) {
            Ok(n) => Ok(n as usize),
            Err(k) => Err(field_message(index, field, " is not usize: "@ + int_error_text(k))),
        },
    }
}

/// A required `u64` field.
pub open spec fn u64_field(index: nat, row: Seq<(nat, Seq<char>, Seq<char>)>, field: Seq<char>) -> Result<
    u64,
    Seq<char>,
> {
    match text_field(index, row, field) {
        Err(e) => Err(e),
        Ok(v) => match unsigned_parse_spec(v, u64::MAX as nat) {
            Ok(n) => Ok(n as u64),
            Err(k) => Err(field_message(index, field, " is not u64: "@ + int_error_text(k))),
        },
    }
}

/// A required boolean field (`#t`, `true`, `#f` or `false`).
pub open spec fn bool_field(index: nat, row: Seq<(nat, Seq<char>, Seq<char>)>, field: Seq<char>) -> Result<
    bool,
    Seq<char>,
> {
    match text_field(index, row, field) {
        Err(e) => Err(e),
        Ok(v) => match bool_value(v) {
            Some(b) => Ok(b),
            None => Err(field_message(index, field, " is not bool: "@ + v)),
        },
    }
}

/// A required separator-delimited list field: the trimmed value must not be
/// empty; its pieces are trimmed and empty pieces dropped.
pub open spec fn list_field(
    index: nat,
    row: Seq<(nat, Seq<char>, Seq<char>)>,
    field: Seq<char>,
    sep: char,
) -> Result<Seq<Seq<char>>, Seq<char>> {
    match text_field(index, row, field) {
        Err(e) => Err(e),
        Ok(v) => if trim_spec(v).len() == 0 {
            Err(field_message(index, field, " is empty"@))
        } else {
            Ok(delimited_fields(trim_spec(v), sep))
        },
    }
}

/// An optional list field; when `required`, a missing or empty value is an error.
pub open spec fn optional_list_field(
    index: nat,
    row: Seq<(nat, Seq<char>, Seq<char>)>,
    field: Seq<char>,
    sep: char,
    required: bool,
) -> Result<Seq<Seq<char>>, Seq<char>> {
    match row_lookup(row, field) {
        None => if required {
            Err(missing_field_message(index, field))
        } else {
            Ok(Seq::empty())
        },
        Some(v) => if trim_spec(v).len() == 0 {
            if required {
                Err(field_message(index, field, " is empty"@))
            } else {
                Ok(Seq::empty())
            }
        } else {
            Ok(delimited_fields(trim_spec(v), sep))
        },
    }
}

/// An optional text field with a default.
pub open spec fn optional_text_field(
    row: Seq<(nat, Seq<char>, Seq<char>)>,
    field: Seq<char>,
    default: Seq<char>,
) -> Seq<char> {
    match row_lookup(row, field) {
        Some(v) => v,
        None => default,
    }
}

/// An optional boolean field with a default; its error names no index.
pub open spec fn optional_bool_field(
    row: Seq<(nat, Seq<char>, Seq<char>)>,
    field: Seq<char>,
    default: bool,
) -> Result<bool, Seq<char>> {
    match row_lookup(row, field) {
        None => Ok(default),
        Some(v) => match bool_value(v) {
            Some(b) => Ok(b),
            None => Err("vertical trace field "@ + field + " has invalid boolean "@ + v),
        },
    }
}

/// An optional `usize` field with a default.
pub open spec fn optional_usize_field(
    index: nat,
    row: Seq<(nat, Seq<char>, Seq<char>)>,
    field: Seq<char>,
    default: usize,
) -> Result<usize, Seq<char>> {
    match row_lookup(row, field) {
        None => Ok(default),
        Some(v) => match unsigned_parse_spec(v, usize::MAX as nat) {
            Ok(n) => Ok(n as usize),
            Err(k) => Err(field_message(index, field, " is not usize: "@ + int_error_text(k))),
        },
    }
}

/// Octets of a list of decimal texts; the first text that is no `u8` decides the error.
pub open spec fn octets_of(index: nat, field: Seq<char>, items: Seq<Seq<char>>) -> Result<
    Seq<u8>,
    Seq<char>,
>
    decreases items.len(),
{
    if items.len() == 0 {
        Ok(Seq::empty())
    } else {
        match octets_of(index, field, items.drop_last()) {
            Err(e) => Err(e),
            Ok(bytes) => match unsigned_parse_spec(items.last(), 255) {
                Ok(b) => Ok(bytes.push(b as u8)),
                Err(k) => Err(
                    field_message(
                        index,
                        field,
                        " contains invalid octet "@ + debug_str_text(items.last()) + ": "@
                            + int_error_text(k),
                    ),
                ),
            },
        }
    }
}

/// A required list of octets.
pub open spec fn octet_list_field(
    index: nat,
    row: Seq<(nat, Seq<char>, Seq<char>)>,
    field: Seq<char>,
    sep: char,
) -> Result<Seq<u8>, Seq<char>> {
    match list_field(index, row, field, sep) {
        Err(e) => Err(e),
        Ok(items) => octets_of(index, field, items),
    }
}

/// The inside of a Scheme list `( ... )`, if `raw` is one.
pub open spec fn scheme_list_inner(raw: Seq<char>) -> Option<Seq<char>> {
    if raw.len() >= 2 && raw[0] == '(' && raw.last() == ')' {
        Some(raw.subrange(1, raw.len() - 1))
    } else {
        None
    }
}

/// A required capability list field written as a Scheme list of tags.
pub open spec fn capability_list_field(
    index: nat,
    row: Seq<(nat, Seq<char>, Seq<char>)>,
    field: Seq<char>,
) -> Result<Seq<Seq<char>>, Seq<char>> {
    match text_field(index, row, field) {
        Err(e) => Err(e),
        Ok(v) => match scheme_list_inner(trim_spec(v)) {
            Some(inner) => Ok(whitespace_words(inner)),
            None => Err(
                field_message(index, field, " is not a Scheme capability list: "@ + trim_spec(v)),
            ),
        },
    }
}

/// The required Scheme boundary field.
pub open spec fn scheme_boundary_field(
    index: nat,
    row: Seq<(nat, Seq<char>, Seq<char>)>,
    field: Seq<char>,
) -> Result<GerbilLoopCaseSchemeBoundary, Seq<char>> {
    match text_field(index, row, field) {
        Err(e) => Err(e),
        Ok(v) => if v == "scheme-types->rust-types"@ {
            Ok(GerbilLoopCaseSchemeBoundary::SchemeTypesToRustTypes)
        } else {
            Err(field_message(index, field, " has unsupported scheme boundary "@ + v))
        },
    }
}

/// The required serialization boundary field.
pub open spec fn serialization_boundary_field(
    index: nat,
    row: Seq<(nat, Seq<char>, Seq<char>)>,
    field: Seq<char>,
) -> Result<GerbilLoopCaseSerializationBoundary, Seq<char>> {
    match text_field(index, row, field) {
        Err(e) => Err(e),
        Ok(v) => if v == "rust-owned-cli-trace-cross-process"@ {
            Ok(GerbilLoopCaseSerializationBoundary::RustOwnedCliTraceCrossProcess)
        } else {
            Err(field_message(index, field, " has unsupported serialization boundary "@ + v))
        },
    }
}

// ---------------------------------------------------------------------------
// Executable decoders
// ---------------------------------------------------------------------------

/// `"vertical trace <index>"`.
pub fn trace_prefix_text(index: usize) -> (text: String)
    ensures
        text@ == trace_prefix(index as nat),
{
    let mut text = "vertical trace ".to_owned();
    let number = u64_to_text(index as u64);
    text.append(number.as_str());
    text
}

/// Error for a field that a row lacks.
fn missing_field_text(index: usize, field: &str) -> (text: String)
    ensures
        text@ == missing_field_message(index as nat, field@),
{
    let mut text = trace_prefix_text(index);
    text.append(" is missing ");
    text.append(field);
    text
}

/// Error about the value of a field.
fn field_message_text(index: usize, field: &str, tail: &str) -> (text: String)
    ensures
        text@ == field_message(index as nat, field@, tail@),
{
    let mut text = trace_prefix_text(index);
    text.append(" field ");
    text.append(field);
    text.append(tail);
    text
}

/// Value of the last entry of `row` named `field`.
pub fn lookup<'a>(row: &'a Vec<TraceEntry>, field: &str) -> (value: Option<&'a str>)
    ensures
        value matches Some(v) ==> row_lookup(seq_views(row@), field@) == Some(v@),
        value is None ==> row_lookup(seq_views(row@), field@) is None,
{
    let ghost views = seq_views(row@);
    let mut i: usize = row.len();
    assert(views.take(i as int) =~= views);
    while i > 0
        invariant
            i <= row.len(),
            views == seq_views(row@),
            row_lookup(views, field@) == row_lookup(views.take(i as int), field@),
        decreases i,
    {
        i -= 1;
        assert(views.take(i + 1).drop_last() =~= views.take(i as int));
        assert(views.take(i + 1).last() == views[i as int]);
        if text_eq(row[i].field.as_str(), field) {
            return Some(row[i].value.as_str());
        }
    }
    None
}

/// Boolean spelled by a trace value.
fn parse_bool_value(text: &str) -> (value: Option<bool>)
    ensures
        value == bool_value(text@),
{
    if text_eq(text, "#t") || text_eq(text, "true") {
        Some(true)
    } else if text_eq(text, "#f") || text_eq(text, "false") {
        Some(false)
    } else {
        None
    }
}

/// A required text field.
pub fn decode_text(index: usize, row: &Vec<TraceEntry>, field: &str) -> (value: Result<String, String>)
    ensures
        match value {
            Ok(v) => text_field(index as nat, seq_views(row@), field@) == Ok::<Seq<char>, Seq<char>>(v@),
            Err(e) => text_field(index as nat, seq_views(row@), field@) == Err::<Seq<char>, Seq<char>>(e@),
        },
{
    match lookup(row, field) {
        Some(v) => Ok(v.to_owned()),
        None => Err(missing_field_text(index, field)),
    }
}

/// A required `usize` field.
pub fn decode_usize(index: usize, row: &Vec<TraceEntry>, field: &str) -> (value: Result<usize, String>)
    ensures
        match value {
            Ok(v) => usize_field(index as nat, seq_views(row@), field@) == Ok::<usize, Seq<char>>(v),
            Err(e) => usize_field(index as nat, seq_views(row@), field@) == Err::<usize, Seq<char>>(e@),
        },
{
    let text = match decode_text(index, row, field) {
        Ok(t) => t,
        Err(e) => return Err(e),
    };
    match parse_usize_text(text.as_str()) {
        Ok(n) => Ok(n),
        Err(k) => {
            let mut tail = " is not usize: ".to_owned();
            tail.append(int_error_message(k));
            Err(field_message_text(index, field, tail.as_str()))
        },
    }
}

/// A required `u64` field.
pub fn decode_u64(index: usize, row: &Vec<TraceEntry>, field: &str) -> (value: Result<u64, String>)
    ensures
        match value {
            Ok(v) => u64_field(index as nat, seq_views(row@), field@) == Ok::<u64, Seq<char>>(v),
            Err(e) => u64_field(index as nat, seq_views(row@), field@) == Err::<u64, Seq<char>>(e@),
        },
{
    let text = match decode_text(index, row, field) {
        Ok(t) => t,
        Err(e) => return Err(e),
    };
    match parse_u64_text(text.as_str()) {
        Ok(n) => Ok(n),
        Err(k) => {
            let mut tail = " is not u64: ".to_owned();
            tail.append(int_error_message(k));
            Err(field_message_text(index, field, tail.as_str()))
        },
    }
}

/// A required boolean field.
pub fn decode_bool(index: usize, row: &Vec<TraceEntry>, field: &str) -> (value: Result<bool, String>)
    ensures
        match value {
            Ok(v) => bool_field(index as nat, seq_views(row@), field@) == Ok::<bool, Seq<char>>(v),
            Err(e) => bool_field(index as nat, seq_views(row@), field@) == Err::<bool, Seq<char>>(e@),
        },
{
    let text = match decode_text(index, row, field) {
        Ok(t) => t,
        Err(e) => return Err(e),
    };
    match parse_bool_value(text.as_str()) {
        Some(b) => Ok(b),
        None => {
            let mut tail = " is not bool: ".to_owned();
            tail.append(text.as_str());
            Err(field_message_text(index, field, tail.as_str()))
        },
    }
}

/// Strings holding the given character vectors.
fn strings_of(pieces: &Vec<Vec<char>>) -> (strings: Vec<String>)
    ensures
        seq_views(strings@) == char_views(pieces@),
{
    let mut strings: Vec<String> = Vec::new();
    let mut i: usize = 0;
    while i < pieces.len()
        invariant
            i <= pieces.len(),
            seq_views(strings@) == char_views(pieces@).take(i as int),
        decreases pieces.len() - i,
    {
        let s = string_from_chars(&pieces[i]);
        let ghost before = seq_views(strings@);
        strings.push(s);
        assert(char_views(pieces@)[i as int] == pieces@[i as int]@);
        assert(seq_views(strings@) =~= before.push(pieces@[i as int]@));
        assert(seq_views(strings@) =~= char_views(pieces@).take(i + 1));
        i += 1;
    }
    assert(char_views(pieces@).take(i as int) =~= char_views(pieces@));
    strings
}

/// Trimmed pieces of a non-empty trimmed text.
fn split_trimmed(trimmed: &Vec<char>, sep: char) -> (pieces: Vec<String>)
    ensures
        seq_views(pieces@) == delimited_fields(trimmed@, sep),
{
    let parts = split_delimited(trimmed, sep);
    strings_of(&parts)
}

/// A required separator-delimited list field.
pub fn decode_list(index: usize, row: &Vec<TraceEntry>, field: &str, sep: char) -> (value: Result<
    Vec<String>,
    String,
>)
    ensures
        match value {
            Ok(v) => list_field(index as nat, seq_views(row@), field@, sep) == Ok::<
                Seq<Seq<char>>,
                Seq<char>,
            >(seq_views(v@)),
            Err(e) => list_field(index as nat, seq_views(row@), field@, sep) == Err::<
                Seq<Seq<char>>,
                Seq<char>,
            >(e@),
        },
{
    let text = match decode_text(index, row, field) {
        Ok(t) => t,
        Err(e) => return Err(e),
    };
    let chars = chars_of(text.as_str());
    let trimmed = trim(&chars);
    if trimmed.len() == 0 {
        return Err(field_message_text(index, field, " is empty"));
    }
    Ok(split_trimmed(&trimmed, sep))
}

/// An optional list field; when `required`, a missing or empty value is an error.
pub fn decode_optional_list(
    index: usize,
    row: &Vec<TraceEntry>,
    field: &str,
    sep: char,
    required: bool,
) -> (value: Result<Vec<String>, String>)
    ensures
        match value {
            Ok(v) => optional_list_field(index as nat, seq_views(row@), field@, sep, required)
                == Ok::<Seq<Seq<char>>, Seq<char>>(seq_views(v@)),
            Err(e) => optional_list_field(index as nat, seq_views(row@), field@, sep, required)
                == Err::<Seq<Seq<char>>, Seq<char>>(e@),
        },
{
    let text = match lookup(row, field) {
        Some(t) => t,
        None => {
            if required {
                return Err(missing_field_text(index, field));
            }
            let empty: Vec<String> = Vec::new();
            assert(seq_views(empty@) =~= Seq::<Seq<char>>::empty());
            return Ok(empty);
        },
    };
    let chars = chars_of(text);
    let trimmed = trim(&chars);
    if trimmed.len() == 0 {
        if required {
            return Err(field_message_text(index, field, " is empty"));
        }
        let empty: Vec<String> = Vec::new();
        assert(seq_views(empty@) =~= Seq::<Seq<char>>::empty());
        return Ok(empty);
    }
    Ok(split_trimmed(&trimmed, sep))
}

/// An optional text field with a default.
pub fn decode_optional_text(row: &Vec<TraceEntry>, field: &str, default: &str) -> (value: String)
    ensures
        value@ == optional_text_field(seq_views(row@), field@, default@),
{
    match lookup(row, field) {
        Some(v) => v.to_owned(),
        None => default.to_owned(),
    }
}

/// An optional boolean field with a default.
pub fn decode_optional_bool(row: &Vec<TraceEntry>, field: &str, default: bool) -> (value: Result<
    bool,
    String,
>)
    ensures
        match value {
            Ok(v) => optional_bool_field(seq_views(row@), field@, default) == Ok::<bool, Seq<char>>(v),
            Err(e) => optional_bool_field(seq_views(row@), field@, default) == Err::<bool, Seq<char>>(
                e@,
            ),
        },
{
    let text = match lookup(row, field) {
        Some(t) => t,
        None => return Ok(default),
    };
    match parse_bool_value(text) {
        Some(b) => Ok(b),
        None => {
            let mut message = "vertical trace field ".to_owned();
            message.append(field);
            message.append(" has invalid boolean ");
            message.append(text);
            Err(message)
        },
    }
}

/// An optional `usize` field with a default.
pub fn decode_optional_usize(index: usize, row: &Vec<TraceEntry>, field: &str, default: usize) -> (value:
    Result<usize, String>)
    ensures
        match value {
            Ok(v) => optional_usize_field(index as nat, seq_views(row@), field@, default) == Ok::<
                usize,
                Seq<char>,
            >(v),
            Err(e) => optional_usize_field(index as nat, seq_views(row@), field@, default) == Err::<
                usize,
                Seq<char>,
            >(e@),
        },
{
    let text = match lookup(row, field) {
        Some(t) => t,
        None => return Ok(default),
    };
    match parse_usize_text(text) {
        Ok(n) => Ok(n),
        Err(k) => {
            let mut tail = " is not usize: ".to_owned();
            tail.append(int_error_message(k));
            Err(field_message_text(index, field, tail.as_str()))
        },
    }
}

/// A required list of octets.
pub fn decode_octets(index: usize, row: &Vec<TraceEntry>, field: &str, sep: char) -> (value: Result<
    Vec<u8>,
    String,
>)
    ensures
        match value {
            Ok(v) => octet_list_field(index as nat, seq_views(row@), field@, sep) == Ok::<
                Seq<u8>,
                Seq<char>,
            >(v@),
            Err(e) => octet_list_field(index as nat, seq_views(row@), field@, sep) == Err::<
                Seq<u8>,
                Seq<char>,
            >(e@),
        },
{
    let items = match decode_list(index, row, field, sep) {
        Ok(items) => items,
        Err(e) => return Err(e),
    };
    let ghost texts = seq_views(items@);
    let mut bytes: Vec<u8> = Vec::new();
    let mut i: usize = 0;
    while i < items.len()
        invariant
            i <= items.len(),
            texts == seq_views(items@),
            list_field(index as nat, seq_views(row@), field@, sep) == Ok::<
                Seq<Seq<char>>,
                Seq<char>,
            >(texts),
            octets_of(index as nat, field@, texts.take(i as int)) == Ok::<Seq<u8>, Seq<char>>(
                bytes@,
            ),
        decreases items.len() - i,
    {
        assert(texts.take(i + 1).drop_last() =~= texts.take(i as int));
        assert(texts.take(i + 1).last() == items[i as int]@);
        match parse_u8_text(items[i].as_str()) {
            Ok(b) => {
                bytes.push(b);
            },
            Err(k) => {
                let quoted = debug_str(items[i].as_str());
                let mut tail = " contains invalid octet ".to_owned();
                tail.append(quoted.as_str());
                tail.append(": ");
                tail.append(int_error_message(k));
                let message = field_message_text(index, field, tail.as_str());
                proof {
                    assert(octets_of(index as nat, field@, texts.take(i + 1)) == Err::<
                        Seq<u8>,
                        Seq<char>,
                    >(message@));
                    lemma_octets_error_sticks(index as nat, field@, texts, i + 1);
                    assert(list_field(index as nat, seq_views(row@), field@, sep) == Ok::<
                        Seq<Seq<char>>,
                        Seq<char>,
                    >(texts));
                }
                return Err(message);
            },
        }
        i += 1;
    }
    assert(texts.take(i as int) =~= texts);
    Ok(bytes)
}

/// Once the octets of a prefix fail, the octets of the whole list fail the same way.
proof fn lemma_octets_error_sticks(index: nat, field: Seq<char>, items: Seq<Seq<char>>, k: int)
    requires
        0 <= k <= items.len(),
        octets_of(index, field, items.take(k)) is Err,
    ensures
        octets_of(index, field, items) == octets_of(index, field, items.take(k)),
    decreases items.len() - k,
{
    if k < items.len() {
        assert(items.take(k + 1).drop_last() =~= items.take(k));
        lemma_octets_error_sticks(index, field, items, k + 1);
    } else {
        assert(items.take(k) =~= items);
    }
}

/// Capability tags of the given words.
fn capabilities_of(words: &Vec<Vec<char>>) -> (tags: Vec<GerbilLoopCaseDriverCapability>)
    ensures
        seq_views(tags@) == char_views(words@),
{
    let mut tags: Vec<GerbilLoopCaseDriverCapability> = Vec::new();
    let mut i: usize = 0;
    while i < words.len()
        invariant
            i <= words.len(),
            seq_views(tags@) == char_views(words@).take(i as int),
        decreases words.len() - i,
    {
        let s = string_from_chars(&words[i]);
        let tag = GerbilLoopCaseDriverCapability::new(s.as_str());
        let ghost before = seq_views(tags@);
        tags.push(tag);
        assert(char_views(words@)[i as int] == words@[i as int]@);
        assert(seq_views(tags@) =~= before.push(words@[i as int]@));
        assert(seq_views(tags@) =~= char_views(words@).take(i + 1));
        i += 1;
    }
    assert(char_views(words@).take(i as int) =~= char_views(words@));
    tags
}

/// A required capability list field.
pub fn decode_capabilities(index: usize, row: &Vec<TraceEntry>, field: &str) -> (value: Result<
    Vec<GerbilLoopCaseDriverCapability>,
    String,
>)
    ensures
        match value {
            Ok(v) => capability_list_field(index as nat, seq_views(row@), field@) == Ok::<
                Seq<Seq<char>>,
                Seq<char>,
            >(seq_views(v@)),
            Err(e) => capability_list_field(index as nat, seq_views(row@), field@) == Err::<
                Seq<Seq<char>>,
                Seq<char>,
            >(e@),
        },
{
    let text = match decode_text(index, row, field) {
        Ok(t) => t,
        Err(e) => return Err(e),
    };
    let chars = chars_of(text.as_str());
    let raw = trim(&chars);
    let n = raw.len();
    if n >= 2 && raw[0] == '(' && raw[n - 1] == ')' {
        let mut inner: Vec<char> = Vec::new();
        let mut i: usize = 1;
        while i < n - 1
            invariant
                1 <= i <= n - 1,
                n == raw.len(),
                n >= 2,
                inner@ == raw@.subrange(1, i as int),
            decreases n - 1 - i,
        {
            inner.push(raw[i]);
            assert(inner@ =~= raw@.subrange(1, i + 1));
            i += 1;
        }
        let words = split_whitespace(&inner);
        Ok(capabilities_of(&words))
    } else {
        let raw_text = string_from_chars(&raw);
        let mut tail = " is not a Scheme capability list: ".to_owned();
        tail.append(raw_text.as_str());
        Err(field_message_text(index, field, tail.as_str()))
    }
}

/// The required Scheme boundary field.
pub fn decode_scheme_boundary(index: usize, row: &Vec<TraceEntry>, field: &str) -> (value: Result<
    GerbilLoopCaseSchemeBoundary,
    String,
>)
    ensures
        match value {
            Ok(v) => scheme_boundary_field(index as nat, seq_views(row@), field@) == Ok::<
                GerbilLoopCaseSchemeBoundary,
                Seq<char>,
            >(v),
            Err(e) => scheme_boundary_field(index as nat, seq_views(row@), field@) == Err::<
                GerbilLoopCaseSchemeBoundary,
                Seq<char>,
            >(e@),
        },
{
    let text = match decode_text(index, row, field) {
        Ok(t) => t,
        Err(e) => return Err(e),
    };
    if text_eq(text.as_str(), "scheme-types->rust-types") {
        Ok(GerbilLoopCaseSchemeBoundary::SchemeTypesToRustTypes)
    } else {
        let mut tail = " has unsupported scheme boundary ".to_owned();
        tail.append(text.as_str());
        Err(field_message_text(index, field, tail.as_str()))
    }
}

/// The required serialization boundary field.
pub fn decode_serialization_boundary(index: usize, row: &Vec<TraceEntry>, field: &str) -> (value:
    Result<GerbilLoopCaseSerializationBoundary, String>)
    ensures
        match value {
            Ok(v) => serialization_boundary_field(index as nat, seq_views(row@), field@) == Ok::<
                GerbilLoopCaseSerializationBoundary,
                Seq<char>,
            >(v),
            Err(e) => serialization_boundary_field(index as nat, seq_views(row@), field@) == Err::<
                GerbilLoopCaseSerializationBoundary,
                Seq<char>,
            >(e@),
        },
{
    let text = match decode_text(index, row, field) {
        Ok(t) => t,
        Err(e) => return Err(e),
    };
    if text_eq(text.as_str(), "rust-owned-cli-trace-cross-process") {
        Ok(GerbilLoopCaseSerializationBoundary::RustOwnedCliTraceCrossProcess)
    } else {
        let mut tail = " has unsupported serialization boundary ".to_owned();
        tail.append(text.as_str());
        Err(field_message_text(index, field, tail.as_str()))
    }
}

} // verus!
