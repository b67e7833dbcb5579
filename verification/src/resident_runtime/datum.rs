//! The Scheme datum text a resident strategy procedure is called with and
//! answers in: `null`, `#t`, `#f`, integers, floats, string literals,
//! `(vector ...)` and `(record ("key" value) ...)`.
//!
//! Floats are written and read by the caller: the functions here take the
//! float writer or reader as a closure and state their result for every
//! float text that closure gives.

use vstd::prelude::*;

use crate::scheme_types::value::{
    GerbilSchemeValue, keys_sorted, last_given, lemma_text_less_irreflexive,
    lemma_text_less_transitive, member_keys, record_lookup, same_value, text_less,
};
use crate::text::{
    IntParseErrorKind, copy_range, decimal_text, digit_char, digit_value, digits_scan,
    i64_parse_spec, is_ascii_digit, i64_to_text, is_whitespace_char,
    lemma_first_position, parse_i64_text, push_char, signed_decimal_text, string_from_chars,
};

verus! {

// ---------------------------------------------------------------------------
// Writing
// ---------------------------------------------------------------------------

/// How one character is written inside a Scheme string literal.
pub open spec fn escaped_char(c: char) -> Seq<char> {
    if c == '\\' {
        seq!['\\', '\\']
    } else if c == '"' {
        seq!['\\', '"']
    } else if c == '\n' {
        seq!['\\', 'n']
    } else if c == '\r' {
        seq!['\\', 'r']
    } else if c == '\t' {
        seq!['\\', 't']
    } else {
        seq![c]
    }
}

/// The characters of `s`, each escaped.
pub open spec fn escaped_text(s: Seq<char>) -> Seq<char>
    decreases s.len(),
{
    if s.len() == 0 {
        Seq::empty()
    } else {
        escaped_text(s.drop_last()) + escaped_char(s.last())
    }
}

/// `s` as a Scheme string literal.
pub open spec fn string_literal(s: Seq<char>) -> Seq<char> {
    seq!['"'] + escaped_text(s) + seq!['"']
}

/// `f` writes each float, given by its bits, as `ft` says.
pub open spec fn writes_floats<F: Fn(u64) -> String>(f: F, ft: spec_fn(u64) -> Seq<char>) -> bool {
    forall|bits: u64, text: String| #[trigger] f.ensures((bits,), text) ==> text@ == ft(bits)
}

/// The datum text of a value, floats written as `ft` says.
pub open spec fn datum_text(value: GerbilSchemeValue, ft: spec_fn(u64) -> Seq<char>) -> Seq<char>
    decreases value,
{
    match value {
        GerbilSchemeValue::Null => "null"@,
        GerbilSchemeValue::Boolean(b) => if b {
            "#t"@
        } else {
            "#f"@
        },
        GerbilSchemeValue::Integer(n) => signed_decimal_text(n as int),
        GerbilSchemeValue::Float(bits) => ft(bits),
        GerbilSchemeValue::Text(t) => string_literal(t@),
        GerbilSchemeValue::Vector(items) => "(vector "@ + joined_datums(items@, ft) + ")"@,
        GerbilSchemeValue::Record(members) => "(record "@ + joined_fields(members@, ft) + ")"@,
    }
}

/// The datum texts of `items`, separated by single spaces.
pub open spec fn joined_datums(items: Seq<GerbilSchemeValue>, ft: spec_fn(u64) -> Seq<char>) -> Seq<
    char,
>
    decreases items,
{
    if items.len() == 0 {
        Seq::empty()
    } else if items.len() == 1 {
        datum_text(items[0], ft)
    } else {
        joined_datums(items.drop_last(), ft) + " "@ + datum_text(items.last(), ft)
    }
}

/// The `("key" value)` texts of `members`, separated by single spaces.
pub open spec fn joined_fields(
    members: Seq<(String, GerbilSchemeValue)>,
    ft: spec_fn(u64) -> Seq<char>,
) -> Seq<char>
    decreases members,
{
    if members.len() == 0 {
        Seq::empty()
    } else if members.len() == 1 {
        field_text(members[0].0@, datum_text(members[0].1, ft))
    } else {
        joined_fields(members.drop_last(), ft) + " "@ + field_text(
            members.last().0@,
            datum_text(members.last().1, ft),
        )
    }
}

/// The text of one record field.
pub open spec fn field_text(key: Seq<char>, value_text: Seq<char>) -> Seq<char> {
    "("@ + string_literal(key) + " "@ + value_text + ")"@
}

/// `value` as a Scheme string literal, with `\`, `"`, newline, carriage
/// return and tab escaped.
pub fn scheme_string(value: &str) -> (encoded: String)
    ensures
        encoded@ == string_literal(value@),
{
    let chars = crate::text::chars_of(value);
    let mut encoded = String::new();
    push_char(&mut encoded, '"');
    let mut i: usize = 0;
    while i < chars.len()
        invariant
            i <= chars.len(),
            chars@ == value@,
            encoded@ == seq!['"'] + escaped_text(chars@.take(i as int)),
        decreases chars.len() - i,
    {
        let c = chars[i];
        let ghost before = encoded@;
        if c == '\\' {
            push_char(&mut encoded, '\\');
            push_char(&mut encoded, '\\');
        } else if c == '"' {
            push_char(&mut encoded, '\\');
            push_char(&mut encoded, '"');
        } else if c == '\n' {
            push_char(&mut encoded, '\\');
            push_char(&mut encoded, 'n');
        } else if c == '\r' {
            push_char(&mut encoded, '\\');
            push_char(&mut encoded, 'r');
        } else if c == '\t' {
            push_char(&mut encoded, '\\');
            push_char(&mut encoded, 't');
        } else {
            push_char(&mut encoded, c);
        }
        assert(encoded@ =~= before + escaped_char(c));
        assert(chars@.take(i + 1).drop_last() =~= chars@.take(i as int));
        i += 1;
    }
    assert(chars@.take(i as int) =~= value@);
    push_char(&mut encoded, '"');
    encoded
}

/// Appends `extra` to `text`.
fn append_text(text: &mut String, extra: &str)
    ensures
        final(text)@ == old(text)@ + extra@,
{
    text.append(extra);
}

/// `value` as datum text; `float_text` writes each float, given by its bits.
pub fn scheme_value_to_datum<F: Fn(u64) -> String>(value: &GerbilSchemeValue, float_text: &F) -> (text:
    String)
    requires
        forall|bits: u64| #[trigger] float_text.requires((bits,)),
    ensures
        forall|ft: spec_fn(u64) -> Seq<char>|
            #[trigger] writes_floats(*float_text, ft) ==> text@ == datum_text(*value, ft),
    decreases value,
{
    match value {
        GerbilSchemeValue::Null => "null".to_owned(),
        GerbilSchemeValue::Boolean(b) => if *b {
            "#t".to_owned()
        } else {
            "#f".to_owned()
        },
        GerbilSchemeValue::Integer(n) => i64_to_text(*n),
        GerbilSchemeValue::Float(bits) => float_text(*bits),
        GerbilSchemeValue::Text(t) => scheme_string(t.as_str()),
        GerbilSchemeValue::Vector(items) => {
            let mut text = "(vector ".to_owned();
            let mut i: usize = 0;
            while i < items.len()
                invariant
                    i <= items.len(),
                    *value == GerbilSchemeValue::Vector(*items),
                    forall|bits: u64| #[trigger] float_text.requires((bits,)),
                    forall|ft: spec_fn(u64) -> Seq<char>|
                        #[trigger] writes_floats(*float_text, ft) ==> text@ == "(vector "@
                            + joined_datums(items@.take(i as int), ft),
                decreases items.len() - i,
            {
                proof {
                    assert(decreases_to!(*value => value->Vector_0));
                    assert(decreases_to!(value->Vector_0 => items@));
                    assert(decreases_to!(items@ => items@[i as int]));
                }
                let ghost before = text@;
                if i > 0 {
                    append_text(&mut text, " ");
                }
                let piece = scheme_value_to_datum(&items[i], float_text);
                append_text(&mut text, piece.as_str());
                proof {
                    assert forall|ft: spec_fn(u64) -> Seq<char>|
                        #[trigger] writes_floats(*float_text, ft) implies text@ == "(vector "@
                            + joined_datums(items@.take(i + 1), ft) by {
                        let taken = items@.take(i + 1);
                        assert(taken.drop_last() =~= items@.take(i as int));
                        assert(taken.last() == items@[i as int]);
                        if i == 0 {
                            assert(taken.len() == 1);
                            assert(items@.take(0) =~= Seq::<GerbilSchemeValue>::empty());
                        }
                    }
                }
                i += 1;
            }
            append_text(&mut text, ")");
            proof {
                assert(items@.take(i as int) =~= items@);
            }
            text
        },
        GerbilSchemeValue::Record(members) => {
            let mut text = "(record ".to_owned();
            let mut i: usize = 0;
            while i < members.len()
                invariant
                    i <= members.len(),
                    *value == GerbilSchemeValue::Record(*members),
                    forall|bits: u64| #[trigger] float_text.requires((bits,)),
                    forall|ft: spec_fn(u64) -> Seq<char>|
                        #[trigger] writes_floats(*float_text, ft) ==> text@ == "(record "@
                            + joined_fields(members@.take(i as int), ft),
                decreases members.len() - i,
            {
                proof {
                    assert(decreases_to!(*value => value->Record_0));
                    assert(decreases_to!(value->Record_0 => members@));
                    assert(decreases_to!(members@ => members@[i as int]));
                    assert(decreases_to!(members@[i as int] => members@[i as int].1));
                }
                let ghost before = text@;
                if i > 0 {
                    append_text(&mut text, " ");
                }
                append_text(&mut text, "(");
                let key = scheme_string(members[i].0.as_str());
                append_text(&mut text, key.as_str());
                append_text(&mut text, " ");
                let piece = scheme_value_to_datum(&members[i].1, float_text);
                append_text(&mut text, piece.as_str());
                append_text(&mut text, ")");
                proof {
                    assert forall|ft: spec_fn(u64) -> Seq<char>|
                        #[trigger] writes_floats(*float_text, ft) implies text@ == "(record "@
                            + joined_fields(members@.take(i + 1), ft) by {
                        let taken = members@.take(i + 1);
                        assert(taken.drop_last() =~= members@.take(i as int));
                        assert(taken.last() == members@[i as int]);
                        if i == 0 {
                            assert(taken.len() == 1);
                            assert(members@.take(0) =~= Seq::<(String, GerbilSchemeValue)>::empty());
                            assert(text@ =~= "(record "@ + field_text(
                                members@[0].0@,
                                datum_text(members@[0].1, ft),
                            ));
                        } else {
                            assert(text@ =~= before + " "@ + field_text(
                                members@[i as int].0@,
                                datum_text(members@[i as int].1, ft),
                            ));
                        }
                    }
                }
                i += 1;
            }
            append_text(&mut text, ")");
            proof {
                assert(members@.take(i as int) =~= members@);
            }
            text
        },
    }
}

// ---------------------------------------------------------------------------
// Reading
// ---------------------------------------------------------------------------

/// A datum as read: a record still holds its fields in the order given.
pub enum SchemeDatum {
    Null,
    Boolean(bool),
    Integer(i64),
    Float(u64),
    Text(Seq<char>),
    Vector(Seq<SchemeDatum>),
    Record(Seq<(Seq<char>, SchemeDatum)>),
}

/// `g` reads each atom as a float (by its bits) or not at all, as `fl` says.
pub open spec fn reads_floats<G: Fn(&str) -> Option<u64>>(
    g: G,
    fl: spec_fn(Seq<char>) -> Option<u64>,
) -> bool {
    forall|atom: &str, bits: Option<u64>| #[trigger] g.ensures((atom,), bits) ==> bits == fl(atom@)
}

/// Characters that end an atom.
pub open spec fn is_delimiter(c: char) -> bool {
    is_whitespace_char(c) || c == '(' || c == ')'
}

/// The first position at or after `i` that is not whitespace.
pub open spec fn skip_space(s: Seq<char>, i: int) -> int
    decreases s.len() - i,
{
    if 0 <= i < s.len() && is_whitespace_char(s[i]) {
        skip_space(s, i + 1)
    } else {
        i
    }
}

/// The first position at or after `i` that holds a delimiter.
pub open spec fn atom_end(s: Seq<char>, i: int) -> int
    decreases s.len() - i,
{
    if 0 <= i < s.len() && !is_delimiter(s[i]) {
        atom_end(s, i + 1)
    } else {
        i
    }
}

pub proof fn lemma_skip_space(s: Seq<char>, i: int)
    requires
        0 <= i <= s.len(),
    ensures
        i <= skip_space(s, i) <= s.len(),
        skip_space(s, i) < s.len() ==> !is_whitespace_char(s[skip_space(s, i)]),
    decreases s.len() - i,
{
    if i < s.len() && is_whitespace_char(s[i]) {
        lemma_skip_space(s, i + 1);
    }
}

pub proof fn lemma_atom_end(s: Seq<char>, i: int)
    requires
        0 <= i <= s.len(),
    ensures
        i <= atom_end(s, i) <= s.len(),
    decreases s.len() - i,
{
    if i < s.len() && !is_delimiter(s[i]) {
        lemma_atom_end(s, i + 1);
    }
}

/// The character an escape `\c` stands for.
pub open spec fn unescaped(c: char) -> char {
    if c == 'n' {
        '\n'
    } else if c == 'r' {
        '\r'
    } else if c == 't' {
        '\t'
    } else {
        c
    }
}

/// The string literal body from `i` to its closing quote: its text and the
/// position after the quote.
pub open spec fn read_text(s: Seq<char>, i: int) -> Result<(Seq<char>, int), Seq<char>>
    decreases s.len() - i,
{
    if i < 0 || i >= s.len() {
        Err("resident strategy response has unterminated string"@)
    } else if s[i] == '"' {
        Ok((Seq::empty(), i + 1))
    } else if s[i] == '\\' {
        if i + 1 >= s.len() {
            Err("resident strategy response has dangling string escape"@)
        } else {
            prefix_text(seq![unescaped(s[i + 1])], read_text(s, i + 2))
        }
    } else {
        prefix_text(seq![s[i]], read_text(s, i + 1))
    }
}

/// `read` with `prefix` put before the text it read.
pub open spec fn prefix_text(prefix: Seq<char>, read: Result<(Seq<char>, int), Seq<char>>) -> Result<
    (Seq<char>, int),
    Seq<char>,
> {
    match read {
        Ok((t, k)) => Ok((prefix + t, k)),
        Err(e) => Err(e),
    }
}

/// What an atom reads as: `null`, an `i64`, a float, else text.
pub open spec fn atom_datum(atom: Seq<char>, fl: spec_fn(Seq<char>) -> Option<u64>) -> SchemeDatum {
    if atom == "null"@ {
        SchemeDatum::Null
    } else if i64_parse_spec(atom) is Ok {
        SchemeDatum::Integer(i64_parse_spec(atom)->Ok_0 as i64)
    } else if fl(atom) is Some {
        SchemeDatum::Float(fl(atom)->Some_0)
    } else {
        SchemeDatum::Text(atom)
    }
}

/// One datum read from position `i`, and the position after it.
pub open spec fn read_value(s: Seq<char>, i: int, fl: spec_fn(Seq<char>) -> Option<u64>) -> Result<
    (SchemeDatum, int),
    Seq<char>,
>
    decreases s.len() - i, 0int,
{
    if i < 0 || i > s.len() {
        Err("resident strategy response ended before a datum"@)
    } else {
        let j = skip_space(s, i);
        proof {
            lemma_skip_space(s, i);
        }
        if j >= s.len() {
            Err("resident strategy response ended before a datum"@)
        } else if s[j] == '(' {
            match read_items(s, j + 1, fl) {
                Err(e) => Err(e),
                Ok((items, k)) => match list_datum(items) {
                    Err(e) => Err(e),
                    Ok(d) => Ok((d, k)),
                },
            }
        } else if s[j] == '"' {
            match read_text(s, j + 1) {
                Err(e) => Err(e),
                Ok((t, k)) => Ok((SchemeDatum::Text(t), k)),
            }
        } else if s[j] == '#' {
            if j + 1 < s.len() && s[j + 1] == 't' {
                Ok((SchemeDatum::Boolean(true), j + 2))
            } else if j + 1 < s.len() && s[j + 1] == 'f' {
                Ok((SchemeDatum::Boolean(false), j + 2))
            } else {
                Err("resident strategy response has invalid boolean datum"@)
            }
        } else {
            let k = atom_end(s, j);
            if k <= j {
                Err("resident strategy response has empty atom"@)
            } else {
                Ok((atom_datum(s.subrange(j, k), fl), k))
            }
        }
    }
}

/// The datums of a list from position `i` up to its closing parenthesis, and
/// the position after it.
pub open spec fn read_items(s: Seq<char>, i: int, fl: spec_fn(Seq<char>) -> Option<u64>) -> Result<
    (Seq<SchemeDatum>, int),
    Seq<char>,
>
    decreases s.len() - i, 1int,
{
    if i < 0 || i > s.len() {
        Err("resident strategy response ended before a datum"@)
    } else {
        let j = skip_space(s, i);
        proof {
            lemma_skip_space(s, i);
        }
        if j < s.len() && s[j] == ')' {
            Ok((Seq::empty(), j + 1))
        } else {
            match read_value(s, j, fl) {
                Err(e) => Err(e),
                Ok((d, k)) => if k <= j || k > s.len() {
                    Err("resident strategy response ended before a datum"@)
                } else {
                    match read_items(s, k, fl) {
                        Err(e) => Err(e),
                        Ok((ds, m)) => Ok((seq![d] + ds, m)),
                    }
                },
            }
        }
    }
}

/// What a list reads as: a record when its head is the text `record`, a
/// vector of the rest when it is `vector`, else a vector of all its items.
pub open spec fn list_datum(items: Seq<SchemeDatum>) -> Result<SchemeDatum, Seq<char>> {
    if items.len() > 0 && items[0] == SchemeDatum::Text("record"@) {
        match record_fields(items.drop_first()) {
            Ok(fields) => Ok(SchemeDatum::Record(fields)),
            Err(e) => Err(e),
        }
    } else if items.len() > 0 && items[0] == SchemeDatum::Text("vector"@) {
        Ok(SchemeDatum::Vector(items.drop_first()))
    } else {
        Ok(SchemeDatum::Vector(items))
    }
}

/// The field an entry of a record list gives: a pair of a text key and a value.
pub open spec fn entry_field(entry: SchemeDatum) -> Result<(Seq<char>, SchemeDatum), Seq<char>> {
    match entry {
        SchemeDatum::Vector(parts) => if parts.len() != 2 {
            Err("resident strategy record field must contain key and value"@)
        } else {
            match parts[0] {
                SchemeDatum::Text(key) => Ok((key, parts[1])),
                _ => Err("resident strategy record field key is not text"@),
            }
        },
        _ => Err("resident strategy record entry is not a field pair"@),
    }
}

/// The fields of a record list's entries, in order; the first bad entry fails.
pub open spec fn record_fields(entries: Seq<SchemeDatum>) -> Result<
    Seq<(Seq<char>, SchemeDatum)>,
    Seq<char>,
>
    decreases entries.len(),
{
    if entries.len() == 0 {
        Ok(Seq::empty())
    } else {
        match record_fields(entries.drop_last()) {
            Err(e) => Err(e),
            Ok(fields) => match entry_field(entries.last()) {
                Err(e) => Err(e),
                Ok(field) => Ok(fields.push(field)),
            },
        }
    }
}

/// A whole datum text: one datum, then only whitespace.
pub open spec fn read_datum(s: Seq<char>, fl: spec_fn(Seq<char>) -> Option<u64>) -> Result<
    SchemeDatum,
    Seq<char>,
> {
    match read_value(s, 0, fl) {
        Err(e) => Err(e),
        Ok((d, k)) => if skip_space(s, k) == s.len() {
            Ok(d)
        } else {
            Err("resident strategy response has trailing datum content"@)
        },
    }
}

/// The value last given for `key` among record fields.
pub open spec fn datum_last_given(fields: Seq<(Seq<char>, SchemeDatum)>, key: Seq<char>) -> Option<
    SchemeDatum,
>
    decreases fields.len(),
{
    if fields.len() == 0 {
        None
    } else if fields.last().0 == key {
        Some(fields.last().1)
    } else {
        datum_last_given(fields.drop_last(), key)
    }
}

/// `value` is what `datum` reads as: records sorted by key, each key with the
/// value last given for it.
pub open spec fn reads_as(value: GerbilSchemeValue, datum: SchemeDatum) -> bool
    decreases value,
{
    match value {
        GerbilSchemeValue::Null => datum == SchemeDatum::Null,
        GerbilSchemeValue::Boolean(b) => datum == SchemeDatum::Boolean(b),
        GerbilSchemeValue::Integer(n) => datum == SchemeDatum::Integer(n),
        GerbilSchemeValue::Float(bits) => datum == SchemeDatum::Float(bits),
        GerbilSchemeValue::Text(t) => datum == SchemeDatum::Text(t@),
        GerbilSchemeValue::Vector(items) => match datum {
            SchemeDatum::Vector(ds) => items@.len() == ds.len() && forall|i: int|
                0 <= i < ds.len() ==> reads_as(#[trigger] items@[i], ds[i]),
            _ => false,
        },
        GerbilSchemeValue::Record(members) => match datum {
            SchemeDatum::Record(given) => {
                &&& keys_sorted(member_keys(members@))
                &&& forall|i: int|
                    0 <= i < members@.len() ==> match datum_last_given(
                        given,
                        (#[trigger] members@[i]).0@,
                    ) {
                        Some(d) => reads_as(members@[i].1, d),
                        None => false,
                    }
                &&& forall|key: Seq<char>|
                    #[trigger] datum_last_given(given, key) is Some ==> record_lookup(
                        members@,
                        key,
                    ) is Some
            },
            _ => false,
        },
    }
}

/// Each value reads as the datum at its position.
pub open spec fn all_read_as(values: Seq<GerbilSchemeValue>, datums: Seq<SchemeDatum>) -> bool {
    values.len() == datums.len() && forall|i: int|
        0 <= i < values.len() ==> reads_as(#[trigger] values[i], datums[i])
}

/// Each field has the key and reads as the value of the field at its position.
pub open spec fn fields_read_as(
    fields: Seq<(String, GerbilSchemeValue)>,
    given: Seq<(Seq<char>, SchemeDatum)>,
) -> bool {
    fields.len() == given.len() && forall|i: int|
        0 <= i < fields.len() ==> (#[trigger] fields[i]).0@ == given[i].0 && reads_as(
            fields[i].1,
            given[i].1,
        )
}

/// In a record with sorted keys, a member's key finds that member.
proof fn lemma_sorted_lookup(members: Seq<(String, GerbilSchemeValue)>, i: int)
    requires
        keys_sorted(member_keys(members)),
        0 <= i < members.len(),
    ensures
        record_lookup(members, members[i].0@) == Some(members[i].1),
{
    let keys = member_keys(members);
    assert(keys[i] == members[i].0@);
    assert forall|j: int| 0 <= j < i implies keys[j] != keys[i] by {
        if keys[j] == keys[i] {
            lemma_text_less_irreflexive(keys[i]);
        }
    }
    lemma_first_position(keys, keys[i], i);
}

/// Fields that read as given fields give, for each key, values that read
/// as the ones given.
proof fn lemma_fields_last_given(
    fields: Seq<(String, GerbilSchemeValue)>,
    given: Seq<(Seq<char>, SchemeDatum)>,
    key: Seq<char>,
)
    requires
        fields_read_as(fields, given),
    ensures
        match (last_given(fields, key), datum_last_given(given, key)) {
            (None, None) => true,
            (Some(x), Some(y)) => reads_as(x, y),
            _ => false,
        },
    decreases fields.len(),
{
    if fields.len() > 0 {
        let n = fields.len() - 1;
        assert(fields[n].0@ == given[n].0);
        assert(fields_read_as(fields.drop_last(), given.drop_last())) by {
            assert forall|i: int| 0 <= i < fields.drop_last().len() implies (
            #[trigger] fields.drop_last()[i]).0@ == given.drop_last()[i].0 && reads_as(
                fields.drop_last()[i].1,
                given.drop_last()[i].1,
            ) by {
                assert(fields.drop_last()[i] == fields[i]);
                assert(given.drop_last()[i] == given[i]);
            }
        }
        lemma_fields_last_given(fields.drop_last(), given.drop_last(), key);
    }
}

/// The record built from fields that read as given fields reads as the
/// record of those fields.
proof fn lemma_record_reads(
    record: Vec<(String, GerbilSchemeValue)>,
    fields: Seq<(String, GerbilSchemeValue)>,
    given: Seq<(Seq<char>, SchemeDatum)>,
)
    requires
        keys_sorted(member_keys(record@)),
        forall|key: Seq<char>| #[trigger] record_lookup(record@, key) == last_given(fields, key),
        fields_read_as(fields, given),
    ensures
        reads_as(GerbilSchemeValue::Record(record), SchemeDatum::Record(given)),
{
    let members = record@;
    assert forall|i: int| 0 <= i < members.len() implies match datum_last_given(
        given,
        (#[trigger] members[i]).0@,
    ) {
        Some(d) => reads_as(members[i].1, d),
        None => false,
    } by {
        lemma_sorted_lookup(members, i);
        assert(record_lookup(members, members[i].0@) == last_given(fields, members[i].0@));
        lemma_fields_last_given(fields, given, members[i].0@);
    }
    assert forall|key: Seq<char>| #[trigger] datum_last_given(given, key) is Some implies record_lookup(
        members,
        key,
    ) is Some by {
        lemma_fields_last_given(fields, given, key);
        assert(record_lookup(members, key) == last_given(fields, key));
    }
}

/// Once the fields of a prefix of the entries fail, the fields of all fail
/// the same way.
proof fn lemma_record_fields_error_sticks(entries: Seq<SchemeDatum>, k: int)
    requires
        0 <= k <= entries.len(),
        record_fields(entries.take(k)) is Err,
    ensures
        record_fields(entries) == record_fields(entries.take(k)),
    decreases entries.len() - k,
{
    if k < entries.len() {
        assert(entries.take(k + 1).drop_last() =~= entries.take(k));
        lemma_record_fields_error_sticks(entries, k + 1);
    } else {
        assert(entries.take(k) =~= entries);
    }
}

/// The first position at or after `i` that is not whitespace.
fn skip_space_at(s: &Vec<char>, i: usize) -> (j: usize)
    requires
        i <= s.len(),
    ensures
        j == skip_space(s@, i as int),
        i <= j <= s.len(),
{
    let mut j = i;
    while j < s.len() && crate::text::char_is_whitespace(s[j])
        invariant
            i <= j <= s.len(),
            skip_space(s@, j as int) == skip_space(s@, i as int),
        decreases s.len() - j,
    {
        j += 1;
    }
    j
}

/// The first position at or after `i` that holds a delimiter.
fn atom_end_at(s: &Vec<char>, i: usize) -> (k: usize)
    requires
        i <= s.len(),
    ensures
        k == atom_end(s@, i as int),
        i <= k <= s.len(),
{
    let mut k = i;
    while k < s.len() && !(crate::text::char_is_whitespace(s[k]) || s[k] == '(' || s[k] == ')')
        invariant
            i <= k <= s.len(),
            atom_end(s@, k as int) == atom_end(s@, i as int),
        decreases s.len() - k,
    {
        k += 1;
    }
    k
}

/// Reads a string literal body from `i` up to its closing quote.
fn read_text_at(s: &Vec<char>, i: usize) -> (result: Result<(String, usize), String>)
    requires
        i <= s.len(),
    ensures
        match (result, read_text(s@, i as int)) {
            (Ok((t, k)), Ok((u, m))) => t@ == u && k == m,
            (Err(e), Err(f)) => e@ == f,
            _ => false,
        },
        result matches Ok((_, k)) ==> i < k <= s.len(),
{
    let mut text: Vec<char> = Vec::new();
    let mut pos = i;
    assert(text@ + Seq::<char>::empty() =~= text@);
    while pos < s.len() && s[pos] != '"'
        invariant
            i <= pos <= s.len(),
            read_text(s@, i as int) == prefix_text(text@, read_text(s@, pos as int)),
        decreases s.len() - pos,
    {
        let ghost before = text@;
        if s[pos] == '\\' {
            if pos + 1 >= s.len() {
                return Err("resident strategy response has dangling string escape".to_owned());
            }
            let c = s[pos + 1];
            let u = if c == 'n' {
                '\n'
            } else if c == 'r' {
                '\r'
            } else if c == 't' {
                '\t'
            } else {
                c
            };
            text.push(u);
            proof {
                match read_text(s@, pos + 2) {
                    Ok((t, k)) => {
                        assert(before + (seq![u] + t) =~= text@ + t);
                    },
                    Err(e) => {},
                }
            }
            pos += 2;
        } else {
            let c = s[pos];
            text.push(c);
            proof {
                match read_text(s@, pos + 1) {
                    Ok((t, k)) => {
                        assert(before + (seq![c] + t) =~= text@ + t);
                    },
                    Err(e) => {},
                }
            }
            pos += 1;
        }
    }
    if pos >= s.len() {
        return Err("resident strategy response has unterminated string".to_owned());
    }
    assert(text@ + Seq::<char>::empty() =~= text@);
    Ok((string_from_chars(&text), pos + 1))
}

/// What the atom `s[from..to]` reads as.
fn atom_value<G: Fn(&str) -> Option<u64>>(s: &Vec<char>, from: usize, to: usize, float_bits: &G) -> (value:
    GerbilSchemeValue)
    requires
        from <= to <= s.len(),
        forall|atom: &str| #[trigger] float_bits.requires((atom,)),
    ensures
        forall|fl: spec_fn(Seq<char>) -> Option<u64>|
            #[trigger] reads_floats(*float_bits, fl) ==> reads_as(
                value,
                atom_datum(s@.subrange(from as int, to as int), fl),
            ),
{
    let atom = string_from_chars(&copy_range(s, from, to));
    if crate::text::text_eq(atom.as_str(), "null") {
        return GerbilSchemeValue::Null;
    }
    match parse_i64_text(atom.as_str()) {
        Ok(n) => GerbilSchemeValue::Integer(n),
        Err(_) => {
            let bits = float_bits(atom.as_str());
            match bits {
                Some(b) => GerbilSchemeValue::Float(b),
                None => GerbilSchemeValue::Text(atom),
            }
        },
    }
}

/// `result` is what `expected` says.
pub open spec fn datum_result_matches(
    result: Result<GerbilSchemeValue, String>,
    expected: Result<SchemeDatum, Seq<char>>,
) -> bool {
    match (result, expected) {
        (Ok(v), Ok(d)) => reads_as(v, d),
        (Err(e), Err(f)) => e@ == f,
        _ => false,
    }
}

/// Whether `value` is the text `kind`.
fn is_text_of(value: &GerbilSchemeValue, kind: &str) -> (b: bool)
    ensures
        b == (value matches GerbilSchemeValue::Text(t) && t@ == kind@),
{
    match value {
        GerbilSchemeValue::Text(t) => crate::text::text_eq(t.as_str(), kind),
        _ => false,
    }
}

/// What the items of a list read as.
fn list_value(items: Vec<GerbilSchemeValue>) -> (result: Result<GerbilSchemeValue, String>)
    ensures
        forall|ds: Seq<SchemeDatum>|
            #[trigger] all_read_as(items@, ds) ==> datum_result_matches(result, list_datum(ds)),
{
    let ghost all = items@;
    let is_record = items.len() > 0 && is_text_of(&items[0], "record");
    let is_vector = items.len() > 0 && is_text_of(&items[0], "vector");
    proof {
        reveal_strlit("record");
        reveal_strlit("vector");
        assert forall|ds: Seq<SchemeDatum>| #[trigger] all_read_as(all, ds) implies ((all.len() > 0
            && ds[0] == SchemeDatum::Text("record"@)) == is_record && (all.len() > 0 && ds[0]
            == SchemeDatum::Text("vector"@)) == is_vector) by {
            if all.len() > 0 {
                assert(reads_as(all[0], ds[0]));
            }
        }
    }
    if !is_record {
        if is_vector {
            let mut rest = items;
            rest.remove(0);
            proof {
                assert forall|ds: Seq<SchemeDatum>| #[trigger] all_read_as(all, ds) implies reads_as(
                    GerbilSchemeValue::Vector(rest),
                    SchemeDatum::Vector(ds.drop_first()),
                ) by {
                    assert forall|i: int| 0 <= i < ds.drop_first().len() implies reads_as(
                        #[trigger] rest@[i],
                        ds.drop_first()[i],
                    ) by {
                        assert(rest@[i] == all[i + 1]);
                        assert(reads_as(all[i + 1], ds[i + 1]));
                    }
                }
            }
            return Ok(GerbilSchemeValue::Vector(rest));
        }
        proof {
            assert forall|ds: Seq<SchemeDatum>| #[trigger] all_read_as(all, ds) implies reads_as(
                GerbilSchemeValue::Vector(items),
                SchemeDatum::Vector(ds),
            ) by {
                assert forall|i: int| 0 <= i < ds.len() implies reads_as(#[trigger] items@[i], ds[i]) by {
                    assert(reads_as(all[i], ds[i]));
                }
            }
        }
        return Ok(GerbilSchemeValue::Vector(items));
    }
    let mut rest = items;
    rest.remove(0);
    let ghost entries = rest@;
    assert(entries =~= all.drop_first());
    let mut fields: Vec<(String, GerbilSchemeValue)> = Vec::new();
    let mut i: usize = 0;
    proof {
        assert forall|ds: Seq<SchemeDatum>| #[trigger] all_read_as(all, ds) implies record_fields(
            ds.drop_first().take(0),
        ) == Ok::<Seq<(Seq<char>, SchemeDatum)>, Seq<char>>(Seq::empty()) by {
            assert(ds.drop_first().take(0).len() == 0);
        }
    }
    while rest.len() > 0
        invariant
            all == items@,
            all.len() <= usize::MAX,
            entries == all.drop_first(),
            i + rest.len() == entries.len(),
            rest@ == entries.subrange(i as int, entries.len() as int),
            all.len() > 0,
            forall|ds: Seq<SchemeDatum>|
                #[trigger] all_read_as(all, ds) ==> (ds[0] == SchemeDatum::Text("record"@) && (
                record_fields(ds.drop_first().take(i as int)) matches Ok(given) && fields_read_as(
                    fields@,
                    given,
                ))),
        decreases rest.len(),
    {
        let entry = rest.remove(0);
        assert(entry == all[i + 1]);
        let ghost before = fields@;
        match entry {
            GerbilSchemeValue::Vector(pair_values) => {
                let mut parts = pair_values;
                if parts.len() != 2 {
                    let e = "resident strategy record field must contain key and value".to_owned();
                proof {
                        assert forall|ds: Seq<SchemeDatum>| #[trigger] all_read_as(all, ds) implies datum_result_matches(
                            Err::<GerbilSchemeValue, String>(e),
                            list_datum(
                            ds),
                        ) by {
                            assert(reads_as(all[i + 1], ds[i + 1]));
                            let es = ds.drop_first();
                            assert(es.take(i + 1).drop_last() =~= es.take(i as int));
                            assert(es.take(i + 1).last() == ds[i + 1]);
                            lemma_record_fields_error_sticks(es, i + 1);
                        }
                    }
                    return Err(e);
                }
                let ghost pair = parts@;
                let value = parts.pop().unwrap();
                let key = parts.pop().unwrap();
                match key {
                    GerbilSchemeValue::Text(k) => {
                        proof {
                            assert forall|ds: Seq<SchemeDatum>| #[trigger] all_read_as(all, ds) implies (record_fields(
                                ds.drop_first().take(i + 1),
                            ) matches Ok(given) && fields_read_as(before.push((k, value)), given)) by {
                                assert(reads_as(all[i + 1], ds[i + 1]));
                                let es = ds.drop_first();
                                assert(es.take(i + 1).drop_last() =~= es.take(i as int));
                                assert(es.take(i + 1).last() == ds[i + 1]);
                                let dparts = ds[i + 1]->Vector_0;
                                assert(reads_as(pair[0], dparts[0]));
                                assert(reads_as(pair[1], dparts[1]));
                                let given = record_fields(es.take(i as int))->Ok_0;
                                assert(record_fields(es.take(i + 1)) == Ok::<
                                    Seq<(Seq<char>, SchemeDatum)>,
                                    Seq<char>,
                                >(given.push((k@, dparts[1]))));
                                let now = before.push((k, value));
                                let given2 = given.push((k@, dparts[1]));
                                assert forall|j: int| 0 <= j < now.len() implies (#[trigger] now[j]).0@
                                    == given2[j].0 && reads_as(now[j].1, given2[j].1) by {
                                    if j < before.len() {
                                        assert(now[j] == before[j]);
                                        assert(given2[j] == given[j]);
                                    }
                                }
                            }
                        }
                        fields.push((k, value));
                    },
                    _ => {
                        let e = "resident strategy record field key is not text".to_owned();
                proof {
                            assert forall|ds: Seq<SchemeDatum>| #[trigger] all_read_as(all, ds) implies datum_result_matches(
                            Err::<GerbilSchemeValue, String>(e),
                            list_datum(
                                ds),
                            ) by {
                                assert(reads_as(all[i + 1], ds[i + 1]));
                                let es = ds.drop_first();
                                assert(es.take(i + 1).drop_last() =~= es.take(i as int));
                                assert(es.take(i + 1).last() == ds[i + 1]);
                                let dparts = ds[i + 1]->Vector_0;
                                assert(reads_as(pair[0], dparts[0]));
                                lemma_record_fields_error_sticks(es, i + 1);
                            }
                        }
                        return Err(e);
                    },
                }
            },
            _ => {
                let e = "resident strategy record entry is not a field pair".to_owned();
                proof {
                    assert forall|ds: Seq<SchemeDatum>| #[trigger] all_read_as(all, ds) implies datum_result_matches(
                            Err::<GerbilSchemeValue, String>(e),
                            list_datum(
                        ds),
                    ) by {
                        assert(reads_as(all[i + 1], ds[i + 1]));
                        let es = ds.drop_first();
                        assert(es.take(i + 1).drop_last() =~= es.take(i as int));
                        assert(es.take(i + 1).last() == ds[i + 1]);
                        lemma_record_fields_error_sticks(es, i + 1);
                    }
                }
                return Err(e);
            },
        }
        assert(rest@ =~= entries.subrange(i + 1, entries.len() as int));
        i += 1;
    }
    let ghost given_fields = fields@;
    let record = GerbilSchemeValue::record(fields);
    proof {
        assert forall|ds: Seq<SchemeDatum>| #[trigger] all_read_as(all, ds) implies datum_result_matches(
            Ok::<GerbilSchemeValue, String>(record),
            list_datum(ds),
        ) by {
            let es = ds.drop_first();
            assert(es.take(i as int) =~= es);
            let given = record_fields(es)->Ok_0;
            let members = record->Record_0;
            lemma_record_reads(members, given_fields, given);
        }
    }
    Ok(record)
}

/// `result` is the value and end position `expected` says.
pub open spec fn value_read_matches(
    result: Result<(GerbilSchemeValue, usize), String>,
    expected: Result<(SchemeDatum, int), Seq<char>>,
) -> bool {
    match (result, expected) {
        (Ok((v, k)), Ok((d, m))) => reads_as(v, d) && k == m,
        (Err(e), Err(f)) => e@ == f,
        _ => false,
    }
}

/// `result` is the values and end position `expected` says.
pub open spec fn items_read_matches(
    result: Result<(Vec<GerbilSchemeValue>, usize), String>,
    expected: Result<(Seq<SchemeDatum>, int), Seq<char>>,
) -> bool {
    match (result, expected) {
        (Ok((vs, k)), Ok((ds, m))) => all_read_as(vs@, ds) && k == m,
        (Err(e), Err(f)) => e@ == f,
        _ => false,
    }
}

/// Reads one datum from position `i`.
fn read_value_at<G: Fn(&str) -> Option<u64>>(s: &Vec<char>, i: usize, float_bits: &G) -> (result:
    Result<(GerbilSchemeValue, usize), String>)
    requires
        i <= s.len(),
        forall|atom: &str| #[trigger] float_bits.requires((atom,)),
    ensures
        forall|fl: spec_fn(Seq<char>) -> Option<u64>|
            #[trigger] reads_floats(*float_bits, fl) ==> value_read_matches(
                result,
                read_value(s@, i as int, fl),
            ),
        result matches Ok((_, k)) ==> i < k <= s.len(),
    decreases s.len() - i, 0int,
{
    let j = skip_space_at(s, i);
    if j >= s.len() {
        return Err("resident strategy response ended before a datum".to_owned());
    }
    if s[j] == '(' {
        let (items, k) = match read_items_at(s, j + 1, float_bits) {
            Ok(read) => read,
            Err(e) => {
                return Err(e);
            },
        };
        let ghost values = items@;
        let listed = list_value(items);
        match listed {
            Ok(v) => {
                proof {
                    assert forall|fl: spec_fn(Seq<char>) -> Option<u64>|
                        #[trigger] reads_floats(*float_bits, fl) implies value_read_matches(
                        Ok::<(GerbilSchemeValue, usize), String>((v, k)),
                        read_value(s@, i as int, fl),
                    ) by {
                        let ds = read_items(s@, j + 1, fl)->Ok_0.0;
                        assert(all_read_as(values, ds));
                    }
                }
                Ok((v, k))
            },
            Err(e) => {
                proof {
                    assert forall|fl: spec_fn(Seq<char>) -> Option<u64>|
                        #[trigger] reads_floats(*float_bits, fl) implies value_read_matches(
                        Err::<(GerbilSchemeValue, usize), String>(e),
                        read_value(s@, i as int, fl),
                    ) by {
                        let ds = read_items(s@, j + 1, fl)->Ok_0.0;
                        assert(all_read_as(values, ds));
                    }
                }
                Err(e)
            },
        }
    } else if s[j] == '"' {
        match read_text_at(s, j + 1) {
            Ok((t, k)) => Ok((GerbilSchemeValue::Text(t), k)),
            Err(e) => Err(e),
        }
    } else if s[j] == '#' {
        if j + 1 < s.len() && s[j + 1] == 't' {
            Ok((GerbilSchemeValue::Boolean(true), j + 2))
        } else if j + 1 < s.len() && s[j + 1] == 'f' {
            Ok((GerbilSchemeValue::Boolean(false), j + 2))
        } else {
            Err("resident strategy response has invalid boolean datum".to_owned())
        }
    } else {
        let k = atom_end_at(s, j);
        if k == j {
            return Err("resident strategy response has empty atom".to_owned());
        }
        let value = atom_value(s, j, k, float_bits);
        Ok((value, k))
    }
}

/// Reads the datums of a list from position `i` up to its closing parenthesis.
fn read_items_at<G: Fn(&str) -> Option<u64>>(s: &Vec<char>, i: usize, float_bits: &G) -> (result:
    Result<(Vec<GerbilSchemeValue>, usize), String>)
    requires
        i <= s.len(),
        forall|atom: &str| #[trigger] float_bits.requires((atom,)),
    ensures
        forall|fl: spec_fn(Seq<char>) -> Option<u64>|
            #[trigger] reads_floats(*float_bits, fl) ==> items_read_matches(
                result,
                read_items(s@, i as int, fl),
            ),
        result matches Ok((_, m)) ==> i < m <= s.len(),
    decreases s.len() - i, 1int,
{
    let j = skip_space_at(s, i);
    if j < s.len() && s[j] == ')' {
        return Ok((Vec::new(), j + 1));
    }
    let (value, k) = match read_value_at(s, j, float_bits) {
        Ok(read) => read,
        Err(e) => {
            return Err(e);
        },
    };
    let (mut values, m) = match read_items_at(s, k, float_bits) {
        Ok(read) => read,
        Err(e) => {
            return Err(e);
        },
    };
    let ghost rest = values@;
    values.insert(0, value);
    proof {
        assert forall|fl: spec_fn(Seq<char>) -> Option<u64>|
            #[trigger] reads_floats(*float_bits, fl) implies items_read_matches(
            Ok::<(Vec<GerbilSchemeValue>, usize), String>((values, m)),
            read_items(s@, i as int, fl),
        ) by {
            let d = read_value(s@, j as int, fl)->Ok_0.0;
            let ds = read_items(s@, k as int, fl)->Ok_0.0;
            assert(values@ =~= seq![value] + rest);
            assert forall|n: int| 0 <= n < values@.len() implies reads_as(
                #[trigger] values@[n],
                (seq![d] + ds)[n],
            ) by {
                if n > 0 {
                    assert(values@[n] == rest[n - 1]);
                }
            }
        }
    }
    Ok((values, m))
}

/// Reads a whole datum text: one datum, then only whitespace. `float_bits`
/// reads an atom that is neither `null` nor an `i64` as a float (by its bits),
/// or not at all, in which case the atom is text.
pub fn parse_scheme_value_datum<G: Fn(&str) -> Option<u64>>(input: &str, float_bits: &G) -> (result:
    Result<GerbilSchemeValue, String>)
    requires
        forall|atom: &str| #[trigger] float_bits.requires((atom,)),
    ensures
        forall|fl: spec_fn(Seq<char>) -> Option<u64>|
            #[trigger] reads_floats(*float_bits, fl) ==> datum_result_matches(
                result,
                read_datum(input@, fl),
            ),
{
    let s = crate::text::chars_of(input);
    let (value, k) = match read_value_at(&s, 0, float_bits) {
        Ok(read) => read,
        Err(e) => {
            return Err(e);
        },
    };
    let end = skip_space_at(&s, k);
    if end == s.len() {
        Ok(value)
    } else {
        Err("resident strategy response has trailing datum content".to_owned())
    }
}

// ---------------------------------------------------------------------------
// Reading back what was written
// ---------------------------------------------------------------------------

/// Escaping a text with a first character escapes that character first.
proof fn lemma_escaped_front(x: Seq<char>)
    requires
        x.len() > 0,
    ensures
        escaped_text(x) == escaped_char(x[0]) + escaped_text(x.drop_first()),
    decreases x.len(),
{
    if x.len() == 1 {
        assert(x.drop_last().len() == 0);
        assert(x.drop_first().len() == 0);
        assert(escaped_text(x.drop_first()) == Seq::<char>::empty());
        assert(escaped_text(x.drop_last()) == Seq::<char>::empty());
        assert(x.last() == x[0]);
        assert(escaped_text(x) == escaped_text(x.drop_last()) + escaped_char(x.last()));
        assert(Seq::<char>::empty() + escaped_char(x[0]) =~= escaped_char(x[0]));
        assert(escaped_char(x[0]) + Seq::<char>::empty() =~= escaped_char(x[0]));
    } else {
        assert(escaped_text(x) == escaped_text(x.drop_last()) + escaped_char(x.last()));
        assert(escaped_text(x.drop_first()) == escaped_text(x.drop_first().drop_last())
            + escaped_char(x.drop_first().last()));
        lemma_escaped_front(x.drop_last());
        assert(x.drop_last().drop_first() =~= x.drop_first().drop_last());
        assert(x.drop_first().last() == x.last());
        assert(x.drop_last()[0] == x[0]);
        assert(escaped_char(x[0]) + escaped_text(x.drop_last().drop_first()) + escaped_char(x.last())
            =~= escaped_char(x[0]) + (escaped_text(x.drop_first().drop_last()) + escaped_char(
            x.drop_first().last(),
        )));
    }
}

/// An escaped text followed by a quote reads back as the text.
proof fn lemma_read_escaped(s: Seq<char>, i: int, x: Seq<char>)
    requires
        0 <= i,
        i + escaped_text(x).len() < s.len(),
        s.subrange(i, i + escaped_text(x).len()) == escaped_text(x),
        s[i + escaped_text(x).len()] == '"',
    ensures
        read_text(s, i) == Ok::<(Seq<char>, int), Seq<char>>((x, i + escaped_text(x).len() + 1)),
    decreases x.len(),
{
    if x.len() == 0 {
        assert(escaped_text(x).len() == 0);
        assert(x =~= Seq::<char>::empty());
    } else {
        lemma_escaped_front(x);
        let e = escaped_char(x[0]);
        let rest = x.drop_first();
        let n = escaped_text(x).len();
        assert(escaped_text(x) == e + escaped_text(rest));
        assert(s.subrange(i + e.len(), i + n) =~= escaped_text(rest)) by {
            assert forall|k: int| 0 <= k < escaped_text(rest).len() implies s.subrange(
                i + e.len(),
                i + n,
            )[k] == escaped_text(rest)[k] by {
                assert(s.subrange(i, i + n)[e.len() + k] == s[i + e.len() + k]);
            }
        }
        assert(s[i] == s.subrange(i, i + n)[0]);
        lemma_read_escaped(s, i + e.len(), rest);
        if e.len() == 2 {
            assert(s[i + 1] == s.subrange(i, i + n)[1]);
            assert(s[i] == '\\');
            assert(unescaped(s[i + 1]) == x[0]);
        } else {
            assert(s[i] == x[0]);
        }
        assert(seq![x[0]] + rest =~= x);
    }
}

/// Decimal digits start with a digit, and all are digits.
proof fn lemma_decimal_digits(n: nat)
    ensures
        decimal_text(n).len() > 0,
        forall|k: int| 0 <= k < decimal_text(n).len() ==> is_ascii_digit(#[trigger] decimal_text(n)[k]),
    decreases n,
{
    if n >= 10 {
        lemma_decimal_digits(n / 10);
        assert forall|k: int| 0 <= k < decimal_text(n).len() implies is_ascii_digit(
            #[trigger] decimal_text(n)[k],
        ) by {
            if k < decimal_text(n / 10).len() {
                assert(decimal_text(n)[k] == decimal_text(n / 10)[k]);
            } else {
                assert(decimal_text(n)[k] == digit_char(n % 10));
            }
        }
    } else {
        assert(decimal_text(n)[0] == digit_char(n));
    }
}

/// Scanning the decimal digits of `n` gives `n` back.
proof fn lemma_scan_decimal(n: nat, max: nat)
    requires
        n <= max,
    ensures
        digits_scan(decimal_text(n), max) == Ok::<nat, IntParseErrorKind>(n),
    decreases n,
{
    let d = decimal_text(n);
    if n < 10 {
        assert(d.drop_last() =~= Seq::<char>::empty());
        assert(digits_scan(d.drop_last(), max) == Ok::<nat, IntParseErrorKind>(0));
        assert(d.last() == digit_char(n));
        assert(digit_value(digit_char(n)) == n);
        assert(is_ascii_digit(digit_char(n)));
    } else {
        lemma_scan_decimal(n / 10, max);
        assert(d.drop_last() =~= decimal_text(n / 10));
        assert(digit_value(digit_char(n % 10)) == n % 10);
        assert(is_ascii_digit(digit_char(n % 10)));
    }
}

/// The decimal text of an `i64` parses back as it.
proof fn lemma_parse_decimal(n: i64)
    ensures
        i64_parse_spec(signed_decimal_text(n as int)) == Ok::<int, IntParseErrorKind>(n as int),
{
    let t = signed_decimal_text(n as int);
    if n < 0 {
        let m = (-(n as int)) as nat;
        lemma_decimal_digits(m);
        lemma_scan_decimal(m, 0x8000_0000_0000_0000);
        assert(t.drop_first() =~= decimal_text(m));
        assert(t[0] == '-');
    } else {
        lemma_decimal_digits(n as nat);
        lemma_scan_decimal(n as nat, 0x7fff_ffff_ffff_ffff);
        assert(is_ascii_digit(t[0]));
    }
}

/// A text that opens with something other than a digit or a sign is no `i64`.
proof fn lemma_scan_first_not_digit(d: Seq<char>, max: nat)
    requires
        d.len() > 0,
        !is_ascii_digit(d[0]),
    ensures
        digits_scan(d, max) is Err,
    decreases d.len(),
{
    if d.len() > 1 {
        assert(d.drop_last()[0] == d[0]);
        lemma_scan_first_not_digit(d.drop_last(), max);
    } else {
        assert(d.drop_last() =~= Seq::<char>::empty());
        assert(d.last() == d[0]);
    }
}

/// A word that opens with a letter reads as text unless it is `null` or a float.
proof fn lemma_word_is_no_integer(w: Seq<char>)
    requires
        w.len() > 1,
        !is_ascii_digit(w[0]),
        w[0] != '+',
        w[0] != '-',
    ensures
        i64_parse_spec(w) is Err,
{
    lemma_scan_first_not_digit(w, 0x7fff_ffff_ffff_ffff);
}

/// An atom that runs from `i` to a delimiter (or the end) at `j` ends at `j`.
proof fn lemma_atom_end_exact(s: Seq<char>, i: int, j: int)
    requires
        0 <= i <= j <= s.len(),
        forall|k: int| i <= k < j ==> !is_delimiter(#[trigger] s[k]),
        j == s.len() || is_delimiter(s[j]),
    ensures
        atom_end(s, i) == j,
    decreases j - i,
{
    if i < j {
        lemma_atom_end_exact(s, i + 1, j);
    }
}

/// An atom that `fl` reads back as the float `bits`: not empty, free of
/// delimiters, not opening as a string or a boolean, not `null` and no `i64`.
pub open spec fn float_atom_for(atom: Seq<char>, bits: u64, fl: spec_fn(Seq<char>) -> Option<u64>) -> bool {
    &&& atom.len() > 0
    &&& forall|k: int| 0 <= k < atom.len() ==> !is_delimiter(#[trigger] atom[k])
    &&& atom[0] != '"' && atom[0] != '#'
    &&& atom != "null"@
    &&& i64_parse_spec(atom) is Err
    &&& fl(atom) == Some(bits)
}

/// `value`, written with `ft`, reads back with `fl`: each float is written as
/// an atom that reads back as it, each record has sorted keys, none of which
/// is `record` or `vector`.
pub open spec fn reads_back(
    value: GerbilSchemeValue,
    ft: spec_fn(u64) -> Seq<char>,
    fl: spec_fn(Seq<char>) -> Option<u64>,
) -> bool
    decreases value,
{
    match value {
        GerbilSchemeValue::Float(bits) => float_atom_for(ft(bits), bits, fl),
        GerbilSchemeValue::Vector(items) => forall|i: int|
            0 <= i < items@.len() ==> reads_back(#[trigger] items@[i], ft, fl),
        GerbilSchemeValue::Record(members) => {
            &&& keys_sorted(member_keys(members@))
            &&& forall|i: int|
                0 <= i < members@.len() ==> (#[trigger] members@[i]).0@ != "record"@
                    && members@[i].0@ != "vector"@ && reads_back(members@[i].1, ft, fl)
        },
        _ => true,
    }
}

/// Written datums open with neither whitespace nor a closing parenthesis.
proof fn lemma_first_char(v: GerbilSchemeValue, ft: spec_fn(u64) -> Seq<char>, fl: spec_fn(Seq<char>) -> Option<u64>)
    requires
        reads_back(v, ft, fl),
    ensures
        datum_text(v, ft).len() > 0,
        !is_whitespace_char(datum_text(v, ft)[0]),
        datum_text(v, ft)[0] != ')',
{
    reveal_strlit("null");
    reveal_strlit("#t");
    reveal_strlit("#f");
    reveal_strlit("(vector ");
    reveal_strlit("(record ");
    match v {
        GerbilSchemeValue::Integer(n) => {
            if n < 0 {
                lemma_decimal_digits((-(n as int)) as nat);
            } else {
                lemma_decimal_digits(n as nat);
                assert(is_ascii_digit(datum_text(v, ft)[0]));
            }
        },
        GerbilSchemeValue::Float(bits) => {
            assert(!is_delimiter(ft(bits)[0]));
        },
        _ => {},
    }
}

/// The datum texts of `items`, each after a space.
pub open spec fn spaced_datums(items: Seq<GerbilSchemeValue>, ft: spec_fn(u64) -> Seq<char>) -> Seq<
    char,
>
    decreases items.len(),
{
    if items.len() == 0 {
        Seq::empty()
    } else {
        " "@ + datum_text(items[0], ft) + spaced_datums(items.drop_first(), ft)
    }
}

/// The field texts of `members`, each after a space.
pub open spec fn spaced_fields(
    members: Seq<(String, GerbilSchemeValue)>,
    ft: spec_fn(u64) -> Seq<char>,
) -> Seq<char>
    decreases members.len(),
{
    if members.len() == 0 {
        Seq::empty()
    } else {
        " "@ + field_text(members[0].0@, datum_text(members[0].1, ft)) + spaced_fields(
            members.drop_first(),
            ft,
        )
    }
}

proof fn lemma_spaced_datums_back(items: Seq<GerbilSchemeValue>, ft: spec_fn(u64) -> Seq<char>)
    requires
        items.len() > 0,
    ensures
        spaced_datums(items, ft) == spaced_datums(items.drop_last(), ft) + " "@ + datum_text(
            items.last(),
            ft,
        ),
    decreases items.len(),
{
    if items.len() == 1 {
        assert(items.drop_first().len() == 0);
        assert(items.drop_last().len() == 0);
        assert(spaced_datums(items.drop_first(), ft) == Seq::<char>::empty());
        assert(spaced_datums(items.drop_last(), ft) == Seq::<char>::empty());
        assert(items.last() == items[0]);
        assert(" "@ + datum_text(items[0], ft) + Seq::<char>::empty() =~= Seq::<char>::empty() + " "@
            + datum_text(items[0], ft));
    } else {
        lemma_spaced_datums_back(items.drop_first(), ft);
        assert(items.drop_first().drop_last() =~= items.drop_last().drop_first());
        assert(items.drop_last()[0] == items[0]);
        assert(items.drop_first().last() == items.last());
        assert(spaced_datums(items.drop_last(), ft) == " "@ + datum_text(items[0], ft)
            + spaced_datums(items.drop_last().drop_first(), ft));
        assert(" "@ + datum_text(items[0], ft) + (spaced_datums(items.drop_last().drop_first(), ft)
            + " "@ + datum_text(items.last(), ft)) =~= " "@ + datum_text(items[0], ft)
            + spaced_datums(items.drop_last().drop_first(), ft) + " "@ + datum_text(items.last(), ft));
    }
}

proof fn lemma_joined_datums_spaced(items: Seq<GerbilSchemeValue>, ft: spec_fn(u64) -> Seq<char>)
    requires
        items.len() > 0,
    ensures
        " "@ + joined_datums(items, ft) == spaced_datums(items, ft),
    decreases items.len(),
{
    lemma_spaced_datums_back(items, ft);
    if items.len() == 1 {
        assert(items.drop_last().len() == 0);
        assert(spaced_datums(items.drop_last(), ft) == Seq::<char>::empty());
        assert(items.last() == items[0]);
        assert(Seq::<char>::empty() + " "@ + datum_text(items[0], ft) =~= " "@ + datum_text(
            items[0],
            ft,
        ));
    } else {
        lemma_joined_datums_spaced(items.drop_last(), ft);
        assert(" "@ + (joined_datums(items.drop_last(), ft) + " "@ + datum_text(items.last(), ft))
            =~= " "@ + joined_datums(items.drop_last(), ft) + " "@ + datum_text(items.last(), ft));
    }
}

proof fn lemma_spaced_fields_back(members: Seq<(String, GerbilSchemeValue)>, ft: spec_fn(u64) -> Seq<char>)
    requires
        members.len() > 0,
    ensures
        spaced_fields(members, ft) == spaced_fields(members.drop_last(), ft) + " "@ + field_text(
            members.last().0@,
            datum_text(members.last().1, ft),
        ),
    decreases members.len(),
{
    let f0 = field_text(members[0].0@, datum_text(members[0].1, ft));
    let fl = field_text(members.last().0@, datum_text(members.last().1, ft));
    if members.len() == 1 {
        assert(members.drop_first().len() == 0);
        assert(members.drop_last().len() == 0);
        assert(spaced_fields(members.drop_first(), ft) == Seq::<char>::empty());
        assert(spaced_fields(members.drop_last(), ft) == Seq::<char>::empty());
        assert(members.last() == members[0]);
        assert(" "@ + f0 + Seq::<char>::empty() =~= Seq::<char>::empty() + " "@ + f0);
    } else {
        lemma_spaced_fields_back(members.drop_first(), ft);
        assert(members.drop_first().drop_last() =~= members.drop_last().drop_first());
        assert(members.drop_last()[0] == members[0]);
        assert(members.drop_first().last() == members.last());
        assert(spaced_fields(members.drop_last(), ft) == " "@ + f0 + spaced_fields(
            members.drop_last().drop_first(),
            ft,
        ));
        assert(" "@ + f0 + (spaced_fields(members.drop_last().drop_first(), ft) + " "@ + fl) =~= " "@
            + f0 + spaced_fields(members.drop_last().drop_first(), ft) + " "@ + fl);
    }
}

proof fn lemma_joined_fields_spaced(members: Seq<(String, GerbilSchemeValue)>, ft: spec_fn(u64) -> Seq<char>)
    requires
        members.len() > 0,
    ensures
        " "@ + joined_fields(members, ft) == spaced_fields(members, ft),
    decreases members.len(),
{
    lemma_spaced_fields_back(members, ft);
    let fl = field_text(members.last().0@, datum_text(members.last().1, ft));
    if members.len() == 1 {
        assert(members.drop_last().len() == 0);
        assert(spaced_fields(members.drop_last(), ft) == Seq::<char>::empty());
        assert(members.last() == members[0]);
        assert(Seq::<char>::empty() + " "@ + fl =~= " "@ + fl);
    } else {
        lemma_joined_fields_spaced(members.drop_last(), ft);
        assert(" "@ + (joined_fields(members.drop_last(), ft) + " "@ + fl) =~= " "@ + joined_fields(
            members.drop_last(),
            ft,
        ) + " "@ + fl);
    }
}

/// An entry of a record list that reads as the member `member`.
pub open spec fn entry_reads_as(member: (String, GerbilSchemeValue), entry: SchemeDatum) -> bool {
    entry matches SchemeDatum::Vector(parts) && parts.len() == 2 && parts[0] == SchemeDatum::Text(
        member.0@,
    ) && reads_as(member.1, parts[1])
}

/// The fields of entries that are all key-value pairs are those pairs.
proof fn lemma_record_fields_pairs(
    members: Seq<(String, GerbilSchemeValue)>,
    entries: Seq<SchemeDatum>,
)
    requires
        members.len() == entries.len(),
        forall|j: int| 0 <= j < entries.len() ==> entry_reads_as(#[trigger] members[j], entries[j]),
    ensures
        record_fields(entries) matches Ok(given) && given.len() == entries.len() && forall|j: int|
            0 <= j < given.len() ==> (#[trigger] given[j]).0 == members[j].0@ && reads_as(
                members[j].1,
                given[j].1,
            ),
    decreases entries.len(),
{
    if entries.len() > 0 {
        let n = entries.len() - 1;
        assert forall|j: int| 0 <= j < entries.drop_last().len() implies entry_reads_as(
            #[trigger] members.drop_last()[j],
            entries.drop_last()[j],
        ) by {
            assert(members.drop_last()[j] == members[j]);
            assert(entries.drop_last()[j] == entries[j]);
        }
        lemma_record_fields_pairs(members.drop_last(), entries.drop_last());
        assert(entry_reads_as(members[n], entries[n]));
        let given = record_fields(entries.drop_last())->Ok_0;
        let parts = entries.last()->Vector_0;
        assert(entry_field(entries.last()) == Ok::<(Seq<char>, SchemeDatum), Seq<char>>(
            (members[n].0@, parts[1]),
        ));
        let all = given.push((members[n].0@, parts[1]));
        assert forall|j: int| 0 <= j < all.len() implies (#[trigger] all[j]).0 == members[j].0@
            && reads_as(members[j].1, all[j].1) by {
            if j < n {
                assert(all[j] == given[j]);
                assert(members.drop_last()[j] == members[j]);
            }
        }
    }
}

/// Among fields with distinct keys, a key's last given value is its only one.
proof fn lemma_datum_last_given_distinct(fields: Seq<(Seq<char>, SchemeDatum)>, j: int)
    requires
        0 <= j < fields.len(),
        forall|a: int, b: int| 0 <= a < b < fields.len() ==> #[trigger] fields[a].0 != #[trigger] fields[b].0,
    ensures
        datum_last_given(fields, fields[j].0) == Some(fields[j].1),
    decreases fields.len(),
{
    if j < fields.len() - 1 {
        assert(fields.last().0 != fields[j].0);
        let rest = fields.drop_last();
        assert forall|a: int, b: int| 0 <= a < b < rest.len() implies #[trigger] rest[a].0
            != #[trigger] rest[b].0 by {
            assert(rest[a] == fields[a] && rest[b] == fields[b]);
        }
        assert(rest[j] == fields[j]);
        lemma_datum_last_given_distinct(rest, j);
    }
}

/// A key with a last given value is the key of some field.
proof fn lemma_datum_last_given_found(fields: Seq<(Seq<char>, SchemeDatum)>, key: Seq<char>)
    requires
        datum_last_given(fields, key) is Some,
    ensures
        exists|j: int| 0 <= j < fields.len() && #[trigger] fields[j].0 == key,
    decreases fields.len(),
{
    if fields.last().0 != key {
        lemma_datum_last_given_found(fields.drop_last(), key);
        let j = choose|j: int| 0 <= j < fields.drop_last().len() && #[trigger] fields.drop_last()[j].0 == key;
        assert(fields[j] == fields.drop_last()[j]);
    } else {
        assert(fields[fields.len() - 1].0 == key);
    }
}

/// The record of members with sorted keys reads as the fields that read as
/// those members, in order.
proof fn lemma_sorted_record_reads(
    members: Vec<(String, GerbilSchemeValue)>,
    given: Seq<(Seq<char>, SchemeDatum)>,
)
    requires
        keys_sorted(member_keys(members@)),
        given.len() == members@.len(),
        forall|j: int| 0 <= j < given.len() ==> (#[trigger] given[j]).0 == members@[j].0@ && reads_as(
            members@[j].1,
            given[j].1,
        ),
    ensures
        reads_as(GerbilSchemeValue::Record(members), SchemeDatum::Record(given)),
{
    let ms = members@;
    let keys = member_keys(ms);
    assert forall|a: int, b: int| 0 <= a < b < given.len() implies #[trigger] given[a].0
        != #[trigger] given[b].0 by {
        assert(keys[a] == given[a].0 && keys[b] == given[b].0);
        if given[a].0 == given[b].0 {
            lemma_text_less_irreflexive(keys[a]);
        }
    }
    assert forall|i: int| 0 <= i < ms.len() implies match datum_last_given(
        given,
        (#[trigger] ms[i]).0@,
    ) {
        Some(d) => reads_as(ms[i].1, d),
        None => false,
    } by {
        lemma_datum_last_given_distinct(given, i);
    }
    assert forall|key: Seq<char>| #[trigger] datum_last_given(given, key) is Some implies record_lookup(
        ms,
        key,
    ) is Some by {
        lemma_datum_last_given_found(given, key);
        let j = choose|j: int| 0 <= j < given.len() && #[trigger] given[j].0 == key;
        lemma_sorted_lookup(ms, j);
    }
}

/// Where `s` holds `t` from `i`, it holds each part of `t` at its place.
proof fn lemma_holds_at(s: Seq<char>, i: int, t: Seq<char>)
    requires
        0 <= i,
        s.len() >= i + t.len() as int,
        s.subrange(i, i + t.len() as int) == t,
    ensures
        forall|k: int| 0 <= k < t.len() as int ==> s[i + k] == #[trigger] t[k],
        forall|a: int, b: int|
            0 <= a <= b <= t.len() as int ==> #[trigger] s.subrange(i + a, i + b) == t.subrange(a, b),
{
    assert forall|k: int| 0 <= k < t.len() as int implies s[i + k] == #[trigger] t[k] by {
        assert(s.subrange(i, i + t.len() as int)[k] == s[i + k]);
    }
    assert forall|a: int, b: int| 0 <= a <= b <= t.len() as int implies #[trigger] s.subrange(i + a, i + b)
        == t.subrange(a, b) by {
        assert(s.subrange(i + a, i + b) =~= t.subrange(a, b));
    }
}

/// Where `s` holds the datum text of `v` from `i`, followed by a delimiter or
/// the end, reading a datum from `i` gives `v` back.
proof fn lemma_read_written(
    s: Seq<char>,
    i: int,
    v: GerbilSchemeValue,
    ft: spec_fn(u64) -> Seq<char>,
    fl: spec_fn(Seq<char>) -> Option<u64>,
)
    requires
        0 <= i,
        s.len() >= i + datum_text(v, ft).len() as int,
        s.subrange(i, i + datum_text(v, ft).len() as int) == datum_text(v, ft),
        i + datum_text(v, ft).len() as int == s.len() as int || is_delimiter(s[i + datum_text(v, ft).len() as int]),
        reads_back(v, ft, fl),
        fl("vector"@) is None,
        fl("record"@) is None,
    ensures
        read_value(s, i, fl) matches Ok((d, k)) && k == i + datum_text(v, ft).len() as int && reads_as(v, d),
    decreases v, 2int,
{
    match v {
        GerbilSchemeValue::Vector(_) => lemma_read_written_vector(s, i, v, ft, fl),
        GerbilSchemeValue::Record(_) => lemma_read_written_record(s, i, v, ft, fl),
        _ => lemma_read_written_scalar(s, i, v, ft, fl),
    }
}

/// Reading back a written scalar or text.
proof fn lemma_read_written_scalar(
    s: Seq<char>,
    i: int,
    v: GerbilSchemeValue,
    ft: spec_fn(u64) -> Seq<char>,
    fl: spec_fn(Seq<char>) -> Option<u64>,
)
    requires
        0 <= i,
        s.len() >= i + datum_text(v, ft).len() as int,
        s.subrange(i, i + datum_text(v, ft).len() as int) == datum_text(v, ft),
        i + datum_text(v, ft).len() as int == s.len() as int || is_delimiter(s[i + datum_text(v, ft).len() as int]),
        reads_back(v, ft, fl),
        !(v is Vector),
        !(v is Record),
        fl("vector"@) is None,
        fl("record"@) is None,
    ensures
        read_value(s, i, fl) matches Ok((d, k)) && k == i + datum_text(v, ft).len() as int && reads_as(v, d),
    decreases v, 0int,
{
    let t = datum_text(v, ft);
    let e = i + t.len() as int;
    lemma_first_char(v, ft, fl);
    lemma_holds_at(s, i, t);
    assert(s[i] == t[0]);
    assert(skip_space(s, i) == i);
    reveal_strlit("null");
    reveal_strlit("#t");
    reveal_strlit("#f");
    reveal_strlit("(vector ");
    reveal_strlit("(record ");
    reveal_strlit("vector");
    reveal_strlit("record");
    reveal_strlit(")");
    match v {
        GerbilSchemeValue::Null => {
            assert(t == "null"@);
            assert forall|k: int| i <= k < e implies !is_delimiter(#[trigger] s[k]) by {
                assert(s[i + (k - i)] == t[k - i]);
                assert(t[k - i] == 'n' || t[k - i] == 'u' || t[k - i] == 'l');
            }
            lemma_atom_end_exact(s, i, e);
            assert(s.subrange(i, e) == t.subrange(0, t.len() as int));
            assert(t.subrange(0, t.len() as int) =~= t);
        },
        GerbilSchemeValue::Boolean(b) => {
            assert(s[i + 1] == t[1]);
        },
        GerbilSchemeValue::Integer(n) => {
            lemma_parse_decimal(n);
            if n < 0 {
                lemma_decimal_digits((-(n as int)) as nat);
                assert forall|k: int| 0 <= k < t.len() as int implies !is_delimiter(#[trigger] t[k]) by {
                    if k > 0 {
                        assert(t[k] == decimal_text((-(n as int)) as nat)[k - 1]);
                    }
                }
            } else {
                lemma_decimal_digits(n as nat);
            }
            assert forall|k: int| i <= k < e implies !is_delimiter(#[trigger] s[k]) by {
                assert(s[i + (k - i)] == t[k - i]);
            }
            lemma_atom_end_exact(s, i, e);
            assert(s.subrange(i, e) == t.subrange(0, t.len() as int));
            assert(t.subrange(0, t.len() as int) =~= t);
        },
        GerbilSchemeValue::Float(bits) => {
            assert forall|k: int| i <= k < e implies !is_delimiter(#[trigger] s[k]) by {
                assert(s[i + (k - i)] == t[k - i]);
            }
            lemma_atom_end_exact(s, i, e);
            assert(s.subrange(i, e) == t.subrange(0, t.len() as int));
            assert(t.subrange(0, t.len() as int) =~= t);
        },
        GerbilSchemeValue::Text(x) => {
            let esc = escaped_text(x@);
            assert(t.subrange(1, 1 + esc.len() as int) =~= esc);
            assert(s.subrange(i + 1, i + 1 + esc.len() as int) == t.subrange(1, 1 + esc.len() as int));
            assert(s[i + 1 + esc.len() as int] == t[1 + esc.len() as int]);
            lemma_read_escaped(s, i + 1, x@);
        },
        _ => {},
    }
}

/// Reading back a written vector.
proof fn lemma_read_written_vector(
    s: Seq<char>,
    i: int,
    v: GerbilSchemeValue,
    ft: spec_fn(u64) -> Seq<char>,
    fl: spec_fn(Seq<char>) -> Option<u64>,
)
    requires
        0 <= i,
        s.len() >= i + datum_text(v, ft).len() as int,
        s.subrange(i, i + datum_text(v, ft).len() as int) == datum_text(v, ft),
        i + datum_text(v, ft).len() as int == s.len() as int || is_delimiter(s[i + datum_text(v, ft).len() as int]),
        reads_back(v, ft, fl),
        v is Vector,
        fl("vector"@) is None,
        fl("record"@) is None,
    ensures
        read_value(s, i, fl) matches Ok((d, k)) && k == i + datum_text(v, ft).len() as int && reads_as(v, d),
    decreases v, 1int,
{
    let t = datum_text(v, ft);
    let e = i + t.len() as int;
    lemma_first_char(v, ft, fl);
    lemma_holds_at(s, i, t);
    assert(s[i] == t[0]);
    assert(skip_space(s, i) == i);
    reveal_strlit("null");
    reveal_strlit("#t");
    reveal_strlit("#f");
    reveal_strlit("(vector ");
    reveal_strlit("(record ");
    reveal_strlit("vector");
    reveal_strlit("record");
    reveal_strlit(")");
    let items = v->Vector_0;
    assert(decreases_to!(v => v->Vector_0));
    assert(decreases_to!(v->Vector_0 => items@));
    let joined = joined_datums(items@, ft);
    assert(t == "(vector "@ + joined + ")"@);
    assert(s.subrange(i + 1, i + 7) == t.subrange(1, 7));
    assert(t.subrange(1, 7) =~= "vector"@);
    assert forall|k: int| i + 1 <= k < i + 7 implies !is_delimiter(#[trigger] s[k]) by {
        assert(s[i + (k - i)] == t[k - i]);
    }
    assert(s[i + 7] == t[7]);
    lemma_atom_end_exact(s, i + 1, i + 7);
    lemma_word_is_no_integer("vector"@);
    assert(skip_space(s, i + 1) == i + 1);
    assert(read_value(s, i + 1, fl) == Ok::<(SchemeDatum, int), Seq<char>>(
        (SchemeDatum::Text("vector"@), i + 7),
    ));
    let ds: Seq<SchemeDatum>;
    if items@.len() as int == 0 {
        assert(s[i + 8] == t[8]);
        assert(skip_space(s, i + 8) == i + 8);
        assert(skip_space(s, i + 7) == i + 8);
        ds = Seq::empty();
        assert(read_items(s, i + 7, fl) == Ok::<(Seq<SchemeDatum>, int), Seq<char>>(
            (ds, e),
        ));
    } else {
        let sp = spaced_datums(items@, ft);
        lemma_joined_datums_spaced(items@, ft);
        assert(t =~= "(vector"@ + sp + ")"@) by {
            reveal_strlit("(vector");
            reveal_strlit(" ");
        }
        reveal_strlit("(vector");
        assert(t.subrange(7, 7 + sp.len() as int) =~= sp);
        assert(s.subrange(i + 7, i + 7 + sp.len() as int) == t.subrange(7, 7 + sp.len() as int));
        assert(s[i + 7 + sp.len() as int] == t[7 + sp.len() as int]);
        assert forall|j: int| 0 <= j < items@.len() as int implies reads_back(
            #[trigger] items@[j],
            ft,
            fl,
        ) by {}
        lemma_read_spaced(s, i + 7, items@, ft, fl);
        ds = read_items(s, i + 7, fl)->Ok_0.0;
    }
    assert(read_items(s, i + 1, fl) == Ok::<(Seq<SchemeDatum>, int), Seq<char>>(
        (seq![SchemeDatum::Text("vector"@)] + ds, e),
    ));
    assert((seq![SchemeDatum::Text("vector"@)] + ds).drop_first() =~= ds);
    assert("vector"@ != "record"@) by {
        assert("vector"@[0] != "record"@[0]);
    }
}

/// Reading back a written record.
proof fn lemma_read_written_record(
    s: Seq<char>,
    i: int,
    v: GerbilSchemeValue,
    ft: spec_fn(u64) -> Seq<char>,
    fl: spec_fn(Seq<char>) -> Option<u64>,
)
    requires
        0 <= i,
        s.len() >= i + datum_text(v, ft).len() as int,
        s.subrange(i, i + datum_text(v, ft).len() as int) == datum_text(v, ft),
        i + datum_text(v, ft).len() as int == s.len() as int || is_delimiter(s[i + datum_text(v, ft).len() as int]),
        reads_back(v, ft, fl),
        v is Record,
        fl("vector"@) is None,
        fl("record"@) is None,
    ensures
        read_value(s, i, fl) matches Ok((d, k)) && k == i + datum_text(v, ft).len() as int && reads_as(v, d),
    decreases v, 1int,
{
    let t = datum_text(v, ft);
    let e = i + t.len() as int;
    lemma_first_char(v, ft, fl);
    lemma_holds_at(s, i, t);
    assert(s[i] == t[0]);
    assert(skip_space(s, i) == i);
    reveal_strlit("null");
    reveal_strlit("#t");
    reveal_strlit("#f");
    reveal_strlit("(vector ");
    reveal_strlit("(record ");
    reveal_strlit("vector");
    reveal_strlit("record");
    reveal_strlit(")");
    let members = v->Record_0;
    assert(decreases_to!(v => v->Record_0));
    assert(decreases_to!(v->Record_0 => members@));
    let joined = joined_fields(members@, ft);
    assert(t == "(record "@ + joined + ")"@);
    assert(s.subrange(i + 1, i + 7) == t.subrange(1, 7));
    assert(t.subrange(1, 7) =~= "record"@);
    assert forall|k: int| i + 1 <= k < i + 7 implies !is_delimiter(#[trigger] s[k]) by {
        assert(s[i + (k - i)] == t[k - i]);
    }
    assert(s[i + 7] == t[7]);
    lemma_atom_end_exact(s, i + 1, i + 7);
    lemma_word_is_no_integer("record"@);
    assert(skip_space(s, i + 1) == i + 1);
    assert(read_value(s, i + 1, fl) == Ok::<(SchemeDatum, int), Seq<char>>(
        (SchemeDatum::Text("record"@), i + 7),
    ));
    let es: Seq<SchemeDatum>;
    if members@.len() as int == 0 {
        assert(s[i + 8] == t[8]);
        assert(skip_space(s, i + 8) == i + 8);
        assert(skip_space(s, i + 7) == i + 8);
        es = Seq::empty();
        assert(read_items(s, i + 7, fl) == Ok::<(Seq<SchemeDatum>, int), Seq<char>>(
            (es, e),
        ));
    } else {
        let sp = spaced_fields(members@, ft);
        lemma_joined_fields_spaced(members@, ft);
        assert(t =~= "(record"@ + sp + ")"@) by {
            reveal_strlit("(record");
            reveal_strlit(" ");
        }
        reveal_strlit("(record");
        assert(t.subrange(7, 7 + sp.len() as int) =~= sp);
        assert(s.subrange(i + 7, i + 7 + sp.len() as int) == t.subrange(7, 7 + sp.len() as int));
        assert(s[i + 7 + sp.len() as int] == t[7 + sp.len() as int]);
        lemma_read_spaced_fields(s, i + 7, members@, ft, fl);
        es = read_items(s, i + 7, fl)->Ok_0.0;
    }
    assert(read_items(s, i + 1, fl) == Ok::<(Seq<SchemeDatum>, int), Seq<char>>(
        (seq![SchemeDatum::Text("record"@)] + es, e),
    ));
    assert((seq![SchemeDatum::Text("record"@)] + es).drop_first() =~= es);
    lemma_record_fields_pairs(members@, es);
    let given = record_fields(es)->Ok_0;
    lemma_sorted_record_reads(members, given);
}

/// Where `s` holds the spaced datum texts of `items` from `p`, then `)`,
/// reading list items from `p` gives them back.
proof fn lemma_read_spaced(
    s: Seq<char>,
    p: int,
    items: Seq<GerbilSchemeValue>,
    ft: spec_fn(u64) -> Seq<char>,
    fl: spec_fn(Seq<char>) -> Option<u64>,
)
    requires
        0 <= p,
        s.len() > p + spaced_datums(items, ft).len() as int,
        s.subrange(p, p + spaced_datums(items, ft).len() as int) == spaced_datums(items, ft),
        s[p + spaced_datums(items, ft).len() as int] == ')',
        forall|j: int| 0 <= j < items.len() as int ==> reads_back(#[trigger] items[j], ft, fl),
        fl("vector"@) is None,
        fl("record"@) is None,
    ensures
        read_items(s, p, fl) matches Ok((ds, k)) && k == p + spaced_datums(items, ft).len() as int + 1
            && all_read_as(items, ds),
    decreases items, 0int,
{
    let sp = spaced_datums(items, ft);
    if items.len() as int == 0 {
        assert(skip_space(s, p) == p);
        assert(all_read_as(items, Seq::<SchemeDatum>::empty()));
    } else {
        let first = items[0];
        let rest = items.drop_first();
        let ft0 = datum_text(first, ft);
        let sp_rest = spaced_datums(rest, ft);
        reveal_strlit(" ");
        assert(sp == " "@ + ft0 + sp_rest);
        lemma_holds_at(s, p, sp);
        lemma_first_char(first, ft, fl);
        assert(s[p] == sp[0]);
        assert(s[p + 1] == sp[1]);
        assert(sp[1] == ft0[0]);
        assert(skip_space(s, p + 1) == p + 1);
        assert(skip_space(s, p) == p + 1);
        assert(s.subrange(p + 1, p + 1 + ft0.len() as int) == sp.subrange(1, 1 + ft0.len() as int));
        assert(sp.subrange(1, 1 + ft0.len() as int) =~= ft0);
        let k0 = p + 1 + ft0.len() as int;
        if rest.len() as int > 0 {
            assert(sp_rest[0] == ' ');
            assert(s[k0] == sp[1 + ft0.len() as int]);
        }
        lemma_read_written(s, p + 1, first, ft, fl);
        let d0 = read_value(s, p + 1, fl)->Ok_0.0;
        assert(s.subrange(k0, k0 + sp_rest.len() as int) == sp.subrange(1 + ft0.len() as int, sp.len() as int));
        assert(sp.subrange(1 + ft0.len() as int, sp.len() as int) =~= sp_rest);
        assert forall|j: int| 0 <= j < rest.len() as int implies reads_back(#[trigger] rest[j], ft, fl) by {
            assert(rest[j] == items[j + 1]);
        }
        lemma_read_spaced(s, k0, rest, ft, fl);
        let ds_rest = read_items(s, k0, fl)->Ok_0.0;
        let ds = seq![d0] + ds_rest;
        assert forall|j: int| 0 <= j < items.len() as int implies reads_as(#[trigger] items[j], ds[j]) by {
            if j > 0 {
                assert(items[j] == rest[j - 1]);
                assert(ds[j] == ds_rest[j - 1]);
            }
        }
    }
}

/// Where `s` holds the text of the field `member` from `q`, reading a datum
/// from `q` gives the key-value pair back.
proof fn lemma_read_field(
    s: Seq<char>,
    q: int,
    member: (String, GerbilSchemeValue),
    ft: spec_fn(u64) -> Seq<char>,
    fl: spec_fn(Seq<char>) -> Option<u64>,
)
    requires
        0 <= q,
        s.len() >= q + field_text(member.0@, datum_text(member.1, ft)).len() as int,
        s.subrange(q, q + field_text(member.0@, datum_text(member.1, ft)).len() as int) == field_text(
            member.0@,
            datum_text(member.1, ft),
        ),
        member.0@ != "record"@,
        member.0@ != "vector"@,
        reads_back(member.1, ft, fl),
        fl("vector"@) is None,
        fl("record"@) is None,
    ensures
        read_value(s, q, fl) matches Ok((d, k)) && k == q + field_text(
            member.0@,
            datum_text(member.1, ft),
        ).len() as int && entry_reads_as(member, d),
    decreases member.1, 3int,
{
    let key = member.0@;
    let vt = datum_text(member.1, ft);
    let esc = escaped_text(key);
    let f = field_text(key, vt);
    reveal_strlit("(");
    reveal_strlit(" ");
    reveal_strlit(")");
    assert(f =~= seq!['('] + (seq!['"'] + esc + seq!['"']) + seq![' '] + vt + seq![')']);
    lemma_holds_at(s, q, f);
    lemma_first_char(member.1, ft, fl);
    assert(s[q] == f[0]);
    assert(skip_space(s, q) == q);
    assert(s[q + 1] == f[1]);
    assert(skip_space(s, q + 1) == q + 1);
    assert(s.subrange(q + 2, q + 2 + esc.len() as int) == f.subrange(2, 2 + esc.len() as int));
    assert(f.subrange(2, 2 + esc.len() as int) =~= esc);
    assert(s[q + 2 + esc.len() as int] == f[2 + esc.len() as int]);
    lemma_read_escaped(s, q + 2, key);
    let k1 = q + 3 + esc.len() as int;
    assert(read_value(s, q + 1, fl) == Ok::<(SchemeDatum, int), Seq<char>>(
        (SchemeDatum::Text(key), k1),
    ));
    assert(s[k1] == f[3 + esc.len() as int]);
    assert(s[k1 + 1] == f[4 + esc.len() as int]);
    assert(f[4 + esc.len() as int] == vt[0]);
    assert(skip_space(s, k1 + 1) == k1 + 1);
    assert(skip_space(s, k1) == k1 + 1);
    assert(s.subrange(k1 + 1, k1 + 1 + vt.len() as int) == f.subrange(4 + esc.len() as int, 4 + esc.len() as int + vt.len() as int));
    assert(f.subrange(4 + esc.len() as int, 4 + esc.len() as int + vt.len() as int) =~= vt);
    let k2 = k1 + 1 + vt.len() as int;
    assert(s[k2] == f[4 + esc.len() as int + vt.len() as int]);
    lemma_read_written(s, k1 + 1, member.1, ft, fl);
    let dv = read_value(s, k1 + 1, fl)->Ok_0.0;
    assert(skip_space(s, k2) == k2);
    assert(read_items(s, k2, fl) == Ok::<(Seq<SchemeDatum>, int), Seq<char>>((Seq::empty(), k2 + 1)));
    assert(read_items(s, k1, fl) == Ok::<(Seq<SchemeDatum>, int), Seq<char>>(
        (seq![dv] + Seq::empty(), k2 + 1),
    ));
    let parts = seq![SchemeDatum::Text(key)] + (seq![dv] + Seq::<SchemeDatum>::empty());
    assert(read_items(s, q + 1, fl) == Ok::<(Seq<SchemeDatum>, int), Seq<char>>((parts, k2 + 1)));
    assert(parts[0] == SchemeDatum::Text(key));
    assert(parts[0] != SchemeDatum::Text("record"@));
    assert(parts[0] != SchemeDatum::Text("vector"@));
    assert(parts.len() as int == 2);
    assert(parts[1] == dv);
}

/// Where `s` holds the spaced field texts of `members` from `p`, then `)`,
/// reading list items from `p` gives their key-value pairs back.
proof fn lemma_read_spaced_fields(
    s: Seq<char>,
    p: int,
    members: Seq<(String, GerbilSchemeValue)>,
    ft: spec_fn(u64) -> Seq<char>,
    fl: spec_fn(Seq<char>) -> Option<u64>,
)
    requires
        0 <= p,
        s.len() > p + spaced_fields(members, ft).len() as int,
        s.subrange(p, p + spaced_fields(members, ft).len() as int) == spaced_fields(members, ft),
        s[p + spaced_fields(members, ft).len() as int] == ')',
        forall|j: int|
            0 <= j < members.len() as int ==> (#[trigger] members[j]).0@ != "record"@ && members[j].0@
                != "vector"@ && reads_back(members[j].1, ft, fl),
        fl("vector"@) is None,
        fl("record"@) is None,
    ensures
        read_items(s, p, fl) matches Ok((es, k)) && k == p + spaced_fields(members, ft).len() as int + 1
            && es.len() as int == members.len() as int && forall|j: int|
            0 <= j < es.len() as int ==> entry_reads_as(#[trigger] members[j], es[j]),
    decreases members, 0int,
{
    let sp = spaced_fields(members, ft);
    if members.len() as int == 0 {
        assert(skip_space(s, p) == p);
    } else {
        let first = members[0];
        let rest = members.drop_first();
        let f0 = field_text(first.0@, datum_text(first.1, ft));
        let sp_rest = spaced_fields(rest, ft);
        reveal_strlit(" ");
        reveal_strlit("(");
        assert(sp == " "@ + f0 + sp_rest);
        lemma_holds_at(s, p, sp);
        assert(f0[0] == '(');
        assert(s[p] == sp[0]);
        assert(s[p + 1] == sp[1]);
        assert(sp[1] == f0[0]);
        assert(skip_space(s, p + 1) == p + 1);
        assert(skip_space(s, p) == p + 1);
        assert(s.subrange(p + 1, p + 1 + f0.len() as int) == sp.subrange(1, 1 + f0.len() as int));
        assert(sp.subrange(1, 1 + f0.len() as int) =~= f0);
        let k0 = p + 1 + f0.len() as int;
        assert(decreases_to!(members => members[0]));
        assert(decreases_to!(members[0] => members[0].1));
        lemma_read_field(s, p + 1, first, ft, fl);
        let d0 = read_value(s, p + 1, fl)->Ok_0.0;
        assert(s.subrange(k0, k0 + sp_rest.len() as int) == sp.subrange(1 + f0.len() as int, sp.len() as int));
        assert(sp.subrange(1 + f0.len() as int, sp.len() as int) =~= sp_rest);
        assert forall|j: int| 0 <= j < rest.len() as int implies (#[trigger] rest[j]).0@ != "record"@
            && rest[j].0@ != "vector"@ && reads_back(rest[j].1, ft, fl) by {
            assert(rest[j] == members[j + 1]);
        }
        lemma_read_spaced_fields(s, k0, rest, ft, fl);
        let es_rest = read_items(s, k0, fl)->Ok_0.0;
        let es = seq![d0] + es_rest;
        assert forall|j: int| 0 <= j < es.len() as int implies entry_reads_as(#[trigger] members[j], es[j]) by {
            if j > 0 {
                assert(members[j] == rest[j - 1]);
                assert(es[j] == es_rest[j - 1]);
            }
        }
    }
}

/// Law: a value written as a datum reads back as that value, where each
/// float is written as an atom that reads back as it, record keys are sorted
/// and none is `record` or `vector`, and neither of those two words reads
/// as a float.
pub proof fn law_datum_reads_back(
    value: GerbilSchemeValue,
    ft: spec_fn(u64) -> Seq<char>,
    fl: spec_fn(Seq<char>) -> Option<u64>,
)
    requires
        reads_back(value, ft, fl),
        fl("vector"@) is None,
        fl("record"@) is None,
    ensures
        read_datum(datum_text(value, ft), fl) matches Ok(d) && reads_as(value, d),
{
    let t = datum_text(value, ft);
    assert(t.subrange(0, t.len() as int) =~= t);
    lemma_read_written(t, 0, value, ft, fl);
}

/// Two strictly sorted key lists with the same keys are the same list.
proof fn lemma_sorted_same_keys(a: Seq<Seq<char>>, b: Seq<Seq<char>>)
    requires
        keys_sorted(a),
        keys_sorted(b),
        forall|x: Seq<char>| a.contains(x) == b.contains(x),
    ensures
        a == b,
    decreases a.len(),
{
    if a.len() == 0 {
        if b.len() > 0 {
            assert(b.contains(b[0]));
        }
        assert(a =~= b);
    } else {
        assert(a.contains(a[0]));
        let j = choose|j: int| 0 <= j < b.len() && b[j] == a[0];
        assert(b.contains(b[0]));
        let k = choose|k: int| 0 <= k < a.len() && a[k] == b[0];
        if j > 0 {
            assert(text_less_pair(b, 0, j));
            if k > 0 {
                assert(text_less_pair(a, 0, k));
                lemma_text_less_transitive(a[0], b[0], a[0]);
                lemma_text_less_irreflexive(a[0]);
            } else {
                lemma_text_less_irreflexive(a[0]);
            }
        }
        assert(b[0] == a[0]);
        let a1 = a.drop_first();
        let b1 = b.drop_first();
        assert forall|x: Seq<char>| a1.contains(x) == b1.contains(x) by {
            if a1.contains(x) {
                let p = choose|p: int| 0 <= p < a1.len() && a1[p] == x;
                assert(a[p + 1] == x);
                assert(text_less_pair(a, 0, p + 1));
                assert(a.contains(x));
                let q = choose|q: int| 0 <= q < b.len() && b[q] == x;
                if q == 0 {
                    lemma_text_less_irreflexive(x);
                }
                assert(b1[q - 1] == x);
            }
            if b1.contains(x) {
                let p = choose|p: int| 0 <= p < b1.len() && b1[p] == x;
                assert(b[p + 1] == x);
                assert(text_less_pair(b, 0, p + 1));
                assert(b.contains(x));
                let q = choose|q: int| 0 <= q < a.len() && a[q] == x;
                if q == 0 {
                    lemma_text_less_irreflexive(x);
                }
                assert(a1[q - 1] == x);
            }
        }
        assert(keys_sorted(a1)) by {
            assert forall|i: int, i2: int| 0 <= i < i2 < a1.len() implies text_less(
                #[trigger] a1[i],
                #[trigger] a1[i2],
            ) by {
                assert(text_less_pair(a, i + 1, i2 + 1));
            }
        }
        assert(keys_sorted(b1)) by {
            assert forall|i: int, i2: int| 0 <= i < i2 < b1.len() implies text_less(
                #[trigger] b1[i],
                #[trigger] b1[i2],
            ) by {
                assert(text_less_pair(b, i + 1, i2 + 1));
            }
        }
        lemma_sorted_same_keys(a1, b1);
        assert(a =~= seq![a[0]] + a1);
        assert(b =~= seq![b[0]] + b1);
    }
}

/// The keys at `i` and `j` of a sorted key list are in order.
spec fn text_less_pair(keys: Seq<Seq<char>>, i: int, j: int) -> bool {
    text_less(keys[i], keys[j])
}

/// Two values that read as the same datum hold the same data.
proof fn lemma_reads_as_unique(v1: GerbilSchemeValue, v2: GerbilSchemeValue, d: SchemeDatum)
    requires
        reads_as(v1, d),
        reads_as(v2, d),
    ensures
        same_value(v1, v2),
    decreases v1,
{
    match v1 {
        GerbilSchemeValue::Vector(items) => {
            let items2 = v2->Vector_0;
            let ds = d->Vector_0;
            assert forall|i: int| 0 <= i < items@.len() implies same_value(
                #[trigger] items@[i],
                items2@[i],
            ) by {
                assert(reads_as(items@[i], ds[i]));
                assert(reads_as(items2@[i], ds[i]));
                assert(decreases_to!(v1 => v1->Vector_0));
                assert(decreases_to!(v1->Vector_0 => items@));
                lemma_reads_as_unique(items@[i], items2@[i], ds[i]);
            }
        },
        GerbilSchemeValue::Record(m1) => {
            let m2 = v2->Record_0;
            let given = d->Record_0;
            let k1 = member_keys(m1@);
            let k2 = member_keys(m2@);
            assert forall|x: Seq<char>| k1.contains(x) == k2.contains(x) by {
                if k1.contains(x) {
                    let i = choose|i: int| 0 <= i < k1.len() && k1[i] == x;
                    assert(m1@[i].0@ == x);
                    assert(datum_last_given(given, x) is Some);
                    assert(record_lookup(m2@, x) is Some);
                    crate::text::lemma_first_position_found(k2, x);
                }
                if k2.contains(x) {
                    let i = choose|i: int| 0 <= i < k2.len() && k2[i] == x;
                    assert(m2@[i].0@ == x);
                    assert(datum_last_given(given, x) is Some);
                    assert(record_lookup(m1@, x) is Some);
                    crate::text::lemma_first_position_found(k1, x);
                }
            }
            lemma_sorted_same_keys(k1, k2);
            assert forall|i: int| 0 <= i < m1@.len() implies (#[trigger] m1@[i]).0@ == m2@[i].0@
                && same_value(m1@[i].1, m2@[i].1) by {
                assert(k1[i] == m1@[i].0@);
                assert(k2[i] == m2@[i].0@);
                let dv = datum_last_given(given, m1@[i].0@)->Some_0;
                assert(reads_as(m1@[i].1, dv));
                assert(reads_as(m2@[i].1, dv));
                assert(decreases_to!(v1 => v1->Record_0));
                assert(decreases_to!(v1->Record_0 => m1@));
                assert(decreases_to!(m1@ => m1@[i]));
                lemma_reads_as_unique(m1@[i].1, m2@[i].1, dv);
            }
        },
        _ => {},
    }
}

/// Law: parsing a value's datum text gives that value's data back, where the
/// value reads back (see [`law_datum_reads_back`]).
pub proof fn law_datum_parses_to_same_value(
    value: GerbilSchemeValue,
    parsed: GerbilSchemeValue,
    ft: spec_fn(u64) -> Seq<char>,
    fl: spec_fn(Seq<char>) -> Option<u64>,
)
    requires
        reads_back(value, ft, fl),
        fl("vector"@) is None,
        fl("record"@) is None,
        datum_result_matches(Ok(parsed), read_datum(datum_text(value, ft), fl)),
    ensures
        same_value(value, parsed),
{
    law_datum_reads_back(value, ft, fl);
    let d = read_datum(datum_text(value, ft), fl)->Ok_0;
    lemma_reads_as_unique(value, parsed, d);
}

} // verus!
