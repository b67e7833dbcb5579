//! Native Scheme data carried over the extension ABI.
//!
//! A float is held by its IEEE-754 bits, so that the value is kept exactly;
//! reading it as a number is the caller's part. A record's members are kept
//! sorted by key, one member per key, as the keys of an ordered map.

use vstd::prelude::*;

use crate::text::{chars_of, first_position, lemma_first_position, lemma_first_position_found};

verus! {

/// Native Scheme datum carried over the extension ABI.
#[derive(Debug, PartialEq, Eq)]
pub enum GerbilSchemeValue {
    Null,
    Boolean(bool),
    Integer(i64),
    Float(u64),
    Text(String),
    Vector(Vec<GerbilSchemeValue>),
    Record(Vec<(String, GerbilSchemeValue)>),
}

/// `a` and `b` hold the same data: the same scalars and texts, and elements
/// and members that hold the same data, in the same order.
pub open spec fn same_value(a: GerbilSchemeValue, b: GerbilSchemeValue) -> bool
    decreases a,
{
    match a {
        GerbilSchemeValue::Vector(x) => match b {
            GerbilSchemeValue::Vector(y) => x@.len() == y@.len() && forall|i: int|
                0 <= i < x@.len() ==> same_value(#[trigger] x@[i], y@[i]),
            _ => false,
        },
        GerbilSchemeValue::Record(x) => match b {
            GerbilSchemeValue::Record(y) => x@.len() == y@.len() && forall|i: int|
                0 <= i < x@.len() ==> (#[trigger] x@[i]).0@ == y@[i].0@ && same_value(
                    x@[i].1,
                    y@[i].1,
                ),
            _ => false,
        },
        GerbilSchemeValue::Text(x) => match b {
            GerbilSchemeValue::Text(y) => x@ == y@,
            _ => false,
        },
        _ => a == b,
    }
}

/// A copy of a Scheme value.
pub fn copy_value(value: &GerbilSchemeValue) -> (copy: GerbilSchemeValue)
    ensures
        same_value(*value, copy),
    decreases value,
{
    match value {
        GerbilSchemeValue::Null => GerbilSchemeValue::Null,
        GerbilSchemeValue::Boolean(b) => GerbilSchemeValue::Boolean(*b),
        GerbilSchemeValue::Integer(n) => GerbilSchemeValue::Integer(*n),
        GerbilSchemeValue::Float(bits) => GerbilSchemeValue::Float(*bits),
        GerbilSchemeValue::Text(t) => GerbilSchemeValue::Text(t.clone()),
        GerbilSchemeValue::Vector(items) => {
            let mut copies: Vec<GerbilSchemeValue> = Vec::new();
            let mut i: usize = 0;
            while i < items.len()
                invariant
                    i <= items.len(),
                    *value == GerbilSchemeValue::Vector(*items),
                    copies@.len() == i,
                    forall|j: int| 0 <= j < i ==> same_value(#[trigger] items@[j], copies@[j]),
                decreases items.len() - i,
            {
                proof {
                    assert(decreases_to!(*value => value->Vector_0));
                    assert(decreases_to!(value->Vector_0 => items@));
                    assert(decreases_to!(items@ => items@[i as int]));
                    assert(decreases_to!(*value => items@[i as int]));
                }
                let copy = copy_value(&items[i]);
                copies.push(copy);
                i += 1;
            }
            GerbilSchemeValue::Vector(copies)
        },
        GerbilSchemeValue::Record(members) => {
            let mut copies: Vec<(String, GerbilSchemeValue)> = Vec::new();
            let mut i: usize = 0;
            while i < members.len()
                invariant
                    i <= members.len(),
                    *value == GerbilSchemeValue::Record(*members),
                    copies@.len() == i,
                    forall|j: int|
                        0 <= j < i ==> (#[trigger] members@[j]).0@ == copies@[j].0@ && same_value(
                            members@[j].1,
                            copies@[j].1,
                        ),
                decreases members.len() - i,
            {
                proof {
                    assert(decreases_to!(*value => value->Record_0));
                    assert(decreases_to!(value->Record_0 => members@));
                    assert(decreases_to!(members@ => members@[i as int]));
                    assert(decreases_to!(members@[i as int] => members@[i as int].1));
                    assert(decreases_to!(*value => members@[i as int].1));
                }
                let key = members[i].0.clone();
                let copy = copy_value(&members[i].1);
                copies.push((key, copy));
                i += 1;
            }
            GerbilSchemeValue::Record(copies)
        },
    }
}

impl Clone for GerbilSchemeValue {
    fn clone(&self) -> (copy: Self)
        ensures
            same_value(*self, copy),
    {
        copy_value(self)
    }
}

/// `a` sorts before `b`: lexicographic order by code point, as `String` orders.
pub open spec fn text_less(a: Seq<char>, b: Seq<char>) -> bool
    decreases a.len(),
{
    if a.len() == 0 {
        b.len() > 0
    } else if b.len() == 0 {
        false
    } else if a[0] == b[0] {
        text_less(a.drop_first(), b.drop_first())
    } else {
        a[0] < b[0]
    }
}

/// Nothing sorts before itself.
pub proof fn lemma_text_less_irreflexive(a: Seq<char>)
    ensures
        !text_less(a, a),
    decreases a.len(),
{
    if a.len() > 0 {
        lemma_text_less_irreflexive(a.drop_first());
    }
}

/// The order is transitive.
pub proof fn lemma_text_less_transitive(a: Seq<char>, b: Seq<char>, c: Seq<char>)
    requires
        text_less(a, b),
        text_less(b, c),
    ensures
        text_less(a, c),
    decreases a.len(),
{
    if a.len() > 0 && b.len() > 0 && c.len() > 0 && a[0] == b[0] && b[0] == c[0] {
        lemma_text_less_transitive(a.drop_first(), b.drop_first(), c.drop_first());
    }
}

/// Two different texts are ordered one way or the other.
pub proof fn lemma_text_less_total(a: Seq<char>, b: Seq<char>)
    requires
        a != b,
    ensures
        text_less(a, b) || text_less(b, a),
    decreases a.len(),
{
    if a.len() > 0 && b.len() > 0 && a[0] == b[0] {
        if a.drop_first() == b.drop_first() {
            assert(a =~= seq![a[0]] + a.drop_first());
            assert(b =~= seq![b[0]] + b.drop_first());
        }
        lemma_text_less_total(a.drop_first(), b.drop_first());
    } else if a.len() == 0 && b.len() == 0 {
        assert(a =~= b);
    }
}

/// The keys of a record's members, in order.
pub open spec fn member_keys(members: Seq<(String, GerbilSchemeValue)>) -> Seq<Seq<char>> {
    members.map_values(|m: (String, GerbilSchemeValue)| m.0@)
}

/// Keys strictly increase.
pub open spec fn keys_sorted(keys: Seq<Seq<char>>) -> bool {
    forall|i: int, j: int| 0 <= i < j < keys.len() ==> text_less(#[trigger] keys[i], #[trigger] keys[j])
}

/// The value of the first member with `key`.
pub open spec fn record_lookup(members: Seq<(String, GerbilSchemeValue)>, key: Seq<char>) -> Option<
    GerbilSchemeValue,
> {
    match first_position(member_keys(members), key) {
        Some(i) => Some(members[i].1),
        None => None,
    }
}

/// The value last given for `key`.
pub open spec fn last_given(fields: Seq<(String, GerbilSchemeValue)>, key: Seq<char>) -> Option<
    GerbilSchemeValue,
>
    decreases fields.len(),
{
    if fields.len() == 0 {
        None
    } else if fields.last().0@ == key {
        Some(fields.last().1)
    } else {
        last_given(fields.drop_last(), key)
    }
}

/// `members` are the members of the record built from `fields`: sorted by key,
/// and each key has the value last given for it.
pub open spec fn is_record_of(
    members: Seq<(String, GerbilSchemeValue)>,
    fields: Seq<(String, GerbilSchemeValue)>,
) -> bool {
    &&& keys_sorted(member_keys(members))
    &&& forall|key: Seq<char>| #[trigger] record_lookup(members, key) == last_given(fields, key)
}

/// Where no key is given twice, the value last given for a key is the one
/// given for it, and a key not given has none.
pub proof fn lemma_last_given_distinct(fields: Seq<(String, GerbilSchemeValue)>, key: Seq<char>)
    requires
        forall|i: int, j: int|
            0 <= i < j < fields.len() ==> #[trigger] fields[i].0@ != #[trigger] fields[j].0@,
    ensures
        forall|i: int| 0 <= i < fields.len() && #[trigger] fields[i].0@ == key ==> last_given(fields, key)
            == Some(fields[i].1),
        (forall|i: int| 0 <= i < fields.len() ==> #[trigger] fields[i].0@ != key) ==> last_given(
            fields,
            key,
        ) is None,
    decreases fields.len(),
{
    if fields.len() > 0 {
        let rest = fields.drop_last();
        assert forall|i: int, j: int| 0 <= i < j < rest.len() implies #[trigger] rest[i].0@ != #[trigger] rest[j].0@ by {
            assert(rest[i] == fields[i] && rest[j] == fields[j]);
        }
        lemma_last_given_distinct(rest, key);
        assert forall|i: int| 0 <= i < rest.len() implies #[trigger] rest[i] == fields[i] by {}
        if fields.last().0@ != key {
            assert forall|i: int| 0 <= i < fields.len() && #[trigger] fields[i].0@ == key implies last_given(fields, key)
                == Some(fields[i].1) by {
                assert(i < rest.len());
                assert(rest[i] == fields[i]);
            }
            if forall|i: int| 0 <= i < fields.len() ==> #[trigger] fields[i].0@ != key {
                assert forall|i: int| 0 <= i < rest.len() implies #[trigger] rest[i].0@ != key by {
                    assert(rest[i] == fields[i]);
                }
            }
        }
    }
}

/// Whether `a` sorts before `b`.
fn text_before(a: &str, b: &str) -> (before: bool)
    ensures
        before == text_less(a@, b@),
{
    let x = chars_of(a);
    let y = chars_of(b);
    let mut i: usize = 0;
    assert(x@.skip(0) =~= x@);
    assert(y@.skip(0) =~= y@);
    while i < x.len() && i < y.len() && x[i] == y[i]
        invariant
            i <= x.len(),
            i <= y.len(),
            text_less(x@, y@) == text_less(x@.skip(i as int), y@.skip(i as int)),
        decreases x.len() - i,
    {
        assert(x@.skip(i as int).drop_first() =~= x@.skip(i + 1));
        assert(y@.skip(i as int).drop_first() =~= y@.skip(i + 1));
        i += 1;
    }
    if i == x.len() {
        i < y.len()
    } else if i == y.len() {
        false
    } else {
        x[i] < y[i]
    }
}

proof fn lemma_lookup_after_update(
    members: Seq<(String, GerbilSchemeValue)>,
    p: int,
    entry: (String, GerbilSchemeValue),
    key: Seq<char>,
)
    requires
        keys_sorted(member_keys(members)),
        0 <= p < members.len(),
        members[p].0@ == entry.0@,
    ensures
        keys_sorted(member_keys(members.update(p, entry))),
        record_lookup(members.update(p, entry), key) == if key == entry.0@ {
            Some(entry.1)
        } else {
            record_lookup(members, key)
        },
{
    let keys = member_keys(members);
    let after = members.update(p, entry);
    assert(member_keys(after) =~= keys);
    lemma_first_position_found(keys, key);
    if key == entry.0@ {
        assert forall|j: int| 0 <= j < p implies keys[j] != key by {
            assert(text_less(keys[j], keys[p]));
            lemma_text_less_irreflexive(keys[j]);
        }
        lemma_first_position(keys, key, p);
    }
}

proof fn lemma_lookup_after_insert(
    members: Seq<(String, GerbilSchemeValue)>,
    p: int,
    entry: (String, GerbilSchemeValue),
    key: Seq<char>,
)
    requires
        keys_sorted(member_keys(members)),
        0 <= p <= members.len(),
        forall|q: int| 0 <= q < p ==> text_less(#[trigger] member_keys(members)[q], entry.0@),
        forall|q: int| p <= q < members.len() ==> text_less(entry.0@, #[trigger] member_keys(members)[q]),
    ensures
        keys_sorted(member_keys(members.insert(p, entry))),
        record_lookup(members.insert(p, entry), key) == if key == entry.0@ {
            Some(entry.1)
        } else {
            record_lookup(members, key)
        },
{
    let keys = member_keys(members);
    let after = members.insert(p, entry);
    let new_keys = member_keys(after);
    assert(new_keys =~= keys.insert(p, entry.0@));
    assert forall|i: int, j: int| 0 <= i < j < new_keys.len() implies text_less(
        #[trigger] new_keys[i],
        #[trigger] new_keys[j],
    ) by {
        if j < p {
            assert(new_keys[i] == keys[i] && new_keys[j] == keys[j]);
        } else if j == p {
            assert(new_keys[i] == keys[i]);
        } else if i == p {
            assert(new_keys[j] == keys[j - 1]);
        } else if i < p {
            assert(new_keys[i] == keys[i] && new_keys[j] == keys[j - 1]);
            assert(text_less(keys[i], entry.0@));
            assert(text_less(entry.0@, keys[j - 1]));
            lemma_text_less_transitive(keys[i], entry.0@, keys[j - 1]);
        } else {
            assert(new_keys[i] == keys[i - 1] && new_keys[j] == keys[j - 1]);
        }
    }
    if key == entry.0@ {
        assert forall|j: int| 0 <= j < p implies new_keys[j] != key by {
            assert(new_keys[j] == keys[j]);
            lemma_text_less_irreflexive(keys[j]);
        }
        lemma_first_position(new_keys, key, p);
    } else {
        lemma_first_position_found(keys, key);
        match first_position(keys, key) {
            Some(q) => {
                let r = if q < p { q } else { q + 1 };
                assert forall|j: int| 0 <= j < r implies new_keys[j] != key by {
                    if j < p {
                        assert(new_keys[j] == keys[j]);
                    } else if j > p {
                        assert(new_keys[j] == keys[j - 1]);
                    }
                }
                assert(new_keys[r] == keys[q]);
                lemma_first_position(new_keys, key, r);
                assert(after[r] == members[q]);
            },
            None => {
                assert forall|j: int| 0 <= j < new_keys.len() implies new_keys[j] != key by {
                    if j < p {
                        assert(new_keys[j] == keys[j]);
                    } else if j > p {
                        assert(new_keys[j] == keys[j - 1]);
                    }
                }
                lemma_first_position(new_keys, key, new_keys.len() as int);
            },
        }
    }
}

/// Puts `entry` into sorted members: replacing the member with its key, or
/// inserted where its key sorts.
fn put_member(members: &mut Vec<(String, GerbilSchemeValue)>, entry: (String, GerbilSchemeValue))
    requires
        keys_sorted(member_keys(old(members)@)),
    ensures
        keys_sorted(member_keys(final(members)@)),
        forall|key: Seq<char>| #[trigger] record_lookup(final(members)@, key) == if key == entry.0@ {
            Some(entry.1)
        } else {
            record_lookup(old(members)@, key)
        },
{
    let ghost keys = member_keys(members@);
    let mut p: usize = 0;
    while p < members.len() && text_before(members[p].0.as_str(), entry.0.as_str())
        invariant
            p <= members.len(),
            keys == member_keys(members@),
            forall|q: int| 0 <= q < p ==> text_less(#[trigger] keys[q], entry.0@),
        decreases members.len() - p,
    {
        p += 1;
    }
    let ghost before = members@;
    if p < members.len() && crate::text::text_eq(members[p].0.as_str(), entry.0.as_str()) {
        proof {
            assert forall|key: Seq<char>| #[trigger] record_lookup(before.update(p as int, entry), key)
                == if key == entry.0@ {
                Some(entry.1)
            } else {
                record_lookup(before, key)
            } by {
                lemma_lookup_after_update(before, p as int, entry, key);
            }
            lemma_lookup_after_update(before, p as int, entry, entry.0@);
        }
        members.set(p, entry);
    } else {
        proof {
            assert forall|q: int| p <= q < before.len() implies text_less(
                entry.0@,
                #[trigger] member_keys(before)[q],
            ) by {
                assert(!text_less(keys[p as int], entry.0@));
                assert(keys[p as int] != entry.0@);
                lemma_text_less_total(keys[p as int], entry.0@);
                if q > p {
                    lemma_text_less_transitive(entry.0@, keys[p as int], keys[q]);
                }
            }
            assert forall|key: Seq<char>| #[trigger] record_lookup(before.insert(p as int, entry), key)
                == if key == entry.0@ {
                Some(entry.1)
            } else {
                record_lookup(before, key)
            } by {
                lemma_lookup_after_insert(before, p as int, entry, key);
            }
            lemma_lookup_after_insert(before, p as int, entry, entry.0@);
        }
        members.insert(p, entry);
    }
}

impl GerbilSchemeValue {
    pub fn null() -> (value: Self)
        ensures
            value == GerbilSchemeValue::Null,
    {
        GerbilSchemeValue::Null
    }

    pub fn boolean(flag: bool) -> (value: Self)
        ensures
            value == GerbilSchemeValue::Boolean(flag),
    {
        GerbilSchemeValue::Boolean(flag)
    }

    pub fn integer(number: i64) -> (value: Self)
        ensures
            value == GerbilSchemeValue::Integer(number),
    {
        GerbilSchemeValue::Integer(number)
    }

    /// A float, given by its IEEE-754 bits.
    pub fn float_bits(bits: u64) -> (value: Self)
        ensures
            value == GerbilSchemeValue::Float(bits),
    {
        GerbilSchemeValue::Float(bits)
    }

    pub fn text(text: &str) -> (value: Self)
        ensures
            value matches GerbilSchemeValue::Text(t) && t@ == text@,
    {
        GerbilSchemeValue::Text(text.to_owned())
    }

    pub fn vector(values: Vec<GerbilSchemeValue>) -> (value: Self)
        ensures
            value == GerbilSchemeValue::Vector(values),
    {
        GerbilSchemeValue::Vector(values)
    }

    /// A record of `fields`: sorted by key, and a key given twice keeps its last value.
    pub fn record(fields: Vec<(String, GerbilSchemeValue)>) -> (value: Self)
        ensures
            value matches GerbilSchemeValue::Record(members) && is_record_of(members@, fields@),
    {
        let ghost all = fields@;
        let mut members: Vec<(String, GerbilSchemeValue)> = Vec::new();
        let count = fields.len();
        let mut rest = fields;
        let mut i: usize = 0;
        while rest.len() > 0
            invariant
                all.len() == count,
                i + rest.len() == all.len(),
                rest@ == all.subrange(i as int, all.len() as int),
                keys_sorted(member_keys(members@)),
                forall|key: Seq<char>| #[trigger] record_lookup(members@, key) == last_given(
                    all.take(i as int),
                    key,
                ),
            decreases rest.len(),
        {
            let entry = rest.remove(0);
            assert(entry == all[i as int]);
            let ghost before = members@;
            put_member(&mut members, entry);
            assert(all.take(i + 1).drop_last() =~= all.take(i as int));
            assert(all.take(i + 1).last() == entry);
            assert forall|key: Seq<char>| #[trigger] record_lookup(members@, key) == last_given(
                all.take(i + 1),
                key,
            ) by {
                assert(record_lookup(before, key) == last_given(all.take(i as int), key));
            }
            assert(rest@ =~= all.subrange(i + 1, all.len() as int));
            i += 1;
        }
        assert(all.take(i as int) =~= all);
        GerbilSchemeValue::Record(members)
    }

    pub fn empty_record() -> (value: Self)
        ensures
            value matches GerbilSchemeValue::Record(members) && members@.len() == 0,
    {
        GerbilSchemeValue::Record(Vec::new())
    }

    pub fn is_null(&self) -> (b: bool)
        ensures
            b == (*self is Null),
    {
        match self {
            GerbilSchemeValue::Null => true,
            _ => false,
        }
    }

    pub fn is_boolean(&self) -> (b: bool)
        ensures
            b == (*self is Boolean),
    {
        match self {
            GerbilSchemeValue::Boolean(_) => true,
            _ => false,
        }
    }

    pub fn is_number(&self) -> (b: bool)
        ensures
            b == (*self is Integer || *self is Float),
    {
        match self {
            GerbilSchemeValue::Integer(_) | GerbilSchemeValue::Float(_) => true,
            _ => false,
        }
    }

    pub fn is_integer(&self) -> (b: bool)
        ensures
            b == (*self is Integer),
    {
        match self {
            GerbilSchemeValue::Integer(_) => true,
            _ => false,
        }
    }

    pub fn is_text(&self) -> (b: bool)
        ensures
            b == (*self is Text),
    {
        match self {
            GerbilSchemeValue::Text(_) => true,
            _ => false,
        }
    }

    pub fn is_vector(&self) -> (b: bool)
        ensures
            b == (*self is Vector),
    {
        match self {
            GerbilSchemeValue::Vector(_) => true,
            _ => false,
        }
    }

    pub fn is_record(&self) -> (b: bool)
        ensures
            b == (*self is Record),
    {
        match self {
            GerbilSchemeValue::Record(_) => true,
            _ => false,
        }
    }

    pub fn as_bool(&self) -> (flag: Option<bool>)
        ensures
            flag == match *self {
                GerbilSchemeValue::Boolean(b) => Some(b),
                _ => None,
            },
    {
        match self {
            GerbilSchemeValue::Boolean(b) => Some(*b),
            _ => None,
        }
    }

    pub fn as_integer(&self) -> (number: Option<i64>)
        ensures
            number == match *self {
                GerbilSchemeValue::Integer(n) => Some(n),
                _ => None,
            },
    {
        match self {
            GerbilSchemeValue::Integer(n) => Some(*n),
            _ => None,
        }
    }

    pub fn as_text(&self) -> (text: Option<&str>)
        ensures
            match *self {
                GerbilSchemeValue::Text(t) => text matches Some(s) && s@ == t@,
                _ => text is None,
            },
    {
        match self {
            GerbilSchemeValue::Text(t) => Some(t.as_str()),
            _ => None,
        }
    }

    pub fn as_vector(&self) -> (values: Option<&[GerbilSchemeValue]>)
        ensures
            match *self {
                GerbilSchemeValue::Vector(v) => values matches Some(s) && s@ == v@,
                _ => values is None,
            },
    {
        match self {
            GerbilSchemeValue::Vector(v) => Some(v.as_slice()),
            _ => None,
        }
    }

    pub fn as_record(&self) -> (members: Option<&Vec<(String, GerbilSchemeValue)>>)
        ensures
            match *self {
                GerbilSchemeValue::Record(m) => members == Some(&m),
                _ => members is None,
            },
    {
        match self {
            GerbilSchemeValue::Record(m) => Some(m),
            _ => None,
        }
    }

    /// The member `field_name` of a record.
    pub fn get(&self, field_name: &str) -> (value: Option<&GerbilSchemeValue>)
        ensures
            match *self {
                GerbilSchemeValue::Record(m) => match record_lookup(m@, field_name@) {
                    Some(v) => value == Some(&v),
                    None => value is None,
                },
                _ => value is None,
            },
    {
        match self {
            GerbilSchemeValue::Record(members) => {
                let ghost keys = member_keys(members@);
                let mut i: usize = 0;
                while i < members.len()
                    invariant
                        i <= members.len(),
                        *self == GerbilSchemeValue::Record(*members),
                        keys == member_keys(members@),
                        forall|j: int| 0 <= j < i ==> keys[j] != field_name@,
                    decreases members.len() - i,
                {
                    if crate::text::text_eq(members[i].0.as_str(), field_name) {
                        proof {
                            lemma_first_position(keys, field_name@, i as int);
                        }
                        return Some(&members[i].1);
                    }
                    i += 1;
                }
                proof {
                    lemma_first_position(keys, field_name@, i as int);
                }
                None
            },
            _ => None,
        }
    }

    /// The element `index` of a vector.
    pub fn get_index(&self, index: usize) -> (value: Option<&GerbilSchemeValue>)
        ensures
            match *self {
                GerbilSchemeValue::Vector(v) => if index < v@.len() {
                    value == Some(&v@[index as int])
                } else {
                    value is None
                },
                _ => value is None,
            },
    {
        match self {
            GerbilSchemeValue::Vector(v) => if index < v.len() {
                Some(&v[index])
            } else {
                None
            },
            _ => None,
        }
    }
}

} // verus!
