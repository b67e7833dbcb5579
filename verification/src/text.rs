//! Character-level text helpers shared by the parsers and validators.
//!
//! Every helper works on character sequences and is specified by a spec
//! function over `Seq<char>` that states the same behaviour as the standard
//! library operation it stands for (`trim`, `strip_prefix`, `split_once`,
//! `lines`, decimal `parse` and decimal formatting).

use vstd::prelude::*;

verus! {

// ---------------------------------------------------------------------------
// Conversions between strings and character vectors
// ---------------------------------------------------------------------------

/// The views of the items of a sequence.
pub open spec fn seq_views<T: View>(items: Seq<T>) -> Seq<T::V> {
    items.map_values(|item: T| item@)
}

/// Position of the first occurrence of `item` in `items`.
pub open spec fn first_position<A>(items: Seq<A>, item: A) -> Option<int>
    decreases items.len(),
{
    if items.len() == 0 {
        None
    } else if items[0] == item {
        Some(0)
    } else {
        match first_position(items.drop_first(), item) {
            Some(i) => Some(i + 1),
            None => None,
        }
    }
}

/// After a run of items different from `item`, the first position is the end of the run.
pub proof fn lemma_first_position<A>(items: Seq<A>, item: A, i: int)
    requires
        0 <= i <= items.len(),
        forall|j: int| 0 <= j < i ==> items[j] != item,
    ensures
        i < items.len() && items[i] == item ==> first_position(items, item) == Some(i),
        i == items.len() ==> first_position(items, item) is None,
        first_position(items, item) matches Some(p) ==> 0 <= p < items.len() && items[p] == item,
    decreases i,
{
    if i > 0 {
        lemma_first_position(items.drop_first(), item, i - 1);
    } else {
        lemma_first_position_found(items, item);
    }
}

/// A first position found is a position of the item.
pub proof fn lemma_first_position_found<A>(items: Seq<A>, item: A)
    ensures
        first_position(items, item) matches Some(p) ==> 0 <= p < items.len() && items[p] == item
            && forall|j: int| 0 <= j < p ==> items[j] != item,
        first_position(items, item) is None ==> !items.contains(item),
    decreases items.len(),
{
    if items.len() > 0 {
        lemma_first_position_found(items.drop_first(), item);
        if items[0] != item {
            if first_position(items.drop_first(), item) is None {
                assert forall|j: int| 0 <= j < items.len() implies items[j] != item by {
                    if j > 0 {
                        assert(items[j] == items.drop_first()[j - 1]);
                    }
                }
            } else {
                let p = first_position(items.drop_first(), item)->Some_0;
                assert forall|j: int| 0 <= j < p + 1 implies items[j] != item by {
                    if j > 0 {
                        assert(items[j] == items.drop_first()[j - 1]);
                    }
                }
            }
        }
    }
}

/// Collects the characters of `text` into a vector.
pub fn chars_of(text: &str) -> (chars: Vec<char>)
    ensures
        chars@ == text@,
{
    let mut chars: Vec<char> = Vec::new();
    for c in it: text.chars()
        invariant
            chars@ == it.seq().take(it.index() as int),
    {
        chars.push(c);
    }
    chars
}

/// Appends one character to a string (`String::push`).
#[verifier::external_body]
pub(crate) fn push_char(text: &mut String, c: char)
    ensures
        final(text)@ == old(text)@.push(c),
{
    text.push(c);
}

/// Builds a string holding exactly the given characters.
pub fn string_from_chars(chars: &Vec<char>) -> (text: String)
    ensures
        text@ == chars@,
{
    let mut text = String::new();
    let mut i: usize = 0;
    while i < chars.len()
        invariant
            i <= chars.len(),
            text@ == chars@.take(i as int),
        decreases chars.len() - i,
    {
        push_char(&mut text, chars[i]);
        assert(chars@.take(i as int).push(chars@[i as int]) =~= chars@.take(i + 1));
        i += 1;
    }
    assert(chars@.take(chars.len() as int) =~= chars@);
    text
}

/// Owned copy of a string slice.
pub fn owned(text: &str) -> (copy: String)
    ensures
        copy@ == text@,
{
    text.to_owned()
}

/// String equality by characters.
pub fn text_eq(a: &str, b: &str) -> (same: bool)
    ensures
        same == (a@ == b@),
{
    a.to_owned() == b.to_owned()
}

/// Concatenation of two texts into a new string.
pub fn concat(a: &str, b: &str) -> (joined: String)
    ensures
        joined@ == a@ + b@,
{
    let mut joined = a.to_owned();
    joined.append(b);
    joined
}

/// Equality of two character vectors.
pub fn chars_eq(a: &Vec<char>, b: &Vec<char>) -> (same: bool)
    ensures
        same == (a@ == b@),
{
    if a.len() != b.len() {
        return false;
    }
    let mut i: usize = 0;
    while i < a.len()
        invariant
            i <= a.len(),
            a.len() == b.len(),
            forall|j: int| 0 <= j < i ==> a@[j] == b@[j],
        decreases a.len() - i,
    {
        if a[i] != b[i] {
            return false;
        }
        i += 1;
    }
    assert(a@ =~= b@);
    true
}

/// Copy of the elements `from..to` of a vector.
pub fn copy_range<T: Copy>(items: &Vec<T>, from: usize, to: usize) -> (part: Vec<T>)
    requires
        from <= to <= items.len(),
    ensures
        part@ == items@.subrange(from as int, to as int),
{
    let mut part: Vec<T> = Vec::new();
    let mut i: usize = from;
    while i < to
        invariant
            from <= i <= to <= items.len(),
            part@ == items@.subrange(from as int, i as int),
        decreases to - i,
    {
        part.push(items[i]);
        assert(items@.subrange(from as int, i as int).push(items@[i as int]) =~= items@.subrange(
            from as int,
            i + 1,
        ));
        i += 1;
    }
    part
}

/// The text that `{:?}` writes for a string: the string in double quotes,
/// with quotes, backslashes and control characters escaped (a single quote
/// is left as it is).
pub uninterp spec fn debug_str_text(s: Seq<char>) -> Seq<char>;

/// `format!("{:?}", text)`: Debug formatting of a string, from std.
#[verifier::external_body]
pub(crate) fn debug_str(text: &str) -> (quoted: String)
    ensures
        quoted@ == debug_str_text(text@),
{
    format!("{text:?}")
}

// ---------------------------------------------------------------------------
// Searching
// ---------------------------------------------------------------------------

/// Whether `c` occurs in `s`.
pub open spec fn contains_char(s: Seq<char>, c: char) -> bool {
    exists|i: int| 0 <= i < s.len() && s[i] == c
}

/// Index of the first occurrence of `c` in `s`.
pub open spec fn first_index_of(s: Seq<char>, c: char) -> Option<int>
    decreases s.len(),
{
    if s.len() == 0 {
        None
    } else if s[0] == c {
        Some(0)
    } else {
        match first_index_of(s.drop_first(), c) {
            Some(i) => Some(i + 1),
            None => None,
        }
    }
}

/// The first occurrence found by a left-to-right scan is the first index.
pub proof fn lemma_first_index_of(s: Seq<char>, c: char, i: int)
    requires
        0 <= i <= s.len(),
        forall|j: int| 0 <= j < i ==> s[j] != c,
    ensures
        i < s.len() && s[i] == c ==> first_index_of(s, c) == Some(i),
        i == s.len() ==> first_index_of(s, c) == None::<int>,
    decreases i,
{
    if i > 0 {
        lemma_first_index_of(s.drop_first(), c, i - 1);
    } else if s.len() > 0 && s[0] != c {
        // i == 0 == s.len() is handled by the definition; here s[0] == c or i < len.
    }
}

/// Facts about the first index: it is in bounds, holds `c`, and nothing before it does.
pub proof fn lemma_first_index_of_facts(s: Seq<char>, c: char)
    ensures
        first_index_of(s, c) matches Some(i) ==> 0 <= i < s.len() && s[i] == c && forall|j: int|
            0 <= j < i ==> s[j] != c,
        first_index_of(s, c) is None <==> !contains_char(s, c),
    decreases s.len(),
{
    if s.len() > 0 {
        lemma_first_index_of_facts(s.drop_first(), c);
        if s[0] != c {
            if contains_char(s, c) {
                let k = choose|k: int| 0 <= k < s.len() && s[k] == c;
                assert(s.drop_first()[k - 1] == c);
            }
            if contains_char(s.drop_first(), c) {
                let k = choose|k: int| 0 <= k < s.len() - 1 && s.drop_first()[k] == c;
                assert(s[k + 1] == c);
            }
            if let Some(i) = first_index_of(s, c) {
                assert forall|j: int| 0 <= j < i implies s[j] != c by {
                    if j > 0 {
                        assert(s[j] == s.drop_first()[j - 1]);
                    }
                }
            }
        }
    }
}

/// Position of the first `c` in `s`.
pub fn find_char(s: &Vec<char>, c: char) -> (found: Option<usize>)
    ensures
        found matches Some(i) ==> first_index_of(s@, c) == Some(i as int),
        found is None ==> first_index_of(s@, c) == None::<int>,
        found matches Some(i) ==> i < s.len() && s@[i as int] == c,
{
    let mut i: usize = 0;
    while i < s.len()
        invariant
            i <= s.len(),
            forall|j: int| 0 <= j < i ==> s@[j] != c,
        decreases s.len() - i,
    {
        if s[i] == c {
            proof {
                lemma_first_index_of(s@, c, i as int);
            }
            return Some(i);
        }
        i += 1;
    }
    proof {
        lemma_first_index_of(s@, c, i as int);
    }
    None
}

/// Whether `c` occurs in `s`.
pub fn has_char(s: &Vec<char>, c: char) -> (found: bool)
    ensures
        found == contains_char(s@, c),
{
    proof {
        lemma_first_index_of_facts(s@, c);
    }
    find_char(s, c).is_some()
}

/// `s` starts with `prefix`.
pub open spec fn starts_with(s: Seq<char>, prefix: Seq<char>) -> bool {
    prefix.len() <= s.len() && s.subrange(0, prefix.len() as int) == prefix
}

/// `str::strip_prefix`: the rest of `s` after `prefix`, when `s` starts with it.
pub open spec fn strip_prefix_spec(s: Seq<char>, prefix: Seq<char>) -> Option<Seq<char>> {
    if starts_with(s, prefix) {
        Some(s.subrange(prefix.len() as int, s.len() as int))
    } else {
        None
    }
}

/// Whether `s` starts with `prefix`.
pub fn chars_start_with(s: &Vec<char>, prefix: &Vec<char>) -> (b: bool)
    ensures
        b == starts_with(s@, prefix@),
{
    if prefix.len() > s.len() {
        return false;
    }
    let mut i: usize = 0;
    while i < prefix.len()
        invariant
            i <= prefix.len() <= s.len(),
            forall|j: int| 0 <= j < i ==> s@[j] == prefix@[j],
        decreases prefix.len() - i,
    {
        if s[i] != prefix[i] {
            assert(s@.subrange(0, prefix.len() as int)[i as int] != prefix@[i as int]);
            return false;
        }
        i += 1;
    }
    assert(s@.subrange(0, prefix.len() as int) =~= prefix@);
    true
}

/// The rest of `s` after `prefix`, when `s` starts with it.
pub fn strip_prefix(s: &Vec<char>, prefix: &Vec<char>) -> (rest: Option<Vec<char>>)
    ensures
        rest matches Some(r) ==> strip_prefix_spec(s@, prefix@) == Some(r@),
        rest is None ==> strip_prefix_spec(s@, prefix@) is None,
{
    if chars_start_with(s, prefix) {
        Some(copy_range(s, prefix.len(), s.len()))
    } else {
        None
    }
}

/// `str::split_once` on a character: the parts before and after the first `c`.
pub open spec fn split_once_spec(s: Seq<char>, c: char) -> Option<(Seq<char>, Seq<char>)> {
    match first_index_of(s, c) {
        Some(i) => Some((s.take(i), s.skip(i + 1))),
        None => None,
    }
}

/// The parts of `s` before and after the first `c`.
pub fn split_once(s: &Vec<char>, c: char) -> (parts: Option<(Vec<char>, Vec<char>)>)
    ensures
        parts matches Some((a, b)) ==> split_once_spec(s@, c) == Some((a@, b@)),
        parts is None ==> split_once_spec(s@, c) is None,
{
    match find_char(s, c) {
        Some(i) => {
            let before = copy_range(s, 0, i);
            let after = copy_range(s, i + 1, s.len());
            assert(before@ =~= s@.take(i as int));
            assert(after@ =~= s@.skip(i + 1));
            Some((before, after))
        },
        None => None,
    }
}

// ---------------------------------------------------------------------------
// Whitespace
// ---------------------------------------------------------------------------

/// The Unicode `White_Space` property, which `char::is_whitespace` tests.
pub open spec fn is_whitespace_char(c: char) -> bool {
    let n = c as u32;
    (9 <= n && n <= 13) || n == 32 || n == 0x85 || n == 0xa0 || n == 0x1680 || (0x2000 <= n && n
        <= 0x200a) || n == 0x2028 || n == 0x2029 || n == 0x202f || n == 0x205f || n == 0x3000
}

/// `char::is_whitespace`.
pub fn char_is_whitespace(c: char) -> (b: bool)
    ensures
        b == is_whitespace_char(c),
{
    let n = c as u32;
    (9 <= n && n <= 13) || n == 32 || n == 0x85 || n == 0xa0 || n == 0x1680 || (0x2000 <= n && n
        <= 0x200a) || n == 0x2028 || n == 0x2029 || n == 0x202f || n == 0x205f || n == 0x3000
}

/// `s` with leading whitespace removed.
pub open spec fn trim_start_spec(s: Seq<char>) -> Seq<char>
    decreases s.len(),
{
    if s.len() > 0 && is_whitespace_char(s[0]) {
        trim_start_spec(s.drop_first())
    } else {
        s
    }
}

/// `s` with trailing whitespace removed.
pub open spec fn trim_end_spec(s: Seq<char>) -> Seq<char>
    decreases s.len(),
{
    if s.len() > 0 && is_whitespace_char(s.last()) {
        trim_end_spec(s.drop_last())
    } else {
        s
    }
}

/// `str::trim`: `s` with leading and trailing whitespace removed.
pub open spec fn trim_spec(s: Seq<char>) -> Seq<char> {
    trim_end_spec(trim_start_spec(s))
}

/// `true` when `s` is empty after trimming, as `s.trim().is_empty()`.
pub open spec fn is_blank(s: Seq<char>) -> bool {
    trim_spec(s).len() == 0
}

/// Index of the first character of `s` that is not whitespace.
fn trim_start_index(s: &Vec<char>) -> (i: usize)
    ensures
        i <= s.len(),
        s@.subrange(i as int, s.len() as int) == trim_start_spec(s@),
{
    let mut i: usize = 0;
    assert(s@.subrange(0, s.len() as int) =~= s@);
    while i < s.len() && char_is_whitespace(s[i])
        invariant
            i <= s.len(),
            trim_start_spec(s@.subrange(i as int, s.len() as int)) == trim_start_spec(s@),
        decreases s.len() - i,
    {
        assert(s@.subrange(i as int, s.len() as int).drop_first() =~= s@.subrange(
            i + 1,
            s.len() as int,
        ));
        i += 1;
    }
    i
}

/// End of the range `from..to` of `s` once trailing whitespace is removed.
fn trim_end_index(s: &Vec<char>, from: usize) -> (j: usize)
    requires
        from <= s.len(),
    ensures
        from <= j <= s.len(),
        s@.subrange(from as int, j as int) == trim_end_spec(
            s@.subrange(from as int, s.len() as int),
        ),
{
    let mut j: usize = s.len();
    while j > from && char_is_whitespace(s[j - 1])
        invariant
            from <= j <= s.len(),
            trim_end_spec(s@.subrange(from as int, j as int)) == trim_end_spec(
                s@.subrange(from as int, s.len() as int),
            ),
        decreases j,
    {
        assert(s@.subrange(from as int, j as int).drop_last() =~= s@.subrange(
            from as int,
            j - 1,
        ));
        j -= 1;
    }
    j
}

/// `str::trim` on a character vector.
pub fn trim(s: &Vec<char>) -> (t: Vec<char>)
    ensures
        t@ == trim_spec(s@),
{
    let i = trim_start_index(s);
    let j = trim_end_index(s, i);
    copy_range(s, i, j)
}

/// `str::trim` on a string slice.
pub fn trim_text(s: &str) -> (t: String)
    ensures
        t@ == trim_spec(s@),
{
    let chars = chars_of(s);
    let t = trim(&chars);
    string_from_chars(&t)
}

/// `s.trim().is_empty()`.
pub fn text_is_blank(s: &str) -> (b: bool)
    ensures
        b == is_blank(s@),
{
    let chars = chars_of(s);
    let t = trim(&chars);
    t.len() == 0
}

// ---------------------------------------------------------------------------
// Decimal numbers
// ---------------------------------------------------------------------------

/// ASCII decimal digit.
pub open spec fn is_ascii_digit(c: char) -> bool {
    48 <= (c as u32) && (c as u32) <= 57
}

/// Value of an ASCII decimal digit.
pub open spec fn digit_value(c: char) -> nat {
    ((c as u32) - 48) as nat
}

/// Character of a decimal digit.
pub open spec fn digit_char(d: nat) -> char {
    ((d + 48) as u32) as char
}

/// Every character of `s` is an ASCII digit.
pub open spec fn all_ascii_digits(s: Seq<char>) -> bool {
    forall|i: int| 0 <= i < s.len() ==> is_ascii_digit(#[trigger] s[i])
}

/// Value of a sequence of decimal digits, most significant first.
pub open spec fn digits_value(s: Seq<char>) -> nat
    decreases s.len(),
{
    if s.len() == 0 {
        0
    } else {
        digits_value(s.drop_last()) * 10 + digit_value(s.last())
    }
}

/// The digits of an unsigned decimal text, after an optional leading `+`.
pub open spec fn unsigned_digits(s: Seq<char>) -> Seq<char> {
    if s.len() > 0 && s[0] == '+' {
        s.drop_first()
    } else {
        s
    }
}

/// Why `FromStr` rejects a text as an unsigned integer (`IntErrorKind`).
#[derive(Clone, Copy, Debug, PartialEq, Eq, Structural)]
pub enum IntParseErrorKind {
    Empty,
    InvalidDigit,
    PosOverflow,
    NegOverflow,
}

/// Left-to-right scan of decimal digits as `from_str_radix` performs it: the
/// first character that is not a digit, or the first digit that takes the
/// value above `max`, decides the error.
pub open spec fn digits_scan(d: Seq<char>, max: nat) -> Result<nat, IntParseErrorKind>
    decreases d.len(),
{
    if d.len() == 0 {
        Ok(0)
    } else {
        match digits_scan(d.drop_last(), max) {
            Err(e) => Err(e),
            Ok(v) => if !is_ascii_digit(d.last()) {
                Err(IntParseErrorKind::InvalidDigit)
            } else if v * 10 + digit_value(d.last()) > max {
                Err(IntParseErrorKind::PosOverflow)
            } else {
                Ok(v * 10 + digit_value(d.last()))
            },
        }
    }
}

/// Result of `s.parse()` for an unsigned integer type whose largest value is `max`.
pub open spec fn unsigned_parse_spec(s: Seq<char>, max: nat) -> Result<nat, IntParseErrorKind> {
    if s.len() == 0 {
        Err(IntParseErrorKind::Empty)
    } else if s.len() == 1 && (s[0] == '+' || s[0] == '-') {
        Err(IntParseErrorKind::InvalidDigit)
    } else {
        digits_scan(unsigned_digits(s), max)
    }
}

/// The text `ParseIntError` displays for each error kind.
pub open spec fn int_error_text(kind: IntParseErrorKind) -> Seq<char> {
    match kind {
        IntParseErrorKind::Empty => "cannot parse integer from empty string"@,
        IntParseErrorKind::InvalidDigit => "invalid digit found in string"@,
        IntParseErrorKind::PosOverflow => "number too large to fit in target type"@,
        IntParseErrorKind::NegOverflow => "number too small to fit in target type"@,
    }
}

/// Message of a `ParseIntError` of the given kind.
pub fn int_error_message(kind: IntParseErrorKind) -> (text: &'static str)
    ensures
        text@ == int_error_text(kind),
{
    match kind {
        IntParseErrorKind::Empty => "cannot parse integer from empty string",
        IntParseErrorKind::InvalidDigit => "invalid digit found in string",
        IntParseErrorKind::PosOverflow => "number too large to fit in target type",
        IntParseErrorKind::NegOverflow => "number too small to fit in target type",
    }
}

/// Once the scan of a prefix fails, the scan of the whole text fails the same way.
pub proof fn lemma_digits_scan_error_sticks(d: Seq<char>, max: nat, k: int)
    requires
        0 <= k <= d.len(),
        digits_scan(d.take(k), max) is Err,
    ensures
        digits_scan(d, max) == digits_scan(d.take(k), max),
    decreases d.len() - k,
{
    if k < d.len() {
        assert(d.take(k + 1).drop_last() =~= d.take(k));
        lemma_digits_scan_error_sticks(d, max, k + 1);
    } else {
        assert(d.take(k) =~= d);
    }
}

/// Scans the digits `from..` of `s` with values bounded by `max`.
fn scan_digits(s: &Vec<char>, from: usize, max: u64) -> (value: Result<u64, IntParseErrorKind>)
    requires
        from <= s.len(),
    ensures
        value matches Ok(v) ==> digits_scan(s@.subrange(from as int, s.len() as int), max as nat)
            == Ok::<nat, IntParseErrorKind>(v as nat),
        value matches Err(k) ==> digits_scan(s@.subrange(from as int, s.len() as int), max as nat)
            == Err::<nat, IntParseErrorKind>(k),
{
    let ghost digits = s@.subrange(from as int, s.len() as int);
    let mut i: usize = from;
    let mut acc: u64 = 0;
    assert(s@.subrange(from as int, from as int) =~= Seq::<char>::empty());
    while i < s.len()
        invariant
            from <= i <= s.len(),
            digits == s@.subrange(from as int, s.len() as int),
            digits_scan(s@.subrange(from as int, i as int), max as nat) == Ok::<
                nat,
                IntParseErrorKind,
            >(acc as nat),
            acc <= max,
        decreases s.len() - i,
    {
        let c = s[i];
        let ghost before = s@.subrange(from as int, i as int);
        let ghost after = s@.subrange(from as int, i + 1);
        assert(after.drop_last() =~= before);
        assert(after.last() == c);
        assert(digits.take(i + 1 - from) =~= after);
        if !((c as u32) >= 48 && (c as u32) <= 57) {
            proof {
                lemma_digits_scan_error_sticks(digits, max as nat, i + 1 - from);
            }
            return Err(IntParseErrorKind::InvalidDigit);
        }
        let d = (c as u32 - 48) as u64;
        if d > max || acc > (max - d) / 10 {
            proof {
                assert(acc * 10 + d > max) by (nonlinear_arith)
                    requires
                        d > max || acc > (max - d) / 10,
                ;
                lemma_digits_scan_error_sticks(digits, max as nat, i + 1 - from);
            }
            return Err(IntParseErrorKind::PosOverflow);
        }
        proof {
            assert(acc * 10 + d <= max) by (nonlinear_arith)
                requires
                    acc <= (max - d) / 10,
                    d <= max,
            ;
        }
        acc = acc * 10 + d;
        i += 1;
    }
    Ok(acc)
}

/// Parses `s` as `FromStr` does for an unsigned integer type whose largest value is `max`.
pub fn parse_unsigned(s: &Vec<char>, max: u64) -> (value: Result<u64, IntParseErrorKind>)
    ensures
        value matches Ok(v) ==> unsigned_parse_spec(s@, max as nat) == Ok::<
            nat,
            IntParseErrorKind,
        >(v as nat),
        value matches Err(k) ==> unsigned_parse_spec(s@, max as nat) == Err::<
            nat,
            IntParseErrorKind,
        >(k),
{
    if s.len() == 0 {
        return Err(IntParseErrorKind::Empty);
    }
    if s.len() == 1 && (s[0] == '+' || s[0] == '-') {
        return Err(IntParseErrorKind::InvalidDigit);
    }
    let from: usize = if s[0] == '+' {
        1
    } else {
        0
    };
    assert(s@.subrange(from as int, s.len() as int) =~= unsigned_digits(s@));
    scan_digits(s, from, max)
}

/// Result of `s.parse::<i32>()`: an optional sign, then decimal digits scanned
/// left to right against the bound on the side of the sign.
pub open spec fn i32_parse_spec(s: Seq<char>) -> Result<int, IntParseErrorKind> {
    if s.len() == 0 {
        Err(IntParseErrorKind::Empty)
    } else if s.len() == 1 && (s[0] == '+' || s[0] == '-') {
        Err(IntParseErrorKind::InvalidDigit)
    } else if s[0] == '-' {
        match digits_scan(s.drop_first(), 0x8000_0000) {
            Ok(m) => Ok(-(m as int)),
            Err(IntParseErrorKind::PosOverflow) => Err(IntParseErrorKind::NegOverflow),
            Err(k) => Err(k),
        }
    } else {
        match digits_scan(unsigned_digits(s), 0x7fff_ffff) {
            Ok(m) => Ok(m as int),
            Err(k) => Err(k),
        }
    }
}

/// Parses a text as `i32::from_str`.
pub fn parse_i32_text(s: &str) -> (value: Result<i32, IntParseErrorKind>)
    ensures
        value matches Ok(v) ==> i32_parse_spec(s@) == Ok::<int, IntParseErrorKind>(v as int),
        value matches Err(k) ==> i32_parse_spec(s@) == Err::<int, IntParseErrorKind>(k),
{
    let chars = chars_of(s);
    if chars.len() == 0 {
        return Err(IntParseErrorKind::Empty);
    }
    if chars.len() == 1 && (chars[0] == '+' || chars[0] == '-') {
        return Err(IntParseErrorKind::InvalidDigit);
    }
    if chars[0] == '-' {
        assert(chars@.subrange(1, chars.len() as int) =~= chars@.drop_first());
        match scan_digits(&chars, 1, 0x8000_0000) {
            Ok(m) => {
                if m == 0x8000_0000 {
                    Ok(i32::MIN)
                } else {
                    Ok(-(m as i32))
                }
            },
            Err(IntParseErrorKind::PosOverflow) => Err(IntParseErrorKind::NegOverflow),
            Err(k) => Err(k),
        }
    } else {
        let from: usize = if chars[0] == '+' {
            1
        } else {
            0
        };
        assert(chars@.subrange(from as int, chars.len() as int) =~= unsigned_digits(chars@));
        match scan_digits(&chars, from, 0x7fff_ffff) {
            Ok(m) => Ok(m as i32),
            Err(k) => Err(k),
        }
    }
}

/// Result of `s.parse::<i64>()`: an optional sign, then decimal digits scanned
/// left to right against the bound on the side of the sign.
pub open spec fn i64_parse_spec(s: Seq<char>) -> Result<int, IntParseErrorKind> {
    if s.len() == 0 {
        Err(IntParseErrorKind::Empty)
    } else if s.len() == 1 && (s[0] == '+' || s[0] == '-') {
        Err(IntParseErrorKind::InvalidDigit)
    } else if s[0] == '-' {
        match digits_scan(s.drop_first(), 0x8000_0000_0000_0000) {
            Ok(m) => Ok(-(m as int)),
            Err(IntParseErrorKind::PosOverflow) => Err(IntParseErrorKind::NegOverflow),
            Err(k) => Err(k),
        }
    } else {
        match digits_scan(unsigned_digits(s), 0x7fff_ffff_ffff_ffff) {
            Ok(m) => Ok(m as int),
            Err(k) => Err(k),
        }
    }
}

/// Parses a text as `i64::from_str`.
pub fn parse_i64_text(s: &str) -> (value: Result<i64, IntParseErrorKind>)
    ensures
        value matches Ok(v) ==> i64_parse_spec(s@) == Ok::<int, IntParseErrorKind>(v as int),
        value matches Err(k) ==> i64_parse_spec(s@) == Err::<int, IntParseErrorKind>(k),
{
    let chars = chars_of(s);
    if chars.len() == 0 {
        return Err(IntParseErrorKind::Empty);
    }
    if chars.len() == 1 && (chars[0] == '+' || chars[0] == '-') {
        return Err(IntParseErrorKind::InvalidDigit);
    }
    if chars[0] == '-' {
        assert(chars@.subrange(1, chars.len() as int) =~= chars@.drop_first());
        match scan_digits(&chars, 1, 0x8000_0000_0000_0000) {
            Ok(m) => {
                if m == 0x8000_0000_0000_0000 {
                    Ok(i64::MIN)
                } else {
                    Ok(-(m as i64))
                }
            },
            Err(IntParseErrorKind::PosOverflow) => Err(IntParseErrorKind::NegOverflow),
            Err(k) => Err(k),
        }
    } else {
        let from: usize = if chars[0] == '+' {
            1
        } else {
            0
        };
        assert(chars@.subrange(from as int, chars.len() as int) =~= unsigned_digits(chars@));
        match scan_digits(&chars, from, 0x7fff_ffff_ffff_ffff) {
            Ok(m) => Ok(m as i64),
            Err(k) => Err(k),
        }
    }
}

/// Parses a text as `u64::from_str`.
pub fn parse_u64_text(s: &str) -> (value: Result<u64, IntParseErrorKind>)
    ensures
        value matches Ok(v) ==> unsigned_parse_spec(s@, u64::MAX as nat) == Ok::<
            nat,
            IntParseErrorKind,
        >(v as nat),
        value matches Err(k) ==> unsigned_parse_spec(s@, u64::MAX as nat) == Err::<
            nat,
            IntParseErrorKind,
        >(k),
{
    let chars = chars_of(s);
    parse_unsigned(&chars, u64::MAX)
}

/// Parses a text as `usize::from_str`.
pub fn parse_usize_text(s: &str) -> (value: Result<usize, IntParseErrorKind>)
    ensures
        value matches Ok(v) ==> unsigned_parse_spec(s@, usize::MAX as nat) == Ok::<
            nat,
            IntParseErrorKind,
        >(v as nat),
        value matches Err(k) ==> unsigned_parse_spec(s@, usize::MAX as nat) == Err::<
            nat,
            IntParseErrorKind,
        >(k),
{
    let chars = chars_of(s);
    match parse_unsigned(&chars, usize::MAX as u64) {
        Ok(v) => Ok(v as usize),
        Err(k) => Err(k),
    }
}

/// Parses a text as `u8::from_str`.
pub fn parse_u8_text(s: &str) -> (value: Result<u8, IntParseErrorKind>)
    ensures
        value matches Ok(v) ==> unsigned_parse_spec(s@, 255) == Ok::<nat, IntParseErrorKind>(
            v as nat,
        ),
        value matches Err(k) ==> unsigned_parse_spec(s@, 255) == Err::<nat, IntParseErrorKind>(k),
{
    let chars = chars_of(s);
    match parse_unsigned(&chars, 255) {
        Ok(v) => Ok(v as u8),
        Err(k) => Err(k),
    }
}

/// Decimal digits of `n`, as `Display` writes an unsigned integer.
pub open spec fn decimal_text(n: nat) -> Seq<char>
    decreases n,
{
    if n < 10 {
        seq![digit_char(n)]
    } else {
        decimal_text(n / 10).push(digit_char(n % 10))
    }
}

/// Decimal text of a signed integer, as `Display` writes it.
pub open spec fn signed_decimal_text(n: int) -> Seq<char> {
    if n < 0 {
        seq!['-'] + decimal_text((-n) as nat)
    } else {
        decimal_text(n as nat)
    }
}

/// The ASCII digit for `d`.
pub fn digit_to_char(d: u64) -> (c: char)
    requires
        d < 10,
    ensures
        c == digit_char(d as nat),
{
    proof {
        assert(digit_char(d as nat) == ((d + 48) as u32) as char);
    }
    match d {
        0 => '0',
        1 => '1',
        2 => '2',
        3 => '3',
        4 => '4',
        5 => '5',
        6 => '6',
        7 => '7',
        8 => '8',
        _ => '9',
    }
}

/// Decimal digits of `n`.
pub fn u64_decimal_chars(n: u64) -> (digits: Vec<char>)
    ensures
        digits@ == decimal_text(n as nat),
    decreases n,
{
    if n < 10 {
        let mut v: Vec<char> = Vec::new();
        v.push(digit_to_char(n));
        assert(v@ =~= seq![digit_char(n as nat)]);
        v
    } else {
        let mut v = u64_decimal_chars(n / 10);
        v.push(digit_to_char(n % 10));
        v
    }
}

/// `n.to_string()` for an unsigned integer.
pub fn u64_to_text(n: u64) -> (text: String)
    ensures
        text@ == decimal_text(n as nat),
{
    let digits = u64_decimal_chars(n);
    string_from_chars(&digits)
}

/// `n.to_string()` for a signed integer.
pub fn i64_to_text(n: i64) -> (text: String)
    ensures
        text@ == signed_decimal_text(n as int),
{
    if n < 0 {
        let magnitude: u64 = if n == i64::MIN {
            9223372036854775808u64
        } else {
            (-n) as u64
        };
        let digits = u64_decimal_chars(magnitude);
        let mut text = String::new();
        push_char(&mut text, '-');
        let rest = string_from_chars(&digits);
        text.append(rest.as_str());
        assert(text@ =~= seq!['-'] + decimal_text((-(n as int)) as nat));
        text
    } else {
        u64_to_text(n as u64)
    }
}

// ---------------------------------------------------------------------------
// Splitting
// ---------------------------------------------------------------------------

/// A line without its trailing carriage return.
pub open spec fn strip_cr(line: Seq<char>) -> Seq<char> {
    if line.len() > 0 && line.last() == '\r' {
        line.drop_last()
    } else {
        line
    }
}

/// `str::lines`: the lines of `s`, split at `\n` with a `\r` before it removed;
/// a final line ending yields no empty last line.
pub open spec fn text_lines(s: Seq<char>) -> Seq<Seq<char>>
    decreases s.len(),
{
    if s.len() == 0 {
        Seq::empty()
    } else {
        match first_index_of(s, '\n') {
            Some(i) => if 0 <= i < s.len() {
                seq![strip_cr(s.take(i))] + text_lines(s.skip(i + 1))
            } else {
                Seq::empty()
            },
            None => seq![s],
        }
    }
}

/// The character sequences held by a sequence of character vectors.
pub open spec fn char_views(v: Seq<Vec<char>>) -> Seq<Seq<char>> {
    v.map_values(|x: Vec<char>| x@)
}

/// A piece kept by `filter(|v| !v.is_empty())`.
pub open spec fn keep_non_empty(piece: Seq<char>) -> Seq<Seq<char>> {
    if piece.len() > 0 {
        seq![piece]
    } else {
        Seq::empty()
    }
}

/// `s.split(sep).map(str::trim).filter(|v| !v.is_empty())`.
pub open spec fn delimited_fields(s: Seq<char>, sep: char) -> Seq<Seq<char>>
    decreases s.len(),
{
    match first_index_of(s, sep) {
        Some(i) => if 0 <= i < s.len() {
            keep_non_empty(trim_spec(s.take(i))) + delimited_fields(s.skip(i + 1), sep)
        } else {
            Seq::empty()
        },
        None => keep_non_empty(trim_spec(s)),
    }
}

/// Index of the first whitespace character of `s`.
pub open spec fn first_whitespace_index(s: Seq<char>) -> Option<int>
    decreases s.len(),
{
    if s.len() == 0 {
        None
    } else if is_whitespace_char(s[0]) {
        Some(0)
    } else {
        match first_whitespace_index(s.drop_first()) {
            Some(i) => Some(i + 1),
            None => None,
        }
    }
}

/// `str::split_whitespace`: the non-empty runs of non-whitespace characters.
pub open spec fn whitespace_words(s: Seq<char>) -> Seq<Seq<char>>
    decreases s.len(),
{
    match first_whitespace_index(s) {
        Some(i) => if 0 <= i < s.len() {
            keep_non_empty(s.take(i)) + whitespace_words(s.skip(i + 1))
        } else {
            Seq::empty()
        },
        None => keep_non_empty(s),
    }
}

proof fn lemma_first_whitespace_index(s: Seq<char>, i: int)
    requires
        0 <= i <= s.len(),
        forall|j: int| 0 <= j < i ==> !is_whitespace_char(s[j]),
    ensures
        i < s.len() && is_whitespace_char(s[i]) ==> first_whitespace_index(s) == Some(i),
        i == s.len() ==> first_whitespace_index(s) == None::<int>,
    decreases i,
{
    if i > 0 {
        lemma_first_whitespace_index(s.drop_first(), i - 1);
    }
}

/// Position of the first whitespace character of `s`.
fn find_whitespace(s: &Vec<char>) -> (found: Option<usize>)
    ensures
        found matches Some(i) ==> first_whitespace_index(s@) == Some(i as int) && i < s.len(),
        found is None ==> first_whitespace_index(s@) == None::<int>,
{
    let mut i: usize = 0;
    while i < s.len()
        invariant
            i <= s.len(),
            forall|j: int| 0 <= j < i ==> !is_whitespace_char(s@[j]),
        decreases s.len() - i,
    {
        if char_is_whitespace(s[i]) {
            proof {
                lemma_first_whitespace_index(s@, i as int);
            }
            return Some(i);
        }
        i += 1;
    }
    proof {
        lemma_first_whitespace_index(s@, i as int);
    }
    None
}

/// Pushes `piece` when it is not empty.
fn push_non_empty(pieces: &mut Vec<Vec<char>>, piece: Vec<char>)
    ensures
        char_views(final(pieces)@) == char_views(old(pieces)@) + keep_non_empty(piece@),
{
    let ghost before = char_views(pieces@);
    if piece.len() > 0 {
        let ghost p = piece@;
        pieces.push(piece);
        assert(char_views(pieces@) =~= before + keep_non_empty(p));
    } else {
        assert(char_views(pieces@) =~= before + keep_non_empty(piece@));
    }
}

/// `str::lines` on a character vector.
pub fn split_lines(s: &Vec<char>) -> (lines: Vec<Vec<char>>)
    ensures
        char_views(lines@) == text_lines(s@),
{
    let mut lines: Vec<Vec<char>> = Vec::new();
    let mut rest = copy_range(s, 0, s.len());
    assert(rest@ =~= s@);
    assert(char_views(lines@) + text_lines(rest@) =~= text_lines(s@));
    while rest.len() > 0
        invariant
            char_views(lines@) + text_lines(rest@) == text_lines(s@),
        decreases rest.len(),
    {
        let ghost before = char_views(lines@);
        match find_char(&rest, '\n') {
            Some(i) => {
                let line = copy_range(&rest, 0, i);
                let stripped = if line.len() > 0 && line[line.len() - 1] == '\r' {
                    copy_range(&line, 0, line.len() - 1)
                } else {
                    line
                };
                assert(line@ =~= rest@.take(i as int));
                assert(stripped@ =~= strip_cr(rest@.take(i as int)));
                let next = copy_range(&rest, i + 1, rest.len());
                assert(next@ =~= rest@.skip(i + 1));
                let ghost st = stripped@;
                lines.push(stripped);
                assert(char_views(lines@) =~= before + seq![st]);
                assert(text_lines(rest@) == seq![st] + text_lines(next@));
                assert(char_views(lines@) + text_lines(next@) =~= before + text_lines(rest@));
                rest = next;
            },
            None => {
                let ghost r = rest@;
                let last = copy_range(&rest, 0, rest.len());
                assert(last@ =~= r);
                lines.push(last);
                assert(char_views(lines@) =~= before + seq![r]);
                rest = Vec::new();
                assert(text_lines(rest@) =~= Seq::<Seq<char>>::empty());
                assert(char_views(lines@) + text_lines(rest@) =~= before + text_lines(r));
            },
        }
    }
    assert(text_lines(rest@) =~= Seq::<Seq<char>>::empty());
    assert(char_views(lines@) =~= char_views(lines@) + text_lines(rest@));
    lines
}

/// `s.split(sep).map(str::trim).filter(|v| !v.is_empty())` on a character vector.
pub fn split_delimited(s: &Vec<char>, sep: char) -> (fields: Vec<Vec<char>>)
    ensures
        char_views(fields@) == delimited_fields(s@, sep),
{
    let mut fields: Vec<Vec<char>> = Vec::new();
    let mut rest = copy_range(s, 0, s.len());
    assert(rest@ =~= s@);
    assert(char_views(fields@) + delimited_fields(rest@, sep) =~= delimited_fields(s@, sep));
    loop
        invariant
            char_views(fields@) + delimited_fields(rest@, sep) == delimited_fields(s@, sep),
        ensures
            char_views(fields@) == delimited_fields(s@, sep),
        decreases rest.len(),
    {
        let ghost before = char_views(fields@);
        match find_char(&rest, sep) {
            Some(i) => {
                let piece = copy_range(&rest, 0, i);
                assert(piece@ =~= rest@.take(i as int));
                let trimmed = trim(&piece);
                let next = copy_range(&rest, i + 1, rest.len());
                assert(next@ =~= rest@.skip(i + 1));
                push_non_empty(&mut fields, trimmed);
                assert(char_views(fields@) + delimited_fields(next@, sep) =~= before
                    + delimited_fields(rest@, sep));
                rest = next;
            },
            None => {
                let trimmed = trim(&rest);
                push_non_empty(&mut fields, trimmed);
                return fields;
            },
        }
    }
}

/// `str::split_whitespace` on a character vector.
pub fn split_whitespace(s: &Vec<char>) -> (words: Vec<Vec<char>>)
    ensures
        char_views(words@) == whitespace_words(s@),
{
    let mut words: Vec<Vec<char>> = Vec::new();
    let mut rest = copy_range(s, 0, s.len());
    assert(rest@ =~= s@);
    assert(char_views(words@) + whitespace_words(rest@) =~= whitespace_words(s@));
    loop
        invariant
            char_views(words@) + whitespace_words(rest@) == whitespace_words(s@),
        ensures
            char_views(words@) == whitespace_words(s@),
        decreases rest.len(),
    {
        let ghost before = char_views(words@);
        match find_whitespace(&rest) {
            Some(i) => {
                let piece = copy_range(&rest, 0, i);
                assert(piece@ =~= rest@.take(i as int));
                let next = copy_range(&rest, i + 1, rest.len());
                assert(next@ =~= rest@.skip(i + 1));
                push_non_empty(&mut words, piece);
                assert(char_views(words@) + whitespace_words(next@) =~= before + whitespace_words(
                    rest@,
                ));
                rest = next;
            },
            None => {
                let piece = copy_range(&rest, 0, rest.len());
                assert(piece@ =~= rest@);
                push_non_empty(&mut words, piece);
                return words;
            },
        }
    }
}

} // verus!
