//! Manifest descriptors emitted by `Scheme` and validated in Rust.

use vstd::prelude::*;

use super::error::GerbilSchemeTypeDecodeError;
use super::ids::{GerbilSchemeFieldName, GerbilSchemeSchemaId, GerbilSchemeTypeId};
use crate::text::{first_position, lemma_first_position};

verus! {

/// Field descriptor for a Scheme-side value type.
#[derive(Clone, Debug, PartialEq, Eq)]
pub struct GerbilSchemeTypeFieldSpec {
    pub name: GerbilSchemeFieldName,
    pub type_id: GerbilSchemeTypeId,
    pub element_type_id: Option<GerbilSchemeTypeId>,
    pub required: bool,
    pub description: Option<String>,
}

/// Type descriptor emitted by Scheme and consumed by Rust without codegen.
#[derive(Clone, Debug, PartialEq, Eq)]
pub struct GerbilSchemeTypeSpec {
    pub type_id: GerbilSchemeTypeId,
    pub schema_id: Option<GerbilSchemeSchemaId>,
    pub fields: Vec<GerbilSchemeTypeFieldSpec>,
}

/// Manifest of Scheme-side value types available from a runtime package.
#[derive(Clone, Debug, PartialEq, Eq)]
pub struct GerbilSchemeTypeManifest {
    pub schema_id: GerbilSchemeSchemaId,
    pub types: Vec<GerbilSchemeTypeSpec>,
}

/// Manifest validation receipt used by tests and quality gates.
#[derive(Clone, Debug, PartialEq, Eq)]
pub struct GerbilSchemeTypeManifestValidationReceipt {
    pub schema_id: GerbilSchemeSchemaId,
    pub type_count: usize,
    pub field_count: usize,
}

/// Typed value validation receipt used by tests and quality gates.
#[derive(Clone, Debug, PartialEq, Eq)]
pub struct GerbilSchemeTypedValueValidationReceipt {
    pub type_id: GerbilSchemeTypeId,
    pub schema_id: Option<GerbilSchemeSchemaId>,
    pub declared_field_count: usize,
}

/// The names of the fields, in order.
pub open spec fn field_names(fields: Seq<GerbilSchemeTypeFieldSpec>) -> Seq<Seq<char>> {
    fields.map_values(|f: GerbilSchemeTypeFieldSpec| f.name@)
}

/// The type ids of the types, in order.
pub open spec fn type_ids(types: Seq<GerbilSchemeTypeSpec>) -> Seq<Seq<char>> {
    types.map_values(|t: GerbilSchemeTypeSpec| t.type_id@)
}

/// Number of fields over all types.
pub open spec fn total_field_count(types: Seq<GerbilSchemeTypeSpec>) -> nat
    decreases types.len(),
{
    if types.len() == 0 {
        0
    } else {
        total_field_count(types.drop_last()) + types.last().fields@.len()
    }
}

/// Position of the first item that already occurred before it.
pub open spec fn first_repeat(ids: Seq<Seq<char>>) -> Option<int>
    decreases ids.len(),
{
    if ids.len() == 0 {
        None
    } else {
        match first_repeat(ids.drop_last()) {
            Some(i) => Some(i),
            None => if ids.drop_last().contains(ids.last()) {
                Some(ids.len() - 1)
            } else {
                None
            },
        }
    }
}

/// A repeat found in a prefix is the first repeat of the whole sequence.
pub proof fn lemma_first_repeat_sticks(ids: Seq<Seq<char>>, k: int)
    requires
        0 <= k <= ids.len(),
        first_repeat(ids.take(k)) is Some,
    ensures
        first_repeat(ids) == first_repeat(ids.take(k)),
    decreases ids.len() - k,
{
    if k < ids.len() {
        assert(ids.take(k + 1).drop_last() =~= ids.take(k));
        lemma_first_repeat_sticks(ids, k + 1);
    } else {
        assert(ids.take(k) =~= ids);
    }
}

/// A repeat position is a position whose item occurs before it.
pub proof fn lemma_first_repeat_facts(ids: Seq<Seq<char>>)
    ensures
        first_repeat(ids) matches Some(i) ==> 0 <= i < ids.len() && ids.take(i).contains(ids[i]),
        first_repeat(ids) is None ==> forall|i: int, j: int|
            0 <= j < i < ids.len() ==> ids[j] != ids[i],
    decreases ids.len(),
{
    if ids.len() > 0 {
        let init = ids.drop_last();
        lemma_first_repeat_facts(init);
        if first_repeat(init) is Some {
            let i = first_repeat(init)->Some_0;
            assert(init.take(i) =~= ids.take(i));
        } else if init.contains(ids.last()) {
            assert(init =~= ids.take(ids.len() - 1));
        } else {
            assert forall|i: int, j: int| 0 <= j < i < ids.len() implies ids[j] != ids[i] by {
                if i == ids.len() - 1 {
                    assert(init[j] == ids[j]);
                } else {
                    assert(init[j] == ids[j] && init[i] == ids[i]);
                }
            }
        }
    }
}

/// Position of the first repeated id of `ids`.
pub fn find_first_repeat(ids: &Vec<&str>) -> (found: Option<usize>)
    ensures
        match found {
            Some(i) => first_repeat(ids@.map_values(|s: &str| s@)) == Some(i as int),
            None => first_repeat(ids@.map_values(|s: &str| s@)) is None,
        },
{
    let ghost views = ids@.map_values(|s: &str| s@);
    let mut i: usize = 0;
    assert(views.take(0) =~= Seq::<Seq<char>>::empty());
    while i < ids.len()
        invariant
            i <= ids.len(),
            views == ids@.map_values(|s: &str| s@),
            first_repeat(views.take(i as int)) is None,
        decreases ids.len() - i,
    {
        let mut j: usize = 0;
        let mut seen = false;
        while j < i
            invariant
                j <= i < ids.len(),
                views == ids@.map_values(|s: &str| s@),
                seen ==> views.take(i as int).contains(views[i as int]),
                !seen ==> forall|k: int| 0 <= k < j ==> views[k] != views[i as int],
            decreases i - j,
        {
            if !seen && crate::text::text_eq(ids[j], ids[i]) {
                assert(views.take(i as int)[j as int] == views[i as int]);
                seen = true;
            }
            j += 1;
        }
        assert(views.take(i + 1).drop_last() =~= views.take(i as int));
        assert(views.take(i + 1).last() == views[i as int]);
        if seen {
            proof {
                lemma_first_repeat_sticks(views, i + 1);
            }
            return Some(i);
        }
        assert(!views.take(i as int).contains(views[i as int]));
        i += 1;
    }
    assert(views.take(i as int) =~= views);
    None
}

/// The ids of the field names of a field list.
pub fn field_name_texts(fields: &Vec<GerbilSchemeTypeFieldSpec>) -> (names: Vec<&str>)
    ensures
        names@.map_values(|s: &str| s@) == field_names(fields@),
{
    let mut names: Vec<&str> = Vec::new();
    let mut i: usize = 0;
    while i < fields.len()
        invariant
            i <= fields.len(),
            names@.map_values(|s: &str| s@) == field_names(fields@).take(i as int),
        decreases fields.len() - i,
    {
        let ghost before = names@.map_values(|s: &str| s@);
        let name: &str = fields[i].name.as_str();
        names.push(name);
        assert(names@.map_values(|s: &str| s@) =~= before.push(name@));
        assert(field_names(fields@)[i as int] == fields@[i as int].name@);
        assert(names@.map_values(|s: &str| s@) =~= field_names(fields@).take(i + 1));
        i += 1;
    }
    assert(field_names(fields@).take(i as int) =~= field_names(fields@));
    names
}

/// The ids of the types of a type list.
pub fn type_id_texts(types: &Vec<GerbilSchemeTypeSpec>) -> (ids: Vec<&str>)
    ensures
        ids@.map_values(|s: &str| s@) == type_ids(types@),
{
    let mut ids: Vec<&str> = Vec::new();
    let mut i: usize = 0;
    while i < types.len()
        invariant
            i <= types.len(),
            ids@.map_values(|s: &str| s@) == type_ids(types@).take(i as int),
        decreases types.len() - i,
    {
        let ghost before = ids@.map_values(|s: &str| s@);
        let id: &str = types[i].type_id.as_str();
        ids.push(id);
        assert(ids@.map_values(|s: &str| s@) =~= before.push(id@));
        assert(type_ids(types@)[i as int] == types@[i as int].type_id@);
        assert(ids@.map_values(|s: &str| s@) =~= type_ids(types@).take(i + 1));
        i += 1;
    }
    assert(type_ids(types@).take(i as int) =~= type_ids(types@));
    ids
}

/// First duplicate-field error over the types, in order.
pub open spec fn duplicate_field_error(types: Seq<GerbilSchemeTypeSpec>) -> Option<
    GerbilSchemeTypeDecodeError,
>
    decreases types.len(),
{
    if types.len() == 0 {
        None
    } else {
        match duplicate_field_error(types.drop_last()) {
            Some(e) => Some(e),
            None => match first_repeat(field_names(types.last().fields@)) {
                Some(j) => Some(
                    GerbilSchemeTypeDecodeError::DuplicateField {
                        type_id: types.last().type_id,
                        field_name: types.last().fields@[j].name,
                    },
                ),
                None => None,
            },
        }
    }
}

/// First duplicate error of a manifest: a repeated type id, then a repeated field name.
pub open spec fn duplicate_error(manifest: GerbilSchemeTypeManifest) -> Option<
    GerbilSchemeTypeDecodeError,
> {
    match first_repeat(type_ids(manifest.types@)) {
        Some(i) => Some(
            GerbilSchemeTypeDecodeError::DuplicateType { type_id: manifest.types@[i].type_id },
        ),
        None => duplicate_field_error(manifest.types@),
    }
}

proof fn lemma_duplicate_field_error_sticks(types: Seq<GerbilSchemeTypeSpec>, k: int)
    requires
        0 <= k <= types.len(),
        duplicate_field_error(types.take(k)) is Some,
    ensures
        duplicate_field_error(types) == duplicate_field_error(types.take(k)),
    decreases types.len() - k,
{
    if k < types.len() {
        assert(types.take(k + 1).drop_last() =~= types.take(k));
        lemma_duplicate_field_error_sticks(types, k + 1);
    } else {
        assert(types.take(k) =~= types);
    }
}

/// Checks the fields of every type for repeats and counts them.
pub(crate) fn check_duplicate_fields(types: &Vec<GerbilSchemeTypeSpec>) -> (count: Result<
    usize,
    GerbilSchemeTypeDecodeError,
>)
    requires
        total_field_count(types@) <= usize::MAX,
    ensures
        match count {
            Ok(n) => duplicate_field_error(types@) is None && n == total_field_count(types@),
            Err(e) => duplicate_field_error(types@) == Some(e),
        },
{
    let mut count: usize = 0;
    let mut i: usize = 0;
    assert(types@.take(0) =~= Seq::<GerbilSchemeTypeSpec>::empty());
    while i < types.len()
        invariant
            i <= types.len(),
            total_field_count(types@) <= usize::MAX,
            duplicate_field_error(types@.take(i as int)) is None,
            count == total_field_count(types@.take(i as int)),
        decreases types.len() - i,
    {
        assert(types@.take(i + 1).drop_last() =~= types@.take(i as int));
        assert(types@.take(i + 1).last() == types@[i as int]);
        let names = field_name_texts(&types[i].fields);
        match find_first_repeat(&names) {
            Some(j) => {
                let ghost fields = types@[i as int].fields@;
                proof {
                    lemma_first_repeat_facts(field_names(fields));
                    lemma_duplicate_field_error_sticks(types@, i + 1);
                }
                return Err(
                    GerbilSchemeTypeDecodeError::DuplicateField {
                        type_id: types[i].type_id.clone(),
                        field_name: types[i].fields[j].name.clone(),
                    },
                );
            },
            None => {},
        }
        proof {
            lemma_total_field_count_prefix(types@, i + 1);
        }
        count = count + types[i].fields.len();
        i += 1;
    }
    assert(types@.take(i as int) =~= types@);
    Ok(count)
}

/// The field count of a prefix is at most that of the whole list.
proof fn lemma_total_field_count_prefix(types: Seq<GerbilSchemeTypeSpec>, k: int)
    requires
        0 <= k <= types.len(),
    ensures
        total_field_count(types.take(k)) <= total_field_count(types),
    decreases types.len() - k,
{
    if k < types.len() {
        assert(types.take(k + 1).drop_last() =~= types.take(k));
        lemma_total_field_count_prefix(types, k + 1);
    } else {
        assert(types.take(k) =~= types);
    }
}

impl GerbilSchemeTypeSpec {
    /// The first field named `name`.
    pub fn field(&self, name: &GerbilSchemeFieldName) -> (found: Option<&GerbilSchemeTypeFieldSpec>)
        ensures
            match first_position(field_names(self.fields@), name@) {
                Some(i) => found == Some(&self.fields@[i]),
                None => found is None,
            },
    {
        let ghost names = field_names(self.fields@);
        let mut i: usize = 0;
        while i < self.fields.len()
            invariant
                i <= self.fields.len(),
                names == field_names(self.fields@),
                forall|j: int| 0 <= j < i ==> names[j] != name@,
            decreases self.fields.len() - i,
        {
            if self.fields[i].name == *name {
                proof {
                    lemma_first_position(names, name@, i as int);
                }
                return Some(&self.fields[i]);
            }
            i += 1;
        }
        proof {
            lemma_first_position(names, name@, i as int);
        }
        None
    }
}

impl GerbilSchemeTypeManifest {
    /// The first type whose id is `type_id`.
    pub fn type_spec(&self, type_id: &GerbilSchemeTypeId) -> (found: Option<&GerbilSchemeTypeSpec>)
        ensures
            match first_position(type_ids(self.types@), type_id@) {
                Some(i) => found == Some(&self.types@[i]),
                None => found is None,
            },
    {
        let ghost ids = type_ids(self.types@);
        let mut i: usize = 0;
        while i < self.types.len()
            invariant
                i <= self.types.len(),
                ids == type_ids(self.types@),
                forall|j: int| 0 <= j < i ==> ids[j] != type_id@,
            decreases self.types.len() - i,
        {
            if self.types[i].type_id == *type_id {
                proof {
                    lemma_first_position(ids, type_id@, i as int);
                }
                return Some(&self.types[i]);
            }
            i += 1;
        }
        proof {
            lemma_first_position(ids, type_id@, i as int);
        }
        None
    }

    /// Checks that no type id and no field name within a type repeats, and
    /// counts the types and fields.
    pub fn validate(&self) -> (receipt: Result<
        GerbilSchemeTypeManifestValidationReceipt,
        GerbilSchemeTypeDecodeError,
    >)
        requires
            total_field_count(self.types@) <= usize::MAX,
        ensures
            match receipt {
                Ok(r) => duplicate_error(*self) is None && r.schema_id == self.schema_id
                    && r.type_count == self.types@.len() && r.field_count == total_field_count(
                    self.types@,
                ),
                Err(e) => duplicate_error(*self) == Some(e),
            },
    {
        let ids = type_id_texts(&self.types);
        match find_first_repeat(&ids) {
            Some(i) => {
                proof {
                    lemma_first_repeat_facts(type_ids(self.types@));
                }
                return Err(
                    GerbilSchemeTypeDecodeError::DuplicateType {
                        type_id: self.types[i].type_id.clone(),
                    },
                );
            },
            None => {},
        }
        let field_count = match check_duplicate_fields(&self.types) {
            Ok(n) => n,
            Err(e) => return Err(e),
        };
        Ok(
            GerbilSchemeTypeManifestValidationReceipt {
                schema_id: self.schema_id.clone(),
                type_count: self.types.len(),
                field_count,
            },
        )
    }
}

} // verus!
