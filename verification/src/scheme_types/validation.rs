//! Structural validation for `Scheme` type manifests.

use vstd::prelude::*;

use super::error::GerbilSchemeTypeDecodeError;
use super::ids::GerbilSchemeTypeId;
use super::manifest::{
    GerbilSchemeTypeFieldSpec, GerbilSchemeTypeManifest, GerbilSchemeTypeManifestValidationReceipt,
    GerbilSchemeTypeSpec, check_duplicate_fields, duplicate_error, find_first_repeat,
    lemma_first_repeat_facts, total_field_count, type_id_texts, type_ids,
};
use crate::text::{seq_views, text_eq};

verus! {

/// Type ids that Scheme values carry without a declaring type.
pub open spec fn is_builtin_scheme_type(type_id: Seq<char>) -> bool {
    ||| type_id == "any"@
    ||| type_id == "null"@
    ||| type_id == "boolean"@
    ||| type_id == "number"@
    ||| type_id == "integer"@
    ||| type_id == "string"@
    ||| type_id == "array"@
    ||| type_id == "object"@
}

/// A type id a field may name: a builtin or a declared type.
pub open spec fn is_known_type(type_id: Seq<char>, declared: Seq<Seq<char>>) -> bool {
    is_builtin_scheme_type(type_id) || declared.contains(type_id)
}

/// Reference error of one field of the type `owner`.
pub open spec fn field_reference_error(
    owner: GerbilSchemeTypeId,
    field: GerbilSchemeTypeFieldSpec,
    declared: Seq<Seq<char>>,
) -> Option<GerbilSchemeTypeDecodeError> {
    if !is_known_type(field.type_id@, declared) {
        Some(
            GerbilSchemeTypeDecodeError::UnknownFieldType {
                type_id: owner,
                field_name: field.name,
                field_type_id: field.type_id,
            },
        )
    } else {
        match field.element_type_id {
            None => None,
            Some(element) => if field.type_id@ != "array"@ {
                Some(
                    GerbilSchemeTypeDecodeError::ArrayElementTypeOnNonArrayField {
                        type_id: owner,
                        field_name: field.name,
                        field_type_id: field.type_id,
                    },
                )
            } else if !is_known_type(element@, declared) {
                Some(
                    GerbilSchemeTypeDecodeError::UnknownFieldType {
                        type_id: owner,
                        field_name: field.name,
                        field_type_id: element,
                    },
                )
            } else {
                None
            },
        }
    }
}

/// First reference error among the fields of the type `owner`.
pub open spec fn fields_reference_error(
    owner: GerbilSchemeTypeId,
    fields: Seq<GerbilSchemeTypeFieldSpec>,
    declared: Seq<Seq<char>>,
) -> Option<GerbilSchemeTypeDecodeError>
    decreases fields.len(),
{
    if fields.len() == 0 {
        None
    } else {
        match fields_reference_error(owner, fields.drop_last(), declared) {
            Some(e) => Some(e),
            None => field_reference_error(owner, fields.last(), declared),
        }
    }
}

/// First reference error among the types, in order.
pub open spec fn types_reference_error(
    types: Seq<GerbilSchemeTypeSpec>,
    declared: Seq<Seq<char>>,
) -> Option<GerbilSchemeTypeDecodeError>
    decreases types.len(),
{
    if types.len() == 0 {
        None
    } else {
        match types_reference_error(types.drop_last(), declared) {
            Some(e) => Some(e),
            None => fields_reference_error(types.last().type_id, types.last().fields@, declared),
        }
    }
}

/// First validation error of a manifest: repeated type ids, repeated field
/// names, then field type references that name neither a builtin nor a
/// declared type, or an element type on a field that is not an array.
pub open spec fn manifest_validation_error(manifest: GerbilSchemeTypeManifest) -> Option<
    GerbilSchemeTypeDecodeError,
> {
    if duplicate_error(manifest) is Some {
        duplicate_error(manifest)
    } else {
        types_reference_error(manifest.types@, type_ids(manifest.types@))
    }
}

proof fn lemma_fields_error_sticks(
    owner: GerbilSchemeTypeId,
    fields: Seq<GerbilSchemeTypeFieldSpec>,
    declared: Seq<Seq<char>>,
    k: int,
)
    requires
        0 <= k <= fields.len(),
        fields_reference_error(owner, fields.take(k), declared) is Some,
    ensures
        fields_reference_error(owner, fields, declared) == fields_reference_error(
            owner,
            fields.take(k),
            declared,
        ),
    decreases fields.len() - k,
{
    if k < fields.len() {
        assert(fields.take(k + 1).drop_last() =~= fields.take(k));
        lemma_fields_error_sticks(owner, fields, declared, k + 1);
    } else {
        assert(fields.take(k) =~= fields);
    }
}

proof fn lemma_types_error_sticks(types: Seq<GerbilSchemeTypeSpec>, declared: Seq<Seq<char>>, k: int)
    requires
        0 <= k <= types.len(),
        types_reference_error(types.take(k), declared) is Some,
    ensures
        types_reference_error(types, declared) == types_reference_error(types.take(k), declared),
    decreases types.len() - k,
{
    if k < types.len() {
        assert(types.take(k + 1).drop_last() =~= types.take(k));
        lemma_types_error_sticks(types, declared, k + 1);
    } else {
        assert(types.take(k) =~= types);
    }
}

/// Whether `type_id` names a builtin Scheme type.
pub fn builtin_scheme_type(type_id: &str) -> (builtin: bool)
    ensures
        builtin == is_builtin_scheme_type(type_id@),
{
    text_eq(type_id, "any") || text_eq(type_id, "null") || text_eq(type_id, "boolean") || text_eq(
        type_id,
        "number",
    ) || text_eq(type_id, "integer") || text_eq(type_id, "string") || text_eq(type_id, "array")
        || text_eq(type_id, "object")
}

/// Whether `ids` holds `id`.
fn holds_id(ids: &Vec<&str>, id: &str) -> (found: bool)
    ensures
        found == ids@.map_values(|s: &str| s@).contains(id@),
{
    let ghost views = ids@.map_values(|s: &str| s@);
    let mut i: usize = 0;
    while i < ids.len()
        invariant
            i <= ids.len(),
            views == ids@.map_values(|s: &str| s@),
            forall|j: int| 0 <= j < i ==> views[j] != id@,
        decreases ids.len() - i,
    {
        if text_eq(ids[i], id) {
            assert(views[i as int] == id@);
            return true;
        }
        i += 1;
    }
    false
}

/// Reference error of one field.
fn check_field_reference(
    owner: &GerbilSchemeTypeId,
    field: &GerbilSchemeTypeFieldSpec,
    declared: &Vec<&str>,
) -> (result: Result<(), GerbilSchemeTypeDecodeError>)
    ensures
        match result {
            Ok(()) => field_reference_error(
                *owner,
                *field,
                declared@.map_values(|s: &str| s@),
            ) is None,
            Err(e) => field_reference_error(*owner, *field, declared@.map_values(|s: &str| s@))
                == Some(e),
        },
{
    if !(builtin_scheme_type(field.type_id.as_str()) || holds_id(declared, field.type_id.as_str())) {
        return Err(
            GerbilSchemeTypeDecodeError::UnknownFieldType {
                type_id: owner.clone(),
                field_name: field.name.clone(),
                field_type_id: field.type_id.clone(),
            },
        );
    }
    match &field.element_type_id {
        None => Ok(()),
        Some(element) => {
            if !text_eq(field.type_id.as_str(), "array") {
                return Err(
                    GerbilSchemeTypeDecodeError::ArrayElementTypeOnNonArrayField {
                        type_id: owner.clone(),
                        field_name: field.name.clone(),
                        field_type_id: field.type_id.clone(),
                    },
                );
            }
            if !(builtin_scheme_type(element.as_str()) || holds_id(declared, element.as_str())) {
                return Err(
                    GerbilSchemeTypeDecodeError::UnknownFieldType {
                        type_id: owner.clone(),
                        field_name: field.name.clone(),
                        field_type_id: element.clone(),
                    },
                );
            }
            Ok(())
        },
    }
}

/// Reference errors of every field of every type, in order.
fn check_references(types: &Vec<GerbilSchemeTypeSpec>, declared: &Vec<&str>) -> (result: Result<
    (),
    GerbilSchemeTypeDecodeError,
>)
    ensures
        match result {
            Ok(()) => types_reference_error(types@, declared@.map_values(|s: &str| s@)) is None,
            Err(e) => types_reference_error(types@, declared@.map_values(|s: &str| s@)) == Some(e),
        },
{
    let ghost known = declared@.map_values(|s: &str| s@);
    let mut i: usize = 0;
    assert(types@.take(0) =~= Seq::<GerbilSchemeTypeSpec>::empty());
    while i < types.len()
        invariant
            i <= types.len(),
            known == declared@.map_values(|s: &str| s@),
            types_reference_error(types@.take(i as int), known) is None,
        decreases types.len() - i,
    {
        assert(types@.take(i + 1).drop_last() =~= types@.take(i as int));
        assert(types@.take(i + 1).last() == types@[i as int]);
        let spec = &types[i];
        let ghost fields = spec.fields@;
        let mut j: usize = 0;
        assert(fields.take(0) =~= Seq::<GerbilSchemeTypeFieldSpec>::empty());
        while j < spec.fields.len()
            invariant
                j <= spec.fields.len(),
                i < types.len(),
                *spec == types@[i as int],
                types_reference_error(types@.take(i as int), known) is None,
                types@.take(i + 1).drop_last() == types@.take(i as int),
                types@.take(i + 1).last() == types@[i as int],
                fields == spec.fields@,
                known == declared@.map_values(|s: &str| s@),
                fields_reference_error(spec.type_id, fields.take(j as int), known) is None,
            decreases spec.fields.len() - j,
        {
            assert(fields.take(j + 1).drop_last() =~= fields.take(j as int));
            assert(fields.take(j + 1).last() == fields[j as int]);
            match check_field_reference(&spec.type_id, &spec.fields[j], declared) {
                Ok(()) => {},
                Err(e) => {
                    proof {
                        lemma_fields_error_sticks(spec.type_id, fields, known, j + 1);
                        lemma_types_error_sticks(types@, known, i + 1);
                    }
                    return Err(e);
                },
            }
            j += 1;
        }
        assert(fields.take(j as int) =~= fields);
        i += 1;
    }
    assert(types@.take(i as int) =~= types@);
    Ok(())
}

/// Validate a `Gerbil` Scheme type manifest before building a registry.
pub fn validate_gerbil_scheme_type_manifest(manifest: &GerbilSchemeTypeManifest) -> (receipt: Result<
    GerbilSchemeTypeManifestValidationReceipt,
    GerbilSchemeTypeDecodeError,
>)
    requires
        total_field_count(manifest.types@) <= usize::MAX,
    ensures
        match receipt {
            Ok(r) => manifest_validation_error(*manifest) is None && r.schema_id
                == manifest.schema_id && r.type_count == manifest.types@.len() && r.field_count
                == total_field_count(manifest.types@),
            Err(e) => manifest_validation_error(*manifest) == Some(e),
        },
{
    let ids = type_id_texts(&manifest.types);
    match find_first_repeat(&ids) {
        Some(i) => {
            proof {
                lemma_first_repeat_facts(type_ids(manifest.types@));
            }
            return Err(
                GerbilSchemeTypeDecodeError::DuplicateType {
                    type_id: manifest.types[i].type_id.clone(),
                },
            );
        },
        None => {},
    }
    let field_count = match check_duplicate_fields(&manifest.types) {
        Ok(n) => n,
        Err(e) => return Err(e),
    };
    match check_references(&manifest.types, &ids) {
        Ok(()) => {},
        Err(e) => return Err(e),
    }
    Ok(
        GerbilSchemeTypeManifestValidationReceipt {
            schema_id: manifest.schema_id.clone(),
            type_count: manifest.types.len(),
            field_count,
        },
    )
}

/// Reusable Gerbil Scheme Rust binding surface that Marlin delegates to.
#[derive(Clone, Debug, PartialEq, Eq)]
pub struct GerbilSchemeBackedBindingCatalogReceipt {
    pub upstream_crate: String,
    pub backed_shape_selectors: Vec<String>,
    pub fixture_only_value_families: Vec<String>,
}

/// Shape selectors backed by the upstream Gerbil Scheme Rust bindings.
pub open spec fn backed_shape_selectors() -> Seq<Seq<char>> {
    seq![
        "gerbil_scheme_rust_i64_shape"@,
        "gerbil_scheme_rust_bool_shape"@,
        "gerbil_scheme_rust_comparison_shape"@,
        "gerbil_scheme_rust_utf8_shape"@,
        "gerbil_scheme_rust_value_handle_shape"@,
        "gerbil_scheme_rust_value_is_pair"@,
        "gerbil_scheme_rust_value_is_list"@,
        "gerbil_scheme_rust_value_is_null"@,
        "gerbil_scheme_rust_pair_car"@,
        "gerbil_scheme_rust_pair_cdr"@,
        "gerbil_scheme_rust_pair_parts"@,
        "gerbil_scheme_rust_i64_callback_shape"@,
        "gerbil_scheme_rust_native_value_shape"@,
        "gerbil_scheme_rust_native_error_shape"@,
        "gerbil_scheme_rust_native_result_shape"@,
    ]
}

/// Return the reusable Gerbil Scheme Rust binding surface Marlin can currently
/// delegate to without treating fixture-only value shapes as upstream support.
pub fn gerbil_scheme_backed_binding_catalog() -> (catalog: GerbilSchemeBackedBindingCatalogReceipt)
    ensures
        catalog.upstream_crate@ == "gerbil-scheme"@,
        seq_views(catalog.backed_shape_selectors@) == backed_shape_selectors(),
        seq_views(catalog.fixture_only_value_families@) == seq![
            "null-sentinel"@,
            "f64"@,
            "vector"@,
            "record"@,
        ],
{
    let selectors = vec![
        "gerbil_scheme_rust_i64_shape".to_owned(),
        "gerbil_scheme_rust_bool_shape".to_owned(),
        "gerbil_scheme_rust_comparison_shape".to_owned(),
        "gerbil_scheme_rust_utf8_shape".to_owned(),
        "gerbil_scheme_rust_value_handle_shape".to_owned(),
        "gerbil_scheme_rust_value_is_pair".to_owned(),
        "gerbil_scheme_rust_value_is_list".to_owned(),
        "gerbil_scheme_rust_value_is_null".to_owned(),
        "gerbil_scheme_rust_pair_car".to_owned(),
        "gerbil_scheme_rust_pair_cdr".to_owned(),
        "gerbil_scheme_rust_pair_parts".to_owned(),
        "gerbil_scheme_rust_i64_callback_shape".to_owned(),
        "gerbil_scheme_rust_native_value_shape".to_owned(),
        "gerbil_scheme_rust_native_error_shape".to_owned(),
        "gerbil_scheme_rust_native_result_shape".to_owned(),
    ];
    let families = vec![
        "null-sentinel".to_owned(),
        "f64".to_owned(),
        "vector".to_owned(),
        "record".to_owned(),
    ];
    assert(seq_views(selectors@) =~= backed_shape_selectors());
    assert(seq_views(families@) =~= seq!["null-sentinel"@, "f64"@, "vector"@, "record"@]);
    GerbilSchemeBackedBindingCatalogReceipt {
        upstream_crate: "gerbil-scheme".to_owned(),
        backed_shape_selectors: selectors,
        fixture_only_value_families: families,
    }
}

} // verus!
