//! Properties of type manifests that pass validation.

use vstd::prelude::*;

use super::manifest::{
    GerbilSchemeTypeFieldSpec, GerbilSchemeTypeManifest, GerbilSchemeTypeSpec, duplicate_error,
    lemma_first_repeat_facts, type_ids,
};
use super::ids::GerbilSchemeTypeId;
use super::manifest::first_repeat;
use super::package::{
    GerbilSchemePackageManifest, contract_key, contracts_error,
    package_validation_error,
};
use super::projection::GerbilSchemeProjectionContract;
use super::validation::{
    fields_reference_error, is_known_type, manifest_validation_error, types_reference_error,
};
use crate::text::{first_position, lemma_first_position, seq_views};

verus! {

proof fn lemma_types_each_ok(types: Seq<GerbilSchemeTypeSpec>, declared: Seq<Seq<char>>, i: int)
    requires
        types_reference_error(types, declared) is None,
        0 <= i < types.len(),
    ensures
        fields_reference_error(types[i].type_id, types[i].fields@, declared) is None,
    decreases types.len(),
{
    if i < types.len() - 1 {
        assert(types.drop_last()[i] == types[i]);
        lemma_types_each_ok(types.drop_last(), declared, i);
    }
}

proof fn lemma_fields_each_ok(
    owner: GerbilSchemeTypeId,
    fields: Seq<GerbilSchemeTypeFieldSpec>,
    declared: Seq<Seq<char>>,
    j: int,
)
    requires
        fields_reference_error(owner, fields, declared) is None,
        0 <= j < fields.len(),
    ensures
        is_known_type(fields[j].type_id@, declared),
        fields[j].element_type_id matches Some(e) ==> fields[j].type_id@ == "array"@
            && is_known_type(e@, declared),
    decreases fields.len(),
{
    if j < fields.len() - 1 {
        assert(fields.drop_last()[j] == fields[j]);
        lemma_fields_each_ok(owner, fields.drop_last(), declared, j);
    }
}

/// A manifest that passes validation passes the structural check: no type id
/// repeats, and no field name repeats within a type.
pub proof fn law_validated_manifest_has_no_duplicates(manifest: GerbilSchemeTypeManifest)
    requires
        manifest_validation_error(manifest) is None,
    ensures
        duplicate_error(manifest) is None,
        forall|i: int, j: int|
            0 <= j < i < manifest.types@.len() ==> manifest.types@[j].type_id@
                != manifest.types@[i].type_id@,
{
    let ids = type_ids(manifest.types@);
    lemma_first_repeat_facts(ids);
    assert forall|i: int, j: int| 0 <= j < i < manifest.types@.len() implies manifest.types@[j].type_id@
        != manifest.types@[i].type_id@ by {
        assert(ids[j] == manifest.types@[j].type_id@);
        assert(ids[i] == manifest.types@[i].type_id@);
    }
}

/// In a manifest that passes validation, every declared type is what its own
/// type id resolves to.
pub proof fn law_validated_types_resolve(manifest: GerbilSchemeTypeManifest, i: int)
    requires
        manifest_validation_error(manifest) is None,
        0 <= i < manifest.types@.len(),
    ensures
        first_position(type_ids(manifest.types@), manifest.types@[i].type_id@) == Some(i),
{
    let ids = type_ids(manifest.types@);
    lemma_first_repeat_facts(ids);
    assert(ids[i] == manifest.types@[i].type_id@);
    lemma_first_position(ids, ids[i], i);
}

/// Every field of a manifest that passes validation names a builtin or a
/// declared type, and only an array field carries an element type, which is
/// itself builtin or declared.
pub proof fn law_validated_fields_are_known(manifest: GerbilSchemeTypeManifest, i: int, j: int)
    requires
        manifest_validation_error(manifest) is None,
        0 <= i < manifest.types@.len(),
        0 <= j < manifest.types@[i].fields@.len(),
    ensures
        is_known_type(manifest.types@[i].fields@[j].type_id@, type_ids(manifest.types@)),
        manifest.types@[i].fields@[j].element_type_id matches Some(e) ==> manifest.types@[i].fields@[j].type_id@
            == "array"@ && is_known_type(e@, type_ids(manifest.types@)),
{
    let declared = type_ids(manifest.types@);
    lemma_types_each_ok(manifest.types@, declared, i);
    lemma_fields_each_ok(
        manifest.types@[i].type_id,
        manifest.types@[i].fields@,
        declared,
        j,
    );
}

/// Projection contracts pass exactly when each names a declared type and no
/// two share a key.
proof fn lemma_contracts_error(
    contracts: Seq<GerbilSchemeProjectionContract>,
    declared: Seq<Seq<char>>,
)
    ensures
        contracts_error(contracts, declared) is None <==> ((forall|i: int|
            0 <= i < contracts.len() ==> declared.contains(#[trigger] contracts[i].type_id@))
            && forall|i: int, j: int|
            0 <= j < i < contracts.len() ==> contract_key(#[trigger] contracts[j]) != contract_key(
                #[trigger] contracts[i],
            )),
    decreases contracts.len(),
{
    if contracts.len() > 0 {
        let init = contracts.drop_last();
        let n = contracts.len() - 1;
        lemma_contracts_error(init, declared);
        let keys = init.map_values(|c: GerbilSchemeProjectionContract| contract_key(c));
        assert forall|i: int| 0 <= i < init.len() implies init[i] == contracts[i] by {}
        if keys.contains(contract_key(contracts.last())) {
            let j = choose|j: int| 0 <= j < keys.len() && keys[j] == contract_key(contracts.last());
            assert(contract_key(contracts[j]) == contract_key(contracts[n]));
        } else {
            assert forall|j: int| 0 <= j < n implies contract_key(contracts[j]) != contract_key(
                contracts[n],
            ) by {
                assert(keys[j] == contract_key(contracts[j]));
            }
        }
        if !declared.contains(contracts.last().type_id@) {
            assert(!declared.contains(contracts[n].type_id@));
        }
    }
}

/// A package manifest passes validation exactly when its type manifest does,
/// each projection contract names a declared type, no two contracts share a
/// type id and schema id, and a native ABI, if declared, exports at least one
/// symbol and none twice.
pub proof fn law_package_validation(manifest: GerbilSchemePackageManifest)
    ensures
        package_validation_error(manifest) is None <==> {
            &&& manifest_validation_error(manifest.type_manifest) is None
            &&& forall|i: int|
                0 <= i < manifest.projection_contracts@.len() ==> type_ids(
                    manifest.type_manifest.types@,
                ).contains(#[trigger] manifest.projection_contracts@[i].type_id@)
            &&& forall|i: int, j: int|
                0 <= j < i < manifest.projection_contracts@.len() ==> contract_key(
                    #[trigger] manifest.projection_contracts@[j],
                ) != contract_key(#[trigger] manifest.projection_contracts@[i])
            &&& match manifest.native_abi {
                Some(abi) => abi.exported_symbols@.len() > 0 && forall|i: int, j: int|
                    0 <= j < i < abi.exported_symbols@.len() ==> (#[trigger] abi.exported_symbols@[j])@
                        != (#[trigger] abi.exported_symbols@[i])@,
                None => true,
            }
        },
{
    lemma_contracts_error(manifest.projection_contracts@, type_ids(manifest.type_manifest.types@));
    if let Some(abi) = manifest.native_abi {
        let views = seq_views(abi.exported_symbols@);
        lemma_first_repeat_facts(views);
        if first_repeat(views) is Some {
            let i = first_repeat(views)->Some_0;
            let j = choose|j: int| 0 <= j < views.take(i).len() && views.take(i)[j] == views[i];
            assert(abi.exported_symbols@[j]@ == views[j]);
            assert(abi.exported_symbols@[i]@ == views[i]);
        } else {
            assert forall|i: int, j: int|
                0 <= j < i < abi.exported_symbols@.len() implies (#[trigger] abi.exported_symbols@[j])@
                    != (#[trigger] abi.exported_symbols@[i])@ by {
                assert(abi.exported_symbols@[j]@ == views[j]);
                assert(abi.exported_symbols@[i]@ == views[i]);
            }
        }
    }
}

} // verus!
