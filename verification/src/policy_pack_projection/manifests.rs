//! Shapes shared by the single-type manifests of the policy-pack projections.

use vstd::prelude::*;

use crate::scheme_types::ids::{
    GerbilSchemeFieldName, GerbilSchemePackageId, GerbilSchemeSchemaId, GerbilSchemeTypeId,
};
use crate::scheme_types::manifest::{
    GerbilSchemeTypeFieldSpec, GerbilSchemeTypeManifest, GerbilSchemeTypeSpec,
};
use crate::scheme_types::package::GerbilSchemePackageManifest;
use crate::scheme_types::projection::GerbilSchemeProjectionContract;

verus! {

/// Name, type id and element type id of each field.
pub open spec fn field_shapes(fields: Seq<GerbilSchemeTypeFieldSpec>) -> Seq<
    (Seq<char>, Seq<char>, Option<Seq<char>>),
> {
    fields.map_values(
        |f: GerbilSchemeTypeFieldSpec|
            (
                f.name@,
                f.type_id@,
                match f.element_type_id {
                    Some(e) => Some(e@),
                    None => None,
                },
            ),
    )
}

/// Every field is required and carries no description.
pub open spec fn all_required(fields: Seq<GerbilSchemeTypeFieldSpec>) -> bool {
    forall|i: int| 0 <= i < fields.len() ==> #[trigger] fields[i].required && fields[i].description is None
}

/// `contract` binds the type `type_id` with the schema `schema_id`.
pub open spec fn is_contract_for(
    contract: GerbilSchemeProjectionContract,
    type_id: Seq<char>,
    schema_id: Seq<char>,
) -> bool {
    &&& contract.type_id@ == type_id
    &&& contract.schema_id is Some
    &&& contract.schema_id->Some_0@ == schema_id
}

/// `manifest` declares exactly one type, `type_id` with schema `schema_id`,
/// whose required fields have the given shapes.
pub open spec fn is_single_type_manifest(
    manifest: GerbilSchemeTypeManifest,
    type_id: Seq<char>,
    schema_id: Seq<char>,
    shapes: Seq<(Seq<char>, Seq<char>, Option<Seq<char>>)>,
) -> bool {
    &&& manifest.schema_id@ == "marlin.scheme-types.manifest.v1"@
    &&& manifest.types@.len() == 1
    &&& manifest.types@[0].type_id@ == type_id
    &&& manifest.types@[0].schema_id is Some
    &&& manifest.types@[0].schema_id->Some_0@ == schema_id
    &&& field_shapes(manifest.types@[0].fields@) == shapes
    &&& all_required(manifest.types@[0].fields@)
}

/// `manifest` is the package `package_id` of one typed projection.
pub open spec fn is_single_contract_package(
    manifest: GerbilSchemePackageManifest,
    package_id: Seq<char>,
    type_id: Seq<char>,
    schema_id: Seq<char>,
    shapes: Seq<(Seq<char>, Seq<char>, Option<Seq<char>>)>,
) -> bool {
    &&& manifest.schema_id@ == "marlin.scheme-package.manifest.v1"@
    &&& manifest.package_id@ == package_id
    &&& is_single_type_manifest(manifest.type_manifest, type_id, schema_id, shapes)
    &&& manifest.projection_contracts@.len() == 1
    &&& is_contract_for(manifest.projection_contracts@[0], type_id, schema_id)
    &&& manifest.native_abi is None
}

/// A required field without description.
pub fn required_field(name: &str, type_id: &str, element_type_id: Option<&str>) -> (field:
    GerbilSchemeTypeFieldSpec)
    ensures
        field.name@ == name@,
        field.type_id@ == type_id@,
        match element_type_id {
            Some(e) => field.element_type_id is Some && field.element_type_id->Some_0@ == e@,
            None => field.element_type_id is None,
        },
        field.required,
        field.description is None,
{
    let element = match element_type_id {
        Some(e) => Some(GerbilSchemeTypeId::new(e)),
        None => None,
    };
    GerbilSchemeTypeFieldSpec {
        name: GerbilSchemeFieldName::new(name),
        type_id: GerbilSchemeTypeId::new(type_id),
        element_type_id: element,
        required: true,
        description: None,
    }
}

/// The projection contract for `type_id` with schema `schema_id`.
pub fn typed_contract(type_id: &str, schema_id: &str) -> (contract: GerbilSchemeProjectionContract)
    ensures
        is_contract_for(contract, type_id@, schema_id@),
{
    GerbilSchemeProjectionContract::new(GerbilSchemeTypeId::new(type_id)).with_schema_id(
        GerbilSchemeSchemaId::new(schema_id),
    )
}

/// A manifest of the one type `type_id` with the given fields.
pub fn single_type_manifest(type_id: &str, schema_id: &str, fields: Vec<GerbilSchemeTypeFieldSpec>) -> (manifest:
    GerbilSchemeTypeManifest)
    requires
        all_required(fields@),
    ensures
        is_single_type_manifest(manifest, type_id@, schema_id@, field_shapes(fields@)),
{
    let spec = GerbilSchemeTypeSpec {
        type_id: GerbilSchemeTypeId::new(type_id),
        schema_id: Some(GerbilSchemeSchemaId::new(schema_id)),
        fields,
    };
    GerbilSchemeTypeManifest {
        schema_id: GerbilSchemeSchemaId::new("marlin.scheme-types.manifest.v1"),
        types: vec![spec],
    }
}

/// The package `package_id` holding one type manifest and its contract.
pub fn single_contract_package(
    package_id: &str,
    type_manifest: GerbilSchemeTypeManifest,
    contract: GerbilSchemeProjectionContract,
) -> (manifest: GerbilSchemePackageManifest)
    ensures
        manifest.schema_id@ == "marlin.scheme-package.manifest.v1"@,
        manifest.package_id@ == package_id@,
        manifest.type_manifest == type_manifest,
        manifest.projection_contracts@ == seq![contract],
        manifest.native_abi is None,
{
    let contracts = vec![contract];
    GerbilSchemePackageManifest::new(GerbilSchemePackageId::new(package_id), type_manifest)
        .with_projection_contracts(contracts)
}

} // verus!
