use marlin_gerbil_scheme::scheme_types::{
    GerbilSchemeFieldName, GerbilSchemeSchemaId, GerbilSchemeTypeDecodeError,
    GerbilSchemeTypeFieldSpec, GerbilSchemeTypeId, GerbilSchemeTypeManifest, GerbilSchemeTypeRegistry,
    GerbilSchemeTypeSpec, validate_gerbil_scheme_type_manifest,
};

fn field(name: &str, type_id: &str, element: Option<&str>) -> GerbilSchemeTypeFieldSpec {
    GerbilSchemeTypeFieldSpec {
        name: GerbilSchemeFieldName::new(name),
        type_id: GerbilSchemeTypeId::new(type_id),
        element_type_id: element.map(GerbilSchemeTypeId::new),
        required: true,
        description: None,
    }
}

fn spec(type_id: &str, fields: Vec<GerbilSchemeTypeFieldSpec>) -> GerbilSchemeTypeSpec {
    GerbilSchemeTypeSpec { type_id: GerbilSchemeTypeId::new(type_id), schema_id: None, fields }
}

fn manifest(types: Vec<GerbilSchemeTypeSpec>) -> GerbilSchemeTypeManifest {
    GerbilSchemeTypeManifest { schema_id: GerbilSchemeSchemaId::new("marlin.scheme-types.manifest.v1"), types }
}

fn good_manifest() -> GerbilSchemeTypeManifest {
    manifest(vec![
        spec("point", vec![field("x", "integer", None), field("y", "integer", None)]),
        spec("path", vec![field("points", "array", Some("point")), field("name", "string", None)]),
    ])
}

#[test]
fn valid_manifest_counts_types_and_fields() {
    let receipt = validate_gerbil_scheme_type_manifest(&good_manifest()).unwrap();
    assert_eq!(receipt.type_count, 2);
    assert_eq!(receipt.field_count, 4);
    assert_eq!(good_manifest().validate().unwrap(), receipt);
}

#[test]
fn repeated_type_and_field_are_refused() {
    let repeated = manifest(vec![spec("point", vec![]), spec("point", vec![])]);
    let error = validate_gerbil_scheme_type_manifest(&repeated).unwrap_err();
    assert_eq!(error, GerbilSchemeTypeDecodeError::DuplicateType { type_id: GerbilSchemeTypeId::new("point") });
    assert_eq!(error.message(), "Scheme type manifest repeats type_id point");
    let repeated = manifest(vec![spec("point", vec![field("x", "integer", None), field("x", "string", None)])]);
    let error = repeated.validate().unwrap_err();
    assert_eq!(error.message(), "Scheme type point repeats field x");
}

#[test]
fn unknown_and_misplaced_types_are_refused() {
    let unknown = manifest(vec![spec("path", vec![field("points", "array", Some("pointz"))])]);
    let error = validate_gerbil_scheme_type_manifest(&unknown).unwrap_err();
    assert_eq!(error.message(), "Scheme type path field points references unknown type_id pointz");
    assert!(unknown.validate().is_ok());
    let misplaced = manifest(vec![spec("path", vec![field("name", "string", Some("string"))])]);
    let error = validate_gerbil_scheme_type_manifest(&misplaced).unwrap_err();
    assert_eq!(
        error.message(),
        "Scheme type path field name declares an element type but has type_id string"
    );
}

#[test]
fn registry_resolves_declared_types() {
    let registry = GerbilSchemeTypeRegistry::new(good_manifest()).unwrap();
    let found = registry.type_spec(&GerbilSchemeTypeId::new("path")).unwrap();
    assert_eq!(found.fields.len(), 2);
    assert!(registry.type_spec(&GerbilSchemeTypeId::new("circle")).is_none());
    assert_eq!(registry.validation_receipt().field_count, 4);
    assert!(GerbilSchemeTypeRegistry::new(manifest(vec![spec("a", vec![]), spec("a", vec![])])).is_err());
}

use marlin_gerbil_scheme::scheme_types::{
    GerbilSchemeTypedValue, GerbilSchemeValue, validate_gerbil_scheme_typed_value,
};

#[test]
fn records_sort_their_keys_and_keep_the_last_value() {
    let record = GerbilSchemeValue::record(vec![
        ("b".to_owned(), GerbilSchemeValue::integer(1)),
        ("a".to_owned(), GerbilSchemeValue::text("x")),
        ("b".to_owned(), GerbilSchemeValue::boolean(false)),
    ]);
    let members = record.as_record().unwrap();
    assert_eq!(members.len(), 2);
    assert_eq!(members[0].0, "a");
    assert_eq!(members[1].0, "b");
    assert_eq!(record.get("b"), Some(&GerbilSchemeValue::boolean(false)));
    assert_eq!(record.get("c"), None);
    assert!(record.is_record());
    assert!(GerbilSchemeValue::empty_record().as_record().unwrap().is_empty());
}

#[test]
fn value_predicates_and_accessors_agree() {
    let vector = GerbilSchemeValue::vector(vec![GerbilSchemeValue::integer(5), GerbilSchemeValue::null()]);
    assert!(vector.is_vector());
    assert_eq!(vector.get_index(0), Some(&GerbilSchemeValue::integer(5)));
    assert_eq!(vector.get_index(2), None);
    assert_eq!(vector.as_vector().map(|v| v.len()), Some(2));
    assert!(GerbilSchemeValue::null().is_null());
    assert!(GerbilSchemeValue::integer(3).is_number());
    assert!(GerbilSchemeValue::float_bits(0).is_number());
    assert!(!GerbilSchemeValue::float_bits(0).is_integer());
    assert_eq!(GerbilSchemeValue::integer(-4).as_integer(), Some(-4));
    assert_eq!(GerbilSchemeValue::boolean(true).as_bool(), Some(true));
    assert_eq!(GerbilSchemeValue::text("t").as_text(), Some("t"));
    assert_eq!(GerbilSchemeValue::text("t").as_integer(), None);
    assert_eq!(GerbilSchemeValue::integer(1).get("a"), None);
}

#[test]
fn typed_values_check_type_and_schema() {
    let typed = GerbilSchemeTypedValue::new(GerbilSchemeTypeId::new("point"), GerbilSchemeValue::null())
        .with_schema_id(GerbilSchemeSchemaId::new("s.v1"));
    assert_eq!(typed.type_id().as_str(), "point");
    assert_eq!(typed.schema_id().map(|s| s.as_str()), Some("s.v1"));
    assert!(typed.ensure_type(&GerbilSchemeTypeId::new("point")).is_ok());
    assert_eq!(
        typed.ensure_type(&GerbilSchemeTypeId::new("path")),
        Err(GerbilSchemeTypeDecodeError::TypeMismatch {
            expected: GerbilSchemeTypeId::new("path"),
            actual: GerbilSchemeTypeId::new("point"),
        })
    );
    assert!(typed.ensure_schema(&GerbilSchemeSchemaId::new("s.v1")).is_ok());
    assert!(typed.ensure_schema(&GerbilSchemeSchemaId::new("s.v2")).is_err());
    assert!(typed
        .ensure_type_and_schema(&GerbilSchemeTypeId::new("point"), Some(&GerbilSchemeSchemaId::new("s.v1")))
        .is_ok());

    let receipt = validate_gerbil_scheme_typed_value(&good_manifest(), &typed).unwrap();
    assert_eq!(receipt.type_id.as_str(), "point");
    assert_eq!(receipt.declared_field_count, 2);
    let registry = GerbilSchemeTypeRegistry::new(good_manifest()).unwrap();
    assert_eq!(registry.validate_typed_value(&typed), Ok(receipt));

    let unknown = GerbilSchemeTypedValue::new(GerbilSchemeTypeId::new("line"), GerbilSchemeValue::null());
    assert_eq!(
        validate_gerbil_scheme_typed_value(&good_manifest(), &unknown),
        Err(GerbilSchemeTypeDecodeError::UnknownType { type_id: GerbilSchemeTypeId::new("line") })
    );
    let schema_bound = manifest(vec![GerbilSchemeTypeSpec {
        type_id: GerbilSchemeTypeId::new("point"),
        schema_id: Some(GerbilSchemeSchemaId::new("s.v2")),
        fields: vec![],
    }]);
    let error = validate_gerbil_scheme_typed_value(&schema_bound, &typed).unwrap_err();
    assert!(matches!(error, GerbilSchemeTypeDecodeError::SchemaMismatch { .. }));
}

use marlin_gerbil_scheme::scheme_types::{
    GerbilSchemeNativeAbiId, GerbilSchemeNativeAbiReadinessPlan, GerbilSchemeNativeProjectionRequest,
    GerbilSchemeNativeProjectionStatus, GerbilSchemeNativeSymbol, GerbilSchemeProjectionContract,
    validate_gerbil_scheme_native_projection,
};

#[test]
fn native_projection_needs_a_serving_plan_and_a_matching_value() {
    let plan = GerbilSchemeNativeAbiReadinessPlan::new(GerbilSchemeNativeAbiId::new("abi"), 2)
        .with_exported_symbols(vec![GerbilSchemeNativeSymbol::new("project_point")]);
    let request = GerbilSchemeNativeProjectionRequest::new(
        GerbilSchemeNativeAbiId::new("abi"),
        2,
        GerbilSchemeNativeSymbol::new("project_point"),
        GerbilSchemeProjectionContract::new(GerbilSchemeTypeId::new("point")),
    );
    let typed = GerbilSchemeTypedValue::new(GerbilSchemeTypeId::new("point"), GerbilSchemeValue::null());
    let receipt = validate_gerbil_scheme_native_projection(&plan, &request, &typed).unwrap();
    assert_eq!(receipt.status, GerbilSchemeNativeProjectionStatus::Projected);
    assert_eq!(receipt.abi_version, 2);
    assert_eq!(receipt.type_id.as_str(), "point");

    let other_abi = GerbilSchemeNativeAbiReadinessPlan::new(GerbilSchemeNativeAbiId::new("other"), 2);
    assert_eq!(
        validate_gerbil_scheme_native_projection(&other_abi, &request, &typed),
        Err(GerbilSchemeTypeDecodeError::NativeAbiMismatch {
            expected: GerbilSchemeNativeAbiId::new("abi"),
            actual: GerbilSchemeNativeAbiId::new("other"),
        })
    );
    let old = GerbilSchemeNativeAbiReadinessPlan::new(GerbilSchemeNativeAbiId::new("abi"), 1);
    assert_eq!(
        validate_gerbil_scheme_native_projection(&old, &request, &typed),
        Err(GerbilSchemeTypeDecodeError::NativeAbiVersionMismatch {
            abi_id: GerbilSchemeNativeAbiId::new("abi"),
            expected: 2,
            actual: 1,
        })
    );
    let bare = GerbilSchemeNativeAbiReadinessPlan::new(GerbilSchemeNativeAbiId::new("abi"), 2);
    assert_eq!(
        validate_gerbil_scheme_native_projection(&bare, &request, &typed),
        Err(GerbilSchemeTypeDecodeError::MissingNativeSymbol {
            symbol: GerbilSchemeNativeSymbol::new("project_point"),
        })
    );
    let path = GerbilSchemeTypedValue::new(GerbilSchemeTypeId::new("path"), GerbilSchemeValue::null());
    assert_eq!(
        validate_gerbil_scheme_native_projection(&plan, &request, &path),
        Err(GerbilSchemeTypeDecodeError::TypeMismatch {
            expected: GerbilSchemeTypeId::new("point"),
            actual: GerbilSchemeTypeId::new("path"),
        })
    );
}
