//! Generic `Scheme` type envelopes for Rust-side projections.

pub mod error;
pub mod ids;
pub mod json_kind;
pub mod laws;
pub mod manifest;
pub mod native_projection;
pub mod package;
pub mod projection;
pub mod registry;
pub mod typed_value;
pub mod validation;
pub mod value;

pub use error::GerbilSchemeTypeDecodeError;
pub use ids::{
    GerbilSchemeFieldName, GerbilSchemeNativeAbiId, GerbilSchemeNativeSymbol,
    GerbilSchemePackageId, GerbilSchemeSchemaId, GerbilSchemeTypeId,
};
pub use manifest::{
    GerbilSchemeTypeFieldSpec, GerbilSchemeTypeManifest, GerbilSchemeTypeManifestValidationReceipt,
    GerbilSchemeTypeSpec, GerbilSchemeTypedValueValidationReceipt,
};
pub use json_kind::GerbilSchemeJsonTypeKind;
pub use projection::{GerbilSchemeProjectionContract, GerbilSchemeTypedProjection};
pub use native_projection::{
    GerbilSchemeNativeProjectionReceipt, GerbilSchemeNativeProjectionRequest,
    GerbilSchemeNativeProjectionStatus, validate_gerbil_scheme_native_projection,
};
pub use package::{
    GerbilSchemeNativeAbiContract, GerbilSchemeNativeAbiReadinessPlan, GerbilSchemePackageManifest,
    GerbilSchemePackageManifestValidationReceipt, GerbilSchemePackageNativeReadinessReceipt,
    validate_gerbil_scheme_package_manifest, validate_gerbil_scheme_package_native_readiness,
};
pub use registry::GerbilSchemeTypeRegistry;
pub use typed_value::{GerbilSchemeTypedValue, validate_gerbil_scheme_typed_value};
pub use value::GerbilSchemeValue;
pub use validation::{
    GerbilSchemeBackedBindingCatalogReceipt, gerbil_scheme_backed_binding_catalog,
    validate_gerbil_scheme_type_manifest,
};
