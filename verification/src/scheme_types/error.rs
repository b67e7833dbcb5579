//! Decode and validation errors for `Scheme` type manifests.

use vstd::prelude::*;

use super::ids::{
    GerbilSchemeFieldName, GerbilSchemeNativeAbiId, GerbilSchemeNativeSymbol,
    GerbilSchemePackageId, GerbilSchemeSchemaId, GerbilSchemeTypeId,
};
use crate::text::{decimal_text, u64_to_text};

verus! {

/// Error raised while decoding Scheme type manifests or typed values.
#[derive(Clone, Debug, PartialEq, Eq)]
pub enum GerbilSchemeTypeDecodeError {
    Json { message: String },
    SerializedFixture { message: String },
    RustProjection { message: String },
    DuplicateType { type_id: GerbilSchemeTypeId },
    DuplicateField { type_id: GerbilSchemeTypeId, field_name: GerbilSchemeFieldName },
    UnknownFieldType {
        type_id: GerbilSchemeTypeId,
        field_name: GerbilSchemeFieldName,
        field_type_id: GerbilSchemeTypeId,
    },
    ArrayElementTypeOnNonArrayField {
        type_id: GerbilSchemeTypeId,
        field_name: GerbilSchemeFieldName,
        field_type_id: GerbilSchemeTypeId,
    },
    UnknownType { type_id: GerbilSchemeTypeId },
    ValueTypeMismatch { type_id: GerbilSchemeTypeId, expected: GerbilSchemeTypeId },
    MissingRequiredField { type_id: GerbilSchemeTypeId, field_name: GerbilSchemeFieldName },
    FieldTypeMismatch {
        type_id: GerbilSchemeTypeId,
        field_name: GerbilSchemeFieldName,
        expected: GerbilSchemeTypeId,
    },
    SchemaMismatch {
        type_id: GerbilSchemeTypeId,
        expected: Option<GerbilSchemeSchemaId>,
        actual: Option<GerbilSchemeSchemaId>,
    },
    DuplicateProjectionContract {
        type_id: GerbilSchemeTypeId,
        schema_id: Option<GerbilSchemeSchemaId>,
    },
    MissingNativeSymbols { abi_id: GerbilSchemeNativeAbiId },
    DuplicateNativeSymbol { symbol: GerbilSchemeNativeSymbol },
    MissingNativeAbi { package_id: GerbilSchemePackageId },
    NativeAbiMismatch { expected: GerbilSchemeNativeAbiId, actual: GerbilSchemeNativeAbiId },
    NativeAbiVersionMismatch { abi_id: GerbilSchemeNativeAbiId, expected: u32, actual: u32 },
    MissingNativeSymbol { symbol: GerbilSchemeNativeSymbol },
    TypeMismatch { expected: GerbilSchemeTypeId, actual: GerbilSchemeTypeId },
}

/// Label of an optional schema id: the id, or `<none>`.
pub open spec fn schema_id_label(schema_id: Option<GerbilSchemeSchemaId>) -> Seq<char> {
    match schema_id {
        Some(id) => id@,
        None => "<none>"@,
    }
}

/// Label of an optional schema id.
fn schema_id_label_text(schema_id: &Option<GerbilSchemeSchemaId>) -> (label: String)
    ensures
        label@ == schema_id_label(*schema_id),
{
    match schema_id {
        Some(id) => id.as_str().to_owned(),
        None => "<none>".to_owned(),
    }
}

/// `a` followed by `b`.
pub(crate) fn cat2(a: &str, b: &str) -> (joined: String)
    ensures
        joined@ == a@ + b@,
{
    let mut joined = a.to_owned();
    joined.append(b);
    joined
}

/// `a`, `b`, `c` and `d` in turn.
pub(crate) fn cat4(a: &str, b: &str, c: &str, d: &str) -> (joined: String)
    ensures
        joined@ == a@ + b@ + c@ + d@,
{
    let mut joined = a.to_owned();
    joined.append(b);
    joined.append(c);
    joined.append(d);
    joined
}

/// `a` to `f` in turn.
pub(crate) fn cat6(a: &str, b: &str, c: &str, d: &str, e: &str, f: &str) -> (joined: String)
    ensures
        joined@ == a@ + b@ + c@ + d@ + e@ + f@,
{
    let mut joined = a.to_owned();
    joined.append(b);
    joined.append(c);
    joined.append(d);
    joined.append(e);
    joined.append(f);
    joined
}

/// `a`, `b` and `c` in turn.
pub(crate) fn cat3(a: &str, b: &str, c: &str) -> (joined: String)
    ensures
        joined@ == a@ + b@ + c@,
{
    let mut joined = a.to_owned();
    joined.append(b);
    joined.append(c);
    joined
}

impl GerbilSchemeTypeDecodeError {
    /// The text that this error displays.
    pub open spec fn display_text(self) -> Seq<char> {
        match self {
            GerbilSchemeTypeDecodeError::Json { message } => "failed to decode Scheme type JSON: "@
                + message@,
            GerbilSchemeTypeDecodeError::SerializedFixture { message } =>
                "failed to decode serialized Scheme fixture: "@ + message@,
            GerbilSchemeTypeDecodeError::RustProjection { message } => message@,
            GerbilSchemeTypeDecodeError::DuplicateType { type_id } =>
                "Scheme type manifest repeats type_id "@ + type_id@,
            GerbilSchemeTypeDecodeError::DuplicateField { type_id, field_name } => "Scheme type "@
                + type_id@ + " repeats field "@ + field_name@,
            GerbilSchemeTypeDecodeError::UnknownFieldType { type_id, field_name, field_type_id } =>
                "Scheme type "@ + type_id@ + " field "@ + field_name@
                + " references unknown type_id "@ + field_type_id@,
            GerbilSchemeTypeDecodeError::ArrayElementTypeOnNonArrayField {
                type_id,
                field_name,
                field_type_id,
            } => "Scheme type "@ + type_id@ + " field "@ + field_name@
                + " declares an element type but has type_id "@ + field_type_id@,
            GerbilSchemeTypeDecodeError::UnknownType { type_id } =>
                "Scheme typed value has unknown type_id "@ + type_id@,
            GerbilSchemeTypeDecodeError::ValueTypeMismatch { type_id, expected } =>
                "Scheme typed value "@ + type_id@ + " payload must be "@ + expected@,
            GerbilSchemeTypeDecodeError::MissingRequiredField { type_id, field_name } =>
                "Scheme typed value "@ + type_id@ + " is missing required field "@ + field_name@,
            GerbilSchemeTypeDecodeError::FieldTypeMismatch { type_id, field_name, expected } =>
                "Scheme typed value "@ + type_id@ + " field "@ + field_name@ + " must be "@
                + expected@,
            GerbilSchemeTypeDecodeError::SchemaMismatch { type_id, expected, actual } =>
                "Scheme typed value "@ + type_id@ + " has schema_id "@ + schema_id_label(actual)
                + ", expected "@ + schema_id_label(expected),
            GerbilSchemeTypeDecodeError::DuplicateProjectionContract { type_id, schema_id } =>
                "Scheme package repeats projection contract for type_id "@ + type_id@
                + " schema_id "@ + schema_id_label(schema_id),
            GerbilSchemeTypeDecodeError::MissingNativeSymbols { abi_id } =>
                "Scheme native ABI "@ + abi_id@ + " declares no exported symbols"@,
            GerbilSchemeTypeDecodeError::DuplicateNativeSymbol { symbol } =>
                "Scheme native ABI repeats exported symbol "@ + symbol@,
            GerbilSchemeTypeDecodeError::MissingNativeAbi { package_id } => "Scheme package "@
                + package_id@ + " declares no native ABI"@,
            GerbilSchemeTypeDecodeError::NativeAbiMismatch { expected, actual } =>
                "Scheme native ABI id "@ + actual@ + ", expected "@ + expected@,
            GerbilSchemeTypeDecodeError::NativeAbiVersionMismatch { abi_id, expected, actual } =>
                "Scheme native ABI "@ + abi_id@ + " has version "@ + decimal_text(actual as nat)
                + ", expected "@ + decimal_text(expected as nat),
            GerbilSchemeTypeDecodeError::MissingNativeSymbol { symbol } =>
                "Scheme native ABI is missing exported symbol "@ + symbol@,
            GerbilSchemeTypeDecodeError::TypeMismatch { expected, actual } =>
                "Scheme typed value has type_id "@ + actual@ + ", expected "@ + expected@,
        }
    }

    /// The text that this error displays.
    pub fn message(&self) -> (text: String)
        ensures
            text@ == self.display_text(),
    {
        match self {
            GerbilSchemeTypeDecodeError::Json { message } => cat2("failed to decode Scheme type JSON: ", message.as_str()),
            GerbilSchemeTypeDecodeError::SerializedFixture { message } => cat2("failed to decode serialized Scheme fixture: ", message.as_str()),
            GerbilSchemeTypeDecodeError::RustProjection { message } => message.clone(),
            GerbilSchemeTypeDecodeError::DuplicateType { type_id } => cat2("Scheme type manifest repeats type_id ", type_id.as_str()),
            GerbilSchemeTypeDecodeError::DuplicateField { type_id, field_name } => cat4("Scheme type ", type_id.as_str(), " repeats field ", field_name.as_str()),
            GerbilSchemeTypeDecodeError::UnknownFieldType { type_id, field_name, field_type_id } =>
            cat6("Scheme type ", type_id.as_str(), " field ", field_name.as_str(), " references unknown type_id ", field_type_id.as_str()),
            GerbilSchemeTypeDecodeError::ArrayElementTypeOnNonArrayField {
                type_id,
                field_name,
                field_type_id,
            } => cat6("Scheme type ", type_id.as_str(), " field ", field_name.as_str(), " declares an element type but has type_id ", field_type_id.as_str()),
            GerbilSchemeTypeDecodeError::UnknownType { type_id } => cat2("Scheme typed value has unknown type_id ", type_id.as_str()),
            GerbilSchemeTypeDecodeError::ValueTypeMismatch { type_id, expected } => cat4("Scheme typed value ", type_id.as_str(), " payload must be ", expected.as_str()),
            GerbilSchemeTypeDecodeError::MissingRequiredField { type_id, field_name } => cat4("Scheme typed value ", type_id.as_str(), " is missing required field ", field_name.as_str()),
            GerbilSchemeTypeDecodeError::FieldTypeMismatch { type_id, field_name, expected } =>
            cat6("Scheme typed value ", type_id.as_str(), " field ", field_name.as_str(), " must be ", expected.as_str()),
            GerbilSchemeTypeDecodeError::SchemaMismatch { type_id, expected, actual } => {
                let actual_label = schema_id_label_text(actual);
                let expected_label = schema_id_label_text(expected);
                cat6("Scheme typed value ", type_id.as_str(), " has schema_id ", actual_label.as_str(), ", expected ", expected_label.as_str())
            },
            GerbilSchemeTypeDecodeError::DuplicateProjectionContract { type_id, schema_id } => {
                let label = schema_id_label_text(schema_id);
                cat4("Scheme package repeats projection contract for type_id ", type_id.as_str(), " schema_id ", label.as_str())
            },
            GerbilSchemeTypeDecodeError::MissingNativeSymbols { abi_id } => cat3("Scheme native ABI ", abi_id.as_str(), " declares no exported symbols"),
            GerbilSchemeTypeDecodeError::DuplicateNativeSymbol { symbol } => cat2("Scheme native ABI repeats exported symbol ", symbol.as_str()),
            GerbilSchemeTypeDecodeError::MissingNativeAbi { package_id } => cat3("Scheme package ", package_id.as_str(), " declares no native ABI"),
            GerbilSchemeTypeDecodeError::NativeAbiMismatch { expected, actual } => cat4("Scheme native ABI id ", actual.as_str(), ", expected ", expected.as_str()),
            GerbilSchemeTypeDecodeError::NativeAbiVersionMismatch { abi_id, expected, actual } => {
                let actual_text = u64_to_text(*actual as u64);
                let expected_text = u64_to_text(*expected as u64);
                cat6("Scheme native ABI ", abi_id.as_str(), " has version ", actual_text.as_str(), ", expected ", expected_text.as_str())
            },
            GerbilSchemeTypeDecodeError::MissingNativeSymbol { symbol } => cat2("Scheme native ABI is missing exported symbol ", symbol.as_str()),
            GerbilSchemeTypeDecodeError::TypeMismatch { expected, actual } => cat4("Scheme typed value has type_id ", actual.as_str(), ", expected ", expected.as_str()),
        }
    }
}

} // verus!
