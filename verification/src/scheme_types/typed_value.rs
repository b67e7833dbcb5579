//! Typed Scheme values: a value with the Scheme type, and optionally the
//! schema, it claims to have.

use vstd::prelude::*;

use super::error::GerbilSchemeTypeDecodeError;
use super::ids::{GerbilSchemeSchemaId, GerbilSchemeTypeId};
use super::manifest::{
    GerbilSchemeTypeManifest, GerbilSchemeTypeSpec, GerbilSchemeTypedValueValidationReceipt,
    type_ids,
};
use super::projection::GerbilSchemeProjectionContract;
use super::registry::GerbilSchemeTypeRegistry;
use super::value::GerbilSchemeValue;
use crate::text::first_position;

verus! {

/// Stable envelope for Scheme values whose concrete Rust projection may evolve downstream.
#[derive(Debug, PartialEq, Eq)]
pub struct GerbilSchemeTypedValue {
    pub type_id: GerbilSchemeTypeId,
    pub schema_id: Option<GerbilSchemeSchemaId>,
    pub value: GerbilSchemeValue,
}

/// The text of an optional schema id.
pub open spec fn schema_view(schema_id: Option<GerbilSchemeSchemaId>) -> Option<Seq<char>> {
    match schema_id {
        Some(s) => Some(s@),
        None => None,
    }
}

/// A copy of an optional schema id.
pub fn copy_schema_id(schema_id: &Option<GerbilSchemeSchemaId>) -> (copy: Option<GerbilSchemeSchemaId>)
    ensures
        copy == *schema_id,
{
    match schema_id {
        Some(s) => Some(s.clone()),
        None => None,
    }
}

/// Error of a typed value whose schema is not the one `expected`.
pub open spec fn schema_mismatch(
    type_id: GerbilSchemeTypeId,
    expected: GerbilSchemeSchemaId,
    actual: Option<GerbilSchemeSchemaId>,
) -> GerbilSchemeTypeDecodeError {
    GerbilSchemeTypeDecodeError::SchemaMismatch { type_id, expected: Some(expected), actual }
}

impl GerbilSchemeTypedValue {
    pub fn new(type_id: GerbilSchemeTypeId, value: GerbilSchemeValue) -> (typed: Self)
        ensures
            typed.type_id == type_id,
            typed.schema_id is None,
            typed.value == value,
    {
        GerbilSchemeTypedValue { type_id, schema_id: None, value }
    }

    pub fn with_schema_id(self, schema_id: GerbilSchemeSchemaId) -> (typed: Self)
        ensures
            typed.type_id == self.type_id,
            typed.schema_id == Some(schema_id),
            typed.value == self.value,
    {
        GerbilSchemeTypedValue { type_id: self.type_id, schema_id: Some(schema_id), value: self.value }
    }

    pub fn type_id(&self) -> (type_id: &GerbilSchemeTypeId)
        ensures
            *type_id == self.type_id,
    {
        &self.type_id
    }

    pub fn schema_id(&self) -> (schema_id: Option<&GerbilSchemeSchemaId>)
        ensures
            match self.schema_id {
                Some(s) => schema_id == Some(&s),
                None => schema_id is None,
            },
    {
        match &self.schema_id {
            Some(s) => Some(s),
            None => None,
        }
    }

    pub fn value(&self) -> (value: &GerbilSchemeValue)
        ensures
            *value == self.value,
    {
        &self.value
    }

    /// Checks that the value claims the type `expected_type_id`.
    pub fn ensure_type(&self, expected_type_id: &GerbilSchemeTypeId) -> (result: Result<
        (),
        GerbilSchemeTypeDecodeError,
    >)
        ensures
            match result {
                Ok(()) => self.type_id@ == expected_type_id@,
                Err(e) => self.type_id@ != expected_type_id@ && e
                    == (GerbilSchemeTypeDecodeError::TypeMismatch {
                    expected: *expected_type_id,
                    actual: self.type_id,
                }),
            },
    {
        if self.type_id == *expected_type_id {
            return Ok(());
        }
        Err(
            GerbilSchemeTypeDecodeError::TypeMismatch {
                expected: expected_type_id.clone(),
                actual: self.type_id.clone(),
            },
        )
    }

    /// Checks that the value claims the schema `expected_schema_id`.
    pub fn ensure_schema(&self, expected_schema_id: &GerbilSchemeSchemaId) -> (result: Result<
        (),
        GerbilSchemeTypeDecodeError,
    >)
        ensures
            match result {
                Ok(()) => schema_view(self.schema_id) == Some(expected_schema_id@),
                Err(e) => schema_view(self.schema_id) != Some(expected_schema_id@) && e
                    == schema_mismatch(self.type_id, *expected_schema_id, self.schema_id),
            },
    {
        if let Some(actual) = &self.schema_id {
            if *actual == *expected_schema_id {
                return Ok(());
            }
        }
        Err(
            GerbilSchemeTypeDecodeError::SchemaMismatch {
                type_id: self.type_id.clone(),
                expected: Some(expected_schema_id.clone()),
                actual: copy_schema_id(&self.schema_id),
            },
        )
    }

    /// Checks the claimed type, then the claimed schema when one is expected.
    pub fn ensure_type_and_schema(
        &self,
        expected_type_id: &GerbilSchemeTypeId,
        expected_schema_id: Option<&GerbilSchemeSchemaId>,
    ) -> (result: Result<(), GerbilSchemeTypeDecodeError>)
        ensures
            match result {
                Ok(()) => self.type_id@ == expected_type_id@ && match expected_schema_id {
                    Some(s) => schema_view(self.schema_id) == Some(s@),
                    None => true,
                },
                Err(e) => if self.type_id@ != expected_type_id@ {
                    e == (GerbilSchemeTypeDecodeError::TypeMismatch {
                        expected: *expected_type_id,
                        actual: self.type_id,
                    })
                } else {
                    expected_schema_id matches Some(s) && schema_view(self.schema_id) != Some(
                        s@,
                    ) && e == schema_mismatch(self.type_id, *s, self.schema_id)
                },
            },
    {
        self.ensure_type(expected_type_id)?;
        if let Some(expected) = expected_schema_id {
            self.ensure_schema(expected)?;
        }
        Ok(())
    }

    /// Checks the value against a projection contract's type and schema.
    pub fn ensure_projection_contract(&self, contract: &GerbilSchemeProjectionContract) -> (result:
        Result<(), GerbilSchemeTypeDecodeError>)
        ensures
            match result {
                Ok(()) => self.type_id@ == contract.type_id@ && match contract.schema_id {
                    Some(s) => schema_view(self.schema_id) == Some(s@),
                    None => true,
                },
                Err(e) => if self.type_id@ != contract.type_id@ {
                    e == (GerbilSchemeTypeDecodeError::TypeMismatch {
                        expected: contract.type_id,
                        actual: self.type_id,
                    })
                } else {
                    contract.schema_id matches Some(s) && schema_view(self.schema_id) != Some(s@)
                        && e == schema_mismatch(self.type_id, s, self.schema_id)
                },
            },
    {
        self.ensure_type_and_schema(contract.type_id(), contract.schema_id())
    }
}

/// Validation of a typed value against the type its id resolves to (if any):
/// an unknown type, then a schema other than the type's declared one.
pub open spec fn typed_value_validation(
    spec: Option<GerbilSchemeTypeSpec>,
    typed: GerbilSchemeTypedValue,
) -> Result<GerbilSchemeTypedValueValidationReceipt, GerbilSchemeTypeDecodeError> {
    match spec {
        None => Err(GerbilSchemeTypeDecodeError::UnknownType { type_id: typed.type_id }),
        Some(spec) => match spec.schema_id {
            Some(expected) => if schema_view(typed.schema_id) != Some(expected@) {
                Err(schema_mismatch(spec.type_id, expected, typed.schema_id))
            } else {
                Ok(
                    GerbilSchemeTypedValueValidationReceipt {
                        type_id: spec.type_id,
                        schema_id: typed.schema_id,
                        declared_field_count: spec.fields@.len() as usize,
                    },
                )
            },
            None => Ok(
                GerbilSchemeTypedValueValidationReceipt {
                    type_id: spec.type_id,
                    schema_id: typed.schema_id,
                    declared_field_count: spec.fields@.len() as usize,
                },
            ),
        },
    }
}

/// The type a manifest resolves `type_id` to.
pub open spec fn resolved_type(manifest: GerbilSchemeTypeManifest, type_id: Seq<char>) -> Option<
    GerbilSchemeTypeSpec,
> {
    match first_position(type_ids(manifest.types@), type_id) {
        Some(i) => Some(manifest.types@[i]),
        None => None,
    }
}

/// Validates a typed value against the type it resolves to.
fn validate_against(spec: Option<&GerbilSchemeTypeSpec>, typed_value: &GerbilSchemeTypedValue) -> (result:
    Result<GerbilSchemeTypedValueValidationReceipt, GerbilSchemeTypeDecodeError>)
    ensures
        result == typed_value_validation(
            match spec {
                Some(s) => Some(*s),
                None => None,
            },
            *typed_value,
        ),
{
    let spec = match spec {
        Some(spec) => spec,
        None => {
            return Err(
                GerbilSchemeTypeDecodeError::UnknownType { type_id: typed_value.type_id.clone() },
            );
        },
    };
    if let Some(expected) = &spec.schema_id {
        let matches = match &typed_value.schema_id {
            Some(actual) => *actual == *expected,
            None => false,
        };
        if !matches {
            return Err(
                GerbilSchemeTypeDecodeError::SchemaMismatch {
                    type_id: spec.type_id.clone(),
                    expected: Some(expected.clone()),
                    actual: copy_schema_id(&typed_value.schema_id),
                },
            );
        }
    }
    Ok(
        GerbilSchemeTypedValueValidationReceipt {
            type_id: spec.type_id.clone(),
            schema_id: copy_schema_id(&typed_value.schema_id),
            declared_field_count: spec.fields.len(),
        },
    )
}

/// Validate a typed Scheme value against a manifest.
pub fn validate_gerbil_scheme_typed_value(
    manifest: &GerbilSchemeTypeManifest,
    typed_value: &GerbilSchemeTypedValue,
) -> (result: Result<GerbilSchemeTypedValueValidationReceipt, GerbilSchemeTypeDecodeError>)
    ensures
        result == typed_value_validation(resolved_type(*manifest, typed_value.type_id@), *typed_value),
{
    validate_against(manifest.type_spec(&typed_value.type_id), typed_value)
}

impl GerbilSchemeTypeRegistry {
    /// Validate a typed Scheme value through this registry.
    pub fn validate_typed_value(&self, typed_value: &GerbilSchemeTypedValue) -> (result: Result<
        GerbilSchemeTypedValueValidationReceipt,
        GerbilSchemeTypeDecodeError,
    >)
        ensures
            result == typed_value_validation(
                resolved_type(self.backing_manifest(), typed_value.type_id@),
                *typed_value,
            ),
    {
        validate_against(self.type_spec(&typed_value.type_id), typed_value)
    }
}

/// Law: a typed value validates against a manifest exactly when its type id
/// resolves to a declared type and, where that type declares a schema id, the
/// value carries that very schema id; a value without a schema id never
/// validates against a type that declares one. The receipt names the
/// resolved type, the value's schema id and the type's field count.
pub proof fn law_typed_value_validation(
    manifest: GerbilSchemeTypeManifest,
    typed: GerbilSchemeTypedValue,
)
    ensures
        typed_value_validation(resolved_type(manifest, typed.type_id@), typed) is Ok <==> (
        resolved_type(manifest, typed.type_id@) matches Some(spec) && (spec.schema_id matches Some(
            expected,
        ) ==> typed.schema_id matches Some(actual) && actual@ == expected@)),
        typed_value_validation(resolved_type(manifest, typed.type_id@), typed) matches Ok(receipt)
            ==> resolved_type(manifest, typed.type_id@) matches Some(spec) && receipt.type_id
            == spec.type_id && receipt.schema_id == typed.schema_id
            && receipt.declared_field_count == spec.fields.len(),
        resolved_type(manifest, typed.type_id@) matches Some(spec) && spec.schema_id is Some
            && typed.schema_id is None ==> typed_value_validation(
            resolved_type(manifest, typed.type_id@),
            typed,
        ) is Err,
{
}

} // verus!

