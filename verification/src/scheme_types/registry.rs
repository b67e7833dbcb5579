//! Prevalidated `Scheme` type registry for hot-path projections.

use vstd::prelude::*;

use super::error::GerbilSchemeTypeDecodeError;
use super::ids::GerbilSchemeTypeId;
use super::manifest::{
    GerbilSchemeTypeManifest, GerbilSchemeTypeManifestValidationReceipt, GerbilSchemeTypeSpec,
    total_field_count, type_ids,
};
use super::validation::{manifest_validation_error, validate_gerbil_scheme_type_manifest};
use crate::text::first_position;

verus! {

/// Prevalidated Scheme type registry for hot-path value validation and projection.
#[derive(Debug, PartialEq, Eq)]
pub struct GerbilSchemeTypeRegistry {
    manifest: GerbilSchemeTypeManifest,
    validation_receipt: GerbilSchemeTypeManifestValidationReceipt,
}

impl GerbilSchemeTypeRegistry {
    /// The manifest backing this registry.
    pub closed spec fn backing_manifest(&self) -> GerbilSchemeTypeManifest {
        self.manifest
    }

    /// The receipt captured when the registry was built.
    pub closed spec fn backing_receipt(&self) -> GerbilSchemeTypeManifestValidationReceipt {
        self.validation_receipt
    }

    /// A registry only ever holds a manifest that passed validation, with its receipt.
    #[verifier::type_invariant]
    closed spec fn registry_invariant(&self) -> bool {
        &&& manifest_validation_error(self.manifest) is None
        &&& self.validation_receipt.schema_id == self.manifest.schema_id
        &&& self.validation_receipt.type_count == self.manifest.types@.len()
        &&& self.validation_receipt.field_count == total_field_count(self.manifest.types@)
    }

    /// Build a registry from a structurally validated `Gerbil` Scheme manifest.
    pub fn new(manifest: GerbilSchemeTypeManifest) -> (registry: Result<
        Self,
        GerbilSchemeTypeDecodeError,
    >)
        requires
            total_field_count(manifest.types@) <= usize::MAX,
        ensures
            match registry {
                Ok(r) => manifest_validation_error(manifest) is None && r.backing_manifest()
                    == manifest && r.backing_receipt().schema_id == manifest.schema_id
                    && r.backing_receipt().type_count == manifest.types@.len()
                    && r.backing_receipt().field_count == total_field_count(manifest.types@),
                Err(e) => manifest_validation_error(manifest) == Some(e),
            },
    {
        let validation_receipt = match validate_gerbil_scheme_type_manifest(&manifest) {
            Ok(r) => r,
            Err(e) => return Err(e),
        };
        Ok(GerbilSchemeTypeRegistry { manifest, validation_receipt })
    }

    /// Return the manifest backing this registry.
    pub fn manifest(&self) -> (manifest: &GerbilSchemeTypeManifest)
        ensures
            *manifest == self.backing_manifest(),
            manifest_validation_error(*manifest) is None,
    {
        proof {
            use_type_invariant(self);
        }
        &self.manifest
    }

    /// Return the validation receipt captured when the registry was built.
    pub fn validation_receipt(&self) -> (receipt: &GerbilSchemeTypeManifestValidationReceipt)
        ensures
            *receipt == self.backing_receipt(),
            receipt.schema_id == self.backing_manifest().schema_id,
            receipt.type_count == self.backing_manifest().types@.len(),
            receipt.field_count == total_field_count(self.backing_manifest().types@),
    {
        proof {
            use_type_invariant(self);
        }
        &self.validation_receipt
    }

    /// Resolve a Scheme type descriptor by stable type id.
    pub fn type_spec(&self, type_id: &GerbilSchemeTypeId) -> (found: Option<&GerbilSchemeTypeSpec>)
        ensures
            match first_position(type_ids(self.backing_manifest().types@), type_id@) {
                Some(i) => found == Some(&self.backing_manifest().types@[i]),
                None => found is None,
            },
    {
        self.manifest.type_spec(type_id)
    }
}

} // verus!
