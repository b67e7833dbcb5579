//! Optional Rust-side contracts for known `Scheme` typed value projections.

use vstd::prelude::*;

use super::ids::{GerbilSchemeSchemaId, GerbilSchemeTypeId};

verus! {

/// Type and optional schema identity expected by a Rust projection.
#[derive(Clone, Debug, PartialEq, Eq)]
pub struct GerbilSchemeProjectionContract {
    pub type_id: GerbilSchemeTypeId,
    pub schema_id: Option<GerbilSchemeSchemaId>,
}

impl GerbilSchemeProjectionContract {
    pub fn new(type_id: GerbilSchemeTypeId) -> (contract: Self)
        ensures
            contract.type_id == type_id,
            contract.schema_id is None,
    {
        GerbilSchemeProjectionContract { type_id, schema_id: None }
    }

    pub fn with_schema_id(self, schema_id: GerbilSchemeSchemaId) -> (contract: Self)
        ensures
            contract.type_id == self.type_id,
            contract.schema_id == Some(schema_id),
    {
        GerbilSchemeProjectionContract { type_id: self.type_id, schema_id: Some(schema_id) }
    }

    pub fn type_id(&self) -> (type_id: &GerbilSchemeTypeId)
        ensures
            *type_id == self.type_id,
    {
        &self.type_id
    }

    pub fn schema_id(&self) -> (schema_id: Option<&GerbilSchemeSchemaId>)
        ensures
            match self.schema_id {
                Some(s) => schema_id == Some(&s),
                None => schema_id is None,
            },
    {
        match &self.schema_id {
            Some(s) => Some(s),
            None => None,
        }
    }
}

/// Static contract for Rust projections that intentionally bind to a Scheme type.
///
/// Dynamic Scheme capabilities need not implement it; a projection implements
/// it when it is meant to reject the wrong Scheme type or schema before its
/// payload is decoded.
pub trait GerbilSchemeTypedProjection {
    fn scheme_projection_contract() -> GerbilSchemeProjectionContract;
}

} // verus!
