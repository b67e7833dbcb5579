//! Native ABI projection requests and receipts for Gerbil-built Scheme typed values.

use vstd::prelude::*;

use super::ids::{
    GerbilSchemeNativeAbiId, GerbilSchemeNativeSymbol, GerbilSchemeSchemaId, GerbilSchemeTypeId,
};
use super::error::GerbilSchemeTypeDecodeError;
use super::package::{GerbilSchemeNativeAbiReadinessPlan, holds_symbol};
use super::projection::GerbilSchemeProjectionContract;
use super::typed_value::{GerbilSchemeTypedValue, copy_schema_id, schema_mismatch, schema_view};
use crate::text::seq_views;

verus! {

/// Native ABI projection call requested by Rust.
#[derive(Clone, Debug, PartialEq, Eq)]
pub struct GerbilSchemeNativeProjectionRequest {
    pub abi_id: GerbilSchemeNativeAbiId,
    pub abi_version: u32,
    pub symbol: GerbilSchemeNativeSymbol,
    pub contract: GerbilSchemeProjectionContract,
}

impl GerbilSchemeNativeProjectionRequest {
    pub fn new(
        abi_id: GerbilSchemeNativeAbiId,
        abi_version: u32,
        symbol: GerbilSchemeNativeSymbol,
        contract: GerbilSchemeProjectionContract,
    ) -> (request: Self)
        ensures
            request.abi_id == abi_id,
            request.abi_version == abi_version,
            request.symbol == symbol,
            request.contract == contract,
    {
        GerbilSchemeNativeProjectionRequest { abi_id, abi_version, symbol, contract }
    }
}

/// Native ABI projection status after Rust validates the returned typed value.
#[derive(Clone, Copy, Debug, PartialEq, Eq, Structural)]
pub enum GerbilSchemeNativeProjectionStatus {
    Projected,
}

/// Receipt proving a native ABI symbol returned the requested typed projection.
#[derive(Clone, Debug, PartialEq, Eq)]
pub struct GerbilSchemeNativeProjectionReceipt {
    pub status: GerbilSchemeNativeProjectionStatus,
    pub abi_id: GerbilSchemeNativeAbiId,
    pub abi_version: u32,
    pub symbol: GerbilSchemeNativeSymbol,
    pub type_id: GerbilSchemeTypeId,
    pub schema_id: Option<GerbilSchemeSchemaId>,
}

/// Why a readiness plan cannot serve a projection request, if it cannot: a
/// different ABI, then a different version, then a symbol it does not export.
pub open spec fn projection_readiness_error(
    plan: GerbilSchemeNativeAbiReadinessPlan,
    request: GerbilSchemeNativeProjectionRequest,
) -> Option<GerbilSchemeTypeDecodeError> {
    if plan.abi_id@ != request.abi_id@ {
        Some(
            GerbilSchemeTypeDecodeError::NativeAbiMismatch {
                expected: request.abi_id,
                actual: plan.abi_id,
            },
        )
    } else if plan.version != request.abi_version {
        Some(
            GerbilSchemeTypeDecodeError::NativeAbiVersionMismatch {
                abi_id: request.abi_id,
                expected: request.abi_version,
                actual: plan.version,
            },
        )
    } else if !seq_views(plan.exported_symbols@).contains(request.symbol@) {
        Some(GerbilSchemeTypeDecodeError::MissingNativeSymbol { symbol: request.symbol })
    } else {
        None
    }
}

/// Validate a native ABI projection envelope before any Rust payload decode:
/// the readiness plan must serve the request, and the typed value must meet
/// the request's projection contract (type, then schema).
pub fn validate_gerbil_scheme_native_projection(
    readiness_plan: &GerbilSchemeNativeAbiReadinessPlan,
    request: &GerbilSchemeNativeProjectionRequest,
    typed_value: &GerbilSchemeTypedValue,
) -> (result: Result<GerbilSchemeNativeProjectionReceipt, GerbilSchemeTypeDecodeError>)
    ensures
        match projection_readiness_error(*readiness_plan, *request) {
            Some(e) => result == Err::<GerbilSchemeNativeProjectionReceipt, GerbilSchemeTypeDecodeError>(e),
            None => if typed_value.type_id@ != request.contract.type_id@ {
                result == Err::<GerbilSchemeNativeProjectionReceipt, GerbilSchemeTypeDecodeError>(
                    GerbilSchemeTypeDecodeError::TypeMismatch {
                        expected: request.contract.type_id,
                        actual: typed_value.type_id,
                    },
                )
            } else if request.contract.schema_id matches Some(s) && schema_view(
                typed_value.schema_id,
            ) != Some(s@) {
                result == Err::<GerbilSchemeNativeProjectionReceipt, GerbilSchemeTypeDecodeError>(
                    schema_mismatch(
                        typed_value.type_id,
                        request.contract.schema_id->Some_0,
                        typed_value.schema_id,
                    ),
                )
            } else {
                result == Ok::<GerbilSchemeNativeProjectionReceipt, GerbilSchemeTypeDecodeError>(
                    GerbilSchemeNativeProjectionReceipt {
                        status: GerbilSchemeNativeProjectionStatus::Projected,
                        abi_id: request.abi_id,
                        abi_version: request.abi_version,
                        symbol: request.symbol,
                        type_id: typed_value.type_id,
                        schema_id: typed_value.schema_id,
                    },
                )
            },
        },
{
    if readiness_plan.abi_id != request.abi_id {
        return Err(
            GerbilSchemeTypeDecodeError::NativeAbiMismatch {
                expected: request.abi_id.clone(),
                actual: readiness_plan.abi_id.clone(),
            },
        );
    }
    if readiness_plan.version != request.abi_version {
        return Err(
            GerbilSchemeTypeDecodeError::NativeAbiVersionMismatch {
                abi_id: request.abi_id.clone(),
                expected: request.abi_version,
                actual: readiness_plan.version,
            },
        );
    }
    if !holds_symbol(&readiness_plan.exported_symbols, &request.symbol) {
        return Err(GerbilSchemeTypeDecodeError::MissingNativeSymbol { symbol: request.symbol.clone() });
    }
    match typed_value.ensure_projection_contract(&request.contract) {
        Ok(()) => {},
        Err(e) => {
            return Err(e);
        },
    }
    Ok(
        GerbilSchemeNativeProjectionReceipt {
            status: GerbilSchemeNativeProjectionStatus::Projected,
            abi_id: request.abi_id.clone(),
            abi_version: request.abi_version,
            symbol: request.symbol.clone(),
            type_id: typed_value.type_id.clone(),
            schema_id: copy_schema_id(&typed_value.schema_id),
        },
    )
}

} // verus!
