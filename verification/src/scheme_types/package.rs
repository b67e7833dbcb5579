//! Downstream Scheme package manifests consumed by Rust.

use vstd::prelude::*;

use super::error::GerbilSchemeTypeDecodeError;
use super::ids::{
    GerbilSchemeNativeAbiId, GerbilSchemeNativeSymbol, GerbilSchemePackageId,
    GerbilSchemeSchemaId,
};
use super::manifest::{
    GerbilSchemeTypeManifest, find_first_repeat, first_repeat, lemma_first_repeat_facts,
    total_field_count, type_ids,
};
use super::projection::GerbilSchemeProjectionContract;
use super::validation::{manifest_validation_error, validate_gerbil_scheme_type_manifest};
use crate::text::{lemma_first_position_found, seq_views};

verus! {

/// Native ABI contract declared by a downstream Scheme package.
#[derive(Clone, Debug, PartialEq, Eq)]
pub struct GerbilSchemeNativeAbiContract {
    pub abi_id: GerbilSchemeNativeAbiId,
    pub version: u32,
    pub exported_symbols: Vec<GerbilSchemeNativeSymbol>,
}

impl GerbilSchemeNativeAbiContract {
    pub fn new(abi_id: GerbilSchemeNativeAbiId, version: u32) -> (contract: Self)
        ensures
            contract.abi_id == abi_id,
            contract.version == version,
            contract.exported_symbols@.len() == 0,
    {
        GerbilSchemeNativeAbiContract { abi_id, version, exported_symbols: Vec::new() }
    }

    pub fn with_exported_symbols(self, exported_symbols: Vec<GerbilSchemeNativeSymbol>) -> (contract:
        Self)
        ensures
            contract.abi_id == self.abi_id,
            contract.version == self.version,
            contract.exported_symbols == exported_symbols,
    {
        GerbilSchemeNativeAbiContract { abi_id: self.abi_id, version: self.version, exported_symbols }
    }
}

/// Native ABI exports made available by a concrete build or link plan.
#[derive(Clone, Debug, PartialEq, Eq)]
pub struct GerbilSchemeNativeAbiReadinessPlan {
    pub abi_id: GerbilSchemeNativeAbiId,
    pub version: u32,
    pub exported_symbols: Vec<GerbilSchemeNativeSymbol>,
}

impl GerbilSchemeNativeAbiReadinessPlan {
    pub fn new(abi_id: GerbilSchemeNativeAbiId, version: u32) -> (plan: Self)
        ensures
            plan.abi_id == abi_id,
            plan.version == version,
            plan.exported_symbols@.len() == 0,
    {
        GerbilSchemeNativeAbiReadinessPlan { abi_id, version, exported_symbols: Vec::new() }
    }

    pub fn with_exported_symbols(self, exported_symbols: Vec<GerbilSchemeNativeSymbol>) -> (plan:
        Self)
        ensures
            plan.abi_id == self.abi_id,
            plan.version == self.version,
            plan.exported_symbols == exported_symbols,
    {
        GerbilSchemeNativeAbiReadinessPlan {
            abi_id: self.abi_id,
            version: self.version,
            exported_symbols,
        }
    }
}

/// Manifest emitted by a pure Scheme downstream package.
#[derive(Clone, Debug, PartialEq, Eq)]
pub struct GerbilSchemePackageManifest {
    pub schema_id: GerbilSchemeSchemaId,
    pub package_id: GerbilSchemePackageId,
    pub type_manifest: GerbilSchemeTypeManifest,
    pub projection_contracts: Vec<GerbilSchemeProjectionContract>,
    pub native_abi: Option<GerbilSchemeNativeAbiContract>,
}

impl GerbilSchemePackageManifest {
    pub fn new(package_id: GerbilSchemePackageId, type_manifest: GerbilSchemeTypeManifest) -> (manifest:
        Self)
        ensures
            manifest.schema_id@ == "marlin.scheme-package.manifest.v1"@,
            manifest.package_id == package_id,
            manifest.type_manifest == type_manifest,
            manifest.projection_contracts@.len() == 0,
            manifest.native_abi is None,
    {
        GerbilSchemePackageManifest {
            schema_id: GerbilSchemeSchemaId::new("marlin.scheme-package.manifest.v1"),
            package_id,
            type_manifest,
            projection_contracts: Vec::new(),
            native_abi: None,
        }
    }

    pub fn with_projection_contracts(
        self,
        projection_contracts: Vec<GerbilSchemeProjectionContract>,
    ) -> (manifest: Self)
        ensures
            manifest.schema_id == self.schema_id,
            manifest.package_id == self.package_id,
            manifest.type_manifest == self.type_manifest,
            manifest.projection_contracts == projection_contracts,
            manifest.native_abi == self.native_abi,
    {
        GerbilSchemePackageManifest {
            schema_id: self.schema_id,
            package_id: self.package_id,
            type_manifest: self.type_manifest,
            projection_contracts,
            native_abi: self.native_abi,
        }
    }

    pub fn with_native_abi(self, native_abi: GerbilSchemeNativeAbiContract) -> (manifest: Self)
        ensures
            manifest.schema_id == self.schema_id,
            manifest.package_id == self.package_id,
            manifest.type_manifest == self.type_manifest,
            manifest.projection_contracts == self.projection_contracts,
            manifest.native_abi == Some(native_abi),
    {
        GerbilSchemePackageManifest {
            schema_id: self.schema_id,
            package_id: self.package_id,
            type_manifest: self.type_manifest,
            projection_contracts: self.projection_contracts,
            native_abi: Some(native_abi),
        }
    }
}

/// Package validation receipt used by tests and quality gates.
#[derive(Clone, Debug, PartialEq, Eq)]
pub struct GerbilSchemePackageManifestValidationReceipt {
    pub schema_id: GerbilSchemeSchemaId,
    pub package_id: GerbilSchemePackageId,
    pub type_count: usize,
    pub field_count: usize,
    pub projection_contract_count: usize,
    pub native_abi_version: Option<u32>,
    pub native_symbol_count: usize,
}

/// Native readiness receipt used before linking a downstream Scheme package.
#[derive(Clone, Debug, PartialEq, Eq)]
pub struct GerbilSchemePackageNativeReadinessReceipt {
    pub package_id: GerbilSchemePackageId,
    pub abi_id: GerbilSchemeNativeAbiId,
    pub abi_version: u32,
    pub required_symbol_count: usize,
    pub available_symbol_count: usize,
    pub matched_symbol_count: usize,
}

/// A projection contract is identified by its type id and optional schema id.
pub open spec fn contract_key(contract: GerbilSchemeProjectionContract) -> (Seq<char>, Option<Seq<char>>) {
    (
        contract.type_id@,
        match contract.schema_id {
            Some(s) => Some(s@),
            None => None,
        },
    )
}

/// First error among the projection contracts: a contract naming a type the
/// manifest does not declare, or repeating an earlier contract's key.
pub open spec fn contracts_error(
    contracts: Seq<GerbilSchemeProjectionContract>,
    declared: Seq<Seq<char>>,
) -> Option<GerbilSchemeTypeDecodeError>
    decreases contracts.len(),
{
    if contracts.len() == 0 {
        None
    } else {
        match contracts_error(contracts.drop_last(), declared) {
            Some(e) => Some(e),
            None => if !declared.contains(contracts.last().type_id@) {
                Some(GerbilSchemeTypeDecodeError::UnknownType { type_id: contracts.last().type_id })
            } else if contracts.drop_last().map_values(
                |c: GerbilSchemeProjectionContract| contract_key(c),
            ).contains(contract_key(contracts.last())) {
                Some(
                    GerbilSchemeTypeDecodeError::DuplicateProjectionContract {
                        type_id: contracts.last().type_id,
                        schema_id: contracts.last().schema_id,
                    },
                )
            } else {
                None
            },
        }
    }
}

/// Error of a native ABI declaration: no symbols, or a repeated symbol.
pub open spec fn native_abi_error(native_abi: Option<GerbilSchemeNativeAbiContract>) -> Option<
    GerbilSchemeTypeDecodeError,
> {
    match native_abi {
        None => None,
        Some(abi) => if abi.exported_symbols@.len() == 0 {
            Some(GerbilSchemeTypeDecodeError::MissingNativeSymbols { abi_id: abi.abi_id })
        } else {
            match first_repeat(seq_views(abi.exported_symbols@)) {
                Some(i) => Some(
                    GerbilSchemeTypeDecodeError::DuplicateNativeSymbol {
                        symbol: abi.exported_symbols@[i],
                    },
                ),
                None => None,
            }
        },
    }
}

/// First validation error of a package manifest.
pub open spec fn package_validation_error(manifest: GerbilSchemePackageManifest) -> Option<
    GerbilSchemeTypeDecodeError,
> {
    if manifest_validation_error(manifest.type_manifest) is Some {
        manifest_validation_error(manifest.type_manifest)
    } else if contracts_error(
        manifest.projection_contracts@,
        type_ids(manifest.type_manifest.types@),
    ) is Some {
        contracts_error(manifest.projection_contracts@, type_ids(manifest.type_manifest.types@))
    } else {
        native_abi_error(manifest.native_abi)
    }
}

/// Number of symbols a package's native ABI exports.
pub open spec fn native_symbol_count(native_abi: Option<GerbilSchemeNativeAbiContract>) -> nat {
    match native_abi {
        None => 0,
        Some(abi) => abi.exported_symbols@.len(),
    }
}

/// Version of a package's native ABI, if it declares one.
pub open spec fn native_abi_version(native_abi: Option<GerbilSchemeNativeAbiContract>) -> Option<u32> {
    match native_abi {
        None => None,
        Some(abi) => Some(abi.version),
    }
}

/// Position of the first required symbol missing from the available ones.
pub open spec fn first_missing(required: Seq<Seq<char>>, available: Seq<Seq<char>>) -> Option<int>
    decreases required.len(),
{
    if required.len() == 0 {
        None
    } else {
        match first_missing(required.drop_last(), available) {
            Some(i) => Some(i),
            None => if !available.contains(required.last()) {
                Some(required.len() - 1)
            } else {
                None
            },
        }
    }
}

/// First readiness error: the package is invalid, declares no native ABI, or
/// its ABI id, version or symbols are not those the plan makes available.
pub open spec fn readiness_error(
    manifest: GerbilSchemePackageManifest,
    plan: GerbilSchemeNativeAbiReadinessPlan,
) -> Option<GerbilSchemeTypeDecodeError> {
    if package_validation_error(manifest) is Some {
        package_validation_error(manifest)
    } else {
        match manifest.native_abi {
            None => Some(
                GerbilSchemeTypeDecodeError::MissingNativeAbi { package_id: manifest.package_id },
            ),
            Some(abi) => if abi.abi_id@ != plan.abi_id@ {
                Some(
                    GerbilSchemeTypeDecodeError::NativeAbiMismatch {
                        expected: abi.abi_id,
                        actual: plan.abi_id,
                    },
                )
            } else if abi.version != plan.version {
                Some(
                    GerbilSchemeTypeDecodeError::NativeAbiVersionMismatch {
                        abi_id: abi.abi_id,
                        expected: abi.version,
                        actual: plan.version,
                    },
                )
            } else {
                match first_missing(
                    seq_views(abi.exported_symbols@),
                    seq_views(plan.exported_symbols@),
                ) {
                    Some(i) => Some(
                        GerbilSchemeTypeDecodeError::MissingNativeSymbol {
                            symbol: abi.exported_symbols@[i],
                        },
                    ),
                    None => None,
                }
            },
        }
    }
}

proof fn lemma_contracts_error_sticks(
    contracts: Seq<GerbilSchemeProjectionContract>,
    declared: Seq<Seq<char>>,
    k: int,
)
    requires
        0 <= k <= contracts.len(),
        contracts_error(contracts.take(k), declared) is Some,
    ensures
        contracts_error(contracts, declared) == contracts_error(contracts.take(k), declared),
    decreases contracts.len() - k,
{
    if k < contracts.len() {
        assert(contracts.take(k + 1).drop_last() =~= contracts.take(k));
        lemma_contracts_error_sticks(contracts, declared, k + 1);
    } else {
        assert(contracts.take(k) =~= contracts);
    }
}

proof fn lemma_first_missing_sticks(required: Seq<Seq<char>>, available: Seq<Seq<char>>, k: int)
    requires
        0 <= k <= required.len(),
        first_missing(required.take(k), available) is Some,
    ensures
        first_missing(required, available) == first_missing(required.take(k), available),
    decreases required.len() - k,
{
    if k < required.len() {
        assert(required.take(k + 1).drop_last() =~= required.take(k));
        lemma_first_missing_sticks(required, available, k + 1);
    } else {
        assert(required.take(k) =~= required);
    }
}

/// Whether two projection contracts have the same key.
fn same_contract_key(a: &GerbilSchemeProjectionContract, b: &GerbilSchemeProjectionContract) -> (same:
    bool)
    ensures
        same == (contract_key(*a) == contract_key(*b)),
{
    if !(a.type_id == b.type_id) {
        return false;
    }
    match (&a.schema_id, &b.schema_id) {
        (Some(x), Some(y)) => *x == *y,
        (None, None) => true,
        _ => false,
    }
}

/// Checks every projection contract in turn.
fn check_projection_contracts(manifest: &GerbilSchemePackageManifest) -> (result: Result<
    (),
    GerbilSchemeTypeDecodeError,
>)
    ensures
        match result {
            Ok(()) => contracts_error(
                manifest.projection_contracts@,
                type_ids(manifest.type_manifest.types@),
            ) is None,
            Err(e) => contracts_error(
                manifest.projection_contracts@,
                type_ids(manifest.type_manifest.types@),
            ) == Some(e),
        },
{
    let contracts = &manifest.projection_contracts;
    let ghost declared = type_ids(manifest.type_manifest.types@);
    let ghost all = contracts@;
    let mut i: usize = 0;
    assert(all.take(0) =~= Seq::<GerbilSchemeProjectionContract>::empty());
    while i < contracts.len()
        invariant
            i <= contracts.len(),
            all == contracts@,
            *contracts == manifest.projection_contracts,
            declared == type_ids(manifest.type_manifest.types@),
            contracts_error(all.take(i as int), declared) is None,
        decreases contracts.len() - i,
    {
        assert(all.take(i + 1).drop_last() =~= all.take(i as int));
        assert(all.take(i + 1).last() == all[i as int]);
        let contract = &contracts[i];
        proof {
            lemma_first_position_found(declared, contract.type_id@);
        }
        if manifest.type_manifest.type_spec(&contract.type_id).is_none() {
            proof {
                lemma_contracts_error_sticks(all, declared, i + 1);
            }
            return Err(GerbilSchemeTypeDecodeError::UnknownType { type_id: contract.type_id.clone() });
        }
        let ghost keys = all.take(i as int).map_values(
            |c: GerbilSchemeProjectionContract| contract_key(c),
        );
        let mut j: usize = 0;
        let mut repeated = false;
        while j < i
            invariant
                j <= i < contracts.len(),
                all == contracts@,
                *contract == all[i as int],
                keys == all.take(i as int).map_values(
                    |c: GerbilSchemeProjectionContract| contract_key(c),
                ),
                repeated ==> keys.contains(contract_key(*contract)),
                !repeated ==> forall|k: int| 0 <= k < j ==> keys[k] != contract_key(*contract),
            decreases i - j,
        {
            if !repeated && same_contract_key(&contracts[j], contract) {
                assert(keys[j as int] == contract_key(all[j as int]));
                repeated = true;
            }
            j += 1;
        }
        if repeated {
            proof {
                lemma_contracts_error_sticks(all, declared, i + 1);
            }
            return Err(
                GerbilSchemeTypeDecodeError::DuplicateProjectionContract {
                    type_id: contract.type_id.clone(),
                    schema_id: contract.schema_id.clone(),
                },
            );
        }
        i += 1;
    }
    assert(all.take(i as int) =~= all);
    Ok(())
}

/// The texts of a symbol list.
fn symbol_texts(symbols: &Vec<GerbilSchemeNativeSymbol>) -> (texts: Vec<&str>)
    ensures
        texts@.map_values(|s: &str| s@) == seq_views(symbols@),
{
    let mut texts: Vec<&str> = Vec::new();
    let mut i: usize = 0;
    while i < symbols.len()
        invariant
            i <= symbols.len(),
            texts@.map_values(|s: &str| s@) == seq_views(symbols@).take(i as int),
        decreases symbols.len() - i,
    {
        let ghost before = texts@.map_values(|s: &str| s@);
        let text: &str = symbols[i].as_str();
        texts.push(text);
        assert(texts@.map_values(|s: &str| s@) =~= before.push(text@));
        assert(seq_views(symbols@)[i as int] == symbols@[i as int]@);
        assert(texts@.map_values(|s: &str| s@) =~= seq_views(symbols@).take(i + 1));
        i += 1;
    }
    assert(seq_views(symbols@).take(i as int) =~= seq_views(symbols@));
    texts
}

/// Checks a native ABI declaration and counts its symbols.
fn check_native_abi(native_abi: &Option<GerbilSchemeNativeAbiContract>) -> (count: Result<
    usize,
    GerbilSchemeTypeDecodeError,
>)
    ensures
        match count {
            Ok(n) => native_abi_error(*native_abi) is None && n == native_symbol_count(*native_abi),
            Err(e) => native_abi_error(*native_abi) == Some(e),
        },
{
    match native_abi {
        None => Ok(0),
        Some(abi) => {
            if abi.exported_symbols.len() == 0 {
                return Err(
                    GerbilSchemeTypeDecodeError::MissingNativeSymbols { abi_id: abi.abi_id.clone() },
                );
            }
            let texts = symbol_texts(&abi.exported_symbols);
            match find_first_repeat(&texts) {
                Some(i) => {
                    proof {
                        lemma_first_repeat_facts(seq_views(abi.exported_symbols@));
                    }
                    Err(
                        GerbilSchemeTypeDecodeError::DuplicateNativeSymbol {
                            symbol: abi.exported_symbols[i].clone(),
                        },
                    )
                },
                None => Ok(abi.exported_symbols.len()),
            }
        },
    }
}

/// Validate a downstream Scheme package manifest without inspecting payload shapes.
pub fn validate_gerbil_scheme_package_manifest(manifest: &GerbilSchemePackageManifest) -> (receipt:
    Result<GerbilSchemePackageManifestValidationReceipt, GerbilSchemeTypeDecodeError>)
    requires
        total_field_count(manifest.type_manifest.types@) <= usize::MAX,
    ensures
        match receipt {
            Ok(r) => package_validation_error(*manifest) is None && r.schema_id == manifest.schema_id
                && r.package_id == manifest.package_id && r.type_count
                == manifest.type_manifest.types@.len() && r.field_count == total_field_count(
                manifest.type_manifest.types@,
            ) && r.projection_contract_count == manifest.projection_contracts@.len()
                && r.native_abi_version == native_abi_version(manifest.native_abi)
                && r.native_symbol_count == native_symbol_count(manifest.native_abi),
            Err(e) => package_validation_error(*manifest) == Some(e),
        },
{
    let type_receipt = match validate_gerbil_scheme_type_manifest(&manifest.type_manifest) {
        Ok(r) => r,
        Err(e) => return Err(e),
    };
    match check_projection_contracts(manifest) {
        Ok(()) => {},
        Err(e) => return Err(e),
    }
    let symbol_count = match check_native_abi(&manifest.native_abi) {
        Ok(n) => n,
        Err(e) => return Err(e),
    };
    let version = match &manifest.native_abi {
        Some(abi) => Some(abi.version),
        None => None,
    };
    Ok(
        GerbilSchemePackageManifestValidationReceipt {
            schema_id: manifest.schema_id.clone(),
            package_id: manifest.package_id.clone(),
            type_count: type_receipt.type_count,
            field_count: type_receipt.field_count,
            projection_contract_count: manifest.projection_contracts.len(),
            native_abi_version: version,
            native_symbol_count: symbol_count,
        },
    )
}

/// Whether `symbols` holds a symbol with the view `symbol`.
pub(crate) fn holds_symbol(symbols: &Vec<GerbilSchemeNativeSymbol>, symbol: &GerbilSchemeNativeSymbol) -> (found:
    bool)
    ensures
        found == seq_views(symbols@).contains(symbol@),
{
    let mut i: usize = 0;
    while i < symbols.len()
        invariant
            i <= symbols.len(),
            forall|j: int| 0 <= j < i ==> symbols@[j]@ != symbol@,
        decreases symbols.len() - i,
    {
        if symbols[i] == *symbol {
            assert(seq_views(symbols@)[i as int] == symbol@);
            return true;
        }
        i += 1;
    }
    assert forall|j: int| 0 <= j < seq_views(symbols@).len() implies seq_views(symbols@)[j]
        != symbol@ by {
        assert(seq_views(symbols@)[j] == symbols@[j]@);
    }
    false
}

/// Validate that a downstream Scheme package can bind to the available native ABI exports.
pub fn validate_gerbil_scheme_package_native_readiness(
    manifest: &GerbilSchemePackageManifest,
    readiness_plan: &GerbilSchemeNativeAbiReadinessPlan,
) -> (receipt: Result<GerbilSchemePackageNativeReadinessReceipt, GerbilSchemeTypeDecodeError>)
    requires
        total_field_count(manifest.type_manifest.types@) <= usize::MAX,
    ensures
        match receipt {
            Ok(r) => readiness_error(*manifest, *readiness_plan) is None && manifest.native_abi
                is Some && r.package_id == manifest.package_id && r.abi_id
                == manifest.native_abi->Some_0.abi_id && r.abi_version
                == manifest.native_abi->Some_0.version && r.required_symbol_count
                == manifest.native_abi->Some_0.exported_symbols@.len() && r.available_symbol_count
                == readiness_plan.exported_symbols@.len() && r.matched_symbol_count
                == manifest.native_abi->Some_0.exported_symbols@.len(),
            Err(e) => readiness_error(*manifest, *readiness_plan) == Some(e),
        },
{
    match validate_gerbil_scheme_package_manifest(manifest) {
        Ok(_) => {},
        Err(e) => return Err(e),
    }
    let abi = match &manifest.native_abi {
        Some(abi) => abi,
        None => {
            return Err(
                GerbilSchemeTypeDecodeError::MissingNativeAbi {
                    package_id: manifest.package_id.clone(),
                },
            );
        },
    };
    if !(abi.abi_id == readiness_plan.abi_id) {
        return Err(
            GerbilSchemeTypeDecodeError::NativeAbiMismatch {
                expected: abi.abi_id.clone(),
                actual: readiness_plan.abi_id.clone(),
            },
        );
    }
    if abi.version != readiness_plan.version {
        return Err(
            GerbilSchemeTypeDecodeError::NativeAbiVersionMismatch {
                abi_id: abi.abi_id.clone(),
                expected: abi.version,
                actual: readiness_plan.version,
            },
        );
    }
    let ghost required = seq_views(abi.exported_symbols@);
    let ghost available = seq_views(readiness_plan.exported_symbols@);
    let mut i: usize = 0;
    assert(required.take(0) =~= Seq::<Seq<char>>::empty());
    while i < abi.exported_symbols.len()
        invariant
            i <= abi.exported_symbols.len(),
            required == seq_views(abi.exported_symbols@),
            available == seq_views(readiness_plan.exported_symbols@),
            package_validation_error(*manifest) is None,
            manifest.native_abi == Some(*abi),
            abi.abi_id@ == readiness_plan.abi_id@,
            abi.version == readiness_plan.version,
            first_missing(required.take(i as int), available) is None,
        decreases abi.exported_symbols.len() - i,
    {
        assert(required.take(i + 1).drop_last() =~= required.take(i as int));
        assert(required.take(i + 1).last() == abi.exported_symbols@[i as int]@);
        if !holds_symbol(&readiness_plan.exported_symbols, &abi.exported_symbols[i]) {
            proof {
                lemma_first_missing_sticks(required, available, i + 1);
            }
            return Err(
                GerbilSchemeTypeDecodeError::MissingNativeSymbol {
                    symbol: abi.exported_symbols[i].clone(),
                },
            );
        }
        i += 1;
    }
    assert(required.take(i as int) =~= required);
    Ok(
        GerbilSchemePackageNativeReadinessReceipt {
            package_id: manifest.package_id.clone(),
            abi_id: abi.abi_id.clone(),
            abi_version: abi.version,
            required_symbol_count: abi.exported_symbols.len(),
            available_symbol_count: readiness_plan.exported_symbols.len(),
            matched_symbol_count: abi.exported_symbols.len(),
        },
    )
}

} // verus!
