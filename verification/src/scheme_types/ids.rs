//! Stable newtype identifiers for the `Scheme` type bridge.

use vstd::prelude::*;
use vstd::std_specs::cmp::PartialEqSpecImpl;

verus! {

/// Stable identifier for a Scheme-side value type.
#[derive(Debug, Hash, PartialOrd, Ord)]
pub struct GerbilSchemeTypeId(String);

impl View for GerbilSchemeTypeId {
    type V = Seq<char>;

    closed spec fn view(&self) -> Seq<char> {
        self.0@
    }
}

impl GerbilSchemeTypeId {
    pub fn new(value: &str) -> (id: Self)
        ensures
            id@ == value@,
    {
        GerbilSchemeTypeId(value.to_owned())
    }

    pub fn as_str(&self) -> (text: &str)
        ensures
            text@ == self@,
    {
        self.0.as_str()
    }
}

impl Clone for GerbilSchemeTypeId {
    fn clone(&self) -> (copy: Self)
        ensures
            copy == *self,
    {
        GerbilSchemeTypeId(self.0.clone())
    }
}

impl PartialEq for GerbilSchemeTypeId {
    fn eq(&self, other: &Self) -> (same: bool) {
        self.0 == other.0
    }
}

impl Eq for GerbilSchemeTypeId {}

impl PartialEqSpecImpl for GerbilSchemeTypeId {
    open spec fn obeys_eq_spec() -> bool {
        true
    }

    open spec fn eq_spec(&self, other: &Self) -> bool {
        self@ == other@
    }
}

/// Stable identifier for a JSON schema emitted by Scheme.
#[derive(Debug, Hash, PartialOrd, Ord)]
pub struct GerbilSchemeSchemaId(String);

impl View for GerbilSchemeSchemaId {
    type V = Seq<char>;

    closed spec fn view(&self) -> Seq<char> {
        self.0@
    }
}

impl GerbilSchemeSchemaId {
    pub fn new(value: &str) -> (id: Self)
        ensures
            id@ == value@,
    {
        GerbilSchemeSchemaId(value.to_owned())
    }

    pub fn as_str(&self) -> (text: &str)
        ensures
            text@ == self@,
    {
        self.0.as_str()
    }
}

impl Clone for GerbilSchemeSchemaId {
    fn clone(&self) -> (copy: Self)
        ensures
            copy == *self,
    {
        GerbilSchemeSchemaId(self.0.clone())
    }
}

impl PartialEq for GerbilSchemeSchemaId {
    fn eq(&self, other: &Self) -> (same: bool) {
        self.0 == other.0
    }
}

impl Eq for GerbilSchemeSchemaId {}

impl PartialEqSpecImpl for GerbilSchemeSchemaId {
    open spec fn obeys_eq_spec() -> bool {
        true
    }

    open spec fn eq_spec(&self, other: &Self) -> bool {
        self@ == other@
    }
}

/// Field name inside a Scheme-side value type.
#[derive(Debug, Hash, PartialOrd, Ord)]
pub struct GerbilSchemeFieldName(String);

impl View for GerbilSchemeFieldName {
    type V = Seq<char>;

    closed spec fn view(&self) -> Seq<char> {
        self.0@
    }
}

impl GerbilSchemeFieldName {
    pub fn new(value: &str) -> (id: Self)
        ensures
            id@ == value@,
    {
        GerbilSchemeFieldName(value.to_owned())
    }

    pub fn as_str(&self) -> (text: &str)
        ensures
            text@ == self@,
    {
        self.0.as_str()
    }
}

impl Clone for GerbilSchemeFieldName {
    fn clone(&self) -> (copy: Self)
        ensures
            copy == *self,
    {
        GerbilSchemeFieldName(self.0.clone())
    }
}

impl PartialEq for GerbilSchemeFieldName {
    fn eq(&self, other: &Self) -> (same: bool) {
        self.0 == other.0
    }
}

impl Eq for GerbilSchemeFieldName {}

impl PartialEqSpecImpl for GerbilSchemeFieldName {
    open spec fn obeys_eq_spec() -> bool {
        true
    }

    open spec fn eq_spec(&self, other: &Self) -> bool {
        self@ == other@
    }
}

/// Stable identifier for a downstream Scheme package.
#[derive(Debug, Hash, PartialOrd, Ord)]
pub struct GerbilSchemePackageId(String);

impl View for GerbilSchemePackageId {
    type V = Seq<char>;

    closed spec fn view(&self) -> Seq<char> {
        self.0@
    }
}

impl GerbilSchemePackageId {
    pub fn new(value: &str) -> (id: Self)
        ensures
            id@ == value@,
    {
        GerbilSchemePackageId(value.to_owned())
    }

    pub fn as_str(&self) -> (text: &str)
        ensures
            text@ == self@,
    {
        self.0.as_str()
    }
}

impl Clone for GerbilSchemePackageId {
    fn clone(&self) -> (copy: Self)
        ensures
            copy == *self,
    {
        GerbilSchemePackageId(self.0.clone())
    }
}

impl PartialEq for GerbilSchemePackageId {
    fn eq(&self, other: &Self) -> (same: bool) {
        self.0 == other.0
    }
}

impl Eq for GerbilSchemePackageId {}

impl PartialEqSpecImpl for GerbilSchemePackageId {
    open spec fn obeys_eq_spec() -> bool {
        true
    }

    open spec fn eq_spec(&self, other: &Self) -> bool {
        self@ == other@
    }
}

/// Stable identifier for a native ABI exported by a Scheme package.
#[derive(Debug, Hash, PartialOrd, Ord)]
pub struct GerbilSchemeNativeAbiId(String);

impl View for GerbilSchemeNativeAbiId {
    type V = Seq<char>;

    closed spec fn view(&self) -> Seq<char> {
        self.0@
    }
}

impl GerbilSchemeNativeAbiId {
    pub fn new(value: &str) -> (id: Self)
        ensures
            id@ == value@,
    {
        GerbilSchemeNativeAbiId(value.to_owned())
    }

    pub fn as_str(&self) -> (text: &str)
        ensures
            text@ == self@,
    {
        self.0.as_str()
    }
}

impl Clone for GerbilSchemeNativeAbiId {
    fn clone(&self) -> (copy: Self)
        ensures
            copy == *self,
    {
        GerbilSchemeNativeAbiId(self.0.clone())
    }
}

impl PartialEq for GerbilSchemeNativeAbiId {
    fn eq(&self, other: &Self) -> (same: bool) {
        self.0 == other.0
    }
}

impl Eq for GerbilSchemeNativeAbiId {}

impl PartialEqSpecImpl for GerbilSchemeNativeAbiId {
    open spec fn obeys_eq_spec() -> bool {
        true
    }

    open spec fn eq_spec(&self, other: &Self) -> bool {
        self@ == other@
    }
}

/// Exported native symbol of a Scheme package ABI.
#[derive(Debug, Hash, PartialOrd, Ord)]
pub struct GerbilSchemeNativeSymbol(String);

impl View for GerbilSchemeNativeSymbol {
    type V = Seq<char>;

    closed spec fn view(&self) -> Seq<char> {
        self.0@
    }
}

impl GerbilSchemeNativeSymbol {
    pub fn new(value: &str) -> (id: Self)
        ensures
            id@ == value@,
    {
        GerbilSchemeNativeSymbol(value.to_owned())
    }

    pub fn as_str(&self) -> (text: &str)
        ensures
            text@ == self@,
    {
        self.0.as_str()
    }
}

impl Clone for GerbilSchemeNativeSymbol {
    fn clone(&self) -> (copy: Self)
        ensures
            copy == *self,
    {
        GerbilSchemeNativeSymbol(self.0.clone())
    }
}

impl PartialEq for GerbilSchemeNativeSymbol {
    fn eq(&self, other: &Self) -> (same: bool) {
        self.0 == other.0
    }
}

impl Eq for GerbilSchemeNativeSymbol {}

impl PartialEqSpecImpl for GerbilSchemeNativeSymbol {
    open spec fn obeys_eq_spec() -> bool {
        true
    }

    open spec fn eq_spec(&self, other: &Self) -> bool {
        self@ == other@
    }
}

} // verus!
