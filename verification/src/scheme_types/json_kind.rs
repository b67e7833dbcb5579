//! JSON kind tags used by `Scheme` type validation errors.

use vstd::prelude::*;

verus! {

/// JSON value kind observed while validating a Scheme typed value payload.
#[derive(Clone, Copy, Debug, PartialEq, Eq, Structural)]
pub enum GerbilSchemeJsonTypeKind {
    Null,
    Boolean,
    Number,
    String,
    Array,
    Object,
}

impl GerbilSchemeJsonTypeKind {
    /// The name of this kind in validation messages.
    pub open spec fn label(self) -> Seq<char> {
        match self {
            GerbilSchemeJsonTypeKind::Null => "null"@,
            GerbilSchemeJsonTypeKind::Boolean => "boolean"@,
            GerbilSchemeJsonTypeKind::Number => "number"@,
            GerbilSchemeJsonTypeKind::String => "string"@,
            GerbilSchemeJsonTypeKind::Array => "array"@,
            GerbilSchemeJsonTypeKind::Object => "object"@,
        }
    }

    /// The name of this kind in validation messages.
    pub fn as_str(self) -> (text: &'static str)
        ensures
            text@ == self.label(),
    {
        match self {
            GerbilSchemeJsonTypeKind::Null => "null",
            GerbilSchemeJsonTypeKind::Boolean => "boolean",
            GerbilSchemeJsonTypeKind::Number => "number",
            GerbilSchemeJsonTypeKind::String => "string",
            GerbilSchemeJsonTypeKind::Array => "array",
            GerbilSchemeJsonTypeKind::Object => "object",
        }
    }
}

} // verus!
