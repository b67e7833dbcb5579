//! Domain identifiers for Scheme loop case-driver projections.

use vstd::prelude::*;
use vstd::std_specs::cmp::PartialEqSpecImpl;

verus! {

/// Identifier for one Scheme config-interface loop case.
#[derive(Debug, Hash, PartialOrd, Ord)]
pub struct GerbilLoopCaseDriverCaseId(String);

impl View for GerbilLoopCaseDriverCaseId {
    type V = Seq<char>;

    closed spec fn view(&self) -> Seq<char> {
        self.0@
    }
}

impl GerbilLoopCaseDriverCaseId {
    #[must_use]
    pub fn new(value: &str) -> (id: Self)
        ensures
            id@ == value@,
    {
        GerbilLoopCaseDriverCaseId(value.to_owned())
    }

    #[must_use]
    pub fn as_str(&self) -> (text: &str)
        ensures
            text@ == self@,
    {
        self.0.as_str()
    }
}

impl Clone for GerbilLoopCaseDriverCaseId {
    fn clone(&self) -> (copy: Self)
        ensures
            copy == *self,
    {
        GerbilLoopCaseDriverCaseId(self.0.clone())
    }
}

impl PartialEq for GerbilLoopCaseDriverCaseId {
    fn eq(&self, other: &Self) -> (same: bool) {
        self.0 == other.0
    }
}

impl Eq for GerbilLoopCaseDriverCaseId {}

impl PartialEqSpecImpl for GerbilLoopCaseDriverCaseId {
    open spec fn obeys_eq_spec() -> bool {
        true
    }

    open spec fn eq_spec(&self, other: &Self) -> bool {
        self@ == other@
    }
}

/// Identifier for the loop program emitted by a Scheme config-interface case.
#[derive(Debug, Hash, PartialOrd, Ord)]
pub struct GerbilLoopCaseDriverLoopProgramId(String);

impl View for GerbilLoopCaseDriverLoopProgramId {
    type V = Seq<char>;

    closed spec fn view(&self) -> Seq<char> {
        self.0@
    }
}

impl GerbilLoopCaseDriverLoopProgramId {
    #[must_use]
    pub fn new(value: &str) -> (id: Self)
        ensures
            id@ == value@,
    {
        GerbilLoopCaseDriverLoopProgramId(value.to_owned())
    }

    #[must_use]
    pub fn as_str(&self) -> (text: &str)
        ensures
            text@ == self@,
    {
        self.0.as_str()
    }
}

impl Clone for GerbilLoopCaseDriverLoopProgramId {
    fn clone(&self) -> (copy: Self)
        ensures
            copy == *self,
    {
        GerbilLoopCaseDriverLoopProgramId(self.0.clone())
    }
}

impl PartialEq for GerbilLoopCaseDriverLoopProgramId {
    fn eq(&self, other: &Self) -> (same: bool) {
        self.0 == other.0
    }
}

impl Eq for GerbilLoopCaseDriverLoopProgramId {}

impl PartialEqSpecImpl for GerbilLoopCaseDriverLoopProgramId {
    open spec fn obeys_eq_spec() -> bool {
        true
    }

    open spec fn eq_spec(&self, other: &Self) -> bool {
        self@ == other@
    }
}

/// Profile reference attached to a Scheme config-interface loop case.
#[derive(Debug, Hash, PartialOrd, Ord)]
pub struct GerbilLoopCaseDriverProfileRef(String);

impl View for GerbilLoopCaseDriverProfileRef {
    type V = Seq<char>;

    closed spec fn view(&self) -> Seq<char> {
        self.0@
    }
}

impl GerbilLoopCaseDriverProfileRef {
    #[must_use]
    pub fn new(value: &str) -> (id: Self)
        ensures
            id@ == value@,
    {
        GerbilLoopCaseDriverProfileRef(value.to_owned())
    }

    #[must_use]
    pub fn as_str(&self) -> (text: &str)
        ensures
            text@ == self@,
    {
        self.0.as_str()
    }
}

impl Clone for GerbilLoopCaseDriverProfileRef {
    fn clone(&self) -> (copy: Self)
        ensures
            copy == *self,
    {
        GerbilLoopCaseDriverProfileRef(self.0.clone())
    }
}

impl PartialEq for GerbilLoopCaseDriverProfileRef {
    fn eq(&self, other: &Self) -> (same: bool) {
        self.0 == other.0
    }
}

impl Eq for GerbilLoopCaseDriverProfileRef {}

impl PartialEqSpecImpl for GerbilLoopCaseDriverProfileRef {
    open spec fn obeys_eq_spec() -> bool {
        true
    }

    open spec fn eq_spec(&self, other: &Self) -> bool {
        self@ == other@
    }
}

/// Capability requirement attached to a Scheme config-interface loop case.
#[derive(Debug, Hash, PartialOrd, Ord)]
pub struct GerbilLoopCaseDriverCapability(String);

impl View for GerbilLoopCaseDriverCapability {
    type V = Seq<char>;

    closed spec fn view(&self) -> Seq<char> {
        self.0@
    }
}

impl GerbilLoopCaseDriverCapability {
    #[must_use]
    pub fn new(value: &str) -> (id: Self)
        ensures
            id@ == value@,
    {
        GerbilLoopCaseDriverCapability(value.to_owned())
    }

    #[must_use]
    pub fn as_str(&self) -> (text: &str)
        ensures
            text@ == self@,
    {
        self.0.as_str()
    }
}

impl Clone for GerbilLoopCaseDriverCapability {
    fn clone(&self) -> (copy: Self)
        ensures
            copy == *self,
    {
        GerbilLoopCaseDriverCapability(self.0.clone())
    }
}

impl PartialEq for GerbilLoopCaseDriverCapability {
    fn eq(&self, other: &Self) -> (same: bool) {
        self.0 == other.0
    }
}

impl Eq for GerbilLoopCaseDriverCapability {}

impl PartialEqSpecImpl for GerbilLoopCaseDriverCapability {
    open spec fn obeys_eq_spec() -> bool {
        true
    }

    open spec fn eq_spec(&self, other: &Self) -> bool {
        self@ == other@
    }
}

} // verus!
