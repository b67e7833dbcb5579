//! Session plan types for resident `Gerbil Scheme` runtime ownership.

use vstd::prelude::*;
use vstd::std_specs::cmp::PartialEqSpecImpl;

use crate::runtime::GerbilCommandProfile;

verus! {

/// Session strategy for a resident Gerbil runtime.
#[derive(Clone, Copy, Debug, PartialEq, Eq, Structural)]
pub enum GerbilResidentRuntimeSessionMode {
    Disabled,
    SharedContext,
    ForkedContext,
    IsolatedSession,
}

impl Default for GerbilResidentRuntimeSessionMode {
    fn default() -> (mode: Self)
        ensures
            mode == GerbilResidentRuntimeSessionMode::Disabled,
    {
        GerbilResidentRuntimeSessionMode::Disabled
    }
}

/// Stable session label for a resident Gerbil runtime.
#[derive(Debug, Hash, PartialOrd, Ord)]
pub struct GerbilResidentRuntimeSessionId(String);

impl View for GerbilResidentRuntimeSessionId {
    type V = Seq<char>;

    closed spec fn view(&self) -> Seq<char> {
        self.0@
    }
}

impl GerbilResidentRuntimeSessionId {
    pub fn new(value: &str) -> (id: Self)
        ensures
            id@ == value@,
    {
        GerbilResidentRuntimeSessionId(value.to_owned())
    }

    pub fn as_str(&self) -> (text: &str)
        ensures
            text@ == self@,
    {
        self.0.as_str()
    }
}

impl Clone for GerbilResidentRuntimeSessionId {
    fn clone(&self) -> (copy: Self)
        ensures
            copy == *self,
    {
        GerbilResidentRuntimeSessionId(self.0.clone())
    }
}

impl PartialEq for GerbilResidentRuntimeSessionId {
    fn eq(&self, other: &Self) -> (same: bool) {
        self.0 == other.0
    }
}

impl Eq for GerbilResidentRuntimeSessionId {}

impl PartialEqSpecImpl for GerbilResidentRuntimeSessionId {
    open spec fn obeys_eq_spec() -> bool {
        true
    }

    open spec fn eq_spec(&self, other: &Self) -> bool {
        self@ == other@
    }
}

/// Rust-owned plan for starting or reusing a resident Gerbil runtime.
#[derive(Clone, Debug, PartialEq, Eq)]
pub struct GerbilResidentRuntimePlan {
    pub session_mode: GerbilResidentRuntimeSessionMode,
    pub session_id: Option<GerbilResidentRuntimeSessionId>,
    pub command_profile: GerbilCommandProfile,
    pub loadpath_root: String,
}

/// Receipt emitted after preparing the resident runtime loadpath.
#[derive(Clone, Debug, PartialEq, Eq)]
pub struct GerbilResidentRuntimePrepareReceipt {
    pub session_mode: GerbilResidentRuntimeSessionMode,
    pub session_id: Option<GerbilResidentRuntimeSessionId>,
    pub process_reuse_required: bool,
    pub state_isolated: bool,
    pub command_profile: GerbilCommandProfile,
    pub loadpath_root: String,
    pub written_asset_count: usize,
}

} // verus!
