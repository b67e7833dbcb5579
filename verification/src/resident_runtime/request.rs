//! Strategy lane and request types for resident `Gerbil Scheme` services.

use vstd::prelude::*;
use vstd::std_specs::cmp::PartialEqSpecImpl;

use super::process::GerbilResidentRuntimeHealthStatus;
use super::session::{GerbilResidentRuntimeSessionId, GerbilResidentRuntimeSessionMode};
use crate::runtime::GerbilCommandProfile;

verus! {

/// Strategy event handled by a dedicated resident Gerbil lane.
#[derive(Clone, Copy, Debug, PartialEq, Eq, Structural)]
pub enum GerbilResidentStrategyEventKind {
    DynamicReplan,
    PolicyChange,
}

/// The lane label that serves an event kind.
pub open spec fn lane_label(event_kind: GerbilResidentStrategyEventKind) -> Seq<char> {
    match event_kind {
        GerbilResidentStrategyEventKind::DynamicReplan => "dynamic-replan"@,
        GerbilResidentStrategyEventKind::PolicyChange => "policy-change"@,
    }
}

impl GerbilResidentStrategyEventKind {
    /// The lane that serves this event kind.
    pub fn lane_id(&self) -> (lane: GerbilResidentStrategyLaneId)
        ensures
            lane@ == lane_label(*self),
    {
        match self {
            GerbilResidentStrategyEventKind::DynamicReplan => GerbilResidentStrategyLaneId::new(
                "dynamic-replan",
            ),
            GerbilResidentStrategyEventKind::PolicyChange => GerbilResidentStrategyLaneId::new(
                "policy-change",
            ),
        }
    }
}

/// Stable lane label for a resident Gerbil strategy service.
#[derive(Debug, Hash, PartialOrd, Ord)]
pub struct GerbilResidentStrategyLaneId(String);

impl View for GerbilResidentStrategyLaneId {
    type V = Seq<char>;

    closed spec fn view(&self) -> Seq<char> {
        self.0@
    }
}

impl GerbilResidentStrategyLaneId {
    pub fn new(value: &str) -> (id: Self)
        ensures
            id@ == value@,
    {
        GerbilResidentStrategyLaneId(value.to_owned())
    }

    pub fn as_str(&self) -> (text: &str)
        ensures
            text@ == self@,
    {
        self.0.as_str()
    }
}

impl Clone for GerbilResidentStrategyLaneId {
    fn clone(&self) -> (copy: Self)
        ensures
            copy == *self,
    {
        GerbilResidentStrategyLaneId(self.0.clone())
    }
}

impl PartialEq for GerbilResidentStrategyLaneId {
    fn eq(&self, other: &Self) -> (same: bool) {
        self.0 == other.0
    }
}

impl Eq for GerbilResidentStrategyLaneId {}

impl PartialEqSpecImpl for GerbilResidentStrategyLaneId {
    open spec fn obeys_eq_spec() -> bool {
        true
    }

    open spec fn eq_spec(&self, other: &Self) -> bool {
        self@ == other@
    }
}

/// Stable request label for a resident Gerbil strategy lane.
#[derive(Debug, Hash, PartialOrd, Ord)]
pub struct GerbilResidentStrategyRequestId(String);

impl View for GerbilResidentStrategyRequestId {
    type V = Seq<char>;

    closed spec fn view(&self) -> Seq<char> {
        self.0@
    }
}

impl GerbilResidentStrategyRequestId {
    pub fn new(value: &str) -> (id: Self)
        ensures
            id@ == value@,
    {
        GerbilResidentStrategyRequestId(value.to_owned())
    }

    pub fn as_str(&self) -> (text: &str)
        ensures
            text@ == self@,
    {
        self.0.as_str()
    }
}

impl Clone for GerbilResidentStrategyRequestId {
    fn clone(&self) -> (copy: Self)
        ensures
            copy == *self,
    {
        GerbilResidentStrategyRequestId(self.0.clone())
    }
}

impl PartialEq for GerbilResidentStrategyRequestId {
    fn eq(&self, other: &Self) -> (same: bool) {
        self.0 == other.0
    }
}

impl Eq for GerbilResidentStrategyRequestId {}

impl PartialEqSpecImpl for GerbilResidentStrategyRequestId {
    open spec fn obeys_eq_spec() -> bool {
        true
    }

    open spec fn eq_spec(&self, other: &Self) -> bool {
        self@ == other@
    }
}

/// Lifecycle status for a resident Gerbil strategy lane.
#[derive(Clone, Copy, Debug, PartialEq, Eq, Structural)]
pub enum GerbilResidentStrategyLaneStatus {
    Disabled,
    ReadyToServe,
}

/// Rust-owned lane plan for a resident Gerbil strategy service.
#[derive(Clone, Debug, PartialEq, Eq)]
pub struct GerbilResidentStrategyLanePlan {
    pub lane_id: GerbilResidentStrategyLaneId,
    pub event_kind: GerbilResidentStrategyEventKind,
    pub status: GerbilResidentStrategyLaneStatus,
    pub session_mode: GerbilResidentRuntimeSessionMode,
    pub session_id: Option<GerbilResidentRuntimeSessionId>,
    pub process_reuse_required: bool,
    pub state_isolated: bool,
    pub command_profile: Option<GerbilCommandProfile>,
    pub loadpath_root: String,
}

/// Rust-owned plan for dedicated resident Gerbil strategy lanes.
#[derive(Clone, Debug, PartialEq, Eq)]
pub struct GerbilResidentStrategyServicePlan {
    pub session_mode: GerbilResidentRuntimeSessionMode,
    pub session_id: Option<GerbilResidentRuntimeSessionId>,
    pub process_reuse_required: bool,
    pub state_isolated: bool,
    pub loadpath_root: String,
    pub lanes: Vec<GerbilResidentStrategyLanePlan>,
}

/// Receipt proving the resident runtime exposes strategy lanes before execution.
#[derive(Clone, Debug, PartialEq, Eq)]
pub struct GerbilResidentStrategyServiceReceipt {
    pub session_mode: GerbilResidentRuntimeSessionMode,
    pub session_id: Option<GerbilResidentRuntimeSessionId>,
    pub process_reuse_required: bool,
    pub state_isolated: bool,
    pub loadpath_root: String,
    pub lane_count: usize,
    pub ready_lane_count: usize,
    pub disabled_lane_count: usize,
    pub dynamic_replan_lane_count: usize,
    pub policy_change_lane_count: usize,
    pub lanes: Vec<GerbilResidentStrategyLanePlan>,
}

/// Rust-owned request for a resident Gerbil strategy lane.
#[derive(Clone, Debug, PartialEq, Eq)]
pub struct GerbilResidentStrategyRequest {
    pub request_id: GerbilResidentStrategyRequestId,
    pub lane_id: GerbilResidentStrategyLaneId,
    pub event_kind: GerbilResidentStrategyEventKind,
    pub session_id: Option<GerbilResidentRuntimeSessionId>,
    pub policy_epoch: Option<u64>,
}

impl GerbilResidentStrategyRequest {
    /// A request on the lane that serves its event kind.
    pub fn new(request_id: &str, event_kind: GerbilResidentStrategyEventKind) -> (request: Self)
        ensures
            request.request_id@ == request_id@,
            request.lane_id@ == lane_label(event_kind),
            request.event_kind == event_kind,
            request.session_id is None,
            request.policy_epoch is None,
    {
        let lane_id = event_kind.lane_id();
        GerbilResidentStrategyRequest {
            request_id: GerbilResidentStrategyRequestId::new(request_id),
            lane_id,
            event_kind,
            session_id: None,
            policy_epoch: None,
        }
    }

    pub fn with_lane_id(self, lane_id: &str) -> (request: Self)
        ensures
            request.request_id == self.request_id,
            request.lane_id@ == lane_id@,
            request.event_kind == self.event_kind,
            request.session_id == self.session_id,
            request.policy_epoch == self.policy_epoch,
    {
        GerbilResidentStrategyRequest {
            request_id: self.request_id,
            lane_id: GerbilResidentStrategyLaneId::new(lane_id),
            event_kind: self.event_kind,
            session_id: self.session_id,
            policy_epoch: self.policy_epoch,
        }
    }

    pub fn with_session_id(self, session_id: &str) -> (request: Self)
        ensures
            request.request_id == self.request_id,
            request.lane_id == self.lane_id,
            request.event_kind == self.event_kind,
            request.session_id is Some && request.session_id->Some_0@ == session_id@,
            request.policy_epoch == self.policy_epoch,
    {
        GerbilResidentStrategyRequest {
            request_id: self.request_id,
            lane_id: self.lane_id,
            event_kind: self.event_kind,
            session_id: Some(GerbilResidentRuntimeSessionId::new(session_id)),
            policy_epoch: self.policy_epoch,
        }
    }

    pub fn with_policy_epoch(self, policy_epoch: u64) -> (request: Self)
        ensures
            request.request_id == self.request_id,
            request.lane_id == self.lane_id,
            request.event_kind == self.event_kind,
            request.session_id == self.session_id,
            request.policy_epoch == Some(policy_epoch),
    {
        GerbilResidentStrategyRequest {
            request_id: self.request_id,
            lane_id: self.lane_id,
            event_kind: self.event_kind,
            session_id: self.session_id,
            policy_epoch: Some(policy_epoch),
        }
    }
}

/// Request admission status for a resident Gerbil strategy lane.
#[derive(Clone, Copy, Debug, PartialEq, Eq, Structural)]
pub enum GerbilResidentStrategyRequestStatus {
    Accepted,
    RuntimeDisabled,
    LaneUnavailable,
    EventLaneMismatch,
    ProcessNotRunning,
}

/// Receipt emitted after routing a typed strategy request to a resident lane.
#[derive(Clone, Debug, PartialEq, Eq)]
pub struct GerbilResidentStrategyRequestReceipt {
    pub request_id: GerbilResidentStrategyRequestId,
    pub lane_id: GerbilResidentStrategyLaneId,
    pub event_kind: GerbilResidentStrategyEventKind,
    pub status: GerbilResidentStrategyRequestStatus,
    pub session_mode: GerbilResidentRuntimeSessionMode,
    pub session_id: Option<GerbilResidentRuntimeSessionId>,
    pub process_reuse_required: bool,
    pub state_isolated: bool,
    pub policy_epoch: Option<u64>,
    pub child_id: Option<u32>,
    pub process_health: Option<GerbilResidentRuntimeHealthStatus>,
}

} // verus!
