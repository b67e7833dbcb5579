//! Process plans and lifecycle receipts for prepared resident `Gerbil Scheme` runtimes.

use vstd::prelude::*;

use super::request::{
    GerbilResidentStrategyEventKind, GerbilResidentStrategyLanePlan,
    GerbilResidentStrategyLaneStatus, GerbilResidentStrategyServicePlan, lane_label,
};
use super::session::{GerbilResidentRuntimeSessionId, GerbilResidentRuntimeSessionMode};
use crate::runtime::GerbilCommandProfile;

verus! {

/// Lifecycle status for a prepared resident process plan.
#[derive(Clone, Copy, Debug, PartialEq, Eq, Structural)]
pub enum GerbilResidentRuntimeProcessStatus {
    Disabled,
    ReadyToSpawn,
}

/// Rust-owned plan for spawning the prepared resident Gerbil batch adapter.
#[derive(Clone, Debug, PartialEq, Eq)]
pub struct GerbilResidentRuntimeProcessPlan {
    pub session_mode: GerbilResidentRuntimeSessionMode,
    pub session_id: Option<GerbilResidentRuntimeSessionId>,
    pub process_reuse_required: bool,
    pub state_isolated: bool,
    pub status: GerbilResidentRuntimeProcessStatus,
    pub command_profile: Option<GerbilCommandProfile>,
    pub loadpath_root: String,
}

/// Receipt proving the prepared runtime can be projected into a process plan.
#[derive(Clone, Debug, PartialEq, Eq)]
pub struct GerbilResidentRuntimeProcessReceipt {
    pub session_mode: GerbilResidentRuntimeSessionMode,
    pub session_id: Option<GerbilResidentRuntimeSessionId>,
    pub process_reuse_required: bool,
    pub state_isolated: bool,
    pub status: GerbilResidentRuntimeProcessStatus,
    pub command_profile: Option<GerbilCommandProfile>,
    pub loadpath_root: String,
    pub written_asset_count: usize,
}

/// Health status for the owned resident Gerbil batch adapter process.
#[derive(Clone, Copy, Debug, PartialEq, Eq, Structural)]
pub enum GerbilResidentRuntimeHealthStatus {
    Running,
    Exited,
}

/// Health receipt for a resident Gerbil runtime process.
#[derive(Clone, Debug, PartialEq, Eq)]
pub struct GerbilResidentRuntimeHealthReceipt {
    pub session_mode: GerbilResidentRuntimeSessionMode,
    pub session_id: Option<GerbilResidentRuntimeSessionId>,
    pub process_reuse_required: bool,
    pub state_isolated: bool,
    pub child_id: u32,
    pub status: GerbilResidentRuntimeHealthStatus,
    pub exit_code: Option<i32>,
    pub exit_success: Option<bool>,
}

/// Shutdown status for a resident Gerbil runtime process.
#[derive(Clone, Copy, Debug, PartialEq, Eq, Structural)]
pub enum GerbilResidentRuntimeShutdownStatus {
    AlreadyExited,
    GracefulExit,
    Terminated,
}

/// Shutdown receipt for a resident Gerbil runtime process.
#[derive(Clone, Debug, PartialEq, Eq)]
pub struct GerbilResidentRuntimeShutdownReceipt {
    pub session_mode: GerbilResidentRuntimeSessionMode,
    pub session_id: Option<GerbilResidentRuntimeSessionId>,
    pub child_id: u32,
    pub status: GerbilResidentRuntimeShutdownStatus,
    pub exit_code: Option<i32>,
    pub exit_success: bool,
}

/// The view of an optional command profile.
pub open spec fn profile_view(profile: Option<GerbilCommandProfile>) -> Option<
    (Seq<char>, Seq<Seq<char>>, Seq<(Seq<char>, Seq<char>)>, Option<Seq<char>>),
> {
    match profile {
        Some(p) => Some(p@),
        None => None,
    }
}

/// Copy of an optional session id.
pub fn copy_session_id(session_id: &Option<GerbilResidentRuntimeSessionId>) -> (copy: Option<
    GerbilResidentRuntimeSessionId,
>)
    ensures
        copy == *session_id,
{
    match session_id {
        Some(id) => Some(id.clone()),
        None => None,
    }
}

/// Copy of an optional command profile.
pub fn copy_profile(profile: &Option<GerbilCommandProfile>) -> (copy: Option<GerbilCommandProfile>)
    ensures
        profile_view(copy) == profile_view(*profile),
{
    match profile {
        Some(p) => Some(p.clone()),
        None => None,
    }
}

/// Lane status of a process plan status.
pub open spec fn lane_status_for(status: GerbilResidentRuntimeProcessStatus) -> GerbilResidentStrategyLaneStatus {
    if status == GerbilResidentRuntimeProcessStatus::ReadyToSpawn {
        GerbilResidentStrategyLaneStatus::ReadyToServe
    } else {
        GerbilResidentStrategyLaneStatus::Disabled
    }
}

/// `lane` serves `event_kind` for the process planned by `plan`.
pub open spec fn lane_serves(
    lane: GerbilResidentStrategyLanePlan,
    event_kind: GerbilResidentStrategyEventKind,
    plan: GerbilResidentRuntimeProcessPlan,
) -> bool {
    &&& lane.lane_id@ == lane_label(event_kind)
    &&& lane.event_kind == event_kind
    &&& lane.status == lane_status_for(plan.status)
    &&& lane.session_mode == plan.session_mode
    &&& lane.session_id == plan.session_id
    &&& lane.process_reuse_required == plan.process_reuse_required
    &&& lane.state_isolated == plan.state_isolated
    &&& profile_view(lane.command_profile) == profile_view(plan.command_profile)
    &&& lane.loadpath_root@ == plan.loadpath_root@
}

impl GerbilResidentRuntimeProcessPlan {
    fn lane(&self, event_kind: GerbilResidentStrategyEventKind) -> (lane:
        GerbilResidentStrategyLanePlan)
        ensures
            lane_serves(lane, event_kind, *self),
    {
        let status = if self.status == GerbilResidentRuntimeProcessStatus::ReadyToSpawn {
            GerbilResidentStrategyLaneStatus::ReadyToServe
        } else {
            GerbilResidentStrategyLaneStatus::Disabled
        };
        GerbilResidentStrategyLanePlan {
            lane_id: event_kind.lane_id(),
            event_kind,
            status,
            session_mode: self.session_mode,
            session_id: copy_session_id(&self.session_id),
            process_reuse_required: self.process_reuse_required,
            state_isolated: self.state_isolated,
            command_profile: copy_profile(&self.command_profile),
            loadpath_root: self.loadpath_root.clone(),
        }
    }

    /// The strategy lanes of this process: one for dynamic replans, then one
    /// for policy changes, ready exactly when the process is ready to spawn.
    pub fn strategy_service_plan(&self) -> (service: GerbilResidentStrategyServicePlan)
        ensures
            service.session_mode == self.session_mode,
            service.session_id == self.session_id,
            service.process_reuse_required == self.process_reuse_required,
            service.state_isolated == self.state_isolated,
            service.loadpath_root@ == self.loadpath_root@,
            service.lanes@.len() == 2,
            lane_serves(
                service.lanes@[0],
                GerbilResidentStrategyEventKind::DynamicReplan,
                *self,
            ),
            lane_serves(service.lanes@[1], GerbilResidentStrategyEventKind::PolicyChange, *self),
    {
        let lanes = vec![
            self.lane(GerbilResidentStrategyEventKind::DynamicReplan),
            self.lane(GerbilResidentStrategyEventKind::PolicyChange),
        ];
        GerbilResidentStrategyServicePlan {
            session_mode: self.session_mode,
            session_id: copy_session_id(&self.session_id),
            process_reuse_required: self.process_reuse_required,
            state_isolated: self.state_isolated,
            loadpath_root: self.loadpath_root.clone(),
            lanes,
        }
    }
}

} // verus!
