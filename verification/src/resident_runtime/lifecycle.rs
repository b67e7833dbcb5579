//! Decisions and receipts around the life of a resident Gerbil adapter process.
//!
//! Spawning, polling and killing the child process are the caller's part; it
//! hands back the child's id and how the child ended, as plain values.

use vstd::prelude::*;

use super::laws::law_strategy_admission;
use super::process::{
    GerbilResidentRuntimeHealthReceipt, GerbilResidentRuntimeHealthStatus,
    GerbilResidentRuntimeProcessPlan, GerbilResidentRuntimeProcessStatus,
    GerbilResidentRuntimeShutdownReceipt, GerbilResidentRuntimeShutdownStatus, copy_session_id,
};
use super::request::{
    GerbilResidentStrategyEventKind, GerbilResidentStrategyRequest,
    GerbilResidentStrategyRequestReceipt, GerbilResidentStrategyRequestStatus, lane_label,
};
use crate::runtime::GerbilCommandProfile;

verus! {

/// How an exited process ended: its exit code, if it has one, and whether it succeeded.
#[derive(Clone, Copy, Debug, PartialEq, Eq, Structural)]
pub struct GerbilProcessExit {
    pub code: Option<i32>,
    pub success: bool,
}

/// Admission of a request by a process: refused while the process is not
/// running, otherwise decided by the lane the request names (see
/// [`law_strategy_admission`]).
pub open spec fn process_admission(
    plan: GerbilResidentRuntimeProcessPlan,
    health: GerbilResidentRuntimeHealthStatus,
    request: GerbilResidentStrategyRequest,
) -> GerbilResidentStrategyRequestStatus {
    if health != GerbilResidentRuntimeHealthStatus::Running {
        GerbilResidentStrategyRequestStatus::ProcessNotRunning
    } else if request.lane_id@ == lane_label(request.event_kind) {
        if plan.status == GerbilResidentRuntimeProcessStatus::ReadyToSpawn {
            GerbilResidentStrategyRequestStatus::Accepted
        } else {
            GerbilResidentStrategyRequestStatus::RuntimeDisabled
        }
    } else if request.lane_id@ == lane_label(GerbilResidentStrategyEventKind::DynamicReplan)
        || request.lane_id@ == lane_label(GerbilResidentStrategyEventKind::PolicyChange) {
        GerbilResidentStrategyRequestStatus::EventLaneMismatch
    } else {
        GerbilResidentStrategyRequestStatus::LaneUnavailable
    }
}

impl GerbilResidentRuntimeProcessPlan {
    /// The profile to spawn the adapter with; a disabled plan, or one without
    /// a profile, cannot be spawned.
    pub fn spawn_profile(&self) -> (profile: Result<&GerbilCommandProfile, &'static str>)
        ensures
            match profile {
                Ok(p) => self.status == GerbilResidentRuntimeProcessStatus::ReadyToSpawn
                    && self.command_profile == Some(*p),
                Err(message) => if self.status != GerbilResidentRuntimeProcessStatus::ReadyToSpawn {
                    message@ == "resident Gerbil runtime process is disabled"@
                } else {
                    self.command_profile is None && message@
                        == "resident Gerbil runtime process is missing command profile"@
                },
            },
    {
        if self.status != GerbilResidentRuntimeProcessStatus::ReadyToSpawn {
            return Err("resident Gerbil runtime process is disabled");
        }
        match &self.command_profile {
            Some(profile) => Ok(profile),
            None => Err("resident Gerbil runtime process is missing command profile"),
        }
    }

    /// Health receipt of this plan's process `child_id`: running until it has exited.
    pub fn health_receipt(&self, child_id: u32, exit: Option<GerbilProcessExit>) -> (receipt:
        GerbilResidentRuntimeHealthReceipt)
        ensures
            receipt.session_mode == self.session_mode,
            receipt.session_id == self.session_id,
            receipt.process_reuse_required == self.process_reuse_required,
            receipt.state_isolated == self.state_isolated,
            receipt.child_id == child_id,
            receipt.status == if exit is Some {
                GerbilResidentRuntimeHealthStatus::Exited
            } else {
                GerbilResidentRuntimeHealthStatus::Running
            },
            receipt.exit_code == match exit {
                Some(e) => e.code,
                None => None,
            },
            receipt.exit_success == match exit {
                Some(e) => Some(e.success),
                None => None,
            },
    {
        GerbilResidentRuntimeHealthReceipt {
            session_mode: self.session_mode,
            session_id: copy_session_id(&self.session_id),
            process_reuse_required: self.process_reuse_required,
            state_isolated: self.state_isolated,
            child_id,
            status: match exit {
                Some(_) => GerbilResidentRuntimeHealthStatus::Exited,
                None => GerbilResidentRuntimeHealthStatus::Running,
            },
            exit_code: match exit {
                Some(e) => e.code,
                None => None,
            },
            exit_success: match exit {
                Some(e) => Some(e.success),
                None => None,
            },
        }
    }

    /// Routes a request to this plan's process, whose health is `health`: the
    /// receipt records the child and its health, and a process that is not
    /// running admits nothing.
    pub fn process_request_receipt(
        &self,
        health: &GerbilResidentRuntimeHealthReceipt,
        request: GerbilResidentStrategyRequest,
    ) -> (receipt: GerbilResidentStrategyRequestReceipt)
        ensures
            receipt.request_id == request.request_id,
            receipt.lane_id == request.lane_id,
            receipt.event_kind == request.event_kind,
            receipt.status == process_admission(*self, health.status, request),
            receipt.session_mode == self.session_mode,
            receipt.session_id == match request.session_id {
                Some(id) => Some(id),
                None => self.session_id,
            },
            receipt.process_reuse_required == self.process_reuse_required,
            receipt.state_isolated == self.state_isolated,
            receipt.policy_epoch == request.policy_epoch,
            receipt.child_id == Some(health.child_id),
            receipt.process_health == Some(health.status),
    {
        let service = self.strategy_service_plan();
        let ghost routed = request;
        let mut receipt = service.request_receipt(request);
        proof {
            law_strategy_admission(service.lanes@, *self, routed);
        }
        receipt.child_id = Some(health.child_id);
        receipt.process_health = Some(health.status);
        if health.status != GerbilResidentRuntimeHealthStatus::Running {
            receipt.status = GerbilResidentStrategyRequestStatus::ProcessNotRunning;
        }
        receipt
    }

    /// Shutdown receipt of this plan's process `child_id`, which ended as `exit`.
    pub fn shutdown_receipt(
        &self,
        child_id: u32,
        status: GerbilResidentRuntimeShutdownStatus,
        exit: GerbilProcessExit,
    ) -> (receipt: GerbilResidentRuntimeShutdownReceipt)
        ensures
            receipt.session_mode == self.session_mode,
            receipt.session_id == self.session_id,
            receipt.child_id == child_id,
            receipt.status == status,
            receipt.exit_code == exit.code,
            receipt.exit_success == exit.success,
    {
        GerbilResidentRuntimeShutdownReceipt {
            session_mode: self.session_mode,
            session_id: copy_session_id(&self.session_id),
            child_id,
            status,
            exit_code: exit.code,
            exit_success: exit.success,
        }
    }
}

} // verus!
