//! Prepared handle receipts and process plans for resident `Gerbil Scheme` runtime sessions.

use vstd::prelude::*;

use super::process::{
    GerbilResidentRuntimeProcessPlan, GerbilResidentRuntimeProcessReceipt,
    GerbilResidentRuntimeProcessStatus, copy_session_id, lane_serves,
};
use super::request::{
    GerbilResidentStrategyEventKind, GerbilResidentStrategyLanePlan,
    GerbilResidentStrategyLaneStatus, GerbilResidentStrategyServicePlan,
    GerbilResidentStrategyServiceReceipt,
};
use super::session::{
    GerbilResidentRuntimePlan, GerbilResidentRuntimePrepareReceipt, GerbilResidentRuntimeSessionMode,
};
use crate::runtime::{
    GERBIL_ADAPTER_MODULE, GERBIL_LOADPATH_ENV, GerbilCommandProfile, env_views, env_with,
    gerbil_runtime_loadpath, path_join,
};
use crate::text::seq_views;

verus! {

/// Prepared resident runtime handle. Process ownership is layered on top of this.
#[derive(Clone, Debug, PartialEq, Eq)]
pub struct GerbilResidentRuntimeHandle {
    pub plan: GerbilResidentRuntimePlan,
    pub written_assets: Vec<String>,
}

/// Whether a plan keeps a resident process.
pub open spec fn reuses_process(plan: GerbilResidentRuntimePlan) -> bool {
    plan.session_mode != GerbilResidentRuntimeSessionMode::Disabled
}

/// The profile of the resident process: the plan's profile running the
/// adapter module, with the package sources on `GERBIL_LOADPATH`.
pub open spec fn is_resident_profile(profile: GerbilCommandProfile, plan: GerbilResidentRuntimePlan) -> bool {
    &&& profile.program@ == plan.command_profile.program@
    &&& seq_views(profile.args@) == seq![":marlin/adapter"@]
    &&& env_views(profile.env@) == env_with(
        env_views(plan.command_profile.env@),
        "GERBIL_LOADPATH"@,
        path_join(plan.loadpath_root@, "src"@),
    )
    &&& profile@.3 == plan.command_profile@.3
}

/// `process` is the process plan of a handle over `plan`.
pub open spec fn is_process_plan_of(
    process: GerbilResidentRuntimeProcessPlan,
    plan: GerbilResidentRuntimePlan,
) -> bool {
    &&& process.session_mode == plan.session_mode
    &&& process.session_id == plan.session_id
    &&& process.process_reuse_required == reuses_process(plan)
    &&& process.state_isolated == (plan.session_mode
        == GerbilResidentRuntimeSessionMode::IsolatedSession)
    &&& process.status == if reuses_process(plan) {
        GerbilResidentRuntimeProcessStatus::ReadyToSpawn
    } else {
        GerbilResidentRuntimeProcessStatus::Disabled
    }
    &&& (process.command_profile is Some <==> reuses_process(plan))
    &&& (process.command_profile matches Some(p) ==> is_resident_profile(p, plan))
    &&& process.loadpath_root@ == plan.loadpath_root@
}

/// Number of lanes with the given status.
pub open spec fn count_status(
    lanes: Seq<GerbilResidentStrategyLanePlan>,
    status: GerbilResidentStrategyLaneStatus,
) -> nat
    decreases lanes.len(),
{
    if lanes.len() == 0 {
        0
    } else {
        count_status(lanes.drop_last(), status) + if lanes.last().status == status {
            1nat
        } else {
            0nat
        }
    }
}

/// Number of lanes serving the given event kind.
pub open spec fn count_event(
    lanes: Seq<GerbilResidentStrategyLanePlan>,
    event_kind: GerbilResidentStrategyEventKind,
) -> nat
    decreases lanes.len(),
{
    if lanes.len() == 0 {
        0
    } else {
        count_event(lanes.drop_last(), event_kind) + if lanes.last().event_kind == event_kind {
            1nat
        } else {
            0nat
        }
    }
}

fn count_lanes_with_status(
    lanes: &Vec<GerbilResidentStrategyLanePlan>,
    status: GerbilResidentStrategyLaneStatus,
) -> (count: usize)
    ensures
        count == count_status(lanes@, status),
{
    let mut count: usize = 0;
    let mut i: usize = 0;
    while i < lanes.len()
        invariant
            i <= lanes.len(),
            count == count_status(lanes@.take(i as int), status),
            count <= i,
        decreases lanes.len() - i,
    {
        assert(lanes@.take(i + 1).drop_last() =~= lanes@.take(i as int));
        if lanes[i].status == status {
            count += 1;
        }
        i += 1;
    }
    assert(lanes@.take(i as int) =~= lanes@);
    count
}

fn count_lanes_for_event(
    lanes: &Vec<GerbilResidentStrategyLanePlan>,
    event_kind: GerbilResidentStrategyEventKind,
) -> (count: usize)
    ensures
        count == count_event(lanes@, event_kind),
{
    let mut count: usize = 0;
    let mut i: usize = 0;
    while i < lanes.len()
        invariant
            i <= lanes.len(),
            count == count_event(lanes@.take(i as int), event_kind),
            count <= i,
        decreases lanes.len() - i,
    {
        assert(lanes@.take(i + 1).drop_last() =~= lanes@.take(i as int));
        if lanes[i].event_kind == event_kind {
            count += 1;
        }
        i += 1;
    }
    assert(lanes@.take(i as int) =~= lanes@);
    count
}

fn resident_process_command_profile(plan: &GerbilResidentRuntimePlan) -> (profile:
    GerbilCommandProfile)
    ensures
        is_resident_profile(profile, *plan),
{
    let loadpath = gerbil_runtime_loadpath(plan.loadpath_root.as_str());
    let mut profile = plan.command_profile.clone();
    profile.set_env(GERBIL_LOADPATH_ENV, loadpath.as_str());
    let args = vec![GERBIL_ADAPTER_MODULE.to_owned()];
    assert(seq_views(args@) =~= seq![":marlin/adapter"@]);
    profile.args = args;
    profile
}

impl GerbilResidentRuntimeHandle {
    pub fn plan(&self) -> (plan: &GerbilResidentRuntimePlan)
        ensures
            *plan == self.plan,
    {
        &self.plan
    }

    pub fn written_assets(&self) -> (assets: &[String])
        ensures
            assets@ == self.written_assets@,
    {
        self.written_assets.as_slice()
    }

    /// Receipt of the prepared runtime.
    pub fn receipt(&self) -> (receipt: GerbilResidentRuntimePrepareReceipt)
        ensures
            receipt.session_mode == self.plan.session_mode,
            receipt.session_id == self.plan.session_id,
            receipt.process_reuse_required == reuses_process(self.plan),
            receipt.state_isolated == (self.plan.session_mode
                == GerbilResidentRuntimeSessionMode::IsolatedSession),
            receipt.command_profile@ == self.plan.command_profile@,
            receipt.loadpath_root@ == self.plan.loadpath_root@,
            receipt.written_asset_count == self.written_assets@.len(),
    {
        GerbilResidentRuntimePrepareReceipt {
            session_mode: self.plan.session_mode,
            session_id: copy_session_id(&self.plan.session_id),
            process_reuse_required: self.plan.requires_process_reuse(),
            state_isolated: self.plan.isolates_state(),
            command_profile: self.plan.command_profile.clone(),
            loadpath_root: self.plan.loadpath_root.clone(),
            written_asset_count: self.written_assets.len(),
        }
    }

    /// Process plan of the prepared runtime: ready to spawn the adapter
    /// exactly when the session mode keeps a resident process.
    pub fn process_plan(&self) -> (process: GerbilResidentRuntimeProcessPlan)
        ensures
            is_process_plan_of(process, self.plan),
    {
        let process_reuse_required = self.plan.requires_process_reuse();
        let status = if process_reuse_required {
            GerbilResidentRuntimeProcessStatus::ReadyToSpawn
        } else {
            GerbilResidentRuntimeProcessStatus::Disabled
        };
        let command_profile = if process_reuse_required {
            Some(resident_process_command_profile(&self.plan))
        } else {
            None
        };
        GerbilResidentRuntimeProcessPlan {
            session_mode: self.plan.session_mode,
            session_id: copy_session_id(&self.plan.session_id),
            process_reuse_required,
            state_isolated: self.plan.isolates_state(),
            status,
            command_profile,
            loadpath_root: self.plan.loadpath_root.clone(),
        }
    }

    /// Process receipt: the process plan with the number of written assets.
    pub fn process_receipt(&self) -> (receipt: GerbilResidentRuntimeProcessReceipt)
        ensures
            receipt.session_mode == self.plan.session_mode,
            receipt.session_id == self.plan.session_id,
            receipt.process_reuse_required == reuses_process(self.plan),
            receipt.state_isolated == (self.plan.session_mode
                == GerbilResidentRuntimeSessionMode::IsolatedSession),
            receipt.status == if reuses_process(self.plan) {
                GerbilResidentRuntimeProcessStatus::ReadyToSpawn
            } else {
                GerbilResidentRuntimeProcessStatus::Disabled
            },
            (receipt.command_profile is Some <==> reuses_process(self.plan)),
            receipt.command_profile matches Some(p) ==> is_resident_profile(p, self.plan),
            receipt.loadpath_root@ == self.plan.loadpath_root@,
            receipt.written_asset_count == self.written_assets@.len(),
    {
        let process_plan = self.process_plan();
        GerbilResidentRuntimeProcessReceipt {
            session_mode: process_plan.session_mode,
            session_id: process_plan.session_id,
            process_reuse_required: process_plan.process_reuse_required,
            state_isolated: process_plan.state_isolated,
            status: process_plan.status,
            command_profile: process_plan.command_profile,
            loadpath_root: process_plan.loadpath_root,
            written_asset_count: self.written_assets.len(),
        }
    }

    /// Strategy lanes of the prepared runtime's process plan.
    pub fn strategy_service_plan(&self) -> (service: GerbilResidentStrategyServicePlan)
        ensures
            exists|process: GerbilResidentRuntimeProcessPlan|
                #![trigger is_process_plan_of(process, self.plan)]
                is_process_plan_of(process, self.plan) && service.session_mode
                    == process.session_mode && service.session_id == process.session_id
                    && service.process_reuse_required == process.process_reuse_required
                    && service.state_isolated == process.state_isolated
                    && service.loadpath_root@ == process.loadpath_root@ && service.lanes@.len()
                    == 2 && lane_serves(
                    service.lanes@[0],
                    GerbilResidentStrategyEventKind::DynamicReplan,
                    process,
                ) && lane_serves(
                    service.lanes@[1],
                    GerbilResidentStrategyEventKind::PolicyChange,
                    process,
                ),
    {
        let process = self.process_plan();
        process.strategy_service_plan()
    }

    /// Strategy service receipt: the lanes with their counts by status and by event.
    pub fn strategy_service_receipt(&self) -> (receipt: GerbilResidentStrategyServiceReceipt)
        ensures
            receipt.session_mode == self.plan.session_mode,
            receipt.session_id == self.plan.session_id,
            receipt.process_reuse_required == reuses_process(self.plan),
            receipt.state_isolated == (self.plan.session_mode
                == GerbilResidentRuntimeSessionMode::IsolatedSession),
            receipt.loadpath_root@ == self.plan.loadpath_root@,
            receipt.lane_count == receipt.lanes@.len(),
            receipt.ready_lane_count == count_status(
                receipt.lanes@,
                GerbilResidentStrategyLaneStatus::ReadyToServe,
            ),
            receipt.disabled_lane_count == count_status(
                receipt.lanes@,
                GerbilResidentStrategyLaneStatus::Disabled,
            ),
            receipt.dynamic_replan_lane_count == count_event(
                receipt.lanes@,
                GerbilResidentStrategyEventKind::DynamicReplan,
            ),
            receipt.policy_change_lane_count == count_event(
                receipt.lanes@,
                GerbilResidentStrategyEventKind::PolicyChange,
            ),
            exists|process: GerbilResidentRuntimeProcessPlan|
                #![trigger is_process_plan_of(process, self.plan)]
                is_process_plan_of(process, self.plan) && receipt.lanes@.len() == 2 && lane_serves(
                    receipt.lanes@[0],
                    GerbilResidentStrategyEventKind::DynamicReplan,
                    process,
                ) && lane_serves(
                    receipt.lanes@[1],
                    GerbilResidentStrategyEventKind::PolicyChange,
                    process,
                ),
    {
        let process = self.process_plan();
        let service_plan = process.strategy_service_plan();
        let lane_count = service_plan.lanes.len();
        let ready_lane_count = count_lanes_with_status(
            &service_plan.lanes,
            GerbilResidentStrategyLaneStatus::ReadyToServe,
        );
        let disabled_lane_count = count_lanes_with_status(
            &service_plan.lanes,
            GerbilResidentStrategyLaneStatus::Disabled,
        );
        let dynamic_replan_lane_count = count_lanes_for_event(
            &service_plan.lanes,
            GerbilResidentStrategyEventKind::DynamicReplan,
        );
        let policy_change_lane_count = count_lanes_for_event(
            &service_plan.lanes,
            GerbilResidentStrategyEventKind::PolicyChange,
        );
        GerbilResidentStrategyServiceReceipt {
            session_mode: service_plan.session_mode,
            session_id: service_plan.session_id,
            process_reuse_required: service_plan.process_reuse_required,
            state_isolated: service_plan.state_isolated,
            loadpath_root: service_plan.loadpath_root,
            lane_count,
            ready_lane_count,
            disabled_lane_count,
            dynamic_replan_lane_count,
            policy_change_lane_count,
            lanes: service_plan.lanes,
        }
    }
}

} // verus!
