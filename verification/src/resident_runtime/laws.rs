//! Properties that hold across the resident runtime's plans, lanes and receipts.

use vstd::prelude::*;

use super::handle::{count_event, count_status, is_process_plan_of, reuses_process};
use super::process::{GerbilResidentRuntimeProcessPlan, GerbilResidentRuntimeProcessStatus, lane_serves};
use super::request::{
    GerbilResidentStrategyEventKind, GerbilResidentStrategyLanePlan, GerbilResidentStrategyServiceReceipt,
    GerbilResidentStrategyLaneStatus, GerbilResidentStrategyRequest,
    GerbilResidentStrategyRequestStatus, lane_label,
};
use super::session::GerbilResidentRuntimePlan;
use super::strategy::{admission_status, lane_ids};
use crate::text::first_position;

verus! {

/// The lanes of a planned process: one for dynamic replans, then one for policy changes.
pub open spec fn are_process_lanes(
    lanes: Seq<GerbilResidentStrategyLanePlan>,
    process: GerbilResidentRuntimeProcessPlan,
) -> bool {
    &&& lanes.len() == 2
    &&& lane_serves(lanes[0], GerbilResidentStrategyEventKind::DynamicReplan, process)
    &&& lane_serves(lanes[1], GerbilResidentStrategyEventKind::PolicyChange, process)
}

/// Routing a request to the lanes of a planned process: a request is admitted
/// exactly when it names the lane of its own event kind and the process is
/// ready to spawn; naming that lane while the runtime is disabled is refused as
/// disabled; naming the other kind's lane is a mismatch; any other lane is
/// unavailable.
pub proof fn law_strategy_admission(
    lanes: Seq<GerbilResidentStrategyLanePlan>,
    process: GerbilResidentRuntimeProcessPlan,
    request: GerbilResidentStrategyRequest,
)
    requires
        are_process_lanes(lanes, process),
    ensures
        admission_status(lanes, request) == if request.lane_id@ == lane_label(request.event_kind) {
            if process.status == GerbilResidentRuntimeProcessStatus::ReadyToSpawn {
                GerbilResidentStrategyRequestStatus::Accepted
            } else {
                GerbilResidentStrategyRequestStatus::RuntimeDisabled
            }
        } else if request.lane_id@ == lane_label(GerbilResidentStrategyEventKind::DynamicReplan)
            || request.lane_id@ == lane_label(GerbilResidentStrategyEventKind::PolicyChange) {
            GerbilResidentStrategyRequestStatus::EventLaneMismatch
        } else {
            GerbilResidentStrategyRequestStatus::LaneUnavailable
        },
{
    reveal_strlit("dynamic-replan");
    reveal_strlit("policy-change");
    let ids = lane_ids(lanes);
    let dynamic = lane_label(GerbilResidentStrategyEventKind::DynamicReplan);
    let policy = lane_label(GerbilResidentStrategyEventKind::PolicyChange);
    assert(ids =~= seq![dynamic, policy]);
    assert(dynamic[0] != policy[0]);
    assert(dynamic != policy);
    assert(ids.drop_first() =~= seq![policy]);
    assert(ids.drop_first().drop_first() =~= Seq::<Seq<char>>::empty());
    if request.lane_id@ == dynamic {
        assert(first_position(ids, request.lane_id@) == Some(0int));
    } else if request.lane_id@ == policy {
        assert(first_position(ids.drop_first(), request.lane_id@) == Some(0int));
        assert(first_position(ids, request.lane_id@) == Some(1int));
    } else {
        assert(first_position(ids.drop_first().drop_first(), request.lane_id@) is None);
        assert(first_position(ids.drop_first(), request.lane_id@) is None);
        assert(first_position(ids, request.lane_id@) is None);
    }
}

/// The lanes of a process planned for a runtime plan are ready exactly when the
/// plan keeps a resident process: then both are ready and none is disabled,
/// otherwise both are disabled. Each event kind has exactly one lane.
pub proof fn law_lane_counts(
    lanes: Seq<GerbilResidentStrategyLanePlan>,
    process: GerbilResidentRuntimeProcessPlan,
    plan: GerbilResidentRuntimePlan,
)
    requires
        is_process_plan_of(process, plan),
        are_process_lanes(lanes, process),
    ensures
        count_status(lanes, GerbilResidentStrategyLaneStatus::ReadyToServe) == if reuses_process(
            plan,
        ) {
            2nat
        } else {
            0nat
        },
        count_status(lanes, GerbilResidentStrategyLaneStatus::ReadyToServe) + count_status(
            lanes,
            GerbilResidentStrategyLaneStatus::Disabled,
        ) == lanes.len(),
        count_event(lanes, GerbilResidentStrategyEventKind::DynamicReplan) == 1,
        count_event(lanes, GerbilResidentStrategyEventKind::PolicyChange) == 1,
{
    let one = lanes.drop_last();
    assert(one.drop_last() =~= Seq::<GerbilResidentStrategyLanePlan>::empty());
    assert(one.last() == lanes[0]);
    assert(lanes.last() == lanes[1]);
    let ready = GerbilResidentStrategyLaneStatus::ReadyToServe;
    let disabled = GerbilResidentStrategyLaneStatus::Disabled;
    assert(count_status(one.drop_last(), ready) == 0);
    assert(count_status(one.drop_last(), disabled) == 0);
    assert(count_status(one, ready) == if lanes[0].status == ready { 1nat } else { 0nat });
    assert(count_status(one, disabled) == if lanes[0].status == disabled { 1nat } else { 0nat });
    let dynamic = GerbilResidentStrategyEventKind::DynamicReplan;
    let policy = GerbilResidentStrategyEventKind::PolicyChange;
    assert(count_event(one.drop_last(), dynamic) == 0);
    assert(count_event(one.drop_last(), policy) == 0);
    assert(count_event(one, dynamic) == 1);
    assert(count_event(one, policy) == 0);
    if reuses_process(plan) {
        assert(lanes[0].status == ready && lanes[1].status == ready);
    } else {
        assert(lanes[0].status == disabled && lanes[1].status == disabled);
    }
}

/// A strategy service receipt, as `strategy_service_receipt` gives it for a
/// plan, counts two lanes: one per event kind, ready and disabled adding up
/// to two; both are ready when the plan keeps a resident process, and both
/// are disabled otherwise.
pub proof fn law_service_receipt_counts(
    receipt: GerbilResidentStrategyServiceReceipt,
    plan: GerbilResidentRuntimePlan,
)
    requires
        receipt.lane_count == receipt.lanes@.len(),
        receipt.ready_lane_count == count_status(
            receipt.lanes@,
            GerbilResidentStrategyLaneStatus::ReadyToServe,
        ),
        receipt.disabled_lane_count == count_status(
            receipt.lanes@,
            GerbilResidentStrategyLaneStatus::Disabled,
        ),
        receipt.dynamic_replan_lane_count == count_event(
            receipt.lanes@,
            GerbilResidentStrategyEventKind::DynamicReplan,
        ),
        receipt.policy_change_lane_count == count_event(
            receipt.lanes@,
            GerbilResidentStrategyEventKind::PolicyChange,
        ),
        exists|process: GerbilResidentRuntimeProcessPlan|
            #![trigger is_process_plan_of(process, plan)]
            is_process_plan_of(process, plan) && are_process_lanes(receipt.lanes@, process),
    ensures
        receipt.lane_count == 2,
        receipt.dynamic_replan_lane_count == 1,
        receipt.policy_change_lane_count == 1,
        receipt.ready_lane_count + receipt.disabled_lane_count == 2,
        reuses_process(plan) ==> receipt.ready_lane_count == 2,
        !reuses_process(plan) ==> receipt.disabled_lane_count == 2,
{
    let process = choose|process: GerbilResidentRuntimeProcessPlan|
        #![trigger is_process_plan_of(process, plan)]
        is_process_plan_of(process, plan) && are_process_lanes(receipt.lanes@, process);
    law_lane_counts(receipt.lanes@, process, plan);
}

} // verus!
