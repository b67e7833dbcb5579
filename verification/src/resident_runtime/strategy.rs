//! Strategy lane admission for resident `Gerbil Scheme` runtime requests.

use vstd::prelude::*;

use super::process::copy_session_id;
use super::request::{
    GerbilResidentStrategyLanePlan, GerbilResidentStrategyLaneStatus,
    GerbilResidentStrategyRequest, GerbilResidentStrategyRequestReceipt,
    GerbilResidentStrategyRequestStatus, GerbilResidentStrategyServicePlan,
};
use crate::text::{first_position, lemma_first_position};

verus! {

/// The lane ids of the lanes, in order.
pub open spec fn lane_ids(lanes: Seq<GerbilResidentStrategyLanePlan>) -> Seq<Seq<char>> {
    lanes.map_values(|lane: GerbilResidentStrategyLanePlan| lane.lane_id@)
}

/// Admission of a request: the first lane with the request's lane id must
/// exist, serve the request's event kind, and not be disabled.
pub open spec fn admission_status(
    lanes: Seq<GerbilResidentStrategyLanePlan>,
    request: GerbilResidentStrategyRequest,
) -> GerbilResidentStrategyRequestStatus {
    match first_position(lane_ids(lanes), request.lane_id@) {
        None => GerbilResidentStrategyRequestStatus::LaneUnavailable,
        Some(i) => if lanes[i].event_kind != request.event_kind {
            GerbilResidentStrategyRequestStatus::EventLaneMismatch
        } else if lanes[i].status == GerbilResidentStrategyLaneStatus::Disabled {
            GerbilResidentStrategyRequestStatus::RuntimeDisabled
        } else {
            GerbilResidentStrategyRequestStatus::Accepted
        },
    }
}

impl GerbilResidentStrategyServicePlan {
    /// Routes a request to its lane and records whether it is admitted.
    pub fn request_receipt(&self, request: GerbilResidentStrategyRequest) -> (receipt:
        GerbilResidentStrategyRequestReceipt)
        ensures
            receipt.request_id == request.request_id,
            receipt.lane_id == request.lane_id,
            receipt.event_kind == request.event_kind,
            receipt.status == admission_status(self.lanes@, request),
            receipt.session_mode == self.session_mode,
            receipt.session_id == match request.session_id {
                Some(id) => Some(id),
                None => self.session_id,
            },
            receipt.process_reuse_required == self.process_reuse_required,
            receipt.state_isolated == self.state_isolated,
            receipt.policy_epoch == request.policy_epoch,
            receipt.child_id is None,
            receipt.process_health is None,
    {
        let ghost ids = lane_ids(self.lanes@);
        let mut i: usize = 0;
        while i < self.lanes.len() && !(self.lanes[i].lane_id == request.lane_id)
            invariant
                i <= self.lanes.len(),
                ids == lane_ids(self.lanes@),
                forall|j: int| 0 <= j < i ==> ids[j] != request.lane_id@,
            decreases self.lanes.len() - i,
        {
            i += 1;
        }
        proof {
            lemma_first_position(ids, request.lane_id@, i as int);
        }
        let found: Option<usize> = if i < self.lanes.len() {
            Some(i)
        } else {
            None
        };
        let status = match found {
            None => GerbilResidentStrategyRequestStatus::LaneUnavailable,
            Some(k) => {
                if self.lanes[k].event_kind != request.event_kind {
                    GerbilResidentStrategyRequestStatus::EventLaneMismatch
                } else if self.lanes[k].status == GerbilResidentStrategyLaneStatus::Disabled {
                    GerbilResidentStrategyRequestStatus::RuntimeDisabled
                } else {
                    GerbilResidentStrategyRequestStatus::Accepted
                }
            },
        };
        let session_id = match request.session_id {
            Some(id) => Some(id),
            None => copy_session_id(&self.session_id),
        };
        GerbilResidentStrategyRequestReceipt {
            request_id: request.request_id,
            lane_id: request.lane_id,
            event_kind: request.event_kind,
            status,
            session_mode: self.session_mode,
            session_id,
            process_reuse_required: self.process_reuse_required,
            state_isolated: self.state_isolated,
            policy_epoch: request.policy_epoch,
            child_id: None,
            process_health: None,
        }
    }
}

} // verus!
