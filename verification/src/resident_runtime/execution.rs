//! Execution statuses and performance receipts for resident `Gerbil Scheme` strategy requests.

use vstd::prelude::*;

use super::process::GerbilResidentRuntimeHealthStatus;
use super::request::{
    GerbilResidentStrategyEventKind, GerbilResidentStrategyRequest,
    GerbilResidentStrategyRequestReceipt, GerbilResidentStrategyRequestStatus, lane_label,
};
use super::session::GerbilResidentRuntimeSessionId;
use crate::scheme_types::value::GerbilSchemeValue;

verus! {

/// Execution status returned by a typed resident strategy executor.
#[derive(Clone, Copy, Debug, PartialEq, Eq, Structural)]
pub enum GerbilResidentStrategyExecutionStatus {
    Executed,
    Denied,
    Deferred,
    RejectedByContract,
    RuntimeError,
    AdmissionRejected,
}

/// Performance scope measured by a resident strategy execution receipt.
#[derive(Clone, Copy, Debug, PartialEq, Eq, Structural)]
pub enum GerbilResidentStrategyExecutionPerformanceScope {
    AdmissionAndExecution,
}

/// Rust-owned performance receipt for a resident strategy execution.
#[derive(Clone, Debug, PartialEq, Eq)]
pub struct GerbilResidentStrategyExecutionPerformanceReceipt {
    pub scope: GerbilResidentStrategyExecutionPerformanceScope,
    pub executor_invoked: bool,
    pub elapsed_micros: u64,
    pub process_reuse_required: bool,
    pub process_reuse_observed: bool,
    pub child_id: Option<u32>,
}

impl GerbilResidentStrategyExecutionPerformanceReceipt {
    /// Performance receipt of one admitted or rejected request; process reuse
    /// is observed when it is required and a running child served the request.
    pub fn new(
        request_receipt: &GerbilResidentStrategyRequestReceipt,
        executor_invoked: bool,
        elapsed_micros: u64,
    ) -> (receipt: Self)
        ensures
            receipt.scope
                == GerbilResidentStrategyExecutionPerformanceScope::AdmissionAndExecution,
            receipt.executor_invoked == executor_invoked,
            receipt.elapsed_micros == elapsed_micros,
            receipt.process_reuse_required == request_receipt.process_reuse_required,
            receipt.process_reuse_observed == (request_receipt.process_reuse_required
                && request_receipt.child_id is Some && request_receipt.process_health == Some(
                GerbilResidentRuntimeHealthStatus::Running,
            )),
            receipt.child_id == request_receipt.child_id,
    {
        let running = match request_receipt.process_health {
            Some(GerbilResidentRuntimeHealthStatus::Running) => true,
            _ => false,
        };
        GerbilResidentStrategyExecutionPerformanceReceipt {
            scope: GerbilResidentStrategyExecutionPerformanceScope::AdmissionAndExecution,
            executor_invoked,
            elapsed_micros,
            process_reuse_required: request_receipt.process_reuse_required,
            process_reuse_observed: request_receipt.process_reuse_required
                && request_receipt.child_id.is_some() && running,
            child_id: request_receipt.child_id,
        }
    }
}


/// Typed execution request sent behind an accepted resident strategy lane.
#[derive(Debug, PartialEq, Eq)]
pub struct GerbilResidentStrategyExecutionRequest {
    pub strategy_request: GerbilResidentStrategyRequest,
    pub payload: GerbilSchemeValue,
}

impl GerbilResidentStrategyExecutionRequest {
    pub fn new(
        request_id: &str,
        event_kind: GerbilResidentStrategyEventKind,
        payload: GerbilSchemeValue,
    ) -> (request: Self)
        ensures
            request.strategy_request.request_id@ == request_id@,
            request.strategy_request.lane_id@ == lane_label(event_kind),
            request.strategy_request.event_kind == event_kind,
            request.strategy_request.session_id is None,
            request.strategy_request.policy_epoch is None,
            request.payload == payload,
    {
        GerbilResidentStrategyExecutionRequest {
            strategy_request: GerbilResidentStrategyRequest::new(request_id, event_kind),
            payload,
        }
    }

    pub fn with_lane_id(self, lane_id: &str) -> (request: Self)
        ensures
            request.strategy_request.lane_id@ == lane_id@,
            request.strategy_request.request_id == self.strategy_request.request_id,
            request.strategy_request.event_kind == self.strategy_request.event_kind,
            request.strategy_request.session_id == self.strategy_request.session_id,
            request.strategy_request.policy_epoch == self.strategy_request.policy_epoch,
            request.payload == self.payload,
    {
        GerbilResidentStrategyExecutionRequest {
            strategy_request: self.strategy_request.with_lane_id(lane_id),
            payload: self.payload,
        }
    }

    pub fn with_session_id(self, session_id: &str) -> (request: Self)
        ensures
            request.strategy_request.session_id matches Some(id) && id@ == session_id@,
            request.strategy_request.request_id == self.strategy_request.request_id,
            request.strategy_request.lane_id == self.strategy_request.lane_id,
            request.strategy_request.event_kind == self.strategy_request.event_kind,
            request.strategy_request.policy_epoch == self.strategy_request.policy_epoch,
            request.payload == self.payload,
    {
        GerbilResidentStrategyExecutionRequest {
            strategy_request: self.strategy_request.with_session_id(session_id),
            payload: self.payload,
        }
    }

    pub fn with_policy_epoch(self, policy_epoch: u64) -> (request: Self)
        ensures
            request.strategy_request.policy_epoch == Some(policy_epoch),
            request.strategy_request.request_id == self.strategy_request.request_id,
            request.strategy_request.lane_id == self.strategy_request.lane_id,
            request.strategy_request.event_kind == self.strategy_request.event_kind,
            request.strategy_request.session_id == self.strategy_request.session_id,
            request.payload == self.payload,
    {
        GerbilResidentStrategyExecutionRequest {
            strategy_request: self.strategy_request.with_policy_epoch(policy_epoch),
            payload: self.payload,
        }
    }
}

/// Typed response produced by a resident Gerbil strategy executor.
#[derive(Debug, PartialEq, Eq)]
pub struct GerbilResidentStrategyExecutionResponse {
    pub status: GerbilResidentStrategyExecutionStatus,
    pub payload: Option<GerbilSchemeValue>,
    pub reason: Option<String>,
    pub derived_session_id: Option<GerbilResidentRuntimeSessionId>,
}

impl GerbilResidentStrategyExecutionResponse {
    pub fn executed(payload: GerbilSchemeValue) -> (response: Self)
        ensures
            response.status == GerbilResidentStrategyExecutionStatus::Executed,
            response.payload == Some(payload),
            response.reason is None,
            response.derived_session_id is None,
    {
        GerbilResidentStrategyExecutionResponse {
            status: GerbilResidentStrategyExecutionStatus::Executed,
            payload: Some(payload),
            reason: None,
            derived_session_id: None,
        }
    }

    /// A response with a status and a reason, and no payload.
    pub fn without_payload(status: GerbilResidentStrategyExecutionStatus, reason: &str) -> (response:
        Self)
        ensures
            response.status == status,
            response.payload is None,
            response.reason matches Some(r) && r@ == reason@,
            response.derived_session_id is None,
    {
        GerbilResidentStrategyExecutionResponse {
            status,
            payload: None,
            reason: Some(reason.to_owned()),
            derived_session_id: None,
        }
    }

    pub fn denied(reason: &str) -> (response: Self)
        ensures
            response.status == GerbilResidentStrategyExecutionStatus::Denied,
            response.payload is None,
            response.reason matches Some(r) && r@ == reason@,
            response.derived_session_id is None,
    {
        Self::without_payload(GerbilResidentStrategyExecutionStatus::Denied, reason)
    }

    pub fn deferred(reason: &str) -> (response: Self)
        ensures
            response.status == GerbilResidentStrategyExecutionStatus::Deferred,
            response.payload is None,
            response.reason matches Some(r) && r@ == reason@,
            response.derived_session_id is None,
    {
        Self::without_payload(GerbilResidentStrategyExecutionStatus::Deferred, reason)
    }

    pub fn rejected_by_contract(reason: &str) -> (response: Self)
        ensures
            response.status == GerbilResidentStrategyExecutionStatus::RejectedByContract,
            response.payload is None,
            response.reason matches Some(r) && r@ == reason@,
            response.derived_session_id is None,
    {
        Self::without_payload(GerbilResidentStrategyExecutionStatus::RejectedByContract, reason)
    }

    pub fn runtime_error(reason: &str) -> (response: Self)
        ensures
            response.status == GerbilResidentStrategyExecutionStatus::RuntimeError,
            response.payload is None,
            response.reason matches Some(r) && r@ == reason@,
            response.derived_session_id is None,
    {
        Self::without_payload(GerbilResidentStrategyExecutionStatus::RuntimeError, reason)
    }

    pub fn with_derived_session_id(self, session_id: &str) -> (response: Self)
        ensures
            response.status == self.status,
            response.payload == self.payload,
            response.reason == self.reason,
            response.derived_session_id matches Some(id) && id@ == session_id@,
    {
        GerbilResidentStrategyExecutionResponse {
            status: self.status,
            payload: self.payload,
            reason: self.reason,
            derived_session_id: Some(GerbilResidentRuntimeSessionId::new(session_id)),
        }
    }
}

/// Receipt proving a typed resident strategy request crossed admission and execution.
#[derive(Debug, PartialEq, Eq)]
pub struct GerbilResidentStrategyExecutionReceipt {
    pub request_receipt: GerbilResidentStrategyRequestReceipt,
    pub request_payload: GerbilSchemeValue,
    pub status: GerbilResidentStrategyExecutionStatus,
    pub response_payload: Option<GerbilSchemeValue>,
    pub reason: Option<String>,
    pub derived_session_id: Option<GerbilResidentRuntimeSessionId>,
    pub performance: GerbilResidentStrategyExecutionPerformanceReceipt,
}

impl GerbilResidentStrategyExecutionReceipt {
    /// Receipt of a request that admission refused: the executor was not invoked.
    pub fn admission_rejected(
        request_receipt: GerbilResidentStrategyRequestReceipt,
        request_payload: GerbilSchemeValue,
        elapsed_micros: u64,
    ) -> (receipt: Self)
        ensures
            receipt.request_receipt == request_receipt,
            receipt.request_payload == request_payload,
            receipt.status == GerbilResidentStrategyExecutionStatus::AdmissionRejected,
            receipt.response_payload is None,
            receipt.reason is None,
            receipt.derived_session_id is None,
            !receipt.performance.executor_invoked,
            receipt.performance.elapsed_micros == elapsed_micros,
            receipt.performance.process_reuse_required == request_receipt.process_reuse_required,
            receipt.performance.process_reuse_observed == (request_receipt.process_reuse_required
                && request_receipt.child_id is Some && request_receipt.process_health == Some(
                GerbilResidentRuntimeHealthStatus::Running,
            )),
            receipt.performance.child_id == request_receipt.child_id,
    {
        let performance = GerbilResidentStrategyExecutionPerformanceReceipt::new(
            &request_receipt,
            false,
            elapsed_micros,
        );
        GerbilResidentStrategyExecutionReceipt {
            request_receipt,
            request_payload,
            status: GerbilResidentStrategyExecutionStatus::AdmissionRejected,
            response_payload: None,
            reason: None,
            derived_session_id: None,
            performance,
        }
    }

    /// Receipt of an admitted request that the executor answered with `response`.
    pub fn from_response(
        request_receipt: GerbilResidentStrategyRequestReceipt,
        request_payload: GerbilSchemeValue,
        response: GerbilResidentStrategyExecutionResponse,
        elapsed_micros: u64,
    ) -> (receipt: Self)
        ensures
            receipt.request_receipt == request_receipt,
            receipt.request_payload == request_payload,
            receipt.status == response.status,
            receipt.response_payload == response.payload,
            receipt.reason == response.reason,
            receipt.derived_session_id == response.derived_session_id,
            receipt.performance.executor_invoked,
            receipt.performance.elapsed_micros == elapsed_micros,
            receipt.performance.process_reuse_required == request_receipt.process_reuse_required,
            receipt.performance.process_reuse_observed == (request_receipt.process_reuse_required
                && request_receipt.child_id is Some && request_receipt.process_health == Some(
                GerbilResidentRuntimeHealthStatus::Running,
            )),
            receipt.performance.child_id == request_receipt.child_id,
    {
        let performance = GerbilResidentStrategyExecutionPerformanceReceipt::new(
            &request_receipt,
            true,
            elapsed_micros,
        );
        GerbilResidentStrategyExecutionReceipt {
            request_receipt,
            request_payload,
            status: response.status,
            response_payload: response.payload,
            reason: response.reason,
            derived_session_id: response.derived_session_id,
            performance,
        }
    }
}

/// What to do with a request once its admission is known: run the executor
/// on an admitted one, or close a refused one with its receipt.
#[derive(Debug)]
pub enum GerbilResidentStrategyAdmission {
    Execute { request_receipt: GerbilResidentStrategyRequestReceipt, payload: GerbilSchemeValue },
    Rejected(GerbilResidentStrategyExecutionReceipt),
}

/// Decides whether the executor runs for a request: only when its admission
/// receipt accepted it; a refused request gets its admission-rejected
/// receipt, and the executor is never invoked for it.
pub fn admit_strategy_execution(
    request_receipt: GerbilResidentStrategyRequestReceipt,
    payload: GerbilSchemeValue,
    elapsed_micros: u64,
) -> (decision: GerbilResidentStrategyAdmission)
    ensures
        match decision {
            GerbilResidentStrategyAdmission::Execute { request_receipt: admitted, payload: p } => {
                &&& request_receipt.status == GerbilResidentStrategyRequestStatus::Accepted
                &&& admitted == request_receipt
                &&& p == payload
            },
            GerbilResidentStrategyAdmission::Rejected(r) => {
                &&& request_receipt.status != GerbilResidentStrategyRequestStatus::Accepted
                &&& r.request_receipt == request_receipt
                &&& r.request_payload == payload
                &&& r.status == GerbilResidentStrategyExecutionStatus::AdmissionRejected
                &&& r.response_payload is None
                &&& r.reason is None
                &&& r.derived_session_id is None
                &&& !r.performance.executor_invoked
                &&& r.performance.elapsed_micros == elapsed_micros
            },
        },
{
    if request_receipt.status == GerbilResidentStrategyRequestStatus::Accepted {
        GerbilResidentStrategyAdmission::Execute { request_receipt, payload }
    } else {
        GerbilResidentStrategyAdmission::Rejected(
            GerbilResidentStrategyExecutionReceipt::admission_rejected(
                request_receipt,
                payload,
                elapsed_micros,
            ),
        )
    }
}

} // verus!
