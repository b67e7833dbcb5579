//! Typed plan, process, and receipt surfaces for resident `Gerbil Scheme` runtime sessions.

pub mod bridge;
pub mod datum;
pub mod execution;
pub mod handle;
pub mod laws;
pub mod lifecycle;
pub mod plan;
pub mod process;
pub mod request;
pub mod session;
pub mod strategy;

pub use bridge::GerbilResidentStrategyGxiSmokeBridge;
pub use execution::{
    GerbilResidentStrategyExecutionPerformanceReceipt,
    GerbilResidentStrategyExecutionPerformanceScope, GerbilResidentStrategyExecutionStatus,
};
pub use handle::GerbilResidentRuntimeHandle;
pub use lifecycle::GerbilProcessExit;
pub use process::{
    GerbilResidentRuntimeHealthReceipt, GerbilResidentRuntimeHealthStatus,
    GerbilResidentRuntimeProcessPlan, GerbilResidentRuntimeProcessReceipt,
    GerbilResidentRuntimeProcessStatus, GerbilResidentRuntimeShutdownReceipt,
    GerbilResidentRuntimeShutdownStatus,
};
pub use request::{
    GerbilResidentStrategyEventKind, GerbilResidentStrategyLaneId, GerbilResidentStrategyLanePlan,
    GerbilResidentStrategyLaneStatus, GerbilResidentStrategyRequest,
    GerbilResidentStrategyRequestId, GerbilResidentStrategyRequestReceipt,
    GerbilResidentStrategyRequestStatus, GerbilResidentStrategyServicePlan,
    GerbilResidentStrategyServiceReceipt,
};
pub use session::{
    GerbilResidentRuntimePlan, GerbilResidentRuntimePrepareReceipt, GerbilResidentRuntimeSessionId,
    GerbilResidentRuntimeSessionMode,
};
