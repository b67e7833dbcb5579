//! Rust-owned parsing and validation of Scheme vertical mainline traces.

pub mod fields;
pub mod parsing;
pub mod trusted;
pub mod row;
pub mod types;

pub use types::{GerbilLoopCaseDriverVerticalTraceError, GerbilLoopCaseDriverVerticalTraceReceipt};
pub use parsing::{parse_gerbil_loop_case_driver_vertical_trace, verify_gerbil_loop_case_driver_vertical_trace};
