//! Rust-side projections, validation and planning for Gerbil Scheme runtime receipts.

pub mod loop_case_driver;
pub mod native_aot_cli;
pub mod policy_pack_projection;
pub mod real_gxi_gate;
pub mod resident_runtime;
pub mod runtime;
pub mod scheme_types;
pub mod text;

