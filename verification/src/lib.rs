//! webox: the decision logic of a high-memory browser shell, verified.
//!
//! The modules: configuration, memory policy and the reading of process
//! scans, the window/tab model, the browser engine state machine, the
//! runtime environment and its CEF switches, the embeddable runtime, the
//! host shell, the browser window's session and the workload harness.
//! Native browser work (CEF), the GUI and all I/O live outside the library;
//! they hand the library plain values and take plain values back.
pub mod browser;
pub mod config;
pub mod engine;
pub mod harness;
pub mod memory;
pub mod runtime_api;
pub mod runtime_env;
pub mod shell;
pub mod text;
pub mod ui;

use vstd::prelude::*;

verus! {

} // verus!
