//! Management of a native background service on a launchd-style host:
//! building the service descriptor, planning the control operations that
//! install, remove, start and stop the registered unit, interpreting the
//! external control tool's outcome, and bridging process-level interrupt
//! signals into a lifecycle event channel.
//!
//! Everything that touches the outside world — the descriptor file, the
//! control tool, the interrupt handler — is reduced to plans and
//! interpretations over plain values; the host executes a plan's actions in
//! order and stops at the first failure.

pub mod adapter;
pub mod bridge;
pub mod controller;
pub mod descriptor;
pub mod errors;
pub mod events;
pub mod model;
