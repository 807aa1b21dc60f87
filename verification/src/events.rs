//! Lifecycle events delivered to the running service body.

use vstd::prelude::*;

verus! {

/// A control signal raised by the operating system (or injected by the
/// application itself) and consumed by the service body's main loop.
/// Events arrive in the order they were raised; duplicates are possible
/// and the consumer must tolerate them.
#[derive(Clone, Copy, Debug, PartialEq, Eq, Structural)]
pub enum ServiceEvent {
    /// The service must shut down promptly.
    Stop,
    /// The service should suspend its work.
    Pause,
    /// The service should resume after a pause.
    Continue,
}

} // verus!
