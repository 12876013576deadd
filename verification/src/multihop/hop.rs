//! States of a hop and of the engine that runs the chain.
use vstd::prelude::*;

verus! {

/// Health status of a hop
#[derive(Debug, Clone, Copy, PartialEq, Eq, Structural)]
pub enum HopHealth {
    /// Hop is healthy and operational
    Healthy,
    /// Hop is degraded but still functional
    Degraded,
    /// Hop is unhealthy and should be avoided
    Unhealthy,
    /// Hop status is unknown (not yet checked)
    Unknown,
}

/// Operational status of a hop
#[derive(Debug, Clone, Copy, PartialEq, Eq, Structural)]
pub enum HopStatus {
    /// Hop is not started
    Stopped,
    /// Hop is starting up
    Starting,
    /// Hop is running
    Running,
    /// Hop is stopping
    Stopping,
    /// Hop has failed
    Failed,
}

/// Multi-hop engine state
#[derive(Debug, Clone, Copy, PartialEq, Eq, Structural)]
pub enum EngineState {
    /// Engine is not initialized
    Uninitialized,
    /// Engine is initializing hops
    Initializing,
    /// Engine is running
    Running,
    /// Engine is stopping
    Stopping,
    /// Engine has stopped
    Stopped,
    /// Engine is in error state
    Failed,
}

/// The health of a hop: healthy when it runs with its connection (or process and
/// connection) in place, unhealthy otherwise.
pub fn hop_health(status: HopStatus, connected: bool) -> (r: HopHealth)
    ensures
        r == (if status == HopStatus::Running && connected { HopHealth::Healthy } else { HopHealth::Unhealthy }),
{
    if status != HopStatus::Running {
        return HopHealth::Unhealthy;
    }
    if connected { HopHealth::Healthy } else { HopHealth::Unhealthy }
}

} // verus!
