//! Health of backends.
use vstd::prelude::*;

verus! {

/// Health status
#[derive(Debug, Clone, Copy, PartialEq, Eq, Structural)]
pub enum HealthStatus {
    Healthy,
    Degraded,
    Unhealthy,
}

/// Health check result. Times are in milliseconds.
#[derive(Debug)]
pub struct HealthCheck {
    pub backend_id: String,
    pub status: HealthStatus,
    pub latency_ms: u64,
    /// Time of the check, in milliseconds since the epoch
    pub last_check: u64,
}

/// Health checker settings, in milliseconds.
#[derive(Debug, Clone, Copy, PartialEq, Eq, Structural)]
pub struct HealthChecker {
    pub check_interval: u64,
    pub timeout: u64,
}

/// More connections than this make a responsive backend degraded.
pub const DEGRADED_CONNECTIONS: u32 = 100;

/// The status of a backend after a probe: unresponsive is unhealthy, responsive with more
/// than 100 active connections is degraded, else healthy.
pub open spec fn probe_status(responded: bool, connections: u32) -> HealthStatus {
    if !responded {
        HealthStatus::Unhealthy
    } else if connections > DEGRADED_CONNECTIONS {
        HealthStatus::Degraded
    } else {
        HealthStatus::Healthy
    }
}

impl HealthChecker {
    /// A checker probing every `check_interval` ms, each probe waiting up to `timeout` ms.
    pub fn new(check_interval: u64, timeout: u64) -> (r: Self)
        ensures
            r == (HealthChecker { check_interval, timeout }),
    {
        HealthChecker { check_interval, timeout }
    }

    /// The status of a backend with `connections` active connections after a probe that
    /// did or did not answer within the timeout.
    pub fn classify(responded: bool, connections: u32) -> (r: HealthStatus)
        ensures
            r == probe_status(responded, connections),
    {
        if !responded {
            HealthStatus::Unhealthy
        } else if connections > DEGRADED_CONNECTIONS {
            HealthStatus::Degraded
        } else {
            HealthStatus::Healthy
        }
    }
}

impl Default for HealthChecker {
    fn default() -> (r: Self)
        ensures
            r == (HealthChecker { check_interval: 10_000, timeout: 5_000 }),
    {
        Self::new(10_000, 5_000)
    }
}

} // verus!
