//! Multipath support: configuration and the choice of a path for each packet.
pub mod manager;
pub mod scheduler;

use vstd::prelude::*;

verus! {

/// Scheduling algorithms
#[derive(Debug, Clone, Copy, PartialEq, Eq, Structural)]
pub enum SchedulerAlgorithm {
    RoundRobin,
    MinRtt,
    /// Send on all paths
    Redundant,
}

/// Multipath configuration
#[derive(Debug, Clone, Copy, PartialEq, Eq, Structural)]
pub struct MptcpConfig {
    pub enabled: bool,
    pub max_subflows: usize,
    pub scheduler_algo: SchedulerAlgorithm,
}

impl Default for MptcpConfig {
    fn default() -> (r: Self)
        ensures
            r == (MptcpConfig { enabled: false, max_subflows: 4, scheduler_algo: SchedulerAlgorithm::MinRtt }),
    {
        MptcpConfig { enabled: false, max_subflows: 4, scheduler_algo: SchedulerAlgorithm::MinRtt }
    }
}

} // verus!
