//! Choice of the subflow that carries the next packet. Subflows are given by their
//! round-trip times in milliseconds; the choice is a position among them.
use vstd::prelude::*;
use crate::load_balancer::{first_min, first_min_index};
use crate::load_balancer::algorithms::next_count;
use crate::mptcp::SchedulerAlgorithm;

verus! {

/// A way of choosing a subflow.
pub trait Scheduler {
    /// The position of the chosen subflow among those with round-trip times `rtts`.
    fn select_subflow(&mut self, rtts: &[u64]) -> (r: Option<usize>)
        ensures
            r matches Some(i) ==> i < rtts@.len(),
            rtts@.len() == 0 <==> r is None,
    ;
}

/// Chooses the subflow with the least round-trip time (the first of equals).
#[derive(Debug)]
pub struct MinRttScheduler;

impl Scheduler for MinRttScheduler {
    fn select_subflow(&mut self, rtts: &[u64]) -> (r: Option<usize>)
        ensures
            r matches Some(i) ==> first_min(rtts@, i as int),
    {
        if rtts.len() == 0 {
            return None;
        }
        Some(first_min_index(rtts))
    }
}

/// Chooses the subflows in turn.
#[derive(Debug)]
pub struct RoundRobinScheduler {
    pub counter: usize,
}

impl RoundRobinScheduler {
    /// Starts with the first subflow.
    pub fn new() -> (r: Self)
        ensures
            r.counter == 0,
    {
        RoundRobinScheduler { counter: 0 }
    }
}

impl Scheduler for RoundRobinScheduler {
    fn select_subflow(&mut self, rtts: &[u64]) -> (r: Option<usize>)
        ensures
            rtts@.len() > 0 ==> r == Some((old(self).counter as nat % rtts@.len()) as usize) && final(self).counter
                == next_count(old(self).counter),
            rtts@.len() == 0 ==> final(self).counter == old(self).counter,
    {
        if rtts.len() == 0 {
            return None;
        }
        let idx = self.counter % rtts.len();
        self.counter = self.counter.wrapping_add(1);
        Some(idx)
    }
}

/// A scheduler of one of the algorithms.
#[derive(Debug)]
pub enum AnyScheduler {
    MinRtt(MinRttScheduler),
    RoundRobin(RoundRobinScheduler),
}

impl Scheduler for AnyScheduler {
    fn select_subflow(&mut self, rtts: &[u64]) -> (r: Option<usize>)
        ensures
            *old(self) is MinRtt ==> (*final(self) is MinRtt && (r matches Some(i) ==> first_min(rtts@, i as int))),
            *old(self) is RoundRobin ==> (*final(self) is RoundRobin && (rtts@.len() > 0 ==> r == Some(
                (old(self)->RoundRobin_0.counter as nat % rtts@.len()) as usize,
            ) && final(self)->RoundRobin_0.counter == next_count(old(self)->RoundRobin_0.counter))),
            *old(self) is RoundRobin && rtts@.len() == 0 ==> final(self)->RoundRobin_0.counter
                == old(self)->RoundRobin_0.counter,
    {
        match self {
            AnyScheduler::MinRtt(s) => s.select_subflow(rtts),
            AnyScheduler::RoundRobin(s) => s.select_subflow(rtts),
        }
    }
}

/// The scheduler for `algo`; sending on all paths falls back to the least round-trip time.
pub fn create_scheduler(algo: SchedulerAlgorithm) -> (r: AnyScheduler)
    ensures
        algo == SchedulerAlgorithm::RoundRobin ==> (r matches AnyScheduler::RoundRobin(s) && s.counter == 0),
        algo != SchedulerAlgorithm::RoundRobin ==> r is MinRtt,
{
    match algo {
        SchedulerAlgorithm::MinRtt => AnyScheduler::MinRtt(MinRttScheduler),
        SchedulerAlgorithm::RoundRobin => AnyScheduler::RoundRobin(RoundRobinScheduler::new()),
        SchedulerAlgorithm::Redundant => AnyScheduler::MinRtt(MinRttScheduler),
    }
}

} // verus!
