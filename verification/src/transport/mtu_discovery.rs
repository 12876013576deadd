//! Path MTU discovery: the largest packet that crosses the path unfragmented,
//! found by binary search between the current estimate and the maximum.
use vstd::prelude::*;
use crate::clock::Stopwatch;
use crate::transport::fallback_detector::elapsed_since;

verus! {

/// Path MTU discovery state. Times are milliseconds on its own monotonic clock, which
/// starts at 0 when it is made; the `_at` methods take times on that scale.
#[derive(Debug)]
pub struct MtuDiscovery {
    /// Current MTU estimate
    pub current_mtu: usize,
    /// Minimum MTU
    pub min_mtu: usize,
    /// Maximum MTU to probe
    pub max_mtu: usize,
    /// Last size that was sent successfully
    pub last_successful_mtu: usize,
    /// Time of the last probe
    pub last_probe_time: Option<u64>,
    /// Milliseconds between probes
    pub probe_interval: u64,
    /// The monotonic clock that the methods without `_at` read
    pub clock: Stopwatch,
}

/// MTU discovery statistics
#[derive(Debug, Clone, Copy, PartialEq, Eq, Structural)]
pub struct MtuStats {
    pub current_mtu: usize,
    pub min_mtu: usize,
    pub max_mtu: usize,
    pub last_successful_mtu: usize,
    pub recommended_payload: usize,
}

/// The payload that fits in an MTU of `mtu` bytes: 100 bytes are kept for headers.
pub open spec fn payload_for(mtu: usize) -> usize {
    if mtu >= 100 {
        (mtu - 100) as usize
    } else {
        0
    }
}

impl MtuDiscovery {
    /// Starts at 1280 bytes (the IPv6 minimum) and probes up to 1500 (Ethernet),
    /// never going below 576 (the IPv4 minimum); probes every 60 seconds.
    pub fn new() -> (r: Self)
        ensures
            r.current_mtu == 1280,
            r.min_mtu == 576,
            r.max_mtu == 1500,
            r.last_successful_mtu == 1280,
            r.last_probe_time.is_none(),
            r.probe_interval == 60_000,
    {
        MtuDiscovery {
            current_mtu: 1280,
            min_mtu: 576,
            max_mtu: 1500,
            last_successful_mtu: 1280,
            last_probe_time: None,
            probe_interval: 60_000,
            clock: Stopwatch::start(),
        }
    }

    /// Starts at `min_mtu` and probes up to `max_mtu`.
    pub fn with_range(min_mtu: usize, max_mtu: usize) -> (r: Self)
        ensures
            r.current_mtu == min_mtu,
            r.min_mtu == min_mtu,
            r.max_mtu == max_mtu,
            r.last_successful_mtu == min_mtu,
            r.last_probe_time.is_none(),
            r.probe_interval == 60_000,
    {
        MtuDiscovery {
            current_mtu: min_mtu,
            min_mtu,
            max_mtu,
            last_successful_mtu: min_mtu,
            last_probe_time: None,
            probe_interval: 60_000,
            clock: Stopwatch::start(),
        }
    }

    /// The current MTU estimate.
    pub fn current_mtu(&self) -> (r: usize)
        ensures
            r == self.current_mtu,
    {
        self.current_mtu
    }

    /// The payload size to use: the MTU less 100 bytes of headers, or 0.
    pub fn recommended_payload_size(&self) -> (r: usize)
        ensures
            r == payload_for(self.current_mtu),
    {
        self.current_mtu.saturating_sub(100)
    }

    /// It is time to probe at `now`: never probed, or the interval has passed.
    pub open spec fn probe_due(&self, now: u64) -> bool {
        match self.last_probe_time {
            None => true,
            Some(t) => elapsed_since(t, now) >= self.probe_interval,
        }
    }

    /// Whether it is time to probe, now.
    pub fn should_probe(&self) -> (r: bool)
        ensures
            exists|now: u64| r == #[trigger] self.probe_due(now),
    {
        let now = self.clock.elapsed_ms();
        self.should_probe_at(now)
    }

    /// Whether it is time to probe at `now`.
    pub fn should_probe_at(&self, now: u64) -> (r: bool)
        ensures
            r == self.probe_due(now),
    {
        match self.last_probe_time {
            None => true,
            Some(t) => now.saturating_sub(t) >= self.probe_interval,
        }
    }

    /// The next size to probe: halfway between the current MTU and the maximum, or none
    /// once the search has converged.
    pub fn next_probe_size(&self) -> (r: Option<usize>)
        requires
            self.current_mtu + self.max_mtu <= usize::MAX,
        ensures
            r == (if self.current_mtu >= self.max_mtu {
                None
            } else if (self.current_mtu + self.max_mtu) / 2 <= self.current_mtu {
                None
            } else {
                Some(((self.current_mtu + self.max_mtu) / 2) as usize)
            }),
            r matches Some(p) ==> self.current_mtu < p <= self.max_mtu,
    {
        if self.current_mtu >= self.max_mtu {
            return None;
        }
        let mid = (self.current_mtu + self.max_mtu) / 2;
        if mid <= self.current_mtu {
            return None;
        }
        Some(mid)
    }

    /// The state after a successful send of `size` bytes at `now`: a size above the last
    /// success becomes the new MTU.
    pub open spec fn succeeded(self, size: usize, now: u64) -> Self {
        if size > self.last_successful_mtu {
            MtuDiscovery {
                last_successful_mtu: size,
                current_mtu: size,
                last_probe_time: Some(now),
                ..self
            }
        } else {
            MtuDiscovery { last_probe_time: Some(now), ..self }
        }
    }

    /// Reports a successful send of `size` bytes, now.
    pub fn report_success(&mut self, size: usize)
        ensures
            exists|now: u64| *final(self) == #[trigger] old(self).succeeded(size, now),
    {
        let now = self.clock.elapsed_ms();
        self.report_success_at(size, now);
    }

    /// Reports a successful send of `size` bytes at `now`.
    pub fn report_success_at(&mut self, size: usize, now: u64)
        ensures
            *final(self) == old(self).succeeded(size, now),
    {
        if size > self.last_successful_mtu {
            self.last_successful_mtu = size;
            self.current_mtu = size;
        }
        self.last_probe_time = Some(now);
    }

    /// The state after a failed send of `size` bytes at `now`: a failure at or below the
    /// current MTU brings it back to the last successful size.
    pub open spec fn failed(self, size: usize, now: u64) -> Self {
        if size <= self.current_mtu {
            MtuDiscovery {
                current_mtu: self.last_successful_mtu,
                last_probe_time: Some(now),
                ..self
            }
        } else {
            MtuDiscovery { last_probe_time: Some(now), ..self }
        }
    }

    /// Reports a failed send of `size` bytes, now.
    pub fn report_failure(&mut self, size: usize)
        ensures
            exists|now: u64| *final(self) == #[trigger] old(self).failed(size, now),
    {
        let now = self.clock.elapsed_ms();
        self.report_failure_at(size, now);
    }

    /// Reports a failed send of `size` bytes at `now`.
    pub fn report_failure_at(&mut self, size: usize, now: u64)
        ensures
            *final(self) == old(self).failed(size, now),
    {
        if size <= self.current_mtu {
            self.current_mtu = self.last_successful_mtu;
        }
        self.last_probe_time = Some(now);
    }

    /// Goes back to the minimum MTU, e.g. after a change of network.
    pub fn reset(&mut self)
        ensures
            *final(self) == (MtuDiscovery {
                current_mtu: old(self).min_mtu,
                last_successful_mtu: old(self).min_mtu,
                last_probe_time: None,
                ..*old(self)
            }),
    {
        self.current_mtu = self.min_mtu;
        self.last_successful_mtu = self.min_mtu;
        self.last_probe_time = None;
    }

    /// Sets the milliseconds between probes.
    pub fn set_probe_interval(&mut self, interval: u64)
        ensures
            *final(self) == (MtuDiscovery { probe_interval: interval, ..*old(self) }),
    {
        self.probe_interval = interval;
    }

    /// The statistics.
    pub fn stats(&self) -> (r: MtuStats)
        ensures
            r == (MtuStats {
                current_mtu: self.current_mtu,
                min_mtu: self.min_mtu,
                max_mtu: self.max_mtu,
                last_successful_mtu: self.last_successful_mtu,
                recommended_payload: payload_for(self.current_mtu),
            }),
    {
        MtuStats {
            current_mtu: self.current_mtu,
            min_mtu: self.min_mtu,
            max_mtu: self.max_mtu,
            last_successful_mtu: self.last_successful_mtu,
            recommended_payload: self.recommended_payload_size(),
        }
    }
}

impl Default for MtuDiscovery {
    fn default() -> (r: Self)
        ensures
            r.current_mtu == 1280,
            r.min_mtu == 576,
            r.max_mtu == 1500,
            r.last_successful_mtu == 1280,
            r.last_probe_time.is_none(),
            r.probe_interval == 60_000,
    {
        Self::new()
    }
}

/// The MTU never falls below the last successful size through reports: the current MTU
/// stays equal to the last success once a success or a failure at or below it is reported.
pub proof fn lemma_mtu_tracks_last_success(m: MtuDiscovery, size: usize, now: u64)
    requires
        m.current_mtu == m.last_successful_mtu,
    ensures
        m.succeeded(size, now).current_mtu == m.succeeded(size, now).last_successful_mtu,
        m.failed(size, now).current_mtu == m.failed(size, now).last_successful_mtu,
        m.succeeded(size, now).last_successful_mtu >= m.last_successful_mtu,
{
}

/// The binary search advances: each probe size lies strictly between the current MTU and
/// the maximum (inclusive), so reporting its success raises the MTU.
pub proof fn lemma_probe_raises(m: MtuDiscovery, now: u64)
    requires
        m.current_mtu == m.last_successful_mtu,
        m.current_mtu < m.max_mtu,
        (m.current_mtu + m.max_mtu) / 2 > m.current_mtu,
    ensures
        ({
            let p = ((m.current_mtu + m.max_mtu) / 2) as usize;
            m.succeeded(p, now).current_mtu == p && p > m.current_mtu && p <= m.max_mtu
        }),
{
}

} // verus!
