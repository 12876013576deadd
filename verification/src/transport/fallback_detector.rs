//! Detection of UDP failures that calls for a fallback to TCP.
use vstd::prelude::*;
use crate::clock::Stopwatch;

verus! {

/// Configuration for fallback detection. Durations are in milliseconds.
#[derive(Debug, Clone, Copy, PartialEq, Eq, Structural)]
pub struct FallbackConfig {
    /// Number of consecutive UDP failures before fallback
    pub failure_threshold: u32,
    /// Milliseconds to wait for a UDP response before considering it failed
    pub udp_timeout: u64,
    /// Enable automatic TCP fallback
    pub enable_fallback: bool,
    /// Milliseconds of the window for failure counting
    pub failure_window: u64,
}

impl Default for FallbackConfig {
    fn default() -> (r: Self)
        ensures
            r == (FallbackConfig {
                failure_threshold: 3,
                udp_timeout: 5_000,
                enable_fallback: true,
                failure_window: 30_000,
            }),
    {
        FallbackConfig {
            failure_threshold: 3,
            udp_timeout: 5_000,
            enable_fallback: true,
            failure_window: 30_000,
        }
    }
}

/// Detector for UDP failures. Times are milliseconds on the detector's own monotonic
/// clock, which starts at 0 when it is made; the `_at` methods take times on that scale.
#[derive(Debug)]
pub struct FallbackDetector {
    pub udp_failures: u32,
    pub last_udp_success: Option<u64>,
    pub last_udp_attempt: Option<u64>,
    pub config: FallbackConfig,
    /// The monotonic clock that the methods without `_at` read
    pub clock: Stopwatch,
}

/// Milliseconds from `from` to `now`, or 0 if `now` is earlier.
pub open spec fn elapsed_since(from: u64, now: u64) -> u64 {
    if now >= from {
        (now - from) as u64
    } else {
        0
    }
}

impl FallbackDetector {
    /// A detector with no failures recorded.
    pub fn new(config: FallbackConfig) -> (r: Self)
        ensures
            r.udp_failures == 0,
            r.last_udp_success.is_none(),
            r.last_udp_attempt.is_none(),
            r.config == config,
    {
        FallbackDetector { udp_failures: 0, last_udp_success: None, last_udp_attempt: None, config, clock: Stopwatch::start() }
    }

    /// A detector with the default configuration.
    pub fn default_config() -> (r: Self)
        ensures
            r.udp_failures == 0,
            r.last_udp_success.is_none(),
            r.last_udp_attempt.is_none(),
            r.config == (FallbackConfig {
                failure_threshold: 3,
                udp_timeout: 5_000,
                enable_fallback: true,
                failure_window: 30_000,
            }),
    {
        Self::new(FallbackConfig::default())
    }

    /// The detector after an attempt at `now`.
    pub open spec fn attempted_at(self, now: u64) -> Self {
        FallbackDetector { last_udp_attempt: Some(now), ..self }
    }

    /// The detector after a success at `now`: the failure count goes back to zero.
    pub open spec fn succeeded_at(self, now: u64) -> Self {
        FallbackDetector { udp_failures: 0, last_udp_success: Some(now), ..self }
    }

    /// Records a UDP send attempt now (by its clock).
    pub fn record_udp_attempt(&mut self)
        ensures
            exists|now: u64| *final(self) == #[trigger] old(self).attempted_at(now),
    {
        let now = self.clock.elapsed_ms();
        self.record_udp_attempt_at(now);
    }

    /// Records a UDP send attempt at `now`.
    pub fn record_udp_attempt_at(&mut self, now: u64)
        ensures
            *final(self) == old(self).attempted_at(now),
    {
        self.last_udp_attempt = Some(now);
    }

    /// Records a UDP success now (by its clock): the failure count goes back to zero.
    pub fn record_udp_success(&mut self)
        ensures
            exists|now: u64| *final(self) == #[trigger] old(self).succeeded_at(now),
    {
        let now = self.clock.elapsed_ms();
        self.record_udp_success_at(now);
    }

    /// Records a UDP success at `now`.
    pub fn record_udp_success_at(&mut self, now: u64)
        ensures
            *final(self) == old(self).succeeded_at(now),
    {
        self.udp_failures = 0;
        self.last_udp_success = Some(now);
    }

    /// Records a UDP failure (timeout, unreachable port and the like).
    pub fn record_udp_failure(&mut self)
        requires
            old(self).udp_failures < u32::MAX,
        ensures
            *final(self) == (FallbackDetector {
                udp_failures: (old(self).udp_failures + 1) as u32,
                ..*old(self)
            }),
    {
        self.udp_failures = self.udp_failures + 1;
    }

    /// Whether to fall back to TCP: fallback is enabled and the failures reached the threshold.
    pub fn should_fallback(&self) -> (r: bool)
        ensures
            r == (self.config.enable_fallback && self.udp_failures >= self.config.failure_threshold),
    {
        if !self.config.enable_fallback {
            return false;
        }
        self.udp_failures >= self.config.failure_threshold
    }

    /// Whether the last UDP attempt has gone unanswered longer than the timeout, now (by its clock).
    pub fn is_udp_timeout(&self) -> (r: bool)
        ensures
            exists|now: u64| r == #[trigger] self.udp_timeout_at(now),
    {
        let now = self.clock.elapsed_ms();
        self.is_udp_timeout_at(now)
    }

    /// The last attempt is older than the timeout at `now`.
    pub open spec fn udp_timeout_at(&self, now: u64) -> bool {
        match self.last_udp_attempt {
            Some(t) => elapsed_since(t, now) > self.config.udp_timeout,
            None => false,
        }
    }

    /// Whether the last UDP attempt has gone unanswered longer than the timeout at `now`.
    pub fn is_udp_timeout_at(&self, now: u64) -> (r: bool)
        ensures
            r == self.udp_timeout_at(now),
    {
        match self.last_udp_attempt {
            Some(t) => now.saturating_sub(t) > self.config.udp_timeout,
            None => false,
        }
    }

    /// Forgets all failures, successes and attempts.
    pub fn reset(&mut self)
        ensures
            *final(self) == (FallbackDetector {
                udp_failures: 0,
                last_udp_success: None,
                last_udp_attempt: None,
                config: old(self).config,
                clock: old(self).clock,
            }),
    {
        self.udp_failures = 0;
        self.last_udp_success = None;
        self.last_udp_attempt = None;
    }

    /// The number of failures since the last success or reset.
    pub fn failure_count(&self) -> (r: u32)
        ensures
            r == self.udp_failures,
    {
        self.udp_failures
    }

    /// Milliseconds since the last UDP success (by its clock), if there was one.
    pub fn time_since_last_success(&self) -> (r: Option<u64>)
        ensures
            r.is_some() == self.last_udp_success.is_some(),
            self.last_udp_success matches Some(t) ==> exists|now: u64| r == Some(#[trigger] elapsed_since(t, now)),
    {
        match self.last_udp_success {
            Some(t) => {
                let now = self.clock.elapsed_ms();
                let d = now.saturating_sub(t);
                assert(d == elapsed_since(t, now));
                Some(d)
            },
            None => None,
        }
    }

    /// The configuration.
    pub fn config(&self) -> (r: &FallbackConfig)
        ensures
            *r == self.config,
    {
        &self.config
    }
}

} // verus!
