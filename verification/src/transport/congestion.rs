//! Loss-based congestion control (NewReno) and a delivery-rate bandwidth estimate.
use vstd::prelude::*;
use crate::clock::Stopwatch;

verus! {

/// State of the congestion controller
#[derive(Debug, Clone, Copy, PartialEq, Eq, Structural)]
pub enum CongestionState {
    SlowStart,
    CongestionAvoidance,
    Recovery,
}

/// Congestion control algorithms. Times are in milliseconds.
pub trait CongestionController {
    /// An acknowledgement of `acked_bytes` can be taken in without the window overflowing.
    spec fn ack_in_range(&self, acked_bytes: usize) -> bool;

    /// Called when a packet is sent
    fn on_packet_sent(&mut self, sent_bytes: usize);

    /// Called when a packet is acknowledged
    fn on_packet_acked(&mut self, acked_bytes: usize, rtt_ms: u64)
        requires
            old(self).ack_in_range(acked_bytes),
    ;

    /// Called when a packet is declared lost
    fn on_packet_lost(&mut self, lost_bytes: usize);

    /// Current congestion window in bytes
    fn congestion_window(&self) -> usize;

    /// Whether more data may be sent with `inflight_bytes` unacknowledged
    fn can_send(&self, inflight_bytes: usize) -> bool;

    /// Current state
    fn state(&self) -> CongestionState;
}

/// NewReno congestion control.
#[derive(Debug)]
pub struct NewReno {
    /// Congestion window in bytes
    pub cwnd: usize,
    /// Slow start threshold in bytes
    pub ssthresh: usize,
    /// Current state
    pub state: CongestionState,
    /// Initial window
    pub initial_window: usize,
    /// Minimum window
    pub min_window: usize,
}

/// The window growth for an acknowledgement of `acked` bytes in congestion avoidance:
/// acked² / cwnd, and at least one byte.
pub open spec fn avoidance_increase(acked: int, cwnd: int) -> int {
    let inc = (acked * acked) / cwnd;
    if inc < 1 {
        1
    } else {
        inc
    }
}

impl NewReno {
    /// A controller in slow start with a window of 10 segments of `mss` bytes.
    pub fn new(mss: usize) -> (r: Self)
        requires
            10 * mss <= usize::MAX,
        ensures
            r.cwnd == 10 * mss,
            r.ssthresh == usize::MAX,
            r.state == CongestionState::SlowStart,
            r.initial_window == 10 * mss,
            r.min_window == 2 * mss,
    {
        let initial_window = 10 * mss;
        NewReno {
            cwnd: initial_window,
            ssthresh: usize::MAX,
            state: CongestionState::SlowStart,
            initial_window,
            min_window: 2 * mss,
        }
    }
}

impl CongestionController for NewReno {
    open spec fn ack_in_range(&self, acked_bytes: usize) -> bool {
        match self.state {
            CongestionState::SlowStart => self.cwnd + acked_bytes <= usize::MAX,
            CongestionState::CongestionAvoidance => self.cwnd > 0 ==> acked_bytes * acked_bytes
                <= usize::MAX && self.cwnd + avoidance_increase(acked_bytes as int, self.cwnd as int)
                <= usize::MAX,
            CongestionState::Recovery => true,
        }
    }

    fn on_packet_sent(&mut self, sent_bytes: usize)
        ensures
            *final(self) == *old(self),
    {
    }

    /// Slow start grows the window by the acknowledged bytes until it reaches the threshold;
    /// congestion avoidance grows it by acked² / cwnd (at least one byte); an acknowledgement
    /// in recovery sets the window to the threshold and returns to congestion avoidance.
    fn on_packet_acked(&mut self, acked_bytes: usize, rtt_ms: u64)
        ensures
            final(self).ssthresh == old(self).ssthresh,
            final(self).min_window == old(self).min_window,
            final(self).initial_window == old(self).initial_window,
            old(self).state == CongestionState::SlowStart ==> final(self).cwnd == old(self).cwnd
                + acked_bytes && final(self).state == (if old(self).cwnd + acked_bytes >= old(
                self,
            ).ssthresh {
                CongestionState::CongestionAvoidance
            } else {
                CongestionState::SlowStart
            }),
            old(self).state == CongestionState::CongestionAvoidance ==> final(self).state
                == CongestionState::CongestionAvoidance && final(self).cwnd == (if old(self).cwnd
                > 0 {
                old(self).cwnd + avoidance_increase(acked_bytes as int, old(self).cwnd as int)
            } else {
                old(self).cwnd as int
            }),
            old(self).state == CongestionState::Recovery ==> final(self).cwnd == old(self).ssthresh
                && final(self).state == CongestionState::CongestionAvoidance,
    {
        match self.state {
            CongestionState::SlowStart => {
                self.cwnd = self.cwnd + acked_bytes;
                if self.cwnd >= self.ssthresh {
                    self.state = CongestionState::CongestionAvoidance;
                }
            },
            CongestionState::CongestionAvoidance => {
                if self.cwnd > 0 {
                    let increase = (acked_bytes * acked_bytes) / self.cwnd;
                    let step = if increase < 1 { 1 } else { increase };
                    self.cwnd = self.cwnd + step;
                }
            },
            CongestionState::Recovery => {
                self.cwnd = self.ssthresh;
                self.state = CongestionState::CongestionAvoidance;
            },
        }
    }

    /// Multiplicative decrease: the threshold becomes half the window (at least the minimum
    /// window), the window drops to the minimum, and slow start begins again.
    fn on_packet_lost(&mut self, lost_bytes: usize)
        ensures
            final(self).ssthresh == (if old(self).cwnd / 2 > old(self).min_window {
                old(self).cwnd / 2
            } else {
                old(self).min_window
            }),
            final(self).cwnd == old(self).min_window,
            final(self).state == CongestionState::SlowStart,
            final(self).min_window == old(self).min_window,
            final(self).initial_window == old(self).initial_window,
    {
        let half = self.cwnd / 2;
        self.ssthresh = if half > self.min_window { half } else { self.min_window };
        self.cwnd = self.min_window;
        self.state = CongestionState::SlowStart;
    }

    fn congestion_window(&self) -> (r: usize)
        ensures
            r == self.cwnd,
    {
        self.cwnd
    }

    fn can_send(&self, inflight_bytes: usize) -> (r: bool)
        ensures
            r == (inflight_bytes < self.cwnd),
    {
        inflight_bytes < self.cwnd
    }

    fn state(&self) -> (r: CongestionState)
        ensures
            r == self.state,
    {
        self.state
    }
}

/// Delivery-rate bandwidth estimate. Times are milliseconds on the estimator's own
/// monotonic clock, which starts at 0 when it is made; the `_at` methods take times on
/// that scale.
#[derive(Debug)]
pub struct BandwidthEstimator {
    /// Total bytes delivered
    pub delivered_bytes: u64,
    /// Time of the first packet sent
    pub first_sent_time: Option<u64>,
    /// Estimated bandwidth in bytes per second
    pub bandwidth_bps: u64,
    /// The monotonic clock that the methods without `_at` read
    pub clock: Stopwatch,
}

/// Bytes per second for `delivered` bytes over `elapsed_ms` milliseconds, capped at the
/// largest `u64`.
pub open spec fn delivery_rate(delivered: u64, elapsed_ms: u64) -> u64 {
    let rate = (delivered as int * 1000) / (elapsed_ms as int);
    if rate > u64::MAX {
        u64::MAX
    } else {
        rate as u64
    }
}

impl BandwidthEstimator {
    /// An estimator with nothing delivered.
    pub fn new() -> (r: Self)
        ensures
            r.delivered_bytes == 0,
            r.first_sent_time.is_none(),
            r.bandwidth_bps == 0,
    {
        BandwidthEstimator { delivered_bytes: 0, first_sent_time: None, bandwidth_bps: 0, clock: Stopwatch::start() }
    }

    /// Records that a packet was sent, at the time its clock gives.
    pub fn on_packet_sent(&mut self)
        ensures
            exists|now: u64| *final(self) == old(self).sent_at(now),
    {
        let now = self.clock.elapsed_ms();
        self.on_packet_sent_at(now);
    }

    /// The estimator after a packet is sent at `now`: the first send time is kept once set.
    pub open spec fn sent_at(self, now: u64) -> Self {
        if self.first_sent_time.is_none() {
            BandwidthEstimator { first_sent_time: Some(now), ..self }
        } else {
            self
        }
    }

    /// Records that a packet was sent at `now`.
    pub fn on_packet_sent_at(&mut self, now: u64)
        ensures
            *final(self) == old(self).sent_at(now),
    {
        if self.first_sent_time.is_none() {
            self.first_sent_time = Some(now);
        }
    }

    /// The estimator after `acked_bytes` more are delivered at `now`: the estimate is
    /// recomputed once more than 100 ms have passed since the first send.
    pub open spec fn acked_at(self, acked_bytes: usize, now: u64) -> Self {
        let delivered = (self.delivered_bytes + acked_bytes) as u64;
        let bw = match self.first_sent_time {
            Some(start) => {
                let elapsed = if now >= start { (now - start) as u64 } else { 0u64 };
                if elapsed > 100 {
                    delivery_rate(delivered, elapsed)
                } else {
                    self.bandwidth_bps
                }
            },
            None => self.bandwidth_bps,
        };
        BandwidthEstimator { delivered_bytes: delivered, bandwidth_bps: bw, ..self }
    }

    /// Records that `acked_bytes` were delivered, at the time its clock gives.
    pub fn on_packet_acked(&mut self, acked_bytes: usize)
        requires
            old(self).delivered_bytes + acked_bytes <= u64::MAX,
        ensures
            exists|now: u64| *final(self) == old(self).acked_at(acked_bytes, now),
    {
        let now = self.clock.elapsed_ms();
        self.on_packet_acked_at(acked_bytes, now);
    }

    /// Records that `acked_bytes` were delivered at `now`.
    pub fn on_packet_acked_at(&mut self, acked_bytes: usize, now: u64)
        requires
            old(self).delivered_bytes + acked_bytes <= u64::MAX,
        ensures
            *final(self) == old(self).acked_at(acked_bytes, now),
    {
        self.delivered_bytes = self.delivered_bytes + acked_bytes as u64;
        self.update_estimate(now);
    }

    fn update_estimate(&mut self, now: u64)
        ensures
            final(self).delivered_bytes == old(self).delivered_bytes,
            final(self).first_sent_time == old(self).first_sent_time,
            final(self).clock == old(self).clock,
            final(self).bandwidth_bps == match old(self).first_sent_time {
                Some(start) => {
                    let elapsed = if now >= start { (now - start) as u64 } else { 0u64 };
                    if elapsed > 100 {
                        delivery_rate(old(self).delivered_bytes, elapsed)
                    } else {
                        old(self).bandwidth_bps
                    }
                },
                None => old(self).bandwidth_bps,
            },
    {
        if let Some(start) = self.first_sent_time {
            let elapsed = now.saturating_sub(start);
            if elapsed > 100 {
                let rate: u128 = (self.delivered_bytes as u128) * 1000 / (elapsed as u128);
                self.bandwidth_bps = if rate > u64::MAX as u128 { u64::MAX } else { rate as u64 };
            }
        }
    }

    /// The estimated bandwidth in bytes per second.
    pub fn bandwidth(&self) -> (r: u64)
        ensures
            r == self.bandwidth_bps,
    {
        self.bandwidth_bps
    }
}

} // verus!
