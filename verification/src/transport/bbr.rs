//! The state machine of the BBR congestion controller. Times are in microseconds.
//!
//! The pacing and window gains of each state, and the rates computed with them, are
//! floating point and stay with the caller; the gains depend on nothing but the state
//! and the position in the bandwidth-probing cycle, which are kept here.
use vstd::prelude::*;

verus! {

/// BBR congestion control state machine
#[derive(Debug, Clone, Copy, PartialEq, Eq, Structural)]
pub enum BbrState {
    /// Initial slow start to find bandwidth
    Startup,
    /// Drain excess queue after startup
    Drain,
    /// Probe for more bandwidth
    ProbeBW,
    /// Probe for minimum RTT
    ProbeRTT,
}

/// How long the minimum round-trip time stays valid before it is probed again: 10 s.
pub const MIN_RTT_WINDOW_US: u64 = 10_000_000;

/// The time from `start` to `now`, or 0 where the clock went back.
pub open spec fn elapsed_us(start: u64, now: u64) -> nat {
    if now >= start { (now - start) as nat } else { 0 }
}

/// The integer state of a BBR controller.
#[derive(Debug, Clone, Copy, PartialEq, Eq, Structural)]
pub struct BbrMachine {
    pub state: BbrState,
    /// Estimated bottleneck bandwidth, bytes per second
    pub btlbw: u64,
    pub min_rtt_us: u64,
    /// When the minimum round-trip time was last lowered
    pub min_rtt_timestamp_us: u64,
    /// Congestion window, bytes
    pub cwnd: usize,
    pub mss: usize,
    pub round_count: u64,
    /// Position in the eight-phase bandwidth-probing cycle
    pub probe_bw_cycle_idx: usize,
    pub probe_bw_cycle_start_us: u64,
    pub probe_rtt_min_duration_us: u64,
    pub probe_rtt_start_us: Option<u64>,
    pub full_pipe_count: u32,
    pub filled_pipe: bool,
}

/// The pipe check of the startup state: the machine after it, and whether the pipe is
/// full. The pipe counts as full once bandwidth has been seen after three rounds on
/// three checks.
pub open spec fn full_pipe_step(m: BbrMachine) -> (BbrMachine, bool) {
    if m.filled_pipe {
        (m, true)
    } else if m.btlbw > 0 && m.round_count > 3 {
        let c = (m.full_pipe_count + 1) as u32;
        if c >= 3 {
            (BbrMachine { full_pipe_count: c, filled_pipe: true, ..m }, true)
        } else {
            (BbrMachine { full_pipe_count: c, ..m }, false)
        }
    } else {
        (m, false)
    }
}

/// One step of the state machine at `now`.
pub open spec fn state_step(m: BbrMachine, now: u64) -> BbrMachine {
    match m.state {
        BbrState::Startup => {
            let (m1, full) = full_pipe_step(m);
            if full { BbrMachine { state: BbrState::Drain, ..m1 } } else { m1 }
        },
        BbrState::Drain => {
            if m.cwnd as int <= m.btlbw * (m.min_rtt_us / 1_000_000) {
                BbrMachine { state: BbrState::ProbeBW, probe_bw_cycle_idx: 0, probe_bw_cycle_start_us: now, ..m }
            } else {
                m
            }
        },
        BbrState::ProbeBW => {
            if elapsed_us(m.probe_bw_cycle_start_us, now) > m.min_rtt_us {
                BbrMachine {
                    probe_bw_cycle_idx: ((m.probe_bw_cycle_idx + 1) % 8) as usize,
                    probe_bw_cycle_start_us: now,
                    round_count: (m.round_count + 1) as u64,
                    ..m
                }
            } else {
                m
            }
        },
        BbrState::ProbeRTT => match m.probe_rtt_start_us {
            Some(start) => if elapsed_us(start, now) > m.probe_rtt_min_duration_us {
                BbrMachine { state: BbrState::ProbeBW, probe_rtt_start_us: None, probe_bw_cycle_idx: 0, ..m }
            } else {
                m
            },
            None => m,
        },
    }
}

impl BbrMachine {
    /// The window sizes fit, the pipe count stays small and the cycle position is valid.
    pub open spec fn wf(&self) -> bool {
        &&& 10 * self.mss <= usize::MAX
        &&& self.full_pipe_count <= 3
        &&& !self.filled_pipe ==> self.full_pipe_count < 3
        &&& self.probe_bw_cycle_idx < 8
    }

    /// A controller in startup at `now`, with a window of 10 segments of `mss` bytes and a
    /// first guess of 10 ms for the round-trip time.
    pub fn new(mss: usize, now: u64) -> (r: Self)
        requires
            10 * mss <= usize::MAX,
        ensures
            r.wf(),
            r == (BbrMachine {
                state: BbrState::Startup,
                btlbw: 0,
                min_rtt_us: 10_000,
                min_rtt_timestamp_us: now,
                cwnd: (10 * mss) as usize,
                mss,
                round_count: 0,
                probe_bw_cycle_idx: 0,
                probe_bw_cycle_start_us: now,
                probe_rtt_min_duration_us: 200_000,
                probe_rtt_start_us: None,
                full_pipe_count: 0,
                filled_pipe: false,
            }),
    {
        BbrMachine {
            state: BbrState::Startup,
            btlbw: 0,
            min_rtt_us: 10_000,
            min_rtt_timestamp_us: now,
            cwnd: 10 * mss,
            mss,
            round_count: 0,
            probe_bw_cycle_idx: 0,
            probe_bw_cycle_start_us: now,
            probe_rtt_min_duration_us: 200_000,
            probe_rtt_start_us: None,
            full_pipe_count: 0,
            filled_pipe: false,
        }
    }

    /// Raises the bottleneck bandwidth estimate to a measured delivery `rate`.
    pub fn observe_delivery_rate(&mut self, rate: u64)
        ensures
            *final(self) == (BbrMachine { btlbw: if rate > old(self).btlbw { rate } else { old(self).btlbw }, ..*old(self) }),
    {
        if rate > self.btlbw {
            self.btlbw = rate;
        }
    }

    /// Enters the probe of the minimum round-trip time at `now`, with a window of 4 segments.
    pub fn enter_probe_rtt(&mut self, now: u64)
        requires
            old(self).wf(),
        ensures
            final(self).wf(),
            *final(self) == (BbrMachine {
                state: BbrState::ProbeRTT,
                probe_rtt_start_us: Some(now),
                cwnd: (4 * old(self).mss) as usize,
                ..*old(self)
            }),
    {
        self.state = BbrState::ProbeRTT;
        self.probe_rtt_start_us = Some(now);
        self.cwnd = 4 * self.mss;
    }

    /// Takes in a round-trip sample `rtt_us` at `now`: a lower sample becomes the minimum,
    /// and a minimum older than 10 s starts a probe of the round-trip time.
    pub fn observe_rtt(&mut self, rtt_us: u64, now: u64)
        requires
            old(self).wf(),
        ensures
            final(self).wf(),
            ({
                let m1 = if rtt_us < old(self).min_rtt_us {
                    BbrMachine { min_rtt_us: rtt_us, min_rtt_timestamp_us: now, ..*old(self) }
                } else {
                    *old(self)
                };
                if elapsed_us(m1.min_rtt_timestamp_us, now) > MIN_RTT_WINDOW_US {
                    *final(self) == (BbrMachine {
                        state: BbrState::ProbeRTT,
                        probe_rtt_start_us: Some(now),
                        cwnd: (4 * m1.mss) as usize,
                        ..m1
                    })
                } else {
                    *final(self) == m1
                }
            }),
    {
        if rtt_us < self.min_rtt_us {
            self.min_rtt_us = rtt_us;
            self.min_rtt_timestamp_us = now;
        }
        let since = if now >= self.min_rtt_timestamp_us { now - self.min_rtt_timestamp_us } else { 0 };
        if since > MIN_RTT_WINDOW_US {
            self.enter_probe_rtt(now);
        }
    }

    /// The pipe check of the startup state (see `full_pipe_step`).
    pub fn check_full_pipe(&mut self) -> (r: bool)
        requires
            old(self).wf(),
        ensures
            final(self).wf(),
            (*final(self), r) == full_pipe_step(*old(self)),
    {
        if self.filled_pipe {
            return true;
        }
        if self.btlbw > 0 && self.round_count > 3 {
            self.full_pipe_count = self.full_pipe_count + 1;
            if self.full_pipe_count >= 3 {
                self.filled_pipe = true;
                return true;
            }
        }
        false
    }

    /// One step of the state machine at `now` (see `state_step`): startup ends in drain
    /// once the pipe is full; drain ends in bandwidth probing once the window is within the
    /// bandwidth-delay product; bandwidth probing moves to the next phase of its cycle
    /// every minimum round-trip time; the round-trip probe ends in bandwidth probing after
    /// its least duration.
    pub fn update_state(&mut self, now: u64)
        requires
            old(self).wf(),
            old(self).round_count < u64::MAX,
            old(self).state == BbrState::Drain ==> old(self).btlbw * (old(self).min_rtt_us / 1_000_000) <= u64::MAX,
        ensures
            final(self).wf(),
            *final(self) == state_step(*old(self), now),
    {
        match self.state {
            BbrState::Startup => {
                if self.check_full_pipe() {
                    self.state = BbrState::Drain;
                }
            },
            BbrState::Drain => {
                let secs = self.min_rtt_us / 1_000_000;
                let bdp = self.btlbw * secs;
                if (self.cwnd as u64) <= bdp {
                    self.state = BbrState::ProbeBW;
                    self.probe_bw_cycle_idx = 0;
                    self.probe_bw_cycle_start_us = now;
                }
            },
            BbrState::ProbeBW => {
                let since = if now >= self.probe_bw_cycle_start_us { now - self.probe_bw_cycle_start_us } else { 0 };
                if since > self.min_rtt_us {
                    self.probe_bw_cycle_idx = (self.probe_bw_cycle_idx + 1) % 8;
                    self.probe_bw_cycle_start_us = now;
                    self.round_count = self.round_count + 1;
                }
            },
            BbrState::ProbeRTT => {
                if let Some(start) = self.probe_rtt_start_us {
                    let since = if now >= start { now - start } else { 0 };
                    if since > self.probe_rtt_min_duration_us {
                        self.state = BbrState::ProbeBW;
                        self.probe_rtt_start_us = None;
                        self.probe_bw_cycle_idx = 0;
                    }
                }
            },
        }
    }

    /// Sets the window to the bandwidth-delay product `bdp` the caller computed with the
    /// window gain, but never below 4 segments.
    pub fn apply_cwnd(&mut self, bdp: usize)
        requires
            old(self).wf(),
        ensures
            final(self).wf(),
            *final(self) == (BbrMachine {
                cwnd: if bdp > 4 * old(self).mss { bdp } else { (4 * old(self).mss) as usize },
                ..*old(self)
            }),
    {
        let floor = 4 * self.mss;
        self.cwnd = if bdp > floor { bdp } else { floor };
    }

    /// Whether more data may be sent with `inflight_bytes` unacknowledged.
    pub fn can_send(&self, inflight_bytes: usize) -> (r: bool)
        ensures
            r == (inflight_bytes < self.cwnd),
    {
        inflight_bytes < self.cwnd
    }
}

} // verus!
