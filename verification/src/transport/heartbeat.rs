//! Heartbeats that keep a connection alive, slower while the application is in the background.
use vstd::prelude::*;
use crate::clock::Stopwatch;
use crate::transport::fallback_detector::elapsed_since;

verus! {

/// Application state, for battery savings
#[derive(Debug, Clone, Copy, PartialEq, Eq, Structural)]
pub enum AppState {
    Foreground,
    Background,
}

/// Heartbeat intervals, in milliseconds.
#[derive(Debug, Clone, Copy, PartialEq, Eq, Structural)]
pub struct HeartbeatConfig {
    pub foreground_interval: u64,
    pub background_interval: u64,
    /// Missed intervals before the connection counts as timed out
    pub timeout_count: u32,
}

impl Default for HeartbeatConfig {
    fn default() -> (r: Self)
        ensures
            r == (HeartbeatConfig { foreground_interval: 5_000, background_interval: 30_000, timeout_count: 3 }),
    {
        HeartbeatConfig { foreground_interval: 5_000, background_interval: 30_000, timeout_count: 3 }
    }
}

/// Heartbeat state of a connection. Times are milliseconds on the manager's own
/// monotonic clock, which `new` starts at 0; the `_at` methods take times on that scale.
#[derive(Debug)]
pub struct HeartbeatManager {
    pub sequence: u64,
    pub last_sent: u64,
    pub last_received: u64,
    pub config: HeartbeatConfig,
    pub app_state: AppState,
    /// The monotonic clock that the methods without `_at` read
    pub clock: Stopwatch,
}

/// The interval for an application state.
pub open spec fn interval_for(config: HeartbeatConfig, state: AppState) -> u64 {
    match state {
        AppState::Foreground => config.foreground_interval,
        AppState::Background => config.background_interval,
    }
}

impl HeartbeatManager {
    /// A manager in the foreground, counting both the last send and the last receipt as
    /// now: time 0 of its clock, which starts now.
    pub fn new(config: HeartbeatConfig) -> (r: Self)
        ensures
            r.sequence == 0,
            r.last_sent == 0,
            r.last_received == 0,
            r.config == config,
            r.app_state == AppState::Foreground,
    {
        Self::new_at(config, 0)
    }

    /// A manager in the foreground, counting both the last send and the last receipt as `now`
    /// (its clock starts now).
    pub fn new_at(config: HeartbeatConfig, now: u64) -> (r: Self)
        ensures
            r == (HeartbeatManager {
                sequence: 0,
                last_sent: now,
                last_received: now,
                config,
                app_state: AppState::Foreground,
                clock: r.clock,
            }),
    {
        HeartbeatManager {
            sequence: 0,
            last_sent: now,
            last_received: now,
            config,
            app_state: AppState::Foreground,
            clock: Stopwatch::start(),
        }
    }

    /// Sets the application state.
    pub fn set_app_state(&mut self, state: AppState)
        ensures
            *final(self) == (HeartbeatManager { app_state: state, ..*old(self) }),
    {
        self.app_state = state;
    }

    /// The heartbeat interval for the current application state.
    pub fn current_interval(&self) -> (r: u64)
        ensures
            r == interval_for(self.config, self.app_state),
    {
        match self.app_state {
            AppState::Foreground => self.config.foreground_interval,
            AppState::Background => self.config.background_interval,
        }
    }

    /// The next sequence number.
    pub fn next_sequence(&mut self) -> (r: u64)
        requires
            old(self).sequence < u64::MAX,
        ensures
            r == old(self).sequence + 1,
            *final(self) == (HeartbeatManager { sequence: r, ..*old(self) }),
    {
        self.sequence = self.sequence + 1;
        self.sequence
    }

    /// Records a heartbeat sent at `now`.
    pub fn mark_sent_at(&mut self, now: u64)
        ensures
            *final(self) == (HeartbeatManager { last_sent: now, ..*old(self) }),
    {
        self.last_sent = now;
    }

    /// Records a heartbeat received at `now`.
    pub fn mark_received_at(&mut self, now: u64)
        ensures
            *final(self) == (HeartbeatManager { last_received: now, ..*old(self) }),
    {
        self.last_received = now;
    }

    /// Whether a heartbeat is due at `now`: an interval has passed since the last one sent.
    pub fn should_send_at(&self, now: u64) -> (r: bool)
        ensures
            r == (elapsed_since(self.last_sent, now) >= interval_for(self.config, self.app_state)),
    {
        now.saturating_sub(self.last_sent) >= self.current_interval()
    }

    /// Whether the connection has timed out at `now`: nothing received for `timeout_count`
    /// intervals.
    pub fn is_timed_out_at(&self, now: u64) -> (r: bool)
        requires
            interval_for(self.config, self.app_state) * self.config.timeout_count <= u64::MAX,
        ensures
            r == (elapsed_since(self.last_received, now) >= interval_for(self.config, self.app_state)
                * self.config.timeout_count),
    {
        let interval = self.current_interval();
        let limit = interval * (self.config.timeout_count as u64);
        now.saturating_sub(self.last_received) >= limit
    }

    /// Milliseconds since the last heartbeat received, at `now`.
    pub fn time_since_last_received_at(&self, now: u64) -> (r: u64)
        ensures
            r == elapsed_since(self.last_received, now),
    {
        now.saturating_sub(self.last_received)
    }

    /// Records a heartbeat sent now (by its clock).
    pub fn mark_sent(&mut self)
        ensures
            *final(self) == (HeartbeatManager { last_sent: final(self).last_sent, ..*old(self) }),
    {
        let now = self.clock.elapsed_ms();
        self.mark_sent_at(now);
    }

    /// Records a heartbeat received now (by its clock).
    pub fn mark_received(&mut self)
        ensures
            *final(self) == (HeartbeatManager { last_received: final(self).last_received, ..*old(self) }),
    {
        let now = self.clock.elapsed_ms();
        self.mark_received_at(now);
    }

    /// Whether a heartbeat is due now (by its clock); see `should_send_at`.
    pub fn should_send(&self) -> (r: bool)
        ensures
            exists|now: u64| r == self.due(now),
    {
        let now = self.clock.elapsed_ms();
        let r = self.should_send_at(now);
        assert(r == self.due(now));
        r
    }

    /// Whether the connection has timed out now (by its clock); see `is_timed_out_at`.
    pub fn is_timed_out(&self) -> (r: bool)
        requires
            interval_for(self.config, self.app_state) * self.config.timeout_count <= u64::MAX,
        ensures
            exists|now: u64| r == self.timed_out(now),
    {
        let now = self.clock.elapsed_ms();
        let r = self.is_timed_out_at(now);
        assert(r == self.timed_out(now));
        r
    }

    /// Milliseconds since the last heartbeat received, now (by its clock).
    pub fn time_since_last_received(&self) -> (r: u64)
        ensures
            exists|now: u64| r == elapsed_since(self.last_received, now),
    {
        let now = self.clock.elapsed_ms();
        self.time_since_last_received_at(now)
    }
}

/// What the heartbeat monitor does on a tick.
#[derive(Debug, Clone, Copy, PartialEq, Eq, Structural)]
pub enum HeartbeatAction {
    /// The connection timed out: monitoring ends.
    Stop,
    /// Send the heartbeat with this sequence number, then record it as sent.
    Send(u64),
    /// Nothing is due.
    Wait,
}

impl HeartbeatManager {
    /// Whether the connection has timed out at `now` (see `is_timed_out_at`).
    pub open spec fn timed_out(&self, now: u64) -> bool {
        elapsed_since(self.last_received, now) >= interval_for(self.config, self.app_state) * self.config.timeout_count
    }

    /// Whether a heartbeat is due at `now` (see `should_send_at`).
    pub open spec fn due(&self, now: u64) -> bool {
        elapsed_since(self.last_sent, now) >= interval_for(self.config, self.app_state)
    }

    /// What one tick of the monitor at `now` does (see `tick_at`): from `before` to `after`
    /// with the action `r`.
    pub open spec fn tick_step(before: HeartbeatManager, after: HeartbeatManager, r: HeartbeatAction, now: u64) -> bool {
        &&& before.timed_out(now) ==> r == HeartbeatAction::Stop && after == before
        &&& !before.timed_out(now) && before.due(now) ==> r == HeartbeatAction::Send((before.sequence + 1) as u64)
            && after == (HeartbeatManager { sequence: (before.sequence + 1) as u64, ..before })
        &&& !before.timed_out(now) && !before.due(now) ==> r == HeartbeatAction::Wait && after == before
    }

    /// One tick of the monitor now (by its clock); see `tick_at`.
    pub fn tick(&mut self) -> (r: HeartbeatAction)
        requires
            interval_for(old(self).config, old(self).app_state) * old(self).config.timeout_count <= u64::MAX,
            old(self).sequence < u64::MAX,
        ensures
            exists|now: u64| #[trigger] Self::tick_step(*old(self), *final(self), r, now),
    {
        let now = self.clock.elapsed_ms();
        let r = self.tick_at(now);
        assert(Self::tick_step(*old(self), *self, r, now));
        r
    }

    /// One tick of the monitor at `now`: stop on a time-out; else, when a heartbeat is
    /// due, take the next sequence number to send; else wait.
    pub fn tick_at(&mut self, now: u64) -> (r: HeartbeatAction)
        requires
            interval_for(old(self).config, old(self).app_state) * old(self).config.timeout_count <= u64::MAX,
            old(self).sequence < u64::MAX,
        ensures
            old(self).timed_out(now) ==> r == HeartbeatAction::Stop && *final(self) == *old(self),
            !old(self).timed_out(now) && old(self).due(now) ==> r == HeartbeatAction::Send((old(self).sequence + 1) as u64)
                && *final(self) == (HeartbeatManager { sequence: (old(self).sequence + 1) as u64, ..*old(self) }),
            !old(self).timed_out(now) && !old(self).due(now) ==> r == HeartbeatAction::Wait && *final(self) == *old(self),
    {
        if self.is_timed_out_at(now) {
            return HeartbeatAction::Stop;
        }
        if self.should_send_at(now) {
            let seq = self.next_sequence();
            return HeartbeatAction::Send(seq);
        }
        HeartbeatAction::Wait
    }
}

/// A heartbeat received resets the timeout: right after it, the connection has not timed
/// out as long as some time is allowed.
pub proof fn lemma_receipt_resets_timeout(m: HeartbeatManager, now: u64)
    requires
        interval_for(m.config, m.app_state) * m.config.timeout_count > 0,
    ensures
        !(elapsed_since(now, now) >= interval_for(m.config, m.app_state) * m.config.timeout_count),
{
}

} // verus!
