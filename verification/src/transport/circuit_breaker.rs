//! Circuit breaker: stops requests to a failing peer and probes it again after a pause.
use vstd::prelude::*;
use crate::clock::now_ms;

verus! {

/// Circuit breaker states.
#[derive(Debug, Clone, Copy, PartialEq, Eq, Structural)]
pub enum State {
    /// Normal operation, requests allowed
    Closed,
    /// Failure threshold exceeded, requests blocked
    Open,
    /// Trial period, limited requests allowed
    HalfOpen,
}

/// Circuit breaker configuration. Durations are in milliseconds.
#[derive(Debug, Clone, Copy, PartialEq, Eq, Structural)]
pub struct CircuitBreakerConfig {
    /// Number of failures before opening the circuit
    pub failure_threshold: u32,
    /// Milliseconds to wait before switching from Open to HalfOpen
    pub reset_timeout: u64,
    /// Number of successful requests in HalfOpen to switch back to Closed
    pub success_threshold: u32,
}

impl Default for CircuitBreakerConfig {
    fn default() -> (r: Self)
        ensures
            r == (CircuitBreakerConfig { failure_threshold: 5, reset_timeout: 10_000, success_threshold: 2 }),
    {
        CircuitBreakerConfig { failure_threshold: 5, reset_timeout: 10_000, success_threshold: 2 }
    }
}

/// The abstract state of a circuit breaker.
pub struct BreakerModel {
    pub config: CircuitBreakerConfig,
    pub state: State,
    pub failures: u32,
    pub successes: u32,
    /// Time of the last recorded failure, in milliseconds since the epoch.
    pub last_failure_ms: u64,
}

/// Asking for permission at `now`: the answer and the breaker afterwards. An open breaker
/// lets a probe through, and becomes half-open, once the reset timeout has passed since the
/// last failure.
pub open spec fn allow_step(m: BreakerModel, now: u64) -> (bool, BreakerModel) {
    match m.state {
        State::Open => {
            let elapsed: int = if now >= m.last_failure_ms { now - m.last_failure_ms } else { 0 };
            if elapsed >= m.config.reset_timeout {
                (true, BreakerModel { state: State::HalfOpen, successes: 0, ..m })
            } else {
                (false, m)
            }
        },
        _ => (true, m),
    }
}

/// The breaker after a success: enough successes while half-open close it; a success
/// while closed clears the failure count.
pub open spec fn success_step(m: BreakerModel) -> BreakerModel {
    match m.state {
        State::HalfOpen => {
            let s = ((m.successes + 1) % 0x1_0000_0000) as u32;
            if s >= m.config.success_threshold {
                BreakerModel { state: State::Closed, failures: 0, successes: 0, ..m }
            } else {
                BreakerModel { successes: s, ..m }
            }
        },
        State::Closed => BreakerModel { failures: 0, ..m },
        State::Open => m,
    }
}

/// The breaker after a failure at `now`: enough failures while closed open it, a failure
/// while half-open opens it again, and the failure time is recorded in every state.
pub open spec fn failure_step(m: BreakerModel, now: u64) -> BreakerModel {
    let m1 = match m.state {
        State::Closed => {
            let f = ((m.failures + 1) % 0x1_0000_0000) as u32;
            if f >= m.config.failure_threshold {
                BreakerModel { state: State::Open, failures: f, ..m }
            } else {
                BreakerModel { failures: f, ..m }
            }
        },
        State::HalfOpen => BreakerModel { state: State::Open, ..m },
        State::Open => m,
    };
    BreakerModel { last_failure_ms: now, ..m1 }
}

/// Circuit breaker.
#[derive(Debug)]
pub struct CircuitBreaker {
    config: CircuitBreakerConfig,
    state: State,
    failures: u32,
    successes: u32,
    last_failure_time: u64,
}

impl View for CircuitBreaker {
    type V = BreakerModel;

    closed spec fn view(&self) -> BreakerModel {
        BreakerModel {
            config: self.config,
            state: self.state,
            failures: self.failures,
            successes: self.successes,
            last_failure_ms: self.last_failure_time,
        }
    }
}

impl CircuitBreaker {
    /// A closed breaker with no failures recorded.
    pub fn new(config: CircuitBreakerConfig) -> (r: Self)
        ensures
            r@ == (BreakerModel {
                config,
                state: State::Closed,
                failures: 0,
                successes: 0,
                last_failure_ms: 0,
            }),
    {
        CircuitBreaker { config, state: State::Closed, failures: 0, successes: 0, last_failure_time: 0 }
    }

    /// Whether a request may go out now (by the system clock). The answer, and the move
    /// from open to half-open, follow `allow_step` at the time read.
    pub fn allow_request(&mut self) -> (r: bool)
        ensures
            exists|now: u64| (r, final(self)@) == allow_step(old(self)@, now),
    {
        let now = now_ms();
        self.allow_request_at(now)
    }

    /// Whether a request may go out at `now` (milliseconds since the epoch).
    pub fn allow_request_at(&mut self, now: u64) -> (r: bool)
        ensures
            (r, final(self)@) == allow_step(old(self)@, now),
    {
        match self.state {
            State::Closed => true,
            State::Open => {
                let elapsed = now.saturating_sub(self.last_failure_time);
                if elapsed >= self.config.reset_timeout {
                    self.state = State::HalfOpen;
                    self.successes = 0;
                    true
                } else {
                    false
                }
            },
            State::HalfOpen => true,
        }
    }

    /// Records a successful request.
    pub fn record_success(&mut self)
        ensures
            final(self)@ == success_step(old(self)@),
    {
        match self.state {
            State::HalfOpen => {
                let successes = self.successes.wrapping_add(1);
                self.successes = successes;
                if successes >= self.config.success_threshold {
                    self.state = State::Closed;
                    self.failures = 0;
                    self.successes = 0;
                }
            },
            State::Closed => {
                self.failures = 0;
            },
            State::Open => {},
        }
    }

    /// Records a failed request, at the time the system clock gives.
    pub fn record_failure(&mut self)
        ensures
            exists|now: u64| final(self)@ == failure_step(old(self)@, now),
    {
        let now = now_ms();
        self.record_failure_at(now);
    }

    /// Records a failed request at `now` (milliseconds since the epoch).
    pub fn record_failure_at(&mut self, now: u64)
        ensures
            final(self)@ == failure_step(old(self)@, now),
    {
        match self.state {
            State::Closed => {
                let failures = self.failures.wrapping_add(1);
                self.failures = failures;
                if failures >= self.config.failure_threshold {
                    self.trip_to_open();
                }
            },
            State::HalfOpen => {
                self.trip_to_open();
            },
            State::Open => {},
        }
        self.last_failure_time = now;
    }

    fn trip_to_open(&mut self)
        ensures
            final(self)@ == (BreakerModel { state: State::Open, ..old(self)@ }),
    {
        self.state = State::Open;
    }

    /// The current state.
    pub fn state(&self) -> (r: State)
        ensures
            r == self@.state,
    {
        self.state
    }
}

/// A closed breaker opens after `failure_threshold` failures in a row, and then blocks
/// requests until the reset timeout has passed.
pub proof fn lemma_trips_after_threshold(m: BreakerModel, now: u64)
    requires
        m.state == State::Closed,
        m.failures + 1 >= m.config.failure_threshold,
        m.failures < u32::MAX,
    ensures
        failure_step(m, now).state == State::Open,
        m.config.reset_timeout > 0 ==> !allow_step(failure_step(m, now), now).0,
{
}

/// A half-open breaker goes back to open on any failure, and closes after
/// `success_threshold` successes.
pub proof fn lemma_half_open_outcomes(m: BreakerModel, now: u64)
    requires
        m.state == State::HalfOpen,
        m.successes < u32::MAX,
    ensures
        failure_step(m, now).state == State::Open,
        m.successes + 1 >= m.config.success_threshold ==> success_step(m).state == State::Closed
            && success_step(m).failures == 0,
        m.successes + 1 < m.config.success_threshold ==> success_step(m).state == State::HalfOpen,
{
}

/// Only an open breaker refuses a request, and only until the reset timeout has passed
/// since its last failure: a closed or half-open breaker lets every request through and
/// stays as it is; an open one whose timeout has passed lets a probe through and turns
/// half-open with its success count cleared.
pub proof fn lemma_allow_refuses_only_open(m: BreakerModel, now: u64)
    ensures
        !allow_step(m, now).0 <==> (m.state == State::Open && (if now >= m.last_failure_ms {
            now - m.last_failure_ms
        } else {
            0
        }) < m.config.reset_timeout),
        m.state == State::Closed ==> allow_step(m, now) == (true, m),
        m.state == State::HalfOpen ==> allow_step(m, now) == (true, m),
        m.state == State::Open && allow_step(m, now).0 ==> allow_step(m, now).1 == (BreakerModel {
            state: State::HalfOpen,
            successes: 0,
            ..m
        }),
        !allow_step(m, now).0 ==> allow_step(m, now).1 == m,
{
}

} // verus!
