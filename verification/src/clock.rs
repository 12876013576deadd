//! The clocks: the wall clock, read in milliseconds since the Unix epoch, and monotonic
//! stopwatches.
use vstd::prelude::*;

verus! {

/// A reading of the system clock.
#[verifier::external_type_specification]
#[verifier::external_body]
pub struct ExSystemTime(std::time::SystemTime);

/// `std::time::SystemTime::now`: the system clock's reading at the call. Nothing is
/// claimed of it: it depends on the machine and the moment.
#[verifier::external_body]
fn system_now() -> (r: std::time::SystemTime) {
    std::time::SystemTime::now()
}

/// `SystemTime::duration_since(UNIX_EPOCH)`: the time from the Unix epoch to `t`, or
/// `None` where `t` lies before the epoch. Nothing is claimed of the duration.
#[verifier::external_body]
fn since_epoch(t: &std::time::SystemTime) -> (r: Option<std::time::Duration>) {
    match t.duration_since(std::time::UNIX_EPOCH) {
        Ok(d) => Some(d),
        Err(_) => None,
    }
}

/// `Duration::as_millis`: the whole milliseconds of `d`. Nothing is claimed of the value:
/// a duration is opaque here.
#[verifier::external_body]
fn whole_millis(d: &std::time::Duration) -> (r: u128) {
    d.as_millis()
}

/// A reading of the monotonic clock.
#[verifier::external_type_specification]
#[verifier::external_body]
pub struct ExInstant(std::time::Instant);

/// `std::time::Instant::now`: the monotonic clock's reading at the call. Nothing is
/// claimed of it: it depends on the machine and the moment.
#[verifier::external_body]
fn instant_now() -> (r: std::time::Instant) {
    std::time::Instant::now()
}

/// `Instant::elapsed`: the time from `t` to the call by the monotonic clock. Nothing is
/// claimed of it: it depends on the moment.
#[verifier::external_body]
fn elapsed_since(t: &std::time::Instant) -> (r: std::time::Duration) {
    t.elapsed()
}

/// A monotonic clock started at a moment: it reads the whole milliseconds since then.
/// Unlike the wall clock, it never goes back when the system time is set.
#[derive(Debug, Clone, Copy)]
pub struct Stopwatch {
    started: std::time::Instant,
}

impl Stopwatch {
    /// A stopwatch started now.
    pub fn start() -> Self {
        Stopwatch { started: instant_now() }
    }

    /// The whole milliseconds since the stopwatch started (the low 64 bits).
    pub fn elapsed_ms(&self) -> u64 {
        let d = elapsed_since(&self.started);
        let ms = whole_millis(&d);
        #[verifier::truncate]
        (ms as u64)
    }
}

/// Milliseconds since the Unix epoch by the system clock (the low 64 bits), or 0 where
/// the clock reads earlier than the epoch. It is for times that are wall-clock times
/// (bans, the circuit breaker's stamps); elapsed times are measured with a `Stopwatch`.
pub(crate) fn now_ms() -> u64 {
    let t = system_now();
    match since_epoch(&t) {
        Some(d) => {
            let ms = whole_millis(&d);
            #[verifier::truncate]
            (ms as u64)
        },
        None => 0,
    }
}

} // verus!
