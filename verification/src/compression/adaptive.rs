//! The compression level and the rule that moves it with round-trip time and loss.
//! Times are in milliseconds; whether the loss rate is above its threshold is decided
//! by the caller, who holds the rate.
use vstd::prelude::*;

verus! {

/// Half of `x`, rounded toward zero.
pub open spec fn half_toward_zero(x: int) -> int {
    if x >= 0 { x / 2 } else { -((-x) / 2) }
}

/// The level after a measurement: two steps down on high loss, one step down on high
/// round-trip time, one step up on low round-trip time, staying within `[min, max]`
/// on the side it moves to.
pub open spec fn next_level(level: int, min: int, max: int, rtt: int, high_rtt: int, low_rtt: int, high_loss: bool) -> int {
    if high_loss {
        if level - 2 > min { level - 2 } else { min }
    } else if rtt > high_rtt {
        if level - 1 > min { level - 1 } else { min }
    } else if rtt < low_rtt {
        if level + 1 < max { level + 1 } else { max }
    } else {
        level
    }
}

/// The compression level and the rule's parameters.
#[derive(Debug, Clone, Copy, PartialEq, Eq, Structural)]
pub struct CompressionLevel {
    pub current_level: i32,
    pub min_level: i32,
    pub max_level: i32,
    /// Round-trip time above which the level goes down.
    pub high_rtt_ms: u64,
    /// Round-trip time below which the level goes up.
    pub low_rtt_ms: u64,
    /// When the level was last considered.
    pub last_update: u64,
    /// The least time between two considerations.
    pub update_interval: u64,
}

impl CompressionLevel {
    /// The level halfway between `min_level` and `max_level` (rounded toward zero),
    /// considered last at `now`, reconsidered at most every 5 seconds.
    pub fn new_at(min_level: i32, max_level: i32, high_rtt_ms: u64, low_rtt_ms: u64, now: u64) -> (r: Self)
        requires
            i32::MIN <= min_level + max_level <= i32::MAX,
        ensures
            r.current_level == half_toward_zero(min_level + max_level),
            r.min_level == min_level,
            r.max_level == max_level,
            r.high_rtt_ms == high_rtt_ms,
            r.low_rtt_ms == low_rtt_ms,
            r.last_update == now,
            r.update_interval == 5000,
    {
        let sum: i32 = min_level + max_level;
        let mid: i32 = if sum >= 0 { sum / 2 } else { -((-(sum as i64)) / 2) as i32 };
        CompressionLevel {
            current_level: mid,
            min_level,
            max_level,
            high_rtt_ms,
            low_rtt_ms,
            last_update: now,
            update_interval: 5000,
        }
    }

    /// Considers a measurement of round-trip time `rtt_ms` at `now`, with the loss rate
    /// above its threshold or not. Nothing changes until `update_interval` has passed
    /// since the last consideration; then the level moves by `next_level`.
    pub fn update_at(&mut self, now: u64, rtt_ms: u64, high_loss: bool)
        requires
            old(self).is_due(now) ==> old(self).step_fits(rtt_ms, high_loss),
        ensures
            final(self).min_level == old(self).min_level,
            final(self).max_level == old(self).max_level,
            final(self).high_rtt_ms == old(self).high_rtt_ms,
            final(self).low_rtt_ms == old(self).low_rtt_ms,
            final(self).update_interval == old(self).update_interval,
            old(self).min_level <= old(self).current_level <= old(self).max_level ==> final(self).min_level
                <= final(self).current_level <= final(self).max_level,
            !old(self).is_due(now) ==> *final(self) == *old(self),
            old(self).is_due(now) ==> final(self).last_update == now && final(self).current_level == next_level(
                old(self).current_level as int,
                old(self).min_level as int,
                old(self).max_level as int,
                rtt_ms as int,
                old(self).high_rtt_ms as int,
                old(self).low_rtt_ms as int,
                high_loss,
            ),
    {
        let elapsed = if now >= self.last_update { now - self.last_update } else { 0 };
        if elapsed < self.update_interval {
            return;
        }
        self.last_update = now;
        let level = self.current_level;
        let next: i32 = if high_loss {
            let down = level - 2;
            if down > self.min_level { down } else { self.min_level }
        } else if rtt_ms > self.high_rtt_ms {
            let down = level - 1;
            if down > self.min_level { down } else { self.min_level }
        } else if rtt_ms < self.low_rtt_ms {
            let up = level + 1;
            if up < self.max_level { up } else { self.max_level }
        } else {
            level
        };
        self.current_level = next;
    }

    /// Whether the update interval has passed at `now` since the level was last
    /// considered (no time passes where the clock went back).
    pub open spec fn is_due(&self, now: u64) -> bool {
        (if now >= self.last_update { now - self.last_update } else { 0 }) >= self.update_interval
    }

    /// The step of the level that a measurement asks for stays within 32 bits.
    pub open spec fn step_fits(&self, rtt_ms: u64, high_loss: bool) -> bool {
        &&& high_loss ==> self.current_level - 2 >= i32::MIN
        &&& !high_loss && rtt_ms > self.high_rtt_ms ==> self.current_level - 1 >= i32::MIN
        &&& !high_loss && rtt_ms <= self.high_rtt_ms && rtt_ms < self.low_rtt_ms ==> self.current_level + 1 <= i32::MAX
    }

    /// The current level.
    pub fn get_level(&self) -> (r: i32)
        ensures
            r == self.current_level,
    {
        self.current_level
    }
}

/// How a measurement moves the level: high loss takes it two steps down whatever the
/// round-trip time, but not below the minimum; otherwise a high round-trip time takes it
/// one step down, not below the minimum; a low one takes it one step up, not above the
/// maximum; and one in between leaves it.
pub proof fn lemma_level_rule(level: int, min: int, max: int, rtt: int, high_rtt: int, low_rtt: int, high_loss: bool)
    ensures
        ({
            let r = next_level(level, min, max, rtt, high_rtt, low_rtt, high_loss);
            &&& high_loss ==> r >= min && r >= level - 2 && (r == min || r == level - 2)
            &&& !high_loss && rtt > high_rtt ==> r >= min && r >= level - 1 && (r == min || r == level - 1)
            &&& !high_loss && rtt <= high_rtt && rtt < low_rtt ==> r <= max && r <= level + 1 && (r == max || r
                == level + 1)
            &&& !high_loss && low_rtt <= rtt <= high_rtt ==> r == level
        }),
{
}

} // verus!
