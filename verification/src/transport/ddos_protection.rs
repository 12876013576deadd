//! Limits that protect a server against floods from one address, and the bans that
//! enforce them. Times are in milliseconds. The per-address rate limiters are consulted
//! by the caller; what is kept here is each address's activity and ban.
use vstd::prelude::*;
use crate::address::IpAddress;

verus! {

/// Per-address limits. Durations are in milliseconds.
#[derive(Debug, Clone, Copy, PartialEq, Eq, Structural)]
pub struct DdosConfig {
    /// Max packets per second per IP
    pub max_packets_per_ip: u32,
    /// Max bytes per second per IP
    pub max_bytes_per_ip: u64,
    /// Max handshakes per second per IP
    pub max_handshakes_per_ip: u32,
    /// Milliseconds to ban an IP that exceeds the limits, if banning is on
    pub ban_duration: Option<u64>,
    /// Milliseconds between removals of stale IP records
    pub cleanup_interval: u64,
}

impl DdosConfig {
    /// The default limits.
    pub open spec fn spec_default() -> DdosConfig {
        DdosConfig {
            max_packets_per_ip: 1000,
            max_bytes_per_ip: 1_048_576,
            max_handshakes_per_ip: 5,
            ban_duration: Some(60_000),
            cleanup_interval: 60_000,
        }
    }
}

impl Default for DdosConfig {
    fn default() -> (r: Self)
        ensures
            r == DdosConfig::spec_default(),
    {
        DdosConfig {
            max_packets_per_ip: 1000,
            max_bytes_per_ip: 1_048_576,
            max_handshakes_per_ip: 5,
            ban_duration: Some(60_000),
            cleanup_interval: 60_000,
        }
    }
}

/// How long an address may stay silent before its record is dropped: 300 seconds.
pub const STALE_AFTER_MS: u64 = 300_000;

/// What is kept of one address: when it was last active and until when it is banned.
#[derive(Debug, Clone, Copy, PartialEq, Eq, Structural)]
pub struct IpState {
    pub last_activity: u64,
    pub banned_until: Option<u64>,
}

/// The time from `start` to `now`, or 0 where the clock went back.
pub open spec fn since(start: u64, now: u64) -> nat {
    if now >= start { (now - start) as nat } else { 0 }
}

impl IpState {
    /// A record of an address first seen at `now`, not banned.
    pub fn new(now: u64) -> (r: Self)
        ensures
            r.last_activity == now,
            r.banned_until is None,
    {
        IpState { last_activity: now, banned_until: None }
    }

    /// Records activity at `now` and lifts a ban that has run out. The result is whether
    /// a ban still holds, in which case the packet or handshake is refused.
    pub fn enter(&mut self, now: u64) -> (banned: bool)
        ensures
            final(self).last_activity == now,
            banned == (old(self).banned_until is Some && now < old(self).banned_until->0),
            banned ==> final(self).banned_until == old(self).banned_until,
            !banned ==> final(self).banned_until is None,
    {
        self.last_activity = now;
        match self.banned_until {
            Some(b) => {
                if now < b {
                    return true;
                }
                self.banned_until = None;
                false
            },
            None => false,
        }
    }

    /// After the handshake limiter answered `allowed` at `now`: a refused handshake bans
    /// the address for `ban_duration`, where banning is on. The result is whether the
    /// handshake passes.
    pub fn after_handshake_limit(&mut self, now: u64, allowed: bool, ban_duration: Option<u64>) -> (r: bool)
        requires
            !allowed ==> (ban_duration matches Some(d) ==> now + d <= u64::MAX),
        ensures
            r == allowed,
            final(self).last_activity == old(self).last_activity,
            allowed ==> final(self).banned_until == old(self).banned_until,
            !allowed && ban_duration is None ==> final(self).banned_until == old(self).banned_until,
            !allowed ==> (ban_duration matches Some(d) ==> final(self).banned_until == Some((now + d) as u64)),
    {
        if !allowed {
            if let Some(d) = ban_duration {
                self.banned_until = Some(now + d);
            }
            return false;
        }
        true
    }

    /// Whether the address has been silent for `STALE_AFTER_MS` or longer at `now`.
    pub fn is_stale(&self, now: u64) -> (r: bool)
        ensures
            r == (since(self.last_activity, now) >= STALE_AFTER_MS),
    {
        let idle = if now >= self.last_activity { now - self.last_activity } else { 0 };
        idle >= STALE_AFTER_MS
    }
}

/// The records of all addresses seen.
#[derive(Debug)]
pub struct IpTable {
    pub entries: Vec<(IpAddress, IpState)>,
}

impl IpTable {
    /// No address has two records.
    pub open spec fn wf(&self) -> bool {
        forall|a: int, b: int|
            0 <= a < b < self.entries@.len() ==> (#[trigger] self.entries@[a]).0 != (#[trigger] self.entries@[b]).0
    }

    /// An empty table.
    pub fn new() -> (r: Self)
        ensures
            r.wf(),
            r.entries@.len() == 0,
    {
        IpTable { entries: Vec::new() }
    }

    /// The position of the record of `ip`, made at `now` if there was none.
    pub fn entry(&mut self, ip: IpAddress, now: u64) -> (r: usize)
        requires
            old(self).wf(),
        ensures
            final(self).wf(),
            r < final(self).entries@.len(),
            final(self).entries@[r as int].0 == ip,
            (exists|i: int| 0 <= i < old(self).entries@.len() && old(self).entries@[i].0 == ip)
                ==> final(self).entries@ == old(self).entries@ && old(self).entries@[r as int].0 == ip,
            (forall|i: int| 0 <= i < old(self).entries@.len() ==> old(self).entries@[i].0 != ip)
                ==> final(self).entries@ == old(self).entries@.push((ip, IpState { last_activity: now, banned_until: None })),
    {
        let mut i: usize = 0;
        while i < self.entries.len()
            invariant
                *self == *old(self),
                old(self).wf(),
                i <= self.entries@.len(),
                forall|j: int| 0 <= j < i ==> self.entries@[j].0 != ip,
            decreases self.entries@.len() - i,
        {
            if self.entries[i].0 == ip {
                return i;
            }
            i = i + 1;
        }
        let ghost before = self.entries@;
        self.entries.push((ip, IpState::new(now)));
        proof {
            assert forall|a: int, b: int|
                0 <= a < b < self.entries@.len() implies (#[trigger] self.entries@[a]).0 != (#[trigger] self.entries@[b]).0 by {
                if b == before.len() {
                    assert(before[a].0 != ip);
                } else {
                    assert(before[a] == self.entries@[a] && before[b] == self.entries@[b]);
                }
            }
        }
        i
    }

    /// Drops the records of the addresses that are stale at `now`, keeping the others in order.
    pub fn cleanup(&mut self, now: u64)
        requires
            old(self).wf(),
        ensures
            final(self).wf(),
            final(self).entries@ == old(self).entries@.filter(|e: (IpAddress, IpState)| !(since(e.1.last_activity, now) >= STALE_AFTER_MS)),
    {
        let mut kept: Vec<(IpAddress, IpState)> = Vec::new();
        let ghost orig = self.entries@;
        let n = self.entries.len();
        let mut i: usize = 0;
        while i < n
            invariant
                n == orig.len(),
                self.entries@ == orig,
                forall|a: int, b: int| 0 <= a < b < orig.len() ==> (#[trigger] orig[a]).0 != (#[trigger] orig[b]).0,
                i <= n,
                kept@ == orig.subrange(0, i as int).filter(|e: (IpAddress, IpState)| !(since(e.1.last_activity, now) >= STALE_AFTER_MS)),
                forall|a: int, b: int| 0 <= a < b < kept@.len() ==> (#[trigger] kept@[a]).0 != (#[trigger] kept@[b]).0,
                forall|a: int| 0 <= a < kept@.len() ==> exists|j: int| 0 <= j < i && orig[j] == #[trigger] kept@[a],
            decreases n - i,
        {
            let e = self.entries[i];
            proof {
                orig.subrange(0, i as int).lemma_filter_push(orig[i as int], |e: (IpAddress, IpState)| !(since(e.1.last_activity, now) >= STALE_AFTER_MS));
                assert(orig.subrange(0, i as int).push(orig[i as int]) =~= orig.subrange(0, i + 1));
            }
            if !e.1.is_stale(now) {
                let ghost before = kept@;
                kept.push(e);
                proof {
                    assert forall|a: int, b: int| 0 <= a < b < kept@.len() implies (#[trigger] kept@[a]).0 != (#[trigger] kept@[b]).0 by {
                        if b == before.len() {
                            let j = choose|j: int| 0 <= j < i && orig[j] == before[a];
                            assert(orig[j].0 != orig[i as int].0);
                        } else {
                            assert(kept@[a] == before[a] && kept@[b] == before[b]);
                        }
                    }
                    assert forall|a: int| 0 <= a < kept@.len() implies exists|j: int| 0 <= j < i + 1 && orig[j] == #[trigger] kept@[a] by {
                        if a == before.len() {
                            assert(orig[i as int] == kept@[a]);
                        } else {
                            assert(kept@[a] == before[a]);
                            let j = choose|j: int| 0 <= j < i && orig[j] == before[a];
                            assert(orig[j] == kept@[a]);
                        }
                    }
                }
            }
            i = i + 1;
        }
        assert(orig.subrange(0, n as int) =~= orig);
        self.entries = kept;
    }
}

/// A handshake refused at `now` with banning on bans the address: every later packet or
/// handshake before `now + d` is refused, and one at `now + d` or later passes the ban.
pub proof fn lemma_handshake_ban_window(after: IpState, now: u64, d: u64, t: u64)
    requires
        now + d <= u64::MAX,
        after.banned_until == Some((now + d) as u64),
    ensures
        t < now + d ==> (after.banned_until is Some && t < after.banned_until->0),
        t >= now + d ==> !(after.banned_until is Some && t < after.banned_until->0),
{
}

} // verus!
