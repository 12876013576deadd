//! Banned addresses: some for good, some until a time (seconds since the Unix epoch).
use vstd::prelude::*;
use crate::address::IpAddress;
use crate::clock::now_ms;

verus! {

/// IP blacklist entry
#[derive(Debug)]
pub struct BlacklistEntry {
    pub ip: IpAddress,
    pub reason: String,
    pub banned_at: u64,
    pub expires_at: Option<u64>,
}

/// An entry still holds at `now`: it has no expiry, or expires later.
pub open spec fn holds_at(e: BlacklistEntry, now: u64) -> bool {
    match e.expires_at {
        None => true,
        Some(t) => t > now,
    }
}

/// IP blacklist manager
#[derive(Debug)]
pub struct IpBlacklist {
    /// Permanently banned addresses, each once.
    pub permanent: Vec<IpAddress>,
    /// Temporary bans, in the order they were made.
    pub temporary: Vec<BlacklistEntry>,
}

/// The current time in whole seconds since the Unix epoch.
fn now_secs() -> u64 {
    now_ms() / 1000
}

/// A copy of `e`.
fn copy_entry(e: &BlacklistEntry) -> (r: BlacklistEntry)
    ensures
        r == *e,
{
    BlacklistEntry { ip: e.ip, reason: e.reason.clone(), banned_at: e.banned_at, expires_at: e.expires_at }
}

impl IpBlacklist {
    /// No address occurs twice among the permanent bans.
    pub open spec fn wf(&self) -> bool {
        self.permanent@.no_duplicates()
    }

    /// The permanently banned addresses.
    pub open spec fn banned(&self) -> Set<IpAddress> {
        self.permanent@.to_set()
    }

    /// Whether `ip` is banned at `now`: for good, or by a temporary ban that holds then.
    pub open spec fn bans_at(&self, ip: IpAddress, now: u64) -> bool {
        self.banned().contains(ip) || exists|i: int|
            0 <= i < self.temporary@.len() && (#[trigger] self.temporary@[i]).ip == ip && holds_at(
                self.temporary@[i],
                now,
            )
    }

    /// A blacklist with no bans. (Expired temporary bans are dropped by `purge_expired`,
    /// which the owner calls from time to time.)
    pub fn new() -> (r: Self)
        ensures
            r.wf(),
            r.permanent@.len() == 0,
            r.temporary@.len() == 0,
    {
        IpBlacklist { permanent: Vec::new(), temporary: Vec::new() }
    }

    /// Drops the temporary bans that no longer hold at `now`, keeping the others in order.
    pub fn purge_expired(&mut self, now: u64)
        requires
            old(self).wf(),
        ensures
            final(self).wf(),
            final(self).permanent == old(self).permanent,
            final(self).temporary@ == old(self).temporary@.filter(|e: BlacklistEntry| holds_at(e, now)),
    {
        let mut kept: Vec<BlacklistEntry> = Vec::new();
        let mut old_entries: Vec<BlacklistEntry> = Vec::new();
        std::mem::swap(&mut old_entries, &mut self.temporary);
        let ghost orig = old_entries@;
        let n = old_entries.len();
        let mut i: usize = 0;
        while i < n
            invariant
                n == orig.len(),
                old_entries@ == orig,
                i <= n,
                kept@ == orig.subrange(0, i as int).filter(|e: BlacklistEntry| holds_at(e, now)),
            decreases n - i,
        {
            let e = copy_entry(&old_entries[i]);
            proof {
                let s = orig.subrange(0, i + 1);
                assert(s.drop_last() =~= orig.subrange(0, i as int));
                assert(s.last() == orig[i as int]);
                orig.subrange(0, i as int).lemma_filter_push(orig[i as int], |e: BlacklistEntry| holds_at(e, now));
                assert(orig.subrange(0, i as int).push(orig[i as int]) =~= s);
            }
            let live = match e.expires_at {
                None => true,
                Some(t) => t > now,
            };
            if live {
                kept.push(e);
            }
            i = i + 1;
        }
        assert(orig.subrange(0, n as int) =~= orig);
        self.temporary = kept;
    }

    /// Whether `ip` is banned at `now`.
    pub fn is_blacklisted_at(&self, ip: IpAddress, now: u64) -> (r: bool)
        ensures
            r == self.bans_at(ip, now),
    {
        let mut i: usize = 0;
        while i < self.permanent.len()
            invariant
                i <= self.permanent@.len(),
                forall|j: int| 0 <= j < i ==> self.permanent@[j] != ip,
            decreases self.permanent@.len() - i,
        {
            if self.permanent[i] == ip {
                assert(self.banned().contains(ip));
                return true;
            }
            i = i + 1;
        }
        assert(!self.banned().contains(ip));
        let mut k: usize = 0;
        while k < self.temporary.len()
            invariant
                k <= self.temporary@.len(),
                !self.banned().contains(ip),
                forall|j: int|
                    0 <= j < k ==> !((#[trigger] self.temporary@[j]).ip == ip && holds_at(self.temporary@[j], now)),
            decreases self.temporary@.len() - k,
        {
            let e = &self.temporary[k];
            let live = match e.expires_at {
                None => true,
                Some(t) => t > now,
            };
            if e.ip == ip && live {
                return true;
            }
            k = k + 1;
        }
        false
    }

    /// Whether `ip` is banned now.
    pub fn is_blacklisted(&self, ip: IpAddress) -> (r: bool)
        ensures
            exists|now: u64| r == self.bans_at(ip, now),
    {
        self.is_blacklisted_at(ip, now_secs())
    }

    /// Bans `ip` for good.
    pub fn ban_permanent(&mut self, ip: IpAddress, reason: String)
        requires
            old(self).wf(),
        ensures
            final(self).wf(),
            final(self).banned() == old(self).banned().insert(ip),
            final(self).temporary == old(self).temporary,
    {
        let mut i: usize = 0;
        while i < self.permanent.len()
            invariant
                *self == *old(self),
                old(self).wf(),
                i <= self.permanent@.len(),
                forall|j: int| 0 <= j < i ==> self.permanent@[j] != ip,
            decreases self.permanent@.len() - i,
        {
            if self.permanent[i] == ip {
                assert(old(self).banned().contains(ip));
                assert(old(self).banned().insert(ip) =~= old(self).banned());
                return;
            }
            i = i + 1;
        }
        let ghost before = self.permanent@;
        self.permanent.push(ip);
        proof {
            assert(!before.contains(ip));
            before.lemma_push_to_set_commute(ip);
            assert forall|a: int, b: int|
                0 <= a < b < self.permanent@.len() implies self.permanent@[a] != self.permanent@[b] by {
                if b == before.len() {
                    assert(before[a] != ip);
                }
            }
        }
    }

    /// Bans `ip` from `now` for `duration` seconds.
    pub fn ban_temporary_at(&mut self, ip: IpAddress, reason: String, duration: u64, now: u64)
        requires
            old(self).wf(),
            now + duration <= u64::MAX,
        ensures
            final(self).wf(),
            final(self).permanent == old(self).permanent,
            final(self).temporary@ == old(self).temporary@.push(
                BlacklistEntry { ip, reason, banned_at: now, expires_at: Some((now + duration) as u64) },
            ),
    {
        let entry = BlacklistEntry { ip, reason, banned_at: now, expires_at: Some(now + duration) };
        self.temporary.push(entry);
    }

    /// Bans `ip` from now for `duration` seconds; where the end of the ban lies beyond the
    /// last representable second, the ban lasts until then.
    pub fn ban_temporary(&mut self, ip: IpAddress, reason: String, duration: u64)
        requires
            old(self).wf(),
        ensures
            final(self).wf(),
            final(self).permanent == old(self).permanent,
            exists|now: u64|
                final(self).temporary@ == old(self).temporary@.push(
                    BlacklistEntry { ip, reason, banned_at: now, expires_at: Some(now.saturating_add(duration)) },
                ),
    {
        let now = now_secs();
        let ghost spec_entry = BlacklistEntry {
            ip,
            reason,
            banned_at: now,
            expires_at: Some(now.saturating_add(duration)),
        };
        let entry = BlacklistEntry { ip, reason, banned_at: now, expires_at: Some(now.saturating_add(duration)) };
        assert(entry == spec_entry);
        self.temporary.push(entry);
        assert(self.temporary@ == old(self).temporary@.push(spec_entry));
    }

    /// Lifts every ban of `ip`.
    pub fn unban(&mut self, ip: IpAddress)
        requires
            old(self).wf(),
        ensures
            final(self).wf(),
            final(self).banned() == old(self).banned().remove(ip),
            final(self).temporary@ == old(self).temporary@.filter(|e: BlacklistEntry| e.ip != ip),
            forall|now: u64| !final(self).bans_at(ip, now),
    {
        let mut perm: Vec<IpAddress> = Vec::new();
        let ghost p = self.permanent@;
        let n = self.permanent.len();
        let mut i: usize = 0;
        while i < n
            invariant
                n == p.len(),
                self.permanent@ == p,
                p.no_duplicates(),
                i <= n,
                perm@ == p.subrange(0, i as int).filter(|x: IpAddress| x != ip),
                perm@.no_duplicates(),
                forall|x: IpAddress| perm@.contains(x) ==> p.subrange(0, i as int).contains(x),
            decreases n - i,
        {
            let x = self.permanent[i];
            proof {
                p.subrange(0, i as int).lemma_filter_push(p[i as int], |x: IpAddress| x != ip);
                assert(p.subrange(0, i as int).push(p[i as int]) =~= p.subrange(0, i + 1));
                if perm@.contains(x) {
                    let j = choose|j: int| 0 <= j < i && p[j] == x;
                    assert(p.subrange(0, i as int)[j] == x);
                }
            }
            let ghost pre = perm@;
            if x != ip {
                perm.push(x);
                proof {
                    assert(!pre.contains(x)) by {
                        if pre.contains(x) {
                            let j = choose|j: int| 0 <= j < i && p.subrange(0, i as int)[j] == x;
                            assert(p[j] == p[i as int]);
                        }
                    }
                    assert forall|a: int, b: int| 0 <= a < b < perm@.len() implies perm@[a] != perm@[b] by {
                        if b == pre.len() {
                            assert(pre[a] != x);
                        }
                    }
                }
            }
            proof {
                assert forall|y: IpAddress| perm@.contains(y) implies p.subrange(0, i + 1).contains(y) by {
                    if y == x && x != ip {
                        assert(p.subrange(0, i + 1)[i as int] == x);
                    } else {
                        assert(pre.contains(y));
                        let j = choose|j: int| 0 <= j < i && p.subrange(0, i as int)[j] == y;
                        assert(p.subrange(0, i + 1)[j] == y);
                    }
                }
            }
            i = i + 1;
        }
        assert(p.subrange(0, n as int) =~= p);
        let mut temp: Vec<BlacklistEntry> = Vec::new();
        let mut old_entries: Vec<BlacklistEntry> = Vec::new();
        std::mem::swap(&mut old_entries, &mut self.temporary);
        let ghost orig = old_entries@;
        let m = old_entries.len();
        let mut k: usize = 0;
        while k < m
            invariant
                m == orig.len(),
                old_entries@ == orig,
                k <= m,
                temp@ == orig.subrange(0, k as int).filter(|e: BlacklistEntry| e.ip != ip),
            decreases m - k,
        {
            let e = copy_entry(&old_entries[k]);
            proof {
                orig.subrange(0, k as int).lemma_filter_push(orig[k as int], |e: BlacklistEntry| e.ip != ip);
                assert(orig.subrange(0, k as int).push(orig[k as int]) =~= orig.subrange(0, k + 1));
            }
            if e.ip != ip {
                temp.push(e);
            }
            k = k + 1;
        }
        assert(orig.subrange(0, m as int) =~= orig);
        self.permanent = perm;
        self.temporary = temp;
        proof {
            let f = p.filter(|x: IpAddress| x != ip);
            assert forall|x: IpAddress| f.to_set().contains(x) == p.to_set().remove(ip).contains(x) by {
                if p.contains(x) && x != ip {
                    let j = choose|j: int| 0 <= j < p.len() && p[j] == x;
                    assert(f.contains(x)) by {
                        p.lemma_filter_contains(|x: IpAddress| x != ip, j);
                    }
                }
                if f.contains(x) {
                    p.lemma_filter_contains_rev(|x: IpAddress| x != ip, x);
                }
            }
            assert(f.to_set() =~= p.to_set().remove(ip));
            let t = orig.filter(|e: BlacklistEntry| e.ip != ip);
            assert forall|now: u64| !self.bans_at(ip, now) by {
                assert forall|j: int| 0 <= j < t.len() implies (#[trigger] t[j]).ip != ip by {
                    orig.lemma_filter_pred(|e: BlacklistEntry| e.ip != ip, j);
                }
            }
        }
    }

    /// Every ban: the permanent ones (reason "Permanent ban", banned at 0, no expiry),
    /// then the temporary ones in the order they were made.
    pub fn get_all(&self) -> (r: Vec<BlacklistEntry>)
        ensures
            r@.len() == self.permanent@.len() + self.temporary@.len(),
            forall|i: int|
                0 <= i < self.permanent@.len() ==> (#[trigger] r@[i]).ip == self.permanent@[i]
                    && r@[i].reason@ == "Permanent ban"@ && r@[i].banned_at == 0 && r@[i].expires_at is None,
            forall|i: int|
                0 <= i < self.temporary@.len() ==> #[trigger] r@[self.permanent@.len() + i]
                    == self.temporary@[i],
    {
        let mut out: Vec<BlacklistEntry> = Vec::new();
        let mut i: usize = 0;
        while i < self.permanent.len()
            invariant
                i <= self.permanent@.len(),
                out@.len() == i,
                forall|j: int|
                    0 <= j < i ==> (#[trigger] out@[j]).ip == self.permanent@[j] && out@[j].reason@
                        == "Permanent ban"@ && out@[j].banned_at == 0 && out@[j].expires_at is None,
            decreases self.permanent@.len() - i,
        {
            out.push(
                BlacklistEntry {
                    ip: self.permanent[i],
                    reason: String::from_str("Permanent ban"),
                    banned_at: 0,
                    expires_at: None,
                },
            );
            i = i + 1;
        }
        let base = out.len();
        let mut k: usize = 0;
        while k < self.temporary.len()
            invariant
                base == self.permanent@.len(),
                k <= self.temporary@.len(),
                out@.len() == base + k,
                forall|j: int|
                    0 <= j < base ==> (#[trigger] out@[j]).ip == self.permanent@[j] && out@[j].reason@
                        == "Permanent ban"@ && out@[j].banned_at == 0 && out@[j].expires_at is None,
                forall|j: int| 0 <= j < k ==> #[trigger] out@[base + j] == self.temporary@[j],
            decreases self.temporary@.len() - k,
        {
            out.push(copy_entry(&self.temporary[k]));
            k = k + 1;
        }
        out
    }
}

/// A temporary ban made at `t` for `d > 0` seconds holds at `t`; where it is the
/// address's only ban, it no longer holds from `t + d` on.
pub proof fn lemma_temporary_ban_window(
    before: IpBlacklist,
    after: IpBlacklist,
    ip: IpAddress,
    reason: String,
    d: u64,
    t: u64,
    later: u64,
)
    requires
        t + d <= u64::MAX,
        after.permanent == before.permanent,
        after.temporary@ == before.temporary@.push(
            BlacklistEntry { ip, reason, banned_at: t, expires_at: Some((t + d) as u64) },
        ),
    ensures
        d > 0 ==> after.bans_at(ip, t),
        !before.bans_at(ip, later) && later >= t + d ==> !after.bans_at(ip, later),
{
    let n = before.temporary@.len();
    if d > 0 {
        assert(after.temporary@[n as int].ip == ip);
        assert(holds_at(after.temporary@[n as int], t));
    }
    if !before.bans_at(ip, later) && later >= t + d {
        assert forall|i: int| 0 <= i < after.temporary@.len() && (#[trigger] after.temporary@[i]).ip == ip
            implies !holds_at(after.temporary@[i], later) by {
            if i < n {
                assert(after.temporary@[i] == before.temporary@[i]);
            }
        }
    }
}

/// A permanent ban holds at every time.
pub proof fn lemma_permanent_ban_holds(b: IpBlacklist, ip: IpAddress, now: u64)
    requires
        b.banned().contains(ip),
    ensures
        b.bans_at(ip, now),
{
}

} // verus!
