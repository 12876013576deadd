//! The load balancer: backends, their health, and an algorithm that picks among the
//! backends able to serve.
use vstd::prelude::*;
use crate::element::str_equal;
use crate::keyed_map::KeyedMap;
use crate::load_balancer::{Backend, BackendView, views, same_backend};
use crate::load_balancer::algorithms::{BalancingAlgorithm, key_view};
use crate::load_balancer::health::{HealthChecker, HealthCheck, HealthStatus};

verus! {

/// Load balancer
pub struct LoadBalancer<A> {
    backends: Vec<Backend>,
    algorithm: A,
    health_checker: HealthChecker,
    health_status: KeyedMap<HealthStatus>,
}

/// A backend serves requests when its status is healthy or degraded.
pub open spec fn serving_view(status: Map<Seq<char>, HealthStatus>, v: BackendView) -> bool {
    status.contains_key(v.0) && (status[v.0] == HealthStatus::Healthy || status[v.0] == HealthStatus::Degraded)
}

/// A backend serves requests when it is healthy or degraded.
pub open spec fn serving(status: Map<Seq<char>, HealthStatus>, b: Backend) -> bool {
    serving_view(status, b@)
}

/// The backends of `list` that serve, in order, each by what it is.
pub open spec fn serving_list(list: Seq<Backend>, status: Map<Seq<char>, HealthStatus>) -> Seq<BackendView> {
    views(list).filter(|v: BackendView| serving_view(status, v))
}

/// `b` with one active connection more (`up`) or less, wrapping around as `Backend`'s
/// counter does, where its identifier is `id`; otherwise `b` as it is.
pub open spec fn moved_count(b: Backend, id: Seq<char>, up: bool) -> Backend {
    if b.id@ == id {
        Backend {
            active_connections: (if up {
                (b.active_connections + 1) % 0x1_0000_0000
            } else {
                (b.active_connections + 0xFFFF_FFFF) % 0x1_0000_0000
            }) as u32,
            ..b
        }
    } else {
        b
    }
}

/// A backend counts as healthy when its status is healthy.
pub open spec fn healthy(status: Map<Seq<char>, HealthStatus>, b: Backend) -> bool {
    status.contains_key(b.id@) && status[b.id@] == HealthStatus::Healthy
}

impl<A: BalancingAlgorithm> LoadBalancer<A> {
    /// The backends, in order.
    pub closed spec fn backend_list(&self) -> Seq<Backend> {
        self.backends@
    }

    /// The health status by backend identifier.
    pub closed spec fn status(&self) -> Map<Seq<char>, HealthStatus> {
        self.health_status@
    }

    /// The algorithm.
    pub closed spec fn algorithm(&self) -> A {
        self.algorithm
    }

    /// The health checker settings.
    pub closed spec fn checker(&self) -> HealthChecker {
        self.health_checker
    }

    /// The status map is well formed.
    pub closed spec fn wf(&self) -> bool {
        self.health_status.wf()
    }

    /// A balancer over `backends`, all of them healthy at first.
    pub fn new(backends: Vec<Backend>, algorithm: A, health_checker: HealthChecker) -> (r: Self)
        ensures
            r.wf(),
            r.backend_list() == backends@,
            r.algorithm() == algorithm,
            r.checker() == health_checker,
            forall|k: Seq<char>|
                #[trigger] r.status().contains_key(k) <==> exists|i: int|
                    0 <= i < backends@.len() && backends@[i].id@ == k,
            forall|k: Seq<char>| #[trigger] r.status().contains_key(k) ==> r.status()[k] == HealthStatus::Healthy,
    {
        let mut status: KeyedMap<HealthStatus> = KeyedMap::new();
        let n = backends.len();
        let mut i: usize = 0;
        while i < n
            invariant
                n == backends@.len(),
                i <= n,
                status.wf(),
                forall|k: Seq<char>|
                    #[trigger] status@.contains_key(k) <==> exists|j: int| 0 <= j < i && backends@[j].id@ == k,
                forall|k: Seq<char>| #[trigger] status@.contains_key(k) ==> status@[k] == HealthStatus::Healthy,
            decreases n - i,
        {
            status.insert(backends[i].id.clone(), HealthStatus::Healthy);
            proof {
                assert forall|k: Seq<char>|
                    #[trigger] status@.contains_key(k) implies exists|j: int| 0 <= j < i + 1 && backends@[j].id@ == k by {
                    if k == backends@[i as int].id@ {
                        assert(backends@[i as int].id@ == k);
                    }
                }
            }
            i = i + 1;
        }
        LoadBalancer { backends, algorithm, health_checker, health_status: status }
    }

    /// Copies of the backends that serve (healthy or degraded), in order.
    pub fn serving_backends(&self) -> (r: Vec<Backend>)
        requires
            self.wf(),
        ensures
            views(r@) == serving_list(self.backend_list(), self.status()),
    {
        let ghost status = self.health_status@;
        let ghost list = self.backends@;
        let ghost pred = |v: BackendView| serving_view(status, v);
        let mut out: Vec<Backend> = Vec::new();
        let n = self.backends.len();
        let mut i: usize = 0;
        while i < n
            invariant
                n == list.len(),
                list == self.backends@,
                status == self.health_status@,
                pred == (|v: BackendView| serving_view(status, v)),
                self.health_status.wf(),
                i <= n,
                views(out@) == views(list.subrange(0, i as int)).filter(pred),
            decreases n - i,
        {
            proof {
                assert(views(list.subrange(0, i + 1)) =~= views(list.subrange(0, i as int)).push(list[i as int]@));
                views(list.subrange(0, i as int)).lemma_filter_push(list[i as int]@, pred);
            }
            let ghost before = out@;
            match self.health_status.get(self.backends[i].id.as_str()) {
                Some(st) => {
                    if *st == HealthStatus::Healthy || *st == HealthStatus::Degraded {
                        out.push(self.backends[i].duplicate());
                        assert(views(out@) =~= views(before).push(list[i as int]@));
                    }
                },
                None => {},
            }
            i = i + 1;
        }
        assert(list.subrange(0, n as int) =~= list);
        out
    }

    /// A backend for a request with the optional routing `key`: the algorithm chooses among
    /// the backends that serve, in order; none when no backend serves. An algorithm that
    /// cannot choose (consistent hashing over zero virtual nodes) is only asked when no
    /// backend serves: with a backend serving, it would divide by zero.
    pub fn select_backend(&mut self, key: Option<&str>) -> (r: Option<Backend>)
        requires
            old(self).wf(),
            old(self).algorithm().ready() || serving_list(old(self).backend_list(), old(self).status()).len() == 0,
        ensures
            final(self).wf(),
            old(self).algorithm().ready() ==> final(self).algorithm().ready(),
            final(self).backend_list() == old(self).backend_list(),
            final(self).status() == old(self).status(),
            final(self).checker() == old(self).checker(),
            ({
                let s = serving_list(old(self).backend_list(), old(self).status());
                &&& s.len() == 0 ==> r is None && final(self).algorithm() == old(self).algorithm()
                &&& s.len() > 0 ==> final(self).algorithm() == old(self).algorithm().after_choice(s, key_view(key))
                &&& s.len() > 0 ==> match old(self).algorithm().choice(s, key_view(key)) {
                    Some(i) => (r matches Some(b) && 0 <= i < s.len() && b@ == s[i]),
                    None => r is None,
                }
            }),
    {
        let serving = self.serving_backends();
        if serving.len() == 0 {
            return None;
        }
        let ghost vs = views(serving@);
        let r = self.algorithm.select(serving.as_slice(), key);
        proof {
            if r is Some {
                let i = old(self).algorithm().choice(vs, key_view(key))->0;
                assert(vs[i] == serving@[i]@);
            }
        }
        r
    }

    /// Adds `backend`, healthy.
    pub fn add_backend(&mut self, backend: Backend)
        requires
            old(self).wf(),
        ensures
            final(self).wf(),
            final(self).backend_list() == old(self).backend_list().push(backend),
            final(self).status() == old(self).status().insert(backend.id@, HealthStatus::Healthy),
            final(self).checker() == old(self).checker(),
    {
        self.health_status.insert(backend.id.clone(), HealthStatus::Healthy);
        self.backends.push(backend);
    }

    /// Removes every backend with identifier `backend_id`, and its health status.
    pub fn remove_backend(&mut self, backend_id: &str)
        requires
            old(self).wf(),
        ensures
            final(self).wf(),
            final(self).backend_list() == old(self).backend_list().filter(|b: Backend| b.id@ != backend_id@),
            final(self).status() == old(self).status().remove(backend_id@),
            final(self).checker() == old(self).checker(),
    {
        let ghost orig = self.backends@;
        let mut rest: Vec<Backend> = Vec::new();
        std::mem::swap(&mut rest, &mut self.backends);
        let mut kept: Vec<Backend> = Vec::new();
        let ghost pred = |b: Backend| b.id@ != backend_id@;
        let n = rest.len();
        let mut k: usize = 0;
        while rest.len() > 0
            invariant
                n == orig.len(),
                pred == (|b: Backend| b.id@ != backend_id@),
                k + rest@.len() == n,
                rest@ == orig.subrange(k as int, n as int),
                kept@ == orig.subrange(0, k as int).filter(pred),
            decreases rest@.len(),
        {
            let b = rest.remove(0);
            proof {
                assert(orig.subrange(0, k + 1) =~= orig.subrange(0, k as int).push(b));
                orig.subrange(0, k as int).lemma_filter_push(b, pred);
                assert(rest@ =~= orig.subrange(k + 1, n as int));
            }
            if !str_equal(b.id.as_str(), backend_id) {
                kept.push(b);
            }
            k = k + 1;
        }
        proof {
            assert(orig.subrange(0, n as int) =~= orig);
        }
        self.backends = kept;
        self.health_status.remove(backend_id);
    }

    /// Counts one more active connection on every backend with identifier `backend_id`
    /// (the one a request was sent to), wrapping around at 2^32.
    pub fn inc_connections(&mut self, backend_id: &str)
        ensures
            final(self).backend_list() == old(self).backend_list().map_values(|b: Backend| moved_count(b, backend_id@, true)),
            final(self).status() == old(self).status(),
            final(self).algorithm() == old(self).algorithm(),
            final(self).checker() == old(self).checker(),
            old(self).wf() ==> final(self).wf(),
    {
        self.move_count(backend_id, true);
    }

    /// Counts one active connection less on every backend with identifier `backend_id`
    /// (when a request to it ends), wrapping around at 0.
    pub fn dec_connections(&mut self, backend_id: &str)
        ensures
            final(self).backend_list() == old(self).backend_list().map_values(|b: Backend| moved_count(b, backend_id@, false)),
            final(self).status() == old(self).status(),
            final(self).algorithm() == old(self).algorithm(),
            final(self).checker() == old(self).checker(),
            old(self).wf() ==> final(self).wf(),
    {
        self.move_count(backend_id, false);
    }

    fn move_count(&mut self, backend_id: &str, up: bool)
        ensures
            final(self).backends@ == old(self).backends@.map_values(|b: Backend| moved_count(b, backend_id@, up)),
            final(self).health_status == old(self).health_status,
            final(self).algorithm == old(self).algorithm,
            final(self).health_checker == old(self).health_checker,
    {
        let ghost orig = self.backends@;
        let ghost f = |b: Backend| moved_count(b, backend_id@, up);
        let mut rest: Vec<Backend> = Vec::new();
        std::mem::swap(&mut rest, &mut self.backends);
        let mut out: Vec<Backend> = Vec::new();
        let n = rest.len();
        let mut k: usize = 0;
        while rest.len() > 0
            invariant
                n == orig.len(),
                f == (|b: Backend| moved_count(b, backend_id@, up)),
                k + rest@.len() == n,
                rest@ == orig.subrange(k as int, n as int),
                out@ == orig.subrange(0, k as int).map_values(f),
            decreases rest@.len(),
        {
            let mut b = rest.remove(0);
            let ghost before = b;
            proof {
                assert(orig.subrange(0, k + 1).map_values(f) =~= orig.subrange(0, k as int).map_values(f).push(f(before)));
                assert(rest@ =~= orig.subrange(k + 1, n as int));
            }
            if str_equal(b.id.as_str(), backend_id) {
                if up {
                    b.inc_connections();
                } else {
                    b.dec_connections();
                }
            }
            assert(b == f(before));
            out.push(b);
            k = k + 1;
        }
        proof {
            assert(orig.subrange(0, n as int) =~= orig);
        }
        self.backends = out;
    }

    /// The number of backends.
    pub fn backend_count(&self) -> (r: usize)
        ensures
            r == self.backend_list().len(),
    {
        self.backends.len()
    }

    /// The number of backends whose status is healthy.
    pub fn healthy_backend_count(&self) -> (r: usize)
        requires
            self.wf(),
        ensures
            r == self.backend_list().filter(|b: Backend| healthy(self.status(), b)).len(),
    {
        let ghost pred = |b: Backend| healthy(self.status(), b);
        let ghost list = self.backends@;
        let n = self.backends.len();
        let mut count: usize = 0;
        let mut i: usize = 0;
        while i < n
            invariant
                n == list.len(),
                list == self.backends@,
                self.health_status.wf(),
                pred == (|b: Backend| healthy(self.status(), b)),
                i <= n,
                count == list.subrange(0, i as int).filter(pred).len(),
                count <= i,
            decreases n - i,
        {
            proof {
                assert(list.subrange(0, i + 1) =~= list.subrange(0, i as int).push(list[i as int]));
                list.subrange(0, i as int).lemma_filter_push(list[i as int], pred);
            }
            match self.health_status.get(self.backends[i].id.as_str()) {
                Some(s) => {
                    if *s == HealthStatus::Healthy {
                        count = count + 1;
                    }
                },
                None => {},
            }
            i = i + 1;
        }
        proof {
            assert(list.subrange(0, n as int) =~= list);
        }
        count
    }

    /// Records the result of a health check.
    pub fn record_health_check(&mut self, check: HealthCheck)
        requires
            old(self).wf(),
        ensures
            final(self).wf(),
            final(self).backend_list() == old(self).backend_list(),
            final(self).status() == old(self).status().insert(check.backend_id@, check.status),
            final(self).checker() == old(self).checker(),
    {
        self.health_status.insert(check.backend_id, check.status);
    }

    /// Copies of the backends, in order.
    pub fn backends(&self) -> (r: Vec<Backend>)
        ensures
            r@.len() == self.backend_list().len(),
            forall|i: int| 0 <= i < r@.len() ==> #[trigger] same_backend(r@[i], self.backend_list()[i]),
    {
        let mut out: Vec<Backend> = Vec::new();
        let n = self.backends.len();
        let mut i: usize = 0;
        while i < n
            invariant
                n == self.backends@.len(),
                i <= n,
                out@.len() == i,
                forall|j: int| 0 <= j < i ==> #[trigger] same_backend(out@[j], self.backends@[j]),
            decreases n - i,
        {
            out.push(self.backends[i].duplicate());
            i = i + 1;
        }
        out
    }

    /// The health checker settings.
    pub fn health_checker(&self) -> (r: HealthChecker)
        ensures
            r == self.checker(),
    {
        self.health_checker
    }
}

/// Healthy and degraded backends serve requests; unhealthy ones, and those with no
/// recorded status, do not.
pub proof fn lemma_serving_statuses(status: Map<Seq<char>, HealthStatus>, v: BackendView)
    ensures
        status.contains_key(v.0) && status[v.0] == HealthStatus::Healthy ==> serving_view(status, v),
        status.contains_key(v.0) && status[v.0] == HealthStatus::Degraded ==> serving_view(status, v),
        status.contains_key(v.0) && status[v.0] == HealthStatus::Unhealthy ==> !serving_view(status, v),
        !status.contains_key(v.0) ==> !serving_view(status, v),
{
}

} // verus!
