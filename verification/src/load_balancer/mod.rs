//! Load balancing over backend servers: selection algorithms, health and the balancer.
pub mod algorithms;
pub mod balancer;
pub mod health;

use vstd::prelude::*;

verus! {

/// Backend server
#[derive(Debug)]
pub struct Backend {
    pub id: String,
    pub address: String,
    pub weight: u32,
    pub active_connections: u32,
}

/// What a backend is: its identifier, address, weight and active connections.
pub type BackendView = (Seq<char>, Seq<char>, u32, u32);

impl View for Backend {
    type V = BackendView;

    open spec fn view(&self) -> BackendView {
        (self.id@, self.address@, self.weight, self.active_connections)
    }
}

/// The backends of a list, each by what it is.
pub open spec fn views(bs: Seq<Backend>) -> Seq<BackendView> {
    bs.map_values(|b: Backend| b@)
}

/// Two backends describe the same server with the same load.
pub open spec fn same_backend(a: Backend, b: Backend) -> bool {
    a@ == b@
}

impl Backend {
    /// A backend with no active connections.
    pub fn new(id: &str, address: &str, weight: u32) -> (r: Self)
        ensures
            r.id@ == id@,
            r.address@ == address@,
            r.weight == weight,
            r.active_connections == 0,
    {
        Backend {
            id: String::from_str(id),
            address: String::from_str(address),
            weight,
            active_connections: 0,
        }
    }

    /// A copy of the backend.
    pub fn duplicate(&self) -> (r: Self)
        ensures
            same_backend(r, *self),
    {
        Backend {
            id: self.id.clone(),
            address: self.address.clone(),
            weight: self.weight,
            active_connections: self.active_connections,
        }
    }

    /// Counts one more active connection (wrapping around at 2^32).
    pub fn inc_connections(&mut self)
        ensures
            final(self).active_connections == (old(self).active_connections + 1) % 0x1_0000_0000,
            final(self).id == old(self).id,
            final(self).address == old(self).address,
            final(self).weight == old(self).weight,
    {
        self.active_connections = self.active_connections.wrapping_add(1);
    }

    /// Counts one active connection less (wrapping around at 0).
    pub fn dec_connections(&mut self)
        ensures
            final(self).active_connections == (old(self).active_connections + 0xFFFF_FFFF) % 0x1_0000_0000,
            final(self).id == old(self).id,
            final(self).address == old(self).address,
            final(self).weight == old(self).weight,
    {
        self.active_connections = self.active_connections.wrapping_sub(1);
    }

    /// The number of active connections.
    pub fn connections(&self) -> (r: u32)
        ensures
            r == self.active_connections,
    {
        self.active_connections
    }
}

/// `i` is the first position of a least value of `v`.
pub open spec fn first_min(v: Seq<u64>, i: int) -> bool {
    &&& 0 <= i < v.len()
    &&& forall|j: int| 0 <= j < v.len() ==> v[i] <= #[trigger] v[j]
    &&& forall|j: int| 0 <= j < i ==> v[i] < #[trigger] v[j]
}

/// The first position of a least value of a non-empty sequence.
pub fn first_min_index(v: &[u64]) -> (r: usize)
    requires
        v@.len() > 0,
    ensures
        first_min(v@, r as int),
{
    let n = v.len();
    let mut best: usize = 0;
    let mut i: usize = 1;
    while i < n
        invariant
            n == v@.len(),
            1 <= i <= n,
            best < i,
            forall|j: int| 0 <= j < i ==> v@[best as int] <= #[trigger] v@[j],
            forall|j: int| 0 <= j < best ==> v@[best as int] < #[trigger] v@[j],
        decreases n - i,
    {
        if v[i] < v[best] {
            best = i;
        }
        i = i + 1;
    }
    best
}

/// A sequence has one first least position: consistent hashing and least connections
/// choose the same backend every time they are asked with the same backends (and key).
pub proof fn lemma_first_min_unique(v: Seq<u64>, i: int, j: int)
    requires
        first_min(v, i),
        first_min(v, j),
    ensures
        i == j,
{
    if i < j {
        assert(v[j] < v[i]);
        assert(v[j] <= v[i] && v[i] <= v[j]);
    } else if j < i {
        assert(v[i] < v[j]);
    }
}

} // verus!
