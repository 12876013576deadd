//! A pool of reusable packet buffers.
use vstd::prelude::*;

verus! {

/// The number of elements `v` can hold without reallocating (`Vec::capacity`).
/// Its documentation promises no less than the length; the exact value is up to the allocator.
#[verifier::external_body]
fn vec_capacity(v: &Vec<u8>) -> (r: usize)
    ensures
        r >= v@.len(),
{
    v.capacity()
}

/// Metrics of a pool.
#[derive(Debug, Clone, Copy, Default, PartialEq, Eq, Structural)]
pub struct PoolMetrics {
    /// Total number of buffers acquired
    pub total_acquired: u64,
    /// Total number of buffers released back to the pool
    pub total_released: u64,
    /// Total number of buffers allocated (not taken from the pool)
    pub total_allocated: u64,
    /// Current number of buffers in the pool
    pub current_pool_size: usize,
}

/// A pool of byte buffers for sending and receiving packets.
#[derive(Debug)]
pub struct PacketPool {
    /// Buffers ready for reuse, all empty
    pub pool: Vec<Vec<u8>>,
    /// Maximum number of buffers kept
    pub max_capacity: usize,
    /// Largest buffer capacity kept
    pub max_packet_size: usize,
    /// Metrics
    pub metrics: PoolMetrics,
}

impl PacketPool {
    /// Every pooled buffer is empty and the metrics count the pooled buffers.
    pub open spec fn wf(&self) -> bool {
        &&& self.metrics.current_pool_size == self.pool@.len()
        &&& forall|i: int| 0 <= i < self.pool@.len() ==> (#[trigger] self.pool@[i])@.len() == 0
    }

    /// An empty pool keeping up to `max_capacity` buffers of up to `max_packet_size` bytes.
    pub fn new(max_capacity: usize, max_packet_size: usize) -> (r: Self)
        ensures
            r.wf(),
            r.pool@.len() == 0,
            r.max_capacity == max_capacity,
            r.max_packet_size == max_packet_size,
            r.metrics == (PoolMetrics {
                total_acquired: 0,
                total_released: 0,
                total_allocated: 0,
                current_pool_size: 0,
            }),
    {
        PacketPool {
            pool: Vec::with_capacity(max_capacity),
            max_capacity,
            max_packet_size,
            metrics: PoolMetrics {
                total_acquired: 0,
                total_released: 0,
                total_allocated: 0,
                current_pool_size: 0,
            },
        }
    }

    /// An empty buffer: the last pooled one if there is one, else a new allocation.
    pub fn acquire(&mut self) -> (r: Vec<u8>)
        requires
            old(self).wf(),
            old(self).metrics.total_acquired < u64::MAX,
            old(self).metrics.total_allocated < u64::MAX,
        ensures
            final(self).wf(),
            r@.len() == 0,
            final(self).max_capacity == old(self).max_capacity,
            final(self).max_packet_size == old(self).max_packet_size,
            final(self).metrics.total_acquired == old(self).metrics.total_acquired + 1,
            final(self).metrics.total_released == old(self).metrics.total_released,
            old(self).pool@.len() > 0 ==> final(self).pool@ == old(self).pool@.drop_last()
                && final(self).metrics.current_pool_size == final(self).pool@.len()
                && final(self).metrics.total_allocated == old(self).metrics.total_allocated,
            old(self).pool@.len() == 0 ==> final(self).pool@ == old(self).pool@
                && final(self).metrics.current_pool_size == old(self).metrics.current_pool_size
                && final(self).metrics.total_allocated == old(self).metrics.total_allocated + 1,
    {
        self.metrics.total_acquired = self.metrics.total_acquired + 1;
        match self.pool.pop() {
            Some(mut buffer) => {
                buffer.clear();
                self.metrics.current_pool_size = self.pool.len();
                buffer
            },
            None => {
                self.metrics.total_allocated = self.metrics.total_allocated + 1;
                Vec::with_capacity(self.max_packet_size)
            },
        }
    }

    /// The pool after a buffer of capacity `cap` is released: it is kept, emptied, while the
    /// pool has room and the capacity is within the packet size; otherwise it is dropped.
    pub open spec fn keeps(self, cap: usize) -> bool {
        self.pool@.len() < self.max_capacity && cap <= self.max_packet_size
    }

    /// Gives a buffer back to the pool. It is kept, emptied, while the pool holds fewer than
    /// `max_capacity` buffers and its capacity is at most `max_packet_size`; otherwise it is
    /// dropped. The capacity is what the allocator gave the buffer (see
    /// `release_with_capacity` for the rule on a given capacity).
    pub fn release(&mut self, buffer: Vec<u8>)
        requires
            old(self).wf(),
            old(self).metrics.total_released < u64::MAX,
        ensures
            exists|cap: usize| cap >= buffer@.len() && #[trigger] old(self).released(*final(self), cap),
            old(self).pool@.len() >= old(self).max_capacity ==> final(self).pool@ == old(self).pool@,
    {
        let cap = vec_capacity(&buffer);
        self.release_with_capacity(buffer, cap);
    }

    /// What releasing a buffer of capacity `cap` makes of the pool: one more release counted;
    /// the buffer kept, emptied, at the end when `keeps(cap)`, else dropped.
    pub open spec fn released(self, after: PacketPool, cap: usize) -> bool {
        &&& after.wf()
        &&& after.max_capacity == self.max_capacity
        &&& after.max_packet_size == self.max_packet_size
        &&& after.metrics.total_released == self.metrics.total_released + 1
        &&& after.metrics.total_acquired == self.metrics.total_acquired
        &&& after.metrics.total_allocated == self.metrics.total_allocated
        &&& if self.keeps(cap) {
            &&& after.pool@.len() == self.pool@.len() + 1
            &&& after.pool@.subrange(0, self.pool@.len() as int) == self.pool@
            &&& after.pool@.last()@.len() == 0
            &&& after.metrics.current_pool_size == self.metrics.current_pool_size + 1
        } else {
            &&& after.pool@ == self.pool@
            &&& after.metrics.current_pool_size == self.metrics.current_pool_size
        }
    }

    /// Gives back `buffer`, whose capacity is `cap`: kept, emptied, while the pool holds
    /// fewer than `max_capacity` buffers and `cap` is at most `max_packet_size`; otherwise
    /// dropped.
    pub fn release_with_capacity(&mut self, buffer: Vec<u8>, cap: usize)
        requires
            old(self).wf(),
            old(self).metrics.total_released < u64::MAX,
            cap >= buffer@.len(),
        ensures
            old(self).released(*final(self), cap),
    {
        self.metrics.total_released = self.metrics.total_released + 1;
        let ghost before = self.pool@;
        if self.pool.len() < self.max_capacity && cap <= self.max_packet_size {
            let mut buffer = buffer;
            buffer.clear();
            self.pool.push(buffer);
            self.metrics.current_pool_size = self.pool.len();
            assert(self.pool@.subrange(0, before.len() as int) =~= before);
        }
    }

    /// The metrics.
    pub fn metrics(&self) -> (r: PoolMetrics)
        ensures
            r == self.metrics,
    {
        self.metrics
    }
}

/// A buffer released into a pool that keeps it is reused by the next acquisition: that
/// acquisition allocates nothing and takes the pool back to its size before the release.
pub proof fn lemma_release_then_acquire_reuses(p0: PacketPool, p1: PacketPool, p2: PacketPool)
    requires
        p1.pool@.len() == p0.pool@.len() + 1,
        p1.pool@.len() > 0 ==> p2.pool@ == p1.pool@.drop_last() && p2.metrics.total_allocated
            == p1.metrics.total_allocated,
    ensures
        p2.metrics.total_allocated == p1.metrics.total_allocated,
        p2.pool@.len() == p0.pool@.len(),
{
}

} // verus!
