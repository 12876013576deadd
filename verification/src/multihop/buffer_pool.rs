//! A pool of reusable byte buffers for packets passing through the hop chain.
use vstd::prelude::*;

verus! {

/// A pool of empty buffers.
#[derive(Debug)]
pub struct BufferPool {
    /// The buffers ready for reuse, all empty.
    pub pool: Vec<Vec<u8>>,
    /// The most buffers the pool keeps.
    pub capacity: usize,
    /// The capacity of a freshly made buffer.
    pub buffer_size: usize,
}

impl BufferPool {
    /// Every pooled buffer is empty, and there are no more than `capacity` of them.
    pub open spec fn wf(&self) -> bool {
        &&& self.pool@.len() <= self.capacity
        &&& forall|i: int| 0 <= i < self.pool@.len() ==> (#[trigger] self.pool@[i])@.len() == 0
    }

    /// A pool filled with `capacity` empty buffers of `buffer_size` bytes of room.
    pub fn new(capacity: usize, buffer_size: usize) -> (r: Self)
        ensures
            r.wf(),
            r.pool@.len() == capacity,
            r.capacity == capacity,
            r.buffer_size == buffer_size,
    {
        let mut pool: Vec<Vec<u8>> = Vec::new();
        let mut i: usize = 0;
        while i < capacity
            invariant
                i <= capacity,
                pool@.len() == i,
                forall|j: int| 0 <= j < pool@.len() ==> (#[trigger] pool@[j])@.len() == 0,
            decreases capacity - i,
        {
            pool.push(Vec::with_capacity(buffer_size));
            i = i + 1;
        }
        BufferPool { pool, capacity, buffer_size }
    }

    /// An empty buffer with room for at least `min_size` bytes: the last pooled buffer,
    /// grown where it is smaller, or a new one of `max(min_size, buffer_size)` bytes.
    pub fn acquire(&mut self, min_size: usize) -> (r: Vec<u8>)
        requires
            old(self).wf(),
        ensures
            final(self).wf(),
            r@.len() == 0,
            final(self).capacity == old(self).capacity,
            final(self).buffer_size == old(self).buffer_size,
            old(self).pool@.len() > 0 ==> final(self).pool@ == old(self).pool@.drop_last(),
            old(self).pool@.len() == 0 ==> final(self).pool@ == old(self).pool@,
    {
        match self.pool.pop() {
            Some(mut buf) => {
                buf.clear();
                buf.reserve(min_size);
                buf
            },
            None => {
                let size = if min_size > self.buffer_size { min_size } else { self.buffer_size };
                Vec::with_capacity(size)
            },
        }
    }

    /// Gives a buffer back: it is kept, emptied, while the pool holds fewer than
    /// `capacity` buffers, and dropped otherwise.
    pub fn release(&mut self, buf: Vec<u8>)
        requires
            old(self).wf(),
        ensures
            final(self).wf(),
            final(self).capacity == old(self).capacity,
            final(self).buffer_size == old(self).buffer_size,
            old(self).pool@.len() < old(self).capacity ==> final(self).pool@.len() == old(self).pool@.len() + 1
                && final(self).pool@.subrange(0, old(self).pool@.len() as int) == old(self).pool@,
            old(self).pool@.len() >= old(self).capacity ==> final(self).pool@ == old(self).pool@,
    {
        if self.pool.len() < self.capacity {
            let mut buf = buf;
            buf.clear();
            let ghost before = self.pool@;
            self.pool.push(buf);
            assert(self.pool@.subrange(0, before.len() as int) =~= before);
        }
    }

    /// The number of pooled buffers.
    pub fn size(&self) -> (r: usize)
        ensures
            r == self.pool@.len(),
    {
        self.pool.len()
    }

    /// The most buffers the pool keeps.
    pub fn capacity(&self) -> (r: usize)
        ensures
            r == self.capacity,
    {
        self.capacity
    }
}

/// Taking a buffer from a pool and giving it back leaves the pool as large as it was.
pub proof fn lemma_acquire_release_size(p0: BufferPool, p1: BufferPool, p2: BufferPool)
    requires
        p0.wf(),
        p0.pool@.len() > 0,
        p1.capacity == p0.capacity,
        p1.pool@ == p0.pool@.drop_last(),
        p2.capacity == p1.capacity,
        p1.pool@.len() < p1.capacity ==> p2.pool@.len() == p1.pool@.len() + 1,
    ensures
        p2.pool@.len() == p0.pool@.len(),
{
}

} // verus!
