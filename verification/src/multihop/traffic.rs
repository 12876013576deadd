//! The traffic counters of a hop: bytes and packets each way.
use vstd::prelude::*;

verus! {

/// `a + b` wrapping around at 2^64, as an atomic counter's `fetch_add` does.
pub open spec fn wrapping_sum(a: u64, b: u64) -> u64 {
    ((a + b) % 0x1_0000_0000_0000_0000) as u64
}

/// Bytes and packets sent and received through a hop.
#[derive(Debug, Clone, Copy, PartialEq, Eq, Structural)]
pub struct TrafficCounters {
    pub bytes_sent: u64,
    pub bytes_received: u64,
    pub packets_sent: u64,
    pub packets_received: u64,
}

impl TrafficCounters {
    /// All counters at zero.
    pub fn new() -> (r: Self)
        ensures
            r == (TrafficCounters { bytes_sent: 0, bytes_received: 0, packets_sent: 0, packets_received: 0 }),
    {
        TrafficCounters { bytes_sent: 0, bytes_received: 0, packets_sent: 0, packets_received: 0 }
    }

    /// Counts a packet of `bytes` bytes sent (each counter wrapping around at 2^64).
    pub fn record_sent(&mut self, bytes: u64)
        ensures
            *final(self) == (TrafficCounters {
                bytes_sent: wrapping_sum(old(self).bytes_sent, bytes),
                packets_sent: wrapping_sum(old(self).packets_sent, 1),
                ..*old(self)
            }),
    {
        self.bytes_sent = self.bytes_sent.wrapping_add(bytes);
        self.packets_sent = self.packets_sent.wrapping_add(1);
    }

    /// Counts a packet of `bytes` bytes received (each counter wrapping around at 2^64).
    pub fn record_received(&mut self, bytes: u64)
        ensures
            *final(self) == (TrafficCounters {
                bytes_received: wrapping_sum(old(self).bytes_received, bytes),
                packets_received: wrapping_sum(old(self).packets_received, 1),
                ..*old(self)
            }),
    {
        self.bytes_received = self.bytes_received.wrapping_add(bytes);
        self.packets_received = self.packets_received.wrapping_add(1);
    }

    /// All counters back to zero.
    pub fn reset(&mut self)
        ensures
            *final(self) == (TrafficCounters { bytes_sent: 0, bytes_received: 0, packets_sent: 0, packets_received: 0 }),
    {
        *self = TrafficCounters::new();
    }
}

} // verus!
