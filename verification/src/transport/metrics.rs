//! Counters of a connection or a server. Counters wrap around at 2^64, as the
//! atomic counters of a shared metrics record do.
use vstd::prelude::*;

verus! {

/// Adds `n` to a counter, wrapping around at 2^64.
pub open spec fn bump(c: u64, n: u64) -> u64 {
    ((c + n) % 0x1_0000_0000_0000_0000) as u64
}

/// Metrics of a connection or a server.
#[derive(Debug, Default, Clone, Copy, PartialEq, Eq, Structural)]
pub struct Metrics {
    pub packets_sent: u64,
    pub packets_received: u64,
    pub bytes_sent: u64,
    pub bytes_received: u64,
    pub packets_lost: u64,
    pub packets_retransmitted: u64,
    pub duplicate_packets_received: u64,
    /// Current round-trip time in milliseconds
    pub rtt_ms: u64,
    /// Current congestion window in bytes
    pub congestion_window: u64,
    pub connection_errors: u64,
    pub timeouts: u64,
    pub circuit_breaker_trips: u64,
}

/// A snapshot of metrics values
#[derive(Debug, Clone, Copy, PartialEq, Eq, Structural)]
pub struct MetricsSnapshot {
    pub packets_sent: u64,
    pub packets_received: u64,
    pub bytes_sent: u64,
    pub bytes_received: u64,
    pub packets_lost: u64,
    pub packets_retransmitted: u64,
    pub duplicate_packets_received: u64,
    pub rtt_ms: u64,
    pub congestion_window: u64,
    pub connection_errors: u64,
    pub timeouts: u64,
    pub circuit_breaker_trips: u64,
}

impl Metrics {
    /// All counters at zero.
    pub fn new() -> (r: Self)
        ensures
            r == (Metrics {
                packets_sent: 0,
                packets_received: 0,
                bytes_sent: 0,
                bytes_received: 0,
                packets_lost: 0,
                packets_retransmitted: 0,
                duplicate_packets_received: 0,
                rtt_ms: 0,
                congestion_window: 0,
                connection_errors: 0,
                timeouts: 0,
                circuit_breaker_trips: 0,
            }),
    {
        Metrics {
            packets_sent: 0,
            packets_received: 0,
            bytes_sent: 0,
            bytes_received: 0,
            packets_lost: 0,
            packets_retransmitted: 0,
            duplicate_packets_received: 0,
            rtt_ms: 0,
            congestion_window: 0,
            connection_errors: 0,
            timeouts: 0,
            circuit_breaker_trips: 0,
        }
    }

    /// Counts a sent packet of `size` bytes.
    pub fn record_packet_sent(&mut self, size: usize)
        ensures
            *final(self) == (Metrics {
                packets_sent: bump(old(self).packets_sent, 1),
                bytes_sent: bump(old(self).bytes_sent, size as u64),
                ..*old(self)
            }),
    {
        self.packets_sent = self.packets_sent.wrapping_add(1);
        self.bytes_sent = self.bytes_sent.wrapping_add(size as u64);
    }

    /// Counts a received packet of `size` bytes.
    pub fn record_packet_received(&mut self, size: usize)
        ensures
            *final(self) == (Metrics {
                packets_received: bump(old(self).packets_received, 1),
                bytes_received: bump(old(self).bytes_received, size as u64),
                ..*old(self)
            }),
    {
        self.packets_received = self.packets_received.wrapping_add(1);
        self.bytes_received = self.bytes_received.wrapping_add(size as u64);
    }

    /// Counts a retransmission of `size` bytes; its bytes count as sent.
    pub fn record_retransmit(&mut self, size: usize)
        ensures
            *final(self) == (Metrics {
                packets_retransmitted: bump(old(self).packets_retransmitted, 1),
                bytes_sent: bump(old(self).bytes_sent, size as u64),
                ..*old(self)
            }),
    {
        self.packets_retransmitted = self.packets_retransmitted.wrapping_add(1);
        self.bytes_sent = self.bytes_sent.wrapping_add(size as u64);
    }

    /// Counts a lost packet.
    pub fn record_loss(&mut self)
        ensures
            *final(self) == (Metrics { packets_lost: bump(old(self).packets_lost, 1), ..*old(self) }),
    {
        self.packets_lost = self.packets_lost.wrapping_add(1);
    }

    /// Counts a duplicate packet.
    pub fn record_duplicate(&mut self)
        ensures
            *final(self) == (Metrics {
                duplicate_packets_received: bump(old(self).duplicate_packets_received, 1),
                ..*old(self)
            }),
    {
        self.duplicate_packets_received = self.duplicate_packets_received.wrapping_add(1);
    }

    /// Sets the round-trip time.
    pub fn update_rtt(&mut self, rtt_ms: u64)
        ensures
            *final(self) == (Metrics { rtt_ms, ..*old(self) }),
    {
        self.rtt_ms = rtt_ms;
    }

    /// Sets the congestion window.
    pub fn update_cwnd(&mut self, cwnd: u64)
        ensures
            *final(self) == (Metrics { congestion_window: cwnd, ..*old(self) }),
    {
        self.congestion_window = cwnd;
    }

    /// Counts a connection error.
    pub fn record_error(&mut self)
        ensures
            *final(self) == (Metrics {
                connection_errors: bump(old(self).connection_errors, 1),
                ..*old(self)
            }),
    {
        self.connection_errors = self.connection_errors.wrapping_add(1);
    }

    /// Counts a timeout.
    pub fn record_timeout(&mut self)
        ensures
            *final(self) == (Metrics { timeouts: bump(old(self).timeouts, 1), ..*old(self) }),
    {
        self.timeouts = self.timeouts.wrapping_add(1);
    }

    /// Counts a trip of the circuit breaker.
    pub fn record_circuit_breaker_trip(&mut self)
        ensures
            *final(self) == (Metrics {
                circuit_breaker_trips: bump(old(self).circuit_breaker_trips, 1),
                ..*old(self)
            }),
    {
        self.circuit_breaker_trips = self.circuit_breaker_trips.wrapping_add(1);
    }

    /// The round-trip time in milliseconds.
    pub fn get_avg_rtt(&self) -> (r: u64)
        ensures
            r == self.rtt_ms,
    {
        self.rtt_ms
    }

    /// A copy of every counter.
    pub fn snapshot(&self) -> (r: MetricsSnapshot)
        ensures
            r == (MetricsSnapshot {
                packets_sent: self.packets_sent,
                packets_received: self.packets_received,
                bytes_sent: self.bytes_sent,
                bytes_received: self.bytes_received,
                packets_lost: self.packets_lost,
                packets_retransmitted: self.packets_retransmitted,
                duplicate_packets_received: self.duplicate_packets_received,
                rtt_ms: self.rtt_ms,
                congestion_window: self.congestion_window,
                connection_errors: self.connection_errors,
                timeouts: self.timeouts,
                circuit_breaker_trips: self.circuit_breaker_trips,
            }),
    {
        MetricsSnapshot {
            packets_sent: self.packets_sent,
            packets_received: self.packets_received,
            bytes_sent: self.bytes_sent,
            bytes_received: self.bytes_received,
            packets_lost: self.packets_lost,
            packets_retransmitted: self.packets_retransmitted,
            duplicate_packets_received: self.duplicate_packets_received,
            rtt_ms: self.rtt_ms,
            congestion_window: self.congestion_window,
            connection_errors: self.connection_errors,
            timeouts: self.timeouts,
            circuit_breaker_trips: self.circuit_breaker_trips,
        }
    }
}

} // verus!
