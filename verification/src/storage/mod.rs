//! Records kept by the storage layer.
use vstd::prelude::*;

pub mod codec;
pub mod merkle;
pub mod queue;

verus! {

/// Delivery guarantee of a message
#[derive(Debug, Clone, Copy, PartialEq, Eq, Structural)]
pub enum DeliveryGuarantee {
    AtMostOnce,
    AtLeastOnce,
    ExactlyOnce,
}

/// State of a message
#[derive(Debug, Clone, Copy, PartialEq, Eq, Structural)]
pub enum MessageState {
    Pending,
    Delivered,
    Acked,
    Failed,
}

/// A stored value with its version and the time it was written (seconds since the epoch).
#[derive(Debug)]
pub struct VersionedObject<T> {
    pub version: u64,
    pub data: T,
    pub timestamp: u64,
}

/// What is known of a replica: its node, the last log index it synchronised, and when it
/// was last seen (seconds since the epoch).
#[derive(Debug)]
pub struct ReplicaInfo {
    pub node_id: String,
    pub last_sync_index: u64,
    pub last_seen: u64,
}

} // verus!
