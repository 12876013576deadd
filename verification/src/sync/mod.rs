//! State replication between nodes: conflict-free replicated data types,
//! delta and snapshot synchronisation, and conflict resolution.
pub mod pair_set;
pub mod crdt;
pub mod delta;
pub mod snapshot;
pub mod conflict;
