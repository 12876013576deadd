//! Transport-level logic: congestion and flow control, failure handling,
//! configuration, protocol negotiation and the HTTP/3 layer.
pub mod circuit_breaker;
pub mod congestion;
pub mod fallback_detector;
pub mod mtu_discovery;
pub mod metrics;
pub mod memory_pool;
pub mod negotiation;
pub mod ddos_protection;
pub mod config;
pub mod heartbeat;
pub mod network_status;
pub mod bbr;
pub mod ice;
pub mod ip_blacklist;
