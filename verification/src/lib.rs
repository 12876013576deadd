pub mod address;
pub mod clock;
pub mod compression;
pub mod element;
pub mod http3;
pub mod keyed_map;
pub mod load_balancer;
pub mod mptcp;
pub mod otel;
pub mod multihop;
pub mod storage;
pub mod sync;
pub mod text;
pub mod transport;
