//! Connection and server configuration, with builders that fill in defaults.
//! Durations are in milliseconds.
use vstd::prelude::*;
use crate::multihop::config::MultiHopConfig;
use crate::transport::ddos_protection::DdosConfig;

verus! {

/// Connection configuration
#[derive(Debug, Clone)]
pub struct ConnectionConfig {
    /// Session timeout in milliseconds
    pub session_timeout: u64,
    /// Heartbeat interval in milliseconds
    pub heartbeat_interval: u64,
    /// Number of missed heartbeats before timeout
    pub heartbeat_timeout_count: u32,
    /// Maximum concurrent streams per connection
    pub max_streams: u32,
    /// Per-connection message rate limit (messages/second)
    pub rate_limit_messages: u32,
    /// Per-connection byte rate limit (bytes/second)
    pub rate_limit_bytes: u64,
    /// Optional local address to bind to
    pub bind_addr: Option<String>,
    /// Memory pool capacity (number of buffers to keep)
    pub pool_capacity: usize,
    /// Maximum packet size for pooled buffers
    pub pool_max_packet_size: usize,
    /// Maximum number of ACKs to batch before sending
    pub ack_batch_size: usize,
    /// Maximum time to wait before sending batched ACKs (in milliseconds)
    pub ack_batch_timeout_ms: u64,
    /// Maximum time to wait for message coalescing (in milliseconds, 0 = disabled)
    pub coalescing_window_ms: u64,
    /// STUN servers for NAT discovery
    pub stun_servers: Vec<String>,
    /// STUN request timeout in milliseconds
    pub stun_timeout: u64,
    /// STUN cache lifetime in milliseconds
    pub stun_cache_ttl: u64,
    /// Enable header compression
    pub enable_header_compression: bool,
    /// Multi-hop tunnel configuration
    pub multihop_config: Option<MultiHopConfig>,
}

/// The default connection configuration.
pub open spec fn connection_defaults(r: ConnectionConfig) -> bool {
    &&& r.session_timeout == 30_000
    &&& r.heartbeat_interval == 5_000
    &&& r.heartbeat_timeout_count == 3
    &&& r.max_streams == 100
    &&& r.rate_limit_messages == 100
    &&& r.rate_limit_bytes == 1_048_576
    &&& r.bind_addr.is_none()
    &&& r.pool_capacity == 100
    &&& r.pool_max_packet_size == 65536
    &&& r.ack_batch_size == 10
    &&& r.ack_batch_timeout_ms == 10
    &&& r.coalescing_window_ms == 0
    &&& r.stun_servers@.len() == 0
    &&& r.stun_timeout == 5_000
    &&& r.stun_cache_ttl == 300_000
    &&& r.enable_header_compression == true
    &&& r.multihop_config.is_none()
}

impl Default for ConnectionConfig {
    fn default() -> (r: Self)
        ensures
            connection_defaults(r),
    {
        ConnectionConfig {
            session_timeout: 30_000,
            heartbeat_interval: 5_000,
            heartbeat_timeout_count: 3,
            max_streams: 100,
            rate_limit_messages: 100,
            rate_limit_bytes: 1_048_576,
            bind_addr: None,
            pool_capacity: 100,
            pool_max_packet_size: 65536,
            ack_batch_size: 10,
            ack_batch_timeout_ms: 10,
            coalescing_window_ms: 0,
            stun_servers: Vec::new(),
            stun_timeout: 5_000,
            stun_cache_ttl: 300_000,
            enable_header_compression: true,
            multihop_config: None,
        }
    }
}

impl ConnectionConfig {
    /// A builder with nothing set.
    pub fn builder() -> (r: ConnectionConfigBuilder)
        ensures
            r.nothing_set(),
    {
        ConnectionConfigBuilder::new()
    }
}

/// Builder for ConnectionConfig: each setting left unset takes its default.
#[derive(Debug)]
pub struct ConnectionConfigBuilder {
    pub session_timeout: Option<u64>,
    pub heartbeat_interval: Option<u64>,
    pub heartbeat_timeout_count: Option<u32>,
    pub max_streams: Option<u32>,
    pub rate_limit_messages: Option<u32>,
    pub rate_limit_bytes: Option<u64>,
    pub bind_addr: Option<String>,
    pub pool_capacity: Option<usize>,
    pub pool_max_packet_size: Option<usize>,
    pub ack_batch_size: Option<usize>,
    pub ack_batch_timeout_ms: Option<u64>,
    pub coalescing_window_ms: Option<u64>,
    pub stun_servers: Option<Vec<String>>,
    pub stun_timeout: Option<u64>,
    pub stun_cache_ttl: Option<u64>,
    pub enable_header_compression: Option<bool>,
    pub multihop_config: Option<Option<MultiHopConfig>>,
}

impl ConnectionConfigBuilder {
    /// No setting is set.
    pub open spec fn nothing_set(&self) -> bool {
        &&& self.session_timeout.is_none()
        &&& self.heartbeat_interval.is_none()
        &&& self.heartbeat_timeout_count.is_none()
        &&& self.max_streams.is_none()
        &&& self.rate_limit_messages.is_none()
        &&& self.rate_limit_bytes.is_none()
        &&& self.bind_addr.is_none()
        &&& self.pool_capacity.is_none()
        &&& self.pool_max_packet_size.is_none()
        &&& self.ack_batch_size.is_none()
        &&& self.ack_batch_timeout_ms.is_none()
        &&& self.coalescing_window_ms.is_none()
        &&& self.stun_servers.is_none()
        &&& self.stun_timeout.is_none()
        &&& self.stun_cache_ttl.is_none()
        &&& self.enable_header_compression.is_none()
        &&& self.multihop_config.is_none()
    }

    /// A builder with nothing set.
    pub fn new() -> (r: Self)
        ensures
            r.nothing_set(),
    {
        ConnectionConfigBuilder {
            session_timeout: None,
            heartbeat_interval: None,
            heartbeat_timeout_count: None,
            max_streams: None,
            rate_limit_messages: None,
            rate_limit_bytes: None,
            bind_addr: None,
            pool_capacity: None,
            pool_max_packet_size: None,
            ack_batch_size: None,
            ack_batch_timeout_ms: None,
            coalescing_window_ms: None,
            stun_servers: None,
            stun_timeout: None,
            stun_cache_ttl: None,
            enable_header_compression: None,
            multihop_config: None,
        }
    }

    /// Sets `session_timeout`.
    pub fn session_timeout(self, timeout: u64) -> (r: Self)
        ensures
            r == (ConnectionConfigBuilder { session_timeout: Some(timeout), ..self }),
    {
        let mut s = self;
        s.session_timeout = Some(timeout);
        s
    }

    /// Sets `heartbeat_interval`.
    pub fn heartbeat_interval(self, interval: u64) -> (r: Self)
        ensures
            r == (ConnectionConfigBuilder { heartbeat_interval: Some(interval), ..self }),
    {
        let mut s = self;
        s.heartbeat_interval = Some(interval);
        s
    }

    /// Sets `heartbeat_timeout_count`.
    pub fn heartbeat_timeout_count(self, count: u32) -> (r: Self)
        ensures
            r == (ConnectionConfigBuilder { heartbeat_timeout_count: Some(count), ..self }),
    {
        let mut s = self;
        s.heartbeat_timeout_count = Some(count);
        s
    }

    /// Sets `max_streams`.
    pub fn max_streams(self, max: u32) -> (r: Self)
        ensures
            r == (ConnectionConfigBuilder { max_streams: Some(max), ..self }),
    {
        let mut s = self;
        s.max_streams = Some(max);
        s
    }

    /// Sets `rate_limit_messages`.
    pub fn rate_limit_messages(self, limit: u32) -> (r: Self)
        ensures
            r == (ConnectionConfigBuilder { rate_limit_messages: Some(limit), ..self }),
    {
        let mut s = self;
        s.rate_limit_messages = Some(limit);
        s
    }

    /// Sets `rate_limit_bytes`.
    pub fn rate_limit_bytes(self, limit: u64) -> (r: Self)
        ensures
            r == (ConnectionConfigBuilder { rate_limit_bytes: Some(limit), ..self }),
    {
        let mut s = self;
        s.rate_limit_bytes = Some(limit);
        s
    }

    /// Sets `bind_addr`.
    pub fn bind_addr(self, addr: String) -> (r: Self)
        ensures
            r == (ConnectionConfigBuilder { bind_addr: Some(addr), ..self }),
    {
        let mut s = self;
        s.bind_addr = Some(addr);
        s
    }

    /// Sets `pool_capacity`.
    pub fn pool_capacity(self, capacity: usize) -> (r: Self)
        ensures
            r == (ConnectionConfigBuilder { pool_capacity: Some(capacity), ..self }),
    {
        let mut s = self;
        s.pool_capacity = Some(capacity);
        s
    }

    /// Sets `pool_max_packet_size`.
    pub fn pool_max_packet_size(self, size: usize) -> (r: Self)
        ensures
            r == (ConnectionConfigBuilder { pool_max_packet_size: Some(size), ..self }),
    {
        let mut s = self;
        s.pool_max_packet_size = Some(size);
        s
    }

    /// Sets `ack_batch_size`.
    pub fn ack_batch_size(self, size: usize) -> (r: Self)
        ensures
            r == (ConnectionConfigBuilder { ack_batch_size: Some(size), ..self }),
    {
        let mut s = self;
        s.ack_batch_size = Some(size);
        s
    }

    /// Sets `ack_batch_timeout_ms`.
    pub fn ack_batch_timeout_ms(self, timeout_ms: u64) -> (r: Self)
        ensures
            r == (ConnectionConfigBuilder { ack_batch_timeout_ms: Some(timeout_ms), ..self }),
    {
        let mut s = self;
        s.ack_batch_timeout_ms = Some(timeout_ms);
        s
    }

    /// Sets `coalescing_window_ms`.
    pub fn coalescing_window_ms(self, window_ms: u64) -> (r: Self)
        ensures
            r == (ConnectionConfigBuilder { coalescing_window_ms: Some(window_ms), ..self }),
    {
        let mut s = self;
        s.coalescing_window_ms = Some(window_ms);
        s
    }

    /// Sets `stun_servers`.
    pub fn stun_servers(self, servers: Vec<String>) -> (r: Self)
        ensures
            r == (ConnectionConfigBuilder { stun_servers: Some(servers), ..self }),
    {
        let mut s = self;
        s.stun_servers = Some(servers);
        s
    }

    /// Sets `stun_timeout`.
    pub fn stun_timeout(self, timeout: u64) -> (r: Self)
        ensures
            r == (ConnectionConfigBuilder { stun_timeout: Some(timeout), ..self }),
    {
        let mut s = self;
        s.stun_timeout = Some(timeout);
        s
    }

    /// Sets `stun_cache_ttl`.
    pub fn stun_cache_ttl(self, ttl: u64) -> (r: Self)
        ensures
            r == (ConnectionConfigBuilder { stun_cache_ttl: Some(ttl), ..self }),
    {
        let mut s = self;
        s.stun_cache_ttl = Some(ttl);
        s
    }

    /// Sets `enable_header_compression`.
    pub fn enable_header_compression(self, enable: bool) -> (r: Self)
        ensures
            r == (ConnectionConfigBuilder { enable_header_compression: Some(enable), ..self }),
    {
        let mut s = self;
        s.enable_header_compression = Some(enable);
        s
    }

    /// Sets `multihop_config`.
    pub fn multihop_config(self, config: Option<MultiHopConfig>) -> (r: Self)
        ensures
            r == (ConnectionConfigBuilder { multihop_config: Some(config), ..self }),
    {
        let mut s = self;
        s.multihop_config = Some(config);
        s
    }

    /// The configuration: each setting as set, or its default.
    pub fn build(self) -> (r: ConnectionConfig)
        ensures
            r.session_timeout == match self.session_timeout { Some(v) => v, None => 30_000 },
            r.heartbeat_interval == match self.heartbeat_interval { Some(v) => v, None => 5_000 },
            r.heartbeat_timeout_count == match self.heartbeat_timeout_count { Some(v) => v, None => 3 },
            r.max_streams == match self.max_streams { Some(v) => v, None => 100 },
            r.rate_limit_messages == match self.rate_limit_messages { Some(v) => v, None => 100 },
            r.rate_limit_bytes == match self.rate_limit_bytes { Some(v) => v, None => 1_048_576 },
            r.bind_addr == self.bind_addr,
            r.pool_capacity == match self.pool_capacity { Some(v) => v, None => 100 },
            r.pool_max_packet_size == match self.pool_max_packet_size { Some(v) => v, None => 65536 },
            r.ack_batch_size == match self.ack_batch_size { Some(v) => v, None => 10 },
            r.ack_batch_timeout_ms == match self.ack_batch_timeout_ms { Some(v) => v, None => 10 },
            r.coalescing_window_ms == match self.coalescing_window_ms { Some(v) => v, None => 0 },
            r.stun_servers@ == match self.stun_servers { Some(v) => v@, None => Seq::<String>::empty() },
            r.stun_timeout == match self.stun_timeout { Some(v) => v, None => 5_000 },
            r.stun_cache_ttl == match self.stun_cache_ttl { Some(v) => v, None => 300_000 },
            r.enable_header_compression == match self.enable_header_compression { Some(v) => v, None => true },
            r.multihop_config == match self.multihop_config { Some(c) => c, None => None },
    {
        let default = ConnectionConfig::default();
        ConnectionConfig {
            session_timeout: match self.session_timeout { Some(v) => v, None => default.session_timeout },
            heartbeat_interval: match self.heartbeat_interval { Some(v) => v, None => default.heartbeat_interval },
            heartbeat_timeout_count: match self.heartbeat_timeout_count { Some(v) => v, None => default.heartbeat_timeout_count },
            max_streams: match self.max_streams { Some(v) => v, None => default.max_streams },
            rate_limit_messages: match self.rate_limit_messages { Some(v) => v, None => default.rate_limit_messages },
            rate_limit_bytes: match self.rate_limit_bytes { Some(v) => v, None => default.rate_limit_bytes },
            bind_addr: match self.bind_addr { Some(a) => Some(a), None => default.bind_addr },
            pool_capacity: match self.pool_capacity { Some(v) => v, None => default.pool_capacity },
            pool_max_packet_size: match self.pool_max_packet_size { Some(v) => v, None => default.pool_max_packet_size },
            ack_batch_size: match self.ack_batch_size { Some(v) => v, None => default.ack_batch_size },
            ack_batch_timeout_ms: match self.ack_batch_timeout_ms { Some(v) => v, None => default.ack_batch_timeout_ms },
            coalescing_window_ms: match self.coalescing_window_ms { Some(v) => v, None => default.coalescing_window_ms },
            stun_servers: match self.stun_servers { Some(v) => v, None => default.stun_servers },
            stun_timeout: match self.stun_timeout { Some(v) => v, None => default.stun_timeout },
            stun_cache_ttl: match self.stun_cache_ttl { Some(v) => v, None => default.stun_cache_ttl },
            enable_header_compression: match self.enable_header_compression { Some(v) => v, None => default.enable_header_compression },
            multihop_config: match self.multihop_config { Some(v) => v, None => default.multihop_config },
        }
    }
}

/// Server configuration
#[derive(Debug, Clone)]
pub struct ServerConfig {
    /// Connection configuration (applies to all connections)
    pub connection: ConnectionConfig,
    /// Global server-wide message rate limit
    pub global_rate_limit_messages: Option<u32>,
    /// Global server-wide byte rate limit
    pub global_rate_limit_bytes: Option<u64>,
    /// DDoS protection configuration
    pub ddos_config: DdosConfig,
    /// Session cleanup interval in milliseconds
    pub cleanup_interval: u64,
}

/// The default server configuration.
pub open spec fn server_defaults(r: ServerConfig) -> bool {
    &&& connection_defaults(r.connection)
    &&& r.global_rate_limit_messages == Some(10_000u32)
    &&& r.global_rate_limit_bytes == Some(100_000_000u64)
    &&& r.ddos_config == DdosConfig::spec_default()
    &&& r.cleanup_interval == 10_000
}

impl Default for ServerConfig {
    fn default() -> (r: Self)
        ensures
            server_defaults(r),
    {
        ServerConfig {
            connection: ConnectionConfig::default(),
            global_rate_limit_messages: Some(10_000),
            global_rate_limit_bytes: Some(100_000_000),
            ddos_config: DdosConfig::default(),
            cleanup_interval: 10_000,
        }
    }
}

impl ServerConfig {
    /// A builder with nothing set.
    pub fn builder() -> (r: ServerConfigBuilder)
        ensures
            r.nothing_set(),
    {
        ServerConfigBuilder::new()
    }
}

/// Builder for ServerConfig: each setting left unset takes its default.
#[derive(Debug)]
pub struct ServerConfigBuilder {
    pub connection: Option<ConnectionConfig>,
    pub global_rate_limit_messages: Option<Option<u32>>,
    pub global_rate_limit_bytes: Option<Option<u64>>,
    pub ddos_config: Option<DdosConfig>,
    pub cleanup_interval: Option<u64>,
}

impl ServerConfigBuilder {
    /// No setting is set.
    pub open spec fn nothing_set(&self) -> bool {
        &&& self.connection.is_none()
        &&& self.global_rate_limit_messages.is_none()
        &&& self.global_rate_limit_bytes.is_none()
        &&& self.ddos_config.is_none()
        &&& self.cleanup_interval.is_none()
    }

    /// A builder with nothing set.
    pub fn new() -> (r: Self)
        ensures
            r.nothing_set(),
    {
        ServerConfigBuilder {
            connection: None,
            global_rate_limit_messages: None,
            global_rate_limit_bytes: None,
            ddos_config: None,
            cleanup_interval: None,
        }
    }

    /// Sets `connection`.
    pub fn connection(self, config: ConnectionConfig) -> (r: Self)
        ensures
            r == (ServerConfigBuilder { connection: Some(config), ..self }),
    {
        let mut s = self;
        s.connection = Some(config);
        s
    }

    /// Sets `global_rate_limit_messages`.
    pub fn global_rate_limit_messages(self, limit: Option<u32>) -> (r: Self)
        ensures
            r == (ServerConfigBuilder { global_rate_limit_messages: Some(limit), ..self }),
    {
        let mut s = self;
        s.global_rate_limit_messages = Some(limit);
        s
    }

    /// Sets `global_rate_limit_bytes`.
    pub fn global_rate_limit_bytes(self, limit: Option<u64>) -> (r: Self)
        ensures
            r == (ServerConfigBuilder { global_rate_limit_bytes: Some(limit), ..self }),
    {
        let mut s = self;
        s.global_rate_limit_bytes = Some(limit);
        s
    }

    /// Sets `ddos_config`.
    pub fn ddos_config(self, config: DdosConfig) -> (r: Self)
        ensures
            r == (ServerConfigBuilder { ddos_config: Some(config), ..self }),
    {
        let mut s = self;
        s.ddos_config = Some(config);
        s
    }

    /// Sets `cleanup_interval`.
    pub fn cleanup_interval(self, interval: u64) -> (r: Self)
        ensures
            r == (ServerConfigBuilder { cleanup_interval: Some(interval), ..self }),
    {
        let mut s = self;
        s.cleanup_interval = Some(interval);
        s
    }

    /// The configuration: each setting as set, or its default.
    pub fn build(self) -> (r: ServerConfig)
        ensures
            match self.connection { Some(c) => r.connection == c, None => connection_defaults(r.connection) },
            r.global_rate_limit_messages == match self.global_rate_limit_messages { Some(v) => v, None => Some(10_000u32) },
            r.global_rate_limit_bytes == match self.global_rate_limit_bytes { Some(v) => v, None => Some(100_000_000u64) },
            r.ddos_config == match self.ddos_config { Some(v) => v, None => DdosConfig::spec_default() },
            r.cleanup_interval == match self.cleanup_interval { Some(v) => v, None => 10_000 },
    {
        let default = ServerConfig::default();
        ServerConfig {
            connection: match self.connection { Some(v) => v, None => default.connection },
            global_rate_limit_messages: match self.global_rate_limit_messages { Some(v) => v, None => default.global_rate_limit_messages },
            global_rate_limit_bytes: match self.global_rate_limit_bytes { Some(v) => v, None => default.global_rate_limit_bytes },
            ddos_config: match self.ddos_config { Some(v) => v, None => default.ddos_config },
            cleanup_interval: match self.cleanup_interval { Some(v) => v, None => default.cleanup_interval },
        }
    }
}

} // verus!
