//! Configuration of a multi-hop tunnel chain and its validation.
//!
//! Whether an endpoint text is a socket address is decided by the standard library's
//! address parser, which the caller runs; the validation takes its answer.
use vstd::prelude::*;
use crate::element::str_equal;
use crate::multihop::{MultiHopError, error_text};
use crate::text::{concat, decimal, decimal_string};

verus! {

/// WireGuard hop configuration
#[derive(Debug, Clone)]
pub struct WireGuardConfig {
    /// Remote endpoint address
    pub endpoint: String,
    /// Private key (base64 encoded)
    pub private_key: String,
    /// Peer public key (base64 encoded)
    pub peer_public_key: String,
    /// Allowed IPs (CIDR notation)
    pub allowed_ips: Vec<String>,
    /// Persistent keepalive interval (seconds, 0 = disabled)
    pub persistent_keepalive: u16,
    /// Local listen port (0 = auto)
    pub listen_port: u16,
}

/// Shadowsocks hop configuration
#[derive(Debug, Clone)]
pub struct ShadowsocksConfig {
    /// Remote endpoint address
    pub endpoint: String,
    /// Password
    pub password: String,
    /// Encryption method
    pub method: String,
    /// Obfuscation plugin (none, tls, http)
    pub obfs: String,
    /// Enable UDP relay
    pub udp_relay: bool,
    /// Local listen port (0 = auto)
    pub local_port: u16,
}

/// XRay hop configuration
#[derive(Debug, Clone)]
pub struct XRayConfig {
    /// Remote endpoint address
    pub endpoint: String,
    /// Server name (SNI)
    pub server_name: String,
    /// UUID for VLESS
    pub uuid: String,
    /// Enable TLS
    pub tls: bool,
    /// Use WebSocket transport
    pub websocket: bool,
    /// WebSocket path (if websocket = true)
    pub ws_path: String,
    /// Local listen port (0 = auto)
    pub local_port: u16,
}

/// Individual hop configuration
#[derive(Debug, Clone)]
pub enum HopConfig {
    /// WireGuard hop (entry or exit)
    WireGuard(WireGuardConfig),
    /// Shadowsocks hop with obfuscation
    Shadowsocks(ShadowsocksConfig),
    /// XRay VLESS/TLS hop
    XRay(XRayConfig),
    /// WireGuard exit node
    WireGuardExit(WireGuardConfig),
}

/// Top-level multi-hop configuration
#[derive(Debug, Clone)]
pub struct MultiHopConfig {
    /// Enable multi-hop tunneling
    pub enabled: bool,
    /// Chain of hops to establish
    pub chain: Vec<HopConfig>,
    /// Connection timeout for each hop (seconds)
    pub hop_timeout_secs: u64,
    /// Enable automatic failover
    pub auto_failover: bool,
    /// Health check interval (seconds)
    pub health_check_interval_secs: u64,
}

/// The encryption methods a Shadowsocks hop accepts.
pub open spec fn valid_ss_method(m: Seq<char>) -> bool {
    m == "aes-256-gcm"@ || m == "aes-128-gcm"@ || m == "chacha20-ietf-poly1305"@ || m
        == "xchacha20-ietf-poly1305"@
}

/// The obfuscation plugins a Shadowsocks hop accepts.
pub open spec fn valid_obfs(o: Seq<char>) -> bool {
    o == "none"@ || o == "tls"@ || o == "http"@
}

/// The outcome of validating a WireGuard hop whose endpoint does or does not parse as a
/// socket address: the message of the first failed check.
pub open spec fn wireguard_check(c: WireGuardConfig, endpoint_ok: bool) -> Option<Seq<char>> {
    if !endpoint_ok {
        Some("Invalid WireGuard endpoint: "@ + c.endpoint@)
    } else if c.private_key@.len() == 0 {
        Some("WireGuard private_key cannot be empty"@)
    } else if c.peer_public_key@.len() == 0 {
        Some("WireGuard peer_public_key cannot be empty"@)
    } else {
        None
    }
}

/// The outcome of validating a Shadowsocks hop.
pub open spec fn shadowsocks_check(c: ShadowsocksConfig, endpoint_ok: bool) -> Option<Seq<char>> {
    if !endpoint_ok {
        Some("Invalid Shadowsocks endpoint: "@ + c.endpoint@)
    } else if c.password@.len() == 0 {
        Some("Shadowsocks password cannot be empty"@)
    } else if !valid_ss_method(c.method@) {
        Some("Invalid Shadowsocks method: "@ + c.method@)
    } else if !valid_obfs(c.obfs@) {
        Some("Invalid obfs plugin: "@ + c.obfs@)
    } else {
        None
    }
}

/// The outcome of validating an XRay hop.
pub open spec fn xray_check(c: XRayConfig, endpoint_ok: bool) -> Option<Seq<char>> {
    if !endpoint_ok {
        Some("Invalid XRay endpoint: "@ + c.endpoint@)
    } else if c.uuid@.len() == 0 {
        Some("XRay UUID cannot be empty"@)
    } else if c.server_name@.len() == 0 {
        Some("XRay server_name cannot be empty"@)
    } else {
        None
    }
}

/// The outcome of validating a hop.
pub open spec fn hop_check(h: HopConfig, endpoint_ok: bool) -> Option<Seq<char>> {
    match h {
        HopConfig::WireGuard(c) => wireguard_check(c, endpoint_ok),
        HopConfig::WireGuardExit(c) => wireguard_check(c, endpoint_ok),
        HopConfig::Shadowsocks(c) => shadowsocks_check(c, endpoint_ok),
        HopConfig::XRay(c) => xray_check(c, endpoint_ok),
    }
}

/// The message of a hop that failed validation, as the chain reports it.
pub open spec fn hop_failure_text(idx: nat, msg: Seq<char>) -> Seq<char> {
    "Hop "@ + decimal(idx) + " validation failed: "@ + "Configuration error: "@ + msg
}

/// The first hop among the first `n` that fails validation, with its message.
pub open spec fn first_failing_hop(chain: Seq<HopConfig>, endpoints_ok: Seq<bool>, n: int) -> Option<(nat, Seq<char>)>
    decreases n,
{
    if n <= 0 {
        None
    } else {
        match first_failing_hop(chain, endpoints_ok, n - 1) {
            Some(found) => Some(found),
            None => match hop_check(chain[n - 1], endpoints_ok[n - 1]) {
                Some(m) => Some(((n - 1) as nat, m)),
                None => None,
            },
        }
    }
}

/// The outcome of validating a chain: the error message, if any.
pub open spec fn chain_check(c: MultiHopConfig, endpoints_ok: Seq<bool>) -> Option<Seq<char>> {
    if c.enabled && c.chain@.len() == 0 {
        Some("Multi-hop enabled but no hops configured"@)
    } else {
        match first_failing_hop(c.chain@, endpoints_ok, c.chain@.len() as int) {
            Some((idx, m)) => Some(hop_failure_text(idx, m)),
            None => None,
        }
    }
}

/// A validation outcome as a result: `Ok` or a configuration error with the message.
pub open spec fn as_result(check: Option<Seq<char>>, r: Result<(), MultiHopError>) -> bool {
    match check {
        None => r is Ok,
        Some(m) => r matches Err(MultiHopError::Config(s)) && s@ == m,
    }
}

fn config_error(m: &str) -> (r: Result<(), MultiHopError>)
    ensures
        r matches Err(MultiHopError::Config(s)) && s@ == m@,
{
    Err(MultiHopError::Config(String::from_str(m)))
}

impl WireGuardConfig {
    /// Checks the hop, given whether its endpoint parses as a socket address.
    pub fn validate(&self, endpoint_ok: bool) -> (r: Result<(), MultiHopError>)
        ensures
            as_result(wireguard_check(*self, endpoint_ok), r),
    {
        if !endpoint_ok {
            return Err(MultiHopError::Config(concat("Invalid WireGuard endpoint: ", self.endpoint.as_str())));
        }
        if self.private_key.as_str().unicode_len() == 0 {
            return config_error("WireGuard private_key cannot be empty");
        }
        if self.peer_public_key.as_str().unicode_len() == 0 {
            return config_error("WireGuard peer_public_key cannot be empty");
        }
        Ok(())
    }
}

impl ShadowsocksConfig {
    /// Checks the hop, given whether its endpoint parses as a socket address.
    pub fn validate(&self, endpoint_ok: bool) -> (r: Result<(), MultiHopError>)
        ensures
            as_result(shadowsocks_check(*self, endpoint_ok), r),
    {
        if !endpoint_ok {
            return Err(MultiHopError::Config(concat("Invalid Shadowsocks endpoint: ", self.endpoint.as_str())));
        }
        if self.password.as_str().unicode_len() == 0 {
            return config_error("Shadowsocks password cannot be empty");
        }
        let m = self.method.as_str();
        proof {
            reveal_strlit("aes-256-gcm");
            reveal_strlit("aes-128-gcm");
            reveal_strlit("chacha20-ietf-poly1305");
            reveal_strlit("xchacha20-ietf-poly1305");
        }
        let method_ok = str_equal(m, "aes-256-gcm") || str_equal(m, "aes-128-gcm") || str_equal(
            m,
            "chacha20-ietf-poly1305",
        ) || str_equal(m, "xchacha20-ietf-poly1305");
        if !method_ok {
            return Err(MultiHopError::Config(concat("Invalid Shadowsocks method: ", m)));
        }
        let o = self.obfs.as_str();
        let obfs_ok = str_equal(o, "none") || str_equal(o, "tls") || str_equal(o, "http");
        if !obfs_ok {
            return Err(MultiHopError::Config(concat("Invalid obfs plugin: ", o)));
        }
        Ok(())
    }
}

impl XRayConfig {
    /// Checks the hop, given whether its endpoint parses as a socket address.
    pub fn validate(&self, endpoint_ok: bool) -> (r: Result<(), MultiHopError>)
        ensures
            as_result(xray_check(*self, endpoint_ok), r),
    {
        if !endpoint_ok {
            return Err(MultiHopError::Config(concat("Invalid XRay endpoint: ", self.endpoint.as_str())));
        }
        if self.uuid.as_str().unicode_len() == 0 {
            return config_error("XRay UUID cannot be empty");
        }
        if self.server_name.as_str().unicode_len() == 0 {
            return config_error("XRay server_name cannot be empty");
        }
        Ok(())
    }
}

impl HopConfig {
    /// Checks the hop, given whether its endpoint parses as a socket address.
    pub fn validate(&self, endpoint_ok: bool) -> (r: Result<(), MultiHopError>)
        ensures
            as_result(hop_check(*self, endpoint_ok), r),
    {
        match self {
            HopConfig::WireGuard(cfg) => cfg.validate(endpoint_ok),
            HopConfig::WireGuardExit(cfg) => cfg.validate(endpoint_ok),
            HopConfig::Shadowsocks(cfg) => cfg.validate(endpoint_ok),
            HopConfig::XRay(cfg) => cfg.validate(endpoint_ok),
        }
    }

    /// The endpoint of the hop.
    pub fn endpoint(&self) -> (r: &String)
        ensures
            r == match *self {
                HopConfig::WireGuard(c) => c.endpoint,
                HopConfig::WireGuardExit(c) => c.endpoint,
                HopConfig::Shadowsocks(c) => c.endpoint,
                HopConfig::XRay(c) => c.endpoint,
            },
    {
        match self {
            HopConfig::WireGuard(cfg) => &cfg.endpoint,
            HopConfig::WireGuardExit(cfg) => &cfg.endpoint,
            HopConfig::Shadowsocks(cfg) => &cfg.endpoint,
            HopConfig::XRay(cfg) => &cfg.endpoint,
        }
    }

    /// The name of the hop type.
    pub fn hop_type(&self) -> (r: &'static str)
        ensures
            r@ == match *self {
                HopConfig::WireGuard(_) => "wireguard"@,
                HopConfig::Shadowsocks(_) => "shadowsocks"@,
                HopConfig::XRay(_) => "xray"@,
                HopConfig::WireGuardExit(_) => "wireguard_exit"@,
            },
    {
        match self {
            HopConfig::WireGuard(_) => "wireguard",
            HopConfig::Shadowsocks(_) => "shadowsocks",
            HopConfig::XRay(_) => "xray",
            HopConfig::WireGuardExit(_) => "wireguard_exit",
        }
    }
}

impl Default for MultiHopConfig {
    fn default() -> (r: Self)
        ensures
            !r.enabled,
            r.chain@.len() == 0,
            r.hop_timeout_secs == 10,
            r.auto_failover,
            r.health_check_interval_secs == 30,
    {
        MultiHopConfig {
            enabled: false,
            chain: Vec::new(),
            hop_timeout_secs: 10,
            auto_failover: true,
            health_check_interval_secs: 30,
        }
    }
}

impl MultiHopConfig {
    /// Checks the configuration, given for each hop whether its endpoint parses as a socket
    /// address: an enabled chain needs a hop, and every hop must pass its checks; the first
    /// hop that fails gives the error.
    pub fn validate(&self, endpoints_ok: &[bool]) -> (r: Result<(), MultiHopError>)
        requires
            endpoints_ok@.len() == self.chain@.len(),
        ensures
            as_result(chain_check(*self, endpoints_ok@), r),
    {
        if self.enabled && self.chain.len() == 0 {
            return config_error("Multi-hop enabled but no hops configured");
        }
        let n = self.chain.len();
        let mut idx: usize = 0;
        while idx < n
            invariant
                n == self.chain@.len(),
                endpoints_ok@.len() == n,
                idx <= n,
                first_failing_hop(self.chain@, endpoints_ok@, idx as int) is None,
            decreases n - idx,
        {
            match self.chain[idx].validate(endpoints_ok[idx]) {
                Ok(()) => {},
                Err(e) => {
                    let text = e.message();
                    let mut msg = concat("Hop ", decimal_string(idx as u64).as_str());
                    msg.append(" validation failed: ");
                    msg.append(text.as_str());
                    proof {
                        let m = hop_check(self.chain@[idx as int], endpoints_ok@[idx as int]).unwrap();
                        assert(text@ == "Configuration error: "@ + m);
                        assert(msg@ =~= hop_failure_text(idx as nat, m));
                        assert(first_failing_hop(self.chain@, endpoints_ok@, idx + 1) == Some((idx as nat, m)));
                        lemma_first_failing_stable(self.chain@, endpoints_ok@, idx + 1, n as int);
                    }
                    return Err(MultiHopError::Config(msg));
                },
            }
            idx = idx + 1;
        }
        Ok(())
    }
}

/// Once a failing hop is found among the first `i`, it stays the first among more.
pub proof fn lemma_first_failing_stable(chain: Seq<HopConfig>, endpoints_ok: Seq<bool>, i: int, j: int)
    requires
        i <= j,
        first_failing_hop(chain, endpoints_ok, i) is Some,
    ensures
        first_failing_hop(chain, endpoints_ok, j) == first_failing_hop(chain, endpoints_ok, i),
    decreases j - i,
{
    if i < j {
        lemma_first_failing_stable(chain, endpoints_ok, i, j - 1);
    }
}

} // verus!
