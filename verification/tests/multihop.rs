use jetstream_proto::multihop::traffic::TrafficCounters;
use jetstream_proto::multihop::buffer_pool::BufferPool;
use jetstream_proto::multihop::config::{HopConfig, MultiHopConfig, ShadowsocksConfig, WireGuardConfig, XRayConfig};
use jetstream_proto::multihop::engine::{admit_traffic, hop_start_error, state_after_start, state_name};
use jetstream_proto::multihop::hop::{hop_health, EngineState, HopHealth, HopStatus};
use jetstream_proto::multihop::xray::generate_xray_config;
use jetstream_proto::multihop::MultiHopError;

fn wireguard() -> WireGuardConfig {
    WireGuardConfig {
        endpoint: "127.0.0.1:51820".to_string(),
        private_key: "test_private_key".to_string(),
        peer_public_key: "test_public_key".to_string(),
        allowed_ips: vec!["0.0.0.0/0".to_string()],
        persistent_keepalive: 25,
        listen_port: 0,
    }
}

fn shadowsocks() -> ShadowsocksConfig {
    ShadowsocksConfig {
        endpoint: "127.0.0.1:8388".to_string(),
        password: "test_password".to_string(),
        method: "aes-256-gcm".to_string(),
        obfs: "tls".to_string(),
        udp_relay: false,
        local_port: 0,
    }
}

#[test]
fn test_wireguard_config_validation() {
    let config = wireguard();
    assert!(config.validate(true).is_ok());
}

#[test]
fn test_shadowsocks_config_validation() {
    let config = shadowsocks();
    assert!(config.validate(true).is_ok());
}

#[test]
fn test_xray_config_validation() {
    let config = XRayConfig {
        endpoint: "127.0.0.1:443".to_string(),
        server_name: "example.com".to_string(),
        uuid: "test-uuid-1234".to_string(),
        tls: true,
        websocket: false,
        ws_path: "/".to_string(),
        local_port: 0,
    };

    assert!(config.validate(true).is_ok());
}

fn config_message(r: Result<(), MultiHopError>) -> String {
    match r {
        Err(MultiHopError::Config(m)) => m,
        other => panic!("expected a configuration error, got {:?}", other),
    }
}

#[test]
fn hop_validation_errors() {
    let mut wg = wireguard();
    assert_eq!(config_message(wg.validate(false)), "Invalid WireGuard endpoint: 127.0.0.1:51820");
    wg.private_key = String::new();
    assert_eq!(config_message(wg.validate(true)), "WireGuard private_key cannot be empty");

    let mut ss = shadowsocks();
    ss.method = "rc4".to_string();
    assert_eq!(config_message(ss.validate(true)), "Invalid Shadowsocks method: rc4");
    ss.method = "chacha20-ietf-poly1305".to_string();
    ss.obfs = "quic".to_string();
    assert_eq!(config_message(ss.validate(true)), "Invalid obfs plugin: quic");
}

#[test]
fn chain_validation() {
    let mut cfg = MultiHopConfig::default();
    assert!(cfg.validate(&[]).is_ok());
    cfg.enabled = true;
    assert_eq!(config_message(cfg.validate(&[])), "Multi-hop enabled but no hops configured");

    let mut bad = shadowsocks();
    bad.password = String::new();
    cfg.chain = vec![HopConfig::WireGuard(wireguard()), HopConfig::Shadowsocks(bad)];
    assert_eq!(
        config_message(cfg.validate(&[true, true])),
        "Hop 1 validation failed: Configuration error: Shadowsocks password cannot be empty"
    );
    assert_eq!(cfg.chain[0].hop_type(), "wireguard");
    assert_eq!(cfg.chain[1].endpoint(), "127.0.0.1:8388");
}

#[test]
fn error_messages() {
    assert_eq!(MultiHopError::Routing("no route".to_string()).message(), "Routing error: no route");
    assert_eq!(MultiHopError::Hop("down".to_string()).message(), "Hop error: down");
}

#[test]
fn test_buffer_pool() {
    let mut pool = BufferPool::new(5, 1024);

    assert_eq!(pool.size(), 5);
    assert_eq!(pool.capacity(), 5);

    let buf1 = pool.acquire(512);
    assert_eq!(pool.size(), 4);
    assert!(buf1.capacity() >= 512);

    pool.release(buf1);
    assert_eq!(pool.size(), 5);

    let buf2 = pool.acquire(1024);
    let buf3 = pool.acquire(2048);
    assert_eq!(pool.size(), 3);
    assert!(buf3.capacity() >= 2048);

    pool.release(buf2);
    pool.release(buf3);
    assert_eq!(pool.size(), 5);
}

#[test]
fn test_buffer_pool_exhaustion() {
    let mut pool = BufferPool::new(2, 1024);

    let buf1 = pool.acquire(512);
    let buf2 = pool.acquire(512);
    assert_eq!(pool.size(), 0);

    let buf3 = pool.acquire(512);
    assert_eq!(pool.size(), 0);

    pool.release(buf1);
    pool.release(buf2);
    pool.release(buf3);

    assert_eq!(pool.size(), 2);
}

#[test]
fn released_buffers_come_back_empty() {
    let mut pool = BufferPool::new(1, 16);
    let mut b = pool.acquire(4);
    b.extend_from_slice(&[1, 2, 3]);
    pool.release(b);
    assert!(pool.acquire(4).is_empty());
    let fresh = pool.acquire(100);
    assert!(fresh.capacity() >= 100);
}

#[test]
fn engine_admits_traffic_only_when_running() {
    assert!(admit_traffic(EngineState::Running, true).is_ok());
    match admit_traffic(EngineState::Stopped, true) {
        Err(MultiHopError::Engine(m)) => assert_eq!(m, "Engine not running (state: Stopped)"),
        other => panic!("unexpected {:?}", other),
    }
    match admit_traffic(EngineState::Running, false) {
        Err(MultiHopError::Engine(m)) => assert_eq!(m, "Router not initialized"),
        other => panic!("unexpected {:?}", other),
    }
    assert_eq!(state_name(EngineState::Uninitialized), "Uninitialized");
    assert_eq!(state_after_start(true), EngineState::Running);
    assert_eq!(state_after_start(false), EngineState::Initializing);
    let e = hop_start_error(2, &MultiHopError::Hop("timeout".to_string()));
    match e {
        MultiHopError::Engine(m) => assert_eq!(m, "Failed to start hop 2: Hop error: timeout"),
        other => panic!("unexpected {:?}", other),
    }
}

#[test]
fn test_xray_config_generation() {
    let config = XRayConfig {
        endpoint: "127.0.0.1:443".to_string(),
        server_name: "example.com".to_string(),
        uuid: "test-uuid".to_string(),
        tls: true,
        websocket: true,
        ws_path: "/ws".to_string(),
        local_port: 1080,
    };

    assert!(config.validate(true).is_ok());
    let json = generate_xray_config(&config, config.local_port, "127.0.0.1", 443);

    assert!(json.contains("vless"));
    assert!(json.contains("test-uuid"));
    assert!(json.contains("ws"));
    assert!(json.contains("/ws"));
}

#[test]
fn xray_config_exact_text() {
    let config = XRayConfig {
        endpoint: "10.0.0.1:8443".to_string(),
        server_name: "s".to_string(),
        uuid: "u".to_string(),
        tls: false,
        websocket: false,
        ws_path: "/".to_string(),
        local_port: 0,
    };
    let text = generate_xray_config(&config, 1080, "10.0.0.1", 8443);
    let expected = "{\n            \"log\": {\n                \"loglevel\": \"warning\"\n            },\n            \"inbounds\": [{\n                \"port\": 1080,\n                \"protocol\": \"socks\",\n                \"settings\": {\n                    \"udp\": true\n                }\n            }],\n            \"outbounds\": [{\n                \"protocol\": \"vless\",\n                \"settings\": {\n                    \"vnext\": [{\n                        \"address\": \"10.0.0.1\",\n                        \"port\": 8443,\n                        \"users\": [{\n                            \"id\": \"u\",\n                            \"encryption\": \"none\"\n                        }]\n                    }]\n                },\n                \n                \"streamSettings\": {\n                    \"network\": \"tcp\",\n                    \"security\": \"none\"\n                }\n            }]\n        }";
    assert_eq!(text, expected);
}

#[test]
fn hop_health_rule() {
    assert_eq!(hop_health(HopStatus::Running, true), HopHealth::Healthy);
    assert_eq!(hop_health(HopStatus::Running, false), HopHealth::Unhealthy);
    assert_eq!(hop_health(HopStatus::Stopped, true), HopHealth::Unhealthy);
}

#[test]
fn traffic_counters_count_both_ways() {
    let mut t = TrafficCounters::new();
    t.record_sent(1000);
    t.record_sent(500);
    t.record_received(200);
    assert_eq!((t.bytes_sent, t.packets_sent), (1500, 2));
    assert_eq!((t.bytes_received, t.packets_received), (200, 1));
    t.bytes_sent = u64::MAX;
    t.record_sent(2);
    assert_eq!(t.bytes_sent, 1);
    t.reset();
    assert_eq!(t, TrafficCounters::new());
}
