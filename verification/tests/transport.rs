use jetstream_proto::transport::bbr::{BbrMachine, BbrState};
use jetstream_proto::transport::circuit_breaker::{CircuitBreaker, CircuitBreakerConfig, State};
use jetstream_proto::transport::config::{ConnectionConfig, ServerConfig};
use jetstream_proto::transport::congestion::{BandwidthEstimator, CongestionController, CongestionState, NewReno};
use jetstream_proto::transport::fallback_detector::{FallbackConfig, FallbackDetector};
use jetstream_proto::transport::memory_pool::PacketPool;
use jetstream_proto::transport::metrics::Metrics;
use jetstream_proto::transport::mtu_discovery::MtuDiscovery;
use jetstream_proto::transport::negotiation::{Feature, FeatureSet, ProtocolNegotiator};
use jetstream_proto::transport::network_status::{NetworkStatus, NetworkType};

#[test]
fn test_initial_state() {
    let mut cb = CircuitBreaker::new(CircuitBreakerConfig::default());
    assert_eq!(cb.state(), State::Closed);
    assert!(cb.allow_request());
}

#[test]
fn test_trip_to_open() {
    let config = CircuitBreakerConfig { failure_threshold: 2, ..Default::default() };
    let mut cb = CircuitBreaker::new(config);

    cb.record_failure();
    assert_eq!(cb.state(), State::Closed);

    cb.record_failure();
    assert_eq!(cb.state(), State::Open);
    assert!(!cb.allow_request());
}

#[test]
fn test_half_open_recovery() {
    let config = CircuitBreakerConfig { failure_threshold: 1, reset_timeout: 100, success_threshold: 2 };
    let mut cb = CircuitBreaker::new(config);

    cb.record_failure_at(1_000);
    assert_eq!(cb.state(), State::Open);

    assert!(cb.allow_request_at(1_150));
    assert_eq!(cb.state(), State::HalfOpen);

    cb.record_success();
    assert_eq!(cb.state(), State::HalfOpen);

    cb.record_success();
    assert_eq!(cb.state(), State::Closed);
}

#[test]
fn test_half_open_failure() {
    let config = CircuitBreakerConfig { failure_threshold: 1, reset_timeout: 100, success_threshold: 2 };
    let mut cb = CircuitBreaker::new(config);

    cb.record_failure_at(1_000);
    assert!(cb.allow_request_at(1_150));
    assert_eq!(cb.state(), State::HalfOpen);

    cb.record_failure_at(1_160);
    assert_eq!(cb.state(), State::Open);
    assert!(!cb.allow_request_at(1_170));
}

#[test]
fn breaker_stays_open_before_timeout() {
    let config = CircuitBreakerConfig { failure_threshold: 1, reset_timeout: 100, success_threshold: 1 };
    let mut cb = CircuitBreaker::new(config);
    cb.record_failure_at(500);
    assert!(!cb.allow_request_at(599));
    assert_eq!(cb.state(), State::Open);
    assert!(cb.allow_request_at(600));
    cb.record_success();
    assert_eq!(cb.state(), State::Closed);
}

#[test]
fn test_default_connection_config() {
    let config = ConnectionConfig::default();
    assert_eq!(config.session_timeout, 30_000);
    assert_eq!(config.heartbeat_interval, 5_000);
    assert_eq!(config.max_streams, 100);
}

#[test]
fn test_connection_config_builder() {
    let config = ConnectionConfig::builder().session_timeout(60_000).max_streams(50).build();

    assert_eq!(config.session_timeout, 60_000);
    assert_eq!(config.max_streams, 50);
    // Other fields should use defaults
    assert_eq!(config.heartbeat_interval, 5_000);
}

#[test]
fn test_server_config_builder() {
    let config = ServerConfig::builder().global_rate_limit_messages(Some(5000)).cleanup_interval(5_000).build();

    assert_eq!(config.global_rate_limit_messages, Some(5000));
    assert_eq!(config.cleanup_interval, 5_000);
}

#[test]
fn test_slow_start() {
    let mss = 1000;
    let mut cc = NewReno::new(mss);

    assert_eq!(cc.state(), CongestionState::SlowStart);
    assert_eq!(cc.congestion_window(), 10 * mss);

    cc.on_packet_acked(mss, 50);

    assert_eq!(cc.congestion_window(), 11 * mss);
}

#[test]
fn test_congestion_avoidance_transition() {
    let mss = 1000;
    let mut cc = NewReno::new(mss);

    cc.ssthresh = 11 * mss;

    cc.on_packet_acked(mss, 50);

    assert_eq!(cc.congestion_window(), 11 * mss);
    assert_eq!(cc.state(), CongestionState::CongestionAvoidance);
}

#[test]
fn test_packet_loss() {
    let mss = 1000;
    let mut cc = NewReno::new(mss);

    let initial_cwnd = cc.congestion_window();

    cc.on_packet_lost(mss);

    assert_eq!(cc.state(), CongestionState::SlowStart);
    assert_eq!(cc.ssthresh, initial_cwnd / 2);
    assert_eq!(cc.congestion_window(), cc.min_window);
}

#[test]
fn newreno_can_send_below_window() {
    let mut cc = NewReno::new(1000);
    assert!(cc.can_send(9_999));
    assert!(!cc.can_send(10_000));
    cc.on_packet_sent(500);
    assert_eq!(cc.congestion_window(), 10_000);
}

#[test]
fn test_bandwidth_estimator() {
    let mut estimator = BandwidthEstimator::new();
    estimator.on_packet_sent_at(1_000);
    estimator.on_packet_acked_at(1000, 1_150);
    let _bw = estimator.bandwidth();
}

#[test]
fn test_fallback_threshold() {
    let mut detector = FallbackDetector::default_config();

    assert!(!detector.should_fallback());

    detector.record_udp_failure();
    assert!(!detector.should_fallback());

    detector.record_udp_failure();
    assert!(!detector.should_fallback());

    detector.record_udp_failure();
    assert!(detector.should_fallback());
}

#[test]
fn test_success_resets_failures() {
    let mut detector = FallbackDetector::default_config();

    detector.record_udp_failure();
    detector.record_udp_failure();
    assert_eq!(detector.failure_count(), 2);

    detector.record_udp_success();
    assert_eq!(detector.failure_count(), 0);
    assert!(!detector.should_fallback());
}

#[test]
fn test_timeout_detection() {
    let config = FallbackConfig { udp_timeout: 100, ..Default::default() };
    let mut detector = FallbackDetector::new(config);

    assert!(!detector.is_udp_timeout_at(1_000));

    detector.record_udp_attempt_at(1_000);
    assert!(!detector.is_udp_timeout_at(1_050));

    assert!(detector.is_udp_timeout_at(1_150));
}

#[test]
fn test_disabled_fallback() {
    let config = FallbackConfig { enable_fallback: false, ..Default::default() };
    let mut detector = FallbackDetector::new(config);

    detector.record_udp_failure();
    detector.record_udp_failure();
    detector.record_udp_failure();

    assert!(!detector.should_fallback());
}

#[test]
fn test_reset() {
    let mut detector = FallbackDetector::default_config();

    detector.record_udp_failure();
    detector.record_udp_failure();
    detector.record_udp_success();

    assert_eq!(detector.failure_count(), 0);
    assert!(detector.time_since_last_success().is_some());

    detector.reset();

    assert_eq!(detector.failure_count(), 0);
    assert!(detector.time_since_last_success().is_none());
}

#[test]
fn test_pool_acquire_release() {
    let mut pool = PacketPool::new(10, 1500);

    let buffer = pool.acquire();
    assert_eq!(buffer.len(), 0);

    pool.release(buffer);

    let metrics = pool.metrics();
    assert_eq!(metrics.total_acquired, 1);
    assert_eq!(metrics.total_released, 1);
    assert_eq!(metrics.current_pool_size, 1);
}

#[test]
fn test_pool_reuse() {
    let mut pool = PacketPool::new(10, 1500);

    let mut buffer = pool.acquire();
    buffer.extend_from_slice(&[1, 2, 3, 4, 5]);
    pool.release(buffer);

    let buffer2 = pool.acquire();
    assert_eq!(buffer2.len(), 0);

    let metrics = pool.metrics();
    assert_eq!(metrics.total_acquired, 2);
    assert_eq!(metrics.total_allocated, 1);
}

#[test]
fn test_pool_capacity_limit() {
    let mut pool = PacketPool::new(2, 1500);

    let b1 = pool.acquire();
    let b2 = pool.acquire();
    let b3 = pool.acquire();

    pool.release(b1);
    pool.release(b2);
    pool.release(b3);

    let metrics = pool.metrics();
    assert_eq!(metrics.current_pool_size, 2);
}

#[test]
fn test_pool_size_limit() {
    let mut pool = PacketPool::new(10, 1000);

    let mut large_buffer = Vec::with_capacity(2000);
    large_buffer.extend_from_slice(&vec![0u8; 2000]);

    pool.release(large_buffer);

    let metrics = pool.metrics();
    assert_eq!(metrics.current_pool_size, 0);
}

#[test]
fn test_metrics_counting() {
    let mut metrics = Metrics::new();

    metrics.record_packet_sent(100);
    metrics.record_packet_sent(200);
    metrics.record_packet_received(50);

    let snapshot = metrics.snapshot();
    assert_eq!(snapshot.packets_sent, 2);
    assert_eq!(snapshot.bytes_sent, 300);
    assert_eq!(snapshot.packets_received, 1);
    assert_eq!(snapshot.bytes_received, 50);
}

#[test]
fn test_metrics_updates() {
    let mut metrics = Metrics::new();

    metrics.update_rtt(50);
    metrics.update_cwnd(10000);

    let snapshot = metrics.snapshot();
    assert_eq!(snapshot.rtt_ms, 50);
    assert_eq!(snapshot.congestion_window, 10000);

    metrics.update_rtt(45);
    assert_eq!(metrics.snapshot().rtt_ms, 45);
}

#[test]
fn metrics_other_counters() {
    let mut metrics = Metrics::new();
    metrics.record_retransmit(10);
    metrics.record_loss();
    metrics.record_duplicate();
    metrics.record_error();
    metrics.record_timeout();
    metrics.record_circuit_breaker_trip();
    let s = metrics.snapshot();
    assert_eq!(s.packets_retransmitted, 1);
    assert_eq!(s.packets_lost, 1);
    assert_eq!(s.duplicate_packets_received, 1);
    assert_eq!(s.connection_errors, 1);
    assert_eq!(s.timeouts, 1);
    assert_eq!(s.circuit_breaker_trips, 1);
}

#[test]
fn test_mtu_discovery_initial() {
    let mtu = MtuDiscovery::new();
    assert_eq!(mtu.current_mtu(), 1280);
    assert!(mtu.recommended_payload_size() > 0);
    assert!(mtu.recommended_payload_size() < 1280);
}

#[test]
fn test_mtu_probe_sequence() {
    let mut mtu = MtuDiscovery::new();

    assert!(mtu.should_probe());

    let probe_size = mtu.next_probe_size().unwrap();
    assert!(probe_size > 1280);
    assert!(probe_size <= 1500);

    mtu.report_success(probe_size);
    assert_eq!(mtu.current_mtu(), probe_size);
}

#[test]
fn test_mtu_failure_handling() {
    let mut mtu = MtuDiscovery::new();

    mtu.report_success(1400);
    assert_eq!(mtu.current_mtu(), 1400);

    mtu.report_failure(1500);

    assert_eq!(mtu.current_mtu(), 1400);
}

#[test]
fn test_mtu_reset() {
    let mut mtu = MtuDiscovery::new();

    mtu.report_success(1400);
    assert_eq!(mtu.current_mtu(), 1400);

    mtu.reset();
    assert_eq!(mtu.current_mtu(), 576);
}

#[test]
fn test_custom_mtu_range() {
    let mtu = MtuDiscovery::with_range(1000, 9000);
    assert_eq!(mtu.current_mtu(), 1000);
    assert_eq!(mtu.min_mtu, 1000);
    assert_eq!(mtu.max_mtu, 9000);
}

#[test]
fn test_recommended_payload_size() {
    let mtu = MtuDiscovery::new();
    let payload_size = mtu.recommended_payload_size();

    assert!(payload_size < mtu.current_mtu());
    assert!(payload_size > 1000);
}

#[test]
fn test_mtu_stats() {
    let mtu = MtuDiscovery::new();
    let stats = mtu.stats();

    assert_eq!(stats.current_mtu, 1280);
    assert_eq!(stats.min_mtu, 576);
    assert_eq!(stats.max_mtu, 1500);
}

#[test]
fn test_feature_set() {
    let mut features = FeatureSet::new();
    assert!(features.is_empty());

    features.add(Feature::QuicTransport);
    assert!(features.has(Feature::QuicTransport));
    assert_eq!(features.len(), 1);

    features.remove(Feature::QuicTransport);
    assert!(!features.has(Feature::QuicTransport));
    assert!(features.is_empty());
}

#[test]
fn test_feature_intersection() {
    let mut features1 = FeatureSet::new();
    features1.add(Feature::QuicTransport);
    features1.add(Feature::ChaCha20Poly1305);

    let mut features2 = FeatureSet::new();
    features2.add(Feature::ChaCha20Poly1305);
    features2.add(Feature::Aes256Gcm);

    let intersection = features1.intersect(&features2);
    assert!(intersection.has(Feature::ChaCha20Poly1305));
    assert!(!intersection.has(Feature::QuicTransport));
    assert!(!intersection.has(Feature::Aes256Gcm));
    assert_eq!(intersection.len(), 1);
}

#[test]
fn test_version_selection() {
    let negotiator = ProtocolNegotiator::new();

    let version = negotiator.select_version(&[1]);
    assert_eq!(version, Some(1));

    let version = negotiator.select_version(&[99]);
    assert_eq!(version, None);

    let version = negotiator.select_version(&[1, 2]);
    assert_eq!(version, Some(1));
}

#[test]
fn test_negotiation() {
    let negotiator = ProtocolNegotiator::new();

    let mut client_features = FeatureSet::new();
    client_features.add(Feature::QuicTransport);
    client_features.add(Feature::ChaCha20Poly1305);

    let result = negotiator.negotiate(&[1], &client_features);
    assert!(result.is_some());

    let result = result.unwrap();
    assert_eq!(result.version, 1);
    assert!(result.features.has(Feature::QuicTransport));
    assert!(result.features.has(Feature::ChaCha20Poly1305));
}

#[test]
fn test_default_features() {
    let features = FeatureSet::with_defaults();
    assert!(features.has(Feature::UdpTransport));
    assert!(features.has(Feature::ChaCha20Poly1305));
    assert!(features.has(Feature::ZstdCompression));
    assert!(features.has(Feature::Multiplexing));
}

#[test]
fn negotiation_fails_without_common_version() {
    let negotiator = ProtocolNegotiator::new();
    let features = FeatureSet::with_defaults();
    assert!(negotiator.negotiate(&[7, 8], &features).is_none());
    assert!(negotiator.supports_version(1));
    assert!(!negotiator.supports_version(2));
}

#[test]
fn test_bbr_initialization() {
    let bbr = BbrMachine::new(1000, 0);
    assert_eq!(bbr.state, BbrState::Startup);
    assert_eq!(bbr.cwnd, 10000);
}

#[test]
fn test_bbr_startup_to_drain() {
    let mut bbr = BbrMachine::new(1000, 0);

    bbr.filled_pipe = true;
    bbr.update_state(0);

    assert_eq!(bbr.state, BbrState::Drain);
}

#[test]
fn bbr_state_cycle() {
    let mut m = BbrMachine::new(1000, 0);
    m.observe_delivery_rate(5_000);
    m.round_count = 4;
    assert!(!m.check_full_pipe());
    assert!(!m.check_full_pipe());
    assert!(m.check_full_pipe());
    assert!(m.filled_pipe);

    m.update_state(0);
    assert_eq!(m.state, BbrState::Drain);
    // the window 10000 exceeds 5000 B/s times 0 whole seconds of round trip
    m.update_state(0);
    assert_eq!(m.state, BbrState::Drain);
    m.min_rtt_us = 2_000_000;
    m.update_state(7);
    assert_eq!(m.state, BbrState::ProbeBW);
    assert_eq!(m.probe_bw_cycle_start_us, 7);

    m.min_rtt_us = 100;
    m.update_state(50);
    assert_eq!(m.probe_bw_cycle_idx, 0);
    m.update_state(108);
    assert_eq!(m.probe_bw_cycle_idx, 1);
    assert_eq!(m.round_count, 5);

    m.observe_rtt(200, 10_000_109);
    assert_eq!(m.state, BbrState::ProbeRTT);
    assert_eq!(m.cwnd, 4000);
    m.update_state(10_000_109 + 200_000);
    assert_eq!(m.state, BbrState::ProbeRTT);
    m.update_state(10_000_109 + 200_001);
    assert_eq!(m.state, BbrState::ProbeBW);
    assert_eq!(m.probe_rtt_start_us, None);

    m.apply_cwnd(100);
    assert_eq!(m.cwnd, 4000);
    m.apply_cwnd(50_000);
    assert_eq!(m.cwnd, 50_000);
    assert!(m.can_send(49_999));
    assert!(!m.can_send(50_000));
}

#[test]
fn test_network_status() {
    let mut status = NetworkStatus::new();
    // Default is Unknown
    assert_eq!(status.get_network_type(), NetworkType::Unknown);
    assert!(!status.is_metered());
    // Switch to Cellular
    status.set_network_type(NetworkType::Cellular);
    assert_eq!(status.get_network_type(), NetworkType::Cellular);
    assert!(status.is_metered());
    // Switch to Wifi
    status.set_network_type(NetworkType::Wifi);
    assert_eq!(status.get_network_type(), NetworkType::Wifi);
    assert!(!status.is_metered());
}

#[test]
fn release_keeps_by_capacity() {
    let mut pool = PacketPool::new(10, 1000);
    // A buffer over the packet size is dropped
    pool.release_with_capacity(Vec::new(), 2000);
    assert_eq!(pool.metrics().current_pool_size, 0);
    assert_eq!(pool.metrics().total_released, 1);
    // One within it is kept, emptied
    pool.release_with_capacity(vec![1, 2, 3], 1000);
    assert_eq!(pool.metrics().current_pool_size, 1);
    assert_eq!(pool.acquire().len(), 0);
    // The allocator's capacity decides in `release`
    pool.release(Vec::with_capacity(2000));
    assert_eq!(pool.metrics().current_pool_size, 0);
}
