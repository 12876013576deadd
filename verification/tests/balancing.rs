use std::hash::{Hash, Hasher};

use jetstream_proto::address::IpAddress;
use jetstream_proto::load_balancer::algorithms::{
    hash_key, BalancingAlgorithm, ConsistentHash, LeastConnections, RoundRobin, WeightedRoundRobin,
};
use jetstream_proto::load_balancer::balancer::LoadBalancer;
use jetstream_proto::load_balancer::health::{HealthCheck, HealthChecker, HealthStatus};
use jetstream_proto::load_balancer::Backend;
use jetstream_proto::mptcp::manager::subflow_for_interface;
use jetstream_proto::mptcp::scheduler::{
    create_scheduler, AnyScheduler, MinRttScheduler, RoundRobinScheduler, Scheduler,
};
use jetstream_proto::mptcp::{MptcpConfig, SchedulerAlgorithm};

fn create_backends() -> Vec<Backend> {
    vec![
        Backend::new("backend1", "127.0.0.1:8001", 1),
        Backend::new("backend2", "127.0.0.1:8002", 2),
        Backend::new("backend3", "127.0.0.1:8003", 1),
    ]
}

#[test]
fn test_round_robin() {
    let backends = create_backends();
    let mut rr = RoundRobin::new();

    let b1 = rr.select(&backends, None).unwrap();
    let b2 = rr.select(&backends, None).unwrap();
    let b3 = rr.select(&backends, None).unwrap();
    let b4 = rr.select(&backends, None).unwrap();

    assert_eq!(b1.id, "backend1");
    assert_eq!(b2.id, "backend2");
    assert_eq!(b3.id, "backend3");
    assert_eq!(b4.id, "backend1");
}

#[test]
fn test_least_connections() {
    let mut backends = create_backends();
    let mut lc = LeastConnections::new();

    backends[1].inc_connections();
    backends[1].inc_connections();

    let selected = lc.select(&backends, None).unwrap();
    assert!(selected.id == "backend1" || selected.id == "backend3");
}

#[test]
fn least_connections_takes_first_of_equals() {
    let mut backends = create_backends();
    backends[0].inc_connections();
    let mut lc = LeastConnections::new();
    assert_eq!(lc.select(&backends, None).unwrap().id, "backend2");
    backends[0].dec_connections();
    assert_eq!(backends[0].connections(), 0);
    assert_eq!(lc.select(&backends, None).unwrap().id, "backend1");
}

#[test]
fn test_consistent_hash() {
    let backends = create_backends();
    let mut ch = ConsistentHash::new(100);

    let b1 = ch.select(&backends, Some("user123")).unwrap();
    let b2 = ch.select(&backends, Some("user123")).unwrap();

    assert_eq!(b1.id, b2.id);
}

#[test]
fn hash_key_is_the_std_hash_of_the_str() {
    let mut h = std::collections::hash_map::DefaultHasher::new();
    "user123".hash(&mut h);
    assert_eq!(hash_key("user123"), h.finish());
}

#[test]
fn weighted_round_robin_follows_weights() {
    let backends = create_backends();
    let mut w = WeightedRoundRobin::new();
    let picks: Vec<String> = (0..4).map(|_| w.select(&backends, None).unwrap().id).collect();
    assert_eq!(picks, vec!["backend1", "backend2", "backend2", "backend3"]);
}

#[test]
fn empty_backends_give_none() {
    let none: Vec<Backend> = vec![];
    assert!(RoundRobin::new().select(&none, None).is_none());
    assert!(LeastConnections::new().select(&none, None).is_none());
    assert!(ConsistentHash::new(10).select(&none, Some("k")).is_none());
}

#[test]
fn test_load_balancer_creation() {
    let backends = vec![Backend::new("b1", "127.0.0.1:8001", 1), Backend::new("b2", "127.0.0.1:8002", 1)];

    let lb = LoadBalancer::new(backends, RoundRobin::new(), HealthChecker::default());

    assert_eq!(lb.backend_count(), 2);
    assert_eq!(lb.healthy_backend_count(), 2);
}

#[test]
fn test_backend_selection() {
    let backends = vec![Backend::new("b1", "127.0.0.1:8001", 1), Backend::new("b2", "127.0.0.1:8002", 1)];

    let mut lb = LoadBalancer::new(backends, RoundRobin::new(), HealthChecker::default());

    let backend = lb.select_backend(None);
    assert!(backend.is_some());
}

#[test]
fn test_add_remove_backend() {
    let backends = vec![Backend::new("b1", "127.0.0.1:8001", 1)];

    let mut lb = LoadBalancer::new(backends, RoundRobin::new(), HealthChecker::default());

    assert_eq!(lb.backend_count(), 1);

    lb.add_backend(Backend::new("b2", "127.0.0.1:8002", 1));
    assert_eq!(lb.backend_count(), 2);

    lb.remove_backend("b1");
    assert_eq!(lb.backend_count(), 1);
}

#[test]
fn unhealthy_backends_are_skipped() {
    let backends = vec![Backend::new("b1", "a", 1), Backend::new("b2", "b", 1)];
    let mut lb = LoadBalancer::new(backends, RoundRobin::new(), HealthChecker::default());
    lb.record_health_check(HealthCheck {
        backend_id: "b1".to_string(),
        status: HealthStatus::Unhealthy,
        latency_ms: 0,
        last_check: 0,
    });
    assert_eq!(lb.healthy_backend_count(), 1);
    for _ in 0..3 {
        assert_eq!(lb.select_backend(None).unwrap().id, "b2");
    }
    lb.record_health_check(HealthCheck {
        backend_id: "b2".to_string(),
        status: HealthStatus::Unhealthy,
        latency_ms: 0,
        last_check: 0,
    });
    assert!(lb.select_backend(None).is_none());
}

#[test]
fn health_classification() {
    assert_eq!(HealthChecker::classify(false, 0), HealthStatus::Unhealthy);
    assert_eq!(HealthChecker::classify(true, 101), HealthStatus::Degraded);
    assert_eq!(HealthChecker::classify(true, 100), HealthStatus::Healthy);
    let d = HealthChecker::default();
    assert_eq!(d.check_interval, 10_000);
    assert_eq!(d.timeout, 5_000);
}

#[test]
fn schedulers_choose_subflows() {
    let rtts = [30u64, 10, 20, 10];
    let mut min = MinRttScheduler;
    assert_eq!(min.select_subflow(&rtts), Some(1));
    let mut rr = RoundRobinScheduler::new();
    assert_eq!(rr.select_subflow(&rtts), Some(0));
    assert_eq!(rr.select_subflow(&rtts), Some(1));
    assert_eq!(rr.select_subflow(&[]), None);

    let mut any = create_scheduler(SchedulerAlgorithm::RoundRobin);
    assert!(matches!(any, AnyScheduler::RoundRobin(_)));
    assert_eq!(any.select_subflow(&rtts), Some(0));
    let redundant = create_scheduler(SchedulerAlgorithm::Redundant);
    assert!(matches!(redundant, AnyScheduler::MinRtt(_)));
    let d = MptcpConfig::default();
    assert!(!d.enabled);
    assert_eq!(d.max_subflows, 4);
    assert_eq!(d.scheduler_algo, SchedulerAlgorithm::MinRtt);
}

#[test]
fn subflows_open_once_per_interface() {
    let existing = [IpAddress::V4(0x0a00_0001)];
    assert_eq!(subflow_for_interface(&existing, IpAddress::V4(0x7f00_0001), true), None);
    assert_eq!(subflow_for_interface(&existing, IpAddress::V4(0x0a00_0001), false), None);
    assert_eq!(subflow_for_interface(&existing, IpAddress::V4(0x0a00_0002), false), Some(1));
}

#[test]
fn test_health_checker() {
    let checker = HealthChecker::default();
    assert_eq!(checker.timeout, 5_000);
    let backend = Backend::new("test", "127.0.0.1:8000", 1);
    // The probe answers within the timeout
    let status = HealthChecker::classify(true, backend.connections());
    assert_eq!(status, HealthStatus::Healthy);
}

#[test]
fn test_degraded_status() {
    let mut backend = Backend::new("test", "127.0.0.1:8000", 1);
    // Simulate high connection count
    for _ in 0..101 {
        backend.inc_connections();
    }
    let status = HealthChecker::classify(true, backend.connections());
    assert_eq!(status, HealthStatus::Degraded);
    assert_eq!(HealthChecker::classify(false, 0), HealthStatus::Unhealthy);
}

#[test]
fn weighted_round_robin_gives_each_its_weight() {
    let backends = vec![
        Backend::new("a", "127.0.0.1:8001", 2),
        Backend::new("b", "127.0.0.1:8002", 0),
        Backend::new("c", "127.0.0.1:8003", 3),
    ];
    let mut w = WeightedRoundRobin::new();
    // Start mid-way through a round: any 5 consecutive picks hold each backend its weight
    w.select(&backends, None);
    w.select(&backends, Some("k"));
    let picks: Vec<String> = (0..5).map(|i| {
        let key = if i % 2 == 0 { None } else { Some("key") };
        w.select(&backends, key).unwrap().id
    }).collect();
    assert_eq!(picks.iter().filter(|p| p.as_str() == "a").count(), 2);
    assert_eq!(picks.iter().filter(|p| p.as_str() == "b").count(), 0);
    assert_eq!(picks.iter().filter(|p| p.as_str() == "c").count(), 3);
}

#[test]
fn empty_round_robin_scheduler_keeps_its_count() {
    let mut s = RoundRobinScheduler::new();
    assert_eq!(s.select_subflow(&[]), None);
    assert_eq!(s.counter, 0);
    assert_eq!(s.select_subflow(&[10, 20]), Some(0));
    assert_eq!(s.select_subflow(&[10, 20]), Some(1));
}

#[test]
fn zero_virtual_nodes_without_backends_gives_none() {
    let mut lb = LoadBalancer::new(vec![], ConsistentHash::new(0), HealthChecker::default());
    assert!(lb.select_backend(Some("user")).is_none());
    assert!(ConsistentHash::new(0).select(&[], None).is_none());
}

#[test]
fn balancer_connection_counts_steer_least_connections() {
    let backends = vec![Backend::new("b1", "a", 1), Backend::new("b2", "b", 1)];
    let mut lb = LoadBalancer::new(backends, LeastConnections::new(), HealthChecker::default());
    let first = lb.select_backend(None).unwrap();
    assert_eq!(first.id, "b1");
    lb.inc_connections(&first.id);
    assert_eq!(lb.backends()[0].active_connections, 1);
    assert_eq!(lb.select_backend(None).unwrap().id, "b2");
    lb.dec_connections("b1");
    assert_eq!(lb.backends()[0].active_connections, 0);
    assert_eq!(lb.select_backend(None).unwrap().id, "b1");
    lb.dec_connections("b2");
    assert_eq!(lb.backends()[1].active_connections, u32::MAX);
}
