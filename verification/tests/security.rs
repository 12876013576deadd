use jetstream_proto::address::{IpAddress, SocketAddress};
use jetstream_proto::compression::adaptive::CompressionLevel;
use jetstream_proto::transport::ddos_protection::{DdosConfig, IpState, IpTable};
use jetstream_proto::transport::heartbeat::{AppState, HeartbeatAction, HeartbeatConfig, HeartbeatManager};
use jetstream_proto::transport::ice::{Candidate, CandidateType, IceAgent};
use jetstream_proto::transport::ip_blacklist::IpBlacklist;

const IP1: IpAddress = IpAddress::V4(0xc0a8_0101);
const IP2: IpAddress = IpAddress::V4(0xc0a8_0102);

#[test]
fn test_permanent_ban() {
    let mut blacklist = IpBlacklist::new();
    assert!(!blacklist.is_blacklisted_at(IP1, 0));
    blacklist.ban_permanent(IP1, "Test ban".to_string());
    assert!(blacklist.is_blacklisted_at(IP1, 0));
    assert!(blacklist.is_blacklisted(IP1));
    blacklist.unban(IP1);
    assert!(!blacklist.is_blacklisted_at(IP1, 0));
}

#[test]
fn test_temporary_ban() {
    let mut blacklist = IpBlacklist::new();
    blacklist.ban_temporary_at(IP2, "Test ban".to_string(), 1, 1_000);
    assert!(blacklist.is_blacklisted_at(IP2, 1_000));
    assert!(!blacklist.is_blacklisted_at(IP2, 1_001));
    assert!(!blacklist.is_blacklisted_at(IP1, 1_000));
    blacklist.purge_expired(1_001);
    assert!(blacklist.temporary.is_empty());
}

#[test]
fn get_all_lists_permanent_then_temporary() {
    let mut blacklist = IpBlacklist::new();
    blacklist.ban_permanent(IP1, "x".to_string());
    blacklist.ban_permanent(IP1, "again".to_string());
    blacklist.ban_temporary_at(IP2, "flood".to_string(), 60, 10);
    let all = blacklist.get_all();
    assert_eq!(all.len(), 2);
    assert_eq!(all[0].ip, IP1);
    assert_eq!(all[0].reason, "Permanent ban");
    assert_eq!(all[0].expires_at, None);
    assert_eq!(all[1].reason, "flood");
    assert_eq!(all[1].banned_at, 10);
    assert_eq!(all[1].expires_at, Some(70));
}

#[test]
fn ip_state_bans_after_refused_handshake() {
    let mut s = IpState::new(0);
    assert!(!s.enter(10));
    assert!(!s.after_handshake_limit(10, false, Some(60_000)));
    assert_eq!(s.banned_until, Some(60_010));
    assert!(s.enter(100));
    assert!(!s.enter(60_010));
    assert_eq!(s.banned_until, None);
    assert!(s.after_handshake_limit(60_010, true, Some(60_000)));
    assert!(!s.is_stale(60_010 + 299_999));
    assert!(s.is_stale(60_010 + 300_000));
}

#[test]
fn ip_table_keeps_one_record_per_address() {
    let mut t = IpTable::new();
    let a = t.entry(IP1, 5);
    let b = t.entry(IP2, 6);
    let c = t.entry(IP1, 7);
    assert_eq!(a, c);
    assert_ne!(a, b);
    assert_eq!(t.entries.len(), 2);
    assert_eq!(t.entries[a].1.last_activity, 5);
    t.cleanup(300_005);
    assert_eq!(t.entries.len(), 1);
    assert_eq!(t.entries[0].0, IP2);
    let d = DdosConfig::default();
    assert_eq!(d.max_handshakes_per_ip, 5);
    assert_eq!(d.ban_duration, Some(60_000));
}

fn addr(last: u32, port: u16) -> SocketAddress {
    SocketAddress { ip: IpAddress::V4(0x0a00_0000 | last), port }
}

#[test]
fn candidate_names_roundtrip() {
    for t in [CandidateType::Host, CandidateType::ServerReflexive, CandidateType::PeerReflexive, CandidateType::Relayed] {
        assert_eq!(CandidateType::from_name(t.name()), Some(t));
    }
    assert_eq!(CandidateType::from_name("bogus"), None);
    assert_eq!(CandidateType::Host.priority(), 100);
    assert_eq!(CandidateType::Relayed.priority(), 40);
}

#[test]
fn ice_agent_chooses_best_candidate() {
    let mut agent = IceAgent::new("peer-a".to_string());
    agent.add_local_candidate(addr(1, 5000), CandidateType::Host);
    agent.add_local_candidate(addr(1, 5000), CandidateType::Host);
    assert_eq!(agent.local_candidates.len(), 1);
    assert_eq!(agent.local_candidates[0].priority, 100);

    assert_eq!(agent.get_best_remote_candidate(), None);
    agent.add_remote_candidate(Candidate { addr: addr(2, 1), candidate_type: CandidateType::Relayed, priority: 40 });
    agent.add_remote_candidate(Candidate { addr: addr(3, 2), candidate_type: CandidateType::Host, priority: 100 });
    agent.add_remote_candidate(Candidate { addr: addr(4, 3), candidate_type: CandidateType::ServerReflexive, priority: 80 });
    assert_eq!(agent.remote_candidates_count(), 3);
    assert_eq!(agent.get_best_remote_candidate(), Some(addr(3, 2)));

    let order: Vec<u32> = agent.check_order().iter().map(|c| c.priority).collect();
    assert_eq!(order, vec![100, 80, 40]);

    agent.select_candidate(addr(4, 3));
    assert_eq!(agent.get_selected_candidate(), Some(addr(4, 3)));
    assert_eq!(agent.get_best_remote_candidate(), Some(addr(4, 3)));
}

#[test]
fn test_adaptive_logic() {
    let mut adaptive = CompressionLevel::new_at(1, 5, 100, 20, 0);

    assert_eq!(adaptive.get_level(), 3);

    adaptive.update_interval = 0;

    adaptive.update_at(0, 50, 0.15 > 0.1);
    assert_eq!(adaptive.get_level(), 1);

    adaptive.update_at(0, 10, 0.0 > 0.1);
    assert_eq!(adaptive.get_level(), 2);

    adaptive.update_at(0, 150, 0.0 > 0.1);
    assert_eq!(adaptive.get_level(), 1);
}

#[test]
fn compression_waits_for_interval() {
    let mut c = CompressionLevel::new_at(0, 9, 200, 50, 1_000);
    assert_eq!(c.get_level(), 4);
    c.update_at(2_000, 10, false);
    assert_eq!(c.get_level(), 4);
    c.update_at(6_000, 10, false);
    assert_eq!(c.get_level(), 5);
    assert_eq!(CompressionLevel::new_at(-5, 2, 1, 1, 0).get_level(), -1);
}

#[test]
fn heartbeat_schedule() {
    let mut hb = HeartbeatManager::new_at(HeartbeatConfig::default(), 0);
    assert_eq!(hb.current_interval(), 5_000);
    assert!(!hb.should_send_at(4_999));
    assert!(hb.should_send_at(5_000));
    assert_eq!(hb.next_sequence(), 1);
    assert_eq!(hb.next_sequence(), 2);
    hb.mark_sent_at(5_000);
    assert!(!hb.should_send_at(9_999));
    hb.set_app_state(AppState::Background);
    assert_eq!(hb.current_interval(), 30_000);
}

#[test]
fn heartbeat_timeout_and_receipt() {
    let mut hb = HeartbeatManager::new_at(HeartbeatConfig::default(), 0);
    assert!(!hb.is_timed_out_at(14_999));
    assert!(hb.is_timed_out_at(15_000));
    hb.mark_received_at(15_001);
    assert!(!hb.is_timed_out_at(15_001));
    assert_eq!(hb.time_since_last_received_at(16_000), 999);
}

#[test]
fn heartbeat_monitor_ticks() {
    let mut hb = HeartbeatManager::new_at(HeartbeatConfig::default(), 0);
    assert_eq!(hb.tick_at(1_000), HeartbeatAction::Wait);
    assert_eq!(hb.tick_at(5_000), HeartbeatAction::Send(1));
    hb.mark_sent_at(5_000);
    assert_eq!(hb.tick_at(6_000), HeartbeatAction::Wait);
    assert_eq!(hb.tick_at(15_000), HeartbeatAction::Stop);
    assert_eq!(hb.sequence, 1);
}

#[test]
fn test_heartbeat_sequence() {
    let config = HeartbeatConfig { foreground_interval: 5_000, background_interval: 30_000, timeout_count: 3 };
    let mut manager = HeartbeatManager::new(config);
    let seq1 = manager.next_sequence();
    let seq2 = manager.next_sequence();
    assert_eq!(seq1, 1);
    assert_eq!(seq2, 2);
}

#[test]
fn test_heartbeat_timing() {
    let config = HeartbeatConfig { foreground_interval: 1_000, background_interval: 5_000, timeout_count: 3 };
    let manager = HeartbeatManager::new(config);
    // Initially should not send
    assert!(!manager.should_send());
    // One interval and a bit later, it should
    let start = manager.last_sent;
    assert!(manager.should_send_at(start + 1_100));
}

#[test]
fn test_heartbeat_timeout() {
    let config = HeartbeatConfig { foreground_interval: 1_000, background_interval: 5_000, timeout_count: 2 };
    let manager = HeartbeatManager::new(config);
    // Initially not timed out
    assert!(!manager.is_timed_out());
    // Two intervals and a bit later, it is
    let start = manager.last_received;
    assert!(manager.is_timed_out_at(start + 2_100));
}

#[test]
fn test_heartbeat_received_resets_timeout() {
    let config = HeartbeatConfig { foreground_interval: 1_000, background_interval: 5_000, timeout_count: 2 };
    let mut manager = HeartbeatManager::new_at(config, 0);
    manager.mark_received_at(1_500);
    assert!(!manager.is_timed_out_at(1_500));
    // The same by the system clock
    let mut live = HeartbeatManager::new(config);
    live.mark_received();
    assert!(!live.is_timed_out());
    assert!(live.time_since_last_received() < 1_000);
}

#[test]
fn test_app_state_change() {
    let config = HeartbeatConfig { foreground_interval: 1_000, background_interval: 5_000, timeout_count: 3 };
    let mut manager = HeartbeatManager::new(config);
    // Default is Foreground
    assert_eq!(manager.current_interval(), 1_000);
    // Switch to Background
    manager.set_app_state(AppState::Background);
    assert_eq!(manager.current_interval(), 5_000);
    manager.mark_sent();
    assert!(!manager.should_send());
}

#[test]
fn heartbeat_tick_by_its_clock() {
    let config = HeartbeatConfig { foreground_interval: 60_000, background_interval: 60_000, timeout_count: 3 };
    let mut manager = HeartbeatManager::new(config);
    assert_eq!(manager.last_sent, 0);
    assert_eq!(manager.last_received, 0);
    // Just made: nothing is due
    assert_eq!(manager.tick(), HeartbeatAction::Wait);
    assert_eq!(manager.sequence, 0);
}
