use modbus_relay::config::StatsConfig;
use modbus_relay::connection::stats::{saturate, tally, Tally};
use modbus_relay::connection::{ClientStats, ConnectionStats, IpStats, StatEvent, StatReply};
use modbus_relay::peer::PeerAddr;
use modbus_relay::stats_manager::StatsManager;

fn snapshot(stats: &mut StatsManager, now: u64) -> ConnectionStats {
    match stats.handle_event(StatEvent::QueryConnectionStats, now) {
        StatReply::Connections(s) => s,
        other => panic!("unexpected {:?}", other),
    }
}

fn query(stats: &mut StatsManager, addr: PeerAddr, now: u64) -> Option<ClientStats> {
    match stats.handle_event(StatEvent::QueryStats { addr }, now) {
        StatReply::Client(c) => Some(c),
        StatReply::Nothing => None,
        other => panic!("unexpected {:?}", other),
    }
}

fn processed(addr: PeerAddr, success: bool, duration_ms: u64) -> StatEvent {
    StatEvent::RequestProcessed { addr, success, duration_ms }
}

#[test]
fn test_client_lifecycle() {
    let config = StatsConfig::default();
    let mut manager = StatsManager::new(config);
    let addr = PeerAddr::v4(127, 0, 0, 1, 8080);

    // Test connection
    manager.handle_event(StatEvent::ClientConnected(addr), 0);

    // Test successful request
    manager.handle_event(processed(addr, true, 100), 10);

    // Test failed request
    manager.handle_event(processed(addr, false, 150), 20);

    // Query per-client stats
    let stats = query(&mut manager, addr, 100).unwrap();
    assert_eq!(stats.active_connections, 1);
    assert_eq!(stats.total_requests, 2);
    assert_eq!(stats.total_errors, 1);

    // Query global stats
    let conn_stats = snapshot(&mut manager, 100);
    assert_eq!(conn_stats.total_requests, 2);
    assert_eq!(conn_stats.total_errors, 1);
}

#[test]
fn test_cleanup_idle_stats() {
    let mut config = StatsConfig::default();
    config.idle_timeout_ms = 100;
    let mut manager = StatsManager::new(config);
    let addr = PeerAddr::v4(127, 0, 0, 1, 8080);

    // Add client and disconnect
    manager.handle_event(StatEvent::ClientConnected(addr), 0);
    manager.handle_event(StatEvent::ClientDisconnected(addr), 0);

    // Wait for idle timeout
    manager.cleanup_idle_stats(200);

    // Query stats - should be cleaned up
    let conn_stats = snapshot(&mut manager, 200);
    assert_eq!(conn_stats.active_connections, 0);
    assert!(conn_stats.per_ip_stats.is_empty());
}

#[test]
fn events_change_one_client() {
    let mut manager = StatsManager::new(StatsConfig::default());
    let a = PeerAddr::v4(1, 1, 1, 1, 1);
    let b = PeerAddr::v4(2, 2, 2, 2, 2);
    assert_eq!(manager.total_connections(), 0);
    manager.handle_event(StatEvent::ClientConnected(a), 5);
    manager.handle_event(StatEvent::ClientConnected(a), 6);
    manager.handle_event(StatEvent::ClientConnected(b), 7);
    assert_eq!(manager.total_connections(), 3);
    assert_eq!(
        query(&mut manager, a, 8),
        Some(ClientStats {
            active_connections: 2,
            total_requests: 0,
            total_errors: 0,
            last_active: 6,
            last_error: None,
            avg_response_time_ms: 0,
        })
    );
    manager.handle_event(StatEvent::ClientDisconnected(a), 9);
    assert_eq!(query(&mut manager, a, 9).unwrap().active_connections, 1);
    assert_eq!(query(&mut manager, a, 9).unwrap().last_active, 9);
    manager.handle_event(StatEvent::ClientDisconnected(a), 10);
    manager.handle_event(StatEvent::ClientDisconnected(a), 11);
    assert_eq!(query(&mut manager, a, 12).unwrap().active_connections, 0);
    assert_eq!(query(&mut manager, b, 12).unwrap().active_connections, 1);
    assert_eq!(query(&mut manager, b, 12).unwrap().last_active, 7);
    assert_eq!(manager.get(a).unwrap().last_active, 11);
    // The end of a connection from an unknown client is not recorded.
    let unknown = PeerAddr::v4(3, 3, 3, 3, 3);
    manager.handle_event(StatEvent::ClientDisconnected(unknown), 13);
    assert_eq!(query(&mut manager, unknown, 14), None);
    assert_eq!(manager.total_connections(), 3);
    assert_eq!(manager.queue_capacity(), 10000);
    assert_eq!(manager.cleanup_interval_ms(), 60_000);
}

#[test]
fn requests_of_unknown_clients_create_an_entry() {
    let mut manager = StatsManager::new(StatsConfig::default());
    let a = PeerAddr::v4(1, 1, 1, 1, 1);
    manager.handle_event(processed(a, false, 42), 1000);
    assert_eq!(
        query(&mut manager, a, 1001),
        Some(ClientStats {
            active_connections: 0,
            total_requests: 1,
            total_errors: 1,
            last_active: 1000,
            last_error: Some(1000),
            avg_response_time_ms: 42,
        })
    );
}

#[test]
fn response_time_is_smoothed_by_a_tenth() {
    let mut manager = StatsManager::new(StatsConfig::default());
    let a = PeerAddr::v4(1, 1, 1, 1, 1);
    manager.handle_event(processed(a, true, 100), 1);
    assert_eq!(query(&mut manager, a, 1).unwrap().avg_response_time_ms, 100);
    manager.handle_event(processed(a, true, 150), 2);
    assert_eq!(query(&mut manager, a, 2).unwrap().avg_response_time_ms, 105);
    manager.handle_event(processed(a, true, 0), 3);
    assert_eq!(query(&mut manager, a, 3).unwrap().avg_response_time_ms, 94);
    manager.handle_event(processed(a, true, 1000), 4);
    assert_eq!(query(&mut manager, a, 4).unwrap().avg_response_time_ms, 184);
    manager.handle_event(processed(a, true, u64::MAX), 5);
    assert_eq!(
        query(&mut manager, a, 5).unwrap().avg_response_time_ms,
        ((9u128 * 184 + u64::MAX as u128) / 10) as u64
    );
    let b = PeerAddr::v4(2, 2, 2, 2, 2);
    manager.handle_event(processed(b, true, 1), 6);
    manager.handle_event(processed(b, true, 1), 7);
    assert_eq!(query(&mut manager, b, 7).unwrap().avg_response_time_ms, 1);
    manager.handle_event(processed(b, true, 0), 8);
    assert_eq!(query(&mut manager, b, 8).unwrap().avg_response_time_ms, 0);
    manager.handle_event(processed(b, true, 77), 9);
    assert_eq!(query(&mut manager, b, 9).unwrap().avg_response_time_ms, 77);
}

#[test]
fn errors_never_exceed_requests() {
    let mut manager = StatsManager::new(StatsConfig::default());
    let peers = [PeerAddr::v4(1, 1, 1, 1, 1), PeerAddr::v4(2, 2, 2, 2, 2), PeerAddr::v6(3, 3)];
    let mut seed: u32 = 12345;
    for step in 0..500u64 {
        seed = seed.wrapping_mul(1_103_515_245).wrapping_add(12345);
        let peer = peers[(seed >> 16) as usize % peers.len()];
        let event = match (seed >> 8) % 4 {
            0 => StatEvent::ClientConnected(peer),
            1 => StatEvent::ClientDisconnected(peer),
            2 => processed(peer, true, step),
            _ => processed(peer, false, step),
        };
        manager.handle_event(event, step);
        if step % 50 == 49 {
            manager.cleanup_idle_stats(step);
        }
        for p in peers {
            if let Some(c) = query(&mut manager, p, step) {
                assert!(c.total_errors <= c.total_requests);
            }
        }
        let snapshot = snapshot(&mut manager, step);
        assert!(snapshot.total_errors <= snapshot.total_requests);
    }
}

#[test]
fn snapshot_adds_up_the_clients() {
    let a = PeerAddr::v4(1, 1, 1, 1, 1);
    let b = PeerAddr::v4(2, 2, 2, 2, 2);
    let c = PeerAddr::v4(3, 3, 3, 3, 3);
    let stats = vec![
        (
            a,
            ClientStats {
                active_connections: 2,
                total_requests: 120,
                total_errors: 3,
                last_active: 100_000,
                last_error: Some(90_000),
                avg_response_time_ms: 10,
            },
        ),
        (
            b,
            ClientStats {
                active_connections: 1,
                total_requests: 60,
                total_errors: 0,
                last_active: 40_000,
                last_error: None,
                avg_response_time_ms: 0,
            },
        ),
        (
            c,
            ClientStats {
                active_connections: 0,
                total_requests: 7,
                total_errors: 7,
                last_active: 39_999,
                last_error: Some(39_999),
                avg_response_time_ms: 25,
            },
        ),
    ];
    let snapshot = ConnectionStats::from_client_stats(&stats, 100_000);
    assert_eq!(snapshot.active_connections, 3);
    assert_eq!(snapshot.total_connections, 3);
    assert_eq!(snapshot.total_requests, 187);
    assert_eq!(snapshot.total_errors, 10);
    // a is current and b was heard of exactly a minute ago; c is older.
    assert_eq!(snapshot.recent_requests, 180);
    assert_eq!(ConnectionStats::calculate_requests_per_second(&stats, 100_000), 180);
    assert_eq!(ConnectionStats::calculate_requests_per_second(&stats, 100_001), 120);
    // A client that was heard of after `now` is not counted.
    assert_eq!(ConnectionStats::calculate_requests_per_second(&stats, 39_999), 7);
    // The mean of 10 and 25, rounded down; the client without an average is left out.
    assert_eq!(snapshot.avg_response_time_ms, 17);
    assert_eq!(snapshot.per_ip_stats.len(), 3);
    assert_eq!(snapshot.per_ip_stats[0].0, a);
    assert_eq!(
        snapshot.per_ip_stats[2],
        (
            c,
            IpStats {
                active_connections: 0,
                total_requests: 7,
                total_errors: 7,
                last_active: 39_999,
                last_error: Some(39_999),
                avg_response_time_ms: 25,
            }
        )
    );
    assert_eq!(tally(&stats, Tally::Averaged), 2);
    assert_eq!(tally(&stats, Tally::ResponseTime), 35);
    let empty = ConnectionStats::from_client_stats(&Vec::new(), 5);
    assert_eq!(empty.active_connections, 0);
    assert_eq!(empty.avg_response_time_ms, 0);
    assert_eq!(empty.recent_requests, 0);
    assert!(empty.per_ip_stats.is_empty());
}

#[test]
fn sums_are_held_at_the_largest_value() {
    let a = PeerAddr::v4(1, 1, 1, 1, 1);
    let b = PeerAddr::v4(2, 2, 2, 2, 2);
    let full = ClientStats {
        active_connections: u64::MAX,
        total_requests: u64::MAX,
        total_errors: u64::MAX,
        last_active: 0,
        last_error: None,
        avg_response_time_ms: u64::MAX,
    };
    let stats = vec![(a, full), (b, full)];
    let snapshot = ConnectionStats::from_client_stats(&stats, 0);
    assert_eq!(snapshot.active_connections, u64::MAX);
    assert_eq!(snapshot.total_requests, u64::MAX);
    assert_eq!(snapshot.total_errors, u64::MAX);
    assert_eq!(snapshot.recent_requests, u64::MAX);
    assert_eq!(snapshot.avg_response_time_ms, u64::MAX);
    assert_eq!(tally(&stats, Tally::Requests), 2 * (u64::MAX as u128));
    assert_eq!(saturate(u64::MAX as u128 + 1), u64::MAX);
    assert_eq!(saturate(17), 17);

    let mut manager = StatsManager::new(StatsConfig::default());
    manager.handle_event(StatEvent::ClientConnected(a), 0);
    assert_eq!(ClientStats::new(9).last_active, 9);
}

#[test]
fn cleanup_keeps_the_recent_and_the_recently_failed() {
    let config = StatsConfig { idle_timeout_ms: 100, error_timeout_ms: 1000, ..Default::default() };
    let mut manager = StatsManager::new(config);
    let idle = PeerAddr::v4(1, 1, 1, 1, 1);
    let edge = PeerAddr::v4(2, 2, 2, 2, 2);
    let failed = PeerAddr::v4(3, 3, 3, 3, 3);
    let stale_failure = PeerAddr::v4(4, 4, 4, 4, 4);
    let future = PeerAddr::v4(5, 5, 5, 5, 5);
    manager.handle_event(processed(stale_failure, false, 1), 0);
    manager.handle_event(processed(failed, false, 1), 1_000);
    manager.handle_event(StatEvent::ClientConnected(idle), 1_899);
    manager.handle_event(StatEvent::ClientConnected(edge), 1_900);
    manager.handle_event(StatEvent::ClientConnected(future), 5_000);
    manager.cleanup_idle_stats(2_000);
    assert!(manager.get(idle).is_none());
    assert!(manager.get(edge).is_some());
    assert!(manager.get(failed).is_some());
    assert!(manager.get(stale_failure).is_none());
    assert!(manager.get(future).is_some());
    let left: Vec<PeerAddr> = snapshot(&mut manager, 2_000).per_ip_stats.iter().map(|e| e.0).collect();
    assert_eq!(left, vec![failed, edge, future]);
    manager.cleanup_idle_stats(2_001);
    assert!(manager.get(edge).is_none());
    assert!(manager.get(failed).is_none());
}

#[test]
fn test_error_recording() {
    let mut manager = StatsManager::new(StatsConfig::default());
    let addr = PeerAddr::v4(127, 0, 0, 1, 1234);

    // Record some errors
    manager.handle_event(processed(addr, false, 5), 1);

    // Verify error was recorded
    let stats = snapshot(&mut manager, 2);
    assert_eq!(stats.total_errors, 1);
    assert!(stats.per_ip_stats.iter().find(|e| e.0 == addr).unwrap().1.total_errors == 1);
}
