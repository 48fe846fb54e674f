use std::time::{Duration, SystemTime};

use wardnet::wireguard::{aggregate_peer_stats, checked_aggregate_peer_stats, PeerStatsInput};

fn nanos(t: SystemTime) -> i128 {
    t.duration_since(SystemTime::UNIX_EPOCH).unwrap().as_nanos() as i128
}

#[test]
fn aggregate_empty_peers() {
    let stats = aggregate_peer_stats(&[]);

    assert_eq!(stats.bytes_tx, 0);
    assert_eq!(stats.bytes_rx, 0);
    assert!(stats.last_handshake.is_none());
}

#[test]
fn aggregate_single_peer() {
    let handshake = SystemTime::UNIX_EPOCH + Duration::from_secs(1000);
    let peers = vec![PeerStatsInput {
        tx_bytes: 100,
        rx_bytes: 200,
        last_handshake_time: Some(nanos(handshake)),
    }];

    let stats = aggregate_peer_stats(&peers);

    assert_eq!(stats.bytes_tx, 100);
    assert_eq!(stats.bytes_rx, 200);
    assert_eq!(stats.last_handshake, Some(nanos(handshake)));
}

#[test]
fn aggregate_multiple_peers_sums_bytes() {
    let peers = vec![
        PeerStatsInput {
            tx_bytes: 100,
            rx_bytes: 200,
            last_handshake_time: None,
        },
        PeerStatsInput {
            tx_bytes: 300,
            rx_bytes: 400,
            last_handshake_time: None,
        },
    ];

    let stats = aggregate_peer_stats(&peers);

    assert_eq!(stats.bytes_tx, 400);
    assert_eq!(stats.bytes_rx, 600);
}

#[test]
fn aggregate_picks_latest_handshake() {
    let earlier = SystemTime::UNIX_EPOCH + Duration::from_secs(1000);
    let later = SystemTime::UNIX_EPOCH + Duration::from_secs(2000);

    let peers = vec![
        PeerStatsInput {
            tx_bytes: 0,
            rx_bytes: 0,
            last_handshake_time: Some(nanos(earlier)),
        },
        PeerStatsInput {
            tx_bytes: 0,
            rx_bytes: 0,
            last_handshake_time: Some(nanos(later)),
        },
    ];

    let stats = aggregate_peer_stats(&peers);

    assert_eq!(stats.last_handshake, Some(nanos(later)));
}

#[test]
fn aggregate_ignores_none_handshakes() {
    let handshake = SystemTime::UNIX_EPOCH + Duration::from_secs(1000);

    let peers = vec![
        PeerStatsInput {
            tx_bytes: 0,
            rx_bytes: 0,
            last_handshake_time: Some(nanos(handshake)),
        },
        PeerStatsInput {
            tx_bytes: 0,
            rx_bytes: 0,
            last_handshake_time: None,
        },
    ];

    let stats = aggregate_peer_stats(&peers);

    assert_eq!(stats.last_handshake, Some(nanos(handshake)));
}

#[test]
fn aggregate_all_none_handshakes() {
    let peers = vec![
        PeerStatsInput {
            tx_bytes: 10,
            rx_bytes: 20,
            last_handshake_time: None,
        },
        PeerStatsInput {
            tx_bytes: 30,
            rx_bytes: 40,
            last_handshake_time: None,
        },
    ];

    let stats = aggregate_peer_stats(&peers);

    assert_eq!(stats.bytes_tx, 40);
    assert_eq!(stats.bytes_rx, 60);
    assert!(stats.last_handshake.is_none());
}

#[test]
fn aggregate_latest_handshake_is_order_independent() {
    let peers = vec![
        PeerStatsInput { tx_bytes: 1, rx_bytes: 2, last_handshake_time: Some(5_000) },
        PeerStatsInput { tx_bytes: 3, rx_bytes: 4, last_handshake_time: None },
        PeerStatsInput { tx_bytes: 5, rx_bytes: 6, last_handshake_time: Some(1_000) },
    ];
    let stats = aggregate_peer_stats(&peers);
    assert_eq!(stats.bytes_tx, 9);
    assert_eq!(stats.bytes_rx, 12);
    assert_eq!(stats.last_handshake, Some(5_000));
}

#[test]
fn checked_aggregate_refuses_overflowing_totals() {
    let peers = vec![
        PeerStatsInput { tx_bytes: u64::MAX, rx_bytes: 1, last_handshake_time: None },
        PeerStatsInput { tx_bytes: 1, rx_bytes: 1, last_handshake_time: None },
    ];
    assert_eq!(checked_aggregate_peer_stats(&peers), None);

    let peers = vec![
        PeerStatsInput { tx_bytes: 1, rx_bytes: u64::MAX, last_handshake_time: None },
        PeerStatsInput { tx_bytes: 1, rx_bytes: 1, last_handshake_time: None },
    ];
    assert_eq!(checked_aggregate_peer_stats(&peers), None);
}

#[test]
fn checked_aggregate_matches_aggregate_when_totals_fit() {
    let peers = vec![
        PeerStatsInput { tx_bytes: u64::MAX - 1, rx_bytes: 7, last_handshake_time: Some(3) },
        PeerStatsInput { tx_bytes: 1, rx_bytes: 8, last_handshake_time: Some(9) },
    ];
    let stats = checked_aggregate_peer_stats(&peers).unwrap();
    assert_eq!(stats, aggregate_peer_stats(&peers));
    assert_eq!(stats.bytes_tx, u64::MAX);
    assert_eq!(stats.bytes_rx, 15);
    assert_eq!(stats.last_handshake, Some(9));
}
