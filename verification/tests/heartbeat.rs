use anylist_rs::realtime::heartbeat::HeartbeatManager;
use std::time::Duration;

#[test]
fn test_heartbeat_manager() {
    let mut mgr = HeartbeatManager::new();

    assert_eq!(mgr.increment_missed(), 1);
    assert_eq!(mgr.increment_missed(), 2);
    assert!(!mgr.is_dead());

    assert_eq!(mgr.increment_missed(), 3);
    assert!(mgr.is_dead());

    mgr.reset();
    assert!(!mgr.is_dead());
}

#[test]
fn heartbeat_interval_is_five_seconds() {
    let mgr = HeartbeatManager::new();
    assert_eq!(mgr.interval(), Duration::from_secs(5));
    assert_ne!(mgr.interval(), Duration::from_secs(0));
}

#[test]
fn heartbeat_reset_clears_any_count() {
    let mut mgr = HeartbeatManager::default();
    assert_eq!(mgr.missed_count(), 0);
    assert!(!mgr.is_dead());
    for expected in 1..=10u8 {
        assert_eq!(mgr.increment_missed(), expected);
        assert_eq!(mgr.missed_count(), expected);
        assert_eq!(mgr.is_dead(), expected >= 3);
    }
    mgr.reset();
    assert_eq!(mgr.missed_count(), 0);
    assert!(!mgr.is_dead());
    assert_eq!(mgr.increment_missed(), 1);
}
