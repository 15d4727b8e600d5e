use anylist_rs::realtime::reconnect::ReconnectionStrategy;
use std::time::Duration;

#[test]
fn test_exponential_backoff() {
    let mut strategy = ReconnectionStrategy::new();

    assert_eq!(strategy.next_delay(), Duration::from_secs(2));
    assert_eq!(strategy.next_delay(), Duration::from_secs(4));
    assert_eq!(strategy.next_delay(), Duration::from_secs(8));
    assert_eq!(strategy.next_delay(), Duration::from_secs(16));
    assert_eq!(strategy.next_delay(), Duration::from_secs(32));
    assert_eq!(strategy.next_delay(), Duration::from_secs(64));
    assert_eq!(strategy.next_delay(), Duration::from_secs(120)); // capped
    assert_eq!(strategy.next_delay(), Duration::from_secs(120)); // stays capped

    strategy.reset();
    assert_eq!(strategy.next_delay(), Duration::from_secs(2));
}

#[test]
fn backoff_never_shrinks_and_respects_the_cap() {
    let mut strategy = ReconnectionStrategy::new();
    let mut previous = Duration::from_secs(0);
    for _ in 0..40 {
        let delay = strategy.next_delay();
        assert!(delay >= previous);
        assert!(delay <= Duration::from_secs(120));
        assert!(delay >= Duration::from_secs(2));
        previous = delay;
    }
    assert_eq!(previous, Duration::from_secs(120));
}

#[test]
fn reset_of_a_fresh_strategy_changes_nothing() {
    let mut strategy = ReconnectionStrategy::new();
    strategy.reset();
    assert_eq!(strategy.next_delay(), Duration::from_secs(2));
    strategy.reset();
    strategy.reset();
    assert_eq!(strategy.next_delay(), Duration::from_secs(2));
    assert_eq!(strategy.next_delay(), Duration::from_secs(4));
}
