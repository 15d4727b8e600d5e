use anylist_rs::realtime::sync::{
    ConnectAction, ConnectionState, Frame, HeartbeatAction, InstallAction, MonitorAction,
    RealtimeSync,
};
use anylist_rs::realtime::SyncEvent;
use anylist_rs::AnyListError;
use std::time::Duration;

fn connected() -> RealtimeSync {
    let mut sync = RealtimeSync::new();
    assert_eq!(sync.connect().unwrap(), ConnectAction::OpenTransport);
    assert_eq!(sync.connect_finished(Ok(())).unwrap(), InstallAction::Install);
    sync
}

fn network_message(error: AnyListError) -> String {
    match error {
        AnyListError::NetworkError(msg) => msg,
        other => panic!("expected a network error, got {:?}", other),
    }
}

#[test]
fn a_new_connection_is_disconnected() {
    let sync = RealtimeSync::new();
    assert_eq!(sync.state(), ConnectionState::Disconnected);
    assert!(!sync.is_connected());
    assert_eq!(sync.missed_heartbeats(), 0);
}

#[test]
fn connect_passes_through_connecting_to_connected() {
    let mut sync = RealtimeSync::new();
    assert_eq!(sync.connect().unwrap(), ConnectAction::OpenTransport);
    assert_eq!(sync.state(), ConnectionState::Connecting);
    assert!(!sync.is_connected());
    assert_eq!(sync.connect_finished(Ok(())).unwrap(), InstallAction::Install);
    assert_eq!(sync.state(), ConnectionState::Connected);
    assert!(sync.is_connected());
}

#[test]
fn connect_while_connected_or_connecting_is_a_no_op() {
    let mut sync = RealtimeSync::new();
    sync.connect().unwrap();
    assert_eq!(sync.connect().unwrap(), ConnectAction::AlreadyActive);
    assert_eq!(sync.state(), ConnectionState::Connecting);
    sync.connect_finished(Ok(())).unwrap();
    assert_eq!(sync.connect().unwrap(), ConnectAction::AlreadyActive);
    assert_eq!(sync.state(), ConnectionState::Connected);
}

#[test]
fn failed_open_returns_to_disconnected_with_the_reason() {
    let mut sync = RealtimeSync::new();
    sync.connect().unwrap();
    let error = sync.connect_finished(Err("dns failure".to_string())).unwrap_err();
    assert_eq!(network_message(error), "WebSocket connection failed: dns failure");
    assert_eq!(sync.state(), ConnectionState::Disconnected);
    assert_eq!(sync.connect().unwrap(), ConnectAction::OpenTransport);
}

#[test]
fn connect_after_disconnect_is_refused() {
    let mut sync = connected();
    assert!(sync.disconnect().is_ok());
    assert_eq!(sync.state(), ConnectionState::Closed);
    let error = sync.connect().unwrap_err();
    assert_eq!(network_message(error), "Cannot connect after permanent closure");
    assert_eq!(sync.state(), ConnectionState::Closed);
}

#[test]
fn reconnect_after_disconnect_is_refused() {
    let mut sync = RealtimeSync::new();
    sync.disconnect().unwrap();
    let error = sync.reconnect().unwrap_err();
    assert_eq!(network_message(error), "Cannot reconnect after permanent closure");
    assert_eq!(sync.state(), ConnectionState::Closed);
}

#[test]
fn disconnect_is_idempotent_and_closed_is_final() {
    let mut sync = connected();
    assert!(sync.disconnect().is_ok());
    assert!(sync.disconnect().is_ok());
    assert_eq!(sync.state(), ConnectionState::Closed);
    sync.handle_close(Some(1000));
    assert_eq!(sync.state(), ConnectionState::Closed);
    sync.handle_close(Some(1006));
    assert_eq!(sync.handle_message(Err("broken pipe".to_string())), (false, None));
    assert_eq!(sync.heartbeat_tick(), HeartbeatAction::Stop);
    assert!(!sync.send_heartbeat(false));
    assert_eq!(sync.poll_reconnection(), MonitorAction::Stop);
    assert_eq!(sync.attempt_reconnect(Ok(())).unwrap(), InstallAction::Discard);
    assert_eq!(sync.connect_finished(Ok(())).unwrap(), InstallAction::Discard);
    assert_eq!(sync.state(), ConnectionState::Closed);
}

#[test]
fn normal_closure_disconnects_without_retry() {
    let mut sync = connected();
    assert_eq!(sync.handle_message(Ok(Frame::Close(Some(1000)))), (false, None));
    assert_eq!(sync.state(), ConnectionState::Disconnected);
    for _ in 0..5 {
        assert_eq!(sync.poll_reconnection(), MonitorAction::Idle);
        assert_eq!(sync.heartbeat_tick(), HeartbeatAction::Stop);
        assert_eq!(sync.state(), ConnectionState::Disconnected);
    }
}

#[test]
fn abnormal_closure_reconnects_until_the_transport_opens() {
    let mut sync = connected();
    assert_eq!(sync.handle_message(Ok(Frame::Close(Some(1006)))), (false, None));
    assert_eq!(sync.state(), ConnectionState::Reconnecting);

    assert_eq!(sync.poll_reconnection(), MonitorAction::Retry(Duration::from_secs(2)));
    let error = sync.attempt_reconnect(Err("refused".to_string())).unwrap_err();
    assert_eq!(network_message(error), "Reconnection failed: refused");
    assert_eq!(sync.state(), ConnectionState::Reconnecting);

    assert_eq!(sync.poll_reconnection(), MonitorAction::Retry(Duration::from_secs(4)));
    assert!(sync.attempt_reconnect(Err("refused".to_string())).is_err());
    assert_eq!(sync.poll_reconnection(), MonitorAction::Retry(Duration::from_secs(8)));

    assert_eq!(sync.attempt_reconnect(Ok(())).unwrap(), InstallAction::Install);
    assert_eq!(sync.state(), ConnectionState::Connected);
    assert_eq!(sync.missed_heartbeats(), 0);
    assert_eq!(sync.poll_reconnection(), MonitorAction::Idle);

    // A later outage starts the backoff afresh.
    sync.handle_close(None);
    assert_eq!(sync.state(), ConnectionState::Reconnecting);
    assert_eq!(sync.poll_reconnection(), MonitorAction::Retry(Duration::from_secs(2)));
}

#[test]
fn expired_credential_reconnects() {
    let mut sync = connected();
    sync.handle_close(Some(4010));
    assert_eq!(sync.state(), ConnectionState::Reconnecting);
}

#[test]
fn receive_and_send_failures_reconnect() {
    let mut sync = connected();
    assert_eq!(sync.handle_message(Err("reset by peer".to_string())), (false, None));
    assert_eq!(sync.state(), ConnectionState::Reconnecting);

    let mut sync = connected();
    assert_eq!(sync.heartbeat_tick(), HeartbeatAction::Send("--heartbeat--"));
    assert!(!sync.send_heartbeat(false));
    assert_eq!(sync.state(), ConnectionState::Reconnecting);
    assert_eq!(sync.heartbeat_tick(), HeartbeatAction::Stop);
}

#[test]
fn backoff_of_the_monitor_is_capped() {
    let mut sync = connected();
    sync.handle_close(Some(1011));
    let expected = [2u64, 4, 8, 16, 32, 64, 120, 120, 120];
    for secs in expected {
        assert_eq!(sync.poll_reconnection(), MonitorAction::Retry(Duration::from_secs(secs)));
        assert!(sync.attempt_reconnect(Err("down".to_string())).is_err());
        assert_eq!(sync.state(), ConnectionState::Reconnecting);
    }
}

#[test]
fn manual_reconnect() {
    let mut sync = connected();
    assert!(sync.reconnect().is_ok());
    assert_eq!(sync.state(), ConnectionState::Connected);

    let mut sync = RealtimeSync::new();
    assert!(sync.reconnect().is_ok());
    assert_eq!(sync.state(), ConnectionState::Reconnecting);
    assert_eq!(sync.connect().unwrap(), ConnectAction::OpenTransport);
    assert_eq!(sync.state(), ConnectionState::Connecting);
}

#[test]
fn regular_heartbeats_keep_the_connection_alive() {
    // The peer sends a heartbeat every 4 seconds, the timer ticks every 5.
    let mut sync = connected();
    let mut next_pulse = 4u64;
    let mut next_tick = 5u64;
    while next_tick <= 3600 {
        if next_pulse < next_tick {
            let handled = sync.handle_message(Ok(Frame::Text("--heartbeat--".to_string())));
            assert_eq!(handled, (true, None));
            next_pulse += 4;
        } else {
            assert_eq!(sync.heartbeat_tick(), HeartbeatAction::Send("--heartbeat--"));
            assert!(sync.send_heartbeat(true));
            assert!(sync.missed_heartbeats() < 3);
            next_tick += 5;
        }
        assert_eq!(sync.state(), ConnectionState::Connected);
        assert_eq!(sync.poll_reconnection(), MonitorAction::Idle);
    }
}

#[test]
fn silence_is_detected_within_three_ticks() {
    let mut sync = connected();
    assert_eq!(sync.heartbeat_tick(), HeartbeatAction::Send("--heartbeat--"));
    assert!(sync.send_heartbeat(true));
    assert_eq!(sync.missed_heartbeats(), 1);
    assert_eq!(sync.heartbeat_tick(), HeartbeatAction::Send("--heartbeat--"));
    assert!(sync.send_heartbeat(true));
    assert_eq!(sync.missed_heartbeats(), 2);
    assert_eq!(sync.state(), ConnectionState::Connected);
    assert_eq!(sync.heartbeat_tick(), HeartbeatAction::Stop);
    assert_eq!(sync.state(), ConnectionState::Reconnecting);
    assert_eq!(sync.poll_reconnection(), MonitorAction::Retry(Duration::from_secs(2)));
}

#[test]
fn events_are_forwarded_in_order_and_heartbeats_are_not() {
    let mut sync = connected();
    sync.heartbeat_tick();
    let frames = ["refresh-shopping-lists", "--heartbeat--", "refresh-account-info"];
    let mut recorded = Vec::new();
    for frame in frames {
        let (proceed, event) = sync.handle_message(Ok(Frame::Text(frame.to_string())));
        assert!(proceed);
        if let Some(event) = event {
            recorded.push(event);
        }
    }
    assert_eq!(
        recorded,
        vec![SyncEvent::ShoppingListsChanged, SyncEvent::AccountInfoChanged]
    );
    assert_eq!(sync.missed_heartbeats(), 0);
    assert_eq!(sync.state(), ConnectionState::Connected);
}

#[test]
fn unknown_text_and_other_frames_are_ignored() {
    let mut sync = connected();
    assert_eq!(sync.handle_message(Ok(Frame::Text("future-event".to_string()))), (true, None));
    assert_eq!(sync.handle_message(Ok(Frame::Other)), (true, None));
    assert_eq!(sync.handle_text_message("did-delete-account"), Some(SyncEvent::AccountDeleted));
    assert_eq!(sync.handle_text_message("--heartbeat--"), None);
    assert_eq!(sync.state(), ConnectionState::Connected);
}

#[test]
fn a_transport_opened_too_late_is_discarded() {
    let mut sync = RealtimeSync::new();
    sync.connect().unwrap();
    sync.reconnect().unwrap();
    assert_eq!(sync.state(), ConnectionState::Reconnecting);
    assert_eq!(sync.connect_finished(Ok(())).unwrap(), InstallAction::Discard);
    assert_eq!(sync.state(), ConnectionState::Reconnecting);
    assert!(sync.connect_finished(Err("late".to_string())).is_err());
    assert_eq!(sync.state(), ConnectionState::Reconnecting);
}

#[test]
fn the_monitor_looks_once_per_second() {
    assert_eq!(RealtimeSync::poll_interval(), Duration::from_secs(1));
}
