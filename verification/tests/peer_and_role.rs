//! Peer-side behaviour: inbound classification, heartbeat tracking, the
//! failover watchdog, leader election, and the client's retry loop.

use overlay::peer::ClientAction;
use overlay::peer::ClientEvent;
use overlay::peer::ClientState;
use overlay::peer::HeartbeatClock;
use overlay::peer::PeerInbound;
use overlay::peer::check_supernode_alive;
use overlay::peer::classify_inbound;
use overlay::peer::client_step;
use overlay::protocol::HEARTBEAT_TIMEOUT_MS;
use overlay::protocol::RETRY_BACKOFF_MS;
use overlay::protocol::heartbeat_string;
use overlay::role::Role;
use overlay::role::WatchdogDecision;
use overlay::role::choose_role;
use overlay::role::watchdog_step;

#[test]
fn heartbeat_marker_is_recognised() {
    assert_eq!(heartbeat_string(), "HEARTBEAT");
    assert_eq!(classify_inbound("HEARTBEAT".to_string()), PeerInbound::Heartbeat);
}

#[test]
fn application_text_passes_through_unchanged() {
    assert_eq!(
        classify_inbound("hello".to_string()),
        PeerInbound::Application("hello".to_string())
    );
    assert_eq!(
        classify_inbound("HEARTBEAT ".to_string()),
        PeerInbound::Application("HEARTBEAT ".to_string())
    );
}

#[test]
fn supernode_alive_within_timeout_only() {
    let clock = HeartbeatClock::new(0);
    assert!(check_supernode_alive(&clock, 0));
    assert!(check_supernode_alive(&clock, HEARTBEAT_TIMEOUT_MS - 1));
    assert!(!check_supernode_alive(&clock, HEARTBEAT_TIMEOUT_MS));
    assert!(!check_supernode_alive(&clock, HEARTBEAT_TIMEOUT_MS + 1));
}

#[test]
fn clock_running_behind_counts_as_alive() {
    let clock = HeartbeatClock::new(5_000);
    assert!(check_supernode_alive(&clock, 4_000));
}

#[test]
fn heartbeat_at_second_nineteen_postpones_promotion() {
    let mut clock = HeartbeatClock::new(0);
    assert_eq!(watchdog_step(&clock, 19_000), WatchdogDecision::StayPeer);
    clock.observe_heartbeat(19_000);
    assert_eq!(watchdog_step(&clock, 20_000), WatchdogDecision::StayPeer);
    assert_eq!(watchdog_step(&clock, 38_999), WatchdogDecision::StayPeer);
    assert_eq!(watchdog_step(&clock, 39_000), WatchdogDecision::AttemptPromotion);
}

#[test]
fn missed_heartbeats_trigger_promotion_attempt() {
    let clock = HeartbeatClock::new(1_000);
    assert_eq!(watchdog_step(&clock, 1_000 + HEARTBEAT_TIMEOUT_MS - 1), WatchdogDecision::StayPeer);
    assert_eq!(
        watchdog_step(&clock, 1_000 + HEARTBEAT_TIMEOUT_MS),
        WatchdogDecision::AttemptPromotion
    );
}

#[test]
fn bind_outcome_decides_role() {
    assert_eq!(choose_role(true), Role::Supernode);
    assert_eq!(choose_role(false), Role::Peer);
}

#[test]
fn racing_binds_elect_exactly_one_supernode() {
    let first = choose_role(true);
    let second = choose_role(false);
    assert_eq!(first, Role::Supernode);
    assert_eq!(second, Role::Peer);
    assert_ne!(first, second);
}

#[test]
fn failed_connects_retry_with_fixed_backoff() {
    let mut state = ClientState::Connecting;
    for _ in 0..3 {
        let (next, action) = client_step(state, ClientEvent::ConnectFailed);
        assert_eq!(next, ClientState::Connecting);
        assert_eq!(action, ClientAction::RetryAfter(RETRY_BACKOFF_MS));
        state = next;
    }
    let (next, action) = client_step(state, ClientEvent::ConnectSucceeded("Y:5000".to_string()));
    assert_eq!(next, ClientState::Active);
    assert_eq!(action, ClientAction::Announce("Y:5000".to_string()));
}

#[test]
fn send_loop_ticks_and_falls_back_to_connecting() {
    let (state, action) = client_step(ClientState::Active, ClientEvent::SendTick);
    assert_eq!(state, ClientState::Active);
    assert_eq!(action, ClientAction::SendPayload);

    let (state, action) = client_step(ClientState::Active, ClientEvent::SendFailed);
    assert_eq!(state, ClientState::Connecting);
    assert_eq!(action, ClientAction::RetryAfter(RETRY_BACKOFF_MS));
}

#[test]
fn receive_failure_alone_does_not_reconnect() {
    let (state, action) = client_step(ClientState::Active, ClientEvent::RecvFailed);
    assert_eq!(state, ClientState::Active);
    assert_eq!(action, ClientAction::StopReceiving);
}

#[test]
fn mismatched_events_are_idle() {
    let (state, action) = client_step(ClientState::Connecting, ClientEvent::SendTick);
    assert_eq!(state, ClientState::Connecting);
    assert_eq!(action, ClientAction::Idle);

    let (state, action) = client_step(ClientState::Active, ClientEvent::ConnectFailed);
    assert_eq!(state, ClientState::Active);
    assert_eq!(action, ClientAction::Idle);
}
