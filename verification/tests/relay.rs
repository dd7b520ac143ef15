//! Supernode-side behaviour: relay fan-out, heartbeat filtering and
//! broadcast, and registry maintenance.

use overlay::registry::Registry;
use overlay::relay::RelayAction;
use overlay::relay::RelayEvent;
use overlay::relay::heartbeat_tick;
use overlay::relay::relay_step;

fn sorted_addresses(pairs: &[(String, u64)]) -> Vec<String> {
    let mut addrs: Vec<String> = pairs.iter().map(|p| p.0.clone()).collect();
    addrs.sort();
    addrs
}

#[test]
fn relay_fanout_reaches_every_other_peer() {
    let mut reg = Registry::new();
    reg.register("Y:5000".to_string(), 1);
    reg.register("Z:6000".to_string(), 2);
    reg.register("W:7000".to_string(), 3);

    let sender = "Y:5000".to_string();
    let act = relay_step(&mut reg, &sender, RelayEvent::Received("hello".to_string()));
    match act {
        RelayAction::Forward(targets, payload) => {
            assert_eq!(payload, "hello");
            assert_eq!(
                sorted_addresses(&targets),
                vec!["W:7000".to_string(), "Z:6000".to_string()]
            );
            for (addr, conn) in &targets {
                assert_ne!(addr, "Y:5000");
                match addr.as_str() {
                    "Z:6000" => assert_eq!(*conn, 2),
                    "W:7000" => assert_eq!(*conn, 3),
                    other => panic!("unexpected target {}", other),
                }
            }
        }
        other => panic!("expected Forward, got {:?}", other),
    }
}

#[test]
fn relay_with_single_peer_has_no_targets() {
    let mut reg = Registry::new();
    reg.register("Y:5000".to_string(), 1);
    let sender = "Y:5000".to_string();
    let act = relay_step(&mut reg, &sender, RelayEvent::Received("hello".to_string()));
    match act {
        RelayAction::Forward(targets, payload) => {
            assert_eq!(payload, "hello");
            assert!(targets.is_empty());
        }
        other => panic!("expected Forward, got {:?}", other),
    }
}

#[test]
fn heartbeat_from_peer_is_never_relayed() {
    let mut reg = Registry::new();
    reg.register("Y:5000".to_string(), 1);
    reg.register("Z:6000".to_string(), 2);
    let sender = "Y:5000".to_string();
    let act = relay_step(&mut reg, &sender, RelayEvent::Received("HEARTBEAT".to_string()));
    assert_eq!(act, RelayAction::Ignore);
}

#[test]
fn empty_read_is_a_no_op() {
    let mut reg = Registry::new();
    reg.register("Y:5000".to_string(), 1);
    reg.register("Z:6000".to_string(), 2);
    let sender = "Z:6000".to_string();
    let act = relay_step(&mut reg, &sender, RelayEvent::Received(String::new()));
    assert_eq!(act, RelayAction::Ignore);
    let mut addrs = reg.addresses();
    addrs.sort();
    assert_eq!(addrs, vec!["Y:5000".to_string(), "Z:6000".to_string()]);
}

#[test]
fn read_error_removes_peer_and_stops_relaying_to_it() {
    let mut reg = Registry::new();
    reg.register("Y:5000".to_string(), 1);
    reg.register("Z:6000".to_string(), 2);
    reg.register("W:7000".to_string(), 3);

    let failed = "Y:5000".to_string();
    let act = relay_step(&mut reg, &failed, RelayEvent::ReadError);
    assert_eq!(act, RelayAction::Disconnect);

    let mut addrs = reg.addresses();
    addrs.sort();
    assert_eq!(addrs, vec!["W:7000".to_string(), "Z:6000".to_string()]);
    assert!(!reg.contains(&failed));

    let sender = "Z:6000".to_string();
    let act = relay_step(&mut reg, &sender, RelayEvent::Received("again".to_string()));
    match act {
        RelayAction::Forward(targets, _) => {
            assert_eq!(sorted_addresses(&targets), vec!["W:7000".to_string()]);
        }
        other => panic!("expected Forward, got {:?}", other),
    }
}

#[test]
fn heartbeat_tick_sends_marker_to_every_peer() {
    let mut reg = Registry::new();
    reg.register("Y:5000".to_string(), 1);
    reg.register("Z:6000".to_string(), 2);
    let (targets, marker) = heartbeat_tick(&reg);
    assert_eq!(marker, "HEARTBEAT");
    assert_eq!(
        sorted_addresses(&targets),
        vec!["Y:5000".to_string(), "Z:6000".to_string()]
    );
}

#[test]
fn register_overwrites_prior_connection() {
    let mut reg = Registry::new();
    reg.register("Y:5000".to_string(), 1);
    reg.register("Y:5000".to_string(), 9);
    let snapshot = reg.snapshot_for_broadcast();
    assert_eq!(snapshot.len(), 1);
    assert_eq!(snapshot[0].0, "Y:5000");
    assert_eq!(snapshot[0].1, 9);
}

#[test]
fn remove_of_absent_address_is_a_no_op() {
    let mut reg = Registry::new();
    reg.register("Y:5000".to_string(), 1);
    reg.remove(&"Z:6000".to_string());
    assert_eq!(reg.addresses(), vec!["Y:5000".to_string()]);
}

#[test]
fn contains_tracks_registration() {
    let mut reg = Registry::new();
    let addr = "Y:5000".to_string();
    assert!(!reg.contains(&addr));
    reg.register(addr.clone(), 1);
    assert!(reg.contains(&addr));
    reg.remove(&addr);
    assert!(!reg.contains(&addr));
}
