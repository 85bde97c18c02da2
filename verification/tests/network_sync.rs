use monitor_controller::config::AppConfig;
use monitor_controller::interaction::{InteractionManager, PrimaryMode};
use monitor_controller::network_sync::{PacketOutcome, SlaveLink};

fn stamped(master: &InteractionManager, ts: u64) -> monitor_controller::network_protocol::NetworkInteractionState {
    let mut s = master.to_network_state(1.0f32.to_bits(), false, false, 0, 0);
    s.timestamp = ts;
    s
}

#[test]
fn states_are_applied_in_order() {
    let mut master = InteractionManager::new();
    master.on_solo_button_click();
    let mut slave = InteractionManager::new();
    let mut link = SlaveLink::new();
    assert_eq!(link.on_state(&stamped(&master, 1000), &mut slave), PacketOutcome::Applied { newly_connected: true });
    assert_eq!(slave.get_primary(), PrimaryMode::Solo);
    assert!(link.connected);
    assert_eq!(link.on_state(&stamped(&master, 1000), &mut slave), PacketOutcome::Applied { newly_connected: false });
    master.on_solo_button_click();
    assert_eq!(link.on_state(&stamped(&master, 999), &mut slave), PacketOutcome::OutOfOrder);
    assert_eq!(slave.get_primary(), PrimaryMode::Solo);
    assert_eq!(link.out_of_order_count, 1);
    assert_eq!(link.recv_count, 2);
}

#[test]
fn unstamped_states_are_ignored() {
    let master = InteractionManager::new();
    let mut slave = InteractionManager::new();
    let mut link = SlaveLink::new();
    let mut s = stamped(&master, 5);
    s.magic = 0;
    assert_eq!(link.on_state(&s, &mut slave), PacketOutcome::Ignored);
    assert!(!link.connected);
}

#[test]
fn a_jump_of_more_than_an_hour_restarts_the_order() {
    let master = InteractionManager::new();
    let mut slave = InteractionManager::new();
    let mut link = SlaveLink::new();
    link.on_state(&stamped(&master, 1_000), &mut slave);
    assert!(matches!(link.on_state(&stamped(&master, 5_000_000), &mut slave), PacketOutcome::Applied { .. }));
    assert_eq!(link.last_timestamp, 5_000_000);
}

#[test]
fn reconnect_delays_double_up_to_five_seconds() {
    let mut link = SlaveLink::new();
    let waits: Vec<u64> = (0..6).map(|_| link.on_connect_failed()).collect();
    assert_eq!(waits, vec![500, 1000, 2000, 4000, 5000, 5000]);
    link.on_connected();
    assert_eq!(link.on_connect_failed(), 500);
}

#[test]
fn five_errors_in_a_row_call_for_a_reconnection() {
    let mut link = SlaveLink::new();
    for _ in 0..4 {
        assert!(!link.on_recv_error());
    }
    assert!(link.on_recv_error());
    link.on_message();
    assert!(!link.on_recv_error());
}

#[test]
fn heartbeat_timeout_drops_received_values_and_requests_a_restart() {
    let master = InteractionManager::new();
    let mut slave = InteractionManager::new();
    let mut link = SlaveLink::new();
    assert!(!link.on_timeout(5000, &mut slave, AppConfig::default()));
    link.on_state(&stamped(&master, 10), &mut slave);
    assert!(!link.on_timeout(2000, &mut slave, AppConfig::default()));
    assert!(link.on_timeout(2001, &mut slave, AppConfig::default()));
    assert!(!link.connected);
    assert_eq!(slave.take_network_dim(), None);
    assert!(slave.has_network_restart_pending());
}
