use monitor_controller::config_manager::{ChannelInfo, ChannelLookupEntry, Layout};
use monitor_controller::interaction::InteractionManager;
use monitor_controller::osc::{
    handle_osc_message, outgoing_packets, parse_osc_address, OscAddress, OscArg, OscOutMessage, OscSharedState,
    OscValue,
};
use monitor_controller::osc_feedback::blink_messages;
use monitor_controller::web_protocol::ChannelLedState;

fn value(v: f32) -> OscValue {
    OscValue {
        above_half: v > 0.5,
        rounded: v.round().clamp(0.0, 255.0) as u8,
        volume_bits: v.clamp(0.0, 1.0).to_bits(),
    }
}

fn layout(names: &[&str]) -> Layout {
    Layout {
        name: "t".to_string(),
        width: 5,
        height: 5,
        main_channels: names
            .iter()
            .enumerate()
            .map(|(i, n)| ChannelInfo { name: n.to_string(), grid_pos: i as u32, channel_index: i })
            .collect(),
        sub_channels: Vec::new(),
        total_channels: names.len(),
        channel_by_index: [ChannelLookupEntry::default(); 32],
    }
}

fn connected_state(names: &[&str]) -> OscSharedState {
    let mut s = OscSharedState::new();
    s.sender_connected = true;
    s.update_layout_channels(&layout(names));
    s
}

#[test]
fn addresses_are_classified() {
    assert_eq!(parse_osc_address("/Monitor/Mode/Solo"), OscAddress::ModeSolo);
    assert_eq!(parse_osc_address("/Monitor/Master/Effect/Low_Boost"), OscAddress::LowBoost);
    assert_eq!(parse_osc_address("/Monitor/LFE/Add_10dB"), OscAddress::LfeAdd10dB);
    assert_eq!(parse_osc_address("/Monitor/Channel/L"), OscAddress::Channel);
    assert_eq!(parse_osc_address("/Monitor/Channel"), OscAddress::Unknown);
    assert_eq!(parse_osc_address("/monitor/mode/solo"), OscAddress::Unknown);
}

#[test]
fn solo_toggle_reports_buttons_and_leds() {
    let mut im = InteractionManager::new();
    let mut s = connected_state(&["L", "R"]);
    handle_osc_message("/Monitor/Mode/Solo", value(1.0), &mut im, &mut s);
    assert!(im.is_solo_active());
    assert_eq!(s.outbox.len(), 4);
    assert!(matches!(s.outbox[0], OscOutMessage::ModeSolo { on: true }));
    assert!(matches!(s.outbox[1], OscOutMessage::ModeMute { on: false }));
    assert!(matches!(&s.outbox[2], OscOutMessage::ChannelLed { channel, state: ChannelLedState::Off } if channel == "L"));
}

#[test]
fn low_values_are_ignored_and_two_arms_a_mode() {
    let mut im = InteractionManager::new();
    let mut s = connected_state(&["L"]);
    handle_osc_message("/Monitor/Mode/Solo", value(0.2), &mut im, &mut s);
    assert!(im.is_idle() && s.outbox.is_empty());
    handle_osc_message("/Monitor/Mode/Mute", value(2.0), &mut im, &mut s);
    assert!(s.pending_mute && im.is_idle());
    handle_osc_message("/Monitor/Channel/L", value(11.0), &mut im, &mut s);
    assert!(!s.pending_mute);
    assert!(im.is_mute_active());
    assert!(im.is_in_mute_set("L"));
}

#[test]
fn master_controls_update_pending_values() {
    let mut im = InteractionManager::new();
    let mut s = connected_state(&[]);
    handle_osc_message("/Monitor/Master/Volume", value(1.7), &mut im, &mut s);
    assert_eq!(s.take_pending_volume(), Some(1.0f32.to_bits()));
    handle_osc_message("/Monitor/Master/Dim", value(1.0), &mut im, &mut s);
    assert_eq!(s.take_pending_dim(), Some(true));
    handle_osc_message("/Monitor/Master/Dim", value(1.0), &mut im, &mut s);
    assert_eq!(s.take_pending_dim(), Some(false));
    handle_osc_message("/Monitor/Master/Cut", value(2.0), &mut im, &mut s);
    assert_eq!(s.take_pending_cut(), Some(true));
    handle_osc_message("/Monitor/Master/Effect/Mono", value(1.0), &mut im, &mut s);
    assert!(s.get_mono());
    handle_osc_message("/Nothing", value(1.0), &mut im, &mut s);
    assert!(s.take_repaint_request());
    assert!(!s.take_repaint_request());
}

#[test]
fn channel_commands_ignore_unknown_channels() {
    let mut im = InteractionManager::new();
    im.on_solo_button_click();
    let mut s = connected_state(&["L"]);
    handle_osc_message("/Monitor/Channel/R", value(1.0), &mut im, &mut s);
    assert!(!im.is_in_solo_set("R"));
    assert!(s.outbox.is_empty());
    handle_osc_message("/Monitor/Channel/L", value(1.0), &mut im, &mut s);
    assert!(im.is_in_solo_set("L"));
    assert_eq!(s.outbox.len(), 3);
}

#[test]
fn nothing_is_queued_without_a_sender() {
    let mut im = InteractionManager::new();
    let mut s = OscSharedState::new();
    s.update_layout_channels(&layout(&["L"]));
    handle_osc_message("/Monitor/Mode/Solo", value(1.0), &mut im, &mut s);
    assert!(im.is_solo_active());
    assert!(s.outbox.is_empty());
}

#[test]
fn removed_channels_are_switched_off() {
    let im = InteractionManager::new();
    let mut s = connected_state(&["L", "R", "C"]);
    s.update_layout_channels(&layout(&["L", "R"]));
    s.broadcast_channel_states(&im);
    assert_eq!(s.outbox.len(), 3);
    assert!(matches!(&s.outbox[2], OscOutMessage::ChannelLed { channel, state: ChannelLedState::Off } if channel == "C"));
}

#[test]
fn packets_of_messages() {
    let p = outgoing_packets(&OscOutMessage::ChannelLed { channel: "LFE".to_string(), state: ChannelLedState::Solo });
    assert_eq!(p.len(), 1);
    assert_eq!(p[0].address, "/Monitor/Channel/LFE");
    assert_eq!(p[0].arg, OscArg::Led(2));
    let v = outgoing_packets(&OscOutMessage::MasterVolume { value_bits: 0.5f32.to_bits() });
    assert_eq!(v[0].address, "/Monitor/Master/Volume");
    assert_eq!(v[0].arg, OscArg::VolumeBits(0.5f32.to_bits()));
    let all = outgoing_packets(&OscOutMessage::BroadcastAll {
        channel_count: 2,
        master_volume_bits: 0,
        dim: true,
        cut: false,
        channel_states: vec![("L".to_string(), 1), ("R".to_string(), 0)],
        solo_active: false,
        mute_active: true,
    });
    assert_eq!(all.len(), 7);
    assert_eq!(all[1].arg, OscArg::Flag(true));
    assert_eq!(all[3].address, "/Monitor/Master/Dim");
    assert_eq!(all[5].address, "/Monitor/Channel/L");
    assert_eq!(all[5].arg, OscArg::Led(1));
}

#[test]
fn blink_step_lights_and_darkens_the_compare_set() {
    let mut im = InteractionManager::new();
    im.on_mute_button_click();
    im.on_channel_click("L");
    im.on_solo_button_click();
    let on = blink_messages(&im, true);
    assert_eq!(on.len(), 2);
    assert!(matches!(&on[0], OscOutMessage::ChannelLed { channel, state: ChannelLedState::Solo } if channel == "L"));
    assert!(matches!(on[1], OscOutMessage::ModeSolo { on: true }));
    let off = blink_messages(&im, false);
    assert!(matches!(&off[0], OscOutMessage::ChannelLed { state: ChannelLedState::Off, .. }));
    assert!(matches!(off[1], OscOutMessage::ModeSolo { on: false }));
    assert!(blink_messages(&InteractionManager::new(), true).is_empty());
}

#[test]
fn full_broadcast_lists_current_channels() {
    let mut im = InteractionManager::new();
    im.on_solo_button_click();
    im.on_channel_click("R");
    let mut s = connected_state(&["L", "R"]);
    s.broadcast_state(2, 0.75f32.to_bits(), false, true, Some(&im));
    match &s.outbox[0] {
        OscOutMessage::BroadcastAll { channel_count, master_volume_bits, cut, channel_states, solo_active, mute_active, .. } => {
            assert_eq!(*channel_count, 2);
            assert_eq!(*master_volume_bits, 0.75f32.to_bits());
            assert!(*cut && *solo_active && !*mute_active);
            assert_eq!(channel_states, &vec![("L".to_string(), 1), ("R".to_string(), 2)]);
        }
        _ => panic!("expected a full broadcast"),
    }
    let mut t = connected_state(&["L"]);
    t.broadcast_state(1, 0, false, false, None);
    assert!(matches!(&t.outbox[0], OscOutMessage::BroadcastAll { channel_states, .. } if channel_states.is_empty()));
}
