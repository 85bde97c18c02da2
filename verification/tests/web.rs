use monitor_controller::interaction::{InteractionManager, PrimaryMode};
use monitor_controller::osc::OscSharedState;
use monitor_controller::web::{
    build_channel_states, build_web_state, get_group_channels, group_channels_of, handle_command_direct,
    WebCommand, WebSharedState, WebSwitches,
};

#[test]
fn groups_are_matched_without_case() {
    assert_eq!(get_group_channels("front"), vec!["L".to_string(), "R".to_string()]);
    assert_eq!(get_group_channels("Sub"), vec!["SUB_F", "SUB_B", "SUB_L", "SUB_R"]);
    assert_eq!(get_group_channels("TOP"), vec!["LTF", "RTF", "LTB", "RTB"]);
    assert_eq!(get_group_channels("bottom"), vec!["LBF", "RBF", "LBB", "RBB"]);
    assert_eq!(get_group_channels("center"), vec!["C"]);
    assert_eq!(get_group_channels("lfe"), vec!["LFE"]);
    assert_eq!(get_group_channels("surround"), vec!["LSS", "RSS"]);
    assert_eq!(get_group_channels("rear"), vec!["LRS", "RRS"]);
    assert!(get_group_channels("side").is_empty());
    assert!(group_channels_of("front").is_empty());
}

#[test]
fn a_slave_rejects_every_command() {
    let mut im = InteractionManager::new();
    let mut osc = OscSharedState::new();
    handle_command_direct(WebCommand::ToggleSolo, true, &mut im, &mut osc);
    handle_command_direct(WebCommand::ToggleDim, true, &mut im, &mut osc);
    assert!(im.is_idle());
    assert!(!osc.dim && !osc.dim_pending);
}

#[test]
fn mode_and_channel_commands_drive_the_interaction() {
    let mut im = InteractionManager::new();
    let mut osc = OscSharedState::new();
    handle_command_direct(WebCommand::ToggleSolo, false, &mut im, &mut osc);
    assert_eq!(im.get_primary(), PrimaryMode::Solo);
    handle_command_direct(WebCommand::ChannelClick { channel: "L".to_string() }, false, &mut im, &mut osc);
    assert!(im.is_in_solo_set("L"));
    handle_command_direct(WebCommand::GroupClick { group: "Front".to_string() }, false, &mut im, &mut osc);
    assert!(!im.is_in_solo_set("L"));
    assert!(im.is_in_solo_set("R"));
    handle_command_direct(WebCommand::GroupDial { group: "front".to_string(), direction: 1 }, false, &mut im, &mut osc);
    assert!(im.is_in_solo_set("R"));
    handle_command_direct(WebCommand::ToggleMute, false, &mut im, &mut osc);
    assert!(im.is_mute_blinking());
}

#[test]
fn master_commands_go_through_pending_values() {
    let mut im = InteractionManager::new();
    let mut osc = OscSharedState::new();
    handle_command_direct(WebCommand::SetVolume { value_bits: 0.5f32.to_bits() }, false, &mut im, &mut osc);
    assert_eq!(osc.take_pending_volume(), Some(0.5f32.to_bits()));
    handle_command_direct(WebCommand::ToggleDim, false, &mut im, &mut osc);
    assert_eq!(osc.take_pending_dim(), Some(true));
    handle_command_direct(WebCommand::ToggleDim, false, &mut im, &mut osc);
    assert_eq!(osc.take_pending_dim(), Some(false));
    handle_command_direct(WebCommand::SetCut { on: true }, false, &mut im, &mut osc);
    assert_eq!(osc.take_pending_cut(), Some(true));
    handle_command_direct(WebCommand::ToggleMono, false, &mut im, &mut osc);
    handle_command_direct(WebCommand::ToggleLowBoost, false, &mut im, &mut osc);
    handle_command_direct(WebCommand::ToggleHighBoost, false, &mut im, &mut osc);
    handle_command_direct(WebCommand::ToggleLfeAdd10dB, false, &mut im, &mut osc);
    assert!(osc.get_mono() && osc.get_low_boost() && osc.get_high_boost() && osc.get_lfe_add_10db());
}

#[test]
fn channel_states_cover_twenty_channels_in_order() {
    let mut im = InteractionManager::new();
    im.on_solo_button_click();
    im.on_channel_click("C");
    let states = build_channel_states(&im);
    assert_eq!(states.len(), 20);
    assert_eq!(states[2].name, "C");
    assert_eq!(states[2].state, 2);
    assert_eq!(states[0].state, 1);
    assert_eq!(states[12].name, "SUB_F");
    assert!(states[12].is_sub);
    assert_eq!(states[19].name, "RBB");
    assert_eq!(states[19].index, 19);
    assert!(!states[19].is_sub);
}

#[test]
fn web_state_copies_snapshot_and_switches() {
    let mut im = InteractionManager::new();
    im.on_mute_button_click();
    im.on_channel_click("R");
    let mut osc = OscSharedState::new();
    osc.set_master_volume(0.25f32.to_bits());
    let switches = WebSwitches { dim: true, cut: false, mono: true, low_boost: false, high_boost: true, lfe_add_10db: false };
    let s = build_web_state(&im, &osc, switches);
    assert_eq!(s.primary, 2);
    assert_eq!(s.compare, 0);
    assert_eq!(s.mute_mask, 0b10);
    assert_eq!(s.solo_mask, 0);
    assert_eq!(s.master_volume_bits, 0.25f32.to_bits());
    assert!(s.dim && s.mono && s.high_boost && !s.cut);
    assert_eq!(s.channels.len(), 20);
}

#[test]
fn server_address() {
    let mut w = WebSharedState::new();
    assert_eq!(w.get_address(), None);
    w.is_running = true;
    w.port = 8080;
    assert_eq!(w.get_address(), Some("127.0.0.1:8080".to_string()));
    w.local_ip = "192.168.1.20".to_string();
    assert_eq!(w.get_address(), Some("192.168.1.20:8080".to_string()));
    let d = WebSharedState::default();
    assert!(!d.is_running && d.port == 0);
}

#[test]
fn pressing_a_group_twice_restores_the_sets() {
    let mut im = InteractionManager::new();
    let mut osc = OscSharedState::new();
    im.on_mute_button_click();
    im.on_channel_click("LTF");
    let before: Vec<bool> = ["LTF", "RTF", "LTB", "RTB"].iter().map(|c| im.is_in_mute_set(c)).collect();
    handle_command_direct(WebCommand::GroupClick { group: "top".to_string() }, false, &mut im, &mut osc);
    assert!(!im.is_in_mute_set("LTF") && im.is_in_mute_set("RTB"));
    handle_command_direct(WebCommand::GroupClick { group: "TOP".to_string() }, false, &mut im, &mut osc);
    let after: Vec<bool> = ["LTF", "RTF", "LTB", "RTB"].iter().map(|c| im.is_in_mute_set(c)).collect();
    assert_eq!(before, after);
}
