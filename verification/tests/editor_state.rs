use monitor_controller::config_manager::{ChannelInfo, ChannelLookupEntry, Layout};
use monitor_controller::editor_state::{
    adopt_network_layout, channel_enable_updates, channel_ui_snapshots, clamp_selector_index, clear_for_layout_change,
    event_log_text, mode_button_visibility, name_at_or_unknown, parse_port, prepare_role_change, role_index,
    role_to_text, solo_mode_to_text, ui_permissions, web_address_text, PluginRole, PollState, SoloMode,
};
use monitor_controller::interaction::InteractionManager;
use monitor_controller::web::WebSharedState;

fn info(name: &str, grid_pos: u32, channel_index: usize) -> ChannelInfo {
    ChannelInfo { name: name.to_string(), grid_pos, channel_index }
}

fn small_layout() -> Layout {
    Layout {
        name: "test".to_string(),
        width: 5,
        height: 5,
        main_channels: vec![info("L", 0, 0), info("R", 4, 1)],
        sub_channels: vec![info("SUB_F", 1, 2)],
        total_channels: 3,
        channel_by_index: [ChannelLookupEntry::default(); 32],
    }
}

#[test]
fn ports_are_read_trimmed_with_a_fallback() {
    assert_eq!(parse_port(" 9000 ", 7444), 9000);
    assert_eq!(parse_port("", 7444), 7444);
    assert_eq!(parse_port("70000", 7444), 7444);
    assert_eq!(parse_port("80a", 1), 1);
}

#[test]
fn role_and_mode_texts() {
    assert_eq!(role_to_text(PluginRole::Standalone), "Standalone");
    assert_eq!(role_to_text(PluginRole::Master), "Master (Source)");
    assert_eq!(role_to_text(PluginRole::Slave), "Slave (Monitor)");
    assert_eq!(solo_mode_to_text(SoloMode::SIP), "SIP (Solo In Place)");
    assert_eq!(solo_mode_to_text(SoloMode::PFL), "PFL (Pre Fader Listen)");
    assert_eq!(role_index(PluginRole::Slave), 2);
}

#[test]
fn channel_buttons_follow_markers_and_blinking() {
    let mut im = InteractionManager::new();
    im.on_solo_button_click();
    im.on_channel_click("L");
    let layout = small_layout();
    let buttons = channel_ui_snapshots(&im, &layout, true);
    assert_eq!(buttons.len(), 3);
    assert_eq!(buttons[0].name, "L");
    assert_eq!(buttons[0].state, 2);
    assert_eq!(buttons[1].state, 1);
    assert_eq!(buttons[1].grid_pos, 4);
    assert_eq!(buttons[2].state, 2);
    assert_eq!(buttons[0].sub_relative_index, -1);
    assert!(buttons[2].is_sub);
    assert_eq!(buttons[2].sub_relative_index, 0);
    assert_eq!(buttons[2].channel_index, 2);

    im.on_mute_button_click();
    im.on_channel_click("R");
    let lit = channel_ui_snapshots(&im, &layout, true);
    assert!(lit[1].blinking);
    assert_eq!(lit[1].state, 1);
    let dark = channel_ui_snapshots(&im, &layout, false);
    assert_eq!(dark[1].state, 0);
}

#[test]
fn mode_buttons_lit_when_steady() {
    let mut im = InteractionManager::new();
    assert_eq!(mode_button_visibility(&im), (false, false));
    im.on_solo_button_click();
    assert_eq!(mode_button_visibility(&im), (true, false));
}

#[test]
fn permissions_by_role_and_automation() {
    let p = ui_permissions(PluginRole::Slave, false);
    assert!(p.can_change_role && !p.can_change_layout && !p.controls_enabled);
    assert!(!p.channel_interaction_enabled && !p.automation_toggle_enabled);
    let q = ui_permissions(PluginRole::Standalone, true);
    assert!(!q.can_change_layout && q.controls_enabled && !q.channel_interaction_enabled);
    assert!(q.automation_toggle_enabled);
    let r = ui_permissions(PluginRole::Master, false);
    assert!(r.can_change_layout && r.channel_interaction_enabled && !r.automation_toggle_enabled);
}

#[test]
fn selector_names_and_indexes() {
    let names = vec!["5.1".to_string(), "Stereo".to_string()];
    assert_eq!(name_at_or_unknown(&names, 1), "Stereo");
    assert_eq!(name_at_or_unknown(&names, -3), "5.1");
    assert_eq!(name_at_or_unknown(&names, 2), "Unknown");
    assert_eq!(clamp_selector_index(5, 2), 1);
    assert_eq!(clamp_selector_index(-1, 2), 0);
    assert_eq!(clamp_selector_index(3, 0), 0);
    assert_eq!(clamp_selector_index(1, 2), 1);
}

#[test]
fn status_texts() {
    assert_eq!(event_log_text(&Vec::new()), "No events recorded.");
    assert_eq!(event_log_text(&vec!["a".to_string(), "b".to_string()]), "a\nb");
    assert_eq!(event_log_text(&vec!["only".to_string()]), "only");
    assert_eq!(web_address_text(&WebSharedState::new()), "not running");
}

#[test]
fn poll_state_reports_changes() {
    let mut s = PollState::new(vec!["A".to_string()], vec!["None".to_string()]);
    let first = s.observe(0, 0, 0);
    assert!(first.reload_layout && first.layout_changed && !first.role_changed);
    let same = s.observe(0, 0, 0);
    assert!(!same.reload_layout && !same.layout_changed && !same.role_changed);
    let sub = s.observe(0, 1, 2);
    assert!(sub.reload_layout && sub.layout_changed && sub.role_changed);
    assert_eq!((s.prev_layout, s.prev_sub_layout, s.prev_role), (0, 1, 2));
}

#[test]
fn poll_state_reports_grid_changes() {
    let mut s = PollState::new(vec!["A".to_string()], vec!["None".to_string()]);
    assert_eq!((s.prev_grid_width, s.prev_grid_height), (-1, -1));
    assert_eq!(s.observe_grid(5, 5), (true, true));
    assert_eq!(s.observe_grid(5, 5), (false, false));
    assert_eq!(s.observe_grid(7, 5), (true, false));
    assert_eq!((s.prev_grid_width, s.prev_grid_height), (7, 5));
}

#[test]
fn layout_change_clears_unless_automated() {
    let mut im = InteractionManager::new();
    im.on_solo_button_click();
    clear_for_layout_change(&mut im);
    assert!(im.is_idle());
    im.on_solo_button_click();
    im.enter_automation_mode();
    clear_for_layout_change(&mut im);
    assert!(im.is_automation_mode());
}

#[test]
fn network_layout_is_adopted_only_when_new() {
    let mut im = InteractionManager::new();
    im.on_mute_button_click();
    assert_eq!(adopt_network_layout(&mut im, Some(2), 2), None);
    assert!(!im.is_idle());
    assert_eq!(adopt_network_layout(&mut im, None, 2), None);
    assert_eq!(adopt_network_layout(&mut im, Some(3), 2), Some(3));
    assert!(im.is_idle());
}

#[test]
fn role_change_leaves_automation() {
    let mut im = InteractionManager::new();
    im.enter_automation_mode();
    assert!(!prepare_role_change(&mut im, PluginRole::Standalone));
    assert!(im.is_automation_mode());
    assert!(prepare_role_change(&mut im, PluginRole::Slave));
    assert!(!im.is_automation_mode());
}

#[test]
fn enable_updates_list_every_channel_in_range() {
    let mut im = InteractionManager::new();
    im.on_solo_button_click();
    im.on_channel_click("R");
    let mut layout = small_layout();
    layout.sub_channels.push(info("SUB_B", 2, 40));
    let updates = channel_enable_updates(&im, &layout);
    assert_eq!(updates, vec![(0, false), (1, true), (2, true)]);
}
