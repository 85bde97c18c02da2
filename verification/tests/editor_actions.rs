use monitor_controller::config::AppConfig;
use monitor_controller::config_manager::{ChannelInfo, ChannelLookupEntry, Layout};
use monitor_controller::editor_actions::{
    click_main_channel, click_sub_channel, cycle_layout, cycle_role, cycle_solo_mode, press_mute_button,
    press_solo_button, request_restarts_after_save, secondary_click_sub_channel, select_layout, select_role,
    set_automation_mode, settings_from_form, toggle_web,
};
use monitor_controller::editor_state::{PluginRole, SoloMode};
use monitor_controller::interaction::{InteractionManager, PrimaryMode};
use monitor_controller::osc::{OscOutMessage, OscSharedState};
use monitor_controller::web_protocol::WebRestartAction;

fn info(name: &str, grid_pos: u32, channel_index: usize) -> ChannelInfo {
    ChannelInfo { name: name.to_string(), grid_pos, channel_index }
}

fn layout() -> Layout {
    Layout {
        name: "t".to_string(),
        width: 5,
        height: 5,
        main_channels: vec![info("L", 0, 0), info("R", 4, 1)],
        sub_channels: vec![info("SUB_F", 0, 2), info("SUB_B", 1, 3)],
        total_channels: 4,
        channel_by_index: [ChannelLookupEntry::default(); 32],
    }
}

#[test]
fn roles_and_solo_modes_step_without_wrapping() {
    assert_eq!(cycle_role(PluginRole::Standalone, 1), Some(PluginRole::Master));
    assert_eq!(cycle_role(PluginRole::Master, 5), Some(PluginRole::Slave));
    assert_eq!(cycle_role(PluginRole::Standalone, -1), None);
    assert_eq!(cycle_role(PluginRole::Slave, 1), None);
    assert_eq!(cycle_solo_mode(SoloMode::SIP, 1), Some(SoloMode::PFL));
    assert_eq!(cycle_solo_mode(SoloMode::PFL, 1), None);
    assert_eq!(cycle_solo_mode(SoloMode::PFL, -3), Some(SoloMode::SIP));
    assert_eq!(select_role(2, PluginRole::Master), Some(PluginRole::Slave));
    assert_eq!(select_role(1, PluginRole::Master), None);
    assert_eq!(select_role(3, PluginRole::Master), None);
}

#[test]
fn layouts_step_and_select_within_the_list() {
    assert_eq!(cycle_layout(0, 1, 3, false, false), Some(1));
    assert_eq!(cycle_layout(2, 1, 3, false, false), None);
    assert_eq!(cycle_layout(0, 1, 0, false, false), None);
    assert_eq!(cycle_layout(0, 1, 3, true, false), None);
    assert_eq!(cycle_layout(0, 1, 3, false, true), None);
    assert_eq!(select_layout(-4, 1, false, false), Some(0));
    assert_eq!(select_layout(1, 1, false, false), None);
    assert_eq!(select_layout(2, 1, true, false), None);
}

#[test]
fn main_channel_clicks_go_by_buffer_index() {
    let mut im = InteractionManager::new();
    let l = layout();
    assert!(!click_main_channel(&mut im, &l, 1, false));
    im.on_solo_button_click();
    assert!(click_main_channel(&mut im, &l, 1, false));
    assert!(im.is_in_solo_set("R"));
    assert!(!click_main_channel(&mut im, &l, 7, false));
    assert!(!click_main_channel(&mut im, &l, 0, true));
    assert!(!im.is_in_solo_set("L"));
}

#[test]
fn sub_clicks_single_then_double() {
    let mut im = InteractionManager::new();
    im.on_mute_button_click();
    let l = layout();
    assert!(click_sub_channel(&mut im, &l, 0, 3, false));
    assert!(im.is_in_mute_set("SUB_B"));
    assert!(click_sub_channel(&mut im, &l, 0, 3, false));
    assert!(!im.get_channel_display("SUB_B").has_sound);
    assert!(click_sub_channel(&mut im, &l, 0, 99, false));
    assert!(im.is_in_mute_set("SUB_F"));
    assert!(!click_sub_channel(&mut im, &l, 5, 99, false));
}

#[test]
fn secondary_sub_click_toggles_user_mute() {
    let mut im = InteractionManager::new();
    im.on_solo_button_click();
    let l = layout();
    assert!(secondary_click_sub_channel(&mut im, &l, 2, false));
    assert!(!im.get_channel_display("SUB_F").has_sound);
    assert!(!secondary_click_sub_channel(&mut im, &l, 0, false));
    im.enter_automation_mode();
    assert!(!secondary_click_sub_channel(&mut im, &l, 2, false));
}

#[test]
fn editor_mode_buttons_report_to_osc() {
    let mut im = InteractionManager::new();
    let mut osc = OscSharedState::new();
    osc.sender_connected = true;
    press_solo_button(&mut im, &mut osc, false);
    assert_eq!(im.get_primary(), PrimaryMode::Solo);
    assert_eq!(osc.outbox.len(), 2);
    assert!(matches!(osc.outbox[0], OscOutMessage::ModeSolo { on: true }));
    assert!(matches!(osc.outbox[1], OscOutMessage::ModeMute { on: false }));
    press_mute_button(&mut im, &mut osc, false);
    assert!(im.is_mute_blinking());
    assert_eq!(osc.outbox.len(), 3);
    press_mute_button(&mut im, &mut osc, true);
    assert_eq!(osc.outbox.len(), 3);
}

#[test]
fn automation_switch_is_for_standalone_only() {
    let mut im = InteractionManager::new();
    assert!(!set_automation_mode(&mut im, true, PluginRole::Master));
    assert!(!im.is_automation_mode());
    im.on_solo_button_click();
    assert!(set_automation_mode(&mut im, true, PluginRole::Standalone));
    assert!(im.is_automation_mode() && im.is_idle());
    assert!(set_automation_mode(&mut im, false, PluginRole::Standalone));
    assert!(!im.is_automation_mode());
}

#[test]
fn web_switch_and_saved_settings() {
    let mut im = InteractionManager::new();
    toggle_web(&mut im, true);
    assert_eq!(im.take_web_restart_request(), Some(WebRestartAction::Stop));
    toggle_web(&mut im, false);
    assert_eq!(im.take_web_restart_request(), Some(WebRestartAction::Start));

    let c = settings_from_form(&AppConfig::default(), " 9000", "bad", "9200 ", "10.0.0.2");
    assert_eq!((c.osc_send_port, c.osc_receive_port, c.network_port), (9000, 7445, 9200));
    assert_eq!(c.master_ip, "10.0.0.2");
    assert_eq!(c.default_speaker_layout, "7.1.4");

    request_restarts_after_save(&mut im, c.clone(), PluginRole::Standalone);
    assert_eq!(im.take_osc_restart_request().map(|c| c.osc_send_port), Some(9000));
    assert!(!im.has_network_restart_pending());
    assert_eq!(im.take_web_restart_request(), Some(WebRestartAction::Start));
    request_restarts_after_save(&mut im, c, PluginRole::Slave);
    assert_eq!(im.take_network_restart_request().map(|c| c.network_port), Some(9200));
}
