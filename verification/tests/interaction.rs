use monitor_controller::channel_set::ChannelSet;
use monitor_controller::interaction::{
    ChannelMarker, CompareMode, DoubleClickDetector, InteractionManager, PrimaryMode, RenderSnapshot, SubClickType,
};
use monitor_controller::network_protocol::NetworkInteractionState;
use monitor_controller::web_protocol::WebRestartAction;

#[test]
fn channel_set_basics() {
    let mut s = ChannelSet::new();
    assert!(s.is_empty());
    s.toggle("L");
    s.set("SUB_F", true);
    s.set("SUB_F", true);
    assert!(s.contains("L") && s.contains("SUB_F"));
    assert!(s.has_any_sub() && s.has_any_main());
    assert_eq!(s.iter().count(), 2);
    s.toggle("L");
    assert!(!s.contains("L") && !s.has_any_main());
    s.clear();
    assert!(s.is_empty());
}

#[test]
fn solo_button_cycles_idle_solo_idle() {
    let mut im = InteractionManager::new();
    assert!(im.is_idle());
    im.on_solo_button_click();
    assert_eq!(im.get_primary(), PrimaryMode::Solo);
    assert!(im.is_solo_steady());
    im.on_solo_button_click();
    assert!(im.is_idle());
}

#[test]
fn compare_mode_starts_from_a_copy_and_returns() {
    let mut im = InteractionManager::new();
    im.on_solo_button_click();
    im.on_channel_click("L");
    im.on_channel_click("C");
    im.on_mute_button_click();
    assert_eq!(im.get_compare(), CompareMode::Mute);
    assert!(im.is_in_mute_set("L") && im.is_in_mute_set("C"));
    im.on_channel_click("C");
    assert!(!im.is_in_mute_set("C"));
    assert!(im.is_in_solo_set("C"));
    im.on_mute_button_click();
    assert_eq!(im.get_compare(), CompareMode::Off);
    assert_eq!(im.get_primary(), PrimaryMode::Solo);
    im.on_mute_button_click();
    assert!(!im.is_in_mute_set("C"), "the edited compare set is kept");
}

#[test]
fn channel_click_without_a_mode_does_nothing() {
    let mut im = InteractionManager::new();
    assert!(!im.on_channel_click("L"));
    assert!(im.is_idle());
}

#[test]
fn clicking_a_channel_twice_restores_the_sets() {
    let mut im = InteractionManager::new();
    im.on_mute_button_click();
    im.on_channel_click("R");
    im.on_channel_click("R");
    assert!(!im.is_in_mute_set("R"));
    assert!(im.get_mute_set().is_empty());
}

#[test]
fn channel_display_in_solo() {
    let mut im = InteractionManager::new();
    im.on_solo_button_click();
    im.on_channel_click("L");
    let l = im.get_channel_display("L");
    assert!(l.has_sound && l.marker == Some(ChannelMarker::Solo) && !l.is_blinking);
    let r = im.get_channel_display("R");
    assert!(!r.has_sound && r.marker == Some(ChannelMarker::Mute));
    let sub = im.get_channel_display("SUB_F");
    assert!(sub.has_sound);
    assert!(im.is_channel_solo("L") && im.is_channel_muted("R"));
}

#[test]
fn snapshot_matches_the_display() {
    let mut im = InteractionManager::new();
    im.on_solo_button_click();
    im.on_channel_click("C");
    let snap = im.get_snapshot();
    assert_eq!(snap.primary, 1);
    assert_eq!(snap.solo_mask, 1 << 2);
    assert!(snap.get_channel_state("C", 2));
    assert!(!snap.get_channel_state("L", 0));
    assert!(RenderSnapshot::default().get_channel_state("L", 0));
}

#[test]
fn sub_double_click_toggles_user_mute() {
    let mut im = InteractionManager::new();
    im.on_solo_button_click();
    assert!(im.on_sub_double_click("SUB_B"));
    let d = im.get_channel_display("SUB_B");
    assert!(!d.has_sound && d.marker == Some(ChannelMarker::Mute));
    assert!(!im.on_sub_double_click("LFE"));
    assert!(im.on_sub_double_click("SUB_B"));
    assert!(im.get_channel_display("SUB_B").has_sound);
}

#[test]
fn double_clicks_on_the_same_channel() {
    let mut d = DoubleClickDetector::new();
    assert!(!d.check(3));
    assert!(d.check(3));
    assert!(!d.check(3));
    assert!(!d.check(4));
    let mut im = InteractionManager::new();
    assert_eq!(im.detect_sub_click(12), SubClickType::SingleClick);
    assert_eq!(im.detect_sub_click(12), SubClickType::DoubleClick);
}

#[test]
fn double_click_threshold_is_three_hundred_ms() {
    let mut d = DoubleClickDetector::new();
    assert!(!d.check_at(3, 1_000));
    assert!(d.check_at(3, 1_000 + 299_999_999));
    assert!(!d.check_at(3, 2_000_000_000));
    assert!(!d.check_at(3, 2_300_000_000));
    assert!(!d.check_at(4, 2_300_000_001));
    assert!(!d.check_at(3, 2_300_000_002));
    assert!(d.check_at(3, 2_300_000_003));
}

#[test]
fn set_channel_sound_leaves_an_emptied_mode() {
    let mut im = InteractionManager::new();
    im.on_solo_button_click();
    im.set_channel_sound("L", true, true);
    assert!(im.is_in_solo_set("L"));
    im.set_channel_sound("L", false, true);
    assert!(im.is_idle());
}

#[test]
fn set_channel_state_sets_membership() {
    let mut im = InteractionManager::new();
    im.on_mute_button_click();
    im.set_channel_state("LFE", 2);
    assert!(!im.is_in_mute_set("LFE"), "state 2 means Solo, which a Mute context ignores");
    im.set_channel_state("LFE", 1);
    assert!(im.is_in_mute_set("LFE"));
    im.set_channel_state("LFE", 0);
    assert!(!im.is_in_mute_set("LFE"));
}

#[test]
fn automation_mode_switches() {
    let mut im = InteractionManager::new();
    im.enter_automation_mode();
    assert!(im.is_automation_mode());
    im.exit_automation_mode();
    assert!(!im.is_automation_mode());
}

#[test]
fn blinking_channels_are_the_compare_selection() {
    let mut im = InteractionManager::new();
    im.on_solo_button_click();
    im.on_channel_click("L");
    im.on_channel_click("SUB_F");
    assert!(im.get_blinking_channels().is_empty());
    im.on_mute_button_click();
    assert_eq!(im.get_blinking_channels(), vec!["L".to_string()]);
}

#[test]
fn blink_phase_turns_every_fifteen_ticks() {
    let mut im = InteractionManager::new();
    assert!(im.should_blink_show());
    for _ in 0..15 {
        im.tick_blink();
    }
    assert!(!im.should_blink_show());
}

#[test]
fn network_state_round_trip() {
    let mut master = InteractionManager::new();
    master.on_mute_button_click();
    master.on_channel_click("LSS");
    master.on_sub_double_click("SUB_R");
    let state = master.to_network_state(0.5f32.to_bits(), true, false, 3, 1).with_timestamp();
    assert!(state.is_valid());
    assert_eq!(state.primary, 2);
    assert_eq!(state.mute_mask, 1 << 4);
    assert_eq!(state.user_mute_sub_mask, 1 << 3);
    let mut slave = InteractionManager::new();
    slave.from_network_state(&state);
    assert_eq!(slave.get_primary(), PrimaryMode::Mute);
    assert!(slave.is_in_mute_set("LSS"));
    assert_eq!(slave.take_network_master_gain(), Some(0.5f32.to_bits()));
    assert_eq!(slave.take_network_master_gain(), None);
    assert_eq!(slave.take_network_dim(), Some(true));
    assert_eq!(slave.take_network_layout(), Some(3));
    slave.clear_network_state();
    assert_eq!(slave.take_network_sub_layout(), None);
}

#[test]
fn masks_encode_standard_channels() {
    let mut s = ChannelSet::new();
    s.toggle("L");
    s.toggle("RTB");
    s.toggle("SUB_F");
    let mask = NetworkInteractionState::channel_set_to_mask(&s);
    assert_eq!(mask, 1 | (1 << 11) | (1 << 12));
    let back = NetworkInteractionState::mask_to_channel_set(mask);
    assert!(back.contains("L") && back.contains("RTB") && back.contains("SUB_F") && !back.contains("R"));
    assert_eq!(NetworkInteractionState::sub_name_to_bit("SUB_L"), Some(2));
    assert_eq!(NetworkInteractionState::sub_name_to_bit("L"), None);
    let mut subs = ChannelSet::new();
    subs.toggle("SUB_B");
    assert_eq!(NetworkInteractionState::sub_set_to_mask(&subs), 0b10);
    assert!(NetworkInteractionState::mask_to_sub_set(0b10).contains("SUB_B"));
}

#[test]
fn restart_requests_are_taken_once() {
    let mut im = InteractionManager::new();
    assert!(!im.has_web_restart_pending());
    im.request_web_restart(WebRestartAction::Start);
    assert!(im.has_web_restart_pending());
    assert_eq!(im.take_web_restart_request(), Some(WebRestartAction::Start));
    assert_eq!(im.take_web_restart_request(), None);
    im.request_osc_restart(monitor_controller::config::AppConfig::default());
    assert!(im.has_osc_restart_pending());
    assert!(im.take_osc_restart_request().is_some());
    assert!(im.take_osc_restart_request().is_none());
    im.request_network_restart(monitor_controller::config::AppConfig::default());
    assert!(im.take_network_restart_request().is_some());
}

#[test]
fn layout_change_clears_the_modes() {
    let mut im = InteractionManager::new();
    im.on_solo_button_click();
    im.on_channel_click("L");
    im.clear_on_layout_change();
    assert!(im.is_idle());
    assert!(im.get_solo_set().is_empty());
}

#[test]
fn mute_button_cycles_idle_mute_idle() {
    let mut im = InteractionManager::new();
    im.on_mute_button_click();
    assert!(im.is_mute_steady());
    im.on_mute_button_click();
    assert!(im.is_idle());
}

#[test]
fn solo_compare_round_trip_keeps_the_mute_context() {
    let mut im = InteractionManager::new();
    im.on_mute_button_click();
    im.on_channel_click("C");
    im.on_solo_button_click();
    assert_eq!(im.get_compare(), CompareMode::Solo);
    im.on_channel_click("L");
    im.on_solo_button_click();
    assert_eq!(im.get_compare(), CompareMode::Off);
    assert_eq!(im.get_primary(), PrimaryMode::Mute);
    assert!(im.is_in_mute_set("C") && !im.is_in_mute_set("L"));
}
