use monitor_controller::channel_logic::{ChannelGain, ChannelLogic};
use monitor_controller::config::{
    default_master_ip, default_network_port, default_osc_receive_port, default_osc_send_port,
    default_speaker_layout, default_sub_layout, AppConfig,
};
use monitor_controller::config_manager::{
    ChannelLookupEntry, ConfigManager, ConfigValue, RawConfig, SpeakerLayoutConfig, SubLayoutConfig,
};
use monitor_controller::interaction::InteractionManager;

fn speaker(name: &str, size: &str, channels: &[(&str, u64)]) -> SpeakerLayoutConfig {
    let mut entries = vec![("Size".to_string(), ConfigValue::Text(size.to_string()))];
    for (n, p) in channels {
        entries.push((n.to_string(), ConfigValue::Unsigned(*p)));
    }
    SpeakerLayoutConfig { name: name.to_string(), entries }
}

fn sample() -> ConfigManager {
    ConfigManager::new(RawConfig {
        speakers: vec![
            speaker("Stereo", "3x1", &[("R", 2), ("L", 0)]),
            speaker("5.1", "5x5", &[("L", 0), ("R", 4), ("C", 2), ("LFE", 7), ("LSS", 10), ("RSS", 14)]),
        ],
        subs: vec![SubLayoutConfig { name: "Single".to_string(), entries: vec![("SUB_F".to_string(), 1)] }],
    })
}

#[test]
fn app_config_defaults() {
    let c = AppConfig::default();
    assert_eq!(c.osc_send_port, 7444);
    assert_eq!(c.osc_receive_port, 7445);
    assert_eq!(c.network_port, 9123);
    assert_eq!(c.master_ip, "127.0.0.1");
    assert_eq!(c.default_speaker_layout, "7.1.4");
    assert_eq!(c.default_sub_layout, "None");
    assert_eq!(default_osc_send_port(), 7444);
    assert_eq!(default_osc_receive_port(), 7445);
    assert_eq!(default_network_port(), 9123);
    assert_eq!(default_master_ip(), "127.0.0.1");
    assert_eq!(default_speaker_layout(), "7.1.4");
    assert_eq!(default_sub_layout(), "None");
}

#[test]
fn layout_names_are_sorted_with_none_first() {
    let m = sample();
    assert_eq!(m.get_speaker_layouts(), vec!["5.1".to_string(), "Stereo".to_string()]);
    assert_eq!(m.get_sub_layouts(), vec!["None".to_string(), "Single".to_string()]);
    assert_eq!(m.get_speaker_name(1), Some("Stereo"));
    assert_eq!(m.get_speaker_name(2), None);
    assert_eq!(m.get_sub_name(0), Some("None"));
}

#[test]
fn layouts_put_standard_channels_in_order_then_subs() {
    let m = sample();
    let l = m.get_layout("Stereo", "Single");
    assert_eq!(l.name, "Stereo+Single");
    assert_eq!((l.width, l.height), (3, 1));
    assert_eq!(l.main_channels.len(), 2);
    assert_eq!(l.main_channels[0].name, "L");
    assert_eq!(l.main_channels[0].channel_index, 0);
    assert_eq!(l.main_channels[1].name, "R");
    assert_eq!(l.main_channels[1].grid_pos, 2);
    assert_eq!(l.sub_channels.len(), 1);
    assert_eq!(l.sub_channels[0].channel_index, 2);
    assert_eq!(l.total_channels, 3);
    assert_eq!(l.channel_by_index[2].as_str(), "SUB_F");
    assert!(!l.channel_by_index[3].valid);
}

#[test]
fn unknown_layouts_fall_back_to_stereo() {
    let m = sample();
    let l = m.get_layout("Atmos", "None");
    assert_eq!(l.name, "Fallback_Stereo");
    assert_eq!(l.total_channels, 2);
    assert_eq!(l.main_channels[1].grid_pos, 3);
}

#[test]
fn layout_search_by_channel_count() {
    let m = sample();
    assert_eq!(m.find_layout_for_channels(6), Some(0));
    assert_eq!(m.find_layout_for_channels(2), Some(1));
    assert_eq!(m.find_layout_for_channels(4), Some(1));
    assert_eq!(m.find_layout_for_channels(1), None);
}

#[test]
fn duplicate_names_give_an_empty_configuration() {
    let m = ConfigManager::new(RawConfig {
        speakers: vec![speaker("A", "1x1", &[("L", 0)]), speaker("A", "1x1", &[("R", 0)])],
        subs: Vec::new(),
    });
    assert!(m.get_speaker_layouts().is_empty());
    assert_eq!(m.get_sub_layouts(), vec!["None".to_string()]);
}

#[test]
fn lookup_entries_hold_the_name_bytes() {
    let e = ChannelLookupEntry::from_str("SUB_F");
    assert!(e.valid);
    assert_eq!(e.name_len, 5);
    assert_eq!(e.as_str(), "SUB_F");
    let long = ChannelLookupEntry::from_str("VERYLONGNAME");
    assert_eq!(long.name_len, 8);
    assert_eq!(long.as_str(), "VERYLONG");
    assert!(!ChannelLookupEntry::default().valid);
}

#[test]
fn render_plan_in_manual_mode() {
    let m = sample();
    let l = m.get_layout("5.1", "Single");
    let mut im = InteractionManager::new();
    im.on_solo_button_click();
    im.on_channel_click("C");
    im.on_channel_click("LFE");
    let plan = ChannelLogic::compute(&l, &im.get_snapshot(), &[true; 32], true, true);
    // Buffer order: L R C LFE LSS RSS SUB_F.
    assert_eq!(plan.channel_gains[0], ChannelGain::Silent);
    assert_eq!(plan.channel_gains[2], ChannelGain::Unity);
    assert_eq!(plan.channel_gains[3], ChannelGain::LfeBoost);
    assert_eq!(plan.channel_gains[6], ChannelGain::SubBoost);
    assert_eq!(plan.channel_gains[7], ChannelGain::Silent);
    assert_eq!(plan.channel_mute_mask, 0b11_0011);
}

#[test]
fn render_plan_reads_sub_channels_by_name() {
    let m = sample();
    let l = m.get_layout("5.1", "Single");
    let mut im = InteractionManager::new();
    im.on_solo_button_click();
    im.on_channel_click("SUB_F");
    assert!(im.get_channel_display("SUB_F").has_sound);
    assert!(im.get_channel_display("L").has_sound);
    let plan = ChannelLogic::compute(&l, &im.get_snapshot(), &[true; 32], false, false);
    // Buffer order: L R C LFE LSS RSS SUB_F; SUB_F is soloed, main channels are heard.
    assert_eq!(plan.channel_gains[0], ChannelGain::Unity);
    assert_eq!(plan.channel_gains[6], ChannelGain::Unity);
    assert_eq!(plan.channel_mute_mask, 0);
    let snap = im.get_snapshot();
    assert!(snap.get_channel_state_by_name("SUB_F"));
}

#[test]
fn render_plan_in_automation_mode_follows_enables() {
    let m = sample();
    let l = m.get_layout("Stereo", "None");
    let mut im = InteractionManager::new();
    im.enter_automation_mode();
    let mut enables = [true; 32];
    enables[1] = false;
    let plan = ChannelLogic::compute(&l, &im.get_snapshot(), &enables, false, false);
    assert_eq!(plan.channel_gains[0], ChannelGain::Unity);
    assert_eq!(plan.channel_gains[1], ChannelGain::Silent);
    assert_eq!(plan.channel_mute_mask, 0b10);
}
