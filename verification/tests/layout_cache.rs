use monitor_controller::config_manager::{ConfigManager, ConfigValue, RawConfig, SpeakerLayoutConfig};
use monitor_controller::layout_cache::{auto_detect_layout, LayoutCache};
use monitor_controller::osc::OscSharedState;

fn manager() -> ConfigManager {
    let speaker = |name: &str, chans: &[&str]| SpeakerLayoutConfig {
        name: name.to_string(),
        entries: chans.iter().enumerate().map(|(i, c)| (c.to_string(), ConfigValue::Unsigned(i as u64))).collect(),
    };
    ConfigManager::new(RawConfig {
        speakers: vec![speaker("Quad", &["L", "R", "LSS", "RSS"]), speaker("Stereo", &["L", "R"])],
        subs: Vec::new(),
    })
}

#[test]
fn layout_is_rebuilt_only_on_change() {
    let m = manager();
    let mut cache = LayoutCache::new();
    let mut osc = OscSharedState::new();
    assert!(cache.refresh_with_osc(&m, 1, 0, &mut osc));
    assert_eq!(cache.layout.as_ref().map(|l| l.total_channels), Some(2));
    assert_eq!(osc.current_channel_names, vec!["L".to_string(), "R".to_string()]);
    assert!(!cache.refresh(&m, 1, 0));
    assert!(cache.refresh(&m, 0, 0));
    assert_eq!(cache.layout.as_ref().map(|l| l.name.clone()), Some("Quad+None".to_string()));
}

#[test]
fn out_of_range_indices_select_the_default_names() {
    let m = manager();
    let mut cache = LayoutCache::new();
    assert!(cache.refresh(&m, -1, 9));
    // "7.1.4" is not configured here, so the stereo fallback is used.
    assert_eq!(cache.layout.as_ref().map(|l| l.name.clone()), Some("Fallback_Stereo".to_string()));
    assert_eq!(cache.key, (-1, 9));
}

#[test]
fn layouts_are_preselected_for_multichannel_outputs() {
    let m = manager();
    assert_eq!(auto_detect_layout(&m, 2), None);
    assert_eq!(auto_detect_layout(&m, 4), Some(0));
    assert_eq!(auto_detect_layout(&m, 3), Some(1));
}
