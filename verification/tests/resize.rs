use monitor_controller::resize::{HostResizeState, ResizeDebounce};

#[test]
fn debounce_skips_only_small_fast_changes() {
    let debounce = ResizeDebounce::default();
    let now: u64 = 5_000_000_000;
    let last = Some((1000, 700, now));

    assert!(debounce.should_skip(last, (1001, 701), now + 2_000_000));
    assert!(!debounce.should_skip(last, (1030, 730), now + 2_000_000));
    assert!(!debounce.should_skip(last, (1001, 701), now + 20_000_000));
}

#[test]
fn debounce_never_skips_the_first_request() {
    let debounce = ResizeDebounce::default();
    assert!(!debounce.should_skip(None, (1000, 700), 0));
}

#[test]
fn default_debounce_is_eight_ms_and_one_pixel() {
    let debounce = ResizeDebounce::default();
    assert_eq!(debounce.min_interval_nanos, 8_000_000);
    assert_eq!(debounce.epsilon_width, 1);
    assert_eq!(debounce.epsilon_height, 1);
}

#[test]
fn skip_decision_needs_all_three_conditions() {
    let debounce = ResizeDebounce::default();
    assert!(debounce.skip_decision(Some((1000, 700)), (999, 701), true));
    assert!(!debounce.skip_decision(Some((1000, 700)), (999, 701), false));
    assert!(!debounce.skip_decision(Some((1000, 700)), (1002, 700), true));
    assert!(!debounce.skip_decision(Some((1000, 700)), (1000, 698), true));
    assert!(!debounce.skip_decision(None, (1000, 700), true));
}

#[test]
fn coordinator_state_tracks_pending_and_host_commit() {
    let mut state = HostResizeState::new((980, 654), ResizeDebounce::default());
    assert_eq!(state.size(), (980, 654));
    let now: u64 = 1_000_000;

    let requested = state.begin_request_from_ui((1048, 700), now).expect("first request should pass");
    assert_eq!(requested, (1048, 700));
    assert_eq!(state.size(), requested);

    let committed = state.on_host_resized(requested);
    assert_eq!(committed, requested);
    assert_eq!(state.size(), committed);
    assert!(state.pending_requested_size.is_none());
}

#[test]
fn coordinator_state_drops_a_small_fast_second_request() {
    let mut state = HostResizeState::new((980, 654), ResizeDebounce::default());
    let now: u64 = 1_000_000;
    assert_eq!(state.begin_request_from_ui((1000, 700), now), Some((1000, 700)));
    assert_eq!(state.begin_request_from_ui((1001, 700), now), None);
    assert_eq!(state.size(), (1000, 700));
}

#[test]
fn rejecting_a_request_restores_the_host_size() {
    let mut state = HostResizeState::new((980, 654), ResizeDebounce::default());
    let now: u64 = 1_000_000;
    assert!(state.begin_request_from_ui((1200, 800), now).is_some());
    assert_eq!(state.size(), (1200, 800));
    state.reject_pending_request();
    assert_eq!(state.size(), (980, 654));
}

#[test]
fn debounce_boundary_is_exclusive() {
    let debounce = ResizeDebounce::default();
    let last = Some((1000, 700, 1_000));
    assert!(debounce.should_skip(last, (1000, 700), 1_000 + 7_999_999));
    assert!(!debounce.should_skip(last, (1000, 700), 1_000 + 8_000_000));
    // A time before the last request counts as no time at all.
    assert!(debounce.should_skip(last, (1000, 700), 500));
}

#[test]
fn coordinator_state_accepts_a_small_change_after_the_interval() {
    let mut state = HostResizeState::new((980, 654), ResizeDebounce::default());
    assert_eq!(state.begin_request_from_ui((1000, 700), 0), Some((1000, 700)));
    assert_eq!(state.begin_request_from_ui((1001, 700), 3_000_000), None);
    assert_eq!(state.begin_request_from_ui((1001, 700), 8_000_000), Some((1001, 700)));
    assert_eq!(state.last_resize_request, Some((1001, 700, 8_000_000)));
    assert_eq!(state.size(), (1001, 700));
}
