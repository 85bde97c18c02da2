use monitor_controller::logger::{
    file_line, generate_instance_id, header_lines, instance_id_from_nanos, log_file_name, ui_line, Level,
    RecentLogs, MAX_RECENT_LOGS,
};

#[test]
fn level_labels_are_five_wide() {
    assert_eq!(Level::Error.to_string(), "ERROR");
    assert_eq!(Level::Warn.to_string(), "WARN ");
    assert_eq!(Level::Info.to_string(), "INFO ");
    assert_eq!(Level::Debug.to_string(), "DEBUG");
    assert_eq!(Level::Trace.to_string(), "TRACE");
    assert!(Level::Error < Level::Trace);
}

#[test]
fn instance_id_is_the_low_32_bits_in_hex() {
    assert_eq!(instance_id_from_nanos(0x1234_5678_9abc_def0), "9abcdef0");
    assert_eq!(instance_id_from_nanos(0xff), "000000ff");
    let id = generate_instance_id();
    assert_eq!(id.len(), 8);
    assert!(id.chars().all(|c| c.is_ascii_hexdigit() && !c.is_ascii_uppercase()));
}

#[test]
fn line_formats() {
    assert_eq!(
        file_line("2024-01-02 03:04:05.678", Level::Warn, "osc", "port busy"),
        "[2024-01-02 03:04:05.678] [WARN ] [osc] port busy"
    );
    assert_eq!(ui_line("03:04:05", "web", "started"), "[03:04:05] [web] started");
    assert_eq!(log_file_name("deadbeef", "2024-01-02_03-04-05"), "MCM_deadbeef_2024-01-02_03-04-05.log");
    let h = header_lines("T", "abc");
    assert_eq!(h.len(), 4);
    assert_eq!(h[1], "[T] [INFO ] MonitorControllerMax Logger Initialized");
    assert_eq!(h[2], "[T] [INFO ] Instance ID: abc");
}

#[test]
fn recent_logs_keep_the_last_fifty() {
    let mut logs = RecentLogs::new();
    assert!(logs.get_recent_logs().is_empty());
    for i in 0..60 {
        logs.push(format!("line {}", i));
    }
    let kept = logs.get_recent_logs();
    assert_eq!(kept.len(), MAX_RECENT_LOGS);
    assert_eq!(kept[0], "line 10");
    assert_eq!(kept[49], "line 59");
}
