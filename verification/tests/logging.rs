use next_tablet_driver::console::{filter_logs, ConsoleFilter};
use next_tablet_driver::logger::{
    format_log_line, is_allowed_target, push_log_entry, GlobalLogger, LogEntry, MAX_LOG_ENTRIES,
};

fn entry(level: &str, group: &str, message: &str) -> LogEntry {
    LogEntry {
        time: "12:34:56".to_string(),
        level: level.to_string(),
        group: group.to_string(),
        message: message.to_string(),
    }
}

fn all_levels(search: &str) -> ConsoleFilter {
    ConsoleFilter {
        search: search.to_string(),
        show_info: true,
        show_warn: true,
        show_error: true,
        show_debug: true,
    }
}

#[test]
fn whitelisted_targets() {
    assert!(is_allowed_target("App"));
    assert!(is_allowed_target("Detect"));
    assert!(is_allowed_target("HID::reader"));
    assert!(is_allowed_target("NextTabletDriver"));
    assert!(is_allowed_target("NextTabletDriver::engine"));
    assert!(!is_allowed_target("Settings"));
    assert!(!is_allowed_target("Apps"));
    assert!(!is_allowed_target("App:"));
    assert!(!is_allowed_target("hidapi"));
    assert!(!is_allowed_target(""));
}

#[test]
fn log_line_format() {
    let e = entry("Info", "App", "started");
    assert_eq!(format_log_line(&e), "[12:34:56] Info [App] started");
}

#[test]
fn buffer_keeps_newest_500() {
    let mut entries = Vec::new();
    for i in 0..(MAX_LOG_ENTRIES + 20) {
        push_log_entry(&mut entries, entry("Info", "App", &format!("m{}", i)));
        assert!(entries.len() <= MAX_LOG_ENTRIES);
    }
    assert_eq!(entries.len(), 500);
    assert_eq!(entries[0].message, "m20");
    assert_eq!(entries[499].message, "m519");
}

#[test]
fn logger_drops_hidden_targets() {
    let mut logger = GlobalLogger::new();
    logger.log(entry("Info", "Settings", "hidden"));
    logger.log(entry("Info", "Update", "shown"));
    assert_eq!(logger.entries.len(), 1);
    assert_eq!(logger.entries[0].message, "shown");
}

#[test]
fn console_filters_newest_first() {
    let logs = vec![
        entry("Info", "App", "first"),
        entry("Warn", "HID", "second"),
        entry("Debug", "Detect", "third"),
        entry("Trace", "App", "fourth"),
    ];
    let mut f = all_levels("");
    f.show_debug = false;
    let (total, shown, text) = filter_logs(&logs, &f);
    assert_eq!(total, 4);
    let messages: Vec<&str> = shown.iter().map(|e| e.message.as_str()).collect();
    assert_eq!(messages, vec!["fourth", "second", "first"]);
    assert_eq!(
        text,
        "[12:34:56] Info [App] first\n[12:34:56] Warn [HID] second\n[12:34:56] Debug [Detect] third\n[12:34:56] Trace [App] fourth"
    );
}

#[test]
fn console_search_ignores_case() {
    let logs = vec![
        entry("Info", "App", "Tablet CONNECTED"),
        entry("Info", "Detect", "scan"),
        entry("Error", "Update", "failed"),
    ];
    let (_, shown, _) = filter_logs(&logs, &all_levels("connected"));
    assert_eq!(shown.len(), 1);
    assert_eq!(shown[0].message, "Tablet CONNECTED");
    let (_, shown, _) = filter_logs(&logs, &all_levels("DETECT"));
    assert_eq!(shown.len(), 1);
    assert_eq!(shown[0].group, "Detect");
    let (total, shown, text) = filter_logs(&vec![], &all_levels(""));
    assert_eq!(total, 0);
    assert!(shown.is_empty());
    assert_eq!(text, "");
}

#[test]
fn console_shows_everything_by_default() {
    let f = ConsoleFilter::default();
    assert!(f.show_info && f.show_warn && f.show_error && f.show_debug);
    assert_eq!(f.search, "");
    let logs = vec![entry("Trace", "App", "x"), entry("Debug", "UI", "y")];
    assert_eq!(filter_logs(&logs, &f).1.len(), 2);
}
