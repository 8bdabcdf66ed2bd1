use next_tablet_driver::pipeline::{is_positional, ButtonEvent, DebugStage, TipButton};
use next_tablet_driver::settings::{is_profile, preset_file_name, restored_profile, sort_profiles, SessionMeta};
use next_tablet_driver::startup::{
    desktop_entry, desktop_file_name, double_backslashes, shortcut_file_name, shortcut_script,
};
use next_tablet_driver::state::{profile_display_name, push_toast, AppTab, Toast, ToastLevel, MAX_TOASTS};
use next_tablet_driver::config::WebSocketConfig;
use next_tablet_driver::report::TabletData;
use next_tablet_driver::websocket::{poll_interval_ms, server_action, ws_payload, ServerAction};
use std::path::PathBuf;

#[test]
fn toasts_are_deduplicated_and_capped() {
    let mut toasts: Vec<Toast> = Vec::new();
    push_toast(&mut toasts, "a".to_string(), ToastLevel::Info);
    push_toast(&mut toasts, "a".to_string(), ToastLevel::Error);
    assert_eq!(toasts.len(), 1);
    assert!(toasts[0].level == ToastLevel::Info);
    push_toast(&mut toasts, "b".to_string(), ToastLevel::Warning);
    push_toast(&mut toasts, "c".to_string(), ToastLevel::Info);
    push_toast(&mut toasts, "d".to_string(), ToastLevel::Error);
    assert_eq!(toasts.len(), MAX_TOASTS);
    let messages: Vec<&str> = toasts.iter().map(|t| t.message.as_str()).collect();
    assert_eq!(messages, vec!["b", "c", "d"]);
    assert!(toasts[2].level == ToastLevel::Error);
}

#[test]
fn app_tabs_compare() {
    assert!(AppTab::Console == AppTab::Console);
    assert!(AppTab::Output != AppTab::Release);
}

#[test]
fn debug_stage_names() {
    assert_eq!(DebugStage::Normalize.as_str(), "Normalize");
    assert_eq!(DebugStage::Filter.as_str(), "Filter");
    assert_eq!(DebugStage::Project.as_str(), "Project");
    assert_eq!(DebugStage::Inject.as_str(), "Inject");
}

#[test]
fn preset_names_end_in_json() {
    assert_eq!(preset_file_name("osu"), "osu.json");
    assert_eq!(preset_file_name("osu.json"), "osu.json");
    assert_eq!(preset_file_name(""), ".json");
    assert_eq!(preset_file_name("a.JSON"), "a.JSON.json");
}

#[test]
fn profile_files() {
    assert!(is_profile("json", "osu"));
    assert!(!is_profile("json", "last_session"));
    assert!(!is_profile("json", "session_meta"));
    assert!(!is_profile("txt", "osu"));
}

#[test]
fn profiles_sort_by_lower_case_name() {
    let profiles = vec![
        ("beta".to_string(), PathBuf::from("/p/beta.json")),
        ("Alpha".to_string(), PathBuf::from("/p/Alpha.json")),
        ("alpha".to_string(), PathBuf::from("/p/alpha.json")),
        ("Gamma".to_string(), PathBuf::from("/p/Gamma.json")),
        ("a".to_string(), PathBuf::from("/p/a.json")),
    ];
    let sorted = sort_profiles(profiles);
    let names: Vec<&str> = sorted.iter().map(|p| p.0.as_str()).collect();
    assert_eq!(names, vec!["a", "Alpha", "alpha", "beta", "Gamma"]);
    assert_eq!(sorted[1].1, PathBuf::from("/p/Alpha.json"));
    assert!(sort_profiles(vec![]).is_empty());
}

#[test]
fn startup_file_names() {
    assert_eq!(desktop_file_name(), "NextTabletDriver.desktop");
    assert_eq!(shortcut_file_name(), "NextTabletDriver.lnk");
}

#[test]
fn desktop_entry_text() {
    assert_eq!(
        desktop_entry("/opt/ntd/next"),
        "[Desktop Entry]\nType=Application\nName=NextTabletDriver\nComment=Tablet Driver for Osu! and Drawing\nExec=/opt/ntd/next\nTerminal=false\nX-GNOME-Autostart-enabled=true\nStartupNotify=false\n"
    );
}

#[test]
fn vbs_paths_have_backslashes_doubled() {
    assert_eq!(double_backslashes(r"C:\a\b"), r"C:\\a\\b");
    assert_eq!(double_backslashes("plain"), "plain");
    let script = shortcut_script(r"C:\s.lnk", r"C:\x\n.exe", r"C:\x");
    assert_eq!(
        script,
        "Set oWS = WScript.CreateObject(\"WScript.Shell\")\n            Set oLink = oWS.CreateShortcut(\"C:\\\\s.lnk\")\n            oLink.TargetPath = \"C:\\\\x\\\\n.exe\"\n            oLink.WorkingDirectory = \"C:\\\\x\"\n            oLink.Save"
    );
}

fn sample_data() -> TabletData {
    TabletData {
        status: "Contact".to_string(),
        x: 100,
        y: 200,
        pressure: 300,
        tilt_x: 1,
        tilt_y: 2,
        buttons: 0,
        eraser: false,
        hover_distance: 0,
        raw_data: String::new(),
        is_connected: true,
    }
}

#[test]
fn websocket_payload_follows_config() {
    let mut c = WebSocketConfig::default();
    let p = ws_payload(&sample_data(), &c);
    assert_eq!(p.x, Some(100));
    assert_eq!(p.y, Some(200));
    assert_eq!(p.pressure, Some(300));
    assert_eq!(p.status, Some("Contact".to_string()));
    assert_eq!(p.is_connected, Some(true));
    c.send_coordinates = false;
    c.send_status = false;
    let p = ws_payload(&sample_data(), &c);
    assert_eq!(p.x, None);
    assert_eq!(p.y, None);
    assert_eq!(p.pressure, Some(300));
    assert_eq!(p.status, None);
    assert_eq!(p.is_connected, None);
}

#[test]
fn websocket_server_follows_config() {
    let mut c = WebSocketConfig::default();
    assert_eq!(server_action(&c, false, 0), ServerAction::Keep);
    c.enabled = true;
    assert_eq!(server_action(&c, false, 0), ServerAction::Start(8080));
    assert_eq!(server_action(&c, true, 8080), ServerAction::Keep);
    assert_eq!(server_action(&c, true, 9000), ServerAction::Start(8080));
    c.enabled = false;
    assert_eq!(server_action(&c, true, 8080), ServerAction::Stop);
}

#[test]
fn websocket_poll_interval() {
    let mut c = WebSocketConfig::default();
    assert_eq!(poll_interval_ms(&c), 16);
    c.polling_rate_hz = 0;
    assert_eq!(poll_interval_ms(&c), 1000);
    c.polling_rate_hz = 2000;
    assert_eq!(poll_interval_ms(&c), 0);
}

#[test]
fn profile_names_in_footer() {
    assert_eq!(profile_display_name("osu", true, false), "osu");
    assert_eq!(profile_display_name("osu", true, true), "*osu");
    assert_eq!(profile_display_name("osu", false, false), "Unsaved Session");
    assert_eq!(profile_display_name("osu", false, true), "*Unsaved Session");
}

#[test]
fn positional_reports() {
    let mut d = sample_data();
    assert!(is_positional(&d));
    d.status = "Hover".to_string();
    assert!(is_positional(&d));
    d.status = "Active".to_string();
    assert!(is_positional(&d));
    d.status = "Aux".to_string();
    assert!(!is_positional(&d));
    assert!(!is_positional(&TabletData::out_of_range()));
}

#[test]
fn empty_and_out_of_range_reports() {
    let d = TabletData::default();
    assert_eq!(d.status, "");
    assert_eq!((d.x, d.y, d.pressure), (0, 0, 0));
    assert!(!d.is_connected);
    let o = TabletData::out_of_range();
    assert_eq!(o.status, "Out of Range");
    assert!(!o.is_connected);
}

#[test]
fn tip_button_sends_only_changes() {
    let mut tip = TipButton::new();
    assert_eq!(tip.set(false), None);
    assert_eq!(tip.set(true), Some(ButtonEvent::Press));
    assert_eq!(tip.set(true), None);
    assert_eq!(tip.set(false), Some(ButtonEvent::Release));
    assert!(!tip.down);
}

#[test]
fn profile_identity_is_restored() {
    let (name, path) = restored_profile(Some(SessionMeta {
        profile_name: "osu".to_string(),
        profile_path: Some(PathBuf::from("/p/osu.json")),
    }));
    assert_eq!(name, "osu");
    assert_eq!(path, Some(PathBuf::from("/p/osu.json")));
    let (name, path) = restored_profile(None);
    assert_eq!(name, "Unsaved Session");
    assert_eq!(path, None);
}
