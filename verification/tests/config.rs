use next_tablet_driver::config::{
    default_button_bindings, default_eraser_binding, default_false, default_threshold,
    default_tip_binding, default_true, default_ws_hz, default_ws_port, DriverMode,
    SpeedStatsConfig, SpeedUnit, ThemePreference, WebSocketConfig,
};

#[test]
fn default_values() {
    assert_eq!(default_threshold(), 10);
    assert!(!default_false());
    assert!(default_true());
    assert_eq!(default_tip_binding(), "Mouse Button Binding: (Button: Left)");
    assert_eq!(default_eraser_binding(), "None");
    assert_eq!(default_button_bindings(), vec!["None".to_string(), "None".to_string()]);
    assert_eq!(default_ws_port(), 8080);
    assert_eq!(default_ws_hz(), 60);
}

#[test]
fn websocket_config_default() {
    let c = WebSocketConfig::default();
    assert_eq!(
        c,
        WebSocketConfig {
            enabled: false,
            port: 8080,
            polling_rate_hz: 60,
            send_coordinates: true,
            send_pressure: true,
            send_tilt: true,
            send_status: true,
        }
    );
}

#[test]
fn speed_stats_config_default() {
    let c = SpeedStatsConfig::default();
    assert!(!c.enabled);
    assert_eq!(c.ip, "127.0.0.1");
    assert_eq!(c.port, 9001);
    assert_eq!(c.unit, SpeedUnit::MillimetersPerSecond);
}

#[test]
fn enum_defaults() {
    assert_eq!(DriverMode::default(), DriverMode::Absolute);
    assert_eq!(ThemePreference::default(), ThemePreference::System);
    assert_eq!(SpeedUnit::default(), SpeedUnit::MillimetersPerSecond);
}
