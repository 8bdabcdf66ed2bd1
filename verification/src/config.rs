//! Configuration models whose values are not floating point: driver mode,
//! theme, WebSocket server and speed telemetry settings, and the defaults
//! that fill fields missing from older settings files.
use vstd::prelude::*;
use vstd::string::*;

verus! {

/// How pen movement moves the cursor.
#[derive(Clone, Copy, Debug, PartialEq, Eq, Structural)]
pub enum DriverMode {
    /// Points of the tablet map to points of the screen.
    Absolute,
    /// The cursor moves by the pen's movement, as with a mouse.
    Relative,
}

impl Default for DriverMode {
    fn default() -> (m: Self)
        ensures
            m == DriverMode::Absolute,
    {
        DriverMode::Absolute
    }
}

/// The theme the user chose for the application.
#[derive(Clone, Copy, Debug, PartialEq, Eq, Structural)]
pub enum ThemePreference {
    System,
    Light,
    Dark,
    CatppuccinLatte,
    CatppuccinFrappe,
    CatppuccinMacchiato,
    CatppuccinMocha,
}

impl Default for ThemePreference {
    fn default() -> (t: Self)
        ensures
            t == ThemePreference::System,
    {
        ThemePreference::System
    }
}

/// The unit pen speed is reported in.
#[derive(Clone, Copy, Debug, PartialEq, Eq, Structural)]
pub enum SpeedUnit {
    MillimetersPerSecond,
    MetersPerSecond,
    KilometersPerHour,
    MilesPerHour,
}

impl Default for SpeedUnit {
    fn default() -> (u: Self)
        ensures
            u == SpeedUnit::MillimetersPerSecond,
    {
        SpeedUnit::MillimetersPerSecond
    }
}

/// The default tip and eraser thresholds.
pub fn default_threshold() -> (t: u16)
    ensures
        t == 10,
{
    10
}

pub fn default_false() -> (b: bool)
    ensures
        !b,
{
    false
}

pub fn default_true() -> (b: bool)
    ensures
        b,
{
    true
}

pub open spec fn default_tip_binding_text() -> Seq<char> {
    "Mouse Button Binding: (Button: Left)"@
}

pub open spec fn no_binding_text() -> Seq<char> {
    "None"@
}

/// The pen tip clicks the left mouse button.
pub fn default_tip_binding() -> (s: String)
    ensures
        s@ == default_tip_binding_text(),
{
    String::from_str("Mouse Button Binding: (Button: Left)")
}

/// The eraser is bound to nothing.
pub fn default_eraser_binding() -> (s: String)
    ensures
        s@ == no_binding_text(),
{
    String::from_str("None")
}

/// Both barrel buttons are bound to nothing.
pub fn default_button_bindings() -> (v: Vec<String>)
    ensures
        v@.len() == 2,
        v@[0]@ == no_binding_text(),
        v@[1]@ == no_binding_text(),
{
    let mut v: Vec<String> = Vec::new();
    v.push(String::from_str("None"));
    v.push(String::from_str("None"));
    v
}

pub fn default_ws_port() -> (p: u16)
    ensures
        p == 8080,
{
    8080
}

pub fn default_ws_hz() -> (hz: u32)
    ensures
        hz == 60,
{
    60
}

/// Settings of the embedded WebSocket server.
#[derive(Clone, Debug, PartialEq, Eq, Structural)]
pub struct WebSocketConfig {
    pub enabled: bool,
    pub port: u16,
    pub polling_rate_hz: u32,
    pub send_coordinates: bool,
    pub send_pressure: bool,
    pub send_tilt: bool,
    pub send_status: bool,
}

impl Default for WebSocketConfig {
    /// The server is off, listens on port 8080 at 60 Hz and sends every field.
    fn default() -> (c: Self)
        ensures
            c == (WebSocketConfig {
                enabled: false,
                port: 8080,
                polling_rate_hz: 60,
                send_coordinates: true,
                send_pressure: true,
                send_tilt: true,
                send_status: true,
            }),
    {
        WebSocketConfig {
            enabled: default_false(),
            port: default_ws_port(),
            polling_rate_hz: default_ws_hz(),
            send_coordinates: default_true(),
            send_pressure: default_true(),
            send_tilt: default_true(),
            send_status: default_true(),
        }
    }
}

/// Settings of the pen speed telemetry sender.
#[derive(Clone, Debug, PartialEq)]
pub struct SpeedStatsConfig {
    pub enabled: bool,
    pub ip: String,
    pub port: u16,
    pub unit: SpeedUnit,
}

pub open spec fn loopback_text() -> Seq<char> {
    "127.0.0.1"@
}

impl Default for SpeedStatsConfig {
    /// Telemetry is off and would go to 127.0.0.1:9001 in millimetres per second.
    fn default() -> (c: Self)
        ensures
            !c.enabled,
            c.ip@ == loopback_text(),
            c.port == 9001,
            c.unit == SpeedUnit::MillimetersPerSecond,
    {
        SpeedStatsConfig {
            enabled: false,
            ip: String::from_str("127.0.0.1"),
            port: 9001,
            unit: SpeedUnit::MillimetersPerSecond,
        }
    }
}

} // verus!
