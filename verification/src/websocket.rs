//! The decisions of the WebSocket server loop: when the server starts and
//! stops, what each message carries, and how long the loop waits.
use crate::config::WebSocketConfig;
use crate::report::TabletData;
use vstd::prelude::*;

verus! {

/// One message to the clients; a field the configuration leaves out is `None`.
pub struct WsPayload {
    pub x: Option<u16>,
    pub y: Option<u16>,
    pub pressure: Option<u16>,
    pub status: Option<String>,
    pub is_connected: Option<bool>,
}

/// The message sent for `data`: coordinates, pressure and status each when
/// the configuration asks for them.
pub fn ws_payload(data: &TabletData, config: &WebSocketConfig) -> (p: WsPayload)
    ensures
        p.x == (if config.send_coordinates { Some(data.x) } else { None::<u16> }),
        p.y == (if config.send_coordinates { Some(data.y) } else { None::<u16> }),
        p.pressure == (if config.send_pressure { Some(data.pressure) } else { None::<u16> }),
        config.send_status ==> (p.status matches Some(s) && s@ == data.status@),
        !config.send_status ==> p.status is None,
        p.is_connected == (if config.send_status { Some(data.is_connected) } else { None::<bool> }),
{
    WsPayload {
        x: if config.send_coordinates {
            Some(data.x)
        } else {
            None
        },
        y: if config.send_coordinates {
            Some(data.y)
        } else {
            None
        },
        pressure: if config.send_pressure {
            Some(data.pressure)
        } else {
            None
        },
        status: if config.send_status {
            Some(data.status.clone())
        } else {
            None
        },
        is_connected: if config.send_status {
            Some(data.is_connected)
        } else {
            None
        },
    }
}

/// What the loop does with its listener.
#[derive(Debug, Clone, Copy, PartialEq, Eq, Structural)]
pub enum ServerAction {
    /// Leave the listener as it is.
    Keep,
    /// Drop the clients and the listener.
    Stop,
    /// Drop the clients and listen on this port.
    Start(u16),
}

/// The server follows the configuration: it stops when it runs but is
/// disabled, and (re)starts when it is enabled but not running, or running
/// on another port than the configured one.
pub open spec fn server_decision(config: WebSocketConfig, running: bool, current_port: u16) -> ServerAction {
    if !config.enabled {
        if running {
            ServerAction::Stop
        } else {
            ServerAction::Keep
        }
    } else if !running || current_port != config.port {
        ServerAction::Start(config.port)
    } else {
        ServerAction::Keep
    }
}

pub fn server_action(config: &WebSocketConfig, running: bool, current_port: u16) -> (a: ServerAction)
    ensures
        a == server_decision(*config, running, current_port),
{
    if !config.enabled {
        if running {
            ServerAction::Stop
        } else {
            ServerAction::Keep
        }
    } else if !running || current_port != config.port {
        ServerAction::Start(config.port)
    } else {
        ServerAction::Keep
    }
}

/// Whether the server runs after `a`, and on which port.
pub open spec fn after_action(a: ServerAction, running: bool, current_port: u16) -> (bool, u16) {
    match a {
        ServerAction::Keep => (running, current_port),
        ServerAction::Stop => (false, current_port),
        ServerAction::Start(port) => (true, port),
    }
}

/// After its action the server is where the configuration wants it:
/// listening on the configured port when enabled, not running when
/// disabled; and a server already there is left alone.
pub proof fn lemma_server_follows_config(config: WebSocketConfig, running: bool, current_port: u16)
    ensures
        ({
            let a = server_decision(config, running, current_port);
            let (now_running, now_port) = after_action(a, running, current_port);
            &&& config.enabled ==> now_running && now_port == config.port
            &&& !config.enabled ==> !now_running
            &&& (config.enabled == running && (running ==> current_port == config.port)) ==> a
                == ServerAction::Keep
        }),
{
}

/// The pause between two rounds of the loop, in milliseconds: a second
/// divided by the polling rate, a rate of 0 counting as 1.
pub fn poll_interval_ms(config: &WebSocketConfig) -> (ms: u32)
    ensures
        ms == 1000int / (if config.polling_rate_hz == 0 { 1int } else { config.polling_rate_hz as int }),
{
    let hz = if config.polling_rate_hz == 0 {
        1
    } else {
        config.polling_rate_hz
    };
    1000 / hz
}

} // verus!
