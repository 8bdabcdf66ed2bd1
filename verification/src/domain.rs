//! The shared configuration vocabulary, under the names the engine uses.
pub use crate::config::{SpeedUnit, WebSocketConfig};
