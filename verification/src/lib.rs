//! Verified core of the NextTabletDriver: vendor report parsers, tablet
//! detection and initialisation, update version handling, configuration
//! defaults, the log and console rules, and the decisions of the
//! application's loops.

pub mod config;
pub mod console;
pub mod domain;
pub mod logger;
pub mod parsers;
pub mod pipeline;
pub mod report;
pub mod settings;
pub mod startup;
pub mod state;
pub mod tablet;
pub mod text;
pub mod update;
pub mod version;
pub mod websocket;

pub use version::VERSION;

